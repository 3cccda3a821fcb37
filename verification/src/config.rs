use vstd::prelude::*;
use vstd::string::*;
use crate::error::VmError;
use crate::text::{
    spec_u64_str,
    sep_pos,
    spec_is_u64_string,
    spec_digits_val,
    spec_uint_body,
    u64_to_string,
    split_once_char,
    str_eq,
    parse_u64,
    parse_u32,
};

verus! {

/// How to reach the control plane.
#[derive(Debug, Clone)]
pub struct LibvirtConfig {
    pub uri: String,
    pub socket_path: Option<String>,
    pub timeout: u64,
}

/// Where disk images, install media, and backups live.
#[derive(Debug, Clone)]
pub struct StorageConfig {
    pub default_pool: String,
    pub vm_images_path: String,
    pub iso_path: String,
    pub backup_path: String,
}

/// Which virtual network new machines prefer.
#[derive(Debug, Clone)]
pub struct NetworkConfig {
    pub default_network: String,
    pub bridge_interface: String,
}

/// A reusable machine shape: resources, platform, and boot order.
#[derive(Debug, Clone)]
pub struct VmTemplate {
    pub memory: u64,
    pub cpus: u32,
    pub disk_size: u64,
    pub os_type: String,
    pub arch: String,
    pub machine_type: String,
    pub boot_order: Vec<String>,
    pub features: Vec<String>,
}

/// Fallback values for machine creation.
#[derive(Debug, Clone)]
pub struct DefaultsConfig {
    pub memory: u64,
    pub cpus: u32,
    pub disk_size: u64,
    pub disk_format: String,
    pub network: String,
    pub graphics: String,
}

/// The whole configuration. Template names are unique: the list behaves
/// as a map keyed by name, looked up by first match.
#[derive(Debug, Clone)]
pub struct Config {
    pub libvirt: LibvirtConfig,
    pub storage: StorageConfig,
    pub network: NetworkConfig,
    pub templates: Vec<(String, VmTemplate)>,
    pub defaults: DefaultsConfig,
}

/// No template name occurs twice.
pub open spec fn spec_templates_unique(ts: Seq<(String, VmTemplate)>) -> bool {
    forall|i: int, j: int| 0 <= i < j < ts.len() ==> (#[trigger] ts[i]).0@ != (#[trigger] ts[j]).0@
}

/// The first template carrying the given name, if any.
pub open spec fn spec_find_template(
    ts: Seq<(String, VmTemplate)>,
    name: Seq<char>,
) -> Option<VmTemplate>
    decreases ts.len(),
{
    if ts.len() == 0 {
        None
    } else if ts[0].0@ == name {
        Some(ts[0].1)
    } else {
        spec_find_template(ts.drop_first(), name)
    }
}

/// Every section other than `libvirt` is the same in both
/// configurations.
pub open spec fn unchanged_but_libvirt(a: Config, b: Config) -> bool {
    &&& b.storage == a.storage
    &&& b.network == a.network
    &&& b.templates == a.templates
    &&& b.defaults == a.defaults
}

/// Every section other than `storage` is the same in both
/// configurations.
pub open spec fn unchanged_but_storage(a: Config, b: Config) -> bool {
    &&& b.libvirt == a.libvirt
    &&& b.network == a.network
    &&& b.templates == a.templates
    &&& b.defaults == a.defaults
}

/// Every section other than `network` is the same in both
/// configurations.
pub open spec fn unchanged_but_network(a: Config, b: Config) -> bool {
    &&& b.libvirt == a.libvirt
    &&& b.storage == a.storage
    &&& b.templates == a.templates
    &&& b.defaults == a.defaults
}

/// Every section other than `defaults` is the same in both
/// configurations.
pub open spec fn unchanged_but_defaults(a: Config, b: Config) -> bool {
    &&& b.libvirt == a.libvirt
    &&& b.storage == a.storage
    &&& b.network == a.network
    &&& b.templates == a.templates
}

impl Config {
    /// Look a template up by name.
    pub fn get_template(&self, name: &str) -> (r: Option<&VmTemplate>)
        ensures
            r is Some <==> spec_find_template(self.templates@, name@) is Some,
            r matches Some(t) ==> Some(*t) == spec_find_template(self.templates@, name@),
    {
        let ghost all = self.templates@;
        let mut i: usize = 0;
        proof {
            assert(all.skip(0) =~= all);
        }
        while i < self.templates.len()
            invariant
                all == self.templates@,
                0 <= i <= all.len(),
                spec_find_template(all, name@) == spec_find_template(all.skip(i as int), name@),
            decreases all.len() - i,
        {
            proof {
                assert(all.skip(i as int)[0] == all[i as int]);
                assert(all.skip(i as int).drop_first() =~= all.skip(i + 1));
            }
            if str_eq(self.templates[i].0.as_str(), name) {
                return Some(&self.templates[i].1);
            }
            i = i + 1;
        }
        proof {
            assert(all.skip(all.len() as int) =~= Seq::<(String, VmTemplate)>::empty());
        }
        None
    }

    /// Read one configuration value by its dotted key. Numeric values
    /// are rendered in decimal; an unknown key is an invalid input.
    pub fn get_value(&self, key: &str) -> (r: Result<String, VmError>)
        ensures
            key@ == "libvirt.uri"@ ==> (r matches Ok(v) && v@ == self.libvirt.uri@),
            key@ == "libvirt.timeout"@ ==> (r matches Ok(v) && v@ == spec_u64_str(
                self.libvirt.timeout as int,
            )),
            key@ == "storage.default_pool"@ ==> (r matches Ok(v) && v@
                == self.storage.default_pool@),
            key@ == "network.default_network"@ ==> (r matches Ok(v) && v@
                == self.network.default_network@),
            key@ == "defaults.memory"@ ==> (r matches Ok(v) && v@ == spec_u64_str(
                self.defaults.memory as int,
            )),
            key@ == "defaults.cpus"@ ==> (r matches Ok(v) && v@ == spec_u64_str(
                self.defaults.cpus as int,
            )),
            (key@ != "libvirt.uri"@ && key@ != "libvirt.timeout"@ && key@
                != "storage.default_pool"@ && key@ != "network.default_network"@ && key@
                != "defaults.memory"@ && key@ != "defaults.cpus"@) ==> (r matches Err(e)
                && e is InvalidInput && e.spec_detail() == "Unknown config key: "@ + key@),
    {
        proof {
            reveal_strlit("libvirt.uri");
            reveal_strlit("libvirt.timeout");
            reveal_strlit("storage.default_pool");
            reveal_strlit("network.default_network");
            reveal_strlit("defaults.memory");
            reveal_strlit("defaults.cpus");
            assert("libvirt.uri"@.len() == 11);
            assert("libvirt.timeout"@.len() == 15);
            assert("storage.default_pool"@.len() == 20);
            assert("network.default_network"@.len() == 23);
            assert("defaults.memory"@.len() == 15);
            assert("defaults.cpus"@.len() == 13);
            assert("libvirt.timeout"@[0] == 'l' && "defaults.memory"@[0] == 'd');
        }
        if str_eq(key, "libvirt.uri") {
            Ok(self.libvirt.uri.clone())
        } else if str_eq(key, "libvirt.timeout") {
            Ok(u64_to_string(self.libvirt.timeout))
        } else if str_eq(key, "storage.default_pool") {
            Ok(self.storage.default_pool.clone())
        } else if str_eq(key, "network.default_network") {
            Ok(self.network.default_network.clone())
        } else if str_eq(key, "defaults.memory") {
            Ok(u64_to_string(self.defaults.memory))
        } else if str_eq(key, "defaults.cpus") {
            Ok(u64_to_string(self.defaults.cpus as u64))
        } else {
            let mut msg = String::from_str("Unknown config key: ");
            msg.append(key);
            Err(VmError::InvalidInput(msg))
        }
    }

    /// Write one configuration value by its dotted key. Numeric keys
    /// parse their value in decimal and reject anything else; an
    /// unknown key is an invalid input. On any error the configuration
    /// is unchanged, and on success exactly the addressed field
    /// changes.
    pub fn set_value(&mut self, key: &str, value: &str) -> (r: Result<(), VmError>)
        ensures
            key@ == "libvirt.uri"@ ==> (r is Ok && final(self).libvirt.uri@ == value@
                && unchanged_but_libvirt(*old(self), *final(self)) && final(self).libvirt.timeout
                == old(self).libvirt.timeout && final(self).libvirt.socket_path == old(self).libvirt.socket_path),
            key@ == "libvirt.timeout"@ && spec_is_u64_string(value@) ==> (r is Ok && final(self).libvirt.timeout == spec_digits_val(spec_uint_body(value@))
                && unchanged_but_libvirt(*old(self), *final(self)) && final(self).libvirt.uri
                == old(self).libvirt.uri && final(self).libvirt.socket_path == old(self).libvirt.socket_path),
            key@ == "libvirt.timeout"@ && !spec_is_u64_string(value@) ==> (r matches Err(e)
                && e is InvalidInput && *final(self) == *old(self)),
            key@ == "storage.default_pool"@ ==> (r is Ok && final(self).storage.default_pool@
                == value@ && unchanged_but_storage(*old(self), *final(self)) && final(self).storage.vm_images_path == old(self).storage.vm_images_path && final(self).storage.iso_path == old(self).storage.iso_path && final(self).storage.backup_path
                == old(self).storage.backup_path),
            key@ == "network.default_network"@ ==> (r is Ok && final(self).network.default_network@ == value@ && unchanged_but_network(
                *old(self),
                *final(self),
            ) && final(self).network.bridge_interface == old(self).network.bridge_interface),
            key@ == "defaults.memory"@ && spec_is_u64_string(value@) ==> (r is Ok && final(self).defaults.memory == spec_digits_val(spec_uint_body(value@)) && unchanged_but_defaults(
                *old(self),
                *final(self),
            ) && final(self).defaults.cpus == old(self).defaults.cpus && final(self).defaults.disk_size == old(self).defaults.disk_size && final(self).defaults.disk_format == old(self).defaults.disk_format && final(self).defaults.network == old(self).defaults.network && final(self).defaults.graphics
                == old(self).defaults.graphics),
            key@ == "defaults.memory"@ && !spec_is_u64_string(value@) ==> (r matches Err(e)
                && e is InvalidInput && *final(self) == *old(self)),
            key@ == "defaults.cpus"@ && spec_is_u64_string(value@) && spec_digits_val(
                spec_uint_body(value@),
            ) <= u32::MAX ==> (r is Ok && final(self).defaults.cpus == spec_digits_val(
                spec_uint_body(value@),
            ) && unchanged_but_defaults(*old(self), *final(self)) && final(self).defaults.memory
                == old(self).defaults.memory && final(self).defaults.disk_size == old(self).defaults.disk_size && final(self).defaults.disk_format == old(self).defaults.disk_format && final(self).defaults.network == old(self).defaults.network
                && final(self).defaults.graphics == old(self).defaults.graphics),
            key@ == "defaults.cpus"@ && !(spec_is_u64_string(value@) && spec_digits_val(
                spec_uint_body(value@),
            ) <= u32::MAX) ==> (r matches Err(e) && e is InvalidInput && *final(self) == *old(self)),
            (key@ != "libvirt.uri"@ && key@ != "libvirt.timeout"@ && key@
                != "storage.default_pool"@ && key@ != "network.default_network"@ && key@
                != "defaults.memory"@ && key@ != "defaults.cpus"@) ==> (r matches Err(e)
                && e is InvalidInput && e.spec_detail() == "Unknown config key: "@ + key@
                && *final(self) == *old(self)),
    {
        proof {
            reveal_strlit("libvirt.uri");
            reveal_strlit("libvirt.timeout");
            reveal_strlit("storage.default_pool");
            reveal_strlit("network.default_network");
            reveal_strlit("defaults.memory");
            reveal_strlit("defaults.cpus");
            assert("libvirt.uri"@.len() == 11);
            assert("libvirt.timeout"@.len() == 15);
            assert("storage.default_pool"@.len() == 20);
            assert("network.default_network"@.len() == 23);
            assert("defaults.memory"@.len() == 15);
            assert("defaults.cpus"@.len() == 13);
            assert("libvirt.timeout"@[0] == 'l' && "defaults.memory"@[0] == 'd');
        }
        if str_eq(key, "libvirt.uri") {
            self.libvirt.uri = String::from_str(value);
            Ok(())
        } else if str_eq(key, "libvirt.timeout") {
            match parse_u64(value) {
                Some(v) => {
                    self.libvirt.timeout = v;
                    Ok(())
                },
                None => {
                    let mut msg = String::from_str("Invalid timeout value: ");
                    msg.append(value);
                    Err(VmError::InvalidInput(msg))
                },
            }
        } else if str_eq(key, "storage.default_pool") {
            self.storage.default_pool = String::from_str(value);
            Ok(())
        } else if str_eq(key, "network.default_network") {
            self.network.default_network = String::from_str(value);
            Ok(())
        } else if str_eq(key, "defaults.memory") {
            match parse_u64(value) {
                Some(v) => {
                    self.defaults.memory = v;
                    Ok(())
                },
                None => {
                    let mut msg = String::from_str("Invalid memory value: ");
                    msg.append(value);
                    Err(VmError::InvalidInput(msg))
                },
            }
        } else if str_eq(key, "defaults.cpus") {
            match parse_u32(value) {
                Some(v) => {
                    self.defaults.cpus = v;
                    Ok(())
                },
                None => {
                    let mut msg = String::from_str("Invalid CPU count: ");
                    msg.append(value);
                    Err(VmError::InvalidInput(msg))
                },
            }
        } else {
            let mut msg = String::from_str("Unknown config key: ");
            msg.append(key);
            Err(VmError::InvalidInput(msg))
        }
    }
}

fn default_templates() -> (r: Vec<(String, VmTemplate)>)
    ensures
        r@.len() == 2,
        r@[0].0@ == "ubuntu"@,
        r@[0].1.memory == 2048,
        r@[0].1.cpus == 2,
        r@[0].1.disk_size == 20,
        r@[1].0@ == "windows"@,
        r@[1].1.memory == 4096,
        r@[1].1.cpus == 2,
        r@[1].1.disk_size == 40,
        spec_templates_unique(r@),
{
    let mut boot: Vec<String> = Vec::new();
    boot.push(String::from_str("hd"));
    boot.push(String::from_str("cdrom"));
    let mut ubuntu_features: Vec<String> = Vec::new();
    ubuntu_features.push(String::from_str("acpi"));
    ubuntu_features.push(String::from_str("apic"));
    ubuntu_features.push(String::from_str("pae"));
    let ubuntu = VmTemplate {
        memory: 2048,
        cpus: 2,
        disk_size: 20,
        os_type: String::from_str("linux"),
        arch: String::from_str("x86_64"),
        machine_type: String::from_str("pc-q35-7.0"),
        boot_order: boot,
        features: ubuntu_features,
    };
    let mut boot2: Vec<String> = Vec::new();
    boot2.push(String::from_str("hd"));
    boot2.push(String::from_str("cdrom"));
    let mut windows_features: Vec<String> = Vec::new();
    windows_features.push(String::from_str("acpi"));
    windows_features.push(String::from_str("apic"));
    windows_features.push(String::from_str("hyperv"));
    let windows = VmTemplate {
        memory: 4096,
        cpus: 2,
        disk_size: 40,
        os_type: String::from_str("windows"),
        arch: String::from_str("x86_64"),
        machine_type: String::from_str("pc-q35-7.0"),
        boot_order: boot2,
        features: windows_features,
    };
    let mut out: Vec<(String, VmTemplate)> = Vec::new();
    out.push((String::from_str("ubuntu"), ubuntu));
    out.push((String::from_str("windows"), windows));
    proof {
        reveal_strlit("ubuntu");
        reveal_strlit("windows");
        assert("ubuntu"@.len() == 6);
        assert("windows"@.len() == 7);
    }
    out
}

impl Default for Config {
    /// The built-in configuration: the system control-plane socket, the
    /// conventional image and backup paths, the network named
    /// `default`, and the two built-in templates.
    fn default() -> (r: Config)
        ensures
            r.libvirt.uri@ == "qemu:///system"@,
            r.libvirt.socket_path matches Some(p) && p@ == "/var/run/libvirt/libvirt-sock"@,
            r.libvirt.timeout == 30,
            r.storage.default_pool@ == "default"@,
            r.storage.vm_images_path@ == "/var/lib/libvirt/images"@,
            r.storage.iso_path@ == "/var/lib/libvirt/images/iso"@,
            r.storage.backup_path@ == "/var/lib/libvirt/backup"@,
            r.network.default_network@ == "default"@,
            r.network.bridge_interface@ == "virbr0"@,
            r.defaults.memory == 2048,
            r.defaults.cpus == 2,
            r.defaults.disk_size == 20,
            r.defaults.disk_format@ == "qcow2"@,
            r.defaults.network@ == "default"@,
            r.defaults.graphics@ == "spice"@,
            r.templates@.len() == 2,
            spec_templates_unique(r.templates@),
    {
        Config {
            libvirt: LibvirtConfig {
                uri: String::from_str("qemu:///system"),
                socket_path: Some(String::from_str("/var/run/libvirt/libvirt-sock")),
                timeout: 30,
            },
            storage: StorageConfig {
                default_pool: String::from_str("default"),
                vm_images_path: String::from_str("/var/lib/libvirt/images"),
                iso_path: String::from_str("/var/lib/libvirt/images/iso"),
                backup_path: String::from_str("/var/lib/libvirt/backup"),
            },
            network: NetworkConfig {
                default_network: String::from_str("default"),
                bridge_interface: String::from_str("virbr0"),
            },
            templates: default_templates(),
            defaults: DefaultsConfig {
                memory: 2048,
                cpus: 2,
                disk_size: 20,
                disk_format: String::from_str("qcow2"),
                network: String::from_str("default"),
                graphics: String::from_str("spice"),
            },
        }
    }
}

/// Split a `key=value` argument at its first equals sign.
pub fn parse_key_val(s: &str) -> (r: Result<(String, String), String>)
    ensures
        sep_pos(s@, '=') == s@.len() ==> (r matches Err(e) && e@
            == "Invalid format. Use key=value"@),
        sep_pos(s@, '=') < s@.len() ==> (r matches Ok(p) && p.0@ == s@.take(sep_pos(s@, '='))
            && p.1@ == s@.skip(sep_pos(s@, '=') + 1)),
{
    match split_once_char(s, '=') {
        Some(p) => Ok(p),
        None => Err(String::from_str("Invalid format. Use key=value")),
    }
}

} // verus!
