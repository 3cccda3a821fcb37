use vstd::prelude::*;
use vstd::string::*;
use crate::config::{Config, spec_find_template};
use crate::error::VmError;
use crate::mac::{is_generated_mac, generate_mac_address, fresh_uuid_string};
use crate::model::{DiskInfo, NetworkRecord, NetworkRecordV, VmInfo};
use crate::reconcile::{spec_contains_string, contains_string};
use crate::state::VmState;
use crate::text::{spec_u64_str, u64_to_string};
use crate::validate::{spec_valid_vm_name, validate_vm_name};

verus! {

/// How many times a start request polls for the running state, once per
/// second, before reporting that the machine may still be starting.
pub const START_POLL_ATTEMPTS: u64 = 30;

/// Seconds between two state polls after a start request.
pub const START_POLL_INTERVAL_SECS: u64 = 1;

/// Seconds between two snapshots of the read-only monitor loop.
pub const MONITOR_INTERVAL_SECS: u64 = 2;

/// The names of the active networks among the listed ones, in order.
pub open spec fn spec_active_names(rs: Seq<NetworkRecordV>) -> Seq<Seq<char>>
    decreases rs.len(),
{
    if rs.len() == 0 {
        Seq::empty()
    } else {
        spec_active_names(rs.drop_last()) + if rs.last().active {
            seq![rs.last().name]
        } else {
            Seq::empty()
        }
    }
}

/// Extract the names of the active networks from a parsed listing.
pub fn active_network_names(records: &Vec<NetworkRecord>) -> (r: Vec<String>)
    ensures
        r@.map_values(|s: String| s@) == spec_active_names(
            records@.map_values(|n: NetworkRecord| n@),
        ),
{
    let ghost all = records@.map_values(|n: NetworkRecord| n@);
    let mut out: Vec<String> = Vec::new();
    let mut i: usize = 0;
    proof {
        assert(all.take(0) =~= Seq::<NetworkRecordV>::empty());
        assert(out@.map_values(|s: String| s@) =~= spec_active_names(all.take(0)));
    }
    while i < records.len()
        invariant
            all == records@.map_values(|n: NetworkRecord| n@),
            0 <= i <= records@.len(),
            out@.map_values(|s: String| s@) == spec_active_names(all.take(i as int)),
        decreases records@.len() - i,
    {
        proof {
            assert(all.take(i + 1).drop_last() =~= all.take(i as int));
            assert(all.take(i + 1).last() == all[i as int]);
            assert(all[i as int] == records@[i as int]@);
        }
        if records[i].active {
            let owned = records[i].name.clone();
            proof {
                assert(out@.push(owned).map_values(|s: String| s@) =~= out@.map_values(
                    |s: String| s@,
                ).push(owned@));
                assert(spec_active_names(all.take(i as int)) + seq![owned@] =~= spec_active_names(
                    all.take(i as int),
                ).push(owned@));
            }
            out.push(owned);
        } else {
            proof {
                assert(spec_active_names(all.take(i as int)) + Seq::<Seq<char>>::empty()
                    =~= spec_active_names(all.take(i as int)));
            }
        }
        i = i + 1;
    }
    proof {
        assert(all.take(records@.len() as int) =~= all);
    }
    out
}

/// Which network a new machine binds to: the configured default when it
/// is active, else the first active network, else none.
pub open spec fn spec_select_network(active: Seq<Seq<char>>, def: Seq<char>) -> Option<Seq<char>> {
    if spec_contains_string(active, def) {
        Some(def)
    } else if active.len() > 0 {
        Some(active[0])
    } else {
        None
    }
}

/// Select the network for a new machine from the active ones, or fail
/// with the given network-unavailable message when none is active.
pub fn select_network(
    active: &Vec<String>,
    default_network: &str,
    unavailable_msg: &str,
) -> (r: Result<String, VmError>)
    ensures
        r is Ok <==> active@.len() > 0,
        r matches Ok(v) ==> Some(v@) == spec_select_network(
            active@.map_values(|s: String| s@),
            default_network@,
        ),
        r matches Err(e) ==> (e is NetworkError && e.spec_detail() == unavailable_msg@),
{
    if contains_string(active, default_network) {
        Ok(String::from_str(default_network))
    } else if active.len() > 0 {
        proof {
            assert(active@.map_values(|s: String| s@)[0] == active@[0]@);
        }
        Ok(active[0].clone())
    } else {
        Err(VmError::NetworkError(String::from_str(unavailable_msg)))
    }
}

/// The declarative definition of one machine, as far as this core is
/// responsible for it: one disk source path, one network and hardware
/// address pair, and the identity fields, mutually consistent. The
/// device boilerplate around it is a rendering concern outside the
/// core.
#[derive(Debug, Clone)]
pub struct VmDescriptor {
    pub name: String,
    pub uuid: String,
    pub memory_mb: u64,
    pub vcpus: u32,
    pub os_type: String,
    pub arch: String,
    pub machine_type: String,
    pub disk_path: String,
    pub iso_path: Option<String>,
    pub network: String,
    pub mac_address: String,
}

/// Everything a create request decides before any side effect: the disk
/// image to create, its size, and the descriptor to register. The disk
/// image is created first; registration follows only if that succeeds,
/// and no automatic rollback of a created image is attempted.
#[derive(Debug, Clone)]
pub struct CreatePlan {
    pub disk_path: String,
    pub disk_size_gb: u64,
    pub descriptor: VmDescriptor,
}

/// Where the disk image of a machine lives: the images directory, the
/// machine name, and the image suffix.
pub open spec fn spec_disk_path(images: Seq<char>, name: Seq<char>) -> Seq<char> {
    images + "/"@ + name + ".qcow2"@
}

/// Build the disk-image path for a machine name.
pub fn disk_path_for(images: &str, name: &str) -> (r: String)
    ensures
        r@ == spec_disk_path(images@, name@),
{
    let mut out = String::from_str(images);
    out.append("/");
    out.append(name);
    out.append(".qcow2");
    out
}

/// The message a create request fails with when no network is active;
/// it names the exact remediation command.
pub const NO_ACTIVE_NETWORKS_MSG: &'static str = "No active virtual networks found. Please start a network first:\n  virsh net-start default\n  or create a new network.";

/// The message a clone request fails with when no network is active.
pub const NO_ACTIVE_NETWORKS_CLONE_MSG: &'static str =
    "No active networks available for VM creation";

/// Decide a whole create request: reject an invalid or already taken
/// name, pick the network (the configured default if active, else the
/// first active one, else fail naming the remediation command), resolve
/// the template when one is named, and produce the disk image to create
/// and the descriptor to register, with a fresh identity token and a
/// freshly generated hardware address.
pub fn plan_create(
    config: &Config,
    name: &str,
    memory: u64,
    cpus: u32,
    disk_size: u64,
    iso_path: Option<&str>,
    template_name: Option<&str>,
    exists: bool,
    networks: &Vec<NetworkRecord>,
) -> (r: Result<CreatePlan, VmError>)
    ensures
        !spec_valid_vm_name(name@) ==> (r matches Err(e) && (e is InvalidInput
            || e is SecurityError)),
        (spec_valid_vm_name(name@) && exists) ==> (r matches Err(e) && e is VmAlreadyExists
            && e.spec_detail() == name@),
        (spec_valid_vm_name(name@) && !exists && spec_active_names(
            networks@.map_values(|n: NetworkRecord| n@),
        ).len() == 0) ==> (r matches Err(e) && e is NetworkError && e.spec_detail()
            == NO_ACTIVE_NETWORKS_MSG@),
        (spec_valid_vm_name(name@) && !exists && spec_active_names(
            networks@.map_values(|n: NetworkRecord| n@),
        ).len() > 0 && template_name is None) ==> r is Ok,
        (spec_valid_vm_name(name@) && !exists && spec_active_names(
            networks@.map_values(|n: NetworkRecord| n@),
        ).len() > 0) ==> (template_name matches Some(t) ==> (match spec_find_template(
            config.templates@,
            t@,
        ) {
            Some(_) => r is Ok,
            None => r matches Err(e) && e is InvalidInput && e.spec_detail() == "Template '"@
                + t@ + "' not found"@,
        })),
        r matches Ok(p) ==> {
            &&& p.descriptor.name@ == name@
            &&& p.disk_path@ == spec_disk_path(config.storage.vm_images_path@, name@)
            &&& p.descriptor.disk_path@ == p.disk_path@
            &&& Some(p.descriptor.network@) == spec_select_network(
                spec_active_names(networks@.map_values(|n: NetworkRecord| n@)),
                config.network.default_network@,
            )
            &&& is_generated_mac(p.descriptor.mac_address@)
            &&& p.descriptor.uuid@.len() == 36
            &&& (p.descriptor.iso_path is Some <==> iso_path is Some)
            &&& (iso_path matches Some(iso) ==> (p.descriptor.iso_path matches Some(d) && d@
                == iso@))
            &&& (template_name is None ==> p.descriptor.memory_mb == memory
                && p.descriptor.vcpus == cpus && p.disk_size_gb == disk_size
                && p.descriptor.os_type@ == "linux"@ && p.descriptor.arch@ == "x86_64"@
                && p.descriptor.machine_type@ == "pc-q35-7.0"@)
            &&& (template_name matches Some(t) ==> (spec_find_template(config.templates@, t@)
                matches Some(tpl) && p.descriptor.memory_mb == tpl.memory && p.descriptor.vcpus
                == tpl.cpus && p.disk_size_gb == tpl.disk_size && p.descriptor.os_type@
                == tpl.os_type@ && p.descriptor.arch@ == tpl.arch@ && p.descriptor.machine_type@
                == tpl.machine_type@))
        },
{
    if let Err(e) = validate_vm_name(name) {
        return Err(e);
    }
    if exists {
        return Err(VmError::VmAlreadyExists(String::from_str(name)));
    }
    let active = active_network_names(networks);
    let selected = match select_network(
        &active,
        config.network.default_network.as_str(),
        NO_ACTIVE_NETWORKS_MSG,
    ) {
        Ok(n) => n,
        Err(e) => {
            return Err(e);
        },
    };
    let tpl_memory: u64;
    let tpl_cpus: u32;
    let tpl_disk: u64;
    let tpl_os: String;
    let tpl_arch: String;
    let tpl_machine: String;
    match template_name {
        Some(t) => {
            match config.get_template(t) {
                Some(tpl) => {
                    tpl_memory = tpl.memory;
                    tpl_cpus = tpl.cpus;
                    tpl_disk = tpl.disk_size;
                    tpl_os = tpl.os_type.clone();
                    tpl_arch = tpl.arch.clone();
                    tpl_machine = tpl.machine_type.clone();
                },
                None => {
                    let mut msg = String::from_str("Template '");
                    msg.append(t);
                    msg.append("' not found");
                    return Err(VmError::InvalidInput(msg));
                },
            }
        },
        None => {
            tpl_memory = memory;
            tpl_cpus = cpus;
            tpl_disk = disk_size;
            tpl_os = String::from_str("linux");
            tpl_arch = String::from_str("x86_64");
            tpl_machine = String::from_str("pc-q35-7.0");
        },
    }
    let disk_path = disk_path_for(config.storage.vm_images_path.as_str(), name);
    let iso_owned: Option<String> = match iso_path {
        Some(iso) => Some(String::from_str(iso)),
        None => None,
    };
    let descriptor = VmDescriptor {
        name: String::from_str(name),
        uuid: fresh_uuid_string(),
        memory_mb: tpl_memory,
        vcpus: tpl_cpus,
        os_type: tpl_os,
        arch: tpl_arch,
        machine_type: tpl_machine,
        disk_path: disk_path.clone(),
        iso_path: iso_owned,
        network: selected,
        mac_address: generate_mac_address(),
    };
    Ok(CreatePlan { disk_path, disk_size_gb: tpl_disk, descriptor })
}

/// Everything a clone request decides before any side effect: every
/// source disk to copy and the descriptor to register, with a fresh
/// identity token and hardware address — a clone never copies the
/// source's identity. All copies must succeed before the descriptor is
/// registered.
#[derive(Debug, Clone)]
pub struct ClonePlan {
    pub copies: Vec<(String, String)>,
    pub descriptor: VmDescriptor,
}

/// Decide a whole clone request: reject an invalid or already taken
/// target name, plan one image copy per source disk, re-resolve the
/// network exactly as a create request does, and produce a descriptor
/// carrying the source's resources under the target's name with a
/// fresh identity.
pub fn plan_clone(
    config: &Config,
    source_info: &VmInfo,
    target: &str,
    target_exists: bool,
    networks: &Vec<NetworkRecord>,
) -> (r: Result<ClonePlan, VmError>)
    ensures
        !spec_valid_vm_name(target@) ==> (r matches Err(e) && (e is InvalidInput
            || e is SecurityError)),
        (spec_valid_vm_name(target@) && target_exists) ==> (r matches Err(e)
            && e is VmAlreadyExists && e.spec_detail() == target@),
        (spec_valid_vm_name(target@) && !target_exists && spec_active_names(
            networks@.map_values(|n: NetworkRecord| n@),
        ).len() == 0) ==> (r matches Err(e) && e is NetworkError && e.spec_detail()
            == NO_ACTIVE_NETWORKS_CLONE_MSG@),
        (spec_valid_vm_name(target@) && !target_exists && spec_active_names(
            networks@.map_values(|n: NetworkRecord| n@),
        ).len() > 0) ==> r is Ok,
        r matches Ok(p) ==> {
            &&& p.copies@.len() == source_info.disk_usage@.len()
            &&& forall|k: int|
                0 <= k < p.copies@.len() ==> (#[trigger] p.copies@[k]).0@
                    == source_info.disk_usage@[k].path@ && p.copies@[k].1@ == spec_disk_path(
                    config.storage.vm_images_path@,
                    target@,
                )
            &&& p.descriptor.name@ == target@
            &&& p.descriptor.memory_mb == source_info.memory
            &&& p.descriptor.vcpus == source_info.cpus
            &&& p.descriptor.disk_path@ == spec_disk_path(
                config.storage.vm_images_path@,
                target@,
            )
            &&& p.descriptor.iso_path is None
            &&& Some(p.descriptor.network@) == spec_select_network(
                spec_active_names(networks@.map_values(|n: NetworkRecord| n@)),
                config.network.default_network@,
            )
            &&& is_generated_mac(p.descriptor.mac_address@)
            &&& p.descriptor.uuid@.len() == 36
        },
{
    if let Err(e) = validate_vm_name(target) {
        return Err(e);
    }
    if target_exists {
        return Err(VmError::VmAlreadyExists(String::from_str(target)));
    }
    let active = active_network_names(networks);
    let selected = match select_network(
        &active,
        config.network.default_network.as_str(),
        NO_ACTIVE_NETWORKS_CLONE_MSG,
    ) {
        Ok(n) => n,
        Err(e) => {
            return Err(e);
        },
    };
    let target_path = disk_path_for(config.storage.vm_images_path.as_str(), target);
    let mut copies: Vec<(String, String)> = Vec::new();
    let mut i: usize = 0;
    while i < source_info.disk_usage.len()
        invariant
            0 <= i <= source_info.disk_usage@.len(),
            copies@.len() == i,
            target_path@ == spec_disk_path(config.storage.vm_images_path@, target@),
            forall|k: int|
                0 <= k < i ==> (#[trigger] copies@[k]).0@ == source_info.disk_usage@[k].path@
                    && copies@[k].1@ == target_path@,
        decreases source_info.disk_usage@.len() - i,
    {
        copies.push((source_info.disk_usage[i].path.clone(), target_path.clone()));
        i = i + 1;
    }
    let descriptor = VmDescriptor {
        name: String::from_str(target),
        uuid: fresh_uuid_string(),
        memory_mb: source_info.memory,
        vcpus: source_info.cpus,
        os_type: String::from_str("linux"),
        arch: String::from_str("x86_64"),
        machine_type: String::from_str("pc-q35-7.0"),
        disk_path: target_path,
        iso_path: None,
        network: selected,
        mac_address: generate_mac_address(),
    };
    Ok(ClonePlan { copies, descriptor })
}

/// Everything a delete request decides: whether a force-stop must come
/// first, and which disk files to remove after the descriptor is
/// unregistered. A failure to remove one disk is a warning and must not
/// stop the remaining removals.
#[derive(Debug, Clone)]
pub struct DeletePlan {
    pub destroy_first: bool,
    pub disk_paths: Vec<String>,
}

/// Decide a delete: a running machine is force-stopped first, and every
/// disk of the snapshot is removed afterwards.
pub fn plan_delete(state: VmState, disks: &Vec<DiskInfo>) -> (r: DeletePlan)
    ensures
        r.destroy_first == (state is Running),
        r.disk_paths@.len() == disks@.len(),
        forall|k: int|
            0 <= k < disks@.len() ==> (#[trigger] r.disk_paths@[k])@ == disks@[k].path@,
{
    let mut paths: Vec<String> = Vec::new();
    let mut i: usize = 0;
    while i < disks.len()
        invariant
            0 <= i <= disks@.len(),
            paths@.len() == i,
            forall|k: int| 0 <= k < i ==> (#[trigger] paths@[k])@ == disks@[k].path@,
        decreases disks@.len() - i,
    {
        paths.push(disks[i].path.clone());
        i = i + 1;
    }
    DeletePlan { destroy_first: matches!(state, VmState::Running), disk_paths: paths }
}

/// What one polling step after a start request concludes.
#[derive(Debug, Clone, Copy, PartialEq, Eq, Structural)]
pub enum StartPoll {
    Started,
    StillWaiting,
    MayStillBeStarting,
}

/// One polling step after a start request: the machine has started when
/// it is observed running; when attempts remain the wait goes on; when
/// they are exhausted the machine may still be starting — a soft
/// timeout, not a failure, because the boot is outside this system's
/// control.
pub fn start_poll_decision(state: VmState, attempts_left: u64) -> (r: StartPoll)
    ensures
        state is Running ==> r is Started,
        (!(state is Running) && attempts_left > 0) ==> r is StillWaiting,
        (!(state is Running) && attempts_left == 0) ==> r is MayStillBeStarting,
{
    if matches!(state, VmState::Running) {
        StartPoll::Started
    } else if attempts_left > 0 {
        StartPoll::StillWaiting
    } else {
        StartPoll::MayStillBeStarting
    }
}

/// A handle on the control plane: the connection URI every command
/// names.
#[derive(Debug, Clone)]
pub struct LibvirtClient {
    pub uri: String,
}

impl LibvirtClient {
    /// A client for the given connection URI.
    pub fn new(uri: &str) -> (r: LibvirtClient)
        ensures
            r.uri@ == uri@,
    {
        LibvirtClient { uri: String::from_str(uri) }
    }

    /// The argument list of one control-plane command: the connection
    /// flag and URI, the subcommand, then its arguments.
    pub fn command_args(&self, subcommand: &str, rest: &Vec<String>) -> (r: Vec<String>)
        ensures
            r@.map_values(|s: String| s@) == seq!["-c"@, self.uri@, subcommand@] + rest@.map_values(
                |s: String| s@,
            ),
    {
        let mut out: Vec<String> = Vec::new();
        out.push(String::from_str("-c"));
        out.push(self.uri.clone());
        out.push(String::from_str(subcommand));
        let mut i: usize = 0;
        while i < rest.len()
            invariant
                0 <= i <= rest@.len(),
                out@.len() == 3 + i,
                out@.map_values(|s: String| s@) == seq!["-c"@, self.uri@, subcommand@]
                    + rest@.map_values(|s: String| s@).take(i as int),
            decreases rest@.len() - i,
        {
            let owned = rest[i].clone();
            proof {
                let restv = rest@.map_values(|s: String| s@);
                assert(restv[i as int] == rest@[i as int]@);
                assert(out@.push(owned).map_values(|s: String| s@) =~= out@.map_values(
                    |s: String| s@,
                ).push(owned@));
                assert((seq!["-c"@, self.uri@, subcommand@] + restv.take(i as int)).push(
                    owned@,
                ) =~= seq!["-c"@, self.uri@, subcommand@] + restv.take(i + 1));
            }
            out.push(owned);
            i = i + 1;
        }
        proof {
            assert(rest@.map_values(|s: String| s@).take(rest@.len() as int) =~= rest@.map_values(
                |s: String| s@,
            ));
        }
        out
    }

    /// The listing command: all machines, or only the active ones.
    pub fn args_list(&self, all: bool) -> (r: Vec<String>)
        ensures
            all ==> r@.map_values(|s: String| s@) == seq!["-c"@, self.uri@, "list"@, "--all"@],
            !all ==> r@.map_values(|s: String| s@) == seq!["-c"@, self.uri@, "list"@],
    {
        let mut rest: Vec<String> = Vec::new();
        if all {
            rest.push(String::from_str("--all"));
            let r = self.command_args("list", &rest);
            proof {
                assert(seq!["-c"@, self.uri@, "list"@] + rest@.map_values(|s: String| s@)
                    =~= seq!["-c"@, self.uri@, "list"@, "--all"@]);
            }
            r
        } else {
            let r = self.command_args("list", &rest);
            proof {
                assert(seq!["-c"@, self.uri@, "list"@] + rest@.map_values(|s: String| s@)
                    =~= seq!["-c"@, self.uri@, "list"@]);
            }
            r
        }
    }

    /// The stop command for one machine: an immediate destroy when
    /// forced, else a graceful shutdown request that returns without
    /// waiting.
    pub fn args_stop(&self, name: &str, force: bool) -> (r: Vec<String>)
        ensures
            force ==> r@.map_values(|s: String| s@) == seq!["-c"@, self.uri@, "destroy"@, name@],
            !force ==> r@.map_values(|s: String| s@) == seq![
                "-c"@,
                self.uri@,
                "shutdown"@,
                name@,
            ],
    {
        let mut rest: Vec<String> = Vec::new();
        rest.push(String::from_str(name));
        if force {
            let r = self.command_args("destroy", &rest);
            proof {
                assert(seq!["-c"@, self.uri@, "destroy"@] + rest@.map_values(|s: String| s@)
                    =~= seq!["-c"@, self.uri@, "destroy"@, name@]);
            }
            r
        } else {
            let r = self.command_args("shutdown", &rest);
            proof {
                assert(seq!["-c"@, self.uri@, "shutdown"@] + rest@.map_values(|s: String| s@)
                    =~= seq!["-c"@, self.uri@, "shutdown"@, name@]);
            }
            r
        }
    }
}

/// A handle on one machine's monitor socket.
#[derive(Debug, Clone)]
pub struct QemuMonitor {
    pub socket_path: String,
}

impl QemuMonitor {
    /// A monitor handle for the given socket path.
    pub fn new(socket_path: &str) -> (r: QemuMonitor)
        ensures
            r.socket_path@ == socket_path@,
    {
        QemuMonitor { socket_path: String::from_str(socket_path) }
    }
}

/// The argument list that creates one disk image of the given size in
/// gigabytes.
pub fn qemu_img_create_args(path: &str, size_gb: u64) -> (r: Vec<String>)
    ensures
        r@.map_values(|s: String| s@) == seq![
            "create"@,
            "-f"@,
            "qcow2"@,
            path@,
            spec_u64_str(size_gb as int) + "G"@,
        ],
{
    let mut size = u64_to_string(size_gb);
    size.append("G");
    let mut out: Vec<String> = Vec::new();
    out.push(String::from_str("create"));
    out.push(String::from_str("-f"));
    out.push(String::from_str("qcow2"));
    out.push(String::from_str(path));
    out.push(size);
    proof {
        assert(out@.map_values(|s: String| s@) =~= seq![
            "create"@,
            "-f"@,
            "qcow2"@,
            path@,
            spec_u64_str(size_gb as int) + "G"@,
        ]);
    }
    out
}

/// The argument list that copies one disk image.
pub fn qemu_img_convert_args(source: &str, target: &str) -> (r: Vec<String>)
    ensures
        r@.map_values(|s: String| s@) == seq![
            "convert"@,
            "-f"@,
            "qcow2"@,
            "-O"@,
            "qcow2"@,
            source@,
            target@,
        ],
{
    let mut out: Vec<String> = Vec::new();
    out.push(String::from_str("convert"));
    out.push(String::from_str("-f"));
    out.push(String::from_str("qcow2"));
    out.push(String::from_str("-O"));
    out.push(String::from_str("qcow2"));
    out.push(String::from_str(source));
    out.push(String::from_str(target));
    proof {
        assert(out@.map_values(|s: String| s@) =~= seq![
            "convert"@,
            "-f"@,
            "qcow2"@,
            "-O"@,
            "qcow2"@,
            source@,
            target@,
        ]);
    }
    out
}

/// The argument list that asks for one image's description.
pub fn qemu_img_info_args(path: &str) -> (r: Vec<String>)
    ensures
        r@.map_values(|s: String| s@) == seq!["info"@, "--output=json"@, path@],
{
    let mut out: Vec<String> = Vec::new();
    out.push(String::from_str("info"));
    out.push(String::from_str("--output=json"));
    out.push(String::from_str(path));
    proof {
        assert(out@.map_values(|s: String| s@) =~= seq!["info"@, "--output=json"@, path@]);
    }
    out
}

/// The argument list that grows one image to the given size in
/// gigabytes.
pub fn qemu_img_resize_args(path: &str, new_size_gb: u64) -> (r: Vec<String>)
    ensures
        r@.map_values(|s: String| s@) == seq![
            "resize"@,
            path@,
            spec_u64_str(new_size_gb as int) + "G"@,
        ],
{
    let mut size = u64_to_string(new_size_gb);
    size.append("G");
    let mut out: Vec<String> = Vec::new();
    out.push(String::from_str("resize"));
    out.push(String::from_str(path));
    out.push(size);
    proof {
        assert(out@.map_values(|s: String| s@) =~= seq![
            "resize"@,
            path@,
            spec_u64_str(new_size_gb as int) + "G"@,
        ]);
    }
    out
}

/// The snapshots that show a running machine, in order.
pub open spec fn spec_running_only(vms: Seq<VmInfo>) -> Seq<VmInfo>
    decreases vms.len(),
{
    if vms.len() == 0 {
        Seq::empty()
    } else {
        (if vms[0].state is Running {
            seq![vms[0]]
        } else {
            Seq::empty()
        }) + spec_running_only(vms.drop_first())
    }
}

/// Keep only the running machines of a listing. The filter runs on the
/// snapshots after they are taken, never by asking the control plane to
/// pre-filter, so listing keeps one code path.
pub fn filter_running(vms: Vec<VmInfo>) -> (r: Vec<VmInfo>)
    ensures
        r@ == spec_running_only(vms@),
{
    let ghost all = vms@;
    let mut rest = vms;
    let mut out: Vec<VmInfo> = Vec::new();
    proof {
        assert(out@ + spec_running_only(rest@) =~= spec_running_only(all));
    }
    while rest.len() > 0
        invariant
            out@ + spec_running_only(rest@) == spec_running_only(all),
        decreases rest@.len(),
    {
        let ghost before = rest@;
        let item = rest.remove(0);
        proof {
            assert(rest@ =~= before.drop_first());
            assert(item == before[0]);
        }
        if matches!(item.state, VmState::Running) {
            proof {
                assert(spec_running_only(before) =~= seq![item] + spec_running_only(rest@));
                assert(out@.push(item) + spec_running_only(rest@) =~= out@ + spec_running_only(
                    before,
                ));
            }
            out.push(item);
        } else {
            proof {
                assert(spec_running_only(before) =~= spec_running_only(rest@));
            }
        }
    }
    proof {
        assert(spec_running_only(rest@) =~= Seq::<VmInfo>::empty());
        assert(out@ + Seq::<VmInfo>::empty() =~= out@);
    }
    out
}

/// What a configuration review of one machine concludes: whether it has
/// more interfaces than it needs, whether the configured default
/// network is inactive while others are active, and which active
/// network could replace it.
#[derive(Debug, Clone)]
pub struct OptimizeReport {
    pub too_many_interfaces: bool,
    pub interface_count: usize,
    pub multiple_networks: bool,
    pub default_network_inactive: bool,
    pub suggested_network: Option<String>,
}

/// Review one machine's configuration. A running machine cannot be
/// reviewed for changes and is rejected; otherwise the review flags
/// more than two interfaces, and, when several networks are active but
/// the configured default is not among them, suggests the first active
/// one.
pub fn optimize_report(
    state: VmState,
    interface_count: usize,
    active: &Vec<String>,
    default_network: &str,
) -> (r: Result<OptimizeReport, VmError>)
    ensures
        state is Running ==> (r matches Err(e) && e is InvalidVmState && e.spec_detail()
            == "Cannot optimize running VM. Please stop the VM first."@),
        !(state is Running) ==> (r matches Ok(rep) && {
            &&& rep.too_many_interfaces == (interface_count > 2)
            &&& rep.interface_count == interface_count
            &&& rep.multiple_networks == (active@.len() > 1)
            &&& rep.default_network_inactive == (active@.len() > 1 && !spec_contains_string(
                active@.map_values(|s: String| s@),
                default_network@,
            ))
            &&& ((rep.default_network_inactive && active@.len() > 0) ==> (
            rep.suggested_network matches Some(s) && s@ == active@.map_values(|x: String| x@)[0]))
            &&& (!rep.default_network_inactive ==> rep.suggested_network is None)
        }),
{
    if matches!(state, VmState::Running) {
        return Err(VmError::InvalidVmState(
            String::from_str("Cannot optimize running VM. Please stop the VM first."),
        ));
    }
    let multiple = active.len() > 1;
    let default_inactive = multiple && !contains_string(active, default_network);
    let suggestion = if default_inactive && active.len() > 0 {
        proof {
            assert(active@.map_values(|x: String| x@)[0] == active@[0]@);
        }
        Some(active[0].clone())
    } else {
        None
    };
    Ok(OptimizeReport {
        too_many_interfaces: interface_count > 2,
        interface_count,
        multiple_networks: multiple,
        default_network_inactive: default_inactive,
        suggested_network: suggestion,
    })
}

} // verus!
