use vmtools::classify::{
    classify_not_found_or_opaque, classify_shutdown_failure, classify_start_failure,
    classify_stderr, StderrClass,
};
use vmtools::config::{parse_key_val, Config};
use vmtools::error::VmError;
use vmtools::host::{
    check_canonical_path, host_info_from_proc, kvm_module_check, libvirtd_status,
    system_file_allowed,
};
use vmtools::image::{image_info_from_fields, parse_image_info};
use vmtools::mac::{format_generated_mac, fresh_uuid_string, generate_mac_address};
use vmtools::state::VmState;
use vmtools::text::{contains_str, parse_u32, parse_u64, split_char, str_eq, tokenize, trim, u64_to_string};
use vmtools::util::{format_bytes, format_duration};
use vmtools::validate::{validate_cpus, validate_disk_size, validate_memory, validate_vm_name};

#[test]
fn name_validation_rejects_and_accepts_the_documented_cases() {
    assert!(validate_vm_name("../etc").is_err());
    assert!(validate_vm_name("a/b").is_err());
    assert!(validate_vm_name("").is_err());
    assert!(validate_vm_name(&"a".repeat(65)).is_err());
    assert!(validate_vm_name("-abc").is_err());
    assert!(validate_vm_name("abc-").is_err());
    assert!(validate_vm_name("web-01").is_ok());
    assert!(validate_vm_name("db_2").is_ok());
    // the boundary length is still accepted
    assert!(validate_vm_name(&"a".repeat(64)).is_ok());
    assert!(validate_vm_name("   ").is_err());
    assert!(validate_vm_name("back\\slash").is_err());
    assert!(validate_vm_name("dotted.name").is_err());
}

#[test]
fn name_validation_error_kinds() {
    assert!(matches!(
        validate_vm_name("../etc"),
        Err(VmError::SecurityError(_))
    ));
    assert!(matches!(validate_vm_name(""), Err(VmError::InvalidInput(_))));
    assert!(matches!(
        validate_vm_name("-abc"),
        Err(VmError::InvalidInput(_))
    ));
    assert!(matches!(
        validate_vm_name("has space"),
        Err(VmError::InvalidInput(_))
    ));
}

#[test]
fn resource_validation_bounds() {
    assert!(validate_memory(127).is_err());
    assert!(validate_memory(128).is_ok());
    assert!(validate_memory(1024 * 1024).is_ok());
    assert!(validate_memory(1024 * 1024 + 1).is_err());
    assert!(validate_cpus(0).is_err());
    assert!(validate_cpus(1).is_ok());
    assert!(validate_cpus(256).is_ok());
    assert!(validate_cpus(257).is_err());
    assert!(validate_disk_size(0).is_err());
    assert!(validate_disk_size(1).is_ok());
    assert!(validate_disk_size(10240).is_ok());
    assert!(validate_disk_size(10241).is_err());
}

#[test]
fn byte_formatting_exact_values() {
    assert_eq!(format_bytes(0), "0 B");
    assert_eq!(format_bytes(1023), "1023 B");
    assert_eq!(format_bytes(1024), "1.0 KB");
    assert_eq!(format_bytes(1536), "1.5 KB");
    assert_eq!(format_bytes(2048), "2.0 KB");
    assert_eq!(format_bytes(1024 * 1024), "1.0 MB");
    assert_eq!(format_bytes(5 * 1024 * 1024 * 1024), "5.0 GB");
    assert_eq!(format_bytes(3 * 1024 * 1024 * 1024 * 1024), "3.0 TB");
}

#[test]
fn duration_formatting_exact_values() {
    assert_eq!(format_duration(5), "5s");
    assert_eq!(format_duration(65), "1m 5s");
    assert_eq!(format_duration(3600), "1h 0m");
    assert_eq!(format_duration(3725), "1h 2m");
    assert_eq!(format_duration(90061), "1d 1h 1m");
}

#[test]
fn decimal_parsing_and_rendering() {
    assert_eq!(parse_u64("0"), Some(0));
    assert_eq!(parse_u64("18446744073709551615"), Some(u64::MAX));
    assert_eq!(parse_u64("18446744073709551616"), None);
    assert_eq!(parse_u64("+42"), Some(42));
    assert_eq!(parse_u64(""), None);
    assert_eq!(parse_u64("+"), None);
    assert_eq!(parse_u64("-1"), None);
    assert_eq!(parse_u64("12a"), None);
    assert_eq!(parse_u32("4294967295"), Some(u32::MAX));
    assert_eq!(parse_u32("4294967296"), None);
    assert_eq!(u64_to_string(0), "0");
    assert_eq!(u64_to_string(907), "907");
    assert_eq!(u64_to_string(u64::MAX), "18446744073709551615");
}

#[test]
fn text_utilities() {
    assert_eq!(trim("  padded \t"), "padded");
    assert_eq!(trim("   "), "");
    assert_eq!(split_char("a:b::c", ':'), vec!["a", "b", "", "c"]);
    assert_eq!(split_char("", ':'), vec![""]);
    assert_eq!(tokenize("  one   two\tthree  "), vec!["one", "two", "three"]);
    assert!(tokenize("   ").is_empty());
    assert!(str_eq("same", "same"));
    assert!(!str_eq("same", "sane"));
    assert!(contains_str("error: not found here", "not found"));
    assert!(!contains_str("all good", "not found"));
    assert!(contains_str("anything", ""));
}

#[test]
fn stderr_classification_table() {
    assert_eq!(
        classify_stderr("error: failed to get domain 'x': Domain not found"),
        StderrClass::NotFoundPattern
    );
    assert_eq!(
        classify_stderr("error: Requested operation is not valid: domain is already active"),
        StderrClass::AlreadyActivePattern
    );
    assert_eq!(
        classify_stderr("error: Requested operation is not valid: domain is not running"),
        StderrClass::NotRunningPattern
    );
    assert_eq!(classify_stderr("something else"), StderrClass::Unclassified);
}

#[test]
fn command_failures_become_the_right_errors() {
    assert_eq!(
        classify_start_failure("web-01", "error: Domain not found"),
        VmError::VmNotFound("web-01".to_string())
    );
    assert_eq!(
        classify_start_failure("web-01", "error: domain is already active"),
        VmError::VmAlreadyRunning("web-01".to_string())
    );
    assert_eq!(
        classify_start_failure("web-01", "boom"),
        VmError::LibvirtError("Failed to start domain: boom".to_string())
    );
    assert_eq!(
        classify_shutdown_failure("web-01", "error: domain is not running"),
        VmError::VmNotRunning("web-01".to_string())
    );
    assert_eq!(
        classify_not_found_or_opaque("web-01", "Failed to undefine domain: ", "boom"),
        VmError::LibvirtError("Failed to undefine domain: boom".to_string())
    );
    assert_eq!(
        classify_not_found_or_opaque("web-01", "Failed to undefine domain: ", "not found"),
        VmError::VmNotFound("web-01".to_string())
    );
}

#[test]
fn generated_addresses_carry_the_reserved_prefix() {
    let fixed = format_generated_mac(0x0a, 0xbc, 0xff);
    assert_eq!(fixed, "52:54:00:0a:bc:ff");
    let mac = generate_mac_address();
    assert_eq!(mac.len(), 17);
    assert!(mac.starts_with("52:54:00:"));
    let tail: Vec<&str> = mac[9..].split(':').collect();
    assert_eq!(tail.len(), 3);
    for part in tail {
        assert_eq!(part.len(), 2);
        assert!(u8::from_str_radix(part, 16).is_ok());
        assert_eq!(part, part.to_lowercase());
    }
}

#[test]
fn fresh_identity_tokens_are_hyphenated_and_distinct() {
    let a = fresh_uuid_string();
    let b = fresh_uuid_string();
    assert_eq!(a.len(), 36);
    assert_eq!(b.len(), 36);
    assert_ne!(a, b);
    let parts: Vec<&str> = a.split('-').collect();
    assert_eq!(parts.len(), 5);
}

#[test]
fn image_descriptions_parse_with_documented_defaults() {
    let json = "{\"virtual-size\": 21474836480, \"filename\": \"/var/lib/libvirt/images/demo.qcow2\", \"format\": \"qcow2\", \"actual-size\": 1376256}";
    let info = parse_image_info(json).unwrap();
    assert_eq!(info.format, "qcow2");
    assert_eq!(info.virtual_size, 21474836480);
    assert_eq!(info.actual_size, 1376256);
    assert_eq!(info.filename, "/var/lib/libvirt/images/demo.qcow2");
    // absent fields fall back rather than failing
    let sparse = parse_image_info("{}").unwrap();
    assert_eq!(sparse.format, "unknown");
    assert_eq!(sparse.virtual_size, 0);
    assert_eq!(sparse.actual_size, 0);
    assert_eq!(sparse.filename, "");
    // text that is not JSON is a serialization error
    assert!(matches!(
        parse_image_info("not json at all"),
        Err(VmError::SerdeError(_))
    ));
    let defaults = image_info_from_fields(None, Some(7), None, None);
    assert_eq!(defaults.format, "unknown");
    assert_eq!(defaults.virtual_size, 7);
}

#[test]
fn config_lookup_and_update() {
    let mut config = Config::default();
    assert_eq!(config.get_value("libvirt.uri").unwrap(), "qemu:///system");
    assert_eq!(config.get_value("libvirt.timeout").unwrap(), "30");
    assert_eq!(config.get_value("defaults.memory").unwrap(), "2048");
    assert!(matches!(
        config.get_value("no.such.key"),
        Err(VmError::InvalidInput(_))
    ));
    config.set_value("network.default_network", "lab").unwrap();
    assert_eq!(config.get_value("network.default_network").unwrap(), "lab");
    config.set_value("libvirt.timeout", "45").unwrap();
    assert_eq!(config.libvirt.timeout, 45);
    assert!(matches!(
        config.set_value("libvirt.timeout", "soon"),
        Err(VmError::InvalidInput(_))
    ));
    assert_eq!(config.libvirt.timeout, 45);
    assert!(matches!(
        config.set_value("defaults.cpus", "4294967296"),
        Err(VmError::InvalidInput(_))
    ));
    config.set_value("defaults.cpus", "8").unwrap();
    assert_eq!(config.defaults.cpus, 8);
    let ubuntu = config.get_template("ubuntu").expect("built-in template");
    assert_eq!(ubuntu.memory, 2048);
    assert!(config.get_template("missing").is_none());
}

#[test]
fn key_value_arguments() {
    assert_eq!(
        parse_key_val("a=b"),
        Ok(("a".to_string(), "b".to_string()))
    );
    assert_eq!(
        parse_key_val("a=b=c"),
        Ok(("a".to_string(), "b=c".to_string()))
    );
    assert_eq!(
        parse_key_val("nothing"),
        Err("Invalid format. Use key=value".to_string())
    );
}

#[test]
fn state_labels() {
    assert_eq!(VmState::Running.label(), "RUNNING");
    assert_eq!(VmState::Stopped.label(), "STOPPED");
    assert_eq!(VmState::Unknown.label(), "UNKNOWN");
}

#[test]
fn host_checks() {
    let info = host_info_from_proc(
        "processor : 0\nprocessor : 1\nprocessor : 2\n",
        "MemTotal: 2048000 kB\n",
        "x86_64",
    );
    assert_eq!(info.cpu_count, 3);
    assert_eq!(info.total_memory, 2000);
    assert_eq!(info.architecture, "x86_64");
    assert_eq!(info.os, "Linux");
    assert!(kvm_module_check("kvm_intel 1\nkvm 2\n").is_ok());
    assert!(matches!(
        kvm_module_check("e1000e 1\n"),
        Err(VmError::ResourceUnavailable(_))
    ));
    assert!(libvirtd_status(true, "active\n").is_ok());
    assert!(matches!(
        libvirtd_status(true, "inactive\n"),
        Err(VmError::LibvirtError(_))
    ));
    assert!(matches!(
        libvirtd_status(false, ""),
        Err(VmError::LibvirtError(_))
    ));
    assert!(check_canonical_path("/proc/cpuinfo", "/proc/").is_ok());
    assert!(matches!(
        check_canonical_path("/etc/passwd", "/proc/"),
        Err(VmError::SecurityError(_))
    ));
    assert!(system_file_allowed("/proc/cpuinfo", "/proc/"));
    assert!(system_file_allowed("/dev/kvm", "/dev/"));
    assert!(!system_file_allowed("/proc/self/environ", "/proc/"));
}
