use vstd::prelude::*;
use vstd::string::*;
use crate::error::VmError;
use crate::model::HostInfo;
use crate::parse::{spec_count_processor_lines, spec_mem_total_mb, count_processor_lines, mem_total_mb};
use crate::text::{
    spec_split,
    spec_contains,
    spec_starts_with,
    spec_trim,
    contains_str,
    starts_with,
    trim,
    str_eq,
};

verus! {

/// Host facts from the two processor and memory dumps and the
/// architecture name the build reports.
pub fn host_info_from_proc(cpuinfo: &str, meminfo: &str, arch: &str) -> (r: HostInfo)
    ensures
        spec_count_processor_lines(spec_split(cpuinfo@, '\n')) <= u32::MAX ==> r.cpu_count
            == spec_count_processor_lines(spec_split(cpuinfo@, '\n')),
        r.total_memory == spec_mem_total_mb(spec_split(meminfo@, '\n')),
        r.architecture@ == arch@,
        r.os@ == "Linux"@,
{
    HostInfo {
        cpu_count: count_processor_lines(cpuinfo),
        total_memory: mem_total_mb(meminfo),
        architecture: String::from_str(arch),
        os: String::from_str("Linux"),
    }
}

/// Whether the kernel module listing shows virtualization support: the
/// listing must mention `kvm` somewhere.
pub fn kvm_module_check(lsmod_output: &str) -> (r: Result<(), VmError>)
    ensures
        r is Ok <==> spec_contains(lsmod_output@, "kvm"@),
        r matches Err(e) ==> (e is ResourceUnavailable && e.spec_detail()
            == "KVM module is not loaded"@),
{
    if contains_str(lsmod_output, "kvm") {
        Ok(())
    } else {
        Err(VmError::ResourceUnavailable(String::from_str("KVM module is not loaded")))
    }
}

/// Whether the service manager reports the control-plane daemon as
/// running: the probe must exit cleanly and report exactly `active`.
pub fn libvirtd_status(exit_ok: bool, stdout: &str) -> (r: Result<(), VmError>)
    ensures
        r is Ok <==> (exit_ok && spec_trim(stdout@) == "active"@),
        (!exit_ok ==> (r matches Err(e) && e is LibvirtError && e.spec_detail()
            == "libvirtd service is not running"@)),
        ((exit_ok && spec_trim(stdout@) != "active"@) ==> (r matches Err(e) && e is LibvirtError
            && e.spec_detail() == "libvirtd service status: "@ + spec_trim(stdout@))),
{
    if !exit_ok {
        return Err(VmError::LibvirtError(String::from_str("libvirtd service is not running")));
    }
    let status = trim(stdout);
    if str_eq(status.as_str(), "active") {
        Ok(())
    } else {
        let mut msg = String::from_str("libvirtd service status: ");
        msg.append(status.as_str());
        Err(VmError::LibvirtError(msg))
    }
}

/// A canonical system path is safe to read exactly when it stays under
/// the expected prefix and holds no residual traversal pattern. The
/// canonicalization itself, which resolves links and relative
/// components, happens at the filesystem edge; this check judges its
/// result.
pub open spec fn spec_canonical_path_ok(canonical: Seq<char>, expected_prefix: Seq<char>) -> bool {
    &&& spec_starts_with(canonical, expected_prefix)
    &&& !spec_contains(canonical, ".."@)
    &&& !spec_contains(canonical, "./"@)
}

/// Judge a canonicalized path against the expected system prefix,
/// rejecting any escape from it as a security error.
pub fn check_canonical_path(canonical: &str, expected_prefix: &str) -> (r: Result<(), VmError>)
    ensures
        r is Ok <==> spec_canonical_path_ok(canonical@, expected_prefix@),
        r matches Err(e) ==> e is SecurityError,
{
    if !starts_with(canonical, expected_prefix) {
        let mut msg = String::from_str("Path traversal attempt detected: ");
        msg.append(canonical);
        msg.append(" does not start with expected prefix ");
        msg.append(expected_prefix);
        return Err(VmError::SecurityError(msg));
    }
    if contains_str(canonical, "..") || contains_str(canonical, "./") {
        let mut msg = String::from_str("Path traversal sequences detected in: ");
        msg.append(canonical);
        return Err(VmError::SecurityError(msg));
    }
    Ok(())
}

/// The whitelist of system files this tool may read: the processor and
/// memory dumps under the process-information prefix, and the
/// virtualization device under the device prefix.
pub open spec fn spec_system_file_allowed(
    canonical: Seq<char>,
    expected_prefix: Seq<char>,
) -> bool {
    if expected_prefix == "/proc/"@ {
        canonical == "/proc/cpuinfo"@ || canonical == "/proc/meminfo"@
    } else if expected_prefix == "/dev/"@ {
        canonical == "/dev/kvm"@
    } else {
        false
    }
}

/// Whether a canonical path is one of the few system files this tool
/// ever reads.
pub fn system_file_allowed(canonical: &str, expected_prefix: &str) -> (r: bool)
    ensures
        r == spec_system_file_allowed(canonical@, expected_prefix@),
{
    if str_eq(expected_prefix, "/proc/") {
        str_eq(canonical, "/proc/cpuinfo") || str_eq(canonical, "/proc/meminfo")
    } else if str_eq(expected_prefix, "/dev/") {
        str_eq(canonical, "/dev/kvm")
    } else {
        false
    }
}

} // verus!
