use vstd::prelude::*;
use vstd::string::*;
use crate::error::VmError;
use crate::text::{spec_contains, contains_str};

verus! {

/// The known stderr patterns of the control plane. Classification by
/// substring is best-effort and never load-bearing for correctness-
/// critical branches; everything unmatched stays unclassified.
#[derive(Debug, Clone, Copy, PartialEq, Eq, Structural)]
pub enum StderrClass {
    NotFoundPattern,
    AlreadyActivePattern,
    NotRunningPattern,
    Unclassified,
}

/// The centralized pattern table: `not found` before `already active`
/// before `not running`; anything else is unclassified.
pub open spec fn spec_classify_stderr(s: Seq<char>) -> StderrClass {
    if spec_contains(s, "not found"@) {
        StderrClass::NotFoundPattern
    } else if spec_contains(s, "already active"@) {
        StderrClass::AlreadyActivePattern
    } else if spec_contains(s, "not running"@) {
        StderrClass::NotRunningPattern
    } else {
        StderrClass::Unclassified
    }
}

/// Classify control-plane stderr text against the pattern table.
pub fn classify_stderr(stderr: &str) -> (r: StderrClass)
    ensures
        r == spec_classify_stderr(stderr@),
{
    if contains_str(stderr, "not found") {
        StderrClass::NotFoundPattern
    } else if contains_str(stderr, "already active") {
        StderrClass::AlreadyActivePattern
    } else if contains_str(stderr, "not running") {
        StderrClass::NotRunningPattern
    } else {
        StderrClass::Unclassified
    }
}

/// The error for a failed start request: a `not found` pattern names the
/// machine, an `already active` pattern reports it as already running,
/// anything else surfaces as an opaque control-plane failure carrying
/// the stderr text.
pub fn classify_start_failure(name: &str, stderr: &str) -> (r: VmError)
    ensures
        spec_classify_stderr(stderr@) == StderrClass::NotFoundPattern ==> (r is VmNotFound
            && r.spec_detail() == name@),
        spec_classify_stderr(stderr@) == StderrClass::AlreadyActivePattern ==> (
        r is VmAlreadyRunning && r.spec_detail() == name@),
        (spec_classify_stderr(stderr@) == StderrClass::NotRunningPattern
            || spec_classify_stderr(stderr@) == StderrClass::Unclassified) ==> (r is LibvirtError
            && r.spec_detail() == "Failed to start domain: "@ + stderr@),
{
    match classify_stderr(stderr) {
        StderrClass::NotFoundPattern => VmError::VmNotFound(String::from_str(name)),
        StderrClass::AlreadyActivePattern => VmError::VmAlreadyRunning(String::from_str(name)),
        _ => {
            let mut msg = String::from_str("Failed to start domain: ");
            msg.append(stderr);
            VmError::LibvirtError(msg)
        },
    }
}

/// The error for a failed graceful-shutdown request: `not found` names
/// the machine, `not running` reports it as not running, anything else
/// is an opaque control-plane failure.
pub fn classify_shutdown_failure(name: &str, stderr: &str) -> (r: VmError)
    ensures
        spec_classify_stderr(stderr@) == StderrClass::NotFoundPattern ==> (r is VmNotFound
            && r.spec_detail() == name@),
        spec_classify_stderr(stderr@) == StderrClass::NotRunningPattern ==> (r is VmNotRunning
            && r.spec_detail() == name@),
        (spec_classify_stderr(stderr@) == StderrClass::AlreadyActivePattern
            || spec_classify_stderr(stderr@) == StderrClass::Unclassified) ==> (r is LibvirtError
            && r.spec_detail() == "Failed to shutdown domain: "@ + stderr@),
{
    match classify_stderr(stderr) {
        StderrClass::NotFoundPattern => VmError::VmNotFound(String::from_str(name)),
        StderrClass::NotRunningPattern => VmError::VmNotRunning(String::from_str(name)),
        _ => {
            let mut msg = String::from_str("Failed to shutdown domain: ");
            msg.append(stderr);
            VmError::LibvirtError(msg)
        },
    }
}

/// The error for a failed request that only distinguishes a missing
/// machine: `not found` names the machine, anything else carries the
/// given prefix and the stderr text as an opaque control-plane failure.
pub fn classify_not_found_or_opaque(name: &str, prefix: &str, stderr: &str) -> (r: VmError)
    ensures
        spec_classify_stderr(stderr@) == StderrClass::NotFoundPattern ==> (r is VmNotFound
            && r.spec_detail() == name@),
        spec_classify_stderr(stderr@) != StderrClass::NotFoundPattern ==> (r is LibvirtError
            && r.spec_detail() == prefix@ + stderr@),
{
    match classify_stderr(stderr) {
        StderrClass::NotFoundPattern => VmError::VmNotFound(String::from_str(name)),
        _ => {
            let mut msg = String::from_str(prefix);
            msg.append(stderr);
            VmError::LibvirtError(msg)
        },
    }
}

/// A network-start outcome counts as success: the command exited
/// cleanly, or its stderr reports the network as already active.
pub open spec fn spec_net_start_ok(exit_ok: bool, stderr: Seq<char>) -> bool {
    exit_ok || spec_contains(stderr, "already active"@)
}

/// The outcome of a network-start command: success on a zero exit, and
/// success on a failure whose stderr reports the network as already
/// active — starting an active network is a no-op, not an error.
pub fn net_start_result(exit_ok: bool, network: &str, stderr: &str) -> (r: Result<(), VmError>)
    ensures
        r is Ok <==> spec_net_start_ok(exit_ok, stderr@),
        r matches Err(e) ==> (e is CommandError && e.spec_detail() == "Failed to start network "@
            + network@ + ": "@ + stderr@),
{
    if exit_ok {
        Ok(())
    } else if contains_str(stderr, "already active") {
        Ok(())
    } else {
        let mut msg = String::from_str("Failed to start network ");
        msg.append(network);
        msg.append(": ");
        msg.append(stderr);
        Err(VmError::CommandError(msg))
    }
}

} // verus!
