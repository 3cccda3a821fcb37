use vstd::prelude::*;

verus! {

/// Error taxonomy for every operation of this library.
///
/// Classification of an opaque control-plane failure into one of the more
/// specific variants is done by substring matching on the external stderr
/// text (see `classify`); that mapping is best-effort and never load-bearing
/// for correctness-critical branches.
#[derive(Debug, Clone, PartialEq, Eq)]
pub enum VmError {
    VmNotFound(String),
    VmAlreadyExists(String),
    VmAlreadyRunning(String),
    VmNotRunning(String),
    InvalidVmState(String),
    LibvirtError(String),
    QemuError(String),
    ConfigError(String),
    IoError(String),
    SerdeError(String),
    InvalidInput(String),
    PermissionDenied(String),
    ResourceUnavailable(String),
    NetworkError(String),
    Timeout(String),
    SecurityError(String),
    CommandError(String),
    OperationError(String),
}

impl VmError {
    /// The detail text carried by the error, whichever variant holds it.
    pub fn detail(&self) -> (r: &String)
        ensures
            r@ == self.spec_detail(),
    {
        match self {
            VmError::VmNotFound(s) => s,
            VmError::VmAlreadyExists(s) => s,
            VmError::VmAlreadyRunning(s) => s,
            VmError::VmNotRunning(s) => s,
            VmError::InvalidVmState(s) => s,
            VmError::LibvirtError(s) => s,
            VmError::QemuError(s) => s,
            VmError::ConfigError(s) => s,
            VmError::IoError(s) => s,
            VmError::SerdeError(s) => s,
            VmError::InvalidInput(s) => s,
            VmError::PermissionDenied(s) => s,
            VmError::ResourceUnavailable(s) => s,
            VmError::NetworkError(s) => s,
            VmError::Timeout(s) => s,
            VmError::SecurityError(s) => s,
            VmError::CommandError(s) => s,
            VmError::OperationError(s) => s,
        }
    }

    /// The detail text, as a sequence of characters.
    pub open spec fn spec_detail(&self) -> Seq<char> {
        match self {
            VmError::VmNotFound(s) => s@,
            VmError::VmAlreadyExists(s) => s@,
            VmError::VmAlreadyRunning(s) => s@,
            VmError::VmNotRunning(s) => s@,
            VmError::InvalidVmState(s) => s@,
            VmError::LibvirtError(s) => s@,
            VmError::QemuError(s) => s@,
            VmError::ConfigError(s) => s@,
            VmError::IoError(s) => s@,
            VmError::SerdeError(s) => s@,
            VmError::InvalidInput(s) => s@,
            VmError::PermissionDenied(s) => s@,
            VmError::ResourceUnavailable(s) => s@,
            VmError::NetworkError(s) => s@,
            VmError::Timeout(s) => s@,
            VmError::SecurityError(s) => s@,
            VmError::CommandError(s) => s@,
            VmError::OperationError(s) => s@,
        }
    }
}

} // verus!
