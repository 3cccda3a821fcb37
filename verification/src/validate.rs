use vstd::prelude::*;
use vstd::string::*;
use crate::error::VmError;
use crate::text::{spec_trim, spec_contains, trim, contains_str};

verus! {

/// Whether a character counts as alphanumeric under the Unicode general
/// categories, exactly as `char::is_alphanumeric` decides it.
pub uninterp spec fn is_unicode_alphanumeric(c: char) -> bool;

/// Relies on `char::is_alphanumeric`: true exactly for Unicode letters and
/// numbers; in particular every ASCII letter and digit is alphanumeric.
pub assume_specification[ char::is_alphanumeric ](c: char) -> (r: bool)
    ensures
        r == is_unicode_alphanumeric(c),
        ('a' <= c && c <= 'z') ==> r,
        ('A' <= c && c <= 'Z') ==> r,
        ('0' <= c && c <= '9') ==> r,
;

/// A character a virtual-machine name may contain.
pub open spec fn is_name_char(c: char) -> bool {
    is_unicode_alphanumeric(c) || c == '-' || c == '_'
}

/// A valid virtual-machine name: not empty or whitespace-only, at most 64
/// characters, free of the path-traversal patterns `..`, `/`, and `\`,
/// made of alphanumerics, hyphens, and underscores only, and not starting
/// or ending with a hyphen. Only a valid name may ever reach path
/// construction.
pub open spec fn spec_valid_vm_name(s: Seq<char>) -> bool {
    &&& spec_trim(s).len() > 0
    &&& s.len() <= 64
    &&& !spec_contains(s, ".."@)
    &&& !spec_contains(s, "/"@)
    &&& !spec_contains(s, "\\"@)
    &&& forall|i: int| 0 <= i < s.len() ==> is_name_char(#[trigger] s[i])
    &&& s.len() > 0
    &&& s[0] != '-'
    &&& s.last() != '-'
}

/// Validate a virtual-machine name before it can be used to address a
/// machine or to derive a disk-image path.
///
/// Rejections, in the order they are checked: a name that is empty or
/// whitespace-only, a name of more than 64 characters, a name holding
/// `..`, `/`, or `\` (a path-traversal vector, rejected as a security
/// error), a name with any character outside alphanumeric/hyphen/
/// underscore, and a name starting or ending with a hyphen.
#[verifier::loop_isolation(false)]
pub fn validate_vm_name(name: &str) -> (r: Result<(), VmError>)
    ensures
        r is Ok <==> spec_valid_vm_name(name@),
        r matches Err(e) ==> (e is InvalidInput || e is SecurityError),
        spec_trim(name@).len() == 0 ==> (r matches Err(e) && e is InvalidInput),
        (spec_trim(name@).len() > 0 && name@.len() > 64) ==> (r matches Err(e)
            && e is InvalidInput),
        (spec_trim(name@).len() > 0 && name@.len() <= 64 && (spec_contains(name@, ".."@)
            || spec_contains(name@, "/"@) || spec_contains(name@, "\\"@))) ==> (r matches Err(e)
            && e is SecurityError),
{
    proof {
        reveal_strlit("..");
        reveal_strlit("/");
        reveal_strlit("\\");
    }
    let trimmed = trim(name);
    if trimmed.as_str().unicode_len() == 0 {
        return Err(VmError::InvalidInput(String::from_str("VM name cannot be empty")));
    }
    let n = name.unicode_len();
    if n > 64 {
        return Err(VmError::InvalidInput(String::from_str("VM name too long (max 64 characters)")));
    }
    if contains_str(name, "..") || contains_str(name, "/") || contains_str(name, "\\") {
        let mut msg = String::from_str(
            "VM name contains prohibited characters that could lead to path traversal: ",
        );
        msg.append(name);
        return Err(VmError::SecurityError(msg));
    }
    let mut i: usize = 0;
    while i < n
        invariant
            n == name@.len(),
            0 <= i <= n,
            forall|j: int| 0 <= j < i ==> is_name_char(#[trigger] name@[j]),
        decreases n - i,
    {
        let c = name.get_char(i);
        if !(c.is_alphanumeric() || c == '-' || c == '_') {
            return Err(VmError::InvalidInput(
                String::from_str(
                    "VM name can only contain alphanumeric characters, hyphens, and underscores",
                ),
            ));
        }
        i = i + 1;
    }
    if name.get_char(0) == '-' || name.get_char(n - 1) == '-' {
        return Err(VmError::InvalidInput(
            String::from_str("VM name cannot start or end with a hyphen"),
        ));
    }
    Ok(())
}

/// Memory must lie between 128 MB and 1 TB.
pub fn validate_memory(memory_mb: u64) -> (r: Result<(), VmError>)
    ensures
        r is Ok <==> 128 <= memory_mb <= 0x10_0000,
        r matches Err(e) ==> e is InvalidInput,
{
    if memory_mb < 128 {
        Err(VmError::InvalidInput(String::from_str("Memory must be at least 128MB")))
    } else if memory_mb > 1024 * 1024 {
        Err(VmError::InvalidInput(String::from_str("Memory cannot exceed 1TB")))
    } else {
        Ok(())
    }
}

/// The CPU count must lie between 1 and 256.
pub fn validate_cpus(cpus: u32) -> (r: Result<(), VmError>)
    ensures
        r is Ok <==> 1 <= cpus <= 256,
        r matches Err(e) ==> e is InvalidInput,
{
    if cpus == 0 {
        Err(VmError::InvalidInput(String::from_str("CPU count must be at least 1")))
    } else if cpus > 256 {
        Err(VmError::InvalidInput(String::from_str("CPU count cannot exceed 256")))
    } else {
        Ok(())
    }
}

/// The disk size must lie between 1 GB and 10 TB.
pub fn validate_disk_size(size_gb: u64) -> (r: Result<(), VmError>)
    ensures
        r is Ok <==> 1 <= size_gb <= 10240,
        r matches Err(e) ==> e is InvalidInput,
{
    if size_gb == 0 {
        Err(VmError::InvalidInput(String::from_str("Disk size must be at least 1GB")))
    } else if size_gb > 10240 {
        Err(VmError::InvalidInput(String::from_str("Disk size cannot exceed 10TB")))
    } else {
        Ok(())
    }
}

} // verus!
