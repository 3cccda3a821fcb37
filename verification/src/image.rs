use vstd::prelude::*;
use vstd::string::*;
use crate::error::VmError;
use crate::model::ImageInfo;

verus! {

#[verifier::external_type_specification]
#[verifier::external_body]
pub struct ExValue(serde_json::Value);

/// Whether a text is well-formed JSON, exactly as `serde_json::from_str`
/// accepts it for a tree value: a function of the text alone.
pub uninterp spec fn json_parsable(s: Seq<char>) -> bool;

/// Relies on `serde_json::from_str`: parses JSON text into a tree
/// value, succeeding exactly on well-formed JSON, or reports the parse
/// failure as text.
#[verifier::external_body]
fn json_parse(s: &str) -> (r: Result<serde_json::Value, String>)
    ensures
        r is Ok <==> json_parsable(s@),
{
    serde_json::from_str::<serde_json::Value>(s).map_err(|e| e.to_string())
}

/// Relies on `serde_json::Value::get`: the member of an object under
/// the given key, if the value is an object and has it.
#[verifier::external_body]
fn json_get<'a>(v: &'a serde_json::Value, key: &str) -> (r: Option<&'a serde_json::Value>) {
    v.get(key)
}

/// Relies on `serde_json::Value::as_str`: the text of a JSON string
/// value, if it is one.
#[verifier::external_body]
fn json_as_string(v: &serde_json::Value) -> (r: Option<String>) {
    v.as_str().map(|s| s.to_string())
}

/// Relies on `serde_json::Value::as_u64`: the value of a JSON integer
/// that fits an unsigned 64-bit number, if it is one.
#[verifier::external_body]
fn json_as_u64(v: &serde_json::Value) -> (r: Option<u64>) {
    v.as_u64()
}

/// Assemble an image description from whatever fields the utility's
/// report held: a missing or non-string format reads `unknown`, missing
/// sizes read zero, and a missing file name reads empty — absence of
/// detail is never an error.
pub fn image_info_from_fields(
    format: Option<String>,
    virtual_size: Option<u64>,
    actual_size: Option<u64>,
    filename: Option<String>,
) -> (r: ImageInfo)
    ensures
        r.format@ == (match format {
            Some(f) => f@,
            None => "unknown"@,
        }),
        r.virtual_size == (match virtual_size {
            Some(v) => v,
            None => 0,
        }),
        r.actual_size == (match actual_size {
            Some(a) => a,
            None => 0,
        }),
        r.filename@ == (match filename {
            Some(n) => n@,
            None => ""@,
        }),
{
    ImageInfo {
        format: match format {
            Some(f) => f,
            None => String::from_str("unknown"),
        },
        virtual_size: match virtual_size {
            Some(v) => v,
            None => 0,
        },
        actual_size: match actual_size {
            Some(a) => a,
            None => 0,
        },
        filename: match filename {
            Some(n) => n,
            None => String::from_str(""),
        },
    }
}

/// Parse the disk-image utility's JSON report into an image
/// description. Exactly the texts that are not well-formed JSON fail,
/// as a serialization error carrying the parser's message; within a
/// parsed report, each of the four consumed fields falls back to its
/// documented default when absent or of the wrong type.
pub fn parse_image_info(text: &str) -> (r: Result<ImageInfo, VmError>)
    ensures
        r is Ok <==> json_parsable(text@),
        r matches Err(e) ==> e is SerdeError,
{
    let value = match json_parse(text) {
        Ok(v) => v,
        Err(msg) => {
            return Err(VmError::SerdeError(msg));
        },
    };
    let format = match json_get(&value, "format") {
        Some(f) => json_as_string(f),
        None => None,
    };
    let virtual_size = match json_get(&value, "virtual-size") {
        Some(v) => json_as_u64(v),
        None => None,
    };
    let actual_size = match json_get(&value, "actual-size") {
        Some(a) => json_as_u64(a),
        None => None,
    };
    let filename = match json_get(&value, "filename") {
        Some(n) => json_as_string(n),
        None => None,
    };
    Ok(image_info_from_fields(format, virtual_size, actual_size, filename))
}

} // verus!
