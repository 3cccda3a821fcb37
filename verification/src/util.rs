use vstd::prelude::*;
use vstd::string::*;
use crate::text::{spec_u64_str, spec_digit_char, u64_to_string};

verus! {

/// The divisor that picks the display unit for a byte count: one of the
/// powers of 1024 up to terabytes.
pub open spec fn spec_byte_unit(b: int) -> int {
    if b < 0x10_0000 {
        0x400
    } else if b < 0x4000_0000 {
        0x10_0000
    } else if b < 0x100_0000_0000 {
        0x4000_0000
    } else {
        0x100_0000_0000
    }
}

pub open spec fn spec_byte_suffix(b: int) -> Seq<char> {
    if b < 0x10_0000 {
        " KB"@
    } else if b < 0x4000_0000 {
        " MB"@
    } else if b < 0x100_0000_0000 {
        " GB"@
    } else {
        " TB"@
    }
}

/// Tenths of the chosen unit, rounded to the nearest tenth.
pub open spec fn spec_byte_tenths(b: int) -> int {
    (b % spec_byte_unit(b) * 10 + spec_byte_unit(b) / 2) / spec_byte_unit(b) + 10 * (b
        / spec_byte_unit(b))
}

/// Human-readable byte count: plain bytes below 1 KiB, otherwise one
/// decimal of the largest unit the count reaches.
pub open spec fn spec_format_bytes(b: int) -> Seq<char> {
    if b < 0x400 {
        spec_u64_str(b) + " B"@
    } else {
        spec_u64_str(spec_byte_tenths(b) / 10) + "."@ + seq![
            spec_digit_char(spec_byte_tenths(b) % 10),
        ] + spec_byte_suffix(b)
    }
}

fn format_scaled(b: u64, unit: u64, suffix: &str) -> (r: String)
    requires
        unit == spec_byte_unit(b as int),
        suffix@ == spec_byte_suffix(b as int),
        b >= 0x400,
    ensures
        r@ == spec_format_bytes(b as int),
{
    let whole: u64 = b / unit;
    let rem: u64 = b % unit;
    let tenths: u64 = (rem * 10 + unit / 2) / unit + 10 * whole;
    proof {
        assert((rem as int * 10 + unit as int / 2) / unit as int <= 10) by (nonlinear_arith)
            requires
                rem < unit,
                unit >= 0x400,
        ;
        assert(whole as int <= b as int / 0x400) by (nonlinear_arith)
            requires
                whole == b as int / unit as int,
                unit >= 0x400,
                b >= 0,
        ;
    }
    let mut out = u64_to_string(tenths / 10);
    out.append(".");
    let frac = crate::text::u64_to_string(tenths % 10);
    out.append(frac.as_str());
    out.append(suffix);
    proof {
        assert(spec_u64_str((tenths % 10) as int) =~= seq![spec_digit_char((tenths % 10) as int)]);
    }
    out
}

/// Human-readable byte count, e.g. `2.0 KB` for 2048.
pub fn format_bytes(bytes: u64) -> (r: String)
    ensures
        r@ == spec_format_bytes(bytes as int),
{
    if bytes < 0x400 {
        let mut out = u64_to_string(bytes);
        out.append(" B");
        out
    } else if bytes < 0x10_0000 {
        format_scaled(bytes, 0x400, " KB")
    } else if bytes < 0x4000_0000 {
        format_scaled(bytes, 0x10_0000, " MB")
    } else if bytes < 0x100_0000_0000 {
        format_scaled(bytes, 0x4000_0000, " GB")
    } else {
        format_scaled(bytes, 0x100_0000_0000, " TB")
    }
}

/// Human-readable duration, largest two units that apply: days and hours
/// and minutes, hours and minutes, minutes and seconds, or bare seconds.
pub open spec fn spec_format_duration(s: int) -> Seq<char> {
    let days = s / 86400;
    let hours = (s % 86400) / 3600;
    let minutes = (s % 3600) / 60;
    let secs = s % 60;
    if days > 0 {
        spec_u64_str(days) + "d "@ + spec_u64_str(hours) + "h "@ + spec_u64_str(minutes) + "m"@
    } else if hours > 0 {
        spec_u64_str(hours) + "h "@ + spec_u64_str(minutes) + "m"@
    } else if minutes > 0 {
        spec_u64_str(minutes) + "m "@ + spec_u64_str(secs) + "s"@
    } else {
        spec_u64_str(secs) + "s"@
    }
}

/// Human-readable duration, e.g. `1d 2h 3m`.
pub fn format_duration(seconds: u64) -> (r: String)
    ensures
        r@ == spec_format_duration(seconds as int),
{
    let days = seconds / 86400;
    let hours = (seconds % 86400) / 3600;
    let minutes = (seconds % 3600) / 60;
    let secs = seconds % 60;
    if days > 0 {
        let mut out = u64_to_string(days);
        out.append("d ");
        let h = u64_to_string(hours);
        out.append(h.as_str());
        out.append("h ");
        let m = u64_to_string(minutes);
        out.append(m.as_str());
        out.append("m");
        out
    } else if hours > 0 {
        let mut out = u64_to_string(hours);
        out.append("h ");
        let m = u64_to_string(minutes);
        out.append(m.as_str());
        out.append("m");
        out
    } else if minutes > 0 {
        let mut out = u64_to_string(minutes);
        out.append("m ");
        let sec = u64_to_string(secs);
        out.append(sec.as_str());
        out.append("s");
        out
    } else {
        let mut out = u64_to_string(secs);
        out.append("s");
        out
    }
}

} // verus!
