//! Human-readable rendering of byte counts: the count is scaled by the
//! largest fitting power of 1024 and shown with two fraction digits,
//! rounding half up.

use vstd::prelude::*;
use crate::text::{dec_chars, digit_char, digit_str, u64_to_string};

verus! {

pub open spec fn size_unit(e: int) -> Seq<char> {
    if e == 0 {
        "B"@
    } else if e == 1 {
        "KB"@
    } else if e == 2 {
        "MB"@
    } else if e == 3 {
        "GB"@
    } else if e == 4 {
        "TB"@
    } else {
        "PB"@
    }
}

/// The largest unit whose power of 1024 does not exceed the count.
pub open spec fn size_exponent(bytes: u64) -> int {
    if bytes >= 1125899906842624 {
        5
    } else if bytes >= 1099511627776 {
        4
    } else if bytes >= 1073741824 {
        3
    } else if bytes >= 1048576 {
        2
    } else if bytes >= 1024 {
        1
    } else {
        0
    }
}

pub open spec fn size_divisor(e: int) -> int {
    if e == 5 {
        1125899906842624
    } else if e == 4 {
        1099511627776
    } else if e == 3 {
        1073741824
    } else if e == 2 {
        1048576
    } else if e == 1 {
        1024
    } else {
        1
    }
}

/// One hundred times the scaled value, rounded half up.
pub open spec fn scaled_hundredths(bytes: u64) -> int {
    let p = size_divisor(size_exponent(bytes));
    (200 * bytes + p) / (2 * p)
}

pub open spec fn two_digits(f: int) -> Seq<char> {
    seq![digit_char(f / 10), digit_char(f % 10)]
}

/// The rendering: integer part, a dot, exactly two fraction digits, a space
/// and the unit; zero is a special case.
pub open spec fn format_size_spec(bytes: u64) -> Seq<char> {
    if bytes == 0 {
        "0 B"@
    } else {
        let v = scaled_hundredths(bytes);
        dec_chars((v / 100) as nat) + "."@ + two_digits(v % 100) + " "@ + size_unit(
            size_exponent(bytes),
        )
    }
}

fn render_scaled(v: u64, unit: &str) -> (r: String)
    ensures
        r@ == dec_chars((v / 100) as nat) + "."@ + two_digits((v % 100) as int) + " "@ + unit@,
{
    let mut s = u64_to_string(v / 100);
    s.append(".");
    let frac = v % 100;
    s.append(digit_str(frac / 10));
    s.append(digit_str(frac % 10));
    s.append(" ");
    s.append(unit);
    proof {
        assert(s@ =~= dec_chars((v / 100) as nat) + "."@ + two_digits((v % 100) as int) + " "@
            + unit@);
    }
    s
}

/// The refusal reported when a file is larger than the configured maximum.
pub open spec fn size_exceeded_message_spec(max: u64, size: u64) -> Seq<char> {
    "File exceeds max size "@ + format_size_spec(max) + " (file size: "@ + format_size_spec(size)
        + ")"@
}

/// Builds the over-size refusal for a file of `size` bytes under a limit of
/// `max` bytes.
pub fn size_exceeded_message(max: u64, size: u64) -> (r: String)
    ensures
        r@ == size_exceeded_message_spec(max, size),
{
    let mut s = "File exceeds max size ".to_owned();
    let m = format_size(max);
    s.append(m.as_str());
    s.append(" (file size: ");
    let f = format_size(size);
    s.append(f.as_str());
    s.append(")");
    proof {
        assert(s@ =~= size_exceeded_message_spec(max, size));
    }
    s
}

/// Formats a byte count in human units.
pub fn format_size(bytes: u64) -> (r: String)
    ensures
        r@ == format_size_spec(bytes),
{
    if bytes == 0 {
        return "0 B".to_owned();
    }
    let b = bytes as u128;
    if bytes >= 1125899906842624 {
        let v = ((200u128 * b + 1125899906842624u128) / 2251799813685248u128) as u64;
        render_scaled(v, "PB")
    } else if bytes >= 1099511627776 {
        let v = ((200u128 * b + 1099511627776u128) / 2199023255552u128) as u64;
        render_scaled(v, "TB")
    } else if bytes >= 1073741824 {
        let v = ((200u128 * b + 1073741824u128) / 2147483648u128) as u64;
        render_scaled(v, "GB")
    } else if bytes >= 1048576 {
        let v = ((200u128 * b + 1048576u128) / 2097152u128) as u64;
        render_scaled(v, "MB")
    } else if bytes >= 1024 {
        let v = ((200u128 * b + 1024u128) / 2048u128) as u64;
        render_scaled(v, "KB")
    } else {
        let v = ((200u128 * b + 1u128) / 2u128) as u64;
        render_scaled(v, "B")
    }
}

} // verus!
