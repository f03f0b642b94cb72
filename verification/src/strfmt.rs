//! Verified decimal formatting: numbers rendered as strings, with the
//! zero-padded timestamp file names built from them.

use vstd::prelude::*;

verus! {

/// The character for one decimal digit.
pub open spec fn spec_digit_char(d: int) -> char {
    ((d + 48) as u8) as char
}

/// The decimal rendering of a natural number, most significant digit first.
pub open spec fn spec_decimal(n: nat) -> Seq<char>
    decreases n,
{
    if n < 10 {
        seq![spec_digit_char(n as int)]
    } else {
        spec_decimal(n / 10) + seq![spec_digit_char((n % 10) as int)]
    }
}

/// The decimal rendering of a signed number: a minus sign ahead of the
/// digits when it is negative.
pub open spec fn spec_decimal_i64(n: int) -> Seq<char> {
    if n < 0 {
        seq!['-'] + spec_decimal((-n) as nat)
    } else {
        spec_decimal(n as nat)
    }
}

/// One decimal digit as a string slice.
fn digit_str(d: u64) -> (r: &'static str)
    requires
        d < 10,
    ensures
        r@ == seq![spec_digit_char(d as int)],
{
    proof {
        reveal_strlit("0");
        reveal_strlit("1");
        reveal_strlit("2");
        reveal_strlit("3");
        reveal_strlit("4");
        reveal_strlit("5");
        reveal_strlit("6");
        reveal_strlit("7");
        reveal_strlit("8");
        reveal_strlit("9");
    }
    if d == 0 {
        "0"
    } else if d == 1 {
        "1"
    } else if d == 2 {
        "2"
    } else if d == 3 {
        "3"
    } else if d == 4 {
        "4"
    } else if d == 5 {
        "5"
    } else if d == 6 {
        "6"
    } else if d == 7 {
        "7"
    } else if d == 8 {
        "8"
    } else {
        "9"
    }
}

/// Append the decimal rendering of `n` to `out`.
fn append_decimal(out: &mut String, n: u64)
    ensures
        final(out)@ == old(out)@ + spec_decimal(n as nat),
    decreases n,
{
    if n < 10 {
        out.append(digit_str(n));
    } else {
        append_decimal(out, n / 10);
        out.append(digit_str(n % 10));
    }
}

/// Render an unsigned number in decimal.
pub fn u64_to_string(n: u64) -> (r: String)
    ensures
        r@ == spec_decimal(n as nat),
{
    let mut out = String::new();
    append_decimal(&mut out, n);
    out
}

/// Render a signed number in decimal.
pub fn i64_to_string(n: i64) -> (r: String)
    ensures
        r@ == spec_decimal_i64(n as int),
{
    let mut out = String::new();
    if n < 0 {
        out.append("-");
        proof {
            reveal_strlit("-");
            assert(out@ =~= seq!['-']);
        }
        let magnitude: u64 = if n == i64::MIN {
            9223372036854775808u64
        } else {
            (-n) as u64
        };
        append_decimal(&mut out, magnitude);
    } else {
        append_decimal(&mut out, n as u64);
    }
    out
}

/// Render a signed 32-bit number in decimal.
pub fn i32_to_string(n: i32) -> (r: String)
    ensures
        r@ == spec_decimal_i64(n as int),
{
    i64_to_string(n as i64)
}

/// The decimal rendering of `n`, left-padded with zeros to at least two
/// digits.
pub open spec fn spec_padded2(n: nat) -> Seq<char> {
    if n < 10 {
        seq!['0'] + spec_decimal(n)
    } else {
        spec_decimal(n)
    }
}

/// The decimal rendering of `n`, left-padded with zeros to at least four
/// digits.
pub open spec fn spec_padded4(n: nat) -> Seq<char> {
    if n < 10 {
        seq!['0', '0', '0'] + spec_decimal(n)
    } else if n < 100 {
        seq!['0', '0'] + spec_decimal(n)
    } else if n < 1000 {
        seq!['0'] + spec_decimal(n)
    } else {
        spec_decimal(n)
    }
}

/// Append `n` zero-padded to at least two digits.
fn append_padded2(out: &mut String, n: u64)
    ensures
        final(out)@ == old(out)@ + spec_padded2(n as nat),
{
    proof {
        reveal_strlit("0");
    }
    if n < 10 {
        out.append("0");
    }
    append_decimal(out, n);
}

/// Append `n` zero-padded to at least four digits.
fn append_padded4(out: &mut String, n: u64)
    ensures
        final(out)@ == old(out)@ + spec_padded4(n as nat),
{
    proof {
        reveal_strlit("0");
        reveal_strlit("00");
        reveal_strlit("000");
    }
    if n < 10 {
        out.append("000");
    } else if n < 100 {
        out.append("00");
    } else if n < 1000 {
        out.append("0");
    }
    append_decimal(out, n);
}

/// The timestamp file name for a capture taken at the given wall-clock
/// fields: year, month, day, hour, minute and second separated by
/// underscores, with the extension appended after a dot.
pub open spec fn spec_timestamp_filename(
    year: nat,
    month: nat,
    day: nat,
    hour: nat,
    minute: nat,
    second: nat,
    extension: Seq<char>,
) -> Seq<char> {
    spec_padded4(year) + seq!['_'] + spec_padded2(month) + seq!['_'] + spec_padded2(day)
        + seq!['_'] + spec_padded2(hour) + seq!['_'] + spec_padded2(minute) + seq!['_']
        + spec_padded2(second) + seq!['.'] + extension
}

/// Generate a file name from a capture's wall-clock time and an extension.
pub fn generate_filename(
    year: u64,
    month: u64,
    day: u64,
    hour: u64,
    minute: u64,
    second: u64,
    extension: &str,
) -> (r: String)
    ensures
        r@ == spec_timestamp_filename(
            year as nat,
            month as nat,
            day as nat,
            hour as nat,
            minute as nat,
            second as nat,
            extension@,
        ),
{
    proof {
        reveal_strlit("_");
        reveal_strlit(".");
    }
    let mut out = String::new();
    append_padded4(&mut out, year);
    out.append("_");
    append_padded2(&mut out, month);
    out.append("_");
    append_padded2(&mut out, day);
    out.append("_");
    append_padded2(&mut out, hour);
    out.append("_");
    append_padded2(&mut out, minute);
    out.append("_");
    append_padded2(&mut out, second);
    out.append(".");
    out.append(extension);
    proof {
        assert(out@ =~= spec_timestamp_filename(
            year as nat,
            month as nat,
            day as nat,
            hour as nat,
            minute as nat,
            second as nat,
            extension@,
        ));
    }
    out
}

} // verus!
