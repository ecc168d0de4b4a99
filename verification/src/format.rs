//! Verified text formatting for durations and counters: decimal
//! rendering of integers and the `H:MM:SS` / `MM:SS` clock format
//! used by every display frame.

use vstd::prelude::*;

verus! {

/// The decimal digit character for `d`.
pub open spec fn digit_char(d: int) -> char {
    if d == 0 {
        '0'
    } else if d == 1 {
        '1'
    } else if d == 2 {
        '2'
    } else if d == 3 {
        '3'
    } else if d == 4 {
        '4'
    } else if d == 5 {
        '5'
    } else if d == 6 {
        '6'
    } else if d == 7 {
        '7'
    } else if d == 8 {
        '8'
    } else {
        '9'
    }
}

/// The usual decimal rendering of a non-negative integer, most
/// significant digit first, no leading zeros except for zero itself.
pub open spec fn spec_decimal(n: int) -> Seq<char>
    decreases n,
{
    if n < 10 {
        seq![digit_char(n)]
    } else {
        spec_decimal(n / 10).push(digit_char(n % 10))
    }
}

/// Decimal rendering padded with one leading zero to at least two
/// digits, as clock minute and second fields are written.
pub open spec fn spec_two_digits(n: int) -> Seq<char> {
    if n < 10 {
        seq!['0'].push(digit_char(n))
    } else {
        spec_decimal(n)
    }
}

/// The clock rendering of `ms` milliseconds: whole seconds split into
/// hours, minutes and seconds; `H:MM:SS` when at least an hour,
/// `MM:SS` otherwise.
pub open spec fn spec_format_duration(ms: int) -> Seq<char> {
    let secs = ms / 1000;
    let h = secs / 3600;
    let m = (secs % 3600) / 60;
    let s = secs % 60;
    if h > 0 {
        spec_decimal(h) + seq![':'] + spec_two_digits(m) + seq![':'] + spec_two_digits(s)
    } else {
        spec_two_digits(m) + seq![':'] + spec_two_digits(s)
    }
}

/// The one-character string for digit `d`.
fn digit_str(d: u64) -> (r: &'static str)
    requires
        d < 10,
    ensures
        r@ == seq![digit_char(d as int)],
{
    let r = match d {
        0 => "0",
        1 => "1",
        2 => "2",
        3 => "3",
        4 => "4",
        5 => "5",
        6 => "6",
        7 => "7",
        8 => "8",
        _ => "9",
    };
    proof {
        reveal_strlit("0");
        reveal_strlit("1");
        reveal_strlit("2");
        reveal_strlit("3");
        reveal_strlit("4");
        reveal_strlit("5");
        reveal_strlit("6");
        reveal_strlit("7");
        reveal_strlit("8");
        reveal_strlit("9");
        assert(r@ =~= seq![digit_char(d as int)]);
    }
    r
}

/// Renders `n` in decimal.
pub fn u64_to_string(n: u64) -> (r: String)
    ensures
        r@ == spec_decimal(n as int),
    decreases n,
{
    if n < 10 {
        String::from_str(digit_str(n))
    } else {
        assert(n / 10 < n && n / 10 >= 1) by (nonlinear_arith)
            requires
                n >= 10,
        ;
        let mut s = u64_to_string(n / 10);
        s.append(digit_str(n % 10));
        proof {
            assert(s@ =~= spec_decimal((n / 10) as int).push(digit_char((n % 10) as int)));
        }
        s
    }
}

/// Renders `n` in decimal, padded to at least two digits.
pub fn two_digits(n: u64) -> (r: String)
    ensures
        r@ == spec_two_digits(n as int),
    {
    if n < 10 {
        let mut s = String::from_str("0");
        s.append(digit_str(n));
        proof {
            reveal_strlit("0");
            assert(s@ =~= seq!['0'].push(digit_char(n as int)));
        }
        s
    } else {
        u64_to_string(n)
    }
}

/// Renders `ms` milliseconds in clock format: `H:MM:SS` when at least
/// an hour, `MM:SS` otherwise.
pub fn format_duration(ms: u64) -> (r: String)
    ensures
        r@ == spec_format_duration(ms as int),
{
    let secs: u64 = ms / 1000;
    let h: u64 = secs / 3600;
    let m: u64 = (secs % 3600) / 60;
    let s: u64 = secs % 60;
    if h > 0 {
        let mut out = u64_to_string(h);
        out.append(":");
        let mm = two_digits(m);
        out.append(mm.as_str());
        out.append(":");
        let ss = two_digits(s);
        out.append(ss.as_str());
        proof {
            reveal_strlit(":");
            assert(":"@ =~= seq![':']);
            assert(out@ =~= spec_format_duration(ms as int));
        }
        out
    } else {
        let mut out = two_digits(m);
        out.append(":");
        let ss = two_digits(s);
        out.append(ss.as_str());
        proof {
            reveal_strlit(":");
            assert(":"@ =~= seq![':']);
            assert(out@ =~= spec_format_duration(ms as int));
        }
        out
    }
}

} // verus!
