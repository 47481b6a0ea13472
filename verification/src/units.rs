//! Formatting of counter values: plain decimal, or binary byte magnitudes.

use vstd::prelude::*;

verus! {

/// How a counter value is shown: as a plain integer, or scaled to the
/// largest binary byte unit whose magnitude is at least one.
#[derive(Clone, Copy, PartialEq, Eq, Structural, Debug)]
pub enum Units {
    Default,
    Bytes,
}

/// The decimal digit character for `d` (`0 <= d <= 9`).
pub open spec fn spec_digit(d: int) -> char {
    if d == 0 {
        '0'
    } else if d == 1 {
        '1'
    } else if d == 2 {
        '2'
    } else if d == 3 {
        '3'
    } else if d == 4 {
        '4'
    } else if d == 5 {
        '5'
    } else if d == 6 {
        '6'
    } else if d == 7 {
        '7'
    } else if d == 8 {
        '8'
    } else {
        '9'
    }
}

/// The usual decimal rendering of a non-negative integer, without sign,
/// leading zeros only for the value zero itself.
pub open spec fn spec_decimal(v: int) -> Seq<char>
    decreases v,
{
    if v < 10 {
        seq![spec_digit(v)]
    } else {
        spec_decimal(v / 10).push(spec_digit(v % 10))
    }
}

/// Appends one character to a string.
///
/// Relies on `String::push`: appends the given character to the end of
/// the string.
#[verifier::external_body]
pub(crate) fn push_char(s: &mut String, c: char)
    ensures
        final(s)@ == old(s)@.push(c),
{
    s.push(c);
}

pub(crate) fn digit_char(d: u64) -> (c: char)
    requires
        d <= 9,
    ensures
        c == spec_digit(d as int),
{
    match d {
        0 => '0',
        1 => '1',
        2 => '2',
        3 => '3',
        4 => '4',
        5 => '5',
        6 => '6',
        7 => '7',
        8 => '8',
        _ => '9',
    }
}

/// Renders `v` in decimal.
pub fn u64_to_decimal(v: u64) -> (s: String)
    ensures
        s@ == spec_decimal(v as int),
    decreases v,
{
    if v < 10 {
        let mut s = String::new();
        push_char(&mut s, digit_char(v));
        proof {
            assert(s@ =~= seq![spec_digit(v as int)]);
        }
        s
    } else {
        let mut s = u64_to_decimal(v / 10);
        push_char(&mut s, digit_char(v % 10));
        s
    }
}

/// A scaled magnitude with one decimal place and a trailing space:
/// the digits of `t / 10`, a dot, the digit `t % 10`, a space.
pub open spec fn spec_one_decimal(t: int) -> Seq<char> {
    spec_decimal(t / 10) + seq!['.', spec_digit(t % 10), ' ']
}

fn one_decimal(t: u64) -> (s: String)
    ensures
        s@ == spec_one_decimal(t as int),
{
    let mut s = u64_to_decimal(t / 10);
    push_char(&mut s, '.');
    push_char(&mut s, digit_char(t % 10));
    push_char(&mut s, ' ');
    proof {
        assert(s@ =~= spec_one_decimal(t as int));
    }
    s
}

/// Byte formatting: values below one KiB are whole bytes; larger values
/// are scaled to the greatest binary unit that keeps the magnitude in
/// `[1, 1024)` and shown with one (truncated) decimal place.
pub open spec fn spec_bytes_text(v: int) -> Seq<char> {
    if v < 1024 {
        spec_decimal(v) + seq![' ', 'B']
    } else if v < 1048576 {
        spec_one_decimal(10 * v / 1024) + seq!['K', 'i', 'B']
    } else if v < 1073741824 {
        spec_one_decimal(10 * v / 1048576) + seq!['M', 'i', 'B']
    } else if v < 1099511627776 {
        spec_one_decimal(10 * v / 1073741824) + seq!['G', 'i', 'B']
    } else if v < 1125899906842624 {
        spec_one_decimal(10 * v / 1099511627776) + seq!['T', 'i', 'B']
    } else if v < 1152921504606846976 {
        spec_one_decimal(10 * v / 1125899906842624) + seq!['P', 'i', 'B']
    } else {
        spec_one_decimal(10 * v / 1152921504606846976) + seq!['E', 'i', 'B']
    }
}

/// What `format_value` returns, as a sequence of characters.
pub open spec fn spec_format_value(v: int, units: Units) -> Seq<char> {
    match units {
        Units::Default => spec_decimal(v),
        Units::Bytes => spec_bytes_text(v),
    }
}

fn scaled(v: u64, div: u64) -> (t: u64)
    requires
        1024 <= div,
        10 * v < 10240 * div,
    ensures
        t == 10 * v / (div as int),
        t < 10240,
{
    let wide: u128 = (v as u128) * 10 / (div as u128);
    proof {
        assert(wide == 10 * v / (div as int));
        assert(10 * v / (div as int) < 10240) by {
            vstd::arithmetic::div_mod::lemma_multiply_divide_lt(
                10 * (v as int),
                div as int,
                10240int,
            );
        }
    }
    wide as u64
}

/// Formats a counter value for display under the chosen units.
pub fn format_value(v: u64, units: Units) -> (s: String)
    ensures
        s@ == spec_format_value(v as int, units),
{
    match units {
        Units::Default => u64_to_decimal(v),
        Units::Bytes => {
            if v < 1024 {
                let mut s = u64_to_decimal(v);
                s.append(" B");
                proof {
                    reveal_strlit(" B");
                    assert(" B"@ =~= seq![' ', 'B']);
                }
                s
            } else if v < 1048576 {
                let mut s = one_decimal(scaled(v, 1024));
                s.append("KiB");
                proof {
                    reveal_strlit("KiB");
                    assert("KiB"@ =~= seq!['K', 'i', 'B']);
                }
                s
            } else if v < 1073741824 {
                let mut s = one_decimal(scaled(v, 1048576));
                s.append("MiB");
                proof {
                    reveal_strlit("MiB");
                    assert("MiB"@ =~= seq!['M', 'i', 'B']);
                }
                s
            } else if v < 1099511627776 {
                let mut s = one_decimal(scaled(v, 1073741824));
                s.append("GiB");
                proof {
                    reveal_strlit("GiB");
                    assert("GiB"@ =~= seq!['G', 'i', 'B']);
                }
                s
            } else if v < 1125899906842624 {
                let mut s = one_decimal(scaled(v, 1099511627776));
                s.append("TiB");
                proof {
                    reveal_strlit("TiB");
                    assert("TiB"@ =~= seq!['T', 'i', 'B']);
                }
                s
            } else if v < 1152921504606846976 {
                let mut s = one_decimal(scaled(v, 1125899906842624));
                s.append("PiB");
                proof {
                    reveal_strlit("PiB");
                    assert("PiB"@ =~= seq!['P', 'i', 'B']);
                }
                s
            } else {
                let mut s = one_decimal(scaled(v, 1152921504606846976));
                s.append("EiB");
                proof {
                    reveal_strlit("EiB");
                    assert("EiB"@ =~= seq!['E', 'i', 'B']);
                }
                s
            }
        },
    }
}

/// Byte formatting leaves values below one KiB as plain bytes: the text is
/// the value's own decimal digits followed by " B". Zero is "0 B".
pub proof fn lemma_bytes_below_kib(v: int)
    requires
        0 <= v < 1024,
    ensures
        spec_format_value(v, Units::Bytes) == spec_decimal(v) + seq![' ', 'B'],
{
}

/// The first scaled value: exactly one KiB renders as "1.0 KiB".
pub proof fn lemma_bytes_one_kib()
    ensures
        spec_format_value(1024, Units::Bytes) == seq!['1', '.', '0', ' ', 'K', 'i', 'B'],
{
    assert(spec_decimal(1) =~= seq!['1']);
    assert(spec_format_value(1024, Units::Bytes) =~= seq!['1', '.', '0', ' ', 'K', 'i', 'B']);
}

} // verus!
