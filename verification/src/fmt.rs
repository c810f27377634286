//! Rendering of session and lap times as text.
//!
//! A time in whole seconds becomes `HH:MM:SS`; one with a millisecond
//! part becomes `HH:MM:SS.mmm`.  Each component is printed in decimal
//! with at least two digits (three for milliseconds), zero-padded.

use vstd::prelude::*;
use vstd::string::*;

verus! {

/// The decimal digit character for `d`.
pub open spec fn dec_digit(d: int) -> char
    recommends
        0 <= d < 10,
{
    if d == 0 {
        '0'
    } else if d == 1 {
        '1'
    } else if d == 2 {
        '2'
    } else if d == 3 {
        '3'
    } else if d == 4 {
        '4'
    } else if d == 5 {
        '5'
    } else if d == 6 {
        '6'
    } else if d == 7 {
        '7'
    } else if d == 8 {
        '8'
    } else {
        '9'
    }
}

/// The decimal digit string of `n`, most significant digit first, with
/// no leading zeroes.
pub open spec fn spec_decimal(n: nat) -> Seq<char>
    decreases n,
{
    if n < 10 {
        seq![dec_digit(n as int)]
    } else {
        spec_decimal(n / 10) + seq![dec_digit((n % 10) as int)]
    }
}

/// The decimal digit string of `n`, zero-padded to at least two digits.
pub open spec fn spec_two_digits(n: nat) -> Seq<char> {
    if n < 10 {
        seq!['0', dec_digit(n as int)]
    } else {
        spec_decimal(n)
    }
}

/// The decimal digit string of `n`, zero-padded to at least three
/// digits.
pub open spec fn spec_three_digits(n: nat) -> Seq<char> {
    if n < 100 {
        seq!['0'] + spec_two_digits(n)
    } else {
        spec_decimal(n)
    }
}

/// `HH:MM:SS` for a time of `ts` whole seconds.
pub open spec fn spec_format_time(ts: u16) -> Seq<char> {
    spec_two_digits((ts as nat) / 3600) + seq![':'] + spec_two_digits(
        ((ts as nat) % 3600) / 60,
    ) + seq![':'] + spec_two_digits((ts as nat) % 60)
}

/// `HH:MM:SS.mmm` for a time of `seconds` whole seconds and `millis`
/// milliseconds.
pub open spec fn spec_format_time_ms(seconds: u64, millis: u16) -> Seq<char> {
    spec_two_digits((seconds as nat) / 3600) + seq![':'] + spec_two_digits(
        ((seconds as nat) % 3600) / 60,
    ) + seq![':'] + spec_two_digits((seconds as nat) % 60) + seq!['.'] + spec_three_digits(
        millis as nat,
    )
}

/// The one-character string for the decimal digit `d`.
fn digit_str(d: u8) -> (r: &'static str)
    requires
        d < 10,
    ensures
        r@ == seq![dec_digit(d as int)],
{
    match d {
        0 => {
            proof {
                reveal_strlit("0");
                assert("0"@ =~= seq![dec_digit(d as int)]);
            }
            "0"
        },
        1 => {
            proof {
                reveal_strlit("1");
                assert("1"@ =~= seq![dec_digit(d as int)]);
            }
            "1"
        },
        2 => {
            proof {
                reveal_strlit("2");
                assert("2"@ =~= seq![dec_digit(d as int)]);
            }
            "2"
        },
        3 => {
            proof {
                reveal_strlit("3");
                assert("3"@ =~= seq![dec_digit(d as int)]);
            }
            "3"
        },
        4 => {
            proof {
                reveal_strlit("4");
                assert("4"@ =~= seq![dec_digit(d as int)]);
            }
            "4"
        },
        5 => {
            proof {
                reveal_strlit("5");
                assert("5"@ =~= seq![dec_digit(d as int)]);
            }
            "5"
        },
        6 => {
            proof {
                reveal_strlit("6");
                assert("6"@ =~= seq![dec_digit(d as int)]);
            }
            "6"
        },
        7 => {
            proof {
                reveal_strlit("7");
                assert("7"@ =~= seq![dec_digit(d as int)]);
            }
            "7"
        },
        8 => {
            proof {
                reveal_strlit("8");
                assert("8"@ =~= seq![dec_digit(d as int)]);
            }
            "8"
        },
        9 => {
            proof {
                reveal_strlit("9");
                assert("9"@ =~= seq![dec_digit(d as int)]);
            }
            "9"
        },
        _ => {
            proof {
                assert(false);
            }
            "0"
        },
    }
}

/// Renders `n` in decimal with no leading zeroes.
pub fn format_decimal(n: u64) -> (s: String)
    ensures
        s@ == spec_decimal(n as nat),
    decreases n,
{
    if n < 10 {
        digit_str(n as u8).to_owned()
    } else {
        let mut s = format_decimal(n / 10);
        s.append(digit_str((n % 10) as u8));
        proof {
            assert(s@ =~= spec_decimal(n as nat));
        }
        s
    }
}

/// Renders `n` in decimal, zero-padded to at least two digits.
pub fn format_two_digits(n: u64) -> (s: String)
    ensures
        s@ == spec_two_digits(n as nat),
{
    if n < 10 {
        let mut s = "0".to_owned();
        s.append(digit_str(n as u8));
        proof {
            reveal_strlit("0");
            assert(s@ =~= spec_two_digits(n as nat));
        }
        s
    } else {
        format_decimal(n)
    }
}

/// Renders `n` in decimal, zero-padded to at least three digits.
pub fn format_three_digits(n: u64) -> (s: String)
    ensures
        s@ == spec_three_digits(n as nat),
{
    if n < 100 {
        let mut s = "0".to_owned();
        let two = format_two_digits(n);
        s.append(two.as_str());
        proof {
            reveal_strlit("0");
            assert(s@ =~= spec_three_digits(n as nat));
        }
        s
    } else {
        format_decimal(n)
    }
}

/// Renders a time of `ts` whole seconds as `HH:MM:SS`.
pub fn format_time(ts: u16) -> (s: String)
    ensures
        s@ == spec_format_time(ts),
{
    let hours: u16 = ts / 3600;
    let minutes: u16 = (ts % 3600) / 60;
    let seconds: u16 = ts % 60;
    let mut s = format_two_digits(hours as u64);
    s.append(":");
    let m = format_two_digits(minutes as u64);
    s.append(m.as_str());
    s.append(":");
    let sec = format_two_digits(seconds as u64);
    s.append(sec.as_str());
    proof {
        reveal_strlit(":");
        assert(s@ =~= spec_format_time(ts));
    }
    s
}

/// Renders a time of `seconds` whole seconds and `millis` milliseconds
/// as `HH:MM:SS.mmm`.  Splitting a fractional time into those two
/// integers is the caller's concern.
pub fn format_time_ms(seconds: u64, millis: u16) -> (s: String)
    ensures
        s@ == spec_format_time_ms(seconds, millis),
{
    let hours: u64 = seconds / 3600;
    let minutes: u64 = (seconds % 3600) / 60;
    let secs: u64 = seconds % 60;
    let mut s = format_two_digits(hours);
    s.append(":");
    let m = format_two_digits(minutes);
    s.append(m.as_str());
    s.append(":");
    let sec = format_two_digits(secs);
    s.append(sec.as_str());
    s.append(".");
    let ms = format_three_digits(millis as u64);
    s.append(ms.as_str());
    proof {
        reveal_strlit(":");
        reveal_strlit(".");
        assert(s@ =~= spec_format_time_ms(seconds, millis));
    }
    s
}

} // verus!
