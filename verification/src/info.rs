//! Text for the information panel.

use core::time::Duration;
use vstd::prelude::*;
use vstd::string::*;

verus! {

/// The character of a decimal digit.
pub open spec fn digit_char(digit: int) -> char {
    if digit == 0 {
        '0'
    } else if digit == 1 {
        '1'
    } else if digit == 2 {
        '2'
    } else if digit == 3 {
        '3'
    } else if digit == 4 {
        '4'
    } else if digit == 5 {
        '5'
    } else if digit == 6 {
        '6'
    } else if digit == 7 {
        '7'
    } else if digit == 8 {
        '8'
    } else {
        '9'
    }
}

/// The decimal numeral of `n`, without leading zeros.
pub open spec fn decimal(n: nat) -> Seq<char>
    decreases n,
{
    if n < 10 {
        seq![digit_char(n as int)]
    } else {
        decimal(n / 10).push(digit_char((n % 10) as int))
    }
}

/// The text that shows a duration below one second: its whole milliseconds,
/// a point, the low eight bits of its whole microseconds, and the unit.
pub open spec fn duration_text(millis: nat, micros: nat) -> Seq<char> {
    decimal(millis) + seq!['.'] + decimal(micros % 256) + seq![' ', 'm', 's']
}

/// The whole milliseconds in the fraction of a second of a duration.
pub uninterp spec fn subsec_millis_of(duration: Duration) -> u32;

/// The whole microseconds in the fraction of a second of a duration.
pub uninterp spec fn subsec_micros_of(duration: Duration) -> u32;

/// `Duration::subsec_millis` of std: the part of the duration below one
/// second, in whole milliseconds, which is less than one thousand.
pub assume_specification[ Duration::subsec_millis ](duration: &Duration) -> (millis: u32)
    ensures
        millis == subsec_millis_of(*duration),
        millis < 1_000,
;

/// `Duration::subsec_micros` of std: the part of the duration below one
/// second, in whole microseconds, which is less than one million. Its whole
/// thousands are the whole milliseconds of that same part.
pub assume_specification[ Duration::subsec_micros ](duration: &Duration) -> (micros: u32)
    ensures
        micros == subsec_micros_of(*duration),
        micros < 1_000_000,
        micros / 1_000 == subsec_millis_of(*duration),
;

/// The one-character text of a decimal digit.
fn digit_text(digit: u32) -> (text: &'static str)
    requires
        digit < 10,
    ensures
        text@ == seq![digit_char(digit as int)],
{
    proof {
        reveal_strlit("0");
        reveal_strlit("1");
        reveal_strlit("2");
        reveal_strlit("3");
        reveal_strlit("4");
        reveal_strlit("5");
        reveal_strlit("6");
        reveal_strlit("7");
        reveal_strlit("8");
        reveal_strlit("9");
    }
    let text = if digit == 0 {
        "0"
    } else if digit == 1 {
        "1"
    } else if digit == 2 {
        "2"
    } else if digit == 3 {
        "3"
    } else if digit == 4 {
        "4"
    } else if digit == 5 {
        "5"
    } else if digit == 6 {
        "6"
    } else if digit == 7 {
        "7"
    } else if digit == 8 {
        "8"
    } else {
        "9"
    };
    assert(text@ =~= seq![digit_char(digit as int)]);
    text
}

/// The decimal numeral of `n`.
pub fn decimal_text(n: u32) -> (text: String)
    ensures
        text@ == decimal(n as nat),
    decreases n,
{
    if n < 10 {
        String::from_str(digit_text(n))
    } else {
        let mut text = decimal_text(n / 10);
        text.append(digit_text(n % 10));
        assert(text@ =~= decimal(n as nat));
        text
    }
}

/// Shows the milliseconds and microseconds of a duration below one second,
/// as in `12.34 ms`.
pub fn format_parts(millis: u32, micros: u32) -> (text: String)
    ensures
        text@ == duration_text(millis as nat, micros as nat),
{
    proof {
        reveal_strlit(".");
        reveal_strlit(" ms");
    }
    let mut text = decimal_text(millis);
    text.append(".");
    text.append(decimal_text(micros % 256).as_str());
    text.append(" ms");
    assert(text@ =~= duration_text(millis as nat, micros as nat));
    text
}

/// Shows the part of a duration below one second: the whole milliseconds
/// in its microseconds, a point, the low eight bits of its microseconds, and
/// the unit.
pub fn format_duration(duration: Duration) -> (text: String)
    ensures
        text@ == duration_text(
            subsec_millis_of(duration) as nat,
            subsec_micros_of(duration) as nat,
        ),
        text@ == duration_text(
            (subsec_micros_of(duration) / 1_000) as nat,
            subsec_micros_of(duration) as nat,
        ),
{
    format_parts(duration.subsec_millis(), duration.subsec_micros())
}

} // verus!
