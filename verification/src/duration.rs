//! Spans of time, and how they are read from the command line.

use vstd::prelude::*;
use vstd::string::*;

use crate::text::same_text;

verus! {

/// A span of time: whole seconds and the nanoseconds on top of them.
#[derive(Debug, Clone, Copy, PartialEq, Eq, Structural)]
pub struct Duration {
    /// Whole seconds.
    pub secs: u64,
    /// Nanoseconds on top of the whole seconds.
    pub nanos: u32,
}

impl Duration {
    /// The span of `secs` whole seconds.
    pub fn from_secs(secs: u64) -> (span: Duration)
        ensures
            span == (Duration { secs, nanos: 0 }),
    {
        Duration { secs, nanos: 0 }
    }

    /// The span in whole milliseconds.
    pub open spec fn millis(self) -> int {
        self.secs * 1000 + self.nanos as int / 1_000_000
    }

    /// The span in whole milliseconds, rounded down.
    pub fn as_millis(&self) -> (millis: u128)
        ensures
            millis == self.millis(),
    {
        self.secs as u128 * 1000 + self.nanos as u128 / 1_000_000
    }
}

/// What `humantime` makes of the text `value`: the seconds and nanoseconds of
/// the span that it writes, or the text of the error.
pub uninterp spec fn humantime_duration(value: Seq<char>) -> Result<(u64, u32), Seq<char>>;

/// The nanoseconds of the shortest span that `u64` seconds do not hold.
pub const TOO_LONG: u128 = 18_446_744_073_709_551_616_000_000_000;

/// The nanoseconds of a unit of time.
pub open spec fn unit_nanos(unit: Seq<char>) -> Option<nat> {
    if unit == "nanos"@ || unit == "nsec"@ || unit == "ns"@ {
        Some(1)
    } else if unit == "usec"@ || unit == "us"@ || unit == "\u{b5}s"@ {
        Some(1_000)
    } else if unit == "millis"@ || unit == "msec"@ || unit == "ms"@ {
        Some(1_000_000)
    } else if unit == "seconds"@ || unit == "second"@ || unit == "secs"@ || unit == "sec"@ || unit == "s"@ {
        Some(1_000_000_000)
    } else if unit == "minutes"@ || unit == "minute"@ || unit == "min"@ || unit == "mins"@ || unit == "m"@ {
        Some(60_000_000_000)
    } else if unit == "hours"@ || unit == "hour"@ || unit == "hr"@ || unit == "hrs"@ || unit == "h"@ {
        Some(3_600_000_000_000)
    } else if unit == "days"@ || unit == "day"@ || unit == "d"@ {
        Some(86_400_000_000_000)
    } else if unit == "weeks"@ || unit == "week"@ || unit == "wk"@ || unit == "wks"@ || unit == "w"@ {
        Some(604_800_000_000_000)
    } else if unit == "months"@ || unit == "month"@ || unit == "M"@ {
        Some(2_630_016_000_000_000)
    } else if unit == "years"@ || unit == "year"@ || unit == "yr"@ || unit == "yrs"@ || unit == "y"@ {
        Some(31_557_600_000_000_000)
    } else {
        None
    }
}

/// The nanoseconds of a unit of time.
fn nanos_of(unit: &str) -> (nanos: Option<u128>)
    ensures
        match nanos {
            Some(nanos) => unit_nanos(unit@) == Some(nanos as nat) && nanos
                <= 31_557_600_000_000_000,
            None => unit_nanos(unit@) is None,
        },
{
    if same_text(unit, "nanos") || same_text(unit, "nsec") || same_text(unit, "ns") {
        Some(1)
    } else if same_text(unit, "usec") || same_text(unit, "us") || same_text(unit, "\u{b5}s") {
        Some(1_000)
    } else if same_text(unit, "millis") || same_text(unit, "msec") || same_text(unit, "ms") {
        Some(1_000_000)
    } else if same_text(unit, "seconds") || same_text(unit, "second") || same_text(unit, "secs") || same_text(unit, "sec") || same_text(unit, "s") {
        Some(1_000_000_000)
    } else if same_text(unit, "minutes") || same_text(unit, "minute") || same_text(unit, "min") || same_text(unit, "mins") || same_text(unit, "m") {
        Some(60_000_000_000)
    } else if same_text(unit, "hours") || same_text(unit, "hour") || same_text(unit, "hr") || same_text(unit, "hrs") || same_text(unit, "h") {
        Some(3_600_000_000_000)
    } else if same_text(unit, "days") || same_text(unit, "day") || same_text(unit, "d") {
        Some(86_400_000_000_000)
    } else if same_text(unit, "weeks") || same_text(unit, "week") || same_text(unit, "wk") || same_text(unit, "wks") || same_text(unit, "w") {
        Some(604_800_000_000_000)
    } else if same_text(unit, "months") || same_text(unit, "month") || same_text(unit, "M") {
        Some(2_630_016_000_000_000)
    } else if same_text(unit, "years") || same_text(unit, "year") || same_text(unit, "yr") || same_text(unit, "yrs") || same_text(unit, "y") {
        Some(31_557_600_000_000_000)
    } else {
        None
    }
}

/// Whether units are written with `c`.
pub open spec fn in_unit(c: char) -> bool {
    'a' <= c <= 'z' || 'A' <= c <= 'Z' || c == '\u{b5}'
}

/// The nanoseconds that a number of units lasts at most: a fraction adds less
/// than one unit. There is no telling for an unknown unit, nor for a number that
/// is too long a span by itself.
pub open spec fn part_nanos(number: nat, fraction: bool, unit: Seq<char>) -> Option<nat> {
    match unit_nanos(unit) {
        Some(nanos) => if number * nanos < TOO_LONG {
            Some(
                (number + if fraction {
                    1nat
                } else {
                    0
                }) * nanos,
            )
        } else {
            None
        },
        None => None,
    }
}

/// The nanoseconds that the spans written in `text` add up to at most, behind
/// spans of `sum` nanoseconds. Right before `text` stand the digits of `number`,
/// then a point where `fraction` says so, then the beginning `unit` of a unit.
///
/// The sum ends at what writes no span: a number beyond `u64`, an unknown unit or
/// a span that is too long by itself.
pub open spec fn nanos_from(
    text: Seq<char>,
    sum: nat,
    number: nat,
    fraction: bool,
    unit: Seq<char>,
) -> nat
    decreases text.len(),
{
    if text.len() > 0 && in_unit(text[0]) {
        nanos_from(text.skip(1), sum, number, fraction, unit.push(text[0]))
    } else if unit.len() > 0 || text.len() == 0 {
        match part_nanos(number, fraction, unit) {
            None => sum,
            Some(nanos) => if text.len() == 0 {
                sum + nanos
            } else {
                nanos_from(text.skip(1), sum + nanos, digit_value(text[0]), false, Seq::empty())
            },
        }
    } else if '0' <= text[0] <= '9' && !fraction {
        let longer = 10 * number + digit_value(text[0]);
        if longer <= u64::MAX {
            nanos_from(text.skip(1), sum, longer, false, unit)
        } else {
            sum
        }
    } else {
        nanos_from(text.skip(1), sum, number, fraction || text[0] == '.', unit)
    }
}

/// The value of a decimal digit, and 0 for any other character.
pub open spec fn digit_value(c: char) -> nat {
    if '0' <= c <= '9' {
        (c as int - '0' as int) as nat
    } else {
        0
    }
}

/// Whether the spans that `value` writes together stay within `u64` seconds, a
/// fraction counted as a whole unit.
pub open spec fn is_short(value: Seq<char>) -> bool {
    nanos_from(value, 0, 0, false, Seq::empty()) < TOO_LONG
}

proof fn lemma_nanos_grow(text: Seq<char>, sum: nat, number: nat, fraction: bool, unit: Seq<char>)
    ensures
        nanos_from(text, sum, number, fraction, unit) >= sum,
    decreases text.len(),
{
    if text.len() > 0 {
        let rest = text.skip(1);
        if in_unit(text[0]) {
            lemma_nanos_grow(rest, sum, number, fraction, unit.push(text[0]));
        } else if unit.len() > 0 {
            if let Some(nanos) = part_nanos(number, fraction, unit) {
                lemma_nanos_grow(rest, sum + nanos, digit_value(text[0]), false, Seq::empty());
            }
        } else if '0' <= text[0] <= '9' && !fraction {
            lemma_nanos_grow(rest, sum, 10 * number + digit_value(text[0]), false, unit);
        } else {
            lemma_nanos_grow(rest, sum, number, fraction || text[0] == '.', unit);
        }
    }
}

/// The nanoseconds that a number of units lasts at most.
fn nanos_of_part(number: u64, fraction: bool, unit: &str) -> (nanos: Option<u128>)
    ensures
        match nanos {
            Some(nanos) => part_nanos(number as nat, fraction, unit@) == Some(nanos as nat)
                && nanos < 2 * TOO_LONG,
            None => part_nanos(number as nat, fraction, unit@) is None,
        },
{
    let each: u128 = match nanos_of(unit) {
        Some(each) => each,
        None => return None,
    };
    let count: u128 = number as u128;
    assert(count * each <= 0xffff_ffff_ffff_ffff * 31_557_600_000_000_000) by (nonlinear_arith)
        requires
            count <= 0xffff_ffff_ffff_ffff,
            each <= 31_557_600_000_000_000,
    ;
    let whole: u128 = count * each;
    if whole >= TOO_LONG {
        return None;
    }
    assert((count + 1) * each == count * each + each) by (nonlinear_arith);
    if fraction {
        Some(whole + each)
    } else {
        Some(whole)
    }
}

/// Whether the spans that `value` writes together stay within `u64` seconds, a
/// fraction counted as a whole unit.
pub fn stays_short(value: &str) -> (short: bool)
    ensures
        short == is_short(value@),
{
    let len: usize = value.unicode_len();
    let mut sum: u128 = 0;
    let mut number: u64 = 0;
    let mut fraction = false;
    let mut unit_start: usize = 0;
    let mut i: usize = 0;
    assert(value@.skip(0) =~= value@);
    assert(value@.subrange(0, 0) =~= Seq::empty());
    while i < len
        invariant
            unit_start <= i <= len,
            len == value@.len(),
            sum < TOO_LONG,
            nanos_from(value@, 0, 0, false, Seq::empty()) == nanos_from(
                value@.skip(i as int),
                sum as nat,
                number as nat,
                fraction,
                value@.subrange(unit_start as int, i as int),
            ),
        decreases len - i,
    {
        let c = value.get_char(i);
        let ghost unit = value@.subrange(unit_start as int, i as int);
        let ghost rest = value@.skip(i + 1);
        proof {
            assert(value@.skip(i as int).skip(1) =~= rest);
            assert(value@.subrange(unit_start as int, i + 1) =~= unit.push(c));
            assert(value@.subrange(i + 1, i + 1) =~= Seq::empty());
            if unit.len() == 0 {
                assert(unit =~= Seq::empty());
            }
        }
        if ('a' <= c && c <= 'z') || ('A' <= c && c <= 'Z') || c == '\u{b5}' {
            i = i + 1;
        } else if unit_start < i {
            let written = value.substring_char(unit_start, i);
            let nanos: u128 = match nanos_of_part(number, fraction, written) {
                Some(nanos) => nanos,
                None => return true,
            };
            sum = sum + nanos;
            number = if '0' <= c && c <= '9' {
                c as u64 - '0' as u64
            } else {
                0
            };
            if sum >= TOO_LONG {
                proof {
                    lemma_nanos_grow(rest, sum as nat, number as nat, false, Seq::empty());
                }
                return false;
            }
            fraction = false;
            i = i + 1;
            unit_start = i;
        } else if '0' <= c && c <= '9' && !fraction {
            let longer: u128 = 10 * (number as u128) + (c as u128 - '0' as u128);
            if longer > 0xffff_ffff_ffff_ffff {
                return true;
            }
            number = longer as u64;
            i = i + 1;
            unit_start = i;
        } else {
            fraction = fraction || c == '.';
            i = i + 1;
            unit_start = i;
        }
    }
    assert(value@.skip(len as int) =~= Seq::empty());
    let written = value.substring_char(unit_start, len);
    match nanos_of_part(number, fraction, written) {
        Some(nanos) => sum + nanos < TOO_LONG,
        None => true,
    }
}

/// Calls `humantime::parse_duration` and hands back the span's seconds and
/// nanoseconds, or the error's text. The result is claimed to be the same for
/// the same text.
///
/// `humantime::parse_duration` panics where the seconds of the parts add up to
/// `u64::MAX` and their nanoseconds to one second exactly. It gives an error at a
/// number beyond `u64`, at an unknown unit and at a part of more than `u64`
/// seconds, so text whose parts before those add up to less does not panic.
#[verifier::external_body]
fn humantime_parse(value: &str) -> (parsed: Result<(u64, u32), String>)
    requires
        is_short(value@),
    ensures
        match parsed {
            Ok(span) => humantime_duration(value@) == Ok::<(u64, u32), Seq<char>>(span),
            Err(text) => humantime_duration(value@) == Err::<(u64, u32), Seq<char>>(text@),
        },
{
    match humantime::parse_duration(value) {
        Ok(span) => Ok((span.as_secs(), span.subsec_nanos())),
        Err(error) => Err(error.to_string()),
    }
}

/// Reads a span of time such as `15m`, `5m` or `2s`.
pub fn parse_duration(value: &str) -> (parsed: Result<Duration, String>)
    requires
        is_short(value@),
    ensures
        match humantime_duration(value@) {
            Ok((secs, nanos)) => parsed == Ok::<Duration, String>(Duration { secs, nanos }),
            Err(text) => parsed matches Err(error) && error@ == text,
        },
{
    match humantime_parse(value) {
        Ok((secs, nanos)) => Ok(Duration { secs, nanos }),
        Err(error) => Err(error),
    }
}

/// Reads a span of time from any text. Text whose parts together reach beyond
/// `u64` seconds is left unread, which `None` tells.
pub fn parse_short_duration(value: &str) -> (parsed: Option<Result<Duration, String>>)
    ensures
        parsed is Some <==> is_short(value@),
        is_short(value@) ==> match humantime_duration(value@) {
            Ok((secs, nanos)) => parsed == Some(Ok::<Duration, String>(Duration { secs, nanos })),
            Err(text) => parsed matches Some(Err(error)) && error@ == text,
        },
{
    if stays_short(value) {
        Some(parse_duration(value))
    } else {
        None
    }
}

} // verus!
