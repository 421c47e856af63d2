//! How long the spans are that a text writes, told from the numbers and the units
//! in it.

use vstd::prelude::*;
use vstd::string::*;

use crate::duration::{in_unit, nanos_from, parse_duration, stays_short, unit_nanos};
use crate::text::decimal_text;

verus! {

/// Every unit of time that can be written lasts as long as it says: a month has
/// 30.44 days and a year 365.25. There are no other units.
pub proof fn law_units_last_as_long_as_they_say(unit: Seq<char>)
    ensures
        unit == "nanos"@ || unit == "nsec"@ || unit == "ns"@ ==> unit_nanos(
            unit,
        ) == Some(1nat),
        unit == "usec"@ || unit == "us"@ || unit == "\u{b5}s"@ ==> unit_nanos(
            unit,
        ) == Some((1_000) as nat),
        unit == "millis"@ || unit == "msec"@ || unit == "ms"@ ==> unit_nanos(
            unit,
        ) == Some((1_000_000) as nat),
        unit == "seconds"@ || unit == "second"@ || unit == "secs"@
            || unit == "sec"@ || unit == "s"@ ==> unit_nanos(
            unit,
        ) == Some((1_000_000_000) as nat),
        unit == "minutes"@ || unit == "minute"@ || unit == "min"@
            || unit == "mins"@ || unit == "m"@ ==> unit_nanos(
            unit,
        ) == Some((60 * 1_000_000_000) as nat),
        unit == "hours"@ || unit == "hour"@ || unit == "hr"@ || unit == "hrs"@
            || unit == "h"@ ==> unit_nanos(
            unit,
        ) == Some((60 * 60 * 1_000_000_000) as nat),
        unit == "days"@ || unit == "day"@ || unit == "d"@ ==> unit_nanos(
            unit,
        ) == Some((24 * 60 * 60 * 1_000_000_000) as nat),
        unit == "weeks"@ || unit == "week"@ || unit == "wk"@ || unit == "wks"@
            || unit == "w"@ ==> unit_nanos(
            unit,
        ) == Some((7 * 24 * 60 * 60 * 1_000_000_000) as nat),
        unit == "months"@ || unit == "month"@ || unit == "M"@ ==> unit_nanos(
            unit,
        ) == Some((2_630_016 * 1_000_000_000) as nat),
        unit == "years"@ || unit == "year"@ || unit == "yr"@ || unit == "yrs"@
            || unit == "y"@ ==> unit_nanos(
            unit,
        ) == Some((31_557_600 * 1_000_000_000) as nat),
        unit_nanos(unit) is Some ==> unit.len() > 0,
        unit_nanos(unit) is Some ==> unit == "nanos"@
            || unit == "nsec"@
            || unit == "ns"@
            || unit == "usec"@
            || unit == "us"@
            || unit == "\u{b5}s"@
            || unit == "millis"@
            || unit == "msec"@
            || unit == "ms"@
            || unit == "seconds"@
            || unit == "second"@
            || unit == "secs"@
            || unit == "sec"@
            || unit == "s"@
            || unit == "minutes"@
            || unit == "minute"@
            || unit == "min"@
            || unit == "mins"@
            || unit == "m"@
            || unit == "hours"@
            || unit == "hour"@
            || unit == "hr"@
            || unit == "hrs"@
            || unit == "h"@
            || unit == "days"@
            || unit == "day"@
            || unit == "d"@
            || unit == "weeks"@
            || unit == "week"@
            || unit == "wk"@
            || unit == "wks"@
            || unit == "w"@
            || unit == "months"@
            || unit == "month"@
            || unit == "M"@
            || unit == "years"@
            || unit == "year"@
            || unit == "yr"@
            || unit == "yrs"@
            || unit == "y"@,
{
    reveal_strlit("nanos");
    assert("nanos"@.len() == 5 && "nanos"@[0] == 'n' && "nanos"@[1] == 'a' && "nanos"@[2] == 'n'
        && "nanos"@[3] == 'o' && "nanos"@[4] == 's');
    reveal_strlit("nsec");
    assert("nsec"@.len() == 4 && "nsec"@[0] == 'n' && "nsec"@[1] == 's' && "nsec"@[2] == 'e'
        && "nsec"@[3] == 'c');
    reveal_strlit("ns");
    assert("ns"@.len() == 2 && "ns"@[0] == 'n' && "ns"@[1] == 's');
    reveal_strlit("usec");
    assert("usec"@.len() == 4 && "usec"@[0] == 'u' && "usec"@[1] == 's' && "usec"@[2] == 'e'
        && "usec"@[3] == 'c');
    reveal_strlit("us");
    assert("us"@.len() == 2 && "us"@[0] == 'u' && "us"@[1] == 's');
    reveal_strlit("\u{b5}s");
    assert("\u{b5}s"@.len() == 2 && "\u{b5}s"@[0] == '\u{b5}' && "\u{b5}s"@[1] == 's');
    reveal_strlit("millis");
    assert("millis"@.len() == 6 && "millis"@[0] == 'm' && "millis"@[1] == 'i'
        && "millis"@[2] == 'l' && "millis"@[3] == 'l' && "millis"@[4] == 'i'
        && "millis"@[5] == 's');
    reveal_strlit("msec");
    assert("msec"@.len() == 4 && "msec"@[0] == 'm' && "msec"@[1] == 's' && "msec"@[2] == 'e'
        && "msec"@[3] == 'c');
    reveal_strlit("ms");
    assert("ms"@.len() == 2 && "ms"@[0] == 'm' && "ms"@[1] == 's');
    reveal_strlit("seconds");
    assert("seconds"@.len() == 7 && "seconds"@[0] == 's' && "seconds"@[1] == 'e'
        && "seconds"@[2] == 'c' && "seconds"@[3] == 'o' && "seconds"@[4] == 'n'
        && "seconds"@[5] == 'd' && "seconds"@[6] == 's');
    reveal_strlit("second");
    assert("second"@.len() == 6 && "second"@[0] == 's' && "second"@[1] == 'e'
        && "second"@[2] == 'c' && "second"@[3] == 'o' && "second"@[4] == 'n'
        && "second"@[5] == 'd');
    reveal_strlit("secs");
    assert("secs"@.len() == 4 && "secs"@[0] == 's' && "secs"@[1] == 'e' && "secs"@[2] == 'c'
        && "secs"@[3] == 's');
    reveal_strlit("sec");
    assert("sec"@.len() == 3 && "sec"@[0] == 's' && "sec"@[1] == 'e' && "sec"@[2] == 'c');
    reveal_strlit("s");
    assert("s"@.len() == 1 && "s"@[0] == 's');
    reveal_strlit("minutes");
    assert("minutes"@.len() == 7 && "minutes"@[0] == 'm' && "minutes"@[1] == 'i'
        && "minutes"@[2] == 'n' && "minutes"@[3] == 'u' && "minutes"@[4] == 't'
        && "minutes"@[5] == 'e' && "minutes"@[6] == 's');
    reveal_strlit("minute");
    assert("minute"@.len() == 6 && "minute"@[0] == 'm' && "minute"@[1] == 'i'
        && "minute"@[2] == 'n' && "minute"@[3] == 'u' && "minute"@[4] == 't'
        && "minute"@[5] == 'e');
    reveal_strlit("min");
    assert("min"@.len() == 3 && "min"@[0] == 'm' && "min"@[1] == 'i' && "min"@[2] == 'n');
    reveal_strlit("mins");
    assert("mins"@.len() == 4 && "mins"@[0] == 'm' && "mins"@[1] == 'i' && "mins"@[2] == 'n'
        && "mins"@[3] == 's');
    reveal_strlit("m");
    assert("m"@.len() == 1 && "m"@[0] == 'm');
    reveal_strlit("hours");
    assert("hours"@.len() == 5 && "hours"@[0] == 'h' && "hours"@[1] == 'o' && "hours"@[2] == 'u'
        && "hours"@[3] == 'r' && "hours"@[4] == 's');
    reveal_strlit("hour");
    assert("hour"@.len() == 4 && "hour"@[0] == 'h' && "hour"@[1] == 'o' && "hour"@[2] == 'u'
        && "hour"@[3] == 'r');
    reveal_strlit("hr");
    assert("hr"@.len() == 2 && "hr"@[0] == 'h' && "hr"@[1] == 'r');
    reveal_strlit("hrs");
    assert("hrs"@.len() == 3 && "hrs"@[0] == 'h' && "hrs"@[1] == 'r' && "hrs"@[2] == 's');
    reveal_strlit("h");
    assert("h"@.len() == 1 && "h"@[0] == 'h');
    reveal_strlit("days");
    assert("days"@.len() == 4 && "days"@[0] == 'd' && "days"@[1] == 'a' && "days"@[2] == 'y'
        && "days"@[3] == 's');
    reveal_strlit("day");
    assert("day"@.len() == 3 && "day"@[0] == 'd' && "day"@[1] == 'a' && "day"@[2] == 'y');
    reveal_strlit("d");
    assert("d"@.len() == 1 && "d"@[0] == 'd');
    reveal_strlit("weeks");
    assert("weeks"@.len() == 5 && "weeks"@[0] == 'w' && "weeks"@[1] == 'e' && "weeks"@[2] == 'e'
        && "weeks"@[3] == 'k' && "weeks"@[4] == 's');
    reveal_strlit("week");
    assert("week"@.len() == 4 && "week"@[0] == 'w' && "week"@[1] == 'e' && "week"@[2] == 'e'
        && "week"@[3] == 'k');
    reveal_strlit("wk");
    assert("wk"@.len() == 2 && "wk"@[0] == 'w' && "wk"@[1] == 'k');
    reveal_strlit("wks");
    assert("wks"@.len() == 3 && "wks"@[0] == 'w' && "wks"@[1] == 'k' && "wks"@[2] == 's');
    reveal_strlit("w");
    assert("w"@.len() == 1 && "w"@[0] == 'w');
    reveal_strlit("months");
    assert("months"@.len() == 6 && "months"@[0] == 'm' && "months"@[1] == 'o'
        && "months"@[2] == 'n' && "months"@[3] == 't' && "months"@[4] == 'h'
        && "months"@[5] == 's');
    reveal_strlit("month");
    assert("month"@.len() == 5 && "month"@[0] == 'm' && "month"@[1] == 'o' && "month"@[2] == 'n'
        && "month"@[3] == 't' && "month"@[4] == 'h');
    reveal_strlit("M");
    assert("M"@.len() == 1 && "M"@[0] == 'M');
    reveal_strlit("years");
    assert("years"@.len() == 5 && "years"@[0] == 'y' && "years"@[1] == 'e' && "years"@[2] == 'a'
        && "years"@[3] == 'r' && "years"@[4] == 's');
    reveal_strlit("year");
    assert("year"@.len() == 4 && "year"@[0] == 'y' && "year"@[1] == 'e' && "year"@[2] == 'a'
        && "year"@[3] == 'r');
    reveal_strlit("yr");
    assert("yr"@.len() == 2 && "yr"@[0] == 'y' && "yr"@[1] == 'r');
    reveal_strlit("yrs");
    assert("yrs"@.len() == 3 && "yrs"@[0] == 'y' && "yrs"@[1] == 'r' && "yrs"@[2] == 's');
    reveal_strlit("y");
    assert("y"@.len() == 1 && "y"@[0] == 'y');
}

proof fn lemma_digits_are_read(value: nat, behind: Seq<char>, sum: nat)
    requires
        value <= u64::MAX,
    ensures
        nanos_from(decimal_text(value) + behind, sum, 0, false, Seq::empty()) == nanos_from(
            behind,
            sum,
            value,
            false,
            Seq::empty(),
        ),
    decreases value,
{
    let text = decimal_text(value) + behind;
    if value < 10 {
        assert(text.skip(1) =~= behind);
    } else {
        let tail = seq![decimal_text(value).last()] + behind;
        lemma_digits_are_read(value / 10, tail, sum);
        assert(text =~= decimal_text(value / 10) + tail);
        assert(tail.skip(1) =~= behind);
    }
}

proof fn lemma_letters_are_read(
    unit: Seq<char>,
    behind: Seq<char>,
    sum: nat,
    number: nat,
    fraction: bool,
    begun: Seq<char>,
)
    requires
        forall|i: int| 0 <= i < unit.len() ==> in_unit(#[trigger] unit[i]),
    ensures
        nanos_from(unit + behind, sum, number, fraction, begun) == nanos_from(
            behind,
            sum,
            number,
            fraction,
            begun + unit,
        ),
    decreases unit.len(),
{
    if unit.len() == 0 {
        assert(unit + behind =~= behind);
        assert(begun + unit =~= begun);
    } else {
        let rest = unit.skip(1);
        lemma_letters_are_read(rest, behind, sum, number, fraction, begun.push(unit[0]));
        assert((unit + behind).skip(1) =~= rest + behind);
        assert(begun.push(unit[0]) + rest =~= begun + unit);
    }
}

proof fn lemma_fraction_is_read(digits: Seq<char>, behind: Seq<char>, sum: nat, number: nat)
    requires
        forall|i: int| 0 <= i < digits.len() ==> '0' <= #[trigger] digits[i] <= '9',
    ensures
        nanos_from(digits + behind, sum, number, true, Seq::empty()) == nanos_from(
            behind,
            sum,
            number,
            true,
            Seq::empty(),
        ),
    decreases digits.len(),
{
    if digits.len() == 0 {
        assert(digits + behind =~= behind);
    } else {
        lemma_fraction_is_read(digits.skip(1), behind, sum, number);
        assert((digits + behind).skip(1) =~= digits.skip(1) + behind);
    }
}

/// A digit behind a number is its next decimal place, as long as the number stays
/// within `u64`: a longer one writes no span, and ends the sum.
pub proof fn law_a_digit_is_the_next_place(digit: char, rest: Seq<char>, sum: nat, number: nat)
    requires
        '0' <= digit <= '9',
    ensures
        ({
            let longer = 10 * number + (digit as int - '0' as int);
            nanos_from(seq![digit] + rest, sum, number, false, Seq::empty()) == if longer
                < 0x1_0000_0000_0000_0000 {
                nanos_from(rest, sum, longer as nat, false, Seq::empty())
            } else {
                sum
            }
        }),
{
    assert((seq![digit] + rest).skip(1) =~= rest);
}

/// Between a number and its unit, a point begins a fraction, the digits of a fraction
/// change nothing, and neither does any other character that no unit is written with.
pub proof fn law_only_a_point_begins_a_fraction(
    c: char,
    rest: Seq<char>,
    sum: nat,
    number: nat,
    fraction: bool,
)
    requires
        !('a' <= c <= 'z') && !('A' <= c <= 'Z') && c != '\u{b5}',
        fraction || !('0' <= c <= '9'),
    ensures
        nanos_from(seq![c] + rest, sum, number, fraction, Seq::empty()) == nanos_from(
            rest,
            sum,
            number,
            fraction || c == '.',
            Seq::empty(),
        ),
{
    assert((seq![c] + rest).skip(1) =~= rest);
}

/// A number without a unit adds nothing.
pub proof fn law_a_number_without_a_unit_adds_nothing(sum: nat, number: nat, fraction: bool)
    ensures
        nanos_from(Seq::empty(), sum, number, fraction, Seq::empty()) == sum,
{
    law_units_last_as_long_as_they_say(Seq::empty());
}

/// A unit ends a span. The number adds as many units, and one more for a fraction.
/// The character behind the unit may be the first digit of the next number. An
/// unknown unit ends the sum, and so does a number that is too long a span by itself.
pub proof fn law_a_unit_ends_a_span(
    number: nat,
    fraction: bool,
    unit: Seq<char>,
    end: char,
    rest: Seq<char>,
    sum: nat,
)
    requires
        unit.len() > 0,
        forall|i: int|
            0 <= i < unit.len() ==> 'a' <= #[trigger] unit[i] <= 'z' || 'A' <= unit[i] <= 'Z'
                || unit[i] == '\u{b5}',
        !('a' <= end <= 'z') && !('A' <= end <= 'Z') && end != '\u{b5}',
    ensures
        ({
            let units = if fraction {
                number + 1
            } else {
                number
            };
            let begun = if '0' <= end <= '9' {
                end as int - '0' as int
            } else {
                0
            };
            let last = nanos_from(unit, sum, number, fraction, Seq::empty());
            let followed = nanos_from(
                unit + seq![end] + rest,
                sum,
                number,
                fraction,
                Seq::empty(),
            );
            match unit_nanos(unit) {
                Some(each) => if number * each < 0x1_0000_0000_0000_0000 * 1_000_000_000 {
                    &&& last == sum + units * each
                    &&& followed == nanos_from(
                        rest,
                        (sum + units * each) as nat,
                        begun as nat,
                        false,
                        Seq::empty(),
                    )
                } else {
                    last == sum && followed == sum
                },
                None => last == sum && followed == sum,
            }
        }),
{
    let tail = seq![end] + rest;
    assert forall|i: int| 0 <= i < unit.len() implies in_unit(#[trigger] unit[i]) by {
        assert('a' <= unit[i] <= 'z' || 'A' <= unit[i] <= 'Z' || unit[i] == '\u{b5}');
    }
    lemma_letters_are_read(unit, Seq::empty(), sum, number, fraction, Seq::empty());
    lemma_letters_are_read(unit, tail, sum, number, fraction, Seq::empty());
    assert(unit + Seq::<char>::empty() =~= unit);
    assert(Seq::<char>::empty() + unit =~= unit);
    assert(unit + seq![end] + rest =~= unit + tail);
    assert(tail.skip(1) =~= rest);
}

/// The spans that a text writes add up. Behind spans of `sum` nanoseconds, a number
/// and a unit add the number of units, and the sum goes on behind the space that
/// ends the unit. It ends at an unknown unit, and at a span that is beyond `u64`
/// seconds by itself.
pub proof fn law_spans_add_up(number: u64, unit: Seq<char>, rest: Seq<char>, sum: nat)
    requires
        unit.len() > 0,
        forall|i: int|
            0 <= i < unit.len() ==> 'a' <= #[trigger] unit[i] <= 'z' || 'A' <= unit[i] <= 'Z'
                || unit[i] == '\u{b5}',
    ensures
        ({
            let written = decimal_text(number as nat) + unit;
            let alone = nanos_from(written, sum, 0, false, Seq::empty());
            let followed = nanos_from(
                written + seq![' '] + rest,
                sum,
                0,
                false,
                Seq::empty(),
            );
            match unit_nanos(unit) {
                Some(each) => if number * each < 0x1_0000_0000_0000_0000 * 1_000_000_000 {
                    &&& alone == sum + number * each
                    &&& followed == nanos_from(
                        rest,
                        (sum + number * each) as nat,
                        0,
                        false,
                        Seq::empty(),
                    )
                } else {
                    alone == sum && followed == sum
                },
                None => alone == sum && followed == sum,
            }
        }),
{
    let value = number as nat;
    let written = decimal_text(value) + unit;
    let tail = seq![' '] + rest;
    assert forall|i: int| 0 <= i < unit.len() implies in_unit(#[trigger] unit[i]) by {
        assert('a' <= unit[i] <= 'z' || 'A' <= unit[i] <= 'Z' || unit[i] == '\u{b5}');
    }
    lemma_digits_are_read(value, unit, sum);
    lemma_letters_are_read(unit, Seq::empty(), sum, value, false, Seq::empty());
    assert(unit + Seq::<char>::empty() =~= unit);
    assert(Seq::<char>::empty() + unit =~= unit);
    assert(written + seq![' '] + rest =~= decimal_text(value) + (unit + tail));
    lemma_digits_are_read(value, unit + tail, sum);
    lemma_letters_are_read(unit, tail, sum, value, false, Seq::empty());
    assert(tail.skip(1) =~= rest);
}

/// A fraction counts as one whole unit more, whatever its digits are.
pub proof fn law_a_fraction_counts_as_a_unit(
    number: u64,
    digits: Seq<char>,
    unit: Seq<char>,
    sum: nat,
)
    requires
        forall|i: int| 0 <= i < digits.len() ==> '0' <= #[trigger] digits[i] <= '9',
        unit.len() > 0,
        forall|i: int|
            0 <= i < unit.len() ==> 'a' <= #[trigger] unit[i] <= 'z' || 'A' <= unit[i] <= 'Z'
                || unit[i] == '\u{b5}',
        unit_nanos(unit) is Some,
        number * unit_nanos(unit)->0 < 0x1_0000_0000_0000_0000 * 1_000_000_000,
    ensures
        nanos_from(
            decimal_text(number as nat) + seq!['.'] + digits + unit,
            sum,
            0,
            false,
            Seq::empty(),
        ) == sum + (number + 1) * unit_nanos(unit)->0,
{
    let value = number as nat;
    let tail = digits + unit;
    assert forall|i: int| 0 <= i < unit.len() implies in_unit(#[trigger] unit[i]) by {
        assert('a' <= unit[i] <= 'z' || 'A' <= unit[i] <= 'Z' || unit[i] == '\u{b5}');
    }
    assert(decimal_text(value) + seq!['.'] + digits + unit =~= decimal_text(value) + (seq!['.']
        + tail));
    lemma_digits_are_read(value, seq!['.'] + tail, sum);
    assert((seq!['.'] + tail).skip(1) =~= tail);
    lemma_fraction_is_read(digits, unit, sum, value);
    lemma_letters_are_read(unit, Seq::empty(), sum, value, true, Seq::empty());
    assert(unit + Seq::<char>::empty() =~= unit);
    assert(Seq::<char>::empty() + unit =~= unit);
}

/// A text is short just where the spans that it writes add up to less than 2^64
/// seconds, and every short text can be read.
pub proof fn law_short_texts_stay_within_the_seconds(value: &str, short: bool)
    requires
        call_ensures(stays_short, (value,), short),
    ensures
        short <==> nanos_from(value@, 0, 0, false, Seq::empty()) < 0x1_0000_0000_0000_0000
            * 1_000_000_000,
        short ==> call_requires(parse_duration, (value,)),
{
}

/// Two spans behind each other are short just where they stay within the seconds
/// together, unless one of them is beyond them by itself and is not read at all.
pub proof fn law_two_spans_are_short_together(
    value: &str,
    short: bool,
    first: u64,
    first_unit: Seq<char>,
    second: u64,
    second_unit: Seq<char>,
)
    requires
        call_ensures(stays_short, (value,), short),
        value@ == decimal_text(first as nat) + first_unit + seq![' '] + (decimal_text(
            second as nat,
        ) + second_unit),
        first_unit.len() > 0,
        second_unit.len() > 0,
        forall|i: int| 0 <= i < first_unit.len() ==> 'a' <= #[trigger] first_unit[i] <= 'z',
        forall|i: int| 0 <= i < second_unit.len() ==> 'a' <= #[trigger] second_unit[i] <= 'z',
        unit_nanos(first_unit) is Some,
        unit_nanos(second_unit) is Some,
    ensures
        ({
            let limit = 0x1_0000_0000_0000_0000 * 1_000_000_000;
            let a = first * unit_nanos(first_unit)->0;
            let b = second * unit_nanos(second_unit)->0;
            short <==> a >= limit || b >= limit || a + b < limit
        }),
{
    let tail = decimal_text(second as nat) + second_unit;
    law_spans_add_up(first, first_unit, tail, 0);
    let a = first * unit_nanos(first_unit)->0;
    if a < 0x1_0000_0000_0000_0000 * 1_000_000_000 {
        assert(a >= 0) by (nonlinear_arith)
            requires
                a == first * unit_nanos(first_unit)->0,
                first >= 0,
                unit_nanos(first_unit)->0 >= 0,
        ;
        law_spans_add_up(second, second_unit, Seq::empty(), a as nat);
    }
}

} // verus!
