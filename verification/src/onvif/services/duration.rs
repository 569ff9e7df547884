//! The `xs:duration` and `xs:dateTime` values of WS-BaseNotification.

use vstd::arithmetic::div_mod;
use vstd::arithmetic::mul;
use vstd::arithmetic::power;
use vstd::prelude::*;
use vstd::string::*;
use crate::text;
use crate::time;
use crate::time::Timestamp;

verus! {

/// The longest duration, in seconds.
pub const MAX_SECONDS: u64 = 0x7FFF_FFFF_FFFF_FFFF;

/// How many seconds a unit stands for: a month for 30 days, a year for 365.
pub open spec fn unit_seconds(in_time: bool, unit: char) -> Option<nat> {
    if in_time {
        if unit == 'H' {
            Some(3_600)
        } else if unit == 'M' {
            Some(60)
        } else if unit == 'S' {
            Some(1)
        } else {
            None
        }
    } else {
        if unit == 'Y' {
            Some(31_536_000)
        } else if unit == 'M' {
            Some(2_592_000)
        } else if unit == 'D' {
            Some(86_400)
        } else if unit == 'W' {
            Some(604_800)
        } else {
            None
        }
    }
}

/// The digits of a decimal fraction before the point.
pub open spec fn whole_part(number: Seq<char>) -> Seq<char> {
    number.take(text::first_of(number, '.'))
}

/// The digits of a decimal fraction behind the point.
pub open spec fn fraction_part(number: Seq<char>) -> Seq<char> {
    let at = text::first_of(number, '.');
    if at < number.len() {
        number.skip(at + 1)
    } else {
        Seq::empty()
    }
}

/// How many whole seconds so much of a unit makes, as far as they can be
/// counted. The number is digits with at most one point among them.
pub open spec fn amount(number: Seq<char>, unit: nat) -> Option<nat> {
    let whole = whole_part(number);
    let fraction = fraction_part(number);
    if whole.len() + fraction.len() > 0 && !fraction.contains('.') {
        let seconds = (text::digits_value(whole + fraction) * unit) as int / power::pow(
            10,
            fraction.len(),
        );
        Some(
            (if seconds <= MAX_SECONDS {
                seconds
            } else {
                MAX_SECONDS as int
            }) as nat,
        )
    } else {
        None
    }
}

/// The seconds that the components of a duration add up to, after `total`
/// seconds and a number that has not met its unit yet. A number without a unit
/// does not count.
pub open spec fn components(rest: Seq<char>, in_time: bool, number: Seq<char>, total: nat) -> Option<
    nat,
>
    decreases rest.len(),
{
    if rest.len() == 0 {
        Some(total)
    } else {
        let c = rest[0];
        if c == 'T' {
            components(rest.drop_first(), true, number, total)
        } else if text::is_digit(c) || c == '.' {
            components(rest.drop_first(), in_time, number.push(c), total)
        } else {
            match (unit_seconds(in_time, c), text_amount(number, in_time, c)) {
                (Some(_), Some(seconds)) => if total + seconds <= MAX_SECONDS {
                    components(rest.drop_first(), in_time, Seq::empty(), total + seconds)
                } else {
                    None
                },
                _ => None,
            }
        }
    }
}

/// How many seconds a number and its unit stand for.
pub open spec fn text_amount(number: Seq<char>, in_time: bool, unit: char) -> Option<nat> {
    match unit_seconds(in_time, unit) {
        Some(seconds) => amount(number, seconds),
        None => None,
    }
}

/// A text without the letters `P` it starts with.
pub open spec fn without_sign(s: Seq<char>) -> Seq<char>
    decreases s.len(),
{
    if s.len() > 0 && s[0] == 'P' {
        without_sign(s.drop_first())
    } else {
        s
    }
}

/// The seconds that an `xs:duration` stands for: at least one. Negative ones
/// stand for nothing.
pub open spec fn duration(s: Seq<char>) -> Option<nat> {
    if s.len() > 0 && s[0] == 'P' {
        match components(without_sign(s), false, Seq::empty(), 0) {
            Some(seconds) => if seconds > 0 {
                Some(seconds)
            } else {
                None
            },
            None => None,
        }
    } else {
        None
    }
}

/// A duration with a sign in front, or anything else that does not start with
/// `P`, stands for nothing, and what stands for something is at least a second.
pub proof fn law_durations_are_positive(s: Seq<char>)
    ensures
        duration(s) matches Some(seconds) ==> seconds > 0 && s.len() > 0 && s[0] == 'P',
{
}

proof fn lemma_digits_concat(whole: Seq<char>, fraction: Seq<char>)
    ensures
        text::digits_value(whole + fraction) == text::digits_value(whole) * power::pow(
            10,
            fraction.len(),
        ) + text::digits_value(fraction),
    decreases fraction.len(),
{
    if fraction.len() == 0 {
        assert(whole + fraction =~= whole);
        power::lemma_pow0(10);
    } else {
        let shorter = fraction.drop_last();
        lemma_digits_concat(whole, shorter);
        assert((whole + fraction).drop_last() =~= whole + shorter);
        assert((whole + fraction).last() == fraction.last());
        let p = power::pow(10, shorter.len());
        assert(power::pow(10, fraction.len()) == 10 * p) by {
            reveal(power::pow);
        }
        let w = text::digits_value(whole);
        let f = text::digits_value(shorter);
        assert((w * p + f) * 10 == w * (10 * p) + f * 10) by (nonlinear_arith);
    }
}

/// The whole part of a decimal fraction below one, times a unit: worked out
/// from its last digit to its first.
spec fn carried(fraction: Seq<char>, unit: nat) -> nat
    decreases fraction.len(),
{
    if fraction.len() == 0 {
        0
    } else {
        (((fraction[0] as u32 - '0' as u32) as nat) * unit + carried(fraction.drop_first(), unit))
            / 10
    }
}

proof fn lemma_carried(fraction: Seq<char>, unit: nat)
    requires
        forall|i: int| 0 <= i < fraction.len() ==> text::is_digit(#[trigger] fraction[i]),
    ensures
        carried(fraction, unit) == (text::digits_value(fraction) * unit) as int / power::pow(
            10,
            fraction.len(),
        ),
    decreases fraction.len(),
{
    if fraction.len() == 0 {
        power::lemma_pow0(10);
        assert(text::digits_value(fraction) * unit == 0) by (nonlinear_arith)
            requires
                text::digits_value(fraction) == 0,
        ;
    } else {
        let rest = fraction.drop_first();
        let first = seq![fraction[0]];
        let d = (fraction[0] as u32 - '0' as u32) as nat;
        assert(forall|i: int| 0 <= i < rest.len() ==> #[trigger] rest[i] == fraction[i + 1]);
        assert(text::is_digit(fraction[0]));
        lemma_carried(rest, unit);
        lemma_digits_concat(first, rest);
        assert(first + rest =~= fraction);
        assert(text::digits_value(first) == d) by {
            reveal_with_fuel(text::digits_value, 2);
            assert(first.drop_last() =~= Seq::<char>::empty());
        }
        let p = power::pow(10, rest.len());
        power::lemma_pow_positive(10, rest.len());
        assert(power::pow(10, fraction.len()) == p * 10) by {
            reveal(power::pow);
        }
        let f = text::digits_value(rest);
        let x = ((d * p + f) * unit) as int;
        assert(x == f * unit + (d * unit) * p) by (nonlinear_arith)
            requires
                x == (d * p + f) * unit,
        ;
        div_mod::lemma_hoist_over_denominator((f * unit) as int, (d * unit) as int, p as nat);
        assert(x / p == (f * unit) as int / p + d * unit);
        assert(x >= 0) by (nonlinear_arith)
            requires
                x == f * unit + (d * unit) * p,
                f >= 0,
                d >= 0,
                unit >= 0,
                p > 0,
        ;
        div_mod::lemma_div_denominator(x, p, 10);
        assert(text::digits_value(fraction) == d * p + f);
        assert((text::digits_value(fraction) * unit) as int == x);
        assert(carried(fraction, unit) == (d * unit + carried(rest, unit)) / 10);
    }
}

proof fn lemma_amount(whole: Seq<char>, fraction: Seq<char>, unit: nat)
    requires
        forall|i: int| 0 <= i < fraction.len() ==> text::is_digit(#[trigger] fraction[i]),
    ensures
        (text::digits_value(whole + fraction) * unit) as int / power::pow(10, fraction.len())
            == text::digits_value(whole) * unit + carried(fraction, unit),
{
    let p = power::pow(10, fraction.len());
    power::lemma_pow_positive(10, fraction.len());
    let w = text::digits_value(whole);
    let f = text::digits_value(fraction);
    lemma_digits_concat(whole, fraction);
    lemma_carried(fraction, unit);
    let x = ((w * p + f) * unit) as int;
    assert(x == f * unit + (w * unit) * p) by (nonlinear_arith)
        requires
            x == (w * p + f) * unit,
    ;
    div_mod::lemma_hoist_over_denominator((f * unit) as int, (w * unit) as int, p as nat);
}

fn digit_value(c: char) -> (d: u64)
    requires
        text::is_digit(c),
    ensures
        d == (c as u32 - '0' as u32) as nat,
        d <= 9,
{
    c as u64 - 48
}

/// The position of the point, or the length.
fn point_of(number: &Vec<char>) -> (at: usize)
    ensures
        at == text::first_of(number@, '.'),
        at <= number@.len(),
{
    let mut at: usize = 0;
    proof {
        text::lemma_first_of(number@, '.');
    }
    while at < number.len() && number[at] != '.'
        invariant
            at <= number@.len(),
            at <= text::first_of(number@, '.') <= number@.len(),
            text::first_of(number@, '.') < number@.len() ==> number@[text::first_of(
                number@,
                '.',
            )] == '.',
            forall|j: int| 0 <= j < text::first_of(number@, '.') ==> #[trigger] number@[j] != '.',
        decreases number@.len() - at,
    {
        at += 1;
    }
    at
}

fn count_amount(number: &Vec<char>, unit: u64) -> (seconds: Option<u64>)
    requires
        1 <= unit <= 31_536_000,
        forall|i: int|
            0 <= i < number@.len() ==> text::is_digit(#[trigger] number@[i]) || number@[i] == '.',
    ensures
        (match seconds {
            Some(n) => Some(n as nat),
            None => None,
        }) == amount(number@, unit as nat),
{
    let at: usize = point_of(number);
    let ghost whole = whole_part(number@);
    let ghost fraction = fraction_part(number@);
    proof {
        text::lemma_first_of(number@, '.');
    }
    let from: usize = if at < number.len() {
        at + 1
    } else {
        at
    };
    let mut i: usize = from;
    while i < number.len()
        invariant
            from <= i <= number@.len(),
            fraction == number@.skip(from as int),
            fraction == fraction_part(number@),
            forall|j: int| from <= j < i ==> #[trigger] number@[j] != '.',
        decreases number@.len() - i,
    {
        if number[i] == '.' {
            assert(fraction[i - from] == '.');
            return None;
        }
        i += 1;
    }
    assert(!fraction.contains('.')) by {
        assert(forall|j: int| 0 <= j < fraction.len() ==> fraction[j] == #[trigger] number@[j + from]);
    }
    if at == 0 && from >= number.len() {
        assert(whole.len() + fraction.len() == 0);
        return None;
    }
    let mut head: u128 = 0;
    let cap: u128 = MAX_SECONDS as u128;
    i = 0;
    assert(whole.take(0) =~= Seq::<char>::empty());
    while i < at
        invariant
            i <= at <= number@.len(),
            cap == MAX_SECONDS,
            whole == number@.take(at as int),
            forall|j: int| 0 <= j < at ==> text::is_digit(#[trigger] number@[j]),
            head == (if text::digits_value(whole.take(i as int)) <= cap {
                text::digits_value(whole.take(i as int)) as int
            } else {
                cap as int
            }),
        decreases at - i,
    {
        assert(whole.take(i + 1).drop_last() =~= whole.take(i as int));
        assert(whole.take(i + 1).last() == number@[i as int]);
        assert(text::is_digit(number@[i as int]));
        let next: u128 = head * 10 + digit_value(number[i]) as u128;
        head = if next < cap {
            next
        } else {
            cap
        };
        i += 1;
    }
    assert(whole.take(i as int) =~= whole);
    let mut tail: u128 = 0;
    i = number.len();
    assert(fraction.skip(fraction.len() as int) =~= Seq::<char>::empty());
    while i > from
        invariant
            from <= i <= number@.len(),
            1 <= unit <= 31_536_000,
            fraction == number@.skip(from as int),
            forall|j: int| from <= j < number@.len() ==> text::is_digit(#[trigger] number@[j]),
            tail == carried(fraction.skip(i - from), unit as nat),
            tail <= unit,
        decreases i,
    {
        i -= 1;
        let ghost rest = fraction.skip(i - from);
        assert(rest.drop_first() =~= fraction.skip(i + 1 - from));
        assert(rest[0] == number@[i as int]);
        assert(text::is_digit(number@[i as int]));
        let d: u128 = digit_value(number[i]) as u128;
        assert(d * unit <= 9 * unit) by (nonlinear_arith)
            requires
                d <= 9,
        ;
        tail = (d * unit as u128 + tail) / 10;
    }
    assert(fraction.skip(0) =~= fraction);
    proof {
        assert forall|j: int| 0 <= j < fraction.len() implies text::is_digit(
            #[trigger] fraction[j],
        ) by {
            assert(fraction[j] == number@[j + from]);
        }
        lemma_amount(whole, fraction, unit as nat);
    }
    assert(head * unit <= cap * 31_536_000) by (nonlinear_arith)
        requires
            head <= cap,
            unit <= 31_536_000,
    ;
    let total: u128 = head * unit as u128 + tail;
    proof {
        let w = text::digits_value(whole);
        if w > cap {
            assert(w * unit >= cap) by (nonlinear_arith)
                requires
                    w > cap,
                    unit >= 1,
            ;
            assert(head * unit >= cap) by (nonlinear_arith)
                requires
                    head == cap,
                    unit >= 1,
            ;
        }
    }
    if total < cap {
        Some(total as u64)
    } else {
        Some(MAX_SECONDS)
    }
}

fn seconds_of_unit(in_time: bool, unit: char) -> (seconds: Option<u64>)
    ensures
        (match seconds {
            Some(n) => Some(n as nat),
            None => None,
        }) == unit_seconds(in_time, unit),
        seconds matches Some(n) ==> 1 <= n <= 31_536_000,
{
    if in_time {
        if unit == 'H' {
            Some(3_600)
        } else if unit == 'M' {
            Some(60)
        } else if unit == 'S' {
            Some(1)
        } else {
            None
        }
    } else {
        if unit == 'Y' {
            Some(31_536_000)
        } else if unit == 'M' {
            Some(2_592_000)
        } else if unit == 'D' {
            Some(86_400)
        } else if unit == 'W' {
            Some(604_800)
        } else {
            None
        }
    }
}

/// Best-effort `xs:duration` parser: years, months, weeks, days, hours, minutes
/// and seconds. Negative durations are rejected: they have no meaningful
/// interpretation as a subscription's lifetime.
pub fn parse_xs_duration(s: &str) -> (seconds: Option<u64>)
    ensures
        (match seconds {
            Some(n) => Some(n as nat),
            None => None,
        }) == duration(s@),
{
    let chars = text::chars_of(s);
    if chars.len() == 0 || chars[0] != 'P' {
        return None;
    }
    let mut i: usize = 0;
    assert(chars@.skip(0) =~= chars@);
    while i < chars.len() && chars[i] == 'P'
        invariant
            i <= chars@.len(),
            without_sign(chars@) == without_sign(chars@.skip(i as int)),
        decreases chars@.len() - i,
    {
        assert(chars@.skip(i as int).drop_first() =~= chars@.skip(i + 1));
        i += 1;
    }
    let ghost rest = chars@.skip(i as int);
    assert(without_sign(chars@) == rest);
    let mut total: u64 = 0;
    let mut in_time: bool = false;
    let mut number: Vec<char> = Vec::new();
    assert(number@ =~= Seq::empty());
    while i < chars.len()
        invariant
            i <= chars@.len(),
            total <= MAX_SECONDS,
            forall|j: int|
                0 <= j < number@.len() ==> text::is_digit(#[trigger] number@[j]) || number@[j]
                    == '.',
            components(rest, false, Seq::empty(), 0) == components(
                chars@.skip(i as int),
                in_time,
                number@,
                total as nat,
            ),
            s@.len() > 0 && s@[0] == 'P',
            without_sign(s@) == rest,
        decreases chars@.len() - i,
    {
        assert(chars@.skip(i as int).drop_first() =~= chars@.skip(i + 1));
        let c = chars[i];
        if c == 'T' {
            in_time = true;
        } else if ('0' <= c && c <= '9') || c == '.' {
            number.push(c);
        } else {
            let unit: u64 = match seconds_of_unit(in_time, c) {
                Some(unit) => unit,
                None => {
                    return None;
                },
            };
            let seconds: u64 = match count_amount(&number, unit) {
                Some(seconds) => seconds,
                None => {
                    return None;
                },
            };
            if seconds > MAX_SECONDS - total {
                return None;
            }
            total += seconds;
            number = Vec::new();
            assert(number@ =~= Seq::empty());
        }
        i += 1;
    }
    if total > 0 {
        Some(total)
    } else {
        None
    }
}

/// The seconds that a "termination" value grants from now on. It is either an
/// `xs:duration` (relative, like `PT1M`) or an `xs:dateTime` (absolute), which
/// has to lie at least a second ahead.
pub open spec fn termination(s: Seq<char>, now: Timestamp) -> Option<int> {
    let value = text::trimmed(s);
    if value.len() > 0 && value[0] == 'P' {
        match duration(value) {
            Some(n) => Some(n as int),
            None => None,
        }
    } else {
        match time::rfc3339_time(value) {
            Some(at) => time::seconds_left(at, now),
            None => None,
        }
    }
}

/// Parse an ONVIF "termination" value.
pub fn parse_termination_string(s: &str, now: Timestamp) -> (seconds: Option<u64>)
    requires
        time::clock_time(now),
    ensures
        (match seconds {
            Some(n) => Some(n as int),
            None => None,
        }) == termination(s@, now),
{
    let value = text::trim(s);
    let chars = text::chars_of(value.as_str());
    if chars.len() > 0 && chars[0] == 'P' {
        return parse_xs_duration(value.as_str());
    }
    match time::parse_rfc3339(value.as_str()) {
        Some(at) => time::seconds_until(at, now),
        None => None,
    }
}

proof fn lemma_digits_of_whole(number: Seq<char>)
    requires
        text::all_digits(number),
    ensures
        whole_part(number) == number,
        fraction_part(number) == Seq::<char>::empty(),
{
    text::lemma_first_of(number, '.');
    let at = text::first_of(number, '.');
    if at < number.len() {
        assert(text::is_digit(number[at]));
    }
    assert(number.take(number.len() as int) =~= number);
}

proof fn lemma_digits_are_gathered(
    before: Seq<char>,
    digits: Seq<char>,
    rest: Seq<char>,
    in_time: bool,
    total: nat,
)
    requires
        forall|i: int| 0 <= i < digits.len() ==> text::is_digit(#[trigger] digits[i]),
    ensures
        components(digits + rest, in_time, before, total) == components(
            rest,
            in_time,
            before + digits,
            total,
        ),
    decreases digits.len(),
{
    if digits.len() == 0 {
        assert(digits + rest =~= rest);
        assert(before + digits =~= before);
    } else {
        let whole = digits + rest;
        assert(whole[0] == digits[0]);
        assert(text::is_digit(digits[0]));
        assert(whole.drop_first() =~= digits.drop_first() + rest);
        assert forall|i: int| 0 <= i < digits.drop_first().len() implies text::is_digit(
            #[trigger] digits.drop_first()[i],
        ) by {
            assert(digits.drop_first()[i] == digits[i + 1]);
        }
        lemma_digits_are_gathered(
            before.push(digits[0]),
            digits.drop_first(),
            rest,
            in_time,
            total,
        );
        assert(before.push(digits[0]) + digits.drop_first() =~= before + digits);
    }
}

/// How long a unit is, in seconds: behind the `T` an hour, a minute or a second, in
/// front of it a year of 365 days, a month of 30, a week or a day.
spec fn length_of(in_time: bool, unit: char) -> nat {
    if in_time && unit == 'H' {
        60 * 60
    } else if in_time && unit == 'M' {
        60
    } else if in_time && unit == 'S' {
        1
    } else if !in_time && unit == 'D' {
        24 * 60 * 60
    } else if !in_time && unit == 'W' {
        7 * 24 * 60 * 60
    } else if !in_time && unit == 'M' {
        30 * 24 * 60 * 60
    } else if !in_time && unit == 'Y' {
        365 * 24 * 60 * 60
    } else {
        0
    }
}

proof fn lemma_component(
    digits: Seq<char>,
    unit: char,
    rest: Seq<char>,
    in_time: bool,
    total: nat,
)
    requires
        text::all_digits(digits),
        length_of(in_time, unit) > 0,
        total + text::digits_value(digits) * length_of(in_time, unit) <= 0x7FFF_FFFF_FFFF_FFFF,
    ensures
        components(digits + seq![unit] + rest, in_time, Seq::empty(), total) == components(
            rest,
            in_time,
            Seq::empty(),
            total + text::digits_value(digits) * length_of(in_time, unit),
        ),
{
    let behind = seq![unit] + rest;
    let each = length_of(in_time, unit);
    assert(digits + seq![unit] + rest =~= digits + behind);
    lemma_digits_are_gathered(Seq::empty(), digits, behind, in_time, total);
    assert(Seq::<char>::empty() + digits =~= digits);
    assert(behind[0] == unit);
    assert(behind.drop_first() =~= rest);
    lemma_digits_of_whole(digits);
    assert(digits + Seq::<char>::empty() =~= digits);
    vstd::arithmetic::power::lemma_pow0(10);
    assert(unit_seconds(in_time, unit) == Some(each));
    let value = text::digits_value(digits);
    assert((value * each) as int / 1 == value * each);
    assert(value * each >= 0) by (nonlinear_arith)
        requires
            value >= 0,
            each >= 0,
    ;
    assert(amount(digits, each) == Some(value * each));
}

/// A duration of one number and a unit is that many hours, minutes or seconds, or
/// that many days, weeks, months of 30 days or years of 365.
pub proof fn law_durations_count_their_units(digits: Seq<char>)
    requires
        text::all_digits(digits),
        0 < text::digits_value(digits) <= 1_000_000_000,
    ensures
        duration("PT"@ + digits + "H"@) == Some(text::digits_value(digits) * 3_600),
        duration("PT"@ + digits + "M"@) == Some(text::digits_value(digits) * 60),
        duration("PT"@ + digits + "S"@) == Some(text::digits_value(digits)),
        duration("P"@ + digits + "D"@) == Some(text::digits_value(digits) * 86_400),
        duration("P"@ + digits + "W"@) == Some(text::digits_value(digits) * 604_800),
        duration("P"@ + digits + "M"@) == Some(text::digits_value(digits) * 2_592_000),
        duration("P"@ + digits + "Y"@) == Some(text::digits_value(digits) * 31_536_000),
{
    reveal_strlit("P");
    reveal_strlit("PT");
    reveal_strlit("H");
    reveal_strlit("M");
    reveal_strlit("S");
    reveal_strlit("D");
    reveal_strlit("W");
    reveal_strlit("Y");
    assert("H"@ =~= seq!['H']);
    lemma_one_unit(digits, true, 'H', "H"@);
    assert("M"@ =~= seq!['M']);
    lemma_one_unit(digits, true, 'M', "M"@);
    assert("S"@ =~= seq!['S']);
    lemma_one_unit(digits, true, 'S', "S"@);
    assert("D"@ =~= seq!['D']);
    lemma_one_unit(digits, false, 'D', "D"@);
    assert("W"@ =~= seq!['W']);
    lemma_one_unit(digits, false, 'W', "W"@);
    lemma_one_unit(digits, false, 'M', "M"@);
    assert("Y"@ =~= seq!['Y']);
    lemma_one_unit(digits, false, 'Y', "Y"@);
}

proof fn lemma_one_unit(digits: Seq<char>, in_time: bool, unit: char, written: Seq<char>)
    requires
        text::all_digits(digits),
        0 < text::digits_value(digits) <= 1_000_000_000,
        length_of(in_time, unit) > 0,
        written == seq![unit],
    ensures
        in_time ==> duration("PT"@ + digits + written) == Some(
            (text::digits_value(digits) * length_of(in_time, unit)) as nat,
        ),
        !in_time ==> duration("P"@ + digits + written) == Some(
            (text::digits_value(digits) * length_of(in_time, unit)) as nat,
        ),
{
    reveal_strlit("P");
    reveal_strlit("PT");
    let value = text::digits_value(digits);
    let each = length_of(in_time, unit);
    assert(0 < value * each <= 0x7FFF_FFFF_FFFF_FFFF) by (nonlinear_arith)
        requires
            0 < value <= 1_000_000_000,
            0 < each <= 31_536_000,
    ;
    lemma_component(digits, unit, Seq::empty(), in_time, 0);
    let body = digits + seq![unit] + Seq::empty();
    if in_time {
        let s = "PT"@ + digits + written;
        assert(s[0] == 'P');
        assert(s.drop_first() =~= seq!['T'] + body);
        assert(s.drop_first()[0] == 'T');
        assert(without_sign(s.drop_first()) == s.drop_first());
        assert(without_sign(s) == s.drop_first());
        assert(s.drop_first().drop_first() =~= body);
    } else {
        let s = "P"@ + digits + written;
        assert(s[0] == 'P');
        assert(s.drop_first() =~= body);
        assert(text::is_digit(digits[0]));
        assert(body[0] == digits[0]);
        assert(without_sign(s.drop_first()) == s.drop_first());
        assert(without_sign(s) == s.drop_first());
    }
}

/// The components of a duration add up: one of days and hours is as long as the two
/// together.
pub proof fn law_components_add_up(days: Seq<char>, hours: Seq<char>)
    requires
        text::all_digits(days),
        text::all_digits(hours),
        0 < text::digits_value(days) <= 1_000_000_000,
        text::digits_value(hours) <= 1_000_000_000,
    ensures
        duration("P"@ + days + "DT"@ + hours + "H"@) == Some(
            (text::digits_value(days) * 86_400 + text::digits_value(hours) * 3_600) as nat,
        ),
{
    reveal_strlit("P");
    reveal_strlit("DT");
    reveal_strlit("H");
    let d = text::digits_value(days);
    let h = text::digits_value(hours);
    let s = "P"@ + days + "DT"@ + hours + "H"@;
    let tail = hours + seq!['H'] + Seq::<char>::empty();
    let behind = seq!['T'] + tail;
    lemma_component(days, 'D', behind, false, 0);
    lemma_component(hours, 'H', Seq::empty(), true, d * 86_400);
    assert(s[0] == 'P');
    let body = days + seq!['D'] + behind;
    assert(s.drop_first() =~= body);
    assert(text::is_digit(days[0]));
    assert(body[0] == days[0]);
    assert(without_sign(s.drop_first()) == s.drop_first());
    assert(without_sign(s) == s.drop_first());
    assert(behind[0] == 'T');
    assert(behind.drop_first() =~= tail);
    assert(0 + d * length_of(false, 'D') == d * 86_400);
    assert(components(behind, false, Seq::empty(), d * 86_400) == components(
        tail,
        true,
        Seq::empty(),
        d * 86_400,
    ));
}

} // verus!
