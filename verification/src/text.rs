//! Text vocabulary: what the parsers and renderers say about characters.

use vstd::prelude::*;
use vstd::string::*;

verus! {

broadcast use vstd::utf8::encode_utf8_decode_utf8;

/// `String::push` appends one character.
pub assume_specification[ String::push ](s: &mut String, c: char)
    ensures
        final(s)@ == old(s)@.push(c),
;

/// Whether two texts are the same.
pub fn same(a: &str, b: &str) -> (equal: bool)
    ensures
        equal == (a@ == b@),
{
    let x = a.as_bytes();
    let y = b.as_bytes();
    if x.len() != y.len() {
        return false;
    }
    let mut i: usize = 0;
    while i < x.len()
        invariant
            x.len() == y.len(),
            i <= x.len(),
            x@ == a.spec_bytes(),
            y@ == b.spec_bytes(),
            forall|j: int| 0 <= j < i ==> x@[j] == y@[j],
        decreases x.len() - i,
    {
        if x[i] != y[i] {
            return false;
        }
        i += 1;
    }
    proof {
        assert(x@ =~= y@);
        vstd::utf8::encode_utf8_decode_utf8(a@);
        vstd::utf8::encode_utf8_decode_utf8(b@);
    }
    true
}

/// The characters of a text, one by one.
pub fn chars_of(text: &str) -> (chars: Vec<char>)
    ensures
        chars@ == text@,
{
    let mut chars: Vec<char> = Vec::new();
    for c in iter: text.chars()
        invariant
            iter.seq() == text@,
            chars@ == text@.take(iter.index() as int),
    {
        chars.push(c);
        assert(chars@ =~= text@.take(iter.index() as int + 1));
    }
    assert(text@.take(text@.len() as int) =~= text@);
    chars
}

/// A text made of the characters from `from` up to `to`.
pub fn text_of(chars: &[char], from: usize, to: usize) -> (text: String)
    requires
        from <= to <= chars@.len(),
    ensures
        text@ == chars@.subrange(from as int, to as int),
{
    let mut text = String::new();
    let mut i: usize = from;
    assert(chars@.subrange(from as int, from as int) =~= Seq::<char>::empty());
    while i < to
        invariant
            from <= i <= to <= chars@.len(),
            text@ == chars@.subrange(from as int, i as int),
        decreases to - i,
    {
        text.push(chars[i]);
        i += 1;
        assert(text@ =~= chars@.subrange(from as int, i as int));
    }
    text
}

/// The digit `n`, for `n` below ten.
pub open spec fn digit(n: nat) -> char {
    ('0' as u32 + n) as char
}

/// A number in decimal, without leading zeros.
pub open spec fn decimal(n: nat) -> Seq<char>
    decreases n,
{
    if n < 10 {
        seq![digit(n)]
    } else {
        decimal(n / 10).push(digit(n % 10))
    }
}

/// A signed number in decimal.
pub open spec fn signed_decimal(n: int) -> Seq<char> {
    if n < 0 {
        seq!['-'] + decimal((-n) as nat)
    } else {
        decimal(n as nat)
    }
}

/// A number in decimal, at least two characters wide.
pub open spec fn two_digits(n: nat) -> Seq<char> {
    if n < 10 {
        seq!['0'] + decimal(n)
    } else {
        decimal(n)
    }
}

/// A number in decimal with zeros in front, at least so many characters wide.
pub open spec fn padded(n: nat, width: nat) -> Seq<char> {
    let shown = decimal(n);
    if shown.len() < width {
        Seq::new((width - shown.len()) as nat, |i: int| '0') + shown
    } else {
        shown
    }
}

/// The digit `n` as a character.
fn digit_char(n: u8) -> (c: char)
    requires
        n < 10,
    ensures
        c == digit(n as nat),
{
    (48 + n) as char
}

/// Append a number in decimal.
pub fn append_decimal(out: &mut String, n: u64)
    ensures
        final(out)@ == old(out)@ + decimal(n as nat),
    decreases n,
{
    let ghost before = out@;
    if n < 10 {
        out.push(digit_char(n as u8));
    } else {
        append_decimal(out, n / 10);
        out.push(digit_char((n % 10) as u8));
    }
    assert(out@ =~= before + decimal(n as nat));
}

/// A number in decimal.
pub fn decimal_text(n: u64) -> (text: String)
    ensures
        text@ == decimal(n as nat),
{
    let mut text = String::new();
    append_decimal(&mut text, n);
    assert(text@ =~= decimal(n as nat));
    text
}

/// Append a signed number in decimal.
pub fn append_signed(out: &mut String, n: i64)
    ensures
        final(out)@ == old(out)@ + signed_decimal(n as int),
{
    let ghost before = out@;
    if n < 0 {
        out.push('-');
        let size: u64 = if n == i64::MIN {
            0x8000_0000_0000_0000
        } else {
            (-n) as u64
        };
        append_decimal(out, size);
    } else {
        append_decimal(out, n as u64);
    }
    assert(out@ =~= before + signed_decimal(n as int));
}

/// Append a number in decimal, at least two characters wide.
pub fn append_two_digits(out: &mut String, n: u64)
    ensures
        final(out)@ == old(out)@ + two_digits(n as nat),
{
    let ghost before = out@;
    if n < 10 {
        out.push('0');
    }
    append_decimal(out, n);
    assert(out@ =~= before + two_digits(n as nat));
}

/// Whether a character is one of Unicode's White_Space property.
pub open spec fn is_space(c: char) -> bool {
    ||| '\u{9}' <= c <= '\u{D}'
    ||| c == '\u{20}'
    ||| c == '\u{85}'
    ||| c == '\u{A0}'
    ||| c == '\u{1680}'
    ||| '\u{2000}' <= c <= '\u{200A}'
    ||| c == '\u{2028}'
    ||| c == '\u{2029}'
    ||| c == '\u{202F}'
    ||| c == '\u{205F}'
    ||| c == '\u{3000}'
}

fn space(c: char) -> (yes: bool)
    ensures
        yes == is_space(c),
{
    ('\u{9}' <= c && c <= '\u{D}') || c == '\u{20}' || c == '\u{85}' || c == '\u{A0}' || c
        == '\u{1680}' || ('\u{2000}' <= c && c <= '\u{200A}') || c == '\u{2028}' || c
        == '\u{2029}' || c == '\u{202F}' || c == '\u{205F}' || c == '\u{3000}'
}

/// A text without the white space in front.
pub open spec fn trimmed_start(text: Seq<char>) -> Seq<char>
    decreases text.len(),
{
    if text.len() > 0 && is_space(text.first()) {
        trimmed_start(text.drop_first())
    } else {
        text
    }
}

/// A text without the white space behind.
pub open spec fn trimmed_end(text: Seq<char>) -> Seq<char>
    decreases text.len(),
{
    if text.len() > 0 && is_space(text.last()) {
        trimmed_end(text.drop_last())
    } else {
        text
    }
}

/// A text without the white space around it.
pub open spec fn trimmed(text: Seq<char>) -> Seq<char> {
    trimmed_end(trimmed_start(text))
}

/// A text without the white space around it.
pub fn trim(text: &str) -> (out: String)
    ensures
        out@ == trimmed(text@),
{
    let chars = chars_of(text);
    let mut from: usize = 0;
    assert(chars@.skip(0) =~= chars@);
    while from < chars.len() && space(chars[from])
        invariant
            from <= chars@.len(),
            trimmed_start(chars@) == trimmed_start(chars@.skip(from as int)),
        decreases chars@.len() - from,
    {
        assert(chars@.skip(from as int).drop_first() =~= chars@.skip(from as int + 1));
        from += 1;
    }
    let ghost start = chars@.skip(from as int);
    assert(trimmed_start(chars@) == start);
    let mut to: usize = chars.len();
    assert(chars@.subrange(from as int, to as int) =~= start);
    while from < to && space(chars[to - 1])
        invariant
            from <= to <= chars@.len(),
            trimmed_end(start) == trimmed_end(chars@.subrange(from as int, to as int)),
        decreases to,
    {
        assert(chars@.subrange(from as int, to as int).drop_last() =~= chars@.subrange(
            from as int,
            to as int - 1,
        ));
        to -= 1;
    }
    text_of(chars.as_slice(), from, to)
}

/// Whether a character is a decimal digit.
pub open spec fn is_digit(c: char) -> bool {
    '0' <= c <= '9'
}

/// The value of a run of digits.
pub open spec fn digits_value(digits: Seq<char>) -> nat
    decreases digits.len(),
{
    if digits.len() == 0 {
        0
    } else {
        digits_value(digits.drop_last()) * 10 + ((digits.last() as u32 - '0' as u32) as nat)
    }
}

/// Whether a text is one digit or more and nothing else.
pub open spec fn all_digits(text: Seq<char>) -> bool {
    text.len() > 0 && forall|i: int| 0 <= i < text.len() ==> is_digit(#[trigger] text[i])
}

/// The number a text stands for, an optional plus sign in front, if it is one
/// and does not exceed `max`.
pub open spec fn number(text: Seq<char>, max: nat) -> Option<nat> {
    let digits = if text.len() > 0 && text[0] == '+' {
        text.skip(1)
    } else {
        text
    };
    if all_digits(digits) && digits_value(digits) <= max {
        Some(digits_value(digits))
    } else {
        None
    }
}

/// The signed number a text stands for, with an optional sign in front, if it
/// is one and lies between `min` and `max`.
pub open spec fn signed_number(text: Seq<char>, min: int, max: int) -> Option<int> {
    let negative = text.len() > 0 && text[0] == '-';
    let digits = if text.len() > 0 && (text[0] == '+' || text[0] == '-') {
        text.skip(1)
    } else {
        text
    };
    let value = if negative {
        -(digits_value(digits) as int)
    } else {
        digits_value(digits) as int
    };
    if all_digits(digits) && min <= value <= max {
        Some(value)
    } else {
        None
    }
}

/// Whether all of a run of characters are digits, at least one, and what they
/// amount to if that is no more than `max`.
fn digits_number(chars: &[char], from: usize, max: u64) -> (value: Option<u64>)
    requires
        from <= chars@.len(),
    ensures
        ({
            let digits = chars@.skip(from as int);
            match value {
                Some(v) => all_digits(digits) && v == digits_value(digits) && v <= max,
                None => !all_digits(digits) || digits_value(digits) > max,
            }
        }),
{
    let ghost digits = chars@.skip(from as int);
    if from == chars.len() {
        return None;
    }
    let mut value: u64 = 0;
    let mut over: bool = false;
    let mut i: usize = from;
    assert(digits.take(0) =~= Seq::<char>::empty());
    while i < chars.len()
        invariant
            from <= i <= chars@.len(),
            digits == chars@.skip(from as int),
            forall|j: int| 0 <= j < i - from ==> is_digit(#[trigger] digits[j]),
            !over ==> value == digits_value(digits.take(i - from)) && value <= max,
            over ==> digits_value(digits.take(i - from)) > max,
        decreases chars@.len() - i,
    {
        let c: char = chars[i];
        assert(digits[i - from] == c);
        if c < '0' || c > '9' {
            return None;
        }
        let d: u64 = (c as u32 - 48) as u64;
        assert(digits.take(i - from + 1).drop_last() =~= digits.take(i - from));
        assert(digits.take(i - from + 1).last() == c);
        if !over {
            if value > (u64::MAX - d) / 10 {
                over = true;
            } else {
                value = value * 10 + d;
                if value > max {
                    over = true;
                }
            }
        }
        i += 1;
    }
    assert(digits.take(chars@.len() - from) =~= digits);
    if over {
        None
    } else {
        Some(value)
    }
}

/// Read an unsigned number as `str::parse` does: digits with an optional plus
/// sign in front.
pub fn parse_number(text: &str, max: u64) -> (value: Option<u64>)
    ensures
        match value {
            Some(v) => number(text@, max as nat) == Some(v as nat),
            None => number(text@, max as nat) is None,
        },
{
    let chars = chars_of(text);
    if chars.len() > 0 && chars[0] == '+' {
        digits_number(chars.as_slice(), 1, max)
    } else {
        assert(chars@.skip(0) =~= chars@);
        digits_number(chars.as_slice(), 0, max)
    }
}

/// Read a signed number as `str::parse` does: digits with an optional sign in
/// front.
pub fn parse_signed(text: &str, min: i64, max: i64) -> (value: Option<i64>)
    requires
        min <= 0 <= max,
    ensures
        match value {
            Some(v) => signed_number(text@, min as int, max as int) == Some(v as int),
            None => signed_number(text@, min as int, max as int) is None,
        },
{
    let chars = chars_of(text);
    assert(chars@.skip(0) =~= chars@);
    if chars.len() > 0 && chars[0] == '-' {
        match digits_number(chars.as_slice(), 1, (-(min as i128)) as u64) {
            Some(v) => Some((-(v as i128)) as i64),
            None => None,
        }
    } else if chars.len() > 0 && chars[0] == '+' {
        match digits_number(chars.as_slice(), 1, max as u64) {
            Some(v) => Some(v as i64),
            None => None,
        }
    } else {
        match digits_number(chars.as_slice(), 0, max as u64) {
            Some(v) => Some(v as i64),
            None => None,
        }
    }
}

pub(crate) proof fn lemma_decimal_digits(n: nat)
    ensures
        all_digits(decimal(n)),
        digits_value(decimal(n)) == n,
    decreases n,
{
    reveal_with_fuel(digits_value, 2);
    if n < 10 {
        assert(decimal(n).drop_last() =~= Seq::<char>::empty());
    } else {
        lemma_decimal_digits(n / 10);
        assert(decimal(n).drop_last() =~= decimal(n / 10));
        assert(decimal(n).last() == digit(n % 10));
    }
}

/// A number written in decimal reads back as itself.
pub proof fn law_decimal_round_trip(n: nat, max: nat)
    requires
        n <= max,
    ensures
        number(decimal(n), max) == Some(n),
{
    lemma_decimal_digits(n);
    assert(is_digit(decimal(n)[0]));
}

/// The position of the first occurrence of a character, or the length.
pub open spec fn first_of(text: Seq<char>, c: char) -> int
    decreases text.len(),
{
    if text.len() == 0 || text[0] == c {
        0
    } else {
        1 + first_of(text.drop_first(), c)
    }
}

/// Whether a text starts with a prefix.
pub fn starts_with(text: &str, prefix: &str) -> (yes: bool)
    ensures
        yes == prefix@.is_prefix_of(text@),
{
    let t = chars_of(text);
    let p = chars_of(prefix);
    if p.len() > t.len() {
        return false;
    }
    let mut i: usize = 0;
    while i < p.len()
        invariant
            p@ == prefix@,
            t@ == text@,
            p@.len() <= t@.len(),
            i <= p@.len(),
            forall|j: int| 0 <= j < i ==> p@[j] == t@[j],
        decreases p@.len() - i,
    {
        if p[i] != t[i] {
            assert(p@[i as int] != t@.subrange(0, p@.len() as int)[i as int]);
            return false;
        }
        i += 1;
    }
    assert(p@ =~= t@.subrange(0, p@.len() as int));
    true
}

/// A text in ASCII upper case letters turned to lower case; every other
/// character as it is.
pub open spec fn ascii_lower_char(c: char) -> char {
    if 'A' <= c <= 'Z' {
        (c as u32 + 32) as char
    } else {
        c
    }
}

/// Whether two texts are the same but for ASCII case.
pub open spec fn same_ignoring_ascii_case(a: Seq<char>, b: Seq<char>) -> bool {
    a.map_values(|c: char| ascii_lower_char(c)) == b.map_values(|c: char| ascii_lower_char(c))
}

fn lower_char(c: char) -> (out: char)
    ensures
        out == ascii_lower_char(c),
{
    if 'A' <= c && c <= 'Z' {
        (c as u8 + 32) as char
    } else {
        c
    }
}

/// Whether two texts are the same but for ASCII case.
pub fn same_ignoring_case(a: &str, b: &str) -> (equal: bool)
    ensures
        equal == same_ignoring_ascii_case(a@, b@),
{
    let x = chars_of(a);
    let y = chars_of(b);
    let ghost lx = a@.map_values(|c: char| ascii_lower_char(c));
    let ghost ly = b@.map_values(|c: char| ascii_lower_char(c));
    if x.len() != y.len() {
        assert(lx.len() != ly.len());
        return false;
    }
    let mut i: usize = 0;
    while i < x.len()
        invariant
            x@ == a@,
            y@ == b@,
            x@.len() == y@.len(),
            i <= x@.len(),
            lx == a@.map_values(|c: char| ascii_lower_char(c)),
            ly == b@.map_values(|c: char| ascii_lower_char(c)),
            forall|j: int| 0 <= j < i ==> lx[j] == ly[j],
        decreases x@.len() - i,
    {
        if lower_char(x[i]) != lower_char(y[i]) {
            assert(lx[i as int] != ly[i as int]);
            return false;
        }
        i += 1;
    }
    assert(lx =~= ly);
    true
}

/// What follows a prefix, if the text starts with it.
pub fn after_prefix(text: &str, prefix: &str) -> (rest: Option<String>)
    ensures
        match rest {
            Some(r) => text@ == prefix@ + r@,
            None => !prefix@.is_prefix_of(text@),
        },
{
    if !starts_with(text, prefix) {
        return None;
    }
    let t = chars_of(text);
    let p = chars_of(prefix);
    let rest = text_of(t.as_slice(), p.len(), t.len());
    assert(prefix@ + rest@ =~= text@);
    Some(rest)
}

pub proof fn lemma_first_of(text: Seq<char>, c: char)
    ensures
        0 <= first_of(text, c) <= text.len(),
        first_of(text, c) < text.len() ==> text[first_of(text, c)] == c,
        forall|i: int| 0 <= i < first_of(text, c) ==> #[trigger] text[i] != c,
    decreases text.len(),
{
    if text.len() > 0 && text[0] != c {
        let rest = text.drop_first();
        lemma_first_of(rest, c);
        assert forall|i: int| 0 <= i < first_of(text, c) implies #[trigger] text[i] != c by {
            if i > 0 {
                assert(rest[i - 1] != c);
            }
        }
    }
}

proof fn lemma_first_of_is(text: Seq<char>, c: char, at: int)
    requires
        0 <= at <= text.len(),
        forall|i: int| 0 <= i < at ==> #[trigger] text[i] != c,
        at < text.len() ==> text[at] == c,
    ensures
        first_of(text, c) == at,
{
    lemma_first_of(text, c);
    let f = first_of(text, c);
    if f < at {
        assert(text[f] != c);
    }
}

/// The position of the first occurrence of a character, or the length.
pub fn position_of(chars: &[char], c: char) -> (at: usize)
    ensures
        at == first_of(chars@, c),
{
    let mut i: usize = 0;
    while i < chars.len() && chars[i] != c
        invariant
            i <= chars@.len(),
            forall|j: int| 0 <= j < i ==> #[trigger] chars@[j] != c,
        decreases chars@.len() - i,
    {
        i += 1;
    }
    proof {
        lemma_first_of_is(chars@, c, i as int);
    }
    i
}

/// The text up to a separator, and what follows it.
pub fn split_first(text: &str, separator: char) -> (parts: (String, Option<String>))
    ensures
        ({
            let at = first_of(text@, separator);
            &&& parts.0@ == text@.take(at)
            &&& match parts.1 {
                Some(rest) => at < text@.len() && rest@ == text@.skip(at + 1),
                None => at == text@.len(),
            }
        }),
{
    let chars = chars_of(text);
    let at: usize = position_of(chars.as_slice(), separator);
    proof {
        lemma_first_of(text@, separator);
    }
    let head = text_of(chars.as_slice(), 0, at);
    assert(head@ =~= text@.take(at as int));
    if at < chars.len() {
        let rest = text_of(chars.as_slice(), at + 1, chars.len());
        assert(rest@ =~= text@.skip(at + 1));
        (head, Some(rest))
    } else {
        (head, None)
    }
}

/// The words of a text: what white space leaves between.
pub open spec fn words(text: Seq<char>) -> Seq<Seq<char>>
    decreases text.len(),
{
    if text.len() == 0 {
        Seq::empty()
    } else if is_space(text.last()) {
        words(text.drop_last())
    } else {
        let before = text.drop_last();
        let rest = words(before);
        if before.len() > 0 && !is_space(before.last()) {
            rest.update(rest.len() - 1, rest.last().push(text.last()))
        } else {
            rest.push(seq![text.last()])
        }
    }
}

/// The texts that a list of strings holds.
pub open spec fn views(list: Seq<String>) -> Seq<Seq<char>> {
    list.map_values(|s: String| s@)
}

/// The words of a text.
pub fn split_words(text: &str) -> (list: Vec<String>)
    ensures
        views(list@) == words(text@),
{
    let chars = chars_of(text);
    let mut list: Vec<String> = Vec::new();
    let mut word = String::new();
    let mut in_word: bool = false;
    let mut i: usize = 0;
    assert(chars@.take(0) =~= Seq::<char>::empty());
    assert(views(list@) =~= words(chars@.take(0)));
    while i < chars.len()
        invariant
            i <= chars@.len(),
            chars@ == text@,
            in_word == (i > 0 && !is_space(chars@[i - 1])),
            !in_word ==> views(list@) == words(chars@.take(i as int)),
            in_word ==> views(list@).push(word@) == words(chars@.take(i as int)),
        decreases chars@.len() - i,
    {
        let c: char = chars[i];
        let ghost seen = chars@.take(i as int);
        let ghost now = chars@.take(i as int + 1);
        assert(now.drop_last() =~= seen);
        assert(now.last() == c);
        let ghost listed = views(list@);
        if space(c) {
            if in_word {
                let ghost finished = word@;
                list.push(word);
                assert(views(list@) =~= listed.push(finished));
                word = String::new();
                in_word = false;
            }
        } else if in_word {
            let ghost part = word@;
            word.push(c);
            assert(listed.push(word@) =~= listed.push(part).update(
                listed.len() as int,
                part.push(c),
            ));
        } else {
            word = String::new();
            word.push(c);
            in_word = true;
            assert(word@ =~= seq![c]);
        }
        i += 1;
    }
    assert(chars@.take(i as int) =~= text@);
    if in_word {
        let ghost listed = views(list@);
        let ghost finished = word@;
        list.push(word);
        assert(views(list@) =~= listed.push(finished));
    }
    list
}

/// What `str::to_lowercase` makes of a text.
pub uninterp spec fn unicode_lowercase(text: Seq<char>) -> Seq<char>;

/// `str::to_lowercase`: every character in its Unicode lower case.
#[verifier::external_body]
pub(crate) fn lowercase(text: &str) -> (out: String)
    ensures
        out@ == unicode_lowercase(text@),
{
    text.to_lowercase()
}

/// What `String::from_utf8_lossy` makes of bytes that are not UTF-8.
pub uninterp spec fn lossy_text(bytes: Seq<u8>) -> Seq<char>;

/// `String::from_utf8_lossy`: UTF-8 decoded, with replacement characters where
/// the bytes are not UTF-8.
#[verifier::external_body]
pub(crate) fn text_from_bytes(bytes: &[u8]) -> (out: String)
    ensures
        out@ == lossy_text(bytes@),
        vstd::utf8::valid_utf8(bytes@) ==> out@ == vstd::utf8::decode_utf8(bytes@),
{
    String::from_utf8_lossy(bytes).into_owned()
}

/// A text with its ASCII letters in lower case.
pub open spec fn ascii_lower(text: Seq<char>) -> Seq<char> {
    text.map_values(|c: char| ascii_lower_char(c))
}

/// A text with its ASCII letters in lower case.
pub fn ascii_lowercase(text: &str) -> (out: String)
    ensures
        out@ == ascii_lower(text@),
{
    let chars = chars_of(text);
    let mut out = String::new();
    let mut i: usize = 0;
    while i < chars.len()
        invariant
            chars@ == text@,
            i <= chars@.len(),
            out@ == ascii_lower(text@.take(i as int)),
        decreases chars@.len() - i,
    {
        out.push(lower_char(chars[i]));
        i += 1;
        assert(out@ =~= ascii_lower(text@.take(i as int)));
    }
    assert(text@.take(i as int) =~= text@);
    out
}

/// A copy of an optional text.
pub fn copy_opt(text: &Option<String>) -> (copy: Option<String>)
    ensures
        opt_view(copy) == opt_view(*text),
{
    match text {
        Some(t) => Some(t.clone()),
        None => None,
    }
}

/// The text that an optional string holds.
pub open spec fn opt_view(text: Option<String>) -> Option<Seq<char>> {
    match text {
        Some(t) => Some(t@),
        None => None,
    }
}

/// Numbers in decimal, with commas between them.
pub open spec fn csv(numbers: Seq<nat>) -> Seq<char>
    decreases numbers.len(),
{
    if numbers.len() == 0 {
        Seq::empty()
    } else if numbers.len() == 1 {
        decimal(numbers[0])
    } else {
        csv(numbers.drop_last()) + ","@ + decimal(numbers.last())
    }
}

/// Small numbers in decimal, with commas between them.
pub fn csv_u8(numbers: &[u8]) -> (out: String)
    ensures
        out@ == csv(numbers@.map_values(|n: u8| n as nat)),
{
    let ghost all = numbers@.map_values(|n: u8| n as nat);
    let mut out = String::new();
    let mut i: usize = 0;
    assert(all.take(0) =~= Seq::<nat>::empty());
    while i < numbers.len()
        invariant
            i <= numbers@.len(),
            all == numbers@.map_values(|n: u8| n as nat),
            out@ == csv(all.take(i as int)),
        decreases numbers@.len() - i,
    {
        let ghost now = all.take(i as int + 1);
        assert(now.drop_last() =~= all.take(i as int));
        if i > 0 {
            out.append(",");
            append_decimal(&mut out, numbers[i] as u64);
        } else {
            append_decimal(&mut out, numbers[i] as u64);
            assert(out@ =~= csv(now));
        }
        i += 1;
    }
    assert(all.take(i as int) =~= all);
    out
}

/// What `str::parse::<u64>` says of a text that is no number.
pub uninterp spec fn number_error(text: Seq<char>) -> Seq<char>;

/// `str::parse::<u64>`: digits with an optional plus sign in front, and if that
/// is not what it is, the debug form of the error.
#[verifier::external_body]
pub(crate) fn parse_u64(text: &str) -> (result: Result<u64, String>)
    ensures
        match result {
            Ok(value) => number(text@, u64::MAX as nat) == Some(value as nat),
            Err(error) => number(text@, u64::MAX as nat) is None && error@ == number_error(text@),
        },
{
    match text.parse::<u64>() {
        Ok(value) => Ok(value),
        Err(error) => Err(format!("{:?}", error)),
    }
}

/// Whether a text stands at a position of another.
pub open spec fn stands_at(text: Seq<char>, needle: Seq<char>, at: int) -> bool {
    0 <= at <= text.len() - needle.len() && text.subrange(at, at + needle.len()) == needle
}

/// Whether a text stands somewhere in another.
pub open spec fn has(text: Seq<char>, needle: Seq<char>) -> bool {
    exists|at: int| #[trigger] stands_at(text, needle, at)
}

/// Whether a text stands somewhere in another.
pub fn contains(text: &str, needle: &str) -> (yes: bool)
    ensures
        yes == has(text@, needle@),
{
    let t = chars_of(text);
    let n = chars_of(needle);
    if n.len() > t.len() {
        return false;
    }
    let mut at: usize = 0;
    while at <= t.len() - n.len()
        invariant
            t@ == text@,
            n@ == needle@,
            n@.len() <= t@.len(),
            at <= t@.len() - n@.len() + 1,
            forall|j: int| 0 <= j < at ==> !#[trigger] stands_at(text@, needle@, j),
        decreases t@.len() + 1 - at,
    {
        let mut k: usize = 0;
        while k < n.len() && t[at + k] == n[k]
            invariant
                n@.len() <= t@.len() == t.len(),
                at <= t@.len() - n@.len(),
                k <= n@.len(),
                forall|j: int| 0 <= j < k ==> t@[at + j] == n@[j],
            decreases n@.len() - k,
        {
            k += 1;
        }
        if k == n.len() {
            assert(t@.subrange(at as int, at + n@.len()) =~= n@);
            assert(stands_at(text@, needle@, at as int));
            return true;
        }
        assert(t@.subrange(at as int, at + n@.len())[k as int] != n@[k as int]);
        if at == t.len() - n.len() {
            return false;
        }
        at += 1;
    }
    false
}

/// The pieces of a text that a separator leaves: one more than there are
/// separators.
pub open spec fn pieces(text: Seq<char>, separator: char) -> Seq<Seq<char>>
    decreases text.len(),
{
    let at = first_of(text, separator);
    if 0 <= at < text.len() {
        seq![text.take(at)] + pieces(text.skip(at + 1), separator)
    } else {
        seq![text]
    }
}

/// The pieces of a text that a separator leaves.
pub fn split(text: &str, separator: char) -> (list: Vec<String>)
    ensures
        views(list@) == pieces(text@, separator),
{
    let mut list: Vec<String> = Vec::new();
    let mut rest: String = text.to_owned();
    assert(views(list@) + pieces(rest@, separator) =~= pieces(text@, separator));
    loop
        invariant_except_break
            views(list@) + pieces(rest@, separator) == pieces(text@, separator),
        ensures
            views(list@) == pieces(text@, separator),
        decreases rest@.len(),
    {
        let ghost listed = views(list@);
        let ghost now = rest@;
        proof {
            lemma_first_of(now, separator);
        }
        let (head, tail) = split_first(rest.as_str(), separator);
        list.push(head);
        assert(views(list@) =~= listed.push(head@));
        match tail {
            Some(tail) => {
                assert(listed + (seq![head@] + pieces(tail@, separator)) =~= listed.push(head@)
                    + pieces(tail@, separator));
                rest = tail;
            },
            None => {
                assert(now.take(now.len() as int) =~= now);
                assert(listed + seq![now] =~= listed.push(head@));
                break;
            },
        }
    }
    list
}

/// Whether a text holds a character.
pub fn holds_char(text: &str, c: char) -> (yes: bool)
    ensures
        yes == text@.contains(c),
{
    let chars = chars_of(text);
    let mut i: usize = 0;
    while i < chars.len()
        invariant
            chars@ == text@,
            i <= chars@.len(),
            forall|j: int| 0 <= j < i ==> #[trigger] chars@[j] != c,
        decreases chars@.len() - i,
    {
        if chars[i] == c {
            assert(text@[i as int] == c);
            return true;
        }
        i += 1;
    }
    false
}

/// `true` or `false`.
pub open spec fn bool_text(b: bool) -> Seq<char> {
    if b {
        "true"@
    } else {
        "false"@
    }
}

/// `true` or `false`.
pub fn bool_word(b: bool) -> (word: &'static str)
    ensures
        word@ == bool_text(b),
{
    if b {
        "true"
    } else {
        "false"
    }
}

/// A hexadecimal digit, its letters in lower case.
pub open spec fn hex_digit(n: int) -> char {
    if n < 10 {
        ('0' as u32 + n) as char
    } else {
        ('a' as u32 + n - 10) as char
    }
}

/// A byte as two hexadecimal digits.
pub open spec fn hex_byte(b: u8) -> Seq<char> {
    seq![hex_digit(b as int / 16), hex_digit(b as int % 16)]
}

/// Bytes as hexadecimal digits, two for each.
pub open spec fn hex(bytes: Seq<u8>) -> Seq<char>
    decreases bytes.len(),
{
    if bytes.len() == 0 {
        Seq::empty()
    } else {
        hex(bytes.drop_last()) + hex_byte(bytes.last())
    }
}

fn hex_char(n: u8) -> (c: char)
    requires
        n < 16,
    ensures
        c == hex_digit(n as int),
{
    if n < 10 {
        (48 + n) as char
    } else {
        (97 + (n - 10)) as char
    }
}

/// Append a byte as two hexadecimal digits.
pub fn append_hex_byte(out: &mut String, b: u8)
    ensures
        final(out)@ == old(out)@ + hex_byte(b),
{
    let ghost before = out@;
    out.push(hex_char(b / 16));
    out.push(hex_char(b % 16));
    assert(out@ =~= before + hex_byte(b));
}

/// Append bytes as hexadecimal digits.
pub fn append_hex(out: &mut String, bytes: &[u8])
    ensures
        final(out)@ == old(out)@ + hex(bytes@),
{
    let ghost before = out@;
    let mut i: usize = 0;
    assert(bytes@.take(0) =~= Seq::empty());
    assert(out@ =~= before + hex(bytes@.take(0)));
    while i < bytes.len()
        invariant
            i <= bytes@.len(),
            out@ == before + hex(bytes@.take(i as int)),
        decreases bytes@.len() - i,
    {
        assert(bytes@.take(i + 1).drop_last() =~= bytes@.take(i as int));
        append_hex_byte(out, bytes[i]);
        i += 1;
        assert(out@ =~= before + hex(bytes@.take(i as int)));
    }
    assert(bytes@.take(i as int) =~= bytes@);
}

/// The position of the first of some keys that is this one, or the number of
/// keys.
pub open spec fn place(keys: Seq<Seq<char>>, key: Seq<char>) -> int
    decreases keys.len(),
{
    if keys.len() == 0 || keys[0] == key {
        0
    } else {
        1 + place(keys.drop_first(), key)
    }
}

/// What the place of a key is.
pub proof fn lemma_place(keys: Seq<Seq<char>>, key: Seq<char>)
    ensures
        0 <= place(keys, key) <= keys.len(),
        place(keys, key) < keys.len() ==> keys[place(keys, key)] == key,
        forall|j: int| 0 <= j < place(keys, key) ==> #[trigger] keys[j] != key,
    decreases keys.len(),
{
    if keys.len() > 0 && keys[0] != key {
        lemma_place(keys.drop_first(), key);
        assert forall|j: int| 0 <= j < place(keys, key) implies #[trigger] keys[j] != key by {
            if j > 0 {
                assert(keys[j] == keys.drop_first()[j - 1]);
            }
        }
    }
}

/// The place of a key is the only one with no such key before it.
pub proof fn lemma_place_is(keys: Seq<Seq<char>>, key: Seq<char>, at: int)
    requires
        0 <= at <= keys.len(),
        forall|j: int| 0 <= j < at ==> #[trigger] keys[j] != key,
        at < keys.len() ==> keys[at] == key,
    ensures
        place(keys, key) == at,
{
    lemma_place(keys, key);
    let p = place(keys, key);
    if p < at {
        assert(keys[p] != key);
    }
    if at < p {
        assert(keys[at] != key);
    }
}

/// A text, or nothing.
pub open spec fn shown_if(shown: bool, text: Seq<char>) -> Seq<char> {
    if shown {
        text
    } else {
        Seq::empty()
    }
}

/// A text, or nothing.
pub fn when<'a>(shown: bool, text: &'a str) -> (out: &'a str)
    ensures
        out@ == shown_if(shown, text@),
{
    if shown {
        text
    } else {
        proof {
            reveal_strlit("");
        }
        assert(""@ =~= Seq::empty());
        ""
    }
}

/// Two texts as one.
pub fn joined(a: &str, b: &str) -> (out: String)
    ensures
        out@ == a@ + b@,
{
    let mut out = a.to_owned();
    out.append(b);
    out
}

/// A text with every occurrence of another replaced, found from the front and
/// without overlaps.
pub open spec fn replaced(text: Seq<char>, from: Seq<char>, to: Seq<char>) -> Seq<char>
    decreases text.len(),
{
    if text.len() == 0 {
        Seq::empty()
    } else if from.len() > 0 && stands_at(text, from, 0) {
        to + replaced(text.skip(from.len() as int), from, to)
    } else {
        seq![text[0]] + replaced(text.drop_first(), from, to)
    }
}

/// A text with every occurrence of another replaced.
pub fn replace(text: &str, from: &str, to: &str) -> (out: String)
    requires
        from@.len() > 0,
    ensures
        out@ == replaced(text@, from@, to@),
{
    let t = chars_of(text);
    let f = chars_of(from);
    let mut out = String::new();
    let mut i: usize = 0;
    assert(t@.skip(0) =~= t@);
    assert(out@ + replaced(t@.skip(0), from@, to@) =~= replaced(t@, from@, to@));
    while i < t.len()
        invariant
            i <= t@.len(),
            t@ == text@,
            f@ == from@,
            f@.len() > 0,
            out@ + replaced(t@.skip(i as int), from@, to@) == replaced(text@, from@, to@),
        decreases t@.len() - i,
    {
        let ghost before = out@;
        let ghost rest = t@.skip(i as int);
        let mut k: usize = 0;
        let room: usize = t.len() - i;
        if f.len() <= room {
            while k < f.len() && t[i + k] == f[k]
                invariant
                    i + room == t@.len() <= usize::MAX,
                    k <= f@.len() <= t@.len() - i,
                    i <= t@.len(),
                    rest == t@.skip(i as int),
                    forall|j: int| 0 <= j < k ==> #[trigger] rest[j] == f@[j],
                decreases f@.len() - k,
            {
                assert(rest[k as int] == t@[i + k]);
                k += 1;
            }
        }
        if k == f.len() {
            assert(rest.subrange(0, f@.len() as int) =~= f@);
            assert(stands_at(rest, f@, 0));
            out.append(to);
            assert(rest.skip(f@.len() as int) =~= t@.skip(i + k));
            assert(out@ + replaced(t@.skip(i + k), from@, to@) =~= before + replaced(
                rest,
                from@,
                to@,
            ));
            i += k;
        } else {
            proof {
                if stands_at(rest, f@, 0) {
                    assert(rest.subrange(0, f@.len() as int)[k as int] == f@[k as int]);
                    assert(rest[k as int] == t@[i + k]);
                }
            }
            out.push(t[i]);
            assert(rest.drop_first() =~= t@.skip(i + 1));
            assert(out@ + replaced(t@.skip(i + 1), from@, to@) =~= before + replaced(
                rest,
                from@,
                to@,
            ));
            i += 1;
        }
    }
    assert(t@.skip(i as int) =~= Seq::empty());
    assert(out@ + Seq::<char>::empty() =~= out@);
    out
}

/// A text stands in whatever it was put into.
pub proof fn lemma_has_between(before: Seq<char>, middle: Seq<char>, behind: Seq<char>)
    ensures
        has(before + middle + behind, middle),
{
    let whole = before + middle + behind;
    assert(whole.subrange(before.len() as int, (before.len() + middle.len()) as int) =~= middle);
    assert(stands_at(whole, middle, before.len() as int));
}

/// A value stands in a text between the end of what is in front of it and the
/// start of what is behind it.
pub proof fn lemma_has_tagged(
    head: Seq<char>,
    first: Seq<char>,
    value: Seq<char>,
    last: Seq<char>,
    tail: Seq<char>,
    open: Seq<char>,
    close: Seq<char>,
)
    requires
        open.len() <= first.len(),
        first.skip(first.len() - open.len()) == open,
        close.len() <= last.len(),
        last.take(close.len() as int) == close,
    ensures
        has(head + first + value + last + tail, open + value + close),
{
    let before = head + first.take(first.len() - open.len());
    let behind = last.skip(close.len() as int) + tail;
    let whole = head + first + value + last + tail;
    assert(whole =~= before + (open + value + close) + behind) by {
        assert(first =~= first.take(first.len() - open.len()) + open);
        assert(last =~= close + last.skip(close.len() as int));
    }
    lemma_has_between(before, open + value + close, behind);
}

/// What stands in a text stands in whatever the text is put into.
pub proof fn lemma_has_inside(
    before: Seq<char>,
    middle: Seq<char>,
    behind: Seq<char>,
    needle: Seq<char>,
)
    requires
        has(middle, needle),
    ensures
        has(before + middle + behind, needle),
{
    let at = choose|at: int| #[trigger] stands_at(middle, needle, at);
    let whole = before + middle + behind;
    assert(whole.subrange(before.len() + at, before.len() + at + needle.len()) =~= middle.subrange(
        at,
        at + needle.len(),
    ));
    assert(stands_at(whole, needle, before.len() + at));
}

/// A number that is written in digits is read without change by what trims.
pub(crate) proof fn lemma_digits_are_trimmed(digits: Seq<char>)
    requires
        all_digits(digits),
    ensures
        trimmed(digits) == digits,
{
    assert(is_digit(digits[0]));
    assert(is_digit(digits[digits.len() - 1]));
    assert(!is_space(digits.first()));
    assert(!is_space(digits.last()));
    assert(trimmed_start(digits) == digits);
}

/// What is trimmed is the white space around a text and nothing else.
pub proof fn law_only_white_space_is_trimmed(before: Seq<char>, text: Seq<char>, behind: Seq<char>)
    requires
        text.len() > 0,
        !is_space(text.first()),
        !is_space(text.last()),
        forall|i: int| 0 <= i < before.len() ==> is_space(#[trigger] before[i]),
        forall|i: int| 0 <= i < behind.len() ==> is_space(#[trigger] behind[i]),
    ensures
        trimmed(before + text + behind) == text,
{
    lemma_trims_front(before, text + behind);
    assert(before + text + behind =~= before + (text + behind));
    lemma_trims_end(text, behind);
}

proof fn lemma_trims_front(before: Seq<char>, rest: Seq<char>)
    requires
        rest.len() > 0,
        !is_space(rest.first()),
        forall|i: int| 0 <= i < before.len() ==> is_space(#[trigger] before[i]),
    ensures
        trimmed_start(before + rest) == rest,
    decreases before.len(),
{
    if before.len() == 0 {
        assert(before + rest =~= rest);
    } else {
        let whole = before + rest;
        assert(whole.first() == before[0]);
        assert(whole.drop_first() =~= before.drop_first() + rest);
        assert forall|i: int| 0 <= i < before.drop_first().len() implies is_space(
            #[trigger] before.drop_first()[i],
        ) by {
            assert(before.drop_first()[i] == before[i + 1]);
        }
        lemma_trims_front(before.drop_first(), rest);
    }
}

proof fn lemma_trims_end(text: Seq<char>, behind: Seq<char>)
    requires
        text.len() > 0,
        !is_space(text.last()),
        forall|i: int| 0 <= i < behind.len() ==> is_space(#[trigger] behind[i]),
    ensures
        trimmed_end(text + behind) == text,
    decreases behind.len(),
{
    if behind.len() == 0 {
        assert(text + behind =~= text);
    } else {
        let whole = text + behind;
        assert(whole.last() == behind[behind.len() - 1]);
        assert(whole.drop_last() =~= text + behind.drop_last());
        lemma_trims_end(text, behind.drop_last());
    }
}

/// What stands in a text stands in it whatever follows.
pub proof fn lemma_has_before(text: Seq<char>, behind: Seq<char>, needle: Seq<char>)
    requires
        has(text, needle),
    ensures
        has(text + behind, needle),
{
    lemma_has_inside(Seq::empty(), text, behind, needle);
    assert(Seq::empty() + text + behind =~= text + behind);
}

/// A number is written in digits, the last of which is what is left over by ten.
pub proof fn law_numbers_are_written_in_digits(n: nat)
    ensures
        n < 10 ==> decimal(n) == seq!["0123456789"@[n as int]],
        n >= 10 ==> decimal(n) == decimal(n / 10) + seq!["0123456789"@[(n % 10) as int]],
        n > 0 ==> signed_decimal(-(n as int)) == seq!['-'] + decimal(n),
        signed_decimal(n as int) == decimal(n),
        n < 10 ==> two_digits(n) == seq!['0', "0123456789"@[n as int]],
        n >= 10 ==> two_digits(n) == decimal(n),
{
    reveal_strlit("0123456789");
    if n >= 10 {
        assert(decimal(n) =~= decimal(n / 10) + seq!["0123456789"@[(n % 10) as int]]);
    } else {
        assert(two_digits(n) =~= seq!['0', "0123456789"@[n as int]]);
    }
}

/// A byte is written as its two digits in base 16, and bytes one behind the other.
pub proof fn law_bytes_are_written_in_base_16(bytes: Seq<u8>, b: u8)
    ensures
        hex(bytes.push(b)) == hex(bytes) + seq![
            "0123456789abcdef"@[b as int / 16],
            "0123456789abcdef"@[b as int % 16],
        ],
        hex(Seq::empty()) == Seq::<char>::empty(),
        hex(bytes).len() == 2 * bytes.len(),
    decreases bytes.len(),
{
    reveal_strlit("0123456789abcdef");
    assert(bytes.push(b).drop_last() =~= bytes);
    assert(hex_byte(b) =~= seq![
        "0123456789abcdef"@[b as int / 16],
        "0123456789abcdef"@[b as int % 16],
    ]);
    if bytes.len() > 0 {
        law_bytes_are_written_in_base_16(bytes.drop_last(), b);
    }
}

/// Yes and no are written `true` and `false`.
pub proof fn law_yes_is_true()
    ensures
        bool_text(true) == "true"@,
        bool_text(false) == "false"@,
{
}

/// A number may have a plus in front of it, and a signed one a minus; anything else that is
/// no digit makes it none, and so does one that is too large.
pub proof fn law_numbers_are_read_strictly(n: nat, max: nat, t: Seq<char>, i: int)
    ensures
        n <= max ==> number(seq!['+'] + decimal(n), max) == Some(n),
        n > max ==> number(decimal(n), max) is None,
        n <= max ==> signed_number(seq!['-'] + decimal(n), -(max as int), max as int) == Some(
            -(n as int),
        ),
        n <= max ==> signed_number(decimal(n), -(max as int), max as int) == Some(n as int),
        0 < i < t.len() && !is_digit(t[i]) ==> number(t, max) is None,
        t.len() == 0 ==> number(t, max) is None,
{
    lemma_decimal_digits(n);
    let shown = decimal(n);
    assert((seq!['+'] + shown).skip(1) =~= shown);
    assert((seq!['-'] + shown).skip(1) =~= shown);
    assert(is_digit(shown[0]));
    if 0 < i < t.len() && !is_digit(t[i]) {
        assert(t.skip(1)[i - 1] == t[i]);
    }
}

/// A text is taken apart at every separator.
pub proof fn law_texts_are_taken_apart_at_separators(
    first: Seq<char>,
    separator: char,
    rest: Seq<char>,
)
    requires
        !first.contains(separator),
    ensures
        pieces(first + seq![separator] + rest, separator) == seq![first] + pieces(rest, separator),
        pieces(first, separator) == seq![first],
{
    let whole = first + seq![separator] + rest;
    lemma_first_of(whole, separator);
    lemma_first_of(first, separator);
    let at = first_of(whole, separator);
    assert(whole[first.len() as int] == separator);
    if at < first.len() {
        assert(first[at] == whole[at]);
        assert(first.contains(separator));
    }
    assert(whole.take(at) =~= first);
    assert(whole.skip(at + 1) =~= rest);
    if first_of(first, separator) < first.len() {
        assert(first.contains(first[first_of(first, separator)]));
    }
}

/// Words are what stands between white space.
pub proof fn law_words_stand_between_white_space(t: Seq<char>, c: char)
    ensures
        is_space(c) ==> words(t.push(c)) == words(t),
        !is_space(c) && (t.len() == 0 || is_space(t.last())) ==> words(t.push(c)) == words(t).push(
            seq![c],
        ),
        !is_space(c) && t.len() > 0 && !is_space(t.last()) ==> words(t.push(c)) == words(t).update(
            words(t).len() - 1,
            words(t).last().push(c),
        ),
        words(Seq::empty()) == Seq::<Seq<char>>::empty(),
        is_space(' ') && is_space('\t') && is_space('\n') && is_space('\r'),
        !is_space('a') && !is_space('0') && !is_space('_'),
{
    assert(t.push(c).drop_last() =~= t);
}

/// Capitals do not matter where they are said not to: each is the same as its small letter,
/// and no other two characters are the same.
pub proof fn law_capitals_do_not_matter(a: Seq<char>, b: Seq<char>, i: int)
    ensures
        same_ignoring_ascii_case(a, a),
        same_ignoring_ascii_case(a, b) ==> a.len() == b.len(),
        same_ignoring_ascii_case(a, b) && 0 <= i < a.len() ==> a[i] == b[i] || (('A' <= a[i] <= 'Z')
            && b[i] as u32 == a[i] as u32 + 32) || (('A' <= b[i] <= 'Z') && a[i] as u32
            == b[i] as u32 + 32),
        same_ignoring_ascii_case(a, ascii_lower(a)),
{
    let x = a.map_values(|c: char| ascii_lower_char(c));
    let y = b.map_values(|c: char| ascii_lower_char(c));
    assert(x.len() == a.len() && y.len() == b.len());
    if same_ignoring_ascii_case(a, b) && 0 <= i < a.len() {
        assert(x[i] == y[i]);
        assert(x[i] == ascii_lower_char(a[i]));
        assert(y[i] == ascii_lower_char(b[i]));
    }
    assert(ascii_lower(a).map_values(|c: char| ascii_lower_char(c)) =~= x);
}

/// Numbers are listed with commas between them.
pub proof fn law_lists_have_commas(numbers: Seq<nat>, n: nat)
    ensures
        csv(Seq::empty()) == Seq::<char>::empty(),
        csv(seq![n]) == decimal(n),
        numbers.len() > 0 ==> csv(numbers.push(n)) == csv(numbers) + ","@ + decimal(n),
{
    assert(numbers.push(n).drop_last() =~= numbers);
}

} // verus!
