//! Text as sequences of characters: surrounding whitespace and decimal
//! numbers.

use vstd::prelude::*;

verus! {

/// `String::push`: appends one character to the end of the string.
pub assume_specification[ String::push ](text: &mut String, c: char)
    ensures
        final(text)@ == old(text)@.push(c),
;

/// The characters of `text`, in order.
pub fn chars_of(text: &str) -> (chars: Vec<char>)
    ensures
        chars@ == text@,
{
    let mut chars: Vec<char> = Vec::new();
    for c in it: text.chars()
        invariant
            it.seq() == text@,
            chars@ == text@.take(it.index() as int),
    {
        chars.push(c);
        assert(text@.take(it.index() + 1) =~= text@.take(it.index() as int).push(c));
    }
    assert(text@.take(text@.len() as int) =~= text@);
    chars
}

/// The text made of `chars`, in order.
pub fn text_of(chars: &Vec<char>) -> (text: String)
    ensures
        text@ == chars@,
{
    let mut text = String::new();
    let mut at: usize = 0;
    while at < chars.len()
        invariant
            at <= chars.len(),
            text@ == chars@.take(at as int),
        decreases chars.len() - at,
    {
        text.push(chars[at]);
        assert(chars@.take(at + 1) =~= chars@.take(at as int).push(chars@[at as int]));
        at = at + 1;
    }
    assert(chars@.take(chars@.len() as int) =~= chars@);
    text
}

/// Whether `chars` begins with `start`.
pub fn starts_with(chars: &Vec<char>, start: &Vec<char>) -> (yes: bool)
    ensures
        yes == start@.is_prefix_of(chars@),
{
    if start.len() > chars.len() {
        return false;
    }
    let mut at: usize = 0;
    while at < start.len()
        invariant
            at <= start.len() <= chars.len(),
            start@.take(at as int) =~= chars@.take(at as int),
        decreases start.len() - at,
    {
        if start[at] != chars[at] {
            assert(chars@.subrange(0, start@.len() as int)[at as int] != start@[at as int]);
            return false;
        }
        assert(start@.take(at + 1) =~= start@.take(at as int).push(start@[at as int]));
        assert(chars@.take(at + 1) =~= chars@.take(at as int).push(chars@[at as int]));
        at = at + 1;
    }
    assert(start@.take(start@.len() as int) =~= start@);
    true
}

/// The text made of `chars` from position `from` on.
pub fn text_from(chars: &Vec<char>, from: usize) -> (text: String)
    requires
        from <= chars.len(),
    ensures
        text@ == chars@.skip(from as int),
{
    let mut text = String::new();
    let mut at: usize = from;
    while at < chars.len()
        invariant
            from <= at <= chars.len(),
            text@ == chars@.subrange(from as int, at as int),
        decreases chars.len() - at,
    {
        text.push(chars[at]);
        assert(chars@.subrange(from as int, at + 1) =~= chars@.subrange(from as int, at as int).push(
            chars@[at as int],
        ));
        at = at + 1;
    }
    assert(chars@.subrange(from as int, chars@.len() as int) =~= chars@.skip(from as int));
    text
}

/// The characters with the Unicode property `White_Space`.
pub open spec fn is_whitespace(c: char) -> bool {
    let code = c as u32;
    ||| 0x09 <= code <= 0x0d
    ||| code == 0x20
    ||| code == 0x85
    ||| code == 0xa0
    ||| code == 0x1680
    ||| 0x2000 <= code <= 0x200a
    ||| code == 0x2028
    ||| code == 0x2029
    ||| code == 0x202f
    ||| code == 0x205f
    ||| code == 0x3000
}

/// Whether `c` is whitespace.
pub fn whitespace(c: char) -> (yes: bool)
    ensures
        yes == is_whitespace(c),
{
    let code: u32 = c as u32;
    (0x09 <= code && code <= 0x0d) || code == 0x20 || code == 0x85 || code == 0xa0 || code == 0x1680
        || (0x2000 <= code && code <= 0x200a) || code == 0x2028 || code == 0x2029 || code == 0x202f
        || code == 0x205f || code == 0x3000
}

/// `text` without the whitespace at its start.
pub open spec fn trim_start(text: Seq<char>) -> Seq<char>
    decreases text.len(),
{
    if text.len() > 0 && is_whitespace(text[0]) {
        trim_start(text.skip(1))
    } else {
        text
    }
}

/// `text` without the whitespace at its end.
pub open spec fn trim_end(text: Seq<char>) -> Seq<char>
    decreases text.len(),
{
    if text.len() > 0 && is_whitespace(text.last()) {
        trim_end(text.drop_last())
    } else {
        text
    }
}

/// `text` without the whitespace at either end.
pub open spec fn trimmed(text: Seq<char>) -> Seq<char> {
    trim_end(trim_start(text))
}

proof fn lemma_trim_start_from(text: Seq<char>, skipped: int)
    requires
        0 <= skipped <= text.len(),
        forall|i: int| 0 <= i < skipped ==> is_whitespace(#[trigger] text[i]),
    ensures
        trim_start(text) == trim_start(text.skip(skipped)),
    decreases skipped,
{
    if skipped > 0 {
        assert(text.skip(1).skip(skipped - 1) =~= text.skip(skipped));
        assert forall|i: int| 0 <= i < skipped - 1 implies is_whitespace(
            #[trigger] text.skip(1)[i],
        ) by {
            assert(text.skip(1)[i] == text[i + 1]);
        }
        lemma_trim_start_from(text.skip(1), skipped - 1);
    } else {
        assert(text.skip(0) =~= text);
    }
}

proof fn lemma_trim_end_to(text: Seq<char>, kept: int)
    requires
        0 <= kept <= text.len(),
        forall|i: int| kept <= i < text.len() ==> is_whitespace(#[trigger] text[i]),
    ensures
        trim_end(text) == trim_end(text.take(kept)),
    decreases text.len() - kept,
{
    if kept < text.len() {
        assert(text.drop_last().take(kept) =~= text.take(kept));
        lemma_trim_end_to(text.drop_last(), kept);
    } else {
        assert(text.take(kept) =~= text);
    }
}

/// Copies `chars` without the whitespace at either end.
pub fn trim(chars: &Vec<char>) -> (kept: Vec<char>)
    ensures
        kept@ == trimmed(chars@),
{
    let mut start: usize = 0;
    while start < chars.len() && whitespace(chars[start])
        invariant
            start <= chars.len(),
            forall|i: int| 0 <= i < start ==> is_whitespace(#[trigger] chars@[i]),
        decreases chars.len() - start,
    {
        start = start + 1;
    }
    let mut end: usize = chars.len();
    while end > start && whitespace(chars[end - 1])
        invariant
            start <= end <= chars.len(),
            forall|i: int| end <= i < chars.len() ==> is_whitespace(#[trigger] chars@[i]),
        decreases end - start,
    {
        end = end - 1;
    }
    let mut kept: Vec<char> = Vec::new();
    let mut at: usize = start;
    while at < end
        invariant
            start <= at <= end <= chars.len(),
            kept@ == chars@.subrange(start as int, at as int),
        decreases end - at,
    {
        kept.push(chars[at]);
        assert(chars@.subrange(start as int, at + 1) =~= chars@.subrange(
            start as int,
            at as int,
        ).push(chars@[at as int]));
        at = at + 1;
    }
    proof {
        let front = chars@.skip(start as int);
        lemma_trim_start_from(chars@, start as int);
        assert(trim_start(front) == front) by {
            if front.len() > 0 {
                assert(front[0] == chars@[start as int]);
            }
        }
        assert forall|i: int| end - start <= i < front.len() implies is_whitespace(
            #[trigger] front[i],
        ) by {
            assert(front[i] == chars@[i + start]);
        }
        lemma_trim_end_to(front, end - start);
        let middle = front.take(end - start);
        assert(middle =~= chars@.subrange(start as int, end as int));
        assert(trim_end(middle) == middle) by {
            if middle.len() > 0 {
                assert(middle.last() == chars@[end - 1]);
            }
        }
    }
    kept
}

/// The ten decimal digits.
pub open spec fn is_digit(c: char) -> bool {
    0x30 <= c as u32 <= 0x39
}

/// The number a digit stands for; 0 for any other character.
pub open spec fn digit_of(c: char) -> nat {
    if is_digit(c) {
        (c as u32 - 0x30) as nat
    } else {
        0
    }
}

/// Whether `text` holds digits only.
pub open spec fn all_digits(text: Seq<char>) -> bool {
    forall|i: int| 0 <= i < text.len() ==> is_digit(#[trigger] text[i])
}

/// The number that a run of digits writes in base ten.
pub open spec fn digits_value(text: Seq<char>) -> nat
    decreases text.len(),
{
    if text.len() == 0 {
        0
    } else {
        digits_value(text.drop_last()) * 10 + digit_of(text.last())
    }
}

/// The number written by `text`, where `text` is one digit or more and
/// nothing else.
pub open spec fn unsigned_decimal(text: Seq<char>) -> Option<nat> {
    if text.len() > 0 && all_digits(text) {
        Some(digits_value(text))
    } else {
        None
    }
}

/// The number written by `text`: an optional `+` or `-`, then one digit or
/// more, and nothing else.
pub open spec fn signed_decimal(text: Seq<char>) -> Option<int> {
    if text.len() > 0 && text[0] == '-' {
        match unsigned_decimal(text.skip(1)) {
            Some(magnitude) => Some(-(magnitude as int)),
            None => None,
        }
    } else if text.len() > 0 && text[0] == '+' {
        match unsigned_decimal(text.skip(1)) {
            Some(magnitude) => Some(magnitude as int),
            None => None,
        }
    } else {
        match unsigned_decimal(text) {
            Some(magnitude) => Some(magnitude as int),
            None => None,
        }
    }
}

/// The signed 64-bit number written by `text`, if it writes one.
pub open spec fn decimal_i64(text: Seq<char>) -> Option<i64> {
    match signed_decimal(text) {
        Some(value) => if i64::MIN <= value <= i64::MAX {
            Some(value as i64)
        } else {
            None
        },
        None => None,
    }
}

/// The unsigned 64-bit number written by `text`, if it writes one. A `+` may
/// stand in front, a `-` may not.
pub open spec fn decimal_u64(text: Seq<char>) -> Option<u64> {
    if text.len() > 0 && text[0] == '-' {
        None
    } else {
        match signed_decimal(text) {
            Some(value) => if value <= u64::MAX {
                Some(value as u64)
            } else {
                None
            },
            None => None,
        }
    }
}

/// A run of digits writes no less than any of its beginnings.
proof fn lemma_digits_value_grows(text: Seq<char>, prefix: int)
    requires
        0 <= prefix <= text.len(),
    ensures
        digits_value(text.take(prefix)) <= digits_value(text),
    decreases text.len(),
{
    if prefix == text.len() {
        assert(text.take(prefix) =~= text);
    } else {
        assert(text.drop_last().take(prefix) =~= text.take(prefix));
        lemma_digits_value_grows(text.drop_last(), prefix);
    }
}

/// Reads the digits of `chars` from `from` on as a number no greater than
/// `limit`.
fn read_magnitude(chars: &Vec<char>, from: usize, limit: u64) -> (read: Option<u64>)
    requires
        from <= chars.len(),
    ensures
        read == match unsigned_decimal(chars@.skip(from as int)) {
            Some(magnitude) => if magnitude <= limit {
                Some(magnitude as u64)
            } else {
                None
            },
            None => None,
        },
{
    let ghost digits = chars@.skip(from as int);
    if from == chars.len() {
        return None;
    }
    let mut value: u64 = 0;
    let mut at: usize = from;
    while at < chars.len()
        invariant
            from <= at <= chars.len(),
            digits == chars@.skip(from as int),
            all_digits(digits.take(at - from)),
            value == digits_value(digits.take(at - from)),
            value <= limit,
        decreases chars.len() - at,
    {
        let code: u32 = chars[at] as u32;
        assert(digits[at - from] == chars@[at as int]);
        if code < 0x30 || code > 0x39 {
            return None;
        }
        let digit: u64 = (code - 0x30) as u64;
        let next: u128 = value as u128 * 10 + digit as u128;
        proof {
            let longer = digits.take(at + 1 - from);
            assert(longer.drop_last() =~= digits.take(at - from));
            assert(longer.last() == chars@[at as int]);
            assert(digits_value(longer) == next);
            assert forall|i: int| 0 <= i < longer.len() implies is_digit(#[trigger] longer[i]) by {
                if i < at - from {
                    assert(digits.take(at - from)[i] == longer[i]);
                }
            }
            lemma_digits_value_grows(digits, at + 1 - from);
        }
        if next > limit as u128 {
            return None;
        }
        value = next as u64;
        at = at + 1;
    }
    assert(digits.take(at - from) =~= digits);
    Some(value)
}

/// Reads `chars` as a signed 64-bit number in base ten.
pub fn parse_i64(chars: &Vec<char>) -> (read: Option<i64>)
    ensures
        read == decimal_i64(chars@),
{
    if chars.len() == 0 {
        return None;
    }
    let first: char = chars[0];
    if first == '-' {
        match read_magnitude(chars, 1, 0x8000_0000_0000_0000) {
            Some(magnitude) => {
                if magnitude == 0x8000_0000_0000_0000 {
                    Some(i64::MIN)
                } else {
                    Some(-(magnitude as i64))
                }
            },
            None => None,
        }
    } else if first == '+' {
        match read_magnitude(chars, 1, 0x7fff_ffff_ffff_ffff) {
            Some(magnitude) => Some(magnitude as i64),
            None => None,
        }
    } else {
        assert(chars@.skip(0) =~= chars@);
        match read_magnitude(chars, 0, 0x7fff_ffff_ffff_ffff) {
            Some(magnitude) => Some(magnitude as i64),
            None => None,
        }
    }
}

/// Reads `chars` as an unsigned 64-bit number in base ten.
pub fn parse_u64(chars: &Vec<char>) -> (read: Option<u64>)
    ensures
        read == decimal_u64(chars@),
{
    if chars.len() == 0 {
        return None;
    }
    let first: char = chars[0];
    if first == '-' {
        None
    } else if first == '+' {
        read_magnitude(chars, 1, 0xffff_ffff_ffff_ffff)
    } else {
        assert(chars@.skip(0) =~= chars@);
        read_magnitude(chars, 0, 0xffff_ffff_ffff_ffff)
    }
}

/// The digit that writes a number below ten.
pub open spec fn digit_char(digit: nat) -> char {
    (0x30 + digit) as char
}

/// `number` in base ten, without leading zeros.
pub open spec fn digits_text(number: nat) -> Seq<char>
    decreases number,
{
    if number < 10 {
        seq![digit_char(number)]
    } else {
        digits_text(number / 10).push(digit_char(number % 10))
    }
}

/// `value` in base ten, with a `-` in front where it is negative.
pub open spec fn decimal_text(value: int) -> Seq<char> {
    if value < 0 {
        seq!['-'] + digits_text((-value) as nat)
    } else {
        digits_text(value as nat)
    }
}

/// The digits of `number`, the last one first.
spec fn digits_backwards(number: nat) -> Seq<char>
    decreases number,
{
    if number < 10 {
        seq![digit_char(number)]
    } else {
        seq![digit_char(number % 10)] + digits_backwards(number / 10)
    }
}

proof fn lemma_digits_backwards(number: nat)
    ensures
        digits_backwards(number).len() == digits_text(number).len(),
        forall|i: int|
            0 <= i < digits_text(number).len() ==> #[trigger] digits_text(number)[i]
                == digits_backwards(number)[digits_text(number).len() - 1 - i],
    decreases number,
{
    if number >= 10 {
        lemma_digits_backwards(number / 10);
    }
}

/// Appends `number` in base ten to `text`.
pub fn push_digits(text: &mut String, number: u64)
    ensures
        final(text)@ == old(text)@ + digits_text(number as nat),
{
    let mut backwards: Vec<char> = Vec::new();
    backwards.push(((0x30 + number % 10) as u8) as char);
    let mut rest: u64 = number / 10;
    while rest > 0
        invariant
            digits_backwards(number as nat) == if rest > 0 {
                backwards@ + digits_backwards(rest as nat)
            } else {
                backwards@
            },
            backwards@.len() > 0,
        decreases rest,
    {
        let ghost before = backwards@;
        backwards.push(((0x30 + rest % 10) as u8) as char);
        proof {
            if rest >= 10 {
                assert(before + (seq![digit_char((rest % 10) as nat)] + digits_backwards(
                    (rest / 10) as nat,
                )) =~= backwards@ + digits_backwards((rest / 10) as nat));
            } else {
                assert(before + seq![digit_char(rest as nat)] =~= backwards@);
            }
        }
        rest = rest / 10;
    }
    proof {
        lemma_digits_backwards(number as nat);
    }
    let ghost forwards = digits_text(number as nat);
    let mut left: usize = backwards.len();
    while left > 0
        invariant
            left <= backwards@.len(),
            backwards@.len() == forwards.len(),
            forall|i: int|
                0 <= i < forwards.len() ==> #[trigger] forwards[i] == backwards@[forwards.len() - 1
                    - i],
            text@ == old(text)@ + forwards.take(forwards.len() - left),
        decreases left,
    {
        left = left - 1;
        text.push(backwards[left]);
        assert(forwards.take(forwards.len() - left) =~= forwards.take(
            forwards.len() - left - 1,
        ).push(forwards[forwards.len() - left - 1]));
        assert(old(text)@ + forwards.take(forwards.len() - left) =~= (old(text)@ + forwards.take(
            forwards.len() - left - 1,
        )).push(backwards@[left as int]));
    }
    assert(forwards.take(forwards.len() as int) =~= forwards);
}

/// Writes `value` in base ten.
pub fn format_u64(value: u64) -> (text: String)
    ensures
        text@ == decimal_text(value as int),
{
    let mut text = String::new();
    push_digits(&mut text, value);
    assert(Seq::<char>::empty() + digits_text(value as nat) =~= digits_text(value as nat));
    text
}

/// Writes `value` in base ten, with a `-` in front where it is negative.
pub fn format_i64(value: i64) -> (text: String)
    ensures
        text@ == decimal_text(value as int),
{
    let mut text = String::new();
    if value < 0 {
        text.push('-');
        let magnitude: u64 = if value == i64::MIN {
            0x8000_0000_0000_0000
        } else {
            (-value) as u64
        };
        push_digits(&mut text, magnitude);
        assert(Seq::<char>::empty().push('-') =~= seq!['-']);
    } else {
        push_digits(&mut text, value as u64);
        assert(Seq::<char>::empty() + digits_text(value as nat) =~= digits_text(value as nat));
    }
    text
}

} // verus!
