//! Text handling that discovery and configuration share: searching a name
//! for a word, and reading hexadecimal numbers.

use vstd::prelude::*;
use vstd::string::StrSliceExecFns;

use crate::error::IntErrorKind;

verus! {

/// `needle` stands in `haystack`, starting at position `at`.
pub open spec fn occurs_at(needle: Seq<char>, haystack: Seq<char>, at: int) -> bool {
    0 <= at && at + needle.len() <= haystack.len() && haystack.subrange(
        at,
        at + needle.len() as int,
    ) == needle
}

/// `needle` stands somewhere in `haystack`.
pub open spec fn is_substring(needle: Seq<char>, haystack: Seq<char>) -> bool {
    exists|at: int| occurs_at(needle, haystack, at)
}

/// `text` begins with `prefix`.
pub open spec fn starts_with(text: Seq<char>, prefix: Seq<char>) -> bool {
    occurs_at(prefix, text, 0)
}

/// `text` without every leading repetition of `mark`.
pub open spec fn without_leading(text: Seq<char>, mark: Seq<char>) -> Seq<char>
    decreases text.len(),
{
    if mark.len() > 0 && starts_with(text, mark) {
        without_leading(text.skip(mark.len() as int), mark)
    } else {
        text
    }
}

/// The value of a hexadecimal digit, of either case.
pub open spec fn hex_digit(c: char) -> Option<int> {
    if '0' <= c <= '9' {
        Some(c as int - '0' as int)
    } else if 'a' <= c <= 'f' {
        Some(c as int - 'a' as int + 10)
    } else if 'A' <= c <= 'F' {
        Some(c as int - 'A' as int + 10)
    } else {
        None
    }
}

/// Every character of `digits` is a hexadecimal digit.
pub open spec fn all_hex(digits: Seq<char>) -> bool {
    forall|i: int| 0 <= i < digits.len() ==> (#[trigger] hex_digit(digits[i])) is Some
}

/// The number that a run of hexadecimal digits denotes, the first digit being
/// the most significant.
pub open spec fn hex_value(digits: Seq<char>) -> int
    decreases digits.len(),
{
    if digits.len() == 0 {
        0
    } else {
        16 * hex_value(digits.drop_last()) + match hex_digit(digits.last()) {
            Some(d) => d,
            None => 0,
        }
    }
}

/// Reading `digits` from the left on top of the number `so_far`, with `max`
/// as the largest number that can be held: the first character that is no
/// digit ends the reading with `InvalidDigit`, the first digit that takes the
/// number above `max` ends it with `PosOverflow`.
pub open spec fn read_hex_digits(digits: Seq<char>, so_far: int, max: int) -> Result<
    int,
    IntErrorKind,
>
    decreases digits.len(),
{
    if digits.len() == 0 {
        Ok(so_far)
    } else {
        match hex_digit(digits[0]) {
            None => Err(IntErrorKind::InvalidDigit),
            Some(d) => if 16 * so_far + d > max {
                Err(IntErrorKind::PosOverflow)
            } else {
                read_hex_digits(digits.skip(1), 16 * so_far + d, max)
            },
        }
    }
}

/// What a text reads as in base sixteen: an optional `+`, then one digit or
/// more, denoting a number of at most `max`.
pub open spec fn read_hex(text: Seq<char>, max: int) -> Result<int, IntErrorKind> {
    if text.len() == 0 {
        Err(IntErrorKind::Empty)
    } else {
        let digits = if text[0] == '+' {
            text.skip(1)
        } else {
            text
        };
        if digits.len() == 0 {
            Err(IntErrorKind::InvalidDigit)
        } else {
            read_hex_digits(digits, 0, max)
        }
    }
}

/// The characters of a text, one by one.
pub fn to_chars(text: &str) -> (chars: Vec<char>)
    ensures
        chars@ == text@,
{
    let len = text.unicode_len();
    let mut chars: Vec<char> = Vec::new();
    let mut i: usize = 0;
    while i < len
        invariant
            len == text@.len(),
            i <= len,
            chars@ == text@.take(i as int),
        decreases len - i,
    {
        chars.push(text.get_char(i));
        assert(text@.take(i + 1) == text@.take(i as int).push(text@[i as int]));
        i += 1;
    }
    assert(text@.take(len as int) == text@);
    chars
}

/// Whether two texts are the same, character by character.
pub fn same_text(a: &str, b: &str) -> (same: bool)
    ensures
        same == (a@ == b@),
{
    let left = to_chars(a);
    let right = to_chars(b);
    if left.len() != right.len() {
        return false;
    }
    let same = stands_at(&left, &right, 0);
    assert(right@.subrange(0, left@.len() as int) == right@);
    same
}

/// Whether `needle` stands in `haystack` at position `at`.
fn stands_at(needle: &Vec<char>, haystack: &Vec<char>, at: usize) -> (found: bool)
    requires
        at + needle@.len() <= haystack@.len(),
    ensures
        found == occurs_at(needle@, haystack@, at as int),
{
    let len = haystack.len();
    let mut i: usize = 0;
    while i < needle.len()
        invariant
            len == haystack@.len(),
            at + needle@.len() <= haystack@.len(),
            i <= needle@.len(),
            forall|j: int| 0 <= j < i ==> haystack@[at + j] == needle@[j],
        decreases needle@.len() - i,
    {
        if haystack[at + i] != needle[i] {
            assert(haystack@.subrange(at as int, at + needle@.len())[i as int] != needle@[i as int]);
            return false;
        }
        i += 1;
    }
    assert(haystack@.subrange(at as int, at + needle@.len()) == needle@);
    true
}

/// Whether `needle` stands somewhere in `haystack`, as a run of characters.
/// The empty text stands in every text.
pub fn contains(haystack: &str, needle: &str) -> (found: bool)
    ensures
        found == is_substring(needle@, haystack@),
{
    let hay = to_chars(haystack);
    let word = to_chars(needle);
    if word.len() > hay.len() {
        return false;
    }
    let last = hay.len() - word.len();
    let mut at: usize = 0;
    loop
        invariant
            hay@ == haystack@,
            word@ == needle@,
            last == hay@.len() - word@.len(),
            at <= last,
            forall|before: int| 0 <= before < at ==> !occurs_at(needle@, haystack@, before),
        decreases last - at,
    {
        if stands_at(&word, &hay, at) {
            return true;
        }
        if at == last {
            return false;
        }
        at += 1;
    }
}

/// Whether `text` begins with `prefix`.
fn begins_at(text: &Vec<char>, from: usize, prefix: &Vec<char>) -> (found: bool)
    requires
        from <= text@.len(),
    ensures
        found == starts_with(text@.skip(from as int), prefix@),
{
    if prefix.len() > text.len() - from {
        return false;
    }
    let found = stands_at(prefix, text, from);
    assert(text@.skip(from as int).subrange(0, prefix@.len() as int) == text@.subrange(
        from as int,
        from + prefix@.len(),
    ));
    found
}

/// The position in `text` at which what follows every leading repetition of
/// `mark` begins.
pub fn skip_leading(text: &Vec<char>, mark: &Vec<char>) -> (from: usize)
    ensures
        from <= text@.len(),
        text@.skip(from as int) == without_leading(text@, mark@),
{
    if mark.len() == 0 {
        assert(text@.skip(0) == text@);
        return 0;
    }
    let len = text.len();
    let mut from: usize = 0;
    assert(text@.skip(0) == text@);
    loop
        invariant
            len == text@.len(),
            mark@.len() > 0,
            from <= text@.len(),
            without_leading(text@.skip(from as int), mark@) == without_leading(text@, mark@),
        decreases text@.len() - from,
    {
        if !begins_at(text, from, mark) {
            return from;
        }
        assert(from + mark@.len() <= text@.len());
        assert(text@.skip(from as int).skip(mark@.len() as int) == text@.skip(from + mark@.len()));
        from += mark.len();
    }
}

/// The value of a hexadecimal digit, of either case.
pub fn hex_digit_of(c: char) -> (digit: Option<u8>)
    ensures
        digit is Some <==> hex_digit(c) is Some,
        digit matches Some(d) ==> hex_digit(c) == Some(d as int) && d < 16,
{
    if '0' <= c && c <= '9' {
        Some(((c as u32) - ('0' as u32)) as u8)
    } else if 'a' <= c && c <= 'f' {
        Some(((c as u32) - ('a' as u32) + 10) as u8)
    } else if 'A' <= c && c <= 'F' {
        Some(((c as u32) - ('A' as u32) + 10) as u8)
    } else {
        None
    }
}

/// Reads `text`, from position `from` on, as a number in base sixteen of at
/// most `max`: an optional `+`, then one digit or more, of either case.
pub fn parse_hex_from(text: &Vec<char>, from: usize, max: u32) -> (parsed: Result<
    u32,
    IntErrorKind,
>)
    requires
        from <= text@.len(),
    ensures
        parsed matches Ok(v) ==> v <= max && read_hex(text@.skip(from as int), max as int) == Ok::<
            int,
            IntErrorKind,
        >(v as int),
        parsed matches Err(e) ==> read_hex(text@.skip(from as int), max as int) == Err::<
            int,
            IntErrorKind,
        >(e),
{
    let ghost rest = text@.skip(from as int);
    if from == text.len() {
        return Err(IntErrorKind::Empty);
    }
    assert(rest[0] == text@[from as int]);
    let start = if text[from] == '+' {
        from + 1
    } else {
        from
    };
    let ghost digits = text@.skip(start as int);
    assert(digits == if rest[0] == '+' {
        rest.skip(1)
    } else {
        rest
    });
    if start == text.len() {
        return Err(IntErrorKind::InvalidDigit);
    }
    let mut value: u32 = 0;
    let mut i: usize = start;
    while i < text.len()
        invariant
            start <= i <= text@.len(),
            value <= max,
            read_hex(text@.skip(from as int), max as int) == read_hex_digits(digits, 0, max as int),
            read_hex_digits(text@.skip(i as int), value as int, max as int) == read_hex_digits(
                digits,
                0,
                max as int,
            ),
        decreases text@.len() - i,
    {
        let ghost tail = text@.skip(i as int);
        assert(tail[0] == text@[i as int]);
        assert(tail.skip(1) == text@.skip(i + 1));
        match hex_digit_of(text[i]) {
            None => {
                return Err(IntErrorKind::InvalidDigit);
            },
            Some(d) => {
                let next: u64 = 16 * (value as u64) + (d as u64);
                if next > max as u64 {
                    return Err(IntErrorKind::PosOverflow);
                }
                value = next as u32;
            },
        }
        i += 1;
    }
    Ok(value)
}

/// A text reads as a number exactly when it is an optional `+` followed by
/// one hexadecimal digit or more whose value is at most `max`, and it then
/// reads as that value.
pub proof fn lemma_read_hex_digits_value(digits: Seq<char>, max: int)
    requires
        0 <= max,
    ensures
        read_hex_digits(digits, 0, max) is Ok <==> all_hex(digits) && hex_value(digits) <= max,
        read_hex_digits(digits, 0, max) matches Ok(v) ==> v == hex_value(digits),
{
    lemma_read_hex_digits_from(Seq::empty(), digits, max);
    assert(Seq::<char>::empty() + digits == digits);
}

/// Reading on after a run of digits that was read without fault.
proof fn lemma_read_hex_digits_from(read: Seq<char>, rest: Seq<char>, max: int)
    requires
        0 <= max,
        all_hex(read),
        hex_value(read) <= max,
    ensures
        read_hex_digits(rest, hex_value(read), max) is Ok <==> all_hex(read + rest) && hex_value(
            read + rest,
        ) <= max,
        read_hex_digits(rest, hex_value(read), max) matches Ok(v) ==> v == hex_value(read + rest),
    decreases rest.len(),
{
    lemma_hex_value_grows(read, rest);
    if rest.len() == 0 {
        assert(read + rest == read);
    } else {
        let c = rest[0];
        let longer = read.push(c);
        assert(longer + rest.skip(1) == read + rest);
        assert((read + rest)[read.len() as int] == c);
        assert(longer.drop_last() == read);
        match hex_digit(c) {
            None => {},
            Some(d) => {
                assert(hex_value(longer) == 16 * hex_value(read) + d);
                lemma_hex_value_grows(longer, rest.skip(1));
                if hex_value(longer) <= max {
                    assert forall|i: int| 0 <= i < longer.len() implies (#[trigger] hex_digit(
                        longer[i],
                    )) is Some by {
                        if i < read.len() {
                            assert(longer[i] == read[i]);
                        }
                    }
                    lemma_read_hex_digits_from(longer, rest.skip(1), max);
                } else {
                }
            },
        }
        if all_hex(read + rest) {
            assert(hex_digit((read + rest)[read.len() as int]) is Some);
        }
    }
}

/// More digits never denote less: a run of digits is worth at least as much
/// as any of its beginnings.
proof fn lemma_hex_value_grows(read: Seq<char>, rest: Seq<char>)
    ensures
        0 <= hex_value(read) <= hex_value(read + rest),
    decreases rest.len(),
{
    lemma_hex_value_nonnegative(read);
    if rest.len() == 0 {
        assert(read + rest == read);
    } else {
        let whole = read + rest;
        assert(whole.drop_last() == read + rest.drop_last());
        lemma_hex_value_grows(read, rest.drop_last());
        lemma_hex_value_nonnegative(whole.drop_last());
    }
}

/// No run of digits denotes a negative number.
proof fn lemma_hex_value_nonnegative(digits: Seq<char>)
    ensures
        0 <= hex_value(digits),
    decreases digits.len(),
{
    if digits.len() > 0 {
        lemma_hex_value_nonnegative(digits.drop_last());
    }
}

} // verus!
