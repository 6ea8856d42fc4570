//! Looking into messages: beginnings, endings and decimal numbers in byte strings.

use vstd::prelude::*;

verus! {

/// Whether a byte is an ASCII digit.
pub open spec fn is_digit(byte: u8) -> bool {
    48 <= byte <= 57
}

/// The number that a run of digits writes.
pub open spec fn decimal(digits: Seq<u8>) -> nat
    decreases digits.len(),
{
    if digits.len() == 0 {
        0
    } else {
        decimal(digits.drop_last()) * 10 + (digits.last() - 48) as nat
    }
}

/// How many digits a text begins with.
pub open spec fn digits_len(text: Seq<u8>) -> nat
    decreases text.len(),
{
    if text.len() == 0 || !is_digit(text[0]) {
        0
    } else {
        1 + digits_len(text.drop_first())
    }
}

/// The number that the digits at the beginning of a text write; zero where there are none.
pub open spec fn leading_number(text: Seq<u8>) -> nat {
    decimal(text.take(digits_len(text) as int))
}

/// The digits of a number that may carry a plus sign.
pub open spec fn unsigned_body(text: Seq<u8>) -> Seq<u8> {
    if text.len() > 0 && text[0] == 43 {
        text.drop_first()
    } else {
        text
    }
}

/// The number that a whole text writes: digits, at least one, behind an optional plus sign.
pub open spec fn parsed(text: Seq<u8>) -> Option<nat> {
    let body = unsigned_body(text);
    if body.len() > 0 && (forall|i: int| 0 <= i < body.len() ==> is_digit(#[trigger] body[i])) {
        Some(decimal(body))
    } else {
        None
    }
}

/// Whether a text holds three zeros in a row.
pub open spec fn has_three_zeros(text: Seq<u8>) -> bool {
    exists|i: int|
        0 <= i && i + 3 <= text.len() && #[trigger] text[i] == 48 && text[i + 1] == 48 && text[i
            + 2] == 48
}

/// Reading on never makes the number smaller.
proof fn lemma_decimal_grows(digits: Seq<u8>, shorter: int, longer: int)
    requires
        0 <= shorter <= longer <= digits.len(),
        forall|i: int| 0 <= i < digits.len() ==> is_digit(#[trigger] digits[i]),
    ensures
        decimal(digits.take(shorter)) <= decimal(digits.take(longer)),
    decreases longer - shorter,
{
    if shorter < longer {
        lemma_decimal_grows(digits, shorter, longer - 1);
        assert(digits.take(longer).drop_last() =~= digits.take(longer - 1));
    }
}

/// The digits at the beginning are digits, and no more follow.
pub(crate) proof fn lemma_digits_len(text: Seq<u8>, n: int)
    requires
        0 <= n <= text.len(),
        forall|i: int| 0 <= i < n ==> is_digit(#[trigger] text[i]),
        n == text.len() || !is_digit(text[n]),
    ensures
        digits_len(text) == n,
    decreases n,
{
    if n > 0 {
        assert forall|i: int| 0 <= i < n - 1 implies is_digit(#[trigger] text.drop_first()[i]) by {
            assert(is_digit(text[i + 1]));
        }
        assert(is_digit(text[0]));
        lemma_digits_len(text.drop_first(), n - 1);
    }
}

proof fn lemma_digits_len_covers(text: Seq<u8>, n: int)
    requires
        0 <= n <= text.len(),
        forall|i: int| 0 <= i < n ==> is_digit(#[trigger] text[i]),
    ensures
        n <= digits_len(text) <= text.len(),
        forall|i: int| 0 <= i < digits_len(text) ==> is_digit(#[trigger] text[i]),
    decreases text.len(),
{
    if text.len() > 0 && is_digit(text[0]) {
        let rest = text.drop_first();
        let m: int = if n > 0 {
            n - 1
        } else {
            0
        };
        assert forall|i: int| 0 <= i < m implies is_digit(#[trigger] rest[i]) by {
            assert(is_digit(text[i + 1]));
        }
        lemma_digits_len_covers(rest, m);
        assert forall|i: int| 0 <= i < digits_len(text) implies is_digit(#[trigger] text[i]) by {
            if i > 0 {
                assert(is_digit(rest[i - 1]));
            }
        }
    } else if n > 0 {
        assert(is_digit(text[0]));
    }
}

/// Whether `text` begins with `prefix`.
pub fn starts_with(text: &[u8], prefix: &[u8]) -> (yes: bool)
    ensures
        yes == prefix@.is_prefix_of(text@),
{
    if text.len() < prefix.len() {
        return false;
    }
    let mut i: usize = 0;
    while i < prefix.len()
        invariant
            i <= prefix.len() <= text.len(),
            forall|j: int| 0 <= j < i ==> text@[j] == prefix@[j],
        decreases prefix.len() - i,
    {
        if text[i] != prefix[i] {
            assert(text@.subrange(0, prefix.len() as int)[i as int] == text@[i as int]);
            return false;
        }
        i = i + 1;
    }
    assert(prefix@ =~= text@.subrange(0, prefix.len() as int));
    true
}

/// Whether `text` ends with `suffix`.
pub fn ends_with(text: &[u8], suffix: &[u8]) -> (yes: bool)
    ensures
        yes == suffix@.is_suffix_of(text@),
{
    if text.len() < suffix.len() {
        return false;
    }
    let start: usize = text.len() - suffix.len();
    let mut i: usize = 0;
    while i < suffix.len()
        invariant
            i <= suffix.len() <= text.len(),
            start == text.len() - suffix.len(),
            forall|j: int| 0 <= j < i ==> text@[start + j] == suffix@[j],
        decreases suffix.len() - i,
    {
        if text[start + i] != suffix[i] {
            assert(text@.subrange(start as int, text.len() as int)[i as int] == text@[start + i]);
            return false;
        }
        i = i + 1;
    }
    assert(suffix@ =~= text@.subrange(start as int, text.len() as int));
    true
}

/// What follows `prefix` in a text that begins with it.
pub fn strip_prefix<'a>(text: &'a [u8], prefix: &[u8]) -> (rest: Option<&'a [u8]>)
    ensures
        match rest {
            Some(bytes) => prefix@.is_prefix_of(text@) && bytes@ == text@.skip(
                prefix@.len() as int,
            ),
            None => !prefix@.is_prefix_of(text@),
        },
{
    if starts_with(text, prefix) {
        Some(vstd::slice::slice_subrange(text, prefix.len(), text.len()))
    } else {
        None
    }
}

/// The number that the digits at the beginning of `text` write.
pub fn read_leading_number(text: &[u8]) -> (number: u64)
    requires
        leading_number(text@) <= u64::MAX,
    ensures
        number == leading_number(text@),
{
    let mut number: u64 = 0;
    let mut i: usize = 0;
    while i < text.len() && 48 <= text[i] && text[i] <= 57
        invariant
            i <= text.len(),
            forall|j: int| 0 <= j < i ==> is_digit(#[trigger] text@[j]),
            number == decimal(text@.take(i as int)),
            leading_number(text@) <= u64::MAX,
        decreases text.len() - i,
    {
        proof {
            let digits = text@.take(digits_len(text@) as int);
            lemma_digits_len_covers(text@, i + 1);
            lemma_decimal_grows(digits, i + 1, digits.len() as int);
            assert(digits.take(digits.len() as int) =~= digits);
            assert(digits.take(i + 1) =~= text@.take(i + 1));
            assert(text@.take(i + 1).drop_last() =~= text@.take(i as int));
        }
        number = number * 10 + (text[i] - 48) as u64;
        i = i + 1;
    }
    proof {
        lemma_digits_len(text@, i as int);
    }
    number
}

/// The number up to `max` that the whole of `text` writes.
pub fn parse_up_to(text: &[u8], max: u64) -> (number: Option<u64>)
    ensures
        match number {
            Some(n) => n <= max && parsed(text@) == Some(n as nat),
            None => parsed(text@) matches Some(n) ==> n > max,
        },
{
    let start: usize = if text.len() > 0 && text[0] == 43 {
        1
    } else {
        0
    };
    let ghost body = unsigned_body(text@);
    assert(body.len() == text.len() - start);
    assert(forall|j: int| 0 <= j < body.len() ==> #[trigger] body[j] == text@[start + j]);
    if start == text.len() {
        return None;
    }
    let mut number: u64 = 0;
    let mut i: usize = start;
    while i < text.len()
        invariant
            start <= i <= text.len(),
            body.len() == text.len() - start,
            body == unsigned_body(text@),
            forall|j: int| 0 <= j < body.len() ==> #[trigger] body[j] == text@[start + j],
            forall|j: int| 0 <= j < i - start ==> is_digit(#[trigger] body[j]),
            number == decimal(body.take(i - start)),
            number <= max,
        decreases text.len() - i,
    {
        let byte: u8 = text[i];
        assert(body[i - start] == byte);
        if byte < 48 || byte > 57 {
            return None;
        }
        assert(body.take(i - start + 1).drop_last() =~= body.take(i - start));
        let next: u128 = number as u128 * 10 + (byte - 48) as u128;
        assert(next == decimal(body.take(i - start + 1)));
        if next > max as u128 {
            proof {
                if parsed(text@) is Some {
                    lemma_decimal_grows(body, i - start + 1, body.len() as int);
                    assert(body.take(body.len() as int) =~= body);
                }
            }
            return None;
        }
        number = next as u64;
        i = i + 1;
    }
    assert(body.take(body.len() as int) =~= body);
    Some(number)
}

/// Whether `text` holds three zeros in a row.
pub fn find_three_zeros(text: &[u8]) -> (found: bool)
    ensures
        found == has_three_zeros(text@),
{
    if text.len() < 3 {
        return false;
    }
    let last: usize = text.len() - 3;
    let mut i: usize = 0;
    while i <= last
        invariant
            last == text.len() - 3,
            i <= last + 1,
            forall|j: int|
                0 <= j < i ==> !(#[trigger] text@[j] == 48 && text@[j + 1] == 48 && text@[j + 2]
                    == 48),
        decreases last + 1 - i,
    {
        if text[i] == 48 && text[i + 1] == 48 && text[i + 2] == 48 {
            assert(text@[i as int] == 48);
            return true;
        }
        i = i + 1;
    }
    false
}

} // verus!
