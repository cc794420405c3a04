//! Comparing, searching and reading text.
use crate::order::{total_preorder, Comparison, Order};
use vstd::prelude::*;

verus! {

/// What [`str::to_lowercase`] makes of a text: its characters' lowercase forms by Unicode's
/// tables, which are the same for every caller.
pub uninterp spec fn lowercase(text: Seq<char>) -> Seq<char>;

/// Calls [`str::to_lowercase`]. Of the result is claimed that the text alone decides it, and that
/// it is empty where the text is.
#[verifier::external_body]
fn to_lowercase(text: &str) -> (lower: String)
    ensures
        lower@ == lowercase(text@),
        text@.len() == 0 ==> lower@.len() == 0,
{
    text.to_lowercase()
}

/// The text in lowercase. The empty text stays empty.
pub open spec fn lowered(text: Seq<char>) -> Seq<char> {
    if text.len() == 0 {
        Seq::empty()
    } else {
        lowercase(text)
    }
}

/// The text in lowercase.
pub fn lower(text: &str) -> (lower: String)
    ensures
        lower@ == lowered(text@),
{
    let lower = to_lowercase(text);
    assert(text@.len() == 0 ==> lower@ =~= Seq::empty());
    lower
}

/// The characters of a text, one by one.
pub fn characters(text: &str) -> (list: Vec<char>)
    ensures
        list@ == text@,
{
    let mut list: Vec<char> = Vec::new();
    for c in iter: text.chars()
        invariant
            list@ =~= iter.seq().take(iter.index() as int),
            iter.seq() == text@,
    {
        list.push(c);
    }
    list
}

/// Compares texts by the code points of their characters, from the first difference on.
pub open spec fn text_order(a: Seq<char>, b: Seq<char>) -> Order
    decreases a.len(),
{
    if a.len() == 0 && b.len() == 0 {
        Order::Equal
    } else if a.len() == 0 {
        Order::Less
    } else if b.len() == 0 {
        Order::Greater
    } else if a[0] < b[0] {
        Order::Less
    } else if a[0] > b[0] {
        Order::Greater
    } else {
        text_order(a.drop_first(), b.drop_first())
    }
}

/// [`text_order`] as a comparison.
pub open spec fn by_text() -> Comparison<Seq<char>> {
    |a: Seq<char>, b: Seq<char>| text_order(a, b)
}

/// Two texts tie only where they are the same.
pub proof fn only_equal_texts_tie(a: Seq<char>, b: Seq<char>)
    ensures
        text_order(a, b) == Order::Equal <==> a == b,
    decreases a.len(),
{
    if a.len() > 0 && b.len() > 0 {
        only_equal_texts_tie(a.drop_first(), b.drop_first());
        if a[0] == b[0] && a.drop_first() == b.drop_first() {
            assert(a =~= seq![a[0]] + a.drop_first());
            assert(b =~= seq![b[0]] + b.drop_first());
        }
    } else if a.len() == 0 && b.len() == 0 {
        assert(a =~= b);
    }
}

proof fn lemma_text_order_reverses(a: Seq<char>, b: Seq<char>)
    ensures
        text_order(a, b) == text_order(b, a).spec_reverse(),
    decreases a.len(),
{
    if a.len() > 0 && b.len() > 0 {
        lemma_text_order_reverses(a.drop_first(), b.drop_first());
    }
}

proof fn lemma_text_order_is_transitive(a: Seq<char>, b: Seq<char>, c: Seq<char>)
    requires
        text_order(a, b) != Order::Greater,
        text_order(b, c) != Order::Greater,
    ensures
        text_order(a, c) != Order::Greater,
    decreases a.len(),
{
    if a.len() > 0 && b.len() > 0 && c.len() > 0 && a[0] == b[0] && b[0] == c[0] {
        lemma_text_order_is_transitive(a.drop_first(), b.drop_first(), c.drop_first());
    }
}

/// The comparison of texts is a total preorder.
pub proof fn by_text_is_total_preorder()
    ensures
        total_preorder(by_text()),
{
    reveal(total_preorder);
    let order = by_text();
    assert forall|a: Seq<char>, b: Seq<char>| #[trigger]
        order(a, b) == order(b, a).spec_reverse() by {
        lemma_text_order_reverses(a, b);
    }
    assert forall|a: Seq<char>, b: Seq<char>, c: Seq<char>| #[trigger]
        order(a, b) != Order::Greater && #[trigger] order(b, c) != Order::Greater implies order(
        a,
        c,
    ) != Order::Greater by {
        lemma_text_order_is_transitive(a, b, c);
    }
}

/// Compares two texts.
pub fn compare_text(a: &str, b: &str) -> (result: Order)
    ensures
        result == text_order(a@, b@),
{
    let left = characters(a);
    let right = characters(b);
    let mut i: usize = 0;
    assert(left@.skip(0) =~= a@);
    assert(right@.skip(0) =~= b@);
    while i < left.len() && i < right.len()
        invariant
            i <= left@.len(),
            i <= right@.len(),
            text_order(a@, b@) == text_order(left@.skip(i as int), right@.skip(i as int)),
        decreases left@.len() - i,
    {
        if left[i] < right[i] {
            return Order::Less;
        }
        if left[i] > right[i] {
            return Order::Greater;
        }
        assert(left@.skip(i as int).drop_first() =~= left@.skip(i + 1));
        assert(right@.skip(i as int).drop_first() =~= right@.skip(i + 1));
        i = i + 1;
    }
    if i < left.len() {
        Order::Greater
    } else if i < right.len() {
        Order::Less
    } else {
        Order::Equal
    }
}

/// The needle occurs in the text, its characters side by side.
pub open spec fn occurs_in(needle: Seq<char>, text: Seq<char>) -> bool {
    exists|start: int| #[trigger] occurs_at(needle, text, start)
}

/// The needle occurs in the text from the given position on.
pub open spec fn occurs_at(needle: Seq<char>, text: Seq<char>, start: int) -> bool {
    &&& 0 <= start <= text.len() - needle.len()
    &&& text.subrange(start, start + needle.len()) == needle
}

/// Whether the needle occurs in the text.
#[verifier::loop_isolation(false)]
pub fn contains_text(text: &str, needle: &str) -> (found: bool)
    ensures
        found == occurs_in(needle@, text@),
{
    let text = characters(text);
    let needle = characters(needle);
    if needle.len() > text.len() {
        return false;
    }
    let last: usize = text.len() - needle.len();
    let mut start: usize = 0;
    while start <= last
        invariant
            last == text@.len() - needle@.len(),
            start <= last + 1,
            forall|s: int| 0 <= s < start ==> !#[trigger] occurs_at(needle@, text@, s),
        decreases last + 1 - start,
    {
        let mut i: usize = 0;
        while i < needle.len() && text[start + i] == needle[i]
            invariant
                last == text@.len() - needle@.len(),
                start <= last,
                i <= needle@.len(),
                forall|j: int| 0 <= j < i ==> text@[start + j] == needle@[j],
            decreases needle@.len() - i,
        {
            i = i + 1;
        }
        if i == needle.len() {
            assert(text@.subrange(start as int, start + needle@.len()) =~= needle@);
            assert(occurs_at(needle@, text@, start as int));
            return true;
        }
        assert(!occurs_at(needle@, text@, start as int)) by {
            if occurs_at(needle@, text@, start as int) {
                assert(text@.subrange(start as int, start + needle@.len())[i as int] == needle@[i as int]);
            }
        }
        if start == last {
            return false;
        }
        start = start + 1;
    }
    false
}

/// The digit's character.
pub open spec fn digit(value: int) -> char {
    (('0' as int) + value) as char
}

/// The decimal digits of a natural number, without leading zeros.
pub open spec fn decimal_digits(value: nat) -> Seq<char>
    decreases value,
{
    if value < 10 {
        seq![digit(value as int)]
    } else {
        decimal_digits(value / 10).push(digit((value % 10) as int))
    }
}

/// A number in decimal notation, with a sign only where it is negative.
pub open spec fn decimal(value: int) -> Seq<char> {
    if value < 0 {
        seq!['-'] + decimal_digits((-value) as nat)
    } else {
        decimal_digits(value as nat)
    }
}

fn digit_character(value: u32) -> (c: char)
    requires
        value < 10,
    ensures
        c == digit(value as int),
{
    match value {
        0 => '0',
        1 => '1',
        2 => '2',
        3 => '3',
        4 => '4',
        5 => '5',
        6 => '6',
        7 => '7',
        8 => '8',
        _ => '9',
    }
}

fn decimal_digits_of(value: u32) -> (digits: Vec<char>)
    ensures
        digits@ == decimal_digits(value as nat),
    decreases value,
{
    if value < 10 {
        let mut digits: Vec<char> = Vec::new();
        digits.push(digit_character(value));
        assert(digits@ =~= decimal_digits(value as nat));
        digits
    } else {
        let mut digits = decimal_digits_of(value / 10);
        digits.push(digit_character(value % 10));
        digits
    }
}

/// Whether the text is the decimal notation of the number.
#[verifier::loop_isolation(false)]
pub fn is_decimal_of(value: i32, text: &str) -> (same: bool)
    ensures
        same == (decimal(value as int) == text@),
{
    let wide: i64 = value as i64;
    let magnitude: u32 = if wide < 0 { (0 - wide) as u32 } else { wide as u32 };
    let digits = decimal_digits_of(magnitude);
    let characters = characters(text);
    let offset: usize = if value < 0 { 1 } else { 0 };
    if characters.len() < offset || characters.len() - offset != digits.len() {
        return false;
    }
    if value < 0 && characters[0] != '-' {
        assert(decimal(value as int)[0] == '-');
        return false;
    }
    let mut i: usize = 0;
    while i < digits.len()
        invariant
            i <= digits@.len(),
            characters@.len() == digits@.len() + offset,
            forall|j: int| 0 <= j < i ==> characters@[j + offset] == digits@[j],
        decreases digits@.len() - i,
    {
        if characters[i + offset] != digits[i] {
            assert(decimal(value as int)[i + offset] == digits@[i as int]);
            return false;
        }
        i = i + 1;
    }
    assert(decimal(value as int) =~= text@) by {
        assert forall|k: int| 0 <= k < text@.len() implies decimal(value as int)[k] == text@[k] by {
            if k >= offset {
                assert(characters@[(k - offset) + offset] == digits@[k - offset]);
            }
        }
    }
    true
}

/// The number that a sequence of decimal digits writes, if all characters are digits.
pub open spec fn digits_value(digits: Seq<char>) -> Option<nat>
    decreases digits.len(),
{
    if digits.len() == 0 {
        Some(0)
    } else {
        match digits_value(digits.drop_last()) {
            Some(value) => if '0' <= digits.last() <= '9' {
                Some((value * 10 + (digits.last() as int - '0' as int)) as nat)
            } else {
                None
            },
            None => None,
        }
    }
}

/// The text without the plus sign that it may start with.
pub open spec fn without_plus(text: Seq<char>) -> Seq<char> {
    if text.len() > 0 && text[0] == '+' {
        text.drop_first()
    } else {
        text
    }
}

/// The number that a text writes: digits, at least one, with an optional plus sign before them,
/// and no more than fits.
pub open spec fn parsed_u32(text: Seq<char>) -> Option<u32> {
    let digits = without_plus(text);
    match digits_value(digits) {
        Some(value) => if digits.len() > 0 && value <= u32::MAX {
            Some(value as u32)
        } else {
            None
        },
        None => None,
    }
}

proof fn lemma_longer_digits_are_worth_more(digits: Seq<char>, length: int)
    requires
        0 <= length <= digits.len(),
    ensures
        digits_value(digits) is Some ==> digits_value(digits.take(length)) is Some && digits_value(
            digits,
        )->0 >= digits_value(digits.take(length))->0,
    decreases digits.len(),
{
    if length < digits.len() {
        lemma_longer_digits_are_worth_more(digits.drop_last(), length);
        assert(digits.drop_last().take(length) =~= digits.take(length));
    } else {
        assert(digits.take(length) =~= digits);
    }
}

/// Reads a number.
pub fn parse_u32(text: &str) -> (number: Option<u32>)
    ensures
        number == parsed_u32(text@),
{
    let characters = characters(text);
    let start: usize = if characters.len() > 0 && characters[0] == '+' { 1 } else { 0 };
    let ghost digits = without_plus(text@);
    assert(digits =~= characters@.skip(start as int));
    if start == characters.len() {
        return None;
    }
    let mut value: u32 = 0;
    let mut i: usize = start;
    assert(digits.take(0) =~= Seq::empty());
    while i < characters.len()
        invariant
            start <= i <= characters@.len(),
            digits == characters@.skip(start as int),
            digits == without_plus(text@),
            digits.len() > 0,
            digits_value(digits.take(i - start)) == Some(value as nat),
        decreases characters@.len() - i,
    {
        let c = characters[i];
        proof {
            assert(digits.take(i + 1 - start).drop_last() =~= digits.take(i - start));
            assert(digits.take(i + 1 - start).last() == c);
            lemma_longer_digits_are_worth_more(digits, i + 1 - start);
        }
        if c < '0' || c > '9' {
            return None;
        }
        let added: u32 = c as u32 - '0' as u32;
        match value.checked_mul(10) {
            Some(tens) => match tens.checked_add(added) {
                Some(sum) => {
                    value = sum;
                },
                None => {
                    return None;
                },
            },
            None => {
                return None;
            },
        }
        i = i + 1;
    }
    assert(digits.take(i - start) =~= digits);
    Some(value)
}

} // verus!
