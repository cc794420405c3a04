//! What is promised of texts and of the numbers that they write.
use crate::order::Order;
use crate::text::{
    decimal, decimal_digits, digit, digits_value, lowercase, lowered, occurs_at, occurs_in,
    only_equal_texts_tie, parsed_u32, text_order, without_plus,
};
use vstd::prelude::*;

verus! {

/// One text comes before another: they agree up to a position, where the first one ends and the
/// other goes on, or where the first one's character is the smaller one.
pub open spec fn comes_before(a: Seq<char>, b: Seq<char>) -> bool {
    exists|k: int| #[trigger] differs_first_at(a, b, k)
}

/// The texts agree up to the position, and there the first one is the smaller one.
pub open spec fn differs_first_at(a: Seq<char>, b: Seq<char>, k: int) -> bool {
    &&& 0 <= k <= a.len()
    &&& k < b.len()
    &&& forall|j: int| 0 <= j < k ==> a[j] == #[trigger] b[j]
    &&& k == a.len() || a[k] < b[k]
}

/// The text in lowercase.
pub open spec fn in_lowercase(text: Seq<char>) -> Seq<char> {
    if text.len() == 0 {
        text
    } else {
        lowercase(text)
    }
}

/// One text stands between two others that make up the whole.
pub open spec fn is_part_of(part: Seq<char>, whole: Seq<char>) -> bool {
    exists|before: Seq<char>, after: Seq<char>| whole == #[trigger] (before + part + after)
}

/// Putting a text in lowercase asks for the lowercase form of the text as it stands.
pub proof fn lowered_texts_are_lowercase(text: Seq<char>)
    ensures
        lowered(text) == in_lowercase(text),
{
    if text.len() == 0 {
        assert(text =~= Seq::empty());
    }
}

proof fn lemma_less(a: Seq<char>, b: Seq<char>)
    ensures
        text_order(a, b) == Order::Less <==> comes_before(a, b),
    decreases a.len(),
{
    if a.len() == 0 {
        if b.len() > 0 {
            assert(differs_first_at(a, b, 0));
        }
    } else if b.len() > 0 {
        if a[0] < b[0] {
            assert(differs_first_at(a, b, 0));
        } else if a[0] == b[0] {
            let c = a.drop_first();
            let d = b.drop_first();
            lemma_less(c, d);
            if comes_before(c, d) {
                let k = choose|k: int| #[trigger] differs_first_at(c, d, k);
                assert forall|j: int| 0 <= j < k + 1 implies a[j] == #[trigger] b[j] by {
                    if j > 0 {
                        assert(a[j] == c[j - 1]);
                        assert(b[j] == d[j - 1]);
                    }
                }
                assert(differs_first_at(a, b, k + 1));
            }
            if comes_before(a, b) {
                let k = choose|k: int| #[trigger] differs_first_at(a, b, k);
                assert forall|j: int| 0 <= j < k - 1 implies c[j] == #[trigger] d[j] by {
                    assert(a[j + 1] == b[j + 1]);
                }
                assert(differs_first_at(c, d, k - 1));
            }
        } else if comes_before(a, b) {
            let k = choose|k: int| #[trigger] differs_first_at(a, b, k);
            assert(k == 0 || a[0] == b[0]);
        }
    }
}

proof fn lemma_opposite(a: Seq<char>, b: Seq<char>)
    ensures
        text_order(a, b) == Order::Greater <==> text_order(b, a) == Order::Less,
    decreases a.len(),
{
    if a.len() > 0 && b.len() > 0 && a[0] == b[0] {
        lemma_opposite(a.drop_first(), b.drop_first());
    }
}

/// Texts compare by the first character in which they differ. A text that goes on where another
/// ends comes after it.
pub proof fn texts_compare_by_their_first_difference(a: Seq<char>, b: Seq<char>)
    ensures
        text_order(a, b) == Order::Less <==> comes_before(a, b),
        text_order(a, b) == Order::Greater <==> comes_before(b, a),
        text_order(a, b) == Order::Equal <==> a == b,
        !(comes_before(a, b) && comes_before(b, a)),
        a == b <==> !comes_before(a, b) && !comes_before(b, a),
{
    lemma_less(a, b);
    lemma_less(b, a);
    lemma_opposite(a, b);
    only_equal_texts_tie(a, b);
}

/// A text is found in another exactly where it stands between two texts that make up the rest.
pub proof fn texts_are_found_between_the_rest(part: Seq<char>, whole: Seq<char>)
    ensures
        occurs_in(part, whole) <==> is_part_of(part, whole),
{
    if occurs_in(part, whole) {
        let start = choose|start: int| #[trigger] occurs_at(part, whole, start);
        let before = whole.take(start);
        let after = whole.skip(start + part.len());
        assert(whole.subrange(start, start + part.len()) == part);
        assert forall|j: int| 0 <= j < whole.len() implies whole[j] == (before + part + after)[j] by {
            if start <= j < start + part.len() {
                assert(part[j - start] == whole.subrange(start, start + part.len())[j - start]);
            }
        }
        assert(whole =~= before + part + after);
    }
    if is_part_of(part, whole) {
        let (before, after) = choose|before: Seq<char>, after: Seq<char>|
            whole == #[trigger] (before + part + after);
        let start = before.len() as int;
        assert(whole.subrange(start, start + part.len()) =~= part);
        assert(occurs_at(part, whole, start));
    }
}

/// A number below ten is written with one digit. Ten times a number and a digit more is written as
/// the number with the digit after it. A negative number is written with a sign before it.
pub proof fn numbers_are_written_digit_by_digit(number: nat, next: nat)
    requires
        next < 10,
    ensures
        number == 0 ==> decimal(next as int) == seq![(('0' as int) + next) as char],
        number > 0 ==> decimal((10 * number + next) as int) == decimal(number as int).push(
            (('0' as int) + next) as char,
        ),
        number > 0 ==> decimal(-(number as int)) == seq!['-'] + decimal(number as int),
{
    if number > 0 {
        assert((10 * number + next) / 10 == number);
        assert((10 * number + next) % 10 == next);
    }
}

proof fn lemma_digits_are_read_back(number: nat)
    ensures
        decimal_digits(number).len() > 0,
        digits_value(decimal_digits(number)) == Some(number),
        '0' <= decimal_digits(number)[0] <= '9',
    decreases number,
{
    reveal_with_fuel(digits_value, 2);
    if number < 10 {
        assert(decimal_digits(number) =~= seq![digit(number as int)]);
        assert(decimal_digits(number).drop_last() =~= Seq::empty());
    } else {
        lemma_digits_are_read_back(number / 10);
        let digits = decimal_digits(number);
        assert(digits.drop_last() =~= decimal_digits(number / 10));
        assert(digits.last() == digit((number % 10) as int));
    }
}

/// A number that is written is read back as the same number, with a plus sign before it or without.
pub proof fn written_numbers_are_read_back(number: u32)
    ensures
        parsed_u32(decimal(number as int)) == Some(number),
        parsed_u32(seq!['+'] + decimal(number as int)) == Some(number),
{
    lemma_digits_are_read_back(number as nat);
    let digits = decimal(number as int);
    let signed = seq!['+'] + digits;
    assert(without_plus(digits) == digits);
    assert(signed.drop_first() =~= digits);
}

/// A number is read one digit at a time. A digit after a number makes ten times the number and the
/// digit more, unless that is too large. A text with another character after it is no number, nor
/// is one without digits.
pub proof fn numbers_are_read_digit_by_digit(text: Seq<char>, next: char)
    ensures
        parsed_u32(Seq::empty()) is None,
        parsed_u32(seq!['+']) is None,
        '0' <= next <= '9' ==> parsed_u32(seq![next]) == Some((next as int - '0' as int) as u32),
        !('0' <= next <= '9') ==> text.len() > 0 ==> parsed_u32(text.push(next)) is None,
        !('0' <= next <= '9') ==> parsed_u32(seq![next]) is None,
        '0' <= next <= '9' && parsed_u32(text) is Some ==> {
            let number = 10 * parsed_u32(text)->0 + (next as int - '0' as int);
            &&& number <= u32::MAX ==> parsed_u32(text.push(next)) == Some(number as u32)
            &&& number > u32::MAX ==> parsed_u32(text.push(next)) is None
        },
        parsed_u32(text) is None && text.len() > 0 && text != seq!['+'] ==> parsed_u32(
            text.push(next),
        ) is None,
        '0' <= next <= '9' ==> parsed_u32(seq!['+', next]) == Some(
            (next as int - '0' as int) as u32,
        ),
{
    reveal_with_fuel(digits_value, 2);
    let one = seq![next];
    assert(one.drop_last() =~= Seq::empty());
    assert(seq!['+'].drop_first() =~= Seq::empty());
    assert(seq!['+', next].drop_first() =~= one);
    let longer = text.push(next);
    assert(longer.drop_last() =~= text);
    if text.len() > 0 {
        if text[0] == '+' {
            assert(longer.drop_first() =~= text.drop_first().push(next));
            assert(longer.drop_first().drop_last() =~= text.drop_first());
            if text.len() == 1 {
                assert(text =~= seq!['+']);
            }
        }
    }
}

} // verus!
