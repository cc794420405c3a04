//! Comparison results, the laws a comparison must obey, and stable sorting.
use crate::list::{drain, Condition};
use std::collections::VecDeque;
use vstd::prelude::*;

verus! {

/// How one value stands to another.
#[derive(Debug, Clone, Copy, PartialEq, Eq, Structural)]
pub enum Order {
    Less,
    Equal,
    Greater,
}

impl Order {
    pub open spec fn spec_reverse(self) -> Order {
        match self {
            Order::Less => Order::Greater,
            Order::Equal => Order::Equal,
            Order::Greater => Order::Less,
        }
    }

    /// The result of the opposite comparison.
    pub fn reverse(self) -> (opposite: Order)
        ensures
            opposite == self.spec_reverse(),
    {
        match self {
            Order::Less => Order::Greater,
            Order::Equal => Order::Equal,
            Order::Greater => Order::Less,
        }
    }

    pub open spec fn spec_or_else(self, tie_break: Order) -> Order {
        match self {
            Order::Equal => tie_break,
            _ => self,
        }
    }

    /// This result, or the tie break where this result is a tie.
    pub fn or_else(self, tie_break: Order) -> (result: Order)
        ensures
            result == self.spec_or_else(tie_break),
    {
        match self {
            Order::Equal => tie_break,
            _ => self,
        }
    }
}

/// A comparison of two values.
pub type Comparison<V> = spec_fn(V, V) -> Order;

/// Swapping the operands of the comparison reverses its result, and the comparison is transitive.
#[verifier::opaque]
pub open spec fn total_preorder<V>(order: Comparison<V>) -> bool {
    &&& forall|a: V, b: V| #[trigger] order(a, b) == order(b, a).spec_reverse()
    &&& forall|a: V, b: V, c: V| #[trigger]
        order(a, b) != Order::Greater && #[trigger] order(b, c) != Order::Greater ==> order(a, c)
            != Order::Greater
}

/// Compares integers by size.
pub open spec fn by_size() -> Comparison<int> {
    |a: int, b: int|
        if a < b {
            Order::Less
        } else if a == b {
            Order::Equal
        } else {
            Order::Greater
        }
}

/// Compares values by a key.
pub open spec fn by_key<V, K>(key: spec_fn(V) -> K, order: Comparison<K>) -> Comparison<V> {
    |a: V, b: V| order(key(a), key(b))
}

/// The opposite comparison.
pub open spec fn reversed<V>(order: Comparison<V>) -> Comparison<V> {
    |a: V, b: V| order(a, b).spec_reverse()
}

/// The first comparison, with the second one as its tie break.
pub open spec fn chained<V>(first: Comparison<V>, second: Comparison<V>) -> Comparison<V> {
    |a: V, b: V| first(a, b).spec_or_else(second(a, b))
}

/// Compares optional values: a missing value comes before a present one.
pub open spec fn optional<V>(order: Comparison<V>) -> Comparison<Option<V>> {
    |a: Option<V>, b: Option<V>|
        match (a, b) {
            (None, None) => Order::Equal,
            (None, Some(_)) => Order::Less,
            (Some(_), None) => Order::Greater,
            (Some(x), Some(y)) => order(x, y),
        }
}

/// Comparison by size is a total preorder.
pub proof fn by_size_is_total_preorder()
    ensures
        total_preorder(by_size()),
{
    reveal(total_preorder);
}

/// Comparison by a key is a total preorder where the comparison of the keys is one.
pub proof fn by_key_is_total_preorder<V, K>(key: spec_fn(V) -> K, order: Comparison<K>)
    requires
        total_preorder(order),
    ensures
        total_preorder(by_key(key, order)),
{
    reveal(total_preorder);
    let keyed = by_key(key, order);
    assert forall|a: V, b: V| #[trigger] keyed(a, b) == keyed(b, a).spec_reverse() by {
        assert(order(key(a), key(b)) == order(key(b), key(a)).spec_reverse());
    }
    assert forall|a: V, b: V, c: V| #[trigger]
        keyed(a, b) != Order::Greater && #[trigger] keyed(b, c) != Order::Greater implies keyed(
        a,
        c,
    ) != Order::Greater by {
        assert(order(key(a), key(b)) != Order::Greater);
        assert(order(key(b), key(c)) != Order::Greater);
    }
}

/// The opposite of a total preorder is a total preorder.
pub proof fn reversed_is_total_preorder<V>(order: Comparison<V>)
    requires
        total_preorder(order),
    ensures
        total_preorder(reversed(order)),
{
    reveal(total_preorder);
    let opposite = reversed(order);
    assert forall|a: V, b: V| #[trigger] opposite(a, b) == opposite(b, a).spec_reverse() by {
        assert(order(a, b) == order(b, a).spec_reverse());
    }
    assert forall|a: V, b: V, c: V| #[trigger]
        opposite(a, b) != Order::Greater && #[trigger] opposite(b, c)
            != Order::Greater implies opposite(a, c) != Order::Greater by {
        assert(order(b, a) == order(a, b).spec_reverse());
        assert(order(c, b) == order(b, c).spec_reverse());
        assert(order(c, a) != Order::Greater);
        assert(order(a, c) == order(c, a).spec_reverse());
    }
}

/// A total preorder whose ties another total preorder breaks is a total preorder.
pub proof fn chained_is_total_preorder<V>(first: Comparison<V>, second: Comparison<V>)
    requires
        total_preorder(first),
        total_preorder(second),
    ensures
        total_preorder(chained(first, second)),
{
    reveal(total_preorder);
    let both = chained(first, second);
    assert forall|a: V, b: V| #[trigger] both(a, b) == both(b, a).spec_reverse() by {
        assert(first(a, b) == first(b, a).spec_reverse());
        assert(second(a, b) == second(b, a).spec_reverse());
    }
    assert forall|a: V, b: V, c: V| #[trigger]
        both(a, b) != Order::Greater && #[trigger] both(b, c) != Order::Greater implies both(a, c)
        != Order::Greater by {
        assert(first(a, b) != Order::Greater && first(b, c) != Order::Greater);
        assert(first(a, c) != Order::Greater);
        if first(a, c) == Order::Equal {
            assert(first(c, a) == first(a, c).spec_reverse());
            assert(first(b, a) != Order::Greater);
            assert(first(a, b) == first(b, a).spec_reverse());
            assert(first(c, b) != Order::Greater);
            assert(first(b, c) == first(c, b).spec_reverse());
            assert(second(a, b) != Order::Greater && second(b, c) != Order::Greater);
            assert(second(a, c) != Order::Greater);
        }
    }
}

/// Comparison of optional values is a total preorder where that of the values is one.
pub proof fn optional_is_total_preorder<V>(order: Comparison<V>)
    requires
        total_preorder(order),
    ensures
        total_preorder(optional(order)),
{
    reveal(total_preorder);
    let lifted = optional(order);
    assert forall|a: Option<V>, b: Option<V>| #[trigger]
        lifted(a, b) == lifted(b, a).spec_reverse() by {
        if let (Some(x), Some(y)) = (a, b) {
            assert(order(x, y) == order(y, x).spec_reverse());
        }
    }
    assert forall|a: Option<V>, b: Option<V>, c: Option<V>| #[trigger]
        lifted(a, b) != Order::Greater && #[trigger] lifted(b, c) != Order::Greater implies lifted(
        a,
        c,
    ) != Order::Greater by {
        if let (Some(x), Some(y), Some(z)) = (a, b, c) {
            assert(order(x, y) != Order::Greater && order(y, z) != Order::Greater);
        }
    }
}

/// The sequence with the value put in before the first element that is greater than it.
pub open spec fn insert_sorted<V>(sorted: Seq<V>, value: V, order: Comparison<V>) -> Seq<V>
    decreases sorted.len(),
{
    if sorted.len() == 0 {
        seq![value]
    } else if order(sorted[0], value) == Order::Greater {
        seq![value] + sorted
    } else {
        seq![sorted[0]] + insert_sorted(sorted.drop_first(), value, order)
    }
}

/// The sequence in ascending order, with elements that tie left in the order they had.
pub open spec fn stable_sort<V>(values: Seq<V>, order: Comparison<V>) -> Seq<V>
    decreases values.len(),
{
    if values.len() == 0 {
        Seq::empty()
    } else {
        insert_sorted(stable_sort(values.drop_last(), order), values.last(), order)
    }
}

/// The two sequences merged: the next element comes from the left where it is not the greater one.
pub open spec fn merge_sorted<V>(left: Seq<V>, right: Seq<V>, order: Comparison<V>) -> Seq<V>
    decreases left.len() + right.len(),
{
    if left.len() == 0 {
        right
    } else if right.len() == 0 {
        left
    } else if order(left[0], right[0]) != Order::Greater {
        seq![left[0]] + merge_sorted(left.drop_first(), right, order)
    } else {
        seq![right[0]] + merge_sorted(left, right.drop_first(), order)
    }
}

proof fn lemma_insert_into_merged<V>(
    left: Seq<V>,
    right: Seq<V>,
    value: V,
    order: Comparison<V>,
)
    requires
        total_preorder(order),
    ensures
        insert_sorted(merge_sorted(left, right, order), value, order) == merge_sorted(
            left,
            insert_sorted(right, value, order),
            order,
        ),
    decreases left.len() + right.len(),
{
    reveal(total_preorder);
    let merged = merge_sorted(left, right, order);
    let inserted = insert_sorted(right, value, order);
    if left.len() == 0 {
    } else if right.len() == 0 {
        lemma_insert_into_merged(left.drop_first(), right, value, order);
        assert(inserted.drop_first() == Seq::<V>::empty());
        assert(merge_sorted(left.drop_first(), right, order) == left.drop_first());
        assert(order(left[0], value) != Order::Greater || merge_sorted(
            left,
            Seq::<V>::empty(),
            order,
        ) == left);
    } else if order(left[0], right[0]) != Order::Greater {
        let rest = merge_sorted(left.drop_first(), right, order);
        assert(merged.drop_first() == rest);
        lemma_insert_into_merged(left.drop_first(), right, value, order);
        if order(left[0], value) == Order::Greater {
            assert(order(right[0], value) == Order::Greater) by {
                if order(right[0], value) != Order::Greater {
                    assert(order(left[0], value) != Order::Greater);
                }
            }
            assert(inserted.drop_first() == right);
        } else {
            assert(order(left[0], inserted[0]) != Order::Greater);
        }
    } else {
        let rest = merge_sorted(left, right.drop_first(), order);
        assert(merged.drop_first() == rest);
        lemma_insert_into_merged(left, right.drop_first(), value, order);
        if order(right[0], value) == Order::Greater {
            assert(order(left[0], value) == Order::Greater) by {
                assert(order(left[0], right[0]) == order(right[0], left[0]).spec_reverse());
                if order(left[0], value) != Order::Greater {
                    assert(order(right[0], left[0]) != Order::Greater);
                    assert(order(right[0], value) != Order::Greater);
                }
            }
            assert(inserted.drop_first() == right);
        } else {
            assert(inserted.drop_first() == insert_sorted(right.drop_first(), value, order));
        }
    }
}

/// Sorting two parts and merging them sorts the whole.
pub proof fn merging_sorted_parts_sorts_the_whole<V>(
    left: Seq<V>,
    right: Seq<V>,
    order: Comparison<V>,
)
    requires
        total_preorder(order),
    ensures
        stable_sort(left + right, order) == merge_sorted(
            stable_sort(left, order),
            stable_sort(right, order),
            order,
        ),
    decreases right.len(),
{
    if right.len() == 0 {
        assert(left + right == left);
        assert(merge_sorted(stable_sort(left, order), Seq::empty(), order) == stable_sort(
            left,
            order,
        ));
    } else {
        assert((left + right).drop_last() == left + right.drop_last());
        merging_sorted_parts_sorts_the_whole(left, right.drop_last(), order);
        lemma_insert_into_merged(
            stable_sort(left, order),
            stable_sort(right.drop_last(), order),
            right.last(),
            order,
        );
    }
}

/// The values are in ascending order.
pub open spec fn ascending<V>(values: Seq<V>, order: Comparison<V>) -> bool {
    forall|i: int, j: int|
        0 <= i < j < values.len() ==> #[trigger] order(values[i], values[j]) != Order::Greater
}

/// Tying with the value.
pub open spec fn ties_with<V>(value: V, order: Comparison<V>) -> Condition<V> {
    |other: V| order(other, value) == Order::Equal
}

spec fn insert_position<V>(sorted: Seq<V>, value: V, order: Comparison<V>) -> int
    decreases sorted.len(),
{
    if sorted.len() == 0 || order(sorted[0], value) == Order::Greater {
        0
    } else {
        1 + insert_position(sorted.drop_first(), value, order)
    }
}

proof fn lemma_insert_position<V>(sorted: Seq<V>, value: V, order: Comparison<V>)
    ensures
        0 <= insert_position(sorted, value, order) <= sorted.len(),
        insert_sorted(sorted, value, order) == sorted.take(insert_position(sorted, value, order))
            + seq![value] + sorted.skip(insert_position(sorted, value, order)),
        forall|i: int|
            0 <= i < insert_position(sorted, value, order) ==> #[trigger] order(sorted[i], value)
                != Order::Greater,
        insert_position(sorted, value, order) < sorted.len() ==> order(
            sorted[insert_position(sorted, value, order)],
            value,
        ) == Order::Greater,
    decreases sorted.len(),
{
    let position = insert_position(sorted, value, order);
    if sorted.len() == 0 || order(sorted[0], value) == Order::Greater {
        assert(insert_sorted(sorted, value, order) =~= sorted.take(position) + seq![value]
            + sorted.skip(position));
    } else {
        let rest = sorted.drop_first();
        lemma_insert_position(rest, value, order);
        assert(sorted.take(position) =~= seq![sorted[0]] + rest.take(position - 1));
        assert(sorted.skip(position) =~= rest.skip(position - 1));
        assert(insert_sorted(sorted, value, order) =~= sorted.take(position) + seq![value]
            + sorted.skip(position));
        assert forall|i: int| 0 <= i < position implies #[trigger] order(sorted[i], value)
            != Order::Greater by {
            if i > 0 {
                assert(rest[i - 1] == sorted[i]);
            }
        }
    }
}

proof fn lemma_insert_keeps_ascending<V>(sorted: Seq<V>, value: V, order: Comparison<V>)
    requires
        total_preorder(order),
        ascending(sorted, order),
    ensures
        ascending(insert_sorted(sorted, value, order), order),
{
    reveal(total_preorder);
    lemma_insert_position(sorted, value, order);
    let position = insert_position(sorted, value, order);
    let inserted = insert_sorted(sorted, value, order);
    assert forall|i: int, j: int| 0 <= i < j < inserted.len() implies #[trigger] order(
        inserted[i],
        inserted[j],
    ) != Order::Greater by {
        if j < position {
            assert(order(sorted[i], sorted[j]) != Order::Greater);
        } else if j == position {
        } else {
            assert(inserted[j] == sorted[j - 1]);
            if i < position {
                assert(order(sorted[i], sorted[j - 1]) != Order::Greater);
            } else if i == position {
                assert(order(value, sorted[position]) == order(
                    sorted[position],
                    value,
                ).spec_reverse());
                if position < j - 1 {
                    assert(order(sorted[position], sorted[j - 1]) != Order::Greater);
                }
            } else {
                assert(order(sorted[i - 1], sorted[j - 1]) != Order::Greater);
            }
        }
    }
}

/// Sorting brings values in ascending order.
pub proof fn sorted_values_ascend<V>(values: Seq<V>, order: Comparison<V>)
    requires
        total_preorder(order),
    ensures
        ascending(stable_sort(values, order), order),
    decreases values.len(),
{
    if values.len() > 0 {
        sorted_values_ascend(values.drop_last(), order);
        lemma_insert_keeps_ascending(
            stable_sort(values.drop_last(), order),
            values.last(),
            order,
        );
    }
}

/// Sorting neither adds nor loses a value.
pub proof fn sorting_keeps_every_value<V>(values: Seq<V>, order: Comparison<V>)
    ensures
        stable_sort(values, order).to_multiset() == values.to_multiset(),
        stable_sort(values, order).len() == values.len(),
    decreases values.len(),
{
    if values.len() > 0 {
        let rest = stable_sort(values.drop_last(), order);
        let value = values.last();
        sorting_keeps_every_value(values.drop_last(), order);
        lemma_insert_position(rest, value, order);
        let position = insert_position(rest, value, order);
        let head = rest.take(position);
        let tail = rest.skip(position);
        vstd::seq_lib::lemma_multiset_commutative(head + seq![value], tail);
        vstd::seq_lib::lemma_multiset_commutative(head, seq![value]);
        vstd::seq_lib::lemma_multiset_commutative(head, tail);
        assert(rest =~= head + tail);
        vstd::seq_lib::lemma_multiset_commutative(values.drop_last(), seq![value]);
        assert(values =~= values.drop_last() + seq![value]);
        assert(stable_sort(values, order).to_multiset() =~= values.to_multiset());
    } else {
        assert(values =~= Seq::empty());
    }
}

/// Sorting leaves values that tie with one another in the order they had.
pub proof fn sorting_keeps_the_order_of_ties<V>(values: Seq<V>, order: Comparison<V>, value: V)
    requires
        total_preorder(order),
    ensures
        stable_sort(values, order).filter(ties_with(value, order)) == values.filter(
            ties_with(value, order),
        ),
    decreases values.len(),
{
    let tied = ties_with(value, order);
    if values.len() > 0 {
        let rest = stable_sort(values.drop_last(), order);
        let last = values.last();
        sorting_keeps_the_order_of_ties(values.drop_last(), order, value);
        sorted_values_ascend(values.drop_last(), order);
        lemma_insert_position(rest, last, order);
        let position = insert_position(rest, last, order);
        let head = rest.take(position);
        let tail = rest.skip(position);
        Seq::filter_distributes_over_add(head + seq![last], tail, tied);
        Seq::filter_distributes_over_add(head, seq![last], tied);
        Seq::filter_distributes_over_add(head, tail, tied);
        assert(rest =~= head + tail);
        assert(values =~= values.drop_last() + seq![last]);
        Seq::filter_distributes_over_add(values.drop_last(), seq![last], tied);
        if tied(last) {
            assert(tail.filter(tied).len() == 0) by {
                if tail.filter(tied).len() > 0 {
                    reveal(total_preorder);
                    lemma_filtered_value_is_in(tail, tied);
                    let i = choose|i: int| 0 <= i < tail.len() && tied(#[trigger] tail[i]);
                    assert(tail[i] == rest[position + i]);
                    if i > 0 {
                        assert(order(rest[position], rest[position + i]) != Order::Greater);
                    }
                    assert(order(last, value) == order(value, last).spec_reverse());
                    assert(order(rest[position + i], last) != Order::Greater);
                    assert(order(rest[position], last) != Order::Greater);
                }
            }
            assert(tail.filter(tied) =~= Seq::empty());
            assert(stable_sort(values, order).filter(tied) =~= values.filter(tied));
        } else {
            reveal(Seq::filter);
            assert(seq![last].drop_last().filter(tied) =~= Seq::empty());
            assert(seq![last].filter(tied) =~= Seq::empty());
            assert(stable_sort(values, order).filter(tied) =~= values.filter(tied));
        }
    } else {
        assert(values =~= Seq::empty());
    }
}

proof fn lemma_filtered_value_is_in<V>(values: Seq<V>, condition: Condition<V>)
    requires
        values.filter(condition).len() > 0,
    ensures
        exists|i: int| 0 <= i < values.len() && condition(#[trigger] values[i]),
    decreases values.len(),
{
    reveal(Seq::filter);
    if values.len() > 0 {
        if condition(values.last()) {
            assert(condition(values[values.len() - 1]));
        } else {
            lemma_filtered_value_is_in(values.drop_last(), condition);
            let i = choose|i: int|
                0 <= i < values.drop_last().len() && condition(#[trigger] values.drop_last()[i]);
            assert(condition(values[i]));
        }
    }
}

/// Sorting leaves values as they are that ascend already.
pub proof fn sorting_leaves_ascending_values<V>(values: Seq<V>, order: Comparison<V>)
    requires
        ascending(values, order),
    ensures
        stable_sort(values, order) == values,
    decreases values.len(),
{
    if values.len() > 0 {
        let rest = values.drop_last();
        assert forall|i: int, j: int| 0 <= i < j < rest.len() implies #[trigger] order(
            rest[i],
            rest[j],
        ) != Order::Greater by {
            assert(order(values[i], values[j]) != Order::Greater);
        }
        sorting_leaves_ascending_values(rest, order);
        lemma_insert_position(rest, values.last(), order);
        let position = insert_position(rest, values.last(), order);
        if position < rest.len() {
            assert(order(values[position], values[values.len() - 1]) != Order::Greater);
        }
        assert(stable_sort(values, order) =~= values);
    } else {
        assert(values =~= Seq::empty());
    }
}

/// Sorting a second time changes nothing.
pub proof fn sorting_is_idempotent<V>(values: Seq<V>, order: Comparison<V>)
    requires
        total_preorder(order),
    ensures
        stable_sort(stable_sort(values, order), order) == stable_sort(values, order),
{
    sorted_values_ascend(values, order);
    sorting_leaves_ascending_values(stable_sort(values, order), order);
}

/// Sorting keeps what is in a list and what is not.
pub proof fn sorting_keeps_membership<V>(values: Seq<V>, order: Comparison<V>, value: V)
    ensures
        stable_sort(values, order).contains(value) <==> values.contains(value),
{
    sorting_keeps_every_value(values, order);
    values.to_multiset_ensures();
    stable_sort(values, order).to_multiset_ensures();
    assert(values.to_multiset().count(value) == stable_sort(values, order).to_multiset().count(
        value,
    ));
}

/// Sorting a list in which nothing occurs twice gives such a list.
pub proof fn sorting_adds_no_repeats<V>(values: Seq<V>, order: Comparison<V>)
    requires
        values.no_duplicates(),
    ensures
        stable_sort(values, order).no_duplicates(),
{
    sorting_keeps_every_value(values, order);
    values.lemma_multiset_has_no_duplicates();
    stable_sort(values, order).lemma_multiset_has_no_duplicates_conv();
}

/// No two of the values tie.
pub open spec fn without_ties<V>(values: Seq<V>, order: Comparison<V>) -> bool {
    forall|i: int, j: int|
        0 <= i < values.len() && 0 <= j < values.len() && i != j ==> #[trigger] order(
            values[i],
            values[j],
        ) != Order::Equal
}

/// The comparisons agree on every two of the values.
pub open spec fn agree_on<V>(values: Seq<V>, a: Comparison<V>, b: Comparison<V>) -> bool {
    forall|i: int, j: int|
        0 <= i < values.len() && 0 <= j < values.len() && i != j ==> #[trigger] a(
            values[i],
            values[j],
        ) == b(values[i], values[j])
}

proof fn lemma_insert_agrees<V>(sorted: Seq<V>, value: V, a: Comparison<V>, b: Comparison<V>)
    requires
        forall|i: int| 0 <= i < sorted.len() ==> a(#[trigger] sorted[i], value) == b(sorted[i], value),
    ensures
        insert_sorted(sorted, value, a) == insert_sorted(sorted, value, b),
    decreases sorted.len(),
{
    if sorted.len() > 0 {
        let rest = sorted.drop_first();
        assert forall|i: int| 0 <= i < rest.len() implies a(#[trigger] rest[i], value) == b(
            rest[i],
            value,
        ) by {
            assert(rest[i] == sorted[i + 1]);
        }
        assert(a(sorted[0], value) == b(sorted[0], value));
        lemma_insert_agrees(rest, value, a, b);
    }
}

/// Comparisons that agree on the values sort them alike.
pub proof fn comparisons_that_agree_sort_alike<V>(
    values: Seq<V>,
    a: Comparison<V>,
    b: Comparison<V>,
)
    requires
        agree_on(values, a, b),
    ensures
        stable_sort(values, a) == stable_sort(values, b),
    decreases values.len(),
{
    if values.len() > 0 {
        let rest = values.drop_last();
        let last = values.last();
        assert forall|i: int, j: int|
            0 <= i < rest.len() && 0 <= j < rest.len() && i != j implies #[trigger] a(
            rest[i],
            rest[j],
        ) == b(rest[i], rest[j]) by {
            assert(a(values[i], values[j]) == b(values[i], values[j]));
        }
        comparisons_that_agree_sort_alike(rest, a, b);
        let sorted = stable_sort(rest, a);
        assert forall|k: int| 0 <= k < sorted.len() implies a(#[trigger] sorted[k], last) == b(
            sorted[k],
            last,
        ) by {
            assert(sorted.contains(sorted[k]));
            sorting_keeps_membership(rest, a, sorted[k]);
            let i = choose|i: int| 0 <= i < rest.len() && rest[i] == sorted[k];
            assert(a(values[i], values[values.len() - 1]) == b(
                values[i],
                values[values.len() - 1],
            ));
        }
        lemma_insert_agrees(sorted, last, a, b);
    }
}

/// A tie break does not matter where nothing ties.
pub proof fn tie_breaks_are_for_ties<V>(
    values: Seq<V>,
    order: Comparison<V>,
    tie_break: Comparison<V>,
)
    requires
        without_ties(values, order),
    ensures
        stable_sort(values, chained(order, tie_break)) == stable_sort(values, order),
{
    let both = chained(order, tie_break);
    assert forall|i: int, j: int|
        0 <= i < values.len() && 0 <= j < values.len() && i != j implies #[trigger] both(
        values[i],
        values[j],
    ) == order(values[i], values[j]) by {
        assert(order(values[i], values[j]) != Order::Equal);
    }
    comparisons_that_agree_sort_alike(values, both, order);
}

proof fn lemma_insert_in_reverse<V>(sorted: Seq<V>, value: V, order: Comparison<V>)
    requires
        total_preorder(order),
        ascending(sorted, order),
        forall|i: int|
            0 <= i < sorted.len() ==> order(#[trigger] sorted[i], value) != Order::Equal,
    ensures
        insert_sorted(sorted.reverse(), value, reversed(order)) == insert_sorted(
            sorted,
            value,
            order,
        ).reverse(),
{
    reveal(total_preorder);
    let opposite = reversed(order);
    let backwards = sorted.reverse();
    lemma_insert_position(sorted, value, order);
    lemma_insert_position(backwards, value, opposite);
    let position = insert_position(sorted, value, order);
    let other = insert_position(backwards, value, opposite);
    let length = sorted.len() as int;
    assert forall|i: int| position <= i < length implies order(#[trigger] sorted[i], value)
        == Order::Greater by {
        if i > position {
            assert(order(sorted[position], sorted[i]) != Order::Greater);
            if order(sorted[i], value) != Order::Greater {
                assert(order(sorted[position], value) != Order::Greater);
            }
        }
    }
    assert(other == length - position) by {
        if other < length - position {
            assert(backwards[other] == sorted[length - 1 - other]);
            assert(order(sorted[length - 1 - other], value) == Order::Greater);
            assert(opposite(backwards[other], value) == Order::Greater);
        }
        if other > length - position {
            let i = length - position;
            assert(backwards[i] == sorted[position - 1]);
            assert(order(sorted[position - 1], value) != Order::Greater);
            assert(opposite(backwards[i], value) != Order::Greater);
        }
    }
    assert(insert_sorted(backwards, value, opposite) =~= insert_sorted(
        sorted,
        value,
        order,
    ).reverse());
}

/// Where nothing ties, sorting by the opposite comparison gives the opposite order.
pub proof fn untied_values_sort_in_reverse<V>(values: Seq<V>, order: Comparison<V>)
    requires
        total_preorder(order),
        without_ties(values, order),
    ensures
        stable_sort(values, reversed(order)) == stable_sort(values, order).reverse(),
    decreases values.len(),
{
    if values.len() > 0 {
        let rest = values.drop_last();
        let last = values.last();
        assert forall|i: int, j: int|
            0 <= i < rest.len() && 0 <= j < rest.len() && i != j implies #[trigger] order(
            rest[i],
            rest[j],
        ) != Order::Equal by {
            assert(order(values[i], values[j]) != Order::Equal);
        }
        untied_values_sort_in_reverse(rest, order);
        sorted_values_ascend(rest, order);
        let sorted = stable_sort(rest, order);
        assert forall|k: int| 0 <= k < sorted.len() implies order(#[trigger] sorted[k], last)
            != Order::Equal by {
            assert(sorted.contains(sorted[k]));
            sorting_keeps_membership(rest, order, sorted[k]);
            let i = choose|i: int| 0 <= i < rest.len() && rest[i] == sorted[k];
            assert(order(values[i], values[values.len() - 1]) != Order::Equal);
        }
        lemma_insert_in_reverse(sorted, last, order);
    } else {
        assert(stable_sort(values, reversed(order)) =~= stable_sort(values, order).reverse());
    }
}

/// A comparison that can be run.
pub trait Comparator<T: DeepView>: Sized {
    /// What the comparison is, over the values that the compared items stand for.
    spec fn order(&self) -> Comparison<T::V>;

    /// The comparison is a total preorder.
    proof fn order_is_total_preorder(&self)
        ensures
            total_preorder(self.order()),
    ;

    /// Compares two items.
    fn compare(&self, a: &T, b: &T) -> (result: Order)
        ensures
            result == (self.order())(a.deep_view(), b.deep_view()),
    ;
}

/// What the items of a queue stand for.
pub open spec fn values_of<T: DeepView>(items: Seq<T>) -> Seq<T::V> {
    Seq::new(items.len(), |i: int| items[i].deep_view())
}

fn merge<T: DeepView, C: Comparator<T>>(
    left: VecDeque<T>,
    right: VecDeque<T>,
    comparator: &C,
) -> (merged: VecDeque<T>)
    ensures
        values_of(merged@) == merge_sorted(
            values_of(left@),
            values_of(right@),
            comparator.order(),
        ),
{
    let ghost whole = merge_sorted(values_of(left@), values_of(right@), comparator.order());
    let mut left = left;
    let mut right = right;
    let mut merged: VecDeque<T> = VecDeque::new();
    assert(whole =~= values_of(merged@) + whole);
    while left.len() > 0 && right.len() > 0
        invariant
            whole == values_of(merged@) + merge_sorted(
                values_of(left@),
                values_of(right@),
                comparator.order(),
            ),
        decreases left@.len() + right@.len(),
    {
        let ghost merged_before = merged@;
        let ghost left_before = left@;
        let ghost right_before = right@;
        let order = comparator.compare(&left[0], &right[0]);
        if order == Order::Greater {
            if let Some(item) = right.pop_front() {
                merged.push_back(item);
                proof {
                    assert(values_of(right@) =~= values_of(right_before).drop_first());
                    assert(values_of(merged@) =~= values_of(merged_before) + seq![
                        values_of(right_before)[0],
                    ]);
                    assert(whole =~= values_of(merged@) + merge_sorted(
                        values_of(left@),
                        values_of(right@),
                        comparator.order(),
                    ));
                }
            }
        } else {
            if let Some(item) = left.pop_front() {
                merged.push_back(item);
                proof {
                    assert(values_of(left@) =~= values_of(left_before).drop_first());
                    assert(values_of(merged@) =~= values_of(merged_before) + seq![
                        values_of(left_before)[0],
                    ]);
                    assert(whole =~= values_of(merged@) + merge_sorted(
                        values_of(left@),
                        values_of(right@),
                        comparator.order(),
                    ));
                }
            }
        }
    }
    let ghost merged_before = merged@;
    let ghost left_before = left@;
    let ghost right_before = right@;
    merged.append(&mut left);
    merged.append(&mut right);
    proof {
        assert(values_of(merged@) =~= values_of(merged_before) + merge_sorted(
            values_of(left_before),
            values_of(right_before),
            comparator.order(),
        ));
    }
    merged
}

fn merge_sort<T: DeepView, C: Comparator<T>>(items: VecDeque<T>, comparator: &C) -> (sorted: VecDeque<
    T,
>)
    ensures
        values_of(sorted@) == stable_sort(values_of(items@), comparator.order()),
    decreases items@.len(),
{
    let ghost order = comparator.order();
    if items.len() < 2 {
        proof {
            if items@.len() == 1 {
                assert(values_of(items@).drop_last() =~= Seq::empty());
                assert(stable_sort(values_of(items@).drop_last(), order) == Seq::<T::V>::empty());
                assert(values_of(items@) =~= seq![values_of(items@).last()]);
            } else {
                assert(values_of(items@) =~= Seq::empty());
            }
        }
        return items;
    }
    let ghost before = items@;
    let mut left = items;
    let middle: usize = left.len() / 2;
    let right = left.split_off(middle);
    proof {
        assert(values_of(before) =~= values_of(left@) + values_of(right@));
        comparator.order_is_total_preorder();
        merging_sorted_parts_sorts_the_whole(values_of(left@), values_of(right@), order);
    }
    let sorted_left = merge_sort(left, comparator);
    let sorted_right = merge_sort(right, comparator);
    merge(sorted_left, sorted_right, comparator)
}

/// Sorts the items in place, leaving items that tie in the order they had.
pub fn sort_items<T: DeepView, C: Comparator<T>>(items: &mut Vec<T>, comparator: &C)
    ensures
        final(items).deep_view() == stable_sort(old(items).deep_view(), comparator.order()),
{
    let ghost before = items@;
    let queue = drain(items);
    let sorted = merge_sort(queue, comparator);
    let ghost result = sorted@;
    let mut sorted = sorted;
    while sorted.len() > 0
        invariant
            items@ + sorted@ == result,
        decreases sorted@.len(),
    {
        let ghost items_before = items@;
        let ghost sorted_before = sorted@;
        if let Some(item) = sorted.pop_front() {
            items.push(item);
            assert(items@ + sorted@ =~= items_before + sorted_before);
        }
    }
    proof {
        assert(items@ =~= result);
        assert(items.deep_view() =~= values_of(result));
        assert(old(items).deep_view() =~= values_of(before));
    }
}

} // verus!
