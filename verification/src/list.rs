//! Searching and thinning lists.
use std::collections::VecDeque;
use vstd::prelude::*;

verus! {

/// A condition on values.
pub type Condition<V> = spec_fn(V) -> bool;

/// The position holds the first of the values that meet the condition.
pub open spec fn is_first<V>(values: Seq<V>, condition: Condition<V>, position: int) -> bool {
    &&& 0 <= position < values.len()
    &&& condition(values[position])
    &&& forall|earlier: int| 0 <= earlier < position ==> !condition(#[trigger] values[earlier])
}

/// The position of the first of the values that meet the condition.
#[verifier::opaque]
pub open spec fn first_where<V>(values: Seq<V>, condition: Condition<V>) -> Option<int> {
    if exists|position: int| is_first(values, condition, position) {
        Some(choose|position: int| is_first(values, condition, position))
    } else {
        None
    }
}

/// The position found is that of a first value, and it is found exactly where a value meets the
/// condition.
pub proof fn first_where_finds_the_first<V>(values: Seq<V>, condition: Condition<V>)
    ensures
        match first_where(values, condition) {
            Some(position) => is_first(values, condition, position),
            None => forall|i: int| 0 <= i < values.len() ==> !condition(#[trigger] values[i]),
        },
        forall|position: int| #[trigger]
            is_first(values, condition, position) ==> first_where(values, condition) == Some(
                position,
            ),
{
    reveal(first_where);
    if first_where(values, condition) is None {
        assert forall|i: int| 0 <= i < values.len() implies !condition(#[trigger] values[i]) by {
            if condition(values[i]) {
                lemma_some_value_is_first(values, condition, i);
            }
        }
    }
}

proof fn lemma_some_value_is_first<V>(values: Seq<V>, condition: Condition<V>, i: int)
    requires
        0 <= i < values.len(),
        condition(values[i]),
    ensures
        exists|position: int| is_first(values, condition, position),
    decreases i,
{
    if exists|j: int| 0 <= j < i && condition(#[trigger] values[j]) {
        let j = choose|j: int| 0 <= j < i && condition(#[trigger] values[j]);
        lemma_some_value_is_first(values, condition, j);
    } else {
        assert(is_first(values, condition, i));
    }
}

/// A condition that can be tested.
pub trait Test<T: DeepView>: Sized {
    /// What is tested, over the value that the item stands for.
    spec fn condition(&self) -> Condition<T::V>;

    /// Whether the item meets the condition.
    fn holds(&self, item: &T) -> (result: bool)
        ensures
            result == (self.condition())(item.deep_view()),
    ;
}

/// The position of the first item that meets the condition.
pub fn find<T: DeepView, C: Test<T>>(items: &Vec<T>, test: &C) -> (position: Option<usize>)
    ensures
        match position {
            Some(position) => position < items@.len() && first_where(
                items.deep_view(),
                test.condition(),
            ) == Some(position as int) && (test.condition())(items@[position as int].deep_view()),
            None => first_where(items.deep_view(), test.condition()) is None,
        },
{
    proof {
        first_where_finds_the_first(items.deep_view(), test.condition());
    }
    let mut i: usize = 0;
    while i < items.len()
        invariant
            i <= items@.len(),
            forall|j: int|
                0 <= j < i ==> !(test.condition())(#[trigger] items.deep_view()[j]),
        decreases items@.len() - i,
    {
        if test.holds(&items[i]) {
            assert(items.deep_view()[i as int] == items@[i as int].deep_view());
            assert(is_first(items.deep_view(), test.condition(), i as int));
            proof {
                first_where_finds_the_first(items.deep_view(), test.condition());
            }
            return Some(i);
        }
        i = i + 1;
    }
    None
}

/// Whether some item meets the condition.
pub fn any<T: DeepView, C: Test<T>>(items: &Vec<T>, test: &C) -> (found: bool)
    ensures
        found == exists|i: int|
            0 <= i < items@.len() && (test.condition())(#[trigger] items.deep_view()[i]),
{
    proof {
        first_where_finds_the_first(items.deep_view(), test.condition());
    }
    match find(items, test) {
        Some(position) => {
            assert((test.condition())(items.deep_view()[position as int]));
            true
        },
        None => false,
    }
}

/// Adding a value at the end adds it at the end of what meets the condition, where it does.
pub proof fn filter_of_pushed<V>(values: Seq<V>, value: V, condition: Condition<V>)
    ensures
        values.push(value).filter(condition) == if condition(value) {
            values.filter(condition).push(value)
        } else {
            values.filter(condition)
        },
{
    reveal(Seq::filter);
    assert(values.push(value).drop_last() =~= values);
}

/// Moves all items to a queue, in their order.
pub fn drain<T>(items: &mut Vec<T>) -> (queue: VecDeque<T>)
    ensures
        queue@ == old(items)@,
        final(items)@ == Seq::<T>::empty(),
{
    let ghost before = items@;
    let mut queue: VecDeque<T> = VecDeque::new();
    while items.len() > 0
        invariant
            items@ + queue@ == before,
        decreases items@.len(),
    {
        let ghost items_before = items@;
        let ghost queue_before = queue@;
        if let Some(item) = items.pop() {
            queue.push_front(item);
            assert(items@ + queue@ =~= items_before + queue_before);
        }
    }
    assert(queue@ =~= before);
    queue
}

/// Keeps the items that meet the condition, in their order, and drops the others.
pub fn retain<T: DeepView, C: Test<T>>(items: &mut Vec<T>, test: &C)
    ensures
        final(items).deep_view() == old(items).deep_view().filter(test.condition()),
{
    let ghost before = items.deep_view();
    let ghost condition = test.condition();
    let mut queue = drain(items);
    let ghost mut gone: int = 0;
    proof {
        assert(before.take(0) =~= Seq::empty());
        reveal(Seq::filter);
        assert(items.deep_view() =~= before.take(0).filter(condition));
    }
    while queue.len() > 0
        invariant
            condition == test.condition(),
            0 <= gone <= before.len(),
            queue@.len() == before.len() - gone,
            forall|i: int|
                0 <= i < queue@.len() ==> (#[trigger] queue@[i]).deep_view() == before[gone + i],
            items.deep_view() == before.take(gone).filter(condition),
        decreases queue@.len(),
    {
        let ghost queue_before = queue@;
        let ghost items_before = items@;
        if let Some(item) = queue.pop_front() {
            assert(item.deep_view() == before[gone]);
            proof {
                assert(before.take(gone + 1) =~= before.take(gone).push(before[gone]));
                filter_of_pushed(before.take(gone), before[gone], condition);
            }
            assert forall|i: int| 0 <= i < queue@.len() implies (#[trigger] queue@[i]).deep_view()
                == before[gone + 1 + i] by {
                assert(queue@[i] == queue_before[i + 1]);
            }
            if test.holds(&item) {
                items.push(item);
                assert(items.deep_view() =~= before.take(gone).filter(condition).push(before[gone]));
            }
            proof {
                gone = gone + 1;
            }
        }
    }
    assert(before.take(gone) =~= before);
}

} // verus!
