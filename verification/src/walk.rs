//! What a walk through a sequence of items hands out, call by call.
use vstd::prelude::*;

verus! {

/// What the next call hands out when `left` is still to come.
pub open spec fn next_of<T>(left: Seq<T>) -> Option<T> {
    if left.len() == 0 {
        None
    } else {
        Some(left.first())
    }
}

/// What is still to come after the next call.
pub open spec fn after_next<T>(left: Seq<T>) -> Seq<T> {
    if left.len() == 0 {
        left
    } else {
        left.drop_first()
    }
}

/// What is still to come after the given number of calls.
pub open spec fn after_calls<T>(left: Seq<T>, calls: nat) -> Seq<T>
    decreases calls,
{
    if calls == 0 {
        left
    } else {
        after_calls(after_next(left), (calls - 1) as nat)
    }
}

/// A call hands out the first of what is still to come and leaves the others as they are; where
/// nothing is still to come, it hands out nothing and leaves nothing.
pub proof fn law_one_call<T>(first: T, others: Seq<T>)
    ensures
        next_of(seq![first] + others) == Some(first),
        after_next(seq![first] + others) == others,
        next_of(Seq::<T>::empty()) is None,
        after_next(Seq::<T>::empty()).len() == 0,
{
    assert(after_next(seq![first] + others) =~= others);
}

/// A walk hands out each item once and in its order, and then nothing, however often it is asked.
pub proof fn law_walk<T>(items: Seq<T>, calls: nat)
    ensures
        next_of(after_calls(items, calls)) == if calls < items.len() {
            Some(items[calls as int])
        } else {
            None
        },
    decreases calls,
{
    if calls > 0 {
        law_walk(after_next(items), (calls - 1) as nat);
    }
}

} // verus!
