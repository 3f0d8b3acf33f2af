//! The first item of a sequence that meets a condition.

use vstd::prelude::*;

verus! {

/// The position of the first item that meets `wanted`, or the length of the
/// sequence if none does.
pub open spec fn first_position<T>(items: Seq<T>, wanted: spec_fn(T) -> bool) -> int
    decreases items.len(),
{
    if items.len() == 0 {
        0
    } else if wanted(items[0]) {
        0
    } else {
        1 + first_position(items.drop_first(), wanted)
    }
}

/// The position is in range, nothing before it meets the condition, and the
/// item at it does.
pub proof fn lemma_first_position<T>(items: Seq<T>, wanted: spec_fn(T) -> bool)
    ensures
        0 <= first_position(items, wanted) <= items.len(),
        forall|i: int| 0 <= i < first_position(items, wanted) ==> !wanted(#[trigger] items[i]),
        first_position(items, wanted) < items.len() ==> wanted(
            items[first_position(items, wanted)],
        ),
    decreases items.len(),
{
    if items.len() > 0 && !wanted(items[0]) {
        let rest = items.drop_first();
        lemma_first_position(rest, wanted);
        assert forall|i: int| 0 <= i < first_position(items, wanted) implies !wanted(
            #[trigger] items[i],
        ) by {
            if i > 0 {
                assert(items[i] == rest[i - 1]);
            }
        }
    }
}

/// An item that meets the condition, with none before it that does, is the first.
pub proof fn lemma_first_position_is<T>(items: Seq<T>, wanted: spec_fn(T) -> bool, at: int)
    requires
        0 <= at <= items.len(),
        forall|i: int| 0 <= i < at ==> !wanted(#[trigger] items[i]),
        at < items.len() ==> wanted(items[at]),
    ensures
        first_position(items, wanted) == at,
{
    lemma_first_position(items, wanted);
    let p = first_position(items, wanted);
    if p < at {
        assert(!wanted(items[p]));
    } else if p > at {
        assert(!wanted(items[at]));
    }
}

} // verus!
