//! The first item that meets a condition, and the first source that knows.

use vstd::prelude::*;

verus! {

/// One of two sources: the second counts where the first knows nothing.
pub open spec fn or_else<A>(first: Option<A>, second: Option<A>) -> Option<A> {
    if first is Some {
        first
    } else {
        second
    }
}

/// The first of `items` that is wanted, if any is.
pub open spec fn first_where<A>(items: Seq<A>, wanted: spec_fn(A) -> bool) -> Option<A>
    decreases items.len(),
{
    if items.len() == 0 {
        None
    } else if wanted(items[0]) {
        Some(items[0])
    } else {
        first_where(items.skip(1), wanted)
    }
}

/// What is found is the item at some index, is wanted, and no item before it is. Nothing is found
/// just when no item is wanted.
pub proof fn lemma_first_where<A>(items: Seq<A>, wanted: spec_fn(A) -> bool)
    ensures
        match first_where(items, wanted) {
            Some(item) => exists|i: int|
                #![trigger items[i]]
                0 <= i < items.len() && items[i] == item && wanted(item) && forall|j: int|
                    0 <= j < i ==> !wanted(#[trigger] items[j]),
            None => forall|i: int| 0 <= i < items.len() ==> !wanted(#[trigger] items[i]),
        },
    decreases items.len(),
{
    if items.len() > 0 && !wanted(items[0]) {
        let rest = items.skip(1);
        lemma_first_where(rest, wanted);
        assert(forall|i: int| 0 < i < items.len() ==> items[i] == #[trigger] rest[i - 1]);
        match first_where(rest, wanted) {
            Some(item) => {
                let i = choose|i: int|
                    #![trigger rest[i]]
                    0 <= i < rest.len() && rest[i] == item && wanted(item) && forall|j: int|
                        0 <= j < i ==> !wanted(#[trigger] rest[j]);
                assert(items[i + 1] == item);
                assert forall|j: int| 0 <= j < i + 1 implies !wanted(#[trigger] items[j]) by {
                    if j > 0 {
                        assert(items[j] == rest[j - 1]);
                    }
                }
            },
            None => {
                assert forall|i: int| 0 <= i < items.len() implies !wanted(#[trigger] items[i]) by {
                    if i > 0 {
                        assert(items[i] == rest[i - 1]);
                    }
                }
            },
        }
    }
}

/// The first source decides where it knows anything, and has no say where it does not.
pub proof fn law_or_else<A>(known: A, second: Option<A>)
    ensures
        or_else(Some(known), second) == Some(known),
        or_else(None, second) == second,
{
}

} // verus!
