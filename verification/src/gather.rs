//! Putting the parts of a result together, up to the first fault.

use crate::error::SchemaErrorView;
use vstd::prelude::*;

verus! {

/// The first part and then the second; or the fault of the first, or else
/// that of the second.
pub open spec fn followed_by<T>(
    first: Result<Seq<T>, SchemaErrorView>,
    second: Result<Seq<T>, SchemaErrorView>,
) -> Result<Seq<T>, SchemaErrorView> {
    match first {
        Err(fault) => Err(fault),
        Ok(head) => match second {
            Err(fault) => Err(fault),
            Ok(tail) => Ok(head + tail),
        },
    }
}

/// One item as a part.
pub open spec fn single<T>(item: Result<T, SchemaErrorView>) -> Result<Seq<T>, SchemaErrorView> {
    match item {
        Err(fault) => Err(fault),
        Ok(value) => Ok(seq![value]),
    }
}

/// The parts, one after the other; or the fault of the first part that has
/// one.
pub open spec fn gather<T>(parts: Seq<Result<Seq<T>, SchemaErrorView>>) -> Result<
    Seq<T>,
    SchemaErrorView,
>
    decreases parts.len(),
{
    if parts.len() == 0 {
        Ok(Seq::empty())
    } else {
        followed_by(gather(parts.drop_last()), parts.last())
    }
}

/// One part more: what the parts before it give, and then the part.
pub proof fn lemma_gather_next<T>(parts: Seq<Result<Seq<T>, SchemaErrorView>>, i: int)
    requires
        0 <= i < parts.len(),
    ensures
        gather(parts.take(i + 1)) == followed_by(gather(parts.take(i)), parts[i]),
{
    assert(parts.take(i + 1).drop_last() =~= parts.take(i));
}

/// A fault among the first parts is the fault of the whole.
pub proof fn lemma_gather_fault<T>(parts: Seq<Result<Seq<T>, SchemaErrorView>>, i: int)
    requires
        0 <= i <= parts.len(),
        gather(parts.take(i)) is Err,
    ensures
        gather(parts) == gather(parts.take(i)),
    decreases parts.len() - i,
{
    if i == parts.len() {
        assert(parts.take(i) =~= parts);
    } else {
        lemma_gather_next(parts, i);
        lemma_gather_fault(parts, i + 1);
    }
}

/// Where no part has a fault, every part lies in the whole, in its place:
/// the whole is `Ok`, and where each part is one item, the whole holds
/// those items in the order of the parts.
pub proof fn lemma_gather_singles<T>(parts: Seq<Result<Seq<T>, SchemaErrorView>>)
    requires
        forall|i: int|
            0 <= i < parts.len() ==> (#[trigger] parts[i]) is Ok && parts[i]->Ok_0.len() == 1,
    ensures
        gather(parts) is Ok,
        gather(parts)->Ok_0.len() == parts.len(),
        forall|i: int|
            0 <= i < parts.len() ==> gather(parts)->Ok_0[i] == (#[trigger] parts[i])->Ok_0[0],
    decreases parts.len(),
{
    if parts.len() > 0 {
        let front = parts.drop_last();
        lemma_gather_singles(front);
        let whole = gather(parts)->Ok_0;
        assert forall|i: int| 0 <= i < parts.len() implies whole[i] == (
        #[trigger] parts[i])->Ok_0[0] by {
            if i < front.len() {
                assert(front[i] == parts[i]);
            }
        }
    }
}

/// The whole is `Ok` exactly where every part is.
pub proof fn lemma_gather_ok<T>(parts: Seq<Result<Seq<T>, SchemaErrorView>>)
    ensures
        gather(parts) is Ok <==> forall|i: int|
            0 <= i < parts.len() ==> (#[trigger] parts[i]) is Ok,
    decreases parts.len(),
{
    if parts.len() > 0 {
        lemma_gather_ok(parts.drop_last());
        if gather(parts) is Ok {
            assert forall|i: int| 0 <= i < parts.len() implies (#[trigger] parts[i]) is Ok by {
                if i < parts.len() - 1 {
                    assert(parts.drop_last()[i] == parts[i]);
                }
            }
        } else {
            if gather(parts.drop_last()) is Err {
                let front = parts.drop_last();
                let k = choose|k: int| 0 <= k < front.len() && !(front[k] is Ok);
            }
        }
    }
}

/// What holds of every item of every part holds of every item of the
/// whole.
pub proof fn lemma_gather_all<T>(
    parts: Seq<Result<Seq<T>, SchemaErrorView>>,
    holds: spec_fn(T) -> bool,
)
    requires
        gather(parts) is Ok,
        forall|i: int, j: int|
            0 <= i < parts.len() && parts[i] is Ok && 0 <= j < parts[i]->Ok_0.len() ==> holds(
                #[trigger] parts[i]->Ok_0[j],
            ),
    ensures
        forall|k: int|
            0 <= k < gather(parts)->Ok_0.len() ==> holds(#[trigger] gather(parts)->Ok_0[k]),
    decreases parts.len(),
{
    if parts.len() > 0 {
        let front = parts.drop_last();
        lemma_gather_all(front, holds);
    }
}

} // verus!
