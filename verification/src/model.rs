//! How collections of values are lifted to what they stand for.
use vstd::prelude::*;

verus! {

/// What the values of a sequence stand for.
pub open spec fn views<T: View>(items: Seq<T>) -> Seq<T::V> {
    items.map_values(|t: T| t@)
}

/// What an optional value stands for.
pub open spec fn opt_view<T: View>(item: Option<T>) -> Option<T::V> {
    match item {
        Some(t) => Some(t@),
        None => None,
    }
}

/// What a result stands for.
pub open spec fn result_view<T: View, E: View>(r: Result<T, E>) -> Result<T::V, E::V> {
    match r {
        Ok(t) => Ok(t@),
        Err(e) => Err(e@),
    }
}

/// The values of a sequence of results, or its first error.
pub open spec fn collected<T, E>(results: Seq<Result<T, E>>) -> Result<Seq<T>, E>
    decreases results.len(),
{
    if results.len() == 0 {
        Ok(Seq::empty())
    } else {
        match collected(results.drop_last()) {
            Err(e) => Err(e),
            Ok(values) => match results.last() {
                Ok(value) => Ok(values.push(value)),
                Err(e) => Err(e),
            },
        }
    }
}

/// One more result: a collection goes on until its first error.
pub proof fn lemma_collected_step<T, E>(results: Seq<Result<T, E>>, i: int)
    requires
        0 <= i < results.len(),
    ensures
        collected(results.take(i + 1)) == (match collected(results.take(i)) {
            Err(e) => Err(e),
            Ok(values) => match results[i] {
                Ok(value) => Ok(values.push(value)),
                Err(e) => Err(e),
            },
        }),
{
    assert(results.take(i + 1).drop_last() =~= results.take(i));
}

/// An error stays: what comes after the first one does not matter.
pub proof fn lemma_collected_error<T, E>(results: Seq<Result<T, E>>, i: int)
    requires
        0 <= i <= results.len(),
        collected(results.take(i)) is Err,
    ensures
        collected(results) == collected(results.take(i)),
    decreases results.len() - i,
{
    if i < results.len() {
        lemma_collected_step(results, i);
        lemma_collected_error(results, i + 1);
    } else {
        assert(results.take(i) =~= results);
    }
}

/// A collection succeeds exactly where each of its results does, and then holds their values
/// in order.
pub proof fn lemma_collected_ok<T, E>(results: Seq<Result<T, E>>)
    ensures
        collected(results) is Ok <==> forall|i: int|
            0 <= i < results.len() ==> (#[trigger] results[i]) is Ok,
        collected(results) matches Ok(values) ==> values.len() == results.len() && forall|i: int|
            0 <= i < values.len() ==> results[i] == Ok::<T, E>(#[trigger] values[i]),
    decreases results.len(),
{
    if results.len() > 0 {
        let rest = results.drop_last();
        lemma_collected_ok(rest);
        assert(forall|i: int| 0 <= i < rest.len() ==> rest[i] == results[i]);
        assert(results.last() == results[results.len() - 1]);
        if collected(results) is Ok {
            let values = collected(results)->Ok_0;
            assert forall|i: int| 0 <= i < values.len() implies results[i] == Ok::<T, E>(
                #[trigger] values[i],
            ) by {
                if i < rest.len() {
                    assert(rest[i] == Ok::<T, E>(collected(rest)->Ok_0[i]));
                }
            }
            assert forall|i: int| 0 <= i < results.len() implies (#[trigger] results[i]) is Ok by {
                if i < rest.len() {
                    assert(rest[i] is Ok);
                }
            }
        } else if forall|i: int| 0 <= i < results.len() ==> (#[trigger] results[i]) is Ok {
            assert(results[results.len() - 1] is Ok);
            assert forall|i: int| 0 <= i < rest.len() implies (#[trigger] rest[i]) is Ok by {
                assert(results[i] is Ok);
            }
        }
    }
}

} // verus!
