//! Taking a list apart in order, and putting results together.

use vstd::prelude::*;

verus! {

/// Whether the result at `k` is a failure and none before it is.
pub open spec fn is_first_err<T, E>(results: Seq<Result<T, E>>, k: int) -> bool {
    &&& 0 <= k < results.len()
    &&& results[k] is Err
    &&& forall|j: int| 0 <= j < k ==> (#[trigger] results[j]) is Ok
}

/// The values of a list of results, in order, where all are successes; the
/// first failure where one is not.
pub open spec fn collected<T, E>(results: Seq<Result<T, E>>) -> Result<Seq<T>, E> {
    if exists|k: int| is_first_err(results, k) {
        Err(results[choose|k: int| is_first_err(results, k)]->Err_0)
    } else {
        Ok(Seq::new(results.len(), |i: int| results[i]->Ok_0))
    }
}

/// The value inside where there is one and it is a success; nothing where
/// there is none; the failure where it is one.
pub open spec fn transposed<T, E>(maybe: Option<Result<T, E>>) -> Result<Option<T>, E> {
    match maybe {
        Some(Ok(value)) => Ok(Some(value)),
        Some(Err(error)) => Err(error),
        None => Ok(None),
    }
}

/// Each value as a success.
pub open spec fn successes<T, E>(values: Seq<T>) -> Seq<Result<T, E>> {
    Seq::new(values.len(), |i: int| Ok::<T, E>(values[i]))
}

/// Where the result at `k` is the first failure, it is what collecting gives.
pub proof fn lemma_collected_first_err<T, E>(results: Seq<Result<T, E>>, k: int)
    requires
        is_first_err(results, k),
    ensures
        collected(results) == Err::<Seq<T>, E>(results[k]->Err_0),
{
    let chosen = choose|k: int| is_first_err(results, k);
    assert(is_first_err(results, chosen));
    if chosen < k {
        assert(results[chosen] is Ok);
    }
    if k < chosen {
        assert(results[k] is Ok);
    }
}

/// Collecting successes gives their values back, in order.
pub proof fn lemma_collected_successes<T, E>(values: Seq<T>)
    ensures
        collected(successes::<T, E>(values)) == Ok::<Seq<T>, E>(values),
{
    let results = successes::<T, E>(values);
    assert forall|k: int| !is_first_err(results, k) by {
        if 0 <= k < results.len() {
            assert(results[k] is Ok);
        }
    }
    assert(Seq::new(results.len(), |i: int| results[i]->Ok_0) =~= values);
}

/// The same items in the opposite order.
pub fn reversed<T>(list: Vec<T>) -> (turned: Vec<T>)
    ensures
        turned@.len() == list@.len(),
        forall|i: int| 0 <= i < turned@.len() ==> turned@[i] == list@[list@.len() - 1 - i],
{
    let ghost given = list@;
    let mut rest = list;
    let mut turned: Vec<T> = Vec::new();
    while rest.len() > 0
        invariant
            rest@.len() + turned@.len() == given.len(),
            forall|i: int| 0 <= i < turned@.len() ==> turned@[i] == given[given.len() - 1 - i],
            forall|i: int| 0 <= i < rest@.len() ==> rest@[i] == given[i],
        decreases rest@.len(),
    {
        match rest.pop() {
            Some(item) => {
                turned.push(item);
            },
            None => {},
        }
    }
    turned
}

/// The values of a list of results, in order, where all are successes; the
/// first failure where one is not.
pub fn collect<T, E>(results: Vec<Result<T, E>>) -> (gathered: Result<Vec<T>, E>)
    ensures
        match gathered {
            Ok(values) => collected(results@) == Ok::<Seq<T>, E>(values@),
            Err(error) => collected(results@) == Err::<Seq<T>, E>(error),
        },
{
    let ghost given = results@;
    let mut rest = reversed(results);
    let mut values: Vec<T> = Vec::new();
    while rest.len() > 0
        invariant
            given == results@,
            rest@.len() + values@.len() == given.len(),
            forall|i: int| 0 <= i < values@.len() ==> given[i] == Ok::<T, E>(values@[i]),
            forall|i: int| 0 <= i < rest@.len() ==> rest@[i] == given[given.len() - 1 - i],
        decreases rest@.len(),
    {
        let ghost at = values@.len() as int;
        match rest.pop() {
            Some(Ok(value)) => {
                values.push(value);
            },
            Some(Err(error)) => {
                proof {
                    assert(given[at] == Err::<T, E>(error));
                    assert forall|j: int| 0 <= j < at implies (#[trigger] given[j]) is Ok by {
                        assert(given[j] == Ok::<T, E>(values@[j]));
                    }
                    lemma_collected_first_err(given, at);
                }
                return Err(error);
            },
            None => {},
        }
    }
    proof {
        assert forall|k: int| !is_first_err(given, k) by {
            if 0 <= k < given.len() {
                assert(given[k] == Ok::<T, E>(values@[k]));
            }
        }
        assert(Seq::new(given.len(), |i: int| given[i]->Ok_0) =~= values@);
    }
    Ok(values)
}

/// The value inside where there is one and it is a success; nothing where
/// there is none; the failure where it is one.
pub fn transpose<T, E>(maybe: Option<Result<T, E>>) -> (turned: Result<Option<T>, E>)
    ensures
        turned == transposed(maybe),
{
    match maybe {
        Some(Ok(value)) => Ok(Some(value)),
        Some(Err(error)) => Err(error),
        None => Ok(None),
    }
}

} // verus!
