//! All-or-nothing results: a list of steps, each of which may fail, gives
//! either every value in order or the error of the first step that failed.

use vstd::prelude::*;

verus! {

/// The values of `results` in order when every one of them is `Ok`;
/// otherwise the error of the first that is `Err`.
pub open spec fn all_or_first_error<T, E>(results: Seq<Result<T, E>>) -> Result<Seq<T>, E>
    decreases results.len(),
{
    if results.len() == 0 {
        Ok(Seq::empty())
    } else {
        match all_or_first_error(results.drop_last()) {
            Ok(values) => match results.last() {
                Ok(value) => Ok(values.push(value)),
                Err(error) => Err(error),
            },
            Err(error) => Err(error),
        }
    }
}

/// When the outcome is `Ok`, no result was an error, and the values are
/// those of the results, one for one and in the same order.
pub proof fn lemma_all_ok<T, E>(results: Seq<Result<T, E>>)
    requires
        all_or_first_error(results) is Ok,
    ensures
        all_or_first_error(results)->Ok_0.len() == results.len(),
        forall|i: int|
            0 <= i < results.len() ==> results[i] == Ok::<T, E>(
                #[trigger] all_or_first_error(results)->Ok_0[i],
            ),
    decreases results.len(),
{
    if results.len() > 0 {
        lemma_all_ok(results.drop_last());
    }
}

/// When every result is `Ok`, so is the outcome.
pub proof fn lemma_no_error<T, E>(results: Seq<Result<T, E>>)
    requires
        forall|i: int| 0 <= i < results.len() ==> results[i] is Ok,
    ensures
        all_or_first_error(results) is Ok,
    decreases results.len(),
{
    if results.len() > 0 {
        lemma_no_error(results.drop_last());
    }
}

/// When the result at `first` is an error and every result before it is
/// `Ok`, the outcome is that error, whatever comes after it.
pub proof fn lemma_first_error<T, E>(results: Seq<Result<T, E>>, first: int)
    requires
        0 <= first < results.len(),
        results[first] is Err,
        forall|i: int| 0 <= i < first ==> results[i] is Ok,
    ensures
        all_or_first_error(results) == Err::<Seq<T>, E>(results[first]->Err_0),
    decreases results.len(),
{
    if first == results.len() - 1 {
        lemma_no_error(results.drop_last());
    } else {
        lemma_first_error(results.drop_last(), first);
    }
}

/// When the outcome is an error, it is the error of some result before
/// which every result is `Ok`.
pub proof fn lemma_error_has_source<T, E>(results: Seq<Result<T, E>>) -> (first: int)
    requires
        all_or_first_error(results) is Err,
    ensures
        0 <= first < results.len(),
        results[first] == Err::<T, E>(all_or_first_error(results)->Err_0),
        forall|i: int| 0 <= i < first ==> results[i] is Ok,
    decreases results.len(),
{
    let before = results.drop_last();
    if all_or_first_error(before) is Err {
        let first = lemma_error_has_source(before);
        assert forall|i: int| 0 <= i < first implies results[i] is Ok by {
            assert(before[i] is Ok);
        }
        first
    } else {
        lemma_all_ok(before);
        assert forall|i: int| 0 <= i < results.len() - 1 implies results[i] is Ok by {
            assert(before[i] == Ok::<T, E>(all_or_first_error(before)->Ok_0[i]));
        }
        results.len() - 1
    }
}

/// One more `Ok` result adds its value to the values so far.
pub proof fn lemma_next_ok<T, E>(results: Seq<Result<T, E>>, done: int)
    requires
        0 <= done < results.len(),
        all_or_first_error(results.take(done)) is Ok,
        results[done] is Ok,
    ensures
        all_or_first_error(results.take(done + 1)) == Ok::<Seq<T>, E>(
            all_or_first_error(results.take(done))->Ok_0.push(results[done]->Ok_0),
        ),
{
    assert(results.take(done + 1).drop_last() =~= results.take(done));
}

/// An error after nothing but `Ok` results is the outcome of the whole
/// list.
pub proof fn lemma_next_error<T, E>(results: Seq<Result<T, E>>, done: int)
    requires
        0 <= done < results.len(),
        all_or_first_error(results.take(done)) is Ok,
        results[done] is Err,
    ensures
        all_or_first_error(results) == Err::<Seq<T>, E>(results[done]->Err_0),
{
    let before = results.take(done);
    lemma_all_ok(before);
    assert forall|i: int| 0 <= i < done implies results[i] is Ok by {
        assert(before[i] == Ok::<T, E>(all_or_first_error(before)->Ok_0[i]));
    }
    lemma_first_error(results, done);
}

} // verus!
