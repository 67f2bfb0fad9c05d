//! Gathering the results of a list of fallible steps.

use vstd::prelude::*;

verus! {

/// All values of `results` in order, where every one of them is `Ok`;
/// otherwise the first error.
pub open spec fn gather<T, E>(results: Seq<Result<T, E>>) -> Result<Seq<T>, E>
    decreases results.len(),
{
    if results.len() == 0 {
        Ok(Seq::empty())
    } else {
        match gather(results.drop_last()) {
            Err(e) => Err(e),
            Ok(front) => match results.last() {
                Err(e) => Err(e),
                Ok(value) => Ok(front.push(value)),
            },
        }
    }
}

/// An error among the first results is the error of the whole list.
pub proof fn lemma_gather_fails<T, E>(results: Seq<Result<T, E>>, upto: int)
    requires
        0 <= upto <= results.len(),
        gather(results.take(upto)) is Err,
    ensures
        gather(results) == gather(results.take(upto)),
    decreases results.len() - upto,
{
    if upto < results.len() {
        assert(results.take(upto + 1).drop_last() =~= results.take(upto));
        lemma_gather_fails(results, upto + 1);
    } else {
        assert(results.take(upto) =~= results);
    }
}

/// One more `Ok` behind gathered values adds its value to them.
pub proof fn lemma_gather_step<T, E>(results: Seq<Result<T, E>>, upto: int)
    requires
        0 <= upto < results.len(),
    ensures
        gather(results.take(upto + 1)) == match gather(results.take(upto)) {
            Err(e) => Err::<Seq<T>, E>(e),
            Ok(front) => match results[upto] {
                Err(e) => Err::<Seq<T>, E>(e),
                Ok(value) => Ok::<Seq<T>, E>(front.push(value)),
            },
        },
{
    assert(results.take(upto + 1).drop_last() =~= results.take(upto));
    assert(results.take(upto + 1).last() == results[upto]);
}

} // verus!
