use vstd::prelude::*;
use vstd::std_specs::cmp::PartialEqSpec;
use futures::Async;
use crate::failure::Failure;

verus! {

/// What one poll of a future gave: its value, not ready, or an error.
pub type FuturePoll<T, E> = Result<Async<T>, E>;

/// Whether two terminal results are equal: both successes with equal values,
/// or both errors with equal errors.
pub open spec fn same_result<T: PartialEq, E: PartialEq>(a: Result<T, E>, b: Result<T, E>) -> bool {
    match (a, b) {
        (Ok(x), Ok(y)) => x.eq_spec(&y),
        (Err(x), Err(y)) => x.eq_spec(&y),
        _ => false,
    }
}

/// The verdict on a future's terminal result `actual` when `expected` was due.
pub open spec fn done_verdict<T: PartialEq, E: PartialEq>(
    actual: Result<T, E>,
    expected: Result<T, E>,
) -> Result<(), Failure> {
    if same_result(actual, expected) {
        Ok(())
    } else {
        Err(Failure::ResultMismatch)
    }
}

/// The verdict on a single poll that is expected to find the future pending.
pub open spec fn empty_verdict<T, E>(p: FuturePoll<T, E>) -> Result<(), Failure> {
    match p {
        Ok(Async::NotReady) => Ok(()),
        Ok(Async::Ready(_)) => Err(Failure::FutureReady),
        Err(_) => Err(Failure::FutureError),
    }
}

/// Checks that a future driven to completion gave `result`.
pub fn assert_done<T: PartialEq, E: PartialEq>(actual: &Result<T, E>, result: &Result<T, E>) -> (r:
    Result<(), Failure>)
    ensures
        r is Ok || r == Err::<(), Failure>(Failure::ResultMismatch),
        actual is Ok != result is Ok ==> r == Err::<(), Failure>(Failure::ResultMismatch),
        actual is Ok && result is Ok && T::obeys_eq_spec() ==> r == done_verdict(*actual, *result),
        actual is Err && result is Err && E::obeys_eq_spec() ==> r == done_verdict(
            *actual,
            *result,
        ),
{
    let same = match (actual, result) {
        (Ok(x), Ok(y)) => x.eq(y),
        (Err(x), Err(y)) => x.eq(y),
        _ => false,
    };
    if same {
        Ok(())
    } else {
        Err(Failure::ResultMismatch)
    }
}

/// Checks that a single poll found the future pending.
pub fn assert_empty<T, E>(p: &FuturePoll<T, E>) -> (r: Result<(), Failure>)
    ensures
        r == empty_verdict(*p),
{
    match p {
        Ok(Async::NotReady) => Ok(()),
        Ok(Async::Ready(_)) => Err(Failure::FutureReady),
        Err(_) => Err(Failure::FutureError),
    }
}

/// A future that resolves to `v` passes the check against `Ok(w)` exactly
/// when `v` equals `w`; otherwise it fails with a result mismatch.
pub proof fn lemma_resolves_to<T: PartialEq, E: PartialEq>(v: T, w: T)
    ensures
        done_verdict(Ok::<T, E>(v), Ok::<T, E>(w)) is Ok <==> v.eq_spec(&w),
        !v.eq_spec(&w) ==> done_verdict(Ok::<T, E>(v), Ok::<T, E>(w)) == Err::<(), Failure>(
            Failure::ResultMismatch,
        ),
{
}

/// A future still pending after one poll passes the pending check; one that
/// resolves or fails on that poll does not.
pub proof fn lemma_pending<T, E>(p: FuturePoll<T, E>)
    ensures
        empty_verdict(p) is Ok <==> p == Ok::<Async<T>, E>(Async::NotReady),
        p matches Ok(Async::Ready(_)) ==> empty_verdict(p) == Err::<(), Failure>(
            Failure::FutureReady,
        ),
{
}

} // verus!
