use vstd::prelude::*;
use vstd::std_specs::cmp::PartialEqSpec;
use futures::Async;
use crate::failure::Failure;
use crate::notifier::Notifier;

verus! {

/// What one poll of a stream gave: an element, its end, not ready, or an error.
pub type StreamPoll<T, E> = Result<Async<Option<T>>, E>;

/// The verdict on a poll that is expected to find the stream at its end.
pub open spec fn done_verdict<T, E>(p: StreamPoll<T, E>) -> Result<(), Failure> {
    match p {
        Ok(Async::Ready(None)) => Ok(()),
        Ok(Async::Ready(Some(_))) => Err(Failure::MoreElements),
        Ok(Async::NotReady) => Err(Failure::NotReady),
        Err(_) => Err(Failure::StreamError),
    }
}

/// The verdict on a poll that is expected to find the stream not ready.
pub open spec fn empty_verdict<T, E>(p: StreamPoll<T, E>) -> Result<(), Failure> {
    match p {
        Ok(Async::Ready(None)) => Err(Failure::AtEnd),
        Ok(Async::Ready(Some(_))) => Err(Failure::MoreElements),
        Ok(Async::NotReady) => Ok(()),
        Err(_) => Err(Failure::StreamError),
    }
}

/// The verdict on a poll that is expected to yield the element `item`.
pub open spec fn next_verdict<T: PartialEq, E>(p: StreamPoll<T, E>, item: T) -> Result<(), Failure> {
    match p {
        Ok(Async::Ready(None)) => Err(Failure::AtEnd),
        Ok(Async::Ready(Some(e))) => if e.eq_spec(&item) {
            Ok(())
        } else {
            Err(Failure::ItemMismatch)
        },
        Ok(Async::NotReady) => Err(Failure::NotReady),
        Err(_) => Err(Failure::StreamError),
    }
}

/// The verdict on a poll that is expected to yield the error `err`.
pub open spec fn err_verdict<T, E: PartialEq>(p: StreamPoll<T, E>, err: E) -> Result<(), Failure> {
    match p {
        Ok(Async::Ready(None)) => Err(Failure::AtEnd),
        Ok(Async::Ready(Some(_))) => Err(Failure::MoreElements),
        Ok(Async::NotReady) => Err(Failure::NotReady),
        Err(e) => if e.eq_spec(&err) {
            Ok(())
        } else {
            Err(Failure::ErrorMismatch)
        },
    }
}

/// The callback that a stream check polls under. A stream that is rightly
/// pending may ask to be woken later, so the pending check ignores wake-up
/// requests; every other check treats one as a failure.
pub fn stream_check_notifier(expects_pending: bool) -> (r: Notifier)
    ensures
        r == (if expects_pending {
            Notifier::Silent
        } else {
            Notifier::Panicking
        }),
{
    if expects_pending {
        Notifier::Silent
    } else {
        Notifier::Panicking
    }
}

/// Checks that the stream has ended.
pub fn sassert_done<T, E>(p: &StreamPoll<T, E>) -> (r: Result<(), Failure>)
    ensures
        r == done_verdict(*p),
{
    match p {
        Ok(Async::Ready(None)) => Ok(()),
        Ok(Async::Ready(Some(_))) => Err(Failure::MoreElements),
        Ok(Async::NotReady) => Err(Failure::NotReady),
        Err(_) => Err(Failure::StreamError),
    }
}

/// Checks that the stream is not ready, and has not ended.
pub fn sassert_empty<T, E>(p: &StreamPoll<T, E>) -> (r: Result<(), Failure>)
    ensures
        r == empty_verdict(*p),
{
    match p {
        Ok(Async::Ready(None)) => Err(Failure::AtEnd),
        Ok(Async::Ready(Some(_))) => Err(Failure::MoreElements),
        Ok(Async::NotReady) => Ok(()),
        Err(_) => Err(Failure::StreamError),
    }
}

/// Checks that the stream yielded an element equal to `item`.
pub fn sassert_next<T: PartialEq, E>(p: &StreamPoll<T, E>, item: &T) -> (r: Result<(), Failure>)
    ensures
        T::obeys_eq_spec() ==> r == next_verdict(*p, *item),
        p matches Ok(Async::Ready(Some(_))) ==> (r is Ok || r == Err::<(), Failure>(
            Failure::ItemMismatch,
        )),
        !(p matches Ok(Async::Ready(Some(_)))) ==> r == next_verdict(*p, *item),
{
    match p {
        Ok(Async::Ready(None)) => Err(Failure::AtEnd),
        Ok(Async::Ready(Some(e))) => if e.eq(item) {
            Ok(())
        } else {
            Err(Failure::ItemMismatch)
        },
        Ok(Async::NotReady) => Err(Failure::NotReady),
        Err(_) => Err(Failure::StreamError),
    }
}

/// Checks that the stream yielded an error equal to `err`.
pub fn sassert_err<T, E: PartialEq>(p: &StreamPoll<T, E>, err: &E) -> (r: Result<(), Failure>)
    ensures
        E::obeys_eq_spec() ==> r == err_verdict(*p, *err),
        p is Err ==> (r is Ok || r == Err::<(), Failure>(Failure::ErrorMismatch)),
        p is Ok ==> r == err_verdict(*p, *err),
{
    match p {
        Ok(Async::Ready(None)) => Err(Failure::AtEnd),
        Ok(Async::Ready(Some(_))) => Err(Failure::MoreElements),
        Ok(Async::NotReady) => Err(Failure::NotReady),
        Err(e) => if e.eq(err) {
            Ok(())
        } else {
            Err(Failure::ErrorMismatch)
        },
    }
}
/// For a stream whose polls give `a`, then `b`, then its end (and the end
/// again): expecting `a`, then `b`, then the end passes each time, and
/// expecting a further element fails because the stream is at its end.
pub proof fn lemma_two_items_then_end<T: PartialEq, E>(
    p0: StreamPoll<T, E>,
    p1: StreamPoll<T, E>,
    p2: StreamPoll<T, E>,
    p3: StreamPoll<T, E>,
    a: T,
    b: T,
    x: T,
)
    requires
        p0 == Ok::<Async<Option<T>>, E>(Async::Ready(Some(a))),
        p1 == Ok::<Async<Option<T>>, E>(Async::Ready(Some(b))),
        p2 == Ok::<Async<Option<T>>, E>(Async::Ready(None)),
        p3 == Ok::<Async<Option<T>>, E>(Async::Ready(None)),
        a.eq_spec(&a),
        b.eq_spec(&b),
    ensures
        next_verdict(p0, a) is Ok,
        next_verdict(p1, b) is Ok,
        done_verdict(p2) is Ok,
        next_verdict(p3, x) == Err::<(), Failure>(Failure::AtEnd),
        Failure::AtEnd.text() == "stream is at its end"@,
{
}

/// For a stream whose first poll fails with `e`: expecting `e` passes, and
/// expecting any element fails because the stream had an error.
pub proof fn lemma_error_first<T: PartialEq, E: PartialEq>(p: StreamPoll<T, E>, e: E, x: T)
    requires
        p == Err::<Async<Option<T>>, E>(e),
        e.eq_spec(&e),
    ensures
        err_verdict(p, e) is Ok,
        next_verdict(p, x) == Err::<(), Failure>(Failure::StreamError),
        Failure::StreamError.text() == "stream had an error"@,
{
}

/// The pending check polls under the silent callback and passes exactly on
/// a poll that is not ready; once the stream has ended it fails because the
/// stream is at its end.
pub proof fn lemma_pending_until_end<T, E>(p: StreamPoll<T, E>, n: Notifier)
    requires
        call_ensures(stream_check_notifier, (true,), n),
    ensures
        n == Notifier::Silent,
        empty_verdict(p) is Ok <==> p == Ok::<Async<Option<T>>, E>(Async::NotReady),
        p == Ok::<Async<Option<T>>, E>(Async::Ready(None)) ==> empty_verdict(p)
            == Err::<(), Failure>(Failure::AtEnd),
{
}

} // verus!
