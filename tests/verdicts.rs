use futures::Async;
use poll_assert::failure::Failure;
use poll_assert::future::{assert_done, assert_empty, FuturePoll};
use poll_assert::notifier::{notify_noop, notify_panic, Notifier};
use poll_assert::stream::{
    sassert_done, sassert_empty, sassert_err, sassert_next, stream_check_notifier, StreamPoll,
};

fn item(x: u32) -> StreamPoll<u32, String> {
    Ok(Async::Ready(Some(x)))
}

fn end() -> StreamPoll<u32, String> {
    Ok(Async::Ready(None))
}

fn pending() -> StreamPoll<u32, String> {
    Ok(Async::NotReady)
}

fn failed(e: &str) -> StreamPoll<u32, String> {
    Err(e.to_string())
}

#[test]
fn notifiers_are_repeatable() {
    assert_eq!(notify_noop(), notify_noop());
    assert_eq!(notify_panic(), notify_panic());
    assert_eq!(notify_noop(), Notifier::Silent);
    assert_eq!(notify_panic(), Notifier::Panicking);
    assert_eq!(notify_noop().notify(0), notify_noop().notify(7));
    assert_eq!(notify_panic().notify(0), notify_panic().notify(7));
}

#[test]
fn silent_notifier_ignores_wake() {
    assert_eq!(notify_noop().notify(0), Ok(()));
}

#[test]
fn panicking_notifier_rejects_wake() {
    let r = notify_panic().notify(0);
    assert_eq!(r, Err(Failure::UnexpectedWake));
    assert_eq!(r.unwrap_err().message(), "should not be notified");
}

#[test]
fn future_resolves_to_expected_value() {
    assert_eq!(assert_done(&Ok::<u32, String>(5), &Ok(5)), Ok(()));
    assert_eq!(assert_done(&Err::<u32, String>("x".to_string()), &Err("x".to_string())), Ok(()));
}

#[test]
fn future_resolves_to_other_value() {
    assert_eq!(assert_done(&Ok::<u32, String>(5), &Ok(6)), Err(Failure::ResultMismatch));
    assert_eq!(assert_done(&Ok::<u32, String>(5), &Err("5".to_string())), Err(Failure::ResultMismatch));
    assert_eq!(assert_done(&Err::<u32, String>("a".to_string()), &Err("b".to_string())), Err(Failure::ResultMismatch));
    assert_eq!(assert_done(&Err::<u32, u32>(5), &Ok(5)), Err(Failure::ResultMismatch));
}

#[test]
fn future_pending_passes() {
    let p: FuturePoll<u32, String> = Ok(Async::NotReady);
    assert_eq!(assert_empty(&p), Ok(()));
}

#[test]
fn future_ready_is_not_pending() {
    let p: FuturePoll<u32, String> = Ok(Async::Ready(1));
    assert_eq!(assert_empty(&p), Err(Failure::FutureReady));
    let q: FuturePoll<u32, String> = Err("e".to_string());
    assert_eq!(assert_empty(&q), Err(Failure::FutureError));
}

#[test]
fn stream_two_items_then_end() {
    assert_eq!(sassert_next(&item(1), &1), Ok(()));
    assert_eq!(sassert_next(&item(2), &2), Ok(()));
    assert_eq!(sassert_done(&end()), Ok(()));
    let r = sassert_next(&end(), &3);
    assert_eq!(r, Err(Failure::AtEnd));
    assert_eq!(r.unwrap_err().message(), "stream is at its end");
}

#[test]
fn stream_next_other_item() {
    assert_eq!(sassert_next(&item(1), &2), Err(Failure::ItemMismatch));
}

#[test]
fn stream_next_not_ready() {
    let r = sassert_next(&pending(), &2);
    assert_eq!(r, Err(Failure::NotReady));
    assert_eq!(r.unwrap_err().message(), "stream wasn't ready");
}

#[test]
fn stream_error_first() {
    assert_eq!(sassert_err(&failed("boom"), &"boom".to_string()), Ok(()));
    let r = sassert_next(&failed("boom"), &1);
    assert_eq!(r, Err(Failure::StreamError));
    assert_eq!(r.unwrap_err().message(), "stream had an error");
}

#[test]
fn stream_err_mismatches() {
    assert_eq!(sassert_err(&failed("a"), &"b".to_string()), Err(Failure::ErrorMismatch));
    assert_eq!(sassert_err(&item(1), &"b".to_string()), Err(Failure::MoreElements));
    assert_eq!(sassert_err(&end(), &"b".to_string()), Err(Failure::AtEnd));
    assert_eq!(sassert_err(&pending(), &"b".to_string()), Err(Failure::NotReady));
}

#[test]
fn stream_done_outcomes() {
    assert_eq!(sassert_done(&end()), Ok(()));
    let r = sassert_done(&item(4));
    assert_eq!(r, Err(Failure::MoreElements));
    assert_eq!(r.unwrap_err().message(), "stream had more elements");
    assert_eq!(sassert_done(&pending()), Err(Failure::NotReady));
    assert_eq!(sassert_done(&failed("e")), Err(Failure::StreamError));
}

#[test]
fn stream_pending_until_end() {
    assert_eq!(stream_check_notifier(true), Notifier::Silent);
    assert_eq!(stream_check_notifier(false), Notifier::Panicking);
    assert_eq!(sassert_empty(&pending()), Ok(()));
    assert_eq!(sassert_empty(&end()), Err(Failure::AtEnd));
    assert_eq!(sassert_empty(&item(1)), Err(Failure::MoreElements));
    assert_eq!(sassert_empty(&failed("e")), Err(Failure::StreamError));
}

#[test]
fn failure_messages() {
    assert_eq!(Failure::ItemMismatch.message(), "stream produced another element");
    assert_eq!(Failure::ErrorMismatch.message(), "stream produced another error");
    assert_eq!(Failure::FutureReady.message(), "future was ready");
    assert_eq!(Failure::FutureError.message(), "future had an error");
    assert_eq!(Failure::ResultMismatch.message(), "future resolved to another result");
}
