use vstd::prelude::*;
use crate::failure::Failure;

verus! {

/// A wake-up callback that a poll is bound to.
#[derive(Clone, Copy, Debug, PartialEq, Eq, Structural)]
pub enum Notifier {
    /// Ignores every wake-up request.
    Silent,
    /// Treats every wake-up request as a failure of the test.
    Panicking,
}

impl Notifier {
    /// What a wake-up request through this callback amounts to.
    pub open spec fn notify_outcome(self) -> Result<(), Failure> {
        match self {
            Notifier::Silent => Ok(()),
            Notifier::Panicking => Err(Failure::UnexpectedWake),
        }
    }

    /// Handles a wake-up request for the task `id`; an `Err` aborts the test.
    pub fn notify(&self, id: usize) -> (r: Result<(), Failure>)
        ensures
            r == self.notify_outcome(),
    {
        match self {
            Notifier::Silent => Ok(()),
            Notifier::Panicking => Err(Failure::UnexpectedWake),
        }
    }
}

/// The callback that ignores wake-up requests.
pub fn notify_noop() -> (r: Notifier)
    ensures
        r == Notifier::Silent,
{
    Notifier::Silent
}

/// The callback that fails the test on any wake-up request.
pub fn notify_panic() -> (r: Notifier)
    ensures
        r == Notifier::Panicking,
{
    Notifier::Panicking
}

/// Every call of either provider yields a callback that handles wake-up
/// requests as every other call of it does.
pub proof fn lemma_notifiers_repeatable(a: Notifier, b: Notifier, c: Notifier, d: Notifier)
    requires
        call_ensures(notify_noop, (), a),
        call_ensures(notify_noop, (), b),
        call_ensures(notify_panic, (), c),
        call_ensures(notify_panic, (), d),
    ensures
        a == b,
        a.notify_outcome() == b.notify_outcome(),
        c == d,
        c.notify_outcome() == d.notify_outcome(),
{
}

/// A wake-up request through the panicking callback aborts the test with
/// "should not be notified", whatever task it names; through the silent one
/// it is ignored.
pub proof fn lemma_panicking_wake_aborts(n: Notifier)
    ensures
        n == Notifier::Panicking ==> n.notify_outcome() is Err,
        n == Notifier::Panicking ==> n.notify_outcome()->Err_0.text() == "should not be notified"@,
        n == Notifier::Silent ==> n.notify_outcome() is Ok,
{
}

} // verus!
