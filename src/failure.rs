use vstd::prelude::*;

verus! {

/// The ways in which a polling expectation can be violated.
#[derive(Clone, Copy, Debug, PartialEq, Eq, Structural)]
pub enum Failure {
    /// A stream produced an element where none was expected.
    MoreElements,
    /// A poll was not ready where a ready outcome was expected.
    NotReady,
    /// A stream produced an error where none was expected.
    StreamError,
    /// A stream had ended where more activity was expected.
    AtEnd,
    /// A stream produced an element other than the expected one.
    ItemMismatch,
    /// A stream produced an error other than the expected one.
    ErrorMismatch,
    /// A future resolved where it was expected to be pending.
    FutureReady,
    /// A future failed where it was expected to be pending.
    FutureError,
    /// A future's terminal result differs from the expected one.
    ResultMismatch,
    /// A wake-up was requested from a callback that forbids it.
    UnexpectedWake,
}

impl Failure {
    /// The text that names this failure.
    pub open spec fn text(self) -> Seq<char> {
        match self {
            Failure::MoreElements => "stream had more elements"@,
            Failure::NotReady => "stream wasn't ready"@,
            Failure::StreamError => "stream had an error"@,
            Failure::AtEnd => "stream is at its end"@,
            Failure::ItemMismatch => "stream produced another element"@,
            Failure::ErrorMismatch => "stream produced another error"@,
            Failure::FutureReady => "future was ready"@,
            Failure::FutureError => "future had an error"@,
            Failure::ResultMismatch => "future resolved to another result"@,
            Failure::UnexpectedWake => "should not be notified"@,
        }
    }

    /// The message with which a failing check aborts the test.
    pub fn message(&self) -> (r: &'static str)
        ensures
            r@ == self.text(),
    {
        match self {
            Failure::MoreElements => "stream had more elements",
            Failure::NotReady => "stream wasn't ready",
            Failure::StreamError => "stream had an error",
            Failure::AtEnd => "stream is at its end",
            Failure::ItemMismatch => "stream produced another element",
            Failure::ErrorMismatch => "stream produced another error",
            Failure::FutureReady => "future was ready",
            Failure::FutureError => "future had an error",
            Failure::ResultMismatch => "future resolved to another result",
            Failure::UnexpectedWake => "should not be notified",
        }
    }
}

} // verus!
