use vstd::prelude::*;

verus! {

/// A call that changes an error notifier.
#[derive(Clone, Copy, Debug, PartialEq, Eq, Structural)]
pub enum NotifierCall {
    NotifyError,
    ClearError,
}

/// Whether an error is outstanding after `call`, given whether one was (`has_error`).
pub open spec fn spec_notifier_step(has_error: bool, call: NotifierCall) -> bool {
    match call {
        NotifierCall::NotifyError => true,
        NotifierCall::ClearError => false,
    }
}

/// Whether an error is outstanding after the calls `calls`, in order, on a new notifier.
pub open spec fn spec_notifier_run(calls: Seq<NotifierCall>) -> bool
    decreases calls.len(),
{
    if calls.len() == 0 {
        false
    } else {
        spec_notifier_step(spec_notifier_run(calls.drop_last()), calls.last())
    }
}

/// Records whether an error (such as a failed MIDI send) has occurred and not yet been reported.
#[derive(Clone, Copy, Debug)]
pub struct ErrorNotifier {
    has_error: bool,
}

impl ErrorNotifier {
    /// Whether an error is outstanding.
    pub closed spec fn spec_has_error(&self) -> bool {
        self.has_error
    }

    pub fn new() -> (n: Self)
        ensures
            n.spec_has_error() == spec_notifier_run(Seq::empty()),
            !n.spec_has_error(),
    {
        Self { has_error: false }
    }

    pub fn clear_error(&mut self)
        ensures
            final(self).spec_has_error() == spec_notifier_step(old(self).spec_has_error(), NotifierCall::ClearError),
            !final(self).spec_has_error(),
    {
        self.has_error = false;
    }

    pub fn has_error(&self) -> (b: bool)
        ensures
            b == self.spec_has_error(),
    {
        self.has_error
    }

    pub fn notify_error(&mut self)
        ensures
            final(self).spec_has_error() == spec_notifier_step(old(self).spec_has_error(), NotifierCall::NotifyError),
            final(self).spec_has_error(),
    {
        self.has_error = true;
    }
}

/// An error is outstanding exactly when an error has been notified since the notifier was made
/// or last cleared: after any sequence of calls on a new notifier, exactly when the sequence is
/// not empty and its last call is `notify_error`.
pub proof fn law_error_outstanding_iff_notified_since_cleared(calls: Seq<NotifierCall>)
    ensures
        spec_notifier_run(calls) == (calls.len() > 0 && calls.last() == NotifierCall::NotifyError),
{
}

} // verus!
