//! Decisions of the event loop about the hand-over of event information to
//! the logger when the logger's queue fills up.

use vstd::prelude::*;

verus! {

/// What happened when the event loop offered a message to the logger's queue.
#[derive(Copy, Clone, Debug, PartialEq, Eq)]
pub enum SendOutcome {
    /// The message was queued.
    Sent,
    /// The queue was full; the message was dropped.
    Full,
    /// The logger is gone.
    Disconnected,
}

/// What the event loop reports after offering a message.
#[derive(Copy, Clone, Debug, PartialEq, Eq)]
pub enum SendNotice {
    /// Nothing to report.
    Quiet,
    /// The logger caught up after messages were dropped.
    ResumedLogging,
    /// The first dropped message: warn that messages are being dropped.
    StartedDropping,
    /// The logger is gone; the event loop must stop.
    LoggerGone,
}

/// The event loop's bookkeeping of dropped log messages.
#[derive(Copy, Clone, Debug, PartialEq, Eq)]
pub struct MainState {
    /// The warning about dropped messages was given.
    pub warned_about_dropping: bool,
    /// Messages are being dropped since that warning.
    pub currently_dropping: bool,
    /// Log messages dropped so far.
    pub total_dropped_log_messages: u64,
}

/// The state after `outcome`, and the notice to give.
pub open spec fn spec_on_send(s: MainState, outcome: SendOutcome) -> (MainState, SendNotice) {
    match outcome {
        SendOutcome::Sent => if s.currently_dropping {
            (MainState { currently_dropping: false, ..s }, SendNotice::ResumedLogging)
        } else {
            (s, SendNotice::Quiet)
        },
        SendOutcome::Full => {
            let counted = MainState { total_dropped_log_messages: (s.total_dropped_log_messages + 1) as u64, ..s };
            if !s.warned_about_dropping {
                (MainState { warned_about_dropping: true, currently_dropping: true, ..counted }, SendNotice::StartedDropping)
            } else {
                (counted, SendNotice::Quiet)
            }
        },
        SendOutcome::Disconnected => (s, SendNotice::LoggerGone),
    }
}

impl MainState {
    /// Nothing dropped yet.
    pub fn new() -> (s: Self)
        ensures
            !s.warned_about_dropping,
            !s.currently_dropping,
            s.total_dropped_log_messages == 0,
    {
        MainState { warned_about_dropping: false, currently_dropping: false, total_dropped_log_messages: 0 }
    }

    /// Accounts for one offered message: a queued message ends a period of
    /// dropping, a dropped one is counted and the first one is announced, and
    /// a vanished logger is reported.
    pub fn on_send(&mut self, outcome: SendOutcome) -> (notice: SendNotice)
        requires
            outcome == SendOutcome::Full ==> old(self).total_dropped_log_messages < u64::MAX,
        ensures
            (*final(self), notice) == spec_on_send(*old(self), outcome),
    {
        match outcome {
            SendOutcome::Sent => {
                if self.currently_dropping {
                    self.currently_dropping = false;
                    SendNotice::ResumedLogging
                } else {
                    SendNotice::Quiet
                }
            },
            SendOutcome::Full => {
                self.total_dropped_log_messages = self.total_dropped_log_messages + 1;
                if !self.warned_about_dropping {
                    self.warned_about_dropping = true;
                    self.currently_dropping = true;
                    SendNotice::StartedDropping
                } else {
                    SendNotice::Quiet
                }
            },
            SendOutcome::Disconnected => SendNotice::LoggerGone,
        }
    }
}

} // verus!
