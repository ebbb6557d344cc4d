//! What one run of a task reports.

use crate::clock::{instant_reads, read_instant, TimeSpan};
use crate::convert::cow_str;
use std::borrow::Cow;
use std::time::Instant;
use vstd::prelude::*;

verus! {

/// What a [`WatchedTaskOutput`] stands for.
pub struct OutputView {
    /// Whether the next run follows without a delay.
    pub skip_delay: bool,
    /// Whether the result of the run before stays on show.
    pub suppress: bool,
    /// What the run has to say.
    pub message: Seq<char>,
    /// After how long, from when, an error is no longer worth an alert.
    pub expire_alert: Option<(TimeSpan, Instant)>,
    /// Whether the message is an error.
    pub error: bool,
}

/// What one run of a task reports when it comes to an end by itself.
#[derive(Debug)]
pub struct WatchedTaskOutput {
    /// Should we skip the delay between runs? If so, the next run follows at once.
    skip_delay: bool,
    /// Should we suppress the output? If so, the new output is not shown, and the last result
    /// stays on show instead.
    suppress: bool,
    message: Cow<'static, str>,
    /// Controls the stickiness of this message: after how long, counted from when, is it no
    /// longer worth an alert?
    expire_alert: Option<(TimeSpan, Instant)>,
    /// Is the message an error?
    error: bool,
}

impl View for WatchedTaskOutput {
    type V = OutputView;

    closed spec fn view(&self) -> OutputView {
        OutputView {
            skip_delay: self.skip_delay,
            suppress: self.suppress,
            message: self.message@,
            expire_alert: self.expire_alert,
            error: self.error,
        }
    }
}

impl WatchedTaskOutput {
    /// A successful output with the given message.
    pub fn new<M: Into<Cow<'static, str>>>(message: M) -> (output: Self)
        ensures
            exists|text: Cow<'static, str>| #[trigger]
                call_ensures(M::into, (message,), text) && output@ == (OutputView {
                    skip_delay: false,
                    suppress: false,
                    message: text@,
                    expire_alert: None,
                    error: false,
                }),
    {
        let text: Cow<'static, str> = message.into();
        WatchedTaskOutput {
            skip_delay: false,
            suppress: false,
            message: text,
            expire_alert: None,
            error: false,
        }
    }

    /// The same output, no longer worth an alert once `expire_duration` has passed from `now` on.
    pub fn set_expiry_at(self, expire_duration: TimeSpan, now: Instant) -> (output: Self)
        ensures
            output@ == (OutputView { expire_alert: Some((expire_duration, now)), ..self@ }),
    {
        let mut output = self;
        output.expire_alert = Some((expire_duration, now));
        output
    }

    /// The same output, no longer worth an alert once `expire_duration` has passed from now on.
    pub fn set_expiry(self, expire_duration: TimeSpan) -> (output: Self)
        ensures
            exists|now: Instant| #[trigger]
                instant_reads(now) && output@ == (OutputView {
                    expire_alert: Some((expire_duration, now)),
                    ..self@
                }),
    {
        let now = read_instant();
        self.set_expiry_at(expire_duration, now)
    }

    /// The same output, with the next run to follow at once.
    pub fn skip_delay(self) -> (output: Self)
        ensures
            output@ == (OutputView { skip_delay: true, ..self@ }),
    {
        let mut output = self;
        output.skip_delay = true;
        output
    }

    /// The same output, as an error.
    pub fn set_error(self) -> (output: Self)
        ensures
            output@ == (OutputView { error: true, ..self@ }),
    {
        let mut output = self;
        output.error = true;
        output
    }

    /// Whether the message is an error.
    pub fn is_error(&self) -> (error: bool)
        ensures
            error == self@.error,
    {
        self.error
    }

    /// What the run has to say.
    pub fn message(&self) -> (message: &str)
        ensures
            message@ == self@.message,
    {
        cow_str(&self.message)
    }

    /// The parts of the output: whether to skip the delay, whether to suppress the output, the
    /// message, when it expires, and whether it is an error.
    pub(crate) fn into_parts(self) -> (parts: (
        bool,
        bool,
        Cow<'static, str>,
        Option<(TimeSpan, Instant)>,
        bool,
    ))
        ensures
            self@ == (OutputView {
                skip_delay: parts.0,
                suppress: parts.1,
                message: parts.2@,
                expire_alert: parts.3,
                error: parts.4,
            }),
    {
        (self.skip_delay, self.suppress, self.message, self.expire_alert, self.error)
    }
}

} // verus!
