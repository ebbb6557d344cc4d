//! The status of a task: its last result, the run in progress, and what is shown of them.

use crate::clock::{
    elapsed_reads, in_range, now_reads, plus_seconds, read_elapsed, Moment, MomentView, TimeSpan,
};
use crate::config::TaskConfig;
use crate::context::WatcherAppContext;
use crate::convert::{cow_clone, cow_str};
use crate::label::TaskLabel;
use crate::text::{int_text, push_i64};
use std::borrow::Cow;
use std::sync::Arc;
use std::time::Instant;
use vstd::prelude::*;

verus! {

/// What is shown of a task before its first run has come to an end.
pub const NOT_YET_RUN_MESSAGE: &'static str = "Task has not yet completed a single run";

/// What a [`TaskResultValue`] stands for.
pub enum ResultView {
    Success(Seq<char>),
    Failure(Seq<char>),
    NotYetRun,
    Info(Seq<char>),
}

/// The result of a task.
#[derive(Debug)]
pub enum TaskResultValue {
    /// The last run succeeded, with this message.
    Success(Cow<'static, str>),
    /// The last run failed, with this error.
    Failure(String),
    /// No run has come to an end.
    NotYetRun,
    /// A run that is still in progress has reported this message.
    Info(Cow<'static, str>),
}

impl View for TaskResultValue {
    type V = ResultView;

    open spec fn view(&self) -> ResultView {
        match self {
            TaskResultValue::Success(message) => ResultView::Success(message@),
            TaskResultValue::Failure(error) => ResultView::Failure(error@),
            TaskResultValue::NotYetRun => ResultView::NotYetRun,
            TaskResultValue::Info(message) => ResultView::Info(message@),
        }
    }
}

impl Clone for TaskResultValue {
    fn clone(&self) -> (value: Self)
        ensures
            value@ == self@,
    {
        match self {
            TaskResultValue::Success(message) => TaskResultValue::Success(cow_clone(message)),
            TaskResultValue::Failure(error) => TaskResultValue::Failure(error.clone()),
            TaskResultValue::NotYetRun => TaskResultValue::NotYetRun,
            TaskResultValue::Info(message) => TaskResultValue::Info(cow_clone(message)),
        }
    }
}

impl ResultView {
    /// The text that is shown for the result.
    pub open spec fn text(self) -> Seq<char> {
        match self {
            ResultView::Success(message) => message,
            ResultView::Failure(error) => error,
            ResultView::NotYetRun => NOT_YET_RUN_MESSAGE@,
            ResultView::Info(message) => message,
        }
    }
}

impl TaskResultValue {
    /// The text that is shown for the result.
    pub fn as_str(&self) -> (text: &str)
        ensures
            text@ == self@.text(),
    {
        match self {
            TaskResultValue::Success(s) => cow_str(s),
            TaskResultValue::Failure(s) => s.as_str(),
            TaskResultValue::NotYetRun => NOT_YET_RUN_MESSAGE,
            TaskResultValue::Info(s) => cow_str(s),
        }
    }

    /// Whether the result is a report from a run that is still in progress.
    pub fn is_info(&self) -> (info: bool)
        ensures
            info == (self@ is Info),
    {
        matches!(self, TaskResultValue::Info(_))
    }
}

/// The result of a task, and when it came in.
#[derive(Debug)]
pub struct TaskResult {
    pub value: Arc<TaskResultValue>,
    pub updated: Moment,
}

impl Clone for TaskResult {
    fn clone(&self) -> (result: Self)
        ensures
            result.value@ == self.value@,
            result.updated@ == self.updated@,
    {
        TaskResult { value: self.value.clone(), updated: self.updated.clone() }
    }
}

/// An error after which the task is tried again, and when it came in.
#[derive(Debug)]
pub struct TaskError {
    pub value: Arc<String>,
    pub updated: Moment,
}

impl Clone for TaskError {
    fn clone(&self) -> (error: Self)
        ensures
            error.value@ == self.value@,
            error.updated@ == self.updated@,
    {
        TaskError { value: self.value.clone(), updated: self.updated.clone() }
    }
}

/// What a [`TaskError`] stands for.
pub struct ErrorView {
    pub value: Seq<char>,
    pub updated: MomentView,
}

/// How many runs of a task came to which end.
#[derive(Clone, Copy, Debug, PartialEq, Eq, Structural)]
pub struct TaskCounts {
    /// Runs that succeeded.
    pub successes: usize,
    /// Failed runs after which the task was tried again.
    pub retries: usize,
    /// Failed runs that were reported.
    pub errors: usize,
}

impl Default for TaskCounts {
    fn default() -> (counts: Self)
        ensures
            counts == (TaskCounts { successes: 0, retries: 0, errors: 0 }),
    {
        TaskCounts { successes: 0, retries: 0, errors: 0 }
    }
}

/// What a [`TaskStatus`] stands for.
pub struct StatusView {
    pub value: ResultView,
    pub updated: MomentView,
    pub last_retry_error: Option<ErrorView>,
    pub current_run_started: Option<MomentView>,
    pub out_of_date: Option<u32>,
    pub expire_last_result: Option<(TimeSpan, Instant)>,
    pub counts: TaskCounts,
    pub last_run_seconds: Option<i64>,
}

/// The status of a task.
#[derive(Debug)]
pub struct TaskStatus {
    pub last_result: TaskResult,
    pub last_retry_error: Option<TaskError>,
    pub current_run_started: Option<Moment>,
    /// After how many seconds of a run is the last result out of date?
    pub out_of_date: Option<u32>,
    /// After how long, counted from when, is the last result no longer worth an alert?
    pub expire_last_result: Option<(TimeSpan, Instant)>,
    pub counts: TaskCounts,
    pub last_run_seconds: Option<i64>,
}

impl View for TaskStatus {
    type V = StatusView;

    open spec fn view(&self) -> StatusView {
        StatusView {
            value: self.last_result.value@,
            updated: self.last_result.updated@,
            last_retry_error: match self.last_retry_error {
                Some(error) => Some(ErrorView { value: error.value@, updated: error.updated@ }),
                None => None,
            },
            current_run_started: match self.current_run_started {
                Some(started) => Some(started@),
                None => None,
            },
            out_of_date: self.out_of_date,
            expire_last_result: self.expire_last_result,
            counts: self.counts,
            last_run_seconds: self.last_run_seconds,
        }
    }
}

impl Clone for TaskStatus {
    fn clone(&self) -> (status: Self)
        ensures
            status@ == self@,
    {
        TaskStatus {
            last_result: self.last_result.clone(),
            last_retry_error: match &self.last_retry_error {
                Some(error) => Some(error.clone()),
                None => None,
            },
            current_run_started: match &self.current_run_started {
                Some(started) => Some(started.clone()),
                None => None,
            },
            out_of_date: self.out_of_date,
            expire_last_result: self.expire_last_result,
            counts: self.counts,
            last_run_seconds: self.last_run_seconds,
        }
    }
}

/// How far a run has gone beyond the time that it may take.
#[derive(Clone, Copy, Debug, PartialEq, Eq, Structural)]
pub enum OutOfDateType {
    Not,
    Slightly,
    Very,
}

/// The seconds after which a run that is held to a time is very much out of date.
pub const VERY_OUT_OF_DATE_SECONDS: u32 = 300;

/// What is shown of a status at a glance, in the order in which statuses are listed.
#[derive(Clone, Copy, Debug, PartialEq, Eq, PartialOrd, Ord, Structural)]
pub enum ShortStatus {
    Error,
    OutOfDateError,
    OutOfDate,
    ErrorNoAlert,
    OutOfDateNoAlert,
    Success,
    NotYetRun,
    Info,
}

impl ShortStatus {
    /// The place of the status in the order in which statuses are listed.
    pub open spec fn rank(self) -> int {
        match self {
            ShortStatus::Error => 0,
            ShortStatus::OutOfDateError => 1,
            ShortStatus::OutOfDate => 2,
            ShortStatus::ErrorNoAlert => 3,
            ShortStatus::OutOfDateNoAlert => 4,
            ShortStatus::Success => 5,
            ShortStatus::NotYetRun => 6,
            ShortStatus::Info => 7,
        }
    }

    /// The place of the status in the order in which statuses are listed.
    pub fn place(self) -> (place: u8)
        ensures
            place == self.rank(),
    {
        match self {
            ShortStatus::Error => 0,
            ShortStatus::OutOfDateError => 1,
            ShortStatus::OutOfDate => 2,
            ShortStatus::ErrorNoAlert => 3,
            ShortStatus::OutOfDateNoAlert => 4,
            ShortStatus::Success => 5,
            ShortStatus::NotYetRun => 6,
            ShortStatus::Info => 7,
        }
    }

    /// The words for the status.
    pub open spec fn words(self) -> Seq<char> {
        match self {
            ShortStatus::OutOfDate => "OUT OF DATE"@,
            ShortStatus::OutOfDateError => "ERROR DUE TO OUT OF DATE"@,
            ShortStatus::OutOfDateNoAlert => "OUT OF DATE (no alert)"@,
            ShortStatus::Success => "SUCCESS"@,
            ShortStatus::Error => "ERROR"@,
            ShortStatus::ErrorNoAlert => "ERROR (no alert)"@,
            ShortStatus::NotYetRun => "NOT YET RUN"@,
            ShortStatus::Info => "RUNNING"@,
        }
    }

    /// The words for the status.
    pub fn as_str(self) -> (words: &'static str)
        ensures
            words@ == self.words(),
    {
        match self {
            ShortStatus::OutOfDate => "OUT OF DATE",
            ShortStatus::OutOfDateError => "ERROR DUE TO OUT OF DATE",
            ShortStatus::OutOfDateNoAlert => "OUT OF DATE (no alert)",
            ShortStatus::Success => "SUCCESS",
            ShortStatus::Error => "ERROR",
            ShortStatus::ErrorNoAlert => "ERROR (no alert)",
            ShortStatus::NotYetRun => "NOT YET RUN",
            ShortStatus::Info => "RUNNING",
        }
    }

    /// Whether the status is worth an alert.
    pub open spec fn alerts(self) -> bool {
        self is Error || self is OutOfDateError
    }

    /// Whether the status is worth an alert.
    pub fn alert(&self) -> (alert: bool)
        ensures
            alert == self.alerts(),
    {
        match self {
            ShortStatus::Error => true,
            ShortStatus::OutOfDateError => true,
            ShortStatus::OutOfDate => false,
            ShortStatus::ErrorNoAlert => false,
            ShortStatus::OutOfDateNoAlert => false,
            ShortStatus::Success => false,
            ShortStatus::NotYetRun => false,
            ShortStatus::Info => false,
        }
    }

    /// The class of the style sheet in which the status is shown.
    pub fn css_class(self) -> (class: &'static str)
        ensures
            self is Error || self is OutOfDateError ==> class@ == "link-danger"@,
            self is OutOfDate || self is ErrorNoAlert ==> class@ == "text-red-400"@,
            self is OutOfDateNoAlert ==> class@ == "text-red-300"@,
            self is Success ==> class@ == "link-success"@,
            self is NotYetRun || self is Info ==> class@ == "link-primary"@,
    {
        match self {
            ShortStatus::Error => "link-danger",
            ShortStatus::OutOfDateError => "link-danger",
            ShortStatus::OutOfDate => "text-red-400",
            ShortStatus::ErrorNoAlert => "text-red-400",
            ShortStatus::OutOfDateNoAlert => "text-red-300",
            ShortStatus::Success => "link-success",
            ShortStatus::NotYetRun => "link-primary",
            ShortStatus::Info => "link-primary",
        }
    }
}

/// What is shown of a result at a glance: `out_of_date` says how long the run in progress has
/// taken, `triggers_alert` whether the task is worth an alert, and `expired` whether its last
/// result has expired.
pub open spec fn short_status(
    value: ResultView,
    out_of_date: OutOfDateType,
    triggers_alert: bool,
    expired: bool,
) -> ShortStatus {
    match value {
        ResultView::NotYetRun => ShortStatus::NotYetRun,
        ResultView::Failure(_) => if triggers_alert && !expired {
            ShortStatus::Error
        } else {
            ShortStatus::ErrorNoAlert
        },
        _ => match out_of_date {
            OutOfDateType::Not => if value is Success {
                ShortStatus::Success
            } else {
                ShortStatus::Info
            },
            OutOfDateType::Slightly => if triggers_alert {
                ShortStatus::OutOfDate
            } else {
                ShortStatus::OutOfDateNoAlert
            },
            OutOfDateType::Very => if triggers_alert {
                ShortStatus::OutOfDateError
            } else {
                ShortStatus::OutOfDateNoAlert
            },
        },
    }
}

/// Whether `answer` is one that the application may give to the question whether `label` is worth
/// an alert.
pub open spec fn alert_answer<C: WatcherAppContext>(
    app: &C,
    label: &TaskLabel,
    selected_label: Option<&TaskLabel>,
    answer: bool,
) -> bool {
    call_ensures(C::triggers_alert, (app, label, selected_label), answer)
}

impl StatusView {
    /// How far the run in progress has gone, at `now`, beyond the time that it may take.
    pub open spec fn out_of_date_at(self, now: int) -> OutOfDateType {
        match (self.current_run_started, self.out_of_date) {
            (Some(started), Some(seconds)) => {
                if plus_seconds(started.nanos, VERY_OUT_OF_DATE_SECONDS as int) <= now {
                    OutOfDateType::Very
                } else if plus_seconds(started.nanos, seconds as int) <= now {
                    OutOfDateType::Slightly
                } else {
                    OutOfDateType::Not
                }
            },
            _ => OutOfDateType::Not,
        }
    }

    /// Whether the times at which the run in progress goes out of date are points in time.
    pub open spec fn deadlines_in_range(self) -> bool {
        match (self.current_run_started, self.out_of_date) {
            (Some(started), Some(seconds)) => {
                &&& in_range(plus_seconds(started.nanos, VERY_OUT_OF_DATE_SECONDS as int))
                &&& in_range(plus_seconds(started.nanos, seconds as int))
            },
            _ => true,
        }
    }

    /// Whether the times that have to be looked at, to tell how far the run in progress has gone at
    /// `now`, are points in time: the second one only where the first has not passed.
    pub open spec fn deadlines_in_range_at(self, now: int) -> bool {
        match (self.current_run_started, self.out_of_date) {
            (Some(started), Some(seconds)) => {
                let very = plus_seconds(started.nanos, VERY_OUT_OF_DATE_SECONDS as int);
                &&& in_range(very)
                &&& now < very ==> in_range(plus_seconds(started.nanos, seconds as int))
            },
            _ => true,
        }
    }

    /// Whether it can be told what is shown at a glance: a success or a report may be out of date,
    /// so the times at which it goes out of date have to be points in time.
    pub open spec fn can_be_told(self) -> bool {
        self.value is Success || self.value is Info ==> self.deadlines_in_range()
    }

    /// Whether the last result has expired once `elapsed` has passed since its expiry was set.
    pub open spec fn expired_after(self, elapsed: TimeSpan) -> bool {
        match self.expire_last_result {
            Some(expiry) => elapsed.total_nanos() >= expiry.0.total_nanos(),
            None => false,
        }
    }

    /// Whether the last result may be found expired, when the monotonic clock is read.
    pub open spec fn may_be_expired(self, expired: bool) -> bool {
        match self.expire_last_result {
            Some(expiry) => exists|elapsed: TimeSpan| #[trigger]
                elapsed_reads(expiry.1, elapsed) && expired == self.expired_after(elapsed),
            None => !expired,
        }
    }

    /// Whether `short` may be shown at a glance, when the application is asked whether `label` is
    /// worth an alert and the clocks are read.
    pub open spec fn may_show<C: WatcherAppContext>(
        self,
        app: &C,
        label: &TaskLabel,
        selected_label: Option<&TaskLabel>,
        short: ShortStatus,
    ) -> bool {
        match self.value {
            ResultView::NotYetRun => short is NotYetRun,
            ResultView::Failure(_) => exists|answer: bool, expired: bool|
                {
                    &&& #[trigger] alert_answer(app, label, selected_label, answer)
                    &&& answer ==> self.may_be_expired(expired)
                    &&& short == #[trigger] short_status(
                        self.value,
                        OutOfDateType::Not,
                        answer,
                        expired,
                    )
                },
            _ => exists|answer: bool, now: Moment|
                {
                    &&& #[trigger] alert_answer(app, label, selected_label, answer)
                    &&& #[trigger] now_reads(now)
                    &&& short == short_status(
                        self.value,
                        self.out_of_date_at(now@.nanos),
                        answer,
                        false,
                    )
                },
        }
    }
}

/// The status of a task that has not completed a run: `started` is when its run in progress
/// began.
pub open spec fn not_yet_run_view(
    updated: MomentView,
    started: Option<MomentView>,
    out_of_date: Option<u32>,
) -> StatusView {
    StatusView {
        value: ResultView::NotYetRun,
        updated,
        last_retry_error: None,
        current_run_started: started,
        out_of_date,
        expire_last_result: None,
        counts: TaskCounts { successes: 0, retries: 0, errors: 0 },
        last_run_seconds: None,
    }
}

impl TaskStatus {
    /// The status of a task that has not completed a run: `started` is when its run in progress
    /// began.
    pub fn not_yet_run(updated: Moment, started: Option<Moment>, out_of_date: Option<u32>) -> (
    status: TaskStatus)
        ensures
            status@ == not_yet_run_view(
                updated@,
                match started {
                    Some(moment) => Some(moment@),
                    None => None,
                },
                out_of_date,
            ),
    {
        TaskStatus {
            last_result: TaskResult { value: Arc::new(TaskResultValue::NotYetRun), updated },
            last_retry_error: None,
            current_run_started: started,
            out_of_date,
            expire_last_result: None,
            counts: TaskCounts::default(),
            last_run_seconds: None,
        }
    }

    /// The status, from now on, of a task that runs by itself.
    pub fn background() -> (status: TaskStatus)
        ensures
            exists|updated: Moment, started: Moment| #[trigger]
                now_reads(updated) && #[trigger] now_reads(started) && status@ == not_yet_run_view(
                    updated@,
                    Some(started@),
                    None,
                ),
    {
        let updated = Moment::now();
        let started = Moment::now();
        proof {
            assert(now_reads(updated) && now_reads(started));
        }
        TaskStatus::not_yet_run(updated, Some(started), None)
    }

    /// The status, from now on, of a task that is run over and over again as `config` says.
    pub fn periodic(config: &TaskConfig) -> (status: TaskStatus)
        ensures
            exists|updated: Moment| #[trigger]
                now_reads(updated) && status@ == not_yet_run_view(
                    updated@,
                    None,
                    config.out_of_date,
                ),
    {
        let updated = Moment::now();
        proof {
            assert(now_reads(updated));
        }
        TaskStatus::not_yet_run(updated, None, config.out_of_date)
    }

    /// Shows `message` as the report of a run in progress, received at `now`.
    pub fn set_info(&mut self, message: Cow<'static, str>, now: Moment)
        ensures
            final(self)@ == (StatusView {
                value: ResultView::Info(message@),
                updated: now@,
                ..old(self)@
            }),
    {
        self.last_result = TaskResult {
            value: Arc::new(TaskResultValue::Info(message)),
            updated: now,
        };
    }

    /// Shows `message` as the report of a run in progress, received now.
    pub fn set_status<M: Into<Cow<'static, str>>>(&mut self, message: M)
        ensures
            exists|text: Cow<'static, str>, now: Moment| #[trigger]
                call_ensures(M::into, (message,), text) && #[trigger] now_reads(now)
                    && final(self)@ == (StatusView {
                    value: ResultView::Info(text@),
                    updated: now@,
                    ..old(self)@
                }),
    {
        let text: Cow<'static, str> = message.into();
        let now = Moment::now();
        proof {
            assert(now_reads(now));
        }
        self.set_info(text, now);
    }

    /// How many seconds the last run took, in words.
    pub fn total_run_time(&self) -> (text: String)
        ensures
            text@ == match self@.last_run_seconds {
                Some(secs) => int_text(secs as int),
                None => "Unknown"@,
            },
    {
        match self.last_run_seconds {
            Some(secs) => {
                let mut text = String::new();
                push_i64(&mut text, secs);
                proof {
                    assert(Seq::<char>::empty() + int_text(secs as int) =~= int_text(secs as int));
                }
                text
            },
            None => String::from("Unknown"),
        }
    }

    /// Whether the last result has expired once `elapsed` has passed since its expiry was set.
    pub fn is_expired_after(&self, elapsed: TimeSpan) -> (expired: bool)
        ensures
            expired == self@.expired_after(elapsed),
    {
        match &self.expire_last_result {
            Some((expiry_duration, _)) => elapsed.reaches(*expiry_duration),
            None => false,
        }
    }

    /// Whether the last result has expired by now.
    pub fn is_expired(&self) -> (expired: bool)
        ensures
            self@.may_be_expired(expired),
    {
        match &self.expire_last_result {
            Some((_, instant)) => {
                let elapsed = read_elapsed(instant);
                self.is_expired_after(elapsed)
            },
            None => false,
        }
    }

    /// Whether the times at which the run in progress goes out of date are points in time.
    pub fn deadlines_fit(&self) -> (fit: bool)
        ensures
            fit == self@.deadlines_in_range(),
    {
        match (&self.current_run_started, self.out_of_date) {
            (Some(started), Some(seconds)) => started.can_add(VERY_OUT_OF_DATE_SECONDS)
                && started.can_add(seconds),
            _ => true,
        }
    }

    /// Whether it can be told what is shown at a glance.
    pub fn is_tellable(&self) -> (tellable: bool)
        ensures
            tellable == self@.can_be_told(),
    {
        match &*self.last_result.value {
            TaskResultValue::Success(_) | TaskResultValue::Info(_) => self.deadlines_fit(),
            TaskResultValue::Failure(_) | TaskResultValue::NotYetRun => true,
        }
    }

    /// How far the run in progress has gone, at `now`, beyond the time that it may take.
    pub fn out_of_date_by(&self, now: &Moment) -> (out_of_date: OutOfDateType)
        requires
            self@.deadlines_in_range_at(now@.nanos),
        ensures
            out_of_date == self@.out_of_date_at(now@.nanos),
    {
        match &self.current_run_started {
            Some(started) => match self.out_of_date {
                Some(seconds) => {
                    if started.passed_by(VERY_OUT_OF_DATE_SECONDS, now) {
                        OutOfDateType::Very
                    } else if started.passed_by(seconds, now) {
                        OutOfDateType::Slightly
                    } else {
                        OutOfDateType::Not
                    }
                },
                None => OutOfDateType::Not,
            },
            None => OutOfDateType::Not,
        }
    }

    /// How far the run in progress has gone by now beyond the time that it may take.
    pub fn is_out_of_date(&self) -> (out_of_date: OutOfDateType)
        requires
            self@.deadlines_in_range(),
        ensures
            exists|now: Moment| #[trigger]
                now_reads(now) && out_of_date == self@.out_of_date_at(now@.nanos),
    {
        let now = Moment::now();
        proof {
            assert(now_reads(now));
        }
        self.out_of_date_by(&now)
    }

    /// What is shown of the status at a glance, where `out_of_date` says how long the run in
    /// progress has taken, `triggers_alert` whether the task is worth an alert, and `expired`
    /// whether its last result has expired.
    pub fn short_for(
        &self,
        out_of_date: OutOfDateType,
        triggers_alert: bool,
        expired: bool,
    ) -> (short: ShortStatus)
        ensures
            short == short_status(self@.value, out_of_date, triggers_alert, expired),
    {
        match &*self.last_result.value {
            TaskResultValue::Success(_) => match (out_of_date, triggers_alert) {
                (OutOfDateType::Not, _) => ShortStatus::Success,
                (_, false) => ShortStatus::OutOfDateNoAlert,
                (OutOfDateType::Slightly, true) => ShortStatus::OutOfDate,
                (OutOfDateType::Very, true) => ShortStatus::OutOfDateError,
            },
            TaskResultValue::Info(_) => match (out_of_date, triggers_alert) {
                (OutOfDateType::Not, _) => ShortStatus::Info,
                (_, false) => ShortStatus::OutOfDateNoAlert,
                (OutOfDateType::Slightly, true) => ShortStatus::OutOfDate,
                (OutOfDateType::Very, true) => ShortStatus::OutOfDateError,
            },
            TaskResultValue::Failure(_) => {
                if triggers_alert {
                    if expired {
                        ShortStatus::ErrorNoAlert
                    } else {
                        ShortStatus::Error
                    }
                } else {
                    ShortStatus::ErrorNoAlert
                }
            },
            TaskResultValue::NotYetRun => ShortStatus::NotYetRun,
        }
    }

    /// What is shown of the status at a glance, at `now`, once `elapsed` has passed since the
    /// expiry of the last result was set, where `triggers_alert` says whether the task is worth an
    /// alert.
    pub fn short_at(&self, now: &Moment, elapsed: TimeSpan, triggers_alert: bool) -> (short:
        ShortStatus)
        requires
            self@.value is Success || self@.value is Info ==> self@.deadlines_in_range_at(
                now@.nanos,
            ),
        ensures
            short == short_status(
                self@.value,
                self@.out_of_date_at(now@.nanos),
                triggers_alert,
                self@.expired_after(elapsed),
            ),
    {
        match &*self.last_result.value {
            TaskResultValue::NotYetRun => ShortStatus::NotYetRun,
            TaskResultValue::Failure(_) => {
                let expired = self.is_expired_after(elapsed);
                self.short_for(OutOfDateType::Not, triggers_alert, expired)
            },
            TaskResultValue::Success(_) | TaskResultValue::Info(_) => {
                let out_of_date = self.out_of_date_by(now);
                self.short_for(out_of_date, triggers_alert, false)
            },
        }
    }

    /// What is shown of the status at a glance.
    pub fn short<C: WatcherAppContext>(
        &self,
        app: &C,
        label: &TaskLabel,
        selected_label: Option<&TaskLabel>,
    ) -> (short: ShortStatus)
        requires
            self@.can_be_told(),
        ensures
            self@.may_show(app, label, selected_label, short),
    {
        match &*self.last_result.value {
            TaskResultValue::NotYetRun => ShortStatus::NotYetRun,
            TaskResultValue::Failure(_) => {
                let answer = app.triggers_alert(label, selected_label);
                let expired = if answer {
                    self.is_expired()
                } else {
                    false
                };
                proof {
                    assert(alert_answer(app, label, selected_label, answer));
                }
                self.short_for(OutOfDateType::Not, answer, expired)
            },
            TaskResultValue::Success(_) | TaskResultValue::Info(_) => {
                let out_of_date = self.is_out_of_date();
                let answer = app.triggers_alert(label, selected_label);
                proof {
                    assert(alert_answer(app, label, selected_label, answer));
                }
                self.short_for(out_of_date, answer, false)
            },
        }
    }
}

} // verus!
