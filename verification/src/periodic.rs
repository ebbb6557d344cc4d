//! The life of a task that is run over and over again.
//!
//! A run begins, comes to an end with an output or an error, and is followed by a pause. What the
//! end of a run does to the status of the task, whether it is worth an alert, and how long the
//! pause is, is decided here; running the task, sending the alert and sleeping are up to the
//! caller.

use crate::clock::{now_reads, seconds_component, Moment, MomentView};
use crate::config::{
    may_pause, pause_for, retry_limit_reached, valid_delay, validate_delay, InvertedDelay, Pause,
    TaskConfig, WatcherConfig,
};
use crate::context::WatcherAppContext;
use crate::convert::{cow_into_string, cow_str};
use crate::label::TaskLabel;
use crate::output::{OutputView, WatchedTaskOutput};
use crate::status::{
    alert_answer, ErrorView, ResultView, StatusView, TaskCounts,
    TaskError, TaskResult, TaskResultValue, TaskStatus,
};
use std::sync::Arc;
use vstd::prelude::*;

verus! {

/// What an [`Alert`] stands for.
pub enum AlertView {
    Down { task: Seq<char>, error: Seq<char> },
    Recovered { task: Seq<char>, old_error: Seq<char>, new_message: Seq<char> },
    FirstFailure { task: Seq<char>, error: Seq<char> },
}

/// A change in the health of a task that is worth telling.
#[derive(Debug)]
pub enum Alert {
    /// A task was previously successful, but is now failing.
    Down { task: TaskLabel, error: String },
    /// A task was previously failing, but has now recovered.
    Recovered { task: TaskLabel, old_error: String, new_message: String },
    /// A task has failed for the first time.
    FirstFailure { task: TaskLabel, error: String },
}

impl View for Alert {
    type V = AlertView;

    open spec fn view(&self) -> AlertView {
        match self {
            Alert::Down { task, error } => AlertView::Down { task: task@, error: error@ },
            Alert::Recovered { task, old_error, new_message } => AlertView::Recovered {
                task: task@,
                old_error: old_error@,
                new_message: new_message@,
            },
            Alert::FirstFailure { task, error } => AlertView::FirstFailure {
                task: task@,
                error: error@,
            },
        }
    }
}

/// What an optional alert stands for.
pub open spec fn alert_view(alert: Option<Alert>) -> Option<AlertView> {
    match alert {
        Some(alert) => Some(alert@),
        None => None,
    }
}

/// The seconds that are shown for a run that began with the status `status` and ended at
/// `finished`.
pub open spec fn run_seconds(status: StatusView, finished: MomentView) -> Option<i64> {
    match status.current_run_started {
        Some(started) => Some(seconds_component(finished.nanos - started.nanos) as i64),
        None => None,
    }
}

/// The status once a run has begun at `now`.
pub open spec fn status_in_run(
    status: StatusView,
    out_of_date: Option<u32>,
    now: MomentView,
) -> StatusView {
    StatusView { current_run_started: Some(now), out_of_date, ..status }
}

/// The counts once a run has come to an end with an output.
pub open spec fn counts_after_output(counts: TaskCounts, error: bool) -> TaskCounts {
    if error {
        TaskCounts { errors: (counts.errors + 1) as usize, ..counts }
    } else {
        TaskCounts { successes: (counts.successes + 1) as usize, ..counts }
    }
}

/// The result that is on show once a run has come to an end with an output.
pub open spec fn value_after_output(value: ResultView, output: OutputView) -> ResultView {
    if output.suppress {
        value
    } else if output.error {
        ResultView::Failure(output.message)
    } else {
        ResultView::Success(output.message)
    }
}

/// The status once a run, which began with the counts `counts`, has come to an end with an
/// output.
pub open spec fn status_after_output(
    status: StatusView,
    counts: TaskCounts,
    out_of_date: Option<u32>,
    output: OutputView,
    finished: MomentView,
    updated: MomentView,
) -> StatusView {
    StatusView {
        value: value_after_output(status.value, output),
        updated,
        last_retry_error: None,
        current_run_started: None,
        out_of_date,
        expire_last_result: output.expire_alert,
        counts: counts_after_output(counts, output.error),
        last_run_seconds: run_seconds(status, finished),
    }
}

/// The alert that the output of a run gives rise to, where `value` is the result on show before,
/// `failed` says whether a failure of the task was reported before, `healthy` whether the last run
/// that was reported succeeded, and `triggers_alert` whether the task is worth an alert.
pub open spec fn alert_after_output(
    value: ResultView,
    task: Seq<char>,
    failed: bool,
    healthy: bool,
    output: OutputView,
    triggers_alert: bool,
) -> Option<AlertView> {
    if output.error {
        alert_after_failure(value, task, failed, healthy, output.message, triggers_alert)
    } else {
        match value {
            ResultView::Failure(old_error) if triggers_alert => Some(
                AlertView::Recovered { task, old_error, new_message: output.message },
            ),
            _ => None,
        }
    }
}

/// The status once a run, which began with the counts `counts`, has failed with `error` and is
/// reported.
pub open spec fn status_after_failure(
    status: StatusView,
    counts: TaskCounts,
    out_of_date: Option<u32>,
    error: Seq<char>,
    finished: MomentView,
    updated: MomentView,
) -> StatusView {
    StatusView {
        value: ResultView::Failure(error),
        updated,
        last_retry_error: None,
        current_run_started: None,
        out_of_date,
        expire_last_result: None,
        counts: TaskCounts { errors: (counts.errors + 1) as usize, ..counts },
        last_run_seconds: run_seconds(status, finished),
    }
}

/// The status once a run, which began with the counts `counts`, has failed with `error` and is to
/// be tried again.
pub open spec fn status_after_retry(
    status: StatusView,
    counts: TaskCounts,
    out_of_date: Option<u32>,
    error: Seq<char>,
    finished: MomentView,
    updated: MomentView,
) -> StatusView {
    StatusView {
        value: status.value,
        updated: status.updated,
        last_retry_error: Some(ErrorView { value: error, updated }),
        current_run_started: None,
        out_of_date,
        expire_last_result: None,
        counts: TaskCounts { retries: (counts.retries + 1) as usize, ..counts },
        last_run_seconds: run_seconds(status, finished),
    }
}

/// The alert that a reported failure gives rise to, where `value` is the result on show before,
/// `failed` says whether a failure of the task was reported before, `healthy` whether the last run
/// that was reported succeeded, and `triggers_alert` whether the task is worth an alert.
///
/// What a run has reported while in progress, or that none has come to an end, says nothing of the
/// health of the task: then a failure is a first one, the end of good health, or nothing new.
pub open spec fn alert_after_failure(
    value: ResultView,
    task: Seq<char>,
    failed: bool,
    healthy: bool,
    error: Seq<char>,
    triggers_alert: bool,
) -> Option<AlertView> {
    if !triggers_alert {
        None
    } else {
        match value {
            ResultView::Failure(_) => None,
            ResultView::Success(_) => Some(AlertView::Down { task, error }),
            _ => if !failed {
                Some(AlertView::FirstFailure { task, error })
            } else if healthy {
                Some(AlertView::Down { task, error })
            } else {
                None
            },
        }
    }
}

/// What follows the end of a run.
#[derive(Clone, Copy, Debug, PartialEq, Eq, Structural)]
pub enum NextRun {
    /// The next run, at once.
    AtOnce,
    /// The next run, after the delay of the task.
    AfterDelay,
    /// The next run, after the delay between retries.
    AfterFailure,
}

/// What the end of a run gives rise to.
#[derive(Debug)]
pub struct Completion {
    /// The alert to send.
    pub alert: Option<Alert>,
    /// What follows.
    pub next: NextRun,
}

/// The seconds after which a run that can go out of date is given up.
pub const MAX_TASK_SECONDS: u64 = 180;

/// The error of a run that was given up, where `elapsed` says so in the words of the timer.
pub fn timeout_error(elapsed: &str) -> (error: String)
    ensures
        error@ == "Running a single task took too long, killing. Elapsed time: "@ + elapsed@,
{
    let mut error = String::from("Running a single task took too long, killing. Elapsed time: ");
    error.append(elapsed);
    error
}

/// What a [`PeriodicTask`] stands for.
pub struct PeriodicView {
    pub label: TaskLabel,
    pub config: TaskConfig,
    /// How many runs in a row have failed without being reported.
    pub retries: usize,
    /// Whether a failure has been reported.
    pub failed: bool,
    /// Whether the last run that was reported succeeded.
    pub healthy: bool,
    /// The counts with which the run in progress began.
    pub counts: TaskCounts,
}

impl PeriodicView {
    /// Whether a failure is reported: it is one more than the configured further attempts.
    pub open spec fn reports_failure(self, max_retries: usize) -> bool {
        self.retries + 1 > max_retries
    }

    /// The task once a run has come to an end with an output.
    pub open spec fn after_output(self, output: OutputView) -> PeriodicView {
        PeriodicView {
            retries: 0,
            failed: self.failed || output.error,
            healthy: !output.error,
            ..self
        }
    }

    /// The task once a run has failed.
    pub open spec fn after_failure(self, max_retries: usize) -> PeriodicView {
        if self.reports_failure(max_retries) {
            PeriodicView { retries: 0, failed: true, healthy: false, ..self }
        } else {
            PeriodicView { retries: (self.retries + 1) as usize, ..self }
        }
    }

    /// The status once a run has come to an end with an output.
    pub open spec fn status_after_output(
        self,
        status: StatusView,
        output: OutputView,
        finished: MomentView,
        updated: MomentView,
    ) -> StatusView {
        status_after_output(status, self.counts, self.config.out_of_date, output, finished, updated)
    }

    /// The status once a run has failed.
    pub open spec fn status_after_error(
        self,
        status: StatusView,
        error: Seq<char>,
        max_retries: usize,
        finished: MomentView,
        updated: MomentView,
    ) -> StatusView {
        if self.reports_failure(max_retries) {
            status_after_failure(
                status,
                self.counts,
                self.config.out_of_date,
                error,
                finished,
                updated,
            )
        } else {
            status_after_retry(
                status,
                self.counts,
                self.config.out_of_date,
                error,
                finished,
                updated,
            )
        }
    }

    /// The alert that the output of a run gives rise to.
    pub open spec fn alert_after_output(
        self,
        status: StatusView,
        output: OutputView,
        triggers_alert: bool,
    ) -> Option<AlertView> {
        alert_after_output(
            status.value,
            self.label@,
            self.failed,
            self.healthy,
            output,
            triggers_alert,
        )
    }

    /// The alert that a failed run gives rise to.
    pub open spec fn alert_after_error(
        self,
        status: StatusView,
        error: Seq<char>,
        max_retries: usize,
        triggers_alert: bool,
    ) -> Option<AlertView> {
        if self.reports_failure(max_retries) {
            alert_after_failure(
                status.value,
                self.label@,
                self.failed,
                self.healthy,
                error,
                triggers_alert,
            )
        } else {
            None
        }
    }

    /// Whether a failed run may lead from the task and `status` to `after` and `status_after`
    /// with the alert `alert`, when the application is asked whether a failure that is reported is
    /// worth an alert, and the clock is read.
    pub open spec fn completes_error<C: WatcherAppContext>(
        self,
        app: &C,
        after: PeriodicView,
        status: StatusView,
        status_after: StatusView,
        error: Seq<char>,
        max_retries: usize,
        alert: Option<AlertView>,
    ) -> bool {
        &&& after == self.after_failure(max_retries)
        &&& exists|finished: Moment, updated: Moment|
            {
                &&& #[trigger] now_reads(finished) && #[trigger] now_reads(updated)
                &&& status_after == self.status_after_error(
                    status,
                    error,
                    max_retries,
                    finished@,
                    updated@,
                )
            }
        &&& exists|answer: bool|
            {
                &&& self.reports_failure(max_retries) ==> alert_answer(
                    app,
                    &self.label,
                    None,
                    answer,
                )
                &&& alert == #[trigger] self.alert_after_error(status, error, max_retries, answer)
            }
    }

    /// Whether a run that comes to the end `result` can be counted.
    pub open spec fn can_count(self, result: Result<WatchedTaskOutput, String>) -> bool {
        match result {
            Ok(output) => if output@.error {
                self.counts.errors < usize::MAX
            } else {
                self.counts.successes < usize::MAX
            },
            Err(_) => self.retries < usize::MAX && self.counts.retries < usize::MAX
                && self.counts.errors < usize::MAX,
        }
    }
}

/// Whether `config` is one that the application may give as its configuration.
pub open spec fn config_answer<C: WatcherAppContext>(app: &C, config: WatcherConfig) -> bool {
    call_ensures(C::watcher_config, (app,), config)
}

/// A task that is run over and over again.
pub struct PeriodicTask {
    label: TaskLabel,
    config: TaskConfig,
    retries: usize,
    failed: bool,
    healthy: bool,
    counts: TaskCounts,
}

impl View for PeriodicTask {
    type V = PeriodicView;

    closed spec fn view(&self) -> PeriodicView {
        PeriodicView {
            label: self.label,
            config: self.config,
            retries: self.retries,
            failed: self.failed,
            healthy: self.healthy,
            counts: self.counts,
        }
    }
}

impl PeriodicTask {
    #[verifier::type_invariant]
    spec fn delay_is_valid(self) -> bool {
        valid_delay(self.config.delay)
    }

    /// The task `label`, before its first run.
    pub fn new(label: TaskLabel, config: TaskConfig) -> (task: Result<PeriodicTask, InvertedDelay>)
        ensures
            task is Ok <==> valid_delay(config.delay),
            task matches Ok(t) ==> t@ == (PeriodicView {
                label,
                config,
                retries: 0,
                failed: false,
                healthy: false,
                counts: TaskCounts { successes: 0, retries: 0, errors: 0 },
            }),
            task matches Err(e) ==> config.delay == (crate::config::Delay::Random {
                low: e.low,
                high: e.high,
            }),
    {
        match validate_delay(config.delay) {
            Ok(()) => Ok(
                PeriodicTask {
                    label,
                    config,
                    retries: 0,
                    failed: false,
                    healthy: false,
                    counts: TaskCounts::default(),
                },
            ),
            Err(inverted) => Err(inverted),
        }
    }

    /// The label of the task.
    pub fn label(&self) -> (label: &TaskLabel)
        ensures
            *label == self@.label,
    {
        &self.label
    }

    /// The seconds after which a run is given up: runs that can go out of date are.
    pub fn time_limit(&self) -> (seconds: Option<u64>)
        ensures
            seconds == if self@.config.out_of_date is Some {
                Some(MAX_TASK_SECONDS)
            } else {
                None
            },
    {
        match self.config.out_of_date {
            Some(_) => Some(MAX_TASK_SECONDS),
            None => None,
        }
    }

    /// Whether a run that comes to the end `result` can be counted.
    pub fn has_room(&self, result: &Result<WatchedTaskOutput, String>) -> (room: bool)
        ensures
            room == self@.can_count(*result),
    {
        match result {
            Ok(output) => if output.is_error() {
                self.counts.errors < usize::MAX
            } else {
                self.counts.successes < usize::MAX
            },
            Err(_) => self.retries < usize::MAX && self.counts.retries < usize::MAX
                && self.counts.errors < usize::MAX,
        }
    }

    /// Begins a run at `now`.
    pub fn begin_run_at(&mut self, status: &mut TaskStatus, now: Moment)
        ensures
            final(status)@ == status_in_run(old(status)@, old(self)@.config.out_of_date, now@),
            final(self)@ == (PeriodicView { counts: old(status)@.counts, ..old(self)@ }),
    {
        proof {
            use_type_invariant(&*self);
        }
        status.current_run_started = Some(now);
        status.out_of_date = self.config.out_of_date;
        self.counts = status.counts;
    }

    /// Begins a run now.
    pub fn begin_run(&mut self, status: &mut TaskStatus)
        ensures
            exists|now: Moment| #[trigger]
                now_reads(now) && final(status)@ == status_in_run(
                    old(status)@,
                    old(self)@.config.out_of_date,
                    now@,
                ),
            final(self)@ == (PeriodicView { counts: old(status)@.counts, ..old(self)@ }),
    {
        let now = Moment::now();
        proof {
            assert(now_reads(now));
        }
        self.begin_run_at(status, now);
    }

    /// The seconds that are shown for a run that ended at `finished`.
    fn seconds_of_run(status: &TaskStatus, finished: &Moment) -> (seconds: Option<i64>)
        ensures
            seconds == run_seconds(status@, finished@),
    {
        match &status.current_run_started {
            Some(started) => Some(finished.seconds_component_since(started)),
            None => None,
        }
    }

    /// The alert that a reported failure gives rise to.
    fn alert_for_failure(&self, status: &TaskStatus, error: &str, triggers_alert: bool) -> (alert:
        Option<Alert>)
        ensures
            alert_view(alert) == alert_after_failure(
                status@.value,
                self@.label@,
                self@.failed,
                self@.healthy,
                error@,
                triggers_alert,
            ),
    {
        if !triggers_alert {
            return None;
        }
        let down = match &*status.last_result.value {
            TaskResultValue::Failure(_) => {
                return None;
            },
            TaskResultValue::Success(_) => true,
            TaskResultValue::NotYetRun | TaskResultValue::Info(_) => {
                if self.failed && !self.healthy {
                    return None;
                }
                self.failed
            },
        };
        let task = self.label.clone();
        let error = String::from(error);
        if down {
            Some(Alert::Down { task, error })
        } else {
            Some(Alert::FirstFailure { task, error })
        }
    }

    /// Ends a run, at `finished`, with an output, where `triggers_alert` says whether the task is
    /// worth an alert, and `updated` is when the output is put on show.
    pub fn record_output(
        &mut self,
        status: &mut TaskStatus,
        output: WatchedTaskOutput,
        triggers_alert: bool,
        finished: Moment,
        updated: Moment,
    ) -> (completion: Completion)
        requires
            output@.error ==> old(self)@.counts.errors < usize::MAX,
            !output@.error ==> old(self)@.counts.successes < usize::MAX,
        ensures
            final(self)@ == old(self)@.after_output(output@),
            final(status)@ == old(self)@.status_after_output(
                old(status)@,
                output@,
                finished@,
                updated@,
            ),
            alert_view(completion.alert) == old(self)@.alert_after_output(
                old(status)@,
                output@,
                triggers_alert,
            ),
            completion.next == if output@.skip_delay {
                NextRun::AtOnce
            } else {
                NextRun::AfterDelay
            },
    {
        proof {
            use_type_invariant(&*self);
        }
        let (skip_delay, suppress, message, expire_alert, error) = output.into_parts();
        let alert: Option<Alert> = if error {
            self.alert_for_failure(status, cow_str(&message), triggers_alert)
        } else {
            match &*status.last_result.value {
                TaskResultValue::Failure(old_error) => if triggers_alert {
                    Some(
                        Alert::Recovered {
                            task: self.label.clone(),
                            old_error: old_error.clone(),
                            new_message: String::from(cow_str(&message)),
                        },
                    )
                } else {
                    None
                },
                _ => None,
            }
        };
        let last_run_seconds = Self::seconds_of_run(status, &finished);
        let value: Arc<TaskResultValue> = if suppress {
            status.last_result.value.clone()
        } else if error {
            Arc::new(TaskResultValue::Failure(cow_into_string(message)))
        } else {
            Arc::new(TaskResultValue::Success(message))
        };
        let counts: TaskCounts = if error {
            TaskCounts {
                successes: self.counts.successes,
                retries: self.counts.retries,
                errors: self.counts.errors + 1,
            }
        } else {
            TaskCounts {
                successes: self.counts.successes + 1,
                retries: self.counts.retries,
                errors: self.counts.errors,
            }
        };
        *status =
        TaskStatus {
            last_result: TaskResult { value, updated },
            last_retry_error: None,
            current_run_started: None,
            out_of_date: self.config.out_of_date,
            expire_last_result: expire_alert,
            counts,
            last_run_seconds,
        };
        self.retries = 0;
        self.failed = self.failed || error;
        self.healthy = !error;
        Completion {
            alert,
            next: if skip_delay {
                NextRun::AtOnce
            } else {
                NextRun::AfterDelay
            },
        }
    }

    /// Ends a run, at `finished`, with an error, where `max_retries` is the number of further
    /// attempts, `triggers_alert` says whether the task is worth an alert, and `updated` is when
    /// the error is put on show.
    pub fn record_failure(
        &mut self,
        status: &mut TaskStatus,
        error: String,
        max_retries: usize,
        triggers_alert: bool,
        finished: Moment,
        updated: Moment,
    ) -> (completion: Completion)
        requires
            old(self)@.retries < usize::MAX,
            old(self)@.reports_failure(max_retries) ==> old(self)@.counts.errors < usize::MAX,
            !old(self)@.reports_failure(max_retries) ==> old(self)@.counts.retries < usize::MAX,
        ensures
            final(self)@ == old(self)@.after_failure(max_retries),
            final(status)@ == old(self)@.status_after_error(
                old(status)@,
                error@,
                max_retries,
                finished@,
                updated@,
            ),
            alert_view(completion.alert) == old(self)@.alert_after_error(
                old(status)@,
                error@,
                max_retries,
                triggers_alert,
            ),
            completion.next is AfterFailure,
    {
        proof {
            use_type_invariant(&*self);
        }
        let last_run_seconds = Self::seconds_of_run(status, &finished);
        let failures: usize = self.retries + 1;
        if retry_limit_reached(failures, max_retries) {
            let alert = self.alert_for_failure(status, error.as_str(), triggers_alert);
            *status =
            TaskStatus {
                last_result: TaskResult {
                    value: Arc::new(TaskResultValue::Failure(error)),
                    updated,
                },
                last_retry_error: None,
                current_run_started: None,
                out_of_date: self.config.out_of_date,
                expire_last_result: None,
                counts: TaskCounts {
                    successes: self.counts.successes,
                    retries: self.counts.retries,
                    errors: self.counts.errors + 1,
                },
                last_run_seconds,
            };
            self.retries = 0;
            self.failed = true;
            self.healthy = false;
            Completion { alert, next: NextRun::AfterFailure }
        } else {
            status.last_retry_error = Some(TaskError { value: Arc::new(error), updated });
            status.current_run_started = None;
            status.out_of_date = self.config.out_of_date;
            status.counts = TaskCounts {
                successes: self.counts.successes,
                retries: self.counts.retries + 1,
                errors: self.counts.errors,
            };
            status.expire_last_result = None;
            status.last_run_seconds = last_run_seconds;
            self.retries = failures;
            Completion { alert: None, next: NextRun::AfterFailure }
        }
    }

    /// Ends a run now, with an output or with an error in words.
    pub fn complete<C: WatcherAppContext>(
        &mut self,
        status: &mut TaskStatus,
        result: Result<WatchedTaskOutput, String>,
        app: &C,
    ) -> (completion: Completion)
        requires
            old(self)@.can_count(result),
        ensures
            match result {
                Ok(output) => {
                    &&& final(self)@ == old(self)@.after_output(output@)
                    &&& completion.next == if output@.skip_delay {
                        NextRun::AtOnce
                    } else {
                        NextRun::AfterDelay
                    }
                    &&& exists|answer: bool, finished: Moment, updated: Moment|
                        {
                            &&& #[trigger] alert_answer(app, &old(self)@.label, None, answer)
                            &&& #[trigger] now_reads(finished) && #[trigger] now_reads(updated)
                            &&& final(status)@ == old(self)@.status_after_output(
                                old(status)@,
                                output@,
                                finished@,
                                updated@,
                            )
                            &&& alert_view(completion.alert) == old(self)@.alert_after_output(
                                old(status)@,
                                output@,
                                answer,
                            )
                        }
                },
                Err(error) => {
                    &&& completion.next is AfterFailure
                    &&& exists|general: WatcherConfig|
                        #[trigger] config_answer(app, general) && old(self)@.completes_error(
                            app,
                            final(self)@,
                            old(status)@,
                            final(status)@,
                            error@,
                            old(self)@.config.spec_max_retries(general.retries),
                            alert_view(completion.alert),
                        )
                },
            },
    {
        let ghost before = self@;
        let ghost shown = status@;
        match result {
            Ok(output) => {
                let answer = app.triggers_alert(&self.label, None);
                let finished = Moment::now();
                let updated = Moment::now();
                proof {
                    assert(alert_answer(app, &before.label, None, answer));
                    assert(now_reads(finished) && now_reads(updated));
                }
                self.record_output(status, output, answer, finished, updated)
            },
            Err(error) => {
                let general = app.watcher_config();
                let max_retries = self.config.max_retries(general.retries);
                let answer = if retry_limit_reached(self.retries + 1, max_retries) {
                    app.triggers_alert(&self.label, None)
                } else {
                    false
                };
                let finished = Moment::now();
                let updated = Moment::now();
                proof {
                    assert(now_reads(finished) && now_reads(updated));
                }
                let completion = self.record_failure(
                    status,
                    error,
                    max_retries,
                    answer,
                    finished,
                    updated,
                );
                proof {
                    assert(config_answer(app, general));
                    assert(before.reports_failure(max_retries) ==> alert_answer(
                        app,
                        &before.label,
                        None,
                        answer,
                    ));
                    assert(alert_view(completion.alert) == before.alert_after_error(
                        shown,
                        error@,
                        max_retries,
                        answer,
                    ));
                }
                completion
            },
        }
    }

    /// How long to wait before the next run.
    pub fn pause<C: WatcherAppContext>(&self, next: NextRun, app: &C) -> (pause: Pause)
        ensures
            match next {
                NextRun::AtOnce => pause is NoPause,
                NextRun::AfterDelay => may_pause(self@.config.delay, pause),
                NextRun::AfterFailure => exists|general: WatcherConfig|
                    #[trigger] config_answer(app, general) && pause == Pause::Secs(
                        self@.config.spec_retry_delay(general.delay_between_retries) as u64,
                    ),
            },
    {
        proof {
            use_type_invariant(self);
        }
        match next {
            NextRun::AtOnce => Pause::NoPause,
            NextRun::AfterDelay => pause_for(self.config.delay),
            NextRun::AfterFailure => {
                let general = app.watcher_config();
                let seconds = self.config.retry_delay(general.delay_between_retries);
                proof {
                    assert(config_answer(app, general));
                }
                Pause::Secs(seconds as u64)
            },
        }
    }
}

} // verus!
