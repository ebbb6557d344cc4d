//! What holds of the library as a whole.

use crate::clock::{MomentView, TimeSpan};
use crate::config::{delay_pause, may_draw, valid_delay, Delay, Pause};
use crate::label::TaskLabel;
use crate::output::OutputView;
use crate::page::{
    any_alerts, in_listing_order, labels_differ, listed_before, page_text, uptime_text,
    with_unit, RenderedStatus,
};
use crate::periodic::{
    alert_after_failure, alert_after_output, status_in_run, value_after_output, AlertView,
    PeriodicView,
};
use crate::slack::{alert_message, short_version, SHORT_VERSION_LEN};
use crate::status::{
    short_status, OutOfDateType, ResultView, ShortStatus, StatusView, TaskCounts,
};
use crate::text::{lemma_text_less_order, nat_text, text_less};
use self::text::{lacks, lemma_nat_text_injective, lemma_nat_text_is_digits};
use std::cmp::Ordering;
use vstd::prelude::*;
use vstd::std_specs::cmp::{PartialEqSpec, PartialOrdSpec};

pub mod clock;
pub mod config;
pub mod message;
pub mod page;
pub mod registry;
pub mod run;
pub mod status;
pub mod text;

verus! {

/// What a run comes to.
pub enum RunEnd {
    /// An output.
    Output(OutputView),
    /// An error.
    Error(Seq<char>),
}

impl RunEnd {
    /// Whether the run has failed, by an error or by an output that is one.
    pub open spec fn fails(self) -> bool {
        match self {
            RunEnd::Output(output) => output.error,
            RunEnd::Error(_) => true,
        }
    }

    /// Whether the run has an output that is not to be shown.
    pub open spec fn suppressed(self) -> bool {
        self matches RunEnd::Output(output) && output.suppress
    }
}

/// What a run reports while it is in progress.
pub struct Report {
    pub message: Seq<char>,
    pub received: MomentView,
}

/// One run, and what is asked of the application at its end.
pub struct Run {
    /// When it began.
    pub started: MomentView,
    /// The last that it reported while in progress.
    pub report: Option<Report>,
    /// What it came to.
    pub end: RunEnd,
    /// When it ended.
    pub finished: MomentView,
    /// When its end was put on show.
    pub updated: MomentView,
    /// The number of further attempts after an error.
    pub max_retries: usize,
    /// Whether the task is worth an alert.
    pub triggers_alert: bool,
}

/// The status once a run in progress has reported something.
pub open spec fn status_reported(status: StatusView, report: Option<Report>) -> StatusView {
    match report {
        Some(r) => StatusView {
            value: ResultView::Info(r.message),
            updated: r.received,
            ..status
        },
        None => status,
    }
}

/// A task, its status, and the alerts that its runs have given rise to.
pub struct Trace {
    pub task: PeriodicView,
    pub status: StatusView,
    pub alerts: Seq<AlertView>,
}

/// The alerts, with one more where there is one.
pub open spec fn with_alert(alerts: Seq<AlertView>, alert: Option<AlertView>) -> Seq<AlertView> {
    match alert {
        Some(a) => alerts.push(a),
        None => alerts,
    }
}

impl Trace {
    /// The trace while a run is in progress: it has begun and made its report.
    pub open spec fn in_run(self, run: Run) -> Trace {
        Trace {
            task: PeriodicView { counts: self.status.counts, ..self.task },
            status: status_reported(
                status_in_run(self.status, self.task.config.out_of_date, run.started),
                run.report,
            ),
            alerts: self.alerts,
        }
    }

    /// The trace once the run in progress has come to its end.
    pub open spec fn at_end_of(self, run: Run) -> Trace {
        match run.end {
            RunEnd::Output(output) => Trace {
                task: self.task.after_output(output),
                status: self.task.status_after_output(
                    self.status,
                    output,
                    run.finished,
                    run.updated,
                ),
                alerts: with_alert(
                    self.alerts,
                    self.task.alert_after_output(self.status, output, run.triggers_alert),
                ),
            },
            RunEnd::Error(error) => Trace {
                task: self.task.after_failure(run.max_retries),
                status: self.task.status_after_error(
                    self.status,
                    error,
                    run.max_retries,
                    run.finished,
                    run.updated,
                ),
                alerts: with_alert(
                    self.alerts,
                    self.task.alert_after_error(
                        self.status,
                        error,
                        run.max_retries,
                        run.triggers_alert,
                    ),
                ),
            },
        }
    }

    /// The trace once one more run has begun, made its report and come to its end.
    pub open spec fn after_run(self, run: Run) -> Trace {
        self.in_run(run).at_end_of(run)
    }

    /// The trace after a row of runs.
    pub open spec fn after_runs(self, runs: Seq<Run>) -> Trace
        decreases runs.len(),
    {
        if runs.len() == 0 {
            self
        } else {
            self.after_runs(runs.drop_last()).after_run(runs.last())
        }
    }
}

/// Whether none of the runs reports anything while in progress.
pub open spec fn quiet(runs: Seq<Run>) -> bool {
    forall|i: int| 0 <= i < runs.len() ==> (#[trigger] runs[i]).report is None
}

/// The configured retries are additional attempts: of a row of runs that end in errors, as many as
/// there are retries are counted as retries, give rise to no alert and, where they report nothing,
/// leave the last result on show; the next one is reported, is counted as an error, and the row
/// starts anew.
pub proof fn law_retries_are_additional_attempts(start: Trace, runs: Seq<Run>, max_retries: usize)
    requires
        start.task.retries == 0,
        start.status.counts.retries + max_retries <= usize::MAX,
        start.status.counts.errors < usize::MAX,
        runs.len() <= max_retries + 1,
        forall|i: int|
            0 <= i < runs.len() ==> (#[trigger] runs[i]).end is Error && runs[i].max_retries
                == max_retries,
    ensures
        ({
            let status = start.status;
            let after = start.after_runs(runs);
            if runs.len() <= max_retries {
                &&& quiet(runs) ==> after.status.value == status.value
                &&& quiet(runs) ==> after.status.updated == status.updated
                &&& after.status.counts == (TaskCounts {
                    retries: (status.counts.retries + runs.len()) as usize,
                    ..status.counts
                })
                &&& after.task.retries == runs.len()
                &&& after.task.failed == start.task.failed
                &&& after.task.healthy == start.task.healthy
                &&& after.alerts == start.alerts
                &&& runs.len() > 0 ==> after.status.last_retry_error is Some
                    && after.status.last_retry_error->0.value == runs.last().end->Error_0
            } else {
                let error = runs.last().end->Error_0;
                &&& after.status.value == ResultView::Failure(error)
                &&& after.status.updated == runs.last().updated
                &&& after.status.counts == (TaskCounts {
                    retries: (status.counts.retries + max_retries) as usize,
                    errors: (status.counts.errors + 1) as usize,
                    ..status.counts
                })
                &&& after.status.last_retry_error is None
                &&& after.task.retries == 0
                &&& after.task.failed && !after.task.healthy
                &&& quiet(runs) ==> after.alerts == with_alert(
                    start.alerts,
                    alert_after_failure(
                        status.value,
                        start.task.label@,
                        start.task.failed,
                        start.task.healthy,
                        error,
                        runs.last().triggers_alert,
                    ),
                )
            }
        }),
        start.after_runs(runs).task.label == start.task.label,
    decreases runs.len(),
{
    if runs.len() > 0 {
        law_retries_are_additional_attempts(start, runs.drop_last(), max_retries);
        let last = runs[runs.len() - 1];
        assert(last.end is Error && last.max_retries == max_retries);
        if quiet(runs) {
            assert(last.report is None);
            assert forall|i: int| 0 <= i < runs.len() - 1 implies (
            #[trigger] runs.drop_last()[i]).report is None by {
                assert(runs[i].report is None);
            }
        }
    }
}

/// The failures in a row that are not reported never outnumber the configured retries.
pub proof fn law_failures_in_a_row_stay_within_the_retries(
    task: PeriodicView,
    output: OutputView,
    max_retries: usize,
)
    requires
        task.retries <= max_retries,
    ensures
        task.after_failure(max_retries).retries <= max_retries,
        task.after_output(output).retries <= max_retries,
        task.reports_failure(max_retries) <==> task.retries == max_retries,
{
}

/// How many runs are counted in all.
pub open spec fn total(counts: TaskCounts) -> int {
    counts.successes + counts.retries + counts.errors
}

/// Every run is counted once, whatever it reports and whatever it comes to.
pub proof fn law_every_run_counts_once(start: Trace, runs: Seq<Run>)
    requires
        total(start.status.counts) + runs.len() <= usize::MAX,
    ensures
        total(start.after_runs(runs).status.counts) == total(start.status.counts) + runs.len(),
    decreases runs.len(),
{
    if runs.len() > 0 {
        law_every_run_counts_once(start, runs.drop_last());
    }
}

/// A task is told to have failed for the first time at most once, over any row of runs, whatever
/// they report and come to, and never where a failure was reported before. Where a failure is on
/// show only if one was reported, it is the first alert of all.
pub proof fn law_a_first_failure_is_told_once(start: Trace, runs: Seq<Run>)
    requires
        start.alerts.len() == 0,
    ensures
        ({
            let alerts = start.after_runs(runs).alerts;
            &&& forall|i: int, j: int|
                0 <= i < j < alerts.len() ==> !(#[trigger] alerts[i] is FirstFailure
                    && #[trigger] alerts[j] is FirstFailure)
            &&& forall|i: int|
                0 <= i < alerts.len() && #[trigger] alerts[i] is FirstFailure ==> !start.task.failed
            &&& (start.status.value is Failure ==> start.task.failed) ==> forall|i: int|
                0 <= i < alerts.len() && #[trigger] alerts[i] is FirstFailure ==> i == 0
        }),
    decreases runs.len(),
{
    lemma_failures_are_remembered(start, runs);
    if runs.len() > 0 {
        law_a_first_failure_is_told_once(start, runs.drop_last());
        lemma_failures_are_remembered(start, runs.drop_last());
    }
}

/// A failure that was reported is remembered: by the end of a row of runs each alert of failure
/// has left its mark, and so has each alert and each failure on show, where that was so before.
proof fn lemma_failures_are_remembered(start: Trace, runs: Seq<Run>)
    requires
        start.alerts.len() == 0,
    ensures
        ({
            let after = start.after_runs(runs);
            &&& start.task.failed ==> after.task.failed
            &&& forall|i: int|
                0 <= i < after.alerts.len() && #[trigger] after.alerts[i] is FirstFailure
                    ==> after.task.failed
            &&& (start.status.value is Failure ==> start.task.failed) ==> {
                &&& after.status.value is Failure ==> after.task.failed
                &&& after.alerts.len() > 0 ==> after.task.failed
            }
        }),
    decreases runs.len(),
{
    if runs.len() > 0 {
        lemma_failures_are_remembered(start, runs.drop_last());
    }
}

/// The task that an alert is about.
pub open spec fn alert_task(alert: AlertView) -> Seq<char> {
    match alert {
        AlertView::Down { task, .. } => task,
        AlertView::Recovered { task, .. } => task,
        AlertView::FirstFailure { task, .. } => task,
    }
}

/// Every alert is about the task whose runs give rise to it.
pub proof fn law_alerts_name_their_task(start: Trace, runs: Seq<Run>)
    requires
        start.alerts.len() == 0,
    ensures
        start.after_runs(runs).task.label == start.task.label,
        forall|i: int|
            0 <= i < start.after_runs(runs).alerts.len() ==> alert_task(
                #[trigger] start.after_runs(runs).alerts[i],
            ) == start.task.label@,
    decreases runs.len(),
{
    if runs.len() > 0 {
        law_alerts_name_their_task(start, runs.drop_last());
    }
}

/// Over any row of runs that report nothing while in progress, of a task that is worth an alert,
/// alerts of failure and of recovery take turns: the first one tells of a recovery if and only if
/// a failure was on show before, and the last one tells of a recovery if and only if none is on
/// show now. There is none only where nothing has changed.
pub proof fn law_alerts_take_turns(start: Trace, runs: Seq<Run>)
    requires
        start.alerts.len() == 0,
        start.task.failed ==> start.status.value is Success || start.status.value is Failure,
        forall|i: int|
            0 <= i < runs.len() ==> {
                &&& (#[trigger] runs[i]).report is None
                &&& runs[i].triggers_alert
                &&& !runs[i].end.suppressed()
            },
    ensures
        ({
            let after = start.after_runs(runs);
            let alerts = after.alerts;
            &&& forall|i: int, j: int|
                0 <= i && j == i + 1 && j < alerts.len() ==> (#[trigger] alerts[i] is Recovered) != (
                #[trigger] alerts[j] is Recovered)
            &&& alerts.len() > 0 ==> (alerts[0] is Recovered <==> start.status.value is Failure)
            &&& alerts.len() > 0 ==> (alerts.last() is Recovered <==> !(
            after.status.value is Failure))
            &&& alerts.len() == 0 ==> (after.status.value is Failure
                <==> start.status.value is Failure)
            &&& after.task.failed ==> after.status.value is Success
                || after.status.value is Failure
        }),
    decreases runs.len(),
{
    if runs.len() > 0 {
        law_alerts_take_turns(start, runs.drop_last());
        let last = runs[runs.len() - 1];
        assert(last.report is None && last.triggers_alert && !last.end.suppressed());
    }
}

/// A task that keeps failing gives rise to no second alert: once a failure is reported, no row of
/// runs that fail, with the same error or with others, gives rise to one, whatever they report
/// while in progress.
pub proof fn law_no_second_alert(start: Trace, runs: Seq<Run>)
    requires
        start.task.failed,
        !start.task.healthy,
        !(start.status.value is Success),
        forall|i: int| 0 <= i < runs.len() ==> (#[trigger] runs[i]).end.fails(),
    ensures
        start.after_runs(runs).alerts == start.alerts,
        start.after_runs(runs).task.failed,
        !start.after_runs(runs).task.healthy,
        !(start.after_runs(runs).status.value is Success),
    decreases runs.len(),
{
    if runs.len() > 0 {
        law_no_second_alert(start, runs.drop_last());
        assert(runs[runs.len() - 1].end.fails());
    }
}

/// A recovery tells the error that the failure before it reported, whatever runs were tried again
/// in between, where none of them reports anything while in progress.
pub proof fn law_recovery_tells_the_reported_error(
    start: Trace,
    failed: Run,
    retried: Seq<Run>,
    recovered: Run,
)
    requires
        start.task.reports_failure(failed.max_retries),
        start.status.counts.retries + failed.max_retries <= usize::MAX,
        start.status.counts.errors + 1 < usize::MAX,
        failed.end is Error,
        retried.len() <= failed.max_retries,
        forall|i: int|
            0 <= i < retried.len() ==> (#[trigger] retried[i]).end is Error
                && retried[i].max_retries == failed.max_retries && retried[i].report is None,
        recovered.report is None,
        recovered.triggers_alert,
        !recovered.end.fails(),
    ensures
        ({
            let reported = start.after_run(failed);
            reported.after_runs(retried).after_run(recovered).alerts == reported.alerts.push(
                AlertView::Recovered {
                    task: start.task.label@,
                    old_error: failed.end->Error_0,
                    new_message: recovered.end->Output_0.message,
                },
            )
        }),
{
    let reported = start.after_run(failed);
    law_retries_are_additional_attempts(reported, retried, failed.max_retries);
    assert(quiet(retried));
}

/// A task that is not worth an alert never gives rise to one, and never makes the page tell of
/// one.
pub proof fn law_muted_tasks_never_alert(
    start: Trace,
    runs: Seq<Run>,
    out_of_date: OutOfDateType,
    expired: bool,
)
    requires
        forall|i: int| 0 <= i < runs.len() ==> !(#[trigger] runs[i]).triggers_alert,
    ensures
        start.after_runs(runs).alerts == start.alerts,
        !short_status(start.status.value, out_of_date, false, expired).alerts(),
    decreases runs.len(),
{
    if runs.len() > 0 {
        law_muted_tasks_never_alert(start, runs.drop_last(), out_of_date, expired);
        assert(!runs[runs.len() - 1].triggers_alert);
    }
}

/// While a run is in progress the status says since when, whatever the run reports, and keeps the
/// counts. Whatever it comes to, none is in progress then, and nothing is out of date.
pub proof fn law_a_run_is_in_progress_until_it_ends(start: Trace, run: Run, now: int)
    ensures
        start.in_run(run).status.current_run_started == Some(run.started),
        start.in_run(run).status.counts == start.status.counts,
        start.after_run(run).status.current_run_started is None,
        start.after_run(run).status.out_of_date_at(now) is Not,
{
}

/// An alert tells of a change in health: a success on show that turns into a failure is `Down`, a
/// failure on show that turns into a success is `Recovered`, a failure with neither on show is
/// `FirstFailure` where none was reported before and `Down` where the last run reported was a
/// success, and there is no other alert.
pub proof fn law_alerts_tell_of_changes(
    value: ResultView,
    task: Seq<char>,
    failed: bool,
    healthy: bool,
    output: OutputView,
)
    requires
        !output.suppress,
    ensures
        ({
            let alert = alert_after_output(value, task, failed, healthy, output, true);
            let after = value_after_output(value, output);
            let neither = !(value is Success) && !(value is Failure);
            &&& (alert is Some && alert->0 is Down) <==> after is Failure && (value is Success || (
            neither && failed && healthy))
            &&& (alert is Some && alert->0 is Recovered) <==> value is Failure
                && after is Success
            &&& (alert is Some && alert->0 is FirstFailure) <==> neither && !failed
                && after is Failure
            &&& alert matches Some(AlertView::Down { task: t, error }) ==> t == task && after
                == ResultView::Failure(error)
            &&& alert matches Some(AlertView::Recovered { task: t, old_error, new_message }) ==> t
                == task && value == ResultView::Failure(old_error) && after == ResultView::Success(
                new_message,
            )
            &&& alert matches Some(AlertView::FirstFailure { task: t, error }) ==> t == task
                && after == ResultView::Failure(error)
        }),
{
}

/// A reported failure gives rise to the same alert as an output that is an error with the same
/// words.
pub proof fn law_failures_alert_like_errors(
    task: PeriodicView,
    status: StatusView,
    output: OutputView,
    max_retries: usize,
    triggers_alert: bool,
)
    requires
        output.error,
        task.reports_failure(max_retries),
    ensures
        task.alert_after_error(status, output.message, max_retries, triggers_alert)
            == task.alert_after_output(status, output, triggers_alert),
{
}

/// An error that has expired is no longer worth an alert, and stays so as time goes by.
pub proof fn law_expired_errors_do_not_alert(
    status: StatusView,
    elapsed: TimeSpan,
    later: TimeSpan,
    out_of_date: OutOfDateType,
    triggers_alert: bool,
)
    requires
        status.value is Failure,
        status.expired_after(elapsed),
        later.total_nanos() >= elapsed.total_nanos(),
    ensures
        status.expired_after(later),
        !short_status(
            status.value,
            out_of_date,
            triggers_alert,
            status.expired_after(later),
        ).alerts(),
{
}

/// An output that is suppressed leaves the last result on show.
pub proof fn law_suppressed_outputs_are_not_shown(
    task: PeriodicView,
    status: StatusView,
    output: OutputView,
    finished: MomentView,
    updated: MomentView,
)
    requires
        output.suppress,
    ensures
        task.status_after_output(status, output, finished, updated).value == status.value,
{
}

/// Before its first run has come to an end, a task is never worth an alert on the page.
pub proof fn law_not_yet_run_never_alerts(
    out_of_date: OutOfDateType,
    triggers_alert: bool,
    expired: bool,
)
    ensures
        short_status(ResultView::NotYetRun, out_of_date, triggers_alert, expired) is NotYetRun,
        !ShortStatus::NotYetRun.alerts(),
{
}

/// How far beyond the time that it may take.
pub open spec fn lateness(out_of_date: OutOfDateType) -> int {
    match out_of_date {
        OutOfDateType::Not => 0,
        OutOfDateType::Slightly => 1,
        OutOfDateType::Very => 2,
    }
}

/// A run only ever goes further out of date.
pub proof fn law_lateness_only_grows(status: StatusView, now: int, later: int)
    requires
        now <= later,
    ensures
        lateness(status.out_of_date_at(now)) <= lateness(status.out_of_date_at(later)),
{
}

/// Only a run in progress that is held to a time goes out of date.
pub proof fn law_only_limited_runs_go_out_of_date(status: StatusView, now: int)
    requires
        status.current_run_started is None || status.out_of_date is None,
    ensures
        status.out_of_date_at(now) is Not,
{
}

/// Labels are told apart and ordered by their names alone, as the names are: no two names make the
/// same label, and of two labels the one with the lesser name is less.
pub proof fn law_labels_are_their_names(a: TaskLabel, b: TaskLabel)
    ensures
        a.eq_spec(&b) <==> a@ == b@,
        a.partial_cmp_spec(&b) == Some(Ordering::Equal) <==> a.eq_spec(&b),
        a.partial_cmp_spec(&b) == Some(Ordering::Less) <==> text_less(a@, b@),
        a.partial_cmp_spec(&b) == Some(Ordering::Greater) <==> text_less(b@, a@),
{
    lemma_text_less_order(a@, b@, a@);
}

/// The page lists what is worth an alert before anything else.
pub proof fn law_alerts_are_listed_first(listing: Seq<RenderedStatus>, i: int, j: int)
    requires
        in_listing_order(listing),
        0 <= i < j < listing.len(),
        listing[j].short.alerts(),
    ensures
        listing[i].short.alerts(),
{
    assert(!listed_before(listing[j], listing[i]));
}

/// The page tells of an alert if and only if the first status that it lists is worth one.
pub proof fn law_page_alerts_by_its_first_status(listing: Seq<RenderedStatus>)
    requires
        in_listing_order(listing),
    ensures
        any_alerts(listing) <==> listing.len() > 0 && listing[0].short.alerts(),
{
    if any_alerts(listing) {
        let i = choose|i: int| 0 <= i < listing.len() && (#[trigger] listing[i]).short.alerts();
        if i > 0 {
            law_alerts_are_listed_first(listing, 0, i);
        }
    }
}

/// What one status looks like on the page.
pub open spec fn line_of(rendered: RenderedStatus) -> (Seq<char>, ShortStatus) {
    (rendered.label@, rendered.short)
}

/// Whether a listing shows a line.
pub open spec fn shows(listing: Seq<RenderedStatus>, line: (Seq<char>, ShortStatus)) -> bool {
    exists|i: int| 0 <= i < listing.len() && line_of(#[trigger] listing[i]) == line
}

/// Whether two listings show the same labels with the same short statuses, in whatever order.
pub open spec fn same_lines(a: Seq<RenderedStatus>, b: Seq<RenderedStatus>) -> bool {
    forall|line: (Seq<char>, ShortStatus)| #[trigger] shows(a, line) == #[trigger] shows(b, line)
}

/// A status that differs in label from another stands before or behind it.
proof fn lemma_listed_before_total(a: RenderedStatus, b: RenderedStatus, c: RenderedStatus)
    ensures
        a.label@ != b.label@ ==> listed_before(a, b) || listed_before(b, a),
        listed_before(a, b) ==> !listed_before(b, a),
        line_of(b) == line_of(c) ==> listed_before(a, b) == listed_before(a, c),
        line_of(b) == line_of(c) ==> listed_before(b, a) == listed_before(c, a),
{
    lemma_text_less_order(a.label@, b.label@, c.label@);
    lemma_text_less_order(b.label@, a.label@, c.label@);
    assert(a.short.rank() == b.short.rank() || a.short.rank() < b.short.rank() || a.short.rank()
        > b.short.rank());
}

/// The first `n` lines of two listings agree.
proof fn lemma_listings_agree(a: Seq<RenderedStatus>, b: Seq<RenderedStatus>, n: int)
    requires
        in_listing_order(a),
        in_listing_order(b),
        labels_differ(a),
        labels_differ(b),
        same_lines(a, b),
        0 <= n <= a.len(),
    ensures
        n <= b.len(),
        forall|i: int| 0 <= i < n ==> line_of(#[trigger] a[i]) == line_of(b[i]),
    decreases n,
{
    if n > 0 {
        let m = n - 1;
        lemma_listings_agree(a, b, m);
        assert(shows(a, line_of(a[m])));
        assert(shows(b, line_of(a[m])));
        let j = choose|j: int|
            0 <= j < b.len() && line_of(#[trigger] b[j]) == line_of(a[m]);
        if j < m {
            assert(line_of(a[j]) == line_of(b[j]));
            assert(a[j].label@ != a[m].label@);
        }
        assert(shows(b, line_of(b[m])));
        assert(shows(a, line_of(b[m])));
        let i = choose|i: int| 0 <= i < a.len() && line_of(#[trigger] a[i]) == line_of(b[m]);
        if i < m {
            assert(line_of(a[i]) == line_of(b[i]));
            assert(b[i].label@ != b[m].label@);
        }
        if j != m {
            assert(b[m].label@ != b[j].label@);
            assert(!listed_before(b[j], b[m]));
            lemma_listed_before_total(b[m], b[j], a[m]);
            assert(listed_before(b[m], a[m]));
            if i == m {
                assert(line_of(a[m]) == line_of(b[m]));
            } else {
                assert(!listed_before(a[i], a[m]));
                lemma_listed_before_total(a[m], a[i], b[m]);
            }
        }
    }
}

/// The page does not depend on the order in which tasks are kept: two listings of the same lines
/// are the same, line by line.
pub proof fn law_listing_is_determined(a: Seq<RenderedStatus>, b: Seq<RenderedStatus>)
    requires
        in_listing_order(a),
        in_listing_order(b),
        labels_differ(a),
        labels_differ(b),
        same_lines(a, b),
    ensures
        a.len() == b.len(),
        forall|i: int| 0 <= i < a.len() ==> line_of(#[trigger] a[i]) == line_of(b[i]),
{
    lemma_listings_agree(a, b, a.len() as int);
    lemma_listings_agree(b, a, b.len() as int);
}

/// The plain text page is written task by task: two listings, one behind the other, give their two
/// texts, one behind the other.
pub proof fn law_page_text_is_written_task_by_task(a: Seq<RenderedStatus>, b: Seq<RenderedStatus>)
    ensures
        page_text(a + b) == page_text(a) + page_text(b),
    decreases b.len(),
{
    if b.len() == 0 {
        assert(a + b =~= a);
        assert(page_text(a) + page_text(b) =~= page_text(a));
    } else {
        law_page_text_is_written_task_by_task(a, b.drop_last());
        assert((a + b).drop_last() =~= a + b.drop_last());
        assert((a + b).last() == b.last());
        assert(page_text(a + b) =~= page_text(a) + page_text(b));
    }
}

/// How long an application has been up is never left blank.
pub proof fn law_uptime_is_never_blank(secs: int)
    ensures
        uptime_text(secs).len() > 0,
{
    reveal_strlit("In the future");
    reveal_strlit("just now");
    reveal_strlit("d");
    reveal_strlit("h");
    reveal_strlit("m");
    reveal_strlit("s");
    reveal_strlit(" ");
    if secs > 0 {
        assert(secs / 86400 > 0 || secs % 86400 / 3600 > 0 || secs % 3600 / 60 > 0 || secs % 60
            > 0);
    }
}

/// The units in which the time up is given add up to it.
pub proof fn law_uptime_units_add_up(secs: int)
    requires
        secs >= 0,
    ensures
        86400 * (secs / 86400) + 3600 * (secs % 86400 / 3600) + 60 * (secs % 3600 / 60) + secs % 60
            == secs,
        secs % 86400 / 3600 < 24,
        secs % 3600 / 60 < 60,
{
}

/// The beginning of a text with a unit: what stood before, and the space that sets it off.
spec fn set_off(text: Seq<char>) -> Seq<char> {
    if text.len() == 0 {
        text
    } else {
        text.push(' ')
    }
}

/// How a number and its unit are appended, character by character.
proof fn lemma_with_unit(text: Seq<char>, number: int, unit: Seq<char>)
    requires
        unit.len() == 1,
        number > 0,
    ensures
        with_unit(text, number, unit) == set_off(text) + nat_text(number as nat) + unit,
{
    reveal_strlit(" ");
    if text.len() == 0 {
        assert(with_unit(text, number, unit) =~= set_off(text) + nat_text(number as nat) + unit);
    } else {
        assert(text + " "@ =~= text.push(' '));
        assert(with_unit(text, number, unit) =~= set_off(text) + nat_text(number as nat) + unit);
    }
}

/// A unit adds no characters but a space, digits and its own letter.
proof fn lemma_with_unit_lacks(text: Seq<char>, number: int, unit: Seq<char>, c: char)
    requires
        unit.len() == 1,
        lacks(text, c),
        c != unit[0],
        c != ' ',
        !('0' <= c <= '9'),
    ensures
        lacks(with_unit(text, number, unit), c),
{
    if number > 0 {
        lemma_with_unit(text, number, unit);
        lemma_nat_text_is_digits(number as nat);
    }
}

/// What stood before a unit, and the number, can be read off, where the letter of the unit did not
/// stand there before.
proof fn lemma_with_unit_injective(a: Seq<char>, b: Seq<char>, m: int, n: int, unit: Seq<char>)
    requires
        unit.len() == 1,
        lacks(a, unit[0]),
        lacks(b, unit[0]),
        m >= 0,
        n >= 0,
        with_unit(a, m, unit) == with_unit(b, n, unit),
    ensures
        a == b,
        m == n,
{
    if m > 0 {
        lemma_with_unit(a, m, unit);
        assert(with_unit(a, m, unit).last() == unit[0]);
    }
    if n > 0 {
        lemma_with_unit(b, n, unit);
        assert(with_unit(b, n, unit).last() == unit[0]);
    }
    if m > 0 && n > 0 {
        let p = set_off(a);
        let q = set_off(b);
        let d = nat_text(m as nat);
        let e = nat_text(n as nat);
        lemma_nat_text_is_digits(m as nat);
        lemma_nat_text_is_digits(n as nat);
        assert((p + d + unit).drop_last() =~= p + d);
        assert((q + e + unit).drop_last() =~= q + e);
        assert(p + d == q + e);
        if p.len() > q.len() {
            assert((p + d)[p.len() - 1] == ' ');
            assert((q + e)[p.len() - 1] == e[p.len() - 1 - q.len()]);
        } else if q.len() > p.len() {
            assert((q + e)[q.len() - 1] == ' ');
            assert((p + d)[q.len() - 1] == d[q.len() - 1 - p.len()]);
        }
        assert(p =~= (p + d).take(p.len() as int));
        assert(q =~= (q + e).take(q.len() as int));
        assert(d =~= (p + d).skip(p.len() as int));
        assert(e =~= (q + e).skip(q.len() as int));
        lemma_nat_text_injective(m as nat, n as nat);
        if a.len() > 0 && b.len() > 0 {
            assert(a =~= p.drop_last());
            assert(b =~= q.drop_last());
        } else {
            assert(a =~= b);
        }
    } else if m > 0 {
        assert(b.last() == unit[0]);
    } else if n > 0 {
        assert(a.last() == unit[0]);
    }
}

/// Different times up read differently.
pub proof fn law_different_uptimes_read_differently(a: int, b: int)
    requires
        a >= 0,
        b >= 0,
        uptime_text(a) == uptime_text(b),
    ensures
        a == b,
{
    reveal_strlit("just now");
    reveal_strlit("d");
    reveal_strlit("h");
    reveal_strlit("m");
    reveal_strlit("s");
    let days_a = with_unit(Seq::empty(), a / 86400, "d"@);
    let days_b = with_unit(Seq::empty(), b / 86400, "d"@);
    let hours_a = with_unit(days_a, a % 86400 / 3600, "h"@);
    let hours_b = with_unit(days_b, b % 86400 / 3600, "h"@);
    let minutes_a = with_unit(hours_a, a % 3600 / 60, "m"@);
    let minutes_b = with_unit(hours_b, b % 3600 / 60, "m"@);
    lemma_uptime_lacks(a, 'w');
    lemma_uptime_lacks(b, 'w');
    assert("just now"@[7] == 'w');
    if a > 0 && b > 0 {
        lemma_with_unit_lacks(Seq::empty(), a / 86400, "d"@, 'h');
        lemma_with_unit_lacks(Seq::empty(), b / 86400, "d"@, 'h');
        lemma_with_unit_lacks(Seq::empty(), a / 86400, "d"@, 'm');
        lemma_with_unit_lacks(Seq::empty(), b / 86400, "d"@, 'm');
        lemma_with_unit_lacks(Seq::empty(), a / 86400, "d"@, 's');
        lemma_with_unit_lacks(Seq::empty(), b / 86400, "d"@, 's');
        lemma_with_unit_lacks(days_a, a % 86400 / 3600, "h"@, 'm');
        lemma_with_unit_lacks(days_b, b % 86400 / 3600, "h"@, 'm');
        lemma_with_unit_lacks(days_a, a % 86400 / 3600, "h"@, 's');
        lemma_with_unit_lacks(days_b, b % 86400 / 3600, "h"@, 's');
        lemma_with_unit_lacks(hours_a, a % 3600 / 60, "m"@, 's');
        lemma_with_unit_lacks(hours_b, b % 3600 / 60, "m"@, 's');
        lemma_with_unit_injective(minutes_a, minutes_b, a % 60, b % 60, "s"@);
        lemma_with_unit_injective(hours_a, hours_b, a % 3600 / 60, b % 3600 / 60, "m"@);
        lemma_with_unit_injective(days_a, days_b, a % 86400 / 3600, b % 86400 / 3600, "h"@);
        lemma_with_unit_injective(Seq::empty(), Seq::empty(), a / 86400, b / 86400, "d"@);
        law_uptime_units_add_up(a);
        law_uptime_units_add_up(b);
    }
}

/// A time up in units holds no letter but those of the units.
proof fn lemma_uptime_lacks(secs: int, c: char)
    requires
        secs >= 0,
        c != 'd' && c != 'h' && c != 'm' && c != 's' && c != ' ' && !('0' <= c <= '9'),
    ensures
        secs > 0 ==> lacks(uptime_text(secs), c),
{
    reveal_strlit("d");
    reveal_strlit("h");
    reveal_strlit("m");
    reveal_strlit("s");
    let days = with_unit(Seq::empty(), secs / 86400, "d"@);
    let hours = with_unit(days, secs % 86400 / 3600, "h"@);
    let minutes = with_unit(hours, secs % 3600 / 60, "m"@);
    lemma_with_unit_lacks(Seq::empty(), secs / 86400, "d"@, c);
    lemma_with_unit_lacks(days, secs % 86400 / 3600, "h"@, c);
    lemma_with_unit_lacks(hours, secs % 3600 / 60, "m"@, c);
    lemma_with_unit_lacks(minutes, secs % 60, "s"@, c);
}

/// A delay that was found valid leaves a pause to draw, and a random one stays between its bounds.
pub proof fn law_valid_delays_have_a_pause(delay: Delay)
    requires
        valid_delay(delay),
    ensures
        exists|drawn: u64| may_draw(delay, drawn),
        forall|drawn: u64|
            may_draw(delay, drawn) && delay is Random ==> (#[trigger] delay_pause(
                delay,
                drawn,
            ) matches Pause::Secs(secs) && delay->low <= secs <= delay->high),
{
    match delay {
        Delay::Random { low, high } => {
            assert(may_draw(delay, low));
        },
        _ => {
            assert(may_draw(delay, 0));
        },
    }
}

/// The first failure of a task is told in the same words as any other.
pub proof fn law_first_failures_read_like_others(
    task: Seq<char>,
    error: Seq<char>,
    context: Seq<char>,
)
    ensures
        alert_message(AlertView::FirstFailure { task, error }, context) == alert_message(
            AlertView::Down { task, error },
            context,
        ),
{
}

/// The build version that a message shows is a beginning of the version, of at most seven
/// characters.
pub proof fn law_short_version_is_a_prefix(version: Seq<char>)
    ensures
        short_version(version).len() <= SHORT_VERSION_LEN,
        short_version(version) == version.take(short_version(version).len() as int),
        version.len() <= SHORT_VERSION_LEN ==> short_version(version) == version,
{
    if version.len() <= SHORT_VERSION_LEN {
        assert(version.take(version.len() as int) =~= version);
    }
}

} // verus!
