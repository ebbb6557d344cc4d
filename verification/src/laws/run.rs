//! What the beginning and the end of a run do.

use super::clock::{beyond_minutes, lemma_component};
use crate::clock::{instant_reads, now_reads, Moment, TimeSpan};
use crate::config::{Delay, InvertedDelay, Pause, TaskConfig, WatcherConfig};
use crate::context::WatcherAppContext;
use crate::label::TaskLabel;
use crate::output::{OutputView, WatchedTaskOutput};
use crate::periodic::{
    config_answer, timeout_error, Alert, AlertView, Completion, NextRun, PeriodicTask, PeriodicView,
};
use crate::status::{alert_answer, ResultView, StatusView, TaskCounts, TaskStatus};
use std::borrow::Cow;
use std::time::Instant;
use vstd::prelude::*;

verus! {

/// A new output is a success that says what it was given, with a delay after it and without an
/// expiry.
pub proof fn law_new_outputs_are_successes<M: Into<Cow<'static, str>>>(
    message: M,
    output: WatchedTaskOutput,
)
    requires
        call_ensures(WatchedTaskOutput::new::<M>, (message,), output),
    ensures
        exists|text: Cow<'static, str>| #[trigger]
            call_ensures(M::into, (message,), text) && output@.message == text@,
        !output@.error,
        !output@.skip_delay,
        !output@.suppress,
        output@.expire_alert is None,
{
}

/// Each setting of an output changes what it names and nothing else, and what is read of an output
/// is what was set.
pub proof fn law_outputs_keep_their_other_settings(
    output: WatchedTaskOutput,
    failing: WatchedTaskOutput,
    hasty: WatchedTaskOutput,
    span: TimeSpan,
    now: Instant,
    expiring: WatchedTaskOutput,
    error: bool,
    message: &str,
)
    requires
        call_ensures(WatchedTaskOutput::set_error, (output,), failing),
        call_ensures(WatchedTaskOutput::skip_delay, (output,), hasty),
        call_ensures(WatchedTaskOutput::set_expiry_at, (output, span, now), expiring),
        call_ensures(WatchedTaskOutput::is_error, (&output,), error),
        call_ensures(WatchedTaskOutput::message, (&output,), message),
    ensures
        failing@.error,
        failing@.skip_delay == output@.skip_delay,
        failing@.suppress == output@.suppress,
        failing@.message == output@.message,
        failing@.expire_alert == output@.expire_alert,
        hasty@.skip_delay,
        hasty@.error == output@.error,
        hasty@.suppress == output@.suppress,
        hasty@.message == output@.message,
        hasty@.expire_alert == output@.expire_alert,
        expiring@.expire_alert == Some((span, now)),
        expiring@.error == output@.error,
        expiring@.skip_delay == output@.skip_delay,
        expiring@.suppress == output@.suppress,
        expiring@.message == output@.message,
        error == output@.error,
        message@ == output@.message,
{
}

/// An expiry that is set now counts from an instant that the clock has given, takes the place of any
/// earlier one, and changes nothing else.
pub proof fn law_an_expiry_counts_from_now(
    output: WatchedTaskOutput,
    span: TimeSpan,
    expiring: WatchedTaskOutput,
)
    requires
        call_ensures(WatchedTaskOutput::set_expiry, (output, span), expiring),
    ensures
        exists|now: Instant| #[trigger]
            instant_reads(now) && expiring@.expire_alert == Some((span, now)),
        expiring@.error == output@.error,
        expiring@.skip_delay == output@.skip_delay,
        expiring@.suppress == output@.suppress,
        expiring@.message == output@.message,
{
}

/// What an alert stands for is its kind, its task and its texts in full.
pub proof fn law_alerts_stand_for_their_texts(alert: Alert)
    ensures
        alert is Down ==> alert@ == (AlertView::Down {
            task: alert->Down_task@,
            error: alert->Down_error@,
        }),
        alert is Recovered ==> alert@ == (AlertView::Recovered {
            task: alert->Recovered_task@,
            old_error: alert->old_error@,
            new_message: alert->new_message@,
        }),
        alert is FirstFailure ==> alert@ == (AlertView::FirstFailure {
            task: alert->FirstFailure_task@,
            error: alert->FirstFailure_error@,
        }),
{
}

/// The answers of the application and the readings of the clock, of which contracts speak, are those
/// that it gives to the question that is asked of it: of the very task, with the very selection.
pub proof fn law_answers_are_those_to_the_question_asked<C: WatcherAppContext>(
    app: C,
    label: TaskLabel,
    selected_label: Option<&TaskLabel>,
    answer: bool,
    config: WatcherConfig,
    now: Moment,
)
    ensures
        alert_answer(&app, &label, selected_label, answer) <==> call_ensures(
            C::triggers_alert,
            (&app, &label, selected_label),
            answer,
        ),
        config_answer(&app, config) <==> call_ensures(C::watcher_config, (&app,), config),
        now_reads(now) <==> call_ensures(Moment::now, (), now),
{
}

/// A task can be set up unless its random delay has its bounds the wrong way round; it starts with
/// no failures behind it.
pub proof fn law_new_tasks_start_afresh(
    label: TaskLabel,
    config: TaskConfig,
    made: Result<PeriodicTask, InvertedDelay>,
)
    requires
        call_ensures(PeriodicTask::new, (label, config), made),
    ensures
        made is Err <==> config.delay is Random && config.delay->low > config.delay->high,
        made is Err ==> made->Err_0.low == config.delay->low && made->Err_0.high
            == config.delay->high,
        made is Ok ==> {
            let task = made->Ok_0@;
            &&& task.label == label
            &&& task.config == config
            &&& task.retries == 0
            &&& !task.failed
            &&& !task.healthy
            &&& task.counts == (TaskCounts { successes: 0, retries: 0, errors: 0 })
        },
{
}

/// Runs that can go out of date, and no others, are given up after a hundred and eighty seconds.
pub proof fn law_limited_runs_are_given_up(
    task: PeriodicTask,
    limit: Option<u64>,
    elapsed: &str,
    error: String,
)
    requires
        call_ensures(PeriodicTask::time_limit, (&task,), limit),
        call_ensures(timeout_error, (elapsed,), error),
    ensures
        task@.config.out_of_date is Some ==> limit == Some(180u64),
        task@.config.out_of_date is None ==> limit is None,
        error@ == "Running a single task took too long, killing. Elapsed time: "@ + elapsed@,
{
}

/// There is room for the end of a run as long as no counter that it may raise is at its last.
pub proof fn law_there_is_room_until_a_counter_is_full(
    task: PeriodicTask,
    result: Result<WatchedTaskOutput, String>,
    room: bool,
)
    requires
        call_ensures(PeriodicTask::has_room, (&task, &result), room),
    ensures
        result is Ok && result->Ok_0@.error ==> (room <==> task@.counts.errors < usize::MAX),
        result is Ok && !result->Ok_0@.error ==> (room <==> task@.counts.successes < usize::MAX),
        result is Err ==> (room <==> task@.retries < usize::MAX && task@.counts.retries < usize::MAX
            && task@.counts.errors < usize::MAX),
{
}

/// The beginning of a run says since when it is in progress and to what time it is held, and
/// changes nothing else; the task takes note of the counts.
pub proof fn law_the_beginning_of_a_run(
    task: &mut PeriodicTask,
    status: &mut TaskStatus,
    now: Moment,
)
    requires
        call_ensures(PeriodicTask::begin_run_at, (task, status, now), ()),
    ensures
        final(status)@.current_run_started == Some(now@),
        final(status)@.out_of_date == old(task)@.config.out_of_date,
        final(status)@.value == old(status)@.value,
        final(status)@.updated == old(status)@.updated,
        final(status)@.last_retry_error == old(status)@.last_retry_error,
        final(status)@.expire_last_result == old(status)@.expire_last_result,
        final(status)@.counts == old(status)@.counts,
        final(status)@.last_run_seconds == old(status)@.last_run_seconds,
        final(task)@.counts == old(status)@.counts,
        final(task)@.label == old(task)@.label,
        final(task)@.config == old(task)@.config,
        final(task)@.retries == old(task)@.retries,
        final(task)@.failed == old(task)@.failed,
        final(task)@.healthy == old(task)@.healthy,
{
}

/// A run that begins now is in progress since a moment that the clock has given, and nothing else
/// changes but the time to which it is held.
pub proof fn law_the_beginning_of_a_run_by_the_clock(
    task: &mut PeriodicTask,
    status: &mut TaskStatus,
)
    requires
        call_ensures(PeriodicTask::begin_run, (task, status), ()),
    ensures
        exists|now: Moment| #[trigger]
            now_reads(now) && final(status)@.current_run_started == Some(now@),
        final(status)@.out_of_date == old(task)@.config.out_of_date,
        final(status)@.value == old(status)@.value,
        final(status)@.updated == old(status)@.updated,
        final(status)@.last_retry_error == old(status)@.last_retry_error,
        final(status)@.expire_last_result == old(status)@.expire_last_result,
        final(status)@.counts == old(status)@.counts,
        final(status)@.last_run_seconds == old(status)@.last_run_seconds,
        final(task)@.counts == old(status)@.counts,
        final(task)@.label == old(task)@.label,
        final(task)@.config == old(task)@.config,
        final(task)@.retries == old(task)@.retries,
        final(task)@.failed == old(task)@.failed,
        final(task)@.healthy == old(task)@.healthy,
{
}

/// Whether the run time in `after` is that of the run in progress in `before`, ended at `finished`:
/// the seconds beyond its last whole minute, and none where no run was in progress.
pub open spec fn tells_run_time(before: StatusView, after: StatusView, finished: int) -> bool {
    &&& before.current_run_started is None ==> after.last_run_seconds is None
    &&& before.current_run_started is Some ==> after.last_run_seconds is Some && beyond_minutes(
        finished - before.current_run_started->0.nanos,
        after.last_run_seconds->0 as int,
    )
}

/// The run time that is shown is that of the run.
proof fn lemma_run_time(before: StatusView, finished: int)
    ensures
        before.current_run_started is Some ==> {
            let seconds = crate::clock::seconds_component(
                finished - before.current_run_started->0.nanos,
            );
            &&& -60 < seconds < 60
            &&& beyond_minutes(finished - before.current_run_started->0.nanos, seconds)
        },
{
    if before.current_run_started is Some {
        lemma_component(finished - before.current_run_started->0.nanos);
    }
}

/// Whether the end of a run leaves of a task what does not change with it.
pub open spec fn same_task(before: PeriodicView, after: PeriodicView) -> bool {
    &&& after.label == before.label
    &&& after.config == before.config
    &&& after.counts == before.counts
}

/// Whether `after` is the status that an output leads to from `before`, put on show at `updated`:
/// an output that is not suppressed is on show with its whole message, as an error or as a success,
/// whatever was on show before; one run more is counted on top of the counts at its beginning.
pub open spec fn shows_output(
    task: PeriodicView,
    before: StatusView,
    after: StatusView,
    output: OutputView,
    updated: Moment,
) -> bool {
    &&& !output.suppress && output.error ==> after.value == ResultView::Failure(output.message)
    &&& !output.suppress && !output.error ==> after.value == ResultView::Success(output.message)
    &&& output.suppress ==> after.value == before.value
    &&& after.updated == updated@
    &&& after.last_retry_error is None
    &&& after.current_run_started is None
    &&& after.out_of_date == task.config.out_of_date
    &&& after.expire_last_result == output.expire_alert
    &&& after.counts.successes == task.counts.successes + (if output.error {
        0int
    } else {
        1
    })
    &&& after.counts.errors == task.counts.errors + (if output.error {
        1int
    } else {
        0
    })
    &&& after.counts.retries == task.counts.retries
}

/// Whether a failure of a task that is worth an alert is told, where `before` was on show: not
/// while a failure is on show; as the end of good health after a success; and otherwise as the
/// first failure, where none was reported, or as the end of good health, where the last run
/// reported was a success.
pub open spec fn tells_failure(
    task: PeriodicView,
    before: StatusView,
    error: Seq<char>,
    alert: Option<Alert>,
) -> bool {
    let neither = !(before.value is Success) && !(before.value is Failure);
    let down = before.value is Success || (neither && task.failed && task.healthy);
    let first = neither && !task.failed;
    &&& down ==> alert is Some && alert->0@ == (AlertView::Down { task: task.label@, error })
    &&& first ==> alert is Some && alert->0@ == (AlertView::FirstFailure {
        task: task.label@,
        error,
    })
    &&& !down && !first ==> alert is None
}

/// Whether a success of a task that is worth an alert is told, where `before` was on show: as a
/// recovery, with the error on show and the new message, where a failure was on show, and not
/// otherwise.
pub open spec fn tells_success(
    task: PeriodicView,
    before: StatusView,
    message: Seq<char>,
    alert: Option<Alert>,
) -> bool {
    &&& before.value is Failure ==> alert is Some && alert->0@ == (AlertView::Recovered {
        task: task.label@,
        old_error: before.value->Failure_0,
        new_message: message,
    })
    &&& !(before.value is Failure) ==> alert is None
}

/// The output of a run is put on show, is counted, and is told where the task is worth an alert;
/// the next run follows at once only where the output says so.
pub proof fn law_the_output_of_a_run(
    task: &mut PeriodicTask,
    status: &mut TaskStatus,
    output: WatchedTaskOutput,
    triggers_alert: bool,
    finished: Moment,
    updated: Moment,
    completion: Completion,
)
    requires
        call_ensures(
            PeriodicTask::record_output,
            (task, status, output, triggers_alert, finished, updated),
            completion,
        ),
        task@.counts.successes < usize::MAX,
        task@.counts.errors < usize::MAX,
    ensures
        shows_output(old(task)@, old(status)@, final(status)@, output@, updated),
        tells_run_time(old(status)@, final(status)@, finished@.nanos),
        same_task(old(task)@, final(task)@),
        final(task)@.retries == 0,
        final(task)@.failed <==> old(task)@.failed || output@.error,
        final(task)@.healthy <==> !output@.error,
        !triggers_alert ==> completion.alert is None,
        triggers_alert && output@.error ==> tells_failure(
            old(task)@,
            old(status)@,
            output@.message,
            completion.alert,
        ),
        triggers_alert && !output@.error ==> tells_success(
            old(task)@,
            old(status)@,
            output@.message,
            completion.alert,
        ),
        output@.skip_delay ==> completion.next is AtOnce,
        !output@.skip_delay ==> completion.next is AfterDelay,
{
    lemma_run_time(status@, finished@.nanos);
}

/// Whether `after` is the status that a failure beyond the configured retries leads to from
/// `before`: the whole error is on show, and one error more is counted.
pub open spec fn shows_failure(
    task: PeriodicView,
    after: StatusView,
    error: Seq<char>,
    updated: Moment,
) -> bool {
    &&& after.value == ResultView::Failure(error)
    &&& after.updated == updated@
    &&& after.last_retry_error is None
    &&& after.current_run_started is None
    &&& after.out_of_date == task.config.out_of_date
    &&& after.expire_last_result is None
    &&& after.counts.successes == task.counts.successes
    &&& after.counts.retries == task.counts.retries
    &&& after.counts.errors == task.counts.errors + 1
}

/// Whether `after` is the status that a failure within the configured retries leads to from
/// `before`: what was on show stays, the whole error is the one of the last attempt, and one retry
/// more is counted.
pub open spec fn shows_retry(
    task: PeriodicView,
    before: StatusView,
    after: StatusView,
    error: Seq<char>,
    updated: Moment,
) -> bool {
    &&& after.value == before.value
    &&& after.updated == before.updated
    &&& after.last_retry_error is Some
    &&& after.last_retry_error->0.value == error
    &&& after.last_retry_error->0.updated == updated@
    &&& after.current_run_started is None
    &&& after.out_of_date == task.config.out_of_date
    &&& after.expire_last_result is None
    &&& after.counts.successes == task.counts.successes
    &&& after.counts.retries == task.counts.retries + 1
    &&& after.counts.errors == task.counts.errors
}

/// The failure of a run is tried again as long as the failures in a row do not outnumber the
/// retries; the first one beyond them is put on show, is told where the task is worth an alert, and
/// ends the row. Either way a delay between retries follows.
pub proof fn law_the_failure_of_a_run(
    task: &mut PeriodicTask,
    status: &mut TaskStatus,
    error: String,
    max_retries: usize,
    triggers_alert: bool,
    finished: Moment,
    updated: Moment,
    completion: Completion,
)
    requires
        call_ensures(
            PeriodicTask::record_failure,
            (task, status, error, max_retries, triggers_alert, finished, updated),
            completion,
        ),
        task@.retries < usize::MAX,
        task@.counts.retries < usize::MAX,
        task@.counts.errors < usize::MAX,
    ensures
        tells_run_time(old(status)@, final(status)@, finished@.nanos),
        same_task(old(task)@, final(task)@),
        completion.next is AfterFailure,
        old(task)@.retries < max_retries ==> {
            &&& shows_retry(old(task)@, old(status)@, final(status)@, error@, updated)
            &&& final(task)@.retries == old(task)@.retries + 1
            &&& final(task)@.failed == old(task)@.failed
            &&& final(task)@.healthy == old(task)@.healthy
            &&& completion.alert is None
        },
        old(task)@.retries >= max_retries ==> {
            &&& shows_failure(old(task)@, final(status)@, error@, updated)
            &&& final(task)@.retries == 0
            &&& final(task)@.failed
            &&& !final(task)@.healthy
            &&& !triggers_alert ==> completion.alert is None
            &&& triggers_alert ==> tells_failure(
                old(task)@,
                old(status)@,
                error@,
                completion.alert,
            )
        },
{
    lemma_run_time(status@, finished@.nanos);
}

/// A run that ends with an output, by the clock and the answer of the application: the output is
/// put on show and counted as at any moment; it is told where the application must call the task
/// worth an alert, and not told where it may not.
pub proof fn law_outputs_by_the_clock<C: WatcherAppContext>(
    task: &mut PeriodicTask,
    status: &mut TaskStatus,
    output: WatchedTaskOutput,
    app: C,
    completion: Completion,
)
    requires
        call_ensures(PeriodicTask::complete::<C>, (task, status, Ok(output), &app), completion),
        task@.counts.successes < usize::MAX,
        task@.counts.errors < usize::MAX,
    ensures
        exists|finished: Moment, updated: Moment|
            {
                &&& #[trigger] now_reads(finished) && #[trigger] now_reads(updated)
                &&& shows_output(old(task)@, old(status)@, final(status)@, output@, updated)
                &&& tells_run_time(old(status)@, final(status)@, finished@.nanos)
            },
        same_task(old(task)@, final(task)@),
        final(task)@.retries == 0,
        final(task)@.failed <==> old(task)@.failed || output@.error,
        final(task)@.healthy <==> !output@.error,
        output@.skip_delay ==> completion.next is AtOnce,
        !output@.skip_delay ==> completion.next is AfterDelay,
        completion.alert is Some ==> alert_answer(&app, &old(task)@.label, None, true),
        !alert_answer(&app, &old(task)@.label, None, false) ==> {
            &&& output@.error ==> tells_failure(
                old(task)@,
                old(status)@,
                output@.message,
                completion.alert,
            )
            &&& !output@.error ==> tells_success(
                old(task)@,
                old(status)@,
                output@.message,
                completion.alert,
            )
        },
{
    assert forall|finished: Moment| #[trigger]
        now_reads(finished) && status@.current_run_started is Some implies beyond_minutes(
        finished@.nanos - status@.current_run_started->0.nanos,
        crate::clock::seconds_component(finished@.nanos - status@.current_run_started->0.nanos),
    ) by {
        lemma_run_time(status@, finished@.nanos);
    }
}

/// A run that ends with an error, by the clock and the answers of the application: the number of
/// retries is that of the task, where it gives one, and the general one otherwise; within it the
/// error is tried again, and beyond it is put on show and told as at any moment.
pub proof fn law_failures_by_the_clock<C: WatcherAppContext>(
    task: &mut PeriodicTask,
    status: &mut TaskStatus,
    error: String,
    app: C,
    completion: Completion,
)
    requires
        call_ensures(PeriodicTask::complete::<C>, (task, status, Err(error), &app), completion),
        task@.retries < usize::MAX,
        task@.counts.retries < usize::MAX,
        task@.counts.errors < usize::MAX,
    ensures
        same_task(old(task)@, final(task)@),
        completion.next is AfterFailure,
        exists|general: WatcherConfig|
            {
                let own = old(task)@.config.retries;
                let limit = if own is Some {
                    own->0
                } else {
                    general.retries
                };
                &&& #[trigger] config_answer(&app, general)
                &&& old(task)@.retries < limit ==> {
                    &&& exists|finished: Moment, updated: Moment|
                        {
                            &&& #[trigger] now_reads(finished) && #[trigger] now_reads(updated)
                            &&& shows_retry(
                                old(task)@,
                                old(status)@,
                                final(status)@,
                                error@,
                                updated,
                            )
                            &&& tells_run_time(old(status)@, final(status)@, finished@.nanos)
                        }
                    &&& final(task)@.retries == old(task)@.retries + 1
                    &&& final(task)@.failed == old(task)@.failed
                    &&& final(task)@.healthy == old(task)@.healthy
                    &&& completion.alert is None
                }
                &&& old(task)@.retries >= limit ==> {
                    &&& exists|finished: Moment, updated: Moment|
                        {
                            &&& #[trigger] now_reads(finished) && #[trigger] now_reads(updated)
                            &&& shows_failure(old(task)@, final(status)@, error@, updated)
                            &&& tells_run_time(old(status)@, final(status)@, finished@.nanos)
                        }
                    &&& final(task)@.retries == 0
                    &&& final(task)@.failed
                    &&& !final(task)@.healthy
                    &&& completion.alert is Some ==> alert_answer(
                        &app,
                        &old(task)@.label,
                        None,
                        true,
                    )
                    &&& !alert_answer(&app, &old(task)@.label, None, false) ==> tells_failure(
                        old(task)@,
                        old(status)@,
                        error@,
                        completion.alert,
                    )
                }
            },
{
    assert forall|finished: Moment| #[trigger]
        now_reads(finished) && status@.current_run_started is Some implies beyond_minutes(
        finished@.nanos - status@.current_run_started->0.nanos,
        crate::clock::seconds_component(finished@.nanos - status@.current_run_started->0.nanos),
    ) by {
        lemma_run_time(status@, finished@.nanos);
    }
}

/// Every run can be ended as long as the counter that its end raises is not at its last: with an
/// output, with an error within the retries, and with an error beyond them.
pub proof fn law_runs_can_be_ended<C: WatcherAppContext>(
    task: &mut PeriodicTask,
    status: &mut TaskStatus,
    output: WatchedTaskOutput,
    error: String,
    max_retries: usize,
    triggers_alert: bool,
    finished: Moment,
    updated: Moment,
    result: Result<WatchedTaskOutput, String>,
    app: C,
)
    ensures
        (if output@.error {
            old(task)@.counts.errors < usize::MAX
        } else {
            old(task)@.counts.successes < usize::MAX
        }) ==> call_requires(
            PeriodicTask::record_output,
            (task, status, output, triggers_alert, finished, updated),
        ),
        old(task)@.retries < usize::MAX && (if old(task)@.retries < max_retries {
            old(task)@.counts.retries < usize::MAX
        } else {
            old(task)@.counts.errors < usize::MAX
        }) ==> call_requires(
            PeriodicTask::record_failure,
            (task, status, error, max_retries, triggers_alert, finished, updated),
        ),
        old(task)@.retries < usize::MAX && old(task)@.counts.successes < usize::MAX && old(task)@.counts.retries
            < usize::MAX && old(task)@.counts.errors < usize::MAX ==> call_requires(
            PeriodicTask::complete::<C>,
            (task, status, result, &app),
        ),
{
}

/// The pause after a run: none where the next run follows at once; as long as the delay says after
/// an output; and after an error the seconds that the task gives, where it gives some, and the
/// general ones otherwise.
pub proof fn law_pauses_between_runs<C: WatcherAppContext>(
    task: PeriodicTask,
    next: NextRun,
    app: C,
    pause: Pause,
)
    requires
        call_ensures(PeriodicTask::pause::<C>, (&task, next, &app), pause),
    ensures
        next is AtOnce ==> pause is NoPause,
        next is AfterDelay ==> match task@.config.delay {
            Delay::NoDelay => pause is NoPause,
            Delay::ConstantMSecs(msecs) => pause == Pause::Millis(msecs),
            Delay::ConstantSecs(secs) => pause == Pause::Secs(secs),
            Delay::Random { low, high } => pause is Secs && low <= pause->Secs_0 <= high,
        },
        next is AfterFailure ==> pause is Secs,
        next is AfterFailure && task@.config.delay_between_retries is Some ==> pause->Secs_0
            == task@.config.delay_between_retries->0,
        next is AfterFailure && task@.config.delay_between_retries is None ==> exists|
            general: WatcherConfig,
        | #[trigger]
            config_answer(&app, general) && pause->Secs_0 == general.delay_between_retries,
{
}

} // verus!
