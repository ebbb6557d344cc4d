//! What a status says, and what is shown of it.

use super::clock::nanos_of;
use super::text::{digits_only, law_integers_read_back, value_of};
use crate::clock::{elapsed_reads, now_reads, Moment, TimeSpan};
use crate::config::TaskConfig;
use crate::context::WatcherAppContext;
use crate::label::TaskLabel;
use crate::status::{
    alert_answer, OutOfDateType, ResultView, ShortStatus, StatusView, TaskCounts, TaskError,
    TaskResult, TaskResultValue, TaskStatus,
};
use crate::text::int_text;
use std::borrow::Cow;
use vstd::prelude::*;

verus! {

/// What a result stands for is its kind and its text.
pub proof fn law_results_stand_for_their_text(value: TaskResultValue)
    ensures
        value is Success ==> value@ == ResultView::Success(value->Success_0@),
        value is Failure ==> value@ == ResultView::Failure(value->Failure_0@),
        value is NotYetRun ==> value@ == ResultView::NotYetRun,
        value is Info ==> value@ == ResultView::Info(value->Info_0@),
{
}

/// What a status stands for is what its fields hold, one by one.
pub proof fn law_statuses_stand_for_their_fields(status: TaskStatus)
    ensures
        status@.value == status.last_result.value@,
        status@.updated == status.last_result.updated@,
        status@.last_retry_error is Some <==> status.last_retry_error is Some,
        status.last_retry_error is Some ==> status@.last_retry_error->0.value
            == status.last_retry_error->0.value@,
        status.last_retry_error is Some ==> status@.last_retry_error->0.updated
            == status.last_retry_error->0.updated@,
        status@.current_run_started is Some <==> status.current_run_started is Some,
        status.current_run_started is Some ==> status@.current_run_started->0
            == status.current_run_started->0@,
        status@.out_of_date == status.out_of_date,
        status@.expire_last_result == status.expire_last_result,
        status@.counts == status.counts,
        status@.last_run_seconds == status.last_run_seconds,
{
}

/// A result is shown in full: its message, its error or, before the first run has come to an end,
/// that none has.
pub proof fn law_results_are_shown_in_full(value: TaskResultValue, text: &str)
    requires
        call_ensures(TaskResultValue::as_str, (&value,), text),
    ensures
        value is Success ==> text@ == value->Success_0@,
        value is Failure ==> text@ == value->Failure_0@,
        value is Info ==> text@ == value->Info_0@,
        value is NotYetRun ==> text@ == "Task has not yet completed a single run"@,
{
}

/// Only what a run in progress has reported is a report.
pub proof fn law_only_reports_are_info(value: TaskResultValue, info: bool)
    requires
        call_ensures(TaskResultValue::is_info, (&value,), info),
    ensures
        info <==> value is Info,
{
}

/// A task that has not completed a run has counted nothing, has no error, no expiry and no run
/// time, and holds what was given of its run in progress.
pub proof fn law_new_statuses_have_counted_nothing(
    updated: Moment,
    started: Option<Moment>,
    out_of_date: Option<u32>,
    status: TaskStatus,
)
    requires
        call_ensures(TaskStatus::not_yet_run, (updated, started, out_of_date), status),
    ensures
        status@.value is NotYetRun,
        status@.updated == updated@,
        status@.current_run_started is Some <==> started is Some,
        started is Some ==> status@.current_run_started == Some(started->0@),
        status@.out_of_date == out_of_date,
        status@.counts.successes == 0,
        status@.counts.retries == 0,
        status@.counts.errors == 0,
        status@.last_retry_error is None,
        status@.expire_last_result is None,
        status@.last_run_seconds is None,
{
}

/// A task that runs by itself is in progress from the start and held to no time.
pub proof fn law_background_tasks_are_in_progress(status: TaskStatus)
    requires
        call_ensures(TaskStatus::background, (), status),
    ensures
        status@.value is NotYetRun,
        status@.current_run_started is Some,
        status@.out_of_date is None,
        status@.counts == (TaskCounts { successes: 0, retries: 0, errors: 0 }),
        status@.last_retry_error is None,
        status@.expire_last_result is None,
        status@.last_run_seconds is None,
{
}

/// A task that is run over and over again is not in progress before its first run, and is held to
/// the time that its configuration gives.
pub proof fn law_periodic_tasks_wait_for_their_first_run(config: TaskConfig, status: TaskStatus)
    requires
        call_ensures(TaskStatus::periodic, (&config,), status),
    ensures
        status@.value is NotYetRun,
        status@.current_run_started is None,
        status@.out_of_date == config.out_of_date,
        status@.counts == (TaskCounts { successes: 0, retries: 0, errors: 0 }),
        status@.last_retry_error is None,
        status@.expire_last_result is None,
        status@.last_run_seconds is None,
{
}

/// What a run in progress reports is shown from then on, and changes nothing else.
pub proof fn law_reports_change_the_result_alone(
    status: &mut TaskStatus,
    message: Cow<'static, str>,
    now: Moment,
)
    requires
        call_ensures(TaskStatus::set_info, (status, message, now), ()),
    ensures
        final(status)@.value == ResultView::Info(message@),
        final(status)@.updated == now@,
        final(status)@.last_retry_error == old(status)@.last_retry_error,
        final(status)@.current_run_started == old(status)@.current_run_started,
        final(status)@.out_of_date == old(status)@.out_of_date,
        final(status)@.expire_last_result == old(status)@.expire_last_result,
        final(status)@.counts == old(status)@.counts,
        final(status)@.last_run_seconds == old(status)@.last_run_seconds,
{
}

/// A report received now is shown in full, and changes nothing else.
pub proof fn law_reports_are_shown_in_full<M: Into<Cow<'static, str>>>(
    status: &mut TaskStatus,
    message: M,
)
    requires
        call_ensures(TaskStatus::set_status::<M>, (status, message), ()),
    ensures
        exists|text: Cow<'static, str>| #[trigger]
            call_ensures(M::into, (message,), text) && final(status)@.value == ResultView::Info(
                text@,
            ),
        final(status)@.last_retry_error == old(status)@.last_retry_error,
        final(status)@.current_run_started == old(status)@.current_run_started,
        final(status)@.out_of_date == old(status)@.out_of_date,
        final(status)@.expire_last_result == old(status)@.expire_last_result,
        final(status)@.counts == old(status)@.counts,
        final(status)@.last_run_seconds == old(status)@.last_run_seconds,
{
}

/// The length of the last run is told in decimal digits, with a minus sign where it is negative,
/// and as unknown only where it is.
pub proof fn law_run_times_read_back(status: TaskStatus, text: String)
    requires
        call_ensures(TaskStatus::total_run_time, (&status,), text),
    ensures
        status@.last_run_seconds is None ==> text@ == "Unknown"@,
        status@.last_run_seconds is Some ==> {
            let secs = status@.last_run_seconds->0;
            &&& secs >= 0 ==> digits_only(text@) && value_of(text@) == secs
            &&& secs < 0 ==> text@[0] == '-' && digits_only(text@.skip(1)) && value_of(
                text@.skip(1),
            ) == -secs
            &&& text@.len() > 0
            &&& text@[0] == '0' ==> secs == 0
        },
{
    if status@.last_run_seconds is Some {
        law_integers_read_back(status@.last_run_seconds->0 as int);
    }
}

/// A result without an expiry never expires; one with an expiry has expired if and only if at
/// least that long has passed, to the nanosecond.
pub proof fn law_results_expire_when_their_time_is_over(
    status: TaskStatus,
    elapsed: TimeSpan,
    expired: bool,
)
    requires
        call_ensures(TaskStatus::is_expired_after, (&status, elapsed), expired),
    ensures
        status@.expire_last_result is None ==> !expired,
        status@.expire_last_result is Some ==> {
            let span = (status@.expire_last_result->0).0;
            expired <==> nanos_of(elapsed.secs as int) + elapsed.nanos >= nanos_of(
                span.secs as int,
            ) + span.nanos
        },
{
}

/// By the clock, too, a result without an expiry never expires, one whose expiry has no length has
/// expired at once, and any other by the time since its expiry was set.
pub proof fn law_results_without_expiry_stay(status: TaskStatus, expired: bool)
    requires
        call_ensures(TaskStatus::is_expired, (&status,), expired),
    ensures
        status@.expire_last_result is None ==> !expired,
        status@.expire_last_result is Some && (status@.expire_last_result->0).0.secs == 0
            && (status@.expire_last_result->0).0.nanos == 0 ==> expired,
        status@.expire_last_result is Some ==> exists|elapsed: TimeSpan|
            {
                let span = (status@.expire_last_result->0).0;
                &&& #[trigger] elapsed_reads((status@.expire_last_result->0).1, elapsed)
                &&& expired <==> nanos_of(elapsed.secs as int) + elapsed.nanos >= nanos_of(
                    span.secs as int,
                ) + span.nanos
            },
{
}

/// A run that is held to a time is very much out of date from three hundred seconds on; before
/// that it is slightly out of date if and only if at least as many seconds have passed as it may
/// take, to the nanosecond. No other run goes out of date.
pub proof fn law_runs_go_out_of_date_when_their_time_is_over(
    status: TaskStatus,
    now: Moment,
    out_of_date: OutOfDateType,
)
    requires
        call_ensures(TaskStatus::out_of_date_by, (&status, &now), out_of_date),
    ensures
        status@.current_run_started is None || status@.out_of_date is None ==> out_of_date is Not,
        status@.current_run_started is Some && status@.out_of_date is Some ==> {
            let passed = now@.nanos - status@.current_run_started->0.nanos;
            let limit = nanos_of(status@.out_of_date->0 as int);
            &&& out_of_date is Very <==> passed >= nanos_of(300)
            &&& out_of_date is Slightly <==> limit <= passed < nanos_of(300)
            &&& out_of_date is Not <==> passed < limit && passed < nanos_of(300)
        },
{
}

/// By the clock, too, only a run in progress that is held to a time goes out of date, and by the
/// time that it has taken now.
pub proof fn law_unlimited_runs_are_never_out_of_date(
    status: TaskStatus,
    out_of_date: OutOfDateType,
)
    requires
        call_ensures(TaskStatus::is_out_of_date, (&status,), out_of_date),
    ensures
        status@.current_run_started is None || status@.out_of_date is None ==> out_of_date is Not,
        status@.out_of_date is Some && status@.out_of_date->0 >= 300 ==> !(out_of_date is Slightly),
        status@.current_run_started is Some && status@.out_of_date is Some ==> exists|now: Moment|
            {
                let passed = now@.nanos - status@.current_run_started->0.nanos;
                let limit = nanos_of(status@.out_of_date->0 as int);
                &&& #[trigger] now_reads(now)
                &&& out_of_date is Very <==> passed >= nanos_of(300)
                &&& out_of_date is Slightly <==> limit <= passed < nanos_of(300)
            },
{
}

/// The deadlines of a run are points in time unless they lie beyond the last one; they matter
/// where a success or a report is on show.
pub proof fn law_deadlines_end_with_time(
    status: TaskStatus,
    fit: bool,
    tellable: bool,
)
    requires
        call_ensures(TaskStatus::deadlines_fit, (&status,), fit),
        call_ensures(TaskStatus::is_tellable, (&status,), tellable),
        status@.current_run_started is Some ==> status@.current_run_started->0.nanos
            >= -377_705_023_201_000_000_000,
    ensures
        fit <==> (status@.current_run_started is Some && status@.out_of_date is Some ==> {
            let started = status@.current_run_started->0.nanos;
            &&& started + nanos_of(300) <= 253_402_207_200_999_999_999
            &&& started + nanos_of(status@.out_of_date->0 as int) <= 253_402_207_200_999_999_999
        }),
        tellable <==> fit || status@.value is Failure || status@.value is NotYetRun,
{
}

/// How late a run is can be told at any moment unless it began too close to the end of time: the
/// mark of three hundred seconds has to be a point in time and, while that has not passed, the end
/// of the time to which the run is held has to be one.
pub proof fn law_lateness_can_be_told(status: TaskStatus, now: Moment)
    requires
        status@.current_run_started is Some && status@.out_of_date is Some ==> {
            let started = status@.current_run_started->0.nanos;
            let limit = nanos_of(status@.out_of_date->0 as int);
            &&& -377_705_023_201_000_000_000 <= started
            &&& started + nanos_of(300) <= 253_402_207_200_999_999_999
            &&& now@.nanos - started >= nanos_of(300) || started + limit
                <= 253_402_207_200_999_999_999
        },
    ensures
        call_requires(TaskStatus::out_of_date_by, (&status, &now)),
{
}

/// What is shown at a glance can be told of every error, of every task that has not completed a
/// run, of everything that is not in progress or held to no time, and of everything else that did
/// not begin too close to the end of time.
pub proof fn law_short_statuses_can_be_told<C: WatcherAppContext>(
    status: TaskStatus,
    app: C,
    label: TaskLabel,
    selected_label: Option<&TaskLabel>,
)
    requires
        status@.value is Failure || status@.value is NotYetRun || status@.current_run_started is None
            || status@.out_of_date is None || {
            let started = status@.current_run_started->0.nanos;
            &&& -377_705_023_201_000_000_000 <= started
            &&& started + nanos_of(300) <= 253_402_207_200_999_999_999
            &&& started + nanos_of(status@.out_of_date->0 as int) <= 253_402_207_200_999_999_999
        },
    ensures
        call_requires(TaskStatus::short::<C>, (&status, &app, &label, selected_label)),
{
}

/// A copy of a status, of a result or of an error stands for the same.
pub proof fn law_copies_stand_for_the_same(
    status: TaskStatus,
    status_copy: TaskStatus,
    value: TaskResultValue,
    value_copy: TaskResultValue,
    result: TaskResult,
    result_copy: TaskResult,
    error: TaskError,
    error_copy: TaskError,
    counts: TaskCounts,
)
    requires
        call_ensures(<TaskStatus as Clone>::clone, (&status,), status_copy),
        call_ensures(<TaskResultValue as Clone>::clone, (&value,), value_copy),
        call_ensures(<TaskResult as Clone>::clone, (&result,), result_copy),
        call_ensures(<TaskError as Clone>::clone, (&error,), error_copy),
        call_ensures(<TaskCounts as Default>::default, (), counts),
    ensures
        status_copy@ == status@,
        value_copy@ == value@,
        result_copy.value@ == result.value@,
        result_copy.updated@ == result.updated@,
        error_copy.value@ == error.value@,
        error_copy.updated@ == error.updated@,
        counts.successes == 0,
        counts.retries == 0,
        counts.errors == 0,
{
}

/// What is shown at a glance: an error is worth an alert unless it has expired or the task is
/// muted; a success or a report is shown as such until it is out of date, and is then worth an
/// alert only where it is very much so and the task is not muted.
pub proof fn law_short_statuses(
    status: TaskStatus,
    out_of_date: OutOfDateType,
    triggers_alert: bool,
    expired: bool,
    short: ShortStatus,
)
    requires
        call_ensures(TaskStatus::short_for, (&status, out_of_date, triggers_alert, expired), short),
    ensures
        short is NotYetRun <==> status@.value is NotYetRun,
        short is Error <==> status@.value is Failure && triggers_alert && !expired,
        short is ErrorNoAlert <==> status@.value is Failure && (!triggers_alert || expired),
        short is Success <==> status@.value is Success && out_of_date is Not,
        short is Info <==> status@.value is Info && out_of_date is Not,
        short is OutOfDate <==> (status@.value is Success || status@.value is Info)
            && out_of_date is Slightly && triggers_alert,
        short is OutOfDateError <==> (status@.value is Success || status@.value is Info)
            && out_of_date is Very && triggers_alert,
        short is OutOfDateNoAlert <==> (status@.value is Success || status@.value is Info)
            && !(out_of_date is Not) && !triggers_alert,
{
}

/// What is shown at a glance at a given moment: by the time that the run in progress has taken, and
/// by the time that has passed since the expiry was set.
pub proof fn law_short_statuses_at_a_moment(
    status: TaskStatus,
    now: Moment,
    elapsed: TimeSpan,
    triggers_alert: bool,
    short: ShortStatus,
)
    requires
        call_ensures(TaskStatus::short_at, (&status, &now, elapsed, triggers_alert), short),
    ensures
        ({
            let shown = status@.value is Success || status@.value is Info;
            let held = status@.current_run_started is Some && status@.out_of_date is Some;
            let passed = now@.nanos - status@.current_run_started->0.nanos;
            let very = held && passed >= nanos_of(300);
            let late = held && passed >= nanos_of(status@.out_of_date->0 as int);
            let expiry = status@.expire_last_result;
            let expired = expiry is Some && nanos_of(elapsed.secs as int) + elapsed.nanos
                >= nanos_of((expiry->0).0.secs as int) + (expiry->0).0.nanos;
            &&& short is NotYetRun <==> status@.value is NotYetRun
            &&& short is Error <==> status@.value is Failure && triggers_alert && !expired
            &&& short is ErrorNoAlert <==> status@.value is Failure && (!triggers_alert || expired)
            &&& short is Success <==> status@.value is Success && !very && !late
            &&& short is Info <==> status@.value is Info && !very && !late
            &&& short is OutOfDate <==> shown && !very && late && triggers_alert
            &&& short is OutOfDateError <==> shown && very && triggers_alert
            &&& short is OutOfDateNoAlert <==> shown && (very || late) && !triggers_alert
        }),
{
}

/// Whether `short` is rightly shown of a status, by the clock and the answer of the application: a
/// task that has not completed a run is shown as that; an error is worth an alert only where the
/// application may say so, and always where it must and there is no expiry; what is not in
/// progress, or held to no time, is never out of date; what is goes by the time that has passed.
pub open spec fn rightly_shown<C: WatcherAppContext>(
    status: StatusView,
    app: &C,
    label: &TaskLabel,
    selected_label: Option<&TaskLabel>,
    short: ShortStatus,
) -> bool {
    let yes = alert_answer(app, label, selected_label, true);
    let no = alert_answer(app, label, selected_label, false);
    let shown = status.value is Success || status.value is Info;
    let held = status.current_run_started is Some && status.out_of_date is Some;
    &&& short is NotYetRun <==> status.value is NotYetRun
    &&& short is Error || short is ErrorNoAlert <==> status.value is Failure
    &&& short is Success ==> status.value is Success
    &&& short is Info ==> status.value is Info
    &&& !yes ==> !(short is Error) && !(short is OutOfDate) && !(short is OutOfDateError)
    &&& !no ==> !(short is OutOfDateNoAlert)
    &&& status.value is Failure && !no && status.expire_last_result is None
        ==> short is Error
    &&& status.value is Failure && status.expire_last_result is Some
        && (status.expire_last_result->0).0.secs == 0
        && (status.expire_last_result->0).0.nanos == 0 ==> short is ErrorNoAlert
    &&& status.value is Success && !held ==> short is Success
    &&& status.value is Info && !held ==> short is Info
    &&& shown && status.out_of_date is Some && status.out_of_date->0 >= 300 ==> !(
    short is OutOfDate)
    &&& shown && held ==> exists|now: Moment|
        {
            let passed = now@.nanos - status.current_run_started->0.nanos;
            let limit = nanos_of(status.out_of_date->0 as int);
            &&& #[trigger] now_reads(now)
            &&& short is Success || short is Info <==> passed < limit && passed < nanos_of(
                300,
            )
            &&& short is OutOfDate ==> limit <= passed < nanos_of(300)
            &&& short is OutOfDateError ==> passed >= nanos_of(300)
        }
    &&& status.value is Failure && !no && status.expire_last_result is Some ==> exists|
        elapsed: TimeSpan,
    |
        {
            let span = (status.expire_last_result->0).0;
            &&& #[trigger] elapsed_reads((status.expire_last_result->0).1, elapsed)
            &&& short is ErrorNoAlert <==> nanos_of(elapsed.secs as int) + elapsed.nanos
                >= nanos_of(span.secs as int) + span.nanos
        }
}

/// What may be shown is rightly shown.
pub(crate) proof fn lemma_rightly_shown<C: WatcherAppContext>(
    status: StatusView,
    app: &C,
    label: &TaskLabel,
    selected_label: Option<&TaskLabel>,
    short: ShortStatus,
)
    requires
        status.may_show(app, label, selected_label, short),
    ensures
        rightly_shown(status, app, label, selected_label, short),
{
}

/// By the clock and the answer of the application, what is shown at a glance is rightly shown.
pub proof fn law_short_statuses_by_the_clock<C: WatcherAppContext>(
    status: TaskStatus,
    app: C,
    label: TaskLabel,
    selected_label: Option<&TaskLabel>,
    short: ShortStatus,
)
    requires
        call_ensures(TaskStatus::short::<C>, (&status, &app, &label, selected_label), short),
    ensures
        rightly_shown(status@, &app, &label, selected_label, short),
{
    lemma_rightly_shown(status@, &app, &label, selected_label, short);
}

/// Statuses are listed in this order: errors, then what is out of date and worth an alert, what is
/// slightly out of date, errors without an alert, what is out of date without an alert, successes,
/// tasks that have not completed a run, and reports.
pub proof fn law_places_in_the_listing(short: ShortStatus, place: u8)
    requires
        call_ensures(ShortStatus::place, (short,), place),
    ensures
        place == 0 <==> short is Error,
        place == 1 <==> short is OutOfDateError,
        place == 2 <==> short is OutOfDate,
        place == 3 <==> short is ErrorNoAlert,
        place == 4 <==> short is OutOfDateNoAlert,
        place == 5 <==> short is Success,
        place == 6 <==> short is NotYetRun,
        place == 7 <==> short is Info,
        place == short.rank(),
{
}

/// The words, the style and the alert of each short status.
pub proof fn law_short_statuses_in_words(
    short: ShortStatus,
    words: &'static str,
    class: &'static str,
    alert: bool,
)
    requires
        call_ensures(ShortStatus::as_str, (short,), words),
        call_ensures(ShortStatus::css_class, (short,), class),
        call_ensures(ShortStatus::alert, (&short,), alert),
    ensures
        words@ == short.words(),
        alert <==> short is Error || short is OutOfDateError,
        short is Error ==> words@ == "ERROR"@ && class@ == "link-danger"@,
        short is OutOfDateError ==> words@ == "ERROR DUE TO OUT OF DATE"@ && class@
            == "link-danger"@,
        short is OutOfDate ==> words@ == "OUT OF DATE"@ && class@ == "text-red-400"@,
        short is ErrorNoAlert ==> words@ == "ERROR (no alert)"@ && class@ == "text-red-400"@,
        short is OutOfDateNoAlert ==> words@ == "OUT OF DATE (no alert)"@ && class@
            == "text-red-300"@,
        short is Success ==> words@ == "SUCCESS"@ && class@ == "link-success"@,
        short is NotYetRun ==> words@ == "NOT YET RUN"@ && class@ == "link-primary"@,
        short is Info ==> words@ == "RUNNING"@ && class@ == "link-primary"@,
{
}

} // verus!
