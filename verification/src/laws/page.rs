//! What the status page lists and how it is written.

use super::clock::rounds_to;
use super::status::{lemma_rightly_shown, rightly_shown};
use super::text::lemma_nat_text_is_digits;
use crate::clock::{now_reads, Moment};
use crate::context::WatcherAppContext;
use crate::label::TaskLabel;
use crate::label_map::LabelMap;
use crate::page::{
    any_alert, page_status, page_text, statuses, statuses_text, to_template, uptime, with_unit,
    RenderedStatus, ResponseBuilder, StatusTemplate, TextResponse,
};
use crate::status::{ResultView, TaskStatus};
use crate::text::{int_text, lemma_text_less_order, nat_text, text_less};
use vstd::arithmetic::div_mod::lemma_fundamental_div_mod_converse;
use vstd::prelude::*;

verus! {

/// A number and its unit, where the number is not zero.
pub open spec fn part(number: int, unit: Seq<char>) -> Seq<Seq<char>> {
    if number > 0 {
        seq![nat_text(number as nat) + unit]
    } else {
        Seq::empty()
    }
}

/// Texts, with a space between each two.
pub open spec fn spaced(parts: Seq<Seq<char>>) -> Seq<char>
    decreases parts.len(),
{
    if parts.len() == 0 {
        Seq::empty()
    } else if parts.len() == 1 {
        parts[0]
    } else {
        spaced(parts.drop_last()).push(' ') + parts.last()
    }
}

/// Whether no text is empty.
spec fn none_empty(parts: Seq<Seq<char>>) -> bool {
    forall|i: int| 0 <= i < parts.len() ==> (#[trigger] parts[i]).len() > 0
}

/// One more unit is one more part.
proof fn lemma_part(parts: Seq<Seq<char>>, number: int, unit: Seq<char>)
    requires
        none_empty(parts),
    ensures
        none_empty(parts + part(number, unit)),
        with_unit(spaced(parts), number, unit) == spaced(parts + part(number, unit)),
        parts.len() > 0 ==> spaced(parts).len() > 0,
{
    reveal_strlit(" ");
    lemma_nat_text_is_digits(number as nat);
    let whole = parts + part(number, unit);
    if parts.len() > 0 {
        assert(parts[0].len() > 0);
    }
    if number > 0 {
        let text = nat_text(number as nat) + unit;
        assert(whole =~= parts.push(text));
        assert(whole.drop_last() =~= parts);
        if parts.len() == 0 {
            assert(whole[0] == text);
        } else {
            assert(parts.len() > 1 ==> spaced(parts).len() > 0);
            assert(spaced(parts) + " "@ + text =~= spaced(parts).push(' ') + text);
        }
    } else {
        assert(whole =~= parts);
    }
}

/// The units of a time, taken apart.
proof fn lemma_taken_apart(days: int, hours: int, minutes: int, seconds: int, secs: int)
    requires
        days >= 0,
        0 <= hours < 24,
        0 <= minutes < 60,
        0 <= seconds < 60,
        secs == 86400 * days + 3600 * hours + 60 * minutes + seconds,
    ensures
        secs / 86400 == days,
        secs % 86400 / 3600 == hours,
        secs % 3600 / 60 == minutes,
        secs % 60 == seconds,
{
    let within_hour = 60 * minutes + seconds;
    let within_day = 3600 * hours + within_hour;
    lemma_fundamental_div_mod_converse(secs, 86400, days, within_day);
    lemma_fundamental_div_mod_converse(within_day, 3600, hours, within_hour);
    lemma_fundamental_div_mod_converse(secs, 3600, 24 * days + hours, within_hour);
    lemma_fundamental_div_mod_converse(within_hour, 60, minutes, seconds);
    lemma_fundamental_div_mod_converse(
        secs,
        60,
        1440 * days + 60 * hours + minutes,
        seconds,
    );
}

/// A time up is written as its days, hours, minutes and seconds, without those that are zero, and
/// as a word where it is less than a second or negative.
pub proof fn law_uptime_is_written_in_units(
    days: int,
    hours: int,
    minutes: int,
    seconds: int,
    secs: i64,
    text: String,
)
    requires
        call_ensures(uptime, (secs,), text),
        days >= 0,
        0 <= hours < 24,
        0 <= minutes < 60,
        0 <= seconds < 60,
        secs >= 0 ==> secs == 86400 * days + 3600 * hours + 60 * minutes + seconds,
    ensures
        secs < 0 ==> text@ == "In the future"@,
        secs == 0 ==> text@ == "just now"@,
        secs > 0 ==> text@ == spaced(
            part(days, "d"@) + part(hours, "h"@) + part(minutes, "m"@) + part(seconds, "s"@),
        ),
{
    if secs > 0 {
        lemma_taken_apart(days, hours, minutes, seconds, secs as int);
        let none: Seq<Seq<char>> = Seq::empty();
        lemma_part(none, days, "d"@);
        assert(none + part(days, "d"@) =~= part(days, "d"@));
        lemma_part(part(days, "d"@), hours, "h"@);
        lemma_part(part(days, "d"@) + part(hours, "h"@), minutes, "m"@);
        lemma_part(
            part(days, "d"@) + part(hours, "h"@) + part(minutes, "m"@),
            seconds,
            "s"@,
        );
    }
}

/// An application has been up for the time between its start and now, in whole seconds.
pub proof fn law_an_application_is_up_since_its_start(
    template: StatusTemplate,
    text: String,
    secs: i64,
    words: String,
)
    requires
        call_ensures(StatusTemplate::live_since_human, (&template,), text),
        call_ensures(uptime, (secs,), words),
        rounds_to(template.now@.nanos - template.live_since@.nanos, secs as int),
    ensures
        text@ == words@,
{
}

/// The page lists each task that is looked at once, and no other: all tasks, or the selected one.
/// It lists them with their status, with what is rightly shown of it, and in order: by what is
/// shown, then by label.
pub open spec fn rightly_listed<C: WatcherAppContext>(
    app: &C,
    tasks: Map<Seq<char>, TaskStatus>,
    selected_label: Option<&TaskLabel>,
    listing: Seq<RenderedStatus>,
) -> bool {
    &&& forall|i: int|
        0 <= i < listing.len() ==> {
            let rendered = #[trigger] listing[i];
            &&& tasks.contains_key(rendered.label@)
            &&& rendered.status == tasks[rendered.label@]
            &&& selected_label is Some ==> rendered.label@ == selected_label->0@
            &&& rightly_shown(
                rendered.status@,
                app,
                &rendered.label,
                selected_label,
                rendered.short,
            )
        }
    &&& forall|label: Seq<char>| #[trigger]
        tasks.contains_key(label) && (selected_label is Some ==> label == selected_label->0@)
            ==> exists|i: int| 0 <= i < listing.len() && (#[trigger] listing[i]).label@ == label
    &&& forall|i: int, j: int|
        0 <= i < j < listing.len() ==> {
            let a = #[trigger] listing[i];
            let b = #[trigger] listing[j];
            &&& a.label@ != b.label@
            &&& a.short.rank() < b.short.rank() || (a.short.rank() == b.short.rank() && text_less(
                a.label@,
                b.label@,
            ))
        }
}

/// What the page may list is rightly listed.
proof fn lemma_rightly_listed<C: WatcherAppContext>(
    app: &C,
    tasks: Map<Seq<char>, TaskStatus>,
    selected_label: Option<&TaskLabel>,
    listing: Seq<RenderedStatus>,
)
    requires
        crate::page::may_list(app, tasks, selected_label, listing),
    ensures
        rightly_listed(app, tasks, selected_label, listing),
{
    assert forall|i: int| 0 <= i < listing.len() implies {
        let rendered = #[trigger] listing[i];
        &&& tasks.contains_key(rendered.label@)
        &&& rendered.status == tasks[rendered.label@]
        &&& selected_label is Some ==> rendered.label@ == selected_label->0@
        &&& rightly_shown(rendered.status@, app, &rendered.label, selected_label, rendered.short)
    } by {
        let rendered = listing[i];
        assert(crate::page::may_render(app, tasks, selected_label, rendered));
        assert(crate::page::lists_label(listing, rendered.label@));
        lemma_rightly_shown(
            rendered.status@,
            app,
            &rendered.label,
            selected_label,
            rendered.short,
        );
    }
    assert forall|label: Seq<char>| #[trigger]
        tasks.contains_key(label) && (selected_label is Some ==> label
            == selected_label->0@) implies exists|i: int|
        0 <= i < listing.len() && (#[trigger] listing[i]).label@ == label by {
        assert(crate::page::lists_label(listing, label));
    }
    assert forall|i: int, j: int| 0 <= i < j < listing.len() implies {
        let a = #[trigger] listing[i];
        let b = #[trigger] listing[j];
        &&& a.label@ != b.label@
        &&& a.short.rank() < b.short.rank() || (a.short.rank() == b.short.rank() && text_less(
            a.label@,
            b.label@,
        ))
    } by {
        let a = listing[i];
        let b = listing[j];
        assert(a.label@ != b.label@);
        assert(!crate::page::listed_before(b, a));
        lemma_text_less_order(a.label@, b.label@, a.label@);
    }
}

/// The page can be listed and shown wherever what is shown at a glance can be told of each task that
/// is looked at.
pub proof fn law_the_page_can_be_shown<C: WatcherAppContext>(
    app: C,
    tasks: LabelMap<TaskStatus>,
    selected_label: Option<&TaskLabel>,
    live_since: Moment,
)
    requires
        forall|label: Seq<char>| #[trigger]
            tasks@.contains_key(label) && (selected_label is Some ==> label
                == selected_label->0@) ==> call_ensures(
                TaskStatus::is_tellable,
                (&tasks@[label],),
                true,
            ),
    ensures
        call_requires(statuses::<C>, (&app, tasks, selected_label)),
        call_requires(to_template::<C>, (&app, tasks, selected_label, live_since)),
{
    assert forall|label: Seq<char>| #[trigger]
        tasks@.contains_key(label) && crate::label_map::is_selected(
            label,
            crate::label_map::label_view(selected_label),
        ) implies tasks@[label]@.can_be_told() by {
        assert(call_ensures(TaskStatus::is_tellable, (&tasks@[label],), true));
    }
}

/// A copy of a listed status is the same line with the same status.
pub proof fn law_copies_of_lines_are_the_same(rendered: RenderedStatus, copy: RenderedStatus)
    requires
        call_ensures(<RenderedStatus as Clone>::clone, (&rendered,), copy),
    ensures
        copy.label@ == rendered.label@,
        copy.status@ == rendered.status@,
        copy.short == rendered.short,
{
}

/// What the page lists is rightly listed.
pub proof fn law_the_page_lists_what_is_looked_at<C: WatcherAppContext>(
    app: C,
    tasks: LabelMap<TaskStatus>,
    selected_label: Option<&TaskLabel>,
    listing: Vec<RenderedStatus>,
)
    requires
        call_ensures(statuses::<C>, (&app, tasks, selected_label), listing),
    ensures
        rightly_listed(&app, tasks@, selected_label, listing@),
{
    lemma_rightly_listed(&app, tasks@, selected_label, listing@);
}

/// A listing is worth an alert if and only if one of its statuses is an error, or out of date like
/// one; the page is then an internal server error, and is well otherwise.
pub proof fn law_one_error_makes_the_page_an_error(
    listing: Vec<RenderedStatus>,
    alert: bool,
    status: u16,
)
    requires
        call_ensures(any_alert, (&listing,), alert),
        call_ensures(page_status, (alert,), status),
    ensures
        alert <==> exists|i: int|
            0 <= i < listing@.len() && ((#[trigger] listing@[i]).short is Error
                || listing@[i].short is OutOfDateError),
        alert ==> status == 500,
        !alert ==> status == 200,
{
    if alert {
        let i = choose|i: int| 0 <= i < listing@.len() && (#[trigger] listing@[i]).short.alerts();
        assert(listing@[i].short is Error || listing@[i].short is OutOfDateError);
    }
}

/// The text of a result.
pub open spec fn result_text(value: ResultView) -> Seq<char> {
    match value {
        ResultView::Success(message) => message,
        ResultView::Failure(error) => error,
        ResultView::NotYetRun => "Task has not yet completed a single run"@,
        ResultView::Info(message) => message,
    }
}

/// What the plain text page says of a task, whatever is on show: its label and its short status,
/// since when a run is in progress, how long the last one took, the result in full and, where the
/// task is tried again, the error of the last attempt in full.
pub proof fn law_a_task_on_the_text_page(builder: &mut ResponseBuilder, rendered: RenderedStatus)
    requires
        call_ensures(ResponseBuilder::add, (builder, &rendered), ()),
    ensures
        ({
            let status = rendered.status@;
            let head = "# "@ + rendered.label@ + ". Status: "@ + rendered.short.words() + "\n"@;
            let running = if status.current_run_started is Some {
                "Currently running, started at "@ + status.current_run_started->0.text + "\n"@
            } else {
                Seq::empty()
            };
            let took = if status.last_run_seconds is Some {
                "Last run took "@ + int_text(status.last_run_seconds->0 as int) + " seconds\n"@
            } else {
                Seq::empty()
            };
            let retrying = if status.last_retry_error is Some {
                "\nCurrently retrying, last attempt failed with:\n\n"@
                    + status.last_retry_error->0.value + "\n\n"@
            } else {
                Seq::empty()
            };
            final(builder).text() == old(builder).text() + (head + running + took + "\n"@
                + result_text(status.value) + "\n\n"@ + retrying + "\n"@)
        }),
        final(builder).tells_error() == old(builder).tells_error(),
{
}

/// Whatever is on show, the text for a task that is tried again is that for the same task without a
/// retry, with the lines that tell the error of the last attempt, in full, before its end.
pub proof fn law_retries_are_told_whatever_is_on_show(
    builder: &mut ResponseBuilder,
    other: &mut ResponseBuilder,
    retried: RenderedStatus,
    settled: RenderedStatus,
)
    requires
        call_ensures(ResponseBuilder::add, (builder, &retried), ()),
        call_ensures(ResponseBuilder::add, (other, &settled), ()),
        builder.text() == other.text(),
        retried.label@ == settled.label@,
        retried.short == settled.short,
        retried.status@.value == settled.status@.value,
        retried.status@.current_run_started == settled.status@.current_run_started,
        retried.status@.last_run_seconds == settled.status@.last_run_seconds,
        retried.status@.last_retry_error is Some,
        settled.status@.last_retry_error is None,
    ensures
        final(builder).text() == final(other).text().drop_last()
            + "\nCurrently retrying, last attempt failed with:\n\n"@
            + retried.status@.last_retry_error->0.value + "\n\n\n"@,
{
    reveal_strlit("\n");
    reveal_strlit("\n\n");
    reveal_strlit("\n\n\n");
    law_a_task_on_the_text_page(builder, retried);
    law_a_task_on_the_text_page(other, settled);
    assert(final(builder).text() =~= final(other).text().drop_last()
        + "\nCurrently retrying, last attempt failed with:\n\n"@
        + retried.status@.last_retry_error->0.value + "\n\n\n"@);
}

/// A page in the making starts empty, and the page is what was written, well unless it is to tell
/// of an error.
pub proof fn law_pages_are_what_was_written(
    blank: ResponseBuilder,
    builder: ResponseBuilder,
    response: TextResponse,
)
    requires
        call_ensures(ResponseBuilder::new, (), blank),
        call_ensures(ResponseBuilder::into_response, (builder,), response),
    ensures
        blank.text() == Seq::<char>::empty(),
        !blank.tells_error(),
        response.body@ == builder.text(),
        builder.tells_error() ==> response.status == 500,
        !builder.tells_error() ==> response.status == 200,
{
}

/// The plain text page says of one task what is added for it, of no task nothing, and of two
/// listings, one behind the other, what it says of each; it is an internal server error if and only
/// if one of its statuses is an error, or out of date like one.
pub proof fn law_the_text_page(
    whole: Vec<RenderedStatus>,
    front: Vec<RenderedStatus>,
    back: Vec<RenderedStatus>,
    page: TextResponse,
    front_page: TextResponse,
    back_page: TextResponse,
    builder: &mut ResponseBuilder,
)
    requires
        call_ensures(statuses_text, (&whole,), page),
        call_ensures(statuses_text, (&front,), front_page),
        call_ensures(statuses_text, (&back,), back_page),
        whole@ == front@ + back@,
        back@.len() == 1,
        call_ensures(ResponseBuilder::add, (builder, &back@[0]), ()),
    ensures
        page.body@ == front_page.body@ + back_page.body@,
        front@.len() == 0 ==> front_page.body@ == Seq::<char>::empty(),
        final(builder).text() == old(builder).text() + back_page.body@,
        page.status == 500 <==> exists|i: int|
            0 <= i < whole@.len() && ((#[trigger] whole@[i]).short is Error
                || whole@[i].short is OutOfDateError),
        page.status == 500 || page.status == 200,
{
    super::law_page_text_is_written_task_by_task(front@, back@);
    reveal_with_fuel(page_text, 2);
    assert(back@.drop_last() =~= Seq::<RenderedStatus>::empty());
    assert(back_page.body@ =~= crate::page::task_lines(
        back@[0].label@,
        back@[0].short,
        back@[0].status@,
    ));
    if crate::page::any_alerts(whole@) {
        let i = choose|i: int| 0 <= i < whole@.len() && (#[trigger] whole@[i]).short.alerts();
        assert(whole@[i].short is Error || whole@[i].short is OutOfDateError);
    }
}

/// The page holds what it was given: the statuses, the title and the two moments, and the
/// environment and the version in full, or that they are not known. It tells of an alert if and
/// only if one of its statuses is an error, or out of date like one, and is then an internal server
/// error.
pub proof fn law_the_page_holds_what_it_was_given(
    listing: Vec<RenderedStatus>,
    environment: Option<String>,
    build_version: Option<String>,
    title: String,
    live_since: Moment,
    now: Moment,
    template: StatusTemplate,
    status: u16,
)
    requires
        call_ensures(
            StatusTemplate::new,
            (listing, environment, build_version, title, live_since, now),
            template,
        ),
        call_ensures(StatusTemplate::status, (&template,), status),
    ensures
        template.statuses@ == listing@,
        template.title@ == title@,
        template.live_since@ == live_since@,
        template.now@ == now@,
        environment is Some ==> template.env@ == environment->0@,
        environment is None ==> template.env@ == "Unknown"@,
        build_version is Some ==> template.build_version@ == build_version->0@,
        build_version is None ==> template.build_version@ == "Unknown"@,
        template.alert <==> exists|i: int|
            0 <= i < listing@.len() && ((#[trigger] listing@[i]).short is Error
                || listing@[i].short is OutOfDateError),
        template.alert ==> status == 500,
        !template.alert ==> status == 200,
{
    if template.alert {
        let i = choose|i: int| 0 <= i < listing@.len() && (#[trigger] listing@[i]).short.alerts();
        assert(listing@[i].short is Error || listing@[i].short is OutOfDateError);
    }
}

/// The page of an application lists its tasks rightly, as of a moment that the clock has given, and
/// holds what the application tells of itself.
pub proof fn law_the_page_of_an_application<C: WatcherAppContext>(
    app: C,
    tasks: LabelMap<TaskStatus>,
    selected_label: Option<&TaskLabel>,
    live_since: Moment,
    template: StatusTemplate,
)
    requires
        call_ensures(to_template::<C>, (&app, tasks, selected_label, live_since), template),
    ensures
        rightly_listed(&app, tasks@, selected_label, template.statuses@),
        template.alert <==> exists|i: int|
            0 <= i < template.statuses@.len() && ((#[trigger] template.statuses@[i]).short is Error
                || template.statuses@[i].short is OutOfDateError),
        template.live_since@ == live_since@,
        now_reads(template.now),
        call_ensures(C::title, (&app,), template.title),
        exists|env: Option<String>|
            {
                &&& #[trigger] call_ensures(C::environment, (&app,), env)
                &&& env is Some ==> template.env@ == env->0@
                &&& env is None ==> template.env@ == "Unknown"@
            },
        exists|version: Option<String>|
            {
                &&& #[trigger] call_ensures(C::build_version, (&app,), version)
                &&& version is Some ==> template.build_version@ == version->0@
                &&& version is None ==> template.build_version@ == "Unknown"@
            },
{
    lemma_rightly_listed(&app, tasks@, selected_label, template.statuses@);
    if template.alert {
        let i = choose|i: int|
            0 <= i < template.statuses@.len() && (#[trigger] template.statuses@[i]).short.alerts();
        assert(template.statuses@[i].short is Error || template.statuses@[i].short
            is OutOfDateError);
    }
}

} // verus!
