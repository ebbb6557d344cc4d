//! The status page: which statuses it lists, in which order, and how it is written out.

use crate::clock::{now_reads, whole_seconds, Moment, MomentView};
use crate::context::WatcherAppContext;
use crate::label::TaskLabel;
use crate::label_map::{is_selected, label_view, LabelMap};
use crate::status::{ErrorView, ShortStatus, StatusView, TaskStatus};
use crate::text::{int_text, lemma_text_less_order, nat_text, push_i64, push_u64, str_less, text_less};
use std::borrow::Cow;
use vstd::arithmetic::div_mod::{lemma_fundamental_div_mod, lemma_fundamental_div_mod_converse};
use vstd::prelude::*;

verus! {

/// `text` followed by a number and its unit, set off by a space, where the number is not zero.
pub open spec fn with_unit(text: Seq<char>, number: int, unit: Seq<char>) -> Seq<char> {
    if number <= 0 {
        text
    } else if text.len() == 0 {
        nat_text(number as nat) + unit
    } else {
        text + " "@ + (nat_text(number as nat) + unit)
    }
}

/// A length of time in days, hours, minutes and seconds, without those that are zero.
pub open spec fn uptime_text(secs: int) -> Seq<char> {
    if secs < 0 {
        "In the future"@
    } else if secs == 0 {
        "just now"@
    } else {
        let days = with_unit(Seq::empty(), secs / 86400, "d"@);
        let hours = with_unit(days, secs % 86400 / 3600, "h"@);
        let minutes = with_unit(hours, secs % 3600 / 60, "m"@);
        with_unit(minutes, secs % 60, "s"@)
    }
}

/// Appends a number and its unit, set off by a space, where the number is not zero.
fn push_unit(text: &mut String, number: i64, unit: &str)
    ensures
        final(text)@ == with_unit(old(text)@, number as int, unit@),
{
    if number > 0 {
        let ghost before = text@;
        if !text.as_str().is_empty() {
            text.append(" ");
        }
        let ghost spaced = text@;
        push_u64(text, number as u64);
        text.append(unit);
        proof {
            assert(spaced + nat_text(number as nat) + unit@ =~= spaced + (nat_text(number as nat)
                + unit@));
            assert(Seq::<char>::empty() + (nat_text(number as nat) + unit@) =~= nat_text(
                number as nat,
            ) + unit@);
            if before.len() == 0 {
                assert(before =~= Seq::<char>::empty());
            }
        }
    }
}

/// Minutes, hours and days, one out of the other.
proof fn lemma_units(secs: int)
    requires
        secs >= 0,
    ensures
        secs / 60 / 60 / 24 == secs / 86400,
        secs / 60 / 60 % 24 == secs % 86400 / 3600,
        secs / 60 % 60 == secs % 3600 / 60,
{
    let m = secs / 60;
    let h = m / 60;
    let within_hour = 60 * (m % 60) + secs % 60;
    let within_day = 3600 * (h % 24) + within_hour;
    lemma_fundamental_div_mod(secs, 60);
    lemma_fundamental_div_mod(m, 60);
    lemma_fundamental_div_mod(h, 24);
    lemma_fundamental_div_mod_converse(secs, 3600, h, within_hour);
    lemma_fundamental_div_mod_converse(within_hour, 60, m % 60, secs % 60);
    lemma_fundamental_div_mod_converse(secs, 86400, h / 24, within_day);
    lemma_fundamental_div_mod_converse(within_day, 3600, h % 24, within_hour);
}

/// A length of time in days, hours, minutes and seconds.
pub fn uptime(secs: i64) -> (text: String)
    ensures
        text@ == uptime_text(secs as int),
{
    if secs < 0 {
        return String::from("In the future");
    }
    if secs == 0 {
        return String::from("just now");
    }
    let minutes: i64 = secs / 60;
    let secs_rem: i64 = secs % 60;
    let hours: i64 = minutes / 60;
    let minutes_rem: i64 = minutes % 60;
    let days: i64 = hours / 24;
    let hours_rem: i64 = hours % 24;
    proof {
        lemma_units(secs as int);
    }
    let mut text = String::new();
    push_unit(&mut text, days, "d");
    push_unit(&mut text, hours_rem, "h");
    push_unit(&mut text, minutes_rem, "m");
    push_unit(&mut text, secs_rem, "s");
    text
}

/// A status as the page lists it.
#[derive(Debug)]
pub struct RenderedStatus {
    pub label: TaskLabel,
    pub status: TaskStatus,
    pub short: ShortStatus,
}

impl Clone for RenderedStatus {
    fn clone(&self) -> (rendered: Self)
        ensures
            rendered.label@ == self.label@,
            rendered.status@ == self.status@,
            rendered.short == self.short,
    {
        RenderedStatus {
            label: self.label.clone(),
            status: self.status.clone(),
            short: self.short,
        }
    }
}

/// Whether `a` is listed before `b`: by what is shown at a glance, then by label.
pub open spec fn listed_before(a: RenderedStatus, b: RenderedStatus) -> bool {
    a.short.rank() < b.short.rank() || (a.short.rank() == b.short.rank() && text_less(
        a.label@,
        b.label@,
    ))
}

/// Whether statuses stand in the order in which they are listed.
pub open spec fn in_listing_order(statuses: Seq<RenderedStatus>) -> bool {
    forall|i: int, j: int|
        0 <= i < j < statuses.len() ==> !listed_before(#[trigger] statuses[j], #[trigger] statuses[i])
}

/// Whether `a` is listed before `b`.
fn comes_before(a: &RenderedStatus, b: &RenderedStatus) -> (before: bool)
    ensures
        before == listed_before(*a, *b),
{
    let place_a = a.short.place();
    let place_b = b.short.place();
    place_a < place_b || (place_a == place_b && str_less(a.label.ident(), b.label.ident()))
}

/// Puts one more status at its place.
fn insert_in_order(statuses: &mut Vec<RenderedStatus>, rendered: RenderedStatus) -> (at: usize)
    requires
        in_listing_order(old(statuses)@),
    ensures
        in_listing_order(final(statuses)@),
        at <= old(statuses)@.len(),
        final(statuses)@ == old(statuses)@.insert(at as int, rendered),
{
    let ghost before = statuses@;
    let mut at: usize = 0;
    while at < statuses.len() && !comes_before(&rendered, &statuses[at])
        invariant
            statuses@ == before,
            at <= before.len(),
            forall|i: int| 0 <= i < at ==> !listed_before(rendered, #[trigger] before[i]),
        decreases before.len() - at,
    {
        at = at + 1;
    }
    statuses.insert(at, rendered);
    proof {
        let after = statuses@;
        assert forall|i: int, j: int| 0 <= i < j < after.len() implies !listed_before(
            #[trigger] after[j],
            #[trigger] after[i],
        ) by {
            if j < at {
                assert(!listed_before(before[j], before[i]));
            } else if i > at {
                assert(!listed_before(before[j - 1], before[i - 1]));
            } else if j == at {
                assert(!listed_before(rendered, before[i]));
            } else if i == at {
                // Everything behind `at` follows what stood there, which `rendered` precedes.
                if j - 1 > at {
                    assert(!listed_before(before[j - 1], before[at as int]));
                }
                lemma_text_less_order(
                    rendered.label@,
                    before[at as int].label@,
                    before[j - 1].label@,
                );
                lemma_text_less_order(
                    rendered.label@,
                    before[j - 1].label@,
                    before[at as int].label@,
                );
                lemma_text_less_order(
                    before[j - 1].label@,
                    rendered.label@,
                    before[at as int].label@,
                );
            } else {
                assert(!listed_before(before[j - 1], before[i]));
            }
        }
    }
    at
}

/// Whether a listing holds a status with the given label.
pub open spec fn lists_label(listing: Seq<RenderedStatus>, label: Seq<char>) -> bool {
    exists|i: int| 0 <= i < listing.len() && (#[trigger] listing[i]).label@ == label
}

/// Whether no label is listed twice.
pub open spec fn labels_differ(listing: Seq<RenderedStatus>) -> bool {
    forall|i: int, j: int|
        0 <= i < j < listing.len() ==> (#[trigger] listing[i]).label@ != (
        #[trigger] listing[j]).label@
}

/// Whether `rendered` is the status of one of the tasks `tasks`, with what may be shown of it at a
/// glance, when `selected_label` is the only task that is looked at.
pub open spec fn may_render<C: WatcherAppContext>(
    app: &C,
    tasks: Map<Seq<char>, TaskStatus>,
    selected_label: Option<&TaskLabel>,
    rendered: RenderedStatus,
) -> bool {
    &&& tasks.contains_key(rendered.label@)
    &&& rendered.status == tasks[rendered.label@]
    &&& rendered.status@.may_show(app, &rendered.label, selected_label, rendered.short)
}

/// Whether the page may list `listing` for the tasks `tasks`, when `selected_label` is the only
/// task that is looked at: it lists each task that is looked at once, with what may be shown of
/// it, in order.
pub open spec fn may_list<C: WatcherAppContext>(
    app: &C,
    tasks: Map<Seq<char>, TaskStatus>,
    selected_label: Option<&TaskLabel>,
    listing: Seq<RenderedStatus>,
) -> bool {
    &&& in_listing_order(listing)
    &&& labels_differ(listing)
    &&& forall|i: int|
        0 <= i < listing.len() ==> may_render(app, tasks, selected_label, #[trigger] listing[i])
    &&& forall|label: Seq<char>| #[trigger]
        lists_label(listing, label) <==> tasks.contains_key(label) && is_selected(
            label,
            label_view(selected_label),
        )
}

/// Whether `label` stands in `entries` at `from` or behind it.
spec fn stands_from(entries: Seq<(TaskLabel, TaskStatus)>, from: int, label: Seq<char>) -> bool {
    exists|k: int| from <= k < entries.len() && (#[trigger] entries[k]).0@ == label
}

/// One more entry adds its label.
proof fn lemma_stands_from(entries: Seq<(TaskLabel, TaskStatus)>, from: int, label: Seq<char>)
    requires
        0 <= from < entries.len(),
    ensures
        stands_from(entries, from, label) <==> stands_from(entries, from + 1, label) || label
            == entries[from].0@,
{
    if stands_from(entries, from, label) {
        let k = choose|k: int| from <= k < entries.len() && (#[trigger] entries[k]).0@ == label;
        if k > from {
            assert(entries[k].0@ == label);
        }
    }
    if stands_from(entries, from + 1, label) {
        let k = choose|k: int| from + 1 <= k < entries.len() && (#[trigger] entries[k]).0@ == label;
        assert(entries[k].0@ == label);
    }
    if label == entries[from].0@ {
        assert(entries[from].0@ == label);
    }
}

/// One more status with a new label adds that label.
proof fn lemma_insert_lists(listing: Seq<RenderedStatus>, at: int, rendered: RenderedStatus)
    requires
        0 <= at <= listing.len(),
        labels_differ(listing),
        !lists_label(listing, rendered.label@),
    ensures
        labels_differ(listing.insert(at, rendered)),
        forall|label: Seq<char>| #[trigger]
            lists_label(listing.insert(at, rendered), label) <==> lists_label(listing, label)
                || label == rendered.label@,
        forall|i: int|
            0 <= i < listing.len() + 1 ==> (#[trigger] listing.insert(at, rendered)[i]) == rendered
                || exists|j: int|
                0 <= j < listing.len() && listing.insert(at, rendered)[i] == #[trigger] listing[j],
{
    let after = listing.insert(at, rendered);
    assert forall|i: int| 0 <= i < after.len() implies (#[trigger] after[i]) == rendered || exists|
        j: int,
    |
        0 <= j < listing.len() && after[i] == #[trigger] listing[j] by {
        if i < at {
            assert(after[i] == listing[i]);
        } else if i > at {
            assert(after[i] == listing[i - 1]);
        }
    }
    assert forall|label: Seq<char>| #[trigger]
        lists_label(after, label) <==> lists_label(listing, label) || label
            == rendered.label@ by {
        if lists_label(listing, label) {
            let j = choose|j: int| 0 <= j < listing.len() && (#[trigger] listing[j]).label@ == label;
            if j < at {
                assert(after[j].label@ == label);
            } else {
                assert(after[j + 1].label@ == label);
            }
        }
        if label == rendered.label@ {
            assert(after[at].label@ == label);
        }
        if lists_label(after, label) {
            let i = choose|i: int| 0 <= i < after.len() && (#[trigger] after[i]).label@ == label;
            if i < at {
                assert(listing[i].label@ == label);
            } else if i > at {
                assert(listing[i - 1].label@ == label);
            }
        }
    }
    assert forall|i: int, j: int| 0 <= i < j < after.len() implies (#[trigger] after[i]).label@ != (
    #[trigger] after[j]).label@ by {
        if i < at && j == at {
            assert(listing[i].label@ != rendered.label@);
        } else if i == at {
            assert(listing[j - 1].label@ != rendered.label@);
        } else {
            let p = if i > at {
                i - 1
            } else {
                i
            };
            let q = if j > at {
                j - 1
            } else {
                j
            };
            assert(listing[p].label@ != listing[q].label@);
        }
    }
}

/// The statuses that the page lists, when `selected_label` is the only task that is looked at.
pub fn statuses<C: WatcherAppContext>(
    app: &C,
    tasks: LabelMap<TaskStatus>,
    selected_label: Option<&TaskLabel>,
) -> (listing: Vec<RenderedStatus>)
    requires
        forall|label: Seq<char>| #[trigger]
            tasks@.contains_key(label) && is_selected(label, label_view(selected_label))
                ==> tasks@[label]@.can_be_told(),
    ensures
        may_list(app, tasks@, selected_label, listing@),
{
    let ghost map = tasks@;
    let mut entries = tasks.into_entries();
    let ghost all = entries@;
    let mut listing: Vec<RenderedStatus> = Vec::new();
    let ghost wanted = label_view(selected_label);
    loop
        invariant
            wanted == label_view(selected_label),
            entries@.len() <= all.len(),
            entries@ == all.take(entries@.len() as int),
            forall|label: Seq<char>| #[trigger]
                map.contains_key(label) && is_selected(label, wanted)
                    ==> map[label]@.can_be_told(),
            forall|i: int, j: int|
                0 <= i < j < all.len() ==> (#[trigger] all[i]).0@ != (#[trigger] all[j]).0@,
            forall|i: int|
                0 <= i < all.len() ==> map.contains_key((#[trigger] all[i]).0@) && map[all[i].0@]
                    == all[i].1,
            in_listing_order(listing@),
            labels_differ(listing@),
            forall|i: int|
                0 <= i < listing@.len() ==> may_render(
                    app,
                    map,
                    selected_label,
                    #[trigger] listing@[i],
                ),
            forall|label: Seq<char>| #[trigger]
                lists_label(listing@, label) <==> stands_from(all, entries@.len() as int, label)
                    && is_selected(label, wanted),
        ensures
            entries@.len() == 0,
        decreases entries@.len(),
    {
        let ghost n = entries@.len() as int;
        match entries.pop() {
            None => {
                break;
            },
            Some((label, status)) => {
                let ghost before = listing@;
                proof {
                    assert((label, status) == all[n - 1]);
                    assert(entries@ =~= all.take(n - 1));
                    assert forall|l: Seq<char>| #[trigger]
                        stands_from(all, n - 1, l) <==> stands_from(all, n, l) || l
                            == label@ by {
                        lemma_stands_from(all, n - 1, l);
                    }
                    assert(!stands_from(all, n, label@)) by {
                        if stands_from(all, n, label@) {
                            let k = choose|k: int|
                                n <= k < all.len() && (#[trigger] all[k]).0@ == label@;
                            assert(all[n - 1].0@ != all[k].0@);
                        }
                    }
                }
                let looked_at = match selected_label {
                    Some(only) => label.is_named(only),
                    None => true,
                };
                if looked_at {
                    let short = status.short(app, &label, selected_label);
                    let rendered = RenderedStatus { label, status, short };
                    let at = insert_in_order(&mut listing, rendered);
                    proof {
                        lemma_insert_lists(before, at as int, rendered);
                        assert(may_render(app, map, selected_label, rendered));
                    }
                }
            },
        }
    }
    proof {
        assert forall|label: Seq<char>| #[trigger]
            stands_from(all, 0, label) <==> map.contains_key(label) by {
            if stands_from(all, 0, label) {
                let k = choose|k: int| 0 <= k < all.len() && (#[trigger] all[k]).0@ == label;
                assert(map.contains_key(all[k].0@));
            }
        }
    }
    listing
}

/// Whether any of the statuses is worth an alert.
pub open spec fn any_alerts(statuses: Seq<RenderedStatus>) -> bool {
    exists|i: int| 0 <= i < statuses.len() && (#[trigger] statuses[i]).short.alerts()
}

/// Whether any of the statuses is worth an alert.
pub fn any_alert(statuses: &Vec<RenderedStatus>) -> (alert: bool)
    ensures
        alert == any_alerts(statuses@),
{
    let mut i: usize = 0;
    while i < statuses.len()
        invariant
            i <= statuses@.len(),
            forall|j: int| 0 <= j < i ==> !(#[trigger] statuses@[j]).short.alerts(),
        decreases statuses@.len() - i,
    {
        if statuses[i].short.alert() {
            return true;
        }
        i = i + 1;
    }
    false
}

/// The HTTP status of a page: an internal server error where there is an alert.
pub open spec fn http_status(alert: bool) -> u16 {
    if alert {
        500
    } else {
        200
    }
}

/// The HTTP status of a page.
pub fn page_status(alert: bool) -> (status: u16)
    ensures
        status == http_status(alert),
{
    if alert {
        500
    } else {
        200
    }
}

/// The line that says since when a run has been in progress.
pub open spec fn started_line(started: Option<MomentView>) -> Seq<char> {
    match started {
        Some(moment) => "Currently running, started at "@ + moment.text + "\n"@,
        None => Seq::empty(),
    }
}

/// The line that says how long the last run took.
pub open spec fn run_time_line(seconds: Option<i64>) -> Seq<char> {
    match seconds {
        Some(secs) => "Last run took "@ + int_text(secs as int) + " seconds\n"@,
        None => Seq::empty(),
    }
}

/// The lines that say with which error the last attempt failed.
pub open spec fn retry_lines(error: Option<ErrorView>) -> Seq<char> {
    match error {
        Some(e) => "\nCurrently retrying, last attempt failed with:\n\n"@ + e.value + "\n\n"@,
        None => Seq::empty(),
    }
}

/// What the plain text page says of one task.
pub open spec fn task_lines(label: Seq<char>, short: ShortStatus, status: StatusView) -> Seq<char> {
    "# "@ + label + ". Status: "@ + short.words() + "\n"@ + started_line(status.current_run_started)
        + run_time_line(status.last_run_seconds) + "\n"@ + status.value.text() + "\n\n"@
        + retry_lines(status.last_retry_error) + "\n"@
}

/// What the plain text page says of all tasks.
pub open spec fn page_text(statuses: Seq<RenderedStatus>) -> Seq<char>
    decreases statuses.len(),
{
    if statuses.len() == 0 {
        Seq::empty()
    } else {
        let last = statuses.last();
        page_text(statuses.drop_last()) + task_lines(last.label@, last.short, last.status@)
    }
}

/// A plain text page.
#[derive(Debug)]
pub struct TextResponse {
    /// The HTTP status.
    pub status: u16,
    pub body: String,
}

/// A plain text page in the making.
pub struct ResponseBuilder {
    buffer: String,
    any_errors: bool,
}

impl ResponseBuilder {
    /// What is written so far.
    pub closed spec fn text(self) -> Seq<char> {
        self.buffer@
    }

    /// Whether the page is to tell of an error.
    pub closed spec fn tells_error(self) -> bool {
        self.any_errors
    }

    /// An empty page.
    pub fn new() -> (builder: Self)
        ensures
            builder.text() == Seq::<char>::empty(),
            !builder.tells_error(),
    {
        ResponseBuilder { buffer: String::new(), any_errors: false }
    }

    /// Adds what the page says of one task.
    pub fn add(&mut self, rendered: &RenderedStatus)
        ensures
            final(self).text() == old(self).text() + task_lines(
                rendered.label@,
                rendered.short,
                rendered.status@,
            ),
            final(self).tells_error() == old(self).tells_error(),
    {
        let status = &rendered.status;
        let mut lines = String::from("# ");
        lines.append(rendered.label.ident());
        lines.append(". Status: ");
        lines.append(rendered.short.as_str());
        lines.append("\n");
        let ghost head = lines@;
        if let Some(started) = &status.current_run_started {
            lines.append("Currently running, started at ");
            lines.append(started.text());
            lines.append("\n");
        }
        proof {
            assert(lines@ =~= head + started_line(status@.current_run_started));
        }
        let ghost running = lines@;
        if let Some(secs) = status.last_run_seconds {
            lines.append("Last run took ");
            push_i64(&mut lines, secs);
            lines.append(" seconds\n");
        }
        proof {
            assert(lines@ =~= running + run_time_line(status@.last_run_seconds));
        }
        lines.append("\n");
        lines.append(status.last_result.value.as_str());
        lines.append("\n\n");
        let ghost shown = lines@;
        if let Some(err) = &status.last_retry_error {
            lines.append("\nCurrently retrying, last attempt failed with:\n\n");
            lines.append(err.value.as_str());
            lines.append("\n\n");
        }
        proof {
            assert(lines@ =~= shown + retry_lines(status@.last_retry_error));
        }
        lines.append("\n");
        self.buffer.append(lines.as_str());
    }

    /// The page.
    pub fn into_response(self) -> (response: TextResponse)
        ensures
            response.body@ == self.text(),
            response.status == http_status(self.tells_error()),
    {
        TextResponse { status: page_status(self.any_errors), body: self.buffer }
    }
}

/// The plain text page that lists the given statuses.
pub fn statuses_text(statuses: &Vec<RenderedStatus>) -> (response: TextResponse)
    ensures
        response.body@ == page_text(statuses@),
        response.status == http_status(any_alerts(statuses@)),
{
    let alert = any_alert(statuses);
    let mut builder = ResponseBuilder::new();
    let mut i: usize = 0;
    while i < statuses.len()
        invariant
            i <= statuses@.len(),
            builder.text() == page_text(statuses@.take(i as int)),
            !builder.tells_error(),
        decreases statuses@.len() - i,
    {
        builder.add(&statuses[i]);
        proof {
            assert(statuses@.take(i + 1).drop_last() =~= statuses@.take(i as int));
        }
        i = i + 1;
    }
    proof {
        assert(statuses@.take(i as int) =~= statuses@);
    }
    let mut response = builder.into_response();
    if alert {
        response.status = 500;
    }
    response
}

/// What the page shows.
pub struct StatusTemplate {
    pub statuses: Vec<RenderedStatus>,
    pub env: Cow<'static, str>,
    pub build_version: Cow<'static, str>,
    pub live_since: Moment,
    pub now: Moment,
    pub alert: bool,
    pub title: String,
}

/// A text that may not be known.
pub open spec fn known_text(text: Option<String>) -> Seq<char> {
    match text {
        Some(s) => s@,
        None => "Unknown"@,
    }
}

/// A text that may not be known.
fn or_unknown(text: Option<String>) -> (known: Cow<'static, str>)
    ensures
        known@ == known_text(text),
{
    match text {
        Some(s) => Cow::from(s),
        None => Cow::from("Unknown"),
    }
}

impl StatusTemplate {
    /// What the page shows of the given statuses, of an application that has been up since
    /// `live_since`.
    pub fn new(
        statuses: Vec<RenderedStatus>,
        environment: Option<String>,
        build_version: Option<String>,
        title: String,
        live_since: Moment,
        now: Moment,
    ) -> (template: Self)
        ensures
            template.statuses == statuses,
            template.env@ == known_text(environment),
            template.build_version@ == known_text(build_version),
            template.live_since == live_since,
            template.now == now,
            template.alert == any_alerts(statuses@),
            template.title == title,
    {
        let alert = any_alert(&statuses);
        StatusTemplate {
            statuses,
            env: or_unknown(environment),
            build_version: or_unknown(build_version),
            live_since,
            now,
            alert,
            title,
        }
    }

    /// How long the application has been up.
    pub fn live_since_human(&self) -> (text: String)
        ensures
            text@ == uptime_text(whole_seconds(self.now@.nanos - self.live_since@.nanos)),
    {
        uptime(self.now.seconds_since(&self.live_since))
    }

    /// The HTTP status of the page.
    pub fn status(&self) -> (status: u16)
        ensures
            status == http_status(self.alert),
    {
        page_status(self.alert)
    }
}

/// What the page shows now of the tasks `tasks`, when `selected_label` is the only task that is
/// looked at.
pub fn to_template<C: WatcherAppContext>(
    app: &C,
    tasks: LabelMap<TaskStatus>,
    selected_label: Option<&TaskLabel>,
    live_since: Moment,
) -> (template: StatusTemplate)
    requires
        forall|label: Seq<char>| #[trigger]
            tasks@.contains_key(label) && is_selected(label, label_view(selected_label))
                ==> tasks@[label]@.can_be_told(),
    ensures
        may_list(app, tasks@, selected_label, template.statuses@),
        template.alert == any_alerts(template.statuses@),
        template.live_since == live_since,
        now_reads(template.now),
        call_ensures(C::title, (app,), template.title),
        exists|env: Option<String>| #[trigger]
            call_ensures(C::environment, (app,), env) && template.env@ == known_text(env),
        exists|version: Option<String>| #[trigger]
            call_ensures(C::build_version, (app,), version) && template.build_version@
                == known_text(version),
{
    let listing = statuses(app, tasks, selected_label);
    let now = Moment::now();
    StatusTemplate::new(
        listing,
        app.environment(),
        app.build_version(),
        app.title(),
        live_since,
        now,
    )
}

} // verus!
