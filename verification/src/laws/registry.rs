//! Which tasks are watched, and what is wrong where one is not.

use super::text::{digits_only, law_integers_read_back, value_of};
use crate::clock::Moment;
use crate::config::WatcherConfig;
use crate::label::TaskLabel;
use crate::label_map::{is_selected, label_view, LabelMap};
use crate::periodic::PeriodicTask;
use crate::registry::{
    background_task_failed, config_missing, quoted, task_failed, twice_message, TaskStatuses,
    WatchError, Watcher,
};
use crate::status::TaskCounts;
use crate::text::int_text;
use vstd::prelude::*;

verus! {

/// A label that was set is found with its newest value, and no other label is touched.
pub proof fn law_a_map_holds_what_was_put_in<V>(
    map: &mut LabelMap<V>,
    label: TaskLabel,
    value: V,
    replaced: Option<V>,
    other: TaskLabel,
    found: Option<&V>,
)
    requires
        call_ensures(LabelMap::<V>::insert, (map, label, value), replaced),
        call_ensures(LabelMap::<V>::get, (&*final(map), &other), found),
    ensures
        other@ == label@ ==> found is Some && *found->0 == value,
        other@ != label@ ==> (found is Some <==> old(map)@.contains_key(other@)),
        other@ != label@ && found is Some ==> *found->0 == old(map)@[other@],
        replaced is Some <==> old(map)@.contains_key(label@),
        replaced is Some ==> replaced->0 == old(map)@[label@],
{
}

/// A label is its name, read back and copied in full, and is told apart by nothing else.
pub proof fn law_labels_keep_their_name<S: Into<String>>(
    name: S,
    label: TaskLabel,
    ident: &str,
    text: String,
    other: TaskLabel,
    same: bool,
)
    requires
        call_ensures(TaskLabel::new::<S>, (name,), label),
        call_ensures(TaskLabel::ident, (&label,), ident),
        call_ensures(TaskLabel::to_string, (&label,), text),
        call_ensures(TaskLabel::is_named, (&label, &other), same),
    ensures
        exists|s: String| #[trigger]
            call_ensures(S::into, (name,), s) && ident@ == s@ && text@ == s@,
        same <==> label@ == other@,
{
}

/// A task that runs by itself is watched unless its label is taken; either way its label leads to
/// the new handle, and no other label is touched.
pub proof fn law_background_tasks_need_a_label_of_their_own<H>(
    watcher: &mut Watcher<H>,
    label: TaskLabel,
    handle: H,
    watched: Result<(), WatchError>,
    other: Seq<char>,
)
    requires
        call_ensures(
            Watcher::<H>::watch_background_with_status,
            (watcher, label, handle),
            watched,
        ),
    ensures
        watched is Err <==> old(watcher)@.contains_key(label@),
        watched is Err ==> watched->Err_0 is TwoTasks && watched->Err_0->TwoTasks_0@ == label@,
        final(watcher)@.contains_key(label@) && final(watcher)@[label@] == handle,
        other != label@ ==> (final(watcher)@.contains_key(other) <==> old(watcher)@.contains_key(
            other,
        )),
        other != label@ && old(watcher)@.contains_key(other) ==> final(watcher)@[other]
            == old(watcher)@[other],
{
}

/// A task that is run over and over again is watched unless its delay cannot be, in which case
/// nothing changes, or its label is taken; otherwise its label leads to the new handle, no other
/// label is touched, and it starts afresh with the configuration under its label.
pub proof fn law_periodic_tasks_need_a_label_and_a_delay<H>(
    watcher: &mut Watcher<H>,
    config: WatcherConfig,
    label: TaskLabel,
    handle: H,
    watched: Result<PeriodicTask, WatchError>,
    other: Seq<char>,
)
    requires
        call_ensures(Watcher::<H>::watch_periodic, (watcher, &config, label, handle), watched),
        config.tasks@.contains_key(label@),
    ensures
        ({
            let delay = config.tasks@[label@].delay;
            let inverted = delay is Random && delay->low > delay->high;
            let taken = old(watcher)@.contains_key(label@);
            &&& watched is Err <==> inverted || taken
            &&& inverted ==> {
                &&& watched->Err_0 is Delay
                &&& watched->Err_0->Delay_0.low == delay->low
                &&& watched->Err_0->Delay_0.high == delay->high
                &&& final(watcher)@ == old(watcher)@
            }
            &&& !inverted && taken ==> watched->Err_0 is TwoPeriodicTasks
                && watched->Err_0->TwoPeriodicTasks_0@ == label@
            &&& !inverted ==> {
                &&& final(watcher)@.contains_key(label@) && final(watcher)@[label@] == handle
                &&& other != label@ ==> (final(watcher)@.contains_key(other) <==> old(
                    watcher,
                )@.contains_key(other))
                &&& other != label@ && old(watcher)@.contains_key(other) ==> final(watcher)@[other]
                    == old(watcher)@[other]
            }
            &&& watched is Ok ==> {
                let task = watched->Ok_0@;
                &&& task.label == label
                &&& task.config == config.tasks@[label@]
                &&& task.retries == 0
                &&& !task.failed
                &&& !task.healthy
                &&& task.counts == (TaskCounts { successes: 0, retries: 0, errors: 0 })
            }
        }),
{
}

/// No task is watched at first, and all that are watched are shown, since the given moment: each
/// one that is looked at once, with its handle, and no other.
pub proof fn law_watched_tasks_are_shown<H>(
    blank: Watcher<H>,
    watcher: Watcher<H>,
    live_since: Moment,
    statuses: TaskStatuses<H>,
    started: &Moment,
    selected: Option<&TaskLabel>,
    entries: Vec<(&TaskLabel, &H)>,
)
    requires
        call_ensures(Watcher::<H>::new, (), blank),
        call_ensures(Watcher::<H>::into_statuses, (watcher, live_since), statuses),
        call_ensures(TaskStatuses::<H>::started, (&statuses,), started),
        call_ensures(TaskStatuses::<H>::selected, (&statuses, selected), entries),
    ensures
        forall|label: Seq<char>| !(#[trigger] blank@.contains_key(label)),
        started@ == live_since@,
        forall|i: int|
            0 <= i < entries@.len() ==> {
                &&& watcher@.contains_key((#[trigger] entries@[i]).0@)
                &&& watcher@[entries@[i].0@] == *entries@[i].1
                &&& selected is Some ==> entries@[i].0@ == selected->0@
            },
        forall|i: int, j: int|
            0 <= i < j < entries@.len() ==> (#[trigger] entries@[i]).0@ != (
            #[trigger] entries@[j]).0@,
        forall|label: Seq<char>| #[trigger]
            watcher@.contains_key(label) && (selected is Some ==> label == selected->0@)
                ==> exists|i: int| 0 <= i < entries@.len() && (#[trigger] entries@[i]).0@ == label,
{
    assert(statuses@ == watcher@);
    assert forall|label: Seq<char>| #[trigger]
        watcher@.contains_key(label) && (selected is Some ==> label
            == selected->0@) implies exists|i: int|
        0 <= i < entries@.len() && (#[trigger] entries@[i]).0@ == label by {
        assert(statuses@.contains_key(label) && is_selected(label, label_view(selected)));
    }
}

/// What is wrong is told with the label, between quotes, or with both bounds of the delay, in
/// decimal digits.
pub proof fn law_what_is_wrong_is_told(error: WatchError, text: String)
    requires
        call_ensures(WatchError::message, (&error,), text),
    ensures
        error is TwoTasks ==> text@ == "Two tasks"@ + " with label TaskLabel("@ + quoted(
            error->TwoTasks_0@,
        ) + ")"@,
        error is TwoPeriodicTasks ==> text@ == "Two periodic tasks"@ + " with label TaskLabel("@
            + quoted(error->TwoPeriodicTasks_0@) + ")"@,
        error is Delay ==> exists|low: Seq<char>, high: Seq<char>|
            {
                &&& digits_only(low) && #[trigger] value_of(low) == error->Delay_0.low
                &&& digits_only(high) && #[trigger] value_of(high) == error->Delay_0.high
                &&& text@ == "random delay lower bound "@ + low + " exceeds upper bound "@ + high
            },
{
    if error is Delay {
        law_integers_read_back(error->Delay_0.low as int);
        law_integers_read_back(error->Delay_0.high as int);
        assert(value_of(int_text(error->Delay_0.low as int)) == error->Delay_0.low);
        assert(value_of(int_text(error->Delay_0.high as int)) == error->Delay_0.high);
    }
}

/// The words for what went wrong hold the label in full.
pub proof fn law_words_hold_the_whole_label(
    label: TaskLabel,
    task: String,
    background: String,
    missing: String,
    what: &str,
    quoted_label: &str,
    twice: String,
)
    requires
        call_ensures(task_failed, (&label,), task),
        call_ensures(background_task_failed, (&label,), background),
        call_ensures(config_missing, (&label,), missing),
        call_ensures(twice_message, (what, quoted_label), twice),
    ensures
        task@ == "Task failed: "@ + label@,
        background@ == "Background task failed: "@ + label@,
        missing@ == "all tasks in TaskLabel must have a config: "@ + label@,
        twice@ == what@ + " with label TaskLabel("@ + quoted_label@ + ")"@,
{
}

} // verus!
