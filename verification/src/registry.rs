//! The tasks that are watched.

use crate::clock::Moment;
use crate::config::{valid_delay, Delay, InvertedDelay, TaskConfig, WatcherConfig};
use crate::label::TaskLabel;
use crate::label_map::{all_selected, is_selected, label_view, LabelMap};
use crate::periodic::{PeriodicTask, PeriodicView};
use crate::status::TaskCounts;
use crate::text::int_text;
use vstd::prelude::*;

verus! {

/// A text between double quotes, with escapes for the characters that need them, as `std` writes
/// a string for debugging.
pub uninterp spec fn quoted(text: Seq<char>) -> Seq<char>;

/// Calls `format!` with `{:?}` on a string slice.
///
/// Claimed: the result depends on the text alone, as [`quoted`] says.
#[verifier::external_body]
fn debug_text(text: &str) -> (debug: String)
    ensures
        debug@ == quoted(text@),
{
    format!("{:?}", text)
}

/// Why a task cannot be watched.
#[derive(Debug)]
pub enum WatchError {
    /// There is a task with this label already.
    TwoTasks(TaskLabel),
    /// There is a task with the label of this periodic task already.
    TwoPeriodicTasks(TaskLabel),
    /// The bounds of the random delay are the wrong way round.
    Delay(InvertedDelay),
}

/// What is wrong, in words, where a label occurs twice: `what` says of what there are two, and
/// `quoted_label` is the label between quotes.
pub open spec fn twice_text(what: Seq<char>, quoted_label: Seq<char>) -> Seq<char> {
    what + " with label TaskLabel("@ + quoted_label + ")"@
}

/// What is wrong, in words, where a label occurs twice: `what` says of what there are two, and
/// `quoted_label` is the label between quotes.
pub fn twice_message(what: &str, quoted_label: &str) -> (text: String)
    ensures
        text@ == twice_text(what@, quoted_label@),
{
    let mut text = String::from(what);
    text.append(" with label TaskLabel(");
    text.append(quoted_label);
    text.append(")");
    text
}

impl WatchError {
    /// What is wrong, in words.
    pub fn message(&self) -> (text: String)
        ensures
            text@ == match self {
                WatchError::TwoTasks(label) => twice_text("Two tasks"@, quoted(label@)),
                WatchError::TwoPeriodicTasks(label) => twice_text(
                    "Two periodic tasks"@,
                    quoted(label@),
                ),
                WatchError::Delay(inverted) => "random delay lower bound "@ + int_text(
                    inverted.low as int,
                ) + " exceeds upper bound "@ + int_text(inverted.high as int),
            },
    {
        match self {
            WatchError::TwoTasks(label) => twice_message(
                "Two tasks",
                debug_text(label.ident()).as_str(),
            ),
            WatchError::TwoPeriodicTasks(label) => twice_message(
                "Two periodic tasks",
                debug_text(label.ident()).as_str(),
            ),
            WatchError::Delay(inverted) => inverted.message(),
        }
    }
}

/// The tasks that are watched, each with a handle to its status.
pub struct Watcher<H> {
    statuses: LabelMap<H>,
}

impl<H> View for Watcher<H> {
    type V = Map<Seq<char>, H>;

    closed spec fn view(&self) -> Map<Seq<char>, H> {
        self.statuses@
    }
}

impl<H> Watcher<H> {
    /// No tasks.
    pub fn new() -> (watcher: Self)
        ensures
            watcher@ == Map::<Seq<char>, H>::empty(),
    {
        Watcher { statuses: LabelMap::new() }
    }

    /// Watches a task that runs by itself, whose status is at `handle`. Where there is a task with
    /// the same label already, this is an error, and the new handle takes the place of the old
    /// one.
    pub fn watch_background_with_status(&mut self, label: TaskLabel, handle: H) -> (watched: Result<
        (),
        WatchError,
    >)
        ensures
            final(self)@ == old(self)@.insert(label@, handle),
            watched is Ok <==> !old(self)@.contains_key(label@),
            watched matches Err(e) ==> e matches WatchError::TwoTasks(twice) && twice@ == label@,
    {
        match self.statuses.insert(label.clone(), handle) {
            Some(_) => Err(WatchError::TwoTasks(label)),
            None => Ok(()),
        }
    }

    /// Watches a task that is run over and over again as `config` says, whose status is at
    /// `handle`. A delay that cannot be is an error, and nothing changes. Where there is a task
    /// with the same label already, this is an error, and the new handle takes the place of the
    /// old one.
    pub fn watch_periodic(
        &mut self,
        config: &WatcherConfig,
        label: TaskLabel,
        handle: H,
    ) -> (watched: Result<PeriodicTask, WatchError>)
        requires
            config.tasks@.contains_key(label@),
        ensures
            ({
                let task_config = config.tasks@[label@];
                if !valid_delay(task_config.delay) {
                    &&& watched matches Err(e) && e matches WatchError::Delay(inverted)
                        && task_config.delay == (Delay::Random {
                        low: inverted.low,
                        high: inverted.high,
                    })
                    &&& final(self)@ == old(self)@
                } else if old(self)@.contains_key(label@) {
                    &&& watched matches Err(e) && e matches WatchError::TwoPeriodicTasks(twice)
                        && twice@ == label@
                    &&& final(self)@ == old(self)@.insert(label@, handle)
                } else {
                    &&& watched matches Ok(task) && task@ == (PeriodicView {
                        label,
                        config: task_config,
                        retries: 0,
                        failed: false,
                        healthy: false,
                        counts: TaskCounts { successes: 0, retries: 0, errors: 0 },
                    })
                    &&& final(self)@ == old(self)@.insert(label@, handle)
                }
            }),
    {
        let task_config: TaskConfig = config.task_config(&label).unwrap();
        let key = label.clone();
        match PeriodicTask::new(label, task_config) {
            Err(inverted) => Err(WatchError::Delay(inverted)),
            Ok(task) => match self.statuses.insert(key.clone(), handle) {
                Some(_) => Err(WatchError::TwoPeriodicTasks(key)),
                None => Ok(task),
            },
        }
    }

    /// The tasks that are watched, of an application that has been up since `live_since`.
    pub fn into_statuses(self, live_since: Moment) -> (statuses: TaskStatuses<H>)
        ensures
            statuses@ == self@,
            statuses.live_since() == live_since,
    {
        TaskStatuses { statuses: self.statuses, live_since }
    }
}

/// The tasks that are watched, each with a handle to its status, and since when.
pub struct TaskStatuses<H> {
    statuses: LabelMap<H>,
    live_since: Moment,
}

impl<H> View for TaskStatuses<H> {
    type V = Map<Seq<char>, H>;

    closed spec fn view(&self) -> Map<Seq<char>, H> {
        self.statuses@
    }
}

impl<H> TaskStatuses<H> {
    /// Since when the application has been up.
    pub closed spec fn live_since(self) -> Moment {
        self.live_since
    }

    /// Since when the application has been up.
    pub fn started(&self) -> (moment: &Moment)
        ensures
            *moment == self.live_since(),
    {
        &self.live_since
    }

    /// The tasks that are looked at, when `selected` is the only one or, without it, all are, each
    /// with the handle to its status.
    pub fn selected(&self, selected: Option<&TaskLabel>) -> (entries: Vec<(&TaskLabel, &H)>)
        ensures
            forall|i: int, j: int|
                0 <= i < j < entries@.len() ==> (#[trigger] entries@[i]).0@ != (
                #[trigger] entries@[j]).0@,
            forall|i: int|
                0 <= i < entries@.len() ==> {
                    &&& self@.contains_key((#[trigger] entries@[i]).0@)
                    &&& self@[entries@[i].0@] == *entries@[i].1
                    &&& is_selected(entries@[i].0@, label_view(selected))
                },
            all_selected(self@, label_view(selected), entries@),
    {
        self.statuses.selected(selected)
    }
}

/// `before` followed by the label.
fn with_label(before: &str, label: &TaskLabel) -> (text: String)
    ensures
        text@ == before@ + label@,
{
    let mut text = String::from(before);
    text.append(label.ident());
    text
}

/// The words for a task that has come to an end.
pub fn task_failed(label: &TaskLabel) -> (text: String)
    ensures
        text@ == "Task failed: "@ + label@,
{
    with_label("Task failed: ", label)
}

/// The words for a task that runs by itself and has come to an end.
pub fn background_task_failed(label: &TaskLabel) -> (text: String)
    ensures
        text@ == "Background task failed: "@ + label@,
{
    with_label("Background task failed: ", label)
}

/// The words for a task of which the configuration says nothing.
pub fn config_missing(label: &TaskLabel) -> (text: String)
    ensures
        text@ == "all tasks in TaskLabel must have a config: "@ + label@,
{
    with_label("all tasks in TaskLabel must have a config: ", label)
}

} // verus!
