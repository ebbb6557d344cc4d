//! How tasks are run: delays between runs, and retries after failures.

use crate::label::TaskLabel;
use crate::label_map::LabelMap;
use crate::text::{int_text, push_u64};
use rand::Rng;
use vstd::prelude::*;

verus! {

/// How long to wait after a successful run before the next one.
#[derive(Clone, Copy, Debug, PartialEq, Eq, Structural)]
pub enum Delay {
    /// Run again at once.
    NoDelay,
    /// Wait this many milliseconds.
    ConstantMSecs(u64),
    /// Wait this many seconds.
    ConstantSecs(u64),
    /// Wait a number of seconds drawn anew each time, between the two bounds inclusive.
    Random { low: u64, high: u64 },
}

/// How one task is run.
#[derive(Clone, Copy, Debug, PartialEq, Eq, Structural)]
pub struct TaskConfig {
    /// How long to wait after a successful run.
    pub delay: Delay,
    /// How many seconds a run may take before its result counts as out of date.
    pub out_of_date: Option<u32>,
    /// How many further attempts follow a failure, in place of the general number.
    pub retries: Option<usize>,
    /// How many seconds to wait after a failure, in place of the general number.
    pub delay_between_retries: Option<u32>,
}

/// How all tasks are run.
pub struct WatcherConfig {
    /// How many further attempts follow a failure, where a task does not say.
    pub retries: usize,
    /// How many seconds to wait after a failure, where a task does not say.
    pub delay_between_retries: u32,
    /// How each task is run.
    pub tasks: LabelMap<TaskConfig>,
}

impl WatcherConfig {
    /// How the task with the given label is run.
    pub fn task_config(&self, label: &TaskLabel) -> (config: Option<TaskConfig>)
        ensures
            config is Some <==> self.tasks@.contains_key(label@),
            config matches Some(c) ==> c == self.tasks@[label@],
    {
        match self.tasks.get(label) {
            Some(config) => Some(*config),
            None => None,
        }
    }
}

impl TaskConfig {
    /// How many further attempts follow a failure of the task, where `general` is the number for
    /// all tasks.
    pub open spec fn spec_max_retries(self, general: usize) -> usize {
        match self.retries {
            Some(retries) => retries,
            None => general,
        }
    }

    /// How many further attempts follow a failure of the task.
    pub fn max_retries(&self, general: usize) -> (retries: usize)
        ensures
            retries == self.spec_max_retries(general),
    {
        match self.retries {
            Some(retries) => retries,
            None => general,
        }
    }

    /// How many seconds to wait after a failure of the task, where `general` is the number for
    /// all tasks.
    pub open spec fn spec_retry_delay(self, general: u32) -> u32 {
        match self.delay_between_retries {
            Some(seconds) => seconds,
            None => general,
        }
    }

    /// How many seconds to wait after a failure of the task.
    pub fn retry_delay(&self, general: u32) -> (seconds: u32)
        ensures
            seconds == self.spec_retry_delay(general),
    {
        match self.delay_between_retries {
            Some(seconds) => seconds,
            None => general,
        }
    }
}

/// Whether `failures` failures in a row are more than the first attempt and the configured
/// further attempts.
pub fn retry_limit_reached(failures: usize, configured_retries: usize) -> (reached: bool)
    ensures
        reached == (failures > configured_retries),
{
    failures > configured_retries
}

/// Whether there is a delay that `delay` admits: a random one needs bounds in order.
pub open spec fn valid_delay(delay: Delay) -> bool {
    match delay {
        Delay::Random { low, high } => low <= high,
        _ => true,
    }
}

/// A random delay whose bounds are the wrong way round.
#[derive(Clone, Copy, Debug, PartialEq, Eq, Structural)]
pub struct InvertedDelay {
    pub low: u64,
    pub high: u64,
}

impl InvertedDelay {
    /// What is wrong, in words.
    pub fn message(&self) -> (text: String)
        ensures
            text@ == "random delay lower bound "@ + int_text(self.low as int)
                + " exceeds upper bound "@ + int_text(self.high as int),
    {
        let mut text = String::from("random delay lower bound ");
        push_u64(&mut text, self.low);
        text.append(" exceeds upper bound ");
        push_u64(&mut text, self.high);
        text
    }
}

/// Checks that there is a delay that `delay` admits.
pub fn validate_delay(delay: Delay) -> (checked: Result<(), InvertedDelay>)
    ensures
        checked is Ok <==> valid_delay(delay),
        checked matches Err(e) ==> delay == (Delay::Random { low: e.low, high: e.high }),
{
    if let Delay::Random { low, high } = delay {
        if low > high {
            return Err(InvertedDelay { low, high });
        }
    }
    Ok(())
}

/// How long to wait before the next run.
#[derive(Clone, Copy, Debug, PartialEq, Eq, Structural)]
pub enum Pause {
    /// Do not wait.
    NoPause,
    /// Wait this many milliseconds.
    Millis(u64),
    /// Wait this many seconds.
    Secs(u64),
}

/// The pause that a delay asks for, where `drawn` is what a random delay has drawn.
pub open spec fn delay_pause(delay: Delay, drawn: u64) -> Pause {
    match delay {
        Delay::NoDelay => Pause::NoPause,
        Delay::ConstantMSecs(msecs) => Pause::Millis(msecs),
        Delay::ConstantSecs(secs) => Pause::Secs(secs),
        Delay::Random { .. } => Pause::Secs(drawn),
    }
}

/// Whether a delay may have drawn `drawn`: a random one draws between its bounds, and the others
/// draw nothing.
pub open spec fn may_draw(delay: Delay, drawn: u64) -> bool {
    match delay {
        Delay::Random { low, high } => low <= drawn <= high,
        _ => true,
    }
}

/// Calls `rand::Rng::random_range` with an inclusive range, on the generator of `rand::rng`.
///
/// Claimed: the number drawn lies in the range. The call panics on an empty range.
#[verifier::external_body]
fn random_between(low: u64, high: u64) -> (drawn: u64)
    requires
        low <= high,
    ensures
        low <= drawn <= high,
{
    rand::rng().random_range(low..=high)
}

/// Whether `drawn` is what the random number generator may have drawn between the two bounds.
pub closed spec fn draws(low: u64, high: u64, drawn: u64) -> bool {
    call_ensures(random_between, (low, high), drawn)
}

/// Whether `pause` is one that a delay may ask for: a random one is drawn between its bounds.
pub open spec fn may_pause(delay: Delay, pause: Pause) -> bool {
    &&& exists|drawn: u64|
        may_draw(delay, drawn) && pause == #[trigger] delay_pause(delay, drawn)
    &&& delay matches Delay::Random { low, high } ==> pause is Secs && draws(
        low,
        high,
        pause->Secs_0,
    )
}

/// The pause that a delay asks for, where `drawn` is what a random delay has drawn.
pub fn pause_drawn(delay: Delay, drawn: u64) -> (pause: Pause)
    ensures
        pause == delay_pause(delay, drawn),
{
    match delay {
        Delay::NoDelay => Pause::NoPause,
        Delay::ConstantMSecs(msecs) => Pause::Millis(msecs),
        Delay::ConstantSecs(secs) => Pause::Secs(secs),
        Delay::Random { .. } => Pause::Secs(drawn),
    }
}

/// The pause that a delay asks for. A random delay draws anew.
pub fn pause_for(delay: Delay) -> (pause: Pause)
    requires
        valid_delay(delay),
    ensures
        may_pause(delay, pause),
{
    let drawn: u64 = match delay {
        Delay::Random { low, high } => random_between(low, high),
        _ => 0,
    };
    pause_drawn(delay, drawn)
}

} // verus!
