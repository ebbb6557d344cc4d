//! What a configuration leads to.

use super::text::{digits_only, law_integers_read_back, value_of};
use crate::config::{
    pause_drawn, pause_for, retry_limit_reached, validate_delay, Delay, InvertedDelay, Pause,
    TaskConfig, WatcherConfig,
};
use crate::label::TaskLabel;
use crate::text::int_text;
use vstd::prelude::*;

verus! {

/// Where a task gives its own number of retries, that one is used, whatever the general number is;
/// where it gives none, the general number is used.
pub proof fn law_own_retries_go_before_general_ones(
    config: TaskConfig,
    general: usize,
    other: usize,
    used: usize,
    used_with_other: usize,
)
    requires
        call_ensures(TaskConfig::max_retries, (&config, general), used),
        call_ensures(TaskConfig::max_retries, (&config, other), used_with_other),
    ensures
        config.retries is Some ==> used == config.retries->0 && used_with_other == used,
        config.retries is None ==> used == general && used_with_other == other,
{
}

/// Where a task gives its own delay between retries, that one is used, whatever the general one
/// is; where it gives none, the general one is used.
pub proof fn law_own_retry_delays_go_before_general_ones(
    config: TaskConfig,
    general: u32,
    other: u32,
    used: u32,
    used_with_other: u32,
)
    requires
        call_ensures(TaskConfig::retry_delay, (&config, general), used),
        call_ensures(TaskConfig::retry_delay, (&config, other), used_with_other),
    ensures
        config.delay_between_retries is Some ==> used == config.delay_between_retries->0
            && used_with_other == used,
        config.delay_between_retries is None ==> used == general && used_with_other == other,
{
}

/// The limit is reached by the first failure beyond the configured retries, and by each after it.
pub proof fn law_the_limit_is_one_beyond_the_retries(
    failures: usize,
    configured_retries: usize,
    reached: bool,
)
    requires
        call_ensures(retry_limit_reached, (failures, configured_retries), reached),
    ensures
        failures <= configured_retries ==> !reached,
        failures >= configured_retries + 1 ==> reached,
{
}

/// A delay is refused if and only if it is a random one whose lower bound is above the upper one,
/// and the error tells the two.
pub proof fn law_only_inverted_delays_are_refused(
    delay: Delay,
    checked: Result<(), InvertedDelay>,
)
    requires
        call_ensures(validate_delay, (delay,), checked),
    ensures
        checked is Err <==> delay is Random && delay->low > delay->high,
        checked is Err ==> checked->Err_0.low == delay->low && checked->Err_0.high == delay->high,
{
}

/// The words for a refused delay tell both bounds, each in decimal digits.
pub proof fn law_refused_delays_are_told_by_their_bounds(inverted: InvertedDelay, text: String)
    requires
        call_ensures(InvertedDelay::message, (&inverted,), text),
    ensures
        exists|low: Seq<char>, high: Seq<char>|
            {
                &&& digits_only(low) && #[trigger] value_of(low) == inverted.low
                &&& digits_only(high) && #[trigger] value_of(high) == inverted.high
                &&& text@ == "random delay lower bound "@ + low + " exceeds upper bound "@ + high
            },
{
    law_integers_read_back(inverted.low as int);
    law_integers_read_back(inverted.high as int);
    assert(value_of(int_text(inverted.low as int)) == inverted.low);
    assert(value_of(int_text(inverted.high as int)) == inverted.high);
}

/// A pause lasts as long as the delay says: none, so many milliseconds, so many seconds, or the
/// seconds that were drawn.
pub proof fn law_pauses_last_as_long_as_the_delay(delay: Delay, drawn: u64, pause: Pause)
    requires
        call_ensures(pause_drawn, (delay, drawn), pause),
    ensures
        delay is NoDelay ==> pause is NoPause,
        delay is ConstantMSecs ==> pause == Pause::Millis(delay->ConstantMSecs_0),
        delay is ConstantSecs ==> pause == Pause::Secs(delay->ConstantSecs_0),
        delay is Random ==> pause == Pause::Secs(drawn),
{
}

/// A pause that is drawn lies between the bounds of a random delay, and lasts as long as any other
/// delay says.
pub proof fn law_drawn_pauses_lie_between_the_bounds(delay: Delay, pause: Pause)
    requires
        call_ensures(pause_for, (delay,), pause),
    ensures
        delay is NoDelay ==> pause is NoPause,
        delay is ConstantMSecs ==> pause == Pause::Millis(delay->ConstantMSecs_0),
        delay is ConstantSecs ==> pause == Pause::Secs(delay->ConstantSecs_0),
        delay is Random ==> pause is Secs && delay->low <= pause->Secs_0 <= delay->high,
{
}

/// A pause can be drawn for every delay but a random one whose bounds are the wrong way round.
pub proof fn law_pauses_can_be_drawn(delay: Delay)
    requires
        !(delay is Random && delay->low > delay->high),
    ensures
        call_requires(pause_for, (delay,)),
{
}

/// A task is run as the configuration under its own label says, and no other.
pub proof fn law_tasks_are_configured_under_their_label(
    config: WatcherConfig,
    label: TaskLabel,
    found: Option<TaskConfig>,
)
    requires
        call_ensures(WatcherConfig::task_config, (&config, &label), found),
    ensures
        config.tasks@.contains_key(label@) ==> found == Some(config.tasks@[label@]),
        !config.tasks@.contains_key(label@) ==> found is None,
{
}

} // verus!
