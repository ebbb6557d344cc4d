//! What an application tells the watcher about itself.

use crate::config::WatcherConfig;
use crate::label::TaskLabel;
use crate::slack::NotifierConfig;
use vstd::prelude::*;

verus! {

/// The application that the watched tasks belong to.
pub trait WatcherAppContext {
    /// The name of the application.
    fn title(&self) -> String;

    /// The environment that it runs in.
    fn environment(&self) -> Option<String>;

    /// The version that it was built from.
    fn build_version(&self) -> Option<String>;

    /// How its tasks are run.
    fn watcher_config(&self) -> WatcherConfig;

    /// Whether a failure of the task `label` is worth an alert, when `selected_label` is the only
    /// task that is looked at.
    fn triggers_alert(&self, label: &TaskLabel, selected_label: Option<&TaskLabel>) -> bool;

    /// Where alerts are sent.
    fn notifier_config(&self) -> (notifier: Option<NotifierConfig>)
        default_ensures
            notifier is None,
    {
        None
    }

    /// Whether the output of the task `label` is worth logging.
    fn show_output(&self, label: &TaskLabel) -> bool;
}

} // verus!
