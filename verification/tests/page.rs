use std::borrow::Cow;
use std::sync::Arc;
use task_watcher::clock::Moment;
use task_watcher::config::WatcherConfig;
use task_watcher::label_map::LabelMap;
use task_watcher::page::{
    any_alert, page_status, statuses, statuses_text, to_template, uptime, RenderedStatus,
    ResponseBuilder, StatusTemplate,
};
use task_watcher::{
    ShortStatus, TaskError, TaskLabel, TaskResultValue, TaskStatus, WatcherAppContext,
};

const SECOND: i128 = 1_000_000_000;

struct App {
    environment: Option<String>,
}

impl WatcherAppContext for App {
    fn title(&self) -> String {
        "My App".to_string()
    }
    fn environment(&self) -> Option<String> {
        self.environment.clone()
    }
    fn build_version(&self) -> Option<String> {
        Some("0123456789".to_string())
    }
    fn watcher_config(&self) -> WatcherConfig {
        WatcherConfig { retries: 0, delay_between_retries: 1, tasks: LabelMap::new() }
    }
    fn triggers_alert(&self, label: &TaskLabel, _selected: Option<&TaskLabel>) -> bool {
        !label.ident().starts_with("muted")
    }
    fn show_output(&self, _label: &TaskLabel) -> bool {
        false
    }
}

fn at(seconds: i128) -> Moment {
    Moment::new(seconds * SECOND, format!("t{seconds}")).unwrap()
}

fn status_with(value: TaskResultValue) -> TaskStatus {
    let mut status = TaskStatus::not_yet_run(at(0), None, None);
    status.last_result.value = Arc::new(value);
    status
}

fn ok() -> TaskStatus {
    status_with(TaskResultValue::Success(Cow::Borrowed("fine")))
}

fn err() -> TaskStatus {
    status_with(TaskResultValue::Failure("broken".to_string()))
}

fn tasks() -> LabelMap<TaskStatus> {
    let mut map = LabelMap::new();
    map.insert(TaskLabel::new("zeta"), ok());
    map.insert(TaskLabel::new("muted"), err());
    map.insert(TaskLabel::new("Beta"), err());
    map.insert(TaskLabel::new("alpha"), err());
    map.insert(TaskLabel::new("new"), status_with(TaskResultValue::NotYetRun));
    map.insert(TaskLabel::new("alphabet"), ok());
    map.insert(TaskLabel::new("busy"), status_with(TaskResultValue::Info(Cow::Borrowed("b"))));
    map
}

fn lines(listing: &[RenderedStatus]) -> Vec<(String, ShortStatus)> {
    listing.iter().map(|r| (r.label.to_string(), r.short)).collect()
}

fn app() -> App {
    App { environment: None }
}

#[test]
fn uptime_in_words() {
    let table = [
        (-1, "In the future"),
        (i64::MIN, "In the future"),
        (0, "just now"),
        (1, "1s"),
        (59, "59s"),
        (60, "1m"),
        (61, "1m 1s"),
        (3600, "1h"),
        (3605, "1h 5s"),
        (86_399, "23h 59m 59s"),
        (86_400, "1d"),
        (90_061, "1d 1h 1m 1s"),
        (8_640_060, "100d 1m"),
    ];
    for (secs, words) in table {
        assert_eq!(uptime(secs), words);
    }
}

#[test]
fn different_uptimes_read_differently() {
    let mut seen = std::collections::HashSet::new();
    for secs in (0..100_000).chain((86_400 * 10 - 70)..(86_400 * 11)) {
        assert!(seen.insert(uptime(secs)), "{secs}");
    }
}

#[test]
fn uptime_of_an_application() {
    let up = |since: Moment, now: Moment| {
        StatusTemplate::new(Vec::new(), None, None, "t".to_string(), since, now).live_since_human()
    };
    assert_eq!(up(at(0), at(90_061)), "1d 1h 1m 1s");
    assert_eq!(up(at(0), Moment::new(SECOND - 1, String::new()).unwrap()), "just now");
    assert_eq!(up(Moment::new(1, String::new()).unwrap(), at(0)), "just now");
    assert_eq!(up(at(1), at(0)), "In the future");
}

#[test]
fn statuses_are_listed_in_order() {
    let listing = statuses(&app(), tasks(), None);
    let expected = [
        ("Beta", ShortStatus::Error),
        ("alpha", ShortStatus::Error),
        ("muted", ShortStatus::ErrorNoAlert),
        ("alphabet", ShortStatus::Success),
        ("zeta", ShortStatus::Success),
        ("new", ShortStatus::NotYetRun),
        ("busy", ShortStatus::Info),
    ];
    let expected: Vec<(String, ShortStatus)> =
        expected.iter().map(|(label, short)| (label.to_string(), *short)).collect();
    assert_eq!(lines(&listing), expected);
    let mut sorted = lines(&listing);
    sorted.sort_by_key(|(label, short)| (*short, label.clone()));
    assert_eq!(sorted, expected);
}

#[test]
fn labels_are_ordered_like_strings() {
    let labels = ["b", "a\u{10ffff}", "a", "", "ab", "a\u{e000}", "é", "z", "a\u{1f600}", "A"];
    let mut map = LabelMap::new();
    for label in labels {
        map.insert(TaskLabel::new(label), ok());
    }
    let mut sorted = labels.to_vec();
    sorted.sort();
    let listed: Vec<String> =
        statuses(&app(), map, None).iter().map(|r| r.label.to_string()).collect();
    assert_eq!(listed, sorted);
}

#[test]
fn one_task_can_be_selected() {
    let label = TaskLabel::new("muted");
    let listing = statuses(&app(), tasks(), Some(&label));
    assert_eq!(lines(&listing), vec![("muted".to_string(), ShortStatus::ErrorNoAlert)]);
    assert!(statuses(&app(), tasks(), Some(&TaskLabel::new("none"))).is_empty());
}

#[test]
fn the_page_alerts_if_any_task_does() {
    assert_eq!(page_status(true), 500);
    assert_eq!(page_status(false), 200);
    assert!(any_alert(&statuses(&app(), tasks(), None)));
    assert!(!any_alert(&statuses(&app(), tasks(), Some(&TaskLabel::new("muted")))));
    assert!(!any_alert(&Vec::new()));
    let template = to_template(&app(), tasks(), None, at(5));
    assert!(template.alert);
    assert_eq!(template.status(), 500);
    let quiet = to_template(&app(), tasks(), Some(&TaskLabel::new("zeta")), at(5));
    assert!(!quiet.alert);
    assert_eq!(quiet.status(), 200);
}

#[test]
fn the_page_tells_what_it_is_about() {
    let template = to_template(&app(), tasks(), None, at(5));
    assert_eq!(template.env, "Unknown");
    assert_eq!(template.build_version, "0123456789");
    assert_eq!(template.title, "My App");
    assert_eq!(template.live_since.text(), "t5");
    assert!(template.now.nanos() > 5 * SECOND);
    assert_eq!(template.statuses.len(), 7);
    let placed = App { environment: Some("testnet".to_string()) };
    assert_eq!(to_template(&placed, tasks(), None, at(5)).env, "testnet");
}

#[test]
fn a_task_is_written_out_in_full() {
    let mut status = err();
    status.current_run_started = Some(at(77));
    status.last_run_seconds = Some(-3);
    status.last_retry_error =
        Some(TaskError { value: Arc::new("no luck".to_string()), updated: at(1) });
    let rendered =
        RenderedStatus { label: TaskLabel::new("fetch"), status, short: ShortStatus::Error };
    let mut builder = ResponseBuilder::new();
    builder.add(&rendered);
    let response = builder.into_response();
    assert_eq!(response.status, 200);
    assert_eq!(
        response.body,
        "# fetch. Status: ERROR\n\
         Currently running, started at t77\n\
         Last run took -3 seconds\n\
         \n\
         broken\n\
         \n\
         \n\
         Currently retrying, last attempt failed with:\n\
         \n\
         no luck\n\
         \n\
         \n"
    );
}

#[test]
fn the_plain_text_page() {
    let listing = statuses(&app(), tasks(), Some(&TaskLabel::new("zeta")));
    let response = statuses_text(&listing);
    assert_eq!(response.status, 200);
    assert_eq!(response.body, "# zeta. Status: SUCCESS\n\nfine\n\n\n");
    let mut map = LabelMap::new();
    map.insert(TaskLabel::new("b"), status_with(TaskResultValue::NotYetRun));
    map.insert(TaskLabel::new("a"), err());
    let response = statuses_text(&statuses(&app(), map, None));
    assert_eq!(response.status, 500);
    assert_eq!(
        response.body,
        "# a. Status: ERROR\n\nbroken\n\n\n\
         # b. Status: NOT YET RUN\n\nTask has not yet completed a single run\n\n\n"
    );
    let empty = statuses_text(&Vec::new());
    assert_eq!((empty.status, empty.body.as_str()), (200, ""));
}

#[test]
fn a_cloned_rendering_is_the_same() {
    let rendered =
        RenderedStatus { label: TaskLabel::new("a"), status: ok(), short: ShortStatus::Success };
    let copy = rendered.clone();
    assert_eq!(copy.label, rendered.label);
    assert_eq!(copy.status.last_result.value.as_str(), "fine");
    assert_eq!(copy.short, ShortStatus::Success);
}
