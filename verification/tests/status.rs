use std::borrow::Cow;
use std::sync::Arc;
use std::time::Instant;
use task_watcher::clock::{Moment, TimeSpan, MAX_NANOS, MIN_NANOS};
use task_watcher::config::{Delay, TaskConfig, WatcherConfig};
use task_watcher::label_map::LabelMap;
use task_watcher::status::OutOfDateType;
use task_watcher::{
    NotifierConfig, ShortStatus, TaskCounts, TaskLabel, TaskResultValue, TaskStatus,
    WatcherAppContext,
};

const SECOND: i128 = 1_000_000_000;

struct App {
    alerts: bool,
}

impl WatcherAppContext for App {
    fn title(&self) -> String {
        "app".to_string()
    }
    fn environment(&self) -> Option<String> {
        None
    }
    fn build_version(&self) -> Option<String> {
        None
    }
    fn watcher_config(&self) -> WatcherConfig {
        WatcherConfig { retries: 0, delay_between_retries: 1, tasks: LabelMap::new() }
    }
    fn triggers_alert(&self, label: &TaskLabel, selected_label: Option<&TaskLabel>) -> bool {
        assert!(selected_label.is_none() || selected_label == Some(label));
        self.alerts
    }
    fn show_output(&self, _label: &TaskLabel) -> bool {
        false
    }
}

fn at(seconds: i128) -> Moment {
    Moment::new(seconds * SECOND, format!("t{seconds}")).unwrap()
}

fn status_with(value: TaskResultValue) -> TaskStatus {
    let mut status = TaskStatus::not_yet_run(at(0), None, None);
    status.last_result.value = Arc::new(value);
    status
}

#[test]
fn labels_keep_their_name() {
    let label = TaskLabel::new("fetch prices");
    assert_eq!(label.ident(), "fetch prices");
    assert_eq!(label.to_string(), "fetch prices");
    assert_eq!(TaskLabel::new(String::from("fetch prices")), label);
    assert_eq!(label.clone(), label);
    assert!(label.is_named(&TaskLabel::new("fetch prices")));
    assert!(!label.is_named(&TaskLabel::new("fetch")));
    let names = ["", "A", "a", "a ", "ab", "b", "\u{e000}", "\u{1f600}"];
    for x in names {
        for y in names {
            let (a, b) = (TaskLabel::new(x), TaskLabel::new(y));
            assert_eq!(a == b, x == y);
            assert_eq!(a.partial_cmp(&b), x.partial_cmp(y));
            assert_eq!(a.cmp(&b), x.cmp(y));
            assert_eq!(a < b, x < y);
        }
    }
}

#[test]
fn results_are_shown_as_text() {
    assert_eq!(TaskResultValue::Success(Cow::Borrowed("fine")).as_str(), "fine");
    assert_eq!(TaskResultValue::Failure("broken".to_string()).as_str(), "broken");
    assert_eq!(
        TaskResultValue::NotYetRun.as_str(),
        "Task has not yet completed a single run"
    );
    assert_eq!(TaskResultValue::Info(Cow::Owned("busy".to_string())).as_str(), "busy");
}

#[test]
fn only_info_is_info() {
    assert!(TaskResultValue::Info(Cow::Borrowed("busy")).is_info());
    assert!(!TaskResultValue::Success(Cow::Borrowed("fine")).is_info());
    assert!(!TaskResultValue::Failure("broken".to_string()).is_info());
    assert!(!TaskResultValue::NotYetRun.is_info());
}

#[test]
fn short_statuses_have_words_and_classes() {
    let table = [
        (ShortStatus::Error, "ERROR", true, "link-danger"),
        (ShortStatus::OutOfDateError, "ERROR DUE TO OUT OF DATE", true, "link-danger"),
        (ShortStatus::OutOfDate, "OUT OF DATE", false, "text-red-400"),
        (ShortStatus::ErrorNoAlert, "ERROR (no alert)", false, "text-red-400"),
        (ShortStatus::OutOfDateNoAlert, "OUT OF DATE (no alert)", false, "text-red-300"),
        (ShortStatus::Success, "SUCCESS", false, "link-success"),
        (ShortStatus::NotYetRun, "NOT YET RUN", false, "link-primary"),
        (ShortStatus::Info, "RUNNING", false, "link-primary"),
    ];
    for (i, (short, words, alert, class)) in table.iter().enumerate() {
        assert_eq!(short.as_str(), *words);
        assert_eq!(short.alert(), *alert);
        assert_eq!(short.css_class(), *class);
        assert_eq!(short.place() as usize, i);
    }
    for pair in table.windows(2) {
        assert!(pair[0].0 < pair[1].0);
    }
}

#[test]
fn a_new_status_has_counted_nothing() {
    assert_eq!(TaskCounts::default(), TaskCounts { successes: 0, retries: 0, errors: 0 });
    let status = TaskStatus::not_yet_run(at(5), Some(at(6)), Some(30));
    assert!(matches!(*status.last_result.value, TaskResultValue::NotYetRun));
    assert_eq!(status.last_result.updated.text(), "t5");
    assert_eq!(status.current_run_started.as_ref().unwrap().nanos(), 6 * SECOND);
    assert_eq!(status.out_of_date, Some(30));
    assert_eq!(status.counts, TaskCounts::default());
    assert!(status.last_retry_error.is_none());
    assert!(status.expire_last_result.is_none());
    assert!(status.last_run_seconds.is_none());
}

#[test]
fn background_and_periodic_tasks_begin_differently() {
    let background = TaskStatus::background();
    assert!(background.current_run_started.is_some());
    assert_eq!(background.out_of_date, None);
    // Some time after the year 2020, and written out with its time zone.
    assert!(background.last_result.updated.nanos() > 1_577_836_800 * SECOND);
    assert!(background.last_result.updated.text().contains('T'));
    assert!(background.last_result.updated.text().contains('['));
    let config = TaskConfig {
        delay: Delay::NoDelay,
        out_of_date: Some(40),
        retries: None,
        delay_between_retries: None,
    };
    let periodic = TaskStatus::periodic(&config);
    assert!(periodic.current_run_started.is_none());
    assert_eq!(periodic.out_of_date, Some(40));
}

#[test]
fn moments_have_a_range() {
    assert!(Moment::new(MIN_NANOS, String::new()).is_some());
    assert!(Moment::new(MAX_NANOS, String::new()).is_some());
    assert!(Moment::new(MIN_NANOS - 1, String::new()).is_none());
    assert!(Moment::new(MAX_NANOS + 1, String::new()).is_none());
    assert_eq!(MIN_NANOS, jiff::Timestamp::MIN.as_nanosecond());
    assert_eq!(MAX_NANOS, jiff::Timestamp::MAX.as_nanosecond());
}

#[test]
fn seconds_between_moments() {
    let from = |nanos: i128| Moment::new(nanos, String::new()).unwrap();
    assert_eq!(from(125 * SECOND).seconds_component_since(&at(0)), 5);
    assert_eq!(from(3661 * SECOND + 999_999_999).seconds_component_since(&at(0)), 1);
    assert_eq!(at(0).seconds_component_since(&at(125)), -5);
    assert_eq!(at(7).seconds_component_since(&at(7)), 0);
    assert_eq!(from(MAX_NANOS).seconds_component_since(&from(MIN_NANOS)), 1);
    assert_eq!(from(125 * SECOND).seconds_since(&at(0)), 125);
    assert_eq!(from(SECOND - 1).seconds_since(&at(0)), 0);
    assert_eq!(from(-SECOND + 1).seconds_since(&at(0)), 0);
    assert_eq!(at(0).seconds_since(&at(125)), -125);
    assert_eq!(from(MAX_NANOS).seconds_since(&from(MIN_NANOS)), 631_107_230_401);
}

#[test]
fn moments_pass() {
    assert!(at(0).passed_by(300, &at(300)));
    assert!(!at(0).passed_by(300, &at(299)));
    assert!(at(-20).passed_by(u32::MAX, &at(4_294_967_275)));
    assert!(!at(-20).passed_by(u32::MAX, &at(4_294_967_274)));
    let half = Moment::new(SECOND / 2, String::new()).unwrap();
    assert!(!half.passed_by(1, &at(1)));
    assert!(half.passed_by(1, &at(2)));
    let last = Moment::new(MAX_NANOS, String::new()).unwrap();
    assert!(last.can_add(0));
    assert!(!last.can_add(1));
    assert!(at(0).can_add(u32::MAX));
}

#[test]
fn run_time_in_words() {
    let mut status = status_with(TaskResultValue::NotYetRun);
    assert_eq!(status.total_run_time(), "Unknown");
    for (secs, words) in [
        (0, "0"),
        (9, "9"),
        (10, "10"),
        (1_234_567_890, "1234567890"),
        (-59, "-59"),
        (i64::MAX, "9223372036854775807"),
        (i64::MIN, "-9223372036854775808"),
    ] {
        status.last_run_seconds = Some(secs);
        assert_eq!(status.total_run_time(), words);
        assert_eq!(status.total_run_time(), secs.to_string());
    }
}

#[test]
fn a_run_goes_out_of_date() {
    let mut status = TaskStatus::not_yet_run(at(0), Some(at(100)), Some(60));
    assert_eq!(status.out_of_date_by(&at(159)), OutOfDateType::Not);
    assert_eq!(status.out_of_date_by(&at(160)), OutOfDateType::Slightly);
    assert_eq!(status.out_of_date_by(&at(399)), OutOfDateType::Slightly);
    assert_eq!(status.out_of_date_by(&at(400)), OutOfDateType::Very);
    // A run that may take longer than five minutes is very much out of date all the same.
    status.out_of_date = Some(600);
    assert_eq!(status.out_of_date_by(&at(399)), OutOfDateType::Not);
    assert_eq!(status.out_of_date_by(&at(400)), OutOfDateType::Very);
    status.out_of_date = None;
    assert_eq!(status.out_of_date_by(&at(400)), OutOfDateType::Not);
    status.out_of_date = Some(60);
    status.current_run_started = None;
    assert_eq!(status.out_of_date_by(&at(400)), OutOfDateType::Not);
}

#[test]
fn the_second_deadline_is_looked_at_only_where_the_first_has_not_passed() {
    let started = Moment::new(MAX_NANOS - 400 * SECOND, String::new()).unwrap();
    let now = Moment::new(MAX_NANOS - 50 * SECOND, String::new()).unwrap();
    let status = TaskStatus::not_yet_run(at(0), Some(started), Some(u32::MAX));
    assert_eq!(status.out_of_date_by(&now), OutOfDateType::Very);
}

#[test]
fn short_status_at_a_moment() {
    let zero = TimeSpan { secs: 0, nanos: 0 };
    let late = TimeSpan { secs: 2, nanos: 0 };
    let mut status = status_with(TaskResultValue::Success(Cow::Borrowed("fine")));
    status.current_run_started = Some(at(100));
    status.out_of_date = Some(60);
    assert_eq!(status.short_at(&at(159), late, true), ShortStatus::Success);
    assert_eq!(status.short_at(&at(160), zero, true), ShortStatus::OutOfDate);
    assert_eq!(status.short_at(&at(160), zero, false), ShortStatus::OutOfDateNoAlert);
    assert_eq!(status.short_at(&at(400), zero, true), ShortStatus::OutOfDateError);
    status.last_result.value = Arc::new(TaskResultValue::Failure("broken".to_string()));
    status.expire_last_result = Some((late, Instant::now()));
    assert_eq!(status.short_at(&at(400), zero, true), ShortStatus::Error);
    assert_eq!(status.short_at(&at(400), late, true), ShortStatus::ErrorNoAlert);
    assert_eq!(status.short_at(&at(400), zero, false), ShortStatus::ErrorNoAlert);
    status.last_result.value = Arc::new(TaskResultValue::NotYetRun);
    assert_eq!(status.short_at(&at(400), zero, true), ShortStatus::NotYetRun);
}

#[test]
fn a_run_that_began_long_ago_is_out_of_date_now() {
    let status = TaskStatus::not_yet_run(at(0), Some(at(0)), Some(60));
    assert_eq!(status.is_out_of_date(), OutOfDateType::Very);
    let status = TaskStatus::not_yet_run(at(0), Some(Moment::now()), Some(60));
    assert_eq!(status.is_out_of_date(), OutOfDateType::Not);
}

#[test]
fn deadlines_must_be_moments() {
    let last = Moment::new(MAX_NANOS, String::new()).unwrap();
    assert!(!TaskStatus::not_yet_run(at(0), Some(last.clone()), Some(0)).deadlines_fit());
    assert!(TaskStatus::not_yet_run(at(0), Some(last), None).deadlines_fit());
    let near = Moment::new(MAX_NANOS - 300 * SECOND, String::new()).unwrap();
    assert!(TaskStatus::not_yet_run(at(0), Some(near.clone()), Some(300)).deadlines_fit());
    assert!(!TaskStatus::not_yet_run(at(0), Some(near), Some(301)).deadlines_fit());
}

#[test]
fn only_what_may_be_out_of_date_needs_deadlines() {
    let last = Moment::new(MAX_NANOS, String::new()).unwrap();
    let mut status = TaskStatus::not_yet_run(at(0), Some(last), Some(0));
    assert!(status.is_tellable());
    let label = TaskLabel::new("fetch");
    assert_eq!(status.short(&App { alerts: true }, &label, None), ShortStatus::NotYetRun);
    status.last_result.value = Arc::new(TaskResultValue::Failure("broken".to_string()));
    assert!(status.is_tellable());
    assert_eq!(status.short(&App { alerts: true }, &label, None), ShortStatus::Error);
    status.last_result.value = Arc::new(TaskResultValue::Info(Cow::Borrowed("busy")));
    assert!(!status.is_tellable());
    status.out_of_date = None;
    assert!(status.is_tellable());
    assert_eq!(status.short(&App { alerts: true }, &label, None), ShortStatus::Info);
}

#[test]
fn results_expire() {
    let mut status = status_with(TaskResultValue::Failure("broken".to_string()));
    assert!(!status.is_expired());
    assert!(!status.is_expired_after(TimeSpan { secs: u64::MAX, nanos: 0 }));
    status.expire_last_result = Some((TimeSpan { secs: 2, nanos: 5 }, Instant::now()));
    assert!(!status.is_expired_after(TimeSpan { secs: 2, nanos: 4 }));
    assert!(status.is_expired_after(TimeSpan { secs: 2, nanos: 5 }));
    assert!(status.is_expired_after(TimeSpan { secs: 3, nanos: 0 }));
    assert!(!status.is_expired_after(TimeSpan { secs: 1, nanos: 999_999_999 }));
    status.expire_last_result = Some((TimeSpan { secs: 0, nanos: 0 }, Instant::now()));
    assert!(status.is_expired());
    status.expire_last_result = Some((TimeSpan { secs: 3600, nanos: 0 }, Instant::now()));
    assert!(!status.is_expired());
}

#[test]
fn short_status_of_every_result() {
    let ok = status_with(TaskResultValue::Success(Cow::Borrowed("fine")));
    let info = status_with(TaskResultValue::Info(Cow::Borrowed("busy")));
    let err = status_with(TaskResultValue::Failure("broken".to_string()));
    let none = status_with(TaskResultValue::NotYetRun);
    for expired in [false, true] {
        for (status, fresh) in [(&ok, ShortStatus::Success), (&info, ShortStatus::Info)] {
            assert_eq!(status.short_for(OutOfDateType::Not, true, expired), fresh);
            assert_eq!(status.short_for(OutOfDateType::Not, false, expired), fresh);
            assert_eq!(
                status.short_for(OutOfDateType::Slightly, true, expired),
                ShortStatus::OutOfDate
            );
            assert_eq!(
                status.short_for(OutOfDateType::Very, true, expired),
                ShortStatus::OutOfDateError
            );
            for late in [OutOfDateType::Slightly, OutOfDateType::Very] {
                assert_eq!(
                    status.short_for(late, false, expired),
                    ShortStatus::OutOfDateNoAlert
                );
            }
        }
        for late in [OutOfDateType::Not, OutOfDateType::Slightly, OutOfDateType::Very] {
            let shown = if expired { ShortStatus::ErrorNoAlert } else { ShortStatus::Error };
            assert_eq!(err.short_for(late, true, expired), shown);
            assert_eq!(err.short_for(late, false, expired), ShortStatus::ErrorNoAlert);
            assert_eq!(none.short_for(late, true, expired), ShortStatus::NotYetRun);
            assert_eq!(none.short_for(late, false, expired), ShortStatus::NotYetRun);
        }
    }
}

#[test]
fn the_application_decides_what_alerts() {
    let label = TaskLabel::new("fetch");
    let mut err = status_with(TaskResultValue::Failure("broken".to_string()));
    assert_eq!(err.short(&App { alerts: true }, &label, None), ShortStatus::Error);
    assert_eq!(
        err.short(&App { alerts: false }, &label, Some(&label)),
        ShortStatus::ErrorNoAlert
    );
    err.expire_last_result = Some((TimeSpan { secs: 0, nanos: 0 }, Instant::now()));
    assert_eq!(err.short(&App { alerts: true }, &label, None), ShortStatus::ErrorNoAlert);
    let mut ok = status_with(TaskResultValue::Success(Cow::Borrowed("fine")));
    assert_eq!(ok.short(&App { alerts: true }, &label, None), ShortStatus::Success);
    ok.current_run_started = Some(at(0));
    ok.out_of_date = Some(10);
    assert_eq!(ok.short(&App { alerts: true }, &label, None), ShortStatus::OutOfDateError);
}

#[test]
fn by_default_alerts_are_sent_nowhere() {
    let notifier: Option<NotifierConfig> = App { alerts: true }.notifier_config();
    assert!(notifier.is_none());
}

#[test]
fn a_heartbeat_changes_the_result_alone() {
    let mut status = TaskStatus::not_yet_run(at(0), Some(at(1)), Some(30));
    status.counts.successes = 4;
    status.set_info(Cow::Borrowed("busy"), at(2));
    assert!(status.last_result.value.is_info());
    assert_eq!(status.last_result.value.as_str(), "busy");
    assert_eq!(status.last_result.updated.text(), "t2");
    assert_eq!(status.counts.successes, 4);
    assert_eq!(status.current_run_started.as_ref().unwrap().text(), "t1");
    assert_eq!(status.out_of_date, Some(30));
    status.set_status("still busy");
    assert_eq!(status.last_result.value.as_str(), "still busy");
    assert!(status.last_result.updated.nanos() > 2 * SECOND);
    status.set_status(format!("step {}", 3));
    assert_eq!(status.last_result.value.as_str(), "step 3");
}

#[test]
fn a_cloned_status_is_the_same() {
    let mut status = TaskStatus::not_yet_run(at(3), Some(at(4)), Some(30));
    status.last_result.value = Arc::new(TaskResultValue::Info(Cow::Borrowed("busy")));
    status.last_run_seconds = Some(12);
    let copy = status.clone();
    assert_eq!(copy.last_result.value.as_str(), "busy");
    assert_eq!(copy.last_result.updated.text(), "t3");
    assert_eq!(copy.current_run_started.as_ref().unwrap().text(), "t4");
    assert_eq!(copy.out_of_date, Some(30));
    assert_eq!(copy.last_run_seconds, Some(12));
}
