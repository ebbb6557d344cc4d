use std::borrow::Cow;
use std::sync::Arc;
use std::time::Instant;
use task_watcher::clock::{Moment, TimeSpan};
use task_watcher::config::{Delay, Pause, TaskConfig, WatcherConfig};
use task_watcher::label_map::LabelMap;
use task_watcher::periodic::{timeout_error, Completion, NextRun, PeriodicTask, MAX_TASK_SECONDS};
use task_watcher::registry::{
    background_task_failed, config_missing, task_failed, twice_message, WatchError, Watcher,
};
use task_watcher::{
    Alert, TaskLabel, TaskResultValue, TaskStatus, WatchedTaskOutput, WatcherAppContext,
};

const SECOND: i128 = 1_000_000_000;

struct App {
    alerts: bool,
    retries: usize,
}

impl WatcherAppContext for App {
    fn title(&self) -> String {
        "app".to_string()
    }
    fn environment(&self) -> Option<String> {
        None
    }
    fn build_version(&self) -> Option<String> {
        None
    }
    fn watcher_config(&self) -> WatcherConfig {
        WatcherConfig { retries: self.retries, delay_between_retries: 20, tasks: LabelMap::new() }
    }
    fn triggers_alert(&self, label: &TaskLabel, selected_label: Option<&TaskLabel>) -> bool {
        assert_eq!(label.ident(), "fetch");
        assert!(selected_label.is_none());
        self.alerts
    }
    fn show_output(&self, _label: &TaskLabel) -> bool {
        false
    }
}

fn at(seconds: i128) -> Moment {
    Moment::new(seconds * SECOND, format!("t{seconds}")).unwrap()
}

fn config(delay: Delay) -> TaskConfig {
    TaskConfig { delay, out_of_date: Some(60), retries: None, delay_between_retries: None }
}

fn task() -> PeriodicTask {
    PeriodicTask::new(TaskLabel::new("fetch"), config(Delay::ConstantSecs(30))).unwrap()
}

fn status_with(value: TaskResultValue) -> TaskStatus {
    let mut status = TaskStatus::not_yet_run(at(0), None, None);
    status.last_result.value = Arc::new(value);
    status
}

fn ok() -> TaskResultValue {
    TaskResultValue::Success(Cow::Borrowed("fine"))
}

fn err() -> TaskResultValue {
    TaskResultValue::Failure("broken".to_string())
}

fn info() -> TaskResultValue {
    TaskResultValue::Info(Cow::Borrowed("busy"))
}

fn alert_text(completion: &Completion) -> String {
    match &completion.alert {
        None => "none".to_string(),
        Some(Alert::Down { task, error }) => format!("down {} {}", task.ident(), error),
        Some(Alert::Recovered { task, old_error, new_message }) => {
            format!("recovered {} {} {}", task.ident(), old_error, new_message)
        }
        Some(Alert::FirstFailure { task, error }) => {
            format!("first {} {}", task.ident(), error)
        }
    }
}

fn end_with_output(value: TaskResultValue, error: bool, triggers: bool) -> (Completion, TaskStatus) {
    let mut status = status_with(value);
    let mut task = task();
    task.begin_run_at(&mut status, at(100));
    let mut output = WatchedTaskOutput::new("new");
    if error {
        output = output.set_error();
    }
    let completion = task.record_output(&mut status, output, triggers, at(165), at(166));
    (completion, status)
}

fn end_with_failure(value: TaskResultValue, triggers: bool) -> (Completion, TaskStatus) {
    let mut status = status_with(value);
    let mut task = task();
    task.begin_run_at(&mut status, at(100));
    let completion =
        task.record_failure(&mut status, "new".to_string(), 0, triggers, at(165), at(166));
    (completion, status)
}

#[test]
fn a_run_begins() {
    let mut status = status_with(ok());
    status.counts.successes = 3;
    status.last_run_seconds = Some(8);
    let mut task = task();
    task.begin_run_at(&mut status, at(100));
    assert_eq!(status.current_run_started.as_ref().unwrap().text(), "t100");
    assert_eq!(status.out_of_date, Some(60));
    assert_eq!(status.last_result.value.as_str(), "fine");
    assert_eq!(status.counts.successes, 3);
    assert_eq!(status.last_run_seconds, Some(8));
    task.begin_run(&mut status);
    assert!(status.current_run_started.as_ref().unwrap().nanos() > 100 * SECOND);
    assert_eq!(task.label().ident(), "fetch");
}

#[test]
fn a_successful_run_is_shown() {
    let (completion, status) = end_with_output(TaskResultValue::NotYetRun, false, true);
    assert!(matches!(*status.last_result.value, TaskResultValue::Success(_)));
    assert_eq!(status.last_result.value.as_str(), "new");
    assert_eq!(status.last_result.updated.text(), "t166");
    assert!(status.current_run_started.is_none());
    assert!(status.last_retry_error.is_none());
    assert!(status.expire_last_result.is_none());
    assert_eq!(status.out_of_date, Some(60));
    assert_eq!((status.counts.successes, status.counts.retries, status.counts.errors), (1, 0, 0));
    // The seconds beyond the last whole minute.
    assert_eq!(status.last_run_seconds, Some(5));
    assert_eq!(completion.next, NextRun::AfterDelay);
    assert_eq!(alert_text(&completion), "none");
}

#[test]
fn a_run_that_never_began_has_no_length() {
    let mut status = status_with(ok());
    let mut task = task();
    task.record_output(&mut status, WatchedTaskOutput::new("x"), true, at(1), at(1));
    assert_eq!(status.last_run_seconds, None);
}

#[test]
fn outputs_alert_on_changes() {
    let table = [
        (ok(), true, "down fetch new"),
        (ok(), false, "none"),
        (err(), true, "none"),
        (err(), false, "recovered fetch broken new"),
        (TaskResultValue::NotYetRun, true, "first fetch new"),
        (TaskResultValue::NotYetRun, false, "none"),
        (info(), true, "first fetch new"),
        (info(), false, "none"),
    ];
    for (value, error, expected) in table {
        let (completion, status) = end_with_output(value.clone(), error, true);
        assert_eq!(alert_text(&completion), expected);
        assert_eq!(matches!(*status.last_result.value, TaskResultValue::Failure(_)), error);
        let (completion, _) = end_with_output(value, error, false);
        assert_eq!(alert_text(&completion), "none");
    }
}

#[test]
fn failures_alert_on_changes() {
    let table = [
        (ok(), "down fetch new"),
        (err(), "none"),
        (TaskResultValue::Failure("new".to_string()), "none"),
        (TaskResultValue::NotYetRun, "first fetch new"),
        (info(), "first fetch new"),
    ];
    for (value, expected) in table {
        let (completion, status) = end_with_failure(value.clone(), true);
        assert_eq!(alert_text(&completion), expected);
        assert_eq!(completion.next, NextRun::AfterFailure);
        assert!(matches!(*status.last_result.value, TaskResultValue::Failure(_)));
        assert_eq!(status.last_result.value.as_str(), "new");
        assert_eq!(status.last_run_seconds, Some(5));
        assert_eq!(status.counts.errors, 1);
        let (completion, _) = end_with_failure(value, false);
        assert_eq!(alert_text(&completion), "none");
    }
}

#[test]
fn an_error_output_counts_as_an_error() {
    let (_, status) = end_with_output(ok(), true, true);
    assert_eq!((status.counts.successes, status.counts.retries, status.counts.errors), (0, 0, 1));
    assert!(matches!(*status.last_result.value, TaskResultValue::Failure(_)));
}

#[test]
fn outputs_carry_their_expiry_and_skip_the_delay() {
    let mut status = status_with(ok());
    let mut task = task();
    let output = WatchedTaskOutput::new(String::from("broken"))
        .set_error()
        .set_expiry(TimeSpan { secs: 90, nanos: 1 })
        .skip_delay();
    assert!(output.is_error());
    assert_eq!(output.message(), "broken");
    let completion = task.record_output(&mut status, output, true, at(1), at(1));
    assert_eq!(completion.next, NextRun::AtOnce);
    assert_eq!(status.expire_last_result.unwrap().0, TimeSpan { secs: 90, nanos: 1 });
    assert!(!status.is_expired());
    let completion =
        task.record_failure(&mut status, "worse".to_string(), 0, true, at(2), at(2));
    assert_eq!(completion.next, NextRun::AfterFailure);
    assert!(status.expire_last_result.is_none());
}

#[test]
fn an_expiry_counts_from_the_instant_it_is_set() {
    let early = Instant::now();
    let late = Instant::now();
    let mut status = status_with(ok());
    let mut task = task();
    let (short, long) = (TimeSpan { secs: 1, nanos: 0 }, TimeSpan { secs: 9, nanos: 0 });
    let output = WatchedTaskOutput::new("x").set_expiry_at(long, early).set_expiry_at(short, late);
    assert!(!output.is_error());
    task.record_output(&mut status, output, true, at(1), at(1));
    assert_eq!(status.expire_last_result, Some((short, late)));
    let before = Instant::now();
    let output = WatchedTaskOutput::new("x").set_expiry_at(long, early).set_expiry(short);
    task.record_output(&mut status, output, true, at(1), at(1));
    let (span, set) = status.expire_last_result.unwrap();
    assert_eq!(span, short);
    assert!(before <= set && set <= Instant::now());
}

#[test]
fn a_failing_task_is_retried_before_it_is_reported() {
    let mut status = status_with(ok());
    let mut task = task();
    for round in 0..2 {
        for attempt in 0..3 {
            task.begin_run_at(&mut status, at(100));
            let error = format!("error {attempt}");
            let completion = task.record_failure(&mut status, error, 3, true, at(101), at(102));
            assert_eq!(alert_text(&completion), "none");
            assert_eq!(status.counts.retries, round * 3 + attempt + 1);
            assert_eq!(status.counts.errors, round);
            let retry_error = status.last_retry_error.as_ref().unwrap();
            assert_eq!(retry_error.value.as_str(), format!("error {attempt}"));
            assert_eq!(retry_error.updated.text(), "t102");
            assert!(status.current_run_started.is_none());
            let shown = if round == 0 { "fine" } else { "final" };
            assert_eq!(status.last_result.value.as_str(), shown);
        }
        task.begin_run_at(&mut status, at(100));
        let completion =
            task.record_failure(&mut status, "final".to_string(), 3, true, at(101), at(103));
        let expected = if round == 0 { "down fetch final" } else { "none" };
        assert_eq!(alert_text(&completion), expected);
        assert_eq!(status.counts.errors, round + 1);
        assert!(status.last_retry_error.is_none());
        assert_eq!(status.last_result.value.as_str(), "final");
        assert_eq!(status.last_result.updated.text(), "t103");
    }
    // A success tells the error that was reported, and starts the row of attempts anew.
    task.begin_run_at(&mut status, at(200));
    task.record_failure(&mut status, "once".to_string(), 3, true, at(201), at(201));
    task.begin_run_at(&mut status, at(202));
    let completion =
        task.record_output(&mut status, WatchedTaskOutput::new("up"), true, at(203), at(203));
    assert_eq!(alert_text(&completion), "recovered fetch final up");
    for _ in 0..3 {
        task.begin_run_at(&mut status, at(204));
        task.record_failure(&mut status, "again".to_string(), 3, true, at(205), at(205));
        assert_eq!(status.last_result.value.as_str(), "up");
    }
    assert_eq!((status.counts.successes, status.counts.retries, status.counts.errors), (1, 10, 2));
}

#[test]
fn counts_are_those_from_the_beginning_of_the_run() {
    let mut status = status_with(ok());
    let mut task = task();
    status.counts.successes = 5;
    task.begin_run_at(&mut status, at(1));
    status.counts.successes = 50;
    task.record_output(&mut status, WatchedTaskOutput::new("x"), true, at(2), at(2));
    assert_eq!(status.counts.successes, 6);
}

#[test]
fn the_application_completes_runs() {
    let app = App { alerts: true, retries: 1 };
    let mut status = status_with(ok());
    let mut task = task();
    task.begin_run(&mut status);
    let failed: Result<WatchedTaskOutput, String> = Err("oops".to_string());
    assert!(task.has_room(&failed));
    let completion = task.complete(&mut status, failed, &app);
    assert_eq!(alert_text(&completion), "none");
    assert_eq!(task.pause(completion.next, &app), Pause::Secs(20));
    task.begin_run(&mut status);
    let completion = task.complete(&mut status, Err("oops".to_string()), &app);
    assert_eq!(alert_text(&completion), "down fetch oops");
    task.begin_run(&mut status);
    let completion = task.complete(&mut status, Ok(WatchedTaskOutput::new("up")), &app);
    assert_eq!(alert_text(&completion), "recovered fetch oops up");
    assert_eq!(task.pause(completion.next, &app), Pause::Secs(30));
    task.begin_run(&mut status);
    let output = WatchedTaskOutput::new("up").skip_delay();
    let completion = task.complete(&mut status, Ok(output), &app);
    assert_eq!(task.pause(completion.next, &app), Pause::NoPause);
    let muted = App { alerts: false, retries: 0 };
    task.begin_run(&mut status);
    let completion = task.complete(&mut status, Err("oops".to_string()), &muted);
    assert_eq!(alert_text(&completion), "none");
    assert_eq!(status.last_result.value.as_str(), "oops");
}

#[test]
fn a_task_may_say_how_it_is_retried() {
    let app = App { alerts: true, retries: 9 };
    let own = TaskConfig {
        delay: Delay::NoDelay,
        out_of_date: None,
        retries: Some(0),
        delay_between_retries: Some(3),
    };
    let mut task = PeriodicTask::new(TaskLabel::new("fetch"), own).unwrap();
    let mut status = status_with(ok());
    task.begin_run(&mut status);
    let completion = task.complete(&mut status, Err("oops".to_string()), &app);
    assert_eq!(alert_text(&completion), "down fetch oops");
    assert_eq!(task.pause(completion.next, &app), Pause::Secs(3));
    assert_eq!(task.pause(NextRun::AfterDelay, &app), Pause::NoPause);
    assert_eq!(task.time_limit(), None);
}

#[test]
fn full_counters_leave_no_room() {
    let mut status = status_with(ok());
    status.counts.successes = usize::MAX;
    let mut task = task();
    task.begin_run_at(&mut status, at(1));
    assert!(!task.has_room(&Ok(WatchedTaskOutput::new("x"))));
    assert!(task.has_room(&Ok(WatchedTaskOutput::new("x").set_error())));
    assert!(task.has_room(&Err("x".to_string())));
}

#[test]
fn runs_that_can_go_out_of_date_are_given_up() {
    assert_eq!(MAX_TASK_SECONDS, 180);
    assert_eq!(task().time_limit(), Some(180));
    assert_eq!(
        timeout_error("deadline has elapsed"),
        "Running a single task took too long, killing. Elapsed time: deadline has elapsed"
    );
}

#[test]
fn a_periodic_task_needs_a_valid_delay() {
    let delay = Delay::Random { low: 5, high: 4 };
    let error = PeriodicTask::new(TaskLabel::new("fetch"), config(delay)).err().unwrap();
    assert_eq!((error.low, error.high), (5, 4));
}

#[test]
fn labels_are_registered_once() {
    let mut watcher: Watcher<u32> = Watcher::new();
    assert!(watcher.watch_background_with_status(TaskLabel::new("a"), 1).is_ok());
    let error = watcher.watch_background_with_status(TaskLabel::new("a"), 2).unwrap_err();
    assert!(matches!(&error, WatchError::TwoTasks(label) if label.ident() == "a"));
    assert_eq!(error.message(), "Two tasks with label TaskLabel(\"a\")");

    let mut tasks = LabelMap::new();
    tasks.insert(TaskLabel::new("a"), config(Delay::NoDelay));
    tasks.insert(TaskLabel::new("b \"q\"\n"), config(Delay::NoDelay));
    tasks.insert(TaskLabel::new("c"), config(Delay::Random { low: 2, high: 1 }));
    let config = WatcherConfig { retries: 1, delay_between_retries: 1, tasks };
    let error = watcher.watch_periodic(&config, TaskLabel::new("a"), 3).err().unwrap();
    assert_eq!(error.message(), "Two periodic tasks with label TaskLabel(\"a\")");
    let odd = TaskLabel::new("b \"q\"\n");
    assert!(watcher.watch_periodic(&config, odd.clone(), 4).is_ok());
    let error = watcher.watch_periodic(&config, odd.clone(), 5).err().unwrap();
    assert_eq!(error.message(), format!("Two periodic tasks with label {odd:?}"));
    let error = watcher.watch_periodic(&config, TaskLabel::new("c"), 6).err().unwrap();
    assert_eq!(error.message(), "random delay lower bound 2 exceeds upper bound 1");

    let statuses = watcher.into_statuses(at(7));
    assert_eq!(statuses.started().text(), "t7");
    let mut handles: Vec<u32> = statuses.selected(None).iter().map(|(_, h)| **h).collect();
    handles.sort();
    // A label that is registered again leads to the newer handle.
    assert_eq!(handles, vec![3, 5]);
    assert_eq!(statuses.selected(Some(&TaskLabel::new("a"))).len(), 1);
    assert_eq!(statuses.selected(Some(&TaskLabel::new("c"))).len(), 0);
}

#[test]
fn a_label_that_occurs_twice_is_told() {
    assert_eq!(twice_message("Two tasks", "<a>"), "Two tasks with label TaskLabel(<a>)");
}

/// One run of a task: it reports if asked to, and ends in a success, an error output or a failure.
fn run(task: &mut PeriodicTask, status: &mut TaskStatus, report: bool, end: char) -> String {
    task.begin_run_at(status, at(100));
    if report {
        status.set_info(Cow::Borrowed("busy"), at(101));
    }
    let completion = if end == 'f' {
        task.record_failure(status, "f".to_string(), 0, true, at(102), at(102))
    } else {
        let mut output = WatchedTaskOutput::new("o");
        if end == 'e' {
            output = output.set_error();
        }
        task.record_output(status, output, true, at(102), at(102))
    };
    alert_text(&completion)
}

#[test]
fn a_first_failure_is_told_once() {
    for end in ['e', 'f'] {
        let mut status = status_with(TaskResultValue::NotYetRun);
        let mut task = task();
        let text = if end == 'e' { "o" } else { "f" };
        let first = run(&mut task, &mut status, false, end);
        assert_eq!(first, format!("first fetch {text}"));
        // It keeps failing, whatever it reports while it runs.
        assert_eq!(run(&mut task, &mut status, true, end), "none");
        assert_eq!(run(&mut task, &mut status, false, end), "none");
        assert_eq!(run(&mut task, &mut status, true, end), "none");
        // After a success a failure is news again, but no longer a first one.
        assert_eq!(run(&mut task, &mut status, true, 's'), "none");
        let again = run(&mut task, &mut status, true, end);
        assert_eq!(again, format!("down fetch {text}"));
        assert_eq!(run(&mut task, &mut status, true, end), "none");
    }
}

#[test]
fn a_first_failure_may_follow_successes_and_reports() {
    let mut status = status_with(TaskResultValue::NotYetRun);
    let mut task = task();
    assert_eq!(run(&mut task, &mut status, true, 's'), "none");
    assert_eq!(run(&mut task, &mut status, true, 'f'), "first fetch f");
    assert_eq!(run(&mut task, &mut status, false, 's'), "recovered fetch f o");
    assert_eq!(run(&mut task, &mut status, false, 'e'), "down fetch o");
}

#[test]
fn a_failure_that_was_not_told_is_a_first_one_all_the_same() {
    let mut status = status_with(TaskResultValue::NotYetRun);
    let mut task = task();
    task.begin_run_at(&mut status, at(100));
    let muted = task.record_failure(&mut status, "f".to_string(), 0, false, at(101), at(101));
    assert_eq!(alert_text(&muted), "none");
    assert_eq!(run(&mut task, &mut status, true, 'f'), "none");
}

#[test]
fn a_failure_that_is_tried_again_is_not_reported() {
    let mut status = status_with(TaskResultValue::NotYetRun);
    let mut task = task();
    task.begin_run_at(&mut status, at(100));
    let retried = task.record_failure(&mut status, "f".to_string(), 1, true, at(101), at(101));
    assert_eq!(alert_text(&retried), "none");
    assert_eq!(run(&mut task, &mut status, true, 'f'), "first fetch f");
}

#[test]
fn alerts_of_failure_and_recovery_alternate() {
    let mut status = status_with(TaskResultValue::NotYetRun);
    let mut task = task();
    let mut alerts = Vec::new();
    // A letter per run: success, error output, or failure, with one retry for failures.
    for (i, run) in "ssffffsefssffesfs".chars().enumerate() {
        task.begin_run_at(&mut status, at(i as i128));
        let completion = if run == 'f' {
            task.record_failure(&mut status, "f".to_string(), 1, true, at(900), at(900))
        } else {
            let mut output = WatchedTaskOutput::new("o");
            if run == 'e' {
                output = output.set_error();
            }
            task.record_output(&mut status, output, true, at(900), at(900))
        };
        if completion.alert.is_some() {
            alerts.push(alert_text(&completion));
        }
    }
    let expected = [
        "down fetch f",
        "recovered fetch f o",
        "down fetch o",
        "recovered fetch o o",
        "down fetch f",
        "recovered fetch o o",
    ];
    assert_eq!(alerts, expected);
    let counts = status.counts;
    assert_eq!(counts.successes + counts.retries + counts.errors, 17);
    assert_eq!((counts.successes, counts.retries, counts.errors), (7, 5, 5));
}

#[test]
fn failed_tasks_are_named() {
    let label = TaskLabel::new("fetch");
    assert_eq!(task_failed(&label), "Task failed: fetch");
    assert_eq!(background_task_failed(&label), "Background task failed: fetch");
    assert_eq!(config_missing(&label), "all tasks in TaskLabel must have a config: fetch");
}
