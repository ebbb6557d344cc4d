use task_watcher::config::{
    pause_drawn, pause_for, Delay, InvertedDelay, Pause, TaskConfig, WatcherConfig,
};
use task_watcher::label_map::LabelMap;
use task_watcher::{retry_limit_reached, validate_delay, TaskLabel};

#[test]
fn configured_retries_are_additional_attempts() {
    assert!(retry_limit_reached(1, 0));
    assert!(!retry_limit_reached(1, 1));
    assert!(retry_limit_reached(2, 1));
    assert!(!retry_limit_reached(3, 3));
    assert!(retry_limit_reached(4, 3));
}

#[test]
fn rejects_inverted_random_delay_range() {
    assert!(validate_delay(Delay::Random { low: 5, high: 4 }).is_err());
    assert!(validate_delay(Delay::Random { low: 4, high: 5 }).is_ok());
}

#[test]
fn inverted_delay_is_told_in_words() {
    let error = validate_delay(Delay::Random { low: 50, high: 4 }).unwrap_err();
    assert_eq!(error, InvertedDelay { low: 50, high: 4 });
    assert_eq!(error.message(), "random delay lower bound 50 exceeds upper bound 4");
    let largest = InvertedDelay { low: u64::MAX, high: 0 };
    assert_eq!(
        largest.message(),
        "random delay lower bound 18446744073709551615 exceeds upper bound 0"
    );
}

#[test]
fn other_delays_are_valid() {
    assert!(validate_delay(Delay::NoDelay).is_ok());
    assert!(validate_delay(Delay::ConstantMSecs(0)).is_ok());
    assert!(validate_delay(Delay::ConstantSecs(7)).is_ok());
    assert!(validate_delay(Delay::Random { low: 3, high: 3 }).is_ok());
}

#[test]
fn pauses_follow_the_delay() {
    assert_eq!(pause_for(Delay::NoDelay), Pause::NoPause);
    assert_eq!(pause_for(Delay::ConstantMSecs(250)), Pause::Millis(250));
    assert_eq!(pause_for(Delay::ConstantSecs(60)), Pause::Secs(60));
    assert_eq!(pause_for(Delay::Random { low: 9, high: 9 }), Pause::Secs(9));
    assert_eq!(pause_drawn(Delay::Random { low: 1, high: 9 }, 4), Pause::Secs(4));
    assert_eq!(pause_drawn(Delay::ConstantSecs(60), 4), Pause::Secs(60));
}

#[test]
fn random_pauses_stay_between_the_bounds_and_vary() {
    let mut seen: Vec<u64> = Vec::new();
    for _ in 0..400 {
        match pause_for(Delay::Random { low: 10, high: 13 }) {
            Pause::Secs(secs) => {
                assert!((10..=13).contains(&secs));
                if !seen.contains(&secs) {
                    seen.push(secs);
                }
            }
            other => panic!("unexpected pause {other:?}"),
        }
    }
    assert_eq!(seen.len(), 4);
}

fn config_of(tasks: LabelMap<TaskConfig>) -> WatcherConfig {
    WatcherConfig { retries: 6, delay_between_retries: 20, tasks }
}

#[test]
fn tasks_are_configured_by_label() {
    let own = TaskConfig {
        delay: Delay::ConstantSecs(1),
        out_of_date: Some(180),
        retries: Some(2),
        delay_between_retries: Some(5),
    };
    let mut tasks = LabelMap::new();
    assert!(tasks.insert(TaskLabel::new("fetch"), own).is_none());
    let config = config_of(tasks);
    assert_eq!(config.task_config(&TaskLabel::new("fetch")), Some(own));
    assert_eq!(config.task_config(&TaskLabel::new("fetc")), None);
}

#[test]
fn a_task_overrides_the_general_retries() {
    let mut config = TaskConfig {
        delay: Delay::NoDelay,
        out_of_date: None,
        retries: Some(2),
        delay_between_retries: Some(5),
    };
    assert_eq!(config.max_retries(6), 2);
    assert_eq!(config.retry_delay(20), 5);
    config.retries = None;
    config.delay_between_retries = None;
    assert_eq!(config.max_retries(6), 6);
    assert_eq!(config.retry_delay(20), 20);
}

#[test]
fn a_label_is_mapped_once() {
    let mut map: LabelMap<u32> = LabelMap::new();
    assert_eq!(map.insert(TaskLabel::new("a"), 1), None);
    assert_eq!(map.insert(TaskLabel::new("b"), 2), None);
    assert_eq!(map.insert(TaskLabel::new("a"), 3), Some(1));
    assert_eq!(map.get(&TaskLabel::new("a")), Some(&3));
    assert_eq!(map.get(&TaskLabel::new("b")), Some(&2));
    assert_eq!(map.get(&TaskLabel::new("c")), None);
    let only = map.selected(Some(&TaskLabel::new("b")));
    assert_eq!(only.len(), 1);
    assert_eq!((only[0].0.ident(), *only[0].1), ("b", 2));
    assert_eq!(map.selected(None).len(), 2);
    assert!(map.selected(Some(&TaskLabel::new("c"))).is_empty());
    let mut entries: Vec<(String, u32)> =
        map.into_entries().into_iter().map(|(label, n)| (label.to_string(), n)).collect();
    entries.sort();
    assert_eq!(entries, vec![("a".to_string(), 3), ("b".to_string(), 2)]);
}
