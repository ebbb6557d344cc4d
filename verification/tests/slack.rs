use serde_json::Value;
use task_watcher::config::WatcherConfig;
use task_watcher::json::Json;
use task_watcher::label_map::LabelMap;
use task_watcher::slack::{context_line, notification, NotifierConfig, SlackConfig};
use task_watcher::{Alert, TaskLabel, WatcherAppContext};

struct App {
    notifier: Option<NotifierConfig>,
}

impl WatcherAppContext for App {
    fn title(&self) -> String {
        "My App".to_string()
    }
    fn environment(&self) -> Option<String> {
        Some("testnet".to_string())
    }
    fn build_version(&self) -> Option<String> {
        Some("0123456789abcdef".to_string())
    }
    fn watcher_config(&self) -> WatcherConfig {
        WatcherConfig { retries: 0, delay_between_retries: 1, tasks: LabelMap::new() }
    }
    fn triggers_alert(&self, _label: &TaskLabel, _selected: Option<&TaskLabel>) -> bool {
        true
    }
    fn notifier_config(&self) -> Option<NotifierConfig> {
        self.notifier.clone()
    }
    fn show_output(&self, _label: &TaskLabel) -> bool {
        false
    }
}

fn slack() -> SlackConfig {
    SlackConfig { webhook_url: "https://hooks.example.com/x".to_string() }
}

fn value(json: &Json) -> Value {
    match json {
        Json::Text(text) => Value::String(text.clone()),
        Json::Flag(flag) => Value::Bool(*flag),
        Json::List(items) => Value::Array(items.iter().map(value).collect()),
        Json::Object(members) => {
            let mut object = serde_json::value::Map::new();
            for (name, member) in members {
                assert!(object.insert(name.clone(), value(member)).is_none());
            }
            Value::Object(object)
        }
    }
}

fn parsed(text: &str) -> Value {
    serde_json::from_str(text).unwrap()
}

const CONTEXT: &str =
    "*Title:* My App  |  *Environment:* `testnet`  |  *Build Version:* `0123456`";

#[test]
fn a_failure_is_told() {
    let app = App { notifier: None };
    let expected = format!(
        r#"{{
            "attachments": [
                {{
                    "color": "danger",
                    "blocks": [
                        {{
                            "type": "header",
                            "text": {{
                                "type": "plain_text",
                                "text": "🚨 Task Failure",
                                "emoji": true
                            }}
                        }},
                        {{
                            "type": "section",
                            "fields": [{{ "type": "mrkdwn", "text": "*Task:* `fetch`" }}]
                        }},
                        {{
                            "type": "section",
                            "text": {{ "type": "mrkdwn", "text": "*Error:*\n```no luck```" }}
                        }},
                        {{ "type": "divider" }},
                        {{
                            "type": "context",
                            "elements": [{{ "type": "mrkdwn", "text": "{CONTEXT}" }}]
                        }}
                    ]
                }}
            ]
        }}"#
    );
    let task = TaskLabel::new("fetch");
    let error = "no luck".to_string();
    let down = Alert::Down { task: task.clone(), error: error.clone() };
    let first = Alert::FirstFailure { task, error };
    for alert in [down, first] {
        let request = slack().handle_alert(&alert, &app);
        assert_eq!(request.webhook_url, "https://hooks.example.com/x");
        assert_eq!(value(&request.payload), parsed(&expected));
    }
}

#[test]
fn a_recovery_is_told() {
    let app = App { notifier: None };
    let expected = format!(
        r#"{{
            "attachments": [
                {{
                    "color": "good",
                    "blocks": [
                        {{
                            "type": "header",
                            "text": {{
                                "type": "plain_text",
                                "text": "✅ Task Recovered",
                                "emoji": true
                            }}
                        }},
                        {{
                            "type": "section",
                            "fields": [{{ "type": "mrkdwn", "text": "*Task:* `fetch`" }}]
                        }},
                        {{
                            "type": "section",
                            "text": {{
                                "type": "mrkdwn",
                                "text": "*Previous Error:*\n```no luck```"
                            }}
                        }},
                        {{
                            "type": "section",
                            "text": {{ "type": "mrkdwn", "text": "*New Status:*\nup again" }}
                        }},
                        {{ "type": "divider" }},
                        {{
                            "type": "context",
                            "elements": [{{ "type": "mrkdwn", "text": "{CONTEXT}" }}]
                        }}
                    ]
                }}
            ]
        }}"#
    );
    let alert = Alert::Recovered {
        task: TaskLabel::new("fetch"),
        old_error: "no luck".to_string(),
        new_message: "up again".to_string(),
    };
    let request = NotifierConfig::Slack(slack()).handle_alert(&alert, &app);
    assert_eq!(request.webhook_url, "https://hooks.example.com/x");
    assert_eq!(value(&request.payload), parsed(&expected));
}

#[test]
fn the_context_leaves_out_what_is_not_known() {
    let env = Some("testnet".to_string());
    assert_eq!(context_line("T", &None, &None), "*Title:* T");
    assert_eq!(context_line("T", &env, &None), "*Title:* T  |  *Environment:* `testnet`");
    assert_eq!(
        context_line("T", &None, &Some("1.2".to_string())),
        "*Title:* T  |  *Build Version:* `1.2`"
    );
    assert_eq!(
        context_line("T", &None, &Some("éééééééé".to_string())),
        "*Title:* T  |  *Build Version:* `ééééééé`"
    );
    assert_eq!(
        context_line("T", &None, &Some("1234567".to_string())),
        "*Title:* T  |  *Build Version:* `1234567`"
    );
}

#[test]
fn alerts_are_sent_where_the_application_says() {
    let alert = Some(Alert::Down { task: TaskLabel::new("a"), error: "e".to_string() });
    let silent = App { notifier: None };
    assert!(notification(&alert, &silent).is_none());
    let loud = App { notifier: Some(NotifierConfig::Slack(slack())) };
    assert!(notification(&None, &loud).is_none());
    let request = notification(&alert, &loud).unwrap();
    assert_eq!(request.webhook_url, slack().webhook_url);
    let direct = slack().request_for(alert.as_ref().unwrap(), CONTEXT);
    assert_eq!(value(&request.payload), value(&direct.payload));
}

#[test]
fn what_is_no_object_has_no_members() {
    assert_eq!(value(&Json::text("a").with("b", Json::Flag(true))), Value::String("a".into()));
    assert_eq!(value(&Json::Flag(false).and(Json::text("a"))), Value::Bool(false));
    let list = Json::list().and(Json::text("a")).and(Json::object());
    assert_eq!(value(&list), parsed(r#"["a", {}]"#));
}
