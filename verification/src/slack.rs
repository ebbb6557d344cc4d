//! The messages that tell of alerts in Slack.

use crate::context::WatcherAppContext;
use crate::json::{Json, JsonView};
use crate::periodic::{Alert, AlertView};
use vstd::prelude::*;

verus! {

/// Where alerts are sent in Slack.
#[derive(Debug)]
pub struct SlackConfig {
    /// The address that takes messages.
    pub webhook_url: String,
}

impl Clone for SlackConfig {
    fn clone(&self) -> (config: Self)
        ensures
            config == *self,
    {
        SlackConfig { webhook_url: self.webhook_url.clone() }
    }
}

/// Where alerts are sent.
#[derive(Debug)]
pub enum NotifierConfig {
    Slack(SlackConfig),
}

impl Clone for NotifierConfig {
    fn clone(&self) -> (config: Self)
        ensures
            config == *self,
    {
        match self {
            NotifierConfig::Slack(config) => NotifierConfig::Slack(config.clone()),
        }
    }
}

/// A message to be posted as JSON.
#[derive(Debug)]
pub struct SlackRequest {
    /// The address to post to.
    pub webhook_url: String,
    /// What to post.
    pub payload: Json,
}

/// How many characters of a build version are shown.
pub const SHORT_VERSION_LEN: usize = 7;

/// The beginning of a build version.
pub open spec fn short_version(version: Seq<char>) -> Seq<char> {
    if version.len() <= SHORT_VERSION_LEN {
        version
    } else {
        version.take(SHORT_VERSION_LEN as int)
    }
}

/// What an optional text stands for.
pub open spec fn text_view(text: Option<String>) -> Option<Seq<char>> {
    match text {
        Some(s) => Some(s@),
        None => None,
    }
}

/// The line that tells which application a message is about.
pub open spec fn context_text(
    title: Seq<char>,
    environment: Option<Seq<char>>,
    build_version: Option<Seq<char>>,
) -> Seq<char> {
    let titled = "*Title:* "@ + title;
    let placed = match environment {
        Some(env) => titled + "  |  "@ + ("*Environment:* `"@ + env + "`"@),
        None => titled,
    };
    match build_version {
        Some(version) => placed + "  |  "@ + ("*Build Version:* `"@ + short_version(version) + "`"@),
        None => placed,
    }
}

/// A text with markup.
pub open spec fn markup(text: Seq<char>) -> JsonView {
    JsonView::object().with("type"@, JsonView::Text("mrkdwn"@)).with("text"@, JsonView::Text(text))
}

/// A header.
pub open spec fn header_block(text: Seq<char>) -> JsonView {
    JsonView::object().with("type"@, JsonView::Text("header"@)).with(
        "text"@,
        JsonView::object().with("type"@, JsonView::Text("plain_text"@)).with(
            "text"@,
            JsonView::Text(text),
        ).with("emoji"@, JsonView::Flag(true)),
    )
}

/// A section that names the task.
pub open spec fn task_block(task: Seq<char>) -> JsonView {
    JsonView::object().with("type"@, JsonView::Text("section"@)).with(
        "fields"@,
        JsonView::list().and(markup("*Task:* `"@ + task + "`"@)),
    )
}

/// A section of text.
pub open spec fn text_block(text: Seq<char>) -> JsonView {
    JsonView::object().with("type"@, JsonView::Text("section"@)).with("text"@, markup(text))
}

/// A dividing line.
pub open spec fn divider_block() -> JsonView {
    JsonView::object().with("type"@, JsonView::Text("divider"@))
}

/// The line that tells which application the message is about.
pub open spec fn context_block(text: Seq<char>) -> JsonView {
    JsonView::object().with("type"@, JsonView::Text("context"@)).with(
        "elements"@,
        JsonView::list().and(markup(text)),
    )
}

/// A message of the given color that consists of the given blocks.
pub open spec fn message(color: Seq<char>, blocks: JsonView) -> JsonView {
    JsonView::object().with(
        "attachments"@,
        JsonView::list().and(
            JsonView::object().with("color"@, JsonView::Text(color)).with("blocks"@, blocks),
        ),
    )
}

/// The message that a task is failing.
pub open spec fn failure_message(
    task: Seq<char>,
    error: Seq<char>,
    context: Seq<char>,
) -> JsonView {
    message(
        "danger"@,
        JsonView::list().and(header_block("🚨 Task Failure"@)).and(task_block(task)).and(
            text_block("*Error:*\n```"@ + error + "```"@),
        ).and(divider_block()).and(context_block(context)),
    )
}

/// The message that a task has recovered.
pub open spec fn recovery_message(
    task: Seq<char>,
    old_error: Seq<char>,
    new_message: Seq<char>,
    context: Seq<char>,
) -> JsonView {
    message(
        "good"@,
        JsonView::list().and(header_block("✅ Task Recovered"@)).and(task_block(task)).and(
            text_block("*Previous Error:*\n```"@ + old_error + "```"@),
        ).and(text_block("*New Status:*\n"@ + new_message)).and(divider_block()).and(
            context_block(context),
        ),
    )
}

/// The message that tells of an alert.
pub open spec fn alert_message(alert: AlertView, context: Seq<char>) -> JsonView {
    match alert {
        AlertView::Down { task, error } => failure_message(task, error, context),
        AlertView::Recovered { task, old_error, new_message } => recovery_message(
            task,
            old_error,
            new_message,
            context,
        ),
        AlertView::FirstFailure { task, error } => failure_message(task, error, context),
    }
}

/// Whether the application may call for the line `context` to tell what it is.
pub open spec fn context_answer<C: WatcherAppContext>(app: &C, context: Seq<char>) -> bool {
    exists|title: String, environment: Option<String>, build_version: Option<String>|
        {
            &&& #[trigger] call_ensures(C::title, (app,), title)
            &&& #[trigger] call_ensures(C::environment, (app,), environment)
            &&& #[trigger] call_ensures(C::build_version, (app,), build_version)
            &&& context == context_text(title@, text_view(environment), text_view(build_version))
        }
}

/// `text` between `before` and `after`.
fn enclosed(before: &str, text: &str, after: &str) -> (whole: String)
    ensures
        whole@ == before@ + text@ + after@,
{
    let mut whole = String::from(before);
    whole.append(text);
    whole.append(after);
    whole
}

/// The line that tells which application a message is about.
pub fn context_line(
    title: &str,
    environment: &Option<String>,
    build_version: &Option<String>,
) -> (line: String)
    ensures
        line@ == context_text(title@, text_view(*environment), text_view(*build_version)),
{
    let mut line = String::from("*Title:* ");
    line.append(title);
    if let Some(env) = environment {
        line.append("  |  ");
        line.append(enclosed("*Environment:* `", env.as_str(), "`").as_str());
    }
    if let Some(version) = build_version {
        let version = version.as_str();
        line.append("  |  ");
        let len = version.unicode_len();
        let short = if len <= SHORT_VERSION_LEN {
            version
        } else {
            version.substring_char(0, SHORT_VERSION_LEN)
        };
        proof {
            assert(short@ =~= short_version(version@));
        }
        line.append(enclosed("*Build Version:* `", short, "`").as_str());
    }
    line
}

/// A text with markup.
fn markup_json(text: &str) -> (json: Json)
    ensures
        json@ == markup(text@),
{
    Json::object().with("type", Json::text("mrkdwn")).with("text", Json::text(text))
}

/// A header.
fn header_json(text: &str) -> (json: Json)
    ensures
        json@ == header_block(text@),
{
    Json::object().with("type", Json::text("header")).with(
        "text",
        Json::object().with("type", Json::text("plain_text")).with("text", Json::text(text)).with(
            "emoji",
            Json::Flag(true),
        ),
    )
}

/// A section that names the task.
fn task_json(task: &str) -> (json: Json)
    ensures
        json@ == task_block(task@),
{
    Json::object().with("type", Json::text("section")).with(
        "fields",
        Json::list().and(markup_json(enclosed("*Task:* `", task, "`").as_str())),
    )
}

/// A section of text.
fn text_json(text: &str) -> (json: Json)
    ensures
        json@ == text_block(text@),
{
    Json::object().with("type", Json::text("section")).with("text", markup_json(text))
}

/// A dividing line.
fn divider_json() -> (json: Json)
    ensures
        json@ == divider_block(),
{
    Json::object().with("type", Json::text("divider"))
}

/// The line that tells which application the message is about.
fn context_json(text: &str) -> (json: Json)
    ensures
        json@ == context_block(text@),
{
    Json::object().with("type", Json::text("context")).with(
        "elements",
        Json::list().and(markup_json(text)),
    )
}

/// A message of the given color that consists of the given blocks.
fn message_json(color: &str, blocks: Json) -> (json: Json)
    ensures
        json@ == message(color@, blocks@),
{
    Json::object().with(
        "attachments",
        Json::list().and(Json::object().with("color", Json::text(color)).with("blocks", blocks)),
    )
}

/// The message that a task is failing.
pub fn failure_payload(task: &str, error: &str, context: &str) -> (payload: Json)
    ensures
        payload@ == failure_message(task@, error@, context@),
{
    let header = header_json("🚨 Task Failure");
    let error_block = text_json(enclosed("*Error:*\n```", error, "```").as_str());
    let blocks = Json::list().and(header).and(task_json(task)).and(error_block).and(
        divider_json(),
    ).and(context_json(context));
    message_json("danger", blocks)
}

/// The message that a task has recovered.
pub fn recovery_payload(
    task: &str,
    old_error: &str,
    new_message: &str,
    context: &str,
) -> (payload: Json)
    ensures
        payload@ == recovery_message(task@, old_error@, new_message@, context@),
{
    let header = header_json("✅ Task Recovered");
    let old_block = text_json(enclosed("*Previous Error:*\n```", old_error, "```").as_str());
    let mut new_status = String::from("*New Status:*\n");
    new_status.append(new_message);
    let new_block = text_json(new_status.as_str());
    let blocks = Json::list().and(header).and(task_json(task)).and(old_block).and(new_block).and(
        divider_json(),
    ).and(context_json(context));
    message_json("good", blocks)
}

impl SlackConfig {
    /// The request that tells of an alert, where `context` says which application it is about.
    pub fn request_for(&self, alert: &Alert, context: &str) -> (request: SlackRequest)
        ensures
            request.webhook_url@ == self.webhook_url@,
            request.payload@ == alert_message(alert@, context@),
    {
        let payload = match alert {
            Alert::Down { task, error } => failure_payload(task.ident(), error.as_str(), context),
            Alert::Recovered { task, old_error, new_message } => recovery_payload(
                task.ident(),
                old_error.as_str(),
                new_message.as_str(),
                context,
            ),
            Alert::FirstFailure { task, error } => failure_payload(
                task.ident(),
                error.as_str(),
                context,
            ),
        };
        SlackRequest { webhook_url: self.webhook_url.clone(), payload }
    }

    /// The request that tells of an alert of the application.
    pub fn handle_alert<C: WatcherAppContext>(&self, alert: &Alert, app: &C) -> (request:
        SlackRequest)
        ensures
            request.webhook_url@ == self.webhook_url@,
            exists|context: Seq<char>|
                #[trigger] context_answer(app, context) && request.payload@ == alert_message(
                    alert@,
                    context,
                ),
    {
        let title = app.title();
        let environment = app.environment();
        let build_version = app.build_version();
        let context = context_line(title.as_str(), &environment, &build_version);
        proof {
            assert(context_answer(app, context@));
        }
        self.request_for(alert, context.as_str())
    }
}

impl NotifierConfig {
    /// The address that alerts are sent to.
    pub open spec fn address(self) -> Seq<char> {
        match self {
            NotifierConfig::Slack(config) => config.webhook_url@,
        }
    }

    /// The request that tells of an alert of the application.
    pub fn handle_alert<C: WatcherAppContext>(&self, alert: &Alert, app: &C) -> (request:
        SlackRequest)
        ensures
            request.webhook_url@ == self.address(),
            exists|context: Seq<char>|
                #[trigger] context_answer(app, context) && request.payload@ == alert_message(
                    alert@,
                    context,
                ),
    {
        match self {
            NotifierConfig::Slack(config) => config.handle_alert(alert, app),
        }
    }
}

/// The request that tells of an alert, where there is one and the application has it sent
/// somewhere.
pub fn notification<C: WatcherAppContext>(alert: &Option<Alert>, app: &C) -> (request: Option<
    SlackRequest,
>)
    ensures
        alert is None ==> request is None,
        alert matches Some(a) ==> exists|notifier: Option<NotifierConfig>|
            {
                &&& #[trigger] call_ensures(C::notifier_config, (app,), notifier)
                &&& request is Some <==> notifier is Some
                &&& request matches Some(r) ==> {
                    &&& r.webhook_url@ == notifier->0.address()
                    &&& exists|context: Seq<char>|
                        #[trigger] context_answer(app, context) && r.payload@ == alert_message(
                            a@,
                            context,
                        )
                }
            },
{
    let notifier = app.notifier_config();
    match (alert, &notifier) {
        (Some(alert), Some(config)) => Some(config.handle_alert(alert, app)),
        _ => None,
    }
}

} // verus!
