//! What the messages say.

use crate::context::WatcherAppContext;
use crate::json::{Json, JsonView};
use crate::periodic::Alert;
use crate::slack::{
    context_line, failure_payload, notification, recovery_payload, NotifierConfig, SlackConfig,
    SlackRequest,
};
use vstd::prelude::*;

verus! {

/// What a JSON value stands for is its text, its truth value, its items in order, or its members
/// in order, each name with its value.
pub proof fn law_json_stands_for_what_it_holds(json: Json)
    ensures
        json is Text ==> json@ == JsonView::Text(json->Text_0@),
        json is Flag ==> json@ == JsonView::Flag(json->Flag_0),
        json is List ==> {
            &&& json@ is List
            &&& json@->List_0.len() == json->List_0@.len()
            &&& forall|i: int|
                0 <= i < json->List_0@.len() ==> (#[trigger] json@->List_0[i])
                    == json->List_0@[i]@
        },
        json is Object ==> {
            &&& json@ is Object
            &&& json@->Object_0.len() == json->Object_0@.len()
            &&& forall|i: int|
                0 <= i < json->Object_0@.len() ==> (#[trigger] json@->Object_0[i]) == (
                    json->Object_0@[i].0@,
                    json->Object_0@[i].1@,
                )
        },
{
}

/// JSON values are built member by member and item by item, each at the end.
pub proof fn law_json_is_built_in_order(
    name: &str,
    value: Json,
    text: Json,
    blank_object: Json,
    blank_list: Json,
    object: Json,
    longer_object: Json,
    list: Json,
    longer_list: Json,
)
    requires
        call_ensures(Json::text, (name,), text),
        call_ensures(Json::object, (), blank_object),
        call_ensures(Json::list, (), blank_list),
        call_ensures(Json::with, (object, name, value), longer_object),
        call_ensures(Json::and, (list, value), longer_list),
    ensures
        text@ == JsonView::Text(name@),
        blank_object@ == JsonView::Object(Seq::empty()),
        blank_list@ == JsonView::List(Seq::empty()),
        object@ is Object ==> longer_object@ == JsonView::Object(
            object@->Object_0.push((name@, value@)),
        ),
        list@ is List ==> longer_list@ == JsonView::List(list@->List_0.push(value@)),
        !(object@ is Object) ==> longer_object@ == object@,
        !(list@ is List) ==> longer_list@ == list@,
{
}

/// A section of a message: its text in markup.
pub open spec fn section(text: Seq<char>) -> JsonView {
    JsonView::Object(
        seq![
            ("type"@, JsonView::Text("section"@)),
            (
                "text"@,
                JsonView::Object(
                    seq![("type"@, JsonView::Text("mrkdwn"@)), ("text"@, JsonView::Text(text))],
                ),
            ),
        ],
    )
}

/// A block of a message with one text in markup, in a list of the given name.
pub open spec fn listed_text(kind: Seq<char>, name: Seq<char>, text: Seq<char>) -> JsonView {
    JsonView::Object(
        seq![
            ("type"@, JsonView::Text(kind)),
            (
                name,
                JsonView::List(
                    seq![
                        JsonView::Object(
                            seq![
                                ("type"@, JsonView::Text("mrkdwn"@)),
                                ("text"@, JsonView::Text(text)),
                            ],
                        ),
                    ],
                ),
            ),
        ],
    )
}

/// The header of a message.
pub open spec fn header(text: Seq<char>) -> JsonView {
    JsonView::Object(
        seq![
            ("type"@, JsonView::Text("header"@)),
            (
                "text"@,
                JsonView::Object(
                    seq![
                        ("type"@, JsonView::Text("plain_text"@)),
                        ("text"@, JsonView::Text(text)),
                        ("emoji"@, JsonView::Flag(true)),
                    ],
                ),
            ),
        ],
    )
}

/// A message: one attachment with a color and blocks.
pub open spec fn attachment(color: Seq<char>, blocks: Seq<JsonView>) -> JsonView {
    JsonView::Object(
        seq![
            (
                "attachments"@,
                JsonView::List(
                    seq![
                        JsonView::Object(
                            seq![
                                ("color"@, JsonView::Text(color)),
                                ("blocks"@, JsonView::List(blocks)),
                            ],
                        ),
                    ],
                ),
            ),
        ],
    )
}

/// The message of a failure, whole: red, with the task, the error and the application in full.
pub open spec fn tells_of_failure(
    payload: JsonView,
    task: Seq<char>,
    error: Seq<char>,
    context: Seq<char>,
) -> bool {
    payload == attachment(
        "danger"@,
        seq![
            header("🚨 Task Failure"@),
            listed_text("section"@, "fields"@, "*Task:* `"@ + task + "`"@),
            section("*Error:*\n```"@ + error + "```"@),
            JsonView::Object(seq![("type"@, JsonView::Text("divider"@))]),
            listed_text("context"@, "elements"@, context),
        ],
    )
}

/// The message of a recovery, whole: green, with the task, the error before, the new message and
/// the application in full.
pub open spec fn tells_of_recovery(
    payload: JsonView,
    task: Seq<char>,
    old_error: Seq<char>,
    new_message: Seq<char>,
    context: Seq<char>,
) -> bool {
    payload == attachment(
        "good"@,
        seq![
            header("✅ Task Recovered"@),
            listed_text("section"@, "fields"@, "*Task:* `"@ + task + "`"@),
            section("*Previous Error:*\n```"@ + old_error + "```"@),
            section("*New Status:*\n"@ + new_message),
            JsonView::Object(seq![("type"@, JsonView::Text("divider"@))]),
            listed_text("context"@, "elements"@, context),
        ],
    )
}

/// The texts of a failure message: which task, which error, which application.
pub open spec fn failure_texts(payload: JsonView) -> (Seq<char>, Seq<char>, Seq<char>) {
    let blocks = payload->Object_0[0].1->List_0[0]->Object_0[1].1->List_0;
    (
        blocks[1]->Object_0[1].1->List_0[0]->Object_0[1].1->Text_0,
        blocks[2]->Object_0[1].1->Object_0[1].1->Text_0,
        blocks[4]->Object_0[1].1->List_0[0]->Object_0[1].1->Text_0,
    )
}

/// The texts of a recovery message: which task, which error before, which message now, which
/// application.
pub open spec fn recovery_texts(payload: JsonView) -> (
    Seq<char>,
    Seq<char>,
    Seq<char>,
    Seq<char>,
) {
    let blocks = payload->Object_0[0].1->List_0[0]->Object_0[1].1->List_0;
    (
        blocks[1]->Object_0[1].1->List_0[0]->Object_0[1].1->Text_0,
        blocks[2]->Object_0[1].1->Object_0[1].1->Text_0,
        blocks[3]->Object_0[1].1->Object_0[1].1->Text_0,
        blocks[5]->Object_0[1].1->List_0[0]->Object_0[1].1->Text_0,
    )
}

/// The blocks of messages, member by member.
proof fn lemma_blocks(text: Seq<char>)
    ensures
        crate::slack::text_block(text) == section(text),
        crate::slack::header_block(text) == header(text),
        crate::slack::context_block(text) == listed_text("context"@, "elements"@, text),
        crate::slack::task_block(text) == listed_text(
            "section"@,
            "fields"@,
            "*Task:* `"@ + text + "`"@,
        ),
        crate::slack::divider_block() == JsonView::Object(
            seq![("type"@, JsonView::Text("divider"@))],
        ),
{
    lemma_markup(text);
    lemma_markup("*Task:* `"@ + text + "`"@);
    let task = crate::slack::markup("*Task:* `"@ + text + "`"@);
    assert(crate::slack::text_block(text)->Object_0 =~= section(text)->Object_0);
    let inner = header(text)->Object_0[1].1;
    assert(crate::slack::header_block(text)->Object_0[1].1->Object_0 =~= inner->Object_0);
    assert(crate::slack::header_block(text)->Object_0 =~= header(text)->Object_0);
    let context = listed_text("context"@, "elements"@, text);
    assert(JsonView::list().and(crate::slack::markup(text))->List_0
        =~= context->Object_0[1].1->List_0);
    assert(crate::slack::context_block(text)->Object_0 =~= context->Object_0);
    let named = listed_text("section"@, "fields"@, "*Task:* `"@ + text + "`"@);
    assert(JsonView::list().and(task)->List_0 =~= named->Object_0[1].1->List_0);
    assert(crate::slack::task_block(text)->Object_0 =~= named->Object_0);
    assert(crate::slack::divider_block()->Object_0 =~= seq![("type"@, JsonView::Text("divider"@))]);
}

/// A text with markup, member by member.
proof fn lemma_markup(text: Seq<char>)
    ensures
        crate::slack::markup(text) == JsonView::Object(
            seq![("type"@, JsonView::Text("mrkdwn"@)), ("text"@, JsonView::Text(text))],
        ),
{
    assert(crate::slack::markup(text)->Object_0
        =~= seq![("type"@, JsonView::Text("mrkdwn"@)), ("text"@, JsonView::Text(text))]);
}

/// A message, member by member.
proof fn lemma_attachment(color: Seq<char>, blocks: Seq<JsonView>)
    ensures
        crate::slack::message(color, JsonView::List(blocks)) == attachment(color, blocks),
{
    let whole = crate::slack::message(color, JsonView::List(blocks));
    let same = attachment(color, blocks);
    let inner = same->Object_0[0].1->List_0[0];
    assert(JsonView::object().with("color"@, JsonView::Text(color)).with(
        "blocks"@,
        JsonView::List(blocks),
    )->Object_0 =~= inner->Object_0);
    assert(JsonView::list().and(inner)->List_0 =~= same->Object_0[0].1->List_0);
    assert(whole->Object_0 =~= same->Object_0);
}

/// The message of a failure, block by block.
proof fn lemma_failure_message(task: Seq<char>, error: Seq<char>, context: Seq<char>)
    ensures
        tells_of_failure(
            crate::slack::failure_message(task, error, context),
            task,
            error,
            context,
        ),
{
    let title = "🚨 Task Failure"@;
    let told = "*Error:*\n```"@ + error + "```"@;
    lemma_blocks(title);
    lemma_blocks(task);
    lemma_blocks(told);
    lemma_blocks(context);
    let blocks = seq![
        header(title),
        listed_text("section"@, "fields"@, "*Task:* `"@ + task + "`"@),
        section(told),
        JsonView::Object(seq![("type"@, JsonView::Text("divider"@))]),
        listed_text("context"@, "elements"@, context),
    ];
    assert(JsonView::list().and(header(title)).and(crate::slack::task_block(task)).and(
        crate::slack::text_block(told),
    ).and(crate::slack::divider_block()).and(crate::slack::context_block(context))->List_0
        =~= blocks);
    lemma_attachment("danger"@, blocks);
}

/// The message of a recovery, block by block.
proof fn lemma_recovery_message(
    task: Seq<char>,
    old_error: Seq<char>,
    new_message: Seq<char>,
    context: Seq<char>,
)
    ensures
        tells_of_recovery(
            crate::slack::recovery_message(task, old_error, new_message, context),
            task,
            old_error,
            new_message,
            context,
        ),
{
    let title = "✅ Task Recovered"@;
    let told = "*Previous Error:*\n```"@ + old_error + "```"@;
    let news = "*New Status:*\n"@ + new_message;
    lemma_blocks(title);
    lemma_blocks(task);
    lemma_blocks(told);
    lemma_blocks(news);
    lemma_blocks(context);
    let blocks = seq![
        header(title),
        listed_text("section"@, "fields"@, "*Task:* `"@ + task + "`"@),
        section(told),
        section(news),
        JsonView::Object(seq![("type"@, JsonView::Text("divider"@))]),
        listed_text("context"@, "elements"@, context),
    ];
    assert(JsonView::list().and(header(title)).and(crate::slack::task_block(task)).and(
        crate::slack::text_block(told),
    ).and(crate::slack::text_block(news)).and(crate::slack::divider_block()).and(
        crate::slack::context_block(context),
    )->List_0 =~= blocks);
    lemma_attachment("good"@, blocks);
}

/// The message of an alert is that of its kind.
proof fn lemma_alert_message(alert: Alert, context: Seq<char>)
    ensures
        tells_of_alert(crate::slack::alert_message(alert@, context), alert, context),
{
    match alert {
        Alert::Down { task, error } => lemma_failure_message(task@, error@, context),
        Alert::FirstFailure { task, error } => lemma_failure_message(task@, error@, context),
        Alert::Recovered { task, old_error, new_message } => lemma_recovery_message(
            task@,
            old_error@,
            new_message@,
            context,
        ),
    }
}

/// What stands between two given texts can be read off.
proof fn lemma_between(before: Seq<char>, a: Seq<char>, b: Seq<char>, after: Seq<char>)
    requires
        before + a + after == before + b + after,
    ensures
        a == b,
{
    let whole_a = before + a + after;
    let whole_b = before + b + after;
    assert(whole_a.len() == whole_b.len());
    assert(a =~= whole_a.subrange(before.len() as int, (before.len() + a.len()) as int));
    assert(b =~= whole_b.subrange(before.len() as int, (before.len() + b.len()) as int));
}

/// A failure message tells the task, the error and the application in full, so its error text grows
/// with the error.
pub proof fn law_failure_messages_tell_the_whole_error(
    task: &str,
    error: &str,
    context: &str,
    payload: Json,
)
    requires
        call_ensures(failure_payload, (task, error, context), payload),
    ensures
        tells_of_failure(payload@, task@, error@, context@),
        failure_texts(payload@).0 == "*Task:* `"@ + task@ + "`"@,
        failure_texts(payload@).1 == "*Error:*\n```"@ + error@ + "```"@,
        failure_texts(payload@).2 == context@,
        failure_texts(payload@).1.len() == "*Error:*\n```"@.len() + error@.len() + "```"@.len(),
{
    lemma_failure_message(task@, error@, context@);
}

/// Failure messages are the same only where they tell the same.
pub proof fn law_different_failures_are_told_differently(
    task: &str,
    error: &str,
    context: &str,
    payload: Json,
    other_task: &str,
    other_error: &str,
    other_context: &str,
    other: Json,
)
    requires
        call_ensures(failure_payload, (task, error, context), payload),
        call_ensures(failure_payload, (other_task, other_error, other_context), other),
        payload@ == other@,
    ensures
        task@ == other_task@,
        error@ == other_error@,
        context@ == other_context@,
{
    law_failure_messages_tell_the_whole_error(task, error, context, payload);
    law_failure_messages_tell_the_whole_error(other_task, other_error, other_context, other);
    lemma_between("*Task:* `"@, task@, other_task@, "`"@);
    lemma_between("*Error:*\n```"@, error@, other_error@, "```"@);
}

/// A recovery message tells the task, the error before, the new message and the application in
/// full.
pub proof fn law_recovery_messages_tell_the_whole_texts(
    task: &str,
    old_error: &str,
    new_message: &str,
    context: &str,
    payload: Json,
)
    requires
        call_ensures(recovery_payload, (task, old_error, new_message, context), payload),
    ensures
        tells_of_recovery(payload@, task@, old_error@, new_message@, context@),
        recovery_texts(payload@).0 == "*Task:* `"@ + task@ + "`"@,
        recovery_texts(payload@).1 == "*Previous Error:*\n```"@ + old_error@ + "```"@,
        recovery_texts(payload@).2 == "*New Status:*\n"@ + new_message@,
        recovery_texts(payload@).3 == context@,
{
    lemma_recovery_message(task@, old_error@, new_message@, context@);
}

/// Recovery messages are the same only where they tell the same.
pub proof fn law_different_recoveries_are_told_differently(
    task: &str,
    old_error: &str,
    new_message: &str,
    context: &str,
    payload: Json,
    other_task: &str,
    other_old_error: &str,
    other_new_message: &str,
    other_context: &str,
    other: Json,
)
    requires
        call_ensures(recovery_payload, (task, old_error, new_message, context), payload),
        call_ensures(
            recovery_payload,
            (other_task, other_old_error, other_new_message, other_context),
            other,
        ),
        payload@ == other@,
    ensures
        task@ == other_task@,
        old_error@ == other_old_error@,
        new_message@ == other_new_message@,
        context@ == other_context@,
{
    law_recovery_messages_tell_the_whole_texts(task, old_error, new_message, context, payload);
    law_recovery_messages_tell_the_whole_texts(
        other_task,
        other_old_error,
        other_new_message,
        other_context,
        other,
    );
    lemma_between("*Task:* `"@, task@, other_task@, "`"@);
    lemma_between("*Previous Error:*\n```"@, old_error@, other_old_error@, "```"@);
    assert("*New Status:*\n"@ + new_message@ + Seq::<char>::empty() =~= "*New Status:*\n"@
        + new_message@);
    assert("*New Status:*\n"@ + other_new_message@ + Seq::<char>::empty() =~= "*New Status:*\n"@
        + other_new_message@);
    lemma_between("*New Status:*\n"@, new_message@, other_new_message@, Seq::empty());
}

/// Whether `text` tells an application by its title in full, by its environment in full, where it
/// is known, and by the first seven characters of its version, where that is known, in this order.
pub open spec fn tells_application(
    text: Seq<char>,
    title: Seq<char>,
    environment: Option<String>,
    build_version: Option<String>,
) -> bool {
    let env = "  |  *Environment:* `"@ + environment->0@ + "`"@;
    let version = "  |  *Build Version:* `"@ + (if build_version->0@.len() > 7 {
        build_version->0@.take(7)
    } else {
        build_version->0@
    }) + "`"@;
    &&& environment is None && build_version is None ==> text == "*Title:* "@ + title
    &&& environment is Some && build_version is None ==> text == "*Title:* "@ + title + env
    &&& environment is None && build_version is Some ==> text == "*Title:* "@ + title + version
    &&& environment is Some && build_version is Some ==> text == "*Title:* "@ + title + env
        + version
}

/// Two parts in one literal.
proof fn lemma_separated()
    ensures
        "  |  *Environment:* `"@ == "  |  "@ + "*Environment:* `"@,
        "  |  *Build Version:* `"@ == "  |  "@ + "*Build Version:* `"@,
{
    reveal_strlit("  |  *Environment:* `");
    reveal_strlit("  |  *Build Version:* `");
    reveal_strlit("  |  ");
    reveal_strlit("*Environment:* `");
    reveal_strlit("*Build Version:* `");
    assert("  |  *Environment:* `"@ =~= "  |  "@ + "*Environment:* `"@);
    assert("  |  *Build Version:* `"@ =~= "  |  "@ + "*Build Version:* `"@);
}

/// What tells an application is put together in order.
proof fn lemma_tells_application(
    title: Seq<char>,
    environment: Option<String>,
    build_version: Option<String>,
)
    ensures
        tells_application(
            crate::slack::context_text(
                title,
                crate::slack::text_view(environment),
                crate::slack::text_view(build_version),
            ),
            title,
            environment,
            build_version,
        ),
{
    lemma_separated();
    let titled = "*Title:* "@ + title;
    let env = "  |  *Environment:* `"@ + environment->0@ + "`"@;
    let placed = if environment is Some {
        titled + env
    } else {
        titled
    };
    if environment is Some {
        assert(titled + "  |  "@ + ("*Environment:* `"@ + environment->0@ + "`"@) =~= titled + env);
    }
    if build_version is Some {
        let short = crate::slack::short_version(build_version->0@);
        assert(placed + "  |  "@ + ("*Build Version:* `"@ + short + "`"@) =~= placed + (
        "  |  *Build Version:* `"@ + short + "`"@));
    }
}

/// The line that tells an application tells it by its title, its environment and its version.
pub proof fn law_the_context_tells_the_application(
    title: &str,
    environment: Option<String>,
    build_version: Option<String>,
    line: String,
)
    requires
        call_ensures(context_line, (title, &environment, &build_version), line),
    ensures
        tells_application(line@, title@, environment, build_version),
{
    lemma_tells_application(title@, environment, build_version);
}

/// Whether a message tells of an alert: a failure, first or not, or a recovery.
pub open spec fn tells_of_alert(payload: JsonView, alert: Alert, context: Seq<char>) -> bool {
    &&& alert is Down ==> tells_of_failure(
        payload,
        alert->Down_task@,
        alert->Down_error@,
        context,
    )
    &&& alert is FirstFailure ==> tells_of_failure(
        payload,
        alert->FirstFailure_task@,
        alert->FirstFailure_error@,
        context,
    )
    &&& alert is Recovered ==> tells_of_recovery(
        payload,
        alert->Recovered_task@,
        alert->old_error@,
        alert->new_message@,
        context,
    )
}

/// An alert is told at the configured address, by the message of its kind.
pub proof fn law_alerts_are_told_at_the_address(
    config: SlackConfig,
    alert: Alert,
    context: &str,
    request: SlackRequest,
)
    requires
        call_ensures(SlackConfig::request_for, (&config, &alert, context), request),
    ensures
        request.webhook_url@ == config.webhook_url@,
        tells_of_alert(request.payload@, alert, context@),
{
    lemma_alert_message(alert, context@);
}

/// Whether a message tells of an alert of an application, by what the application says of itself.
pub open spec fn tells_for_application<C: WatcherAppContext>(
    payload: JsonView,
    alert: Alert,
    app: &C,
) -> bool {
    exists|
        context: Seq<char>,
        title: String,
        environment: Option<String>,
        build_version: Option<String>,
    |
        {
            &&& #[trigger] call_ensures(C::title, (app,), title)
            &&& #[trigger] call_ensures(C::environment, (app,), environment)
            &&& #[trigger] call_ensures(C::build_version, (app,), build_version)
            &&& tells_application(context, title@, environment, build_version)
            &&& #[trigger] tells_of_alert(payload, alert, context)
        }
}

/// A message about what an application calls for tells by what it says of itself.
proof fn lemma_tells_for_application<C: WatcherAppContext>(
    payload: JsonView,
    alert: Alert,
    app: &C,
    context: Seq<char>,
)
    requires
        crate::slack::context_answer(app, context),
        payload == crate::slack::alert_message(alert@, context),
    ensures
        tells_for_application(payload, alert, app),
{
    let (title, environment, build_version) = choose|
        title: String,
        environment: Option<String>,
        build_version: Option<String>,
    |
        {
            &&& #[trigger] call_ensures(C::title, (app,), title)
            &&& #[trigger] call_ensures(C::environment, (app,), environment)
            &&& #[trigger] call_ensures(C::build_version, (app,), build_version)
            &&& context == crate::slack::context_text(
                title@,
                crate::slack::text_view(environment),
                crate::slack::text_view(build_version),
            )
        };
    lemma_tells_application(title@, environment, build_version);
    lemma_alert_message(alert, context);
    assert(tells_of_alert(payload, alert, context));
}

/// An alert of an application is told at the configured address, with what the application says of
/// itself.
pub proof fn law_alerts_tell_their_application<C: WatcherAppContext>(
    config: SlackConfig,
    notifier: NotifierConfig,
    alert: Alert,
    app: C,
    request: SlackRequest,
    notified: SlackRequest,
)
    requires
        call_ensures(SlackConfig::handle_alert::<C>, (&config, &alert, &app), request),
        call_ensures(NotifierConfig::handle_alert::<C>, (&notifier, &alert, &app), notified),
    ensures
        request.webhook_url@ == config.webhook_url@,
        tells_for_application(request.payload@, alert, &app),
        notified.webhook_url@ == notifier->Slack_0.webhook_url@,
        tells_for_application(notified.payload@, alert, &app),
{
    let context = choose|context: Seq<char>|
        #[trigger] crate::slack::context_answer(&app, context) && request.payload@
            == crate::slack::alert_message(alert@, context);
    lemma_tells_for_application(request.payload@, alert, &app, context);
    let context = choose|context: Seq<char>|
        #[trigger] crate::slack::context_answer(&app, context) && notified.payload@
            == crate::slack::alert_message(alert@, context);
    lemma_tells_for_application(notified.payload@, alert, &app, context);
}

/// A message is sent if and only if there is an alert and the application has it sent somewhere; it
/// goes to the address that the application gives, and tells of the alert.
pub proof fn law_alerts_are_sent_where_the_application_says<C: WatcherAppContext>(
    alert: Option<Alert>,
    app: C,
    request: Option<SlackRequest>,
)
    requires
        call_ensures(notification::<C>, (&alert, &app), request),
    ensures
        alert is None ==> request is None,
        alert is Some ==> exists|notifier: Option<NotifierConfig>|
            {
                &&& #[trigger] call_ensures(C::notifier_config, (&app,), notifier)
                &&& request is Some <==> notifier is Some
                &&& request is Some ==> request->0.webhook_url@
                    == notifier->0->Slack_0.webhook_url@
                &&& request is Some ==> tells_for_application(
                    request->0.payload@,
                    alert->0,
                    &app,
                )
            },
{
    if alert is Some {
        let a = alert->0;
        let notifier = choose|notifier: Option<NotifierConfig>|
            {
                &&& #[trigger] call_ensures(C::notifier_config, (&app,), notifier)
                &&& request is Some <==> notifier is Some
                &&& request matches Some(r) ==> {
                    &&& r.webhook_url@ == notifier->0.address()
                    &&& exists|context: Seq<char>|
                        #[trigger] crate::slack::context_answer(&app, context) && r.payload@
                            == crate::slack::alert_message(a@, context)
                }
            };
        assert(call_ensures(C::notifier_config, (&app,), notifier));
        if request is Some {
            let r = request->0;
            let context = choose|context: Seq<char>|
                #[trigger] crate::slack::context_answer(&app, context) && r.payload@
                    == crate::slack::alert_message(a@, context);
            lemma_tells_for_application(r.payload@, a, &app, context);
        }
    }
}

} // verus!
