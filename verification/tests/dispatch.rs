use selfbot::dispatch::{fetch_reply, Action, Dispatcher, FetchError, Stage};
use selfbot::event::MessageEvent;
use selfbot::registry::CommandRegistry;
use std::sync::Arc;

fn event(content: &str) -> MessageEvent {
    MessageEvent {
        author_name: "alice".to_string(),
        timestamp: "2024-05-01T12:00:00Z".to_string(),
        content: content.to_string(),
        channel_reference: 7,
    }
}

fn dispatcher() -> Dispatcher {
    Dispatcher::with_defaults(Arc::new(CommandRegistry::new()))
}

fn run(dispatcher: &Dispatcher, event: &MessageEvent) -> Vec<Action> {
    let mut actions = Vec::new();
    let mut stage = Stage::Log;
    while !stage.is_done() {
        let (action, next) = dispatcher.step(stage, event);
        actions.push(action);
        stage = next;
    }
    actions
}

#[test]
fn log_record_has_the_fixed_form() {
    assert_eq!(event("hello").log_record(), "[2024-05-01T12:00:00Z] alice: hello\n");
    assert_eq!(event("").log_record(), "[2024-05-01T12:00:00Z] alice: \n");
}

#[test]
fn stages_follow_in_fixed_order() {
    assert_eq!(Stage::Log.next(), Stage::Moderate);
    assert_eq!(Stage::Moderate.next(), Stage::Command);
    assert_eq!(Stage::Command.next(), Stage::Fetch);
    assert_eq!(Stage::Fetch.next(), Stage::Done);
    assert_eq!(Stage::Done.next(), Stage::Done);
    assert!(Stage::Done.is_done());
    assert!(!Stage::Fetch.is_done());
}

#[test]
fn plain_message_is_logged_and_nothing_else() {
    let d = dispatcher();
    assert_eq!(
        run(&d, &event("hello")),
        vec![
            Action::AppendLog("[2024-05-01T12:00:00Z] alice: hello\n".to_string()),
            Action::Nothing,
            Action::Nothing,
            Action::Nothing,
        ]
    );
}

#[test]
fn banned_term_asks_for_deletion() {
    let d = dispatcher();
    let e = event("this has badword1 in it");
    assert_eq!(d.step(Stage::Moderate, &e), (Action::DeleteMessage("badword1".to_string()), Stage::Command));
    let both = event("badword2 and badword1");
    assert_eq!(
        d.step(Stage::Moderate, &both),
        (Action::DeleteMessage("badword1".to_string()), Stage::Command)
    );
    assert_eq!(d.step(Stage::Moderate, &event("clean text")), (Action::Nothing, Stage::Command));
}

#[test]
fn moderated_command_is_still_logged_and_answered() {
    let registry = Arc::new(CommandRegistry::new());
    let d = Dispatcher::with_defaults(registry.clone());
    let e = event("!cmd add greet badword2");
    assert_eq!(
        run(&d, &e),
        vec![
            Action::AppendLog("[2024-05-01T12:00:00Z] alice: !cmd add greet badword2\n".to_string()),
            Action::DeleteMessage("badword2".to_string()),
            Action::ReplyAndReport("Added command greet -> badword2".to_string()),
            Action::Nothing,
        ]
    );
    assert_eq!(registry.lookup("greet"), Some("badword2".to_string()));
}

#[test]
fn command_stage_answers_the_prefix_only() {
    let d = dispatcher();
    assert_eq!(
        d.step(Stage::Command, &event("!cmd unknown")),
        (Action::Reply("Command not found.".to_string()), Stage::Fetch)
    );
    assert_eq!(
        d.step(Stage::Command, &event("!cmd")),
        (Action::Reply("Usage: !cmd <command>".to_string()), Stage::Fetch)
    );
    assert_eq!(d.step(Stage::Command, &event(" !cmd greet")), (Action::Nothing, Stage::Fetch));
    assert_eq!(d.step(Stage::Command, &event("say !cmd greet")), (Action::Nothing, Stage::Fetch));
    assert_eq!(d.step(Stage::Command, &event("!api")), (Action::Nothing, Stage::Fetch));
}

#[test]
fn command_stage_reads_what_an_earlier_dispatch_stored() {
    let d = dispatcher();
    assert_eq!(
        d.step(Stage::Command, &event("!cmd add greet Hello there!")),
        (Action::ReplyAndReport("Added command greet -> Hello there!".to_string()), Stage::Fetch)
    );
    assert_eq!(
        d.step(Stage::Command, &event("!cmd greet")),
        (Action::Reply("Hello there!".to_string()), Stage::Fetch)
    );
}

#[test]
fn dispatchers_on_one_registry_share_the_commands() {
    let registry = Arc::new(CommandRegistry::new());
    let first = Dispatcher::with_defaults(registry.clone());
    let second = Dispatcher::with_defaults(registry.clone());
    first.step(Stage::Command, &event("!cmd add greet Hello there!"));
    assert_eq!(
        second.step(Stage::Command, &event("!cmd greet")),
        (Action::Reply("Hello there!".to_string()), Stage::Fetch)
    );
    assert_eq!(registry.lookup("greet"), Some("Hello there!".to_string()));
}

#[test]
fn fetch_stage_answers_the_exact_trigger_only() {
    let d = dispatcher();
    assert_eq!(
        d.step(Stage::Fetch, &event("!api")),
        (Action::Fetch("https://api.example.com/data".to_string()), Stage::Done)
    );
    assert_eq!(d.step(Stage::Fetch, &event("!api ")), (Action::Nothing, Stage::Done));
    assert_eq!(d.step(Stage::Fetch, &event("!api now")), (Action::Nothing, Stage::Done));
    assert_eq!(d.step(Stage::Fetch, &event("!cmd !api")), (Action::Nothing, Stage::Done));
}

#[test]
fn done_stage_asks_for_nothing() {
    let d = dispatcher();
    assert_eq!(d.step(Stage::Done, &event("!api")), (Action::Nothing, Stage::Done));
}

#[test]
fn fetch_success_is_embedded_in_the_reply() {
    assert_eq!(fetch_reply(Ok("{\"n\": 1}".to_string())), "API Data: {\"n\": 1}");
    assert_eq!(fetch_reply(Ok(String::new())), "API Data: ");
}

#[test]
fn fetch_failure_yields_a_reply_with_the_description() {
    let reply = fetch_reply(Err(FetchError { description: "connection refused".to_string() }));
    assert_eq!(reply, "API Error: connection refused");
    assert!(reply.contains("connection refused"));
}

#[test]
fn dispatcher_keeps_what_it_was_made_with() {
    let registry = Arc::new(CommandRegistry::new());
    let d = Dispatcher::new(
        registry,
        vec!["spam".to_string()],
        "https://example.org/feed".to_string(),
    );
    assert_eq!(d.banned_terms(), &vec!["spam".to_string()]);
    assert_eq!(d.api_url(), "https://example.org/feed");
    assert_eq!(
        d.step(Stage::Moderate, &event("badword1 spam")),
        (Action::DeleteMessage("spam".to_string()), Stage::Command)
    );
    assert_eq!(
        d.step(Stage::Fetch, &event("!api")),
        (Action::Fetch("https://example.org/feed".to_string()), Stage::Done)
    );
}

#[test]
fn default_dispatcher_bans_the_two_sample_terms() {
    let d = dispatcher();
    assert_eq!(d.banned_terms(), &vec!["badword1".to_string(), "badword2".to_string()]);
    assert_eq!(d.api_url(), "https://api.example.com/data");
}

#[test]
fn command_stage_reports_insertions_only() {
    let d = dispatcher();
    assert_eq!(
        d.step(Stage::Command, &event("!cmd add a b")),
        (Action::ReplyAndReport("Added command a -> b".to_string()), Stage::Fetch)
    );
    assert_eq!(
        d.step(Stage::Command, &event("!cmd add a")),
        (Action::Reply("Usage: !cmd add <name> <response>".to_string()), Stage::Fetch)
    );
    assert_eq!(
        d.step(Stage::Command, &event("!cmd a")),
        (Action::Reply("b".to_string()), Stage::Fetch)
    );
}
