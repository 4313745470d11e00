use selfbot::command::{
    add_reply, execute, execute_on, interpret, invoke_reply, parse, Answer, Command,
};
use selfbot::registry::{CommandRegistry, CommandTable, RegistryError};

fn add(name: &str, response: &str) -> Command {
    Command::Add { name: name.to_string(), response: response.to_string() }
}

fn invoke(name: &str) -> Command {
    Command::Invoke { name: name.to_string() }
}

#[test]
fn parse_add_keeps_the_spaces_of_the_response() {
    assert_eq!(parse("!cmd add greet Hello there!"), add("greet", "Hello there!"));
    assert_eq!(parse("!cmd add greet Hello   big  world"), add("greet", "Hello   big  world"));
    assert_eq!(parse("!cmd add greet  two"), add("greet", " two"));
}

#[test]
fn parse_add_without_a_response_is_a_usage_request() {
    assert_eq!(parse("!cmd add greet"), Command::AddUsage);
    assert_eq!(parse("!cmd add"), Command::AddUsage);
    assert_eq!(parse("!cmd add greet "), Command::AddUsage);
    assert_eq!(parse("!cmd add "), Command::AddUsage);
}

#[test]
fn parse_name_is_an_invocation() {
    assert_eq!(parse("!cmd greet"), invoke("greet"));
    assert_eq!(parse("!cmd greet and more words"), invoke("greet"));
    assert_eq!(parse("!cmd adder"), invoke("adder"));
    assert_eq!(parse("!cmd ad"), invoke("ad"));
    assert_eq!(parse("!cmd Add x y"), invoke("Add"));
}

#[test]
fn parse_bare_trigger_is_a_usage_request() {
    assert_eq!(parse("!cmd"), Command::Usage);
    assert_eq!(parse("!cmd "), Command::Usage);
    assert_eq!(parse("  !cmd\n"), Command::Usage);
}

#[test]
fn parse_trims_the_content_first() {
    assert_eq!(parse("  !cmd greet  "), invoke("greet"));
    assert_eq!(parse("\t!cmd add greet Hello there!\r\n"), add("greet", "Hello there!"));
}

#[test]
fn parse_splits_at_single_spaces() {
    assert_eq!(parse("!cmd  greet"), invoke(""));
    assert_eq!(parse("!cmd add  x"), add("", "x"));
    assert_eq!(parse("!cmd\tgreet"), Command::Usage);
}

#[test]
fn parse_handles_characters_of_several_bytes() {
    assert_eq!(parse("!cmd add grüß Grüß Gott ✓"), add("grüß", "Grüß Gott ✓"));
    assert_eq!(parse("!cmd 日本語"), invoke("日本語"));
}

#[test]
fn interpret_add_inserts_and_confirms() {
    let registry = CommandRegistry::new();
    let answer = interpret("!cmd add greet Hello there!", &registry);
    assert_eq!(answer.reply, "Added command greet -> Hello there!");
    assert!(answer.reply.contains("greet"));
    assert!(answer.reply.contains("Hello there!"));
    assert!(answer.reported);
    assert_eq!(registry.lookup("greet"), Some("Hello there!".to_string()));
}

#[test]
fn interpret_add_without_response_replies_usage_and_leaves_the_registry() {
    let registry = CommandRegistry::new();
    assert_eq!(
        interpret("!cmd add greet", &registry),
        Answer { reply: "Usage: !cmd add <name> <response>".to_string(), reported: false }
    );
    assert_eq!(registry.lookup("greet"), None);
    assert_eq!(registry.lookup("add"), None);
    assert_eq!(interpret("!cmd add", &registry).reply, "Usage: !cmd add <name> <response>");
}

#[test]
fn interpret_name_replies_with_the_stored_response() {
    let registry = CommandRegistry::new();
    interpret("!cmd add greet Hello there!", &registry);
    assert_eq!(
        interpret("!cmd greet", &registry),
        Answer { reply: "Hello there!".to_string(), reported: false }
    );
}

#[test]
fn interpret_unknown_name_replies_not_found() {
    let registry = CommandRegistry::new();
    assert_eq!(
        interpret("!cmd unknown", &registry),
        Answer { reply: "Command not found.".to_string(), reported: false }
    );
}

#[test]
fn interpret_bare_trigger_replies_usage() {
    let registry = CommandRegistry::new();
    assert_eq!(
        interpret("!cmd", &registry),
        Answer { reply: "Usage: !cmd <command>".to_string(), reported: false }
    );
}

#[test]
fn interpret_add_twice_keeps_the_second_response() {
    let registry = CommandRegistry::new();
    interpret("!cmd add greet one", &registry);
    assert_eq!(
        interpret("!cmd add greet two", &registry),
        Answer { reply: "Added command greet -> two".to_string(), reported: true }
    );
    assert_eq!(interpret("!cmd greet", &registry).reply, "two");
}

#[test]
fn execute_carries_out_a_command() {
    let registry = CommandRegistry::new();
    assert_eq!(execute(add("a", "b c"), &registry), "Added command a -> b c");
    assert_eq!(execute(invoke("a"), &registry), "b c");
    assert_eq!(execute(invoke("b"), &registry), "Command not found.");
    assert_eq!(execute(Command::Usage, &registry), "Usage: !cmd <command>");
    assert_eq!(execute(Command::AddUsage, &registry), "Usage: !cmd add <name> <response>");
}

#[test]
fn add_reply_for_each_outcome() {
    assert_eq!(add_reply("greet", "Hello there!", Ok(())), "Added command greet -> Hello there!");
    assert_eq!(
        add_reply("greet", "Hello there!", Err(RegistryError::LockUnavailable)),
        "Error adding command: Failed to lock commands mutex"
    );
}

#[test]
fn invoke_reply_for_each_outcome() {
    assert_eq!(invoke_reply(Some("Hello there!".to_string())), "Hello there!");
    assert_eq!(invoke_reply(Some(String::new())), "");
    assert_eq!(invoke_reply(None), "Command not found.");
}

#[test]
fn execute_on_add_stores_and_confirms() {
    let mut table = CommandTable::new();
    let reply = execute_on(parse("!cmd add greet Hello there!"), &mut table);
    assert_eq!(reply, "Added command greet -> Hello there!");
    assert_eq!(table.lookup("greet"), Some("Hello there!".to_string()));
}

#[test]
fn execute_on_usage_leaves_the_table() {
    let mut table = CommandTable::new();
    table.insert("greet".to_string(), "hi".to_string());
    assert_eq!(
        execute_on(parse("!cmd add greet"), &mut table),
        "Usage: !cmd add <name> <response>"
    );
    assert_eq!(execute_on(parse("!cmd"), &mut table), "Usage: !cmd <command>");
    assert_eq!(table.lookup("greet"), Some("hi".to_string()));
    assert_eq!(table.lookup("add"), None);
}

#[test]
fn execute_on_invoke_replies_verbatim_or_not_found() {
    let mut table = CommandTable::new();
    assert_eq!(execute_on(parse("!cmd unknown"), &mut table), "Command not found.");
    execute_on(parse("!cmd add greet   Hello   there!"), &mut table);
    assert_eq!(execute_on(parse("!cmd greet"), &mut table), "  Hello   there!");
    assert_eq!(execute_on(parse("!cmd Greet"), &mut table), "Command not found.");
}

#[test]
fn is_add_tells_insertions_from_the_rest() {
    assert!(add("a", "b").is_add());
    assert!(!invoke("add").is_add());
    assert!(!Command::Usage.is_add());
    assert!(!Command::AddUsage.is_add());
}

#[test]
fn execute_add_is_seen_by_a_later_lookup_of_the_registry() {
    let registry = CommandRegistry::new();
    assert_eq!(execute(add("greet", "one"), &registry), "Added command greet -> one");
    assert_eq!(registry.lookup("greet"), Some("one".to_string()));
    assert_eq!(registry.insert("greet".to_string(), "two".to_string()), Ok(()));
    assert_eq!(execute(invoke("greet"), &registry), "two");
}
