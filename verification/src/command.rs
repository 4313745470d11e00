//! The command interpreter: the grammar of `!cmd` messages, the registry
//! operation that each form asks for, and the text of each reply.
//!
//! ```text
//! command    := "!cmd" SP subcommand
//! subcommand := "add" SP name SP response
//!             | name
//! ```
//!
//! A message is trimmed and then split at its first two spaces; after `add`,
//! what is left is split once more into the name and the response, which keeps
//! its inner spaces.

use crate::registry::{
    held, readable, stored, CommandRegistry, CommandTable, RegistryError,
};
use std::sync::LockResult;
use std::sync::RwLockReadGuard;
use std::sync::RwLockWriteGuard;
use crate::text::{
    chars_of, find_space, is_whitespace, lemma_split_once_joined, lemma_split_once_whole,
    lemma_trim_identity, has_substring, occurs_at, split_once, trim, trimmed,
};
use vstd::prelude::*;
use vstd::string::StringExecFns;

verus! {

/// What a `!cmd` message asks for.
#[derive(Clone, Debug, PartialEq, Eq)]
pub enum Command {
    /// `!cmd` without a subcommand.
    Usage,
    /// `!cmd add` without a name and a response.
    AddUsage,
    /// `!cmd add <name> <response>`.
    Add { name: String, response: String },
    /// `!cmd <name>`.
    Invoke { name: String },
}

/// A `Command` over character sequences.
pub enum CommandView {
    Usage,
    AddUsage,
    Add { name: Seq<char>, response: Seq<char> },
    Invoke { name: Seq<char> },
}

impl View for Command {
    type V = CommandView;

    open spec fn view(&self) -> CommandView {
        match self {
            Command::Usage => CommandView::Usage,
            Command::AddUsage => CommandView::AddUsage,
            Command::Add { name, response } => CommandView::Add {
                name: name@,
                response: response@,
            },
            Command::Invoke { name } => CommandView::Invoke { name: name@ },
        }
    }
}

impl Command {
    /// Whether the command asks for an insertion.
    pub fn is_add(&self) -> (b: bool)
        ensures
            b == (self@ is Add),
    {
        match self {
            Command::Add { .. } => true,
            _ => false,
        }
    }
}

/// The subcommand that stores a response.
pub open spec fn add_keyword() -> Seq<char> {
    "add"@
}

/// The command that `content` stands for. Its first part, up to the first
/// space, is the trigger and is not looked at.
pub open spec fn parse_spec(content: Seq<char>) -> CommandView {
    match split_once(trim(content)).1 {
        None => CommandView::Usage,
        Some(rest) => {
            let (word, tail) = split_once(rest);
            if word != add_keyword() {
                CommandView::Invoke { name: word }
            } else {
                match tail {
                    None => CommandView::AddUsage,
                    Some(entry) => match split_once(entry) {
                        (name, Some(response)) => CommandView::Add { name, response },
                        (_, None) => CommandView::AddUsage,
                    },
                }
            }
        },
    }
}

/// Tests whether `chars` holds the keyword `add` from `from` up to `to`.
fn is_add_keyword(chars: &Vec<char>, from: usize, to: usize) -> (b: bool)
    requires
        from <= to <= chars.len(),
    ensures
        b == (chars@.subrange(from as int, to as int) == add_keyword()),
{
    proof {
        reveal_strlit("add");
    }
    assert(add_keyword().len() == 3);
    assert(chars@.subrange(from as int, to as int).len() == to - from);
    if to - from != 3 {
        return false;
    }
    let b = chars[from] == 'a' && chars[from + 1] == 'd' && chars[from + 2] == 'd';
    proof {
        let word = chars@.subrange(from as int, to as int);
        assert(word[0] == chars@[from as int]);
        assert(word[1] == chars@[from + 1]);
        assert(word[2] == chars@[from + 2]);
        if b {
            assert(word =~= add_keyword());
        }
    }
    b
}

/// Reads the command that `content` stands for.
pub fn parse(content: &str) -> (command: Command)
    ensures
        command@ == parse_spec(content@),
{
    let line = trimmed(content);
    let chars = chars_of(line);
    let end = chars.len();
    assert(chars@.subrange(0, end as int) =~= line@);
    let i = find_space(&chars, 0, end);
    if i == end {
        return Command::Usage;
    }
    let ghost rest = chars@.subrange(i + 1, end as int);
    assert(line@.skip(i + 1) =~= rest);
    let j = find_space(&chars, i + 1, end);
    assert(rest.take(j - (i + 1)) =~= chars@.subrange(i + 1, j as int));
    if !is_add_keyword(&chars, i + 1, j) {
        return Command::Invoke { name: line.substring_char(i + 1, j).to_owned() };
    }
    if j == end {
        return Command::AddUsage;
    }
    let ghost entry = chars@.subrange(j + 1, end as int);
    assert(rest.skip(j - (i + 1) + 1) =~= entry);
    let k = find_space(&chars, j + 1, end);
    if k == end {
        return Command::AddUsage;
    }
    assert(entry.take(k - (j + 1)) =~= chars@.subrange(j + 1, k as int));
    assert(entry.skip(k - (j + 1) + 1) =~= chars@.subrange(k + 1, end as int));
    Command::Add {
        name: line.substring_char(j + 1, k).to_owned(),
        response: line.substring_char(k + 1, end).to_owned(),
    }
}

/// The reply to `!cmd` without a subcommand.
pub open spec fn usage_text() -> Seq<char> {
    "Usage: !cmd <command>"@
}

/// The reply to `!cmd add` without a name and a response.
pub open spec fn add_usage_text() -> Seq<char> {
    "Usage: !cmd add <name> <response>"@
}

/// The reply to a name that the registry does not hold.
pub open spec fn not_found_text() -> Seq<char> {
    "Command not found."@
}

/// The reply that confirms an insertion: it holds the name and the response.
pub open spec fn added_text(name: Seq<char>, response: Seq<char>) -> Seq<char> {
    "Added command "@ + name + " -> "@ + response
}

/// The reply to an insertion that failed.
pub open spec fn add_failed_text(error: RegistryError) -> Seq<char> {
    "Error adding command: "@ + error.message_text()
}

/// The reply to `!cmd add <name> <response>`, given how the insertion ended.
pub open spec fn add_reply_text(
    name: Seq<char>,
    response: Seq<char>,
    outcome: Result<(), RegistryError>,
) -> Seq<char> {
    match outcome {
        Ok(_) => added_text(name, response),
        Err(error) => add_failed_text(error),
    }
}

/// The reply to `!cmd <name>`, given what the lookup found: the stored
/// response as it is, or the notice that there is none.
pub open spec fn invoke_reply_text(found: Option<Seq<char>>) -> Seq<char> {
    match found {
        Some(response) => response,
        None => not_found_text(),
    }
}

/// The reply to `!cmd add <name> <response>`, given how the insertion ended.
pub fn add_reply(name: &str, response: &str, outcome: Result<(), RegistryError>) -> (reply: String)
    ensures
        reply@ == add_reply_text(name@, response@, outcome),
{
    match outcome {
        Ok(_) => "Added command ".to_owned().concat(name).concat(" -> ").concat(response),
        Err(error) => {
            let message = error.message();
            "Error adding command: ".to_owned().concat(message.as_str())
        },
    }
}

/// The reply to `!cmd <name>`, given what the lookup found.
pub fn invoke_reply(found: Option<String>) -> (reply: String)
    ensures
        reply@ == invoke_reply_text(found.deep_view()),
{
    match found {
        Some(response) => response,
        None => "Command not found.".to_owned(),
    }
}

/// What carrying out `command` leaves of `table`, and the reply, where the
/// insertion succeeds and nothing else changes the table meanwhile. Only
/// `Add` changes the table.
pub open spec fn outcome_of(table: Map<Seq<char>, Seq<char>>, command: CommandView) -> (
    Map<Seq<char>, Seq<char>>,
    Seq<char>,
) {
    match command {
        CommandView::Usage => (table, usage_text()),
        CommandView::AddUsage => (table, add_usage_text()),
        CommandView::Add { name, response } => (
            table.insert(name, response),
            added_text(name, response),
        ),
        CommandView::Invoke { name } => (table, invoke_reply_text(table.get(name))),
    }
}

/// Carries out `command` on a table that the caller holds alone, and returns
/// the reply.
pub fn execute_on(command: Command, table: &mut CommandTable) -> (reply: String)
    ensures
        (final(table)@, reply@) == outcome_of(old(table)@, command@),
{
    match command {
        Command::Usage => "Usage: !cmd <command>".to_owned(),
        Command::AddUsage => "Usage: !cmd add <name> <response>".to_owned(),
        Command::Add { name, response } => {
            let reply = add_reply(name.as_str(), response.as_str(), Ok(()));
            table.insert(name, response);
            reply
        },
        Command::Invoke { name } => invoke_reply(table.lookup(name.as_str())),
    }
}

/// Whether `reply` is an answer of `registry` to a request to store
/// `response` under `name`: the reply to the outcome of one insertion into
/// the registry.
pub open spec fn answers_add(
    registry: &CommandRegistry,
    name: Seq<char>,
    response: Seq<char>,
    reply: Seq<char>,
) -> bool {
    exists|outcome: Result<(), RegistryError>| #[trigger]
        registry.inserted(name, response, outcome) && reply == add_reply_text(
            name,
            response,
            outcome,
        )
}

/// Whether `reply` is an answer of `registry` to a request for the response
/// stored under `name`: the reply to what one lookup in the registry finds.
pub open spec fn answers_invoke(registry: &CommandRegistry, name: Seq<char>, reply: Seq<char>) -> bool {
    exists|found: Option<Seq<char>>| #[trigger]
        registry.looked_up(name, found) && reply == invoke_reply_text(found)
}

/// Whether `reply` is an answer of `registry` to `command`. The usage replies
/// are fixed; the others go by one insertion into the registry or by one
/// lookup in it.
pub open spec fn answers(registry: &CommandRegistry, command: CommandView, reply: Seq<char>) -> bool {
    match command {
        CommandView::Usage => reply == usage_text(),
        CommandView::AddUsage => reply == add_usage_text(),
        CommandView::Add { name, response } => answers_add(registry, name, response, reply),
        CommandView::Invoke { name } => answers_invoke(registry, name, reply),
    }
}

/// Carries out `command` on a shared registry and returns the reply. `Add`
/// makes one insertion and `Invoke` one lookup; the usage forms do not touch
/// the registry.
pub fn execute(command: Command, registry: &CommandRegistry) -> (reply: String)
    ensures
        answers(registry, command@, reply@),
{
    match command {
        Command::Usage => "Usage: !cmd <command>".to_owned(),
        Command::AddUsage => "Usage: !cmd add <name> <response>".to_owned(),
        Command::Add { name, response } => {
            let outcome = registry.insert(name.clone(), response.clone());
            let reply = add_reply(name.as_str(), response.as_str(), outcome);
            assert(registry.inserted(name@, response@, outcome));
            reply
        },
        Command::Invoke { name } => {
            let found = registry.lookup(name.as_str());
            let ghost seen = found.deep_view();
            let reply = invoke_reply(found);
            assert(registry.looked_up(name@, seen));
            reply
        },
    }
}

/// What the interpreter answers to a message.
#[derive(Clone, Debug, PartialEq, Eq)]
pub struct Answer {
    /// The text to send in reply.
    pub reply: String,
    /// Whether the reply goes to the diagnostic stream as well. It does where
    /// the message asked for an insertion, so that one that failed is on
    /// record.
    pub reported: bool,
}

/// Reads the command in `content`, carries it out on `registry` and returns
/// the answer.
pub fn interpret(content: &str, registry: &CommandRegistry) -> (answer: Answer)
    ensures
        answers(registry, parse_spec(content@), answer.reply@),
        answer.reported == (parse_spec(content@) is Add),
{
    let command = parse(content);
    let reported = command.is_add();
    Answer { reply: execute(command, registry), reported }
}

/// The literals of the grammar, character by character.
proof fn lemma_literals()
    ensures
        "!cmd"@ == seq!['!', 'c', 'm', 'd'],
        "add"@ == seq!['a', 'd', 'd'],
        "!cmd "@ == "!cmd"@ + seq![' '],
        "!cmd add"@ == "!cmd"@ + seq![' '] + "add"@,
        "!cmd add "@ == "!cmd"@ + seq![' '] + "add"@ + seq![' '],
        " "@ == seq![' '],
        !"!cmd"@.contains(' '),
        !"add"@.contains(' '),
{
    reveal_strlit("!cmd");
    reveal_strlit("add");
    reveal_strlit("!cmd ");
    reveal_strlit("!cmd add");
    reveal_strlit("!cmd add ");
    reveal_strlit(" ");
    assert("!cmd"@ =~= seq!['!', 'c', 'm', 'd']);
    assert("add"@ =~= seq!['a', 'd', 'd']);
    assert("!cmd "@ =~= "!cmd"@ + seq![' ']);
    assert("!cmd add"@ =~= "!cmd"@ + seq![' '] + "add"@);
    assert("!cmd add "@ =~= "!cmd"@ + seq![' '] + "add"@ + seq![' ']);
    assert(" "@ =~= seq![' ']);
}

/// `!cmd` alone asks for the usage, and `!cmd add` alone for the usage of
/// `add`.
pub proof fn lemma_parse_bare()
    ensures
        parse_spec("!cmd"@) == CommandView::Usage,
        parse_spec("!cmd add"@) == CommandView::AddUsage,
{
    lemma_literals();
    lemma_trim_identity("!cmd"@);
    lemma_split_once_whole("!cmd"@);
    let line = "!cmd add"@;
    assert(line.first() == '!');
    assert(line.last() == 'd');
    lemma_trim_identity(line);
    lemma_split_once_joined("!cmd"@, "add"@);
    lemma_split_once_whole("add"@);
}

/// `!cmd <name>` asks for the response stored under `name`, for every name
/// but `add` that holds no space and does not end in whitespace.
pub proof fn lemma_parse_invoke(name: Seq<char>)
    requires
        name.len() > 0,
        !name.contains(' '),
        !is_whitespace(name.last()),
        name != add_keyword(),
    ensures
        parse_spec("!cmd "@ + name) == (CommandView::Invoke { name }),
{
    lemma_literals();
    let line = "!cmd "@ + name;
    assert(line =~= "!cmd"@ + seq![' '] + name);
    assert(line.first() == '!');
    assert(line.last() == name.last());
    lemma_trim_identity(line);
    lemma_split_once_joined("!cmd"@, name);
    lemma_split_once_whole(name);
}

/// `!cmd add <name>` without a response asks for the usage of `add`.
pub proof fn lemma_parse_add_without_response(name: Seq<char>)
    requires
        name.len() > 0,
        !name.contains(' '),
        !is_whitespace(name.last()),
    ensures
        parse_spec("!cmd add "@ + name) == CommandView::AddUsage,
{
    lemma_literals();
    let line = "!cmd add "@ + name;
    assert(line =~= "!cmd"@ + seq![' '] + ("add"@ + seq![' '] + name));
    assert(line.first() == '!');
    assert(line.last() == name.last());
    lemma_trim_identity(line);
    lemma_split_once_joined("!cmd"@, "add"@ + seq![' '] + name);
    lemma_split_once_joined("add"@, name);
    lemma_split_once_whole(name);
}

/// `!cmd add <name> <response>` asks to store `response` under `name`, spaces
/// within the response included, for every name that holds no space and every
/// response that does not end in whitespace.
pub proof fn lemma_parse_add(name: Seq<char>, response: Seq<char>)
    requires
        !name.contains(' '),
        response.len() > 0,
        !is_whitespace(response.last()),
    ensures
        parse_spec("!cmd add "@ + name + " "@ + response) == (CommandView::Add { name, response }),
{
    lemma_literals();
    let line = "!cmd add "@ + name + " "@ + response;
    let entry = name + seq![' '] + response;
    assert(line =~= "!cmd"@ + seq![' '] + ("add"@ + seq![' '] + entry));
    assert(line.first() == '!');
    assert(line.last() == response.last());
    lemma_trim_identity(line);
    lemma_split_once_joined("!cmd"@, "add"@ + seq![' '] + entry);
    lemma_split_once_joined("add"@, entry);
    lemma_split_once_joined(name, response);
}

/// The confirmation of an insertion holds the name and the response.
pub proof fn lemma_added_text_holds_both(name: Seq<char>, response: Seq<char>)
    ensures
        has_substring(added_text(name, response), name),
        has_substring(added_text(name, response), response),
{
    let text = added_text(name, response);
    let a = "Added command "@.len() as int;
    let b = a + name.len() + " -> "@.len();
    assert(text.subrange(a, a + name.len()) =~= name);
    assert(occurs_at(text, name, a));
    assert(text.subrange(b, b + response.len()) =~= response);
    assert(occurs_at(text, response, b));
}

/// A registry answers as the holder of a table is answered. What it replies
/// to `Invoke` on the read access that its lock gave is what `outcome_of`
/// replies on the table that the access shows. What it replies to `Add` on
/// write access is what `outcome_of` replies on the table that the access
/// holds, and the access is left with the table that `outcome_of` leaves.
pub proof fn lemma_registry_answers_as_table<'a>(
    registry: &'a CommandRegistry,
    command: CommandView,
    reading: LockResult<RwLockReadGuard<'a, CommandTable>>,
    writing: RwLockWriteGuard<'a, CommandTable>,
    kept: Result<RwLockWriteGuard<'a, CommandTable>, RegistryError>,
)
    ensures
        command is Invoke && registry.reads(reading) ==> answers(
            registry,
            command,
            outcome_of(readable(reading), command).1,
        ),
        command matches CommandView::Add { name, response } && registry.writes(Ok(writing))
            && stored(Ok(writing), name, response, kept) ==> {
            &&& answers(registry, command, outcome_of(held(writing), command).1)
            &&& held(kept->Ok_0) == outcome_of(held(writing), command).0
        },
{
    match command {
        CommandView::Invoke { name } => {
            if registry.reads(reading) {
                let found = readable(reading).get(name);
                assert(registry.looked_up(name, found));
            }
        },
        CommandView::Add { name, response } => {
            let access: LockResult<RwLockWriteGuard<'a, CommandTable>> = Ok(writing);
            if registry.writes(access) && stored(access, name, response, kept) {
                assert(registry.inserted(name, response, Ok(())));
            }
        },
        _ => {},
    }
}

/// `!cmd add <name> <response>` stores the response under the name and
/// confirms with a reply that holds both.
pub proof fn lemma_add_stores_and_confirms(
    table: Map<Seq<char>, Seq<char>>,
    name: Seq<char>,
    response: Seq<char>,
)
    requires
        !name.contains(' '),
        response.len() > 0,
        !is_whitespace(response.last()),
    ensures
        outcome_of(table, parse_spec("!cmd add "@ + name + " "@ + response)) == (
            table.insert(name, response),
            added_text(name, response),
        ),
        has_substring(added_text(name, response), name),
        has_substring(added_text(name, response), response),
{
    lemma_parse_add(name, response);
    lemma_added_text_holds_both(name, response);
}

/// `!cmd add` with a name and no response, or with neither, is answered with
/// the usage of `add` and leaves the table as it is.
pub proof fn lemma_add_without_response_changes_nothing(
    table: Map<Seq<char>, Seq<char>>,
    name: Seq<char>,
)
    requires
        name.len() > 0,
        !name.contains(' '),
        !is_whitespace(name.last()),
    ensures
        outcome_of(table, parse_spec("!cmd add "@ + name)) == (table, add_usage_text()),
        outcome_of(table, parse_spec("!cmd add"@)) == (table, add_usage_text()),
{
    lemma_parse_add_without_response(name);
    lemma_parse_bare();
}

/// A stored response is replied as it is: once `!cmd add <name> <response>`
/// has stored the response, `!cmd <name>` is answered with the response
/// itself and leaves the table as it is.
pub proof fn lemma_stored_response_is_replied(
    table: Map<Seq<char>, Seq<char>>,
    name: Seq<char>,
    response: Seq<char>,
)
    requires
        name.len() > 0,
        !name.contains(' '),
        !is_whitespace(name.last()),
        name != add_keyword(),
        response.len() > 0,
        !is_whitespace(response.last()),
    ensures
        ({
            let stored = outcome_of(table, parse_spec("!cmd add "@ + name + " "@ + response)).0;
            outcome_of(stored, parse_spec("!cmd "@ + name)) == (stored, response)
        }),
{
    lemma_parse_add(name, response);
    lemma_parse_invoke(name);
}

/// A name that the table does not hold is answered with the notice that
/// there is no such command.
pub proof fn lemma_unknown_name_is_not_found(table: Map<Seq<char>, Seq<char>>, name: Seq<char>)
    requires
        name.len() > 0,
        !name.contains(' '),
        !is_whitespace(name.last()),
        name != add_keyword(),
        !table.contains_key(name),
    ensures
        outcome_of(table, parse_spec("!cmd "@ + name)) == (table, not_found_text()),
{
    lemma_parse_invoke(name);
}

} // verus!
