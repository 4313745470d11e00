//! The event dispatcher: for one message, the stages log, moderate, command
//! and fetch, in that order. Each step names the action of one stage and the
//! stage that follows; the caller performs the action and takes the next step
//! whether the action succeeded or not.

use crate::command::{answers, interpret, parse_spec};
use crate::event::{log_line, MessageEvent};
use crate::filter::{first_match, should_delete};
use crate::registry::CommandRegistry;
use crate::text::{equals, has_prefix, has_substring, occurs_at, starts_with};
use std::sync::Arc;
use vstd::prelude::*;
use vstd::string::StringExecFns;

verus! {

/// The stages of a dispatch.
#[derive(Clone, Copy, Debug, PartialEq, Eq)]
pub enum Stage {
    Log,
    Moderate,
    Command,
    Fetch,
    Done,
}

impl Stage {
    /// The stage that follows this one. No outcome of an action changes it.
    pub open spec fn next_stage(self) -> Stage {
        match self {
            Stage::Log => Stage::Moderate,
            Stage::Moderate => Stage::Command,
            Stage::Command => Stage::Fetch,
            Stage::Fetch => Stage::Done,
            Stage::Done => Stage::Done,
        }
    }

    /// The number of stages from this one to the end.
    pub open spec fn remaining(self) -> nat {
        match self {
            Stage::Log => 4,
            Stage::Moderate => 3,
            Stage::Command => 2,
            Stage::Fetch => 1,
            Stage::Done => 0,
        }
    }

    /// The stage that follows this one.
    pub fn next(self) -> (stage: Stage)
        ensures
            stage == self.next_stage(),
    {
        match self {
            Stage::Log => Stage::Moderate,
            Stage::Moderate => Stage::Command,
            Stage::Command => Stage::Fetch,
            Stage::Fetch => Stage::Done,
            Stage::Done => Stage::Done,
        }
    }

    /// Whether the dispatch is over.
    pub fn is_done(self) -> (done: bool)
        ensures
            done == (self == Stage::Done),
    {
        match self {
            Stage::Done => true,
            _ => false,
        }
    }
}

/// A dispatch is a single pass: every step but the last leaves fewer stages,
/// and four steps lead from the log stage to the end.
pub proof fn lemma_single_pass(stage: Stage)
    ensures
        stage != Stage::Done ==> stage.next_stage().remaining() < stage.remaining(),
        stage.remaining() == 0 <==> stage == Stage::Done,
        Stage::Log.next_stage().next_stage().next_stage().next_stage() == Stage::Done,
{
}

/// What the caller is to do for one stage.
#[derive(Clone, Debug, PartialEq, Eq)]
pub enum Action {
    /// The stage has no effect on this message.
    Nothing,
    /// Append the record to the message log.
    AppendLog(String),
    /// Ask the gateway to delete the message, which holds the banned term.
    DeleteMessage(String),
    /// Send the text in reply to the message.
    Reply(String),
    /// Send the text in reply to the message and write it to the diagnostic
    /// stream: the outcome of an insertion, done or failed.
    ReplyAndReport(String),
    /// Fetch the address and send `fetch_reply` of the outcome in reply.
    Fetch(String),
}

/// An `Action` over character sequences.
pub enum ActionView {
    Nothing,
    AppendLog(Seq<char>),
    DeleteMessage(Seq<char>),
    Reply(Seq<char>),
    ReplyAndReport(Seq<char>),
    Fetch(Seq<char>),
}

impl View for Action {
    type V = ActionView;

    open spec fn view(&self) -> ActionView {
        match self {
            Action::Nothing => ActionView::Nothing,
            Action::AppendLog(record) => ActionView::AppendLog(record@),
            Action::DeleteMessage(term) => ActionView::DeleteMessage(term@),
            Action::Reply(text) => ActionView::Reply(text@),
            Action::ReplyAndReport(text) => ActionView::ReplyAndReport(text@),
            Action::Fetch(url) => ActionView::Fetch(url@),
        }
    }
}

/// A fetch that failed: transport, name resolution or a status that is no
/// success, with no further distinction.
#[derive(Clone, Debug, PartialEq, Eq)]
pub struct FetchError {
    pub description: String,
}

/// The prefix of the messages that the command stage answers.
pub open spec fn command_trigger() -> Seq<char> {
    "!cmd"@
}

/// The message that the fetch stage answers.
pub open spec fn fetch_trigger() -> Seq<char> {
    "!api"@
}

/// The reply that carries what was fetched.
pub open spec fn fetched_text(body: Seq<char>) -> Seq<char> {
    "API Data: "@ + body
}

/// The reply to a fetch that failed: it holds the description of the failure.
pub open spec fn fetch_failed_text(description: Seq<char>) -> Seq<char> {
    "API Error: "@ + description
}

/// The reply to a fetch that failed holds the description of the failure.
pub proof fn lemma_fetch_failed_text_holds_description(description: Seq<char>)
    ensures
        has_substring(fetch_failed_text(description), description),
{
    let text = fetch_failed_text(description);
    let at = "API Error: "@.len() as int;
    assert(text.subrange(at, at + description.len()) =~= description);
    assert(occurs_at(text, description, at));
}

/// The reply of the fetch stage, given how the fetch ended. A failure ends in
/// a reply like a success does.
pub fn fetch_reply(outcome: Result<String, FetchError>) -> (reply: String)
    ensures
        reply@ == match outcome {
            Ok(body) => fetched_text(body@),
            Err(error) => fetch_failed_text(error.description@),
        },
        outcome matches Err(error) ==> has_substring(reply@, error.description@),
{
    match outcome {
        Ok(body) => "API Data: ".to_owned().concat(body.as_str()),
        Err(error) => {
            proof {
                lemma_fetch_failed_text_holds_description(error.description@);
            }
            "API Error: ".to_owned().concat(error.description.as_str())
        },
    }
}

/// The terms that are banned where the operator names none.
pub open spec fn default_banned() -> Seq<Seq<char>> {
    seq!["badword1"@, "badword2"@]
}

/// The address that is asked where the operator names none.
pub open spec fn default_url() -> Seq<char> {
    "https://api.example.com/data"@
}

/// The state that all dispatches share: the registry, and the terms and the
/// address that the operator sets.
pub struct Dispatcher {
    registry: Arc<CommandRegistry>,
    banned_terms: Vec<String>,
    api_url: String,
}

impl Dispatcher {
    /// The banned terms, in the order in which a message is held against
    /// them.
    pub closed spec fn banned(&self) -> Seq<Seq<char>> {
        self.banned_terms.deep_view()
    }

    /// The address that the fetch stage asks.
    pub closed spec fn url(&self) -> Seq<char> {
        self.api_url@
    }

    /// The registry that the command stage works on, which other dispatchers
    /// may hold as well.
    pub closed spec fn shared(&self) -> Arc<CommandRegistry> {
        self.registry
    }

    /// A dispatcher on `registry`.
    pub fn new(registry: Arc<CommandRegistry>, banned_terms: Vec<String>, api_url: String) -> (d:
        Dispatcher)
        ensures
            d.shared() == registry,
            d.banned() == banned_terms.deep_view(),
            d.url() == api_url@,
    {
        Dispatcher { registry, banned_terms, api_url }
    }

    /// A dispatcher on `registry` with the terms and the address that stand
    /// for the operator's own.
    pub fn with_defaults(registry: Arc<CommandRegistry>) -> (d: Dispatcher)
        ensures
            d.shared() == registry,
            d.banned() == default_banned(),
            d.url() == default_url(),
    {
        let mut banned_terms: Vec<String> = Vec::new();
        banned_terms.push("badword1".to_owned());
        banned_terms.push("badword2".to_owned());
        assert(banned_terms.deep_view() =~= default_banned());
        Dispatcher::new(registry, banned_terms, "https://api.example.com/data".to_owned())
    }

    /// The banned terms.
    pub fn banned_terms(&self) -> (terms: &Vec<String>)
        ensures
            terms.deep_view() == self.banned(),
    {
        &self.banned_terms
    }

    /// The address that the fetch stage asks.
    pub fn api_url(&self) -> (url: &str)
        ensures
            url@ == self.url(),
    {
        self.api_url.as_str()
    }

    /// Whether `action` is what the stage `stage` asks for on `event`.
    ///
    /// The log stage always asks for the record. The moderate stage asks for
    /// a deletion where the content holds a banned term, and names the first
    /// such term. The command stage answers every content that begins with
    /// `!cmd`, and has the answer to an insertion reported as well. The fetch
    /// stage asks for a fetch where the content is `!api` and nothing else.
    pub open spec fn asks(&self, stage: Stage, event: &MessageEvent, action: ActionView) -> bool {
        match stage {
            Stage::Log => action == ActionView::AppendLog(
                log_line(event.timestamp@, event.author_name@, event.content@),
            ),
            Stage::Moderate => action == match first_match(event.content@, self.banned()) {
                Some(term) => ActionView::DeleteMessage(term),
                None => ActionView::Nothing,
            },
            Stage::Command => if has_prefix(event.content@, command_trigger()) {
                let command = parse_spec(event.content@);
                match action {
                    ActionView::Reply(text) => !(command is Add) && answers(
                        &*self.shared(),
                        command,
                        text,
                    ),
                    ActionView::ReplyAndReport(text) => command is Add && answers(
                        &*self.shared(),
                        command,
                        text,
                    ),
                    _ => false,
                }
            } else {
                action == ActionView::Nothing
            },
            Stage::Fetch => if event.content@ == fetch_trigger() {
                action == ActionView::Fetch(self.url())
            } else {
                action == ActionView::Nothing
            },
            Stage::Done => action == ActionView::Nothing,
        }
    }

    /// Takes one step of the dispatch of `event`: the action of `stage`, and
    /// the stage that follows. No stage is skipped for what an earlier one
    /// found or for how its action ended.
    pub fn step(&self, stage: Stage, event: &MessageEvent) -> (r: (Action, Stage))
        ensures
            self.asks(stage, event, r.0@),
            r.1 == stage.next_stage(),
    {
        let action = match stage {
            Stage::Log => Action::AppendLog(event.log_record()),
            Stage::Moderate => match should_delete(
                event.content.as_str(),
                self.banned_terms.as_slice(),
            ) {
                Some(term) => Action::DeleteMessage(term),
                None => Action::Nothing,
            },
            Stage::Command => if starts_with(event.content.as_str(), "!cmd") {
                let answer = interpret(event.content.as_str(), &self.registry);
                if answer.reported {
                    Action::ReplyAndReport(answer.reply)
                } else {
                    Action::Reply(answer.reply)
                }
            } else {
                Action::Nothing
            },
            Stage::Fetch => if equals(event.content.as_str(), "!api") {
                Action::Fetch(self.api_url.clone())
            } else {
                Action::Nothing
            },
            Stage::Done => Action::Nothing,
        };
        (action, stage.next())
    }
}

} // verus!
