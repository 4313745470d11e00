//! The message event that a dispatch works on, and the record that the log
//! keeps of it.

use vstd::prelude::*;
use vstd::string::StringExecFns;

verus! {

/// One observed message. A dispatch reads it and never changes it.
#[derive(Clone, Debug, PartialEq, Eq)]
pub struct MessageEvent {
    pub author_name: String,
    pub timestamp: String,
    pub content: String,
    /// Where the message was seen. It is carried for the gateway and not
    /// looked at here.
    pub channel_reference: u64,
}

/// The line that the log keeps of a message: `[timestamp] author: content`
/// and a line feed.
pub open spec fn log_line(timestamp: Seq<char>, author_name: Seq<char>, content: Seq<char>) -> Seq<
    char,
> {
    "["@ + timestamp + "] "@ + author_name + ": "@ + content + "\n"@
}

impl MessageEvent {
    /// The line that the log keeps of this message.
    pub fn log_record(&self) -> (record: String)
        ensures
            record@ == log_line(self.timestamp@, self.author_name@, self.content@),
    {
        "[".to_owned().concat(self.timestamp.as_str()).concat("] ").concat(
            self.author_name.as_str(),
        ).concat(": ").concat(self.content.as_str()).concat("\n")
    }
}

} // verus!
