//! What the import has to say, for the caller's log.

use vstd::prelude::*;

verus! {

/// How a message is meant.
#[derive(Debug, Clone, Copy, PartialEq, Eq, Structural)]
pub enum Level {
    Info,
    Error,
}

/// A line for the log.
#[derive(Debug, PartialEq, Eq)]
pub struct Message {
    pub level: Level,
    pub text: String,
}

/// What a [`Message`] holds, its text as characters.
pub struct MessageView {
    pub level: Level,
    pub text: Seq<char>,
}

impl View for Message {
    type V = MessageView;

    open spec fn view(&self) -> MessageView {
        MessageView { level: self.level, text: self.text@ }
    }
}

} // verus!
