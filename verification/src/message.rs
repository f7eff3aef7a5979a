//! The chat message that travels from one session, through the registry, to
//! the other sessions of a room.

use vstd::prelude::*;

verus! {

/// A text that a session sent to its room.
#[derive(Debug, PartialEq, Eq)]
pub struct ChatMessage {
    /// The display name of the sender, if it has announced one.
    pub from: Option<String>,
    /// The room the message was sent to.
    pub room: String,
    /// What was said.
    pub text: String,
}

/// A chat message as mathematics.
pub struct ChatMessageView {
    pub from: Option<Seq<char>>,
    pub room: Seq<char>,
    pub text: Seq<char>,
}

/// The text of an optional string.
pub open spec fn optional_view(value: Option<String>) -> Option<Seq<char>> {
    match value {
        Some(text) => Some(text@),
        None => None,
    }
}

/// A copy of an optional string.
pub fn copy_optional(value: &Option<String>) -> (copy: Option<String>)
    ensures
        copy == *value,
{
    match value {
        Some(text) => Some(text.clone()),
        None => None,
    }
}

impl View for ChatMessage {
    type V = ChatMessageView;

    open spec fn view(&self) -> ChatMessageView {
        ChatMessageView { from: optional_view(self.from), room: self.room@, text: self.text@ }
    }
}

impl Clone for ChatMessage {
    fn clone(&self) -> (copy: Self)
        ensures
            copy == *self,
    {
        ChatMessage {
            from: copy_optional(&self.from),
            room: self.room.clone(),
            text: self.text.clone(),
        }
    }
}

} // verus!
