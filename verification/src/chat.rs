//! The message data model: who spoke, and what they said.

use vstd::prelude::*;

verus! {

/// The speaker of a chat message: either the assistant or the user.
#[derive(Clone, Copy, PartialEq, Eq, Structural, Debug)]
pub enum ChatRole {
    Assistant,
    User,
}

/// One entry of the ordered message log.
#[derive(Clone, Debug)]
pub struct ChatMessage {
    pub role: ChatRole,
    pub content: String,
}

/// The mathematical model of a message: its role and the characters of
/// its content.
pub struct MessageModel {
    pub role: ChatRole,
    pub content: Seq<char>,
}

impl View for ChatMessage {
    type V = MessageModel;

    open spec fn view(&self) -> MessageModel {
        MessageModel { role: self.role, content: self.content@ }
    }
}

impl PartialEq for ChatMessage {
    fn eq(&self, other: &ChatMessage) -> (r: bool) {
        self.role == other.role && self.content == other.content
    }
}

impl vstd::std_specs::cmp::PartialEqSpecImpl for ChatMessage {
    open spec fn obeys_eq_spec() -> bool {
        true
    }

    open spec fn eq_spec(&self, other: &ChatMessage) -> bool {
        self.role == other.role && self.content@ == other.content@
    }
}

/// An empty assistant message: the placeholder appended on submission,
/// shown as a typing animation until the first token arrives.
pub open spec fn is_placeholder(m: MessageModel) -> bool {
    m.role == ChatRole::Assistant && m.content.len() == 0
}

/// Decides whether a message is the empty assistant placeholder.
pub fn is_assistant_placeholder(m: &ChatMessage) -> (r: bool)
    ensures
        r == is_placeholder(m@),
{
    m.role == ChatRole::Assistant && m.content.as_str().is_empty()
}

} // verus!
