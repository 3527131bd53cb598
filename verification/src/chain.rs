//! Entries of the message chain.

use vstd::prelude::*;

verus! {

/// Token counts reported with an assistant message.
#[derive(Clone, Debug)]
pub struct Usage {
    pub input_tokens: u32,
    pub output_tokens: u32,
}

/// A chat message in its structured form.
#[derive(Clone, Debug)]
pub enum Message {
    User { content: String },
    Assistant {
        content: String,
        id: String,
        model: String,
        stop_reason: String,
        stop_sequence: Option<String>,
        message_type: String,
        usage: Usage,
    },
}

impl Message {
    /// The characters of the message's text.
    pub open spec fn content_text(&self) -> Seq<char> {
        match self {
            Message::User { content } => content@,
            Message::Assistant { content, .. } => content@,
        }
    }

    /// The message's text, whoever wrote it.
    pub fn content(&self) -> (text: &str)
        ensures
            text@ == self.content_text(),
    {
        match self {
            Message::User { content } => content.as_str(),
            Message::Assistant { content, .. } => content.as_str(),
        }
    }
}

/// A chat message in either of the two forms in which the store holds them.
#[derive(Clone, Debug)]
pub enum ChatMessage {
    /// The earlier form: a role and the text.
    Simple { role: String, content: String },
    /// The later form.
    Structured(Message),
}

impl ChatMessage {
    /// The characters of the message's text.
    pub open spec fn content_text(&self) -> Seq<char> {
        match self {
            ChatMessage::Simple { content, .. } => content@,
            ChatMessage::Structured(message) => message.content_text(),
        }
    }

    /// The message's text, whatever its form.
    pub fn content(&self) -> (text: &str)
        ensures
            text@ == self.content_text(),
    {
        match self {
            ChatMessage::Simple { content, .. } => content.as_str(),
            ChatMessage::Structured(message) => message.content(),
        }
    }
}

/// A reply of an actor, as it is sent to the host and as rollups hold it.
#[derive(Clone, Debug)]
pub struct ChildMessage {
    /// The identity of the actor that replies.
    pub child_id: String,
    pub text: String,
    pub html: Option<String>,
    /// The chain entry that the reply answers.
    pub parent_id: Option<String>,
    /// The members of the reply's data object, by key.
    pub data: Vec<(String, String)>,
}

/// What a chain entry carries.
#[derive(Clone, Debug)]
pub enum MessageData {
    Chat(ChatMessage),
    /// Replies gathered from actors. They are never read for commands.
    ChildRollup(Vec<ChildMessage>),
}

/// One entry of the message chain.
#[derive(Clone, Debug)]
pub struct ChainEntry {
    pub parent: Option<String>,
    pub id: Option<String>,
    pub data: MessageData,
}

} // verus!
