//! The wire format: what a client may ask for, what the server may tell it,
//! and the JSON text of both.
//!
//! Every frame is one JSON object with a string member `type`. A client
//! sends `join` with a `room`, `message` with a `text`, or `leave`. The
//! server sends `message` with `from`, `room` and `text`, `joined` with a
//! `room`, or `error` with a `reason`.
//!
//! A text that is valid JSON but is none of the three commands is an
//! unrecognized command, which the session answers with an error frame. A
//! text that is not JSON at all, or is longer than the frame limit, cannot
//! be decoded, and the session that received it is closed.

use vstd::prelude::*;
use crate::json::{
    no_members,
    object_new,
    object_put,
    object_render,
    object_text,
    optional_text,
    parse,
    parsed_members,
    text_member,
};
use crate::message::{optional_view, ChatMessage, ChatMessageView};

verus! {

/// What a client asks of the server in one frame.
#[derive(Clone, Debug, PartialEq, Eq)]
pub enum Command {
    /// Move to the named room.
    Join { room: String },
    /// Say something to the current room.
    Message { text: String },
    /// Go back to the default room.
    Leave,
    /// Valid JSON that is none of the above.
    Unrecognized,
}

/// A command as mathematics.
pub enum CommandView {
    Join { room: Seq<char> },
    Message { text: Seq<char> },
    Leave,
    Unrecognized,
}

impl View for Command {
    type V = CommandView;

    open spec fn view(&self) -> CommandView {
        match self {
            Command::Join { room } => CommandView::Join { room: room@ },
            Command::Message { text } => CommandView::Message { text: text@ },
            Command::Leave => CommandView::Leave,
            Command::Unrecognized => CommandView::Unrecognized,
        }
    }
}

/// Why a frame could not be decoded at all.
#[derive(Clone, Copy, Debug, PartialEq, Eq, Structural)]
pub enum DecodeFault {
    /// The frame is longer than the limit allows.
    TooLarge,
    /// The frame is not JSON.
    Malformed,
}

/// What the server tells a client in one frame.
#[derive(Clone, Debug, PartialEq, Eq)]
pub enum ServerEvent {
    /// Someone in the client's room said something.
    Message(ChatMessage),
    /// The client's last frame was not understood.
    Error { reason: String },
    /// The client is now in the named room.
    Joined { room: String },
}

/// A server event as mathematics.
pub enum ServerEventView {
    Message(ChatMessageView),
    Error { reason: Seq<char> },
    Joined { room: Seq<char> },
}

impl View for ServerEvent {
    type V = ServerEventView;

    open spec fn view(&self) -> ServerEventView {
        match self {
            ServerEvent::Message(message) => ServerEventView::Message(message@),
            ServerEvent::Error { reason } => ServerEventView::Error { reason: reason@ },
            ServerEvent::Joined { room } => ServerEventView::Joined { room: room@ },
        }
    }
}

/// The length of a text in bytes of UTF-8, as `str::len` reports it.
pub open spec fn byte_len(text: Seq<char>) -> usize {
    vstd::utf8::encode_utf8(text).len() as usize
}

/// The string member `key` of a document, if it has one.
pub open spec fn member(members: Map<Seq<char>, Seq<char>>, key: Seq<char>) -> Option<Seq<char>> {
    if members.contains_key(key) {
        Some(members[key])
    } else {
        None
    }
}

/// The command that the members `type`, `room` and `text` of a frame stand
/// for. A command whose argument is missing is not recognized.
pub open spec fn classify_fields(
    kind: Option<Seq<char>>,
    room: Option<Seq<char>>,
    text: Option<Seq<char>>,
) -> CommandView {
    match kind {
        Some(kind) => {
            if kind == "join"@ {
                match room {
                    Some(room) => CommandView::Join { room },
                    None => CommandView::Unrecognized,
                }
            } else if kind == "message"@ {
                match text {
                    Some(text) => CommandView::Message { text },
                    None => CommandView::Unrecognized,
                }
            } else if kind == "leave"@ {
                CommandView::Leave
            } else {
                CommandView::Unrecognized
            }
        },
        None => CommandView::Unrecognized,
    }
}

/// The command that a document with the given string members stands for.
pub open spec fn command_of(members: Map<Seq<char>, Seq<char>>) -> CommandView {
    classify_fields(member(members, "type"@), member(members, "room"@), member(members, "text"@))
}

/// What decoding a frame gives, under a limit on its length in bytes.
pub open spec fn decoded(text: Seq<char>, max_bytes: usize) -> Result<CommandView, DecodeFault> {
    if byte_len(text) > max_bytes {
        Err(DecodeFault::TooLarge)
    } else {
        match parsed_members(text) {
            Some(members) => Ok(command_of(members)),
            None => Err(DecodeFault::Malformed),
        }
    }
}

/// The members of the JSON object that an event is written as.
pub open spec fn event_members(event: ServerEventView) -> Map<Seq<char>, Option<Seq<char>>> {
    match event {
        ServerEventView::Message(message) => no_members().insert(
            "type"@,
            Some("message"@),
        ).insert("from"@, message.from).insert("room"@, Some(message.room)).insert(
            "text"@,
            Some(message.text),
        ),
        ServerEventView::Error { reason } => no_members().insert("type"@, Some("error"@)).insert(
            "reason"@,
            Some(reason),
        ),
        ServerEventView::Joined { room } => no_members().insert("type"@, Some("joined"@)).insert(
            "room"@,
            Some(room),
        ),
    }
}

/// The frame that an event is written as.
pub open spec fn frame_text(event: ServerEventView) -> Seq<char> {
    object_text(event_members(event))
}

/// Whether a string is exactly the given word.
fn is_word(text: &String, word: &str) -> (same: bool)
    ensures
        same == (text@ == word@),
{
    let owned: String = word.to_owned();
    *text == owned
}

/// The command that the members `type`, `room` and `text` of a frame stand
/// for.
pub fn classify(kind: Option<String>, room: Option<String>, text: Option<String>) -> (command:
    Command)
    ensures
        command@ == classify_fields(optional_view(kind), optional_view(room), optional_view(text)),
{
    match kind {
        Some(kind) => {
            if is_word(&kind, "join") {
                match room {
                    Some(room) => Command::Join { room },
                    None => Command::Unrecognized,
                }
            } else if is_word(&kind, "message") {
                match text {
                    Some(text) => Command::Message { text },
                    None => Command::Unrecognized,
                }
            } else if is_word(&kind, "leave") {
                Command::Leave
            } else {
                Command::Unrecognized
            }
        },
        None => Command::Unrecognized,
    }
}

/// Decodes one inbound frame of at most `max_bytes` bytes.
pub fn decode(text: &str, max_bytes: usize) -> (outcome: Result<Command, DecodeFault>)
    ensures
        match outcome {
            Ok(command) => decoded(text@, max_bytes) == Ok::<CommandView, DecodeFault>(command@),
            Err(fault) => decoded(text@, max_bytes) == Err::<CommandView, DecodeFault>(fault),
        },
{
    if text.len() > max_bytes {
        return Err(DecodeFault::TooLarge);
    }
    match parse(text) {
        Ok(document) => {
            let kind = text_member(&document, "type");
            let room = text_member(&document, "room");
            let said = text_member(&document, "text");
            Ok(classify(kind, room, said))
        },
        Err(_) => Err(DecodeFault::Malformed),
    }
}

/// A borrowed form of an optional string.
fn borrow_optional(value: &Option<String>) -> (borrowed: Option<&str>)
    ensures
        optional_text(borrowed) == optional_view(*value),
{
    match value {
        Some(text) => Some(text.as_str()),
        None => None,
    }
}

/// Encodes one outbound frame.
pub fn encode(event: &ServerEvent) -> (frame: String)
    ensures
        frame@ == frame_text(event@),
{
    let mut object = object_new();
    match event {
        ServerEvent::Message(message) => {
            object_put(&mut object, "type", Some("message"));
            object_put(&mut object, "from", borrow_optional(&message.from));
            object_put(&mut object, "room", Some(message.room.as_str()));
            object_put(&mut object, "text", Some(message.text.as_str()));
        },
        ServerEvent::Error { reason } => {
            object_put(&mut object, "type", Some("error"));
            object_put(&mut object, "reason", Some(reason.as_str()));
        },
        ServerEvent::Joined { room } => {
            object_put(&mut object, "type", Some("joined"));
            object_put(&mut object, "room", Some(room.as_str()));
        },
    }
    object_render(object)
}

} // verus!
