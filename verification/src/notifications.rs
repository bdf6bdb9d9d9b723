//! What a client that joined a chat is told about the chat's events, and the
//! queries that read those events.

use vstd::prelude::*;
use vstd::string::*;

use surrealdb::sql::Datetime;

use crate::record::{record_raw, RecordId};
use crate::surreal::{read_event, EventMessage, SurrealEvent};

verus! {

/// The chat that a `joinChat` message asks to follow; no other message asks
/// to follow one.
pub fn join_target(event: &EventMessage) -> (r: Option<&RecordId>)
    ensures
        match *event {
            EventMessage::JoinChat(m) => r == Some(&m.data.chat),
            _ => r is None,
        },
{
    match event {
        EventMessage::JoinChat(payload) => Some(&payload.data.chat),
        _ => None,
    }
}

/// The live query that follows the events related to a chat, each with the
/// name of the user it comes from.
pub fn live_events_query(chat: &RecordId) -> (q: String)
    ensures
        q@ == "LIVE SELECT out.* as event, out.data.user.username as username FROM chat_events WHERE in = "@
            + record_raw(*chat) + ";"@,
{
    let raw = chat.to_raw();
    String::from_str(
        "LIVE SELECT out.* as event, out.data.user.username as username FROM chat_events WHERE in = ",
    ).concat(raw.as_str()).concat(";")
}

/// The query that reads the events of the chat with key `id`, each with the
/// name of the user it comes from.
pub fn chat_events_query(id: &str) -> (q: String)
    ensures
        q@ == "SELECT out[*] AS event, out.data.user.username AS username FROM chat_events WHERE in = chat:"@
            + id@ + ";"@,
{
    String::from_str(
        "SELECT out[*] AS event, out.data.user.username AS username FROM chat_events WHERE in = chat:",
    ).concat(id).concat(";")
}

/// The kinds of chat events that are reported to clients.
#[derive(Clone, Copy, Debug, PartialEq, Eq)]
pub enum ReplyKind {
    ChatJoined,
    ChatMessageSent,
}

impl ReplyKind {
    /// The `type` a client sees for this kind.
    pub fn kind_name(&self) -> (t: &'static str)
        ensures
            *self == ReplyKind::ChatJoined ==> t@ == "chatJoined"@,
            *self == ReplyKind::ChatMessageSent ==> t@ == "chatMessageSent"@,
    {
        match self {
            ReplyKind::ChatJoined => "chatJoined",
            ReplyKind::ChatMessageSent => "chatMessageSent",
        }
    }
}

/// What a client is told about one chat event: its kind, when it happened,
/// who caused it and, for a message, the message's text.
#[derive(Clone, Debug, PartialEq)]
pub struct ChatReply {
    pub kind: ReplyKind,
    pub created_at: Option<Datetime>,
    pub username: String,
    /// `Some` (the message's text, itself optional) for a sent message;
    /// `None` for a join, whose reply has no text.
    pub text: Option<Option<String>>,
}

/// What a client is told about a stored event: a join or a sent message is
/// reported with its time, the user's name and, for a message, its text;
/// other events are not reported.
pub open spec fn reply_of(event: SurrealEvent, username: String) -> Option<ChatReply> {
    match read_event(event) {
        EventMessage::ChatJoined(m) => Some(
            ChatReply {
                kind: ReplyKind::ChatJoined,
                created_at: m.created_at,
                username,
                text: None,
            },
        ),
        EventMessage::ChatMessageSent(m) => Some(
            ChatReply {
                kind: ReplyKind::ChatMessageSent,
                created_at: m.created_at,
                username,
                text: Some(m.data.text),
            },
        ),
        _ => None,
    }
}

/// A reported event carries the stored event's own time, the given user name
/// and, for a message, the stored text; only joins and sent messages are
/// reported.
pub proof fn lemma_reply_keeps_time_name_and_text(event: SurrealEvent, username: String)
    ensures
        event matches SurrealEvent::ChatJoined(d) ==> reply_of(event, username) matches Some(r)
            && r.kind == ReplyKind::ChatJoined && r.created_at == d.created_at && r.username
            == username && r.text is None,
        event matches SurrealEvent::ChatMessageSent(d) ==> reply_of(event, username) matches Some(
            r,
        ) && r.kind == ReplyKind::ChatMessageSent && r.created_at == d.created_at && r.username
            == username && r.text == Some(d.data.text),
        reply_of(event, username) is Some <==> (event is ChatJoined || event is ChatMessageSent),
{
}

/// The reply for one notification of the live query.
pub fn reply_for(event: SurrealEvent, username: String) -> (r: Option<ChatReply>)
    ensures
        r == reply_of(event, username),
        event matches SurrealEvent::ChatJoined(d) ==> r == Some(
            ChatReply {
                kind: ReplyKind::ChatJoined,
                created_at: d.created_at,
                username,
                text: None,
            },
        ),
        event matches SurrealEvent::ChatMessageSent(d) ==> r == Some(
            ChatReply {
                kind: ReplyKind::ChatMessageSent,
                created_at: d.created_at,
                username,
                text: Some(d.data.text),
            },
        ),
        !(event is ChatJoined || event is ChatMessageSent) ==> r is None,
{
    let message: EventMessage = event.into();
    match message {
        EventMessage::ChatJoined(m) => Some(
            ChatReply {
                kind: ReplyKind::ChatJoined,
                created_at: m.created_at,
                username,
                text: None,
            },
        ),
        EventMessage::ChatMessageSent(m) => Some(
            ChatReply {
                kind: ReplyKind::ChatMessageSent,
                created_at: m.created_at,
                username,
                text: Some(m.data.text),
            },
        ),
        _ => None,
    }
}

} // verus!
