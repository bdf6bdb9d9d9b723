//! How the event processor turns a client's message into a stored chat
//! event.

use vstd::prelude::*;

use crate::record::RecordId;
use crate::surreal::EventMessage;

verus! {

/// The chat event the processor stores for a message: its type, the user
/// and chat it concerns and, for a message, its text. It is stored with the
/// current time and related to the chat.
#[derive(Clone, Debug, PartialEq)]
pub struct ChatEventRecord {
    pub event_type: String,
    pub user: RecordId,
    pub chat: RecordId,
    pub text: Option<String>,
}

/// A `joinChat` message is stored as a `chatJoined` event, a
/// `sendChatMessage` message as a `chatMessageSent` event, each with the
/// user, chat and text it carries; other messages store nothing.
pub open spec fn record_of(event: EventMessage) -> Option<(Seq<char>, RecordId, RecordId, Option<String>)> {
    match event {
        EventMessage::JoinChat(m) => Some(("chatJoined"@, m.data.user, m.data.chat, m.data.text)),
        EventMessage::SendChatMessage(m) => Some(
            ("chatMessageSent"@, m.data.user, m.data.chat, m.data.text),
        ),
        _ => None,
    }
}

/// The chat event to store for a message, if any.
pub fn event_record(event: EventMessage) -> (r: Option<ChatEventRecord>)
    ensures
        match record_of(event) {
            None => r is None,
            Some((t, user, chat, text)) => r matches Some(rec) && rec.event_type@ == t && rec.user
                == user && rec.chat == chat && rec.text == text,
        },
        event matches EventMessage::JoinChat(m) ==> r matches Some(rec) && rec.event_type@
            == "chatJoined"@ && rec.user == m.data.user && rec.chat == m.data.chat && rec.text
            == m.data.text,
        event matches EventMessage::SendChatMessage(m) ==> r matches Some(rec) && rec.event_type@
            == "chatMessageSent"@ && rec.user == m.data.user && rec.chat == m.data.chat
            && rec.text == m.data.text,
        !(event is JoinChat || event is SendChatMessage) ==> r is None,
{
    match event {
        EventMessage::JoinChat(m) => Some(
            ChatEventRecord {
                event_type: "chatJoined".to_owned(),
                user: m.data.user,
                chat: m.data.chat,
                text: m.data.text,
            },
        ),
        EventMessage::SendChatMessage(m) => Some(
            ChatEventRecord {
                event_type: "chatMessageSent".to_owned(),
                user: m.data.user,
                chat: m.data.chat,
                text: m.data.text,
            },
        ),
        _ => None,
    }
}

} // verus!

verus! {

/// The stored chat event of a message keeps the message's user as its user,
/// its chat as its chat and its text as its text; a join is stored as
/// `chatJoined`, a sent message as `chatMessageSent`, and nothing else is
/// stored.
pub proof fn lemma_record_keeps_the_message_fields(event: EventMessage)
    ensures
        event matches EventMessage::JoinChat(m) ==> record_of(event) == Some(
            ("chatJoined"@, m.data.user, m.data.chat, m.data.text),
        ),
        event matches EventMessage::SendChatMessage(m) ==> record_of(event) == Some(
            ("chatMessageSent"@, m.data.user, m.data.chat, m.data.text),
        ),
        record_of(event) is Some <==> (event is JoinChat || event is SendChatMessage),
{
}

} // verus!
