//! The messages that flow between clients, the event processor and the
//! database, and their stored forms.

pub mod chat;
pub mod user;

use vstd::prelude::*;
use vstd::std_specs::convert::{FromSpec, FromSpecImpl};

use chat::models::{ChatMessage, DBChatMessage};
use user::models::{DBUserMessage, UserMessage};

verus! {

/// A message as clients send it and as the processor forwards it.
#[derive(Clone, Debug, PartialEq)]
pub enum EventMessage {
    ChangeUser(UserMessage),
    UserChanged(UserMessage),
    JoinChat(ChatMessage),
    ChatJoined(ChatMessage),
    SendChatMessage(ChatMessage),
    ChatMessageSent(ChatMessage),
}

/// A message in the form the database stores it.
#[derive(Clone, Debug, PartialEq)]
pub enum SurrealEvent {
    ChangeUser(DBUserMessage),
    UserChanged(DBUserMessage),
    JoinChat(DBChatMessage),
    ChatJoined(DBChatMessage),
    SendChatMessage(DBChatMessage),
    ChatMessageSent(DBChatMessage),
}

pub open spec fn stored_user(m: UserMessage) -> DBUserMessage {
    <DBUserMessage as FromSpec<UserMessage>>::from_spec(m)
}

pub open spec fn read_user(m: DBUserMessage) -> UserMessage {
    <UserMessage as FromSpec<DBUserMessage>>::from_spec(m)
}

pub open spec fn stored_chat(m: ChatMessage) -> DBChatMessage {
    <DBChatMessage as FromSpec<ChatMessage>>::from_spec(m)
}

pub open spec fn read_chat(m: DBChatMessage) -> ChatMessage {
    <ChatMessage as FromSpec<DBChatMessage>>::from_spec(m)
}

/// The stored form of a message: the same variant, its payload stored.
pub open spec fn stored_event(event: EventMessage) -> SurrealEvent {
    match event {
        EventMessage::ChangeUser(d) => SurrealEvent::ChangeUser(stored_user(d)),
        EventMessage::UserChanged(d) => SurrealEvent::UserChanged(stored_user(d)),
        EventMessage::JoinChat(d) => SurrealEvent::JoinChat(stored_chat(d)),
        EventMessage::ChatJoined(d) => SurrealEvent::ChatJoined(stored_chat(d)),
        EventMessage::SendChatMessage(d) => SurrealEvent::SendChatMessage(stored_chat(d)),
        EventMessage::ChatMessageSent(d) => SurrealEvent::ChatMessageSent(stored_chat(d)),
    }
}

/// The message read from a stored event: the same variant, its payload read.
pub open spec fn read_event(event: SurrealEvent) -> EventMessage {
    match event {
        SurrealEvent::ChangeUser(d) => EventMessage::ChangeUser(read_user(d)),
        SurrealEvent::UserChanged(d) => EventMessage::UserChanged(read_user(d)),
        SurrealEvent::JoinChat(d) => EventMessage::JoinChat(read_chat(d)),
        SurrealEvent::ChatJoined(d) => EventMessage::ChatJoined(read_chat(d)),
        SurrealEvent::SendChatMessage(d) => EventMessage::SendChatMessage(read_chat(d)),
        SurrealEvent::ChatMessageSent(d) => EventMessage::ChatMessageSent(read_chat(d)),
    }
}

impl From<EventMessage> for SurrealEvent {
    fn from(event: EventMessage) -> (r: Self) {
        match event {
            EventMessage::ChangeUser(data) => SurrealEvent::ChangeUser(data.into()),
            EventMessage::UserChanged(data) => SurrealEvent::UserChanged(data.into()),
            EventMessage::JoinChat(data) => SurrealEvent::JoinChat(data.into()),
            EventMessage::ChatJoined(data) => SurrealEvent::ChatJoined(data.into()),
            EventMessage::SendChatMessage(data) => SurrealEvent::SendChatMessage(data.into()),
            EventMessage::ChatMessageSent(data) => SurrealEvent::ChatMessageSent(data.into()),
        }
    }
}

impl FromSpecImpl<EventMessage> for SurrealEvent {
    open spec fn obeys_from_spec() -> bool {
        true
    }

    open spec fn from_spec(event: EventMessage) -> SurrealEvent {
        stored_event(event)
    }
}

impl From<SurrealEvent> for EventMessage {
    fn from(event: SurrealEvent) -> (r: Self) {
        match event {
            SurrealEvent::ChangeUser(data) => EventMessage::ChangeUser(data.into()),
            SurrealEvent::UserChanged(data) => EventMessage::UserChanged(data.into()),
            SurrealEvent::JoinChat(data) => EventMessage::JoinChat(data.into()),
            SurrealEvent::ChatJoined(data) => EventMessage::ChatJoined(data.into()),
            SurrealEvent::SendChatMessage(data) => EventMessage::SendChatMessage(data.into()),
            SurrealEvent::ChatMessageSent(data) => EventMessage::ChatMessageSent(data.into()),
        }
    }
}

impl FromSpecImpl<SurrealEvent> for EventMessage {
    open spec fn obeys_from_spec() -> bool {
        true
    }

    open spec fn from_spec(event: SurrealEvent) -> EventMessage {
        read_event(event)
    }
}

/// Storing a message keeps its kind and every field in place: the same
/// user, chat, text, identifier, name and time.
pub proof fn lemma_store_keeps_fields(event: EventMessage)
    ensures
        event matches EventMessage::ChangeUser(m) ==> stored_event(event) matches SurrealEvent::ChangeUser(d) && d.data.id
            == m.data.id && d.data.username == m.data.username && d.created_at == m.created_at,
        event matches EventMessage::UserChanged(m) ==> stored_event(event) matches SurrealEvent::UserChanged(d) && d.data.id
            == m.data.id && d.data.username == m.data.username && d.created_at == m.created_at,
        event matches EventMessage::JoinChat(m) ==> stored_event(event) matches SurrealEvent::JoinChat(d) && d.data.user
            == m.data.user && d.data.chat == m.data.chat && d.data.text == m.data.text
            && d.created_at == m.created_at,
        event matches EventMessage::ChatJoined(m) ==> stored_event(event) matches SurrealEvent::ChatJoined(d) && d.data.user
            == m.data.user && d.data.chat == m.data.chat && d.data.text == m.data.text
            && d.created_at == m.created_at,
        event matches EventMessage::SendChatMessage(m) ==> stored_event(event) matches SurrealEvent::SendChatMessage(d) && d.data.user
            == m.data.user && d.data.chat == m.data.chat && d.data.text == m.data.text
            && d.created_at == m.created_at,
        event matches EventMessage::ChatMessageSent(m) ==> stored_event(event) matches SurrealEvent::ChatMessageSent(d) && d.data.user
            == m.data.user && d.data.chat == m.data.chat && d.data.text == m.data.text
            && d.created_at == m.created_at,
{
}

/// Reading a stored event keeps its kind and every field in place.
pub proof fn lemma_read_keeps_fields(event: SurrealEvent)
    ensures
        event matches SurrealEvent::ChangeUser(m) ==> read_event(event) matches EventMessage::ChangeUser(d) && d.data.id
            == m.data.id && d.data.username == m.data.username && d.created_at == m.created_at,
        event matches SurrealEvent::UserChanged(m) ==> read_event(event) matches EventMessage::UserChanged(d) && d.data.id
            == m.data.id && d.data.username == m.data.username && d.created_at == m.created_at,
        event matches SurrealEvent::JoinChat(m) ==> read_event(event) matches EventMessage::JoinChat(d) && d.data.user
            == m.data.user && d.data.chat == m.data.chat && d.data.text == m.data.text
            && d.created_at == m.created_at,
        event matches SurrealEvent::ChatJoined(m) ==> read_event(event) matches EventMessage::ChatJoined(d) && d.data.user
            == m.data.user && d.data.chat == m.data.chat && d.data.text == m.data.text
            && d.created_at == m.created_at,
        event matches SurrealEvent::SendChatMessage(m) ==> read_event(event) matches EventMessage::SendChatMessage(d) && d.data.user
            == m.data.user && d.data.chat == m.data.chat && d.data.text == m.data.text
            && d.created_at == m.created_at,
        event matches SurrealEvent::ChatMessageSent(m) ==> read_event(event) matches EventMessage::ChatMessageSent(d) && d.data.user
            == m.data.user && d.data.chat == m.data.chat && d.data.text == m.data.text
            && d.created_at == m.created_at,
{
}

/// Storing a message and reading it back gives the same message.
pub proof fn lemma_store_then_read(event: EventMessage)
    ensures
        read_event(stored_event(event)) == event,
{
}

/// Reading a stored event and storing it again gives the same stored event.
pub proof fn lemma_read_then_store(event: SurrealEvent)
    ensures
        stored_event(read_event(event)) == event,
{
}

} // verus!
