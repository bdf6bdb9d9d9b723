//! Chat values as clients send and receive them.

use vstd::prelude::*;
use vstd::std_specs::convert::FromSpecImpl;

use crate::record::RecordId;

use super::db::{DBChat, DBChatMessage, DBChatMessageData, DBCreateChatMessage, DBJoinChat, DBJoinChatData};

verus! {

/// The content a new chat is created with.
#[derive(Clone, Debug, PartialEq)]
pub struct CreateChat {
    pub events: Vec<RecordId>,
}

impl CreateChat {
    /// A new chat starts without events.
    pub fn empty() -> (c: CreateChat)
        ensures
            c.events@.len() == 0,
    {
        CreateChat { events: Vec::new() }
    }
}

#[derive(Clone, Debug, PartialEq)]
pub struct Chat {
    pub id: RecordId,
    pub events: Vec<RecordId>,
}

impl From<DBChat> for Chat {
    fn from(data: DBChat) -> (r: Self)
        ensures
            r.id == data.id,
            r.events == data.events,
    {
        Self { id: data.id, events: data.events }
    }
}

impl FromSpecImpl<DBChat> for Chat {
    open spec fn obeys_from_spec() -> bool {
        true
    }

    open spec fn from_spec(data: DBChat) -> Chat {
        Chat { id: data.id, events: data.events }
    }
}

#[derive(Clone, Debug, PartialEq)]
pub struct ChatMessage {
    pub user: RecordId,
    pub data: ChatMessageData,
}

impl From<DBChatMessage> for ChatMessage {
    fn from(data: DBChatMessage) -> (r: Self)
        ensures
            r.user == data.user,
            r.data.chat == data.data.chat,
            r.data.username == data.data.username,
            r.data.text == data.data.text,
    {
        Self { user: data.user, data: data.data.into() }
    }
}

impl FromSpecImpl<DBChatMessage> for ChatMessage {
    open spec fn obeys_from_spec() -> bool {
        true
    }

    open spec fn from_spec(data: DBChatMessage) -> ChatMessage {
        ChatMessage { user: data.user, data: ChatMessageData {
            chat: data.data.chat,
            username: data.data.username,
            text: data.data.text,
        } }
    }
}

impl From<DBCreateChatMessage> for ChatMessage {
    fn from(data: DBCreateChatMessage) -> (r: Self)
        ensures
            r.user == data.user,
            r.data.chat == data.data.chat,
            r.data.username == data.data.username,
            r.data.text == data.data.text,
    {
        Self { user: data.user, data: data.data.into() }
    }
}

impl FromSpecImpl<DBCreateChatMessage> for ChatMessage {
    open spec fn obeys_from_spec() -> bool {
        true
    }

    open spec fn from_spec(data: DBCreateChatMessage) -> ChatMessage {
        ChatMessage { user: data.user, data: ChatMessageData {
            chat: data.data.chat,
            username: data.data.username,
            text: data.data.text,
        } }
    }
}

#[derive(Clone, Debug, PartialEq)]
pub struct ChatMessageData {
    pub chat: RecordId,
    pub username: String,
    pub text: String,
}

impl From<DBChatMessageData> for ChatMessageData {
    fn from(data: DBChatMessageData) -> (r: Self)
        ensures
            r.chat == data.chat,
            r.username == data.username,
            r.text == data.text,
    {
        Self { chat: data.chat, username: data.username, text: data.text }
    }
}

impl FromSpecImpl<DBChatMessageData> for ChatMessageData {
    open spec fn obeys_from_spec() -> bool {
        true
    }

    open spec fn from_spec(data: DBChatMessageData) -> ChatMessageData {
        ChatMessageData { chat: data.chat, username: data.username, text: data.text }
    }
}

#[derive(Clone, Debug, PartialEq)]
pub struct JoinChat {
    pub user: RecordId,
    pub data: JoinChatData,
}

impl From<DBJoinChat> for JoinChat {
    fn from(data: DBJoinChat) -> (r: Self)
        ensures
            r.user == data.user,
            r.data.chat == data.data.chat,
            r.data.username == data.data.username,
    {
        Self { user: data.user, data: data.data.into() }
    }
}

impl FromSpecImpl<DBJoinChat> for JoinChat {
    open spec fn obeys_from_spec() -> bool {
        true
    }

    open spec fn from_spec(data: DBJoinChat) -> JoinChat {
        JoinChat { user: data.user, data: JoinChatData { chat: data.data.chat, username: data.data.username } }
    }
}

#[derive(Clone, Debug, PartialEq)]
pub struct JoinChatData {
    pub chat: RecordId,
    pub username: String,
}

impl From<DBJoinChatData> for JoinChatData {
    fn from(data: DBJoinChatData) -> (r: Self)
        ensures
            r.chat == data.chat,
            r.username == data.username,
    {
        Self { chat: data.chat, username: data.username }
    }
}

impl FromSpecImpl<DBJoinChatData> for JoinChatData {
    open spec fn obeys_from_spec() -> bool {
        true
    }

    open spec fn from_spec(data: DBJoinChatData) -> JoinChatData {
        JoinChatData { chat: data.chat, username: data.username }
    }
}

} // verus!
