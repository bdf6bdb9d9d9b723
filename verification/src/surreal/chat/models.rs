//! Chat messages as clients see them and as the database stores them.

use vstd::prelude::*;
use vstd::std_specs::convert::FromSpecImpl;

use surrealdb::sql::Datetime;

use crate::record::RecordId;

verus! {

#[derive(Clone, Debug, PartialEq)]
pub struct ChatMessage {
    pub data: ChatMessageData,
    pub created_at: Option<Datetime>,
}

#[derive(Clone, Debug, PartialEq)]
pub struct ChatMessageData {
    pub user: RecordId,
    pub chat: RecordId,
    pub text: Option<String>,
}

#[derive(Clone, Debug, PartialEq)]
pub struct DBChatMessage {
    pub data: DBChatMessageData,
    pub created_at: Option<Datetime>,
}

#[derive(Clone, Debug, PartialEq)]
pub struct DBChatMessageData {
    pub user: RecordId,
    pub chat: RecordId,
    pub text: Option<String>,
}

impl From<DBChatMessage> for ChatMessage {
    fn from(data: DBChatMessage) -> (r: Self)
        ensures
            r.created_at == data.created_at,
            r.data.user == data.data.user,
            r.data.chat == data.data.chat,
            r.data.text == data.data.text,
    {
        Self { created_at: data.created_at, data: data.data.into() }
    }
}

impl FromSpecImpl<DBChatMessage> for ChatMessage {
    open spec fn obeys_from_spec() -> bool {
        true
    }

    open spec fn from_spec(data: DBChatMessage) -> ChatMessage {
        ChatMessage {
            created_at: data.created_at,
            data: ChatMessageData {
                user: data.data.user,
                chat: data.data.chat,
                text: data.data.text,
            },
        }
    }
}

impl From<ChatMessage> for DBChatMessage {
    fn from(data: ChatMessage) -> (r: Self)
        ensures
            r.created_at == data.created_at,
            r.data.user == data.data.user,
            r.data.chat == data.data.chat,
            r.data.text == data.data.text,
    {
        Self { created_at: data.created_at, data: data.data.into() }
    }
}

impl FromSpecImpl<ChatMessage> for DBChatMessage {
    open spec fn obeys_from_spec() -> bool {
        true
    }

    open spec fn from_spec(data: ChatMessage) -> DBChatMessage {
        DBChatMessage {
            created_at: data.created_at,
            data: DBChatMessageData {
                user: data.data.user,
                chat: data.data.chat,
                text: data.data.text,
            },
        }
    }
}

impl From<DBChatMessageData> for ChatMessageData {
    fn from(data: DBChatMessageData) -> (r: Self)
        ensures
            r.user == data.user,
            r.chat == data.chat,
            r.text == data.text,
    {
        Self { user: data.user, chat: data.chat, text: data.text }
    }
}

impl FromSpecImpl<DBChatMessageData> for ChatMessageData {
    open spec fn obeys_from_spec() -> bool {
        true
    }

    open spec fn from_spec(data: DBChatMessageData) -> ChatMessageData {
        ChatMessageData { user: data.user, chat: data.chat, text: data.text }
    }
}

impl From<ChatMessageData> for DBChatMessageData {
    fn from(data: ChatMessageData) -> (r: Self)
        ensures
            r.user == data.user,
            r.chat == data.chat,
            r.text == data.text,
    {
        Self { user: data.user, chat: data.chat, text: data.text }
    }
}

impl FromSpecImpl<ChatMessageData> for DBChatMessageData {
    open spec fn obeys_from_spec() -> bool {
        true
    }

    open spec fn from_spec(data: ChatMessageData) -> DBChatMessageData {
        DBChatMessageData { user: data.user, chat: data.chat, text: data.text }
    }
}

} // verus!
