//! User messages as clients see them and as the database stores them.

use vstd::prelude::*;
use vstd::std_specs::convert::FromSpecImpl;

use surrealdb::sql::Datetime;

use crate::record::RecordId;

verus! {

#[derive(Clone, Debug, PartialEq)]
pub struct UserMessage {
    pub data: UserMessageData,
    pub created_at: Option<Datetime>,
}

#[derive(Clone, Debug, PartialEq)]
pub struct UserMessageData {
    pub id: RecordId,
    pub username: String,
}

#[derive(Clone, Debug, PartialEq)]
pub struct DBUserMessage {
    pub data: DBUserMessageData,
    pub created_at: Option<Datetime>,
}

#[derive(Clone, Debug, PartialEq)]
pub struct DBUserMessageData {
    pub id: RecordId,
    pub username: String,
}

impl From<DBUserMessageData> for UserMessageData {
    fn from(data: DBUserMessageData) -> (r: Self)
        ensures
            r.id == data.id,
            r.username == data.username,
    {
        Self { id: data.id, username: data.username }
    }
}

impl FromSpecImpl<DBUserMessageData> for UserMessageData {
    open spec fn obeys_from_spec() -> bool {
        true
    }

    open spec fn from_spec(data: DBUserMessageData) -> UserMessageData {
        UserMessageData { id: data.id, username: data.username }
    }
}

impl From<UserMessageData> for DBUserMessageData {
    fn from(data: UserMessageData) -> (r: Self)
        ensures
            r.id == data.id,
            r.username == data.username,
    {
        Self { id: data.id, username: data.username }
    }
}

impl FromSpecImpl<UserMessageData> for DBUserMessageData {
    open spec fn obeys_from_spec() -> bool {
        true
    }

    open spec fn from_spec(data: UserMessageData) -> DBUserMessageData {
        DBUserMessageData { id: data.id, username: data.username }
    }
}

impl From<DBUserMessage> for UserMessage {
    fn from(data: DBUserMessage) -> (r: Self)
        ensures
            r.created_at == data.created_at,
            r.data.id == data.data.id,
            r.data.username == data.data.username,
    {
        Self { created_at: data.created_at, data: data.data.into() }
    }
}

impl FromSpecImpl<DBUserMessage> for UserMessage {
    open spec fn obeys_from_spec() -> bool {
        true
    }

    open spec fn from_spec(data: DBUserMessage) -> UserMessage {
        UserMessage {
            created_at: data.created_at,
            data: UserMessageData { id: data.data.id, username: data.data.username },
        }
    }
}

impl From<UserMessage> for DBUserMessage {
    fn from(data: UserMessage) -> (r: Self)
        ensures
            r.created_at == data.created_at,
            r.data.id == data.data.id,
            r.data.username == data.data.username,
    {
        Self { created_at: data.created_at, data: data.data.into() }
    }
}

impl FromSpecImpl<UserMessage> for DBUserMessage {
    open spec fn obeys_from_spec() -> bool {
        true
    }

    open spec fn from_spec(data: UserMessage) -> DBUserMessage {
        DBUserMessage {
            created_at: data.created_at,
            data: DBUserMessageData { id: data.data.id, username: data.data.username },
        }
    }
}

} // verus!
