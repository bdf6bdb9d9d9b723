//! Chat records as they are stored in the database.
//!
//! Clients see the types of the `messages` module instead.

use vstd::prelude::*;

use crate::record::RecordId;

verus! {

/// A chat as retrieved from the database: its identifier and the events
/// that happened in it, oldest first.
#[derive(Clone, Debug, PartialEq)]
pub struct DBChat {
    pub id: RecordId,
    pub events: Vec<RecordId>,
}

impl DBChat {
    /// The most recent event of the chat, if it has any.
    pub fn last_event(&self) -> (r: Option<&RecordId>)
        ensures
            self.events@.len() == 0 ==> r is None,
            self.events@.len() > 0 ==> r == Some(&self.events@.last()),
    {
        let n = self.events.len();
        if n == 0 {
            None
        } else {
            Some(&self.events[n - 1])
        }
    }
}

/// The event of a user sending a chat message.
#[derive(Clone, Debug, PartialEq)]
pub struct DBCreateChatMessage {
    pub user: RecordId,
    pub data: DBChatMessageData,
}

/// A stored chat message.
#[derive(Clone, Debug, PartialEq)]
pub struct DBChatMessage {
    pub id: RecordId,
    pub user: RecordId,
    pub data: DBChatMessageData,
}

#[derive(Clone, Debug, PartialEq)]
pub struct DBChatMessageData {
    pub chat: RecordId,
    pub username: String,
    pub text: String,
}

/// The event of a user joining a chat.
#[derive(Clone, Debug, PartialEq)]
pub struct DBJoinChat {
    pub user: RecordId,
    pub data: DBJoinChatData,
}

#[derive(Clone, Debug, PartialEq)]
pub struct DBJoinChatData {
    pub chat: RecordId,
    pub username: String,
}

} // verus!
