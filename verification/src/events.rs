//! The events that are stored in the database.

use vstd::prelude::*;

use crate::chats::db::{DBCreateChatMessage, DBJoinChat};
use crate::chats::messages::CreateChat;
use crate::users::db::DBUserChanged;

verus! {

#[derive(Clone, Debug, PartialEq)]
pub enum Event {
    CreateChat(CreateChat),
    JoinChat(DBJoinChat),
    UserJoined(DBJoinChat),
    SendChatMessage(DBCreateChatMessage),
    ChatMessageSent(DBCreateChatMessage),
    UserChanged(DBUserChanged),
}

} // verus!
