//! The actions that clients send, and how they become stored events.

use vstd::prelude::*;
use vstd::std_specs::convert::FromSpecImpl;

use crate::chats::db::{DBChatMessageData, DBCreateChatMessage, DBJoinChat, DBJoinChatData};
use crate::chats::messages::{ChatMessage, ChatMessageData, CreateChat, JoinChat, JoinChatData};
use crate::events::Event;
use crate::record::RecordId;
use crate::users::messages::{User, UserChanged};

verus! {

#[derive(Clone, Debug, PartialEq)]
pub enum Action {
    CreateChat(CreateChat),
    JoinChat(JoinChat),
    UserJoined(JoinChat),
    SendChatMessage(ChatMessage),
    ChatMessageSent(ChatMessage),
    UserChanged(UserChanged),
}

pub open spec fn join_chat_of(p: DBJoinChat) -> JoinChat {
    JoinChat { user: p.user, data: JoinChatData { chat: p.data.chat, username: p.data.username } }
}

pub open spec fn chat_message_of(p: DBCreateChatMessage) -> ChatMessage {
    ChatMessage {
        user: p.user,
        data: ChatMessageData {
            chat: p.data.chat,
            username: p.data.username,
            text: p.data.text,
        },
    }
}

/// The action that reports a stored event to clients.
pub open spec fn action_of(event: Event) -> Action {
    match event {
        Event::CreateChat(p) => Action::CreateChat(p),
        Event::JoinChat(p) => Action::JoinChat(join_chat_of(p)),
        Event::UserJoined(p) => Action::UserJoined(join_chat_of(p)),
        Event::SendChatMessage(p) => Action::SendChatMessage(chat_message_of(p)),
        Event::ChatMessageSent(p) => Action::ChatMessageSent(chat_message_of(p)),
        Event::UserChanged(p) => Action::UserChanged(
            UserChanged { user: p.user, data: User { id: p.data.id, username: p.data.username } },
        ),
    }
}

impl From<Event> for Action {
    fn from(event: Event) -> (r: Self)
        ensures
        match event {
            Event::CreateChat(p) => r == Action::CreateChat(p),
            Event::JoinChat(p) => r == Action::JoinChat(
                JoinChat {
                    user: p.user,
                    data: JoinChatData { chat: p.data.chat, username: p.data.username },
                },
            ),
            Event::UserJoined(p) => r == Action::UserJoined(
                JoinChat {
                    user: p.user,
                    data: JoinChatData { chat: p.data.chat, username: p.data.username },
                },
            ),
            Event::SendChatMessage(p) => r == Action::SendChatMessage(
                ChatMessage {
                    user: p.user,
                    data: ChatMessageData {
                        chat: p.data.chat,
                        username: p.data.username,
                        text: p.data.text,
                    },
                },
            ),
            Event::ChatMessageSent(p) => r == Action::ChatMessageSent(
                ChatMessage {
                    user: p.user,
                    data: ChatMessageData {
                        chat: p.data.chat,
                        username: p.data.username,
                        text: p.data.text,
                    },
                },
            ),
            Event::UserChanged(p) => r == Action::UserChanged(
                UserChanged { user: p.user, data: User { id: p.data.id, username: p.data.username } },
            ),
        },
    {
        match event {
            Event::CreateChat(payload) => Action::CreateChat(payload),
            Event::JoinChat(payload) => Action::JoinChat(payload.into()),
            Event::UserJoined(payload) => Action::UserJoined(payload.into()),
            Event::SendChatMessage(payload) => Action::SendChatMessage(payload.into()),
            Event::ChatMessageSent(payload) => Action::ChatMessageSent(payload.into()),
            Event::UserChanged(payload) => Action::UserChanged(payload.into()),
        }
    }
}

impl FromSpecImpl<Event> for Action {
    open spec fn obeys_from_spec() -> bool {
        true
    }

    open spec fn from_spec(event: Event) -> Action {
        action_of(event)
    }
}

/// The event that a client's action stores: creating a chat, joining one or
/// sending a message is stored; every other action is not.
pub open spec fn event_of(action: Action) -> Option<Event> {
    match action {
        Action::CreateChat(p) => Some(Event::CreateChat(p)),
        Action::JoinChat(p) => Some(
            Event::JoinChat(
                DBJoinChat {
                    user: p.user,
                    data: DBJoinChatData { chat: p.data.chat, username: p.data.username },
                },
            ),
        ),
        Action::SendChatMessage(p) => Some(
            Event::SendChatMessage(
                DBCreateChatMessage {
                    user: p.user,
                    data: DBChatMessageData {
                        chat: p.data.chat,
                        username: p.data.username,
                        text: p.data.text,
                    },
                },
            ),
        ),
        _ => None,
    }
}

/// The event to store for a client's action, if any.
pub fn create_event(action: Action) -> (r: Option<Event>)
    ensures
        r == event_of(action),
        action matches Action::CreateChat(p) ==> r == Some(Event::CreateChat(p)),
        action matches Action::JoinChat(p) ==> r matches Some(Event::JoinChat(d)) && d.user
            == p.user && d.data.chat == p.data.chat && d.data.username == p.data.username,
        action matches Action::SendChatMessage(p) ==> r matches Some(Event::SendChatMessage(d))
            && d.user == p.user && d.data.chat == p.data.chat && d.data.username
            == p.data.username && d.data.text == p.data.text,
        !(action is CreateChat || action is JoinChat || action is SendChatMessage) ==> r is None,
{
    match action {
        Action::CreateChat(payload) => Some(Event::CreateChat(payload)),
        Action::JoinChat(payload) => Some(
            Event::JoinChat(
                DBJoinChat {
                    user: payload.user,
                    data: DBJoinChatData {
                        chat: payload.data.chat,
                        username: payload.data.username,
                    },
                },
            ),
        ),
        Action::SendChatMessage(payload) => Some(
            Event::SendChatMessage(
                DBCreateChatMessage {
                    user: payload.user,
                    data: DBChatMessageData {
                        chat: payload.data.chat,
                        username: payload.data.username,
                        text: payload.data.text,
                    },
                },
            ),
        ),
        _ => None,
    }
}

/// Each stored event is reported as the action of the same kind, carrying the
/// same user, chat, name, text and data.
pub proof fn lemma_action_keeps_kind_and_fields(event: Event)
    ensures
        match event {
            Event::CreateChat(p) => action_of(event) == Action::CreateChat(p),
            Event::JoinChat(p) => action_of(event) == Action::JoinChat(
                JoinChat {
                    user: p.user,
                    data: JoinChatData { chat: p.data.chat, username: p.data.username },
                },
            ),
            Event::UserJoined(p) => action_of(event) == Action::UserJoined(
                JoinChat {
                    user: p.user,
                    data: JoinChatData { chat: p.data.chat, username: p.data.username },
                },
            ),
            Event::SendChatMessage(p) => action_of(event) == Action::SendChatMessage(
                ChatMessage {
                    user: p.user,
                    data: ChatMessageData {
                        chat: p.data.chat,
                        username: p.data.username,
                        text: p.data.text,
                    },
                },
            ),
            Event::ChatMessageSent(p) => action_of(event) == Action::ChatMessageSent(
                ChatMessage {
                    user: p.user,
                    data: ChatMessageData {
                        chat: p.data.chat,
                        username: p.data.username,
                        text: p.data.text,
                    },
                },
            ),
            Event::UserChanged(p) => action_of(event) == Action::UserChanged(
                UserChanged { user: p.user, data: User { id: p.data.id, username: p.data.username } },
            ),
        },
{
}

/// Creating a chat, joining one and sending a message are stored as the
/// event of the same kind with the same user, chat, name, text and events;
/// no other action stores anything.
pub proof fn lemma_event_keeps_kind_and_fields(action: Action)
    ensures
        action matches Action::CreateChat(p) ==> event_of(action) == Some(Event::CreateChat(p)),
        action matches Action::JoinChat(p) ==> event_of(action) matches Some(Event::JoinChat(d)) && d.user
            == p.user && d.data.chat == p.data.chat && d.data.username == p.data.username,
        action matches Action::SendChatMessage(p) ==> event_of(action) matches Some(Event::SendChatMessage(d))
            && d.user == p.user && d.data.chat == p.data.chat && d.data.username
            == p.data.username && d.data.text == p.data.text,
        !(action is CreateChat || action is JoinChat || action is SendChatMessage) ==> event_of(action) is None,
{
}

/// The chat that a join action asks to follow.
pub fn join_target(action: &Action) -> (r: Option<&RecordId>)
    ensures
        match *action {
            Action::JoinChat(p) => r == Some(&p.data.chat),
            _ => r is None,
        },
{
    match action {
        Action::JoinChat(payload) => Some(&payload.data.chat),
        _ => None,
    }
}

/// An event that a client can cause (creating a chat, joining one, sending a
/// message), reported as an action and stored again, is the same event. The
/// other events are reported, but their actions store nothing.
pub proof fn lemma_stored_event_round_trip(event: Event)
    ensures
        event_of(action_of(event)) == (match event {
            Event::CreateChat(_) | Event::JoinChat(_) | Event::SendChatMessage(_) => Some(event),
            _ => None,
        }),
{
}

} // verus!
