use surreal_chat::actions::{create_event, join_target, Action};
use surreal_chat::chats::db::{DBChatMessageData, DBCreateChatMessage, DBJoinChat, DBJoinChatData};
use surreal_chat::chats::messages::{ChatMessage, ChatMessageData, CreateChat, JoinChat, JoinChatData};
use surreal_chat::events::Event;
use surreal_chat::record::RecordId;
use surreal_chat::users::db::{DBUser, DBUserChanged};
use surreal_chat::users::messages::{User, UserChanged};

fn rid(tb: &str, id: &str) -> RecordId {
    RecordId::from_parts(tb, id)
}

fn db_join() -> DBJoinChat {
    DBJoinChat {
        user: rid("user", "john"),
        data: DBJoinChatData { chat: rid("chat", "general"), username: "john".to_string() },
    }
}

fn db_message() -> DBCreateChatMessage {
    DBCreateChatMessage {
        user: rid("user", "john"),
        data: DBChatMessageData {
            chat: rid("chat", "general"),
            username: "john".to_string(),
            text: "hello".to_string(),
        },
    }
}

#[test]
fn create_chat_action_becomes_create_chat_event() {
    let c = CreateChat { events: vec![rid("event", "a")] };
    assert_eq!(create_event(Action::CreateChat(c.clone())), Some(Event::CreateChat(c)));
}

#[test]
fn join_action_becomes_stored_join() {
    let join = JoinChat {
        user: rid("user", "john"),
        data: JoinChatData { chat: rid("chat", "general"), username: "john".to_string() },
    };
    assert_eq!(create_event(Action::JoinChat(join)), Some(Event::JoinChat(db_join())));
}

#[test]
fn send_action_becomes_stored_message() {
    let msg = ChatMessage {
        user: rid("user", "john"),
        data: ChatMessageData {
            chat: rid("chat", "general"),
            username: "john".to_string(),
            text: "hello".to_string(),
        },
    };
    assert_eq!(create_event(Action::SendChatMessage(msg)), Some(Event::SendChatMessage(db_message())));
}

#[test]
fn other_actions_store_nothing() {
    let joined: Action = Event::UserJoined(db_join()).into();
    assert_eq!(create_event(joined), None);
    let sent: Action = Event::ChatMessageSent(db_message()).into();
    assert_eq!(create_event(sent), None);
    let changed = Action::UserChanged(UserChanged {
        user: rid("user", "a"),
        data: User { id: rid("user", "a"), username: "a".to_string() },
    });
    assert_eq!(create_event(changed), None);
}

#[test]
fn events_report_as_matching_actions() {
    let a: Action = Event::UserChanged(DBUserChanged {
        user: rid("user", "a"),
        data: DBUser { id: rid("user", "a"), username: "ann".to_string() },
    })
    .into();
    assert_eq!(
        a,
        Action::UserChanged(UserChanged {
            user: rid("user", "a"),
            data: User { id: rid("user", "a"), username: "ann".to_string() },
        })
    );
    let j: Action = Event::JoinChat(db_join()).into();
    assert_eq!(join_target(&j), Some(&rid("chat", "general")));
    let s: Action = Event::SendChatMessage(db_message()).into();
    assert_eq!(join_target(&s), None);
}

#[test]
fn client_events_round_trip_through_actions() {
    for e in [Event::JoinChat(db_join()), Event::SendChatMessage(db_message()), Event::CreateChat(CreateChat { events: vec![] })] {
        assert_eq!(create_event(Action::from(e.clone())), Some(e));
    }
}
