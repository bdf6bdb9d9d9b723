use surreal_chat::record::RecordId;
use surreal_chat::serde::string_thing::deserialize;
use surreal_chat::surreal::chat::models::{ChatMessage, ChatMessageData, DBChatMessage};
use surreal_chat::surreal::user::models::{DBUserMessage, UserMessage, UserMessageData};
use surreal_chat::surreal::{EventMessage, SurrealEvent};

fn thing(raw: &str) -> RecordId {
    deserialize(raw).unwrap()
}

#[test]
fn test_change_user_into_surreal_event() {
    let data = UserMessageData { id: thing("user:test"), username: "test".to_string() };
    let message = EventMessage::ChangeUser(UserMessage { created_at: None, data });

    let event: SurrealEvent = message.into();

    match event {
        SurrealEvent::ChangeUser(data) => {
            assert_eq!(data.data.id, thing("user:test"));
            assert_eq!(data.data.username, "test");
        }
        _ => panic!("unexpected event: {:?}", event),
    }
}

fn chat_message(text: Option<&str>) -> ChatMessage {
    ChatMessage {
        data: ChatMessageData {
            user: thing("user:john"),
            chat: thing("chat:general"),
            text: text.map(|t| t.to_string()),
        },
        created_at: None,
    }
}

#[test]
fn every_message_variant_keeps_its_kind_when_stored() {
    let stored: SurrealEvent = EventMessage::SendChatMessage(chat_message(Some("hi"))).into();
    match stored {
        SurrealEvent::SendChatMessage(m) => {
            let read: ChatMessage = m.into();
            assert_eq!(read, chat_message(Some("hi")));
        }
        other => panic!("unexpected event: {:?}", other),
    }
    let stored: SurrealEvent = EventMessage::ChatJoined(chat_message(None)).into();
    assert!(matches!(stored, SurrealEvent::ChatJoined(_)));
    let stored: SurrealEvent = EventMessage::UserChanged(UserMessage {
        data: UserMessageData { id: thing("user:x"), username: "x".to_string() },
        created_at: None,
    })
    .into();
    assert!(matches!(stored, SurrealEvent::UserChanged(_)));
}

#[test]
fn store_then_read_gives_the_message_back() {
    let messages = vec![
        EventMessage::ChangeUser(UserMessage {
            data: UserMessageData { id: thing("user:a"), username: "a".to_string() },
            created_at: None,
        }),
        EventMessage::JoinChat(chat_message(None)),
        EventMessage::ChatMessageSent(chat_message(Some("hello"))),
    ];
    for m in messages {
        let stored: SurrealEvent = m.clone().into();
        let read: EventMessage = stored.into();
        assert_eq!(read, m);
    }
}

#[test]
fn read_then_store_gives_the_stored_event_back() {
    let user = DBUserMessage {
        data: surreal_chat::surreal::user::models::DBUserMessageData {
            id: thing("user:b"),
            username: "b".to_string(),
        },
        created_at: None,
    };
    let event = SurrealEvent::UserChanged(user);
    let read: EventMessage = event.clone().into();
    let stored: SurrealEvent = read.into();
    assert_eq!(stored, event);
    let chat: DBChatMessage = chat_message(Some("t")).into();
    let back: ChatMessage = chat.clone().into();
    assert_eq!(DBChatMessage::from(back), chat);
}
