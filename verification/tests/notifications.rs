use surreal_chat::notifications::{
    chat_events_query, join_target, live_events_query, reply_for, ChatReply, ReplyKind,
};
use surreal_chat::record::RecordId;
use surreal_chat::surreal::chat::models::{ChatMessage, ChatMessageData, DBChatMessage, DBChatMessageData};
use surreal_chat::surreal::user::models::{DBUserMessage, DBUserMessageData};
use surreal_chat::surreal::{EventMessage, SurrealEvent};

fn db_chat(text: Option<&str>) -> DBChatMessage {
    DBChatMessage {
        data: DBChatMessageData {
            user: RecordId::from_parts("user", "john"),
            chat: RecordId::from_parts("chat", "general"),
            text: text.map(|t| t.to_string()),
        },
        created_at: None,
    }
}

#[test]
fn live_query_names_the_chat_raw() {
    assert_eq!(
        live_events_query(&RecordId::from_parts("chat", "general")),
        "LIVE SELECT out.* as event, out.data.user.username as username FROM chat_events WHERE in = chat:general;"
    );
    assert_eq!(
        live_events_query(&RecordId::from_parts("chat", "123")),
        "LIVE SELECT out.* as event, out.data.user.username as username FROM chat_events WHERE in = chat:\u{27E8}123\u{27E9};"
    );
}

#[test]
fn chat_events_query_names_the_key() {
    assert_eq!(
        chat_events_query("general"),
        "SELECT out[*] AS event, out.data.user.username AS username FROM chat_events WHERE in = chat:general;"
    );
}

#[test]
fn only_join_messages_name_a_chat_to_follow() {
    let join = EventMessage::JoinChat(ChatMessage {
        data: ChatMessageData {
            user: RecordId::from_parts("user", "john"),
            chat: RecordId::from_parts("chat", "general"),
            text: None,
        },
        created_at: None,
    });
    assert_eq!(join_target(&join), Some(&RecordId::from_parts("chat", "general")));
    let joined: EventMessage = SurrealEvent::ChatJoined(db_chat(None)).into();
    assert_eq!(join_target(&joined), None);
}

#[test]
fn joins_and_messages_are_reported() {
    assert_eq!(
        reply_for(SurrealEvent::ChatJoined(db_chat(None)), "john".to_string()),
        Some(ChatReply { kind: ReplyKind::ChatJoined, created_at: None, username: "john".to_string(), text: None })
    );
    assert_eq!(
        reply_for(SurrealEvent::ChatMessageSent(db_chat(Some("hi"))), "john".to_string()),
        Some(ChatReply {
            kind: ReplyKind::ChatMessageSent,
            created_at: None,
            username: "john".to_string(),
            text: Some(Some("hi".to_string())),
        })
    );
    assert_eq!(ReplyKind::ChatJoined.kind_name(), "chatJoined");
    assert_eq!(ReplyKind::ChatMessageSent.kind_name(), "chatMessageSent");
}

#[test]
fn other_events_are_not_reported() {
    assert_eq!(reply_for(SurrealEvent::SendChatMessage(db_chat(Some("x"))), "j".to_string()), None);
    assert_eq!(reply_for(SurrealEvent::JoinChat(db_chat(None)), "j".to_string()), None);
    let user = DBUserMessage {
        data: DBUserMessageData { id: RecordId::from_parts("user", "j"), username: "j".to_string() },
        created_at: None,
    };
    assert_eq!(reply_for(SurrealEvent::UserChanged(user), "j".to_string()), None);
}
