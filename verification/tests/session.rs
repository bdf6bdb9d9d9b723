use surreal_chat::record::RecordId;
use surreal_chat::session::{
    initial_state, is_closed, no_user_text, step, welcome_message, SessionAction, SessionInput,
    SessionState,
};
use surreal_chat::surreal::user::models::{DBUserMessageData, UserMessage, UserMessageData};
use surreal_chat::surreal::EventMessage;

fn john() -> DBUserMessageData {
    DBUserMessageData { id: RecordId::from_parts("user", "john"), username: "john".to_string() }
}

#[test]
fn first_text_names_the_user_and_welcome_registers_them() {
    let s = initial_state();
    let (s, a) = step(s, SessionInput::NonText);
    assert_eq!(a, SessionAction::Nothing);
    let (s, a) = step(s, SessionInput::Text("john".to_string()));
    assert_eq!(a, SessionAction::LookUpUser("john".to_string()));
    let (s, a) = step(s, SessionInput::UserFound(Some(john())));
    assert_eq!(a, SessionAction::SendWelcome(welcome_message(&john())));
    let (s, a) = step(s, SessionInput::WelcomeSent);
    assert_eq!(a, SessionAction::Register("john".to_string()));
    assert_eq!(s, SessionState::Connected { user: john() });
    let (s, a) = step(s, SessionInput::Text("{\"type\":\"joinChat\"}".to_string()));
    assert_eq!(a, SessionAction::Forward("{\"type\":\"joinChat\"}".to_string()));
    let (s, a) = step(s, SessionInput::Ended);
    assert_eq!(a, SessionAction::Leave("john".to_string()));
    assert!(is_closed(&s));
}

#[test]
fn welcome_is_a_user_changed_message_without_time() {
    assert_eq!(
        welcome_message(&john()),
        EventMessage::UserChanged(UserMessage {
            data: UserMessageData { id: RecordId::from_parts("user", "john"), username: "john".to_string() },
            created_at: None,
        })
    );
}

#[test]
fn no_user_is_reported_and_closes() {
    let (s, _) = step(initial_state(), SessionInput::Text("x".to_string()));
    let (s, a) = step(s, SessionInput::UserFound(None));
    assert_eq!(a, SessionAction::ReportNoUser);
    assert!(is_closed(&s));
    assert_eq!(no_user_text(), "Couldn't get user..");
    let (s2, _) = step(initial_state(), SessionInput::Text("x".to_string()));
    let (s2, a2) = step(s2, SessionInput::LookupFailed);
    assert_eq!(a2, SessionAction::ReportNoUser);
    assert!(is_closed(&s2));
}

#[test]
fn ending_before_any_user_closes_quietly() {
    let (s, a) = step(initial_state(), SessionInput::Ended);
    assert_eq!(a, SessionAction::Nothing);
    assert!(is_closed(&s));
    let (s, a) = step(s, SessionInput::Text("late".to_string()));
    assert_eq!(a, SessionAction::Nothing);
    assert!(is_closed(&s));
}

#[test]
fn unencodable_welcome_keeps_the_user_for_later() {
    let (s, _) = step(initial_state(), SessionInput::Text("john".to_string()));
    let (s, _) = step(s, SessionInput::UserFound(Some(john())));
    let (s, a) = step(s, SessionInput::WelcomeUnencodable);
    assert_eq!(a, SessionAction::Nothing);
    assert_eq!(s, SessionState::AwaitingName { user: Some(john()) });
    let (s, a) = step(s, SessionInput::Text("again".to_string()));
    assert_eq!(a, SessionAction::LookUpUser("again".to_string()));
    // a failed lookup keeps the user found before
    let (s, a) = step(s, SessionInput::LookupFailed);
    assert_eq!(a, SessionAction::SendWelcome(welcome_message(&john())));
    assert_eq!(s, SessionState::Welcoming { user: john() });
}

#[test]
fn stream_end_with_a_found_user_still_connects() {
    let s = SessionState::AwaitingName { user: Some(john()) };
    let (s, a) = step(s, SessionInput::ReceiveFailed);
    assert_eq!(a, SessionAction::Register("john".to_string()));
    let (s, a) = step(s, SessionInput::ReceiveFailed);
    assert_eq!(a, SessionAction::Leave("john".to_string()));
    assert!(is_closed(&s));
}
