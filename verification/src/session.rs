//! A client's chat connection, from its first message to its end.
//!
//! The first text a client sends names its user, who is looked up or
//! created. A found user is welcomed with a `userChanged` message and
//! registered; every further text is handed on for processing. When the
//! connection ends, a registered user leaves.

use vstd::prelude::*;

use crate::surreal::user::models::{DBUserMessage, DBUserMessageData, UserMessage, UserMessageData};
use crate::surreal::EventMessage;

verus! {

/// Where a connection stands.
#[derive(Debug, PartialEq)]
pub enum SessionState {
    /// Waiting for a text that names the user; holds the user found so far.
    AwaitingName { user: Option<DBUserMessageData> },
    /// The named user is being looked up or created.
    LookingUp { user: Option<DBUserMessageData> },
    /// The user was found; the welcome is on its way.
    Welcoming { user: DBUserMessageData },
    /// The user is registered; texts are handed on.
    Connected { user: DBUserMessageData },
    /// The connection is over.
    Closed,
}

/// What happened on the connection, or what the outside work came back with.
#[derive(Debug, PartialEq)]
pub enum SessionInput {
    /// A text frame arrived.
    Text(String),
    /// A frame that is not text arrived.
    NonText,
    /// Reading from the connection failed.
    ReceiveFailed,
    /// The connection has no more frames.
    Ended,
    /// Looking up or creating the user succeeded, with this user or none.
    UserFound(Option<DBUserMessageData>),
    /// Looking up or creating the user failed.
    LookupFailed,
    /// The welcome was encoded and sent.
    WelcomeSent,
    /// The welcome could not be encoded.
    WelcomeUnencodable,
}

/// What to do next.
#[derive(Debug, PartialEq)]
pub enum SessionAction {
    Nothing,
    /// Look up the user of this name, creating it if there is none.
    LookUpUser(String),
    /// Encode and send this welcome to the client.
    SendWelcome(EventMessage),
    /// Tell the client that no user could be had (`no_user_text`), and end.
    ReportNoUser,
    /// Register the connection under this user name.
    Register(String),
    /// Hand this text on for processing.
    Forward(String),
    /// The user of this name leaves: tell every registered user
    /// (`registry::farewell`), then take the name out of the registry.
    Leave(String),
}

/// The text a client gets when no user could be had for it.
pub fn no_user_text() -> (t: &'static str)
    ensures
        t@ == "Couldn't get user.."@,
{
    "Couldn't get user.."
}

/// A connection starts waiting for its user's name, with no user.
pub fn initial_state() -> (s: SessionState)
    ensures
        s == (SessionState::AwaitingName { user: None }),
{
    SessionState::AwaitingName { user: None }
}

/// The welcome a found user gets: a `userChanged` message with the user's
/// identifier and name and no timestamp.
pub open spec fn welcome(user: DBUserMessageData) -> EventMessage {
    EventMessage::UserChanged(
        UserMessage {
            data: UserMessageData { id: user.id, username: user.username },
            created_at: None,
        },
    )
}

pub fn welcome_message(user: &DBUserMessageData) -> (m: EventMessage)
    ensures
        m == welcome(*user),
{
    EventMessage::UserChanged(
        DBUserMessage {
            data: DBUserMessageData { id: user.id.clone(), username: user.username.clone() },
            created_at: None,
        }.into(),
    )
}

/// After a lookup the connection holds `user`: a user is welcomed, and
/// without one the connection reports that and ends.
pub open spec fn after_lookup(user: Option<DBUserMessageData>) -> (SessionState, SessionAction) {
    match user {
        Some(u) => (SessionState::Welcoming { user: u }, SessionAction::SendWelcome(welcome(u))),
        None => (SessionState::Closed, SessionAction::ReportNoUser),
    }
}

/// How a connection moves on an input, and what it does.
pub open spec fn session_step(state: SessionState, input: SessionInput) -> (
    SessionState,
    SessionAction,
) {
    match state {
        SessionState::AwaitingName { user } => match input {
            SessionInput::Text(name) => (
                SessionState::LookingUp { user },
                SessionAction::LookUpUser(name),
            ),
            SessionInput::ReceiveFailed | SessionInput::Ended => match user {
                Some(u) => (
                    SessionState::Connected { user: u },
                    SessionAction::Register(u.username),
                ),
                None => (SessionState::Closed, SessionAction::Nothing),
            },
            _ => (SessionState::AwaitingName { user }, SessionAction::Nothing),
        },
        SessionState::LookingUp { user } => match input {
            SessionInput::UserFound(found) => after_lookup(found),
            SessionInput::LookupFailed => after_lookup(user),
            _ => (SessionState::LookingUp { user }, SessionAction::Nothing),
        },
        SessionState::Welcoming { user } => match input {
            SessionInput::WelcomeSent => (
                SessionState::Connected { user },
                SessionAction::Register(user.username),
            ),
            SessionInput::WelcomeUnencodable => (
                SessionState::AwaitingName { user: Some(user) },
                SessionAction::Nothing,
            ),
            _ => (SessionState::Welcoming { user }, SessionAction::Nothing),
        },
        SessionState::Connected { user } => match input {
            SessionInput::Text(text) => (
                SessionState::Connected { user },
                SessionAction::Forward(text),
            ),
            SessionInput::ReceiveFailed | SessionInput::Ended => (
                SessionState::Closed,
                SessionAction::Leave(user.username),
            ),
            _ => (SessionState::Connected { user }, SessionAction::Nothing),
        },
        SessionState::Closed => (SessionState::Closed, SessionAction::Nothing),
    }
}

fn looked_up(user: Option<DBUserMessageData>) -> (r: (SessionState, SessionAction))
    ensures
        r == after_lookup(user),
{
    match user {
        Some(u) => {
            let welcome = welcome_message(&u);
            (SessionState::Welcoming { user: u }, SessionAction::SendWelcome(welcome))
        },
        None => (SessionState::Closed, SessionAction::ReportNoUser),
    }
}

/// Moves a connection on by one input.
pub fn step(state: SessionState, input: SessionInput) -> (r: (SessionState, SessionAction))
    ensures
        r == session_step(state, input),
{
    match state {
        SessionState::AwaitingName { user } => match input {
            SessionInput::Text(name) => (
                SessionState::LookingUp { user },
                SessionAction::LookUpUser(name),
            ),
            SessionInput::ReceiveFailed | SessionInput::Ended => match user {
                Some(u) => {
                    let name = u.username.clone();
                    (SessionState::Connected { user: u }, SessionAction::Register(name))
                },
                None => (SessionState::Closed, SessionAction::Nothing),
            },
            _ => (SessionState::AwaitingName { user }, SessionAction::Nothing),
        },
        SessionState::LookingUp { user } => match input {
            SessionInput::UserFound(found) => looked_up(found),
            SessionInput::LookupFailed => looked_up(user),
            _ => (SessionState::LookingUp { user }, SessionAction::Nothing),
        },
        SessionState::Welcoming { user } => match input {
            SessionInput::WelcomeSent => {
                let name = user.username.clone();
                (SessionState::Connected { user }, SessionAction::Register(name))
            },
            SessionInput::WelcomeUnencodable => (
                SessionState::AwaitingName { user: Some(user) },
                SessionAction::Nothing,
            ),
            _ => (SessionState::Welcoming { user }, SessionAction::Nothing),
        },
        SessionState::Connected { user } => match input {
            SessionInput::Text(text) => (
                SessionState::Connected { user },
                SessionAction::Forward(text),
            ),
            SessionInput::ReceiveFailed | SessionInput::Ended => {
                let name = user.username.clone();
                (SessionState::Closed, SessionAction::Leave(name))
            },
            _ => (SessionState::Connected { user }, SessionAction::Nothing),
        },
        SessionState::Closed => (SessionState::Closed, SessionAction::Nothing),
    }
}

/// Whether the connection is over.
pub fn is_closed(state: &SessionState) -> (b: bool)
    ensures
        b == (*state is Closed),
{
    match state {
        SessionState::Closed => true,
        _ => false,
    }
}

/// A closed connection stays closed and does nothing more.
pub proof fn lemma_closed_stays_closed(input: SessionInput)
    ensures
        session_step(SessionState::Closed, input) == (SessionState::Closed, SessionAction::Nothing),
{
}

/// A connection becomes connected only with a user that it already held:
/// one it was connected with, one whose welcome was just sent, or one a
/// lookup produced earlier when the connection ends before a welcome went
/// out. It is welcomed only with the user a lookup returned, or, when the
/// lookup failed, with the user it held before.
pub proof fn lemma_connected_user_was_looked_up(state: SessionState, input: SessionInput)
    ensures
        session_step(state, input).0 matches SessionState::Connected { user: u } ==> {
            ||| state == (SessionState::Connected { user: u })
            ||| state == (SessionState::Welcoming { user: u }) && input == SessionInput::WelcomeSent
            ||| state == (SessionState::AwaitingName { user: Some(u) }) && (input
                == SessionInput::Ended || input == SessionInput::ReceiveFailed)
        },
        session_step(state, input).0 matches SessionState::Welcoming { user: u } ==> {
            ||| state == (SessionState::Welcoming { user: u })
            ||| state is LookingUp && input == SessionInput::UserFound(Some(u))
            ||| state == (SessionState::LookingUp { user: Some(u) }) && input
                == SessionInput::LookupFailed
        },
{
}

/// A connection registers exactly the user it becomes connected with, and a
/// user leaves exactly when its connected session ends.
pub proof fn lemma_register_and_leave(state: SessionState, input: SessionInput)
    ensures
        session_step(state, input).1 matches SessionAction::Register(name) ==> (session_step(
            state,
            input,
        ).0 matches SessionState::Connected { user: u } && u.username == name && !(
        state is Connected)),
        session_step(state, input).1 matches SessionAction::Leave(name) ==> (state matches SessionState::Connected {
            user: u,
        } && u.username == name && session_step(state, input).0 is Closed && (input
            == SessionInput::Ended || input == SessionInput::ReceiveFailed)),
{
}

/// A connected session ends only by its user leaving: whatever the input, a
/// connected session that closes announces the departure of exactly its own
/// user. A text is handed on unchanged and the session stays connected; any
/// other frame is skipped and the session stays connected.
pub proof fn lemma_connected_session_ends_only_by_leaving(
    user: DBUserMessageData,
    input: SessionInput,
)
    ensures
        session_step(SessionState::Connected { user }, input).0 is Closed ==> session_step(
            SessionState::Connected { user },
            input,
        ).1 == SessionAction::Leave(user.username),
        session_step(SessionState::Connected { user }, input).0 is Closed <==> (input
            == SessionInput::Ended || input == SessionInput::ReceiveFailed),
        !(session_step(SessionState::Connected { user }, input).0 is Closed) ==> session_step(
            SessionState::Connected { user },
            input,
        ).0 == (SessionState::Connected { user }),
        session_step(SessionState::Connected { user }, SessionInput::NonText) == (
            SessionState::Connected { user },
            SessionAction::Nothing,
        ),
        input matches SessionInput::Text(t) ==> session_step(SessionState::Connected { user }, input)
            == (SessionState::Connected { user }, SessionAction::Forward(t)),
{
}

/// The welcome names the found user: a `userChanged` message with that
/// user's identifier and name and no time.
pub proof fn lemma_welcome_names_the_user(user: DBUserMessageData)
    ensures
        welcome(user) matches EventMessage::UserChanged(m) && m.data.id == user.id
            && m.data.username == user.username && m.created_at is None,
{
}

/// Greeting a client: its first text is looked up as the user's name; a user
/// that the lookup returns is welcomed; once the welcome is sent that user
/// is registered under its own name and the session is connected with it.
pub proof fn lemma_greeting_flow(
    held: Option<DBUserMessageData>,
    name: String,
    found: DBUserMessageData,
)
    ensures
        session_step(SessionState::AwaitingName { user: held }, SessionInput::Text(name)) == (
            SessionState::LookingUp { user: held },
            SessionAction::LookUpUser(name),
        ),
        session_step(SessionState::LookingUp { user: held }, SessionInput::UserFound(Some(found))).0
            == (SessionState::Welcoming { user: found }),
        session_step(SessionState::LookingUp { user: held }, SessionInput::UserFound(Some(found))).1 matches SessionAction::SendWelcome(
            m,
        ) ==> (m matches EventMessage::UserChanged(w) && w.data.id == found.id && w.data.username
            == found.username && w.created_at is None),
        session_step(
            SessionState::LookingUp { user: held },
            SessionInput::UserFound(Some(found)),
        ).1 is SendWelcome,
        session_step(SessionState::Welcoming { user: found }, SessionInput::WelcomeSent) == (
            SessionState::Connected { user: found },
            SessionAction::Register(found.username),
        ),
{
}

/// When no user can be had for the first name a client sends, the client is
/// told so and the connection ends.
pub proof fn lemma_unknown_user_is_refused()
    ensures
        session_step(SessionState::LookingUp { user: None }, SessionInput::UserFound(None)) == (
            SessionState::Closed,
            SessionAction::ReportNoUser,
        ),
        session_step(SessionState::LookingUp { user: None }, SessionInput::LookupFailed) == (
            SessionState::Closed,
            SessionAction::ReportNoUser,
        ),
{
}

} // verus!
