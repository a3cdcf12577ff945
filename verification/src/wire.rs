//! What the client exchanges with the services: users, messages, the actions that it sends over
//! the chat socket and the events that it gets back.
//!
//! Every type that holds text has the kind of text as a parameter. With the default, `String`, it
//! is the type that programs use; with [`Text`] it is the model that contracts speak of.

use crate::text::{copy_option, opt_text, Text};
use vstd::prelude::*;

verus! {

/// Who a session belongs to.
#[derive(Debug, PartialEq, Eq)]
pub struct SessionUserInfo<S = String> {
    pub uuid: Option<S>,
    pub username: S,
}

impl View for SessionUserInfo {
    type V = SessionUserInfo<Text>;

    open spec fn view(&self) -> SessionUserInfo<Text> {
        SessionUserInfo { uuid: opt_text(self.uuid), username: self.username@ }
    }
}

impl Clone for SessionUserInfo {
    fn clone(&self) -> (r: Self)
        ensures
            r == *self,
    {
        SessionUserInfo { uuid: copy_option(&self.uuid), username: self.username.clone() }
    }
}

/// The model of an optional user.
pub open spec fn opt_user(o: Option<SessionUserInfo>) -> Option<SessionUserInfo<Text>> {
    match o {
        Some(u) => Some(u@),
        None => None,
    }
}

/// The model of a user that a service was asked for.
pub open spec fn user_outcome(r: Result<SessionUserInfo, String>) -> Result<
    SessionUserInfo<Text>,
    Text,
> {
    match r {
        Ok(u) => Ok(u@),
        Err(e) => Err(e@),
    }
}

/// A user's profile.
#[derive(Debug, PartialEq, Eq)]
pub struct UserProfile<S = String> {
    pub username: S,
    pub first_name: S,
    pub last_name: S,
    pub date_of_birth: S,
    pub additional_info: S,
    pub uuid: Option<S>,
}

impl View for UserProfile {
    type V = UserProfile<Text>;

    open spec fn view(&self) -> UserProfile<Text> {
        UserProfile {
            username: self.username@,
            first_name: self.first_name@,
            last_name: self.last_name@,
            date_of_birth: self.date_of_birth@,
            additional_info: self.additional_info@,
            uuid: opt_text(self.uuid),
        }
    }
}

/// The model of a profile that a service was asked for.
pub open spec fn profile_outcome(r: Result<UserProfile, String>) -> Result<
    UserProfile<Text>,
    Text,
> {
    match r {
        Ok(p) => Ok(p@),
        Err(e) => Err(e@),
    }
}

/// A message as the chat service stores it.
#[derive(Debug, PartialEq, Eq)]
pub struct StoredMessage<S = String> {
    pub uuid: S,
    pub sender_id: S,
    pub receiver_id: S,
    pub dialog_id: S,
    pub text: Option<S>,
    pub file_id: Option<S>,
    pub created_at: S,
    pub delivered_at: Option<S>,
    pub status: i64,
}

impl View for StoredMessage {
    type V = StoredMessage<Text>;

    open spec fn view(&self) -> StoredMessage<Text> {
        StoredMessage {
            uuid: self.uuid@,
            sender_id: self.sender_id@,
            receiver_id: self.receiver_id@,
            dialog_id: self.dialog_id@,
            text: opt_text(self.text),
            file_id: opt_text(self.file_id),
            created_at: self.created_at@,
            delivered_at: opt_text(self.delivered_at),
            status: self.status,
        }
    }
}

/// The model of a list of messages.
pub open spec fn messages_model(list: Seq<StoredMessage>) -> Seq<StoredMessage<Text>> {
    list.map_values(|m: StoredMessage| m@)
}

/// A client that is connected to the chat service.
#[derive(Debug, PartialEq, Eq)]
pub struct ConnectionInfo<S = String> {
    pub number: usize,
    pub uuid: Option<S>,
    pub username: S,
}

impl View for ConnectionInfo {
    type V = ConnectionInfo<Text>;

    open spec fn view(&self) -> ConnectionInfo<Text> {
        ConnectionInfo {
            number: self.number,
            uuid: opt_text(self.uuid),
            username: self.username@,
        }
    }
}

/// The model of a list of connections.
pub open spec fn connections_model(list: Seq<ConnectionInfo>) -> Seq<ConnectionInfo<Text>> {
    list.map_values(|c: ConnectionInfo| c@)
}

/// What the client asks of the chat service over the socket.
#[derive(Debug, PartialEq, Eq)]
pub enum ClientAction<S = String> {
    Join { session_token: S },
    SendMessage { session_token: S, receiver_id: S, text: Option<S>, file_id: Option<S> },
    History { session_token: S, with_user_id: S, limit: Option<usize> },
    MarkRead { session_token: S, with_user_id: S },
    ListConnections { session_token: S },
    Ping { session_token: S },
}

impl View for ClientAction {
    type V = ClientAction<Text>;

    open spec fn view(&self) -> ClientAction<Text> {
        match *self {
            ClientAction::Join { session_token } => ClientAction::Join {
                session_token: session_token@,
            },
            ClientAction::SendMessage { session_token, receiver_id, text, file_id } =>
                ClientAction::SendMessage {
                session_token: session_token@,
                receiver_id: receiver_id@,
                text: opt_text(text),
                file_id: opt_text(file_id),
            },
            ClientAction::History { session_token, with_user_id, limit } => ClientAction::History {
                session_token: session_token@,
                with_user_id: with_user_id@,
                limit,
            },
            ClientAction::MarkRead { session_token, with_user_id } => ClientAction::MarkRead {
                session_token: session_token@,
                with_user_id: with_user_id@,
            },
            ClientAction::ListConnections { session_token } => ClientAction::ListConnections {
                session_token: session_token@,
            },
            ClientAction::Ping { session_token } => ClientAction::Ping {
                session_token: session_token@,
            },
        }
    }
}

impl ClientAction<Text> {
    /// The session that an action is sent for.
    pub open spec fn token(self) -> Text {
        match self {
            ClientAction::Join { session_token } => session_token,
            ClientAction::SendMessage { session_token, .. } => session_token,
            ClientAction::History { session_token, .. } => session_token,
            ClientAction::MarkRead { session_token, .. } => session_token,
            ClientAction::ListConnections { session_token } => session_token,
            ClientAction::Ping { session_token } => session_token,
        }
    }
}

/// What the chat service tells the client over the socket.
#[allow(inconsistent_fields)]
#[derive(Debug, PartialEq, Eq)]
pub enum ServerEvent<S = String, M = Vec<StoredMessage>, C = Vec<ConnectionInfo>> {
    Joined { user_id: S, username: S, connection_number: usize },
    Message { message: StoredMessage<S> },
    History { with_user_id: S, messages: M },
    MarkReadResult { with_user_id: S, updated: usize },
    ReadReceipt { by_user_id: S, updated: usize },
    Connections { connections: C },
    Pong,
    Error { message: S },
}

/// The model of a server event.
pub type ServerEventModel = ServerEvent<Text, Seq<StoredMessage<Text>>, Seq<ConnectionInfo<Text>>>;

impl View for ServerEvent {
    type V = ServerEventModel;

    open spec fn view(&self) -> ServerEventModel {
        match *self {
            ServerEvent::Joined { user_id, username, connection_number } => ServerEvent::Joined {
                user_id: user_id@,
                username: username@,
                connection_number,
            },
            ServerEvent::Message { message } => ServerEvent::Message { message: message@ },
            ServerEvent::History { with_user_id, messages } => ServerEvent::History {
                with_user_id: with_user_id@,
                messages: messages_model(messages@),
            },
            ServerEvent::MarkReadResult { with_user_id, updated } => ServerEvent::MarkReadResult {
                with_user_id: with_user_id@,
                updated,
            },
            ServerEvent::ReadReceipt { by_user_id, updated } => ServerEvent::ReadReceipt {
                by_user_id: by_user_id@,
                updated,
            },
            ServerEvent::Connections { connections } => ServerEvent::Connections {
                connections: connections_model(connections@),
            },
            ServerEvent::Pong => ServerEvent::Pong,
            ServerEvent::Error { message } => ServerEvent::Error { message: message@ },
        }
    }
}

/// The model of a list of server events.
pub open spec fn events_model(list: Seq<ServerEvent>) -> Seq<ServerEventModel> {
    list.map_values(|e: ServerEvent| e@)
}

/// A frame that came in over the chat socket. `Text` holds the event that the frame's text stands
/// for, if it stands for one.
#[derive(Debug, PartialEq, Eq)]
pub enum Frame {
    Failed,
    Text(Option<ServerEvent>),
    Close,
    Other,
}

/// What to do after a frame came in.
#[derive(Debug, PartialEq, Eq)]
pub enum ReadStep {
    Forward(ServerEvent),
    Skip,
    Stop,
}

/// Decides what becomes of a frame: an event is handed on, other frames are skipped, and the
/// socket is read no further once it fails or closes.
pub fn read_step(frame: Frame) -> (r: ReadStep)
    ensures
        r == (match frame {
            Frame::Failed => ReadStep::Stop,
            Frame::Text(Some(event)) => ReadStep::Forward(event),
            Frame::Text(None) => ReadStep::Skip,
            Frame::Close => ReadStep::Stop,
            Frame::Other => ReadStep::Skip,
        }),
{
    match frame {
        Frame::Failed => ReadStep::Stop,
        Frame::Text(Some(event)) => ReadStep::Forward(event),
        Frame::Text(None) => ReadStep::Skip,
        Frame::Close => ReadStep::Stop,
        Frame::Other => ReadStep::Skip,
    }
}

/// What to do with an action that waits to be sent.
#[derive(Debug, PartialEq, Eq)]
pub enum WriteStep {
    Write(String),
    Skip,
}

/// Decides what becomes of an action's payload: one that could not be encoded is skipped.
pub fn write_step(payload: Option<String>) -> (r: WriteStep)
    ensures
        r == (match payload {
            Some(text) => WriteStep::Write(text),
            None => WriteStep::Skip,
        }),
{
    match payload {
        Some(text) => WriteStep::Write(text),
        None => WriteStep::Skip,
    }
}

/// The model of a user, a profile, a message and a connection holds each of its fields whole.
pub proof fn models_hold_every_field(
    user: SessionUserInfo,
    profile: UserProfile,
    message: StoredMessage,
    connection: ConnectionInfo,
)
    ensures
        user@.uuid == opt_text(user.uuid),
        user@.username == user.username@,
        profile@.username == profile.username@,
        profile@.first_name == profile.first_name@,
        profile@.last_name == profile.last_name@,
        profile@.date_of_birth == profile.date_of_birth@,
        profile@.additional_info == profile.additional_info@,
        profile@.uuid == opt_text(profile.uuid),
        message@.uuid == message.uuid@,
        message@.sender_id == message.sender_id@,
        message@.receiver_id == message.receiver_id@,
        message@.dialog_id == message.dialog_id@,
        message@.text == opt_text(message.text),
        message@.file_id == opt_text(message.file_id),
        message@.created_at == message.created_at@,
        message@.delivered_at == opt_text(message.delivered_at),
        message@.status == message.status,
        connection@.number == connection.number,
        connection@.uuid == opt_text(connection.uuid),
        connection@.username == connection.username@,
        opt_user(Some(user)) == Some(user@),
        opt_user(None) is None,
        user_outcome(Ok(user)) == Ok::<SessionUserInfo<Text>, Text>(user@),
        profile_outcome(Ok(profile)) == Ok::<UserProfile<Text>, Text>(profile@),
{
}

/// The model of a list holds every entry in its place.
pub proof fn models_hold_every_entry(
    messages: Seq<StoredMessage>,
    connections: Seq<ConnectionInfo>,
    events: Seq<ServerEvent>,
    reason: String,
)
    ensures
        messages_model(messages).len() == messages.len(),
        forall|i: int|
            0 <= i < messages.len() ==> #[trigger] messages_model(messages)[i] == messages[i]@,
        connections_model(connections).len() == connections.len(),
        forall|i: int|
            0 <= i < connections.len() ==> #[trigger] connections_model(connections)[i]
                == connections[i]@,
        events_model(events).len() == events.len(),
        forall|i: int| 0 <= i < events.len() ==> #[trigger] events_model(events)[i] == events[i]@,
        user_outcome(Err(reason)) == Err::<SessionUserInfo<Text>, Text>(reason@),
        profile_outcome(Err(reason)) == Err::<UserProfile<Text>, Text>(reason@),
{
}

/// The model of an event is an event of the same sort that holds the same.
pub proof fn models_hold_events(event: ServerEvent)
    ensures
        match event {
            ServerEvent::Joined { user_id, username, connection_number } => {
                &&& event@ matches ServerEvent::Joined {
                    user_id: u,
                    username: n,
                    connection_number: c,
                }
                &&& u == user_id@
                &&& n == username@
                &&& c == connection_number
            },
            ServerEvent::Message { message } => {
                &&& event@ matches ServerEvent::Message { message: m }
                &&& m == message@
            },
            ServerEvent::History { with_user_id, messages } => {
                &&& event@ matches ServerEvent::History { with_user_id: u, messages: m }
                &&& u == with_user_id@
                &&& m == messages_model(messages@)
            },
            ServerEvent::MarkReadResult { with_user_id, updated } => {
                &&& event@ matches ServerEvent::MarkReadResult { with_user_id: u, updated: c }
                &&& u == with_user_id@
                &&& c == updated
            },
            ServerEvent::ReadReceipt { by_user_id, updated } => {
                &&& event@ matches ServerEvent::ReadReceipt { by_user_id: u, updated: c }
                &&& u == by_user_id@
                &&& c == updated
            },
            ServerEvent::Connections { connections } => {
                &&& event@ matches ServerEvent::Connections { connections: c }
                &&& c == connections_model(connections@)
            },
            ServerEvent::Pong => event@ is Pong,
            ServerEvent::Error { message } => {
                &&& event@ matches ServerEvent::Error { message: m }
                &&& m == message@
            },
        },
{
}

/// The model of an action is an action of the same sort that holds the same, and its session is
/// the one that it holds.
pub proof fn models_hold_actions(action: ClientAction)
    ensures
        match action {
            ClientAction::Join { session_token } => {
                &&& action@ matches ClientAction::Join { session_token: t }
                &&& t == session_token@
                &&& action@.token() == session_token@
            },
            ClientAction::SendMessage { session_token, receiver_id, text, file_id } => {
                &&& action@ matches ClientAction::SendMessage {
                    session_token: t,
                    receiver_id: r,
                    text: x,
                    file_id: f,
                }
                &&& t == session_token@
                &&& r == receiver_id@
                &&& x == opt_text(text)
                &&& f == opt_text(file_id)
                &&& action@.token() == session_token@
            },
            ClientAction::History { session_token, with_user_id, limit } => {
                &&& action@ matches ClientAction::History {
                    session_token: t,
                    with_user_id: u,
                    limit: l,
                }
                &&& t == session_token@
                &&& u == with_user_id@
                &&& l == limit
                &&& action@.token() == session_token@
            },
            ClientAction::MarkRead { session_token, with_user_id } => {
                &&& action@ matches ClientAction::MarkRead { session_token: t, with_user_id: u }
                &&& t == session_token@
                &&& u == with_user_id@
                &&& action@.token() == session_token@
            },
            ClientAction::ListConnections { session_token } => {
                &&& action@ matches ClientAction::ListConnections { session_token: t }
                &&& t == session_token@
                &&& action@.token() == session_token@
            },
            ClientAction::Ping { session_token } => {
                &&& action@ matches ClientAction::Ping { session_token: t }
                &&& t == session_token@
                &&& action@.token() == session_token@
            },
        },
{
}

} // verus!
