//! The state of the client: who is logged in, the chat list, what the client is in the middle of,
//! and what it has to say.

use crate::auth::{AuthClient, HttpReply, HttpRequest, HttpRequestModel};
use crate::chats::{chats_model, ChatEntry};
use crate::config::Config;
use crate::model::AppModel;
use crate::text::{opt_text, outcome_text, texts, Text};
use crate::wire::{
    events_model, opt_user, profile_outcome, user_outcome, ClientAction, ServerEvent,
    ServerEventModel, SessionUserInfo, UserProfile,
};
use vstd::prelude::*;

verus! {

/// What a connection to the chat service was wanted for.
#[derive(Debug, PartialEq, Eq, Clone, Copy)]
pub enum AfterConnect {
    Menu,
    Ping,
    Chats,
}

/// How a user registers.
#[derive(Debug, PartialEq, Eq, Clone, Copy)]
pub enum RegistrationMode {
    Full,
    EmailOnly,
    PhoneOnly,
}

/// What a user logs in with.
#[derive(Debug, PartialEq, Eq, Clone, Copy)]
pub enum LoginMode {
    Email,
    Phone,
}

/// A field of the profile that can be changed.
#[derive(Debug, PartialEq, Eq, Clone, Copy)]
pub enum ProfileField {
    FirstName,
    LastName,
    BirthDate,
    AdditionalInfo,
    Username,
}

/// A complete registration.
#[derive(Debug, PartialEq, Eq)]
pub enum Registration<S = String> {
    Full { username: S, password: S, email: S, phone_number: S },
    EmailOnly { username: S, password: S, email: S },
    PhoneOnly { username: S, password: S, phone_number: S },
}

impl View for Registration {
    type V = Registration<Text>;

    open spec fn view(&self) -> Registration<Text> {
        match *self {
            Registration::Full { username, password, email, phone_number } => Registration::Full {
                username: username@,
                password: password@,
                email: email@,
                phone_number: phone_number@,
            },
            Registration::EmailOnly { username, password, email } => Registration::EmailOnly {
                username: username@,
                password: password@,
                email: email@,
            },
            Registration::PhoneOnly { username, password, phone_number } =>
                Registration::PhoneOnly {
                username: username@,
                password: password@,
                phone_number: phone_number@,
            },
        }
    }
}

/// The chat that is open: its place in the list, and the user and the label that it had when it
/// was opened.
#[derive(Debug, PartialEq, Eq)]
pub struct OpenChat<S = String> {
    pub index: usize,
    pub user_id: S,
    pub label: S,
}

impl View for OpenChat {
    type V = OpenChat<Text>;

    open spec fn view(&self) -> OpenChat<Text> {
        OpenChat { index: self.index, user_id: self.user_id@, label: self.label@ }
    }
}

impl Clone for OpenChat {
    fn clone(&self) -> (r: Self)
        ensures
            r == *self,
    {
        OpenChat { index: self.index, user_id: self.user_id.clone(), label: self.label.clone() }
    }
}

/// What the client is in the middle of.
#[allow(inconsistent_fields)]
#[derive(Debug, PartialEq, Eq)]
pub enum Screen<S = String, L = Vec<String>> {
    // The main menu.
    MainDrain,
    MainChoice,
    MainPause,
    Exiting { token: S },
    Exited,
    // Registration.
    RegistrationChoice,
    RegistrationUsername { mode: RegistrationMode },
    RegistrationPassword { mode: RegistrationMode, username: S },
    RegistrationEmail { mode: RegistrationMode, username: S, password: S },
    RegistrationPhone { username: S, password: S, email: Option<S> },
    Registering { form: Registration<S> },
    // Login.
    LoginChoice,
    LoginDetails { mode: LoginMode },
    LoginPassword { mode: LoginMode, details: S },
    LoggingIn { mode: LoginMode, details: S, password: S },
    ResolvingSession { token: S },
    SavingSession { token: S, me: SessionUserInfo<S> },
    RememberingSession { token: S, me: SessionUserInfo<S> },
    GoingOnline { token: S, me: SessionUserInfo<S> },
    // The chat socket.
    Connecting { after: AfterConnect, token: S },
    SendingJoin { after: AfterConnect, token: S },
    Joining { after: AfterConnect },
    SendingPing { token: S },
    Pinging,
    // The chat list.
    ChatsDrain,
    ChatsChoice,
    AddChatUsername,
    AddChatLookup { token: S, username: S },
    AddChatLabel { username: S, user_id: S },
    OpenChatIndex,
    RemoveChatIndex,
    SendingListConnections,
    AwaitingConnections,
    // An open chat.
    RequestingHistory { chat: OpenChat<S> },
    AwaitingHistory { chat: OpenChat<S> },
    ChatChoice { chat: OpenChat<S> },
    MessageText { chat: OpenChat<S> },
    SendingMessage { chat: OpenChat<S>, text: S },
    SendingMarkRead { chat: OpenChat<S> },
    RenamingChat { chat: OpenChat<S> },
    ChatPause { chat: OpenChat<S> },
    // Profiles.
    ProfileChoice,
    ProfileUsername,
    ProfileLookup { token: S, username: S },
    ProfileValue { field: ProfileField, token: S },
    ProfileUpdate { field: ProfileField, token: S, new_value: S },
    ProfilePause,
    // Logout.
    LogoutOffline { token: S },
    LogoutDelete { username: S },
    LogoutForget { username: S },
    // Switching to another account.
    SwitchLoad,
    SwitchChoice { accounts: L },
    SwitchToken { username: S },
    SwitchValidate { username: S, token: S },
    SwitchOnline { token: S, me: SessionUserInfo<S> },
}

/// The model of what the client is in the middle of.
pub type ScreenModel = Screen<Text, Seq<Text>>;

impl View for Screen {
    type V = ScreenModel;

    open spec fn view(&self) -> ScreenModel {
        match *self {
            Screen::MainDrain => Screen::MainDrain,
            Screen::MainChoice => Screen::MainChoice,
            Screen::MainPause => Screen::MainPause,
            Screen::Exiting { token } => Screen::Exiting { token: token@ },
            Screen::Exited => Screen::Exited,
            Screen::RegistrationChoice => Screen::RegistrationChoice,
            Screen::RegistrationUsername { mode } => Screen::RegistrationUsername { mode },
            Screen::RegistrationPassword { mode, username } => Screen::RegistrationPassword {
                mode,
                username: username@,
            },
            Screen::RegistrationEmail { mode, username, password } => Screen::RegistrationEmail {
                mode,
                username: username@,
                password: password@,
            },
            Screen::RegistrationPhone { username, password, email } => Screen::RegistrationPhone {
                username: username@,
                password: password@,
                email: opt_text(email),
            },
            Screen::Registering { form } => Screen::Registering { form: form@ },
            Screen::LoginChoice => Screen::LoginChoice,
            Screen::LoginDetails { mode } => Screen::LoginDetails { mode },
            Screen::LoginPassword { mode, details } => Screen::LoginPassword {
                mode,
                details: details@,
            },
            Screen::LoggingIn { mode, details, password } => Screen::LoggingIn {
                mode,
                details: details@,
                password: password@,
            },
            Screen::ResolvingSession { token } => Screen::ResolvingSession { token: token@ },
            Screen::SavingSession { token, me } => Screen::SavingSession {
                token: token@,
                me: me@,
            },
            Screen::RememberingSession { token, me } => Screen::RememberingSession {
                token: token@,
                me: me@,
            },
            Screen::GoingOnline { token, me } => Screen::GoingOnline { token: token@, me: me@ },
            Screen::Connecting { after, token } => Screen::Connecting { after, token: token@ },
            Screen::SendingJoin { after, token } => Screen::SendingJoin { after, token: token@ },
            Screen::Joining { after } => Screen::Joining { after },
            Screen::SendingPing { token } => Screen::SendingPing { token: token@ },
            Screen::Pinging => Screen::Pinging,
            Screen::ChatsDrain => Screen::ChatsDrain,
            Screen::ChatsChoice => Screen::ChatsChoice,
            Screen::AddChatUsername => Screen::AddChatUsername,
            Screen::AddChatLookup { token, username } => Screen::AddChatLookup {
                token: token@,
                username: username@,
            },
            Screen::AddChatLabel { username, user_id } => Screen::AddChatLabel {
                username: username@,
                user_id: user_id@,
            },
            Screen::OpenChatIndex => Screen::OpenChatIndex,
            Screen::RemoveChatIndex => Screen::RemoveChatIndex,
            Screen::SendingListConnections => Screen::SendingListConnections,
            Screen::AwaitingConnections => Screen::AwaitingConnections,
            Screen::RequestingHistory { chat } => Screen::RequestingHistory { chat: chat@ },
            Screen::AwaitingHistory { chat } => Screen::AwaitingHistory { chat: chat@ },
            Screen::ChatChoice { chat } => Screen::ChatChoice { chat: chat@ },
            Screen::MessageText { chat } => Screen::MessageText { chat: chat@ },
            Screen::SendingMessage { chat, text } => Screen::SendingMessage {
                chat: chat@,
                text: text@,
            },
            Screen::SendingMarkRead { chat } => Screen::SendingMarkRead { chat: chat@ },
            Screen::RenamingChat { chat } => Screen::RenamingChat { chat: chat@ },
            Screen::ChatPause { chat } => Screen::ChatPause { chat: chat@ },
            Screen::ProfileChoice => Screen::ProfileChoice,
            Screen::ProfileUsername => Screen::ProfileUsername,
            Screen::ProfileLookup { token, username } => Screen::ProfileLookup {
                token: token@,
                username: username@,
            },
            Screen::ProfileValue { field, token } => Screen::ProfileValue {
                field,
                token: token@,
            },
            Screen::ProfileUpdate { field, token, new_value } => Screen::ProfileUpdate {
                field,
                token: token@,
                new_value: new_value@,
            },
            Screen::ProfilePause => Screen::ProfilePause,
            Screen::LogoutOffline { token } => Screen::LogoutOffline { token: token@ },
            Screen::LogoutDelete { username } => Screen::LogoutDelete { username: username@ },
            Screen::LogoutForget { username } => Screen::LogoutForget { username: username@ },
            Screen::SwitchLoad => Screen::SwitchLoad,
            Screen::SwitchChoice { accounts } => Screen::SwitchChoice {
                accounts: texts(accounts@),
            },
            Screen::SwitchToken { username } => Screen::SwitchToken { username: username@ },
            Screen::SwitchValidate { username, token } => Screen::SwitchValidate {
                username: username@,
                token: token@,
            },
            Screen::SwitchOnline { token, me } => Screen::SwitchOnline {
                token: token@,
                me: me@,
            },
        }
    }
}

/// Something to be done at once: print a line, or a line on the error stream, or a text without a
/// line end; store the chat list; start the clock for what is awaited; drop the chat socket.
#[derive(Debug, PartialEq, Eq)]
pub enum Output<S = String, C = Vec<ChatEntry>> {
    Line(S),
    ErrorLine(S),
    Print(S),
    SaveChats(C),
    StartTimer(u64),
    CloseSocket,
}

/// The model of something to be done at once.
pub type OutputModel = Output<Text, Seq<ChatEntry<Text>>>;

impl View for Output {
    type V = OutputModel;

    open spec fn view(&self) -> OutputModel {
        match *self {
            Output::Line(text) => Output::Line(text@),
            Output::ErrorLine(text) => Output::ErrorLine(text@),
            Output::Print(text) => Output::Print(text@),
            Output::SaveChats(chats) => Output::SaveChats(chats_model(chats@)),
            Output::StartTimer(seconds) => Output::StartTimer(seconds),
            Output::CloseSocket => Output::CloseSocket,
        }
    }
}

/// The model of a list of things to be done.
pub open spec fn outputs_model(list: Seq<Output>) -> Seq<OutputModel> {
    list.map_values(|o: Output| o@)
}

/// What the client waits for.
///
/// - `Drain`: take every event that has come in over the socket.
/// - `Ask`: put a question and read a line; `WaitEnter`: read a line that nobody looks at.
/// - `Plain`, `SessionUser`, `Profile`: make a request of the authorization service whose reply
///   is plain text, a user or a profile.
/// - `SaveSession`, `LoadSession`, `DeleteSession`: use the system's keyring.
/// - `RememberAccount`, `ForgetAccount`, `LoadAccounts`: use the list of saved accounts.
/// - `Connect`: open a chat socket; `Send`: queue an action for it; `Receive`: wait for an event
///   until the clock runs out.
/// - `Exit`: end the program.
#[derive(Debug, PartialEq, Eq)]
pub enum Request<S = String, H = HttpRequest> {
    Drain,
    Ask(S),
    WaitEnter,
    Plain(H),
    SessionUser(H),
    Profile(H),
    SaveSession { username: S, token: S },
    LoadSession { username: S },
    DeleteSession { username: S },
    RememberAccount { username: S },
    ForgetAccount { username: S },
    LoadAccounts,
    Connect { url: S },
    Send(ClientAction<S>),
    Receive,
    Exit,
}

/// The model of what the client waits for.
pub type RequestModel = Request<Text, HttpRequestModel>;

impl View for Request {
    type V = RequestModel;

    open spec fn view(&self) -> RequestModel {
        match *self {
            Request::Drain => Request::Drain,
            Request::Ask(label) => Request::Ask(label@),
            Request::WaitEnter => Request::WaitEnter,
            Request::Plain(request) => Request::Plain(request@),
            Request::SessionUser(request) => Request::SessionUser(request@),
            Request::Profile(request) => Request::Profile(request@),
            Request::SaveSession { username, token } => Request::SaveSession {
                username: username@,
                token: token@,
            },
            Request::LoadSession { username } => Request::LoadSession { username: username@ },
            Request::DeleteSession { username } => Request::DeleteSession { username: username@ },
            Request::RememberAccount { username } => Request::RememberAccount {
                username: username@,
            },
            Request::ForgetAccount { username } => Request::ForgetAccount { username: username@ },
            Request::LoadAccounts => Request::LoadAccounts,
            Request::Connect { url } => Request::Connect { url: url@ },
            Request::Send(action) => Request::Send(action@),
            Request::Receive => Request::Receive,
            Request::Exit => Request::Exit,
        }
    }
}

/// What became of an action that was to be sent.
#[derive(Debug, PartialEq, Eq, Clone, Copy)]
pub enum SendOutcome {
    Queued,
    NotConnected,
    ChannelClosed,
}

/// What came of waiting for an event: the clock had run out before, there is no socket, the socket
/// was closed, the clock ran out meanwhile, or an event came.
#[derive(Debug, PartialEq, Eq)]
pub enum Receipt<E = ServerEvent> {
    DeadlinePassed,
    NoSocket,
    Closed,
    Elapsed,
    Got(E),
}

impl View for Receipt {
    type V = Receipt<ServerEventModel>;

    open spec fn view(&self) -> Receipt<ServerEventModel> {
        match *self {
            Receipt::DeadlinePassed => Receipt::DeadlinePassed,
            Receipt::NoSocket => Receipt::NoSocket,
            Receipt::Closed => Receipt::Closed,
            Receipt::Elapsed => Receipt::Elapsed,
            Receipt::Got(event) => Receipt::Got(event@),
        }
    }
}

/// What came of a request. A line that could not be read is `None`; a reply of the authorization
/// service comes with what its body stands for, where that is asked for.
#[derive(Debug, PartialEq, Eq)]
pub enum Event {
    Line(Option<String>),
    Drained(Vec<ServerEvent>),
    Plain(HttpReply),
    SessionUser(HttpReply, Result<SessionUserInfo, String>),
    Profile(HttpReply, Result<UserProfile, String>),
    Stored(Result<(), String>),
    Token(Option<String>),
    Accounts(Vec<String>),
    Connected(Result<(), String>),
    Sent(SendOutcome),
    Received(Receipt),
}

/// The model of what came of a request.
pub enum EventModel {
    Line(Option<Text>),
    Drained(Seq<ServerEventModel>),
    Plain(HttpReply<Text>),
    SessionUser(HttpReply<Text>, Result<SessionUserInfo<Text>, Text>),
    Profile(HttpReply<Text>, Result<UserProfile<Text>, Text>),
    Stored(Result<(), Text>),
    Token(Option<Text>),
    Accounts(Seq<Text>),
    Connected(Result<(), Text>),
    Sent(SendOutcome),
    Received(Receipt<ServerEventModel>),
}

impl View for Event {
    type V = EventModel;

    open spec fn view(&self) -> EventModel {
        match *self {
            Event::Line(line) => EventModel::Line(opt_text(line)),
            Event::Drained(events) => EventModel::Drained(events_model(events@)),
            Event::Plain(reply) => EventModel::Plain(reply@),
            Event::SessionUser(reply, user) => EventModel::SessionUser(
                reply@,
                user_outcome(user),
            ),
            Event::Profile(reply, profile) => EventModel::Profile(
                reply@,
                profile_outcome(profile),
            ),
            Event::Stored(outcome) => EventModel::Stored(outcome_text(outcome)),
            Event::Token(token) => EventModel::Token(opt_text(token)),
            Event::Accounts(accounts) => EventModel::Accounts(texts(accounts@)),
            Event::Connected(outcome) => EventModel::Connected(outcome_text(outcome)),
            Event::Sent(outcome) => EventModel::Sent(outcome),
            Event::Received(receipt) => EventModel::Received(receipt@),
        }
    }
}

/// The client.
#[derive(Debug, PartialEq, Eq)]
pub struct App {
    pub config: Config,
    pub auth: AuthClient,
    pub session_token: Option<String>,
    pub me: Option<SessionUserInfo>,
    pub connected: bool,
    pub chats: Vec<ChatEntry>,
    pub current_username: Option<String>,
    pub screen: Screen,
    pub out: Vec<Output>,
}

impl View for App {
    type V = AppModel;

    open spec fn view(&self) -> AppModel {
        AppModel {
            config: self.config@,
            auth_url: self.auth.base_url@,
            session_token: opt_text(self.session_token),
            me: opt_user(self.me),
            connected: self.connected,
            chats: chats_model(self.chats@),
            current_username: opt_text(self.current_username),
            screen: self.screen@,
            out: outputs_model(self.out@),
        }
    }
}

/// The model of what the client waits for is of the same sort and holds the same.
pub proof fn models_hold_what_is_asked_for(request: Request)
    ensures
        match request {
            Request::Drain => request@ is Drain,
            Request::Ask(label) => request@ matches Request::Ask(l) && l == label@,
            Request::WaitEnter => request@ is WaitEnter,
            Request::Plain(h) => request@ matches Request::Plain(r) && r == h@,
            Request::SessionUser(h) => request@ matches Request::SessionUser(r) && r == h@,
            Request::Profile(h) => request@ matches Request::Profile(r) && r == h@,
            Request::SaveSession { username, token } => {
                &&& request@ matches Request::SaveSession { username: u, token: t }
                &&& u == username@
                &&& t == token@
            },
            Request::LoadSession { username } => request@ matches Request::LoadSession {
                username: u,
            } && u == username@,
            Request::DeleteSession { username } => request@ matches Request::DeleteSession {
                username: u,
            } && u == username@,
            Request::RememberAccount { username } => request@ matches Request::RememberAccount {
                username: u,
            } && u == username@,
            Request::ForgetAccount { username } => request@ matches Request::ForgetAccount {
                username: u,
            } && u == username@,
            Request::LoadAccounts => request@ is LoadAccounts,
            Request::Connect { url } => request@ matches Request::Connect { url: u } && u == url@,
            Request::Send(action) => request@ matches Request::Send(a) && a == action@,
            Request::Receive => request@ is Receive,
            Request::Exit => request@ is Exit,
        },
{
}

/// The model of something to be done is of the same sort and holds the same, and a list of such
/// things keeps their order.
pub proof fn models_hold_what_is_to_be_done(output: Output, list: Seq<Output>)
    ensures
        match output {
            Output::Line(text) => output@ matches Output::Line(t) && t == text@,
            Output::ErrorLine(text) => output@ matches Output::ErrorLine(t) && t == text@,
            Output::Print(text) => output@ matches Output::Print(t) && t == text@,
            Output::SaveChats(chats) => output@ matches Output::SaveChats(c) && c == chats_model(
                chats@,
            ),
            Output::StartTimer(seconds) => output@ matches Output::StartTimer(s) && s == seconds,
            Output::CloseSocket => output@ is CloseSocket,
        },
        outputs_model(list).len() == list.len(),
        forall|i: int| 0 <= i < list.len() ==> #[trigger] outputs_model(list)[i] == list[i]@,
{
}

/// The model of what happened is of the same sort and holds the same.
pub proof fn models_hold_what_happened(event: Event, receipt: Receipt)
    ensures
        match event {
            Event::Line(line) => event@ matches EventModel::Line(l) && l == opt_text(line),
            Event::Drained(events) => event@ matches EventModel::Drained(e) && e == events_model(
                events@,
            ),
            Event::Plain(reply) => event@ matches EventModel::Plain(r) && r == reply@,
            Event::SessionUser(reply, user) => event@ matches EventModel::SessionUser(r, u) && r
                == reply@ && u == user_outcome(user),
            Event::Profile(reply, profile) => event@ matches EventModel::Profile(r, p) && r
                == reply@ && p == profile_outcome(profile),
            Event::Stored(outcome) => event@ matches EventModel::Stored(o) && o == outcome_text(
                outcome,
            ),
            Event::Token(token) => event@ matches EventModel::Token(t) && t == opt_text(token),
            Event::Accounts(accounts) => event@ matches EventModel::Accounts(a) && a == texts(
                accounts@,
            ),
            Event::Connected(outcome) => event@ matches EventModel::Connected(o) && o
                == outcome_text(outcome),
            Event::Sent(outcome) => event@ matches EventModel::Sent(o) && o == outcome,
            Event::Received(r) => event@ matches EventModel::Received(o) && o == r@,
        },
        match receipt {
            Receipt::DeadlinePassed => receipt@ is DeadlinePassed,
            Receipt::NoSocket => receipt@ is NoSocket,
            Receipt::Closed => receipt@ is Closed,
            Receipt::Elapsed => receipt@ is Elapsed,
            Receipt::Got(event) => receipt@ matches Receipt::Got(e) && e == event@,
        },
{
}

/// The model of the client holds every part of its state as it is.
pub proof fn models_hold_the_client(app: App)
    ensures
        app@.config == app.config@,
        app@.auth_url == app.auth.base_url@,
        app@.session_token == opt_text(app.session_token),
        app@.me == opt_user(app.me),
        app@.connected == app.connected,
        app@.chats == chats_model(app.chats@),
        app@.current_username == opt_text(app.current_username),
        app@.screen == app.screen@,
        app@.out == outputs_model(app.out@),
{
}

} // verus!
