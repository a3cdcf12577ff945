//! How the client behaves, as a function from its state and what happened to its next state.

use crate::app::{
    AfterConnect, EventModel, LoginMode, OpenChat, Output, OutputModel, ProfileField, Receipt,
    Registration, RegistrationMode, Request, RequestModel, Screen, ScreenModel, SendOutcome,
};
use crate::auth::{
    change_request, get_request, json_outcome, plain_body, plain_ok, post_request, presence_request,
    profile_request, user_request, HttpReply, HttpRequestModel, JsonBody, LoginRequest,
    PhoneRegistration,
};
use crate::chats::{
    has_chat, with_chat, with_label, with_read, with_read_at, with_unread, ChatEntry,
};
use crate::config::Config;
use crate::console::{
    accounts_text, answer, chat_list_text, connections_text, error_text, history_text,
    main_menu_text, ok_text, profile_text, title_text, user_text, CHATS_MENU, CHAT_MENU, CLEAR,
    CYAN, GREEN, PROFILE_MENU, REGISTRATION_MENU, RESET, YELLOW,
};
use crate::text::{decimal, parsed_number, same_ignoring_case, short, text_or, Text};
use crate::wire::{ClientAction, ServerEvent, ServerEventModel, SessionUserInfo, UserProfile};
use vstd::prelude::*;

verus! {

/// The state of the client. `out` is what it has to say and has not said yet.
#[verifier::ext_equal]
pub struct AppModel {
    pub config: Config<Text>,
    pub auth_url: Text,
    pub session_token: Option<Text>,
    pub me: Option<SessionUserInfo<Text>>,
    pub connected: bool,
    pub chats: Seq<ChatEntry<Text>>,
    pub current_username: Option<Text>,
    pub screen: ScreenModel,
    pub out: Seq<OutputModel>,
}

/// The kind of login, as the service names it and as the question for its details names it.
pub open spec fn login_mode_name(mode: LoginMode) -> Text {
    match mode {
        LoginMode::Email => "email"@,
        LoginMode::Phone => "phone"@,
    }
}

/// The name of a field of the profile.
pub open spec fn field_name(field: ProfileField) -> Text {
    match field {
        ProfileField::FirstName => "first name"@,
        ProfileField::LastName => "last name"@,
        ProfileField::BirthDate => "date of birth"@,
        ProfileField::AdditionalInfo => "additional info"@,
        ProfileField::Username => "username"@,
    }
}

/// The question that a screen puts, and whether it must be answered.
pub open spec fn question(screen: ScreenModel) -> Option<(Text, bool)> {
    match screen {
        Screen::MainChoice => Some(("Select option"@, false)),
        Screen::RegistrationChoice => Some(("Registration mode"@, false)),
        Screen::RegistrationUsername { .. } => Some(("username"@, true)),
        Screen::RegistrationPassword { .. } => Some(("password"@, true)),
        Screen::RegistrationEmail { .. } => Some(("email"@, true)),
        Screen::RegistrationPhone { .. } => Some(("phone_number (+79991234567)"@, true)),
        Screen::LoginChoice => Some(("Mode (email/phone)"@, false)),
        Screen::LoginDetails { mode } => Some((login_mode_name(mode), true)),
        Screen::LoginPassword { .. } => Some(("password"@, true)),
        Screen::ChatsChoice => Some(("Chats menu"@, false)),
        Screen::AddChatUsername => Some(("target username"@, true)),
        Screen::AddChatLabel { .. } => Some(("label (optional)"@, false)),
        Screen::OpenChatIndex => Some(("chat index"@, false)),
        Screen::RemoveChatIndex => Some(("chat index to remove"@, false)),
        Screen::ChatChoice { .. } => Some(("Chat menu"@, false)),
        Screen::MessageText { .. } => Some(("message text"@, true)),
        Screen::RenamingChat { .. } => Some(("new label"@, true)),
        Screen::ProfileChoice => Some(("Profiles menu"@, false)),
        Screen::ProfileUsername => Some(("username"@, true)),
        Screen::ProfileValue { field, .. } => Some(("new "@ + field_name(field), true)),
        Screen::SwitchChoice { .. } => Some(("Select account"@, false)),
        _ => None,
    }
}

/// The request that registers a user.
pub open spec fn registration_request(
    auth_url: Text,
    form: Registration<Text>,
) -> HttpRequestModel {
    match form {
        Registration::Full { username, password, email, phone_number } => get_request(
            auth_url,
            "adduser"@,
            seq![
                ("username"@, username),
                ("password"@, password),
                ("email"@, email),
                ("phone_number"@, phone_number),
            ],
        ),
        Registration::EmailOnly { username, password, email } => get_request(
            auth_url,
            "adduserwithoutphone"@,
            seq![("username"@, username), ("password"@, password), ("email"@, email)],
        ),
        Registration::PhoneOnly { username, password, phone_number } => post_request(
            auth_url,
            "adduserwithoutemail"@,
            JsonBody::Phone(PhoneRegistration { username, password, phone_number }),
        ),
    }
}

/// The request that logs a user in.
pub open spec fn login_request(
    auth_url: Text,
    mode: LoginMode,
    details: Text,
    password: Text,
    live_time: i32,
) -> HttpRequestModel {
    post_request(
        auth_url,
        "login"@,
        JsonBody::Login(
            LoginRequest {
                login_type: login_mode_name(mode),
                login_details: details,
                password,
                live_time,
            },
        ),
    )
}

/// The request that changes a field of the profile.
pub open spec fn update_request(
    auth_url: Text,
    field: ProfileField,
    token: Text,
    new_value: Text,
) -> HttpRequestModel {
    match field {
        ProfileField::FirstName => change_request(
            auth_url,
            "changefirstname"@,
            token,
            new_value,
        ),
        ProfileField::LastName => change_request(auth_url, "changelastname"@, token, new_value),
        ProfileField::BirthDate => change_request(
            auth_url,
            "changedateofbirth"@,
            token,
            new_value,
        ),
        ProfileField::AdditionalInfo => change_request(
            auth_url,
            "changeadditionalinfo"@,
            token,
            new_value,
        ),
        ProfileField::Username => get_request(
            auth_url,
            "changeusername"@,
            seq![("session_tocken"@, token), ("new_value"@, new_value)],
        ),
    }
}

/// Whether an action was queued, or else why not.
pub open spec fn send_outcome(outcome: SendOutcome) -> Result<(), Text> {
    match outcome {
        SendOutcome::Queued => Ok(()),
        SendOutcome::NotConnected => Err("WebSocket is not connected"@),
        SendOutcome::ChannelClosed => Err("WebSocket channel closed"@),
    }
}

/// The line that reports an event.
pub open spec fn event_line(color: Text, text: Text) -> Text {
    "\n"@ + color + "[event]"@ + RESET@ + " "@ + text
}

impl AppModel {
    /// What the client waits for.
    pub open spec fn request(self) -> RequestModel {
        match self.screen {
            Screen::MainDrain => Request::Drain,
            Screen::ChatsDrain => Request::Drain,
            Screen::MainPause => Request::WaitEnter,
            Screen::ChatPause { .. } => Request::WaitEnter,
            Screen::ProfilePause => Request::WaitEnter,
            Screen::Exited => Request::Exit,
            Screen::Exiting { token } => Request::Plain(
                presence_request(self.auth_url, false, token),
            ),
            Screen::Registering { form } => Request::Plain(
                registration_request(self.auth_url, form),
            ),
            Screen::LoggingIn { mode, details, password } => Request::Plain(
                login_request(
                    self.auth_url,
                    mode,
                    details,
                    password,
                    self.config.session.default_lifetime_seconds,
                ),
            ),
            Screen::ResolvingSession { token } => Request::SessionUser(
                user_request(self.auth_url, token),
            ),
            Screen::SavingSession { token, me } => Request::SaveSession {
                username: me.username,
                token,
            },
            Screen::RememberingSession { me, .. } => Request::RememberAccount {
                username: me.username,
            },
            Screen::GoingOnline { token, .. } => Request::Plain(
                presence_request(self.auth_url, true, token),
            ),
            Screen::Connecting { .. } => Request::Connect { url: self.config.chat.ws_url },
            Screen::SendingJoin { token, .. } => Request::Send(
                ClientAction::Join { session_token: token },
            ),
            Screen::Joining { .. } => Request::Receive,
            Screen::SendingPing { token } => Request::Send(
                ClientAction::Ping { session_token: token },
            ),
            Screen::Pinging => Request::Receive,
            Screen::AddChatLookup { token, username } => Request::Profile(
                profile_request(self.auth_url, token, username),
            ),
            Screen::SendingListConnections => Request::Send(
                ClientAction::ListConnections { session_token: self.token() },
            ),
            Screen::AwaitingConnections => Request::Receive,
            Screen::RequestingHistory { chat } => Request::Send(
                ClientAction::History {
                    session_token: self.token(),
                    with_user_id: chat.user_id,
                    limit: Some(self.config.chat.default_history_limit),
                },
            ),
            Screen::AwaitingHistory { .. } => Request::Receive,
            Screen::SendingMessage { chat, text } => Request::Send(
                ClientAction::SendMessage {
                    session_token: self.token(),
                    receiver_id: chat.user_id,
                    text: Some(text),
                    file_id: None,
                },
            ),
            Screen::SendingMarkRead { chat } => Request::Send(
                ClientAction::MarkRead { session_token: self.token(), with_user_id: chat.user_id },
            ),
            Screen::ProfileLookup { token, username } => Request::Profile(
                profile_request(self.auth_url, token, username),
            ),
            Screen::ProfileUpdate { field, token, new_value } => Request::Plain(
                update_request(self.auth_url, field, token, new_value),
            ),
            Screen::LogoutOffline { token } => Request::Plain(
                presence_request(self.auth_url, false, token),
            ),
            Screen::LogoutDelete { username } => Request::DeleteSession { username },
            Screen::LogoutForget { username } => Request::ForgetAccount { username },
            Screen::SwitchLoad => Request::LoadAccounts,
            Screen::SwitchToken { username } => Request::LoadSession { username },
            Screen::SwitchValidate { token, .. } => Request::SessionUser(
                user_request(self.auth_url, token),
            ),
            Screen::SwitchOnline { token, .. } => Request::Plain(
                presence_request(self.auth_url, true, token),
            ),
            _ => match question(self.screen) {
                Some((label, _)) => Request::Ask(label),
                None => Request::WaitEnter,
            },
        }
    }

    /// The token of the session; blank where nobody is logged in.
    pub open spec fn token(self) -> Text {
        text_or(self.session_token, ""@)
    }

    /// The identifier of the user; blank where it is not known.
    pub open spec fn my_id(self) -> Text {
        match self.me {
            Some(user) => text_or(user.uuid, ""@),
            None => ""@,
        }
    }

    /// The client in the middle of something else.
    pub open spec fn go(self, screen: ScreenModel) -> AppModel {
        AppModel { screen, ..self }
    }

    /// The client with one more thing to say.
    pub open spec fn say(self, output: OutputModel) -> AppModel {
        AppModel { out: self.out.push(output), ..self }
    }

    /// The client after everything that it had to say was taken.
    pub open spec fn taken(self) -> AppModel {
        AppModel { out: Seq::empty(), ..self }
    }

    /// The client with a line to print.
    pub open spec fn line(self, text: Text) -> AppModel {
        self.say(Output::Line(text))
    }

    /// The client with a success to report.
    pub open spec fn ok(self, text: Text) -> AppModel {
        self.line(ok_text(text))
    }

    /// The client with a failure to report.
    pub open spec fn fail(self, text: Text) -> AppModel {
        self.say(Output::ErrorLine(error_text(text)))
    }

    /// The client with another chat list, which is to be stored.
    pub open spec fn keep(self, chats: Seq<ChatEntry<Text>>) -> AppModel {
        AppModel { chats, ..self }.say(Output::SaveChats(chats))
    }

    /// Back to the main menu, once the user has seen what was printed.
    pub open spec fn pause(self) -> AppModel {
        self.go(Screen::MainPause)
    }

    /// The client after a chat with a user was made sure of.
    pub open spec fn ensure_chat(self, user_id: Text, label: Option<Text>) -> AppModel {
        if has_chat(self.chats, user_id) {
            self
        } else {
            self.keep(with_chat(self.chats, user_id, label))
        }
    }

    /// The client after one more message from a user.
    pub open spec fn count_message(self, user_id: Text) -> AppModel {
        if has_chat(self.chats, user_id) {
            self.keep(with_unread(self.chats, user_id))
        } else {
            self
        }
    }

    /// The client after the messages of a user were read.
    pub open spec fn read_messages(self, user_id: Text) -> AppModel {
        if has_chat(self.chats, user_id) {
            self.keep(with_read(self.chats, user_id))
        } else {
            self
        }
    }

    /// The client after an event that nothing waits for.
    ///
    /// A message opens a chat with the other side where there is none, and counts as unread
    /// unless the user sent it. A confirmation that messages were read clears their count.
    pub open spec fn handle(self, event: ServerEventModel) -> AppModel {
        match event {
            ServerEvent::Message { message } => {
                let from_peer = message.sender_id != self.my_id();
                let peer = if from_peer {
                    message.sender_id
                } else {
                    message.receiver_id
                };
                let listed = self.ensure_chat(peer, None);
                let counted = if from_peer {
                    listed.count_message(peer)
                } else {
                    listed
                };
                counted.line(
                    event_line(YELLOW@, "new message: "@ + text_or(message.text, "<file>"@)),
                )
            },
            ServerEvent::MarkReadResult { with_user_id, updated } => self.line(
                event_line(
                    CYAN@,
                    "mark_read for "@ + with_user_id + " updated "@ + decimal(updated as nat)
                        + " messages"@,
                ),
            ).read_messages(with_user_id),
            ServerEvent::ReadReceipt { by_user_id, updated } => self.line(
                event_line(
                    CYAN@,
                    "read_receipt by "@ + by_user_id + " for "@ + decimal(updated as nat)
                        + " messages"@,
                ),
            ),
            ServerEvent::Connections { connections } => self.line(
                event_line(CYAN@, decimal(connections.len()) + " online connection(s)"@),
            ),
            ServerEvent::Pong => self.line(event_line(CYAN@, "pong"@)),
            ServerEvent::Error { message } => self.fail("server error: "@ + message),
            ServerEvent::Joined { .. } => self,
            ServerEvent::History { .. } => self,
        }
    }

    /// The client after the first `n` of a list of events.
    pub open spec fn handle_first(self, events: Seq<ServerEventModel>, n: nat) -> AppModel
        decreases n,
    {
        if n == 0 {
            self
        } else {
            self.handle_first(events, (n - 1) as nat).handle(events[n - 1])
        }
    }

    /// The client after the events that had come in while nothing waited for them.
    pub open spec fn drained(self, events: Seq<ServerEventModel>) -> AppModel {
        match self.screen {
            Screen::MainDrain => self.handle_first(events, events.len()).show_main_menu(),
            Screen::ChatsDrain => self.handle_first(events, events.len()).show_chats(),
            _ => self,
        }
    }

    /// The main menu is shown.
    pub open spec fn show_main_menu(self) -> AppModel {
        let cleared = if self.config.ui.clear_screen_on_menu {
            self.say(Output::Print(CLEAR@))
        } else {
            self
        };
        cleared.line(main_menu_text(self.auth_url, self.config.chat.ws_url, self.me)).go(
            Screen::MainChoice,
        )
    }

    /// The chat list and its menu are shown.
    pub open spec fn show_chats(self) -> AppModel {
        self.line(chat_list_text(self.chats)).line(CHATS_MENU@).go(Screen::ChatsChoice)
    }

    /// A chat is shown, starting with its history.
    pub open spec fn show_chat(self, chat: OpenChat<Text>) -> AppModel {
        self.line(title_text("Chat with "@ + chat.label + " ["@ + chat.user_id + "]"@)).go(
            Screen::RequestingHistory { chat },
        )
    }

    /// The menu of a chat is shown.
    pub open spec fn show_chat_menu(self, chat: OpenChat<Text>) -> AppModel {
        self.line(CHAT_MENU@).go(Screen::ChatChoice { chat })
    }

    /// The profile menu is shown.
    pub open spec fn show_profile_menu(self) -> AppModel {
        self.line(PROFILE_MENU@).go(Screen::ProfileChoice)
    }

    /// A connection is wanted.
    pub open spec fn connect(self, after: AfterConnect) -> AppModel {
        if self.connected {
            self.ok("Chat socket is already connected"@).connect_done(after)
        } else {
            match self.session_token {
                Some(token) => self.go(Screen::Connecting { after, token }),
                None => self.connect_failed(after, "Please login first"@),
            }
        }
    }

    /// The socket that is there is dropped, if there is one.
    pub open spec fn without_socket(self) -> AppModel {
        if self.connected {
            AppModel { connected: false, ..self }.say(Output::CloseSocket)
        } else {
            self
        }
    }

    /// There is a connection.
    pub open spec fn connect_done(self, after: AfterConnect) -> AppModel {
        match after {
            AfterConnect::Menu => self.pause(),
            AfterConnect::Ping => self.ping(),
            AfterConnect::Chats => self.go(Screen::ChatsDrain),
        }
    }

    /// There is no connection, for the reason given.
    pub open spec fn connect_failed(self, after: AfterConnect, reason: Text) -> AppModel {
        match after {
            AfterConnect::Menu => self.fail("Chat connection failed: "@ + reason),
            AfterConnect::Ping => self.fail("Cannot ping chat: "@ + reason),
            AfterConnect::Chats => self.fail("Cannot open chat menu: "@ + reason),
        }.pause()
    }

    /// The service did not let the client join, or did not answer.
    pub open spec fn join_failed(self, after: AfterConnect, reason: Text) -> AppModel {
        AppModel { connected: false, ..self }.say(Output::CloseSocket).connect_failed(after, reason)
    }

    /// The chat service is pinged over the socket that is there.
    pub open spec fn ping(self) -> AppModel {
        match self.session_token {
            Some(token) => self.go(Screen::SendingPing { token }),
            None => self.fail("Please login first"@).pause(),
        }
    }

    /// A ping is wanted.
    pub open spec fn start_ping(self) -> AppModel {
        if self.session_token is None {
            self.fail("Please login first"@).pause()
        } else if self.connected {
            self.ping()
        } else {
            self.connect(AfterConnect::Ping)
        }
    }

    /// The chat list is wanted.
    pub open spec fn start_chats(self) -> AppModel {
        let titled = self.line(title_text("Chats"@));
        if self.session_token is None {
            titled.fail("Please login first"@).pause()
        } else if self.connected {
            titled.go(Screen::ChatsDrain)
        } else {
            titled.connect(AfterConnect::Chats)
        }
    }

    /// The profile menu is wanted.
    pub open spec fn start_profiles(self) -> AppModel {
        let titled = self.line(title_text("Profiles"@));
        if self.session_token is None {
            titled.fail("Please login first"@).pause()
        } else {
            titled.show_profile_menu()
        }
    }

    /// A logout is wanted: the service is told first, if anybody is logged in.
    pub open spec fn start_logout(self) -> AppModel {
        match self.session_token {
            Some(token) => self.go(Screen::LogoutOffline { token }),
            None => self.forget_account(),
        }
    }

    /// The account that is logged out is removed from the saved ones, if it is known.
    pub open spec fn forget_account(self) -> AppModel {
        match self.current_username {
            Some(username) => self.go(Screen::LogoutDelete { username }),
            None => self.logged_out(),
        }
    }

    /// Nobody is logged in any more, and there is no connection.
    pub open spec fn logged_out(self) -> AppModel {
        AppModel {
            connected: false,
            session_token: None,
            me: None,
            current_username: None,
            ..self
        }.say(Output::CloseSocket).ok("Logged out"@).pause()
    }

    /// The program ends.
    pub open spec fn bye(self) -> AppModel {
        self.line(GREEN@ + "Bye."@ + RESET@).go(Screen::Exited)
    }

    /// Somebody is logged in.
    pub open spec fn logged_in(
        self,
        token: Text,
        me: SessionUserInfo<Text>,
        account: Text,
    ) -> AppModel {
        AppModel {
            session_token: Some(token),
            me: Some(me),
            current_username: Some(account),
            ..self
        }
    }

    /// A choice in the main menu.
    pub open spec fn main_choice(self, a: Text) -> AppModel {
        if a == "1"@ {
            self.line(title_text("Registration"@)).line(REGISTRATION_MENU@).go(
                Screen::RegistrationChoice,
            )
        } else if a == "2"@ {
            self.line(title_text("Login"@)).go(Screen::LoginChoice)
        } else if a == "3"@ {
            self.connect(AfterConnect::Menu)
        } else if a == "4"@ {
            self.start_chats()
        } else if a == "5"@ {
            self.start_profiles()
        } else if a == "6"@ {
            self.start_ping()
        } else if a == "7"@ {
            self.start_logout()
        } else if a == "8"@ {
            self.line(title_text("Switch Account"@)).go(Screen::SwitchLoad)
        } else if a == "0"@ {
            match self.session_token {
                Some(token) => self.go(Screen::Exiting { token }),
                None => self.bye(),
            }
        } else {
            self.fail("Unknown menu option"@).pause()
        }
    }

    /// A choice in the registration menu; any other than the three leads back.
    pub open spec fn registration_choice(self, a: Text) -> AppModel {
        if a == "1"@ {
            self.go(Screen::RegistrationUsername { mode: RegistrationMode::Full })
        } else if a == "2"@ {
            self.go(Screen::RegistrationUsername { mode: RegistrationMode::EmailOnly })
        } else if a == "3"@ {
            self.go(Screen::RegistrationUsername { mode: RegistrationMode::PhoneOnly })
        } else {
            self.pause()
        }
    }

    /// The password of a registration: the phone number comes next where no email is wanted.
    pub open spec fn registration_password(
        self,
        mode: RegistrationMode,
        username: Text,
        password: Text,
    ) -> AppModel {
        match mode {
            RegistrationMode::PhoneOnly => self.go(
                Screen::RegistrationPhone { username, password, email: None },
            ),
            _ => self.go(Screen::RegistrationEmail { mode, username, password }),
        }
    }

    /// The email address of a registration: the phone number comes next where both are wanted.
    pub open spec fn registration_email(
        self,
        mode: RegistrationMode,
        username: Text,
        password: Text,
        email: Text,
    ) -> AppModel {
        match mode {
            RegistrationMode::Full => self.go(
                Screen::RegistrationPhone { username, password, email: Some(email) },
            ),
            _ => self.go(
                Screen::Registering { form: Registration::EmailOnly { username, password, email } },
            ),
        }
    }

    /// The phone number of a registration, which is complete then.
    pub open spec fn registration_phone(
        self,
        username: Text,
        password: Text,
        email: Option<Text>,
        phone_number: Text,
    ) -> AppModel {
        let form = match email {
            Some(email) => Registration::Full { username, password, email, phone_number },
            None => Registration::PhoneOnly { username, password, phone_number },
        };
        self.go(Screen::Registering { form })
    }

    /// A choice under the chat list.
    pub open spec fn chats_choice(self, a: Text) -> AppModel {
        if a == "1"@ {
            self.go(Screen::AddChatUsername)
        } else if a == "2"@ {
            if self.chats.len() == 0 {
                self.fail("Chat list is empty"@).go(Screen::ChatsDrain)
            } else {
                self.go(Screen::OpenChatIndex)
            }
        } else if a == "3"@ {
            self.go(Screen::RemoveChatIndex)
        } else if a == "4"@ {
            self.go(Screen::SendingListConnections)
        } else if a == "0"@ {
            self.pause()
        } else {
            self.fail("Unknown option"@).go(Screen::ChatsDrain)
        }
    }

    /// The name of the user to add a chat with.
    pub open spec fn add_chat_username(self, username: Text) -> AppModel {
        match self.session_token {
            Some(token) => self.go(Screen::AddChatLookup { token, username }),
            None => self.fail("Please login first"@).go(Screen::ChatsDrain),
        }
    }

    /// The label of the chat to add; a blank one means the usual label.
    pub open spec fn add_chat_label(self, username: Text, user_id: Text, label: Text) -> AppModel {
        self.ensure_chat(
            user_id,
            if label.len() == 0 {
                None
            } else {
                Some(label)
            },
        ).ok("Chat with "@ + username + " ("@ + short(user_id) + ") added"@).go(Screen::ChatsDrain)
    }

    /// The place that a typed number stands for: the first chat has the number one.
    pub open spec fn chosen(a: Text, len: nat) -> Option<int> {
        match parsed_number(a) {
            Some(n) => if 0 < n <= len {
                Some(n - 1)
            } else {
                None
            },
            None => None,
        }
    }

    /// The number of the chat to open: it is marked as read and shown.
    pub open spec fn open_chat(self, a: Text) -> AppModel {
        match AppModel::chosen(a, self.chats.len()) {
            Some(i) => self.keep(with_read_at(self.chats, i)).show_chat(
                OpenChat {
                    index: i as usize,
                    user_id: self.chats[i].user_id,
                    label: self.chats[i].label,
                },
            ),
            None => self.fail("Invalid index"@).go(Screen::ChatsDrain),
        }
    }

    /// The number of the chat to remove.
    pub open spec fn remove_chat(self, a: Text) -> AppModel {
        match AppModel::chosen(a, self.chats.len()) {
            Some(i) => self.keep(self.chats.remove(i)).ok("Chat removed"@),
            None => self.fail("Invalid index"@),
        }.go(Screen::ChatsDrain)
    }

    /// A choice under an open chat.
    pub open spec fn chat_choice(self, chat: OpenChat<Text>, a: Text) -> AppModel {
        if a == "1"@ {
            self.go(Screen::MessageText { chat })
        } else if a == "2"@ {
            self.go(Screen::ChatPause { chat })
        } else if a == "3"@ {
            self.go(Screen::SendingMarkRead { chat })
        } else if a == "4"@ {
            self.go(Screen::RenamingChat { chat })
        } else if a == "0"@ {
            self.go(Screen::ChatsDrain)
        } else {
            self.fail("Unknown option"@).go(Screen::ChatPause { chat })
        }
    }

    /// The new label of an open chat.
    pub open spec fn rename_chat(self, chat: OpenChat<Text>, label: Text) -> AppModel {
        if chat.index < self.chats.len() {
            self.keep(with_label(self.chats, chat.index as int, label))
        } else {
            self
        }.go(Screen::ChatPause { chat })
    }

    /// A choice in the profile menu.
    pub open spec fn profile_choice(self, a: Text) -> AppModel {
        if a == "1"@ {
            match self.session_token {
                Some(token) => match self.me {
                    Some(me) => self.go(Screen::ProfileLookup { token, username: me.username }),
                    None => self.fail("Current user is unknown"@).show_profile_menu(),
                },
                None => self.fail("Please login first"@).show_profile_menu(),
            }
        } else if a == "2"@ {
            self.go(Screen::ProfileUsername)
        } else if a == "3"@ {
            self.change_field(ProfileField::FirstName)
        } else if a == "4"@ {
            self.change_field(ProfileField::LastName)
        } else if a == "5"@ {
            self.change_field(ProfileField::BirthDate)
        } else if a == "6"@ {
            self.change_field(ProfileField::AdditionalInfo)
        } else if a == "7"@ {
            self.change_field(ProfileField::Username)
        } else if a == "0"@ {
            self.pause()
        } else {
            self.fail("Unknown option"@).go(Screen::ProfilePause)
        }
    }

    /// The name of the user whose profile is wanted.
    pub open spec fn profile_username(self, username: Text) -> AppModel {
        match self.session_token {
            Some(token) => self.go(Screen::ProfileLookup { token, username }),
            None => self.fail("Please login first"@).show_profile_menu(),
        }
    }

    /// A field of the profile is to be changed.
    pub open spec fn change_field(self, field: ProfileField) -> AppModel {
        match self.session_token {
            Some(token) => self.go(Screen::ProfileValue { field, token }),
            None => self.fail("Please login first"@).go(Screen::ProfilePause),
        }
    }

    /// The number of the account to switch to.
    pub open spec fn switch_choice(self, accounts: Seq<Text>, a: Text) -> AppModel {
        if a == "0"@ {
            self.pause()
        } else if parsed_number(a) is None {
            self.fail("Invalid input"@).pause()
        } else {
            match AppModel::chosen(a, accounts.len()) {
                Some(i) => self.go(Screen::SwitchToken { username: accounts[i] }),
                None => self.fail("Invalid selection"@).pause(),
            }
        }
    }

    /// An answer to the question of the screen.
    pub open spec fn answered(self, a: Text) -> AppModel {
        match self.screen {
            Screen::MainChoice => self.main_choice(a),
            Screen::RegistrationChoice => self.registration_choice(a),
            Screen::RegistrationUsername { mode } => self.go(
                Screen::RegistrationPassword { mode, username: a },
            ),
            Screen::RegistrationPassword { mode, username } => self.registration_password(
                mode,
                username,
                a,
            ),
            Screen::RegistrationEmail { mode, username, password } => self.registration_email(
                mode,
                username,
                password,
                a,
            ),
            Screen::RegistrationPhone { username, password, email } => self.registration_phone(
                username,
                password,
                email,
                a,
            ),
            Screen::LoginChoice => self.go(
                Screen::LoginDetails {
                    mode: if same_ignoring_case(a, "phone"@) {
                        LoginMode::Phone
                    } else {
                        LoginMode::Email
                    },
                },
            ),
            Screen::LoginDetails { mode } => self.go(Screen::LoginPassword { mode, details: a }),
            Screen::LoginPassword { mode, details } => self.go(
                Screen::LoggingIn { mode, details, password: a },
            ),
            Screen::ChatsChoice => self.chats_choice(a),
            Screen::AddChatUsername => self.add_chat_username(a),
            Screen::AddChatLabel { username, user_id } => self.add_chat_label(
                username,
                user_id,
                a,
            ),
            Screen::OpenChatIndex => self.open_chat(a),
            Screen::RemoveChatIndex => self.remove_chat(a),
            Screen::ChatChoice { chat } => self.chat_choice(chat, a),
            Screen::MessageText { chat } => self.go(Screen::SendingMessage { chat, text: a }),
            Screen::RenamingChat { chat } => self.rename_chat(chat, a),
            Screen::ProfileChoice => self.profile_choice(a),
            Screen::ProfileUsername => self.profile_username(a),
            Screen::ProfileValue { field, token } => self.go(
                Screen::ProfileUpdate { field, token, new_value: a },
            ),
            Screen::SwitchChoice { accounts } => self.switch_choice(accounts, a),
            _ => self,
        }
    }

    /// A line was typed, or could not be read.
    pub open spec fn typed(self, line: Option<Text>) -> AppModel {
        match self.screen {
            Screen::MainPause => self.go(Screen::MainDrain),
            Screen::ChatPause { chat } => self.show_chat(chat),
            Screen::ProfilePause => self.line(title_text("Profiles"@)).show_profile_menu(),
            _ => match question(self.screen) {
                Some((_, required)) => if required && answer(line).len() == 0 {
                    self.fail("Value cannot be empty"@)
                } else {
                    self.answered(answer(line))
                },
                None => self,
            },
        }
    }

    /// The authorization service replied to a request for registration.
    pub open spec fn registered(self, reply: HttpReply<Text>) -> AppModel {
        match plain_ok(reply) {
            Ok(()) => self.ok("User registered"@),
            Err(e) => self.fail("Register failed: "@ + e),
        }.pause()
    }

    /// The authorization service replied to a login with the token of a session.
    pub open spec fn got_token(self, reply: HttpReply<Text>) -> AppModel {
        match plain_body(reply) {
            Ok(token) => self.go(Screen::ResolvingSession { token }),
            Err(e) => self.fail("Login failed: "@ + e).pause(),
        }
    }

    /// A field of the profile has a new value, which the client notes if it is the user's name.
    pub open spec fn renamed(self, field: ProfileField, new_value: Text) -> AppModel {
        if field == ProfileField::Username && self.me is Some {
            AppModel {
                me: Some(SessionUserInfo { username: new_value, uuid: self.me->0.uuid }),
                ..self
            }
        } else {
            self
        }
    }

    /// The authorization service replied to a change of the profile.
    pub open spec fn profile_updated(
        self,
        field: ProfileField,
        new_value: Text,
        reply: HttpReply<Text>,
    ) -> AppModel {
        match plain_ok(reply) {
            Ok(()) => self.renamed(field, new_value).ok("Profile updated"@),
            Err(e) => self.fail("Update failed: "@ + e),
        }.go(Screen::ProfilePause)
    }

    /// The authorization service replied in plain text. After a switch of accounts the client
    /// connects anew: a socket that is there was joined for the account before.
    pub open spec fn replied(self, reply: HttpReply<Text>) -> AppModel {
        match self.screen {
            Screen::Registering { .. } => self.registered(reply),
            Screen::LoggingIn { .. } => self.got_token(reply),
            Screen::GoingOnline { me, .. } => self.ok(
                "Login successful: "@ + user_text(me),
            ).connect(AfterConnect::Menu),
            Screen::ProfileUpdate { field, new_value, .. } => self.profile_updated(
                field,
                new_value,
                reply,
            ),
            Screen::LogoutOffline { .. } => self.forget_account(),
            Screen::Exiting { .. } => self.bye(),
            Screen::SwitchOnline { me, .. } => self.ok(
                "Switched to account: "@ + user_text(me),
            ).without_socket().connect(AfterConnect::Menu),
            _ => self,
        }
    }

    /// The authorization service said who a session belongs to.
    pub open spec fn got_user(
        self,
        reply: HttpReply<Text>,
        parsed: Result<SessionUserInfo<Text>, Text>,
    ) -> AppModel {
        match self.screen {
            Screen::ResolvingSession { token } => match json_outcome(reply, parsed) {
                Ok(me) => self.logged_in(token, me, me.username).go(
                    Screen::SavingSession { token, me },
                ),
                Err(e) => self.fail("Session resolve failed: "@ + e).pause(),
            },
            Screen::SwitchValidate { username, token } => match json_outcome(reply, parsed) {
                Ok(me) => self.logged_in(token, me, username).go(
                    Screen::SwitchOnline { token, me },
                ),
                Err(e) => self.fail("Failed to validate saved session: "@ + e).pause(),
            },
            _ => self,
        }
    }

    /// The authorization service replied with a profile.
    pub open spec fn got_profile(
        self,
        reply: HttpReply<Text>,
        parsed: Result<UserProfile<Text>, Text>,
    ) -> AppModel {
        match self.screen {
            Screen::AddChatLookup { username, .. } => match json_outcome(reply, parsed) {
                Ok(profile) => self.go(
                    Screen::AddChatLabel {
                        username,
                        user_id: text_or(profile.uuid, profile.username),
                    },
                ),
                Err(e) => self.fail("Failed to resolve username: "@ + e).go(Screen::ChatsDrain),
            },
            Screen::ProfileLookup { .. } => match json_outcome(reply, parsed) {
                Ok(profile) => self.line(profile_text(profile)),
                Err(e) => self.fail("Failed to load profile: "@ + e),
            }.go(Screen::ProfilePause),
            _ => self,
        }
    }

    /// Something was stored or removed, or could not be.
    pub open spec fn stored(self, outcome: Result<(), Text>) -> AppModel {
        match self.screen {
            Screen::SavingSession { token, me } => match outcome {
                Ok(()) => self.go(Screen::RememberingSession { token, me }),
                Err(e) => self.fail("Failed to save session: "@ + e).go(
                    Screen::GoingOnline { token, me },
                ),
            },
            Screen::RememberingSession { token, me } => match outcome {
                Ok(()) => self.ok("Session saved for: "@ + me.username),
                Err(e) => self.fail("Failed to add to sessions list: "@ + e),
            }.go(Screen::GoingOnline { token, me }),
            Screen::LogoutDelete { username } => match outcome {
                Ok(()) => self,
                Err(e) => self.fail("Failed to delete session: "@ + e),
            }.go(Screen::LogoutForget { username }),
            Screen::LogoutForget { .. } => match outcome {
                Ok(()) => self,
                Err(e) => self.fail("Failed to remove from sessions list: "@ + e),
            }.logged_out(),
            _ => self,
        }
    }

    /// The keyring gave the token of a saved account, or has none.
    pub open spec fn got_saved_token(self, token: Option<Text>) -> AppModel {
        match self.screen {
            Screen::SwitchToken { username } => match token {
                Some(token) => self.go(Screen::SwitchValidate { username, token }),
                None => self.fail("Session not found for user: "@ + username).pause(),
            },
            _ => self,
        }
    }

    /// The saved accounts are known.
    pub open spec fn got_accounts(self, accounts: Seq<Text>) -> AppModel {
        match self.screen {
            Screen::SwitchLoad => if accounts.len() == 0 {
                self.fail("No saved sessions found"@).pause()
            } else {
                self.line(accounts_text(accounts)).go(Screen::SwitchChoice { accounts })
            },
            _ => self,
        }
    }

    /// A socket was opened, or could not be.
    pub open spec fn socket_opened(self, outcome: Result<(), Text>) -> AppModel {
        match self.screen {
            Screen::Connecting { after, token } => match outcome {
                Ok(()) => self.go(Screen::SendingJoin { after, token }),
                Err(e) => self.connect_failed(after, "ws connect failed: "@ + e),
            },
            _ => self,
        }
    }

    /// An action was queued, or could not be.
    pub open spec fn sent(self, outcome: SendOutcome) -> AppModel {
        match self.screen {
            Screen::SendingJoin { after, .. } => match send_outcome(outcome) {
                Ok(()) => AppModel { connected: true, ..self }.say(Output::StartTimer(5)).go(
                    Screen::Joining { after },
                ),
                Err(_) => self.join_failed(after, "failed to send join action"@),
            },
            Screen::SendingPing { .. } => match send_outcome(outcome) {
                Ok(()) => self.say(Output::StartTimer(3)).go(Screen::Pinging),
                Err(e) => self.fail("Ping failed: "@ + e).pause(),
            },
            Screen::SendingListConnections => match send_outcome(outcome) {
                Ok(()) => self.say(Output::StartTimer(3)).go(Screen::AwaitingConnections),
                Err(e) => self.fail("Failed to request list_connections: "@ + e).go(
                    Screen::ChatsDrain,
                ),
            },
            Screen::RequestingHistory { chat } => match send_outcome(outcome) {
                Ok(()) => self.say(Output::StartTimer(4)).go(Screen::AwaitingHistory { chat }),
                Err(e) => self.fail("History request failed: "@ + e).show_chat_menu(chat),
            },
            Screen::SendingMessage { chat, .. } => match send_outcome(outcome) {
                Ok(()) => self.ok("Message sent"@),
                Err(e) => self.fail("Send failed: "@ + e),
            }.go(Screen::ChatPause { chat }),
            Screen::SendingMarkRead { chat } => match send_outcome(outcome) {
                Ok(()) => self.ok("mark_read sent"@),
                Err(e) => self.fail("Mark read failed: "@ + e),
            }.go(Screen::ChatPause { chat }),
            _ => self,
        }
    }

    /// An event, while the service is asked to let the client join.
    pub open spec fn join_received(
        self,
        after: AfterConnect,
        receipt: Receipt<ServerEventModel>,
    ) -> AppModel {
        match receipt {
            Receipt::DeadlinePassed => self.join_failed(after, "Join timeout"@),
            Receipt::NoSocket => self.join_failed(after, "WebSocket disconnected"@),
            Receipt::Closed => self.join_failed(after, "WebSocket closed"@),
            Receipt::Elapsed => self,
            Receipt::Got(ServerEvent::Joined { user_id, username, connection_number }) => self.ok(
                "Joined as "@ + username + " ("@ + user_id + ") [connection #"@ + decimal(
                    connection_number as nat,
                ) + "]"@,
            ).ok("Connected to chat WebSocket"@).connect_done(after),
            Receipt::Got(ServerEvent::Error { message }) => self.join_failed(
                after,
                "Join rejected: "@ + message,
            ),
            Receipt::Got(event) => self.handle(event),
        }
    }

    /// An event, while the answer to a ping is awaited.
    pub open spec fn ping_received(self, receipt: Receipt<ServerEventModel>) -> AppModel {
        match receipt {
            Receipt::DeadlinePassed => self.fail("Ping timeout"@).pause(),
            Receipt::NoSocket => self.fail("WebSocket not connected"@).pause(),
            Receipt::Closed => self,
            Receipt::Elapsed => self,
            Receipt::Got(ServerEvent::Pong) => self.ok("Pong received"@).pause(),
            Receipt::Got(event) => self.handle(event),
        }
    }

    /// An event, while the list of connections is awaited.
    pub open spec fn connections_received(self, receipt: Receipt<ServerEventModel>) -> AppModel {
        match receipt {
            Receipt::DeadlinePassed => self.fail("No connections response from server"@).go(
                Screen::ChatsDrain,
            ),
            Receipt::NoSocket => self.fail("WebSocket not connected"@).go(Screen::ChatsDrain),
            Receipt::Closed => self,
            Receipt::Elapsed => self,
            Receipt::Got(ServerEvent::Connections { connections }) => self.line(
                connections_text(connections),
            ).go(Screen::ChatsDrain),
            Receipt::Got(event) => self.handle(event),
        }
    }

    /// An event, while the history of a chat is awaited; the history of another chat is not it.
    pub open spec fn history_received(
        self,
        chat: OpenChat<Text>,
        receipt: Receipt<ServerEventModel>,
    ) -> AppModel {
        match receipt {
            Receipt::DeadlinePassed => self.fail(
                "No history response from server (timeout)"@,
            ).show_chat_menu(chat),
            Receipt::NoSocket => self.fail("WebSocket not connected"@).show_chat_menu(chat),
            Receipt::Closed => self,
            Receipt::Elapsed => self,
            Receipt::Got(ServerEvent::History { with_user_id, messages }) => if with_user_id
                == chat.user_id {
                self.line(
                    history_text(
                        with_user_id,
                        messages,
                        match self.me {
                            Some(me) => me.uuid,
                            None => None,
                        },
                    ),
                ).show_chat_menu(chat)
            } else {
                self.handle(ServerEvent::History { with_user_id, messages })
            },
            Receipt::Got(event) => self.handle(event),
        }
    }

    /// Something came of waiting for an event.
    pub open spec fn received(self, receipt: Receipt<ServerEventModel>) -> AppModel {
        match self.screen {
            Screen::Joining { after } => self.join_received(after, receipt),
            Screen::Pinging => self.ping_received(receipt),
            Screen::AwaitingConnections => self.connections_received(receipt),
            Screen::AwaitingHistory { chat } => self.history_received(chat, receipt),
            _ => self,
        }
    }

    /// The client after what came of its request. What it did not ask for changes nothing.
    pub open spec fn next(self, event: EventModel) -> AppModel {
        match event {
            EventModel::Line(line) => self.typed(line),
            EventModel::Drained(events) => self.drained(events),
            EventModel::Plain(reply) => self.replied(reply),
            EventModel::SessionUser(reply, parsed) => self.got_user(reply, parsed),
            EventModel::Profile(reply, parsed) => self.got_profile(reply, parsed),
            EventModel::Stored(outcome) => self.stored(outcome),
            EventModel::Token(token) => self.got_saved_token(token),
            EventModel::Accounts(accounts) => self.got_accounts(accounts),
            EventModel::Connected(outcome) => self.socket_opened(outcome),
            EventModel::Sent(outcome) => self.sent(outcome),
            EventModel::Received(receipt) => self.received(receipt),
        }
    }
}

} // verus!
