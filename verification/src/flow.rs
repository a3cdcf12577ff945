//! The client at work: it tells what it waits for and takes what came of it.

use crate::app::{
    outputs_model, AfterConnect, App, Event, LoginMode, OpenChat, Output, OutputModel, ProfileField,
    Receipt, Registration, RegistrationMode, Request, Screen, SendOutcome,
};
use crate::auth::{
    ensure_ok_plain, parse_json_success, parse_plain_success, AuthClient, HttpReply, HttpRequest,
};
use crate::chats::{
    chats_model, clear_unread, copy_chats, count_unread, ensure_chat_exists, read_at, remove_at,
    rename_at, ChatEntry,
};
use crate::config::Config;
use crate::console::{
    answer, clear_screen, print_accounts, print_chat_list, print_connections, print_error,
    print_history, print_ok, print_profile, prompt, prompt_required, render_main_menu, title,
    user_tag, CHATS_MENU, CHAT_MENU, CYAN, GREEN, PROFILE_MENU, REGISTRATION_MENU, RESET, YELLOW,
};
use crate::model::{
    event_line, field_name, login_mode_name, question, registration_request, send_outcome,
    update_request, AppModel,
};
use crate::text::{
    copy_option, copy_strings, decimal_text, eq_ignore_ascii_case, opt_text, outcome_text,
    parse_number, same, short_id, string_or, texts,
};
use crate::wire::{
    events_model, profile_outcome, user_outcome, ClientAction, ServerEvent, SessionUserInfo,
    UserProfile,
};
use vstd::prelude::*;

verus! {

fn login_mode_text(mode: LoginMode) -> (r: String)
    ensures
        r@ == login_mode_name(mode),
{
    match mode {
        LoginMode::Email => "email".to_owned(),
        LoginMode::Phone => "phone".to_owned(),
    }
}

fn field_text(field: ProfileField) -> (r: String)
    ensures
        r@ == field_name(field),
{
    match field {
        ProfileField::FirstName => "first name".to_owned(),
        ProfileField::LastName => "last name".to_owned(),
        ProfileField::BirthDate => "date of birth".to_owned(),
        ProfileField::AdditionalInfo => "additional info".to_owned(),
        ProfileField::Username => "username".to_owned(),
    }
}

/// Whether an action was queued, or else why not.
pub fn send_ws_action(outcome: SendOutcome) -> (r: Result<(), String>)
    ensures
        outcome_text(r) == send_outcome(outcome),
{
    match outcome {
        SendOutcome::Queued => Ok(()),
        SendOutcome::NotConnected => Err("WebSocket is not connected".to_owned()),
        SendOutcome::ChannelClosed => Err("WebSocket channel closed".to_owned()),
    }
}

fn event_text(color: &str, text: &str) -> (r: String)
    ensures
        r@ == event_line(color@, text@),
{
    "\n".to_owned().concat(color).concat("[event]").concat(RESET).concat(" ").concat(text)
}

/// The place that a typed number stands for, in a list of `len` things that are numbered from one.
pub fn chosen_index(a: &str, len: usize) -> (r: Option<usize>)
    ensures
        match AppModel::chosen(a@, len as nat) {
            Some(i) => r matches Some(j) && j == i,
            None => r is None,
        },
        r matches Some(j) ==> j < len,
{
    match parse_number(a) {
        Some(n) => if 0 < n && n <= len {
            Some(n - 1)
        } else {
            None
        },
        None => None,
    }
}

impl App {
    /// The client before anything has happened, with the chat list that was stored.
    pub fn new(config: Config, chats: Vec<ChatEntry>) -> (r: App)
        ensures
            r@ == (AppModel {
                config: config@,
                auth_url: config@.auth.base_url,
                session_token: None,
                me: None,
                connected: false,
                chats: chats_model(chats@),
                current_username: None,
                screen: Screen::MainDrain,
                out: Seq::empty(),
            }),
    {
        let auth = AuthClient::new(config.auth.base_url.clone());
        let out: Vec<Output> = Vec::new();
        assert(outputs_model(out@) =~= Seq::<OutputModel>::empty());
        App {
            config,
            auth,
            session_token: None,
            me: None,
            connected: false,
            chats,
            current_username: None,
            screen: Screen::MainDrain,
            out,
        }
    }

    /// Takes what the client has to say, in order.
    pub fn take_output(&mut self) -> (r: Vec<Output>)
        ensures
            outputs_model(r@) == old(self)@.out,
            final(self)@ == old(self)@.taken(),
    {
        let mut taken: Vec<Output> = Vec::new();
        std::mem::swap(&mut taken, &mut self.out);
        assert(outputs_model(self.out@) =~= Seq::<OutputModel>::empty());
        taken
    }

    fn question(&self) -> (r: Option<(String, bool)>)
        ensures
            match question(self@.screen) {
                Some((label, required)) => r matches Some((l, q)) && l@ == label && q == required,
                None => r is None,
            },
    {
        match &self.screen {
            Screen::MainChoice => Some(("Select option".to_owned(), false)),
            Screen::RegistrationChoice => Some(("Registration mode".to_owned(), false)),
            Screen::RegistrationUsername { .. } => Some(("username".to_owned(), true)),
            Screen::RegistrationPassword { .. } => Some(("password".to_owned(), true)),
            Screen::RegistrationEmail { .. } => Some(("email".to_owned(), true)),
            Screen::RegistrationPhone { .. } => Some(
                ("phone_number (+79991234567)".to_owned(), true),
            ),
            Screen::LoginChoice => Some(("Mode (email/phone)".to_owned(), false)),
            Screen::LoginDetails { mode } => Some((login_mode_text(*mode), true)),
            Screen::LoginPassword { .. } => Some(("password".to_owned(), true)),
            Screen::ChatsChoice => Some(("Chats menu".to_owned(), false)),
            Screen::AddChatUsername => Some(("target username".to_owned(), true)),
            Screen::AddChatLabel { .. } => Some(("label (optional)".to_owned(), false)),
            Screen::OpenChatIndex => Some(("chat index".to_owned(), false)),
            Screen::RemoveChatIndex => Some(("chat index to remove".to_owned(), false)),
            Screen::ChatChoice { .. } => Some(("Chat menu".to_owned(), false)),
            Screen::MessageText { .. } => Some(("message text".to_owned(), true)),
            Screen::RenamingChat { .. } => Some(("new label".to_owned(), true)),
            Screen::ProfileChoice => Some(("Profiles menu".to_owned(), false)),
            Screen::ProfileUsername => Some(("username".to_owned(), true)),
            Screen::ProfileValue { field, .. } => Some(
                ("new ".to_owned().concat(field_text(*field).as_str()), true),
            ),
            Screen::SwitchChoice { .. } => Some(("Select account".to_owned(), false)),
            _ => None,
        }
    }

    fn registration(&self, form: &Registration) -> (r: HttpRequest)
        ensures
            r@ == registration_request(self.auth.base_url@, form@),
    {
        match form {
            Registration::Full { username, password, email, phone_number } =>
                self.auth.register_full(
                username.as_str(),
                password.as_str(),
                email.as_str(),
                phone_number.as_str(),
            ),
            Registration::EmailOnly { username, password, email } => self.auth.register_email_only(
                username.as_str(),
                password.as_str(),
                email.as_str(),
            ),
            Registration::PhoneOnly { username, password, phone_number } =>
                self.auth.register_phone_only(
                username.as_str(),
                password.as_str(),
                phone_number.as_str(),
            ),
        }
    }

    fn update(&self, field: ProfileField, token: &str, new_value: &str) -> (r: HttpRequest)
        ensures
            r@ == update_request(self.auth.base_url@, field, token@, new_value@),
    {
        match field {
            ProfileField::FirstName => self.auth.change_first_name(token, new_value),
            ProfileField::LastName => self.auth.change_last_name(token, new_value),
            ProfileField::BirthDate => self.auth.change_birth_date(token, new_value),
            ProfileField::AdditionalInfo => self.auth.change_additional_info(token, new_value),
            ProfileField::Username => self.auth.change_username(token, new_value),
        }
    }

    fn token(&self) -> (r: String)
        ensures
            r@ == self@.token(),
    {
        string_or(&self.session_token, "")
    }

    /// Tells what the client waits for.
    pub fn request(&self) -> (r: Request)
        ensures
            r@ == self@.request(),
    {
        match &self.screen {
            Screen::MainDrain => Request::Drain,
            Screen::ChatsDrain => Request::Drain,
            Screen::MainPause => Request::WaitEnter,
            Screen::ChatPause { .. } => Request::WaitEnter,
            Screen::ProfilePause => Request::WaitEnter,
            Screen::Exited => Request::Exit,
            Screen::Exiting { token } => Request::Plain(self.auth.set_offline(token.as_str())),
            Screen::Registering { form } => Request::Plain(self.registration(form)),
            Screen::LoggingIn { mode, details, password } => Request::Plain(
                self.auth.login(
                    login_mode_text(*mode).as_str(),
                    details.as_str(),
                    password.as_str(),
                    self.config.session.default_lifetime_seconds,
                ),
            ),
            Screen::ResolvingSession { token } => Request::SessionUser(
                self.auth.session_user_info(token.as_str()),
            ),
            Screen::SavingSession { token, me } => Request::SaveSession {
                username: me.username.clone(),
                token: token.clone(),
            },
            Screen::RememberingSession { me, .. } => Request::RememberAccount {
                username: me.username.clone(),
            },
            Screen::GoingOnline { token, .. } => Request::Plain(
                self.auth.set_online(token.as_str()),
            ),
            Screen::Connecting { .. } => Request::Connect { url: self.config.chat.ws_url.clone() },
            Screen::SendingJoin { token, .. } => Request::Send(
                ClientAction::Join { session_token: token.clone() },
            ),
            Screen::Joining { .. } => Request::Receive,
            Screen::SendingPing { token } => Request::Send(
                ClientAction::Ping { session_token: token.clone() },
            ),
            Screen::Pinging => Request::Receive,
            Screen::AddChatLookup { token, username } => Request::Profile(
                self.auth.get_user_info(token.as_str(), username.as_str()),
            ),
            Screen::SendingListConnections => Request::Send(
                ClientAction::ListConnections { session_token: self.token() },
            ),
            Screen::AwaitingConnections => Request::Receive,
            Screen::RequestingHistory { chat } => Request::Send(
                ClientAction::History {
                    session_token: self.token(),
                    with_user_id: chat.user_id.clone(),
                    limit: Some(self.config.chat.default_history_limit),
                },
            ),
            Screen::AwaitingHistory { .. } => Request::Receive,
            Screen::SendingMessage { chat, text } => Request::Send(
                ClientAction::SendMessage {
                    session_token: self.token(),
                    receiver_id: chat.user_id.clone(),
                    text: Some(text.clone()),
                    file_id: None,
                },
            ),
            Screen::SendingMarkRead { chat } => Request::Send(
                ClientAction::MarkRead {
                    session_token: self.token(),
                    with_user_id: chat.user_id.clone(),
                },
            ),
            Screen::ProfileLookup { token, username } => Request::Profile(
                self.auth.get_user_info(token.as_str(), username.as_str()),
            ),
            Screen::ProfileUpdate { field, token, new_value } => Request::Plain(
                self.update(*field, token.as_str(), new_value.as_str()),
            ),
            Screen::LogoutOffline { token } => Request::Plain(
                self.auth.set_offline(token.as_str()),
            ),
            Screen::LogoutDelete { username } => Request::DeleteSession {
                username: username.clone(),
            },
            Screen::LogoutForget { username } => Request::ForgetAccount {
                username: username.clone(),
            },
            Screen::SwitchLoad => Request::LoadAccounts,
            Screen::SwitchToken { username } => Request::LoadSession {
                username: username.clone(),
            },
            Screen::SwitchValidate { token, .. } => Request::SessionUser(
                self.auth.session_user_info(token.as_str()),
            ),
            Screen::SwitchOnline { token, .. } => Request::Plain(
                self.auth.set_online(token.as_str()),
            ),
            _ => match self.question() {
                Some((label, _)) => Request::Ask(label),
                None => Request::WaitEnter,
            },
        }
    }

    fn go(&mut self, screen: Screen)
        ensures
            final(self)@ == old(self)@.go(screen@),
    {
        self.screen = screen;
    }

    fn say(&mut self, output: Output)
        ensures
            final(self)@ == old(self)@.say(output@),
    {
        let ghost before = self.out@;
        self.out.push(output);
        assert(outputs_model(self.out@) =~= outputs_model(before).push(output@));
    }

    fn line(&mut self, text: String)
        ensures
            final(self)@ == old(self)@.line(text@),
    {
        self.say(Output::Line(text));
    }

    fn ok(&mut self, text: &str)
        ensures
            final(self)@ == old(self)@.ok(text@),
    {
        self.line(print_ok(text));
    }

    fn fail(&mut self, text: &str)
        ensures
            final(self)@ == old(self)@.fail(text@),
    {
        self.say(Output::ErrorLine(print_error(text)));
    }

    fn fail_with(&mut self, prefix: &str, cause: &str)
        ensures
            final(self)@ == old(self)@.fail(prefix@ + cause@),
    {
        self.fail(prefix.to_owned().concat(cause).as_str());
    }

    fn save_chats(&mut self)
        ensures
            final(self)@ == old(self)@.keep(old(self)@.chats),
    {
        let chats = copy_chats(&self.chats);
        self.say(Output::SaveChats(chats));
    }

    fn pause(&mut self)
        ensures
            final(self)@ == old(self)@.pause(),
    {
        self.go(Screen::MainPause);
    }

    fn ensure_chat(&mut self, user_id: &str, label: Option<String>)
        ensures
            final(self)@ == old(self)@.ensure_chat(user_id@, opt_text(label)),
    {
        if ensure_chat_exists(&mut self.chats, user_id, label) {
            self.save_chats();
        }
    }

    fn count_message(&mut self, user_id: &str)
        ensures
            final(self)@ == old(self)@.count_message(user_id@),
    {
        if count_unread(&mut self.chats, user_id) {
            self.save_chats();
        }
    }

    fn read_messages(&mut self, user_id: &str)
        ensures
            final(self)@ == old(self)@.read_messages(user_id@),
    {
        if clear_unread(&mut self.chats, user_id) {
            self.save_chats();
        }
    }

    fn my_id(&self) -> (r: String)
        ensures
            r@ == self@.my_id(),
    {
        match &self.me {
            Some(user) => string_or(&user.uuid, ""),
            None => "".to_owned(),
        }
    }

    /// Takes an event that nothing waits for.
    pub fn handle_server_event(&mut self, event: &ServerEvent)
        ensures
            final(self)@ == old(self)@.handle(event@),
    {
        match event {
            ServerEvent::Message { message } => {
                let me = self.my_id();
                let from_peer = !same(message.sender_id.as_str(), me.as_str());
                let peer_id = if from_peer {
                    message.sender_id.clone()
                } else {
                    message.receiver_id.clone()
                };
                self.ensure_chat(peer_id.as_str(), None);
                if from_peer {
                    self.count_message(peer_id.as_str());
                }
                let text = "new message: ".to_owned().concat(
                    string_or(&message.text, "<file>").as_str(),
                );
                self.line(event_text(YELLOW, text.as_str()));
            },
            ServerEvent::MarkReadResult { with_user_id, updated } => {
                let text = "mark_read for ".to_owned().concat(with_user_id.as_str()).concat(
                    " updated ",
                ).concat(decimal_text(*updated).as_str()).concat(" messages");
                self.line(event_text(CYAN, text.as_str()));
                self.read_messages(with_user_id.as_str());
            },
            ServerEvent::ReadReceipt { by_user_id, updated } => {
                let text = "read_receipt by ".to_owned().concat(by_user_id.as_str()).concat(
                    " for ",
                ).concat(decimal_text(*updated).as_str()).concat(" messages");
                self.line(event_text(CYAN, text.as_str()));
            },
            ServerEvent::Connections { connections } => {
                let text = decimal_text(connections.len()).concat(" online connection(s)");
                self.line(event_text(CYAN, text.as_str()));
            },
            ServerEvent::Pong => self.line(event_text(CYAN, "pong")),
            ServerEvent::Error { message } => self.fail_with("server error: ", message.as_str()),
            ServerEvent::Joined { .. } => {},
            ServerEvent::History { .. } => {},
        }
    }

    fn drain_events(&mut self, events: &Vec<ServerEvent>)
        ensures
            final(self)@ == old(self)@.handle_first(events_model(events@), events@.len()),
    {
        let ghost start = self@;
        let mut i: usize = 0;
        while i < events.len()
            invariant
                i <= events@.len(),
                self@ == start.handle_first(events_model(events@), i as nat),
            decreases events@.len() - i,
        {
            self.handle_server_event(&events[i]);
            i = i + 1;
        }
    }

    fn show_main_menu(&mut self)
        ensures
            final(self)@ == old(self)@.show_main_menu(),
    {
        let menu = render_main_menu(
            self.auth.base_url.as_str(),
            self.config.chat.ws_url.as_str(),
            &self.me,
        );
        if self.config.ui.clear_screen_on_menu {
            self.say(Output::Print(clear_screen()));
        }
        self.line(menu);
        self.go(Screen::MainChoice);
    }

    fn show_chats(&mut self)
        ensures
            final(self)@ == old(self)@.show_chats(),
    {
        let list = print_chat_list(&self.chats);
        self.line(list);
        self.line(CHATS_MENU.to_owned());
        self.go(Screen::ChatsChoice);
    }

    fn show_chat(&mut self, chat: OpenChat)
        ensures
            final(self)@ == old(self)@.show_chat(chat@),
    {
        let heading = "Chat with ".to_owned().concat(chat.label.as_str()).concat(" [").concat(
            chat.user_id.as_str(),
        ).concat("]");
        self.line(title(heading.as_str()));
        self.go(Screen::RequestingHistory { chat });
    }

    fn show_chat_menu(&mut self, chat: OpenChat)
        ensures
            final(self)@ == old(self)@.show_chat_menu(chat@),
    {
        self.line(CHAT_MENU.to_owned());
        self.go(Screen::ChatChoice { chat });
    }

    fn show_profile_menu(&mut self)
        ensures
            final(self)@ == old(self)@.show_profile_menu(),
    {
        self.line(PROFILE_MENU.to_owned());
        self.go(Screen::ProfileChoice);
    }

    fn drained(&mut self, events: &Vec<ServerEvent>)
        ensures
            final(self)@ == old(self)@.drained(events_model(events@)),
    {
        match &self.screen {
            Screen::MainDrain => {
                self.drain_events(events);
                self.show_main_menu();
            },
            Screen::ChatsDrain => {
                self.drain_events(events);
                self.show_chats();
            },
            _ => {},
        }
    }

    fn connect_chat(&mut self, after: AfterConnect)
        ensures
            final(self)@ == old(self)@.connect(after),
    {
        if self.connected {
            self.ok("Chat socket is already connected");
            self.connect_done(after);
        } else {
            match copy_option(&self.session_token) {
                Some(token) => self.go(Screen::Connecting { after, token }),
                None => self.connect_failed(after, "Please login first"),
            }
        }
    }

    fn drop_socket(&mut self)
        ensures
            final(self)@ == old(self)@.without_socket(),
    {
        if self.connected {
            self.connected = false;
            self.say(Output::CloseSocket);
        }
    }

    fn connect_done(&mut self, after: AfterConnect)
        ensures
            final(self)@ == old(self)@.connect_done(after),
    {
        match after {
            AfterConnect::Menu => self.pause(),
            AfterConnect::Ping => self.ping(),
            AfterConnect::Chats => self.go(Screen::ChatsDrain),
        }
    }

    fn connect_failed(&mut self, after: AfterConnect, reason: &str)
        ensures
            final(self)@ == old(self)@.connect_failed(after, reason@),
    {
        match after {
            AfterConnect::Menu => self.fail_with("Chat connection failed: ", reason),
            AfterConnect::Ping => self.fail_with("Cannot ping chat: ", reason),
            AfterConnect::Chats => self.fail_with("Cannot open chat menu: ", reason),
        }
        self.pause();
    }

    fn join_failed(&mut self, after: AfterConnect, reason: &str)
        ensures
            final(self)@ == old(self)@.join_failed(after, reason@),
    {
        self.connected = false;
        self.say(Output::CloseSocket);
        self.connect_failed(after, reason);
    }

    fn ping(&mut self)
        ensures
            final(self)@ == old(self)@.ping(),
    {
        match copy_option(&self.session_token) {
            Some(token) => self.go(Screen::SendingPing { token }),
            None => {
                self.fail("Please login first");
                self.pause();
            },
        }
    }

    fn require_login(&mut self) -> (r: bool)
        ensures
            r == (old(self)@.session_token is Some),
            final(self)@ == (if r {
                old(self)@
            } else {
                old(self)@.fail("Please login first"@)
            }),
    {
        if self.session_token.is_none() {
            self.fail("Please login first");
            false
        } else {
            true
        }
    }

    fn ping_chat(&mut self)
        ensures
            final(self)@ == old(self)@.start_ping(),
    {
        if !self.require_login() {
            self.pause();
        } else if self.connected {
            self.ping();
        } else {
            self.connect_chat(AfterConnect::Ping);
        }
    }

    fn chat_list_menu(&mut self)
        ensures
            final(self)@ == old(self)@.start_chats(),
    {
        self.line(title("Chats"));
        if !self.require_login() {
            self.pause();
        } else if self.connected {
            self.go(Screen::ChatsDrain);
        } else {
            self.connect_chat(AfterConnect::Chats);
        }
    }

    fn profile_menu(&mut self)
        ensures
            final(self)@ == old(self)@.start_profiles(),
    {
        self.line(title("Profiles"));
        if !self.require_login() {
            self.pause();
        } else {
            self.show_profile_menu();
        }
    }

    fn logout(&mut self)
        ensures
            final(self)@ == old(self)@.start_logout(),
    {
        match copy_option(&self.session_token) {
            Some(token) => self.go(Screen::LogoutOffline { token }),
            None => self.forget_account(),
        }
    }

    fn forget_account(&mut self)
        ensures
            final(self)@ == old(self)@.forget_account(),
    {
        match copy_option(&self.current_username) {
            Some(username) => self.go(Screen::LogoutDelete { username }),
            None => self.logged_out(),
        }
    }

    fn logged_out(&mut self)
        ensures
            final(self)@ == old(self)@.logged_out(),
    {
        self.connected = false;
        self.session_token = None;
        self.me = None;
        self.current_username = None;
        self.say(Output::CloseSocket);
        self.ok("Logged out");
        self.pause();
    }

    fn bye(&mut self)
        ensures
            final(self)@ == old(self)@.bye(),
    {
        self.line(GREEN.to_owned().concat("Bye.").concat(RESET));
        self.go(Screen::Exited);
    }

    fn logged_in(&mut self, token: &String, me: &SessionUserInfo, account: &String)
        ensures
            final(self)@ == old(self)@.logged_in(token@, me@, account@),
    {
        self.session_token = Some(token.clone());
        self.me = Some(me.clone());
        self.current_username = Some(account.clone());
    }

    fn main_choice(&mut self, a: &str)
        ensures
            final(self)@ == old(self)@.main_choice(a@),
    {
        if same(a, "1") {
            self.line(title("Registration"));
            self.line(REGISTRATION_MENU.to_owned());
            self.go(Screen::RegistrationChoice);
        } else if same(a, "2") {
            self.line(title("Login"));
            self.go(Screen::LoginChoice);
        } else if same(a, "3") {
            self.connect_chat(AfterConnect::Menu);
        } else if same(a, "4") {
            self.chat_list_menu();
        } else if same(a, "5") {
            self.profile_menu();
        } else if same(a, "6") {
            self.ping_chat();
        } else if same(a, "7") {
            self.logout();
        } else if same(a, "8") {
            self.line(title("Switch Account"));
            self.go(Screen::SwitchLoad);
        } else if same(a, "0") {
            match copy_option(&self.session_token) {
                Some(token) => self.go(Screen::Exiting { token }),
                None => self.bye(),
            }
        } else {
            self.fail("Unknown menu option");
            self.pause();
        }
    }

    fn registration_menu(&mut self, a: &str)
        ensures
            final(self)@ == old(self)@.registration_choice(a@),
    {
        if same(a, "1") {
            self.go(Screen::RegistrationUsername { mode: RegistrationMode::Full });
        } else if same(a, "2") {
            self.go(Screen::RegistrationUsername { mode: RegistrationMode::EmailOnly });
        } else if same(a, "3") {
            self.go(Screen::RegistrationUsername { mode: RegistrationMode::PhoneOnly });
        } else {
            self.pause();
        }
    }

    fn registration_password(&mut self, mode: RegistrationMode, username: String, password: String)
        ensures
            final(self)@ == old(self)@.registration_password(mode, username@, password@),
    {
        match mode {
            RegistrationMode::PhoneOnly => self.go(
                Screen::RegistrationPhone { username, password, email: None },
            ),
            _ => self.go(Screen::RegistrationEmail { mode, username, password }),
        }
    }

    fn registration_email(
        &mut self,
        mode: RegistrationMode,
        username: String,
        password: String,
        email: String,
    )
        ensures
            final(self)@ == old(self)@.registration_email(mode, username@, password@, email@),
    {
        match mode {
            RegistrationMode::Full => self.go(
                Screen::RegistrationPhone { username, password, email: Some(email) },
            ),
            _ => self.go(
                Screen::Registering { form: Registration::EmailOnly { username, password, email } },
            ),
        }
    }

    fn registration_phone(
        &mut self,
        username: String,
        password: String,
        email: Option<String>,
        phone_number: String,
    )
        ensures
            final(self)@ == old(self)@.registration_phone(
                username@,
                password@,
                opt_text(email),
                phone_number@,
            ),
    {
        let form = match email {
            Some(email) => Registration::Full { username, password, email, phone_number },
            None => Registration::PhoneOnly { username, password, phone_number },
        };
        self.go(Screen::Registering { form });
    }

    fn chats_choice(&mut self, a: &str)
        ensures
            final(self)@ == old(self)@.chats_choice(a@),
    {
        if same(a, "1") {
            self.go(Screen::AddChatUsername);
        } else if same(a, "2") {
            if self.chats.len() == 0 {
                self.fail("Chat list is empty");
                self.go(Screen::ChatsDrain);
            } else {
                self.go(Screen::OpenChatIndex);
            }
        } else if same(a, "3") {
            self.go(Screen::RemoveChatIndex);
        } else if same(a, "4") {
            self.go(Screen::SendingListConnections);
        } else if same(a, "0") {
            self.pause();
        } else {
            self.fail("Unknown option");
            self.go(Screen::ChatsDrain);
        }
    }

    fn add_chat_username(&mut self, username: String)
        ensures
            final(self)@ == old(self)@.add_chat_username(username@),
    {
        match copy_option(&self.session_token) {
            Some(token) => self.go(Screen::AddChatLookup { token, username }),
            None => {
                self.fail("Please login first");
                self.go(Screen::ChatsDrain);
            },
        }
    }

    fn add_chat_label(&mut self, username: &str, user_id: &str, label: String)
        ensures
            final(self)@ == old(self)@.add_chat_label(username@, user_id@, label@),
    {
        let label = if label.as_str().is_empty() {
            None
        } else {
            Some(label)
        };
        self.ensure_chat(user_id, label);
        let text = "Chat with ".to_owned().concat(username).concat(" (").concat(
            short_id(user_id).as_str(),
        ).concat(") added");
        self.ok(text.as_str());
        self.go(Screen::ChatsDrain);
    }

    fn open_chat(&mut self, a: &str)
        ensures
            final(self)@ == old(self)@.open_chat(a@),
    {
        match chosen_index(a, self.chats.len()) {
            Some(index) => {
                let chat = OpenChat {
                    index,
                    user_id: self.chats[index].user_id.clone(),
                    label: self.chats[index].label.clone(),
                };
                let _ = read_at(&mut self.chats, index);
                self.save_chats();
                self.show_chat(chat);
            },
            None => {
                self.fail("Invalid index");
                self.go(Screen::ChatsDrain);
            },
        }
    }

    fn remove_chat(&mut self, a: &str)
        ensures
            final(self)@ == old(self)@.remove_chat(a@),
    {
        match chosen_index(a, self.chats.len()) {
            Some(index) => {
                let _ = remove_at(&mut self.chats, index);
                self.save_chats();
                self.ok("Chat removed");
            },
            None => self.fail("Invalid index"),
        }
        self.go(Screen::ChatsDrain);
    }

    fn chat_choice(&mut self, chat: OpenChat, a: &str)
        ensures
            final(self)@ == old(self)@.chat_choice(chat@, a@),
    {
        if same(a, "1") {
            self.go(Screen::MessageText { chat });
        } else if same(a, "2") {
            self.go(Screen::ChatPause { chat });
        } else if same(a, "3") {
            self.go(Screen::SendingMarkRead { chat });
        } else if same(a, "4") {
            self.go(Screen::RenamingChat { chat });
        } else if same(a, "0") {
            self.go(Screen::ChatsDrain);
        } else {
            self.fail("Unknown option");
            self.go(Screen::ChatPause { chat });
        }
    }

    fn rename_chat(&mut self, chat: OpenChat, label: String)
        ensures
            final(self)@ == old(self)@.rename_chat(chat@, label@),
    {
        if rename_at(&mut self.chats, chat.index, label) {
            self.save_chats();
        }
        self.go(Screen::ChatPause { chat });
    }

    fn profile_choice(&mut self, a: &str)
        ensures
            final(self)@ == old(self)@.profile_choice(a@),
    {
        if same(a, "1") {
            match copy_option(&self.session_token) {
                Some(token) => match &self.me {
                    Some(me) => {
                        let username = me.username.clone();
                        self.go(Screen::ProfileLookup { token, username });
                    },
                    None => {
                        self.fail("Current user is unknown");
                        self.show_profile_menu();
                    },
                },
                None => {
                    self.fail("Please login first");
                    self.show_profile_menu();
                },
            }
        } else if same(a, "2") {
            self.go(Screen::ProfileUsername);
        } else if same(a, "3") {
            self.change_profile_field(ProfileField::FirstName);
        } else if same(a, "4") {
            self.change_profile_field(ProfileField::LastName);
        } else if same(a, "5") {
            self.change_profile_field(ProfileField::BirthDate);
        } else if same(a, "6") {
            self.change_profile_field(ProfileField::AdditionalInfo);
        } else if same(a, "7") {
            self.change_profile_field(ProfileField::Username);
        } else if same(a, "0") {
            self.pause();
        } else {
            self.fail("Unknown option");
            self.go(Screen::ProfilePause);
        }
    }

    fn profile_username(&mut self, username: String)
        ensures
            final(self)@ == old(self)@.profile_username(username@),
    {
        match copy_option(&self.session_token) {
            Some(token) => self.go(Screen::ProfileLookup { token, username }),
            None => {
                self.fail("Please login first");
                self.show_profile_menu();
            },
        }
    }

    fn change_profile_field(&mut self, field: ProfileField)
        ensures
            final(self)@ == old(self)@.change_field(field),
    {
        match copy_option(&self.session_token) {
            Some(token) => self.go(Screen::ProfileValue { field, token }),
            None => {
                self.fail("Please login first");
                self.go(Screen::ProfilePause);
            },
        }
    }

    fn switch_choice(&mut self, accounts: &Vec<String>, a: &str)
        ensures
            final(self)@ == old(self)@.switch_choice(texts(accounts@), a@),
    {
        if same(a, "0") {
            self.pause();
        } else if parse_number(a).is_none() {
            self.fail("Invalid input");
            self.pause();
        } else {
            match chosen_index(a, accounts.len()) {
                Some(index) => self.go(Screen::SwitchToken { username: accounts[index].clone() }),
                None => {
                    self.fail("Invalid selection");
                    self.pause();
                },
            }
        }
    }

    fn answered(&mut self, a: String)
        ensures
            final(self)@ == old(self)@.answered(a@),
    {
        match &self.screen {
            Screen::MainChoice => self.main_choice(a.as_str()),
            Screen::RegistrationChoice => self.registration_menu(a.as_str()),
            Screen::RegistrationUsername { mode } => {
                let mode = *mode;
                self.go(Screen::RegistrationPassword { mode, username: a });
            },
            Screen::RegistrationPassword { mode, username } => {
                let mode = *mode;
                let username = username.clone();
                self.registration_password(mode, username, a);
            },
            Screen::RegistrationEmail { mode, username, password } => {
                let mode = *mode;
                let username = username.clone();
                let password = password.clone();
                self.registration_email(mode, username, password, a);
            },
            Screen::RegistrationPhone { username, password, email } => {
                let username = username.clone();
                let password = password.clone();
                let email = copy_option(email);
                self.registration_phone(username, password, email, a);
            },
            Screen::LoginChoice => {
                let mode = if eq_ignore_ascii_case(a.as_str(), "phone") {
                    LoginMode::Phone
                } else {
                    LoginMode::Email
                };
                self.go(Screen::LoginDetails { mode });
            },
            Screen::LoginDetails { mode } => {
                let mode = *mode;
                self.go(Screen::LoginPassword { mode, details: a });
            },
            Screen::LoginPassword { mode, details } => {
                let mode = *mode;
                let details = details.clone();
                self.go(Screen::LoggingIn { mode, details, password: a });
            },
            Screen::ChatsChoice => self.chats_choice(a.as_str()),
            Screen::AddChatUsername => self.add_chat_username(a),
            Screen::AddChatLabel { username, user_id } => {
                let username = username.clone();
                let user_id = user_id.clone();
                self.add_chat_label(username.as_str(), user_id.as_str(), a);
            },
            Screen::OpenChatIndex => self.open_chat(a.as_str()),
            Screen::RemoveChatIndex => self.remove_chat(a.as_str()),
            Screen::ChatChoice { chat } => {
                let chat = chat.clone();
                self.chat_choice(chat, a.as_str());
            },
            Screen::MessageText { chat } => {
                let chat = chat.clone();
                self.go(Screen::SendingMessage { chat, text: a });
            },
            Screen::RenamingChat { chat } => {
                let chat = chat.clone();
                self.rename_chat(chat, a);
            },
            Screen::ProfileChoice => self.profile_choice(a.as_str()),
            Screen::ProfileUsername => self.profile_username(a),
            Screen::ProfileValue { field, token } => {
                let field = *field;
                let token = token.clone();
                self.go(Screen::ProfileUpdate { field, token, new_value: a });
            },
            Screen::SwitchChoice { accounts } => {
                let accounts = copy_strings(accounts);
                self.switch_choice(&accounts, a.as_str());
            },
            _ => {},
        }
    }

    fn ask_again_if_blank(&mut self, line: &Option<String>)
        ensures
            final(self)@ == (if answer(opt_text(*line)).len() == 0 {
                old(self)@.fail("Value cannot be empty"@)
            } else {
                old(self)@.answered(answer(opt_text(*line)))
            }),
    {
        match prompt_required(prompt(line)) {
            Ok(value) => self.answered(value),
            Err(report) => self.say(Output::ErrorLine(report)),
        }
    }

    fn typed(&mut self, line: Option<String>)
        ensures
            final(self)@ == old(self)@.typed(opt_text(line)),
    {
        match &self.screen {
            Screen::MainPause => self.go(Screen::MainDrain),
            Screen::ChatPause { chat } => {
                let chat = chat.clone();
                self.show_chat(chat);
            },
            Screen::ProfilePause => {
                self.line(title("Profiles"));
                self.show_profile_menu();
            },
            _ => match self.question() {
                Some((_, true)) => self.ask_again_if_blank(&line),
                Some((_, false)) => self.answered(prompt(&line)),
                None => {},
            },
        }
    }

    fn registered(&mut self, reply: HttpReply)
        ensures
            final(self)@ == old(self)@.registered(reply@),
    {
        match ensure_ok_plain(reply) {
            Ok(()) => self.ok("User registered"),
            Err(e) => self.fail_with("Register failed: ", e.as_str()),
        }
        self.pause();
    }

    fn got_token(&mut self, reply: HttpReply)
        ensures
            final(self)@ == old(self)@.got_token(reply@),
    {
        match parse_plain_success(reply) {
            Ok(token) => self.go(Screen::ResolvingSession { token }),
            Err(e) => {
                self.fail_with("Login failed: ", e.as_str());
                self.pause();
            },
        }
    }

    fn renamed(&mut self, field: ProfileField, new_value: String)
        ensures
            final(self)@ == old(self)@.renamed(field, new_value@),
    {
        if let ProfileField::Username = field {
            if let Some(me) = &self.me {
                let uuid = copy_option(&me.uuid);
                self.me = Some(SessionUserInfo { uuid, username: new_value });
            }
        }
    }

    fn profile_updated(&mut self, field: ProfileField, new_value: String, reply: HttpReply)
        ensures
            final(self)@ == old(self)@.profile_updated(field, new_value@, reply@),
    {
        match ensure_ok_plain(reply) {
            Ok(()) => {
                self.renamed(field, new_value);
                self.ok("Profile updated");
            },
            Err(e) => self.fail_with("Update failed: ", e.as_str()),
        }
        self.go(Screen::ProfilePause);
    }

    fn replied(&mut self, reply: HttpReply)
        ensures
            final(self)@ == old(self)@.replied(reply@),
    {
        match &self.screen {
            Screen::Registering { .. } => self.registered(reply),
            Screen::LoggingIn { .. } => self.got_token(reply),
            Screen::GoingOnline { me, .. } => {
                let text = "Login successful: ".to_owned().concat(user_tag(me).as_str());
                self.ok(text.as_str());
                self.connect_chat(AfterConnect::Menu);
            },
            Screen::ProfileUpdate { field, new_value, .. } => {
                let field = *field;
                let new_value = new_value.clone();
                self.profile_updated(field, new_value, reply);
            },
            Screen::LogoutOffline { .. } => self.forget_account(),
            Screen::Exiting { .. } => self.bye(),
            Screen::SwitchOnline { me, .. } => {
                let text = "Switched to account: ".to_owned().concat(user_tag(me).as_str());
                self.ok(text.as_str());
                self.drop_socket();
                self.connect_chat(AfterConnect::Menu);
            },
            _ => {},
        }
    }

    fn got_user(&mut self, reply: HttpReply, parsed: Result<SessionUserInfo, String>)
        ensures
            final(self)@ == old(self)@.got_user(reply@, user_outcome(parsed)),
    {
        match &self.screen {
            Screen::ResolvingSession { token } => {
                let token = token.clone();
                match parse_json_success(reply, parsed) {
                    Ok(me) => {
                        self.logged_in(&token, &me, &me.username);
                        self.go(Screen::SavingSession { token, me });
                    },
                    Err(e) => {
                        self.fail_with("Session resolve failed: ", e.as_str());
                        self.pause();
                    },
                }
            },
            Screen::SwitchValidate { username, token } => {
                let username = username.clone();
                let token = token.clone();
                match parse_json_success(reply, parsed) {
                    Ok(me) => {
                        self.logged_in(&token, &me, &username);
                        self.go(Screen::SwitchOnline { token, me });
                    },
                    Err(e) => {
                        self.fail_with("Failed to validate saved session: ", e.as_str());
                        self.pause();
                    },
                }
            },
            _ => {},
        }
    }

    fn got_profile(&mut self, reply: HttpReply, parsed: Result<UserProfile, String>)
        ensures
            final(self)@ == old(self)@.got_profile(reply@, profile_outcome(parsed)),
    {
        match &self.screen {
            Screen::AddChatLookup { username, .. } => {
                let username = username.clone();
                match parse_json_success(reply, parsed) {
                    Ok(profile) => {
                        let user_id = string_or(&profile.uuid, profile.username.as_str());
                        self.go(Screen::AddChatLabel { username, user_id });
                    },
                    Err(e) => {
                        self.fail_with("Failed to resolve username: ", e.as_str());
                        self.go(Screen::ChatsDrain);
                    },
                }
            },
            Screen::ProfileLookup { .. } => {
                match parse_json_success(reply, parsed) {
                    Ok(profile) => self.line(print_profile(&profile)),
                    Err(e) => self.fail_with("Failed to load profile: ", e.as_str()),
                }
                self.go(Screen::ProfilePause);
            },
            _ => {},
        }
    }

    fn stored(&mut self, outcome: Result<(), String>)
        ensures
            final(self)@ == old(self)@.stored(outcome_text(outcome)),
    {
        match &self.screen {
            Screen::SavingSession { token, me } => {
                let token = token.clone();
                let me = me.clone();
                match outcome {
                    Ok(()) => self.go(Screen::RememberingSession { token, me }),
                    Err(e) => {
                        self.fail_with("Failed to save session: ", e.as_str());
                        self.go(Screen::GoingOnline { token, me });
                    },
                }
            },
            Screen::RememberingSession { token, me } => {
                let token = token.clone();
                let me = me.clone();
                match outcome {
                    Ok(()) => {
                        let text = "Session saved for: ".to_owned().concat(me.username.as_str());
                        self.ok(text.as_str());
                    },
                    Err(e) => self.fail_with("Failed to add to sessions list: ", e.as_str()),
                }
                self.go(Screen::GoingOnline { token, me });
            },
            Screen::LogoutDelete { username } => {
                let username = username.clone();
                if let Err(e) = outcome {
                    self.fail_with("Failed to delete session: ", e.as_str());
                }
                self.go(Screen::LogoutForget { username });
            },
            Screen::LogoutForget { .. } => {
                if let Err(e) = outcome {
                    self.fail_with("Failed to remove from sessions list: ", e.as_str());
                }
                self.logged_out();
            },
            _ => {},
        }
    }

    fn got_saved_token(&mut self, token: Option<String>)
        ensures
            final(self)@ == old(self)@.got_saved_token(opt_text(token)),
    {
        if let Screen::SwitchToken { username } = &self.screen {
            let username = username.clone();
            match token {
                Some(token) => self.go(Screen::SwitchValidate { username, token }),
                None => {
                    self.fail_with("Session not found for user: ", username.as_str());
                    self.pause();
                },
            }
        }
    }

    fn got_accounts(&mut self, accounts: Vec<String>)
        ensures
            final(self)@ == old(self)@.got_accounts(texts(accounts@)),
    {
        if let Screen::SwitchLoad = &self.screen {
            if accounts.len() == 0 {
                self.fail("No saved sessions found");
                self.pause();
            } else {
                self.line(print_accounts(&accounts));
                self.go(Screen::SwitchChoice { accounts });
            }
        }
    }

    fn socket_opened(&mut self, outcome: Result<(), String>)
        ensures
            final(self)@ == old(self)@.socket_opened(outcome_text(outcome)),
    {
        if let Screen::Connecting { after, token } = &self.screen {
            let after = *after;
            let token = token.clone();
            match outcome {
                Ok(()) => self.go(Screen::SendingJoin { after, token }),
                Err(e) => {
                    let reason = "ws connect failed: ".to_owned().concat(e.as_str());
                    self.connect_failed(after, reason.as_str());
                },
            }
        }
    }

    fn sent(&mut self, outcome: SendOutcome)
        ensures
            final(self)@ == old(self)@.sent(outcome),
    {
        match &self.screen {
            Screen::SendingJoin { after, .. } => {
                let after = *after;
                match send_ws_action(outcome) {
                    Ok(()) => {
                        self.connected = true;
                        self.say(Output::StartTimer(5));
                        self.go(Screen::Joining { after });
                    },
                    Err(_) => self.join_failed(after, "failed to send join action"),
                }
            },
            Screen::SendingPing { .. } => match send_ws_action(outcome) {
                Ok(()) => {
                    self.say(Output::StartTimer(3));
                    self.go(Screen::Pinging);
                },
                Err(e) => {
                    self.fail_with("Ping failed: ", e.as_str());
                    self.pause();
                },
            },
            Screen::SendingListConnections => match send_ws_action(outcome) {
                Ok(()) => {
                    self.say(Output::StartTimer(3));
                    self.go(Screen::AwaitingConnections);
                },
                Err(e) => {
                    self.fail_with("Failed to request list_connections: ", e.as_str());
                    self.go(Screen::ChatsDrain);
                },
            },
            Screen::RequestingHistory { chat } => {
                let chat = chat.clone();
                match send_ws_action(outcome) {
                    Ok(()) => {
                        self.say(Output::StartTimer(4));
                        self.go(Screen::AwaitingHistory { chat });
                    },
                    Err(e) => {
                        self.fail_with("History request failed: ", e.as_str());
                        self.show_chat_menu(chat);
                    },
                }
            },
            Screen::SendingMessage { chat, .. } => {
                let chat = chat.clone();
                match send_ws_action(outcome) {
                    Ok(()) => self.ok("Message sent"),
                    Err(e) => self.fail_with("Send failed: ", e.as_str()),
                }
                self.go(Screen::ChatPause { chat });
            },
            Screen::SendingMarkRead { chat } => {
                let chat = chat.clone();
                match send_ws_action(outcome) {
                    Ok(()) => self.ok("mark_read sent"),
                    Err(e) => self.fail_with("Mark read failed: ", e.as_str()),
                }
                self.go(Screen::ChatPause { chat });
            },
            _ => {},
        }
    }

    fn wait_for_join(&mut self, after: AfterConnect, receipt: Receipt)
        ensures
            final(self)@ == old(self)@.join_received(after, receipt@),
    {
        match receipt {
            Receipt::DeadlinePassed => self.join_failed(after, "Join timeout"),
            Receipt::NoSocket => self.join_failed(after, "WebSocket disconnected"),
            Receipt::Closed => self.join_failed(after, "WebSocket closed"),
            Receipt::Elapsed => {},
            Receipt::Got(event) => match &event {
                ServerEvent::Joined { user_id, username, connection_number } => {
                    let text = "Joined as ".to_owned().concat(username.as_str()).concat(
                        " (",
                    ).concat(user_id.as_str()).concat(") [connection #").concat(
                        decimal_text(*connection_number).as_str(),
                    ).concat("]");
                    self.ok(text.as_str());
                    self.ok("Connected to chat WebSocket");
                    self.connect_done(after);
                },
                ServerEvent::Error { message } => {
                    let reason = "Join rejected: ".to_owned().concat(message.as_str());
                    self.join_failed(after, reason.as_str());
                },
                _ => self.handle_server_event(&event),
            },
        }
    }

    fn wait_for_pong(&mut self, receipt: Receipt)
        ensures
            final(self)@ == old(self)@.ping_received(receipt@),
    {
        match receipt {
            Receipt::DeadlinePassed => {
                self.fail("Ping timeout");
                self.pause();
            },
            Receipt::NoSocket => {
                self.fail("WebSocket not connected");
                self.pause();
            },
            Receipt::Closed => {},
            Receipt::Elapsed => {},
            Receipt::Got(event) => match &event {
                ServerEvent::Pong => {
                    self.ok("Pong received");
                    self.pause();
                },
                _ => self.handle_server_event(&event),
            },
        }
    }

    fn wait_and_print_connections(&mut self, receipt: Receipt)
        ensures
            final(self)@ == old(self)@.connections_received(receipt@),
    {
        match receipt {
            Receipt::DeadlinePassed => {
                self.fail("No connections response from server");
                self.go(Screen::ChatsDrain);
            },
            Receipt::NoSocket => {
                self.fail("WebSocket not connected");
                self.go(Screen::ChatsDrain);
            },
            Receipt::Closed => {},
            Receipt::Elapsed => {},
            Receipt::Got(event) => match &event {
                ServerEvent::Connections { connections } => {
                    self.line(print_connections(connections));
                    self.go(Screen::ChatsDrain);
                },
                _ => self.handle_server_event(&event),
            },
        }
    }

    fn wait_for_history(&mut self, chat: OpenChat, receipt: Receipt)
        ensures
            final(self)@ == old(self)@.history_received(chat@, receipt@),
    {
        match receipt {
            Receipt::DeadlinePassed => {
                self.fail("No history response from server (timeout)");
                self.show_chat_menu(chat);
            },
            Receipt::NoSocket => {
                self.fail("WebSocket not connected");
                self.show_chat_menu(chat);
            },
            Receipt::Closed => {},
            Receipt::Elapsed => {},
            Receipt::Got(event) => match &event {
                ServerEvent::History { with_user_id, messages } => {
                    if same(with_user_id.as_str(), chat.user_id.as_str()) {
                        let my_id = match &self.me {
                            Some(me) => copy_option(&me.uuid),
                            None => None,
                        };
                        self.line(print_history(with_user_id.as_str(), messages, &my_id));
                        self.show_chat_menu(chat);
                    } else {
                        self.handle_server_event(&event);
                    }
                },
                _ => self.handle_server_event(&event),
            },
        }
    }

    fn received(&mut self, receipt: Receipt)
        ensures
            final(self)@ == old(self)@.received(receipt@),
    {
        match &self.screen {
            Screen::Joining { after } => {
                let after = *after;
                self.wait_for_join(after, receipt);
            },
            Screen::Pinging => self.wait_for_pong(receipt),
            Screen::AwaitingConnections => self.wait_and_print_connections(receipt),
            Screen::AwaitingHistory { chat } => {
                let chat = chat.clone();
                self.wait_for_history(chat, receipt);
            },
            _ => {},
        }
    }

    /// Takes what came of the request. What the client has to say about it is left for
    /// [`App::take_output`].
    pub fn step(&mut self, event: Event)
        ensures
            final(self)@ == old(self)@.next(event@),
    {
        match event {
            Event::Line(line) => self.typed(line),
            Event::Drained(events) => self.drained(&events),
            Event::Plain(reply) => self.replied(reply),
            Event::SessionUser(reply, parsed) => self.got_user(reply, parsed),
            Event::Profile(reply, parsed) => self.got_profile(reply, parsed),
            Event::Stored(outcome) => self.stored(outcome),
            Event::Token(token) => self.got_saved_token(token),
            Event::Accounts(accounts) => self.got_accounts(accounts),
            Event::Connected(outcome) => self.socket_opened(outcome),
            Event::Sent(outcome) => self.sent(outcome),
            Event::Received(receipt) => self.received(receipt),
        }
    }
}

} // verus!
