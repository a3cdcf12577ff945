use console_client::app::{
    App, Event, Output, Receipt, Request, Screen, SendOutcome,
};
use console_client::auth::{ErrorResponse, HttpReply, HttpRequest, JsonBody, Method};
use console_client::chats::ChatEntry;
use console_client::config::{AuthConfig, ChatConfig, Config, SessionConfig, UiConfig};
use console_client::console::{
    print_accounts, print_chat_list, print_connections, print_history, print_profile,
    render_main_menu, title, CHATS_MENU, CHAT_MENU, PROFILE_MENU, REGISTRATION_MENU,
};
use console_client::flow::{chosen_index, send_ws_action};
use console_client::wire::{
    ClientAction, ConnectionInfo, ServerEvent, SessionUserInfo, StoredMessage, UserProfile,
};

fn config() -> Config {
    Config {
        auth: AuthConfig { base_url: "http://auth/".to_string() },
        chat: ChatConfig { ws_url: "ws://chat/ws".to_string(), default_history_limit: 25 },
        session: SessionConfig { default_lifetime_seconds: 600 },
        ui: UiConfig { clear_screen_on_menu: false },
    }
}

fn chat(user_id: &str, label: &str, unread: usize) -> ChatEntry {
    ChatEntry { user_id: user_id.to_string(), label: label.to_string(), unread }
}

fn bob() -> SessionUserInfo {
    SessionUserInfo { uuid: Some("id-bob".to_string()), username: "bob".to_string() }
}

fn profile(username: &str, uuid: Option<&str>) -> UserProfile {
    UserProfile {
        username: username.to_string(),
        first_name: "F".to_string(),
        last_name: "L".to_string(),
        date_of_birth: "D".to_string(),
        additional_info: "A".to_string(),
        uuid: uuid.map(|u| u.to_string()),
    }
}

fn message(sender: &str, receiver: &str, text: Option<&str>) -> StoredMessage {
    StoredMessage {
        uuid: "m".to_string(),
        sender_id: sender.to_string(),
        receiver_id: receiver.to_string(),
        dialog_id: "d".to_string(),
        text: text.map(|t| t.to_string()),
        file_id: None,
        created_at: "noon".to_string(),
        delivered_at: None,
        status: 1,
    }
}

fn arrived(sender: &str, receiver: &str, text: Option<&str>) -> ServerEvent {
    ServerEvent::Message { message: message(sender, receiver, text) }
}

fn joined() -> ServerEvent {
    ServerEvent::Joined {
        user_id: "id-bob".to_string(),
        username: "bob".to_string(),
        connection_number: 7,
    }
}

fn line(text: &str) -> Output {
    Output::Line(text.to_string())
}

fn ok(text: &str) -> Output {
    Output::Line(format!("\x1b[32m[ok]\x1b[0m {text}"))
}

fn err(text: &str) -> Output {
    Output::ErrorLine(format!("\x1b[31m[error]\x1b[0m {text}"))
}

fn heading(text: &str) -> Output {
    Output::Line(title(text))
}

fn save(chats: Vec<ChatEntry>) -> Output {
    Output::SaveChats(chats)
}

fn event_line(color: &str, text: &str) -> Output {
    Output::Line(format!("\n\x1b[{color}m[event]\x1b[0m {text}"))
}

fn ask(label: &str) -> Request {
    Request::Ask(label.to_string())
}

fn typed(text: &str) -> Event {
    Event::Line(Some(format!("{text}\n")))
}

fn body(text: &str) -> HttpReply {
    HttpReply::Received { status: 200, body: text.to_string(), error: None }
}

fn refused(status: u16, error: &str) -> HttpReply {
    HttpReply::Received {
        status,
        body: format!("{{\"error\":\"{error}\"}}"),
        error: Some(ErrorResponse { error: error.to_string() }),
    }
}

fn got(event: ServerEvent) -> Event {
    Event::Received(Receipt::Got(event))
}

fn get(path: &str, query: &[(&str, &str)]) -> HttpRequest {
    HttpRequest {
        method: Method::Get,
        url: format!("http://auth/{path}"),
        query: query.iter().map(|(n, v)| (n.to_string(), v.to_string())).collect(),
        body: JsonBody::Empty,
    }
}

/// A client at its main menu.
fn at_menu(chats: Vec<ChatEntry>) -> App {
    let mut app = App::new(config(), chats);
    app.step(Event::Drained(vec![]));
    app.take_output();
    app
}

/// Types the answers one after the other.
fn answer(app: &mut App, answers: &[&str]) {
    for a in answers {
        app.step(typed(a));
    }
}

/// Logs in and joins the chat service, back to the main menu.
fn logged_in(chats: Vec<ChatEntry>) -> App {
    let mut app = at_menu(chats);
    answer(&mut app, &["2", "email", "b@x.org", "secret"]);
    app.step(Event::Plain(body("tok")));
    app.step(Event::SessionUser(body("{}"), Ok(bob())));
    app.step(Event::Stored(Ok(())));
    app.step(Event::Stored(Ok(())));
    app.step(Event::Plain(body("ok")));
    app.step(Event::Connected(Ok(())));
    app.step(Event::Sent(SendOutcome::Queued));
    app.step(got(joined()));
    back_to_menu(&mut app);
    app
}

fn back_to_menu(app: &mut App) {
    assert_eq!(app.screen, Screen::MainPause);
    app.step(typed(""));
    app.step(Event::Drained(vec![]));
    app.take_output();
    assert_eq!(app.request(), ask("Select option"));
}

/// At the chat list of a client that is logged in.
fn at_chats(chats: Vec<ChatEntry>) -> App {
    let mut app = logged_in(chats);
    app.step(typed("4"));
    app.step(Event::Drained(vec![]));
    app.take_output();
    assert_eq!(app.request(), ask("Chats menu"));
    app
}

/// In the first chat of the list, once its history was shown.
fn in_chat(chats: Vec<ChatEntry>) -> App {
    let user = chats[0].user_id.clone();
    let mut app = at_chats(chats);
    answer(&mut app, &["2", "1"]);
    app.step(Event::Sent(SendOutcome::Queued));
    app.step(got(ServerEvent::History { with_user_id: user, messages: vec![] }));
    app.take_output();
    assert_eq!(app.request(), ask("Chat menu"));
    app
}

#[test]
fn a_client_starts_with_the_main_menu() {
    let mut app = App::new(config(), vec![]);
    assert_eq!(app.take_output(), vec![]);
    assert_eq!(app.request(), Request::Drain);
    app.step(Event::Drained(vec![]));
    assert_eq!(
        app.take_output(),
        vec![line(&render_main_menu("http://auth/", "ws://chat/ws", &None))]
    );
    assert_eq!(app.take_output(), vec![]);
    assert_eq!(app.request(), ask("Select option"));
}

#[test]
fn the_screen_is_cleared_where_that_is_configured() {
    let mut cleared = config();
    cleared.ui.clear_screen_on_menu = true;
    let mut app = App::new(cleared, vec![]);
    app.step(Event::Drained(vec![]));
    assert_eq!(
        app.take_output(),
        vec![
            Output::Print("\x1b[2J\x1b[1;1H".to_string()),
            line(&render_main_menu("http://auth/", "ws://chat/ws", &None)),
        ]
    );
}

#[test]
fn unknown_choices_are_reported() {
    let mut app = at_menu(vec![]);
    app.step(typed("9"));
    assert_eq!(app.take_output(), vec![err("Unknown menu option")]);
    assert_eq!(app.request(), Request::WaitEnter);
    app.step(typed("anything"));
    assert_eq!(app.request(), Request::Drain);
}

#[test]
fn a_line_that_cannot_be_read_is_a_blank_answer() {
    let mut app = at_menu(vec![]);
    app.step(Event::Line(None));
    assert_eq!(app.take_output(), vec![err("Unknown menu option")]);
}

#[test]
fn blanks_around_a_choice_make_no_difference() {
    let mut app = at_menu(vec![]);
    app.step(Event::Line(Some(" \u{2003}1\t\r\n".to_string())));
    assert_eq!(app.request(), ask("Registration mode"));
}

#[test]
fn full_registration_sends_what_was_typed() {
    let mut app = at_menu(vec![]);
    app.step(typed("1"));
    assert_eq!(app.take_output(), vec![heading("Registration"), line(REGISTRATION_MENU)]);
    assert_eq!(
        REGISTRATION_MENU,
        "1) Email + phone\n2) Email only\n3) Phone only\n0) Back"
    );
    assert_eq!(app.request(), ask("Registration mode"));
    app.step(typed("1"));
    assert_eq!(app.request(), ask("username"));
    app.step(typed("bob"));
    assert_eq!(app.request(), ask("password"));
    app.step(typed("secret"));
    assert_eq!(app.request(), ask("email"));
    app.step(typed("b@x.org"));
    assert_eq!(app.request(), ask("phone_number (+79991234567)"));
    app.step(typed("+7999"));
    assert_eq!(
        app.request(),
        Request::Plain(get(
            "adduser",
            &[
                ("username", "bob"),
                ("password", "secret"),
                ("email", "b@x.org"),
                ("phone_number", "+7999"),
            ],
        ))
    );
    app.step(Event::Plain(body(" OK ")));
    assert_eq!(app.take_output(), vec![ok("User registered")]);
    assert_eq!(app.screen, Screen::MainPause);
}

#[test]
fn email_registration_asks_for_no_phone() {
    let mut app = at_menu(vec![]);
    answer(&mut app, &["1", "2", "bob", "secret", "b@x.org"]);
    assert_eq!(
        app.request(),
        Request::Plain(get(
            "adduserwithoutphone",
            &[("username", "bob"), ("password", "secret"), ("email", "b@x.org")],
        ))
    );
}

#[test]
fn phone_registration_asks_for_no_email() {
    let mut app = at_menu(vec![]);
    answer(&mut app, &["1", "3", "bob", "secret", "+7999"]);
    assert_eq!(
        app.request(),
        Request::Plain(app.auth.register_phone_only("bob", "secret", "+7999"))
    );
}

#[test]
fn refused_registrations_are_reported() {
    let mut app = at_menu(vec![]);
    answer(&mut app, &["1", "2", "bob", "secret", "b@x.org"]);
    app.take_output();
    app.step(Event::Plain(refused(409, "name taken")));
    assert_eq!(app.take_output(), vec![err("Register failed: http 409: name taken")]);
    assert_eq!(app.screen, Screen::MainPause);
}

#[test]
fn registration_can_be_left() {
    for choice in ["0", "", "4"] {
        let mut app = at_menu(vec![]);
        answer(&mut app, &["1", choice]);
        assert_eq!(app.screen, Screen::MainPause);
    }
}

#[test]
fn blank_required_answers_are_asked_again() {
    let mut app = at_menu(vec![]);
    answer(&mut app, &["1", "1"]);
    app.take_output();
    for blank in [Some(" \n".to_string()), None] {
        app.step(Event::Line(blank));
        assert_eq!(app.take_output(), vec![err("Value cannot be empty")]);
        assert_eq!(app.request(), ask("username"));
    }
    app.step(typed("bob"));
    assert_eq!(app.take_output(), vec![]);
    assert_eq!(app.request(), ask("password"));
}

#[test]
fn login_goes_through_every_step() {
    let mut app = at_menu(vec![]);
    app.step(typed("2"));
    assert_eq!(app.take_output(), vec![heading("Login")]);
    assert_eq!(app.request(), ask("Mode (email/phone)"));
    app.step(typed("PHONE"));
    assert_eq!(app.request(), ask("phone"));
    app.step(typed("+7999"));
    assert_eq!(app.request(), ask("password"));
    app.step(typed("secret"));
    assert_eq!(
        app.request(),
        Request::Plain(app.auth.login("phone", "+7999", "secret", 600))
    );
    app.step(Event::Plain(body("tok")));
    assert_eq!(app.session_token, None);
    assert_eq!(app.request(), Request::SessionUser(app.auth.session_user_info("tok")));
    app.step(Event::SessionUser(body("{}"), Ok(bob())));
    assert_eq!(app.session_token, Some("tok".to_string()));
    assert_eq!(app.me, Some(bob()));
    assert_eq!(app.current_username, Some("bob".to_string()));
    assert_eq!(
        app.request(),
        Request::SaveSession { username: "bob".to_string(), token: "tok".to_string() }
    );
    app.step(Event::Stored(Ok(())));
    assert_eq!(app.request(), Request::RememberAccount { username: "bob".to_string() });
    app.step(Event::Stored(Ok(())));
    assert_eq!(app.take_output(), vec![ok("Session saved for: bob")]);
    assert_eq!(app.request(), Request::Plain(app.auth.set_online("tok")));
    app.step(Event::Plain(HttpReply::NotSent("down".to_string())));
    assert_eq!(app.take_output(), vec![ok("Login successful: bob (id-bob)")]);
    assert_eq!(app.request(), Request::Connect { url: "ws://chat/ws".to_string() });
    app.step(Event::Connected(Ok(())));
    assert_eq!(
        app.request(),
        Request::Send(ClientAction::Join { session_token: "tok".to_string() })
    );
    app.step(Event::Sent(SendOutcome::Queued));
    assert_eq!(app.take_output(), vec![Output::StartTimer(5)]);
    assert_eq!(app.request(), Request::Receive);
    app.step(got(joined()));
    assert_eq!(
        app.take_output(),
        vec![
            ok("Joined as bob (id-bob) [connection #7]"),
            ok("Connected to chat WebSocket"),
        ]
    );
    assert!(app.connected);
    assert_eq!(app.screen, Screen::MainPause);
}

#[test]
fn any_other_mode_means_email() {
    for mode in ["", "email", "phones", "telephone"] {
        let mut app = at_menu(vec![]);
        answer(&mut app, &["2", mode]);
        assert_eq!(app.request(), ask("email"));
    }
}

#[test]
fn failed_logins_change_nothing() {
    let mut app = at_menu(vec![]);
    answer(&mut app, &["2", "email", "b@x.org", "wrong"]);
    app.take_output();
    app.step(Event::Plain(refused(401, "bad password")));
    assert_eq!(app.take_output(), vec![err("Login failed: http 401: bad password")]);
    assert_eq!((app.session_token.is_none(), app.me.is_none()), (true, true));
    assert_eq!(app.screen, Screen::MainPause);
}

#[test]
fn unresolved_sessions_are_not_opened() {
    let mut app = at_menu(vec![]);
    answer(&mut app, &["2", "email", "b@x.org", "secret"]);
    app.step(Event::Plain(body("tok")));
    app.take_output();
    app.step(Event::SessionUser(body("what"), Err("expected value".to_string())));
    assert_eq!(
        app.take_output(),
        vec![err("Session resolve failed: json parse failed: expected value; body=what")]
    );
    assert_eq!(app.session_token, None);
    assert_eq!(app.current_username, None);
}

#[test]
fn a_login_goes_on_where_its_token_cannot_be_saved() {
    let mut app = at_menu(vec![]);
    answer(&mut app, &["2", "email", "b@x.org", "secret"]);
    app.step(Event::Plain(body("tok")));
    app.step(Event::SessionUser(body("{}"), Ok(bob())));
    app.take_output();
    app.step(Event::Stored(Err("Keyring error: none".to_string())));
    assert_eq!(app.take_output(), vec![err("Failed to save session: Keyring error: none")]);
    assert_eq!(app.request(), Request::Plain(app.auth.set_online("tok")));
}

#[test]
fn a_login_goes_on_where_its_account_cannot_be_noted() {
    let mut app = at_menu(vec![]);
    answer(&mut app, &["2", "email", "b@x.org", "secret"]);
    app.step(Event::Plain(body("tok")));
    app.step(Event::SessionUser(body("{}"), Ok(bob())));
    app.step(Event::Stored(Ok(())));
    app.take_output();
    app.step(Event::Stored(Err("disk full".to_string())));
    assert_eq!(app.take_output(), vec![err("Failed to add to sessions list: disk full")]);
    assert_eq!(app.request(), Request::Plain(app.auth.set_online("tok")));
}

#[test]
fn the_menus_need_a_login() {
    for (choice, expected) in [
        ("3", vec![err("Chat connection failed: Please login first")]),
        ("4", vec![heading("Chats"), err("Please login first")]),
        ("5", vec![heading("Profiles"), err("Please login first")]),
        ("6", vec![err("Please login first")]),
    ] {
        let mut app = at_menu(vec![]);
        app.step(typed(choice));
        assert_eq!(app.take_output(), expected);
        assert_eq!(app.screen, Screen::MainPause);
    }
}

/// A client that has a session but no connection.
fn disconnected() -> App {
    let mut app = at_menu(vec![]);
    answer(&mut app, &["2", "email", "b@x.org", "secret"]);
    app.step(Event::Plain(body("tok")));
    app.step(Event::SessionUser(body("{}"), Ok(bob())));
    app.step(Event::Stored(Ok(())));
    app.step(Event::Stored(Ok(())));
    app.step(Event::Plain(body("ok")));
    app.step(Event::Connected(Err("refused".to_string())));
    back_to_menu(&mut app);
    app
}

#[test]
fn a_socket_that_cannot_be_opened_is_reported() {
    for (choice, before, prefix) in [
        ("3", vec![], "Chat connection failed: "),
        ("4", vec![heading("Chats")], "Cannot open chat menu: "),
        ("6", vec![], "Cannot ping chat: "),
    ] {
        let mut app = disconnected();
        app.step(typed(choice));
        app.step(Event::Connected(Err("refused".to_string())));
        let mut expected = before;
        expected.push(err(&format!("{prefix}ws connect failed: refused")));
        assert_eq!(app.take_output(), expected);
        assert!(!app.connected);
        assert_eq!(app.screen, Screen::MainPause);
    }
}

#[test]
fn a_join_that_fails_drops_the_socket() {
    for (receipt, reason) in [
        (Receipt::DeadlinePassed, "Join timeout"),
        (Receipt::NoSocket, "WebSocket disconnected"),
        (Receipt::Closed, "WebSocket closed"),
        (
            Receipt::Got(ServerEvent::Error { message: "bad token".to_string() }),
            "Join rejected: bad token",
        ),
    ] {
        let mut app = disconnected();
        app.step(typed("3"));
        app.step(Event::Connected(Ok(())));
        app.step(Event::Sent(SendOutcome::Queued));
        assert!(app.connected);
        app.take_output();
        app.step(Event::Received(receipt));
        assert_eq!(
            app.take_output(),
            vec![Output::CloseSocket, err(&format!("Chat connection failed: {reason}"))]
        );
        assert!(!app.connected);
        assert_eq!(app.screen, Screen::MainPause);
    }
}

#[test]
fn a_join_that_cannot_be_sent_drops_the_socket() {
    let mut app = disconnected();
    app.step(typed("3"));
    app.step(Event::Connected(Ok(())));
    app.step(Event::Sent(SendOutcome::ChannelClosed));
    assert_eq!(
        app.take_output(),
        vec![
            Output::CloseSocket,
            err("Chat connection failed: failed to send join action"),
        ]
    );
    assert!(!app.connected);
}

#[test]
fn a_join_waits_while_the_clock_runs() {
    let mut app = disconnected();
    app.step(typed("3"));
    app.step(Event::Connected(Ok(())));
    app.step(Event::Sent(SendOutcome::Queued));
    app.take_output();
    app.step(Event::Received(Receipt::Elapsed));
    app.step(got(ServerEvent::Pong));
    assert_eq!(app.take_output(), vec![event_line("36", "pong")]);
    assert_eq!(app.request(), Request::Receive);
}

#[test]
fn a_second_connection_is_not_made() {
    let mut app = logged_in(vec![]);
    app.step(typed("3"));
    assert_eq!(app.take_output(), vec![ok("Chat socket is already connected")]);
    assert_eq!(app.screen, Screen::MainPause);
}

#[test]
fn a_ping_is_answered() {
    let mut app = logged_in(vec![]);
    app.step(typed("6"));
    assert_eq!(
        app.request(),
        Request::Send(ClientAction::Ping { session_token: "tok".to_string() })
    );
    app.step(Event::Sent(SendOutcome::Queued));
    assert_eq!(app.take_output(), vec![Output::StartTimer(3)]);
    app.step(Event::Received(Receipt::Closed));
    app.step(Event::Received(Receipt::Elapsed));
    assert_eq!(app.request(), Request::Receive);
    app.step(got(ServerEvent::Error { message: "busy".to_string() }));
    app.step(got(ServerEvent::Pong));
    assert_eq!(app.take_output(), vec![err("server error: busy"), ok("Pong received")]);
    assert_eq!(app.screen, Screen::MainPause);
}

#[test]
fn a_ping_connects_first() {
    let mut app = disconnected();
    app.step(typed("6"));
    assert_eq!(app.request(), Request::Connect { url: "ws://chat/ws".to_string() });
    app.step(Event::Connected(Ok(())));
    app.step(Event::Sent(SendOutcome::Queued));
    app.step(got(joined()));
    assert_eq!(
        app.request(),
        Request::Send(ClientAction::Ping { session_token: "tok".to_string() })
    );
}

#[test]
fn pings_fail_in_three_ways() {
    let mut app = logged_in(vec![]);
    app.step(typed("6"));
    app.step(Event::Sent(SendOutcome::ChannelClosed));
    assert_eq!(app.take_output(), vec![err("Ping failed: WebSocket channel closed")]);
    for (receipt, text) in [
        (Receipt::DeadlinePassed, "Ping timeout"),
        (Receipt::NoSocket, "WebSocket not connected"),
    ] {
        let mut app = logged_in(vec![]);
        app.step(typed("6"));
        app.step(Event::Sent(SendOutcome::Queued));
        app.take_output();
        app.step(Event::Received(receipt));
        assert_eq!(app.take_output(), vec![err(text)]);
        assert_eq!(app.screen, Screen::MainPause);
    }
}

#[test]
fn send_failures_have_their_names() {
    assert_eq!(send_ws_action(SendOutcome::Queued), Ok(()));
    assert_eq!(
        send_ws_action(SendOutcome::NotConnected),
        Err("WebSocket is not connected".to_string())
    );
    assert_eq!(
        send_ws_action(SendOutcome::ChannelClosed),
        Err("WebSocket channel closed".to_string())
    );
}

#[test]
fn numbers_pick_list_entries() {
    assert_eq!(chosen_index("1", 3), Some(0));
    assert_eq!(chosen_index("+3", 3), Some(2));
    assert_eq!(chosen_index("0", 3), None);
    assert_eq!(chosen_index("4", 3), None);
    assert_eq!(chosen_index("x", 3), None);
    assert_eq!(chosen_index("", 3), None);
    assert_eq!(chosen_index("1", 0), None);
}

#[test]
fn the_chat_list_is_shown_with_its_menu() {
    let mut app = logged_in(vec![chat("u1", "one", 2)]);
    app.step(typed("4"));
    assert_eq!(app.take_output(), vec![heading("Chats")]);
    assert_eq!(app.request(), Request::Drain);
    app.step(Event::Drained(vec![]));
    assert_eq!(
        app.take_output(),
        vec![line(&print_chat_list(&vec![chat("u1", "one", 2)])), line(CHATS_MENU)]
    );
    assert_eq!(
        CHATS_MENU,
        "\n1) Add chat by username\n2) Open chat\n3) Remove chat\n4) Online connections\n0) Back"
    );
    app.step(typed("0"));
    assert_eq!(app.screen, Screen::MainPause);
}

#[test]
fn the_chat_list_connects_first() {
    let mut app = disconnected();
    app.step(typed("4"));
    app.step(Event::Connected(Ok(())));
    app.step(Event::Sent(SendOutcome::Queued));
    app.step(got(joined()));
    assert_eq!(app.screen, Screen::ChatsDrain);
}

#[test]
fn chats_are_added_by_username() {
    let mut app = at_chats(vec![]);
    app.step(typed("1"));
    assert_eq!(app.request(), ask("target username"));
    app.step(typed("eve"));
    assert_eq!(app.request(), Request::Profile(app.auth.get_user_info("tok", "eve")));
    app.step(Event::Profile(body("{}"), Ok(profile("eve", Some("0123456789")))));
    assert_eq!(app.request(), ask("label (optional)"));
    app.step(typed("Eve"));
    assert_eq!(
        app.take_output(),
        vec![save(vec![chat("0123456789", "Eve", 0)]), ok("Chat with eve (01234567) added")]
    );
    assert_eq!(app.request(), Request::Drain);
}

#[test]
fn chats_without_an_identifier_go_by_name() {
    let mut app = at_chats(vec![]);
    answer(&mut app, &["1", "eve"]);
    app.step(Event::Profile(body("{}"), Ok(profile("Eve", None))));
    app.step(typed(""));
    assert_eq!(
        app.take_output(),
        vec![save(vec![chat("Eve", "user-Eve", 0)]), ok("Chat with eve (Eve) added")]
    );
}

#[test]
fn chats_are_not_added_twice() {
    let mut app = at_chats(vec![chat("u1", "one", 2)]);
    answer(&mut app, &["1", "eve"]);
    app.step(Event::Profile(body("{}"), Ok(profile("eve", Some("u1")))));
    app.step(typed("other"));
    assert_eq!(app.take_output(), vec![ok("Chat with eve (u1) added")]);
    assert_eq!(app.chats, vec![chat("u1", "one", 2)]);
}

#[test]
fn unknown_users_are_reported() {
    let mut app = at_chats(vec![]);
    answer(&mut app, &["1", "eve"]);
    app.step(Event::Profile(refused(404, "no such user"), Err("unused".to_string())));
    assert_eq!(
        app.take_output(),
        vec![err("Failed to resolve username: http 404: no such user")]
    );
    assert_eq!(app.request(), Request::Drain);
}

#[test]
fn wrong_choices_under_the_chat_list_are_reported() {
    let mut app = at_chats(vec![]);
    app.step(typed("2"));
    assert_eq!(app.take_output(), vec![err("Chat list is empty")]);
    assert_eq!(app.screen, Screen::ChatsDrain);
    let mut app = at_chats(vec![]);
    app.step(typed("x"));
    assert_eq!(app.take_output(), vec![err("Unknown option")]);
    for number in ["0", "2", "x", "", "99999999999999999999999"] {
        for choice in ["2", "3"] {
            let mut app = at_chats(vec![chat("u1", "one", 2)]);
            answer(&mut app, &[choice, number]);
            assert_eq!(app.take_output(), vec![err("Invalid index")]);
            assert_eq!(app.chats, vec![chat("u1", "one", 2)]);
            assert_eq!(app.screen, Screen::ChatsDrain);
        }
    }
}

#[test]
fn chats_are_removed_by_number() {
    let mut app = at_chats(vec![chat("u1", "one", 2), chat("u2", "two", 0)]);
    app.step(typed("3"));
    assert_eq!(app.request(), ask("chat index to remove"));
    app.step(typed("1"));
    assert_eq!(
        app.take_output(),
        vec![save(vec![chat("u2", "two", 0)]), ok("Chat removed")]
    );
}

#[test]
fn connections_are_asked_for_and_shown() {
    let mut app = at_chats(vec![]);
    app.step(typed("4"));
    assert_eq!(
        app.request(),
        Request::Send(ClientAction::ListConnections { session_token: "tok".to_string() })
    );
    app.step(Event::Sent(SendOutcome::Queued));
    assert_eq!(app.take_output(), vec![Output::StartTimer(3)]);
    app.step(got(ServerEvent::Pong));
    app.step(Event::Received(Receipt::Closed));
    app.step(Event::Received(Receipt::Elapsed));
    assert_eq!(app.take_output(), vec![event_line("36", "pong")]);
    app.step(got(ServerEvent::Connections { connections: vec![] }));
    assert_eq!(app.take_output(), vec![line(&print_connections(&vec![]))]);
    assert_eq!(app.screen, Screen::ChatsDrain);
}

#[test]
fn missing_connections_are_reported() {
    let mut app = at_chats(vec![]);
    app.step(typed("4"));
    app.step(Event::Sent(SendOutcome::NotConnected));
    assert_eq!(
        app.take_output(),
        vec![err("Failed to request list_connections: WebSocket is not connected")]
    );
    assert_eq!(app.screen, Screen::ChatsDrain);
    for (receipt, text) in [
        (Receipt::DeadlinePassed, "No connections response from server"),
        (Receipt::NoSocket, "WebSocket not connected"),
    ] {
        let mut app = at_chats(vec![]);
        app.step(typed("4"));
        app.step(Event::Sent(SendOutcome::Queued));
        app.take_output();
        app.step(Event::Received(receipt));
        assert_eq!(app.take_output(), vec![err(text)]);
        assert_eq!(app.screen, Screen::ChatsDrain);
    }
}

#[test]
fn opening_a_chat_reads_it_and_asks_for_its_history() {
    let mut app = at_chats(vec![chat("u1", "one", 2), chat("u2", "two", 5)]);
    app.step(typed("2"));
    assert_eq!(app.request(), ask("chat index"));
    app.step(typed("2"));
    assert_eq!(
        app.take_output(),
        vec![
            save(vec![chat("u1", "one", 2), chat("u2", "two", 0)]),
            heading("Chat with two [u2]"),
        ]
    );
    assert_eq!(
        app.request(),
        Request::Send(ClientAction::History {
            session_token: "tok".to_string(),
            with_user_id: "u2".to_string(),
            limit: Some(25),
        })
    );
    app.step(Event::Sent(SendOutcome::Queued));
    assert_eq!(app.take_output(), vec![Output::StartTimer(4)]);
    assert_eq!(app.request(), Request::Receive);
    app.step(Event::Received(Receipt::Closed));
    app.step(Event::Received(Receipt::Elapsed));
    app.step(got(ServerEvent::History { with_user_id: "u1".to_string(), messages: vec![] }));
    assert_eq!(app.take_output(), vec![]);
    assert_eq!(app.request(), Request::Receive);
    let messages = vec![message("id-bob", "u2", Some("hi"))];
    app.step(got(ServerEvent::History { with_user_id: "u2".to_string(), messages }));
    let shown = print_history(
        "u2",
        &vec![message("id-bob", "u2", Some("hi"))],
        &Some("id-bob".to_string()),
    );
    assert!(shown.contains("] out id-bob -> u2 | delivered | hi"));
    assert_eq!(app.take_output(), vec![line(&shown), line(CHAT_MENU)]);
    assert_eq!(
        CHAT_MENU,
        "\n1) Send message\n2) Refresh history\n3) Mark as read\n4) Rename chat label\n0) Back"
    );
    assert_eq!(app.request(), ask("Chat menu"));
}

#[test]
fn missing_histories_are_reported() {
    let mut app = at_chats(vec![chat("u1", "one", 0)]);
    answer(&mut app, &["2", "1"]);
    app.take_output();
    app.step(Event::Sent(SendOutcome::NotConnected));
    assert_eq!(
        app.take_output(),
        vec![err("History request failed: WebSocket is not connected"), line(CHAT_MENU)]
    );
    assert_eq!(app.request(), ask("Chat menu"));
    for (receipt, text) in [
        (Receipt::DeadlinePassed, "No history response from server (timeout)"),
        (Receipt::NoSocket, "WebSocket not connected"),
    ] {
        let mut app = at_chats(vec![chat("u1", "one", 0)]);
        answer(&mut app, &["2", "1"]);
        app.step(Event::Sent(SendOutcome::Queued));
        app.take_output();
        app.step(Event::Received(receipt));
        assert_eq!(app.take_output(), vec![err(text), line(CHAT_MENU)]);
        assert_eq!(app.request(), ask("Chat menu"));
    }
}

#[test]
fn messages_are_sent_as_typed() {
    let mut app = in_chat(vec![chat("u1", "one", 0)]);
    app.step(typed("1"));
    assert_eq!(app.request(), ask("message text"));
    app.step(typed("  hello there "));
    assert_eq!(
        app.request(),
        Request::Send(ClientAction::SendMessage {
            session_token: "tok".to_string(),
            receiver_id: "u1".to_string(),
            text: Some("hello there".to_string()),
            file_id: None,
        })
    );
    app.step(Event::Sent(SendOutcome::Queued));
    assert_eq!(app.take_output(), vec![ok("Message sent")]);
    assert_eq!(app.request(), Request::WaitEnter);
    app.step(typed(""));
    assert_eq!(app.take_output(), vec![heading("Chat with one [u1]")]);
    assert!(matches!(app.request(), Request::Send(ClientAction::History { .. })));
}

#[test]
fn reading_is_told_to_the_service() {
    let mut app = in_chat(vec![chat("u1", "one", 0)]);
    app.step(typed("3"));
    assert_eq!(
        app.request(),
        Request::Send(ClientAction::MarkRead {
            session_token: "tok".to_string(),
            with_user_id: "u1".to_string(),
        })
    );
    app.step(Event::Sent(SendOutcome::Queued));
    assert_eq!(app.take_output(), vec![ok("mark_read sent")]);
    assert_eq!(app.request(), Request::WaitEnter);
}

#[test]
fn messages_that_cannot_be_sent_are_reported() {
    let mut app = in_chat(vec![chat("u1", "one", 0)]);
    answer(&mut app, &["1", "hello"]);
    app.step(Event::Sent(SendOutcome::ChannelClosed));
    assert_eq!(app.take_output(), vec![err("Send failed: WebSocket channel closed")]);
    let mut app = in_chat(vec![chat("u1", "one", 0)]);
    app.step(typed("3"));
    app.step(Event::Sent(SendOutcome::NotConnected));
    assert_eq!(app.take_output(), vec![err("Mark read failed: WebSocket is not connected")]);
}

#[test]
fn labels_are_kept_as_typed() {
    let mut app = in_chat(vec![chat("u1", "one", 0), chat("u2", "two", 3)]);
    app.step(typed("4"));
    assert_eq!(app.request(), ask("new label"));
    app.step(typed("uno"));
    assert_eq!(
        app.take_output(),
        vec![save(vec![chat("u1", "uno", 0), chat("u2", "two", 3)])]
    );
    assert_eq!(app.request(), Request::WaitEnter);
    app.step(typed(""));
    assert_eq!(app.take_output(), vec![heading("Chat with one [u1]")]);
}

#[test]
fn the_other_choices_of_a_chat() {
    let mut app = in_chat(vec![chat("u1", "one", 0)]);
    app.step(typed("2"));
    assert_eq!(app.take_output(), vec![]);
    assert_eq!(app.request(), Request::WaitEnter);
    let mut app = in_chat(vec![chat("u1", "one", 0)]);
    app.step(typed("5"));
    assert_eq!(app.take_output(), vec![err("Unknown option")]);
    assert_eq!(app.request(), Request::WaitEnter);
    let mut app = in_chat(vec![chat("u1", "one", 0)]);
    app.step(typed("0"));
    assert_eq!(app.screen, Screen::ChatsDrain);
}

#[test]
fn messages_of_others_are_counted_and_stored() {
    let mut app = logged_in(vec![chat("u1", "one", 1)]);
    app.handle_server_event(&arrived("u1", "id-bob", Some("hi")));
    assert_eq!(
        app.take_output(),
        vec![save(vec![chat("u1", "one", 2)]), event_line("33", "new message: hi")]
    );
    app.handle_server_event(&arrived("u2-long-name", "id-bob", None));
    assert_eq!(
        app.take_output(),
        vec![
            save(vec![chat("u1", "one", 2), chat("u2-long-name", "user-u2-long-", 0)]),
            save(vec![chat("u1", "one", 2), chat("u2-long-name", "user-u2-long-", 1)]),
            event_line("33", "new message: <file>"),
        ]
    );
}

#[test]
fn own_messages_are_not_counted() {
    let mut app = logged_in(vec![chat("u1", "one", 1)]);
    app.handle_server_event(&arrived("id-bob", "u1", Some("hi")));
    assert_eq!(app.take_output(), vec![event_line("33", "new message: hi")]);
    app.handle_server_event(&arrived("id-bob", "u2", Some("hi")));
    assert_eq!(
        app.take_output(),
        vec![
            save(vec![chat("u1", "one", 1), chat("u2", "user-u2", 0)]),
            event_line("33", "new message: hi"),
        ]
    );
}

#[test]
fn confirmations_clear_the_count() {
    let mut app = logged_in(vec![chat("u1", "one", 4)]);
    app.handle_server_event(&ServerEvent::MarkReadResult {
        with_user_id: "u1".to_string(),
        updated: 4,
    });
    assert_eq!(
        app.take_output(),
        vec![
            event_line("36", "mark_read for u1 updated 4 messages"),
            save(vec![chat("u1", "one", 0)]),
        ]
    );
    app.handle_server_event(&ServerEvent::MarkReadResult {
        with_user_id: "u2".to_string(),
        updated: 0,
    });
    assert_eq!(
        app.take_output(),
        vec![event_line("36", "mark_read for u2 updated 0 messages")]
    );
}

#[test]
fn the_other_events_are_shown() {
    let mut app = logged_in(vec![]);
    app.handle_server_event(&ServerEvent::ReadReceipt {
        by_user_id: "u1".to_string(),
        updated: 12,
    });
    app.handle_server_event(&ServerEvent::Connections {
        connections: vec![ConnectionInfo {
            number: 1,
            uuid: None,
            username: "bob".to_string(),
        }],
    });
    app.handle_server_event(&ServerEvent::Pong);
    app.handle_server_event(&ServerEvent::Error { message: "oops".to_string() });
    app.handle_server_event(&joined());
    app.handle_server_event(&ServerEvent::History {
        with_user_id: "u1".to_string(),
        messages: vec![],
    });
    assert_eq!(
        app.take_output(),
        vec![
            event_line("36", "read_receipt by u1 for 12 messages"),
            event_line("36", "1 online connection(s)"),
            event_line("36", "pong"),
            err("server error: oops"),
        ]
    );
}

#[test]
fn waiting_events_are_handled_before_a_menu() {
    let mut app = logged_in(vec![]);
    app.step(typed("9"));
    app.step(typed(""));
    app.take_output();
    app.step(Event::Drained(vec![
        arrived("u1", "id-bob", Some("a")),
        arrived("u1", "id-bob", Some("b")),
        ServerEvent::Pong,
    ]));
    assert_eq!(
        app.take_output(),
        vec![
            save(vec![chat("u1", "user-u1", 0)]),
            save(vec![chat("u1", "user-u1", 1)]),
            event_line("33", "new message: a"),
            save(vec![chat("u1", "user-u1", 2)]),
            event_line("33", "new message: b"),
            event_line("36", "pong"),
            line(&render_main_menu("http://auth/", "ws://chat/ws", &Some(bob()))),
        ]
    );
}

#[test]
fn profiles_are_shown() {
    let mut app = logged_in(vec![]);
    app.step(typed("5"));
    assert_eq!(app.take_output(), vec![heading("Profiles"), line(PROFILE_MENU)]);
    assert_eq!(
        PROFILE_MENU,
        "1) My profile\n2) Find profile by username\n3) Change first name\n4) Change last name\n5) Change date of birth\n6) Change additional info\n7) Change username\n0) Back"
    );
    assert_eq!(app.request(), ask("Profiles menu"));
    app.step(typed("1"));
    assert_eq!(app.request(), Request::Profile(app.auth.get_user_info("tok", "bob")));
    app.step(Event::Profile(body("{}"), Ok(profile("bob", None))));
    assert_eq!(app.take_output(), vec![line(&print_profile(&profile("bob", None)))]);
    assert_eq!(app.request(), Request::WaitEnter);
    app.step(typed(""));
    assert_eq!(app.take_output(), vec![heading("Profiles"), line(PROFILE_MENU)]);
    answer(&mut app, &["2"]);
    assert_eq!(app.request(), ask("username"));
    answer(&mut app, &["eve"]);
    assert_eq!(app.request(), Request::Profile(app.auth.get_user_info("tok", "eve")));
    app.step(Event::Profile(body("?"), Err("bad".to_string())));
    assert_eq!(
        app.take_output(),
        vec![err("Failed to load profile: json parse failed: bad; body=?")]
    );
    assert_eq!(app.request(), Request::WaitEnter);
}

#[test]
fn profile_fields_are_changed_one_by_one() {
    for (choice, label) in [
        ("3", "new first name"),
        ("4", "new last name"),
        ("5", "new date of birth"),
        ("6", "new additional info"),
        ("7", "new username"),
    ] {
        let mut app = logged_in(vec![]);
        answer(&mut app, &["5", choice]);
        assert_eq!(app.request(), ask(label));
        app.step(typed(" new value "));
        let expected = match choice {
            "3" => app.auth.change_first_name("tok", "new value"),
            "4" => app.auth.change_last_name("tok", "new value"),
            "5" => app.auth.change_birth_date("tok", "new value"),
            "6" => app.auth.change_additional_info("tok", "new value"),
            _ => app.auth.change_username("tok", "new value"),
        };
        assert_eq!(app.request(), Request::Plain(expected));
        app.take_output();
        app.step(Event::Plain(body("ok")));
        assert_eq!(app.take_output(), vec![ok("Profile updated")]);
        let name = if choice == "7" { "new value" } else { "bob" };
        assert_eq!(app.me.as_ref().unwrap().username, name);
        assert_eq!(app.current_username, Some("bob".to_string()));
        assert_eq!(app.request(), Request::WaitEnter);
    }
}

#[test]
fn refused_changes_are_reported() {
    let mut app = logged_in(vec![]);
    answer(&mut app, &["5", "7", "eve"]);
    app.take_output();
    app.step(Event::Plain(body("taken")));
    assert_eq!(
        app.take_output(),
        vec![err("Update failed: unexpected response body: taken")]
    );
    assert_eq!(app.me, Some(bob()));
}

#[test]
fn the_other_choices_of_the_profile_menu() {
    let mut app = logged_in(vec![]);
    answer(&mut app, &["5"]);
    app.take_output();
    answer(&mut app, &["9"]);
    assert_eq!(app.take_output(), vec![err("Unknown option")]);
    assert_eq!(app.request(), Request::WaitEnter);
    let mut app = logged_in(vec![]);
    answer(&mut app, &["5", "0"]);
    assert_eq!(app.screen, Screen::MainPause);
}

#[test]
fn logout_forgets_the_account() {
    let mut app = logged_in(vec![chat("u1", "one", 1)]);
    app.step(typed("7"));
    assert_eq!(app.request(), Request::Plain(app.auth.set_offline("tok")));
    app.step(Event::Plain(HttpReply::NotSent("down".to_string())));
    assert_eq!(app.request(), Request::DeleteSession { username: "bob".to_string() });
    app.step(Event::Stored(Ok(())));
    assert_eq!(app.request(), Request::ForgetAccount { username: "bob".to_string() });
    app.step(Event::Stored(Ok(())));
    assert_eq!(app.take_output(), vec![Output::CloseSocket, ok("Logged out")]);
    assert_eq!(app.session_token, None);
    assert_eq!(app.me, None);
    assert_eq!(app.current_username, None);
    assert!(!app.connected);
    assert_eq!(app.chats, vec![chat("u1", "one", 1)]);
    assert_eq!(app.screen, Screen::MainPause);
}

#[test]
fn logout_succeeds_whatever_fails() {
    let mut app = logged_in(vec![]);
    app.step(typed("7"));
    app.step(Event::Plain(refused(500, "down")));
    app.step(Event::Stored(Err("locked".to_string())));
    app.step(Event::Stored(Err("disk full".to_string())));
    assert_eq!(
        app.take_output(),
        vec![
            err("Failed to delete session: locked"),
            err("Failed to remove from sessions list: disk full"),
            Output::CloseSocket,
            ok("Logged out"),
        ]
    );
    assert_eq!(app.session_token, None);
}

#[test]
fn logout_without_a_session_only_says_so() {
    let mut app = at_menu(vec![]);
    app.step(typed("7"));
    assert_eq!(app.take_output(), vec![Output::CloseSocket, ok("Logged out")]);
    assert_eq!(app.screen, Screen::MainPause);
}

#[test]
fn accounts_are_switched() {
    let accounts = || vec!["bob".to_string(), "eve".to_string()];
    let mut app = at_menu(vec![]);
    app.step(typed("8"));
    assert_eq!(app.take_output(), vec![heading("Switch Account")]);
    assert_eq!(app.request(), Request::LoadAccounts);
    app.step(Event::Accounts(accounts()));
    assert_eq!(app.take_output(), vec![line(&print_accounts(&accounts()))]);
    assert_eq!(app.request(), ask("Select account"));
    app.step(typed("2"));
    assert_eq!(app.request(), Request::LoadSession { username: "eve".to_string() });
    app.step(Event::Token(Some("tok-eve".to_string())));
    assert_eq!(app.request(), Request::SessionUser(app.auth.session_user_info("tok-eve")));
    let renamed = || SessionUserInfo { uuid: None, username: "eva".to_string() };
    app.step(Event::SessionUser(body("{}"), Ok(renamed())));
    assert_eq!(app.session_token, Some("tok-eve".to_string()));
    assert_eq!(app.me, Some(renamed()));
    assert_eq!(app.current_username, Some("eve".to_string()));
    assert_eq!(app.request(), Request::Plain(app.auth.set_online("tok-eve")));
    app.step(Event::Plain(body("ok")));
    assert_eq!(app.take_output(), vec![ok("Switched to account: eva (n/a)")]);
    assert_eq!(app.request(), Request::Connect { url: "ws://chat/ws".to_string() });
}

#[test]
fn switching_fails_in_five_ways() {
    let accounts = || Event::Accounts(vec!["bob".to_string(), "eve".to_string()]);
    let mut app = at_menu(vec![]);
    app.step(typed("8"));
    app.take_output();
    app.step(Event::Accounts(vec![]));
    assert_eq!(app.take_output(), vec![err("No saved sessions found")]);
    assert_eq!(app.screen, Screen::MainPause);
    for (choice, text) in [
        ("3", "Invalid selection"),
        ("00", "Invalid selection"),
        ("x", "Invalid input"),
        ("", "Invalid input"),
        ("99999999999999999999999", "Invalid input"),
    ] {
        let mut app = at_menu(vec![]);
        app.step(typed("8"));
        app.step(accounts());
        app.take_output();
        app.step(typed(choice));
        assert_eq!(app.take_output(), vec![err(text)]);
        assert_eq!(app.screen, Screen::MainPause);
    }
    let mut app = at_menu(vec![]);
    app.step(typed("8"));
    app.step(accounts());
    app.step(typed("1"));
    app.take_output();
    app.step(Event::Token(None));
    assert_eq!(app.take_output(), vec![err("Session not found for user: bob")]);
    let mut app = logged_in(vec![]);
    app.step(typed("8"));
    app.step(accounts());
    app.step(typed("2"));
    app.step(Event::Token(Some("old".to_string())));
    app.take_output();
    app.step(Event::SessionUser(refused(401, "expired"), Err("unused".to_string())));
    assert_eq!(
        app.take_output(),
        vec![err("Failed to validate saved session: http 401: expired")]
    );
    assert_eq!(app.session_token, Some("tok".to_string()));
    assert_eq!(app.me, Some(bob()));
}

#[test]
fn switching_can_be_left() {
    let mut app = at_menu(vec![]);
    app.step(typed("8"));
    app.step(Event::Accounts(vec!["bob".to_string()]));
    app.take_output();
    app.step(typed("0"));
    assert_eq!(app.take_output(), vec![]);
    assert_eq!(app.screen, Screen::MainPause);
}

#[test]
fn a_switch_replaces_the_socket_that_is_there() {
    let mut app = logged_in(vec![]);
    app.step(typed("8"));
    app.step(Event::Accounts(vec!["bob".to_string()]));
    app.step(typed("1"));
    app.step(Event::Token(Some("tok2".to_string())));
    app.step(Event::SessionUser(body("{}"), Ok(bob())));
    app.take_output();
    app.step(Event::Plain(body("ok")));
    assert_eq!(
        app.take_output(),
        vec![
            ok("Switched to account: bob (id-bob)"),
            Output::CloseSocket,
        ]
    );
    assert!(!app.connected);
    assert_eq!(app.request(), Request::Connect { url: "ws://chat/ws".to_string() });
    app.step(Event::Connected(Ok(())));
    assert_eq!(
        app.request(),
        Request::Send(ClientAction::Join { session_token: "tok2".to_string() })
    );
    app.step(Event::Sent(SendOutcome::Queued));
    app.step(got(joined()));
    assert!(app.connected);
    assert_eq!(app.session_token, Some("tok2".to_string()));
    assert_eq!(app.screen, Screen::MainPause);
}

#[test]
fn a_switch_whose_connection_fails_leaves_no_socket() {
    let mut app = logged_in(vec![]);
    app.step(typed("8"));
    app.step(Event::Accounts(vec!["bob".to_string()]));
    app.step(typed("1"));
    app.step(Event::Token(Some("tok2".to_string())));
    app.step(Event::SessionUser(body("{}"), Ok(bob())));
    app.step(Event::Plain(refused(500, "down")));
    app.take_output();
    app.step(Event::Connected(Err("refused".to_string())));
    assert_eq!(
        app.take_output(),
        vec![err("Chat connection failed: ws connect failed: refused")]
    );
    assert!(!app.connected);
    assert_eq!(app.session_token, Some("tok2".to_string()));
}

#[test]
fn a_login_keeps_the_socket_that_is_there() {
    let mut app = logged_in(vec![]);
    answer(&mut app, &["2", "email", "b@x.org", "secret"]);
    app.step(Event::Plain(body("tok2")));
    app.step(Event::SessionUser(body("{}"), Ok(bob())));
    app.step(Event::Stored(Ok(())));
    app.step(Event::Stored(Ok(())));
    app.take_output();
    app.step(Event::Plain(body("ok")));
    assert_eq!(
        app.take_output(),
        vec![
            ok("Login successful: bob (id-bob)"),
            ok("Chat socket is already connected"),
        ]
    );
    assert!(app.connected);
}

#[test]
fn a_second_logout_changes_only_what_is_shown() {
    let mut app = logged_in(vec![chat("u1", "one", 1)]);
    app.step(typed("7"));
    app.step(Event::Plain(body("ok")));
    app.step(Event::Stored(Ok(())));
    app.step(Event::Stored(Ok(())));
    back_to_menu(&mut app);
    app.step(typed("7"));
    assert_eq!(app.take_output(), vec![Output::CloseSocket, ok("Logged out")]);
    let mut expected = at_menu(vec![chat("u1", "one", 1)]);
    expected.step(typed("9"));
    expected.take_output();
    assert_eq!(app, expected);
}

#[test]
fn the_end_tells_the_service() {
    let mut app = logged_in(vec![]);
    app.step(typed("0"));
    assert_eq!(app.request(), Request::Plain(app.auth.set_offline("tok")));
    app.step(Event::Plain(refused(500, "down")));
    assert_eq!(app.take_output(), vec![line("\x1b[32mBye.\x1b[0m")]);
    assert_eq!(app.request(), Request::Exit);
}

#[test]
fn the_end_is_final() {
    let mut app = at_menu(vec![]);
    app.step(typed("0"));
    assert_eq!(app.take_output(), vec![line("\x1b[32mBye.\x1b[0m")]);
    assert_eq!(app.request(), Request::Exit);
    app.step(typed("1"));
    app.step(Event::Drained(vec![ServerEvent::Pong]));
    assert_eq!(app.take_output(), vec![]);
    assert_eq!(app.request(), Request::Exit);
}

#[test]
fn unasked_events_change_nothing() {
    let mut app = at_menu(vec![]);
    let same = at_menu(vec![]);
    app.step(Event::Plain(body("ok")));
    app.step(Event::SessionUser(body("{}"), Ok(bob())));
    app.step(Event::Profile(body("{}"), Ok(profile("bob", None))));
    app.step(Event::Stored(Ok(())));
    app.step(Event::Token(Some("tok".to_string())));
    app.step(Event::Accounts(vec!["bob".to_string()]));
    app.step(Event::Connected(Ok(())));
    app.step(Event::Sent(SendOutcome::Queued));
    app.step(got(ServerEvent::Pong));
    app.step(Event::Drained(vec![ServerEvent::Pong]));
    assert_eq!(app, same);
}

#[test]
fn an_open_chat_stays_in_its_place() {
    let mut app = in_chat(vec![chat("u1", "one", 0)]);
    answer(&mut app, &["2", ""]);
    app.step(Event::Sent(SendOutcome::Queued));
    app.take_output();
    app.step(got(arrived("u2", "id-bob", Some("hi"))));
    app.step(got(arrived("u1", "id-bob", Some("ho"))));
    assert_eq!(app.chats, vec![chat("u1", "one", 1), chat("u2", "user-u2", 1)]);
    app.step(got(ServerEvent::History { with_user_id: "u1".to_string(), messages: vec![] }));
    app.step(typed("4"));
    app.step(typed("uno"));
    assert_eq!(app.chats, vec![chat("u1", "uno", 1), chat("u2", "user-u2", 1)]);
}

#[test]
fn the_last_stored_list_is_the_one_that_is_shown() {
    let mut app = at_chats(vec![chat("u1", "one", 3)]);
    let mut stored = vec![chat("u1", "one", 3)];
    let mut outputs = vec![];
    app.step(typed("9"));
    app.step(Event::Drained(vec![arrived("u2", "id-bob", Some("hi"))]));
    outputs.append(&mut app.take_output());
    answer(&mut app, &["3", "1"]);
    outputs.append(&mut app.take_output());
    for output in outputs {
        if let Output::SaveChats(chats) = output {
            stored = chats;
        }
    }
    assert_eq!(stored, vec![chat("u2", "user-u2", 1)]);
    assert_eq!(stored, app.chats);
}

#[test]
fn events_leave_the_session_alone() {
    let mut app = logged_in(vec![]);
    app.handle_server_event(&arrived("u1", "id-bob", Some("hi")));
    app.handle_server_event(&ServerEvent::Error { message: "oops".to_string() });
    app.take_output();
    let mut expected = logged_in(vec![]);
    expected.chats = vec![chat("u1", "user-u1", 1)];
    assert_eq!(app, expected);
}
