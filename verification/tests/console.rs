use console_client::chats::ChatEntry;
use console_client::console::{
    banner, clear_screen, print_accounts, print_chat_list, print_connections, print_error,
    print_history, print_ok, print_profile, prompt, prompt_required, prompt_text,
    render_main_menu, title, user_tag, wait_enter,
};
use console_client::wire::{ConnectionInfo, SessionUserInfo, StoredMessage, UserProfile};

fn message(sender: &str, receiver: &str, text: Option<&str>, status: i64) -> StoredMessage {
    StoredMessage {
        uuid: "m".to_string(),
        sender_id: sender.to_string(),
        receiver_id: receiver.to_string(),
        dialog_id: "d".to_string(),
        text: text.map(|t| t.to_string()),
        file_id: None,
        created_at: "noon".to_string(),
        delivered_at: None,
        status,
    }
}

fn chat(user_id: &str, label: &str, unread: usize) -> ChatEntry {
    ChatEntry { user_id: user_id.to_string(), label: label.to_string(), unread }
}

#[test]
fn reports_have_their_colors() {
    assert_eq!(title("Chats"), "\n\x1b[34m\x1b[1m== Chats ==\x1b[0m");
    assert_eq!(print_ok("done"), "\x1b[32m[ok]\x1b[0m done");
    assert_eq!(print_error("broken"), "\x1b[31m[error]\x1b[0m broken");
    assert_eq!(prompt_text("username"), "\x1b[36musername\x1b[0m: ");
    assert_eq!(wait_enter(), "\n\x1b[2mPress ENTER to continue...\x1b[0m");
    assert_eq!(clear_screen(), "\x1b[2J\x1b[1;1H");
}

#[test]
fn answers_lose_the_blanks_around_them() {
    assert_eq!(prompt(&Some("  two words \r\n".to_string())), "two words");
    assert_eq!(prompt(&Some("\u{a0}\u{3000}x\u{85}\u{2029}".to_string())), "x");
    assert_eq!(prompt(&Some("\u{200b}x".to_string())), "\u{200b}x");
    assert_eq!(prompt(&Some("\n".to_string())), "");
    assert_eq!(prompt(&None), "");
}

#[test]
fn exactly_the_white_space_is_blank() {
    let blank: Vec<u32> = ('\0'..=char::MAX)
        .filter(|c| prompt(&Some(c.to_string())).is_empty())
        .map(u32::from)
        .collect();
    let mut expected: Vec<u32> = (0x09..=0x0d).collect();
    expected.extend([0x20, 0x85, 0xa0, 0x1680]);
    expected.extend(0x2000..=0x200a);
    expected.extend([0x2028, 0x2029, 0x202f, 0x205f, 0x3000]);
    assert_eq!(blank, expected);
}

#[test]
fn trimming_a_second_time_changes_nothing() {
    let once = prompt(&Some("\t a b \n".to_string()));
    assert_eq!(once, "a b");
    assert_eq!(prompt(&Some(once.clone())), once);
}

#[test]
fn required_answers_cannot_be_empty() {
    assert_eq!(prompt_required("x".to_string()), Ok("x".to_string()));
    assert_eq!(
        prompt_required(String::new()),
        Err("\x1b[31m[error]\x1b[0m Value cannot be empty".to_string())
    );
}

#[test]
fn the_banner_has_ten_lines() {
    let banner = banner();
    let lines: Vec<&str> = banner.split('\n').collect();
    assert_eq!(lines.len(), 10);
    assert_eq!(lines[0], "\x1b[34m\x1b[1m");
    assert_eq!(lines[1], "  __  __                                      ");
    assert_eq!(lines[2], " |  \\/  | ___  ___ ___  ___ _ __   __ _  ___ ");
    assert_eq!(lines[3], " | |\\/| |/ _ \\/ __/ __|/ _ \\ '_ \\ / _` |/ _ \\");
    assert_eq!(lines[4], " | |  | |  __/\\__ \\__ \\  __/ | | | (_| |  __/");
    assert_eq!(lines[5], " |_|  |_|\\___||___/___/\\___|_| |_|\\__, |\\___|");
    assert_eq!(lines[6], "                                     |___/      ");
    assert_eq!(lines[7], "\x1b[0m\x1b[2m");
    assert_eq!(lines[8], "  interactive console client for auth + chat");
    assert_eq!(lines[9], "\x1b[0m");
}

#[test]
fn the_main_menu_shows_the_services_and_the_session() {
    let menu = render_main_menu("http://a", "ws://c", &None);
    let rest = menu.strip_prefix(&banner()).unwrap();
    let lines: Vec<&str> = rest.split('\n').collect();
    assert_eq!(lines.len(), 13);
    assert_eq!(lines[0], "");
    assert_eq!(
        lines[1],
        "\x1b[1mMain menu\x1b[0m  \x1b[2mauth:\x1b[0m http://a  \x1b[2mws:\x1b[0m ws://c"
    );
    assert_eq!(lines[2], "\x1b[33mSession:\x1b[0m not authorized");
    assert_eq!(lines[3], format!("\x1b[2m{}\x1b[0m", "-".repeat(60)));
    assert_eq!(lines[4], "\x1b[34m1\x1b[0m Register");
    assert_eq!(lines[5], "\x1b[34m2\x1b[0m Login");
    assert_eq!(lines[6], "\x1b[34m3\x1b[0m Connect chat socket");
    assert_eq!(lines[7], "\x1b[34m4\x1b[0m Chats and history");
    assert_eq!(lines[8], "\x1b[34m5\x1b[0m Profiles");
    assert_eq!(lines[9], "\x1b[34m6\x1b[0m Ping chat socket");
    assert_eq!(lines[10], "\x1b[34m7\x1b[0m Logout");
    assert_eq!(lines[11], "\x1b[34m8\x1b[0m Switch account");
    assert_eq!(lines[12], "\x1b[34m0\x1b[0m Exit");
}

#[test]
fn the_session_names_its_user() {
    let me = SessionUserInfo { uuid: Some("u1".to_string()), username: "bob".to_string() };
    assert_eq!(user_tag(&me), "bob (u1)");
    assert!(render_main_menu("a", "c", &Some(me))
        .contains("\n\x1b[36mSession:\x1b[0m user=bob (u1)\n"));
    let unknown = SessionUserInfo { uuid: None, username: "bob".to_string() };
    assert_eq!(user_tag(&unknown), "bob (n/a)");
    assert!(render_main_menu("a", "c", &Some(unknown))
        .contains("\n\x1b[36mSession:\x1b[0m user=bob (n/a)\n"));
}

#[test]
fn an_empty_chat_list_says_so() {
    assert_eq!(
        print_chat_list(&vec![]),
        "\n\x1b[1mSaved chats:\x1b[0m\n  \x1b[2m(empty)\x1b[0m"
    );
}

#[test]
fn chats_are_numbered_and_unread_ones_marked() {
    assert_eq!(
        print_chat_list(&vec![chat("u1", "one", 0), chat("u2", "two", 12)]),
        "\n\x1b[1mSaved chats:\x1b[0m\n   1. one (u1)\n   2. two (u2) [unread=12]"
    );
    let many: Vec<ChatEntry> = (0..10).map(|_| chat("u", "l", 0)).collect();
    assert!(print_chat_list(&many).ends_with("\n   9. l (u)\n  10. l (u)"));
}

#[test]
fn a_profile_is_shown_field_by_field() {
    let profile = UserProfile {
        username: "bob".to_string(),
        first_name: "Bob".to_string(),
        last_name: "Dow".to_string(),
        date_of_birth: "1990-01-02".to_string(),
        additional_info: "none".to_string(),
        uuid: None,
    };
    assert_eq!(
        print_profile(&profile),
        "\n\x1b[1mProfile:\x1b[0m\n  uuid           : n/a\n  username       : bob\n  first_name     : Bob\n  last_name      : Dow\n  date_of_birth  : 1990-01-02\n  additional_info: none"
    );
}

#[test]
fn an_empty_history_says_so() {
    assert_eq!(
        print_history("u2", &vec![], &None),
        format!(
            "\n\x1b[1mHistory\x1b[0m with u2 (0 messages)\n\x1b[2m{}\x1b[0m\n\x1b[2mNo messages yet.\x1b[0m",
            "-".repeat(60)
        )
    );
}

#[test]
fn a_history_shows_direction_and_status() {
    let messages = vec![
        message("u1", "u2", Some("hi"), 0),
        message("u2", "u1", None, 1),
        message("u1", "u2", Some("x"), 2),
        message("u1", "u2", Some("y"), 3),
        message("u1", "u2", Some("z"), -1),
    ];
    let shown = print_history("u2", &messages, &Some("u1".to_string()));
    let lines: Vec<&str> = shown.split('\n').collect();
    assert_eq!(lines.len(), 8);
    assert_eq!(lines[1], "\x1b[1mHistory\x1b[0m with u2 (5 messages)");
    assert_eq!(lines[3], "[noon] out u1 -> u2 | pending | hi");
    assert_eq!(lines[4], "[noon] in  u2 -> u1 | delivered | <empty>");
    assert_eq!(lines[5], "[noon] out u1 -> u2 | read | x");
    assert_eq!(lines[6], "[noon] out u1 -> u2 | unknown | y");
    assert_eq!(lines[7], "[noon] out u1 -> u2 | unknown | z");
}

#[test]
fn without_an_identifier_every_message_came_in() {
    let shown = print_history("u2", &vec![message("", "u2", Some("hi"), 0)], &None);
    assert!(shown.ends_with("\n[noon] in   -> u2 | pending | hi"));
}

#[test]
fn connections_are_listed() {
    let connections = vec![
        ConnectionInfo { number: 1, uuid: Some("u1".to_string()), username: "bob".to_string() },
        ConnectionInfo { number: 12, uuid: None, username: "eve".to_string() },
    ];
    assert_eq!(
        print_connections(&connections),
        "\n\x1b[36mOnline connections:\x1b[0m\n  #1 bob (u1)\n  #12 eve (n/a)"
    );
    assert_eq!(print_connections(&vec![]), "\n\x1b[36mOnline connections:\x1b[0m\n  none");
}

#[test]
fn accounts_are_listed() {
    assert_eq!(
        print_accounts(&vec!["bob".to_string(), "eve".to_string()]),
        "\x1b[1mSaved accounts:\x1b[0m\n\x1b[34m1)\x1b[0m bob\n\x1b[34m2)\x1b[0m eve\n\x1b[34m0\x1b[0m Back"
    );
}
