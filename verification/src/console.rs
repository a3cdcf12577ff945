//! The console: what is printed, and how a typed line is taken.
//!
//! The functions give the text of one or more lines, without the line end after the last one.

use crate::chats::{chats_model, ChatEntry};
use crate::text::{
    decimal, decimal_text, opt_text, padded_decimal, padded_decimal_text, same, string_or, text_or,
    texts, trim, trimmed, Text,
};
use crate::wire::{
    connections_model, messages_model, opt_user, ConnectionInfo, SessionUserInfo, StoredMessage,
    UserProfile,
};
use vstd::prelude::*;

verus! {

/// Ends every color and weight.
pub const RESET: &'static str = "\x1b[0m";

/// Starts bold text.
pub const BOLD: &'static str = "\x1b[1m";

/// Starts dim text.
pub const DIM: &'static str = "\x1b[2m";

/// Starts blue text.
pub const BLUE: &'static str = "\x1b[34m";

/// Starts green text.
pub const GREEN: &'static str = "\x1b[32m";

/// Starts yellow text.
pub const YELLOW: &'static str = "\x1b[33m";

/// Starts red text.
pub const RED: &'static str = "\x1b[31m";

/// Starts cyan text.
pub const CYAN: &'static str = "\x1b[36m";

/// The client's name in large letters.
pub const LOGO: &'static str =
    "  __  __                                      \n |  \\/  | ___  ___ ___  ___ _ __   __ _  ___ \n | |\\/| |/ _ \\/ __/ __|/ _ \\ '_ \\ / _` |/ _ \\\n | |  | |  __/\\__ \\__ \\  __/ | | | (_| |  __/\n |_|  |_|\\___||___/___/\\___|_| |_|\\__, |\\___|\n                                     |___/      ";

/// A line across the screen.
pub const RULE: &'static str = "------------------------------------------------------------";

/// The choices of the registration menu.
pub const REGISTRATION_MENU: &'static str =
    "1) Email + phone\n2) Email only\n3) Phone only\n0) Back";

/// The choices under the chat list.
pub const CHATS_MENU: &'static str =
    "\n1) Add chat by username\n2) Open chat\n3) Remove chat\n4) Online connections\n0) Back";

/// The choices under an open chat.
pub const CHAT_MENU: &'static str =
    "\n1) Send message\n2) Refresh history\n3) Mark as read\n4) Rename chat label\n0) Back";

/// The choices of the profile menu.
pub const PROFILE_MENU: &'static str =
    "1) My profile\n2) Find profile by username\n3) Change first name\n4) Change last name\n5) Change date of birth\n6) Change additional info\n7) Change username\n0) Back";

/// What clears the screen and puts the cursor into its corner.
pub const CLEAR: &'static str = "\x1B[2J\x1B[1;1H";

/// A heading.
pub open spec fn title_text(text: Text) -> Text {
    "\n"@ + BLUE@ + BOLD@ + "== "@ + text + " =="@ + RESET@
}

/// Gives a heading.
pub fn title(text: &str) -> (r: String)
    ensures
        r@ == title_text(text@),
{
    "\n".to_owned().concat(BLUE).concat(BOLD).concat("== ").concat(text).concat(" ==").concat(RESET)
}

/// A report of success.
pub open spec fn ok_text(text: Text) -> Text {
    GREEN@ + "[ok]"@ + RESET@ + " "@ + text
}

/// Gives a report of success.
pub fn print_ok(text: &str) -> (r: String)
    ensures
        r@ == ok_text(text@),
{
    GREEN.to_owned().concat("[ok]").concat(RESET).concat(" ").concat(text)
}

/// A report of failure.
pub open spec fn error_text(text: Text) -> Text {
    RED@ + "[error]"@ + RESET@ + " "@ + text
}

/// Gives a report of failure.
pub fn print_error(text: &str) -> (r: String)
    ensures
        r@ == error_text(text@),
{
    RED.to_owned().concat("[error]").concat(RESET).concat(" ").concat(text)
}

/// A question, before its answer.
pub open spec fn question_text(label: Text) -> Text {
    CYAN@ + label + RESET@ + ": "@
}

/// What a question looks like.
pub fn prompt_text(label: &str) -> (r: String)
    ensures
        r@ == question_text(label@),
        r@ == CYAN@ + label@ + RESET@ + ": "@,
{
    CYAN.to_owned().concat(label).concat(RESET).concat(": ")
}

/// What a typed line stands for: the line without blanks around it, and nothing where no line
/// could be read.
pub open spec fn answer(line: Option<Text>) -> Text {
    match line {
        Some(text) => trimmed(text),
        None => Seq::empty(),
    }
}

/// Takes the line that was typed after a question.
pub fn prompt(line: &Option<String>) -> (r: String)
    ensures
        r@ == answer(opt_text(*line)),
{
    match line {
        Some(text) => trim(text.as_str()).to_owned(),
        None => String::new(),
    }
}

/// Takes the answer to a question that must be answered: a blank one is refused with a report, and
/// the question is asked again.
pub fn prompt_required(value: String) -> (r: Result<String, String>)
    ensures
        value@.len() > 0 ==> r == Ok::<String, String>(value),
        value@.len() == 0 ==> (r matches Err(report) && report@ == error_text(
            "Value cannot be empty"@,
        )),
{
    if value.as_str().is_empty() {
        Err(print_error("Value cannot be empty"))
    } else {
        Ok(value)
    }
}

/// What is shown while the program waits for the enter key.
pub fn wait_enter() -> (r: String)
    ensures
        r@ == "\n"@ + DIM@ + "Press ENTER to continue..."@ + RESET@,
{
    "\n".to_owned().concat(DIM).concat("Press ENTER to continue...").concat(RESET)
}

/// What clears the screen.
pub fn clear_screen() -> (r: String)
    ensures
        r@ == CLEAR@,
{
    CLEAR.to_owned()
}

/// The client's name and what it is.
pub open spec fn banner_text() -> Text {
    BLUE@ + BOLD@ + "\n"@ + LOGO@ + "\n"@ + RESET@ + DIM@
        + "\n  interactive console client for auth + chat\n"@ + RESET@
}

/// Gives the client's name and what it is.
pub fn banner() -> (r: String)
    ensures
        r@ == banner_text(),
{
    BLUE.to_owned().concat(BOLD).concat("\n").concat(LOGO).concat("\n").concat(RESET).concat(
        DIM,
    ).concat("\n  interactive console client for auth + chat\n").concat(RESET)
}

/// An identifier, or a mark where it is not known.
pub open spec fn known_id(uuid: Option<Text>) -> Text {
    text_or(uuid, "n/a"@)
}

/// A user's name and identifier.
pub open spec fn user_text(me: SessionUserInfo<Text>) -> Text {
    me.username + " ("@ + known_id(me.uuid) + ")"@
}

/// Gives a user's name and identifier.
pub fn user_tag(me: &SessionUserInfo) -> (r: String)
    ensures
        r@ == user_text(me@),
{
    me.username.clone().concat(" (").concat(string_or(&me.uuid, "n/a").as_str()).concat(")")
}

/// The line of the main menu that says who is logged in.
pub open spec fn session_text(me: Option<SessionUserInfo<Text>>) -> Text {
    match me {
        Some(user) => CYAN@ + "Session:"@ + RESET@ + " user="@ + user_text(user),
        None => YELLOW@ + "Session:"@ + RESET@ + " not authorized"@,
    }
}

fn session_line(me: &Option<SessionUserInfo>) -> (r: String)
    ensures
        r@ == session_text(opt_user(*me)),
{
    match me {
        Some(user) => CYAN.to_owned().concat("Session:").concat(RESET).concat(" user=").concat(
            user_tag(user).as_str(),
        ),
        None => YELLOW.to_owned().concat("Session:").concat(RESET).concat(" not authorized"),
    }
}

/// The line of the main menu that says where the services are.
pub open spec fn services_text(auth_url: Text, ws_url: Text) -> Text {
    BOLD@ + "Main menu"@ + RESET@ + "  "@ + DIM@ + "auth:"@ + RESET@ + " "@ + auth_url + "  "@
        + DIM@ + "ws:"@ + RESET@ + " "@ + ws_url
}

fn services_line(auth_url: &str, ws_url: &str) -> (r: String)
    ensures
        r@ == services_text(auth_url@, ws_url@),
{
    BOLD.to_owned().concat("Main menu").concat(RESET).concat("  ").concat(DIM).concat(
        "auth:",
    ).concat(RESET).concat(" ").concat(auth_url).concat("  ").concat(DIM).concat("ws:").concat(
        RESET,
    ).concat(" ").concat(ws_url)
}

/// One choice of the main menu, on a line of its own.
pub open spec fn choice_text(key: Text, what: Text) -> Text {
    "\n"@ + BLUE@ + key + RESET@ + what
}

fn choice_line(key: &str, what: &str) -> (r: String)
    ensures
        r@ == choice_text(key@, what@),
{
    "\n".to_owned().concat(BLUE).concat(key).concat(RESET).concat(what)
}

/// The choices of the main menu.
pub open spec fn main_choices_text() -> Text {
    choice_text("1"@, " Register"@) + choice_text("2"@, " Login"@) + choice_text(
        "3"@,
        " Connect chat socket"@,
    ) + choice_text("4"@, " Chats and history"@) + choice_text("5"@, " Profiles"@) + choice_text(
        "6"@,
        " Ping chat socket"@,
    ) + choice_text("7"@, " Logout"@) + choice_text("8"@, " Switch account"@) + choice_text(
        "0"@,
        " Exit"@,
    )
}

fn main_choices() -> (r: String)
    ensures
        r@ == main_choices_text(),
{
    choice_line("1", " Register").concat(choice_line("2", " Login").as_str()).concat(
        choice_line("3", " Connect chat socket").as_str(),
    ).concat(choice_line("4", " Chats and history").as_str()).concat(
        choice_line("5", " Profiles").as_str(),
    ).concat(choice_line("6", " Ping chat socket").as_str()).concat(
        choice_line("7", " Logout").as_str(),
    ).concat(choice_line("8", " Switch account").as_str()).concat(
        choice_line("0", " Exit").as_str(),
    )
}

/// A dim line across the screen.
pub open spec fn rule_text() -> Text {
    DIM@ + RULE@ + RESET@
}

/// The main menu.
pub open spec fn main_menu_text(
    auth_url: Text,
    ws_url: Text,
    me: Option<SessionUserInfo<Text>>,
) -> Text {
    banner_text() + "\n"@ + services_text(auth_url, ws_url) + "\n"@ + session_text(me) + "\n"@
        + rule_text() + main_choices_text()
}

fn rule() -> (r: String)
    ensures
        r@ == rule_text(),
{
    DIM.to_owned().concat(RULE).concat(RESET)
}

/// Gives the main menu.
pub fn render_main_menu(auth_url: &str, ws_url: &str, me: &Option<SessionUserInfo>) -> (r: String)
    ensures
        r@ == main_menu_text(auth_url@, ws_url@, opt_user(*me)),
{
    banner().concat("\n").concat(services_line(auth_url, ws_url).as_str()).concat("\n").concat(
        session_line(me).as_str(),
    ).concat("\n").concat(rule().as_str()).concat(main_choices().as_str())
}

/// What the chat list says of unread messages: nothing where there are none.
pub open spec fn badge_text(unread: usize) -> Text {
    if unread > 0 {
        " [unread="@ + decimal(unread as nat) + "]"@
    } else {
        Seq::empty()
    }
}

/// The line of a chat in the list, under its number.
pub open spec fn chat_line_text(number: nat, chat: ChatEntry<Text>) -> Text {
    "\n  "@ + padded_decimal(number) + ". "@ + chat.label + " ("@ + chat.user_id + ")"@
        + badge_text(chat.unread)
}

/// The lines of the first `n` chats, numbered from one.
pub open spec fn chat_lines_text(chats: Seq<ChatEntry<Text>>, n: nat) -> Text
    decreases n,
{
    if n == 0 {
        Seq::empty()
    } else {
        chat_lines_text(chats, (n - 1) as nat) + chat_line_text(n, chats[n - 1])
    }
}

/// The chat list.
pub open spec fn chat_list_text(chats: Seq<ChatEntry<Text>>) -> Text {
    "\n"@ + BOLD@ + "Saved chats:"@ + RESET@ + if chats.len() == 0 {
        "\n  "@ + DIM@ + "(empty)"@ + RESET@
    } else {
        chat_lines_text(chats, chats.len())
    }
}

fn badge(unread: usize) -> (r: String)
    ensures
        r@ == badge_text(unread),
{
    if unread > 0 {
        " [unread=".to_owned().concat(decimal_text(unread).as_str()).concat("]")
    } else {
        String::new()
    }
}

fn chat_line(number: usize, chat: &ChatEntry) -> (r: String)
    ensures
        r@ == chat_line_text(number as nat, chat@),
{
    "\n  ".to_owned().concat(padded_decimal_text(number).as_str()).concat(". ").concat(
        chat.label.as_str(),
    ).concat(" (").concat(chat.user_id.as_str()).concat(")").concat(badge(chat.unread).as_str())
}

/// Gives the chat list.
pub fn print_chat_list(chats: &Vec<ChatEntry>) -> (r: String)
    ensures
        r@ == chat_list_text(chats_model(chats@)),
{
    let head = "\n".to_owned().concat(BOLD).concat("Saved chats:").concat(RESET);
    if chats.len() == 0 {
        let empty = "\n  ".to_owned().concat(DIM).concat("(empty)").concat(RESET);
        return head.concat(empty.as_str());
    }
    let mut lines = String::new();
    let mut i: usize = 0;
    while i < chats.len()
        invariant
            i <= chats@.len(),
            lines@ == chat_lines_text(chats_model(chats@), i as nat),
        decreases chats@.len() - i,
    {
        lines = lines.concat(chat_line(i + 1, &chats[i]).as_str());
        i = i + 1;
    }
    head.concat(lines.as_str())
}

/// A profile.
pub open spec fn profile_text(profile: UserProfile<Text>) -> Text {
    "\n"@ + BOLD@ + "Profile:"@ + RESET@ + "\n  uuid           : "@ + known_id(profile.uuid)
        + "\n  username       : "@ + profile.username + "\n  first_name     : "@
        + profile.first_name + "\n  last_name      : "@ + profile.last_name
        + "\n  date_of_birth  : "@ + profile.date_of_birth + "\n  additional_info: "@
        + profile.additional_info
}

/// Gives a profile.
pub fn print_profile(profile: &UserProfile) -> (r: String)
    ensures
        r@ == profile_text(profile@),
{
    "\n".to_owned().concat(BOLD).concat("Profile:").concat(RESET).concat(
        "\n  uuid           : ",
    ).concat(string_or(&profile.uuid, "n/a").as_str()).concat("\n  username       : ").concat(
        profile.username.as_str(),
    ).concat("\n  first_name     : ").concat(profile.first_name.as_str()).concat(
        "\n  last_name      : ",
    ).concat(profile.last_name.as_str()).concat("\n  date_of_birth  : ").concat(
        profile.date_of_birth.as_str(),
    ).concat("\n  additional_info: ").concat(profile.additional_info.as_str())
}

/// Which way a message went: out where the user sent it, in otherwise.
pub open spec fn direction_text(sender_id: Text, my_id: Option<Text>) -> Text {
    if my_id == Some(sender_id) {
        "out"@
    } else {
        "in "@
    }
}

/// The name of a message's status.
pub open spec fn status_text(status: i64) -> Text {
    if status == 0 {
        "pending"@
    } else if status == 1 {
        "delivered"@
    } else if status == 2 {
        "read"@
    } else {
        "unknown"@
    }
}

/// The line of a message.
pub open spec fn message_line_text(message: StoredMessage<Text>, my_id: Option<Text>) -> Text {
    "\n["@ + message.created_at + "] "@ + direction_text(message.sender_id, my_id) + " "@
        + message.sender_id + " -> "@ + message.receiver_id + " | "@ + status_text(message.status)
        + " | "@ + text_or(message.text, "<empty>"@)
}

/// The lines of the first `n` messages.
pub open spec fn message_lines_text(
    messages: Seq<StoredMessage<Text>>,
    my_id: Option<Text>,
    n: nat,
) -> Text
    decreases n,
{
    if n == 0 {
        Seq::empty()
    } else {
        message_lines_text(messages, my_id, (n - 1) as nat) + message_line_text(
            messages[n - 1],
            my_id,
        )
    }
}

/// The history of a chat.
pub open spec fn history_text(
    with_user_id: Text,
    messages: Seq<StoredMessage<Text>>,
    my_id: Option<Text>,
) -> Text {
    "\n"@ + BOLD@ + "History"@ + RESET@ + " with "@ + with_user_id + " ("@ + decimal(
        messages.len(),
    ) + " messages)\n"@ + rule_text() + message_lines_text(messages, my_id, messages.len())
        + if messages.len() == 0 {
        "\n"@ + DIM@ + "No messages yet."@ + RESET@
    } else {
        Seq::empty()
    }
}

fn message_line(message: &StoredMessage, my_id: &Option<String>) -> (r: String)
    ensures
        r@ == message_line_text(message@, opt_text(*my_id)),
{
    let outgoing = match my_id {
        Some(id) => same(message.sender_id.as_str(), id.as_str()),
        None => false,
    };
    let direction = if outgoing {
        "out"
    } else {
        "in "
    };
    let status = if message.status == 0 {
        "pending"
    } else if message.status == 1 {
        "delivered"
    } else if message.status == 2 {
        "read"
    } else {
        "unknown"
    };
    "\n[".to_owned().concat(message.created_at.as_str()).concat("] ").concat(direction).concat(
        " ",
    ).concat(message.sender_id.as_str()).concat(" -> ").concat(message.receiver_id.as_str()).concat(
        " | ",
    ).concat(status).concat(" | ").concat(string_or(&message.text, "<empty>").as_str())
}

/// Gives the history of a chat with a user; `my_id` tells which messages went out.
pub fn print_history(
    with_user_id: &str,
    messages: &Vec<StoredMessage>,
    my_id: &Option<String>,
) -> (r: String)
    ensures
        r@ == history_text(with_user_id@, messages_model(messages@), opt_text(*my_id)),
{
    let head = "\n".to_owned().concat(BOLD).concat("History").concat(RESET).concat(
        " with ",
    ).concat(with_user_id).concat(" (").concat(decimal_text(messages.len()).as_str()).concat(
        " messages)\n",
    ).concat(rule().as_str());
    let mut lines = String::new();
    let mut i: usize = 0;
    while i < messages.len()
        invariant
            i <= messages@.len(),
            lines@ == message_lines_text(messages_model(messages@), opt_text(*my_id), i as nat),
        decreases messages@.len() - i,
    {
        lines = lines.concat(message_line(&messages[i], my_id).as_str());
        i = i + 1;
    }
    let tail = if messages.len() == 0 {
        "\n".to_owned().concat(DIM).concat("No messages yet.").concat(RESET)
    } else {
        String::new()
    };
    head.concat(lines.as_str()).concat(tail.as_str())
}

/// The line of a connection.
pub open spec fn connection_line_text(c: ConnectionInfo<Text>) -> Text {
    "\n  #"@ + decimal(c.number as nat) + " "@ + c.username + " ("@ + known_id(c.uuid) + ")"@
}

/// The lines of the first `n` connections.
pub open spec fn connection_lines_text(connections: Seq<ConnectionInfo<Text>>, n: nat) -> Text
    decreases n,
{
    if n == 0 {
        Seq::empty()
    } else {
        connection_lines_text(connections, (n - 1) as nat) + connection_line_text(
            connections[n - 1],
        )
    }
}

/// Who is connected to the chat service.
pub open spec fn connections_text(connections: Seq<ConnectionInfo<Text>>) -> Text {
    "\n"@ + CYAN@ + "Online connections:"@ + RESET@ + if connections.len() == 0 {
        "\n  none"@
    } else {
        connection_lines_text(connections, connections.len())
    }
}

fn connection_line(c: &ConnectionInfo) -> (r: String)
    ensures
        r@ == connection_line_text(c@),
{
    "\n  #".to_owned().concat(decimal_text(c.number).as_str()).concat(" ").concat(
        c.username.as_str(),
    ).concat(" (").concat(string_or(&c.uuid, "n/a").as_str()).concat(")")
}

/// Tells who is connected to the chat service.
pub fn print_connections(connections: &Vec<ConnectionInfo>) -> (r: String)
    ensures
        r@ == connections_text(connections_model(connections@)),
{
    let head = "\n".to_owned().concat(CYAN).concat("Online connections:").concat(RESET);
    if connections.len() == 0 {
        return head.concat("\n  none");
    }
    let mut lines = String::new();
    let mut i: usize = 0;
    while i < connections.len()
        invariant
            i <= connections@.len(),
            lines@ == connection_lines_text(connections_model(connections@), i as nat),
        decreases connections@.len() - i,
    {
        lines = lines.concat(connection_line(&connections[i]).as_str());
        i = i + 1;
    }
    head.concat(lines.as_str())
}

/// The lines of the first `n` accounts, numbered from one.
pub open spec fn account_lines_text(accounts: Seq<Text>, n: nat) -> Text
    decreases n,
{
    if n == 0 {
        Seq::empty()
    } else {
        account_lines_text(accounts, (n - 1) as nat) + ("\n"@ + BLUE@ + decimal(n) + ")"@ + RESET@
            + " "@ + accounts[n - 1])
    }
}

/// The accounts that can be switched to.
pub open spec fn accounts_text(accounts: Seq<Text>) -> Text {
    BOLD@ + "Saved accounts:"@ + RESET@ + account_lines_text(accounts, accounts.len())
        + choice_text("0"@, " Back"@)
}

fn account_line(number: usize, account: &str) -> (r: String)
    ensures
        r@ == "\n"@ + BLUE@ + decimal(number as nat) + ")"@ + RESET@ + " "@ + account@,
{
    "\n".to_owned().concat(BLUE).concat(decimal_text(number).as_str()).concat(")").concat(
        RESET,
    ).concat(" ").concat(account)
}

/// Lists the accounts that can be switched to.
pub fn print_accounts(accounts: &Vec<String>) -> (r: String)
    ensures
        r@ == accounts_text(texts(accounts@)),
{
    let head = BOLD.to_owned().concat("Saved accounts:").concat(RESET);
    let mut lines = String::new();
    let mut i: usize = 0;
    while i < accounts.len()
        invariant
            i <= accounts@.len(),
            lines@ == account_lines_text(texts(accounts@), i as nat),
        decreases accounts@.len() - i,
    {
        lines = lines.concat(account_line(i + 1, accounts[i].as_str()).as_str());
        i = i + 1;
    }
    head.concat(lines.as_str()).concat(choice_line("0", " Back").as_str())
}

/// A message is shown as sent by the user exactly if its sender is the user whose identifier is
/// known; without a known identifier every message is shown as received.
pub proof fn only_own_messages_go_out(sender_id: Text, my_id: Option<Text>)
    ensures
        direction_text(sender_id, my_id) == "out"@ <==> my_id == Some(sender_id),
        direction_text(sender_id, None) == "in "@,
{
    reveal_strlit("out");
    reveal_strlit("in ");
    assert("out"@[0] == 'o');
    assert("in "@[0] == 'i');
}

/// The chat list marks a chat exactly if it has unread messages.
pub proof fn only_unread_chats_have_a_badge(unread: usize)
    ensures
        badge_text(unread).len() == 0 <==> unread == 0,
{
    reveal_strlit(" [unread=");
}

/// Headings, reports and questions hold the whole of their text, between marks that do not depend
/// on it.
pub proof fn reports_hold_their_text(text: Text)
    ensures
        title_text(text) == "\n"@ + "\x1b[34m"@ + "\x1b[1m"@ + "== "@ + text + " =="@ + "\x1b[0m"@,
        ok_text(text) == "\x1b[32m"@ + "[ok]"@ + "\x1b[0m"@ + " "@ + text,
        error_text(text) == "\x1b[31m"@ + "[error]"@ + "\x1b[0m"@ + " "@ + text,
        question_text(text) == "\x1b[36m"@ + text + "\x1b[0m"@ + ": "@,
{
}

/// A typed line stands for all of it but the white space around it, and a line that could not be
/// read stands for nothing.
pub proof fn answers_are_trimmed_lines(line: Text)
    ensures
        answer(Some(line)) == trimmed(line),
        answer(None).len() == 0,
{
}

/// A user is shown with the whole name and the whole identifier, or a mark where it is not known.
pub proof fn users_are_shown_whole(username: Text, id: Text)
    ensures
        user_text((SessionUserInfo { uuid: Some(id), username })) == username + " ("@ + id + ")"@,
        user_text((SessionUserInfo { uuid: None, username })) == username + " ("@ + "n/a"@ + ")"@,
{
}

/// The main menu shows where both services are, who is logged in, and its nine choices, in this
/// order.
pub proof fn the_main_menu_shows_everything(
    auth_url: Text,
    ws_url: Text,
    me: Option<SessionUserInfo<Text>>,
)
    ensures
        ({
            let session = match me {
                Some(user) => "\x1b[36m"@ + "Session:"@ + "\x1b[0m"@ + " user="@ + (user.username
                    + " ("@ + (match user.uuid {
                    Some(id) => id,
                    None => "n/a"@,
                }) + ")"@),
                None => "\x1b[33m"@ + "Session:"@ + "\x1b[0m"@ + " not authorized"@,
            };
            let choices = seq![
                ("1"@, " Register"@),
                ("2"@, " Login"@),
                ("3"@, " Connect chat socket"@),
                ("4"@, " Chats and history"@),
                ("5"@, " Profiles"@),
                ("6"@, " Ping chat socket"@),
                ("7"@, " Logout"@),
                ("8"@, " Switch account"@),
                ("0"@, " Exit"@),
            ];
            main_menu_text(auth_url, ws_url, me) == banner_text() + "\n"@ + ("\x1b[1m"@
                + "Main menu"@ + "\x1b[0m"@ + "  "@ + "\x1b[2m"@ + "auth:"@ + "\x1b[0m"@ + " "@
                + auth_url + "  "@ + "\x1b[2m"@ + "ws:"@ + "\x1b[0m"@ + " "@ + ws_url) + "\n"@
                + session + "\n"@ + ("\x1b[2m"@ + RULE@ + "\x1b[0m"@) + choices.map_values(
                |c: (Text, Text)| "\n"@ + "\x1b[34m"@ + c.0 + "\x1b[0m"@ + c.1,
            ).flatten()
        }),
{
    let choices = seq![
        ("1"@, " Register"@),
        ("2"@, " Login"@),
        ("3"@, " Connect chat socket"@),
        ("4"@, " Chats and history"@),
        ("5"@, " Profiles"@),
        ("6"@, " Ping chat socket"@),
        ("7"@, " Logout"@),
        ("8"@, " Switch account"@),
        ("0"@, " Exit"@),
    ];
    let lines = choices.map_values(
        |c: (Text, Text)| "\n"@ + "\x1b[34m"@ + c.0 + "\x1b[0m"@ + c.1,
    );
    let given = Seq::<Text>::empty().push(choice_text("1"@, " Register"@)).push(
        choice_text("2"@, " Login"@),
    ).push(choice_text("3"@, " Connect chat socket"@)).push(
        choice_text("4"@, " Chats and history"@),
    ).push(choice_text("5"@, " Profiles"@)).push(choice_text("6"@, " Ping chat socket"@)).push(
        choice_text("7"@, " Logout"@),
    ).push(choice_text("8"@, " Switch account"@)).push(choice_text("0"@, " Exit"@));
    assert(lines =~= given);
    assert(given.flatten() =~= main_choices_text()) by {
        broadcast use Seq::lemma_flatten_push;

        assert(Seq::<Text>::empty().flatten() =~= Seq::<char>::empty());
    }
}

/// The chat list has a line for every chat, in order: its number, counted from one, its whole
/// label, its whole identifier, and how many messages are unread, if any are.
pub proof fn chat_lists_show_every_chat(chats: Seq<ChatEntry<Text>>)
    ensures
        chats.len() > 0 ==> chat_list_text(chats) == "\n"@ + "\x1b[1m"@ + "Saved chats:"@
            + "\x1b[0m"@ + Seq::new(
            chats.len(),
            |i: int|
                "\n  "@ + padded_decimal((i + 1) as nat) + ". "@ + chats[i].label + " ("@
                    + chats[i].user_id + ")"@ + (if chats[i].unread > 0 {
                    " [unread="@ + decimal(chats[i].unread as nat) + "]"@
                } else {
                    Seq::empty()
                }),
        ).flatten(),
        chats.len() == 0 ==> chat_list_text(chats) == "\n"@ + "\x1b[1m"@ + "Saved chats:"@
            + "\x1b[0m"@ + ("\n  "@ + "\x1b[2m"@ + "(empty)"@ + "\x1b[0m"@),
{
    let line = |i: int|
        "\n  "@ + padded_decimal((i + 1) as nat) + ". "@ + chats[i].label + " ("@ + chats[i].user_id
            + ")"@ + (if chats[i].unread > 0 {
            " [unread="@ + decimal(chats[i].unread as nat) + "]"@
        } else {
            Seq::empty()
        });
    lemma_chat_lines(chats, line, chats.len());
}

proof fn lemma_chat_lines(chats: Seq<ChatEntry<Text>>, line: spec_fn(int) -> Text, n: nat)
    requires
        n <= chats.len(),
        forall|i: int|
            0 <= i < chats.len() ==> #[trigger] line(i) == chat_line_text((i + 1) as nat, chats[i]),
    ensures
        chat_lines_text(chats, n) == Seq::new(n, line).flatten(),
    decreases n,
{
    if n > 0 {
        lemma_chat_lines(chats, line, (n - 1) as nat);
        let shorter = Seq::new((n - 1) as nat, line);
        shorter.lemma_flatten_push(line(n - 1));
        assert(Seq::new(n, line) =~= shorter.push(line(n - 1)));
    }
}

/// A profile shows each of its fields whole, after the name of the field.
pub proof fn profiles_show_every_field(profile: UserProfile<Text>)
    ensures
        profile_text(profile) == "\n"@ + "\x1b[1m"@ + "Profile:"@ + "\x1b[0m"@
            + "\n  uuid           : "@ + (match profile.uuid {
            Some(id) => id,
            None => "n/a"@,
        }) + "\n  username       : "@ + profile.username + "\n  first_name     : "@
            + profile.first_name + "\n  last_name      : "@ + profile.last_name
            + "\n  date_of_birth  : "@ + profile.date_of_birth + "\n  additional_info: "@
            + profile.additional_info,
{
}

/// A history names the user and counts the messages; then it has a line for every message, in
/// order: when it was created, whether the user sent it, the whole identifiers of both sides, its
/// status, and the whole of its text, or a mark where it has none.
pub proof fn histories_show_every_message(
    with_user_id: Text,
    messages: Seq<StoredMessage<Text>>,
    my_id: Option<Text>,
)
    ensures
        history_text(with_user_id, messages, my_id) == "\n"@ + "\x1b[1m"@ + "History"@
            + "\x1b[0m"@ + " with "@ + with_user_id + " ("@ + decimal(messages.len())
            + " messages)\n"@ + ("\x1b[2m"@ + RULE@ + "\x1b[0m"@) + messages.map_values(
            |m: StoredMessage<Text>|
                "\n["@ + m.created_at + "] "@ + (if my_id == Some(m.sender_id) {
                    "out"@
                } else {
                    "in "@
                }) + " "@ + m.sender_id + " -> "@ + m.receiver_id + " | "@ + (if m.status == 0 {
                    "pending"@
                } else if m.status == 1 {
                    "delivered"@
                } else if m.status == 2 {
                    "read"@
                } else {
                    "unknown"@
                }) + " | "@ + (match m.text {
                    Some(t) => t,
                    None => "<empty>"@,
                }),
        ).flatten() + (if messages.len() == 0 {
            "\n"@ + "\x1b[2m"@ + "No messages yet."@ + "\x1b[0m"@
        } else {
            Seq::empty()
        }),
{
    let line = |m: StoredMessage<Text>|
        "\n["@ + m.created_at + "] "@ + (if my_id == Some(m.sender_id) {
            "out"@
        } else {
            "in "@
        }) + " "@ + m.sender_id + " -> "@ + m.receiver_id + " | "@ + (if m.status == 0 {
            "pending"@
        } else if m.status == 1 {
            "delivered"@
        } else if m.status == 2 {
            "read"@
        } else {
            "unknown"@
        }) + " | "@ + (match m.text {
            Some(t) => t,
            None => "<empty>"@,
        });
    lemma_message_lines(messages, my_id, line, messages.len());
    assert(messages.take(messages.len() as int) =~= messages);
}

proof fn lemma_message_lines(
    messages: Seq<StoredMessage<Text>>,
    my_id: Option<Text>,
    line: spec_fn(StoredMessage<Text>) -> Text,
    n: nat,
)
    requires
        n <= messages.len(),
        forall|m: StoredMessage<Text>| #[trigger] line(m) == message_line_text(m, my_id),
    ensures
        message_lines_text(messages, my_id, n) == messages.take(n as int).map_values(
            line,
        ).flatten(),
    decreases n,
{
    if n > 0 {
        lemma_message_lines(messages, my_id, line, (n - 1) as nat);
        let shorter = messages.take(n - 1).map_values(line);
        shorter.lemma_flatten_push(line(messages[n - 1]));
        assert(messages.take(n as int).map_values(line) =~= shorter.push(line(messages[n - 1])));
    }
}

/// The list of connections has a line for every connection, in order: its number, the whole name
/// of its user, and the whole identifier, or a mark where it is not known.
pub proof fn connection_lists_show_every_connection(connections: Seq<ConnectionInfo<Text>>)
    ensures
        connections.len() > 0 ==> connections_text(connections) == "\n"@ + "\x1b[36m"@
            + "Online connections:"@ + "\x1b[0m"@ + connections.map_values(
            |c: ConnectionInfo<Text>|
                "\n  #"@ + decimal(c.number as nat) + " "@ + c.username + " ("@ + (match c.uuid {
                    Some(id) => id,
                    None => "n/a"@,
                }) + ")"@,
        ).flatten(),
        connections.len() == 0 ==> connections_text(connections) == "\n"@ + "\x1b[36m"@
            + "Online connections:"@ + "\x1b[0m"@ + "\n  none"@,
{
    let line = |c: ConnectionInfo<Text>|
        "\n  #"@ + decimal(c.number as nat) + " "@ + c.username + " ("@ + (match c.uuid {
            Some(id) => id,
            None => "n/a"@,
        }) + ")"@;
    lemma_connection_lines(connections, line, connections.len());
    assert(connections.take(connections.len() as int) =~= connections);
}

proof fn lemma_connection_lines(
    connections: Seq<ConnectionInfo<Text>>,
    line: spec_fn(ConnectionInfo<Text>) -> Text,
    n: nat,
)
    requires
        n <= connections.len(),
        forall|c: ConnectionInfo<Text>| #[trigger] line(c) == connection_line_text(c),
    ensures
        connection_lines_text(connections, n) == connections.take(n as int).map_values(
            line,
        ).flatten(),
    decreases n,
{
    if n > 0 {
        lemma_connection_lines(connections, line, (n - 1) as nat);
        let shorter = connections.take(n - 1).map_values(line);
        shorter.lemma_flatten_push(line(connections[n - 1]));
        assert(connections.take(n as int).map_values(line) =~= shorter.push(
            line(connections[n - 1]),
        ));
    }
}

/// The list of accounts has a line for every account, in order: its number, counted from one, and
/// its whole name; the way back comes last.
pub proof fn account_lists_show_every_account(accounts: Seq<Text>)
    ensures
        accounts_text(accounts) == "\x1b[1m"@ + "Saved accounts:"@ + "\x1b[0m"@ + Seq::new(
            accounts.len(),
            |i: int|
                "\n"@ + "\x1b[34m"@ + decimal((i + 1) as nat) + ")"@ + "\x1b[0m"@ + " "@
                    + accounts[i],
        ).flatten() + ("\n"@ + "\x1b[34m"@ + "0"@ + "\x1b[0m"@ + " Back"@),
{
    let line = |i: int|
        "\n"@ + "\x1b[34m"@ + decimal((i + 1) as nat) + ")"@ + "\x1b[0m"@ + " "@ + accounts[i];
    lemma_account_lines(accounts, line, accounts.len());
}

proof fn lemma_account_lines(accounts: Seq<Text>, line: spec_fn(int) -> Text, n: nat)
    requires
        n <= accounts.len(),
        forall|i: int|
            0 <= i < accounts.len() ==> #[trigger] line(i) == "\n"@ + BLUE@ + decimal(
                (i + 1) as nat,
            ) + ")"@ + RESET@ + " "@ + accounts[i],
    ensures
        account_lines_text(accounts, n) == Seq::new(n, line).flatten(),
    decreases n,
{
    if n > 0 {
        lemma_account_lines(accounts, line, (n - 1) as nat);
        let shorter = Seq::new((n - 1) as nat, line);
        shorter.lemma_flatten_push(line(n - 1));
        assert(Seq::new(n, line) =~= shorter.push(line(n - 1)));
    }
}

} // verus!
