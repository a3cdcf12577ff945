//! What the client does over several steps: what is typed is what is sent, and how a login, a
//! switch of accounts and a logout go, whatever the services reply.

use crate::app::{
    AfterConnect, EventModel, LoginMode, OpenChat, Output, OutputModel, ProfileField, Receipt,
    RegistrationMode, Request, RequestModel, Screen, SendOutcome,
};
use crate::auth::{
    endpoint_url, get_request, json_outcome, plain_body, post_request, presence_request, HttpReply,
    HttpRequest, HttpRequestModel, JsonBody, Method, PhoneRegistration,
};
use crate::chats::{with_label, ChatEntry};
use crate::console::{answer, error_text, ok_text};
use crate::model::{login_request, question, update_request, AppModel};
use crate::text::{same_ignoring_case, Text};
use crate::wire::{ClientAction, ServerEvent, SessionUserInfo};
use vstd::prelude::*;

pub mod accounts;
pub mod chats;
pub mod connection;
pub mod profiles;

verus! {

/// The request that is made of the authorization service for a reply in plain text.
pub open spec fn asks_for(m: AppModel, request: HttpRequestModel) -> bool {
    m.request() == Request::<Text, HttpRequestModel>::Plain(request)
}

/// The action that is sent over the socket.
pub open spec fn sends(m: AppModel, action: ClientAction<Text>) -> bool {
    m.request() == Request::<Text, HttpRequestModel>::Send(action)
}

/// The choices of the menus are different answers.
pub(crate) proof fn lemma_choices_differ()
    ensures
        "0"@ != "1"@,
        "0"@ != "2"@,
        "0"@ != "3"@,
        "0"@ != "4"@,
        "0"@ != "5"@,
        "0"@ != "6"@,
        "0"@ != "7"@,
        "0"@ != "8"@,
        "1"@ != "2"@,
        "1"@ != "3"@,
        "1"@ != "4"@,
        "2"@ != "3"@,
        "2"@ != "4"@,
        "3"@ != "4"@,
        "7"@ != "1"@,
        "7"@ != "2"@,
        "7"@ != "3"@,
        "7"@ != "4"@,
        "7"@ != "5"@,
        "7"@ != "6"@,
        "5"@ != "1"@,
        "5"@ != "2"@,
        "5"@ != "3"@,
        "5"@ != "4"@,
        "5"@ != "6"@,
        "6"@ != "1"@,
        "6"@ != "2"@,
        "6"@ != "3"@,
        "6"@ != "4"@,
        "8"@ != "1"@,
        "8"@ != "2"@,
        "8"@ != "3"@,
        "8"@ != "4"@,
        "8"@ != "5"@,
        "8"@ != "6"@,
        "8"@ != "7"@,
{
    reveal_strlit("0");
    reveal_strlit("1");
    reveal_strlit("2");
    reveal_strlit("3");
    reveal_strlit("4");
    reveal_strlit("5");
    reveal_strlit("6");
    reveal_strlit("7");
    reveal_strlit("8");
    assert("0"@[0] == '0');
    assert("1"@[0] == '1');
    assert("2"@[0] == '2');
    assert("3"@[0] == '3');
    assert("4"@[0] == '4');
    assert("5"@[0] == '5');
    assert("6"@[0] == '6');
    assert("7"@[0] == '7');
    assert("8"@[0] == '8');
}

/// A registration with everything sends the name, the password, the email address and the phone
/// number as they were typed.
pub proof fn full_registrations_send_what_was_typed(
    m: AppModel,
    username: Option<Text>,
    password: Option<Text>,
    email: Option<Text>,
    phone_number: Option<Text>,
)
    requires
        m.screen == (Screen::<Text, Seq<Text>>::RegistrationUsername {
            mode: RegistrationMode::Full,
        }),
        answer(username).len() > 0,
        answer(password).len() > 0,
        answer(email).len() > 0,
        answer(phone_number).len() > 0,
    ensures
        asks_for(
            m.typed(username).typed(password).typed(email).typed(phone_number),
            get_request(
                m.auth_url,
                "adduser"@,
                seq![
                    ("username"@, answer(username)),
                    ("password"@, answer(password)),
                    ("email"@, answer(email)),
                    ("phone_number"@, answer(phone_number)),
                ],
            ),
        ),
{
}

/// A registration with an email address only asks for no phone number and sends none.
pub proof fn email_registrations_send_what_was_typed(
    m: AppModel,
    username: Option<Text>,
    password: Option<Text>,
    email: Option<Text>,
)
    requires
        m.screen == (Screen::<Text, Seq<Text>>::RegistrationUsername {
            mode: RegistrationMode::EmailOnly,
        }),
        answer(username).len() > 0,
        answer(password).len() > 0,
        answer(email).len() > 0,
    ensures
        asks_for(
            m.typed(username).typed(password).typed(email),
            get_request(
                m.auth_url,
                "adduserwithoutphone"@,
                seq![
                    ("username"@, answer(username)),
                    ("password"@, answer(password)),
                    ("email"@, answer(email)),
                ],
            ),
        ),
{
}

/// A registration with a phone number only asks for no email address and sends none.
pub proof fn phone_registrations_send_what_was_typed(
    m: AppModel,
    username: Option<Text>,
    password: Option<Text>,
    phone_number: Option<Text>,
)
    requires
        m.screen == (Screen::<Text, Seq<Text>>::RegistrationUsername {
            mode: RegistrationMode::PhoneOnly,
        }),
        answer(username).len() > 0,
        answer(password).len() > 0,
        answer(phone_number).len() > 0,
    ensures
        asks_for(
            m.typed(username).typed(password).typed(phone_number),
            post_request(
                m.auth_url,
                "adduserwithoutemail"@,
                JsonBody::Phone(
                    (PhoneRegistration {
                        username: answer(username),
                        password: answer(password),
                        phone_number: answer(phone_number),
                    }),
                ),
            ),
        ),
{
}

/// A login is by phone where the user says so, in any case of letters, and by email otherwise; it
/// sends what was typed and asks for the lifetime that is configured.
pub proof fn logins_send_what_was_typed(
    m: AppModel,
    mode: Option<Text>,
    details: Option<Text>,
    password: Option<Text>,
)
    requires
        m.screen is LoginChoice,
        answer(details).len() > 0,
        answer(password).len() > 0,
    ensures
        asks_for(
            m.typed(mode).typed(details).typed(password),
            login_request(
                m.auth_url,
                if same_ignoring_case(answer(mode), "phone"@) {
                    LoginMode::Phone
                } else {
                    LoginMode::Email
                },
                answer(details),
                answer(password),
                m.config.session.default_lifetime_seconds,
            ),
        ),
{
}

/// A message goes to the user of the open chat, as it was typed.
pub proof fn messages_send_what_was_typed(
    m: AppModel,
    chat: OpenChat<Text>,
    choice: Option<Text>,
    text: Option<Text>,
)
    requires
        m.screen == (Screen::<Text, Seq<Text>>::ChatChoice { chat }),
        answer(choice) == "1"@,
        answer(text).len() > 0,
    ensures
        sends(
            m.typed(choice).typed(text),
            (ClientAction::SendMessage {
                session_token: m.token(),
                receiver_id: chat.user_id,
                text: Some(answer(text)),
                file_id: None,
            }),
        ),
{
    lemma_choices_differ();
}

/// Marking an open chat as read tells the service so.
pub proof fn reading_tells_the_service(m: AppModel, chat: OpenChat<Text>, choice: Option<Text>)
    requires
        m.screen == (Screen::<Text, Seq<Text>>::ChatChoice { chat }),
        answer(choice) == "3"@,
    ensures
        sends(
            m.typed(choice),
            (ClientAction::MarkRead { session_token: m.token(), with_user_id: chat.user_id }),
        ),
{
    lemma_choices_differ();
}

/// A new label is the one that was typed; it is kept for the chat that is open, and for no other.
pub proof fn labels_are_kept_as_typed(
    m: AppModel,
    chat: OpenChat<Text>,
    choice: Option<Text>,
    label: Option<Text>,
)
    requires
        m.screen == (Screen::<Text, Seq<Text>>::ChatChoice { chat }),
        chat.index < m.chats.len(),
        answer(choice) == "4"@,
        answer(label).len() > 0,
    ensures
        m.typed(choice).typed(label).chats == with_label(
            m.chats,
            chat.index as int,
            answer(label),
        ),
{
    lemma_choices_differ();
}

/// A new value of the profile is sent as it was typed, for the field that was chosen.
pub proof fn profile_changes_send_what_was_typed(
    m: AppModel,
    field: ProfileField,
    token: Text,
    new_value: Option<Text>,
)
    requires
        m.change_field(field).screen == (Screen::<Text, Seq<Text>>::ProfileValue { field, token }),
        answer(new_value).len() > 0,
    ensures
        asks_for(
            m.change_field(field).typed(new_value),
            update_request(m.auth_url, field, token, answer(new_value)),
        ),
{
}

/// A blank answer to a question that must be answered leads to a report and to the same question.
pub proof fn blank_answers_are_asked_again(m: AppModel, line: Option<Text>)
    requires
        question(m.screen) matches Some((_, required)) && required,
        answer(line).len() == 0,
    ensures
        m.typed(line) == m.fail("Value cannot be empty"@),
        m.typed(line).request() == m.request(),
{
}

/// A login that the service confirms opens the session, whether or not its token can be saved and
/// whatever becomes of telling that the user is online; then the client connects.
pub proof fn confirmed_logins_succeed(
    m: AppModel,
    login: HttpReply<Text>,
    reply: HttpReply<Text>,
    parsed: Result<SessionUserInfo<Text>, Text>,
    saved: Result<(), Text>,
    remembered: Result<(), Text>,
    online: HttpReply<Text>,
)
    requires
        m.screen is LoggingIn,
        plain_body(login) is Ok,
        json_outcome(reply, parsed) is Ok,
    ensures
        ({
            let token = plain_body(login)->Ok_0;
            let me = json_outcome(reply, parsed)->Ok_0;
            let resolved = m.replied(login).got_user(reply, parsed);
            let kept = match saved {
                Ok(()) => resolved.stored(saved).stored(remembered),
                Err(_) => resolved.stored(saved),
            };
            let n = kept.replied(online);
            &&& n.session_token == Some(token)
            &&& n.me == Some(me)
            &&& n.current_username == Some(me.username)
            &&& n.connected == m.connected
            &&& m.connected ==> n.screen is MainPause
            &&& !m.connected ==> n.screen == (Screen::<Text, Seq<Text>>::Connecting {
                after: AfterConnect::Menu,
                token,
            })
        }),
{
}

/// A login that the service refuses, or whose session it does not know, changes nothing but what
/// is shown.
pub proof fn refused_logins_change_nothing(
    m: AppModel,
    login: HttpReply<Text>,
    reply: HttpReply<Text>,
    parsed: Result<SessionUserInfo<Text>, Text>,
)
    requires
        m.screen is LoggingIn,
        plain_body(login) is Err || json_outcome(reply, parsed) is Err,
    ensures
        ({
            let n = m.replied(login).got_user(reply, parsed);
            &&& n.screen is MainPause
            &&& n == (AppModel { screen: n.screen, out: n.out, ..m })
        }),
{
}

/// A logout ends the session whatever the service and the keyring do, and whatever state the client
/// is in: the user, the account and the socket are gone, and everything else is kept. A second
/// logout changes nothing but what is shown.
pub proof fn logouts_succeed(
    m: AppModel,
    choice: Option<Text>,
    offline: HttpReply<Text>,
    deleted: Result<(), Text>,
    forgotten: Result<(), Text>,
    enter: Option<Text>,
)
    requires
        m.screen is MainChoice,
        answer(choice) == "7"@,
    ensures
        ({
            let n = m.typed(choice).replied(offline).stored(deleted).stored(forgotten);
            let again = n.typed(enter).drained(Seq::empty()).typed(choice);
            &&& n.screen is MainPause
            &&& n == (AppModel {
                session_token: None,
                me: None,
                current_username: None,
                connected: false,
                screen: n.screen,
                out: n.out,
                ..m
            })
            &&& again == (AppModel { out: again.out, ..n })
        }),
{
    lemma_choices_differ();
}

/// Switching to a saved account opens its session where the service confirms the saved token, and
/// keeps the session that was open otherwise. Whatever becomes of telling that the user is online,
/// a switch drops the socket that was open, connects anew and joins with the saved token.
pub proof fn switching_needs_a_confirmed_token(
    m: AppModel,
    username: Text,
    token: Text,
    reply: HttpReply<Text>,
    parsed: Result<SessionUserInfo<Text>, Text>,
    online: HttpReply<Text>,
)
    requires
        m.screen == (Screen::<Text, Seq<Text>>::SwitchToken { username }),
    ensures
        ({
            let validated = m.got_saved_token(Some(token)).got_user(reply, parsed);
            let n = validated.replied(online);
            match json_outcome(reply, parsed) {
                Ok(me) => {
                    &&& n.session_token == Some(token)
                    &&& n.me == Some(me)
                    &&& n.current_username == Some(username)
                    &&& !n.connected
                    &&& m.connected ==> n.out.last() == Output::<
                        Text,
                        Seq<ChatEntry<Text>>,
                    >::CloseSocket
                    &&& n.screen == (Screen::<Text, Seq<Text>>::Connecting {
                        after: AfterConnect::Menu,
                        token,
                    })
                    &&& sends(
                        n.socket_opened(Ok(())),
                        (ClientAction::Join { session_token: token }),
                    )
                },
                Err(_) => n == (AppModel { screen: n.screen, out: n.out, ..m }) && n.screen
                    is MainPause,
            }
        }),
        m.got_saved_token(None) == m.fail("Session not found for user: "@ + username).pause(),
{
}

/// A connection is joined with the token of the session; once the service has let the client in, it
/// goes on with what the connection was wanted for.
pub proof fn connections_join_with_the_session(
    m: AppModel,
    after: AfterConnect,
    token: Text,
    user_id: Text,
    username: Text,
    connection_number: usize,
)
    requires
        !m.connected,
        m.session_token == Some(token),
    ensures
        ({
            let opened = m.connect(after).socket_opened(Ok(()));
            let joining = opened.sent(SendOutcome::Queued);
            let joined = joining.received(
                Receipt::Got((ServerEvent::Joined { user_id, username, connection_number })),
            );
            &&& m.connect(after).request() == (Request::<Text, HttpRequestModel>::Connect {
                url: m.config.chat.ws_url,
            })
            &&& sends(opened, (ClientAction::Join { session_token: token }))
            &&& joining.request() is Receive
            &&& joined.connected
            &&& match after {
                AfterConnect::Menu => joined.screen is MainPause,
                AfterConnect::Ping => sends(joined, (ClientAction::Ping { session_token: token })),
                AfterConnect::Chats => joined.screen is ChatsDrain,
            }
        }),
{
}

/// Ending the program tells the service that the user is offline, if anybody is logged in, and
/// ends whatever it replies.
pub proof fn ending_tells_the_service(m: AppModel, choice: Option<Text>, reply: HttpReply<Text>)
    requires
        m.screen is MainChoice,
        answer(choice) == "0"@,
    ensures
        m.session_token is None ==> m.typed(choice).request() is Exit,
        m.session_token matches Some(token) ==> asks_for(
            m.typed(choice),
            presence_request(m.auth_url, false, token),
        ) && m.typed(choice).replied(reply).request() is Exit,
{
    lemma_choices_differ();
}

/// Whether the client, on the way from one state to another, came to say these things in this
/// order, and otherwise changed at most what it is in the middle of.
pub open spec fn only_said(m: AppModel, n: AppModel, outputs: Seq<OutputModel>) -> bool {
    &&& n == (AppModel { screen: n.screen, out: n.out, ..m })
    &&& n.out =~= m.out + outputs
}

/// The client after a line was typed.
pub open spec fn line(m: AppModel, line: Option<Text>) -> AppModel {
    m.typed(line)
}

/// Whatever happens goes to the part of the client that takes such things, whole.
pub proof fn events_go_where_they_belong(m: AppModel, event: EventModel)
    ensures
        m.next(event) == match event {
            EventModel::Line(line) => m.typed(line),
            EventModel::Drained(events) => m.drained(events),
            EventModel::Plain(reply) => m.replied(reply),
            EventModel::SessionUser(reply, user) => m.got_user(reply, user),
            EventModel::Profile(reply, profile) => m.got_profile(reply, profile),
            EventModel::Stored(outcome) => m.stored(outcome),
            EventModel::Token(token) => m.got_saved_token(token),
            EventModel::Accounts(accounts) => m.got_accounts(accounts),
            EventModel::Connected(outcome) => m.socket_opened(outcome),
            EventModel::Sent(outcome) => m.sent(outcome),
            EventModel::Received(receipt) => m.received(receipt),
        },
{
}

/// A report of success.
pub open spec fn success(text: Text) -> OutputModel {
    OutputModel::Line(ok_text(text))
}

/// A report of failure.
pub open spec fn failure(text: Text) -> OutputModel {
    OutputModel::ErrorLine(error_text(text))
}

/// The request that tells the service whether the user of a session is online.
pub open spec fn presence(auth_url: Text, path: Text, token: Text) -> RequestModel {
    RequestModel::Plain(
        HttpRequest {
            method: Method::Get,
            url: endpoint_url(auth_url, path),
            query: seq![("session_tocken"@, token)],
            body: JsonBody::Empty,
        },
    )
}

/// The request for the profile of a user.
pub open spec fn profile_of(auth_url: Text, token: Text, username: Text) -> RequestModel {
    RequestModel::Profile(
        HttpRequest {
            method: Method::Get,
            url: endpoint_url(auth_url, "getuserinfo"@),
            query: seq![("session_tocken"@, token), ("username"@, username)],
            body: JsonBody::Empty,
        },
    )
}

/// The questions that must be answered: a blank answer, or a line that could not be read, is
/// reported, and the same question is put again.
pub proof fn blanks_are_refused(m: AppModel, blank: Option<Text>)
    requires
        answer(blank).len() == 0,
        match m.screen {
            Screen::RegistrationUsername { .. } => true,
            Screen::RegistrationPassword { .. } => true,
            Screen::RegistrationEmail { .. } => true,
            Screen::RegistrationPhone { .. } => true,
            Screen::LoginDetails { .. } => true,
            Screen::LoginPassword { .. } => true,
            Screen::AddChatUsername => true,
            Screen::MessageText { .. } => true,
            Screen::RenamingChat { .. } => true,
            Screen::ProfileUsername => true,
            Screen::ProfileValue { .. } => true,
            _ => false,
        },
    ensures
        line(m, blank).screen == m.screen,
        line(m, blank).request() == m.request(),
        m.request() is Ask,
        only_said(m, line(m, blank), seq![failure("Value cannot be empty"@)]),
{
}

} // verus!
