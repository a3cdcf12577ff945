//! How users register, log in, switch accounts, log out and leave.

use crate::app::{AfterConnect, OutputModel, RegistrationMode, RequestModel, ScreenModel};
use crate::auth::{
    endpoint_url, json_outcome, plain_body, plain_ok, HttpReply, HttpRequest, JsonBody,
    LoginRequest, Method, PhoneRegistration, SessionPayload,
};
use crate::console::{accounts_text, answer, title_text, user_text, REGISTRATION_MENU};
use crate::journeys::{failure, lemma_choices_differ, line, only_said, presence, success};
use crate::model::AppModel;
use crate::text::{parsed_number, same_ignoring_case, Text};
use crate::wire::SessionUserInfo;
use vstd::prelude::*;

verus! {

proof fn lemma_registration_mode(m: AppModel, menu: Option<Text>, mode: Option<Text>)
    requires
        m.screen is MainChoice,
        answer(menu) == "1"@,
    ensures
        line(m, menu).request() == RequestModel::Ask("Registration mode"@),
        only_said(
            m,
            line(line(m, menu), mode),
            seq![
                OutputModel::Line(title_text("Registration"@)),
                OutputModel::Line(REGISTRATION_MENU@),
            ],
        ),
        only_said(line(m, menu), line(line(m, menu), mode), Seq::empty()),
        line(line(m, menu), mode).screen == if answer(mode) == "1"@ {
            ScreenModel::RegistrationUsername { mode: RegistrationMode::Full }
        } else if answer(mode) == "2"@ {
            ScreenModel::RegistrationUsername { mode: RegistrationMode::EmailOnly }
        } else if answer(mode) == "3"@ {
            ScreenModel::RegistrationUsername { mode: RegistrationMode::PhoneOnly }
        } else {
            ScreenModel::MainPause
        },
{
    lemma_choices_differ();
    let asked = line(m, menu);
    assert(asked.screen is RegistrationChoice);
}

proof fn lemma_registration_name(
    m: AppModel,
    mode: RegistrationMode,
    username: Option<Text>,
    password: Option<Text>,
)
    requires
        m.screen == (ScreenModel::RegistrationUsername { mode }),
        answer(username).len() > 0,
        answer(password).len() > 0,
    ensures
        m.request() == RequestModel::Ask("username"@),
        line(m, username).request() == RequestModel::Ask("password"@),
        only_said(m, line(line(m, username), password), Seq::empty()),
        line(line(m, username), password).screen == match mode {
            RegistrationMode::PhoneOnly => ScreenModel::RegistrationPhone {
                username: answer(username),
                password: answer(password),
                email: None,
            },
            _ => ScreenModel::RegistrationEmail {
                mode,
                username: answer(username),
                password: answer(password),
            },
        },
{
    let named = line(m, username);
    assert(named.screen == (ScreenModel::RegistrationPassword { mode, username: answer(username) }));
}

proof fn lemma_registered(m: AppModel, reply: HttpReply<Text>)
    requires
        m.screen is Registering,
    ensures
        only_said(m, m.replied(reply), seq![registration_report(reply)]),
        m.replied(reply).screen is MainPause,
{
}

/// From the main menu, a registration with everything leads over four questions to a request that
/// holds the four answers, and the reply decides what is reported.
pub proof fn full_registrations_from_menu_to_report(
    m: AppModel,
    menu: Option<Text>,
    mode: Option<Text>,
    username: Option<Text>,
    password: Option<Text>,
    email: Option<Text>,
    phone: Option<Text>,
    reply: HttpReply<Text>,
)
    requires
        m.screen is MainChoice,
        answer(menu) == "1"@,
        answer(mode) == "1"@,
        answer(username).len() > 0,
        answer(password).len() > 0,
        answer(email).len() > 0,
        answer(phone).len() > 0,
    ensures
        ({
            let named = line(line(line(m, menu), mode), username);
            let sent = line(line(line(named, password), email), phone);
            let done = sent.replied(reply);
            &&& line(m, menu).request() == RequestModel::Ask("Registration mode"@)
            &&& line(line(m, menu), mode).request() == RequestModel::Ask("username"@)
            &&& named.request() == RequestModel::Ask("password"@)
            &&& line(named, password).request() == RequestModel::Ask("email"@)
            &&& line(line(named, password), email).request() == RequestModel::Ask(
                "phone_number (+79991234567)"@,
            )
            &&& sent.request() == RequestModel::Plain(
                (HttpRequest {
                    method: Method::Get,
                    url: endpoint_url(m.auth_url, "adduser"@),
                    query: seq![
                        ("username"@, answer(username)),
                        ("password"@, answer(password)),
                        ("email"@, answer(email)),
                        ("phone_number"@, answer(phone)),
                    ],
                    body: JsonBody::Empty,
                }),
            )
            &&& only_said(
                m,
                sent,
                seq![
                    OutputModel::Line(title_text("Registration"@)),
                    OutputModel::Line(REGISTRATION_MENU@),
                ],
            )
            &&& only_said(sent, done, seq![registration_report(reply)])
            &&& done.screen is MainPause
        }),
{
    lemma_registration_mode(m, menu, mode);
    let chosen = line(line(m, menu), mode);
    lemma_registration_name(chosen, RegistrationMode::Full, username, password);
    let known = line(line(chosen, username), password);
    let reached = line(known, email);
    assert(reached.screen == (ScreenModel::RegistrationPhone {
        username: answer(username),
        password: answer(password),
        email: Some(answer(email)),
    }));
    lemma_registered(line(reached, phone), reply);
}

/// What is reported of a registration.
pub open spec fn registration_report(reply: HttpReply<Text>) -> OutputModel {
    match plain_ok(reply) {
        Ok(()) => success("User registered"@),
        Err(e) => failure("Register failed: "@ + e),
    }
}

/// From the main menu, a registration with an email address only leads over three questions to a
/// request that holds the three answers, and the reply decides what is reported.
pub proof fn email_registrations_from_menu_to_report(
    m: AppModel,
    menu: Option<Text>,
    mode: Option<Text>,
    username: Option<Text>,
    password: Option<Text>,
    email: Option<Text>,
    reply: HttpReply<Text>,
)
    requires
        m.screen is MainChoice,
        answer(menu) == "1"@,
        answer(mode) == "2"@,
        answer(username).len() > 0,
        answer(password).len() > 0,
        answer(email).len() > 0,
    ensures
        ({
            let named = line(line(line(m, menu), mode), username);
            let sent = line(line(named, password), email);
            let done = sent.replied(reply);
            &&& line(line(m, menu), mode).request() == RequestModel::Ask("username"@)
            &&& named.request() == RequestModel::Ask("password"@)
            &&& line(named, password).request() == RequestModel::Ask("email"@)
            &&& sent.request() == RequestModel::Plain(
                (HttpRequest {
                    method: Method::Get,
                    url: endpoint_url(m.auth_url, "adduserwithoutphone"@),
                    query: seq![
                        ("username"@, answer(username)),
                        ("password"@, answer(password)),
                        ("email"@, answer(email)),
                    ],
                    body: JsonBody::Empty,
                }),
            )
            &&& only_said(
                m,
                sent,
                seq![
                    OutputModel::Line(title_text("Registration"@)),
                    OutputModel::Line(REGISTRATION_MENU@),
                ],
            )
            &&& only_said(sent, done, seq![registration_report(reply)])
            &&& done.screen is MainPause
        }),
{
    lemma_choices_differ();
    lemma_registration_mode(m, menu, mode);
    let chosen = line(line(m, menu), mode);
    lemma_registration_name(chosen, RegistrationMode::EmailOnly, username, password);
    lemma_registered(line(line(line(chosen, username), password), email), reply);
}

/// From the main menu, a registration with a phone number only leads over three questions to a
/// request that posts the three answers, and the reply decides what is reported. Any other choice
/// leads back and says nothing.
pub proof fn phone_registrations_from_menu_to_report(
    m: AppModel,
    menu: Option<Text>,
    mode: Option<Text>,
    username: Option<Text>,
    password: Option<Text>,
    phone: Option<Text>,
    reply: HttpReply<Text>,
    other: Option<Text>,
)
    requires
        m.screen is MainChoice,
        answer(menu) == "1"@,
        answer(mode) == "3"@,
        answer(username).len() > 0,
        answer(password).len() > 0,
        answer(phone).len() > 0,
    ensures
        ({
            let named = line(line(line(m, menu), mode), username);
            let sent = line(line(named, password), phone);
            let done = sent.replied(reply);
            &&& line(line(m, menu), mode).request() == RequestModel::Ask("username"@)
            &&& named.request() == RequestModel::Ask("password"@)
            &&& line(named, password).request() == RequestModel::Ask("phone_number (+79991234567)"@)
            &&& sent.request() == RequestModel::Plain(
                (HttpRequest {
                    method: Method::Post,
                    url: endpoint_url(m.auth_url, "adduserwithoutemail"@),
                    query: Seq::<(Text, Text)>::empty(),
                    body: JsonBody::Phone(
                        (PhoneRegistration {
                            username: answer(username),
                            password: answer(password),
                            phone_number: answer(phone),
                        }),
                    ),
                }),
            )
            &&& only_said(
                m,
                sent,
                seq![
                    OutputModel::Line(title_text("Registration"@)),
                    OutputModel::Line(REGISTRATION_MENU@),
                ],
            )
            &&& only_said(sent, done, seq![registration_report(reply)])
            &&& done.screen is MainPause
        }),
        answer(other) != "1"@ && answer(other) != "2"@ && answer(other) != "3"@ ==> ({
            let left = line(line(m, menu), other);
            &&& left.screen is MainPause
            &&& only_said(line(m, menu), left, Seq::empty())
        }),
{
    lemma_choices_differ();
    lemma_registration_mode(m, menu, mode);
    lemma_registration_mode(m, menu, other);
    let chosen = line(line(m, menu), mode);
    lemma_registration_name(chosen, RegistrationMode::PhoneOnly, username, password);
    lemma_registered(line(line(line(chosen, username), password), phone), reply);
}

/// From the main menu, a login leads over three questions to a request that names the kind of
/// login, phone where the user typed that word in any case of letters and email otherwise, and
/// holds the two answers and the configured lifetime.
pub proof fn logins_from_menu_to_request(
    m: AppModel,
    menu: Option<Text>,
    mode: Option<Text>,
    details: Option<Text>,
    password: Option<Text>,
)
    requires
        m.screen is MainChoice,
        answer(menu) == "2"@,
        answer(details).len() > 0,
        answer(password).len() > 0,
    ensures
        ({
            let kind = if same_ignoring_case(answer(mode), "phone"@) {
                "phone"@
            } else {
                "email"@
            };
            let chosen = line(line(m, menu), mode);
            let sent = line(line(chosen, details), password);
            &&& line(m, menu).request() == RequestModel::Ask("Mode (email/phone)"@)
            &&& chosen.request() == RequestModel::Ask(kind)
            &&& line(chosen, details).request() == RequestModel::Ask("password"@)
            &&& sent.request() == RequestModel::Plain(
                (HttpRequest {
                    method: Method::Post,
                    url: endpoint_url(m.auth_url, "login"@),
                    query: Seq::<(Text, Text)>::empty(),
                    body: JsonBody::Login(
                        (LoginRequest {
                            login_type: kind,
                            login_details: answer(details),
                            password: answer(password),
                            live_time: m.config.session.default_lifetime_seconds,
                        }),
                    ),
                }),
            )
            &&& sent.screen is LoggingIn
            &&& only_said(m, sent, seq![OutputModel::Line(title_text("Login"@))])
        }),
{
    lemma_choices_differ();
}

/// The reply to a login is the token of a session, whole: the service is asked who that session
/// belongs to. A refused login is reported with the whole reason.
pub proof fn login_replies_are_tokens(m: AppModel, reply: HttpReply<Text>)
    requires
        m.screen is LoggingIn,
    ensures
        ({
            let n = m.replied(reply);
            match plain_body(reply) {
                Ok(token) => {
                    &&& n.request() == RequestModel::SessionUser(
                        (HttpRequest {
                            method: Method::Post,
                            url: endpoint_url(m.auth_url, "sessionuserinfo"@),
                            query: Seq::<(Text, Text)>::empty(),
                            body: JsonBody::Session((SessionPayload { session_tocken: token })),
                        }),
                    )
                    &&& n.screen == (ScreenModel::ResolvingSession { token })
                    &&& only_said(m, n, Seq::empty())
                },
                Err(e) => n.screen is MainPause && only_said(
                    m,
                    n,
                    seq![failure("Login failed: "@ + e)],
                ),
            }
        }),
{
}

/// Where the service names the user of a session, the client is that user with that token: it saves
/// the token under the user's name, notes the name, tells that the user is online and says so, and
/// then connects. Whatever cannot be saved is reported and stops nothing.
pub proof fn logins_are_saved_and_told(
    m: AppModel,
    token: Text,
    reply: HttpReply<Text>,
    parsed: Result<SessionUserInfo<Text>, Text>,
    reason: Text,
    online: HttpReply<Text>,
)
    requires
        m.screen == (ScreenModel::ResolvingSession { token }),
    ensures
        ({
            let resolved = m.got_user(reply, parsed);
            match json_outcome(reply, parsed) {
                Ok(me) => {
                    let saved = resolved.stored(Ok(()));
                    let unsaved = resolved.stored(Err(reason));
                    let noted = saved.stored(Ok(()));
                    let unnoted = saved.stored(Err(reason));
                    &&& resolved == (AppModel {
                        session_token: Some(token),
                        me: Some(me),
                        current_username: Some(me.username),
                        screen: resolved.screen,
                        ..m
                    })
                    &&& resolved.request() == (RequestModel::SaveSession {
                        username: me.username,
                        token,
                    })
                    &&& saved.request() == (RequestModel::RememberAccount {
                        username: me.username,
                    })
                    &&& only_said(resolved, saved, Seq::empty())
                    &&& only_said(
                        resolved,
                        unsaved,
                        seq![failure("Failed to save session: "@ + reason)],
                    )
                    &&& only_said(
                        saved,
                        noted,
                        seq![success("Session saved for: "@ + me.username)],
                    )
                    &&& only_said(
                        saved,
                        unnoted,
                        seq![failure("Failed to add to sessions list: "@ + reason)],
                    )
                    &&& tells_online(noted, token, me, online)
                    &&& tells_online(unnoted, token, me, online)
                    &&& tells_online(unsaved, token, me, online)
                },
                Err(e) => resolved.screen is MainPause && only_said(
                    m,
                    resolved,
                    seq![failure("Session resolve failed: "@ + e)],
                ),
            }
        }),
{
}

/// Whether the client tells that the user is online, says that the login succeeded whatever the
/// reply is, and connects unless there is a socket.
pub open spec fn tells_online(
    m: AppModel,
    token: Text,
    me: SessionUserInfo<Text>,
    online: HttpReply<Text>,
) -> bool {
    let n = m.replied(online);
    let told = success("Login successful: "@ + user_text(me));
    &&& m.request() == presence(m.auth_url, "online"@, token)
    &&& m.connected ==> n.screen is MainPause && only_said(
        m,
        n,
        seq![told, success("Chat socket is already connected"@)],
    )
    &&& !m.connected ==> n.request() == (RequestModel::Connect { url: m.config.chat.ws_url })
        && n.screen == (ScreenModel::Connecting { after: AfterConnect::Menu, token }) && only_said(
        m,
        n,
        seq![told],
    )
}

/// A logout tells the service with the token of the session, then removes the saved token and the
/// name of the account that is logged in, reporting what fails, and ends without a session.
pub proof fn logouts_from_menu_to_report(
    m: AppModel,
    choice: Option<Text>,
    token: Text,
    account: Text,
    offline: HttpReply<Text>,
    reason: Text,
    other: Text,
)
    requires
        m.screen is MainChoice,
        answer(choice) == "7"@,
        m.session_token == Some(token),
        m.current_username == Some(account),
    ensures
        ({
            let told = line(m, choice);
            let deleting = told.replied(offline);
            let deleted = deleting.stored(Ok(()));
            let undeleted = deleting.stored(Err(reason));
            &&& told.request() == presence(m.auth_url, "offline"@, token)
            &&& only_said(m, told, Seq::empty())
            &&& deleting.request() == (RequestModel::DeleteSession { username: account })
            &&& only_said(told, deleting, Seq::empty())
            &&& deleted.request() == (RequestModel::ForgetAccount { username: account })
            &&& only_said(deleting, deleted, Seq::empty())
            &&& undeleted.request() == (RequestModel::ForgetAccount { username: account })
            &&& only_said(
                deleting,
                undeleted,
                seq![failure("Failed to delete session: "@ + reason)],
            )
            &&& session_ended(
                deleted,
                deleted.stored(Ok(())),
                Seq::empty(),
            )
            &&& session_ended(
                undeleted,
                undeleted.stored(Err(other)),
                seq![failure("Failed to remove from sessions list: "@ + other)],
            )
        }),
{
    lemma_choices_differ();
}

/// Whether the client said these things, dropped its socket, said that it logged out, and knows no
/// session any more.
pub open spec fn session_ended(m: AppModel, n: AppModel, said: Seq<OutputModel>) -> bool {
    &&& n.screen is MainPause
    &&& n == (AppModel {
        session_token: None,
        me: None,
        current_username: None,
        connected: false,
        screen: n.screen,
        out: n.out,
        ..m
    })
    &&& n.out =~= m.out + (said + seq![OutputModel::CloseSocket, success("Logged out"@)])
}

/// Switching shows every saved account, and a number picks the one at that place, counted from one,
/// whose token the keyring is asked for. Any other answer is reported, and nothing is switched.
pub proof fn numbers_pick_their_accounts(
    m: AppModel,
    menu: Option<Text>,
    accounts: Seq<Text>,
    choice: Option<Text>,
)
    requires
        m.screen is MainChoice,
        answer(menu) == "8"@,
        accounts.len() <= usize::MAX,
    ensures
        ({
            let wanted = line(m, menu);
            let listed = wanted.got_accounts(accounts);
            let n = line(listed, choice);
            &&& wanted.request() is LoadAccounts
            &&& only_said(m, wanted, seq![OutputModel::Line(title_text("Switch Account"@))])
            &&& accounts.len() == 0 ==> listed.screen is MainPause && only_said(
                wanted,
                listed,
                seq![failure("No saved sessions found"@)],
            )
            &&& accounts.len() > 0 ==> {
                &&& listed.request() == RequestModel::Ask("Select account"@)
                &&& only_said(wanted, listed, seq![OutputModel::Line(accounts_text(accounts))])
                &&& if answer(choice) == "0"@ {
                    n.screen is MainPause && only_said(listed, n, Seq::empty())
                } else {
                    match parsed_number(answer(choice)) {
                        Some(k) => if 1 <= k <= accounts.len() {
                            &&& n.request() == (RequestModel::LoadSession {
                                username: accounts[k - 1],
                            })
                            &&& n.screen == (ScreenModel::SwitchToken { username: accounts[k - 1] })
                            &&& only_said(listed, n, Seq::empty())
                        } else {
                            n.screen is MainPause && only_said(
                                listed,
                                n,
                                seq![failure("Invalid selection"@)],
                            )
                        },
                        None => n.screen is MainPause && only_said(
                            listed,
                            n,
                            seq![failure("Invalid input"@)],
                        ),
                    }
                }
            }
        }),
{
    lemma_choices_differ();
}

/// The saved token is put to the service; where the service confirms it, the client is the user
/// that the service names, under the account that was picked, tells that the user is online, says
/// so, and connects anew. Otherwise nothing is switched, and the whole reason is reported.
pub proof fn switches_from_token_to_connection(
    m: AppModel,
    username: Text,
    token: Text,
    reply: HttpReply<Text>,
    parsed: Result<SessionUserInfo<Text>, Text>,
    online: HttpReply<Text>,
)
    requires
        m.screen == (ScreenModel::SwitchToken { username }),
    ensures
        ({
            let found = m.got_saved_token(Some(token));
            let missing = m.got_saved_token(None);
            let checked = found.got_user(reply, parsed);
            let n = checked.replied(online);
            &&& missing.screen is MainPause
            &&& only_said(m, missing, seq![failure("Session not found for user: "@ + username)])
            &&& found.request() == RequestModel::SessionUser(
                (HttpRequest {
                    method: Method::Post,
                    url: endpoint_url(m.auth_url, "sessionuserinfo"@),
                    query: Seq::<(Text, Text)>::empty(),
                    body: JsonBody::Session((SessionPayload { session_tocken: token })),
                }),
            )
            &&& only_said(m, found, Seq::empty())
            &&& match json_outcome(reply, parsed) {
                Ok(me) => {
                    &&& checked == (AppModel {
                        session_token: Some(token),
                        me: Some(me),
                        current_username: Some(username),
                        screen: checked.screen,
                        ..m
                    })
                    &&& checked.request() == presence(m.auth_url, "online"@, token)
                    &&& n.request() == (RequestModel::Connect { url: m.config.chat.ws_url })
                    &&& n.screen == (ScreenModel::Connecting { after: AfterConnect::Menu, token })
                    &&& n == (AppModel {
                        connected: false,
                        screen: n.screen,
                        out: n.out,
                        ..checked
                    })
                    &&& n.out =~= checked.out + (seq![
                            success("Switched to account: "@ + user_text(me)),
                        ] + (if m.connected {
                            seq![OutputModel::CloseSocket]
                        } else {
                            Seq::empty()
                        }))
                },
                Err(e) => checked.screen is MainPause && only_said(
                    m,
                    checked,
                    seq![failure("Failed to validate saved session: "@ + e)],
                ),
            }
        }),
{
}

/// The end tells the service with the token of the session, if there is one, takes leave whatever
/// the reply is, and keeps everything that the client knows.
pub proof fn the_end_takes_leave(
    m: AppModel,
    choice: Option<Text>,
    token: Text,
    reply: HttpReply<Text>,
)
    requires
        m.screen is MainChoice,
        answer(choice) == "0"@,
    ensures
        ({
            let asked = line(m, choice);
            let left = asked.replied(reply);
            let bye = OutputModel::Line("\x1b[32m"@ + "Bye."@ + "\x1b[0m"@);
            &&& m.session_token is None ==> asked.request() is Exit && only_said(m, asked, seq![bye])
            &&& m.session_token == Some(token) ==> {
                &&& asked.request() == presence(m.auth_url, "offline"@, token)
                &&& only_said(m, asked, Seq::empty())
                &&& left.request() is Exit
                &&& only_said(asked, left, seq![bye])
            }
        }),
{
    lemma_choices_differ();
}

} // verus!
