//! What holds of the client whatever happens.

use crate::app::{
    AfterConnect, EventModel, OpenChat, Output, OutputModel, Receipt, Registration, Request,
    RequestModel, Screen, ScreenModel, SendOutcome,
};
use crate::auth::{json_outcome, profile_request, HttpReply, HttpRequestModel};
use crate::chats::{
    chat_position, chats_stay_distinct, counting_keeps_every_chat, distinct_chats,
    ensuring_adds_at_most_one_chat, has_chat, one_more, places_are_found, with_read_at, ChatEntry,
};
use crate::console::{answer, chat_list_text, error_text, main_menu_text, CHATS_MENU, CYAN};
use crate::model::{event_line, AppModel};
use crate::text::{decimal, decimal_is_read_back, short, Text};
use crate::wire::{
    ClientAction, ConnectionInfo, ServerEvent, ServerEventModel, SessionUserInfo, StoredMessage,
    UserProfile,
};
use vstd::prelude::*;

verus! {

/// Whether an open chat is still in the list, in its place.
pub open spec fn is_listed(chats: Seq<ChatEntry<Text>>, chat: OpenChat<Text>) -> bool {
    chat.index < chats.len() && chats[chat.index as int].user_id == chat.user_id
}

/// Whether what the client is in the middle of fits the rest of its state: it uses the token of
/// the session, it waits for events only where there is a socket, and the open chat is listed.
pub open spec fn screen_fits(m: AppModel) -> bool {
    match m.screen {
        Screen::Exiting { token } => m.session_token == Some(token),
        Screen::SavingSession { token, me } => m.session_token == Some(token) && m.me == Some(me)
            && m.current_username == Some(me.username),
        Screen::RememberingSession { token, me } => m.session_token == Some(token) && m.me == Some(
            me,
        ) && m.current_username == Some(me.username),
        Screen::GoingOnline { token, me } => m.session_token == Some(token) && m.me == Some(me),
        Screen::Connecting { token, .. } => m.session_token == Some(token) && !m.connected,
        Screen::SendingJoin { token, .. } => m.session_token == Some(token) && !m.connected,
        Screen::Joining { .. } => m.connected,
        Screen::SendingPing { token } => m.session_token == Some(token) && m.connected,
        Screen::Pinging => m.connected,
        Screen::ChatsDrain => m.connected,
        Screen::ChatsChoice => m.connected,
        Screen::AddChatUsername => m.connected,
        Screen::AddChatLookup { token, .. } => m.session_token == Some(token) && m.connected,
        Screen::AddChatLabel { .. } => m.connected,
        Screen::OpenChatIndex => m.connected,
        Screen::RemoveChatIndex => m.connected,
        Screen::SendingListConnections => m.connected,
        Screen::AwaitingConnections => m.connected,
        Screen::RequestingHistory { chat } => m.connected && is_listed(m.chats, chat),
        Screen::AwaitingHistory { chat } => m.connected && is_listed(m.chats, chat),
        Screen::ChatChoice { chat } => m.connected && is_listed(m.chats, chat),
        Screen::MessageText { chat } => m.connected && is_listed(m.chats, chat),
        Screen::SendingMessage { chat, .. } => m.connected && is_listed(m.chats, chat),
        Screen::SendingMarkRead { chat } => m.connected && is_listed(m.chats, chat),
        Screen::RenamingChat { chat } => m.connected && is_listed(m.chats, chat),
        Screen::ChatPause { chat } => m.connected && is_listed(m.chats, chat),
        Screen::ProfileChoice => m.session_token is Some,
        Screen::ProfileUsername => m.session_token is Some,
        Screen::ProfileLookup { token, .. } => m.session_token == Some(token),
        Screen::ProfileValue { token, .. } => m.session_token == Some(token),
        Screen::ProfileUpdate { token, .. } => m.session_token == Some(token),
        Screen::ProfilePause => m.session_token is Some,
        Screen::LogoutOffline { token } => m.session_token == Some(token),
        Screen::LogoutDelete { username } => m.current_username == Some(username),
        Screen::LogoutForget { username } => m.current_username == Some(username),
        Screen::SwitchOnline { token, me } => m.session_token == Some(token) && m.me == Some(me),
        _ => true,
    }
}

/// Whether the parts of the client's state agree: there is a token exactly where there are a user
/// and an account, and a socket only where there is a session.
pub open spec fn coherent(m: AppModel) -> bool {
    &&& m.session_token is Some <==> m.me is Some
    &&& m.session_token is Some <==> m.current_username is Some
    &&& m.connected ==> m.session_token is Some
    &&& screen_fits(m)
}

/// Whether a chat list holds the chats of another one, in their places and under their labels, and
/// perhaps more at the end.
pub open spec fn extends(longer: Seq<ChatEntry<Text>>, chats: Seq<ChatEntry<Text>>) -> bool {
    &&& longer.len() >= chats.len()
    &&& forall|i: int|
        0 <= i < chats.len() ==> (#[trigger] longer[i]).user_id == chats[i].user_id
            && longer[i].label == chats[i].label
}

/// What is stored after the things to be done were done, if `stored` was stored before.
pub open spec fn stored_after(
    stored: Seq<ChatEntry<Text>>,
    out: Seq<OutputModel>,
) -> Seq<ChatEntry<Text>>
    decreases out.len(),
{
    if out.len() == 0 {
        stored
    } else {
        match out.last() {
            Output::SaveChats(chats) => chats,
            _ => stored_after(stored, out.drop_last()),
        }
    }
}

/// Whether a client said more than another one, and nothing else before; and whether what is
/// stored is its chat list, if that was so before; and whether its chats are of distinct users, if
/// they were before.
pub open spec fn keeps_records(after: AppModel, m: AppModel, stored: Seq<ChatEntry<Text>>) -> bool {
    &&& m.out.is_prefix_of(after.out)
    &&& stored_after(stored, m.out) == m.chats ==> stored_after(stored, after.out) == after.chats
    &&& distinct_chats(m.chats) ==> distinct_chats(after.chats)
}

/// Whether a client differs from another one only in its chat list, where it kept every chat, and
/// in what it has to say.
pub open spec fn only_noted(after: AppModel, m: AppModel) -> bool {
    &&& after == (AppModel { chats: after.chats, out: after.out, ..m })
    &&& extends(after.chats, m.chats)
}

broadcast proof fn lemma_said(m: AppModel, output: OutputModel, stored: Seq<ChatEntry<Text>>)
    ensures
        #[trigger] stored_after(stored, m.say(output).out) == match output {
            Output::SaveChats(chats) => chats,
            _ => stored_after(stored, m.out),
        },
{
    assert(m.out.push(output).drop_last() =~= m.out);
}

proof fn lemma_ensure_chat(
    m: AppModel,
    user_id: Text,
    label: Option<Text>,
    stored: Seq<ChatEntry<Text>>,
)
    ensures
        only_noted(m.ensure_chat(user_id, label), m),
        m.ensure_chat(user_id, label).chats.len() <= m.chats.len() + 1,
        keeps_records(m.ensure_chat(user_id, label), m, stored),
{
    broadcast use lemma_said;

    if distinct_chats(m.chats) {
        chats_stay_distinct(m.chats, user_id, label, Seq::empty(), 0);
    }
}

proof fn lemma_counts(m: AppModel, user_id: Text, stored: Seq<ChatEntry<Text>>)
    ensures
        only_noted(m.count_message(user_id), m),
        m.count_message(user_id).chats.len() == m.chats.len(),
        m.read_messages(user_id).chats.len() == m.chats.len(),
        keeps_records(m.count_message(user_id), m, stored),
        only_noted(m.read_messages(user_id), m),
        keeps_records(m.read_messages(user_id), m, stored),
{
    broadcast use lemma_said;

    counting_keeps_every_chat(m.chats, user_id);
    if distinct_chats(m.chats) {
        chats_stay_distinct(m.chats, user_id, None, Seq::empty(), 0);
    }
}

proof fn lemma_handle(m: AppModel, event: ServerEventModel, stored: Seq<ChatEntry<Text>>)
    ensures
        only_noted(m.handle(event), m),
        m.handle(event).chats.len() <= m.chats.len() + 1,
        keeps_records(m.handle(event), m, stored),
{
    broadcast use lemma_said;

    match event {
        ServerEvent::Message { message } => {
            let from_peer = message.sender_id != m.my_id();
            let peer = if from_peer {
                message.sender_id
            } else {
                message.receiver_id
            };
            let listed = m.ensure_chat(peer, None);
            lemma_ensure_chat(m, peer, None, stored);
            lemma_counts(listed, peer, stored);
        },
        ServerEvent::MarkReadResult { with_user_id, updated } => {
            let told = m.line(
                event_line(
                    CYAN@,
                    "mark_read for "@ + with_user_id + " updated "@ + decimal(updated as nat)
                        + " messages"@,
                ),
            );
            lemma_counts(told, with_user_id, stored);
        },
        _ => {},
    }
}

proof fn lemma_handle_first(
    m: AppModel,
    events: Seq<ServerEventModel>,
    n: nat,
    stored: Seq<ChatEntry<Text>>,
)
    ensures
        only_noted(m.handle_first(events, n), m),
        keeps_records(m.handle_first(events, n), m, stored),
    decreases n,
{
    if n > 0 {
        let before = m.handle_first(events, (n - 1) as nat);
        lemma_handle_first(m, events, (n - 1) as nat, stored);
        lemma_handle(before, events[n - 1], stored);
    }
}

proof fn lemma_list_changes(
    m: AppModel,
    a: Text,
    chat: OpenChat<Text>,
    stored: Seq<ChatEntry<Text>>,
)
    ensures
        keeps_records(m.open_chat(a), m, stored),
        keeps_records(m.remove_chat(a), m, stored),
        keeps_records(m.rename_chat(chat, a), m, stored),
{
    broadcast use lemma_said;

    if distinct_chats(m.chats) {
        chats_stay_distinct(m.chats, a, None, a, chat.index as int);
        if let Some(i) = AppModel::chosen(a, m.chats.len()) {
            chats_stay_distinct(m.chats, a, None, a, i);
        }
    }
}

proof fn lemma_answered(m: AppModel, a: Text, stored: Seq<ChatEntry<Text>>)
    ensures
        keeps_records(m.answered(a), m, stored),
{
    broadcast use lemma_said;

    match m.screen {
        Screen::AddChatLabel { user_id, .. } => {
            let label = if a.len() == 0 {
                None
            } else {
                Some(a)
            };
            lemma_ensure_chat(m, user_id, label, stored);
        },
        Screen::OpenChatIndex => {
            lemma_list_changes(m, a, arbitrary(), stored);
        },
        Screen::RemoveChatIndex => {
            lemma_list_changes(m, a, arbitrary(), stored);
        },
        Screen::RenamingChat { chat } => {
            lemma_list_changes(m, a, chat, stored);
        },
        _ => {},
    }
}

proof fn lemma_received(
    m: AppModel,
    receipt: Receipt<ServerEventModel>,
    stored: Seq<ChatEntry<Text>>,
)
    ensures
        keeps_records(m.received(receipt), m, stored),
{
    broadcast use lemma_said;

    if let Receipt::Got(event) = receipt {
        lemma_handle(m, event, stored);
    }
}

/// Whatever happens, the client takes back nothing that it had to say; what is stored is the chat
/// list, if it was so before; and no two chats are with the same user, if it was so before.
pub proof fn every_step_keeps_records(
    m: AppModel,
    event: EventModel,
    stored: Seq<ChatEntry<Text>>,
)
    ensures
        keeps_records(m.next(event), m, stored),
{
    broadcast use lemma_said;

    match event {
        EventModel::Line(line) => {
            lemma_answered(m, answer(line), stored);
        },
        EventModel::Drained(events) => {
            lemma_handle_first(m, events, events.len(), stored);
        },
        EventModel::Received(receipt) => {
            lemma_received(m, receipt, stored);
        },
        _ => {},
    }
}

/// The parts of the state agree before anything has happened.
pub proof fn a_new_client_is_coherent(m: AppModel)
    requires
        m.session_token is None,
        m.me is None,
        !m.connected,
        m.current_username is None,
        m.screen == Screen::<Text, Seq<Text>>::MainDrain,
    ensures
        coherent(m),
{
}

proof fn lemma_answered_coherent(m: AppModel, a: Text)
    requires
        coherent(m),
    ensures
        coherent(m.answered(a)),
{
    if let Screen::AddChatLabel { user_id, .. } = m.screen {
        let label = if a.len() == 0 {
            None
        } else {
            Some(a)
        };
        lemma_ensure_chat(m, user_id, label, Seq::empty());
    }
}

proof fn lemma_typed_coherent(m: AppModel, line: Option<Text>)
    requires
        coherent(m),
    ensures
        coherent(m.typed(line)),
{
    lemma_answered_coherent(m, answer(line));
}

proof fn lemma_drained_coherent(m: AppModel, events: Seq<ServerEventModel>)
    requires
        coherent(m),
    ensures
        coherent(m.drained(events)),
{
    lemma_handle_first(m, events, events.len(), Seq::empty());
}

proof fn lemma_replied_coherent(m: AppModel, reply: HttpReply<Text>)
    requires
        coherent(m),
    ensures
        coherent(m.replied(reply)),
{
}

proof fn lemma_got_user_coherent(
    m: AppModel,
    reply: HttpReply<Text>,
    parsed: Result<SessionUserInfo<Text>, Text>,
)
    requires
        coherent(m),
    ensures
        coherent(m.got_user(reply, parsed)),
{
}

proof fn lemma_got_profile_coherent(
    m: AppModel,
    reply: HttpReply<Text>,
    parsed: Result<UserProfile<Text>, Text>,
)
    requires
        coherent(m),
    ensures
        coherent(m.got_profile(reply, parsed)),
{
}

proof fn lemma_stored_coherent(m: AppModel, outcome: Result<(), Text>)
    requires
        coherent(m),
    ensures
        coherent(m.stored(outcome)),
{
}

proof fn lemma_sent_coherent(m: AppModel, outcome: SendOutcome)
    requires
        coherent(m),
    ensures
        coherent(m.sent(outcome)),
{
}

proof fn lemma_received_coherent(m: AppModel, receipt: Receipt<ServerEventModel>)
    requires
        coherent(m),
    ensures
        coherent(m.received(receipt)),
{
    if let Receipt::Got(event) = receipt {
        lemma_handle(m, event, Seq::empty());
    }
}

/// Whatever happens, the parts of the state go on to agree.
pub proof fn every_step_keeps_coherence(m: AppModel, event: EventModel)
    requires
        coherent(m),
    ensures
        coherent(m.next(event)),
{
    match event {
        EventModel::Line(line) => lemma_typed_coherent(m, line),
        EventModel::Drained(events) => lemma_drained_coherent(m, events),
        EventModel::Plain(reply) => lemma_replied_coherent(m, reply),
        EventModel::SessionUser(reply, parsed) => lemma_got_user_coherent(m, reply, parsed),
        EventModel::Profile(reply, parsed) => lemma_got_profile_coherent(m, reply, parsed),
        EventModel::Stored(outcome) => lemma_stored_coherent(m, outcome),
        EventModel::Sent(outcome) => lemma_sent_coherent(m, outcome),
        EventModel::Received(receipt) => lemma_received_coherent(m, receipt),
        _ => {},
    }
}

/// The client after a list of things that happened, in order.
pub open spec fn run(m: AppModel, events: Seq<EventModel>) -> AppModel
    decreases events.len(),
{
    if events.len() == 0 {
        m
    } else {
        run(m, events.drop_last()).next(events.last())
    }
}

/// However long the client runs, the parts of its state agree, the stored chat list is the one
/// that it shows, and no two chats are with the same user.
pub proof fn every_run_keeps_the_client_whole(m: AppModel, events: Seq<EventModel>)
    requires
        coherent(m),
        distinct_chats(m.chats),
        m.out.len() == 0,
    ensures
        coherent(run(m, events)),
        distinct_chats(run(m, events).chats),
        stored_after(m.chats, run(m, events).out) == run(m, events).chats,
    decreases events.len(),
{
    if events.len() > 0 {
        let before = run(m, events.drop_last());
        every_run_keeps_the_client_whole(m, events.drop_last());
        every_step_keeps_coherence(before, events.last());
        every_step_keeps_records(before, events.last(), m.chats);
    }
}

/// Taking what the client has to say, and doing it, keeps what is stored the list that is shown. It
/// changes nothing that the client waits for.
pub proof fn taking_output_keeps_records(m: AppModel, stored: Seq<ChatEntry<Text>>)
    requires
        stored_after(stored, m.out) == m.chats,
    ensures
        stored_after(stored_after(stored, m.out), m.taken().out) == m.taken().chats,
        m.taken().chats == m.chats,
        m.taken().out.len() == 0,
        m.taken() == (AppModel { out: m.taken().out, ..m }),
        m.taken().request() == m.request(),
        coherent(m) ==> coherent(m.taken()),
{
}

/// The client and what is stored, after a list of things that happened, where everything that the
/// client has to say is taken and done after each of them.
pub open spec fn served(
    m: AppModel,
    stored: Seq<ChatEntry<Text>>,
    events: Seq<EventModel>,
) -> (AppModel, Seq<ChatEntry<Text>>)
    decreases events.len(),
{
    if events.len() == 0 {
        (m, stored)
    } else {
        let (before, kept) = served(m, stored, events.drop_last());
        let n = before.next(events.last());
        (n.taken(), stored_after(kept, n.out))
    }
}

/// However long the client runs, with its outputs taken after each step, the parts of its state
/// agree, what is stored is the chat list that it shows, and no two chats are with the same user.
pub proof fn serving_keeps_the_client_whole(m: AppModel, events: Seq<EventModel>)
    requires
        coherent(m),
        distinct_chats(m.chats),
        m.out.len() == 0,
    ensures
        ({
            let (n, stored) = served(m, m.chats, events);
            &&& coherent(n)
            &&& distinct_chats(n.chats)
            &&& n.out.len() == 0
            &&& stored == n.chats
        }),
    decreases events.len(),
{
    if events.len() > 0 {
        serving_keeps_the_client_whole(m, events.drop_last());
        let (before, kept) = served(m, m.chats, events.drop_last());
        every_step_keeps_coherence(before, events.last());
        every_step_keeps_records(before, events.last(), kept);
        taking_output_keeps_records(before.next(events.last()), kept);
    }
}

/// The token that the last join was sent with, if there was one.
pub open spec fn joined_with(m: AppModel, events: Seq<EventModel>) -> Option<Text>
    decreases events.len(),
{
    if events.len() == 0 {
        None
    } else {
        let join = match run(m, events.drop_last()).screen {
            Screen::SendingJoin { token, .. } => Some(token),
            _ => None,
        };
        if join is Some && events.last() == EventModel::Sent(SendOutcome::Queued) {
            join
        } else {
            joined_with(m, events.drop_last())
        }
    }
}

proof fn lemma_connection_fields(m: AppModel, event: EventModel)
    requires
        coherent(m),
    ensures
        ({
            let n = m.next(event);
            &&& n.connected && !m.connected ==> m.screen is SendingJoin && event
                == EventModel::Sent(SendOutcome::Queued) && n.session_token == m.session_token
            &&& n.connected && n.session_token != m.session_token ==> m.screen is ResolvingSession
                || n.screen is SwitchOnline
            &&& m.screen is SwitchOnline && n.connected ==> n.screen is SwitchOnline
        }),
{
    match event {
        EventModel::Line(line) => {
            let a = answer(line);
            if let Screen::AddChatLabel { user_id, .. } = m.screen {
                let label = if a.len() == 0 {
                    None
                } else {
                    Some(a)
                };
                lemma_ensure_chat(m, user_id, label, Seq::empty());
            }
        },
        EventModel::Drained(events) => {
            lemma_handle_first(m, events, events.len(), Seq::empty());
        },
        EventModel::Received(receipt) => {
            if let Receipt::Got(event) = receipt {
                lemma_handle(m, event, Seq::empty());
            }
        },
        _ => {},
    }
}

/// The socket was joined for the session that is open: in every run from a client without a socket
/// in which no login begins a session while a socket is open, the last join carried the token of
/// the session. Only on the way from one account to another, before the socket is dropped, may
/// the socket still be that of the account before, and nothing is received over it then.
pub proof fn sockets_are_joined_for_the_session(m: AppModel, events: Seq<EventModel>)
    requires
        coherent(m),
        !m.connected,
        forall|i: int|
            0 <= i < events.len() && (#[trigger] run(m, events.take(i))).screen is ResolvingSession
                ==> !run(m, events.take(i)).connected,
    ensures
        coherent(run(m, events)),
        ({
            let n = run(m, events);
            n.connected ==> joined_with(m, events) == n.session_token || (n.screen is SwitchOnline
                && n.request() is Plain)
        }),
    decreases events.len(),
{
    if events.len() > 0 {
        let init = events.drop_last();
        assert forall|i: int|
            0 <= i < init.len() && (#[trigger] run(m, init.take(i))).screen
                is ResolvingSession implies !run(m, init.take(i)).connected by {
            assert(init.take(i) =~= events.take(i));
        }
        sockets_are_joined_for_the_session(m, init);
        assert(events.take(events.len() - 1) =~= init);
        every_step_keeps_coherence(run(m, init), events.last());
        lemma_connection_fields(run(m, init), events.last());
    }
}

/// Whether something can come of a request.
pub open spec fn answers(event: EventModel, request: RequestModel) -> bool {
    match event {
        EventModel::Line(_) => request is Ask || request is WaitEnter,
        EventModel::Drained(_) => request is Drain,
        EventModel::Plain(_) => request is Plain,
        EventModel::SessionUser(..) => request is SessionUser,
        EventModel::Profile(..) => request is Profile,
        EventModel::Stored(_) => request is SaveSession || request is RememberAccount || request
            is DeleteSession || request is ForgetAccount,
        EventModel::Token(_) => request is LoadSession,
        EventModel::Accounts(_) => request is LoadAccounts,
        EventModel::Connected(_) => request is Connect,
        EventModel::Sent(_) => request is Send,
        EventModel::Received(_) => request is Receive,
    }
}

/// What cannot have come of the client's request changes nothing.
pub proof fn unasked_events_change_nothing(m: AppModel, event: EventModel)
    requires
        !answers(event, m.request()),
    ensures
        m.next(event) == m,
{
}

/// The program has ended exactly where the client asks for its end, and nothing happens after it.
pub proof fn the_end_is_final(m: AppModel, event: EventModel)
    ensures
        m.request() is Exit <==> m.screen is Exited,
        m.screen is Exited ==> m.next(event) == m,
{
}

/// Everything that is sent over the socket is sent for the session that is open.
pub proof fn actions_carry_the_session(m: AppModel)
    requires
        coherent(m),
    ensures
        m.request() matches Request::Send(action) ==> m.session_token == Some(action.token()),
{
}

/// Messages, histories and confirmations of an open chat are about a chat of the list.
pub proof fn actions_are_about_listed_chats(m: AppModel)
    requires
        coherent(m),
    ensures
        m.request() matches Request::Send(action) ==> match action {
            ClientAction::SendMessage { receiver_id, text, file_id, .. } => has_chat(
                m.chats,
                receiver_id,
            ) && text is Some && file_id is None,
            ClientAction::History { with_user_id, limit, .. } => has_chat(m.chats, with_user_id)
                && limit == Some(m.config.chat.default_history_limit),
            ClientAction::MarkRead { with_user_id, .. } => has_chat(m.chats, with_user_id),
            _ => true,
        },
{
    match m.screen {
        Screen::RequestingHistory { chat } => {
            assert(m.chats[chat.index as int].user_id == chat.user_id);
        },
        Screen::SendingMessage { chat, .. } => {
            assert(m.chats[chat.index as int].user_id == chat.user_id);
        },
        Screen::SendingMarkRead { chat } => {
            assert(m.chats[chat.index as int].user_id == chat.user_id);
        },
        _ => {},
    }
}

/// A token is saved under the account that is logged in, and a logout removes what was saved under
/// that account and no other.
pub proof fn accounts_are_saved_and_removed_under_one_name(m: AppModel)
    requires
        coherent(m),
    ensures
        m.request() matches Request::SaveSession { username, token } ==> m.current_username == Some(
            username,
        ) && m.session_token == Some(token),
        m.request() matches Request::RememberAccount { username } ==> m.current_username == Some(
            username,
        ),
        m.request() matches Request::DeleteSession { username } ==> m.current_username == Some(
            username,
        ),
        m.request() matches Request::ForgetAccount { username } ==> m.current_username == Some(
            username,
        ),
{
}

/// A profile is asked for with the token of the session.
pub proof fn profiles_are_asked_for_in_the_session(m: AppModel)
    requires
        coherent(m),
    ensures
        m.request() matches Request::Profile(request) ==> exists|username: Text|
            request == #[trigger] profile_request(m.auth_url, m.session_token->0, username),
{
    match m.screen {
        Screen::AddChatLookup { token, username } => {
            assert(m.request() == Request::<Text, HttpRequestModel>::Profile(
                profile_request(m.auth_url, token, username),
            ));
        },
        Screen::ProfileLookup { token, username } => {
            assert(m.request() == Request::<Text, HttpRequestModel>::Profile(
                profile_request(m.auth_url, token, username),
            ));
        },
        _ => {},
    }
}

/// A session begins only where the authorization service has confirmed its token, with the user
/// that the service named.
pub proof fn sessions_begin_with_a_confirmed_token(m: AppModel, event: EventModel)
    requires
        m.next(event).session_token is Some,
        m.next(event).session_token != m.session_token,
    ensures
        ({
            let n = m.next(event);
            &&& event matches EventModel::SessionUser(reply, parsed)
            &&& json_outcome(reply, parsed) matches Ok(me)
            &&& n.me == Some(me)
            &&& match m.screen {
                Screen::ResolvingSession { token } => n.session_token == Some(token)
                    && n.current_username == Some(me.username),
                Screen::SwitchValidate { username, token } => n.session_token == Some(token)
                    && n.current_username == Some(username),
                _ => false,
            }
        }),
{
    lemma_session_fields(m, event);
}

/// A session ends only with a completed logout, which leaves no user, no account and no socket.
pub proof fn sessions_end_with_a_logout(m: AppModel, event: EventModel)
    requires
        coherent(m),
        m.session_token is Some,
        m.next(event).session_token is None,
    ensures
        m.screen is LogoutForget,
        m.next(event).me is None,
        m.next(event).current_username is None,
        !m.next(event).connected,
        m.next(event).screen is MainPause,
        m.next(event).out.contains(Output::<Text, Seq<ChatEntry<Text>>>::CloseSocket),
{
    lemma_session_fields(m, event);
    let n = m.next(event);
    assert(n.out[n.out.len() - 2] == Output::<Text, Seq<ChatEntry<Text>>>::CloseSocket);
}

proof fn lemma_session_fields(m: AppModel, event: EventModel)
    ensures
        m.next(event).session_token != m.session_token ==> m.screen is ResolvingSession || m.screen
            is SwitchValidate || m.screen is MainChoice || m.screen is LogoutOffline || m.screen
            is LogoutForget,
        m.next(event).session_token is Some && m.next(event).session_token != m.session_token
            ==> m.screen is ResolvingSession || m.screen is SwitchValidate,
        m.screen is MainChoice && m.session_token is Some ==> m.next(event).session_token
            == m.session_token,
        m.screen is LogoutOffline && m.current_username is Some ==> m.next(event).session_token
            == m.session_token,
{
    match event {
        EventModel::Line(line) => {
            let a = answer(line);
            if let Screen::AddChatLabel { user_id, .. } = m.screen {
                let label = if a.len() == 0 {
                    None
                } else {
                    Some(a)
                };
                lemma_ensure_chat(m, user_id, label, Seq::empty());
            }
        },
        EventModel::Drained(events) => {
            lemma_handle_first(m, events, events.len(), Seq::empty());
        },
        EventModel::Received(receipt) => {
            if let Receipt::Got(event) = receipt {
                lemma_handle(m, event, Seq::empty());
            }
        },
        _ => {},
    }
}

/// After the client asked to join, it stays connected only while it waits or once the service has
/// let it in; when it is refused, gets no answer or loses the socket, the socket is dropped.
pub proof fn only_a_confirmed_join_connects(
    m: AppModel,
    after: AfterConnect,
    receipt: Receipt<ServerEventModel>,
)
    requires
        m.screen == (Screen::<Text, Seq<Text>>::Joining { after }),
        m.connected,
    ensures
        ({
            let n = m.received(receipt);
            let refused = match receipt {
                Receipt::DeadlinePassed => true,
                Receipt::NoSocket => true,
                Receipt::Closed => true,
                Receipt::Got(event) => event is Error,
                Receipt::Elapsed => false,
            };
            let joined = receipt matches Receipt::Got(event) && event is Joined;
            &&& n.connected == !refused
            &&& refused ==> n.screen is MainPause && n.out.contains(
                Output::<Text, Seq<ChatEntry<Text>>>::CloseSocket,
            )
            &&& n.screen == m.screen <==> !refused && !joined
        }),
{
    if let Receipt::Got(event) = receipt {
        lemma_handle(m, event, Seq::empty());
    }
    let n = m.received(receipt);
    if !n.connected {
        assert(n.out[n.out.len() - 2] == Output::<Text, Seq<ChatEntry<Text>>>::CloseSocket);
    }
}

/// Waiting for an event ends when the clock has run out.
pub proof fn waiting_ends_with_the_clock(m: AppModel)
    requires
        m.request() is Receive,
    ensures
        !(m.next(EventModel::Received(Receipt::DeadlinePassed)).request() is Receive),
{
}

/// Without a session, the menus that need one lead back to the main menu and leave everything as
/// it was, and a connection is refused.
pub proof fn menus_need_a_session(m: AppModel)
    requires
        m.session_token is None,
        !m.connected,
    ensures
        m.start_chats().screen is MainPause,
        m.start_profiles().screen is MainPause,
        m.start_ping() == m.fail("Please login first"@).pause(),
        m.connect(AfterConnect::Menu) == m.fail(
            "Chat connection failed: "@ + "Please login first"@,
        ).pause(),
        m.start_chats() == (AppModel {
            screen: m.start_chats().screen,
            out: m.start_chats().out,
            ..m
        }),
        m.start_profiles() == (AppModel {
            screen: m.start_profiles().screen,
            out: m.start_profiles().out,
            ..m
        }),
{
}

/// A message from somebody else is in a chat with its sender, and that chat has one more unread
/// message than before; no other chat changes.
pub proof fn messages_of_others_are_counted(m: AppModel, message: StoredMessage<Text>)
    requires
        message.sender_id != m.my_id(),
    ensures
        ({
            let n = m.handle((ServerEvent::Message { message }));
            let place = chat_position(m.chats, message.sender_id);
            let before = if has_chat(m.chats, message.sender_id) {
                m.chats[place].unread
            } else {
                0
            };
            &&& 0 <= place < n.chats.len()
            &&& n.chats[place].user_id == message.sender_id
            &&& n.chats[place].unread == one_more(before)
            &&& forall|i: int|
                0 <= i < m.chats.len() && i != place ==> #[trigger] n.chats[i] == m.chats[i]
            &&& n.chats.len() == if has_chat(m.chats, message.sender_id) {
                m.chats.len()
            } else {
                m.chats.len() + 1
            }
        }),
{
    let id = message.sender_id;
    places_are_found(m.chats, id);
    let listed = m.ensure_chat(id, None);
    ensuring_adds_at_most_one_chat(m.chats, id, None, None);
    places_are_found(listed.chats, id);
    let p = chat_position(m.chats, id);
    let q = chat_position(listed.chats, id);
    if !has_chat(m.chats, id) {
        assert(listed.chats[p].user_id == id);
        if q < p {
            assert(listed.chats[q] == m.chats[q]);
        }
    }
}

/// A message of the user's own never counts as unread: every chat stays as it was, and a chat that
/// it opens has nothing unread.
pub proof fn own_messages_are_not_counted(m: AppModel, message: StoredMessage<Text>)
    requires
        message.sender_id == m.my_id(),
    ensures
        ({
            let n = m.handle((ServerEvent::Message { message }));
            &&& has_chat(n.chats, message.receiver_id)
            &&& n.chats.take(m.chats.len() as int) == m.chats
            &&& n.chats.len() <= m.chats.len() + 1
            &&& n.chats.len() > m.chats.len() ==> n.chats.last().unread == 0
        }),
{
    ensuring_adds_at_most_one_chat(m.chats, message.receiver_id, None, None);
    assert(m.chats.take(m.chats.len() as int) =~= m.chats);
}

/// A confirmation that the messages of a user were read clears the count of the chat with that
/// user, and changes no other chat.
pub proof fn confirmed_reading_clears_the_count(m: AppModel, with_user_id: Text, updated: usize)
    ensures
        ({
            let n = m.handle((ServerEvent::MarkReadResult { with_user_id, updated }));
            let place = chat_position(m.chats, with_user_id);
            &&& n.chats.len() == m.chats.len()
            &&& has_chat(m.chats, with_user_id) ==> n.chats == with_read_at(m.chats, place)
            &&& has_chat(m.chats, with_user_id) ==> n.chats[place].unread == 0
            &&& !has_chat(m.chats, with_user_id) ==> n.chats == m.chats
        }),
{
    places_are_found(m.chats, with_user_id);
}

/// An event that nothing waits for changes the chat list and what there is to say, and nothing
/// else: not the session, not the connection, not what the client is in the middle of. Every chat
/// keeps its place and its label, and at most one chat is added, at the end.
pub proof fn events_touch_only_the_chat_list(m: AppModel, event: ServerEventModel)
    ensures
        only_noted(m.handle(event), m),
        m.handle(event).chats.len() <= m.chats.len() + 1,
{
    lemma_handle(m, event, Seq::empty());
}

/// The number that a list shows before an entry picks that entry.
pub proof fn shown_numbers_pick_their_entries(i: int, len: nat)
    requires
        0 <= i < len <= usize::MAX,
    ensures
        AppModel::chosen(decimal((i + 1) as nat), len) == Some(i),
{
    decimal_is_read_back((i + 1) as usize);
}

/// Opening a chat by its number marks it as read and changes no other chat.
pub proof fn opening_a_chat_reads_it(m: AppModel, i: int)
    requires
        0 <= i < m.chats.len() <= usize::MAX,
    ensures
        ({
            let n = m.open_chat(decimal((i + 1) as nat));
            &&& n.screen matches Screen::RequestingHistory { chat }
            &&& chat.index == i
            &&& chat.user_id == m.chats[i].user_id
            &&& n.chats == with_read_at(m.chats, i)
            &&& n.chats[i].unread == 0
        }),
{
    shown_numbers_pick_their_entries(i, m.chats.len());
}

/// While the history of a chat is awaited, the history of another one is passed over.
pub proof fn histories_of_other_chats_are_passed_over(
    m: AppModel,
    chat: OpenChat<Text>,
    with_user_id: Text,
    messages: Seq<StoredMessage<Text>>,
)
    requires
        m.screen == (Screen::<Text, Seq<Text>>::AwaitingHistory { chat }),
        with_user_id != chat.user_id,
    ensures
        m.received(Receipt::Got((ServerEvent::History { with_user_id, messages }))) == m,
{
}

/// Whether everything that must be answered and was answered has an answer.
pub open spec fn answers_given(screen: ScreenModel) -> bool {
    match screen {
        Screen::RegistrationPassword { username, .. } => username.len() > 0,
        Screen::RegistrationEmail { username, password, .. } => username.len() > 0 && password.len()
            > 0,
        Screen::RegistrationPhone { username, password, email } => username.len() > 0
            && password.len() > 0 && (email matches Some(e) ==> e.len() > 0),
        Screen::Registering { form } => match form {
            Registration::Full { username, password, email, phone_number } => username.len() > 0
                && password.len() > 0 && email.len() > 0 && phone_number.len() > 0,
            Registration::EmailOnly { username, password, email } => username.len() > 0
                && password.len() > 0 && email.len() > 0,
            Registration::PhoneOnly { username, password, phone_number } => username.len() > 0
                && password.len() > 0 && phone_number.len() > 0,
        },
        Screen::LoginPassword { details, .. } => details.len() > 0,
        Screen::LoggingIn { details, password, .. } => details.len() > 0 && password.len() > 0,
        Screen::AddChatLookup { username, .. } => username.len() > 0,
        Screen::AddChatLabel { username, .. } => username.len() > 0,
        Screen::SendingMessage { text, .. } => text.len() > 0,
        Screen::ProfileUpdate { new_value, .. } => new_value.len() > 0,
        _ => true,
    }
}

proof fn lemma_answers_typed(m: AppModel, line: Option<Text>)
    requires
        answers_given(m.screen),
    ensures
        answers_given(m.typed(line).screen),
{
}

proof fn lemma_answers_received(m: AppModel, receipt: Receipt<ServerEventModel>)
    requires
        answers_given(m.screen),
    ensures
        answers_given(m.received(receipt).screen),
{
    if let Receipt::Got(event) = receipt {
        lemma_handle(m, event, Seq::empty());
    }
}

proof fn lemma_answers_sent(m: AppModel, outcome: SendOutcome)
    requires
        answers_given(m.screen),
    ensures
        answers_given(m.sent(outcome).screen),
{
}

/// No blank ever stands in place of an answer that must be given: not in a registration, a login,
/// a message or a new value of the profile.
pub proof fn blank_answers_never_get_through(m: AppModel, event: EventModel)
    requires
        answers_given(m.screen),
    ensures
        answers_given(m.next(event).screen),
{
    match event {
        EventModel::Line(line) => lemma_answers_typed(m, line),
        EventModel::Drained(events) => lemma_handle_first(m, events, events.len(), Seq::empty()),
        EventModel::Received(receipt) => lemma_answers_received(m, receipt),
        EventModel::Sent(outcome) => lemma_answers_sent(m, outcome),
        _ => {},
    }
}

/// The line that tells of an event.
pub open spec fn told(color: Text, text: Text) -> OutputModel {
    OutputModel::Line("\n"@ + color + "[event]"@ + "\x1b[0m"@ + " "@ + text)
}

/// The line that tells of a message: its whole text, or a mark where it has none.
pub open spec fn message_told(message: StoredMessage<Text>) -> OutputModel {
    told(
        "\x1b[33m"@,
        "new message: "@ + match message.text {
            Some(text) => text,
            None => "<file>"@,
        },
    )
}

/// A message that the user sent, told by the identifier that the service gave to the user, leaves
/// every chat and every count as it was. A chat with the receiver is made sure of, with nothing
/// unread, and stored where it is new; the message is told, and nothing else changes.
pub proof fn own_messages_open_a_chat_with_the_receiver(
    m: AppModel,
    user: SessionUserInfo<Text>,
    id: Text,
    message: StoredMessage<Text>,
)
    requires
        m.me == Some(user),
        user.uuid == Some(id),
        message.sender_id == id,
    ensures
        ({
            let n = m.handle((ServerEvent::Message { message }));
            let new_chat = ChatEntry {
                user_id: message.receiver_id,
                label: "user-"@ + short(message.receiver_id),
                unread: 0,
            };
            &&& n == (AppModel { chats: n.chats, out: n.out, ..m })
            &&& if has_chat(m.chats, message.receiver_id) {
                &&& n.chats == m.chats
                &&& n.out =~= m.out + seq![message_told(message)]
            } else {
                &&& n.chats == m.chats.push(new_chat)
                &&& n.out =~= m.out + seq![
                    OutputModel::SaveChats(n.chats),
                    message_told(message),
                ]
            }
        }),
{
}

/// A message of somebody else, told by the identifier that the service gave to the user, adds one
/// to the count of the chat with its sender, which is made sure of; no other chat changes. The list
/// is stored, the message is told, and nothing else changes.
pub proof fn messages_of_others_count_for_the_sender(
    m: AppModel,
    user: SessionUserInfo<Text>,
    id: Text,
    message: StoredMessage<Text>,
)
    requires
        m.me == Some(user),
        user.uuid == Some(id),
        message.sender_id != id,
    ensures
        counted_for_the_sender(m, message),
{
    lemma_counted(m, message);
}

/// As long as the user's identifier is not known, every message but one without a sender counts.
pub proof fn messages_count_without_an_identifier(m: AppModel, message: StoredMessage<Text>)
    requires
        m.me is None || m.me->0.uuid is None,
        message.sender_id.len() > 0,
    ensures
        counted_for_the_sender(m, message),
{
    reveal_strlit("");
    lemma_counted(m, message);
}

/// Whether a message adds one to the count of the first chat with its sender, or opens a chat with
/// its sender that has one unread message.
pub open spec fn counted_for_the_sender(m: AppModel, message: StoredMessage<Text>) -> bool {
    let n = m.handle((ServerEvent::Message { message }));
    let place = chat_position(m.chats, message.sender_id);
    let new_chat = ChatEntry {
        user_id: message.sender_id,
        label: "user-"@ + short(message.sender_id),
        unread: 0,
    };
    &&& n == (AppModel { chats: n.chats, out: n.out, ..m })
    &&& if has_chat(m.chats, message.sender_id) {
        &&& n.chats.len() == m.chats.len()
        &&& n.chats[place].user_id == message.sender_id
        &&& n.chats[place].label == m.chats[place].label
        &&& m.chats[place].unread < usize::MAX ==> n.chats[place].unread == m.chats[place].unread
            + 1
        &&& m.chats[place].unread == usize::MAX ==> n.chats[place].unread == usize::MAX
        &&& forall|i: int|
            0 <= i < m.chats.len() && i != place ==> #[trigger] n.chats[i] == m.chats[i]
        &&& n.out =~= m.out + seq![OutputModel::SaveChats(n.chats), message_told(message)]
    } else {
        &&& n.chats =~= m.chats.push((ChatEntry { unread: 1, ..new_chat }))
        &&& n.out =~= m.out + seq![
            OutputModel::SaveChats(m.chats.push(new_chat)),
            OutputModel::SaveChats(n.chats),
            message_told(message),
        ]
    }
}

proof fn lemma_counted(m: AppModel, message: StoredMessage<Text>)
    requires
        message.sender_id != m.my_id(),
    ensures
        counted_for_the_sender(m, message),
{
    let id = message.sender_id;
    places_are_found(m.chats, id);
    messages_of_others_are_counted(m, message);
    if !has_chat(m.chats, id) {
        let listed = m.ensure_chat(id, None).chats;
        places_are_found(listed, id);
        assert(listed[m.chats.len() as int].user_id == id);
        let q = chat_position(listed, id);
        if q < m.chats.len() {
            assert(listed[q] == m.chats[q]);
        }
    }
}

/// Every other event is told with the whole of what it holds, or, where it only answers a question
/// that nobody waits for, not at all.
pub proof fn other_events_are_told(
    m: AppModel,
    user_id: Text,
    text: Text,
    count: usize,
    connections: Seq<ConnectionInfo<Text>>,
    messages: Seq<StoredMessage<Text>>,
)
    ensures
        ({
            let n = m.handle((ServerEvent::MarkReadResult { with_user_id: user_id, updated: count }));
            let line = told(
                "\x1b[36m"@,
                "mark_read for "@ + user_id + " updated "@ + decimal(count as nat) + " messages"@,
            );
            &&& n == (AppModel { chats: n.chats, out: n.out, ..m })
            &&& n.out =~= m.out + if has_chat(m.chats, user_id) {
                seq![line, OutputModel::SaveChats(n.chats)]
            } else {
                seq![line]
            }
        }),
        m.handle((ServerEvent::ReadReceipt { by_user_id: user_id, updated: count })) == m.say(
            told(
                "\x1b[36m"@,
                "read_receipt by "@ + user_id + " for "@ + decimal(count as nat) + " messages"@,
            ),
        ),
        m.handle((ServerEvent::Connections { connections })) == m.say(
            told("\x1b[36m"@, decimal(connections.len()) + " online connection(s)"@),
        ),
        m.handle(ServerEvent::Pong) == m.say(told("\x1b[36m"@, "pong"@)),
        m.handle((ServerEvent::Error { message: text })) == m.say(
            OutputModel::ErrorLine(error_text("server error: "@ + text)),
        ),
        m.handle(
            (ServerEvent::Joined { user_id, username: text, connection_number: count }),
        ) == m,
        m.handle((ServerEvent::History { with_user_id: user_id, messages })) == m,
        m.say(OutputModel::CloseSocket) == (AppModel {
            out: m.out.push(OutputModel::CloseSocket),
            ..m
        }),
{
}

/// While the client waits for one event, any other is taken as if nothing waited, and the client
/// goes on waiting.
pub proof fn other_events_are_taken_meanwhile(m: AppModel, event: ServerEventModel)
    requires
        match m.screen {
            Screen::Joining { .. } => !(event is Joined) && !(event is Error),
            Screen::Pinging => !(event is Pong),
            Screen::AwaitingConnections => !(event is Connections),
            Screen::AwaitingHistory { chat } => event matches ServerEvent::History {
                with_user_id,
                ..
            } ==> with_user_id != chat.user_id,
            _ => false,
        },
    ensures
        m.next(EventModel::Received(Receipt::Got(event))) == m.handle(event),
        m.next(EventModel::Received(Receipt::Got(event))).screen == m.screen,
{
    lemma_handle(m, event, Seq::empty());
}

/// What a menu shows: the main menu with the services and the session, on a cleared screen where
/// that is configured, or the chat list with its choices.
pub open spec fn menu_outputs(m: AppModel, chats: Seq<ChatEntry<Text>>) -> Seq<OutputModel> {
    if m.screen is ChatsDrain {
        seq![OutputModel::Line(chat_list_text(chats)), OutputModel::Line(CHATS_MENU@)]
    } else {
        (if m.config.ui.clear_screen_on_menu {
            seq![OutputModel::Print("\x1B[2J\x1B[1;1H"@)]
        } else {
            Seq::empty()
        }) + seq![
            OutputModel::Line(main_menu_text(m.auth_url, m.config.chat.ws_url, m.me)),
        ]
    }
}

/// Before a menu is shown, the events that have come in are taken one after the other, in their
/// order: one more event is taken after those before it. The menu then shows the list as it has
/// become.
pub proof fn waiting_events_are_taken_in_order(
    m: AppModel,
    events: Seq<ServerEventModel>,
    event: ServerEventModel,
)
    requires
        m.screen is MainDrain || m.screen is ChatsDrain,
    ensures
        ({
            let none = m.drained(Seq::empty());
            let some = m.drained(events);
            let more = m.drained(events.push(event));
            let before = AppModel {
                chats: some.chats,
                out: some.out.take(some.out.len() - menu_outputs(m, some.chats).len()),
                ..m
            };
            &&& none.chats == m.chats
            &&& none.out =~= m.out + menu_outputs(m, m.chats)
            &&& more.chats == before.handle(event).chats
            &&& more.out =~= before.handle(event).out + menu_outputs(m, more.chats)
            &&& more == (AppModel { chats: more.chats, out: more.out, screen: more.screen, ..m })
            &&& more.screen == if m.screen is ChatsDrain {
                ScreenModel::ChatsChoice
            } else {
                ScreenModel::MainChoice
            }
            &&& none.screen == more.screen
        }),
{
    let n = events.len();
    let all = events.push(event);
    lemma_drained(m, Seq::empty());
    lemma_drained(m, events);
    lemma_drained(m, all);
    lemma_handle_prefix(m, events, event, n);
    lemma_handle_first(m, events, n, Seq::empty());
    let taken = m.handle_first(events, n);
    let some = m.drained(events);
    assert(some.out.take(some.out.len() - menu_outputs(m, some.chats).len()) =~= taken.out);
    assert(all[n as int] == event);
    assert(m.handle_first(all, n + 1) == taken.handle(event));
}

proof fn lemma_drained(m: AppModel, events: Seq<ServerEventModel>)
    requires
        m.screen is MainDrain || m.screen is ChatsDrain,
    ensures
        ({
            let n = m.drained(events);
            let taken = m.handle_first(events, events.len());
            &&& n.chats == taken.chats
            &&& n.out =~= taken.out + menu_outputs(m, n.chats)
            &&& n == (AppModel { chats: n.chats, out: n.out, screen: n.screen, ..m })
            &&& n.screen == if m.screen is ChatsDrain {
                ScreenModel::ChatsChoice
            } else {
                ScreenModel::MainChoice
            }
        }),
{
    lemma_handle_first(m, events, events.len(), Seq::empty());
}

proof fn lemma_handle_prefix(
    m: AppModel,
    events: Seq<ServerEventModel>,
    event: ServerEventModel,
    n: nat,
)
    requires
        n <= events.len(),
    ensures
        m.handle_first(events.push(event), n) == m.handle_first(events, n),
    decreases n,
{
    if n > 0 {
        lemma_handle_prefix(m, events, event, (n - 1) as nat);
        assert(events.push(event)[n - 1] == events[n - 1]);
    }
}

/// The token and the identifier that the client uses are those of the session and of the user,
/// whole, and blank where there are none.
pub proof fn absent_tokens_are_blank(m: AppModel, token: Text, user: SessionUserInfo<Text>)
    ensures
        m.session_token == Some(token) ==> m.token() == token,
        m.session_token is None ==> m.token().len() == 0,
        m.me == Some(user) && user.uuid is Some ==> m.my_id() == user.uuid->0,
        m.me == Some(user) && user.uuid is None ==> m.my_id().len() == 0,
        m.me is None ==> m.my_id().len() == 0,
{
    reveal_strlit("");
}

} // verus!
