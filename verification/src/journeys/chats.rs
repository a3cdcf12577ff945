//! How chats are listed, added, opened, removed and used.

use crate::app::{OpenChat, OutputModel, Receipt, RequestModel, ScreenModel, SendOutcome};
use crate::auth::{json_outcome, HttpReply};
use crate::chats::{distinct_chats, has_chat, ChatEntry};
use crate::console::{
    answer, chat_list_text, connections_text, history_text, title_text, CHATS_MENU, CHAT_MENU,
};
use crate::journeys::{failure, lemma_choices_differ, line, only_said, profile_of, success};
use crate::model::AppModel;
use crate::text::{parsed_number, short, Text};
use crate::wire::{
    ClientAction, ConnectionInfo, ServerEvent, StoredMessage, UserProfile,
};
use vstd::prelude::*;

verus! {

/// From the main menu to the chat list: what has come in is taken first, then every chat is shown
/// with the choices, and the way back leads to the main menu.
pub proof fn the_chat_list_is_shown(m: AppModel, choice: Option<Text>, other: Option<Text>)
    ensures
        m.screen is MainChoice && answer(choice) == "4"@ && m.session_token is Some && m.connected
            ==> line(m, choice).request() is Drain && line(m, choice).screen is ChatsDrain
            && only_said(m, line(m, choice), seq![OutputModel::Line(title_text("Chats"@))]),
        m.screen is ChatsDrain ==> ({
            let n = m.drained(Seq::empty());
            &&& m.request() is Drain
            &&& n.request() == RequestModel::Ask("Chats menu"@)
            &&& n.screen is ChatsChoice
            &&& only_said(
                m,
                n,
                seq![
                    OutputModel::Line(chat_list_text(m.chats)),
                    OutputModel::Line(CHATS_MENU@),
                ],
            )
        }),
        m.screen is ChatsChoice && answer(choice) == "0"@ ==> line(m, choice).screen is MainPause
            && only_said(m, line(m, choice), Seq::empty()),
        m.screen is ChatsChoice && !(seq!["0"@, "1"@, "2"@, "3"@, "4"@].contains(answer(other)))
            ==> line(m, other).request() is Drain && line(m, other).screen is ChatsDrain
            && only_said(m, line(m, other), seq![failure("Unknown option"@)]),
{
    lemma_choices_differ();
    let all = seq!["0"@, "1"@, "2"@, "3"@, "4"@];
    assert(all[0] == "0"@ && all[1] == "1"@ && all[2] == "2"@ && all[3] == "3"@ && all[4] == "4"@);
}

/// A chat is added for the name that was typed: the service is asked for that profile with the
/// token of the session; the identifier of the profile, or its name where it has none, is the
/// chat's, the typed label too, and where there is a chat with that user already, the list stays.
pub proof fn chats_are_added_as_typed(
    m: AppModel,
    choice: Option<Text>,
    username: Option<Text>,
    token: Text,
    reply: HttpReply<Text>,
    parsed: Result<UserProfile<Text>, Text>,
    label: Option<Text>,
)
    requires
        m.screen is ChatsChoice,
        answer(choice) == "1"@,
        answer(username).len() > 0,
        m.session_token == Some(token),
    ensures
        ({
            let asked = line(line(m, choice), username);
            let found = asked.got_profile(reply, parsed);
            &&& line(m, choice).request() == RequestModel::Ask("target username"@)
            &&& asked.request() == profile_of(m.auth_url, token, answer(username))
            &&& only_said(m, asked, Seq::empty())
            &&& match json_outcome(reply, parsed) {
                Ok(profile) => {
                    let id = match profile.uuid {
                        Some(uuid) => uuid,
                        None => profile.username,
                    };
                    let added = line(found, label);
                    let told = success(
                        "Chat with "@ + answer(username) + " ("@ + short(id) + ") added"@,
                    );
                    &&& found.request() == RequestModel::Ask("label (optional)"@)
                    &&& only_said(asked, found, Seq::empty())
                    &&& added.request() is Drain
                    &&& added.screen is ChatsDrain
                    &&& has_chat(m.chats, id) ==> only_said(found, added, seq![told])
                    &&& !has_chat(m.chats, id) ==> added == (AppModel {
                        chats: m.chats.push(
                            ChatEntry {
                                user_id: id,
                                label: if answer(label).len() > 0 {
                                    answer(label)
                                } else {
                                    "user-"@ + short(id)
                                },
                                unread: 0,
                            },
                        ),
                        screen: added.screen,
                        out: added.out,
                        ..found
                    }) && added.out =~= found.out + seq![OutputModel::SaveChats(added.chats), told]
                },
                Err(e) => {
                    &&& found.request() is Drain
                    &&& found.screen is ChatsDrain
                    &&& only_said(
                        asked,
                        found,
                        seq![failure("Failed to resolve username: "@ + e)],
                    )
                },
            }
        }),
{
    lemma_choices_differ();
}

/// The chat that a number opens is the one at that place, counted from one: its count is cleared,
/// nothing else in the list changes, the list is stored, and the history with its user is asked
/// for. Any other number, or none, opens nothing.
pub proof fn numbers_open_their_chats(
    m: AppModel,
    choice: Option<Text>,
    number: Option<Text>,
    token: Text,
)
    requires
        m.screen is ChatsChoice,
        answer(choice) == "2"@,
        m.session_token == Some(token),
        m.chats.len() <= usize::MAX,
    ensures
        m.chats.len() == 0 ==> line(m, choice).request() is Drain && line(m, choice).screen
            is ChatsDrain && only_said(m, line(m, choice), seq![failure("Chat list is empty"@)]),
        m.chats.len() > 0 ==> ({
            let asked = line(m, choice);
            let n = line(asked, number);
            &&& asked.request() == RequestModel::Ask("chat index"@)
            &&& only_said(m, asked, Seq::empty())
            &&& match parsed_number(answer(number)) {
                Some(k) => if 1 <= k <= m.chats.len() {
                    let opened = m.chats[k - 1];
                    &&& n.chats.len() == m.chats.len()
                    &&& n.chats[k - 1].unread == 0
                    &&& n.chats[k - 1].user_id == opened.user_id
                    &&& n.chats[k - 1].label == opened.label
                    &&& forall|j: int|
                        0 <= j < m.chats.len() && j != k - 1 ==> #[trigger] n.chats[j] == m.chats[j]
                    &&& n == (AppModel {
                        chats: n.chats,
                        screen: n.screen,
                        out: n.out,
                        ..asked
                    })
                    &&& n.out =~= asked.out + seq![
                            OutputModel::SaveChats(n.chats),
                            OutputModel::Line(
                                title_text(
                                    "Chat with "@ + opened.label + " ["@ + opened.user_id + "]"@,
                                ),
                            ),
                        ]
                    &&& n.screen == (ScreenModel::RequestingHistory {
                        chat: OpenChat {
                            index: (k - 1) as usize,
                            user_id: opened.user_id,
                            label: opened.label,
                        },
                    })
                    &&& n.request() == RequestModel::Send(
                        ClientAction::History {
                            session_token: token,
                            with_user_id: opened.user_id,
                            limit: Some(m.config.chat.default_history_limit),
                        },
                    )
                } else {
                    opens_nothing(asked, n)
                },
                None => opens_nothing(asked, n),
            }
        }),
{
    lemma_choices_differ();
}

/// Whether a number was refused and the chat list comes back.
pub open spec fn opens_nothing(m: AppModel, n: AppModel) -> bool {
    &&& n.request() is Drain
    &&& n.screen is ChatsDrain
    &&& only_said(m, n, seq![failure("Invalid index"@)])
}

/// The chat that a number removes is the one at that place, counted from one: the chats before it
/// stay, the chats after it move up by one, the list is stored. Where no two chats are with the
/// same user, there is no chat with that user any more and still one with every other. Any other
/// number, or none, removes nothing.
pub proof fn numbers_remove_their_chats(m: AppModel, choice: Option<Text>, number: Option<Text>)
    requires
        m.screen is ChatsChoice,
        answer(choice) == "3"@,
        m.chats.len() <= usize::MAX,
    ensures
        ({
            let asked = line(m, choice);
            let n = line(asked, number);
            &&& asked.request() == RequestModel::Ask("chat index to remove"@)
            &&& only_said(m, asked, Seq::empty())
            &&& match parsed_number(answer(number)) {
                Some(k) => if 1 <= k <= m.chats.len() {
                    &&& n.chats.len() == m.chats.len() - 1
                    &&& forall|j: int| 0 <= j < k - 1 ==> #[trigger] n.chats[j] == m.chats[j]
                    &&& forall|j: int|
                        k - 1 <= j < n.chats.len() ==> #[trigger] n.chats[j] == m.chats[j + 1]
                    &&& distinct_chats(m.chats) ==> forall|u: Text| #[trigger]
                        has_chat(n.chats, u) <==> has_chat(m.chats, u) && u != m.chats[k
                            - 1].user_id
                    &&& n.request() is Drain
                    &&& n.screen is ChatsDrain
                    &&& n == (AppModel {
                        chats: n.chats,
                        screen: n.screen,
                        out: n.out,
                        ..asked
                    })
                    &&& n.out =~= asked.out + seq![
                            OutputModel::SaveChats(n.chats),
                            success("Chat removed"@),
                        ]
                } else {
                    opens_nothing(asked, n)
                },
                None => opens_nothing(asked, n),
            }
        }),
{
    lemma_choices_differ();
    let n = line(line(m, choice), number);
    if let Some(k) = parsed_number(answer(number)) {
        if 1 <= k <= m.chats.len() && distinct_chats(m.chats) {
            assert forall|u: Text| #[trigger]
                has_chat(n.chats, u) <==> has_chat(m.chats, u) && u != m.chats[k - 1].user_id by {
                if has_chat(n.chats, u) {
                    let i = choose|i: int|
                        0 <= i < n.chats.len() && (#[trigger] n.chats[i]).user_id == u;
                    if i < k - 1 {
                        assert(m.chats[i].user_id == u);
                    } else {
                        assert(m.chats[i + 1].user_id == u);
                    }
                }
                if has_chat(m.chats, u) && u != m.chats[k - 1].user_id {
                    let i = choose|i: int|
                        0 <= i < m.chats.len() && (#[trigger] m.chats[i]).user_id == u;
                    if i < k - 1 {
                        assert(n.chats[i].user_id == u);
                    } else {
                        assert(n.chats[i - 1].user_id == u);
                    }
                }
            }
        }
    }
}

/// The connections are asked for with the token of the session, and all that the service lists are
/// shown; otherwise what went wrong is reported, and the chat list comes back.
pub proof fn connections_are_asked_for_and_shown(
    m: AppModel,
    choice: Option<Text>,
    token: Text,
    connections: Seq<ConnectionInfo<Text>>,
)
    requires
        m.screen is ChatsChoice,
        answer(choice) == "4"@,
        m.session_token == Some(token),
    ensures
        ({
            let wanted = line(m, choice);
            let waiting = wanted.sent(SendOutcome::Queued);
            let shown = waiting.received(Receipt::Got((ServerEvent::Connections { connections })));
            let late = waiting.received(Receipt::DeadlinePassed);
            let lost = waiting.received(Receipt::NoSocket);
            let closed = wanted.sent(SendOutcome::ChannelClosed);
            let missing = wanted.sent(SendOutcome::NotConnected);
            let prefix = "Failed to request list_connections: "@;
            &&& wanted.request() == RequestModel::Send(
                (ClientAction::ListConnections { session_token: token }),
            )
            &&& only_said(m, wanted, Seq::empty())
            &&& waiting.request() is Receive
            &&& only_said(wanted, waiting, seq![OutputModel::StartTimer(3)])
            &&& shown.screen is ChatsDrain
            &&& only_said(waiting, shown, seq![OutputModel::Line(connections_text(connections))])
            &&& late.screen is ChatsDrain
            &&& only_said(waiting, late, seq![failure("No connections response from server"@)])
            &&& lost.screen is ChatsDrain
            &&& only_said(waiting, lost, seq![failure("WebSocket not connected"@)])
            &&& waiting.received(Receipt::Closed) == waiting
            &&& waiting.received(Receipt::Elapsed) == waiting
            &&& closed.screen is ChatsDrain
            &&& only_said(
                wanted,
                closed,
                seq![failure(prefix + "WebSocket channel closed"@)],
            )
            &&& missing.screen is ChatsDrain
            &&& only_said(
                wanted,
                missing,
                seq![failure(prefix + "WebSocket is not connected"@)],
            )
        }),
{
    lemma_choices_differ();
}

/// The history of the open chat is awaited for a while once it was asked for; where it cannot be
/// asked for, that is reported and the chat's menu is shown.
pub proof fn histories_are_awaited(m: AppModel, chat: OpenChat<Text>, outcome: SendOutcome)
    requires
        m.screen == (ScreenModel::RequestingHistory { chat }),
    ensures
        ({
            let n = m.sent(outcome);
            match outcome {
                SendOutcome::Queued => {
                    &&& n.request() is Receive
                    &&& n.screen == (ScreenModel::AwaitingHistory { chat })
                    &&& only_said(m, n, seq![OutputModel::StartTimer(4)])
                },
                SendOutcome::ChannelClosed => menu_follows(
                    m,
                    n,
                    chat,
                    failure("History request failed: "@ + "WebSocket channel closed"@),
                ),
                SendOutcome::NotConnected => menu_follows(
                    m,
                    n,
                    chat,
                    failure("History request failed: "@ + "WebSocket is not connected"@),
                ),
            }
        }),
{
}

/// The history of the open chat is shown whole with the chat's menu, own messages told by the
/// identifier that the service gave to the user; where none comes, that is reported and the menu
/// is shown all the same.
pub proof fn histories_are_shown(
    m: AppModel,
    chat: OpenChat<Text>,
    messages: Seq<StoredMessage<Text>>,
)
    requires
        m.screen == (ScreenModel::AwaitingHistory { chat }),
    ensures
        menu_follows(
            m,
            m.received(
                Receipt::Got((ServerEvent::History { with_user_id: chat.user_id, messages })),
            ),
            chat,
            OutputModel::Line(
                history_text(
                    chat.user_id,
                    messages,
                    match m.me {
                        Some(me) => me.uuid,
                        None => None,
                    },
                ),
            ),
        ),
        menu_follows(
            m,
            m.received(Receipt::DeadlinePassed),
            chat,
            failure("No history response from server (timeout)"@),
        ),
        menu_follows(
            m,
            m.received(Receipt::NoSocket),
            chat,
            failure("WebSocket not connected"@),
        ),
        m.received(Receipt::Closed) == m,
        m.received(Receipt::Elapsed) == m,
{
}

/// Whether the client said one thing and then showed the menu of a chat.
pub open spec fn menu_follows(
    m: AppModel,
    n: AppModel,
    chat: OpenChat<Text>,
    said: OutputModel,
) -> bool {
    &&& n.request() == RequestModel::Ask("Chat menu"@)
    &&& n.screen == (ScreenModel::ChatChoice { chat })
    &&& only_said(m, n, seq![said, OutputModel::Line(CHAT_MENU@)])
}

/// Over an open chat the client waits for the enter key, and then shows the chat again and asks for
/// its history with the token of the session.
pub proof fn open_chats_come_back(
    m: AppModel,
    chat: OpenChat<Text>,
    token: Text,
    enter: Option<Text>,
)
    requires
        m.screen == (ScreenModel::ChatPause { chat }),
        m.session_token == Some(token),
    ensures
        ({
            let n = line(m, enter);
            &&& m.request() is WaitEnter
            &&& n.screen == (ScreenModel::RequestingHistory { chat })
            &&& n.request() == RequestModel::Send(
                (ClientAction::History {
                    session_token: token,
                    with_user_id: chat.user_id,
                    limit: Some(m.config.chat.default_history_limit),
                }),
            )
            &&& only_said(
                m,
                n,
                seq![
                    OutputModel::Line(
                        title_text("Chat with "@ + chat.label + " ["@ + chat.user_id + "]"@),
                    ),
                ],
            )
        }),
{
}

/// In an open chat, a message goes to the chat's user as it was typed and with the token of the
/// session, and what became of it is reported.
pub proof fn messages_from_menu_to_report(
    m: AppModel,
    chat: OpenChat<Text>,
    choice: Option<Text>,
    text: Option<Text>,
    token: Text,
)
    requires
        m.screen == (ScreenModel::ChatChoice { chat }),
        answer(choice) == "1"@,
        answer(text).len() > 0,
        m.session_token == Some(token),
    ensures
        ({
            let wanted = line(line(m, choice), text);
            let sent = wanted.sent(SendOutcome::Queued);
            let closed = wanted.sent(SendOutcome::ChannelClosed);
            let missing = wanted.sent(SendOutcome::NotConnected);
            &&& line(m, choice).request() == RequestModel::Ask("message text"@)
            &&& wanted.request() == RequestModel::Send(
                (ClientAction::SendMessage {
                    session_token: token,
                    receiver_id: chat.user_id,
                    text: Some(answer(text)),
                    file_id: None,
                }),
            )
            &&& only_said(m, wanted, Seq::empty())
            &&& only_said(wanted, sent, seq![success("Message sent"@)])
            &&& sent.screen == (ScreenModel::ChatPause { chat })
            &&& only_said(
                wanted,
                closed,
                seq![failure("Send failed: "@ + "WebSocket channel closed"@)],
            )
            &&& closed.screen == (ScreenModel::ChatPause { chat })
            &&& only_said(
                wanted,
                missing,
                seq![failure("Send failed: "@ + "WebSocket is not connected"@)],
            )
            &&& missing.screen == (ScreenModel::ChatPause { chat })
        }),
{
    lemma_choices_differ();
}

/// In an open chat, marking as read tells the service so about the chat's user, and what became of
/// it is reported. It changes no count itself.
pub proof fn confirmations_from_menu_to_report(
    m: AppModel,
    chat: OpenChat<Text>,
    choice: Option<Text>,
    token: Text,
)
    requires
        m.screen == (ScreenModel::ChatChoice { chat }),
        answer(choice) == "3"@,
        m.session_token == Some(token),
    ensures
        ({
            let wanted = line(m, choice);
            let sent = wanted.sent(SendOutcome::Queued);
            let closed = wanted.sent(SendOutcome::ChannelClosed);
            let missing = wanted.sent(SendOutcome::NotConnected);
            &&& wanted.request() == RequestModel::Send(
                (ClientAction::MarkRead { session_token: token, with_user_id: chat.user_id }),
            )
            &&& only_said(m, wanted, Seq::empty())
            &&& only_said(wanted, sent, seq![success("mark_read sent"@)])
            &&& sent.screen == (ScreenModel::ChatPause { chat })
            &&& only_said(
                wanted,
                closed,
                seq![failure("Mark read failed: "@ + "WebSocket channel closed"@)],
            )
            &&& closed.screen == (ScreenModel::ChatPause { chat })
            &&& only_said(
                wanted,
                missing,
                seq![failure("Mark read failed: "@ + "WebSocket is not connected"@)],
            )
            &&& missing.screen == (ScreenModel::ChatPause { chat })
        }),
{
    lemma_choices_differ();
}

/// In an open chat, a new label is kept whole for that chat alone and stored; the other choices
/// change nothing.
pub proof fn the_other_choices_of_a_chat(
    m: AppModel,
    chat: OpenChat<Text>,
    choice: Option<Text>,
    label: Option<Text>,
)
    requires
        m.screen == (ScreenModel::ChatChoice { chat }),
        chat.index < m.chats.len(),
    ensures
        answer(choice) == "4"@ ==> line(m, choice).request() == RequestModel::Ask("new label"@),
        answer(choice) == "4"@ && answer(label).len() > 0 ==> ({
            let n = line(line(m, choice), label);
            &&& n.chats.len() == m.chats.len()
            &&& n.chats[chat.index as int].label == answer(label)
            &&& n.chats[chat.index as int].user_id == m.chats[chat.index as int].user_id
            &&& n.chats[chat.index as int].unread == m.chats[chat.index as int].unread
            &&& forall|j: int|
                0 <= j < m.chats.len() && j != chat.index ==> #[trigger] n.chats[j] == m.chats[j]
            &&& n == (AppModel {
                chats: n.chats,
                screen: n.screen,
                out: n.out,
                ..m
            })
            &&& n.out =~= m.out + seq![OutputModel::SaveChats(n.chats)]
            &&& n.screen == (ScreenModel::ChatPause { chat })
        }),
        answer(choice) == "2"@ ==> only_said(m, line(m, choice), Seq::empty()) && line(
            m,
            choice,
        ).screen == (ScreenModel::ChatPause { chat }),
        answer(choice) == "0"@ ==> line(m, choice).screen is ChatsDrain && only_said(
            m,
            line(m, choice),
            Seq::empty(),
        ),
        !(seq!["0"@, "1"@, "2"@, "3"@, "4"@].contains(answer(choice))) ==> only_said(
            m,
            line(m, choice),
            seq![failure("Unknown option"@)],
        ) && line(m, choice).screen == (ScreenModel::ChatPause { chat }),
{
    lemma_choices_differ();
    let all = seq!["0"@, "1"@, "2"@, "3"@, "4"@];
    assert(all[0] == "0"@ && all[1] == "1"@ && all[2] == "2"@ && all[3] == "3"@ && all[4] == "4"@);
}

/// Without a session no user is looked up for a new chat: that is reported, and the chat list comes
/// back.
pub proof fn chats_are_not_added_without_a_session(
    m: AppModel,
    choice: Option<Text>,
    username: Option<Text>,
)
    requires
        m.screen is ChatsChoice,
        answer(choice) == "1"@,
        answer(username).len() > 0,
        m.session_token is None,
    ensures
        ({
            let n = line(line(m, choice), username);
            &&& n.request() is Drain
            &&& n.screen is ChatsDrain
            &&& only_said(m, n, seq![failure("Please login first"@)])
        }),
{
    lemma_choices_differ();
}

} // verus!
