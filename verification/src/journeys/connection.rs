//! How the client gets a connection to the chat service, uses it and loses it.

use crate::app::{AfterConnect, OutputModel, Receipt, RequestModel, ScreenModel, SendOutcome};
use crate::console::{answer, title_text};
use crate::journeys::{failure, lemma_choices_differ, line, only_said, success};
use crate::model::AppModel;
use crate::text::{decimal, Text};
use crate::wire::{ClientAction, ServerEvent};
use vstd::prelude::*;

verus! {

/// What the client reports where it does not get a connection that was wanted by a choice of the
/// main menu.
pub open spec fn no_connection(choice: Text, reason: Text) -> OutputModel {
    if choice == "4"@ {
        failure("Cannot open chat menu: "@ + reason)
    } else if choice == "6"@ {
        failure("Cannot ping chat: "@ + reason)
    } else {
        failure("Chat connection failed: "@ + reason)
    }
}

/// A connection that is wanted from the main menu is opened at the configured address and joined
/// with the token of the session; whatever goes wrong is reported with its whole reason and leaves
/// no socket.
pub proof fn connections_from_menu_to_join(
    m: AppModel,
    choice: Option<Text>,
    token: Text,
    reason: Text,
)
    requires
        m.screen is MainChoice,
        answer(choice) == "3"@ || answer(choice) == "4"@ || answer(choice) == "6"@,
        m.session_token == Some(token),
        !m.connected,
    ensures
        ({
            let wanted = line(m, choice);
            let failed = wanted.socket_opened(Err(reason));
            let opened = wanted.socket_opened(Ok(()));
            let joining = opened.sent(SendOutcome::Queued);
            let unsent = opened.sent(SendOutcome::ChannelClosed);
            &&& wanted.request() == (RequestModel::Connect { url: m.config.chat.ws_url })
            &&& only_said(
                m,
                wanted,
                if answer(choice) == "4"@ {
                    seq![OutputModel::Line(title_text("Chats"@))]
                } else {
                    Seq::empty()
                },
            )
            &&& failed.screen is MainPause
            &&& only_said(
                wanted,
                failed,
                seq![no_connection(answer(choice), "ws connect failed: "@ + reason)],
            )
            &&& opened.request() == RequestModel::Send(
                (ClientAction::Join { session_token: token }),
            )
            &&& only_said(wanted, opened, Seq::empty())
            &&& opened.sent(SendOutcome::NotConnected) == unsent
            &&& unsent.screen is MainPause
            &&& only_said(
                opened,
                unsent,
                seq![
                    OutputModel::CloseSocket,
                    no_connection(answer(choice), "failed to send join action"@),
                ],
            )
            &&& joining.request() is Receive
            &&& joining.screen == (ScreenModel::Joining {
                after: if answer(choice) == "4"@ {
                    AfterConnect::Chats
                } else if answer(choice) == "6"@ {
                    AfterConnect::Ping
                } else {
                    AfterConnect::Menu
                },
            })
            &&& joining == (AppModel {
                connected: true,
                screen: joining.screen,
                out: joining.out,
                ..opened
            })
            &&& joining.out =~= opened.out + seq![OutputModel::StartTimer(5)]
        }),
{
    lemma_choices_differ();
}

/// While the client waits to be let in: the service lets it in, and it goes on with what the
/// connection was wanted for; or it is refused, or nothing comes, or the socket is lost, and the
/// socket is dropped and the reason reported; or something else comes, and it goes on waiting.
pub proof fn joins_end_as_the_service_says(
    m: AppModel,
    choice: Text,
    token: Text,
    user_id: Text,
    username: Text,
    connection_number: usize,
    message: Text,
)
    requires
        m.screen == (ScreenModel::Joining {
            after: if choice == "4"@ {
                AfterConnect::Chats
            } else if choice == "6"@ {
                AfterConnect::Ping
            } else {
                AfterConnect::Menu
            },
        }),
        m.session_token == Some(token),
        m.connected,
    ensures
        ({
            let joined = m.received(
                    Receipt::Got((ServerEvent::Joined { user_id, username, connection_number })),
                );
            let rejected = m.received(Receipt::Got((ServerEvent::Error { message })));
            &&& only_said(
                m,
                joined,
                seq![
                    success(
                        "Joined as "@ + username + " ("@ + user_id + ") [connection #"@ + decimal(
                            connection_number as nat,
                        ) + "]"@,
                    ),
                    success("Connected to chat WebSocket"@),
                ],
            )
            &&& joined.request() == if choice == "4"@ {
                RequestModel::Drain
            } else if choice == "6"@ {
                RequestModel::Send((ClientAction::Ping { session_token: token }))
            } else {
                RequestModel::WaitEnter
            }
            &&& dropped(m, rejected, choice, "Join rejected: "@ + message)
            &&& dropped(
                m,
                m.received(Receipt::DeadlinePassed),
                choice,
                "Join timeout"@,
            )
            &&& dropped(
                m,
                m.received(Receipt::NoSocket),
                choice,
                "WebSocket disconnected"@,
            )
            &&& dropped(
                m,
                m.received(Receipt::Closed),
                choice,
                "WebSocket closed"@,
            )
            &&& m.received(Receipt::Elapsed) == m
        }),
{
    lemma_choices_differ();
}

/// Whether the client dropped its socket and reported why.
pub open spec fn dropped(m: AppModel, n: AppModel, choice: Text, reason: Text) -> bool {
    &&& n.screen is MainPause
    &&& n == (AppModel {
        connected: false,
        screen: n.screen,
        out: n.out,
        ..m
    })
    &&& n.out =~= m.out + seq![OutputModel::CloseSocket, no_connection(choice, reason)]
}

/// A connection is not made twice, and none is made without a session; the menus that need a
/// session are refused without one.
pub proof fn connections_need_a_session_and_no_socket(m: AppModel, choice: Option<Text>)
    requires
        m.screen is MainChoice,
    ensures
        answer(choice) == "3"@ && m.connected ==> line(m, choice).screen is MainPause && only_said(
            m,
            line(m, choice),
            seq![success("Chat socket is already connected"@)],
        ),
        answer(choice) == "3"@ && !m.connected && m.session_token is None ==> line(
            m,
            choice,
        ).screen is MainPause && only_said(
            m,
            line(m, choice),
            seq![failure("Chat connection failed: "@ + "Please login first"@)],
        ),
        answer(choice) == "4"@ && m.session_token is None ==> line(m, choice).screen is MainPause
            && only_said(
            m,
            line(m, choice),
            seq![
                OutputModel::Line(title_text("Chats"@)),
                failure("Please login first"@),
            ],
        ),
        answer(choice) == "5"@ && m.session_token is None ==> line(m, choice).screen is MainPause
            && only_said(
            m,
            line(m, choice),
            seq![
                OutputModel::Line(title_text("Profiles"@)),
                failure("Please login first"@),
            ],
        ),
        answer(choice) == "6"@ && m.session_token is None ==> line(m, choice).screen is MainPause
            && only_said(m, line(m, choice), seq![failure("Please login first"@)]),
{
    lemma_choices_differ();
}

/// A ping over the socket that is there carries the token of the session and is answered by the
/// service's answer alone; otherwise what went wrong is reported.
pub proof fn pings_from_menu_to_report(m: AppModel, choice: Option<Text>, token: Text)
    requires
        m.screen is MainChoice,
        answer(choice) == "6"@,
        m.session_token == Some(token),
        m.connected,
    ensures
        ({
            let wanted = line(m, choice);
            let waiting = wanted.sent(SendOutcome::Queued);
            let pong = waiting.received(Receipt::Got(ServerEvent::Pong));
            let late = waiting.received(Receipt::DeadlinePassed);
            let lost = waiting.received(Receipt::NoSocket);
            let closed = wanted.sent(SendOutcome::ChannelClosed);
            let missing = wanted.sent(SendOutcome::NotConnected);
            &&& wanted.request() == RequestModel::Send(
                (ClientAction::Ping { session_token: token }),
            )
            &&& only_said(m, wanted, Seq::empty())
            &&& waiting.request() is Receive
            &&& only_said(wanted, waiting, seq![OutputModel::StartTimer(3)])
            &&& pong.screen is MainPause
            &&& only_said(waiting, pong, seq![success("Pong received"@)])
            &&& late.screen is MainPause
            &&& only_said(waiting, late, seq![failure("Ping timeout"@)])
            &&& lost.screen is MainPause
            &&& only_said(waiting, lost, seq![failure("WebSocket not connected"@)])
            &&& waiting.received(Receipt::Closed) == waiting
            &&& waiting.received(Receipt::Elapsed) == waiting
            &&& closed.screen is MainPause
            &&& only_said(
                wanted,
                closed,
                seq![failure("Ping failed: "@ + "WebSocket channel closed"@)],
            )
            &&& missing.screen is MainPause
            &&& only_said(
                wanted,
                missing,
                seq![failure("Ping failed: "@ + "WebSocket is not connected"@)],
            )
        }),
{
    lemma_choices_differ();
}

/// Whatever choice there is not is reported, and every report of the main menu waits for the enter
/// key before the menu is shown again.
pub proof fn the_main_menu_comes_back(m: AppModel, choice: Option<Text>)
    ensures
        m.screen is MainChoice ==> m.request() == RequestModel::Ask("Select option"@),
        m.screen is MainChoice && !(seq![
            "0"@,
            "1"@,
            "2"@,
            "3"@,
            "4"@,
            "5"@,
            "6"@,
            "7"@,
            "8"@,
        ].contains(answer(choice))) ==> line(m, choice).screen is MainPause && only_said(
            m,
            line(m, choice),
            seq![failure("Unknown menu option"@)],
        ),
        m.screen is MainPause ==> m.request() is WaitEnter && line(m, choice).request() is Drain
            && line(m, choice).screen is MainDrain && only_said(
            m,
            line(m, choice),
            Seq::empty(),
        ),
{
    let all = seq!["0"@, "1"@, "2"@, "3"@, "4"@, "5"@, "6"@, "7"@, "8"@];
    assert(all[0] == "0"@ && all[1] == "1"@ && all[2] == "2"@ && all[3] == "3"@ && all[4] == "4"@
        && all[5] == "5"@ && all[6] == "6"@ && all[7] == "7"@ && all[8] == "8"@);
}

/// After a login or a switch, a connection is opened at the configured address and joined with the
/// token; whatever goes wrong is reported with its whole reason and leaves no socket.
pub proof fn connections_after_a_login(m: AppModel, token: Text, reason: Text)
    requires
        m.screen == (ScreenModel::Connecting { after: AfterConnect::Menu, token }),
        !m.connected,
    ensures
        ({
            let failed = m.socket_opened(Err(reason));
            let opened = m.socket_opened(Ok(()));
            let joining = opened.sent(SendOutcome::Queued);
            &&& m.request() == (RequestModel::Connect { url: m.config.chat.ws_url })
            &&& failed.screen is MainPause
            &&& only_said(
                m,
                failed,
                seq![failure("Chat connection failed: "@ + ("ws connect failed: "@ + reason))],
            )
            &&& opened.request() == RequestModel::Send(
                (ClientAction::Join { session_token: token }),
            )
            &&& only_said(m, opened, Seq::empty())
            &&& joining.screen == (ScreenModel::Joining { after: AfterConnect::Menu })
            &&& joining == (AppModel {
                connected: true,
                screen: joining.screen,
                out: joining.out,
                ..m
            })
            &&& joining.out =~= m.out + seq![OutputModel::StartTimer(5)]
        }),
{
}

} // verus!
