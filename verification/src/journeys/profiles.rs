//! How profiles are shown and changed.

use crate::app::{OutputModel, RequestModel};
use crate::auth::{
    endpoint_url, json_outcome, plain_ok, ChangeAnyThingPayload, HttpReply, HttpRequest, JsonBody,
    Method,
};
use crate::console::{answer, profile_text, title_text, PROFILE_MENU};
use crate::journeys::{failure, lemma_choices_differ, line, only_said, profile_of, success};
use crate::model::AppModel;
use crate::text::Text;
use crate::wire::{SessionUserInfo, UserProfile};
use vstd::prelude::*;

verus! {

/// Whether the profile menu is shown after other things.
pub open spec fn profile_menu_follows(m: AppModel, n: AppModel, said: OutputModel) -> bool {
    &&& n.request() == RequestModel::Ask("Profiles menu"@)
    &&& n.screen is ProfileChoice
    &&& only_said(m, n, seq![said, OutputModel::Line(PROFILE_MENU@)])
}

/// The profile menu is shown under its heading, and again after the enter key; the way back leads
/// to the main menu, and a choice that there is not is reported.
pub proof fn the_profile_menu_is_shown(m: AppModel, choice: Option<Text>)
    ensures
        m.screen is MainChoice && answer(choice) == "5"@ && m.session_token is Some
            ==> profile_menu_follows(
            m,
            line(m, choice),
            OutputModel::Line(title_text("Profiles"@)),
        ),
        m.screen is ProfilePause ==> m.request() is WaitEnter && profile_menu_follows(
            m,
            line(m, choice),
            OutputModel::Line(title_text("Profiles"@)),
        ),
        m.screen is ProfileChoice && answer(choice) == "0"@ ==> line(m, choice).screen is MainPause
            && only_said(m, line(m, choice), Seq::empty()),
        m.screen is ProfileChoice && !(seq!["0"@, "1"@, "2"@, "3"@, "4"@, "5"@, "6"@, "7"@].contains(
            answer(choice),
        )) ==> line(m, choice).screen is ProfilePause && only_said(
            m,
            line(m, choice),
            seq![failure("Unknown option"@)],
        ),
{
    lemma_choices_differ();
    let all = seq!["0"@, "1"@, "2"@, "3"@, "4"@, "5"@, "6"@, "7"@];
    assert(all[0] == "0"@ && all[1] == "1"@ && all[2] == "2"@ && all[3] == "3"@ && all[4] == "4"@
        && all[5] == "5"@ && all[6] == "6"@ && all[7] == "7"@);
}

/// A profile is asked for under the user's own name or under the typed one, with the token of the
/// session, and shown whole; otherwise the whole reason is reported.
pub proof fn profiles_are_asked_for_and_shown(
    m: AppModel,
    own: Option<Text>,
    find: Option<Text>,
    username: Option<Text>,
    token: Text,
    me: SessionUserInfo<Text>,
    reply: HttpReply<Text>,
    parsed: Result<UserProfile<Text>, Text>,
)
    requires
        m.screen is ProfileChoice,
        answer(own) == "1"@,
        answer(find) == "2"@,
        answer(username).len() > 0,
        m.session_token == Some(token),
        m.me == Some(me),
    ensures
        ({
            let mine = line(m, own);
            let theirs = line(line(m, find), username);
            &&& mine.request() == profile_of(m.auth_url, token, me.username)
            &&& only_said(m, mine, Seq::empty())
            &&& profile_is_shown(mine, reply, parsed)
            &&& line(m, find).request() == RequestModel::Ask("username"@)
            &&& theirs.request() == profile_of(m.auth_url, token, answer(username))
            &&& only_said(m, theirs, Seq::empty())
            &&& profile_is_shown(theirs, reply, parsed)
        }),
{
    lemma_choices_differ();
}

/// Whether the client shows the profile that it gets, or reports why it gets none.
pub open spec fn profile_is_shown(
    m: AppModel,
    reply: HttpReply<Text>,
    parsed: Result<UserProfile<Text>, Text>,
) -> bool {
    let n = m.got_profile(reply, parsed);
    &&& n.screen is ProfilePause
    &&& only_said(
        m,
        n,
        match json_outcome(reply, parsed) {
            Ok(profile) => seq![OutputModel::Line(profile_text(profile))],
            Err(e) => seq![failure("Failed to load profile: "@ + e)],
        },
    )
}

/// Without a session, or where the user is not known, the profile menu says so and asks again.
pub proof fn profiles_need_a_session(m: AppModel, choice: Option<Text>, username: Option<Text>)
    requires
        m.screen is ProfileChoice,
    ensures
        answer(choice) == "1"@ && m.session_token is None ==> profile_menu_follows(
            m,
            line(m, choice),
            failure("Please login first"@),
        ),
        answer(choice) == "1"@ && m.session_token is Some && m.me is None ==> profile_menu_follows(
            m,
            line(m, choice),
            failure("Current user is unknown"@),
        ),
        answer(choice) == "2"@ && answer(username).len() > 0 && m.session_token is None
            ==> profile_menu_follows(
            m,
            line(line(m, choice), username),
            failure("Please login first"@),
        ),
        seq!["3"@, "4"@, "5"@, "6"@, "7"@].contains(answer(choice)) && m.session_token is None
            ==> line(m, choice).screen is ProfilePause && only_said(
            m,
            line(m, choice),
            seq![failure("Please login first"@)],
        ),
{
    lemma_choices_differ();
}

/// The name of the field that a choice of the profile menu changes.
pub open spec fn chosen_field(choice: Text) -> Text {
    if choice == "3"@ {
        "first name"@
    } else if choice == "4"@ {
        "last name"@
    } else if choice == "5"@ {
        "date of birth"@
    } else if choice == "6"@ {
        "additional info"@
    } else {
        "username"@
    }
}

/// The request that changes the field that a choice stands for: a new name of the user is a query,
/// every other value is posted.
pub open spec fn change_of(choice: Text, auth_url: Text, token: Text, value: Text) -> RequestModel {
    RequestModel::Plain(
        if choice == "7"@ {
            HttpRequest {
                method: Method::Get,
                url: endpoint_url(auth_url, "changeusername"@),
                query: seq![("session_tocken"@, token), ("new_value"@, value)],
                body: JsonBody::Empty,
            }
        } else {
            HttpRequest {
                method: Method::Post,
                url: endpoint_url(
                    auth_url,
                    if choice == "3"@ {
                        "changefirstname"@
                    } else if choice == "4"@ {
                        "changelastname"@
                    } else if choice == "5"@ {
                        "changedateofbirth"@
                    } else {
                        "changeadditionalinfo"@
                    },
                ),
                query: Seq::<(Text, Text)>::empty(),
                body: JsonBody::Change(
                    ChangeAnyThingPayload { session_tocken: token, new_value: value },
                ),
            }
        },
    )
}

/// A change of the profile sends the typed value for the chosen field. A confirmed change of the
/// user's name changes that name and nothing else that the client knows: the identifier, the token,
/// the account, the chats and the connection stay. A confirmed change of another field, or a
/// refused one, changes nothing.
pub proof fn profile_changes_from_menu_to_report(
    m: AppModel,
    choice: Option<Text>,
    value: Option<Text>,
    token: Text,
    reply: HttpReply<Text>,
)
    requires
        m.screen is ProfileChoice,
        answer(choice) == "3"@ || answer(choice) == "4"@ || answer(choice) == "5"@ || answer(choice)
            == "6"@ || answer(choice) == "7"@,
        answer(value).len() > 0,
        m.session_token == Some(token),
    ensures
        ({
            let sent = line(line(m, choice), value);
            let done = sent.replied(reply);
            &&& line(m, choice).request() == RequestModel::Ask(
                "new "@ + chosen_field(answer(choice)),
            )
            &&& sent.request() == change_of(answer(choice), m.auth_url, token, answer(value))
            &&& only_said(m, sent, Seq::empty())
            &&& done.screen is ProfilePause
            &&& match plain_ok(reply) {
                Ok(()) => {
                    &&& done == (AppModel {
                        me: done.me,
                        screen: done.screen,
                        out: done.out,
                        ..sent
                    })
                    &&& done.out =~= sent.out + seq![success("Profile updated"@)]
                    &&& answer(choice) != "7"@ ==> done.me == m.me
                    &&& m.me is None ==> done.me is None
                    &&& answer(choice) == "7"@ && m.me is Some ==> done.me is Some
                        && done.me->0.username == answer(value) && done.me->0.uuid == m.me->0.uuid
                },
                Err(e) => only_said(sent, done, seq![failure("Update failed: "@ + e)]),
            }
        }),
{
    lemma_choices_differ();
}

} // verus!
