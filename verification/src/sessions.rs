//! Saved sessions: the names of the accounts that can be switched to, and the tokens that the
//! system's keyring holds for them.

use crate::text::{outcome_text, same, texts, Text};
use vstd::prelude::*;

verus! {

/// How the keyring answered: it had no entry to offer, or it did what it was asked for or not.
#[derive(Debug, PartialEq, Eq)]
pub enum Keyring<T> {
    Unavailable(String),
    Opened(Result<T, String>),
}

/// Whether the keyring did what it was asked for; `prefix` starts the message where it did not.
pub open spec fn keyring_outcome(answer: Keyring<()>, prefix: Text) -> Result<(), Text> {
    match answer {
        Keyring::Unavailable(e) => Err("Keyring error: "@ + e@),
        Keyring::Opened(Ok(())) => Ok(()),
        Keyring::Opened(Err(e)) => Err(prefix + e@),
    }
}

/// Whether a token was saved.
pub fn save_session(answer: Keyring<()>) -> (r: Result<(), String>)
    ensures
        outcome_text(r) == keyring_outcome(answer, "Failed to save session: "@),
{
    match answer {
        Keyring::Unavailable(e) => Err("Keyring error: ".to_owned().concat(e.as_str())),
        Keyring::Opened(Ok(())) => Ok(()),
        Keyring::Opened(Err(e)) => Err(
            "Failed to save session: ".to_owned().concat(e.as_str()),
        ),
    }
}

/// Whether a token was deleted.
pub fn delete_session(answer: Keyring<()>) -> (r: Result<(), String>)
    ensures
        outcome_text(r) == keyring_outcome(answer, "Failed to delete session: "@),
{
    match answer {
        Keyring::Unavailable(e) => Err("Keyring error: ".to_owned().concat(e.as_str())),
        Keyring::Opened(Ok(())) => Ok(()),
        Keyring::Opened(Err(e)) => Err(
            "Failed to delete session: ".to_owned().concat(e.as_str()),
        ),
    }
}

/// The token that the keyring holds, if it holds one.
pub fn load_session(answer: Keyring<String>) -> (r: Option<String>)
    ensures
        r == (match answer {
            Keyring::Opened(Ok(token)) => Some(token),
            _ => None,
        }),
{
    match answer {
        Keyring::Opened(Ok(token)) => Some(token),
        Keyring::Opened(Err(_)) => None,
        Keyring::Unavailable(_) => None,
    }
}

/// The names that the stored file holds; none where it is missing or unreadable.
pub fn load_sessions_list(stored: Option<Vec<String>>) -> (r: Vec<String>)
    ensures
        match stored {
            Some(list) => r == list,
            None => r@.len() == 0,
        },
{
    match stored {
        Some(list) => list,
        None => Vec::new(),
    }
}

/// A list of names with `username` in it: at the end, unless it is there already.
pub open spec fn remembered(names: Seq<Text>, username: Text) -> Seq<Text> {
    if names.contains(username) {
        names
    } else {
        names.push(username)
    }
}

/// A list of names without `username`; the others stay in their order.
pub open spec fn forgotten(names: Seq<Text>, username: Text) -> Seq<Text>
    decreases names.len(),
{
    if names.len() == 0 {
        names
    } else if names.last() == username {
        forgotten(names.drop_last(), username)
    } else {
        forgotten(names.drop_last(), username).push(names.last())
    }
}

/// Adds a name to the saved accounts.
pub fn add_to_sessions_list(sessions: Vec<String>, username: &str) -> (r: Vec<String>)
    ensures
        texts(r@) == remembered(texts(sessions@), username@),
{
    let mut i: usize = 0;
    while i < sessions.len()
        invariant
            i <= sessions@.len(),
            forall|j: int| 0 <= j < i ==> texts(sessions@)[j] != username@,
        decreases sessions@.len() - i,
    {
        if same(sessions[i].as_str(), username) {
            assert(texts(sessions@)[i as int] == username@);
            return sessions;
        }
        i = i + 1;
    }
    let mut longer = sessions;
    longer.push(username.to_owned());
    assert(texts(longer@) =~= texts(sessions@).push(username@));
    longer
}

/// Removes a name from the saved accounts.
pub fn remove_from_sessions_list(sessions: Vec<String>, username: &str) -> (r: Vec<String>)
    ensures
        texts(r@) == forgotten(texts(sessions@), username@),
{
    let mut kept: Vec<String> = Vec::new();
    let mut i: usize = 0;
    assert(texts(kept@) =~= forgotten(texts(sessions@).take(0), username@));
    while i < sessions.len()
        invariant
            i <= sessions@.len(),
            texts(kept@) == forgotten(texts(sessions@).take(i as int), username@),
        decreases sessions@.len() - i,
    {
        let ghost before = kept@;
        let ghost longer = texts(sessions@).take(i + 1);
        assert(longer.drop_last() =~= texts(sessions@).take(i as int));
        assert(longer.last() == sessions@[i as int]@);
        if !same(sessions[i].as_str(), username) {
            kept.push(sessions[i].clone());
            assert(texts(kept@) =~= texts(before).push(sessions@[i as int]@));
        }
        i = i + 1;
    }
    assert(texts(sessions@).take(sessions@.len() as int) =~= texts(sessions@));
    kept
}

/// A name that was added is in the list, and adding it again changes nothing.
pub proof fn adding_is_idempotent(names: Seq<Text>, username: Text)
    ensures
        remembered(names, username).contains(username),
        remembered(remembered(names, username), username) == remembered(names, username),
{
    if !names.contains(username) {
        assert(names.push(username)[names.len() as int] == username);
    }
}

/// Adding a name keeps every name that was there, in its place.
pub proof fn adding_keeps_the_others(names: Seq<Text>, username: Text)
    ensures
        remembered(names, username).len() >= names.len(),
        remembered(names, username).take(names.len() as int) == names,
{
    assert(remembered(names, username).take(names.len() as int) =~= names);
}

/// Adding or removing a name leaves a list without repetitions without repetitions.
pub proof fn saved_accounts_stay_distinct(names: Seq<Text>, username: Text)
    requires
        names.no_duplicates(),
    ensures
        remembered(names, username).no_duplicates(),
        forgotten(names, username).no_duplicates(),
    decreases names.len(),
{
    if names.len() > 0 {
        saved_accounts_stay_distinct(names.drop_last(), username);
        assert forall|n: Text| #[trigger]
            forgotten(names.drop_last(), username).contains(n) implies names.drop_last().contains(
            n,
        ) by {
            removing_removes_only_that_name(names.drop_last(), username, n);
        }
        if forgotten(names.drop_last(), username).contains(names.last()) {
            let i = choose|i: int|
                0 <= i < names.drop_last().len() && names.drop_last()[i] == names.last();
            assert(names[i] == names.last());
        }
    }
}

/// After a name was removed it is not in the list, and every other name is in the list exactly if
/// it was before.
pub proof fn removing_removes_only_that_name(names: Seq<Text>, username: Text, other: Text)
    ensures
        forgotten(names, username).contains(other) <==> names.contains(other) && other != username,
    decreases names.len(),
{
    if names.len() > 0 {
        let init = names.drop_last();
        let kept = forgotten(init, username);
        removing_removes_only_that_name(init, username, other);
        assert(names =~= init.push(names.last()));
        if init.contains(other) {
            let i = choose|i: int| 0 <= i < init.len() && init[i] == other;
            assert(names[i] == other);
        }
        if names.contains(other) && other != names.last() {
            let i = choose|i: int| 0 <= i < names.len() && names[i] == other;
            assert(init[i] == other);
        }
        if names.last() != username {
            if kept.contains(other) {
                let i = choose|i: int| 0 <= i < kept.len() && kept[i] == other;
                assert(kept.push(names.last())[i] == other);
            }
            assert(kept.push(names.last())[kept.len() as int] == names.last());
            if kept.push(names.last()).contains(other) && other != names.last() {
                let i = choose|i: int|
                    0 <= i < kept.push(names.last()).len() && kept.push(names.last())[i] == other;
                assert(kept[i] == other);
            }
        }
    }
}

/// Removing a name undoes adding it, where it was not in the list before.
pub proof fn removing_undoes_adding(names: Seq<Text>, username: Text)
    requires
        !names.contains(username),
    ensures
        forgotten(remembered(names, username), username) == names,
{
    lemma_nothing_to_remove(names, username);
    assert(names.push(username).drop_last() =~= names);
}

proof fn lemma_nothing_to_remove(names: Seq<Text>, username: Text)
    requires
        !names.contains(username),
    ensures
        forgotten(names, username) == names,
    decreases names.len(),
{
    if names.len() > 0 {
        let init = names.drop_last();
        if init.contains(username) {
            let i = choose|i: int| 0 <= i < init.len() && init[i] == username;
            assert(names[i] == username);
        }
        lemma_nothing_to_remove(init, username);
        assert(init.push(names.last()) =~= names);
    }
}

/// Removing a name keeps exactly the other names, each as often as it was there and in the same
/// order.
pub proof fn removing_filters_the_list(names: Seq<Text>, username: Text)
    ensures
        forgotten(names, username) == names.filter(|n: Text| n != username),
    decreases names.len(),
{
    reveal(Seq::filter);
    if names.len() > 0 {
        removing_filters_the_list(names.drop_last(), username);
    }
}

/// Adding a name that is not there puts it at the end, as it is; adding one that is there changes
/// nothing.
pub proof fn adding_puts_new_names_at_the_end(names: Seq<Text>, username: Text)
    ensures
        (exists|i: int| 0 <= i < names.len() && names[i] == username) ==> remembered(
            names,
            username,
        ) == names,
        (forall|i: int| 0 <= i < names.len() ==> names[i] != username) ==> remembered(
            names,
            username,
        ) == names + seq![username],
{
    assert(names.push(username) =~= names + seq![username]);
}

/// What the keyring does not do is reported with the whole of its reason, and what it does is a
/// success.
pub proof fn keyring_failures_give_the_reason(reason: String, prefix: Text)
    ensures
        keyring_outcome(Keyring::Opened(Ok(())), prefix) == Ok::<(), Text>(()),
        keyring_outcome(Keyring::Opened(Err(reason)), prefix) == Err::<(), Text>(prefix + reason@),
        keyring_outcome(Keyring::Unavailable(reason), prefix) == Err::<(), Text>(
            "Keyring error: "@ + reason@,
        ),
{
}

} // verus!
