//! The local chat list: whom the user talks to, under which label, and how many messages of each
//! chat are unread.

use crate::text::{opt_text, same, short, short_id, Text};
use vstd::prelude::*;

verus! {

/// A chat in the list.
#[derive(Debug, PartialEq, Eq)]
pub struct ChatEntry<S = String> {
    pub user_id: S,
    pub label: S,
    pub unread: usize,
}

impl View for ChatEntry {
    type V = ChatEntry<Text>;

    open spec fn view(&self) -> ChatEntry<Text> {
        ChatEntry { user_id: self.user_id@, label: self.label@, unread: self.unread }
    }
}

impl Clone for ChatEntry {
    fn clone(&self) -> (r: Self)
        ensures
            r == *self,
    {
        ChatEntry { user_id: self.user_id.clone(), label: self.label.clone(), unread: self.unread }
    }
}

/// The model of a chat list.
pub open spec fn chats_model(list: Seq<ChatEntry>) -> Seq<ChatEntry<Text>> {
    list.map_values(|c: ChatEntry| c@)
}

/// Copies a chat list.
pub fn copy_chats(chats: &Vec<ChatEntry>) -> (r: Vec<ChatEntry>)
    ensures
        r@ == chats@,
{
    let r = chats.clone();
    assert(r@ =~= chats@);
    r
}

/// The list that the stored file holds; an empty one where it is missing or unreadable.
pub fn load_chats_list(stored: Option<Vec<ChatEntry>>) -> (r: Vec<ChatEntry>)
    ensures
        match stored {
            Some(list) => r == list,
            None => r@.len() == 0,
        },
{
    match stored {
        Some(list) => list,
        None => Vec::new(),
    }
}

/// Whether the list has a chat with a user.
pub open spec fn has_chat(chats: Seq<ChatEntry<Text>>, user_id: Text) -> bool {
    exists|i: int| 0 <= i < chats.len() && (#[trigger] chats[i]).user_id == user_id
}

/// The place of the first chat with a user; the length of the list where there is none.
pub open spec fn chat_position(chats: Seq<ChatEntry<Text>>, user_id: Text) -> int
    decreases chats.len(),
{
    if chats.len() == 0 || chats[0].user_id == user_id {
        0
    } else {
        1 + chat_position(chats.drop_first(), user_id)
    }
}

/// The label of a chat that was given none.
pub open spec fn default_label(user_id: Text) -> Text {
    "user-"@ + short(user_id)
}

/// A chat list that has a chat with `user_id`: a new one stands at the end, with nothing unread.
pub open spec fn with_chat(
    chats: Seq<ChatEntry<Text>>,
    user_id: Text,
    label: Option<Text>,
) -> Seq<ChatEntry<Text>> {
    if has_chat(chats, user_id) {
        chats
    } else {
        chats.push(
            ChatEntry {
                user_id,
                label: match label {
                    Some(text) => text,
                    None => default_label(user_id),
                },
                unread: 0,
            },
        )
    }
}

/// One more than a count of unread messages; the count stays at the largest number it can hold.
pub open spec fn one_more(unread: usize) -> usize {
    if unread == usize::MAX {
        unread
    } else {
        (unread + 1) as usize
    }
}

/// A chat list after one more message from a user.
pub open spec fn with_unread(chats: Seq<ChatEntry<Text>>, user_id: Text) -> Seq<ChatEntry<Text>> {
    let i = chat_position(chats, user_id);
    if i < chats.len() {
        chats.update(i, ChatEntry { unread: one_more(chats[i].unread), ..chats[i] })
    } else {
        chats
    }
}

/// A chat list after the messages at one place were read.
pub open spec fn with_read_at(chats: Seq<ChatEntry<Text>>, i: int) -> Seq<ChatEntry<Text>> {
    chats.update(i, ChatEntry { unread: 0, ..chats[i] })
}

/// A chat list after the messages of a user were read.
pub open spec fn with_read(chats: Seq<ChatEntry<Text>>, user_id: Text) -> Seq<ChatEntry<Text>> {
    let i = chat_position(chats, user_id);
    if i < chats.len() {
        with_read_at(chats, i)
    } else {
        chats
    }
}

/// A chat list after one chat got another label.
pub open spec fn with_label(
    chats: Seq<ChatEntry<Text>>,
    i: int,
    label: Text,
) -> Seq<ChatEntry<Text>> {
    chats.update(i, ChatEntry { label, ..chats[i] })
}

/// The place of a user's chat is that of the first chat with the user, if there is one.
pub proof fn places_are_found(chats: Seq<ChatEntry<Text>>, user_id: Text)
    ensures
        0 <= chat_position(chats, user_id) <= chats.len(),
        has_chat(chats, user_id) <==> chat_position(chats, user_id) < chats.len(),
        has_chat(chats, user_id) ==> chats[chat_position(chats, user_id)].user_id == user_id,
        forall|j: int|
            0 <= j < chat_position(chats, user_id) ==> (#[trigger] chats[j]).user_id != user_id,
    decreases chats.len(),
{
    if chats.len() > 0 && chats[0].user_id != user_id {
        let rest = chats.drop_first();
        places_are_found(rest, user_id);
        assert forall|j: int| 0 <= j < chat_position(chats, user_id) implies (
        #[trigger] chats[j]).user_id != user_id by {
            if j > 0 {
                assert(chats[j] == rest[j - 1]);
            }
        }
        if has_chat(chats, user_id) {
            let i = choose|i: int| 0 <= i < chats.len() && (#[trigger] chats[i]).user_id == user_id;
            assert(rest[i - 1].user_id == user_id);
        }
        if has_chat(rest, user_id) {
            let i = choose|i: int| 0 <= i < rest.len() && (#[trigger] rest[i]).user_id == user_id;
            assert(chats[i + 1].user_id == user_id);
        }
    }
}

proof fn lemma_place_is(chats: Seq<ChatEntry<Text>>, user_id: Text, i: int)
    requires
        0 <= i <= chats.len(),
        i < chats.len() ==> chats[i].user_id == user_id,
        forall|j: int| 0 <= j < i ==> (#[trigger] chats[j]).user_id != user_id,
    ensures
        chat_position(chats, user_id) == i,
{
    places_are_found(chats, user_id);
    let p = chat_position(chats, user_id);
    if p < i {
        assert(chats[p].user_id == user_id);
    }
    if i < p {
        assert(chats[i].user_id != user_id);
    }
}

/// Finds the first chat with a user; the length of the list where there is none.
pub fn find_chat(chats: &Vec<ChatEntry>, user_id: &str) -> (r: usize)
    ensures
        r == chat_position(chats_model(chats@), user_id@),
        r <= chats@.len(),
        r < chats@.len() <==> has_chat(chats_model(chats@), user_id@),
{
    let mut i: usize = 0;
    while i < chats.len() && !same(chats[i].user_id.as_str(), user_id)
        invariant
            i <= chats@.len(),
            forall|j: int|
                0 <= j < i ==> (#[trigger] chats_model(chats@)[j]).user_id != user_id@,
        decreases chats@.len() - i,
    {
        i = i + 1;
    }
    proof {
        lemma_place_is(chats_model(chats@), user_id@, i as int);
        places_are_found(chats_model(chats@), user_id@);
    }
    i
}

/// Makes sure that the list has a chat with a user; says whether one had to be added.
pub fn ensure_chat_exists(chats: &mut Vec<ChatEntry>, user_id: &str, label: Option<String>) -> (r:
    bool)
    ensures
        chats_model(final(chats)@) == with_chat(
            chats_model(old(chats)@),
            user_id@,
            opt_text(label),
        ),
        r == !has_chat(chats_model(old(chats)@), user_id@),
{
    if find_chat(chats, user_id) < chats.len() {
        return false;
    }
    let label = match label {
        Some(text) => text,
        None => "user-".to_owned().concat(short_id(user_id).as_str()),
    };
    let entry = ChatEntry { user_id: user_id.to_owned(), label, unread: 0 };
    let ghost before = chats@;
    chats.push(entry);
    assert(chats_model(chats@) =~= chats_model(before).push(entry@));
    true
}

/// Counts one more message from a user as unread; says whether the list has a chat with the user.
pub fn count_unread(chats: &mut Vec<ChatEntry>, user_id: &str) -> (r: bool)
    ensures
        chats_model(final(chats)@) == with_unread(chats_model(old(chats)@), user_id@),
        r == has_chat(chats_model(old(chats)@), user_id@),
        !r ==> final(chats)@ == old(chats)@,
{
    let i = find_chat(chats, user_id);
    if i == chats.len() {
        return false;
    }
    let ghost before = chats@;
    chats[i].unread = chats[i].unread.saturating_add(1);
    assert(chats_model(chats@) =~= with_unread(chats_model(before), user_id@));
    true
}

/// Marks the chat at one place as read; says whether there is one.
pub fn read_at(chats: &mut Vec<ChatEntry>, i: usize) -> (r: bool)
    ensures
        r == (i < old(chats)@.len()),
        r ==> chats_model(final(chats)@) == with_read_at(chats_model(old(chats)@), i as int),
        !r ==> final(chats)@ == old(chats)@,
{
    if i >= chats.len() {
        return false;
    }
    let ghost before = chats@;
    chats[i].unread = 0;
    assert(chats_model(chats@) =~= with_read_at(chats_model(before), i as int));
    true
}

/// Marks the chat with a user as read; says whether the list has one.
pub fn clear_unread(chats: &mut Vec<ChatEntry>, user_id: &str) -> (r: bool)
    ensures
        chats_model(final(chats)@) == with_read(chats_model(old(chats)@), user_id@),
        r == has_chat(chats_model(old(chats)@), user_id@),
        !r ==> final(chats)@ == old(chats)@,
{
    let i = find_chat(chats, user_id);
    if i == chats.len() {
        return false;
    }
    read_at(chats, i)
}

/// Gives the chat at one place another label; says whether there is one.
pub fn rename_at(chats: &mut Vec<ChatEntry>, i: usize, label: String) -> (r: bool)
    ensures
        r == (i < old(chats)@.len()),
        r ==> chats_model(final(chats)@) == with_label(
            chats_model(old(chats)@),
            i as int,
            label@,
        ),
        !r ==> final(chats)@ == old(chats)@,
{
    if i >= chats.len() {
        return false;
    }
    let ghost before = chats@;
    chats[i].label = label;
    assert(chats_model(chats@) =~= with_label(chats_model(before), i as int, label@));
    true
}

/// Removes the chat at one place, and the others stay in their order; says whether there is one.
pub fn remove_at(chats: &mut Vec<ChatEntry>, i: usize) -> (r: bool)
    ensures
        r == (i < old(chats)@.len()),
        r ==> chats_model(final(chats)@) == chats_model(old(chats)@).remove(i as int),
        !r ==> final(chats)@ == old(chats)@,
{
    if i >= chats.len() {
        return false;
    }
    let ghost before = chats@;
    let _ = chats.remove(i);
    assert(chats_model(chats@) =~= chats_model(before).remove(i as int));
    true
}

/// Whether no two chats of a list are with the same user.
pub open spec fn distinct_chats(chats: Seq<ChatEntry<Text>>) -> bool {
    forall|i: int, j: int|
        0 <= i < j < chats.len() ==> (#[trigger] chats[i]).user_id != (#[trigger] chats[j]).user_id
}

/// Whether two lists are of the same chats, under the same labels and in the same order.
pub open spec fn same_chats(a: Seq<ChatEntry<Text>>, b: Seq<ChatEntry<Text>>) -> bool {
    &&& a.len() == b.len()
    &&& forall|i: int|
        0 <= i < a.len() ==> (#[trigger] a[i]).user_id == b[i].user_id && a[i].label == b[i].label
}

/// No change to the list lets two chats be with the same user.
pub proof fn chats_stay_distinct(
    chats: Seq<ChatEntry<Text>>,
    user_id: Text,
    label: Option<Text>,
    new_label: Text,
    i: int,
)
    requires
        distinct_chats(chats),
    ensures
        distinct_chats(with_chat(chats, user_id, label)),
        distinct_chats(with_unread(chats, user_id)),
        distinct_chats(with_read(chats, user_id)),
        0 <= i < chats.len() ==> distinct_chats(with_read_at(chats, i)) && distinct_chats(
            with_label(chats, i, new_label),
        ) && distinct_chats(chats.remove(i)),
{
    places_are_found(chats, user_id);
}

/// A chat that was made sure of is in the list, once more makes no difference, and every chat
/// that was in the list stays as it was.
pub proof fn ensuring_adds_at_most_one_chat(
    chats: Seq<ChatEntry<Text>>,
    user_id: Text,
    label: Option<Text>,
    other_label: Option<Text>,
)
    ensures
        has_chat(with_chat(chats, user_id, label), user_id),
        with_chat(with_chat(chats, user_id, label), user_id, other_label) == with_chat(
            chats,
            user_id,
            label,
        ),
        with_chat(chats, user_id, label).take(chats.len() as int) == chats,
        with_chat(chats, user_id, label).len() <= chats.len() + 1,
{
    let after = with_chat(chats, user_id, label);
    if !has_chat(chats, user_id) {
        assert(after[chats.len() as int].user_id == user_id);
    }
    assert(after.take(chats.len() as int) =~= chats);
}

/// Neither a message nor reading adds, removes, moves or relabels a chat.
pub proof fn counting_keeps_every_chat(chats: Seq<ChatEntry<Text>>, user_id: Text)
    ensures
        same_chats(with_unread(chats, user_id), chats),
        same_chats(with_read(chats, user_id), chats),
{
    places_are_found(chats, user_id);
}

/// One more message raises the count of the first chat with its sender by one, up to the largest
/// number that the count can hold, and changes nothing else.
pub proof fn messages_count_once(chats: Seq<ChatEntry<Text>>, user_id: Text, i: int)
    requires
        0 <= i < chats.len(),
    ensures
        same_chats(with_unread(chats, user_id), chats),
        i == chat_position(chats, user_id) ==> with_unread(chats, user_id)[i].unread == one_more(
            chats[i].unread,
        ),
        i != chat_position(chats, user_id) ==> with_unread(chats, user_id)[i] == chats[i],
{
    places_are_found(chats, user_id);
}

/// Reading a user's chat sets its count to zero and changes nothing else; another message makes
/// the count one.
pub proof fn reading_clears_the_count(chats: Seq<ChatEntry<Text>>, user_id: Text, i: int)
    requires
        has_chat(chats, user_id),
        0 <= i < chats.len(),
    ensures
        with_read(chats, user_id)[chat_position(chats, user_id)].unread == 0,
        same_chats(with_read(chats, user_id), chats),
        i != chat_position(chats, user_id) ==> with_read(chats, user_id)[i] == chats[i],
        with_unread(with_read(chats, user_id), user_id)[chat_position(chats, user_id)].unread == 1,
{
    places_are_found(chats, user_id);
    let p = chat_position(chats, user_id);
    let after = with_read(chats, user_id);
    assert forall|j: int| 0 <= j < p implies (#[trigger] after[j]).user_id != user_id by {
        assert(after[j] == chats[j]);
    }
    lemma_place_is(after, user_id, p);
}

/// A chat that is added stands at the end, with the whole identifier, the label that it was given
/// or else one made from the first eight characters of the identifier, and nothing unread; where
/// there is a chat with the user, nothing is added.
pub proof fn added_chats_stand_at_the_end(
    chats: Seq<ChatEntry<Text>>,
    user_id: Text,
    label: Text,
)
    ensures
        has_chat(chats, user_id) <==> exists|i: int|
            0 <= i < chats.len() && (#[trigger] chats[i]).user_id == user_id,
        has_chat(chats, user_id) ==> with_chat(chats, user_id, Some(label)) == chats && with_chat(
            chats,
            user_id,
            None,
        ) == chats,
        !has_chat(chats, user_id) ==> with_chat(chats, user_id, Some(label)) == chats.push(
            (ChatEntry { user_id, label, unread: 0 }),
        ),
        !has_chat(chats, user_id) && user_id.len() >= 8 ==> with_chat(chats, user_id, None)
            == chats.push((ChatEntry { user_id, label: "user-"@ + user_id.take(8), unread: 0 })),
        !has_chat(chats, user_id) && user_id.len() < 8 ==> with_chat(chats, user_id, None)
            == chats.push((ChatEntry { user_id, label: "user-"@ + user_id, unread: 0 })),
{
    assert(user_id.len() == 8 ==> user_id.take(8) =~= user_id);
}

/// One more is one more, except for the largest number, which stays.
pub proof fn counts_go_up_by_one(unread: usize)
    ensures
        unread < usize::MAX ==> one_more(unread) == unread + 1,
        one_more(usize::MAX) == usize::MAX,
{
}

/// A new label is the whole of what was given, at the place that was given; the user and the count
/// there stay, and so does every other chat.
pub proof fn labels_change_alone(chats: Seq<ChatEntry<Text>>, i: int, label: Text, j: int)
    requires
        0 <= i < chats.len(),
        0 <= j < chats.len(),
    ensures
        with_label(chats, i, label).len() == chats.len(),
        with_label(chats, i, label)[i].label == label,
        with_label(chats, i, label)[i].user_id == chats[i].user_id,
        with_label(chats, i, label)[i].unread == chats[i].unread,
        j != i ==> with_label(chats, i, label)[j] == chats[j],
{
}

/// Reading at a place sets the count there to zero; the user and the label there stay, and so does
/// every other chat.
pub proof fn reading_changes_one_count(chats: Seq<ChatEntry<Text>>, i: int, j: int)
    requires
        0 <= i < chats.len(),
        0 <= j < chats.len(),
    ensures
        with_read_at(chats, i).len() == chats.len(),
        with_read_at(chats, i)[i].unread == 0,
        with_read_at(chats, i)[i].user_id == chats[i].user_id,
        with_read_at(chats, i)[i].label == chats[i].label,
        j != i ==> with_read_at(chats, i)[j] == chats[j],
{
}

/// The model of a chat list holds every chat in its place, with its user, its label and its count.
pub proof fn models_hold_chats(list: Seq<ChatEntry>, i: int)
    requires
        0 <= i < list.len(),
    ensures
        chats_model(list).len() == list.len(),
        chats_model(list)[i].user_id == list[i].user_id@,
        chats_model(list)[i].label == list[i].label@,
        chats_model(list)[i].unread == list[i].unread,
{
}

} // verus!
