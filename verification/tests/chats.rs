use console_client::chats::{
    clear_unread, copy_chats, count_unread, ensure_chat_exists, find_chat, load_chats_list,
    read_at, remove_at, rename_at, ChatEntry,
};

fn chat(user_id: &str, label: &str, unread: usize) -> ChatEntry {
    ChatEntry { user_id: user_id.to_string(), label: label.to_string(), unread }
}

fn two() -> Vec<ChatEntry> {
    vec![chat("u1", "one", 0), chat("u2", "two", 3)]
}

#[test]
fn an_unreadable_chat_list_is_empty() {
    assert_eq!(load_chats_list(None), vec![]);
    assert_eq!(load_chats_list(Some(two())), two());
}

#[test]
fn the_first_chat_with_a_user_is_found() {
    assert_eq!(find_chat(&two(), "u1"), 0);
    assert_eq!(find_chat(&two(), "u2"), 1);
    assert_eq!(find_chat(&two(), "u3"), 2);
    let twice = vec![chat("a", "x", 0), chat("b", "y", 0), chat("b", "z", 0)];
    assert_eq!(find_chat(&twice, "b"), 1);
}

#[test]
fn a_missing_chat_is_added_with_its_label() {
    let mut chats = two();
    assert!(ensure_chat_exists(&mut chats, "u3", Some("three".to_string())));
    assert_eq!(chats, vec![chat("u1", "one", 0), chat("u2", "two", 3), chat("u3", "three", 0)]);
}

#[test]
fn a_missing_label_is_made_from_the_identifier() {
    let mut chats = vec![];
    assert!(ensure_chat_exists(&mut chats, "0123456789", None));
    assert!(ensure_chat_exists(&mut chats, "bob", None));
    assert_eq!(chats, vec![chat("0123456789", "user-01234567", 0), chat("bob", "user-bob", 0)]);
}

#[test]
fn a_chat_that_is_there_stays_as_it_is() {
    let mut chats = two();
    assert!(!ensure_chat_exists(&mut chats, "u2", Some("other".to_string())));
    assert_eq!(chats, two());
}

#[test]
fn unread_messages_are_counted_one_by_one() {
    let mut chats = two();
    assert!(count_unread(&mut chats, "u2"));
    assert_eq!(chats, vec![chat("u1", "one", 0), chat("u2", "two", 4)]);
    assert!(!count_unread(&mut chats, "u3"));
    assert_eq!(chats, vec![chat("u1", "one", 0), chat("u2", "two", 4)]);
}

#[test]
fn the_count_stops_at_its_maximum() {
    let mut chats = vec![chat("u1", "one", usize::MAX - 1)];
    count_unread(&mut chats, "u1");
    assert_eq!(chats[0].unread, usize::MAX);
    count_unread(&mut chats, "u1");
    assert_eq!(chats[0].unread, usize::MAX);
}

#[test]
fn reading_a_chat_clears_its_count() {
    let mut chats = two();
    assert!(clear_unread(&mut chats, "u2"));
    assert_eq!(chats, vec![chat("u1", "one", 0), chat("u2", "two", 0)]);
    assert!(!clear_unread(&mut chats, "u3"));
    let mut chats = two();
    assert!(read_at(&mut chats, 1));
    assert_eq!(chats, vec![chat("u1", "one", 0), chat("u2", "two", 0)]);
}

#[test]
fn chats_are_renamed_and_removed_in_place() {
    let mut chats = two();
    assert!(rename_at(&mut chats, 0, "uno".to_string()));
    assert_eq!(chats, vec![chat("u1", "uno", 0), chat("u2", "two", 3)]);
    assert!(remove_at(&mut chats, 0));
    assert_eq!(chats, vec![chat("u2", "two", 3)]);
}

#[test]
fn places_outside_the_list_change_nothing() {
    let mut chats = two();
    assert!(!read_at(&mut chats, 2));
    assert!(!rename_at(&mut chats, 2, "tre".to_string()));
    assert!(!remove_at(&mut chats, 2));
    assert_eq!(chats, two());
}

#[test]
fn a_copy_holds_the_same_chats() {
    assert_eq!(copy_chats(&two()), two());
}

#[test]
fn chats_of_distinct_users_stay_distinct() {
    let mut chats = two();
    for user in ["u1", "u3", "u2", "u3", "u1"] {
        ensure_chat_exists(&mut chats, user, None);
        count_unread(&mut chats, user);
    }
    let users: Vec<&str> = chats.iter().map(|c| c.user_id.as_str()).collect();
    assert_eq!(users, vec!["u1", "u2", "u3"]);
    let counts: Vec<usize> = chats.iter().map(|c| c.unread).collect();
    assert_eq!(counts, vec![2, 4, 2]);
}
