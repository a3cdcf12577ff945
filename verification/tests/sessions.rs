use console_client::sessions::{
    add_to_sessions_list, delete_session, load_session, load_sessions_list,
    remove_from_sessions_list, save_session, Keyring,
};

fn names(list: &[&str]) -> Vec<String> {
    list.iter().map(|n| n.to_string()).collect()
}

fn err<T>(text: &str) -> Result<T, String> {
    Err(text.to_string())
}

#[test]
fn keyring_successes_pass_through() {
    assert_eq!(save_session(Keyring::Opened(Ok(()))), Ok(()));
    assert_eq!(delete_session(Keyring::Opened(Ok(()))), Ok(()));
    assert_eq!(load_session(Keyring::Opened(Ok("tok".to_string()))), Some("tok".to_string()));
}

#[test]
fn keyring_failures_are_reported() {
    assert_eq!(
        save_session(Keyring::Opened(err("locked"))),
        err("Failed to save session: locked")
    );
    assert_eq!(
        save_session(Keyring::Unavailable("no bus".to_string())),
        err("Keyring error: no bus")
    );
    assert_eq!(
        delete_session(Keyring::Opened(err("no entry"))),
        err("Failed to delete session: no entry")
    );
    assert_eq!(
        delete_session(Keyring::Unavailable("no bus".to_string())),
        err("Keyring error: no bus")
    );
    assert_eq!(load_session(Keyring::Opened(err("no entry"))), None);
    assert_eq!(load_session(Keyring::Unavailable("no bus".to_string())), None);
}

#[test]
fn an_unreadable_list_is_empty() {
    assert_eq!(load_sessions_list(None), names(&[]));
    assert_eq!(load_sessions_list(Some(names(&["a", "b"]))), names(&["a", "b"]));
}

#[test]
fn names_are_added_at_the_end() {
    assert_eq!(add_to_sessions_list(names(&[]), "a"), names(&["a"]));
    assert_eq!(add_to_sessions_list(names(&["a", "b"]), "c"), names(&["a", "b", "c"]));
}

#[test]
fn names_are_added_once() {
    let once = add_to_sessions_list(names(&["a", "b"]), "b");
    assert_eq!(once, names(&["a", "b"]));
    assert_eq!(add_to_sessions_list(once, "b"), names(&["a", "b"]));
    assert_eq!(add_to_sessions_list(names(&["a"]), "A"), names(&["a", "A"]));
}

#[test]
fn every_copy_of_a_name_is_removed() {
    assert_eq!(remove_from_sessions_list(names(&["a", "b", "a"]), "a"), names(&["b"]));
    assert_eq!(remove_from_sessions_list(names(&["a", "b"]), "c"), names(&["a", "b"]));
    assert_eq!(remove_from_sessions_list(names(&[]), "a"), names(&[]));
}

#[test]
fn removing_takes_an_added_name_back() {
    let before = names(&["a", "b"]);
    let added = add_to_sessions_list(names(&["a", "b"]), "c");
    assert_eq!(remove_from_sessions_list(added, "c"), before);
}
