use console_client::config::{
    chats_not_saved, config_path, default_clear_menu, default_history_limit, default_lifetime,
    get_chats_file, get_sessions_file, load_config, store_failed, AuthConfig, ChatConfig, Config,
    ConfigFile, SessionConfig, StoreFailure, UiConfig,
};

fn config() -> Config {
    Config {
        auth: AuthConfig { base_url: "http://host".to_string() },
        chat: ChatConfig { ws_url: "ws://host/ws".to_string(), default_history_limit: 50 },
        session: SessionConfig::default(),
        ui: UiConfig::default(),
    }
}

#[test]
fn defaults_are_fixed() {
    assert_eq!(default_lifetime(), 3600);
    assert_eq!(default_history_limit(), 50);
    assert!(default_clear_menu());
    assert_eq!(SessionConfig::default().default_lifetime_seconds, 3600);
    assert!(UiConfig::default().clear_screen_on_menu);
}

#[test]
fn the_configuration_stands_beside_the_manifest() {
    assert_eq!(config_path("/srv/client"), vec!["/srv/client", "config.toml"]);
}

#[test]
fn a_good_configuration_is_loaded() {
    assert_eq!(load_config("config.toml", ConfigFile::Parsed(config())), Ok(config()));
}

#[test]
fn a_bad_configuration_is_reported() {
    assert_eq!(
        load_config("/c/config.toml", ConfigFile::Unreadable("not found".to_string())),
        Err("failed to read config /c/config.toml: not found".to_string())
    );
    assert_eq!(
        load_config("/c/config.toml", ConfigFile::Malformed("bad key".to_string())),
        Err("failed to parse config /c/config.toml: bad key".to_string())
    );
}

#[test]
fn files_are_stored_in_the_configuration_directory() {
    let chats = get_chats_file(true);
    assert!(chats.in_config_dir);
    assert_eq!(chats.parts, vec!["messenger-client", "chats.json"]);
    let sessions = get_sessions_file(true);
    assert!(sessions.in_config_dir);
    assert_eq!(sessions.parts, vec!["messenger-client", "sessions.json"]);
}

#[test]
fn files_are_hidden_in_the_working_directory_otherwise() {
    let chats = get_chats_file(false);
    assert!(!chats.in_config_dir);
    assert_eq!(chats.parts, vec![".messenger-chats.json"]);
    let sessions = get_sessions_file(false);
    assert!(!sessions.in_config_dir);
    assert_eq!(sessions.parts, vec![".messenger-sessions.json"]);
}

#[test]
fn store_failures_are_told_apart() {
    assert_eq!(
        store_failed(StoreFailure::Directory, "denied"),
        "Failed to create config directory: denied"
    );
    assert_eq!(
        store_failed(StoreFailure::Encoding, "cycle"),
        "JSON serialization failed: cycle"
    );
    assert_eq!(
        store_failed(StoreFailure::ChatsFile, "disk full"),
        "Failed to save chats list: disk full"
    );
    assert_eq!(
        store_failed(StoreFailure::SessionsFile, "disk full"),
        "Failed to save sessions list: disk full"
    );
    assert_eq!(chats_not_saved("disk full"), "Failed to save chats: disk full");
}
