//! Configuration, and where the client's files are kept.

use crate::text::{texts, Text};
use vstd::prelude::*;

verus! {

/// The whole configuration.
#[derive(Debug, PartialEq, Eq)]
pub struct Config<S = String> {
    pub auth: AuthConfig<S>,
    pub chat: ChatConfig<S>,
    pub session: SessionConfig,
    pub ui: UiConfig,
}

/// Where the authorization service is.
#[derive(Debug, PartialEq, Eq)]
pub struct AuthConfig<S = String> {
    pub base_url: S,
}

/// Where the chat service is, and how many messages to ask for.
#[derive(Debug, PartialEq, Eq)]
pub struct ChatConfig<S = String> {
    pub ws_url: S,
    pub default_history_limit: usize,
}

/// How long a session lasts.
#[derive(Debug, PartialEq, Eq)]
pub struct SessionConfig {
    pub default_lifetime_seconds: i32,
}

/// How menus are shown.
#[derive(Debug, PartialEq, Eq)]
pub struct UiConfig {
    pub clear_screen_on_menu: bool,
}

impl View for Config {
    type V = Config<Text>;

    open spec fn view(&self) -> Config<Text> {
        Config {
            auth: AuthConfig { base_url: self.auth.base_url@ },
            chat: ChatConfig {
                ws_url: self.chat.ws_url@,
                default_history_limit: self.chat.default_history_limit,
            },
            session: self.session,
            ui: self.ui,
        }
    }
}

impl Default for SessionConfig {
    fn default() -> (r: Self)
        ensures
            r.default_lifetime_seconds == 3600,
    {
        SessionConfig { default_lifetime_seconds: default_lifetime() }
    }
}

impl Default for UiConfig {
    fn default() -> (r: Self)
        ensures
            r.clear_screen_on_menu,
    {
        UiConfig { clear_screen_on_menu: default_clear_menu() }
    }
}

/// The lifetime of a session, in seconds, where the configuration gives none.
pub fn default_lifetime() -> (r: i32)
    ensures
        r == 3600,
{
    3600
}

/// How many messages of a chat are asked for where the configuration does not say.
pub fn default_history_limit() -> (r: usize)
    ensures
        r == 50,
{
    50
}

/// Whether the screen is cleared before the main menu where the configuration does not say.
pub fn default_clear_menu() -> (r: bool)
    ensures
        r,
{
    true
}

/// The path of the configuration file, as the parts to be joined: `config.toml` in the directory
/// of the program's manifest.
pub fn config_path(manifest_dir: &str) -> (r: Vec<String>)
    ensures
        texts(r@) == seq![manifest_dir@, "config.toml"@],
{
    let r = vec![manifest_dir.to_owned(), "config.toml".to_owned()];
    assert(texts(r@) =~= seq![manifest_dir@, "config.toml"@]);
    r
}

/// How reading the configuration file went.
#[derive(Debug, PartialEq, Eq)]
pub enum ConfigFile {
    Unreadable(String),
    Malformed(String),
    Parsed(Config),
}

/// The configuration, or a message that says what is wrong with the file at `path`.
pub fn load_config(path: &str, file: ConfigFile) -> (r: Result<Config, String>)
    ensures
        match file {
            ConfigFile::Unreadable(e) => r matches Err(text) && text@ == "failed to read config "@
                + path@ + ": "@ + e@,
            ConfigFile::Malformed(e) => r matches Err(text) && text@ == "failed to parse config "@
                + path@ + ": "@ + e@,
            ConfigFile::Parsed(config) => r == Ok::<Config, String>(config),
        },
{
    match file {
        ConfigFile::Unreadable(e) => Err(
            "failed to read config ".to_owned().concat(path).concat(": ").concat(e.as_str()),
        ),
        ConfigFile::Malformed(e) => Err(
            "failed to parse config ".to_owned().concat(path).concat(": ").concat(e.as_str()),
        ),
        ConfigFile::Parsed(config) => Ok(config),
    }
}

/// Where one of the client's own files is: the parts of its path, to be joined to the user's
/// configuration directory or, where there is none, to be taken from the working directory.
#[derive(Debug, PartialEq, Eq)]
pub struct StorePath {
    pub in_config_dir: bool,
    pub parts: Vec<String>,
}

/// The parts of the path of a store: under the client's directory in the user's configuration
/// directory, or hidden in the working directory.
pub open spec fn store_parts(has_config_dir: bool, file: Text, hidden: Text) -> Seq<Text> {
    if has_config_dir {
        seq!["messenger-client"@, file]
    } else {
        seq![hidden]
    }
}

fn store_path(has_config_dir: bool, file: &str, hidden: &str) -> (r: StorePath)
    ensures
        r.in_config_dir == has_config_dir,
        texts(r.parts@) == store_parts(has_config_dir, file@, hidden@),
{
    let parts = if has_config_dir {
        vec!["messenger-client".to_owned(), file.to_owned()]
    } else {
        vec![hidden.to_owned()]
    };
    assert(texts(parts@) =~= store_parts(has_config_dir, file@, hidden@));
    StorePath { in_config_dir: has_config_dir, parts }
}

/// Where the chat list is stored.
pub fn get_chats_file(has_config_dir: bool) -> (r: StorePath)
    ensures
        r.in_config_dir == has_config_dir,
        texts(r.parts@) == store_parts(has_config_dir, "chats.json"@, ".messenger-chats.json"@),
{
    store_path(has_config_dir, "chats.json", ".messenger-chats.json")
}

/// Where the names of the saved sessions are stored.
pub fn get_sessions_file(has_config_dir: bool) -> (r: StorePath)
    ensures
        r.in_config_dir == has_config_dir,
        texts(r.parts@) == store_parts(
            has_config_dir,
            "sessions.json"@,
            ".messenger-sessions.json"@,
        ),
{
    store_path(has_config_dir, "sessions.json", ".messenger-sessions.json")
}

/// What can go wrong when one of the client's files is written.
#[derive(Debug, PartialEq, Eq, Clone, Copy)]
pub enum StoreFailure {
    Directory,
    Encoding,
    ChatsFile,
    SessionsFile,
}

/// What went wrong with a file, before the cause.
pub open spec fn store_failure_prefix(failure: StoreFailure) -> Text {
    match failure {
        StoreFailure::Directory => "Failed to create config directory: "@,
        StoreFailure::Encoding => "JSON serialization failed: "@,
        StoreFailure::ChatsFile => "Failed to save chats list: "@,
        StoreFailure::SessionsFile => "Failed to save sessions list: "@,
    }
}

/// The message for a file that could not be written.
pub fn store_failed(failure: StoreFailure, cause: &str) -> (r: String)
    ensures
        r@ == store_failure_prefix(failure) + cause@,
{
    let prefix = match failure {
        StoreFailure::Directory => "Failed to create config directory: ",
        StoreFailure::Encoding => "JSON serialization failed: ",
        StoreFailure::ChatsFile => "Failed to save chats list: ",
        StoreFailure::SessionsFile => "Failed to save sessions list: ",
    };
    prefix.to_owned().concat(cause)
}

/// The message for a chat list that could not be stored.
pub fn chats_not_saved(error: &str) -> (r: String)
    ensures
        r@ == "Failed to save chats: "@ + error@,
{
    "Failed to save chats: ".to_owned().concat(error)
}

/// The model of a configuration holds each of its settings whole.
pub proof fn models_hold_every_setting(config: Config)
    ensures
        config@.auth.base_url == config.auth.base_url@,
        config@.chat.ws_url == config.chat.ws_url@,
        config@.chat.default_history_limit == config.chat.default_history_limit,
        config@.session.default_lifetime_seconds == config.session.default_lifetime_seconds,
        config@.ui.clear_screen_on_menu == config.ui.clear_screen_on_menu,
{
}

/// Where there is a configuration directory, a file keeps its name in a directory of the client;
/// otherwise it has its hidden name in the working directory.
pub proof fn stored_files_keep_their_names(file: Text, hidden: Text)
    ensures
        store_parts(true, file, hidden).len() == 2,
        store_parts(true, file, hidden)[0] == "messenger-client"@,
        store_parts(true, file, hidden)[1] == file,
        store_parts(false, file, hidden).len() == 1,
        store_parts(false, file, hidden)[0] == hidden,
{
}

} // verus!
