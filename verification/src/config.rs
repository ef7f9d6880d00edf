//! The bridge's configuration: the port it listens on, where the file that
//! holds it lives, and the addresses derived from it.

use std::path::PathBuf;
use vstd::prelude::*;
use vstd::string::*;
use crate::text::{decimal, decimal_string};

verus! {

/// The port used when no configuration can be read.
pub const DEFAULT_PORT: u16 = 53511;

/// The bridge's configuration.
#[derive(Clone, Copy, Debug, PartialEq, Eq, Structural)]
pub struct Config {
    pub port: u16,
}

impl Default for Config {
    fn default() -> (config: Config)
        ensures
            config.port == DEFAULT_PORT,
    {
        Config { port: DEFAULT_PORT }
    }
}

/// A file-system path of the standard library, carried through unread.
#[verifier::external_type_specification]
#[verifier::external_body]
pub struct ExPathBuf(PathBuf);

/// The per-user configuration directory of a project, as
/// `directories::ProjectDirs::from` and `ProjectDirs::config_dir` give it.
/// It depends on the operating system and on the user's environment, and is
/// `None` where no home directory is known: nothing is claimed of it.
#[verifier::external_body]
fn project_config_dir(qualifier: &str, organization: &str, application: &str) -> (dir: Option<
    PathBuf,
>) {
    match directories::ProjectDirs::from(qualifier, organization, application) {
        Some(dirs) => Some(dirs.config_dir().to_path_buf()),
        None => None,
    }
}

/// The qualifier under which the system files the application's
/// directories.
pub fn project_qualifier() -> (name: &'static str)
    ensures
        name@ == "com"@,
{
    "com"
}

/// The organization under which the system files the application's
/// directories.
pub fn project_organization() -> (name: &'static str)
    ensures
        name@ == "neosubhamoy"@,
{
    "neosubhamoy"
}

/// The application's name in the system's directories.
pub fn project_application() -> (name: &'static str)
    ensures
        name@ == "neodlp"@,
{
    "neodlp"
}

/// The per-user configuration directory of the application, where the
/// system knows one.
pub fn get_config_dir() -> (dir: Option<PathBuf>) {
    project_config_dir(project_qualifier(), project_organization(), project_application())
}

/// `dir` extended by the file name `name`, by `PathBuf::join` of the
/// standard library. The separator belongs to the platform, so nothing is
/// claimed of the result.
#[verifier::external_body]
fn join_path(dir: &PathBuf, name: &str) -> (path: PathBuf) {
    dir.join(name)
}

/// The name of the configuration file inside the configuration directory.
pub fn config_file_name() -> (name: &'static str)
    ensures
        name@ == "msghost-config.json"@,
{
    "msghost-config.json"
}

/// The configuration file under `dir`: present exactly when `dir` is.
pub fn config_path_in(dir: Option<PathBuf>) -> (path: Option<PathBuf>)
    ensures
        path.is_some() == dir.is_some(),
{
    match dir {
        Some(dir) => Some(join_path(&dir, config_file_name())),
        None => None,
    }
}

/// The path of the configuration file, when the configuration directory is
/// known.
pub fn get_config_path() -> (path: Option<PathBuf>) {
    config_path_in(get_config_dir())
}

/// The text of `path` by `Path::to_string_lossy` of the standard library,
/// which replaces what is not Unicode. Nothing is claimed of the text.
#[verifier::external_body]
fn path_text(path: &PathBuf) -> (text: String) {
    path.to_string_lossy().into_owned()
}

/// The report of a configuration directory that is not known.
pub open spec fn no_config_path_text() -> Seq<char> {
    "Could not determine config path"@
}

/// The text of the configuration file's path `path`, or the failure to
/// report where there is none.
pub fn config_file_path_of(path: Option<PathBuf>) -> (text: Result<String, String>)
    ensures
        text.is_ok() == path.is_some(),
        text matches Err(reason) ==> reason@ == no_config_path_text(),
{
    match path {
        Some(found) => Ok(path_text(&found)),
        None => Err(String::from_str("Could not determine config path")),
    }
}

/// The text of the configuration file's path, as the GUI shows it.
pub fn get_config_file_path() -> (text: Result<String, String>)
    ensures
        text matches Err(reason) ==> reason@ == no_config_path_text(),
{
    config_file_path_of(get_config_path())
}

/// The configuration to run with: what was read from the configuration
/// file, or the default when the file is absent or cannot be parsed.
pub fn load_config(stored: Option<Config>) -> (config: Config)
    ensures
        config == match stored {
            Some(found) => found,
            None => Config { port: DEFAULT_PORT },
        },
{
    match stored {
        Some(found) => found,
        None => Config::default(),
    }
}

/// The text of the bridge's WebSocket address for `port`.
pub open spec fn websocket_url(port: u16) -> Seq<char> {
    "ws://localhost:"@ + decimal(port as nat)
}

/// The address at which the native host reaches the bridge.
pub fn get_websocket_url(config: &Config) -> (url: String)
    ensures
        url@ == websocket_url(config.port),
{
    let mut url = String::from_str("ws://localhost:");
    let number = decimal_string(config.port as u64);
    url.append(number.as_str());
    url
}

/// The text of the local address the listener binds for `port`.
pub open spec fn listen_address_text(port: u16) -> Seq<char> {
    "127.0.0.1:"@ + decimal(port as nat)
}

/// The local address the listener binds for `port`.
pub fn listen_address(port: u16) -> (address: String)
    ensures
        address@ == listen_address_text(port),
{
    let mut address = String::from_str("127.0.0.1:");
    let number = decimal_string(port as u64);
    address.append(number.as_str());
    address
}

} // verus!
