//! The configuration of the application: what the command line holds, the
//! settings that the application runs with, and the place where they are
//! kept once they are made.

use crate::dirs::{ProjectPaths, joined_path, path_join, project_paths};
use std::path::PathBuf;
use vstd::prelude::*;

verus! {

/// How much is logged.
#[derive(Clone, Copy, Debug, PartialEq, Eq, Structural)]
pub enum LogLevel {
    Off,
    Error,
    Warn,
    Info,
    Debug,
    Trace,
}

/// What the command line asks for besides running the application.
#[derive(Clone, Copy, Debug, PartialEq, Eq, Structural)]
pub enum Command {
    /// Print the configuration that would be used, and end.
    PrintDefaultConfig,
}

/// The arguments of the command line.
#[derive(Clone, Debug)]
pub struct Cli {
    /// The directory to use for storing application data.
    pub data_dir: Option<PathBuf>,
    /// A path to a configuration file of the application.
    pub config: Option<PathBuf>,
    /// A path to the configuration file of the mail library.
    pub himalaya_config: Option<PathBuf>,
    /// The log level to use.
    pub log_level: Option<LogLevel>,
    /// The name of the account to use from the configuration file.
    pub account_name: Option<String>,
    /// The mail folder to open.
    pub folder: Option<String>,
    pub command: Option<Command>,
}

/// The settings that the application runs with.
#[derive(Clone, Debug)]
pub struct AppConfig {
    /// The directory to use for storing application data, such as logs.
    pub data_dir: PathBuf,
    /// A path to the configuration file of the mail library.
    pub himalaya_config: Option<PathBuf>,
    /// The log level to use.
    pub log_level: LogLevel,
    /// The name of the account to use; the default account where `None`.
    pub account_name: Option<String>,
    /// The mail folder to open; the inbox where `None`.
    pub folder: Option<String>,
}

/// The place where the settings are kept: empty at first, and filled once.
#[derive(Debug)]
pub struct ConfigStore {
    slot: Option<AppConfig>,
}

impl Cli {
    /// A command line without arguments: the log level is the one that the
    /// command line has by default, everything else is absent.
    pub fn new() -> (cli: Cli)
        ensures
            cli.data_dir is None,
            cli.config is None,
            cli.himalaya_config is None,
            cli.log_level == Some(LogLevel::Info),
            cli.account_name is None,
            cli.folder is None,
            cli.command is None,
    {
        Cli {
            data_dir: None,
            config: None,
            himalaya_config: None,
            log_level: Some(LogLevel::Info),
            account_name: None,
            folder: None,
            command: None,
        }
    }

    /// Whether the command line asks to print the configuration and end.
    pub fn prints_default_config(&self) -> (prints: bool)
        ensures
            prints == (self.command matches Some(Command::PrintDefaultConfig)),
    {
        match self.command {
            Some(Command::PrintDefaultConfig) => true,
            None => false,
        }
    }
}

impl AppConfig {
    /// The settings with the given directories and everything else as it
    /// is by default: the log level `Info`, the default account, the inbox.
    pub fn with_dirs(data_dir: PathBuf, himalaya_config: Option<PathBuf>) -> (config: AppConfig)
        ensures
            config.data_dir == data_dir,
            config.himalaya_config == himalaya_config,
            config.log_level == LogLevel::Info,
            config.account_name is None,
            config.folder is None,
    {
        AppConfig {
            data_dir,
            himalaya_config,
            log_level: LogLevel::Info,
            account_name: None,
            folder: None,
        }
    }
}

/// The configuration file in the directory `config_dir`.
pub open spec fn config_file_in(config_dir: PathBuf) -> PathBuf {
    joined_path(config_dir, "config.toml"@)
}

/// The directories of this application on this platform; `None` where the
/// platform knows of no home directory. Which directories they are, the
/// platform says.
fn project_dirs() -> Option<ProjectPaths> {
    project_paths("net", "joshka", "nitidus")
}

/// The data directory among the directories of an application, if there
/// are any.
pub fn data_dir_of(dirs: Option<ProjectPaths>) -> (dir: Option<PathBuf>)
    ensures
        dir == match dirs {
            Some(paths) => Some(paths.data_dir),
            None => None,
        },
{
    match dirs {
        Some(paths) => Some(paths.data_dir),
        None => None,
    }
}

/// The configuration file of an application with the given directories:
/// `config.toml` in its configuration directory, if it has one.
pub fn config_file_of(dirs: Option<ProjectPaths>) -> (file: Option<PathBuf>)
    ensures
        file == match dirs {
            Some(paths) => Some(config_file_in(paths.config_dir)),
            None => None,
        },
{
    match dirs {
        Some(paths) => Some(path_join(&paths.config_dir, "config.toml")),
        None => None,
    }
}

/// The directory in which the application stores its data by default;
/// `None` where the platform knows of no home directory. Which directory
/// it is, the platform says.
pub fn default_data_dir() -> Option<PathBuf> {
    data_dir_of(project_dirs())
}

/// The path of the configuration file that is read by default:
/// `config.toml` in the configuration directory of the application; `None`
/// where the platform knows of no home directory. Which directory it is,
/// the platform says.
pub fn default_config_file() -> (file: Option<PathBuf>)
    ensures
        file matches Some(file) ==> exists|config_dir: PathBuf| file == config_file_in(config_dir),
{
    let dirs = project_dirs();
    let ghost seen = dirs;
    let file = config_file_of(dirs);
    proof {
        if let Some(paths) = seen {
            assert(file->0 == config_file_in(paths.config_dir));
        }
    }
    file
}

/// The configuration file to read: the one that the command line names,
/// else the one that `fallback` gives.
pub fn config_file(cli: &Cli, fallback: Option<PathBuf>) -> (file: Option<PathBuf>)
    ensures
        file == match cli.config {
            Some(path) => Some(path),
            None => fallback,
        },
{
    match &cli.config {
        Some(path) => Some(path.clone()),
        None => fallback,
    }
}

impl ConfigStore {
    /// The settings that the store holds, if it holds any.
    pub closed spec fn content(&self) -> Option<AppConfig> {
        self.slot
    }

    /// An empty store.
    pub fn new() -> (store: ConfigStore)
        ensures
            store.content() is None,
    {
        ConfigStore { slot: None }
    }

    /// Whether the store has been filled.
    pub fn is_initialized(&self) -> (filled: bool)
        ensures
            filled == self.content() is Some,
    {
        self.slot.is_some()
    }

    /// Fills the store. A store that is filled already stays as it is, and
    /// the settings that were to go in come back.
    pub fn set(&mut self, config: AppConfig) -> (outcome: Result<(), AppConfig>)
        ensures
            old(self).content() is None ==> outcome is Ok && final(self).content() == Some(config),
            old(self).content() is Some ==> outcome == Err::<(), AppConfig>(config),
            old(self).content() is Some ==> final(self).content() == old(self).content(),
    {
        if self.slot.is_some() {
            Err(config)
        } else {
            self.slot = Some(config);
            Ok(())
        }
    }

    /// The settings, if the store has been filled.
    pub fn try_get(&self) -> (config: Option<&AppConfig>)
        ensures
            match config {
                Some(config) => self.content() == Some(*config),
                None => self.content() is None,
            },
    {
        self.slot.as_ref()
    }
}

/// The settings of the application. The store must have been filled.
pub fn get(store: &ConfigStore) -> (config: &AppConfig)
    requires
        store.content() is Some,
    ensures
        store.content() == Some(*config),
{
    match &store.slot {
        Some(config) => config,
        None => vstd::pervasive::unreached(),
    }
}

} // verus!
