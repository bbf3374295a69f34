use nitidus::config::{
    AppConfig, Cli, Command, ConfigStore, LogLevel, config_file, config_file_of, data_dir_of,
    default_config_file, default_data_dir, get,
};
use nitidus::dirs::ProjectPaths;
use nitidus::mail_client::MailClient;
use std::path::PathBuf;

fn paths(data_dir: &str, config_dir: &str) -> ProjectPaths {
    ProjectPaths { data_dir: PathBuf::from(data_dir), config_dir: PathBuf::from(config_dir) }
}

fn settings(folder: Option<&str>) -> AppConfig {
    let mut config = AppConfig::with_dirs(PathBuf::from("/var/lib/app"), None);
    config.folder = folder.map(str::to_string);
    config
}

#[test]
fn settings_from_directories_have_the_defaults() {
    let config = AppConfig::with_dirs(
        PathBuf::from("/data"),
        Some(PathBuf::from("/etc/himalaya/config.toml")),
    );
    assert_eq!(config.data_dir, PathBuf::from("/data"));
    assert_eq!(config.himalaya_config, Some(PathBuf::from("/etc/himalaya/config.toml")));
    assert_eq!(config.log_level, LogLevel::Info);
    assert_eq!(config.account_name, None);
    assert_eq!(config.folder, None);
}

#[test]
fn an_empty_command_line_asks_for_the_info_level_only() {
    let cli = Cli::new();
    assert_eq!(cli.data_dir, None);
    assert_eq!(cli.config, None);
    assert_eq!(cli.himalaya_config, None);
    assert_eq!(cli.log_level, Some(LogLevel::Info));
    assert_eq!(cli.account_name, None);
    assert_eq!(cli.folder, None);
    assert_eq!(cli.command, None);
    assert!(!cli.prints_default_config());
}

#[test]
fn the_print_command_is_recognised() {
    let mut cli = Cli::new();
    cli.command = Some(Command::PrintDefaultConfig);
    assert!(cli.prints_default_config());
}

#[test]
fn the_command_line_names_the_configuration_file_first() {
    let mut cli = Cli::new();
    let fallback = Some(PathBuf::from("/home/me/.config/app/config.toml"));
    assert_eq!(config_file(&cli, fallback.clone()), fallback);
    assert_eq!(config_file(&cli, None), None);
    cli.config = Some(PathBuf::from("./mine.toml"));
    assert_eq!(config_file(&cli, fallback), Some(PathBuf::from("./mine.toml")));
    assert_eq!(config_file(&cli, None), Some(PathBuf::from("./mine.toml")));
}

#[test]
fn the_default_directories_come_from_the_platform() {
    let data = default_data_dir();
    let file = default_config_file();
    assert_eq!(data.is_some(), file.is_some());
    if let Some(file) = file {
        assert_eq!(file.file_name().unwrap(), "config.toml");
        assert!(file.parent().unwrap().ends_with("nitidus"));
    }
    if let Some(data) = data {
        assert!(data.ends_with("nitidus"));
    }
}

#[test]
fn the_configuration_file_is_config_toml_in_the_configuration_directory() {
    assert_eq!(
        config_file_of(Some(paths("/data/app", "/etc/app"))),
        Some(PathBuf::from("/etc/app/config.toml"))
    );
    assert_eq!(
        config_file_of(Some(paths("/data/app", "/etc/app/"))),
        Some(PathBuf::from("/etc/app/config.toml"))
    );
    assert_eq!(config_file_of(Some(paths("/data/app", ""))), Some(PathBuf::from("config.toml")));
    assert_eq!(config_file_of(None), None);
}

#[test]
fn the_data_directory_is_taken_as_it_is() {
    assert_eq!(
        data_dir_of(Some(paths("/data/app", "/etc/app"))),
        Some(PathBuf::from("/data/app"))
    );
    assert_eq!(data_dir_of(None), None);
}

#[test]
fn the_store_is_filled_once() {
    let mut store = ConfigStore::new();
    assert!(!store.is_initialized());
    assert!(store.try_get().is_none());
    assert!(store.set(settings(Some("Archive"))).is_ok());
    assert!(store.is_initialized());
    assert_eq!(get(&store).folder.as_deref(), Some("Archive"));
    assert_eq!(store.try_get().unwrap().folder.as_deref(), Some("Archive"));

    let refused = store.set(settings(Some("Sent"))).unwrap_err();
    assert_eq!(refused.folder.as_deref(), Some("Sent"));
    assert_eq!(get(&store).folder.as_deref(), Some("Archive"));
    assert_eq!(get(&store).log_level, LogLevel::Info);
    assert_eq!(get(&store).data_dir, PathBuf::from("/var/lib/app"));
}

#[test]
fn the_inbox_is_opened_where_no_folder_is_asked_for() {
    assert_eq!(MailClient::new(None).folder_or_default(), "INBOX");
    assert_eq!(MailClient::new(Some("Archive".to_string())).folder_or_default(), "Archive");
    assert_eq!(MailClient::new(Some(String::new())).folder_or_default(), "");
}
