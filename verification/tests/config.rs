use oss_porter_core::config::{
    get_default_config_path, history_mode_at, load_config, optional_text, validate_branch_name,
    validate_project_id, LoadFailure,
};
use oss_porter_core::{ConfigFile, GlobalConfig, HistoryMode, PorterError, ProjectConfig};

fn project(output: &str) -> ProjectConfig {
    ProjectConfig {
        internal_repo_path: "/work/internal".to_string(),
        project_subdir: "libs/widget".to_string(),
        output_path: output.to_string(),
        public_repo_url: None,
        history_mode: HistoryMode::default(),
        license: None,
        internal_branch: oss_porter_core::default_branch(),
        public_branch: oss_porter_core::default_branch(),
    }
}

#[test]
fn defaults_are_empty_and_clean_slate() {
    let config = ConfigFile::default();
    assert!(config.projects.is_empty());
    assert!(config.settings.default_license.is_none());
    assert!(config.settings.secrets_scan_level.is_none());
    let settings = GlobalConfig::default();
    assert!(settings.default_license.is_none());
    assert!(settings.secrets_scan_level.is_none());
    assert_eq!(HistoryMode::default(), HistoryMode::CleanSlate);
    assert_eq!(oss_porter_core::default_branch(), "main");
}

#[test]
fn projects_are_kept_under_their_identifiers() {
    let mut config = ConfigFile::default();
    assert!(!config.contains_key("a"));
    assert!(config.get("a").is_none());
    assert!(config.insert("a".to_string(), project("/out/a")).is_none());
    assert!(config.insert("b".to_string(), project("/out/b")).is_none());
    assert!(config.contains_key("a"));
    assert_eq!(config.get("a").unwrap().output_path, "/out/a");
    assert_eq!(config.get("b").unwrap().output_path, "/out/b");
    assert!(config.get("c").is_none());
    assert_eq!(config.projects.len(), 2);
}

#[test]
fn insert_replaces_and_yields_the_old_project() {
    let mut config = ConfigFile::default();
    config.insert("a".to_string(), project("/out/old"));
    config.insert("b".to_string(), project("/out/b"));
    let old = config.insert("a".to_string(), project("/out/new")).unwrap();
    assert_eq!(old.output_path, "/out/old");
    assert_eq!(config.get("a").unwrap().output_path, "/out/new");
    assert_eq!(config.get("b").unwrap().output_path, "/out/b");
    assert_eq!(config.projects.len(), 2);
}

#[test]
fn remove_forgets_and_yields_the_project() {
    let mut config = ConfigFile::default();
    config.insert("a".to_string(), project("/out/a"));
    config.insert("b".to_string(), project("/out/b"));
    config.insert("c".to_string(), project("/out/c"));
    assert!(config.remove("x").is_none());
    assert_eq!(config.remove("b").unwrap().output_path, "/out/b");
    assert!(!config.contains_key("b"));
    assert_eq!(config.get("a").unwrap().output_path, "/out/a");
    assert_eq!(config.get("c").unwrap().output_path, "/out/c");
    assert!(config.remove("b").is_none());
    assert_eq!(config.projects.len(), 2);
}

#[test]
fn project_identifier_is_judged() {
    let mut config = ConfigFile::default();
    config.insert("known".to_string(), project("/out/k"));
    assert_eq!(validate_project_id("  fresh-one ", &config), Ok(()));
    assert_eq!(
        validate_project_id("   ", &config),
        Err("Project ID cannot be empty.".to_string())
    );
    assert_eq!(
        validate_project_id("two words", &config),
        Err("Project ID should not contain whitespace or periods.".to_string())
    );
    assert_eq!(
        validate_project_id("a.b", &config),
        Err("Project ID should not contain whitespace or periods.".to_string())
    );
    assert_eq!(
        validate_project_id(" known\n", &config),
        Err("Project ID 'known' already exists in the configuration.".to_string())
    );
}

#[test]
fn branch_name_must_not_be_blank() {
    assert_eq!(validate_branch_name("main"), Ok(()));
    assert_eq!(validate_branch_name(" \t"), Err("Branch name cannot be empty.".to_string()));
    assert_eq!(validate_branch_name(""), Err("Branch name cannot be empty.".to_string()));
}

#[test]
fn optional_field_is_trimmed_or_absent() {
    assert_eq!(optional_text(""), None);
    assert_eq!(optional_text("  \n"), None);
    assert_eq!(optional_text("  MIT "), Some("MIT".to_string()));
}

#[test]
fn history_mode_follows_the_position_in_the_list() {
    assert_eq!(history_mode_at(0), HistoryMode::CleanSlate);
    assert_eq!(history_mode_at(1), HistoryMode::Preserve);
    assert_eq!(history_mode_at(7), HistoryMode::Preserve);
}

#[test]
fn configuration_is_kept_in_the_home_directory() {
    assert_eq!(get_default_config_path(Some("/home/u")).unwrap(), "/home/u/.oss-porter.toml");
    assert_eq!(get_default_config_path(Some("/home/u/")).unwrap(), "/home/u/.oss-porter.toml");
    match get_default_config_path(None) {
        Err(PorterError::Config(message)) => {
            assert_eq!(message, "Could not determine user's home directory.")
        }
        other => panic!("unexpected: {:?}", other),
    }
}

#[test]
fn failed_load_is_reported_by_its_kind() {
    let mut config = ConfigFile::default();
    config.insert("a".to_string(), project("/out/a"));
    let loaded = load_config("/c.toml", Ok(config)).unwrap();
    assert_eq!(loaded.get("a").unwrap().output_path, "/out/a");
    match load_config("/c.toml", Err(LoadFailure::NotFound)) {
        Err(PorterError::ConfigNotFound(path)) => assert_eq!(path, "/c.toml"),
        other => panic!("unexpected: {:?}", other),
    }
    match load_config("/c.toml", Err(LoadFailure::Unreadable("denied".to_string()))) {
        Err(PorterError::Io { detail, path }) => {
            assert_eq!(detail, "denied");
            assert_eq!(path, "/c.toml");
        }
        other => panic!("unexpected: {:?}", other),
    }
    match load_config("/c.toml", Err(LoadFailure::Malformed("line 3".to_string()))) {
        Err(PorterError::Config(message)) => {
            assert_eq!(message, "Failed to parse config file '/c.toml': line 3")
        }
        other => panic!("unexpected: {:?}", other),
    }
}
