use cook_sync::config::{AppPaths, Config, Settings};
use cook_sync::constants;
use cook_sync::SyncError;

#[test]
fn test_settings_default_has_welcome_shown_false() {
    // Test that new Settings have welcome_shown set to false by default
    let settings = Settings::default();

    assert!(
        !settings.welcome_shown,
        "Default settings should have welcome_shown set to false"
    );
}

#[test]
fn test_settings_welcome_shown_can_be_set_to_true() {
    // Test that welcome_shown can be updated from false to true
    let mut settings = Settings::default();

    assert!(!settings.welcome_shown, "Should start as false");

    settings.welcome_shown = true;

    assert!(settings.welcome_shown, "Should be updatable to true");
}

#[test]
fn test_settings_multiple_updates_to_welcome_shown() {
    // Test that welcome_shown can be toggled multiple times
    let mut settings = Settings::default();

    assert!(!settings.welcome_shown);

    settings.welcome_shown = true;
    assert!(settings.welcome_shown);

    settings.welcome_shown = false;
    assert!(!settings.welcome_shown);

    settings.welcome_shown = true;
    assert!(settings.welcome_shown);
}

#[test]
fn test_endpoints_defined() {
    // Ensure all required endpoints are defined
    // These are compile-time constants, so just verify they exist
    let _ = constants::BASE;
    let _ = constants::API;
    let _ = constants::SYNC;
}

#[test]
fn test_endpoints_valid_urls() {
    // Basic validation that endpoints look like URLs
    assert!(constants::BASE.starts_with("http://") || constants::BASE.starts_with("https://"));
    assert!(constants::API.starts_with("http://") || constants::API.starts_with("https://"));
    assert!(constants::SYNC.starts_with("http://") || constants::SYNC.starts_with("https://"));
}

#[test]
fn test_settings_defaults() {
    let settings = Settings::default();
    assert_eq!(settings.recipes_dir, None);
    assert_eq!(settings.sync_interval_secs, 12);
    assert!(settings.auto_start);
    assert!(settings.auto_update);
    assert!(settings.show_notifications);
    assert_eq!(settings.update_settings.check_interval_hours, 24);
    assert!(settings.update_settings.auto_download);
    assert!(!settings.update_settings.auto_install);
    assert!(settings.update_settings.show_release_notes);
    assert!(settings.update_settings.skip_versions.is_empty());
}

#[test]
fn test_settings_validate() {
    // Defaults are valid (no directory configured, interval 12 s).
    let settings = Settings::default();
    assert!(settings.validate(false).is_ok());

    // A configured directory that does not exist is rejected with its path.
    let mut settings = Settings::default();
    settings.recipes_dir = Some("/missing/recipes".to_string());
    match settings.validate(false) {
        Err(SyncError::InvalidConfiguration(m)) => {
            assert_eq!(m, "Recipes directory does not exist: /missing/recipes");
        }
        _ => panic!("expected a configuration error"),
    }
    assert!(settings.validate(true).is_ok());

    // An interval under five seconds is rejected.
    let mut settings = Settings::default();
    settings.sync_interval_secs = 4;
    match settings.validate(false) {
        Err(SyncError::InvalidConfiguration(m)) => {
            assert_eq!(m, "Sync interval must be at least 5 seconds");
        }
        _ => panic!("expected a configuration error"),
    }
    settings.sync_interval_secs = 5;
    assert!(settings.validate(false).is_ok());
}

#[test]
fn test_app_paths_layout() {
    let paths = AppPaths::from_base_dirs(
        "/home/u/.config/cook-sync".to_string(),
        "/home/u/.local/share/cook-sync".to_string(),
        "/home/u/.cache/cook-sync".to_string(),
    );
    assert_eq!(paths.settings_file, "/home/u/.config/cook-sync/settings.json");
    assert_eq!(paths.session_file, "/home/u/.config/cook-sync/session.json");
    assert_eq!(paths.profile_file, "/home/u/.config/cook-sync/profile.json");
    assert_eq!(paths.database_file, "/home/u/.local/share/cook-sync/sync.db");
    assert_eq!(paths.updates_file, "/home/u/.local/share/cook-sync/updates.json");
    assert_eq!(paths.log_file, "/home/u/.cache/cook-sync/cook-sync.log");
    assert_eq!(paths.pid_file, "/home/u/.cache/cook-sync/cook-sync.pid");
    assert_eq!(paths.config_dir, "/home/u/.config/cook-sync");
    assert_eq!(paths.data_dir, "/home/u/.local/share/cook-sync");
}

#[test]
fn test_config_update_settings() {
    let paths = AppPaths::from_base_dirs(
        "/tmp/cfg".to_string(),
        "/tmp/data".to_string(),
        "/tmp/cache".to_string(),
    );
    let mut config = Config::new(paths, Settings::default());
    assert!(!config.settings().welcome_shown);

    let mut updated = config.settings().clone();
    updated.welcome_shown = true;
    updated.recipes_dir = Some("/tmp/recipes".to_string());
    config.update_settings(updated);

    assert!(config.settings().welcome_shown);
    assert_eq!(
        config.settings().recipes_dir,
        Some("/tmp/recipes".to_string())
    );
    assert_eq!(config.paths().settings_file, "/tmp/cfg/settings.json");
}
