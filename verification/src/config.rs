//! Configuration: the agent's settings, the file locations derived from the
//! platform's base directories, and the pairing of both. Reading and writing
//! the settings file, and asking the platform for its base directories, are
//! the caller's work; the types here hold and validate plain values.

use crate::errors::SyncError;
use vstd::prelude::*;

verus! {

/// Preferences for the update checker.
#[derive(Debug, Clone)]
pub struct UpdateSettings {
    pub check_interval_hours: u32,
    pub auto_download: bool,
    pub auto_install: bool,
    pub show_release_notes: bool,
    pub skip_versions: Vec<String>,
}

impl Default for UpdateSettings {
    /// Daily checks, downloads without asking, installs only on
    /// confirmation.
    fn default() -> (r: UpdateSettings)
        ensures
            r.check_interval_hours == 24,
            r.auto_download,
            !r.auto_install,
            r.show_release_notes,
            r.skip_versions@.len() == 0,
    {
        UpdateSettings {
            check_interval_hours: 24,
            auto_download: true,
            auto_install: false,
            show_release_notes: true,
            skip_versions: Vec::new(),
        }
    }
}

/// The agent's persisted settings.
#[derive(Debug, Clone)]
pub struct Settings {
    pub recipes_dir: Option<String>,
    pub sync_interval_secs: u64,
    pub auto_start: bool,
    pub auto_update: bool,
    pub show_notifications: bool,
    pub welcome_shown: bool,
    pub update_settings: UpdateSettings,
}

impl Default for Settings {
    /// No recipes directory yet, a 12 s sync interval, auto-start and
    /// auto-update on, notifications on, and the welcome screen not yet
    /// shown.
    fn default() -> (r: Settings)
        ensures
            r.recipes_dir is None,
            r.sync_interval_secs == 12,
            r.auto_start,
            r.auto_update,
            r.show_notifications,
            !r.welcome_shown,
            r.update_settings.check_interval_hours == 24,
    {
        Settings {
            recipes_dir: None,
            sync_interval_secs: 12,
            auto_start: true,
            auto_update: true,
            show_notifications: true,
            welcome_shown: false,
            update_settings: UpdateSettings::default(),
        }
    }
}

impl Settings {
    /// Validates the settings: a configured recipes directory must exist
    /// (the caller reports whether it does), and the sync interval must be
    /// at least five seconds.
    pub fn validate(&self, recipes_dir_exists: bool) -> (r: Result<(), SyncError>)
        ensures
            (self.recipes_dir is Some && !recipes_dir_exists) ==> (r matches Err(e) && (e matches
                SyncError::InvalidConfiguration(m) && m@ == "Recipes directory does not exist: "@
                + self.recipes_dir.unwrap()@)),
            !(self.recipes_dir is Some && !recipes_dir_exists) && self.sync_interval_secs < 5 ==> (
            r matches Err(e) && (e matches SyncError::InvalidConfiguration(m) && m@
                == "Sync interval must be at least 5 seconds"@)),
            !(self.recipes_dir is Some && !recipes_dir_exists) && self.sync_interval_secs >= 5
                ==> r is Ok,
    {
        match &self.recipes_dir {
            Some(dir) => {
                if !recipes_dir_exists {
                    let mut msg = "Recipes directory does not exist: ".to_owned();
                    msg.append(dir.as_str());
                    return Err(SyncError::InvalidConfiguration(msg));
                }
            },
            None => (),
        }
        if self.sync_interval_secs < 5 {
            return Err(
                SyncError::InvalidConfiguration(
                    "Sync interval must be at least 5 seconds".to_owned(),
                ),
            );
        }
        Ok(())
    }
}

/// Locations of the agent's files, derived from the platform's base
/// directories.
#[derive(Debug, Clone)]
pub struct AppPaths {
    pub config_dir: String,
    pub data_dir: String,
    pub settings_file: String,
    pub session_file: String,
    pub profile_file: String,
    pub database_file: String,
    pub updates_file: String,
    pub log_file: String,
    pub pid_file: String,
}

fn joined(dir: &str, name: &str) -> (r: String)
    ensures
        r@ == dir@ + "/"@ + name@,
{
    let mut s = dir.to_owned();
    s.append("/");
    s.append(name);
    proof {
        assert(s@ =~= dir@ + "/"@ + name@);
    }
    s
}

impl AppPaths {
    /// The file layout under the platform's configuration, data and cache
    /// directories: settings and identity under configuration, the sync
    /// database under data, logs and the pid file under cache.
    pub fn from_base_dirs(config_dir: String, data_dir: String, cache_dir: String) -> (r: AppPaths)
        ensures
            r.config_dir@ == config_dir@,
            r.data_dir@ == data_dir@,
            r.settings_file@ == config_dir@ + "/"@ + "settings.json"@,
            r.session_file@ == config_dir@ + "/"@ + "session.json"@,
            r.profile_file@ == config_dir@ + "/"@ + "profile.json"@,
            r.database_file@ == data_dir@ + "/"@ + "sync.db"@,
            r.updates_file@ == data_dir@ + "/"@ + "updates.json"@,
            r.log_file@ == cache_dir@ + "/"@ + "cook-sync.log"@,
            r.pid_file@ == cache_dir@ + "/"@ + "cook-sync.pid"@,
    {
        AppPaths {
            settings_file: joined(config_dir.as_str(), "settings.json"),
            session_file: joined(config_dir.as_str(), "session.json"),
            profile_file: joined(config_dir.as_str(), "profile.json"),
            database_file: joined(data_dir.as_str(), "sync.db"),
            updates_file: joined(data_dir.as_str(), "updates.json"),
            log_file: joined(cache_dir.as_str(), "cook-sync.log"),
            pid_file: joined(cache_dir.as_str(), "cook-sync.pid"),
            config_dir,
            data_dir,
        }
    }
}

/// The agent's configuration: its file locations and current settings.
#[derive(Debug)]
pub struct Config {
    paths: AppPaths,
    settings: Settings,
}

impl Config {
    /// Pairs file locations with settings, as loaded by the caller.
    pub fn new(paths: AppPaths, settings: Settings) -> (r: Config)
        ensures
            r.spec_paths() == paths,
            r.spec_settings() == settings,
    {
        Config { paths, settings }
    }

    pub closed spec fn spec_paths(&self) -> AppPaths {
        self.paths
    }

    pub closed spec fn spec_settings(&self) -> Settings {
        self.settings
    }

    /// The file locations.
    pub fn paths(&self) -> (r: &AppPaths)
        ensures
            *r == self.spec_paths(),
    {
        &self.paths
    }

    /// The current settings.
    pub fn settings(&self) -> (r: &Settings)
        ensures
            *r == self.spec_settings(),
    {
        &self.settings
    }

    /// Replaces the settings; the caller persists them afterwards.
    pub fn update_settings(&mut self, settings: Settings)
        ensures
            final(self).spec_settings() == settings,
            final(self).spec_paths() == old(self).spec_paths(),
    {
        self.settings = settings;
    }
}

} // verus!
