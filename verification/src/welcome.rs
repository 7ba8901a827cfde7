//! State of the first-run welcome flow: the login progress, the chosen
//! recipes directory, the preferences, and when the window may close. The
//! rendering and the background login live with the caller; it writes the
//! login status here and reads the derived fields back.

use vstd::prelude::*;

verus! {

/// Where the interactive login stands.
#[derive(Debug, Clone)]
pub enum LoginStatus {
    NotStarted,
    InProgress,
    Success { email: String },
    Error(String),
}

/// The welcome screen's state.
#[derive(Debug, Clone)]
pub struct WelcomeState {
    pub login_status: LoginStatus,
    pub user_email: Option<String>,
    pub login_error: Option<String>,
    pub is_logging_in: bool,
    pub recipes_dir: Option<String>,
    pub directory_error: Option<String>,
    pub preferences_expanded: bool,
    pub auto_start: bool,
    pub auto_update: bool,
    pub should_close: bool,
}

impl Default for WelcomeState {
    /// Not logged in, nothing chosen, preferences expanded with auto-start
    /// and auto-update enabled, window open.
    fn default() -> (r: WelcomeState)
        ensures
            r.login_status is NotStarted,
            r.user_email is None,
            r.login_error is None,
            !r.is_logging_in,
            r.recipes_dir is None,
            r.directory_error is None,
            r.preferences_expanded,
            r.auto_start,
            r.auto_update,
            !r.should_close,
    {
        WelcomeState {
            login_status: LoginStatus::NotStarted,
            user_email: None,
            login_error: None,
            is_logging_in: false,
            recipes_dir: None,
            directory_error: None,
            preferences_expanded: true,
            auto_start: true,
            auto_update: true,
            should_close: false,
        }
    }
}

impl WelcomeState {
    /// Logged in means the login status reports success.
    pub fn is_logged_in(&self) -> (r: bool)
        ensures
            r == (self.login_status is Success),
    {
        match &self.login_status {
            LoginStatus::Success { .. } => true,
            _ => false,
        }
    }

    /// Folds the login status into the derived fields: progress sets the
    /// in-progress flag, success records the email, an error records its
    /// message, and each arm clears what the others set.
    pub fn update_from_login_status(&mut self)
        ensures
            final(self).login_status == old(self).login_status,
            match old(self).login_status {
                LoginStatus::NotStarted => !final(self).is_logging_in && final(self).user_email
                    is None && final(self).login_error is None,
                LoginStatus::InProgress => final(self).is_logging_in && final(self).login_error
                    is None && final(self).user_email == old(self).user_email,
                LoginStatus::Success { email } => !final(self).is_logging_in && final(self).user_email == Some(email) && final(self).login_error is None,
                LoginStatus::Error(err) => !final(self).is_logging_in && final(self).user_email
                    is None && final(self).login_error == Some(err),
            },
            final(self).recipes_dir == old(self).recipes_dir,
            final(self).directory_error == old(self).directory_error,
            final(self).preferences_expanded == old(self).preferences_expanded,
            final(self).auto_start == old(self).auto_start,
            final(self).auto_update == old(self).auto_update,
            final(self).should_close == old(self).should_close,
    {
        match &self.login_status {
            LoginStatus::NotStarted => {
                self.is_logging_in = false;
                self.user_email = None;
                self.login_error = None;
            },
            LoginStatus::InProgress => {
                self.is_logging_in = true;
                self.login_error = None;
            },
            LoginStatus::Success { email } => {
                let email = email.clone();
                self.is_logging_in = false;
                self.user_email = Some(email);
                self.login_error = None;
            },
            LoginStatus::Error(err) => {
                let err = err.clone();
                self.is_logging_in = false;
                self.user_email = None;
                self.login_error = Some(err);
            },
        }
    }

    /// Setup is complete once authentication succeeded or is in progress,
    /// and a recipes directory is chosen.
    pub fn is_setup_complete(&self) -> (r: bool)
        ensures
            r == ((self.login_status is Success || self.is_logging_in) && self.recipes_dir
                is Some),
    {
        (self.is_logged_in() || self.is_logging_in) && self.recipes_dir.is_some()
    }

    /// The user may proceed exactly when setup is complete.
    pub fn can_proceed(&self) -> (r: bool)
        ensures
            r == ((self.login_status is Success || self.is_logging_in) && self.recipes_dir
                is Some),
    {
        self.is_setup_complete()
    }

    /// Chooses the recipes directory and clears any directory error.
    pub fn set_recipes_dir(&mut self, dir: String)
        ensures
            final(self).recipes_dir == Some(dir),
            final(self).directory_error is None,
            final(self).login_status == old(self).login_status,
            final(self).user_email == old(self).user_email,
            final(self).login_error == old(self).login_error,
            final(self).is_logging_in == old(self).is_logging_in,
            final(self).preferences_expanded == old(self).preferences_expanded,
            final(self).auto_start == old(self).auto_start,
            final(self).auto_update == old(self).auto_update,
            final(self).should_close == old(self).should_close,
    {
        self.recipes_dir = Some(dir);
        self.directory_error = None;
    }

    /// Records a directory selection error.
    pub fn set_directory_error(&mut self, error: String)
        ensures
            final(self).directory_error == Some(error),
            final(self).recipes_dir == old(self).recipes_dir,
    {
        self.directory_error = Some(error);
    }

    /// Toggles the preferences panel.
    pub fn toggle_preferences(&mut self)
        ensures
            final(self).preferences_expanded == !old(self).preferences_expanded,
            final(self).recipes_dir == old(self).recipes_dir,
            final(self).should_close == old(self).should_close,
    {
        self.preferences_expanded = !self.preferences_expanded;
    }

    /// Asks to close the window; granted only once setup is complete.
    pub fn request_close(&mut self)
        ensures
            ((old(self).login_status is Success || old(self).is_logging_in) && old(self).recipes_dir is Some) ==> final(self).should_close,
            !((old(self).login_status is Success || old(self).is_logging_in) && old(self).recipes_dir is Some) ==> *final(self) == *old(self),
            final(self).recipes_dir == old(self).recipes_dir,
            final(self).login_status == old(self).login_status,
    {
        if self.can_proceed() {
            self.should_close = true;
        }
    }

    /// The authentication step counts as complete while logged in or still
    /// logging in.
    pub fn is_step1_complete(&self) -> (r: bool)
        ensures
            r == (self.login_status is Success || self.is_logging_in),
    {
        self.is_logged_in() || self.is_logging_in
    }

    /// The authentication step is in progress while logging in and not yet
    /// logged in.
    pub fn is_step1_in_progress(&self) -> (r: bool)
        ensures
            r == (self.is_logging_in && !(self.login_status is Success)),
    {
        self.is_logging_in && !self.is_logged_in()
    }

    /// The directory step is complete once a directory is chosen.
    pub fn is_step2_complete(&self) -> (r: bool)
        ensures
            r == (self.recipes_dir is Some),
    {
        self.recipes_dir.is_some()
    }
}

/// What the welcome flow hands back to the caller when it closes.
#[derive(Debug, Clone)]
pub struct WelcomeResult {
    pub login_requested: bool,
    pub recipes_dir: Option<String>,
    pub auto_start: bool,
    pub auto_update: bool,
}

/// What the rendered setup steps reported being clicked.
#[derive(Debug, Clone)]
pub struct SetupStepsResponse {
    pub login_clicked: bool,
    pub select_directory_clicked: bool,
}

impl Default for SetupStepsResponse {
    fn default() -> (r: SetupStepsResponse)
        ensures
            !r.login_clicked,
            !r.select_directory_clicked,
    {
        SetupStepsResponse { login_clicked: false, select_directory_clicked: false }
    }
}

} // verus!
