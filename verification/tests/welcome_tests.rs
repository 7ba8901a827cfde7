use cook_sync::welcome::{LoginStatus, WelcomeResult, WelcomeState};

#[test]
fn test_default_state() {
    let state = WelcomeState::default();
    assert!(!state.is_logged_in());
    assert!(!state.is_setup_complete());
    assert!(!state.can_proceed());
    assert!(state.auto_start);
    assert!(state.auto_update);
}

#[test]
fn test_login_flow() {
    let mut state = WelcomeState::default();

    // Simulate login in progress
    state.login_status = LoginStatus::InProgress;
    state.update_from_login_status();
    assert!(state.is_logging_in);
    assert!(state.is_step1_in_progress());

    // Simulate login success
    state.login_status = LoginStatus::Success {
        email: "user@example.com".to_string(),
    };
    state.update_from_login_status();
    assert!(state.is_logged_in());
    assert!(!state.is_logging_in);
    assert_eq!(state.user_email, Some("user@example.com".to_string()));
    assert!(state.is_step1_complete());
}

#[test]
fn test_setup_completion() {
    let mut state = WelcomeState::default();

    // Not complete with just login
    state.login_status = LoginStatus::Success {
        email: "user@example.com".to_string(),
    };
    state.update_from_login_status();
    assert!(!state.is_setup_complete());

    // Complete with both login and directory
    state.set_recipes_dir("/tmp/recipes".to_string());
    assert!(state.is_setup_complete());
    assert!(state.can_proceed());
}

#[test]
fn test_login_error() {
    let mut state = WelcomeState::default();

    // Simulate login error
    state.login_status = LoginStatus::Error("Connection failed".to_string());
    state.update_from_login_status();

    assert!(!state.is_logged_in());
    assert!(!state.is_logging_in);
    assert_eq!(state.login_error, Some("Connection failed".to_string()));
}

#[test]
fn test_preferences_toggle() {
    let mut state = WelcomeState::default();

    assert!(state.preferences_expanded); // Now defaults to expanded
    state.toggle_preferences();
    assert!(!state.preferences_expanded);
    state.toggle_preferences();
    assert!(state.preferences_expanded);
}

#[test]
fn test_welcome_result_struct_exists() {
    // Test that WelcomeResult struct exists and has expected fields
    let result = WelcomeResult {
        login_requested: false,
        recipes_dir: None,
        auto_start: true,
        auto_update: true,
    };

    assert!(!result.login_requested);
    assert!(result.recipes_dir.is_none());
    assert!(result.auto_start);
    assert!(result.auto_update);
}

#[test]
fn test_welcome_result_with_login_requested() {
    // Test that WelcomeResult can track login requests
    let result = WelcomeResult {
        login_requested: true,
        recipes_dir: None,
        auto_start: true,
        auto_update: true,
    };

    assert!(
        result.login_requested,
        "WelcomeResult should be able to track login_requested = true"
    );
}

#[test]
fn test_welcome_result_with_recipes_dir() {
    // Test that WelcomeResult can store a recipes directory
    let test_path = "/test/recipes".to_string();
    let result = WelcomeResult {
        login_requested: false,
        recipes_dir: Some(test_path.clone()),
        auto_start: true,
        auto_update: true,
    };

    assert!(result.recipes_dir.is_some());
    assert_eq!(result.recipes_dir.unwrap(), test_path);
}

#[test]
fn test_welcome_result_with_both_fields_set() {
    // Test that WelcomeResult can have both fields set simultaneously
    let test_path = "/test/recipes".to_string();
    let result = WelcomeResult {
        login_requested: true,
        recipes_dir: Some(test_path.clone()),
        auto_start: true,
        auto_update: true,
    };

    assert!(result.login_requested);
    assert!(result.recipes_dir.is_some());
    assert_eq!(result.recipes_dir.unwrap(), test_path);
}

#[test]
fn test_default_welcome_result_is_empty() {
    // Test that a default WelcomeResult has no actions selected
    let result = WelcomeResult {
        login_requested: false,
        recipes_dir: None,
        auto_start: true,
        auto_update: true,
    };

    assert!(!result.login_requested, "Default should not request login");
    assert!(
        result.recipes_dir.is_none(),
        "Default should have no directory"
    );
}

#[test]
fn test_welcome_result_only_login() {
    // Test that user can choose only to login
    let result = WelcomeResult {
        login_requested: true,
        recipes_dir: None,
        auto_start: true,
        auto_update: true,
    };

    assert!(result.login_requested);
    assert!(result.recipes_dir.is_none());
}

#[test]
fn test_welcome_result_only_directory() {
    // Test that user can choose only to select directory
    let result = WelcomeResult {
        login_requested: false,
        recipes_dir: Some("/test".to_string()),
        auto_start: true,
        auto_update: true,
    };

    assert!(!result.login_requested);
    assert!(result.recipes_dir.is_some());
}

#[test]
fn test_request_close_requires_completed_setup() {
    let mut state = WelcomeState::default();

    // Nothing set up: the close request is ignored.
    state.request_close();
    assert!(!state.should_close);

    state.login_status = LoginStatus::Success {
        email: "user@example.com".to_string(),
    };
    state.update_from_login_status();
    state.set_recipes_dir("/tmp/recipes".to_string());
    state.request_close();
    assert!(state.should_close);
}

#[test]
fn test_directory_error_cleared_by_selection() {
    let mut state = WelcomeState::default();

    state.set_directory_error("not writable".to_string());
    assert_eq!(state.directory_error, Some("not writable".to_string()));
    assert!(!state.is_step2_complete());

    state.set_recipes_dir("/tmp/recipes".to_string());
    assert_eq!(state.directory_error, None);
    assert!(state.is_step2_complete());
}
