use cook_sync::bridge::{EngineStatus, SyncManagerListener};
use cook_sync::cancel::CancelTree;
use cook_sync::manager::{FailureStep, SyncManager};
use cook_sync::retry::RetryPolicy;
use cook_sync::status::{SyncState, SyncStatus};
use cook_sync::SyncError;

fn now_ts() -> i64 {
    chrono::Utc::now().timestamp()
}

#[test]
fn test_sync_manager_states() {
    // Test state transitions without actual auth/config
    let mut state = SyncState::new();
    assert_eq!(state.status, SyncStatus::Starting);

    // Test set_syncing
    state.set_syncing();
    assert_eq!(state.status, SyncStatus::Syncing);
    assert!(state.error_message.is_none());

    // Test set_idle
    state.set_idle(now_ts());
    assert_eq!(state.status, SyncStatus::Idle);
    assert!(state.last_sync.is_some());
    assert!(state.error_message.is_none());

    // Test set_error
    state.set_error("Test error".to_string());
    assert_eq!(state.status, SyncStatus::Error);
    assert_eq!(state.error_message, Some("Test error".to_string()));

    // Test set_offline
    state.set_offline();
    assert_eq!(state.status, SyncStatus::Offline);
    assert_eq!(
        state.error_message,
        Some("No internet connection".to_string())
    );
}

#[test]
fn manager_test_test_sync_state_is_active() {
    let mut state = SyncState::new();
    state.status = SyncStatus::Starting;

    // Starting - not active
    assert!(!state.is_active());

    // Syncing - active
    state.status = SyncStatus::Syncing;
    assert!(state.is_active());

    // Idle - active
    state.status = SyncStatus::Idle;
    assert!(state.is_active());

    // Paused - not active
    state.status = SyncStatus::Paused;
    assert!(!state.is_active());

    // Error - not active
    state.status = SyncStatus::Error;
    assert!(!state.is_active());

    // Offline - not active
    state.status = SyncStatus::Offline;
    assert!(!state.is_active());
}

#[test]
fn test_sync_stats_tracking() {
    let mut state = SyncState::new();

    // Initial stats
    assert_eq!(state.items_synced, 0);
    assert_eq!(state.items_pending, 0);

    // Update stats
    state.items_synced = 10;
    state.items_pending = 5;

    assert_eq!(state.items_synced, 10);
    assert_eq!(state.items_pending, 5);
}

#[test]
fn manager_test_test_sync_status_display() {
    assert_eq!(SyncStatus::Starting.display_text(), "Starting");
    assert_eq!(SyncStatus::Syncing.display_text(), "Syncing");
    assert_eq!(SyncStatus::Idle.display_text(), "Up to date");
    assert_eq!(SyncStatus::Paused.display_text(), "Paused");
    assert_eq!(SyncStatus::Error.display_text(), "Error");
    assert_eq!(SyncStatus::Offline.display_text(), "Offline");
}

#[test]
fn manager_test_test_sync_status_equality() {
    assert_eq!(SyncStatus::Idle, SyncStatus::Idle);
    assert_ne!(SyncStatus::Idle, SyncStatus::Syncing);
    assert_ne!(SyncStatus::Paused, SyncStatus::Error);
}

#[test]
fn manager_test_test_sync_state_transitions_preserve_data() {
    let mut state = SyncState::new();
    state.items_synced = 10;
    state.items_pending = 5;

    // Transition to syncing should preserve counts
    state.set_syncing();
    assert_eq!(state.items_synced, 10);
    assert_eq!(state.items_pending, 5);

    // Transition to idle should preserve counts
    state.set_idle(now_ts());
    assert_eq!(state.items_synced, 10);
    assert_eq!(state.items_pending, 5);

    // Transition to error should preserve counts
    state.set_error("Error".to_string());
    assert_eq!(state.items_synced, 10);
    assert_eq!(state.items_pending, 5);

    // Transition to offline should preserve counts
    state.set_offline();
    assert_eq!(state.items_synced, 10);
    assert_eq!(state.items_pending, 5);
}

#[test]
fn manager_test_test_sync_state_last_sync_time() {
    let mut state = SyncState::new();
    assert!(state.last_sync.is_none());

    // Only set_idle should update last_sync
    state.set_syncing();
    assert!(state.last_sync.is_none());

    let t = now_ts();
    state.set_idle(t);
    let first_sync_time = state.last_sync;
    assert!(first_sync_time.is_some());

    state.set_idle(t + 1);
    let second_sync_time = state.last_sync;
    assert!(second_sync_time.is_some());
    assert!(second_sync_time > first_sync_time);
}

#[test]
fn manager_test_test_sync_state_clone() {
    let mut state = SyncState::new();
    state.set_idle(now_ts());
    state.items_synced = 10;
    state.items_pending = 5;

    let cloned = state.clone();

    assert_eq!(cloned.status, state.status);
    assert_eq!(cloned.last_sync, state.last_sync);
    assert_eq!(cloned.error_message, state.error_message);
    assert_eq!(cloned.items_synced, state.items_synced);
    assert_eq!(cloned.items_pending, state.items_pending);
}

#[test]
fn test_retry_policy_delay_calculation() {
    let policy = RetryPolicy::new();

    // Test exponential backoff
    assert_eq!(policy.calculate_delay(0), 5);
    assert_eq!(policy.calculate_delay(1), 10);
    assert_eq!(policy.calculate_delay(2), 20);
    assert_eq!(policy.calculate_delay(3), 40);

    // Test max delay cap
    assert!(policy.calculate_delay(10) <= policy.max_delay_secs);
    assert_eq!(policy.calculate_delay(10), 300);
}

#[test]
fn test_cancellation_token_hierarchy() {
    let mut tree = CancelTree::new();
    let parent = tree.new_root();
    let child = tree.derive_child(parent);

    assert!(!tree.is_cancelled(parent));
    assert!(!tree.is_cancelled(child));

    // Cancel parent
    tree.cancel(parent);

    // Both should be cancelled
    assert!(tree.is_cancelled(parent));
    assert!(tree.is_cancelled(child));

    // Cancelling again changes nothing: a cancelled signal stays cancelled.
    tree.cancel(parent);
    assert!(tree.is_cancelled(parent));
    assert!(tree.is_cancelled(child));

    // A grandchild derived from the child observes it too; an unrelated
    // root does not.
    let grandchild = tree.derive_child(child);
    assert!(tree.is_cancelled(grandchild));
    let other = tree.new_root();
    assert!(!tree.is_cancelled(other));
}

#[test]
fn test_status_transitions() {
    let state = SyncState::new();
    let mut listener = SyncManagerListener::new(state);

    // Test syncing transition
    listener.on_status_changed(EngineStatus::Syncing, now_ts());
    assert_eq!(listener.state.status, SyncStatus::Syncing);

    // Test idle transition
    listener.on_status_changed(EngineStatus::Idle, now_ts());
    assert_eq!(listener.state.status, SyncStatus::Idle);

    // Test error transition
    listener.on_status_changed(EngineStatus::Error("test error".to_string()), now_ts());
    assert_eq!(listener.state.status, SyncStatus::Error);
    assert_eq!(
        listener.state.error_message,
        Some("test error".to_string())
    );

    // The working phases all collapse to Syncing.
    listener.on_status_changed(EngineStatus::Indexing, now_ts());
    assert_eq!(listener.state.status, SyncStatus::Syncing);
    listener.on_status_changed(EngineStatus::Downloading, now_ts());
    assert_eq!(listener.state.status, SyncStatus::Syncing);
    listener.on_status_changed(EngineStatus::Uploading, now_ts());
    assert_eq!(listener.state.status, SyncStatus::Syncing);
}

#[test]
fn test_completion_callbacks() {
    let state = SyncState::new();
    let mut listener = SyncManagerListener::new(state);

    // Test successful completion
    listener.on_complete(true, None, now_ts());
    assert_eq!(listener.state.status, SyncStatus::Idle);
    assert!(listener.state.last_sync.is_some());

    // Test failed completion
    listener.on_complete(false, Some("sync failed".to_string()), now_ts());
    assert_eq!(listener.state.status, SyncStatus::Error);
    assert_eq!(
        listener.state.error_message,
        Some("sync failed".to_string())
    );

    // A failure without a message gets the fixed text.
    listener.on_complete(false, None, now_ts());
    assert_eq!(listener.state.error_message, Some("Sync failed".to_string()));
}

#[test]
fn test_manager_start_preconditions() {
    let now = now_ts();

    let mut mgr = SyncManager::new();
    let r = mgr.start(false, true, now);
    assert!(matches!(r, Err(SyncError::AuthenticationRequired)));

    let mut mgr = SyncManager::new();
    let r = mgr.start(true, false, now);
    match r {
        Err(SyncError::InvalidConfiguration(m)) => {
            assert_eq!(m, "Recipes directory not configured");
        }
        _ => panic!("expected a configuration error"),
    }

    let mut mgr = SyncManager::new();
    let r = mgr.start(true, true, now);
    assert!(r.is_ok());
    assert!(!mgr.is_running()); // still Starting until the first pass reports
}

#[test]
fn test_manager_pause_resume_is_running() {
    let mut mgr = SyncManager::new();
    assert!(!mgr.is_running()); // Starting

    mgr.state.set_idle(now_ts());
    assert!(mgr.is_running());

    mgr.pause();
    assert_eq!(mgr.state.status, SyncStatus::Paused);
    assert!(!mgr.is_running());
    assert!(!mgr.should_run_cycle(true));
    assert!(!mgr.should_run_cycle(false));

    mgr.resume();
    assert_eq!(mgr.state.status, SyncStatus::Idle);
    assert!(mgr.is_running());
    assert!(mgr.should_run_cycle(true));
    assert!(!mgr.should_run_cycle(false));

    // Resume also recovers from Error.
    mgr.state.set_error("boom".to_string());
    assert!(!mgr.is_running());
    mgr.resume();
    assert_eq!(mgr.state.status, SyncStatus::Idle);
    assert_eq!(mgr.state.error_message, None);

    mgr.state.set_offline();
    assert!(mgr.is_running());
}

#[test]
fn test_manager_retry_sequence() {
    let now = now_ts();
    let mut mgr = SyncManager::new();
    mgr.start(true, true, now).unwrap();

    // Retriable failures back off as 5, 10, 20, 40, 80 seconds.
    let expected = [5u64, 10, 20, 40, 80];
    for (attempt, want) in expected.iter().enumerate() {
        let step = mgr.on_pass_failure(
            SyncError::Network("connection reset".to_string()),
            attempt as u64,
        );
        match step {
            FailureStep::RetryAfter(d) => assert_eq!(d, *want),
            _ => panic!("expected a backoff"),
        }
    }

    // At the budget the loop gives up with the counted message.
    let step = mgr.on_pass_failure(SyncError::Network("still down".to_string()), 5);
    assert!(matches!(step, FailureStep::GiveUp));
    assert_eq!(mgr.state.status, SyncStatus::Error);
    assert_eq!(
        mgr.state.error_message,
        Some("Sync failed after 5 retries".to_string())
    );
    assert_eq!(mgr.consecutive_failures, 1);
}

#[test]
fn test_manager_fatal_failures() {
    let now = now_ts();

    let mut mgr = SyncManager::new();
    mgr.start(true, true, now).unwrap();
    let step = mgr.on_pass_failure(SyncError::AuthenticationRequired, 0);
    assert!(matches!(step, FailureStep::FatalLogout));
    assert_eq!(mgr.state.status, SyncStatus::Error);
    assert_eq!(
        mgr.state.error_message,
        Some("Authentication required".to_string())
    );

    let mut mgr = SyncManager::new();
    mgr.start(true, true, now).unwrap();
    let step = mgr.on_pass_failure(
        SyncError::InvalidConfiguration("missing directory".to_string()),
        0,
    );
    assert!(matches!(step, FailureStep::Fatal));
    assert_eq!(mgr.state.status, SyncStatus::Error);
    assert_eq!(
        mgr.state.error_message,
        Some("Invalid configuration: missing directory".to_string())
    );
}

#[test]
fn test_manager_stale_failure_reset() {
    let now = now_ts();
    let mut mgr = SyncManager::new();
    mgr.start(true, true, now).unwrap();

    // A give-up leaves an error and a failure on record.
    let _ = mgr.on_pass_failure(SyncError::Other("flaky".to_string()), 5);
    assert_eq!(mgr.consecutive_failures, 1);
    assert_eq!(mgr.state.status, SyncStatus::Error);

    // Recently failed: no reset.
    assert!(!mgr.maybe_reset_stale_failures(now + 600));
    assert_eq!(mgr.consecutive_failures, 1);

    // After more than twice the backoff cap, the counter resets and the
    // error clears.
    assert!(mgr.maybe_reset_stale_failures(now + 601));
    assert_eq!(mgr.consecutive_failures, 0);
    assert_eq!(mgr.state.status, SyncStatus::Idle);
    assert_eq!(mgr.state.error_message, None);

    // Nothing on record: nothing to reset.
    assert!(!mgr.maybe_reset_stale_failures(now + 10_000));
}

#[test]
fn test_manager_success_and_stop() {
    let now = now_ts();
    let mut mgr = SyncManager::new();
    let root = mgr.start(true, true, now).unwrap();

    let pass = mgr.pass_signal().expect("a started loop derives a pass signal");
    assert!(!mgr.cancel.is_cancelled(pass));

    mgr.on_pass_success(now + 5);
    assert_eq!(mgr.last_success, Some(now + 5));
    assert_eq!(mgr.consecutive_failures, 0);

    // Stopping cancels the root, and with it the in-flight pass signal.
    mgr.signal_stop();
    assert!(mgr.cancel.is_cancelled(root));
    assert!(mgr.cancel.is_cancelled(pass));

    mgr.finish_stop();
    assert_eq!(mgr.state.status, SyncStatus::Idle);
    assert!(mgr.root_signal.is_none());
}
