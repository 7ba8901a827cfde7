//! Bridges the sync engine's status events onto the status state machine:
//! every working phase collapses to `Syncing`, idleness and a successful
//! completion stamp `Idle`, and failures carry their message into `Error`.

use crate::status::{SyncState, SyncStatus};
use vstd::prelude::*;

verus! {

/// A status event as the sync engine reports it.
#[derive(Debug, Clone)]
pub enum EngineStatus {
    Idle,
    Syncing,
    Indexing,
    Downloading,
    Uploading,
    Error(String),
}

/// Receives engine events and applies them to the status state machine.
#[derive(Debug)]
pub struct SyncManagerListener {
    pub state: SyncState,
}

impl SyncManagerListener {
    pub fn new(state: SyncState) -> (r: SyncManagerListener)
        ensures
            r.state == state,
    {
        SyncManagerListener { state }
    }

    /// Applies one progress event at `now`: `Idle` stamps an idle state,
    /// every working phase becomes `Syncing`, an engine error becomes
    /// `Error` with its message. Counters are preserved throughout.
    pub fn on_status_changed(&mut self, status: EngineStatus, now: i64)
        ensures
            match status {
                EngineStatus::Idle => final(self).state.status == SyncStatus::Idle && final(self).state.last_sync == Some(now) && final(self).state.error_message is None,
                EngineStatus::Error(m) => final(self).state.status == SyncStatus::Error && final(self).state.error_message == Some(m) && final(self).state.last_sync == old(self).state.last_sync,
                _ => final(self).state.status == SyncStatus::Syncing && final(self).state.error_message is None && final(self).state.last_sync == old(self).state.last_sync,
            },
            final(self).state.items_synced == old(self).state.items_synced,
            final(self).state.items_pending == old(self).state.items_pending,
            final(self).state.wf(),
    {
        match status {
            EngineStatus::Idle => self.state.set_idle(now),
            EngineStatus::Syncing => self.state.set_syncing(),
            EngineStatus::Indexing => self.state.set_syncing(),
            EngineStatus::Downloading => self.state.set_syncing(),
            EngineStatus::Uploading => self.state.set_syncing(),
            EngineStatus::Error(message) => self.state.set_error(message),
        }
    }

    /// Applies the terminal event of a pass: success stamps `Idle` at
    /// `now`; failure becomes `Error` carrying the message, or a fixed text
    /// when the engine gave none.
    pub fn on_complete(&mut self, success: bool, message: Option<String>, now: i64)
        ensures
            success ==> final(self).state.status == SyncStatus::Idle && final(self).state.last_sync == Some(now) && final(self).state.error_message is None,
            !success ==> final(self).state.status == SyncStatus::Error && final(self).state.last_sync == old(self).state.last_sync && (match message {
                Some(m) => final(self).state.error_message == Some(m),
                None => final(self).state.error_message matches Some(m) && m@ == "Sync failed"@,
            }),
            final(self).state.items_synced == old(self).state.items_synced,
            final(self).state.items_pending == old(self).state.items_pending,
            final(self).state.wf(),
    {
        if success {
            self.state.set_idle(now);
        } else {
            let msg = match message {
                Some(m) => m,
                None => "Sync failed".to_owned(),
            };
            self.state.set_error(msg);
        }
    }
}

} // verus!
