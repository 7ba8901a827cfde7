use vstd::prelude::*;

verus! {

/// Observable run state of the sync orchestrator.
#[derive(Debug, Clone, Copy, PartialEq, Eq, Structural)]
pub enum SyncStatus {
    Starting,
    Syncing,
    Idle,
    Paused,
    Error,
    Offline,
}

impl SyncStatus {
    /// The text shown for this status in user-facing surfaces.
    pub fn display_text(&self) -> (r: &'static str)
        ensures
            r@ == self.spec_display_text(),
    {
        match self {
            SyncStatus::Starting => "Starting",
            SyncStatus::Syncing => "Syncing",
            SyncStatus::Idle => "Up to date",
            SyncStatus::Paused => "Paused",
            SyncStatus::Error => "Error",
            SyncStatus::Offline => "Offline",
        }
    }

    pub open spec fn spec_display_text(&self) -> Seq<char> {
        match self {
            SyncStatus::Starting => "Starting"@,
            SyncStatus::Syncing => "Syncing"@,
            SyncStatus::Idle => "Up to date"@,
            SyncStatus::Paused => "Paused"@,
            SyncStatus::Error => "Error"@,
            SyncStatus::Offline => "Offline"@,
        }
    }
}

/// Snapshot of the orchestrator's status: the state machine's current state,
/// the time of the last successful pass (epoch seconds), the error text, and
/// the per-pass progress counters.
///
/// Well-formedness ties the error text to the state: a message is present
/// exactly in the `Error` and `Offline` states.
#[derive(Debug, Clone)]
pub struct SyncState {
    pub status: SyncStatus,
    pub last_sync: Option<i64>,
    pub error_message: Option<String>,
    pub items_synced: usize,
    pub items_pending: usize,
}

impl SyncState {
    /// `error_message` is `Some` exactly in the `Error` and `Offline` states.
    pub open spec fn wf(&self) -> bool {
        (self.error_message is Some) <==> (self.status == SyncStatus::Error || self.status
            == SyncStatus::Offline)
    }

    /// Initial state: `Starting`, no history, no error, zero counters.
    pub fn new() -> (r: SyncState)
        ensures
            r.status == SyncStatus::Starting,
            r.last_sync is None,
            r.error_message is None,
            r.items_synced == 0,
            r.items_pending == 0,
            r.wf(),
    {
        SyncState {
            status: SyncStatus::Starting,
            last_sync: None,
            error_message: None,
            items_synced: 0,
            items_pending: 0,
        }
    }

    /// Any state moves to `Syncing`; the error text is cleared and everything
    /// else is preserved.
    pub fn set_syncing(&mut self)
        ensures
            final(self).status == SyncStatus::Syncing,
            final(self).error_message is None,
            final(self).last_sync == old(self).last_sync,
            final(self).items_synced == old(self).items_synced,
            final(self).items_pending == old(self).items_pending,
            final(self).wf(),
    {
        self.status = SyncStatus::Syncing;
        self.error_message = None;
    }

    /// Any state moves to `Idle`; the last-success stamp is set to `now` and
    /// the error text is cleared. Counters are preserved.
    pub fn set_idle(&mut self, now: i64)
        ensures
            final(self).status == SyncStatus::Idle,
            final(self).last_sync == Some(now),
            final(self).error_message is None,
            final(self).items_synced == old(self).items_synced,
            final(self).items_pending == old(self).items_pending,
            final(self).wf(),
    {
        self.status = SyncStatus::Idle;
        self.last_sync = Some(now);
        self.error_message = None;
    }

    /// Any state moves to `Error`, carrying the given message. Counters and
    /// the last-success stamp are preserved.
    pub fn set_error(&mut self, message: String)
        ensures
            final(self).status == SyncStatus::Error,
            final(self).error_message == Some(message),
            final(self).last_sync == old(self).last_sync,
            final(self).items_synced == old(self).items_synced,
            final(self).items_pending == old(self).items_pending,
            final(self).wf(),
    {
        self.status = SyncStatus::Error;
        self.error_message = Some(message);
    }

    /// Any state moves to `Offline`, with its fixed connectivity message.
    pub fn set_offline(&mut self)
        ensures
            final(self).status == SyncStatus::Offline,
            final(self).error_message matches Some(m) && m@ == "No internet connection"@,
            final(self).last_sync == old(self).last_sync,
            final(self).items_synced == old(self).items_synced,
            final(self).items_pending == old(self).items_pending,
            final(self).wf(),
    {
        self.status = SyncStatus::Offline;
        self.error_message = Some("No internet connection".to_owned());
    }

    /// Leaves `Error` for `Idle`, clearing the message; in any other state it
    /// changes nothing.
    pub fn clear_error(&mut self)
        ensures
            old(self).status == SyncStatus::Error ==> final(self).status == SyncStatus::Idle
                && final(self).error_message is None,
            old(self).status != SyncStatus::Error ==> *final(self) == *old(self),
            final(self).last_sync == old(self).last_sync,
            final(self).items_synced == old(self).items_synced,
            final(self).items_pending == old(self).items_pending,
            old(self).wf() ==> final(self).wf(),
    {
        if self.status == SyncStatus::Error {
            self.status = SyncStatus::Idle;
            self.error_message = None;
        }
    }

    /// Whether a pass is running or recently succeeded.
    pub fn is_active(&self) -> (r: bool)
        ensures
            r == (self.status == SyncStatus::Syncing || self.status == SyncStatus::Idle),
    {
        match self.status {
            SyncStatus::Syncing => true,
            SyncStatus::Idle => true,
            _ => false,
        }
    }
}

} // verus!
