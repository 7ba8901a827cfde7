//! The sync orchestrator's decisions: start preconditions, cycle gating,
//! stale-failure recovery, failure classification with bounded backoff, and
//! pause/resume/stop transitions. The surrounding loop performs the waiting
//! and the engine call, handing each outcome back as a plain value.

use crate::cancel::{spec_cancelled, CancelTree};
use crate::errors::SyncError;
use crate::retry::RetryPolicy;
use crate::status::{SyncState, SyncStatus};
use crate::strutil::spec_u64_dec;
use vstd::prelude::*;

verus! {

/// What the retry sub-loop does after a failed pass.
#[derive(Debug, Clone)]
pub enum FailureStep {
    /// Authentication is gone: status is `Error` and the caller logs out.
    FatalLogout,
    /// A non-retriable failure: status is `Error`, the sub-loop ends.
    Fatal,
    /// A retriable failure with budget left: sleep this many seconds
    /// (cancellable), then retry.
    RetryAfter(u64),
    /// The retry budget is exhausted: status is `Error`, the sub-loop ends.
    GiveUp,
}

/// Owns the status state machine, the retry policy, the cancellation
/// hierarchy and the failure bookkeeping of the supervised loop.
#[derive(Debug)]
pub struct SyncManager {
    pub state: SyncState,
    pub retry_policy: RetryPolicy,
    pub cancel: CancelTree,
    pub root_signal: Option<usize>,
    pub consecutive_failures: u64,
    pub last_success: Option<i64>,
}

impl SyncManager {
    /// The cancellation arena is well-formed and the root signal, when
    /// present, points into it.
    pub open spec fn wf(&self) -> bool {
        &&& self.cancel.wf()
        &&& (self.root_signal matches Some(id) ==> id < self.cancel.nodes@.len())
    }

    /// A fresh orchestrator: `Starting` status, default policy, no loop yet.
    pub fn new() -> (r: SyncManager)
        ensures
            r.wf(),
            r.state.status == SyncStatus::Starting,
            r.state.wf(),
            r.state.last_sync is None,
            r.state.error_message is None,
            r.retry_policy.max_retries == 5,
            r.retry_policy.base_delay_secs == 5,
            r.retry_policy.max_delay_secs == 300,
            r.root_signal is None,
            r.consecutive_failures == 0,
            r.last_success is None,
    {
        SyncManager {
            state: SyncState::new(),
            retry_policy: RetryPolicy::new(),
            cancel: CancelTree::new(),
            root_signal: None,
            consecutive_failures: 0,
            last_success: None,
        }
    }

    /// Starting demands an authenticated session and a configured recipes
    /// directory; with both it creates the loop's root cancellation signal
    /// and seeds the failure bookkeeping at `now`.
    pub fn start(&mut self, authenticated: bool, recipes_dir_configured: bool, now: i64) -> (r:
        Result<usize, SyncError>)
        requires
            old(self).wf(),
            old(self).cancel.nodes@.len() < usize::MAX,
        ensures
            final(self).wf(),
            !authenticated ==> (r matches Err(e) && e is AuthenticationRequired && *final(self)
                == *old(self)),
            authenticated && !recipes_dir_configured ==> (r matches Err(e) && (e matches
                SyncError::InvalidConfiguration(m) && m@ == "Recipes directory not configured"@)
                && *final(self) == *old(self)),
            authenticated && recipes_dir_configured ==> (r matches Ok(id)
                && final(self).root_signal == Some(id) && !spec_cancelled(
                final(self).cancel.nodes@,
                id as int,
            ) && final(self).last_success == Some(now) && final(self).consecutive_failures == 0
                && final(self).state == old(self).state),
    {
        if !authenticated {
            return Err(SyncError::AuthenticationRequired);
        }
        if !recipes_dir_configured {
            return Err(
                SyncError::InvalidConfiguration("Recipes directory not configured".to_owned()),
            );
        }
        let id = self.cancel.new_root();
        self.root_signal = Some(id);
        self.last_success = Some(now);
        self.consecutive_failures = 0;
        Ok(id)
    }

    /// A cycle runs only while not paused and still authenticated.
    pub fn should_run_cycle(&self, authenticated: bool) -> (r: bool)
        ensures
            r == (self.state.status != SyncStatus::Paused && authenticated),
    {
        self.state.status != SyncStatus::Paused && authenticated
    }

    /// After a long quiet spell (more than twice the backoff cap since the
    /// last success) with failures on record, the failure counter resets and
    /// a lingering `Error` clears, so a machine waking from sleep recovers
    /// without user action. Returns whether it reset.
    pub fn maybe_reset_stale_failures(&mut self, now: i64) -> (r: bool)
        ensures
            r == (old(self).last_success matches Some(t) && now - t > 2 * old(self).retry_policy.max_delay_secs && old(self).consecutive_failures > 0),
            r ==> final(self).consecutive_failures == 0 && (old(self).state.status
                == SyncStatus::Error ==> final(self).state.status == SyncStatus::Idle && final(self).state.error_message is None) && (old(self).state.status != SyncStatus::Error
                ==> final(self).state == old(self).state) && final(self).last_success == old(self).last_success && final(self).retry_policy == old(self).retry_policy && final(self).cancel == old(self).cancel && final(self).root_signal == old(self).root_signal,
            !r ==> *final(self) == *old(self),
            old(self).state.wf() ==> final(self).state.wf(),
            old(self).wf() ==> final(self).wf(),
    {
        let stale = match self.last_success {
            Some(t) => {
                let elapsed: i128 = (now as i128) - (t as i128);
                elapsed > 2 * (self.retry_policy.max_delay_secs as i128)
            },
            None => false,
        };
        if stale && self.consecutive_failures > 0 {
            self.consecutive_failures = 0;
            self.state.clear_error();
            true
        } else {
            false
        }
    }

    /// A pass succeeded: the success time is stamped and the failure
    /// counter cleared.
    pub fn on_pass_success(&mut self, now: i64)
        ensures
            final(self).last_success == Some(now),
            final(self).consecutive_failures == 0,
            final(self).state == old(self).state,
            final(self).retry_policy == old(self).retry_policy,
            final(self).cancel == old(self).cancel,
            final(self).root_signal == old(self).root_signal,
            old(self).wf() ==> final(self).wf(),
    {
        self.last_success = Some(now);
        self.consecutive_failures = 0;
    }

    /// A pass failed. Fatal failures set `Error` (an authentication failure
    /// additionally tells the caller to log out) and count one consecutive
    /// failure. A retriable failure with attempts left yields the backoff
    /// delay for this attempt; one at the retry budget sets `Error` with a
    /// "failed after N retries" message and counts one failure.
    pub fn on_pass_failure(&mut self, e: SyncError, retry_attempt: u64) -> (r: FailureStep)
        requires
            old(self).consecutive_failures < u64::MAX,
        ensures
            final(self).retry_policy == old(self).retry_policy,
            final(self).cancel == old(self).cancel,
            final(self).root_signal == old(self).root_signal,
            final(self).last_success == old(self).last_success,
            !e.spec_is_retriable() ==> {
                &&& (e is AuthenticationRequired ==> r is FatalLogout && (final(self).state.error_message matches Some(m) && m@ == "Authentication required"@))
                &&& (!(e is AuthenticationRequired) ==> r is Fatal && (final(self).state.error_message matches Some(m) && m@ == e.spec_message()))
                &&& final(self).state.status == SyncStatus::Error
                &&& final(self).consecutive_failures == old(self).consecutive_failures + 1
            },
            e.spec_is_retriable() && retry_attempt >= old(self).retry_policy.max_retries ==> {
                &&& r is GiveUp
                &&& final(self).state.status == SyncStatus::Error
                &&& (final(self).state.error_message matches Some(m) && m@ == "Sync failed after "@
                    + spec_u64_dec(retry_attempt as int) + " retries"@)
                &&& final(self).consecutive_failures == old(self).consecutive_failures + 1
            },
            e.spec_is_retriable() && retry_attempt < old(self).retry_policy.max_retries ==> {
                &&& (r matches FailureStep::RetryAfter(d) && d == old(self).retry_policy.spec_delay(retry_attempt))
                &&& *final(self) == *old(self)
            },
            old(self).state.wf() ==> final(self).state.wf(),
            old(self).wf() ==> final(self).wf(),
    {
        if !e.is_retriable() {
            let is_auth = match &e {
                SyncError::AuthenticationRequired => true,
                _ => false,
            };
            if is_auth {
                self.state.set_error("Authentication required".to_owned());
                self.consecutive_failures = self.consecutive_failures + 1;
                FailureStep::FatalLogout
            } else {
                self.state.set_error(e.message());
                self.consecutive_failures = self.consecutive_failures + 1;
                FailureStep::Fatal
            }
        } else if retry_attempt >= self.retry_policy.max_retries {
            let mut msg = "Sync failed after ".to_owned();
            let digits = crate::strutil::u64_to_string(retry_attempt);
            msg.append(digits.as_str());
            msg.append(" retries");
            proof {
                assert(msg@ =~= "Sync failed after "@ + spec_u64_dec(retry_attempt as int)
                    + " retries"@);
            }
            self.state.set_error(msg);
            self.consecutive_failures = self.consecutive_failures + 1;
            FailureStep::GiveUp
        } else {
            FailureStep::RetryAfter(self.retry_policy.calculate_delay(retry_attempt))
        }
    }

    /// Derives the child cancellation signal handed to one sync pass, so
    /// that stopping the loop also cancels the pass in flight.
    pub fn pass_signal(&mut self) -> (r: Option<usize>)
        requires
            old(self).wf(),
            old(self).cancel.nodes@.len() < usize::MAX,
        ensures
            final(self).wf(),
            final(self).state == old(self).state,
            final(self).root_signal == old(self).root_signal,
            match old(self).root_signal {
                Some(root) => r matches Some(id) && id < final(self).cancel.nodes@.len()
                    && crate::cancel::spec_descends(
                    final(self).cancel.nodes@,
                    id as int,
                    root as int,
                ),
                None => r is None && *final(self) == *old(self),
            },
    {
        match self.root_signal {
            Some(root) => Some(self.cancel.derive_child(root)),
            None => None,
        }
    }

    /// Signals the loop to stop by cancelling the root signal; every signal
    /// derived from it observes the cancellation.
    pub fn signal_stop(&mut self)
        requires
            old(self).wf(),
        ensures
            final(self).wf(),
            final(self).state == old(self).state,
            final(self).root_signal == old(self).root_signal,
            old(self).root_signal matches Some(id) ==> spec_cancelled(
                final(self).cancel.nodes@,
                id as int,
            ),
    {
        match self.root_signal {
            Some(id) => self.cancel.cancel(id),
            None => (),
        }
    }

    /// The loop has stopped: status returns to `Idle` and the loop handle
    /// is forgotten.
    pub fn finish_stop(&mut self)
        ensures
            final(self).state.status == SyncStatus::Idle,
            final(self).state.error_message is None,
            final(self).state.last_sync == old(self).state.last_sync,
            final(self).state.items_synced == old(self).state.items_synced,
            final(self).state.items_pending == old(self).state.items_pending,
            final(self).root_signal is None,
            final(self).state.wf(),
            old(self).wf() ==> final(self).wf(),
    {
        self.state.status = SyncStatus::Idle;
        self.state.error_message = None;
        self.root_signal = None;
    }

    /// Pausing forces `Paused` whatever the state was; the error text is
    /// cleared with it, keeping the state machine well-formed.
    pub fn pause(&mut self)
        ensures
            final(self).state.status == SyncStatus::Paused,
            final(self).state.error_message is None,
            final(self).state.last_sync == old(self).state.last_sync,
            final(self).state.items_synced == old(self).state.items_synced,
            final(self).state.items_pending == old(self).state.items_pending,
            final(self).state.wf(),
            old(self).wf() ==> final(self).wf(),
    {
        self.state.status = SyncStatus::Paused;
        self.state.error_message = None;
    }

    /// Resuming leaves `Paused` or `Error` for `Idle`, clearing any error
    /// text; in any other state it changes nothing.
    pub fn resume(&mut self)
        ensures
            (old(self).state.status == SyncStatus::Paused || old(self).state.status
                == SyncStatus::Error) ==> final(self).state.status == SyncStatus::Idle && final(self).state.error_message is None,
            !(old(self).state.status == SyncStatus::Paused || old(self).state.status
                == SyncStatus::Error) ==> final(self).state == old(self).state,
            final(self).state.last_sync == old(self).state.last_sync,
            final(self).state.items_synced == old(self).state.items_synced,
            final(self).state.items_pending == old(self).state.items_pending,
            old(self).state.wf() ==> final(self).state.wf(),
            old(self).wf() ==> final(self).wf(),
    {
        if self.state.status == SyncStatus::Paused || self.state.status == SyncStatus::Error {
            self.state.status = SyncStatus::Idle;
            self.state.error_message = None;
        }
    }

    /// Running means `Syncing`, `Idle` or `Offline`; `Paused`, `Error` and
    /// `Starting` are explicitly not running.
    pub fn is_running(&self) -> (r: bool)
        ensures
            r == (self.state.status == SyncStatus::Syncing || self.state.status == SyncStatus::Idle
                || self.state.status == SyncStatus::Offline),
    {
        match self.state.status {
            SyncStatus::Syncing => true,
            SyncStatus::Idle => true,
            SyncStatus::Offline => true,
            _ => false,
        }
    }
}

} // verus!
