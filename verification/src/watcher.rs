//! Best-effort mirror of the external telemetry endpoint: detects meaningful
//! snapshot changes and degrades to an idle "do not retry" state when the
//! endpoint is unreachable, until a manual reconnect request.
//!
//! The fetch itself is a collaborator capability: the caller performs it and
//! hands the outcome in as a plain `Result`.

use vstd::prelude::*;
use crate::league::LeagueResponse;

verus! {

/// What one reconciliation round observed.
#[derive(Clone, Debug, PartialEq)]
pub enum WatchOutcome {
    /// The fetched snapshot is structurally equal to the stored one.
    Unchanged,
    /// The fetched snapshot differs; it is now the stored one.
    Changed(LeagueResponse),
    /// The fetch failed; polling stops until a manual reconnect.
    Unreachable(String),
}

/// The live mirror of the external game state.
///
/// `attempt_connect` gates polling: it starts true, drops to false on an
/// unreachable report, and only a manual [`ExternalStateWatcher::reconnect`]
/// raises it again. Timestamps are milliseconds since the epoch.
pub struct ExternalStateWatcher {
    pub last_state: LeagueResponse,
    pub last_observed_at: i64,
    pub attempt_connect: bool,
    pub connected: bool,
}

impl ExternalStateWatcher {
    pub open spec fn wf(&self) -> bool {
        self.last_observed_at >= 0
    }

    /// The poll transition as a function of the fetch outcome: the successor
    /// state and the reported outcome. The stored snapshot and its timestamp
    /// are replaced exactly when the fetched snapshot differs structurally
    /// from the stored one.
    pub open spec fn spec_poll(self, fetched: Result<LeagueResponse, String>, now: i64) -> (
        ExternalStateWatcher,
        WatchOutcome,
    ) {
        match fetched {
            Result::Err(e) => (
                ExternalStateWatcher {
                    last_state: self.last_state,
                    last_observed_at: self.last_observed_at,
                    attempt_connect: false,
                    connected: false,
                },
                WatchOutcome::Unreachable(e),
            ),
            Result::Ok(s) => if s == self.last_state {
                (
                    ExternalStateWatcher {
                        last_state: self.last_state,
                        last_observed_at: self.last_observed_at,
                        attempt_connect: self.attempt_connect,
                        connected: true,
                    },
                    WatchOutcome::Unchanged,
                )
            } else {
                (
                    ExternalStateWatcher {
                        last_state: s,
                        last_observed_at: now,
                        attempt_connect: self.attempt_connect,
                        connected: true,
                    },
                    WatchOutcome::Changed(s),
                )
            },
        }
    }

    /// A fresh watcher at time `now`: no snapshot seen yet (the zero
    /// snapshot stands in), polling enabled, not yet connected.
    pub fn new(now: i64) -> (w: ExternalStateWatcher)
        requires
            now >= 0,
        ensures
            w.wf(),
            w.last_state.is_zero(),
            w.last_observed_at == now,
            w.attempt_connect,
            !w.connected,
    {
        ExternalStateWatcher {
            last_state: LeagueResponse::default(),
            last_observed_at: now,
            attempt_connect: true,
            connected: false,
        }
    }

    /// Reconcile with one fetch outcome, observed at time `now`.
    pub fn poll(&mut self, fetched: Result<LeagueResponse, String>, now: i64) -> (r: WatchOutcome)
        requires
            old(self).wf(),
            now >= 0,
        ensures
            final(self).wf(),
            (*final(self), r) == old(self).spec_poll(fetched, now),
    {
        match fetched {
            Err(e) => {
                self.attempt_connect = false;
                self.connected = false;
                WatchOutcome::Unreachable(e)
            },
            Ok(s) => {
                self.connected = true;
                if s == self.last_state {
                    WatchOutcome::Unchanged
                } else {
                    self.last_state = s;
                    self.last_observed_at = now;
                    WatchOutcome::Changed(s)
                }
            },
        }
    }

    /// Resume polling after an unreachable report.
    pub fn reconnect(&mut self)
        ensures
            final(self).attempt_connect,
            final(self).last_state == old(self).last_state,
            final(self).last_observed_at == old(self).last_observed_at,
            final(self).connected == old(self).connected,
    {
        self.attempt_connect = true;
    }
}

/// Each actual difference is reported exactly once: a fetched snapshot that
/// differs from the stored one is reported `Changed` and becomes the stored
/// one, so an immediately repeated structurally equal fetch is reported
/// `Unchanged`; a fetch equal to the stored snapshot is `Unchanged` at once.
pub proof fn lemma_each_change_reported_once(
    w: ExternalStateWatcher,
    s: LeagueResponse,
    now1: i64,
    now2: i64,
)
    ensures
        ({
            let (w1, r1) = w.spec_poll(Result::Ok(s), now1);
            let (w2, r2) = w1.spec_poll(Result::Ok(s), now2);
            &&& s != w.last_state ==> r1 == WatchOutcome::Changed(s)
            &&& s == w.last_state ==> r1 == WatchOutcome::Unchanged
            &&& r2 == WatchOutcome::Unchanged
        }),
{
}

} // verus!
