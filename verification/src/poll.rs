//! The poll window state machine: a tally that only counts while the window
//! is open, with an optional wall-clock timeout driven by the caller's timer.

use vstd::prelude::*;
use crate::tally::{cast_accepted, VoteTally};

verus! {

/// A time-boxed voting window around a [`VoteTally`].
///
/// `Closed -> Open` on [`PollWindow::open`] (which resets the tally and
/// stamps the opening time); `Open -> Closed` on [`PollWindow::close`] (which
/// leaves the tally readable for reporting). Votes cast while the window is
/// closed are silently ignored. Timestamps are milliseconds since the epoch
/// and therefore non-negative.
pub struct PollWindow {
    is_open: bool,
    opened_at: i64,
    duration_ms: Option<i64>,
    tally: VoteTally,
}

impl PollWindow {
    /// Whether votes are currently accepted.
    pub closed spec fn is_open(&self) -> bool {
        self.is_open
    }

    /// When the window last transitioned closed to open.
    pub closed spec fn opened_at(&self) -> int {
        self.opened_at as int
    }

    /// How long the window stays open, or `None` when it closes only by
    /// explicit command.
    pub closed spec fn duration_ms(&self) -> Option<i64> {
        self.duration_ms
    }

    /// The tally behind the window.
    pub closed spec fn tally(&self) -> VoteTally {
        self.tally
    }

    pub open spec fn wf(&self) -> bool {
        &&& self.tally().wf()
        &&& self.opened_at() >= 0
        &&& match self.duration_ms() {
            Some(d) => d > 0,
            None => true,
        }
    }

    /// The window is open and its deadline has passed at time `now`.
    pub open spec fn spec_timed_out(&self, now: int) -> bool {
        &&& self.is_open()
        &&& match self.duration_ms() {
            Some(d) => now - self.opened_at() >= d,
            None => false,
        }
    }

    /// A closed window over a fresh tally of `num_options` buckets.
    pub fn new(num_options: usize, duration_ms: Option<i64>) -> (w: PollWindow)
        requires
            num_options >= 2,
            match duration_ms {
                Some(d) => d > 0,
                None => true,
            },
        ensures
            w.wf(),
            !w.is_open(),
            w.opened_at() == 0,
            w.duration_ms() == duration_ms,
            w.tally().num_options() == num_options,
            w.tally().ballots().len() == 0,
            forall|k: int| 0 <= k < w.tally().counts().len() ==> w.tally().counts()[k] == 0,
    {
        PollWindow { is_open: false, opened_at: 0, duration_ms, tally: VoteTally::new(num_options) }
    }

    /// Open the window at time `now`: the tally is reset and counting starts.
    pub fn open(&mut self, now: i64)
        requires
            old(self).wf(),
            now >= 0,
        ensures
            final(self).wf(),
            final(self).is_open(),
            final(self).opened_at() == now,
            final(self).duration_ms() == old(self).duration_ms(),
            final(self).tally().num_options() == old(self).tally().num_options(),
            final(self).tally().ballots().len() == 0,
            forall|k: int|
                0 <= k < final(self).tally().counts().len() ==> final(self).tally().counts()[k]
                    == 0,
    {
        self.is_open = true;
        self.opened_at = now;
        self.tally.reset();
    }

    /// Close the window; the tally keeps its final counts for reporting.
    pub fn close(&mut self)
        requires
            old(self).wf(),
        ensures
            final(self).wf(),
            !final(self).is_open(),
            final(self).opened_at() == old(self).opened_at(),
            final(self).duration_ms() == old(self).duration_ms(),
            final(self).tally() == old(self).tally(),
    {
        self.is_open = false;
    }

    /// Record a vote if the window is open and this voter is new; a vote into
    /// a closed window or a repeat vote is silently ignored. Returns whether
    /// the vote was recorded.
    pub fn cast_vote(&mut self, voter: &String, option_index: usize) -> (recorded: bool)
        requires
            old(self).wf(),
            option_index < old(self).tally().num_options(),
        ensures
            final(self).wf(),
            final(self).is_open() == old(self).is_open(),
            final(self).opened_at() == old(self).opened_at(),
            final(self).duration_ms() == old(self).duration_ms(),
            recorded == (old(self).is_open() && !old(self).tally().has_voter(voter@)),
            !recorded ==> final(self).tally() == old(self).tally(),
            recorded ==> cast_accepted(
                old(self).tally(),
                final(self).tally(),
                voter@,
                option_index as int,
            ),
    {
        if !self.is_open {
            return false;
        }
        match self.tally.cast(voter, option_index) {
            Ok(()) => true,
            Err(_) => false,
        }
    }

    /// Whether the open window's deadline has passed at time `now`.
    pub fn timed_out(&self, now: i64) -> (r: bool)
        requires
            self.wf(),
        ensures
            r == self.spec_timed_out(now as int),
    {
        if !self.is_open {
            return false;
        }
        match self.duration_ms {
            Some(d) => now >= self.opened_at && now - self.opened_at >= d,
            None => false,
        }
    }

    /// Whether votes are currently accepted, as an executable value.
    pub fn is_accepting(&self) -> (r: bool)
        ensures
            r == self.is_open(),
    {
        self.is_open
    }

    /// Read access to the tally, for reporting and winner resolution.
    pub fn tally_ref(&self) -> (t: &VoteTally)
        ensures
            *t == self.tally(),
    {
        &self.tally
    }
}

/// `post` is `pre` after `cast_vote(voter, k)`: the vote counted exactly
/// when the window was open and the voter new; otherwise nothing changed.
pub open spec fn cast_vote_rel(pre: PollWindow, post: PollWindow, voter: Seq<char>, k: int) -> bool {
    &&& post.is_open() == pre.is_open()
    &&& post.opened_at() == pre.opened_at()
    &&& post.duration_ms() == pre.duration_ms()
    &&& if pre.is_open() && !pre.tally().has_voter(voter) {
        cast_accepted(pre.tally(), post.tally(), voter, k)
    } else {
        post.tally() == pre.tally()
    }
}

/// `post` is `pre` closed, the tally kept for reporting.
pub open spec fn closed_rel(pre: PollWindow, post: PollWindow) -> bool {
    &&& !post.is_open()
    &&& post.opened_at() == pre.opened_at()
    &&& post.duration_ms() == pre.duration_ms()
    &&& post.tally() == pre.tally()
}

/// `post` is `pre` reopened at `now` over a fresh tally.
pub open spec fn opened_rel(pre: PollWindow, post: PollWindow, now: int) -> bool {
    &&& post.is_open()
    &&& post.opened_at() == now
    &&& post.duration_ms() == pre.duration_ms()
    &&& post.tally().num_options() == pre.tally().num_options()
    &&& post.tally().ballots().len() == 0
    &&& forall|k: int| 0 <= k < post.tally().counts().len() ==> post.tally().counts()[k] == 0
}

} // verus!
