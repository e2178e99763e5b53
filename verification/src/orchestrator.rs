//! The orchestrator: owns the authoritative poll, watcher and rush state and
//! drives it from its two inputs — inbound chat messages and the periodic
//! timer tick — deciding the outward chat messages and keystroke actions.
//! The surrounding process serializes calls, performs the telemetry fetch the
//! watcher asks for, sends the messages and performs the actions.

use vstd::prelude::*;
use vstd::string::StringExecFns;
use crate::chat::{parse_command, spec_command, ChatMessage, Command};
use crate::league::LeagueResponse;
use crate::poll::{cast_vote_rel, closed_rel, opened_rel, PollWindow};
use crate::rush::RushCounter;
use crate::tally::{is_unique_leader, Poggers, VoteTally};
use crate::text::{dec_digits, to_decimal};
use crate::util::GlobalState;
use crate::watcher::ExternalStateWatcher;

verus! {

/// How long the ability poll stays open before the timer closes it.
pub const ABILITY_POLL_MS: i64 = 10000;

/// The rolling interval of the rush counter.
pub const RUSH_INTERVAL_MS: i64 = 5000;

/// Rush-trigger messages needed inside one interval to fire the rush action.
pub const RUSH_THRESHOLD: u32 = 20;

/// The read-out of the four-option ability tally, e.g. `2 Q, 1 W, 1 E, 0 R!`.
pub open spec fn spec_league_results(c: Seq<int>) -> Seq<char> {
    dec_digits(c[0]) + " Q, "@ + dec_digits(c[1]) + " W, "@ + dec_digits(c[2]) + " E, "@
        + dec_digits(c[3]) + " R!"@
}

/// The read-out of the yes/no tally, e.g. `3 voted yes, 1 voted no!`.
pub open spec fn spec_votes_results(c: Seq<int>) -> Seq<char> {
    dec_digits(c[0]) + " voted yes, "@ + dec_digits(c[1]) + " voted no!"@
}

/// The four-option results line for this tally.
pub fn league_results_message(t: &VoteTally) -> (s: String)
    requires
        t.wf(),
        t.num_options() == 4,
    ensures
        s@ == spec_league_results(t.counts()),
{
    let mut s = to_decimal(t.count_of(0));
    s.append(" Q, ");
    let c1 = to_decimal(t.count_of(1));
    s.append(c1.as_str());
    s.append(" W, ");
    let c2 = to_decimal(t.count_of(2));
    s.append(c2.as_str());
    s.append(" E, ");
    let c3 = to_decimal(t.count_of(3));
    s.append(c3.as_str());
    s.append(" R!");
    proof {
        assert(s@ =~= spec_league_results(t.counts()));
    }
    s
}

/// The yes/no results line for this tally.
pub fn votes_results_message(t: &VoteTally) -> (s: String)
    requires
        t.wf(),
        t.num_options() == 2,
    ensures
        s@ == spec_votes_results(t.counts()),
{
    let mut s = to_decimal(t.count_of(0));
    s.append(" voted yes, ");
    let c1 = to_decimal(t.count_of(1));
    s.append(c1.as_str());
    s.append(" voted no!");
    proof {
        assert(s@ =~= spec_votes_results(t.counts()));
    }
    s
}

/// `@name body`: the reply format when a requesting sender is mentioned.
pub fn mention_message(name: &String, body: &String) -> (s: String)
    ensures
        s@ == "@"@ + name@ + " "@ + body@,
{
    let mut s = "@".to_owned();
    s.append(name.as_str());
    s.append(" ");
    s.append(body.as_str());
    proof {
        assert(s@ =~= "@"@ + name@ + " "@ + body@);
    }
    s
}

/// `@name` directly followed by the body: the format used when a bare user
/// name is mentioned (no separating space).
pub fn bare_mention_message(name: &String, body: &String) -> (s: String)
    ensures
        s@ == "@"@ + name@ + body@,
{
    let mut s = "@".to_owned();
    s.append(name.as_str());
    s.append(body.as_str());
    proof {
        assert(s@ =~= "@"@ + name@ + body@);
    }
    s
}

fn poggers_of_index(i: usize) -> (p: Poggers)
    requires
        i < 4,
    ensures
        p.index_spec() == i as int,
{
    match i {
        0 => Poggers::Q,
        1 => Poggers::W,
        2 => Poggers::E,
        _ => Poggers::R,
    }
}

/// What one timer tick decided: the outward chat messages to send, in order,
/// and the keystroke actions the external performer should carry out.
pub struct TickEffects {
    /// Outward chat messages, one per externally visible state change.
    pub messages: Vec<String>,
    /// Fire the "level up this ability" keystroke for the winning option.
    pub level_up: Option<Poggers>,
    /// Fire the "start a forfeit vote" keystroke sequence.
    pub forfeit: bool,
}

/// The single owner of all mutable poll, watcher and rush state.
pub struct Orchestrator {
    /// The four-option ability poll, closed automatically by the timer.
    pub ability_poll: PollWindow,
    /// The yes/no poll, closed only by explicit command.
    pub yes_no_poll: PollWindow,
    /// The telemetry mirror.
    pub watcher: ExternalStateWatcher,
    /// The forfeit-burst counter.
    pub rush: RushCounter,
    /// Total ability points last seen as spent, for level-up detection.
    pub last_level: i64,
    /// Recompute `last_level` from the next snapshot (set after a winning
    /// action so stale data cannot re-trigger a poll).
    pub force_check_level: bool,
    /// A fresh ability poll was requested and opens on the next tick.
    pub should_poll_for_level: bool,
}

impl Orchestrator {
    pub open spec fn wf(&self) -> bool {
        &&& self.ability_poll.wf()
        &&& self.ability_poll.tally().num_options() == 4
        &&& self.yes_no_poll.wf()
        &&& self.yes_no_poll.tally().num_options() == 2
        &&& self.watcher.wf()
        &&& self.rush.wf()
    }

    /// The initial state at time `now`: both polls closed and empty, the
    /// watcher live but not yet connected, the rush counter at zero, and a
    /// forced recheck of spent points pending.
    pub fn new(now: i64) -> (o: Orchestrator)
        requires
            now >= 0,
        ensures
            o.wf(),
            !o.ability_poll.is_open(),
            o.ability_poll.duration_ms() == Some(ABILITY_POLL_MS),
            o.ability_poll.tally().ballots().len() == 0,
            !o.yes_no_poll.is_open(),
            o.yes_no_poll.duration_ms() is None,
            o.yes_no_poll.tally().ballots().len() == 0,
            o.watcher.attempt_connect,
            !o.watcher.connected,
            o.watcher.last_state.is_zero(),
            o.rush.count == 0,
            o.rush.window_start == now,
            o.rush.interval_ms == RUSH_INTERVAL_MS,
            o.rush.threshold == RUSH_THRESHOLD,
            o.last_level == 0,
            o.force_check_level,
            !o.should_poll_for_level,
    {
        Orchestrator {
            ability_poll: PollWindow::new(4, Some(ABILITY_POLL_MS)),
            yes_no_poll: PollWindow::new(2, None),
            watcher: ExternalStateWatcher::new(now),
            rush: RushCounter::new(now, RUSH_INTERVAL_MS, RUSH_THRESHOLD),
            last_level: 0,
            force_check_level: true,
            should_poll_for_level: false,
        }
    }

    /// Whether the caller should fetch a telemetry snapshot for the next
    /// tick.
    pub fn wants_fetch(&self) -> (r: bool)
        ensures
            r == self.watcher.attempt_connect,
    {
        self.watcher.attempt_connect
    }

    /// Apply one inbound chat message at time `now`.
    ///
    /// Vote tokens feed the polls (open windows and first-time voters only);
    /// the rush keyword feeds the rush counter; privileged commands close or
    /// reopen a poll or request a reconnect, and are ignored without the
    /// trust flag, as are unknown tokens. The reply, if any, is the single
    /// outward chat message to send.
    pub fn handle_message(&mut self, msg: &ChatMessage, now: i64) -> (reply: Option<String>)
        requires
            old(self).wf(),
            now >= 0,
        ensures
            final(self).wf(),
            ({
                let cmd = spec_command(msg.text@);
                let p = msg.is_privileged;
                // the ability poll
                &&& (cmd matches Command::AbilityVote(k) ==> cast_vote_rel(
                    old(self).ability_poll,
                    final(self).ability_poll,
                    msg.sender_id@,
                    k as int,
                ))
                &&& (cmd matches Command::DualVote(k) ==> cast_vote_rel(
                    old(self).ability_poll,
                    final(self).ability_poll,
                    msg.sender_id@,
                    k as int,
                ))
                &&& ((cmd == Command::ResultsLeague || cmd == Command::StopLeague) && p
                    ==> closed_rel(old(self).ability_poll, final(self).ability_poll))
                &&& (!(cmd is AbilityVote || cmd is DualVote || ((cmd == Command::ResultsLeague
                    || cmd == Command::StopLeague) && p)) ==> final(self).ability_poll == old(self).ability_poll)
                // the yes/no poll
                &&& (cmd matches Command::DualVote(k) ==> cast_vote_rel(
                    old(self).yes_no_poll,
                    final(self).yes_no_poll,
                    msg.sender_id@,
                    k as int,
                ))
                &&& (cmd matches Command::YesNoVote(k) ==> cast_vote_rel(
                    old(self).yes_no_poll,
                    final(self).yes_no_poll,
                    msg.sender_id@,
                    k as int,
                ))
                &&& ((cmd == Command::ResultsVotes || cmd == Command::StopVotes) && p
                    ==> closed_rel(old(self).yes_no_poll, final(self).yes_no_poll))
                &&& (cmd == Command::ResetVotes && p ==> opened_rel(
                    old(self).yes_no_poll,
                    final(self).yes_no_poll,
                    now as int,
                ))
                &&& (!(cmd is DualVote || cmd is YesNoVote || ((cmd == Command::ResultsVotes || cmd
                    == Command::StopVotes || cmd == Command::ResetVotes) && p)) ==> final(self).yes_no_poll == old(self).yes_no_poll)
                // the rush counter
                &&& final(self).rush == (if cmd == Command::Rush {
                    old(self).rush.spec_record()
                } else {
                    old(self).rush
                })
                // the watcher
                &&& (cmd == Command::ReconnectLeague && p ==> final(self).watcher.attempt_connect
                    && final(self).watcher.connected == old(self).watcher.connected && final(self).watcher.last_state == old(self).watcher.last_state && final(self).watcher.last_observed_at == old(self).watcher.last_observed_at)
                &&& (!(cmd == Command::ReconnectLeague && p) ==> final(self).watcher == old(self).watcher)
                // the flags
                &&& final(self).should_poll_for_level == (cmd == Command::OpenLeaguePoll && p
                    || old(self).should_poll_for_level)
                &&& final(self).force_check_level == (cmd == Command::ReconnectLeague && p || old(self).force_check_level)
                &&& final(self).last_level == old(self).last_level
                // the reply
                &&& (cmd == Command::ResultsLeague && p ==> (reply matches Some(s) && s@ == "@"@
                    + msg.sender_name@ + " "@ + spec_league_results(
                    old(self).ability_poll.tally().counts(),
                )))
                &&& ((cmd == Command::StopLeague || cmd == Command::StopVotes) && p
                    ==> (reply matches Some(s) && s@ == "Stopped counting!"@))
                &&& (cmd == Command::ResultsVotes && p ==> (reply matches Some(s) && s@ == "@"@
                    + msg.sender_name@ + " "@ + spec_votes_results(
                    old(self).yes_no_poll.tally().counts(),
                )))
                &&& (cmd == Command::ResetVotes && p ==> (reply matches Some(s) && s@
                    == "Reset votes! Vote Yes with 1 and No with 2!"@))
                &&& (!((cmd == Command::ResultsLeague || cmd == Command::StopLeague || cmd
                    == Command::ResultsVotes || cmd == Command::ResetVotes || cmd
                    == Command::StopVotes) && p) ==> reply is None)
            }),
    {
        let cmd = parse_command(msg.text.as_str());
        match cmd {
            Command::AbilityVote(k) => {
                let _ = self.ability_poll.cast_vote(&msg.sender_id, k);
                None
            },
            Command::DualVote(k) => {
                let _ = self.ability_poll.cast_vote(&msg.sender_id, k);
                let _ = self.yes_no_poll.cast_vote(&msg.sender_id, k);
                None
            },
            Command::YesNoVote(k) => {
                let _ = self.yes_no_poll.cast_vote(&msg.sender_id, k);
                None
            },
            Command::Rush => {
                self.rush.record();
                None
            },
            Command::ResultsLeague => {
                if msg.is_privileged {
                    self.ability_poll.close();
                    let body = league_results_message(self.ability_poll.tally_ref());
                    Some(mention_message(&msg.sender_name, &body))
                } else {
                    None
                }
            },
            Command::OpenLeaguePoll => {
                if msg.is_privileged {
                    self.should_poll_for_level = true;
                }
                None
            },
            Command::StopLeague => {
                if msg.is_privileged {
                    self.ability_poll.close();
                    Some("Stopped counting!".to_owned())
                } else {
                    None
                }
            },
            Command::ReconnectLeague => {
                if msg.is_privileged {
                    self.watcher.reconnect();
                    self.force_check_level = true;
                }
                None
            },
            Command::ResultsVotes => {
                if msg.is_privileged {
                    self.yes_no_poll.close();
                    let body = votes_results_message(self.yes_no_poll.tally_ref());
                    Some(mention_message(&msg.sender_name, &body))
                } else {
                    None
                }
            },
            Command::ResetVotes => {
                if msg.is_privileged {
                    self.yes_no_poll.open(now);
                    Some("Reset votes! Vote Yes with 1 and No with 2!".to_owned())
                } else {
                    None
                }
            },
            Command::StopVotes => {
                if msg.is_privileged {
                    self.yes_no_poll.close();
                    Some("Stopped counting!".to_owned())
                } else {
                    None
                }
            },
            Command::Ignore => None,
        }
    }

    /// One timer tick at time `now`, with the telemetry fetch outcome that
    /// the caller performed on the watcher's behalf (exactly when
    /// [`Orchestrator::wants_fetch`] said so).
    ///
    /// While connected, the tick recomputes spent points when a recheck is
    /// forced, requests a fresh poll when the reported level exceeds the
    /// spent points, closes the ability poll once its deadline passed
    /// (announcing the results, and either firing the winning action exactly
    /// once or reopening on a tie), drives the rush counter, and opens the
    /// requested poll. While not connected, only the watcher changes.
    pub fn tick(
        &mut self,
        gs: &GlobalState,
        fetched: Option<Result<LeagueResponse, String>>,
        now: i64,
    ) -> (out: TickEffects)
        requires
            old(self).wf(),
            now >= 0,
            fetched is Some <==> old(self).watcher.attempt_connect,
        ensures
            final(self).wf(),
            final(self).yes_no_poll == old(self).yes_no_poll,
            ({
                let w1 = match fetched {
                    Some(f) => old(self).watcher.spec_poll(f, now).0,
                    None => old(self).watcher,
                };
                &&& final(self).watcher == w1
                &&& !w1.connected ==> {
                    &&& final(self).ability_poll == old(self).ability_poll
                    &&& final(self).rush == old(self).rush
                    &&& final(self).last_level == old(self).last_level
                    &&& final(self).force_check_level == old(self).force_check_level
                    &&& final(self).should_poll_for_level == old(self).should_poll_for_level
                    &&& out.messages@.len() == 0
                    &&& out.level_up is None
                    &&& !out.forfeit
                }
                &&& w1.connected ==> {
                    let lvl1 = if old(self).force_check_level {
                        w1.last_state.abilities.spec_used_points()
                    } else {
                        old(self).last_level as int
                    };
                    let sp1 = old(self).should_poll_for_level || (!old(self).ability_poll.is_open() && w1.last_state.level as int > lvl1);
                    let timeout = old(self).ability_poll.spec_timed_out(now as int);
                    let cnt = old(self).ability_poll.tally().counts();
                    let has_winner = exists|i: int| is_unique_leader(cnt, i);
                    &&& final(self).last_level as int == lvl1
                    &&& !final(self).should_poll_for_level
                    &&& final(self).force_check_level == (timeout && has_winner)
                    &&& final(self).rush == old(self).rush.spec_tick(now).0
                    &&& out.forfeit == old(self).rush.spec_tick(now).1
                    &&& (timeout && has_winner ==> (out.level_up matches Some(p)
                        && is_unique_leader(cnt, p.index_spec())))
                    &&& (!(timeout && has_winner) ==> out.level_up is None)
                    &&& (sp1 ==> opened_rel(
                        old(self).ability_poll,
                        final(self).ability_poll,
                        now as int,
                    ))
                    &&& (!sp1 && timeout && has_winner ==> closed_rel(
                        old(self).ability_poll,
                        final(self).ability_poll,
                    ))
                    &&& (!sp1 && timeout && !has_winner ==> opened_rel(
                        old(self).ability_poll,
                        final(self).ability_poll,
                        now as int,
                    ))
                    &&& (!sp1 && !timeout ==> final(self).ability_poll == old(self).ability_poll)
                    &&& (timeout ==> out.messages@.len() >= 1 && out.messages@[0]@ == "@"@
                        + gs.channel_name@ + spec_league_results(cnt))
                    &&& (timeout && sp1 ==> out.messages@.len() == 2 && out.messages@[1]@
                        == "Vote Q, W, E, R to level an ability!"@)
                    &&& (timeout && !sp1 ==> out.messages@.len() == 1)
                    &&& (!timeout && sp1 ==> out.messages@.len() == 1 && out.messages@[0]@
                        == "Vote Q, W, E, R to level an ability!"@)
                    &&& (!timeout && !sp1 ==> out.messages@.len() == 0)
                }
            }),
    {
        let mut out = TickEffects { messages: Vec::new(), level_up: None, forfeit: false };
        // reconcile the telemetry mirror with the fetch the caller performed
        if let Some(f) = fetched {
            let _ = self.watcher.poll(f, now);
        }
        if !self.watcher.connected {
            return out;
        }
        // a forced recheck recomputes the spent points from the snapshot
        if self.force_check_level {
            self.last_level = self.watcher.last_state.abilities.used_points_total();
            self.force_check_level = false;
        }
        // an unspent point (reported level above spent points) requests a poll
        if !self.ability_poll.is_accepting() && !self.should_poll_for_level {
            if (self.watcher.last_state.level as i64) > self.last_level {
                self.should_poll_for_level = true;
            }
        }
        // close the ability poll once its deadline passed
        if self.ability_poll.timed_out(now) {
            self.ability_poll.close();
            let body = league_results_message(self.ability_poll.tally_ref());
            out.messages.push(bare_mention_message(&gs.channel_name, &body));
            match self.ability_poll.tally_ref().winner() {
                Some(i) => {
                    out.level_up = Some(poggers_of_index(i));
                    self.force_check_level = true;
                },
                None => {
                    // no decision: vote again
                    self.ability_poll.open(now);
                },
            }
        }
        // the rush policy runs on its own cadence
        out.forfeit = self.rush.tick(now);
        // open the requested poll
        if self.should_poll_for_level {
            self.ability_poll.open(now);
            out.messages.push("Vote Q, W, E, R to level an ability!".to_owned());
            self.should_poll_for_level = false;
        }
        out
    }

    /// The league results line, prefixed for its audience: a requesting
    /// sender is mentioned with a separating space, a bare user name without
    /// one, and no mention otherwise.
    pub fn get_results_message(
        &self,
        sender_name: Option<&String>,
        user_to_mention: Option<&String>,
    ) -> (s: String)
        requires
            self.wf(),
        ensures
            ({
                let body = spec_league_results(self.ability_poll.tally().counts());
                match sender_name {
                    Some(n) => s@ == "@"@ + n@ + " "@ + body,
                    None => match user_to_mention {
                        Some(u) => s@ == "@"@ + u@ + body,
                        None => s@ == body,
                    },
                }
            }),
    {
        let body = league_results_message(self.ability_poll.tally_ref());
        match sender_name {
            Some(n) => mention_message(n, &body),
            None => match user_to_mention {
                Some(u) => bare_mention_message(u, &body),
                None => body,
            },
        }
    }
}

} // verus!
