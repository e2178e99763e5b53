//! Vote tallying: per-option counters with per-voter duplicate suppression.
//!
//! A poll resolves to the option holding a strictly highest count; a tie at
//! the top (including the all-zero start) resolves to "no decision".

use vstd::prelude::*;

verus! {

/// The four ability ballot options, in the order they are counted.
#[derive(Clone, Copy, Debug, PartialEq, Eq, Structural)]
pub enum Poggers {
    Q,
    W,
    E,
    R,
}

/// Per-option vote counts for the four-option ability poll, in Q, W, E, R order.
#[derive(Clone, Copy, Debug, PartialEq, Eq, Structural)]
pub struct Votes(pub i32, pub i32, pub i32, pub i32);

impl View for Votes {
    type V = Seq<int>;

    open spec fn view(&self) -> Seq<int> {
        seq![self.0 as int, self.1 as int, self.2 as int, self.3 as int]
    }
}

/// Index `i` holds a strictly higher value than every other index of `s`.
pub open spec fn is_unique_leader(s: Seq<int>, i: int) -> bool {
    &&& 0 <= i < s.len()
    &&& forall|j: int| 0 <= j < s.len() && j != i ==> s[j] < s[i]
}

impl Default for Votes {
    fn default() -> (v: Votes)
        ensures
            v@ =~= seq![0int, 0int, 0int, 0int],
    {
        Votes(0, 0, 0, 0)
    }
}

impl Votes {
    /// The index of the option with a strictly highest count, or `None` when
    /// the maximum is shared by two or more options (ties give no decision).
    pub fn most_voted_index(&self) -> (r: Option<usize>)
        ensures
            match r {
                Some(i) => is_unique_leader(self@, i as int),
                None => forall|i: int| !is_unique_leader(self@, i),
            },
    {
        if self.0 > self.1 && self.0 > self.2 && self.0 > self.3 {
            Some(0)
        } else if self.1 > self.0 && self.1 > self.2 && self.1 > self.3 {
            Some(1)
        } else if self.2 > self.0 && self.2 > self.1 && self.2 > self.3 {
            Some(2)
        } else if self.3 > self.0 && self.3 > self.1 && self.3 > self.2 {
            Some(3)
        } else {
            None
        }
    }

    /// The option with a strictly highest count, or `None` on a tie.
    pub fn most_voted(&self) -> (r: Option<Poggers>)
        ensures
            match r {
                Some(p) => is_unique_leader(self@, p.index_spec()),
                None => forall|i: int| !is_unique_leader(self@, i),
            },
    {
        match self.most_voted_index() {
            Some(0) => Some(Poggers::Q),
            Some(1) => Some(Poggers::W),
            Some(2) => Some(Poggers::E),
            Some(3) => Some(Poggers::R),
            _ => None,
        }
    }
}

impl Poggers {
    /// The counting position of this option inside a `Votes` record.
    pub open spec fn index_spec(self) -> int {
        match self {
            Poggers::Q => 0,
            Poggers::W => 1,
            Poggers::E => 2,
            Poggers::R => 3,
        }
    }
}

/// One accepted vote: who cast it and which option it chose.
pub struct Ballot {
    pub voter: String,
    pub option_index: usize,
}

/// How many ballots of `bs` chose option `k`.
pub open spec fn count_votes(bs: Seq<Ballot>, k: int) -> int
    decreases bs.len(),
{
    if bs.len() <= 0 {
        0
    } else {
        count_votes(bs.drop_last(), k) + if bs.last().option_index == k {
            1int
        } else {
            0int
        }
    }
}

pub proof fn lemma_count_votes_le_len(bs: Seq<Ballot>, k: int)
    ensures
        0 <= count_votes(bs, k) <= bs.len(),
    decreases bs.len(),
{
    if bs.len() > 0 {
        lemma_count_votes_le_len(bs.drop_last(), k);
    }
}

proof fn lemma_count_votes_push(bs: Seq<Ballot>, b: Ballot, k: int)
    ensures
        count_votes(bs.push(b), k) == count_votes(bs, k) + if b.option_index == k {
            1int
        } else {
            0int
        },
{
    assert(bs.push(b).drop_last() =~= bs);
}

/// `post` is `pre` with one more ballot, cast by `voter` for `option_index`:
/// that option's count grew by one, every other bucket and every earlier
/// ballot is untouched.
pub open spec fn cast_accepted(
    pre: VoteTally,
    post: VoteTally,
    voter: Seq<char>,
    option_index: int,
) -> bool {
    &&& post.num_options() == pre.num_options()
    &&& post.counts() == pre.counts().update(option_index, pre.counts()[option_index] + 1)
    &&& post.ballots().len() == pre.ballots().len() + 1
    &&& forall|i: int| 0 <= i < pre.ballots().len() ==> post.ballots()[i] == pre.ballots()[i]
    &&& post.ballots().last().voter@ == voter
    &&& post.ballots().last().option_index == option_index
}

/// No voter identity appears on two ballots of `bs`.
pub open spec fn distinct_voters(bs: Seq<Ballot>) -> bool {
    forall|i: int, j: int|
        0 <= i < j < bs.len() ==> (#[trigger] bs[i]).voter@ != (#[trigger] bs[j]).voter@
}

/// The distinct voter identities among `bs` that chose option `k`.
pub open spec fn choosers(bs: Seq<Ballot>, k: int) -> Set<Seq<char>>
    decreases bs.len(),
{
    if bs.len() <= 0 {
        Set::empty()
    } else if bs.last().option_index == k {
        choosers(bs.drop_last(), k).insert(bs.last().voter@)
    } else {
        choosers(bs.drop_last(), k)
    }
}

proof fn lemma_chooser_is_voter(bs: Seq<Ballot>, k: int, v: Seq<char>)
    requires
        choosers(bs, k).contains(v),
    ensures
        exists|i: int| 0 <= i < bs.len() && (#[trigger] bs[i]).voter@ == v,
    decreases bs.len(),
{
    if bs.len() > 0 {
        if bs.last().option_index == k && bs.last().voter@ == v {
            assert(bs[bs.len() - 1].voter@ == v);
        } else {
            lemma_chooser_is_voter(bs.drop_last(), k, v);
            let i = choose|i: int|
                0 <= i < bs.drop_last().len() && (#[trigger] bs.drop_last()[i]).voter@ == v;
            assert(bs[i].voter@ == v);
        }
    }
}

proof fn lemma_count_eq_choosers(bs: Seq<Ballot>, k: int)
    requires
        distinct_voters(bs),
    ensures
        choosers(bs, k).finite(),
        count_votes(bs, k) == choosers(bs, k).len(),
    decreases bs.len(),
{
    if bs.len() > 0 {
        let rest = bs.drop_last();
        assert(distinct_voters(rest)) by {
            assert forall|i: int, j: int|
                0 <= i < j < rest.len() implies (#[trigger] rest[i]).voter@ != (
            #[trigger] rest[j]).voter@ by {
                assert(rest[i] == bs[i] && rest[j] == bs[j]);
            }
        }
        lemma_count_eq_choosers(rest, k);
        if bs.last().option_index == k {
            assert(!choosers(rest, k).contains(bs.last().voter@)) by {
                if choosers(rest, k).contains(bs.last().voter@) {
                    lemma_chooser_is_voter(rest, k, bs.last().voter@);
                    let i = choose|i: int|
                        0 <= i < rest.len() && (#[trigger] rest[i]).voter@ == bs.last().voter@;
                    assert(bs[i].voter@ == bs[bs.len() - 1].voter@);
                }
            }
        }
    }
}

/// The count recorded for an option equals the number of distinct voters who
/// chose that option (so it can never exceed it): every accepted ballot
/// carries a voter identity seen on no other ballot of the window.
pub proof fn lemma_count_matches_distinct_choosers(t: &VoteTally, k: int)
    requires
        t.wf(),
        0 <= k < t.num_options(),
    ensures
        choosers(t.ballots(), k).finite(),
        t.counts()[k] == choosers(t.ballots(), k).len(),
{
    lemma_count_eq_choosers(t.ballots(), k);
}

/// The vote was dropped because this voter already cast a ballot in the
/// current window.
#[derive(Clone, Copy, Debug, PartialEq, Eq, Structural)]
pub struct AlreadyVoted;

/// A fixed-cardinality bucket counter with per-voter duplicate suppression.
///
/// The ballot cardinality (two options for a yes/no poll, four for the
/// ability poll) is fixed at construction.
pub struct VoteTally {
    counts: Vec<usize>,
    ballots: Vec<Ballot>,
}

impl VoteTally {
    /// How many ballot options this tally counts.
    pub open spec fn num_options(&self) -> nat {
        self.counts().len()
    }

    /// The per-option counts.
    pub closed spec fn counts(&self) -> Seq<int> {
        self.counts@.map_values(|c: usize| c as int)
    }

    /// The accepted ballots, oldest first.
    pub closed spec fn ballots(&self) -> Seq<Ballot> {
        self.ballots@
    }

    /// Whether `v` already cast a ballot in the current window.
    pub open spec fn has_voter(&self, v: Seq<char>) -> bool {
        exists|i: int| 0 <= i < self.ballots().len() && (#[trigger] self.ballots()[i]).voter@ == v
    }

    /// Internal consistency: every count equals the number of ballots that
    /// chose that option, no voter appears twice, and every recorded option
    /// index is in range.
    pub closed spec fn wf(&self) -> bool {
        &&& self.counts@.len() >= 2
        &&& forall|i: int|
            0 <= i < self.ballots@.len() ==> (#[trigger] self.ballots@[i]).option_index
                < self.counts@.len()
        &&& distinct_voters(self.ballots@)
        &&& forall|k: int|
            0 <= k < self.counts@.len() ==> #[trigger] self.counts@[k] as int == count_votes(
                self.ballots@,
                k,
            )
    }

    /// A fresh tally with `num_options` zeroed buckets and no recorded voters.
    pub fn new(num_options: usize) -> (t: VoteTally)
        requires
            num_options >= 2,
        ensures
            t.wf(),
            t.num_options() == num_options,
            t.ballots().len() == 0,
            forall|k: int| 0 <= k < t.counts().len() ==> t.counts()[k] == 0,
    {
        let t = VoteTally { counts: vec![0usize; num_options], ballots: Vec::new() };
        proof {
            assert forall|k: int| 0 <= k < t.counts@.len() implies #[trigger] t.counts@[k] as int
                == count_votes(t.ballots@, k) by {
                assert(count_votes(t.ballots@, k) == 0);
            }
        }
        t
    }

    /// Whether this voter already cast a ballot in the current window.
    pub fn has_voted(&self, voter: &String) -> (r: bool)
        ensures
            r == self.has_voter(voter@),
    {
        let n = self.ballots.len();
        let mut i: usize = 0;
        while i < n
            invariant
                n == self.ballots@.len(),
                i <= n,
                forall|j: int| 0 <= j < i ==> (#[trigger] self.ballots@[j]).voter@ != voter@,
            decreases n - i,
        {
            if self.ballots[i].voter == *voter {
                proof {
                    assert((self.ballots()[i as int]).voter@ == voter@);
                }
                return true;
            }
            i += 1;
        }
        false
    }

    /// Record one vote for `option_index` by `voter`, unless this voter has
    /// already voted, in which case nothing changes and the vote is rejected.
    pub fn cast(&mut self, voter: &String, option_index: usize) -> (r: Result<(), AlreadyVoted>)
        requires
            old(self).wf(),
            option_index < old(self).num_options(),
        ensures
            final(self).wf(),
            old(self).has_voter(voter@) ==> r is Err && *final(self) == *old(self),
            !old(self).has_voter(voter@) ==> r is Ok && cast_accepted(
                *old(self),
                *final(self),
                voter@,
                option_index as int,
            ),
    {
        if self.has_voted(voter) {
            return Err(AlreadyVoted);
        }
        let ghost old_ballots = self.ballots@;
        let ghost old_counts = self.counts@;
        let b = Ballot { voter: voter.clone(), option_index };
        proof {
            lemma_count_votes_le_len(old_ballots, option_index as int);
        }
        self.ballots.push(b);
        let c = self.counts[option_index];
        proof {
            // The vector behind the ballots fits in memory, so the new count
            // (old count + 1 <= old ballot total + 1 = new ballot total)
            // stays within usize.
            assert(self.ballots@.len() <= usize::MAX) by {
                let v = &self.ballots;
                assert(v@.len() == v.len());
            }
        }
        self.counts[option_index] = c + 1;
        proof {
            assert forall|k: int| 0 <= k < self.counts@.len() implies #[trigger] self.counts@[k]
                as int == count_votes(self.ballots@, k) by {
                lemma_count_votes_push(old_ballots, b, k);
                assert(self.ballots@ =~= old_ballots.push(b));
            }
            assert(self.counts() =~= old(self).counts().update(
                option_index as int,
                old(self).counts()[option_index as int] + 1,
            ));
            assert(distinct_voters(self.ballots@)) by {
                assert forall|i: int, j: int|
                    0 <= i < j < self.ballots@.len() implies (#[trigger] self.ballots@[i]).voter@
                    != (#[trigger] self.ballots@[j]).voter@ by {
                    if j == self.ballots@.len() - 1 {
                        assert(self.ballots@[i] == old_ballots[i]);
                        assert(!old(self).has_voter(voter@));
                        assert(old(self).ballots()[i].voter@ != voter@);
                    } else {
                        assert(self.ballots@[i] == old_ballots[i]);
                        assert(self.ballots@[j] == old_ballots[j]);
                    }
                }
            }
        }
        Ok(())
    }

    /// The option with a strictly highest count, or `None` when the maximum
    /// is shared by two or more options (including the all-zero start).
    pub fn winner(&self) -> (r: Option<usize>)
        requires
            self.wf(),
        ensures
            match r {
                Some(i) => is_unique_leader(self.counts(), i as int),
                None => forall|i: int| !is_unique_leader(self.counts(), i),
            },
    {
        let n = self.counts.len();
        let mut best_i: usize = 0;
        let mut unique: bool = true;
        let ghost mut tie: int = 0;
        let mut k: usize = 1;
        while k < n
            invariant
                n == self.counts@.len(),
                1 <= k <= n,
                best_i < k,
                forall|j: int| 0 <= j < k ==> self.counts()[j] <= self.counts()[best_i as int],
                unique ==> forall|j: int|
                    0 <= j < k && j != best_i ==> self.counts()[j] < self.counts()[best_i as int],
                !unique ==> 0 <= tie < k && tie != best_i && self.counts()[tie] == self.counts()[best_i as int],
            decreases n - k,
        {
            if self.counts[k] > self.counts[best_i] {
                best_i = k;
                unique = true;
            } else if self.counts[k] == self.counts[best_i] {
                unique = false;
                proof {
                    tie = k as int;
                }
            }
            k += 1;
        }
        if unique {
            Some(best_i)
        } else {
            proof {
                assert forall|i: int| !is_unique_leader(self.counts(), i) by {
                    if 0 <= i < n {
                        if i == tie {
                            assert(!(self.counts()[best_i as int] < self.counts()[i]));
                        } else {
                            assert(!(self.counts()[tie] < self.counts()[i]));
                        }
                    }
                }
            }
            None
        }
    }

    /// Clear every count and forget every voter.
    pub fn reset(&mut self)
        requires
            old(self).wf(),
        ensures
            final(self).wf(),
            final(self).num_options() == old(self).num_options(),
            final(self).ballots().len() == 0,
            forall|k: int| 0 <= k < final(self).counts().len() ==> final(self).counts()[k] == 0,
    {
        self.ballots.clear();
        let n = self.counts.len();
        let mut k: usize = 0;
        while k < n
            invariant
                n == self.counts@.len(),
                k <= n,
                n >= 2,
                self.ballots@.len() == 0,
                forall|j: int| 0 <= j < k ==> self.counts@[j] == 0,
            decreases n - k,
        {
            self.counts[k] = 0;
            k += 1;
        }
    }

    /// The number of ballot options, as an executable value.
    pub fn options_len(&self) -> (n: usize)
        ensures
            n == self.num_options(),
    {
        self.counts.len()
    }

    /// The current count for option `k`.
    pub fn count_of(&self, k: usize) -> (n: usize)
        requires
            k < self.num_options(),
        ensures
            n == self.counts()[k as int],
    {
        self.counts[k]
    }

    /// How many ballots were accepted in the current window.
    pub fn ballots_len(&self) -> (n: usize)
        ensures
            n == self.ballots().len(),
    {
        self.ballots.len()
    }
}

/// Immediately after a reset every count is zero, so `winner` yields no
/// decision.
pub proof fn lemma_reset_gives_no_decision(t: &VoteTally)
    requires
        t.wf(),
        t.ballots().len() == 0,
        forall|k: int| 0 <= k < t.counts().len() ==> t.counts()[k] == 0,
    ensures
        forall|i: int| !is_unique_leader(t.counts(), i),
{
    lemma_tie_has_no_winner(t.counts());
}

/// When every option holds the same count (as after a reset, when all are
/// zero) no option is a unique leader, so the poll yields no decision.
pub proof fn lemma_tie_has_no_winner(counts: Seq<int>)
    requires
        counts.len() >= 2,
        forall|i: int, j: int| 0 <= i < counts.len() && 0 <= j < counts.len() ==> counts[i] == counts[j],
    ensures
        forall|i: int| !is_unique_leader(counts, i),
{
    assert forall|i: int| !is_unique_leader(counts, i) by {
        if 0 <= i < counts.len() {
            let other: int = if i == 0 {
                1
            } else {
                0
            };
            assert(!(counts[other] < counts[i]));
        }
    }
}

} // verus!
