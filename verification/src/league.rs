//! The telemetry snapshot mirrored from the game client: per-ability level
//! points and the player's total level, held as plain values so the watcher
//! can compare snapshots structurally.

use vstd::prelude::*;

verus! {

/// One ability slot; `abilityLevel` is absent until the game reports it.
#[allow(non_snake_case)]
#[derive(Clone, Copy, Debug, PartialEq, Eq, Structural)]
pub struct LeagueAbility {
    pub abilityLevel: Option<i32>,
}

impl Default for LeagueAbility {
    fn default() -> (a: LeagueAbility)
        ensures
            a.abilityLevel is None,
    {
        LeagueAbility { abilityLevel: None }
    }
}

/// The four levelable abilities plus the passive slot.
#[allow(non_snake_case)]
#[derive(Clone, Copy, Debug, PartialEq, Eq, Structural)]
pub struct LeaguePlayerAbilities {
    pub Q: LeagueAbility,
    pub W: LeagueAbility,
    pub E: LeagueAbility,
    pub R: LeagueAbility,
    pub Passive: LeagueAbility,
}

/// The level points reported for one ability slot; an absent level counts as
/// zero spent points.
pub open spec fn spec_points(a: LeagueAbility) -> int {
    match a.abilityLevel {
        Some(l) => l as int,
        None => 0,
    }
}

impl Default for LeaguePlayerAbilities {
    fn default() -> (a: LeaguePlayerAbilities)
        ensures
            a.Q.abilityLevel is None,
            a.W.abilityLevel is None,
            a.E.abilityLevel is None,
            a.R.abilityLevel is None,
            a.Passive.abilityLevel is None,
    {
        LeaguePlayerAbilities {
            Q: LeagueAbility { abilityLevel: None },
            W: LeagueAbility { abilityLevel: None },
            E: LeagueAbility { abilityLevel: None },
            R: LeagueAbility { abilityLevel: None },
            Passive: LeagueAbility { abilityLevel: None },
        }
    }
}

impl LeaguePlayerAbilities {
    /// The total ability points spent across Q, W, E and R (the passive slot
    /// never costs a point).
    pub open spec fn spec_used_points(&self) -> int {
        spec_points(self.Q) + spec_points(self.W) + spec_points(self.E) + spec_points(self.R)
    }

    /// The total ability points spent, when that total fits the reported
    /// level's machine type.
    pub fn check_used_points(&self) -> (r: i32)
        requires
            i32::MIN <= self.spec_used_points() <= i32::MAX,
        ensures
            r as int == self.spec_used_points(),
    {
        let mut i: i64 = 0;
        if let Some(q_level) = self.Q.abilityLevel {
            i += q_level as i64;
        }
        if let Some(w_level) = self.W.abilityLevel {
            i += w_level as i64;
        }
        if let Some(e_level) = self.E.abilityLevel {
            i += e_level as i64;
        }
        if let Some(r_level) = self.R.abilityLevel {
            i += r_level as i64;
        }
        i as i32
    }

    /// The total ability points spent, over the full range: four level
    /// values always sum within an `i64`.
    pub fn used_points_total(&self) -> (r: i64)
        ensures
            r as int == self.spec_used_points(),
    {
        let mut i: i64 = 0;
        if let Some(q_level) = self.Q.abilityLevel {
            i += q_level as i64;
        }
        if let Some(w_level) = self.W.abilityLevel {
            i += w_level as i64;
        }
        if let Some(e_level) = self.E.abilityLevel {
            i += e_level as i64;
        }
        if let Some(r_level) = self.R.abilityLevel {
            i += r_level as i64;
        }
        i
    }
}

/// One snapshot of the external game state: ability point allocations and
/// the player's total level.
#[derive(Clone, Copy, Debug, PartialEq, Eq, Structural)]
pub struct LeagueResponse {
    pub abilities: LeaguePlayerAbilities,
    pub level: i32,
}

impl LeagueResponse {
    /// The all-empty snapshot that stands in before any fetch succeeded.
    pub open spec fn is_zero(&self) -> bool {
        &&& self.level == 0
        &&& self.abilities.Q.abilityLevel is None
        &&& self.abilities.W.abilityLevel is None
        &&& self.abilities.E.abilityLevel is None
        &&& self.abilities.R.abilityLevel is None
        &&& self.abilities.Passive.abilityLevel is None
    }
}

impl Default for LeagueResponse {
    fn default() -> (r: LeagueResponse)
        ensures
            r.abilities.Q.abilityLevel is None,
            r.abilities.W.abilityLevel is None,
            r.abilities.E.abilityLevel is None,
            r.abilities.R.abilityLevel is None,
            r.abilities.Passive.abilityLevel is None,
            r.level == 0,
    {
        LeagueResponse { abilities: LeaguePlayerAbilities::default(), level: 0 }
    }
}

} // verus!
