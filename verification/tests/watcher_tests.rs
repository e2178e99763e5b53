use hivemind::league::{LeagueAbility, LeaguePlayerAbilities, LeagueResponse};
use hivemind::watcher::{ExternalStateWatcher, WatchOutcome};

fn snapshot(q: Option<i32>, w: Option<i32>, e: Option<i32>, r: Option<i32>, level: i32) -> LeagueResponse {
    LeagueResponse {
        abilities: LeaguePlayerAbilities {
            Q: LeagueAbility { abilityLevel: q },
            W: LeagueAbility { abilityLevel: w },
            E: LeagueAbility { abilityLevel: e },
            R: LeagueAbility { abilityLevel: r },
            Passive: LeagueAbility { abilityLevel: None },
        },
        level,
    }
}

#[test]
fn equal_snapshot_is_unchanged() {
    let mut w = ExternalStateWatcher::new(0);
    // the fresh watcher holds the zero snapshot
    assert_eq!(w.poll(Ok(LeagueResponse::default()), 5), WatchOutcome::Unchanged);
    assert!(w.connected);
    assert_eq!(w.last_observed_at, 0);
}

#[test]
fn each_difference_is_reported_exactly_once() {
    let mut w = ExternalStateWatcher::new(0);
    let s1 = snapshot(Some(1), None, None, None, 2);
    assert_eq!(w.poll(Ok(s1), 5), WatchOutcome::Changed(s1));
    assert_eq!(w.last_observed_at, 5);
    // a repeated, structurally equal fetch after the change
    let s1_again = snapshot(Some(1), None, None, None, 2);
    assert_eq!(w.poll(Ok(s1_again), 9), WatchOutcome::Unchanged);
    assert_eq!(w.last_observed_at, 5);
    // a nested difference (one ability level) is a change
    let s2 = snapshot(Some(1), Some(1), None, None, 2);
    assert_eq!(w.poll(Ok(s2), 12), WatchOutcome::Changed(s2));
    assert_eq!(w.last_observed_at, 12);
}

#[test]
fn unreachable_stops_polling_until_reconnect() {
    let mut w = ExternalStateWatcher::new(0);
    assert_eq!(
        w.poll(Err("connection refused".to_owned()), 3),
        WatchOutcome::Unreachable("connection refused".to_owned())
    );
    assert!(!w.attempt_connect);
    assert!(!w.connected);
    w.reconnect();
    assert!(w.attempt_connect);
}

#[test]
fn check_used_points_sums_the_four_abilities() {
    let s = snapshot(Some(1), Some(2), None, Some(5), 9);
    assert_eq!(s.abilities.check_used_points(), 8);
    assert_eq!(s.abilities.used_points_total(), 8);
    let none = LeagueResponse::default();
    assert_eq!(none.abilities.check_used_points(), 0);
}

#[test]
fn structural_equality_covers_nested_levels() {
    let a = snapshot(Some(1), Some(2), None, None, 3);
    let b = snapshot(Some(1), Some(2), None, None, 3);
    let c = snapshot(Some(1), Some(3), None, None, 3);
    assert_eq!(a, b);
    assert_ne!(a, c);
    assert_ne!(a, snapshot(Some(1), Some(2), None, None, 4));
}
