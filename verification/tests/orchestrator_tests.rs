use hivemind::chat::ChatMessage;
use hivemind::league::{LeagueAbility, LeaguePlayerAbilities, LeagueResponse};
use hivemind::orchestrator::Orchestrator;
use hivemind::tally::Poggers;
use hivemind::util::GlobalState;

fn gs() -> GlobalState {
    GlobalState { bot_name: "hivemind".to_owned(), channel_name: "chan".to_owned() }
}

fn msg(sender: &str, text: &str) -> ChatMessage {
    ChatMessage {
        sender_id: sender.to_owned(),
        sender_name: sender.to_owned(),
        is_privileged: false,
        text: text.to_owned(),
    }
}

fn mod_msg(sender: &str, text: &str) -> ChatMessage {
    ChatMessage { is_privileged: true, ..msg(sender, text) }
}

fn snapshot(q: Option<i32>, w: Option<i32>, e: Option<i32>, r: Option<i32>, level: i32) -> LeagueResponse {
    LeagueResponse {
        abilities: LeaguePlayerAbilities {
            Q: LeagueAbility { abilityLevel: q },
            W: LeagueAbility { abilityLevel: w },
            E: LeagueAbility { abilityLevel: e },
            R: LeagueAbility { abilityLevel: r },
            Passive: LeagueAbility { abilityLevel: None },
        },
        level,
    }
}

fn zero_snapshot() -> LeagueResponse {
    LeagueResponse::default()
}

#[test]
fn end_to_end_ability_poll() {
    let gs = gs();
    let mut o = Orchestrator::new(0);

    // a moderator requests a poll; the next tick opens it at t=0
    assert_eq!(o.handle_message(&mod_msg("streamer", "!reset_league"), 0), None);
    assert!(o.wants_fetch());
    let out = o.tick(&gs, Some(Ok(zero_snapshot())), 0);
    assert_eq!(out.messages, vec!["Vote Q, W, E, R to level an ability!".to_owned()]);
    assert_eq!(out.level_up, None);
    assert!(!out.forfeit);
    assert!(o.ability_poll.is_accepting());

    // votes Q, Q, W, E arrive from distinct voters by t=3
    assert_eq!(o.handle_message(&msg("alice", "q"), 1), None);
    assert_eq!(o.handle_message(&msg("bob", "Q"), 2), None);
    assert_eq!(o.handle_message(&msg("carol", "w"), 2), None);
    assert_eq!(o.handle_message(&msg("dave", "e"), 3), None);

    // before the deadline nothing closes
    let out = o.tick(&gs, Some(Ok(zero_snapshot())), 9_999);
    assert_eq!(out.messages, Vec::<String>::new());
    assert_eq!(out.level_up, None);
    assert!(o.ability_poll.is_accepting());

    // at t=10s the window auto-closes: Q wins 2 votes to 1, 1, 0
    let out = o.tick(&gs, Some(Ok(zero_snapshot())), 10_000);
    assert_eq!(out.messages, vec!["@chan2 Q, 1 W, 1 E, 0 R!".to_owned()]);
    assert_eq!(out.level_up, Some(Poggers::Q));
    assert!(!o.ability_poll.is_accepting());

    // the winning action fired exactly once
    let out = o.tick(&gs, Some(Ok(zero_snapshot())), 10_001);
    assert_eq!(out.level_up, None);
    assert_eq!(out.messages, Vec::<String>::new());
}

#[test]
fn tied_poll_reopens_for_another_vote() {
    let gs = gs();
    let mut o = Orchestrator::new(0);
    assert_eq!(o.handle_message(&mod_msg("streamer", "!up_league"), 0), None);
    let _ = o.tick(&gs, Some(Ok(zero_snapshot())), 0);
    let _ = o.handle_message(&msg("alice", "q"), 1);
    let _ = o.handle_message(&msg("bob", "w"), 1);
    let out = o.tick(&gs, Some(Ok(zero_snapshot())), 10_000);
    assert_eq!(out.messages, vec!["@chan1 Q, 1 W, 0 E, 0 R!".to_owned()]);
    assert_eq!(out.level_up, None);
    // no decision: the window reopened for a fresh vote
    assert!(o.ability_poll.is_accepting());
    assert_eq!(o.ability_poll.tally_ref().ballots_len(), 0);
}

#[test]
fn duplicate_voters_are_suppressed_through_the_orchestrator() {
    let gs = gs();
    let mut o = Orchestrator::new(0);
    let _ = o.handle_message(&mod_msg("streamer", "!reset_league"), 0);
    let _ = o.tick(&gs, Some(Ok(zero_snapshot())), 0);
    let _ = o.handle_message(&msg("alice", "q"), 1);
    let _ = o.handle_message(&msg("alice", "q"), 1);
    let _ = o.handle_message(&msg("alice", "w"), 2);
    let reply = o.handle_message(&mod_msg("streamer", "!results_league"), 3);
    assert_eq!(reply, Some("@streamer 1 Q, 0 W, 0 E, 0 R!".to_owned()));
    assert!(!o.ability_poll.is_accepting());
}

#[test]
fn unprivileged_commands_are_silently_dropped() {
    let gs = gs();
    let mut o = Orchestrator::new(0);
    let _ = o.handle_message(&mod_msg("streamer", "!reset_league"), 0);
    let _ = o.tick(&gs, Some(Ok(zero_snapshot())), 0);
    assert!(o.ability_poll.is_accepting());
    // a plain viewer cannot stop, reset or read out the poll
    assert_eq!(o.handle_message(&msg("viewer", "!stop_league"), 1), None);
    assert!(o.ability_poll.is_accepting());
    assert_eq!(o.handle_message(&msg("viewer", "!results_league"), 1), None);
    assert!(o.ability_poll.is_accepting());
    assert_eq!(o.handle_message(&msg("viewer", "!reconnect_league"), 1), None);
    assert_eq!(o.handle_message(&msg("viewer", "!reset_votes"), 1), None);
    assert!(!o.yes_no_poll.is_accepting());
}

#[test]
fn stop_league_replies_and_closes() {
    let gs = gs();
    let mut o = Orchestrator::new(0);
    let _ = o.handle_message(&mod_msg("streamer", "!reset_league"), 0);
    let _ = o.tick(&gs, Some(Ok(zero_snapshot())), 0);
    let reply = o.handle_message(&mod_msg("streamer", "!stop_league"), 5);
    assert_eq!(reply, Some("Stopped counting!".to_owned()));
    assert!(!o.ability_poll.is_accepting());
}

#[test]
fn yes_no_poll_counts_dual_and_word_tokens() {
    let gs = gs();
    let mut o = Orchestrator::new(0);
    let reply = o.handle_message(&mod_msg("streamer", "!reset_votes"), 0);
    assert_eq!(reply, Some("Reset votes! Vote Yes with 1 and No with 2!".to_owned()));
    assert!(o.yes_no_poll.is_accepting());
    let _ = o.handle_message(&msg("alice", "1"), 1);
    let _ = o.handle_message(&msg("bob", "yes"), 1);
    let _ = o.handle_message(&msg("carol", "2"), 2);
    let reply = o.handle_message(&mod_msg("streamer", "!results_votes"), 3);
    assert_eq!(reply, Some("@streamer 2 voted yes, 1 voted no!".to_owned()));
    assert!(!o.yes_no_poll.is_accepting());
    let _ = gs;
}

#[test]
fn dual_tokens_feed_both_open_polls() {
    let gs = gs();
    let mut o = Orchestrator::new(0);
    let _ = o.handle_message(&mod_msg("streamer", "!reset_votes"), 0);
    let _ = o.handle_message(&mod_msg("streamer", "!reset_league"), 0);
    let _ = o.tick(&gs, Some(Ok(zero_snapshot())), 0);
    let _ = o.handle_message(&msg("alice", "1"), 1);
    assert_eq!(o.ability_poll.tally_ref().count_of(0), 1);
    assert_eq!(o.yes_no_poll.tally_ref().count_of(0), 1);
}

#[test]
fn rush_burst_fires_through_the_orchestrator() {
    let gs = gs();
    let mut o = Orchestrator::new(0);
    for i in 0..21 {
        let name = format!("viewer{}", i);
        let _ = o.handle_message(&msg(&name, "ff"), 1);
    }
    let out = o.tick(&gs, Some(Ok(zero_snapshot())), 4_000);
    assert!(out.forfeit);
    // the same burst cannot trigger twice
    let out = o.tick(&gs, Some(Ok(zero_snapshot())), 4_500);
    assert!(!out.forfeit);
}

#[test]
fn unreachable_telemetry_idles_until_reconnect() {
    let gs = gs();
    let mut o = Orchestrator::new(0);
    assert!(o.wants_fetch());
    let out = o.tick(&gs, Some(Err("connection refused".to_owned())), 0);
    assert_eq!(out.messages, Vec::<String>::new());
    assert!(!o.wants_fetch());
    // with the watcher idle, ticks run without a fetch and change nothing
    let out = o.tick(&gs, None, 1_000);
    assert_eq!(out.messages, Vec::<String>::new());
    assert!(!out.forfeit);
    // the explicit reconnect command resumes polling
    let _ = o.handle_message(&mod_msg("streamer", "!reconnect_league"), 2_000);
    assert!(o.wants_fetch());
}

#[test]
fn level_up_detection_requests_a_poll() {
    let gs = gs();
    let mut o = Orchestrator::new(0);
    // one spent point, level 2: one point is unspent, so a poll opens
    let snap = snapshot(Some(1), None, None, None, 2);
    let out = o.tick(&gs, Some(Ok(snap)), 0);
    assert_eq!(out.messages, vec!["Vote Q, W, E, R to level an ability!".to_owned()]);
    assert!(o.ability_poll.is_accepting());
}

#[test]
fn no_poll_when_all_points_are_spent() {
    let gs = gs();
    let mut o = Orchestrator::new(0);
    let snap = snapshot(Some(1), Some(1), None, None, 2);
    let out = o.tick(&gs, Some(Ok(snap)), 0);
    assert_eq!(out.messages, Vec::<String>::new());
    assert!(!o.ability_poll.is_accepting());
}

#[test]
fn results_message_mention_formats() {
    let o = Orchestrator::new(0);
    let name = "streamer".to_owned();
    let chan = "chan".to_owned();
    assert_eq!(
        o.get_results_message(Some(&name), None),
        "@streamer 0 Q, 0 W, 0 E, 0 R!"
    );
    assert_eq!(o.get_results_message(None, Some(&chan)), "@chan0 Q, 0 W, 0 E, 0 R!");
    assert_eq!(o.get_results_message(None, None), "0 Q, 0 W, 0 E, 0 R!");
}
