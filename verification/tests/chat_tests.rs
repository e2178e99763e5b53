use hivemind::chat::{command_token, is_mod, parse_command, token_is, Command};

#[test]
fn badges_decide_privilege() {
    assert!(is_mod(&vec!["moderator".to_owned()]));
    assert!(is_mod(&vec!["subscriber".to_owned(), "broadcaster".to_owned()]));
    assert!(!is_mod(&vec!["subscriber".to_owned(), "vip".to_owned()]));
    assert!(!is_mod(&vec![]));
}

#[test]
fn token_extraction_skips_leading_whitespace_and_folds_case() {
    assert_eq!(command_token("  hello world"), vec!['H', 'E', 'L', 'L', 'O']);
    assert_eq!(command_token("q"), vec!['Q']);
    assert_eq!(command_token("\t!stop_votes now"), vec![
        '!', 'S', 'T', 'O', 'P', '_', 'V', 'O', 'T', 'E', 'S'
    ]);
    assert_eq!(command_token("   "), Vec::<char>::new());
    assert_eq!(command_token(""), Vec::<char>::new());
}

#[test]
fn token_is_compares_exactly() {
    let t = command_token("ff go");
    assert!(token_is(&t, "FF"));
    assert!(!token_is(&t, "F"));
    assert!(!token_is(&t, "FFF"));
}

#[test]
fn vote_tokens_classify_case_insensitively() {
    assert_eq!(parse_command("q vote!"), Command::AbilityVote(0));
    assert_eq!(parse_command("W"), Command::AbilityVote(1));
    assert_eq!(parse_command("e"), Command::AbilityVote(2));
    assert_eq!(parse_command("R"), Command::AbilityVote(3));
    assert_eq!(parse_command("3"), Command::AbilityVote(2));
    assert_eq!(parse_command("4"), Command::AbilityVote(3));
    assert_eq!(parse_command("1"), Command::DualVote(0));
    assert_eq!(parse_command("2"), Command::DualVote(1));
    assert_eq!(parse_command("yes please"), Command::YesNoVote(0));
    assert_eq!(parse_command("No"), Command::YesNoVote(1));
    assert_eq!(parse_command("ff"), Command::Rush);
}

#[test]
fn privileged_command_tokens_classify() {
    assert_eq!(parse_command("!results_league"), Command::ResultsLeague);
    assert_eq!(parse_command("!UP_LEAGUE"), Command::OpenLeaguePoll);
    assert_eq!(parse_command("!reset_league"), Command::OpenLeaguePoll);
    assert_eq!(parse_command("!Stop_League"), Command::StopLeague);
    assert_eq!(parse_command("!reconnect_league"), Command::ReconnectLeague);
    assert_eq!(parse_command("!results_votes"), Command::ResultsVotes);
    assert_eq!(parse_command("!reset_votes"), Command::ResetVotes);
    assert_eq!(parse_command("!stop_votes"), Command::StopVotes);
}

#[test]
fn unknown_tokens_are_ignored() {
    assert_eq!(parse_command("hello"), Command::Ignore);
    assert_eq!(parse_command(""), Command::Ignore);
    assert_eq!(parse_command("QQ"), Command::Ignore);
    assert_eq!(parse_command("12"), Command::Ignore);
    assert_eq!(parse_command("!results_league_extra"), Command::Ignore);
}

#[test]
fn only_the_first_token_counts() {
    assert_eq!(parse_command("hello q"), Command::Ignore);
    assert_eq!(parse_command("q hello"), Command::AbilityVote(0));
}
