use hivemind::tally::{AlreadyVoted, Poggers, VoteTally, Votes};

fn s(x: &str) -> String {
    x.to_owned()
}

#[test]
fn most_voted_index_tie_is_no_decision() {
    assert_eq!(Votes(5, 5, 0, 0).most_voted_index(), None);
}

#[test]
fn most_voted_index_unique_max() {
    assert_eq!(Votes(3, 5, 1, 0).most_voted_index(), Some(1));
    assert_eq!(Votes(9, 5, 1, 0).most_voted_index(), Some(0));
    assert_eq!(Votes(0, 0, 0, 1).most_voted_index(), Some(3));
}

#[test]
fn most_voted_index_all_zero_is_no_decision() {
    assert_eq!(Votes(0, 0, 0, 0).most_voted_index(), None);
}

#[test]
fn most_voted_maps_to_option() {
    assert_eq!(Votes(3, 5, 1, 0).most_voted(), Some(Poggers::W));
    assert_eq!(Votes(0, 0, 7, 0).most_voted(), Some(Poggers::E));
    assert_eq!(Votes(2, 2, 1, 0).most_voted(), None);
}

#[test]
fn default_votes_are_zero() {
    let v = Votes::default();
    assert_eq!((v.0, v.1, v.2, v.3), (0, 0, 0, 0));
}

#[test]
fn cast_counts_first_time_voters() {
    let mut t = VoteTally::new(4);
    assert_eq!(t.cast(&s("alice"), 0), Ok(()));
    assert_eq!(t.cast(&s("bob"), 0), Ok(()));
    assert_eq!(t.cast(&s("carol"), 2), Ok(()));
    assert_eq!(t.count_of(0), 2);
    assert_eq!(t.count_of(1), 0);
    assert_eq!(t.count_of(2), 1);
    assert_eq!(t.count_of(3), 0);
    assert_eq!(t.ballots_len(), 3);
}

#[test]
fn second_cast_is_rejected_even_for_another_option() {
    let mut t = VoteTally::new(4);
    assert_eq!(t.cast(&s("alice"), 0), Ok(()));
    assert_eq!(t.cast(&s("alice"), 1), Err(AlreadyVoted));
    // credited only once, for the first option
    assert_eq!(t.count_of(0), 1);
    assert_eq!(t.count_of(1), 0);
    assert_eq!(t.ballots_len(), 1);
    assert!(t.has_voted(&s("alice")));
    assert!(!t.has_voted(&s("bob")));
}

#[test]
fn count_never_exceeds_distinct_voters() {
    let mut t = VoteTally::new(2);
    for voter in ["a", "b", "c", "a", "b", "a"] {
        let _ = t.cast(&s(voter), 0);
    }
    // three distinct voters chose option 0
    assert_eq!(t.count_of(0), 3);
}

#[test]
fn winner_requires_a_strict_maximum() {
    let mut t = VoteTally::new(4);
    let _ = t.cast(&s("a"), 1);
    let _ = t.cast(&s("b"), 1);
    let _ = t.cast(&s("c"), 3);
    assert_eq!(t.winner(), Some(1));
    let _ = t.cast(&s("d"), 3);
    assert_eq!(t.winner(), None);
}

#[test]
fn winner_on_fresh_tally_is_no_decision() {
    let t = VoteTally::new(4);
    assert_eq!(t.winner(), None);
    let t2 = VoteTally::new(2);
    assert_eq!(t2.winner(), None);
}

#[test]
fn reset_then_winner_is_no_decision() {
    let mut t = VoteTally::new(4);
    let _ = t.cast(&s("a"), 2);
    assert_eq!(t.winner(), Some(2));
    t.reset();
    assert_eq!(t.winner(), None);
    assert_eq!(t.ballots_len(), 0);
    assert_eq!(t.count_of(2), 0);
    // voters may vote again after a reset
    assert_eq!(t.cast(&s("a"), 1), Ok(()));
}

#[test]
fn two_option_tally_works_like_the_yes_no_poll() {
    let mut t = VoteTally::new(2);
    assert_eq!(t.options_len(), 2);
    let _ = t.cast(&s("a"), 0);
    let _ = t.cast(&s("b"), 1);
    assert_eq!(t.winner(), None);
    let _ = t.cast(&s("c"), 0);
    assert_eq!(t.winner(), Some(0));
}
