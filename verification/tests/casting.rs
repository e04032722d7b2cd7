use decentra_vote::api::{cast_vote, initialize_event};
use decentra_vote::errors::ErrorCode;
use decentra_vote::state::{AccountId, EventAccount, VoteAccount};

const DEADLINE: i64 = 1_000;
const OPEN: i64 = 10;

fn acct(b: u8) -> AccountId {
    AccountId { bytes: [b; 32] }
}

fn fresh_record() -> VoteAccount {
    VoteAccount {
        voter: acct(0),
        has_voted: false,
        plus_choices: Vec::new(),
        minus_choices: Vec::new(),
    }
}

/// Three choices "A", "B", "C"; negative votes disabled.
fn plus_only_event(max_plus: u8) -> EventAccount {
    initialize_event(
        acct(1),
        "Election".to_string(),
        "A small vote".to_string(),
        vec!["A".to_string(), "B".to_string(), "C".to_string()],
        DEADLINE,
        max_plus,
        false,
        0,
        0,
    )
    .unwrap()
}

/// Three choices "A", "B", "C"; negative votes enabled.
fn minus_event(max_plus: u8, max_minus: u8, min_plus: u8) -> EventAccount {
    initialize_event(
        acct(1),
        "Election".to_string(),
        "A small vote".to_string(),
        vec!["A".to_string(), "B".to_string(), "C".to_string()],
        DEADLINE,
        max_plus,
        true,
        max_minus,
        min_plus,
    )
    .unwrap()
}

#[test]
fn vote_after_deadline_rejected() {
    let mut event = plus_only_event(2);
    let before = event.clone();
    let mut record = fresh_record();
    let r = cast_vote(&mut event, &mut record, acct(2), DEADLINE, vec![0, 1], None);
    assert_eq!(r, Err(ErrorCode::VotingClosed));
    assert_eq!(event, before);
    assert_eq!(record, fresh_record());
}

#[test]
fn second_vote_rejected_and_tally_unchanged() {
    let mut event = plus_only_event(2);
    let mut record = fresh_record();
    assert_eq!(cast_vote(&mut event, &mut record, acct(2), OPEN, vec![0], None), Ok(()));
    let after_first = event.clone();
    let sealed = record.clone();
    // A second, otherwise valid ballot through the same record.
    let r = cast_vote(&mut event, &mut record, acct(2), OPEN, vec![1], None);
    assert_eq!(r, Err(ErrorCode::AlreadyVoted));
    assert_eq!(event, after_first);
    assert_eq!(record, sealed);
}

#[test]
fn empty_plus_list_rejected() {
    let mut event = plus_only_event(2);
    let mut record = fresh_record();
    let r = cast_vote(&mut event, &mut record, acct(2), OPEN, Vec::new(), None);
    assert_eq!(r, Err(ErrorCode::NoChoicesProvided));
    assert_eq!(event.total_votes, vec![0i64, 0, 0]);
}

#[test]
fn too_many_plus_votes_rejected() {
    let mut event = plus_only_event(2);
    let mut record = fresh_record();
    let r = cast_vote(&mut event, &mut record, acct(2), OPEN, vec![0, 1, 2], None);
    assert_eq!(r, Err(ErrorCode::TooManyPlusVotes));
    assert_eq!(event.total_votes, vec![0i64, 0, 0]);
}

#[test]
fn duplicate_plus_rejected_and_no_tally_mutation() {
    let mut event = plus_only_event(2);
    let before = event.clone();
    let mut record = fresh_record();
    let r = cast_vote(&mut event, &mut record, acct(2), OPEN, vec![0, 0], None);
    assert_eq!(r, Err(ErrorCode::DuplicateChoices));
    assert_eq!(event, before);
    assert!(!record.has_voted);
}

#[test]
fn plus_index_out_of_range_rejected() {
    let mut event = plus_only_event(2);
    let mut record = fresh_record();
    let r = cast_vote(&mut event, &mut record, acct(2), OPEN, vec![0, 5], None);
    assert_eq!(r, Err(ErrorCode::ChoiceOutOfRange));
    assert_eq!(event.total_votes, vec![0i64, 0, 0]);
}

#[test]
fn minus_votes_on_disabled_event_rejected() {
    let mut event = plus_only_event(2);
    let mut record = fresh_record();
    let r = cast_vote(&mut event, &mut record, acct(2), OPEN, vec![0], Some(Vec::new()));
    assert_eq!(r, Err(ErrorCode::MinusVotesNotAllowed));
    assert_eq!(event.total_votes, vec![0i64, 0, 0]);
}

#[test]
fn too_many_minus_votes_rejected() {
    let mut event = minus_event(2, 1, 1);
    let mut record = fresh_record();
    let r = cast_vote(&mut event, &mut record, acct(2), OPEN, vec![0], Some(vec![1, 2]));
    assert_eq!(r, Err(ErrorCode::TooManyMinusVotes));
    assert_eq!(event.total_votes, vec![0i64, 0, 0]);
}

#[test]
fn duplicate_minus_rejected() {
    let mut event = minus_event(3, 2, 1);
    let mut record = fresh_record();
    let r = cast_vote(&mut event, &mut record, acct(2), OPEN, vec![0], Some(vec![1, 1]));
    assert_eq!(r, Err(ErrorCode::DuplicateChoices));
    assert_eq!(event.total_votes, vec![0i64, 0, 0]);
}

#[test]
fn minus_index_out_of_range_rejected() {
    let mut event = minus_event(2, 1, 1);
    let mut record = fresh_record();
    let r = cast_vote(&mut event, &mut record, acct(2), OPEN, vec![0], Some(vec![7]));
    assert_eq!(r, Err(ErrorCode::ChoiceOutOfRange));
    assert_eq!(event.total_votes, vec![0i64, 0, 0]);
}

#[test]
fn overlapping_plus_and_minus_rejected() {
    let mut event = minus_event(2, 1, 1);
    let mut record = fresh_record();
    let r = cast_vote(&mut event, &mut record, acct(2), OPEN, vec![0, 1], Some(vec![1]));
    assert_eq!(r, Err(ErrorCode::OverlappingChoices));
    assert_eq!(event.total_votes, vec![0i64, 0, 0]);
}

#[test]
fn scenario_two_plus_ballots() {
    let mut event = plus_only_event(2);
    let mut first = fresh_record();
    assert_eq!(cast_vote(&mut event, &mut first, acct(2), OPEN, vec![0, 1], None), Ok(()));
    assert_eq!(event.total_votes, vec![1i64, 1, 0]);
    let mut second = fresh_record();
    assert_eq!(cast_vote(&mut event, &mut second, acct(3), OPEN, vec![0], None), Ok(()));
    assert_eq!(event.total_votes, vec![2i64, 1, 0]);
}

#[test]
fn scenario_minus_ballots() {
    let mut event = minus_event(2, 1, 2);
    let mut record = fresh_record();
    // One plus vote is below the min-plus threshold for casting a minus vote.
    let r = cast_vote(&mut event, &mut record, acct(2), OPEN, vec![0], Some(vec![1]));
    assert_eq!(r, Err(ErrorCode::InsufficientPlusVotes));
    assert_eq!(event.total_votes, vec![0i64, 0, 0]);
    assert!(!record.has_voted);
    // Two plus votes qualify.
    let r = cast_vote(&mut event, &mut record, acct(2), OPEN, vec![0, 2], Some(vec![1]));
    assert_eq!(r, Ok(()));
    assert_eq!(event.total_votes, vec![1i64, -1, 1]);
}

#[test]
fn accepted_ballot_seals_the_record() {
    let mut event = minus_event(2, 1, 2);
    let mut record = fresh_record();
    let voter = acct(9);
    assert_eq!(cast_vote(&mut event, &mut record, voter, OPEN, vec![2, 0], Some(vec![1])), Ok(()));
    assert_eq!(record.voter, voter);
    assert!(record.has_voted);
    assert_eq!(record.plus_choices, vec![2, 0]);
    assert_eq!(record.minus_choices, vec![1]);
}

#[test]
fn absent_minus_list_leaves_record_minus_empty() {
    let mut event = plus_only_event(2);
    let mut record = fresh_record();
    assert_eq!(cast_vote(&mut event, &mut record, acct(2), OPEN, vec![1], None), Ok(()));
    assert_eq!(record.minus_choices, Vec::<u8>::new());
}

#[test]
fn plus_overflow_rejected_and_whole_ballot_rolled_back() {
    let mut event = plus_only_event(2);
    // Drive one counter to its maximum.
    event.total_votes[0] = i64::MAX;
    let before = event.clone();
    let mut record = fresh_record();
    // The ballot touches the saturated counter and a healthy one.
    let r = cast_vote(&mut event, &mut record, acct(2), OPEN, vec![1, 0], None);
    assert_eq!(r, Err(ErrorCode::Overflow));
    assert_eq!(event, before);
    assert!(!record.has_voted);
}

#[test]
fn minus_overflow_rejected_and_whole_ballot_rolled_back() {
    let mut event = minus_event(2, 1, 2);
    event.total_votes[1] = i64::MIN;
    let before = event.clone();
    let mut record = fresh_record();
    let r = cast_vote(&mut event, &mut record, acct(2), OPEN, vec![0, 2], Some(vec![1]));
    assert_eq!(r, Err(ErrorCode::Overflow));
    assert_eq!(event, before);
    assert!(!record.has_voted);
}

#[test]
fn counter_reaching_maximum_then_one_more_vote() {
    let mut event = plus_only_event(1);
    event.total_votes[0] = i64::MAX - 1;
    let mut first = fresh_record();
    assert_eq!(cast_vote(&mut event, &mut first, acct(2), OPEN, vec![0], None), Ok(()));
    assert_eq!(event.total_votes[0], i64::MAX);
    let mut second = fresh_record();
    let r = cast_vote(&mut event, &mut second, acct(3), OPEN, vec![0], None);
    assert_eq!(r, Err(ErrorCode::Overflow));
    assert_eq!(event.total_votes[0], i64::MAX);
}

#[test]
fn check_order_deadline_before_record() {
    // A closed event wins over an already-voted record.
    let mut event = plus_only_event(2);
    let mut record = fresh_record();
    record.has_voted = true;
    let r = cast_vote(&mut event, &mut record, acct(2), DEADLINE + 5, vec![0], None);
    assert_eq!(r, Err(ErrorCode::VotingClosed));
}

#[test]
fn check_order_duplicates_before_range() {
    // A duplicated out-of-range index surfaces the duplicate error first.
    let mut event = plus_only_event(2);
    let mut record = fresh_record();
    let r = cast_vote(&mut event, &mut record, acct(2), OPEN, vec![9, 9], None);
    assert_eq!(r, Err(ErrorCode::DuplicateChoices));
}
