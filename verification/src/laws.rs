use vstd::prelude::*;

use crate::api::{cast_error, config_error};
use crate::ballot::{all_below, ballot_error, has_duplicate, minus_or_empty, overlaps, plus_error};
use crate::errors::ErrorCode;
use crate::state::{byte_len, EventAccount, MAX_DESCRIPTION_BYTES, MAX_TITLE_BYTES};
use crate::tally::tally_would_overflow;

verus! {

/// A creation request whose positive-vote limit is zero or exceeds the
/// number of choices is rejected with `InvalidConfig`, whatever the other
/// limits say, whenever the checks ahead of it (non-empty choice list,
/// title and description lengths) pass.
pub proof fn lemma_bad_plus_limit_rejected(
    title: Seq<char>,
    description: Seq<char>,
    choices: Seq<Seq<char>>,
    max_plus_votes: u8,
    allow_minus: bool,
    max_minus_votes: u8,
    min_plus_for_minus: u8,
)
    requires
        choices.len() > 0,
        byte_len(title) <= MAX_TITLE_BYTES,
        byte_len(description) <= MAX_DESCRIPTION_BYTES,
        max_plus_votes == 0 || max_plus_votes as int > choices.len(),
    ensures
        config_error(
            title,
            description,
            choices,
            max_plus_votes,
            allow_minus,
            max_minus_votes,
            min_plus_for_minus,
        ) == Some(ErrorCode::InvalidConfig),
{
}

/// Enabling negative votes with a zero negative-vote limit is rejected with
/// `InvalidConfig`, whenever the checks ahead of it pass.
pub proof fn lemma_zero_minus_limit_rejected(
    title: Seq<char>,
    description: Seq<char>,
    choices: Seq<Seq<char>>,
    max_plus_votes: u8,
    min_plus_for_minus: u8,
)
    requires
        choices.len() > 0,
        byte_len(title) <= MAX_TITLE_BYTES,
        byte_len(description) <= MAX_DESCRIPTION_BYTES,
        1 <= max_plus_votes as int <= choices.len(),
    ensures
        config_error(
            title,
            description,
            choices,
            max_plus_votes,
            true,
            0u8,
            min_plus_for_minus,
        ) == Some(ErrorCode::InvalidConfig),
{
}

/// Once the deadline has passed, every ballot is rejected with
/// `VotingClosed`, regardless of its content and of the voter's record.
pub proof fn lemma_closed_event_rejects_every_ballot(
    event: EventAccount,
    has_voted: bool,
    current_time: i64,
    plus: Seq<u8>,
    minus: Option<Seq<u8>>,
)
    requires
        current_time >= event.deadline,
    ensures
        cast_error(event, has_voted, current_time, plus, minus) == Some(ErrorCode::VotingClosed),
{
}

/// A voter whose record is already sealed is rejected with `AlreadyVoted`,
/// regardless of the ballot's content. (By `cast_vote`'s contract every
/// rejection leaves the tally untouched.)
pub proof fn lemma_second_vote_rejected(
    event: EventAccount,
    current_time: i64,
    plus: Seq<u8>,
    minus: Option<Seq<u8>>,
)
    requires
        current_time < event.deadline,
    ensures
        cast_error(event, true, current_time, plus, minus) == Some(ErrorCode::AlreadyVoted),
{
}

/// A ballot that repeats a positive choice index is rejected with
/// `DuplicateChoices`, whenever the checks ahead of it (open event, fresh
/// voter, list non-empty and within the limit) pass.
pub proof fn lemma_duplicate_plus_rejected(
    event: EventAccount,
    current_time: i64,
    plus: Seq<u8>,
    minus: Option<Seq<u8>>,
)
    requires
        current_time < event.deadline,
        0 < plus.len() <= event.max_plus_votes as int,
        has_duplicate(plus),
    ensures
        cast_error(event, false, current_time, plus, minus) == Some(ErrorCode::DuplicateChoices),
{
}

/// A ballot naming the same choice both positively and negatively is
/// rejected with `OverlappingChoices`, whenever every check ahead of it
/// passes.
pub proof fn lemma_overlapping_choices_rejected(
    event: EventAccount,
    current_time: i64,
    plus: Seq<u8>,
    minus: Seq<u8>,
)
    requires
        plus_error(event, false, current_time, plus) is None,
        event.allow_minus,
        minus.len() <= event.max_minus_votes as int,
        plus.len() >= event.min_plus_for_minus as int,
        !has_duplicate(minus),
        all_below(minus, event.choices@.len() as int),
        overlaps(plus, minus),
    ensures
        cast_error(event, false, current_time, plus, Some(minus)) == Some(
            ErrorCode::OverlappingChoices,
        ),
{
}

/// A ballot that validates but would push some counter past its bound is
/// rejected with `Overflow`. (By `cast_vote`'s contract every rejection
/// leaves all counters, touched or not, exactly as they were.)
pub proof fn lemma_overflow_rejected(
    event: EventAccount,
    has_voted: bool,
    current_time: i64,
    plus: Seq<u8>,
    minus: Option<Seq<u8>>,
)
    requires
        ballot_error(event, has_voted, current_time, plus, minus) is None,
        tally_would_overflow(event.total_votes@, plus, minus_or_empty(minus)),
    ensures
        cast_error(event, has_voted, current_time, plus, minus) == Some(ErrorCode::Overflow),
{
}

} // verus!
