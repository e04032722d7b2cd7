use vstd::prelude::*;

use crate::ballot::{ballot_error, minus_or_empty, validate_minus, validate_plus};
use crate::errors::ErrorCode;
use crate::state::{byte_len, AccountId, EventAccount, VoteAccount, MAX_CHOICES,
    MAX_CHOICE_BYTES, MAX_DESCRIPTION_BYTES, MAX_TITLE_BYTES};
use crate::tally::{apply_ballot, tally_would_overflow, vote_delta};

verus! {

/// The view of an optional negative-selection list: absent means empty.
pub open spec fn minus_seq(minus: Option<Vec<u8>>) -> Seq<u8> {
    minus_or_empty(minus_opt(minus))
}

/// The view of an optional negative-selection list as submitted: absent
/// stays absent, so the negative checks are skipped entirely.
pub open spec fn minus_opt(minus: Option<Vec<u8>>) -> Option<Seq<u8>> {
    match minus {
        Some(m) => Some(m@),
        None => None,
    }
}

/// The outcome of the event-configuration checks, evaluated in their fixed
/// order: the first failed check names the error; `None` means the event may
/// be created.
pub open spec fn config_error(
    title: Seq<char>,
    description: Seq<char>,
    choices: Seq<Seq<char>>,
    max_plus_votes: u8,
    allow_minus: bool,
    max_minus_votes: u8,
    min_plus_for_minus: u8,
) -> Option<ErrorCode> {
    if choices.len() == 0 {
        Some(ErrorCode::NoChoicesProvided)
    } else if byte_len(title) > MAX_TITLE_BYTES {
        Some(ErrorCode::TitleTooLong)
    } else if byte_len(description) > MAX_DESCRIPTION_BYTES {
        Some(ErrorCode::DescriptionTooLong)
    } else if !(1 <= max_plus_votes as int && max_plus_votes as int <= choices.len()) {
        Some(ErrorCode::InvalidConfig)
    } else if allow_minus && !(1 <= max_minus_votes && max_minus_votes <= max_plus_votes) {
        Some(ErrorCode::InvalidConfig)
    } else if allow_minus && !(1 <= min_plus_for_minus && min_plus_for_minus <= max_plus_votes) {
        Some(ErrorCode::InvalidConfig)
    } else if choices.len() > MAX_CHOICES {
        Some(ErrorCode::InvalidConfig)
    } else if exists|i: int| 0 <= i < choices.len() && byte_len(#[trigger] choices[i])
        > MAX_CHOICE_BYTES {
        Some(ErrorCode::InvalidConfig)
    } else {
        None
    }
}

/// The outcome of a whole `cast_vote` call: ballot validation in its fixed
/// order, then the overflow pre-check of the tally adjustments.
pub open spec fn cast_error(
    event: EventAccount,
    has_voted: bool,
    current_time: i64,
    plus: Seq<u8>,
    minus: Option<Seq<u8>>,
) -> Option<ErrorCode> {
    match ballot_error(event, has_voted, current_time, plus, minus) {
        Some(e) => Some(e),
        None => if tally_would_overflow(event.total_votes@, plus, minus_or_empty(minus)) {
            Some(ErrorCode::Overflow)
        } else {
            None
        },
    }
}

/// Validates the configuration of a new voting event and returns its
/// initial state, with one zeroed tally counter per choice. The checks run
/// in their fixed order and the first failure names the error; on failure
/// no state is created.
#[verifier::loop_isolation(false)]
pub fn initialize_event(
    creator: AccountId,
    title: String,
    description: String,
    choices: Vec<String>,
    deadline: i64,
    max_plus_votes: u8,
    allow_minus: bool,
    max_minus_votes: u8,
    min_plus_for_minus: u8,
) -> (r: Result<EventAccount, ErrorCode>)
    ensures
        match r {
            Ok(event) => {
                &&& config_error(
                    title@,
                    description@,
                    choices.deep_view(),
                    max_plus_votes,
                    allow_minus,
                    max_minus_votes,
                    min_plus_for_minus,
                ) is None
                &&& event.wf()
                &&& event.creator == creator
                &&& event.title == title
                &&& event.description == description
                &&& event.choices == choices
                &&& event.deadline == deadline
                &&& event.max_plus_votes == max_plus_votes
                &&& event.allow_minus == allow_minus
                &&& event.max_minus_votes == max_minus_votes
                &&& event.min_plus_for_minus == min_plus_for_minus
                &&& event.total_votes@.len() == choices@.len()
                &&& forall|k: int| 0 <= k < choices@.len() ==> event.total_votes@[k] == 0i64
            },
            Err(e) => config_error(
                title@,
                description@,
                choices.deep_view(),
                max_plus_votes,
                allow_minus,
                max_minus_votes,
                min_plus_for_minus,
            ) == Some(e),
        },
{
    if choices.len() == 0 {
        return Err(ErrorCode::NoChoicesProvided);
    }
    if title.as_str().as_bytes().len() > MAX_TITLE_BYTES {
        return Err(ErrorCode::TitleTooLong);
    }
    if description.as_str().as_bytes().len() > MAX_DESCRIPTION_BYTES {
        return Err(ErrorCode::DescriptionTooLong);
    }
    if max_plus_votes == 0 || max_plus_votes as usize > choices.len() {
        return Err(ErrorCode::InvalidConfig);
    }
    if allow_minus {
        if max_minus_votes == 0 || max_minus_votes > max_plus_votes {
            return Err(ErrorCode::InvalidConfig);
        }
        if min_plus_for_minus == 0 || min_plus_for_minus > max_plus_votes {
            return Err(ErrorCode::InvalidConfig);
        }
    }
    if choices.len() > MAX_CHOICES {
        return Err(ErrorCode::InvalidConfig);
    }
    let mut i: usize = 0;
    while i < choices.len()
        invariant
            i <= choices@.len(),
            forall|j: int| 0 <= j < i ==> byte_len(#[trigger] choices@[j]@) <= MAX_CHOICE_BYTES,
        decreases choices@.len() - i,
    {
        if choices[i].as_str().as_bytes().len() > MAX_CHOICE_BYTES {
            proof {
                assert(choices.deep_view()[i as int] == choices@[i as int]@);
            }
            return Err(ErrorCode::InvalidConfig);
        }
        i += 1;
    }
    proof {
        assert forall|j: int|
            0 <= j < choices.deep_view().len() implies byte_len(
            #[trigger] choices.deep_view()[j],
        ) <= MAX_CHOICE_BYTES by {
            assert(choices.deep_view()[j] == choices@[j]@);
        }
    }
    let mut total_votes: Vec<i64> = Vec::new();
    let mut k: usize = 0;
    while k < choices.len()
        invariant
            k <= choices@.len(),
            total_votes@.len() == k,
            forall|j: int| 0 <= j < k ==> total_votes@[j] == 0i64,
        decreases choices@.len() - k,
    {
        total_votes.push(0i64);
        k += 1;
    }
    Ok(
        EventAccount {
            creator,
            title,
            description,
            choices,
            deadline,
            max_plus_votes,
            allow_minus,
            max_minus_votes,
            min_plus_for_minus,
            total_votes,
        },
    )
}

/// Casts one voter's ballot on one event: validates it in the fixed check
/// order, applies the adjustments to the tally as one all-or-nothing unit,
/// and seals the voter's one-shot record. Any failure leaves both the event
/// and the record exactly as they were.
pub fn cast_vote(
    event: &mut EventAccount,
    record: &mut VoteAccount,
    voter: AccountId,
    current_time: i64,
    plus_choices: Vec<u8>,
    minus_choices: Option<Vec<u8>>,
) -> (r: Result<(), ErrorCode>)
    requires
        old(event).wf(),
    ensures
        final(event).wf(),
        final(event).same_config(*old(event)),
        match r {
            Ok(()) => {
                &&& cast_error(
                    *old(event),
                    old(record).has_voted,
                    current_time,
                    plus_choices@,
                    minus_opt(minus_choices),
                ) is None
                &&& final(event).total_votes@.len() == old(event).total_votes@.len()
                &&& forall|k: int|
                    0 <= k < old(event).total_votes@.len() ==> final(event).total_votes@[k] as int
                        == old(event).total_votes@[k] as int + vote_delta(
                        plus_choices@,
                        minus_seq(minus_choices),
                        k,
                    )
                &&& final(record).voter == voter
                &&& final(record).has_voted == true
                &&& final(record).plus_choices@ == plus_choices@
                &&& final(record).minus_choices@ == minus_seq(minus_choices)
            },
            Err(e) => {
                &&& cast_error(
                    *old(event),
                    old(record).has_voted,
                    current_time,
                    plus_choices@,
                    minus_opt(minus_choices),
                ) == Some(e)
                &&& *final(event) == *old(event)
                &&& *final(record) == *old(record)
            },
        },
{
    match validate_plus(event, record.has_voted, current_time, &plus_choices) {
        Ok(()) => {},
        Err(e) => {
            return Err(e);
        },
    }
    let minus: Vec<u8> = match minus_choices {
        Some(m) => {
            match validate_minus(event, &plus_choices, &m) {
                Ok(()) => {},
                Err(e) => {
                    return Err(e);
                },
            }
            m
        },
        None => Vec::new(),
    };
    match apply_ballot(&mut event.total_votes, &plus_choices, &minus) {
        Ok(()) => {},
        Err(e) => {
            return Err(e);
        },
    }
    record.voter = voter;
    record.has_voted = true;
    record.plus_choices = plus_choices;
    record.minus_choices = minus;
    Ok(())
}

} // verus!
