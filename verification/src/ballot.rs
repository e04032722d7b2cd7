use vstd::prelude::*;

use crate::errors::ErrorCode;
use crate::state::EventAccount;

verus! {

/// Some index occurs twice in the list.
pub open spec fn has_duplicate(s: Seq<u8>) -> bool {
    exists|i: int, j: int| 0 <= i < j < s.len() && s[i] == s[j]
}

/// Every index in the list is below `bound`.
pub open spec fn all_below(s: Seq<u8>, bound: int) -> bool {
    forall|i: int| 0 <= i < s.len() ==> s[i] < bound
}

/// Some index occurs in both lists.
pub open spec fn overlaps(a: Seq<u8>, b: Seq<u8>) -> bool {
    exists|i: int, j: int| 0 <= i < a.len() && 0 <= j < b.len() && a[i] == b[j]
}

/// The value `k` occurs in the list.
pub open spec fn contains_idx(s: Seq<u8>, k: int) -> bool {
    exists|i: int| 0 <= i < s.len() && s[i] as int == k
}

/// An absent negative-selection list counts as empty once validation is
/// through.
pub open spec fn minus_or_empty(minus: Option<Seq<u8>>) -> Seq<u8> {
    match minus {
        Some(m) => m,
        None => Seq::<u8>::empty(),
    }
}

/// The outcome of the positive-selection checks, evaluated in their fixed
/// order: the first failed check names the error; `None` means the positive
/// half of the ballot is acceptable.
pub open spec fn plus_error(
    event: EventAccount,
    has_voted: bool,
    current_time: i64,
    plus: Seq<u8>,
) -> Option<ErrorCode> {
    if current_time >= event.deadline {
        Some(ErrorCode::VotingClosed)
    } else if has_voted {
        Some(ErrorCode::AlreadyVoted)
    } else if plus.len() == 0 {
        Some(ErrorCode::NoChoicesProvided)
    } else if plus.len() > event.max_plus_votes as int {
        Some(ErrorCode::TooManyPlusVotes)
    } else if has_duplicate(plus) {
        Some(ErrorCode::DuplicateChoices)
    } else if !all_below(plus, event.choices@.len() as int) {
        Some(ErrorCode::ChoiceOutOfRange)
    } else {
        None
    }
}

/// The outcome of the negative-selection checks, evaluated in their fixed
/// order once the positive checks have passed and a negative list is
/// present.
pub open spec fn minus_error(event: EventAccount, plus: Seq<u8>, minus: Seq<u8>) -> Option<
    ErrorCode,
> {
    if !event.allow_minus {
        Some(ErrorCode::MinusVotesNotAllowed)
    } else if minus.len() > event.max_minus_votes as int {
        Some(ErrorCode::TooManyMinusVotes)
    } else if plus.len() < event.min_plus_for_minus as int {
        Some(ErrorCode::InsufficientPlusVotes)
    } else if has_duplicate(minus) {
        Some(ErrorCode::DuplicateChoices)
    } else if !all_below(minus, event.choices@.len() as int) {
        Some(ErrorCode::ChoiceOutOfRange)
    } else if overlaps(plus, minus) {
        Some(ErrorCode::OverlappingChoices)
    } else {
        None
    }
}

/// The outcome of the whole ballot validation: the checks run in their
/// fixed order and the first failure wins. An absent negative list skips
/// every negative check.
pub open spec fn ballot_error(
    event: EventAccount,
    has_voted: bool,
    current_time: i64,
    plus: Seq<u8>,
    minus: Option<Seq<u8>>,
) -> Option<ErrorCode> {
    match plus_error(event, has_voted, current_time, plus) {
        Some(e) => Some(e),
        None => match minus {
            Some(m) => minus_error(event, plus, m),
            None => None,
        },
    }
}

/// Whether some index in `v` is repeated.
pub fn contains_duplicate(v: &Vec<u8>) -> (b: bool)
    ensures
        b == has_duplicate(v@),
{
    let mut i: usize = 0;
    while i < v.len()
        invariant
            i <= v@.len(),
            forall|p: int, q: int| 0 <= p < q < v@.len() && p < i ==> v@[p] != v@[q],
        decreases v@.len() - i,
    {
        let mut j: usize = i + 1;
        while j < v.len()
            invariant
                i < v@.len(),
                i + 1 <= j <= v@.len(),
                forall|q: int| i < q < j ==> v@[i as int] != v@[q],
            decreases v@.len() - j,
        {
            if v[i] == v[j] {
                return true;
            }
            j += 1;
        }
        i += 1;
    }
    false
}

/// Whether every index in `v` is below `bound`.
pub fn all_indices_below(v: &Vec<u8>, bound: usize) -> (b: bool)
    ensures
        b == all_below(v@, bound as int),
{
    let mut i: usize = 0;
    while i < v.len()
        invariant
            i <= v@.len(),
            forall|j: int| 0 <= j < i ==> v@[j] < bound,
        decreases v@.len() - i,
    {
        if v[i] as usize >= bound {
            return false;
        }
        i += 1;
    }
    true
}

/// Whether some index occurs in both `a` and `b`.
pub fn lists_overlap(a: &Vec<u8>, b: &Vec<u8>) -> (r: bool)
    ensures
        r == overlaps(a@, b@),
{
    let mut i: usize = 0;
    while i < a.len()
        invariant
            i <= a@.len(),
            forall|p: int, q: int| 0 <= p < i && 0 <= q < b@.len() ==> a@[p] != b@[q],
        decreases a@.len() - i,
    {
        let mut j: usize = 0;
        while j < b.len()
            invariant
                i < a@.len(),
                j <= b@.len(),
                forall|q: int| 0 <= q < j ==> a@[i as int] != b@[q],
            decreases b@.len() - j,
        {
            if a[i] == b[j] {
                return true;
            }
            j += 1;
        }
        i += 1;
    }
    false
}

/// Runs the positive-selection checks in their fixed order against the
/// event's rules, the deadline, and the voter's one-shot record. Pure:
/// mutates nothing.
pub fn validate_plus(
    event: &EventAccount,
    has_voted: bool,
    current_time: i64,
    plus: &Vec<u8>,
) -> (r: Result<(), ErrorCode>)
    ensures
        match r {
            Ok(()) => plus_error(*event, has_voted, current_time, plus@) is None,
            Err(e) => plus_error(*event, has_voted, current_time, plus@) == Some(e),
        },
{
    if current_time >= event.deadline {
        return Err(ErrorCode::VotingClosed);
    }
    if has_voted {
        return Err(ErrorCode::AlreadyVoted);
    }
    if plus.len() == 0 {
        return Err(ErrorCode::NoChoicesProvided);
    }
    if plus.len() > event.max_plus_votes as usize {
        return Err(ErrorCode::TooManyPlusVotes);
    }
    if contains_duplicate(plus) {
        return Err(ErrorCode::DuplicateChoices);
    }
    if !all_indices_below(plus, event.choices.len()) {
        return Err(ErrorCode::ChoiceOutOfRange);
    }
    Ok(())
}

/// Runs the negative-selection checks in their fixed order; callers reach
/// this only when the positive checks passed and a negative list is
/// present. Pure: mutates nothing.
pub fn validate_minus(event: &EventAccount, plus: &Vec<u8>, minus: &Vec<u8>) -> (r: Result<
    (),
    ErrorCode,
>)
    ensures
        match r {
            Ok(()) => minus_error(*event, plus@, minus@) is None,
            Err(e) => minus_error(*event, plus@, minus@) == Some(e),
        },
{
    if !event.allow_minus {
        return Err(ErrorCode::MinusVotesNotAllowed);
    }
    if minus.len() > event.max_minus_votes as usize {
        return Err(ErrorCode::TooManyMinusVotes);
    }
    if plus.len() < event.min_plus_for_minus as usize {
        return Err(ErrorCode::InsufficientPlusVotes);
    }
    if contains_duplicate(minus) {
        return Err(ErrorCode::DuplicateChoices);
    }
    if !all_indices_below(minus, event.choices.len()) {
        return Err(ErrorCode::ChoiceOutOfRange);
    }
    if lists_overlap(plus, minus) {
        return Err(ErrorCode::OverlappingChoices);
    }
    Ok(())
}

} // verus!
