use vstd::prelude::*;

verus! {

/// Every way a call into the library can fail.
///
/// Configuration errors (`NoChoicesProvided`, `TitleTooLong`,
/// `DescriptionTooLong`, `InvalidConfig`) reject bad event parameters at
/// creation. State errors (`VotingClosed`, `AlreadyVoted`) are permanent
/// per-event or per-voter conditions. Structural errors (`TooManyPlusVotes`,
/// `TooManyMinusVotes`, `DuplicateChoices`, `ChoiceOutOfRange`,
/// `MinusVotesNotAllowed`, `InsufficientPlusVotes`, `OverlappingChoices`)
/// reject a malformed ballot. `Overflow` reports a tally counter that cannot
/// absorb an adjustment. Every error is terminal for the current call and
/// leaves all state untouched.
#[derive(Clone, Copy, Debug, PartialEq, Eq, Structural)]
pub enum ErrorCode {
    /// The voting deadline has passed.
    VotingClosed,
    /// This voter has already cast a ballot on this event.
    AlreadyVoted,
    /// A choice reference is invalid.
    InvalidChoice,
    /// No choices were provided.
    NoChoicesProvided,
    /// The title exceeds the maximum byte length.
    TitleTooLong,
    /// The description exceeds the maximum byte length.
    DescriptionTooLong,
    /// The event configuration parameters are inconsistent.
    InvalidConfig,
    /// A choice index is repeated within one selection list.
    DuplicateChoices,
    /// A choice index is outside the event's choice list.
    ChoiceOutOfRange,
    /// A tally counter would overflow.
    Overflow,
    /// More positive selections than the event allows.
    TooManyPlusVotes,
    /// Negative selections on an event that does not allow them.
    MinusVotesNotAllowed,
    /// More negative selections than the event allows.
    TooManyMinusVotes,
    /// Too few positive selections to qualify for negative ones.
    InsufficientPlusVotes,
    /// A choice index appears in both the positive and the negative list.
    OverlappingChoices,
}

} // verus!
