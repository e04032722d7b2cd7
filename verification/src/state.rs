use vstd::prelude::*;

verus! {

/// Maximum number of choices an event may define.
pub const MAX_CHOICES: usize = 10;

/// Maximum byte length of an event title.
pub const MAX_TITLE_BYTES: usize = 64;

/// Maximum byte length of an event description.
pub const MAX_DESCRIPTION_BYTES: usize = 256;

/// Maximum byte length of a single choice label.
pub const MAX_CHOICE_BYTES: usize = 64;

/// The UTF-8 byte length of a text value.
pub open spec fn byte_len(s: Seq<char>) -> nat {
    vstd::utf8::encode_utf8(s).len()
}

/// An opaque account identity, as handed in by the host's authentication
/// layer. The library never interprets it; it only stores it.
#[derive(Clone, Copy, Debug, PartialEq, Eq, Hash)]
pub struct AccountId {
    pub bytes: [u8; 32],
}

/// One voting event: its fixed choice list, its configuration, and the
/// running signed tally, one counter per choice.
#[derive(Clone, Debug, PartialEq, Eq)]
pub struct EventAccount {
    /// Identity of the account that created the event.
    pub creator: AccountId,
    /// Event title, at most `MAX_TITLE_BYTES` bytes.
    pub title: String,
    /// Event description, at most `MAX_DESCRIPTION_BYTES` bytes.
    pub description: String,
    /// Ordered choice labels; an index into this list is a choice's
    /// permanent identifier.
    pub choices: Vec<String>,
    /// Timestamp after which voting is closed.
    pub deadline: i64,
    /// Maximum number of positive selections per ballot.
    pub max_plus_votes: u8,
    /// Whether negative selections are permitted at all.
    pub allow_minus: bool,
    /// Maximum number of negative selections per ballot; meaningful only
    /// when `allow_minus` is set.
    pub max_minus_votes: u8,
    /// Minimum number of positive selections required before any negative
    /// selection is permitted; meaningful only when `allow_minus` is set.
    pub min_plus_for_minus: u8,
    /// Running tally, one signed counter per choice.
    pub total_votes: Vec<i64>,
}

impl EventAccount {
    /// Well-formedness: established at creation and preserved by every
    /// later operation.
    pub open spec fn wf(self) -> bool {
        &&& 1 <= self.choices@.len() <= MAX_CHOICES
        &&& self.total_votes@.len() == self.choices@.len()
        &&& 1 <= self.max_plus_votes as int <= self.choices@.len() as int
        &&& self.allow_minus ==> {
            &&& 1 <= self.max_minus_votes <= self.max_plus_votes
            &&& 1 <= self.min_plus_for_minus <= self.max_plus_votes
        }
        &&& byte_len(self.title@) <= MAX_TITLE_BYTES
        &&& byte_len(self.description@) <= MAX_DESCRIPTION_BYTES
        &&& forall|i: int|
            0 <= i < self.choices@.len() ==> byte_len(#[trigger] self.choices@[i]@)
                <= MAX_CHOICE_BYTES
    }

    /// The configuration fields of two events agree; only the tally may
    /// differ.
    pub open spec fn same_config(self, other: EventAccount) -> bool {
        &&& self.creator == other.creator
        &&& self.title == other.title
        &&& self.description == other.description
        &&& self.choices == other.choices
        &&& self.deadline == other.deadline
        &&& self.max_plus_votes == other.max_plus_votes
        &&& self.allow_minus == other.allow_minus
        &&& self.max_minus_votes == other.max_minus_votes
        &&& self.min_plus_for_minus == other.min_plus_for_minus
    }
}

/// The one-shot voting record of a single voter on a single event.
#[derive(Clone, Debug, PartialEq, Eq)]
pub struct VoteAccount {
    /// Identity of the voter.
    pub voter: AccountId,
    /// Starts false; flips to true exactly once, when a ballot is accepted.
    pub has_voted: bool,
    /// The accepted positive choice indices.
    pub plus_choices: Vec<u8>,
    /// The accepted negative choice indices.
    pub minus_choices: Vec<u8>,
}

} // verus!
