use vstd::prelude::*;

verus! {

/// Fewest options a poll may offer.
pub const MIN_OPTIONS: usize = 2;

/// Most options a poll may offer.
pub const MAX_OPTIONS: usize = 10;

/// An account identity, reduced to the plain value the registry compares.
/// Proving that a caller controls an identity is the authorization
/// collaborator's job; the registry only receives that check's outcome.
#[derive(Clone, Copy, PartialEq, Eq, Structural, Debug)]
pub struct Address {
    pub value: u64,
}

/// A hard failure: the operation aborts with no state change.
/// Policy rejections (double votes, closed polls, wrong closer) are not
/// errors; they come back as a plain `false`.
#[derive(Clone, Copy, PartialEq, Eq, Structural, Debug)]
pub enum PollError {
    /// The caller did not prove control of the identity it named.
    Unauthorized,
    /// The number of options lies outside `[MIN_OPTIONS, MAX_OPTIONS]`.
    InvalidInput,
    /// No poll carries the given identifier.
    NotFound,
}

/// One question under vote: a fixed, ordered set of options, a running
/// tally per option, the creator who alone may close it, and a flag that
/// moves from active to closed exactly once.
pub struct Poll {
    pub id: u32,
    pub question: String,
    pub options: Vec<String>,
    pub votes: Vec<u32>,
    pub creator: Address,
    pub created_at: u64,
    pub is_active: bool,
}

impl Poll {
    /// Tallies line up one-to-one with options, and the option count is
    /// in the accepted range.
    pub open spec fn wf(self) -> bool {
        &&& self.votes@.len() == self.options@.len()
        &&& MIN_OPTIONS <= self.options@.len() <= MAX_OPTIONS
    }

    /// No vote has been recorded on this poll yet.
    pub open spec fn untouched(self) -> bool {
        forall|k: int| 0 <= k < self.votes@.len() ==> self.votes@[k] == 0
    }

    /// What a poll looks like the moment `create_poll` builds it.
    pub open spec fn freshly_created(
        self,
        id: u32,
        question: String,
        options: Vec<String>,
        creator: Address,
        now: u64,
    ) -> bool {
        &&& self.id == id
        &&& self.question == question
        &&& self.options == options
        &&& self.votes@.len() == options@.len()
        &&& self.untouched()
        &&& self.creator == creator
        &&& self.created_at == now
        &&& self.is_active
    }
}

/// A permanent marker: `voter` has voted on poll `poll_id`.
#[derive(Clone, Copy, PartialEq, Eq, Structural, Debug)]
pub struct VoteRecord {
    pub poll_id: u32,
    pub voter: Address,
}

} // verus!
