use vstd::prelude::*;

use crate::types::{Address, Poll, PollError, VoteRecord, MAX_OPTIONS, MIN_OPTIONS};

verus! {

/// The poll registry: the sole owner of the polls, the vote markers, and
/// the identifier counter. Identifiers are dense: the poll with id `i`
/// sits at index `i - 1`, so the counter is the number of polls.
pub struct PollContract {
    pub polls: Vec<Poll>,
    pub voted: Vec<VoteRecord>,
}

impl PollContract {
    /// The identifier last assigned; 0 while no poll exists.
    pub open spec fn spec_poll_count(self) -> int {
        self.polls@.len() as int
    }

    /// Whether a poll carries the identifier `poll_id`.
    pub open spec fn spec_poll_exists(self, poll_id: u32) -> bool {
        1 <= poll_id <= self.polls@.len()
    }

    /// The poll with identifier `poll_id` (meaningful when it exists).
    pub open spec fn spec_poll(self, poll_id: u32) -> Poll {
        self.polls@[poll_id - 1]
    }

    /// Whether a vote by `voter` on poll `poll_id` is on record.
    pub open spec fn spec_has_voted(self, poll_id: u32, voter: Address) -> bool {
        exists|i: int|
            0 <= i < self.voted@.len() && (#[trigger] self.voted@[i]).poll_id == poll_id
                && self.voted@[i].voter == voter
    }

    /// Whether a vote by `voter` on poll `poll_id` for option
    /// `option_index` passes every policy check: no earlier vote by the
    /// same voter, the poll exists, it is still active, and the option
    /// index is in range.
    pub open spec fn vote_accepted(self, voter: Address, poll_id: u32, option_index: u32) -> bool {
        &&& !self.spec_has_voted(poll_id, voter)
        &&& self.spec_poll_exists(poll_id)
        &&& self.spec_poll(poll_id).is_active
        &&& option_index < self.spec_poll(poll_id).options@.len()
    }

    /// The registry's invariant: the counter fits its width, every poll
    /// is well formed and sits at the slot its identifier names, every
    /// vote marker names an existing poll, and no tally exceeds the
    /// number of recorded votes.
    pub open spec fn wf(self) -> bool {
        &&& self.polls@.len() <= u32::MAX
        &&& forall|i: int| 0 <= i < self.polls@.len() ==> (#[trigger] self.polls@[i]).wf()
        &&& forall|i: int| 0 <= i < self.polls@.len() ==> (#[trigger] self.polls@[i]).id == i + 1
        &&& forall|i: int|
            0 <= i < self.voted@.len() ==> 1 <= (#[trigger] self.voted@[i]).poll_id
                <= self.polls@.len()
        &&& forall|i: int, k: int|
            0 <= i < self.polls@.len() && 0 <= k < self.polls@[i].votes@.len() ==> (
            #[trigger] self.polls@[i].votes@[k]) <= self.voted@.len()
    }

    /// A registry with no polls, no vote markers, and the counter at 0.
    pub fn new() -> (r: PollContract)
        ensures
            r.wf(),
            r.spec_poll_count() == 0,
            r.voted@.len() == 0,
    {
        PollContract { polls: Vec::new(), voted: Vec::new() }
    }

    /// Reserved one-time setup hook; the registry needs no setup today.
    pub fn initialize(&self)
    {
    }

    /// The identifier last assigned by `create_poll`; 0 while no poll
    /// exists.
    pub fn get_poll_count(&self) -> (r: u32)
        requires
            self.wf(),
        ensures
            r == self.spec_poll_count(),
    {
        self.polls.len() as u32
    }

    /// Create a poll owned by `creator`, assign it the next identifier,
    /// and start every tally at zero. `authorized` is the authorization
    /// collaborator's verdict on the caller's claim to `creator`; `now`
    /// is the clock collaborator's reading. Fails with `Unauthorized`
    /// when the claim was not proven and with `InvalidInput` when the
    /// option count is out of range; either failure leaves the registry
    /// untouched. The counter is a `u32`, so a caller must not have
    /// exhausted it: that machine limit is the only demand beyond the
    /// registry's own invariant.
    pub fn create_poll(
        &mut self,
        creator: Address,
        authorized: bool,
        question: String,
        options: Vec<String>,
        now: u64,
    ) -> (result: Result<u32, PollError>)
        requires
            old(self).wf(),
            old(self).spec_poll_count() < u32::MAX,
        ensures
            final(self).wf(),
            !authorized ==> result == Err::<u32, PollError>(PollError::Unauthorized) && *final(self)
                == *old(self),
            authorized && !(MIN_OPTIONS <= options@.len() <= MAX_OPTIONS) ==> result == Err::<
                u32,
                PollError,
            >(PollError::InvalidInput) && *final(self) == *old(self),
            authorized && MIN_OPTIONS <= options@.len() <= MAX_OPTIONS ==> {
                &&& result == Ok::<u32, PollError>((old(self).spec_poll_count() + 1) as u32)
                &&& final(self).spec_poll_count() == old(self).spec_poll_count() + 1
                &&& final(self).voted == old(self).voted
                &&& forall|j: int|
                    0 <= j < old(self).polls@.len() ==> final(self).polls@[j] == old(
                        self,
                    ).polls@[j]
                &&& final(self).polls@.last().freshly_created(
                    (old(self).spec_poll_count() + 1) as u32,
                    question,
                    options,
                    creator,
                    now,
                )
            },
    {
        if !authorized {
            return Err(PollError::Unauthorized);
        }
        let n: usize = options.len();
        if n < MIN_OPTIONS || n > MAX_OPTIONS {
            return Err(PollError::InvalidInput);
        }
        let poll_id: u32 = self.polls.len() as u32 + 1;
        let mut votes: Vec<u32> = Vec::new();
        while votes.len() < n
            invariant
                votes@.len() <= n,
                forall|k: int| 0 <= k < votes@.len() ==> votes@[k] == 0,
            decreases n - votes@.len(),
        {
            votes.push(0u32);
        }
        let poll = Poll {
            id: poll_id,
            question,
            options,
            votes,
            creator,
            created_at: now,
            is_active: true,
        };
        self.polls.push(poll);
        Ok(poll_id)
    }

    /// Whether `voter` has a vote on record for poll `poll_id`; an
    /// unknown poll or voter simply reads as `false`. Public: no
    /// authorization is asked.
    pub fn has_voted(&self, poll_id: u32, voter: Address) -> (r: bool)
        ensures
            r == self.spec_has_voted(poll_id, voter),
    {
        let mut i: usize = 0;
        while i < self.voted.len()
            invariant
                i <= self.voted@.len(),
                forall|j: int|
                    0 <= j < i ==> !((#[trigger] self.voted@[j]).poll_id == poll_id
                        && self.voted@[j].voter == voter),
            decreases self.voted@.len() - i,
        {
            if self.voted[i].poll_id == poll_id && self.voted[i].voter == voter {
                return true;
            }
            i += 1;
        }
        false
    }

    /// Record a vote by `voter` on poll `poll_id` for option
    /// `option_index`. `authorized` is the authorization collaborator's
    /// verdict on the caller's claim to `voter`. An unproven claim fails
    /// with `Unauthorized`; a repeat voter gets a soft `false` before
    /// the poll is even looked up; a missing poll fails with `NotFound`;
    /// a closed poll or an out-of-range option gets a soft `false`. An
    /// accepted vote raises exactly one tally by exactly 1 and puts the
    /// voter on record; every other outcome leaves the registry
    /// untouched. Tallies are `u32`s and never exceed the number of
    /// recorded votes, so the one demand beyond the registry's own
    /// invariant is that fewer than `u32::MAX` votes are on record.
    pub fn vote(
        &mut self,
        voter: Address,
        authorized: bool,
        poll_id: u32,
        option_index: u32,
    ) -> (result: Result<bool, PollError>)
        requires
            old(self).wf(),
            old(self).voted@.len() < u32::MAX,
        ensures
            final(self).wf(),
            !authorized ==> result == Err::<bool, PollError>(PollError::Unauthorized)
                && *final(self) == *old(self),
            authorized && old(self).spec_has_voted(poll_id, voter) ==> result == Ok::<
                bool,
                PollError,
            >(false) && *final(self) == *old(self),
            authorized && !old(self).spec_has_voted(poll_id, voter) && !old(self).spec_poll_exists(
                poll_id,
            ) ==> result == Err::<bool, PollError>(PollError::NotFound)
                && *final(self) == *old(self),
            authorized && !old(self).spec_has_voted(poll_id, voter) && old(self).spec_poll_exists(
                poll_id,
            ) ==> result == Ok::<bool, PollError>(
                old(self).vote_accepted(voter, poll_id, option_index),
            ),
            authorized && !old(self).spec_has_voted(poll_id, voter) && old(self).spec_poll_exists(
                poll_id,
            ) && !old(self).vote_accepted(voter, poll_id, option_index)
                ==> *final(self) == *old(self),
            authorized && old(self).vote_accepted(voter, poll_id, option_index) ==> {
                &&& final(self).voted@ == old(self).voted@.push(VoteRecord { poll_id, voter })
                &&& final(self).spec_has_voted(poll_id, voter)
                &&& final(self).polls@.len() == old(self).polls@.len()
                &&& forall|j: int|
                    0 <= j < old(self).polls@.len() && j != poll_id - 1 ==> final(self).polls@[j]
                        == old(self).polls@[j]
                &&& final(self).spec_poll(poll_id).votes@ == old(self).spec_poll(
                    poll_id,
                ).votes@.update(
                    option_index as int,
                    (old(self).spec_poll(poll_id).votes@[option_index as int] + 1) as u32,
                )
                &&& final(self).spec_poll(poll_id).id == old(self).spec_poll(poll_id).id
                &&& final(self).spec_poll(poll_id).question == old(self).spec_poll(poll_id).question
                &&& final(self).spec_poll(poll_id).options == old(self).spec_poll(poll_id).options
                &&& final(self).spec_poll(poll_id).creator == old(self).spec_poll(poll_id).creator
                &&& final(self).spec_poll(poll_id).created_at == old(self).spec_poll(
                    poll_id,
                ).created_at
                &&& final(self).spec_poll(poll_id).is_active
            },
    {
        if !authorized {
            return Err(PollError::Unauthorized);
        }
        if self.has_voted(poll_id, voter) {
            return Ok(false);
        }
        if poll_id < 1 || poll_id as usize > self.polls.len() {
            return Err(PollError::NotFound);
        }
        let idx: usize = (poll_id - 1) as usize;
        if !self.polls[idx].is_active {
            return Ok(false);
        }
        if option_index as usize >= self.polls[idx].options.len() {
            return Ok(false);
        }
        let oi: usize = option_index as usize;
        let cur: u32 = self.polls[idx].votes[oi];
        self.polls[idx].votes.set(oi, cur + 1);
        self.voted.push(VoteRecord { poll_id, voter });
        proof {
            let w: int = self.voted@.len() - 1;
            assert(self.voted@[w].poll_id == poll_id && self.voted@[w].voter == voter);
        }
        Ok(true)
    }

    /// Close poll `poll_id` so that no further vote is ever accepted on
    /// it. `authorized` is the authorization collaborator's verdict on
    /// the caller's claim to `creator`. An unproven claim fails with
    /// `Unauthorized`; a missing poll fails with `NotFound`; an identity
    /// other than the poll's creator gets a soft `false` and changes
    /// nothing. The creator gets `true`, also on a poll that is already
    /// closed: closing is idempotent and never reactivates a poll.
    pub fn close_poll(&mut self, creator: Address, authorized: bool, poll_id: u32) -> (result:
        Result<bool, PollError>)
        requires
            old(self).wf(),
        ensures
            final(self).wf(),
            !authorized ==> result == Err::<bool, PollError>(PollError::Unauthorized)
                && *final(self) == *old(self),
            authorized && !old(self).spec_poll_exists(poll_id) ==> result == Err::<
                bool,
                PollError,
            >(PollError::NotFound) && *final(self) == *old(self),
            authorized && old(self).spec_poll_exists(poll_id) && old(self).spec_poll(
                poll_id,
            ).creator != creator ==> result == Ok::<bool, PollError>(false)
                && *final(self) == *old(self),
            authorized && old(self).spec_poll_exists(poll_id) && old(self).spec_poll(
                poll_id,
            ).creator == creator ==> {
                &&& result == Ok::<bool, PollError>(true)
                &&& final(self).voted == old(self).voted
                &&& final(self).polls@.len() == old(self).polls@.len()
                &&& forall|j: int|
                    0 <= j < old(self).polls@.len() && j != poll_id - 1 ==> final(self).polls@[j]
                        == old(self).polls@[j]
                &&& !final(self).spec_poll(poll_id).is_active
                &&& final(self).spec_poll(poll_id).id == old(self).spec_poll(poll_id).id
                &&& final(self).spec_poll(poll_id).question == old(self).spec_poll(poll_id).question
                &&& final(self).spec_poll(poll_id).options == old(self).spec_poll(poll_id).options
                &&& final(self).spec_poll(poll_id).votes == old(self).spec_poll(poll_id).votes
                &&& final(self).spec_poll(poll_id).creator == old(self).spec_poll(poll_id).creator
                &&& final(self).spec_poll(poll_id).created_at == old(self).spec_poll(
                    poll_id,
                ).created_at
            },
    {
        if !authorized {
            return Err(PollError::Unauthorized);
        }
        if poll_id < 1 || poll_id as usize > self.polls.len() {
            return Err(PollError::NotFound);
        }
        let idx: usize = (poll_id - 1) as usize;
        if self.polls[idx].creator != creator {
            return Ok(false);
        }
        self.polls[idx].is_active = false;
        Ok(true)
    }

    /// The poll with identifier `poll_id`; fails with `NotFound` when
    /// none carries it. Public: poll metadata and tallies are open to
    /// everyone.
    pub fn get_poll(&self, poll_id: u32) -> (result: Result<&Poll, PollError>)
        requires
            self.wf(),
        ensures
            self.spec_poll_exists(poll_id) ==> (result matches Ok(p) && *p == self.spec_poll(
                poll_id,
            )),
            !self.spec_poll_exists(poll_id) ==> result == Err::<&Poll, PollError>(
                PollError::NotFound,
            ),
    {
        if poll_id >= 1 && poll_id as usize <= self.polls.len() {
            Ok(&self.polls[(poll_id - 1) as usize])
        } else {
            Err(PollError::NotFound)
        }
    }

    /// The running tallies of poll `poll_id`, one entry per option, in
    /// option order; fails with `NotFound` when no poll carries the
    /// identifier.
    pub fn get_results(&self, poll_id: u32) -> (result: Result<Vec<u32>, PollError>)
        requires
            self.wf(),
        ensures
            self.spec_poll_exists(poll_id) ==> (result matches Ok(v) && v@ == self.spec_poll(
                poll_id,
            ).votes@),
            !self.spec_poll_exists(poll_id) ==> result == Err::<Vec<u32>, PollError>(
                PollError::NotFound,
            ),
    {
        match self.get_poll(poll_id) {
            Ok(p) => {
                let mut out: Vec<u32> = Vec::new();
                let mut i: usize = 0;
                while i < p.votes.len()
                    invariant
                        i <= p.votes@.len(),
                        out@.len() == i,
                        forall|j: int| 0 <= j < i ==> out@[j] == p.votes@[j],
                    decreases p.votes@.len() - i,
                {
                    out.push(p.votes[i]);
                    i += 1;
                }
                proof {
                    assert(out@ =~= p.votes@);
                }
                Ok(out)
            },
            Err(e) => Err(e),
        }
    }

    /// Every assigned poll identifier, in ascending order: the dense
    /// range from 1 to the counter, empty while no poll exists.
    pub fn get_all_poll_ids(&self) -> (r: Vec<u32>)
        requires
            self.wf(),
        ensures
            r@.len() == self.spec_poll_count(),
            forall|j: int| 0 <= j < r@.len() ==> r@[j] == j + 1,
    {
        let count: u32 = self.get_poll_count();
        let mut ids: Vec<u32> = Vec::new();
        let mut i: u32 = 0;
        while i < count
            invariant
                i <= count,
                ids@.len() == i,
                forall|j: int| 0 <= j < i ==> ids@[j] == j + 1,
            decreases count - i,
        {
            i += 1;
            ids.push(i);
        }
        ids
    }
}

} // verus!
