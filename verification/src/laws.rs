use vstd::prelude::*;

use crate::registry::PollContract;
use crate::types::Address;

verus! {

/// Law: a poll on which no vote has been recorded reports one tally per
/// option, and every one of them is zero. `create_poll`'s contract
/// leaves the new poll exactly in this state, so right after creation
/// `get_results` returns a sequence of zeros of the options' length.
pub proof fn lemma_untouched_poll_zero_results(s: PollContract, poll_id: u32)
    requires
        s.wf(),
        s.spec_poll_exists(poll_id),
        s.spec_poll(poll_id).untouched(),
    ensures
        s.spec_poll(poll_id).votes@.len() == s.spec_poll(poll_id).options@.len(),
        forall|k: int| 0 <= k < s.spec_poll(poll_id).votes@.len() ==> s.spec_poll(
            poll_id,
        ).votes@[k] == 0,
{
    assert(s.spec_poll(poll_id).wf());
}

/// Law: once a poll is inactive, no vote on it is ever accepted, whoever
/// votes and whatever option they pick. `close_poll`'s contract leaves
/// the poll inactive and nothing ever sets a poll active again, so a
/// vote after a successful close comes back `false`.
pub proof fn lemma_closed_poll_rejects_votes(
    s: PollContract,
    voter: Address,
    poll_id: u32,
    option_index: u32,
)
    requires
        s.spec_poll_exists(poll_id),
        !s.spec_poll(poll_id).is_active,
    ensures
        !s.vote_accepted(voter, poll_id, option_index),
{
}

/// Law: a voter already on record for a poll is never accepted on it
/// again. `vote`'s contract puts the voter on record the first time it
/// returns `true` and never removes a record, so a second vote by the
/// same voter on the same poll comes back `false`.
pub proof fn lemma_no_double_vote(
    s: PollContract,
    voter: Address,
    poll_id: u32,
    option_index: u32,
)
    requires
        s.spec_has_voted(poll_id, voter),
    ensures
        !s.vote_accepted(voter, poll_id, option_index),
{
}

} // verus!
