use vstd::prelude::*;

use crate::error::ContractError;
use crate::state::{Ballot, Vote, Votes};

verus! {

/// One recorded ballot together with the (proposal, voter) key it is stored
/// under.
#[derive(Clone, Debug)]
pub struct BallotEntry {
    pub proposal_id: u64,
    pub voter: String,
    pub ballot: Ballot,
}

/// Whether an entry is stored under the given key.
pub open spec fn entry_matches(entry: BallotEntry, proposal_id: u64, voter: Seq<char>) -> bool {
    entry.proposal_id == proposal_id && entry.voter@ == voter
}

/// The per-voter-per-proposal record of cast votes. Its uniqueness check is
/// the sole guarantee against double counting: the tally itself has no
/// memory of who voted.
pub struct BallotLedger {
    pub ballots: Vec<BallotEntry>,
}

impl BallotLedger {
    /// A ballot exists for this (proposal, voter) key.
    pub open spec fn has_ballot(self, proposal_id: u64, voter: Seq<char>) -> bool {
        exists|i: int|
            0 <= i < self.ballots@.len() && entry_matches(
                #[trigger] self.ballots@[i],
                proposal_id,
                voter,
            )
    }

    /// At most one ballot per (proposal, voter) key.
    pub open spec fn wf(self) -> bool {
        forall|i: int, j: int|
            #![trigger self.ballots@[i], self.ballots@[j]]
            0 <= i < j < self.ballots@.len() ==> !entry_matches(
                self.ballots@[j],
                self.ballots@[i].proposal_id,
                self.ballots@[i].voter@,
            )
    }

    /// An empty ledger: nobody has voted yet.
    pub fn new() -> (r: BallotLedger)
        ensures
            r.ballots@.len() == 0,
            r.wf(),
    {
        BallotLedger { ballots: Vec::new() }
    }

    /// Whether a ballot is already recorded under this key.
    pub fn has_ballot_for(&self, proposal_id: u64, voter: &String) -> (r: bool)
        ensures
            r == self.has_ballot(proposal_id, voter@),
    {
        let n = self.ballots.len();
        let mut i: usize = 0;
        while i < n
            invariant
                i <= n == self.ballots@.len(),
                forall|j: int|
                    0 <= j < i ==> !entry_matches(#[trigger] self.ballots@[j], proposal_id, voter@),
            decreases n - i,
        {
            if self.ballots[i].proposal_id == proposal_id && self.ballots[i].voter == *voter {
                return true;
            }
            i = i + 1;
        }
        false
    }

    /// Records a ballot and forwards its weight to the proposal's tally,
    /// unless this voter has already voted on this proposal: a second cast
    /// under the same key fails with `AlreadyVoted` and changes nothing.
    pub fn cast(
        &mut self,
        proposal_id: u64,
        voter: String,
        vote: Vote,
        weight: u128,
        votes: &mut Votes,
    ) -> (r: Result<(), ContractError>)
        requires
            old(self).wf(),
            old(votes).can_add(vote, weight),
        ensures
            final(self).wf(),
            old(self).has_ballot(proposal_id, voter@) ==> {
                &&& r == Err::<(), ContractError>(ContractError::AlreadyVoted)
                &&& final(self).ballots@ == old(self).ballots@
                &&& *final(votes) == *old(votes)
            },
            !old(self).has_ballot(proposal_id, voter@) ==> {
                &&& r == Ok::<(), ContractError>(())
                &&& final(self).ballots@ == old(self).ballots@.push(
                    (BallotEntry { proposal_id, voter, ballot: Ballot { weight, vote } }),
                )
                &&& *final(votes) == old(votes).add_vote_spec(vote, weight)
            },
    {
        if self.has_ballot_for(proposal_id, &voter) {
            return Err(ContractError::AlreadyVoted);
        }
        self.ballots.push(BallotEntry { proposal_id, voter, ballot: Ballot { weight, vote } });
        votes.add_vote(vote, weight);
        Ok(())
    }
}

} // verus!
