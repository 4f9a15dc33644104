use governance::error::ContractError;
use governance::ledger::BallotLedger;
use governance::state::{Vote, Votes};

#[test]
fn double_vote_is_rejected_and_not_counted() {
    let mut ledger = BallotLedger::new();
    let mut votes = Votes { yes: 0, no: 0, abstain: 0, veto: 0 };

    ledger
        .cast(1, "alice".to_string(), Vote::Yes, 10, &mut votes)
        .unwrap();
    assert_eq!(votes.total(), 10);

    // The second cast under the same (proposal, voter) key fails, even with
    // another choice and weight, and the tally reflects only the first.
    let err = ledger
        .cast(1, "alice".to_string(), Vote::No, 25, &mut votes)
        .unwrap_err();
    assert_eq!(err, ContractError::AlreadyVoted);
    assert_eq!(votes.total(), 10);
    assert_eq!(votes.no, 0);
}

#[test]
fn other_voters_and_other_proposals_still_count() {
    let mut ledger = BallotLedger::new();
    let mut votes = Votes { yes: 0, no: 0, abstain: 0, veto: 0 };

    ledger
        .cast(1, "alice".to_string(), Vote::Yes, 10, &mut votes)
        .unwrap();
    ledger
        .cast(1, "bob".to_string(), Vote::No, 5, &mut votes)
        .unwrap();
    assert_eq!(votes.yes, 10);
    assert_eq!(votes.no, 5);

    // The same voter may vote on a different proposal.
    let mut other_votes = Votes { yes: 0, no: 0, abstain: 0, veto: 0 };
    ledger
        .cast(2, "alice".to_string(), Vote::Abstain, 7, &mut other_votes)
        .unwrap();
    assert_eq!(other_votes.abstain, 7);

    assert!(ledger.has_ballot_for(1, &"alice".to_string()));
    assert!(ledger.has_ballot_for(2, &"alice".to_string()));
    assert!(!ledger.has_ballot_for(2, &"bob".to_string()));
}
