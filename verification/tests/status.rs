use governance::decimal::Decimal;
use governance::state::{
    votes_needed, BlockInfo, Expiration, Proposal, Status, Threshold, Vote, Votes,
};

fn proposal(threshold: Threshold, total_weight: u128, votes: Votes) -> Proposal {
    Proposal {
        title: "gov proposal".to_string(),
        description: "a proposal".to_string(),
        start_height: 1,
        expires: Expiration::AtHeight(1000),
        status: Status::Open,
        threshold,
        total_weight,
        votes,
        deposit: Vec::new(),
        proposer: "proposer".to_string(),
        token_denom: "denom".to_string(),
        deposit_refunded: false,
        min_deposit: 0,
        deposit_denom: "denom".to_string(),
        current_deposit: 0,
    }
}

fn open_block() -> BlockInfo {
    BlockInfo { height: 10, time: 10 }
}

#[test]
fn absolute_percentage_sixty_of_hundred_passes() {
    let votes = Votes { yes: 60, no: 0, abstain: 0, veto: 0 };
    let p = proposal(
        Threshold::AbsolutePercentage { percentage: Decimal::percent(60) },
        100,
        votes,
    );
    assert_eq!(votes_needed(100, Decimal::percent(60)), 60);
    assert!(p.is_passed(&open_block()));
    assert_eq!(p.current_status(&open_block()), Status::Passed);

    let fewer = proposal(
        Threshold::AbsolutePercentage { percentage: Decimal::percent(60) },
        100,
        Votes { yes: 59, no: 0, abstain: 0, veto: 0 },
    );
    assert!(!fewer.is_passed(&open_block()));
}

#[test]
fn fifty_percent_of_fifteen_rounds_up_to_eight() {
    assert_eq!(votes_needed(15, Decimal::percent(50)), 8);

    let seven = proposal(
        Threshold::AbsolutePercentage { percentage: Decimal::percent(50) },
        15,
        Votes { yes: 7, no: 0, abstain: 0, veto: 0 },
    );
    assert!(!seven.is_passed(&open_block()));

    let eight = proposal(
        Threshold::AbsolutePercentage { percentage: Decimal::percent(50) },
        15,
        Votes { yes: 8, no: 0, abstain: 0, veto: 0 },
    );
    assert!(eight.is_passed(&open_block()));
}

#[test]
fn quorum_unmet_keeps_proposal_open() {
    // 10 of 100 cast, quorum 30%: not sure to pass, not sure to fail.
    let p = proposal(
        Threshold::ThresholdQuorum {
            threshold: Decimal::percent(50),
            quorum: Decimal::percent(30),
        },
        100,
        Votes { yes: 10, no: 0, abstain: 0, veto: 0 },
    );
    let block = open_block();
    assert!(!p.is_passed(&block));
    assert!(!p.is_rejected(&block));
    assert_eq!(p.current_status(&block), Status::Open);
}

#[test]
fn threshold_quorum_pessimistic_before_expiration() {
    // 33 of 100 cast, all yes: quorum met, but 50% of the 100 possible
    // opinions is not cleared before expiration.
    let t = Threshold::ThresholdQuorum {
        threshold: Decimal::percent(50),
        quorum: Decimal::percent(30),
    };
    let early = proposal(t, 100, Votes { yes: 33, no: 0, abstain: 0, veto: 0 });
    let block = open_block();
    assert!(!early.is_passed(&block));

    // After expiration the denominator is the cast opinions alone.
    let expired_block = BlockInfo { height: 1000, time: 10 };
    assert!(early.is_passed(&expired_block));
    assert_eq!(early.current_status(&expired_block), Status::Passed);
}

#[test]
fn absolute_count_resolves_immediately() {
    let t = Threshold::AbsoluteCount { weight: 10 };
    let p = proposal(t, 100, Votes { yes: 10, no: 0, abstain: 0, veto: 0 });
    assert!(p.is_passed(&open_block()));

    // 91 no of 100 leaves fewer than 10 possible yes votes.
    let q = proposal(t, 100, Votes { yes: 0, no: 91, abstain: 0, veto: 0 });
    assert!(q.is_rejected(&open_block()));
    assert_eq!(q.current_status(&open_block()), Status::Rejected);
}

#[test]
fn expiration_rejects_an_open_proposal() {
    let p = proposal(
        Threshold::AbsoluteCount { weight: 50 },
        100,
        Votes { yes: 1, no: 0, abstain: 0, veto: 0 },
    );
    let expired_block = BlockInfo { height: 1000, time: 10 };
    assert_eq!(p.current_status(&expired_block), Status::Rejected);
}

#[test]
fn current_status_is_repeatable_and_pure() {
    let p = proposal(
        Threshold::AbsoluteCount { weight: 10 },
        100,
        Votes { yes: 10, no: 0, abstain: 0, veto: 0 },
    );
    let block = open_block();
    let first = p.current_status(&block);
    let second = p.current_status(&block);
    assert_eq!(first, second);
    assert_eq!(p.status, Status::Open); // the query mutated nothing
}

#[test]
fn terminal_status_never_regresses() {
    let mut p = proposal(
        Threshold::AbsoluteCount { weight: 10 },
        100,
        Votes { yes: 10, no: 0, abstain: 0, veto: 0 },
    );
    p.update_status(&open_block());
    assert_eq!(p.status, Status::Passed);

    // A flood of later no votes and a later clock change nothing.
    p.votes.add_vote(Vote::No, 90);
    let much_later = BlockInfo { height: 100_000, time: 100_000 };
    assert_eq!(p.current_status(&much_later), Status::Passed);
    p.update_status(&much_later);
    assert_eq!(p.status, Status::Passed);
}

#[test]
fn expiration_predicates() {
    let block = BlockInfo { height: 100, time: 5000 };
    assert!(Expiration::AtHeight(100).is_expired(&block));
    assert!(!Expiration::AtHeight(101).is_expired(&block));
    assert!(Expiration::AtTime(5000).is_expired(&block));
    assert!(!Expiration::AtTime(5001).is_expired(&block));
    assert!(!Expiration::Never.is_expired(&block));
}

#[test]
fn tally_accumulates_per_bucket() {
    let mut v = Votes::yes(5);
    assert_eq!(v.total(), 5);
    v.add_vote(Vote::No, 3);
    v.add_vote(Vote::Abstain, 2);
    v.add_vote(Vote::Veto, 1);
    v.add_vote(Vote::Yes, 4);
    assert_eq!(v.yes, 9);
    assert_eq!(v.no, 3);
    assert_eq!(v.abstain, 2);
    assert_eq!(v.veto, 1);
    assert_eq!(v.total(), 15);
}

#[test]
fn votes_needed_is_monotone_on_samples() {
    let half = Decimal::percent(50);
    assert!(votes_needed(10, half) <= votes_needed(11, half));
    assert!(votes_needed(11, half) <= votes_needed(12, half));
    assert!(votes_needed(100, Decimal::percent(50)) <= votes_needed(100, Decimal::percent(51)));
    // exact ceiling samples
    assert_eq!(votes_needed(100, Decimal::percent(50)), 50);
    assert_eq!(votes_needed(101, Decimal::percent(50)), 51);
    assert_eq!(votes_needed(0, Decimal::percent(50)), 0);
    assert_eq!(votes_needed(15, Decimal::one()), 15);
}
