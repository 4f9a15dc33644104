use vstd::prelude::*;

use crate::decimal::{Decimal, DECIMAL_FRACTIONAL};

verus! {

/// Scaling factor used when rounding a fractional requirement up to a whole
/// number of votes: votes are counted in units of 10^-9 of the weight total
/// before the final ceiling division.
pub const PRECISION_FACTOR: u128 = 1_000_000_000;

/// Largest weight denominator the arithmetic accepts: keeps
/// `weight * fraction.atomics` inside u128 for every fraction up to 1.0.
pub const MAX_WEIGHT: u128 = u128::MAX / DECIMAL_FRACTIONAL;

/// Lifecycle of a proposal. `Open` may advance to `Passed` or `Rejected`;
/// both of those are terminal.
#[derive(Clone, Copy, Debug, PartialEq, Eq, Structural)]
pub enum Status {
    Open,
    Passed,
    Rejected,
}

/// One voter's choice.
#[derive(Clone, Copy, Debug, PartialEq, Eq, Structural)]
pub enum Vote {
    Yes,
    No,
    Abstain,
    Veto,
}

/// The clock reading supplied by the caller on every status check: a block
/// height together with the block time in nanoseconds. The core never reads
/// a clock itself.
#[derive(Clone, Copy, Debug, PartialEq, Eq, Structural)]
pub struct BlockInfo {
    pub height: u64,
    /// Block time in nanoseconds since the epoch.
    pub time: u64,
}

/// When a proposal's voting window closes: at a block height, at a block
/// time (nanoseconds), or never.
#[derive(Clone, Copy, Debug, PartialEq, Eq, Structural)]
pub enum Expiration {
    AtHeight(u64),
    AtTime(u64),
    Never,
}

impl Expiration {
    /// Whether the window is closed at the given clock reading.
    pub open spec fn is_expired_spec(self, block: BlockInfo) -> bool {
        match self {
            Expiration::AtHeight(height) => block.height >= height,
            Expiration::AtTime(time) => block.time >= time,
            Expiration::Never => false,
        }
    }

    pub fn is_expired(&self, block: &BlockInfo) -> (r: bool)
        ensures
            r == self.is_expired_spec(*block),
    {
        match self {
            Expiration::AtHeight(height) => block.height >= *height,
            Expiration::AtTime(time) => block.time >= *time,
            Expiration::Never => false,
        }
    }
}

/// The pass requirement of one proposal; exactly one policy applies and it
/// never changes after creation.
#[derive(Clone, Copy, Debug, PartialEq, Eq, Structural)]
pub enum Threshold {
    /// Pass requires `yes` to reach a fixed weight.
    AbsoluteCount { weight: u128 },
    /// Pass requires `yes` to reach a fraction of (total weight - abstain).
    AbsolutePercentage { percentage: Decimal },
    /// Pass requires a minimum participation fraction of the total weight
    /// (`quorum`) and a pass fraction (`threshold`) of the opinion pool.
    ThresholdQuorum { threshold: Decimal, quorum: Decimal },
}

/// Aggregate vote weight per option for one proposal. Append-only: weights
/// only grow, and uniqueness per voter is the ballot ledger's job.
#[derive(Clone, Copy, Debug, PartialEq, Eq, Structural)]
pub struct Votes {
    pub yes: u128,
    pub no: u128,
    pub abstain: u128,
    pub veto: u128,
}

impl Votes {
    /// Sum of all four buckets, as a mathematical integer.
    pub open spec fn total_spec(self) -> int {
        self.yes + self.no + self.abstain + self.veto
    }

    /// The tally after adding `weight` to the bucket chosen by `vote`.
    pub open spec fn add_vote_spec(self, vote: Vote, weight: u128) -> Votes {
        match vote {
            Vote::Yes => Votes { yes: (self.yes + weight) as u128, ..self },
            Vote::No => Votes { no: (self.no + weight) as u128, ..self },
            Vote::Abstain => Votes { abstain: (self.abstain + weight) as u128, ..self },
            Vote::Veto => Votes { veto: (self.veto + weight) as u128, ..self },
        }
    }

    /// Whether `weight` more in the bucket chosen by `vote` still fits.
    pub open spec fn can_add(self, vote: Vote, weight: u128) -> bool {
        match vote {
            Vote::Yes => self.yes + weight <= u128::MAX,
            Vote::No => self.no + weight <= u128::MAX,
            Vote::Abstain => self.abstain + weight <= u128::MAX,
            Vote::Veto => self.veto + weight <= u128::MAX,
        }
    }

    /// Sum of all votes.
    pub fn total(&self) -> (r: u128)
        requires
            self.total_spec() <= u128::MAX,
        ensures
            r == self.total_spec(),
    {
        self.yes + self.no + self.abstain + self.veto
    }

    /// A fresh tally holding an initial yes vote of the given weight (used
    /// when a proposal's creator casts a yes vote at creation).
    pub fn yes(init_weight: u128) -> (r: Votes)
        ensures
            r == (Votes { yes: init_weight, no: 0, abstain: 0, veto: 0 }),
    {
        Votes { yes: init_weight, no: 0, abstain: 0, veto: 0 }
    }

    /// Adds `weight` to the bucket selected by `vote`; the other buckets are
    /// untouched.
    pub fn add_vote(&mut self, vote: Vote, weight: u128)
        requires
            old(self).can_add(vote, weight),
        ensures
            *final(self) == old(self).add_vote_spec(vote, weight),
    {
        match vote {
            Vote::Yes => self.yes = self.yes + weight,
            Vote::No => self.no = self.no + weight,
            Vote::Abstain => self.abstain = self.abstain + weight,
            Vote::Veto => self.veto = self.veto + weight,
        }
    }
}

/// The minimum integer vote weight that clears `atomics`/10^18 of `weight`:
/// the fraction is applied in units of 10^-9 of a vote (rounding that step
/// down) and the result is then rounded up to a whole vote, so rounding
/// never lowers the bar below the 10^-9 grid.
pub open spec fn votes_needed_spec(weight: int, atomics: int) -> int {
    (weight * atomics / (PRECISION_FACTOR as int) + (PRECISION_FACTOR - 1)) / (
    PRECISION_FACTOR as int)
}

/// Minimum vote weight needed to clear the fraction `percentage` of
/// `weight`, rounding up, in exact integer arithmetic.
pub fn votes_needed(weight: u128, percentage: Decimal) -> (r: u128)
    requires
        weight * percentage.atomics <= u128::MAX,
    ensures
        r == votes_needed_spec(weight as int, percentage.atomics as int),
{
    proof {
        vstd::arithmetic::div_mod::lemma_div_is_ordered(
            weight * percentage.atomics,
            u128::MAX as int,
            PRECISION_FACTOR as int,
        );
    }
    let applied: u128 = weight * percentage.atomics / PRECISION_FACTOR;
    (applied + (PRECISION_FACTOR - 1)) / PRECISION_FACTOR
}

/// An amount of one token denomination, as held in deposits.
#[derive(Clone, Debug, PartialEq, Eq)]
pub struct Coin {
    pub denom: String,
    pub amount: u128,
}

/// Governance configuration: the default threshold policy and the token
/// target it applies to.
#[derive(Clone, Debug, PartialEq)]
pub struct Config {
    pub threshold: Threshold,
    pub target: String,
}

/// One voter's recorded choice and weight for one proposal, immutable once
/// cast. The (proposal, voter) key lives in the ballot ledger.
#[derive(Clone, Copy, Debug, PartialEq, Eq, Structural)]
pub struct Ballot {
    pub weight: u128,
    pub vote: Vote,
}

/// Aggregate vote weight per option, as persisted per proposal.
#[derive(Clone, Copy, Debug, PartialEq, Eq, Structural)]
pub struct VoteWeight {
    pub yes: u128,
    pub no: u128,
    pub abstain: u128,
    pub veto: u128,
}

/// One governance item: metadata, expiration, threshold policy, deposit
/// bookkeeping, and its tally. `total_weight` is the voting-weight
/// denominator snapshotted at creation and never reconciled afterwards.
#[derive(Clone, Debug, PartialEq)]
pub struct Proposal {
    pub title: String,
    pub description: String,
    pub start_height: u64,
    pub expires: Expiration,
    pub status: Status,
    /// Pass requirements.
    pub threshold: Threshold,
    /// The total weight when the proposal started (used for percentages).
    pub total_weight: u128,
    /// Summary of existing votes.
    pub votes: Votes,
    pub deposit: Vec<Coin>,
    pub proposer: String,
    pub token_denom: String,
    pub deposit_refunded: bool,
    pub min_deposit: u64,
    pub deposit_denom: String,
    pub current_deposit: u128,
}

impl Proposal {
    /// Machine-level bounds under which status resolution cannot overflow or
    /// underflow: fractions lie in (0, 1], abstentions do not exceed the
    /// snapshot total, and weights stay below `MAX_WEIGHT`.
    pub open spec fn wf(self) -> bool {
        match self.threshold {
            Threshold::AbsoluteCount { weight } => weight <= self.total_weight,
            Threshold::AbsolutePercentage { percentage } => {
                &&& 0 < percentage.atomics <= DECIMAL_FRACTIONAL
                &&& self.votes.abstain <= self.total_weight
                &&& self.total_weight <= MAX_WEIGHT
            },
            Threshold::ThresholdQuorum { threshold, quorum } => {
                &&& 0 < threshold.atomics <= DECIMAL_FRACTIONAL
                &&& 0 < quorum.atomics <= DECIMAL_FRACTIONAL
                &&& self.votes.abstain <= self.total_weight
                &&& self.total_weight <= MAX_WEIGHT
                &&& self.votes.total_spec() <= MAX_WEIGHT
            },
        }
    }

    /// "Sure to pass even under worst-case future votes": before expiration
    /// the denominator pessimistically counts every weight that could still
    /// vote against; after expiration only cast opinions count.
    pub open spec fn is_passed_spec(self, block: BlockInfo) -> bool {
        match self.threshold {
            Threshold::AbsoluteCount { weight } => self.votes.yes >= weight,
            Threshold::AbsolutePercentage { percentage } => self.votes.yes >= votes_needed_spec(
                self.total_weight - self.votes.abstain,
                percentage.atomics as int,
            ),
            Threshold::ThresholdQuorum { threshold, quorum } => {
                &&& self.votes.total_spec() >= votes_needed_spec(
                    self.total_weight as int,
                    quorum.atomics as int,
                )
                &&& if self.expires.is_expired_spec(block) {
                    self.votes.yes >= votes_needed_spec(
                        self.votes.total_spec() - self.votes.abstain,
                        threshold.atomics as int,
                    )
                } else {
                    self.votes.yes >= votes_needed_spec(
                        self.total_weight - self.votes.abstain,
                        threshold.atomics as int,
                    )
                }
            },
        }
    }

    /// "Sure to be rejected": the symmetric check with `no` against the
    /// complementary fraction. Quorum is deliberately not required here: an
    /// opinion imbalance alone can already make failure certain.
    pub open spec fn is_rejected_spec(self, block: BlockInfo) -> bool {
        match self.threshold {
            Threshold::AbsoluteCount { weight } => self.votes.no > self.total_weight - weight,
            Threshold::AbsolutePercentage { percentage } => self.votes.no > votes_needed_spec(
                self.total_weight - self.votes.abstain,
                DECIMAL_FRACTIONAL - percentage.atomics,
            ),
            Threshold::ThresholdQuorum { threshold, quorum } => {
                if self.expires.is_expired_spec(block) {
                    self.votes.no > votes_needed_spec(
                        self.votes.total_spec() - self.votes.abstain,
                        DECIMAL_FRACTIONAL - threshold.atomics,
                    )
                } else {
                    self.votes.no > votes_needed_spec(
                        self.total_weight - self.votes.abstain,
                        DECIMAL_FRACTIONAL - threshold.atomics,
                    )
                }
            },
        }
    }

    /// What the stored status should be at this clock reading: a terminal
    /// status is kept; an open proposal passes as soon as it is sure to
    /// pass, and is rejected once it is sure to fail or has expired.
    pub open spec fn current_status_spec(self, block: BlockInfo) -> Status {
        if self.status is Open && self.is_passed_spec(block) {
            Status::Passed
        } else if self.status is Open && (self.is_rejected_spec(block)
            || self.expires.is_expired_spec(block)) {
            Status::Rejected
        } else {
            self.status
        }
    }

    /// Returns true if this proposal is sure to pass, even before
    /// expiration, when no sequence of future votes could make it fail.
    pub fn is_passed(&self, block: &BlockInfo) -> (r: bool)
        requires
            self.wf(),
        ensures
            r == self.is_passed_spec(*block),
    {
        match self.threshold {
            Threshold::AbsoluteCount { weight: weight_needed } => self.votes.yes >= weight_needed,
            Threshold::AbsolutePercentage { percentage: percentage_needed } => {
                proof {
                    lemma_weight_times_fraction_fits(
                        self.total_weight - self.votes.abstain,
                        percentage_needed.atomics as int,
                    );
                }
                self.votes.yes >= votes_needed(
                    self.total_weight - self.votes.abstain,
                    percentage_needed,
                )
            },
            Threshold::ThresholdQuorum { threshold, quorum } => {
                proof {
                    lemma_weight_times_fraction_fits(
                        self.total_weight as int,
                        quorum.atomics as int,
                    );
                }
                if self.votes.total() < votes_needed(self.total_weight, quorum) {
                    return false;
                }
                if self.expires.is_expired(block) {
                    proof {
                        lemma_weight_times_fraction_fits(
                            self.votes.total_spec() - self.votes.abstain,
                            threshold.atomics as int,
                        );
                    }
                    let opinions = self.votes.total() - self.votes.abstain;
                    self.votes.yes >= votes_needed(opinions, threshold)
                } else {
                    proof {
                        lemma_weight_times_fraction_fits(
                            self.total_weight - self.votes.abstain,
                            threshold.atomics as int,
                        );
                    }
                    let possible_opinions = self.total_weight - self.votes.abstain;
                    self.votes.yes >= votes_needed(possible_opinions, threshold)
                }
            },
        }
    }

    /// Returns true if this proposal is sure to be rejected, even before
    /// expiration, when no sequence of future votes could make it pass.
    pub fn is_rejected(&self, block: &BlockInfo) -> (r: bool)
        requires
            self.wf(),
        ensures
            r == self.is_rejected_spec(*block),
    {
        match self.threshold {
            Threshold::AbsoluteCount { weight: weight_needed } => {
                let weight = self.total_weight - weight_needed;
                self.votes.no > weight
            },
            Threshold::AbsolutePercentage { percentage: percentage_needed } => {
                proof {
                    lemma_weight_times_fraction_fits(
                        self.total_weight - self.votes.abstain,
                        DECIMAL_FRACTIONAL - percentage_needed.atomics,
                    );
                }
                let opposing_bar = Decimal {
                    atomics: DECIMAL_FRACTIONAL - percentage_needed.atomics,
                };
                self.votes.no > votes_needed(self.total_weight - self.votes.abstain, opposing_bar)
            },
            Threshold::ThresholdQuorum { threshold, quorum: _ } => {
                let opposing_bar = Decimal { atomics: DECIMAL_FRACTIONAL - threshold.atomics };
                if self.expires.is_expired(block) {
                    proof {
                        lemma_weight_times_fraction_fits(
                            self.votes.total_spec() - self.votes.abstain,
                            DECIMAL_FRACTIONAL - threshold.atomics,
                        );
                    }
                    let opinions = self.votes.total() - self.votes.abstain;
                    self.votes.no > votes_needed(opinions, opposing_bar)
                } else {
                    proof {
                        lemma_weight_times_fraction_fits(
                            self.total_weight - self.votes.abstain,
                            DECIMAL_FRACTIONAL - threshold.atomics,
                        );
                    }
                    let possible_opinions = self.total_weight - self.votes.abstain;
                    self.votes.no > votes_needed(possible_opinions, opposing_bar)
                }
            },
        }
    }

    /// Non-mutating status resolution, safe to call repeatedly for queries.
    pub fn current_status(&self, block: &BlockInfo) -> (r: Status)
        requires
            self.wf(),
        ensures
            r == self.current_status_spec(*block),
    {
        let mut status = self.status;
        if status == Status::Open && self.is_passed(block) {
            status = Status::Passed;
        }
        if status == Status::Open && (self.is_rejected(block) || self.expires.is_expired(block)) {
            status = Status::Rejected;
        }
        status
    }

    /// Stores the resolved status; every other field is left unchanged.
    pub fn update_status(&mut self, block: &BlockInfo)
        requires
            old(self).wf(),
        ensures
            *final(self) == (Proposal {
                status: old(self).current_status_spec(*block),
                ..*old(self)
            }),
    {
        let status = self.current_status(block);
        self.status = status;
    }
}

/// For a weight up to `MAX_WEIGHT` and a fraction up to 1.0, the product
/// `weight * atomics` fits in u128, so `votes_needed` cannot overflow.
pub proof fn lemma_weight_times_fraction_fits(weight: int, atomics: int)
    requires
        0 <= weight <= MAX_WEIGHT,
        0 <= atomics <= DECIMAL_FRACTIONAL,
    ensures
        weight * atomics <= u128::MAX,
{
    vstd::arithmetic::mul::lemma_mul_upper_bound(
        weight,
        MAX_WEIGHT as int,
        atomics,
        DECIMAL_FRACTIONAL as int,
    );
    vstd::arithmetic::div_mod::lemma_fundamental_div_mod(
        u128::MAX as int,
        DECIMAL_FRACTIONAL as int,
    );
    vstd::arithmetic::div_mod::lemma_mod_bound(u128::MAX as int, DECIMAL_FRACTIONAL as int);
}

} // verus!
