use vstd::prelude::*;

use crate::decimal::{fits, units, Decimal};
use crate::error::DaoError;
use crate::events::VotingType;
use crate::ledger::{Bucket, ComponentAddress, ResourceAddress};

verus! {

/// What a proposal does once executed.
#[derive(Clone, Copy, Debug, PartialEq, Eq, Structural)]
pub enum ProposalKind {
    /// A decision with no effect on the organization's state.
    Action,
    /// Mint `amount_of_tokens_should_be_minted` more governance tokens.
    MintTokens,
    /// Set the token price and the buy-back price.
    ChangePrice,
    /// Spend `target_xrd_amount` of the treasury on a bond of
    /// `address_issued_bonds_to_sell`.
    PurchaseBond,
}

/// The fixed terms of a proposal, set when it is created.
#[derive(Debug)]
pub struct ProposalTerms {
    pub kind: ProposalKind,
    pub title: String,
    pub description: String,
    /// The number of distinct voters the proposal should gather.
    pub minimum_quorum: u8,
    /// Seconds since the Unix epoch.
    pub start_time: i64,
    /// Seconds since the Unix epoch; the proposal can be executed after it.
    pub end_time: i64,
    pub owner_token_address: ResourceAddress,
    /// The governance token, the only resource accepted as a vote.
    pub voter_badge_address: ResourceAddress,
    pub address_issued_bonds_to_sell: Option<ComponentAddress>,
    pub target_xrd_amount: Option<Decimal>,
    pub proposal_creator_address: Option<ComponentAddress>,
    pub amount_of_tokens_should_be_minted: Option<usize>,
    pub voting_type: VotingType,
    pub desired_token_price: Option<Decimal>,
    pub desired_token_buy_back_price: Option<Decimal>,
}

/// A proposal under vote.
#[derive(Debug)]
pub struct TokenWeightProposal {
    pub id: usize,
    pub terms: ProposalTerms,
    /// The total weight of the votes in favour.
    pub voted_for: Decimal,
    /// The total weight of the votes against.
    pub voted_against: Decimal,
    /// Everyone who has voted, each once, in the order of their votes.
    pub vote_caster_addresses: Vec<ComponentAddress>,
}

/// The weight of a vote that shows `amount` governance tokens.
pub open spec fn vote_weight(voting_type: VotingType, amount: int) -> int {
    match voting_type {
        VotingType::ResourceHold => amount,
        VotingType::Equality => units(1),
    }
}

/// The error of a vote by `voter` showing `token`, or `None` when the vote counts.
pub open spec fn vote_error(
    p: TokenWeightProposal,
    token: Bucket,
    against: bool,
    voter: ComponentAddress,
) -> Option<DaoError> {
    let w = vote_weight(p.terms.voting_type, token.amount@);
    if token.resource != p.terms.voter_badge_address {
        Some(DaoError::Authorization)
    } else if p.vote_caster_addresses@.contains(voter) {
        Some(DaoError::DuplicateVote)
    } else if !fits(if against { p.voted_against@ + w } else { p.voted_for@ + w }) {
        Some(DaoError::Overflow)
    } else {
        None
    }
}

impl TokenWeightProposal {
    /// Nobody appears twice among the voters.
    pub open spec fn wf(&self) -> bool {
        self.vote_caster_addresses@.no_duplicates()
    }

    pub open spec fn number_of_voters(&self) -> nat {
        self.vote_caster_addresses@.len()
    }

    /// The proposal as it stands after a counted vote.
    pub open spec fn voted(
        old: TokenWeightProposal,
        new: TokenWeightProposal,
        weight: int,
        against: bool,
        voter: ComponentAddress,
    ) -> bool {
        &&& new.id == old.id
        &&& new.terms == old.terms
        &&& new.vote_caster_addresses@ == old.vote_caster_addresses@.push(voter)
        &&& if against {
            new.voted_against@ == old.voted_against@ + weight && new.voted_for == old.voted_for
        } else {
            new.voted_for@ == old.voted_for@ + weight && new.voted_against == old.voted_against
        }
    }

    pub fn new(
        proposal_id: usize,
        kind: ProposalKind,
        title: String,
        description: String,
        minimun_quorum: u8,
        start_time: i64,
        end_time: i64,
        owner_badge_address: ResourceAddress,
        voter_badge_address: ResourceAddress,
        address_issued_bonds_to_sell: Option<ComponentAddress>,
        target_xrd_amount: Option<Decimal>,
        proposal_creator_address: Option<ComponentAddress>,
        amount_of_tokens_should_be_minted: Option<usize>,
        voting_type: VotingType,
        desired_token_price: Option<Decimal>,
        desired_token_buy_back_price: Option<Decimal>,
    ) -> (r: TokenWeightProposal)
        ensures
            r.wf(),
            r.id == proposal_id,
            r.terms == (ProposalTerms {
                kind,
                title,
                description,
                minimum_quorum: minimun_quorum,
                start_time,
                end_time,
                owner_token_address: owner_badge_address,
                voter_badge_address,
                address_issued_bonds_to_sell,
                target_xrd_amount,
                proposal_creator_address,
                amount_of_tokens_should_be_minted,
                voting_type,
                desired_token_price,
                desired_token_buy_back_price,
            }),
            r.voted_for@ == 0,
            r.voted_against@ == 0,
            r.vote_caster_addresses@.len() == 0,
    {
        TokenWeightProposal {
            id: proposal_id,
            terms: ProposalTerms {
                kind,
                title,
                description,
                minimum_quorum: minimun_quorum,
                start_time,
                end_time,
                owner_token_address: owner_badge_address,
                voter_badge_address,
                address_issued_bonds_to_sell,
                target_xrd_amount,
                proposal_creator_address,
                amount_of_tokens_should_be_minted,
                voting_type,
                desired_token_price,
                desired_token_buy_back_price,
            },
            voted_for: Decimal::zero(),
            voted_against: Decimal::zero(),
            vote_caster_addresses: Vec::new(),
        }
    }

    /// Whether `voter` has already voted.
    pub fn has_voted(&self, voter: ComponentAddress) -> (r: bool)
        ensures
            r == self.vote_caster_addresses@.contains(voter),
    {
        let mut i: usize = 0;
        while i < self.vote_caster_addresses.len()
            invariant
                i <= self.vote_caster_addresses@.len(),
                forall|j: int| 0 <= j < i ==> self.vote_caster_addresses@[j] != voter,
            decreases self.vote_caster_addresses@.len() - i,
        {
            if self.vote_caster_addresses[i] == voter {
                return true;
            }
            i = i + 1;
        }
        false
    }

    /// Counts a vote of `voter`, who shows `token` (which is handed back
    /// untouched: voting neither burns nor locks tokens). The vote weighs the
    /// token amount, or one for a proposal of equal votes.
    pub fn vote(&mut self, token: &Bucket, against: bool, voter: ComponentAddress) -> (r: Result<
        (),
        DaoError,
    >)
        requires
            old(self).wf(),
        ensures
            final(self).wf(),
            match vote_error(*old(self), *token, against, voter) {
                Some(e) => r == Err::<(), DaoError>(e) && *final(self) == *old(self),
                None => r is Ok && Self::voted(
                    *old(self),
                    *final(self),
                    vote_weight(old(self).terms.voting_type, token.amount@),
                    against,
                    voter,
                ),
            },
    {
        if token.resource != self.terms.voter_badge_address {
            return Err(DaoError::Authorization);
        }
        if self.has_voted(voter) {
            return Err(DaoError::DuplicateVote);
        }
        let weight = match self.terms.voting_type {
            VotingType::ResourceHold => token.amount,
            VotingType::Equality => Decimal::one(),
        };
        if against {
            match self.voted_against.checked_add(&weight) {
                Some(total) => {
                    self.voted_against = total;
                },
                None => {
                    return Err(DaoError::Overflow);
                },
            }
        } else {
            match self.voted_for.checked_add(&weight) {
                Some(total) => {
                    self.voted_for = total;
                },
                None => {
                    return Err(DaoError::Overflow);
                },
            }
        }
        self.vote_caster_addresses.push(voter);
        Ok(())
    }
}

} // verus!
