//! Proposals: who may open them, how votes are counted, and what executing
//! one does.
use vstd::prelude::*;

use crate::dao::{
    emit, emitted, latest_bond_position, lemma_proposal_remove, lemma_proposal_update,
    proposal_position, TokenWeigtedDao,
};
use crate::decimal::{fits, units, Decimal};
use crate::error::DaoError;
use crate::bonds::purchase_error_of;
use crate::events::{
    DaoEvent, DaoType, EventType, PandaoEvent, PraposalExecute, PraposalMetadata,
    PriceChangeProposalQuorumMet, PriceChangeProposalQuorumNotMet, ProposalCreationRight,
    ProposalQuorumMet, ProposalQuorumNotMet, ProposalVote, VotingType,
};
use crate::ledger::{Bucket, ComponentAddress, ResourceAddress};
use crate::zerocouponbond::{purchase_error, purchased};
use crate::proposal::{vote_error, vote_weight, ProposalKind, ProposalTerms, TokenWeightProposal};

verus! {

/// How an executed proposal stood against its quorum. A proposal below its
/// quorum is executed all the same; the outcome and an event record it.
#[derive(Clone, Copy, Debug, PartialEq, Eq, Structural)]
pub enum ExecutionOutcome {
    QuorumMet,
    QuorumNotMetButExecuted,
}

/// Whether `p` has gathered its quorum of distinct voters.
pub open spec fn quorum_met(p: TokenWeightProposal) -> bool {
    p.number_of_voters() >= p.terms.minimum_quorum
}

pub open spec fn outcome_of(p: TokenWeightProposal) -> ExecutionOutcome {
    if quorum_met(p) {
        ExecutionOutcome::QuorumMet
    } else {
        ExecutionOutcome::QuorumNotMetButExecuted
    }
}

/// Why `proof` does not entitle its holder to open a proposal, if it does not.
pub open spec fn creation_right_error(dao: TokenWeigtedDao, proof: Bucket) -> Option<DaoError> {
    let allowed = match dao.proposal_creation_right {
        ProposalCreationRight::EVERYONE => proof.resource == dao.dao_token_address
            && proof.amount@ >= units(1),
        ProposalCreationRight::TOKEN_HOLDER_THRESHOLD(threshold) => proof.resource
            == dao.dao_token_address && proof.amount@ >= threshold@,
        ProposalCreationRight::ADMIN => proof.resource == dao.owner_token_addresss
            && proof.amount@ >= units(1),
    };
    if allowed {
        None
    } else {
        Some(DaoError::Authorization)
    }
}

/// Why opening a proposal is refused, if it is.
pub open spec fn create_error(
    dao: TokenWeigtedDao,
    proof: Bucket,
    bond_creator: Option<ComponentAddress>,
    creator: Option<ComponentAddress>,
) -> Option<DaoError> {
    if creation_right_error(dao, proof) is Some {
        creation_right_error(dao, proof)
    } else if bond_creator matches Some(a) && latest_bond_position(dao.zero_coupon_bond@, a) is None {
        Some(DaoError::ReferenceNotFound)
    } else if creator is None {
        Some(DaoError::MissingField)
    } else if dao.next_proposal_id == usize::MAX {
        Some(DaoError::Overflow)
    } else {
        None
    }
}

/// `new` is `old` with one more open proposal, of the next id and with
/// `terms`, and an event of type `t`.
pub open spec fn proposal_opened(
    old: TokenWeigtedDao,
    new: TokenWeigtedDao,
    terms: ProposalTerms,
    t: EventType,
) -> bool {
    let n = old.current_praposals@.len();
    let p = new.current_praposals@[n as int];
    &&& new.next_proposal_id == old.next_proposal_id + 1
    &&& new.current_praposals@.len() == n + 1
    &&& new.current_praposals@.subrange(0, n as int) == old.current_praposals@
    &&& p.id == old.next_proposal_id
    &&& p.terms == terms
    &&& p.voted_for@ == 0
    &&& p.voted_against@ == 0
    &&& p.vote_caster_addresses@.len() == 0
    &&& proposal_position(new.current_praposals@, p.id) == Some(n as int)
    &&& new.same_config(&old)
    &&& new.same_treasury(&old)
    &&& new.same_bonds(&old)
    &&& new.same_withdrawals(&old)
    &&& new.token_price == old.token_price
    &&& new.buy_back_price == old.buy_back_price
    &&& emitted(old.events@, new.events@, t)
}

/// `new` is `old` without the proposal at `i`; treasury, bonds and
/// withdrawals as they were.
pub open spec fn proposal_closed(old: TokenWeigtedDao, new: TokenWeigtedDao, i: int) -> bool {
    &&& new.current_praposals@ == old.current_praposals@.remove(i)
    &&& new.next_proposal_id == old.next_proposal_id
    &&& new.same_config(&old)
    &&& new.same_withdrawals(&old)
    &&& new.investment_record == old.investment_record
    &&& new.contributors == old.contributors
}

/// Why executing proposal `id` at time `now` is refused before its kind is
/// looked at, if it is.
pub open spec fn execute_error(dao: TokenWeigtedDao, id: usize, now: i64) -> Option<DaoError> {
    match proposal_position(dao.current_praposals@, id) {
        None => Some(DaoError::ReferenceNotFound),
        Some(i) => if now <= dao.current_praposals@[i].terms.end_time {
            Some(DaoError::TooEarly)
        } else {
            None
        },
    }
}

/// The decimal digit `d`, for `0 <= d < 10`.
pub open spec fn digit_char(d: int) -> char {
    if d == 0 {
        '0'
    } else if d == 1 {
        '1'
    } else if d == 2 {
        '2'
    } else if d == 3 {
        '3'
    } else if d == 4 {
        '4'
    } else if d == 5 {
        '5'
    } else if d == 6 {
        '6'
    } else if d == 7 {
        '7'
    } else if d == 8 {
        '8'
    } else {
        '9'
    }
}

/// `n` written in decimal, without leading zeros.
pub open spec fn decimal_digits(n: nat) -> Seq<char>
    decreases n,
{
    if n < 10 {
        seq![digit_char(n as int)]
    } else {
        decimal_digits(n / 10) + seq![digit_char((n % 10) as int)]
    }
}

/// The message that reports the opening of proposal `id`.
pub open spec fn creation_message(id: usize) -> Seq<char> {
    "Proposal created with id : "@ + decimal_digits(id as nat)
}

fn digit_str(d: usize) -> (r: &'static str)
    requires
        d < 10,
    ensures
        r@ == seq![digit_char(d as int)],
{
    proof {
        reveal_strlit("0");
        reveal_strlit("1");
        reveal_strlit("2");
        reveal_strlit("3");
        reveal_strlit("4");
        reveal_strlit("5");
        reveal_strlit("6");
        reveal_strlit("7");
        reveal_strlit("8");
        reveal_strlit("9");
    }
    if d == 0 {
        "0"
    } else if d == 1 {
        "1"
    } else if d == 2 {
        "2"
    } else if d == 3 {
        "3"
    } else if d == 4 {
        "4"
    } else if d == 5 {
        "5"
    } else if d == 6 {
        "6"
    } else if d == 7 {
        "7"
    } else if d == 8 {
        "8"
    } else {
        "9"
    }
}

/// Appends `n` in decimal to `s`.
fn append_decimal(s: &mut String, n: usize)
    ensures
        final(s)@ == old(s)@ + decimal_digits(n as nat),
    decreases n,
{
    if n >= 10 {
        append_decimal(s, n / 10);
    }
    s.append(digit_str(n % 10));
    proof {
        if n >= 10 {
            assert(old(s)@ + decimal_digits((n / 10) as nat) + seq![digit_char((n % 10) as int)]
                =~= old(s)@ + decimal_digits(n as nat));
        } else {
            assert(n % 10 == n);
        }
    }
}

/// "Proposal created with id : " followed by `id` in decimal.
pub fn proposal_created_message(id: usize) -> (r: String)
    ensures
        r@ == creation_message(id),
{
    let mut message = String::from_str("Proposal created with id : ");
    append_decimal(&mut message, id);
    message
}

impl TokenWeigtedDao {
    fn proposal_index(&self, id: usize) -> (p: Option<usize>)
        requires
            self.wf(),
        ensures
            p matches Some(i) ==> i < self.current_praposals@.len() && proposal_position(
                self.current_praposals@,
                id,
            ) == Some(i as int) && self.current_praposals@[i as int].id == id,
            p is None ==> proposal_position(self.current_praposals@, id) is None,
    {
        let mut i: usize = 0;
        while i < self.current_praposals.len()
            invariant
                i <= self.current_praposals@.len(),
                self.wf(),
                forall|j: int| 0 <= j < i ==> self.current_praposals@[j].id != id,
            decreases self.current_praposals@.len() - i,
        {
            if self.current_praposals[i].id == id {
                proof {
                    let s = self.current_praposals@;
                    let c = choose|k: int| 0 <= k < s.len() && s[k].id == id;
                    assert(c == i as int) by {
                        if c > i as int {
                            assert(s[i as int].id < s[c].id);
                        } else if c < i as int {
                            assert(s[c].id < s[i as int].id);
                        }
                    }
                }
                return Some(i);
            }
            i = i + 1;
        }
        None
    }

    fn check_creation_right(&self, proof: &Bucket) -> (r: Result<(), DaoError>)
        ensures
            r is Err <==> creation_right_error(*self, *proof) is Some,
            r matches Err(e) ==> creation_right_error(*self, *proof) == Some(e),
    {
        let allowed = match self.proposal_creation_right {
            ProposalCreationRight::EVERYONE => proof.resource == self.dao_token_address
                && Decimal::one().le(&proof.amount),
            ProposalCreationRight::TOKEN_HOLDER_THRESHOLD(threshold) => proof.resource
                == self.dao_token_address && threshold.le(&proof.amount),
            ProposalCreationRight::ADMIN => proof.resource == self.owner_token_addresss
                && Decimal::one().le(&proof.amount),
        };
        if allowed {
            Ok(())
        } else {
            Err(DaoError::Authorization)
        }
    }

    /// Opens a proposal with `terms`, after the checks that every kind shares.
    fn open_proposal(
        &mut self,
        terms: ProposalTerms,
        proof: &Bucket,
        event_type: EventType,
    ) -> (r: Result<usize, DaoError>)
        requires
            old(self).wf(),
            terms.voter_badge_address == old(self).dao_token_address,
        ensures
            final(self).wf(),
            match create_error(
                *old(self),
                *proof,
                terms.address_issued_bonds_to_sell,
                terms.proposal_creator_address,
            ) {
                Some(e) => r == Err::<usize, DaoError>(e) && *final(self) == *old(self),
                None => r == Ok::<usize, DaoError>(old(self).next_proposal_id) && proposal_opened(
                    *old(self),
                    *final(self),
                    terms,
                    event_type,
                ),
            },
    {
        match self.check_creation_right(proof) {
            Ok(()) => {},
            Err(e) => {
                return Err(e);
            },
        }
        match terms.address_issued_bonds_to_sell {
            Some(a) => {
                if self.latest_bond_index(a).is_none() {
                    return Err(DaoError::ReferenceNotFound);
                }
            },
            None => {},
        }
        if terms.proposal_creator_address.is_none() {
            return Err(DaoError::MissingField);
        }
        if self.next_proposal_id == usize::MAX {
            return Err(DaoError::Overflow);
        }
        let proposal_id = self.next_proposal_id;
        let praposal_metadata = PraposalMetadata {
            title: terms.title.clone(),
            description: terms.description.clone(),
            minimum_quorum: Decimal::from_u64(terms.minimum_quorum as u64),
            end_time_ts: terms.end_time,
            start_time_ts: terms.start_time,
            owner_token_address: self.owner_token_addresss,
            component_address: self.component_address,
            address_issued_bonds_to_sell: terms.address_issued_bonds_to_sell,
            target_xrd_amount: terms.target_xrd_amount,
            proposal_creator_address: terms.proposal_creator_address,
            amount_of_tokens_should_be_minted: terms.amount_of_tokens_should_be_minted,
            proposal_id,
            governance_token_or_owner_token_address: proof.resource,
            token_type: terms.voting_type,
            desired_token_price: terms.desired_token_price,
            desired_token_buy_back_price: terms.desired_token_buy_back_price,
        };
        let ghost before = self.current_praposals@;
        let ghost old_next = self.next_proposal_id;
        self.current_praposals.push(
            TokenWeightProposal {
                id: proposal_id,
                terms,
                voted_for: Decimal::zero(),
                voted_against: Decimal::zero(),
                vote_caster_addresses: Vec::new(),
            },
        );
        self.next_proposal_id = proposal_id + 1;
        proof {
            let s = self.current_praposals@;
            let n = before.len() as int;
            assert(s.subrange(0, n) =~= before);
            assert forall|a: int, b: int| 0 <= a < b < s.len() implies s[a].id < s[b].id by {
                if b == n {
                    assert(s[a] == before[a]);
                } else {
                    assert(s[a] == before[a]);
                    assert(s[b] == before[b]);
                }
            }
            assert forall|k: int| 0 <= k < s.len() implies (#[trigger] s[k]).id
                < self.next_proposal_id && s[k].wf() && s[k].terms.voter_badge_address
                == self.dao_token_address by {
                if k < n {
                    assert(s[k] == before[k]);
                }
            }
            assert(s[n].vote_caster_addresses@ =~= Seq::<ComponentAddress>::empty());
            let c = choose|k: int| 0 <= k < s.len() && s[k].id == proposal_id;
            assert(c == n) by {
                if c < n {
                    assert(s[c] == before[c]);
                }
            }
        }
        emit(
            &mut self.events,
            PandaoEvent {
                event_type,
                dao_type: DaoType::Investment,
                component_address: self.component_address,
                meta_data: DaoEvent::PraposalDeployment(praposal_metadata),
            },
        );
        Ok(proposal_id)
    }

    /// Opens a proposal, a bond purchase when `address_issued_bonds_to_sell`
    /// is given and a plain action otherwise. `governance_token_or_owner_token_address`
    /// proves the right to propose and is handed back untouched. Returns the
    /// id of the new proposal.
    pub fn create_praposal(
        &mut self,
        title: String,
        description: String,
        minimun_quorum: u8,
        start_time: i64,
        end_time: i64,
        address_issued_bonds_to_sell: Option<ComponentAddress>,
        target_xrd_amount: Option<Decimal>,
        proposal_creator_address: Option<ComponentAddress>,
        governance_token_or_owner_token_address: &Bucket,
        voting_type: VotingType,
    ) -> (r: Result<(usize, String), DaoError>)
        requires
            old(self).wf(),
        ensures
            final(self).wf(),
            match create_error(
                *old(self),
                *governance_token_or_owner_token_address,
                address_issued_bonds_to_sell,
                proposal_creator_address,
            ) {
                Some(e) => r is Err && r->Err_0 == e && *final(self) == *old(self),
                None => r is Ok && r->Ok_0.0 == old(self).next_proposal_id && r->Ok_0.1@ == creation_message(
                    old(self).next_proposal_id,
                ) && proposal_opened(
                    *old(self),
                    *final(self),
                    ProposalTerms {
                        kind: if address_issued_bonds_to_sell is Some {
                            ProposalKind::PurchaseBond
                        } else {
                            ProposalKind::Action
                        },
                        title,
                        description,
                        minimum_quorum: minimun_quorum,
                        start_time,
                        end_time,
                        owner_token_address: old(self).owner_token_addresss,
                        voter_badge_address: old(self).dao_token_address,
                        address_issued_bonds_to_sell,
                        target_xrd_amount,
                        proposal_creator_address,
                        amount_of_tokens_should_be_minted: None,
                        voting_type,
                        desired_token_price: None,
                        desired_token_buy_back_price: None,
                    },
                    EventType::PROPOSAL_TO_PURCHASE_BOND,
                ),
            },
    {
        let kind = if address_issued_bonds_to_sell.is_some() {
            ProposalKind::PurchaseBond
        } else {
            ProposalKind::Action
        };
        let terms = ProposalTerms {
            kind,
            title,
            description,
            minimum_quorum: minimun_quorum,
            start_time,
            end_time,
            owner_token_address: self.owner_token_addresss,
            voter_badge_address: self.dao_token_address,
            address_issued_bonds_to_sell,
            target_xrd_amount,
            proposal_creator_address,
            amount_of_tokens_should_be_minted: None,
            voting_type,
            desired_token_price: None,
            desired_token_buy_back_price: None,
        };
        match self.open_proposal(
            terms,
            governance_token_or_owner_token_address,
            EventType::PROPOSAL_TO_PURCHASE_BOND,
        ) {
            Ok(id) => Ok((id, proposal_created_message(id))),
            Err(e) => Err(e),
        }
    }

    /// Opens a proposal to mint `amount_of_tokens_should_be_minted` more
    /// governance tokens. Returns the id of the new proposal.
    pub fn create_proposal_to_mint_more_dao_tokens(
        &mut self,
        title: String,
        description: String,
        minimun_quorum: u8,
        amount_of_tokens_should_be_minted: Option<usize>,
        start_time: i64,
        end_time: i64,
        proposal_creator_address: Option<ComponentAddress>,
        governance_token_or_owner_token_address: &Bucket,
        voting_type: VotingType,
    ) -> (r: Result<(usize, String), DaoError>)
        requires
            old(self).wf(),
        ensures
            final(self).wf(),
            match create_error(
                *old(self),
                *governance_token_or_owner_token_address,
                None,
                proposal_creator_address,
            ) {
                Some(e) => r is Err && r->Err_0 == e && *final(self) == *old(self),
                None => r is Ok && r->Ok_0.0 == old(self).next_proposal_id && r->Ok_0.1@ == creation_message(
                    old(self).next_proposal_id,
                ) && proposal_opened(
                    *old(self),
                    *final(self),
                    ProposalTerms {
                        kind: ProposalKind::MintTokens,
                        title,
                        description,
                        minimum_quorum: minimun_quorum,
                        start_time,
                        end_time,
                        owner_token_address: old(self).owner_token_addresss,
                        voter_badge_address: old(self).dao_token_address,
                        address_issued_bonds_to_sell: None,
                        target_xrd_amount: None,
                        proposal_creator_address,
                        amount_of_tokens_should_be_minted,
                        voting_type,
                        desired_token_price: None,
                        desired_token_buy_back_price: None,
                    },
                    EventType::PROPOSAL_TO_MINT_MORE_TOKENS,
                ),
            },
    {
        let terms = ProposalTerms {
            kind: ProposalKind::MintTokens,
            title,
            description,
            minimum_quorum: minimun_quorum,
            start_time,
            end_time,
            owner_token_address: self.owner_token_addresss,
            voter_badge_address: self.dao_token_address,
            address_issued_bonds_to_sell: None,
            target_xrd_amount: None,
            proposal_creator_address,
            amount_of_tokens_should_be_minted,
            voting_type,
            desired_token_price: None,
            desired_token_buy_back_price: None,
        };
        match self.open_proposal(
            terms,
            governance_token_or_owner_token_address,
            EventType::PROPOSAL_TO_MINT_MORE_TOKENS,
        ) {
            Ok(id) => Ok((id, proposal_created_message(id))),
            Err(e) => Err(e),
        }
    }

    /// Opens a proposal to set the token price and the buy-back price.
    /// Returns the id of the new proposal.
    pub fn create_proposal_to_change_token_price(
        &mut self,
        title: String,
        description: String,
        minimun_quorum: u8,
        start_time: i64,
        end_time: i64,
        proposal_creator_address: Option<ComponentAddress>,
        governance_token_or_owner_token_address: &Bucket,
        voting_type: VotingType,
        desired_token_price: Option<Decimal>,
        desired_token_buy_back_price: Option<Decimal>,
    ) -> (r: Result<(usize, String), DaoError>)
        requires
            old(self).wf(),
        ensures
            final(self).wf(),
            match create_error(
                *old(self),
                *governance_token_or_owner_token_address,
                None,
                proposal_creator_address,
            ) {
                Some(e) => r is Err && r->Err_0 == e && *final(self) == *old(self),
                None => r is Ok && r->Ok_0.0 == old(self).next_proposal_id && r->Ok_0.1@ == creation_message(
                    old(self).next_proposal_id,
                ) && proposal_opened(
                    *old(self),
                    *final(self),
                    ProposalTerms {
                        kind: ProposalKind::ChangePrice,
                        title,
                        description,
                        minimum_quorum: minimun_quorum,
                        start_time,
                        end_time,
                        owner_token_address: old(self).owner_token_addresss,
                        voter_badge_address: old(self).dao_token_address,
                        address_issued_bonds_to_sell: None,
                        target_xrd_amount: None,
                        proposal_creator_address,
                        amount_of_tokens_should_be_minted: None,
                        voting_type,
                        desired_token_price,
                        desired_token_buy_back_price,
                    },
                    EventType::PROPOSAL_TO_CHANGE_TOKEN_PRICE,
                ),
            },
    {
        let terms = ProposalTerms {
            kind: ProposalKind::ChangePrice,
            title,
            description,
            minimum_quorum: minimun_quorum,
            start_time,
            end_time,
            owner_token_address: self.owner_token_addresss,
            voter_badge_address: self.dao_token_address,
            address_issued_bonds_to_sell: None,
            target_xrd_amount: None,
            proposal_creator_address,
            amount_of_tokens_should_be_minted: None,
            voting_type,
            desired_token_price,
            desired_token_buy_back_price,
        };
        match self.open_proposal(
            terms,
            governance_token_or_owner_token_address,
            EventType::PROPOSAL_TO_CHANGE_TOKEN_PRICE,
        ) {
            Ok(id) => Ok((id, proposal_created_message(id))),
            Err(e) => Err(e),
        }
    }

    /// `your_address` votes on proposal `proposal_id`, for it or `againsts`
    /// it, showing governance tokens in `token` (which stay with the voter).
    pub fn vote(
        &mut self,
        token: &Bucket,
        againsts: bool,
        your_address: ComponentAddress,
        proposal_id: usize,
    ) -> (r: Result<(), DaoError>)
        requires
            old(self).wf(),
        ensures
            final(self).wf(),
            match proposal_position(old(self).current_praposals@, proposal_id) {
                None => r == Err::<(), DaoError>(DaoError::ReferenceNotFound) && *final(self) == *old(self),
                Some(i) => {
                    let p = old(self).current_praposals@[i];
                    match vote_error(p, *token, againsts, your_address) {
                        Some(e) => r == Err::<(), DaoError>(e) && *final(self) == *old(self),
                        None => {
                            &&& r is Ok
                            &&& final(self).current_praposals@ == old(
                                self).current_praposals@.update(i, final(self).current_praposals@[i])
                            &&& TokenWeightProposal::voted(
                                p,
                                final(self).current_praposals@[i],
                                vote_weight(p.terms.voting_type, token.amount@),
                                againsts,
                                your_address,
                            )
                            &&& final(self).next_proposal_id == old(self).next_proposal_id
                            &&& final(self).token_price == old(self).token_price
                            &&& final(self).buy_back_price == old(self).buy_back_price
                            &&& final(self).same_config(old(self))
                            &&& final(self).same_treasury(old(self))
                            &&& final(self).same_bonds(old(self))
                            &&& final(self).same_withdrawals(old(self))
                            &&& emitted(old(self).events@, final(self).events@, EventType::VOTE)
                        },
                    }
                },
            },
    {
        let i = match self.proposal_index(proposal_id) {
            Some(i) => i,
            None => {
                return Err(DaoError::ReferenceNotFound);
            },
        };
        if token.resource != self.current_praposals[i].terms.voter_badge_address {
            return Err(DaoError::Authorization);
        }
        if self.current_praposals[i].has_voted(your_address) {
            return Err(DaoError::DuplicateVote);
        }
        let weight = match self.current_praposals[i].terms.voting_type {
            VotingType::ResourceHold => token.amount,
            VotingType::Equality => Decimal::one(),
        };
        let tally = if againsts {
            self.current_praposals[i].voted_against
        } else {
            self.current_praposals[i].voted_for
        };
        if tally.checked_add(&weight).is_none() {
            return Err(DaoError::Overflow);
        }
        let ghost before = self.current_praposals@;
        match self.current_praposals[i].vote(token, againsts, your_address) {
            Ok(()) => {},
            Err(e) => {
                return Err(e);
            },
        }
        proof {
            lemma_proposal_update(
                before,
                i as int,
                self.current_praposals@[i as int],
                self.next_proposal_id,
                self.dao_token_address,
            );
        }
        let event_metadata = ProposalVote {
            praposal_address: self.component_address,
            voting_amount: token.amount,
            againts: againsts,
            voter_address: your_address,
            proposal_id,
        };
        emit(
            &mut self.events,
            PandaoEvent {
                event_type: EventType::VOTE,
                dao_type: DaoType::Investment,
                component_address: self.component_address,
                meta_data: DaoEvent::PraposalVote(event_metadata),
            },
        );
        Ok(())
    }

    /// Removes the proposal at `i` from the open proposals.
    fn close_proposal(&mut self, i: usize)
        requires
            old(self).wf(),
            i < old(self).current_praposals@.len(),
        ensures
            final(self).wf(),
            final(self).current_praposals@ == old(self).current_praposals@.remove(i as int),
            final(self).next_proposal_id == old(self).next_proposal_id,
            final(self).token_price == old(self).token_price,
            final(self).buy_back_price == old(self).buy_back_price,
            final(self).same_config(old(self)),
            final(self).same_treasury(old(self)),
            final(self).same_bonds(old(self)),
            final(self).same_withdrawals(old(self)),
            final(self).events == old(self).events,
    {
        let ghost before = self.current_praposals@;
        self.current_praposals.remove(i);
        proof {
            lemma_proposal_remove(before, i as int, self.next_proposal_id, self.dao_token_address);
        }
    }
}

/// Why executing the mint proposal `p` is refused, if it is.
pub open spec fn mint_error(dao: TokenWeigtedDao, p: TokenWeightProposal) -> Option<DaoError> {
    match p.terms.amount_of_tokens_should_be_minted {
        None => Some(DaoError::MissingField),
        Some(n) => if !fits(dao.dao_token.amount@ + units(n as int)) {
            Some(DaoError::Overflow)
        } else {
            None
        },
    }
}

/// Why executing the price-change proposal `p` is refused, if it is.
pub open spec fn price_error(p: TokenWeightProposal) -> Option<DaoError> {
    if p.terms.desired_token_price is None || p.terms.desired_token_buy_back_price is None {
        Some(DaoError::MissingField)
    } else {
        None
    }
}

/// Why executing the bond-purchase proposal `p` is refused, if it is.
pub open spec fn bond_purchase_error(dao: TokenWeigtedDao, p: TokenWeightProposal) -> Option<DaoError> {
    match (p.terms.address_issued_bonds_to_sell, p.terms.target_xrd_amount) {
        (Some(a), Some(t)) => match latest_bond_position(dao.zero_coupon_bond@, a) {
            None => Some(DaoError::ReferenceNotFound),
            Some(j) => {
                let b = dao.zero_coupon_bond@[j];
                if dao.shares.amount@ < t@ {
                    Some(DaoError::InsufficientFunds)
                } else if purchase_error(b, (Bucket { resource: ResourceAddress::Xrd, amount: t }))
                    is Some {
                    purchase_error(b, (Bucket { resource: ResourceAddress::Xrd, amount: t }))
                } else if !fits(dao.bonds.balance(b.bond_resourse_address) + units(1)) {
                    Some(DaoError::Overflow)
                } else {
                    None
                }
            },
        },
        _ => Some(DaoError::MissingField),
    }
}

/// `new` is `old` once the plain proposal at `i` was executed.
pub open spec fn action_executed(old: TokenWeigtedDao, new: TokenWeigtedDao, i: int) -> bool {
    &&& proposal_closed(old, new, i)
    &&& new.same_treasury(&old)
    &&& new.same_bonds(&old)
    &&& new.token_price == old.token_price
    &&& new.buy_back_price == old.buy_back_price
    &&& emitted(old.events@, new.events@, EventType::EXECUTE_PROPOSAL)
}

/// `new` is `old` once the mint proposal at `i` was executed: the minted
/// governance tokens joined the supply.
pub open spec fn mint_executed(old: TokenWeigtedDao, new: TokenWeigtedDao, i: int) -> bool {
    let n = old.current_praposals@[i].terms.amount_of_tokens_should_be_minted.unwrap();
    &&& proposal_closed(old, new, i)
    &&& new.dao_token.resource == old.dao_token.resource
    &&& new.dao_token.amount@ == old.dao_token.amount@ + units(n as int)
    &&& new.shares == old.shares
    &&& new.same_bonds(&old)
    &&& new.token_price == old.token_price
    &&& new.buy_back_price == old.buy_back_price
    &&& emitted(old.events@, new.events@, EventType::EXECUTE_PROPOSAL)
}

/// `new` is `old` once the price-change proposal at `i` was executed.
pub open spec fn price_executed(old: TokenWeigtedDao, new: TokenWeigtedDao, i: int) -> bool {
    let p = old.current_praposals@[i];
    &&& proposal_closed(old, new, i)
    &&& new.token_price == p.terms.desired_token_price.unwrap()
    &&& new.buy_back_price == p.terms.desired_token_buy_back_price.unwrap()
    &&& new.same_treasury(&old)
    &&& new.same_bonds(&old)
    &&& new.events@.len() == old.events@.len() + if quorum_met(p) {
        1int
    } else {
        2int
    }
    &&& new.events@.subrange(0, old.events@.len() as int) == old.events@
    &&& new.events@.last().event_type == EventType::PRICE_CHANGE_QUORUM_MET_AND_SUCCESS
    &&& !quorum_met(p) ==> new.events@[old.events@.len() as int].event_type
        == EventType::PRICE_CHANGE_QUORUM_NOT_MET_AND_FAILED
}

/// `new` is `old` once the bond-purchase proposal at `i` was executed: one
/// unit of the creator's latest bond was bought from the treasury.
pub open spec fn bond_purchase_executed(old: TokenWeigtedDao, new: TokenWeigtedDao, i: int) -> bool {
    let p = old.current_praposals@[i];
    let a = p.terms.address_issued_bonds_to_sell.unwrap();
    let j = latest_bond_position(old.zero_coupon_bond@, a).unwrap();
    let b = old.zero_coupon_bond@[j];
    &&& proposal_closed(old, new, i)
    &&& new.zero_coupon_bond@ == old.zero_coupon_bond@.update(j, new.zero_coupon_bond@[j])
    &&& purchased(b, new.zero_coupon_bond@[j])
    &&& new.shares.resource == old.shares.resource
    &&& new.shares.amount@ == old.shares.amount@ - units(b.price as int)
    &&& forall|x: ResourceAddress| #[trigger]
        new.bonds.balance(x) == old.bonds.balance(x) + if x == b.bond_resourse_address {
            units(1)
        } else {
            0
        }
    &&& new.dao_token == old.dao_token
    &&& new.liquidated_collateral == old.liquidated_collateral
    &&& new.token_price == old.token_price
    &&& new.buy_back_price == old.buy_back_price
    &&& new.events@.len() == old.events@.len() + if quorum_met(p) {
        1int
    } else {
        2int
    }
    &&& new.events@.subrange(0, old.events@.len() as int) == old.events@
    &&& new.events@.last().event_type == EventType::QUORUM_MET_AND_SUCCESS
    &&& !quorum_met(p) ==> new.events@[old.events@.len() as int].event_type
        == EventType::QUORUM_NOT_MET_AND_FAILED
}

impl TokenWeigtedDao {
    fn quorum_outcome(p: &TokenWeightProposal) -> (r: ExecutionOutcome)
        ensures
            r == outcome_of(*p),
    {
        if p.vote_caster_addresses.len() >= p.terms.minimum_quorum as usize {
            ExecutionOutcome::QuorumMet
        } else {
            ExecutionOutcome::QuorumNotMetButExecuted
        }
    }

    fn executable_index(&self, proposal_id: usize, now: i64) -> (r: Result<usize, DaoError>)
        requires
            self.wf(),
        ensures
            match execute_error(*self, proposal_id, now) {
                Some(e) => r == Err::<usize, DaoError>(e),
                None => r matches Ok(i) && i < self.current_praposals@.len() && proposal_position(
                    self.current_praposals@,
                    proposal_id,
                ) == Some(i as int),
            },
    {
        let i = match self.proposal_index(proposal_id) {
            Some(i) => i,
            None => {
                return Err(DaoError::ReferenceNotFound);
            },
        };
        if now <= self.current_praposals[i].terms.end_time {
            return Err(DaoError::TooEarly);
        }
        Ok(i)
    }

    /// Executes the mint proposal `proposal_id` once its voting period has
    /// ended at `now`: the tokens it names are minted into the supply and
    /// the proposal is closed.
    pub fn execute_proposal_to_mint_more_tokens(&mut self, proposal_id: usize, now: i64) -> (r:
        Result<ExecutionOutcome, DaoError>)
        requires
            old(self).wf(),
        ensures
            final(self).wf(),
            match execute_error(*old(self), proposal_id, now) {
                Some(e) => r == Err::<ExecutionOutcome, DaoError>(e) && *final(self) == *old(self),
                None => {
                    let i = proposal_position(old(self).current_praposals@, proposal_id).unwrap();
                    let p = old(self).current_praposals@[i];
                    match mint_error(*old(self), p) {
                        Some(e) => r == Err::<ExecutionOutcome, DaoError>(e) && *final(self) == *old(self),
                        None => r == Ok::<ExecutionOutcome, DaoError>(outcome_of(p)) && mint_executed(
                            *old(self),
                            *final(self),
                            i,
                        ),
                    }
                },
            },
    {
        let i = match self.executable_index(proposal_id, now) {
            Ok(i) => i,
            Err(e) => {
                return Err(e);
            },
        };
        let how_much_amount = match self.current_praposals[i].terms.amount_of_tokens_should_be_minted {
            Some(n) => n,
            None => {
                return Err(DaoError::MissingField);
            },
        };
        let minted = Decimal::from_u64(how_much_amount as u64);
        if self.dao_token.amount.checked_add(&minted).is_none() {
            return Err(DaoError::Overflow);
        }
        let outcome = Self::quorum_outcome(&self.current_praposals[i]);
        match self.mint_more_tokens(minted) {
            Ok(()) => {},
            Err(e) => {
                return Err(e);
            },
        }
        let event_metadata = PraposalExecute { praposal_address: self.component_address, proposal_id };
        emit(
            &mut self.events,
            PandaoEvent {
                event_type: EventType::EXECUTE_PROPOSAL,
                dao_type: DaoType::Investment,
                component_address: self.component_address,
                meta_data: DaoEvent::ProposalExecute(event_metadata),
            },
        );
        self.close_proposal(i);
        Ok(outcome)
    }

    /// Mints `amount` governance tokens into the supply.
    fn mint_more_tokens(&mut self, amount: Decimal) -> (r: Result<(), DaoError>)
        requires
            old(self).wf(),
        ensures
            final(self).wf(),
            r is Ok <==> fits(old(self).dao_token.amount@ + amount@),
            r is Ok ==> final(self).dao_token.resource == old(self).dao_token.resource
                && final(self).dao_token.amount@ == old(self).dao_token.amount@ + amount@,
            r is Err ==> *final(self) == *old(self),
            final(self).current_praposals == old(self).current_praposals,
            final(self).next_proposal_id == old(self).next_proposal_id,
            final(self).token_price == old(self).token_price,
            final(self).buy_back_price == old(self).buy_back_price,
            final(self).same_config(old(self)),
            final(self).same_bonds(old(self)),
            final(self).same_withdrawals(old(self)),
            final(self).shares == old(self).shares,
            final(self).investment_record == old(self).investment_record,
            final(self).contributors == old(self).contributors,
            final(self).events == old(self).events,
    {
        self.dao_token.put(Bucket::new(self.dao_token_address, amount))
    }

    /// Sets the token price and the buy-back price.
    fn set_price(&mut self, desired_token_price: Decimal, desired_buy_back_price: Decimal)
        requires
            old(self).wf(),
        ensures
            final(self).wf(),
            final(self).token_price == desired_token_price,
            final(self).buy_back_price == desired_buy_back_price,
            final(self).current_praposals == old(self).current_praposals,
            final(self).next_proposal_id == old(self).next_proposal_id,
            final(self).same_config(old(self)),
            final(self).same_treasury(old(self)),
            final(self).same_bonds(old(self)),
            final(self).same_withdrawals(old(self)),
            final(self).events == old(self).events,
    {
        self.token_price = desired_token_price;
        self.buy_back_price = desired_buy_back_price;
    }

    /// Executes the price-change proposal `proposal_id` once its voting
    /// period has ended at `now`, and closes it. Below quorum the change
    /// is made all the same, after a quorum-not-met event.
    pub fn execute_proposal_to_change_token_price(&mut self, proposal_id: usize, now: i64) -> (r:
        Result<ExecutionOutcome, DaoError>)
        requires
            old(self).wf(),
        ensures
            final(self).wf(),
            match execute_error(*old(self), proposal_id, now) {
                Some(e) => r == Err::<ExecutionOutcome, DaoError>(e) && *final(self) == *old(self),
                None => {
                    let i = proposal_position(old(self).current_praposals@, proposal_id).unwrap();
                    let p = old(self).current_praposals@[i];
                    match price_error(p) {
                        Some(e) => r == Err::<ExecutionOutcome, DaoError>(e) && *final(self) == *old(self),
                        None => r == Ok::<ExecutionOutcome, DaoError>(outcome_of(p)) && price_executed(
                            *old(self),
                            *final(self),
                            i,
                        ),
                    }
                },
            },
    {
        let i = match self.executable_index(proposal_id, now) {
            Ok(i) => i,
            Err(e) => {
                return Err(e);
            },
        };
        let desired_price = match self.current_praposals[i].terms.desired_token_price {
            Some(d) => d,
            None => {
                return Err(DaoError::MissingField);
            },
        };
        let buy_back = match self.current_praposals[i].terms.desired_token_buy_back_price {
            Some(d) => d,
            None => {
                return Err(DaoError::MissingField);
            },
        };
        let outcome = Self::quorum_outcome(&self.current_praposals[i]);
        let number_of_voters = self.current_praposals[i].vote_caster_addresses.len();
        let minimum_quorum = self.current_praposals[i].terms.minimum_quorum as usize;
        let ghost old_events = self.events@;
        if outcome == ExecutionOutcome::QuorumNotMetButExecuted {
            let event_metadata = PriceChangeProposalQuorumNotMet {
                proposal_id,
                minimum_quorum,
                number_of_voters,
                desired_price,
                desired_token_buy_back_price: buy_back,
                proposal_type: EventType::PROPOSAL_TO_CHANGE_TOKEN_PRICE,
            };
            emit(
                &mut self.events,
                PandaoEvent {
                    event_type: EventType::PRICE_CHANGE_QUORUM_NOT_MET_AND_FAILED,
                    dao_type: DaoType::Investment,
                    component_address: self.component_address,
                    meta_data: DaoEvent::PriceChangeProposalQuorumNotMet(event_metadata),
                },
            );
        }
        self.set_price(desired_price, buy_back);
        let event_metadata = PriceChangeProposalQuorumMet {
            proposal_id,
            minimum_quorum,
            number_of_voters,
            desired_token_price: desired_price,
            desired_token_buy_back_price: buy_back,
            proposal_type: EventType::PROPOSAL_TO_CHANGE_TOKEN_PRICE,
        };
        emit(
            &mut self.events,
            PandaoEvent {
                event_type: EventType::PRICE_CHANGE_QUORUM_MET_AND_SUCCESS,
                dao_type: DaoType::Investment,
                component_address: self.component_address,
                meta_data: DaoEvent::PriceChangeProposalQuorumMet(event_metadata),
            },
        );
        proof {
            assert(self.events@.subrange(0, old_events.len() as int) =~= old_events);
        }
        self.close_proposal(i);
        Ok(outcome)
    }

    /// Executes the bond-purchase proposal at `i`.
    #[verifier::rlimit(60)]
    #[verifier::spinoff_prover]
    fn execute_bond_purchase(&mut self, i: usize, proposal_id: usize) -> (r: Result<
        ExecutionOutcome,
        DaoError,
    >)
        requires
            old(self).wf(),
            i < old(self).current_praposals@.len(),
            old(self).current_praposals@[i as int].id == proposal_id,
        ensures
            final(self).wf(),
            ({
                let p = old(self).current_praposals@[i as int];
                match bond_purchase_error(*old(self), p) {
                    Some(e) => r == Err::<ExecutionOutcome, DaoError>(e) && *final(self) == *old(self),
                    None => r == Ok::<ExecutionOutcome, DaoError>(outcome_of(p))
                        && bond_purchase_executed(*old(self), *final(self), i as int),
                }
            }),
    {
        let (bond_creator_address, target_xrd_amount) = match (
            self.current_praposals[i].terms.address_issued_bonds_to_sell,
            self.current_praposals[i].terms.target_xrd_amount,
        ) {
            (Some(a), Some(t)) => (a, t),
            _ => {
                return Err(DaoError::MissingField);
            },
        };
        let j = match self.latest_bond_index(bond_creator_address) {
            Some(j) => j,
            None => {
                return Err(DaoError::ReferenceNotFound);
            },
        };
        if self.shares.amount.lt(&target_xrd_amount) {
            return Err(DaoError::InsufficientFunds);
        }
        let probe = Bucket::new(ResourceAddress::Xrd, target_xrd_amount);
        match purchase_error_of(&self.zero_coupon_bond[j], &probe) {
            Some(e) => {
                return Err(e);
            },
            None => {},
        }
        let unit_resource = self.zero_coupon_bond[j].bond_resourse_address;
        if self.bonds.balance_of(unit_resource).checked_add(&Decimal::one()).is_none() {
            return Err(DaoError::Overflow);
        }
        let outcome = Self::quorum_outcome(&self.current_praposals[i]);
        let number_of_voters = self.current_praposals[i].vote_caster_addresses.len();
        let minimum_quorum = self.current_praposals[i].terms.minimum_quorum as usize;
        let bond_uid = self.zero_coupon_bond[j].get_bond_u_id();
        let ghost old_events = self.events@;
        let mut payment = match self.shares.take(target_xrd_amount) {
            Ok(b) => b,
            Err(e) => {
                return Err(e);
            },
        };
        match self.purchase_bond(bond_creator_address, &mut payment) {
            Ok(()) => {},
            Err(e) => {
                return Err(e);
            },
        }
        match self.shares.put(payment) {
            Ok(()) => {},
            Err(e) => {
                return Err(e);
            },
        }
        if outcome == ExecutionOutcome::QuorumNotMetButExecuted {
            let event_metadata = ProposalQuorumNotMet {
                proposal_id,
                minimum_quorum,
                number_of_voters,
                bond_creator_address,
                contract_identity: bond_uid.clone(),
                proposal_type: EventType::PROPOSAL_TO_PURCHASE_BOND,
            };
            emit(
                &mut self.events,
                PandaoEvent {
                    event_type: EventType::QUORUM_NOT_MET_AND_FAILED,
                    dao_type: DaoType::Investment,
                    component_address: self.component_address,
                    meta_data: DaoEvent::ProposalQuorumNotMet(event_metadata),
                },
            );
        }
        let event_metadata = ProposalQuorumMet {
            proposal_id,
            minimum_quorum,
            number_of_voters,
            bond_creator_address,
            contract_identity: bond_uid,
            proposal_type: EventType::PROPOSAL_TO_PURCHASE_BOND,
        };
        emit(
            &mut self.events,
            PandaoEvent {
                event_type: EventType::QUORUM_MET_AND_SUCCESS,
                dao_type: DaoType::Investment,
                component_address: self.component_address,
                meta_data: DaoEvent::ProposalQuorumMet(event_metadata),
            },
        );
        proof {
            assert(self.events@.subrange(0, old_events.len() as int) =~= old_events);
        }
        self.close_proposal(i);
        Ok(outcome)
    }

    /// Executes proposal `proposal_id` once its voting period has ended at
    /// `now`, as its kind says, and closes it: a closed proposal cannot be
    /// executed again.
    pub fn execute_proposal(&mut self, proposal_id: usize, now: i64) -> (r: Result<
        ExecutionOutcome,
        DaoError,
    >)
        requires
            old(self).wf(),
        ensures
            final(self).wf(),
            match execute_error(*old(self), proposal_id, now) {
                Some(e) => r == Err::<ExecutionOutcome, DaoError>(e) && *final(self) == *old(self),
                None => {
                    let i = proposal_position(old(self).current_praposals@, proposal_id).unwrap();
                    let p = old(self).current_praposals@[i];
                    let e = match p.terms.kind {
                        ProposalKind::Action => None,
                        ProposalKind::MintTokens => mint_error(*old(self), p),
                        ProposalKind::ChangePrice => price_error(p),
                        ProposalKind::PurchaseBond => bond_purchase_error(*old(self), p),
                    };
                    match e {
                        Some(e) => r == Err::<ExecutionOutcome, DaoError>(e) && *final(self) == *old(self),
                        None => {
                            &&& r == Ok::<ExecutionOutcome, DaoError>(outcome_of(p))
                            &&& match p.terms.kind {
                                ProposalKind::Action => action_executed(*old(self), *final(self), i),
                                ProposalKind::MintTokens => mint_executed(*old(self), *final(self), i),
                                ProposalKind::ChangePrice => price_executed(*old(self), *final(self), i),
                                ProposalKind::PurchaseBond => bond_purchase_executed(
                                    *old(self),
                                    *final(self),
                                    i,
                                ),
                            }
                        },
                    }
                },
            },
    {
        let i = match self.executable_index(proposal_id, now) {
            Ok(i) => i,
            Err(e) => {
                return Err(e);
            },
        };
        match self.current_praposals[i].terms.kind {
            ProposalKind::Action => {
                let outcome = Self::quorum_outcome(&self.current_praposals[i]);
                let event_metadata = PraposalExecute {
                    praposal_address: self.component_address,
                    proposal_id,
                };
                emit(
                    &mut self.events,
                    PandaoEvent {
                        event_type: EventType::EXECUTE_PROPOSAL,
                        dao_type: DaoType::Investment,
                        component_address: self.component_address,
                        meta_data: DaoEvent::ProposalExecute(event_metadata),
                    },
                );
                self.close_proposal(i);
                Ok(outcome)
            },
            ProposalKind::MintTokens => self.execute_proposal_to_mint_more_tokens(proposal_id, now),
            ProposalKind::ChangePrice => self.execute_proposal_to_change_token_price(
                proposal_id,
                now,
            ),
            ProposalKind::PurchaseBond => self.execute_bond_purchase(i, proposal_id),
        }
    }
}

impl TokenWeigtedDao {
    /// The open proposal `proposal_id`.
    pub fn get_proposal_using_proposal_id(&self, proposal_id: usize) -> (r: Result<
        &TokenWeightProposal,
        DaoError,
    >)
        requires
            self.wf(),
        ensures
            match proposal_position(self.current_praposals@, proposal_id) {
                None => r is Err && r->Err_0 == DaoError::ReferenceNotFound,
                Some(i) => r is Ok && *r->Ok_0 == self.current_praposals@[i],
            },
    {
        match self.proposal_index(proposal_id) {
            Some(i) => Ok(&self.current_praposals[i]),
            None => Err(DaoError::ReferenceNotFound),
        }
    }

    /// The ids of all open proposals, oldest first.
    pub fn get_all_proposals(&self) -> (r: Vec<usize>)
        ensures
            r@.len() == self.current_praposals@.len(),
            forall|k: int| 0 <= k < r@.len() ==> r@[k] == self.current_praposals@[k].id,
    {
        let mut r: Vec<usize> = Vec::new();
        let mut i: usize = 0;
        while i < self.current_praposals.len()
            invariant
                i <= self.current_praposals@.len(),
                r@.len() == i,
                forall|k: int| 0 <= k < i ==> r@[k] == self.current_praposals@[k].id,
            decreases self.current_praposals@.len() - i,
        {
            r.push(self.current_praposals[i].id);
            i = i + 1;
        }
        r
    }

    /// The ids of the open proposals created by `your_address`, oldest
    /// first; refused when there is none.
    pub fn get_created_proposals(&self, your_address: ComponentAddress) -> (r: Result<
        Vec<usize>,
        DaoError,
    >)
        ensures
            ({
                let mine = self.current_praposals@.filter(
                    |p: TokenWeightProposal| p.terms.proposal_creator_address == Some(your_address),
                );
                &&& mine.len() == 0 ==> r == Err::<Vec<usize>, DaoError>(DaoError::ReferenceNotFound)
                &&& mine.len() > 0 ==> (r matches Ok(ids) && ids@ == mine.map_values(
                    |p: TokenWeightProposal| p.id,
                ))
            }),
    {
        let ghost pred = |p: TokenWeightProposal| p.terms.proposal_creator_address == Some(your_address);
        let mut ids: Vec<usize> = Vec::new();
        let mut i: usize = 0;
        while i < self.current_praposals.len()
            invariant
                i <= self.current_praposals@.len(),
                pred == (|p: TokenWeightProposal| p.terms.proposal_creator_address == Some(your_address)),
                ids@ == self.current_praposals@.subrange(0, i as int).filter(pred).map_values(
                    |p: TokenWeightProposal| p.id,
                ),
            decreases self.current_praposals@.len() - i,
        {
            let ghost s = self.current_praposals@;
            proof {
                assert(s.subrange(0, i + 1) =~= s.subrange(0, i as int).push(s[i as int]));
                s.subrange(0, i as int).lemma_filter_push(s[i as int], pred);
            }
            if self.current_praposals[i].terms.proposal_creator_address == Some(your_address) {
                ids.push(self.current_praposals[i].id);
                proof {
                    let f = |p: TokenWeightProposal| p.id;
                    assert(s.subrange(0, i as int).filter(pred).push(s[i as int]).map_values(f)
                        =~= s.subrange(0, i as int).filter(pred).map_values(f).push(s[i as int].id));
                }
            }
            i = i + 1;
        }
        proof {
            assert(self.current_praposals@.subrange(0, self.current_praposals@.len() as int)
                =~= self.current_praposals@);
        }
        if ids.len() == 0 {
            Err(DaoError::ReferenceNotFound)
        } else {
            Ok(ids)
        }
    }
}

} // verus!
