use vstd::prelude::*;

use crate::decimal::{fits, mul_attos, units, Decimal};
use crate::error::DaoError;
use crate::events::{
    DaoEvent, DaoType, EventType, ExecutiveAppointed, ExecutiveBadgeMinted, NonFungibleGlobalId,
    PandaoEvent, ProposalCreationRight, TokenWeightBuyToken, TokenWightedDeployment,
    TreasuryContribution,
};
use crate::ledger::{Bucket, ComponentAddress, ResourceAddress, Vault, VaultSet};
use crate::proposal::TokenWeightProposal;
use crate::treasury::{AccountBook, WithdrawalRequest};
use crate::zerocouponbond::ZeroCouponBond;

verus! {

/// Index, among the resources the organization creates, of its governance token.
pub const GOVERNANCE_TOKEN_INDEX: u64 = 0;

/// Index of the owner badge.
pub const OWNER_BADGE_INDEX: u64 = 1;

/// Index of the executive badge.
pub const EXECUTIVE_BADGE_INDEX: u64 = 2;

/// Index of the bond units of the first bond issued; later bonds follow.
pub const FIRST_BOND_INDEX: u64 = 3;

/// A token-weighted decentralized organization: its treasury, its proposals
/// and the bonds issued through it.
#[derive(Debug)]
pub struct TokenWeigtedDao {
    /// The organization's own address, reported in its events.
    pub component_address: ComponentAddress,
    pub organization_name: String,
    /// Open proposals, oldest first; ids strictly increase along the list.
    pub current_praposals: Vec<TokenWeightProposal>,
    /// The id the next proposal gets.
    pub next_proposal_id: usize,
    /// Governance tokens not sold yet.
    pub dao_token: Vault,
    /// The treasury, in XRD.
    pub shares: Vault,
    /// Bond units bought by the organization, one vault per bond resource.
    pub bonds: VaultSet,
    pub dao_token_address: ResourceAddress,
    pub owner_token_addresss: ResourceAddress,
    pub executive_badge_address: ResourceAddress,
    /// Decimal places of the governance token, as declared at creation.
    pub divisibility: u8,
    pub token_price: Decimal,
    pub buy_back_price: Decimal,
    /// Every bond generation issued, oldest first. Only the latest one of a
    /// creator is reachable through the organization.
    pub zero_coupon_bond: Vec<ZeroCouponBond>,
    /// Contributions to the treasury per contributor.
    pub contributors: AccountBook,
    pub proposal_creation_right: ProposalCreationRight,
    /// Collateral taken from defaulting bond creators.
    pub liquidated_collateral: VaultSet,
    /// XRD paid for governance tokens per investor.
    pub investment_record: AccountBook,
    /// Pending withdrawal requests, oldest first; ids strictly increase.
    pub withdraw_requests: Vec<WithdrawalRequest>,
    /// The id the next withdrawal request gets.
    pub next_request_id: u64,
    /// Accounts allowed to answer withdrawal requests, each once.
    pub executives: Vec<ComponentAddress>,
    /// The number the next executive badge gets.
    pub next_badge_number: u64,
    /// Every event emitted, oldest first.
    pub events: Vec<PandaoEvent>,
}

/// The event log `new` is `old` with one more event, of type `t`.
pub open spec fn emitted(old: Seq<PandaoEvent>, new: Seq<PandaoEvent>, t: EventType) -> bool {
    &&& new.len() == old.len() + 1
    &&& new.subrange(0, old.len() as int) == old
    &&& new.last().event_type == t
}

/// Appends `e` to the event log.
pub(crate) fn emit(events: &mut Vec<PandaoEvent>, e: PandaoEvent)
    ensures
        final(events)@ == old(events)@.push(e),
        emitted(old(events)@, final(events)@, e.event_type),
{
    let ghost before = events@;
    events.push(e);
    assert(events@.subrange(0, before.len() as int) =~= before);
}

/// The resource address of the `index`-th resource the organization creates.
pub open spec fn issued(dao: ComponentAddress, index: u64) -> ResourceAddress {
    ResourceAddress::Issued(dao, index)
}

/// Whether `proof` shows at least one owner badge.
pub open spec fn shows_owner_badge(dao: TokenWeigtedDao, proof: Bucket) -> bool {
    proof.resource == dao.owner_token_addresss && proof.amount@ >= units(1)
}

/// The position of the open proposal `id`, if there is one.
pub open spec fn proposal_position(s: Seq<TokenWeightProposal>, id: usize) -> Option<int> {
    if exists|i: int| 0 <= i < s.len() && s[i].id == id {
        Some(choose|i: int| 0 <= i < s.len() && s[i].id == id)
    } else {
        None
    }
}

/// The position of the latest bond generation issued by `creator`, if any.
pub open spec fn latest_bond_position(s: Seq<ZeroCouponBond>, creator: ComponentAddress) -> Option<
    int,
> {
    if exists|i: int| 0 <= i < s.len() && s[i].creator == creator {
        Some(
            choose|i: int|
                0 <= i < s.len() && s[i].creator == creator && forall|j: int|
                    i < j < s.len() ==> s[j].creator != creator,
        )
    } else {
        None
    }
}

/// Proposal ids strictly increase along the list and stay below `next`;
/// every proposal is well formed and is voted on with `token`.
pub open spec fn proposals_wf(s: Seq<TokenWeightProposal>, next: usize, token: ResourceAddress) -> bool {
    &&& forall|i: int, j: int| 0 <= i < j < s.len() ==> s[i].id < s[j].id
    &&& forall|i: int|
        0 <= i < s.len() ==> {
            &&& (#[trigger] s[i]).id < next
            &&& s[i].wf()
            &&& s[i].terms.voter_badge_address == token
        }
}

/// Replacing a proposal by a well-formed one with the same id and token
/// keeps the list well formed.
pub proof fn lemma_proposal_update(
    s: Seq<TokenWeightProposal>,
    i: int,
    p: TokenWeightProposal,
    next: usize,
    token: ResourceAddress,
)
    requires
        proposals_wf(s, next, token),
        0 <= i < s.len(),
        p.wf(),
        p.id == s[i].id,
        p.terms.voter_badge_address == token,
    ensures
        proposals_wf(s.update(i, p), next, token),
{
    let t = s.update(i, p);
    assert forall|a: int, b: int| 0 <= a < b < t.len() implies t[a].id < t[b].id by {
        assert(t[a].id == s[a].id);
        assert(t[b].id == s[b].id);
    }
}

/// Removing a proposal keeps the list well formed, and its id is then absent.
pub proof fn lemma_proposal_remove(
    s: Seq<TokenWeightProposal>,
    i: int,
    next: usize,
    token: ResourceAddress,
)
    requires
        proposals_wf(s, next, token),
        0 <= i < s.len(),
    ensures
        proposals_wf(s.remove(i), next, token),
        proposal_position(s.remove(i), s[i].id) is None,
{
    let t = s.remove(i);
    assert forall|a: int, b: int| 0 <= a < b < t.len() implies t[a].id < t[b].id by {
        let a0 = if a < i { a } else { a + 1 };
        let b0 = if b < i { b } else { b + 1 };
        assert(t[a] == s[a0]);
        assert(t[b] == s[b0]);
    }
    assert forall|k: int| 0 <= k < t.len() implies t[k].id != s[i].id by {
        let k0 = if k < i { k } else { k + 1 };
        assert(t[k] == s[k0]);
    }
}

/// Every bond generation is well formed, and the `i`-th one issues the
/// organization's resource number `FIRST_BOND_INDEX + i`.
pub open spec fn bonds_wf(s: Seq<ZeroCouponBond>, dao: ComponentAddress) -> bool {
    forall|i: int|
        0 <= i < s.len() ==> {
            &&& (#[trigger] s[i]).wf()
            &&& s[i].bond_resourse_address == issued(dao, (FIRST_BOND_INDEX + i) as u64)
        }
}

/// Replacing one bond generation by a well-formed one with the same
/// resource keeps the list well formed.
pub proof fn lemma_bond_update(s: Seq<ZeroCouponBond>, i: int, b: ZeroCouponBond, dao: ComponentAddress)
    requires
        bonds_wf(s, dao),
        0 <= i < s.len(),
        b.wf(),
        b.bond_resourse_address == s[i].bond_resourse_address,
    ensures
        bonds_wf(s.update(i, b), dao),
{
    let t = s.update(i, b);
    assert forall|k: int| 0 <= k < t.len() implies (#[trigger] t[k]).wf()
        && t[k].bond_resourse_address == issued(dao, (FIRST_BOND_INDEX + k) as u64) by {
        if k != i {
            assert(t[k] == s[k]);
        }
    }
}

/// What the answer of an executive leads to.
#[derive(Debug)]
pub enum ResponseOutcome {
    /// The answer is recorded; the request awaits more answers.
    Recorded,
    /// The third answer settled the request in favour: the requested XRD,
    /// to be deposited to the beneficiary.
    FundsWithdrawn(Bucket),
    /// The third answer settled the request against: nothing is paid.
    FundsNotWithdrawn,
}

impl TokenWeigtedDao {
    /// The invariant the organization keeps between calls.
    pub open spec fn wf(&self) -> bool {
        &&& self.dao_token_address == issued(self.component_address, GOVERNANCE_TOKEN_INDEX)
        &&& self.owner_token_addresss == issued(self.component_address, OWNER_BADGE_INDEX)
        &&& self.executive_badge_address == issued(self.component_address, EXECUTIVE_BADGE_INDEX)
        &&& self.dao_token.resource == self.dao_token_address
        &&& self.shares.resource == ResourceAddress::Xrd
        &&& self.bonds.wf()
        &&& self.liquidated_collateral.wf()
        &&& self.contributors.wf()
        &&& self.investment_record.wf()
        &&& self.executives@.no_duplicates()
        &&& proposals_wf(self.current_praposals@, self.next_proposal_id, self.dao_token_address)
        &&& bonds_wf(self.zero_coupon_bond@, self.component_address)
        &&& forall|i: int, j: int|
            0 <= i < j < self.withdraw_requests@.len() ==> self.withdraw_requests@[i].request_id
                < self.withdraw_requests@[j].request_id
        &&& forall|i: int|
            0 <= i < self.withdraw_requests@.len() ==> {
                &&& (#[trigger] self.withdraw_requests@[i]).request_id < self.next_request_id
                &&& self.withdraw_requests@[i].approval_details.wf()
            }
    }

    /// Identity and policy, which no operation changes.
    pub open spec fn same_config(&self, o: &Self) -> bool {
        &&& self.component_address == o.component_address
        &&& self.organization_name == o.organization_name
        &&& self.dao_token_address == o.dao_token_address
        &&& self.owner_token_addresss == o.owner_token_addresss
        &&& self.executive_badge_address == o.executive_badge_address
        &&& self.divisibility == o.divisibility
        &&& self.proposal_creation_right == o.proposal_creation_right
    }

    /// Open proposals, their counter and the token prices.
    pub open spec fn same_governance(&self, o: &Self) -> bool {
        &&& self.current_praposals == o.current_praposals
        &&& self.next_proposal_id == o.next_proposal_id
        &&& self.token_price == o.token_price
        &&& self.buy_back_price == o.buy_back_price
    }

    /// Bond generations, bond holdings and liquidated collateral.
    pub open spec fn same_bonds(&self, o: &Self) -> bool {
        &&& self.zero_coupon_bond == o.zero_coupon_bond
        &&& self.bonds == o.bonds
        &&& self.liquidated_collateral == o.liquidated_collateral
    }

    /// Pending withdrawal requests, executives and their counters.
    pub open spec fn same_withdrawals(&self, o: &Self) -> bool {
        &&& self.withdraw_requests == o.withdraw_requests
        &&& self.next_request_id == o.next_request_id
        &&& self.executives == o.executives
        &&& self.next_badge_number == o.next_badge_number
    }

    /// The price of `token_amount` governance tokens, in attos of XRD.
    pub open spec fn token_cost(&self, token_amount: Decimal) -> int {
        mul_attos(self.token_price@, token_amount@)
    }

    /// Why buying `token_amount` governance tokens with `xrd` is refused, if it is.
    pub open spec fn obtain_error(&self, xrd: Bucket, token_amount: Decimal, account: ComponentAddress) -> Option<
        DaoError,
    > {
        let cost = self.token_cost(token_amount);
        if !fits(cost) {
            Some(DaoError::Overflow)
        } else if xrd.amount@ < cost {
            Some(DaoError::InsufficientPayment)
        } else if xrd.resource != ResourceAddress::Xrd {
            Some(DaoError::InvalidAsset)
        } else if self.dao_token.amount@ < token_amount@ {
            Some(DaoError::InsufficientBalance)
        } else if !fits(self.shares.amount@ + cost) || !fits(
            self.investment_record.total_or_zero(account) + cost,
        ) {
            Some(DaoError::Overflow)
        } else {
            None
        }
    }

    /// Sets up an organization at `component_address`: it creates
    /// `token_supply` governance tokens for sale at `token_price` XRD each,
    /// an owner badge (returned), and the executive badge resource.
    pub fn initiate(
        component_address: ComponentAddress,
        organization_name: String,
        token_supply: i32,
        divisibility: u8,
        token_price: Decimal,
        token_buy_back_price: Decimal,
        org_ico_url: String,
        power_token_url: String,
        description: String,
        tags: Vec<String>,
        purpose: String,
        proposal_creation_right: ProposalCreationRight,
        token_name: String,
    ) -> (r: Result<(TokenWeigtedDao, Bucket), DaoError>)
        ensures
            r is Ok <==> token_supply >= 0 && divisibility <= 18,
            r is Err ==> r == Err::<(TokenWeigtedDao, Bucket), DaoError>(DaoError::InvalidAmount),
            r matches Ok((dao, badge)) ==> {
                &&& dao.wf()
                &&& dao.component_address == component_address
                &&& dao.organization_name == organization_name
                &&& dao.divisibility == divisibility
                &&& dao.token_price == token_price
                &&& dao.buy_back_price == token_buy_back_price
                &&& dao.proposal_creation_right == proposal_creation_right
                &&& dao.dao_token.amount@ == units(token_supply as int)
                &&& dao.shares.amount@ == 0
                &&& dao.current_praposals@.len() == 0
                &&& dao.zero_coupon_bond@.len() == 0
                &&& dao.withdraw_requests@.len() == 0
                &&& dao.executives@.len() == 0
                &&& (forall|a: ComponentAddress| #[trigger] dao.investment_record.total(a) is None)
                &&& (forall|a: ComponentAddress| #[trigger] dao.contributors.total(a) is None)
                &&& (forall|x: ResourceAddress| #[trigger] dao.bonds.balance(x) == 0)
                &&& (forall|x: ResourceAddress| #[trigger] dao.liquidated_collateral.balance(x) == 0)
                &&& dao.next_proposal_id == 0
                &&& dao.next_request_id == 0
                &&& dao.next_badge_number == 0
                &&& badge.resource == dao.owner_token_addresss
                &&& badge.amount@ == units(1)
                &&& dao.events@.len() == 1
                &&& dao.events@[0].event_type == EventType::DEPLOYMENT
            },
    {
        if token_supply < 0 || divisibility > 18 {
            return Err(DaoError::InvalidAmount);
        }
        let dao_token_address = ResourceAddress::Issued(component_address, GOVERNANCE_TOKEN_INDEX);
        let owner_token_addresss = ResourceAddress::Issued(component_address, OWNER_BADGE_INDEX);
        let executive_badge_address = ResourceAddress::Issued(
            component_address,
            EXECUTIVE_BADGE_INDEX,
        );
        let supply = Decimal::from_u64(token_supply as u64);
        let deployment = TokenWightedDeployment {
            component_address,
            token_address: dao_token_address,
            owner_token_address: owner_token_addresss,
            community_name: organization_name.clone(),
            community_image: org_ico_url,
            token_price,
            token_buy_back_price,
            description,
            total_token: token_supply,
            token_image: power_token_url,
            tags,
            purpose,
            proposal_creation_right,
            token_name,
        };
        let mut events: Vec<PandaoEvent> = Vec::new();
        events.push(
            PandaoEvent {
                event_type: EventType::DEPLOYMENT,
                dao_type: DaoType::Investment,
                component_address,
                meta_data: DaoEvent::TokenWeightedDEployment(deployment),
            },
        );
        let dao = TokenWeigtedDao {
            component_address,
            organization_name,
            current_praposals: Vec::new(),
            next_proposal_id: 0,
            dao_token: Vault::with_bucket(Bucket::new(dao_token_address, supply)),
            shares: Vault::new(ResourceAddress::Xrd),
            bonds: VaultSet::new(),
            dao_token_address,
            owner_token_addresss,
            executive_badge_address,
            divisibility,
            token_price,
            buy_back_price: token_buy_back_price,
            zero_coupon_bond: Vec::new(),
            contributors: AccountBook::new(),
            proposal_creation_right,
            liquidated_collateral: VaultSet::new(),
            investment_record: AccountBook::new(),
            withdraw_requests: Vec::new(),
            next_request_id: 0,
            executives: Vec::new(),
            next_badge_number: 0,
            events,
        };
        Ok((dao, Bucket::new(owner_token_addresss, Decimal::one())))
    }

    /// Sells `token_amount` governance tokens for XRD at the token price.
    /// The price is taken from `xrd` into the treasury, the rest of `xrd`
    /// stays with the buyer, and the payment is recorded as the investment
    /// of `account_address`.
    pub fn obtain_community_token(
        &mut self,
        xrd: &mut Bucket,
        token_amount: Decimal,
        account_address: ComponentAddress,
    ) -> (r: Result<Bucket, DaoError>)
        requires
            old(self).wf(),
        ensures
            final(self).wf(),
            final(self).same_config(old(self)),
            match old(self).obtain_error(*old(xrd), token_amount, account_address) {
                Some(e) => r == Err::<Bucket, DaoError>(e) && *final(self) == *old(self) && *final(xrd) == *old(xrd),
                None => r matches Ok(tokens) && {
                    let cost = old(self).token_cost(token_amount);
                    &&& tokens.resource == old(self).dao_token_address
                    &&& tokens.amount == token_amount
                    &&& final(xrd).resource == old(xrd).resource
                    &&& final(xrd).amount@ == old(xrd).amount@ - cost
                    &&& final(self).shares.amount@ == old(self).shares.amount@ + cost
                    &&& final(self).dao_token.amount@ == old(self).dao_token.amount@
                        - token_amount@
                    &&& forall|a: ComponentAddress| #[trigger]
                        final(self).investment_record.total(a) == if a == account_address {
                            Some(old(self).investment_record.total_or_zero(a) + cost)
                        } else {
                            old(self).investment_record.total(a)
                        }
                    &&& final(self).contributors == old(self).contributors
                    &&& final(self).same_governance(old(self))
                    &&& final(self).same_bonds(old(self))
                    &&& final(self).same_withdrawals(old(self))
                    &&& emitted(old(self).events@, final(self).events@, EventType::TOKEN_BOUGHT)
                },
            },
    {
        let cost = match self.token_price.checked_mul(&token_amount) {
            Some(c) => c,
            None => {
                return Err(DaoError::Overflow);
            },
        };
        if xrd.amount.lt(&cost) {
            return Err(DaoError::InsufficientPayment);
        }
        if xrd.resource != ResourceAddress::Xrd {
            return Err(DaoError::InvalidAsset);
        }
        if self.dao_token.amount.lt(&token_amount) {
            return Err(DaoError::InsufficientBalance);
        }
        if self.shares.amount.checked_add(&cost).is_none() {
            return Err(DaoError::Overflow);
        }
        let recorded = match self.investment_record.get(account_address) {
            Some(t) => t,
            None => Decimal::zero(),
        };
        if recorded.checked_add(&cost).is_none() {
            return Err(DaoError::Overflow);
        }
        let collected_xrd = match xrd.take(cost) {
            Ok(b) => b,
            Err(e) => {
                return Err(e);
            },
        };
        let power_share = match self.dao_token.take(token_amount) {
            Ok(b) => b,
            Err(e) => {
                return Err(e);
            },
        };
        match self.shares.put(collected_xrd) {
            Ok(()) => {},
            Err(e) => {
                return Err(e);
            },
        }
        match self.investment_record.add(account_address, cost) {
            Ok(()) => {},
            Err(e) => {
                return Err(e);
            },
        }
        let event_metadata = TokenWeightBuyToken {
            amount: token_amount,
            resource_address: self.dao_token_address,
            amount_paid: cost,
            current_component_share: self.shares.amount,
        };
        emit(
            &mut self.events,
            PandaoEvent {
                event_type: EventType::TOKEN_BOUGHT,
                dao_type: DaoType::Investment,
                component_address: self.component_address,
                meta_data: DaoEvent::TokenWeightedTokenPurchase(event_metadata),
            },
        );
        Ok(power_share)
    }

    /// The XRD that `address` has paid for governance tokens.
    pub fn get_investment_details(&self, address: ComponentAddress) -> (r: Result<
        Decimal,
        DaoError,
    >)
        requires
            self.wf(),
        ensures
            match self.investment_record.total(address) {
                Some(t) => r matches Ok(d) && d@ == t,
                None => r == Err::<Decimal, DaoError>(DaoError::NoInvestmentRecord),
            },
    {
        match self.investment_record.get(address) {
            Some(amt) => Ok(amt),
            None => Err(DaoError::NoInvestmentRecord),
        }
    }

    /// Every contributor with the total it has contributed.
    pub fn get_all_contributors(&self) -> (r: Vec<(ComponentAddress, Decimal)>)
        ensures
            r@ == self.contributors.entries@,
    {
        self.contributors.to_vec()
    }

    /// Every executive.
    pub fn get_executives(&self) -> (r: Vec<ComponentAddress>)
        ensures
            r@ == self.executives@,
    {
        let mut r: Vec<ComponentAddress> = Vec::new();
        let mut i: usize = 0;
        while i < self.executives.len()
            invariant
                i <= self.executives@.len(),
                r@ == self.executives@.subrange(0, i as int),
            decreases self.executives@.len() - i,
        {
            r.push(self.executives[i]);
            i = i + 1;
        }
        assert(self.executives@.subrange(0, self.executives@.len() as int) == self.executives@);
        r
    }

    /// Takes the whole of `payment` (XRD) into the treasury and adds it to
    /// the contributions of `account`. `current_epoch` stamps the event.
    pub fn send_money_to_dao_treasury(
        &mut self,
        payment: &mut Bucket,
        account: ComponentAddress,
        current_epoch: u64,
    ) -> (r: Result<(), DaoError>)
        requires
            old(self).wf(),
        ensures
            final(self).wf(),
            final(self).same_config(old(self)),
            r is Ok <==> old(payment).resource == ResourceAddress::Xrd && fits(
                old(self).shares.amount@ + old(payment).amount@,
            ) && fits(old(self).contributors.total_or_zero(account) + old(payment).amount@),
            r matches Err(e) ==> *final(self) == *old(self) && *final(payment) == *old(payment) && e
                == if old(payment).resource != ResourceAddress::Xrd {
                DaoError::InvalidAsset
            } else {
                DaoError::Overflow
            },
            r is Ok ==> {
                &&& final(payment).resource == old(payment).resource
                &&& final(payment).amount@ == 0
                &&& final(self).shares.amount@ == old(self).shares.amount@ + old(payment).amount@
                &&& forall|a: ComponentAddress| #[trigger]
                    final(self).contributors.total(a) == if a == account {
                        Some(old(self).contributors.total_or_zero(a) + old(payment).amount@)
                    } else {
                        old(self).contributors.total(a)
                    }
                &&& final(self).dao_token == old(self).dao_token
                &&& final(self).investment_record == old(self).investment_record
                &&& final(self).same_governance(old(self))
                &&& final(self).same_bonds(old(self))
                &&& final(self).same_withdrawals(old(self))
                &&& emitted(
                    old(self).events@,
                    final(self).events@,
                    EventType::TREASURY_CONTRIBUTION,
                )
            },
    {
        if payment.resource != ResourceAddress::Xrd {
            return Err(DaoError::InvalidAsset);
        }
        let amount = payment.amount;
        if self.shares.amount.checked_add(&amount).is_none() {
            return Err(DaoError::Overflow);
        }
        let recorded = match self.contributors.get(account) {
            Some(t) => t,
            None => Decimal::zero(),
        };
        if recorded.checked_add(&amount).is_none() {
            return Err(DaoError::Overflow);
        }
        let all = match payment.take(amount) {
            Ok(b) => b,
            Err(e) => {
                return Err(e);
            },
        };
        match self.shares.put(all) {
            Ok(()) => {},
            Err(e) => {
                return Err(e);
            },
        }
        match self.contributors.add(account, amount) {
            Ok(()) => {},
            Err(e) => {
                return Err(e);
            },
        }
        let event_metadata = TreasuryContribution {
            contributor: account,
            amount,
            timestamp: current_epoch,
        };
        emit(
            &mut self.events,
            PandaoEvent {
                event_type: EventType::TREASURY_CONTRIBUTION,
                dao_type: DaoType::Investment,
                component_address: self.component_address,
                meta_data: DaoEvent::TreasuryContribution(event_metadata),
            },
        );
        Ok(())
    }

    /// Buys back the governance tokens in `voting_power` at the buy-back
    /// price, paid from the treasury; refused while proposals are open.
    pub fn withdraw_power(&mut self, voting_power: &mut Bucket) -> (r: Result<Bucket, DaoError>)
        requires
            old(self).wf(),
        ensures
            final(self).wf(),
            final(self).same_config(old(self)),
            ({
                let pay = mul_attos(old(voting_power).amount@, old(self).buy_back_price@);
                let e = if old(self).current_praposals@.len() > 0 {
                    Some(DaoError::ActiveProposals)
                } else if old(voting_power).resource != old(self).dao_token_address {
                    Some(DaoError::InvalidAsset)
                } else if !fits(pay) {
                    Some(DaoError::Overflow)
                } else if old(self).shares.amount@ < pay {
                    Some(DaoError::InsufficientFunds)
                } else if !fits(old(self).dao_token.amount@ + old(voting_power).amount@) {
                    Some(DaoError::Overflow)
                } else {
                    None::<DaoError>
                };
                match e {
                    Some(e) => r == Err::<Bucket, DaoError>(e) && *final(self) == *old(self)
                        && *final(voting_power) == *old(voting_power),
                    None => r matches Ok(paid) && {
                        &&& paid.resource == ResourceAddress::Xrd
                        &&& paid.amount@ == pay
                        &&& final(voting_power).amount@ == 0
                        &&& final(self).shares.amount@ == old(self).shares.amount@ - pay
                        &&& final(self).dao_token.amount@ == old(self).dao_token.amount@ + old(voting_power).amount@
                        &&& final(self).investment_record == old(self).investment_record
                        &&& final(self).contributors == old(self).contributors
                        &&& final(self).same_governance(old(self))
                        &&& final(self).same_bonds(old(self))
                        &&& final(self).same_withdrawals(old(self))
                        &&& emitted(old(self).events@, final(self).events@, EventType::TOKEN_SELL)
                    },
                }
            }),
    {
        if self.current_praposals.len() > 0 {
            return Err(DaoError::ActiveProposals);
        }
        if voting_power.resource != self.dao_token_address {
            return Err(DaoError::InvalidAsset);
        }
        let power_amount = voting_power.amount;
        let pay = match power_amount.checked_mul(&self.buy_back_price) {
            Some(p) => p,
            None => {
                return Err(DaoError::Overflow);
            },
        };
        if self.shares.amount.lt(&pay) {
            return Err(DaoError::InsufficientFunds);
        }
        if self.dao_token.amount.checked_add(&power_amount).is_none() {
            return Err(DaoError::Overflow);
        }
        let returned = match voting_power.take(power_amount) {
            Ok(b) => b,
            Err(e) => {
                return Err(e);
            },
        };
        match self.dao_token.put(returned) {
            Ok(()) => {},
            Err(e) => {
                return Err(e);
            },
        }
        let paid = match self.shares.take(pay) {
            Ok(b) => b,
            Err(e) => {
                return Err(e);
            },
        };
        let event_metadata = TokenWeightBuyToken {
            amount: power_amount,
            resource_address: self.dao_token_address,
            amount_paid: pay,
            current_component_share: self.shares.amount,
        };
        emit(
            &mut self.events,
            PandaoEvent {
                event_type: EventType::TOKEN_SELL,
                dao_type: DaoType::Investment,
                component_address: self.component_address,
                meta_data: DaoEvent::TokenWeightedTokenPurchase(event_metadata),
            },
        );
        Ok(paid)
    }

    /// Mints a new executive badge, numbered in sequence; only the holder of
    /// the owner badge may.
    pub fn mint_executive_badge(&mut self, owner_badge: &Bucket, name: String) -> (r: Result<
        Bucket,
        DaoError,
    >)
        requires
            old(self).wf(),
        ensures
            final(self).wf(),
            final(self).same_config(old(self)),
            r is Ok <==> shows_owner_badge(*old(self), *owner_badge) && old(self).next_badge_number
                < u64::MAX,
            r matches Err(e) ==> *final(self) == *old(self) && e == if !shows_owner_badge(
                *old(self),
                *owner_badge,
            ) {
                DaoError::Authorization
            } else {
                DaoError::Overflow
            },
            r matches Ok(badge) ==> {
                &&& badge.resource == old(self).executive_badge_address
                &&& badge.amount@ == units(1)
                &&& final(self).next_badge_number == old(self).next_badge_number + 1
                &&& final(self).executives == old(self).executives
                &&& final(self).withdraw_requests == old(self).withdraw_requests
                &&& final(self).next_request_id == old(self).next_request_id
                &&& final(self).same_treasury(old(self))
                &&& final(self).same_governance(old(self))
                &&& final(self).same_bonds(old(self))
                &&& emitted(
                    old(self).events@,
                    final(self).events@,
                    EventType::EXECUTIVE_BADGE_MINTED,
                )
            },
    {
        if owner_badge.resource != self.owner_token_addresss || owner_badge.amount.lt(
            &Decimal::one(),
        ) {
            return Err(DaoError::Authorization);
        }
        if self.next_badge_number == u64::MAX {
            return Err(DaoError::Overflow);
        }
        let number = self.next_badge_number;
        self.next_badge_number = number + 1;
        let event_metadata = ExecutiveBadgeMinted {
            name,
            number,
            resource_address: self.executive_badge_address,
            local_id: number,
            global_id: NonFungibleGlobalId {
                resource_address: self.executive_badge_address,
                local_id: number,
            },
        };
        emit(
            &mut self.events,
            PandaoEvent {
                event_type: EventType::EXECUTIVE_BADGE_MINTED,
                dao_type: DaoType::Investment,
                component_address: self.component_address,
                meta_data: DaoEvent::ExecutiveBadgeMinted(event_metadata),
            },
        );
        Ok(Bucket::new(self.executive_badge_address, Decimal::one()))
    }

    /// Makes `to_account` an executive; only the holder of the owner badge
    /// may. The badge `resource` (non-fungible id `local_id`) is handed back
    /// for deposit to `to_account`.
    pub fn make_an_executive(
        &mut self,
        owner_badge: &Bucket,
        to_account: ComponentAddress,
        resource: Bucket,
        local_id: u64,
    ) -> (r: Result<Bucket, DaoError>)
        requires
            old(self).wf(),
        ensures
            final(self).wf(),
            final(self).same_config(old(self)),
            r is Ok <==> shows_owner_badge(*old(self), *owner_badge),
            r matches Err(e) ==> e == DaoError::Authorization && *final(self) == *old(self),
            r matches Ok(badge) ==> {
                &&& badge == resource
                &&& final(self).executives@ == if old(self).executives@.contains(to_account) {
                    old(self).executives@
                } else {
                    old(self).executives@.push(to_account)
                }
                &&& final(self).withdraw_requests == old(self).withdraw_requests
                &&& final(self).next_request_id == old(self).next_request_id
                &&& final(self).next_badge_number == old(self).next_badge_number
                &&& final(self).same_treasury(old(self))
                &&& final(self).same_governance(old(self))
                &&& final(self).same_bonds(old(self))
                &&& emitted(old(self).events@, final(self).events@, EventType::EXECUTIVE_APPOINTED)
            },
    {
        if owner_badge.resource != self.owner_token_addresss || owner_badge.amount.lt(
            &Decimal::one(),
        ) {
            return Err(DaoError::Authorization);
        }
        let resource_address = resource.resource;
        if !self.is_executive(to_account) {
            self.executives.push(to_account);
        }
        let event_metadata = ExecutiveAppointed {
            account_address: to_account,
            resource_address,
            local_id,
        };
        emit(
            &mut self.events,
            PandaoEvent {
                event_type: EventType::EXECUTIVE_APPOINTED,
                dao_type: DaoType::Investment,
                component_address: self.component_address,
                meta_data: DaoEvent::ExecutiveAppointed(event_metadata),
            },
        );
        Ok(resource)
    }

    /// Whether `a` is an executive.
    pub fn is_executive(&self, a: ComponentAddress) -> (r: bool)
        ensures
            r == self.executives@.contains(a),
    {
        let mut i: usize = 0;
        while i < self.executives.len()
            invariant
                i <= self.executives@.len(),
                forall|j: int| 0 <= j < i ==> self.executives@[j] != a,
            decreases self.executives@.len() - i,
        {
            if self.executives[i] == a {
                return true;
            }
            i = i + 1;
        }
        false
    }
}

} // verus!
