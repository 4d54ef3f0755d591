//! The bond market as the organization runs it. Every call names a bond
//! creator and acts on the latest generation that creator issued.
use vstd::prelude::*;

use crate::dao::{
    bonds_wf, emit, emitted, issued, latest_bond_position, lemma_bond_update, TokenWeigtedDao,
    FIRST_BOND_INDEX,
};
use crate::decimal::{fits, units, Decimal, ATTOS_PER_UNIT};
use crate::error::DaoError;
use crate::events::{
    CheckBondIssuerBalanceEvent, ClaimInvestedXRDsPlusInterestErrorEvent,
    ClaimInvestedXRDsPlusInterestEvent, CollateralLiquidationFailedEvent, DaoEvent, DaoType,
    EventType, ForceTransferFunds, GetBackTheCollateralEvent, LiquidatedCollateralEvent,
    PandaoEvent, PutInMoneyPlusInterestEvent, TakeOutInvestedXRDsEvent, ZeroCouponBondCreation,
};
use crate::ledger::{Bucket, ComponentAddress, ResourceAddress};
use crate::zerocouponbond::{
    days_left, matured, purchase_error, purchased, same_terms, whole, BondDetails,
    ZeroCouponBond,
};

verus! {

/// What a claim of the community on a bond came to.
#[derive(Clone, Copy, Debug, PartialEq, Eq, Structural)]
pub enum ClaimOutcome {
    /// The proceeds covered the claim, which went to the treasury.
    Claimed,
    /// The proceeds fell short: the collateral was liquidated instead.
    CollateralLiquidated,
}

/// The community's claim flag and the creator's draw flag of `b` are kept in `nb`.
pub open spec fn flags_kept(b: ZeroCouponBond, nb: ZeroCouponBond) -> bool {
    &&& nb.successful_claim_by_community == b.successful_claim_by_community
    &&& nb.money_taken_by_creator == b.money_taken_by_creator
}

impl TokenWeigtedDao {
    /// All of the state as it was, the list of bonds compared by content.
    pub open spec fn same_view(&self, o: &Self) -> bool {
        &&& self.same_config(o)
        &&& self.same_governance(o)
        &&& self.same_treasury(o)
        &&& self.same_withdrawals(o)
        &&& self.bonds == o.bonds
        &&& self.liquidated_collateral == o.liquidated_collateral
        &&& self.zero_coupon_bond@ == o.zero_coupon_bond@
        &&& self.events == o.events
    }

    /// Configuration, governance, withdrawals, token supply and the books are
    /// as they were, and no bond generation was added.
    pub open spec fn bond_call_frame(&self, o: &Self) -> bool {
        &&& self.same_config(o)
        &&& self.same_governance(o)
        &&& self.same_withdrawals(o)
        &&& self.dao_token == o.dao_token
        &&& self.investment_record == o.investment_record
        &&& self.contributors == o.contributors
        &&& self.zero_coupon_bond@.len() == o.zero_coupon_bond@.len()
    }

    /// The bond at `i` is the only one that changed, its terms kept.
    pub open spec fn only_bond_changed(&self, o: &Self, i: int) -> bool {
        &&& self.zero_coupon_bond@ == o.zero_coupon_bond@.update(i, self.zero_coupon_bond@[i])
        &&& same_terms(o.zero_coupon_bond@[i], self.zero_coupon_bond@[i])
    }

    /// The position of the latest bond generation of `creator`.
    pub fn latest_bond_index(&self, creator: ComponentAddress) -> (p: Option<usize>)
        ensures
            p matches Some(i) ==> latest_bond_position(self.zero_coupon_bond@, creator) == Some(
                i as int,
            ),
            p matches Some(i) ==> i < self.zero_coupon_bond@.len() && self.zero_coupon_bond@[i as int].creator == creator,
            p is None ==> latest_bond_position(self.zero_coupon_bond@, creator) is None,
    {
        let mut i: usize = self.zero_coupon_bond.len();
        while i > 0
            invariant
                i <= self.zero_coupon_bond@.len(),
                forall|j: int|
                    i <= j < self.zero_coupon_bond@.len() ==> self.zero_coupon_bond@[j].creator
                        != creator,
            decreases i,
        {
            i = i - 1;
            if self.zero_coupon_bond[i].creator == creator {
                proof {
                    let s = self.zero_coupon_bond@;
                    let k = i as int;
                    assert(0 <= k < s.len() && s[k].creator == creator && forall|j: int|
                        k < j < s.len() ==> s[j].creator != creator);
                    let c = choose|c: int|
                        0 <= c < s.len() && s[c].creator == creator && forall|j: int|
                            c < j < s.len() ==> s[j].creator != creator;
                    assert(c == k);
                }
                return Some(i);
            }
        }
        None
    }

    /// Issues a new generation of bonds for `your_address`: `number_of_bonds`
    /// whole units of a new resource, priced at `price` XRD, secured by the
    /// one unit of collateral in `nft_as_collateral`. It becomes the
    /// creator's latest generation. Returns the resource of the bond units.
    pub fn create_zero_coupon_bond(
        &mut self,
        contract_type: String,
        contract_role: String,
        contract_identifier: String,
        nominal_interest_rate: Decimal,
        currency: String,
        initial_exchange_date: u64,
        maturity_date: u64,
        notional_principal: Decimal,
        discount: u64,
        bond_position: String,
        price: u64,
        number_of_bonds: Decimal,
        your_address: ComponentAddress,
        nft_as_collateral: &mut Bucket,
    ) -> (r: Result<ResourceAddress, DaoError>)
        requires
            old(self).wf(),
        ensures
            final(self).wf(),
            ({
                let n = old(self).zero_coupon_bond@.len();
                let e = if !whole(number_of_bonds@) {
                    Some(DaoError::InvalidAmount)
                } else if old(nft_as_collateral).amount@ != units(1) {
                    Some(DaoError::InvalidAsset)
                } else if FIRST_BOND_INDEX + n > u64::MAX {
                    Some(DaoError::Overflow)
                } else {
                    None::<DaoError>
                };
                match e {
                    Some(e) => r == Err::<ResourceAddress, DaoError>(e) && *final(self) == *old(
                        self)
                        && *final(nft_as_collateral) == *old(nft_as_collateral),
                    None => {
                        let b = final(self).zero_coupon_bond@[n as int];
                        &&& r == Ok::<ResourceAddress, DaoError>(
                            issued(old(self).component_address, (FIRST_BOND_INDEX + n) as u64),
                        )
                        &&& final(self).zero_coupon_bond@.len() == n + 1
                        &&& final(self).zero_coupon_bond@.subrange(0, n as int) == old(self).zero_coupon_bond@
                        &&& latest_bond_position(final(self).zero_coupon_bond@, your_address)
                            == Some(n as int)
                        &&& b.creator == your_address
                        &&& b.price == price
                        &&& b.nominal_interest_rate == nominal_interest_rate
                        &&& b.maturity_date == maturity_date
                        &&& b.notional_principal == notional_principal
                        &&& b.discount == discount
                        &&& b.bonds.amount == number_of_bonds
                        &&& b.collected_xrd.amount@ == 0
                        &&& b.collateral.resource == old(nft_as_collateral).resource
                        &&& b.collateral.amount@ == units(1)
                        &&& !b.successful_claim_by_community
                        &&& !b.money_taken_by_creator
                        &&& final(nft_as_collateral).amount@ == 0
                        &&& final(self).same_config(old(self))
                        &&& final(self).same_governance(old(self))
                        &&& final(self).same_treasury(old(self))
                        &&& final(self).same_withdrawals(old(self))
                        &&& final(self).bonds == old(self).bonds
                        &&& emitted(
                            old(self).events@,
                            final(self).events@,
                            EventType::ZERO_COUPON_BOND_CREATION,
                        )
                    },
                }
            }),
    {
        if number_of_bonds.attos % ATTOS_PER_UNIT != 0 {
            return Err(DaoError::InvalidAmount);
        }
        if nft_as_collateral.amount.attos != ATTOS_PER_UNIT {
            return Err(DaoError::InvalidAsset);
        }
        let n = self.zero_coupon_bond.len();
        if n as u64 > u64::MAX - FIRST_BOND_INDEX {
            return Err(DaoError::Overflow);
        }
        let bond_resourse_address = ResourceAddress::Issued(
            self.component_address,
            FIRST_BOND_INDEX + n as u64,
        );
        let collateral_resource_address = nft_as_collateral.resource;
        let collateral = match nft_as_collateral.take(Decimal::one()) {
            Ok(c) => c,
            Err(e) => {
                return Err(e);
            },
        };
        let bond = match ZeroCouponBond::instantiate_zerocouponbond(
            your_address,
            contract_type.clone(),
            contract_role.clone(),
            contract_identifier.clone(),
            nominal_interest_rate,
            currency.clone(),
            initial_exchange_date,
            maturity_date,
            notional_principal,
            discount,
            bond_position.clone(),
            price,
            number_of_bonds,
            collateral,
            bond_resourse_address,
        ) {
            Ok(b) => b,
            Err(e) => {
                return Err(e);
            },
        };
        let ghost before = self.zero_coupon_bond@;
        self.zero_coupon_bond.push(bond);
        proof {
            let s = self.zero_coupon_bond@;
            let k = n as int;
            assert(s.subrange(0, k) =~= before);
            assert(s[k].creator == your_address);
            let c = choose|c: int|
                0 <= c < s.len() && s[c].creator == your_address && forall|j: int|
                    c < j < s.len() ==> s[j].creator != your_address;
            assert(c == k);
            assert forall|i: int| 0 <= i < s.len() implies (#[trigger] s[i]).wf()
                && s[i].bond_resourse_address == issued(
                self.component_address,
                (FIRST_BOND_INDEX + i) as u64,
            ) by {
                if i < k {
                    assert(s[i] == before[i]);
                }
            }
            assert(bonds_wf(s, self.component_address));
        }
        let event_metadata = ZeroCouponBondCreation {
            component_address: self.component_address,
            contract_type,
            contract_role,
            contract_identifier,
            nominal_interest_rate,
            currency,
            initial_exchange_date,
            maturity_date,
            notional_principal,
            discount,
            bond_position,
            price,
            number_of_bonds,
            creator_address: your_address,
            collateral_resource_address,
        };
        emit(
            &mut self.events,
            PandaoEvent {
                event_type: EventType::ZERO_COUPON_BOND_CREATION,
                dao_type: DaoType::Investment,
                component_address: self.component_address,
                meta_data: DaoEvent::ZeroCouponBondCreation(event_metadata),
            },
        );
        Ok(bond_resourse_address)
    }

    /// Buys one unit of the latest bond of `bond_creator_address` with
    /// `payment`, keeping the unit among the organization's bonds; the rest
    /// of the payment stays in `payment`.
    pub fn purchase_bond(&mut self, bond_creator_address: ComponentAddress, payment: &mut Bucket) -> (r:
        Result<(), DaoError>)
        requires
            old(self).wf(),
        ensures
            final(self).wf(),
            match latest_bond_position(old(self).zero_coupon_bond@, bond_creator_address) {
                None => r == Err::<(), DaoError>(DaoError::ReferenceNotFound) && *final(self) == *old(
                    self) && *final(payment) == *old(payment),
                Some(i) => {
                    let b = old(self).zero_coupon_bond@[i];
                    let unit_resource = b.bond_resourse_address;
                    match purchase_error(b, *old(payment)) {
                        Some(e) => r == Err::<(), DaoError>(e) && final(self).same_view(old(self))
                            && *final(payment) == *old(payment),
                        None => if !fits(old(self).bonds.balance(unit_resource) + units(1)) {
                            r == Err::<(), DaoError>(DaoError::Overflow) && *final(self) == *old(
                                self) && *final(payment) == *old(payment)
                        } else {
                            &&& r is Ok
                            &&& final(self).only_bond_changed(old(self), i)
                            &&& purchased(b, final(self).zero_coupon_bond@[i])
                            &&& final(payment).resource == old(payment).resource
                            &&& final(payment).amount@ == old(payment).amount@ - units(
                                b.price as int,
                            )
                            &&& forall|x: ResourceAddress| #[trigger]
                                final(self).bonds.balance(x) == old(self).bonds.balance(x) + if x
                                    == unit_resource {
                                    units(1)
                                } else {
                                    0
                                }
                            &&& final(self).same_config(old(self))
                            &&& final(self).same_governance(old(self))
                            &&& final(self).same_treasury(old(self))
                            &&& final(self).same_withdrawals(old(self))
                            &&& final(self).liquidated_collateral == old(self).liquidated_collateral
                            &&& final(self).events == old(self).events
                        },
                    }
                },
            },
    {
        let i = match self.latest_bond_index(bond_creator_address) {
            Some(i) => i,
            None => {
                return Err(DaoError::ReferenceNotFound);
            },
        };
        let unit_resource = self.zero_coupon_bond[i].bond_resourse_address;
        let ghost b = self.zero_coupon_bond@[i as int];
        if purchase_error_of(&self.zero_coupon_bond[i], payment).is_none() {
            if self.bonds.balance_of(unit_resource).checked_add(&Decimal::one()).is_none() {
                return Err(DaoError::Overflow);
            }
        }
        let ghost before = self.zero_coupon_bond@;
        let purchased_bond = match self.zero_coupon_bond[i].purchase_bond(payment) {
            Ok(u) => u,
            Err(e) => {
                proof {
                    assert(self.zero_coupon_bond@ =~= before);
                }
                return Err(e);
            },
        };
        proof {
            lemma_bond_update(before, i as int, self.zero_coupon_bond@[i as int], self.component_address);
        }
        match self.bonds.deposit(purchased_bond) {
            Ok(()) => Ok(()),
            Err(e) => Err(e),
        }
    }
}

impl TokenWeigtedDao {
    /// Sells one of the organization's units of the latest bond of
    /// `bond_creator_address` back to it, for the principal plus the
    /// discount, paid into the treasury.
    pub fn sell_bond(&mut self, bond_creator_address: ComponentAddress) -> (r: Result<(), DaoError>)
        requires
            old(self).wf(),
        ensures
            final(self).wf(),
            match latest_bond_position(old(self).zero_coupon_bond@, bond_creator_address) {
                None => r == Err::<(), DaoError>(DaoError::ReferenceNotFound) && *final(self) == *old(self),
                Some(i) => {
                    let b = old(self).zero_coupon_bond@[i];
                    let res = b.bond_resourse_address;
                    let e = if old(self).bonds.balance(res) < units(1) || b.collected_xrd.amount@
                        < b.refund() {
                        Some(DaoError::InsufficientBalance)
                    } else if !fits(b.bonds.amount@ + units(1)) || !fits(
                        old(self).shares.amount@ + b.refund(),
                    ) {
                        Some(DaoError::Overflow)
                    } else {
                        None::<DaoError>
                    };
                    match e {
                        Some(e) => r == Err::<(), DaoError>(e) && *final(self) == *old(self),
                        None => {
                            let nb = final(self).zero_coupon_bond@[i];
                            &&& r is Ok
                            &&& final(self).bond_call_frame(old(self))
                            &&& final(self).only_bond_changed(old(self), i)
                            &&& nb.bonds.amount@ == b.bonds.amount@ + units(1)
                            &&& nb.collected_xrd.amount@ == b.collected_xrd.amount@ - b.refund()
                            &&& nb.collateral == b.collateral
                            &&& flags_kept(b, nb)
                            &&& final(self).shares.amount@ == old(self).shares.amount@ + b.refund()
                            &&& forall|x: ResourceAddress| #[trigger]
                                final(self).bonds.balance(x) == old(self).bonds.balance(x) - if x
                                    == res {
                                    units(1)
                                } else {
                                    0
                                }
                            &&& final(self).liquidated_collateral == old(self).liquidated_collateral
                            &&& final(self).events == old(self).events
                        },
                    }
                },
            },
    {
        let i = match self.latest_bond_index(bond_creator_address) {
            Some(i) => i,
            None => {
                return Err(DaoError::ReferenceNotFound);
            },
        };
        let res = self.zero_coupon_bond[i].bond_resourse_address;
        let one = Decimal::one();
        if self.bonds.balance_of(res).lt(&one) {
            return Err(DaoError::InsufficientBalance);
        }
        let discount = Decimal::from_u64(self.zero_coupon_bond[i].discount);
        let refund_amount = match self.zero_coupon_bond[i].notional_principal.checked_add(&discount) {
            Some(a) => a,
            None => {
                return Err(DaoError::InsufficientBalance);
            },
        };
        if self.zero_coupon_bond[i].collected_xrd.amount.lt(&refund_amount) {
            return Err(DaoError::InsufficientBalance);
        }
        if self.zero_coupon_bond[i].bonds.amount.checked_add(&one).is_none()
            || self.shares.amount.checked_add(&refund_amount).is_none() {
            return Err(DaoError::Overflow);
        }
        let mut unit = match self.bonds.withdraw(res, one) {
            Ok(u) => u,
            Err(e) => {
                return Err(e);
            },
        };
        let ghost before = self.zero_coupon_bond@;
        let refund = match self.zero_coupon_bond[i].sell_the_bond(&mut unit) {
            Ok(b) => b,
            Err(e) => {
                return Err(e);
            },
        };
        proof {
            lemma_bond_update(before, i as int, self.zero_coupon_bond@[i as int], self.component_address);
        }
        match self.shares.put(refund) {
            Ok(()) => Ok(()),
            Err(e) => Err(e),
        }
    }

    /// Whole days from `now` (seconds since the Unix epoch) until the latest
    /// bond of `bond_creator_address` matures,
    /// negative once it has.
    pub fn check_bond_maturity(&self, bond_creator_address: ComponentAddress, now: u64) -> (r:
        Result<i64, DaoError>)
        ensures
            match latest_bond_position(self.zero_coupon_bond@, bond_creator_address) {
                None => r == Err::<i64, DaoError>(DaoError::ReferenceNotFound),
                Some(i) => r == Ok::<i64, DaoError>(
                    days_left(self.zero_coupon_bond@[i].maturity_date, now) as i64,
                ),
            },
    {
        match self.latest_bond_index(bond_creator_address) {
            Some(i) => Ok(self.zero_coupon_bond[i].check_the_maturity_of_bonds(now)),
            None => Err(DaoError::ReferenceNotFound),
        }
    }

    /// The details of the latest bond of `bond_creator_address`, its days to
    /// maturity counted from `now` (seconds since the Unix epoch).
    pub fn get_bond_details(&self, bond_creator_address: ComponentAddress, now: u64) -> (r:
        Result<BondDetails, DaoError>)
        ensures
            match latest_bond_position(self.zero_coupon_bond@, bond_creator_address) {
                None => r is Err && r->Err_0 == DaoError::ReferenceNotFound,
                Some(i) => r matches Ok(d) && {
                    let b = self.zero_coupon_bond@[i];
                    &&& d.contract_identifier == b.contract_identifier
                    &&& d.nominal_interest_rate == b.nominal_interest_rate
                    &&& d.maturity_date == b.maturity_date
                    &&& d.notional_principal == b.notional_principal
                    &&& d.discount == b.discount
                    &&& d.price == b.price
                    &&& d.amount == b.bonds.amount
                    &&& d.maturity_days_left == days_left(b.maturity_date, now)
                },
            },
    {
        match self.latest_bond_index(bond_creator_address) {
            Some(i) => Ok(self.zero_coupon_bond[i].get_bond_details(now)),
            None => Err(DaoError::ReferenceNotFound),
        }
    }

    /// Every address that has issued bonds, each once.
    pub fn get_bond_creator_addresses(&self) -> (r: Vec<ComponentAddress>)
        ensures
            r@.no_duplicates(),
            forall|a: ComponentAddress|
                r@.contains(a) <==> latest_bond_position(self.zero_coupon_bond@, a) is Some,
    {
        let mut r: Vec<ComponentAddress> = Vec::new();
        let mut i: usize = 0;
        while i < self.zero_coupon_bond.len()
            invariant
                i <= self.zero_coupon_bond@.len(),
                r@.no_duplicates(),
                forall|a: ComponentAddress|
                    r@.contains(a) <==> exists|j: int|
                        0 <= j < i && (#[trigger] self.zero_coupon_bond@[j]).creator == a,
            decreases self.zero_coupon_bond@.len() - i,
        {
            let c = self.zero_coupon_bond[i].creator;
            let mut seen = false;
            let mut k: usize = 0;
            while k < r.len()
                invariant
                    k <= r@.len(),
                    seen == exists|m: int| 0 <= m < k && r@[m] == c,
                decreases r@.len() - k,
            {
                if r[k] == c {
                    seen = true;
                }
                k = k + 1;
            }
            let ghost before = r@;
            if !seen {
                r.push(c);
                proof {
                    assert forall|x: int, y: int| 0 <= x < r@.len() && 0 <= y < r@.len() && x != y
                        implies r@[x] != r@[y] by {
                        if x == before.len() {
                            assert(before.contains(r@[y]));
                        } else if y == before.len() {
                            assert(before.contains(r@[x]));
                        }
                    }
                }
            }
            proof {
                assert forall|a: ComponentAddress|
                    r@.contains(a) <==> exists|j: int|
                        0 <= j < i + 1 && (#[trigger] self.zero_coupon_bond@[j]).creator == a by {
                    if r@.contains(a) && !before.contains(a) {
                        assert(self.zero_coupon_bond@[i as int].creator == a);
                    }
                    if exists|j: int| 0 <= j < i + 1 && (#[trigger] self.zero_coupon_bond@[j]).creator == a {
                        let j = choose|j: int| 0 <= j < i + 1 && (#[trigger] self.zero_coupon_bond@[j]).creator == a;
                        if j == i as int {
                            if seen {
                                let m = choose|m: int| 0 <= m < before.len() && before[m] == c;
                                assert(before.contains(a));
                            }
                            assert(r@.contains(a)) by {
                                if !seen {
                                    assert(r@[before.len() as int] == a);
                                }
                            }
                        } else {
                            assert(before.contains(a));
                            let m = choose|m: int| 0 <= m < before.len() && before[m] == a;
                            assert(r@[m] == a);
                        }
                    }
                }
            }
            i = i + 1;
        }
        r
    }

    /// Releases the collateral of the latest bond of `bond_creator_address`
    /// to its creator. It is released whether or not the community has
    /// claimed: only the event tells the two apart.
    pub fn get_back_the_collateral(&mut self, bond_creator_address: ComponentAddress) -> (r: Result<
        Bucket,
        DaoError,
    >)
        requires
            old(self).wf(),
        ensures
            final(self).wf(),
            match latest_bond_position(old(self).zero_coupon_bond@, bond_creator_address) {
                None => r is Err && r->Err_0 == DaoError::ReferenceNotFound && *final(self) == *old(self),
                Some(i) => {
                    let b = old(self).zero_coupon_bond@[i];
                    if b.collateral.amount@ < units(1) {
                        r is Err && r->Err_0 == DaoError::InsufficientBalance && *final(self) == *old(self)
                    } else {
                        let nb = final(self).zero_coupon_bond@[i];
                        &&& r matches Ok(c)
                        &&& r->Ok_0.resource == b.collateral.resource
                        &&& r->Ok_0.amount@ == units(1)
                        &&& final(self).bond_call_frame(old(self))
                        &&& final(self).only_bond_changed(old(self), i)
                        &&& nb.collateral.amount@ == b.collateral.amount@ - units(1)
                        &&& nb.collected_xrd == b.collected_xrd
                        &&& flags_kept(b, nb)
                        &&& final(self).shares == old(self).shares
                        &&& final(self).bonds == old(self).bonds
                        &&& final(self).liquidated_collateral == old(self).liquidated_collateral
                        &&& emitted(
                            old(self).events@,
                            final(self).events@,
                            if b.successful_claim_by_community {
                                EventType::COLLATERAL_GOT_BACK
                            } else {
                                EventType::FAILED_IN_GETTING_BACK_COLLATERAL
                            },
                        )
                        &&& (final(self).events@.last().meta_data matches DaoEvent::GetBackTheCollateral(m)
                            && m.bond_creator_address == bond_creator_address
                            && m.is_given_money_claimed_by_community == b.successful_claim_by_community
                            && m.resource_address_of_collateral == b.collateral.resource)
                    }
                },
            },
    {
        let i = match self.latest_bond_index(bond_creator_address) {
            Some(i) => i,
            None => {
                return Err(DaoError::ReferenceNotFound);
            },
        };
        if self.zero_coupon_bond[i].collateral.amount.lt(&Decimal::one()) {
            return Err(DaoError::InsufficientBalance);
        }
        let claimed = self.zero_coupon_bond[i].get_money_claim_status();
        let collateral_resource_address = self.zero_coupon_bond[i].get_resource_address_of_collateral();
        let ghost before = self.zero_coupon_bond@;
        let collateral = match self.zero_coupon_bond[i].get_back_the_collateral() {
            Ok(c) => c,
            Err(e) => {
                return Err(e);
            },
        };
        proof {
            lemma_bond_update(before, i as int, self.zero_coupon_bond@[i as int], self.component_address);
        }
        let (event_type, message) = if claimed {
            (EventType::COLLATERAL_GOT_BACK, String::from_str("collateral taken back successfully"))
        } else {
            (
                EventType::FAILED_IN_GETTING_BACK_COLLATERAL,
                String::from_str(
                    "you can not take your collateral back because community has not claimed the amount",
                ),
            )
        };
        let meta_data = GetBackTheCollateralEvent {
            bond_creator_address,
            is_given_money_claimed_by_community: claimed,
            resource_address_of_collateral: collateral_resource_address,
            message,
        };
        emit(
            &mut self.events,
            PandaoEvent {
                event_type,
                dao_type: DaoType::Investment,
                component_address: self.component_address,
                meta_data: DaoEvent::GetBackTheCollateral(meta_data),
            },
        );
        Ok(collateral)
    }

    /// Takes the collateral of the latest bond of `bond_creator_address` into
    /// the organization's custody, once `now` is after the maturity date.
    /// Before that the call is refused, with a failure event.
    pub fn liquidate_collateral(&mut self, bond_creator_address: ComponentAddress, now: i64) -> (r:
        Result<(), DaoError>)
        requires
            old(self).wf(),
        ensures
            final(self).wf(),
            match latest_bond_position(old(self).zero_coupon_bond@, bond_creator_address) {
                None => r == Err::<(), DaoError>(DaoError::ReferenceNotFound) && *final(self) == *old(self),
                Some(i) => {
                    let b = old(self).zero_coupon_bond@[i];
                    let cres = b.collateral.resource;
                    if !matured(b.maturity_date, now) {
                        &&& r == Err::<(), DaoError>(DaoError::MaturityNotReached)
                        &&& final(self).bond_call_frame(old(self))
                        &&& final(self).zero_coupon_bond == old(self).zero_coupon_bond
                        &&& final(self).shares == old(self).shares
                        &&& final(self).bonds == old(self).bonds
                        &&& final(self).liquidated_collateral == old(self).liquidated_collateral
                        &&& emitted(
                            old(self).events@,
                            final(self).events@,
                            EventType::COLLATERAL_LIQUIDATION_FAILED,
                        )
                    } else if b.collateral.amount@ < units(1) {
                        r == Err::<(), DaoError>(DaoError::InsufficientBalance) && *final(self) == *old(self)
                    } else if !fits(old(self).liquidated_collateral.balance(cres) + units(1)) {
                        r == Err::<(), DaoError>(DaoError::Overflow) && *final(self) == *old(self)
                    } else {
                        let nb = final(self).zero_coupon_bond@[i];
                        &&& r is Ok
                        &&& final(self).bond_call_frame(old(self))
                        &&& final(self).only_bond_changed(old(self), i)
                        &&& nb.collateral.amount@ == b.collateral.amount@ - units(1)
                        &&& nb.collected_xrd == b.collected_xrd
                        &&& flags_kept(b, nb)
                        &&& final(self).shares == old(self).shares
                        &&& final(self).bonds == old(self).bonds
                        &&& forall|x: ResourceAddress| #[trigger]
                            final(self).liquidated_collateral.balance(x) == old(
                                self).liquidated_collateral.balance(x) + if x == cres {
                                units(1)
                            } else {
                                0
                            }
                        &&& emitted(
                            old(self).events@,
                            final(self).events@,
                            EventType::LIQUIDATED_COLLATERAL,
                        )
                        &&& (final(self).events@.last().meta_data matches DaoEvent::LiquidatedCollateral(m)
                            && m.bond_creator_address == bond_creator_address
                            && m.liquidated_amount@ == units(1)
                            && m.collateral_resource_address == cres)
                    }
                },
            },
    {
        let i = match self.latest_bond_index(bond_creator_address) {
            Some(i) => i,
            None => {
                return Err(DaoError::ReferenceNotFound);
            },
        };
        let maturity_date = self.zero_coupon_bond[i].get_maturity_data();
        if now < 0 || maturity_date >= now as u64 {
            let event_metadata = CollateralLiquidationFailedEvent { bond_creator_address };
            emit(
                &mut self.events,
                PandaoEvent {
                    event_type: EventType::COLLATERAL_LIQUIDATION_FAILED,
                    dao_type: DaoType::Investment,
                    component_address: self.component_address,
                    meta_data: DaoEvent::CollateralLiquidationFailed(event_metadata),
                },
            );
            return Err(DaoError::MaturityNotReached);
        }
        let one = Decimal::one();
        if self.zero_coupon_bond[i].collateral.amount.lt(&one) {
            return Err(DaoError::InsufficientBalance);
        }
        let cres = self.zero_coupon_bond[i].collateral.resource;
        if self.liquidated_collateral.balance_of(cres).checked_add(&one).is_none() {
            return Err(DaoError::Overflow);
        }
        let ghost before = self.zero_coupon_bond@;
        let redeemed_collateral = match self.zero_coupon_bond[i].liquidate_collateral(now) {
            Ok(c) => c,
            Err(e) => {
                return Err(e);
            },
        };
        proof {
            lemma_bond_update(before, i as int, self.zero_coupon_bond@[i as int], self.component_address);
        }
        let liquidated_amount = redeemed_collateral.amount;
        match self.liquidated_collateral.deposit(redeemed_collateral) {
            Ok(()) => {},
            Err(e) => {
                return Err(e);
            },
        }
        let event_metadata = LiquidatedCollateralEvent {
            bond_creator_address,
            liquidated_amount,
            collateral_resource_address: cres,
        };
        emit(
            &mut self.events,
            PandaoEvent {
                event_type: EventType::LIQUIDATED_COLLATERAL,
                dao_type: DaoType::Investment,
                component_address: self.component_address,
                meta_data: DaoEvent::LiquidatedCollateral(event_metadata),
            },
        );
        Ok(())
    }
}

impl TokenWeigtedDao {
    /// The community claims the price plus interest from the latest bond of
    /// `bond_creator_address`. When the proceeds fall short, the collateral
    /// is liquidated instead (which needs `now` after maturity) and a
    /// shortfall event is emitted.
    #[verifier::rlimit(100)]
    #[verifier::spinoff_prover]
    pub fn claim_the_invested_XRDs_plus_interest(
        &mut self,
        bond_creator_address: ComponentAddress,
        now: i64,
    ) -> (r: Result<ClaimOutcome, DaoError>)
        requires
            old(self).wf(),
        ensures
            final(self).wf(),
            match latest_bond_position(old(self).zero_coupon_bond@, bond_creator_address) {
                None => r == Err::<ClaimOutcome, DaoError>(DaoError::ReferenceNotFound) && *final(self) == *old(self),
                Some(i) => {
                    let b = old(self).zero_coupon_bond@[i];
                    let nb = final(self).zero_coupon_bond@[i];
                    let cres = b.collateral.resource;
                    if !fits(b.required()) {
                        r == Err::<ClaimOutcome, DaoError>(DaoError::Overflow) && *final(self) == *old(self)
                    } else if b.collected_xrd.amount@ < b.required() {
                        if !matured(b.maturity_date, now) {
                            r == Err::<ClaimOutcome, DaoError>(DaoError::MaturityNotReached) && *final(self)
                                == *old(self)
                        } else if b.collateral.amount@ < units(1) {
                            r == Err::<ClaimOutcome, DaoError>(DaoError::InsufficientBalance) && *final(self)
                                == *old(self)
                        } else if !fits(old(self).liquidated_collateral.balance(cres) + units(1)) {
                            r == Err::<ClaimOutcome, DaoError>(DaoError::Overflow) && *final(self) == *old(self)
                        } else {
                            &&& r == Ok::<ClaimOutcome, DaoError>(ClaimOutcome::CollateralLiquidated)
                            &&& final(self).bond_call_frame(old(self))
                            &&& final(self).only_bond_changed(old(self), i)
                            &&& nb.collateral.amount@ == b.collateral.amount@ - units(1)
                            &&& nb.collected_xrd == b.collected_xrd
                            &&& flags_kept(b, nb)
                            &&& final(self).shares == old(self).shares
                            &&& final(self).bonds == old(self).bonds
                            &&& forall|x: ResourceAddress| #[trigger]
                                final(self).liquidated_collateral.balance(x) == old(
                                    self).liquidated_collateral.balance(x) + if x == cres {
                                    units(1)
                                } else {
                                    0
                                }
                            &&& emitted(
                                old(self).events@,
                                final(self).events@,
                                EventType::FAILED_CLAIM_INVESTED_XRDs_PLUS_INTEREST,
                            )
                            &&& final(self).events@.last().meta_data matches
                                DaoEvent::ClaimInvestedXRDsPlusInterestError(m) && m.collateral_liquidated
                                && m.bond_creator_address == bond_creator_address
                                && m.required_amount_by_the_community@ == b.required()
                                && m.balance_of_bond_issuer == b.collected_xrd.amount
                                && m.collateral_resource_address == cres
                                && m.liquidated_amount@ == units(1)
                        }
                    } else if !fits(old(self).shares.amount@ + b.required()) {
                        r == Err::<ClaimOutcome, DaoError>(DaoError::Overflow) && *final(self) == *old(self)
                    } else {
                        &&& r == Ok::<ClaimOutcome, DaoError>(ClaimOutcome::Claimed)
                        &&& final(self).bond_call_frame(old(self))
                        &&& final(self).only_bond_changed(old(self), i)
                        &&& nb.collected_xrd.amount@ == b.collected_xrd.amount@ - b.required()
                        &&& nb.collateral == b.collateral
                        &&& nb.successful_claim_by_community
                        &&& nb.money_taken_by_creator == b.money_taken_by_creator
                        &&& final(self).shares.amount@ == old(self).shares.amount@ + b.required()
                        &&& final(self).bonds == old(self).bonds
                        &&& final(self).liquidated_collateral == old(self).liquidated_collateral
                        &&& emitted(
                            old(self).events@,
                            final(self).events@,
                            EventType::CLAIM_INVESTED_XRDs_PLUS_INTEREST,
                        )
                        &&& (final(self).events@.last().meta_data matches DaoEvent::ClaimInvestedXRDsPlusInterest(m)
                            && m.bond_creator_address == bond_creator_address
                            && m.claimed_amount@ == b.required()
                            && m.amount_required_by_the_community@ == b.required()
                            && !m.collateral_liquidated)
                    }
                },
            },
    {
        let i = match self.latest_bond_index(bond_creator_address) {
            Some(i) => i,
            None => {
                return Err(DaoError::ReferenceNotFound);
            },
        };
        let required = match self.zero_coupon_bond[i].balance_required_by_the_community() {
            Ok(t) => t,
            Err(e) => {
                return Err(e);
            },
        };
        let balance = self.zero_coupon_bond[i].check_the_balance_of_bond_issuer();
        let one = Decimal::one();
        let ghost before = self.zero_coupon_bond@;
        if balance.lt(&required) {
            let maturity_date = self.zero_coupon_bond[i].get_maturity_data();
            if now < 0 || maturity_date >= now as u64 {
                return Err(DaoError::MaturityNotReached);
            }
            if self.zero_coupon_bond[i].collateral.amount.lt(&one) {
                return Err(DaoError::InsufficientBalance);
            }
            let cres = self.zero_coupon_bond[i].collateral.resource;
            if self.liquidated_collateral.balance_of(cres).checked_add(&one).is_none() {
                return Err(DaoError::Overflow);
            }
            let redeemed_collateral = match self.zero_coupon_bond[i].liquidate_collateral(now) {
                Ok(c) => c,
                Err(e) => {
                    return Err(e);
                },
            };
            proof {
                lemma_bond_update(before, i as int, self.zero_coupon_bond@[i as int], self.component_address);
            }
            let liquidated_amount = redeemed_collateral.amount;
            match self.liquidated_collateral.deposit(redeemed_collateral) {
                Ok(()) => {},
                Err(e) => {
                    return Err(e);
                },
            }
            let event_metadata = ClaimInvestedXRDsPlusInterestErrorEvent {
                bond_creator_address,
                required_amount_by_the_community: required,
                balance_of_bond_issuer: balance,
                collateral_liquidated: true,
                collateral_resource_address: cres,
                liquidated_amount,
            };
            emit(
                &mut self.events,
                PandaoEvent {
                    event_type: EventType::FAILED_CLAIM_INVESTED_XRDs_PLUS_INTEREST,
                    dao_type: DaoType::Investment,
                    component_address: self.component_address,
                    meta_data: DaoEvent::ClaimInvestedXRDsPlusInterestError(event_metadata),
                },
            );
            Ok(ClaimOutcome::CollateralLiquidated)
        } else {
            if self.shares.amount.checked_add(&required).is_none() {
                return Err(DaoError::Overflow);
            }
            let claimed = match self.zero_coupon_bond[i].claim_the_invested_XRDs_plus_interest() {
                Ok(c) => c,
                Err(e) => {
                    return Err(e);
                },
            };
            self.zero_coupon_bond[i].change_community_claim_status(true);
            proof {
                assert(self.zero_coupon_bond@ =~= before.update(i as int, self.zero_coupon_bond@[i as int]));
                lemma_bond_update(before, i as int, self.zero_coupon_bond@[i as int], self.component_address);
            }
            let claimed_amount = claimed.amount;
            match self.shares.put(claimed) {
                Ok(()) => {},
                Err(e) => {
                    return Err(e);
                },
            }
            let event_metadata = ClaimInvestedXRDsPlusInterestEvent {
                bond_creator_address,
                claimed_amount,
                amount_required_by_the_community: required,
                collateral_liquidated: false,
            };
            emit(
                &mut self.events,
                PandaoEvent {
                    event_type: EventType::CLAIM_INVESTED_XRDs_PLUS_INTEREST,
                    dao_type: DaoType::Investment,
                    component_address: self.component_address,
                    meta_data: DaoEvent::ClaimInvestedXRDsPlusInterest(event_metadata),
                },
            );
            Ok(ClaimOutcome::Claimed)
        }
    }

    /// The creator of the latest bond of `bond_creator_address` takes one
    /// bond price out of the proceeds. A second draw is not prevented.
    pub fn take_out_the_invested_XRDs_by_the_community(
        &mut self,
        bond_creator_address: ComponentAddress,
    ) -> (r: Result<Bucket, DaoError>)
        requires
            old(self).wf(),
        ensures
            final(self).wf(),
            match latest_bond_position(old(self).zero_coupon_bond@, bond_creator_address) {
                None => r is Err && r->Err_0 == DaoError::ReferenceNotFound && *final(self) == *old(self),
                Some(i) => {
                    let b = old(self).zero_coupon_bond@[i];
                    let nb = final(self).zero_coupon_bond@[i];
                    if b.collected_xrd.amount@ < units(b.price as int) {
                        r is Err && r->Err_0 == DaoError::InsufficientBalance && *final(self) == *old(self)
                    } else {
                        &&& r is Ok
                        &&& r->Ok_0.resource == ResourceAddress::Xrd
                        &&& r->Ok_0.amount@ == units(b.price as int)
                        &&& final(self).bond_call_frame(old(self))
                        &&& final(self).only_bond_changed(old(self), i)
                        &&& nb.collected_xrd.amount@ == b.collected_xrd.amount@ - units(b.price as int)
                        &&& nb.collateral == b.collateral
                        &&& flags_kept(b, nb)
                        &&& final(self).shares == old(self).shares
                        &&& final(self).bonds == old(self).bonds
                        &&& final(self).liquidated_collateral == old(self).liquidated_collateral
                        &&& emitted(
                            old(self).events@,
                            final(self).events@,
                            EventType::TAKE_OUT_INVESTED_XRDs,
                        )
                    }
                },
            },
    {
        let i = match self.latest_bond_index(bond_creator_address) {
            Some(i) => i,
            None => {
                return Err(DaoError::ReferenceNotFound);
            },
        };
        let price = Decimal::from_u64(self.zero_coupon_bond[i].price);
        if self.zero_coupon_bond[i].collected_xrd.amount.lt(&price) {
            return Err(DaoError::InsufficientBalance);
        }
        let ghost before = self.zero_coupon_bond@;
        let taken = match self.zero_coupon_bond[i].take_out_the_invested_XRDs_by_the_community() {
            Ok(t) => t,
            Err(e) => {
                return Err(e);
            },
        };
        proof {
            lemma_bond_update(before, i as int, self.zero_coupon_bond@[i as int], self.component_address);
        }
        let event_metadata = TakeOutInvestedXRDsEvent {
            bond_creator_address,
            taken_out_amount: taken.amount,
        };
        emit(
            &mut self.events,
            PandaoEvent {
                event_type: EventType::TAKE_OUT_INVESTED_XRDs,
                dao_type: DaoType::Investment,
                component_address: self.component_address,
                meta_data: DaoEvent::TakeOutInvestedXRDs(event_metadata),
            },
        );
        Ok(taken)
    }

    /// The creator of the latest bond of `bond_creator_address` pays back.
    /// Up to what the community is owed is taken from `payment` (the rest
    /// stays there as change). Once the proceeds cover the claim, the
    /// collateral is returned; otherwise an empty bucket of the collateral
    /// resource is, and the event reports what is still missing.
    pub fn put_in_money_plus_interest_for_the_community_to_redeem(
        &mut self,
        bond_creator_address: ComponentAddress,
        payment: &mut Bucket,
    ) -> (r: Result<Bucket, DaoError>)
        requires
            old(self).wf(),
        ensures
            final(self).wf(),
            match latest_bond_position(old(self).zero_coupon_bond@, bond_creator_address) {
                None => r is Err && r->Err_0 == DaoError::ReferenceNotFound && *final(self) == *old(self)
                    && *final(payment) == *old(payment),
                Some(i) => {
                    let b = old(self).zero_coupon_bond@[i];
                    let nb = final(self).zero_coupon_bond@[i];
                    let required = b.required();
                    let taken = if old(payment).amount@ >= required {
                        required
                    } else {
                        old(payment).amount@
                    };
                    let repaid = b.collected_xrd.amount@ + taken >= required;
                    let e = if old(payment).resource != ResourceAddress::Xrd {
                        Some(DaoError::InvalidAsset)
                    } else if !fits(required) || !fits(b.collected_xrd.amount@ + taken) {
                        Some(DaoError::Overflow)
                    } else if repaid && b.collateral.amount@ < units(1) {
                        Some(DaoError::InsufficientBalance)
                    } else {
                        None::<DaoError>
                    };
                    match e {
                        Some(e) => r is Err && r->Err_0 == e && *final(self) == *old(self) && *final(payment)
                            == *old(payment),
                        None => {
                            &&& r is Ok
                            &&& final(payment).resource == old(payment).resource
                            &&& final(payment).amount@ == old(payment).amount@ - taken
                            &&& final(self).bond_call_frame(old(self))
                            &&& final(self).only_bond_changed(old(self), i)
                            &&& nb.collected_xrd.amount@ == b.collected_xrd.amount@ + taken
                            &&& r->Ok_0.resource == b.collateral.resource
                            &&& if repaid {
                                &&& r->Ok_0.amount@ == units(1)
                                &&& nb.collateral.amount@ == b.collateral.amount@ - units(1)
                            } else {
                                &&& r->Ok_0.amount@ == 0
                                &&& nb.collateral == b.collateral
                            }
                            &&& flags_kept(b, nb)
                            &&& final(self).shares == old(self).shares
                            &&& final(self).bonds == old(self).bonds
                            &&& final(self).liquidated_collateral == old(self).liquidated_collateral
                            &&& emitted(
                                old(self).events@,
                                final(self).events@,
                                if repaid {
                                    EventType::PUT_IN_MONEY_PLUS_INTEREST
                                } else {
                                    EventType::PUT_IN_LESS_MONEY_PLUS_INTEREST
                                },
                            )
                            &&& (final(self).events@.last().meta_data matches DaoEvent::PutInMoneyPlusInterest(m)
                                && m.bond_creator_address == bond_creator_address
                                && m.amount_getting_deposited == old(payment).amount
                                && m.amount_required_by_the_community@ == required
                                && m.amount_taken_by_the_community@ == taken
                                && m.extra_amount_given_back_to_the_sender == final(payment).amount
                                && m.more_xrd_amount_required_by_the_community@ == (if repaid {
                                    0
                                } else {
                                    required - old(payment).amount@
                                })
                                && m.collateral_given_back == repaid)
                        },
                    }
                },
            },
    {
        let i = match self.latest_bond_index(bond_creator_address) {
            Some(i) => i,
            None => {
                return Err(DaoError::ReferenceNotFound);
            },
        };
        if payment.resource != ResourceAddress::Xrd {
            return Err(DaoError::InvalidAsset);
        }
        let required = match self.zero_coupon_bond[i].balance_required_by_the_community() {
            Ok(t) => t,
            Err(e) => {
                return Err(e);
            },
        };
        let amount_getting_deposited = payment.amount;
        let taken_amount = if required.le(&amount_getting_deposited) {
            required
        } else {
            amount_getting_deposited
        };
        let new_balance = match self.zero_coupon_bond[i].collected_xrd.amount.checked_add(
            &taken_amount,
        ) {
            Some(b) => b,
            None => {
                return Err(DaoError::Overflow);
            },
        };
        let repaid = required.le(&new_balance);
        if repaid && self.zero_coupon_bond[i].collateral.amount.lt(&Decimal::one()) {
            return Err(DaoError::InsufficientBalance);
        }
        let collateral_resource_address = self.zero_coupon_bond[i].collateral.resource;
        let ghost before = self.zero_coupon_bond@;
        match self.zero_coupon_bond[i].put_in_money_plus_interest_for_the_community_to_redeem(
            payment,
        ) {
            Ok(()) => {},
            Err(e) => {
                return Err(e);
            },
        }
        let extra_money_amount = payment.amount;
        let returned = if repaid {
            match self.zero_coupon_bond[i].get_back_the_collateral() {
                Ok(c) => c,
                Err(e) => {
                    return Err(e);
                },
            }
        } else {
            Bucket::empty(collateral_resource_address)
        };
        proof {
            assert(self.zero_coupon_bond@ =~= before.update(i as int, self.zero_coupon_bond@[i as int]));
            lemma_bond_update(before, i as int, self.zero_coupon_bond@[i as int], self.component_address);
        }
        let more_required = if repaid {
            Decimal::zero()
        } else {
            Decimal { attos: required.attos - amount_getting_deposited.attos }
        };
        let event_metadata = PutInMoneyPlusInterestEvent {
            bond_creator_address,
            amount_getting_deposited,
            amount_required_by_the_community: required,
            amount_taken_by_the_community: taken_amount,
            extra_amount_given_back_to_the_sender: extra_money_amount,
            more_xrd_amount_required_by_the_community: more_required,
            collateral_given_back: repaid,
        };
        emit(
            &mut self.events,
            PandaoEvent {
                event_type: if repaid {
                    EventType::PUT_IN_MONEY_PLUS_INTEREST
                } else {
                    EventType::PUT_IN_LESS_MONEY_PLUS_INTEREST
                },
                dao_type: DaoType::Investment,
                component_address: self.component_address,
                meta_data: DaoEvent::PutInMoneyPlusInterest(event_metadata),
            },
        );
        Ok(returned)
    }

    /// The proceeds held by the latest bond of `bond_creator_address`,
    /// reported in an event too.
    pub fn check_the_balance_of_bond_issuer(&mut self, bond_creator_address: ComponentAddress) -> (r:
        Result<Decimal, DaoError>)
        requires
            old(self).wf(),
        ensures
            final(self).wf(),
            match latest_bond_position(old(self).zero_coupon_bond@, bond_creator_address) {
                None => r == Err::<Decimal, DaoError>(DaoError::ReferenceNotFound) && *final(self) == *old(self),
                Some(i) => {
                    &&& r == Ok::<Decimal, DaoError>(old(self).zero_coupon_bond@[i].collected_xrd.amount)
                    &&& final(self).bond_call_frame(old(self))
                    &&& final(self).zero_coupon_bond == old(self).zero_coupon_bond
                    &&& final(self).shares == old(self).shares
                    &&& final(self).bonds == old(self).bonds
                    &&& final(self).liquidated_collateral == old(self).liquidated_collateral
                    &&& emitted(
                        old(self).events@,
                        final(self).events@,
                        EventType::CHECK_BOND_ISSUER_BALANCE,
                    )
                },
            },
    {
        let i = match self.latest_bond_index(bond_creator_address) {
            Some(i) => i,
            None => {
                return Err(DaoError::ReferenceNotFound);
            },
        };
        let balance = self.zero_coupon_bond[i].check_the_balance_of_bond_issuer();
        let event_metadata = CheckBondIssuerBalanceEvent { bond_creator_address, balance };
        emit(
            &mut self.events,
            PandaoEvent {
                event_type: EventType::CHECK_BOND_ISSUER_BALANCE,
                dao_type: DaoType::Investment,
                component_address: self.component_address,
                meta_data: DaoEvent::CheckBondIssuerBalance(event_metadata),
            },
        );
        Ok(balance)
    }

    /// Sweeps all the proceeds of the latest bond of `bond_creator_address`
    /// into the treasury, meant for after a liquidation; nothing checks
    /// that one took place.
    pub fn transfer_xrds_to_community_vault(&mut self, bond_creator_address: ComponentAddress) -> (r:
        Result<(), DaoError>)
        requires
            old(self).wf(),
        ensures
            final(self).wf(),
            match latest_bond_position(old(self).zero_coupon_bond@, bond_creator_address) {
                None => r == Err::<(), DaoError>(DaoError::ReferenceNotFound) && *final(self) == *old(self),
                Some(i) => {
                    let b = old(self).zero_coupon_bond@[i];
                    let nb = final(self).zero_coupon_bond@[i];
                    if !fits(b.required()) || !fits(
                        old(self).shares.amount@ + b.collected_xrd.amount@,
                    ) {
                        r == Err::<(), DaoError>(DaoError::Overflow) && *final(self) == *old(self)
                    } else {
                        &&& r is Ok
                        &&& final(self).bond_call_frame(old(self))
                        &&& final(self).only_bond_changed(old(self), i)
                        &&& nb.collected_xrd.amount@ == 0
                        &&& nb.collateral == b.collateral
                        &&& flags_kept(b, nb)
                        &&& final(self).shares.amount@ == old(self).shares.amount@
                            + b.collected_xrd.amount@
                        &&& final(self).bonds == old(self).bonds
                        &&& final(self).liquidated_collateral == old(self).liquidated_collateral
                        &&& emitted(
                            old(self).events@,
                            final(self).events@,
                            EventType::FORCE_TRANSFER_OF_FUNDS,
                        )
                        &&& (final(self).events@.last().meta_data matches DaoEvent::ForceTransferFunds(m)
                            && m.bond_creator_address == bond_creator_address
                            && m.required_amount@ == b.required()
                            && m.bond_component_balance == b.collected_xrd.amount
                            && m.transferred_amount_to_community_vault == b.collected_xrd.amount)
                    }
                },
            },
    {
        let i = match self.latest_bond_index(bond_creator_address) {
            Some(i) => i,
            None => {
                return Err(DaoError::ReferenceNotFound);
            },
        };
        let required_xrds = match self.zero_coupon_bond[i].balance_required_by_the_community() {
            Ok(t) => t,
            Err(e) => {
                return Err(e);
            },
        };
        let bond_component_balance = self.zero_coupon_bond[i].check_the_balance_of_bond_issuer();
        if self.shares.amount.checked_add(&bond_component_balance).is_none() {
            return Err(DaoError::Overflow);
        }
        let ghost before = self.zero_coupon_bond@;
        let creator_xrds = self.zero_coupon_bond[i].force_transfer_deposited_xrds();
        proof {
            lemma_bond_update(before, i as int, self.zero_coupon_bond@[i as int], self.component_address);
        }
        match self.shares.put(creator_xrds) {
            Ok(()) => {},
            Err(e) => {
                return Err(e);
            },
        }
        let event = ForceTransferFunds {
            bond_creator_address,
            required_amount: required_xrds,
            bond_component_balance,
            transferred_amount_to_community_vault: bond_component_balance,
        };
        emit(
            &mut self.events,
            PandaoEvent {
                event_type: EventType::FORCE_TRANSFER_OF_FUNDS,
                dao_type: DaoType::Investment,
                component_address: self.component_address,
                meta_data: DaoEvent::ForceTransferFunds(event),
            },
        );
        Ok(())
    }
}

impl TokenWeigtedDao {
    /// Every bond generation issued, oldest first: its creator and the
    /// resource of its units.
    pub fn get_bond_creators(&self) -> (r: Vec<(ComponentAddress, ResourceAddress)>)
        ensures
            r@.len() == self.zero_coupon_bond@.len(),
            forall|k: int|
                0 <= k < r@.len() ==> r@[k] == (
                self.zero_coupon_bond@[k].creator,
                self.zero_coupon_bond@[k].bond_resourse_address,
                ),
    {
        let mut r: Vec<(ComponentAddress, ResourceAddress)> = Vec::new();
        let mut i: usize = 0;
        while i < self.zero_coupon_bond.len()
            invariant
                i <= self.zero_coupon_bond@.len(),
                r@.len() == i,
                forall|k: int|
                    0 <= k < i ==> r@[k] == (
                    self.zero_coupon_bond@[k].creator,
                    self.zero_coupon_bond@[k].bond_resourse_address,
                    ),
            decreases self.zero_coupon_bond@.len() - i,
        {
            r.push((self.zero_coupon_bond[i].creator, self.zero_coupon_bond[i].bond_resourse_address));
            i = i + 1;
        }
        r
    }

    /// Every bond generation issued, oldest first: its creator and its
    /// details at `now` (seconds since the Unix epoch).
    pub fn get_bond_creator_and_details(&self, now: u64) -> (r: Vec<
        (ComponentAddress, BondDetails),
    >)
        ensures
            r@.len() == self.zero_coupon_bond@.len(),
            forall|k: int|
                0 <= k < r@.len() ==> {
                    let b = self.zero_coupon_bond@[k];
                    &&& (#[trigger] r@[k]).0 == b.creator
                    &&& r@[k].1.contract_identifier == b.contract_identifier
                    &&& r@[k].1.price == b.price
                    &&& r@[k].1.amount == b.bonds.amount
                    &&& r@[k].1.maturity_date == b.maturity_date
                    &&& r@[k].1.maturity_days_left == days_left(b.maturity_date, now)
                },
    {
        let mut r: Vec<(ComponentAddress, BondDetails)> = Vec::new();
        let mut i: usize = 0;
        while i < self.zero_coupon_bond.len()
            invariant
                i <= self.zero_coupon_bond@.len(),
                r@.len() == i,
                forall|k: int|
                    0 <= k < i ==> {
                        let b = self.zero_coupon_bond@[k];
                        &&& (#[trigger] r@[k]).0 == b.creator
                        &&& r@[k].1.contract_identifier == b.contract_identifier
                        &&& r@[k].1.price == b.price
                        &&& r@[k].1.amount == b.bonds.amount
                        &&& r@[k].1.maturity_date == b.maturity_date
                        &&& r@[k].1.maturity_days_left == days_left(b.maturity_date, now)
                    },
            decreases self.zero_coupon_bond@.len() - i,
        {
            let details = self.zero_coupon_bond[i].get_bond_details(now);
            r.push((self.zero_coupon_bond[i].creator, details));
            i = i + 1;
        }
        r
    }
}

/// Why selling one unit of `b` for `payment` is refused, if it is.
pub(crate) fn purchase_error_of(b: &ZeroCouponBond, payment: &Bucket) -> (r: Option<DaoError>)
    ensures
        r == purchase_error(*b, *payment),
{
    let price = Decimal::from_u64(b.price);
    if payment.resource != ResourceAddress::Xrd {
        Some(DaoError::InvalidAsset)
    } else if payment.amount.lt(&price) {
        Some(DaoError::InsufficientPayment)
    } else if b.bonds.amount.lt(&Decimal::one()) {
        Some(DaoError::InsufficientBalance)
    } else if b.collected_xrd.amount.checked_add(&price).is_none() {
        Some(DaoError::Overflow)
    } else {
        None
    }
}

} // verus!
