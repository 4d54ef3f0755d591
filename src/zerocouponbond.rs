use vstd::prelude::*;

use crate::decimal::{fits, units, Decimal, ATTOS_PER_UNIT};
use crate::error::DaoError;
use crate::ledger::{Bucket, ComponentAddress, ResourceAddress, Vault};

verus! {

/// Seconds in a day.
pub const SECONDS_IN_DAY: u64 = 86400;

/// The terms of a bond and what remains of it, as reported to investors.
#[derive(Debug, PartialEq)]
pub struct BondDetails {
    pub contract_type: String,
    pub contract_role: String,
    pub contract_identifier: String,
    pub nominal_interest_rate: Decimal,
    pub currency: String,
    pub initial_exchange_date: u64,
    pub maturity_date: u64,
    pub notional_principal: Decimal,
    pub discount: u64,
    pub bond_position: String,
    pub price: u64,
    pub amount: Decimal,
    pub maturity_days_left: i64,
}

/// One generation of zero-coupon bonds issued by `creator`: unsold bond
/// units, the proceeds of their sales, and the collateral that the creator
/// posted.
#[derive(Debug)]
pub struct ZeroCouponBond {
    pub creator: ComponentAddress,
    pub contract_type: String,
    pub contract_role: String,
    pub contract_identifier: String,
    pub nominal_interest_rate: Decimal,
    pub currency: String,
    pub initial_exchange_date: u64,
    pub maturity_date: u64,
    pub notional_principal: Decimal,
    pub discount: u64,
    pub bond_position: String,
    /// Bond units not sold yet.
    pub bonds: Vault,
    /// The proceeds of sales, drawn by investors and the creator.
    pub collected_xrd: Vault,
    /// The price of one bond unit, in whole XRD.
    pub price: u64,
    pub bond_resourse_address: ResourceAddress,
    /// The creator's collateral: one unit until it is released or liquidated.
    pub collateral: Vault,
    pub money_taken_by_creator: bool,
    pub successful_claim_by_community: bool,
}

/// `n / d` rounded toward zero, for a positive `d`.
pub open spec fn div_toward_zero(n: int, d: int) -> int {
    if n >= 0 {
        n / d
    } else {
        -((-n) / d)
    }
}

/// Whole days from `now` (seconds since the Unix epoch) to `maturity_date`,
/// negative once matured.
pub open spec fn days_left(maturity_date: u64, now: u64) -> int {
    div_toward_zero(maturity_date - now, SECONDS_IN_DAY as int)
}

/// What the community is owed per bond: the price plus simple interest at
/// `rate` percent, the rate divided by a hundred first, in attos.
pub open spec fn required_attos(rate: int, price: u64) -> int {
    units(price as int) + (rate / 100) * price
}

/// Whether `now` (seconds since the Unix epoch) is strictly after `maturity_date`.
pub open spec fn matured(maturity_date: u64, now: i64) -> bool {
    (maturity_date as int) < (now as int)
}

/// Whether the amount is a whole number of units.
pub open spec fn whole(a: int) -> bool {
    a % ATTOS_PER_UNIT as int == 0
}

/// The terms and the identity of a bond are the same in `a` and `b`.
pub open spec fn same_terms(a: ZeroCouponBond, b: ZeroCouponBond) -> bool {
    &&& a.creator == b.creator
    &&& a.contract_type == b.contract_type
    &&& a.contract_role == b.contract_role
    &&& a.contract_identifier == b.contract_identifier
    &&& a.nominal_interest_rate == b.nominal_interest_rate
    &&& a.currency == b.currency
    &&& a.initial_exchange_date == b.initial_exchange_date
    &&& a.maturity_date == b.maturity_date
    &&& a.notional_principal == b.notional_principal
    &&& a.discount == b.discount
    &&& a.bond_position == b.bond_position
    &&& a.price == b.price
    &&& a.bond_resourse_address == b.bond_resourse_address
}

/// Why selling one unit of `b` for `payment` is refused, if it is.
pub open spec fn purchase_error(b: ZeroCouponBond, payment: Bucket) -> Option<DaoError> {
    if payment.resource != ResourceAddress::Xrd {
        Some(DaoError::InvalidAsset)
    } else if payment.amount@ < units(b.price as int) {
        Some(DaoError::InsufficientPayment)
    } else if b.bonds.amount@ < units(1) {
        Some(DaoError::InsufficientBalance)
    } else if !fits(b.collected_xrd.amount@ + units(b.price as int)) {
        Some(DaoError::Overflow)
    } else {
        None
    }
}

/// `after` is `before` once one unit was sold: one price more in the
/// proceeds, one unit fewer for sale, all else as it was.
pub open spec fn purchased(before: ZeroCouponBond, after: ZeroCouponBond) -> bool {
    &&& same_terms(before, after)
    &&& after.bonds.resource == before.bonds.resource
    &&& after.bonds.amount@ == before.bonds.amount@ - units(1)
    &&& after.collected_xrd.resource == before.collected_xrd.resource
    &&& after.collected_xrd.amount@ == before.collected_xrd.amount@ + units(before.price as int)
    &&& after.collateral == before.collateral
    &&& after.money_taken_by_creator == before.money_taken_by_creator
    &&& after.successful_claim_by_community == before.successful_claim_by_community
}

impl ZeroCouponBond {
    /// Bonds, proceeds and collateral are each kept in their own resource,
    /// proceeds are in XRD, and at most one unit of collateral is held.
    pub open spec fn wf(&self) -> bool {
        &&& self.bonds.resource == self.bond_resourse_address
        &&& self.collected_xrd.resource == ResourceAddress::Xrd
        &&& self.collateral.amount@ <= units(1)
    }

    pub open spec fn required(&self) -> int {
        required_attos(self.nominal_interest_rate@, self.price)
    }

    /// Issues `number_of_bonds` whole bond units of the resource
    /// `bond_resourse_address`, priced at `price` XRD each, secured by one
    /// unit of collateral.
    pub fn instantiate_zerocouponbond(
        creator: ComponentAddress,
        contract_type: String,
        contract_role: String,
        contract_identifier: String,
        nominal_interest_rate: Decimal,
        currency: String,
        initial_exchange_date: u64,
        maturity_date: u64,
        notional_principal: Decimal,
        discount: u64,
        bond_position: String,
        price: u64,
        number_of_bonds: Decimal,
        nft_as_collateral: Bucket,
        bond_resourse_address: ResourceAddress,
    ) -> (r: Result<ZeroCouponBond, DaoError>)
        ensures
            r is Ok <==> whole(number_of_bonds@) && nft_as_collateral.amount@ == units(1),
            !whole(number_of_bonds@) ==> r == Err::<ZeroCouponBond, DaoError>(
                DaoError::InvalidAmount,
            ),
            whole(number_of_bonds@) && nft_as_collateral.amount@ != units(1) ==> r == Err::<
                ZeroCouponBond,
                DaoError,
            >(DaoError::InvalidAsset),
            r matches Ok(b) ==> {
                &&& b.wf()
                &&& b.creator == creator
                &&& b.contract_type == contract_type
                &&& b.contract_role == contract_role
                &&& b.contract_identifier == contract_identifier
                &&& b.nominal_interest_rate == nominal_interest_rate
                &&& b.currency == currency
                &&& b.initial_exchange_date == initial_exchange_date
                &&& b.maturity_date == maturity_date
                &&& b.notional_principal == notional_principal
                &&& b.discount == discount
                &&& b.bond_position == bond_position
                &&& b.price == price
                &&& b.bond_resourse_address == bond_resourse_address
                &&& b.bonds.amount == number_of_bonds
                &&& b.collected_xrd.amount@ == 0
                &&& b.collateral.resource == nft_as_collateral.resource
                &&& b.collateral.amount@ == units(1)
                &&& !b.money_taken_by_creator
                &&& !b.successful_claim_by_community
            },
    {
        if number_of_bonds.attos % ATTOS_PER_UNIT != 0 {
            return Err(DaoError::InvalidAmount);
        }
        if nft_as_collateral.amount.attos != ATTOS_PER_UNIT {
            return Err(DaoError::InvalidAsset);
        }
        Ok(ZeroCouponBond {
            creator,
            contract_type,
            contract_role,
            contract_identifier,
            nominal_interest_rate,
            currency,
            initial_exchange_date,
            maturity_date,
            notional_principal,
            discount,
            bond_position,
            bonds: Vault::with_bucket(Bucket::new(bond_resourse_address, number_of_bonds)),
            collected_xrd: Vault::new(ResourceAddress::Xrd),
            price,
            bond_resourse_address,
            collateral: Vault::with_bucket(nft_as_collateral),
            money_taken_by_creator: false,
            successful_claim_by_community: false,
        })
    }

    pub fn get_resource_address(&self) -> (r: ResourceAddress)
        ensures
            r == self.bond_resourse_address,
    {
        self.bond_resourse_address
    }

    /// Sells one bond unit: `price` XRD is taken from `payment` into the
    /// proceeds, and the rest of the payment stays with the buyer.
    pub fn purchase_bond(&mut self, payment: &mut Bucket) -> (r: Result<Bucket, DaoError>)
        requires
            old(self).wf(),
        ensures
            final(self).wf(),
            match purchase_error(*old(self), *old(payment)) {
                Some(e) => r == Err::<Bucket, DaoError>(e) && *final(self) == *old(self)
                    && *final(payment) == *old(payment),
                None => r matches Ok(unit) && {
                    &&& unit.resource == old(self).bond_resourse_address
                    &&& unit.amount@ == units(1)
                    &&& final(payment).resource == old(payment).resource
                    &&& final(payment).amount@ == old(payment).amount@ - units(
                        old(self).price as int,
                    )
                    &&& purchased(*old(self), *final(self))
                },
            },
    {
        let price = Decimal::from_u64(self.price);
        if payment.resource != ResourceAddress::Xrd {
            return Err(DaoError::InvalidAsset);
        }
        if payment.amount.lt(&price) {
            return Err(DaoError::InsufficientPayment);
        }
        if self.bonds.amount.lt(&Decimal::one()) {
            return Err(DaoError::InsufficientBalance);
        }
        if self.collected_xrd.amount.checked_add(&price).is_none() {
            return Err(DaoError::Overflow);
        }
        let our_share = match payment.take(price) {
            Ok(b) => b,
            Err(e) => {
                return Err(e);
            },
        };
        match self.collected_xrd.put(our_share) {
            Ok(()) => {},
            Err(e) => {
                return Err(e);
            },
        }
        self.bonds.take(Decimal::one())
    }

    /// The refund for one bond unit sold back: the notional principal plus the discount.
    pub open spec fn refund(&self) -> int {
        self.notional_principal@ + units(self.discount as int)
    }

    /// Buys back the single bond unit in `bond` for the principal plus the
    /// discount, paid from the proceeds.
    pub fn sell_the_bond(&mut self, bond: &mut Bucket) -> (r: Result<Bucket, DaoError>)
        requires
            old(self).wf(),
        ensures
            same_terms(*old(self), *final(self)),
            final(self).money_taken_by_creator == old(self).money_taken_by_creator,
            final(self).successful_claim_by_community == old(self).successful_claim_by_community,
            final(self).wf(),
            r is Ok <==> {
                &&& old(bond).amount@ == units(1)
                &&& old(bond).resource == old(self).bonds.resource
                &&& old(self).refund() <= old(self).collected_xrd.amount@
                &&& fits(old(self).bonds.amount@ + units(1))
            },
            r matches Ok(refund) ==> {
                &&& refund.resource == ResourceAddress::Xrd
                &&& refund.amount@ == old(self).refund()
                &&& final(bond).amount@ == 0
                &&& final(self).bonds.amount@ == old(self).bonds.amount@ + units(1)
                &&& final(self).collected_xrd.amount@ == old(self).collected_xrd.amount@ - old(self).refund()
                &&& final(self).collateral == old(self).collateral
            },
            r matches Err(e) ==> *final(self) == *old(self) && *final(bond) == *old(bond) && e == (
            if old(bond).amount@ != units(1) || old(bond).resource != old(self).bonds.resource {
                DaoError::InvalidAsset
            } else if old(self).collected_xrd.amount@ < old(self).refund() {
                DaoError::InsufficientBalance
            } else {
                DaoError::Overflow
            }),
    {
        if bond.amount.attos != ATTOS_PER_UNIT || bond.resource != self.bonds.resource {
            return Err(DaoError::InvalidAsset);
        }
        let discount = Decimal::from_u64(self.discount);
        let refund_amount = match self.notional_principal.checked_add(&discount) {
            Some(a) => a,
            None => {
                return Err(DaoError::InsufficientBalance);
            },
        };
        if self.collected_xrd.amount.lt(&refund_amount) {
            return Err(DaoError::InsufficientBalance);
        }
        if self.bonds.amount.checked_add(&bond.amount).is_none() {
            return Err(DaoError::Overflow);
        }
        let unit = match bond.take(Decimal::one()) {
            Ok(u) => u,
            Err(e) => {
                return Err(e);
            },
        };
        match self.bonds.put(unit) {
            Ok(()) => {},
            Err(e) => {
                return Err(e);
            },
        }
        self.collected_xrd.take(refund_amount)
    }

    /// Whole days until maturity at `now` (seconds since the Unix epoch),
    /// rounded toward zero and negative once the bond has matured.
    pub fn check_the_maturity_of_bonds(&self, now: u64) -> (r: i64)
        ensures
            r == days_left(self.maturity_date, now),
    {
        if self.maturity_date >= now {
            ((self.maturity_date - now) / SECONDS_IN_DAY) as i64
        } else {
            -(((now - self.maturity_date) / SECONDS_IN_DAY) as i64)
        }
    }

    /// The terms of the bond, its unsold units and its days to maturity at
    /// `now` (seconds since the Unix epoch).
    pub fn get_bond_details(&self, now: u64) -> (r: BondDetails)
        ensures
            r.contract_type == self.contract_type,
            r.contract_role == self.contract_role,
            r.contract_identifier == self.contract_identifier,
            r.nominal_interest_rate == self.nominal_interest_rate,
            r.currency == self.currency,
            r.initial_exchange_date == self.initial_exchange_date,
            r.maturity_date == self.maturity_date,
            r.notional_principal == self.notional_principal,
            r.discount == self.discount,
            r.bond_position == self.bond_position,
            r.price == self.price,
            r.amount == self.bonds.amount,
            r.maturity_days_left == days_left(self.maturity_date, now),
    {
        BondDetails {
            contract_type: self.contract_type.clone(),
            contract_role: self.contract_role.clone(),
            contract_identifier: self.contract_identifier.clone(),
            nominal_interest_rate: self.nominal_interest_rate,
            currency: self.currency.clone(),
            initial_exchange_date: self.initial_exchange_date,
            maturity_date: self.maturity_date,
            notional_principal: self.notional_principal,
            discount: self.discount,
            bond_position: self.bond_position.clone(),
            price: self.price,
            amount: self.bonds.amount,
            maturity_days_left: self.check_the_maturity_of_bonds(now),
        }
    }

    /// Takes the collateral for the community, once `now` is after maturity.
    pub fn liquidate_collateral(&mut self, now: i64) -> (r: Result<Bucket, DaoError>)
        requires
            old(self).wf(),
        ensures
            same_terms(*old(self), *final(self)),
            final(self).money_taken_by_creator == old(self).money_taken_by_creator,
            final(self).successful_claim_by_community == old(self).successful_claim_by_community,
            final(self).wf(),
            r is Ok <==> matured(old(self).maturity_date, now) && units(1)
                <= old(self).collateral.amount@,
            r matches Ok(c) ==> c.resource == old(self).collateral.resource && c.amount@ == units(
                1,
            ) && final(self).collateral.amount@ == old(self).collateral.amount@ - units(1)
                && final(self).collected_xrd == old(self).collected_xrd && final(self).bonds == old(self).bonds,
            r matches Err(e) ==> *final(self) == *old(self) && e == (if !matured(
                old(self).maturity_date,
                now,
            ) {
                DaoError::MaturityNotReached
            } else {
                DaoError::InsufficientBalance
            }),
    {
        if now < 0 || self.maturity_date >= now as u64 {
            return Err(DaoError::MaturityNotReached);
        }
        self.collateral.take(Decimal::one())
    }

    pub fn get_maturity_data(&self) -> (r: u64)
        ensures
            r == self.maturity_date,
    {
        self.maturity_date
    }

    /// Releases the collateral, whether or not the community has claimed.
    pub fn get_back_the_collateral(&mut self) -> (r: Result<Bucket, DaoError>)
        requires
            old(self).wf(),
        ensures
            same_terms(*old(self), *final(self)),
            final(self).money_taken_by_creator == old(self).money_taken_by_creator,
            final(self).successful_claim_by_community == old(self).successful_claim_by_community,
            final(self).wf(),
            r is Ok <==> units(1) <= old(self).collateral.amount@,
            r matches Ok(c) ==> c.resource == old(self).collateral.resource && c.amount@ == units(
                1,
            ) && final(self).collateral.amount@ == old(self).collateral.amount@ - units(1)
                && final(self).collected_xrd == old(self).collected_xrd,
            r matches Err(e) ==> e == DaoError::InsufficientBalance && *final(self) == *old(self),
    {
        if self.collateral.amount.lt(&Decimal::one()) {
            return Err(DaoError::InsufficientBalance);
        }
        self.collateral.take(Decimal::one())
    }

    pub fn get_money_claim_status(&self) -> (r: bool)
        ensures
            r == self.successful_claim_by_community,
    {
        self.successful_claim_by_community
    }

    pub fn get_resource_address_of_collateral(&self) -> (r: ResourceAddress)
        ensures
            r == self.collateral.resource,
    {
        self.collateral.resource
    }

    /// What the community is owed: the price plus the interest on it.
    pub fn balance_required_by_the_community(&self) -> (r: Result<Decimal, DaoError>)
        ensures
            r is Ok <==> fits(self.required()),
            r matches Ok(d) ==> d@ == self.required(),
            r matches Err(e) ==> e == DaoError::Overflow,
    {
        let bond_price = Decimal::from_u64(self.price);
        let rate = self.nominal_interest_rate.div_int(100);
        let interest_amount = match rate.checked_mul_int(self.price) {
            Some(i) => i,
            None => {
                proof {
                    assert((self.nominal_interest_rate@ / 100) * self.price >= 0) by (
                    nonlinear_arith)
                        requires
                            self.nominal_interest_rate@ / 100 >= 0,
                    ;
                }
                return Err(DaoError::Overflow);
            },
        };
        match bond_price.checked_add(&interest_amount) {
            Some(total) => Ok(total),
            None => Err(DaoError::Overflow),
        }
    }

    /// Pays what the community is owed out of the proceeds.
    pub fn claim_the_invested_XRDs_plus_interest(&mut self) -> (r: Result<Bucket, DaoError>)
        requires
            old(self).wf(),
        ensures
            same_terms(*old(self), *final(self)),
            final(self).money_taken_by_creator == old(self).money_taken_by_creator,
            final(self).successful_claim_by_community == old(self).successful_claim_by_community,
            final(self).wf(),
            r is Ok <==> fits(old(self).required()) && old(self).required() <= old(self).collected_xrd.amount@,
            r matches Ok(b) ==> b.resource == ResourceAddress::Xrd && b.amount@ == old(self).required() && final(self).collected_xrd.amount@ == old(self).collected_xrd.amount@
                - old(self).required() && final(self).collateral == old(self).collateral
                && final(self).successful_claim_by_community == old(self).successful_claim_by_community,
            r is Err ==> *final(self) == *old(self),
    {
        let total_amount = match self.balance_required_by_the_community() {
            Ok(t) => t,
            Err(e) => {
                return Err(e);
            },
        };
        self.collected_xrd.take(total_amount)
    }

    pub fn change_community_claim_status(&mut self, value: bool)
        ensures
            same_terms(*old(self), *final(self)),
            final(self).money_taken_by_creator == old(self).money_taken_by_creator,
            final(self).successful_claim_by_community == value,
            final(self).collected_xrd == old(self).collected_xrd,
            final(self).collateral == old(self).collateral,
            final(self).bonds == old(self).bonds,
            final(self).price == old(self).price,
            final(self).nominal_interest_rate == old(self).nominal_interest_rate,
            final(self).maturity_date == old(self).maturity_date,
            final(self).bond_resourse_address == old(self).bond_resourse_address,
    {
        self.successful_claim_by_community = value;
    }

    /// The creator draws one bond price from the proceeds. Nothing stops a
    /// second draw while the proceeds suffice: `money_taken_by_creator` is
    /// kept as it is, neither checked nor set here.
    pub fn take_out_the_invested_XRDs_by_the_community(&mut self) -> (r: Result<Bucket, DaoError>)
        requires
            old(self).wf(),
        ensures
            same_terms(*old(self), *final(self)),
            final(self).successful_claim_by_community == old(self).successful_claim_by_community,
            final(self).wf(),
            r is Ok <==> units(old(self).price as int) <= old(self).collected_xrd.amount@,
            r matches Ok(b) ==> b.resource == ResourceAddress::Xrd && b.amount@ == units(
                old(self).price as int,
            ) && final(self).collected_xrd.amount@ == old(self).collected_xrd.amount@ - units(
                old(self).price as int,
            ) && final(self).collateral == old(self).collateral,
            final(self).money_taken_by_creator == old(self).money_taken_by_creator,
            r matches Err(e) ==> e == DaoError::InsufficientBalance && *final(self) == *old(self),
    {
        let bond_price = Decimal::from_u64(self.price);
        if self.collected_xrd.amount.lt(&bond_price) {
            return Err(DaoError::InsufficientBalance);
        }
        self.collected_xrd.take(bond_price)
    }

    pub fn bond_creator_money_status(&self) -> (r: bool)
        ensures
            r == self.money_taken_by_creator,
    {
        self.money_taken_by_creator
    }

    /// The creator pays back: up to what the community is owed is taken from
    /// `payment` into the proceeds; any excess stays in `payment` as change.
    pub fn put_in_money_plus_interest_for_the_community_to_redeem(
        &mut self,
        payment: &mut Bucket,
    ) -> (r: Result<(), DaoError>)
        requires
            old(self).wf(),
        ensures
            same_terms(*old(self), *final(self)),
            final(self).money_taken_by_creator == old(self).money_taken_by_creator,
            final(self).successful_claim_by_community == old(self).successful_claim_by_community,
            final(self).wf(),
            ({
                let taken = if old(payment).amount@ >= old(self).required() {
                    old(self).required()
                } else {
                    old(payment).amount@
                };
                &&& r is Ok <==> old(payment).resource == ResourceAddress::Xrd && fits(
                    old(self).required(),
                ) && fits(old(self).collected_xrd.amount@ + taken)
                &&& r is Ok ==> final(payment).resource == old(payment).resource
                    && final(payment).amount@ == old(payment).amount@ - taken
                    && final(self).collected_xrd.amount@ == old(self).collected_xrd.amount@ + taken
                    && final(self).collateral == old(self).collateral && final(self).price == old(self).price && final(self).nominal_interest_rate == old(self).nominal_interest_rate
                    && final(self).successful_claim_by_community == old(self).successful_claim_by_community
            }),
            r matches Err(e) ==> *final(self) == *old(self) && *final(payment) == *old(payment) && e
                == (if old(payment).resource != ResourceAddress::Xrd {
                DaoError::InvalidAsset
            } else {
                DaoError::Overflow
            }),
    {
        if payment.resource != ResourceAddress::Xrd {
            return Err(DaoError::InvalidAsset);
        }
        let required = match self.balance_required_by_the_community() {
            Ok(t) => t,
            Err(e) => {
                return Err(e);
            },
        };
        let taken_amount = if required.le(&payment.amount) {
            required
        } else {
            payment.amount
        };
        if self.collected_xrd.amount.checked_add(&taken_amount).is_none() {
            return Err(DaoError::Overflow);
        }
        let taken = match payment.take(taken_amount) {
            Ok(b) => b,
            Err(e) => {
                return Err(e);
            },
        };
        self.collected_xrd.put(taken)
    }

    pub fn check_the_balance_of_bond_issuer(&self) -> (r: Decimal)
        ensures
            r == self.collected_xrd.amount,
    {
        self.collected_xrd.amount
    }

    pub fn get_bond_u_id(&self) -> (r: String)
        ensures
            r == self.contract_identifier,
    {
        self.contract_identifier.clone()
    }

    /// Sweeps all proceeds out.
    pub fn force_transfer_deposited_xrds(&mut self) -> (r: Bucket)
        requires
            old(self).wf(),
        ensures
            same_terms(*old(self), *final(self)),
            final(self).money_taken_by_creator == old(self).money_taken_by_creator,
            final(self).successful_claim_by_community == old(self).successful_claim_by_community,
            final(self).wf(),
            r.resource == ResourceAddress::Xrd,
            r.amount == old(self).collected_xrd.amount,
            final(self).collected_xrd.amount@ == 0,
            final(self).collateral == old(self).collateral,
            final(self).bonds == old(self).bonds,
    {
        self.collected_xrd.take_all()
    }
}

} // verus!
