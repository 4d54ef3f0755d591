use vstd::prelude::*;

use crate::decimal::{fits, Decimal};
use crate::error::DaoError;

verus! {

/// The address of an account or of a component on the ledger.
#[derive(Clone, Copy, Debug, PartialEq, Eq, Structural)]
pub struct ComponentAddress(pub u64);

/// The address of a resource (a kind of asset).
#[derive(Clone, Copy, Debug, PartialEq, Eq, Structural)]
pub enum ResourceAddress {
    /// The ledger's native currency.
    Xrd,
    /// A resource created outside the organization.
    External(u64),
    /// The `index`-th resource created by the component at `issuer`.
    Issued(ComponentAddress, u64),
}

/// An amount of one resource in transit. It is moved, never copied: value
/// only leaves one holder by entering another.
#[derive(Debug)]
pub struct Bucket {
    pub resource: ResourceAddress,
    pub amount: Decimal,
}

/// An amount of one resource held in custody. Its balance never goes below
/// zero: a withdrawal that would do so is refused.
#[derive(Debug)]
pub struct Vault {
    pub resource: ResourceAddress,
    pub amount: Decimal,
}

impl Bucket {
    /// An asset handed in by the ledger.
    pub fn new(resource: ResourceAddress, amount: Decimal) -> (r: Bucket)
        ensures
            r.resource == resource,
            r.amount == amount,
    {
        Bucket { resource, amount }
    }

    pub fn empty(resource: ResourceAddress) -> (r: Bucket)
        ensures
            r.resource == resource,
            r.amount@ == 0,
    {
        Bucket { resource, amount: Decimal::zero() }
    }

    pub fn amount(&self) -> (r: Decimal)
        ensures
            r == self.amount,
    {
        self.amount
    }

    pub fn resource_address(&self) -> (r: ResourceAddress)
        ensures
            r == self.resource,
    {
        self.resource
    }

    /// Splits `amount` off into a new bucket.
    pub fn take(&mut self, amount: Decimal) -> (r: Result<Bucket, DaoError>)
        ensures
            r is Ok <==> amount@ <= old(self).amount@,
            r matches Ok(b) ==> b.resource == old(self).resource && b.amount == amount
                && final(self).resource == old(self).resource && final(self).amount@ == old(self).amount@ - amount@,
            r matches Err(e) ==> e == DaoError::InsufficientBalance && *final(self) == *old(self),
    {
        match self.amount.checked_sub(&amount) {
            Some(rest) => {
                self.amount = rest;
                Ok(Bucket { resource: self.resource, amount })
            },
            None => Err(DaoError::InsufficientBalance),
        }
    }
}

impl Vault {
    pub fn new(resource: ResourceAddress) -> (r: Vault)
        ensures
            r.resource == resource,
            r.amount@ == 0,
    {
        Vault { resource, amount: Decimal::zero() }
    }

    pub fn with_bucket(bucket: Bucket) -> (r: Vault)
        ensures
            r.resource == bucket.resource,
            r.amount == bucket.amount,
    {
        Vault { resource: bucket.resource, amount: bucket.amount }
    }

    pub fn amount(&self) -> (r: Decimal)
        ensures
            r == self.amount,
    {
        self.amount
    }

    pub fn resource_address(&self) -> (r: ResourceAddress)
        ensures
            r == self.resource,
    {
        self.resource
    }

    /// Deposits a bucket of the vault's resource.
    pub fn put(&mut self, bucket: Bucket) -> (r: Result<(), DaoError>)
        ensures
            r is Ok <==> bucket.resource == old(self).resource && fits(
                old(self).amount@ + bucket.amount@,
            ),
            r is Ok ==> final(self).resource == old(self).resource && final(self).amount@ == old(self).amount@ + bucket.amount@,
            r matches Err(e) ==> *final(self) == *old(self) && (e == if bucket.resource
                != old(self).resource {
                DaoError::InvalidAsset
            } else {
                DaoError::Overflow
            }),
    {
        if bucket.resource != self.resource {
            return Err(DaoError::InvalidAsset);
        }
        match self.amount.checked_add(&bucket.amount) {
            Some(total) => {
                self.amount = total;
                Ok(())
            },
            None => Err(DaoError::Overflow),
        }
    }

    /// Withdraws `amount` into a new bucket.
    pub fn take(&mut self, amount: Decimal) -> (r: Result<Bucket, DaoError>)
        ensures
            r is Ok <==> amount@ <= old(self).amount@,
            r matches Ok(b) ==> b.resource == old(self).resource && b.amount == amount
                && final(self).resource == old(self).resource && final(self).amount@ == old(self).amount@ - amount@,
            r matches Err(e) ==> e == DaoError::InsufficientBalance && *final(self) == *old(self),
    {
        match self.amount.checked_sub(&amount) {
            Some(rest) => {
                self.amount = rest;
                Ok(Bucket { resource: self.resource, amount })
            },
            None => Err(DaoError::InsufficientBalance),
        }
    }

    /// Withdraws the whole balance.
    pub fn take_all(&mut self) -> (r: Bucket)
        ensures
            r.resource == old(self).resource,
            r.amount == old(self).amount,
            final(self).resource == old(self).resource,
            final(self).amount@ == 0,
    {
        let amount = self.amount;
        self.amount = Decimal::zero();
        Bucket { resource: self.resource, amount }
    }
}

/// Vaults of distinct resources, one per resource.
#[derive(Debug)]
pub struct VaultSet {
    pub vaults: Vec<Vault>,
}

/// The position of the vault of resource `r`, if there is one.
pub open spec fn vault_position(s: Seq<Vault>, r: ResourceAddress) -> Option<int> {
    if exists|i: int| 0 <= i < s.len() && s[i].resource == r {
        Some(choose|i: int| 0 <= i < s.len() && s[i].resource == r)
    } else {
        None
    }
}

impl VaultSet {
    /// No two vaults hold the same resource.
    pub open spec fn wf(&self) -> bool {
        forall|i: int, j: int|
            0 <= i < j < self.vaults@.len() ==> self.vaults@[i].resource
                != self.vaults@[j].resource
    }

    /// How much of resource `r` the set holds.
    pub open spec fn balance(&self, r: ResourceAddress) -> int {
        match vault_position(self.vaults@, r) {
            Some(i) => self.vaults@[i].amount@,
            None => 0,
        }
    }

    pub fn new() -> (r: VaultSet)
        ensures
            r.wf(),
            forall|x: ResourceAddress| r.balance(x) == 0,
    {
        VaultSet { vaults: Vec::new() }
    }

    fn position(&self, r: ResourceAddress) -> (p: Option<usize>)
        requires
            self.wf(),
        ensures
            p matches Some(i) ==> vault_position(self.vaults@, r) == Some(i as int),
            p is None ==> vault_position(self.vaults@, r) is None,
    {
        let mut i: usize = 0;
        while i < self.vaults.len()
            invariant
                i <= self.vaults@.len(),
                self.wf(),
                forall|j: int| 0 <= j < i ==> self.vaults@[j].resource != r,
            decreases self.vaults@.len() - i,
        {
            if self.vaults[i].resource == r {
                proof {
                    let c = choose|k: int|
                        0 <= k < self.vaults@.len() && self.vaults@[k].resource == r;
                    assert(c == i as int) by {
                        if c < i as int {
                        } else if c > i as int {
                            assert(self.vaults@[i as int].resource != self.vaults@[c].resource);
                        }
                    }
                }
                return Some(i);
            }
            i = i + 1;
        }
        None
    }

    /// How much of resource `r` the set holds.
    pub fn balance_of(&self, r: ResourceAddress) -> (b: Decimal)
        requires
            self.wf(),
        ensures
            b@ == self.balance(r),
    {
        match self.position(r) {
            Some(i) => self.vaults[i].amount,
            None => Decimal::zero(),
        }
    }

    /// Deposits a bucket into the vault of its resource, opening one if needed.
    pub fn deposit(&mut self, bucket: Bucket) -> (res: Result<(), DaoError>)
        requires
            old(self).wf(),
        ensures
            final(self).wf(),
            res is Ok <==> fits(old(self).balance(bucket.resource) + bucket.amount@),
            res is Ok ==> forall|x: ResourceAddress|
                #![trigger final(self).balance(x)]
                final(self).balance(x) == old(self).balance(x) + if x == bucket.resource {
                    bucket.amount@
                } else {
                    0
                },
            res matches Err(e) ==> e == DaoError::Overflow && *final(self) == *old(self),
    {
        let ghost old_vaults = self.vaults@;
        match self.position(bucket.resource) {
            Some(i) => {
                if self.vaults[i].amount.checked_add(&bucket.amount).is_none() {
                    return Err(DaoError::Overflow);
                }
                let result = self.vaults[i].put(bucket);
                proof {
                    assert forall|x: ResourceAddress| #[trigger]
                        vault_position(self.vaults@, x) == vault_position(old_vaults, x) by {
                        assert forall|k: int| 0 <= k < self.vaults@.len() implies
                            self.vaults@[k].resource == old_vaults[k].resource by {}
                        if exists|k: int| 0 <= k < old_vaults.len() && old_vaults[k].resource == x {
                            let k = choose|k: int| 0 <= k < old_vaults.len() && old_vaults[k].resource == x;
                            assert(self.vaults@[k].resource == x);
                        }
                    }
                }
                result
            },
            None => {
                let ghost r = bucket.resource;
                self.vaults.push(Vault::with_bucket(bucket));
                proof {
                    let n = old_vaults.len() as int;
                    assert(self.vaults@[n].resource == r);
                    assert forall|x: ResourceAddress| x != r implies #[trigger]
                        vault_position(self.vaults@, x) == vault_position(old_vaults, x) by {
                        if exists|k: int| 0 <= k < old_vaults.len() && old_vaults[k].resource == x {
                            let k = choose|k: int| 0 <= k < old_vaults.len() && old_vaults[k].resource == x;
                            assert(self.vaults@[k].resource == x);
                        }
                        if exists|k: int| 0 <= k < self.vaults@.len() && self.vaults@[k].resource == x {
                            let k = choose|k: int| 0 <= k < self.vaults@.len() && self.vaults@[k].resource == x;
                            assert(old_vaults[k].resource == x);
                        }
                    }
                    let c = choose|k: int| 0 <= k < self.vaults@.len() && self.vaults@[k].resource == r;
                    assert(c == n);
                }
                Ok(())
            },
        }
    }

    /// Withdraws `amount` of resource `r`.
    pub fn withdraw(&mut self, r: ResourceAddress, amount: Decimal) -> (res: Result<
        Bucket,
        DaoError,
    >)
        requires
            old(self).wf(),
        ensures
            final(self).wf(),
            res is Ok <==> amount@ <= old(self).balance(r),
            res matches Ok(b) ==> b.resource == r && b.amount == amount && forall|
                x: ResourceAddress,
            |
                #![trigger final(self).balance(x)]
                final(self).balance(x) == old(self).balance(x) - if x == r {
                    amount@
                } else {
                    0
                },
            res matches Err(e) ==> e == DaoError::InsufficientBalance && *final(self) == *old(self),
    {
        let ghost old_vaults = self.vaults@;
        match self.position(r) {
            Some(i) => {
                if self.vaults[i].amount.lt(&amount) {
                    return Err(DaoError::InsufficientBalance);
                }
                let result = self.vaults[i].take(amount);
                proof {
                    assert forall|x: ResourceAddress| #[trigger]
                        vault_position(self.vaults@, x) == vault_position(old_vaults, x) by {
                        assert forall|k: int| 0 <= k < self.vaults@.len() implies
                            self.vaults@[k].resource == old_vaults[k].resource by {}
                        if exists|k: int| 0 <= k < old_vaults.len() && old_vaults[k].resource == x {
                            let k = choose|k: int| 0 <= k < old_vaults.len() && old_vaults[k].resource == x;
                            assert(self.vaults@[k].resource == x);
                        }
                    }
                }
                result
            },
            None => {
                if amount.is_zero() {
                    Ok(Bucket::empty(r))
                } else {
                    Err(DaoError::InsufficientBalance)
                }
            },
        }
    }
}

} // verus!
