use vstd::prelude::*;

use crate::decimal::{fits, Decimal};
use crate::error::DaoError;
use crate::ledger::ComponentAddress;

verus! {

/// The number of executive answers that settles a withdrawal request.
pub const RESPONSES_TO_SETTLE: u32 = 3;

/// Running totals per account: what each has contributed or invested.
#[derive(Debug)]
pub struct AccountBook {
    pub entries: Vec<(ComponentAddress, Decimal)>,
}

/// The position of `a` in the book, if it has an entry.
pub open spec fn entry_position(s: Seq<(ComponentAddress, Decimal)>, a: ComponentAddress) -> Option<
    int,
> {
    if exists|i: int| 0 <= i < s.len() && s[i].0 == a {
        Some(choose|i: int| 0 <= i < s.len() && s[i].0 == a)
    } else {
        None
    }
}

impl AccountBook {
    /// Each account has at most one entry.
    pub open spec fn wf(&self) -> bool {
        forall|i: int, j: int|
            0 <= i < j < self.entries@.len() ==> self.entries@[i].0 != self.entries@[j].0
    }

    /// The running total of `a`, if it has one.
    pub open spec fn total(&self, a: ComponentAddress) -> Option<int> {
        match entry_position(self.entries@, a) {
            Some(i) => Some(self.entries@[i].1@),
            None => None,
        }
    }

    /// The running total of `a`, zero when it has none.
    pub open spec fn total_or_zero(&self, a: ComponentAddress) -> int {
        match self.total(a) {
            Some(t) => t,
            None => 0,
        }
    }

    pub fn new() -> (r: AccountBook)
        ensures
            r.wf(),
            forall|a: ComponentAddress| #[trigger] r.total(a) is None,
    {
        AccountBook { entries: Vec::new() }
    }

    fn position(&self, a: ComponentAddress) -> (p: Option<usize>)
        requires
            self.wf(),
        ensures
            p matches Some(i) ==> entry_position(self.entries@, a) == Some(i as int),
            p is None ==> entry_position(self.entries@, a) is None,
    {
        let mut i: usize = 0;
        while i < self.entries.len()
            invariant
                i <= self.entries@.len(),
                self.wf(),
                forall|j: int| 0 <= j < i ==> self.entries@[j].0 != a,
            decreases self.entries@.len() - i,
        {
            if self.entries[i].0 == a {
                proof {
                    let c = choose|k: int| 0 <= k < self.entries@.len() && self.entries@[k].0 == a;
                    assert(c == i as int) by {
                        if c > i as int {
                            assert(self.entries@[i as int].0 != self.entries@[c].0);
                        }
                    }
                }
                return Some(i);
            }
            i = i + 1;
        }
        None
    }

    /// The running total of `a`, if it has one.
    pub fn get(&self, a: ComponentAddress) -> (r: Option<Decimal>)
        requires
            self.wf(),
        ensures
            r matches Some(d) ==> self.total(a) == Some(d@),
            r is None ==> self.total(a) is None,
    {
        match self.position(a) {
            Some(i) => Some(self.entries[i].1),
            None => None,
        }
    }

    /// Adds `amount` to the running total of `a`, opening it if needed.
    pub fn add(&mut self, a: ComponentAddress, amount: Decimal) -> (r: Result<(), DaoError>)
        requires
            old(self).wf(),
        ensures
            final(self).wf(),
            r is Ok <==> fits(old(self).total_or_zero(a) + amount@),
            r is Ok ==> forall|x: ComponentAddress| #[trigger]
                final(self).total(x) == if x == a {
                    Some(old(self).total_or_zero(a) + amount@)
                } else {
                    old(self).total(x)
                },
            r matches Err(e) ==> e == DaoError::Overflow && *final(self) == *old(self),
    {
        let ghost old_entries = self.entries@;
        match self.position(a) {
            Some(i) => {
                let total = match self.entries[i].1.checked_add(&amount) {
                    Some(t) => t,
                    None => {
                        return Err(DaoError::Overflow);
                    },
                };
                self.entries.set(i, (a, total));
                proof {
                    assert forall|x: ComponentAddress| #[trigger]
                        entry_position(self.entries@, x) == entry_position(old_entries, x) by {
                        assert forall|k: int| 0 <= k < self.entries@.len() implies
                            self.entries@[k].0 == old_entries[k].0 by {}
                        if exists|k: int| 0 <= k < old_entries.len() && old_entries[k].0 == x {
                            let k = choose|k: int| 0 <= k < old_entries.len() && old_entries[k].0 == x;
                            assert(self.entries@[k].0 == x);
                        }
                    }
                }
                Ok(())
            },
            None => {
                self.entries.push((a, amount));
                proof {
                    let n = old_entries.len() as int;
                    assert(self.entries@[n].0 == a);
                    assert forall|x: ComponentAddress| x != a implies #[trigger]
                        entry_position(self.entries@, x) == entry_position(old_entries, x) by {
                        if exists|k: int| 0 <= k < old_entries.len() && old_entries[k].0 == x {
                            let k = choose|k: int| 0 <= k < old_entries.len() && old_entries[k].0 == x;
                            assert(self.entries@[k].0 == x);
                        }
                        if exists|k: int| 0 <= k < self.entries@.len() && self.entries@[k].0 == x {
                            let k = choose|k: int| 0 <= k < self.entries@.len() && self.entries@[k].0 == x;
                            assert(old_entries[k].0 == x);
                        }
                    }
                    let c = choose|k: int| 0 <= k < self.entries@.len() && self.entries@[k].0 == a;
                    assert(c == n);
                }
                Ok(())
            },
        }
    }

    /// Every entry, in the order the accounts first appeared.
    pub fn to_vec(&self) -> (r: Vec<(ComponentAddress, Decimal)>)
        ensures
            r@ == self.entries@,
    {
        let mut r: Vec<(ComponentAddress, Decimal)> = Vec::new();
        let mut i: usize = 0;
        while i < self.entries.len()
            invariant
                i <= self.entries@.len(),
                r@ == self.entries@.subrange(0, i as int),
            decreases self.entries@.len() - i,
        {
            r.push(self.entries[i]);
            i = i + 1;
        }
        assert(self.entries@.subrange(0, self.entries@.len() as int) == self.entries@);
        r
    }
}

/// An executive's answer to a withdrawal request.
#[derive(Clone, Copy, Debug, PartialEq, Eq, Structural)]
pub enum ApprovalResponse {
    Approve,
    Deny,
}

/// The answers given so far to one withdrawal request.
#[derive(Debug)]
pub struct ApprovalDetails {
    pub approval_giver_addresses: Vec<ComponentAddress>,
    pub denial_giver_addresses: Vec<ComponentAddress>,
    pub approvals: u32,
    pub denials: u32,
}

impl ApprovalDetails {
    /// The counters count the lists, nobody answers twice, and the request
    /// is still unsettled.
    pub open spec fn wf(&self) -> bool {
        &&& self.approvals == self.approval_giver_addresses@.len()
        &&& self.denials == self.denial_giver_addresses@.len()
        &&& self.approval_giver_addresses@.no_duplicates()
        &&& self.denial_giver_addresses@.no_duplicates()
        &&& self.approval_giver_addresses@.disjoint(self.denial_giver_addresses@)
        &&& self.approvals + self.denials < RESPONSES_TO_SETTLE
    }

    /// Whether `a` has answered, either way.
    pub open spec fn has_answered(&self, a: ComponentAddress) -> bool {
        self.approval_giver_addresses@.contains(a) || self.denial_giver_addresses@.contains(a)
    }

    pub open spec fn responses(&self) -> int {
        self.approvals + self.denials
    }

    pub fn new() -> (r: ApprovalDetails)
        ensures
            r.wf(),
            r.approvals == 0,
            r.denials == 0,
            r.approval_giver_addresses@.len() == 0,
            r.denial_giver_addresses@.len() == 0,
    {
        ApprovalDetails {
            approval_giver_addresses: Vec::new(),
            denial_giver_addresses: Vec::new(),
            approvals: 0,
            denials: 0,
        }
    }
}

/// A pending request to withdraw from the treasury.
#[derive(Debug)]
pub struct WithdrawalRequest {
    pub request_id: u64,
    pub requester_address: ComponentAddress,
    pub requested_amount: Decimal,
    pub approval_details: ApprovalDetails,
}

/// The position of the pending request `id`, if there is one.
pub open spec fn request_position(s: Seq<WithdrawalRequest>, id: u64) -> Option<int> {
    if exists|i: int| 0 <= i < s.len() && s[i].request_id == id {
        Some(choose|i: int| 0 <= i < s.len() && s[i].request_id == id)
    } else {
        None
    }
}

/// The most that an investor of `invested` attos may ask to withdraw: 40 %.
pub open spec fn withdrawal_cap(invested: int) -> int {
    invested * 40 / 100
}

/// Forty percent of `invested`, truncated to 18 decimal places.
pub fn compute_withdrawal_cap(invested: Decimal) -> (r: Decimal)
    ensures
        r@ == withdrawal_cap(invested@),
{
    let a = invested.attos;
    let q = a / 5;
    let rem = a % 5;
    proof {
        let ai = a as int;
        vstd::arithmetic::div_mod::lemma_fundamental_div_mod(ai, 5);
        assert(ai * 40 == 100 * (2 * q) + 20 * (2 * rem)) by (nonlinear_arith)
            requires
                ai == 5 * q + rem,
        ;
        assert(0 <= 20 * (2 * rem) < 100 * 2) by (nonlinear_arith)
            requires
                0 <= rem < 5,
        ;
        let low = (20 * (2 * rem)) as int;
        vstd::arithmetic::div_mod::lemma_fundamental_div_mod(low, 100);
        vstd::arithmetic::div_mod::lemma_fundamental_div_mod(2 * rem as int, 5);
        assert(low / 100 == (2 * rem) / 5) by {
            vstd::arithmetic::div_mod::lemma_fundamental_div_mod_converse(
                low,
                100,
                (2 * rem) / 5,
                20 * ((2 * rem) % 5),
            );
        }
        vstd::arithmetic::div_mod::lemma_fundamental_div_mod_converse(
            ai * 40,
            100,
            2 * q + (2 * rem) / 5,
            low % 100,
        );
        assert(2 * q <= a) by (nonlinear_arith)
            requires
                a == 5 * q + rem,
                0 <= rem,
        ;
    }
    Decimal { attos: 2 * q + (2 * rem) / 5 }
}

} // verus!
