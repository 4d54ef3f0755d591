use vstd::prelude::*;

verus! {

/// Attos (smallest units) in one whole unit: amounts carry 18 decimal places.
pub const ATTOS_PER_UNIT: u128 = 1_000_000_000_000_000_000;

/// A non-negative fixed-point amount with 18 decimal places, held as a count
/// of attos. Every amount that the organization handles (balances, prices,
/// rates, vote weights) is one of these.
#[derive(Clone, Copy, Debug, PartialEq, Eq, Structural)]
pub struct Decimal {
    pub attos: u128,
}

impl View for Decimal {
    type V = int;

    open spec fn view(&self) -> int {
        self.attos as int
    }
}

/// A whole number of units, in attos.
pub open spec fn units(n: int) -> int {
    n * ATTOS_PER_UNIT as int
}

/// The product of two amounts given in attos, truncated to 18 decimal places.
pub open spec fn mul_attos(a: int, b: int) -> int {
    a * b / ATTOS_PER_UNIT as int
}

/// Whether an amount given in attos fits in a `Decimal`.
pub open spec fn fits(a: int) -> bool {
    0 <= a <= u128::MAX
}

proof fn lemma_mul_split(a: int, b: int)
    requires
        0 <= a,
        0 <= b,
    ensures
        mul_attos(a, b) == (a / ATTOS_PER_UNIT as int) * b + (a % ATTOS_PER_UNIT as int) * (b
            / ATTOS_PER_UNIT as int) + (a % ATTOS_PER_UNIT as int) * (b % ATTOS_PER_UNIT as int)
            / ATTOS_PER_UNIT as int,
{
    let s = ATTOS_PER_UNIT as int;
    let q1 = a / s;
    let r1 = a % s;
    let q2 = b / s;
    let r2 = b % s;
    let t = r1 * r2;
    vstd::arithmetic::div_mod::lemma_fundamental_div_mod(a, s);
    vstd::arithmetic::div_mod::lemma_fundamental_div_mod(b, s);
    vstd::arithmetic::div_mod::lemma_fundamental_div_mod(t, s);
    vstd::arithmetic::div_mod::lemma_mod_bound(t, s);
    assert(a * b == (q1 * b + r1 * q2 + t / s) * s + t % s) by (nonlinear_arith)
        requires
            a == s * q1 + r1,
            b == s * q2 + r2,
            t == r1 * r2,
            t == s * (t / s) + t % s,
    ;
    vstd::arithmetic::div_mod::lemma_fundamental_div_mod_converse(
        a * b,
        s,
        q1 * b + r1 * q2 + t / s,
        t % s,
    );
}

impl Decimal {
    pub fn zero() -> (r: Decimal)
        ensures
            r@ == 0,
    {
        Decimal { attos: 0 }
    }

    pub fn one() -> (r: Decimal)
        ensures
            r@ == units(1),
    {
        Decimal { attos: ATTOS_PER_UNIT }
    }

    pub fn from_attos(attos: u128) -> (r: Decimal)
        ensures
            r@ == attos,
    {
        Decimal { attos }
    }

    /// A whole number of units.
    pub fn from_u64(n: u64) -> (r: Decimal)
        ensures
            r@ == units(n as int),
    {
        assert(n * ATTOS_PER_UNIT <= u128::MAX) by (nonlinear_arith)
            requires
                n <= u64::MAX,
        ;
        Decimal { attos: n as u128 * ATTOS_PER_UNIT }
    }

    pub fn is_zero(&self) -> (r: bool)
        ensures
            r == (self@ == 0),
    {
        self.attos == 0
    }

    pub fn le(&self, other: &Decimal) -> (r: bool)
        ensures
            r == (self@ <= other@),
    {
        self.attos <= other.attos
    }

    pub fn lt(&self, other: &Decimal) -> (r: bool)
        ensures
            r == (self@ < other@),
    {
        self.attos < other.attos
    }

    pub fn checked_add(&self, other: &Decimal) -> (r: Option<Decimal>)
        ensures
            r matches Some(s) ==> s@ == self@ + other@,
            r is None <==> !fits(self@ + other@),
    {
        match self.attos.checked_add(other.attos) {
            Some(a) => Some(Decimal { attos: a }),
            None => None,
        }
    }

    /// The difference, or `None` when it would be negative.
    pub fn checked_sub(&self, other: &Decimal) -> (r: Option<Decimal>)
        ensures
            r matches Some(s) ==> s@ == self@ - other@,
            r is None <==> self@ < other@,
    {
        if self.attos < other.attos {
            None
        } else {
            Some(Decimal { attos: self.attos - other.attos })
        }
    }

    /// The product, truncated to 18 decimal places.
    pub fn checked_mul(&self, other: &Decimal) -> (r: Option<Decimal>)
        ensures
            r matches Some(p) ==> p@ == mul_attos(self@, other@),
            r is None <==> !fits(mul_attos(self@, other@)),
    {
        let a = self.attos;
        let b = other.attos;
        let q1 = a / ATTOS_PER_UNIT;
        let r1 = a % ATTOS_PER_UNIT;
        let q2 = b / ATTOS_PER_UNIT;
        let r2 = b % ATTOS_PER_UNIT;
        proof {
            lemma_mul_split(a as int, b as int);
            assert(r1 * q2 <= u128::MAX) by (nonlinear_arith)
                requires
                    r1 < ATTOS_PER_UNIT,
                    q2 * ATTOS_PER_UNIT <= b,
                    b <= u128::MAX,
            ;
            assert(r1 * r2 < ATTOS_PER_UNIT * ATTOS_PER_UNIT) by (nonlinear_arith)
                requires
                    r1 < ATTOS_PER_UNIT,
                    r2 < ATTOS_PER_UNIT,
            ;
            assert(0 <= r1 * q2 && 0 <= r1 * r2 && 0 <= q1 * b) by (nonlinear_arith)
                requires
                    0 <= r1,
                    0 <= q2,
                    0 <= r2,
                    0 <= q1,
                    0 <= b,
            ;
        }
        let high = match q1.checked_mul(b) {
            Some(h) => h,
            None => {
                return None;
            },
        };
        let middle = r1 * q2;
        let low = r1 * r2 / ATTOS_PER_UNIT;
        match high.checked_add(middle) {
            Some(hm) => match hm.checked_add(low) {
                Some(p) => Some(Decimal { attos: p }),
                None => None,
            },
            None => None,
        }
    }

    /// The product with a whole number, exact.
    pub fn checked_mul_int(&self, n: u64) -> (r: Option<Decimal>)
        ensures
            r matches Some(p) ==> p@ == self@ * n,
            r is None <==> !fits(self@ * n),
    {
        match self.attos.checked_mul(n as u128) {
            Some(p) => Some(Decimal { attos: p }),
            None => None,
        }
    }

    /// The quotient by a whole number, truncated to 18 decimal places. This
    /// is the quotient by `Decimal::from_u64(n)`.
    pub fn div_int(&self, n: u64) -> (r: Decimal)
        requires
            n > 0,
        ensures
            r@ == self@ / (n as int),
    {
        Decimal { attos: self.attos / (n as u128) }
    }
}

} // verus!
