//! Fixed-point money values and the rounding rules of the pricing policy.
//!
//! A `Money` value stores an amount of currency as a signed count of
//! ten-thousandths of one currency unit (four decimal places), so every
//! arithmetic step of the invoice calculator is exact integer arithmetic and
//! no precision is lost.  Rounding to the minor unit (the cent) uses
//! round-half-to-even, chosen explicitly to avoid the systematic bias of
//! naive rounding.

use vstd::prelude::*;

verus! {

/// Number of `Money` units in one currency unit (four decimal places).
pub const UNITS_PER_CURRENCY: i64 = 10_000;

/// Number of `Money` units in one minor currency unit (one cent).
pub const UNITS_PER_CENT: i64 = 100;

/// Largest magnitude, in units, that the library accepts for a single money
/// amount: one hundred billion currency units.  A machine limit, far above
/// any realistic order total, that keeps every intermediate product inside
/// 128-bit arithmetic.
pub const MONEY_MAX_UNITS: i64 = 1_000_000_000_000_000;

/// Scale of tax rates: a rate is stored as a numerator over this denominator,
/// so `715` means 7.15%.
pub const RATE_SCALE: i64 = 10_000;

/// Largest tax-rate numerator the library accepts (a 10000% tax), a machine
/// limit with the same purpose as `MONEY_MAX_UNITS`.
pub const RATE_MAX: i64 = 1_000_000;

/// Divisor that turns `subtotal_units * rate_numerator` into cents:
/// `UNITS_PER_CURRENCY * RATE_SCALE / 100`.
pub const TAX_CENT_DIVISOR: i64 = 1_000_000;

/// Quotient of `n / d` rounded to the nearest integer, ties going to the even
/// quotient (round-half-to-even, "banker's rounding").  Meaningful for
/// `n >= 0` and `d > 0`.
pub open spec fn rhe_div(n: int, d: int) -> int
    recommends
        n >= 0,
        d > 0,
{
    let q = n / d;
    let r = n % d;
    if 2 * r < d {
        q
    } else if 2 * r > d {
        q + 1
    } else if q % 2 == 0 {
        q
    } else {
        q + 1
    }
}

/// The rounding law behind the tax policy: `rhe_div(n, d)` is a nearest
/// integer to the exact quotient `n / d` (its distance from it is at most
/// half of `d`), and an exact half-way tie lands on the even neighbour.
/// Deterministic by construction: equal inputs round equally on every run.
pub proof fn lemma_rhe_div_nearest(n: int, d: int)
    requires
        n >= 0,
        d > 0,
    ensures
        -d <= 2 * (n - rhe_div(n, d) * d) <= d,
        2 * (n % d) == d ==> rhe_div(n, d) % 2 == 0,
{
    vstd::arithmetic::div_mod::lemma_fundamental_div_mod(n, d);
    vstd::arithmetic::div_mod::lemma_mod_bound(n, d);
    let q = n / d;
    let r = n % d;
    assert((q + 1) * d == q * d + d) by (nonlinear_arith);
    assert(q * d == d * q) by (nonlinear_arith);
    assert(n - q * d == r);
}

/// Tax owed, in `Money` units, on a subtotal of `subtotal` units at the rate
/// `rate / RATE_SCALE`: the exact product rounded half-to-even to the cent.
pub open spec fn spec_tax_units(subtotal: int, rate: int) -> int {
    rhe_div(subtotal * rate, TAX_CENT_DIVISOR as int) * (UNITS_PER_CENT as int)
}

/// An exact fixed-point currency amount.
#[derive(Clone, Copy, Debug, PartialEq, Eq, Structural)]
pub struct Money {
    units: i64,
}

impl View for Money {
    type V = int;

    closed spec fn view(&self) -> int {
        self.units as int
    }
}

impl Money {
    /// True when the amount is within the range the library accepts.
    pub open spec fn valid(&self) -> bool {
        -(MONEY_MAX_UNITS as int) <= self@ <= MONEY_MAX_UNITS as int
    }

    /// The zero amount.
    pub fn zero() -> (m: Money)
        ensures
            m@ == 0,
    {
        Money { units: 0 }
    }

    /// An amount given directly in units of `1 / UNITS_PER_CURRENCY`.
    pub fn from_units(units: i64) -> (m: Money)
        ensures
            m@ == units as int,
    {
        Money { units }
    }

    /// An amount given in whole cents.
    pub fn from_cents(cents: i64) -> (m: Money)
        requires
            -(MONEY_MAX_UNITS as int) <= cents * (UNITS_PER_CENT as int) <= MONEY_MAX_UNITS as int,
        ensures
            m@ == cents * (UNITS_PER_CENT as int),
            m.valid(),
    {
        Money { units: cents * UNITS_PER_CENT }
    }

    /// The amount as a count of units of `1 / UNITS_PER_CURRENCY`.
    pub fn units(&self) -> (u: i64)
        ensures
            u as int == self@,
    {
        self.units
    }

    /// True when the amount is strictly below zero.
    pub fn is_negative(&self) -> (r: bool)
        ensures
            r == (self@ < 0),
    {
        self.units < 0
    }
}

/// The decimal digit character for `d` (meaningful for `0 <= d <= 9`).
pub open spec fn spec_digit(d: int) -> char {
    "0123456789"@[d]
}

/// Decimal notation of the natural number `n`, most significant digit first,
/// with no leading zeros (a single `'0'` for zero).
pub open spec fn spec_decimal(n: nat) -> Seq<char>
    decreases n,
{
    if n < 10 {
        seq![spec_digit(n as int)]
    } else {
        spec_decimal(n / 10) + seq![spec_digit((n % 10) as int)]
    }
}

/// Appends the decimal notation of `n` to `out`.
fn append_decimal(n: u64, out: &mut String)
    ensures
        final(out)@ == old(out)@ + spec_decimal(n as nat),
    decreases n,
{
    if n >= 10 {
        append_decimal(n / 10, out);
    }
    let d: usize = (n % 10) as usize;
    proof {
        reveal_strlit("0123456789");
    }
    let digit: &str = "0123456789".substring_char(d, d + 1);
    assert(digit@ =~= seq![spec_digit(d as int)]);
    out.append(digit);
    proof {
        if n >= 10 {
            assert(final(out)@ == old(out)@ + spec_decimal(n as nat / 10) + seq![
                spec_digit((n as nat % 10) as int),
            ]);
        }
    }
}

/// Decimal notation of `n` as a fresh string.
pub fn u64_to_string(n: u64) -> (s: String)
    ensures
        s@ == spec_decimal(n as nat),
{
    let mut s = String::new();
    append_decimal(n, &mut s);
    assert(s@ =~= spec_decimal(n as nat));
    s
}

/// The wire notation for a non-negative amount of `v` units: the amount
/// rounded half-to-even to the cent and printed with exactly two fraction
/// digits, e.g. `"35.00"`.
pub open spec fn spec_amount_string(v: int) -> Seq<char> {
    let cents = rhe_div(v, UNITS_PER_CENT as int);
    spec_decimal((cents / 100) as nat) + "."@ + seq![
        spec_digit(cents % 100 / 10),
        spec_digit(cents % 100 % 10),
    ]
}

impl Money {
    /// The amount formatted for a gateway wire request: rounded half-to-even
    /// to the cent, two fraction digits.  Exact for every whole-cent amount,
    /// which all invoice fields are.
    pub fn to_amount_string(&self) -> (s: String)
        requires
            0 <= self@ <= MONEY_MAX_UNITS as int,
        ensures
            s@ == spec_amount_string(self@),
    {
        let n: u64 = self.units as u64;
        let q: u64 = n / 100;
        let rem: u64 = n % 100;
        let cents: u64 = if 2 * rem < 100 {
            q
        } else if 2 * rem > 100 {
            q + 1
        } else if q % 2 == 0 {
            q
        } else {
            q + 1
        };
        assert(cents as int == rhe_div(self@, UNITS_PER_CENT as int));
        let mut s = u64_to_string(cents / 100);
        s.append(".");
        let frac: usize = (cents % 100) as usize;
        proof {
            reveal_strlit("0123456789");
        }
        let tens: &str = "0123456789".substring_char(frac / 10, frac / 10 + 1);
        let ones: &str = "0123456789".substring_char(frac % 10, frac % 10 + 1);
        s.append(tens);
        s.append(ones);
        assert(s@ =~= spec_amount_string(self@));
        s
    }
}

/// Tax on `subtotal` units at rate `rate / RATE_SCALE`, rounded half-to-even
/// to the cent, or `None` when the rounded tax exceeds `MONEY_MAX_UNITS`.
pub fn tax_units_checked(subtotal: i64, rate: i64) -> (r: Option<i64>)
    requires
        0 <= subtotal <= MONEY_MAX_UNITS as int,
        0 <= rate <= RATE_MAX as int,
    ensures
        match r {
            Some(t) => t as int == spec_tax_units(subtotal as int, rate as int)
                && 0 <= t <= MONEY_MAX_UNITS as int,
            None => spec_tax_units(subtotal as int, rate as int) > MONEY_MAX_UNITS as int,
        },
{
    proof {
        assert((subtotal as int) * (rate as int) <= (MONEY_MAX_UNITS as int) * (RATE_MAX as int))
            by (nonlinear_arith)
            requires
                0 <= subtotal <= MONEY_MAX_UNITS as int,
                0 <= rate <= RATE_MAX as int,
        ;
        assert((subtotal as int) * (rate as int) >= 0) by (nonlinear_arith)
            requires
                subtotal >= 0,
                rate >= 0,
        ;
    }
    let product: u128 = (subtotal as u128) * (rate as u128);
    let divisor: u128 = TAX_CENT_DIVISOR as u128;
    let q: u128 = product / divisor;
    let rem: u128 = product % divisor;
    let cents: u128 = if 2 * rem < divisor {
        q
    } else if 2 * rem > divisor {
        q + 1
    } else if q % 2 == 0 {
        q
    } else {
        q + 1
    };
    if cents > 10_000_000_000_000u128 {
        None
    } else {
        Some((cents as i64) * UNITS_PER_CENT)
    }
}

} // verus!
