//! Exact conversion between SOL, written as a decimal number, and lamports.

use vstd::arithmetic::div_mod::{
    lemma_div_multiples_vanish_fancy, lemma_div_multiples_vanish_quotient,
    lemma_fundamental_div_mod, lemma_mod_bound,
};
use vstd::arithmetic::mul::{
    lemma_mul_inequality, lemma_mul_is_associative, lemma_mul_is_commutative,
    lemma_mul_is_distributive_add,
};
use vstd::arithmetic::power::{lemma_pow_adds, lemma_pow_increases, lemma_pow_positive, pow};
use vstd::prelude::*;

verus! {

/// Number of lamports in one SOL.
pub const LAMPORTS_PER_SOL: u64 = 1_000_000_000;

/// Number of decimal places of SOL that a lamport stands for.
pub const LAMPORT_DECIMALS: u8 = 9;

/// A non-negative amount of SOL as a decimal number: `mantissa / 10^scale`.
///
/// `SolAmount { mantissa: 75, scale: 1 }` is 7.5 SOL. Two amounts with
/// different fields may have the same value; see [`SolAmount::same_value`].
#[derive(Clone, Copy, Debug, PartialEq, Eq, Structural)]
pub struct SolAmount {
    pub mantissa: u64,
    pub scale: u8,
}

/// The integer nearest to `num / den`, a half going up.
pub open spec fn round_half_up(num: int, den: int) -> int {
    (2 * num + den) / (2 * den)
}

impl SolAmount {
    /// The amount in lamports, before it is fitted into a `u64`: the value
    /// times `LAMPORTS_PER_SOL`, rounded to the nearest integer, a half going up.
    pub open spec fn nearest_lamports(self) -> int {
        round_half_up(self.mantissa * LAMPORTS_PER_SOL, pow(10, self.scale as nat))
    }

    /// Both amounts stand for the same number.
    pub open spec fn same_value(self, other: SolAmount) -> bool {
        self.mantissa * pow(10, other.scale as nat) == other.mantissa * pow(10, self.scale as nat)
    }

    /// The amount `mantissa / 10^scale`.
    pub fn new(mantissa: u64, scale: u8) -> (amount: SolAmount)
        ensures
            amount == (SolAmount { mantissa, scale }),
    {
        SolAmount { mantissa, scale }
    }

    /// A whole number of SOL.
    pub fn whole(sol: u64) -> (amount: SolAmount)
        ensures
            amount == (SolAmount { mantissa: sol, scale: 0 }),
    {
        SolAmount { mantissa: sol, scale: 0 }
    }
}

/// What [`sol_to_lamports`] returns: the nearest number of lamports, or
/// `u64::MAX` where that does not fit.
pub open spec fn sol_to_lamports_spec(sol: SolAmount) -> u64 {
    if sol.nearest_lamports() > u64::MAX {
        u64::MAX
    } else {
        sol.nearest_lamports() as u64
    }
}

/// What [`lamports_to_sol`] returns: the lamports over `LAMPORTS_PER_SOL`.
pub open spec fn lamports_to_sol_spec(lamports: u64) -> SolAmount {
    SolAmount { mantissa: lamports, scale: LAMPORT_DECIMALS }
}

proof fn lemma_small_powers()
    ensures
        pow(10, 0) == 1,
        pow(10, 9) == LAMPORTS_PER_SOL,
        pow(10, 19) == 10_000_000_000_000_000_000,
        pow(10, 20) == 100_000_000_000_000_000_000,
{
    reveal_with_fuel(pow, 21);
}

/// With at most nine decimal places nothing is rounded: the lamports are the
/// mantissa times a power of ten.
proof fn lemma_exact_lamports(sol: SolAmount)
    requires
        sol.scale <= LAMPORT_DECIMALS,
    ensures
        sol.nearest_lamports() == sol.mantissa * pow(10, (LAMPORT_DECIMALS - sol.scale) as nat),
        0 < pow(10, (LAMPORT_DECIMALS - sol.scale) as nat) <= LAMPORTS_PER_SOL,
{
    let m = sol.mantissa as int;
    let up = pow(10, (LAMPORT_DECIMALS - sol.scale) as nat);
    let den = pow(10, sol.scale as nat);
    lemma_small_powers();
    lemma_pow_positive(10, sol.scale as nat);
    lemma_pow_positive(10, (LAMPORT_DECIMALS - sol.scale) as nat);
    lemma_pow_increases(10, (LAMPORT_DECIMALS - sol.scale) as nat, 9);
    lemma_pow_adds(10, (LAMPORT_DECIMALS - sol.scale) as nat, sol.scale as nat);
    assert(pow(10, 9) == up * den);
    assert(m * (up * den) == (m * up) * den) by {
        lemma_mul_is_associative(m, up, den);
    }
    assert(2 * (m * LAMPORTS_PER_SOL) + den == (2 * den) * (m * up) + den) by {
        lemma_mul_is_commutative(m * up, den);
        lemma_mul_is_associative(2, den, m * up);
    }
    lemma_div_multiples_vanish_fancy(m * up, den, 2 * den);
}

/// Beyond nine decimal places the common power of ten cancels: the lamports
/// are the mantissa over `10^(scale - 9)`, rounded.
proof fn lemma_rounded_lamports(sol: SolAmount)
    requires
        sol.scale > LAMPORT_DECIMALS,
    ensures
        sol.nearest_lamports() == round_half_up(
            sol.mantissa as int,
            pow(10, (sol.scale - LAMPORT_DECIMALS) as nat),
        ),
        0 < pow(10, (sol.scale - LAMPORT_DECIMALS) as nat),
{
    let m = sol.mantissa as int;
    let down = pow(10, (sol.scale - LAMPORT_DECIMALS) as nat);
    let den = pow(10, sol.scale as nat);
    let unit = LAMPORTS_PER_SOL as int;
    lemma_small_powers();
    lemma_pow_positive(10, (sol.scale - LAMPORT_DECIMALS) as nat);
    lemma_pow_adds(10, 9, (sol.scale - LAMPORT_DECIMALS) as nat);
    assert(den == unit * down);
    assert(2 * (m * unit) + den == unit * (2 * m + down)) by {
        lemma_mul_is_distributive_add(unit, 2 * m, down);
        lemma_mul_is_commutative(m, unit);
        lemma_mul_is_associative(unit, 2, m);
        lemma_mul_is_commutative(unit, 2);
        lemma_mul_is_associative(2, unit, m);
    }
    assert(2 * den == unit * (2 * down)) by {
        lemma_mul_is_associative(unit, 2, down);
        lemma_mul_is_commutative(unit, 2);
        lemma_mul_is_associative(2, unit, down);
    }
    lemma_div_multiples_vanish_quotient(unit, 2 * m + down, 2 * down);
}

/// `10^exponent`, for an exponent whose power fits in a `u64`.
fn power_of_ten(exponent: u8) -> (power: u64)
    requires
        exponent <= 19,
    ensures
        power == pow(10, exponent as nat),
{
    let mut power: u64 = 1;
    let mut done: u8 = 0;
    proof {
        lemma_small_powers();
    }
    while done < exponent
        invariant
            done <= exponent <= 19,
            power == pow(10, done as nat),
        decreases exponent - done,
    {
        proof {
            lemma_small_powers();
            lemma_pow_increases(10, (done + 1) as nat, 19);
            reveal_with_fuel(pow, 2);
        }
        power = power * 10;
        done = done + 1;
    }
    power
}

/// Convert SOL to lamports: the nearest whole number of lamports, a half
/// going up, and `u64::MAX` where the amount is above what a `u64` holds.
pub fn sol_to_lamports(sol: SolAmount) -> (lamports: u64)
    ensures
        lamports == sol_to_lamports_spec(sol),
{
    if sol.scale <= LAMPORT_DECIMALS {
        let up: u64 = power_of_ten(LAMPORT_DECIMALS - sol.scale);
        proof {
            lemma_exact_lamports(sol);
            lemma_mul_inequality(up as int, LAMPORTS_PER_SOL as int, sol.mantissa as int);
            lemma_mul_is_commutative(up as int, sol.mantissa as int);
            lemma_mul_is_commutative(LAMPORTS_PER_SOL as int, sol.mantissa as int);
            lemma_mul_inequality(
                sol.mantissa as int,
                u64::MAX as int,
                LAMPORTS_PER_SOL as int,
            );
        }
        let product: u128 = (sol.mantissa as u128) * (up as u128);
        if product > u64::MAX as u128 {
            u64::MAX
        } else {
            product as u64
        }
    } else if sol.scale - LAMPORT_DECIMALS > 19 {
        proof {
            lemma_rounded_lamports(sol);
            lemma_small_powers();
            lemma_pow_increases(10, 20, (sol.scale - LAMPORT_DECIMALS) as nat);
            let down = pow(10, (sol.scale - LAMPORT_DECIMALS) as nat);
            lemma_div_multiples_vanish_fancy(0, 2 * sol.mantissa + down, 2 * down);
        }
        0
    } else {
        let down: u64 = power_of_ten(sol.scale - LAMPORT_DECIMALS);
        proof {
            lemma_rounded_lamports(sol);
            lemma_small_powers();
            lemma_pow_increases(10, (sol.scale - LAMPORT_DECIMALS) as nat, 19);
        }
        let doubled: u128 = 2 * (sol.mantissa as u128) + (down as u128);
        let nearest: u128 = doubled / (2 * (down as u128));
        proof {
            let m = sol.mantissa as int;
            let d = down as int;
            lemma_fundamental_div_mod(2 * m + d, 2 * d);
            lemma_mod_bound(2 * m + d, 2 * d);
            assert((2 * d) * nearest <= 2 * m + d);
            assert(nearest <= m) by (nonlinear_arith)
                requires
                    (2 * d) * nearest <= 2 * m + d,
                    d >= 1,
                    m >= 0,
                    nearest >= 0,
            ;
        }
        nearest as u64
    }
}

/// Convert lamports to SOL: exactly the lamports over `LAMPORTS_PER_SOL`.
pub fn lamports_to_sol(lamports: u64) -> (sol: SolAmount)
    ensures
        sol == lamports_to_sol_spec(lamports),
{
    SolAmount { mantissa: lamports, scale: LAMPORT_DECIMALS }
}

/// Rounding goes to the nearest lamport, and a half goes up: the amount in
/// lamports lies in the half-open interval from `nearest - 1/2` to
/// `nearest + 1/2`. Stated without fractions, both sides are multiplied by
/// `2 * 10^scale`.
pub proof fn lemma_rounds_half_up(sol: SolAmount)
    ensures
        0 <= sol.nearest_lamports(),
        2 * sol.nearest_lamports() * pow(10, sol.scale as nat) - pow(10, sol.scale as nat) <= 2
            * (sol.mantissa * LAMPORTS_PER_SOL),
        2 * (sol.mantissa * LAMPORTS_PER_SOL) < 2 * sol.nearest_lamports() * pow(
            10,
            sol.scale as nat,
        ) + pow(10, sol.scale as nat),
{
    let num = sol.mantissa * LAMPORTS_PER_SOL;
    let den = pow(10, sol.scale as nat);
    let nearest = sol.nearest_lamports();
    lemma_pow_positive(10, sol.scale as nat);
    lemma_fundamental_div_mod(2 * num + den, 2 * den);
    lemma_mod_bound(2 * num + den, 2 * den);
    assert((2 * den) * nearest == 2 * nearest * den) by {
        lemma_mul_is_commutative(2 * den, nearest);
        lemma_mul_is_associative(nearest, 2, den);
        lemma_mul_is_commutative(nearest, 2);
    }
    assert(nearest >= 0) by (nonlinear_arith)
        requires
            2 * nearest * den + 2 * den > 2 * num + den,
            num >= 0,
            den > 0,
    ;
}

/// An amount with at most nine decimal places that fits in a `u64` of
/// lamports comes back from lamports with the value it had.
pub proof fn lemma_round_trip_exact(sol: SolAmount)
    requires
        sol.scale <= LAMPORT_DECIMALS,
        sol.nearest_lamports() <= u64::MAX,
    ensures
        lamports_to_sol_spec(sol_to_lamports_spec(sol)).same_value(sol),
{
    let m = sol.mantissa as int;
    let up = pow(10, (LAMPORT_DECIMALS - sol.scale) as nat);
    let den = pow(10, sol.scale as nat);
    lemma_exact_lamports(sol);
    lemma_small_powers();
    lemma_pow_adds(10, (LAMPORT_DECIMALS - sol.scale) as nat, sol.scale as nat);
    lemma_mul_is_associative(m, up, den);
}

/// Whatever its number of decimal places, an amount that fits in a `u64` of
/// lamports comes back from lamports at most half a lamport away from where
/// it was. Stated without fractions, both sides are multiplied by
/// `2 * 10^scale`.
pub proof fn lemma_round_trip_within_half_lamport(sol: SolAmount)
    requires
        sol.nearest_lamports() <= u64::MAX,
    ensures
        ({
            let back = lamports_to_sol_spec(sol_to_lamports_spec(sol));
            let gap = back.mantissa * pow(10, sol.scale as nat) - sol.mantissa * pow(
                10,
                back.scale as nat,
            );
            -pow(10, sol.scale as nat) < 2 * gap <= pow(10, sol.scale as nat)
        }),
{
    lemma_rounds_half_up(sol);
    lemma_small_powers();
    let nearest = sol.nearest_lamports();
    let den = pow(10, sol.scale as nat);
    let num = sol.mantissa * LAMPORTS_PER_SOL;
    assert(2 * (nearest * den - num) == 2 * nearest * den - 2 * num) by {
        lemma_mul_is_associative(2, nearest, den);
    }
}

} // verus!
