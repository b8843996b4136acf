use vstd::prelude::*;
use vstd::arithmetic::div_mod::{
    lemma_div_multiples_vanish, lemma_div_pos_is_pos, lemma_fundamental_div_mod,
    lemma_multiply_divide_le, lemma_multiply_divide_lt,
};
use vstd::arithmetic::mul::{
    lemma_mul_inequality, lemma_mul_is_commutative, lemma_mul_strict_inequality,
    lemma_mul_upper_bound,
};

verus! {

/// Shares minted by depositing `amount` into a pool holding `total_assets`
/// against `total_shares` outstanding: one share per unit on the bootstrap
/// deposit, `floor(amount * total_shares / total_assets)` afterwards. Floor
/// rounding biases the error against the depositor and in favor of the
/// remaining pool.
pub open spec fn shares_for_deposit(total_assets: u64, total_shares: u64, amount: u64) -> int {
    if total_shares == 0 {
        amount as int
    } else {
        (amount as int * total_shares as int) / (total_assets as int)
    }
}

/// Asset units returned for redeeming `shares` at the pool's current
/// valuation: `floor(shares * total_assets / total_shares)`.
pub open spec fn redeem_value(total_assets: u64, total_shares: u64, shares: u64) -> int
    recommends
        total_shares > 0,
{
    (shares as int * total_assets as int) / (total_shares as int)
}

/// Largest notional exposure the cap allows in one epoch:
/// `floor(total_assets * utilization_cap_bps / 10000)`.
pub open spec fn max_exposure(total_assets: u64, utilization_cap_bps: u16) -> int {
    (total_assets as int * utilization_cap_bps as int) / 10000
}

/// Running average premium rate in basis points,
/// `floor(premium * 10000 / notional)`, truncated to the width of the
/// stored `u32` counter.
pub open spec fn avg_premium_bps(premium: u64, notional: u64) -> int
    recommends
        notional > 0,
{
    ((premium as int * 10000) / notional as int) % 0x1_0000_0000
}

/// Computes `floor(x * y / d)` through a 128-bit intermediate, so the
/// product of two `u64` values cannot overflow.
pub fn mul_div(x: u64, y: u64, d: u64) -> (r: u64)
    requires
        d > 0,
        x as int * y as int / d as int <= u64::MAX,
    ensures
        r == x as int * y as int / d as int,
{
    proof {
        lemma_mul_upper_bound(x as int, u64::MAX as int, y as int, u64::MAX as int);
    }
    (((x as u128) * (y as u128)) / (d as u128)) as u64
}

/// Recomputes the running average premium rate, truncating into `u32`
/// exactly as the stored counter does.
pub fn avg_premium_bps_u32(premium: u64, notional: u64) -> (r: u32)
    requires
        notional > 0,
    ensures
        r == avg_premium_bps(premium, notional),
{
    proof {
        lemma_mul_upper_bound(premium as int, u64::MAX as int, 10000, 10000);
    }
    let q: u128 = ((premium as u128) * 10000) / (notional as u128);
    proof {
        assert((q as u32) as u128 == q % 0x1_0000_0000u128) by (bit_vector);
    }
    #[verifier::truncate]
    (q as u32)
}

/// Minting `q = floor(x * s / a)` shares for `x` fresh asset units cannot
/// lower the share price: the pool keeps any rounding remainder.
pub proof fn lemma_deposit_price_not_lowered(a: int, s: int, x: int, q: int)
    requires
        a > 0,
        s >= 0,
        x >= 0,
        q == x * s / a,
    ensures
        a * q <= x * s,
        0 <= q,
        (a + x) * s >= a * (s + q),
{
    lemma_fundamental_div_mod(x * s, a);
    lemma_div_pos_is_pos(x * s, a);
    assert(x * s >= 0) by (nonlinear_arith)
        requires
            x >= 0,
            s >= 0,
    ;
    assert((a + x) * s >= a * (s + q)) by (nonlinear_arith)
        requires
            a * q <= x * s,
    ;
}

/// Redeeming `sh` of `s` shares pays out `m = floor(sh * a / s)`, which
/// never exceeds the redeemed share of the pool: the payout is covered,
/// the remaining price cannot fall, and the pool empties exactly when the
/// last share leaves.
pub proof fn lemma_redeem_price_not_lowered(a: int, s: int, sh: int, m: int)
    requires
        a >= 0,
        s > 0,
        0 <= sh <= s,
        m == sh * a / s,
    ensures
        0 <= m <= a,
        s * m <= sh * a,
        (a - m) * s >= a * (s - sh),
        sh == s ==> m == a,
        sh < s && a > 0 ==> m < a,
{
    lemma_mul_inequality(sh, s, a);
    assert(sh * a >= 0) by (nonlinear_arith)
        requires
            sh >= 0,
            a >= 0,
    ;
    lemma_fundamental_div_mod(sh * a, s);
    lemma_div_pos_is_pos(sh * a, s);
    lemma_multiply_divide_le(sh * a, s, a);
    assert((a - m) * s >= a * (s - sh)) by (nonlinear_arith)
        requires
            s * m <= sh * a,
    ;
    if sh == s {
        lemma_div_multiples_vanish(a, s);
        lemma_mul_is_commutative(s, a);
    }
    if sh < s && a > 0 {
        lemma_mul_strict_inequality(sh, s, a);
        lemma_multiply_divide_lt(sh * a, s, a);
    }
}

/// A cap of at most 10000 basis points never permits exposure beyond the
/// pool's own assets.
pub proof fn lemma_max_exposure_fits(total_assets: u64, utilization_cap_bps: u16)
    requires
        utilization_cap_bps <= 10000,
    ensures
        0 <= max_exposure(total_assets, utilization_cap_bps) <= total_assets,
{
    let a = total_assets as int;
    let c = utilization_cap_bps as int;
    lemma_mul_inequality(c, 10000, a);
    lemma_mul_is_commutative(c, a);
    lemma_mul_is_commutative(10000, a);
    lemma_multiply_divide_le(a * c, 10000, a);
    assert(a * c >= 0) by (nonlinear_arith)
        requires
            a >= 0,
            c >= 0,
    ;
    lemma_div_pos_is_pos(a * c, 10000);
}

} // verus!
