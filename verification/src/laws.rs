use vstd::prelude::*;
use vstd::arithmetic::div_mod::{
    lemma_div_multiples_vanish, lemma_fundamental_div_mod, lemma_multiply_divide_le,
};
use vstd::arithmetic::mul::lemma_mul_is_commutative;
use crate::math::{redeem_value, shares_for_deposit};
use crate::vault::{price_not_decreased, Vault};
use crate::withdrawal::{settleable, WithdrawalRequest};

verus! {

/// Share-price monotonicity composes: each deposit, settlement and epoch
/// advance ensures `price_not_decreased` for its own step, and this
/// transitivity extends the guarantee to any sequence of such steps, so
/// the share price never falls across a whole epoch followed by its
/// advance.
pub proof fn price_not_decreased_transitive(first: Vault, mid: Vault, last: Vault)
    requires
        price_not_decreased(first, mid),
        price_not_decreased(mid, last),
        mid.total_shares > 0,
    ensures
        price_not_decreased(first, last),
{
    if first.total_shares > 0 {
        let a1 = first.total_assets as int;
        let s1 = first.total_shares as int;
        let a2 = mid.total_assets as int;
        let s2 = mid.total_shares as int;
        let a3 = last.total_assets as int;
        let s3 = last.total_shares as int;
        assert(a3 * s1 >= a1 * s3) by (nonlinear_arith)
            requires
                a1 >= 0,
                a2 >= 0,
                a3 >= 0,
                s1 > 0,
                s2 > 0,
                s3 >= 0,
                a2 * s1 >= a1 * s2,
                a3 * s2 >= a2 * s3,
        ;
    }
}

/// No same-epoch exit: a request filed at the pool's current epoch cannot
/// settle while that epoch lasts, and becomes settleable exactly when the
/// pool has advanced at least one epoch past it. Together with the
/// settlement contract (`Ok` if and only if `settleable`), a request can
/// never be used to exit at the valuation of the epoch it was filed in.
pub proof fn no_same_epoch_exit(at_filing: Vault, later: Vault, request: WithdrawalRequest)
    requires
        !request.processed,
        request.request_epoch == at_filing.epoch,
    ensures
        !settleable(at_filing, request),
        later.epoch >= request.request_epoch + 1 ==> settleable(later, request),
{
}

/// Settlement is idempotent in effect: once a request is processed it is
/// terminal, so no pool state can make it settleable again, and the
/// settlement contract then answers `AlreadyProcessed` and leaves both
/// records unchanged.
pub proof fn settled_request_is_terminal(v: Vault, request: WithdrawalRequest)
    requires
        request.processed,
    ensures
        !settleable(v, request),
{
}

/// Conservation: depositing `x`, then redeeming every minted share at the
/// same valuation (one epoch advance with zero premium changes neither
/// assets nor shares), returns exactly `x` whenever the mint divides
/// evenly — in particular on a bootstrap deposit into an empty pool.
///
/// On an uneven mint the floor keeps the remainder in the pool: with
/// `total_assets == 3`, `total_shares == 2` and a deposit of `2`, one
/// share is minted and redeems for `1`, not `2`; see
/// `deposit_then_full_redeem_no_gain` for the bound that always holds.
pub proof fn deposit_then_full_redeem_conserves(a: u64, s: u64, x: u64)
    requires
        s == 0 <==> a == 0,
        x > 0,
        shares_for_deposit(a, s, x) > 0,
        a + x <= u64::MAX,
        s + shares_for_deposit(a, s, x) <= u64::MAX,
        s == 0 || (x as int * s as int) % (a as int) == 0,
    ensures
        redeem_value(
            (a + x) as u64,
            (s + shares_for_deposit(a, s, x)) as u64,
            shares_for_deposit(a, s, x) as u64,
        ) == x,
{
    let q = shares_for_deposit(a, s, x);
    if s == 0 {
        assert(q == x as int);
        lemma_div_multiples_vanish(x as int, x as int);
        lemma_mul_is_commutative(x as int, x as int);
    } else {
        let ai = a as int;
        let si = s as int;
        let xi = x as int;
        lemma_fundamental_div_mod(xi * si, ai);
        assert(ai * q == xi * si);
        assert(q * (ai + xi) == xi * (si + q)) by (nonlinear_arith)
            requires
                ai * q == xi * si,
        ;
        lemma_div_multiples_vanish(xi, si + q);
        lemma_mul_is_commutative(xi, si + q);
    }
}

/// No value is ever created by a round trip: depositing `x` and redeeming
/// every minted share at the same valuation returns at most `x`, for every
/// pool state. Rounding loss stays with the pool; it never pays out more
/// than came in.
pub proof fn deposit_then_full_redeem_no_gain(a: u64, s: u64, x: u64)
    requires
        s == 0 <==> a == 0,
        shares_for_deposit(a, s, x) > 0,
        a + x <= u64::MAX,
        s + shares_for_deposit(a, s, x) <= u64::MAX,
    ensures
        redeem_value(
            (a + x) as u64,
            (s + shares_for_deposit(a, s, x)) as u64,
            shares_for_deposit(a, s, x) as u64,
        ) <= x,
{
    let q = shares_for_deposit(a, s, x);
    if s == 0 {
        assert(q == x as int);
        lemma_div_multiples_vanish(x as int, x as int);
        lemma_mul_is_commutative(x as int, x as int);
    } else {
        let ai = a as int;
        let si = s as int;
        let xi = x as int;
        lemma_fundamental_div_mod(xi * si, ai);
        assert(ai * q <= xi * si);
        assert(q * (ai + xi) <= (si + q) * xi) by (nonlinear_arith)
            requires
                ai * q <= xi * si,
        ;
        lemma_multiply_divide_le(q * (ai + xi), si + q, xi);
    }
}

} // verus!
