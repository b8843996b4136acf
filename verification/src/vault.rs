use vstd::prelude::*;
use crate::errors::VaultError;
use crate::math::{
    avg_premium_bps, avg_premium_bps_u32, lemma_deposit_price_not_lowered,
    lemma_max_exposure_fits, max_exposure, mul_div, redeem_value, shares_for_deposit,
};

verus! {

/// The shared-capital accounting record of one pool: its valuation base,
/// shares outstanding, epoch counter, risk parameter, and the per-epoch
/// strategy counters.
///
/// One record exists per strategy asset; the external keyed-record store
/// owns persistence and hands a consistent snapshot to each operation.
#[derive(Clone, Copy, Debug, PartialEq, Eq, Structural)]
pub struct Vault {
    /// Total underlying asset units owned by the pool: the valuation base.
    pub total_assets: u64,
    /// Total shares outstanding against those assets.
    pub total_shares: u64,
    /// Monotonically increasing epoch counter, starting at zero.
    pub epoch: u64,
    /// Largest fraction of `total_assets`, in basis points (0 to 10000),
    /// that may be notionally exposed within one epoch.
    pub utilization_cap_bps: u16,
    /// Sum of shares currently queued for redemption. Informational: it
    /// does not gate deposits or exposure.
    pub pending_withdrawal_shares: u64,
    /// Notional exposure accumulated in the current epoch.
    pub epoch_notional_exposed: u64,
    /// Premium earned in the current epoch, in raw asset units.
    pub epoch_premium_earned: u64,
    /// Running average premium rate of the current epoch, in basis points.
    /// Informational telemetry; never gates further exposure.
    pub epoch_avg_premium_bps: u32,
    /// Timestamp recorded at the most recent epoch advance.
    pub last_epoch_advance_time: i64,
}

/// The share price of `post` is at least that of `pre`, compared
/// cross-multiplied so the statement stays in integers.
pub open spec fn price_not_decreased(pre: Vault, post: Vault) -> bool {
    pre.total_shares > 0 ==> post.total_assets * pre.total_shares
        >= pre.total_assets * post.total_shares
}

impl Vault {
    /// The record's internal invariant: the pool is either empty or has a
    /// well-defined share price — it holds assets exactly when shares are
    /// outstanding (so every pro-rata quotient divides by a positive
    /// base, and no assets are ever stranded without a claim on them) —
    /// and the cap stays within 10000 basis points (so permitted exposure
    /// never exceeds the assets).
    pub open spec fn well_formed(self) -> bool {
        &&& self.total_assets == 0 <==> self.total_shares == 0
        &&& self.utilization_cap_bps <= 10000
    }

    /// Creates the accounting record of a fresh pool: empty, at epoch
    /// zero, with all per-epoch counters cleared.
    pub fn initialize_vault(utilization_cap_bps: u16) -> (v: Vault)
        requires
            utilization_cap_bps <= 10000,
        ensures
            v == (Vault {
                total_assets: 0u64,
                total_shares: 0u64,
                epoch: 0u64,
                utilization_cap_bps,
                pending_withdrawal_shares: 0u64,
                epoch_notional_exposed: 0u64,
                epoch_premium_earned: 0u64,
                epoch_avg_premium_bps: 0u32,
                last_epoch_advance_time: 0i64,
            }),
            v.well_formed(),
    {
        Vault {
            total_assets: 0,
            total_shares: 0,
            epoch: 0,
            utilization_cap_bps,
            pending_withdrawal_shares: 0,
            epoch_notional_exposed: 0,
            epoch_premium_earned: 0,
            epoch_avg_premium_bps: 0,
            last_epoch_advance_time: 0,
        }
    }

    /// Accepts `amount` asset units and mints shares at the current price:
    /// one per unit on the bootstrap deposit, floor-of-pro-rata afterwards.
    /// A deposit whose floor rounds to zero shares is rejected rather than
    /// silently diluting existing holders.
    ///
    /// The caller confirms the matching asset transfer into pool custody
    /// before making this state change durable.
    pub fn deposit(&mut self, amount: u64) -> (r: Result<u64, VaultError>)
        requires
            old(self).well_formed(),
            shares_for_deposit(old(self).total_assets, old(self).total_shares, amount) > 0 ==> {
                &&& old(self).total_assets + amount <= u64::MAX
                &&& old(self).total_shares + shares_for_deposit(
                    old(self).total_assets,
                    old(self).total_shares,
                    amount,
                ) <= u64::MAX
            },
        ensures
            final(self).well_formed(),
            r is Ok <==> amount > 0 && shares_for_deposit(
                old(self).total_assets,
                old(self).total_shares,
                amount,
            ) > 0,
            match r {
                Ok(shares_minted) => {
                    &&& shares_minted == shares_for_deposit(
                        old(self).total_assets,
                        old(self).total_shares,
                        amount,
                    )
                    &&& shares_minted > 0
                    &&& final(self).total_assets == old(self).total_assets + amount
                    &&& final(self).total_shares == old(self).total_shares + shares_minted
                    &&& final(self).epoch == old(self).epoch
                    &&& final(self).utilization_cap_bps == old(self).utilization_cap_bps
                    &&& final(self).pending_withdrawal_shares
                        == old(self).pending_withdrawal_shares
                    &&& final(self).epoch_notional_exposed == old(self).epoch_notional_exposed
                    &&& final(self).epoch_premium_earned == old(self).epoch_premium_earned
                    &&& final(self).epoch_avg_premium_bps == old(self).epoch_avg_premium_bps
                    &&& final(self).last_epoch_advance_time == old(self).last_epoch_advance_time
                    &&& price_not_decreased(*old(self), *final(self))
                },
                Err(e) => {
                    &&& *final(self) == *old(self)
                    &&& (e == VaultError::InvalidInput <==> amount == 0)
                    &&& (e == VaultError::ZeroShares <==> amount > 0)
                },
            },
    {
        if amount == 0 {
            return Err(VaultError::InvalidInput);
        }
        let shares_to_mint: u64 = if self.total_shares == 0 {
            amount
        } else {
            proof {
                lemma_deposit_price_not_lowered(
                    self.total_assets as int,
                    self.total_shares as int,
                    amount as int,
                    amount as int * self.total_shares as int / self.total_assets as int,
                );
            }
            mul_div(amount, self.total_shares, self.total_assets)
        };
        if shares_to_mint == 0 {
            return Err(VaultError::ZeroShares);
        }
        proof {
            if old(self).total_shares > 0 {
                lemma_deposit_price_not_lowered(
                    old(self).total_assets as int,
                    old(self).total_shares as int,
                    amount as int,
                    shares_to_mint as int,
                );
            }
        }
        self.total_assets = self.total_assets + amount;
        self.total_shares = self.total_shares + shares_to_mint;
        Ok(shares_to_mint)
    }

    /// Closes the current epoch: rolls the epoch's realized premium into
    /// the pool (the sole mechanism by which strategy profit reaches the
    /// holders), increments the epoch counter, stamps `now`, and clears
    /// the per-epoch counters. Every withdrawal request filed in the epoch
    /// just closed becomes settleable.
    ///
    /// Premium may only be rolled into a pool with shares outstanding:
    /// assets added while no shares exist would belong to nobody and be
    /// captured wholesale by the next bootstrap depositor.
    pub fn advance_epoch(&mut self, premium_earned: u64, now: i64)
        requires
            old(self).well_formed(),
            old(self).total_shares == 0 ==> premium_earned == 0,
            old(self).total_assets + premium_earned <= u64::MAX,
            old(self).epoch + 1 <= u64::MAX,
        ensures
            final(self).well_formed(),
            final(self).total_assets == old(self).total_assets + premium_earned,
            final(self).total_shares == old(self).total_shares,
            final(self).epoch == old(self).epoch + 1,
            final(self).utilization_cap_bps == old(self).utilization_cap_bps,
            final(self).pending_withdrawal_shares == old(self).pending_withdrawal_shares,
            final(self).epoch_notional_exposed == 0,
            final(self).epoch_premium_earned == 0,
            final(self).epoch_avg_premium_bps == 0,
            final(self).last_epoch_advance_time == now,
            price_not_decreased(*old(self), *final(self)),
    {
        proof {
            vstd::arithmetic::mul::lemma_mul_inequality(
                old(self).total_assets as int,
                old(self).total_assets as int + premium_earned as int,
                old(self).total_shares as int,
            );
        }
        self.total_assets = self.total_assets + premium_earned;
        self.epoch = self.epoch + 1;
        self.last_epoch_advance_time = now;
        self.epoch_notional_exposed = 0;
        self.epoch_premium_earned = 0;
        self.epoch_avg_premium_bps = 0;
    }

    /// The running exposure counter can absorb `notional` more units
    /// without overflowing.
    pub open spec fn exposure_fits(self, notional: u64) -> bool {
        self.epoch_notional_exposed + notional <= u64::MAX
    }

    /// Exposing `notional` more units stays within the utilization cap,
    /// evaluated against the pool's assets at call time.
    pub open spec fn exposure_within_cap(self, notional: u64) -> bool {
        self.epoch_notional_exposed + notional <= max_exposure(
            self.total_assets,
            self.utilization_cap_bps,
        )
    }

    /// The running premium counter can absorb `premium` more units
    /// without overflowing.
    pub open spec fn premium_fits(self, premium: u64) -> bool {
        self.epoch_premium_earned + premium <= u64::MAX
    }

    /// Records one strategy fill of the current epoch: `notional` more
    /// asset units put at risk for `premium` earned. Enforces the
    /// utilization cap against the pool's assets at call time and keeps
    /// the running average premium rate; on any failure the record is
    /// untouched.
    pub fn record_notional_exposure(&mut self, notional: u64, premium: u64) -> (r: Result<
        (),
        VaultError,
    >)
        requires
            old(self).well_formed(),
        ensures
            final(self).well_formed(),
            r is Ok <==> {
                &&& old(self).exposure_fits(notional)
                &&& old(self).exposure_within_cap(notional)
                &&& old(self).premium_fits(premium)
            },
            match r {
                Ok(()) => {
                    &&& final(self).epoch_notional_exposed == old(self).epoch_notional_exposed
                        + notional
                    &&& final(self).epoch_premium_earned == old(self).epoch_premium_earned
                        + premium
                    &&& final(self).epoch_avg_premium_bps == if old(self).epoch_notional_exposed
                        + notional > 0 {
                        avg_premium_bps(
                            (old(self).epoch_premium_earned + premium) as u64,
                            (old(self).epoch_notional_exposed + notional) as u64,
                        )
                    } else {
                        old(self).epoch_avg_premium_bps as int
                    }
                    &&& final(self).total_assets == old(self).total_assets
                    &&& final(self).total_shares == old(self).total_shares
                    &&& final(self).epoch == old(self).epoch
                    &&& final(self).utilization_cap_bps == old(self).utilization_cap_bps
                    &&& final(self).pending_withdrawal_shares
                        == old(self).pending_withdrawal_shares
                    &&& final(self).last_epoch_advance_time == old(self).last_epoch_advance_time
                },
                Err(e) => {
                    &&& *final(self) == *old(self)
                    &&& (e == VaultError::Overflow <==> !old(self).exposure_fits(notional) || (old(
                        self,
                    ).exposure_within_cap(notional) && !old(self).premium_fits(premium)))
                    &&& (e == VaultError::ExceedsUtilizationCap <==> old(self).exposure_fits(
                        notional,
                    ) && !old(self).exposure_within_cap(notional))
                },
            },
    {
        proof {
            lemma_max_exposure_fits(old(self).total_assets, old(self).utilization_cap_bps);
        }
        let max_allowed: u64 = mul_div(self.total_assets, self.utilization_cap_bps as u64, 10000);
        let new_exposure: u64 = match self.epoch_notional_exposed.checked_add(notional) {
            Some(v) => v,
            None => {
                return Err(VaultError::Overflow);
            },
        };
        if new_exposure > max_allowed {
            return Err(VaultError::ExceedsUtilizationCap);
        }
        let new_premium: u64 = match self.epoch_premium_earned.checked_add(premium) {
            Some(v) => v,
            None => {
                return Err(VaultError::Overflow);
            },
        };
        self.epoch_notional_exposed = new_exposure;
        self.epoch_premium_earned = new_premium;
        if new_exposure > 0 {
            self.epoch_avg_premium_bps = avg_premium_bps_u32(new_premium, new_exposure);
        }
        Ok(())
    }

    /// The asset units a redemption of `shares` receives at the pool's
    /// current valuation. Pure pro-rata floor math, used by withdrawal
    /// settlement; the payout never exceeds the pool's assets.
    pub fn redeem_amount(&self, shares: u64) -> (amount: u64)
        requires
            self.total_shares > 0,
            shares <= self.total_shares,
        ensures
            amount == redeem_value(self.total_assets, self.total_shares, shares),
            amount <= self.total_assets,
    {
        proof {
            crate::math::lemma_redeem_price_not_lowered(
                self.total_assets as int,
                self.total_shares as int,
                shares as int,
                shares as int * self.total_assets as int / self.total_shares as int,
            );
        }
        mul_div(shares, self.total_assets, self.total_shares)
    }
}

} // verus!
