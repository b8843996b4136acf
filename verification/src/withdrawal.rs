use vstd::prelude::*;
use crate::errors::VaultError;
use crate::math::{lemma_redeem_price_not_lowered, redeem_value};
use crate::vault::{price_not_decreased, Vault};

verus! {

/// One user's queued claim to redeem shares, filed against one pool.
///
/// At most one live request exists per (user, pool) pair; filing again
/// before settlement overwrites it. A request settles only in an epoch
/// strictly later than `request_epoch`, and once settled it is terminal.
#[derive(Clone, Copy, Debug, PartialEq, Eq, Structural)]
pub struct WithdrawalRequest {
    /// Identity key of the requesting user, as proven by the external
    /// signer-verification layer.
    pub user: u64,
    /// Identity key of the pool the request is filed against.
    pub pool: u64,
    /// Shares queued for redemption, fixed at filing time.
    pub shares: u64,
    /// The pool's epoch at filing time.
    pub request_epoch: u64,
    /// Whether settlement has happened. Set once, never cleared.
    pub processed: bool,
}

/// A request may settle: it is still open and the pool has advanced to a
/// strictly later epoch, so the valuation it will settle at was not known
/// when the request was filed.
pub open spec fn settleable(v: Vault, r: WithdrawalRequest) -> bool {
    &&& !r.processed
    &&& v.epoch > r.request_epoch
}

impl Vault {
    /// Files (or re-files, overwriting) a withdrawal request for `shares`
    /// of the caller's holding, frozen at the current epoch. The caller's
    /// share balance comes from the external asset ledger; the shares
    /// themselves are neither moved nor locked until settlement.
    pub fn request_withdrawal(
        &mut self,
        user: u64,
        pool: u64,
        shares: u64,
        user_share_balance: u64,
    ) -> (r: Result<WithdrawalRequest, VaultError>)
        requires
            old(self).well_formed(),
            shares > 0 && shares <= user_share_balance ==> old(self).pending_withdrawal_shares
                + shares <= u64::MAX,
        ensures
            final(self).well_formed(),
            r is Ok <==> shares > 0 && shares <= user_share_balance,
            match r {
                Ok(req) => {
                    &&& req == (WithdrawalRequest {
                        user,
                        pool,
                        shares,
                        request_epoch: old(self).epoch,
                        processed: false,
                    })
                    &&& final(self).pending_withdrawal_shares
                        == old(self).pending_withdrawal_shares + shares
                    &&& final(self).total_assets == old(self).total_assets
                    &&& final(self).total_shares == old(self).total_shares
                    &&& final(self).epoch == old(self).epoch
                    &&& final(self).utilization_cap_bps == old(self).utilization_cap_bps
                    &&& final(self).epoch_notional_exposed == old(self).epoch_notional_exposed
                    &&& final(self).epoch_premium_earned == old(self).epoch_premium_earned
                    &&& final(self).epoch_avg_premium_bps == old(self).epoch_avg_premium_bps
                    &&& final(self).last_epoch_advance_time == old(self).last_epoch_advance_time
                    &&& !settleable(*final(self), req)
                },
                Err(e) => {
                    &&& *final(self) == *old(self)
                    &&& (e == VaultError::InvalidInput <==> shares == 0)
                    &&& (e == VaultError::InsufficientBalance <==> shares > 0 && shares
                        > user_share_balance)
                },
            },
    {
        if shares == 0 {
            return Err(VaultError::InvalidInput);
        }
        if shares > user_share_balance {
            return Err(VaultError::InsufficientBalance);
        }
        self.pending_withdrawal_shares = self.pending_withdrawal_shares + shares;
        Ok(
            WithdrawalRequest {
                user,
                pool,
                shares,
                request_epoch: self.epoch,
                processed: false,
            },
        )
    }

    /// Settles an open request once the pool has advanced past the epoch
    /// it was filed in, redeeming its shares at the pool's current
    /// valuation, which is at least one epoch newer than the request. The
    /// caller burns the user's shares and pays out the returned amount
    /// from pool custody; transfer failure rolls this state change back.
    ///
    /// Settlement is terminal: a second call on the same request returns
    /// `AlreadyProcessed` and changes nothing.
    pub fn process_withdrawal(&mut self, request: &mut WithdrawalRequest) -> (r: Result<
        u64,
        VaultError,
    >)
        requires
            old(self).well_formed(),
            settleable(*old(self), *old(request)) ==> {
                &&& old(self).total_shares > 0
                &&& old(request).shares <= old(self).total_shares
                &&& old(request).shares <= old(self).pending_withdrawal_shares
            },
        ensures
            final(self).well_formed(),
            r is Ok <==> settleable(*old(self), *old(request)),
            match r {
                Ok(amount) => {
                    &&& amount == redeem_value(
                        old(self).total_assets,
                        old(self).total_shares,
                        old(request).shares,
                    )
                    &&& final(self).total_assets == old(self).total_assets - amount
                    &&& final(self).total_shares == old(self).total_shares - old(request).shares
                    &&& final(self).pending_withdrawal_shares
                        == old(self).pending_withdrawal_shares - old(request).shares
                    &&& final(self).epoch == old(self).epoch
                    &&& final(self).utilization_cap_bps == old(self).utilization_cap_bps
                    &&& final(self).epoch_notional_exposed == old(self).epoch_notional_exposed
                    &&& final(self).epoch_premium_earned == old(self).epoch_premium_earned
                    &&& final(self).epoch_avg_premium_bps == old(self).epoch_avg_premium_bps
                    &&& final(self).last_epoch_advance_time == old(self).last_epoch_advance_time
                    &&& *final(request) == (WithdrawalRequest {
                        processed: true,
                        ..*old(request)
                    })
                    &&& price_not_decreased(*old(self), *final(self))
                    &&& !settleable(*final(self), *final(request))
                },
                Err(e) => {
                    &&& *final(self) == *old(self)
                    &&& *final(request) == *old(request)
                    &&& (e == VaultError::AlreadyProcessed <==> old(request).processed)
                    &&& (e == VaultError::EpochNotSettled <==> !old(request).processed && old(
                        self,
                    ).epoch <= old(request).request_epoch)
                },
            },
    {
        if request.processed {
            return Err(VaultError::AlreadyProcessed);
        }
        if self.epoch <= request.request_epoch {
            return Err(VaultError::EpochNotSettled);
        }
        let shares = request.shares;
        let amount = self.redeem_amount(shares);
        proof {
            lemma_redeem_price_not_lowered(
                self.total_assets as int,
                self.total_shares as int,
                shares as int,
                shares as int * self.total_assets as int / self.total_shares as int,
            );
        }
        self.total_assets = self.total_assets - amount;
        self.total_shares = self.total_shares - shares;
        self.pending_withdrawal_shares = self.pending_withdrawal_shares - shares;
        request.processed = true;
        Ok(amount)
    }
}

} // verus!
