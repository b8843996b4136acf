use epoch_vault::errors::VaultError;
use epoch_vault::vault::Vault;

/// With 1_000_000 assets and a 5000 bps cap, 400_000 of exposure fits and
/// a further 200_000 breaches the 500_000 maximum.
#[test]
fn utilization_cap_is_enforced() {
    let mut v = Vault::initialize_vault(5000);
    assert_eq!(v.deposit(1_000_000), Ok(1_000_000));
    assert_eq!(v.record_notional_exposure(400_000, 1_000), Ok(()));
    assert_eq!(
        v.record_notional_exposure(200_000, 500),
        Err(VaultError::ExceedsUtilizationCap)
    );
    // The failed call left every counter untouched.
    assert_eq!(v.epoch_notional_exposed, 400_000);
    assert_eq!(v.epoch_premium_earned, 1_000);
    // Exactly reaching the cap is still allowed.
    assert_eq!(v.record_notional_exposure(100_000, 250), Ok(()));
    assert_eq!(v.epoch_notional_exposed, 500_000);
}

/// Two fills of 100 notional for 5 premium each average to 500 bps:
/// 10 * 10000 / 200.
#[test]
fn average_premium_rate_accumulates() {
    let mut v = Vault::initialize_vault(10000);
    assert_eq!(v.deposit(1_000), Ok(1_000));
    assert_eq!(v.record_notional_exposure(100, 5), Ok(()));
    assert_eq!(v.epoch_avg_premium_bps, 500);
    assert_eq!(v.record_notional_exposure(100, 5), Ok(()));
    assert_eq!(v.epoch_notional_exposed, 200);
    assert_eq!(v.epoch_premium_earned, 10);
    assert_eq!(v.epoch_avg_premium_bps, 500);
}

/// The average is floored: 7 premium over 300 notional is 233 bps.
#[test]
fn average_premium_rate_floors() {
    let mut v = Vault::initialize_vault(10000);
    assert_eq!(v.deposit(1_000), Ok(1_000));
    assert_eq!(v.record_notional_exposure(300, 7), Ok(()));
    assert_eq!(v.epoch_avg_premium_bps, 233);
}

/// An extreme premium-to-notional ratio overflows the 32-bit average
/// counter and is stored truncated, exactly as the counter is declared.
#[test]
fn average_premium_rate_truncates_to_u32() {
    let mut v = Vault::initialize_vault(10000);
    assert_eq!(v.deposit(u64::MAX), Ok(u64::MAX));
    assert_eq!(v.record_notional_exposure(1, u64::MAX), Ok(()));
    let expected = ((u64::MAX as u128 * 10_000) % (1u128 << 32)) as u32;
    assert_eq!(v.epoch_avg_premium_bps, expected);
    assert_eq!(v.epoch_avg_premium_bps, 4_294_957_296);
}

/// Overflow of the exposure counter is reported before the cap check.
#[test]
fn exposure_overflow_is_reported() {
    let mut v = Vault::initialize_vault(10000);
    assert_eq!(v.deposit(u64::MAX), Ok(u64::MAX));
    assert_eq!(v.record_notional_exposure(u64::MAX, 0), Ok(()));
    assert_eq!(
        v.record_notional_exposure(1, 0),
        Err(VaultError::Overflow)
    );
    assert_eq!(v.epoch_notional_exposed, u64::MAX);
}

/// Overflow of the premium counter also aborts with no partial effect.
#[test]
fn premium_overflow_is_reported() {
    let mut v = Vault::initialize_vault(10000);
    assert_eq!(v.deposit(u64::MAX), Ok(u64::MAX));
    assert_eq!(v.record_notional_exposure(10, u64::MAX), Ok(()));
    assert_eq!(
        v.record_notional_exposure(10, 1),
        Err(VaultError::Overflow)
    );
    assert_eq!(v.epoch_notional_exposed, 10);
    assert_eq!(v.epoch_premium_earned, u64::MAX);
}

/// A zero-asset pool permits no exposure at all.
#[test]
fn empty_pool_permits_no_exposure() {
    let mut v = Vault::initialize_vault(10000);
    assert_eq!(
        v.record_notional_exposure(1, 0),
        Err(VaultError::ExceedsUtilizationCap)
    );
}

/// A mid-epoch deposit raises the valuation base and thereby loosens the
/// cap for later fills.
#[test]
fn deposits_loosen_the_cap_mid_epoch() {
    let mut v = Vault::initialize_vault(5000);
    assert_eq!(v.deposit(1_000), Ok(1_000));
    assert_eq!(
        v.record_notional_exposure(600, 0),
        Err(VaultError::ExceedsUtilizationCap)
    );
    assert_eq!(v.deposit(1_000), Ok(1_000));
    assert_eq!(v.record_notional_exposure(600, 0), Ok(()));
}

/// Advancing an epoch rolls premium into assets, bumps the counter,
/// stamps the time and clears every per-epoch counter.
#[test]
fn advance_rolls_premium_and_resets_counters() {
    let mut v = Vault::initialize_vault(5000);
    assert_eq!(v.deposit(1_000), Ok(1_000));
    assert_eq!(v.record_notional_exposure(400, 80), Ok(()));
    assert_eq!(v.epoch_avg_premium_bps, 2_000);

    v.advance_epoch(80, 1_700_000_000);
    assert_eq!(v.total_assets, 1_080);
    assert_eq!(v.total_shares, 1_000);
    assert_eq!(v.epoch, 1);
    assert_eq!(v.last_epoch_advance_time, 1_700_000_000);
    assert_eq!(v.epoch_notional_exposed, 0);
    assert_eq!(v.epoch_premium_earned, 0);
    assert_eq!(v.epoch_avg_premium_bps, 0);
}

/// An empty pool can still advance epochs with zero premium: the counter
/// moves, the pool stays empty, and a later bootstrap deposit starts at
/// par. Positive premium is only ever rolled into a pool with shares
/// outstanding, so no assets are ever stranded without a claim on them.
#[test]
fn empty_pool_advances_only_without_premium() {
    let mut v = Vault::initialize_vault(5000);
    assert_eq!(v.deposit(100), Ok(100));
    let mut req = v.request_withdrawal(1, 1, 100, 100).unwrap();
    v.advance_epoch(0, 1);
    assert_eq!(v.process_withdrawal(&mut req), Ok(100));
    assert_eq!(v.total_assets, 0);
    assert_eq!(v.total_shares, 0);

    v.advance_epoch(0, 2);
    assert_eq!(v.epoch, 2);
    assert_eq!(v.total_assets, 0);
    assert_eq!(v.total_shares, 0);

    assert_eq!(v.deposit(50), Ok(50));
    assert_eq!(v.total_assets, 50);
    assert_eq!(v.total_shares, 50);
}

/// The pool starts empty, at epoch zero, with the configured cap.
#[test]
fn initialize_starts_empty_at_epoch_zero() {
    let v = Vault::initialize_vault(2_500);
    assert_eq!(v.total_assets, 0);
    assert_eq!(v.total_shares, 0);
    assert_eq!(v.epoch, 0);
    assert_eq!(v.utilization_cap_bps, 2_500);
    assert_eq!(v.pending_withdrawal_shares, 0);
    assert_eq!(v.epoch_notional_exposed, 0);
    assert_eq!(v.epoch_premium_earned, 0);
    assert_eq!(v.epoch_avg_premium_bps, 0);
    assert_eq!(v.last_epoch_advance_time, 0);
}
