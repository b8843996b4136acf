use epoch_vault::errors::VaultError;
use epoch_vault::vault::Vault;

/// The first deposit of 1 unit into an empty pool mints exactly 1 share.
#[test]
fn bootstrap_deposit_mints_one_to_one() {
    let mut v = Vault::initialize_vault(5000);
    assert_eq!(v.deposit(1), Ok(1));
    assert_eq!(v.total_assets, 1);
    assert_eq!(v.total_shares, 1);
    assert_eq!(v.epoch, 0);
}

#[test]
fn bootstrap_deposit_is_one_to_one_for_any_amount() {
    let mut v = Vault::initialize_vault(10000);
    assert_eq!(v.deposit(123_456_789), Ok(123_456_789));
    assert_eq!(v.total_assets, 123_456_789);
    assert_eq!(v.total_shares, 123_456_789);
}

#[test]
fn zero_amount_deposit_is_rejected() {
    let mut v = Vault::initialize_vault(5000);
    assert_eq!(v.deposit(0), Err(VaultError::InvalidInput));
    assert_eq!(v.total_assets, 0);
    assert_eq!(v.total_shares, 0);
}

/// A deposit whose pro-rata floor would mint zero shares fails with
/// `ZeroShares` instead of succeeding with nothing.
#[test]
fn dust_deposit_fails_zero_shares() {
    let mut v = Vault::initialize_vault(10000);
    assert_eq!(v.deposit(1000), Ok(1000));
    // Premium doubles the share price: 2000 assets back 1000 shares.
    v.advance_epoch(1000, 7);
    assert_eq!(v.total_assets, 2000);
    assert_eq!(v.total_shares, 1000);
    // 1 * 1000 / 2000 floors to zero shares.
    assert_eq!(v.deposit(1), Err(VaultError::ZeroShares));
    assert_eq!(v.total_assets, 2000);
    assert_eq!(v.total_shares, 1000);
}

/// Pro-rata mint at a share price above one: floor(amount * shares / assets).
#[test]
fn pro_rata_mint_uses_current_price() {
    let mut v = Vault::initialize_vault(10000);
    assert_eq!(v.deposit(50), Ok(50));
    v.advance_epoch(50, 1);
    // Price is 2: 100 assets back 50 shares.
    assert_eq!(v.deposit(10), Ok(5));
    assert_eq!(v.total_assets, 110);
    assert_eq!(v.total_shares, 55);
}

#[test]
fn pro_rata_mint_floors_remainder() {
    let mut v = Vault::initialize_vault(10000);
    assert_eq!(v.deposit(2), Ok(2));
    v.advance_epoch(1, 1);
    // 3 assets back 2 shares; 2 * 2 / 3 floors to 1.
    assert_eq!(v.deposit(2), Ok(1));
    assert_eq!(v.total_assets, 5);
    assert_eq!(v.total_shares, 3);
}

/// Share price, compared cross-multiplied, never falls across deposits,
/// redemptions and an epoch advance.
#[test]
fn share_price_never_falls_across_an_epoch() {
    let mut v = Vault::initialize_vault(10000);
    assert_eq!(v.deposit(100), Ok(100));
    let mut prev = (v.total_assets, v.total_shares);

    let mut check = |v: &Vault, prev: &mut (u64, u64)| {
        let (pa, ps) = *prev;
        assert!(v.total_assets as u128 * ps as u128 >= pa as u128 * v.total_shares as u128);
        *prev = (v.total_assets, v.total_shares);
    };

    assert_eq!(v.deposit(33), Ok(33));
    check(&v, &mut prev);
    assert_eq!(v.deposit(7), Ok(7));
    check(&v, &mut prev);
    let req = v.request_withdrawal(1, 1, 40, 140).unwrap();
    v.advance_epoch(21, 5);
    check(&v, &mut prev);
    let mut req = req;
    let amount = v.process_withdrawal(&mut req).unwrap();
    // 40 * 161 / 140 floors to 46.
    assert_eq!(amount, 46);
    check(&v, &mut prev);
    v.advance_epoch(0, 6);
    check(&v, &mut prev);
}

/// `redeem_amount` is the pure pro-rata valuation of a share count.
#[test]
fn redeem_amount_is_floor_pro_rata() {
    let mut v = Vault::initialize_vault(10000);
    assert_eq!(v.deposit(2), Ok(2));
    v.advance_epoch(1, 1);
    // 3 assets back 2 shares.
    assert_eq!(v.redeem_amount(1), 1);
    assert_eq!(v.redeem_amount(2), 3);
}
