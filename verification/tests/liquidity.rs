//! Share issuance and proportional redemption.

use stellar_dex::{DexError, StellarDex};

const ADMIN: u64 = 1;
const USER2: u64 = 3;
const XLM_TOKEN: u64 = 10;
const USDC_TOKEN: u64 = 11;
const ETH_TOKEN: u64 = 12;
const USDC_RATE: i128 = 61_900_000;
const ETH_RATE: i128 = 121_200_000_000;

fn create_dex() -> StellarDex {
    let mut dex = StellarDex::new();
    dex.initialize(ADMIN, XLM_TOKEN, USDC_TOKEN, ETH_TOKEN, USDC_RATE, ETH_RATE)
        .unwrap();
    dex
}

#[test]
fn test_add_liquidity_updates_reserves_and_lp() {
    let mut dex = create_dex();

    let lp = dex
        .add_liquidity(ADMIN, 1_000_000_000_i128, 500_i128, 2_i128)
        .unwrap();

    assert!(lp > 0);
    assert_eq!(dex.lp_balance(ADMIN), lp);
    assert_eq!(dex.total_lp(), lp);

    let (xr, ur, er) = dex.get_reserves();
    assert_eq!(xr, 1_000_000_000);
    assert_eq!(ur, 500);
    assert_eq!(er, 2);
}

#[test]
fn test_remove_liquidity_proportional_share() {
    let mut dex = create_dex();

    let lp = dex
        .add_liquidity(ADMIN, 6_190_000_000_i128, 1_000_i128, 10_i128)
        .unwrap();

    let half = lp / 2;
    let (xlm_out, usdc_out, eth_out) = dex.remove_liquidity(ADMIN, half).unwrap();

    assert!(xlm_out > 0);
    assert!(usdc_out > 0);
    assert!(eth_out > 0);
    assert_eq!(dex.lp_balance(ADMIN), lp - half);
    assert_eq!(dex.total_lp(), lp - half);
}

#[test]
fn test_two_providers_lp_balances() {
    let mut dex = create_dex();

    let lp1 = dex
        .add_liquidity(ADMIN, 1_000_000_000_i128, 1_000_i128, 0_i128)
        .unwrap();
    let lp2 = dex
        .add_liquidity(USER2, 500_000_000_i128, 500_i128, 0_i128)
        .unwrap();

    assert_eq!(dex.total_lp(), lp1 + lp2);
    assert_eq!(dex.lp_balance(ADMIN), lp1);
    assert_eq!(dex.lp_balance(USER2), lp2);
}

#[test]
fn test_two_providers_share_values() {
    let mut dex = create_dex();

    // shares = deposit value in base units at the rate snapshot
    let lp1 = dex
        .add_liquidity(ADMIN, 1_000_000_000_i128, 1_000_i128, 0_i128)
        .unwrap();
    let lp2 = dex
        .add_liquidity(USER2, 500_000_000_i128, 500_i128, 0_i128)
        .unwrap();

    assert_eq!(lp1, 62_900_000_000);
    assert_eq!(lp2, 31_450_000_000);
    assert_eq!(lp2 * 2, lp1);
    assert_eq!(dex.total_lp(), 94_350_000_000);
}

#[test]
fn test_remove_more_lp_than_owned_panics() {
    let mut dex = create_dex();

    let lp = dex.add_liquidity(ADMIN, 0_i128, 100_i128, 0_i128).unwrap();
    let r = dex.remove_liquidity(ADMIN, lp + 1);
    assert_eq!(r, Err(DexError::InsufficientLp));

    // the failed redemption changed nothing
    assert_eq!(dex.lp_balance(ADMIN), lp);
    assert_eq!(dex.total_lp(), lp);
    assert_eq!(dex.get_reserves(), (0, 100, 0));
}

#[test]
fn test_remove_liquidity_exact_floor_outputs() {
    let mut dex = create_dex();

    let lp = dex
        .add_liquidity(ADMIN, 1_000_000_000_i128, 1_000_i128, 0_i128)
        .unwrap();
    assert_eq!(lp, 62_900_000_000);

    let out = dex.remove_liquidity(ADMIN, 31_450_000_000_i128).unwrap();
    assert_eq!(out, (500_000_000, 500, 0));
    assert_eq!(dex.total_lp(), 31_450_000_000);
    assert_eq!(dex.get_reserves(), (500_000_000, 500, 0));
}

#[test]
fn test_remove_all_liquidity_empties_pool() {
    let mut dex = create_dex();

    let lp = dex
        .add_liquidity(ADMIN, 1_000_000_000_i128, 1_000_i128, 2_i128)
        .unwrap();
    let (xlm_out, usdc_out, eth_out) = dex.remove_liquidity(ADMIN, lp).unwrap();

    assert_eq!((xlm_out, usdc_out, eth_out), (1_000_000_000, 1_000, 2));
    assert_eq!(dex.total_lp(), 0);
    assert_eq!(dex.lp_balance(ADMIN), 0);
    assert_eq!(dex.get_reserves(), (0, 0, 0));
}

#[test]
fn test_add_liquidity_of_nothing_rejected() {
    let mut dex = create_dex();
    assert_eq!(
        dex.add_liquidity(ADMIN, 0_i128, 0_i128, 0_i128),
        Err(DexError::ZeroAmount)
    );
    assert_eq!(dex.total_lp(), 0);
}

#[test]
fn test_remove_liquidity_of_nothing_rejected() {
    let mut dex = create_dex();
    dex.add_liquidity(ADMIN, 100_i128, 0_i128, 0_i128).unwrap();
    assert_eq!(dex.remove_liquidity(ADMIN, 0), Err(DexError::ZeroAmount));
    assert_eq!(dex.remove_liquidity(ADMIN, -5), Err(DexError::ZeroAmount));
}
