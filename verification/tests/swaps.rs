//! The six swap directions, their guards, and reserve accounting.

use stellar_dex::{DexError, StellarDex};

const ADMIN: u64 = 1;
const USER: u64 = 2;
const XLM_TOKEN: u64 = 10;
const USDC_TOKEN: u64 = 11;
const ETH_TOKEN: u64 = 12;
const USDC_RATE: i128 = 61_900_000;
const ETH_RATE: i128 = 121_200_000_000;

fn create_dex() -> StellarDex {
    let mut dex = StellarDex::new();
    dex.initialize(ADMIN, XLM_TOKEN, USDC_TOKEN, ETH_TOKEN, USDC_RATE, ETH_RATE)
        .unwrap();
    dex
}

/// Seeds the pool so swaps have reserves to draw from.
fn seed(dex: &mut StellarDex, xlm: i128, usdc: i128, eth: i128) {
    dex.add_liquidity(ADMIN, xlm, usdc, eth).unwrap();
}

#[test]
fn test_swap_xlm_for_usdc() {
    let mut dex = create_dex();
    seed(&mut dex, 10_000_000_000, 10_000, 0);

    let xlm_in: i128 = 619_000_000;
    let quote = dex.quote_xlm_to_usdc(xlm_in).unwrap();
    assert!(quote > 0);

    let out = dex.swap_xlm_for_usdc(USER, xlm_in, 0_i128).unwrap();
    assert_eq!(out, quote);
}

#[test]
fn test_swap_usdc_for_xlm() {
    let mut dex = create_dex();
    seed(&mut dex, 100_000_000_000, 1_000, 0);

    let out = dex.swap_usdc_for_xlm(USER, 10_i128, 0_i128).unwrap();

    // floor(10 * 997 / 1000) = 9 fee-reduced units, times the rate
    assert_eq!(out, 9 * USDC_RATE);
    let (_, ur, _) = dex.get_reserves();
    assert_eq!(ur, 1_010);
}

#[test]
fn test_swap_xlm_for_eth() {
    let mut dex = create_dex();
    seed(&mut dex, 1_000_000_000_000, 0, 100);

    let xlm_in: i128 = 121_200_000_000 * 10;
    let quote = dex.quote_xlm_to_eth(xlm_in).unwrap();
    assert!(quote >= 9);

    let out = dex.swap_xlm_for_eth(USER, xlm_in, 0_i128).unwrap();
    assert_eq!(out, quote);
}

#[test]
fn test_swap_eth_for_xlm() {
    let mut dex = create_dex();
    seed(&mut dex, 1_000_000_000_000, 0, 10);

    let out = dex.swap_eth_for_xlm(USER, 1_i128, 0_i128).unwrap();

    // the fee floors a single unit to nothing: floor(1 * 997 / 1000) = 0
    assert_eq!(out, 0);
    let (_, _, er) = dex.get_reserves();
    assert_eq!(er, 11);
}

#[test]
fn test_swap_usdc_for_eth_cross_pair() {
    let mut dex = create_dex();
    seed(&mut dex, 1_000_000_000_000, 10_000, 500);

    let out = dex.swap_usdc_for_eth(USER, 100_i128, 0_i128).unwrap();

    // fee(100) = 99; 99 * 61_900_000 = 6_128_100_000 base units;
    // fee again, then divided by the second rate, floors to nothing
    assert_eq!(out, 0);
    let (xr, ur, er) = dex.get_reserves();
    assert_eq!(ur, 10_100);
    assert_eq!(er, 500);
    // the base reserve never moves on a cross trade
    assert_eq!(xr, 1_000_000_000_000);
}

#[test]
fn test_swap_eth_for_usdc_cross_pair() {
    let mut dex = create_dex();
    seed(&mut dex, 1_000_000_000_000, 10_000, 100);

    let out = dex.swap_eth_for_usdc(USER, 1_i128, 0_i128).unwrap();

    // the fee floors a single unit to nothing before the bridge
    assert_eq!(out, 0);
    let (xr, ur, er) = dex.get_reserves();
    assert_eq!(ur, 10_000);
    assert_eq!(er, 101);
    assert_eq!(xr, 1_000_000_000_000);
}

#[test]
fn test_swap_eth_for_usdc_cross_pair_positive_output() {
    let mut dex = create_dex();
    seed(&mut dex, 1_000_000_000_000, 10_000, 100);

    // fee(2) = 1; 1 * 121_200_000_000 base units; fee again and divide:
    // floor(120_836_400_000 / 61_900_000) = 1952
    let out = dex.swap_eth_for_usdc(USER, 2_i128, 0_i128).unwrap();
    assert_eq!(out, 1_952);
    let (xr, ur, er) = dex.get_reserves();
    assert_eq!(ur, 10_000 - 1_952);
    assert_eq!(er, 102);
    assert_eq!(xr, 1_000_000_000_000);
}

#[test]
fn test_cross_pair_large_input_positive_output() {
    let mut dex = create_dex();
    seed(&mut dex, 0, 0, 500);

    // fee(10_000) = 9_970; 9_970 * 61_900_000 = 617_143_000_000;
    // fee again = 615_291_571_000; divided by 121_200_000_000 floors to 5
    let out = dex.swap_usdc_for_eth(USER, 10_000_i128, 0_i128).unwrap();
    assert_eq!(out, 5);
    assert_eq!(dex.get_reserves(), (0, 10_000, 495));
}

#[test]
fn test_slippage_xlm_for_usdc_panics() {
    let mut dex = create_dex();
    seed(&mut dex, 10_000_000_000, 1_000, 0);
    let before = dex.get_reserves();

    // one base unit's worth gives ~0 output; demanding 9_999 must fail
    let r = dex.swap_xlm_for_usdc(USER, 61_900_000_i128, 9_999_i128);
    assert_eq!(r, Err(DexError::SlippageExceeded));
    assert_eq!(dex.get_reserves(), before);
}

#[test]
fn test_slippage_usdc_for_xlm_panics() {
    let mut dex = create_dex();
    seed(&mut dex, 10_000_000_000, 1_000, 0);
    let before = dex.get_reserves();

    let r = dex.swap_usdc_for_xlm(USER, 10_i128, 999_999_999_999_i128);
    assert_eq!(r, Err(DexError::SlippageExceeded));
    assert_eq!(dex.get_reserves(), before);
}

#[test]
fn test_swap_fails_on_empty_usdc_reserve() {
    let mut dex = create_dex();
    // no liquidity added: any positive output exceeds the empty reserve
    let r = dex.swap_xlm_for_usdc(USER, 619_000_000_i128, 0_i128);
    assert_eq!(r, Err(DexError::InsufficientFunds));
    assert_eq!(dex.get_reserves(), (0, 0, 0));
}

#[test]
fn test_swap_fails_on_empty_eth_reserve() {
    let mut dex = create_dex();
    let r = dex.swap_xlm_for_eth(USER, 1_212_000_000_000_i128, 0_i128);
    assert_eq!(r, Err(DexError::InsufficientFunds));
    assert_eq!(dex.get_reserves(), (0, 0, 0));
}

#[test]
fn test_swap_blocked_when_paused() {
    let mut dex = create_dex();
    seed(&mut dex, 10_000_000_000, 1_000, 10);
    dex.set_paused(ADMIN, true).unwrap();

    let r = dex.swap_xlm_for_usdc(USER, 61_900_000_i128, 0_i128);
    assert_eq!(r, Err(DexError::ContractPaused));
}

#[test]
fn test_add_liquidity_blocked_when_paused() {
    let mut dex = create_dex();
    dex.set_paused(ADMIN, true).unwrap();

    let r = dex.add_liquidity(ADMIN, 0_i128, 100_i128, 0_i128);
    assert_eq!(r, Err(DexError::ContractPaused));
}

#[test]
fn test_all_mutating_operations_blocked_when_paused() {
    let mut dex = create_dex();
    seed(&mut dex, 10_000_000_000, 1_000, 10);
    dex.set_paused(ADMIN, true).unwrap();

    assert_eq!(
        dex.swap_usdc_for_xlm(USER, 10, 0),
        Err(DexError::ContractPaused)
    );
    assert_eq!(
        dex.swap_xlm_for_eth(USER, ETH_RATE, 0),
        Err(DexError::ContractPaused)
    );
    assert_eq!(
        dex.swap_eth_for_xlm(USER, 1, 0),
        Err(DexError::ContractPaused)
    );
    assert_eq!(
        dex.swap_usdc_for_eth(USER, 10, 0),
        Err(DexError::ContractPaused)
    );
    assert_eq!(
        dex.swap_eth_for_usdc(USER, 1, 0),
        Err(DexError::ContractPaused)
    );
    assert_eq!(
        dex.add_liquidity(ADMIN, 1, 0, 0),
        Err(DexError::ContractPaused)
    );
    assert_eq!(
        dex.remove_liquidity(ADMIN, 1),
        Err(DexError::ContractPaused)
    );
    assert_eq!(
        dex.mint_usdc(ADMIN, USER, 1),
        Err(DexError::ContractPaused)
    );
    assert_eq!(dex.mint_eth(ADMIN, USER, 1), Err(DexError::ContractPaused));

    // the one exception: the administrator can still unpause
    assert_eq!(dex.set_paused(ADMIN, false), Ok(()));
    assert!(dex.swap_xlm_for_usdc(USER, 619_000_000, 0).is_ok());
}

#[test]
fn test_swap_works_after_unpause() {
    let mut dex = create_dex();
    seed(&mut dex, 10_000_000_000, 1_000, 0);

    dex.set_paused(ADMIN, true).unwrap();
    dex.set_paused(ADMIN, false).unwrap();

    let out = dex.swap_xlm_for_usdc(USER, 619_000_000_i128, 0_i128).unwrap();
    assert!(out > 0);
}

#[test]
fn test_reserves_update_correctly_after_xlm_usdc_swap() {
    let mut dex = create_dex();
    seed(&mut dex, 10_000_000_000, 5_000, 0);

    let (xlm_before, usdc_before, _) = dex.get_reserves();
    let xlm_in: i128 = 619_000_000;
    let usdc_out = dex.swap_xlm_for_usdc(USER, xlm_in, 0_i128).unwrap();

    let (xlm_after, usdc_after, _) = dex.get_reserves();
    assert_eq!(xlm_after, xlm_before + xlm_in);
    assert_eq!(usdc_after, usdc_before - usdc_out);
}

#[test]
fn test_reserves_update_correctly_after_eth_swap() {
    let mut dex = create_dex();
    seed(&mut dex, 1_000_000_000_000, 0, 100);

    let (xlm_before, _, eth_before) = dex.get_reserves();
    let xlm_in: i128 = ETH_RATE * 10;
    let eth_out = dex.swap_xlm_for_eth(USER, xlm_in, 0_i128).unwrap();

    let (xlm_after, _, eth_after) = dex.get_reserves();
    assert_eq!(xlm_after, xlm_before + xlm_in);
    assert_eq!(eth_after, eth_before - eth_out);
}

#[test]
fn test_swap_of_nothing_rejected() {
    let mut dex = create_dex();
    seed(&mut dex, 10_000_000_000, 1_000, 10);
    let before = dex.get_reserves();

    assert_eq!(dex.swap_xlm_for_usdc(USER, 0, 0), Err(DexError::ZeroAmount));
    assert_eq!(
        dex.swap_usdc_for_xlm(USER, -3, 0),
        Err(DexError::ZeroAmount)
    );
    assert_eq!(dex.get_reserves(), before);
}
