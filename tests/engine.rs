use lending::error::LendingError;
use lending::flash::{
    flash_borrow_reserve_liquidity, flash_repay_reserve_liquidity, read_u64_le, FlashDiscriminators,
    Instruction,
};
use lending::fx::{bps_to_i80f48, checked_pow10, i80f48_pow, price_to_fx, Fx, Price};
use lending::last_update::{LastUpdate, NewLastUpdateArgs};
use lending::market::Market;
use lending::obligation::{NewObligationArgs, Obligation, ObligationLiquidity};
use lending::operations::{
    borrow_obligation_liquidity, deposit_reserve_liquidity_and_obligation_collateral,
    initialize_reserve, liquidate_obligation, redeem_fees, repay_obligation_liquidity,
    update_reserve, withdraw_obligation_collateral, InitializeReserveArgs, UpdateReserveArgs,
};
use lending::pubkey::Pubkey;
use lending::refresh::{refresh_obligation, CollateralReserveInput, ReserveInput};
use lending::reserve::{
    NewReserveFeesArgs, NewReserveLiquidityArgs, Reserve, ReserveFees, ReserveLiquidity,
    SLOTS_PER_YEAR,
};
use lending::validate::{validate_bps, validate_obligation_refreshed, validate_reserve_refreshed};

const ONE: i128 = 1 << 48;

fn fx(n: i128) -> Fx {
    Fx::from_bits(n * ONE)
}

fn key(n: u128) -> Pubkey {
    Pubkey::new(0, n)
}

fn args(ltv: u16, threshold: u16) -> InitializeReserveArgs {
    InitializeReserveArgs {
        optimal_utilization_rate_bps: 8000,
        loan_to_value_bps: ltv,
        liquidation_bonus_bps: 1000,
        liquidation_threshold_bps: threshold,
        liquidation_close_factor_bps: 5000,
        min_borrow_rate_bps: 0,
        optimal_borrow_rate_bps: 1000,
        max_borrow_rate_bps: 10000,
        flash_loan_fee_bps: 30,
        platform_fee_bps: 20,
    }
}

fn reserve(ltv: u16, threshold: u16, decimals: u8, slot: u64) -> Reserve {
    initialize_reserve(args(ltv, threshold), key(100), key(101), key(102), decimals, 1, 2, slot).unwrap()
}

fn whole(price: i64) -> Price {
    Price { price, conf: 0, exponent: 0, publish_time: 0 }
}

fn obligation(slot: u64) -> Obligation {
    Obligation::new(NewObligationArgs {
        last_update: LastUpdate::new(NewLastUpdateArgs { slot }),
        market: key(100),
        authority: key(7),
        bump: 0,
    })
}

/// Market with reserve A (price 100, 6 decimals, LTV 75%) holding a deposit of 10 A,
/// and reserve B (price 1, 6 decimals, LTV 80%) with liquidity to lend; both refreshed at slot 5.
fn healthy_market() -> (Reserve, Reserve, Obligation) {
    let slot = 5;
    let mut a = reserve(7500, 8000, 6, slot);
    let mut b = reserve(8000, 8500, 6, slot);
    a.refresh(whole(100), slot).unwrap();
    b.refresh(whole(1), slot).unwrap();
    b.liquidity.available_amount = 1_000_000_000_000;
    let mut o = obligation(slot);
    let minted =
        deposit_reserve_liquidity_and_obligation_collateral(&mut a, key(1), &mut o, 10_000_000, 0, slot).unwrap();
    assert_eq!(minted, 10_000_000);
    a.refresh(whole(100), slot).unwrap();
    let deposits = vec![CollateralReserveInput { key: key(1), reserve: a, receipt_mint_supply: 10_000_000 }];
    refresh_obligation(&mut o, &deposits, &vec![], slot).unwrap();
    (a, b, o)
}

#[test]
fn healthy_deposit_borrow() {
    let (a, mut b, mut o) = healthy_market();
    assert_eq!(o.deposited_value, fx(1000));
    assert_eq!(o.weighted_allowed_borrow_value, fx(750));
    // 500 B at 6 decimals
    let n = borrow_obligation_liquidity(&mut b, key(2), &mut o, 500_000_000, 5).unwrap();
    assert_eq!(n, 500_000_000);
    assert_eq!(b.liquidity.available_amount, 1_000_000_000_000 - 500_000_000);
    assert_eq!(b.liquidity.borrowed_amount, 500_000_000);
    b.refresh(whole(1), 5).unwrap();
    let deposits = vec![CollateralReserveInput { key: key(1), reserve: a, receipt_mint_supply: 10_000_000 }];
    let borrows = vec![ReserveInput { key: key(2), reserve: b }];
    refresh_obligation(&mut o, &deposits, &borrows, 5).unwrap();
    assert_eq!(o.borrowed_value, fx(500));
    assert_eq!(o.remaining_borrow_value().unwrap(), fx(250));
    assert!(o.is_healthy());
}

#[test]
fn over_borrow_rejected() {
    let (_a, mut b, mut o) = healthy_market();
    let r = borrow_obligation_liquidity(&mut b, key(2), &mut o, 800_000_000, 5);
    assert_eq!(r, Err(LendingError::BorrowTooLarge));
    assert_eq!(b.liquidity.available_amount, 1_000_000_000_000);
    assert_eq!(o.borrows.len(), 0);
}

#[test]
fn borrow_max_sentinel_takes_remaining_value() {
    let (_a, mut b, mut o) = healthy_market();
    let n = borrow_obligation_liquidity(&mut b, key(2), &mut o, u64::MAX, 5).unwrap();
    assert_eq!(n, 750_000_000);
}

#[test]
fn borrow_requires_fresh_records() {
    let (_a, mut b, mut o) = healthy_market();
    assert_eq!(borrow_obligation_liquidity(&mut b, key(2), &mut o, 100, 6), Err(LendingError::ReserveStale));
    assert_eq!(borrow_obligation_liquidity(&mut b, key(2), &mut o, 0, 5), Err(LendingError::InvalidBorrowAmount));
}

#[test]
fn compounding_over_one_year() {
    let mut r = reserve(7500, 8000, 6, 0);
    r.config.fees = ReserveFees::new(NewReserveFeesArgs { flash_loan_fee_bps: 0, platform_fee_bps: 1000 });
    r.liquidity.available_amount = 2000;
    r.liquidity.borrowed_amount = 1000;
    let rate = r.current_borrow_rate().unwrap();
    assert!((rate.bits - ONE / 16).abs() < 1000);
    r.accrue_interest_and_fees(SLOTS_PER_YEAR).unwrap();
    assert_eq!(r.liquidity.borrowed_amount, 1065);
    assert!(r.liquidity.cumulative_borrow_index.bits > ONE);
    assert!((r.liquidity.cumulative_borrow_index.bits - ONE * 10645 / 10000).abs() < ONE / 1000);
    assert_eq!(r.liquidity.accumulated_platform_fees, 7);
    assert_eq!(r.last_update.slot, SLOTS_PER_YEAR);
    assert!(!r.last_update.is_stale);
}

#[test]
fn partial_liquidation_sizing() {
    let r = reserve(7500, 8000, 0, 0);
    let mut o = obligation(0);
    o.borrowed_value = fx(120);
    let liability = ObligationLiquidity {
        reserve: key(2),
        borrowed_amount: 120,
        cumulative_borrow_index: fx(1),
        market_value: fx(120),
    };
    let collateral = lending::obligation::ObligationCollateral {
        reserve: key(1),
        deposited_amount: 1001,
        market_value: fx(100),
    };
    let (repay, withdraw) = r.calculate_liquidation(&o, &liability, &collateral).unwrap();
    assert_eq!(repay, 60);
    assert_eq!(withdraw, 660);
}

#[test]
fn liquidation_refused_while_healthy() {
    let (a, mut b, mut o) = healthy_market();
    borrow_obligation_liquidity(&mut b, key(2), &mut o, 500_000_000, 5).unwrap();
    b.refresh(whole(1), 5).unwrap();
    let mut a2 = a;
    a2.refresh(whole(100), 5).unwrap();
    let deposits = vec![CollateralReserveInput { key: key(1), reserve: a2, receipt_mint_supply: 10_000_000 }];
    let borrows = vec![ReserveInput { key: key(2), reserve: b }];
    refresh_obligation(&mut o, &deposits, &borrows, 5).unwrap();
    let r = liquidate_obligation(&mut b, key(2), &a2, key(1), &mut o, 5);
    assert_eq!(r, Err(LendingError::ObligationHealthy));
}

#[test]
fn liquidation_of_unhealthy_obligation() {
    let (a, mut b, mut o) = healthy_market();
    borrow_obligation_liquidity(&mut b, key(2), &mut o, 700_000_000, 5).unwrap();
    // the collateral price falls from 100 to 50
    let mut a2 = a;
    a2.refresh(whole(50), 5).unwrap();
    b.refresh(whole(1), 5).unwrap();
    let deposits = vec![CollateralReserveInput { key: key(1), reserve: a2, receipt_mint_supply: 10_000_000 }];
    let borrows = vec![ReserveInput { key: key(2), reserve: b }];
    refresh_obligation(&mut o, &deposits, &borrows, 5).unwrap();
    assert_eq!(o.deposited_value, fx(500));
    assert!(!o.is_healthy());
    let (repay, withdraw) = liquidate_obligation(&mut b, key(2), &a2, key(1), &mut o, 5).unwrap();
    assert_eq!(repay, 350_000_000);
    assert!(withdraw > 0);
    assert_eq!(o.borrows[0].borrowed_amount, 350_000_000);
    assert_eq!(b.liquidity.borrowed_amount, 350_000_000);
    assert!(o.last_update.is_stale);
}

fn discs() -> FlashDiscriminators {
    FlashDiscriminators { borrow: [1, 2, 3, 4, 5, 6, 7, 8], repay: [9, 9, 9, 9, 9, 9, 9, 9] }
}

fn ix(program: Pubkey, accounts: Vec<Pubkey>, head: [u8; 8], amount: u64, tail: Vec<u8>) -> Instruction {
    let mut data = head.to_vec();
    data.extend_from_slice(&amount.to_le_bytes());
    data.extend_from_slice(&tail);
    Instruction { program_id: program, accounts, data }
}

#[test]
fn flash_loan_success() {
    let program = key(50);
    let mut r = reserve(7500, 8000, 0, 0);
    r.liquidity.available_amount = 1000;
    let ixs = vec![
        ix(program, vec![key(3), key(9)], discs().borrow, 100, vec![]),
        ix(key(60), vec![], [0; 8], 5, vec![]),
        ix(program, vec![key(3), key(9)], discs().repay, 100, vec![0]),
    ];
    flash_borrow_reserve_liquidity(&mut r, &ixs, 0, program, 100, discs()).unwrap();
    assert_eq!(r.liquidity.available_amount, 900);
    assert_eq!(r.liquidity.borrowed_amount, 100);
    let fee = flash_repay_reserve_liquidity(&mut r, key(9), &ixs, 2, program, 100, 0, discs()).unwrap();
    // ceil(100 * (30 + 20) / 10 000)
    assert_eq!(fee, 1);
    assert_eq!(r.liquidity.available_amount, 1000);
    assert_eq!(r.liquidity.borrowed_amount, 0);
}

#[test]
fn flash_loan_missing_repay() {
    let program = key(50);
    let mut r = reserve(7500, 8000, 0, 0);
    r.liquidity.available_amount = 1000;
    let ixs = vec![ix(program, vec![key(3), key(9)], discs().borrow, 100, vec![])];
    let res = flash_borrow_reserve_liquidity(&mut r, &ixs, 0, program, 100, discs());
    assert_eq!(res, Err(LendingError::NoFlashRepayInstruction));
    assert_eq!(r.liquidity.available_amount, 1000);
}

#[test]
fn flash_loan_wrong_amount_and_second_borrow() {
    let program = key(50);
    let mut r = reserve(7500, 8000, 0, 0);
    r.liquidity.available_amount = 1000;
    let ixs = vec![
        ix(program, vec![key(3), key(9)], discs().borrow, 100, vec![]),
        ix(program, vec![key(3), key(9)], discs().repay, 99, vec![0]),
    ];
    assert_eq!(
        flash_borrow_reserve_liquidity(&mut r, &ixs, 0, program, 100, discs()),
        Err(LendingError::InvalidFlashRepayAmount)
    );
    let ixs = vec![
        ix(program, vec![key(3), key(9)], discs().borrow, 100, vec![]),
        ix(program, vec![key(3), key(9)], discs().borrow, 100, vec![]),
    ];
    assert_eq!(
        flash_borrow_reserve_liquidity(&mut r, &ixs, 0, program, 100, discs()),
        Err(LendingError::MultipleFlashBorrowsNotAllowed)
    );
}

#[test]
fn reads_little_endian_u64() {
    let data = vec![0xff, 0x01, 0x02, 0x03, 0x04, 0x05, 0x06, 0x07, 0x08, 0x09];
    assert_eq!(read_u64_le(&data, 1), 0x0807060504030201);
}

#[test]
fn full_basis_points_is_one() {
    assert_eq!(bps_to_i80f48(10_000).unwrap(), fx(1));
    assert_eq!(bps_to_i80f48(5_000).unwrap().bits, ONE / 2);
}

#[test]
fn fixed_point_arithmetic() {
    let three_halves = Fx::from_bits(3 * ONE / 2);
    assert_eq!(fx(2).safe_mul(three_halves).unwrap(), fx(3));
    assert_eq!(fx(3).safe_div(fx(2)).unwrap(), three_halves);
    assert_eq!(fx(1).safe_div(fx(0)), Err(LendingError::MathOverflow));
    assert_eq!(three_halves.safe_ceil().unwrap(), fx(2));
    assert_eq!(three_halves.floor(), fx(1));
    assert_eq!(three_halves.safe_to_u64().unwrap(), 1);
    assert_eq!(fx(-1).safe_to_u64(), Err(LendingError::ConversionFailed));
    assert_eq!(Fx::from_u64(7), fx(7));
    assert_eq!(fx(2).safe_add(fx(5)).unwrap(), fx(7));
    assert_eq!(fx(2).safe_sub(fx(5)).unwrap(), fx(-3));
    assert_eq!(Fx::from_bits(i128::MAX).safe_add(fx(1)), Err(LendingError::MathOverflow));
    assert_eq!(i80f48_pow(fx(3), 4).unwrap(), fx(81));
    assert_eq!(i80f48_pow(fx(3), 0).unwrap(), fx(1));
}

#[test]
fn oracle_price_conversion() {
    assert_eq!(price_to_fx(Price { price: 12345, conf: 0, exponent: -2, publish_time: 0 }).unwrap().bits, 12345 * ONE / 100);
    assert_eq!(price_to_fx(Price { price: 7, conf: 0, exponent: 2, publish_time: 0 }).unwrap(), fx(700));
    assert_eq!(price_to_fx(Price { price: 0, conf: 0, exponent: 0, publish_time: 0 }), Err(LendingError::InvalidPrice));
    assert_eq!(price_to_fx(Price { price: 1, conf: 0, exponent: -39, publish_time: 0 }), Err(LendingError::MathOverflow));
    assert_eq!(price_to_fx(Price { price: 1, conf: 0, exponent: -20, publish_time: 0 }), Err(LendingError::ConversionFailed));
    assert_eq!(checked_pow10(3), Some(1000));
}

#[test]
fn utilization_zero_without_available_liquidity() {
    let mut r = reserve(7500, 8000, 0, 0);
    r.liquidity.available_amount = 0;
    r.liquidity.borrowed_amount = 500;
    assert_eq!(r.liquidity.utilization_rate().unwrap(), fx(0));
    r.liquidity.available_amount = 1000;
    assert_eq!(r.liquidity.utilization_rate().unwrap().bits, ONE / 2);
}

#[test]
fn deposit_then_redeem_round_trip() {
    let mut l = ReserveLiquidity::new(NewReserveLiquidityArgs { mint: key(1), price_update_v2: key(2) });
    let minted = l.deposit_liquidity(12_345, 0).unwrap();
    assert_eq!(minted, 12_345);
    assert_eq!(l.available_amount, 12_345);
    assert_eq!(l.redeem_receipt(minted, minted).unwrap(), 12_345);
    assert_eq!(l.available_amount, 0);
}

#[test]
fn borrow_then_repay_round_trip() {
    let mut l = ReserveLiquidity::new(NewReserveLiquidityArgs { mint: key(1), price_update_v2: key(2) });
    l.available_amount = 1000;
    l.borrowed_amount = 40;
    l.borrow_liquidity(300).unwrap();
    assert_eq!((l.available_amount, l.borrowed_amount), (700, 340));
    l.repay_liquidity(300).unwrap();
    assert_eq!((l.available_amount, l.borrowed_amount), (1000, 40));
    assert_eq!(l.borrow_liquidity(5000), Err(LendingError::InsufficientLiquidity));
}

#[test]
fn redeem_clamps_fees_to_available() {
    let mut r = reserve(7500, 8000, 0, 3);
    r.refresh(whole(1), 3).unwrap();
    r.liquidity.accumulated_platform_fees = 50;
    r.liquidity.available_amount = 20;
    assert_eq!(redeem_fees(&mut r, 3).unwrap(), 20);
    assert_eq!(r.liquidity.accumulated_platform_fees, 30);
    assert_eq!(r.liquidity.available_amount, 0);
}

#[test]
fn refresh_twice_in_one_slot_is_idempotent() {
    let mut r = reserve(7500, 8000, 0, 0);
    r.liquidity.available_amount = 2000;
    r.liquidity.borrowed_amount = 1000;
    r.refresh(whole(3), 1000).unwrap();
    let first = r;
    r.refresh(whole(3), 1000).unwrap();
    assert_eq!(r, first);
    assert!(first.liquidity.cumulative_borrow_index.bits > ONE);
    r.refresh(whole(3), 2000).unwrap();
    assert!(r.liquidity.cumulative_borrow_index.bits >= first.liquidity.cumulative_borrow_index.bits);
}

#[test]
fn repay_all_removes_position() {
    let (_a, mut b, mut o) = healthy_market();
    borrow_obligation_liquidity(&mut b, key(2), &mut o, 300, 5).unwrap();
    b.refresh(whole(1), 5).unwrap();
    o.last_update.update_slot(5);
    let n = repay_obligation_liquidity(&mut b, key(2), &mut o, 100, 5).unwrap();
    assert_eq!(n, 100);
    assert_eq!(o.borrows[0].borrowed_amount, 200);
    b.refresh(whole(1), 5).unwrap();
    o.last_update.update_slot(5);
    let n = repay_obligation_liquidity(&mut b, key(2), &mut o, u64::MAX, 5).unwrap();
    assert_eq!(n, 200);
    assert_eq!(o.borrows.len(), 0);
    assert_eq!(b.liquidity.borrowed_amount, 0);
    assert_eq!(b.liquidity.available_amount, 1_000_000_000_000);
}

#[test]
fn withdraw_without_debt() {
    let (mut a, _b, mut o) = healthy_market();
    o.last_update.update_slot(5);
    let n = withdraw_obligation_collateral(&mut a, key(1), &mut o, 4_000_000, 10_000_000, 5).unwrap();
    assert_eq!(n, (4_000_000, 4_000_000));
    assert_eq!(o.deposits[0].deposited_amount, 6_000_000);
    assert_eq!(a.liquidity.available_amount, 6_000_000);
}

#[test]
fn withdraw_everything_removes_position() {
    let (mut a, _b, mut o) = healthy_market();
    o.last_update.update_slot(5);
    let n = withdraw_obligation_collateral(&mut a, key(1), &mut o, 10_000_000, 10_000_000, 5).unwrap();
    assert_eq!(n, (10_000_000, 10_000_000));
    assert_eq!(o.deposits.len(), 0);
    assert_eq!(a.liquidity.available_amount, 0);
}

#[test]
fn reserve_configuration_checks() {
    assert!(initialize_reserve(args(7500, 8000), key(1), key(2), key(3), 6, 0, 0, 0).is_ok());
    let mut bad = args(7500, 8000);
    bad.liquidation_threshold_bps = 7000;
    assert_eq!(initialize_reserve(bad, key(1), key(2), key(3), 6, 0, 0, 0).err(), Some(LendingError::InvalidLiquidationThreshold));
    let mut bad = args(7500, 8000);
    bad.max_borrow_rate_bps = 1000;
    assert_eq!(initialize_reserve(bad, key(1), key(2), key(3), 6, 0, 0, 0).err(), Some(LendingError::InvalidMaxBorrowRate));
    let mut bad = args(7500, 8000);
    bad.min_borrow_rate_bps = 1000;
    assert_eq!(initialize_reserve(bad, key(1), key(2), key(3), 6, 0, 0, 0).err(), Some(LendingError::InvalidOptimalBorrowRate));
    let mut bad = args(7500, 8000);
    bad.platform_fee_bps = 10_001;
    assert_eq!(initialize_reserve(bad, key(1), key(2), key(3), 6, 0, 0, 0).err(), Some(LendingError::InvalidBasisPoints));
}

#[test]
fn reserve_update_overrides() {
    let mut r = reserve(7500, 8000, 0, 0);
    let none = UpdateReserveArgs {
        optimal_utilization_rate_bps: None,
        loan_to_value_bps: Some(6000),
        liquidation_bonus_bps: None,
        liquidation_threshold_bps: None,
        liquidation_close_factor_bps: None,
        min_borrow_rate_bps: None,
        optimal_borrow_rate_bps: None,
        max_borrow_rate_bps: None,
        flash_loan_fee_bps: None,
        platform_fee_bps: Some(20_000),
    };
    assert_eq!(update_reserve(&mut r, none), Err(LendingError::InvalidBasisPoints));
    assert_eq!(r.config.loan_to_value_bps, 7500);
    let ok = UpdateReserveArgs { platform_fee_bps: Some(300), ..none };
    update_reserve(&mut r, ok).unwrap();
    assert_eq!(r.config.loan_to_value_bps, 6000);
    assert_eq!(r.config.fees.platform_fee_bps, 300);
}

#[test]
fn staleness_clock() {
    let mut u = LastUpdate::new(NewLastUpdateArgs { slot: 10 });
    assert_eq!(u.is_stale(10), Ok(true));
    u.update_slot(10);
    assert_eq!(u.is_stale(10), Ok(false));
    assert_eq!(u.is_stale(11), Ok(true));
    assert_eq!(u.is_stale(9), Err(LendingError::MathOverflow));
    assert_eq!(u.slots_elapsed(15), Ok(5));
    u.mark_stale();
    assert_eq!(u.is_stale(10), Ok(true));
    assert_eq!(validate_bps(10_001), Err(LendingError::InvalidBasisPoints));
    assert_eq!(validate_reserve_refreshed(true), Err(LendingError::ReserveStale));
    assert_eq!(validate_obligation_refreshed(false), Ok(()));
}

#[test]
fn flash_loan_fee_rounds_up() {
    let fees = ReserveFees::new(NewReserveFeesArgs { flash_loan_fee_bps: 30, platform_fee_bps: 20 });
    assert_eq!(fees.calculate_flash_loan_fee(1_000_000).unwrap(), 5_000);
    assert_eq!(fees.calculate_flash_loan_fee(1).unwrap(), 1);
    assert_eq!(fees.calculate_flash_loan_fee(0).unwrap(), 0);
}

#[test]
fn market_space_counts_name() {
    assert_eq!(Market::space("main"), 49);
    let m = Market::new(key(1), 3, String::from("main"));
    assert_eq!(m.bump, 3);
}

#[test]
fn negative_index_movement_refused() {
    let mut l = ObligationLiquidity {
        reserve: key(2),
        borrowed_amount: 100,
        cumulative_borrow_index: fx(2),
        market_value: fx(0),
    };
    assert_eq!(l.accrue_interest(fx(1)), Err(LendingError::NegativeInterestRate));
    l.accrue_interest(Fx::from_bits(3 * ONE)).unwrap();
    assert_eq!(l.borrowed_amount, 150);
    assert_eq!(l.cumulative_borrow_index, fx(3));
}

#[test]
fn fixed_point_wire_form() {
    let x = Fx::from_bits(-3 * ONE / 2);
    let bytes = x.to_le_bytes();
    assert_eq!(bytes, (-3 * ONE / 2).to_le_bytes());
    assert_eq!(Fx::from_le_bytes(bytes), x);
    assert_eq!(fx(1).to_le_bytes()[6], 1);
}

#[test]
fn refresh_obligation_checks_its_inputs() {
    let (a, _b, mut o) = healthy_market();
    let wrong_key = vec![CollateralReserveInput { key: key(9), reserve: a, receipt_mint_supply: 10_000_000 }];
    assert_eq!(refresh_obligation(&mut o, &wrong_key, &vec![], 5), Err(LendingError::TooManyAccounts));
    assert_eq!(refresh_obligation(&mut o, &vec![], &vec![], 5), Err(LendingError::TooManyAccounts));
    let mut stale = a;
    stale.last_update.mark_stale();
    let stale_input = vec![CollateralReserveInput { key: key(1), reserve: stale, receipt_mint_supply: 10_000_000 }];
    assert_eq!(refresh_obligation(&mut o, &stale_input, &vec![], 5), Err(LendingError::ReserveStale));
    assert_eq!(o.deposits.len(), 1);
}

#[test]
fn obligation_lookups_report_missing_positions() {
    let (_a, _b, o) = healthy_market();
    assert_eq!(o.find_liquidity_in_borrows(key(2)).err(), Some(LendingError::ObligationBorrowsEmpty));
    assert_eq!(o.find_collateral_in_deposits(key(2)).err(), Some(LendingError::InvalidObligationCollateral));
    let empty = obligation(0);
    assert_eq!(empty.find_collateral_in_deposits(key(1)).err(), Some(LendingError::ObligationDepositsEmpty));
    let (c, i) = o.find_collateral_in_deposits(key(1)).unwrap();
    assert_eq!((c.deposited_amount, i), (10_000_000, 0));
}

#[test]
fn deposit_needs_collateral_enabled_reserve() {
    let mut r = reserve(0, 8000, 6, 5);
    r.refresh(whole(1), 5).unwrap();
    let mut o = obligation(5);
    assert_eq!(
        deposit_reserve_liquidity_and_obligation_collateral(&mut r, key(1), &mut o, 10, 0, 5),
        Err(LendingError::ReserveCollateralDisabled)
    );
    assert_eq!(
        deposit_reserve_liquidity_and_obligation_collateral(&mut r, key(1), &mut o, 0, 0, 5),
        Err(LendingError::InvalidDepositAmount)
    );
}

#[test]
fn flash_repay_checks_the_borrow_instruction() {
    let program = key(50);
    let mut r = reserve(7500, 8000, 0, 0);
    r.liquidity.borrowed_amount = 100;
    let ixs = vec![
        ix(program, vec![key(3), key(9)], discs().borrow, 100, vec![]),
        ix(program, vec![key(3), key(9)], discs().repay, 100, vec![0]),
    ];
    assert_eq!(
        flash_repay_reserve_liquidity(&mut r, key(9), &ixs, 1, key(51), 100, 0, discs()),
        Err(LendingError::InvalidFlashRepayProgramId)
    );
    assert_eq!(
        flash_repay_reserve_liquidity(&mut r, key(8), &ixs, 1, program, 100, 0, discs()),
        Err(LendingError::InvalidFlashRepayReserve)
    );
    assert_eq!(
        flash_repay_reserve_liquidity(&mut r, key(9), &ixs, 1, program, 90, 0, discs()),
        Err(LendingError::InvalidFlashRepayAmount)
    );
    assert_eq!(
        flash_repay_reserve_liquidity(&mut r, key(9), &ixs, 1, program, 100, 1, discs()),
        Err(LendingError::InvalidBorrowInstructionIndex)
    );
    assert_eq!(
        flash_repay_reserve_liquidity(&mut r, key(9), &ixs, 0, program, 100, 1, discs()),
        Err(LendingError::InvalidFlashRepayInstructionData)
    );
    assert_eq!(r.liquidity.borrowed_amount, 100);
}

#[test]
fn withdraw_and_repay_refuse_empty_requests() {
    let (mut a, mut b, mut o) = healthy_market();
    o.last_update.update_slot(5);
    assert_eq!(
        withdraw_obligation_collateral(&mut a, key(1), &mut o, 0, 10_000_000, 5),
        Err(LendingError::InvalidWithdrawAmount)
    );
    assert_eq!(repay_obligation_liquidity(&mut b, key(2), &mut o, 0, 5), Err(LendingError::InvalidRepayAmount));
    assert_eq!(repay_obligation_liquidity(&mut b, key(2), &mut o, 10, 5), Err(LendingError::ObligationBorrowsEmpty));
}

#[test]
fn withdraw_max_without_debt_takes_whole_position() {
    let (mut a, _b, mut o) = healthy_market();
    o.last_update.update_slot(5);
    let n = withdraw_obligation_collateral(&mut a, key(1), &mut o, u64::MAX, 10_000_000, 5).unwrap();
    assert_eq!(n, (10_000_000, 10_000_000));
    assert_eq!(o.deposits.len(), 0);
}

#[test]
fn withdraw_max_with_debt_keeps_borrow_limit() {
    let (mut a, mut b, mut o) = healthy_market();
    borrow_obligation_liquidity(&mut b, key(2), &mut o, 300_000_000, 5).unwrap();
    a.refresh(whole(100), 5).unwrap();
    b.refresh(whole(1), 5).unwrap();
    let deposits = vec![CollateralReserveInput { key: key(1), reserve: a, receipt_mint_supply: 10_000_000 }];
    let borrows = vec![ReserveInput { key: key(2), reserve: b }];
    refresh_obligation(&mut o, &deposits, &borrows, 5).unwrap();
    // remaining 750 - 300 = 450 of borrow value, worth 450 / 0.75 = 600 of collateral value;
    // the share 600 / 1000 is rounded down in fixed point, so one unit less than 60% comes out
    let (amount, receipts) = withdraw_obligation_collateral(&mut a, key(1), &mut o, u64::MAX, 10_000_000, 5).unwrap();
    assert_eq!(amount, 5_999_999);
    assert_eq!(receipts, 5_999_999);
    assert_eq!(o.deposits[0].deposited_amount, 4_000_001);
    assert_eq!(a.liquidity.available_amount, 4_000_001);
}

#[test]
fn withdraw_refused_when_no_borrow_room() {
    let (mut a, mut b, mut o) = healthy_market();
    borrow_obligation_liquidity(&mut b, key(2), &mut o, u64::MAX, 5).unwrap();
    a.refresh(whole(100), 5).unwrap();
    b.refresh(whole(1), 5).unwrap();
    let deposits = vec![CollateralReserveInput { key: key(1), reserve: a, receipt_mint_supply: 10_000_000 }];
    let borrows = vec![ReserveInput { key: key(2), reserve: b }];
    refresh_obligation(&mut o, &deposits, &borrows, 5).unwrap();
    let before = a;
    assert_eq!(
        withdraw_obligation_collateral(&mut a, key(1), &mut o, 1_000, 10_000_000, 5),
        Err(LendingError::MaxWithdrawValueZero)
    );
    assert_eq!(a, before);
    assert_eq!(o.deposits[0].deposited_amount, 10_000_000);
}

#[test]
fn borrow_refused_without_collateral() {
    let slot = 5;
    let mut b = reserve(8000, 8500, 6, slot);
    b.refresh(whole(1), slot).unwrap();
    b.liquidity.available_amount = 1000;
    let mut o = obligation(slot);
    o.last_update.update_slot(slot);
    assert_eq!(borrow_obligation_liquidity(&mut b, key(2), &mut o, 10, slot), Err(LendingError::ObligationDepositsEmpty));
}

#[test]
fn deposit_checks_market_and_position_cap() {
    let slot = 5;
    let mut a = reserve(7500, 8000, 6, slot);
    a.refresh(whole(1), slot).unwrap();
    let mut o = obligation(slot);
    o.market = key(999);
    assert_eq!(
        deposit_reserve_liquidity_and_obligation_collateral(&mut a, key(1), &mut o, 10, 0, slot),
        Err(LendingError::InvalidObligationMarket)
    );
    o.market = key(100);
    for n in 1..=5u128 {
        deposit_reserve_liquidity_and_obligation_collateral(&mut a, key(n), &mut o, 10, 0, slot).unwrap();
        a.refresh(whole(1), slot).unwrap();
    }
    assert_eq!(o.deposits.len(), 5);
    assert_eq!(
        deposit_reserve_liquidity_and_obligation_collateral(&mut a, key(6), &mut o, 10, 0, slot),
        Err(LendingError::ObligationPositionsFull)
    );
    assert_eq!(o.deposits.len(), 5);
    deposit_reserve_liquidity_and_obligation_collateral(&mut a, key(3), &mut o, 10, 0, slot).unwrap();
    assert_eq!(o.deposits[2].deposited_amount, 20);
}

#[test]
fn update_keeps_threshold_above_loan_to_value() {
    let mut r = reserve(7500, 8000, 0, 0);
    let raise_ltv = UpdateReserveArgs {
        optimal_utilization_rate_bps: None,
        loan_to_value_bps: Some(10_000),
        liquidation_bonus_bps: None,
        liquidation_threshold_bps: None,
        liquidation_close_factor_bps: None,
        min_borrow_rate_bps: None,
        optimal_borrow_rate_bps: None,
        max_borrow_rate_bps: None,
        flash_loan_fee_bps: None,
        platform_fee_bps: None,
    };
    assert_eq!(update_reserve(&mut r, raise_ltv), Err(LendingError::InvalidLiquidationThreshold));
    assert_eq!(r.config.loan_to_value_bps, 7500);
}

#[test]
fn new_reserve_has_no_price() {
    let r = reserve(7500, 8000, 6, 0);
    assert_eq!(r.liquidity.market_price, fx(0));
}
