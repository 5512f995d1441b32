use lending::bank::{
    apply_liquidation, borrow, NewBankArgs, UpdateBankArgs, deposit, liquidation_amount, repay, shares_for, withdraw, Asset,
    Bank, BankError, Position, User,
};
use lending::pubkey::Pubkey;

fn empty_bank() -> Bank {
    Bank {
        bump: 0,
        bank_ata_bump: 0,
        total_deposits: 0,
        total_deposit_shares: 0,
        total_borrowed: 0,
        total_borrowed_shares: 0,
        liquidation_threshold: 8000,
        liquidation_bonus: 500,
        liquidation_close_factor: 5000,
        max_ltv: 7500,
        interest_rate: 500,
        last_updated: 0,
        authority: Pubkey::new(0, 1),
        mint: Pubkey::new(0, 2),
    }
}

fn empty_position() -> Position {
    Position { deposited: 0, deposited_shares: 0, borrowed: 0, borrowed_shares: 0 }
}

fn new_user() -> User {
    User {
        bump: 0,
        sol: empty_position(),
        usdc: empty_position(),
        last_updated: 0,
        authority: Pubkey::new(0, 3),
        usdc_mint: Pubkey::new(0, 4),
    }
}

#[test]
fn first_deposit_mints_one_share_per_unit() {
    let mut bank = empty_bank();
    let mut user = new_user();
    assert_eq!(deposit(&mut bank, &mut user, Asset::Sol, 1000), Ok(1000));
    assert_eq!((bank.total_deposits, bank.total_deposit_shares), (1000, 1000));
    assert_eq!(user.sol.deposited_shares, 1000);
    assert_eq!(user.usdc, empty_position());
}

#[test]
fn later_deposit_mints_pro_rata_shares() {
    let mut bank = empty_bank();
    bank.total_deposits = 2000;
    bank.total_deposit_shares = 1000;
    let mut user = new_user();
    assert_eq!(deposit(&mut bank, &mut user, Asset::Usdc, 500), Ok(250));
    assert_eq!((bank.total_deposits, bank.total_deposit_shares), (2500, 1250));
    assert_eq!(user.usdc.deposited, 500);
    assert_eq!(deposit(&mut bank, &mut user, Asset::Usdc, 0), Err(BankError::InvalidAmount));
}

#[test]
fn withdraw_burns_shares_and_checks_balance() {
    let mut bank = empty_bank();
    let mut user = new_user();
    deposit(&mut bank, &mut user, Asset::Sol, 1000).unwrap();
    assert_eq!(withdraw(&mut bank, &mut user, Asset::Sol, 2000), Err(BankError::InsufficientFunds));
    assert_eq!(withdraw(&mut bank, &mut user, Asset::Sol, 400), Ok(400));
    assert_eq!(user.sol.deposited, 600);
    assert_eq!(bank.total_deposits, 600);
}

#[test]
fn borrow_and_repay_with_interest() {
    let mut bank = empty_bank();
    let mut user = new_user();
    assert_eq!(borrow(&mut bank, &mut user, Asset::Usdc, 300), Ok(300));
    assert_eq!(repay(&mut bank, &mut user, Asset::Usdc, 400, 0), Err(BankError::ExceededBorrowedAmount));
    // 300 owed plus 100 of interest: repaying 200 pays 150 of principal
    assert_eq!(repay(&mut bank, &mut user, Asset::Usdc, 200, 100), Ok(150));
    assert_eq!(user.usdc.borrowed, 150);
    assert_eq!(bank.total_borrowed, 150);
    assert_eq!(bank.total_borrowed_shares, 150);
}

#[test]
fn share_division_errors() {
    assert_eq!(shares_for(10, 5, 0), Err(BankError::DivisionByZero));
    assert_eq!(shares_for(u64::MAX, 2, 1), Err(BankError::Overflow));
    assert_eq!(shares_for(7, 3, 2), Ok(10));
}

#[test]
fn liquidation_moves_debt_and_collateral() {
    assert_eq!(liquidation_amount(1000, 5000), Ok(500));
    let mut debt_bank = empty_bank();
    let mut collateral_bank = empty_bank();
    let mut user = new_user();
    borrow(&mut debt_bank, &mut user, Asset::Usdc, 1000).unwrap();
    deposit(&mut collateral_bank, &mut user, Asset::Sol, 800).unwrap();
    apply_liquidation(&mut debt_bank, &mut collateral_bank, &mut user, Asset::Usdc, Asset::Sol, 500, 300).unwrap();
    assert_eq!(user.usdc.borrowed, 500);
    assert_eq!(user.sol.deposited, 500);
    assert_eq!(debt_bank.total_borrowed, 500);
    assert_eq!(collateral_bank.total_deposits, 500);
    let before = user;
    assert_eq!(
        apply_liquidation(&mut debt_bank, &mut collateral_bank, &mut user, Asset::Usdc, Asset::Sol, 100, 900),
        Err(BankError::Underflow)
    );
    assert_eq!(user, before);
}

#[test]
fn bank_creation_and_update() {
    let mut bank = Bank::new(NewBankArgs {
        bump: 1,
        bank_ata_bump: 2,
        liquidation_threshold: 8000,
        liquidation_bonus: 500,
        liquidation_close_factor: 5000,
        max_ltv: 7500,
        interest_rate: 300,
        now: 10,
        authority: Pubkey::new(0, 1),
        mint: Pubkey::new(0, 2),
    });
    assert_eq!(bank.total_deposits, 0);
    bank.update(
        UpdateBankArgs { liquidation_threshold: None, liquidation_bonus: Some(900), liquidation_close_factor: None, max_ltv: None, interest_rate: None },
        20,
    );
    assert_eq!((bank.liquidation_bonus, bank.liquidation_threshold, bank.last_updated), (900, 8000, 20));
    let user = User::new(3, Pubkey::new(0, 5), Pubkey::new(0, 6), 20);
    assert_eq!(user.sol, empty_position());
}
