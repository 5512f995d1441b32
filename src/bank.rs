//! The two-asset bank variant: per-user balances with share accounting. Prices and
//! health factors of this variant are floating point and are decided by the caller;
//! this module keeps the integer bookkeeping.
use vstd::prelude::*;
use crate::fx::MAX_BASIS_POINTS;
use crate::pubkey::Pubkey;

verus! {

#[derive(Clone, Copy, Debug, PartialEq, Eq, Structural)]
pub enum BankError {
    InvalidAmount,
    InsufficientFunds,
    InsufficientShares,
    ExceededBorrowedAmount,
    Overflow,
    Underflow,
    DivisionByZero,
}

/// Which of the user's two assets an operation concerns.
#[derive(Clone, Copy, Debug, PartialEq, Eq, Structural)]
pub enum Asset {
    Sol,
    Usdc,
}

/// Totals of one asset's pool, with its parameters in basis points.
#[derive(Clone, Copy, Debug, PartialEq, Eq, Structural)]
pub struct Bank {
    pub bump: u8,
    pub bank_ata_bump: u8,
    pub total_deposits: u64,
    pub total_deposit_shares: u64,
    pub total_borrowed: u64,
    pub total_borrowed_shares: u64,
    pub liquidation_threshold: u16,
    pub liquidation_bonus: u16,
    pub liquidation_close_factor: u16,
    pub max_ltv: u16,
    pub interest_rate: u16,
    pub last_updated: i64,
    pub authority: Pubkey,
    pub mint: Pubkey,
}

/// A user's amounts and shares in one asset.
#[derive(Clone, Copy, Debug, PartialEq, Eq, Structural)]
pub struct Position {
    pub deposited: u64,
    pub deposited_shares: u64,
    pub borrowed: u64,
    pub borrowed_shares: u64,
}

#[derive(Clone, Copy, Debug, PartialEq, Eq, Structural)]
pub struct User {
    pub bump: u8,
    pub sol: Position,
    pub usdc: Position,
    pub last_updated: i64,
    pub authority: Pubkey,
    pub usdc_mint: Pubkey,
}

/// `amount * shares / assets`, rounded down.
pub open spec fn share_of(amount: u64, shares: u64, assets: u64) -> Result<u64, BankError> {
    if amount * shares > u64::MAX {
        Err(BankError::Overflow)
    } else if assets == 0 {
        Err(BankError::DivisionByZero)
    } else {
        Ok(((amount * shares) / assets as int) as u64)
    }
}

pub fn shares_for(amount: u64, shares: u64, assets: u64) -> (r: Result<u64, BankError>)
    ensures
        r == share_of(amount, shares, assets),
{
    let product = match amount.checked_mul(shares) {
        Some(v) => v,
        None => return Err(BankError::Overflow),
    };
    if assets == 0 {
        return Err(BankError::DivisionByZero);
    }
    Ok(product / assets)
}

pub open spec fn position_of(u: User, asset: Asset) -> Position {
    match asset {
        Asset::Sol => u.sol,
        Asset::Usdc => u.usdc,
    }
}

pub open spec fn with_position(u: User, asset: Asset, p: Position) -> User {
    match asset {
        Asset::Sol => User { sol: p, ..u },
        Asset::Usdc => User { usdc: p, ..u },
    }
}

pub open spec fn add_u64(a: u64, b: u64) -> Result<u64, BankError> {
    if a + b > u64::MAX { Err(BankError::Overflow) } else { Ok((a + b) as u64) }
}

pub open spec fn sub_u64(a: u64, b: u64) -> Result<u64, BankError> {
    if a < b { Err(BankError::Underflow) } else { Ok((a - b) as u64) }
}

/// Shares minted for adding `amount` to a pool of `assets` with `shares` outstanding;
/// the first deposit into an empty pool mints one share per unit and resets the shares.
pub open spec fn mint_spec(assets: u64, shares: u64, amount: u64) -> Result<(u64, u64, u64), BankError> {
    if assets == 0 {
        Ok((amount, amount, amount))
    } else {
        match share_of(amount, shares, assets) {
            Err(e) => Err(e),
            Ok(minted) => match add_u64(assets, amount) {
                Err(e) => Err(e),
                Ok(new_assets) => match add_u64(shares, minted) {
                    Err(e) => Err(e),
                    Ok(new_shares) => Ok((minted, new_assets, new_shares)),
                },
            },
        }
    }
}

/// Adds `amount` to a pool; returns the shares minted and the new totals.
pub fn mint_shares(assets: u64, shares: u64, amount: u64) -> (r: Result<(u64, u64, u64), BankError>)
    ensures
        r == mint_spec(assets, shares, amount),
{
    if assets == 0 {
        return Ok((amount, amount, amount));
    }
    let minted = match shares_for(amount, shares, assets) {
        Ok(v) => v,
        Err(e) => return Err(e),
    };
    let new_assets = match assets.checked_add(amount) {
        Some(v) => v,
        None => return Err(BankError::Overflow),
    };
    let new_shares = match shares.checked_add(minted) {
        Some(v) => v,
        None => return Err(BankError::Overflow),
    };
    Ok((minted, new_assets, new_shares))
}

fn checked_add(a: u64, b: u64) -> (r: Result<u64, BankError>)
    ensures
        r == add_u64(a, b),
{
    match a.checked_add(b) {
        Some(v) => Ok(v),
        None => Err(BankError::Overflow),
    }
}

fn checked_sub(a: u64, b: u64) -> (r: Result<u64, BankError>)
    ensures
        r == sub_u64(a, b),
{
    match a.checked_sub(b) {
        Some(v) => Ok(v),
        None => Err(BankError::Underflow),
    }
}

impl User {
    pub fn position(&self, asset: Asset) -> (r: Position)
        ensures
            r == position_of(*self, asset),
    {
        match asset {
            Asset::Sol => self.sol,
            Asset::Usdc => self.usdc,
        }
    }

    pub fn set_position(&mut self, asset: Asset, p: Position)
        ensures
            *final(self) == with_position(*old(self), asset, p),
    {
        match asset {
            Asset::Sol => self.sol = p,
            Asset::Usdc => self.usdc = p,
        }
    }
}

/// The bank and user after a deposit, and the shares minted.
pub open spec fn deposit_spec(b: Bank, u: User, asset: Asset, amount: u64) -> Result<(u64, Bank, User), BankError> {
    let p = position_of(u, asset);
    if amount == 0 {
        Err(BankError::InvalidAmount)
    } else {
        match mint_spec(b.total_deposits, b.total_deposit_shares, amount) {
            Err(e) => Err(e),
            Ok((minted, assets, shares)) => match add_u64(p.deposited, amount) {
                Err(e) => Err(e),
                Ok(deposited) => match add_u64(p.deposited_shares, minted) {
                    Err(e) => Err(e),
                    Ok(deposited_shares) => Ok((
                        minted,
                        Bank { total_deposits: assets, total_deposit_shares: shares, ..b },
                        with_position(u, asset, Position { deposited, deposited_shares, ..p }),
                    )),
                },
            },
        }
    }
}

/// Deposits `amount` of `asset`; returns the deposit shares minted. Nothing changes on failure.
pub fn deposit(bank: &mut Bank, user: &mut User, asset: Asset, amount: u64) -> (r: Result<u64, BankError>)
    ensures
        match deposit_spec(*old(bank), *old(user), asset, amount) {
            Ok((minted, b, u)) => r == Ok::<u64, BankError>(minted) && *final(bank) == b && *final(user) == u,
            Err(e) => r == Err::<u64, BankError>(e) && *final(bank) == *old(bank) && *final(user) == *old(user),
        },
{
    if amount == 0 {
        return Err(BankError::InvalidAmount);
    }
    let (minted, assets, shares) = match mint_shares(bank.total_deposits, bank.total_deposit_shares, amount) {
        Ok(v) => v,
        Err(e) => return Err(e),
    };
    let mut p = user.position(asset);
    p.deposited = match checked_add(p.deposited, amount) {
        Ok(v) => v,
        Err(e) => return Err(e),
    };
    p.deposited_shares = match checked_add(p.deposited_shares, minted) {
        Ok(v) => v,
        Err(e) => return Err(e),
    };
    bank.total_deposits = assets;
    bank.total_deposit_shares = shares;
    user.set_position(asset, p);
    Ok(minted)
}

/// The bank and user after a withdrawal, and the shares burned.
pub open spec fn withdraw_spec(b: Bank, u: User, asset: Asset, amount: u64) -> Result<(u64, Bank, User), BankError> {
    let p = position_of(u, asset);
    if amount == 0 {
        Err(BankError::InvalidAmount)
    } else if amount > p.deposited {
        Err(BankError::InsufficientFunds)
    } else {
        match share_of(amount, b.total_deposit_shares, b.total_deposits) {
            Err(e) => Err(e),
            Ok(burned) => if burned > p.deposited_shares {
                Err(BankError::InsufficientShares)
            } else {
                match sub_u64(b.total_deposits, amount) {
                    Err(e) => Err(e),
                    Ok(assets) => match sub_u64(b.total_deposit_shares, burned) {
                        Err(e) => Err(e),
                        Ok(shares) => Ok((
                            burned,
                            Bank { total_deposits: assets, total_deposit_shares: shares, ..b },
                            with_position(u, asset, Position {
                                deposited: (p.deposited - amount) as u64,
                                deposited_shares: (p.deposited_shares - burned) as u64,
                                ..p
                            }),
                        )),
                    },
                }
            },
        }
    }
}

/// Withdraws `amount` of `asset`, at most what the user deposited; returns the shares burned.
/// Nothing changes on failure.
pub fn withdraw(bank: &mut Bank, user: &mut User, asset: Asset, amount: u64) -> (r: Result<u64, BankError>)
    ensures
        match withdraw_spec(*old(bank), *old(user), asset, amount) {
            Ok((burned, b, u)) => r == Ok::<u64, BankError>(burned) && *final(bank) == b && *final(user) == u,
            Err(e) => r == Err::<u64, BankError>(e) && *final(bank) == *old(bank) && *final(user) == *old(user),
        },
{
    if amount == 0 {
        return Err(BankError::InvalidAmount);
    }
    let mut p = user.position(asset);
    if amount > p.deposited {
        return Err(BankError::InsufficientFunds);
    }
    let burned = match shares_for(amount, bank.total_deposit_shares, bank.total_deposits) {
        Ok(v) => v,
        Err(e) => return Err(e),
    };
    if burned > p.deposited_shares {
        return Err(BankError::InsufficientShares);
    }
    let assets = match checked_sub(bank.total_deposits, amount) {
        Ok(v) => v,
        Err(e) => return Err(e),
    };
    let shares = match checked_sub(bank.total_deposit_shares, burned) {
        Ok(v) => v,
        Err(e) => return Err(e),
    };
    p.deposited = p.deposited - amount;
    p.deposited_shares = p.deposited_shares - burned;
    bank.total_deposits = assets;
    bank.total_deposit_shares = shares;
    user.set_position(asset, p);
    Ok(burned)
}

/// The bank and user after a borrow, and the borrow shares minted.
pub open spec fn borrow_spec(b: Bank, u: User, asset: Asset, amount: u64) -> Result<(u64, Bank, User), BankError> {
    let p = position_of(u, asset);
    if amount == 0 {
        Err(BankError::InvalidAmount)
    } else {
        match mint_spec(b.total_borrowed, b.total_borrowed_shares, amount) {
            Err(e) => Err(e),
            Ok((minted, assets, shares)) => match add_u64(p.borrowed, amount) {
                Err(e) => Err(e),
                Ok(borrowed) => match add_u64(p.borrowed_shares, minted) {
                    Err(e) => Err(e),
                    Ok(borrowed_shares) => Ok((
                        minted,
                        Bank { total_borrowed: assets, total_borrowed_shares: shares, ..b },
                        with_position(u, asset, Position { borrowed, borrowed_shares, ..p }),
                    )),
                },
            },
        }
    }
}

/// Records a borrow of `amount` of `asset` (the caller has checked it against the
/// user's collateral); returns the borrow shares minted. Nothing changes on failure.
pub fn borrow(bank: &mut Bank, user: &mut User, asset: Asset, amount: u64) -> (r: Result<u64, BankError>)
    ensures
        match borrow_spec(*old(bank), *old(user), asset, amount) {
            Ok((minted, b, u)) => r == Ok::<u64, BankError>(minted) && *final(bank) == b && *final(user) == u,
            Err(e) => r == Err::<u64, BankError>(e) && *final(bank) == *old(bank) && *final(user) == *old(user),
        },
{
    if amount == 0 {
        return Err(BankError::InvalidAmount);
    }
    let (minted, assets, shares) = match mint_shares(bank.total_borrowed, bank.total_borrowed_shares, amount) {
        Ok(v) => v,
        Err(e) => return Err(e),
    };
    let mut p = user.position(asset);
    p.borrowed = match checked_add(p.borrowed, amount) {
        Ok(v) => v,
        Err(e) => return Err(e),
    };
    p.borrowed_shares = match checked_add(p.borrowed_shares, minted) {
        Ok(v) => v,
        Err(e) => return Err(e),
    };
    bank.total_borrowed = assets;
    bank.total_borrowed_shares = shares;
    user.set_position(asset, p);
    Ok(minted)
}

/// The bank and user after repaying `amount` of a debt that has accrued `interest`: the
/// principal part is `amount * borrowed / (borrowed + interest)`.
pub open spec fn repay_spec(b: Bank, u: User, asset: Asset, amount: u64, interest: u64) -> Result<(u64, Bank, User), BankError> {
    let p = position_of(u, asset);
    if amount == 0 {
        Err(BankError::InvalidAmount)
    } else {
        match add_u64(p.borrowed, interest) {
            Err(e) => Err(e),
            Ok(owed) => if amount > owed {
                Err(BankError::ExceededBorrowedAmount)
            } else {
                match share_of(amount, p.borrowed, owed) {
                    Err(e) => Err(e),
                    Ok(principal) => match share_of(principal, b.total_borrowed_shares, b.total_borrowed) {
                        Err(e) => Err(e),
                        Ok(burned) => if burned > p.borrowed_shares {
                            Err(BankError::InsufficientShares)
                        } else {
                            match sub_u64(b.total_borrowed, principal) {
                                Err(e) => Err(e),
                                Ok(assets) => match sub_u64(b.total_borrowed_shares, burned) {
                                    Err(e) => Err(e),
                                    Ok(shares) => match sub_u64(p.borrowed, principal) {
                                        Err(e) => Err(e),
                                        Ok(borrowed) => Ok((
                                            principal,
                                            Bank { total_borrowed: assets, total_borrowed_shares: shares, ..b },
                                            with_position(u, asset, Position {
                                                borrowed,
                                                borrowed_shares: (p.borrowed_shares - burned) as u64,
                                                ..p
                                            }),
                                        )),
                                    },
                                },
                            }
                        },
                    },
                }
            },
        }
    }
}

/// Repays `amount` of `asset`, given the interest the debt has accrued; returns the
/// principal repaid. Nothing changes on failure.
pub fn repay(bank: &mut Bank, user: &mut User, asset: Asset, amount: u64, accrued_interest: u64) -> (r: Result<u64, BankError>)
    ensures
        match repay_spec(*old(bank), *old(user), asset, amount, accrued_interest) {
            Ok((principal, b, u)) => r == Ok::<u64, BankError>(principal) && *final(bank) == b && *final(user) == u,
            Err(e) => r == Err::<u64, BankError>(e) && *final(bank) == *old(bank) && *final(user) == *old(user),
        },
{
    if amount == 0 {
        return Err(BankError::InvalidAmount);
    }
    let mut p = user.position(asset);
    let owed = match checked_add(p.borrowed, accrued_interest) {
        Ok(v) => v,
        Err(e) => return Err(e),
    };
    if amount > owed {
        return Err(BankError::ExceededBorrowedAmount);
    }
    let principal = match shares_for(amount, p.borrowed, owed) {
        Ok(v) => v,
        Err(e) => return Err(e),
    };
    let burned = match shares_for(principal, bank.total_borrowed_shares, bank.total_borrowed) {
        Ok(v) => v,
        Err(e) => return Err(e),
    };
    if burned > p.borrowed_shares {
        return Err(BankError::InsufficientShares);
    }
    let assets = match checked_sub(bank.total_borrowed, principal) {
        Ok(v) => v,
        Err(e) => return Err(e),
    };
    let shares = match checked_sub(bank.total_borrowed_shares, burned) {
        Ok(v) => v,
        Err(e) => return Err(e),
    };
    let borrowed = match checked_sub(p.borrowed, principal) {
        Ok(v) => v,
        Err(e) => return Err(e),
    };
    p.borrowed = borrowed;
    p.borrowed_shares = p.borrowed_shares - burned;
    bank.total_borrowed = assets;
    bank.total_borrowed_shares = shares;
    user.set_position(asset, p);
    Ok(principal)
}

/// The debt a liquidation repays: `close_factor` basis points of what is borrowed.
pub fn liquidation_amount(total_borrowed: u64, close_factor: u16) -> (r: Result<u64, BankError>)
    ensures
        total_borrowed * close_factor <= u64::MAX ==> r == Ok::<u64, BankError>(((total_borrowed * close_factor) / 10000) as u64),
        total_borrowed * close_factor > u64::MAX ==> r == Err::<u64, BankError>(BankError::Overflow),
{
    match total_borrowed.checked_mul(close_factor as u64) {
        Some(v) => Ok(v / (MAX_BASIS_POINTS as u64)),
        None => Err(BankError::Overflow),
    }
}

/// A liquidation's effect: `repaid` leaves the debt in `borrowed_asset` and
/// `seized` leaves the deposit in `collateral_asset`, with their shares.
pub open spec fn liquidation_spec(bb: Bank, cb: Bank, u: User, borrowed_asset: Asset, collateral_asset: Asset, repaid: u64, seized: u64) -> Result<(Bank, Bank, User), BankError> {
    match share_of(repaid, bb.total_borrowed_shares, bb.total_borrowed) {
        Err(e) => Err(e),
        Ok(debt_shares) => match share_of(seized, cb.total_deposit_shares, cb.total_deposits) {
            Err(e) => Err(e),
            Ok(deposit_shares) => {
                let pb = position_of(u, borrowed_asset);
                if bb.total_borrowed < repaid || bb.total_borrowed_shares < debt_shares
                    || cb.total_deposits < seized || cb.total_deposit_shares < deposit_shares
                    || pb.borrowed < repaid || pb.borrowed_shares < debt_shares {
                    Err(BankError::Underflow)
                } else {
                    let u1 = with_position(u, borrowed_asset, Position {
                        borrowed: (pb.borrowed - repaid) as u64,
                        borrowed_shares: (pb.borrowed_shares - debt_shares) as u64,
                        ..pb
                    });
                    let pc = position_of(u1, collateral_asset);
                    if pc.deposited < seized || pc.deposited_shares < deposit_shares {
                        Err(BankError::Underflow)
                    } else {
                        Ok((
                            Bank {
                                total_borrowed: (bb.total_borrowed - repaid) as u64,
                                total_borrowed_shares: (bb.total_borrowed_shares - debt_shares) as u64,
                                ..bb
                            },
                            Bank {
                                total_deposits: (cb.total_deposits - seized) as u64,
                                total_deposit_shares: (cb.total_deposit_shares - deposit_shares) as u64,
                                ..cb
                            },
                            with_position(u1, collateral_asset, Position {
                                deposited: (pc.deposited - seized) as u64,
                                deposited_shares: (pc.deposited_shares - deposit_shares) as u64,
                                ..pc
                            }),
                        ))
                    }
                }
            },
        },
    }
}

/// Applies a liquidation whose amounts the caller has sized. Nothing changes on failure.
pub fn apply_liquidation(
    borrowed_bank: &mut Bank,
    collateral_bank: &mut Bank,
    user: &mut User,
    borrowed_asset: Asset,
    collateral_asset: Asset,
    repaid: u64,
    seized: u64,
) -> (r: Result<(), BankError>)
    ensures
        match liquidation_spec(*old(borrowed_bank), *old(collateral_bank), *old(user), borrowed_asset, collateral_asset, repaid, seized) {
            Ok((bb, cb, u)) => r is Ok && *final(borrowed_bank) == bb && *final(collateral_bank) == cb && *final(user) == u,
            Err(e) => r == Err::<(), BankError>(e) && *final(borrowed_bank) == *old(borrowed_bank)
                && *final(collateral_bank) == *old(collateral_bank) && *final(user) == *old(user),
        },
{
    let debt_shares = match shares_for(repaid, borrowed_bank.total_borrowed_shares, borrowed_bank.total_borrowed) {
        Ok(v) => v,
        Err(e) => return Err(e),
    };
    let deposit_shares = match shares_for(seized, collateral_bank.total_deposit_shares, collateral_bank.total_deposits) {
        Ok(v) => v,
        Err(e) => return Err(e),
    };
    let mut pb = user.position(borrowed_asset);
    if borrowed_bank.total_borrowed < repaid || borrowed_bank.total_borrowed_shares < debt_shares
        || collateral_bank.total_deposits < seized || collateral_bank.total_deposit_shares < deposit_shares
        || pb.borrowed < repaid || pb.borrowed_shares < debt_shares {
        return Err(BankError::Underflow);
    }
    pb.borrowed = pb.borrowed - repaid;
    pb.borrowed_shares = pb.borrowed_shares - debt_shares;
    let mut next = *user;
    next.set_position(borrowed_asset, pb);
    let mut pc = next.position(collateral_asset);
    if pc.deposited < seized || pc.deposited_shares < deposit_shares {
        return Err(BankError::Underflow);
    }
    pc.deposited = pc.deposited - seized;
    pc.deposited_shares = pc.deposited_shares - deposit_shares;
    next.set_position(collateral_asset, pc);
    borrowed_bank.total_borrowed = borrowed_bank.total_borrowed - repaid;
    borrowed_bank.total_borrowed_shares = borrowed_bank.total_borrowed_shares - debt_shares;
    collateral_bank.total_deposits = collateral_bank.total_deposits - seized;
    collateral_bank.total_deposit_shares = collateral_bank.total_deposit_shares - deposit_shares;
    *user = next;
    Ok(())
}

/// Integer parameters of a new bank, in basis points.
#[derive(Clone, Copy, Debug, PartialEq, Eq, Structural)]
pub struct NewBankArgs {
    pub bump: u8,
    pub bank_ata_bump: u8,
    pub liquidation_threshold: u16,
    pub liquidation_bonus: u16,
    pub liquidation_close_factor: u16,
    pub max_ltv: u16,
    pub interest_rate: u16,
    pub now: i64,
    pub authority: Pubkey,
    pub mint: Pubkey,
}

/// Optional overrides of a bank's integer parameters.
#[derive(Clone, Copy, Debug, PartialEq, Eq, Structural)]
pub struct UpdateBankArgs {
    pub liquidation_threshold: Option<u16>,
    pub liquidation_bonus: Option<u16>,
    pub liquidation_close_factor: Option<u16>,
    pub max_ltv: Option<u16>,
    pub interest_rate: Option<u16>,
}

pub open spec fn or_keep(v: Option<u16>, current: u16) -> u16 {
    match v {
        Some(b) => b,
        None => current,
    }
}

fn keep_or(v: Option<u16>, current: u16) -> (r: u16)
    ensures
        r == or_keep(v, current),
{
    match v {
        Some(b) => b,
        None => current,
    }
}

impl Bank {
    /// An empty bank.
    pub fn new(args: NewBankArgs) -> (r: Bank)
        ensures
            r.total_deposits == 0 && r.total_deposit_shares == 0,
            r.total_borrowed == 0 && r.total_borrowed_shares == 0,
            r.bump == args.bump && r.bank_ata_bump == args.bank_ata_bump,
            r.liquidation_threshold == args.liquidation_threshold,
            r.liquidation_bonus == args.liquidation_bonus,
            r.liquidation_close_factor == args.liquidation_close_factor,
            r.max_ltv == args.max_ltv,
            r.interest_rate == args.interest_rate,
            r.last_updated == args.now,
            r.authority == args.authority && r.mint == args.mint,
    {
        Bank {
            bump: args.bump,
            bank_ata_bump: args.bank_ata_bump,
            total_deposits: 0,
            total_deposit_shares: 0,
            total_borrowed: 0,
            total_borrowed_shares: 0,
            liquidation_threshold: args.liquidation_threshold,
            liquidation_bonus: args.liquidation_bonus,
            liquidation_close_factor: args.liquidation_close_factor,
            max_ltv: args.max_ltv,
            interest_rate: args.interest_rate,
            last_updated: args.now,
            authority: args.authority,
            mint: args.mint,
        }
    }

    /// Overrides the given parameters and stamps the update time.
    pub fn update(&mut self, args: UpdateBankArgs, now: i64)
        ensures
            *final(self) == (Bank {
                liquidation_threshold: or_keep(args.liquidation_threshold, old(self).liquidation_threshold),
                liquidation_bonus: or_keep(args.liquidation_bonus, old(self).liquidation_bonus),
                liquidation_close_factor: or_keep(args.liquidation_close_factor, old(self).liquidation_close_factor),
                max_ltv: or_keep(args.max_ltv, old(self).max_ltv),
                interest_rate: or_keep(args.interest_rate, old(self).interest_rate),
                last_updated: now,
                ..*old(self)
            }),
    {
        self.liquidation_threshold = keep_or(args.liquidation_threshold, self.liquidation_threshold);
        self.liquidation_bonus = keep_or(args.liquidation_bonus, self.liquidation_bonus);
        self.liquidation_close_factor = keep_or(args.liquidation_close_factor, self.liquidation_close_factor);
        self.max_ltv = keep_or(args.max_ltv, self.max_ltv);
        self.interest_rate = keep_or(args.interest_rate, self.interest_rate);
        self.last_updated = now;
    }
}

impl User {
    /// A user with no balances.
    pub fn new(bump: u8, authority: Pubkey, usdc_mint: Pubkey, now: i64) -> (r: User)
        ensures
            r.bump == bump && r.authority == authority && r.usdc_mint == usdc_mint && r.last_updated == now,
            r.sol == (Position { deposited: 0, deposited_shares: 0, borrowed: 0, borrowed_shares: 0 }),
            r.usdc == (Position { deposited: 0, deposited_shares: 0, borrowed: 0, borrowed_shares: 0 }),
    {
        let empty = Position { deposited: 0, deposited_shares: 0, borrowed: 0, borrowed_shares: 0 };
        User { bump, sol: empty, usdc: empty, last_updated: now, authority, usdc_mint }
    }
}

} // verus!
