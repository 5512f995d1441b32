//! Reserves: per-asset liquidity pools, their interest engine and sizing rules.
use vstd::prelude::*;
use crate::error::LendingError;
use crate::last_update::{LastUpdate, NewLastUpdateArgs};
use crate::fx::{checked_pow10, pow10, bps_to_i80f48, i80f48_pow, price_to_fx, price_to_fx_spec, Price, fx_pow, fx_add, fx_sub, MAX_BASIS_POINTS, fx_bps, fx_ceil_u64, fx_div, fx_floor_u64, fx_mul, fx_of, fx_one, Fx};
use crate::pubkey::Pubkey;
use crate::obligation::{max_liquidation_spec, Obligation, ObligationCollateral, ObligationLiquidity};

verus! {

/// Fees of a reserve, in basis points.
#[derive(Clone, Copy, Debug, PartialEq, Eq, Structural)]
pub struct ReserveFees {
    /// Flat fee taken on a flash-loaned amount.
    pub flash_loan_fee_bps: u16,
    /// Share of interest and flash-loan fees that goes to the market authority.
    pub platform_fee_bps: u16,
}

pub struct NewReserveFeesArgs {
    pub flash_loan_fee_bps: u16,
    pub platform_fee_bps: u16,
}

/// `ceil(amount * (flash + platform) / 10 000)`, narrowed to `u64`.
pub open spec fn flash_loan_fee_spec(f: ReserveFees, amount: u64) -> Result<u64, LendingError> {
    let total = f.flash_loan_fee_bps + f.platform_fee_bps;
    if total > u16::MAX {
        Err(LendingError::MathOverflow)
    } else {
        match fx_mul(fx_of(amount as int), fx_bps(total)) {
            Ok(x) => fx_ceil_u64(x),
            Err(e) => Err(e),
        }
    }
}

impl ReserveFees {
    pub fn new(args: NewReserveFeesArgs) -> (r: ReserveFees)
        ensures
            r.flash_loan_fee_bps == args.flash_loan_fee_bps,
            r.platform_fee_bps == args.platform_fee_bps,
    {
        ReserveFees { flash_loan_fee_bps: args.flash_loan_fee_bps, platform_fee_bps: args.platform_fee_bps }
    }

    pub fn calculate_flash_loan_fee(&self, amount: u64) -> (r: Result<u64, LendingError>)
        ensures
            r == flash_loan_fee_spec(*self, amount),
    {
        let total = match self.flash_loan_fee_bps.checked_add(self.platform_fee_bps) {
            Some(t) => t,
            None => return Err(LendingError::MathOverflow),
        };
        let rate = match bps_to_i80f48(total) {
            Ok(v) => v,
            Err(e) => return Err(e),
        };
        match Fx::from_u64(amount).safe_mul(rate) {
            Ok(x) => x.ceil_to_u64(),
            Err(e) => Err(e),
        }
    }
}

/// Static parameters of a reserve, in basis points.
#[derive(Clone, Copy, Debug, PartialEq, Eq, Structural)]
pub struct ReserveConfig {
    pub optimal_utilization_rate_bps: u16,
    /// Borrowing power per unit of collateral value; zero disables use as collateral.
    pub loan_to_value_bps: u16,
    pub liquidation_bonus_bps: u16,
    pub liquidation_threshold_bps: u16,
    pub liquidation_close_factor_bps: u16,
    pub min_borrow_rate_bps: u16,
    pub optimal_borrow_rate_bps: u16,
    pub max_borrow_rate_bps: u16,
    pub fees: ReserveFees,
}

pub struct NewReserveConfigArgs {
    pub optimal_utilization_rate_bps: u16,
    pub loan_to_value_bps: u16,
    pub liquidation_bonus_bps: u16,
    pub liquidation_threshold_bps: u16,
    pub liquidation_close_factor_bps: u16,
    pub min_borrow_rate_bps: u16,
    pub optimal_borrow_rate_bps: u16,
    pub max_borrow_rate_bps: u16,
    pub fees: ReserveFees,
}

impl ReserveConfig {
    pub fn new(args: NewReserveConfigArgs) -> (r: ReserveConfig)
        ensures
            r.optimal_utilization_rate_bps == args.optimal_utilization_rate_bps,
            r.loan_to_value_bps == args.loan_to_value_bps,
            r.liquidation_bonus_bps == args.liquidation_bonus_bps,
            r.liquidation_threshold_bps == args.liquidation_threshold_bps,
            r.liquidation_close_factor_bps == args.liquidation_close_factor_bps,
            r.min_borrow_rate_bps == args.min_borrow_rate_bps,
            r.optimal_borrow_rate_bps == args.optimal_borrow_rate_bps,
            r.max_borrow_rate_bps == args.max_borrow_rate_bps,
            r.fees == args.fees,
    {
        ReserveConfig {
            optimal_utilization_rate_bps: args.optimal_utilization_rate_bps,
            loan_to_value_bps: args.loan_to_value_bps,
            liquidation_bonus_bps: args.liquidation_bonus_bps,
            liquidation_threshold_bps: args.liquidation_threshold_bps,
            liquidation_close_factor_bps: args.liquidation_close_factor_bps,
            min_borrow_rate_bps: args.min_borrow_rate_bps,
            optimal_borrow_rate_bps: args.optimal_borrow_rate_bps,
            max_borrow_rate_bps: args.max_borrow_rate_bps,
            fees: args.fees,
        }
    }
}

/// The liquidity pool of a reserve.
#[derive(Clone, Copy, Debug, PartialEq, Eq, Structural)]
pub struct ReserveLiquidity {
    pub mint: Pubkey,
    pub price_update_v2: Pubkey,
    /// Liquidity held by the reserve and free to be borrowed or redeemed.
    pub available_amount: u64,
    /// Liquidity lent out, interest included.
    pub borrowed_amount: u64,
    pub cumulative_borrow_index: Fx,
    pub accumulated_platform_fees: u64,
    /// Price of one smallest unit of the mint, in quote units.
    pub market_price: Fx,
}

pub struct NewReserveLiquidityArgs {
    pub mint: Pubkey,
    pub price_update_v2: Pubkey,
}

/// Receipts per unit of liquidity; one for an empty reserve or an unminted receipt.
pub open spec fn exchange_rate_spec(l: ReserveLiquidity, mint_supply: u64) -> Result<Fx, LendingError> {
    let total = l.available_amount + l.borrowed_amount;
    if total > u64::MAX {
        Err(LendingError::MathOverflow)
    } else if total == 0 || mint_supply == 0 {
        Ok(fx_one())
    } else {
        fx_div(fx_of(mint_supply as int), fx_of(total))
    }
}

/// `floor(receipts / rate)`.
pub open spec fn receipt_to_liquidity_spec(amount: u64, rate: Fx) -> Result<u64, LendingError> {
    match fx_div(fx_of(amount as int), rate) {
        Ok(x) => fx_floor_u64(x),
        Err(e) => Err(e),
    }
}

/// `ceil(liquidity * rate)`.
pub open spec fn liquidity_to_receipt_spec(amount: u64, rate: Fx) -> Result<u64, LendingError> {
    match fx_mul(fx_of(amount as int), rate) {
        Ok(x) => fx_ceil_u64(x),
        Err(e) => Err(e),
    }
}

/// `borrowed / available`, and zero when nothing is available.
pub open spec fn utilization_spec(l: ReserveLiquidity) -> Result<Fx, LendingError> {
    if l.available_amount == 0 {
        Ok(Fx { bits: 0 })
    } else {
        fx_div(fx_of(l.borrowed_amount as int), fx_of(l.available_amount as int))
    }
}

/// Receipts minted for a deposit, priced against the totals before it, and the pool after it.
pub open spec fn deposit_spec(l: ReserveLiquidity, amount: u64, mint_supply: u64) -> Result<(u64, ReserveLiquidity), LendingError> {
    match exchange_rate_spec(l, mint_supply) {
        Err(e) => Err(e),
        Ok(rate) => match liquidity_to_receipt_spec(amount, rate) {
            Err(e) => Err(e),
            Ok(minted) => if l.available_amount + amount > u64::MAX {
                Err(LendingError::MathOverflow)
            } else {
                Ok((minted, ReserveLiquidity { available_amount: (l.available_amount + amount) as u64, ..l }))
            },
        },
    }
}

/// Liquidity paid out for redeemed receipts, and the pool after it.
pub open spec fn redeem_spec(l: ReserveLiquidity, amount: u64, mint_supply: u64) -> Result<(u64, ReserveLiquidity), LendingError> {
    match exchange_rate_spec(l, mint_supply) {
        Err(e) => Err(e),
        Ok(rate) => match receipt_to_liquidity_spec(amount, rate) {
            Err(e) => Err(e),
            Ok(out) => if out > l.available_amount {
                Err(LendingError::InsufficientLiquidity)
            } else {
                Ok((out, ReserveLiquidity { available_amount: (l.available_amount - out) as u64, ..l }))
            },
        },
    }
}

pub open spec fn borrow_liquidity_spec(l: ReserveLiquidity, amount: u64) -> Result<ReserveLiquidity, LendingError> {
    if amount > l.available_amount {
        Err(LendingError::InsufficientLiquidity)
    } else if l.borrowed_amount + amount > u64::MAX {
        Err(LendingError::MathOverflow)
    } else {
        Ok(ReserveLiquidity {
            available_amount: (l.available_amount - amount) as u64,
            borrowed_amount: (l.borrowed_amount + amount) as u64,
            ..l
        })
    }
}

pub open spec fn repay_liquidity_spec(l: ReserveLiquidity, amount: u64) -> Result<ReserveLiquidity, LendingError> {
    if l.available_amount + amount > u64::MAX || amount > l.borrowed_amount {
        Err(LendingError::MathOverflow)
    } else {
        Ok(ReserveLiquidity {
            available_amount: (l.available_amount + amount) as u64,
            borrowed_amount: (l.borrowed_amount - amount) as u64,
            ..l
        })
    }
}

pub open spec fn min_u64(a: u64, b: u64) -> u64 {
    if a <= b { a } else { b }
}

impl ReserveLiquidity {
    pub fn new(args: NewReserveLiquidityArgs) -> (r: ReserveLiquidity)
        ensures
            r.mint == args.mint,
            r.price_update_v2 == args.price_update_v2,
            r.available_amount == 0,
            r.borrowed_amount == 0,
            r.cumulative_borrow_index == fx_one(),
            r.accumulated_platform_fees == 0,
            r.market_price.raw() == 0,
    {
        ReserveLiquidity {
            mint: args.mint,
            price_update_v2: args.price_update_v2,
            available_amount: 0,
            borrowed_amount: 0,
            cumulative_borrow_index: Fx::one(),
            accumulated_platform_fees: 0,
            market_price: Fx::zero(),
        }
    }

    /// All liquidity underwritten by the reserve: available plus borrowed.
    pub fn total_supply(&self) -> (r: Result<u64, LendingError>)
        ensures
            self.available_amount + self.borrowed_amount <= u64::MAX ==> r == Ok::<u64, LendingError>((self.available_amount + self.borrowed_amount) as u64),
            self.available_amount + self.borrowed_amount > u64::MAX ==> r == Err::<u64, LendingError>(LendingError::MathOverflow),
    {
        match self.available_amount.checked_add(self.borrowed_amount) {
            Some(t) => Ok(t),
            None => Err(LendingError::MathOverflow),
        }
    }

    pub fn receipt_exchange_rate(&self, mint_supply: u64) -> (r: Result<Fx, LendingError>)
        ensures
            r == exchange_rate_spec(*self, mint_supply),
    {
        let total = match self.total_supply() {
            Ok(t) => t,
            Err(e) => return Err(e),
        };
        if total == 0 || mint_supply == 0 {
            Ok(Fx::one())
        } else {
            Fx::from_u64(mint_supply).safe_div(Fx::from_u64(total))
        }
    }

    pub fn receipt_to_liquidity(&self, receipt_mint_amount: u64, exchange_rate: Fx) -> (r: Result<u64, LendingError>)
        ensures
            r == receipt_to_liquidity_spec(receipt_mint_amount, exchange_rate),
    {
        match Fx::from_u64(receipt_mint_amount).safe_div(exchange_rate) {
            Ok(x) => x.floor_to_u64(),
            Err(e) => Err(e),
        }
    }

    pub fn liquidity_to_receipt(&self, liquidity_amount: u64, exchange_rate: Fx) -> (r: Result<u64, LendingError>)
        ensures
            r == liquidity_to_receipt_spec(liquidity_amount, exchange_rate),
    {
        match Fx::from_u64(liquidity_amount).safe_mul(exchange_rate) {
            Ok(x) => x.ceil_to_u64(),
            Err(e) => Err(e),
        }
    }

    pub fn utilization_rate(&self) -> (r: Result<Fx, LendingError>)
        ensures
            r == utilization_spec(*self),
            self.available_amount == 0 ==> r == Ok::<Fx, LendingError>(Fx { bits: 0 }),
    {
        if self.available_amount == 0 {
            Ok(Fx::zero())
        } else {
            Fx::from_u64(self.borrowed_amount).safe_div(Fx::from_u64(self.available_amount))
        }
    }

    pub fn deposit_liquidity(&mut self, liquidity_amount: u64, receipt_mint_supply: u64) -> (r: Result<u64, LendingError>)
        ensures
            match deposit_spec(*old(self), liquidity_amount, receipt_mint_supply) {
                Ok((minted, next)) => r == Ok::<u64, LendingError>(minted) && *final(self) == next,
                Err(e) => r == Err::<u64, LendingError>(e) && *final(self) == *old(self),
            },
    {
        let rate = match self.receipt_exchange_rate(receipt_mint_supply) {
            Ok(v) => v,
            Err(e) => return Err(e),
        };
        let minted = match self.liquidity_to_receipt(liquidity_amount, rate) {
            Ok(v) => v,
            Err(e) => return Err(e),
        };
        match self.available_amount.checked_add(liquidity_amount) {
            Some(v) => {
                self.available_amount = v;
                Ok(minted)
            },
            None => Err(LendingError::MathOverflow),
        }
    }

    pub fn redeem_receipt(&mut self, receipt_mint_amount: u64, receipt_mint_supply: u64) -> (r: Result<u64, LendingError>)
        ensures
            match redeem_spec(*old(self), receipt_mint_amount, receipt_mint_supply) {
                Ok((out, next)) => r == Ok::<u64, LendingError>(out) && *final(self) == next,
                Err(e) => r == Err::<u64, LendingError>(e) && *final(self) == *old(self),
            },
    {
        let rate = match self.receipt_exchange_rate(receipt_mint_supply) {
            Ok(v) => v,
            Err(e) => return Err(e),
        };
        let out = match self.receipt_to_liquidity(receipt_mint_amount, rate) {
            Ok(v) => v,
            Err(e) => return Err(e),
        };
        if out > self.available_amount {
            return Err(LendingError::InsufficientLiquidity);
        }
        self.available_amount = self.available_amount - out;
        Ok(out)
    }

    pub fn borrow_liquidity(&mut self, borrow_amount: u64) -> (r: Result<(), LendingError>)
        ensures
            match borrow_liquidity_spec(*old(self), borrow_amount) {
                Ok(next) => r is Ok && *final(self) == next,
                Err(e) => r == Err::<(), LendingError>(e) && *final(self) == *old(self),
            },
    {
        if borrow_amount > self.available_amount {
            return Err(LendingError::InsufficientLiquidity);
        }
        let borrowed = match self.borrowed_amount.checked_add(borrow_amount) {
            Some(v) => v,
            None => return Err(LendingError::MathOverflow),
        };
        self.available_amount = self.available_amount - borrow_amount;
        self.borrowed_amount = borrowed;
        Ok(())
    }

    /// Returns liquidity to the pool; interest is already part of `borrowed_amount`.
    pub fn repay_liquidity(&mut self, repay_amount: u64) -> (r: Result<(), LendingError>)
        ensures
            match repay_liquidity_spec(*old(self), repay_amount) {
                Ok(next) => r is Ok && *final(self) == next,
                Err(e) => r == Err::<(), LendingError>(e) && *final(self) == *old(self),
            },
    {
        let available = match self.available_amount.checked_add(repay_amount) {
            Some(v) => v,
            None => return Err(LendingError::MathOverflow),
        };
        let borrowed = match self.borrowed_amount.checked_sub(repay_amount) {
            Some(v) => v,
            None => return Err(LendingError::MathOverflow),
        };
        self.available_amount = available;
        self.borrowed_amount = borrowed;
        Ok(())
    }

    /// Pays out the platform fees that the available liquidity can cover.
    pub fn redeem_fees(&mut self) -> (r: Result<u64, LendingError>)
        ensures
            r == Ok::<u64, LendingError>(min_u64(old(self).accumulated_platform_fees, old(self).available_amount)),
            final(self).available_amount == old(self).available_amount - min_u64(old(self).accumulated_platform_fees, old(self).available_amount),
            final(self).accumulated_platform_fees == old(self).accumulated_platform_fees - min_u64(old(self).accumulated_platform_fees, old(self).available_amount),
            (ReserveLiquidity { available_amount: old(self).available_amount, accumulated_platform_fees: old(self).accumulated_platform_fees, ..*final(self) }) == *old(self),
    {
        let amount = if self.accumulated_platform_fees <= self.available_amount {
            self.accumulated_platform_fees
        } else {
            self.available_amount
        };
        self.available_amount = self.available_amount - amount;
        self.accumulated_platform_fees = self.accumulated_platform_fees - amount;
        Ok(amount)
    }
}

/// Slots in a year at 400 ms per slot.
pub const SLOTS_PER_YEAR: u64 = 78840000;

/// A per-asset pool of a market.
#[derive(Clone, Copy, Debug, PartialEq, Eq, Structural)]
pub struct Reserve {
    pub market: Pubkey,
    pub last_update: LastUpdate,
    pub liquidity: ReserveLiquidity,
    pub config: ReserveConfig,
    pub liquidity_mint_decimals: u8,
    pub bump: u8,
    pub receipt_mint_bump: u8,
}

pub struct NewReserveArgs {
    pub market: Pubkey,
    pub liquidity: ReserveLiquidity,
    pub config: ReserveConfig,
    pub liquidity_mint_decimals: u8,
    pub bump: u8,
    pub receipt_mint_bump: u8,
    pub slot: u64,
}

/// The annual borrow rate on the two-segment utilization curve.
pub open spec fn borrow_rate_spec(r: Reserve) -> Result<Fx, LendingError> {
    let c = r.config;
    match utilization_spec(r.liquidity) {
        Err(e) => Err(e),
        Ok(u) => {
            let opt = fx_bps(c.optimal_utilization_rate_bps as int);
            if u.raw() < opt.raw() || c.optimal_utilization_rate_bps == MAX_BASIS_POINTS {
                match fx_div(u, opt) {
                    Err(e) => Err(e),
                    Ok(n) => if c.optimal_borrow_rate_bps < c.min_borrow_rate_bps {
                        Err(LendingError::MathOverflow)
                    } else {
                        match fx_mul(n, fx_bps(c.optimal_borrow_rate_bps - c.min_borrow_rate_bps)) {
                            Err(e) => Err(e),
                            Ok(m) => fx_add(m, fx_bps(c.min_borrow_rate_bps as int)),
                        }
                    },
                }
            } else {
                match fx_sub(u, opt) {
                    Err(e) => Err(e),
                    Ok(d) => if MAX_BASIS_POINTS < c.optimal_utilization_rate_bps {
                        Err(LendingError::MathOverflow)
                    } else {
                        match fx_div(d, fx_bps(MAX_BASIS_POINTS - c.optimal_utilization_rate_bps)) {
                            Err(e) => Err(e),
                            Ok(n) => if c.max_borrow_rate_bps < c.optimal_borrow_rate_bps {
                                Err(LendingError::MathOverflow)
                            } else {
                                match fx_mul(n, fx_bps(c.max_borrow_rate_bps - c.optimal_borrow_rate_bps)) {
                                    Err(e) => Err(e),
                                    Ok(m) => fx_add(m, fx_bps(c.optimal_borrow_rate_bps as int)),
                                }
                            },
                        }
                    },
                }
            }
        },
    }
}

/// `(1 + rate / SLOTS_PER_YEAR)^slots`.
pub open spec fn compound_spec(rate: Fx, slots: u64) -> Result<Fx, LendingError> {
    match fx_div(rate, fx_of(SLOTS_PER_YEAR as int)) {
        Err(e) => Err(e),
        Ok(per_slot) => match fx_add(fx_one(), per_slot) {
            Err(e) => Err(e),
            Ok(base) => fx_pow(base, slots as nat),
        },
    }
}

/// The reserve after interest has been compounded up to `slot`: the index grows by
/// the compounded factor, the borrowed amount by the same factor rounded up, and the
/// platform takes its share of the new debt, rounded up.
pub open spec fn accrue_spec(r: Reserve, slot: u64) -> Result<Reserve, LendingError> {
    let l = r.liquidity;
    if slot < r.last_update.slot {
        Err(LendingError::MathOverflow)
    } else if slot == r.last_update.slot {
        Ok(r)
    } else {
        match borrow_rate_spec(r) {
            Err(e) => Err(e),
            Ok(rate) => match compound_spec(rate, (slot - r.last_update.slot) as u64) {
                Err(e) => Err(e),
                Ok(factor) => match fx_mul(factor, l.cumulative_borrow_index) {
                    Err(e) => Err(e),
                    Ok(index) => match fx_mul(factor, fx_of(l.borrowed_amount as int)) {
                        Err(e) => Err(e),
                        Ok(grown) => match fx_ceil_u64(grown) {
                            Err(e) => Err(e),
                            Ok(borrowed) => if borrowed < l.borrowed_amount {
                                Err(LendingError::MathOverflow)
                            } else {
                                match fx_mul(fx_of(borrowed - l.borrowed_amount), fx_bps(r.config.fees.platform_fee_bps as int)) {
                                    Err(e) => Err(e),
                                    Ok(x) => match fx_ceil_u64(x) {
                                        Err(e) => Err(e),
                                        Ok(fee) => if l.accumulated_platform_fees + fee > u64::MAX {
                                            Err(LendingError::MathOverflow)
                                        } else {
                                            Ok(Reserve {
                                                last_update: LastUpdate { is_stale: false, slot },
                                                liquidity: ReserveLiquidity {
                                                    cumulative_borrow_index: index,
                                                    borrowed_amount: borrowed,
                                                    accumulated_platform_fees: (l.accumulated_platform_fees + fee) as u64,
                                                    ..l
                                                },
                                                ..r
                                            })
                                        },
                                    },
                                }
                            },
                        },
                    },
                },
            },
        }
    }
}

/// A refresh: the new oracle price, interest up to `slot`, and a fresh clock.
pub open spec fn refresh_spec(r: Reserve, price: Price, slot: u64) -> Result<Reserve, LendingError> {
    match price_to_fx_spec(price) {
        Err(e) => Err(e),
        Ok(p) => match accrue_spec(Reserve { liquidity: ReserveLiquidity { market_price: p, ..r.liquidity }, ..r }, slot) {
            Err(e) => Err(e),
            Ok(n) => Ok(Reserve { last_update: LastUpdate { is_stale: false, slot }, ..n }),
        },
    }
}

/// `amount * price / 10^decimals`.
pub open spec fn market_value_spec(amount: u64, price: Fx, decimals: u8) -> Result<Fx, LendingError> {
    if pow10(decimals as nat) > u64::MAX {
        Err(LendingError::MathOverflow)
    } else {
        match fx_mul(fx_of(amount as int), price) {
            Err(e) => Err(e),
            Ok(p) => fx_div(p, fx_of(pow10(decimals as nat))),
        }
    }
}

/// The amount a borrow request resolves to. The `u64::MAX` request takes all that
/// `max_value` buys, `floor(max_value * 10^decimals / price)`, capped by the available
/// liquidity; any other request stands if its market value is within `max_value`.
pub open spec fn borrow_amount_spec(r: Reserve, amount: u64, max_value: Fx) -> Result<u64, LendingError> {
    let decimals = r.liquidity_mint_decimals;
    if pow10(decimals as nat) > u64::MAX {
        Err(LendingError::MathOverflow)
    } else if amount == u64::MAX {
        match fx_mul(max_value, fx_of(pow10(decimals as nat))) {
            Err(e) => Err(e),
            Ok(scaled) => match fx_div(scaled, r.liquidity.market_price) {
                Err(e) => Err(e),
                Ok(q) => match fx_floor_u64(q) {
                    Err(e) => Err(e),
                    Ok(n) => Ok(min_u64(n, r.liquidity.available_amount)),
                },
            },
        }
    } else {
        match market_value_spec(amount, r.liquidity.market_price, decimals) {
            Err(e) => Err(e),
            Ok(v) => if v.raw() <= max_value.raw() { Ok(amount) } else { Err(LendingError::BorrowTooLarge) },
        }
    }
}

/// Repay and withdraw amounts of a liquidation: at most the close factor of the
/// borrowed value is repaid, and the liquidator receives that value times the bonus in
/// collateral, scaled down when the collateral position cannot cover it.
pub open spec fn liquidation_spec(r: Reserve, borrowed_value: Fx, l: ObligationLiquidity, c: ObligationCollateral) -> Result<(u64, u64), LendingError> {
    match fx_add(fx_one(), fx_bps(r.config.liquidation_bonus_bps as int)) {
        Err(e) => Err(e),
        Ok(bonus) => match max_liquidation_spec(borrowed_value, l, fx_bps(r.config.liquidation_close_factor_bps as int)) {
            Err(e) => Err(e),
            Ok(m) => {
                let amount = if m.raw() <= fx_of(l.borrowed_amount as int).raw() { m } else { fx_of(l.borrowed_amount as int) };
                match fx_div(amount, fx_of(l.borrowed_amount as int)) {
                    Err(e) => Err(e),
                    Ok(ratio) => match fx_mul(ratio, l.market_value) {
                        Err(e) => Err(e),
                        Ok(v) => match fx_mul(v, bonus) {
                            Err(e) => Err(e),
                            Ok(value) => if value.raw() > c.market_value.raw() {
                                match fx_div(c.market_value, value) {
                                    Err(e) => Err(e),
                                    Ok(repay_ratio) => match fx_mul(amount, repay_ratio) {
                                        Err(e) => Err(e),
                                        Ok(x) => match fx_ceil_u64(x) {
                                            Err(e) => Err(e),
                                            Ok(repay) => Ok((repay, c.deposited_amount)),
                                        },
                                    },
                                }
                            } else if value.raw() == c.market_value.raw() {
                                match fx_ceil_u64(amount) {
                                    Err(e) => Err(e),
                                    Ok(repay) => Ok((repay, c.deposited_amount)),
                                }
                            } else {
                                match fx_ceil_u64(amount) {
                                    Err(e) => Err(e),
                                    Ok(repay) => match fx_div(value, c.market_value) {
                                        Err(e) => Err(e),
                                        Ok(withdraw_ratio) => match fx_mul(withdraw_ratio, fx_of(c.deposited_amount as int)) {
                                            Err(e) => Err(e),
                                            Ok(x) => match fx_floor_u64(x) {
                                                Err(e) => Err(e),
                                                Ok(withdraw) => Ok((repay, withdraw)),
                                            },
                                        },
                                    },
                                }
                            },
                        },
                    },
                }
            },
        },
    }
}

impl Reserve {
    pub fn new(args: NewReserveArgs) -> (r: Reserve)
        ensures
            r.market == args.market,
            r.liquidity == args.liquidity,
            r.config == args.config,
            r.liquidity_mint_decimals == args.liquidity_mint_decimals,
            r.bump == args.bump,
            r.receipt_mint_bump == args.receipt_mint_bump,
            r.last_update.is_stale,
            r.last_update.slot == args.slot,
    {
        Reserve {
            market: args.market,
            last_update: LastUpdate::new(NewLastUpdateArgs { slot: args.slot }),
            liquidity: args.liquidity,
            config: args.config,
            liquidity_mint_decimals: args.liquidity_mint_decimals,
            bump: args.bump,
            receipt_mint_bump: args.receipt_mint_bump,
        }
    }

    pub fn current_borrow_rate(&self) -> (r: Result<Fx, LendingError>)
        ensures
            r == borrow_rate_spec(*self),
    {
        let c = self.config;
        let utilization = match self.liquidity.utilization_rate() {
            Ok(v) => v,
            Err(e) => return Err(e),
        };
        let optimal = match bps_to_i80f48(c.optimal_utilization_rate_bps) {
            Ok(v) => v,
            Err(e) => return Err(e),
        };
        if utilization.bits < optimal.bits || c.optimal_utilization_rate_bps == MAX_BASIS_POINTS {
            let normalized = match utilization.safe_div(optimal) {
                Ok(v) => v,
                Err(e) => return Err(e),
            };
            let min_rate = match bps_to_i80f48(c.min_borrow_rate_bps) {
                Ok(v) => v,
                Err(e) => return Err(e),
            };
            let range_bps = match c.optimal_borrow_rate_bps.checked_sub(c.min_borrow_rate_bps) {
                Some(v) => v,
                None => return Err(LendingError::MathOverflow),
            };
            let range = match bps_to_i80f48(range_bps) {
                Ok(v) => v,
                Err(e) => return Err(e),
            };
            match normalized.safe_mul(range) {
                Ok(m) => m.safe_add(min_rate),
                Err(e) => Err(e),
            }
        } else {
            let excess = match utilization.safe_sub(optimal) {
                Ok(v) => v,
                Err(e) => return Err(e),
            };
            let rest_bps = match MAX_BASIS_POINTS.checked_sub(c.optimal_utilization_rate_bps) {
                Some(v) => v,
                None => return Err(LendingError::MathOverflow),
            };
            let rest = match bps_to_i80f48(rest_bps) {
                Ok(v) => v,
                Err(e) => return Err(e),
            };
            let normalized = match excess.safe_div(rest) {
                Ok(v) => v,
                Err(e) => return Err(e),
            };
            let base_rate = match bps_to_i80f48(c.optimal_borrow_rate_bps) {
                Ok(v) => v,
                Err(e) => return Err(e),
            };
            let range_bps = match c.max_borrow_rate_bps.checked_sub(c.optimal_borrow_rate_bps) {
                Some(v) => v,
                None => return Err(LendingError::MathOverflow),
            };
            let range = match bps_to_i80f48(range_bps) {
                Ok(v) => v,
                Err(e) => return Err(e),
            };
            match normalized.safe_mul(range) {
                Ok(m) => m.safe_add(base_rate),
                Err(e) => Err(e),
            }
        }
    }

    pub fn compound_interest_rate(&self, current_rate: Fx, slots_elapsed: u64) -> (r: Result<Fx, LendingError>)
        ensures
            r == compound_spec(current_rate, slots_elapsed),
    {
        let per_slot = match current_rate.safe_div(Fx::from_u64(SLOTS_PER_YEAR)) {
            Ok(v) => v,
            Err(e) => return Err(e),
        };
        let base = match Fx::one().safe_add(per_slot) {
            Ok(v) => v,
            Err(e) => return Err(e),
        };
        i80f48_pow(base, slots_elapsed)
    }

    pub fn accrue_interest_and_fees(&mut self, current_slot: u64) -> (r: Result<(), LendingError>)
        ensures
            match accrue_spec(*old(self), current_slot) {
                Ok(next) => r is Ok && *final(self) == next,
                Err(e) => r == Err::<(), LendingError>(e) && *final(self) == *old(self),
            },
    {
        let elapsed = match self.last_update.slots_elapsed(current_slot) {
            Ok(v) => v,
            Err(e) => return Err(e),
        };
        if elapsed == 0 {
            return Ok(());
        }
        let rate = match self.current_borrow_rate() {
            Ok(v) => v,
            Err(e) => return Err(e),
        };
        let old_borrowed = self.liquidity.borrowed_amount;
        let factor = match self.compound_interest_rate(rate, elapsed) {
            Ok(v) => v,
            Err(e) => return Err(e),
        };
        let index = match factor.safe_mul(self.liquidity.cumulative_borrow_index) {
            Ok(v) => v,
            Err(e) => return Err(e),
        };
        let grown = match factor.safe_mul(Fx::from_u64(old_borrowed)) {
            Ok(v) => v,
            Err(e) => return Err(e),
        };
        let borrowed = match grown.ceil_to_u64() {
            Ok(v) => v,
            Err(e) => return Err(e),
        };
        let new_debt = match borrowed.checked_sub(old_borrowed) {
            Some(v) => v,
            None => return Err(LendingError::MathOverflow),
        };
        let fee_rate = match bps_to_i80f48(self.config.fees.platform_fee_bps) {
            Ok(v) => v,
            Err(e) => return Err(e),
        };
        let fee = match Fx::from_u64(new_debt).safe_mul(fee_rate) {
            Ok(x) => match x.ceil_to_u64() {
                Ok(v) => v,
                Err(e) => return Err(e),
            },
            Err(e) => return Err(e),
        };
        let fees = match self.liquidity.accumulated_platform_fees.checked_add(fee) {
            Some(v) => v,
            None => return Err(LendingError::MathOverflow),
        };
        self.last_update.update_slot(current_slot);
        self.liquidity.cumulative_borrow_index = index;
        self.liquidity.borrowed_amount = borrowed;
        self.liquidity.accumulated_platform_fees = fees;
        Ok(())
    }

    /// Takes a new oracle price, compounds interest up to `slot` and clears the stale flag.
    pub fn refresh(&mut self, price: Price, slot: u64) -> (r: Result<(), LendingError>)
        ensures
            match refresh_spec(*old(self), price, slot) {
                Ok(next) => r is Ok && *final(self) == next,
                Err(e) => r == Err::<(), LendingError>(e) && *final(self) == *old(self),
            },
    {
        let market_price = match price_to_fx(price) {
            Ok(v) => v,
            Err(e) => return Err(e),
        };
        let saved = *self;
        self.liquidity.market_price = market_price;
        match self.accrue_interest_and_fees(slot) {
            Ok(()) => {},
            Err(e) => {
                *self = saved;
                return Err(e);
            },
        }
        self.last_update.update_slot(slot);
        Ok(())
    }

    pub fn calculate_borrow(&self, amount_to_borrow: u64, max_borrow_value: Fx) -> (r: Result<u64, LendingError>)
        ensures
            r == borrow_amount_spec(*self, amount_to_borrow, max_borrow_value),
    {
        let decimals = self.liquidity_mint_decimals as u32;
        assert(decimals as nat == self.liquidity_mint_decimals as nat);
        let unit = match checked_pow10(decimals) {
            Some(v) => v,
            None => return Err(LendingError::MathOverflow),
        };
        if unit > u64::MAX as u128 {
            return Err(LendingError::MathOverflow);
        }
        if amount_to_borrow == u64::MAX {
            let scaled = match max_borrow_value.safe_mul(Fx::from_u64(unit as u64)) {
                Ok(v) => v,
                Err(e) => return Err(e),
            };
            let q = match scaled.safe_div(self.liquidity.market_price) {
                Ok(v) => v,
                Err(e) => return Err(e),
            };
            let n = match q.floor_to_u64() {
                Ok(v) => v,
                Err(e) => return Err(e),
            };
            Ok(if n <= self.liquidity.available_amount { n } else { self.liquidity.available_amount })
        } else {
            let value = match market_value(amount_to_borrow, self) {
                Ok(v) => v,
                Err(e) => return Err(e),
            };
            if value.bits <= max_borrow_value.bits {
                Ok(amount_to_borrow)
            } else {
                Err(LendingError::BorrowTooLarge)
            }
        }
    }

    /// The amount a repayment resolves to: everything owed for `u64::MAX`, else at most what is owed.
    pub fn calculate_repay(&self, amount_to_repay: u64, borrowed_amount: u64) -> (r: Result<u64, LendingError>)
        ensures
            amount_to_repay == u64::MAX ==> r == Ok::<u64, LendingError>(borrowed_amount),
            amount_to_repay != u64::MAX ==> r == Ok::<u64, LendingError>(min_u64(amount_to_repay, borrowed_amount)),
    {
        if amount_to_repay == u64::MAX {
            Ok(borrowed_amount)
        } else if amount_to_repay <= borrowed_amount {
            Ok(amount_to_repay)
        } else {
            Ok(borrowed_amount)
        }
    }
    pub fn calculate_liquidation(
        &self,
        obligation: &Obligation,
        obligation_liquidity: &ObligationLiquidity,
        obligation_collateral: &ObligationCollateral,
    ) -> (r: Result<(u64, u64), LendingError>)
        ensures
            r == liquidation_spec(*self, obligation.borrowed_value, *obligation_liquidity, *obligation_collateral),
    {
        let bonus_bps = match bps_to_i80f48(self.config.liquidation_bonus_bps) {
            Ok(v) => v,
            Err(e) => return Err(e),
        };
        let bonus = match Fx::one().safe_add(bonus_bps) {
            Ok(v) => v,
            Err(e) => return Err(e),
        };
        let close_factor = match bps_to_i80f48(self.config.liquidation_close_factor_bps) {
            Ok(v) => v,
            Err(e) => return Err(e),
        };
        let m = match obligation.max_liquidation_amount(obligation_liquidity, close_factor) {
            Ok(v) => v,
            Err(e) => return Err(e),
        };
        let borrowed = Fx::from_u64(obligation_liquidity.borrowed_amount);
        let amount = m.min(borrowed);
        let ratio = match amount.safe_div(borrowed) {
            Ok(v) => v,
            Err(e) => return Err(e),
        };
        let v = match ratio.safe_mul(obligation_liquidity.market_value) {
            Ok(v) => v,
            Err(e) => return Err(e),
        };
        let value = match v.safe_mul(bonus) {
            Ok(v) => v,
            Err(e) => return Err(e),
        };
        let collateral_value = obligation_collateral.market_value;
        if value.bits > collateral_value.bits {
            let repay_ratio = match collateral_value.safe_div(value) {
                Ok(v) => v,
                Err(e) => return Err(e),
            };
            let repay = match amount.safe_mul(repay_ratio) {
                Ok(x) => match x.ceil_to_u64() {
                    Ok(v) => v,
                    Err(e) => return Err(e),
                },
                Err(e) => return Err(e),
            };
            Ok((repay, obligation_collateral.deposited_amount))
        } else if value.bits == collateral_value.bits {
            let repay = match amount.ceil_to_u64() {
                Ok(v) => v,
                Err(e) => return Err(e),
            };
            Ok((repay, obligation_collateral.deposited_amount))
        } else {
            let repay = match amount.ceil_to_u64() {
                Ok(v) => v,
                Err(e) => return Err(e),
            };
            let withdraw_ratio = match value.safe_div(collateral_value) {
                Ok(v) => v,
                Err(e) => return Err(e),
            };
            let withdraw = match withdraw_ratio.safe_mul(Fx::from_u64(obligation_collateral.deposited_amount)) {
                Ok(x) => match x.floor_to_u64() {
                    Ok(v) => v,
                    Err(e) => return Err(e),
                },
                Err(e) => return Err(e),
            };
            Ok((repay, withdraw))
        }
    }
}

/// The market value of `amount` units of `reserve`'s liquidity.
pub fn market_value(amount: u64, reserve: &Reserve) -> (r: Result<Fx, LendingError>)
    ensures
        r == market_value_spec(amount, reserve.liquidity.market_price, reserve.liquidity_mint_decimals),
{
    let p = match Fx::from_u64(amount).safe_mul(reserve.liquidity.market_price) {
        Ok(v) => v,
        Err(e) => return Err(e),
    };
    let decimals = reserve.liquidity_mint_decimals as u32;
    assert(decimals as nat == reserve.liquidity_mint_decimals as nat);
    let unit = match checked_pow10(decimals) {
        Some(v) => v,
        None => {
            assert(pow10(reserve.liquidity_mint_decimals as nat) > u64::MAX);
            return Err(LendingError::MathOverflow);
        },
    };
    assert(unit == pow10(reserve.liquidity_mint_decimals as nat));
    if unit > u64::MAX as u128 {
        return Err(LendingError::MathOverflow);
    }
    p.safe_div(Fx::from_u64(unit as u64))
}

} // verus!
