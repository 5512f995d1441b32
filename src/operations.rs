//! The market's operations, as decisions over the records they touch. Token
//! movements are left to the caller: each operation returns the amounts to move.
use vstd::prelude::*;
use crate::error::LendingError;
use crate::fx::{bps_to_i80f48, fx_bps, fx_div, fx_floor_u64, fx_mul, fx_of, fx_one, fx_sub, Fx};
use crate::last_update::LastUpdate;
use crate::laws::law_max_borrow_within_value;
use crate::obligation::{has_borrow, has_deposit, max_withdraw_spec, same_header, same_obligation, MAX_OBLIGATION_RESERVES, Obligation, ObligationCollateral, ObligationLiquidity};
use crate::pubkey::Pubkey;
use crate::reserve::{
    market_value_spec, borrow_amount_spec, borrow_liquidity_spec, deposit_spec, liquidation_spec, min_u64, redeem_spec,
    repay_liquidity_spec, exchange_rate_spec, receipt_to_liquidity_spec, liquidity_to_receipt_spec, NewReserveArgs, NewReserveLiquidityArgs, Reserve, ReserveConfig, ReserveFees,
    ReserveLiquidity,
};
use crate::validate::{check_fresh, fresh, valid_config, validate_config_spec, validate_bps, validate_reserve_config};

verus! {

/// The checks a borrow makes before sizing: a non-zero request, the reserve of the
/// obligation's market, both records refreshed in `slot`, and collateral of some value.
pub open spec fn borrow_ready(reserve: Reserve, obligation: Obligation, amount: u64, slot: u64) -> bool {
    amount > 0 && obligation.market == reserve.market && fresh(reserve.last_update, slot)
        && fresh(obligation.last_update, slot) && obligation.deposits@.len() > 0 && obligation.deposited_value.raw() > 0
}

/// Borrows from `reserve` against the obligation's collateral. `u64::MAX` borrows as much
/// as the remaining borrow value buys. Returns the amount to pay out.
pub fn borrow_obligation_liquidity(
    reserve: &mut Reserve,
    reserve_key: Pubkey,
    obligation: &mut Obligation,
    liquidity_amount: u64,
    slot: u64,
) -> (r: Result<u64, LendingError>)
    requires
        old(obligation).wf(),
    ensures
        final(obligation).wf(),
        r is Err ==> *final(reserve) == *old(reserve) && same_obligation(*final(obligation), *old(obligation)),
        liquidity_amount == 0 ==> r == Err::<u64, LendingError>(LendingError::InvalidBorrowAmount),
        liquidity_amount > 0 && old(obligation).market != old(reserve).market
            ==> r == Err::<u64, LendingError>(LendingError::InvalidObligationMarket),
        r is Ok ==> borrow_ready(*old(reserve), *old(obligation), liquidity_amount, slot),
        fx_sub(old(obligation).weighted_allowed_borrow_value, old(obligation).borrowed_value) matches Ok(rest)
            ==> (borrow_ready(*old(reserve), *old(obligation), liquidity_amount, slot) ==> (
            (rest.raw() < 0 ==> r == Err::<u64, LendingError>(LendingError::MaxBorrowValueZero))
            && (rest.raw() >= 0 && borrow_amount_spec(*old(reserve), liquidity_amount, rest) is Err
                ==> r == Err::<u64, LendingError>(borrow_amount_spec(*old(reserve), liquidity_amount, rest)->Err_0)))),
        fx_sub(old(obligation).weighted_allowed_borrow_value, old(obligation).borrowed_value) matches Ok(rest)
            ==> (borrow_amount_spec(*old(reserve), liquidity_amount, rest) matches Ok(n) ==> (
            borrow_ready(*old(reserve), *old(obligation), liquidity_amount, slot)
            && rest.raw() >= 0 && n > 0
            && borrow_liquidity_spec(old(reserve).liquidity, n) is Ok
            && (has_borrow(old(obligation).borrows@, reserve_key) || old(obligation).borrows@.len() < MAX_OBLIGATION_RESERVES)
            && (forall|i: int| 0 <= i < old(obligation).borrows@.len() && #[trigger] old(obligation).borrows@[i].reserve == reserve_key
                ==> old(obligation).borrows@[i].borrowed_amount + n <= u64::MAX)
            ==> r == Ok::<u64, LendingError>(n))),
        r matches Ok(n) ==> (fx_sub(old(obligation).weighted_allowed_borrow_value, old(obligation).borrowed_value) matches Ok(rest)
            && n > 0
            && rest.raw() >= 0
            && borrow_amount_spec(*old(reserve), liquidity_amount, rest) == Ok::<u64, LendingError>(n)
            && borrow_liquidity_spec(old(reserve).liquidity, n) == Ok::<_, LendingError>(final(reserve).liquidity)
            && final(reserve).last_update.is_stale && final(obligation).last_update.is_stale
            && final(obligation).deposits@ == old(obligation).deposits@
            && (market_value_spec(n, old(reserve).liquidity.market_price, old(reserve).liquidity_mint_decimals) matches Ok(v)
                && v.raw() <= rest.raw())
            && (!has_borrow(old(obligation).borrows@, reserve_key) ==> final(obligation).borrows@ == old(obligation).borrows@.push(
                ObligationLiquidity { reserve: reserve_key, borrowed_amount: n, cumulative_borrow_index: fx_one(), market_value: Fx { bits: 0 } }))
            && (has_borrow(old(obligation).borrows@, reserve_key) ==> exists|i: int| 0 <= i < old(obligation).borrows@.len()
                && old(obligation).borrows@[i].reserve == reserve_key
                && final(obligation).borrows@ == old(obligation).borrows@.update(i, ObligationLiquidity {
                    borrowed_amount: (old(obligation).borrows@[i].borrowed_amount + n) as u64, ..old(obligation).borrows@[i] }))),
{
    if liquidity_amount == 0 {
        return Err(LendingError::InvalidBorrowAmount);
    }
    if obligation.market != reserve.market {
        return Err(LendingError::InvalidObligationMarket);
    }
    match check_fresh(&reserve.last_update, slot, LendingError::ReserveStale) {
        Ok(()) => {},
        Err(e) => return Err(e),
    }
    match check_fresh(&obligation.last_update, slot, LendingError::ObligationStale) {
        Ok(()) => {},
        Err(e) => return Err(e),
    }
    if obligation.deposits.len() == 0 {
        return Err(LendingError::ObligationDepositsEmpty);
    }
    if obligation.deposited_value.bits <= 0 {
        return Err(LendingError::ObligationDepositsValueZero);
    }
    let rest = match obligation.remaining_borrow_value() {
        Ok(v) => v,
        Err(e) => return Err(e),
    };
    if rest.bits < 0 {
        return Err(LendingError::MaxBorrowValueZero);
    }
    let n = match reserve.calculate_borrow(liquidity_amount, rest) {
        Ok(v) => v,
        Err(e) => return Err(e),
    };
    if n == 0 {
        return Err(LendingError::BorrowTooSmall);
    }
    proof {
        law_max_borrow_within_value(*reserve, rest);
    }
    let found = obligation.find_liquidity_index_in_borrows(reserve_key);
    let current: u64 = match found {
        Some(i) => obligation.borrows[i].borrowed_amount,
        None => 0,
    };
    let owed = match current.checked_add(n) {
        Some(v) => v,
        None => return Err(LendingError::MathOverflow),
    };
    let mut liquidity = reserve.liquidity;
    match liquidity.borrow_liquidity(n) {
        Ok(()) => {},
        Err(e) => return Err(e),
    }
    if found.is_none() && obligation.borrows.len() >= MAX_OBLIGATION_RESERVES {
        return Err(LendingError::ObligationPositionsFull);
    }
    let i = match obligation.find_or_add_liquidity_to_borrows(reserve_key) {
        Ok(i) => i,
        Err(e) => return Err(e),
    };
    let mut position = obligation.borrows[i];
    position.borrowed_amount = owed;
    obligation.borrows.set(i, position);
    proof {
        if has_borrow(old(obligation).borrows@, reserve_key) {
            assert(old(obligation).borrows@[i as int].reserve == reserve_key);
        }
        assert forall|a: int, b: int| 0 <= a < b < obligation.borrows@.len() implies obligation.borrows@[a].reserve != obligation.borrows@[b].reserve by {
            if a != i && b != i {
            }
        }
    }
    reserve.liquidity = liquidity;
    obligation.last_update.mark_stale();
    reserve.last_update.mark_stale();
    Ok(n)
}

/// Repays debt owed to `reserve`; `u64::MAX` repays all of it. Returns the amount to take in.
/// A position that is paid off is removed.
pub fn repay_obligation_liquidity(
    reserve: &mut Reserve,
    reserve_key: Pubkey,
    obligation: &mut Obligation,
    liquidity_amount: u64,
    slot: u64,
) -> (r: Result<u64, LendingError>)
    requires
        old(obligation).wf(),
    ensures
        final(obligation).wf(),
        r is Err ==> *final(reserve) == *old(reserve) && same_obligation(*final(obligation), *old(obligation)),
        liquidity_amount == 0 ==> r == Err::<u64, LendingError>(LendingError::InvalidRepayAmount),
        r is Ok ==> fresh(old(reserve).last_update, slot) && fresh(old(obligation).last_update, slot),
        liquidity_amount > 0 && fresh(old(reserve).last_update, slot) && fresh(old(obligation).last_update, slot)
            && !has_borrow(old(obligation).borrows@, reserve_key) ==> r is Err,
        liquidity_amount > 0 && fresh(old(reserve).last_update, slot) && fresh(old(obligation).last_update, slot)
            && (exists|i: int| 0 <= i < old(obligation).borrows@.len() && #[trigger] old(obligation).borrows@[i].reserve == reserve_key
                && old(obligation).borrows@[i].borrowed_amount > 0
                && repay_liquidity_spec(old(reserve).liquidity, old(obligation).borrows@[i].borrowed_amount) is Ok)
            ==> r is Ok,
        r matches Ok(n) ==> (exists|i: int| 0 <= i < old(obligation).borrows@.len()
            && #[trigger] old(obligation).borrows@[i].reserve == reserve_key
            && n == (if liquidity_amount == u64::MAX { old(obligation).borrows@[i].borrowed_amount }
                else { min_u64(liquidity_amount, old(obligation).borrows@[i].borrowed_amount) })
            && n > 0
            && (n == old(obligation).borrows@[i].borrowed_amount ==> final(obligation).borrows@ == old(obligation).borrows@.remove(i))
            && (n < old(obligation).borrows@[i].borrowed_amount ==> final(obligation).borrows@ == old(obligation).borrows@.update(i,
                ObligationLiquidity { borrowed_amount: (old(obligation).borrows@[i].borrowed_amount - n) as u64, ..old(obligation).borrows@[i] })))
            && repay_liquidity_spec(old(reserve).liquidity, n) == Ok::<_, LendingError>(final(reserve).liquidity)
            && final(obligation).deposits@ == old(obligation).deposits@
            && final(reserve).last_update.is_stale && final(obligation).last_update.is_stale,
{
    if liquidity_amount == 0 {
        return Err(LendingError::InvalidRepayAmount);
    }
    match check_fresh(&reserve.last_update, slot, LendingError::ReserveStale) {
        Ok(()) => {},
        Err(e) => return Err(e),
    }
    match check_fresh(&obligation.last_update, slot, LendingError::ObligationStale) {
        Ok(()) => {},
        Err(e) => return Err(e),
    }
    let (position, index) = match obligation.find_liquidity_in_borrows(reserve_key) {
        Ok(v) => v,
        Err(e) => return Err(e),
    };
    if position.borrowed_amount == 0 {
        return Err(LendingError::ObligationLiquidityEmpty);
    }
    let n = match reserve.calculate_repay(liquidity_amount, position.borrowed_amount) {
        Ok(v) => v,
        Err(e) => return Err(e),
    };
    if n == 0 {
        return Err(LendingError::RepayTooSmall);
    }
    let mut liquidity = reserve.liquidity;
    match liquidity.repay_liquidity(n) {
        Ok(()) => {},
        Err(e) => return Err(e),
    }
    match obligation.repay(n, index) {
        Ok(()) => {},
        Err(e) => return Err(e),
    }
    reserve.liquidity = liquidity;
    obligation.last_update.mark_stale();
    reserve.last_update.mark_stale();
    Ok(n)
}

/// Deposits liquidity into `reserve` and records it as collateral of the obligation.
/// Returns the receipts to mint.
pub fn deposit_reserve_liquidity_and_obligation_collateral(
    reserve: &mut Reserve,
    reserve_key: Pubkey,
    obligation: &mut Obligation,
    collateral_amount: u64,
    receipt_mint_supply: u64,
    slot: u64,
) -> (r: Result<u64, LendingError>)
    requires
        old(obligation).wf(),
    ensures
        final(obligation).wf(),
        r is Err ==> *final(reserve) == *old(reserve) && same_obligation(*final(obligation), *old(obligation)),
        collateral_amount == 0 ==> r == Err::<u64, LendingError>(LendingError::InvalidDepositAmount),
        collateral_amount > 0 && old(obligation).market != old(reserve).market
            ==> r == Err::<u64, LendingError>(LendingError::InvalidObligationMarket),
        collateral_amount > 0 && old(obligation).market == old(reserve).market && old(reserve).last_update.is_stale
            ==> r == Err::<u64, LendingError>(LendingError::ReserveStale),
        collateral_amount > 0 && old(obligation).market == old(reserve).market && fresh(old(reserve).last_update, slot)
            && old(reserve).config.loan_to_value_bps == 0
            ==> r == Err::<u64, LendingError>(LendingError::ReserveCollateralDisabled),
        collateral_amount > 0 && old(obligation).market == old(reserve).market && fresh(old(reserve).last_update, slot)
            && old(reserve).config.loan_to_value_bps > 0
            && !has_deposit(old(obligation).deposits@, reserve_key) && old(obligation).deposits@.len() >= MAX_OBLIGATION_RESERVES
            ==> r is Err,
        deposit_spec(old(reserve).liquidity, collateral_amount, receipt_mint_supply) matches Ok((minted, _next)) ==> (
            collateral_amount > 0 && old(obligation).market == old(reserve).market
            && fresh(old(reserve).last_update, slot) && old(reserve).config.loan_to_value_bps > 0
            && (has_deposit(old(obligation).deposits@, reserve_key) || old(obligation).deposits@.len() < MAX_OBLIGATION_RESERVES)
            && (forall|i: int| 0 <= i < old(obligation).deposits@.len() && #[trigger] old(obligation).deposits@[i].reserve == reserve_key
                ==> old(obligation).deposits@[i].deposited_amount + collateral_amount <= u64::MAX)
            ==> r == Ok::<u64, LendingError>(minted)),
        r matches Ok(minted) ==> (deposit_spec(old(reserve).liquidity, collateral_amount, receipt_mint_supply) == Ok::<_, LendingError>((minted, final(reserve).liquidity))
            && old(obligation).market == old(reserve).market
            && fresh(old(reserve).last_update, slot)
            && old(reserve).config.loan_to_value_bps > 0
            && final(reserve).last_update.is_stale && final(obligation).last_update.is_stale
            && final(obligation).borrows@ == old(obligation).borrows@
            && (!has_deposit(old(obligation).deposits@, reserve_key) ==> final(obligation).deposits@ == old(obligation).deposits@.push(
                ObligationCollateral { reserve: reserve_key, deposited_amount: collateral_amount, market_value: Fx { bits: 0 } }))
            && (has_deposit(old(obligation).deposits@, reserve_key) ==> exists|i: int| 0 <= i < old(obligation).deposits@.len()
                && old(obligation).deposits@[i].reserve == reserve_key
                && final(obligation).deposits@ == old(obligation).deposits@.update(i, ObligationCollateral {
                    deposited_amount: (old(obligation).deposits@[i].deposited_amount + collateral_amount) as u64, ..old(obligation).deposits@[i] }))),
{
    if collateral_amount == 0 {
        return Err(LendingError::InvalidDepositAmount);
    }
    if obligation.market != reserve.market {
        return Err(LendingError::InvalidObligationMarket);
    }
    match check_fresh(&reserve.last_update, slot, LendingError::ReserveStale) {
        Ok(()) => {},
        Err(e) => return Err(e),
    }
    if reserve.config.loan_to_value_bps == 0 {
        return Err(LendingError::ReserveCollateralDisabled);
    }
    let found = obligation.find_collateral_index_in_deposits(reserve_key);
    if found.is_none() && obligation.deposits.len() >= MAX_OBLIGATION_RESERVES {
        return Err(LendingError::ObligationPositionsFull);
    }
    let current: u64 = match found {
        Some(i) => obligation.deposits[i].deposited_amount,
        None => 0,
    };
    let held = match current.checked_add(collateral_amount) {
        Some(v) => v,
        None => return Err(LendingError::MathOverflow),
    };
    let mut liquidity = reserve.liquidity;
    let minted = match liquidity.deposit_liquidity(collateral_amount, receipt_mint_supply) {
        Ok(v) => v,
        Err(e) => return Err(e),
    };
    let i = match obligation.find_or_add_collateral_to_deposits(reserve_key) {
        Ok(i) => i,
        Err(e) => return Err(e),
    };
    let mut position = obligation.deposits[i];
    position.deposited_amount = held;
    obligation.deposits.set(i, position);
    proof {
        if has_deposit(old(obligation).deposits@, reserve_key) {
            assert(old(obligation).deposits@[i as int].reserve == reserve_key);
        }
        assert forall|a: int, b: int| 0 <= a < b < obligation.deposits@.len() implies obligation.deposits@[a].reserve != obligation.deposits@[b].reserve by {
            if a != i && b != i {
            }
        }
    }
    reserve.liquidity = liquidity;
    obligation.last_update.mark_stale();
    reserve.last_update.mark_stale();
    Ok(minted)
}

/// Pays the platform fees that the available liquidity covers out of a fresh reserve.
pub fn redeem_fees(reserve: &mut Reserve, slot: u64) -> (r: Result<u64, LendingError>)
    ensures
        !fresh(old(reserve).last_update, slot) ==> r is Err && *final(reserve) == *old(reserve),
        fresh(old(reserve).last_update, slot) ==> r == Ok::<u64, LendingError>(min_u64(old(reserve).liquidity.accumulated_platform_fees, old(reserve).liquidity.available_amount))
            && final(reserve).liquidity.available_amount == old(reserve).liquidity.available_amount
                - min_u64(old(reserve).liquidity.accumulated_platform_fees, old(reserve).liquidity.available_amount)
            && final(reserve).liquidity.accumulated_platform_fees == old(reserve).liquidity.accumulated_platform_fees
                - min_u64(old(reserve).liquidity.accumulated_platform_fees, old(reserve).liquidity.available_amount)
            && final(reserve).liquidity.borrowed_amount == old(reserve).liquidity.borrowed_amount
            && final(reserve).last_update == old(reserve).last_update,
{
    match check_fresh(&reserve.last_update, slot, LendingError::ReserveStale) {
        Ok(()) => {},
        Err(e) => return Err(e),
    }
    reserve.liquidity.redeem_fees()
}

/// Liquidates part of an unhealthy obligation: the debt owed to `repay_reserve` is paid
/// down and collateral of `withdraw_reserve` is handed to the liquidator, sized by
/// `withdraw_reserve`'s close factor and bonus. Returns `(repay, withdraw)`.
pub fn liquidate_obligation(
    repay_reserve: &mut Reserve,
    repay_reserve_key: Pubkey,
    withdraw_reserve: &Reserve,
    withdraw_reserve_key: Pubkey,
    obligation: &mut Obligation,
    slot: u64,
) -> (r: Result<(u64, u64), LendingError>)
    requires
        old(obligation).wf(),
    ensures
        final(obligation).wf(),
        fresh(old(repay_reserve).last_update, slot) && fresh(withdraw_reserve.last_update, slot)
            && fresh(old(obligation).last_update, slot)
            && old(obligation).borrowed_value.raw() < old(obligation).weighted_unhealthy_borrow_value.raw()
            ==> r == Err::<(u64, u64), LendingError>(LendingError::ObligationHealthy),
        r is Err ==> *final(repay_reserve) == *old(repay_reserve) && same_obligation(*final(obligation), *old(obligation)),
        fresh(old(repay_reserve).last_update, slot) && fresh(withdraw_reserve.last_update, slot)
            && fresh(old(obligation).last_update, slot)
            && old(obligation).borrowed_value.raw() >= old(obligation).weighted_unhealthy_borrow_value.raw()
            && (exists|i: int, j: int|
                0 <= i < old(obligation).borrows@.len() && #[trigger] old(obligation).borrows@[i].reserve == repay_reserve_key
                && 0 <= j < old(obligation).deposits@.len() && #[trigger] old(obligation).deposits@[j].reserve == withdraw_reserve_key
                && old(obligation).borrows@[i].market_value.raw() > 0
                && old(obligation).deposits@[j].market_value.raw() > 0
                && liquidation_spec(*withdraw_reserve, old(obligation).borrowed_value, old(obligation).borrows@[i], old(obligation).deposits@[j]) is Ok
                && (liquidation_spec(*withdraw_reserve, old(obligation).borrowed_value, old(obligation).borrows@[i], old(obligation).deposits@[j])->Ok_0.0 == 0
                    || liquidation_spec(*withdraw_reserve, old(obligation).borrowed_value, old(obligation).borrows@[i], old(obligation).deposits@[j])->Ok_0.1 == 0))
            ==> r == Err::<(u64, u64), LendingError>(LendingError::LiquidationTooSmall),
        fresh(old(repay_reserve).last_update, slot) && fresh(withdraw_reserve.last_update, slot)
            && fresh(old(obligation).last_update, slot)
            && old(obligation).borrowed_value.raw() >= old(obligation).weighted_unhealthy_borrow_value.raw()
            && (exists|i: int, j: int|
                0 <= i < old(obligation).borrows@.len() && #[trigger] old(obligation).borrows@[i].reserve == repay_reserve_key
                && 0 <= j < old(obligation).deposits@.len() && #[trigger] old(obligation).deposits@[j].reserve == withdraw_reserve_key
                && old(obligation).borrows@[i].market_value.raw() > 0
                && old(obligation).deposits@[j].market_value.raw() > 0
                && liquidation_spec(*withdraw_reserve, old(obligation).borrowed_value, old(obligation).borrows@[i], old(obligation).deposits@[j]) is Ok
                && liquidation_spec(*withdraw_reserve, old(obligation).borrowed_value, old(obligation).borrows@[i], old(obligation).deposits@[j])->Ok_0.0 > 0
                && liquidation_spec(*withdraw_reserve, old(obligation).borrowed_value, old(obligation).borrows@[i], old(obligation).deposits@[j])->Ok_0.1 > 0
                && liquidation_spec(*withdraw_reserve, old(obligation).borrowed_value, old(obligation).borrows@[i], old(obligation).deposits@[j])->Ok_0.0
                    <= old(obligation).borrows@[i].borrowed_amount
                && liquidation_spec(*withdraw_reserve, old(obligation).borrowed_value, old(obligation).borrows@[i], old(obligation).deposits@[j])->Ok_0.1
                    <= old(obligation).deposits@[j].deposited_amount
                && repay_liquidity_spec(old(repay_reserve).liquidity,
                    liquidation_spec(*withdraw_reserve, old(obligation).borrowed_value, old(obligation).borrows@[i], old(obligation).deposits@[j])->Ok_0.0) is Ok)
            ==> r is Ok,
        r matches Ok((repay, withdraw)) ==> (exists|i: int, j: int|
            0 <= i < old(obligation).borrows@.len() && old(obligation).borrows@[i].reserve == repay_reserve_key
            && 0 <= j < old(obligation).deposits@.len() && old(obligation).deposits@[j].reserve == withdraw_reserve_key
            && liquidation_spec(*withdraw_reserve, old(obligation).borrowed_value, old(obligation).borrows@[i], old(obligation).deposits@[j])
                == Ok::<(u64, u64), LendingError>((repay, withdraw))
            && (repay == old(obligation).borrows@[i].borrowed_amount ==> final(obligation).borrows@ == old(obligation).borrows@.remove(i))
            && (repay < old(obligation).borrows@[i].borrowed_amount ==> final(obligation).borrows@ == old(obligation).borrows@.update(i,
                ObligationLiquidity { borrowed_amount: (old(obligation).borrows@[i].borrowed_amount - repay) as u64, ..old(obligation).borrows@[i] }))
            && (withdraw == old(obligation).deposits@[j].deposited_amount ==> final(obligation).deposits@ == old(obligation).deposits@.remove(j))
            && (withdraw < old(obligation).deposits@[j].deposited_amount ==> final(obligation).deposits@ == old(obligation).deposits@.update(j,
                ObligationCollateral { deposited_amount: (old(obligation).deposits@[j].deposited_amount - withdraw) as u64, ..old(obligation).deposits@[j] })))
            && repay > 0 && withdraw > 0
            && old(obligation).borrowed_value.raw() >= old(obligation).weighted_unhealthy_borrow_value.raw()
            && fresh(old(repay_reserve).last_update, slot) && fresh(withdraw_reserve.last_update, slot) && fresh(old(obligation).last_update, slot)
            && repay_liquidity_spec(old(repay_reserve).liquidity, repay) == Ok::<_, LendingError>(final(repay_reserve).liquidity)
            && final(repay_reserve).last_update.is_stale && final(obligation).last_update.is_stale,
{
    match check_fresh(&repay_reserve.last_update, slot, LendingError::ReserveStale) {
        Ok(()) => {},
        Err(e) => return Err(e),
    }
    match check_fresh(&withdraw_reserve.last_update, slot, LendingError::ReserveStale) {
        Ok(()) => {},
        Err(e) => return Err(e),
    }
    match check_fresh(&obligation.last_update, slot, LendingError::ObligationStale) {
        Ok(()) => {},
        Err(e) => return Err(e),
    }
    if obligation.is_healthy() {
        return Err(LendingError::ObligationHealthy);
    }
    let (liability, liability_index) = match obligation.find_liquidity_in_borrows(repay_reserve_key) {
        Ok(v) => v,
        Err(e) => return Err(e),
    };
    if liability.market_value.bits <= 0 {
        return Err(LendingError::ObligationLiquidityEmpty);
    }
    let (collateral, collateral_index) = match obligation.find_collateral_in_deposits(withdraw_reserve_key) {
        Ok(v) => v,
        Err(e) => return Err(e),
    };
    if collateral.market_value.bits <= 0 {
        return Err(LendingError::ObligationLiquidityEmpty);
    }
    let (repay, withdraw) = match withdraw_reserve.calculate_liquidation(obligation, &liability, &collateral) {
        Ok(v) => v,
        Err(e) => return Err(e),
    };
    if repay == 0 || withdraw == 0 {
        return Err(LendingError::LiquidationTooSmall);
    }
    if repay > liability.borrowed_amount || withdraw > collateral.deposited_amount {
        return Err(LendingError::MathOverflow);
    }
    let mut liquidity = repay_reserve.liquidity;
    match liquidity.repay_liquidity(repay) {
        Ok(()) => {},
        Err(e) => return Err(e),
    }
    match obligation.repay(repay, liability_index) {
        Ok(()) => {},
        Err(e) => return Err(e),
    }
    match obligation.withdraw(withdraw, collateral_index) {
        Ok(()) => {},
        Err(e) => return Err(e),
    }
    repay_reserve.liquidity = liquidity;
    obligation.last_update.mark_stale();
    repay_reserve.last_update.mark_stale();
    Ok((repay, withdraw))
}

/// The collateral amount a withdrawal resolves to, given the liquidity its receipts redeem for.
/// Without debt it is bounded by the deposit alone; with debt by the maximum withdraw value,
/// and `u64::MAX` takes as much as that value allows.
pub open spec fn withdraw_amount_spec(o: Obligation, c: ObligationCollateral, ltv_bps: u16, receipt_amount: u64, liquidity: u64) -> Result<u64, LendingError> {
    if o.borrows@.len() == 0 {
        if receipt_amount == u64::MAX { Ok(c.deposited_amount) } else { Ok(min_u64(c.deposited_amount, liquidity)) }
    } else if o.deposited_value.raw() <= 0 {
        Err(LendingError::ObligationDepositsValueZero)
    } else {
        match max_withdraw_spec(o, fx_bps(ltv_bps as int)) {
            Err(e) => Err(e),
            Ok(max_value) => if max_value.raw() <= 0 {
                Err(LendingError::MaxWithdrawValueZero)
            } else if receipt_amount == u64::MAX {
                let value = if max_value.raw() <= c.market_value.raw() { max_value } else { c.market_value };
                match fx_div(value, c.market_value) {
                    Err(e) => Err(e),
                    Ok(pct) => match fx_mul(pct, fx_of(c.deposited_amount as int)) {
                        Err(e) => Err(e),
                        Ok(x) => match fx_floor_u64(x) {
                            Err(e) => Err(e),
                            Ok(k) => Ok(min_u64(k, c.deposited_amount)),
                        },
                    },
                }
            } else {
                let amount = min_u64(liquidity, c.deposited_amount);
                match fx_div(fx_of(amount as int), fx_of(c.deposited_amount as int)) {
                    Err(e) => Err(e),
                    Ok(pct) => match fx_mul(c.market_value, pct) {
                        Err(e) => Err(e),
                        Ok(v) => if v.raw() <= max_value.raw() { Ok(amount) } else { Err(LendingError::WithdrawTooLarge) },
                    },
                }
            },
        }
    }
}

/// What a withdrawal of `receipt_amount` receipts from position `c` resolves to:
/// `(amount, receipts)`, the liquidity paid out and the receipts it costs. `u64::MAX`
/// asks for the most the position and the obligation's health allow; any other request
/// is worth `floor(receipts / rate)` of liquidity, capped by the position.
pub open spec fn withdraw_plan_spec(
    reserve: Reserve,
    o: Obligation,
    c: ObligationCollateral,
    receipt_amount: u64,
    receipt_mint_supply: u64,
) -> Result<(u64, u64), LendingError> {
    match exchange_rate_spec(reserve.liquidity, receipt_mint_supply) {
        Err(e) => Err(e),
        Ok(rate) => {
            let requested = if receipt_amount == u64::MAX { Ok(0u64) } else { receipt_to_liquidity_spec(receipt_amount, rate) };
            match requested {
                Err(e) => Err(e),
                Ok(liquidity) => match withdraw_amount_spec(o, c, reserve.config.loan_to_value_bps, receipt_amount, liquidity) {
                    Err(e) => Err(e),
                    Ok(amount) => if amount == 0 {
                        Err(LendingError::WithdrawTooSmall)
                    } else if amount > reserve.liquidity.available_amount {
                        Err(LendingError::InsufficientLiquidity)
                    } else {
                        match liquidity_to_receipt_spec(amount, rate) {
                            Err(e) => Err(e),
                            Ok(receipts) => Ok((amount, receipts)),
                        }
                    },
                },
            }
        },
    }
}

fn withdraw_plan(
    reserve: &Reserve,
    o: &Obligation,
    c: &ObligationCollateral,
    receipt_amount: u64,
    receipt_mint_supply: u64,
) -> (r: Result<(u64, u64), LendingError>)
    ensures
        r == withdraw_plan_spec(*reserve, *o, *c, receipt_amount, receipt_mint_supply),
{
    let rate = match reserve.liquidity.receipt_exchange_rate(receipt_mint_supply) {
        Ok(v) => v,
        Err(e) => return Err(e),
    };
    let liquidity = if receipt_amount == u64::MAX {
        0
    } else {
        match reserve.liquidity.receipt_to_liquidity(receipt_amount, rate) {
            Ok(v) => v,
            Err(e) => return Err(e),
        }
    };
    let deposited = c.deposited_amount;
    let smaller = if deposited <= liquidity { deposited } else { liquidity };
    let amount = if o.borrows.len() == 0 {
        if receipt_amount == u64::MAX { deposited } else { smaller }
    } else {
        if o.deposited_value.bits <= 0 {
            return Err(LendingError::ObligationDepositsValueZero);
        }
        let ltv = match bps_to_i80f48(reserve.config.loan_to_value_bps) {
            Ok(v) => v,
            Err(e) => return Err(e),
        };
        let max_value = match o.max_withdraw_value(ltv) {
            Ok(v) => v,
            Err(e) => return Err(e),
        };
        if max_value.bits <= 0 {
            return Err(LendingError::MaxWithdrawValueZero);
        }
        if receipt_amount == u64::MAX {
            let value = max_value.min(c.market_value);
            let pct = match value.safe_div(c.market_value) {
                Ok(v) => v,
                Err(e) => return Err(e),
            };
            let k = match pct.safe_mul(Fx::from_u64(deposited)) {
                Ok(x) => match x.floor_to_u64() {
                    Ok(v) => v,
                    Err(e) => return Err(e),
                },
                Err(e) => return Err(e),
            };
            if k <= deposited { k } else { deposited }
        } else {
            let pct = match Fx::from_u64(smaller).safe_div(Fx::from_u64(deposited)) {
                Ok(v) => v,
                Err(e) => return Err(e),
            };
            let value = match c.market_value.safe_mul(pct) {
                Ok(v) => v,
                Err(e) => return Err(e),
            };
            if value.bits > max_value.bits {
                return Err(LendingError::WithdrawTooLarge);
            }
            smaller
        }
    };
    if amount == 0 {
        return Err(LendingError::WithdrawTooSmall);
    }
    if amount > reserve.liquidity.available_amount {
        return Err(LendingError::InsufficientLiquidity);
    }
    match reserve.liquidity.liquidity_to_receipt(amount, rate) {
        Ok(receipts) => Ok((amount, receipts)),
        Err(e) => Err(e),
    }
}

/// Withdraws collateral of `reserve` from the obligation. `u64::MAX` withdraws the most
/// that keeps the obligation within its allowed borrow value. Returns `(amount, receipts)`:
/// the liquidity to pay out and the receipts to burn for it. The position shrinks by the
/// amount paid out and is removed when it reaches zero.
pub fn withdraw_obligation_collateral(
    reserve: &mut Reserve,
    reserve_key: Pubkey,
    obligation: &mut Obligation,
    receipt_amount: u64,
    receipt_mint_supply: u64,
    slot: u64,
) -> (r: Result<(u64, u64), LendingError>)
    requires
        old(obligation).wf(),
    ensures
        final(obligation).wf(),
        r is Err ==> *final(reserve) == *old(reserve) && same_obligation(*final(obligation), *old(obligation)),
        receipt_amount == 0 ==> r == Err::<(u64, u64), LendingError>(LendingError::InvalidWithdrawAmount),
        r is Ok ==> receipt_amount > 0 && fresh(old(reserve).last_update, slot) && fresh(old(obligation).last_update, slot),
        receipt_amount > 0 && fresh(old(reserve).last_update, slot) && fresh(old(obligation).last_update, slot)
            && !has_deposit(old(obligation).deposits@, reserve_key) ==> r is Err,
        receipt_amount > 0 && fresh(old(reserve).last_update, slot) && fresh(old(obligation).last_update, slot)
            ==> forall|i: int| 0 <= i < old(obligation).deposits@.len() && #[trigger] old(obligation).deposits@[i].reserve == reserve_key
                ==> (old(obligation).deposits@[i].deposited_amount == 0
                    ==> r == Err::<(u64, u64), LendingError>(LendingError::ObligationCollateralEmpty))
                && (old(obligation).deposits@[i].deposited_amount > 0
                    ==> r == withdraw_plan_spec(*old(reserve), *old(obligation), old(obligation).deposits@[i], receipt_amount, receipt_mint_supply)),
        r matches Ok((amount, _receipts)) ==> (exists|i: int| 0 <= i < old(obligation).deposits@.len()
                && #[trigger] old(obligation).deposits@[i].reserve == reserve_key
                && (amount == old(obligation).deposits@[i].deposited_amount ==> final(obligation).deposits@ == old(obligation).deposits@.remove(i))
                && (amount < old(obligation).deposits@[i].deposited_amount ==> final(obligation).deposits@ == old(obligation).deposits@.update(i,
                    ObligationCollateral { deposited_amount: (old(obligation).deposits@[i].deposited_amount - amount) as u64, ..old(obligation).deposits@[i] }))
                && amount <= old(obligation).deposits@[i].deposited_amount)
            && final(reserve).liquidity == (ReserveLiquidity { available_amount: (old(reserve).liquidity.available_amount - amount) as u64, ..old(reserve).liquidity })
            && final(obligation).borrows@ == old(obligation).borrows@
            && final(reserve).last_update.is_stale && final(obligation).last_update.is_stale,
{
    if receipt_amount == 0 {
        return Err(LendingError::InvalidWithdrawAmount);
    }
    match check_fresh(&reserve.last_update, slot, LendingError::ReserveStale) {
        Ok(()) => {},
        Err(e) => return Err(e),
    }
    match check_fresh(&obligation.last_update, slot, LendingError::ObligationStale) {
        Ok(()) => {},
        Err(e) => return Err(e),
    }
    let (collateral, index) = match obligation.find_collateral_in_deposits(reserve_key) {
        Ok(v) => v,
        Err(e) => return Err(e),
    };
    proof {
        assert forall|i: int| 0 <= i < old(obligation).deposits@.len() && #[trigger] old(obligation).deposits@[i].reserve == reserve_key
            implies i == index by {
            if i != index {
                if i < index {
                    assert(old(obligation).deposits@[i].reserve != old(obligation).deposits@[index as int].reserve);
                } else {
                    assert(old(obligation).deposits@[index as int].reserve != old(obligation).deposits@[i].reserve);
                }
            }
        }
    }
    if collateral.deposited_amount == 0 {
        return Err(LendingError::ObligationCollateralEmpty);
    }
    let (amount, receipts) = match withdraw_plan(reserve, obligation, &collateral, receipt_amount, receipt_mint_supply) {
        Ok(v) => v,
        Err(e) => return Err(e),
    };
    assert(amount <= collateral.deposited_amount);
    match obligation.withdraw(amount, index) {
        Ok(()) => {},
        Err(e) => return Err(e),
    }
    let ghost i = index as int;
    assert(old(obligation).deposits@[i].reserve == reserve_key);
    reserve.liquidity.available_amount = reserve.liquidity.available_amount - amount;
    obligation.last_update.mark_stale();
    reserve.last_update.mark_stale();
    Ok((amount, receipts))
}

/// Parameters of a new reserve, in basis points.
#[derive(Clone, Copy, Debug, PartialEq, Eq, Structural)]
pub struct InitializeReserveArgs {
    pub optimal_utilization_rate_bps: u16,
    pub loan_to_value_bps: u16,
    pub liquidation_bonus_bps: u16,
    pub liquidation_threshold_bps: u16,
    pub liquidation_close_factor_bps: u16,
    pub min_borrow_rate_bps: u16,
    pub optimal_borrow_rate_bps: u16,
    pub max_borrow_rate_bps: u16,
    pub flash_loan_fee_bps: u16,
    pub platform_fee_bps: u16,
}

pub open spec fn config_of(a: InitializeReserveArgs) -> ReserveConfig {
    ReserveConfig {
        optimal_utilization_rate_bps: a.optimal_utilization_rate_bps,
        loan_to_value_bps: a.loan_to_value_bps,
        liquidation_bonus_bps: a.liquidation_bonus_bps,
        liquidation_threshold_bps: a.liquidation_threshold_bps,
        liquidation_close_factor_bps: a.liquidation_close_factor_bps,
        min_borrow_rate_bps: a.min_borrow_rate_bps,
        optimal_borrow_rate_bps: a.optimal_borrow_rate_bps,
        max_borrow_rate_bps: a.max_borrow_rate_bps,
        fees: ReserveFees { flash_loan_fee_bps: a.flash_loan_fee_bps, platform_fee_bps: a.platform_fee_bps },
    }
}

/// Creates an empty reserve of `market` for the mint `liquidity_mint`, after validating its
/// configuration: every field at most 10 000 basis points, the liquidation threshold above
/// the loan-to-value, and min < optimal < max borrow rate.
pub fn initialize_reserve(
    args: InitializeReserveArgs,
    market: Pubkey,
    liquidity_mint: Pubkey,
    price_update_v2: Pubkey,
    liquidity_mint_decimals: u8,
    bump: u8,
    receipt_mint_bump: u8,
    slot: u64,
) -> (r: Result<Reserve, LendingError>)
    ensures
        r is Ok <==> valid_config(config_of(args)),
        !valid_config(config_of(args)) ==> r == Err::<Reserve, LendingError>(validate_config_spec(config_of(args))->Err_0),
        r matches Ok(reserve) ==> reserve.config == config_of(args)
            && reserve.liquidity.market_price.raw() == 0
            && reserve.market == market
            && reserve.liquidity.mint == liquidity_mint
            && reserve.liquidity.price_update_v2 == price_update_v2
            && reserve.liquidity.available_amount == 0
            && reserve.liquidity.borrowed_amount == 0
            && reserve.liquidity.accumulated_platform_fees == 0
            && reserve.liquidity.cumulative_borrow_index == fx_one()
            && reserve.liquidity_mint_decimals == liquidity_mint_decimals
            && reserve.last_update == (LastUpdate { is_stale: true, slot }),
{
    let config = ReserveConfig {
        optimal_utilization_rate_bps: args.optimal_utilization_rate_bps,
        loan_to_value_bps: args.loan_to_value_bps,
        liquidation_bonus_bps: args.liquidation_bonus_bps,
        liquidation_threshold_bps: args.liquidation_threshold_bps,
        liquidation_close_factor_bps: args.liquidation_close_factor_bps,
        min_borrow_rate_bps: args.min_borrow_rate_bps,
        optimal_borrow_rate_bps: args.optimal_borrow_rate_bps,
        max_borrow_rate_bps: args.max_borrow_rate_bps,
        fees: ReserveFees { flash_loan_fee_bps: args.flash_loan_fee_bps, platform_fee_bps: args.platform_fee_bps },
    };
    match validate_reserve_config(&config) {
        Ok(()) => {},
        Err(e) => return Err(e),
    }
    Ok(Reserve::new(NewReserveArgs {
        market,
        liquidity: ReserveLiquidity::new(NewReserveLiquidityArgs { mint: liquidity_mint, price_update_v2 }),
        config,
        liquidity_mint_decimals,
        bump,
        receipt_mint_bump,
        slot,
    }))
}

/// Optional overrides of a reserve's configuration, in basis points.
#[derive(Clone, Copy, Debug, PartialEq, Eq, Structural)]
pub struct UpdateReserveArgs {
    pub optimal_utilization_rate_bps: Option<u16>,
    pub loan_to_value_bps: Option<u16>,
    pub liquidation_bonus_bps: Option<u16>,
    pub liquidation_threshold_bps: Option<u16>,
    pub liquidation_close_factor_bps: Option<u16>,
    pub min_borrow_rate_bps: Option<u16>,
    pub optimal_borrow_rate_bps: Option<u16>,
    pub max_borrow_rate_bps: Option<u16>,
    pub flash_loan_fee_bps: Option<u16>,
    pub platform_fee_bps: Option<u16>,
}

pub open spec fn override_ok(v: Option<u16>) -> bool {
    v matches Some(b) ==> b <= 10000
}

pub open spec fn overridden(v: Option<u16>, current: u16) -> u16 {
    match v {
        Some(b) => b,
        None => current,
    }
}

pub open spec fn updates_ok(a: UpdateReserveArgs) -> bool {
    override_ok(a.optimal_utilization_rate_bps) && override_ok(a.loan_to_value_bps) && override_ok(a.liquidation_bonus_bps)
        && override_ok(a.liquidation_threshold_bps) && override_ok(a.liquidation_close_factor_bps)
        && override_ok(a.min_borrow_rate_bps) && override_ok(a.optimal_borrow_rate_bps) && override_ok(a.max_borrow_rate_bps)
        && override_ok(a.flash_loan_fee_bps) && override_ok(a.platform_fee_bps)
}

pub open spec fn updated_config(c: ReserveConfig, a: UpdateReserveArgs) -> ReserveConfig {
    ReserveConfig {
        optimal_utilization_rate_bps: overridden(a.optimal_utilization_rate_bps, c.optimal_utilization_rate_bps),
        loan_to_value_bps: overridden(a.loan_to_value_bps, c.loan_to_value_bps),
        liquidation_bonus_bps: overridden(a.liquidation_bonus_bps, c.liquidation_bonus_bps),
        liquidation_threshold_bps: overridden(a.liquidation_threshold_bps, c.liquidation_threshold_bps),
        liquidation_close_factor_bps: overridden(a.liquidation_close_factor_bps, c.liquidation_close_factor_bps),
        min_borrow_rate_bps: overridden(a.min_borrow_rate_bps, c.min_borrow_rate_bps),
        optimal_borrow_rate_bps: overridden(a.optimal_borrow_rate_bps, c.optimal_borrow_rate_bps),
        max_borrow_rate_bps: overridden(a.max_borrow_rate_bps, c.max_borrow_rate_bps),
        fees: ReserveFees {
            flash_loan_fee_bps: overridden(a.flash_loan_fee_bps, c.fees.flash_loan_fee_bps),
            platform_fee_bps: overridden(a.platform_fee_bps, c.fees.platform_fee_bps),
        },
    }
}

fn apply_override(v: Option<u16>, current: u16) -> (r: Result<u16, LendingError>)
    ensures
        override_ok(v) ==> r == Ok::<u16, LendingError>(overridden(v, current)),
        !override_ok(v) ==> r == Err::<u16, LendingError>(LendingError::InvalidBasisPoints),
{
    match v {
        Some(b) => match validate_bps(b) {
            Ok(()) => Ok(b),
            Err(e) => Err(e),
        },
        None => Ok(current),
    }
}

/// Overrides the given fields of a reserve's configuration. Each given field must be at
/// most 10 000 basis points, and the resulting configuration must be valid as a whole
/// (see `validate_reserve_config`). Nothing changes when the update is refused.
pub fn update_reserve(reserve: &mut Reserve, args: UpdateReserveArgs) -> (r: Result<(), LendingError>)
    ensures
        r is Ok <==> updates_ok(args) && valid_config(updated_config(old(reserve).config, args)),
        r is Ok ==> *final(reserve) == (Reserve { config: updated_config(old(reserve).config, args), ..*old(reserve) }),
        r is Err ==> *final(reserve) == *old(reserve),
        !updates_ok(args) ==> r == Err::<(), LendingError>(LendingError::InvalidBasisPoints),
        updates_ok(args) && !valid_config(updated_config(old(reserve).config, args))
            ==> r == validate_config_spec(updated_config(old(reserve).config, args)),
{
    let c = reserve.config;
    let a = match apply_override(args.optimal_utilization_rate_bps, c.optimal_utilization_rate_bps) { Ok(v) => v, Err(e) => return Err(e) };
    let b = match apply_override(args.loan_to_value_bps, c.loan_to_value_bps) { Ok(v) => v, Err(e) => return Err(e) };
    let d = match apply_override(args.liquidation_bonus_bps, c.liquidation_bonus_bps) { Ok(v) => v, Err(e) => return Err(e) };
    let e1 = match apply_override(args.liquidation_threshold_bps, c.liquidation_threshold_bps) { Ok(v) => v, Err(e) => return Err(e) };
    let f = match apply_override(args.liquidation_close_factor_bps, c.liquidation_close_factor_bps) { Ok(v) => v, Err(e) => return Err(e) };
    let g = match apply_override(args.min_borrow_rate_bps, c.min_borrow_rate_bps) { Ok(v) => v, Err(e) => return Err(e) };
    let h = match apply_override(args.optimal_borrow_rate_bps, c.optimal_borrow_rate_bps) { Ok(v) => v, Err(e) => return Err(e) };
    let k = match apply_override(args.max_borrow_rate_bps, c.max_borrow_rate_bps) { Ok(v) => v, Err(e) => return Err(e) };
    let m = match apply_override(args.flash_loan_fee_bps, c.fees.flash_loan_fee_bps) { Ok(v) => v, Err(e) => return Err(e) };
    let n = match apply_override(args.platform_fee_bps, c.fees.platform_fee_bps) { Ok(v) => v, Err(e) => return Err(e) };
    let merged = ReserveConfig {
        optimal_utilization_rate_bps: a,
        loan_to_value_bps: b,
        liquidation_bonus_bps: d,
        liquidation_threshold_bps: e1,
        liquidation_close_factor_bps: f,
        min_borrow_rate_bps: g,
        optimal_borrow_rate_bps: h,
        max_borrow_rate_bps: k,
        fees: ReserveFees { flash_loan_fee_bps: m, platform_fee_bps: n },
    };
    match validate_reserve_config(&merged) {
        Ok(()) => {},
        Err(e) => return Err(e),
    }
    reserve.config = merged;
    Ok(())
}

} // verus!
