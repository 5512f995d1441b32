//! Re-pricing an obligation from freshly refreshed reserves.
use vstd::prelude::*;
use crate::error::LendingError;
use crate::fx::{fits, bps_to_i80f48, fx_bps, fx_mul, mul_raw, Fx};
use crate::obligation::{same_obligation, accrue_position_spec, Obligation, ObligationCollateral, ObligationLiquidity};
use crate::pubkey::Pubkey;
use crate::reserve::{exchange_rate_spec, market_value, market_value_spec, receipt_to_liquidity_spec, Reserve};
use crate::validate::{check_fresh, fresh};

verus! {

/// A collateral position's reserve, with its address and its receipt supply.
#[derive(Clone, Copy, Debug, PartialEq, Eq, Structural)]
pub struct CollateralReserveInput {
    pub key: Pubkey,
    pub reserve: Reserve,
    pub receipt_mint_supply: u64,
}

/// A debt position's reserve, with its address.
#[derive(Clone, Copy, Debug, PartialEq, Eq, Structural)]
pub struct ReserveInput {
    pub key: Pubkey,
    pub reserve: Reserve,
}

/// The value of a collateral position: its receipts turned into liquidity, then priced.
pub open spec fn collateral_value_spec(c: ObligationCollateral, input: CollateralReserveInput) -> Result<Fx, LendingError> {
    match exchange_rate_spec(input.reserve.liquidity, input.receipt_mint_supply) {
        Err(e) => Err(e),
        Ok(rate) => match receipt_to_liquidity_spec(c.deposited_amount, rate) {
            Err(e) => Err(e),
            Ok(liquidity) => market_value_spec(liquidity, input.reserve.liquidity.market_price, input.reserve.liquidity_mint_decimals),
        },
    }
}

pub open spec fn sum_collateral(s: Seq<ObligationCollateral>) -> int
    decreases s.len(),
{
    if s.len() == 0 { 0 } else { sum_collateral(s.drop_last()) + s.last().market_value.raw() }
}

pub open spec fn sum_liquidity(s: Seq<ObligationLiquidity>) -> int
    decreases s.len(),
{
    if s.len() == 0 { 0 } else { sum_liquidity(s.drop_last()) + s.last().market_value.raw() }
}

/// Sum of each collateral value weighted by its reserve's loan-to-value (or, with
/// `threshold`, its liquidation threshold) as a fraction.
pub open spec fn sum_weighted(s: Seq<ObligationCollateral>, inputs: Seq<CollateralReserveInput>, threshold: bool) -> int
    decreases s.len(),
{
    if s.len() == 0 {
        0
    } else {
        let c = inputs[s.len() - 1].reserve.config;
        let bps = if threshold { c.liquidation_threshold_bps } else { c.loan_to_value_bps };
        sum_weighted(s.drop_last(), inputs, threshold) + mul_raw(s.last().market_value.raw(), fx_bps(bps as int).raw())
    }
}

/// The `k`-th term of an aggregate over the collateral positions: the value itself
/// (`which == 0`), weighted by loan-to-value (`which == 1`) or by liquidation threshold.
pub open spec fn collateral_term(deposits: Seq<ObligationCollateral>, inputs: Seq<CollateralReserveInput>, k: int, which: int) -> int {
    let v = collateral_value_spec(deposits[k], inputs[k])->Ok_0;
    let c = inputs[k].reserve.config;
    if which == 0 {
        v.raw()
    } else if which == 1 {
        mul_raw(v.raw(), fx_bps(c.loan_to_value_bps as int).raw())
    } else {
        mul_raw(v.raw(), fx_bps(c.liquidation_threshold_bps as int).raw())
    }
}

/// Running sum of the first `k` terms of an aggregate over the collateral positions.
pub open spec fn collateral_prefix(deposits: Seq<ObligationCollateral>, inputs: Seq<CollateralReserveInput>, k: nat, which: int) -> int
    decreases k,
{
    if k == 0 { 0 } else { collateral_prefix(deposits, inputs, (k - 1) as nat, which) + collateral_term(deposits, inputs, k - 1, which) }
}

/// A collateral position can be priced from its input.
pub open spec fn collateral_ok(c: ObligationCollateral, input: CollateralReserveInput, slot: u64) -> bool {
    input.key == c.reserve && fresh(input.reserve.last_update, slot)
        && collateral_value_spec(c, input) is Ok
        && fx_mul(collateral_value_spec(c, input)->Ok_0, fx_bps(input.reserve.config.loan_to_value_bps as int)) is Ok
        && fx_mul(collateral_value_spec(c, input)->Ok_0, fx_bps(input.reserve.config.liquidation_threshold_bps as int)) is Ok
}

/// The value of a debt position after catching up with its reserve's index.
pub open spec fn liability_value(l: ObligationLiquidity, input: ReserveInput) -> Fx {
    market_value_spec(
        accrue_position_spec(l, input.reserve.liquidity.cumulative_borrow_index)->Ok_0.borrowed_amount,
        input.reserve.liquidity.market_price,
        input.reserve.liquidity_mint_decimals,
    )->Ok_0
}

/// A debt position can be caught up and priced from its input.
pub open spec fn liability_ok(l: ObligationLiquidity, input: ReserveInput, slot: u64) -> bool {
    input.key == l.reserve && fresh(input.reserve.last_update, slot)
        && accrue_position_spec(l, input.reserve.liquidity.cumulative_borrow_index) is Ok
        && market_value_spec(
            accrue_position_spec(l, input.reserve.liquidity.cumulative_borrow_index)->Ok_0.borrowed_amount,
            input.reserve.liquidity.market_price,
            input.reserve.liquidity_mint_decimals,
        ) is Ok
}

pub open spec fn liability_prefix(borrows: Seq<ObligationLiquidity>, inputs: Seq<ReserveInput>, k: nat) -> int
    decreases k,
{
    if k == 0 { 0 } else { liability_prefix(borrows, inputs, (k - 1) as nat) + liability_value(borrows[k - 1], inputs[k - 1]).raw() }
}

/// Every position can be re-priced and every running aggregate fits.
pub open spec fn refreshable(o: Obligation, deposits: Seq<CollateralReserveInput>, borrows: Seq<ReserveInput>, slot: u64) -> bool {
    deposits.len() == o.deposits@.len() && borrows.len() == o.borrows@.len()
        && (forall|i: int| 0 <= i < deposits.len() ==> collateral_ok(#[trigger] o.deposits@[i], deposits[i], slot))
        && (forall|k: nat, which: int| k <= deposits.len() && 0 <= which <= 2
            ==> fits(#[trigger] collateral_prefix(o.deposits@, deposits, k, which)))
        && (forall|i: int| 0 <= i < borrows.len() ==> liability_ok(#[trigger] o.borrows@[i], borrows[i], slot))
        && (forall|k: nat| k <= borrows.len() ==> fits(#[trigger] liability_prefix(o.borrows@, borrows, k)))
}

/// Re-prices every position of the obligation from its reserve, catches debts up with
/// their reserve's borrow index, and recomputes the aggregates. The inputs name the
/// positions' reserves in the obligation's order, each refreshed in `slot`.
pub fn refresh_obligation(
    obligation: &mut Obligation,
    deposit_inputs: &Vec<CollateralReserveInput>,
    borrow_inputs: &Vec<ReserveInput>,
    slot: u64,
) -> (r: Result<(), LendingError>)
    requires
        old(obligation).wf(),
    ensures
        final(obligation).wf(),
        deposit_inputs@.len() != old(obligation).deposits@.len() || borrow_inputs@.len() != old(obligation).borrows@.len()
            ==> r == Err::<(), LendingError>(LendingError::TooManyAccounts),
        r is Ok ==> deposit_inputs@.len() == old(obligation).deposits@.len() && borrow_inputs@.len() == old(obligation).borrows@.len()
            && final(obligation).deposits@.len() == old(obligation).deposits@.len()
            && final(obligation).borrows@.len() == old(obligation).borrows@.len()
            && (forall|i: int| 0 <= i < old(obligation).deposits@.len() ==> {
                let c = #[trigger] old(obligation).deposits@[i];
                let input = deposit_inputs@[i];
                input.key == c.reserve && fresh(input.reserve.last_update, slot)
                    && collateral_value_spec(c, input) == Ok::<Fx, LendingError>(final(obligation).deposits@[i].market_value)
                    && final(obligation).deposits@[i] == (ObligationCollateral { market_value: final(obligation).deposits@[i].market_value, ..c })
            })
            && (forall|i: int| 0 <= i < old(obligation).borrows@.len() ==> {
                let l = #[trigger] old(obligation).borrows@[i];
                let input = borrow_inputs@[i];
                let n = final(obligation).borrows@[i];
                input.key == l.reserve && fresh(input.reserve.last_update, slot)
                    && accrue_position_spec(l, input.reserve.liquidity.cumulative_borrow_index)
                        == Ok::<ObligationLiquidity, LendingError>(ObligationLiquidity { market_value: l.market_value, ..n })
                    && market_value_spec(n.borrowed_amount, input.reserve.liquidity.market_price, input.reserve.liquidity_mint_decimals)
                        == Ok::<Fx, LendingError>(n.market_value)
            })
            && final(obligation).deposited_value.raw() == sum_collateral(final(obligation).deposits@)
            && final(obligation).borrowed_value.raw() == sum_liquidity(final(obligation).borrows@)
            && final(obligation).weighted_allowed_borrow_value.raw() == sum_weighted(final(obligation).deposits@, deposit_inputs@, false)
            && final(obligation).weighted_unhealthy_borrow_value.raw() == sum_weighted(final(obligation).deposits@, deposit_inputs@, true)
            && final(obligation).last_update.slot == slot && !final(obligation).last_update.is_stale,
        r is Err ==> same_obligation(*final(obligation), *old(obligation)),
        refreshable(*old(obligation), deposit_inputs@, borrow_inputs@, slot) ==> r is Ok,
{
    let ghost ok = refreshable(*old(obligation), deposit_inputs@, borrow_inputs@, slot);
    if deposit_inputs.len() != obligation.deposits.len() || borrow_inputs.len() != obligation.borrows.len() {
        return Err(LendingError::TooManyAccounts);
    }
    let mut deposited = Fx::zero();
    let mut allowed = Fx::zero();
    let mut unhealthy = Fx::zero();
    let mut deposits: Vec<ObligationCollateral> = Vec::new();
    let mut i: usize = 0;
    while i < obligation.deposits.len()
        invariant
            obligation.deposits@ == old(obligation).deposits@,
            obligation.borrows@ == old(obligation).borrows@,
            old(obligation).wf(),
            deposit_inputs@.len() == obligation.deposits@.len(),
            borrow_inputs@.len() == obligation.borrows@.len(),
            i <= obligation.deposits@.len(),
            deposits@.len() == i,
            forall|j: int| 0 <= j < i ==> {
                let c = #[trigger] old(obligation).deposits@[j];
                let input = deposit_inputs@[j];
                input.key == c.reserve && fresh(input.reserve.last_update, slot)
                    && collateral_value_spec(c, input) == Ok::<Fx, LendingError>(deposits@[j].market_value)
                    && deposits@[j] == (ObligationCollateral { market_value: deposits@[j].market_value, ..c })
            },
            deposited.raw() == sum_collateral(deposits@),
            allowed.raw() == sum_weighted(deposits@, deposit_inputs@, false),
            unhealthy.raw() == sum_weighted(deposits@, deposit_inputs@, true),
            ok == refreshable(*old(obligation), deposit_inputs@, borrow_inputs@, slot),
            ok ==> deposited.raw() == collateral_prefix(old(obligation).deposits@, deposit_inputs@, i as nat, 0),
            ok ==> allowed.raw() == collateral_prefix(old(obligation).deposits@, deposit_inputs@, i as nat, 1),
            ok ==> unhealthy.raw() == collateral_prefix(old(obligation).deposits@, deposit_inputs@, i as nat, 2),
        decreases obligation.deposits@.len() - i,
    {
        let c = obligation.deposits[i];
        let input = deposit_inputs[i];
        proof {
            if ok {
                assert(collateral_ok(old(obligation).deposits@[i as int], deposit_inputs@[i as int], slot));
                assert(fits(collateral_prefix(old(obligation).deposits@, deposit_inputs@, (i + 1) as nat, 0)));
                assert(fits(collateral_prefix(old(obligation).deposits@, deposit_inputs@, (i + 1) as nat, 1)));
                assert(fits(collateral_prefix(old(obligation).deposits@, deposit_inputs@, (i + 1) as nat, 2)));
            }
        }
        if input.key != c.reserve {
            return Err(LendingError::TooManyAccounts);
        }
        match check_fresh(&input.reserve.last_update, slot, LendingError::ReserveStale) {
            Ok(()) => {},
            Err(e) => return Err(e),
        }
        let rate = match input.reserve.liquidity.receipt_exchange_rate(input.receipt_mint_supply) {
            Ok(v) => v,
            Err(e) => return Err(e),
        };
        let liquidity = match input.reserve.liquidity.receipt_to_liquidity(c.deposited_amount, rate) {
            Ok(v) => v,
            Err(e) => return Err(e),
        };
        let value = match market_value(liquidity, &input.reserve) {
            Ok(v) => v,
            Err(e) => return Err(e),
        };
        let ltv = match bps_to_i80f48(input.reserve.config.loan_to_value_bps) {
            Ok(v) => v,
            Err(e) => return Err(e),
        };
        let threshold = match bps_to_i80f48(input.reserve.config.liquidation_threshold_bps) {
            Ok(v) => v,
            Err(e) => return Err(e),
        };
        let weighted_ltv = match value.safe_mul(ltv) {
            Ok(v) => v,
            Err(e) => return Err(e),
        };
        let weighted_threshold = match value.safe_mul(threshold) {
            Ok(v) => v,
            Err(e) => return Err(e),
        };
        deposited = match deposited.safe_add(value) {
            Ok(v) => v,
            Err(e) => return Err(e),
        };
        allowed = match allowed.safe_add(weighted_ltv) {
            Ok(v) => v,
            Err(e) => return Err(e),
        };
        unhealthy = match unhealthy.safe_add(weighted_threshold) {
            Ok(v) => v,
            Err(e) => return Err(e),
        };
        let ghost prev = deposits@;
        deposits.push(ObligationCollateral { market_value: value, ..c });
        proof {
            assert(deposits@.drop_last() =~= prev);
        }
        i = i + 1;
    }
    let mut borrowed = Fx::zero();
    let mut borrows: Vec<ObligationLiquidity> = Vec::new();
    let mut k: usize = 0;
    while k < obligation.borrows.len()
        invariant
            obligation.deposits@ == old(obligation).deposits@,
            obligation.borrows@ == old(obligation).borrows@,
            old(obligation).wf(),
            deposit_inputs@.len() == obligation.deposits@.len(),
            borrow_inputs@.len() == obligation.borrows@.len(),
            deposits@.len() == obligation.deposits@.len(),
            forall|j: int| 0 <= j < deposits@.len() ==> {
                let c = #[trigger] old(obligation).deposits@[j];
                let input = deposit_inputs@[j];
                input.key == c.reserve && fresh(input.reserve.last_update, slot)
                    && collateral_value_spec(c, input) == Ok::<Fx, LendingError>(deposits@[j].market_value)
                    && deposits@[j] == (ObligationCollateral { market_value: deposits@[j].market_value, ..c })
            },
            deposited.raw() == sum_collateral(deposits@),
            allowed.raw() == sum_weighted(deposits@, deposit_inputs@, false),
            unhealthy.raw() == sum_weighted(deposits@, deposit_inputs@, true),
            k <= obligation.borrows@.len(),
            borrows@.len() == k,
            forall|j: int| 0 <= j < k ==> {
                let l = #[trigger] old(obligation).borrows@[j];
                let input = borrow_inputs@[j];
                let n = borrows@[j];
                input.key == l.reserve && fresh(input.reserve.last_update, slot)
                    && accrue_position_spec(l, input.reserve.liquidity.cumulative_borrow_index)
                        == Ok::<ObligationLiquidity, LendingError>(ObligationLiquidity { market_value: l.market_value, ..n })
                    && market_value_spec(n.borrowed_amount, input.reserve.liquidity.market_price, input.reserve.liquidity_mint_decimals)
                        == Ok::<Fx, LendingError>(n.market_value)
            },
            borrowed.raw() == sum_liquidity(borrows@),
            ok == refreshable(*old(obligation), deposit_inputs@, borrow_inputs@, slot),
            ok ==> borrowed.raw() == liability_prefix(old(obligation).borrows@, borrow_inputs@, k as nat),
        decreases obligation.borrows@.len() - k,
    {
        let mut l = obligation.borrows[k];
        let input = borrow_inputs[k];
        proof {
            if ok {
                assert(liability_ok(old(obligation).borrows@[k as int], borrow_inputs@[k as int], slot));
                assert(fits(liability_prefix(old(obligation).borrows@, borrow_inputs@, (k + 1) as nat)));
            }
        }
        if input.key != l.reserve {
            return Err(LendingError::TooManyAccounts);
        }
        match check_fresh(&input.reserve.last_update, slot, LendingError::ReserveStale) {
            Ok(()) => {},
            Err(e) => return Err(e),
        }
        match l.accrue_interest(input.reserve.liquidity.cumulative_borrow_index) {
            Ok(()) => {},
            Err(e) => return Err(e),
        }
        let value = match market_value(l.borrowed_amount, &input.reserve) {
            Ok(v) => v,
            Err(e) => return Err(e),
        };
        borrowed = match borrowed.safe_add(value) {
            Ok(v) => v,
            Err(e) => return Err(e),
        };
        let ghost prev = borrows@;
        borrows.push(ObligationLiquidity { market_value: value, ..l });
        proof {
            assert(borrows@.drop_last() =~= prev);
        }
        k = k + 1;
    }
    proof {
        assert forall|a: int, b: int| 0 <= a < b < deposits@.len() implies deposits@[a].reserve != deposits@[b].reserve by {
            assert(deposits@[a].reserve == old(obligation).deposits@[a].reserve);
            assert(deposits@[b].reserve == old(obligation).deposits@[b].reserve);
        }
        assert forall|a: int, b: int| 0 <= a < b < borrows@.len() implies borrows@[a].reserve != borrows@[b].reserve by {
            assert(borrows@[a].reserve == old(obligation).borrows@[a].reserve);
            assert(borrows@[b].reserve == old(obligation).borrows@[b].reserve);
        }
    }
    obligation.deposits = deposits;
    obligation.borrows = borrows;
    obligation.deposited_value = deposited;
    obligation.borrowed_value = borrowed;
    obligation.weighted_allowed_borrow_value = allowed;
    obligation.weighted_unhealthy_borrow_value = unhealthy;
    obligation.last_update.update_slot(slot);
    Ok(())
}

} // verus!
