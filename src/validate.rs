use vstd::prelude::*;
use crate::error::LendingError;
use crate::fx::MAX_BASIS_POINTS;
use crate::last_update::LastUpdate;
use crate::reserve::ReserveConfig;

verus! {

pub fn validate_bps(bps: u16) -> (r: Result<(), LendingError>)
    ensures
        bps <= MAX_BASIS_POINTS <==> r is Ok,
        bps > MAX_BASIS_POINTS ==> r == Err::<(), LendingError>(LendingError::InvalidBasisPoints),
{
    if bps <= MAX_BASIS_POINTS { Ok(()) } else { Err(LendingError::InvalidBasisPoints) }
}

pub fn validate_reserve_refreshed(is_stale: bool) -> (r: Result<(), LendingError>)
    ensures
        !is_stale <==> r is Ok,
        is_stale ==> r == Err::<(), LendingError>(LendingError::ReserveStale),
{
    if is_stale { Err(LendingError::ReserveStale) } else { Ok(()) }
}

pub fn validate_obligation_refreshed(is_stale: bool) -> (r: Result<(), LendingError>)
    ensures
        !is_stale <==> r is Ok,
        is_stale ==> r == Err::<(), LendingError>(LendingError::ObligationStale),
{
    if is_stale { Err(LendingError::ObligationStale) } else { Ok(()) }
}

/// Refreshed in this very slot and not changed since.
pub open spec fn fresh(u: LastUpdate, slot: u64) -> bool {
    !u.is_stale && slot == u.slot
}

/// Fails with `stale_error` unless the record was refreshed in `slot`; a slot before the
/// last update is an arithmetic failure.
pub fn check_fresh(u: &LastUpdate, slot: u64, stale_error: LendingError) -> (r: Result<(), LendingError>)
    ensures
        fresh(*u, slot) <==> r is Ok,
        u.is_stale ==> r == Err::<(), LendingError>(stale_error),
        !u.is_stale && slot < u.slot ==> r == Err::<(), LendingError>(LendingError::MathOverflow),
        !u.is_stale && slot > u.slot ==> r == Err::<(), LendingError>(stale_error),
{
    match u.is_stale(slot) {
        Ok(true) => Err(stale_error),
        Ok(false) => Ok(()),
        Err(e) => Err(e),
    }
}

pub open spec fn bps_ok(b: u16) -> bool {
    b <= MAX_BASIS_POINTS
}

/// What a reserve's configuration must satisfy.
pub open spec fn valid_config(c: ReserveConfig) -> bool {
    bps_ok(c.optimal_utilization_rate_bps) && bps_ok(c.loan_to_value_bps) && bps_ok(c.liquidation_bonus_bps)
        && bps_ok(c.liquidation_threshold_bps) && bps_ok(c.liquidation_close_factor_bps)
        && bps_ok(c.min_borrow_rate_bps) && bps_ok(c.optimal_borrow_rate_bps) && bps_ok(c.max_borrow_rate_bps)
        && bps_ok(c.fees.flash_loan_fee_bps) && bps_ok(c.fees.platform_fee_bps)
        && c.liquidation_threshold_bps > c.loan_to_value_bps
        && c.max_borrow_rate_bps > c.optimal_borrow_rate_bps
        && c.optimal_borrow_rate_bps > c.min_borrow_rate_bps
}

pub open spec fn all_bps_ok(c: ReserveConfig) -> bool {
    bps_ok(c.optimal_utilization_rate_bps) && bps_ok(c.loan_to_value_bps) && bps_ok(c.liquidation_bonus_bps)
        && bps_ok(c.liquidation_threshold_bps) && bps_ok(c.liquidation_close_factor_bps)
        && bps_ok(c.min_borrow_rate_bps) && bps_ok(c.optimal_borrow_rate_bps) && bps_ok(c.max_borrow_rate_bps)
        && bps_ok(c.fees.flash_loan_fee_bps) && bps_ok(c.fees.platform_fee_bps)
}

/// The outcome of validating a configuration: basis points first, then the three orderings.
pub open spec fn validate_config_spec(c: ReserveConfig) -> Result<(), LendingError> {
    if !all_bps_ok(c) {
        Err(LendingError::InvalidBasisPoints)
    } else if c.liquidation_threshold_bps <= c.loan_to_value_bps {
        Err(LendingError::InvalidLiquidationThreshold)
    } else if c.max_borrow_rate_bps <= c.optimal_borrow_rate_bps {
        Err(LendingError::InvalidMaxBorrowRate)
    } else if c.optimal_borrow_rate_bps <= c.min_borrow_rate_bps {
        Err(LendingError::InvalidOptimalBorrowRate)
    } else {
        Ok(())
    }
}

/// Checks every basis-point field, then the three orderings.
pub fn validate_reserve_config(c: &ReserveConfig) -> (r: Result<(), LendingError>)
    ensures
        r == validate_config_spec(*c),
        r is Ok <==> valid_config(*c),
        !all_bps_ok(*c) ==> r == Err::<(), LendingError>(LendingError::InvalidBasisPoints),
        all_bps_ok(*c) && c.liquidation_threshold_bps <= c.loan_to_value_bps
            ==> r == Err::<(), LendingError>(LendingError::InvalidLiquidationThreshold),
        all_bps_ok(*c) && c.liquidation_threshold_bps > c.loan_to_value_bps && c.max_borrow_rate_bps <= c.optimal_borrow_rate_bps
            ==> r == Err::<(), LendingError>(LendingError::InvalidMaxBorrowRate),
        all_bps_ok(*c) && c.liquidation_threshold_bps > c.loan_to_value_bps && c.max_borrow_rate_bps > c.optimal_borrow_rate_bps
            && c.optimal_borrow_rate_bps <= c.min_borrow_rate_bps
            ==> r == Err::<(), LendingError>(LendingError::InvalidOptimalBorrowRate),
{
    let fields: [u16; 10] = [
        c.optimal_utilization_rate_bps,
        c.loan_to_value_bps,
        c.liquidation_bonus_bps,
        c.liquidation_threshold_bps,
        c.liquidation_close_factor_bps,
        c.min_borrow_rate_bps,
        c.optimal_borrow_rate_bps,
        c.max_borrow_rate_bps,
        c.fees.flash_loan_fee_bps,
        c.fees.platform_fee_bps,
    ];
    let mut i: usize = 0;
    while i < 10
        invariant
            i <= 10,
            fields@ == seq![c.optimal_utilization_rate_bps, c.loan_to_value_bps, c.liquidation_bonus_bps,
                c.liquidation_threshold_bps, c.liquidation_close_factor_bps, c.min_borrow_rate_bps,
                c.optimal_borrow_rate_bps, c.max_borrow_rate_bps, c.fees.flash_loan_fee_bps, c.fees.platform_fee_bps],
            forall|j: int| 0 <= j < i ==> bps_ok(fields@[j]),
        decreases 10 - i,
    {
        match validate_bps(fields[i]) {
            Ok(()) => {},
            Err(e) => return Err(e),
        }
        i = i + 1;
    }
    assert(forall|j: int| 0 <= j < 10 ==> bps_ok(fields@[j]));
    assert(bps_ok(fields@[0]) && bps_ok(fields@[1]) && bps_ok(fields@[2]) && bps_ok(fields@[3]) && bps_ok(fields@[4]));
    assert(bps_ok(fields@[5]) && bps_ok(fields@[6]) && bps_ok(fields@[7]) && bps_ok(fields@[8]) && bps_ok(fields@[9]));
    if c.liquidation_threshold_bps <= c.loan_to_value_bps {
        return Err(LendingError::InvalidLiquidationThreshold);
    }
    if c.max_borrow_rate_bps <= c.optimal_borrow_rate_bps {
        return Err(LendingError::InvalidMaxBorrowRate);
    }
    if c.optimal_borrow_rate_bps <= c.min_borrow_rate_bps {
        return Err(LendingError::InvalidOptimalBorrowRate);
    }
    Ok(())
}

} // verus!
