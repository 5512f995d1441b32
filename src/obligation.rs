//! Obligations: a user's collateral and debt positions within one market.
use vstd::prelude::*;
use crate::error::LendingError;
use crate::fx::{fx_div, fx_mul, fx_ceil_u64, fx_of, fx_one, fx_sub, Fx};
use crate::last_update::LastUpdate;
use crate::pubkey::Pubkey;

verus! {

/// Collateral deposited into one reserve, counted in receipts.
#[derive(Clone, Copy, Debug, PartialEq, Eq, Structural)]
pub struct ObligationCollateral {
    pub reserve: Pubkey,
    pub deposited_amount: u64,
    /// Value at the last refresh.
    pub market_value: Fx,
}

/// Liquidity borrowed from one reserve, interest included.
#[derive(Clone, Copy, Debug, PartialEq, Eq, Structural)]
pub struct ObligationLiquidity {
    pub reserve: Pubkey,
    pub borrowed_amount: u64,
    /// The reserve's cumulative borrow index when interest was last caught up.
    pub cumulative_borrow_index: Fx,
    /// Value at the last refresh.
    pub market_value: Fx,
}

/// The debt after catching up with the reserve's index `index`.
pub open spec fn accrue_position_spec(l: ObligationLiquidity, index: Fx) -> Result<ObligationLiquidity, LendingError> {
    if index.raw() < l.cumulative_borrow_index.raw() {
        Err(LendingError::NegativeInterestRate)
    } else if index.raw() == l.cumulative_borrow_index.raw() {
        Ok(l)
    } else {
        match fx_mul(index, fx_of(l.borrowed_amount as int)) {
            Err(e) => Err(e),
            Ok(p) => match fx_div(p, l.cumulative_borrow_index) {
                Err(e) => Err(e),
                Ok(q) => match fx_ceil_u64(q) {
                    Err(e) => Err(e),
                    Ok(amount) => Ok(ObligationLiquidity { borrowed_amount: amount, cumulative_borrow_index: index, ..l }),
                },
            },
        }
    }
}

impl ObligationCollateral {
    pub fn deposit(&mut self, collateral_amount: u64) -> (r: Result<(), LendingError>)
        ensures
            old(self).deposited_amount + collateral_amount <= u64::MAX ==> r is Ok
                && *final(self) == (ObligationCollateral { deposited_amount: (old(self).deposited_amount + collateral_amount) as u64, ..*old(self) }),
            old(self).deposited_amount + collateral_amount > u64::MAX ==> r == Err::<(), LendingError>(LendingError::MathOverflow)
                && *final(self) == *old(self),
    {
        match self.deposited_amount.checked_add(collateral_amount) {
            Some(v) => {
                self.deposited_amount = v;
                Ok(())
            },
            None => Err(LendingError::MathOverflow),
        }
    }

    pub fn withdraw(&mut self, collateral_amount: u64) -> (r: Result<(), LendingError>)
        ensures
            collateral_amount <= old(self).deposited_amount ==> r is Ok
                && *final(self) == (ObligationCollateral { deposited_amount: (old(self).deposited_amount - collateral_amount) as u64, ..*old(self) }),
            collateral_amount > old(self).deposited_amount ==> r == Err::<(), LendingError>(LendingError::MathOverflow)
                && *final(self) == *old(self),
    {
        match self.deposited_amount.checked_sub(collateral_amount) {
            Some(v) => {
                self.deposited_amount = v;
                Ok(())
            },
            None => Err(LendingError::MathOverflow),
        }
    }
}

impl ObligationLiquidity {
    /// Grows the debt by the ratio of the reserve's index to the stored one, rounding up.
    /// An index that went backwards is refused.
    pub fn accrue_interest(&mut self, cumulative_borrow_index: Fx) -> (r: Result<(), LendingError>)
        ensures
            match accrue_position_spec(*old(self), cumulative_borrow_index) {
                Ok(next) => r is Ok && *final(self) == next,
                Err(e) => r == Err::<(), LendingError>(e) && *final(self) == *old(self),
            },
    {
        if cumulative_borrow_index.bits < self.cumulative_borrow_index.bits {
            return Err(LendingError::NegativeInterestRate);
        }
        if cumulative_borrow_index.bits == self.cumulative_borrow_index.bits {
            return Ok(());
        }
        let p = match cumulative_borrow_index.safe_mul(Fx::from_u64(self.borrowed_amount)) {
            Ok(v) => v,
            Err(e) => return Err(e),
        };
        let q = match p.safe_div(self.cumulative_borrow_index) {
            Ok(v) => v,
            Err(e) => return Err(e),
        };
        let amount = match q.ceil_to_u64() {
            Ok(v) => v,
            Err(e) => return Err(e),
        };
        self.borrowed_amount = amount;
        self.cumulative_borrow_index = cumulative_borrow_index;
        Ok(())
    }

    pub fn borrow(&mut self, liquidity_amount: u64) -> (r: Result<(), LendingError>)
        ensures
            old(self).borrowed_amount + liquidity_amount <= u64::MAX ==> r is Ok
                && *final(self) == (ObligationLiquidity { borrowed_amount: (old(self).borrowed_amount + liquidity_amount) as u64, ..*old(self) }),
            old(self).borrowed_amount + liquidity_amount > u64::MAX ==> r == Err::<(), LendingError>(LendingError::MathOverflow)
                && *final(self) == *old(self),
    {
        match self.borrowed_amount.checked_add(liquidity_amount) {
            Some(v) => {
                self.borrowed_amount = v;
                Ok(())
            },
            None => Err(LendingError::MathOverflow),
        }
    }

    pub fn repay(&mut self, liquidity_amount: u64) -> (r: Result<(), LendingError>)
        ensures
            liquidity_amount <= old(self).borrowed_amount ==> r is Ok
                && *final(self) == (ObligationLiquidity { borrowed_amount: (old(self).borrowed_amount - liquidity_amount) as u64, ..*old(self) }),
            liquidity_amount > old(self).borrowed_amount ==> r == Err::<(), LendingError>(LendingError::MathOverflow)
                && *final(self) == *old(self),
    {
        match self.borrowed_amount.checked_sub(liquidity_amount) {
            Some(v) => {
                self.borrowed_amount = v;
                Ok(())
            },
            None => Err(LendingError::MathOverflow),
        }
    }
}

/// A user's positions in one market, with the aggregates of the last refresh.
pub struct Obligation {
    pub last_update: LastUpdate,
    pub market: Pubkey,
    pub authority: Pubkey,
    /// Collateral positions, unique by reserve, in the order they were opened.
    pub deposits: Vec<ObligationCollateral>,
    /// Debt positions, unique by reserve, in the order they were opened.
    pub borrows: Vec<ObligationLiquidity>,
    pub deposited_value: Fx,
    pub borrowed_value: Fx,
    /// Sum of each collateral value times its reserve's loan-to-value, in basis points.
    pub weighted_allowed_borrow_value: Fx,
    /// Sum of each collateral value times its reserve's liquidation threshold, in basis points.
    pub weighted_unhealthy_borrow_value: Fx,
    pub bump: u8,
}

pub struct NewObligationArgs {
    pub last_update: LastUpdate,
    pub market: Pubkey,
    pub authority: Pubkey,
    pub bump: u8,
}

pub open spec fn unique_deposits(s: Seq<ObligationCollateral>) -> bool {
    forall|i: int, j: int| 0 <= i < j < s.len() ==> s[i].reserve != s[j].reserve
}

pub open spec fn unique_borrows(s: Seq<ObligationLiquidity>) -> bool {
    forall|i: int, j: int| 0 <= i < j < s.len() ==> s[i].reserve != s[j].reserve
}

pub open spec fn has_deposit(s: Seq<ObligationCollateral>, key: Pubkey) -> bool {
    exists|i: int| 0 <= i < s.len() && s[i].reserve == key
}

pub open spec fn has_borrow(s: Seq<ObligationLiquidity>, key: Pubkey) -> bool {
    exists|i: int| 0 <= i < s.len() && s[i].reserve == key
}

/// `min(close_factor * borrowed_value, liability value) / liability value * borrowed amount`.
pub open spec fn max_liquidation_spec(borrowed_value: Fx, l: ObligationLiquidity, close_factor: Fx) -> Result<Fx, LendingError> {
    match fx_mul(close_factor, borrowed_value) {
        Err(e) => Err(e),
        Ok(v) => {
            let capped = if v.raw() <= l.market_value.raw() { v } else { l.market_value };
            match fx_div(capped, l.market_value) {
                Err(e) => Err(e),
                Ok(ratio) => fx_mul(ratio, fx_of(l.borrowed_amount as int)),
            }
        },
    }
}

/// Value that may still be withdrawn, given the loan-to-value of the collateral withdrawn.
pub open spec fn max_withdraw_spec(o: Obligation, ltv: Fx) -> Result<Fx, LendingError> {
    if o.weighted_allowed_borrow_value.raw() <= o.borrowed_value.raw() {
        Ok(Fx { bits: 0 })
    } else if ltv.raw() == 0 {
        Ok(o.deposited_value)
    } else {
        match fx_sub(o.weighted_allowed_borrow_value, o.borrowed_value) {
            Err(e) => Err(e),
            Ok(rest) => fx_div(rest, ltv),
        }
    }
}

/// Most positions an obligation holds on each side.
pub const MAX_OBLIGATION_RESERVES: usize = 5;

/// Everything but the position lists is the same.
pub open spec fn same_header(a: Obligation, b: Obligation) -> bool {
    a.last_update == b.last_update && a.market == b.market && a.authority == b.authority
        && a.deposited_value == b.deposited_value && a.borrowed_value == b.borrowed_value
        && a.weighted_allowed_borrow_value == b.weighted_allowed_borrow_value
        && a.weighted_unhealthy_borrow_value == b.weighted_unhealthy_borrow_value && a.bump == b.bump
}

/// Nothing observable differs.
pub open spec fn same_obligation(a: Obligation, b: Obligation) -> bool {
    same_header(a, b) && a.deposits@ == b.deposits@ && a.borrows@ == b.borrows@
}

impl Obligation {
    /// Positions are unique by reserve, at most five on each side.
    pub open spec fn wf(&self) -> bool {
        unique_deposits(self.deposits@) && unique_borrows(self.borrows@)
            && self.deposits@.len() <= MAX_OBLIGATION_RESERVES && self.borrows@.len() <= MAX_OBLIGATION_RESERVES
    }

    pub fn new(args: NewObligationArgs) -> (r: Obligation)
        ensures
            r.wf(),
            r.deposits@.len() == 0,
            r.borrows@.len() == 0,
            r.last_update == args.last_update,
            r.market == args.market,
            r.authority == args.authority,
            r.bump == args.bump,
            r.deposited_value.raw() == 0,
            r.borrowed_value.raw() == 0,
            r.weighted_allowed_borrow_value.raw() == 0,
            r.weighted_unhealthy_borrow_value.raw() == 0,
    {
        Obligation {
            last_update: args.last_update,
            market: args.market,
            authority: args.authority,
            deposits: Vec::new(),
            borrows: Vec::new(),
            deposited_value: Fx::zero(),
            borrowed_value: Fx::zero(),
            weighted_allowed_borrow_value: Fx::zero(),
            weighted_unhealthy_borrow_value: Fx::zero(),
            bump: args.bump,
        }
    }

    pub fn find_collateral_index_in_deposits(&self, deposit_reserve: Pubkey) -> (r: Option<usize>)
        ensures
            r matches Some(i) ==> i < self.deposits@.len() && self.deposits@[i as int].reserve == deposit_reserve,
            r is None <==> !has_deposit(self.deposits@, deposit_reserve),
    {
        let mut i: usize = 0;
        while i < self.deposits.len()
            invariant
                i <= self.deposits@.len(),
                forall|j: int| 0 <= j < i ==> self.deposits@[j].reserve != deposit_reserve,
            decreases self.deposits@.len() - i,
        {
            if self.deposits[i].reserve == deposit_reserve {
                return Some(i);
            }
            i = i + 1;
        }
        None
    }

    pub fn find_liquidity_index_in_borrows(&self, borrow_reserve: Pubkey) -> (r: Option<usize>)
        ensures
            r matches Some(i) ==> i < self.borrows@.len() && self.borrows@[i as int].reserve == borrow_reserve,
            r is None <==> !has_borrow(self.borrows@, borrow_reserve),
    {
        let mut i: usize = 0;
        while i < self.borrows.len()
            invariant
                i <= self.borrows@.len(),
                forall|j: int| 0 <= j < i ==> self.borrows@[j].reserve != borrow_reserve,
            decreases self.borrows@.len() - i,
        {
            if self.borrows[i].reserve == borrow_reserve {
                return Some(i);
            }
            i = i + 1;
        }
        None
    }

    /// The index of the collateral position for `deposit_reserve`, opened empty if there
    /// is none; fails when a new position would exceed the cap.
    pub fn find_or_add_collateral_to_deposits(&mut self, deposit_reserve: Pubkey) -> (r: Result<usize, LendingError>)
        requires
            old(self).wf(),
        ensures
            final(self).wf(),
            same_header(*final(self), *old(self)),
            final(self).borrows@ == old(self).borrows@,
            has_deposit(old(self).deposits@, deposit_reserve) ==> final(self).deposits@ == old(self).deposits@ && r is Ok,
            !has_deposit(old(self).deposits@, deposit_reserve) && old(self).deposits@.len() < MAX_OBLIGATION_RESERVES
                ==> r is Ok && final(self).deposits@ == old(self).deposits@.push(
                ObligationCollateral { reserve: deposit_reserve, deposited_amount: 0, market_value: Fx { bits: 0 } }),
            !has_deposit(old(self).deposits@, deposit_reserve) && old(self).deposits@.len() >= MAX_OBLIGATION_RESERVES
                ==> r == Err::<usize, LendingError>(LendingError::ObligationPositionsFull) && final(self).deposits@ == old(self).deposits@,
            r matches Ok(i) ==> i < final(self).deposits@.len() && final(self).deposits@[i as int].reserve == deposit_reserve,
    {
        match self.find_collateral_index_in_deposits(deposit_reserve) {
            Some(i) => Ok(i),
            None => {
                if self.deposits.len() >= MAX_OBLIGATION_RESERVES {
                    return Err(LendingError::ObligationPositionsFull);
                }
                self.deposits.push(ObligationCollateral { reserve: deposit_reserve, deposited_amount: 0, market_value: Fx::zero() });
                Ok(self.deposits.len() - 1)
            },
        }
    }

    /// The index of the debt position for `borrow_reserve`, opened empty (index one) if
    /// there is none; fails when a new position would exceed the cap.
    pub fn find_or_add_liquidity_to_borrows(&mut self, borrow_reserve: Pubkey) -> (r: Result<usize, LendingError>)
        requires
            old(self).wf(),
        ensures
            final(self).wf(),
            same_header(*final(self), *old(self)),
            final(self).deposits@ == old(self).deposits@,
            has_borrow(old(self).borrows@, borrow_reserve) ==> final(self).borrows@ == old(self).borrows@ && r is Ok,
            !has_borrow(old(self).borrows@, borrow_reserve) && old(self).borrows@.len() < MAX_OBLIGATION_RESERVES
                ==> r is Ok && final(self).borrows@ == old(self).borrows@.push(
                ObligationLiquidity { reserve: borrow_reserve, borrowed_amount: 0, cumulative_borrow_index: fx_one(), market_value: Fx { bits: 0 } }),
            !has_borrow(old(self).borrows@, borrow_reserve) && old(self).borrows@.len() >= MAX_OBLIGATION_RESERVES
                ==> r == Err::<usize, LendingError>(LendingError::ObligationPositionsFull) && final(self).borrows@ == old(self).borrows@,
            r matches Ok(i) ==> i < final(self).borrows@.len() && final(self).borrows@[i as int].reserve == borrow_reserve,
    {
        match self.find_liquidity_index_in_borrows(borrow_reserve) {
            Some(i) => Ok(i),
            None => {
                if self.borrows.len() >= MAX_OBLIGATION_RESERVES {
                    return Err(LendingError::ObligationPositionsFull);
                }
                self.borrows.push(ObligationLiquidity {
                    reserve: borrow_reserve,
                    borrowed_amount: 0,
                    cumulative_borrow_index: Fx::one(),
                    market_value: Fx::zero(),
                });
                Ok(self.borrows.len() - 1)
            },
        }
    }

    /// Takes `withdraw_amount` receipts out of the collateral position at `index`;
    /// a position that reaches zero is removed, keeping the order of the others.
    pub fn withdraw(&mut self, withdraw_amount: u64, index: usize) -> (r: Result<(), LendingError>)
        requires
            old(self).wf(),
            index < old(self).deposits@.len(),
        ensures
            final(self).wf(),
            same_header(*final(self), *old(self)),
            final(self).borrows@ == old(self).borrows@,
            withdraw_amount == old(self).deposits@[index as int].deposited_amount ==> r is Ok
                && final(self).deposits@ == old(self).deposits@.remove(index as int),
            withdraw_amount < old(self).deposits@[index as int].deposited_amount ==> r is Ok
                && final(self).deposits@ == old(self).deposits@.update(index as int, ObligationCollateral {
                    deposited_amount: (old(self).deposits@[index as int].deposited_amount - withdraw_amount) as u64,
                    ..old(self).deposits@[index as int]
                }),
            withdraw_amount > old(self).deposits@[index as int].deposited_amount ==> r == Err::<(), LendingError>(LendingError::MathOverflow)
                && final(self).deposits@ == old(self).deposits@,
    {
        let mut position = self.deposits[index];
        if withdraw_amount == position.deposited_amount {
            self.deposits.remove(index);
            proof {
                assert forall|i: int, j: int| 0 <= i < j < self.deposits@.len() implies self.deposits@[i].reserve != self.deposits@[j].reserve by {
                    let oi = if i < index { i } else { i + 1 };
                    let oj = if j < index { j } else { j + 1 };
                    assert(self.deposits@[i] == old(self).deposits@[oi]);
                    assert(self.deposits@[j] == old(self).deposits@[oj]);
                }
            }
            Ok(())
        } else {
            match position.withdraw(withdraw_amount) {
                Ok(()) => {
                    self.deposits.set(index, position);
                    Ok(())
                },
                Err(e) => Err(e),
            }
        }
    }

    /// Pays `repay_amount` off the debt position at `index`; a position that reaches
    /// zero is removed, keeping the order of the others.
    pub fn repay(&mut self, repay_amount: u64, index: usize) -> (r: Result<(), LendingError>)
        requires
            old(self).wf(),
            index < old(self).borrows@.len(),
        ensures
            final(self).wf(),
            same_header(*final(self), *old(self)),
            final(self).deposits@ == old(self).deposits@,
            repay_amount == old(self).borrows@[index as int].borrowed_amount ==> r is Ok
                && final(self).borrows@ == old(self).borrows@.remove(index as int),
            repay_amount < old(self).borrows@[index as int].borrowed_amount ==> r is Ok
                && final(self).borrows@ == old(self).borrows@.update(index as int, ObligationLiquidity {
                    borrowed_amount: (old(self).borrows@[index as int].borrowed_amount - repay_amount) as u64,
                    ..old(self).borrows@[index as int]
                }),
            repay_amount > old(self).borrows@[index as int].borrowed_amount ==> r == Err::<(), LendingError>(LendingError::MathOverflow)
                && final(self).borrows@ == old(self).borrows@,
    {
        let mut position = self.borrows[index];
        if repay_amount == position.borrowed_amount {
            self.borrows.remove(index);
            proof {
                assert forall|i: int, j: int| 0 <= i < j < self.borrows@.len() implies self.borrows@[i].reserve != self.borrows@[j].reserve by {
                    let oi = if i < index { i } else { i + 1 };
                    let oj = if j < index { j } else { j + 1 };
                    assert(self.borrows@[i] == old(self).borrows@[oi]);
                    assert(self.borrows@[j] == old(self).borrows@[oj]);
                }
            }
            Ok(())
        } else {
            match position.repay(repay_amount) {
                Ok(()) => {
                    self.borrows.set(index, position);
                    Ok(())
                },
                Err(e) => Err(e),
            }
        }
    }

    pub fn find_collateral_in_deposits(&self, deposit_reserve: Pubkey) -> (r: Result<(ObligationCollateral, usize), LendingError>)
        ensures
            self.deposits@.len() == 0 ==> r == Err::<(ObligationCollateral, usize), LendingError>(LendingError::ObligationDepositsEmpty),
            self.deposits@.len() > 0 && !has_deposit(self.deposits@, deposit_reserve)
                ==> r == Err::<(ObligationCollateral, usize), LendingError>(LendingError::InvalidObligationCollateral),
            has_deposit(self.deposits@, deposit_reserve) ==> (r matches Ok((c, i)) && i < self.deposits@.len()
                && c == self.deposits@[i as int] && c.reserve == deposit_reserve),
    {
        if self.deposits.len() == 0 {
            return Err(LendingError::ObligationDepositsEmpty);
        }
        match self.find_collateral_index_in_deposits(deposit_reserve) {
            Some(i) => Ok((self.deposits[i], i)),
            None => Err(LendingError::InvalidObligationCollateral),
        }
    }

    pub fn find_liquidity_in_borrows(&self, borrow_reserve: Pubkey) -> (r: Result<(ObligationLiquidity, usize), LendingError>)
        ensures
            self.borrows@.len() == 0 ==> r == Err::<(ObligationLiquidity, usize), LendingError>(LendingError::ObligationBorrowsEmpty),
            self.borrows@.len() > 0 && !has_borrow(self.borrows@, borrow_reserve)
                ==> r == Err::<(ObligationLiquidity, usize), LendingError>(LendingError::InvalidObligationLiquidity),
            has_borrow(self.borrows@, borrow_reserve) ==> (r matches Ok((l, i)) && i < self.borrows@.len()
                && l == self.borrows@[i as int] && l.reserve == borrow_reserve),
    {
        if self.borrows.len() == 0 {
            return Err(LendingError::ObligationBorrowsEmpty);
        }
        match self.find_liquidity_index_in_borrows(borrow_reserve) {
            Some(i) => Ok((self.borrows[i], i)),
            None => Err(LendingError::InvalidObligationLiquidity),
        }
    }

    /// Allowed borrow value minus what is borrowed; negative when over the limit.
    pub fn remaining_borrow_value(&self) -> (r: Result<Fx, LendingError>)
        ensures
            r == fx_sub(self.weighted_allowed_borrow_value, self.borrowed_value),
    {
        self.weighted_allowed_borrow_value.safe_sub(self.borrowed_value)
    }

    pub fn max_withdraw_value(&self, withdraw_collateral_ltv: Fx) -> (r: Result<Fx, LendingError>)
        ensures
            r == max_withdraw_spec(*self, withdraw_collateral_ltv),
    {
        if self.weighted_allowed_borrow_value.bits <= self.borrowed_value.bits {
            Ok(Fx::zero())
        } else if withdraw_collateral_ltv.bits == 0 {
            Ok(self.deposited_value)
        } else {
            match self.remaining_borrow_value() {
                Ok(rest) => rest.safe_div(withdraw_collateral_ltv),
                Err(e) => Err(e),
            }
        }
    }

    pub fn max_liquidation_amount(&self, obligation_liquidity: &ObligationLiquidity, liquidation_close_factor: Fx) -> (r: Result<Fx, LendingError>)
        ensures
            r == max_liquidation_spec(self.borrowed_value, *obligation_liquidity, liquidation_close_factor),
    {
        let v = match liquidation_close_factor.safe_mul(self.borrowed_value) {
            Ok(v) => v,
            Err(e) => return Err(e),
        };
        let capped = v.min(obligation_liquidity.market_value);
        match capped.safe_div(obligation_liquidity.market_value) {
            Ok(ratio) => ratio.safe_mul(Fx::from_u64(obligation_liquidity.borrowed_amount)),
            Err(e) => Err(e),
        }
    }

    /// Healthy while the borrowed value stays under the liquidation-weighted collateral value.
    pub fn is_healthy(&self) -> (r: bool)
        ensures
            r == (self.borrowed_value.raw() < self.weighted_unhealthy_borrow_value.raw()),
    {
        self.borrowed_value.bits < self.weighted_unhealthy_borrow_value.bits
    }
}

} // verus!
