//! Flash loans: a borrow is allowed only when the same transaction repays it later.
use vstd::prelude::*;
use crate::error::LendingError;
use crate::fx::le_unsigned;
use crate::pubkey::Pubkey;
use crate::reserve::{borrow_liquidity_spec, flash_loan_fee_spec, repay_liquidity_spec, Reserve};

verus! {

/// One instruction of a transaction, as the instructions sysvar reports it.
pub struct Instruction {
    pub program_id: Pubkey,
    pub accounts: Vec<Pubkey>,
    pub data: Vec<u8>,
}

/// The 8-byte discriminators of the two flash-loan instructions.
#[derive(Clone, Copy, Debug)]
pub struct FlashDiscriminators {
    pub borrow: [u8; 8],
    pub repay: [u8; 8],
}

pub open spec fn has_prefix(data: Seq<u8>, disc: Seq<u8>) -> bool {
    data.len() >= disc.len() && data.subrange(0, disc.len() as int) == disc
}

pub open spec fn pow256(n: nat) -> int
    decreases n,
{
    if n == 0 { 1 } else { 256 * pow256((n - 1) as nat) }
}

/// Reads a little-endian `u64` from the eight bytes at `offset`.
pub fn read_u64_le(data: &Vec<u8>, offset: usize) -> (r: u64)
    requires
        offset + 8 <= data@.len(),
    ensures
        r == le_unsigned(data@.subrange(offset as int, offset + 8)),
{
    let ghost b = data@.subrange(offset as int, offset + 8);
    let len = data.len();
    let mut acc: u64 = 0;
    let mut j: usize = 8;
    proof {
        assert(b.subrange(8, 8).len() == 0);
    }
    while j > 0
        invariant
            j <= 8,
            offset + 8 <= data@.len(),
            len == data@.len(),
            b == data@.subrange(offset as int, offset + 8),
            acc == le_unsigned(b.subrange(j as int, 8)),
            acc < pow256((8 - j) as nat),
            pow256((8 - j) as nat) <= 18446744073709551616,
        decreases j,
    {
        let byte = data[offset + j - 1];
        proof {
            assert(b.subrange(j - 1, 8).subrange(1, b.subrange(j - 1, 8).len() as int) =~= b.subrange(j as int, 8));
            assert(b.subrange(j - 1, 8)[0] == byte);
            let p = pow256((8 - j) as nat);
            assert(pow256((9 - j) as nat) == 256 * p);
            assert(acc * 256 + byte < 256 * p) by (nonlinear_arith)
                requires acc < p, byte < 256;
            if j > 1 {
                lemma_pow256_eight();
                lemma_pow256_grows((9 - j) as nat, 8);
            } else {
                lemma_pow256_eight();
            }
        }
        acc = acc * 256 + byte as u64;
        j = j - 1;
    }
    proof {
        assert(b.subrange(0, 8) =~= b);
    }
    acc
}

proof fn lemma_pow256_eight()
    ensures
        pow256(8) == 18446744073709551616,
{
    reveal_with_fuel(pow256, 9);
}

proof fn lemma_pow256_grows(a: nat, b: nat)
    requires
        a <= b,
    ensures
        pow256(a) <= pow256(b),
    decreases b - a,
{
    if a < b {
        lemma_pow256_grows(a, (b - 1) as nat);
        lemma_pow256_positive((b - 1) as nat);
    }
}

proof fn lemma_pow256_positive(n: nat)
    ensures
        pow256(n) >= 1,
    decreases n,
{
    if n > 0 {
        lemma_pow256_positive((n - 1) as nat);
    }
}

fn starts_with(data: &Vec<u8>, disc: &[u8; 8]) -> (r: bool)
    ensures
        r == has_prefix(data@, disc@),
{
    if data.len() < 8 {
        return false;
    }
    let mut i: usize = 0;
    while i < 8
        invariant
            i <= 8,
            data@.len() >= 8,
            disc@.len() == 8,
            forall|k: int| 0 <= k < i ==> data@[k] == disc@[k],
        decreases 8 - i,
    {
        if data[i] != disc[i] {
            proof {
                assert(data@.subrange(0, 8)[i as int] != disc@[i as int]);
            }
            return false;
        }
        i = i + 1;
    }
    proof {
        assert(data@.subrange(0, 8) =~= disc@);
    }
    true
}

/// Outcome of scanning the instructions from `i` on for the repay of a flash borrow at
/// `current`: `Ok(found)` when the scan passes, else the first violation.
pub open spec fn flash_scan(
    ixs: Seq<Instruction>,
    i: int,
    current: int,
    program_id: Pubkey,
    amount: u64,
    discs: FlashDiscriminators,
    found: bool,
) -> Result<bool, LendingError>
    decreases ixs.len() - i,
{
    if i >= ixs.len() || i < 0 {
        Ok(found)
    } else {
        let ix = ixs[i];
        if ix.program_id != program_id {
            flash_scan(ixs, i + 1, current, program_id, amount, discs, found)
        } else if has_prefix(ix.data@, discs.borrow@) {
            Err(LendingError::MultipleFlashBorrowsNotAllowed)
        } else if has_prefix(ix.data@, discs.repay@) {
            if found {
                Err(LendingError::MultipleFlashRepaysNotAllowed)
            } else if ix.data@.len() < 17 {
                Err(LendingError::InvalidFlashRepayInstructionData)
            } else if le_unsigned(ix.data@.subrange(8, 16)) != amount {
                Err(LendingError::InvalidFlashRepayAmount)
            } else if ix.data@[16] != current {
                Err(LendingError::InvalidFlashRepayInstructionData)
            } else {
                flash_scan(ixs, i + 1, current, program_id, amount, discs, true)
            }
        } else {
            flash_scan(ixs, i + 1, current, program_id, amount, discs, found)
        }
    }
}

/// What the introspection of a flash borrow at `current` decides.
pub open spec fn flash_borrow_check_spec(
    ixs: Seq<Instruction>,
    current: int,
    program_id: Pubkey,
    amount: u64,
    discs: FlashDiscriminators,
) -> Result<(), LendingError> {
    match flash_scan(ixs, current + 1, current, program_id, amount, discs, false) {
        Ok(true) => Ok(()),
        Ok(false) => Err(LendingError::NoFlashRepayInstruction),
        Err(e) => Err(e),
    }
}

/// Checks that exactly one later instruction of this program repays `borrow_amount` for
/// the borrow at `current_index`, and that no other flash borrow follows.
pub fn check_flash_borrow(
    instructions: &Vec<Instruction>,
    current_index: usize,
    program_id: Pubkey,
    borrow_amount: u64,
    discs: FlashDiscriminators,
) -> (r: Result<(), LendingError>)
    requires
        current_index < instructions@.len(),
    ensures
        r == flash_borrow_check_spec(instructions@, current_index as int, program_id, borrow_amount, discs),
{
    let count = instructions.len();
    let mut found = false;
    let mut i: usize = current_index + 1;
    while i < instructions.len()
        invariant
            current_index < i <= instructions@.len(),
            flash_scan(instructions@, i as int, current_index as int, program_id, borrow_amount, discs, found)
                == flash_scan(instructions@, current_index + 1, current_index as int, program_id, borrow_amount, discs, false),
        decreases instructions@.len() - i,
    {
        let ix = &instructions[i];
        if ix.program_id == program_id {
            if starts_with(&ix.data, &discs.borrow) {
                return Err(LendingError::MultipleFlashBorrowsNotAllowed);
            }
            if starts_with(&ix.data, &discs.repay) {
                if found {
                    return Err(LendingError::MultipleFlashRepaysNotAllowed);
                }
                if ix.data.len() < 17 {
                    return Err(LendingError::InvalidFlashRepayInstructionData);
                }
                let repay_amount = read_u64_le(&ix.data, 8);
                if repay_amount != borrow_amount {
                    return Err(LendingError::InvalidFlashRepayAmount);
                }
                if ix.data[16] as usize != current_index {
                    return Err(LendingError::InvalidFlashRepayInstructionData);
                }
                found = true;
            }
        }
        i = i + 1;
    }
    if found { Ok(()) } else { Err(LendingError::NoFlashRepayInstruction) }
}

/// Lends `borrow_amount` without collateral when the transaction repays it later.
pub fn flash_borrow_reserve_liquidity(
    reserve: &mut Reserve,
    instructions: &Vec<Instruction>,
    current_index: usize,
    program_id: Pubkey,
    borrow_amount: u64,
    discs: FlashDiscriminators,
) -> (r: Result<(), LendingError>)
    requires
        current_index < instructions@.len(),
    ensures
        flash_borrow_check_spec(instructions@, current_index as int, program_id, borrow_amount, discs) matches Err(e)
            ==> r == Err::<(), LendingError>(e),
        r is Err ==> *final(reserve) == *old(reserve),
        r is Ok ==> flash_borrow_check_spec(instructions@, current_index as int, program_id, borrow_amount, discs) is Ok
            && borrow_liquidity_spec(old(reserve).liquidity, borrow_amount) == Ok::<_, LendingError>(final(reserve).liquidity)
            && final(reserve).last_update.is_stale,
        flash_borrow_check_spec(instructions@, current_index as int, program_id, borrow_amount, discs) is Ok
            && borrow_liquidity_spec(old(reserve).liquidity, borrow_amount) is Ok ==> r is Ok,
{
    match check_flash_borrow(instructions, current_index, program_id, borrow_amount, discs) {
        Ok(()) => {},
        Err(e) => return Err(e),
    }
    match reserve.liquidity.borrow_liquidity(borrow_amount) {
        Ok(()) => {},
        Err(e) => return Err(e),
    }
    reserve.last_update.mark_stale();
    Ok(())
}

/// The outcome of a flash repay: the fee owed, or the first check that fails.
pub open spec fn flash_repay_spec(
    reserve: Reserve,
    reserve_key: Pubkey,
    ixs: Seq<Instruction>,
    current_index: usize,
    program_id: Pubkey,
    repay_amount: u64,
    borrow_ix_index: u8,
    discs: FlashDiscriminators,
) -> Result<u64, LendingError> {
    let k = borrow_ix_index as int;
    if current_index < borrow_ix_index {
        Err(LendingError::InvalidFlashRepayInstructionData)
    } else if k >= ixs.len() {
        Err(LendingError::OutOfInstructions)
    } else if ixs[k].program_id != program_id {
        Err(LendingError::InvalidFlashRepayProgramId)
    } else if !has_prefix(ixs[k].data@, discs.borrow@) {
        Err(LendingError::InvalidBorrowInstructionIndex)
    } else if ixs[k].accounts@.len() < 2 || ixs[k].accounts@[1] != reserve_key {
        Err(LendingError::InvalidFlashRepayReserve)
    } else if ixs[k].data@.len() < 16 {
        Err(LendingError::InvalidFlashBorrowInstructionData)
    } else if le_unsigned(ixs[k].data@.subrange(8, 16)) != repay_amount {
        Err(LendingError::InvalidFlashRepayAmount)
    } else {
        match flash_loan_fee_spec(reserve.config.fees, repay_amount) {
            Err(e) => Err(e),
            Ok(fee) => match repay_liquidity_spec(reserve.liquidity, repay_amount) {
                Err(e) => Err(e),
                Ok(_) => Ok(fee),
            },
        }
    }
}

/// Checks that the instruction at `borrow_ix_index` is this program's flash borrow from
/// `reserve_key` of exactly `repay_amount`, then takes the liquidity back. Returns the
/// flash-loan fee owed to the market authority.
pub fn flash_repay_reserve_liquidity(
    reserve: &mut Reserve,
    reserve_key: Pubkey,
    instructions: &Vec<Instruction>,
    current_index: usize,
    program_id: Pubkey,
    repay_amount: u64,
    borrow_ix_index: u8,
    discs: FlashDiscriminators,
) -> (r: Result<u64, LendingError>)
    ensures
        r == flash_repay_spec(*old(reserve), reserve_key, instructions@, current_index, program_id, repay_amount, borrow_ix_index, discs),
        r is Err ==> *final(reserve) == *old(reserve),
        r is Ok ==> repay_liquidity_spec(old(reserve).liquidity, repay_amount) == Ok::<_, LendingError>(final(reserve).liquidity)
            && final(reserve).last_update.is_stale
            && (Reserve { liquidity: old(reserve).liquidity, last_update: old(reserve).last_update, ..*final(reserve) }) == *old(reserve),
{
    if current_index < borrow_ix_index as usize {
        return Err(LendingError::InvalidFlashRepayInstructionData);
    }
    let index = borrow_ix_index as usize;
    if index >= instructions.len() {
        return Err(LendingError::OutOfInstructions);
    }
    let borrow_ix = &instructions[index];
    if borrow_ix.program_id != program_id {
        return Err(LendingError::InvalidFlashRepayProgramId);
    }
    if !starts_with(&borrow_ix.data, &discs.borrow) {
        return Err(LendingError::InvalidBorrowInstructionIndex);
    }
    if borrow_ix.accounts.len() < 2 || borrow_ix.accounts[1] != reserve_key {
        return Err(LendingError::InvalidFlashRepayReserve);
    }
    if borrow_ix.data.len() < 16 {
        return Err(LendingError::InvalidFlashBorrowInstructionData);
    }
    let borrowed_amount = read_u64_le(&borrow_ix.data, 8);
    if repay_amount != borrowed_amount {
        return Err(LendingError::InvalidFlashRepayAmount);
    }
    let fee = match reserve.config.fees.calculate_flash_loan_fee(borrowed_amount) {
        Ok(v) => v,
        Err(e) => return Err(e),
    };
    match reserve.liquidity.repay_liquidity(repay_amount) {
        Ok(()) => {},
        Err(e) => return Err(e),
    }
    reserve.last_update.mark_stale();
    Ok(fee)
}

} // verus!
