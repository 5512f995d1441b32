use vstd::prelude::*;

verus! {

/// Failure kinds of the lending engine.
#[derive(Clone, Copy, Debug, PartialEq, Eq, Structural)]
pub enum LendingError {
    InvalidBasisPoints,
    InvalidPriceUpdateV2,
    InvalidMarketAuthority,
    InvalidReserveMarket,
    InvalidObligationAuthority,
    InvalidObligationMarket,
    InvalidReserveMint,
    InvalidObligationCollateral,
    InvalidObligationLiquidity,
    InvalidDepositAmount,
    InvalidWithdrawAmount,
    InvalidBorrowAmount,
    InvalidRepayAmount,
    InvalidLiquidationAmount,
    InvalidAccountOwner,
    InvalidReserve,
    InvalidReceiptMint,
    ReserveStale,
    ObligationStale,
    ReserveCollateralDisabled,
    ObligationDepositsEmpty,
    ObligationCollateralEmpty,
    ObligationDepositsValueZero,
    ObligationBorrowsEmpty,
    ObligationLiquidityEmpty,
    ObligationHealthy,
    MaxWithdrawValueZero,
    MaxBorrowValueZero,
    WithdrawTooLarge,
    BorrowTooLarge,
    WithdrawTooSmall,
    BorrowTooSmall,
    RepayTooSmall,
    LiquidationTooSmall,
    TooManyAccounts,
    NegativeInterestRate,
    InsufficientLiquidity,
    MathOverflow,
    ConversionFailed,
    InvalidPrice,
    CollateralAndLiquidityMintMatch,
    InvalidLiquidationThreshold,
    InvalidMaxBorrowRate,
    InvalidOptimalBorrowRate,
    MultipleFlashBorrowsNotAllowed,
    MultipleFlashRepaysNotAllowed,
    InvalidFlashRepayInstructionData,
    InvalidFlashRepayAmount,
    InvalidFlashRepayProgramId,
    NoFlashRepayInstruction,
    InvalidBorrowInstructionIndex,
    InvalidFlashRepayReserve,
    InvalidFlashBorrowInstructionData,
    OutOfInstructions,
    ObligationPositionsFull,
}

} // verus!
