use vstd::prelude::*;

verus! {

/// Every way an operation of the sale can fail.
#[derive(Clone, Copy, Debug, PartialEq, Eq, Structural)]
pub enum ErrorCode {
    IncorrectOwner,
    Uninitialized,
    MintMismatch,
    TokenTransferFailed,
    NumericalOverflowError,
    TimestampsDontLineUp,
    CantSetPhaseThreeDatesYet,
    UuidMustBeExactly6Length,
    TickSizeTooSmall,
    CannotGiveZeroTokens,
    InvalidPriceRanges,
    TooMuchGranularityInRange,
    CannotUseTickSizeThatGivesRemainder,
    DerivedKeyInvalid,
    TreasuryAlreadyExists,
    /// The operation is not open at the given time.
    WrongPhase,
    /// A bid is outside the price range or off the tick grid.
    InvalidAmount,
    /// A phase-three adjustment breaks the rule relative to the clearing price.
    InvalidAdjustment,
    /// The phase-three window has already been set.
    PhaseThreeAlreadySet,
    /// The clearing price has already been decided.
    MedianAlreadyDecided,
    /// The clearing price has not been decided yet.
    MedianNotDecided,
    /// The ticket was already punched or withdrawn.
    TicketAlreadyPunched,
    /// The ticket, bitmap or lookup belongs to another sale.
    AccountMismatch,
    /// A bitmap position is past the last ticket sold.
    SequenceOutOfRange,
}

} // verus!
