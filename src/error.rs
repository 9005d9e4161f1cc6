use vstd::prelude::*;

verus! {

/// Why an instruction was rejected. Every rejection aborts the whole
/// instruction batch, so none of them leaves a partial effect behind.
#[derive(Clone, Copy, Debug, PartialEq, Eq, Structural)]
pub enum SwapError {
    /// The instruction data has the wrong length or an unknown tag.
    MalformedInstruction,
    /// A supplied account is not the one derived for it, or its data does
    /// not decode.
    AccountMismatch,
    /// Fewer accounts were supplied than the instruction needs.
    NotEnoughAccountKeys,
    /// The order record is all zeroes: it was never created, or was closed.
    UninitializedAccount,
    /// A sysvar account could not be read at the place asked for.
    InvalidArgument,
    /// The order account already holds a balance.
    OrderExists,
    /// The creation slot is in the future or too far in the past.
    CreationWindowExceeded,
    /// A private order is filled without a signature-verification
    /// instruction right before the fill.
    UnlockInstructionNotFound,
    /// The verified signature is not the seller's over this order's address.
    UnlockInstructionInvalid,
    /// The fill is smaller than the order's minimum.
    BelowMinimumFill,
    /// The fill is larger than what remains of the order.
    InsufficientRemaining,
    /// A computed amount does not fit in 64 bits, or the record is
    /// inconsistent with its own amounts.
    ArithmeticOverflow,
    /// No bump seed gives an address off the curve for these seeds.
    NoProgramAddress,
}

impl SwapError {
    /// The program-specific code reported for this error, for the errors
    /// that the runtime has no code of its own for.
    pub fn custom_code(&self) -> (r: Option<u32>)
        ensures
            r == (match *self {
                SwapError::OrderExists => Some(1u32),
                SwapError::CreationWindowExceeded => Some(2u32),
                SwapError::UnlockInstructionNotFound => Some(3u32),
                SwapError::UnlockInstructionInvalid => Some(4u32),
                SwapError::BelowMinimumFill => Some(5u32),
                SwapError::InsufficientRemaining => Some(6u32),
                SwapError::ArithmeticOverflow => Some(7u32),
                _ => None::<u32>,
            }),
    {
        match self {
            SwapError::OrderExists => Some(1),
            SwapError::CreationWindowExceeded => Some(2),
            SwapError::UnlockInstructionNotFound => Some(3),
            SwapError::UnlockInstructionInvalid => Some(4),
            SwapError::BelowMinimumFill => Some(5),
            SwapError::InsufficientRemaining => Some(6),
            SwapError::ArithmeticOverflow => Some(7),
            _ => None,
        }
    }
}

} // verus!
