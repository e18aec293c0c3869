//! Reasons for which the coordinator turns a request down.

use vstd::prelude::*;
use crate::custody::CustodyError;

verus! {

/// Every reason of the coordinator's own for rejecting a request.
#[derive(Clone, Copy, Debug, PartialEq, Eq, Structural)]
pub enum SuperSwapError {
    ProgramPaused,
    Unauthorized,
    InvalidAcrossHandler,
    InvalidRecipient,
    InvalidSwapCalldata,
    SwapExecutionFailed,
    InsufficientOutputAmount,
    SlippageExceeded,
    InvalidTokenMint,
    RefundFailed,
    InvalidJupiterProgram,
    MathOverflow,
    InvalidBridgeAmount,
    DeadlineExceeded,
    InvalidInstructionData,
    UsdcTokenAccountNotFound,
    DestinationTokenAccountNotFound,
    InvalidFeeConfiguration,
    FeeCalculationFailed,
}

impl SuperSwapError {
    /// The text shown to a caller for this error.
    pub open spec fn message_text(self) -> Seq<char> {
        match self {
            SuperSwapError::ProgramPaused => "Program is currently paused"@,
            SuperSwapError::Unauthorized => "Unauthorized: caller is not admin"@,
            SuperSwapError::InvalidAcrossHandler => "Invalid Across message handler"@,
            SuperSwapError::InvalidRecipient => "Invalid recipient address"@,
            SuperSwapError::InvalidSwapCalldata => "Invalid swap calldata"@,
            SuperSwapError::SwapExecutionFailed => "Swap execution failed"@,
            SuperSwapError::InsufficientOutputAmount => "Insufficient output amount"@,
            SuperSwapError::SlippageExceeded => "Slippage tolerance exceeded"@,
            SuperSwapError::InvalidTokenMint => "Invalid token mint"@,
            SuperSwapError::RefundFailed => "Refund failed"@,
            SuperSwapError::InvalidJupiterProgram => "Invalid Jupiter program"@,
            SuperSwapError::MathOverflow => "Math overflow"@,
            SuperSwapError::InvalidBridgeAmount => "Invalid bridge amount"@,
            SuperSwapError::DeadlineExceeded => "Deadline exceeded"@,
            SuperSwapError::InvalidInstructionData => "Invalid instruction data"@,
            SuperSwapError::UsdcTokenAccountNotFound => "USDC token account not found"@,
            SuperSwapError::DestinationTokenAccountNotFound => "Destination token account not found"@,
            SuperSwapError::InvalidFeeConfiguration => "Invalid fee configuration"@,
            SuperSwapError::FeeCalculationFailed => "Fee calculation failed"@,
        }
    }

    /// Returns the text shown to a caller for this error.
    pub fn message(&self) -> (text: String)
        ensures
            text@ == self.message_text(),
    {
        let text: &str = match self {
            SuperSwapError::ProgramPaused => "Program is currently paused",
            SuperSwapError::Unauthorized => "Unauthorized: caller is not admin",
            SuperSwapError::InvalidAcrossHandler => "Invalid Across message handler",
            SuperSwapError::InvalidRecipient => "Invalid recipient address",
            SuperSwapError::InvalidSwapCalldata => "Invalid swap calldata",
            SuperSwapError::SwapExecutionFailed => "Swap execution failed",
            SuperSwapError::InsufficientOutputAmount => "Insufficient output amount",
            SuperSwapError::SlippageExceeded => "Slippage tolerance exceeded",
            SuperSwapError::InvalidTokenMint => "Invalid token mint",
            SuperSwapError::RefundFailed => "Refund failed",
            SuperSwapError::InvalidJupiterProgram => "Invalid Jupiter program",
            SuperSwapError::MathOverflow => "Math overflow",
            SuperSwapError::InvalidBridgeAmount => "Invalid bridge amount",
            SuperSwapError::DeadlineExceeded => "Deadline exceeded",
            SuperSwapError::InvalidInstructionData => "Invalid instruction data",
            SuperSwapError::UsdcTokenAccountNotFound => "USDC token account not found",
            SuperSwapError::DestinationTokenAccountNotFound => "Destination token account not found",
            SuperSwapError::InvalidFeeConfiguration => "Invalid fee configuration",
            SuperSwapError::FeeCalculationFailed => "Fee calculation failed",
        };
        text.to_owned()
    }
}

/// Why an instruction was turned down: for a reason of the coordinator's
/// own, because the asset ledger refused a movement, or because a record
/// that had to exist, or had not to, did otherwise.
#[derive(Clone, Copy, Debug, PartialEq, Eq, Structural)]
pub enum InstructionError {
    /// The coordinator rejected the request.
    Program(SuperSwapError),
    /// The asset ledger refused a movement of value.
    Custody(CustodyError),
    /// The coordinator has no configuration yet.
    NotInitialized,
    /// The coordinator has its configuration already.
    AlreadyInitialized,
    /// An order with this identifier exists already.
    OrderAlreadyExists,
    /// No order with this identifier exists.
    OrderNotFound,
}

} // verus!
