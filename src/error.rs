use vstd::prelude::*;

verus! {

/// Failures specific to this program.
#[derive(Debug, Clone, Copy, PartialEq, Eq, Structural)]
pub enum NFTError {
    InvalidInstruction,
    NotRentExempt,
    NotInitialized,
    InvalidOwner,
    InvalidMintSupply,
    InsufficientTokenBalance,
    InvalidMint,
    InvalidMetadata,
}

impl NFTError {
    /// The numeric status a caller sees for this failure.
    pub open spec fn spec_code(self) -> u32 {
        match self {
            NFTError::InvalidInstruction => 0,
            NFTError::NotRentExempt => 1,
            NFTError::NotInitialized => 2,
            NFTError::InvalidOwner => 3,
            NFTError::InvalidMintSupply => 4,
            NFTError::InsufficientTokenBalance => 5,
            NFTError::InvalidMint => 6,
            NFTError::InvalidMetadata => 7,
        }
    }

    pub fn code(&self) -> (r: u32)
        ensures
            r == self.spec_code(),
    {
        match self {
            NFTError::InvalidInstruction => 0,
            NFTError::NotRentExempt => 1,
            NFTError::NotInitialized => 2,
            NFTError::InvalidOwner => 3,
            NFTError::InvalidMintSupply => 4,
            NFTError::InsufficientTokenBalance => 5,
            NFTError::InvalidMint => 6,
            NFTError::InvalidMetadata => 7,
        }
    }
}

/// Every way a request can fail: the generic failures of the hosting
/// environment that this program reports, and its own.
#[derive(Debug, Clone, Copy, PartialEq, Eq, Structural)]
pub enum ProcessError {
    /// Fewer accounts than the instruction needs.
    NotEnoughAccountKeys,
    /// The first account did not sign the request.
    MissingRequiredSignature,
    /// A writable, owner, address or layout check failed.
    InvalidAccountData,
    /// No valid derived address exists for the seeds.
    InvalidSeeds,
    /// A failure of this program's own taxonomy.
    Custom(NFTError),
}

} // verus!
