use vstd::prelude::*;

use crate::error::{NFTError, ProcessError};

verus! {

/// The two requests this program serves.
#[derive(Debug, Clone, Copy, PartialEq, Eq, Structural)]
pub enum NFTInstruction {
    /// Accounts: signer, profile slot (writable), mint, token account,
    /// metadata, clock, system program.
    SetProfileNFT,
    /// Accounts: signer, profile slot (writable).
    UnsetProfileNFT,
}

/// The instruction a payload names: its first byte is the tag, the rest is
/// ignored.
pub open spec fn instruction_of(input: Seq<u8>) -> Option<NFTInstruction> {
    if input.len() == 0 {
        None
    } else if input[0] == 0 {
        Some(NFTInstruction::SetProfileNFT)
    } else if input[0] == 1 {
        Some(NFTInstruction::UnsetProfileNFT)
    } else {
        None
    }
}

impl NFTInstruction {
    pub fn unpack(input: &[u8]) -> (r: Result<NFTInstruction, ProcessError>)
        ensures
            match instruction_of(input@) {
                Some(ins) => r == Ok::<NFTInstruction, ProcessError>(ins),
                None => r == Err::<NFTInstruction, ProcessError>(
                    ProcessError::Custom(NFTError::InvalidInstruction),
                ),
            },
    {
        if input.len() == 0 {
            return Err(ProcessError::Custom(NFTError::InvalidInstruction));
        }
        let tag = input[0];
        if tag == 0 {
            Ok(NFTInstruction::SetProfileNFT)
        } else if tag == 1 {
            Ok(NFTInstruction::UnsetProfileNFT)
        } else {
            Err(ProcessError::Custom(NFTError::InvalidInstruction))
        }
    }
}

} // verus!
