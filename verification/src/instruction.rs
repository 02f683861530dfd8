//! The instruction wire format.
//!
//! A payload is a byte sequence.  Its first byte selects the action; opcodes
//! `0` (list) and `2` (transfer) carry an unsigned 64-bit little-endian
//! argument in bytes 1..9.  Trailing bytes beyond the defined prefix are
//! ignored.
use vstd::prelude::*;
use vstd::bytes::{spec_u64_from_le_bytes, u64_from_le_bytes};
use vstd::slice::slice_subrange;
use crate::errors::ProgramError;

verus! {

/// The closed set of actions a payload can select.
#[derive(Clone, Copy, Debug, PartialEq, Eq, Structural)]
pub enum MarketplaceInstruction {
    /// Opcode `0`: create an item account and write an active listing.
    List { price: u64 },
    /// Opcode `1`: pay the seller and mark the listing sold.
    Buy,
    /// Opcode `2`: move lamports between two accounts.
    Transfer { amount: u64 },
}

/// What `parse_instruction` returns for a payload: an empty payload, an
/// unknown opcode, or a payload that ends before a required argument is
/// rejected with `InvalidInstructionData`.
pub open spec fn parse_of(data: Seq<u8>) -> Result<MarketplaceInstruction, ProgramError> {
    if data.len() < 1 {
        Err(ProgramError::InvalidInstructionData)
    } else if data[0] == 0u8 {
        if data.len() < 9 {
            Err(ProgramError::InvalidInstructionData)
        } else {
            Ok(MarketplaceInstruction::List { price: spec_u64_from_le_bytes(data.subrange(1, 9)) })
        }
    } else if data[0] == 1u8 {
        Ok(MarketplaceInstruction::Buy)
    } else if data[0] == 2u8 {
        if data.len() < 9 {
            Err(ProgramError::InvalidInstructionData)
        } else {
            Ok(
                MarketplaceInstruction::Transfer {
                    amount: spec_u64_from_le_bytes(data.subrange(1, 9)),
                },
            )
        }
    } else {
        Err(ProgramError::InvalidInstructionData)
    }
}

/// Parses a payload into an instruction.
pub fn parse_instruction(data: &[u8]) -> (r: Result<MarketplaceInstruction, ProgramError>)
    ensures
        r == parse_of(data@),
{
    if data.len() < 1 {
        return Err(ProgramError::InvalidInstructionData);
    }
    let opcode = data[0];
    if opcode == 0 {
        if data.len() < 9 {
            return Err(ProgramError::InvalidInstructionData);
        }
        let price = u64_from_le_bytes(slice_subrange(data, 1, 9));
        Ok(MarketplaceInstruction::List { price })
    } else if opcode == 1 {
        Ok(MarketplaceInstruction::Buy)
    } else if opcode == 2 {
        if data.len() < 9 {
            return Err(ProgramError::InvalidInstructionData);
        }
        let amount = u64_from_le_bytes(slice_subrange(data, 1, 9));
        Ok(MarketplaceInstruction::Transfer { amount })
    } else {
        Err(ProgramError::InvalidInstructionData)
    }
}

} // verus!
