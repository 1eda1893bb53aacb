//! The operations of the record program and their wire format.
use crate::error::InsuranceContractError;
use crate::state::{lemma_u32_le_round_trip, u32_from_le, u32_le_bytes};
use vstd::prelude::*;

verus! {

/// Operations supported by the record program.
///
/// On the wire: one tag byte (`0` for `SaveInsuranceContract`, `1` for
/// `CloseInsuranceContract`), then for `SaveInsuranceContract` the identifier
/// as four little-endian bytes.
#[derive(Debug, Clone, Copy, PartialEq, Eq, Structural)]
pub enum InsuranceContractInstruction {
    /// Initializes a record with the given identifier.
    ///
    /// Accounts expected: the authority (signer), the record (writable),
    /// and the rent sysvar.
    SaveInsuranceContract {
        /// Identifier of the record.
        insurance_contract_id: u32,
    },
    /// Marks an initialized record as closed.
    ///
    /// Accounts expected: the authority (signer) and the record (writable).
    CloseInsuranceContract,
}

impl InsuranceContractInstruction {
    /// The bytes that encode this operation.
    pub open spec fn spec_pack(self) -> Seq<u8> {
        match self {
            InsuranceContractInstruction::SaveInsuranceContract { insurance_contract_id } => seq![
                0u8,
            ] + u32_le_bytes(insurance_contract_id),
            InsuranceContractInstruction::CloseInsuranceContract => seq![1u8],
        }
    }

    /// The operation that `input` decodes to: tag `0` followed by at least four
    /// bytes, or tag `1` followed by anything; everything else is invalid.
    pub open spec fn spec_unpack(input: Seq<u8>) -> Result<
        InsuranceContractInstruction,
        InsuranceContractError,
    > {
        if input.len() == 0 {
            Err(InsuranceContractError::InvalidInstruction)
        } else if input[0] == 0 {
            if input.len() < 5 {
                Err(InsuranceContractError::InvalidInstruction)
            } else {
                Ok(
                    InsuranceContractInstruction::SaveInsuranceContract {
                        insurance_contract_id: u32_from_le(input[1], input[2], input[3], input[4]),
                    },
                )
            }
        } else if input[0] == 1 {
            Ok(InsuranceContractInstruction::CloseInsuranceContract)
        } else {
            Err(InsuranceContractError::InvalidInstruction)
        }
    }

    /// Decodes an operation from its wire format.
    pub fn unpack(input: &[u8]) -> (r: Result<InsuranceContractInstruction, InsuranceContractError>)
        ensures
            r == Self::spec_unpack(input@),
            r.is_ok() <==> (input@.len() >= 1 && (input@[0] == 1 || (input@[0] == 0
                && input@.len() >= 5))),
    {
        if input.len() == 0 {
            return Err(InsuranceContractError::InvalidInstruction);
        }
        let tag = input[0];
        if tag == 0 {
            if input.len() < 5 {
                return Err(InsuranceContractError::InvalidInstruction);
            }
            let id: u32 = input[1] as u32 + 256 * (input[2] as u32) + 65536 * (input[3] as u32)
                + 16777216 * (input[4] as u32);
            Ok(InsuranceContractInstruction::SaveInsuranceContract { insurance_contract_id: id })
        } else if tag == 1 {
            Ok(InsuranceContractInstruction::CloseInsuranceContract)
        } else {
            Err(InsuranceContractError::InvalidInstruction)
        }
    }

    /// Encodes this operation into its wire format.
    pub fn pack(&self) -> (r: Vec<u8>)
        ensures
            r@ == self.spec_pack(),
    {
        let mut buf: Vec<u8> = Vec::new();
        match self {
            InsuranceContractInstruction::SaveInsuranceContract { insurance_contract_id } => {
                let id = *insurance_contract_id;
                buf.push(0u8);
                buf.push((id % 256) as u8);
                buf.push(((id / 256) % 256) as u8);
                buf.push(((id / 65536) % 256) as u8);
                buf.push((id / 16777216) as u8);
            },
            InsuranceContractInstruction::CloseInsuranceContract => {
                buf.push(1u8);
            },
        }
        proof {
            assert(buf@ =~= self.spec_pack());
        }
        buf
    }
}

/// Decoding the encoding of any operation gives that operation back.
pub proof fn lemma_instruction_round_trip(op: InsuranceContractInstruction)
    ensures
        InsuranceContractInstruction::spec_unpack(op.spec_pack()) == Ok::<
            InsuranceContractInstruction,
            InsuranceContractError,
        >(op),
{
    if let InsuranceContractInstruction::SaveInsuranceContract { insurance_contract_id } = op {
        lemma_u32_le_round_trip(insurance_contract_id);
        let b = op.spec_pack();
        assert(b[1] == u32_le_bytes(insurance_contract_id)[0]);
        assert(b[2] == u32_le_bytes(insurance_contract_id)[1]);
        assert(b[3] == u32_le_bytes(insurance_contract_id)[2]);
        assert(b[4] == u32_le_bytes(insurance_contract_id)[3]);
    }
}

/// Every input that is empty or starts with a tag other than `0` or `1` fails
/// to decode with `InvalidInstruction`.
pub proof fn lemma_unknown_tag_rejected(input: Seq<u8>)
    requires
        input.len() == 0 || (input[0] != 0 && input[0] != 1),
    ensures
        InsuranceContractInstruction::spec_unpack(input) == Err::<
            InsuranceContractInstruction,
            InsuranceContractError,
        >(InsuranceContractError::InvalidInstruction),
{
}

} // verus!
