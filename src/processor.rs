//! The validated state transitions of a record.
use crate::error::InsuranceContractError;
use crate::instruction::InsuranceContractInstruction;
use crate::state::{lemma_unpack_after_pack_into, InsuranceContractData, INSURANCE_CONTRACT_DATA_LEN};
use vstd::prelude::*;

verus! {

/// Whether a call that returned `r` and left the record buffer `after`, where it
/// found `before`, carried out `outcome`: on success the buffer holds the new bytes,
/// on failure the same error is returned and the buffer is unchanged.
pub open spec fn carried_out(
    outcome: Result<Seq<u8>, InsuranceContractError>,
    r: Result<(), InsuranceContractError>,
    before: Seq<u8>,
    after: Seq<u8>,
) -> bool {
    match outcome {
        Ok(new_bytes) => r is Ok && after == new_bytes,
        Err(e) => r == Err::<(), InsuranceContractError>(e) && after == before,
    }
}

/// Applies operations to a record, given the facts that the host establishes:
/// whether the authority signed, whether the program owns the record's storage,
/// the funding the record holds and the minimum for indefinite retention.
pub struct Processor;

impl Processor {
    /// What Initialize does to the record bytes `data`: the checks in order,
    /// the first failing one deciding the error.
    pub open spec fn spec_save(
        authority_signed: bool,
        owner_matches: bool,
        lamports: u64,
        minimum_balance: u64,
        data: Seq<u8>,
        insurance_contract_id: u32,
    ) -> Result<Seq<u8>, InsuranceContractError> {
        if !authority_signed {
            Err(InsuranceContractError::MissingAuthorization)
        } else if !owner_matches {
            Err(InsuranceContractError::IncorrectOwner)
        } else if lamports < minimum_balance {
            Err(InsuranceContractError::InsufficientFunding)
        } else {
            match InsuranceContractData::spec_unpack(data) {
                Err(e) => Err(e),
                Ok(record) => if record.is_initialized {
                    Err(InsuranceContractError::AlreadyInitialized)
                } else if record.is_closed {
                    Err(InsuranceContractError::AlreadyClosed)
                } else {
                    Ok(
                        (InsuranceContractData {
                            is_initialized: true,
                            is_closed: false,
                            insurance_contract_id,
                        }).spec_pack_into(data),
                    )
                },
            }
        }
    }

    /// What Close does to the record bytes `data`: the checks in order,
    /// the first failing one deciding the error.
    pub open spec fn spec_close(authority_signed: bool, owner_matches: bool, data: Seq<u8>) -> Result<
        Seq<u8>,
        InsuranceContractError,
    > {
        if !authority_signed {
            Err(InsuranceContractError::MissingAuthorization)
        } else if !owner_matches {
            Err(InsuranceContractError::IncorrectOwner)
        } else {
            match InsuranceContractData::spec_unpack(data) {
                Err(e) => Err(e),
                Ok(record) => if !record.is_initialized {
                    Err(InsuranceContractError::NotInitialized)
                } else if record.is_closed {
                    Err(InsuranceContractError::AlreadyClosed)
                } else {
                    Ok((InsuranceContractData { is_closed: true, ..record }).spec_pack_into(data))
                },
            }
        }
    }

    /// What an encoded operation does to the record bytes `data`.
    pub open spec fn spec_process(
        instruction_data: Seq<u8>,
        authority_signed: bool,
        owner_matches: bool,
        lamports: u64,
        minimum_balance: u64,
        data: Seq<u8>,
    ) -> Result<Seq<u8>, InsuranceContractError> {
        match InsuranceContractInstruction::spec_unpack(instruction_data) {
            Err(e) => Err(e),
            Ok(InsuranceContractInstruction::SaveInsuranceContract { insurance_contract_id }) =>
                Self::spec_save(
                authority_signed,
                owner_matches,
                lamports,
                minimum_balance,
                data,
                insurance_contract_id,
            ),
            Ok(InsuranceContractInstruction::CloseInsuranceContract) => Self::spec_close(
                authority_signed,
                owner_matches,
                data,
            ),
        }
    }

    /// Decodes an encoded operation and applies it to the record bytes `data`.
    pub fn process(
        instruction_data: &[u8],
        authority_signed: bool,
        owner_matches: bool,
        lamports: u64,
        minimum_balance: u64,
        data: &mut Vec<u8>,
    ) -> (r: Result<(), InsuranceContractError>)
        ensures
            carried_out(
                Self::spec_process(
                    instruction_data@,
                    authority_signed,
                    owner_matches,
                    lamports,
                    minimum_balance,
                    old(data)@,
                ),
                r,
                old(data)@,
                final(data)@,
            ),
    {
        let instruction = match InsuranceContractInstruction::unpack(instruction_data) {
            Ok(instruction) => instruction,
            Err(e) => return Err(e),
        };
        match instruction {
            InsuranceContractInstruction::SaveInsuranceContract { insurance_contract_id } => {
                Self::process_save_insurance_contract(
                    authority_signed,
                    owner_matches,
                    lamports,
                    minimum_balance,
                    data,
                    insurance_contract_id,
                )
            },
            InsuranceContractInstruction::CloseInsuranceContract => {
                Self::process_close_insurance_contract(authority_signed, owner_matches, data)
            },
        }
    }

    /// Initializes the record held in `data` with the given identifier.
    pub fn process_save_insurance_contract(
        authority_signed: bool,
        owner_matches: bool,
        lamports: u64,
        minimum_balance: u64,
        data: &mut Vec<u8>,
        insurance_contract_id: u32,
    ) -> (r: Result<(), InsuranceContractError>)
        ensures
            carried_out(
                Self::spec_save(
                    authority_signed,
                    owner_matches,
                    lamports,
                    minimum_balance,
                    old(data)@,
                    insurance_contract_id,
                ),
                r,
                old(data)@,
                final(data)@,
            ),
    {
        if !authority_signed {
            return Err(InsuranceContractError::MissingAuthorization);
        }
        if !owner_matches {
            return Err(InsuranceContractError::IncorrectOwner);
        }
        if lamports < minimum_balance {
            return Err(InsuranceContractError::InsufficientFunding);
        }
        let mut record = match InsuranceContractData::unpack(data.as_slice()) {
            Ok(record) => record,
            Err(e) => return Err(e),
        };
        if record.is_initialized {
            return Err(InsuranceContractError::AlreadyInitialized);
        }
        if record.is_closed {
            return Err(InsuranceContractError::AlreadyClosed);
        }
        record.is_initialized = true;
        record.is_closed = false;
        record.insurance_contract_id = insurance_contract_id;
        record.pack_into_slice(data);
        Ok(())
    }

    /// Closes the initialized record held in `data`.
    pub fn process_close_insurance_contract(
        authority_signed: bool,
        owner_matches: bool,
        data: &mut Vec<u8>,
    ) -> (r: Result<(), InsuranceContractError>)
        ensures
            carried_out(
                Self::spec_close(authority_signed, owner_matches, old(data)@),
                r,
                old(data)@,
                final(data)@,
            ),
    {
        if !authority_signed {
            return Err(InsuranceContractError::MissingAuthorization);
        }
        if !owner_matches {
            return Err(InsuranceContractError::IncorrectOwner);
        }
        let mut record = match InsuranceContractData::unpack(data.as_slice()) {
            Ok(record) => record,
            Err(e) => return Err(e),
        };
        if !record.is_initialized {
            return Err(InsuranceContractError::NotInitialized);
        }
        if record.is_closed {
            return Err(InsuranceContractError::AlreadyClosed);
        }
        record.is_closed = true;
        record.pack_into_slice(data);
        Ok(())
    }
}

/// Initializing a record twice, under the same signature, ownership and funding
/// and with any identifiers: when the first call succeeds, the second fails with
/// `AlreadyInitialized` (leaving the bytes as the first call wrote them), and
/// those bytes hold the identifier of the first call.
pub proof fn lemma_initialize_twice(
    authority_signed: bool,
    owner_matches: bool,
    lamports: u64,
    minimum_balance: u64,
    data: Seq<u8>,
    first_id: u32,
    second_id: u32,
)
    ensures
        Processor::spec_save(authority_signed, owner_matches, lamports, minimum_balance, data, first_id)
            matches Ok(after_first) ==> {
            &&& Processor::spec_save(
                authority_signed,
                owner_matches,
                lamports,
                minimum_balance,
                after_first,
                second_id,
            ) == Err::<Seq<u8>, InsuranceContractError>(
                InsuranceContractError::AlreadyInitialized,
            )
            &&& InsuranceContractData::spec_unpack(after_first) == Ok::<
                InsuranceContractData,
                InsuranceContractError,
            >(
                InsuranceContractData {
                    is_initialized: true,
                    is_closed: false,
                    insurance_contract_id: first_id,
                },
            )
        },
{
    if data.len() >= INSURANCE_CONTRACT_DATA_LEN {
        let r = InsuranceContractData {
            is_initialized: true,
            is_closed: false,
            insurance_contract_id: first_id,
        };
        lemma_unpack_after_pack_into(r, data);
    }
}

/// Closing a record that was never initialized, by a signed authority on
/// storage the program owns, fails with `NotInitialized`.
pub proof fn lemma_close_before_initialize(authority_signed: bool, owner_matches: bool, data: Seq<u8>)
    requires
        data.len() >= INSURANCE_CONTRACT_DATA_LEN,
        data[0] == 0,
    ensures
        authority_signed && owner_matches ==> Processor::spec_close(
            authority_signed,
            owner_matches,
            data,
        ) == Err::<Seq<u8>, InsuranceContractError>(InsuranceContractError::NotInitialized),
{
}

/// Closing a record twice, under the same signature and ownership: when the
/// first call succeeds, the second fails with `AlreadyClosed`.
pub proof fn lemma_close_twice(authority_signed: bool, owner_matches: bool, data: Seq<u8>)
    ensures
        Processor::spec_close(authority_signed, owner_matches, data) matches Ok(after_first)
            ==> Processor::spec_close(authority_signed, owner_matches, after_first) == Err::<
            Seq<u8>,
            InsuranceContractError,
        >(InsuranceContractError::AlreadyClosed),
{
    if let Ok(after_first) = Processor::spec_close(authority_signed, owner_matches, data) {
        let before = InsuranceContractData::spec_unpack(data).unwrap();
        lemma_unpack_after_pack_into(InsuranceContractData { is_closed: true, ..before }, data);
    }
}

/// Every operation that succeeds moves the record one step along its lifecycle:
/// the record was not closed before, it is initialized after, a closed record
/// stays initialized, and an identifier once set is kept.
pub proof fn lemma_lifecycle_one_way(
    instruction_data: Seq<u8>,
    authority_signed: bool,
    owner_matches: bool,
    lamports: u64,
    minimum_balance: u64,
    data: Seq<u8>,
)
    ensures
        Processor::spec_process(
            instruction_data,
            authority_signed,
            owner_matches,
            lamports,
            minimum_balance,
            data,
        ) matches Ok(after) ==> {
            &&& after.len() == data.len()
            &&& InsuranceContractData::spec_unpack(data) matches Ok(b)
            &&& InsuranceContractData::spec_unpack(after) matches Ok(a)
            &&& !b.is_closed
            &&& a.is_initialized
            &&& b.is_initialized ==> a.insurance_contract_id == b.insurance_contract_id
        },
{
    if data.len() >= INSURANCE_CONTRACT_DATA_LEN {
        let b = InsuranceContractData::spec_unpack(data).unwrap();
        match InsuranceContractInstruction::spec_unpack(instruction_data) {
            Ok(InsuranceContractInstruction::SaveInsuranceContract { insurance_contract_id }) => {
                lemma_unpack_after_pack_into(
                    InsuranceContractData {
                        is_initialized: true,
                        is_closed: false,
                        insurance_contract_id,
                    },
                    data,
                );
            },
            _ => {
                lemma_unpack_after_pack_into(InsuranceContractData { is_closed: true, ..b }, data);
            },
        }
    }
}

} // verus!
