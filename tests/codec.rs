use insurance_contract::error::InsuranceContractError;
use insurance_contract::instruction::InsuranceContractInstruction;
use insurance_contract::state::{InsuranceContractData, INSURANCE_CONTRACT_DATA_LEN};

#[test]
fn record_layout_is_fixed() {
    let r = InsuranceContractData { is_initialized: true, is_closed: false, insurance_contract_id: 11223344 };
    // 11223344 = 0x00AB4130
    assert_eq!(r.pack(), vec![1u8, 0, 0x30, 0x41, 0xAB, 0x00]);
    assert_eq!(r.pack().len(), INSURANCE_CONTRACT_DATA_LEN);
}

#[test]
fn record_round_trip() {
    for r in [
        InsuranceContractData { is_initialized: false, is_closed: false, insurance_contract_id: 0 },
        InsuranceContractData { is_initialized: true, is_closed: true, insurance_contract_id: u32::MAX },
        InsuranceContractData { is_initialized: false, is_closed: true, insurance_contract_id: 0x01020304 },
    ] {
        assert_eq!(InsuranceContractData::unpack(&r.pack()), Ok(r));
    }
}

#[test]
fn zeroed_record_decodes_to_default() {
    assert_eq!(
        InsuranceContractData::unpack(&[0u8; INSURANCE_CONTRACT_DATA_LEN]),
        Ok(InsuranceContractData::default())
    );
}

#[test]
fn short_record_fails() {
    for n in 0..INSURANCE_CONTRACT_DATA_LEN {
        assert_eq!(
            InsuranceContractData::unpack(&vec![1u8; n]),
            Err(InsuranceContractError::DecodingError)
        );
    }
}

#[test]
fn record_reads_only_its_prefix() {
    assert_eq!(
        InsuranceContractData::unpack(&[1u8, 2, 0xff, 0xff, 0xff, 0xff, 7]),
        Ok(InsuranceContractData { is_initialized: true, is_closed: true, insurance_contract_id: u32::MAX })
    );
}

#[test]
fn pack_into_slice_keeps_tail() {
    let r = InsuranceContractData { is_initialized: true, is_closed: true, insurance_contract_id: 258 };
    let mut dst = vec![9u8; 8];
    r.pack_into_slice(&mut dst);
    assert_eq!(dst, vec![1u8, 1, 2, 1, 0, 0, 9, 9]);
}

#[test]
fn instruction_wire_format() {
    assert_eq!(
        InsuranceContractInstruction::SaveInsuranceContract { insurance_contract_id: 11223344 }.pack(),
        vec![0u8, 0x30, 0x41, 0xAB, 0x00]
    );
    assert_eq!(InsuranceContractInstruction::CloseInsuranceContract.pack(), vec![1u8]);
}

#[test]
fn instruction_round_trip() {
    for op in [
        InsuranceContractInstruction::SaveInsuranceContract { insurance_contract_id: 0 },
        InsuranceContractInstruction::SaveInsuranceContract { insurance_contract_id: u32::MAX },
        InsuranceContractInstruction::CloseInsuranceContract,
    ] {
        assert_eq!(InsuranceContractInstruction::unpack(&op.pack()), Ok(op));
    }
}

#[test]
fn instruction_decoding() {
    assert_eq!(
        InsuranceContractInstruction::unpack(&[0u8, 4, 3, 2, 1, 99]),
        Ok(InsuranceContractInstruction::SaveInsuranceContract { insurance_contract_id: 0x01020304 })
    );
    assert_eq!(
        InsuranceContractInstruction::unpack(&[1u8, 5, 6]),
        Ok(InsuranceContractInstruction::CloseInsuranceContract)
    );
}

#[test]
fn invalid_instructions_fail() {
    let bad: [&[u8]; 5] = [&[], &[2u8], &[255u8, 0, 0, 0, 0], &[0u8], &[0u8, 1, 2, 3]];
    for input in bad {
        assert_eq!(
            InsuranceContractInstruction::unpack(input),
            Err(InsuranceContractError::InvalidInstruction)
        );
    }
}

#[test]
fn error_codes_are_stable() {
    let all = [
        InsuranceContractError::InvalidInstruction,
        InsuranceContractError::NotInitialized,
        InsuranceContractError::AlreadyInitialized,
        InsuranceContractError::AlreadyClosed,
        InsuranceContractError::MissingAuthorization,
        InsuranceContractError::IncorrectOwner,
        InsuranceContractError::InsufficientFunding,
        InsuranceContractError::DecodingError,
    ];
    for (i, e) in all.iter().enumerate() {
        assert_eq!(e.code(), i as u32);
        assert_eq!(InsuranceContractError::from_code(i as u32), Some(*e));
    }
    assert_eq!(InsuranceContractError::from_code(8), None);
}
