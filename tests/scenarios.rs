use insurance_contract::error::InsuranceContractError;
use insurance_contract::processor::Processor;
use insurance_contract::state::{InsuranceContractData, INSURANCE_CONTRACT_DATA_LEN};

const RETENTION_MINIMUM: u64 = 1_000;

fn initialized_record() -> Vec<u8> {
    let mut data = vec![0u8; INSURANCE_CONTRACT_DATA_LEN];
    Processor::process_save_insurance_contract(
        true,
        true,
        RETENTION_MINIMUM,
        RETENTION_MINIMUM,
        &mut data,
        11223344,
    )
    .unwrap();
    data
}

#[test]
fn scenario_initialize_fresh_record() {
    let data = initialized_record();
    assert_eq!(
        InsuranceContractData::unpack(&data),
        Ok(InsuranceContractData { is_initialized: true, is_closed: false, insurance_contract_id: 11223344 })
    );
}

#[test]
fn scenario_initialize_underfunded() {
    let mut data = vec![0u8; INSURANCE_CONTRACT_DATA_LEN];
    assert_eq!(
        Processor::process_save_insurance_contract(
            true,
            true,
            RETENTION_MINIMUM - 1,
            RETENTION_MINIMUM,
            &mut data,
            11223344,
        ),
        Err(InsuranceContractError::InsufficientFunding)
    );
    assert_eq!(data, vec![0u8; INSURANCE_CONTRACT_DATA_LEN]);
}

#[test]
fn scenario_close_initialized_record() {
    let mut data = initialized_record();
    Processor::process_close_insurance_contract(true, true, &mut data).unwrap();
    assert_eq!(
        InsuranceContractData::unpack(&data),
        Ok(InsuranceContractData { is_initialized: true, is_closed: true, insurance_contract_id: 11223344 })
    );
}

#[test]
fn scenario_close_twice() {
    let mut data = initialized_record();
    Processor::process_close_insurance_contract(true, true, &mut data).unwrap();
    let closed = data.clone();
    assert_eq!(
        Processor::process_close_insurance_contract(true, true, &mut data),
        Err(InsuranceContractError::AlreadyClosed)
    );
    assert_eq!(data, closed);
}

#[test]
fn scenario_initialize_twice() {
    let mut data = initialized_record();
    assert_eq!(
        Processor::process_save_insurance_contract(
            true,
            true,
            RETENTION_MINIMUM,
            RETENTION_MINIMUM,
            &mut data,
            99,
        ),
        Err(InsuranceContractError::AlreadyInitialized)
    );
    assert_eq!(InsuranceContractData::unpack(&data).unwrap().insurance_contract_id, 11223344);
}

#[test]
fn close_before_initialize_fails() {
    let mut data = vec![0u8; INSURANCE_CONTRACT_DATA_LEN];
    assert_eq!(
        Processor::process_close_insurance_contract(true, true, &mut data),
        Err(InsuranceContractError::NotInitialized)
    );
    assert_eq!(data, vec![0u8; INSURANCE_CONTRACT_DATA_LEN]);
}

#[test]
fn initialize_after_close_fails() {
    let mut data = initialized_record();
    Processor::process_close_insurance_contract(true, true, &mut data).unwrap();
    assert_eq!(
        Processor::process_save_insurance_contract(
            true,
            true,
            RETENTION_MINIMUM,
            RETENTION_MINIMUM,
            &mut data,
            5,
        ),
        Err(InsuranceContractError::AlreadyInitialized)
    );
    assert_eq!(InsuranceContractData::unpack(&data).unwrap().insurance_contract_id, 11223344);
}
