//! The persisted record and its fixed binary layout.
use crate::error::InsuranceContractError;
use vstd::prelude::*;

verus! {

/// Length in bytes of the persisted record: two flag bytes and a 4-byte identifier.
pub const INSURANCE_CONTRACT_DATA_LEN: usize = 1 + 1 + 4;

/// The byte that encodes a flag.
pub open spec fn flag_byte(b: bool) -> u8 {
    if b {
        1u8
    } else {
        0u8
    }
}

/// The four little-endian bytes of `x`.
pub open spec fn u32_le_bytes(x: u32) -> Seq<u8> {
    seq![
        (x % 256) as u8,
        ((x / 256) % 256) as u8,
        ((x / 65536) % 256) as u8,
        (x / 16777216) as u8,
    ]
}

/// The number whose little-endian bytes are `b0, b1, b2, b3`.
pub open spec fn u32_from_le(b0: u8, b1: u8, b2: u8, b3: u8) -> u32 {
    (b0 as int + 256 * b1 as int + 65536 * b2 as int + 16777216 * b3 as int) as u32
}

/// The persisted record: two lifecycle flags and an identifier.
#[derive(Debug, Clone, Copy, PartialEq, Eq, Structural)]
pub struct InsuranceContractData {
    pub is_initialized: bool,
    pub is_closed: bool,
    pub insurance_contract_id: u32,
}

impl InsuranceContractData {
    /// The bytes that encode this record.
    pub open spec fn spec_pack(self) -> Seq<u8> {
        seq![flag_byte(self.is_initialized), flag_byte(self.is_closed)] + u32_le_bytes(
            self.insurance_contract_id,
        )
    }

    /// The record that a buffer decodes to: its first bytes in layout order,
    /// a flag being set by any non-zero byte; a buffer shorter than the layout fails.
    pub open spec fn spec_unpack(bytes: Seq<u8>) -> Result<
        InsuranceContractData,
        InsuranceContractError,
    > {
        if bytes.len() < INSURANCE_CONTRACT_DATA_LEN {
            Err(InsuranceContractError::DecodingError)
        } else {
            Ok(
                InsuranceContractData {
                    is_initialized: bytes[0] != 0,
                    is_closed: bytes[1] != 0,
                    insurance_contract_id: u32_from_le(bytes[2], bytes[3], bytes[4], bytes[5]),
                },
            )
        }
    }

    /// The record of a freshly allocated, zero-filled buffer.
    pub open spec fn spec_default() -> InsuranceContractData {
        InsuranceContractData { is_initialized: false, is_closed: false, insurance_contract_id: 0 }
    }

    /// Decodes a record from the first `INSURANCE_CONTRACT_DATA_LEN` bytes of `input`.
    pub fn unpack(input: &[u8]) -> (r: Result<InsuranceContractData, InsuranceContractError>)
        ensures
            r == Self::spec_unpack(input@),
            r.is_ok() <==> input@.len() >= INSURANCE_CONTRACT_DATA_LEN,
    {
        if input.len() < INSURANCE_CONTRACT_DATA_LEN {
            return Err(InsuranceContractError::DecodingError);
        }
        let id: u32 = input[2] as u32 + 256 * (input[3] as u32) + 65536 * (input[4] as u32)
            + 16777216 * (input[5] as u32);
        Ok(
            InsuranceContractData {
                is_initialized: input[0] != 0,
                is_closed: input[1] != 0,
                insurance_contract_id: id,
            },
        )
    }

    /// Encodes this record into exactly `INSURANCE_CONTRACT_DATA_LEN` bytes.
    pub fn pack(&self) -> (r: Vec<u8>)
        ensures
            r@ == self.spec_pack(),
            r@.len() == INSURANCE_CONTRACT_DATA_LEN,
    {
        let mut buf: Vec<u8> = Vec::with_capacity(INSURANCE_CONTRACT_DATA_LEN);
        buf.push(if self.is_initialized { 1u8 } else { 0u8 });
        buf.push(if self.is_closed { 1u8 } else { 0u8 });
        let id = self.insurance_contract_id;
        buf.push((id % 256) as u8);
        buf.push(((id / 256) % 256) as u8);
        buf.push(((id / 65536) % 256) as u8);
        buf.push((id / 16777216) as u8);
        proof {
            assert(buf@ =~= self.spec_pack());
        }
        buf
    }
    /// The buffer `dst` after this record is written over its first bytes.
    pub open spec fn spec_pack_into(self, dst: Seq<u8>) -> Seq<u8> {
        self.spec_pack() + dst.skip(INSURANCE_CONTRACT_DATA_LEN as int)
    }

    /// Writes this record over the first `INSURANCE_CONTRACT_DATA_LEN` bytes of `dst`,
    /// leaving the rest of `dst` as it was.
    pub fn pack_into_slice(&self, dst: &mut Vec<u8>)
        requires
            old(dst)@.len() >= INSURANCE_CONTRACT_DATA_LEN,
        ensures
            final(dst)@ == self.spec_pack_into(old(dst)@),
            final(dst)@.len() == old(dst)@.len(),
    {
        let bytes = self.pack();
        let mut i: usize = 0;
        while i < INSURANCE_CONTRACT_DATA_LEN
            invariant
                0 <= i <= INSURANCE_CONTRACT_DATA_LEN,
                bytes@ == self.spec_pack(),
                old(dst)@.len() >= INSURANCE_CONTRACT_DATA_LEN,
                dst@.len() == old(dst)@.len(),
                forall|k: int| 0 <= k < i ==> dst@[k] == bytes@[k],
                forall|k: int| i <= k < dst@.len() ==> dst@[k] == old(dst)@[k],
            decreases INSURANCE_CONTRACT_DATA_LEN - i,
        {
            dst.set(i, bytes[i]);
            i = i + 1;
        }
        proof {
            assert(dst@ =~= self.spec_pack_into(old(dst)@));
        }
    }
}

impl Default for InsuranceContractData {
    /// The record of a freshly allocated, zero-filled buffer.
    fn default() -> (r: InsuranceContractData)
        ensures
            r == InsuranceContractData::spec_default(),
    {
        InsuranceContractData { is_initialized: false, is_closed: false, insurance_contract_id: 0 }
    }
}

/// Reading back the four little-endian bytes of a number gives the number.
pub proof fn lemma_u32_le_round_trip(x: u32)
    ensures
        u32_from_le(u32_le_bytes(x)[0], u32_le_bytes(x)[1], u32_le_bytes(x)[2], u32_le_bytes(x)[3])
            == x,
{
    let b = u32_le_bytes(x);
    assert(b[0] as int + 256 * b[1] as int + 65536 * b[2] as int + 16777216 * b[3] as int
        == x as int);
}

/// Decoding the encoding of any record gives that record back.
pub proof fn lemma_record_round_trip(r: InsuranceContractData)
    ensures
        InsuranceContractData::spec_unpack(r.spec_pack()) == Ok::<
            InsuranceContractData,
            InsuranceContractError,
        >(r),
{
    lemma_u32_le_round_trip(r.insurance_contract_id);
}

/// Every buffer shorter than the record layout fails to decode with `DecodingError`.
pub proof fn lemma_short_record_rejected(bytes: Seq<u8>)
    requires
        bytes.len() < INSURANCE_CONTRACT_DATA_LEN,
    ensures
        InsuranceContractData::spec_unpack(bytes) == Err::<
            InsuranceContractData,
            InsuranceContractError,
        >(InsuranceContractError::DecodingError),
{
}

/// A zero-filled buffer of the record's length decodes to the default record.
pub proof fn lemma_zeroed_record_is_default()
    ensures
        InsuranceContractData::spec_unpack(Seq::new(INSURANCE_CONTRACT_DATA_LEN as nat, |i: int| 0u8))
            == Ok::<InsuranceContractData, InsuranceContractError>(
            InsuranceContractData::spec_default(),
        ),
{
}

/// A record written over the first bytes of a long enough buffer decodes back,
/// and the buffer keeps its length.
pub proof fn lemma_unpack_after_pack_into(r: InsuranceContractData, dst: Seq<u8>)
    requires
        dst.len() >= INSURANCE_CONTRACT_DATA_LEN,
    ensures
        r.spec_pack_into(dst).len() == dst.len(),
        InsuranceContractData::spec_unpack(r.spec_pack_into(dst)) == Ok::<
            InsuranceContractData,
            InsuranceContractError,
        >(r),
{
    lemma_record_round_trip(r);
    let b = r.spec_pack_into(dst);
    assert(forall|i: int| 0 <= i < INSURANCE_CONTRACT_DATA_LEN ==> b[i] == r.spec_pack()[i]);
}

} // verus!
