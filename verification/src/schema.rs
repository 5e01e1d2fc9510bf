//! The two fixed-width record layouts. An address record is one text buffer;
//! a profile record is one text buffer followed by three 32-bit integers.
//! A record in storage and the update request that carries its new contents
//! share one layout.

use vstd::prelude::*;
use vstd::slice::slice_subrange;
use crate::wire::{
    buffer_from_bytes, buffer_to_bytes, i32_decoding, i32_encoding, i32_from_bytes, i32_to_bytes,
    lemma_i32_decoding_of_encoding, lemma_i32_encoding_of_decoding,
};

verus! {

/// Width in bytes of an encoded address record.
pub const ADDRESS_WIDTH: usize = 512;

/// Width in bytes of an encoded profile record.
pub const PROFILE_WIDTH: usize = 524;

/// The contents of an address record.
pub struct AddressFields {
    pub address: Seq<u8>,
}

/// The contents of a profile record.
pub struct ProfileFields {
    pub name: Seq<u8>,
    pub date: i32,
    pub month: i32,
    pub year: i32,
}

impl AddressFields {
    /// The text buffer has its fixed length.
    pub open spec fn wf(self) -> bool {
        self.address.len() == 512
    }
}

impl ProfileFields {
    /// The text buffer has its fixed length.
    pub open spec fn wf(self) -> bool {
        self.name.len() == 512
    }
}

/// The bytes that stand for an address record: its buffer.
pub open spec fn address_encoding(fields: AddressFields) -> Seq<u8> {
    fields.address
}

/// The address record that `bytes` stand for, if they stand for one.
pub open spec fn address_decoding(bytes: Seq<u8>) -> Option<AddressFields> {
    if bytes.len() == 512 {
        Some(AddressFields { address: bytes })
    } else {
        None
    }
}

/// The bytes that stand for a profile record: its buffer, then date, month
/// and year.
pub open spec fn profile_encoding(fields: ProfileFields) -> Seq<u8> {
    fields.name + i32_encoding(fields.date) + i32_encoding(fields.month) + i32_encoding(
        fields.year,
    )
}

/// The profile record that `bytes` stand for, if they stand for one.
pub open spec fn profile_decoding(bytes: Seq<u8>) -> Option<ProfileFields> {
    if bytes.len() == 524 {
        Some(
            ProfileFields {
                name: bytes.subrange(0, 512),
                date: i32_decoding(bytes.subrange(512, 516)),
                month: i32_decoding(bytes.subrange(516, 520)),
                year: i32_decoding(bytes.subrange(520, 524)),
            },
        )
    } else {
        None
    }
}

/// Reading back the encoding of an address record yields the record.
pub proof fn lemma_address_round_trip(fields: AddressFields)
    requires
        fields.wf(),
    ensures
        address_encoding(fields).len() == ADDRESS_WIDTH,
        address_decoding(address_encoding(fields)) == Some(fields),
{
}

/// Bytes that decode to an address record are the encoding of that record.
pub proof fn lemma_address_encoding_unique(bytes: Seq<u8>)
    requires
        address_decoding(bytes) is Some,
    ensures
        address_decoding(bytes).unwrap().wf(),
        address_encoding(address_decoding(bytes).unwrap()) == bytes,
{
}

/// Reading back the encoding of a profile record yields the record.
pub proof fn lemma_profile_round_trip(fields: ProfileFields)
    requires
        fields.wf(),
    ensures
        profile_encoding(fields).len() == PROFILE_WIDTH,
        profile_decoding(profile_encoding(fields)) == Some(fields),
{
    let bytes = profile_encoding(fields);
    lemma_i32_decoding_of_encoding(fields.date);
    lemma_i32_decoding_of_encoding(fields.month);
    lemma_i32_decoding_of_encoding(fields.year);
    assert(bytes.subrange(0, 512) =~= fields.name);
    assert(bytes.subrange(512, 516) =~= i32_encoding(fields.date));
    assert(bytes.subrange(516, 520) =~= i32_encoding(fields.month));
    assert(bytes.subrange(520, 524) =~= i32_encoding(fields.year));
}

/// Bytes that decode to a profile record are the encoding of that record.
pub proof fn lemma_profile_encoding_unique(bytes: Seq<u8>)
    requires
        profile_decoding(bytes) is Some,
    ensures
        profile_decoding(bytes).unwrap().wf(),
        profile_encoding(profile_decoding(bytes).unwrap()) == bytes,
{
    lemma_i32_encoding_of_decoding(bytes.subrange(512, 516));
    lemma_i32_encoding_of_decoding(bytes.subrange(516, 520));
    lemma_i32_encoding_of_decoding(bytes.subrange(520, 524));
}

/// Encodes an address record.
pub fn encode_address(address: &[u8; 512]) -> (bytes: Vec<u8>)
    ensures
        bytes@ == address_encoding(AddressFields { address: address@ }),
{
    buffer_to_bytes(address).unwrap()
}

/// Decodes an address record; `None` unless `bytes` has the width of one.
pub fn decode_address(bytes: &[u8]) -> (address: Option<[u8; 512]>)
    ensures
        match address {
            Some(a) => address_decoding(bytes@) == Some(AddressFields { address: a@ }),
            None => address_decoding(bytes@) is None,
        },
{
    buffer_from_bytes(bytes)
}

/// Encodes a profile record.
pub fn encode_profile(name: &[u8; 512], date: i32, month: i32, year: i32) -> (bytes: Vec<u8>)
    ensures
        bytes@ == profile_encoding(ProfileFields { name: name@, date, month, year }),
{
    let mut bytes = buffer_to_bytes(name).unwrap();
    let mut date_bytes = i32_to_bytes(date).unwrap();
    let mut month_bytes = i32_to_bytes(month).unwrap();
    let mut year_bytes = i32_to_bytes(year).unwrap();
    bytes.append(&mut date_bytes);
    bytes.append(&mut month_bytes);
    bytes.append(&mut year_bytes);
    bytes
}

/// Decodes a profile record; `None` unless `bytes` has the width of one.
pub fn decode_profile(bytes: &[u8]) -> (fields: Option<([u8; 512], i32, i32, i32)>)
    ensures
        match fields {
            Some((name, date, month, year)) => profile_decoding(bytes@) == Some(
                ProfileFields { name: name@, date, month, year },
            ),
            None => profile_decoding(bytes@) is None,
        },
{
    if bytes.len() != PROFILE_WIDTH {
        return None;
    }
    let name = buffer_from_bytes(slice_subrange(bytes, 0, 512)).unwrap();
    let date = i32_from_bytes(slice_subrange(bytes, 512, 516)).unwrap();
    let month = i32_from_bytes(slice_subrange(bytes, 516, 520)).unwrap();
    let year = i32_from_bytes(slice_subrange(bytes, 520, 524)).unwrap();
    Some((name, date, month, year))
}

} // verus!
