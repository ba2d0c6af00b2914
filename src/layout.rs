//! The bit layout of an identifier: five fields packed into one `u128`,
//! most significant first.
//!
//! | field     | width | lowest bit |
//! |-----------|-------|------------|
//! | prefix    | 16    | 112        |
//! | version   | 4     | 108        |
//! | device id | 16    | 92         |
//! | timestamp | 48    | 44         |
//! | random    | 44    | 0          |
use vstd::prelude::*;

verus! {

pub const PREFIX_SHIFT: u32 = 112;

pub const VERSION_CODE_SHIFT: u32 = 108;

pub const DEVICE_ID_SHIFT: u32 = 92;

pub const TIMESTAMP_SHIFT: u32 = 44;

/// The layout version written into every generated identifier.
pub const VERSION_CODE: u8 = 0x1;

/// The low 48 bits: the width of the timestamp field.
pub const TIMESTAMP_MASK: u64 = 0xFFFF_FFFF_FFFF;

/// The low 44 bits: the width of the random field.
pub const RANDOM_MASK: u64 = 0xFFF_FFFF_FFFF;

/// The value that packs the given fields, each first cut to its width.
pub open spec fn pack(prefix: u16, device_id: u16, timestamp: u64, random: u64) -> u128 {
    (prefix as u128) << 112u128
        | (1u128 << 108u128)
        | (device_id as u128) << 92u128
        | ((timestamp & 0xFFFF_FFFF_FFFFu64) as u128) << 44u128
        | ((random & 0xFFF_FFFF_FFFFu64) as u128)
}

pub open spec fn prefix_of(v: u128) -> u16 {
    (v >> 112u128) as u16
}

pub open spec fn version_of(v: u128) -> u8 {
    ((v >> 108u128) & 0xFu128) as u8
}

pub open spec fn device_id_of(v: u128) -> u16 {
    ((v >> 92u128) & 0xFFFFu128) as u16
}

pub open spec fn timestamp_of(v: u128) -> u64 {
    ((v >> 44u128) & 0xFFFF_FFFF_FFFFu128) as u64
}

pub open spec fn random_of(v: u128) -> u64 {
    (v & 0xFFF_FFFF_FFFFu128) as u64
}

/// Every bit of `v` below the prefix field.
pub open spec fn below_prefix(v: u128) -> u128 {
    v & 0xFFFF_FFFF_FFFF_FFFF_FFFF_FFFF_FFFFu128
}

/// Each field of a packed value reads back as what was packed, cut to its
/// width: no field spills into a neighbour.
pub proof fn lemma_pack_fields(prefix: u16, device_id: u16, timestamp: u64, random: u64)
    ensures
        prefix_of(pack(prefix, device_id, timestamp, random)) == prefix,
        version_of(pack(prefix, device_id, timestamp, random)) == VERSION_CODE,
        device_id_of(pack(prefix, device_id, timestamp, random)) == device_id,
        timestamp_of(pack(prefix, device_id, timestamp, random)) == timestamp
            & TIMESTAMP_MASK,
        random_of(pack(prefix, device_id, timestamp, random)) == random & RANDOM_MASK,
{
    assert(prefix_of(pack(prefix, device_id, timestamp, random)) == prefix) by (bit_vector);
    assert(version_of(pack(prefix, device_id, timestamp, random)) == 1u8) by (bit_vector);
    assert(device_id_of(pack(prefix, device_id, timestamp, random)) == device_id)
        by (bit_vector);
    assert(timestamp_of(pack(prefix, device_id, timestamp, random)) == timestamp
        & 0xFFFF_FFFF_FFFFu64) by (bit_vector);
    assert(random_of(pack(prefix, device_id, timestamp, random)) == random
        & 0xFFF_FFFF_FFFFu64) by (bit_vector);
}

/// A timestamp or random value too wide for its field is truncated to its low
/// bits: packing it gives the same value as packing those bits alone.
pub proof fn lemma_pack_truncates(prefix: u16, device_id: u16, timestamp: u64, random: u64)
    ensures
        pack(prefix, device_id, timestamp, random) == pack(
            prefix,
            device_id,
            (timestamp % 0x1_0000_0000_0000) as u64,
            (random % 0x1000_0000_0000) as u64,
        ),
{
    assert(pack(prefix, device_id, timestamp, random) == pack(
        prefix,
        device_id,
        (timestamp % 0x1_0000_0000_0000u64) as u64,
        (random % 0x1000_0000_0000u64) as u64,
    )) by (bit_vector);
}

} // verus!
