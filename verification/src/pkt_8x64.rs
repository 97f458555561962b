//! Codec for the 8x64 width class: 8-bit address, 64-bit data, magic `D`.
//!
//! Layout: magic at byte 0, target id at byte 1, flags at byte 2 (bit 0 =
//! write), address at byte 4, data little-endian at bytes 5..13. The device
//! uses this family for its free-running timestamp counters; the legacy
//! layout defines no success bit, so the unpacked tuple carries none.

use vstd::bytes::{lemma_auto_spec_u64_to_from_le_bytes, spec_u64_from_le_bytes,
    spec_u64_to_le_bytes, u64_from_le_bytes, u64_to_le_bytes};
use vstd::prelude::*;
use vstd::slice::slice_subrange;

use crate::error::Error;
use crate::packing::{flags_byte, spec_write_flag};

verus! {

pub const NIOS_PKT_8X64_MAGIC: u8 = 0x44;

/// The 16 bytes of an 8x64 request with the given fields.
pub open spec fn spec_pack_8x64(target: u8, write: bool, addr: u8, data: u64) -> Seq<u8> {
    seq![NIOS_PKT_8X64_MAGIC, target, spec_write_flag(write), 0u8, addr]
        + spec_u64_to_le_bytes(data)
        + seq![0u8, 0u8, 0u8]
}

/// The fields of a well-framed 8x64 buffer, or `None` on a magic mismatch.
pub open spec fn spec_unpack_8x64(s: Seq<u8>) -> Option<(u8, bool, u8, u64)>
    recommends
        s.len() == 16,
{
    if s[0] == NIOS_PKT_8X64_MAGIC {
        Some((s[1], s[2] & 1 != 0, s[4], spec_u64_from_le_bytes(s.subrange(5, 13))))
    } else {
        None
    }
}

/// Builds the 8x64 request for one register access.
pub fn pack_8x64(target: u8, write: bool, addr: u8, data: u64) -> (r: [u8; 16])
    ensures
        r@ == spec_pack_8x64(target, write, addr, data),
{
    let d = u64_to_le_bytes(data);
    let r: [u8; 16] = [
        NIOS_PKT_8X64_MAGIC,
        target,
        flags_byte(write),
        0,
        addr,
        d[0],
        d[1],
        d[2],
        d[3],
        d[4],
        d[5],
        d[6],
        d[7],
        0, 0, 0,
    ];
    proof {
        assert(r@ =~= spec_pack_8x64(target, write, addr, data));
    }
    r
}

/// Extracts (target, write, address, data) from an 8x64 buffer.
///
/// Fails with `Error::Framing` exactly when the magic byte is wrong.
pub fn unpack_8x64(packet: &[u8; 16]) -> (r: Result<(u8, bool, u8, u64), Error>)
    ensures
        r == (match spec_unpack_8x64(packet@) {
            Some(t) => Ok::<(u8, bool, u8, u64), Error>(t),
            None => Err::<(u8, bool, u8, u64), Error>(Error::Framing),
        }),
        packet@[0] != NIOS_PKT_8X64_MAGIC <==> r is Err,
{
    if packet[0] == NIOS_PKT_8X64_MAGIC {
        let target = packet[1];
        let write = packet[2] & 1 != 0;
        let addr = packet[4];
        let data = u64_from_le_bytes(slice_subrange(packet.as_slice(), 5, 13));
        Ok((target, write, addr, data))
    } else {
        Err(Error::Framing)
    }
}

/// Unpacking a packed 8x64 request gives back the packed fields.
pub proof fn lemma_8x64_round_trip(target: u8, write: bool, addr: u8, data: u64)
    ensures
        spec_unpack_8x64(spec_pack_8x64(target, write, addr, data))
            == Some((target, write, addr, data)),
{
    crate::packing::lemma_write_flag(write);
    lemma_auto_spec_u64_to_from_le_bytes();
    let s = spec_pack_8x64(target, write, addr, data);
    assert(s.subrange(5, 13) =~= spec_u64_to_le_bytes(data));
}

} // verus!
