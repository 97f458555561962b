//! Codec for the 8x32 width class: 8-bit address, 32-bit data, magic `C`.
//!
//! Layout: magic at byte 0, target id at byte 1, flags at byte 2 (bit 0 =
//! write, bit 1 = success), address at byte 4, data little-endian at bytes
//! 5..9. This family exposes a real success bit in responses.

use vstd::bytes::{lemma_auto_spec_u32_to_from_le_bytes, spec_u32_from_le_bytes,
    spec_u32_to_le_bytes, u32_from_le_bytes, u32_to_le_bytes};
use vstd::prelude::*;
use vstd::slice::slice_subrange;

use crate::error::Error;
use crate::packing::{flags_byte, spec_write_flag};

verus! {

pub const NIOS_PKT_8X32_MAGIC: u8 = 0x43;

/// The 16 bytes of an 8x32 request with the given fields.
pub open spec fn spec_pack_8x32(target: u8, write: bool, addr: u8, data: u32) -> Seq<u8> {
    seq![NIOS_PKT_8X32_MAGIC, target, spec_write_flag(write), 0u8, addr]
        + spec_u32_to_le_bytes(data)
        + seq![0u8, 0u8, 0u8, 0u8, 0u8, 0u8, 0u8]
}

/// The fields of a well-framed 8x32 buffer, or `None` on a magic mismatch.
pub open spec fn spec_unpack_8x32(s: Seq<u8>) -> Option<(u8, bool, u8, u32, bool)>
    recommends
        s.len() == 16,
{
    if s[0] == NIOS_PKT_8X32_MAGIC {
        Some((s[1], s[2] & 1 != 0, s[4], spec_u32_from_le_bytes(s.subrange(5, 9)), s[2] & 2 != 0))
    } else {
        None
    }
}

/// Builds the 8x32 request for one register access.
pub fn pack_8x32(target: u8, write: bool, addr: u8, data: u32) -> (r: [u8; 16])
    ensures
        r@ == spec_pack_8x32(target, write, addr, data),
{
    let d = u32_to_le_bytes(data);
    let r: [u8; 16] = [
        NIOS_PKT_8X32_MAGIC,
        target,
        flags_byte(write),
        0,
        addr,
        d[0],
        d[1],
        d[2],
        d[3],
        0, 0, 0, 0, 0, 0, 0,
    ];
    proof {
        assert(r@ =~= spec_pack_8x32(target, write, addr, data));
    }
    r
}

/// Extracts (target, write, address, data, success) from an 8x32 buffer.
///
/// Fails with `Error::Framing` exactly when the magic byte is wrong. The
/// success element is bit 1 of the flags byte; interpreting it is the
/// caller's concern, so that the same codec serves requests and responses.
pub fn unpack_8x32(packet: &[u8; 16]) -> (r: Result<(u8, bool, u8, u32, bool), Error>)
    ensures
        r == (match spec_unpack_8x32(packet@) {
            Some(t) => Ok::<(u8, bool, u8, u32, bool), Error>(t),
            None => Err::<(u8, bool, u8, u32, bool), Error>(Error::Framing),
        }),
        packet@[0] != NIOS_PKT_8X32_MAGIC <==> r is Err,
{
    if packet[0] == NIOS_PKT_8X32_MAGIC {
        let target = packet[1];
        let write = packet[2] & 1 != 0;
        let success = packet[2] & 2 != 0;
        let addr = packet[4];
        let data = u32_from_le_bytes(slice_subrange(packet.as_slice(), 5, 9));
        Ok((target, write, addr, data, success))
    } else {
        Err(Error::Framing)
    }
}

/// Unpacking a packed 8x32 request gives back the packed fields; a freshly
/// packed request never carries the success bit.
pub proof fn lemma_8x32_round_trip(target: u8, write: bool, addr: u8, data: u32)
    ensures
        spec_unpack_8x32(spec_pack_8x32(target, write, addr, data))
            == Some((target, write, addr, data, false)),
{
    crate::packing::lemma_write_flag(write);
    lemma_auto_spec_u32_to_from_le_bytes();
    let s = spec_pack_8x32(target, write, addr, data);
    assert(s.subrange(5, 9) =~= spec_u32_to_le_bytes(data));
}

} // verus!
