//! Codec for the 8x16 width class: 8-bit address, 16-bit data, magic `B`.
//!
//! Layout: magic at byte 0, target id at byte 1, flags at byte 2 (bit 0 =
//! write), address at byte 4, data little-endian at bytes 5..7.
//!
//! Like the 8x8 family, this legacy layout carries no reliable success
//! signal: a well-framed response counts as a successful operation, and the
//! unpacked success element is always `true`.

use vstd::bytes::{lemma_auto_spec_u16_to_from_le_bytes, spec_u16_from_le_bytes,
    spec_u16_to_le_bytes, u16_from_le_bytes, u16_to_le_bytes};
use vstd::prelude::*;
use vstd::slice::slice_subrange;

use crate::error::Error;
use crate::packing::{flags_byte, spec_write_flag};

verus! {

pub const NIOS_PKT_8X16_MAGIC: u8 = 0x42;

/// The 16 bytes of an 8x16 request with the given fields.
pub open spec fn spec_pack_8x16(target: u8, write: bool, addr: u8, data: u16) -> Seq<u8> {
    seq![NIOS_PKT_8X16_MAGIC, target, spec_write_flag(write), 0u8, addr]
        + spec_u16_to_le_bytes(data)
        + seq![0u8, 0u8, 0u8, 0u8, 0u8, 0u8, 0u8, 0u8, 0u8]
}

/// The fields of a well-framed 8x16 buffer, or `None` on a magic mismatch.
pub open spec fn spec_unpack_8x16(s: Seq<u8>) -> Option<(u8, bool, u8, u16, bool)>
    recommends
        s.len() == 16,
{
    if s[0] == NIOS_PKT_8X16_MAGIC {
        Some((s[1], s[2] & 1 != 0, s[4], spec_u16_from_le_bytes(s.subrange(5, 7)), true))
    } else {
        None
    }
}

/// Builds the 8x16 request for one register access.
pub fn pack_8x16(target: u8, write: bool, addr: u8, data: u16) -> (r: [u8; 16])
    ensures
        r@ == spec_pack_8x16(target, write, addr, data),
{
    let d = u16_to_le_bytes(data);
    let r: [u8; 16] = [
        NIOS_PKT_8X16_MAGIC,
        target,
        flags_byte(write),
        0,
        addr,
        d[0],
        d[1],
        0, 0, 0, 0, 0, 0, 0, 0, 0,
    ];
    proof {
        assert(r@ =~= spec_pack_8x16(target, write, addr, data));
    }
    r
}

/// Extracts (target, write, address, data, success) from an 8x16 buffer.
///
/// Fails with `Error::Framing` exactly when the magic byte is wrong. The
/// returned success element is always `true`: this family's wire format has
/// no dependable success bit, so completion of the exchange counts as
/// success.
pub fn unpack_8x16(packet: &[u8; 16]) -> (r: Result<(u8, bool, u8, u16, bool), Error>)
    ensures
        r == (match spec_unpack_8x16(packet@) {
            Some(t) => Ok::<(u8, bool, u8, u16, bool), Error>(t),
            None => Err::<(u8, bool, u8, u16, bool), Error>(Error::Framing),
        }),
        packet@[0] != NIOS_PKT_8X16_MAGIC <==> r is Err,
{
    if packet[0] == NIOS_PKT_8X16_MAGIC {
        let target = packet[1];
        let write = packet[2] & 1 != 0;
        let addr = packet[4];
        let data = u16_from_le_bytes(slice_subrange(packet.as_slice(), 5, 7));
        Ok((target, write, addr, data, true))
    } else {
        Err(Error::Framing)
    }
}

/// Unpacking a packed 8x16 request gives back the packed fields.
pub proof fn lemma_8x16_round_trip(target: u8, write: bool, addr: u8, data: u16)
    ensures
        spec_unpack_8x16(spec_pack_8x16(target, write, addr, data))
            == Some((target, write, addr, data, true)),
{
    crate::packing::lemma_write_flag(write);
    lemma_auto_spec_u16_to_from_le_bytes();
    let s = spec_pack_8x16(target, write, addr, data);
    assert(s.subrange(5, 7) =~= spec_u16_to_le_bytes(data));
}

} // verus!
