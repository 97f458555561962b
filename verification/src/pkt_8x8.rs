//! Codec for the 8x8 width class: 8-bit address, 8-bit data, magic `A`.
//!
//! Request and response layout: magic at byte 0, target id at byte 1, flags
//! at byte 2 (bit 0 = write), address at byte 4, data at byte 5; every other
//! byte is reserved and zero in requests.
//!
//! This legacy family carries no reliable success signal on the wire, so a
//! well-framed response is treated as a successful operation: the success
//! element of the unpacked tuple is always `true`.

use vstd::prelude::*;

use crate::error::Error;
use crate::packing::{flags_byte, spec_write_flag};

verus! {

pub const NIOS_PKT_8X8_MAGIC: u8 = 0x41;

/// The 16 bytes of an 8x8 request with the given fields.
pub open spec fn spec_pack_8x8(target: u8, write: bool, addr: u8, data: u8) -> Seq<u8> {
    seq![
        NIOS_PKT_8X8_MAGIC,
        target,
        spec_write_flag(write),
        0u8,
        addr,
        data,
        0u8, 0u8, 0u8, 0u8, 0u8, 0u8, 0u8, 0u8, 0u8, 0u8,
    ]
}

/// The fields of a well-framed 8x8 buffer, or `None` on a magic mismatch.
pub open spec fn spec_unpack_8x8(s: Seq<u8>) -> Option<(u8, bool, u8, u8, bool)>
    recommends
        s.len() == 16,
{
    if s[0] == NIOS_PKT_8X8_MAGIC {
        Some((s[1], s[2] & 1 != 0, s[4], s[5], true))
    } else {
        None
    }
}

/// Builds the 8x8 request for one register access.
pub fn pack_8x8(target: u8, write: bool, addr: u8, data: u8) -> (r: [u8; 16])
    ensures
        r@ == spec_pack_8x8(target, write, addr, data),
{
    let r: [u8; 16] = [
        NIOS_PKT_8X8_MAGIC,
        target,
        flags_byte(write),
        0,
        addr,
        data,
        0, 0, 0, 0, 0, 0, 0, 0, 0, 0,
    ];
    proof {
        assert(r@ =~= spec_pack_8x8(target, write, addr, data));
    }
    r
}

/// Extracts (target, write, address, data, success) from an 8x8 buffer.
///
/// Fails with `Error::Framing` exactly when the magic byte is wrong. The
/// returned success element is always `true`: this family's wire format has
/// no dependable success bit, so completion of the exchange counts as
/// success.
pub fn unpack_8x8(packet: &[u8; 16]) -> (r: Result<(u8, bool, u8, u8, bool), Error>)
    ensures
        r == (match spec_unpack_8x8(packet@) {
            Some(t) => Ok::<(u8, bool, u8, u8, bool), Error>(t),
            None => Err::<(u8, bool, u8, u8, bool), Error>(Error::Framing),
        }),
        packet@[0] != NIOS_PKT_8X8_MAGIC <==> r is Err,
{
    if packet[0] == NIOS_PKT_8X8_MAGIC {
        let target = packet[1];
        let write = packet[2] & 1 != 0;
        let addr = packet[4];
        let data = packet[5];
        Ok((target, write, addr, data, true))
    } else {
        Err(Error::Framing)
    }
}

/// Unpacking a packed 8x8 request gives back the packed fields; the request
/// parses as a read or write exactly as it was built, and as well-framed.
pub proof fn lemma_8x8_round_trip(target: u8, write: bool, addr: u8, data: u8)
    ensures
        spec_unpack_8x8(spec_pack_8x8(target, write, addr, data))
            == Some((target, write, addr, data, true)),
{
    crate::packing::lemma_write_flag(write);
}

} // verus!
