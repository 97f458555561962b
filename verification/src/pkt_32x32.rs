//! Codec for the 32x32 width class: 32-bit address, 32-bit data, magic `K`.
//!
//! Layout: magic at byte 0, target id at byte 1, flags at byte 2 (bit 0 =
//! write, bit 1 = success), address little-endian at bytes 4..8, data
//! little-endian at bytes 8..12. This family exposes a real success bit.
//!
//! For the expansion GPIO targets the address field doubles as a bitmask:
//! see `nios_access` for the masked read/write rules.

use vstd::bytes::{lemma_auto_spec_u32_to_from_le_bytes, spec_u32_from_le_bytes,
    spec_u32_to_le_bytes, u32_from_le_bytes, u32_to_le_bytes};
use vstd::prelude::*;
use vstd::slice::slice_subrange;

use crate::error::Error;
use crate::packing::{flags_byte, spec_write_flag};

verus! {

pub const NIOS_PKT_32X32_MAGIC: u8 = 0x4b;

pub const NIOS_PKT_32X32_FLAG_SUCCESS: u8 = 2;

/// The 16 bytes of a 32x32 request with the given fields.
pub open spec fn spec_pack_32x32(target: u8, write: bool, addr: u32, data: u32) -> Seq<u8> {
    seq![NIOS_PKT_32X32_MAGIC, target, spec_write_flag(write), 0u8]
        + spec_u32_to_le_bytes(addr)
        + spec_u32_to_le_bytes(data)
        + seq![0u8, 0u8, 0u8, 0u8]
}

/// The fields of a well-framed 32x32 buffer, or `None` on a magic mismatch.
pub open spec fn spec_unpack_32x32(s: Seq<u8>) -> Option<(u8, bool, u32, u32, bool)>
    recommends
        s.len() == 16,
{
    if s[0] == NIOS_PKT_32X32_MAGIC {
        Some(
            (
                s[1],
                s[2] & 1 != 0,
                spec_u32_from_le_bytes(s.subrange(4, 8)),
                spec_u32_from_le_bytes(s.subrange(8, 12)),
                s[2] & 2 != 0,
            ),
        )
    } else {
        None
    }
}

/// Builds the 32x32 request for one register access.
pub fn pack_32x32(target: u8, write: bool, addr: u32, data: u32) -> (r: [u8; 16])
    ensures
        r@ == spec_pack_32x32(target, write, addr, data),
{
    let a = u32_to_le_bytes(addr);
    let d = u32_to_le_bytes(data);
    let r: [u8; 16] = [
        NIOS_PKT_32X32_MAGIC,
        target,
        flags_byte(write),
        0,
        a[0],
        a[1],
        a[2],
        a[3],
        d[0],
        d[1],
        d[2],
        d[3],
        0, 0, 0, 0,
    ];
    proof {
        assert(r@ =~= spec_pack_32x32(target, write, addr, data));
    }
    r
}

/// Extracts (target, write, address, data, success) from a 32x32 buffer.
///
/// Fails with `Error::Framing` exactly when the magic byte is wrong. The
/// success element is bit 1 of the flags byte.
pub fn unpack_32x32(packet: &[u8; 16]) -> (r: Result<(u8, bool, u32, u32, bool), Error>)
    ensures
        r == (match spec_unpack_32x32(packet@) {
            Some(t) => Ok::<(u8, bool, u32, u32, bool), Error>(t),
            None => Err::<(u8, bool, u32, u32, bool), Error>(Error::Framing),
        }),
        packet@[0] != NIOS_PKT_32X32_MAGIC <==> r is Err,
{
    if packet[0] == NIOS_PKT_32X32_MAGIC {
        let target = packet[1];
        let write = packet[2] & 1 != 0;
        let success = packet[2] & 2 != 0;
        let addr = u32_from_le_bytes(slice_subrange(packet.as_slice(), 4, 8));
        let data = u32_from_le_bytes(slice_subrange(packet.as_slice(), 8, 12));
        Ok((target, write, addr, data, success))
    } else {
        Err(Error::Framing)
    }
}

/// Builds what a 32x32 response to the given access looks like: the same
/// fields, with the success bit set or clear as asked. The device is the
/// usual author of such buffers; this builder serves loopback tests and
/// emulation.
pub fn pack_32x32_resp(target: u8, write: bool, addr: u32, success: bool, data: u32) -> (r: [u8;
    16])
    ensures
        r@ == spec_pack_32x32(target, write, addr, data).update(
            2,
            (if success {
                (spec_write_flag(write) | NIOS_PKT_32X32_FLAG_SUCCESS) as u8
            } else {
                spec_write_flag(write)
            }),
        ),
{
    let mut r = pack_32x32(target, write, addr, data);
    if success {
        r[2] = flags_byte(write) | NIOS_PKT_32X32_FLAG_SUCCESS;
    } else {
        r[2] = flags_byte(write);
    }
    proof {
        assert(r@ =~= spec_pack_32x32(target, write, addr, data).update(
            2,
            (if success {
                (spec_write_flag(write) | NIOS_PKT_32X32_FLAG_SUCCESS) as u8
            } else {
                spec_write_flag(write)
            }),
        ));
    }
    r
}

/// Extracts (target, write, address, data, success) from a 32x32 response
/// buffer. Unlike the request/response pair handling in `nios_access`, this
/// hands the success bit to the caller uninterpreted.
///
/// Fails with `Error::Framing` exactly when the magic byte is wrong.
pub fn unpack_32x32_resp(packet: &[u8; 16]) -> (r: Result<(u8, bool, u32, u32, bool), Error>)
    ensures
        r == (match spec_unpack_32x32(packet@) {
            Some(t) => Ok::<(u8, bool, u32, u32, bool), Error>(t),
            None => Err::<(u8, bool, u32, u32, bool), Error>(Error::Framing),
        }),
{
    unpack_32x32(packet)
}

/// Unpacking a packed 32x32 request gives back the packed fields; a freshly
/// packed request never carries the success bit.
pub proof fn lemma_32x32_round_trip(target: u8, write: bool, addr: u32, data: u32)
    ensures
        spec_unpack_32x32(spec_pack_32x32(target, write, addr, data))
            == Some((target, write, addr, data, false)),
{
    crate::packing::lemma_write_flag(write);
    lemma_auto_spec_u32_to_from_le_bytes();
    let s = spec_pack_32x32(target, write, addr, data);
    assert(s.subrange(4, 8) =~= spec_u32_to_le_bytes(addr));
    assert(s.subrange(8, 12) =~= spec_u32_to_le_bytes(data));
}

/// Unpacking a 32x32 response built by `pack_32x32_resp` gives back the
/// packed fields, the success bit reading exactly as it was chosen.
pub proof fn lemma_32x32_resp_round_trip(target: u8, write: bool, addr: u32, success: bool, data: u32)
    ensures
        spec_unpack_32x32(
            spec_pack_32x32(target, write, addr, data).update(
                2,
                (if success {
                    (spec_write_flag(write) | NIOS_PKT_32X32_FLAG_SUCCESS) as u8
                } else {
                    spec_write_flag(write)
                }),
            ),
        ) == Some((target, write, addr, data, success)),
{
    crate::packing::lemma_write_flag(write);
    crate::packing::lemma_success_flag(write);
    lemma_auto_spec_u32_to_from_le_bytes();
    let s = spec_pack_32x32(target, write, addr, data).update(
        2,
        (if success {
            (spec_write_flag(write) | NIOS_PKT_32X32_FLAG_SUCCESS) as u8
        } else {
            spec_write_flag(write)
        }),
    );
    assert(s.subrange(4, 8) =~= spec_u32_to_le_bytes(addr));
    assert(s.subrange(8, 12) =~= spec_u32_to_le_bytes(data));
}

} // verus!
