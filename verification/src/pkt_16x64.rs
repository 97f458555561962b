//! Codec for the 16x64 width class: 16-bit address, 64-bit data, magic `E`.
//!
//! Layout: magic at byte 0, target id at byte 1, flags at byte 2 (bit 0 =
//! write, bit 1 = success), address little-endian at bytes 4..6, data
//! little-endian at bytes 6..14. This family exposes a real success bit.

use vstd::bytes::{lemma_auto_spec_u16_to_from_le_bytes, lemma_auto_spec_u64_to_from_le_bytes,
    spec_u16_from_le_bytes, spec_u16_to_le_bytes, spec_u64_from_le_bytes, spec_u64_to_le_bytes,
    u16_from_le_bytes, u16_to_le_bytes, u64_from_le_bytes, u64_to_le_bytes};
use vstd::prelude::*;
use vstd::slice::slice_subrange;

use crate::error::Error;
use crate::packing::{flags_byte, spec_write_flag};

verus! {

pub const NIOS_PKT_16X64_MAGIC: u8 = 0x45;

pub const NIOS_PKT_16X64_FLAG_SUCCESS: u8 = 2;

/// The 16 bytes of a 16x64 request with the given fields.
pub open spec fn spec_pack_16x64(target: u8, write: bool, addr: u16, data: u64) -> Seq<u8> {
    seq![NIOS_PKT_16X64_MAGIC, target, spec_write_flag(write), 0u8]
        + spec_u16_to_le_bytes(addr)
        + spec_u64_to_le_bytes(data)
        + seq![0u8, 0u8]
}

/// The fields of a well-framed 16x64 buffer, or `None` on a magic mismatch.
pub open spec fn spec_unpack_16x64(s: Seq<u8>) -> Option<(u8, bool, u16, u64, bool)>
    recommends
        s.len() == 16,
{
    if s[0] == NIOS_PKT_16X64_MAGIC {
        Some(
            (
                s[1],
                s[2] & 1 != 0,
                spec_u16_from_le_bytes(s.subrange(4, 6)),
                spec_u64_from_le_bytes(s.subrange(6, 14)),
                s[2] & 2 != 0,
            ),
        )
    } else {
        None
    }
}

/// Builds the 16x64 request for one register access.
pub fn pack_16x64(target: u8, write: bool, addr: u16, data: u64) -> (r: [u8; 16])
    ensures
        r@ == spec_pack_16x64(target, write, addr, data),
{
    let a = u16_to_le_bytes(addr);
    let d = u64_to_le_bytes(data);
    let r: [u8; 16] = [
        NIOS_PKT_16X64_MAGIC,
        target,
        flags_byte(write),
        0,
        a[0],
        a[1],
        d[0],
        d[1],
        d[2],
        d[3],
        d[4],
        d[5],
        d[6],
        d[7],
        0, 0,
    ];
    proof {
        assert(r@ =~= spec_pack_16x64(target, write, addr, data));
    }
    r
}

/// Extracts (target, write, address, data, success) from a 16x64 buffer.
///
/// Fails with `Error::Framing` exactly when the magic byte is wrong. The
/// success element is bit 1 of the flags byte.
pub fn unpack_16x64(packet: &[u8; 16]) -> (r: Result<(u8, bool, u16, u64, bool), Error>)
    ensures
        r == (match spec_unpack_16x64(packet@) {
            Some(t) => Ok::<(u8, bool, u16, u64, bool), Error>(t),
            None => Err::<(u8, bool, u16, u64, bool), Error>(Error::Framing),
        }),
        packet@[0] != NIOS_PKT_16X64_MAGIC <==> r is Err,
{
    if packet[0] == NIOS_PKT_16X64_MAGIC {
        let target = packet[1];
        let write = packet[2] & 1 != 0;
        let success = packet[2] & 2 != 0;
        let addr = u16_from_le_bytes(slice_subrange(packet.as_slice(), 4, 6));
        let data = u64_from_le_bytes(slice_subrange(packet.as_slice(), 6, 14));
        Ok((target, write, addr, data, success))
    } else {
        Err(Error::Framing)
    }
}

/// Builds what a successful 16x64 response to the given access looks like:
/// the same fields with the success bit set. The device is the usual author
/// of such buffers; this builder serves loopback tests and emulation.
pub fn pack_16x64_resp_data(target: u8, write: bool, addr: u16, data: u64) -> (r: [u8; 16])
    ensures
        r@ == spec_pack_16x64(target, write, addr, data)
            .update(2, (spec_write_flag(write) | NIOS_PKT_16X64_FLAG_SUCCESS) as u8),
{
    let mut r = pack_16x64(target, write, addr, data);
    r[2] = flags_byte(write) | NIOS_PKT_16X64_FLAG_SUCCESS;
    proof {
        assert(r@ =~= spec_pack_16x64(target, write, addr, data).update(
            2,
            (spec_write_flag(write) | NIOS_PKT_16X64_FLAG_SUCCESS) as u8,
        ));
    }
    r
}

/// Extracts (target, write, address, data) from a 16x64 response, treating a
/// clear success bit as a failed operation.
///
/// Fails with `Error::Framing` on a magic mismatch and with
/// `Error::OperationFailed` exactly when the buffer is well-framed but its
/// success bit is clear.
pub fn unpack_16x64_resp_data(packet: &[u8; 16]) -> (r: Result<(u8, bool, u16, u64), Error>)
    ensures
        r == (match spec_unpack_16x64(packet@) {
            Some(t) => if t.4 {
                Ok::<(u8, bool, u16, u64), Error>((t.0, t.1, t.2, t.3))
            } else {
                Err::<(u8, bool, u16, u64), Error>(Error::OperationFailed)
            },
            None => Err::<(u8, bool, u16, u64), Error>(Error::Framing),
        }),
{
    let (target, write, addr, data, success) = unpack_16x64(packet)?;
    if success {
        Ok((target, write, addr, data))
    } else {
        Err(Error::OperationFailed)
    }
}

/// Unpacking a packed 16x64 request gives back the packed fields; a freshly
/// packed request never carries the success bit.
pub proof fn lemma_16x64_round_trip(target: u8, write: bool, addr: u16, data: u64)
    ensures
        spec_unpack_16x64(spec_pack_16x64(target, write, addr, data))
            == Some((target, write, addr, data, false)),
{
    crate::packing::lemma_write_flag(write);
    lemma_auto_spec_u16_to_from_le_bytes();
    lemma_auto_spec_u64_to_from_le_bytes();
    let s = spec_pack_16x64(target, write, addr, data);
    assert(s.subrange(4, 6) =~= spec_u16_to_le_bytes(addr));
    assert(s.subrange(6, 14) =~= spec_u64_to_le_bytes(data));
}

/// Unpacking a successful 16x64 response built by `pack_16x64_resp_data`
/// gives back the packed fields with the success bit read as set.
pub proof fn lemma_16x64_resp_round_trip(target: u8, write: bool, addr: u16, data: u64)
    ensures
        spec_unpack_16x64(
            spec_pack_16x64(target, write, addr, data).update(
                2,
                (spec_write_flag(write) | NIOS_PKT_16X64_FLAG_SUCCESS) as u8,
            ),
        ) == Some((target, write, addr, data, true)),
{
    crate::packing::lemma_success_flag(write);
    lemma_auto_spec_u16_to_from_le_bytes();
    lemma_auto_spec_u64_to_from_le_bytes();
    let s = spec_pack_16x64(target, write, addr, data).update(
        2,
        (spec_write_flag(write) | NIOS_PKT_16X64_FLAG_SUCCESS) as u8,
    );
    assert(s.subrange(4, 6) =~= spec_u16_to_le_bytes(addr));
    assert(s.subrange(6, 14) =~= spec_u64_to_le_bytes(data));
}

} // verus!
