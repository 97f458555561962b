//! The target register map: pure translation between logical peripheral
//! operations and packet fields.
//!
//! Every operation is one request/response exchange. The `*_request`
//! functions here build the outbound 16-byte buffer; the `*_response`
//! functions read the operation's result out of the inbound one. The
//! transport in between ("send these 16 bytes, then receive 16") is the
//! caller's to provide, so everything in this module is checked end to end.
//!
//! Families with a success bit (8x32, 16x64, 32x32) fail with
//! `Error::OperationFailed` when a response carries it cleared. The legacy
//! 8x8 and 8x16 families have no dependable success signal on the wire, so
//! for them a well-framed response counts as success.

use vstd::prelude::*;

use crate::error::Error;
use crate::pkt_16x64::{spec_pack_16x64, spec_unpack_16x64, pack_16x64, unpack_16x64};
use crate::pkt_32x32::{spec_pack_32x32, spec_unpack_32x32, pack_32x32, unpack_32x32};
use crate::pkt_8x16::{spec_pack_8x16, spec_unpack_8x16, pack_8x16, unpack_8x16};
use crate::pkt_8x32::{spec_pack_8x32, spec_unpack_8x32, pack_8x32, unpack_8x32};
use crate::pkt_8x64::{spec_pack_8x64, spec_unpack_8x64, pack_8x64, unpack_8x64};
use crate::pkt_8x8::{spec_pack_8x8, spec_unpack_8x8, pack_8x8, unpack_8x8};
use crate::targets::{Target16x64, Target32x32, Target8x16, Target8x32, Target8x8};
use crate::{BladerfDirection, BladerfVersion};

verus! {

// ---------------------------------------------------------------------------
// Generic per-family operations
// ---------------------------------------------------------------------------

/// Builds the request that reads one 8x8 register.
pub fn nios_8x8_read_request(target: Target8x8, addr: u8) -> (r: [u8; 16])
    ensures
        r@ == spec_pack_8x8(target.spec_id(), false, addr, 0),
{
    pack_8x8(target.id(), false, addr, 0)
}

/// Builds the request that writes one 8x8 register.
pub fn nios_8x8_write_request(target: Target8x8, addr: u8, data: u8) -> (r: [u8; 16])
    ensures
        r@ == spec_pack_8x8(target.spec_id(), true, addr, data),
{
    pack_8x8(target.id(), true, addr, data)
}

/// The data field of a well-framed 8x8 response; this legacy family reports
/// no dependable success bit, so well-framed means successful.
pub open spec fn spec_nios_8x8_response(s: Seq<u8>) -> Result<u8, Error> {
    match spec_unpack_8x8(s) {
        Some(t) => Ok(t.3),
        None => Err(Error::Framing),
    }
}

/// Reads the result of an 8x8 operation out of its response buffer.
pub fn nios_8x8_response(resp: &[u8; 16]) -> (r: Result<u8, Error>)
    ensures
        r == spec_nios_8x8_response(resp@),
{
    let (_target, _write, _addr, data, _success) = unpack_8x8(resp)?;
    Ok(data)
}

/// Builds the request that reads one 8x16 register.
pub fn nios_8x16_read_request(target: Target8x16, addr: u8) -> (r: [u8; 16])
    ensures
        r@ == spec_pack_8x16(target.spec_id(), false, addr, 0),
{
    pack_8x16(target.id(), false, addr, 0)
}

/// Builds the request that writes one 8x16 register.
pub fn nios_8x16_write_request(target: Target8x16, addr: u8, data: u16) -> (r: [u8; 16])
    ensures
        r@ == spec_pack_8x16(target.spec_id(), true, addr, data),
{
    pack_8x16(target.id(), true, addr, data)
}

/// The data field of a well-framed 8x16 response; this legacy family reports
/// no dependable success bit, so well-framed means successful.
pub open spec fn spec_nios_8x16_response(s: Seq<u8>) -> Result<u16, Error> {
    match spec_unpack_8x16(s) {
        Some(t) => Ok(t.3),
        None => Err(Error::Framing),
    }
}

/// Reads the result of an 8x16 operation out of its response buffer.
pub fn nios_8x16_response(resp: &[u8; 16]) -> (r: Result<u16, Error>)
    ensures
        r == spec_nios_8x16_response(resp@),
{
    let (_target, _write, _addr, data, _success) = unpack_8x16(resp)?;
    Ok(data)
}

/// Builds the request that reads one 8x32 register.
pub fn nios_8x32_read_request(target: Target8x32, addr: u8) -> (r: [u8; 16])
    ensures
        r@ == spec_pack_8x32(target.spec_id(), false, addr, 0),
{
    pack_8x32(target.id(), false, addr, 0)
}

/// Builds the request that writes one 8x32 register.
pub fn nios_8x32_write_request(target: Target8x32, addr: u8, data: u32) -> (r: [u8; 16])
    ensures
        r@ == spec_pack_8x32(target.spec_id(), true, addr, data),
{
    pack_8x32(target.id(), true, addr, data)
}

/// The data field of a well-framed, successful 8x32 response: a cleared
/// success bit means the device carried the exchange but the operation
/// failed.
pub open spec fn spec_nios_8x32_response(s: Seq<u8>) -> Result<u32, Error> {
    match spec_unpack_8x32(s) {
        Some(t) => if t.4 {
            Ok(t.3)
        } else {
            Err(Error::OperationFailed)
        },
        None => Err(Error::Framing),
    }
}

/// Reads the result of an 8x32 operation out of its response buffer.
pub fn nios_8x32_response(resp: &[u8; 16]) -> (r: Result<u32, Error>)
    ensures
        r == spec_nios_8x32_response(resp@),
{
    let (_target, _write, _addr, data, success) = unpack_8x32(resp)?;
    if success {
        Ok(data)
    } else {
        Err(Error::OperationFailed)
    }
}

/// Builds the request that reads one 16x64 register.
pub fn nios_16x64_read_request(target: Target16x64, addr: u16) -> (r: [u8; 16])
    ensures
        r@ == spec_pack_16x64(target.spec_id(), false, addr, 0),
{
    pack_16x64(target.id(), false, addr, 0)
}

/// Builds the request that writes one 16x64 register.
pub fn nios_16x64_write_request(target: Target16x64, addr: u16, data: u64) -> (r: [u8; 16])
    ensures
        r@ == spec_pack_16x64(target.spec_id(), true, addr, data),
{
    pack_16x64(target.id(), true, addr, data)
}

/// The data field of a well-framed, successful 16x64 response.
pub open spec fn spec_nios_16x64_response(s: Seq<u8>) -> Result<u64, Error> {
    match spec_unpack_16x64(s) {
        Some(t) => if t.4 {
            Ok(t.3)
        } else {
            Err(Error::OperationFailed)
        },
        None => Err(Error::Framing),
    }
}

/// Reads the result of a 16x64 operation out of its response buffer.
pub fn nios_16x64_response(resp: &[u8; 16]) -> (r: Result<u64, Error>)
    ensures
        r == spec_nios_16x64_response(resp@),
{
    let (_target, _write, _addr, data, success) = unpack_16x64(resp)?;
    if success {
        Ok(data)
    } else {
        Err(Error::OperationFailed)
    }
}

/// Builds the request that reads one 32x32 register.
pub fn nios_32x32_read_request(target: Target32x32, addr: u32) -> (r: [u8; 16])
    ensures
        r@ == spec_pack_32x32(target.spec_id(), false, addr, 0),
{
    pack_32x32(target.id(), false, addr, 0)
}

/// Builds the request that writes one 32x32 register.
pub fn nios_32x32_write_request(target: Target32x32, addr: u32, data: u32) -> (r: [u8; 16])
    ensures
        r@ == spec_pack_32x32(target.spec_id(), true, addr, data),
{
    pack_32x32(target.id(), true, addr, data)
}

/// The data field of a well-framed, successful 32x32 response.
pub open spec fn spec_nios_32x32_response(s: Seq<u8>) -> Result<u32, Error> {
    match spec_unpack_32x32(s) {
        Some(t) => if t.4 {
            Ok(t.3)
        } else {
            Err(Error::OperationFailed)
        },
        None => Err(Error::Framing),
    }
}

/// Reads the result of a 32x32 operation out of its response buffer.
pub fn nios_32x32_response(resp: &[u8; 16]) -> (r: Result<u32, Error>)
    ensures
        r == spec_nios_32x32_response(resp@),
{
    let (_target, _write, _addr, data, success) = unpack_32x32(resp)?;
    if success {
        Ok(data)
    } else {
        Err(Error::OperationFailed)
    }
}

// ---------------------------------------------------------------------------
// Masked expansion GPIO access
// ---------------------------------------------------------------------------

/// Builds the request for a masked 32x32 read: the address field carries the
/// mask of bits to read, and the device answers with only those bits.
pub fn nios_32x32_masked_read_request(target: Target32x32, mask: u32) -> (r: [u8; 16])
    ensures
        r@ == spec_pack_32x32(target.spec_id(), false, mask, 0),
{
    pack_32x32(target.id(), false, mask, 0)
}

/// Builds the request for a masked 32x32 write: the address field carries
/// the mask, and the device performs a read-modify-write that touches only
/// the masked bits (see `gpio_masked_update`), not a plain store.
pub fn nios_32x32_masked_write_request(target: Target32x32, mask: u32, val: u32) -> (r: [u8; 16])
    ensures
        r@ == spec_pack_32x32(target.spec_id(), true, mask, val),
{
    pack_32x32(target.id(), true, mask, val)
}

/// What a masked read returns: the register's bits under the mask. This is
/// the device-side rule; it is stated here so that callers and emulations
/// share one definition.
pub fn gpio_masked_bits(reg: u32, mask: u32) -> (r: u32)
    ensures
        r == reg & mask,
{
    reg & mask
}

/// What a masked write leaves in the register: bits outside the mask keep
/// their old value, bits under the mask take the new one. This is the
/// device-side read-modify-write rule; it is stated here so that callers and
/// emulations share one definition.
pub fn gpio_masked_update(reg: u32, mask: u32, val: u32) -> (r: u32)
    ensures
        r == (reg & !mask) | (val & mask),
{
    (reg & !mask) | (val & mask)
}

/// A masked write followed by a masked read with the same mask returns
/// exactly the masked part of the written value, whatever the register held
/// before.
pub proof fn lemma_masked_write_then_read(reg: u32, mask: u32, val: u32)
    ensures
        ((reg & !mask) | (val & mask)) & mask == val & mask,
{
    assert(((reg & !mask) | (val & mask)) & mask == val & mask) by (bit_vector);
}

/// Builds the request that reads the whole expansion GPIO value register.
pub fn nios_expansion_gpio_read_request() -> (r: [u8; 16])
    ensures
        r@ == spec_pack_32x32(Target32x32::ExpansionGpio.spec_id(), false, 0xffff_ffff, 0),
{
    nios_32x32_masked_read_request(Target32x32::ExpansionGpio, 0xffff_ffff)
}

/// Builds the request for a masked write of the expansion GPIO value
/// register.
pub fn nios_expansion_gpio_write_request(mask: u32, val: u32) -> (r: [u8; 16])
    ensures
        r@ == spec_pack_32x32(Target32x32::ExpansionGpio.spec_id(), true, mask, val),
{
    nios_32x32_masked_write_request(Target32x32::ExpansionGpio, mask, val)
}

/// Builds the request that reads the whole expansion GPIO direction
/// register.
pub fn nios_expansion_gpio_dir_read_request() -> (r: [u8; 16])
    ensures
        r@ == spec_pack_32x32(Target32x32::ExpansionGpioDir.spec_id(), false, 0xffff_ffff, 0),
{
    nios_32x32_masked_read_request(Target32x32::ExpansionGpioDir, 0xffff_ffff)
}

/// Builds the request for a masked write of the expansion GPIO direction
/// register.
pub fn nios_expansion_gpio_dir_write_request(mask: u32, val: u32) -> (r: [u8; 16])
    ensures
        r@ == spec_pack_32x32(Target32x32::ExpansionGpioDir.spec_id(), true, mask, val),
{
    nios_32x32_masked_write_request(Target32x32::ExpansionGpioDir, mask, val)
}

// ---------------------------------------------------------------------------
// Fixed-register helpers of the 8x32 family
// ---------------------------------------------------------------------------

/// Builds the request that reads the configuration/control register.
pub fn nios_config_read_request() -> (r: [u8; 16])
    ensures
        r@ == spec_pack_8x32(Target8x32::Control.spec_id(), false, 0, 0),
{
    nios_8x32_read_request(Target8x32::Control, 0)
}

/// Builds the request that writes the configuration/control register.
pub fn nios_config_write_request(val: u32) -> (r: [u8; 16])
    ensures
        r@ == spec_pack_8x32(Target8x32::Control.spec_id(), true, 0, val),
{
    nios_8x32_write_request(Target8x32::Control, 0, val)
}

/// Builds the request that reads the FPGA version register.
pub fn nios_get_fpga_version_request() -> (r: [u8; 16])
    ensures
        r@ == spec_pack_8x32(Target8x32::FpgaVersion.spec_id(), false, 0, 0),
{
    nios_8x32_read_request(Target8x32::FpgaVersion, 0)
}

/// The version register's byte fields are bytes: each fits in eight bits.
proof fn lemma_version_fields_fit(regval: u32)
    ensures
        (regval >> 16) & 0xff < 256,
        (regval >> 8) & 0xff < 256,
        regval & 0xff < 256,
{
    assert((regval >> 16) & 0xff < 256 && (regval >> 8) & 0xff < 256 && regval & 0xff < 256)
        by (bit_vector);
}

/// Splits the FPGA version register into its byte fields: major in bits
/// 16..24, minor in bits 8..16, patch in bits 0..8.
pub fn fpga_version_from_regval(regval: u32) -> (r: BladerfVersion)
    ensures
        r.major == (regval >> 16) & 0xff,
        r.minor == (regval >> 8) & 0xff,
        r.patch == regval & 0xff,
{
    proof {
        lemma_version_fields_fit(regval);
    }
    BladerfVersion {
        major: ((regval >> 16) & 0xff) as u8,
        minor: ((regval >> 8) & 0xff) as u8,
        patch: (regval & 0xff) as u8,
    }
}

/// Reads the FPGA version out of the response to
/// `nios_get_fpga_version_request`.
pub fn nios_get_fpga_version_response(resp: &[u8; 16]) -> (r: Result<BladerfVersion, Error>)
    ensures
        r == (match spec_nios_8x32_response(resp@) {
            Ok(regval) => Ok::<BladerfVersion, Error>(
                BladerfVersion {
                    major: ((regval >> 16) & 0xff) as u8,
                    minor: ((regval >> 8) & 0xff) as u8,
                    patch: (regval & 0xff) as u8,
                },
            ),
            Err(e) => Err::<BladerfVersion, Error>(e),
        }),
{
    let regval = nios_8x32_response(resp)?;
    Ok(fpga_version_from_regval(regval))
}

/// Builds the request that writes the XB200 expansion board's synthesizer.
pub fn nios_xb200_synth_write_request(value: u32) -> (r: [u8; 16])
    ensures
        r@ == spec_pack_8x32(Target8x32::Xb200Synth.spec_id(), true, 0, value),
{
    nios_8x32_write_request(Target8x32::Xb200Synth, 0, value)
}

/// Builds the request that reads the RFFE control/status register.
pub fn nios_rffe_control_read_request() -> (r: [u8; 16])
    ensures
        r@ == spec_pack_8x32(Target8x32::RffeCsr.spec_id(), false, 0, 0),
{
    nios_8x32_read_request(Target8x32::RffeCsr, 0)
}

/// Builds the request that writes the RFFE control/status register.
pub fn nios_rffe_control_write_request(value: u32) -> (r: [u8; 16])
    ensures
        r@ == spec_pack_8x32(Target8x32::RffeCsr.spec_id(), true, 0, value),
{
    nios_8x32_write_request(Target8x32::RffeCsr, 0, value)
}

/// Builds the request that stores one fastlock profile: the RFFE profile in
/// the data word's bits 16..24, the NIOS profile in its low half, written to
/// address 1 for the TX side and 0 for RX.
pub fn nios_rffe_fastlock_save_request(is_tx: bool, rffe_profile: u8, nios_profile: u16) -> (r: [u8;
    16])
    ensures
        r@ == spec_pack_8x32(
            Target8x32::Fastlock.spec_id(),
            true,
            (if is_tx {
                1u8
            } else {
                0u8
            }),
            ((rffe_profile as u32) << 16) | (nios_profile as u32),
        ),
{
    let addr: u8 = if is_tx {
        1
    } else {
        0
    };
    let data: u32 = ((rffe_profile as u32) << 16) | (nios_profile as u32);
    nios_8x32_write_request(Target8x32::Fastlock, addr, data)
}

/// Builds the request that reads one ADF400x register.
pub fn nios_adf400x_read_request(addr: u8) -> (r: [u8; 16])
    ensures
        r@ == spec_pack_8x32(Target8x32::Adf400x.spec_id(), false, addr, 0),
{
    nios_8x32_read_request(Target8x32::Adf400x, addr)
}

/// Builds the request that writes one ADF400x register. The chip latches
/// the register number from the data word's two lowest bits, so those bits
/// of `data` are replaced with the low two bits of `addr` and the packet's
/// own address field stays 0.
pub fn nios_adf400x_write_request(addr: u8, data: u32) -> (r: [u8; 16])
    ensures
        r@ == spec_pack_8x32(
            Target8x32::Adf400x.spec_id(),
            true,
            0,
            (data & !0x3u32) | ((addr & 0x3) as u32),
        ),
{
    let merged: u32 = (data & !0x3u32) | ((addr & 0x3) as u32);
    nios_8x32_write_request(Target8x32::Adf400x, 0, merged)
}

// ---------------------------------------------------------------------------
// Timestamp counters (8x64 family)
// ---------------------------------------------------------------------------

/// Which 8x64 address holds the timestamp counter of each direction.
pub open spec fn spec_timestamp_addr(dir: BladerfDirection) -> u8 {
    match dir {
        BladerfDirection::RX => 0,
        BladerfDirection::TX => 1,
    }
}

/// Builds the request that reads a direction's timestamp counter.
pub fn nios_get_timestamp_request(dir: BladerfDirection) -> (r: [u8; 16])
    ensures
        r@ == spec_pack_8x64(0, false, spec_timestamp_addr(dir), 0),
{
    let addr: u8 = match dir {
        BladerfDirection::RX => 0,
        BladerfDirection::TX => 1,
    };
    pack_8x64(0, false, addr, 0)
}

/// The timestamp in a well-framed 8x64 response; the legacy layout defines
/// no success bit for this family.
pub open spec fn spec_nios_8x64_response(s: Seq<u8>) -> Result<u64, Error> {
    match spec_unpack_8x64(s) {
        Some(t) => Ok(t.3),
        None => Err(Error::Framing),
    }
}

/// Reads the timestamp out of the response to
/// `nios_get_timestamp_request`.
pub fn nios_get_timestamp_response(resp: &[u8; 16]) -> (r: Result<u64, Error>)
    ensures
        r == spec_nios_8x64_response(resp@),
{
    let (_target, _write, _addr, timestamp) = unpack_8x64(resp)?;
    Ok(timestamp)
}

// ---------------------------------------------------------------------------
// VCTCXO tamer mode
// ---------------------------------------------------------------------------

/// Builds the request that reads the VCTCXO tamer mode register.
pub fn nios_get_vctcxo_tamer_mode_request() -> (r: [u8; 16])
    ensures
        r@ == spec_pack_8x8(Target8x8::VctcxoTamer.spec_id(), false, 0xff, 0),
{
    nios_8x8_read_request(Target8x8::VctcxoTamer, 0xff)
}

/// Builds the request that writes the VCTCXO tamer mode register.
pub fn nios_set_vctcxo_tamer_mode_request(mode: u8) -> (r: [u8; 16])
    ensures
        r@ == spec_pack_8x8(Target8x8::VctcxoTamer.spec_id(), true, 0xff, mode),
{
    nios_8x8_write_request(Target8x8::VctcxoTamer, 0xff, mode)
}

/// Validates a raw tamer mode read back from the device: 0, 1 and 2 name
/// the disabled, 1PPS and 10MHz modes; anything else is a protocol
/// violation and fails with `Error::UnexpectedValue` instead of being
/// accepted as a degraded value.
pub fn tamer_mode_from_raw(raw: u8) -> (r: Result<u8, Error>)
    ensures
        raw <= 2 ==> r == Ok::<u8, Error>(raw),
        raw > 2 ==> r == Err::<u8, Error>(Error::UnexpectedValue),
{
    if raw <= 2 {
        Ok(raw)
    } else {
        Err(Error::UnexpectedValue)
    }
}

/// Reads and validates the tamer mode out of the response to
/// `nios_get_vctcxo_tamer_mode_request`.
pub fn nios_get_vctcxo_tamer_mode_response(resp: &[u8; 16]) -> (r: Result<u8, Error>)
    ensures
        r == (match spec_nios_8x8_response(resp@) {
            Ok(raw) => if raw <= 2 {
                Ok::<u8, Error>(raw)
            } else {
                Err::<u8, Error>(Error::UnexpectedValue)
            },
            Err(e) => Err::<u8, Error>(e),
        }),
{
    let raw = nios_8x8_response(resp)?;
    tamer_mode_from_raw(raw)
}

// ---------------------------------------------------------------------------
// IQ gain/phase correction and AGC DC calibration (8x16 family)
// ---------------------------------------------------------------------------

/// Which address under the IQ correction target holds each logical value:
/// RX gain at 0, RX phase at 1, TX gain at 2, TX phase at 3.
pub open spec fn spec_iq_correction_addr(ch: BladerfDirection, phase: bool) -> u8 {
    match ch {
        BladerfDirection::RX => if phase {
            1
        } else {
            0
        },
        BladerfDirection::TX => if phase {
            3
        } else {
            2
        },
    }
}

/// The address under the IQ correction target of one channel's gain or
/// phase value.
pub fn iq_correction_addr(ch: BladerfDirection, phase: bool) -> (r: u8)
    ensures
        r == spec_iq_correction_addr(ch, phase),
{
    match ch {
        BladerfDirection::RX => if phase {
            1
        } else {
            0
        },
        BladerfDirection::TX => if phase {
            3
        } else {
            2
        },
    }
}

/// Builds the request that reads one channel's IQ gain or phase correction.
pub fn nios_get_iq_correction_request(ch: BladerfDirection, phase: bool) -> (r: [u8; 16])
    ensures
        r@ == spec_pack_8x16(
            Target8x16::IqCorrection.spec_id(),
            false,
            spec_iq_correction_addr(ch, phase),
            0,
        ),
{
    nios_8x16_read_request(Target8x16::IqCorrection, iq_correction_addr(ch, phase))
}

/// Builds the request that writes one channel's IQ gain or phase
/// correction.
pub fn nios_set_iq_correction_request(ch: BladerfDirection, phase: bool, value: i16) -> (r: [u8;
    16])
    ensures
        r@ == spec_pack_8x16(
            Target8x16::IqCorrection.spec_id(),
            true,
            spec_iq_correction_addr(ch, phase),
            value as u16,
        ),
{
    nios_8x16_write_request(Target8x16::IqCorrection, iq_correction_addr(ch, phase), value as u16)
}

/// The calibration value written at each step of the AGC DC sequence:
/// q_max, i_max, q_mid, i_mid, q_low, i_low at addresses 0 through 5.
pub open spec fn spec_agc_dc_value(
    step: u8,
    q_max: i16,
    i_max: i16,
    q_mid: i16,
    i_mid: i16,
    q_low: i16,
    i_low: i16,
) -> i16 {
    if step == 0 {
        q_max
    } else if step == 1 {
        i_max
    } else if step == 2 {
        q_mid
    } else if step == 3 {
        i_mid
    } else if step == 4 {
        q_low
    } else {
        i_low
    }
}

/// Builds the request for one step of the AGC DC calibration sequence.
///
/// The calibration is six sequential single-field writes at addresses 0
/// through 5; the sequence is not atomic, so a mid-sequence failure leaves
/// the registers partially updated with no rollback, and the caller observes
/// only the position of the first failure.
pub fn nios_set_agc_dc_correction_request(
    step: u8,
    q_max: i16,
    i_max: i16,
    q_mid: i16,
    i_mid: i16,
    q_low: i16,
    i_low: i16,
) -> (r: [u8; 16])
    requires
        step < 6,
    ensures
        r@ == spec_pack_8x16(
            Target8x16::AgcCorrection.spec_id(),
            true,
            step,
            spec_agc_dc_value(step, q_max, i_max, q_mid, i_mid, q_low, i_low) as u16,
        ),
{
    let value: i16 = if step == 0 {
        q_max
    } else if step == 1 {
        i_max
    } else if step == 2 {
        q_mid
    } else if step == 3 {
        i_mid
    } else if step == 4 {
        q_low
    } else {
        i_low
    };
    nios_8x16_write_request(Target8x16::AgcCorrection, step, value as u16)
}

// ---------------------------------------------------------------------------
// Triggers (8x8 family)
// ---------------------------------------------------------------------------

/// Which 8x8 target serves each direction's trigger register.
pub open spec fn spec_trigger_target(ch: BladerfDirection) -> Target8x8 {
    match ch {
        BladerfDirection::TX => Target8x8::TxTrigger,
        BladerfDirection::RX => Target8x8::RxTrigger,
    }
}

/// Builds the request that reads a trigger register, validating the
/// (channel, trigger-signal) pair before any wire traffic: trigger signals
/// 0, 1 and 2 exist, anything else fails with `Error::InvalidArgument` and
/// no request is built.
pub fn nios_read_trigger_request(ch: BladerfDirection, trigger: u8) -> (r: Result<[u8; 16], Error>)
    ensures
        r is Ok <==> trigger <= 2,
        (r matches Ok(b) ==> b@ == spec_pack_8x8(spec_trigger_target(ch).spec_id(), false, 0, 0)),
        trigger > 2 ==> r == Err::<[u8; 16], Error>(Error::InvalidArgument),
{
    if trigger > 2 {
        return Err(Error::InvalidArgument);
    }
    let target = match ch {
        BladerfDirection::TX => Target8x8::TxTrigger,
        BladerfDirection::RX => Target8x8::RxTrigger,
    };
    Ok(nios_8x8_read_request(target, 0))
}

/// Builds the request that writes a trigger register, validating the
/// (channel, trigger-signal) pair before any wire traffic.
pub fn nios_write_trigger_request(ch: BladerfDirection, trigger: u8, value: u8) -> (r: Result<
    [u8; 16],
    Error,
>)
    ensures
        r is Ok <==> trigger <= 2,
        (r matches Ok(b) ==> b@ == spec_pack_8x8(
            spec_trigger_target(ch).spec_id(),
            true,
            0,
            value,
        )),
        trigger > 2 ==> r == Err::<[u8; 16], Error>(Error::InvalidArgument),
{
    if trigger > 2 {
        return Err(Error::InvalidArgument);
    }
    let target = match ch {
        BladerfDirection::TX => Target8x8::TxTrigger,
        BladerfDirection::RX => Target8x8::RxTrigger,
    };
    Ok(nios_8x8_write_request(target, 0, value))
}

} // verus!
