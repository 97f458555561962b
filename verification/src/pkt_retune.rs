//! Codecs for the two retune packet layouts, magic `T` and magic `U`.
//!
//! A retune request schedules a frequency change for a device-clock
//! timestamp (or for immediate execution, see `retune::NIOS_PKT_RETUNE_NOW`).
//! The first layout carries raw LMS tuning words; the second carries
//! pre-computed profile indices for the RFFE. Responses to both carry the
//! tuning duration and a flags byte whose bit 1 is the success bit; reading
//! a response's meaning out of those flags is the retune engine's job.

use vstd::bytes::{spec_u16_to_le_bytes, spec_u64_from_le_bytes, spec_u64_to_le_bytes,
    u16_to_le_bytes, u64_from_le_bytes, u64_to_le_bytes};
use vstd::prelude::*;
use vstd::slice::slice_subrange;

use crate::error::Error;

verus! {

pub const NIOS_PKT_RETUNE_MAGIC: u8 = 0x54;

pub const NIOS_PKT_RETUNE2_MAGIC: u8 = 0x55;

/// Byte 9: the high eight of the nine programmed bits of `nint`.
pub open spec fn spec_retune_intfrac0(nint: u16) -> u8 {
    ((nint >> 1) & 0xff) as u8
}

/// Byte 10: the lowest bit of `nint`, then the top seven of the 23
/// programmed bits of `nfrac`.
pub open spec fn spec_retune_intfrac1(nint: u16, nfrac: u32) -> u8 {
    ((((nint & 1) << 7) as u8) | (((nfrac >> 16) & 0x7f) as u8)) as u8
}

/// Byte 11: the middle eight bits of `nfrac`.
pub open spec fn spec_retune_intfrac2(nfrac: u32) -> u8 {
    ((nfrac >> 8) & 0xff) as u8
}

/// Byte 12: the low eight bits of `nfrac`.
pub open spec fn spec_retune_intfrac3(nfrac: u32) -> u8 {
    (nfrac & 0xff) as u8
}

/// Byte 13: the frequency-selection word, with bit 6 set for the RX channel
/// (module 0) and bit 7 set for TX (module 1).
pub open spec fn spec_retune_freqsel_byte(module: u8, freqsel: u8) -> u8 {
    if module == 1 {
        freqsel | 0x80
    } else if module == 0 {
        freqsel | 0x40
    } else {
        freqsel
    }
}

/// Byte 14: the VCO capacitance word, with bit 7 set for the low band and
/// bit 6 set for a quick tune.
pub open spec fn spec_retune_bandsel_byte(vcocap: u8, low_band: bool, quick_tune: bool) -> u8 {
    let band = if low_band {
        vcocap | 0x80
    } else {
        vcocap
    };
    if quick_tune {
        band | 0x40
    } else {
        band
    }
}

/// The 16 bytes of a retune request with the given fields.
pub open spec fn spec_pack_retune(
    module: u8,
    timestamp: u64,
    nint: u16,
    nfrac: u32,
    freqsel: u8,
    vcocap: u8,
    low_band: bool,
    xb_gpio: u8,
    quick_tune: bool,
) -> Seq<u8> {
    seq![NIOS_PKT_RETUNE_MAGIC] + spec_u64_to_le_bytes(timestamp) + seq![
        spec_retune_intfrac0(nint),
        spec_retune_intfrac1(nint, nfrac),
        spec_retune_intfrac2(nfrac),
        spec_retune_intfrac3(nfrac),
        spec_retune_freqsel_byte(module, freqsel),
        spec_retune_bandsel_byte(vcocap, low_band, quick_tune),
        xb_gpio,
    ]
}

/// Builds a retune request.
///
/// `nint` is programmed modulo 2^9 and `nfrac` modulo 2^23: the PLL tuning
/// word owns only 9 + 23 of the bits handed in, and wider values truncate
/// silently rather than erroring (see `lemma_pack_retune_truncates`).
pub fn pack_retune(
    module: u8,
    timestamp: u64,
    nint: u16,
    nfrac: u32,
    freqsel: u8,
    vcocap: u8,
    low_band: bool,
    xb_gpio: u8,
    quick_tune: bool,
) -> (r: [u8; 16])
    ensures
        r@ == spec_pack_retune(
            module,
            timestamp,
            nint,
            nfrac,
            freqsel,
            vcocap,
            low_band,
            xb_gpio,
            quick_tune,
        ),
{
    let t = u64_to_le_bytes(timestamp);
    let intfrac0 = ((nint >> 1) & 0xff) as u8;
    let intfrac1 = (((nint & 1) << 7) as u8) | (((nfrac >> 16) & 0x7f) as u8);
    let intfrac2 = ((nfrac >> 8) & 0xff) as u8;
    let intfrac3 = (nfrac & 0xff) as u8;
    let freqsel_byte: u8 = if module == 1 {
        freqsel | 0x80
    } else if module == 0 {
        freqsel | 0x40
    } else {
        freqsel
    };
    let band: u8 = if low_band {
        vcocap | 0x80
    } else {
        vcocap
    };
    let bandsel_byte: u8 = if quick_tune {
        band | 0x40
    } else {
        band
    };
    let r: [u8; 16] = [
        NIOS_PKT_RETUNE_MAGIC,
        t[0],
        t[1],
        t[2],
        t[3],
        t[4],
        t[5],
        t[6],
        t[7],
        intfrac0,
        intfrac1,
        intfrac2,
        intfrac3,
        freqsel_byte,
        bandsel_byte,
        xb_gpio,
    ];
    proof {
        assert(r@ =~= spec_pack_retune(
            module,
            timestamp,
            nint,
            nfrac,
            freqsel,
            vcocap,
            low_band,
            xb_gpio,
            quick_tune,
        ));
    }
    r
}

/// Byte 12 of a retune2 request. Bit 7 is the IS_RX flag: the incoming
/// port's bit 7 is cleared, then set again unless the caller's raw bit 7 was
/// already set or the channel is TX (module 1).
pub open spec fn spec_retune2_port_byte(module: u8, port: u8) -> u8 {
    if port & 0x80 != 0 || module == 1 {
        port & 0x7f
    } else {
        (port & 0x7f) | 0x80
    }
}

/// The 16 bytes of a retune2 request with the given fields.
pub open spec fn spec_pack_retune2(
    module: u8,
    timestamp: u64,
    nios_profile: u16,
    rffe_profile: u8,
    port: u8,
    spdt: u8,
) -> Seq<u8> {
    seq![NIOS_PKT_RETUNE2_MAGIC] + spec_u64_to_le_bytes(timestamp) + spec_u16_to_le_bytes(
        nios_profile,
    ) + seq![
        rffe_profile,
        spec_retune2_port_byte(module, port),
        spdt,
        0u8,
        0u8,
    ]
}

/// Builds a retune2 request.
pub fn pack_retune2(
    module: u8,
    timestamp: u64,
    nios_profile: u16,
    rffe_profile: u8,
    port: u8,
    spdt: u8,
) -> (r: [u8; 16])
    ensures
        r@ == spec_pack_retune2(module, timestamp, nios_profile, rffe_profile, port, spdt),
{
    let t = u64_to_le_bytes(timestamp);
    let p = u16_to_le_bytes(nios_profile);
    let pkt_port: u8 = if port & 0x80 != 0 || module == 1 {
        port & 0x7f
    } else {
        (port & 0x7f) | 0x80
    };
    let r: [u8; 16] = [
        NIOS_PKT_RETUNE2_MAGIC,
        t[0],
        t[1],
        t[2],
        t[3],
        t[4],
        t[5],
        t[6],
        t[7],
        p[0],
        p[1],
        rffe_profile,
        pkt_port,
        spdt,
        0,
        0,
    ];
    proof {
        assert(r@ =~= spec_pack_retune2(module, timestamp, nios_profile, rffe_profile, port, spdt));
    }
    r
}

/// The (duration, vcocap, flags) of a well-framed retune response, or
/// `None` on a magic mismatch.
pub open spec fn spec_unpack_retune(s: Seq<u8>) -> Option<(u64, u8, u8)>
    recommends
        s.len() == 16,
{
    if s[0] == NIOS_PKT_RETUNE_MAGIC {
        Some((spec_u64_from_le_bytes(s.subrange(1, 9)), s[9], s[10]))
    } else {
        None
    }
}

/// Extracts (duration, vcocap, flags) from a retune response: the time the
/// tune took, the VCO capacitance the tuning settled on, and the raw flags
/// byte whose bit 1 is the success bit.
///
/// Fails with `Error::Framing` exactly when the magic byte is wrong.
pub fn unpack_retune(buf: &[u8; 16]) -> (r: Result<(u64, u8, u8), Error>)
    ensures
        r == (match spec_unpack_retune(buf@) {
            Some(t) => Ok::<(u64, u8, u8), Error>(t),
            None => Err::<(u64, u8, u8), Error>(Error::Framing),
        }),
        buf@[0] != NIOS_PKT_RETUNE_MAGIC <==> r is Err,
{
    if buf[0] == NIOS_PKT_RETUNE_MAGIC {
        let duration = u64_from_le_bytes(slice_subrange(buf.as_slice(), 1, 9));
        let vcocap = buf[9];
        let flags = buf[10];
        Ok((duration, vcocap, flags))
    } else {
        Err(Error::Framing)
    }
}

/// The (duration, flags) of a well-framed retune2 response, or `None` on a
/// magic mismatch.
pub open spec fn spec_unpack_retune2(s: Seq<u8>) -> Option<(u64, u8)>
    recommends
        s.len() == 16,
{
    if s[0] == NIOS_PKT_RETUNE2_MAGIC {
        Some((spec_u64_from_le_bytes(s.subrange(1, 9)), s[9]))
    } else {
        None
    }
}

/// Extracts (duration, flags) from a retune2 response.
///
/// Fails with `Error::Framing` exactly when the magic byte is wrong.
pub fn unpack_retune2(buf: &[u8; 16]) -> (r: Result<(u64, u8), Error>)
    ensures
        r == (match spec_unpack_retune2(buf@) {
            Some(t) => Ok::<(u64, u8), Error>(t),
            None => Err::<(u64, u8), Error>(Error::Framing),
        }),
        buf@[0] != NIOS_PKT_RETUNE2_MAGIC <==> r is Err,
{
    if buf[0] == NIOS_PKT_RETUNE2_MAGIC {
        let duration = u64_from_le_bytes(slice_subrange(buf.as_slice(), 1, 9));
        let flags = buf[9];
        Ok((duration, flags))
    } else {
        Err(Error::Framing)
    }
}

/// The PLL tuning word owns 9 bits of `nint` and 23 bits of `nfrac`: packing
/// truncates wider values modulo those widths instead of erroring, so a
/// request packs byte-for-byte the same as one whose words were reduced
/// beforehand.
pub proof fn lemma_pack_retune_truncates(
    module: u8,
    timestamp: u64,
    nint: u16,
    nfrac: u32,
    freqsel: u8,
    vcocap: u8,
    low_band: bool,
    xb_gpio: u8,
    quick_tune: bool,
)
    ensures
        spec_pack_retune(
            module,
            timestamp,
            nint,
            nfrac,
            freqsel,
            vcocap,
            low_band,
            xb_gpio,
            quick_tune,
        ) == spec_pack_retune(
            module,
            timestamp,
            (nint % 0x200) as u16,
            (nfrac % 0x80_0000) as u32,
            freqsel,
            vcocap,
            low_band,
            xb_gpio,
            quick_tune,
        ),
{
    let nint_r = (nint % 0x200) as u16;
    let nfrac_r = (nfrac % 0x80_0000) as u32;
    assert(((nint >> 1) & 0xff) == ((nint_r >> 1) & 0xff) && ((nint & 1) << 7) == ((nint_r & 1)
        << 7)) by (bit_vector)
        requires
            nint_r == (nint % 0x200) as u16,
    ;
    assert(((nfrac >> 16) & 0x7f) == ((nfrac_r >> 16) & 0x7f) && ((nfrac >> 8) & 0xff) == ((nfrac_r
        >> 8) & 0xff) && (nfrac & 0xff) == (nfrac_r & 0xff)) by (bit_vector)
        requires
            nfrac_r == (nfrac % 0x80_0000) as u32,
    ;
    assert(spec_pack_retune(
        module,
        timestamp,
        nint,
        nfrac,
        freqsel,
        vcocap,
        low_band,
        xb_gpio,
        quick_tune,
    ) =~= spec_pack_retune(
        module,
        timestamp,
        nint_r,
        nfrac_r,
        freqsel,
        vcocap,
        low_band,
        xb_gpio,
        quick_tune,
    ));
}

} // verus!
