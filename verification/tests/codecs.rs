use libbladerf_native_rs::error::Error;
use libbladerf_native_rs::pkt_16x64::{
    pack_16x64, pack_16x64_resp_data, unpack_16x64, unpack_16x64_resp_data,
};
use libbladerf_native_rs::pkt_32x32::{pack_32x32, pack_32x32_resp, unpack_32x32, unpack_32x32_resp};
use libbladerf_native_rs::pkt_8x16::{pack_8x16, unpack_8x16};
use libbladerf_native_rs::pkt_8x32::{pack_8x32, unpack_8x32};
use libbladerf_native_rs::pkt_8x64::{pack_8x64, unpack_8x64};
use libbladerf_native_rs::pkt_8x8::{pack_8x8, unpack_8x8};
use libbladerf_native_rs::pkt_retune::{pack_retune, pack_retune2, unpack_retune, unpack_retune2};

#[test]
fn pack_8x32_read_of_fpga_version_is_all_zero_but_magic() {
    // 8x32 family, target 0, read, address 0, data 0.
    let buf = pack_8x32(0, false, 0, 0);
    assert_eq!(buf, [0x43, 0, 0, 0, 0, 0, 0, 0, 0, 0, 0, 0, 0, 0, 0, 0]);
}

#[test]
fn round_trip_8x8() {
    let buf = pack_8x8(3, true, 0x75, 0xa5);
    assert_eq!(buf[0], b'A');
    let (target, write, addr, data, success) = unpack_8x8(&buf).unwrap();
    assert_eq!((target, write, addr, data), (3, true, 0x75, 0xa5));
    // The legacy 8x8 family reports no dependable success bit: a well-framed
    // buffer counts as success.
    assert!(success);
}

#[test]
fn round_trip_8x16() {
    let buf = pack_8x16(4, false, 0x12, 0xbeef);
    assert_eq!(buf[0], b'B');
    assert_eq!(&buf[4..7], &[0x12, 0xef, 0xbe]);
    let (target, write, addr, data, success) = unpack_8x16(&buf).unwrap();
    assert_eq!((target, write, addr, data), (4, false, 0x12, 0xbeef));
    assert!(success);
}

#[test]
fn round_trip_8x32() {
    let buf = pack_8x32(5, true, 0x34, 0xdead_beef);
    assert_eq!(buf[0], b'C');
    assert_eq!(&buf[4..9], &[0x34, 0xef, 0xbe, 0xad, 0xde]);
    let (target, write, addr, data, success) = unpack_8x32(&buf).unwrap();
    assert_eq!((target, write, addr, data), (5, true, 0x34, 0xdead_beef));
    // pack never sets the success bit; it belongs to responses.
    assert!(!success);
}

#[test]
fn round_trip_8x64() {
    let buf = pack_8x64(0, false, 1, 0x0123_4567_89ab_cdef);
    assert_eq!(buf[0], b'D');
    assert_eq!(
        &buf[5..13],
        &[0xef, 0xcd, 0xab, 0x89, 0x67, 0x45, 0x23, 0x01]
    );
    let (target, write, addr, data) = unpack_8x64(&buf).unwrap();
    assert_eq!((target, write, addr, data), (0, false, 1, 0x0123_4567_89ab_cdef));
}

#[test]
fn round_trip_16x64() {
    let buf = pack_16x64(1, true, 0xbeef, 0x1122_3344_5566_7788);
    assert_eq!(buf[0], b'E');
    assert_eq!(&buf[4..6], &[0xef, 0xbe]);
    let (target, write, addr, data, success) = unpack_16x64(&buf).unwrap();
    assert_eq!(
        (target, write, addr, data),
        (1, true, 0xbeef, 0x1122_3344_5566_7788)
    );
    assert!(!success);
}

#[test]
fn round_trip_32x32() {
    let buf = pack_32x32(2, false, 0xcafe_f00d, 0x8000_0001);
    assert_eq!(buf[0], b'K');
    assert_eq!(&buf[4..8], &[0x0d, 0xf0, 0xfe, 0xca]);
    assert_eq!(&buf[8..12], &[0x01, 0x00, 0x00, 0x80]);
    let (target, write, addr, data, success) = unpack_32x32(&buf).unwrap();
    assert_eq!(
        (target, write, addr, data),
        (2, false, 0xcafe_f00d, 0x8000_0001)
    );
    assert!(!success);
}

#[test]
fn corrupted_magic_fails_unpack_with_framing_error() {
    let mut buf = pack_8x8(0, false, 0, 0);
    buf[0] ^= 0xff;
    assert_eq!(unpack_8x8(&buf), Err(Error::Framing));

    let mut buf = pack_8x16(0, false, 0, 0);
    buf[0] ^= 0xff;
    assert_eq!(unpack_8x16(&buf), Err(Error::Framing));

    let mut buf = pack_8x32(1, true, 2, 3);
    buf[0] ^= 0xff;
    assert_eq!(unpack_8x32(&buf), Err(Error::Framing));

    let mut buf = pack_8x64(0, false, 1, 99);
    buf[0] ^= 0xff;
    assert_eq!(unpack_8x64(&buf), Err(Error::Framing));

    let mut buf = pack_16x64(0, false, 1, 2);
    buf[0] ^= 0xff;
    assert_eq!(unpack_16x64(&buf), Err(Error::Framing));
    assert_eq!(unpack_16x64_resp_data(&buf), Err(Error::Framing));

    let mut buf = pack_32x32(0, false, 1, 2);
    buf[0] ^= 0xff;
    assert_eq!(unpack_32x32(&buf), Err(Error::Framing));
    assert_eq!(unpack_32x32_resp(&buf), Err(Error::Framing));

    let mut buf = pack_retune(0, 1, 2, 3, 4, 5, false, 6, false);
    buf[0] ^= 0xff;
    assert_eq!(unpack_retune(&buf), Err(Error::Framing));

    let mut buf = pack_retune2(0, 1, 2, 3, 4, 5);
    buf[0] ^= 0xff;
    assert_eq!(unpack_retune2(&buf), Err(Error::Framing));
}

#[test]
fn pack_retune_layout() {
    // nint = 0x1ab = 0b1_1010_1011 (9 bits), nfrac = 0x41_23_45 (23 bits).
    let buf = pack_retune(0, 0x1122_3344_5566_7788, 0x1ab, 0x41_2345, 0x05, 0x23, true, 0x7e, true);
    assert_eq!(buf[0], b'T');
    assert_eq!(
        &buf[1..9],
        &[0x88, 0x77, 0x66, 0x55, 0x44, 0x33, 0x22, 0x11]
    );
    // byte 9: nint >> 1, byte 10: (nint & 1) << 7 | top 7 bits of nfrac.
    assert_eq!(buf[9], 0xd5);
    assert_eq!(buf[10], 0x80 | 0x41);
    assert_eq!(buf[11], 0x23);
    assert_eq!(buf[12], 0x45);
    // module 0 = RX: freqsel gains bit 6.
    assert_eq!(buf[13], 0x05 | 0x40);
    // vcocap | low band (bit 7) | quick tune (bit 6).
    assert_eq!(buf[14], 0x23 | 0x80 | 0x40);
    assert_eq!(buf[15], 0x7e);
}

#[test]
fn pack_retune_tx_sets_bit7_of_freqsel() {
    let buf = pack_retune(1, 0, 0, 0, 0x09, 0, false, 0, false);
    assert_eq!(buf[13], 0x09 | 0x80);
    assert_eq!(buf[14], 0);
}

#[test]
fn pack_retune_truncates_wide_tuning_words() {
    // nint is programmed modulo 2^9 and nfrac modulo 2^23: values that only
    // differ above those widths pack to identical buffers.
    let wide = pack_retune(0, 7, 0xffff, 0xffff_ffff, 1, 2, false, 3, false);
    let reduced = pack_retune(0, 7, 0xffff % 0x200, 0xffff_ffff % 0x80_0000, 1, 2, false, 3, false);
    assert_eq!(wide, reduced);
}

#[test]
fn pack_retune2_layout() {
    let buf = pack_retune2(1, 0x0807_0605_0403_0201, 0xaabb, 0x42, 0x17, 0x99);
    assert_eq!(buf[0], b'U');
    assert_eq!(
        &buf[1..9],
        &[0x01, 0x02, 0x03, 0x04, 0x05, 0x06, 0x07, 0x08]
    );
    assert_eq!(&buf[9..11], &[0xbb, 0xaa]);
    assert_eq!(buf[11], 0x42);
    // TX channel: the IS_RX bit stays clear, low seven port bits pass.
    assert_eq!(buf[12], 0x17);
    assert_eq!(buf[13], 0x99);
    assert_eq!(&buf[14..16], &[0, 0]);
}

#[test]
fn pack_retune2_rx_asserts_is_rx_bit() {
    // RX channel and raw port bit 7 clear: the packed port byte carries the
    // IS_RX flag in bit 7 and the low bits unchanged.
    let buf = pack_retune2(0, 0, 0, 0, 0x05, 0);
    assert_eq!(buf[12], 0x85);

    // A raw port with bit 7 already set suppresses the flag.
    let buf = pack_retune2(0, 0, 0, 0, 0x85, 0);
    assert_eq!(buf[12], 0x05);
}

#[test]
fn unpack_retune_reads_duration_vcocap_and_flags() {
    let mut buf = [0u8; 16];
    buf[0] = b'T';
    buf[1..9].copy_from_slice(&0x0000_0000_0001_0002u64.to_le_bytes());
    buf[9] = 0x2a;
    buf[10] = 0b10;
    let (duration, vcocap, flags) = unpack_retune(&buf).unwrap();
    assert_eq!(duration, 0x1_0002);
    assert_eq!(vcocap, 0x2a);
    assert_eq!(flags, 0b10);
}

#[test]
fn unpack_retune2_reads_duration_and_flags() {
    let mut buf = [0u8; 16];
    buf[0] = b'U';
    buf[1..9].copy_from_slice(&77u64.to_le_bytes());
    buf[9] = 0b10;
    let (duration, flags) = unpack_retune2(&buf).unwrap();
    assert_eq!(duration, 77);
    assert_eq!(flags, 0b10);
}

#[test]
fn resp_16x64_success_bit_round_trip() {
    let resp = pack_16x64_resp_data(1, false, 0x10, 0x55);
    assert_eq!(resp[2], 0b10);
    let (target, write, addr, data) = unpack_16x64_resp_data(&resp).unwrap();
    assert_eq!((target, write, addr, data), (1, false, 0x10, 0x55));

    // The same buffer without the success bit is a failed operation.
    let plain = pack_16x64(1, false, 0x10, 0x55);
    assert_eq!(unpack_16x64_resp_data(&plain), Err(Error::OperationFailed));
}

#[test]
fn resp_32x32_carries_success_choice() {
    let ok = pack_32x32_resp(0, true, 0xffff_ffff, true, 0);
    let (_, _, _, _, success) = unpack_32x32_resp(&ok).unwrap();
    assert!(success);

    let failed = pack_32x32_resp(0, true, 0xffff_ffff, false, 0);
    let (_, _, _, _, success) = unpack_32x32_resp(&failed).unwrap();
    assert!(!success);
}
