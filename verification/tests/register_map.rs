use libbladerf_native_rs::error::Error;
use libbladerf_native_rs::nios_access::{
    fpga_version_from_regval, gpio_masked_bits, gpio_masked_update, iq_correction_addr,
    nios_16x64_read_request, nios_16x64_response, nios_32x32_masked_read_request,
    nios_32x32_masked_write_request, nios_32x32_read_request, nios_32x32_response,
    nios_8x16_read_request, nios_8x16_response, nios_8x16_write_request, nios_8x32_read_request,
    nios_8x32_response, nios_8x32_write_request, nios_8x8_read_request, nios_8x8_response,
    nios_8x8_write_request, nios_adf400x_write_request, nios_config_read_request,
    nios_config_write_request, nios_expansion_gpio_dir_read_request,
    nios_expansion_gpio_read_request, nios_expansion_gpio_write_request,
    nios_get_fpga_version_request, nios_get_fpga_version_response, nios_get_timestamp_request,
    nios_get_timestamp_response, nios_get_vctcxo_tamer_mode_request,
    nios_get_vctcxo_tamer_mode_response, nios_read_trigger_request,
    nios_rffe_fastlock_save_request, nios_set_agc_dc_correction_request,
    nios_set_iq_correction_request, nios_set_vctcxo_tamer_mode_request, nios_write_trigger_request,
    nios_xb200_synth_write_request, tamer_mode_from_raw,
};
use libbladerf_native_rs::pkt_32x32::{pack_32x32_resp, unpack_32x32};
use libbladerf_native_rs::pkt_8x16::pack_8x16;
use libbladerf_native_rs::pkt_8x32::pack_8x32;
use libbladerf_native_rs::pkt_8x8::pack_8x8;
use libbladerf_native_rs::retune::{
    interpret_retune_response, retune_complete, retune_submit, RetuneState, NIOS_PKT_RETUNE_NOW,
};
use libbladerf_native_rs::targets::{Target16x64, Target32x32, Target8x16, Target8x32, Target8x8};
use libbladerf_native_rs::{BladerfDirection, BladerfVersion, Device};

#[test]
fn family_builders_name_the_right_targets() {
    assert_eq!(
        nios_8x8_read_request(Target8x8::Si5338, 0x2f),
        pack_8x8(1, false, 0x2f, 0)
    );
    assert_eq!(
        nios_8x8_write_request(Target8x8::Lms6, 0x75, 0x40),
        pack_8x8(0, true, 0x75, 0x40)
    );
    assert_eq!(
        nios_8x16_read_request(Target8x16::Ina219, 0x04)[1],
        4
    );
    assert_eq!(
        nios_8x16_write_request(Target8x16::VctcxoDac, 0x08, 0x1234),
        pack_8x16(0, true, 0x08, 0x1234)
    );
    assert_eq!(nios_8x32_read_request(Target8x32::Adf400x, 2)[1], 4);
    assert_eq!(
        nios_8x32_write_request(Target8x32::Xb200Synth, 0, 9)[1],
        2
    );
    assert_eq!(nios_16x64_read_request(Target16x64::Rfic, 0x0102)[1], 1);
    assert_eq!(
        nios_32x32_read_request(Target32x32::WishboneMaster, 0x10)[1],
        3
    );
}

#[test]
fn legacy_families_treat_completion_as_success() {
    // An 8x8 response is accepted with any flag bits: the legacy format
    // carries no dependable success signal.
    let resp = pack_8x8(0, false, 0x75, 0x5a);
    assert_eq!(nios_8x8_response(&resp), Ok(0x5a));

    let resp = pack_8x16(4, false, 0, 0xbead);
    assert_eq!(nios_8x16_response(&resp), Ok(0xbead));
}

#[test]
fn success_bit_families_fail_without_it() {
    // A response that echoes the request without the success bit set is a
    // failed operation for the 8x32, 16x64 and 32x32 families.
    let resp = nios_8x32_read_request(Target8x32::Control, 0);
    assert_eq!(nios_8x32_response(&resp), Err(Error::OperationFailed));

    let resp = nios_16x64_read_request(Target16x64::Ad9361, 1);
    assert_eq!(nios_16x64_response(&resp), Err(Error::OperationFailed));

    let resp = nios_32x32_read_request(Target32x32::AdiAxi, 1);
    assert_eq!(nios_32x32_response(&resp), Err(Error::OperationFailed));

    let ok = pack_32x32_resp(2, false, 1, true, 0x77);
    assert_eq!(nios_32x32_response(&ok), Ok(0x77));
}

#[test]
fn config_and_fixed_register_builders() {
    assert_eq!(nios_config_read_request(), pack_8x32(1, false, 0, 0));
    assert_eq!(
        nios_config_write_request(0x0400_0000),
        pack_8x32(1, true, 0, 0x0400_0000)
    );
    assert_eq!(nios_get_fpga_version_request(), pack_8x32(0, false, 0, 0));
    assert_eq!(
        nios_xb200_synth_write_request(0x1234_5678),
        pack_8x32(2, true, 0, 0x1234_5678)
    );
}

#[test]
fn fpga_version_decomposition() {
    // Data word 0x00020004 names version 2.0.4.
    let version = fpga_version_from_regval(0x0002_0004);
    assert_eq!(
        version,
        BladerfVersion { major: 2, minor: 0, patch: 4 }
    );

    // Through a full unpacked response: magic 'C', flags 0b10 (success),
    // target 0, address 0, data 0x00020004.
    let mut resp = [0u8; 16];
    resp[0] = 0x43;
    resp[2] = 0b10;
    resp[5..9].copy_from_slice(&0x0002_0004u32.to_le_bytes());
    let (target, write, addr, data, success) =
        libbladerf_native_rs::pkt_8x32::unpack_8x32(&resp).unwrap();
    assert_eq!((target, write, addr, data, success), (0, false, 0, 0x0002_0004, true));
    assert_eq!(
        nios_get_fpga_version_response(&resp),
        Ok(BladerfVersion { major: 2, minor: 0, patch: 4 })
    );
}

#[test]
fn adf400x_write_latches_register_in_data_word() {
    let req = nios_adf400x_write_request(2, 0xffff_ffff);
    let (target, write, addr, data, _) = unpack_8x32_fields(&req);
    assert_eq!(target, 4);
    assert!(write);
    assert_eq!(addr, 0);
    assert_eq!(data, 0xffff_fffe);
}

fn unpack_8x32_fields(buf: &[u8; 16]) -> (u8, bool, u8, u32, bool) {
    libbladerf_native_rs::pkt_8x32::unpack_8x32(buf).unwrap()
}

#[test]
fn fastlock_save_packs_profiles() {
    let req = nios_rffe_fastlock_save_request(true, 0x42, 0x1234);
    let (target, write, addr, data, _) = unpack_8x32_fields(&req);
    assert_eq!(target, 5);
    assert!(write);
    assert_eq!(addr, 1);
    assert_eq!(data, 0x0042_1234);

    let req = nios_rffe_fastlock_save_request(false, 1, 2);
    let (_, _, addr, data, _) = unpack_8x32_fields(&req);
    assert_eq!(addr, 0);
    assert_eq!(data, 0x0001_0002);
}

#[test]
fn timestamp_addressing_by_direction() {
    let rx = nios_get_timestamp_request(BladerfDirection::RX);
    assert_eq!((rx[0], rx[1], rx[4]), (b'D', 0, 0));
    let tx = nios_get_timestamp_request(BladerfDirection::TX);
    assert_eq!((tx[0], tx[1], tx[4]), (b'D', 0, 1));

    let mut resp = [0u8; 16];
    resp[0] = b'D';
    resp[5..13].copy_from_slice(&0xfeed_f00d_dead_beefu64.to_le_bytes());
    assert_eq!(nios_get_timestamp_response(&resp), Ok(0xfeed_f00d_dead_beef));
}

#[test]
fn tamer_mode_validation() {
    assert_eq!(tamer_mode_from_raw(0), Ok(0));
    assert_eq!(tamer_mode_from_raw(1), Ok(1));
    assert_eq!(tamer_mode_from_raw(2), Ok(2));
    assert_eq!(tamer_mode_from_raw(3), Err(Error::UnexpectedValue));
    assert_eq!(tamer_mode_from_raw(0xff), Err(Error::UnexpectedValue));

    assert_eq!(
        nios_get_vctcxo_tamer_mode_request(),
        pack_8x8(2, false, 0xff, 0)
    );
    assert_eq!(
        nios_set_vctcxo_tamer_mode_request(2),
        pack_8x8(2, true, 0xff, 2)
    );

    // A response carrying mode 5 is a protocol violation.
    let resp = pack_8x8(2, false, 0xff, 5);
    assert_eq!(
        nios_get_vctcxo_tamer_mode_response(&resp),
        Err(Error::UnexpectedValue)
    );
    let resp = pack_8x8(2, false, 0xff, 1);
    assert_eq!(nios_get_vctcxo_tamer_mode_response(&resp), Ok(1));
}

#[test]
fn iq_correction_addressing() {
    assert_eq!(iq_correction_addr(BladerfDirection::RX, false), 0);
    assert_eq!(iq_correction_addr(BladerfDirection::RX, true), 1);
    assert_eq!(iq_correction_addr(BladerfDirection::TX, false), 2);
    assert_eq!(iq_correction_addr(BladerfDirection::TX, true), 3);

    // A negative correction travels as its two's-complement u16 image.
    let req = nios_set_iq_correction_request(BladerfDirection::TX, true, -2);
    assert_eq!(req, pack_8x16(1, true, 3, 0xfffe));
}

#[test]
fn agc_dc_correction_sequence() {
    let values: [i16; 6] = [100, -100, 50, -50, 7, -7];
    for step in 0u8..6 {
        let req = nios_set_agc_dc_correction_request(
            step, values[0], values[1], values[2], values[3], values[4], values[5],
        );
        assert_eq!(
            req,
            pack_8x16(2, true, step, values[step as usize] as u16)
        );
    }
}

#[test]
fn trigger_validation_rejects_before_wire_traffic() {
    assert_eq!(
        nios_read_trigger_request(BladerfDirection::RX, 3),
        Err(Error::InvalidArgument)
    );
    assert_eq!(
        nios_write_trigger_request(BladerfDirection::TX, 0xff, 1),
        Err(Error::InvalidArgument)
    );

    let req = nios_read_trigger_request(BladerfDirection::TX, 0).unwrap();
    assert_eq!(req, pack_8x8(3, false, 0, 0));
    let req = nios_read_trigger_request(BladerfDirection::RX, 2).unwrap();
    assert_eq!(req, pack_8x8(4, false, 0, 0));
    let req = nios_write_trigger_request(BladerfDirection::RX, 1, 0xa0).unwrap();
    assert_eq!(req, pack_8x8(4, true, 0, 0xa0));
}

#[test]
fn masked_gpio_write_then_read_returns_written_bit() {
    // The device keeps the register; its masked-access rules are
    // gpio_masked_update and gpio_masked_bits. Start from arbitrary junk.
    let mut device_reg: u32 = 0xdead_beef;

    // Masked write of value 0x1 under a full mask.
    let req = nios_32x32_masked_write_request(Target32x32::ExpansionGpio, 0xffff_ffff, 0x1);
    let (target, write, mask, val, _) = unpack_32x32(&req).unwrap();
    assert_eq!((target, write, mask, val), (0, true, 0xffff_ffff, 0x1));
    device_reg = gpio_masked_update(device_reg, mask, val);
    let _ack = pack_32x32_resp(target, write, mask, true, 0);

    // Masked read with the same mask.
    let req = nios_32x32_masked_read_request(Target32x32::ExpansionGpio, 0xffff_ffff);
    let (target, write, mask, _, _) = unpack_32x32(&req).unwrap();
    assert_eq!((target, write, mask), (0, false, 0xffff_ffff));
    let resp = pack_32x32_resp(target, write, mask, true, gpio_masked_bits(device_reg, mask));
    assert_eq!(nios_32x32_response(&resp), Ok(0x1));
}

#[test]
fn expansion_gpio_requests_use_mask_as_address() {
    let req = nios_expansion_gpio_read_request();
    let (target, write, mask, _, _) = unpack_32x32(&req).unwrap();
    assert_eq!((target, write, mask), (0, false, 0xffff_ffff));

    let req = nios_expansion_gpio_write_request(0x0000_ff00, 0x1200);
    let (target, write, mask, val, _) = unpack_32x32(&req).unwrap();
    assert_eq!((target, write, mask, val), (0, true, 0x0000_ff00, 0x1200));

    let req = nios_expansion_gpio_dir_read_request();
    let (target, _, mask, _, _) = unpack_32x32(&req).unwrap();
    assert_eq!((target, mask), (1, 0xffff_ffff));
}

#[test]
fn retune_disambiguation() {
    // Success bit set: the tune happened, whatever the request's timestamp.
    assert_eq!(interpret_retune_response(NIOS_PKT_RETUNE_NOW, 42, 0b10), Ok(42));
    assert_eq!(interpret_retune_response(500, 42, 0b10), Ok(42));

    // Success bit clear on an immediate tune: hard tuning failure.
    assert_eq!(
        interpret_retune_response(NIOS_PKT_RETUNE_NOW, 0, 0b00),
        Err(Error::TuneFailure)
    );

    // Success bit clear on a deferred tune: the queue was full.
    assert_eq!(
        interpret_retune_response(500, 0, 0b00),
        Err(Error::QueueFull)
    );
}

#[test]
fn retune_state_machine() {
    let state = RetuneState::Idle;
    let state = retune_submit(state);
    assert_eq!(state, RetuneState::Scheduled);
    assert_eq!(
        retune_complete(state, NIOS_PKT_RETUNE_NOW, 0b10),
        RetuneState::CompletedSuccess
    );
    assert_eq!(
        retune_complete(state, NIOS_PKT_RETUNE_NOW, 0b00),
        RetuneState::CompletedFailure
    );
    assert_eq!(retune_complete(state, 1234, 0b00), RetuneState::QueueFull);
}

#[test]
fn device_connection_state() {
    let mut device = Device::new(0x2cf0, 0x5246);
    assert!(!device.is_connected());
    device.connected = true;
    assert!(device.is_connected());
    assert_eq!(device.disconnect(), Ok(()));
    assert!(!device.is_connected());
    assert_eq!(device.vendor_id, 0x2cf0);
}

#[test]
fn errors_describe_themselves() {
    assert_eq!(Error::Framing.describe(), "invalid packet magic");
    assert_ne!(Error::QueueFull.describe(), Error::TuneFailure.describe());
}
