//! Register-access protocol engine for the bladeRF's on-FPGA NIOS II
//! soft-core controller.
//!
//! Every exchange with the controller is one fixed 16-byte request packet
//! answered by one 16-byte response packet. This crate holds the packet
//! codecs (one per width class, plus the two retune layouts), the target
//! register map that turns logical peripheral operations into packet fields,
//! and the retune scheduling rules. The USB transport that carries the
//! packets lives outside this crate and hands buffers in and out as plain
//! byte arrays.

use vstd::prelude::*;

pub mod error;
pub mod nios_access;
pub mod packing;
pub mod pkt_16x64;
pub mod pkt_32x32;
pub mod pkt_8x16;
pub mod pkt_8x32;
pub mod pkt_8x64;
pub mod pkt_8x8;
pub mod pkt_retune;
pub mod retune;
pub mod targets;

verus! {

/// A version triple as reported by the device.
#[derive(Copy, Clone, Eq, PartialEq, Structural, Debug)]
pub struct BladerfVersion {
    pub major: u8,
    pub minor: u8,
    pub patch: u8,
}

/// Direction of a stream: receive or transmit.
#[derive(Copy, Clone, Eq, PartialEq, Structural, Debug)]
pub enum BladerfDirection {
    RX,
    TX,
}

/// Identity and connection state of one bladeRF device.
///
/// The USB handle itself lives with the caller; this type records what the
/// protocol layer needs to know about it.
pub struct Device {
    pub vendor_id: u16,
    pub product_id: u16,
    pub connected: bool,
}

impl Device {
    /// A freshly listed device: identified, not yet connected.
    pub fn new(vendor_id: u16, product_id: u16) -> (r: Device)
        ensures
            r.vendor_id == vendor_id,
            r.product_id == product_id,
            !r.connected,
    {
        Device { vendor_id, product_id, connected: false }
    }

    pub fn is_connected(&self) -> (r: bool)
        ensures
            r == self.connected,
    {
        self.connected
    }

    pub fn disconnect(&mut self) -> (r: Result<(), crate::error::Error>)
        ensures
            !final(self).connected,
            final(self).vendor_id == old(self).vendor_id,
            final(self).product_id == old(self).product_id,
            r is Ok,
    {
        self.connected = false;
        Ok(())
    }
}

} // verus!
