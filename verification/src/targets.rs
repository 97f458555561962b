//! The target register map's identifier tables: which small integer names
//! which peripheral within each width-class packet family.
//!
//! Target identifiers are scoped per family; the same number means different
//! peripherals in different width classes.

use vstd::prelude::*;

verus! {

/// Peripherals addressed through the 8x8 family.
#[derive(Copy, Clone, Eq, PartialEq, Structural, Debug)]
pub enum Target8x8 {
    /// LMS6002D transceiver registers.
    Lms6,
    /// SI5338 clock synthesizer registers.
    Si5338,
    /// VCTCXO tamer mode register.
    VctcxoTamer,
    /// TX trigger register.
    TxTrigger,
    /// RX trigger register.
    RxTrigger,
}

impl Target8x8 {
    pub open spec fn spec_id(self) -> u8 {
        match self {
            Target8x8::Lms6 => 0,
            Target8x8::Si5338 => 1,
            Target8x8::VctcxoTamer => 2,
            Target8x8::TxTrigger => 3,
            Target8x8::RxTrigger => 4,
        }
    }

    /// The wire identifier of this peripheral within the 8x8 family.
    pub fn id(self) -> (r: u8)
        ensures
            r == self.spec_id(),
    {
        match self {
            Target8x8::Lms6 => 0,
            Target8x8::Si5338 => 1,
            Target8x8::VctcxoTamer => 2,
            Target8x8::TxTrigger => 3,
            Target8x8::RxTrigger => 4,
        }
    }
}

/// Peripherals addressed through the 8x16 family.
#[derive(Copy, Clone, Eq, PartialEq, Structural, Debug)]
pub enum Target8x16 {
    /// VCTCXO trim DAC registers.
    VctcxoDac,
    /// IQ gain and phase correction registers.
    IqCorrection,
    /// AGC DC calibration registers.
    AgcCorrection,
    /// AD56x1 trim DAC register.
    Ad56x1Dac,
    /// INA219 power monitor registers.
    Ina219,
}

impl Target8x16 {
    pub open spec fn spec_id(self) -> u8 {
        match self {
            Target8x16::VctcxoDac => 0,
            Target8x16::IqCorrection => 1,
            Target8x16::AgcCorrection => 2,
            Target8x16::Ad56x1Dac => 3,
            Target8x16::Ina219 => 4,
        }
    }

    /// The wire identifier of this peripheral within the 8x16 family.
    pub fn id(self) -> (r: u8)
        ensures
            r == self.spec_id(),
    {
        match self {
            Target8x16::VctcxoDac => 0,
            Target8x16::IqCorrection => 1,
            Target8x16::AgcCorrection => 2,
            Target8x16::Ad56x1Dac => 3,
            Target8x16::Ina219 => 4,
        }
    }
}

/// Peripherals addressed through the 8x32 family.
#[derive(Copy, Clone, Eq, PartialEq, Structural, Debug)]
pub enum Target8x32 {
    /// FPGA version register.
    FpgaVersion,
    /// Configuration/control register.
    Control,
    /// XB200 expansion board synthesizer.
    Xb200Synth,
    /// RFFE control/status register block.
    RffeCsr,
    /// ADF400x synthesizer registers.
    Adf400x,
    /// Fastlock profile store.
    Fastlock,
}

impl Target8x32 {
    pub open spec fn spec_id(self) -> u8 {
        match self {
            Target8x32::FpgaVersion => 0,
            Target8x32::Control => 1,
            Target8x32::Xb200Synth => 2,
            Target8x32::RffeCsr => 3,
            Target8x32::Adf400x => 4,
            Target8x32::Fastlock => 5,
        }
    }

    /// The wire identifier of this peripheral within the 8x32 family.
    pub fn id(self) -> (r: u8)
        ensures
            r == self.spec_id(),
    {
        match self {
            Target8x32::FpgaVersion => 0,
            Target8x32::Control => 1,
            Target8x32::Xb200Synth => 2,
            Target8x32::RffeCsr => 3,
            Target8x32::Adf400x => 4,
            Target8x32::Fastlock => 5,
        }
    }
}

/// Peripherals addressed through the 16x64 family.
#[derive(Copy, Clone, Eq, PartialEq, Structural, Debug)]
pub enum Target16x64 {
    /// AD9361 transceiver SPI bridge.
    Ad9361,
    /// RFIC command interface.
    Rfic,
}

impl Target16x64 {
    pub open spec fn spec_id(self) -> u8 {
        match self {
            Target16x64::Ad9361 => 0,
            Target16x64::Rfic => 1,
        }
    }

    /// The wire identifier of this peripheral within the 16x64 family.
    pub fn id(self) -> (r: u8)
        ensures
            r == self.spec_id(),
    {
        match self {
            Target16x64::Ad9361 => 0,
            Target16x64::Rfic => 1,
        }
    }
}

/// Peripherals addressed through the 32x32 family.
#[derive(Copy, Clone, Eq, PartialEq, Structural, Debug)]
pub enum Target32x32 {
    /// Expansion GPIO value register; the address field is a bitmask.
    ExpansionGpio,
    /// Expansion GPIO direction register; the address field is a bitmask.
    ExpansionGpioDir,
    /// ADI AXI bridge.
    AdiAxi,
    /// Wishbone bus master.
    WishboneMaster,
}

impl Target32x32 {
    pub open spec fn spec_id(self) -> u8 {
        match self {
            Target32x32::ExpansionGpio => 0,
            Target32x32::ExpansionGpioDir => 1,
            Target32x32::AdiAxi => 2,
            Target32x32::WishboneMaster => 3,
        }
    }

    /// The wire identifier of this peripheral within the 32x32 family.
    pub fn id(self) -> (r: u8)
        ensures
            r == self.spec_id(),
    {
        match self {
            Target32x32::ExpansionGpio => 0,
            Target32x32::ExpansionGpioDir => 1,
            Target32x32::AdiAxi => 2,
            Target32x32::WishboneMaster => 3,
        }
    }
}

} // verus!
