//! Register map of the sensor: register addresses, the bit fields of the
//! writable control registers, and the selectable ADC resolutions.
//!
//! The addresses and masks are bit-exact with the device's datasheet and must
//! not be altered.

use vstd::prelude::*;

verus! {

/// ADC resolution selectable on the sensor, 8 to 18 bits.
///
/// Each resolution carries a device encoding (`code`) in 0..=10 that is
/// written into the resolution register.
#[derive(Debug, Clone, Copy, PartialEq, Eq, Structural)]
pub enum AdcResolution {
    Bits8,
    Bits9,
    Bits10,
    Bits11,
    Bits12,
    Bits13,
    Bits14,
    Bits15,
    Bits16,
    Bits17,
    Bits18,
}

impl AdcResolution {
    /// Device encoding of this resolution, in 0..=10.
    pub open spec fn spec_code(self) -> u8 {
        match self {
            AdcResolution::Bits8 => 0,
            AdcResolution::Bits9 => 1,
            AdcResolution::Bits10 => 2,
            AdcResolution::Bits11 => 3,
            AdcResolution::Bits12 => 4,
            AdcResolution::Bits13 => 5,
            AdcResolution::Bits14 => 6,
            AdcResolution::Bits15 => 7,
            AdcResolution::Bits16 => 8,
            AdcResolution::Bits17 => 9,
            AdcResolution::Bits18 => 10,
        }
    }

    /// Device encoding of this resolution, in 0..=10.
    #[verifier::when_used_as_spec(spec_code)]
    pub fn code(self) -> (r: u8)
        ensures
            r == self.spec_code(),
    {
        match self {
            AdcResolution::Bits8 => 0,
            AdcResolution::Bits9 => 1,
            AdcResolution::Bits10 => 2,
            AdcResolution::Bits11 => 3,
            AdcResolution::Bits12 => 4,
            AdcResolution::Bits13 => 5,
            AdcResolution::Bits14 => 6,
            AdcResolution::Bits15 => 7,
            AdcResolution::Bits16 => 8,
            AdcResolution::Bits17 => 9,
            AdcResolution::Bits18 => 10,
        }
    }
}

/// Registers described in the data sheet for this device.
#[derive(Debug, Clone, Copy, PartialEq, Eq, Structural)]
pub enum Register {
    /// Device ID; reads back 0x21 on the expected chip.
    ID,
    /// Enable HRS (recommended value 0x68).
    ENABLE,
    /// CH1 data register bits 10..=3.
    C1DATAM,
    /// CH0 data register bits 15..=8.
    C0DATAM,
    /// CH0 data register bits 7..=4.
    C0DATAH,
    /// HRS LED driver / PON / PDRIVE[0] (recommended value 0x68).
    PDRIVER,
    /// CH1 data register bits 17..=11.
    C1DATAH,
    /// CH1 data register bits 2..=0.
    C1DATAL,
    /// CH0 data register bits 17..=16 and 3..=0.
    C0DATAL,
    /// ALS and HRS (ADC) resolution (recommended value 0x66).
    RES,
    /// HRS gain.
    HGAIN,
}

impl Register {
    /// Bus address of this register.
    pub open spec fn spec_addr(self) -> u8 {
        match self {
            Register::ID => 0x00,
            Register::ENABLE => 0x01,
            Register::C1DATAM => 0x08,
            Register::C0DATAM => 0x09,
            Register::C0DATAH => 0x0A,
            Register::PDRIVER => 0x0C,
            Register::C1DATAH => 0x0D,
            Register::C1DATAL => 0x0E,
            Register::C0DATAL => 0x0F,
            Register::RES => 0x16,
            Register::HGAIN => 0x17,
        }
    }

    /// Bus address of this register.
    #[verifier::when_used_as_spec(spec_addr)]
    pub fn addr(self) -> (r: u8)
        ensures
            r == self.spec_addr(),
    {
        match self {
            Register::ID => 0x00,
            Register::ENABLE => 0x01,
            Register::C1DATAM => 0x08,
            Register::C0DATAM => 0x09,
            Register::C0DATAH => 0x0A,
            Register::PDRIVER => 0x0C,
            Register::C1DATAH => 0x0D,
            Register::C1DATAL => 0x0E,
            Register::C0DATAL => 0x0F,
            Register::RES => 0x16,
            Register::HGAIN => 0x17,
        }
    }
}

/// Fields of the ENABLE register (0x01).
#[derive(Debug, Clone, Copy, PartialEq, Eq, Structural)]
pub enum EnableRegField {
    /// HRS sensor enable.
    HEN,
    /// HRS wait time.
    HWT,
    /// Used for LED drive current setup.
    PDRIVE1,
}

impl EnableRegField {
    /// Bit mask of this field within the ENABLE register.
    pub open spec fn spec_mask(self) -> u8 {
        match self {
            EnableRegField::HEN => 0x80,
            EnableRegField::HWT => 0x70,
            EnableRegField::PDRIVE1 => 0x08,
        }
    }

    /// Bit mask of this field within the ENABLE register.
    #[verifier::when_used_as_spec(spec_mask)]
    pub fn mask(self) -> (r: u8)
        ensures
            r == self.spec_mask(),
    {
        match self {
            EnableRegField::HEN => 0x80,
            EnableRegField::HWT => 0x70,
            EnableRegField::PDRIVE1 => 0x08,
        }
    }
}

/// Fields of the HRS LED driver set register (0x0C).
#[derive(Debug, Clone, Copy, PartialEq, Eq, Structural)]
pub enum PDriverRegField {
    /// Used for LED drive current configuration.
    PDRIVE0,
    /// Write 1 to enable the LED oscillator, 0 to disable it.
    PON,
}

impl PDriverRegField {
    /// Bit mask of this field within the LED driver register.
    pub open spec fn spec_mask(self) -> u8 {
        match self {
            PDriverRegField::PDRIVE0 => 0x40,
            PDriverRegField::PON => 0x20,
        }
    }

    /// Bit mask of this field within the LED driver register.
    #[verifier::when_used_as_spec(spec_mask)]
    pub fn mask(self) -> (r: u8)
        ensures
            r == self.spec_mask(),
    {
        match self {
            PDriverRegField::PDRIVE0 => 0x40,
            PDriverRegField::PON => 0x20,
        }
    }
}

/// Fields of the RESOLUTION register (0x16).
#[derive(Debug, Clone, Copy, PartialEq, Eq, Structural)]
pub enum ResRegField {
    /// ALS ADC resolution. Generates TSEL to analog in ALS mode.
    AlsRes,
}

impl ResRegField {
    /// Bit mask of this field within the resolution register.
    pub open spec fn spec_mask(self) -> u8 {
        match self {
            ResRegField::AlsRes => 0x0F,
        }
    }

    /// Bit mask of this field within the resolution register.
    #[verifier::when_used_as_spec(spec_mask)]
    pub fn mask(self) -> (r: u8)
        ensures
            r == self.spec_mask(),
    {
        match self {
            ResRegField::AlsRes => 0x0F,
        }
    }
}

/// Fields of the HGAIN register (0x17).
#[derive(Debug, Clone, Copy, PartialEq, Eq, Structural)]
pub enum HgainRegField {
    /// HRS gain.
    HGAIN,
}

impl HgainRegField {
    /// Bit mask of this field within the gain register.
    pub open spec fn spec_mask(self) -> u8 {
        match self {
            HgainRegField::HGAIN => 0x1C,
        }
    }

    /// Bit mask of this field within the gain register.
    #[verifier::when_used_as_spec(spec_mask)]
    pub fn mask(self) -> (r: u8)
        ensures
            r == self.spec_mask(),
    {
        match self {
            HgainRegField::HGAIN => 0x1C,
        }
    }
}

} // verus!
