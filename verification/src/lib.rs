//! Driver for an optical heart-rate / ambient-light sensor chip reached over
//! a two-wire serial bus.
//!
//! The driver owns an injected bus transport, keeps the selected ADC
//! resolution together with its derived bit mask, and decodes the chip's
//! bit-packed 7-byte sample block into a reflectance and an ambient-light
//! value.

use vstd::prelude::*;

pub mod definitions;
pub mod sim;
pub mod transport;

pub use definitions::AdcResolution;
pub use definitions::EnableRegField;
pub use definitions::HgainRegField;
pub use definitions::PDriverRegField;
pub use definitions::Register;
pub use definitions::ResRegField;
pub use transport::BusOp;
pub use transport::I2cTransport;
pub use transport::read_op;
pub use transport::write_op;

verus! {

/// Default 7-bit bus address of the device.
pub const DEFAULT_DEVICE_ADDRESS: u8 = 0x44;

/// Identity byte the device reports when it is the expected model.
pub const DEFAULT_DEVICE_ID: u8 = 0x21;

/// Recommended value of the reserved RES register bits.
pub const RESERVED_RESOLUTION_BITS: u8 = 0x60;

/// Recommended value of the reserved ENABLE register bits.
pub const RESERVED_ENABLE_BITS: u8 = 0x60;

/// Recommended value of the reserved PDRIVE register bits.
pub const RESERVED_PDRIVE_BITS: u8 = 0x08;

/// Recommended value of the HGAIN register.
pub const RECOMMENDED_HGAIN: u8 = 0x10;

/// Number of data registers read as one block to form a complete sample.
pub const SAMPLE_BLOCK_LEN: usize = 7;

/// Errors this driver reports.
#[derive(Debug)]
pub enum Error<CommE> {
    /// The bus transport reported a communication failure.
    Comm(CommE),
    /// The device ID read from the device is unrecognized.
    DeviceId,
}

/// Mask of the low `8 + code` bits, where `code` is the device encoding of
/// the resolution: the bits of a decoded sample that are valid at that
/// resolution.
pub open spec fn resolution_mask_spec(resolution: AdcResolution) -> u32 {
    ((1u32 << ((8 + resolution.spec_code()) as u32)) - 1) as u32
}

/// Computes the valid-bit mask for a resolution.
pub fn resolution_mask(resolution: AdcResolution) -> (r: u32)
    ensures
        r == resolution_mask_spec(resolution),
{
    let code = resolution.code();
    assert(code <= 10);
    let shift: u32 = 8 + (code as u32);
    assert(1u32 << shift >= 1) by (bit_vector)
        requires
            shift <= 18u32,
    ;
    (1u32 << shift) - 1
}

/// Value written to the resolution register when `resolution` is selected:
/// its device code combined with the recommended reserved-bit pattern.
pub open spec fn res_reg_value_spec(resolution: AdcResolution) -> u8 {
    resolution.spec_code() | RESERVED_RESOLUTION_BITS
}

/// Value written to the LED-driver register during initialization: drive
/// current bit set, oscillator powered, reserved bits at their recommended
/// pattern.
pub open spec fn init_pdriver_value() -> u8 {
    PDriverRegField::PDRIVE0.spec_mask() | PDriverRegField::PON.spec_mask()
        | RESERVED_PDRIVE_BITS
}

/// Value written to the enable register during initialization: sensor
/// enabled, drive current bit set, reserved bits at their recommended
/// pattern.
pub open spec fn init_enable_value() -> u8 {
    EnableRegField::HEN.spec_mask() | EnableRegField::PDRIVE1.spec_mask()
        | RESERVED_ENABLE_BITS
}

/// The exact sequence of bus transactions a fully successful
/// initialization performs against the device at `addr` with `resolution`
/// selected: the identity read (answered with the expected identity),
/// then the LED-driver, resolution, gain and enable register writes, in
/// that order. The enable write comes last, so that sampling starts only
/// under a committed configuration.
pub open spec fn init_ops(addr: u8, resolution: AdcResolution) -> Seq<BusOp> {
    seq![
        read_op(addr, Register::ID.spec_addr(), seq![DEFAULT_DEVICE_ID]),
        write_op(addr, Register::PDRIVER.spec_addr(), init_pdriver_value()),
        write_op(addr, Register::RES.spec_addr(), res_reg_value_spec(resolution)),
        write_op(addr, Register::HGAIN.spec_addr(), RECOMMENDED_HGAIN),
        write_op(addr, Register::ENABLE.spec_addr(), init_enable_value()),
    ]
}

/// New value of the enable register when the sensor-enable bit is set or
/// cleared: only that bit changes, every other bit keeps its read value.
pub open spec fn enable_reg_update(value: u8, enable: bool) -> u8 {
    if enable {
        value | EnableRegField::HEN.spec_mask()
    } else {
        value & !EnableRegField::HEN.spec_mask()
    }
}

/// New value of the LED-driver register when the oscillator-power bit is
/// set or cleared: only that bit changes, every other bit keeps its read
/// value.
pub open spec fn pdriver_reg_update(value: u8, enable: bool) -> u8 {
    if enable {
        value | PDriverRegField::PON.spec_mask()
    } else {
        value & !PDriverRegField::PON.spec_mask()
    }
}

/// The exact sequence of bus transactions a fully successful power toggle
/// performs, given that the enable register read back `enable_reg` and the
/// LED-driver register read back `pdriver_reg`: each of the two registers
/// is read and written back with only its target bit changed.
pub open spec fn enable_ops(addr: u8, enable: bool, enable_reg: u8, pdriver_reg: u8) -> Seq<
    BusOp,
> {
    seq![
        read_op(addr, Register::ENABLE.spec_addr(), seq![enable_reg]),
        write_op(addr, Register::ENABLE.spec_addr(), enable_reg_update(enable_reg, enable)),
        read_op(addr, Register::PDRIVER.spec_addr(), seq![pdriver_reg]),
        write_op(addr, Register::PDRIVER.spec_addr(), pdriver_reg_update(pdriver_reg, enable)),
    ]
}

/// Reflectance channel (C0, the HRS signal) reassembled from the 7-byte
/// sample block, before masking: bits 15:8 from byte 1, bits 7:4 from the
/// low nibble of byte 2, bits 5:4 of byte 6 shifted left 16, and bits 3:0
/// of byte 6.
pub open spec fn c0_bits_spec(block: Seq<u8>) -> u32
    recommends
        block.len() == SAMPLE_BLOCK_LEN,
{
    ((block[1] as u32) << 8u32) | (((block[2] & 0x0F) as u32) << 4u32) | (((block[6] & 0x30)
        as u32) << 16u32) | ((block[6] & 0x0F) as u32)
}

/// Ambient-light channel (C1) reassembled from the 7-byte sample block,
/// before masking: byte 0 shifted left 3 (bits 10:3), bits 6:0 of byte 4
/// shifted left 11 (bits 17:11), and bits 2:0 of byte 5.
pub open spec fn c1_bits_spec(block: Seq<u8>) -> u32
    recommends
        block.len() == SAMPLE_BLOCK_LEN,
{
    ((block[0] as u32) << 3u32) | (((block[4] & 0x7F) as u32) << 11u32) | ((block[5] & 0x07)
        as u32)
}

/// Decodes one 7-byte sample block into `(reflectance, ambient)`, masking
/// each channel with `mask` to discard bits beyond the configured
/// resolution.
pub fn decode_raw_sample(block: &[u8; SAMPLE_BLOCK_LEN], mask: u32) -> (r: (u32, u32))
    ensures
        r.0 == (c0_bits_spec(block@) & mask),
        r.1 == (c1_bits_spec(block@) & mask),
{
    let mut c1: u32 = (block[0] as u32) << 3u32;
    c1 |= ((block[4] & 0x7F) as u32) << 11u32;
    c1 |= (block[5] & 0x07) as u32;
    c1 &= mask;

    let mut c0: u32 = (block[1] as u32) << 8u32;
    c0 |= ((block[2] & 0x0F) as u32) << 4u32;
    c0 |= ((block[6] & 0x30) as u32) << 16u32;
    c0 |= (block[6] & 0x0F) as u32;
    c0 &= mask;

    (c0, c1)
}

/// Law: for every supported resolution, the derived valid-bit mask is
/// exactly `(1 << (8 + code)) - 1`, the low `8 + code` bits set, where
/// `code` is the device encoding 0 to 10.
pub proof fn lemma_resolution_mask_values()
    ensures
        resolution_mask_spec(AdcResolution::Bits8) == 0xFFu32,
        resolution_mask_spec(AdcResolution::Bits9) == 0x1FFu32,
        resolution_mask_spec(AdcResolution::Bits10) == 0x3FFu32,
        resolution_mask_spec(AdcResolution::Bits11) == 0x7FFu32,
        resolution_mask_spec(AdcResolution::Bits12) == 0xFFFu32,
        resolution_mask_spec(AdcResolution::Bits13) == 0x1FFFu32,
        resolution_mask_spec(AdcResolution::Bits14) == 0x3FFFu32,
        resolution_mask_spec(AdcResolution::Bits15) == 0x7FFFu32,
        resolution_mask_spec(AdcResolution::Bits16) == 0xFFFFu32,
        resolution_mask_spec(AdcResolution::Bits17) == 0x1FFFFu32,
        resolution_mask_spec(AdcResolution::Bits18) == 0x3FFFFu32,
{
    assert(((1u32 << 8u32) - 1) as u32 == 0xFFu32) by (bit_vector);
    assert(((1u32 << 9u32) - 1) as u32 == 0x1FFu32) by (bit_vector);
    assert(((1u32 << 10u32) - 1) as u32 == 0x3FFu32) by (bit_vector);
    assert(((1u32 << 11u32) - 1) as u32 == 0x7FFu32) by (bit_vector);
    assert(((1u32 << 12u32) - 1) as u32 == 0xFFFu32) by (bit_vector);
    assert(((1u32 << 13u32) - 1) as u32 == 0x1FFFu32) by (bit_vector);
    assert(((1u32 << 14u32) - 1) as u32 == 0x3FFFu32) by (bit_vector);
    assert(((1u32 << 15u32) - 1) as u32 == 0x7FFFu32) by (bit_vector);
    assert(((1u32 << 16u32) - 1) as u32 == 0xFFFFu32) by (bit_vector);
    assert(((1u32 << 17u32) - 1) as u32 == 0x1FFFFu32) by (bit_vector);
    assert(((1u32 << 18u32) - 1) as u32 == 0x3FFFFu32) by (bit_vector);
}

/// Law: one read-modify-write of the sensor-enable bit preserves every
/// other bit of the value read back, whichever way it toggles; likewise
/// the oscillator-power update preserves every other bit of the LED-driver
/// register.
pub proof fn lemma_toggle_preserves_other_bits(value: u8, enable: bool)
    ensures
        enable_reg_update(value, enable) & !EnableRegField::HEN.spec_mask() == value
            & !EnableRegField::HEN.spec_mask(),
        pdriver_reg_update(value, enable) & !PDriverRegField::PON.spec_mask() == value
            & !PDriverRegField::PON.spec_mask(),
{
    assert((value | 0x80) & !0x80u8 == value & !0x80u8) by (bit_vector);
    assert((value & !0x80u8) & !0x80u8 == value & !0x80u8) by (bit_vector);
    assert((value | 0x20) & !0x20u8 == value & !0x20u8) by (bit_vector);
    assert((value & !0x20u8) & !0x20u8 == value & !0x20u8) by (bit_vector);
}

/// Law: enabling and then disabling restores the non-target bits of both
/// registers to their pre-toggle values. If the enable register read back
/// `enable_reg` before the toggle and each read-modify-write reads back
/// what the previous write left, the value written by the disabling call
/// is exactly `enable_reg` with only the enable bit cleared; likewise for
/// the LED-driver register and its oscillator bit.
pub proof fn lemma_enable_disable_round_trip(enable_reg: u8, pdriver_reg: u8)
    ensures
        enable_reg_update(enable_reg_update(enable_reg, true), false) == enable_reg
            & !EnableRegField::HEN.spec_mask(),
        pdriver_reg_update(pdriver_reg_update(pdriver_reg, true), false) == pdriver_reg
            & !PDriverRegField::PON.spec_mask(),
{
    assert((enable_reg | 0x80) & !0x80u8 == enable_reg & !0x80u8) by (bit_vector);
    assert((pdriver_reg | 0x20) & !0x20u8 == pdriver_reg & !0x20u8) by (bit_vector);
}

/// Law: selecting a resolution is idempotent. The payload written to the
/// resolution register and the mask stored afterwards are functions of the
/// chosen resolution alone — the hypotheses are what `set_adc_resolution`
/// ensures of each of two calls with the same resolution — so the second
/// call writes the same payload and stores the same mask as the first.
pub proof fn lemma_set_adc_resolution_idempotent(
    resolution: AdcResolution,
    mask_first: u32,
    payload_first: u8,
    mask_second: u32,
    payload_second: u8,
)
    requires
        mask_first == resolution_mask_spec(resolution),
        payload_first == res_reg_value_spec(resolution),
        mask_second == resolution_mask_spec(resolution),
        payload_second == res_reg_value_spec(resolution),
    ensures
        mask_second == mask_first,
        payload_second == payload_first,
{
}

/// Driver for the sensor: owns the bus transport, the device address, and
/// the selected ADC resolution together with its derived valid-bit mask.
#[derive(Debug)]
pub struct HRS3300<I2C> {
    i2c_port: I2C,
    address: u8,
    /// The selected bits of resolution of the ADC.
    adc_resolution: AdcResolution,
    resolution_mask: u32,
}

impl<I2C, CommE> HRS3300<I2C> where I2C: I2cTransport<CommError = CommE> {
    /// Bus address the driver was constructed with.
    pub closed spec fn spec_address(self) -> u8 {
        self.address
    }

    /// Currently selected ADC resolution.
    pub closed spec fn spec_resolution(self) -> AdcResolution {
        self.adc_resolution
    }

    /// Stored valid-bit mask derived from the selected resolution.
    pub closed spec fn spec_mask(self) -> u32 {
        self.resolution_mask
    }

    /// Ghost log of the bus transactions the owned transport has completed.
    pub closed spec fn ops(self) -> Seq<BusOp> {
        self.i2c_port.ops()
    }

    /// The stored mask equals the mask implied by the stored resolution.
    /// Established at construction and re-established every time the
    /// resolution changes, never recomputed at read time.
    pub open spec fn mask_invariant(self) -> bool {
        self.spec_mask() == resolution_mask_spec(self.spec_resolution())
    }

    /// The driver's configuration (address, resolution, mask) is the same in
    /// `post` as in `pre`; only the transport may have moved.
    pub open spec fn same_config(pre: Self, post: Self) -> bool {
        &&& post.spec_address() == pre.spec_address()
        &&& post.spec_resolution() == pre.spec_resolution()
        &&& post.spec_mask() == pre.spec_mask()
    }

    fn new(i2c_port: I2C, address: u8, adc_resolution: AdcResolution) -> (r: Self)
        ensures
            r.spec_address() == address,
            r.spec_resolution() == adc_resolution,
            r.mask_invariant(),
            r.ops() == i2c_port.ops(),
    {
        let mask = resolution_mask(adc_resolution);
        HRS3300 { i2c_port, address, adc_resolution, resolution_mask: mask }
    }

    /// Builds a driver on the default device address with 14-bit resolution.
    pub fn default(i2c_port: I2C) -> (r: Self)
        ensures
            r.spec_address() == DEFAULT_DEVICE_ADDRESS,
            r.spec_resolution() == AdcResolution::Bits14,
            r.mask_invariant(),
            r.ops() == i2c_port.ops(),
    {
        Self::new(i2c_port, DEFAULT_DEVICE_ADDRESS, AdcResolution::Bits14)
    }

    /// Writes one register: sends `[register, value]` to the device.
    fn write_register(&mut self, register: Register, value: u8) -> (r: Result<
        (),
        Error<CommE>,
    >)
        ensures
            Self::same_config(*old(self), *final(self)),
            r is Ok ==> final(self).ops() == old(self).ops().push(
                write_op(old(self).spec_address(), register.addr(), value),
            ),
            r is Err ==> final(self).ops() == old(self).ops(),
            r matches Err(e) ==> e is Comm,
    {
        let data: [u8; 2] = [register.addr(), value];
        assert(data@ =~= seq![register.addr(), value]);
        match self.i2c_port.write(self.address, data.as_slice()) {
            Ok(()) => Ok(()),
            Err(e) => Err(Error::Comm(e)),
        }
    }

    /// Reads `buf.len()` registers in one transaction, beginning at `start`:
    /// sends `[start]`, then reads into `buf` (the chip auto-increments the
    /// register address).
    fn read_registers(&mut self, start: Register, buf: &mut [u8]) -> (r: Result<
        (),
        Error<CommE>,
    >)
        ensures
            Self::same_config(*old(self), *final(self)),
            final(buf)@.len() == old(buf)@.len(),
            r is Ok ==> final(self).ops() == old(self).ops().push(
                read_op(old(self).spec_address(), start.addr(), final(buf)@),
            ),
            r is Err ==> final(self).ops() == old(self).ops(),
            r matches Err(e) ==> e is Comm,
    {
        let cmd: [u8; 1] = [start.addr()];
        assert(cmd@ =~= seq![start.addr()]);
        match self.i2c_port.write_read(self.address, cmd.as_slice(), buf) {
            Ok(()) => Ok(()),
            Err(e) => Err(Error::Comm(e)),
        }
    }

    /// Reads one register and returns its byte.
    fn read_register(&mut self, register: Register) -> (r: Result<u8, Error<CommE>>)
        ensures
            Self::same_config(*old(self), *final(self)),
            r matches Ok(value) ==> final(self).ops() == old(self).ops().push(
                read_op(old(self).spec_address(), register.addr(), seq![value]),
            ),
            r is Err ==> final(self).ops() == old(self).ops(),
            r matches Err(e) ==> e is Comm,
    {
        let mut data: [u8; 1] = [0];
        match self.read_registers(register, &mut data) {
            Ok(()) => {
                assert(data@ =~= seq![data@[0]]);
                Ok(data[0])
            },
            Err(e) => Err(e),
        }
    }

    /// Reads the single-byte device-identity register and returns the raw
    /// byte. One read transaction; no driver state changes.
    pub fn get_device_id(&mut self) -> (r: Result<u8, Error<CommE>>)
        ensures
            Self::same_config(*old(self), *final(self)),
            r matches Ok(id) ==> final(self).ops() == old(self).ops().push(
                read_op(old(self).spec_address(), Register::ID.addr(), seq![id]),
            ),
            r is Err ==> final(self).ops() == old(self).ops(),
            r matches Err(e) ==> e is Comm,
    {
        let device_id = match self.read_register(Register::ID) {
            Ok(id) => id,
            Err(e) => {
                return Err(e);
            },
        };
        Ok(device_id)
    }

    /// Selects an ADC resolution: stores it, re-establishes the derived
    /// valid-bit mask, and writes the resolution register (device code
    /// combined with the recommended reserved-bit pattern). The stored
    /// fields are updated even when the write fails.
    pub fn set_adc_resolution(&mut self, resolution: AdcResolution) -> (r: Result<
        (),
        Error<CommE>,
    >)
        ensures
            final(self).spec_address() == old(self).spec_address(),
            final(self).spec_resolution() == resolution,
            final(self).mask_invariant(),
            r is Ok ==> final(self).ops() == old(self).ops().push(
                write_op(
                    old(self).spec_address(),
                    Register::RES.addr(),
                    res_reg_value_spec(resolution),
                ),
            ),
            r is Err ==> final(self).ops() == old(self).ops(),
            r matches Err(e) ==> e is Comm,
    {
        self.adc_resolution = resolution;
        self.resolution_mask = resolution_mask(resolution);

        let resolution_reg_val = self.adc_resolution.code() | RESERVED_RESOLUTION_BITS;
        self.write_register(Register::RES, resolution_reg_val)
    }

    /// Initializes the chip into the recommended configuration: verifies the
    /// device identity, then writes the LED-driver, resolution, gain and
    /// enable registers, in that order, short-circuiting on the first
    /// failure. The enable write comes last because it starts active
    /// sampling.
    ///
    /// On success the transport's log has grown by exactly `init_ops`. An
    /// identity mismatch is reported as `DeviceId` after the single identity
    /// read, with no register written. A transport failure is reported as
    /// `Comm`, with the log grown by exactly the steps completed before it.
    pub fn init(&mut self) -> (r: Result<(), Error<CommE>>)
        ensures
            final(self).spec_address() == old(self).spec_address(),
            final(self).spec_resolution() == old(self).spec_resolution(),
            r is Ok ==> {
                &&& final(self).mask_invariant()
                &&& final(self).ops() == old(self).ops() + init_ops(
                    old(self).spec_address(),
                    old(self).spec_resolution(),
                )
            },
            r matches Err(e) ==> match e {
                Error::DeviceId => {
                    &&& final(self).spec_mask() == old(self).spec_mask()
                    &&& exists|id: u8|
                        #![auto]
                        id != DEFAULT_DEVICE_ID && final(self).ops() == old(self).ops().push(
                            read_op(old(self).spec_address(), Register::ID.addr(), seq![id]),
                        )
                },
                Error::Comm(_) => exists|k: int|
                    #![auto]
                    {
                        &&& 0 <= k < init_ops(
                            old(self).spec_address(),
                            old(self).spec_resolution(),
                        ).len()
                        &&& final(self).ops() == old(self).ops() + init_ops(
                            old(self).spec_address(),
                            old(self).spec_resolution(),
                        ).take(k)
                        &&& (k >= 2 ==> final(self).mask_invariant())
                        &&& (k < 2 ==> final(self).spec_mask() == old(self).spec_mask())
                    },
            },
    {
        let ghost full = init_ops(old(self).spec_address(), old(self).spec_resolution());

        // First verify we can get a device ID.
        let device_id = match self.get_device_id() {
            Ok(id) => id,
            Err(e) => {
                proof {
                    assert(self.ops() =~= old(self).ops() + full.take(0));
                }
                return Err(e);
            },
        };
        if device_id != DEFAULT_DEVICE_ID {
            return Err(Error::DeviceId);
        }
        proof {
            assert(self.ops() =~= old(self).ops() + full.take(1));
        }

        // The configuration values follow the datasheet recommendations.
        let pdrive_reg_val = PDriverRegField::PDRIVE0.mask() | PDriverRegField::PON.mask()
            | RESERVED_PDRIVE_BITS;
        match self.write_register(Register::PDRIVER, pdrive_reg_val) {
            Ok(()) => {},
            Err(e) => {
                proof {
                    assert(self.ops() =~= old(self).ops() + full.take(1));
                }
                return Err(e);
            },
        }
        proof {
            assert(self.ops() =~= old(self).ops() + full.take(2));
        }

        // Flush the resolution setting to the sensor.
        match self.set_adc_resolution(self.adc_resolution) {
            Ok(()) => {},
            Err(e) => {
                proof {
                    assert(self.ops() =~= old(self).ops() + full.take(2));
                }
                return Err(e);
            },
        }
        proof {
            assert(self.ops() =~= old(self).ops() + full.take(3));
        }

        match self.write_register(Register::HGAIN, RECOMMENDED_HGAIN) {
            Ok(()) => {},
            Err(e) => {
                proof {
                    assert(self.ops() =~= old(self).ops() + full.take(3));
                }
                return Err(e);
            },
        }
        proof {
            assert(self.ops() =~= old(self).ops() + full.take(4));
        }

        let enable_reg_val = EnableRegField::HEN.mask() | EnableRegField::PDRIVE1.mask()
            | RESERVED_ENABLE_BITS;
        match self.write_register(Register::ENABLE, enable_reg_val) {
            Ok(()) => {},
            Err(e) => {
                proof {
                    assert(self.ops() =~= old(self).ops() + full.take(4));
                }
                return Err(e);
            },
        }
        proof {
            assert(self.ops() =~= old(self).ops() + full);
        }

        Ok(())
    }

    /// Toggles sensor operation: sets or clears the sensor-enable bit of the
    /// enable register and the oscillator-power bit of the LED-driver
    /// register, each by read-modify-write against the live device register,
    /// so that every other bit keeps the value just read back.
    ///
    /// The two registers are independent transactions: if the first write
    /// succeeds and a later step fails, the device is left with only the
    /// completed steps applied, which the log in the contract reports.
    pub fn enable(&mut self, enable: bool) -> (r: Result<(), Error<CommE>>)
        ensures
            Self::same_config(*old(self), *final(self)),
            r is Ok ==> exists|enable_reg: u8, pdriver_reg: u8|
                #![auto]
                final(self).ops() == old(self).ops() + enable_ops(
                    old(self).spec_address(),
                    enable,
                    enable_reg,
                    pdriver_reg,
                ),
            r matches Err(e) ==> e is Comm,
            r is Err ==> exists|k: int, enable_reg: u8, pdriver_reg: u8|
                #![auto]
                {
                    &&& 0 <= k < 4
                    &&& final(self).ops() == old(self).ops() + enable_ops(
                        old(self).spec_address(),
                        enable,
                        enable_reg,
                        pdriver_reg,
                    ).take(k)
                },
    {
        let enable_val = match self.read_register(Register::ENABLE) {
            Ok(v) => v,
            Err(e) => {
                proof {
                    assert(self.ops() =~= old(self).ops() + enable_ops(
                        old(self).spec_address(),
                        enable,
                        0,
                        0,
                    ).take(0));
                }
                return Err(e);
            },
        };
        let ghost full = enable_ops(old(self).spec_address(), enable, enable_val, 0);
        proof {
            assert(self.ops() =~= old(self).ops() + full.take(1));
        }

        let enable_val_new = if enable {
            enable_val | EnableRegField::HEN.mask()
        } else {
            enable_val & !EnableRegField::HEN.mask()
        };
        match self.write_register(Register::ENABLE, enable_val_new) {
            Ok(()) => {},
            Err(e) => {
                proof {
                    assert(self.ops() =~= old(self).ops() + full.take(1));
                }
                return Err(e);
            },
        }
        proof {
            assert(self.ops() =~= old(self).ops() + full.take(2));
        }

        let pdrive_val = match self.read_register(Register::PDRIVER) {
            Ok(v) => v,
            Err(e) => {
                proof {
                    assert(self.ops() =~= old(self).ops() + full.take(2));
                }
                return Err(e);
            },
        };
        let ghost full2 = enable_ops(old(self).spec_address(), enable, enable_val, pdrive_val);
        proof {
            assert(full.take(2) =~= full2.take(2));
            assert(self.ops() =~= old(self).ops() + full2.take(3));
        }

        let pdrive_val_new = if enable {
            pdrive_val | PDriverRegField::PON.mask()
        } else {
            pdrive_val & !PDriverRegField::PON.mask()
        };
        match self.write_register(Register::PDRIVER, pdrive_val_new) {
            Ok(()) => {},
            Err(e) => {
                proof {
                    assert(self.ops() =~= old(self).ops() + full2.take(3));
                }
                return Err(e);
            },
        }
        proof {
            assert(self.ops() =~= old(self).ops() + full2);
        }

        Ok(())
    }

    /// Reads the seven data registers as one block transaction, beginning at
    /// the first data register. The block includes the LED-driver register's
    /// position, which the decode ignores.
    fn read_sample_block(&mut self) -> (r: Result<[u8; SAMPLE_BLOCK_LEN], Error<CommE>>)
        ensures
            Self::same_config(*old(self), *final(self)),
            r matches Ok(block) ==> final(self).ops() == old(self).ops().push(
                read_op(old(self).spec_address(), Register::C1DATAM.addr(), block@),
            ),
            r is Err ==> final(self).ops() == old(self).ops(),
            r matches Err(e) ==> e is Comm,
    {
        let mut sample_buf: [u8; SAMPLE_BLOCK_LEN] = [0u8; SAMPLE_BLOCK_LEN];
        // Read multiple registers starting at C1DATAM.
        match self.read_registers(Register::C1DATAM, &mut sample_buf) {
            Ok(()) => Ok(sample_buf),
            Err(e) => Err(e),
        }
    }

    /// Reads one raw sample from the sensors and decodes it.
    ///
    /// Returns `(reflectance, ambient)`: the HRS reflectance channel and the
    /// ambient-light channel, each masked with the stored valid-bit mask.
    /// The units are undocumented; the two channels are assumed to share
    /// them.
    pub fn read_raw_sample(&mut self) -> (r: Result<(u32, u32), Error<CommE>>)
        ensures
            Self::same_config(*old(self), *final(self)),
            r matches Ok(sample) ==> exists|block: Seq<u8>|
                #![auto]
                {
                    &&& block.len() == SAMPLE_BLOCK_LEN
                    &&& final(self).ops() == old(self).ops().push(
                        read_op(old(self).spec_address(), Register::C1DATAM.addr(), block),
                    )
                    &&& sample.0 == (c0_bits_spec(block) & old(self).spec_mask())
                    &&& sample.1 == (c1_bits_spec(block) & old(self).spec_mask())
                },
            r is Err ==> final(self).ops() == old(self).ops(),
            r matches Err(e) ==> e is Comm,
    {
        let block = match self.read_sample_block() {
            Ok(b) => b,
            Err(e) => {
                return Err(e);
            },
        };
        let sample = decode_raw_sample(&block, self.resolution_mask);
        proof {
            // Witness for the contract: the block just read back.
            assert(block@.len() == SAMPLE_BLOCK_LEN);
        }
        Ok(sample)
    }

    /// Reads one raw sample toward a heart-rate estimate. Folding samples
    /// into a time series and detecting peaks is an intended extension
    /// point and is not implemented: the estimate is always `None`.
    pub fn sample_one(&mut self) -> (r: Result<Option<u16>, Error<CommE>>)
        ensures
            Self::same_config(*old(self), *final(self)),
            r matches Ok(estimate) ==> estimate is None,
            r is Ok ==> exists|block: Seq<u8>|
                #![auto]
                block.len() == SAMPLE_BLOCK_LEN && final(self).ops() == old(self).ops().push(
                    read_op(old(self).spec_address(), Register::C1DATAM.addr(), block),
                ),
            r is Err ==> final(self).ops() == old(self).ops(),
            r matches Err(e) ==> e is Comm,
    {
        let _raw_sample = match self.read_raw_sample() {
            Ok(s) => s,
            Err(e) => {
                return Err(e);
            },
        };
        Ok(None)
    }
}

} // verus!
