//! FlexSPI configuration block fields.

use vstd::prelude::*;

verus! {

/// `readSampleClkSrc` of the general FCB.
#[derive(Clone, Copy, Debug, PartialEq, Eq)]
pub enum ReadSampleClockSource {
    InternalLoopback,
    LoopbackFromDQSPad,
    FlashProvidedDQS,
}

impl ReadSampleClockSource {
    /// The numeric code stored in the `readSampleClkSrc` byte.
    pub open spec fn spec_value(self) -> u8 {
        match self {
            ReadSampleClockSource::InternalLoopback => 0x00,
            ReadSampleClockSource::LoopbackFromDQSPad => 0x01,
            ReadSampleClockSource::FlashProvidedDQS => 0x03,
        }
    }

    /// The numeric code stored in the `readSampleClkSrc` byte.
    pub fn value(self) -> (v: u8)
        ensures
            v == self.spec_value(),
    {
        match self {
            ReadSampleClockSource::InternalLoopback => 0x00,
            ReadSampleClockSource::LoopbackFromDQSPad => 0x01,
            ReadSampleClockSource::FlashProvidedDQS => 0x03,
        }
    }
}

/// `columnAddressWidth`.
#[derive(Clone, Copy, Debug, PartialEq, Eq)]
pub enum ColumnAddressWidth {
    OtherDevices,
    Hyperflash,
}

impl ColumnAddressWidth {
    /// The numeric code stored in the `columnAddressWidth` byte.
    pub open spec fn spec_value(self) -> u8 {
        match self {
            ColumnAddressWidth::OtherDevices => 0,
            ColumnAddressWidth::Hyperflash => 3,
        }
    }

    /// The numeric code stored in the `columnAddressWidth` byte.
    pub fn value(self) -> (v: u8)
        ensures
            v == self.spec_value(),
    {
        match self {
            ColumnAddressWidth::OtherDevices => 0,
            ColumnAddressWidth::Hyperflash => 3,
        }
    }
}

/// Sequence parameter for device mode configuration.
///
/// Encoded in the four-byte `deviceModeSeq` field as the sequence count,
/// then the starting LUT index, then two reserved zero bytes.
#[derive(Clone, Copy, Debug, PartialEq, Eq)]
pub struct DeviceModeSequence {
    /// How many sequences are needed to execute the command?
    pub(crate) sequence_count: u8,
    /// Where do we start in the LUT?
    pub(crate) sequence_index: u8,
}

impl DeviceModeSequence {
    /// Number of LUT sequences for the device mode configuration command.
    pub open(crate) spec fn spec_count(self) -> u8 {
        self.sequence_count
    }

    /// Starting LUT index of the device mode configuration command.
    pub open(crate) spec fn spec_index(self) -> u8 {
        self.sequence_index
    }

    /// Create a new sequence parameter for device configuration.
    ///
    /// `sequence_index`: starting LUT index of the device mode configuration
    /// command. `sequence_count`: number of LUT sequences for the device mode
    /// configuration command.
    pub fn new(sequence_count: u8, sequence_index: u8) -> (r: Self)
        ensures
            r.spec_count() == sequence_count,
            r.spec_index() == sequence_index,
    {
        Self { sequence_count, sequence_index }
    }

    /// The all-zero sequence parameter, used when device mode configuration
    /// is disabled.
    pub(crate) fn zeroed() -> (r: Self)
        ensures
            r.spec_count() == 0,
            r.spec_index() == 0,
    {
        Self::new(0, 0)
    }
}

/// Describes both the `deviceModeCfgEnable` field, and the `deviceModeArg`
/// field, which is only valid if the configuration is enabled.
#[derive(Clone, Copy, PartialEq, Eq, Default)]
pub enum DeviceModeConfiguration {
    /// Device configuration mode is disabled.
    #[default]
    Disabled,
    /// Device configuration mode is enabled.
    ///
    /// Tells the processor to use the associated device mode argument and
    /// sequence.
    Enabled {
        /// `deviceModeArg`
        device_mode_arg: u32,
        /// `deviceModeSeq`
        device_mode_seq: DeviceModeSequence,
    },
}

/// Wait time for all configuration commands.
///
/// From the docs...
///
/// > Available for device that support v1.1.0 FlexSPI configuration block.
/// > If it is greater than 0, ROM will wait waitTimeCfgCommands * 100us
/// > for all device memory configuration commands instead of using read
/// > status to wait until these commands complete.
#[derive(Debug, Clone, Copy, PartialEq, Eq)]
pub struct WaitTimeConfigurationCommands {
    pub(crate) factor: u16,
}

impl WaitTimeConfigurationCommands {
    /// The stored factor: the wait time as a multiple of 100 microseconds.
    pub open(crate) spec fn spec_value(self) -> u16 {
        self.factor
    }

    /// Use the default wait-time behavior: poll the device's status to
    /// decide when configuration commands complete.
    pub fn disable() -> (r: Self)
        ensures
            r.spec_value() == 0,
    {
        WaitTimeConfigurationCommands { factor: 0 }
    }

    /// Computes the wait time from the specified `wait_time_us` (microseconds).
    ///
    /// The duration should be divisible by `100us`, since the value is a
    /// factor scaled by `100us`.
    pub fn new(wait_time_us: u16) -> (r: Self)
        ensures
            r.spec_value() == wait_time_us / 100,
    {
        WaitTimeConfigurationCommands { factor: wait_time_us / 100 }
    }
}

/// `sFlashPad` field.
#[derive(Debug, Clone, Copy, PartialEq, Eq)]
pub enum FlashPadType {
    Single,
    Dual,
    Quad,
    Octal,
}

impl FlashPadType {
    /// The numeric code stored in the `sFlashPad` byte.
    pub open spec fn spec_value(self) -> u8 {
        match self {
            FlashPadType::Single => 1,
            FlashPadType::Dual => 2,
            FlashPadType::Quad => 4,
            FlashPadType::Octal => 8,
        }
    }

    /// The numeric code stored in the `sFlashPad` byte.
    pub fn value(self) -> (v: u8)
        ensures
            v == self.spec_value(),
    {
        match self {
            FlashPadType::Single => 1,
            FlashPadType::Dual => 2,
            FlashPadType::Quad => 4,
            FlashPadType::Octal => 8,
        }
    }
}

/// Options for the serial clock frequency.
///
/// Use this with an [`Imxrt`](crate::Imxrt) to produce a
/// [`SerialClockFrequency`]. Note that not all options are valid for all
/// parts.
#[derive(Debug, Clone, Copy, PartialEq, Eq, PartialOrd, Ord)]
pub enum SerialClockOption {
    MHz30,
    MHz50,
    MHz60,
    MHz75,
    MHz80,
    MHz100,
    MHz120,
    MHz133,
    MHz166,
}

/// Serial clock frequency for flash read / write.
///
/// The only constructors are [`Imxrt::try_serial_clock_frequency`](crate::Imxrt::try_serial_clock_frequency)
/// and [`Imxrt::serial_clock_frequency`](crate::Imxrt::serial_clock_frequency),
/// which only ever produce a non-zero, per-family code.
#[derive(Debug, Clone, Copy, PartialEq, Eq)]
pub struct SerialClockFrequency {
    pub(crate) raw: u8,
}

impl SerialClockFrequency {
    /// The encoded clock-frequency code.
    pub open(crate) spec fn spec_get(self) -> u8 {
        self.raw
    }

    /// Wrap a raw per-family clock code.
    pub(crate) fn from_raw(raw: u8) -> (r: Self)
        ensures
            r.spec_get() == raw,
    {
        SerialClockFrequency { raw }
    }

    /// Returns the raw value for this clock frequency.
    pub fn get(self) -> (v: u8)
        ensures
            v == self.spec_get(),
    {
        self.raw
    }
}

/// A FlexSPI serial flash region.
#[derive(Debug, Clone, Copy, PartialEq, Eq)]
pub enum SerialFlashRegion {
    A1,
    A2,
    B1,
    B2,
}

} // verus!
