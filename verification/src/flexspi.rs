//! FlexSPI configuration block definitions.
//!
//! The FlexSPI module includes
//!
//! - instruction sequences ([`Sequence`], [`SequenceBuilder`])
//! - the instruction lookup table ([`LookupTable`])
//! - the FlexSPI configuration block ([`ConfigurationBlock`])
//!
//! The `flexspi` types are used throughout the [`serial_flash`](crate::serial_flash)
//! API, since the FlexSPI configuration block is at the start of every serial
//! NOR configuration block.
//!
//! Build [`Sequence`]s with a [`SequenceBuilder`], assign each sequence to a
//! [`Command`] in a [`LookupTable`], and use the lookup table to create a
//! [`ConfigurationBlock`]. The block's [`to_bytes`](ConfigurationBlock::to_bytes)
//! serialization places every field at the fixed offset given by
//! [`fcb_byte`], zero-fills every reserved byte, and is always exactly
//! [`FLEXSPI_CONFIGURATION_BLOCK_SIZE`] bytes long.

use vstd::prelude::*;

pub mod fields;
pub mod lookup;
pub mod opcodes;
pub mod sequence;

pub use fields::{
    ColumnAddressWidth, DeviceModeConfiguration, DeviceModeSequence, FlashPadType,
    ReadSampleClockSource, SerialClockFrequency, SerialClockOption, SerialFlashRegion,
    WaitTimeConfigurationCommands,
};
pub use lookup::{lut_bytes, Command, LookupTable};
pub use sequence::{sequence_bytes, Instr, Opcode, Pads, Sequence, SequenceBuilder};

use crate::bytes::{u16_le_byte, u16_le_byte_at, u32_le_byte, u32_le_byte_at};

verus! {

/// The serialized size of a FlexSPI configuration block, in bytes.
pub const FLEXSPI_CONFIGURATION_BLOCK_SIZE: usize = 448;

/// The recommended `csHoldTime`, `0x03`.
///
/// This is the default value if not set with [`ConfigurationBlock::cs_hold_time`].
pub const RECOMMENDED_CS_HOLD_TIME: u8 = 0x03;

/// The recommended `csSetupTime`, `0x03`.
///
/// This is the default value if not set with [`ConfigurationBlock::cs_setup_time`].
pub const RECOMMENDED_CS_SETUP_TIME: u8 = 0x03;

/// A version identifier.
///
/// Packed into four bytes as the ASCII letter `V`, then the major, minor and
/// bugfix numbers.
#[derive(Debug, Clone, Copy, PartialEq, Eq)]
pub struct Version {
    pub(crate) raw: u32,
}

impl Version {
    /// The packed 32-bit version value.
    pub open(crate) spec fn spec_raw(self) -> u32 {
        self.raw
    }

    /// Construct a version number for your FCB.
    ///
    /// Once constructed, pass the version to the configuration block with
    /// [`ConfigurationBlock::version`].
    pub fn new(major: u8, minor: u8, bugfix: u8) -> (r: Version)
        ensures
            r.spec_raw() == 0x5600_0000 + major * 0x1_0000 + minor * 0x100 + bugfix,
    {
        Version {
            raw: 0x5600_0000 + (major as u32) * 0x1_0000 + (minor as u32) * 0x100 + (bugfix as u32),
        }
    }
}

impl Default for Version {
    /// The default FCB version used by this library: major 1, minor 0,
    /// bugfix 0.
    fn default() -> (r: Version)
        ensures
            r.spec_raw() == 0x5601_0000,
    {
        Version::new(1, 0, 0)
    }
}

/// The fields of a FlexSPI configuration block that can be set through its
/// builder methods. Every other byte of the serialized block is reserved and
/// zero.
pub struct FcbView {
    /// The packed version word at offset 0x004.
    pub version: u32,
    /// `readSampleClkSrc`, offset 0x00C.
    pub read_sample_clk_src: ReadSampleClockSource,
    /// `csHoldTime`, offset 0x00D.
    pub cs_hold_time: u8,
    /// `csSetupTime`, offset 0x00E.
    pub cs_setup_time: u8,
    /// `columnAddressWidth`, offset 0x00F.
    pub column_address_width: ColumnAddressWidth,
    /// `deviceModeCfgEnable`, offset 0x010.
    pub device_mode_cfg_enable: bool,
    /// `waitTimeCfgCommands`, offset 0x012.
    pub wait_time_cfg_commands: u16,
    /// `deviceModeSeq`, offset 0x014.
    pub device_mode_seq: DeviceModeSequence,
    /// `deviceModeArg`, offset 0x018.
    pub device_mode_arg: u32,
    /// `controllerMiscOption`, offset 0x040.
    pub controller_misc_options: u32,
    /// `deviceType`, offset 0x044.
    pub device_type: u8,
    /// `sFlashPad`, offset 0x045.
    pub serial_flash_pad_type: FlashPadType,
    /// `serialClkFreq`, offset 0x046.
    pub serial_clk_freq: u8,
    /// `sflashA1Size`, offset 0x050.
    pub sflash_a1_size: u32,
    /// `sflashA2Size`, offset 0x054.
    pub sflash_a2_size: u32,
    /// `sflashB1Size`, offset 0x058.
    pub sflash_b1_size: u32,
    /// `sflashB2Size`, offset 0x05C.
    pub sflash_b2_size: u32,
    /// The lookup table, offsets 0x080 through 0x17F.
    pub lookup_table: LookupTable,
}

/// Byte `i` of the serialized FlexSPI configuration block.
///
/// This is the authoritative layout map: each settable field at its fixed
/// offset, multi-byte fields least-significant byte first, and zero in every
/// reserved position.
pub open spec fn fcb_byte(v: FcbView, i: int) -> u8 {
    if i == 0x000 {
        0x46  // 'F'

    } else if i == 0x001 {
        0x43  // 'C'

    } else if i == 0x002 {
        0x46  // 'F'

    } else if i == 0x003 {
        0x42  // 'B'

    } else if 0x004 <= i < 0x008 {
        u32_le_byte(v.version, i - 0x004)
    } else if i == 0x00C {
        v.read_sample_clk_src.spec_value()
    } else if i == 0x00D {
        v.cs_hold_time
    } else if i == 0x00E {
        v.cs_setup_time
    } else if i == 0x00F {
        v.column_address_width.spec_value()
    } else if i == 0x010 {
        if v.device_mode_cfg_enable {
            1
        } else {
            0
        }
    } else if 0x012 <= i < 0x014 {
        u16_le_byte(v.wait_time_cfg_commands, i - 0x012)
    } else if i == 0x014 {
        v.device_mode_seq.spec_count()
    } else if i == 0x015 {
        v.device_mode_seq.spec_index()
    } else if 0x018 <= i < 0x01C {
        u32_le_byte(v.device_mode_arg, i - 0x018)
    } else if 0x040 <= i < 0x044 {
        u32_le_byte(v.controller_misc_options, i - 0x040)
    } else if i == 0x044 {
        v.device_type
    } else if i == 0x045 {
        v.serial_flash_pad_type.spec_value()
    } else if i == 0x046 {
        v.serial_clk_freq
    } else if 0x050 <= i < 0x054 {
        u32_le_byte(v.sflash_a1_size, i - 0x050)
    } else if 0x054 <= i < 0x058 {
        u32_le_byte(v.sflash_a2_size, i - 0x054)
    } else if 0x058 <= i < 0x05C {
        u32_le_byte(v.sflash_b1_size, i - 0x058)
    } else if 0x05C <= i < 0x060 {
        u32_le_byte(v.sflash_b2_size, i - 0x05C)
    } else if 0x080 <= i < 0x180 {
        lut_bytes(v.lookup_table@)[i - 0x080]
    } else {
        0
    }
}

/// The full 448-byte serialization of a FlexSPI configuration block.
pub open spec fn fcb_bytes(v: FcbView) -> Seq<u8> {
    Seq::new(FLEXSPI_CONFIGURATION_BLOCK_SIZE as nat, |i: int| fcb_byte(v, i))
}

/// The serialized lookup table occupies offsets 0x080 through 0x17F of the
/// serialized configuration block.
pub proof fn lemma_fcb_lookup_table_offset(v: FcbView)
    ensures
        fcb_bytes(v).subrange(0x080, 0x180) == lut_bytes(v.lookup_table@),
{
    assert(fcb_bytes(v).subrange(0x080, 0x180) =~= lut_bytes(v.lookup_table@));
}

/// FlexSPI configuration block.
///
/// The FlexSPI configuration block consists of parameters that are for
/// specific flash devices. The configuration block includes the FlexSPI
/// [`LookupTable`]. The configuration block is shared between serial NOR and
/// NAND configuration blocks.
///
/// # Default values
///
/// - `cs_hold_time` is [`RECOMMENDED_CS_HOLD_TIME`]
/// - `cs_setup_time` is [`RECOMMENDED_CS_SETUP_TIME`]
/// - the version is the packed form of [`Version::new(1, 0, 0)`](Version::new)
/// - the serial clock frequency is the slowest supported code, 1
/// - the pad type is single
/// - the read sample clock source is internal loopback
///
/// All other configurable values are set to a bit pattern of 0.
#[derive(Clone, Copy)]
pub struct ConfigurationBlock {
    pub(crate) version: Version,
    pub(crate) read_sample_clk_src: ReadSampleClockSource,
    pub(crate) cs_hold_time: u8,
    pub(crate) cs_setup_time: u8,
    pub(crate) column_address_width: ColumnAddressWidth,
    pub(crate) device_mode_cfg_enable: bool,
    pub(crate) wait_time_cfg_commands: WaitTimeConfigurationCommands,
    pub(crate) device_mode_sequence: DeviceModeSequence,
    pub(crate) device_mode_arg: u32,
    pub(crate) controller_misc_options: u32,
    pub(crate) device_type: u8,
    pub(crate) serial_flash_pad_type: FlashPadType,
    pub(crate) serial_clk_freq: u8,
    pub(crate) sflash_a1_size: u32,
    pub(crate) sflash_a2_size: u32,
    pub(crate) sflash_b1_size: u32,
    pub(crate) sflash_b2_size: u32,
    pub(crate) lookup_table: LookupTable,
}

impl View for ConfigurationBlock {
    type V = FcbView;

    open(crate) spec fn view(&self) -> FcbView {
        FcbView {
            version: self.version.spec_raw(),
            read_sample_clk_src: self.read_sample_clk_src,
            cs_hold_time: self.cs_hold_time,
            cs_setup_time: self.cs_setup_time,
            column_address_width: self.column_address_width,
            device_mode_cfg_enable: self.device_mode_cfg_enable,
            wait_time_cfg_commands: self.wait_time_cfg_commands.spec_value(),
            device_mode_seq: self.device_mode_sequence,
            device_mode_arg: self.device_mode_arg,
            controller_misc_options: self.controller_misc_options,
            device_type: self.device_type,
            serial_flash_pad_type: self.serial_flash_pad_type,
            serial_clk_freq: self.serial_clk_freq,
            sflash_a1_size: self.sflash_a1_size,
            sflash_a2_size: self.sflash_a2_size,
            sflash_b1_size: self.sflash_b1_size,
            sflash_b2_size: self.sflash_b2_size,
            lookup_table: self.lookup_table,
        }
    }
}

impl ConfigurationBlock {
    /// Create a new configuration block that uses `lookup_table` as the
    /// FlexSPI LUT.
    pub fn new(lookup_table: LookupTable) -> (r: Self)
        ensures
            r@.version == 0x5601_0000,
            r@.read_sample_clk_src == ReadSampleClockSource::InternalLoopback,
            r@.cs_hold_time == RECOMMENDED_CS_HOLD_TIME,
            r@.cs_setup_time == RECOMMENDED_CS_SETUP_TIME,
            r@.column_address_width == ColumnAddressWidth::OtherDevices,
            !r@.device_mode_cfg_enable,
            r@.wait_time_cfg_commands == 0,
            r@.device_mode_seq.spec_count() == 0,
            r@.device_mode_seq.spec_index() == 0,
            r@.device_mode_arg == 0,
            r@.controller_misc_options == 0,
            r@.device_type == 0,
            r@.serial_flash_pad_type == FlashPadType::Single,
            r@.serial_clk_freq == 1,
            r@.sflash_a1_size == 0,
            r@.sflash_a2_size == 0,
            r@.sflash_b1_size == 0,
            r@.sflash_b2_size == 0,
            r@.lookup_table == lookup_table,
    {
        ConfigurationBlock {
            version: Version::new(1, 0, 0),
            read_sample_clk_src: ReadSampleClockSource::InternalLoopback,
            cs_hold_time: RECOMMENDED_CS_HOLD_TIME,
            cs_setup_time: RECOMMENDED_CS_SETUP_TIME,
            column_address_width: ColumnAddressWidth::OtherDevices,
            device_mode_cfg_enable: false,
            wait_time_cfg_commands: WaitTimeConfigurationCommands::disable(),
            device_mode_sequence: DeviceModeSequence::zeroed(),
            device_mode_arg: 0,
            controller_misc_options: 0,
            // Invalid value; overwritten by the NOR configuration block.
            device_type: 0,
            serial_flash_pad_type: FlashPadType::Single,
            serial_clk_freq: 1,
            sflash_a1_size: 0,
            sflash_a2_size: 0,
            sflash_b1_size: 0,
            sflash_b2_size: 0,
            lookup_table,
        }
    }

    /// Override the version.
    ///
    /// The default value is the packed form of version 1.0.0.
    pub fn version(self, version: Version) -> (r: Self)
        ensures
            r@ == (FcbView { version: version.spec_raw(), ..self@ }),
    {
        let mut block = self;
        block.version = version;
        block
    }

    /// `readSampleClkSrc`, the clock source for FlexSPI.
    ///
    /// If not set, this defaults to `ReadSampleClockSource::InternalLoopback`.
    pub fn read_sample_clk_src(self, read_sample_clk_src: ReadSampleClockSource) -> (r: Self)
        ensures
            r@ == (FcbView { read_sample_clk_src, ..self@ }),
    {
        let mut block = self;
        block.read_sample_clk_src = read_sample_clk_src;
        block
    }

    /// Set the chip select hold time (`csHoldTime`).
    ///
    /// If not set, this will be [`RECOMMENDED_CS_HOLD_TIME`], which is `0x03`.
    pub fn cs_hold_time(self, cs_hold_time: u8) -> (r: Self)
        ensures
            r@ == (FcbView { cs_hold_time, ..self@ }),
    {
        let mut block = self;
        block.cs_hold_time = cs_hold_time;
        block
    }

    /// Set the chip select setup time (`csSetupTime`).
    ///
    /// If not set, this will be [`RECOMMENDED_CS_SETUP_TIME`], which is `0x03`.
    pub fn cs_setup_time(self, cs_setup_time: u8) -> (r: Self)
        ensures
            r@ == (FcbView { cs_setup_time, ..self@ }),
    {
        let mut block = self;
        block.cs_setup_time = cs_setup_time;
        block
    }

    /// `columnAddressWidth`, the properties of the flash memory.
    ///
    /// If not set, this defaults to `ColumnAddressWidth::OtherDevices`.
    pub fn column_address_width(self, column_address_width: ColumnAddressWidth) -> (r: Self)
        ensures
            r@ == (FcbView { column_address_width, ..self@ }),
    {
        let mut block = self;
        block.column_address_width = column_address_width;
        block
    }

    /// Sets device configuration mode. The `DeviceModeConfiguration::Disabled`
    /// variant will set `deviceModeCfgEnable` to "disabled". Otherwise, we
    /// will set `deviceModeCfgEnable` to "enabled," and we use the sequence
    /// and argument parameters in the FCB.
    ///
    /// If not set, this defaults to `DeviceModeConfiguration::Disabled`.
    pub fn device_mode_configuration(
        self,
        device_mode_configuration: DeviceModeConfiguration,
    ) -> (r: Self)
        ensures
            device_mode_configuration == DeviceModeConfiguration::Disabled ==> r@ == (FcbView {
                device_mode_cfg_enable: false,
                ..self@
            }),
            (device_mode_configuration matches DeviceModeConfiguration::Enabled {
                device_mode_arg,
                device_mode_seq,
            } ==> r@ == (FcbView {
                device_mode_cfg_enable: true,
                device_mode_arg,
                device_mode_seq,
                ..self@
            })),
    {
        let mut block = self;
        match device_mode_configuration {
            DeviceModeConfiguration::Disabled => {
                block.device_mode_cfg_enable = false;
            },
            DeviceModeConfiguration::Enabled { device_mode_arg, device_mode_seq } => {
                block.device_mode_cfg_enable = true;
                block.device_mode_arg = device_mode_arg;
                block.device_mode_sequence = device_mode_seq;
            },
        }
        block
    }

    /// Sets `waitTimeCfgCommands`.
    ///
    /// If not set, this defaults to `WaitTimeConfigurationCommands::disable()`.
    pub fn wait_time_cfg_commands(
        self,
        wait_time_cfg_commands: WaitTimeConfigurationCommands,
    ) -> (r: Self)
        ensures
            r@ == (FcbView {
                wait_time_cfg_commands: wait_time_cfg_commands.spec_value(),
                ..self@
            }),
    {
        let mut block = self;
        block.wait_time_cfg_commands = wait_time_cfg_commands;
        block
    }

    /// Sets the serial flash pad type, `sFlashPad`.
    ///
    /// If not set, this defaults to `FlashPadType::Single`.
    pub fn serial_flash_pad_type(self, serial_flash_pad_type: FlashPadType) -> (r: Self)
        ensures
            r@ == (FcbView { serial_flash_pad_type, ..self@ }),
    {
        let mut block = self;
        block.serial_flash_pad_type = serial_flash_pad_type;
        block
    }

    /// Sets the serial clock frequency, `serialClkFreq`.
    ///
    /// If not set, this defaults to the slowest supported code, 1.
    pub fn serial_clk_freq(self, serial_clk_freq: SerialClockFrequency) -> (r: Self)
        ensures
            r@ == (FcbView { serial_clk_freq: serial_clk_freq.spec_get(), ..self@ }),
    {
        let mut block = self;
        block.serial_clk_freq = serial_clk_freq.get();
        block
    }

    /// Set a flash size for the provided flash region.
    ///
    /// Any region that's not set will default to `0`.
    pub fn flash_size(self, flash_region: SerialFlashRegion, flash_size: u32) -> (r: Self)
        ensures
            flash_region == SerialFlashRegion::A1 ==> r@ == (FcbView {
                sflash_a1_size: flash_size,
                ..self@
            }),
            flash_region == SerialFlashRegion::A2 ==> r@ == (FcbView {
                sflash_a2_size: flash_size,
                ..self@
            }),
            flash_region == SerialFlashRegion::B1 ==> r@ == (FcbView {
                sflash_b1_size: flash_size,
                ..self@
            }),
            flash_region == SerialFlashRegion::B2 ==> r@ == (FcbView {
                sflash_b2_size: flash_size,
                ..self@
            }),
    {
        let mut block = self;
        match flash_region {
            SerialFlashRegion::A1 => block.sflash_a1_size = flash_size,
            SerialFlashRegion::A2 => block.sflash_a2_size = flash_size,
            SerialFlashRegion::B1 => block.sflash_b1_size = flash_size,
            SerialFlashRegion::B2 => block.sflash_b2_size = flash_size,
        }
        block
    }

    /// Set miscellaneous controller options.
    ///
    /// See your chip's reference manual for more information on valid values.
    /// This method performs no checking on the input.
    pub fn controller_misc_options(self, options: u32) -> (r: Self)
        ensures
            r@ == (FcbView { controller_misc_options: options, ..self@ }),
    {
        let mut block = self;
        block.controller_misc_options = options;
        block
    }

    /// Byte `i` of the serialized configuration block.
    pub fn byte_at(&self, i: usize) -> (b: u8)
        requires
            i < FLEXSPI_CONFIGURATION_BLOCK_SIZE,
        ensures
            b == fcb_byte(self@, i as int),
    {
        if i == 0x000 {
            0x46
        } else if i == 0x001 {
            0x43
        } else if i == 0x002 {
            0x46
        } else if i == 0x003 {
            0x42
        } else if i < 0x008 {
            u32_le_byte_at(self.version.raw, i - 0x004)
        } else if i == 0x00C {
            self.read_sample_clk_src.value()
        } else if i == 0x00D {
            self.cs_hold_time
        } else if i == 0x00E {
            self.cs_setup_time
        } else if i == 0x00F {
            self.column_address_width.value()
        } else if i == 0x010 {
            if self.device_mode_cfg_enable {
                1
            } else {
                0
            }
        } else if 0x012 <= i && i < 0x014 {
            u16_le_byte_at(self.wait_time_cfg_commands.factor, i - 0x012)
        } else if i == 0x014 {
            self.device_mode_sequence.sequence_count
        } else if i == 0x015 {
            self.device_mode_sequence.sequence_index
        } else if 0x018 <= i && i < 0x01C {
            u32_le_byte_at(self.device_mode_arg, i - 0x018)
        } else if 0x040 <= i && i < 0x044 {
            u32_le_byte_at(self.controller_misc_options, i - 0x040)
        } else if i == 0x044 {
            self.device_type
        } else if i == 0x045 {
            self.serial_flash_pad_type.value()
        } else if i == 0x046 {
            self.serial_clk_freq
        } else if 0x050 <= i && i < 0x054 {
            u32_le_byte_at(self.sflash_a1_size, i - 0x050)
        } else if 0x054 <= i && i < 0x058 {
            u32_le_byte_at(self.sflash_a2_size, i - 0x054)
        } else if 0x058 <= i && i < 0x05C {
            u32_le_byte_at(self.sflash_b1_size, i - 0x058)
        } else if 0x05C <= i && i < 0x060 {
            u32_le_byte_at(self.sflash_b2_size, i - 0x05C)
        } else if 0x080 <= i && i < 0x180 {
            self.lookup_table.byte_at(i - 0x080)
        } else {
            0
        }
    }

    /// Serialize the configuration block.
    ///
    /// The result is always exactly 448 bytes: every field at its fixed
    /// offset per [`fcb_byte`], and zero in every reserved position.
    pub fn to_bytes(&self) -> (r: Vec<u8>)
        ensures
            r@ == fcb_bytes(self@),
            r@.len() == FLEXSPI_CONFIGURATION_BLOCK_SIZE,
    {
        let mut r: Vec<u8> = Vec::new();
        let mut i: usize = 0;
        while i < FLEXSPI_CONFIGURATION_BLOCK_SIZE
            invariant
                i <= FLEXSPI_CONFIGURATION_BLOCK_SIZE,
                r@.len() == i,
                forall|k: int| 0 <= k < i ==> r@[k] == fcb_byte(self@, k),
            decreases FLEXSPI_CONFIGURATION_BLOCK_SIZE - i,
        {
            let b = self.byte_at(i);
            r.push(b);
            i += 1;
        }
        proof {
            assert(r@ =~= fcb_bytes(self@));
        }
        r
    }
}

} // verus!
