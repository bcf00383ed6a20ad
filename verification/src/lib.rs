//! Builders and byte-exact serializers for the boot-time data structures of
//! i.MX RT microcontrollers.
//!
//! An i.MX RT processor boots from serial NOR flash by reading a fixed-layout
//! configuration block — the FlexSPI configuration block, wrapped in a serial
//! NOR configuration block — from a known flash offset. The boot ROM consumes
//! the raw bytes directly, so every field must sit at its documented offset
//! and the total sizes (448 bytes for the common block, 512 bytes for the NOR
//! block) must be exact.
//!
//! This crate models those structures as plain values built through chains of
//! `with`-style setters, and serializes them with pure functions whose
//! contracts pin down every byte of the output:
//!
//! - [`flexspi::Instr`] and [`flexspi::Sequence`] describe flash command
//!   sequences for the FlexSPI lookup table;
//! - [`flexspi::LookupTable`] holds the sixteen 16-byte sequence slots;
//! - [`flexspi::ConfigurationBlock`] is the 448-byte common block;
//! - [`serial_flash::nor::ConfigurationBlock`] is the final 512-byte block;
//! - [`Imxrt`] selects a chip family and maps symbolic serial-clock options
//!   to the per-family numeric codes, rejecting unsupported combinations.

use vstd::prelude::*;

pub mod bytes;
pub mod flexspi;
pub mod serial_flash;

use flexspi::fields::{SerialClockFrequency, SerialClockOption};
use serial_flash::nor::IpSerialClockFrequency;

verus! {

/// The MCU family.
#[derive(Debug, Clone, Copy, PartialEq, Eq)]
pub enum Imxrt {
    /// A 1010 MCU.
    Imxrt1010,
    /// A 1020 MCU.
    ///
    /// This should also work for the 1024 MCUs.
    Imxrt1020,
    /// A 1040 MCU.
    Imxrt1040,
    /// A 1050 MCU.
    Imxrt1050,
    /// A 1060 MCU.
    ///
    /// This is expected to work with 1064 MCUs.
    Imxrt1060,
    /// A 1160 MCU, booting core.
    Imxrt1160,
    /// A 1170 MCU, booting core.
    Imxrt1170,
    /// A 1180 MCU, booting core.
    Imxrt1180,
}

/// An error during generation.
#[derive(Debug, Clone, Copy, PartialEq, Eq)]
#[non_exhaustive]
pub enum Error {
    /// This isn't supported for your selected chip.
    NotSupportedForChip,
}

/// The per-family clock code table: for a chip family and a symbolic clock
/// option, the pair of numeric codes used by the hardware.
///
/// The first element encodes the option for the `serialClkFreq` field; the
/// second encodes it for the `ipCmdSerialClkFreq` field. A code of zero means
/// the family does not support the option for that field. Each family's table
/// is transcribed from its reference manual; families documented to share a
/// table delegate to the shared definition.
pub open spec fn spec_clock_codes(chip: Imxrt, opt: SerialClockOption) -> (u8, u8) {
    match chip {
        Imxrt::Imxrt1010 => spec_imxrt1010_codes(opt),
        Imxrt::Imxrt1020 => spec_imxrt1020_codes(opt),
        Imxrt::Imxrt1040 => spec_imxrt1040_codes(opt),
        Imxrt::Imxrt1050 => spec_imxrt1020_codes(opt),
        Imxrt::Imxrt1060 => spec_imxrt1040_codes(opt),
        Imxrt::Imxrt1160 => spec_imxrt1160_codes(opt),
        Imxrt::Imxrt1170 => spec_imxrt1160_codes(opt),
        Imxrt::Imxrt1180 => spec_imxrt1160_codes(opt),
    }
}

/// The serial-clock code for the `serialClkFreq` field; zero when unsupported.
pub open spec fn spec_serial_clock_code(chip: Imxrt, opt: SerialClockOption) -> u8 {
    spec_clock_codes(chip, opt).0
}

/// The serial-clock code for the `ipCmdSerialClkFreq` field; zero when unsupported.
pub open spec fn spec_ip_serial_clock_code(chip: Imxrt, opt: SerialClockOption) -> u8 {
    spec_clock_codes(chip, opt).1
}

/// Clock code table for the 1010 family.
pub open spec fn spec_imxrt1010_codes(opt: SerialClockOption) -> (u8, u8) {
    match opt {
        SerialClockOption::MHz30 => (1u8, 1u8),
        SerialClockOption::MHz50 => (2u8, 2u8),
        SerialClockOption::MHz60 => (3u8, 3u8),
        SerialClockOption::MHz75 => (4u8, 4u8),
        SerialClockOption::MHz80 => (5u8, 5u8),
        SerialClockOption::MHz100 => (6u8, 6u8),
        SerialClockOption::MHz120 => (7u8, 0u8),
        SerialClockOption::MHz133 => (8u8, 7u8),
        SerialClockOption::MHz166 => (0u8, 0u8),
    }
}

/// Clock code table for the 1020 family, shared by the 1050 family.
pub open spec fn spec_imxrt1020_codes(opt: SerialClockOption) -> (u8, u8) {
    match opt {
        SerialClockOption::MHz30 => (1u8, 1u8),
        SerialClockOption::MHz50 => (2u8, 2u8),
        SerialClockOption::MHz60 => (3u8, 3u8),
        SerialClockOption::MHz75 => (4u8, 4u8),
        SerialClockOption::MHz80 => (5u8, 5u8),
        SerialClockOption::MHz100 => (6u8, 6u8),
        SerialClockOption::MHz120 => (0u8, 0u8),
        SerialClockOption::MHz133 => (7u8, 7u8),
        SerialClockOption::MHz166 => (8u8, 8u8),
    }
}

/// Clock code table for the 1040 family, shared by the 1060 family.
pub open spec fn spec_imxrt1040_codes(opt: SerialClockOption) -> (u8, u8) {
    match opt {
        SerialClockOption::MHz30 => (1u8, 1u8),
        SerialClockOption::MHz50 => (2u8, 2u8),
        SerialClockOption::MHz60 => (3u8, 3u8),
        SerialClockOption::MHz75 => (4u8, 4u8),
        SerialClockOption::MHz80 => (5u8, 5u8),
        SerialClockOption::MHz100 => (6u8, 6u8),
        SerialClockOption::MHz120 => (7u8, 7u8),
        SerialClockOption::MHz133 => (8u8, 8u8),
        SerialClockOption::MHz166 => (9u8, 9u8),
    }
}

/// Clock code table for the 1160 family, shared by the 1170 and 1180 families.
pub open spec fn spec_imxrt1160_codes(opt: SerialClockOption) -> (u8, u8) {
    match opt {
        SerialClockOption::MHz30 => (1u8, 1u8),
        SerialClockOption::MHz50 => (2u8, 2u8),
        SerialClockOption::MHz60 => (3u8, 3u8),
        SerialClockOption::MHz75 => (0u8, 0u8),
        SerialClockOption::MHz80 => (4u8, 4u8),
        SerialClockOption::MHz100 => (5u8, 5u8),
        SerialClockOption::MHz120 => (6u8, 6u8),
        SerialClockOption::MHz133 => (7u8, 7u8),
        SerialClockOption::MHz166 => (8u8, 8u8),
    }
}

impl Imxrt {
    /// Produce a serial clock frequency for most flash access.
    ///
    /// If your chip doesn't support the given option, this returns
    /// [`Error::NotSupportedForChip`]. Success, and the resulting code, are
    /// determined exactly by the family's entry in [`spec_clock_codes`]; a
    /// zero (unsupported) entry is never returned as a frequency.
    pub fn try_serial_clock_frequency(self, opt: SerialClockOption) -> (r: Result<
        SerialClockFrequency,
        Error,
    >)
        ensures
            spec_serial_clock_code(self, opt) == 0 ==> r == Err::<SerialClockFrequency, Error>(
                Error::NotSupportedForChip,
            ),
            spec_serial_clock_code(self, opt) != 0 ==> (r matches Ok(f) && f.spec_get()
                == spec_serial_clock_code(self, opt)),
    {
        let (scf, _) = self.clock_codes(opt);
        if scf == 0 {
            Err(Error::NotSupportedForChip)
        } else {
            Ok(SerialClockFrequency::from_raw(scf))
        }
    }

    /// Produce a serial clock frequency for most flash accesses.
    ///
    /// The caller must know that the chip supports the option; use
    /// [`Imxrt::try_serial_clock_frequency`] when that is not certain.
    pub fn serial_clock_frequency(self, opt: SerialClockOption) -> (r: SerialClockFrequency)
        requires
            spec_serial_clock_code(self, opt) != 0,
        ensures
            r.spec_get() == spec_serial_clock_code(self, opt),
    {
        let (scf, _) = self.clock_codes(opt);
        SerialClockFrequency::from_raw(scf)
    }

    /// Produce a serial clock frequency for IP access.
    ///
    /// If your chip doesn't support the given option, this returns
    /// [`Error::NotSupportedForChip`].
    pub fn try_ip_serial_clock_frequency(self, opt: SerialClockOption) -> (r: Result<
        IpSerialClockFrequency,
        Error,
    >)
        ensures
            spec_ip_serial_clock_code(self, opt) == 0 ==> r == Err::<IpSerialClockFrequency, Error>(
                Error::NotSupportedForChip,
            ),
            spec_ip_serial_clock_code(self, opt) != 0 ==> (r matches Ok(f) && f.spec_get()
                == spec_ip_serial_clock_code(self, opt)),
    {
        let (_, ipscf) = self.clock_codes(opt);
        if ipscf == 0 {
            Err(Error::NotSupportedForChip)
        } else {
            Ok(IpSerialClockFrequency::from_raw(ipscf))
        }
    }

    /// Produce a serial clock frequency for IP access.
    ///
    /// The caller must know that the chip supports the option; use
    /// [`Imxrt::try_ip_serial_clock_frequency`] when that is not certain.
    pub fn ip_serial_clock_frequency(self, opt: SerialClockOption) -> (r: IpSerialClockFrequency)
        requires
            spec_ip_serial_clock_code(self, opt) != 0,
        ensures
            r.spec_get() == spec_ip_serial_clock_code(self, opt),
    {
        let (_, ipscf) = self.clock_codes(opt);
        IpSerialClockFrequency::from_raw(ipscf)
    }

    /// Look up both clock codes for this family.
    fn clock_codes(self, opt: SerialClockOption) -> (r: (u8, u8))
        ensures
            r == spec_clock_codes(self, opt),
    {
        match self {
            Self::Imxrt1010 => Self::imxrt1010(opt),
            Self::Imxrt1020 => Self::imxrt1020(opt),
            Self::Imxrt1040 => Self::imxrt1040(opt),
            Self::Imxrt1050 => Self::imxrt1050(opt),
            Self::Imxrt1060 => Self::imxrt1060(opt),
            Self::Imxrt1160 => Self::imxrt1160(opt),
            Self::Imxrt1170 => Self::imxrt1170(opt),
            Self::Imxrt1180 => Self::imxrt1180(opt),
        }
    }

    fn imxrt1010(opt: SerialClockOption) -> (r: (u8, u8))
        ensures
            r == spec_imxrt1010_codes(opt),
    {
        match opt {
            SerialClockOption::MHz30 => (1, 1),
            SerialClockOption::MHz50 => (2, 2),
            SerialClockOption::MHz60 => (3, 3),
            SerialClockOption::MHz75 => (4, 4),
            SerialClockOption::MHz80 => (5, 5),
            SerialClockOption::MHz100 => (6, 6),
            SerialClockOption::MHz120 => (7, 0),
            SerialClockOption::MHz133 => (8, 7),
            SerialClockOption::MHz166 => (0, 0),
        }
    }

    fn imxrt1020(opt: SerialClockOption) -> (r: (u8, u8))
        ensures
            r == spec_imxrt1020_codes(opt),
    {
        match opt {
            SerialClockOption::MHz30 => (1, 1),
            SerialClockOption::MHz50 => (2, 2),
            SerialClockOption::MHz60 => (3, 3),
            SerialClockOption::MHz75 => (4, 4),
            SerialClockOption::MHz80 => (5, 5),
            SerialClockOption::MHz100 => (6, 6),
            SerialClockOption::MHz120 => (0, 0),
            SerialClockOption::MHz133 => (7, 7),
            SerialClockOption::MHz166 => (8, 8),
        }
    }

    fn imxrt1040(opt: SerialClockOption) -> (r: (u8, u8))
        ensures
            r == spec_imxrt1040_codes(opt),
    {
        match opt {
            SerialClockOption::MHz30 => (1, 1),
            SerialClockOption::MHz50 => (2, 2),
            SerialClockOption::MHz60 => (3, 3),
            SerialClockOption::MHz75 => (4, 4),
            SerialClockOption::MHz80 => (5, 5),
            SerialClockOption::MHz100 => (6, 6),
            SerialClockOption::MHz120 => (7, 7),
            SerialClockOption::MHz133 => (8, 8),
            SerialClockOption::MHz166 => (9, 9),
        }
    }

    fn imxrt1050(opt: SerialClockOption) -> (r: (u8, u8))
        ensures
            r == spec_imxrt1020_codes(opt),
    {
        Self::imxrt1020(opt)
    }

    fn imxrt1060(opt: SerialClockOption) -> (r: (u8, u8))
        ensures
            r == spec_imxrt1040_codes(opt),
    {
        Self::imxrt1040(opt)
    }

    fn imxrt1160(opt: SerialClockOption) -> (r: (u8, u8))
        ensures
            r == spec_imxrt1160_codes(opt),
    {
        match opt {
            SerialClockOption::MHz30 => (1, 1),
            SerialClockOption::MHz50 => (2, 2),
            SerialClockOption::MHz60 => (3, 3),
            SerialClockOption::MHz75 => (0, 0),
            SerialClockOption::MHz80 => (4, 4),
            SerialClockOption::MHz100 => (5, 5),
            SerialClockOption::MHz120 => (6, 6),
            SerialClockOption::MHz133 => (7, 7),
            SerialClockOption::MHz166 => (8, 8),
        }
    }

    fn imxrt1170(opt: SerialClockOption) -> (r: (u8, u8))
        ensures
            r == spec_imxrt1160_codes(opt),
    {
        Self::imxrt1160(opt)
    }

    fn imxrt1180(opt: SerialClockOption) -> (r: (u8, u8))
        ensures
            r == spec_imxrt1160_codes(opt),
    {
        Self::imxrt1160(opt)
    }
}

} // verus!
