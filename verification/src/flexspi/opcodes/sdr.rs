//! Single data transfer rate (SDR) opcodes.

use vstd::prelude::*;

use crate::flexspi::sequence::Opcode;

verus! {

/// Transmit command code to flash.
pub fn cmd() -> (r: Opcode)
    ensures
        r.spec_value() == 0x01,
{
    Opcode { raw: 0x01 }
}

/// Transmit row address to flash.
pub fn raddr() -> (r: Opcode)
    ensures
        r.spec_value() == 0x02,
{
    Opcode { raw: 0x02 }
}

/// Transmit column address to flash.
pub fn caddr() -> (r: Opcode)
    ensures
        r.spec_value() == 0x03,
{
    Opcode { raw: 0x03 }
}

/// Transmit mode bits to flash.
///
/// Bit number 1.
pub fn mode1() -> (r: Opcode)
    ensures
        r.spec_value() == 0x04,
{
    Opcode { raw: 0x04 }
}

/// Transmit mode bits to flash.
///
/// Bit number 2.
pub fn mode2() -> (r: Opcode)
    ensures
        r.spec_value() == 0x05,
{
    Opcode { raw: 0x05 }
}

/// Transmit mode bits to flash.
///
/// Bit number 4.
pub fn mode4() -> (r: Opcode)
    ensures
        r.spec_value() == 0x06,
{
    Opcode { raw: 0x06 }
}

/// Transmit mode bits to flash.
///
/// Bit number 8.
pub fn mode8() -> (r: Opcode)
    ensures
        r.spec_value() == 0x07,
{
    Opcode { raw: 0x07 }
}

/// Transmit programming data to flash.
pub fn write() -> (r: Opcode)
    ensures
        r.spec_value() == 0x08,
{
    Opcode { raw: 0x08 }
}

/// Receive data from flash.
///
/// Read data is put into AHB_RX_BUF or IP_RX_FIFO.
pub fn read() -> (r: Opcode)
    ensures
        r.spec_value() == 0x09,
{
    Opcode { raw: 0x09 }
}

/// Receive read data or preamble bit from the flash device.
///
/// The FlexSPI controller compares the data line bits with the DLPR register
/// to determine a correct sampling clock phase.
pub fn learn() -> (r: Opcode)
    ensures
        r.spec_value() == 0x0A,
{
    Opcode { raw: 0x0A }
}

/// Transmit read / program data size (byte number) to flash.
pub fn datasz() -> (r: Opcode)
    ensures
        r.spec_value() == 0x0B,
{
    Opcode { raw: 0x0B }
}

/// Leave data lines undriven by the FlexSPI controller.
///
/// Provides turnaround cycles from host driving to device driving. The pad
/// count determines the number of pads in input mode.
pub fn dummy() -> (r: Opcode)
    ensures
        r.spec_value() == 0x0C,
{
    Opcode { raw: 0x0C }
}

/// Similar to `dummy`, but the cycle number is different.
pub fn dummy_rwds() -> (r: Opcode)
    ensures
        r.spec_value() == 0x0D,
{
    Opcode { raw: 0x0D }
}

} // verus!
