//! Dual data transfer rate (DDR) opcodes.
//!
//! See the documentation on the corresponding [`sdr`](super::sdr) opcode for
//! more information.

use vstd::prelude::*;

use crate::flexspi::sequence::Opcode;

verus! {

/// Adds `0x20` to the opcode to make it a DDR opcode.
pub fn to_ddr(opcode: Opcode) -> (r: Opcode)
    requires
        opcode.spec_value() + 0x20 <= 0xFF,
    ensures
        r.spec_value() == opcode.spec_value() + 0x20,
{
    Opcode { raw: opcode.raw + 0x20 }
}

pub fn cmd() -> (r: Opcode)
    ensures
        r.spec_value() == 0x21,
{
    to_ddr(super::sdr::cmd())
}

pub fn raddr() -> (r: Opcode)
    ensures
        r.spec_value() == 0x22,
{
    to_ddr(super::sdr::raddr())
}

pub fn caddr() -> (r: Opcode)
    ensures
        r.spec_value() == 0x23,
{
    to_ddr(super::sdr::caddr())
}

pub fn mode1() -> (r: Opcode)
    ensures
        r.spec_value() == 0x24,
{
    to_ddr(super::sdr::mode1())
}

pub fn mode2() -> (r: Opcode)
    ensures
        r.spec_value() == 0x25,
{
    to_ddr(super::sdr::mode2())
}

pub fn mode4() -> (r: Opcode)
    ensures
        r.spec_value() == 0x26,
{
    to_ddr(super::sdr::mode4())
}

pub fn mode8() -> (r: Opcode)
    ensures
        r.spec_value() == 0x27,
{
    to_ddr(super::sdr::mode8())
}

pub fn write() -> (r: Opcode)
    ensures
        r.spec_value() == 0x28,
{
    to_ddr(super::sdr::write())
}

pub fn read() -> (r: Opcode)
    ensures
        r.spec_value() == 0x29,
{
    to_ddr(super::sdr::read())
}

pub fn learn() -> (r: Opcode)
    ensures
        r.spec_value() == 0x2A,
{
    to_ddr(super::sdr::learn())
}

pub fn datasz() -> (r: Opcode)
    ensures
        r.spec_value() == 0x2B,
{
    to_ddr(super::sdr::datasz())
}

pub fn dummy() -> (r: Opcode)
    ensures
        r.spec_value() == 0x2C,
{
    to_ddr(super::sdr::dummy())
}

pub fn dummy_rwds() -> (r: Opcode)
    ensures
        r.spec_value() == 0x2D,
{
    to_ddr(super::sdr::dummy_rwds())
}

} // verus!
