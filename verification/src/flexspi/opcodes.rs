//! FlexSPI lookup table instruction opcodes.
//!
//! Opcodes are separated by their data transfer rates: single data transfer
//! rate (SDR) opcodes in [`sdr`], dual data transfer rate (DDR) opcodes in
//! [`ddr`]. A DDR opcode is its SDR counterpart offset by `0x20`.

pub mod ddr;
pub mod sdr;
