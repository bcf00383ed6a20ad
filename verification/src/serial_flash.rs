//! Serial NOR flash boot.
//!
//! `serial_flash` provides the types necessary to boot an i.MX RT processor
//! from serial NOR flash.
//!
//! # Serial NOR configuration block
//!
//! To create a serial NOR configuration block, first create a FlexSPI
//! configuration block. See the [`flexspi`](crate::flexspi) module for more
//! details. Use the FlexSPI configuration block to create a serial NOR
//! configuration block. You are responsible for placing the serialized bytes
//! at the correct location in memory.

pub mod nor;
