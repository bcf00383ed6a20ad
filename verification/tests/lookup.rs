//! Lookup table slot placement and serialization.

use imxrt_boot_gen::flexspi::opcodes::sdr;
use imxrt_boot_gen::flexspi::{Command, Instr, LookupTable, Pads, SequenceBuilder};

#[test]
fn smoke() {
    let _lut: LookupTable = LookupTable::new()
        .command(Command::Read, SequenceBuilder::new().build())
        .command(Command::ReadStatus, SequenceBuilder::new().build())
        .command(Command::WriteEnable, SequenceBuilder::new().build())
        .command(Command::EraseSector, SequenceBuilder::new().build())
        .command(Command::PageProgram, SequenceBuilder::new().build())
        .command(Command::ChipErase, SequenceBuilder::new().build())
        .command(Command::Dummy, SequenceBuilder::new().build());
}

/// Show that the sequence commands index into the correct place in the
/// byte array.
#[test]
fn sequence_command_offset() {
    let lut = LookupTable::new().command(
        Command::ChipErase,
        SequenceBuilder::new()
            .instr(Instr::new(sdr::cmd(), Pads::Two, 0xDE))
            .build(),
    );
    assert_eq!(lut.to_bytes()[11 * 16], 0xDE);
}

#[test]
fn new_table_serializes_to_256_zeros() {
    let lut = LookupTable::new();
    assert_eq!(lut.to_bytes(), vec![0u8; 256]);
}

#[test]
fn command_slot_indices() {
    // Each command's sequence lands at its fixed 16-byte slot; every other
    // byte stays zero.
    let commands = [
        (Command::Read, 0usize),
        (Command::ReadStatus, 1),
        (Command::WriteEnable, 3),
        (Command::EraseSector, 5),
        (Command::PageProgram, 9),
        (Command::ChipErase, 11),
        (Command::Dummy, 15),
    ];
    for (command, slot) in commands {
        let marker = SequenceBuilder::new()
            .instr(Instr::new(sdr::cmd(), Pads::One, 0xA5))
            .build();
        let bytes = LookupTable::new().command(command, marker).to_bytes();
        assert_eq!(bytes.len(), 256);
        for (i, b) in bytes.iter().enumerate() {
            let expected = if i == slot * 16 {
                0xA5
            } else if i == slot * 16 + 1 {
                0x04
            } else {
                0x00
            };
            assert_eq!(*b, expected, "command {command:?}, byte {i}");
        }
    }
}

#[test]
fn custom_command_overwrites_slot() {
    // The last sequence assigned to a slot is the one serialized.
    let first = SequenceBuilder::new()
        .instr(Instr::new(sdr::cmd(), Pads::One, 0x11))
        .build();
    let second = SequenceBuilder::new()
        .instr(Instr::new(sdr::cmd(), Pads::Four, 0x22))
        .build();
    let lut = LookupTable::new()
        .command(Command::Read, first)
        .custom_command(0, second);
    let bytes = lut.to_bytes();
    assert_eq!(&bytes[0..2], &[0x22, 0x06]);

    let lut = LookupTable::new().custom_command(14, second);
    let bytes = lut.to_bytes();
    assert_eq!(&bytes[14 * 16..14 * 16 + 2], &[0x22, 0x06]);
}
