//! Per-family serial clock frequency codes.

use imxrt_boot_gen::flexspi::SerialClockOption::{
    self, MHz100, MHz120, MHz133, MHz166, MHz30, MHz50, MHz60, MHz75, MHz80,
};
use imxrt_boot_gen::{Error, Imxrt};

#[test]
fn imxrt1040_serial_clock_frequency() {
    const CHIP: Imxrt = Imxrt::Imxrt1040;
    assert_eq!(CHIP.serial_clock_frequency(MHz30).get(), 1);
    assert_eq!(CHIP.serial_clock_frequency(MHz50).get(), 2);
    assert_eq!(CHIP.serial_clock_frequency(MHz60).get(), 3);
    assert_eq!(CHIP.serial_clock_frequency(MHz75).get(), 4);
    assert_eq!(CHIP.serial_clock_frequency(MHz80).get(), 5);
    assert_eq!(CHIP.serial_clock_frequency(MHz100).get(), 6);
    assert_eq!(CHIP.serial_clock_frequency(MHz120).get(), 7);
    assert_eq!(CHIP.serial_clock_frequency(MHz133).get(), 8);
    assert_eq!(CHIP.serial_clock_frequency(MHz166).get(), 9);
}

#[test]
fn imxrt1040_ip_serial_clock_frequency() {
    const CHIP: Imxrt = Imxrt::Imxrt1040;
    assert_eq!(CHIP.ip_serial_clock_frequency(MHz30).get(), 1);
    assert_eq!(CHIP.ip_serial_clock_frequency(MHz50).get(), 2);
    assert_eq!(CHIP.ip_serial_clock_frequency(MHz60).get(), 3);
    assert_eq!(CHIP.ip_serial_clock_frequency(MHz75).get(), 4);
    assert_eq!(CHIP.ip_serial_clock_frequency(MHz80).get(), 5);
    assert_eq!(CHIP.ip_serial_clock_frequency(MHz100).get(), 6);
    assert_eq!(CHIP.ip_serial_clock_frequency(MHz120).get(), 7);
    assert_eq!(CHIP.ip_serial_clock_frequency(MHz133).get(), 8);
    assert_eq!(CHIP.ip_serial_clock_frequency(MHz166).get(), 9);
}

#[test]
fn imxrt1050_serial_clock_frequency() {
    const CHIP: Imxrt = Imxrt::Imxrt1050;
    assert_eq!(CHIP.serial_clock_frequency(MHz30).get(), 1);
    assert_eq!(CHIP.serial_clock_frequency(MHz50).get(), 2);
    assert_eq!(CHIP.serial_clock_frequency(MHz60).get(), 3);
    assert_eq!(CHIP.serial_clock_frequency(MHz75).get(), 4);
    assert_eq!(CHIP.serial_clock_frequency(MHz80).get(), 5);
    assert_eq!(CHIP.serial_clock_frequency(MHz100).get(), 6);
    assert_eq!(CHIP.serial_clock_frequency(MHz133).get(), 7);
    assert_eq!(CHIP.serial_clock_frequency(MHz166).get(), 8);
}

#[test]
fn imxrt1050_ip_serial_clock_frequency() {
    const CHIP: Imxrt = Imxrt::Imxrt1050;
    assert_eq!(
        CHIP.try_ip_serial_clock_frequency(MHz120),
        Err(Error::NotSupportedForChip)
    );
    assert_eq!(CHIP.ip_serial_clock_frequency(MHz30).get(), 1);
    assert_eq!(CHIP.ip_serial_clock_frequency(MHz50).get(), 2);
    assert_eq!(CHIP.ip_serial_clock_frequency(MHz60).get(), 3);
    assert_eq!(CHIP.ip_serial_clock_frequency(MHz75).get(), 4);
    assert_eq!(CHIP.ip_serial_clock_frequency(MHz80).get(), 5);
    assert_eq!(CHIP.ip_serial_clock_frequency(MHz100).get(), 6);
    // No 120MHz here...
    assert_eq!(CHIP.ip_serial_clock_frequency(MHz133).get(), 7);
    assert_eq!(CHIP.ip_serial_clock_frequency(MHz166).get(), 8);
}

#[test]
fn imxrt1160_serial_clock_frequency() {
    const CHIP: Imxrt = Imxrt::Imxrt1160;
    assert_eq!(CHIP.serial_clock_frequency(MHz30).get(), 1);
    assert_eq!(CHIP.serial_clock_frequency(MHz50).get(), 2);
    assert_eq!(CHIP.serial_clock_frequency(MHz60).get(), 3);
    assert_eq!(CHIP.serial_clock_frequency(MHz80).get(), 4);
    assert_eq!(CHIP.serial_clock_frequency(MHz100).get(), 5);
    assert_eq!(CHIP.serial_clock_frequency(MHz120).get(), 6);
    assert_eq!(CHIP.serial_clock_frequency(MHz133).get(), 7);
    assert_eq!(CHIP.serial_clock_frequency(MHz166).get(), 8);
}

#[test]
fn imxrt1160_ip_serial_clock_frequency() {
    const CHIP: Imxrt = Imxrt::Imxrt1160;
    assert_eq!(
        CHIP.try_ip_serial_clock_frequency(MHz75),
        Err(Error::NotSupportedForChip)
    );
    assert_eq!(CHIP.ip_serial_clock_frequency(MHz30).get(), 1);
    assert_eq!(CHIP.ip_serial_clock_frequency(MHz50).get(), 2);
    assert_eq!(CHIP.ip_serial_clock_frequency(MHz60).get(), 3);
    assert_eq!(CHIP.ip_serial_clock_frequency(MHz80).get(), 4);
    assert_eq!(CHIP.ip_serial_clock_frequency(MHz100).get(), 5);
    assert_eq!(CHIP.ip_serial_clock_frequency(MHz120).get(), 6);
    assert_eq!(CHIP.ip_serial_clock_frequency(MHz133).get(), 7);
}

/// Every family and option: a `try` call either returns the documented
/// non-zero code or the not-supported error, and the two `try` variants
/// agree with the per-field tables.
#[test]
fn all_families_all_options() {
    const CHIPS: [Imxrt; 8] = [
        Imxrt::Imxrt1010,
        Imxrt::Imxrt1020,
        Imxrt::Imxrt1040,
        Imxrt::Imxrt1050,
        Imxrt::Imxrt1060,
        Imxrt::Imxrt1160,
        Imxrt::Imxrt1170,
        Imxrt::Imxrt1180,
    ];
    const OPTIONS: [SerialClockOption; 9] = [
        MHz30, MHz50, MHz60, MHz75, MHz80, MHz100, MHz120, MHz133, MHz166,
    ];
    // The per-family tables: (serial code, IP code) for each option in
    // OPTIONS order, transcribed from the reference manuals. Zero means
    // unsupported.
    let tables: [[(u8, u8); 9]; 8] = [
        // 1010
        [
            (1, 1),
            (2, 2),
            (3, 3),
            (4, 4),
            (5, 5),
            (6, 6),
            (7, 0),
            (8, 7),
            (0, 0),
        ],
        // 1020, 1050
        [
            (1, 1),
            (2, 2),
            (3, 3),
            (4, 4),
            (5, 5),
            (6, 6),
            (0, 0),
            (7, 7),
            (8, 8),
        ],
        // 1040, 1060
        [
            (1, 1),
            (2, 2),
            (3, 3),
            (4, 4),
            (5, 5),
            (6, 6),
            (7, 7),
            (8, 8),
            (9, 9),
        ],
        [
            (1, 1),
            (2, 2),
            (3, 3),
            (4, 4),
            (5, 5),
            (6, 6),
            (0, 0),
            (7, 7),
            (8, 8),
        ],
        [
            (1, 1),
            (2, 2),
            (3, 3),
            (4, 4),
            (5, 5),
            (6, 6),
            (7, 7),
            (8, 8),
            (9, 9),
        ],
        // 1160, 1170, 1180
        [
            (1, 1),
            (2, 2),
            (3, 3),
            (0, 0),
            (4, 4),
            (5, 5),
            (6, 6),
            (7, 7),
            (8, 8),
        ],
        [
            (1, 1),
            (2, 2),
            (3, 3),
            (0, 0),
            (4, 4),
            (5, 5),
            (6, 6),
            (7, 7),
            (8, 8),
        ],
        [
            (1, 1),
            (2, 2),
            (3, 3),
            (0, 0),
            (4, 4),
            (5, 5),
            (6, 6),
            (7, 7),
            (8, 8),
        ],
    ];
    for (chip, table) in CHIPS.iter().zip(tables.iter()) {
        for (opt, (scf, ipscf)) in OPTIONS.iter().zip(table.iter()) {
            match chip.try_serial_clock_frequency(*opt) {
                Ok(f) => {
                    assert_eq!(f.get(), *scf, "{chip:?} {opt:?}");
                    assert_ne!(f.get(), 0, "{chip:?} {opt:?}");
                }
                Err(e) => {
                    assert_eq!(e, Error::NotSupportedForChip);
                    assert_eq!(*scf, 0, "{chip:?} {opt:?}")
                }
            }
            match chip.try_ip_serial_clock_frequency(*opt) {
                Ok(f) => {
                    assert_eq!(f.get(), *ipscf, "{chip:?} {opt:?}");
                    assert_ne!(f.get(), 0, "{chip:?} {opt:?}");
                }
                Err(e) => {
                    assert_eq!(e, Error::NotSupportedForChip);
                    assert_eq!(*ipscf, 0, "{chip:?} {opt:?}")
                }
            }
        }
    }
}

#[test]
fn unsupported_options_fail() {
    assert_eq!(
        Imxrt::Imxrt1010.try_serial_clock_frequency(MHz166),
        Err(Error::NotSupportedForChip)
    );
    assert_eq!(
        Imxrt::Imxrt1020.try_serial_clock_frequency(MHz120),
        Err(Error::NotSupportedForChip)
    );
    assert_eq!(
        Imxrt::Imxrt1170.try_serial_clock_frequency(MHz75),
        Err(Error::NotSupportedForChip)
    );
    assert_eq!(
        Imxrt::Imxrt1010.try_ip_serial_clock_frequency(MHz120),
        Err(Error::NotSupportedForChip)
    );
}
