use gba_core::backup::{Backup, BackupKind};

#[test]
fn sram_round_trip() {
    let mut b = Backup::new(BackupKind::Sram, false, false);
    let pattern: [u8; 8] = [0xde, 0xad, 0xbe, 0xef, 0x01, 0x23, 0x45, 0x67];
    for (k, &v) in pattern.iter().enumerate() {
        b.sram_write(0x100 + k as u32, v);
    }
    assert!(b.is_dirty());
    let out = b.export();
    assert_eq!(&out[0x100..0x108], &pattern);
    assert!(!b.is_dirty());
}

#[test]
fn flash_program_round_trip() {
    let mut b = Backup::new(BackupKind::Flash, false, false);
    let pattern: [u8; 4] = [0x12, 0x34, 0x56, 0x78];
    for (k, &v) in pattern.iter().enumerate() {
        // The documented three-write handshake arms single-byte program.
        b.flash_write(0x5555, 0xaa);
        b.flash_write(0x2aaa, 0x55);
        b.flash_write(0x5555, 0xa0);
        b.flash_write(0x40 + k as u32, v);
    }
    let out = b.export();
    assert_eq!(&out[0x40..0x44], &pattern);
}

#[test]
fn flash_chip_erase_fills_ff() {
    let mut b = Backup::new(BackupKind::Flash, false, false);
    b.flash_write(0x5555, 0xaa);
    b.flash_write(0x2aaa, 0x55);
    b.flash_write(0x5555, 0xa0);
    b.flash_write(0, 0x00);
    assert_eq!(b.flash_read(0), 0x00);
    // Chip erase: arm erase, then the erase-all command.
    b.flash_write(0x5555, 0xaa);
    b.flash_write(0x2aaa, 0x55);
    b.flash_write(0x5555, 0x80);
    b.flash_write(0x5555, 0xaa);
    b.flash_write(0x2aaa, 0x55);
    b.flash_write(0x5555, 0x10);
    assert_eq!(b.flash_read(0), 0xff);
}

#[test]
fn flash_chip_identifier_mode() {
    let mut b = Backup::new(BackupKind::Flash, true, false);
    b.flash_write(0x5555, 0xaa);
    b.flash_write(0x2aaa, 0x55);
    b.flash_write(0x5555, 0x90);
    assert_eq!(b.flash_read(0), 0x62);
    assert_eq!(b.flash_read(1), 0x13);
    b.flash_write(0x5555, 0xaa);
    b.flash_write(0x2aaa, 0x55);
    b.flash_write(0x5555, 0xf0);
    assert_eq!(b.flash_read(0), 0xff);
}

#[test]
fn flash_bank_switch() {
    let mut b = Backup::new(BackupKind::Flash, true, false);
    // Select bank 1 and program one byte there.
    b.flash_write(0x5555, 0xaa);
    b.flash_write(0x2aaa, 0x55);
    b.flash_write(0x5555, 0xb0);
    b.flash_write(0, 1);
    b.flash_write(0x5555, 0xaa);
    b.flash_write(0x2aaa, 0x55);
    b.flash_write(0x5555, 0xa0);
    b.flash_write(0x10, 0x5a);
    let out = b.export();
    assert_eq!(out[0x10000 + 0x10], 0x5a);
    assert_eq!(out[0x10], 0xff);
}

fn eeprom_drive_bits(b: &mut Backup, bits: &[u8]) {
    for &bit in bits {
        b.eeprom_write_bit(bit);
    }
}

#[test]
fn eeprom_serial_round_trip() {
    // The small part: six address bits.
    let mut b = Backup::new(BackupKind::Eeprom, false, true);
    let addr: u32 = 3;
    let value: u64 = 0x0123_4567_89ab_cdef;
    // Write request: start, write mode, address, 64 data bits, stop.
    let mut bits: Vec<u8> = vec![1, 0];
    for k in (0..6).rev() {
        bits.push(((addr >> k) & 1) as u8);
    }
    for k in (0..64).rev() {
        bits.push(((value >> k) & 1) as u8);
    }
    bits.push(0);
    eeprom_drive_bits(&mut b, &bits);
    // Read request: start, read mode, address.
    let mut bits: Vec<u8> = vec![1, 1];
    for k in (0..6).rev() {
        bits.push(((addr >> k) & 1) as u8);
    }
    eeprom_drive_bits(&mut b, &bits);
    // The reply: four filler bits, then the 64 data bits, high bit first.
    let mut got: u64 = 0;
    for _ in 0..4 {
        b.eeprom_read_bit();
    }
    for _ in 0..64 {
        got = (got << 1) | b.eeprom_read_bit() as u64;
    }
    assert_eq!(got, value);
    // The committed bytes are visible through the public export too.
    let out = b.export();
    assert_eq!(&out[24..32], &value.to_be_bytes());
}

#[test]
fn import_rejects_wrong_size() {
    let mut b = Backup::new(BackupKind::Sram, false, false);
    assert!(b.import(&vec![0u8; 0x100]).is_err());
    let seeded = vec![0x5au8; 0x8000];
    assert!(b.import(&seeded).is_ok());
    assert_eq!(b.export(), seeded);
}
