//! The cartridge: immutable BIOS and ROM byte buffers, the backup chip
//! detected from identifier strings in the ROM, and the backup storage
//! itself. Loading fails loudly when a buffer is truncated; the detected
//! backup kind never changes afterwards.

use vstd::prelude::*;
use crate::backup::{Backup, BackupKind, backup_wf};

verus! {

/// A needle matches `hay` at position `i`.
pub open spec fn spec_match_at(hay: Seq<u8>, pat: Seq<u8>, i: int) -> bool {
    &&& 0 <= i
    &&& i + pat.len() <= hay.len()
    &&& forall|j: int| 0 <= j < pat.len() ==> hay[i + j] == pat[j]
}

/// A needle occurs somewhere in `hay`.
pub open spec fn spec_contains(hay: Seq<u8>, pat: Seq<u8>) -> bool {
    exists|i: int| spec_match_at(hay, pat, i)
}

/// Whether `pat` occurs in `hay`.
pub fn contains_pattern(hay: &Vec<u8>, pat: &Vec<u8>) -> (r: bool)
    requires
        pat@.len() >= 1,
    ensures
        r == spec_contains(hay@, pat@),
{
    if pat.len() > hay.len() {
        assert(forall|i: int| !spec_match_at(hay@, pat@, i));
        return false;
    }
    let n: usize = hay.len();
    let last: usize = n - pat.len();
    let mut i: usize = 0;
    while i <= last
        invariant
            n == hay@.len(),
            last == hay@.len() - pat@.len(),
            pat@.len() >= 1,
            i <= last + 1 <= n,
            forall|k: int| 0 <= k < i ==> !spec_match_at(hay@, pat@, k),
        decreases last - i + 1,
    {
        let mut j: usize = 0;
        let mut hit = true;
        while j < pat.len()
            invariant
                n == hay@.len(),
                i + pat@.len() <= n,
                i + pat@.len() <= hay@.len(),
                j <= pat@.len(),
                hit == (forall|l: int| 0 <= l < j ==> hay@[i + l] == pat@[l]),
            decreases pat@.len() - j,
        {
            if hay[i + j] != pat[j] {
                hit = false;
                j = pat.len();
            } else {
                j = j + 1;
            }
        }
        if hit {
            assert(spec_match_at(hay@, pat@, i as int));
            return true;
        }
        i = i + 1;
    }
    assert(forall|k: int| !spec_match_at(hay@, pat@, k));
    false
}

/// The identifier string of battery RAM carts.
pub open spec fn spec_sram_tag() -> Seq<u8> {
    seq![83u8, 82u8, 65u8, 77u8, 95u8, 86u8]
}

/// The identifier string of serial EEPROM carts.
pub open spec fn spec_eeprom_tag() -> Seq<u8> {
    seq![69u8, 69u8, 80u8, 82u8, 79u8, 77u8, 95u8, 86u8]
}

/// The identifier string of two-bank (128 KiB) flash carts.
pub open spec fn spec_flash1m_tag() -> Seq<u8> {
    seq![70u8, 76u8, 65u8, 83u8, 72u8, 49u8, 77u8, 95u8, 86u8]
}

/// The identifier string of one-bank flash carts.
pub open spec fn spec_flash_tag() -> Seq<u8> {
    seq![70u8, 76u8, 65u8, 83u8, 72u8, 95u8, 86u8]
}

/// The identifier string of the older one-bank (64 KiB) flash carts.
pub open spec fn spec_flash512_tag() -> Seq<u8> {
    seq![70u8, 76u8, 65u8, 83u8, 72u8, 53u8, 49u8, 50u8, 95u8, 86u8]
}

/// The backup kind a ROM image selects, with whether a flash chip has two
/// banks: EEPROM, battery RAM and two-bank flash by their identifier
/// strings, then the one-bank flash strings, and battery RAM when no
/// string is present.
pub open spec fn spec_detect(rom: Seq<u8>) -> (BackupKind, bool) {
    if spec_contains(rom, spec_eeprom_tag()) {
        (BackupKind::Eeprom, false)
    } else if spec_contains(rom, spec_sram_tag()) {
        (BackupKind::Sram, false)
    } else if spec_contains(rom, spec_flash1m_tag()) {
        (BackupKind::Flash, true)
    } else if spec_contains(rom, spec_flash512_tag()) || spec_contains(rom, spec_flash_tag()) {
        (BackupKind::Flash, false)
    } else {
        (BackupKind::Sram, false)
    }
}

/// Scans a ROM image for the known backup identifier strings.
pub fn detect_backup(rom: &Vec<u8>) -> (r: (BackupKind, bool))
    ensures
        r == spec_detect(rom@),
{
    let mut eeprom_tag: Vec<u8> = Vec::new();
    eeprom_tag.push(69);
    eeprom_tag.push(69);
    eeprom_tag.push(80);
    eeprom_tag.push(82);
    eeprom_tag.push(79);
    eeprom_tag.push(77);
    eeprom_tag.push(95);
    eeprom_tag.push(86);
    assert(eeprom_tag@ =~= spec_eeprom_tag());
    if contains_pattern(rom, &eeprom_tag) {
        return (BackupKind::Eeprom, false);
    }
    let mut sram_tag: Vec<u8> = Vec::new();
    sram_tag.push(83);
    sram_tag.push(82);
    sram_tag.push(65);
    sram_tag.push(77);
    sram_tag.push(95);
    sram_tag.push(86);
    assert(sram_tag@ =~= spec_sram_tag());
    if contains_pattern(rom, &sram_tag) {
        return (BackupKind::Sram, false);
    }
    let mut flash1m_tag: Vec<u8> = Vec::new();
    flash1m_tag.push(70);
    flash1m_tag.push(76);
    flash1m_tag.push(65);
    flash1m_tag.push(83);
    flash1m_tag.push(72);
    flash1m_tag.push(49);
    flash1m_tag.push(77);
    flash1m_tag.push(95);
    flash1m_tag.push(86);
    assert(flash1m_tag@ =~= spec_flash1m_tag());
    if contains_pattern(rom, &flash1m_tag) {
        return (BackupKind::Flash, true);
    }
    let mut flash512_tag: Vec<u8> = Vec::new();
    flash512_tag.push(70);
    flash512_tag.push(76);
    flash512_tag.push(65);
    flash512_tag.push(83);
    flash512_tag.push(72);
    flash512_tag.push(53);
    flash512_tag.push(49);
    flash512_tag.push(50);
    flash512_tag.push(95);
    flash512_tag.push(86);
    assert(flash512_tag@ =~= spec_flash512_tag());
    if contains_pattern(rom, &flash512_tag) {
        return (BackupKind::Flash, false);
    }
    let mut flash_tag: Vec<u8> = Vec::new();
    flash_tag.push(70);
    flash_tag.push(76);
    flash_tag.push(65);
    flash_tag.push(83);
    flash_tag.push(72);
    flash_tag.push(95);
    flash_tag.push(86);
    assert(flash_tag@ =~= spec_flash_tag());
    if contains_pattern(rom, &flash_tag) {
        return (BackupKind::Flash, false);
    }
    (BackupKind::Sram, false)
}

/// Why a cartridge could not be loaded.
#[derive(Clone, Copy, PartialEq, Eq, Structural, Debug)]
pub enum LoadError {
    /// The BIOS buffer is shorter than the 16 KiB the hardware maps.
    BiosTruncated,
    /// The ROM buffer is shorter than the 192-byte cartridge header.
    RomTruncated,
}

/// The cartridge and BIOS.
pub struct GamePack {
    /// The 16 KiB system ROM.
    pub bios: Vec<u8>,
    /// The cartridge ROM image.
    pub rom: Vec<u8>,
    /// The detected backup storage.
    pub backup: Backup,
}

/// A well-formed pack: buffers at least their minimum sizes, backup
/// storage well-formed.
pub open spec fn pack_wf(p: GamePack) -> bool {
    &&& p.bios@.len() >= 0x4000
    &&& 0xc0 <= p.rom@.len() <= 0x2000000
    &&& backup_wf(p.backup)
}

impl GamePack {
    /// Builds a pack from raw BIOS and ROM bytes, detecting the backup
    /// kind from the ROM. Fails, and does nothing else, exactly when a
    /// buffer is truncated below its minimum viable size or the ROM is
    /// larger than the 32 MiB window.
    pub fn new(bios: Vec<u8>, rom: Vec<u8>) -> (r: Result<GamePack, LoadError>)
        ensures
            r is Ok <==> bios@.len() >= 0x4000 && 0xc0 <= rom@.len() <= 0x2000000,
            r is Ok ==> {
                let p = r->Ok_0;
                &&& pack_wf(p)
                &&& p.bios@ == bios@
                &&& p.rom@ == rom@
                &&& p.backup.kind == spec_detect(rom@).0
                &&& p.backup.kind == BackupKind::Flash ==> p.backup.flash_two_banks == spec_detect(
                    rom@,
                ).1
                &&& p.backup.dirty == false
            },
            r is Err ==> (r->Err_0 == LoadError::BiosTruncated <==> bios@.len() < 0x4000),
    {
        if bios.len() < 0x4000 {
            return Err(LoadError::BiosTruncated);
        }
        if rom.len() < 0xc0 || rom.len() > 0x2000000 {
            return Err(LoadError::RomTruncated);
        }
        let (kind, two_banks) = detect_backup(&rom);
        let backup = Backup::new(kind, two_banks, false);
        Ok(GamePack { bios, rom, backup })
    }

    /// A byte of the ROM window. The ROM mirrors across the 32 MiB
    /// window; beyond the image the bus floats and yields the address
    /// pattern the hardware is known to return, half-word index low byte
    /// then high byte.
    pub fn rom_read8(&self, off: u32) -> (v: u8)
        requires
            pack_wf(*self),
            off < 0x2000000,
        ensures
            v == spec_rom_byte(self.rom@, off),
    {
        if (off as usize) < self.rom.len() {
            self.rom[off as usize]
        } else {
            let half: u32 = (off / 2) % 0x10000;
            if off % 2 == 0 {
                (half & 0xff) as u8
            } else {
                (half >> 8) as u8
            }
        }
    }
}

/// The byte the ROM window yields at `off`: the image itself inside it,
/// the floating address pattern beyond it.
pub open spec fn spec_rom_byte(rom: Seq<u8>, off: u32) -> u8 {
    if off < rom.len() {
        rom[off as int]
    } else {
        let half = (off / 2) % 0x10000;
        if off % 2 == 0 {
            (half & 0xff) as u8
        } else {
            (half >> 8) as u8
        }
    }
}

} // verus!
