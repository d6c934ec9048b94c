//! Cartridge backup storage: plain battery RAM, bank-switched flash driven
//! by command byte sequences, and a bit-serial EEPROM. The protocol state
//! machines are explicit enums; every transition is stated by a spec
//! mirror, and the exec code is proved to follow it.

use vstd::prelude::*;
use vstd::pervasive::VecAdditionalExecFns;

verus! {

/// The detected backup chip. Fixed once at load time.
#[derive(Clone, Copy, PartialEq, Eq, Structural, Debug)]
pub enum BackupKind {
    /// Battery-backed RAM: direct byte reads and writes.
    Sram,
    /// Flash behind a command protocol, one or two 64 KiB banks.
    Flash,
    /// Serial EEPROM behind an address-then-data bit protocol.
    Eeprom,
}

/// Where a flash chip stands in the three-write command handshake.
#[derive(Clone, Copy, PartialEq, Eq, Structural, Debug)]
pub enum FlashState {
    /// No handshake in progress.
    Ready,
    /// Saw 0xAA at 0x5555.
    Cmd1,
    /// Saw 0x55 at 0x2AAA; the next write is a command.
    Cmd2,
}

/// What the flash chip has been commanded to do next.
#[derive(Clone, Copy, PartialEq, Eq, Structural, Debug)]
pub enum FlashMode {
    /// Plain reads of the array.
    Normal,
    /// Reads return the chip identifier.
    ChipId,
    /// An erase command has been armed.
    Erase,
    /// The next data write programs one byte.
    Program,
    /// The next write to offset 0 selects the bank.
    BankSelect,
}

/// The serial EEPROM's position in its bit protocol.
#[derive(Clone, Copy, PartialEq, Eq, Structural, Debug)]
pub enum EepromMode {
    /// Waiting for a start bit.
    Idle,
    /// Saw the start bit; the next bit picks read or write.
    Start,
    /// Collecting address bits. `read` tells which request this is.
    Addr { read: bool, got: u16, acc: u32 },
    /// Collecting the 64 data bits of a write request.
    WriteData { addr: u32, got: u16, acc: u64 },
    /// The 64 data bits arrived; one stop bit commits them.
    WriteStop { addr: u32, acc: u64 },
    /// A read request is set up; reads stream the 68-bit reply.
    ReadData { addr: u32, pos: u16 },
}

/// Backup storage: the detected kind, the byte array, a changed flag, and
/// the protocol state of whichever chip is present.
#[derive(Clone, PartialEq, Eq, Debug)]
pub struct Backup {
    pub kind: BackupKind,
    /// The stored bytes: 32 KiB for RAM, 64 or 128 KiB for flash, 512 B or
    /// 8 KiB for EEPROM.
    pub data: Vec<u8>,
    /// Set by every completed store; cleared when the contents are
    /// exported.
    pub dirty: bool,
    pub flash_state: FlashState,
    pub flash_mode: FlashMode,
    /// The selected 64 KiB flash bank (0 or 1).
    pub flash_bank: u8,
    /// Whether the flash chip has a second bank.
    pub flash_two_banks: bool,
    pub eeprom_mode: EepromMode,
    /// Address width of the EEPROM request: 6 or 14 bits.
    pub eeprom_addr_bits: u16,
}

/// A well-formed backup: the array has the size its kind dictates and the
/// bank and address-width fields are in range.
pub open spec fn backup_wf(b: Backup) -> bool {
    &&& match b.kind {
        BackupKind::Sram => b.data@.len() == 0x8000,
        BackupKind::Flash => b.data@.len() == (if b.flash_two_banks {
            0x20000int
        } else {
            0x10000int
        }),
        BackupKind::Eeprom => b.data@.len() == (if b.eeprom_addr_bits == 6 {
            0x200int
        } else {
            0x2000int
        }),
    }
    &&& b.flash_bank <= 1
    &&& !b.flash_two_banks ==> b.flash_bank == 0
    &&& b.kind != BackupKind::Flash ==> !b.flash_two_banks
    &&& (b.eeprom_addr_bits == 6 || b.eeprom_addr_bits == 14)
    &&& match b.eeprom_mode {
        EepromMode::Addr { read, got, acc } => got < b.eeprom_addr_bits,
        EepromMode::WriteData { addr, got, acc } => got < 64,
        _ => true,
    }
}

impl Backup {
    /// Fresh storage of the given kind, as a cartridge leaves the factory:
    /// flash and EEPROM erased to 0xFF, RAM zeroed, protocols idle.
    pub fn new(kind: BackupKind, flash_two_banks: bool, eeprom_small: bool) -> (b: Backup)
        ensures
            backup_wf(b),
            b.kind == kind,
            b.dirty == false,
            b.flash_state == FlashState::Ready,
            b.flash_mode == FlashMode::Normal,
            b.flash_bank == 0,
            b.eeprom_mode == EepromMode::Idle,
            kind == BackupKind::Flash ==> b.flash_two_banks == flash_two_banks,
            kind == BackupKind::Eeprom ==> b.eeprom_addr_bits == (if eeprom_small {
                6u16
            } else {
                14u16
            }),
            forall|i: int|
                0 <= i < b.data@.len() ==> b.data@[i] == (if b.kind == BackupKind::Sram {
                    0u8
                } else {
                    0xffu8
                }),
    {
        let two = match kind {
            BackupKind::Flash => flash_two_banks,
            _ => false,
        };
        let bits: u16 = match kind {
            BackupKind::Eeprom => if eeprom_small {
                6
            } else {
                14
            },
            _ => 14,
        };
        let len: usize = match kind {
            BackupKind::Sram => 0x8000,
            BackupKind::Flash => if two {
                0x20000
            } else {
                0x10000
            },
            BackupKind::Eeprom => if bits == 6 {
                0x200
            } else {
                0x2000
            },
        };
        let fill: u8 = match kind {
            BackupKind::Sram => 0,
            _ => 0xff,
        };
        let mut data: Vec<u8> = Vec::new();
        let mut i: usize = 0;
        while i < len
            invariant
                data@.len() == i,
                i <= len,
                forall|j: int| 0 <= j < i ==> data@[j] == fill,
            decreases len - i,
        {
            data.push(fill);
            i = i + 1;
        }
        Backup {
            kind,
            data,
            dirty: false,
            flash_state: FlashState::Ready,
            flash_mode: FlashMode::Normal,
            flash_bank: 0,
            flash_two_banks: two,
            eeprom_mode: EepromMode::Idle,
            eeprom_addr_bits: bits,
        }
    }

    /// Returns the stored bytes for the caller to persist and clears the
    /// changed flag.
    pub fn export(&mut self) -> (out: Vec<u8>)
        ensures
            out@ == old(self).data@,
            *final(self) == (Backup { dirty: false, ..*old(self) }),
    {
        self.dirty = false;
        self.data.clone()
    }

    /// Whether the contents have changed since the last export.
    pub fn is_dirty(&self) -> (d: bool)
        ensures
            d == self.dirty,
    {
        self.dirty
    }

    /// Seeds the storage from an externally supplied buffer. The buffer
    /// must be exactly the size the detected kind uses; anything else is
    /// rejected and nothing changes. Protocol state returns to its
    /// power-on default.
    pub fn import(&mut self, bytes: &Vec<u8>) -> (r: Result<(), ()>)
        ensures
            r is Ok <==> bytes@.len() == old(self).data@.len(),
            r is Ok ==> *final(self) == (Backup {
                data: final(self).data,
                flash_state: FlashState::Ready,
                flash_mode: FlashMode::Normal,
                flash_bank: 0,
                eeprom_mode: EepromMode::Idle,
                ..*old(self)
            }) && final(self).data@ == bytes@,
            r is Err ==> *final(self) == *old(self),
            backup_wf(*old(self)) ==> backup_wf(*final(self)),
    {
        if bytes.len() != self.data.len() {
            return Err(());
        }
        self.data = bytes.clone();
        self.flash_state = FlashState::Ready;
        self.flash_mode = FlashMode::Normal;
        self.flash_bank = 0;
        self.eeprom_mode = EepromMode::Idle;
        Ok(())
    }

    /// A byte store to battery RAM.
    pub fn sram_write(&mut self, off: u32, v: u8)
        requires
            backup_wf(*old(self)),
            old(self).kind == BackupKind::Sram,
        ensures
            backup_wf(*final(self)),
            final(self).data@ == old(self).data@.update((off % 0x8000) as int, v),
            *final(self) == (Backup { data: final(self).data, dirty: true, ..*old(self) }),
    {
        let o = (off % 0x8000) as usize;
        self.data.set(o, v);
        self.dirty = true;
    }

    /// A byte load from battery RAM.
    pub fn sram_read(&self, off: u32) -> (v: u8)
        requires
            backup_wf(*self),
            self.kind == BackupKind::Sram,
        ensures
            v == self.data@[(off % 0x8000) as int],
    {
        self.data[(off % 0x8000) as usize]
    }
}

/// The flash chip's state as the protocol sees it: handshake position,
/// commanded mode, selected bank, and the stored bytes.
pub struct FlashAbs {
    pub state: FlashState,
    pub mode: FlashMode,
    pub bank: u8,
    pub two_banks: bool,
    pub data: Seq<u8>,
    pub dirty: bool,
}

/// The byte offset where the selected bank starts.
pub open spec fn spec_bank_base(f: FlashAbs) -> int {
    if f.bank == 1 {
        0x10000
    } else {
        0
    }
}

/// `s` with the bytes of `[lo, lo + n)` erased to 0xFF.
pub open spec fn spec_erased(s: Seq<u8>, lo: int, n: int) -> Seq<u8> {
    Seq::new(s.len(), |i: int| if lo <= i < lo + n { 0xffu8 } else { s[i] })
}

/// One byte store to the flash region: the documented command protocol.
/// The handshake is 0xAA at 0x5555, 0x55 at 0x2AAA, then a command byte;
/// commands arm chip/sector erase, single-byte programming (which clears
/// bits, as flash hardware does), chip-identifier reads, and bank select.
pub open spec fn spec_flash_write(f: FlashAbs, off: u32, v: u8) -> FlashAbs {
    match f.state {
        FlashState::Ready => {
            if f.mode == FlashMode::Program {
                FlashAbs {
                    mode: FlashMode::Normal,
                    data: f.data.update(
                        spec_bank_base(f) + (off % 0x10000),
                        (f.data[spec_bank_base(f) + (off % 0x10000)] & v) as u8,
                    ),
                    dirty: true,
                    ..f
                }
            } else if f.mode == FlashMode::BankSelect && off % 0x10000 == 0 {
                FlashAbs {
                    mode: FlashMode::Normal,
                    bank: if f.two_banks && v & 1 == 1 {
                        1u8
                    } else {
                        0u8
                    },
                    ..f
                }
            } else if off % 0x10000 == 0x5555 && v == 0xaa {
                FlashAbs { state: FlashState::Cmd1, ..f }
            } else {
                f
            }
        },
        FlashState::Cmd1 => {
            if off % 0x10000 == 0x2aaa && v == 0x55 {
                FlashAbs { state: FlashState::Cmd2, ..f }
            } else {
                FlashAbs { state: FlashState::Ready, ..f }
            }
        },
        FlashState::Cmd2 => {
            let o = off % 0x10000;
            if o == 0x5555 && v == 0x90 {
                FlashAbs { state: FlashState::Ready, mode: FlashMode::ChipId, ..f }
            } else if o == 0x5555 && v == 0xf0 {
                FlashAbs { state: FlashState::Ready, mode: FlashMode::Normal, ..f }
            } else if o == 0x5555 && v == 0x80 {
                FlashAbs { state: FlashState::Ready, mode: FlashMode::Erase, ..f }
            } else if o == 0x5555 && v == 0x10 && f.mode == FlashMode::Erase {
                FlashAbs {
                    state: FlashState::Ready,
                    mode: FlashMode::Normal,
                    data: spec_erased(f.data, 0, f.data.len() as int),
                    dirty: true,
                    ..f
                }
            } else if v == 0x30 && f.mode == FlashMode::Erase {
                FlashAbs {
                    state: FlashState::Ready,
                    mode: FlashMode::Normal,
                    data: spec_erased(f.data, spec_bank_base(f) + ((o as int / 0x1000) * 0x1000), 0x1000),
                    dirty: true,
                    ..f
                }
            } else if o == 0x5555 && v == 0xa0 {
                FlashAbs { state: FlashState::Ready, mode: FlashMode::Program, ..f }
            } else if o == 0x5555 && v == 0xb0 && f.two_banks {
                FlashAbs { state: FlashState::Ready, mode: FlashMode::BankSelect, ..f }
            } else {
                FlashAbs { state: FlashState::Ready, ..f }
            }
        },
    }
}

/// One byte load from the flash region: the chip identifier in identifier
/// mode, the selected bank's byte otherwise. The identifier names a
/// two-bank part when a second bank exists, a one-bank part otherwise.
pub open spec fn spec_flash_read(f: FlashAbs, off: u32) -> u8 {
    if f.mode == FlashMode::ChipId && off % 0x10000 == 0 {
        if f.two_banks {
            0x62
        } else {
            0x32
        }
    } else if f.mode == FlashMode::ChipId && off % 0x10000 == 1 {
        if f.two_banks {
            0x13
        } else {
            0x1b
        }
    } else {
        f.data[spec_bank_base(f) + (off % 0x10000)]
    }
}

impl Backup {
    /// The flash-protocol view of this storage.
    pub open spec fn flash_abs(&self) -> FlashAbs {
        FlashAbs {
            state: self.flash_state,
            mode: self.flash_mode,
            bank: self.flash_bank,
            two_banks: self.flash_two_banks,
            data: self.data@,
            dirty: self.dirty,
        }
    }

    /// Erases `n` bytes starting at `lo` to 0xFF.
    fn erase_range(&mut self, lo: usize, n: usize)
        requires
            lo + n <= old(self).data@.len(),
        ensures
            final(self).data@ == spec_erased(old(self).data@, lo as int, n as int),
            *final(self) == (Backup { data: final(self).data, ..*old(self) }),
    {
        let total: usize = self.data.len();
        let mut i: usize = 0;
        while i < n
            invariant
                lo + n <= total,
                total == self.data@.len(),
                i <= n,
                *self == (Backup { data: self.data, ..*old(self) }),
                self.data@.len() == old(self).data@.len(),
                forall|j: int|
                    0 <= j < self.data@.len() ==> self.data@[j] == (if lo <= j < lo + i {
                        0xffu8
                    } else {
                        old(self).data@[j]
                    }),
            decreases n - i,
        {
            self.data.set(lo + i, 0xff);
            i = i + 1;
        }
        assert(self.data@ =~= spec_erased(old(self).data@, lo as int, n as int));
    }

    /// A byte store to the flash region, stepping the command protocol.
    pub fn flash_write(&mut self, off: u32, v: u8)
        requires
            backup_wf(*old(self)),
            old(self).kind == BackupKind::Flash,
        ensures
            backup_wf(*final(self)),
            final(self).flash_abs() == spec_flash_write(old(self).flash_abs(), off, v),
            final(self).kind == old(self).kind,
            final(self).flash_two_banks == old(self).flash_two_banks,
            final(self).eeprom_mode == old(self).eeprom_mode,
            final(self).eeprom_addr_bits == old(self).eeprom_addr_bits,
    {
        let o: u32 = off % 0x10000;
        let base: usize = if self.flash_bank == 1 {
            0x10000
        } else {
            0
        };
        match self.flash_state {
            FlashState::Ready => {
                if self.flash_mode == FlashMode::Program {
                    let idx = base + o as usize;
                    let cur = self.data[idx];
                    self.data.set(idx, cur & v);
                    self.flash_mode = FlashMode::Normal;
                    self.dirty = true;
                } else if self.flash_mode == FlashMode::BankSelect && o == 0 {
                    self.flash_bank = if self.flash_two_banks && v & 1 == 1 {
                        1
                    } else {
                        0
                    };
                    self.flash_mode = FlashMode::Normal;
                } else if o == 0x5555 && v == 0xaa {
                    self.flash_state = FlashState::Cmd1;
                }
            },
            FlashState::Cmd1 => {
                if o == 0x2aaa && v == 0x55 {
                    self.flash_state = FlashState::Cmd2;
                } else {
                    self.flash_state = FlashState::Ready;
                }
            },
            FlashState::Cmd2 => {
                self.flash_state = FlashState::Ready;
                if o == 0x5555 && v == 0x90 {
                    self.flash_mode = FlashMode::ChipId;
                } else if o == 0x5555 && v == 0xf0 {
                    self.flash_mode = FlashMode::Normal;
                } else if o == 0x5555 && v == 0x80 {
                    self.flash_mode = FlashMode::Erase;
                } else if o == 0x5555 && v == 0x10 && self.flash_mode == FlashMode::Erase {
                    let n = self.data.len();
                    self.erase_range(0, n);
                    self.flash_mode = FlashMode::Normal;
                    self.dirty = true;
                } else if v == 0x30 && self.flash_mode == FlashMode::Erase {
                    let sector = base + (o as usize / 0x1000) * 0x1000;
                    self.erase_range(sector, 0x1000);
                    self.flash_mode = FlashMode::Normal;
                    self.dirty = true;
                } else if o == 0x5555 && v == 0xa0 {
                    self.flash_mode = FlashMode::Program;
                } else if o == 0x5555 && v == 0xb0 && self.flash_two_banks {
                    self.flash_mode = FlashMode::BankSelect;
                }
            },
        }
    }

    /// A byte load from the flash region.
    pub fn flash_read(&self, off: u32) -> (v: u8)
        requires
            backup_wf(*self),
            self.kind == BackupKind::Flash,
        ensures
            v == spec_flash_read(self.flash_abs(), off),
    {
        let o: u32 = off % 0x10000;
        if self.flash_mode == FlashMode::ChipId && o == 0 {
            if self.flash_two_banks {
                0x62
            } else {
                0x32
            }
        } else if self.flash_mode == FlashMode::ChipId && o == 1 {
            if self.flash_two_banks {
                0x13
            } else {
                0x1b
            }
        } else {
            let base: usize = if self.flash_bank == 1 {
                0x10000
            } else {
                0
            };
            self.data[base + o as usize]
        }
    }
}

/// The EEPROM's state as the protocol sees it.
pub struct EepromAbs {
    pub mode: EepromMode,
    pub addr_bits: u16,
    pub data: Seq<u8>,
    pub dirty: bool,
}

/// The eight-byte cell an address selects, wrapped into the array.
pub open spec fn spec_eeprom_cell(addr: u32, len: int) -> int {
    (addr as int % (len / 8)) * 8
}

/// `s` with the eight bytes of the cell at `base` replaced by the 64-bit
/// value `acc`, most significant byte first, as the serial protocol
/// delivers them.
pub open spec fn spec_eeprom_commit(s: Seq<u8>, base: int, acc: u64) -> Seq<u8> {
    Seq::new(
        s.len(),
        |i: int|
            if base <= i < base + 8 {
                ((acc >> (((56 - 8 * (i - base)) as u64) as u32)) & 0xff) as u8
            } else {
                s[i]
            },
    )
}

/// One bit written to the EEPROM: a start bit, then a read/write bit, then
/// the address, then for a write 64 data bits and a stop bit that commits
/// them. Bits beyond a finished read request are ignored until a new start
/// bit arrives.
pub open spec fn spec_eeprom_write_bit(e: EepromAbs, b: u8) -> EepromAbs {
    match e.mode {
        EepromMode::Idle => {
            if b == 1 {
                EepromAbs { mode: EepromMode::Start, ..e }
            } else {
                e
            }
        },
        EepromMode::Start => {
            EepromAbs { mode: EepromMode::Addr { read: b == 1, got: 0, acc: 0 }, ..e }
        },
        EepromMode::Addr { read, got, acc } => {
            let acc2 = ((acc << 1) | b as u32) as u32;
            if got + 1 < e.addr_bits {
                EepromAbs { mode: EepromMode::Addr { read, got: (got + 1) as u16, acc: acc2 }, ..e }
            } else if read {
                EepromAbs { mode: EepromMode::ReadData { addr: acc2, pos: 0 }, ..e }
            } else {
                EepromAbs { mode: EepromMode::WriteData { addr: acc2, got: 0, acc: 0 }, ..e }
            }
        },
        EepromMode::WriteData { addr, got, acc } => {
            let acc2 = ((acc << 1) | b as u64) as u64;
            if got + 1 < 64 {
                EepromAbs {
                    mode: EepromMode::WriteData { addr, got: (got + 1) as u16, acc: acc2 },
                    ..e
                }
            } else {
                EepromAbs { mode: EepromMode::WriteStop { addr, acc: acc2 }, ..e }
            }
        },
        EepromMode::WriteStop { addr, acc } => {
            EepromAbs {
                mode: EepromMode::Idle,
                data: spec_eeprom_commit(
                    e.data,
                    spec_eeprom_cell(addr, e.data.len() as int),
                    acc,
                ),
                dirty: true,
                ..e
            }
        },
        EepromMode::ReadData { addr, pos } => {
            if pos >= 68 && b == 1 {
                EepromAbs { mode: EepromMode::Start, ..e }
            } else {
                e
            }
        },
    }
}

/// One bit read from the EEPROM: a set-up read request streams four filler
/// bits and then the 64 data bits of the addressed cell, most significant
/// first; in every other state the chip reports ready (1).
pub open spec fn spec_eeprom_read_bit(e: EepromAbs) -> (EepromAbs, u8) {
    match e.mode {
        EepromMode::ReadData { addr, pos } => {
            if pos < 4 {
                (EepromAbs { mode: EepromMode::ReadData { addr, pos: (pos + 1) as u16 }, ..e }, 0)
            } else if pos < 68 {
                let idx = pos - 4;
                let byte = e.data[spec_eeprom_cell(addr, e.data.len() as int) + idx / 8];
                let bit = ((byte >> (((7 - idx % 8) as u16) as u32)) & 1) as u8;
                (
                    EepromAbs { mode: EepromMode::ReadData { addr, pos: (pos + 1) as u16 }, ..e },
                    bit,
                )
            } else {
                (e, 1)
            }
        },
        _ => (e, 1),
    }
}

impl Backup {
    /// The serial-protocol view of this storage.
    pub open spec fn eeprom_abs(&self) -> EepromAbs {
        EepromAbs {
            mode: self.eeprom_mode,
            addr_bits: self.eeprom_addr_bits,
            data: self.data@,
            dirty: self.dirty,
        }
    }

    /// Drives one bit of a serial request into the EEPROM.
    pub fn eeprom_write_bit(&mut self, b: u8)
        requires
            backup_wf(*old(self)),
            old(self).kind == BackupKind::Eeprom,
            b <= 1,
        ensures
            backup_wf(*final(self)),
            final(self).eeprom_abs() == spec_eeprom_write_bit(old(self).eeprom_abs(), b),
            final(self).kind == old(self).kind,
            final(self).flash_state == old(self).flash_state,
            final(self).flash_mode == old(self).flash_mode,
            final(self).flash_bank == old(self).flash_bank,
            final(self).flash_two_banks == old(self).flash_two_banks,
    {
        match self.eeprom_mode {
            EepromMode::Idle => {
                if b == 1 {
                    self.eeprom_mode = EepromMode::Start;
                }
            },
            EepromMode::Start => {
                self.eeprom_mode = EepromMode::Addr { read: b == 1, got: 0, acc: 0 };
            },
            EepromMode::Addr { read, got, acc } => {
                let acc2: u32 = (acc << 1) | b as u32;
                if got + 1 < self.eeprom_addr_bits {
                    self.eeprom_mode = EepromMode::Addr { read, got: got + 1, acc: acc2 };
                } else if read {
                    self.eeprom_mode = EepromMode::ReadData { addr: acc2, pos: 0 };
                } else {
                    self.eeprom_mode = EepromMode::WriteData { addr: acc2, got: 0, acc: 0 };
                }
            },
            EepromMode::WriteData { addr, got, acc } => {
                let acc2: u64 = (acc << 1) | b as u64;
                if got + 1 < 64 {
                    self.eeprom_mode = EepromMode::WriteData { addr, got: got + 1, acc: acc2 };
                } else {
                    self.eeprom_mode = EepromMode::WriteStop { addr, acc: acc2 };
                }
            },
            EepromMode::WriteStop { addr, acc } => {
                self.eeprom_commit(addr, acc);
                self.eeprom_mode = EepromMode::Idle;
                self.dirty = true;
            },
            EepromMode::ReadData { addr, pos } => {
                if pos >= 68 && b == 1 {
                    self.eeprom_mode = EepromMode::Start;
                }
            },
        }
    }

    /// Stores the eight bytes of a completed write request.
    fn eeprom_commit(&mut self, addr: u32, acc: u64)
        requires
            old(self).data@.len() == 0x200 || old(self).data@.len() == 0x2000,
        ensures
            final(self).data@ == spec_eeprom_commit(
                old(self).data@,
                spec_eeprom_cell(addr, old(self).data@.len() as int),
                acc,
            ),
            *final(self) == (Backup { data: final(self).data, ..*old(self) }),
    {
        let slots: usize = self.data.len() / 8;
        let base: usize = (addr as usize % slots) * 8;
        proof {
            assert(
                (addr as usize % slots) * 8 + 8 <= slots * 8
            ) by (nonlinear_arith)
                requires
                    slots > 0 && addr as usize % slots < slots,
            ;
        }
        let mut j: usize = 0;
        while j < 8
            invariant
                base + 8 <= self.data@.len(),
                base == spec_eeprom_cell(addr, old(self).data@.len() as int),
                j <= 8,
                *self == (Backup { data: self.data, ..*old(self) }),
                self.data@.len() == old(self).data@.len(),
                forall|i: int|
                    0 <= i < self.data@.len() ==> self.data@[i] == (if base <= i < base + j {
                        ((acc >> (((56 - 8 * (i - base)) as u64) as u32)) & 0xff) as u8
                    } else {
                        old(self).data@[i]
                    }),
            decreases 8 - j,
        {
            let shift: u32 = 56 - 8 * (j as u32);
            self.data.set(base + j, ((acc >> shift) & 0xff) as u8);
            j = j + 1;
        }
        assert(self.data@ =~= spec_eeprom_commit(
            old(self).data@,
            spec_eeprom_cell(addr, old(self).data@.len() as int),
            acc,
        ));
    }

    /// Reads one bit of a serial reply from the EEPROM.
    pub fn eeprom_read_bit(&mut self) -> (b: u8)
        requires
            backup_wf(*old(self)),
            old(self).kind == BackupKind::Eeprom,
        ensures
            backup_wf(*final(self)),
            final(self).eeprom_abs() == spec_eeprom_read_bit(old(self).eeprom_abs()).0,
            b == spec_eeprom_read_bit(old(self).eeprom_abs()).1,
            final(self).data@ == old(self).data@,
            final(self).kind == old(self).kind,
    {
        match self.eeprom_mode {
            EepromMode::ReadData { addr, pos } => {
                if pos < 4 {
                    self.eeprom_mode = EepromMode::ReadData { addr, pos: pos + 1 };
                    0
                } else if pos < 68 {
                    let idx: u16 = pos - 4;
                    let slots: usize = self.data.len() / 8;
                    let base: usize = (addr as usize % slots) * 8;
                    proof {
                        assert((addr as usize % slots) * 8 + 8 <= slots * 8) by (nonlinear_arith)
                            requires
                                slots > 0 && addr as usize % slots < slots,
                        ;
                    }
                    let byte = self.data[base + (idx / 8) as usize];
                    let bit = (byte >> (7 - (idx % 8)) as u32) & 1;
                    self.eeprom_mode = EepromMode::ReadData { addr, pos: pos + 1 };
                    bit
                } else {
                    1
                }
            },
            _ => 1,
        }
    }
}

} // verus!
