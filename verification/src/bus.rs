//! The memory bus: every address resolves to exactly one region — BIOS,
//! the two work RAMs, the I/O registers, palette/VRAM/OAM, cartridge ROM
//! or backup — or to the open-bus fallback. Misaligned half-word and word
//! accesses are forced down to their boundary, and misaligned word reads
//! rotate the fetched word, as the hardware does.

use vstd::prelude::*;
use vstd::pervasive::VecAdditionalExecFns;
use crate::bits::{spec_half, spec_ror, half_from_bytes, half_lo, half_hi, word_from_halves, word_lo, word_hi, ror};
use crate::backup::{BackupKind, spec_flash_read, spec_flash_write, spec_eeprom_write_bit, spec_eeprom_read_bit};
use crate::gamepack::{GamePack, pack_wf, spec_rom_byte};
use crate::ppu::{Ppu, ppu_wf, PpuStep, spec_dispstat};
use crate::timers::{Timers, spec_timer_control};
use crate::dma::{DmaChannel, spec_dma_control};
use crate::interrupts::InterruptControl;

verus! {

/// The bus and every region it dispatches to.
pub struct Bus {
    pub pack: GamePack,
    /// On-board work RAM, 256 KiB.
    pub ewram: Vec<u8>,
    /// On-chip work RAM, 32 KiB.
    pub iwram: Vec<u8>,
    /// Palette RAM, 1 KiB.
    pub palette: Vec<u8>,
    /// Video RAM, 96 KiB.
    pub vram: Vec<u8>,
    /// Object attribute memory, 1 KiB.
    pub oam: Vec<u8>,
    pub ppu: Ppu,
    pub timers: Timers,
    pub dma0: DmaChannel,
    pub dma1: DmaChannel,
    pub dma2: DmaChannel,
    pub dma3: DmaChannel,
    pub irq: InterruptControl,
    /// The key-input register, active low (the caller writes it).
    pub key_input: u16,
    /// The last fetched opcode: what floating reads return.
    pub open_bus: u32,
    /// The last fetch address; BIOS bytes are readable only while it lies
    /// inside the BIOS.
    pub last_fetch: u32,
    /// Set by a write to the halt register; cleared by an interrupt.
    pub halted: bool,
}

/// A well-formed bus: each RAM region at its hardware size.
pub open spec fn bus_wf(b: Bus) -> bool {
    &&& pack_wf(b.pack)
    &&& b.ewram@.len() == 0x40000
    &&& b.iwram@.len() == 0x8000
    &&& b.palette@.len() == 0x400
    &&& b.vram@.len() == 0x18000
    &&& b.oam@.len() == 0x400
    &&& ppu_wf(b.ppu)
}

/// The VRAM byte index an address selects: 128 KiB mirror with the upper
/// 32 KiB window folded onto the sprite half.
pub open spec fn spec_vram_index(addr: u32) -> int {
    let a = addr % 0x20000;
    if a >= 0x18000 {
        a - 0x8000
    } else {
        a as int
    }
}

/// The byte an I/O-register read returns at even offset `off`, low half;
/// registers the machine does not model read as the floating bus.
pub open spec fn spec_io_read16(b: Bus, off: u32) -> u16 {
    if off == 0x00 {
        b.ppu.dispcnt
    } else if off == 0x04 {
        spec_dispstat(b.ppu)
    } else if off == 0x06 {
        b.ppu.vcount
    } else if off == 0x08 {
        b.ppu.bg0cnt
    } else if off == 0x0a {
        b.ppu.bg1cnt
    } else if off == 0x0c {
        b.ppu.bg2cnt
    } else if off == 0x0e {
        b.ppu.bg3cnt
    } else if off == 0x48 {
        b.ppu.winin
    } else if off == 0x4a {
        b.ppu.winout
    } else if off == 0x50 {
        b.ppu.bldcnt
    } else if off == 0x52 {
        b.ppu.bldalpha
    } else if off == 0xba {
        spec_dma_control(b.dma0)
    } else if off == 0xc6 {
        spec_dma_control(b.dma1)
    } else if off == 0xd2 {
        spec_dma_control(b.dma2)
    } else if off == 0xde {
        spec_dma_control(b.dma3)
    } else if off == 0x100 {
        b.timers.t0.counter
    } else if off == 0x102 {
        spec_timer_control(b.timers.t0)
    } else if off == 0x104 {
        b.timers.t1.counter
    } else if off == 0x106 {
        spec_timer_control(b.timers.t1)
    } else if off == 0x108 {
        b.timers.t2.counter
    } else if off == 0x10a {
        spec_timer_control(b.timers.t2)
    } else if off == 0x10c {
        b.timers.t3.counter
    } else if off == 0x10e {
        spec_timer_control(b.timers.t3)
    } else if off == 0x130 {
        b.key_input
    } else if off == 0x200 {
        b.irq.enable
    } else if off == 0x202 {
        b.irq.pending
    } else if off == 0x208 {
        if b.irq.master {
            1
        } else {
            0
        }
    } else {
        (b.open_bus & 0xffff) as u16
    }
}

/// The byte a read returns at `addr`: each region's own byte inside its
/// window, BIOS only while execution stands inside it, the cartridge
/// through its mirror rule, and the open bus everywhere else. The
/// bit-serial EEPROM region reads as ready (1) at byte width.
pub open spec fn spec_read8(b: Bus, addr: u32) -> u8 {
    let region = addr >> 24;
    if region == 0 {
        if addr < 0x4000 && b.last_fetch < 0x4000 {
            b.pack.bios@[addr as int]
        } else {
            spec_open_byte(b, addr)
        }
    } else if region == 2 {
        b.ewram@[(addr % 0x40000) as int]
    } else if region == 3 {
        b.iwram@[(addr % 0x8000) as int]
    } else if region == 4 {
        if (addr % 0x1000000) < 0x400 {
            let off = addr % 0x1000000;
            let h = spec_io_read16(b, ((off / 2 * 2) as u32));
            if off % 2 == 0 {
                (h % 256) as u8
            } else {
                (h >> 8) as u8
            }
        } else {
            spec_open_byte(b, addr)
        }
    } else if region == 5 {
        b.palette@[(addr % 0x400) as int]
    } else if region == 6 {
        b.vram@[spec_vram_index(addr)]
    } else if region == 7 {
        b.oam@[(addr % 0x400) as int]
    } else if 8 <= region <= 0xc {
        spec_rom_byte(b.pack.rom@, addr % 0x2000000)
    } else if region == 0xd {
        if b.pack.backup.kind == BackupKind::Eeprom {
            1
        } else {
            spec_rom_byte(b.pack.rom@, addr % 0x2000000)
        }
    } else if region == 0xe || region == 0xf {
        match b.pack.backup.kind {
            BackupKind::Sram => b.pack.backup.data@[(addr % 0x8000) as int],
            BackupKind::Flash => spec_flash_read(b.pack.backup.flash_abs(), addr % 0x10000),
            BackupKind::Eeprom => 0xff,
        }
    } else {
        spec_open_byte(b, addr)
    }
}

/// The byte the floating bus yields: the lane of the last fetched opcode.
pub open spec fn spec_open_byte(b: Bus, addr: u32) -> u8 {
    ((b.open_bus >> ((addr % 4) * 8)) & 0xff) as u8
}


/// Only the backup storage differs between the two bus states.
pub open spec fn spec_only_backup_changed(before: Bus, after: Bus) -> bool {
    &&& after == (Bus { pack: after.pack, ..before })
    &&& after.pack == (GamePack { backup: after.pack.backup, ..before.pack })
}

/// What a byte write into the I/O window leaves: the interrupt-pending
/// bytes and the halt register take the byte directly; every other
/// register merges it into its half-word, read-modify-write.
pub open spec fn spec_write8_io(before: Bus, after: Bus, off: int, v: u8) -> bool {
    if off >= 0x400 {
        after == before
    } else if off == 0x202 {
        after == (Bus {
            irq: InterruptControl {
                pending: (before.irq.pending & !(v as u16)) as u16,
                ..before.irq
            },
            ..before
        })
    } else if off == 0x203 {
        after == (Bus {
            irq: InterruptControl {
                pending: (before.irq.pending & !((v as u16) << 8)) as u16,
                ..before.irq
            },
            ..before
        })
    } else if off == 0x208 {
        after == (Bus { irq: InterruptControl { master: v & 1 == 1, ..before.irq }, ..before })
    } else if off == 0x301 {
        after == (Bus { halted: true, ..before })
    } else {
        let h = spec_io_read16(before, ((off / 2 * 2) as u32));
        let merged: u16 = if off % 2 == 0 {
            ((h & 0xff00) | v as u16) as u16
        } else {
            ((h & 0x00ff) | ((v as u16) << 8)) as u16
        };
        after == spec_io_write16(before, ((off / 2 * 2) as u32), merged)
    }
}

impl Bus {
    /// Reads one byte.
    pub fn read8(&self, addr: u32) -> (v: u8)
        requires
            bus_wf(*self),
        ensures
            v == spec_read8(*self, addr),
    {
        let region = addr >> 24;
        if region == 0 {
            if addr < 0x4000 && self.last_fetch < 0x4000 {
                self.pack.bios[addr as usize]
            } else {
                self.open_byte(addr)
            }
        } else if region == 2 {
            self.ewram[(addr % 0x40000) as usize]
        } else if region == 3 {
            self.iwram[(addr % 0x8000) as usize]
        } else if region == 4 {
            let off = addr % 0x1000000;
            if off < 0x400 {
                let h = self.io_read16(off / 2 * 2);
                if off % 2 == 0 {
                    half_lo(h)
                } else {
                    half_hi(h)
                }
            } else {
                self.open_byte(addr)
            }
        } else if region == 5 {
            self.palette[(addr % 0x400) as usize]
        } else if region == 6 {
            let a = addr % 0x20000;
            if a >= 0x18000 {
                self.vram[(a - 0x8000) as usize]
            } else {
                self.vram[a as usize]
            }
        } else if region == 7 {
            self.oam[(addr % 0x400) as usize]
        } else if 8 <= region && region <= 0xc {
            self.pack.rom_read8(addr % 0x2000000)
        } else if region == 0xd {
            if matches!(self.pack.backup.kind, BackupKind::Eeprom) {
                1
            } else {
                self.pack.rom_read8(addr % 0x2000000)
            }
        } else if region == 0xe || region == 0xf {
            match self.pack.backup.kind {
                BackupKind::Sram => self.pack.backup.sram_read(addr % 0x8000),
                BackupKind::Flash => self.pack.backup.flash_read(addr % 0x10000),
                BackupKind::Eeprom => 0xff,
            }
        } else {
            self.open_byte(addr)
        }
    }

    /// The floating-bus byte for `addr`.
    fn open_byte(&self, addr: u32) -> (v: u8)
        ensures
            v == spec_open_byte(*self, addr),
    {
        ((self.open_bus >> ((addr % 4) * 8)) & 0xff) as u8
    }

    /// Reads one modeled I/O half-word at an even offset.
    pub fn io_read16(&self, off: u32) -> (v: u16)
        requires
            bus_wf(*self),
            off % 2 == 0,
        ensures
            v == spec_io_read16(*self, off),
    {
        if off == 0x00 {
            self.ppu.dispcnt
        } else if off == 0x04 {
            self.ppu.read_dispstat()
        } else if off == 0x06 {
            self.ppu.vcount
        } else if off == 0x08 {
            self.ppu.bg0cnt
        } else if off == 0x0a {
            self.ppu.bg1cnt
        } else if off == 0x0c {
            self.ppu.bg2cnt
        } else if off == 0x0e {
            self.ppu.bg3cnt
        } else if off == 0x48 {
            self.ppu.winin
        } else if off == 0x4a {
            self.ppu.winout
        } else if off == 0x50 {
            self.ppu.bldcnt
        } else if off == 0x52 {
            self.ppu.bldalpha
        } else if off == 0xba {
            self.dma0.read_control()
        } else if off == 0xc6 {
            self.dma1.read_control()
        } else if off == 0xd2 {
            self.dma2.read_control()
        } else if off == 0xde {
            self.dma3.read_control()
        } else if off == 0x100 {
            self.timers.t0.counter
        } else if off == 0x102 {
            self.timers.t0.read_control()
        } else if off == 0x104 {
            self.timers.t1.counter
        } else if off == 0x106 {
            self.timers.t1.read_control()
        } else if off == 0x108 {
            self.timers.t2.counter
        } else if off == 0x10a {
            self.timers.t2.read_control()
        } else if off == 0x10c {
            self.timers.t3.counter
        } else if off == 0x10e {
            self.timers.t3.read_control()
        } else if off == 0x130 {
            self.key_input
        } else if off == 0x200 {
            self.irq.enable
        } else if off == 0x202 {
            self.irq.pending
        } else if off == 0x208 {
            if self.irq.master {
                1
            } else {
                0
            }
        } else {
            (self.open_bus & 0xffff) as u16
        }
    }

}


/// What an I/O half-word write at even offset `off` leaves behind. The
/// interrupt-pending register clears exactly the bits written as 1 and
/// never sets one; a timer or DMA enable edge latches as those modules
/// state; registers the machine does not model ignore the write.
pub open spec fn spec_io_write16(b: Bus, off: u32, v: u16) -> Bus {
    if off < 0x60 {
        spec_io_write_ppu(b, off, v)
    } else if 0xb0 <= off < 0xe0 {
        spec_io_write_dma(b, off, v)
    } else if 0x100 <= off < 0x110 {
        spec_io_write_timer(b, off, v)
    } else {
        spec_io_write_misc(b, off, v)
    }
}

/// Display-register writes.
#[verifier::opaque]
pub open spec fn spec_io_write_ppu(b: Bus, off: u32, v: u16) -> Bus {
    if off == 0x00 {
        Bus { ppu: Ppu { dispcnt: v, ..b.ppu }, ..b }
    } else if off == 0x04 {
        Bus { ppu: Ppu { dispstat: (v & 0xfff8) as u16, ..b.ppu }, ..b }
    } else if off == 0x08 {
        Bus { ppu: Ppu { bg0cnt: v, ..b.ppu }, ..b }
    } else if off == 0x0a {
        Bus { ppu: Ppu { bg1cnt: v, ..b.ppu }, ..b }
    } else if off == 0x0c {
        Bus { ppu: Ppu { bg2cnt: v, ..b.ppu }, ..b }
    } else if off == 0x0e {
        Bus { ppu: Ppu { bg3cnt: v, ..b.ppu }, ..b }
    } else if off == 0x10 {
        Bus { ppu: Ppu { bg0hofs: (v & 0x1ff) as u16, ..b.ppu }, ..b }
    } else if off == 0x12 {
        Bus { ppu: Ppu { bg0vofs: (v & 0x1ff) as u16, ..b.ppu }, ..b }
    } else if off == 0x14 {
        Bus { ppu: Ppu { bg1hofs: (v & 0x1ff) as u16, ..b.ppu }, ..b }
    } else if off == 0x16 {
        Bus { ppu: Ppu { bg1vofs: (v & 0x1ff) as u16, ..b.ppu }, ..b }
    } else if off == 0x18 {
        Bus { ppu: Ppu { bg2hofs: (v & 0x1ff) as u16, ..b.ppu }, ..b }
    } else if off == 0x1a {
        Bus { ppu: Ppu { bg2vofs: (v & 0x1ff) as u16, ..b.ppu }, ..b }
    } else if off == 0x1c {
        Bus { ppu: Ppu { bg3hofs: (v & 0x1ff) as u16, ..b.ppu }, ..b }
    } else if off == 0x1e {
        Bus { ppu: Ppu { bg3vofs: (v & 0x1ff) as u16, ..b.ppu }, ..b }
    } else if off == 0x20 {
        Bus { ppu: Ppu { bg2pa: v, ..b.ppu }, ..b }
    } else if off == 0x22 {
        Bus { ppu: Ppu { bg2pb: v, ..b.ppu }, ..b }
    } else if off == 0x24 {
        Bus { ppu: Ppu { bg2pc: v, ..b.ppu }, ..b }
    } else if off == 0x26 {
        Bus { ppu: Ppu { bg2pd: v, ..b.ppu }, ..b }
    } else if off == 0x28 {
        Bus { ppu: Ppu { bg2x: spec_set_lo(b.ppu.bg2x, v), ..b.ppu }, ..b }
    } else if off == 0x2a {
        Bus { ppu: Ppu { bg2x: spec_set_hi(b.ppu.bg2x, v), ..b.ppu }, ..b }
    } else if off == 0x2c {
        Bus { ppu: Ppu { bg2y: spec_set_lo(b.ppu.bg2y, v), ..b.ppu }, ..b }
    } else if off == 0x2e {
        Bus { ppu: Ppu { bg2y: spec_set_hi(b.ppu.bg2y, v), ..b.ppu }, ..b }
    } else if off == 0x30 {
        Bus { ppu: Ppu { bg3pa: v, ..b.ppu }, ..b }
    } else if off == 0x32 {
        Bus { ppu: Ppu { bg3pb: v, ..b.ppu }, ..b }
    } else if off == 0x34 {
        Bus { ppu: Ppu { bg3pc: v, ..b.ppu }, ..b }
    } else if off == 0x36 {
        Bus { ppu: Ppu { bg3pd: v, ..b.ppu }, ..b }
    } else if off == 0x38 {
        Bus { ppu: Ppu { bg3x: spec_set_lo(b.ppu.bg3x, v), ..b.ppu }, ..b }
    } else if off == 0x3a {
        Bus { ppu: Ppu { bg3x: spec_set_hi(b.ppu.bg3x, v), ..b.ppu }, ..b }
    } else if off == 0x3c {
        Bus { ppu: Ppu { bg3y: spec_set_lo(b.ppu.bg3y, v), ..b.ppu }, ..b }
    } else if off == 0x3e {
        Bus { ppu: Ppu { bg3y: spec_set_hi(b.ppu.bg3y, v), ..b.ppu }, ..b }
    } else if off == 0x40 {
        Bus { ppu: Ppu { win0h: v, ..b.ppu }, ..b }
    } else if off == 0x42 {
        Bus { ppu: Ppu { win1h: v, ..b.ppu }, ..b }
    } else if off == 0x44 {
        Bus { ppu: Ppu { win0v: v, ..b.ppu }, ..b }
    } else if off == 0x46 {
        Bus { ppu: Ppu { win1v: v, ..b.ppu }, ..b }
    } else if off == 0x48 {
        Bus { ppu: Ppu { winin: v, ..b.ppu }, ..b }
    } else if off == 0x4a {
        Bus { ppu: Ppu { winout: v, ..b.ppu }, ..b }
    } else if off == 0x4c {
        Bus { ppu: Ppu { mosaic: v, ..b.ppu }, ..b }
    } else if off == 0x50 {
        Bus { ppu: Ppu { bldcnt: v, ..b.ppu }, ..b }
    } else if off == 0x52 {
        Bus { ppu: Ppu { bldalpha: v, ..b.ppu }, ..b }
    } else if off == 0x54 {
        Bus { ppu: Ppu { bldy: v, ..b.ppu }, ..b }
    } else {
        b
    }
}

/// One DMA channel's register file: offsets 0/2 the source address, 4/6
/// the destination, 8 the count, 10 the control.
pub open spec fn spec_dma_reg_write(c: DmaChannel, reg: u32, v: u16) -> DmaChannel {
    if reg == 0 {
        DmaChannel { src_reg: spec_set_lo(c.src_reg, v), ..c }
    } else if reg == 2 {
        DmaChannel { src_reg: spec_set_hi(c.src_reg, v), ..c }
    } else if reg == 4 {
        DmaChannel { dst_reg: spec_set_lo(c.dst_reg, v), ..c }
    } else if reg == 6 {
        DmaChannel { dst_reg: spec_set_hi(c.dst_reg, v), ..c }
    } else if reg == 8 {
        DmaChannel { count_reg: v, ..c }
    } else if reg == 10 {
        crate::dma::spec_dma_write_control(c, v)
    } else {
        c
    }
}

/// DMA writes: the four channels at stride 12 from offset 0xb0.
pub open spec fn spec_io_write_dma(b: Bus, off: u32, v: u16) -> Bus {
    let ch = (off - 0xb0) / 12;
    let reg = ((off - 0xb0) % 12) as u32;
    if ch == 0 {
        Bus { dma0: spec_dma_reg_write(b.dma0, reg, v), ..b }
    } else if ch == 1 {
        Bus { dma1: spec_dma_reg_write(b.dma1, reg, v), ..b }
    } else if ch == 2 {
        Bus { dma2: spec_dma_reg_write(b.dma2, reg, v), ..b }
    } else {
        Bus { dma3: spec_dma_reg_write(b.dma3, reg, v), ..b }
    }
}

/// One timer channel's register file: offset 0 the reload, 2 the control.
pub open spec fn spec_timer_reg_write(
    t: crate::timers::TimerChannel,
    reg: u32,
    v: u16,
) -> crate::timers::TimerChannel {
    if reg == 0 {
        crate::timers::TimerChannel { reload: v, ..t }
    } else {
        crate::timers::spec_timer_write_control(t, v)
    }
}

/// Timer writes: the four channels at stride 4 from offset 0x100.
pub open spec fn spec_io_write_timer(b: Bus, off: u32, v: u16) -> Bus {
    let ch = (off - 0x100) / 4;
    let reg = ((off - 0x100) % 4) as u32;
    if ch == 0 {
        Bus { timers: Timers { t0: spec_timer_reg_write(b.timers.t0, reg, v), ..b.timers }, ..b }
    } else if ch == 1 {
        Bus { timers: Timers { t1: spec_timer_reg_write(b.timers.t1, reg, v), ..b.timers }, ..b }
    } else if ch == 2 {
        Bus { timers: Timers { t2: spec_timer_reg_write(b.timers.t2, reg, v), ..b.timers }, ..b }
    } else {
        Bus { timers: Timers { t3: spec_timer_reg_write(b.timers.t3, reg, v), ..b.timers }, ..b }
    }
}

/// Interrupt-controller and halt writes.
pub open spec fn spec_io_write_misc(b: Bus, off: u32, v: u16) -> Bus {
    if off == 0x200 {
        Bus { irq: InterruptControl { enable: v, ..b.irq }, ..b }
    } else if off == 0x202 {
        Bus { irq: InterruptControl { pending: (b.irq.pending & !v) as u16, ..b.irq }, ..b }
    } else if off == 0x208 {
        Bus { irq: InterruptControl { master: v & 1 == 1, ..b.irq }, ..b }
    } else if off == 0x300 {
        Bus { halted: v & 0x8000 == 0x8000 || b.halted, ..b }
    } else {
        b
    }
}

/// A 32-bit register with its low half replaced.
pub open spec fn spec_set_lo(r: u32, v: u16) -> u32 {
    ((r & 0xffff_0000) | v as u32) as u32
}

/// A 32-bit register with its high half replaced.
pub open spec fn spec_set_hi(r: u32, v: u16) -> u32 {
    ((r & 0xffff) | ((v as u32) << 16)) as u32
}

impl Bus {
    /// Writes one modeled I/O half-word at an even offset.
    pub fn io_write16(&mut self, off: u32, v: u16)
        requires
            bus_wf(*old(self)),
            off % 2 == 0,
        ensures
            bus_wf(*final(self)),
            *final(self) == spec_io_write16(*old(self), off, v),
    {
        if off < 0x60 {
            self.io_write_ppu(off, v);
        } else if 0xb0 <= off && off < 0xe0 {
            self.io_write_dma(off, v);
        } else if 0x100 <= off && off < 0x110 {
            self.io_write_timer(off, v);
        } else {
            self.io_write_misc(off, v);
        }
    }

    /// Display-register half of the I/O write dispatch.
    #[verifier::rlimit(100)]
    #[verifier::spinoff_prover]
    fn io_write_ppu(&mut self, off: u32, v: u16)
        requires
            bus_wf(*old(self)),
            off % 2 == 0,
            off < 0x60,
        ensures
            bus_wf(*final(self)),
            *final(self) == spec_io_write16(*old(self), off, v),
    {
        proof {
            reveal(spec_io_write_ppu);
        }
        if off == 0x00 {
            self.ppu.dispcnt = v;
        } else if off == 0x04 {
            self.ppu.dispstat = v & 0xfff8;
        } else if off == 0x08 {
            self.ppu.bg0cnt = v;
        } else if off == 0x0a {
            self.ppu.bg1cnt = v;
        } else if off == 0x0c {
            self.ppu.bg2cnt = v;
        } else if off == 0x0e {
            self.ppu.bg3cnt = v;
        } else if off == 0x10 {
            self.ppu.bg0hofs = v & 0x1ff;
        } else if off == 0x12 {
            self.ppu.bg0vofs = v & 0x1ff;
        } else if off == 0x14 {
            self.ppu.bg1hofs = v & 0x1ff;
        } else if off == 0x16 {
            self.ppu.bg1vofs = v & 0x1ff;
        } else if off == 0x18 {
            self.ppu.bg2hofs = v & 0x1ff;
        } else if off == 0x1a {
            self.ppu.bg2vofs = v & 0x1ff;
        } else if off == 0x1c {
            self.ppu.bg3hofs = v & 0x1ff;
        } else if off == 0x1e {
            self.ppu.bg3vofs = v & 0x1ff;
        } else if off == 0x20 {
            self.ppu.bg2pa = v;
        } else if off == 0x22 {
            self.ppu.bg2pb = v;
        } else if off == 0x24 {
            self.ppu.bg2pc = v;
        } else if off == 0x26 {
            self.ppu.bg2pd = v;
        } else if off == 0x28 {
            self.ppu.bg2x = (self.ppu.bg2x & 0xffff_0000) | v as u32;
        } else if off == 0x2a {
            self.ppu.bg2x = (self.ppu.bg2x & 0xffff) | ((v as u32) << 16);
        } else if off == 0x2c {
            self.ppu.bg2y = (self.ppu.bg2y & 0xffff_0000) | v as u32;
        } else if off == 0x2e {
            self.ppu.bg2y = (self.ppu.bg2y & 0xffff) | ((v as u32) << 16);
        } else if off == 0x30 {
            self.ppu.bg3pa = v;
        } else if off == 0x32 {
            self.ppu.bg3pb = v;
        } else if off == 0x34 {
            self.ppu.bg3pc = v;
        } else if off == 0x36 {
            self.ppu.bg3pd = v;
        } else if off == 0x38 {
            self.ppu.bg3x = (self.ppu.bg3x & 0xffff_0000) | v as u32;
        } else if off == 0x3a {
            self.ppu.bg3x = (self.ppu.bg3x & 0xffff) | ((v as u32) << 16);
        } else if off == 0x3c {
            self.ppu.bg3y = (self.ppu.bg3y & 0xffff_0000) | v as u32;
        } else if off == 0x3e {
            self.ppu.bg3y = (self.ppu.bg3y & 0xffff) | ((v as u32) << 16);
        } else if off == 0x40 {
            self.ppu.win0h = v;
        } else if off == 0x42 {
            self.ppu.win1h = v;
        } else if off == 0x44 {
            self.ppu.win0v = v;
        } else if off == 0x46 {
            self.ppu.win1v = v;
        } else if off == 0x48 {
            self.ppu.winin = v;
        } else if off == 0x4a {
            self.ppu.winout = v;
        } else if off == 0x4c {
            self.ppu.mosaic = v;
        } else if off == 0x50 {
            self.ppu.bldcnt = v;
        } else if off == 0x52 {
            self.ppu.bldalpha = v;
        } else if off == 0x54 {
            self.ppu.bldy = v;
        }
    }

    /// DMA-register half of the I/O write dispatch.
    fn io_write_dma(&mut self, off: u32, v: u16)
        requires
            bus_wf(*old(self)),
            off % 2 == 0,
            0xb0 <= off < 0xe0,
        ensures
            bus_wf(*final(self)),
            *final(self) == spec_io_write16(*old(self), off, v),
    {
        let ch = (off - 0xb0) / 12;
        let reg = (off - 0xb0) % 12;
        if ch == 0 {
            dma_reg_write(&mut self.dma0, reg, v);
        } else if ch == 1 {
            dma_reg_write(&mut self.dma1, reg, v);
        } else if ch == 2 {
            dma_reg_write(&mut self.dma2, reg, v);
        } else {
            dma_reg_write(&mut self.dma3, reg, v);
        }
    }

    /// Timer-register half of the I/O write dispatch.
    fn io_write_timer(&mut self, off: u32, v: u16)
        requires
            bus_wf(*old(self)),
            off % 2 == 0,
            0x100 <= off < 0x110,
        ensures
            bus_wf(*final(self)),
            *final(self) == spec_io_write16(*old(self), off, v),
    {
        let ch = (off - 0x100) / 4;
        let reg = (off - 0x100) % 4;
        if ch == 0 {
            timer_reg_write(&mut self.timers.t0, reg, v);
        } else if ch == 1 {
            timer_reg_write(&mut self.timers.t1, reg, v);
        } else if ch == 2 {
            timer_reg_write(&mut self.timers.t2, reg, v);
        } else {
            timer_reg_write(&mut self.timers.t3, reg, v);
        }
    }

    /// Interrupt and halt registers of the I/O write dispatch.
    fn io_write_misc(&mut self, off: u32, v: u16)
        requires
            bus_wf(*old(self)),
            off % 2 == 0,
            !(off < 0x60) && !(0xb0 <= off < 0xe0) && !(0x100 <= off < 0x110),
        ensures
            bus_wf(*final(self)),
            *final(self) == spec_io_write16(*old(self), off, v),
    {
        if off == 0x200 {
            self.irq.write_enable(v);
        } else if off == 0x202 {
            self.irq.acknowledge(v);
        } else if off == 0x208 {
            self.irq.write_master(v);
        } else if off == 0x300 {
            if v & 0x8000 == 0x8000 {
                self.halted = true;
            }
        }
    }

    /// Writes one byte. Work RAM, palette, VRAM, OAM and the backup
    /// regions take the byte exactly; ROM ignores it; an I/O byte write
    /// merges into the register's half-word.
    pub fn write8(&mut self, addr: u32, v: u8)
        requires
            bus_wf(*old(self)),
        ensures
            bus_wf(*final(self)),
            (addr >> 24) == 2 ==> *final(self) == (Bus {
                ewram: final(self).ewram,
                ..*old(self)
            }) && final(self).ewram@ == old(self).ewram@.update((addr % 0x40000) as int, v),
            (addr >> 24) == 3 ==> *final(self) == (Bus {
                iwram: final(self).iwram,
                ..*old(self)
            }) && final(self).iwram@ == old(self).iwram@.update((addr % 0x8000) as int, v),
            (addr >> 24) == 5 ==> *final(self) == (Bus {
                palette: final(self).palette,
                ..*old(self)
            }) && final(self).palette@ == old(self).palette@.update((addr % 0x400) as int, v),
            (addr >> 24) == 6 ==> *final(self) == (Bus { vram: final(self).vram, ..*old(self) })
                && final(self).vram@ == old(self).vram@.update(spec_vram_index(addr), v),
            (addr >> 24) == 7 ==> *final(self) == (Bus { oam: final(self).oam, ..*old(self) })
                && final(self).oam@ == old(self).oam@.update((addr % 0x400) as int, v),
            ((addr >> 24) == 0xe || (addr >> 24) == 0xf) && old(self).pack.backup.kind
                == BackupKind::Sram ==> spec_only_backup_changed(*old(self), *final(self))
                && final(self).pack.backup == (crate::backup::Backup {
                data: final(self).pack.backup.data,
                dirty: true,
                ..old(self).pack.backup
            }) && final(self).pack.backup.data@ == old(self).pack.backup.data@.update(
                (addr % 0x8000) as int,
                v,
            ),
            ((addr >> 24) == 0xe || (addr >> 24) == 0xf) && old(self).pack.backup.kind
                == BackupKind::Flash ==> spec_only_backup_changed(*old(self), *final(self))
                && final(self).pack.backup.flash_abs() == spec_flash_write(
                old(self).pack.backup.flash_abs(),
                addr % 0x10000,
                v,
            ) && final(self).pack.backup.kind == old(self).pack.backup.kind && final(self).pack.backup.flash_two_banks == old(self).pack.backup.flash_two_banks && final(self).pack.backup.eeprom_mode == old(self).pack.backup.eeprom_mode && final(self).pack.backup.eeprom_addr_bits == old(self).pack.backup.eeprom_addr_bits,
            ((addr >> 24) == 0xe || (addr >> 24) == 0xf) && old(self).pack.backup.kind
                == BackupKind::Eeprom ==> *final(self) == *old(self),
            (addr >> 24) == 4 ==> spec_write8_io(*old(self), *final(self), (addr % 0x1000000) as int, v),
            (addr >> 24) == 0 || (addr >> 24) == 1 || (8 <= (addr >> 24) <= 0xd) || (addr >> 24)
                >= 0x10 ==> *final(self) == *old(self),
            final(self).ppu.vcount == old(self).ppu.vcount,
            final(self).ppu.dot == old(self).ppu.dot,
    {
        let region = addr >> 24;
        if region == 2 {
            self.ewram.set((addr % 0x40000) as usize, v);
        } else if region == 3 {
            self.iwram.set((addr % 0x8000) as usize, v);
        } else if region == 4 {
            let off = addr % 0x1000000;
            if off < 0x400 {
                if off == 0x202 {
                    self.irq.acknowledge(v as u16);
                } else if off == 0x203 {
                    self.irq.acknowledge((v as u16) << 8);
                } else if off == 0x208 {
                    self.irq.write_master(v as u16);
                } else if off == 0x301 {
                    self.halted = true;
                } else {
                    let a = off / 2 * 2;
                    let h = self.io_read16(a);
                    let merged = if off % 2 == 0 {
                        (h & 0xff00) | v as u16
                    } else {
                        (h & 0x00ff) | ((v as u16) << 8)
                    };
                    self.io_write16(a, merged);
                    proof {
                        lemma_io_write16_keeps_counters(*old(self), a, merged);
                    }
                }
            }
        } else if region == 5 {
            self.palette.set((addr % 0x400) as usize, v);
        } else if region == 6 {
            let a = addr % 0x20000;
            if a >= 0x18000 {
                self.vram.set((a - 0x8000) as usize, v);
            } else {
                self.vram.set(a as usize, v);
            }
        } else if region == 7 {
            self.oam.set((addr % 0x400) as usize, v);
        } else if region == 0xe || region == 0xf {
            match self.pack.backup.kind {
                BackupKind::Sram => self.pack.backup.sram_write(addr % 0x8000, v),
                BackupKind::Flash => self.pack.backup.flash_write(addr % 0x10000, v),
                BackupKind::Eeprom => {},
            }
        }
    }

    /// Reads a half-word: the address is forced down to its boundary. In
    /// the serial EEPROM's window the read is one reply bit and steps the
    /// protocol; everywhere else the state is untouched and the value is
    /// the two bytes of the region, little-endian.
    pub fn read16(&mut self, addr: u32) -> (v: u16)
        requires
            bus_wf(*old(self)),
        ensures
            bus_wf(*final(self)),
            ({
                let a = addr & 0xffff_fffe;
                if (addr >> 24) == 0xd && old(self).pack.backup.kind == BackupKind::Eeprom {
                    &&& *final(self) == (Bus { pack: final(self).pack, ..*old(self) })
                    &&& final(self).pack.backup.eeprom_abs() == spec_eeprom_read_bit(
                        old(self).pack.backup.eeprom_abs(),
                    ).0
                    &&& v == spec_eeprom_read_bit(old(self).pack.backup.eeprom_abs()).1 as u16
                } else {
                    &&& *final(self) == *old(self)
                    &&& v == spec_half(spec_read8(*old(self), a), spec_read8(*old(self), ((a + 1) as u32)))
                }
            }),
    {
        let a = addr & 0xffff_fffe;
        proof {
            assert(a + 1 <= 0xffff_ffff) by (bit_vector)
                requires
                    a == addr & 0xffff_fffe,
            ;
        }
        if (addr >> 24) == 0xd && matches!(self.pack.backup.kind, BackupKind::Eeprom) {
            let b = self.pack.backup.eeprom_read_bit();
            b as u16
        } else {
            half_from_bytes(self.read8(a), self.read8(a + 1))
        }
    }

    /// Reads a word: the address is forced down to its word boundary and
    /// the fetched word is rotated right by eight bits per byte of
    /// misalignment, as the hardware does.
    pub fn read32(&mut self, addr: u32) -> (v: u32)
        requires
            bus_wf(*old(self)),
        ensures
            bus_wf(*final(self)),
            !((addr >> 24) == 0xd && old(self).pack.backup.kind == BackupKind::Eeprom) ==> {
                &&& *final(self) == *old(self)
                &&& v == spec_ror(spec_word_at(*old(self), addr & 0xffff_fffc), (((addr % 4) * 8) as u32))
            },
            (addr >> 24) == 0xd && old(self).pack.backup.kind == BackupKind::Eeprom ==> ({
                let first = spec_eeprom_read_bit(old(self).pack.backup.eeprom_abs());
                let second = spec_eeprom_read_bit(first.0);
                &&& *final(self) == (Bus { pack: final(self).pack, ..*old(self) })
                &&& final(self).pack.backup.eeprom_abs() == second.0
                &&& v == spec_ror(
                    crate::bits::spec_word(first.1 as u16, second.1 as u16),
                    (((addr % 4) * 8) as u32),
                )
            }),
    {
        let a = addr & 0xffff_fffc;
        proof {
            assert(a + 2 <= 0xffff_ffff && a & 0xffff_fffe == a && a >> 24 == addr >> 24 && a % 4
                == 0) by (bit_vector)
                requires
                    a == addr & 0xffff_fffc,
            ;
        }
        let a2: u32 = a + 2;
        proof {
            assert(a2 & 0xffff_fffe == a2 && a2 >> 24 == a >> 24) by (bit_vector)
                requires
                    a2 == a + 2 && a == addr & 0xffff_fffc,
            ;
        }
        let lo = self.read16(a);
        let hi = self.read16(a2);
        let w = word_from_halves(lo, hi);
        ror(w, (addr % 4) * 8)
    }

    /// Writes a half-word at its boundary: low byte then high byte; in the
    /// serial EEPROM's window the low bit is driven into the protocol.
    #[verifier::rlimit(100)]
    #[verifier::spinoff_prover]
    pub fn write16(&mut self, addr: u32, v: u16)
        requires
            bus_wf(*old(self)),
        ensures
            bus_wf(*final(self)),
            spec_write16_effect(*old(self), *final(self), addr, v),
            final(self).ppu.vcount == old(self).ppu.vcount,
            final(self).ppu.dot == old(self).ppu.dot,
    {
        let a = addr & 0xffff_fffe;
        let region = addr >> 24;
        if region == 0xd && matches!(self.pack.backup.kind, BackupKind::Eeprom) {
            proof {
                assert(v & 1 <= 1) by (bit_vector);
            }
            self.pack.backup.eeprom_write_bit((v & 1) as u8);
        } else if region == 4 {
            let off = addr % 0x1000000;
            if off < 0x400 {
                proof {
                    assert(off & 0xffff_fffe == off / 2 * 2 && (off & 0xffff_fffe) % 2 == 0)
                        by (bit_vector);
                }
                self.io_write16(off & 0xffff_fffe, v);
                proof {
                    lemma_io_write16_keeps_counters(*old(self), off & 0xffff_fffe, v);
                }
            }
        } else {
            proof {
                assert(a + 1 <= 0xffff_ffff && a >> 24 == addr >> 24 && a % 2 == 0)
                    by (bit_vector)
                    requires
                        a == addr & 0xffff_fffe,
                ;
            }
            let a1: u32 = a + 1;
            proof {
                assert(a1 >> 24 == addr >> 24) by (bit_vector)
                    requires
                        a1 == a + 1 && a == addr & 0xffff_fffe,
                ;
            }
            self.write8(a, half_lo(v));
            self.write8(a1, half_hi(v));
        }
    }

    /// Writes a word at its boundary: the two half-words in order.
    #[verifier::rlimit(100)]
    #[verifier::spinoff_prover]
    pub fn write32(&mut self, addr: u32, v: u32)
        requires
            bus_wf(*old(self)),
        ensures
            bus_wf(*final(self)),
            spec_write32_effect(*old(self), *final(self), addr, v),
            final(self).ppu.vcount == old(self).ppu.vcount,
            final(self).ppu.dot == old(self).ppu.dot,
    {
        let a = addr & 0xffff_fffc;
        proof {
            assert(a + 2 <= 0xffff_ffff && a >> 24 == addr >> 24 && a % 4 == 0 && a
                & 0xffff_fffe == a) by (bit_vector)
                requires
                    a == addr & 0xffff_fffc,
            ;
        }
        let a2: u32 = a + 2;
        proof {
            assert(a2 >> 24 == addr >> 24 && a2 & 0xffff_fffe == a2 && a2 % 0x1000000 == a
                % 0x1000000 + 2 && a % 0x1000000 % 2 == 0 && a2 % 0x1000000 % 2 == 0 && (a
                % 0x1000000 < 0x400 ==> a % 0x1000000 / 2 * 2 == a % 0x1000000 && a % 0x1000000
                + 2 < 0x400) && (a % 0x1000000 >= 0x400 ==> a2 % 0x1000000 >= 0x400) && a2
                % 0x1000000 / 2 * 2 == a2 % 0x1000000) by (bit_vector)
                requires
                    a2 == a + 2 && a == addr & 0xffff_fffc,
            ;
        }
        self.write16(a, word_lo(v));
        self.write16(a2, word_hi(v));
    }
}


/// What a half-word write leaves, region by region: its two bytes land at
/// the forced-down address and its successor; the I/O window takes the
/// half-word whole; the serial EEPROM takes the low bit; read-only and
/// unmapped regions ignore it.
pub open spec fn spec_write16_effect(b0: Bus, b1: Bus, addr: u32, v: u16) -> bool {
    let a = (addr & 0xffff_fffe) as int;
    let region = addr >> 24;
    let lo = (v % 256) as u8;
    let hi = (v >> 8) as u8;
    if region == 0xd && b0.pack.backup.kind == BackupKind::Eeprom {
        &&& b1 == (Bus { pack: b1.pack, ..b0 })
        &&& b1.pack.backup.eeprom_abs() == spec_eeprom_write_bit(
            b0.pack.backup.eeprom_abs(),
            (v & 1) as u8,
        )
    } else if region == 4 {
        if (addr % 0x1000000) < 0x400 {
            b1 == spec_io_write16(b0, (((addr % 0x1000000) / 2 * 2) as u32), v)
        } else {
            b1 == b0
        }
    } else if region == 2 {
        &&& b1 == (Bus { ewram: b1.ewram, ..b0 })
        &&& b1.ewram@ == b0.ewram@.update(a % 0x40000, lo).update((a + 1) % 0x40000, hi)
    } else if region == 3 {
        &&& b1 == (Bus { iwram: b1.iwram, ..b0 })
        &&& b1.iwram@ == b0.iwram@.update(a % 0x8000, lo).update((a + 1) % 0x8000, hi)
    } else if region == 5 {
        &&& b1 == (Bus { palette: b1.palette, ..b0 })
        &&& b1.palette@ == b0.palette@.update(a % 0x400, lo).update((a + 1) % 0x400, hi)
    } else if region == 6 {
        &&& b1 == (Bus { vram: b1.vram, ..b0 })
        &&& b1.vram@ == b0.vram@.update(spec_vram_index(a as u32), lo).update(
            spec_vram_index((a + 1) as u32),
            hi,
        )
    } else if region == 7 {
        &&& b1 == (Bus { oam: b1.oam, ..b0 })
        &&& b1.oam@ == b0.oam@.update(a % 0x400, lo).update((a + 1) % 0x400, hi)
    } else if region == 0xe || region == 0xf {
        match b0.pack.backup.kind {
            BackupKind::Sram => {
                &&& spec_only_backup_changed(b0, b1)
                &&& b1.pack.backup == (crate::backup::Backup {
                    data: b1.pack.backup.data,
                    dirty: true,
                    ..b0.pack.backup
                })
                &&& b1.pack.backup.data@ == b0.pack.backup.data@.update(a % 0x8000, lo).update(
                    (a + 1) % 0x8000,
                    hi,
                )
            },
            BackupKind::Flash => {
                &&& spec_only_backup_changed(b0, b1)
                &&& b1.pack.backup.flash_abs() == spec_flash_write(
                    spec_flash_write(b0.pack.backup.flash_abs(), ((a % 0x10000) as u32), lo),
                    (((a + 1) % 0x10000) as u32),
                    hi,
                )
                &&& b1.pack.backup.kind == b0.pack.backup.kind
                &&& b1.pack.backup.flash_two_banks == b0.pack.backup.flash_two_banks
                &&& b1.pack.backup.eeprom_mode == b0.pack.backup.eeprom_mode
                &&& b1.pack.backup.eeprom_addr_bits == b0.pack.backup.eeprom_addr_bits
            },
            BackupKind::Eeprom => b1 == b0,
        }
    } else {
        b1 == b0
    }
}


/// What a word write leaves: its four bytes land ascending from the
/// word-aligned address; the I/O window takes the two half-words in
/// order; the serial EEPROM takes one bit per half-word.
pub open spec fn spec_write32_effect(b0: Bus, b1: Bus, addr: u32, v: u32) -> bool {
    let a = (addr & 0xffff_fffc) as int;
    let region = addr >> 24;
    let lo16 = (v % 0x10000) as u16;
    let hi16 = (v >> 16) as u16;
    let y0 = (lo16 % 256) as u8;
    let y1 = (lo16 >> 8) as u8;
    let y2 = (hi16 % 256) as u8;
    let y3 = (hi16 >> 8) as u8;
    if region == 0xd && b0.pack.backup.kind == BackupKind::Eeprom {
        &&& b1 == (Bus { pack: b1.pack, ..b0 })
        &&& b1.pack.backup.eeprom_abs() == spec_eeprom_write_bit(
            spec_eeprom_write_bit(b0.pack.backup.eeprom_abs(), (lo16 & 1) as u8),
            (hi16 & 1) as u8,
        )
    } else if region == 4 {
        if (a % 0x1000000) < 0x400 {
            b1 == spec_io_write16(
                spec_io_write16(b0, ((a % 0x1000000) as u32), lo16),
                ((a % 0x1000000 + 2) as u32),
                hi16,
            )
        } else {
            b1 == b0
        }
    } else if region == 2 {
        &&& b1 == (Bus { ewram: b1.ewram, ..b0 })
        &&& b1.ewram@ == b0.ewram@.update(a % 0x40000, y0).update((a + 1) % 0x40000, y1).update(
            (a + 2) % 0x40000,
            y2,
        ).update((a + 3) % 0x40000, y3)
    } else if region == 3 {
        &&& b1 == (Bus { iwram: b1.iwram, ..b0 })
        &&& b1.iwram@ == b0.iwram@.update(a % 0x8000, y0).update((a + 1) % 0x8000, y1).update(
            (a + 2) % 0x8000,
            y2,
        ).update((a + 3) % 0x8000, y3)
    } else if region == 5 {
        &&& b1 == (Bus { palette: b1.palette, ..b0 })
        &&& b1.palette@ == b0.palette@.update(a % 0x400, y0).update((a + 1) % 0x400, y1).update(
            (a + 2) % 0x400,
            y2,
        ).update((a + 3) % 0x400, y3)
    } else if region == 6 {
        &&& b1 == (Bus { vram: b1.vram, ..b0 })
        &&& b1.vram@ == b0.vram@.update(spec_vram_index(a as u32), y0).update(
            spec_vram_index((a + 1) as u32),
            y1,
        ).update(spec_vram_index((a + 2) as u32), y2).update(spec_vram_index((a + 3) as u32), y3)
    } else if region == 7 {
        &&& b1 == (Bus { oam: b1.oam, ..b0 })
        &&& b1.oam@ == b0.oam@.update(a % 0x400, y0).update((a + 1) % 0x400, y1).update(
            (a + 2) % 0x400,
            y2,
        ).update((a + 3) % 0x400, y3)
    } else if region == 0xe || region == 0xf {
        match b0.pack.backup.kind {
            BackupKind::Sram => {
                &&& spec_only_backup_changed(b0, b1)
                &&& b1.pack.backup == (crate::backup::Backup {
                    data: b1.pack.backup.data,
                    dirty: true,
                    ..b0.pack.backup
                })
                &&& b1.pack.backup.data@ == b0.pack.backup.data@.update(a % 0x8000, y0).update(
                    (a + 1) % 0x8000,
                    y1,
                ).update((a + 2) % 0x8000, y2).update((a + 3) % 0x8000, y3)
            },
            BackupKind::Flash => {
                &&& spec_only_backup_changed(b0, b1)
                &&& b1.pack.backup.flash_abs() == spec_flash_write(
                    spec_flash_write(
                        spec_flash_write(
                            spec_flash_write(
                                b0.pack.backup.flash_abs(),
                                ((a % 0x10000) as u32),
                                y0,
                            ),
                            (((a + 1) % 0x10000) as u32),
                            y1,
                        ),
                        (((a + 2) % 0x10000) as u32),
                        y2,
                    ),
                    (((a + 3) % 0x10000) as u32),
                    y3,
                )
                &&& b1.pack.backup.kind == b0.pack.backup.kind
                &&& b1.pack.backup.flash_two_banks == b0.pack.backup.flash_two_banks
                &&& b1.pack.backup.eeprom_mode == b0.pack.backup.eeprom_mode
                &&& b1.pack.backup.eeprom_addr_bits == b0.pack.backup.eeprom_addr_bits
            },
            BackupKind::Eeprom => b1 == b0,
        }
    } else {
        b1 == b0
    }
}


/// An I/O write never moves the dot clock: the scanline and dot counters
/// are read-only to software.
#[verifier::rlimit(100)]
#[verifier::spinoff_prover]
pub proof fn lemma_io_write16_keeps_counters(b: Bus, off: u32, v: u16)
    ensures
        spec_io_write16(b, off, v).ppu.vcount == b.ppu.vcount,
        spec_io_write16(b, off, v).ppu.dot == b.ppu.dot,
{
    reveal(spec_io_write_ppu);
}

/// The aligned word at `a`: its four bytes, little-endian.
pub open spec fn spec_word_at(b: Bus, a: u32) -> u32 {
    crate::bits::spec_word(
        spec_half(spec_read8(b, a), spec_read8(b, ((a + 1) as u32))),
        spec_half(spec_read8(b, ((a + 2) as u32)), spec_read8(b, ((a + 3) as u32))),
    )
}


/// Writes one register of a DMA channel.
fn dma_reg_write(c: &mut DmaChannel, reg: u32, v: u16)
    ensures
        *final(c) == spec_dma_reg_write(*old(c), reg, v),
{
    if reg == 0 {
        c.src_reg = (c.src_reg & 0xffff_0000) | v as u32;
    } else if reg == 2 {
        c.src_reg = (c.src_reg & 0xffff) | ((v as u32) << 16);
    } else if reg == 4 {
        c.dst_reg = (c.dst_reg & 0xffff_0000) | v as u32;
    } else if reg == 6 {
        c.dst_reg = (c.dst_reg & 0xffff) | ((v as u32) << 16);
    } else if reg == 8 {
        c.count_reg = v;
    } else if reg == 10 {
        c.write_control(v);
    }
}

/// Writes one register of a timer channel.
fn timer_reg_write(t: &mut crate::timers::TimerChannel, reg: u32, v: u16)
    ensures
        *final(t) == spec_timer_reg_write(*old(t), reg, v),
{
    if reg == 0 {
        t.write_reload(v);
    } else {
        t.write_control(v);
    }
}

} // verus!
