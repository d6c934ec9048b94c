//! Save states: every mutable field of the machine flattened into one
//! word buffer in a fixed layout, and the inverse that rebuilds a machine
//! from such a buffer and freshly supplied BIOS/ROM bytes (the snapshot
//! references the immutable buffers, it does not own them).

use vstd::prelude::*;
use crate::bits::{spec_half, spec_word, half_from_bytes, word_from_halves};
use crate::cpsr::{Cpsr, spec_cpsr_bits};
use crate::cpu::Cpu;
use crate::bus::Bus;
use crate::gba::{Gba, gba_wf};
use crate::gamepack::GamePack;
use crate::ppu::Ppu;
use crate::timers::{Timers, TimerChannel};
use crate::dma::{DmaChannel, DmaStep, DmaTiming, spec_step_bits, spec_timing_bits, spec_step, spec_timing};
use crate::interrupts::InterruptControl;
use crate::backup::{Backup, BackupKind, FlashState, FlashMode, EepromMode};

verus! {

/// Words before the byte arrays begin.
pub const SCALAR_WORDS: usize = 127;

/// Fixed words: the scalars, the five bus RAM regions packed four bytes a
/// word, and the frame buffer.
pub const FIXED_WORDS: usize = 137343;

/// One word of four little-endian bytes.
pub open spec fn spec_word_of_bytes(b0: u8, b1: u8, b2: u8, b3: u8) -> u32 {
    spec_word(spec_half(b0, b1), spec_half(b2, b3))
}

/// Byte `j` of a word, little-endian.
pub open spec fn spec_word_byte(w: u32, j: int) -> u8 {
    if j == 0 {
        (w % 256) as u8
    } else if j == 1 {
        ((w / 256) % 256) as u8
    } else if j == 2 {
        ((w / 65536) % 256) as u8
    } else {
        (w / 16777216) as u8
    }
}

/// Extracting a byte undoes composing the word.
#[verifier::rlimit(100)]
pub proof fn lemma_word_byte_round_trip(b0: u8, b1: u8, b2: u8, b3: u8)
    ensures
        spec_word_byte(spec_word_of_bytes(b0, b1, b2, b3), 0) == b0,
        spec_word_byte(spec_word_of_bytes(b0, b1, b2, b3), 1) == b1,
        spec_word_byte(spec_word_of_bytes(b0, b1, b2, b3), 2) == b2,
        spec_word_byte(spec_word_of_bytes(b0, b1, b2, b3), 3) == b3,
{
}

/// A timer channel's packed control-state word.
pub open spec fn spec_timer_word(t: TimerChannel) -> u32 {
    ((if t.cascade {
        1u32
    } else {
        0u32
    }) + (if t.irq_enable {
        2u32
    } else {
        0u32
    }) + (if t.enabled {
        4u32
    } else {
        0u32
    })) as u32
}

/// A DMA channel's packed flags word.
pub open spec fn spec_dma_flags_word(c: DmaChannel) -> u32 {
    ((if c.repeat {
        1u32
    } else {
        0u32
    }) + (if c.word {
        2u32
    } else {
        0u32
    }) + (if c.irq {
        4u32
    } else {
        0u32
    }) + (if c.enabled {
        8u32
    } else {
        0u32
    })) as u32
}

/// The backup kind's tag.
pub open spec fn spec_kind_word(k: BackupKind) -> u32 {
    match k {
        BackupKind::Sram => 0,
        BackupKind::Flash => 1,
        BackupKind::Eeprom => 2,
    }
}

/// The flash handshake state's tag.
pub open spec fn spec_flash_state_word(s: FlashState) -> u32 {
    match s {
        FlashState::Ready => 0,
        FlashState::Cmd1 => 1,
        FlashState::Cmd2 => 2,
    }
}

/// The flash mode's tag.
pub open spec fn spec_flash_mode_word(m: FlashMode) -> u32 {
    match m {
        FlashMode::Normal => 0,
        FlashMode::ChipId => 1,
        FlashMode::Erase => 2,
        FlashMode::Program => 3,
        FlashMode::BankSelect => 4,
    }
}

/// The EEPROM protocol position, as a tag and four payload slots.
pub open spec fn spec_eeprom_words(m: EepromMode) -> (u32, u32, u32, u32, u32) {
    match m {
        EepromMode::Idle => (0, 0, 0, 0, 0),
        EepromMode::Start => (1, 0, 0, 0, 0),
        EepromMode::Addr { read, got, acc } => (
            2,
            if read {
                1
            } else {
                0
            },
            got as u32,
            acc,
            0,
        ),
        EepromMode::WriteData { addr, got, acc } => (
            3,
            addr,
            got as u32,
            (acc % 0x1_0000_0000) as u32,
            (acc / 0x1_0000_0000) as u32,
        ),
        EepromMode::WriteStop { addr, acc } => (
            4,
            addr,
            0,
            (acc % 0x1_0000_0000) as u32,
            (acc / 0x1_0000_0000) as u32,
        ),
        EepromMode::ReadData { addr, pos } => (5, addr, pos as u32, 0, 0),
    }
}

/// Field `f` of a DMA channel's nine snapshot words.
pub open spec fn spec_dma_word(c: DmaChannel, f: int) -> u32 {
    if f == 0 {
        c.src_reg
    } else if f == 1 {
        c.dst_reg
    } else if f == 2 {
        c.count_reg as u32
    } else if f == 3 {
        c.src
    } else if f == 4 {
        c.dst
    } else if f == 5 {
        spec_step_bits(c.dst_step) as u32
    } else if f == 6 {
        spec_step_bits(c.src_step) as u32
    } else if f == 7 {
        spec_timing_bits(c.timing) as u32
    } else {
        spec_dma_flags_word(c)
    }
}

/// Scalar word `i` of a machine's snapshot: the register file and banks,
/// the packed status word, the display and blanking counters, background
/// controls and scrolls, the four timers, the four DMA channels, the
/// interrupt controller, bus latches, and the backup protocol state.
pub open spec fn spec_scalar_word(g: Gba, i: int) -> u32 {
    if 0 <= i < 16 {
        g.cpu.regs@[i]
    } else if 16 <= i < 22 {
        g.cpu.banked_sp@[i - 16]
    } else if 22 <= i < 28 {
        g.cpu.banked_lr@[i - 22]
    } else if 28 <= i < 34 {
        g.cpu.banked_spsr@[i - 28]
    } else if i == 34 {
        spec_cpsr_bits(g.cpu.cpsr)
    } else if i == 35 {
        g.bus.ppu.dispcnt as u32
    } else if i == 36 {
        g.bus.ppu.dispstat as u32
    } else if i == 37 {
        g.bus.ppu.vcount as u32
    } else if i == 38 {
        g.bus.ppu.dot
    } else if i == 39 {
        g.bus.ppu.bg0cnt as u32
    } else if i == 40 {
        g.bus.ppu.bg1cnt as u32
    } else if i == 41 {
        g.bus.ppu.bg2cnt as u32
    } else if i == 42 {
        g.bus.ppu.bg3cnt as u32
    } else if i == 43 {
        g.bus.ppu.bg0hofs as u32
    } else if i == 44 {
        g.bus.ppu.bg0vofs as u32
    } else if i == 45 {
        g.bus.ppu.bg1hofs as u32
    } else if i == 46 {
        g.bus.ppu.bg1vofs as u32
    } else if i == 47 {
        g.bus.ppu.bg2hofs as u32
    } else if i == 48 {
        g.bus.ppu.bg2vofs as u32
    } else if i == 49 {
        g.bus.ppu.bg3hofs as u32
    } else if i == 50 {
        g.bus.ppu.bg3vofs as u32
    } else if 51 <= i < 71 {
        let t = if i < 56 {
            g.bus.timers.t0
        } else if i < 61 {
            g.bus.timers.t1
        } else if i < 66 {
            g.bus.timers.t2
        } else {
            g.bus.timers.t3
        };
        let f = (i - 51) % 5;
        if f == 0 {
            t.counter as u32
        } else if f == 1 {
            t.reload as u32
        } else if f == 2 {
            t.prescale_select as u32
        } else if f == 3 {
            spec_timer_word(t)
        } else {
            t.phase
        }
    } else if 71 <= i < 107 {
        let c = if i < 80 {
            g.bus.dma0
        } else if i < 89 {
            g.bus.dma1
        } else if i < 98 {
            g.bus.dma2
        } else {
            g.bus.dma3
        };
        spec_dma_word(c, (i - 71) % 9)
    } else if i == 107 {
        g.bus.irq.enable as u32
    } else if i == 108 {
        g.bus.irq.pending as u32
    } else if i == 109 {
        if g.bus.irq.master {
            1
        } else {
            0
        }
    } else if i == 110 {
        g.bus.key_input as u32
    } else if i == 111 {
        g.bus.open_bus
    } else if i == 112 {
        g.bus.last_fetch
    } else if i == 113 {
        if g.bus.halted {
            1
        } else {
            0
        }
    } else if i == 114 {
        spec_kind_word(g.bus.pack.backup.kind)
    } else if i == 115 {
        if g.bus.pack.backup.dirty {
            1
        } else {
            0
        }
    } else if i == 116 {
        spec_flash_state_word(g.bus.pack.backup.flash_state)
    } else if i == 117 {
        spec_flash_mode_word(g.bus.pack.backup.flash_mode)
    } else if i == 118 {
        g.bus.pack.backup.flash_bank as u32
    } else if i == 119 {
        if g.bus.pack.backup.flash_two_banks {
            1
        } else {
            0
        }
    } else if i == 120 {
        g.bus.pack.backup.eeprom_addr_bits as u32
    } else if i == 121 {
        spec_eeprom_words(g.bus.pack.backup.eeprom_mode).0
    } else if i == 122 {
        spec_eeprom_words(g.bus.pack.backup.eeprom_mode).1
    } else if i == 123 {
        spec_eeprom_words(g.bus.pack.backup.eeprom_mode).2
    } else if i == 124 {
        spec_eeprom_words(g.bus.pack.backup.eeprom_mode).3
    } else if i == 125 {
        spec_eeprom_words(g.bus.pack.backup.eeprom_mode).4
    } else {
        (g.bus.pack.backup.data@.len() / 4) as u32
    }
}

/// A byte array as a word sequence of a snapshot region.
pub open spec fn spec_region_word(data: Seq<u8>, j: int) -> u32 {
    spec_word_of_bytes(data[4 * j], data[4 * j + 1], data[4 * j + 2], data[4 * j + 3])
}

/// Word `k` of the snapshot's tail: the display registers beyond the
/// scroll set (affine parameters and reference points, windows, mosaic,
/// blend control) and the machine's cycle counter, low word first.
pub open spec fn spec_tail_word(g: Gba, k: int) -> u32 {
    let p = g.bus.ppu;
    if k == 0 {
        p.bg2pa as u32
    } else if k == 1 {
        p.bg2pb as u32
    } else if k == 2 {
        p.bg2pc as u32
    } else if k == 3 {
        p.bg2pd as u32
    } else if k == 4 {
        p.bg3pa as u32
    } else if k == 5 {
        p.bg3pb as u32
    } else if k == 6 {
        p.bg3pc as u32
    } else if k == 7 {
        p.bg3pd as u32
    } else if k == 8 {
        p.bg2x
    } else if k == 9 {
        p.bg2y
    } else if k == 10 {
        p.bg3x
    } else if k == 11 {
        p.bg3y
    } else if k == 12 {
        p.win0h as u32
    } else if k == 13 {
        p.win1h as u32
    } else if k == 14 {
        p.win0v as u32
    } else if k == 15 {
        p.win1v as u32
    } else if k == 16 {
        p.winin as u32
    } else if k == 17 {
        p.winout as u32
    } else if k == 18 {
        p.mosaic as u32
    } else if k == 19 {
        p.bldcnt as u32
    } else if k == 20 {
        p.bldalpha as u32
    } else if k == 21 {
        p.bldy as u32
    } else if k == 22 {
        (g.total_cycles % 0x1_0000_0000) as u32
    } else {
        (g.total_cycles / 0x1_0000_0000) as u32
    }
}

/// Word `i` of a machine's snapshot: the scalars, then the five bus RAM
/// regions packed four bytes a word, the frame buffer, the backup
/// contents, and the tail.
pub open spec fn spec_snapshot_word(g: Gba, i: int) -> u32 {
    if i < 127 {
        spec_scalar_word(g, i)
    } else if i < 65663 {
        spec_region_word(g.bus.ewram@, i - 127)
    } else if i < 73855 {
        spec_region_word(g.bus.iwram@, i - 65663)
    } else if i < 74111 {
        spec_region_word(g.bus.palette@, i - 73855)
    } else if i < 98687 {
        spec_region_word(g.bus.vram@, i - 74111)
    } else if i < 98943 {
        spec_region_word(g.bus.oam@, i - 98687)
    } else if i < 137343 {
        g.bus.ppu.frame_buffer@[i - 98943]
    } else if i < 137343 + g.bus.pack.backup.data@.len() / 4 {
        spec_region_word(g.bus.pack.backup.data@, i - 137343)
    } else {
        spec_tail_word(g, i - 137343 - g.bus.pack.backup.data@.len() / 4)
    }
}

/// The whole snapshot of a machine.
pub open spec fn spec_snapshot_words(g: Gba) -> Seq<u32> {
    Seq::new(
        (137343 + g.bus.pack.backup.data@.len() / 4 + 24) as nat,
        |i: int| spec_snapshot_word(g, i),
    )
}

/// The backup byte count a snapshot's kind words imply.
pub open spec fn spec_snapshot_backup_len(buf: Seq<u32>) -> int {
    if buf[114] == 0 {
        0x8000
    } else if buf[114] == 1 {
        if buf[119] == 1 {
            0x20000
        } else {
            0x10000
        }
    } else {
        if buf[120] == 6 {
            0x200
        } else {
            0x2000
        }
    }
}

/// Whether a word buffer is a snapshot a machine can be rebuilt from:
/// the length matches the backup kind it names, every tag is one the
/// machine has, the counters lie inside their frames, and each halfword
/// register fits its width.
pub open spec fn spec_snapshot_valid(buf: Seq<u32>) -> bool {
    &&& buf.len() >= 127
    &&& buf[114] <= 2
    &&& buf[115] <= 1
    &&& buf[116] <= 2
    &&& buf[117] <= 4
    &&& buf[118] <= 1
    &&& buf[119] <= 1
    &&& (buf[119] == 1 ==> buf[114] == 1)
    &&& (buf[118] == 1 ==> buf[119] == 1)
    &&& (buf[120] == 6 || buf[120] == 14)
    &&& buf[121] <= 5
    &&& (buf[121] == 2 ==> buf[122] <= 1 && buf[123] < buf[120])
    &&& (buf[121] == 3 ==> buf[123] < 64)
    &&& (buf[121] == 5 ==> buf[123] < 0x10000)
    &&& buf.len() == 137343 + spec_snapshot_backup_len(buf) / 4 + 24
    &&& ({
        let base2 = 137343 + spec_snapshot_backup_len(buf) / 4;
        &&& buf[base2 + 0] < 0x10000
        &&& buf[base2 + 1] < 0x10000
        &&& buf[base2 + 2] < 0x10000
        &&& buf[base2 + 3] < 0x10000
        &&& buf[base2 + 4] < 0x10000
        &&& buf[base2 + 5] < 0x10000
        &&& buf[base2 + 6] < 0x10000
        &&& buf[base2 + 7] < 0x10000
        &&& buf[base2 + 12] < 0x10000
        &&& buf[base2 + 13] < 0x10000
        &&& buf[base2 + 14] < 0x10000
        &&& buf[base2 + 15] < 0x10000
        &&& buf[base2 + 16] < 0x10000
        &&& buf[base2 + 17] < 0x10000
        &&& buf[base2 + 18] < 0x10000
        &&& buf[base2 + 19] < 0x10000
        &&& buf[base2 + 20] < 0x10000
        &&& buf[base2 + 21] < 0x10000
    })
    &&& buf[37] < 228
    &&& buf[38] < 1232
    &&& (forall|k: int|
        35 <= k < 51 && k != 38 ==> #[trigger] buf[k] < 0x10000)
    &&& (forall|t: int|
        0 <= t < 4 ==> #[trigger] buf[51 + 5 * t] < 0x10000 && buf[52 + 5 * t] < 0x10000 && buf[
            53 + 5 * t
        ] < 0x10000 && buf[54 + 5 * t] <= 7)
    &&& (forall|c: int|
        0 <= c < 4 ==> #[trigger] buf[73 + 9 * c] < 0x10000 && buf[76 + 9 * c] <= 3 && buf[77 + 9
            * c] <= 3 && buf[78 + 9 * c] <= 3 && buf[79 + 9 * c] <= 15)
    &&& buf[107] < 0x10000
    &&& buf[108] < 0x10000
    &&& buf[109] <= 1
    &&& buf[110] < 0x10000
    &&& buf[113] <= 1
}

/// The timer channel a snapshot's five words rebuild.
pub open spec fn spec_timer_from_words(
    w0: u32,
    w1: u32,
    w2: u32,
    w3: u32,
    w4: u32,
) -> TimerChannel {
    TimerChannel {
        counter: w0 as u16,
        reload: w1 as u16,
        prescale_select: w2 as u16,
        cascade: w3 % 2 == 1,
        irq_enable: (w3 / 2) % 2 == 1,
        enabled: (w3 / 4) % 2 == 1,
        phase: w4,
    }
}

/// The DMA channel a snapshot's nine words rebuild.
pub open spec fn spec_dma_from_words(
    w0: u32,
    w1: u32,
    w2: u32,
    w3: u32,
    w4: u32,
    w5: u32,
    w6: u32,
    w7: u32,
    w8: u32,
) -> DmaChannel {
    DmaChannel {
        src_reg: w0,
        dst_reg: w1,
        count_reg: w2 as u16,
        src: w3,
        dst: w4,
        dst_step: spec_step(w5 as u16),
        src_step: spec_step(w6 as u16),
        timing: spec_timing(w7 as u16),
        repeat: w8 % 2 == 1,
        word: (w8 / 2) % 2 == 1,
        irq: (w8 / 4) % 2 == 1,
        enabled: (w8 / 8) % 2 == 1,
    }
}

/// The EEPROM protocol position a snapshot's tag and payload rebuild.
pub open spec fn spec_eeprom_from_words(
    tag: u32,
    a: u32,
    b: u32,
    c: u32,
    d: u32,
) -> EepromMode {
    if tag == 0 {
        EepromMode::Idle
    } else if tag == 1 {
        EepromMode::Start
    } else if tag == 2 {
        EepromMode::Addr { read: a == 1, got: b as u16, acc: c }
    } else if tag == 3 {
        EepromMode::WriteData { addr: a, got: b as u16, acc: (c + 0x1_0000_0000 * d) as u64 }
    } else if tag == 4 {
        EepromMode::WriteStop { addr: a, acc: (c + 0x1_0000_0000 * d) as u64 }
    } else {
        EepromMode::ReadData { addr: a, pos: b as u16 }
    }
}

/// Scalar word `i` of the machine, as the snapshot stores it.
fn scalar_word(g: &Gba, i: usize) -> (w: u32)
    requires
        gba_wf(*g),
        i < 127,
    ensures
        w == spec_scalar_word(*g, i as int),
{
    if i < 35 {
        scalar_word_cpu(g, i)
    } else if i < 51 {
        scalar_word_ppu(g, i)
    } else if i < 71 {
        scalar_word_timer(g, i)
    } else if i < 107 {
        scalar_word_dma(g, i)
    } else {
        scalar_word_misc(g, i)
    }
}

/// The register-file and status words.
fn scalar_word_cpu(g: &Gba, i: usize) -> (w: u32)
    requires
        gba_wf(*g),
        i < 35,
    ensures
        w == spec_scalar_word(*g, i as int),
{
    if i < 16 {
        g.cpu.regs[i]
    } else if i < 22 {
        g.cpu.banked_sp[i - 16]
    } else if i < 28 {
        g.cpu.banked_lr[i - 22]
    } else if i < 34 {
        g.cpu.banked_spsr[i - 28]
    } else if i == 34 {
        g.cpu.cpsr.to_bits()
    } else {
        g.cpu.cpsr.to_bits()
    }
}

/// The display-register words.
fn scalar_word_ppu(g: &Gba, i: usize) -> (w: u32)
    requires
        gba_wf(*g),
        35 <= i < 51,
    ensures
        w == spec_scalar_word(*g, i as int),
{
    if i == 35 {
        g.bus.ppu.dispcnt as u32
    } else if i == 36 {
        g.bus.ppu.dispstat as u32
    } else if i == 37 {
        g.bus.ppu.vcount as u32
    } else if i == 38 {
        g.bus.ppu.dot
    } else if i == 39 {
        g.bus.ppu.bg0cnt as u32
    } else if i == 40 {
        g.bus.ppu.bg1cnt as u32
    } else if i == 41 {
        g.bus.ppu.bg2cnt as u32
    } else if i == 42 {
        g.bus.ppu.bg3cnt as u32
    } else if i == 43 {
        g.bus.ppu.bg0hofs as u32
    } else if i == 44 {
        g.bus.ppu.bg0vofs as u32
    } else if i == 45 {
        g.bus.ppu.bg1hofs as u32
    } else if i == 46 {
        g.bus.ppu.bg1vofs as u32
    } else if i == 47 {
        g.bus.ppu.bg2hofs as u32
    } else if i == 48 {
        g.bus.ppu.bg2vofs as u32
    } else if i == 49 {
        g.bus.ppu.bg3hofs as u32
    } else if i == 50 {
        g.bus.ppu.bg3vofs as u32
    } else {
        g.bus.ppu.bg3vofs as u32
    }
}

/// The timer words.
fn scalar_word_timer(g: &Gba, i: usize) -> (w: u32)
    requires
        gba_wf(*g),
        51 <= i < 71,
    ensures
        w == spec_scalar_word(*g, i as int),
{
    if i < 71 {
        let t = if i < 56 {
            g.bus.timers.t0
        } else if i < 61 {
            g.bus.timers.t1
        } else if i < 66 {
            g.bus.timers.t2
        } else {
            g.bus.timers.t3
        };
        let f = (i - 51) % 5;
        if f == 0 {
            t.counter as u32
        } else if f == 1 {
            t.reload as u32
        } else if f == 2 {
            t.prescale_select as u32
        } else if f == 3 {
            (if t.cascade {
                1u32
            } else {
                0u32
            }) + (if t.irq_enable {
                2u32
            } else {
                0u32
            }) + (if t.enabled {
                4u32
            } else {
                0u32
            })
        } else {
            t.phase
        }
    } else {
        0
    }
}

/// One DMA channel's snapshot field.
fn dma_word(c: &DmaChannel, f: usize) -> (w: u32)
    requires
        f < 9,
    ensures
        w == spec_dma_word(*c, f as int),
{
    if f == 0 {
        c.src_reg
    } else if f == 1 {
        c.dst_reg
    } else if f == 2 {
        c.count_reg as u32
    } else if f == 3 {
        c.src
    } else if f == 4 {
        c.dst
    } else if f == 5 {
        match c.dst_step {
            DmaStep::Increment => 0,
            DmaStep::Decrement => 1,
            DmaStep::Fixed => 2,
            DmaStep::IncrementReload => 3,
        }
    } else if f == 6 {
        match c.src_step {
            DmaStep::Increment => 0,
            DmaStep::Decrement => 1,
            DmaStep::Fixed => 2,
            DmaStep::IncrementReload => 3,
        }
    } else if f == 7 {
        match c.timing {
            DmaTiming::Immediate => 0,
            DmaTiming::VBlank => 1,
            DmaTiming::HBlank => 2,
            DmaTiming::Special => 3,
        }
    } else {
        (if c.repeat {
            1u32
        } else {
            0u32
        }) + (if c.word {
            2u32
        } else {
            0u32
        }) + (if c.irq {
            4u32
        } else {
            0u32
        }) + (if c.enabled {
            8u32
        } else {
            0u32
        })
    }
}

/// The DMA words.
fn scalar_word_dma(g: &Gba, i: usize) -> (w: u32)
    requires
        gba_wf(*g),
        71 <= i < 107,
    ensures
        w == spec_scalar_word(*g, i as int),
{
    let f = (i - 71) % 9;
    if i < 80 {
        dma_word(&g.bus.dma0, f)
    } else if i < 89 {
        dma_word(&g.bus.dma1, f)
    } else if i < 98 {
        dma_word(&g.bus.dma2, f)
    } else {
        dma_word(&g.bus.dma3, f)
    }
}

/// The interrupt, latch and backup words.
#[verifier::rlimit(100)]
fn scalar_word_misc(g: &Gba, i: usize) -> (w: u32)
    requires
        gba_wf(*g),
        107 <= i < 127,
    ensures
        w == spec_scalar_word(*g, i as int),
{
    if i == 107 {
        g.bus.irq.enable as u32
    } else if i == 108 {
        g.bus.irq.pending as u32
    } else if i == 109 {
        if g.bus.irq.master {
            1
        } else {
            0
        }
    } else if i == 110 {
        g.bus.key_input as u32
    } else if i == 111 {
        g.bus.open_bus
    } else if i == 112 {
        g.bus.last_fetch
    } else if i == 113 {
        if g.bus.halted {
            1
        } else {
            0
        }
    } else if i == 114 {
        match g.bus.pack.backup.kind {
            BackupKind::Sram => 0,
            BackupKind::Flash => 1,
            BackupKind::Eeprom => 2,
        }
    } else if i == 115 {
        if g.bus.pack.backup.dirty {
            1
        } else {
            0
        }
    } else if i == 116 {
        match g.bus.pack.backup.flash_state {
            FlashState::Ready => 0,
            FlashState::Cmd1 => 1,
            FlashState::Cmd2 => 2,
        }
    } else if i == 117 {
        match g.bus.pack.backup.flash_mode {
            FlashMode::Normal => 0,
            FlashMode::ChipId => 1,
            FlashMode::Erase => 2,
            FlashMode::Program => 3,
            FlashMode::BankSelect => 4,
        }
    } else if i == 118 {
        g.bus.pack.backup.flash_bank as u32
    } else if i == 119 {
        if g.bus.pack.backup.flash_two_banks {
            1
        } else {
            0
        }
    } else if i == 120 {
        g.bus.pack.backup.eeprom_addr_bits as u32
    } else if i < 126 {
        let slot = i - 121;
        match g.bus.pack.backup.eeprom_mode {
            EepromMode::Idle => 0,
            EepromMode::Start => if slot == 0 {
                1
            } else {
                0
            },
            EepromMode::Addr { read, got, acc } => {
                if slot == 0 {
                    2
                } else if slot == 1 {
                    if read {
                        1
                    } else {
                        0
                    }
                } else if slot == 2 {
                    got as u32
                } else if slot == 3 {
                    acc
                } else {
                    0
                }
            },
            EepromMode::WriteData { addr, got, acc } => {
                if slot == 0 {
                    3
                } else if slot == 1 {
                    addr
                } else if slot == 2 {
                    got as u32
                } else if slot == 3 {
                    (acc % 0x1_0000_0000) as u32
                } else {
                    (acc / 0x1_0000_0000) as u32
                }
            },
            EepromMode::WriteStop { addr, acc } => {
                if slot == 0 {
                    4
                } else if slot == 1 {
                    addr
                } else if slot == 2 {
                    0
                } else if slot == 3 {
                    (acc % 0x1_0000_0000) as u32
                } else {
                    (acc / 0x1_0000_0000) as u32
                }
            },
            EepromMode::ReadData { addr, pos } => {
                if slot == 0 {
                    5
                } else if slot == 1 {
                    addr
                } else if slot == 2 {
                    pos as u32
                } else {
                    0
                }
            },
        }
    } else {
        (g.bus.pack.backup.data.len() / 4) as u32
    }
}

/// Appends a byte region to the word buffer, four bytes a word.
fn push_region(out: &mut Vec<u32>, data: &Vec<u8>)
    requires
        data@.len() % 4 == 0,
        old(out)@.len() + data@.len() <= 0x10000000,
    ensures
        final(out)@.len() == old(out)@.len() + data@.len() / 4,
        forall|k: int| 0 <= k < old(out)@.len() ==> final(out)@[k] == old(out)@[k],
        forall|j: int|
            0 <= j < data@.len() / 4 ==> final(out)@[old(out)@.len() + j] == spec_region_word(
                data@,
                j,
            ),
{
    let dl = data.len();
    let n = dl / 4;
    let base = out.len();
    let mut j: usize = 0;
    while j < n
        invariant
            data@.len() % 4 == 0,
            dl == data@.len(),
            4 * n == dl,
            n == data@.len() / 4,
            base == old(out)@.len(),
            out@.len() == base + j,
            j <= n,
            forall|k: int| 0 <= k < base ==> out@[k] == old(out)@[k],
            forall|k: int| 0 <= k < j ==> out@[base + k] == spec_region_word(data@, k),
        decreases n - j,
    {
        let w = word_from_halves(
            half_from_bytes(data[4 * j], data[4 * j + 1]),
            half_from_bytes(data[4 * j + 2], data[4 * j + 3]),
        );
        out.push(w);
        j = j + 1;
    }
}

/// Appends a word region to the buffer unchanged.
fn push_words(out: &mut Vec<u32>, data: &Vec<u32>)
    requires
        old(out)@.len() + data@.len() <= 0x10000000,
    ensures
        final(out)@.len() == old(out)@.len() + data@.len(),
        forall|k: int| 0 <= k < old(out)@.len() ==> final(out)@[k] == old(out)@[k],
        forall|j: int|
            0 <= j < data@.len() ==> final(out)@[old(out)@.len() + j] == data@[j],
{
    let n = data.len();
    let base = out.len();
    let mut j: usize = 0;
    while j < n
        invariant
            n == data@.len(),
            base == old(out)@.len(),
            out@.len() == base + j,
            j <= n,
            forall|k: int| 0 <= k < base ==> out@[k] == old(out)@[k],
            forall|k: int| 0 <= k < j ==> out@[base + k] == data@[k],
        decreases n - j,
    {
        let w = data[j];
        out.push(w);
        j = j + 1;
    }
}

/// Rebuilds a byte region from `nwords` words of the buffer.
fn region_from_words(buf: &Vec<u32>, start: usize, nwords: usize) -> (r: Vec<u8>)
    requires
        start + nwords <= buf@.len(),
        nwords <= 0x1000000,
    ensures
        r@.len() == 4 * nwords,
        forall|i: int|
            0 <= i < 4 * nwords ==> r@[i] == spec_word_byte(buf@[start + i / 4], i % 4),
{
    let bl = buf.len();
    let mut r: Vec<u8> = Vec::new();
    let mut j: usize = 0;
    while j < nwords
        invariant
            bl == buf@.len(),
            start + nwords <= bl,
            start + nwords <= buf@.len(),
            nwords <= 0x1000000,
            r@.len() == 4 * j,
            j <= nwords,
            forall|i: int|
                0 <= i < 4 * j ==> r@[i] == spec_word_byte(buf@[start + i / 4], i % 4),
        decreases nwords - j,
    {
        let w = buf[start + j];
        r.push((w % 256) as u8);
        r.push(((w / 256) % 256) as u8);
        r.push(((w / 65536) % 256) as u8);
        r.push((w / 16777216) as u8);
        j = j + 1;
        proof {
            assert forall|i: int| 0 <= i < 4 * j implies r@[i] == spec_word_byte(
                buf@[start + i / 4],
                i % 4,
            ) by {
                if i >= 4 * (j - 1) {
                    assert(i / 4 == j - 1 && (i % 4 == 0 || i % 4 == 1 || i % 4 == 2 || i % 4
                        == 3));
                }
            }
        }
    }
    r
}

/// Rebuilds a word region from the buffer.
fn words_from_words(buf: &Vec<u32>, start: usize, nwords: usize) -> (r: Vec<u32>)
    requires
        start + nwords <= buf@.len(),
    ensures
        r@.len() == nwords,
        forall|j: int| 0 <= j < nwords ==> r@[j] == buf@[start + j],
{
    let bl = buf.len();
    let mut r: Vec<u32> = Vec::new();
    let mut j: usize = 0;
    while j < nwords
        invariant
            bl == buf@.len(),
            start + nwords <= bl,
            start + nwords <= buf@.len(),
            r@.len() == j,
            j <= nwords,
            forall|k: int| 0 <= k < j ==> r@[k] == buf@[start + k],
        decreases nwords - j,
    {
        let w = buf[start + j];
        r.push(w);
        j = j + 1;
    }
    r
}

impl Gba {
    /// The opaque save state: every mutable field flattened into one word
    /// buffer in the fixed layout, ROM and BIOS excluded.
    pub fn snapshot(&self) -> (out: Vec<u32>)
        requires
            gba_wf(*self),
        ensures
            out@ == spec_snapshot_words(*self),
    {
        let mut out: Vec<u32> = Vec::new();
        let mut i: usize = 0;
        while i < 127
            invariant
                gba_wf(*self),
                out@.len() == i,
                i <= 127,
                forall|k: int| 0 <= k < i ==> out@[k] == spec_scalar_word(*self, k),
            decreases 127 - i,
        {
            let w = scalar_word(self, i);
            out.push(w);
            i = i + 1;
        }
        proof {
            assert(self.bus.pack.backup.data@.len() % 4 == 0);
        }
        push_region(&mut out, &self.bus.ewram);
        push_region(&mut out, &self.bus.iwram);
        push_region(&mut out, &self.bus.palette);
        push_region(&mut out, &self.bus.vram);
        push_region(&mut out, &self.bus.oam);
        push_words(&mut out, &self.bus.ppu.frame_buffer);
        push_region(&mut out, &self.bus.pack.backup.data);
        out.push(self.bus.ppu.bg2pa as u32);
        out.push(self.bus.ppu.bg2pb as u32);
        out.push(self.bus.ppu.bg2pc as u32);
        out.push(self.bus.ppu.bg2pd as u32);
        out.push(self.bus.ppu.bg3pa as u32);
        out.push(self.bus.ppu.bg3pb as u32);
        out.push(self.bus.ppu.bg3pc as u32);
        out.push(self.bus.ppu.bg3pd as u32);
        out.push(self.bus.ppu.bg2x);
        out.push(self.bus.ppu.bg2y);
        out.push(self.bus.ppu.bg3x);
        out.push(self.bus.ppu.bg3y);
        out.push(self.bus.ppu.win0h as u32);
        out.push(self.bus.ppu.win1h as u32);
        out.push(self.bus.ppu.win0v as u32);
        out.push(self.bus.ppu.win1v as u32);
        out.push(self.bus.ppu.winin as u32);
        out.push(self.bus.ppu.winout as u32);
        out.push(self.bus.ppu.mosaic as u32);
        out.push(self.bus.ppu.bldcnt as u32);
        out.push(self.bus.ppu.bldalpha as u32);
        out.push(self.bus.ppu.bldy as u32);
        out.push((self.total_cycles % 0x1_0000_0000) as u32);
        out.push((self.total_cycles / 0x1_0000_0000) as u32);
        proof {
            assert(out@ =~= spec_snapshot_words(*self));
        }
        out
    }
}

/// Why a machine could not be rebuilt from a snapshot.
#[derive(Clone, Copy, PartialEq, Eq, Structural, Debug)]
pub enum RestoreError {
    /// The BIOS buffer is shorter than the 16 KiB the hardware maps.
    BiosTruncated,
    /// The ROM buffer is outside the 192-byte..32 MiB window.
    RomTruncated,
    /// The word buffer is not a snapshot this machine writes.
    Malformed,
}

impl Gba {
    /// Rebuilds a machine from a snapshot and freshly supplied BIOS and
    /// ROM bytes. Fails, leaving nothing half-built, exactly when a
    /// buffer is truncated or the snapshot is not one this machine
    /// writes; on success every mutable field is read back from the
    /// snapshot's fixed layout.
    #[verifier::rlimit(100)]
    #[verifier::spinoff_prover]
    pub fn restore(buf: &Vec<u32>, bios: Vec<u8>, rom: Vec<u8>) -> (r: Result<Gba, RestoreError>)
        ensures
            r is Ok <==> bios@.len() >= 0x4000 && 0xc0 <= rom@.len() <= 0x2000000
                && spec_snapshot_valid(buf@),
            r is Ok ==> ({
                let g = r->Ok_0;
                let b = buf@;
                let cpsr = crate::cpsr::spec_cpsr_from_bits(b[34]);
                &&& gba_wf(g)
                &&& g.bus.pack.bios@ == bios@
                &&& g.bus.pack.rom@ == rom@
                &&& g.cpu.cpsr == cpsr
                &&& forall|i: int| 0 <= i < 15 ==> g.cpu.regs@[i] == b[i]
                &&& g.cpu.regs@[15] == (if cpsr.thumb {
                    b[15] & 0xffff_fffe
                } else {
                    b[15] & 0xffff_fffc
                })
                &&& forall|i: int| 0 <= i < 6 ==> g.cpu.banked_sp@[i] == b[16 + i]
                &&& forall|i: int| 0 <= i < 6 ==> g.cpu.banked_lr@[i] == b[22 + i]
                &&& forall|i: int| 0 <= i < 6 ==> g.cpu.banked_spsr@[i] == b[28 + i]
                &&& g.bus.ppu.dispcnt == b[35] as u16
                &&& g.bus.ppu.dispstat == b[36] as u16
                &&& g.bus.ppu.vcount == b[37] as u16
                &&& g.bus.ppu.dot == b[38]
                &&& g.bus.ppu.bg0cnt == b[39] as u16
                &&& g.bus.ppu.bg1cnt == b[40] as u16
                &&& g.bus.ppu.bg2cnt == b[41] as u16
                &&& g.bus.ppu.bg3cnt == b[42] as u16
                &&& g.bus.ppu.bg0hofs == b[43] as u16
                &&& g.bus.ppu.bg0vofs == b[44] as u16
                &&& g.bus.ppu.bg1hofs == b[45] as u16
                &&& g.bus.ppu.bg1vofs == b[46] as u16
                &&& g.bus.ppu.bg2hofs == b[47] as u16
                &&& g.bus.ppu.bg2vofs == b[48] as u16
                &&& g.bus.ppu.bg3hofs == b[49] as u16
                &&& g.bus.ppu.bg3vofs == b[50] as u16
                &&& g.bus.timers.t0 == spec_timer_from_words(b[51], b[52], b[53], b[54], b[55])
                &&& g.bus.timers.t1 == spec_timer_from_words(b[56], b[57], b[58], b[59], b[60])
                &&& g.bus.timers.t2 == spec_timer_from_words(b[61], b[62], b[63], b[64], b[65])
                &&& g.bus.timers.t3 == spec_timer_from_words(b[66], b[67], b[68], b[69], b[70])
                &&& g.bus.dma0 == spec_dma_from_words(
                    b[71],
                    b[72],
                    b[73],
                    b[74],
                    b[75],
                    b[76],
                    b[77],
                    b[78],
                    b[79],
                )
                &&& g.bus.dma1 == spec_dma_from_words(
                    b[80],
                    b[81],
                    b[82],
                    b[83],
                    b[84],
                    b[85],
                    b[86],
                    b[87],
                    b[88],
                )
                &&& g.bus.dma2 == spec_dma_from_words(
                    b[89],
                    b[90],
                    b[91],
                    b[92],
                    b[93],
                    b[94],
                    b[95],
                    b[96],
                    b[97],
                )
                &&& g.bus.dma3 == spec_dma_from_words(
                    b[98],
                    b[99],
                    b[100],
                    b[101],
                    b[102],
                    b[103],
                    b[104],
                    b[105],
                    b[106],
                )
                &&& g.bus.irq.enable == b[107] as u16
                &&& g.bus.irq.pending == b[108] as u16
                &&& g.bus.irq.master == (b[109] == 1)
                &&& g.bus.key_input == b[110] as u16
                &&& g.bus.open_bus == b[111]
                &&& g.bus.last_fetch == b[112]
                &&& g.bus.halted == (b[113] == 1)
                &&& g.bus.pack.backup.kind == (if b[114] == 0 {
                    BackupKind::Sram
                } else if b[114] == 1 {
                    BackupKind::Flash
                } else {
                    BackupKind::Eeprom
                })
                &&& g.bus.pack.backup.dirty == (b[115] == 1)
                &&& g.bus.pack.backup.flash_state == (if b[116] == 0 {
                    FlashState::Ready
                } else if b[116] == 1 {
                    FlashState::Cmd1
                } else {
                    FlashState::Cmd2
                })
                &&& g.bus.pack.backup.flash_mode == (if b[117] == 0 {
                    FlashMode::Normal
                } else if b[117] == 1 {
                    FlashMode::ChipId
                } else if b[117] == 2 {
                    FlashMode::Erase
                } else if b[117] == 3 {
                    FlashMode::Program
                } else {
                    FlashMode::BankSelect
                })
                &&& g.bus.pack.backup.flash_bank == b[118] as u8
                &&& g.bus.pack.backup.flash_two_banks == (b[119] == 1)
                &&& g.bus.pack.backup.eeprom_addr_bits == b[120] as u16
                &&& g.bus.pack.backup.eeprom_mode == spec_eeprom_from_words(
                    b[121],
                    b[122],
                    b[123],
                    b[124],
                    b[125],
                )
                &&& g.bus.pack.backup.data@.len() == spec_snapshot_backup_len(b)
                &&& forall|i: int|
                    0 <= i < g.bus.pack.backup.data@.len() ==> g.bus.pack.backup.data@[i]
                        == spec_word_byte(b[137343 + i / 4], i % 4)
                &&& ({
                    let base2 = 137343 + spec_snapshot_backup_len(b) / 4;
                    &&& g.bus.ppu.bg2pa == b[base2 + 0] as u16
                    &&& g.bus.ppu.bg2pb == b[base2 + 1] as u16
                    &&& g.bus.ppu.bg2pc == b[base2 + 2] as u16
                    &&& g.bus.ppu.bg2pd == b[base2 + 3] as u16
                    &&& g.bus.ppu.bg3pa == b[base2 + 4] as u16
                    &&& g.bus.ppu.bg3pb == b[base2 + 5] as u16
                    &&& g.bus.ppu.bg3pc == b[base2 + 6] as u16
                    &&& g.bus.ppu.bg3pd == b[base2 + 7] as u16
                    &&& g.bus.ppu.bg2x == b[base2 + 8]
                    &&& g.bus.ppu.bg2y == b[base2 + 9]
                    &&& g.bus.ppu.bg3x == b[base2 + 10]
                    &&& g.bus.ppu.bg3y == b[base2 + 11]
                    &&& g.bus.ppu.win0h == b[base2 + 12] as u16
                    &&& g.bus.ppu.win1h == b[base2 + 13] as u16
                    &&& g.bus.ppu.win0v == b[base2 + 14] as u16
                    &&& g.bus.ppu.win1v == b[base2 + 15] as u16
                    &&& g.bus.ppu.winin == b[base2 + 16] as u16
                    &&& g.bus.ppu.winout == b[base2 + 17] as u16
                    &&& g.bus.ppu.mosaic == b[base2 + 18] as u16
                    &&& g.bus.ppu.bldcnt == b[base2 + 19] as u16
                    &&& g.bus.ppu.bldalpha == b[base2 + 20] as u16
                    &&& g.bus.ppu.bldy == b[base2 + 21] as u16
                    &&& g.total_cycles == b[base2 + 22] + 0x1_0000_0000 * b[base2 + 23]
                })
                &&& forall|i: int|
                    0 <= i < 0x40000 ==> g.bus.ewram@[i] == spec_word_byte(b[127 + i / 4], i % 4)
                &&& forall|i: int|
                    0 <= i < 0x8000 ==> g.bus.iwram@[i] == spec_word_byte(b[65663 + i / 4], i % 4)
                &&& forall|i: int|
                    0 <= i < 0x400 ==> g.bus.palette@[i] == spec_word_byte(
                        b[73855 + i / 4],
                        i % 4,
                    )
                &&& forall|i: int|
                    0 <= i < 0x18000 ==> g.bus.vram@[i] == spec_word_byte(
                        b[74111 + i / 4],
                        i % 4,
                    )
                &&& forall|i: int|
                    0 <= i < 0x400 ==> g.bus.oam@[i] == spec_word_byte(b[98687 + i / 4], i % 4)
                &&& forall|j: int|
                    0 <= j < 38400 ==> g.bus.ppu.frame_buffer@[j] == b[98943 + j]
            }),
    {
        if bios.len() < 0x4000 {
            return Err(RestoreError::BiosTruncated);
        }
        if rom.len() < 0xc0 || rom.len() > 0x2000000 {
            return Err(RestoreError::RomTruncated);
        }
        if buf.len() < 127 {
            return Err(RestoreError::Malformed);
        }
        if !(buf[114] <= 2 && buf[115] <= 1 && buf[116] <= 2 && buf[117] <= 4 && buf[118] <= 1
            && buf[119] <= 1 && (buf[120] == 6 || buf[120] == 14) && buf[121] <= 5) {
            return Err(RestoreError::Malformed);
        }
        if buf[119] == 1 && buf[114] != 1 {
            return Err(RestoreError::Malformed);
        }
        if buf[118] == 1 && buf[119] != 1 {
            return Err(RestoreError::Malformed);
        }
        if buf[121] == 2 && !(buf[122] <= 1 && buf[123] < buf[120]) {
            return Err(RestoreError::Malformed);
        }
        if buf[121] == 3 && !(buf[123] < 64) {
            return Err(RestoreError::Malformed);
        }
        if buf[121] == 5 && !(buf[123] < 0x10000) {
            return Err(RestoreError::Malformed);
        }
        let dlen: usize = if buf[114] == 0 {
            0x8000
        } else if buf[114] == 1 {
            if buf[119] == 1 {
                0x20000
            } else {
                0x10000
            }
        } else {
            if buf[120] == 6 {
                0x200
            } else {
                0x2000
            }
        };
        if buf.len() != 137343 + dlen / 4 + 24 {
            return Err(RestoreError::Malformed);
        }
        let base2: usize = 137343 + dlen / 4;
        if !(buf[base2] < 0x10000 && buf[base2 + 1] < 0x10000 && buf[base2 + 2] < 0x10000
            && buf[base2 + 3] < 0x10000 && buf[base2 + 4] < 0x10000 && buf[base2 + 5] < 0x10000
            && buf[base2 + 6] < 0x10000 && buf[base2 + 7] < 0x10000 && buf[base2 + 12] < 0x10000
            && buf[base2 + 13] < 0x10000 && buf[base2 + 14] < 0x10000 && buf[base2 + 15]
            < 0x10000 && buf[base2 + 16] < 0x10000 && buf[base2 + 17] < 0x10000 && buf[base2
            + 18] < 0x10000 && buf[base2 + 19] < 0x10000 && buf[base2 + 20] < 0x10000 && buf[
            base2 + 21] < 0x10000) {
            return Err(RestoreError::Malformed);
        }
        if !(buf[37] < 228 && buf[38] < 1232) {
            return Err(RestoreError::Malformed);
        }
        let mut k: usize = 35;
        while k < 51
            invariant
                buf@.len() >= 127,
                35 <= k <= 51,
                forall|j: int| 35 <= j < k && j != 38 ==> #[trigger] buf@[j] < 0x10000,
            decreases 51 - k,
        {
            if k != 38 && buf[k] >= 0x10000 {
                return Err(RestoreError::Malformed);
            }
            k = k + 1;
        }
        let mut t: usize = 0;
        while t < 4
            invariant
                buf@.len() >= 127,
                t <= 4,
                forall|j: int|
                    0 <= j < t ==> #[trigger] buf@[51 + 5 * j] < 0x10000 && buf@[52 + 5 * j]
                        < 0x10000 && buf@[53 + 5 * j] < 0x10000 && buf@[54 + 5 * j] <= 7,
            decreases 4 - t,
        {
            if !(buf[51 + 5 * t] < 0x10000 && buf[52 + 5 * t] < 0x10000 && buf[53 + 5 * t]
                < 0x10000 && buf[54 + 5 * t] <= 7) {
                return Err(RestoreError::Malformed);
            }
            t = t + 1;
        }
        let mut c: usize = 0;
        while c < 4
            invariant
                buf@.len() >= 127,
                c <= 4,
                forall|j: int|
                    0 <= j < c ==> #[trigger] buf@[73 + 9 * j] < 0x10000 && buf@[76 + 9 * j] <= 3
                        && buf@[77 + 9 * j] <= 3 && buf@[78 + 9 * j] <= 3 && buf@[79 + 9 * j]
                        <= 15,
            decreases 4 - c,
        {
            if !(buf[73 + 9 * c] < 0x10000 && buf[76 + 9 * c] <= 3 && buf[77 + 9 * c] <= 3 && buf[
                78 + 9 * c] <= 3 && buf[79 + 9 * c] <= 15) {
                return Err(RestoreError::Malformed);
            }
            c = c + 1;
        }
        if !(buf[107] < 0x10000 && buf[108] < 0x10000 && buf[109] <= 1 && buf[110] < 0x10000
            && buf[113] <= 1) {
            return Err(RestoreError::Malformed);
        }
        proof {
            assert(spec_snapshot_valid(buf@));
        }
        let cpsr = Cpsr::from_bits(buf[34]);
        let mut regs: Vec<u32> = Vec::new();
        let mut i: usize = 0;
        while i < 15
            invariant
                buf@.len() >= 127,
                regs@.len() == i,
                i <= 15,
                forall|j: int| 0 <= j < i ==> regs@[j] == buf@[j],
            decreases 15 - i,
        {
            let w = buf[i];
            regs.push(w);
            i = i + 1;
        }
        let pc_w: u32 = buf[15];
        proof {
            assert((pc_w & 0xffff_fffe) % 2 == 0 && (pc_w & 0xffff_fffc) % 4 == 0)
                by (bit_vector);
        }
        if cpsr.thumb {
            regs.push(pc_w & 0xffff_fffe);
        } else {
            regs.push(pc_w & 0xffff_fffc);
        }
        let banked_sp = words_from_words(buf, 16, 6);
        let banked_lr = words_from_words(buf, 22, 6);
        let banked_spsr = words_from_words(buf, 28, 6);
        let cpu = Cpu { regs, banked_sp, banked_lr, banked_spsr, cpsr };
        let kind = if buf[114] == 0 {
            BackupKind::Sram
        } else if buf[114] == 1 {
            BackupKind::Flash
        } else {
            BackupKind::Eeprom
        };
        let backup = Backup {
            kind,
            data: region_from_words(buf, 137343, dlen / 4),
            dirty: buf[115] == 1,
            flash_state: if buf[116] == 0 {
                FlashState::Ready
            } else if buf[116] == 1 {
                FlashState::Cmd1
            } else {
                FlashState::Cmd2
            },
            flash_mode: if buf[117] == 0 {
                FlashMode::Normal
            } else if buf[117] == 1 {
                FlashMode::ChipId
            } else if buf[117] == 2 {
                FlashMode::Erase
            } else if buf[117] == 3 {
                FlashMode::Program
            } else {
                FlashMode::BankSelect
            },
            flash_bank: buf[118] as u8,
            flash_two_banks: buf[119] == 1,
            eeprom_addr_bits: buf[120] as u16,
            eeprom_mode: if buf[121] == 0 {
                EepromMode::Idle
            } else if buf[121] == 1 {
                EepromMode::Start
            } else if buf[121] == 2 {
                EepromMode::Addr { read: buf[122] == 1, got: buf[123] as u16, acc: buf[124] }
            } else if buf[121] == 3 {
                EepromMode::WriteData {
                    addr: buf[122],
                    got: buf[123] as u16,
                    acc: (buf[124] as u64) + 0x1_0000_0000 * (buf[125] as u64),
                }
            } else if buf[121] == 4 {
                EepromMode::WriteStop {
                    addr: buf[122],
                    acc: (buf[124] as u64) + 0x1_0000_0000 * (buf[125] as u64),
                }
            } else {
                EepromMode::ReadData { addr: buf[122], pos: buf[123] as u16 }
            },
        };
        let pack = GamePack { bios, rom, backup };
        let ppu = Ppu {
            frame_buffer: words_from_words(buf, 98943, 38400),
            dispcnt: buf[35] as u16,
            dispstat: buf[36] as u16,
            vcount: buf[37] as u16,
            dot: buf[38],
            bg0cnt: buf[39] as u16,
            bg1cnt: buf[40] as u16,
            bg2cnt: buf[41] as u16,
            bg3cnt: buf[42] as u16,
            bg0hofs: buf[43] as u16,
            bg0vofs: buf[44] as u16,
            bg1hofs: buf[45] as u16,
            bg1vofs: buf[46] as u16,
            bg2hofs: buf[47] as u16,
            bg2vofs: buf[48] as u16,
            bg3hofs: buf[49] as u16,
            bg3vofs: buf[50] as u16,
            bg2pa: buf[base2] as u16,
            bg2pb: buf[base2 + 1] as u16,
            bg2pc: buf[base2 + 2] as u16,
            bg2pd: buf[base2 + 3] as u16,
            bg3pa: buf[base2 + 4] as u16,
            bg3pb: buf[base2 + 5] as u16,
            bg3pc: buf[base2 + 6] as u16,
            bg3pd: buf[base2 + 7] as u16,
            bg2x: buf[base2 + 8],
            bg2y: buf[base2 + 9],
            bg3x: buf[base2 + 10],
            bg3y: buf[base2 + 11],
            win0h: buf[base2 + 12] as u16,
            win1h: buf[base2 + 13] as u16,
            win0v: buf[base2 + 14] as u16,
            win1v: buf[base2 + 15] as u16,
            winin: buf[base2 + 16] as u16,
            winout: buf[base2 + 17] as u16,
            mosaic: buf[base2 + 18] as u16,
            bldcnt: buf[base2 + 19] as u16,
            bldalpha: buf[base2 + 20] as u16,
            bldy: buf[base2 + 21] as u16,
        };
        proof {
            assert(buf@[73 + 9 * 0int] < 0x10000);
            assert(buf@[73 + 9 * 1int] < 0x10000);
            assert(buf@[73 + 9 * 2int] < 0x10000);
            assert(buf@[73 + 9 * 3int] < 0x10000);
            assert(buf@[51 + 5 * 0int] < 0x10000);
            assert(buf@[51 + 5 * 1int] < 0x10000);
            assert(buf@[51 + 5 * 2int] < 0x10000);
            assert(buf@[51 + 5 * 3int] < 0x10000);
        }
        let timers = Timers {
            t0: timer_from_buf(buf, 51),
            t1: timer_from_buf(buf, 56),
            t2: timer_from_buf(buf, 61),
            t3: timer_from_buf(buf, 66),
        };
        let bus = Bus {
            pack,
            ewram: region_from_words(buf, 127, 0x10000),
            iwram: region_from_words(buf, 65663, 0x2000),
            palette: region_from_words(buf, 73855, 0x100),
            vram: region_from_words(buf, 74111, 0x6000),
            oam: region_from_words(buf, 98687, 0x100),
            ppu,
            timers,
            dma0: dma_from_buf(buf, 71),
            dma1: dma_from_buf(buf, 80),
            dma2: dma_from_buf(buf, 89),
            dma3: dma_from_buf(buf, 98),
            irq: InterruptControl {
                enable: buf[107] as u16,
                pending: buf[108] as u16,
                master: buf[109] == 1,
            },
            key_input: buf[110] as u16,
            open_bus: buf[111],
            last_fetch: buf[112],
            halted: buf[113] == 1,
        };
        let total_cycles: u64 = buf[base2 + 22] as u64 + 0x1_0000_0000 * (buf[base2
            + 23] as u64);
        Ok(Gba { cpu, bus, total_cycles })
    }
}

/// Rebuilds one timer channel from its five snapshot words.
fn timer_from_buf(buf: &Vec<u32>, at: usize) -> (t: TimerChannel)
    requires
        at + 5 <= buf@.len(),
    ensures
        t == spec_timer_from_words(
            buf@[at as int],
            buf@[at + 1],
            buf@[at + 2],
            buf@[at + 3],
            buf@[at + 4],
        ),
{
    let bl: usize = buf.len();
    TimerChannel {
        counter: buf[at] as u16,
        reload: buf[at + 1] as u16,
        prescale_select: buf[at + 2] as u16,
        cascade: buf[at + 3] % 2 == 1,
        irq_enable: (buf[at + 3] / 2) % 2 == 1,
        enabled: (buf[at + 3] / 4) % 2 == 1,
        phase: buf[at + 4],
    }
}

/// Rebuilds one DMA channel from its nine snapshot words.
fn dma_from_buf(buf: &Vec<u32>, at: usize) -> (c: DmaChannel)
    requires
        at + 9 <= buf@.len(),
        buf@[at + 5] <= 3,
        buf@[at + 6] <= 3,
        buf@[at + 7] <= 3,
    ensures
        c == spec_dma_from_words(
            buf@[at as int],
            buf@[at + 1],
            buf@[at + 2],
            buf@[at + 3],
            buf@[at + 4],
            buf@[at + 5],
            buf@[at + 6],
            buf@[at + 7],
            buf@[at + 8],
        ),
{
    let bl: usize = buf.len();
    DmaChannel {
        src_reg: buf[at],
        dst_reg: buf[at + 1],
        count_reg: buf[at + 2] as u16,
        src: buf[at + 3],
        dst: buf[at + 4],
        dst_step: step_from_word(buf[at + 5]),
        src_step: step_from_word(buf[at + 6]),
        timing: timing_from_word(buf[at + 7]),
        repeat: buf[at + 8] % 2 == 1,
        word: (buf[at + 8] / 2) % 2 == 1,
        irq: (buf[at + 8] / 4) % 2 == 1,
        enabled: (buf[at + 8] / 8) % 2 == 1,
    }
}

/// Decodes an address-step word.
fn step_from_word(w: u32) -> (s: DmaStep)
    ensures
        w <= 3 ==> s == spec_step(w as u16),
{
    if w == 0 {
        DmaStep::Increment
    } else if w == 1 {
        DmaStep::Decrement
    } else if w == 2 {
        DmaStep::Fixed
    } else {
        DmaStep::IncrementReload
    }
}

/// Decodes a trigger-timing word.
fn timing_from_word(w: u32) -> (t: DmaTiming)
    ensures
        w <= 3 ==> t == spec_timing(w as u16),
{
    if w == 0 {
        DmaTiming::Immediate
    } else if w == 1 {
        DmaTiming::VBlank
    } else if w == 2 {
        DmaTiming::HBlank
    } else {
        DmaTiming::Special
    }
}


/// The snapshot of a well-formed machine is a valid snapshot.
#[verifier::rlimit(100)]
#[verifier::spinoff_prover]
proof fn lemma_snapshot_valid_of(g: Gba)
    requires
        gba_wf(g),
    ensures
        spec_snapshot_valid(spec_snapshot_words(g)),
{
    let b = spec_snapshot_words(g);
    assert(b.len() == 137343 + g.bus.pack.backup.data@.len() / 4 + 24);
    let base2 = 137343 + g.bus.pack.backup.data@.len() / 4;
    assert(spec_snapshot_backup_len(b) == g.bus.pack.backup.data@.len());
    assert forall|k: int| 0 <= k < 24 implies #[trigger] b[base2 + k] == spec_tail_word(
        g,
        k,
    ) by {
        assert(b[base2 + k] == spec_snapshot_word(g, base2 + k));
    }
    assert(b[base2 + 0int] == spec_tail_word(g, 0) && b[base2 + 1int] == spec_tail_word(g, 1) && b[base2 + 2int] == spec_tail_word(g, 2) && b[base2 + 3int] == spec_tail_word(g, 3) && b[base2 + 4int] == spec_tail_word(g, 4) && b[base2 + 5int] == spec_tail_word(g, 5) && b[base2 + 6int] == spec_tail_word(g, 6) && b[base2 + 7int] == spec_tail_word(g, 7) && b[base2 + 12int] == spec_tail_word(g, 12) && b[base2 + 13int] == spec_tail_word(g, 13) && b[base2 + 14int] == spec_tail_word(g, 14) && b[base2 + 15int] == spec_tail_word(g, 15) && b[base2 + 16int] == spec_tail_word(g, 16) && b[base2 + 17int] == spec_tail_word(g, 17) && b[base2 + 18int] == spec_tail_word(g, 18) && b[base2 + 19int] == spec_tail_word(g, 19) && b[base2 + 20int] == spec_tail_word(g, 20) && b[base2 + 21int] == spec_tail_word(g, 21));
    assert(b[114] == spec_kind_word(g.bus.pack.backup.kind) && b[115] <= 1 && b[116]
        == spec_flash_state_word(g.bus.pack.backup.flash_state) && b[117]
        == spec_flash_mode_word(g.bus.pack.backup.flash_mode) && b[118]
        == g.bus.pack.backup.flash_bank as u32 && b[120]
        == g.bus.pack.backup.eeprom_addr_bits as u32);
    assert(b[121] == spec_eeprom_words(g.bus.pack.backup.eeprom_mode).0 && b[122]
        == spec_eeprom_words(g.bus.pack.backup.eeprom_mode).1 && b[123] == spec_eeprom_words(
        g.bus.pack.backup.eeprom_mode,
    ).2);
    assert(b[37] == g.bus.ppu.vcount as u32 && b[38] == g.bus.ppu.dot);
    assert forall|k: int| 35 <= k < 51 && k != 38 implies #[trigger] b[k] < 0x10000 by {
        assert(b[k] == spec_scalar_word(g, k));
    }
    assert forall|t: int| 0 <= t < 4 implies #[trigger] b[51 + 5 * t] < 0x10000 && b[52 + 5 * t]
        < 0x10000 && b[53 + 5 * t] < 0x10000 && b[54 + 5 * t] <= 7 by {
        assert(b[51 + 5 * t] == spec_scalar_word(g, 51 + 5 * t) && b[52 + 5 * t]
            == spec_scalar_word(g, 52 + 5 * t) && b[53 + 5 * t] == spec_scalar_word(
            g,
            53 + 5 * t,
        ) && b[54 + 5 * t] == spec_scalar_word(g, 54 + 5 * t));
        assert((51 + 5 * t - 51) % 5 == 0 && (52 + 5 * t - 51) % 5 == 1 && (53 + 5 * t - 51) % 5
            == 2 && (54 + 5 * t - 51) % 5 == 3) by (nonlinear_arith)
            requires
                0 <= t < 4,
        ;
    }
    assert forall|c: int| 0 <= c < 4 implies #[trigger] b[73 + 9 * c] < 0x10000 && b[76 + 9 * c]
        <= 3 && b[77 + 9 * c] <= 3 && b[78 + 9 * c] <= 3 && b[79 + 9 * c] <= 15 by {
        assert(b[73 + 9 * c] == spec_scalar_word(g, 73 + 9 * c) && b[76 + 9 * c]
            == spec_scalar_word(g, 76 + 9 * c) && b[77 + 9 * c] == spec_scalar_word(
            g,
            77 + 9 * c,
        ) && b[78 + 9 * c] == spec_scalar_word(g, 78 + 9 * c) && b[79 + 9 * c]
            == spec_scalar_word(g, 79 + 9 * c));
        assert((73 + 9 * c - 71) % 9 == 2 && (76 + 9 * c - 71) % 9 == 5 && (77 + 9 * c - 71) % 9
            == 6 && (78 + 9 * c - 71) % 9 == 7 && (79 + 9 * c - 71) % 9 == 8)
            by (nonlinear_arith)
            requires
                0 <= c < 4,
        ;
    }
    assert(b[107] == g.bus.irq.enable as u32 && b[108] == g.bus.irq.pending as u32 && b[110]
        == g.bus.key_input as u32 && b[109] <= 1 && b[113] <= 1 && b[119] <= 1);
}

/// The processor's fields come back from a snapshot's words.
#[verifier::rlimit(100)]
#[verifier::spinoff_prover]
proof fn lemma_snapshot_cpu(g: Gba)
    requires
        gba_wf(g),
    ensures
        ({
            let b = spec_snapshot_words(g);
            &&& crate::cpsr::spec_cpsr_from_bits(b[34]) == g.cpu.cpsr
            &&& forall|i: int| 0 <= i < 15 ==> b[i] == g.cpu.regs@[i]
            &&& (if crate::cpsr::spec_cpsr_from_bits(b[34]).thumb {
                b[15] & 0xffff_fffe
            } else {
                b[15] & 0xffff_fffc
            }) == g.cpu.regs@[15]
            &&& forall|i: int| 0 <= i < 6 ==> b[16 + i] == g.cpu.banked_sp@[i]
            &&& forall|i: int| 0 <= i < 6 ==> b[22 + i] == g.cpu.banked_lr@[i]
            &&& forall|i: int| 0 <= i < 6 ==> b[28 + i] == g.cpu.banked_spsr@[i]
        }),
{
    crate::cpsr::lemma_cpsr_pack_unpack(g.cpu.cpsr);
    let pc = g.cpu.regs@[15];
    assert(pc % 2 == 0 ==> pc & 0xffff_fffe == pc) by (bit_vector);
    assert(pc % 4 == 0 ==> pc & 0xffff_fffc == pc) by (bit_vector);
}

/// The timers come back from a snapshot's words.
#[verifier::rlimit(100)]
#[verifier::spinoff_prover]
proof fn lemma_snapshot_timers(g: Gba)
    requires
        gba_wf(g),
    ensures
        ({
            let b = spec_snapshot_words(g);
            &&& spec_timer_from_words(b[51], b[52], b[53], b[54], b[55]) == g.bus.timers.t0
            &&& spec_timer_from_words(b[56], b[57], b[58], b[59], b[60]) == g.bus.timers.t1
            &&& spec_timer_from_words(b[61], b[62], b[63], b[64], b[65]) == g.bus.timers.t2
            &&& spec_timer_from_words(b[66], b[67], b[68], b[69], b[70]) == g.bus.timers.t3
        }),
{
    let b = spec_snapshot_words(g);
    assert(b[51] == spec_scalar_word(g, 51) && b[52] == spec_scalar_word(g, 52) && b[53]
        == spec_scalar_word(g, 53) && b[54] == spec_scalar_word(g, 54) && b[55]
        == spec_scalar_word(g, 55) && b[56] == spec_scalar_word(g, 56) && b[57]
        == spec_scalar_word(g, 57) && b[58] == spec_scalar_word(g, 58) && b[59]
        == spec_scalar_word(g, 59) && b[60] == spec_scalar_word(g, 60) && b[61]
        == spec_scalar_word(g, 61) && b[62] == spec_scalar_word(g, 62) && b[63]
        == spec_scalar_word(g, 63) && b[64] == spec_scalar_word(g, 64) && b[65]
        == spec_scalar_word(g, 65) && b[66] == spec_scalar_word(g, 66) && b[67]
        == spec_scalar_word(g, 67) && b[68] == spec_scalar_word(g, 68) && b[69]
        == spec_scalar_word(g, 69) && b[70] == spec_scalar_word(g, 70));
    assert(spec_timer_from_words(b[51], b[52], b[53], b[54], b[55]) == g.bus.timers.t0);
    assert(spec_timer_from_words(b[56], b[57], b[58], b[59], b[60]) == g.bus.timers.t1);
    assert(spec_timer_from_words(b[61], b[62], b[63], b[64], b[65]) == g.bus.timers.t2);
    assert(spec_timer_from_words(b[66], b[67], b[68], b[69], b[70]) == g.bus.timers.t3);
}

/// The EEPROM protocol position comes back from a snapshot's words.
#[verifier::rlimit(100)]
#[verifier::spinoff_prover]
proof fn lemma_snapshot_eeprom(g: Gba)
    requires
        gba_wf(g),
    ensures
        ({
            let b = spec_snapshot_words(g);
            spec_eeprom_from_words(b[121], b[122], b[123], b[124], b[125])
                == g.bus.pack.backup.eeprom_mode
        }),
{
    let b = spec_snapshot_words(g);
    assert(b[121] == spec_scalar_word(g, 121) && b[122] == spec_scalar_word(g, 122) && b[123]
        == spec_scalar_word(g, 123) && b[124] == spec_scalar_word(g, 124) && b[125]
        == spec_scalar_word(g, 125));
    assert(spec_eeprom_from_words(b[121], b[122], b[123], b[124], b[125])
        == g.bus.pack.backup.eeprom_mode);
}

/// One DMA channel's nine snapshot words rebuild that channel.
#[verifier::rlimit(100)]
#[verifier::spinoff_prover]
proof fn lemma_dma_channel_words(g: Gba, at: int, c: DmaChannel)
    requires
        gba_wf(g),
        at == 71 && c == g.bus.dma0 || at == 80 && c == g.bus.dma1 || at == 89 && c
            == g.bus.dma2 || at == 98 && c == g.bus.dma3,
    ensures
        ({
            let b = spec_snapshot_words(g);
            spec_dma_from_words(
                b[at],
                b[at + 1],
                b[at + 2],
                b[at + 3],
                b[at + 4],
                b[at + 5],
                b[at + 6],
                b[at + 7],
                b[at + 8],
            ) == c
        }),
{
    let b = spec_snapshot_words(g);
    assert forall|f: int| 0 <= f < 9 implies #[trigger] b[at + f] == spec_dma_word(c, f) by {
        assert(b[at + f] == spec_scalar_word(g, at + f));
        assert((at + f - 71) % 9 == f) by (nonlinear_arith)
            requires
                0 <= f < 9 && (at == 71 || at == 80 || at == 89 || at == 98),
        ;
    }
    assert(b[at + 0] == spec_dma_word(c, 0) && b[at + 1] == spec_dma_word(c, 1) && b[at + 2]
        == spec_dma_word(c, 2) && b[at + 3] == spec_dma_word(c, 3) && b[at + 4]
        == spec_dma_word(c, 4) && b[at + 5] == spec_dma_word(c, 5) && b[at + 6]
        == spec_dma_word(c, 6) && b[at + 7] == spec_dma_word(c, 7) && b[at + 8]
        == spec_dma_word(c, 8));
}

/// Every RAM region, the frame buffer and the backup contents come back
/// from a snapshot's words.
#[verifier::rlimit(100)]
#[verifier::spinoff_prover]
proof fn lemma_snapshot_arrays(g: Gba)
    requires
        gba_wf(g),
    ensures
        ({
            let b = spec_snapshot_words(g);
            &&& forall|i: int|
                0 <= i < 0x40000 ==> spec_word_byte(b[127 + i / 4], i % 4) == g.bus.ewram@[i]
            &&& forall|i: int|
                0 <= i < 0x8000 ==> spec_word_byte(b[65663 + i / 4], i % 4) == g.bus.iwram@[i]
            &&& forall|i: int|
                0 <= i < 0x400 ==> spec_word_byte(b[73855 + i / 4], i % 4) == g.bus.palette@[i]
            &&& forall|i: int|
                0 <= i < 0x18000 ==> spec_word_byte(b[74111 + i / 4], i % 4) == g.bus.vram@[i]
            &&& forall|i: int|
                0 <= i < 0x400 ==> spec_word_byte(b[98687 + i / 4], i % 4) == g.bus.oam@[i]
            &&& forall|j: int| 0 <= j < 38400 ==> b[98943 + j] == g.bus.ppu.frame_buffer@[j]
            &&& forall|i: int|
                0 <= i < g.bus.pack.backup.data@.len() ==> spec_word_byte(
                    b[137343 + i / 4],
                    i % 4,
                ) == g.bus.pack.backup.data@[i]
        }),
{
    let b = spec_snapshot_words(g);
    lemma_region_round_trip(g.bus.ewram@, b, 127);
    lemma_region_round_trip(g.bus.iwram@, b, 65663);
    lemma_region_round_trip(g.bus.palette@, b, 73855);
    lemma_region_round_trip(g.bus.vram@, b, 74111);
    lemma_region_round_trip(g.bus.oam@, b, 98687);
    lemma_region_round_trip(g.bus.pack.backup.data@, b, 137343);
}

/// The snapshot's tail words restore the display-extension registers and
/// the cycle counter exactly.
#[verifier::rlimit(100)]
#[verifier::spinoff_prover]
proof fn lemma_snapshot_tail(g: Gba)
    requires
        gba_wf(g),
    ensures
        ({
            let b = spec_snapshot_words(g);
            let base2 = 137343 + spec_snapshot_backup_len(b) / 4;
            &&& b[base2 + 0int] as u16 == g.bus.ppu.bg2pa
            &&& b[base2 + 1int] as u16 == g.bus.ppu.bg2pb
            &&& b[base2 + 2int] as u16 == g.bus.ppu.bg2pc
            &&& b[base2 + 3int] as u16 == g.bus.ppu.bg2pd
            &&& b[base2 + 4int] as u16 == g.bus.ppu.bg3pa
            &&& b[base2 + 5int] as u16 == g.bus.ppu.bg3pb
            &&& b[base2 + 6int] as u16 == g.bus.ppu.bg3pc
            &&& b[base2 + 7int] as u16 == g.bus.ppu.bg3pd
            &&& b[base2 + 8int] == g.bus.ppu.bg2x
            &&& b[base2 + 9int] == g.bus.ppu.bg2y
            &&& b[base2 + 10int] == g.bus.ppu.bg3x
            &&& b[base2 + 11int] == g.bus.ppu.bg3y
            &&& b[base2 + 12int] as u16 == g.bus.ppu.win0h
            &&& b[base2 + 13int] as u16 == g.bus.ppu.win1h
            &&& b[base2 + 14int] as u16 == g.bus.ppu.win0v
            &&& b[base2 + 15int] as u16 == g.bus.ppu.win1v
            &&& b[base2 + 16int] as u16 == g.bus.ppu.winin
            &&& b[base2 + 17int] as u16 == g.bus.ppu.winout
            &&& b[base2 + 18int] as u16 == g.bus.ppu.mosaic
            &&& b[base2 + 19int] as u16 == g.bus.ppu.bldcnt
            &&& b[base2 + 20int] as u16 == g.bus.ppu.bldalpha
            &&& b[base2 + 21int] as u16 == g.bus.ppu.bldy
            &&& b[base2 + 22int] + 0x1_0000_0000 * b[base2 + 23int] == g.total_cycles
        }),
{
    let b = spec_snapshot_words(g);
    assert(spec_snapshot_backup_len(b) == g.bus.pack.backup.data@.len());
    let base2 = 137343 + g.bus.pack.backup.data@.len() / 4;
    assert forall|k: int| 0 <= k < 24 implies #[trigger] b[base2 + k] == spec_tail_word(
        g,
        k,
    ) by {
        assert(b[base2 + k] == spec_snapshot_word(g, base2 + k));
    }
    assert(g.total_cycles % 0x1_0000_0000 + 0x1_0000_0000 * (g.total_cycles / 0x1_0000_0000)
        == g.total_cycles);
}

/// Save-state round trip: the snapshot of a well-formed machine is a
/// valid snapshot, and every field `restore` reads back from it — with
/// the same ROM and BIOS reattached — is the captured machine's own, so
/// resuming from the restored machine continues exactly where the
/// captured one stood.
pub proof fn lemma_snapshot_round_trip(g: Gba)
    requires
        gba_wf(g),
    ensures
        spec_snapshot_valid(spec_snapshot_words(g)),
        ({
            let b = spec_snapshot_words(g);
            &&& crate::cpsr::spec_cpsr_from_bits(b[34]) == g.cpu.cpsr
            &&& forall|i: int| 0 <= i < 15 ==> b[i] == g.cpu.regs@[i]
            &&& (if crate::cpsr::spec_cpsr_from_bits(b[34]).thumb {
                b[15] & 0xffff_fffe
            } else {
                b[15] & 0xffff_fffc
            }) == g.cpu.regs@[15]
            &&& forall|i: int| 0 <= i < 6 ==> b[16 + i] == g.cpu.banked_sp@[i]
            &&& forall|i: int| 0 <= i < 6 ==> b[22 + i] == g.cpu.banked_lr@[i]
            &&& forall|i: int| 0 <= i < 6 ==> b[28 + i] == g.cpu.banked_spsr@[i]
            &&& spec_timer_from_words(b[51], b[52], b[53], b[54], b[55]) == g.bus.timers.t0
            &&& spec_timer_from_words(b[56], b[57], b[58], b[59], b[60]) == g.bus.timers.t1
            &&& spec_timer_from_words(b[61], b[62], b[63], b[64], b[65]) == g.bus.timers.t2
            &&& spec_timer_from_words(b[66], b[67], b[68], b[69], b[70]) == g.bus.timers.t3
            &&& spec_dma_from_words(
                b[71],
                b[72],
                b[73],
                b[74],
                b[75],
                b[76],
                b[77],
                b[78],
                b[79],
            ) == g.bus.dma0
            &&& spec_dma_from_words(
                b[80],
                b[81],
                b[82],
                b[83],
                b[84],
                b[85],
                b[86],
                b[87],
                b[88],
            ) == g.bus.dma1
            &&& spec_dma_from_words(
                b[89],
                b[90],
                b[91],
                b[92],
                b[93],
                b[94],
                b[95],
                b[96],
                b[97],
            ) == g.bus.dma2
            &&& spec_dma_from_words(
                b[98],
                b[99],
                b[100],
                b[101],
                b[102],
                b[103],
                b[104],
                b[105],
                b[106],
            ) == g.bus.dma3
            &&& spec_eeprom_from_words(b[121], b[122], b[123], b[124], b[125])
                == g.bus.pack.backup.eeprom_mode
            &&& forall|i: int|
                0 <= i < 0x40000 ==> spec_word_byte(b[127 + i / 4], i % 4) == g.bus.ewram@[i]
            &&& forall|i: int|
                0 <= i < 0x8000 ==> spec_word_byte(b[65663 + i / 4], i % 4) == g.bus.iwram@[i]
            &&& forall|i: int|
                0 <= i < 0x400 ==> spec_word_byte(b[73855 + i / 4], i % 4) == g.bus.palette@[i]
            &&& forall|i: int|
                0 <= i < 0x18000 ==> spec_word_byte(b[74111 + i / 4], i % 4) == g.bus.vram@[i]
            &&& forall|i: int|
                0 <= i < 0x400 ==> spec_word_byte(b[98687 + i / 4], i % 4) == g.bus.oam@[i]
            &&& forall|j: int| 0 <= j < 38400 ==> b[98943 + j] == g.bus.ppu.frame_buffer@[j]
            &&& forall|i: int|
                0 <= i < g.bus.pack.backup.data@.len() ==> spec_word_byte(
                    b[137343 + i / 4],
                    i % 4,
                ) == g.bus.pack.backup.data@[i]
            &&& ({
                let base2 = 137343 + spec_snapshot_backup_len(b) / 4;
                &&& b[base2 + 0int] as u16 == g.bus.ppu.bg2pa
                &&& b[base2 + 8int] == g.bus.ppu.bg2x
                &&& b[base2 + 16int] as u16 == g.bus.ppu.winin
                &&& b[base2 + 19int] as u16 == g.bus.ppu.bldcnt
                &&& b[base2 + 22int] + 0x1_0000_0000 * b[base2 + 23int] == g.total_cycles
            })
        }),
{
    lemma_snapshot_valid_of(g);
    lemma_snapshot_tail(g);
    lemma_snapshot_cpu(g);
    lemma_snapshot_timers(g);
    lemma_dma_channel_words(g, 71, g.bus.dma0);
    lemma_dma_channel_words(g, 80, g.bus.dma1);
    lemma_dma_channel_words(g, 89, g.bus.dma2);
    lemma_dma_channel_words(g, 98, g.bus.dma3);
    lemma_snapshot_eeprom(g);
    lemma_snapshot_arrays(g);
}

/// Each byte of a region comes back from its packed snapshot words.
proof fn lemma_region_round_trip(data: Seq<u8>, b: Seq<u32>, base: int)
    requires
        forall|j: int| 0 <= j < data.len() / 4 ==> b[base + j] == spec_region_word(data, j),
        data.len() % 4 == 0,
    ensures
        forall|i: int|
            0 <= i < data.len() ==> spec_word_byte(b[base + i / 4], i % 4) == data[i],
{
    assert forall|i: int| 0 <= i < data.len() implies spec_word_byte(b[base + i / 4], i % 4)
        == data[i] by {
        let j = i / 4;
        assert(b[base + j] == spec_region_word(data, j));
        lemma_word_byte_round_trip(data[4 * j], data[4 * j + 1], data[4 * j + 2], data[4 * j + 3]);
        assert(i == 4 * j + i % 4);
        assert(i % 4 == 0 || i % 4 == 1 || i % 4 == 2 || i % 4 == 3);
    }
}

} // verus!
