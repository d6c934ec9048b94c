//! The whole machine: CPU and bus assembled, the per-frame driver, the
//! DMA engine's transfers through the bus, and the save-data interface.
//! One shared cycle count orders every effect: the CPU reports each
//! instruction's cost, the PPU and timers advance by it, triggered DMA
//! channels run to completion in channel order, and pending interrupts
//! are evaluated before the next fetch.

use vstd::prelude::*;
use crate::cpu::{Cpu, cpu_wf};
use crate::bus::{Bus, bus_wf};
use crate::gamepack::{GamePack, pack_wf};
use crate::ppu::{Ppu, FRAME_CYCLES};
use crate::timers::Timers;
use crate::dma::{DmaChannel, DmaTiming};
use crate::interrupts::InterruptControl;


verus! {


/// The machine.
pub struct Gba {
    pub cpu: Cpu,
    pub bus: Bus,
    /// Bus cycles the machine has run, modulo the counter's width: a
    /// monotone clock that grows by exactly one frame per frame call.
    pub total_cycles: u64,
}

/// A well-formed machine.
pub open spec fn gba_wf(g: Gba) -> bool {
    &&& cpu_wf(g.cpu)
    &&& bus_wf(g.bus)
}

/// A RAM region of `n` zero bytes.
fn zero_bytes(n: usize) -> (v: Vec<u8>)
    ensures
        v@.len() == n,
        forall|i: int| 0 <= i < n ==> v@[i] == 0,
{
    let mut v: Vec<u8> = Vec::new();
    let mut i: usize = 0;
    while i < n
        invariant
            v@.len() == i,
            i <= n,
            forall|j: int| 0 <= j < i ==> v@[j] == 0,
        decreases n - i,
    {
        v.push(0);
        i = i + 1;
    }
    v
}


/// DMA channel `which` of the machine.
pub open spec fn spec_channel(g: Gba, which: u32) -> DmaChannel {
    if which == 0 {
        g.bus.dma0
    } else if which == 1 {
        g.bus.dma1
    } else if which == 2 {
        g.bus.dma2
    } else {
        g.bus.dma3
    }
}

/// The unit count a fired channel transfers: the written count clamped
/// to the channel's maximum, zero meaning the maximum.
pub open spec fn spec_run_count(c: DmaChannel, which: u32) -> u32 {
    let max: u32 = if which == 3 {
        0x10000
    } else {
        0x4000
    };
    if c.count_reg == 0 {
        max
    } else if c.count_reg as u32 > max {
        max
    } else {
        c.count_reg as u32
    }
}

/// The interrupt-pending bit of DMA channel `which`.
pub open spec fn spec_dma_irq_bit(which: u32) -> u16 {
    if which == 0 {
        crate::interrupts::IRQ_DMA0
    } else if which == 1 {
        crate::interrupts::IRQ_DMA1
    } else if which == 2 {
        crate::interrupts::IRQ_DMA2
    } else {
        crate::interrupts::IRQ_DMA3
    }
}


impl Gba {
    /// Builds the machine around a cartridge, entering at the given
    /// address: the BIOS reset vector for a full boot, or the ROM's entry
    /// point to skip the BIOS.
    pub fn new(entry: u32, pack: GamePack) -> (g: Gba)
        requires
            pack_wf(pack),
        ensures
            gba_wf(g),
            g.bus.pack == pack,
            g.cpu.regs@[15] == entry & 0xffff_fffc,
            g.cpu.regs@[13] == 0x0300_7f00,
            forall|i: int| 0 <= i < 16 && i != 13 && i != 15 ==> g.cpu.regs@[i] == 0,
            g.cpu.cpsr.thumb == false,
            forall|i: int| 0 <= i < 0x40000 ==> g.bus.ewram@[i] == 0,
            forall|i: int| 0 <= i < 0x8000 ==> g.bus.iwram@[i] == 0,
            forall|i: int| 0 <= i < 0x400 ==> g.bus.palette@[i] == 0,
            forall|i: int| 0 <= i < 0x18000 ==> g.bus.vram@[i] == 0,
            forall|i: int| 0 <= i < 0x400 ==> g.bus.oam@[i] == 0,
            forall|j: int| 0 <= j < 38400 ==> g.bus.ppu.frame_buffer@[j] == 0,
            g.bus.ppu == (Ppu {
                frame_buffer: g.bus.ppu.frame_buffer,
                dispcnt: 0,
                dispstat: 0,
                vcount: 0,
                dot: 0,
                bg0cnt: 0,
                bg1cnt: 0,
                bg2cnt: 0,
                bg3cnt: 0,
                bg0hofs: 0,
                bg0vofs: 0,
                bg1hofs: 0,
                bg1vofs: 0,
                bg2hofs: 0,
                bg2vofs: 0,
                bg3hofs: 0,
                bg3vofs: 0,
                bg2pa: 0,
                bg2pb: 0,
                bg2pc: 0,
                bg2pd: 0,
                bg3pa: 0,
                bg3pb: 0,
                bg3pc: 0,
                bg3pd: 0,
                bg2x: 0,
                bg2y: 0,
                bg3x: 0,
                bg3y: 0,
                win0h: 0,
                win1h: 0,
                win0v: 0,
                win1v: 0,
                winin: 0,
                winout: 0,
                mosaic: 0,
                bldcnt: 0,
                bldalpha: 0,
                bldy: 0,
            }),
            g.bus.timers.t0 == crate::timers::spec_reset_channel(),
            g.bus.timers.t1 == crate::timers::spec_reset_channel(),
            g.bus.timers.t2 == crate::timers::spec_reset_channel(),
            g.bus.timers.t3 == crate::timers::spec_reset_channel(),
            g.bus.dma0 == crate::dma::spec_dma_reset(),
            g.bus.dma1 == crate::dma::spec_dma_reset(),
            g.bus.dma2 == crate::dma::spec_dma_reset(),
            g.bus.dma3 == crate::dma::spec_dma_reset(),
            g.bus.irq == (InterruptControl { enable: 0, pending: 0, master: false }),
            g.bus.key_input == 0xffff,
            g.bus.open_bus == 0,
            g.bus.last_fetch == 0,
            g.bus.halted == false,
            g.total_cycles == 0,
    {
        let cpu = Cpu::new(entry);
        let bus = Bus {
            pack,
            ewram: zero_bytes(0x40000),
            iwram: zero_bytes(0x8000),
            palette: zero_bytes(0x400),
            vram: zero_bytes(0x18000),
            oam: zero_bytes(0x400),
            ppu: Ppu::new(),
            timers: Timers::new(),
            dma0: DmaChannel::new(),
            dma1: DmaChannel::new(),
            dma2: DmaChannel::new(),
            dma3: DmaChannel::new(),
            irq: InterruptControl::new(),
            key_input: 0xffff,
            open_bus: 0,
            last_fetch: 0,
            halted: false,
        };
        Gba { cpu, bus, total_cycles: 0 }
    }

    /// Runs one DMA channel's pending transfer through the bus: exactly
    /// its unit count of reads and writes, stepped as configured, then
    /// the completion bookkeeping and interrupt. A disabled channel does
    /// nothing; a fired one ends in its completed state — re-armed or
    /// disabled as the repeat flag says — whatever the transfer wrote,
    /// and leaves its interrupt bit pending exactly when enabled.
    fn run_dma_channel(&mut self, which: u32) -> (cycles: u32)
        requires
            gba_wf(*old(self)),
            which < 4,
        ensures
            gba_wf(*final(self)),
            cycles <= 0x40004,
            final(self).bus.ppu.vcount == old(self).bus.ppu.vcount,
            final(self).bus.ppu.dot == old(self).bus.ppu.dot,
            final(self).cpu == old(self).cpu,
            final(self).total_cycles == old(self).total_cycles,
            ({
                let ch = spec_channel(*old(self), which);
                let cnt = spec_run_count(ch, which);
                &&& (!ch.enabled ==> *final(self) == *old(self) && cycles == 0)
                &&& (ch.enabled ==> spec_channel(*final(self), which)
                    == crate::dma::spec_dma_completed(ch, cnt) && cycles == 2 * cnt + 4)
                &&& (ch.enabled && ch.irq ==> final(self).bus.irq.pending & spec_dma_irq_bit(
                    which,
                ) == spec_dma_irq_bit(which))
            }),
    {
        let ch: DmaChannel = if which == 0 {
            self.bus.dma0
        } else if which == 1 {
            self.bus.dma1
        } else if which == 2 {
            self.bus.dma2
        } else {
            self.bus.dma3
        };
        if !ch.enabled {
            return 0;
        }
        let max: u32 = if which == 3 {
            0x10000
        } else {
            0x4000
        };
        let count: u32 = if ch.count_reg == 0 {
            max
        } else if ch.count_reg as u32 > max {
            max
        } else {
            ch.count_reg as u32
        };
        let schedule = ch.schedule(count);
        let mut i: usize = 0;
        while i < schedule.len()
            invariant
                gba_wf(*self),
                schedule@.len() <= 0x10000,
                self.bus.ppu.vcount == old(self).bus.ppu.vcount,
                self.bus.ppu.dot == old(self).bus.ppu.dot,
                self.cpu == old(self).cpu,
                self.total_cycles == old(self).total_cycles,
            decreases schedule@.len() - i,
        {
            let (src, dst) = schedule[i];
            if ch.word {
                let v = self.bus.read32(src);
                self.bus.write32(dst, v);
            } else {
                let v = self.bus.read16(src);
                self.bus.write16(dst, v);
            }
            i = i + 1;
        }
        let mut done = ch;
        done.complete(count);
        if which == 0 {
            self.bus.dma0 = done;
        } else if which == 1 {
            self.bus.dma1 = done;
        } else if which == 2 {
            self.bus.dma2 = done;
        } else {
            self.bus.dma3 = done;
        }
        if ch.irq {
            let bit: u16 = if which == 0 {
                crate::interrupts::IRQ_DMA0
            } else if which == 1 {
                crate::interrupts::IRQ_DMA1
            } else if which == 2 {
                crate::interrupts::IRQ_DMA2
            } else {
                crate::interrupts::IRQ_DMA3
            };
            let ghost p0 = self.bus.irq.pending;
            self.bus.irq.raise(bit);
            proof {
                let p = p0;
                let b = bit;
                assert((p | b) & b == b) by (bit_vector);
            }
        }
        2 * count + 4
    }

    /// Fires every armed channel whose trigger matches, in channel order.
    fn run_dma_matching(&mut self, timing: DmaTiming) -> (cycles: u32)
        requires
            gba_wf(*old(self)),
        ensures
            gba_wf(*final(self)),
            cycles <= 0x100010,
            final(self).bus.ppu.vcount == old(self).bus.ppu.vcount,
            final(self).bus.ppu.dot == old(self).bus.ppu.dot,
            final(self).cpu == old(self).cpu,
            final(self).total_cycles == old(self).total_cycles,
    {
        let mut total: u32 = 0;
        if self.bus.dma0.enabled && self.bus.dma0.timing == timing {
            total = total + self.run_dma_channel(0);
        }
        if self.bus.dma1.enabled && self.bus.dma1.timing == timing {
            total = total + self.run_dma_channel(1);
        }
        if self.bus.dma2.enabled && self.bus.dma2.timing == timing {
            total = total + self.run_dma_channel(2);
        }
        if self.bus.dma3.enabled && self.bus.dma3.timing == timing {
            total = total + self.run_dma_channel(3);
        }
        total
    }

    /// Advances the PPU and timers by `cycles` (split into scanline-sized
    /// chunks), fires blanking-triggered DMA, and raises interrupts. The
    /// dot clock moves by exactly `cycles`, modulo the frame.
    fn tick_peripherals(&mut self, cycles: u32) -> (extra: u64)
        requires
            gba_wf(*old(self)),
        ensures
            gba_wf(*final(self)),
            extra <= 0x300000,
            final(self).bus.ppu.vcount * 1232 + final(self).bus.ppu.dot == (old(
                self,
            ).bus.ppu.vcount * 1232 + old(self).bus.ppu.dot + cycles) % 280896,
            final(self).total_cycles == old(self).total_cycles,
    {
        let ghost pos0 = old(self).bus.ppu.vcount * 1232 + old(self).bus.ppu.dot;
        proof {
            vstd::arithmetic::div_mod::lemma_small_mod(pos0 as nat, 280896);
        }
        let mut left = cycles;
        let mut extra: u64 = 0;
        let mut fired_v = false;
        let mut fired_h = false;
        while left > 0
            invariant
                gba_wf(*self),
                left <= cycles,
                self.bus.ppu.vcount * 1232 + self.bus.ppu.dot == (pos0 + cycles - left) % 280896,
                self.total_cycles == old(self).total_cycles,
                extra <= (if fired_v {
                    0x100010u64
                } else {
                    0u64
                }) + (if fired_h {
                    0x100010u64
                } else {
                    0u64
                }),
            decreases left,
        {
            let chunk = if left > 1232 {
                1232
            } else {
                left
            };
            left = left - chunk;
            let ev = {
                let bus = &mut self.bus;
                let step = bus.ppu.advance(&bus.palette, &bus.vram, &bus.oam, chunk);
                step
            };
            proof {
                vstd::arithmetic::div_mod::lemma_add_mod_noop(
                    pos0 + cycles - left - chunk,
                    chunk as int,
                    280896,
                );
                vstd::arithmetic::div_mod::lemma_small_mod(chunk as nat, 280896);
            }
            let timer_irq = self.bus.timers.advance(chunk);
            if ev.irq != 0 {
                self.bus.irq.raise(ev.irq);
            }
            if timer_irq != 0 {
                self.bus.irq.raise(timer_irq);
            }
            if ev.vblank && !fired_v {
                fired_v = true;
                extra = extra + self.run_dma_matching(DmaTiming::VBlank) as u64;
            }
            if ev.hblank && !fired_h {
                fired_h = true;
                extra = extra + self.run_dma_matching(DmaTiming::HBlank) as u64;
            }
        }
        extra
    }

    /// Runs the machine for one video frame's worth of cycles and
    /// returns: the dot clock and the cycle counter advance by exactly
    /// the frame length, so the scanline/dot position comes back to where
    /// it stood. The frame buffer then holds the new picture; input is
    /// read from the key register as the caller last set it. A last
    /// instruction or transfer overrunning the frame budget is absorbed:
    /// the peripherals stop at the boundary and the excess is dropped.
    pub fn frame(&mut self)
        requires
            gba_wf(*old(self)),
        ensures
            gba_wf(*final(self)),
            final(self).bus.ppu.vcount * 1232 + final(self).bus.ppu.dot == (old(
                self,
            ).bus.ppu.vcount * 1232 + old(self).bus.ppu.dot + FRAME_CYCLES) % 280896,
            final(self).total_cycles == (old(self).total_cycles + FRAME_CYCLES)
                % 0x1_0000_0000_0000_0000,
    {
        self.total_cycles = self.total_cycles.wrapping_add(FRAME_CYCLES as u64);
        let ghost pos0 = old(self).bus.ppu.vcount * 1232 + old(self).bus.ppu.dot;
        let mut budget: u32 = FRAME_CYCLES;
        let mut carry: u32 = 0;
        while budget > 0
            invariant
                gba_wf(*self),
                self.bus.ppu.vcount * 1232 + self.bus.ppu.dot == (pos0 + FRAME_CYCLES
                    - budget) % 280896,
                self.total_cycles == (old(self).total_cycles + FRAME_CYCLES)
                    % 0x1_0000_0000_0000_0000,
                budget <= FRAME_CYCLES,
                carry <= 0x300000,
            decreases budget,
        {
            let spent: u32 = if self.bus.halted {
                if self.bus.irq.irq_asserted() {
                    self.bus.halted = false;
                }
                1
            } else {
                self.cpu.step(&mut self.bus)
            };
            let imm = self.run_dma_matching(DmaTiming::Immediate);
            let work: u32 = spent + imm + carry;
            let t: u32 = if work > budget {
                budget
            } else {
                work
            };
            let extra = self.tick_peripherals(t);
            carry = extra as u32;
            budget = budget - t;
        }
    }

    /// Seeds backup storage from an externally supplied save file. The
    /// buffer must be exactly the size of the detected backup kind;
    /// anything else is rejected and nothing changes.
    pub fn load_save_file(&mut self, bytes: &Vec<u8>) -> (r: Result<(), ()>)
        requires
            gba_wf(*old(self)),
        ensures
            gba_wf(*final(self)),
            r is Ok <==> bytes@.len() == old(self).bus.pack.backup.data@.len(),
            r is Ok ==> final(self).bus.pack.backup.data@ == bytes@,
            r is Err ==> *final(self) == *old(self),
    {
        self.bus.pack.backup.import(bytes)
    }

    /// Returns the backup contents for the caller to persist and clears
    /// the changed flag.
    pub fn get_save_data(&mut self) -> (out: Vec<u8>)
        requires
            gba_wf(*old(self)),
        ensures
            gba_wf(*final(self)),
            out@ == old(self).bus.pack.backup.data@,
            final(self).bus.pack.backup.dirty == false,
    {
        self.bus.pack.backup.export()
    }

    /// Whether backup contents changed since the last `get_save_data`.
    pub fn save_dirty(&self) -> (d: bool)
        ensures
            d == self.bus.pack.backup.dirty,
    {
        self.bus.pack.backup.is_dirty()
    }

    /// Sets the key-input register; all bits set means nothing pressed
    /// (the lines are active low).
    pub fn set_keys(&mut self, mask: u16)
        requires
            gba_wf(*old(self)),
        ensures
            gba_wf(*final(self)),
            final(self).bus.key_input == mask,
            *final(self) == (Gba {
                bus: Bus { key_input: mask, ..old(self).bus },
                ..*old(self)
            }),
    {
        self.bus.key_input = mask;
    }
}

} // verus!
