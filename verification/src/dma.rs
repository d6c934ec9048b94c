//! The DMA engine: four channels, each latching source, destination and
//! count when armed. A transfer's address schedule — which unit goes where
//! — is computed here and stated exactly; the bus performs the copies.

use vstd::prelude::*;

verus! {

/// When a channel fires.
#[derive(Clone, Copy, PartialEq, Eq, Structural, Debug)]
pub enum DmaTiming {
    /// On the next cycle boundary after being armed.
    Immediate,
    /// Once per VBlank entry while armed.
    VBlank,
    /// Once per HBlank entry while armed.
    HBlank,
    /// Sound FIFO or video capture; fired by its peripheral.
    Special,
}

/// How one side's address steps between units.
#[derive(Clone, Copy, PartialEq, Eq, Structural, Debug)]
pub enum DmaStep {
    Increment,
    Decrement,
    Fixed,
    /// Increment during the transfer, reload to the written register when
    /// a repeat rearms (destination side only).
    IncrementReload,
}

/// One DMA channel: the registers software writes, the internal latches a
/// transfer uses, and the armed/pending state.
#[derive(Clone, Copy, PartialEq, Eq, Structural, Debug)]
pub struct DmaChannel {
    /// The written source address register.
    pub src_reg: u32,
    /// The written destination address register.
    pub dst_reg: u32,
    /// The written unit count register (0 means the channel maximum).
    pub count_reg: u16,
    /// Latched source address of the transfer in progress.
    pub src: u32,
    /// Latched destination address.
    pub dst: u32,
    pub dst_step: DmaStep,
    pub src_step: DmaStep,
    /// Rearm after each transfer instead of disabling.
    pub repeat: bool,
    /// 32-bit units when set, 16-bit otherwise.
    pub word: bool,
    pub timing: DmaTiming,
    /// Raise this channel's interrupt when a transfer completes.
    pub irq: bool,
    /// The enable bit as software last wrote it.
    pub enabled: bool,
}

/// Decodes the two timing bits.
pub open spec fn spec_timing(bits: u16) -> DmaTiming {
    if bits == 0 {
        DmaTiming::Immediate
    } else if bits == 1 {
        DmaTiming::VBlank
    } else if bits == 2 {
        DmaTiming::HBlank
    } else {
        DmaTiming::Special
    }
}

/// Decodes a two-bit address-step field.
pub open spec fn spec_step(bits: u16) -> DmaStep {
    if bits == 0 {
        DmaStep::Increment
    } else if bits == 1 {
        DmaStep::Decrement
    } else if bits == 2 {
        DmaStep::Fixed
    } else {
        DmaStep::IncrementReload
    }
}

/// The number of units a transfer moves: the written count, or the
/// channel's maximum when the register holds zero.
pub open spec fn spec_unit_count(count_reg: u16, max_count: u32) -> u32 {
    if count_reg == 0 {
        max_count
    } else {
        count_reg as u32
    }
}

/// One unit-step of an address: up, down, or in place, wrapping as the
/// bus does.
pub open spec fn spec_step_once(a: u32, step: DmaStep, unit: u32) -> u32 {
    match step {
        DmaStep::Decrement => if a - unit < 0 {
            (a - unit + 0x1_0000_0000) as u32
        } else {
            (a - unit) as u32
        },
        DmaStep::Fixed => a,
        _ => if a + unit > 0xffff_ffff {
            (a + unit - 0x1_0000_0000) as u32
        } else {
            (a + unit) as u32
        },
    }
}

/// The `i`-th address on one side of a transfer: the base stepped `i`
/// units.
pub open spec fn spec_stepped_addr(base: u32, step: DmaStep, unit: u32, i: int) -> u32
    decreases i,
{
    if i <= 0 {
        base
    } else {
        spec_step_once(spec_stepped_addr(base, step, unit, i - 1), step, unit)
    }
}

impl DmaChannel {
    /// A channel at reset.
    pub fn new() -> (c: DmaChannel)
        ensures
            c == spec_dma_reset(),
    {
        DmaChannel {
            src_reg: 0,
            dst_reg: 0,
            count_reg: 0,
            src: 0,
            dst: 0,
            dst_step: DmaStep::Increment,
            src_step: DmaStep::Increment,
            repeat: false,
            word: false,
            timing: DmaTiming::Immediate,
            irq: false,
            enabled: false,
        }
    }

    /// Software writes the control half-word: bits 5-6 step the
    /// destination, 7-8 the source, 9 repeats, 10 selects 32-bit units,
    /// 12-13 the trigger, 14 the completion interrupt, 15 enables. An
    /// enable rising edge latches the written addresses and count.
    pub fn write_control(&mut self, v: u16)
        ensures
            *final(self) == spec_dma_write_control(*old(self), v),
    {
        let arming = (v & 0x8000 != 0) && !self.enabled;
        self.dst_step = match (v >> 5) & 3 {
            0 => DmaStep::Increment,
            1 => DmaStep::Decrement,
            2 => DmaStep::Fixed,
            _ => DmaStep::IncrementReload,
        };
        self.src_step = match (v >> 7) & 3 {
            0 => DmaStep::Increment,
            1 => DmaStep::Decrement,
            2 => DmaStep::Fixed,
            _ => DmaStep::IncrementReload,
        };
        self.repeat = v & 0x200 != 0;
        self.word = v & 0x400 != 0;
        self.timing = match (v >> 12) & 3 {
            0 => DmaTiming::Immediate,
            1 => DmaTiming::VBlank,
            2 => DmaTiming::HBlank,
            _ => DmaTiming::Special,
        };
        self.irq = v & 0x4000 != 0;
        self.enabled = v & 0x8000 != 0;
        if arming {
            self.src = self.src_reg;
            self.dst = self.dst_reg;
        }
    }

    /// The control half-word read back.
    pub fn read_control(&self) -> (v: u16)
        ensures
            v == spec_dma_control(*self),
    {
        let d: u16 = match self.dst_step {
            DmaStep::Increment => 0,
            DmaStep::Decrement => 1,
            DmaStep::Fixed => 2,
            DmaStep::IncrementReload => 3,
        };
        let s: u16 = match self.src_step {
            DmaStep::Increment => 0,
            DmaStep::Decrement => 1,
            DmaStep::Fixed => 2,
            DmaStep::IncrementReload => 3,
        };
        let t: u16 = match self.timing {
            DmaTiming::Immediate => 0,
            DmaTiming::VBlank => 1,
            DmaTiming::HBlank => 2,
            DmaTiming::Special => 3,
        };
        let rp: u16 = if self.repeat {
            0x200
        } else {
            0
        };
        let wd: u16 = if self.word {
            0x400
        } else {
            0
        };
        let iq: u16 = if self.irq {
            0x4000
        } else {
            0
        };
        let en: u16 = if self.enabled {
            0x8000
        } else {
            0
        };
        let v: u16 = (d << 5) | (s << 7) | rp | wd | (t << 12) | iq | en;
        v
    }

    /// The unit size in bytes.
    pub fn unit_bytes(&self) -> (u: u32)
        ensures
            u == (if self.word {
                4u32
            } else {
                2u32
            }),
    {
        if self.word {
            4
        } else {
            2
        }
    }

    /// The address schedule of one transfer of `count` units from this
    /// channel's latched addresses: pair `i` holds the source and
    /// destination byte address of unit `i`, each side stepped according
    /// to its mode. Exactly `count` units are scheduled.
    pub fn schedule(&self, count: u32) -> (r: Vec<(u32, u32)>)
        requires
            count <= 0x10000,
        ensures
            r@.len() == count,
            forall|i: int|
                0 <= i < count ==> (#[trigger] r@[i]).0 == spec_stepped_addr(
                    self.src,
                    self.src_step,
                    (if self.word {
                        4u32
                    } else {
                        2u32
                    }),
                    i,
                ),
            forall|i: int|
                0 <= i < count ==> (#[trigger] r@[i]).1 == spec_stepped_addr(
                    self.dst,
                    self.dst_step,
                    (if self.word {
                        4u32
                    } else {
                        2u32
                    }),
                    i,
                ),
    {
        let unit: u32 = if self.word {
            4
        } else {
            2
        };
        let mut r: Vec<(u32, u32)> = Vec::new();
        let mut i: u32 = 0;
        let mut s: u32 = self.src;
        let mut d: u32 = self.dst;
        while i < count
            invariant
                count <= 0x10000,
                unit == (if self.word {
                    4u32
                } else {
                    2u32
                }),
                i <= count,
                r@.len() == i,
                s == spec_stepped_addr(self.src, self.src_step, unit, i as int),
                d == spec_stepped_addr(self.dst, self.dst_step, unit, i as int),
                forall|k: int|
                    0 <= k < i ==> (#[trigger] r@[k]).0 == spec_stepped_addr(
                        self.src,
                        self.src_step,
                        unit,
                        k,
                    ),
                forall|k: int|
                    0 <= k < i ==> (#[trigger] r@[k]).1 == spec_stepped_addr(
                        self.dst,
                        self.dst_step,
                        unit,
                        k,
                    ),
            decreases count - i,
        {
            r.push((s, d));
            s = match self.src_step {
                DmaStep::Decrement => s.wrapping_sub(unit),
                DmaStep::Fixed => s,
                _ => s.wrapping_add(unit),
            };
            d = match self.dst_step {
                DmaStep::Decrement => d.wrapping_sub(unit),
                DmaStep::Fixed => d,
                _ => d.wrapping_add(unit),
            };
            i = i + 1;
        }
        r
    }

    /// What a completed transfer leaves behind: a repeating channel stays
    /// armed, stepping or reloading its latched addresses; any other
    /// channel disables itself.
    pub fn complete(&mut self, count: u32)
        requires
            count <= 0x10000,
            old(self).enabled,
        ensures
            *final(self) == spec_dma_completed(*old(self), count),
            final(self).enabled == (old(self).repeat && old(self).timing != DmaTiming::Immediate),
            final(self).enabled ==> final(self).src == spec_stepped_addr(
                old(self).src,
                old(self).src_step,
                (if old(self).word {
                    4u32
                } else {
                    2u32
                }),
                count as int,
            ),
            final(self).enabled ==> final(self).dst == (if old(self).dst_step
                == DmaStep::IncrementReload {
                old(self).dst_reg
            } else {
                spec_stepped_addr(
                    old(self).dst,
                    old(self).dst_step,
                    (if old(self).word {
                        4u32
                    } else {
                        2u32
                    }),
                    count as int,
                )
            }),
            *final(self) == (DmaChannel {
                enabled: final(self).enabled,
                src: final(self).src,
                dst: final(self).dst,
                ..*old(self)
            }),
    {
        let unit: u32 = if self.word {
            4
        } else {
            2
        };
        if self.repeat && !matches!(self.timing, DmaTiming::Immediate) {
            let mut s: u32 = self.src;
            let mut d: u32 = self.dst;
            let mut i: u32 = 0;
            while i < count
                invariant
                    count <= 0x10000,
                    unit == (if self.word {
                        4u32
                    } else {
                        2u32
                    }),
                    i <= count,
                    s == spec_stepped_addr(self.src, self.src_step, unit, i as int),
                    d == spec_stepped_addr(self.dst, self.dst_step, unit, i as int),
                    *self == *old(self),
                decreases count - i,
            {
                s = match self.src_step {
                    DmaStep::Decrement => s.wrapping_sub(unit),
                    DmaStep::Fixed => s,
                    _ => s.wrapping_add(unit),
                };
                d = match self.dst_step {
                    DmaStep::Decrement => d.wrapping_sub(unit),
                    DmaStep::Fixed => d,
                    _ => d.wrapping_add(unit),
                };
                i = i + 1;
            }
            self.src = s;
            self.dst = if matches!(self.dst_step, DmaStep::IncrementReload) {
                self.dst_reg
            } else {
                d
            };
        } else {
            self.enabled = false;
        }
    }
}

/// A channel at reset.
pub open spec fn spec_dma_reset() -> DmaChannel {
    DmaChannel {
        src_reg: 0,
        dst_reg: 0,
        count_reg: 0,
        src: 0,
        dst: 0,
        dst_step: DmaStep::Increment,
        src_step: DmaStep::Increment,
        repeat: false,
        word: false,
        timing: DmaTiming::Immediate,
        irq: false,
        enabled: false,
    }
}


/// The two encoding bits of an address step.
pub open spec fn spec_step_bits(s: DmaStep) -> u16 {
    match s {
        DmaStep::Increment => 0,
        DmaStep::Decrement => 1,
        DmaStep::Fixed => 2,
        DmaStep::IncrementReload => 3,
    }
}

/// The two encoding bits of a trigger timing.
pub open spec fn spec_timing_bits(t: DmaTiming) -> u16 {
    match t {
        DmaTiming::Immediate => 0,
        DmaTiming::VBlank => 1,
        DmaTiming::HBlank => 2,
        DmaTiming::Special => 3,
    }
}

/// The control half-word a channel reads back.
pub open spec fn spec_dma_control(c: DmaChannel) -> u16 {
    ((spec_step_bits(c.dst_step) << 5) | (spec_step_bits(c.src_step) << 7) | (if c.repeat {
        0x200u16
    } else {
        0u16
    }) | (if c.word {
        0x400u16
    } else {
        0u16
    }) | (spec_timing_bits(c.timing) << 12) | (if c.irq {
        0x4000u16
    } else {
        0u16
    }) | (if c.enabled {
        0x8000u16
    } else {
        0u16
    })) as u16
}


/// What writing the control half-word leaves: the decoded fields, and on
/// an enable rising edge the latched copies of the written addresses.
pub open spec fn spec_dma_write_control(c: DmaChannel, v: u16) -> DmaChannel {
    let arming = (v & 0x8000 != 0) && !c.enabled;
    DmaChannel {
        dst_step: spec_step((v >> 5) & 3),
        src_step: spec_step((v >> 7) & 3),
        repeat: v & 0x200 != 0,
        word: v & 0x400 != 0,
        timing: spec_timing((v >> 12) & 3),
        irq: v & 0x4000 != 0,
        enabled: v & 0x8000 != 0,
        src: if arming {
            c.src_reg
        } else {
            c.src
        },
        dst: if arming {
            c.dst_reg
        } else {
            c.dst
        },
        ..c
    }
}


/// What a completed transfer of `count` units leaves: a repeating,
/// blanking-triggered channel stays armed with its source stepped past
/// the transfer and its destination stepped or reloaded; any other
/// channel disables itself, latches untouched.
pub open spec fn spec_dma_completed(c: DmaChannel, count: u32) -> DmaChannel {
    if c.repeat && c.timing != DmaTiming::Immediate {
        DmaChannel {
            src: spec_stepped_addr(c.src, c.src_step, (if c.word {
                4u32
            } else {
                2u32
            }), count as int),
            dst: if c.dst_step == DmaStep::IncrementReload {
                c.dst_reg
            } else {
                spec_stepped_addr(c.dst, c.dst_step, (if c.word {
                    4u32
                } else {
                    2u32
                }), count as int)
            },
            ..c
        }
    } else {
        DmaChannel { enabled: false, ..c }
    }
}

} // verus!
