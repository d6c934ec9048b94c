//! Four timer channels. A free-running channel increments once every
//! `prescale` bus cycles; on overflow it reloads from its reload value and
//! may raise an interrupt. A cascading channel ignores its own prescaler
//! and increments exactly once per overflow of the channel below it.

use vstd::prelude::*;
use crate::interrupts::{IRQ_TIMER0, IRQ_TIMER1, IRQ_TIMER2, IRQ_TIMER3};

verus! {

/// The cycle count one increment takes, by the two-bit prescale selector.
pub open spec fn spec_prescale(sel: u16) -> u32 {
    if sel == 0 {
        1
    } else if sel == 1 {
        64
    } else if sel == 2 {
        256
    } else {
        1024
    }
}

/// How many times a counter starting at `c` with reload `r` overflows in
/// `n` increments: once after the `0x10000 - c` increments that first wrap
/// it, then once every `0x10000 - r`.
pub open spec fn spec_overflows(c: u16, r: u16, n: int) -> int {
    if n < 0x10000 - c {
        0
    } else {
        1 + (n - (0x10000 - c)) / (0x10000 - r)
    }
}

/// The counter after `n` increments from `c` with reload `r`.
pub open spec fn spec_counter_after(c: u16, r: u16, n: int) -> u16 {
    if n < 0x10000 - c {
        (c + n) as u16
    } else {
        (r + ((n - (0x10000 - c)) % (0x10000 - r))) as u16
    }
}

/// One timer channel.
#[derive(Clone, Copy, PartialEq, Eq, Structural, Debug)]
pub struct TimerChannel {
    /// The running counter.
    pub counter: u16,
    /// The value the counter reloads from on overflow.
    pub reload: u16,
    /// The two-bit prescale selector (1, 64, 256 or 1024 cycles per tick).
    pub prescale_select: u16,
    /// When set, the channel ticks on the previous channel's overflows
    /// instead of on the cycle clock.
    pub cascade: bool,
    /// When set, an overflow raises this channel's interrupt.
    pub irq_enable: bool,
    /// When clear, the channel does not tick at all.
    pub enabled: bool,
    /// Cycles accumulated toward the next prescaled tick.
    pub phase: u32,
}

/// A channel at reset: everything zero and disabled.
pub open spec fn spec_reset_channel() -> TimerChannel {
    TimerChannel {
        counter: 0,
        reload: 0,
        prescale_select: 0,
        cascade: false,
        irq_enable: false,
        enabled: false,
        phase: 0,
    }
}

impl TimerChannel {
    /// A channel at reset.
    pub fn new() -> (t: TimerChannel)
        ensures
            t == (TimerChannel {
                counter: 0,
                reload: 0,
                prescale_select: 0,
                cascade: false,
                irq_enable: false,
                enabled: false,
                phase: 0,
            }),
    {
        TimerChannel {
            counter: 0,
            reload: 0,
            prescale_select: 0,
            cascade: false,
            irq_enable: false,
            enabled: false,
            phase: 0,
        }
    }

    /// Applies `n` increments to the counter, reloading on each overflow,
    /// and returns how many overflows occurred.
    pub fn apply_increments(&mut self, n: u64) -> (ovf: u64)
        ensures
            ovf == spec_overflows(old(self).counter, old(self).reload, n as int),
            final(self).counter == spec_counter_after(
                old(self).counter,
                old(self).reload,
                n as int,
            ),
            *final(self) == (TimerChannel { counter: final(self).counter, ..*old(self) }),
    {
        let gap: u64 = 0x10000 - self.counter as u64;
        if n < gap {
            self.counter = (self.counter as u64 + n) as u16;
            0
        } else {
            let period: u64 = 0x10000 - self.reload as u64;
            let rem: u64 = (n - gap) % period;
            self.counter = (self.reload as u64 + rem) as u16;
            1 + (n - gap) / period
        }
    }

    /// Advances a free-running channel by `cycles` bus cycles: whole
    /// prescale periods become increments, the remainder is kept as phase.
    /// A disabled or cascading channel does not move here.
    pub fn advance(&mut self, cycles: u32) -> (ovf: u64)
        ensures
            (!old(self).enabled || old(self).cascade) ==> *final(self) == *old(self) && ovf == 0,
            (old(self).enabled && !old(self).cascade) ==> {
                let total = old(self).phase + cycles;
                let pre = spec_prescale(old(self).prescale_select & 3);
                &&& final(self).phase == total % (pre as int)
                &&& ovf == spec_overflows(old(self).counter, old(self).reload, total / pre as int)
                &&& final(self).counter == spec_counter_after(
                    old(self).counter,
                    old(self).reload,
                    total / pre as int,
                )
                &&& *final(self) == (TimerChannel {
                    counter: final(self).counter,
                    phase: final(self).phase,
                    ..*old(self)
                })
            },
    {
        if !self.enabled || self.cascade {
            return 0;
        }
        let pre: u32 = match self.prescale_select & 3 {
            0 => 1,
            1 => 64,
            2 => 256,
            _ => 1024,
        };
        let total: u64 = self.phase as u64 + cycles as u64;
        let n: u64 = total / pre as u64;
        self.phase = (total % pre as u64) as u32;
        self.apply_increments(n)
    }

    /// Ticks a cascading channel by the overflow count of the channel
    /// below. A channel that is disabled, or not set to cascade, ignores
    /// them.
    pub fn cascade_tick(&mut self, overflows_below: u64) -> (ovf: u64)
        ensures
            (!old(self).enabled || !old(self).cascade) ==> *final(self) == *old(self) && ovf == 0,
            (old(self).enabled && old(self).cascade) ==> {
                &&& ovf == spec_overflows(
                    old(self).counter,
                    old(self).reload,
                    overflows_below as int,
                )
                &&& final(self).counter == spec_counter_after(
                    old(self).counter,
                    old(self).reload,
                    overflows_below as int,
                )
                &&& *final(self) == (TimerChannel { counter: final(self).counter, ..*old(self) })
            },
    {
        if !self.enabled || !self.cascade {
            return 0;
        }
        self.apply_increments(overflows_below)
    }

    /// Software writes the reload register; it takes effect at the next
    /// overflow or enable edge, never immediately.
    pub fn write_reload(&mut self, value: u16)
        ensures
            *final(self) == (TimerChannel { reload: value, ..*old(self) }),
    {
        self.reload = value;
    }

    /// Software writes the control register: bits 0-1 select the
    /// prescaler, bit 2 cascade, bit 6 the overflow interrupt, bit 7
    /// enables the channel. An enable rising edge reloads the counter and
    /// clears the phase.
    pub fn write_control(&mut self, value: u16)
        ensures
            *final(self) == spec_timer_write_control(*old(self), value),
    {
        let enabling = (value & 0x80 != 0) && !self.enabled;
        self.prescale_select = value & 3;
        self.cascade = value & 4 != 0;
        self.irq_enable = value & 0x40 != 0;
        self.enabled = value & 0x80 != 0;
        if enabling {
            self.counter = self.reload;
            self.phase = 0;
        }
    }

    /// The control register read back.
    pub fn read_control(&self) -> (v: u16)
        ensures
            v == spec_timer_control(*self),
    {
        (self.prescale_select & 3) | (if self.cascade {
            4u16
        } else {
            0u16
        }) | (if self.irq_enable {
            0x40u16
        } else {
            0u16
        }) | (if self.enabled {
            0x80u16
        } else {
            0u16
        })
    }
}

/// The four channels.
#[derive(Clone, Copy, PartialEq, Eq, Structural, Debug)]
pub struct Timers {
    pub t0: TimerChannel,
    pub t1: TimerChannel,
    pub t2: TimerChannel,
    pub t3: TimerChannel,
}

impl Timers {
    /// All four channels at reset.
    pub fn new() -> (t: Timers)
        ensures
            t.t0 == spec_reset_channel(),
            t.t1 == spec_reset_channel(),
            t.t2 == spec_reset_channel(),
            t.t3 == spec_reset_channel(),
    {
        Timers {
            t0: TimerChannel::new(),
            t1: TimerChannel::new(),
            t2: TimerChannel::new(),
            t3: TimerChannel::new(),
        }
    }

    /// Advances all four channels by `cycles` bus cycles and returns the
    /// interrupt bits to raise. Channel 0 ticks on the clock alone; each
    /// later channel either ticks on the clock or, when cascading,
    /// receives exactly one increment per overflow of the channel below.
    /// A channel whose overflow interrupt is enabled contributes its bit
    /// exactly when it overflowed at least once.
    pub fn advance(&mut self, cycles: u32) -> (irq: u16)
        ensures
            ({
                let s0 = spec_chan_step(old(self).t0, cycles, 0);
                let s1 = spec_chan_step(old(self).t1, cycles, s0.1);
                let s2 = spec_chan_step(old(self).t2, cycles, s1.1);
                let s3 = spec_chan_step(old(self).t3, cycles, s2.1);
                &&& final(self).t0 == s0.0
                &&& final(self).t1 == s1.0
                &&& final(self).t2 == s2.0
                &&& final(self).t3 == s3.0
                &&& irq == ((if s0.1 > 0 && old(self).t0.irq_enable {
                    IRQ_TIMER0
                } else {
                    0u16
                }) | (if s1.1 > 0 && old(self).t1.irq_enable {
                    IRQ_TIMER1
                } else {
                    0u16
                }) | (if s2.1 > 0 && old(self).t2.irq_enable {
                    IRQ_TIMER2
                } else {
                    0u16
                }) | (if s3.1 > 0 && old(self).t3.irq_enable {
                    IRQ_TIMER3
                } else {
                    0u16
                }))
            }),
    {
        let o0 = self.t0.advance(cycles);
        let o1 = if self.t1.enabled && self.t1.cascade {
            self.t1.cascade_tick(o0)
        } else {
            self.t1.advance(cycles)
        };
        let o2 = if self.t2.enabled && self.t2.cascade {
            self.t2.cascade_tick(o1)
        } else {
            self.t2.advance(cycles)
        };
        let o3 = if self.t3.enabled && self.t3.cascade {
            self.t3.cascade_tick(o2)
        } else {
            self.t3.advance(cycles)
        };
        (if o0 > 0 && self.t0.irq_enable {
            IRQ_TIMER0
        } else {
            0u16
        }) | (if o1 > 0 && self.t1.irq_enable {
            IRQ_TIMER1
        } else {
            0u16
        }) | (if o2 > 0 && self.t2.irq_enable {
            IRQ_TIMER2
        } else {
            0u16
        }) | (if o3 > 0 && self.t3.irq_enable {
            IRQ_TIMER3
        } else {
            0u16
        })
    }
}

/// One channel's step for `cycles` elapsed cycles, with `below` overflows
/// arriving from the channel below it: the channel afterwards, and how
/// many times it overflowed. A cascading channel receives exactly one
/// increment per overflow below, whatever its prescaler says; a
/// free-running one turns whole prescale periods into increments.
pub open spec fn spec_chan_step(t: TimerChannel, cycles: u32, below: int) -> (TimerChannel, int) {
    if !t.enabled {
        (t, 0)
    } else if t.cascade {
        (
            TimerChannel { counter: spec_counter_after(t.counter, t.reload, below), ..t },
            spec_overflows(t.counter, t.reload, below),
        )
    } else {
        let total = t.phase + cycles;
        let pre = spec_prescale(t.prescale_select & 3);
        (
            TimerChannel {
                counter: spec_counter_after(t.counter, t.reload, total / pre as int),
                phase: (total % (pre as int)) as u32,
                ..t
            },
            spec_overflows(t.counter, t.reload, total / pre as int),
        )
    }
}


/// The control half-word a channel reads back.
pub open spec fn spec_timer_control(t: TimerChannel) -> u16 {
    ((t.prescale_select & 3) | (if t.cascade {
        4u16
    } else {
        0u16
    }) | (if t.irq_enable {
        0x40u16
    } else {
        0u16
    }) | (if t.enabled {
        0x80u16
    } else {
        0u16
    })) as u16
}


/// What writing the control register leaves: the decoded fields, and on
/// an enable rising edge the counter reloaded and the phase cleared.
pub open spec fn spec_timer_write_control(t: TimerChannel, value: u16) -> TimerChannel {
    let enabling = (value & 0x80 != 0) && !t.enabled;
    TimerChannel {
        prescale_select: value & 3,
        cascade: value & 4 != 0,
        irq_enable: value & 0x40 != 0,
        enabled: value & 0x80 != 0,
        counter: if enabling {
            t.reload
        } else {
            t.counter
        },
        phase: if enabling {
            0
        } else {
            t.phase
        },
        ..t
    }
}


/// Cascade rate law: a channel with prescale 1, counter and reload both
/// 0xFFFF overflows on every one of `n` elapsed cycles, so a cascading
/// channel above it receives exactly `n` increments; that channel, from
/// counter and reload 0, overflows exactly once per 65536 increments —
/// `n / 65536` times in all.
pub proof fn lemma_cascade_rate(n: int)
    requires
        0 <= n,
    ensures
        spec_overflows(0xffff, 0xffff, n) == n,
        spec_overflows(0, 0, n) == n / 0x10000,
{
    if n >= 1 {
        assert(spec_overflows(0xffff, 0xffff, n) == 1 + (n - 1) / 1);
        assert((n - 1) / 1 == n - 1);
    }
    if n >= 0x10000 {
        assert(spec_overflows(0, 0, n) == 1 + (n - 0x10000) / 0x10000);
        assert(1 + (n - 0x10000) / 0x10000 == n / 0x10000) by (nonlinear_arith)
            requires
                n >= 0x10000,
        ;
    }
}

} // verus!
