//! The interrupt controller: an enable mask, pending flags, and a master
//! enable. Hardware sets pending bits; software clears them only by
//! writing a 1 to the bits to clear, and can never set them by writing.

use vstd::prelude::*;

verus! {

/// Bit positions of the interrupt sources in the enable and pending
/// registers.
pub const IRQ_VBLANK: u16 = 0x0001;

pub const IRQ_HBLANK: u16 = 0x0002;

pub const IRQ_VCOUNT: u16 = 0x0004;

pub const IRQ_TIMER0: u16 = 0x0008;

pub const IRQ_TIMER1: u16 = 0x0010;

pub const IRQ_TIMER2: u16 = 0x0020;

pub const IRQ_TIMER3: u16 = 0x0040;

pub const IRQ_DMA0: u16 = 0x0100;

pub const IRQ_DMA1: u16 = 0x0200;

pub const IRQ_DMA2: u16 = 0x0400;

pub const IRQ_DMA3: u16 = 0x0800;

pub const IRQ_KEYPAD: u16 = 0x1000;

/// The interrupt controller's three registers.
#[derive(Clone, Copy, PartialEq, Eq, Structural, Debug)]
pub struct InterruptControl {
    /// Which sources may interrupt (the IE register).
    pub enable: u16,
    /// Which sources have fired and not been acknowledged (the IF register).
    pub pending: u16,
    /// The master enable (the IME register, bit 0).
    pub master: bool,
}

impl InterruptControl {
    /// The controller at reset: nothing enabled, nothing pending.
    pub fn new() -> (c: InterruptControl)
        ensures
            c == (InterruptControl { enable: 0, pending: 0, master: false }),
    {
        InterruptControl { enable: 0, pending: 0, master: false }
    }

    /// Hardware raises the sources in `mask`: their pending bits are set,
    /// every other bit is left alone.
    pub fn raise(&mut self, mask: u16)
        ensures
            final(self).pending == old(self).pending | mask,
            final(self).enable == old(self).enable,
            final(self).master == old(self).master,
    {
        self.pending = self.pending | mask;
    }

    /// Software acknowledges by writing `mask` to the pending register:
    /// exactly the bits written as 1 are cleared, and no bit is ever set.
    pub fn acknowledge(&mut self, mask: u16)
        ensures
            final(self).pending == old(self).pending & !mask,
            final(self).enable == old(self).enable,
            final(self).master == old(self).master,
    {
        self.pending = self.pending & !mask;
    }

    /// Software writes the enable mask.
    pub fn write_enable(&mut self, mask: u16)
        ensures
            final(self).enable == mask,
            final(self).pending == old(self).pending,
            final(self).master == old(self).master,
    {
        self.enable = mask;
    }

    /// Software writes the master enable; only bit 0 matters.
    pub fn write_master(&mut self, value: u16)
        ensures
            final(self).master == (value & 1 == 1),
            final(self).enable == old(self).enable,
            final(self).pending == old(self).pending,
    {
        self.master = value & 1 == 1;
    }

    /// Whether an interrupt request reaches the CPU: some source is both
    /// enabled and pending, and the master enable is set.
    pub fn irq_asserted(&self) -> (r: bool)
        ensures
            r == (self.master && (self.enable & self.pending) != 0),
    {
        self.master && (self.enable & self.pending) != 0
    }
}

/// Acknowledging can only clear: afterwards no new bit is pending, and the
/// bits written as 1 are no longer pending.
pub proof fn lemma_acknowledge_only_clears(p: u16, mask: u16)
    ensures
        forall|i: u16|
            i < 16 ==> #[trigger] ((p & !mask) >> i & 1) == 1 ==> (p >> i & 1) == 1,
        (p & !mask) & mask == 0,
{
    assert forall|i: u16| i < 16 && #[trigger] ((p & !mask) >> i & 1) == 1 implies (p >> i & 1)
        == 1 by {
        assert(i < 16 && ((p & !mask) >> i & 1) == 1 ==> (p >> i & 1) == 1) by (bit_vector);
    }
    assert((p & !mask) & mask == 0) by (bit_vector);
}

} // verus!
