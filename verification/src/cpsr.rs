//! The processor status register: condition flags N/Z/C/V, the IRQ and FIQ
//! disable bits, the T bit selecting the 16-bit instruction width, and the
//! privilege mode field, together with its packed 32-bit form.

use vstd::prelude::*;
use crate::bits::{bit, field, spec_bit, spec_field};

verus! {

/// A CPU privilege mode. Each exception-handling mode owns banked copies of
/// SP, LR and SPSR; `User` and `System` share one unbanked set.
#[derive(Clone, Copy, PartialEq, Eq, Structural, Debug)]
pub enum Mode {
    User,
    Fiq,
    Irq,
    Supervisor,
    Abort,
    Undefined,
    System,
}

/// The five-bit encoding of a mode in the packed status word.
pub open spec fn spec_mode_bits(m: Mode) -> u32 {
    match m {
        Mode::User => 0x10,
        Mode::Fiq => 0x11,
        Mode::Irq => 0x12,
        Mode::Supervisor => 0x13,
        Mode::Abort => 0x17,
        Mode::Undefined => 0x1b,
        Mode::System => 0x1f,
    }
}

/// The mode a five-bit field selects. An encoding the hardware does not
/// define is treated as `User`, the least privileged mode.
pub open spec fn spec_mode_from_bits(b: u32) -> Mode {
    if b == 0x11 {
        Mode::Fiq
    } else if b == 0x12 {
        Mode::Irq
    } else if b == 0x13 {
        Mode::Supervisor
    } else if b == 0x17 {
        Mode::Abort
    } else if b == 0x1b {
        Mode::Undefined
    } else if b == 0x1f {
        Mode::System
    } else {
        Mode::User
    }
}

impl Mode {
    /// The five-bit encoding of this mode.
    pub fn bits(self) -> (b: u32)
        ensures
            b == spec_mode_bits(self),
            b <= 0x1f,
    {
        match self {
            Mode::User => 0x10,
            Mode::Fiq => 0x11,
            Mode::Irq => 0x12,
            Mode::Supervisor => 0x13,
            Mode::Abort => 0x17,
            Mode::Undefined => 0x1b,
            Mode::System => 0x1f,
        }
    }

    /// Decodes a five-bit mode field.
    pub fn from_bits(b: u32) -> (m: Mode)
        ensures
            m == spec_mode_from_bits(b),
    {
        if b == 0x11 {
            Mode::Fiq
        } else if b == 0x12 {
            Mode::Irq
        } else if b == 0x13 {
            Mode::Supervisor
        } else if b == 0x17 {
            Mode::Abort
        } else if b == 0x1b {
            Mode::Undefined
        } else if b == 0x1f {
            Mode::System
        } else {
            Mode::User
        }
    }

    /// The banked-register table row this mode selects. `User` and `System`
    /// share row 0; each exception mode has a row of its own.
    pub fn bank(self) -> (i: usize)
        ensures
            i == spec_bank(self),
            i < 6,
    {
        match self {
            Mode::User => 0,
            Mode::System => 0,
            Mode::Fiq => 1,
            Mode::Irq => 2,
            Mode::Supervisor => 3,
            Mode::Abort => 4,
            Mode::Undefined => 5,
        }
    }
}

/// The banked-register table row of a mode.
pub open spec fn spec_bank(m: Mode) -> usize {
    match m {
        Mode::User => 0,
        Mode::System => 0,
        Mode::Fiq => 1,
        Mode::Irq => 2,
        Mode::Supervisor => 3,
        Mode::Abort => 4,
        Mode::Undefined => 5,
    }
}

/// The unpacked status register.
#[derive(Clone, Copy, PartialEq, Eq, Structural, Debug)]
pub struct Cpsr {
    /// Negative: bit 31 of the last flag-setting result.
    pub n: bool,
    /// Zero: the last flag-setting result was zero.
    pub z: bool,
    /// Carry out (or inverted borrow) of the last flag-setting operation.
    pub c: bool,
    /// Signed overflow of the last flag-setting operation.
    pub v: bool,
    /// When set, IRQ exceptions are not taken.
    pub irq_disable: bool,
    /// When set, FIQ exceptions are not taken.
    pub fiq_disable: bool,
    /// When set, instructions are fetched in the 16-bit THUMB width.
    pub thumb: bool,
    /// The current privilege mode.
    pub mode: Mode,
}

/// The packed 32-bit form of a status register.
pub open spec fn spec_cpsr_bits(s: Cpsr) -> u32 {
    ((if s.n {
        0x8000_0000u32
    } else {
        0
    }) | (if s.z {
        0x4000_0000u32
    } else {
        0
    }) | (if s.c {
        0x2000_0000u32
    } else {
        0
    }) | (if s.v {
        0x1000_0000u32
    } else {
        0
    }) | (if s.irq_disable {
        0x80u32
    } else {
        0
    }) | (if s.fiq_disable {
        0x40u32
    } else {
        0
    }) | (if s.thumb {
        0x20u32
    } else {
        0
    }) | spec_mode_bits(s.mode)) as u32
}

impl Cpsr {
    /// The status register at reset: all flags clear, both interrupt classes
    /// disabled, 32-bit width, supervisor mode.
    pub fn reset() -> (s: Cpsr)
        ensures
            s == (Cpsr {
                n: false,
                z: false,
                c: false,
                v: false,
                irq_disable: true,
                fiq_disable: true,
                thumb: false,
                mode: Mode::Supervisor,
            }),
    {
        Cpsr {
            n: false,
            z: false,
            c: false,
            v: false,
            irq_disable: true,
            fiq_disable: true,
            thumb: false,
            mode: Mode::Supervisor,
        }
    }

    /// Packs the register into its 32-bit form.
    pub fn to_bits(self) -> (w: u32)
        ensures
            w == spec_cpsr_bits(self),
    {
        let n: u32 = if self.n { 0x8000_0000 } else { 0 };
        let z: u32 = if self.z { 0x4000_0000 } else { 0 };
        let c: u32 = if self.c { 0x2000_0000 } else { 0 };
        let v: u32 = if self.v { 0x1000_0000 } else { 0 };
        let i: u32 = if self.irq_disable { 0x80 } else { 0 };
        let f: u32 = if self.fiq_disable { 0x40 } else { 0 };
        let t: u32 = if self.thumb { 0x20 } else { 0 };
        n | z | c | v | i | f | t | self.mode.bits()
    }

    /// Unpacks a 32-bit word into a status register. Bits the register does
    /// not hold are ignored, as the hardware ignores them.
    pub fn from_bits(w: u32) -> (s: Cpsr)
        ensures
            s == spec_cpsr_from_bits(w),
    {
        Cpsr {
            n: bit(w, 31),
            z: bit(w, 30),
            c: bit(w, 29),
            v: bit(w, 28),
            irq_disable: bit(w, 7),
            fiq_disable: bit(w, 6),
            thumb: bit(w, 5),
            mode: Mode::from_bits(field(w, 0, 5)),
        }
    }
}

/// Packing a status register and unpacking the word gives the register back:
/// the packed form loses nothing.
pub proof fn lemma_cpsr_bits_round_trip(s: Cpsr)
    ensures
        spec_bit(spec_cpsr_bits(s), 31) == s.n,
        spec_bit(spec_cpsr_bits(s), 30) == s.z,
        spec_bit(spec_cpsr_bits(s), 29) == s.c,
        spec_bit(spec_cpsr_bits(s), 28) == s.v,
        spec_bit(spec_cpsr_bits(s), 7) == s.irq_disable,
        spec_bit(spec_cpsr_bits(s), 6) == s.fiq_disable,
        spec_bit(spec_cpsr_bits(s), 5) == s.thumb,
        spec_mode_from_bits(spec_field(spec_cpsr_bits(s), 0, 5)) == s.mode,
{
    let n: u32 = if s.n { 0x8000_0000 } else { 0 };
    let z: u32 = if s.z { 0x4000_0000 } else { 0 };
    let c: u32 = if s.c { 0x2000_0000 } else { 0 };
    let v: u32 = if s.v { 0x1000_0000 } else { 0 };
    let i: u32 = if s.irq_disable { 0x80 } else { 0 };
    let f: u32 = if s.fiq_disable { 0x40 } else { 0 };
    let t: u32 = if s.thumb { 0x20 } else { 0 };
    let m: u32 = spec_mode_bits(s.mode);
    let w: u32 = (n | z | c | v | i | f | t | m) as u32;
    assert((n == 0 || n == 0x8000_0000u32) && (z == 0 || z == 0x4000_0000u32) && (c == 0 || c
        == 0x2000_0000u32) && (v == 0 || v == 0x1000_0000u32) && (i == 0 || i == 0x80u32) && (f
        == 0 || f == 0x40u32) && (t == 0 || t == 0x20u32));
    assert(0x10 <= m <= 0x1f);
    assert({
        &&& (w >> 31 & 1 == 1) == (n == 0x8000_0000u32)
        &&& (w >> 30 & 1 == 1) == (z == 0x4000_0000u32)
        &&& (w >> 29 & 1 == 1) == (c == 0x2000_0000u32)
        &&& (w >> 28 & 1 == 1) == (v == 0x1000_0000u32)
        &&& (w >> 7 & 1 == 1) == (i == 0x80u32)
        &&& (w >> 6 & 1 == 1) == (f == 0x40u32)
        &&& (w >> 5 & 1 == 1) == (t == 0x20u32)
        &&& spec_field(w, 0, 5) == m
    }) by (bit_vector)
        requires
            (n == 0 || n == 0x8000_0000u32) && (z == 0 || z == 0x4000_0000u32) && (c == 0 || c
                == 0x2000_0000u32) && (v == 0 || v == 0x1000_0000u32) && (i == 0 || i == 0x80u32)
                && (f == 0 || f == 0x40u32) && (t == 0 || t == 0x20u32) && 0x10 <= m <= 0x1f && w
                == (n | z | c | v | i | f | t | m) as u32,
    ;
}


/// The status register a 32-bit word unpacks to.
pub open spec fn spec_cpsr_from_bits(w: u32) -> Cpsr {
    Cpsr {
        n: spec_bit(w, 31),
        z: spec_bit(w, 30),
        c: spec_bit(w, 29),
        v: spec_bit(w, 28),
        irq_disable: spec_bit(w, 7),
        fiq_disable: spec_bit(w, 6),
        thumb: spec_bit(w, 5),
        mode: spec_mode_from_bits(spec_field(w, 0, 5)),
    }
}

/// Packing a status register and unpacking the word gives the register
/// back: the packed form loses nothing.
pub proof fn lemma_cpsr_pack_unpack(s: Cpsr)
    ensures
        spec_cpsr_from_bits(spec_cpsr_bits(s)) == s,
{
    lemma_cpsr_bits_round_trip(s);
}

} // verus!
