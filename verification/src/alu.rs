//! The arithmetic/logic unit: condition-code evaluation, the barrel
//! shifter, and the flag-setting arithmetic and logical operations shared
//! by both instruction encodings. Every operation's result and its N/Z/C/V
//! flags are stated exactly, following the architecture reference.

use vstd::prelude::*;
use crate::cpsr::Cpsr;

verus! {

/// Bit 31 of a value: its sign in two's complement.
pub open spec fn spec_sign(x: u32) -> bool {
    x >= 0x8000_0000
}

/// The signed value a 32-bit word denotes in two's complement.
pub open spec fn spec_signed(x: u32) -> int {
    if x >= 0x8000_0000 {
        x - 0x1_0000_0000
    } else {
        x as int
    }
}

/// Whether a condition field holds under the given flags: the sixteen
/// condition codes of the architecture, in encoding order EQ, NE, CS, CC,
/// MI, PL, VS, VC, HI, LS, GE, LT, GT, LE, AL, NV (never).
pub open spec fn spec_condition_holds(cond: u32, s: Cpsr) -> bool {
    if cond == 0 {
        s.z
    } else if cond == 1 {
        !s.z
    } else if cond == 2 {
        s.c
    } else if cond == 3 {
        !s.c
    } else if cond == 4 {
        s.n
    } else if cond == 5 {
        !s.n
    } else if cond == 6 {
        s.v
    } else if cond == 7 {
        !s.v
    } else if cond == 8 {
        s.c && !s.z
    } else if cond == 9 {
        !s.c || s.z
    } else if cond == 10 {
        s.n == s.v
    } else if cond == 11 {
        s.n != s.v
    } else if cond == 12 {
        !s.z && s.n == s.v
    } else if cond == 13 {
        s.z || s.n != s.v
    } else if cond == 14 {
        true
    } else {
        false
    }
}

/// Evaluates a condition field against the current flags.
pub fn condition_passed(cond: u32, s: &Cpsr) -> (r: bool)
    requires
        cond < 16,
    ensures
        r == spec_condition_holds(cond, *s),
{
    if cond == 0 {
        s.z
    } else if cond == 1 {
        !s.z
    } else if cond == 2 {
        s.c
    } else if cond == 3 {
        !s.c
    } else if cond == 4 {
        s.n
    } else if cond == 5 {
        !s.n
    } else if cond == 6 {
        s.v
    } else if cond == 7 {
        !s.v
    } else if cond == 8 {
        s.c && !s.z
    } else if cond == 9 {
        !s.c || s.z
    } else if cond == 10 {
        s.n == s.v
    } else if cond == 11 {
        s.n != s.v
    } else if cond == 12 {
        !s.z && s.n == s.v
    } else if cond == 13 {
        s.z || s.n != s.v
    } else if cond == 14 {
        true
    } else {
        false
    }
}

/// A result leaving the ALU together with the four condition flags it
/// produces.
#[derive(Clone, Copy, PartialEq, Eq, Structural, Debug)]
pub struct AluOut {
    pub val: u32,
    pub n: bool,
    pub z: bool,
    pub c: bool,
    pub v: bool,
}

/// The truncated sum `a + b + carry_in`.
pub open spec fn spec_add_val(a: u32, b: u32, cin: bool) -> u32 {
    ((a + b + (if cin {
        1int
    } else {
        0int
    })) % 0x1_0000_0000) as u32
}

/// Unsigned carry out of `a + b + carry_in`.
pub open spec fn spec_add_carry(a: u32, b: u32, cin: bool) -> bool {
    a + b + (if cin {
        1int
    } else {
        0int
    }) >= 0x1_0000_0000
}

/// Signed overflow of `a + b + carry_in`: the addends agree in sign and the
/// result does not.
pub open spec fn spec_add_overflow(a: u32, b: u32, cin: bool) -> bool {
    spec_sign(a) == spec_sign(b) && spec_sign(spec_add_val(a, b, cin)) != spec_sign(a)
}

/// The truncated difference `a - b - borrow_in`.
pub open spec fn spec_sub_val(a: u32, b: u32, bin: bool) -> u32 {
    ((a + 0x1_0000_0000 - b - (if bin {
        1int
    } else {
        0int
    })) % 0x1_0000_0000) as u32
}

/// Carry out of `a - b - borrow_in`: set exactly when no borrow occurs.
pub open spec fn spec_sub_carry(a: u32, b: u32, bin: bool) -> bool {
    a >= b + (if bin {
        1int
    } else {
        0int
    })
}

/// Signed overflow of `a - b - borrow_in`: the operands differ in sign and
/// the result's sign differs from the minuend's.
pub open spec fn spec_sub_overflow(a: u32, b: u32, bin: bool) -> bool {
    spec_sign(a) != spec_sign(b) && spec_sign(spec_sub_val(a, b, bin)) != spec_sign(a)
}

/// Adds with carry-in, producing the result and all four flags
/// (ADD/ADC/CMN).
pub fn alu_add(a: u32, b: u32, cin: bool) -> (out: AluOut)
    ensures
        out.val == spec_add_val(a, b, cin),
        out.n == spec_sign(out.val),
        out.z == (out.val == 0),
        out.c == spec_add_carry(a, b, cin),
        out.v == spec_add_overflow(a, b, cin),
        out == spec_add_out(a, b, cin),
{
    let s: u64 = a as u64 + b as u64 + (if cin {
        1u64
    } else {
        0u64
    });
    let val: u32 = (s % 0x1_0000_0000) as u32;
    AluOut {
        val,
        n: val >= 0x8000_0000,
        z: val == 0,
        c: s >= 0x1_0000_0000,
        v: (a >= 0x8000_0000) == (b >= 0x8000_0000) && (val >= 0x8000_0000) != (a
            >= 0x8000_0000),
    }
}

/// Subtracts with borrow-in, producing the result and all four flags
/// (SUB/SBC/RSB/RSC/CMP).
pub fn alu_sub(a: u32, b: u32, bin: bool) -> (out: AluOut)
    ensures
        out.val == spec_sub_val(a, b, bin),
        out.n == spec_sign(out.val),
        out.z == (out.val == 0),
        out.c == spec_sub_carry(a, b, bin),
        out.v == spec_sub_overflow(a, b, bin),
        out == spec_sub_out(a, b, bin),
{
    let w: u64 = if bin {
        1u64
    } else {
        0u64
    };
    let s: u64 = a as u64 + 0x1_0000_0000 - b as u64 - w;
    let val: u32 = (s % 0x1_0000_0000) as u32;
    AluOut {
        val,
        n: val >= 0x8000_0000,
        z: val == 0,
        c: a as u64 >= b as u64 + w,
        v: (a >= 0x8000_0000) != (b >= 0x8000_0000) && (val >= 0x8000_0000) != (a
            >= 0x8000_0000),
    }
}

/// A logical result (AND/EOR/TST/TEQ/ORR/MOV/BIC/MVN): N and Z follow the
/// value, C comes from the barrel shifter, V is left as it was.
pub fn alu_logic(val: u32, shifter_carry: bool, old_v: bool) -> (out: AluOut)
    ensures
        out.val == val,
        out.n == spec_sign(val),
        out.z == (val == 0),
        out.c == shifter_carry,
        out.v == old_v,
        out == spec_logic_out(val, shifter_carry, old_v),
{
    AluOut { val, n: val >= 0x8000_0000, z: val == 0, c: shifter_carry, v: old_v }
}


/// The full ALU output of an addition: result and all four flags.
pub open spec fn spec_add_out(a: u32, b: u32, cin: bool) -> AluOut {
    AluOut {
        val: spec_add_val(a, b, cin),
        n: spec_sign(spec_add_val(a, b, cin)),
        z: spec_add_val(a, b, cin) == 0,
        c: spec_add_carry(a, b, cin),
        v: spec_add_overflow(a, b, cin),
    }
}

/// The full ALU output of a subtraction: result and all four flags.
pub open spec fn spec_sub_out(a: u32, b: u32, bin: bool) -> AluOut {
    AluOut {
        val: spec_sub_val(a, b, bin),
        n: spec_sign(spec_sub_val(a, b, bin)),
        z: spec_sub_val(a, b, bin) == 0,
        c: spec_sub_carry(a, b, bin),
        v: spec_sub_overflow(a, b, bin),
    }
}

/// The full ALU output of a logical operation: N and Z follow the value,
/// C comes from the shifter, V is kept.
pub open spec fn spec_logic_out(val: u32, shifter_carry: bool, old_v: bool) -> AluOut {
    AluOut { val, n: spec_sign(val), z: val == 0, c: shifter_carry, v: old_v }
}

/// A shifted operand together with the shifter's carry out.
#[derive(Clone, Copy, PartialEq, Eq, Structural, Debug)]
pub struct Shifted {
    pub val: u32,
    pub carry: bool,
}

/// Logical shift left by `n` (`n` may exceed 31 when it comes from a
/// register). Zero keeps the value and the old carry; 32 leaves zero with
/// bit 0 as carry; more leaves zero and no carry.
pub open spec fn spec_lsl(x: u32, n: u32, cin: bool) -> Shifted {
    if n == 0 {
        Shifted { val: x, carry: cin }
    } else if n < 32 {
        Shifted { val: x << n, carry: x >> (((32 - n) as u64) as u32) & 1 == 1 }
    } else if n == 32 {
        Shifted { val: 0, carry: x & 1 == 1 }
    } else {
        Shifted { val: 0, carry: false }
    }
}

/// Logical shift right: zero keeps the value and the old carry; 32 leaves
/// zero with bit 31 as carry; more leaves zero and no carry.
pub open spec fn spec_lsr(x: u32, n: u32, cin: bool) -> Shifted {
    if n == 0 {
        Shifted { val: x, carry: cin }
    } else if n < 32 {
        Shifted { val: x >> n, carry: x >> (((n - 1) as u64) as u32) & 1 == 1 }
    } else if n == 32 {
        Shifted { val: 0, carry: x >= 0x8000_0000 }
    } else {
        Shifted { val: 0, carry: false }
    }
}

/// Arithmetic shift right: the sign bit fills vacated positions; 32 or more
/// floods the word with the sign.
pub open spec fn spec_asr(x: u32, n: u32, cin: bool) -> Shifted {
    if n == 0 {
        Shifted { val: x, carry: cin }
    } else if n < 32 {
        Shifted {
            val: ((x >> n) | (if spec_sign(x) {
                ((0xffff_ffffu64 << (((32 - n) as u64) as u32)) & 0xffff_ffff) as u32
            } else {
                0u32
            })) as u32,
            carry: x >> (((n - 1) as u64) as u32) & 1 == 1,
        }
    } else {
        Shifted {
            val: if spec_sign(x) {
                0xffff_ffffu32
            } else {
                0u32
            },
            carry: spec_sign(x),
        }
    }
}

/// Rotate right: zero keeps the value and the old carry; a multiple of 32
/// keeps the value with bit 31 as carry; otherwise the carry is the last
/// bit rotated out.
pub open spec fn spec_ror_shift(x: u32, n: u32, cin: bool) -> Shifted {
    if n == 0 {
        Shifted { val: x, carry: cin }
    } else if n % 32 == 0 {
        Shifted { val: x, carry: x >= 0x8000_0000 }
    } else {
        Shifted {
            val: crate::bits::spec_ror(x, n % 32),
            carry: x >> ((((n % 32) - 1) as u64) as u32) & 1 == 1,
        }
    }
}

/// Rotate right extended (the encoding's rotate by zero): shifts right one
/// position, the old carry enters at bit 31, bit 0 leaves as carry.
pub open spec fn spec_rrx(x: u32, cin: bool) -> Shifted {
    Shifted {
        val: ((x >> 1) | (if cin {
            0x8000_0000u32
        } else {
            0u32
        })) as u32,
        carry: x & 1 == 1,
    }
}

/// Logical shift left.
pub fn lsl(x: u32, n: u32, cin: bool) -> (s: Shifted)
    ensures
        s == spec_lsl(x, n, cin),
{
    if n == 0 {
        Shifted { val: x, carry: cin }
    } else if n < 32 {
        Shifted { val: x << n, carry: x >> (32 - n) & 1 == 1 }
    } else if n == 32 {
        Shifted { val: 0, carry: x & 1 == 1 }
    } else {
        Shifted { val: 0, carry: false }
    }
}

/// Logical shift right.
pub fn lsr(x: u32, n: u32, cin: bool) -> (s: Shifted)
    ensures
        s == spec_lsr(x, n, cin),
{
    if n == 0 {
        Shifted { val: x, carry: cin }
    } else if n < 32 {
        Shifted { val: x >> n, carry: x >> (n - 1) & 1 == 1 }
    } else if n == 32 {
        Shifted { val: 0, carry: x >= 0x8000_0000 }
    } else {
        Shifted { val: 0, carry: false }
    }
}

/// Arithmetic shift right.
pub fn asr(x: u32, n: u32, cin: bool) -> (s: Shifted)
    ensures
        s == spec_asr(x, n, cin),
{
    if n == 0 {
        Shifted { val: x, carry: cin }
    } else if n < 32 {
        let fill: u32 = if x >= 0x8000_0000 {
            ((0xffff_ffffu64 << (32 - n)) & 0xffff_ffff) as u32
        } else {
            0
        };
        Shifted { val: (x >> n) | fill, carry: x >> (n - 1) & 1 == 1 }
    } else {
        Shifted {
            val: if x >= 0x8000_0000 {
                0xffff_ffff
            } else {
                0
            },
            carry: x >= 0x8000_0000,
        }
    }
}

/// Rotate right (an amount from a register may exceed 31).
pub fn ror_shift(x: u32, n: u32, cin: bool) -> (s: Shifted)
    ensures
        s == spec_ror_shift(x, n, cin),
{
    if n == 0 {
        Shifted { val: x, carry: cin }
    } else {
        let r: u32 = n % 32;
        if r == 0 {
            Shifted { val: x, carry: x >= 0x8000_0000 }
        } else {
            Shifted { val: crate::bits::ror(x, r), carry: x >> (r - 1) & 1 == 1 }
        }
    }
}

/// Rotate right extended.
pub fn rrx(x: u32, cin: bool) -> (s: Shifted)
    ensures
        s == spec_rrx(x, cin),
{
    Shifted {
        val: (x >> 1) | (if cin {
            0x8000_0000u32
        } else {
            0u32
        }),
        carry: x & 1 == 1,
    }
}

/// The truncated 32-bit product (MUL/MLA).
pub open spec fn spec_mul_val(a: u32, b: u32) -> u32 {
    ((a * b) % 0x1_0000_0000) as u32
}

/// Multiplies, truncating to 32 bits, and accumulates `acc`.
pub fn alu_mul(a: u32, b: u32, acc: u32) -> (r: u32)
    ensures
        r == spec_add_val(spec_mul_val(a, b), acc, false),
{
    proof {
        assert(a * b <= 0xffff_ffff * 0xffff_ffffu64) by (nonlinear_arith)
            requires
                a <= 0xffff_ffffu64 && b <= 0xffff_ffffu64,
        ;
    }
    let p: u64 = (a as u64 * b as u64) % 0x1_0000_0000;
    let s: u64 = p + acc as u64;
    (s % 0x1_0000_0000) as u32
}

/// The unsigned 64-bit product, split into low and high words
/// (UMULL/UMLAL's core).
pub fn alu_umull(a: u32, b: u32) -> (r: (u32, u32))
    ensures
        r.0 + 0x1_0000_0000 * r.1 == a * b,
{
    proof {
        assert(a * b <= 0xffff_ffff * 0xffff_ffffu64) by (nonlinear_arith)
            requires
                a <= 0xffff_ffffu64 && b <= 0xffff_ffffu64,
        ;
    }
    let p: u64 = a as u64 * b as u64;
    proof {
        assert(p % 0x1_0000_0000 + 0x1_0000_0000 * (p / 0x1_0000_0000) == p);
    }
    ((p % 0x1_0000_0000) as u32, (p / 0x1_0000_0000) as u32)
}

} // verus!
