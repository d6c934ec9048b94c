//! The CPU interpreter: sixteen general registers with per-mode banked
//! stack and link registers, the two-width fetch/decode/execute loop,
//! condition gating, exception entry, and interrupt service. Undefined
//! encodings are redirected into the guest's own undefined-instruction
//! vector, never surfaced as host errors.

use vstd::prelude::*;
use vstd::pervasive::VecAdditionalExecFns;
use crate::alu::{AluOut, Shifted, alu_add, alu_sub, alu_logic, alu_mul, alu_umull, condition_passed, lsl, lsr, asr, ror_shift, rrx};
use crate::cpsr::{Cpsr, Mode};
use crate::bus::{Bus, bus_wf};

verus! {

/// The register file and status registers.
pub struct Cpu {
    /// R0-R15 as the current mode sees them; R15 is the fetch address of
    /// the instruction being executed.
    pub regs: Vec<u32>,
    /// Banked R13 per register bank (row 0 is User/System).
    pub banked_sp: Vec<u32>,
    /// Banked R14 per register bank.
    pub banked_lr: Vec<u32>,
    /// Saved status register per bank, packed; row 0 is unused.
    pub banked_spsr: Vec<u32>,
    pub cpsr: Cpsr,
}

/// A well-formed CPU: full register file, banked tables of six rows, and
/// the program counter aligned to the active instruction width.
pub open spec fn cpu_wf(c: Cpu) -> bool {
    &&& c.regs@.len() == 16
    &&& c.banked_sp@.len() == 6
    &&& c.banked_lr@.len() == 6
    &&& c.banked_spsr@.len() == 6
    &&& (c.cpsr.thumb ==> c.regs@[15] % 2 == 0)
    &&& (!c.cpsr.thumb ==> c.regs@[15] % 4 == 0)
}

/// The exception classes the core can enter.
#[derive(Clone, Copy, PartialEq, Eq, Structural, Debug)]
pub enum Exception {
    Undefined,
    SoftwareInterrupt,
    Irq,
}

impl Cpu {
    /// A core reset to the given entry address: zeroed registers, the
    /// BIOS's conventional stack pointers, 32-bit width. Entering at the
    /// reset vector boots in supervisor mode; entering at a cartridge
    /// address starts in system mode as the BIOS would leave it.
    pub fn new(entry: u32) -> (c: Cpu)
        ensures
            cpu_wf(c),
            c.regs@[15] == entry & 0xffff_fffc,
            c.regs@[13] == 0x0300_7f00,
            forall|i: int| 0 <= i < 16 && i != 13 && i != 15 ==> c.regs@[i] == 0,
            c.banked_sp@ == seq![0u32, 0u32, 0x0300_7fa0u32, 0x0300_7fe0u32, 0u32, 0u32],
            forall|i: int| 0 <= i < 6 ==> c.banked_lr@[i] == 0 && c.banked_spsr@[i] == 0,
            c.cpsr == (Cpsr {
                n: false,
                z: false,
                c: false,
                v: false,
                irq_disable: entry == 0,
                fiq_disable: true,
                thumb: false,
                mode: if entry == 0 {
                    Mode::Supervisor
                } else {
                    Mode::System
                },
            }),
    {
        let mut regs: Vec<u32> = Vec::new();
        let mut i: usize = 0;
        while i < 16
            invariant
                regs@.len() == i,
                i <= 16,
                forall|j: int| 0 <= j < i ==> regs@[j] == 0,
            decreases 16 - i,
        {
            regs.push(0);
            i = i + 1;
        }
        let mut banked_sp: Vec<u32> = Vec::new();
        let mut banked_lr: Vec<u32> = Vec::new();
        let mut banked_spsr: Vec<u32> = Vec::new();
        let mut k: usize = 0;
        while k < 6
            invariant
                banked_sp@.len() == k,
                banked_lr@.len() == k,
                banked_spsr@.len() == k,
                k <= 6,
                forall|j: int|
                    0 <= j < k ==> banked_sp@[j] == 0 && banked_lr@[j] == 0 && banked_spsr@[j]
                        == 0,
            decreases 6 - k,
        {
            banked_sp.push(0);
            banked_lr.push(0);
            banked_spsr.push(0);
            k = k + 1;
        }
        let boot_from_bios = entry == 0;
        regs.set(13, 0x0300_7f00);
        banked_sp.set(2, 0x0300_7fa0);
        banked_sp.set(3, 0x0300_7fe0);
        regs.set(15, entry & 0xffff_fffc);
        proof {
            crate::bits::lemma_align(entry);
            assert(banked_sp@ =~= seq![0u32, 0u32, 0x0300_7fa0u32, 0x0300_7fe0u32, 0u32, 0u32]);
        }
        Cpu {
            regs,
            banked_sp,
            banked_lr,
            banked_spsr,
            cpsr: Cpsr {
                n: false,
                z: false,
                c: false,
                v: false,
                irq_disable: boot_from_bios,
                fiq_disable: true,
                thumb: false,
                mode: if boot_from_bios {
                    Mode::Supervisor
                } else {
                    Mode::System
                },
            },
        }
    }

    /// Switches privilege mode, parking the outgoing mode's R13/R14 in
    /// its bank row and loading the incoming mode's.
    pub fn switch_mode(&mut self, new_mode: Mode)
        requires
            cpu_wf(*old(self)),
        ensures
            cpu_wf(*final(self)),
            final(self).cpsr == (Cpsr { mode: new_mode, ..old(self).cpsr }),
            ({
                let ob = crate::cpsr::spec_bank(old(self).cpsr.mode);
                let nb = crate::cpsr::spec_bank(new_mode);
                if ob == nb {
                    &&& final(self).regs@ == old(self).regs@
                    &&& final(self).banked_sp@ == old(self).banked_sp@
                    &&& final(self).banked_lr@ == old(self).banked_lr@
                } else {
                    &&& final(self).regs@ == old(self).regs@.update(
                        13,
                        old(self).banked_sp@[nb as int],
                    ).update(14, old(self).banked_lr@[nb as int])
                    &&& final(self).banked_sp@ == old(self).banked_sp@.update(
                        ob as int,
                        old(self).regs@[13],
                    )
                    &&& final(self).banked_lr@ == old(self).banked_lr@.update(
                        ob as int,
                        old(self).regs@[14],
                    )
                }
            }),
            final(self).banked_spsr@ == old(self).banked_spsr@,
    {
        let ob = self.cpsr.mode.bank();
        let nb = new_mode.bank();
        if ob != nb {
            let sp = self.regs[13];
            let lr = self.regs[14];
            self.banked_sp.set(ob, sp);
            self.banked_lr.set(ob, lr);
            let nsp = self.banked_sp[nb];
            let nlr = self.banked_lr[nb];
            self.regs.set(13, nsp);
            self.regs.set(14, nlr);
        }
        self.cpsr.mode = new_mode;
    }

    /// Enters an exception: saves the return address and current status
    /// into the target mode's banked LR/SPSR, switches to that mode in
    /// 32-bit width with IRQs disabled, and jumps to the fixed vector.
    pub fn raise_exception(&mut self, kind: Exception, return_addr: u32)
        requires
            cpu_wf(*old(self)),
        ensures
            cpu_wf(*final(self)),
            final(self).cpsr.thumb == false,
            final(self).cpsr.irq_disable == true,
            final(self).cpsr.mode == spec_exception_mode(kind),
            final(self).regs@[15] == spec_exception_vector(kind),
            final(self).regs@[14] == return_addr,
            final(self).banked_spsr@ == old(self).banked_spsr@.update(
                crate::cpsr::spec_bank(spec_exception_mode(kind)) as int,
                crate::cpsr::spec_cpsr_bits(old(self).cpsr),
            ),
            forall|i: int| 0 <= i < 13 ==> final(self).regs@[i] == old(self).regs@[i],
            final(self).cpsr.n == old(self).cpsr.n && final(self).cpsr.z == old(self).cpsr.z
                && final(self).cpsr.c == old(self).cpsr.c && final(self).cpsr.v == old(
                self,
            ).cpsr.v && final(self).cpsr.fiq_disable == old(self).cpsr.fiq_disable,
    {
        let old_status = self.cpsr.to_bits();
        let (vector, mode) = match kind {
            Exception::Undefined => (0x04u32, Mode::Undefined),
            Exception::SoftwareInterrupt => (0x08u32, Mode::Supervisor),
            Exception::Irq => (0x18u32, Mode::Irq),
        };
        self.switch_mode(mode);
        let nb = mode.bank();
        self.banked_spsr.set(nb, old_status);
        self.cpsr.thumb = false;
        self.cpsr.irq_disable = true;
        self.regs.set(14, return_addr);
        self.regs.set(15, vector);
    }

    /// Reads a register as an operand: R15 reads two fetch widths ahead
    /// of the executing instruction, as the pipeline makes it.
    pub fn reg_op(&self, i: usize) -> (v: u32)
        requires
            cpu_wf(*self),
            i < 16,
        ensures
            v == spec_reg_op(*self, i as int),
            i < 15 ==> v == self.regs@[i as int],
    {
        if i == 15 {
            if self.cpsr.thumb {
                self.regs[15].wrapping_add(4)
            } else {
                self.regs[15].wrapping_add(8)
            }
        } else {
            self.regs[i]
        }
    }

    /// Writes a register; a write to R15 is aligned down to the active
    /// instruction width (the pipeline is flushed by the caller's cycle
    /// accounting).
    pub fn set_reg(&mut self, i: usize, v: u32)
        requires
            cpu_wf(*old(self)),
            i < 16,
        ensures
            cpu_wf(*final(self)),
            *final(self) == (Cpu { regs: final(self).regs, ..*old(self) }),
            i < 15 ==> final(self).regs@ == old(self).regs@.update(i as int, v),
            i == 15 && old(self).cpsr.thumb ==> final(self).regs@ == old(self).regs@.update(
                15,
                v & 0xffff_fffe,
            ),
            i == 15 && !old(self).cpsr.thumb ==> final(self).regs@ == old(self).regs@.update(
                15,
                v & 0xffff_fffc,
            ),
    {
        if i == 15 {
            if self.cpsr.thumb {
                proof {
                    crate::bits::lemma_align(v);
                }
                self.regs.set(15, v & 0xffff_fffe);
            } else {
                proof {
                    crate::bits::lemma_align(v);
                }
                self.regs.set(15, v & 0xffff_fffc);
            }
        } else {
            self.regs.set(i, v);
        }
    }
}

/// The mode an exception class enters.
pub open spec fn spec_exception_mode(kind: Exception) -> Mode {
    match kind {
        Exception::Undefined => Mode::Undefined,
        Exception::SoftwareInterrupt => Mode::Supervisor,
        Exception::Irq => Mode::Irq,
    }
}

/// The fixed vector address of an exception class.
pub open spec fn spec_exception_vector(kind: Exception) -> u32 {
    match kind {
        Exception::Undefined => 0x04,
        Exception::SoftwareInterrupt => 0x08,
        Exception::Irq => 0x18,
    }
}

/// The low four bits of a field, as a register index.
fn reg_idx(x: u32) -> (i: usize)
    ensures
        i < 16,
        i == x & 0xf,
{
    proof {
        crate::bits::lemma_mask_low(x);
    }
    (x & 0xf) as usize
}

/// The low three bits of a field, as a register index.
fn reg_idx3(x: u32) -> (i: usize)
    ensures
        i < 8,
        i == x & 7,
{
    proof {
        crate::bits::lemma_mask_low(x);
    }
    (x & 7) as usize
}


/// A register read as an operand: R15 reads two fetch widths ahead of
/// the executing instruction, as the pipeline makes it.
pub open spec fn spec_reg_op(c: Cpu, i: int) -> u32 {
    if i == 15 {
        crate::dma::spec_step_once(
            c.regs@[15],
            crate::dma::DmaStep::Increment,
            if c.cpsr.thumb {
                4
            } else {
                8
            },
        )
    } else {
        c.regs@[i]
    }
}

/// The program counter after a sequential 32-bit instruction: four ahead,
/// wrapped and word-aligned.
pub open spec fn spec_next_arm_pc(c: Cpu) -> u32 {
    (crate::dma::spec_step_once(c.regs@[15], crate::dma::DmaStep::Increment, 4)
        & 0xffff_fffc) as u32
}

/// The program counter after a sequential 16-bit instruction: two ahead,
/// wrapped and half-word-aligned.
pub open spec fn spec_next_thumb_pc(c: Cpu) -> u32 {
    (crate::dma::spec_step_once(c.regs@[15], crate::dma::DmaStep::Increment, 2)
        & 0xffff_fffe) as u32
}

/// The barrel-shifted second operand of a data-processing instruction,
/// with the shifter's carry out: a rotated immediate, or a register
/// shifted by an immediate amount or by the low byte of a register, with
/// the encoding's special cases (a shift amount of zero keeps the old
/// carry; immediate LSR/ASR by zero mean 32; immediate ROR by zero is
/// rotate-right-extended).
pub open spec fn spec_shifted_operand(c: Cpu, op: u32) -> Shifted {
    if op & 0x0200_0000 != 0 {
        let imm = op & 0xff;
        let rot = (((op >> 8) & 0xf) * 2) as u32;
        if rot == 0 {
            Shifted { val: imm, carry: c.cpsr.c }
        } else {
            let v = crate::bits::spec_ror(imm, rot);
            Shifted { val: v, carry: v >= 0x8000_0000 }
        }
    } else {
        let rm = spec_reg_op(c, (op & 0xf) as int);
        let stype = (op >> 5) & 3;
        if op & 0x10 != 0 {
            let amount = (spec_reg_op(c, ((op >> 8) & 0xf) as int) & 0xff) as u32;
            if stype == 0 {
                crate::alu::spec_lsl(rm, amount, c.cpsr.c)
            } else if stype == 1 {
                crate::alu::spec_lsr(rm, amount, c.cpsr.c)
            } else if stype == 2 {
                crate::alu::spec_asr(rm, amount, c.cpsr.c)
            } else {
                crate::alu::spec_ror_shift(rm, amount, c.cpsr.c)
            }
        } else {
            let amount = (op >> 7) & 0x1f;
            if stype == 0 {
                crate::alu::spec_lsl(rm, amount, c.cpsr.c)
            } else if stype == 1 {
                crate::alu::spec_lsr(rm, if amount == 0 {
                    32
                } else {
                    amount
                }, c.cpsr.c)
            } else if stype == 2 {
                crate::alu::spec_asr(rm, if amount == 0 {
                    32
                } else {
                    amount
                }, c.cpsr.c)
            } else {
                if amount == 0 {
                    crate::alu::spec_rrx(rm, c.cpsr.c)
                } else {
                    crate::alu::spec_ror_shift(rm, amount, c.cpsr.c)
                }
            }
        }
    }
}

/// The result and flags a data-processing instruction computes: the
/// sixteen ALU opcodes over the first operand register and the barrel
/// shifter, each with the documented flag behaviour.
pub open spec fn spec_dp_out(c: Cpu, op: u32) -> AluOut {
    let opcode = (op >> 21) & 0xf;
    let a = spec_reg_op(c, ((op >> 16) & 0xf) as int);
    let sh = spec_shifted_operand(c, op);
    let b = sh.val;
    if opcode == 0 || opcode == 8 {
        crate::alu::spec_logic_out(a & b, sh.carry, c.cpsr.v)
    } else if opcode == 1 || opcode == 9 {
        crate::alu::spec_logic_out(a ^ b, sh.carry, c.cpsr.v)
    } else if opcode == 2 || opcode == 10 {
        crate::alu::spec_sub_out(a, b, false)
    } else if opcode == 3 {
        crate::alu::spec_sub_out(b, a, false)
    } else if opcode == 4 || opcode == 11 {
        crate::alu::spec_add_out(a, b, false)
    } else if opcode == 5 {
        crate::alu::spec_add_out(a, b, c.cpsr.c)
    } else if opcode == 6 {
        crate::alu::spec_sub_out(a, b, !c.cpsr.c)
    } else if opcode == 7 {
        crate::alu::spec_sub_out(b, a, !c.cpsr.c)
    } else if opcode == 12 {
        crate::alu::spec_logic_out(a | b, sh.carry, c.cpsr.v)
    } else if opcode == 13 {
        crate::alu::spec_logic_out(b, sh.carry, c.cpsr.v)
    } else if opcode == 14 {
        crate::alu::spec_logic_out(a & !b, sh.carry, c.cpsr.v)
    } else {
        crate::alu::spec_logic_out(!b, sh.carry, c.cpsr.v)
    }
}

/// What executing a data-processing instruction whose condition passed
/// does to the processor: the destination takes the ALU result (a
/// test/compare writes none), the program counter steps to the next
/// instruction, and with S set the four flags take the ALU's. A
/// flag-setting write to R15 returns from an exception instead and is
/// left open here.
pub open spec fn spec_dp_effect(c0: Cpu, c1: Cpu, op: u32) -> bool {
    let out = spec_dp_out(c0, op);
    let opcode = (op >> 21) & 0xf;
    let is_test = 8 <= opcode <= 11;
    let s = op & 0x0010_0000 != 0;
    let rd = ((op >> 12) & 0xf) as int;
    let spsr_return = s && rd == 15 && !is_test;
    &&& (is_test ==> c1.regs@ == c0.regs@.update(15, spec_next_arm_pc(c0)))
    &&& (!is_test && rd != 15 ==> c1.regs@ == c0.regs@.update(rd, out.val).update(
        15,
        spec_next_arm_pc(c0),
    ))
    &&& (s && !spsr_return ==> c1.cpsr == (Cpsr {
        n: out.n,
        z: out.z,
        c: out.c,
        v: out.v,
        ..c0.cpsr
    }))
    &&& (!s ==> c1.cpsr == c0.cpsr)
    &&& (!spsr_return ==> c1.banked_sp@ == c0.banked_sp@ && c1.banked_lr@ == c0.banked_lr@
        && c1.banked_spsr@ == c0.banked_spsr@)
}


/// Whether an interrupt request is taken at this instruction boundary.
pub open spec fn spec_irq_taken(c: Cpu, b: Bus) -> bool {
    b.irq.master && (b.irq.enable & b.irq.pending) != 0 && !c.cpsr.irq_disable
}

/// The word fetched at `pc`: the bus is read with the fetch address
/// already latched, as the hardware does, so a fetch inside the BIOS can
/// see it.
pub open spec fn spec_fetch32(b: Bus, pc: u32) -> u32 {
    crate::bus::spec_word_at(Bus { last_fetch: pc, ..b }, pc)
}

/// The half-word fetched at `pc`, same latching.
pub open spec fn spec_fetch16(b: Bus, pc: u32) -> u16 {
    crate::bits::spec_half(
        crate::bus::spec_read8(Bus { last_fetch: pc, ..b }, pc),
        crate::bus::spec_read8(Bus { last_fetch: pc, ..b }, ((pc + 1) as u32)),
    )
}

/// What the 16-bit encoding's three arithmetic/logic immediate formats do
/// to the processor: shift-by-immediate, three-register add/subtract, and
/// the eight-bit move/compare/add/subtract group, each writing its
/// destination (compares write none) and the four flags, and stepping the
/// program counter.
pub open spec fn spec_thumb_alu_effect(c0: Cpu, c1: Cpu, op16: u16) -> bool {
    let op = op16 as u32;
    let top = op >> 11;
    let next = spec_next_thumb_pc(c0);
    if top <= 2 {
        let rd = (op & 7) as int;
        let x = c0.regs@[((op >> 3) & 7) as int];
        let imm = (op >> 6) & 0x1f;
        let sh = if top == 0 {
            crate::alu::spec_lsl(x, imm, c0.cpsr.c)
        } else if top == 1 {
            crate::alu::spec_lsr(x, if imm == 0 {
                32
            } else {
                imm
            }, c0.cpsr.c)
        } else {
            crate::alu::spec_asr(x, if imm == 0 {
                32
            } else {
                imm
            }, c0.cpsr.c)
        };
        &&& c1.regs@ == c0.regs@.update(rd, sh.val).update(15, next)
        &&& c1.cpsr == (Cpsr {
            n: crate::alu::spec_sign(sh.val),
            z: sh.val == 0,
            c: sh.carry,
            v: c0.cpsr.v,
            ..c0.cpsr
        })
        &&& c1.banked_sp@ == c0.banked_sp@ && c1.banked_lr@ == c0.banked_lr@ && c1.banked_spsr@
            == c0.banked_spsr@
    } else if top == 3 {
        let rd = (op & 7) as int;
        let a = c0.regs@[((op >> 3) & 7) as int];
        let b = if op & 0x400 != 0 {
            (op >> 6) & 7
        } else {
            c0.regs@[((op >> 6) & 7) as int]
        };
        let out = if op & 0x200 != 0 {
            crate::alu::spec_sub_out(a, b, false)
        } else {
            crate::alu::spec_add_out(a, b, false)
        };
        &&& c1.regs@ == c0.regs@.update(rd, out.val).update(15, next)
        &&& c1.cpsr == (Cpsr { n: out.n, z: out.z, c: out.c, v: out.v, ..c0.cpsr })
        &&& c1.banked_sp@ == c0.banked_sp@ && c1.banked_lr@ == c0.banked_lr@ && c1.banked_spsr@
            == c0.banked_spsr@
    } else {
        let rd = ((op >> 8) & 7) as int;
        let imm = op & 0xff;
        let opc = top & 3;
        let a = c0.regs@[rd];
        &&& (opc == 0 ==> c1.regs@ == c0.regs@.update(rd, imm).update(15, next) && c1.cpsr
            == (Cpsr {
            n: crate::alu::spec_sign(imm),
            z: imm == 0,
            c: c0.cpsr.c,
            v: c0.cpsr.v,
            ..c0.cpsr
        }))
        &&& (opc == 1 ==> c1.regs@ == c0.regs@.update(15, next) && c1.cpsr == ({
            let out = crate::alu::spec_sub_out(a, imm, false);
            Cpsr { n: out.n, z: out.z, c: out.c, v: out.v, ..c0.cpsr }
        }))
        &&& (opc == 2 ==> ({
            let out = crate::alu::spec_add_out(a, imm, false);
            c1.regs@ == c0.regs@.update(rd, out.val).update(15, next) && c1.cpsr == (Cpsr {
                n: out.n,
                z: out.z,
                c: out.c,
                v: out.v,
                ..c0.cpsr
            })
        }))
        &&& (opc == 3 ==> ({
            let out = crate::alu::spec_sub_out(a, imm, false);
            c1.regs@ == c0.regs@.update(rd, out.val).update(15, next) && c1.cpsr == (Cpsr {
                n: out.n,
                z: out.z,
                c: out.c,
                v: out.v,
                ..c0.cpsr
            })
        }))
        &&& c1.banked_sp@ == c0.banked_sp@ && c1.banked_lr@ == c0.banked_lr@ && c1.banked_spsr@
            == c0.banked_spsr@
    }
}


/// Whether a 32-bit encoding is a branch (with or without link): its
/// class bits say so, and no earlier pattern claims it.
pub open spec fn spec_is_branch(op: u32) -> bool {
    &&& op & 0x0fff_fff0 != 0x012f_ff10
    &&& op & 0x0fc0_00f0 != 0x0000_0090
    &&& op & 0x0f80_00f0 != 0x0080_0090
    &&& op & 0x0fb0_0ff0 != 0x0100_0090
    &&& !(op & 0x0e00_0090 == 0x0000_0090 && op & 0x60 != 0)
    &&& op & 0x0fbf_0fff != 0x010f_0000
    &&& op & 0x0db0_f000 != 0x0120_f000
    &&& op & 0x0c00_0000 != 0
    &&& op & 0x0c00_0000 != 0x0400_0000
    &&& op & 0x0e00_0000 != 0x0800_0000
    &&& op & 0x0e00_0000 == 0x0a00_0000
}

/// What a branch whose condition passed does: the 24-bit offset is
/// sign-extended, scaled to words, and added to the pipeline-advanced
/// program counter; a link saves the next instruction's address first.
pub open spec fn spec_branch_effect(c0: Cpu, c1: Cpu, op: u32) -> bool {
    let imm = op & 0x00ff_ffff;
    let offset: u32 = if imm & 0x0080_0000 != 0 {
        (imm | 0xff00_0000) << 2
    } else {
        imm << 2
    };
    let target = (crate::dma::spec_step_once(
        crate::dma::spec_step_once(c0.regs@[15], crate::dma::DmaStep::Increment, 8),
        crate::dma::DmaStep::Increment,
        offset,
    ) & 0xffff_fffc) as u32;
    &&& (op & 0x0100_0000 != 0 ==> c1.regs@ == c0.regs@.update(
        14,
        crate::dma::spec_step_once(c0.regs@[15], crate::dma::DmaStep::Increment, 4),
    ).update(15, target))
    &&& (op & 0x0100_0000 == 0 ==> c1.regs@ == c0.regs@.update(15, target))
    &&& c1.cpsr == c0.cpsr
    &&& c1.banked_sp@ == c0.banked_sp@
    &&& c1.banked_lr@ == c0.banked_lr@
    &&& c1.banked_spsr@ == c0.banked_spsr@
}

/// Whether a 32-bit encoding falls to the data-processing class: none of
/// the more specific patterns (branch-exchange, multiplies, swaps,
/// halfword transfers, status moves) claim it, and its top class bits are
/// zero.
pub open spec fn spec_is_dp(op: u32) -> bool {
    &&& op & 0x0fff_fff0 != 0x012f_ff10
    &&& op & 0x0fc0_00f0 != 0x0000_0090
    &&& op & 0x0f80_00f0 != 0x0080_0090
    &&& op & 0x0fb0_0ff0 != 0x0100_0090
    &&& !(op & 0x0e00_0090 == 0x0000_0090 && op & 0x60 != 0)
    &&& op & 0x0fbf_0fff != 0x010f_0000
    &&& op & 0x0db0_f000 != 0x0120_f000
    &&& op & 0x0c00_0000 == 0
}

impl Cpu {
    /// The barrel-shifted second operand of a data-processing instruction,
    /// with the shifter's carry out.
    fn shifted_operand(&self, op: u32) -> (r: Shifted)
        requires
            cpu_wf(*self),
        ensures
            r == spec_shifted_operand(*self, op),
    {
        if op & 0x0200_0000 != 0 {
            let imm = op & 0xff;
            proof {
                crate::bits::lemma_mask_low(op >> 8);
            }
            let rot = ((op >> 8) & 0xf) * 2;
            if rot == 0 {
                Shifted { val: imm, carry: self.cpsr.c }
            } else {
                let v = crate::bits::ror(imm, rot);
                Shifted { val: v, carry: v >= 0x8000_0000 }
            }
        } else {
            let rm = self.reg_op(reg_idx(op));
            let stype = (op >> 5) & 3;
            if op & 0x10 != 0 {
                let rs = reg_idx(op >> 8);
                let amount = self.reg_op(rs) & 0xff;
                if stype == 0 {
                    lsl(rm, amount, self.cpsr.c)
                } else if stype == 1 {
                    lsr(rm, amount, self.cpsr.c)
                } else if stype == 2 {
                    asr(rm, amount, self.cpsr.c)
                } else {
                    ror_shift(rm, amount, self.cpsr.c)
                }
            } else {
                let amount = (op >> 7) & 0x1f;
                if stype == 0 {
                    lsl(rm, amount, self.cpsr.c)
                } else if stype == 1 {
                    lsr(rm, if amount == 0 {
                        32
                    } else {
                        amount
                    }, self.cpsr.c)
                } else if stype == 2 {
                    asr(rm, if amount == 0 {
                        32
                    } else {
                        amount
                    }, self.cpsr.c)
                } else {
                    if amount == 0 {
                        rrx(rm, self.cpsr.c)
                    } else {
                        ror_shift(rm, amount, self.cpsr.c)
                    }
                }
            }
        }
    }

    /// Returns to the saved status register of the current exception
    /// mode, as a flag-setting write to R15 does; in a mode without one
    /// the status is left alone.
    fn restore_spsr(&mut self)
        requires
            cpu_wf(*old(self)),
        ensures
            cpu_wf(*final(self)),
    {
        let bank = self.cpsr.mode.bank();
        if bank != 0 {
            let saved = Cpsr::from_bits(self.banked_spsr[bank]);
            self.switch_mode(saved.mode);
            self.cpsr = saved;
            let pc = self.regs[15];
            if saved.thumb {
                self.regs.set(15, pc & 0xffff_fffe);
                proof {
                    crate::bits::lemma_align(pc);
                }
            } else {
                self.regs.set(15, pc & 0xffff_fffc);
                proof {
                    crate::bits::lemma_align(pc);
                }
            }
        }
    }

    /// Executes one 32-bit instruction whose condition already passed.
    /// Undefined encodings enter the guest's undefined-instruction vector.
    #[verifier::rlimit(100)]
    #[verifier::spinoff_prover]
    pub fn exec_arm(&mut self, bus: &mut Bus, op: u32) -> (cycles: u32)
        requires
            cpu_wf(*old(self)),
            bus_wf(*old(bus)),
            !old(self).cpsr.thumb,
        ensures
            cpu_wf(*final(self)),
            bus_wf(*final(bus)),
            1 <= cycles <= 600,
            final(bus).ppu.vcount == old(bus).ppu.vcount,
            final(bus).ppu.dot == old(bus).ppu.dot,
            spec_is_dp(op) ==> spec_dp_effect(*old(self), *final(self), op) && *final(bus)
                == *old(bus),
            spec_is_branch(op) ==> spec_branch_effect(*old(self), *final(self), op) && *final(bus)
                == *old(bus) && cycles == 3,
    {
        let pc = self.regs[15];
        let next_pc = pc.wrapping_add(4);
        if op & 0x0fff_fff0 == 0x012f_ff10 {
            // BX: branch, exchanging instruction width.
            let target = self.reg_op(reg_idx(op));
            self.cpsr.thumb = target & 1 == 1;
            self.set_reg(15, target);
            3
        } else if op & 0x0fc0_00f0 == 0x0000_0090 {
            // MUL/MLA.
            let rd = reg_idx(op >> 16);
            let rn = reg_idx(op >> 12);
            let rs = reg_idx(op >> 8);
            let rm = reg_idx(op);
            let acc = if op & 0x0020_0000 != 0 {
                self.reg_op(rn)
            } else {
                0
            };
            let r = alu_mul(self.reg_op(rm), self.reg_op(rs), acc);
            if op & 0x0010_0000 != 0 {
                self.cpsr.n = r >= 0x8000_0000;
                self.cpsr.z = r == 0;
            }
            if rd != 15 {
                self.set_reg(rd, r);
            }
            self.set_reg(15, next_pc);
            2
        } else if op & 0x0f80_00f0 == 0x0080_0090 {
            // UMULL/UMLAL/SMULL/SMLAL.
            let rdhi = reg_idx(op >> 16);
            let rdlo = reg_idx(op >> 12);
            let rs = reg_idx(op >> 8);
            let rm = reg_idx(op);
            let signed = op & 0x0040_0000 != 0;
            let a = self.reg_op(rm);
            let b = self.reg_op(rs);
            let (mut lo, mut hi) = if signed {
                let ai: i64 = (a as i32) as i64;
                let bi: i64 = (b as i32) as i64;
                proof {
                    assert(-0x4000_0000_0000_0000 <= ai * bi
                        <= 0x4000_0000_0000_0000) by (nonlinear_arith)
                        requires
                            -0x8000_0000 <= ai <= 0x7fff_ffff && -0x8000_0000 <= bi
                                <= 0x7fff_ffff,
                    ;
                }
                let p: i64 = ai * bi;
                #[verifier::truncate]
                let pu = p as u64;
                ((pu & 0xffff_ffff) as u32, (pu >> 32) as u32)
            } else {
                alu_umull(a, b)
            };
            if op & 0x0020_0000 != 0 {
                // Accumulate the existing destination pair.
                let addlo = self.reg_op(rdlo) as u64;
                let addhi = self.reg_op(rdhi) as u64;
                let sum: u64 = ((lo as u64 | ((hi as u64) << 32)) as u64).wrapping_add(
                    addlo | (addhi << 32),
                );
                lo = (sum & 0xffff_ffff) as u32;
                hi = (sum >> 32) as u32;
            }
            if op & 0x0010_0000 != 0 {
                self.cpsr.n = hi >= 0x8000_0000;
                self.cpsr.z = lo == 0 && hi == 0;
            }
            if rdlo != 15 {
                self.set_reg(rdlo, lo);
            }
            if rdhi != 15 {
                self.set_reg(rdhi, hi);
            }
            self.set_reg(15, next_pc);
            3
        } else if op & 0x0fb0_0ff0 == 0x0100_0090 {
            // SWP/SWPB: atomic swap through the bus.
            let rn = reg_idx(op >> 16);
            let rd = reg_idx(op >> 12);
            let rm = reg_idx(op);
            let addr = self.reg_op(rn);
            let new_val = self.reg_op(rm);
            if op & 0x0040_0000 != 0 {
                let old_byte = bus.read8(addr);
                bus.write8(addr, (new_val & 0xff) as u8);
                if rd != 15 {
                    self.set_reg(rd, old_byte as u32);
                }
            } else {
                let old_word = bus.read32(addr);
                bus.write32(addr, new_val);
                if rd != 15 {
                    self.set_reg(rd, old_word);
                }
            }
            self.set_reg(15, next_pc);
            4
        } else if op & 0x0e00_0090 == 0x0000_0090 && op & 0x60 != 0 {
            // Halfword and signed transfers.
            let cycles = self.exec_arm_halfword(bus, op);
            cycles
        } else if op & 0x0fbf_0fff == 0x010f_0000 {
            // MRS: status to register.
            let rd = reg_idx(op >> 12);
            let v = if op & 0x0040_0000 != 0 {
                let bank = self.cpsr.mode.bank();
                if bank != 0 {
                    self.banked_spsr[bank]
                } else {
                    self.cpsr.to_bits()
                }
            } else {
                self.cpsr.to_bits()
            };
            if rd != 15 {
                self.set_reg(rd, v);
            }
            self.set_reg(15, next_pc);
            1
        } else if op & 0x0db0_f000 == 0x0120_f000 {
            // MSR: register or immediate to status.
            let v = if op & 0x0200_0000 != 0 {
                let imm = op & 0xff;
                proof {
                    crate::bits::lemma_mask_low(op >> 8);
                }
                let rot = ((op >> 8) & 0xf) * 2;
                crate::bits::ror(imm, rot)
            } else {
                self.reg_op(reg_idx(op))
            };
            let to_spsr = op & 0x0040_0000 != 0;
            let write_flags = op & 0x0008_0000 != 0;
            let write_control = op & 0x0001_0000 != 0;
            if to_spsr {
                let bank = self.cpsr.mode.bank();
                if bank != 0 {
                    let cur = self.banked_spsr[bank];
                    let merged = (if write_flags {
                        v & 0xf000_0000
                    } else {
                        cur & 0xf000_0000
                    }) | (if write_control {
                        v & 0xff
                    } else {
                        cur & 0xff
                    }) | (cur & 0x0fff_ff00);
                    self.banked_spsr.set(bank, merged);
                }
            } else {
                if write_flags {
                    self.cpsr.n = v & 0x8000_0000 != 0;
                    self.cpsr.z = v & 0x4000_0000 != 0;
                    self.cpsr.c = v & 0x2000_0000 != 0;
                    self.cpsr.v = v & 0x1000_0000 != 0;
                }
                if write_control && !matches!(self.cpsr.mode, Mode::User) {
                    let new_mode = Mode::from_bits(v & 0x1f);
                    self.switch_mode(new_mode);
                    self.cpsr.irq_disable = v & 0x80 != 0;
                    self.cpsr.fiq_disable = v & 0x40 != 0;
                }
            }
            self.set_reg(15, next_pc);
            1
        } else if op & 0x0c00_0000 == 0 {
            let cycles = self.exec_arm_data_processing(op);
            cycles
        } else if op & 0x0c00_0000 == 0x0400_0000 {
            if op & 0x0200_0000 != 0 && op & 0x10 != 0 {
                self.raise_exception(Exception::Undefined, next_pc);
                3
            } else {
                let cycles = self.exec_arm_single_transfer(bus, op);
                cycles
            }
        } else if op & 0x0e00_0000 == 0x0800_0000 {
            let cycles = self.exec_arm_block_transfer(bus, op);
            cycles
        } else if op & 0x0e00_0000 == 0x0a00_0000 {
            // B/BL.
            if op & 0x0100_0000 != 0 {
                self.set_reg(14, next_pc);
            }
            let imm = op & 0x00ff_ffff;
            let offset: u32 = if imm & 0x0080_0000 != 0 {
                (imm | 0xff00_0000) << 2
            } else {
                imm << 2
            };
            let target = pc.wrapping_add(8).wrapping_add(offset);
            self.set_reg(15, target);
            3
        } else if op & 0x0f00_0000 == 0x0f00_0000 {
            // SWI: enter the supervisor call vector.
            self.raise_exception(Exception::SoftwareInterrupt, next_pc);
            3
        } else {
            self.raise_exception(Exception::Undefined, next_pc);
            3
        }
    }

    /// The ALU result and flags of a data-processing instruction.
    #[verifier::rlimit(100)]
    #[verifier::spinoff_prover]
    fn dp_out(&self, op: u32) -> (out: AluOut)
        requires
            cpu_wf(*self),
        ensures
            out == spec_dp_out(*self, op),
    {
        let opcode = (op >> 21) & 0xf;
        let rn = reg_idx(op >> 16);
        let sh = self.shifted_operand(op);
        let a = self.reg_op(rn);
        let b = sh.val;
        if opcode == 0 || opcode == 8 {
            alu_logic(a & b, sh.carry, self.cpsr.v)
        } else if opcode == 1 || opcode == 9 {
            alu_logic(a ^ b, sh.carry, self.cpsr.v)
        } else if opcode == 2 || opcode == 10 {
            alu_sub(a, b, false)
        } else if opcode == 3 {
            alu_sub(b, a, false)
        } else if opcode == 4 || opcode == 11 {
            alu_add(a, b, false)
        } else if opcode == 5 {
            alu_add(a, b, self.cpsr.c)
        } else if opcode == 6 {
            alu_sub(a, b, !self.cpsr.c)
        } else if opcode == 7 {
            alu_sub(b, a, !self.cpsr.c)
        } else if opcode == 12 {
            alu_logic(a | b, sh.carry, self.cpsr.v)
        } else if opcode == 13 {
            alu_logic(b, sh.carry, self.cpsr.v)
        } else if opcode == 14 {
            alu_logic(a & !b, sh.carry, self.cpsr.v)
        } else {
            alu_logic(!b, sh.carry, self.cpsr.v)
        }
    }

    /// Data processing: the sixteen ALU opcodes with barrel-shifted
    /// operands, flags from the ALU truth tables when S is set.
    #[verifier::rlimit(100)]
    #[verifier::spinoff_prover]
    fn exec_arm_data_processing(&mut self, op: u32) -> (cycles: u32)
        requires
            cpu_wf(*old(self)),
            !old(self).cpsr.thumb,
        ensures
            cpu_wf(*final(self)),
            1 <= cycles <= 10,
            spec_dp_effect(*old(self), *final(self), op),
            ((8 <= (op >> 21) & 0xf <= 11) || (op >> 12) & 0xf != 15) ==> cycles == 1,
    {
        let pc = self.regs[15];
        let next_pc = pc.wrapping_add(4);
        let opcode = (op >> 21) & 0xf;
        let set_flags = op & 0x0010_0000 != 0;
        let rd = reg_idx(op >> 12);
        let out: AluOut = self.dp_out(op);
        let is_test = opcode >= 8 && opcode <= 11;
        if set_flags {
            if rd == 15 && !is_test {
                self.restore_spsr();
            } else {
                self.cpsr.n = out.n;
                self.cpsr.z = out.z;
                self.cpsr.c = out.c;
                self.cpsr.v = out.v;
            }
        }
        if !is_test {
            self.set_reg(rd, out.val);
            if rd == 15 {
                3
            } else {
                self.set_reg(15, next_pc);
                1
            }
        } else {
            self.set_reg(15, next_pc);
            1
        }
    }

    /// LDR/STR: word or byte, pre/post-indexed, with optional writeback.
    fn exec_arm_single_transfer(&mut self, bus: &mut Bus, op: u32) -> (cycles: u32)
        requires
            cpu_wf(*old(self)),
            bus_wf(*old(bus)),
            !old(self).cpsr.thumb,
        ensures
            cpu_wf(*final(self)),
            bus_wf(*final(bus)),
            1 <= cycles <= 10,
            final(bus).ppu.vcount == old(bus).ppu.vcount,
            final(bus).ppu.dot == old(bus).ppu.dot,
    {
        let pc = self.regs[15];
        let next_pc = pc.wrapping_add(4);
        let rn = reg_idx(op >> 16);
        let rd = reg_idx(op >> 12);
        let base = self.reg_op(rn);
        let offset: u32 = if op & 0x0200_0000 != 0 {
            self.shifted_operand(op & !0x0200_0000).val
        } else {
            op & 0xfff
        };
        let up = op & 0x0080_0000 != 0;
        let pre = op & 0x0100_0000 != 0;
        let writeback = op & 0x0020_0000 != 0;
        let byte = op & 0x0040_0000 != 0;
        let load = op & 0x0010_0000 != 0;
        let offset_addr = if up {
            base.wrapping_add(offset)
        } else {
            base.wrapping_sub(offset)
        };
        let addr = if pre {
            offset_addr
        } else {
            base
        };
        let mut pc_written = false;
        if load {
            let v = if byte {
                bus.read8(addr) as u32
            } else {
                bus.read32(addr)
            };
            if !pre || writeback {
                if rn != 15 {
                    self.set_reg(rn, offset_addr);
                }
            }
            self.set_reg(rd, v);
            pc_written = rd == 15;
        } else {
            let v = self.reg_op(rd);
            // A stored R15 reads one extra fetch ahead.
            let v = if rd == 15 {
                v.wrapping_add(4)
            } else {
                v
            };
            if byte {
                bus.write8(addr, (v & 0xff) as u8);
            } else {
                bus.write32(addr, v);
            }
            if !pre || writeback {
                if rn != 15 {
                    self.set_reg(rn, offset_addr);
                }
            }
        }
        if !pc_written {
            self.set_reg(15, next_pc);
            if load {
                3
            } else {
                2
            }
        } else {
            5
        }
    }

    /// LDRH/STRH/LDRSB/LDRSH.
    fn exec_arm_halfword(&mut self, bus: &mut Bus, op: u32) -> (cycles: u32)
        requires
            cpu_wf(*old(self)),
            bus_wf(*old(bus)),
            !old(self).cpsr.thumb,
        ensures
            cpu_wf(*final(self)),
            bus_wf(*final(bus)),
            1 <= cycles <= 10,
            final(bus).ppu.vcount == old(bus).ppu.vcount,
            final(bus).ppu.dot == old(bus).ppu.dot,
    {
        let pc = self.regs[15];
        let next_pc = pc.wrapping_add(4);
        let rn = reg_idx(op >> 16);
        let rd = reg_idx(op >> 12);
        let base = self.reg_op(rn);
        let offset: u32 = if op & 0x0040_0000 != 0 {
            ((op >> 4) & 0xf0) | (op & 0xf)
        } else {
            self.reg_op(reg_idx(op))
        };
        let up = op & 0x0080_0000 != 0;
        let pre = op & 0x0100_0000 != 0;
        let writeback = op & 0x0020_0000 != 0;
        let load = op & 0x0010_0000 != 0;
        let kind = (op >> 5) & 3;
        let offset_addr = if up {
            base.wrapping_add(offset)
        } else {
            base.wrapping_sub(offset)
        };
        let addr = if pre {
            offset_addr
        } else {
            base
        };
        let mut pc_written = false;
        if load {
            let v: u32 = if kind == 1 {
                bus.read16(addr) as u32
            } else if kind == 2 {
                let b = bus.read8(addr);
                if b >= 0x80 {
                    b as u32 | 0xffff_ff00
                } else {
                    b as u32
                }
            } else {
                let h = bus.read16(addr);
                if h >= 0x8000 {
                    h as u32 | 0xffff_0000
                } else {
                    h as u32
                }
            };
            if !pre || writeback {
                if rn != 15 {
                    self.set_reg(rn, offset_addr);
                }
            }
            self.set_reg(rd, v);
            pc_written = rd == 15;
        } else {
            let v = self.reg_op(rd);
            bus.write16(addr, (v & 0xffff) as u16);
            if !pre || writeback {
                if rn != 15 {
                    self.set_reg(rn, offset_addr);
                }
            }
        }
        if !pc_written {
            self.set_reg(15, next_pc);
            if load {
                3
            } else {
                2
            }
        } else {
            5
        }
    }

    /// LDM/STM: block transfer over an ascending register list, lowest
    /// register at the lowest address, with optional writeback and the
    /// user-bank and SPSR-restore forms reduced to their plain effect.
    fn exec_arm_block_transfer(&mut self, bus: &mut Bus, op: u32) -> (cycles: u32)
        requires
            cpu_wf(*old(self)),
            bus_wf(*old(bus)),
            !old(self).cpsr.thumb,
        ensures
            cpu_wf(*final(self)),
            bus_wf(*final(bus)),
            1 <= cycles <= 600,
            final(bus).ppu.vcount == old(bus).ppu.vcount,
            final(bus).ppu.dot == old(bus).ppu.dot,
    {
        let pc = self.regs[15];
        let next_pc = pc.wrapping_add(4);
        let rn = reg_idx(op >> 16);
        let base = self.reg_op(rn);
        let up = op & 0x0080_0000 != 0;
        let pre = op & 0x0100_0000 != 0;
        let writeback = op & 0x0020_0000 != 0;
        let load = op & 0x0010_0000 != 0;
        let list = op & 0xffff;
        let mut count: u32 = 0;
        let mut i: u32 = 0;
        while i < 16
            invariant
                i <= 16,
                count <= i,
            decreases 16 - i,
        {
            if (list >> i) & 1 == 1 {
                count = count + 1;
            }
            i = i + 1;
        }
        let n = if count == 0 {
            16
        } else {
            count
        };
        // The lowest address the block touches; ascending from there.
        let low = if up {
            if pre {
                base.wrapping_add(4)
            } else {
                base
            }
        } else {
            if pre {
                base.wrapping_sub(4u32.wrapping_mul(n))
            } else {
                base.wrapping_sub(4u32.wrapping_mul(n)).wrapping_add(4)
            }
        };
        let final_base = if up {
            base.wrapping_add(4u32.wrapping_mul(n))
        } else {
            base.wrapping_sub(4u32.wrapping_mul(n))
        };
        let mut addr = low;
        let mut pc_written = false;
        let mut r: u32 = 0;
        while r < 16
            invariant
                cpu_wf(*self),
                bus_wf(*bus),
                r <= 16,
                bus.ppu.vcount == old(bus).ppu.vcount,
                bus.ppu.dot == old(bus).ppu.dot,
            decreases 16 - r,
        {
            if (list >> r) & 1 == 1 || list == 0 && r == 15 {
                let ri = (r & 0xf) as usize;
                proof {
                    crate::bits::lemma_mask_low(r);
                }
                if load {
                    let v = bus.read32(addr);
                    self.set_reg(ri, v);
                    if ri == 15 {
                        pc_written = true;
                    }
                } else {
                    let v = self.reg_op(ri);
                    let v = if ri == 15 {
                        v.wrapping_add(4)
                    } else {
                        v
                    };
                    bus.write32(addr, v);
                }
                addr = addr.wrapping_add(4);
            }
            r = r + 1;
        }
        if writeback && rn != 15 {
            // A loaded base keeps the loaded value.
            if !(load && (list >> (rn as u32)) & 1 == 1) {
                self.set_reg(rn, final_base);
            }
        }
        if load && pc_written {
            if op & 0x0040_0000 != 0 {
                self.restore_spsr();
            }
            2 + 2 * n + 2
        } else {
            self.set_reg(15, next_pc);
            2 + 2 * n
        }
    }

    /// Applies an ALU result's flags to the status register.
    fn apply_flags(&mut self, out: AluOut)
        ensures
            *final(self) == (Cpu {
                cpsr: Cpsr {
                    n: out.n,
                    z: out.z,
                    c: out.c,
                    v: out.v,
                    ..old(self).cpsr
                },
                ..*old(self)
            }),
    {
        self.cpsr.n = out.n;
        self.cpsr.z = out.z;
        self.cpsr.c = out.c;
        self.cpsr.v = out.v;
    }

    /// Executes one 16-bit instruction. The narrow encoding maps onto the
    /// same ALU, shifter and bus operations as the wide one.
    #[verifier::rlimit(100)]
    #[verifier::spinoff_prover]
    pub fn exec_thumb(&mut self, bus: &mut Bus, op16: u16) -> (cycles: u32)
        requires
            cpu_wf(*old(self)),
            bus_wf(*old(bus)),
            old(self).cpsr.thumb,
        ensures
            cpu_wf(*final(self)),
            bus_wf(*final(bus)),
            1 <= cycles <= 600,
            final(bus).ppu.vcount == old(bus).ppu.vcount,
            final(bus).ppu.dot == old(bus).ppu.dot,
            (op16 as u32) >> 11 <= 7 ==> spec_thumb_alu_effect(*old(self), *final(self), op16)
                && *final(bus) == *old(bus) && cycles == 1,
    {
        let op: u32 = op16 as u32;
        proof {
            crate::bits::lemma_mask_low(op16 as u32);
            crate::bits::lemma_mask_low(op16 as u32 >> 6);
        }
        let pc = self.regs[15];
        let next_pc = pc.wrapping_add(2);
        let top = op >> 11;
        if top <= 2 {
            // Shift by immediate.
            let rd = reg_idx3(op);
            let rs = reg_idx3(op >> 3);
            let imm = (op >> 6) & 0x1f;
            let x = self.reg_op(rs);
            let sh = if top == 0 {
                lsl(x, imm, self.cpsr.c)
            } else if top == 1 {
                lsr(x, if imm == 0 {
                    32
                } else {
                    imm
                }, self.cpsr.c)
            } else {
                asr(x, if imm == 0 {
                    32
                } else {
                    imm
                }, self.cpsr.c)
            };
            let out = alu_logic(sh.val, sh.carry, self.cpsr.v);
            self.apply_flags(out);
            self.set_reg(rd, sh.val);
            self.set_reg(15, next_pc);
            1
        } else if top == 3 {
            // Add or subtract a register or three-bit immediate.
            let rd = reg_idx3(op);
            let rs = reg_idx3(op >> 3);
            let a = self.reg_op(rs);
            let b = if op & 0x400 != 0 {
                (op >> 6) & 7
            } else {
                self.reg_op(reg_idx3(op >> 6))
            };
            let out = if op & 0x200 != 0 {
                alu_sub(a, b, false)
            } else {
                alu_add(a, b, false)
            };
            self.apply_flags(out);
            self.set_reg(rd, out.val);
            self.set_reg(15, next_pc);
            1
        } else if top <= 7 {
            // Move/compare/add/subtract an eight-bit immediate.
            let rd = reg_idx3(op >> 8);
            let imm = op & 0xff;
            let opc = top & 3;
            if opc == 0 {
                let out = alu_logic(imm, self.cpsr.c, self.cpsr.v);
                self.apply_flags(out);
                self.set_reg(rd, imm);
            } else if opc == 1 {
                let out = alu_sub(self.reg_op(rd), imm, false);
                self.apply_flags(out);
            } else if opc == 2 {
                let out = alu_add(self.reg_op(rd), imm, false);
                self.apply_flags(out);
                self.set_reg(rd, out.val);
            } else {
                let out = alu_sub(self.reg_op(rd), imm, false);
                self.apply_flags(out);
                self.set_reg(rd, out.val);
            }
            self.set_reg(15, next_pc);
            1
        } else if op >> 10 == 0x10 {
            // Register-to-register ALU group.
            let rd = reg_idx3(op);
            let rs = reg_idx3(op >> 3);
            let opc = (op >> 6) & 0xf;
            let a = self.reg_op(rd);
            let b = self.reg_op(rs);
            if opc == 0 {
                let out = alu_logic(a & b, self.cpsr.c, self.cpsr.v);
                self.apply_flags(out);
                self.set_reg(rd, out.val);
            } else if opc == 1 {
                let out = alu_logic(a ^ b, self.cpsr.c, self.cpsr.v);
                self.apply_flags(out);
                self.set_reg(rd, out.val);
            } else if opc == 2 {
                let sh = lsl(a, b & 0xff, self.cpsr.c);
                let out = alu_logic(sh.val, sh.carry, self.cpsr.v);
                self.apply_flags(out);
                self.set_reg(rd, sh.val);
            } else if opc == 3 {
                let sh = lsr(a, b & 0xff, self.cpsr.c);
                let out = alu_logic(sh.val, sh.carry, self.cpsr.v);
                self.apply_flags(out);
                self.set_reg(rd, sh.val);
            } else if opc == 4 {
                let sh = asr(a, b & 0xff, self.cpsr.c);
                let out = alu_logic(sh.val, sh.carry, self.cpsr.v);
                self.apply_flags(out);
                self.set_reg(rd, sh.val);
            } else if opc == 5 {
                let out = alu_add(a, b, self.cpsr.c);
                self.apply_flags(out);
                self.set_reg(rd, out.val);
            } else if opc == 6 {
                let out = alu_sub(a, b, !self.cpsr.c);
                self.apply_flags(out);
                self.set_reg(rd, out.val);
            } else if opc == 7 {
                let sh = ror_shift(a, b & 0xff, self.cpsr.c);
                let out = alu_logic(sh.val, sh.carry, self.cpsr.v);
                self.apply_flags(out);
                self.set_reg(rd, sh.val);
            } else if opc == 8 {
                let out = alu_logic(a & b, self.cpsr.c, self.cpsr.v);
                self.apply_flags(out);
            } else if opc == 9 {
                let out = alu_sub(0, b, false);
                self.apply_flags(out);
                self.set_reg(rd, out.val);
            } else if opc == 10 {
                let out = alu_sub(a, b, false);
                self.apply_flags(out);
            } else if opc == 11 {
                let out = alu_add(a, b, false);
                self.apply_flags(out);
            } else if opc == 12 {
                let out = alu_logic(a | b, self.cpsr.c, self.cpsr.v);
                self.apply_flags(out);
                self.set_reg(rd, out.val);
            } else if opc == 13 {
                let r = alu_mul(a, b, 0);
                self.cpsr.n = r >= 0x8000_0000;
                self.cpsr.z = r == 0;
                self.set_reg(rd, r);
            } else if opc == 14 {
                let out = alu_logic(a & !b, self.cpsr.c, self.cpsr.v);
                self.apply_flags(out);
                self.set_reg(rd, out.val);
            } else {
                let out = alu_logic(!b, self.cpsr.c, self.cpsr.v);
                self.apply_flags(out);
                self.set_reg(rd, out.val);
            }
            self.set_reg(15, next_pc);
            1
        } else if op >> 10 == 0x11 {
            // High-register operations and BX.
            let rd = reg_idx((op & 7) | ((op >> 4) & 8));
            let rs = reg_idx((op >> 3) & 0xf);
            let opc = (op >> 8) & 3;
            if opc == 0 {
                let v = self.reg_op(rd).wrapping_add(self.reg_op(rs));
                self.set_reg(rd, v);
                if rd == 15 {
                    3
                } else {
                    self.set_reg(15, next_pc);
                    1
                }
            } else if opc == 1 {
                let out = alu_sub(self.reg_op(rd), self.reg_op(rs), false);
                self.apply_flags(out);
                self.set_reg(15, next_pc);
                1
            } else if opc == 2 {
                let v = self.reg_op(rs);
                self.set_reg(rd, v);
                if rd == 15 {
                    3
                } else {
                    self.set_reg(15, next_pc);
                    1
                }
            } else {
                let target = self.reg_op(rs);
                let new_thumb = target & 1 == 1;
                if new_thumb {
                    proof {
                        crate::bits::lemma_align(target);
                    }
                    self.regs.set(15, target & 0xffff_fffe);
                } else {
                    proof {
                        crate::bits::lemma_align(target);
                    }
                    self.regs.set(15, target & 0xffff_fffc);
                }
                self.cpsr.thumb = new_thumb;
                3
            }
        } else if top == 9 {
            // PC-relative load.
            let rd = reg_idx3(op >> 8);
            let base = pc.wrapping_add(4) & 0xffff_fffc;
            let addr = base.wrapping_add((op & 0xff) * 4);
            let v = bus.read32(addr);
            self.set_reg(rd, v);
            self.set_reg(15, next_pc);
            3
        } else if op >> 12 == 5 {
            // Load/store with a register offset.
            let rd = reg_idx3(op);
            let rb = reg_idx3(op >> 3);
            let ro = reg_idx3(op >> 6);
            let addr = self.reg_op(rb).wrapping_add(self.reg_op(ro));
            if op & 0x200 != 0 {
                let opc = (op >> 10) & 3;
                if opc == 0 {
                    let v = self.reg_op(rd);
                    bus.write16(addr, (v & 0xffff) as u16);
                    self.set_reg(15, next_pc);
                    2
                } else if opc == 1 {
                    let b = bus.read8(addr);
                    let v = if b >= 0x80 {
                        b as u32 | 0xffff_ff00
                    } else {
                        b as u32
                    };
                    self.set_reg(rd, v);
                    self.set_reg(15, next_pc);
                    3
                } else if opc == 2 {
                    let v = bus.read16(addr) as u32;
                    self.set_reg(rd, v);
                    self.set_reg(15, next_pc);
                    3
                } else {
                    let h = bus.read16(addr);
                    let v = if h >= 0x8000 {
                        h as u32 | 0xffff_0000
                    } else {
                        h as u32
                    };
                    self.set_reg(rd, v);
                    self.set_reg(15, next_pc);
                    3
                }
            } else {
                let opc = (op >> 10) & 3;
                if opc == 0 {
                    bus.write32(addr, self.reg_op(rd));
                } else if opc == 1 {
                    bus.write8(addr, (self.reg_op(rd) & 0xff) as u8);
                } else if opc == 2 {
                    let v = bus.read32(addr);
                    self.set_reg(rd, v);
                } else {
                    let v = bus.read8(addr) as u32;
                    self.set_reg(rd, v);
                }
                self.set_reg(15, next_pc);
                3
            }
        } else if op >> 13 == 3 {
            // Load/store with a five-bit immediate offset.
            let rd = reg_idx3(op);
            let rb = reg_idx3(op >> 3);
            let imm = (op >> 6) & 0x1f;
            let byte = op & 0x1000 != 0;
            let load = op & 0x800 != 0;
            let addr = if byte {
                self.reg_op(rb).wrapping_add(imm)
            } else {
                self.reg_op(rb).wrapping_add(imm * 4)
            };
            if load {
                let v = if byte {
                    bus.read8(addr) as u32
                } else {
                    bus.read32(addr)
                };
                self.set_reg(rd, v);
            } else {
                let v = self.reg_op(rd);
                if byte {
                    bus.write8(addr, (v & 0xff) as u8);
                } else {
                    bus.write32(addr, v);
                }
            }
            self.set_reg(15, next_pc);
            3
        } else if op >> 12 == 8 {
            // Half-word load/store with immediate offset.
            let rd = reg_idx3(op);
            let rb = reg_idx3(op >> 3);
            let imm = (op >> 6) & 0x1f;
            let addr = self.reg_op(rb).wrapping_add(imm * 2);
            if op & 0x800 != 0 {
                let v = bus.read16(addr) as u32;
                self.set_reg(rd, v);
            } else {
                let v = self.reg_op(rd);
                bus.write16(addr, (v & 0xffff) as u16);
            }
            self.set_reg(15, next_pc);
            3
        } else if op >> 12 == 9 {
            // Stack-relative load/store.
            let rd = reg_idx3(op >> 8);
            let addr = self.reg_op(13).wrapping_add((op & 0xff) * 4);
            if op & 0x800 != 0 {
                let v = bus.read32(addr);
                self.set_reg(rd, v);
            } else {
                bus.write32(addr, self.reg_op(rd));
            }
            self.set_reg(15, next_pc);
            3
        } else if op >> 12 == 0xa {
            // Address of a PC- or SP-relative location.
            let rd = reg_idx3(op >> 8);
            let base = if op & 0x800 != 0 {
                self.reg_op(13)
            } else {
                pc.wrapping_add(4) & 0xffff_fffc
            };
            self.set_reg(rd, base.wrapping_add((op & 0xff) * 4));
            self.set_reg(15, next_pc);
            1
        } else if op >> 8 == 0xb0 {
            // Adjust the stack pointer by a seven-bit immediate.
            let imm = (op & 0x7f) * 4;
            let sp = self.reg_op(13);
            let v = if op & 0x80 != 0 {
                sp.wrapping_sub(imm)
            } else {
                sp.wrapping_add(imm)
            };
            self.set_reg(13, v);
            self.set_reg(15, next_pc);
            1
        } else if op & 0xf600 == 0xb400 {
            // Push/pop a register list, with LR or PC.
            let load = op & 0x800 != 0;
            let extra = op & 0x100 != 0;
            let list = op & 0xff;
            let mut count: u32 = 0;
            let mut i: u32 = 0;
            while i < 8
                invariant
                    i <= 8,
                    count <= i,
                decreases 8 - i,
            {
                if (list >> i) & 1 == 1 {
                    count = count + 1;
                }
                i = i + 1;
            }
            let total = if extra {
                count + 1
            } else {
                count
            };
            let sp = self.reg_op(13);
            let mut addr = if load {
                sp
            } else {
                sp.wrapping_sub(4u32.wrapping_mul(total))
            };
            let new_sp = if load {
                sp.wrapping_add(4u32.wrapping_mul(total))
            } else {
                sp.wrapping_sub(4u32.wrapping_mul(total))
            };
            let mut r: u32 = 0;
            let mut pc_written = false;
            while r < 8
                invariant
                    cpu_wf(*self),
                    bus_wf(*bus),
                    r <= 8,
                    bus.ppu.vcount == old(bus).ppu.vcount,
                    bus.ppu.dot == old(bus).ppu.dot,
                decreases 8 - r,
            {
                if (list >> r) & 1 == 1 {
                    let ri = (r & 7) as usize;
                    proof {
                        crate::bits::lemma_mask_low(r);
                    }
                    if load {
                        let v = bus.read32(addr);
                        self.set_reg(ri, v);
                    } else {
                        bus.write32(addr, self.reg_op(ri));
                    }
                    addr = addr.wrapping_add(4);
                }
                r = r + 1;
            }
            if extra {
                if load {
                    let v = bus.read32(addr);
                    self.set_reg(15, v);
                    pc_written = true;
                } else {
                    bus.write32(addr, self.reg_op(14));
                }
            }
            self.set_reg(13, new_sp);
            if !pc_written {
                self.set_reg(15, next_pc);
            }
            2 + 2 * total
        } else if op >> 12 == 0xc {
            // Multiple load/store, ascending from the base, writeback.
            let rb = reg_idx3(op >> 8);
            let load = op & 0x800 != 0;
            let list = op & 0xff;
            let mut count: u32 = 0;
            let mut i: u32 = 0;
            while i < 8
                invariant
                    i <= 8,
                    count <= i,
                decreases 8 - i,
            {
                if (list >> i) & 1 == 1 {
                    count = count + 1;
                }
                i = i + 1;
            }
            let base = self.reg_op(rb);
            let mut addr = base;
            let mut r: u32 = 0;
            while r < 8
                invariant
                    cpu_wf(*self),
                    bus_wf(*bus),
                    r <= 8,
                    bus.ppu.vcount == old(bus).ppu.vcount,
                    bus.ppu.dot == old(bus).ppu.dot,
                decreases 8 - r,
            {
                if (list >> r) & 1 == 1 {
                    let ri = (r & 7) as usize;
                    proof {
                        crate::bits::lemma_mask_low(r);
                    }
                    if load {
                        let v = bus.read32(addr);
                        self.set_reg(ri, v);
                    } else {
                        bus.write32(addr, self.reg_op(ri));
                    }
                    addr = addr.wrapping_add(4);
                }
                r = r + 1;
            }
            if !(load && (list >> (rb as u32)) & 1 == 1) {
                self.set_reg(rb, base.wrapping_add(4u32.wrapping_mul(count)));
            }
            self.set_reg(15, next_pc);
            2 + 2 * count
        } else if op >> 12 == 0xd {
            let cond = (op >> 8) & 0xf;
            if cond == 0xf {
                // SWI.
                self.raise_exception(Exception::SoftwareInterrupt, next_pc);
                3
            } else if cond == 0xe {
                self.raise_exception(Exception::Undefined, next_pc);
                3
            } else {
                // Conditional branch over a signed eight-bit offset.
                proof {
                    crate::bits::lemma_mask_low(op16 as u32 >> 8);
                }
                let taken = condition_passed(cond, &self.cpsr);
                if taken {
                    let imm = op & 0xff;
                    let offset: u32 = if imm >= 0x80 {
                        (imm | 0xffff_ff00) << 1
                    } else {
                        imm << 1
                    };
                    self.set_reg(15, pc.wrapping_add(4).wrapping_add(offset));
                    3
                } else {
                    self.set_reg(15, next_pc);
                    1
                }
            }
        } else if top == 0x1c {
            // Unconditional branch over a signed eleven-bit offset.
            let imm = op & 0x7ff;
            let offset: u32 = if imm >= 0x400 {
                (imm | 0xffff_f800) << 1
            } else {
                imm << 1
            };
            self.set_reg(15, pc.wrapping_add(4).wrapping_add(offset));
            3
        } else if top == 0x1e {
            // Long branch-and-link, first half: latch the high offset.
            let imm = op & 0x7ff;
            let offset: u32 = if imm >= 0x400 {
                (imm | 0xffff_f800) << 12
            } else {
                imm << 12
            };
            self.set_reg(14, pc.wrapping_add(4).wrapping_add(offset));
            self.set_reg(15, next_pc);
            1
        } else if top == 0x1f {
            // Long branch-and-link, second half: jump and leave the
            // return address with its width bit.
            let target = self.reg_op(14).wrapping_add((op & 0x7ff) << 1);
            self.set_reg(14, next_pc | 1);
            self.set_reg(15, target);
            3
        } else {
            self.raise_exception(Exception::Undefined, next_pc);
            3
        }
    }

    /// Services a pending interrupt request: enters the IRQ vector with
    /// the return address the handler expects, if IRQs are enabled.
    pub fn service_irq(&mut self)
        requires
            cpu_wf(*old(self)),
            !old(self).cpsr.irq_disable,
        ensures
            cpu_wf(*final(self)),
            final(self).cpsr.mode == Mode::Irq,
            final(self).cpsr.irq_disable,
            final(self).cpsr.thumb == false,
            final(self).regs@[15] == 0x18,
            final(self).regs@[14] == crate::dma::spec_step_once(
                old(self).regs@[15],
                crate::dma::DmaStep::Increment,
                4,
            ),
            forall|i: int| 0 <= i < 13 ==> final(self).regs@[i] == old(self).regs@[i],
    {
        let pc = self.regs[15];
        let ret = pc.wrapping_add(4);
        self.raise_exception(Exception::Irq, ret);
    }

    /// One instruction: evaluate the interrupt line, fetch at the program
    /// counter in the active width, gate on the condition field, execute,
    /// and return the cycle cost. A taken interrupt enters the IRQ vector
    /// with the handler's return address; a failed condition advances the
    /// program counter and costs one cycle, nothing more; a passing
    /// data-processing instruction (either width's arithmetic/logic
    /// formats) leaves the registers and flags the ALU truth tables give.
    #[verifier::rlimit(100)]
    #[verifier::spinoff_prover]
    pub fn step(&mut self, bus: &mut Bus) -> (cycles: u32)
        requires
            cpu_wf(*old(self)),
            bus_wf(*old(bus)),
        ensures
            cpu_wf(*final(self)),
            bus_wf(*final(bus)),
            1 <= cycles <= 600,
            final(bus).ppu.vcount == old(bus).ppu.vcount,
            final(bus).ppu.dot == old(bus).ppu.dot,
            spec_irq_taken(*old(self), *old(bus)) ==> ({
                &&& *final(bus) == (Bus { halted: false, ..*old(bus) })
                &&& final(self).cpsr.mode == Mode::Irq
                &&& final(self).cpsr.irq_disable
                &&& final(self).cpsr.thumb == false
                &&& final(self).regs@[15] == 0x18
                &&& final(self).regs@[14] == crate::dma::spec_step_once(
                    old(self).regs@[15],
                    crate::dma::DmaStep::Increment,
                    4,
                )
                &&& forall|i: int| 0 <= i < 13 ==> final(self).regs@[i] == old(self).regs@[i]
                &&& cycles == 3
            }),
            !spec_irq_taken(*old(self), *old(bus)) && !old(self).cpsr.thumb && !((old(
                self,
            ).regs@[15] >> 24) == 0xd && old(bus).pack.backup.kind
                == crate::backup::BackupKind::Eeprom) ==> ({
                let pc = old(self).regs@[15];
                let op = spec_fetch32(*old(bus), pc);
                &&& (!crate::alu::spec_condition_holds(op >> 28, old(self).cpsr) ==> *final(self)
                    == (Cpu { regs: final(self).regs, ..*old(self) }) && final(self).regs@ == old(
                    self,
                ).regs@.update(15, spec_next_arm_pc(*old(self))) && cycles == 1 && *final(bus)
                    == (Bus { open_bus: op, last_fetch: pc, ..*old(bus) }))
                &&& (crate::alu::spec_condition_holds(op >> 28, old(self).cpsr) && spec_is_dp(op)
                    ==> spec_dp_effect(*old(self), *final(self), op) && *final(bus) == (Bus {
                    open_bus: op,
                    last_fetch: pc,
                    ..*old(bus)
                }))
                &&& (crate::alu::spec_condition_holds(op >> 28, old(self).cpsr)
                    && spec_is_branch(op) ==> spec_branch_effect(*old(self), *final(self), op)
                    && cycles == 3 && *final(bus) == (Bus {
                    open_bus: op,
                    last_fetch: pc,
                    ..*old(bus)
                }))
            }),
            !spec_irq_taken(*old(self), *old(bus)) && old(self).cpsr.thumb && !((old(
                self,
            ).regs@[15] >> 24) == 0xd && old(bus).pack.backup.kind
                == crate::backup::BackupKind::Eeprom) ==> ({
                let pc = old(self).regs@[15];
                let op16 = spec_fetch16(*old(bus), pc);
                (op16 as u32) >> 11 <= 7 ==> spec_thumb_alu_effect(*old(self), *final(self), op16)
                    && cycles == 1 && *final(bus) == (Bus {
                    open_bus: (op16 as u32) | ((op16 as u32) << 16),
                    last_fetch: pc,
                    ..*old(bus)
                })
            }),
    {
        if bus.irq.irq_asserted() && !self.cpsr.irq_disable {
            bus.halted = false;
            self.service_irq();
            return 3;
        }
        let pc = self.regs[15];
        bus.last_fetch = pc;
        if self.cpsr.thumb {
            proof {
                assert(pc % 2 == 0 ==> pc & 0xffff_fffe == pc && pc + 1 <= 0xffff_ffff)
                    by (bit_vector);
            }
            let op = bus.read16(pc);
            bus.open_bus = (op as u32) | ((op as u32) << 16);
            self.exec_thumb(bus, op)
        } else {
            proof {
                assert(pc % 4 == 0 ==> pc & 0xffff_fffc == pc && pc % 4 * 8 == 0)
                    by (bit_vector);
            }
            let op = bus.read32(pc);
            bus.open_bus = op;
            let cond = op >> 28;
            proof {
                assert(op >> 28 < 16) by (bit_vector);
            }
            if condition_passed(cond, &self.cpsr) {
                self.exec_arm(bus, op)
            } else {
                self.set_reg(15, pc.wrapping_add(4));
                1
            }
        }
    }
}

} // verus!
