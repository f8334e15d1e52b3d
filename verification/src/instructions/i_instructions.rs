//! Immediate-format instructions: the opcode selects the operation, and a
//! 16-bit immediate rides along, sign-extended where the operation is
//! arithmetic and zero-extended where it is bitwise.

use vstd::prelude::*;

use crate::bits::{
    as_signed, lemma_as_signed_cast, sign_extend16, sign_extend_half, wadd, zero_extend16,
};
use crate::cpu::{byte_at, half_at, slot, AbsState, CPU};
use crate::effects::{exec_matches, CpuError, Effect, EffectSpec};
use crate::instructions::{delay_slot_spec, lemma_delay_need_input};

verus! {

/// The operation an immediate-format opcode resolves to.
#[derive(Debug, Clone, Copy, PartialEq, Eq, Structural)]
pub enum IFunction {
    Addi,
    Addiu,
    Andi,
    Ori,
    Beq,
    Bne,
    Bgez,
    Blez,
    Lb,
    Lh,
    Lhu,
    Lui,
    Lw,
    Slti,
    Sw,
    Unknown,
}

impl IFunction {
    /// The fixed opcode table.
    pub open spec fn spec_new(opcode: u8) -> IFunction {
        match opcode {
            0x08 => IFunction::Addi,
            0x09 => IFunction::Addiu,
            0x0C => IFunction::Andi,
            0x0D => IFunction::Ori,
            0x04 => IFunction::Beq,
            0x05 => IFunction::Bne,
            0x01 => IFunction::Bgez,
            0x06 => IFunction::Blez,
            0x20 => IFunction::Lb,
            0x21 => IFunction::Lh,
            0x25 => IFunction::Lhu,
            0x0F => IFunction::Lui,
            0x23 => IFunction::Lw,
            0x0A => IFunction::Slti,
            0x2B => IFunction::Sw,
            _ => IFunction::Unknown,
        }
    }

    /// Resolve an opcode against the fixed table.
    pub fn new(opcode: u8) -> (r: IFunction)
        ensures
            r == IFunction::spec_new(opcode),
    {
        match opcode {
            0x08 => IFunction::Addi,
            0x09 => IFunction::Addiu,
            0x0C => IFunction::Andi,
            0x0D => IFunction::Ori,
            0x04 => IFunction::Beq,
            0x05 => IFunction::Bne,
            0x01 => IFunction::Bgez,
            0x06 => IFunction::Blez,
            0x20 => IFunction::Lb,
            0x21 => IFunction::Lh,
            0x25 => IFunction::Lhu,
            0x0F => IFunction::Lui,
            0x23 => IFunction::Lw,
            0x0A => IFunction::Slti,
            0x2B => IFunction::Sw,
            _ => IFunction::Unknown,
        }
    }

    /// Branches move the program counter; the two equality branches also
    /// run the delay slot.
    pub open spec fn is_control_flow(self) -> bool {
        self is Beq || self is Bne || self is Bgez || self is Blez
    }

    /// Whether this operation is a branch.
    pub fn is_control_flow_exec(&self) -> (b: bool)
        ensures
            b == self.is_control_flow(),
    {
        matches!(self, IFunction::Beq | IFunction::Bne | IFunction::Bgez | IFunction::Blez)
    }
}

/// An immediate-format instruction: two register fields and a 16-bit
/// immediate value.
#[derive(Debug, Clone, Copy, PartialEq, Eq, Structural)]
pub struct ITypeInstruction {
    pub opcode: u8,
    pub rs: u8,
    pub rt: u8,
    pub imm: i16,
    pub op: IFunction,
}

impl ITypeInstruction {
    /// The fields a word decodes to.
    pub open spec fn spec_decode(word: u32) -> ITypeInstruction {
        ITypeInstruction {
            opcode: (word >> 26) as u8,
            rs: ((word >> 21) & 0x1F) as u8,
            rt: ((word >> 16) & 0x1F) as u8,
            imm: (word & 0xFFFF) as i16,
            op: IFunction::spec_new((word >> 26) as u8),
        }
    }

    /// Register fields name one of the 32 registers.
    pub open spec fn wf(self) -> bool {
        self.rs < 32 && self.rt < 32
    }

    /// Decode an immediate-format word.
    pub fn new(instruction: u32) -> (r: ITypeInstruction)
        ensures
            r == ITypeInstruction::spec_decode(instruction),
            r.wf(),
    {
        proof {
            let w = instruction;
            assert(((w >> 21) & 0x1F) < 32 && ((w >> 16) & 0x1F) < 32) by (bit_vector);
        }
        ITypeInstruction {
            opcode: (instruction >> 26) as u8,
            rs: ((instruction >> 21) & 0x1F) as u8,
            rt: ((instruction >> 16) & 0x1F) as u8,
            imm: #[verifier::truncate] ((instruction & 0xFFFF) as i16),
            op: IFunction::new((instruction >> 26) as u8),
        }
    }

    /// Assemble an immediate-format instruction from its fields.
    pub fn build(opcode: u8, rs: u8, rt: u8, imm: i16) -> (r: ITypeInstruction)
        ensures
            r == (ITypeInstruction { opcode, rs, rt, imm, op: IFunction::spec_new(opcode) }),
            rs < 32 && rt < 32 ==> r.wf(),
    {
        ITypeInstruction { opcode, rs, rt, imm, op: IFunction::new(opcode) }
    }

    /// What this instruction does when it stands in a delay slot, where
    /// branches are refused.  The immediate is sign-extended for the
    /// arithmetic operations, the signed compare and the address
    /// computations of the loads and the store, and zero-extended for the
    /// bitwise operations.  Byte and halfword loads take the bytes at the
    /// address's offset within its cell, least significant first.  A load
    /// or store whose address falls outside the backing store is fatal.
    pub open spec fn spec_step_plain(self, s: AbsState) -> Result<
        (AbsState, EffectSpec),
        CpuError,
    > {
        let rs_v = s.reg(self.rs as int);
        let rt_v = s.reg(self.rt as int);
        let rt = self.rt as int;
        let ext = sign_extend16(self.imm);
        let address = wadd(rs_v, ext);
        match self.op {
            IFunction::Addi => Ok((s.with_reg(rt, wadd(rs_v, ext)), EffectSpec::Nothing)),
            IFunction::Addiu => Ok((s.with_reg(rt, wadd(rs_v, ext)), EffectSpec::Nothing)),
            IFunction::Andi => Ok((
                s.with_reg(rt, rs_v & zero_extend16(self.imm)),
                EffectSpec::Nothing,
            )),
            IFunction::Ori => Ok((
                s.with_reg(rt, rs_v | zero_extend16(self.imm)),
                EffectSpec::Nothing,
            )),
            IFunction::Slti => Ok((
                s.with_reg(rt, if as_signed(rs_v) < self.imm {
                    1u32
                } else {
                    0u32
                }),
                EffectSpec::Nothing,
            )),
            IFunction::Lui => Ok((s.with_reg(rt, ext << 16u32), EffectSpec::Nothing)),
            IFunction::Lb => if slot(address) < s.mem.len() {
                Ok((s.with_reg(rt, byte_at(s.mem, address as int) as u32), EffectSpec::Nothing))
            } else {
                Err(CpuError::OutOfBounds(address))
            },
            IFunction::Lh => if slot(address) < s.mem.len() {
                if slot(wadd(address, 1)) < s.mem.len() {
                    Ok((
                        s.with_reg(rt, sign_extend_half(half_at(s.mem, address as int))),
                        EffectSpec::Nothing,
                    ))
                } else {
                    Err(CpuError::OutOfBounds(wadd(address, 1)))
                }
            } else {
                Err(CpuError::OutOfBounds(address))
            },
            IFunction::Lhu => if slot(address) < s.mem.len() {
                if slot(wadd(address, 1)) < s.mem.len() {
                    Ok((s.with_reg(rt, half_at(s.mem, address as int)), EffectSpec::Nothing))
                } else {
                    Err(CpuError::OutOfBounds(wadd(address, 1)))
                }
            } else {
                Err(CpuError::OutOfBounds(address))
            },
            IFunction::Lw => if slot(address) < s.mem.len() {
                Ok((s.with_reg(rt, s.mem[slot(address)]), EffectSpec::Nothing))
            } else {
                Err(CpuError::OutOfBounds(address))
            },
            IFunction::Sw => if slot(address) < s.mem.len() {
                Ok((s.with_mem(slot(address), rt_v), EffectSpec::Nothing))
            } else {
                Err(CpuError::OutOfBounds(address))
            },
            IFunction::Beq | IFunction::Bne | IFunction::Bgez | IFunction::Blez => Err(
                CpuError::DelaySlotControl,
            ),
            IFunction::Unknown => Err(CpuError::Illegal(self.opcode)),
        }
    }

    /// What this instruction does.  A taken equality branch first runs
    /// the delay slot, then adds the sign-extended immediate, shifted
    /// left by two, to the branch's own address.  The compare-to-zero
    /// branches move the program counter the same way but run no delay
    /// slot.
    pub open spec fn spec_step(self, s: AbsState, input: Option<u32>) -> Result<
        (AbsState, EffectSpec),
        CpuError,
    > {
        let rs_v = s.reg(self.rs as int);
        let rt_v = s.reg(self.rt as int);
        let target = wadd(s.pc, sign_extend16(self.imm) << 2u32);
        match self.op {
            IFunction::Beq => if rs_v == rt_v {
                self.spec_branch_taken(s, input)
            } else {
                Ok((s, EffectSpec::Nothing))
            },
            IFunction::Bne => if rs_v != rt_v {
                self.spec_branch_taken(s, input)
            } else {
                Ok((s, EffectSpec::Nothing))
            },
            IFunction::Bgez => if as_signed(rs_v) >= 0 {
                Ok((s.with_pc(target), EffectSpec::Nothing))
            } else {
                Ok((s, EffectSpec::Nothing))
            },
            IFunction::Blez => if as_signed(rs_v) <= 0 {
                Ok((s.with_pc(target), EffectSpec::Nothing))
            } else {
                Ok((s, EffectSpec::Nothing))
            },
            _ => self.spec_step_plain(s),
        }
    }

    /// A taken equality branch: the delay slot runs, then the program
    /// counter moves by the immediate, in words, relative to the branch.
    pub open spec fn spec_branch_taken(self, s: AbsState, input: Option<u32>) -> Result<
        (AbsState, EffectSpec),
        CpuError,
    > {
        let target = wadd(s.pc, sign_extend16(self.imm) << 2u32);
        match delay_slot_spec(s, input) {
            Ok((s1, e)) => if e is NeedInput {
                Ok((s, EffectSpec::NeedInput))
            } else {
                Ok((s1.with_pc(target), e))
            },
            Err(er) => Err(er),
        }
    }

    /// Execute this instruction as a delay-slot instruction: branches are
    /// refused.
    pub fn execute_plain(&self, cpu: &mut CPU) -> (r: Result<Effect, CpuError>)
        requires
            old(cpu).wf(),
            self.wf(),
        ensures
            final(cpu).wf(),
            exec_matches(self.spec_step_plain(old(cpu)@), old(cpu)@, final(cpu)@, r),
    {
        match self.op {
            IFunction::Addi | IFunction::Addiu => {
                let a = cpu.read_register(self.rs as usize);
                let imm = #[verifier::truncate] (self.imm as u32);
                cpu.write_register(self.rt as usize, a.wrapping_add(imm));
                Ok(Effect::Nothing)
            },
            IFunction::Andi => {
                let a = cpu.read_register(self.rs as usize);
                let imm = #[verifier::truncate] (self.imm as u32);
                cpu.write_register(self.rt as usize, a & (imm & 0xFFFF));
                Ok(Effect::Nothing)
            },
            IFunction::Ori => {
                let a = cpu.read_register(self.rs as usize);
                let imm = #[verifier::truncate] (self.imm as u32);
                cpu.write_register(self.rt as usize, a | (imm & 0xFFFF));
                Ok(Effect::Nothing)
            },
            IFunction::Slti => {
                let a = cpu.read_register(self.rs as usize);
                proof {
                    lemma_as_signed_cast(a);
                }
                let v: u32 = if (#[verifier::truncate] (a as i32)) < (self.imm as i32) {
                    1
                } else {
                    0
                };
                cpu.write_register(self.rt as usize, v);
                Ok(Effect::Nothing)
            },
            IFunction::Lui => {
                let imm = #[verifier::truncate] (self.imm as u32);
                cpu.write_register(self.rt as usize, imm << 16u32);
                Ok(Effect::Nothing)
            },
            IFunction::Lb => {
                let a = cpu.read_register(self.rs as usize);
                let imm = #[verifier::truncate] (self.imm as u32);
                let address = a.wrapping_add(imm);
                let n = cpu.memory.word_count();
                if ((address / 4) as usize) < n {
                    let value = cpu.memory.read_byte(address);
                    cpu.write_register(self.rt as usize, value);
                    Ok(Effect::Nothing)
                } else {
                    Err(CpuError::OutOfBounds(address))
                }
            },
            IFunction::Lh => {
                let a = cpu.read_register(self.rs as usize);
                let imm = #[verifier::truncate] (self.imm as u32);
                let address = a.wrapping_add(imm);
                let n = cpu.memory.word_count();
                if ((address / 4) as usize) < n {
                    let address2 = address.wrapping_add(1);
                    if ((address2 / 4) as usize) < n {
                        let lo = cpu.memory.read_byte(address);
                        let hi = cpu.memory.read_byte(address2);
                        let h = lo | (hi << 8u32);
                        let value = if h >= 0x8000 {
                            h | 0xFFFF_0000
                        } else {
                            h
                        };
                        cpu.write_register(self.rt as usize, value);
                        Ok(Effect::Nothing)
                    } else {
                        Err(CpuError::OutOfBounds(address2))
                    }
                } else {
                    Err(CpuError::OutOfBounds(address))
                }
            },
            IFunction::Lhu => {
                let a = cpu.read_register(self.rs as usize);
                let imm = #[verifier::truncate] (self.imm as u32);
                let address = a.wrapping_add(imm);
                let n = cpu.memory.word_count();
                if ((address / 4) as usize) < n {
                    let address2 = address.wrapping_add(1);
                    if ((address2 / 4) as usize) < n {
                        let lo = cpu.memory.read_byte(address);
                        let hi = cpu.memory.read_byte(address2);
                        let value = lo | (hi << 8u32);
                        cpu.write_register(self.rt as usize, value);
                        Ok(Effect::Nothing)
                    } else {
                        Err(CpuError::OutOfBounds(address2))
                    }
                } else {
                    Err(CpuError::OutOfBounds(address))
                }
            },
            IFunction::Lw => {
                let a = cpu.read_register(self.rs as usize);
                let imm = #[verifier::truncate] (self.imm as u32);
                let address = a.wrapping_add(imm);
                let n = cpu.memory.word_count();
                if ((address / 4) as usize) < n {
                    let value = cpu.memory.read(address);
                    cpu.write_register(self.rt as usize, value);
                    Ok(Effect::Nothing)
                } else {
                    Err(CpuError::OutOfBounds(address))
                }
            },
            IFunction::Sw => {
                let a = cpu.read_register(self.rs as usize);
                let imm = #[verifier::truncate] (self.imm as u32);
                let address = a.wrapping_add(imm);
                let n = cpu.memory.word_count();
                if ((address / 4) as usize) < n {
                    let value = cpu.read_register(self.rt as usize);
                    cpu.memory.write(address, value);
                    proof {
                        assert(cpu@ =~= old(cpu)@.with_mem(slot(address), value));
                    }
                    Ok(Effect::Nothing)
                } else {
                    Err(CpuError::OutOfBounds(address))
                }
            },
            IFunction::Beq | IFunction::Bne | IFunction::Bgez | IFunction::Blez => Err(
                CpuError::DelaySlotControl,
            ),
            IFunction::Unknown => Err(CpuError::Illegal(self.opcode)),
        }
    }

    /// Execute this instruction, with an already-read console integer at
    /// hand for the input system call.
    pub fn execute_with_input(&self, cpu: &mut CPU, input: Option<u32>) -> (r: Result<
        Effect,
        CpuError,
    >)
        requires
            old(cpu).wf(),
            self.wf(),
        ensures
            final(cpu).wf(),
            exec_matches(self.spec_step(old(cpu)@, input), old(cpu)@, final(cpu)@, r),
    {
        match self.op {
            IFunction::Beq => {
                let a = cpu.read_register(self.rs as usize);
                let b = cpu.read_register(self.rt as usize);
                if a == b {
                    self.branch_taken(cpu, input)
                } else {
                    Ok(Effect::Nothing)
                }
            },
            IFunction::Bne => {
                let a = cpu.read_register(self.rs as usize);
                let b = cpu.read_register(self.rt as usize);
                if a != b {
                    self.branch_taken(cpu, input)
                } else {
                    Ok(Effect::Nothing)
                }
            },
            IFunction::Bgez => {
                let a = cpu.read_register(self.rs as usize);
                proof {
                    lemma_as_signed_cast(a);
                }
                if (a as i32) >= 0 {
                    let imm = #[verifier::truncate] (self.imm as u32);
                    let ghost s = cpu@;
                    cpu.pc = cpu.pc.wrapping_add(imm << 2u32);
                    proof {
                        assert(cpu@ =~= s.with_pc(cpu.pc));
                    }
                }
                Ok(Effect::Nothing)
            },
            IFunction::Blez => {
                let a = cpu.read_register(self.rs as usize);
                proof {
                    lemma_as_signed_cast(a);
                }
                if (a as i32) <= 0 {
                    let imm = #[verifier::truncate] (self.imm as u32);
                    let ghost s = cpu@;
                    cpu.pc = cpu.pc.wrapping_add(imm << 2u32);
                    proof {
                        assert(cpu@ =~= s.with_pc(cpu.pc));
                    }
                }
                Ok(Effect::Nothing)
            },
            _ => self.execute_plain(cpu),
        }
    }

    /// Run the delay slot, then move the program counter by the branch
    /// offset.
    fn branch_taken(&self, cpu: &mut CPU, input: Option<u32>) -> (r: Result<Effect, CpuError>)
        requires
            old(cpu).wf(),
            self.wf(),
        ensures
            final(cpu).wf(),
            exec_matches(self.spec_branch_taken(old(cpu)@, input), old(cpu)@, final(cpu)@, r),
    {
        let branch_pc = cpu.pc;
        let eff = match cpu.run_branch_delayed(input) {
            Ok(e) => e,
            Err(er) => {
                return Err(er);
            },
        };
        match eff {
            Effect::NeedInput => {
                proof {
                    lemma_delay_need_input(old(cpu)@, input);
                }
                return Ok(Effect::NeedInput);
            },
            _ => {},
        }
        let ghost s1 = cpu@;
        let imm = #[verifier::truncate] (self.imm as u32);
        cpu.pc = branch_pc.wrapping_add(imm << 2u32);
        proof {
            assert(cpu@ =~= s1.with_pc(cpu.pc));
        }
        Ok(eff)
    }

    /// Execute this instruction.  If it asks for console input it reports
    /// [`Effect::NeedInput`] and changes nothing; run it again through
    /// [`ITypeInstruction::execute_with_input`].
    pub fn execute(&self, cpu: &mut CPU) -> (r: Result<Effect, CpuError>)
        requires
            old(cpu).wf(),
            self.wf(),
        ensures
            final(cpu).wf(),
            exec_matches(self.spec_step(old(cpu)@, None), old(cpu)@, final(cpu)@, r),
    {
        self.execute_with_input(cpu, None)
    }
}

} // verus!
