//! Jump-format instructions: opcodes 2 and 3, with a 26-bit address field
//! that, shifted left by two, becomes the jump target.

use vstd::prelude::*;

use crate::bits::wadd;
use crate::cpu::{AbsState, CPU};
use crate::effects::{exec_matches, CpuError, Effect, EffectSpec};
use crate::instructions::{delay_slot_spec, lemma_delay_need_input};

verus! {

/// The operation a jump-format opcode resolves to.
#[derive(Debug, Clone, Copy, PartialEq, Eq, Structural)]
pub enum JFunction {
    J,
    Jal,
    Unknown,
}

impl JFunction {
    /// The fixed opcode table.
    pub open spec fn spec_new(opcode: u8) -> JFunction {
        match opcode {
            0x02 => JFunction::J,
            0x03 => JFunction::Jal,
            _ => JFunction::Unknown,
        }
    }

    /// Resolve an opcode against the fixed table.
    pub fn new(opcode: u8) -> (r: JFunction)
        ensures
            r == JFunction::spec_new(opcode),
    {
        match opcode {
            0x02 => JFunction::J,
            0x03 => JFunction::Jal,
            _ => JFunction::Unknown,
        }
    }
}

/// A jump-format instruction: a 26-bit address field.
#[derive(Debug, Clone, Copy, PartialEq, Eq, Structural)]
pub struct JTypeInstruction {
    pub opcode: u8,
    pub address: u32,
    pub op: JFunction,
}

impl JTypeInstruction {
    /// The fields a word decodes to.
    pub open spec fn spec_decode(word: u32) -> JTypeInstruction {
        JTypeInstruction {
            opcode: (word >> 26) as u8,
            address: word & 0x3FF_FFFF,
            op: JFunction::spec_new((word >> 26) as u8),
        }
    }

    /// Every jump-format value is well formed; the address field is used
    /// whole.
    pub open spec fn wf(self) -> bool {
        true
    }

    /// Decode a jump-format word.
    pub fn new(instruction: u32) -> (r: JTypeInstruction)
        ensures
            r == JTypeInstruction::spec_decode(instruction),
            r.wf(),
    {
        JTypeInstruction {
            opcode: (instruction >> 26) as u8,
            address: instruction & 0x3FF_FFFF,
            op: JFunction::new((instruction >> 26) as u8),
        }
    }

    /// Assemble a jump-format instruction from its fields.
    pub fn build(opcode: u8, address: u32) -> (r: JTypeInstruction)
        ensures
            r == (JTypeInstruction { opcode, address, op: JFunction::spec_new(opcode) }),
            r.wf(),
    {
        JTypeInstruction { opcode, address, op: JFunction::new(opcode) }
    }

    /// What this instruction does.  Both jumps first run the delay slot,
    /// then set the program counter to the address field shifted left by
    /// two and raise the jump flag; the link jump stores its own address
    /// plus eight (past the delay slot) in register 31.  An unrecognized
    /// opcode is fatal.
    pub open spec fn spec_step(self, s: AbsState, input: Option<u32>) -> Result<
        (AbsState, EffectSpec),
        CpuError,
    > {
        let target = self.address << 2u32;
        match self.op {
            JFunction::J => match delay_slot_spec(s, input) {
                Ok((s1, e)) => if e is NeedInput {
                    Ok((s, EffectSpec::NeedInput))
                } else {
                    Ok((AbsState { pc: target, jump: true, ..s1 }, e))
                },
                Err(er) => Err(er),
            },
            JFunction::Jal => {
                let ra = wadd(s.pc, 8);
                match delay_slot_spec(s, input) {
                    Ok((s1, e)) => if e is NeedInput {
                        Ok((s, EffectSpec::NeedInput))
                    } else {
                        Ok((AbsState { pc: target, jump: true, ..s1.with_reg(31, ra) }, e))
                    },
                    Err(er) => Err(er),
                }
            },
            JFunction::Unknown => Err(CpuError::Illegal(self.opcode)),
        }
    }

    /// Execute this instruction, with an already-read console integer at
    /// hand for the input system call.
    pub fn execute_with_input(&self, cpu: &mut CPU, input: Option<u32>) -> (r: Result<
        Effect,
        CpuError,
    >)
        requires
            old(cpu).wf(),
            self.wf(),
        ensures
            final(cpu).wf(),
            exec_matches(self.spec_step(old(cpu)@, input), old(cpu)@, final(cpu)@, r),
    {
        match self.op {
            JFunction::J => {
                let eff = match cpu.run_branch_delayed(input) {
                    Ok(e) => e,
                    Err(er) => {
                        return Err(er);
                    },
                };
                match eff {
                    Effect::NeedInput => {
                        proof {
                            lemma_delay_need_input(old(cpu)@, input);
                        }
                        return Ok(Effect::NeedInput);
                    },
                    _ => {},
                }
                let ghost s1 = cpu@;
                cpu.pc = self.address << 2u32;
                cpu.jump = true;
                proof {
                    assert(cpu@ =~= (AbsState { pc: cpu.pc, jump: true, ..s1 }));
                }
                Ok(eff)
            },
            JFunction::Jal => {
                let target = self.address << 2u32;
                let ra = cpu.pc.wrapping_add(8);
                let eff = match cpu.run_branch_delayed(input) {
                    Ok(e) => e,
                    Err(er) => {
                        return Err(er);
                    },
                };
                match eff {
                    Effect::NeedInput => {
                        proof {
                            lemma_delay_need_input(old(cpu)@, input);
                        }
                        return Ok(Effect::NeedInput);
                    },
                    _ => {},
                }
                let ghost s1 = cpu@;
                cpu.write_register(31, ra);
                cpu.pc = target;
                cpu.jump = true;
                proof {
                    assert(cpu@ =~= (AbsState { pc: target, jump: true, ..s1.with_reg(31, ra) }));
                }
                Ok(eff)
            },
            JFunction::Unknown => Err(CpuError::Illegal(self.opcode)),
        }
    }

    /// Execute this instruction.  If the delay slot asks for console
    /// input it reports [`Effect::NeedInput`] and changes nothing; run it
    /// again through [`JTypeInstruction::execute_with_input`].
    pub fn execute(&self, cpu: &mut CPU) -> (r: Result<Effect, CpuError>)
        requires
            old(cpu).wf(),
            self.wf(),
        ensures
            final(cpu).wf(),
            exec_matches(self.spec_step(old(cpu)@, None), old(cpu)@, final(cpu)@, r),
    {
        self.execute_with_input(cpu, None)
    }
}

} // verus!
