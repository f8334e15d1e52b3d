//! Instruction decoding and the common execution machinery.
//!
//! A fetched 32-bit word decodes into one of three formats, selected by
//! its top six bits: register format (opcode 0), jump format (opcodes 2
//! and 3) and immediate format (everything else).  Decoding is total; an
//! unrecognized operation code decodes to an `Unknown` operation, which
//! only fails when it is executed.

pub mod i_instructions;
pub mod j_instructions;
pub mod r_instructions;

use vstd::prelude::*;

use crate::bits::wadd;
use crate::cpu::{slot, AbsState, CPU};
use crate::effects::{exec_matches, CpuError, Effect, EffectSpec};
use crate::instructions::i_instructions::ITypeInstruction;
use crate::instructions::j_instructions::{JFunction, JTypeInstruction};
use crate::instructions::r_instructions::RTypeInstruction;

verus! {

/// A decoded instruction: one of the three formats.
#[derive(Debug, Clone, Copy, PartialEq, Eq, Structural)]
pub enum Instruction {
    RType(RTypeInstruction),
    IType(ITypeInstruction),
    JType(JTypeInstruction),
}

/// The instruction a 32-bit word decodes to.
pub open spec fn spec_get_instruction(word: u32) -> Instruction {
    let opcode = (word >> 26) as u8;
    if opcode == 0 {
        Instruction::RType(RTypeInstruction::spec_decode(word))
    } else if opcode == 2 || opcode == 3 {
        Instruction::JType(JTypeInstruction::spec_decode(word))
    } else {
        Instruction::IType(ITypeInstruction::spec_decode(word))
    }
}

/// Decode a fetched word.  Total: every word decodes to some instruction.
pub fn get_instruction(word: u32) -> (i: Instruction)
    ensures
        i == spec_get_instruction(word),
        i.wf(),
{
    let opcode = (word >> 26) as u8;
    proof {
        assert((word >> 26) < 64 && (word >> 26) as u8 == word >> 26) by (bit_vector);
    }
    if opcode == 0 {
        Instruction::RType(RTypeInstruction::new(word))
    } else if opcode == 2 || opcode == 3 {
        Instruction::JType(JTypeInstruction::new(word))
    } else {
        Instruction::IType(ITypeInstruction::new(word))
    }
}

impl Instruction {
    /// Register fields and shift amounts are in range.
    pub open spec fn wf(self) -> bool {
        match self {
            Instruction::RType(r) => r.wf(),
            Instruction::IType(i) => i.wf(),
            Instruction::JType(j) => j.wf(),
        }
    }

    /// Whether executing this instruction runs the delay slot or moves the
    /// program counter.  Such an instruction may not itself stand in a
    /// delay slot.
    pub open spec fn spec_is_control_flow(self) -> bool {
        match self {
            Instruction::RType(r) => r.op.is_control_flow(),
            Instruction::IType(i) => i.op.is_control_flow(),
            Instruction::JType(j) => j.op is J || j.op is Jal,
        }
    }

    /// Whether this instruction is a branch or jump.
    pub fn is_control_flow(&self) -> (b: bool)
        ensures
            b == self.spec_is_control_flow(),
    {
        match self {
            Instruction::RType(r) => r.op.is_control_flow_exec(),
            Instruction::IType(i) => i.op.is_control_flow_exec(),
            Instruction::JType(j) => matches!(j.op, JFunction::J | JFunction::Jal),
        }
    }

    /// What executing this instruction does when it stands in a delay
    /// slot, where branches and jumps are refused.
    pub open spec fn spec_step_plain(self, s: AbsState, input: Option<u32>) -> Result<
        (AbsState, EffectSpec),
        CpuError,
    > {
        match self {
            Instruction::RType(r) => r.spec_step_plain(s, input),
            Instruction::IType(i) => i.spec_step_plain(s),
            Instruction::JType(j) => if j.op is Unknown {
                Err(CpuError::Illegal(j.opcode))
            } else {
                Err(CpuError::DelaySlotControl)
            },
        }
    }

    /// What executing this instruction does: the new state and the effect
    /// asked of the caller, or the fatal error.
    pub open spec fn spec_step(self, s: AbsState, input: Option<u32>) -> Result<
        (AbsState, EffectSpec),
        CpuError,
    > {
        match self {
            Instruction::RType(r) => r.spec_step(s, input),
            Instruction::IType(i) => i.spec_step(s, input),
            Instruction::JType(j) => j.spec_step(s, input),
        }
    }

    /// Execute this instruction as a delay-slot instruction: branches and
    /// jumps are refused.
    pub fn execute_plain(&self, cpu: &mut CPU, input: Option<u32>) -> (r: Result<Effect, CpuError>)
        requires
            old(cpu).wf(),
            self.wf(),
        ensures
            final(cpu).wf(),
            exec_matches(self.spec_step_plain(old(cpu)@, input), old(cpu)@, final(cpu)@, r),
    {
        match self {
            Instruction::RType(ri) => ri.execute_plain(cpu, input),
            Instruction::IType(ii) => ii.execute_plain(cpu),
            Instruction::JType(ji) => match ji.op {
                JFunction::Unknown => Err(CpuError::Illegal(ji.opcode)),
                _ => Err(CpuError::DelaySlotControl),
            },
        }
    }

    /// Execute this instruction against the CPU, with an already-read
    /// console integer at hand for the input system call.
    pub fn execute_with_input(&self, cpu: &mut CPU, input: Option<u32>) -> (r: Result<
        Effect,
        CpuError,
    >)
        requires
            old(cpu).wf(),
            self.wf(),
        ensures
            final(cpu).wf(),
            exec_matches(self.spec_step(old(cpu)@, input), old(cpu)@, final(cpu)@, r),
    {
        match self {
            Instruction::RType(ri) => ri.execute_with_input(cpu, input),
            Instruction::IType(ii) => ii.execute_with_input(cpu, input),
            Instruction::JType(ji) => ji.execute_with_input(cpu, input),
        }
    }

    /// Execute this instruction against the CPU.  If it asks for console
    /// input the step reports [`Effect::NeedInput`] and changes nothing;
    /// run it again through [`Instruction::execute_with_input`].
    pub fn execute(&self, cpu: &mut CPU) -> (r: Result<Effect, CpuError>)
        requires
            old(cpu).wf(),
            self.wf(),
        ensures
            final(cpu).wf(),
            exec_matches(self.spec_step(old(cpu)@, None), old(cpu)@, final(cpu)@, r),
    {
        self.execute_with_input(cpu, None)
    }
}

/// What executing the instruction in the delay slot (the word after the
/// program counter) does.  A branch or jump there is refused.
pub open spec fn delay_slot_spec(s: AbsState, input: Option<u32>) -> Result<
    (AbsState, EffectSpec),
    CpuError,
> {
    let a = wadd(s.pc, 4);
    if !(slot(a) < s.mem.len()) {
        Err(CpuError::OutOfBounds(a))
    } else {
        let d = spec_get_instruction(s.mem[slot(a)]);
        if d.spec_is_control_flow() {
            Err(CpuError::DelaySlotControl)
        } else {
            d.spec_step_plain(s, input)
        }
    }
}

/// A delay-slot step that asks for console input leaves the state as it
/// was.
pub proof fn lemma_plain_need_input(i: Instruction, s: AbsState, input: Option<u32>)
    ensures
        match i.spec_step_plain(s, input) {
            Ok(p) => p.1 is NeedInput ==> p.0 == s,
            Err(_) => true,
        },
{
}

/// A delay slot that asks for console input leaves the state as it was.
pub proof fn lemma_delay_need_input(s: AbsState, input: Option<u32>)
    ensures
        match delay_slot_spec(s, input) {
            Ok(p) => p.1 is NeedInput ==> p.0 == s,
            Err(_) => true,
        },
{
    let a = wadd(s.pc, 4);
    if slot(a) < s.mem.len() {
        lemma_plain_need_input(spec_get_instruction(s.mem[slot(a)]), s, input);
    }
}

/// Every word decodes to a well-formed instruction: the five-bit
/// register and shift fields always name one of the 32 registers and a
/// legal shift.
pub proof fn lemma_decode_wf(word: u32)
    ensures
        spec_get_instruction(word).wf(),
{
    let w = word;
    assert(((w >> 21) & 0x1F) < 32 && ((w >> 16) & 0x1F) < 32 && ((w >> 11) & 0x1F) < 32 && ((w
        >> 6) & 0x1F) < 32) by (bit_vector);
}

/// A delay-slot step keeps the state well formed and does not touch the
/// program counter or the jump flag.
pub proof fn lemma_plain_wf(i: Instruction, s: AbsState, input: Option<u32>)
    requires
        s.wf(),
        i.wf(),
    ensures
        match i.spec_step_plain(s, input) {
            Ok(p) => p.0.wf() && p.0.pc == s.pc && p.0.jump == s.jump,
            Err(_) => true,
        },
{
    match i {
        Instruction::RType(r) => {
            assert(forall|rd: int, v: u32|
                0 <= rd < 32 ==> (#[trigger] s.with_reg(rd, v)).wf() && s.with_reg(rd, v).pc
                    == s.pc && s.with_reg(rd, v).jump == s.jump);
        },
        Instruction::IType(ii) => {
            assert(forall|rd: int, v: u32|
                0 <= rd < 32 ==> (#[trigger] s.with_reg(rd, v)).wf() && s.with_reg(rd, v).pc
                    == s.pc && s.with_reg(rd, v).jump == s.jump);
            assert(forall|a: int, v: u32|
                0 <= a < s.mem.len() ==> (#[trigger] s.with_mem(a, v)).wf() && s.with_mem(a, v).pc
                    == s.pc && s.with_mem(a, v).jump == s.jump);
        },
        Instruction::JType(_) => {},
    }
}

/// A delay slot keeps the state well formed and does not touch the
/// program counter or the jump flag.
pub proof fn lemma_delay_wf(s: AbsState, input: Option<u32>)
    requires
        s.wf(),
    ensures
        match delay_slot_spec(s, input) {
            Ok(p) => p.0.wf() && p.0.pc == s.pc && p.0.jump == s.jump,
            Err(_) => true,
        },
{
    let a = wadd(s.pc, 4);
    if slot(a) < s.mem.len() {
        lemma_decode_wf(s.mem[slot(a)]);
        lemma_plain_wf(spec_get_instruction(s.mem[slot(a)]), s, input);
    }
}

/// A full step that asks for console input leaves the state as it was.
pub proof fn lemma_step_need_input(i: Instruction, s: AbsState, input: Option<u32>)
    ensures
        match i.spec_step(s, input) {
            Ok(p) => p.1 is NeedInput ==> p.0 == s,
            Err(_) => true,
        },
{
    lemma_plain_need_input(i, s, input);
    lemma_delay_need_input(s, input);
}

} // verus!
