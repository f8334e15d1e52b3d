//! The laws the simulator is held to, stated over its mathematical model
//! and proved once for all inputs.

use vstd::prelude::*;

use vstd::arithmetic::div_mod::{lemma_mod_multiples_vanish, lemma_small_mod};

use crate::bits::{as_signed, lemma_sign_extend16_signed, sign_extend16, wadd, wrap_signed, wsub};
use crate::cpu::{slot, AbsState, CPU, TEXT_BASE};
use crate::effects::EffectSpec;
use crate::instructions::i_instructions::{IFunction, ITypeInstruction};
use crate::instructions::j_instructions::JTypeInstruction;
use crate::instructions::lemma_delay_wf;
use crate::instructions::r_instructions::{encode_r, RFunction, RTypeInstruction};
use crate::instructions::{spec_get_instruction, Instruction};

verus! {

/// An integer already in the signed 32-bit range is its own wraparound.
proof fn lemma_wrap_signed_fixed(y: int, k: int)
    requires
        -0x8000_0000 <= y < 0x8000_0000,
    ensures
        wrap_signed(y + k * 0x1_0000_0000) == y,
{
    lemma_mod_multiples_vanish(k, y + 0x8000_0000, 0x1_0000_0000);
    lemma_small_mod((y + 0x8000_0000) as nat, 0x1_0000_0000);
}

/// Addition and subtraction wrap as two's-complement hardware does: read
/// as signed values, the results are the signed sum and difference
/// wrapped into the signed 32-bit range.
pub proof fn lemma_add_sub_wrap_signed(a: u32, b: u32)
    ensures
        as_signed(wadd(a, b)) == wrap_signed(as_signed(a) + as_signed(b)),
        as_signed(wsub(a, b)) == wrap_signed(as_signed(a) - as_signed(b)),
{
    let sum = as_signed(wadd(a, b));
    let x = as_signed(a) + as_signed(b);
    if x == sum {
        lemma_wrap_signed_fixed(sum, 0);
    } else if x == sum + 0x1_0000_0000 {
        lemma_wrap_signed_fixed(sum, 1);
    } else if x == sum - 0x1_0000_0000 {
        lemma_wrap_signed_fixed(sum, -1);
    } else {
        assert(x == sum + 0x2_0000_0000);
        lemma_wrap_signed_fixed(sum, 2);
    }
    let diff = as_signed(wsub(a, b));
    let y = as_signed(a) - as_signed(b);
    if y == diff {
        lemma_wrap_signed_fixed(diff, 0);
    } else if y == diff + 0x1_0000_0000 {
        lemma_wrap_signed_fixed(diff, 1);
    } else if y == diff - 0x1_0000_0000 {
        lemma_wrap_signed_fixed(diff, -1);
    } else {
        assert(y == diff - 0x2_0000_0000);
        lemma_wrap_signed_fixed(diff, -2);
    }
}

/// Adding a sign-extended immediate wraps the same way: read as signed
/// values, the result is the signed sum of the register and the
/// immediate, wrapped into the signed 32-bit range.
pub proof fn lemma_addi_wrap_signed(a: u32, imm: i16)
    ensures
        as_signed(wadd(a, sign_extend16(imm))) == wrap_signed(as_signed(a) + imm),
{
    lemma_sign_extend16_signed(imm);
    lemma_add_sub_wrap_signed(a, sign_extend16(imm));
}

/// Register 0 is immutable: after writing any value to it, it still
/// reads zero.
pub proof fn lemma_register_zero_immutable(s: AbsState, v: u32)
    requires
        s.wf(),
    ensures
        s.with_reg(0, v).reg(0) == 0,
{
}

/// A completed jump-and-link stores the jump's own address plus eight —
/// past the delay slot — in register 31.
pub proof fn lemma_jal_return_address(j: JTypeInstruction, s: AbsState, input: Option<u32>)
    requires
        s.wf(),
        j.op is Jal,
    ensures
        match j.spec_step(s, input) {
            Ok(p) => !(p.1 is NeedInput) ==> p.0.reg(31) == wadd(s.pc, 8),
            Err(_) => true,
        },
{
    lemma_delay_wf(s, input);
}

/// A completed jump-and-link-register stores the jump's own address plus
/// eight — past the delay slot — in its destination register.
pub proof fn lemma_jalr_return_address(i: RTypeInstruction, s: AbsState, input: Option<u32>)
    requires
        s.wf(),
        i.op is Jalr,
        0 < i.rd < 32,
    ensures
        match i.spec_step(s, input) {
            Ok(p) => !(p.1 is NeedInput) ==> p.0.reg(i.rd as int) == wadd(s.pc, 8),
            Err(_) => true,
        },
{
    lemma_delay_wf(s, input);
}

/// A program that computes 5 + 7 and hands the sum to the print-integer
/// system call prints exactly the integer 12 and then exits cleanly on
/// the following exit system call.  Stated over seven steps from the
/// text base: the first four and the sixth ask no I/O, the fifth asks
/// for the integer 12 to be printed, and the seventh asks for exit.
#[verifier::rlimit(60)]
pub proof fn lemma_sum_program_prints_and_exits(s: AbsState)
    requires
        s.wf(),
        !s.jump,
        s.pc == TEXT_BASE,
        s.mem[slot(TEXT_BASE)] == 0x20020005u32,  // ADDI r2, r0, 5
        s.mem[slot(TEXT_BASE) + 1] == 0x20030007u32,  // ADDI r3, r0, 7
        s.mem[slot(TEXT_BASE) + 2] == 0x00432020u32,  // ADD r4, r2, r3
        s.mem[slot(TEXT_BASE) + 3] == 0x20020001u32,  // ADDI r2, r0, 1
        s.mem[slot(TEXT_BASE) + 4] == 0x0000000Cu32,  // SYSCALL: print integer in r4
        s.mem[slot(TEXT_BASE) + 5] == 0x2002000Au32,  // ADDI r2, r0, 10
        s.mem[slot(TEXT_BASE) + 6] == 0x0000000Cu32,  // SYSCALL: exit
    ensures
        ({
            let r1 = CPU::step_spec(s, None);
            let s1 = r1->Ok_0.0;
            let r2 = CPU::step_spec(s1, None);
            let s2 = r2->Ok_0.0;
            let r3 = CPU::step_spec(s2, None);
            let s3 = r3->Ok_0.0;
            let r4 = CPU::step_spec(s3, None);
            let s4 = r4->Ok_0.0;
            let r5 = CPU::step_spec(s4, None);
            let s5 = r5->Ok_0.0;
            let r6 = CPU::step_spec(s5, None);
            let s6 = r6->Ok_0.0;
            let r7 = CPU::step_spec(s6, None);
            &&& r1 matches Ok(p1) && p1.1 is Nothing
            &&& r2 matches Ok(p2) && p2.1 is Nothing
            &&& r3 matches Ok(p3) && p3.1 is Nothing
            &&& r4 matches Ok(p4) && p4.1 is Nothing
            &&& r5 matches Ok(p5) && p5.1 == EffectSpec::PrintInt(12)
            &&& r6 matches Ok(p6) && p6.1 is Nothing
            &&& r7 matches Ok(p7) && p7.1 is Exit
        }),
{
    assert((0x20020005u32 >> 26) == 8 && ((0x20020005u32 >> 21) & 0x1F) == 0 && ((0x20020005u32
        >> 16) & 0x1F) == 2 && (0x20020005u32 & 0xFFFF) as i16 == 5i16) by (bit_vector);
    assert((0x20030007u32 >> 26) == 8 && ((0x20030007u32 >> 21) & 0x1F) == 0 && ((0x20030007u32
        >> 16) & 0x1F) == 3 && (0x20030007u32 & 0xFFFF) as i16 == 7i16) by (bit_vector);
    assert((0x00432020u32 >> 26) == 0 && ((0x00432020u32 >> 21) & 0x1F) == 2 && ((0x00432020u32
        >> 16) & 0x1F) == 3 && ((0x00432020u32 >> 11) & 0x1F) == 4 && ((0x00432020u32 >> 6)
        & 0x1F) == 0 && (0x00432020u32 & 0x3F) == 0x20) by (bit_vector);
    assert((0x20020001u32 >> 26) == 8 && ((0x20020001u32 >> 21) & 0x1F) == 0 && ((0x20020001u32
        >> 16) & 0x1F) == 2 && (0x20020001u32 & 0xFFFF) as i16 == 1i16) by (bit_vector);
    assert((0x0000000Cu32 >> 26) == 0 && ((0x0000000Cu32 >> 21) & 0x1F) == 0 && ((0x0000000Cu32
        >> 16) & 0x1F) == 0 && ((0x0000000Cu32 >> 11) & 0x1F) == 0 && ((0x0000000Cu32 >> 6)
        & 0x1F) == 0 && (0x0000000Cu32 & 0x3F) == 0x0C) by (bit_vector);
    assert((0x2002000Au32 >> 26) == 8 && ((0x2002000Au32 >> 21) & 0x1F) == 0 && ((0x2002000Au32
        >> 16) & 0x1F) == 2 && (0x2002000Au32 & 0xFFFF) as i16 == 10i16) by (bit_vector);

    assert(spec_get_instruction(0x20020005u32) == Instruction::IType(ITypeInstruction {
        opcode: 8,
        rs: 0,
        rt: 2,
        imm: 5,
        op: IFunction::Addi,
    }));
    assert(spec_get_instruction(0x20030007u32) == Instruction::IType(ITypeInstruction {
        opcode: 8,
        rs: 0,
        rt: 3,
        imm: 7,
        op: IFunction::Addi,
    }));
    assert(spec_get_instruction(0x00432020u32) == Instruction::RType(RTypeInstruction {
        opcode: 0,
        rd: 4,
        rs: 2,
        rt: 3,
        shamt: 0,
        funct: 0x20,
        op: RFunction::Add,
    }));
    assert(spec_get_instruction(0x20020001u32) == Instruction::IType(ITypeInstruction {
        opcode: 8,
        rs: 0,
        rt: 2,
        imm: 1,
        op: IFunction::Addi,
    }));
    assert(spec_get_instruction(0x0000000Cu32) == Instruction::RType(RTypeInstruction {
        opcode: 0,
        rd: 0,
        rs: 0,
        rt: 0,
        shamt: 0,
        funct: 0x0C,
        op: RFunction::Syscall,
    }));
    assert(spec_get_instruction(0x2002000Au32) == Instruction::IType(ITypeInstruction {
        opcode: 8,
        rs: 0,
        rt: 2,
        imm: 10,
        op: IFunction::Addi,
    }));

    let r1 = CPU::step_spec(s, None);
    let s1 = (s.with_reg(2, 5)).with_pc(0x0040_0004);
    assert(r1 matches Ok(p) && p.0 == s1 && p.1 is Nothing);
    let r2 = CPU::step_spec(s1, None);
    let s2 = (s1.with_reg(3, 7)).with_pc(0x0040_0008);
    assert(r2 matches Ok(p) && p.0 == s2 && p.1 is Nothing);
    let r3 = CPU::step_spec(s2, None);
    let s3 = (s2.with_reg(4, 12)).with_pc(0x0040_000C);
    assert(s2.reg(2) == 5 && s2.reg(3) == 7);
    assert(r3 matches Ok(p) && p.0 == s3 && p.1 is Nothing);
    let r4 = CPU::step_spec(s3, None);
    let s4 = (s3.with_reg(2, 1)).with_pc(0x0040_0010);
    assert(r4 matches Ok(p) && p.0 == s4 && p.1 is Nothing);
    let r5 = CPU::step_spec(s4, None);
    let s5 = s4.with_pc(0x0040_0014);
    assert(s4.reg(2) == 1 && s4.reg(4) == 12);
    assert(r5 matches Ok(p) && p.0 == s5 && p.1 == EffectSpec::PrintInt(12));
    let r6 = CPU::step_spec(s5, None);
    let s6 = (s5.with_reg(2, 10)).with_pc(0x0040_0018);
    assert(r6 matches Ok(p) && p.0 == s6 && p.1 is Nothing);
    let r7 = CPU::step_spec(s6, None);
    assert(s6.reg(2) == 10);
    assert(r7 matches Ok(p) && p.1 is Exit);
}

/// Decoding a register-format word and assembling its fields back
/// together reproduces the original bit pattern.
pub proof fn lemma_register_round_trip(word: u32)
    requires
        word >> 26 == 0,
    ensures
        encode_r(RTypeInstruction::spec_decode(word)) == word,
{
    assert((((((word >> 26) as u8) as u32) << 26u32) | (((((word >> 21) & 0x1F) as u8) as u32)
        << 21u32) | (((((word >> 16) & 0x1F) as u8) as u32) << 16u32) | (((((word >> 11)
        & 0x1F) as u8) as u32) << 11u32) | (((((word >> 6) & 0x1F) as u8) as u32) << 6u32) | (((
    word & 0x3F) as u8) as u32)) == word) by (bit_vector)
        requires
            word >> 26 == 0,
    ;
}

} // verus!
