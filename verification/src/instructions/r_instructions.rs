//! Register-format instructions: opcode 0, operation selected by the low
//! six bits (the function code).

use vstd::prelude::*;

use crate::bits::{as_signed, lemma_as_signed_cast, wadd, wsub};
use crate::cpu::{byte_at, slot, AbsState, CPU};
use crate::effects::{exec_matches, CpuError, Effect, EffectSpec};
use crate::instructions::{delay_slot_spec, lemma_delay_need_input};

verus! {

/// The word a register-format instruction's fields assemble back into.
pub open spec fn encode_r(i: RTypeInstruction) -> u32 {
    ((i.opcode as u32) << 26u32) | ((i.rs as u32) << 21u32) | ((i.rt as u32) << 16u32) | ((
    i.rd as u32) << 11u32) | ((i.shamt as u32) << 6u32) | (i.funct as u32)
}

/// Whether a zero byte lies at or after a byte address, within bounds.
pub open spec fn nul_within(mem: Seq<u32>, a: int) -> bool {
    exists|k: int| a <= k < 4 * mem.len() && byte_at(mem, k) == 0
}

/// The bytes from a byte address up to, and excluding, the first zero
/// byte (or the end of memory).
pub open spec fn text_bytes(mem: Seq<u32>, a: int) -> Seq<u8>
    decreases 4 * mem.len() - a,
{
    if a < 0 || a >= 4 * mem.len() || byte_at(mem, a) == 0 {
        Seq::empty()
    } else {
        seq![byte_at(mem, a)] + text_bytes(mem, a + 1)
    }
}

/// The characters of the zero-terminated string at a byte address: each
/// byte read as the character with that code.
pub open spec fn text_chars(mem: Seq<u32>, a: int) -> Seq<char> {
    text_bytes(mem, a).map_values(|b: u8| b as char)
}

/// The byte address at which a string scan leaves the backing store when
/// no zero byte terminates it.
pub open spec fn scan_stop(mem: Seq<u32>, a: u32) -> u32
    recommends
        4 * mem.len() <= u32::MAX,
{
    if a as int >= 4 * mem.len() {
        a
    } else {
        (4 * mem.len()) as u32
    }
}

/// When every byte before `a` is nonzero and the byte at `a` is zero,
/// the text is exactly those leading bytes.
proof fn lemma_text_bytes_stops(mem: Seq<u32>, a0: int, a: int)
    requires
        0 <= a0 <= a < 4 * mem.len(),
        forall|k: int| a0 <= k < a ==> byte_at(mem, k) != 0,
        byte_at(mem, a) == 0,
    ensures
        text_bytes(mem, a0) == Seq::new((a - a0) as nat, |i: int| byte_at(mem, a0 + i)),
    decreases a - a0,
{
    if a0 == a {
        assert(text_bytes(mem, a0) =~= Seq::new(0, |i: int| byte_at(mem, a0 + i)));
    } else {
        lemma_text_bytes_stops(mem, a0 + 1, a);
        assert(text_bytes(mem, a0) =~= Seq::new((a - a0) as nat, |i: int| byte_at(mem, a0 + i)));
    }
}

/// Relies on `String::push`: appends exactly the one character.
#[verifier::external_body]
fn push_char(s: &mut String, c: char)
    ensures
        final(s)@ == old(s)@.push(c),
{
    s.push(c);
}

/// The string made of the given bytes, each read as the character with
/// that code (single-byte characters, no multi-byte decoding).
pub fn latin1_to_string(s: &[u8]) -> (r: String)
    ensures
        r@ == s@.map_values(|b: u8| b as char),
{
    let mut r = String::new();
    let n = s.len();
    let mut i: usize = 0;
    while i < n
        invariant
            n == s@.len(),
            0 <= i <= n,
            r@ == s@.subrange(0, i as int).map_values(|b: u8| b as char),
        decreases n - i,
    {
        let b = s[i];
        push_char(&mut r, b as char);
        proof {
            assert(r@ =~= s@.subrange(0, i + 1 as int).map_values(|b: u8| b as char));
        }
        i = i + 1;
    }
    proof {
        assert(s@.subrange(0, n as int) =~= s@);
    }
    r
}

/// The zero-terminated string in memory at the given byte address: the
/// bytes up to the first zero byte, each read as one character.  Without
/// a terminator inside the backing store the scan runs off its end, which
/// is fatal.
pub fn get_text(cpu: &CPU, address: u32) -> (r: Result<String, CpuError>)
    requires
        cpu.wf(),
    ensures
        match r {
            Ok(text) => nul_within(cpu@.mem, address as int) && text@ == text_chars(
                cpu@.mem,
                address as int,
            ),
            Err(e) => !nul_within(cpu@.mem, address as int) && e == CpuError::OutOfBounds(
                scan_stop(cpu@.mem, address),
            ),
        },
{
    let mut bytes: Vec<u8> = Vec::new();
    let mut a: u32 = address;
    let n = cpu.memory.word_count();
    loop
        invariant
            cpu.wf(),
            n == cpu@.mem.len(),
            address <= a,
            a as int <= 4 * cpu@.mem.len() || a == address,
            bytes@.len() == a - address,
            forall|i: int| 0 <= i < bytes@.len() ==> bytes@[i] == byte_at(cpu@.mem, address + i),
            forall|k: int| address <= k < a ==> byte_at(cpu@.mem, k) != 0,
        decreases 4 * n - a,
    {
        if !(((a / 4) as usize) < n) {
            proof {
                assert(a == scan_stop(cpu@.mem, address));
                assert(forall|k: int|
                    address <= k < 4 * cpu@.mem.len() ==> byte_at(cpu@.mem, k) != 0);
            }
            return Err(CpuError::OutOfBounds(a));
        }
        let b = cpu.memory.read_byte(a);
        if b == 0 {
            proof {
                lemma_text_bytes_stops(cpu@.mem, address as int, a as int);
                assert(bytes@ =~= text_bytes(cpu@.mem, address as int));
            }
            let text = latin1_to_string(bytes.as_slice());
            return Ok(text);
        }
        bytes.push(b as u8);
        a = a + 1;
    }
}

/// What the system call does, as a function of the state and of the
/// console integer handed in, if any.  Register 2 selects the operation
/// and register 4 supplies its argument; an unrecognized selector is a
/// no-op.
pub open spec fn syscall_spec(s: AbsState, input: Option<u32>) -> Result<
    (AbsState, EffectSpec),
    CpuError,
> {
    let v0 = s.reg(2);
    let a0 = s.reg(4);
    if v0 == 1 {
        Ok((s, EffectSpec::PrintInt(a0)))
    } else if v0 == 4 {
        if nul_within(s.mem, a0 as int) {
            Ok((s, EffectSpec::PrintStr(text_chars(s.mem, a0 as int))))
        } else {
            Err(CpuError::OutOfBounds(scan_stop(s.mem, a0)))
        }
    } else if v0 == 5 {
        match input {
            Some(v) => Ok((s.with_reg(2, v), EffectSpec::Nothing)),
            None => Ok((s, EffectSpec::NeedInput)),
        }
    } else if v0 == 10 {
        Ok((s, EffectSpec::Exit))
    } else if v0 == 11 {
        Ok((s, EffectSpec::PrintChar((a0 & 0xFF) as u8)))
    } else {
        Ok((s, EffectSpec::Nothing))
    }
}

/// Perform the system call selected by register 2.
fn do_syscall(cpu: &mut CPU, input: Option<u32>) -> (r: Result<Effect, CpuError>)
    requires
        old(cpu).wf(),
    ensures
        final(cpu).wf(),
        exec_matches(syscall_spec(old(cpu)@, input), old(cpu)@, final(cpu)@, r),
{
    let v0 = cpu.read_register(2);
    let a0 = cpu.read_register(4);
    if v0 == 1 {
        Ok(Effect::PrintInt(a0))
    } else if v0 == 4 {
        match get_text(cpu, a0) {
            Ok(text) => Ok(Effect::PrintStr(text)),
            Err(e) => Err(e),
        }
    } else if v0 == 5 {
        match input {
            Some(v) => {
                cpu.write_register(2, v);
                Ok(Effect::Nothing)
            },
            None => Ok(Effect::NeedInput),
        }
    } else if v0 == 10 {
        Ok(Effect::Exit)
    } else if v0 == 11 {
        Ok(Effect::PrintChar(#[verifier::truncate] ((a0 & 0xFF) as u8)))
    } else {
        Ok(Effect::Nothing)
    }
}

/// The operation a register-format function code resolves to.
#[derive(Debug, Clone, Copy, PartialEq, Eq, Structural)]
pub enum RFunction {
    Add,
    Addu,
    Sub,
    And,
    Or,
    Xor,
    Nor,
    Slt,
    Sll,
    Noop,
    Srl,
    Sra,
    Jr,
    Jalr,
    Syscall,
    Unknown,
}

impl RFunction {
    /// The fixed function-code table.
    pub open spec fn spec_new(funct: u8) -> RFunction {
        match funct {
            0x20 => RFunction::Add,
            0x21 => RFunction::Addu,
            0x22 => RFunction::Sub,
            0x24 => RFunction::And,
            0x25 => RFunction::Or,
            0x26 => RFunction::Xor,
            0x27 => RFunction::Nor,
            0x2A => RFunction::Slt,
            0x00 => RFunction::Sll,
            0x0d => RFunction::Noop,
            0x02 => RFunction::Srl,
            0x03 => RFunction::Sra,
            0x08 => RFunction::Jr,
            0x09 => RFunction::Jalr,
            0x0c => RFunction::Syscall,
            _ => RFunction::Unknown,
        }
    }

    /// Resolve a function code against the fixed table.
    pub fn new(funct: u8) -> (r: RFunction)
        ensures
            r == RFunction::spec_new(funct),
    {
        match funct {
            0x20 => RFunction::Add,
            0x21 => RFunction::Addu,
            0x22 => RFunction::Sub,
            0x24 => RFunction::And,
            0x25 => RFunction::Or,
            0x26 => RFunction::Xor,
            0x27 => RFunction::Nor,
            0x2A => RFunction::Slt,
            0x00 => RFunction::Sll,
            0x0d => RFunction::Noop,
            0x02 => RFunction::Srl,
            0x03 => RFunction::Sra,
            0x08 => RFunction::Jr,
            0x09 => RFunction::Jalr,
            0x0c => RFunction::Syscall,
            _ => RFunction::Unknown,
        }
    }

    /// The two register-format jumps run the delay slot.
    pub open spec fn is_control_flow(self) -> bool {
        self is Jr || self is Jalr
    }

    /// Whether this operation is a jump.
    pub fn is_control_flow_exec(&self) -> (b: bool)
        ensures
            b == self.is_control_flow(),
    {
        matches!(self, RFunction::Jr | RFunction::Jalr)
    }
}

/// A register-format instruction: three register fields, a shift amount
/// and a function code.
#[derive(Debug, Clone, Copy, PartialEq, Eq, Structural)]
pub struct RTypeInstruction {
    pub opcode: u8,
    pub rd: u8,
    pub rs: u8,
    pub rt: u8,
    pub shamt: u8,
    pub funct: u8,
    pub op: RFunction,
}

impl RTypeInstruction {
    /// The fields a word decodes to.
    pub open spec fn spec_decode(word: u32) -> RTypeInstruction {
        RTypeInstruction {
            opcode: (word >> 26) as u8,
            rs: ((word >> 21) & 0x1F) as u8,
            rt: ((word >> 16) & 0x1F) as u8,
            rd: ((word >> 11) & 0x1F) as u8,
            shamt: ((word >> 6) & 0x1F) as u8,
            funct: (word & 0x3F) as u8,
            op: RFunction::spec_new((word & 0x3F) as u8),
        }
    }

    /// Register fields and the shift amount name one of the 32 registers
    /// and a legal shift.
    pub open spec fn wf(self) -> bool {
        self.rs < 32 && self.rt < 32 && self.rd < 32 && self.shamt < 32
    }

    /// Decode a register-format word.
    pub fn new(instruction: u32) -> (r: RTypeInstruction)
        ensures
            r == RTypeInstruction::spec_decode(instruction),
            r.wf(),
    {
        proof {
            let w = instruction;
            assert(((w >> 21) & 0x1F) < 32 && ((w >> 16) & 0x1F) < 32 && ((w >> 11) & 0x1F) < 32
                && ((w >> 6) & 0x1F) < 32) by (bit_vector);
        }
        RTypeInstruction {
            opcode: (instruction >> 26) as u8,
            rs: ((instruction >> 21) & 0x1F) as u8,
            rt: ((instruction >> 16) & 0x1F) as u8,
            rd: ((instruction >> 11) & 0x1F) as u8,
            shamt: ((instruction >> 6) & 0x1F) as u8,
            funct: (instruction & 0x3F) as u8,
            op: RFunction::new((instruction & 0x3F) as u8),
        }
    }

    /// Assemble a register-format instruction from its fields.
    pub fn build(opcode: u8, rd: u8, rs: u8, rt: u8, shamt: u8, funct: u8) -> (r: RTypeInstruction)
        ensures
            r == (RTypeInstruction {
                opcode,
                rd,
                rs,
                rt,
                shamt,
                funct,
                op: RFunction::spec_new(funct),
            }),
            rd < 32 && rs < 32 && rt < 32 && shamt < 32 ==> r.wf(),
    {
        RTypeInstruction { opcode, rd, rs, rt, shamt, funct, op: RFunction::new(funct) }
    }

    /// What this instruction does when it stands in a delay slot, where
    /// jumps are refused.  Arithmetic wraps; compares and the arithmetic
    /// shift read words as signed values.
    pub open spec fn spec_step_plain(self, s: AbsState, input: Option<u32>) -> Result<
        (AbsState, EffectSpec),
        CpuError,
    > {
        let rs_v = s.reg(self.rs as int);
        let rt_v = s.reg(self.rt as int);
        let rd = self.rd as int;
        match self.op {
            RFunction::Add => Ok((s.with_reg(rd, wadd(rs_v, rt_v)), EffectSpec::Nothing)),
            RFunction::Addu => Ok((s.with_reg(rd, wadd(rs_v, rt_v)), EffectSpec::Nothing)),
            RFunction::Sub => Ok((s.with_reg(rd, wsub(rs_v, rt_v)), EffectSpec::Nothing)),
            RFunction::And => Ok((s.with_reg(rd, rs_v & rt_v), EffectSpec::Nothing)),
            RFunction::Or => Ok((s.with_reg(rd, rs_v | rt_v), EffectSpec::Nothing)),
            RFunction::Xor => Ok((s.with_reg(rd, rs_v ^ rt_v), EffectSpec::Nothing)),
            RFunction::Nor => Ok((s.with_reg(rd, !(rs_v | rt_v)), EffectSpec::Nothing)),
            RFunction::Slt => Ok((
                s.with_reg(rd, if as_signed(rs_v) < as_signed(rt_v) {
                    1u32
                } else {
                    0u32
                }),
                EffectSpec::Nothing,
            )),
            RFunction::Sll => Ok((
                s.with_reg(rd, rt_v << (self.shamt as u32)),
                EffectSpec::Nothing,
            )),
            RFunction::Srl => Ok((
                s.with_reg(rd, rt_v >> (self.shamt as u32)),
                EffectSpec::Nothing,
            )),
            RFunction::Sra => Ok((
                s.with_reg(rd, (((rt_v as i32) >> (self.shamt as u32)) as u32)),
                EffectSpec::Nothing,
            )),
            RFunction::Noop => Ok((s, EffectSpec::Nothing)),
            RFunction::Syscall => syscall_spec(s, input),
            RFunction::Jr => Err(CpuError::DelaySlotControl),
            RFunction::Jalr => Err(CpuError::DelaySlotControl),
            RFunction::Unknown => Err(CpuError::Illegal(self.funct)),
        }
    }

    /// What this instruction does.  The two jumps first run the delay
    /// slot (the word after the program counter), then move the program
    /// counter and set the jump flag; the link register receives the
    /// jump's own address plus eight, past the delay slot.
    pub open spec fn spec_step(self, s: AbsState, input: Option<u32>) -> Result<
        (AbsState, EffectSpec),
        CpuError,
    > {
        match self.op {
            RFunction::Jr => match delay_slot_spec(s, input) {
                Ok((s1, e)) => if e is NeedInput {
                    Ok((s, EffectSpec::NeedInput))
                } else {
                    Ok((AbsState { pc: s1.reg(self.rs as int), jump: true, ..s1 }, e))
                },
                Err(er) => Err(er),
            },
            RFunction::Jalr => {
                let target = s.reg(self.rs as int);
                let ra = wadd(s.pc, 8);
                match delay_slot_spec(s, input) {
                    Ok((s1, e)) => if e is NeedInput {
                        Ok((s, EffectSpec::NeedInput))
                    } else {
                        Ok((
                            AbsState { pc: target, jump: true, ..s1.with_reg(self.rd as int, ra) },
                            e,
                        ))
                    },
                    Err(er) => Err(er),
                }
            },
            _ => self.spec_step_plain(s, input),
        }
    }

    /// Execute this instruction as a delay-slot instruction: the two
    /// jumps are refused.
    pub fn execute_plain(&self, cpu: &mut CPU, input: Option<u32>) -> (r: Result<Effect, CpuError>)
        requires
            old(cpu).wf(),
            self.wf(),
        ensures
            final(cpu).wf(),
            exec_matches(self.spec_step_plain(old(cpu)@, input), old(cpu)@, final(cpu)@, r),
    {
        match self.op {
            RFunction::Add | RFunction::Addu => {
                let a = cpu.read_register(self.rs as usize);
                let b = cpu.read_register(self.rt as usize);
                cpu.write_register(self.rd as usize, a.wrapping_add(b));
                Ok(Effect::Nothing)
            },
            RFunction::Sub => {
                let a = cpu.read_register(self.rs as usize);
                let b = cpu.read_register(self.rt as usize);
                cpu.write_register(self.rd as usize, a.wrapping_sub(b));
                Ok(Effect::Nothing)
            },
            RFunction::And => {
                let a = cpu.read_register(self.rs as usize);
                let b = cpu.read_register(self.rt as usize);
                cpu.write_register(self.rd as usize, a & b);
                Ok(Effect::Nothing)
            },
            RFunction::Or => {
                let a = cpu.read_register(self.rs as usize);
                let b = cpu.read_register(self.rt as usize);
                cpu.write_register(self.rd as usize, a | b);
                Ok(Effect::Nothing)
            },
            RFunction::Xor => {
                let a = cpu.read_register(self.rs as usize);
                let b = cpu.read_register(self.rt as usize);
                cpu.write_register(self.rd as usize, a ^ b);
                Ok(Effect::Nothing)
            },
            RFunction::Nor => {
                let a = cpu.read_register(self.rs as usize);
                let b = cpu.read_register(self.rt as usize);
                cpu.write_register(self.rd as usize, !(a | b));
                Ok(Effect::Nothing)
            },
            RFunction::Slt => {
                let a = cpu.read_register(self.rs as usize);
                let b = cpu.read_register(self.rt as usize);
                proof {
                    lemma_as_signed_cast(a);
                    lemma_as_signed_cast(b);
                }
                let v: u32 = if (a as i32) < (b as i32) {
                    1
                } else {
                    0
                };
                cpu.write_register(self.rd as usize, v);
                Ok(Effect::Nothing)
            },
            RFunction::Sll => {
                let b = cpu.read_register(self.rt as usize);
                cpu.write_register(self.rd as usize, b << (self.shamt as u32));
                Ok(Effect::Nothing)
            },
            RFunction::Srl => {
                let b = cpu.read_register(self.rt as usize);
                cpu.write_register(self.rd as usize, b >> (self.shamt as u32));
                Ok(Effect::Nothing)
            },
            RFunction::Sra => {
                let b = cpu.read_register(self.rt as usize);
                let v = #[verifier::truncate] (((b as i32) >> (self.shamt as u32)) as u32);
                cpu.write_register(self.rd as usize, v);
                Ok(Effect::Nothing)
            },
            RFunction::Noop => Ok(Effect::Nothing),
            RFunction::Syscall => do_syscall(cpu, input),
            RFunction::Jr | RFunction::Jalr => Err(CpuError::DelaySlotControl),
            RFunction::Unknown => Err(CpuError::Illegal(self.funct)),
        }
    }

    /// Execute this instruction, with an already-read console integer at
    /// hand for the input system call.
    pub fn execute_with_input(&self, cpu: &mut CPU, input: Option<u32>) -> (r: Result<
        Effect,
        CpuError,
    >)
        requires
            old(cpu).wf(),
            self.wf(),
        ensures
            final(cpu).wf(),
            exec_matches(self.spec_step(old(cpu)@, input), old(cpu)@, final(cpu)@, r),
    {
        match self.op {
            RFunction::Jr => {
                let eff = match cpu.run_branch_delayed(input) {
                    Ok(e) => e,
                    Err(er) => {
                        return Err(er);
                    },
                };
                match eff {
                    Effect::NeedInput => {
                        proof {
                            lemma_delay_need_input(old(cpu)@, input);
                        }
                        return Ok(Effect::NeedInput);
                    },
                    _ => {},
                }
                let ghost s1 = cpu@;
                let target = cpu.read_register(self.rs as usize);
                cpu.pc = target;
                cpu.jump = true;
                proof {
                    assert(cpu@ =~= (AbsState { pc: target, jump: true, ..s1 }));
                }
                Ok(eff)
            },
            RFunction::Jalr => {
                let target = cpu.read_register(self.rs as usize);
                let ra = cpu.pc.wrapping_add(8);
                let eff = match cpu.run_branch_delayed(input) {
                    Ok(e) => e,
                    Err(er) => {
                        return Err(er);
                    },
                };
                match eff {
                    Effect::NeedInput => {
                        proof {
                            lemma_delay_need_input(old(cpu)@, input);
                        }
                        return Ok(Effect::NeedInput);
                    },
                    _ => {},
                }
                let ghost s1 = cpu@;
                cpu.write_register(self.rd as usize, ra);
                cpu.pc = target;
                cpu.jump = true;
                proof {
                    assert(cpu@ =~= (AbsState {
                        pc: target,
                        jump: true,
                        ..s1.with_reg(self.rd as int, ra)
                    }));
                }
                Ok(eff)
            },
            _ => self.execute_plain(cpu, input),
        }
    }

    /// Execute this instruction.  If it asks for console input it reports
    /// [`Effect::NeedInput`] and changes nothing; run it again through
    /// [`RTypeInstruction::execute_with_input`].
    pub fn execute(&self, cpu: &mut CPU) -> (r: Result<Effect, CpuError>)
        requires
            old(cpu).wf(),
            self.wf(),
        ensures
            final(cpu).wf(),
            exec_matches(self.spec_step(old(cpu)@, None), old(cpu)@, final(cpu)@, r),
    {
        self.execute_with_input(cpu, None)
    }
}

} // verus!
