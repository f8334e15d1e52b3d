//! The CPU state: register file, word-addressed memory and program counter.
//!
//! The mathematical model of a running CPU is [`AbsState`]: the register
//! file as a sequence of 32 words (index 0 hardwired to zero), the memory
//! as a sequence of word cells, each covering four consecutive byte
//! addresses, the program counter and the jump flag that suppresses the
//! default advance after a taken jump.

use vstd::prelude::*;

use crate::bits::wadd;
use crate::effects::{exec_matches, CpuError, Effect, EffectSpec};
use crate::instructions::{
    delay_slot_spec, get_instruction, lemma_step_need_input, spec_get_instruction,
};

verus! {

/// Number of cells in the backing store.  Each cell holds one 32-bit
/// word and covers four byte addresses; the text, data and stack regions
/// all lie below the resulting address bound.
pub const MEM_WORDS: usize = 0x2000_0000;

/// The cell holding a byte address: each cell covers four consecutive
/// byte addresses.
pub open spec fn slot(address: u32) -> int {
    address as int / 4
}

/// The byte at a byte address: memory packs four bytes to a cell, least
/// significant first, in the cell holding the address.
pub open spec fn byte_at(mem: Seq<u32>, a: int) -> u8
    recommends
        0 <= a < 4 * mem.len(),
{
    ((mem[a / 4] >> ((8 * (a % 4)) as u32)) & 0xFF) as u8
}

/// The halfword at a byte address: the byte at the address and the byte
/// after it, least significant first.
pub open spec fn half_at(mem: Seq<u32>, a: int) -> u32
    recommends
        0 <= a && a + 1 < 4 * mem.len(),
{
    (byte_at(mem, a) as u32) | ((byte_at(mem, a + 1) as u32) << 8u32)
}

/// Address at which the text (code) stream is deposited.
pub const TEXT_BASE: u32 = 0x0040_0000;

/// Address at which the data stream is deposited.
pub const DATA_BASE: u32 = 0x1001_0000;

/// Initial value of register 29, the stack pointer.
pub const STACK_POINTER: u32 = 0x7fff_effc;

/// Initial value of register 28, the global pointer.
pub const GLOBAL_POINTER: u32 = 0x1000_8000;

/// The mathematical model of a CPU: register contents, memory contents,
/// program counter and jump flag.
#[verifier::ext_equal]
pub ghost struct AbsState {
    pub regs: Seq<u32>,
    pub mem: Seq<u32>,
    pub pc: u32,
    pub jump: bool,
}

impl AbsState {
    /// A well-formed state: 32 registers with register 0 holding zero, and
    /// a full-sized backing store.
    pub open spec fn wf(self) -> bool {
        &&& self.regs.len() == 32
        &&& self.regs[0] == 0
        &&& self.mem.len() == MEM_WORDS
    }

    /// The value read from a register.
    pub open spec fn reg(self, r: int) -> u32
        recommends
            0 <= r < 32,
    {
        self.regs[r]
    }

    /// The state after writing a register; a write to register 0 changes
    /// nothing.
    pub open spec fn with_reg(self, r: int, v: u32) -> AbsState
        recommends
            0 <= r < 32,
    {
        if r == 0 {
            self
        } else {
            AbsState { regs: self.regs.update(r, v), ..self }
        }
    }

    /// The state after storing a word in a memory cell.
    pub open spec fn with_mem(self, cell: int, v: u32) -> AbsState
        recommends
            0 <= cell < self.mem.len(),
    {
        AbsState { mem: self.mem.update(cell, v), ..self }
    }

    /// The state after setting the program counter.
    pub open spec fn with_pc(self, pc: u32) -> AbsState {
        AbsState { pc, ..self }
    }
}

/// One general-purpose 32-bit register.
#[derive(Clone, Copy)]
pub struct Register {
    value: u32,
}

impl View for Register {
    type V = u32;

    closed spec fn view(&self) -> u32 {
        self.value
    }
}

impl Register {
    /// A register holding zero.
    pub fn new() -> (r: Register)
        ensures
            r@ == 0,
    {
        Register { value: 0 }
    }

    /// The register's current value.
    pub fn read(&self) -> (v: u32)
        ensures
            v == self@,
    {
        self.value
    }

    /// Overwrite the register's value.
    pub fn write(&mut self, value: u32)
        ensures
            final(self)@ == value,
    {
        self.value = value;
    }
}

/// The backing store: a flat array of 32-bit word cells, one for every
/// four byte addresses.  Out-of-bounds addresses are rejected by the
/// callers; the store itself is only accessed within bounds.
pub struct Memory {
    data: Vec<u32>,
}

impl View for Memory {
    type V = Seq<u32>;

    closed spec fn view(&self) -> Seq<u32> {
        self.data@
    }
}

impl Memory {
    /// A zero-filled store of the given number of cells.
    pub fn new(size: usize) -> (m: Memory)
        ensures
            m@ == Seq::new(size as nat, |i: int| 0u32),
    {
        let data: Vec<u32> = vec![0u32; size];
        let m = Memory { data };
        proof {
            assert(m@ =~= Seq::new(size as nat, |i: int| 0u32));
        }
        m
    }

    /// Number of addressable cells.
    pub fn word_count(&self) -> (n: usize)
        ensures
            n == self@.len(),
    {
        self.data.len()
    }

    /// The word in the cell holding an address.
    pub fn read(&self, address: u32) -> (w: u32)
        requires
            slot(address) < self@.len(),
        ensures
            w == self@[slot(address)],
    {
        self.data[(address / 4) as usize]
    }

    /// The byte at an address, zero-extended: one of the four bytes
    /// packed in the cell holding it, selected by the address's offset
    /// within the cell, least significant first.
    pub fn read_byte(&self, address: u32) -> (b: u32)
        requires
            slot(address) < self@.len(),
        ensures
            b == byte_at(self@, address as int),
    {
        let rel = address % 4;
        let w = self.data[(address / 4) as usize];
        let b = (w >> (rel * 8)) & 0xFF;
        proof {
            assert((w >> (rel * 8)) & 0xFF < 0x100) by (bit_vector);
        }
        b
    }

    /// Store a word in the cell holding an address.
    pub fn write(&mut self, address: u32, value: u32)
        requires
            slot(address) < old(self)@.len(),
        ensures
            final(self)@ == old(self)@.update(slot(address), value),
    {
        self.data[(address / 4) as usize] = value;
    }

    /// Deposit the text stream as consecutive words starting at
    /// [`TEXT_BASE`].  Cells outside the deposited addresses keep their
    /// contents.
    pub fn load_text(&mut self, text: Vec<u32>)
        requires
            old(self)@.len() == MEM_WORDS,
            slot(TEXT_BASE) + text@.len() <= MEM_WORDS,
        ensures
            final(self)@.len() == MEM_WORDS,
            forall|i: int|
                0 <= i < text@.len() ==> final(self)@[slot(TEXT_BASE) + i] == text@[i],
            forall|w: int|
                0 <= w < MEM_WORDS && !(slot(TEXT_BASE) <= w < slot(TEXT_BASE) + text@.len())
                    ==> final(self)@[w] == old(self)@[w],
    {
        self.load_at(TEXT_BASE, text);
    }

    /// Deposit the data stream as consecutive words starting at
    /// [`DATA_BASE`].  Cells outside the deposited addresses keep their
    /// contents.
    pub fn load_data(&mut self, data: Vec<u32>)
        requires
            old(self)@.len() == MEM_WORDS,
            slot(DATA_BASE) + data@.len() <= MEM_WORDS,
        ensures
            final(self)@.len() == MEM_WORDS,
            forall|i: int|
                0 <= i < data@.len() ==> final(self)@[slot(DATA_BASE) + i] == data@[i],
            forall|w: int|
                0 <= w < MEM_WORDS && !(slot(DATA_BASE) <= w < slot(DATA_BASE) + data@.len())
                    ==> final(self)@[w] == old(self)@[w],
    {
        self.load_at(DATA_BASE, data);
    }

    /// Deposit a stream of words at consecutive word addresses starting at
    /// `base`.
    fn load_at(&mut self, base: u32, words: Vec<u32>)
        requires
            old(self)@.len() == MEM_WORDS,
            slot(base) + words@.len() <= MEM_WORDS,
        ensures
            final(self)@.len() == MEM_WORDS,
            forall|i: int|
                0 <= i < words@.len() ==> final(self)@[slot(base) + i] == words@[i],
            forall|w: int|
                0 <= w < MEM_WORDS && !(slot(base) <= w < slot(base) + words@.len())
                    ==> final(self)@[w] == old(self)@[w],
    {
        let n = words.len();
        let base_slot = (base / 4) as usize;
        let mut i: usize = 0;
        while i < n
            invariant
                n == words@.len(),
                0 <= i <= n,
                base_slot == slot(base),
                slot(base) + n <= MEM_WORDS,
                self@.len() == MEM_WORDS,
                forall|j: int| 0 <= j < i ==> self@[slot(base) + j] == words@[j],
                forall|w: int|
                    0 <= w < MEM_WORDS && !(slot(base) <= w < slot(base) + i as int)
                        ==> self@[w] == old(self)@[w],
            decreases n - i,
        {
            self.data[base_slot + i] = words[i];
            i = i + 1;
        }
    }
}

/// The CPU: register file, memory, program counter and jump flag.  The
/// jump flag is set by a control-flow instruction that has already placed
/// its target in the program counter; the step that consults it then skips
/// the default advance and clears it.
pub struct CPU {
    pub registers: Vec<Register>,
    pub memory: Memory,
    pub pc: u32,
    pub jump: bool,
}

impl View for CPU {
    type V = AbsState;

    open spec fn view(&self) -> AbsState {
        AbsState {
            regs: self.registers@.map_values(|r: Register| r@),
            mem: self.memory@,
            pc: self.pc,
            jump: self.jump,
        }
    }
}

impl CPU {
    /// A well-formed CPU, preserved by every operation of the library.
    pub open spec fn wf(&self) -> bool {
        self@.wf()
    }

    /// A fresh CPU: all registers zero except the global and stack
    /// pointers, zero-filled memory, program counter at zero.
    pub fn new() -> (cpu: CPU)
        ensures
            cpu.wf(),
            cpu@.regs == Seq::new(32, |i: int| if i == 28 {
                GLOBAL_POINTER
            } else if i == 29 {
                STACK_POINTER
            } else {
                0u32
            }),
            cpu@.mem == Seq::new(MEM_WORDS as nat, |i: int| 0u32),
            cpu@.pc == 0,
            cpu@.jump == false,
    {
        let mut registers: Vec<Register> = Vec::new();
        let mut i: usize = 0;
        while i < 32
            invariant
                0 <= i <= 32,
                registers@.len() == i,
                forall|j: int| 0 <= j < i ==> registers@[j]@ == 0,
            decreases 32 - i,
        {
            registers.push(Register::new());
            i = i + 1;
        }
        let mut cpu = CPU { registers, memory: Memory::new(MEM_WORDS), pc: 0, jump: false };
        proof {
            assert(cpu@.regs.len() == 32);
            assert(forall|j: int| 0 <= j < 32 ==> cpu@.regs[j] == 0);
        }
        cpu.write_register(28, GLOBAL_POINTER);
        cpu.write_register(29, STACK_POINTER);
        proof {
            assert(cpu@.regs =~= Seq::new(32, |i: int| if i == 28 {
                GLOBAL_POINTER
            } else if i == 29 {
                STACK_POINTER
            } else {
                0u32
            }));
        }
        cpu
    }

    /// The value of a register; register 0 always reads zero.
    pub fn read_register(&self, register: usize) -> (v: u32)
        requires
            register < 32,
            self.wf(),
        ensures
            v == self@.reg(register as int),
    {
        if register == 0 {
            return 0;
        }
        self.registers[register].read()
    }

    /// Write a register; a write to register 0 is a no-op.
    pub fn write_register(&mut self, register: usize, value: u32)
        requires
            register < 32,
            old(self)@.regs.len() == 32,
        ensures
            final(self)@ == old(self)@.with_reg(register as int, value),
            old(self).wf() ==> final(self).wf(),
    {
        if register == 0 {
            proof {
                assert(self@ =~= old(self)@.with_reg(0, value));
            }
            return;
        }
        self.registers[register].write(value);
        proof {
            assert(self@.regs =~= old(self)@.regs.update(register as int, value));
            assert(self@ =~= old(self)@.with_reg(register as int, value));
        }
    }

    /// Execute the instruction in the delay slot: the word after the
    /// program counter.  A branch or jump there is refused; the program
    /// counter itself is not moved.
    pub fn run_branch_delayed(&mut self, input: Option<u32>) -> (r: Result<Effect, CpuError>)
        requires
            old(self).wf(),
        ensures
            final(self).wf(),
            exec_matches(delay_slot_spec(old(self)@, input), old(self)@, final(self)@, r),
    {
        let address = self.pc.wrapping_add(4);
        let n = self.memory.word_count();
        if !(((address / 4) as usize) < n) {
            return Err(CpuError::OutOfBounds(address));
        }
        let word = self.memory.read(address);
        let instruction = get_instruction(word);
        if instruction.is_control_flow() {
            return Err(CpuError::DelaySlotControl);
        }
        instruction.execute_plain(self, input)
    }

    /// What one fetch-decode-execute step does.  A fetch outside the
    /// backing store is fatal; a zero word is skipped; otherwise the word
    /// is decoded and executed, and the program counter advances by four
    /// unless the instruction raised the jump flag, which this step then
    /// clears.  A step that asks for console input changes nothing.
    pub open spec fn step_spec(s: AbsState, input: Option<u32>) -> Result<
        (AbsState, EffectSpec),
        CpuError,
    > {
        if !(slot(s.pc) < s.mem.len()) {
            Err(CpuError::OutOfBounds(s.pc))
        } else {
            let w = s.mem[slot(s.pc)];
            if w == 0 {
                Ok((s.with_pc(wadd(s.pc, 4)), EffectSpec::Skip))
            } else {
                match spec_get_instruction(w).spec_step(s, input) {
                    Ok((s1, e)) => if e is NeedInput {
                        Ok((s, EffectSpec::NeedInput))
                    } else if s1.jump {
                        Ok((AbsState { jump: false, ..s1 }, e))
                    } else {
                        Ok((s1.with_pc(wadd(s1.pc, 4)), e))
                    },
                    Err(er) => Err(er),
                }
            }
        }
    }

    /// Run one fetch-decode-execute step.  The returned effect is the
    /// step's request to the caller; [`Effect::NeedInput`] asks the
    /// caller to read a console integer and run the step again with it.
    pub fn step(&mut self, input: Option<u32>) -> (r: Result<Effect, CpuError>)
        requires
            old(self).wf(),
        ensures
            final(self).wf(),
            exec_matches(Self::step_spec(old(self)@, input), old(self)@, final(self)@, r),
    {
        let n = self.memory.word_count();
        if !(((self.pc / 4) as usize) < n) {
            return Err(CpuError::OutOfBounds(self.pc));
        }
        let word = self.memory.read(self.pc);
        if word == 0 {
            let ghost s = self@;
            self.pc = self.pc.wrapping_add(4);
            proof {
                assert(self@ =~= s.with_pc(self.pc));
            }
            return Ok(Effect::Skip);
        }
        let instruction = get_instruction(word);
        let eff = match instruction.execute_with_input(self, input) {
            Ok(e) => e,
            Err(er) => {
                return Err(er);
            },
        };
        match eff {
            Effect::NeedInput => {
                proof {
                    lemma_step_need_input(spec_get_instruction(word), old(self)@, input);
                }
                return Ok(Effect::NeedInput);
            },
            _ => {},
        }
        let ghost s1 = self@;
        if self.jump {
            self.jump = false;
            proof {
                assert(self@ =~= (AbsState { jump: false, ..s1 }));
            }
        } else {
            self.pc = self.pc.wrapping_add(4);
            proof {
                assert(self@ =~= s1.with_pc(wadd(s1.pc, 4)));
            }
        }
        Ok(eff)
    }
}

} // verus!
