//! What an execution step asks of its surroundings, and how it can fail.
//!
//! The library performs no console I/O itself.  Executing an instruction
//! returns an [`Effect`]: the request that the caller (the program's run
//! loop) carries out before the next step.  Fatal conditions are reported
//! as a [`CpuError`].

use vstd::prelude::*;

use crate::cpu::AbsState;

verus! {

/// How an executed step relates to its mathematical description: on
/// success the state and effect are exactly the described ones; on an
/// error the described error comes back and the state is untouched.
pub open spec fn exec_matches(
    described: Result<(AbsState, EffectSpec), CpuError>,
    old_s: AbsState,
    new_s: AbsState,
    r: Result<Effect, CpuError>,
) -> bool {
    match r {
        Ok(e) => described == Ok::<(AbsState, EffectSpec), CpuError>((new_s, e@)),
        Err(e) => described == Err::<(AbsState, EffectSpec), CpuError>(e) && new_s == old_s,
    }
}

/// The request an execution step hands back to its caller.
#[derive(Debug)]
pub enum Effect {
    /// The instruction ran and asks for no I/O.
    Nothing,
    /// The word at the program counter was zero and was skipped.
    Skip,
    /// Print the value as a decimal integer.
    PrintInt(u32),
    /// Print the string.
    PrintStr(String),
    /// Print the single byte as a character.
    PrintChar(u8),
    /// The instruction reads an integer from the console: read one, and
    /// run the step again with it.  The CPU state was not changed.
    NeedInput,
    /// Terminate the simulated program with success.
    Exit,
}

/// The mathematical reading of an [`Effect`]: the printed string is a
/// sequence of characters.
pub ghost enum EffectSpec {
    Nothing,
    Skip,
    PrintInt(u32),
    PrintStr(Seq<char>),
    PrintChar(u8),
    NeedInput,
    Exit,
}

impl View for Effect {
    type V = EffectSpec;

    open spec fn view(&self) -> EffectSpec {
        match self {
            Effect::Nothing => EffectSpec::Nothing,
            Effect::Skip => EffectSpec::Skip,
            Effect::PrintInt(v) => EffectSpec::PrintInt(*v),
            Effect::PrintStr(s) => EffectSpec::PrintStr(s@),
            Effect::PrintChar(b) => EffectSpec::PrintChar(*b),
            Effect::NeedInput => EffectSpec::NeedInput,
            Effect::Exit => EffectSpec::Exit,
        }
    }
}

/// A fatal condition: the simulated program cannot go on.
#[derive(Debug, Clone, Copy, PartialEq, Eq, Structural)]
pub enum CpuError {
    /// A fetch, load or store named an address outside the backing store.
    OutOfBounds(u32),
    /// An unrecognized operation code reached execution.
    Illegal(u8),
    /// The instruction in a branch delay slot was itself a branch or jump.
    DelaySlotControl,
}

} // verus!
