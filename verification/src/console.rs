//! The order in which the parts of the console are advanced: first the
//! picture unit, then the processor, so that an instruction sees the
//! vertical-blank flag as the picture unit has just left it.

use vstd::prelude::*;
use crate::cpu::{Anomaly, Cpu};
use crate::memory::{byte_at, lemma_memory_len, Memory};
use crate::opcodes::decode_spec;
use crate::ppu::{run, Ppu};
use crate::semantics::step;

verus! {

broadcast use lemma_memory_len;

/// Dots that the picture unit advances for each instruction of the
/// processor in the driving loop.
pub const DOTS_PER_INSTRUCTION: u32 = 1;

/// One turn of the driving loop: the picture unit advances by `dots` dots,
/// then the processor runs the instruction at its program counter on the
/// bus as the picture unit left it. A byte that is no opcode is reported;
/// the picture unit has advanced all the same.
pub fn run_iteration(cpu: &mut Cpu, ppu: &mut Ppu, memory: &mut Memory, dots: u32) -> (outcome:
    Result<(), Anomaly>)
    ensures
        ({
            let (timing, lit) = run(old(ppu).timing(), old(memory)@, dots as nat);
            &&& final(ppu).timing() == timing
            &&& final(ppu).pattern() == old(ppu).pattern()
            &&& (*final(cpu), final(memory)@) == step(*old(cpu), lit)
            &&& outcome is Ok <==> decode_spec(byte_at(lit, old(cpu).pc)) is Some
            &&& outcome matches Err(anomaly) ==> anomaly.pc == old(cpu).pc && anomaly.opcode
                == byte_at(lit, old(cpu).pc)
        }),
{
    let ghost timing = ppu.timing();
    let ghost bus = memory@;
    let ghost pattern = ppu.pattern();
    let mut done: u32 = 0;
    while done < dots
        invariant
            done <= dots,
            (ppu.timing(), memory@) == run(timing, bus, done as nat),
            ppu.pattern() == pattern,
        decreases dots - done,
    {
        ppu.step(memory);
        done += 1;
    }
    cpu.step(memory)
}

} // verus!
