//! What holds of every cycle, proved from the model.

use vstd::prelude::*;
use crate::error::Error;
use crate::instruction::Instruction;
use crate::instruction::lemma_fields_recompose;
use crate::model::add_mod_256;
use crate::model::execute_spec;
use crate::model::fetch_spec;
use crate::model::fetchable;
use crate::model::step_spec;
use crate::model::CpuState;
use crate::model::MachineState;

verus! {

/// Whether the engine has a handler for opcode class `class`.
pub open spec fn implemented_class(class: u8) -> bool {
    class == 0x1 || class == 0x2 || class == 0x3 || class == 0x6 || class == 0x7 || class == 0x8
        || class == 0xA || class == 0xD || class == 0xF
}

/// The instruction that the cycle beginning in `m` dispatches, where it
/// gets as far as dispatching.
pub open spec fn dispatched(m: MachineState, ins: Instruction) -> bool {
    &&& m.wf()
    &&& fetch_spec(m.cpu.pc, m.memory) == Ok::<Instruction, Error>(ins)
    &&& m.cpu.prev_pc != m.cpu.pc
}

/// A fetched instruction is the decoding of its own word, so its register
/// operands name registers that exist.
pub proof fn lemma_fetched_is_decoded(pc: u16, memory: Seq<u8>)
    ensures
        fetch_spec(pc, memory) matches Ok(ins) ==> ins == Instruction::of_word(ins.opcode) && ins.x
            < 16 && ins.y < 16 && ins.class < 16,
{
    if let Ok(ins) = fetch_spec(pc, memory) {
        lemma_fields_recompose(ins.opcode);
    }
}

/// A cycle leaves a valid machine valid and never writes to the memory;
/// it records the program counter it began with.
pub proof fn lemma_step_preserves_validity(m: MachineState)
    requires
        m.wf(),
    ensures
        step_spec(m) matches Ok(n) ==> n.wf() && n.memory == m.memory && n.cpu.prev_pc == m.cpu.pc,
{
    lemma_fetched_is_decoded(m.cpu.pc, m.memory);
}

/// After a jump to `nnn` the program counter is `nnn` itself, so the next
/// fetch reads the two bytes at `nnn`; nothing else changes.
pub proof fn lemma_jump_sets_pc(m: MachineState, ins: Instruction)
    requires
        dispatched(m, ins),
        ins.class == 0x1,
    ensures
        step_spec(m) == Ok::<MachineState, Error>(
            MachineState { cpu: CpuState { pc: ins.nnn, prev_pc: m.cpu.pc, ..m.cpu }, ..m },
        ),
        step_spec(m) matches Ok(n) && fetch_spec(n.cpu.pc, n.memory) == fetch_spec(
            ins.nnn,
            m.memory,
        ),
{
}

/// Adding an immediate never fails: register `x` becomes the sum modulo
/// 256, the program counter moves two bytes on, nothing else changes.
pub proof fn lemma_add_immediate_wraps(m: MachineState, ins: Instruction)
    requires
        dispatched(m, ins),
        ins.class == 0x7,
    ensures
        step_spec(m) matches Ok(n) && {
            &&& n.cpu.registers == m.cpu.registers.update(
                ins.x as int,
                add_mod_256(m.cpu.registers[ins.x as int], ins.nn),
            )
            &&& n.cpu.registers[ins.x as int] == (m.cpu.registers[ins.x as int] + ins.nn) % 256
            &&& n.cpu.pc == m.cpu.pc + 2
            &&& n.cpu.index == m.cpu.index
            &&& n.cpu.stack == m.cpu.stack
            &&& n.display == m.display
        },
{
    lemma_fetched_is_decoded(m.cpu.pc, m.memory);
}

/// A skip-if-equal moves the program counter four bytes on where register
/// `x` holds `nn` and two bytes on where it does not; nothing else changes.
pub proof fn lemma_skip_if_equal(m: MachineState, ins: Instruction)
    requires
        dispatched(m, ins),
        ins.class == 0x3,
    ensures
        step_spec(m) matches Ok(n) && {
            &&& n.cpu.pc == m.cpu.pc + if m.cpu.registers[ins.x as int] == ins.nn {
                4int
            } else {
                2int
            }
            &&& n == MachineState { cpu: CpuState { pc: n.cpu.pc, prev_pc: m.cpu.pc, ..m.cpu }, ..m }
        },
{
}

/// Dispatching a word whose class has no handler fails with
/// `UnknownInstruction`, which carries the program counter and the word.
pub proof fn lemma_unimplemented_class_is_rejected(m: MachineState, ins: Instruction)
    requires
        !implemented_class(ins.class),
    ensures
        execute_spec(m, ins) == Err::<MachineState, Error>(
            Error::UnknownInstruction { pc: m.cpu.pc, opcode: ins.opcode },
        ),
        dispatched(m, ins) ==> step_spec(m) == execute_spec(m, ins),
{
}

/// A program counter that has not moved since the previous cycle began is
/// refused, whatever instruction stands there.
pub proof fn lemma_stalled_counter_is_rejected(m: MachineState)
    requires
        fetchable(m.cpu.pc, m.memory.len()),
        m.cpu.prev_pc == m.cpu.pc,
    ensures
        step_spec(m) == Err::<MachineState, Error>(Error::ProgramCounterStalled),
{
}

/// If a cycle succeeds without moving the program counter, the cycle after
/// it is refused with `ProgramCounterStalled`.
pub proof fn lemma_unmoved_counter_stops_next_cycle(m: MachineState)
    requires
        m.wf(),
    ensures
        step_spec(m) matches Ok(n) ==> (n.cpu.pc == m.cpu.pc ==> step_spec(n) == Err::<
            MachineState,
            Error,
        >(Error::ProgramCounterStalled)),
{
    lemma_step_preserves_validity(m);
}

/// A cycle that succeeds on an instruction other than a jump or a call
/// moves the program counter two bytes on, or four for a skip that is
/// taken, and the counter stays a 16-bit value without wrapping.
pub proof fn lemma_counter_advances(m: MachineState, ins: Instruction)
    requires
        dispatched(m, ins),
        ins.class != 0x1,
        ins.class != 0x2,
    ensures
        step_spec(m) matches Ok(n) ==> n.cpu.pc == m.cpu.pc + 2 || (ins.class == 0x3
            && m.cpu.registers[ins.x as int] == ins.nn && n.cpu.pc == m.cpu.pc + 4),
{
}

/// A cycle keeps an even program counter even, unless it jumps or calls to
/// an odd address: fetches stay aligned on two bytes for as long as the
/// program's own targets are.
pub proof fn lemma_alignment_is_kept(m: MachineState, ins: Instruction)
    requires
        dispatched(m, ins),
        m.cpu.pc % 2 == 0,
        (ins.class == 0x1 || ins.class == 0x2) ==> ins.nnn % 2 == 0,
    ensures
        step_spec(m) matches Ok(n) ==> n.cpu.pc % 2 == 0,
{
}

} // verus!
