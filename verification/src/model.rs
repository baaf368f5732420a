//! The mathematical model of the machine and of one execution cycle.
//!
//! The executable types are viewed as the values declared here, and the
//! contracts of the engine are stated over the three functions at the end:
//! [`fetch_spec`], [`execute_spec`] and [`step_spec`].

use vstd::prelude::*;
use crate::display::draw_sprite_spec;
use crate::display::DISPLAY_CELLS;
use crate::error::Error;
use crate::instruction::Instruction;
use crate::ram::read_range_spec;
use crate::ram::MEMORY_SIZE;

verus! {

/// Address at which programs are loaded and at which execution starts.
pub const PROGRAM_START: u16 = 0x200;

/// Number of general-purpose registers.
pub const REGISTER_COUNT: usize = 16;

/// Most return addresses the call stack can hold.
pub const STACK_CAPACITY: usize = 16;

/// The processor's state as plain values.
pub struct CpuState {
    /// The general-purpose registers, sixteen of them.
    pub registers: Seq<u8>,
    /// The index register.
    pub index: u16,
    /// The program counter.
    pub pc: u16,
    /// The program counter with which the previous cycle began.
    pub prev_pc: u16,
    /// The call stack, oldest entry first.
    pub stack: Seq<u16>,
}

impl CpuState {
    /// Validity: sixteen registers, and a stack within its capacity.
    pub open spec fn wf(self) -> bool {
        &&& self.registers.len() == REGISTER_COUNT
        &&& self.stack.len() <= STACK_CAPACITY
    }

    /// The state at power-on: registers and index zero, the program
    /// counter at the origin, an empty stack.
    pub open spec fn initial() -> CpuState {
        CpuState {
            registers: Seq::new(REGISTER_COUNT as nat, |i: int| 0u8),
            index: 0,
            pc: PROGRAM_START,
            prev_pc: 0,
            stack: Seq::empty(),
        }
    }
}

/// The whole machine as plain values.
pub struct MachineState {
    /// The processor.
    pub cpu: CpuState,
    /// The memory, one byte per address.
    pub memory: Seq<u8>,
    /// The display, row by row.
    pub display: Seq<bool>,
}

impl MachineState {
    /// Validity: a valid processor, a full-size memory and display.
    pub open spec fn wf(self) -> bool {
        &&& self.cpu.wf()
        &&& self.memory.len() == MEMORY_SIZE
        &&& self.display.len() == DISPLAY_CELLS
    }

    /// The machine at power-on: memory zeroed, display blank.
    pub open spec fn initial() -> MachineState {
        MachineState {
            cpu: CpuState::initial(),
            memory: Seq::new(MEMORY_SIZE as nat, |a: int| 0u8),
            display: Seq::new(DISPLAY_CELLS as nat, |k: int| false),
        }
    }
}

/// The machine made of a processor, a memory and a display.
pub open spec fn machine(cpu: CpuState, memory: Seq<u8>, display: Seq<bool>) -> MachineState {
    MachineState { cpu, memory, display }
}

/// Whether the two bytes of an instruction at `pc` both lie in a memory of
/// `size` cells.
pub open spec fn fetchable(pc: u16, size: nat) -> bool {
    pc + 1 < size
}

/// The instruction that a fetch at `pc` yields: the two bytes there, high
/// byte first, decoded; `OutOfBounds` where either lies outside the memory.
pub open spec fn fetch_spec(pc: u16, memory: Seq<u8>) -> Result<Instruction, Error> {
    if fetchable(pc, memory.len()) {
        Ok(Instruction::decode_spec(memory[pc as int], memory[pc + 1]))
    } else {
        Err(Error::OutOfBounds)
    }
}

/// The sum of two 8-bit values modulo 256.
pub open spec fn add_mod_256(a: u8, b: u8) -> u8 {
    ((a + b) % 0x100) as u8
}

/// The sum of a 16-bit and an 8-bit value modulo 65536.
pub open spec fn add_mod_65536(a: u16, b: u8) -> u16 {
    ((a + b) % 0x1_0000) as u16
}

/// What dispatching `ins`, fetched at the program counter, makes of `m`.
///
/// Every handler records the program counter it was fetched at as
/// `prev_pc` and then moves the program counter: to the target for a jump
/// or a call, otherwise two bytes on, or four where a skip is taken.
///
/// | class | effect |
/// |-------|--------|
/// | `0x1` | jump to `nnn` |
/// | `0x2` | push `nnn`, jump to `nnn`; `StackOverflow` on a full stack |
/// | `0x3` | skip the next instruction if register `x` equals `nn` |
/// | `0x6` | register `x` becomes `nn` |
/// | `0x7` | register `x` becomes register `x` plus `nn`, modulo 256 |
/// | `0x8` | with `n == 0`, register `x` becomes register `y`; any other `n` is `UnknownInstruction` |
/// | `0xA` | the index register becomes `nnn` |
/// | `0xD` | the `n` bytes at the index register are drawn at (register `x`, register `y`); `OutOfBounds` where they leave the memory |
/// | `0xF` | the index register becomes itself plus register `x`, modulo 65536 |
/// | other | `UnknownInstruction` |
///
/// A call pushes its own target, not the address to return to. The set
/// has no return instruction, so nothing reads the stack back, and the
/// behaviour is kept as it is for compatibility; it is suspect all the
/// same, and a return instruction could not be added without pushing the
/// address after the call instead. Every word of class `0xF` adds to the
/// index register, whatever its low byte. Drawing sets no collision flag
/// and touches no register.
pub open spec fn execute_spec(m: MachineState, ins: Instruction) -> Result<MachineState, Error>
    recommends
        m.wf(),
        fetchable(m.cpu.pc, m.memory.len()),
        ins == Instruction::of_word(ins.opcode),
{
    let cpu = CpuState { prev_pc: m.cpu.pc, ..m.cpu };
    let next = (cpu.pc + 2) as u16;
    let vx = cpu.registers[ins.x as int];
    let vy = cpu.registers[ins.y as int];
    let unknown = Err::<MachineState, Error>(
        Error::UnknownInstruction { pc: cpu.pc, opcode: ins.opcode },
    );
    if ins.class == 0x1 {
        Ok(MachineState { cpu: CpuState { pc: ins.nnn, ..cpu }, ..m })
    } else if ins.class == 0x2 {
        if cpu.stack.len() >= STACK_CAPACITY {
            Err(Error::StackOverflow)
        } else {
            Ok(
                MachineState {
                    cpu: CpuState { pc: ins.nnn, stack: cpu.stack.push(ins.nnn), ..cpu },
                    ..m
                },
            )
        }
    } else if ins.class == 0x3 {
        let skipped = (cpu.pc + 4) as u16;
        Ok(MachineState { cpu: CpuState { pc: if vx == ins.nn { skipped } else { next }, ..cpu }, ..m })
    } else if ins.class == 0x6 {
        Ok(
            MachineState {
                cpu: CpuState {
                    pc: next,
                    registers: cpu.registers.update(ins.x as int, ins.nn),
                    ..cpu
                },
                ..m
            },
        )
    } else if ins.class == 0x7 {
        Ok(
            MachineState {
                cpu: CpuState {
                    pc: next,
                    registers: cpu.registers.update(ins.x as int, add_mod_256(vx, ins.nn)),
                    ..cpu
                },
                ..m
            },
        )
    } else if ins.class == 0x8 {
        if ins.n == 0 {
            Ok(
                MachineState {
                    cpu: CpuState {
                        pc: next,
                        registers: cpu.registers.update(ins.x as int, vy),
                        ..cpu
                    },
                    ..m
                },
            )
        } else {
            unknown
        }
    } else if ins.class == 0xA {
        Ok(MachineState { cpu: CpuState { pc: next, index: ins.nnn, ..cpu }, ..m })
    } else if ins.class == 0xD {
        match read_range_spec(m.memory, cpu.index as int, ins.n as int) {
            Ok(sprite) => Ok(
                MachineState {
                    cpu: CpuState { pc: next, ..cpu },
                    display: draw_sprite_spec(m.display, vx as int, vy as int, sprite),
                    ..m
                },
            ),
            Err(e) => Err(e),
        }
    } else if ins.class == 0xF {
        Ok(MachineState { cpu: CpuState { pc: next, index: add_mod_65536(cpu.index, vx), ..cpu }, ..m })
    } else {
        unknown
    }
}

/// What one cycle makes of `m`: fetch and decode at the program counter,
/// refuse a program counter that has not moved since the previous cycle
/// began, then dispatch.
pub open spec fn step_spec(m: MachineState) -> Result<MachineState, Error> {
    match fetch_spec(m.cpu.pc, m.memory) {
        Err(e) => Err(e),
        Ok(ins) => if m.cpu.prev_pc == m.cpu.pc {
            Err(Error::ProgramCounterStalled)
        } else {
            execute_spec(m, ins)
        },
    }
}

} // verus!
