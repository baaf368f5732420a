//! The processor: its registers, and the execution engine that runs one
//! fetch-decode-execute cycle on them.

use vstd::prelude::*;
use crate::display::Display;
use crate::error::Error;
use crate::instruction::Instruction;
use crate::instruction::lemma_fields_recompose;
use crate::model::execute_spec;
use crate::model::fetch_spec;
use crate::model::fetchable;
use crate::model::machine;
use crate::model::step_spec;
use crate::model::CpuState;
use crate::model::PROGRAM_START;
use crate::model::REGISTER_COUNT;
use crate::model::STACK_CAPACITY;
use crate::ram::Ram;
use crate::ram::MEMORY_SIZE;

verus! {

/// What a trace shows of the processor after a cycle.
#[derive(Debug, Clone, Copy, PartialEq, Eq)]
pub struct CpuSnapshot {
    /// The program counter.
    pub pc: u16,
    /// The general-purpose registers.
    pub registers: [u8; REGISTER_COUNT],
    /// The index register.
    pub index: u16,
}

/// The processor state: sixteen 8-bit registers, the index register, the
/// program counter, and a call stack of fixed capacity.
pub struct Cpu {
    vx: [u8; REGISTER_COUNT],
    pc: u16,
    i: u16,
    prev_pc: u16,
    stack: [u16; STACK_CAPACITY],
    depth: usize,
}

impl View for Cpu {
    type V = CpuState;

    /// The stack is the part of the array below `depth`. The depth never
    /// exceeds the capacity; bounding it here as well lets the validity of
    /// the view be read off the view alone.
    closed spec fn view(&self) -> CpuState {
        CpuState {
            registers: self.vx@,
            index: self.i,
            pc: self.pc,
            prev_pc: self.prev_pc,
            stack: self.stack@.take(
                if self.depth <= STACK_CAPACITY {
                    self.depth as int
                } else {
                    STACK_CAPACITY as int
                },
            ),
        }
    }
}

impl Cpu {
    #[verifier::type_invariant]
    spec fn within_capacity(&self) -> bool {
        self.depth <= STACK_CAPACITY
    }

    /// The view of a processor is always valid.
    pub proof fn lemma_wf(&self)
        ensures
            self@.wf(),
    {
    }

    /// A processor at power-on.
    pub fn new() -> (cpu: Cpu)
        ensures
            cpu@ == CpuState::initial(),
    {
        let cpu = Cpu {
            vx: [0u8; REGISTER_COUNT],
            pc: PROGRAM_START,
            i: 0,
            prev_pc: 0,
            stack: [0u16; STACK_CAPACITY],
            depth: 0,
        };
        assert(cpu@.registers =~= CpuState::initial().registers);
        assert(cpu@.stack =~= CpuState::initial().stack);
        cpu
    }

    /// Fetches and decodes the instruction at the program counter, without
    /// running it.
    pub fn fetch(&self, ram: &Ram) -> (result: Result<Instruction, Error>)
        ensures
            result == fetch_spec(self@.pc, ram@),
    {
        proof {
            ram.lemma_size();
        }
        if self.pc as usize + 1 >= MEMORY_SIZE {
            return Err(Error::OutOfBounds);
        }
        let hi: u8 = ram.read_byte(self.pc)?;
        let lo: u8 = ram.read_byte(self.pc + 1)?;
        Ok(Instruction::decode(hi, lo))
    }

    /// Dispatches `ins`, which was fetched at the program counter. Either
    /// the whole effect takes place or, on an error, none of it.
    fn execute(&mut self, ins: Instruction, ram: &Ram, display: &mut Display) -> (result: Result<
        (),
        Error,
    >)
        requires
            fetchable(old(self)@.pc, MEMORY_SIZE as nat),
            ins == Instruction::of_word(ins.opcode),
        ensures
            match execute_spec(machine(old(self)@, ram@, old(display)@), ins) {
                Ok(m) => result is Ok && machine(final(self)@, ram@, final(display)@) == m,
                Err(e) => result == Err::<(), Error>(e) && final(self)@ == old(self)@ && final(display)@
                    == old(display)@,
            },
    {
        proof {
            use_type_invariant(&*self);
            lemma_fields_recompose(ins.opcode);
            ram.lemma_size();
            display.lemma_size();
        }
        let ghost before = machine(self@, ram@, display@);
        let x: usize = ins.x as usize;
        let y: usize = ins.y as usize;
        let at: u16 = self.pc;
        match ins.class {
            0x1 => {
                self.pc = ins.nnn;
            },
            0x2 => {
                if self.depth >= STACK_CAPACITY {
                    return Err(Error::StackOverflow);
                }
                self.stack[self.depth] = ins.nnn;
                self.depth = self.depth + 1;
                self.pc = ins.nnn;
                assert(self@.stack =~= before.cpu.stack.push(ins.nnn));
            },
            0x3 => {
                if self.vx[x] == ins.nn {
                    self.pc = self.pc + 4;
                } else {
                    self.pc = self.pc + 2;
                }
            },
            0x6 => {
                self.vx[x] = ins.nn;
                self.pc = self.pc + 2;
            },
            0x7 => {
                let sum: u8 = self.vx[x].wrapping_add(ins.nn);
                self.vx[x] = sum;
                self.pc = self.pc + 2;
            },
            0x8 => {
                if ins.n != 0 {
                    return Err(Error::UnknownInstruction { pc: at, opcode: ins.opcode });
                }
                let value: u8 = self.vx[y];
                self.vx[x] = value;
                self.pc = self.pc + 2;
            },
            0xA => {
                self.i = ins.nnn;
                self.pc = self.pc + 2;
            },
            0xD => {
                let sprite: &[u8] = ram.read_range(self.i, ins.n)?;
                display.draw_sprite(self.vx[x], self.vx[y], sprite);
                self.pc = self.pc + 2;
            },
            0xF => {
                let sum: u16 = self.i.wrapping_add(self.vx[x] as u16);
                self.i = sum;
                self.pc = self.pc + 2;
            },
            _ => {
                return Err(Error::UnknownInstruction { pc: at, opcode: ins.opcode });
            },
        }
        self.prev_pc = at;
        Ok(())
    }

    /// Runs one cycle: fetches the instruction at the program counter,
    /// refuses a program counter that the previous cycle did not move, and
    /// dispatches. On an error the processor, the memory and the display
    /// are all as they were; no instruction writes to the memory.
    pub fn run_instruction(&mut self, ram: &mut Ram, display: &mut Display) -> (result: Result<
        (),
        Error,
    >)
        ensures
            final(ram)@ == old(ram)@,
            match step_spec(machine(old(self)@, old(ram)@, old(display)@)) {
                Ok(m) => result is Ok && machine(final(self)@, final(ram)@, final(display)@) == m,
                Err(e) => result == Err::<(), Error>(e) && final(self)@ == old(self)@ && final(display)@
                    == old(display)@,
            },
    {
        proof {
            ram.lemma_size();
        }
        let ins: Instruction = self.fetch(ram)?;
        if self.prev_pc == self.pc {
            return Err(Error::ProgramCounterStalled);
        }
        self.execute(ins, ram, display)
    }

    /// The program counter, the registers and the index register as they
    /// stand now, for a trace.
    pub fn snapshot(&self) -> (shot: CpuSnapshot)
        ensures
            shot.pc == self@.pc,
            shot.index == self@.index,
            shot.registers@ == self@.registers,
    {
        CpuSnapshot { pc: self.pc, registers: self.vx, index: self.i }
    }

    /// The call stack, oldest entry first.
    pub fn call_stack(&self) -> (entries: Vec<u16>)
        ensures
            entries@ == self@.stack,
    {
        proof {
            use_type_invariant(self);
        }
        let mut entries: Vec<u16> = Vec::new();
        let mut k: usize = 0;
        while k < self.depth
            invariant
                k <= self.depth <= STACK_CAPACITY,
                entries@ == self.stack@.take(k as int),
            decreases self.depth - k,
        {
            entries.push(self.stack[k]);
            k += 1;
        }
        entries
    }

    /// Sets register `index` to `value`.
    pub fn write_reg_vx(&mut self, index: u8, value: u8)
        requires
            index < REGISTER_COUNT,
        ensures
            final(self)@ == (CpuState {
                registers: old(self)@.registers.update(index as int, value),
                ..old(self)@
            }),
    {
        proof {
            use_type_invariant(&*self);
        }
        self.vx[index as usize] = value;
    }

    /// The value of register `index`. The processor is left as it was.
    pub fn read_reg_vx(&mut self, index: u8) -> (value: u8)
        requires
            index < REGISTER_COUNT,
        ensures
            value == old(self)@.registers[index as int],
            final(self)@ == old(self)@,
    {
        self.vx[index as usize]
    }
}

} // verus!
