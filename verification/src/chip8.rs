//! The machine: memory, processor and display under one roof.

use vstd::prelude::*;
use crate::cpu::Cpu;
use crate::display::Display;
use crate::error::Error;
use crate::model::machine;
use crate::model::step_spec;
use crate::model::MachineState;
use crate::model::PROGRAM_START;
use crate::ram::read_spec;
use crate::ram::Ram;
use crate::ram::MEMORY_SIZE;

verus! {

/// What loading `program` makes of `memory`: byte `i` of the program
/// stands at address `PROGRAM_START + i`, every other cell keeps its
/// value; `ProgramTooLarge` where the program would run past the end.
pub open spec fn load_spec(memory: Seq<u8>, program: Seq<u8>) -> Result<Seq<u8>, Error> {
    if PROGRAM_START + program.len() > memory.len() {
        Err(Error::ProgramTooLarge)
    } else {
        Ok(
            Seq::new(
                memory.len(),
                |a: int|
                    if PROGRAM_START <= a < PROGRAM_START + program.len() {
                        program[a - PROGRAM_START]
                    } else {
                        memory[a]
                    },
            ),
        )
    }
}

/// A program of `n` bytes that fits is loaded with byte `i` at address
/// `PROGRAM_START + i` for every `i` below `n`, and every address outside
/// the program reads as before; a program that would run past the end of
/// the memory is refused with `ProgramTooLarge`, and no other is.
pub proof fn lemma_load_places_program(memory: Seq<u8>, program: Seq<u8>)
    requires
        memory.len() == MEMORY_SIZE,
    ensures
        PROGRAM_START + program.len() <= MEMORY_SIZE ==> (load_spec(memory, program) matches Ok(
            loaded,
        ) && {
            &&& loaded.len() == MEMORY_SIZE
            &&& forall|i: int|
                0 <= i < program.len() ==> read_spec(loaded, PROGRAM_START + i) == Ok::<u8, Error>(
                    #[trigger] program[i],
                )
            &&& forall|a: int|
                !(PROGRAM_START <= a < PROGRAM_START + program.len()) ==> #[trigger] read_spec(
                    loaded,
                    a,
                ) == read_spec(memory, a)
        }),
        PROGRAM_START + program.len() > MEMORY_SIZE <==> load_spec(memory, program) == Err::<
            Seq<u8>,
            Error,
        >(Error::ProgramTooLarge),
{
}

/// A complete machine.
pub struct Chip8 {
    ram: Ram,
    cpu: Cpu,
    display: Display,
}

impl View for Chip8 {
    type V = MachineState;

    closed spec fn view(&self) -> MachineState {
        machine(self.cpu@, self.ram@, self.display@)
    }
}

impl Chip8 {
    /// The view of a machine is always valid.
    pub proof fn lemma_wf(&self)
        ensures
            self@.wf(),
    {
        self.cpu.lemma_wf();
        self.ram.lemma_size();
        self.display.lemma_size();
    }

    /// A machine at power-on.
    pub fn new() -> (chip8: Chip8)
        ensures
            chip8@ == MachineState::initial(),
    {
        let chip8 = Chip8 { ram: Ram::new(), cpu: Cpu::new(), display: Display::new() };
        assert(chip8@.memory =~= MachineState::initial().memory);
        assert(chip8@.display =~= MachineState::initial().display);
        chip8
    }

    /// Copies `data` into the memory from the origin on. A program that
    /// does not fit is refused and the memory is left as it was.
    pub fn load_rom(&mut self, data: &Vec<u8>) -> (result: Result<(), Error>)
        ensures
            final(self)@.cpu == old(self)@.cpu,
            final(self)@.display == old(self)@.display,
            match load_spec(old(self)@.memory, data@) {
                Ok(memory) => result is Ok && final(self)@.memory == memory,
                Err(e) => result == Err::<(), Error>(e) && final(self)@ == old(self)@,
            },
    {
        proof {
            self.ram.lemma_size();
        }
        if data.len() > MEMORY_SIZE - PROGRAM_START as usize {
            return Err(Error::ProgramTooLarge);
        }
        let mut i: usize = 0;
        while i < data.len()
            invariant
                i <= data.len() <= MEMORY_SIZE - PROGRAM_START,
                self.cpu == old(self).cpu,
                self.display == old(self).display,
                self.ram@.len() == MEMORY_SIZE,
                forall|a: int|
                    0 <= a < MEMORY_SIZE ==> self.ram@[a] == if PROGRAM_START <= a < PROGRAM_START
                        + i {
                        data@[a - PROGRAM_START]
                    } else {
                        old(self).ram@[a]
                    },
            decreases data.len() - i,
        {
            let addr: u16 = PROGRAM_START + i as u16;
            self.ram.write_byte(addr, data[i])?;
            i += 1;
        }
        Ok(())
    }

    /// Runs one cycle. On an error the machine is as it was.
    pub fn run_instruction(&mut self) -> (result: Result<(), Error>)
        ensures
            match step_spec(old(self)@) {
                Ok(m) => result is Ok && final(self)@ == m,
                Err(e) => result == Err::<(), Error>(e) && final(self)@ == old(self)@,
            },
    {
        self.cpu.run_instruction(&mut self.ram, &mut self.display)
    }

    /// The processor.
    pub fn cpu(&self) -> (cpu: &Cpu)
        ensures
            cpu@ == self@.cpu,
    {
        &self.cpu
    }

    /// The memory.
    pub fn ram(&self) -> (ram: &Ram)
        ensures
            ram@ == self@.memory,
    {
        &self.ram
    }

    /// The display.
    pub fn display(&self) -> (display: &Display)
        ensures
            display@ == self@.display,
    {
        &self.display
    }
}

} // verus!
