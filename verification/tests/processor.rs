use chip8::Cpu;
use chip8::CpuSnapshot;
use chip8::Display;
use chip8::Error;
use chip8::Instruction;
use chip8::Ram;

fn memory_with(program: &[u8]) -> Ram {
    let mut ram = Ram::new();
    for (offset, byte) in program.iter().enumerate() {
        assert_eq!(ram.write_byte(0x200 + offset as u16, *byte), Ok(()));
    }
    ram
}

#[test]
fn new_processor_is_at_power_on() {
    let cpu = Cpu::new();
    assert_eq!(
        cpu.snapshot(),
        CpuSnapshot { pc: 0x200, registers: [0; 16], index: 0 }
    );
    assert_eq!(cpu.call_stack(), Vec::<u16>::new());
}

#[test]
fn register_read_returns_what_was_written() {
    let mut cpu = Cpu::new();
    for index in 0..16u8 {
        cpu.write_reg_vx(index, 0xF0 | index);
    }
    for index in 0..16u8 {
        assert_eq!(cpu.read_reg_vx(index), 0xF0 | index);
    }
    cpu.write_reg_vx(7, 0x00);
    assert_eq!(cpu.read_reg_vx(7), 0x00);
    assert_eq!(cpu.read_reg_vx(6), 0xF6);
    assert_eq!(cpu.read_reg_vx(8), 0xF8);
}

#[test]
fn register_write_changes_nothing_else() {
    let mut cpu = Cpu::new();
    cpu.write_reg_vx(3, 0x42);
    let mut registers = [0u8; 16];
    registers[3] = 0x42;
    assert_eq!(
        cpu.snapshot(),
        CpuSnapshot { pc: 0x200, registers, index: 0 }
    );
    assert_eq!(cpu.call_stack(), Vec::<u16>::new());
}

#[test]
fn register_read_leaves_the_processor_alone() {
    let mut cpu = Cpu::new();
    cpu.write_reg_vx(9, 0x99);
    let before = cpu.snapshot();
    assert_eq!(cpu.read_reg_vx(9), 0x99);
    assert_eq!(cpu.snapshot(), before);
}

#[test]
fn fetch_decodes_the_word_at_the_program_counter() {
    let ram = memory_with(&[0xD1, 0x25]);
    let cpu = Cpu::new();
    assert_eq!(cpu.fetch(&ram), Ok(Instruction::decode(0xD1, 0x25)));
    assert_eq!(cpu.fetch(&ram).unwrap().opcode, 0xD125);
    assert_eq!(cpu.snapshot().pc, 0x200);
}

#[test]
fn fetch_beyond_memory_is_out_of_bounds() {
    let ram = memory_with(&[0x1F, 0xFF]);
    let mut ram_for_cycle = memory_with(&[0x1F, 0xFF]);
    let mut display = Display::new();
    let mut cpu = Cpu::new();
    assert_eq!(cpu.run_instruction(&mut ram_for_cycle, &mut display), Ok(()));
    assert_eq!(cpu.fetch(&ram), Err(Error::OutOfBounds));
}

#[test]
fn skip_compares_with_a_register_set_from_outside() {
    let mut ram = memory_with(&[0x3A, 0x05]);
    let mut display = Display::new();
    let mut cpu = Cpu::new();
    cpu.write_reg_vx(0xA, 5);
    assert_eq!(cpu.run_instruction(&mut ram, &mut display), Ok(()));
    assert_eq!(cpu.snapshot().pc, 0x204);

    let mut ram = memory_with(&[0x3A, 0x06]);
    let mut cpu = Cpu::new();
    cpu.write_reg_vx(0xA, 5);
    assert_eq!(cpu.run_instruction(&mut ram, &mut display), Ok(()));
    assert_eq!(cpu.snapshot().pc, 0x202);
}

#[test]
fn add_immediate_wraps_on_a_register_set_from_outside() {
    let mut ram = memory_with(&[0x7E, 0x01]);
    let mut display = Display::new();
    let mut cpu = Cpu::new();
    cpu.write_reg_vx(0xE, 0xFF);
    assert_eq!(cpu.run_instruction(&mut ram, &mut display), Ok(()));
    assert_eq!(cpu.read_reg_vx(0xE), 0x00);
    assert_eq!(cpu.snapshot().pc, 0x202);
}

#[test]
fn cycle_draws_on_the_display_it_is_given() {
    let mut ram = memory_with(&[0xA2, 0x04, 0xD0, 0x11, 0xC0]);
    let mut first = Display::new();
    let mut second = Display::new();
    let mut cpu = Cpu::new();
    cpu.write_reg_vx(0, 62);
    cpu.write_reg_vx(1, 31);
    assert_eq!(cpu.run_instruction(&mut ram, &mut first), Ok(()));
    assert_eq!(cpu.run_instruction(&mut ram, &mut second), Ok(()));
    assert_eq!(first.pixel(62, 31), Some(false));
    assert_eq!(second.pixel(62, 31), Some(true));
    assert_eq!(second.pixel(63, 31), Some(true));
    assert_eq!(second.pixel(61, 31), Some(false));
    assert_eq!(second.pixel(0, 31), Some(false));
}

#[test]
fn cycle_leaves_the_memory_as_it_was() {
    let program = [0x60, 0x05, 0x70, 0x03, 0xA2, 0x00, 0xD0, 0x02, 0x22, 0x0C, 0x00, 0x00, 0xF0, 0x1E];
    let mut ram = memory_with(&program);
    let mut display = Display::new();
    let mut cpu = Cpu::new();
    for _ in 0..6 {
        assert_eq!(cpu.run_instruction(&mut ram, &mut display), Ok(()));
    }
    let untouched = memory_with(&program);
    for addr in 0..0x1000u16 {
        assert_eq!(ram.read_byte(addr), untouched.read_byte(addr));
    }
    assert_eq!(cpu.snapshot().index, 0x208);
    assert_eq!(cpu.call_stack(), vec![0x20C]);
}

#[test]
fn errors_compare_by_kind_and_payload() {
    assert_eq!(Error::OutOfBounds, Error::OutOfBounds);
    assert_ne!(Error::OutOfBounds, Error::ProgramTooLarge);
    assert_ne!(Error::StackOverflow, Error::ProgramCounterStalled);
    assert_eq!(
        Error::UnknownInstruction { pc: 0x200, opcode: 0x0000 },
        Error::UnknownInstruction { pc: 0x200, opcode: 0x0000 }
    );
    assert_ne!(
        Error::UnknownInstruction { pc: 0x200, opcode: 0x0000 },
        Error::UnknownInstruction { pc: 0x202, opcode: 0x0000 }
    );
    assert_ne!(
        Error::UnknownInstruction { pc: 0x200, opcode: 0x0000 },
        Error::UnknownInstruction { pc: 0x200, opcode: 0x5000 }
    );
    assert_eq!(
        format!("{:?}", Error::UnknownInstruction { pc: 0x200, opcode: 0x5000 }),
        "UnknownInstruction { pc: 512, opcode: 20480 }"
    );
}
