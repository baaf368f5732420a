use chip8::ram::MEMORY_SIZE;
use chip8::Error;
use chip8::Ram;

#[test]
fn new_memory_is_zero_filled() {
    let ram = Ram::new();
    for addr in 0..MEMORY_SIZE {
        assert_eq!(ram.read_byte(addr as u16), Ok(0));
    }
}

#[test]
fn read_returns_what_was_written() {
    let mut ram = Ram::new();
    for addr in [0x000u16, 0x001, 0x1FF, 0x200, 0x7AB, 0xFFE, 0xFFF] {
        for value in [0x00u8, 0x01, 0x7F, 0x80, 0xFF] {
            assert_eq!(ram.write_byte(addr, value), Ok(()));
            assert_eq!(ram.read_byte(addr), Ok(value));
        }
    }
}

#[test]
fn read_returns_what_was_written_at_every_address() {
    let mut ram = Ram::new();
    for addr in 0..MEMORY_SIZE {
        let value = (addr % 251) as u8 + 1;
        assert_eq!(ram.write_byte(addr as u16, value), Ok(()));
        assert_eq!(ram.read_byte(addr as u16), Ok(value));
    }
    for addr in 0..MEMORY_SIZE {
        assert_eq!(ram.read_byte(addr as u16), Ok((addr % 251) as u8 + 1));
    }
}

#[test]
fn write_changes_one_cell_only() {
    let mut ram = Ram::new();
    assert_eq!(ram.write_byte(0x300, 0xAB), Ok(()));
    for addr in 0..MEMORY_SIZE {
        let expected = if addr == 0x300 { 0xAB } else { 0x00 };
        assert_eq!(ram.read_byte(addr as u16), Ok(expected));
    }
}

#[test]
fn read_outside_memory_is_out_of_bounds() {
    let ram = Ram::new();
    assert_eq!(ram.read_byte(0x0FFF), Ok(0));
    assert_eq!(ram.read_byte(0x1000), Err(Error::OutOfBounds));
    assert_eq!(ram.read_byte(0x1001), Err(Error::OutOfBounds));
    assert_eq!(ram.read_byte(0xFFFF), Err(Error::OutOfBounds));
}

#[test]
fn write_outside_memory_is_out_of_bounds_and_changes_nothing() {
    let mut ram = Ram::new();
    assert_eq!(ram.write_byte(0x1000, 0x55), Err(Error::OutOfBounds));
    assert_eq!(ram.write_byte(0xFFFF, 0x55), Err(Error::OutOfBounds));
    for addr in 0..MEMORY_SIZE {
        assert_eq!(ram.read_byte(addr as u16), Ok(0));
    }
}

#[test]
fn read_range_borrows_the_bytes_in_order() {
    let mut ram = Ram::new();
    for (offset, value) in [0x11u8, 0x22, 0x33, 0x44].iter().enumerate() {
        assert_eq!(ram.write_byte(0x400 + offset as u16, *value), Ok(()));
    }
    assert_eq!(ram.read_range(0x400, 4), Ok(&[0x11u8, 0x22, 0x33, 0x44][..]));
    assert_eq!(ram.read_range(0x401, 2), Ok(&[0x22u8, 0x33][..]));
    assert_eq!(ram.read_range(0x3FF, 3), Ok(&[0x00u8, 0x11, 0x22][..]));
}

#[test]
fn read_range_may_end_with_the_last_cell() {
    let mut ram = Ram::new();
    assert_eq!(ram.write_byte(0xFFF, 0x9C), Ok(()));
    assert_eq!(ram.read_range(0xFFE, 2), Ok(&[0x00u8, 0x9C][..]));
    assert_eq!(ram.read_range(0xF01, 255), Ok(&{
        let mut tail = [0u8; 255];
        tail[254] = 0x9C;
        tail
    }[..]));
}

#[test]
fn read_range_past_the_end_is_out_of_bounds() {
    let ram = Ram::new();
    assert_eq!(ram.read_range(0xFFF, 2), Err(Error::OutOfBounds));
    assert_eq!(ram.read_range(0xF02, 255), Err(Error::OutOfBounds));
    assert_eq!(ram.read_range(0x1000, 1), Err(Error::OutOfBounds));
    assert_eq!(ram.read_range(0xFFFF, 15), Err(Error::OutOfBounds));
}

#[test]
fn empty_read_range_reads_nothing_anywhere() {
    let ram = Ram::new();
    let empty: &[u8] = &[];
    assert_eq!(ram.read_range(0x000, 0), Ok(empty));
    assert_eq!(ram.read_range(0x1000, 0), Ok(empty));
    assert_eq!(ram.read_range(0xFFFF, 0), Ok(empty));
}
