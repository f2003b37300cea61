use x86_emulator::bytes::{dword_from_le, low_byte, sign_extend_byte, sign_extend_dword};
use x86_emulator::emulator::{Emulator, Register, REGISTERS_COUNT};
use x86_emulator::fault::Fault;

#[test]
fn new_zeroes_everything_but_the_stack_pointer() {
    let emu = Emulator::new(64, 0x10, 0x7c00);
    assert_eq!(emu.registers, [0, 0, 0, 0, 0x7c00, 0, 0, 0]);
    assert_eq!(emu.registers[Register::ESP.index()], 0x7c00);
    assert_eq!(emu.eflags, 0);
    assert_eq!(emu.memory, vec![0u8; 64]);
    assert_eq!(emu.eip, 0x10);
}

#[test]
fn new_with_no_memory() {
    let emu = Emulator::new(0, 0, 0);
    assert_eq!(emu.memory.len(), 0);
    assert_eq!(emu.registers, [0; 8]);
}

#[test]
fn register_numbers_follow_the_encoding() {
    assert_eq!(REGISTERS_COUNT, 8);
    assert_eq!(Register::EAX.index(), 0);
    assert_eq!(Register::ECX.index(), 1);
    assert_eq!(Register::EDX.index(), 2);
    assert_eq!(Register::EBX.index(), 3);
    assert_eq!(Register::ESP.index(), 4);
    assert_eq!(Register::EBP.index(), 5);
    assert_eq!(Register::ESI.index(), 6);
    assert_eq!(Register::EDI.index(), 7);
}

#[test]
fn load_overlays_the_image() {
    let mut emu = Emulator::new(8, 0, 0);
    assert_eq!(emu.load(2, &[1, 2, 3]), Ok(()));
    assert_eq!(emu.memory, vec![0, 0, 1, 2, 3, 0, 0, 0]);
    assert_eq!(emu.load(5, &[9, 9, 9]), Ok(()));
    assert_eq!(emu.memory, vec![0, 0, 1, 2, 3, 9, 9, 9]);
    assert_eq!(emu.load(8, &[]), Ok(()));
    assert_eq!(emu.memory, vec![0, 0, 1, 2, 3, 9, 9, 9]);
}

#[test]
fn load_that_does_not_fit_writes_nothing() {
    let mut emu = Emulator::new(8, 0, 0);
    let before = emu.clone();
    assert_eq!(emu.load(6, &[1, 2, 3]), Err(Fault::Bounds));
    assert_eq!(emu, before);
    assert_eq!(emu.load(9, &[]), Err(Fault::Bounds));
    assert_eq!(emu.load(usize::MAX, &[1, 2]), Err(Fault::Bounds));
    assert_eq!(emu, before);
}

#[test]
fn fetch_byte_is_relative_to_the_instruction_pointer() {
    let mut emu = Emulator::new(4, 1, 0);
    assert_eq!(emu.load(0, &[0x10, 0x7F, 0x80, 0xFF]), Ok(()));
    assert_eq!(emu.get_code8(0), Ok(0x7F));
    assert_eq!(emu.get_code8(1), Ok(0x80));
    assert_eq!(emu.get_code8(2), Ok(0xFF));
    assert_eq!(emu.get_code8(3), Err(Fault::Bounds));
    assert_eq!(emu.get_code8(usize::MAX), Err(Fault::Bounds));
}

#[test]
fn fetch_signed_byte_sign_extends() {
    let mut emu = Emulator::new(4, 0, 0);
    assert_eq!(emu.load(0, &[0x00, 0x7F, 0x80, 0xFF]), Ok(()));
    assert_eq!(emu.get_sign_code8(0), Ok(0));
    assert_eq!(emu.get_sign_code8(1), Ok(127));
    assert_eq!(emu.get_sign_code8(2), Ok(-128));
    assert_eq!(emu.get_sign_code8(3), Ok(-1));
    assert_eq!(emu.get_sign_code8(4), Err(Fault::Bounds));
}

#[test]
fn fetch_dword_is_little_endian() {
    let mut emu = Emulator::new(6, 1, 0);
    assert_eq!(emu.load(0, &[0xAA, 0x78, 0x56, 0x34, 0x12, 0xFF]), Ok(()));
    assert_eq!(emu.get_code32(0), Ok(0x1234_5678));
    assert_eq!(emu.get_code32(1), Ok(0xFF12_3456));
    assert_eq!(emu.get_code32(2), Err(Fault::Bounds));
    assert_eq!(emu.get_code32(usize::MAX), Err(Fault::Bounds));
    assert_eq!(emu.get_code32(usize::MAX - 2), Err(Fault::Bounds));
}

#[test]
fn fetch_signed_dword_reinterprets() {
    let mut emu = Emulator::new(8, 0, 0);
    assert_eq!(
        emu.load(0, &[0xFE, 0xFF, 0xFF, 0xFF, 0xFF, 0xFF, 0xFF, 0x7F]),
        Ok(())
    );
    assert_eq!(emu.get_sign_code32(0), Ok(-2));
    assert_eq!(emu.get_sign_code32(4), Ok(i32::MAX));
    assert_eq!(emu.get_sign_code32(3), Ok(-1));
    assert_eq!(emu.get_sign_code32(5), Err(Fault::Bounds));
    assert_eq!(emu.load(4, &[0x00, 0x00, 0x00, 0x80]), Ok(()));
    assert_eq!(emu.get_sign_code32(4), Ok(i32::MIN));
}

#[test]
fn fetch_with_the_pointer_outside_memory() {
    let mut emu = Emulator::new(4, 4, 0);
    assert_eq!(emu.get_code8(0), Err(Fault::Bounds));
    assert_eq!(emu.get_sign_code8(0), Err(Fault::Bounds));
    assert_eq!(emu.get_code32(0), Err(Fault::Bounds));
    emu.eip = usize::MAX;
    assert_eq!(emu.get_code8(1), Err(Fault::Bounds));
    assert_eq!(emu.get_code32(1), Err(Fault::Bounds));
    assert_eq!(emu.get_sign_code32(0), Err(Fault::Bounds));
}

#[test]
fn registers_read_and_write() {
    let mut emu = Emulator::new(0, 0, 0);
    for index in 0..8usize {
        emu.set_register32(index, 0x100 + index as u32);
    }
    for index in 0..8usize {
        assert_eq!(emu.get_register32(index), 0x100 + index as u32);
    }
    emu.set_register32(3, 0xFFFF_FFFF);
    assert_eq!(
        emu.registers,
        [0x100, 0x101, 0x102, 0xFFFF_FFFF, 0x104, 0x105, 0x106, 0x107]
    );
}

#[test]
fn memory_bytes_read_and_write() {
    let mut emu = Emulator::new(3, 0, 0);
    assert_eq!(emu.set_memory8(1, 0x1234_56AB), Ok(()));
    assert_eq!(emu.memory, vec![0, 0xAB, 0]);
    assert_eq!(emu.get_memory8(1), Ok(0xAB));
    assert_eq!(emu.get_memory8(2), Ok(0));
    assert_eq!(emu.get_memory8(3), Err(Fault::Bounds));
    assert_eq!(emu.set_memory8(3, 1), Err(Fault::Bounds));
    assert_eq!(emu.memory, vec![0, 0xAB, 0]);
}

#[test]
fn memory_dwords_are_little_endian() {
    let mut emu = Emulator::new(8, 0, 0);
    assert_eq!(emu.set_memory32(2, 0x1122_3344), Ok(()));
    assert_eq!(emu.memory, vec![0, 0, 0x44, 0x33, 0x22, 0x11, 0, 0]);
    assert_eq!(emu.get_memory32(2), Ok(0x1122_3344));
    assert_eq!(emu.get_memory32(3), Ok(0x0011_2233));
    assert_eq!(emu.get_memory32(4), Ok(0x0000_1122));
    assert_eq!(emu.get_memory32(5), Err(Fault::Bounds));
    assert_eq!(emu.get_memory32(usize::MAX), Err(Fault::Bounds));
}

#[test]
fn dword_write_across_the_end_writes_nothing() {
    let mut emu = Emulator::new(8, 0, 0);
    let before = emu.clone();
    assert_eq!(emu.set_memory32(5, 0xFFFF_FFFF), Err(Fault::Bounds));
    assert_eq!(emu, before);
    assert_eq!(emu.set_memory32(8, 1), Err(Fault::Bounds));
    assert_eq!(emu.set_memory32(usize::MAX - 1, 1), Err(Fault::Bounds));
    assert_eq!(emu, before);
    assert_eq!(emu.set_memory32(4, 0xFFFF_FFFF), Ok(()));
    assert_eq!(emu.memory, vec![0, 0, 0, 0, 0xFF, 0xFF, 0xFF, 0xFF]);
}

#[test]
fn byte_helpers() {
    assert_eq!(dword_from_le(0x78, 0x56, 0x34, 0x12), 0x1234_5678);
    assert_eq!(dword_from_le(0xFF, 0xFF, 0xFF, 0xFF), u32::MAX);
    assert_eq!(dword_from_le(0, 0, 0, 0x80), 0x8000_0000);
    assert_eq!(low_byte(0x1234_56AB), 0xAB);
    assert_eq!(low_byte(0x100), 0);
    assert_eq!(sign_extend_byte(0x7F), 127);
    assert_eq!(sign_extend_byte(0x80), -128);
    assert_eq!(sign_extend_byte(0xFE), -2);
    assert_eq!(sign_extend_dword(0x7FFF_FFFF), i32::MAX);
    assert_eq!(sign_extend_dword(0x8000_0000), i32::MIN);
    assert_eq!(sign_extend_dword(0xFFFF_FFFE), -2);
}
