use x86_emulator::emulator::Emulator;
use x86_emulator::fault::Fault;

fn machine(code: &[u8], size: usize) -> Emulator {
    let mut emu = Emulator::new(size, 0, 0);
    assert_eq!(emu.load(0, code), Ok(()));
    emu
}

#[test]
fn add_between_registers() {
    // add ebx, ecx
    let mut emu = machine(&[0x01, 0xCB], 2);
    emu.registers[1] = 30;
    emu.registers[3] = 12;
    assert_eq!(emu.step(), Ok(()));
    assert_eq!(emu.registers, [0, 30, 0, 42, 0, 0, 0, 0]);
    assert_eq!(emu.eip, 2);
}

#[test]
fn add_wraps_at_32_bits() {
    let mut emu = machine(&[0x01, 0xCB], 2);
    emu.registers[1] = 0xFFFF_FFFF;
    emu.registers[3] = 2;
    assert_eq!(emu.step(), Ok(()));
    assert_eq!(emu.registers[3], 1);
    assert_eq!(emu.eflags, 0);
}

#[test]
fn add_to_memory() {
    // add [ebx+4], eax
    let mut emu = machine(&[0x01, 0x43, 0x04], 64);
    emu.registers[0] = 0x0101_0101;
    emu.registers[3] = 16;
    assert_eq!(emu.set_memory32(20, 0x1020_3040), Ok(()));
    assert_eq!(emu.step(), Ok(()));
    assert_eq!(emu.get_memory32(20), Ok(0x1121_3141));
    assert_eq!(emu.eip, 3);
    assert_eq!(emu.registers, [0x0101_0101, 0, 0, 16, 0, 0, 0, 0]);
}

#[test]
fn sub_immediate_from_register() {
    // sub esp, 16
    let mut emu = machine(&[0x83, 0xEC, 0x10], 3);
    emu.registers[4] = 0x7c00;
    assert_eq!(emu.step(), Ok(()));
    assert_eq!(emu.registers[4], 0x7bf0);
    assert_eq!(emu.eip, 3);
}

#[test]
fn sub_sign_extends_its_immediate() {
    // sub eax, -1
    let mut emu = machine(&[0x83, 0xE8, 0xFF], 3);
    emu.registers[0] = 41;
    assert_eq!(emu.step(), Ok(()));
    assert_eq!(emu.registers[0], 42);
    assert_eq!(emu.eip, 3);

    // sub eax, -128
    let mut emu = machine(&[0x83, 0xE8, 0x80], 3);
    emu.registers[0] = 0xFFFF_FFFF;
    assert_eq!(emu.step(), Ok(()));
    assert_eq!(emu.registers[0], 127);
}

#[test]
fn sub_wraps_below_zero() {
    // sub eax, 1
    let mut emu = machine(&[0x83, 0xE8, 0x01], 3);
    emu.registers[0] = 0;
    assert_eq!(emu.step(), Ok(()));
    assert_eq!(emu.registers[0], 0xFFFF_FFFF);
    assert_eq!(emu.eflags, 0);
}

#[test]
fn sub_from_memory_with_displacement() {
    // sub dword [ebp-8], 3
    let mut emu = machine(&[0x83, 0x6D, 0xF8, 0x03], 64);
    emu.registers[5] = 40;
    assert_eq!(emu.set_memory32(32, 10), Ok(()));
    assert_eq!(emu.step(), Ok(()));
    assert_eq!(emu.get_memory32(32), Ok(7));
    assert_eq!(emu.eip, 4);
}

#[test]
fn group_83_without_handler() {
    for extension in [0u8, 1, 2, 3, 4, 6, 7] {
        let mut emu = machine(&[0x83, 0xC0 | (extension << 3), 0x01], 3);
        let before = emu.clone();
        assert_eq!(
            emu.step(),
            Err(Fault::UnimplementedOpcode { opcode: 0x83, extension: Some(extension) })
        );
        assert_eq!(emu, before);
    }
}

#[test]
fn mov_register_to_register() {
    // mov ebx, eax
    let mut emu = machine(&[0x89, 0xC3], 2);
    emu.registers[0] = 0xDEAD_BEEF;
    assert_eq!(emu.step(), Ok(()));
    assert_eq!(emu.registers, [0xDEAD_BEEF, 0, 0, 0xDEAD_BEEF, 0, 0, 0, 0]);
    assert_eq!(emu.eip, 2);
}

#[test]
fn mov_register_to_memory() {
    // mov [ebp-4], eax
    let mut emu = machine(&[0x89, 0x45, 0xFC], 64);
    emu.registers[0] = 0x1234_5678;
    emu.registers[5] = 32;
    assert_eq!(emu.step(), Ok(()));
    assert_eq!(&emu.memory[28..32], &[0x78, 0x56, 0x34, 0x12]);
    assert_eq!(emu.eip, 3);
}

#[test]
fn mov_memory_to_register() {
    // mov ecx, [ebp+0x10]
    let mut emu = machine(&[0x8B, 0x8D, 0x10, 0x00, 0x00, 0x00], 64);
    emu.registers[5] = 8;
    assert_eq!(emu.set_memory32(24, 0x0BAD_F00D), Ok(()));
    assert_eq!(emu.step(), Ok(()));
    assert_eq!(emu.registers[1], 0x0BAD_F00D);
    assert_eq!(emu.eip, 6);
}

#[test]
fn mov_from_absolute_address() {
    // mov edx, [0x20]
    let mut emu = machine(&[0x8B, 0x15, 0x20, 0x00, 0x00, 0x00], 64);
    emu.registers[5] = 0x1000;
    assert_eq!(emu.set_memory32(0x20, 77), Ok(()));
    assert_eq!(emu.step(), Ok(()));
    assert_eq!(emu.registers[2], 77);
    assert_eq!(emu.eip, 6);
}

#[test]
fn mov_immediate_to_register_operand() {
    // mov esi, 0x11223344
    let mut emu = machine(&[0xC7, 0xC6, 0x44, 0x33, 0x22, 0x11], 6);
    assert_eq!(emu.step(), Ok(()));
    assert_eq!(emu.registers[6], 0x1122_3344);
    assert_eq!(emu.eip, 6);
}

#[test]
fn mov_immediate_to_memory() {
    // mov dword [ebp-4], 0x29
    let mut emu = machine(&[0xC7, 0x45, 0xFC, 0x29, 0x00, 0x00, 0x00], 64);
    emu.registers[5] = 48;
    assert_eq!(emu.step(), Ok(()));
    assert_eq!(emu.get_memory32(44), Ok(0x29));
    assert_eq!(emu.eip, 7);

    // mov dword [eax+0x100], -1
    let mut emu = machine(
        &[0xC7, 0x80, 0x00, 0x01, 0x00, 0x00, 0xFF, 0xFF, 0xFF, 0xFF],
        0x200,
    );
    emu.registers[0] = 0x10;
    assert_eq!(emu.step(), Ok(()));
    assert_eq!(emu.get_memory32(0x110), Ok(0xFFFF_FFFF));
    assert_eq!(emu.eip, 10);
}

#[test]
fn inc_register_and_memory() {
    // inc edi
    let mut emu = machine(&[0xFF, 0xC7], 2);
    emu.registers[7] = 9;
    assert_eq!(emu.step(), Ok(()));
    assert_eq!(emu.registers[7], 10);
    assert_eq!(emu.eip, 2);

    // inc dword [ebx]
    let mut emu = machine(&[0xFF, 0x03], 16);
    emu.registers[3] = 8;
    assert_eq!(emu.set_memory32(8, 0x0000_00FF), Ok(()));
    assert_eq!(emu.step(), Ok(()));
    assert_eq!(emu.get_memory32(8), Ok(0x0000_0100));
    assert_eq!(emu.eip, 2);
}

#[test]
fn inc_wraps_to_zero() {
    let mut emu = machine(&[0xFF, 0xC0], 2);
    emu.registers[0] = 0xFFFF_FFFF;
    assert_eq!(emu.step(), Ok(()));
    assert_eq!(emu.registers[0], 0);
    assert_eq!(emu.eflags, 0);
}

#[test]
fn group_ff_without_handler() {
    for extension in 1..8u8 {
        let mut emu = machine(&[0xFF, 0xC0 | (extension << 3)], 2);
        let before = emu.clone();
        assert_eq!(
            emu.step(),
            Err(Fault::UnimplementedOpcode { opcode: 0xFF, extension: Some(extension) })
        );
        assert_eq!(emu, before);
    }
}

#[test]
fn faulting_operand_access_restores_the_pointer() {
    // mov dword [eax+0x100], 1 with the target outside memory
    let mut emu = machine(&[0xC7, 0x80, 0x00, 0x01, 0x00, 0x00, 0x01, 0x00, 0x00, 0x00], 0x102);
    let before = emu.clone();
    assert_eq!(emu.step(), Err(Fault::Bounds));
    assert_eq!(emu, before);

    // add [ebx], eax with ebx below zero after the displacement
    let mut emu = machine(&[0x01, 0x43, 0xFC], 16);
    let before = emu.clone();
    assert_eq!(emu.step(), Err(Fault::Bounds));
    assert_eq!(emu, before);

    // sub dword [ecx], 1 with ecx at the last byte
    let mut emu = machine(&[0x83, 0x29, 0x01], 16);
    emu.registers[1] = 15;
    let before = emu.clone();
    assert_eq!(emu.step(), Err(Fault::Bounds));
    assert_eq!(emu, before);

    // mov eax, [edx] and mov [edx], eax with edx past the end
    for opcode in [0x8Bu8, 0x89, 0xFF] {
        let mut emu = machine(&[opcode, 0x02], 16);
        emu.registers[2] = 16;
        let before = emu.clone();
        assert_eq!(emu.step(), Err(Fault::Bounds));
        assert_eq!(emu, before);
    }
}

#[test]
fn dispatch_uses_the_given_opcode() {
    let mut emu = machine(&[0x00, 0x2A, 0x00, 0x00, 0x00], 5);
    assert_eq!(emu.call_instruction(0xBA), Ok(()));
    assert_eq!(emu.registers, [0, 0, 0x2A, 0, 0, 0, 0, 0]);
    assert_eq!(emu.eip, 5);
}

#[test]
fn every_opcode_outside_the_table_is_reported() {
    let known = [0x01u32, 0x83, 0x89, 0x8B, 0xC7, 0xE9, 0xEB, 0xFF];
    let mut emu = Emulator::new(16, 0, 0);
    let before = emu.clone();
    for opcode in 0..=0x1FFu32 {
        if known.contains(&opcode) || (0xB8..=0xBF).contains(&opcode) {
            continue;
        }
        assert_eq!(
            emu.call_instruction(opcode),
            Err(Fault::UnimplementedOpcode { opcode, extension: None })
        );
        assert_eq!(emu, before);
    }
}

#[test]
fn a_small_program() {
    // mov eax, 41; inc eax; mov [0x20], eax; mov ebx, [0x20]; add ebx, eax;
    // sub ebx, 4; jmp -2
    let code = [
        0xB8, 0x29, 0x00, 0x00, 0x00, // mov eax, 41
        0xFF, 0xC0, // inc eax
        0x89, 0x05, 0x20, 0x00, 0x00, 0x00, // mov [0x20], eax
        0x8B, 0x1D, 0x20, 0x00, 0x00, 0x00, // mov ebx, [0x20]
        0x01, 0xC3, // add ebx, eax
        0x83, 0xEB, 0x04, // sub ebx, 4
        0xEB, 0xFE, // jmp $
    ];
    let mut emu = machine(&code, 0x40);
    let mut pointers = vec![];
    for _ in 0..8 {
        assert_eq!(emu.step(), Ok(()));
        pointers.push(emu.eip);
    }
    assert_eq!(pointers, vec![5, 7, 13, 19, 21, 24, 24, 24]);
    assert_eq!(emu.registers, [42, 0, 0, 80, 0, 0, 0, 0]);
    assert_eq!(emu.get_memory32(0x20), Ok(42));
    assert_eq!(emu.eflags, 0);
}
