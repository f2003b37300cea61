//! Consequences of the model that hold for every state, proved once and for
//! all.

use vstd::prelude::*;
use crate::bytes::{
    byte_of, dword_of, le_bytes, lemma_le_bytes_of_dword, lemma_le_round_trip,
    lemma_sign_round_trip, wrap32,
};
use crate::fault::Fault;
use crate::machine::Machine;
use crate::modrm::{
    base_field, displacement_size, mode_field, modrm_byte, reg_field, Displacement, ModRM,
};

verus! {

/// Where `bytes` are encoded at the instruction pointer, each of them is
/// the byte of memory at its place.
pub proof fn lemma_encoded_bytes(m: Machine, bytes: Seq<u8>)
    requires
        m.encodes(bytes),
    ensures
        forall|i: int| 0 <= i < bytes.len() ==> m.memory[m.eip + i] == #[trigger] bytes[i],
{
    assert forall|i: int| 0 <= i < bytes.len() implies m.memory[m.eip + i] == #[trigger] bytes[i] by {
        assert(m.memory.subrange(m.eip as int, m.eip + bytes.len() as int)[i] == m.memory[m.eip + i]);
    }
}

/// The fields of an assembled ModRM byte are the fields it was assembled
/// from.
pub proof fn law_modrm_fields(modval: u8, reg: u8, rm: u8)
    requires
        modval <= 3,
        reg <= 7,
        rm <= 7,
    ensures
        mode_field(modrm_byte(modval, reg, rm)) == modval,
        reg_field(modrm_byte(modval, reg, rm)) == reg,
        base_field(modrm_byte(modval, reg, rm)) == rm,
{
}

/// `mov r32, imm32`: with the bytes `0xB8 + reg` and the little-endian
/// encoding of `imm` at the instruction pointer, one step leaves `imm` in
/// register `reg`, moves the instruction pointer forward by five and changes
/// no other register, no byte of memory and no flag.
pub proof fn law_mov_r32_imm32(m: Machine, reg: u8, imm: u32)
    requires
        m.wf(),
        reg < 8,
        m.encodes(seq![(0xB8 + reg) as u8] + le_bytes(imm)),
    ensures
        m.step() == Ok::<Machine, Fault>(
            Machine { registers: m.registers.update(reg as int, imm), eip: m.eip + 5, ..m },
        ),
        forall|other: int|
            0 <= other < 8 && other != reg ==> m.step().unwrap().registers[other]
                == m.registers[other],
{
    let code = seq![(0xB8 + reg) as u8] + le_bytes(imm);
    lemma_encoded_bytes(m, code);
    assert(code[0] == 0xB8 + reg);
    assert(code[1] == le_bytes(imm)[0]);
    assert(code[2] == le_bytes(imm)[1]);
    assert(code[3] == le_bytes(imm)[2]);
    assert(code[4] == le_bytes(imm)[3]);
    lemma_le_round_trip(imm);
    assert(m.code32(1) == Ok::<u32, Fault>(imm));
    assert(m.step() == m.mov_r32_imm32(reg as int));
}

/// `jmp rel8`: with the bytes `0xEB` and the encoding of `d` at the
/// instruction pointer `p`, one step leaves the instruction pointer at
/// `p + 2 + d` and changes nothing else, provided that `p + 2 + d` is a
/// position that an instruction pointer can hold.
pub proof fn law_short_jmp(m: Machine, d: i8)
    requires
        m.encodes(seq![0xEBu8, byte_of(d)]),
        0 <= m.eip + 2 + d <= usize::MAX,
    ensures
        m.step() == Ok::<Machine, Fault>(Machine { eip: (m.eip + 2 + d) as nat, ..m }),
{
    let code = seq![0xEBu8, byte_of(d)];
    lemma_encoded_bytes(m, code);
    assert(code[0] == 0xEB);
    assert(code[1] == byte_of(d));
    lemma_sign_round_trip(d, 0);
    assert(m.step() == m.short_jmp());
}

/// `jmp rel32`: with the bytes `0xE9` and the little-endian encoding of `d`
/// at the instruction pointer `p`, one step leaves the instruction pointer
/// at `p + 5 + d` and changes nothing else, provided that `p + 5 + d` is a
/// position that an instruction pointer can hold.
pub proof fn law_near_jmp(m: Machine, d: i32)
    requires
        m.encodes(seq![0xE9u8] + le_bytes(dword_of(d))),
        0 <= m.eip + 5 + d <= usize::MAX,
    ensures
        m.step() == Ok::<Machine, Fault>(Machine { eip: (m.eip + 5 + d) as nat, ..m }),
{
    let code = seq![0xE9u8] + le_bytes(dword_of(d));
    lemma_encoded_bytes(m, code);
    assert(code[0] == 0xE9);
    assert(code[1] == le_bytes(dword_of(d))[0]);
    assert(code[2] == le_bytes(dword_of(d))[1]);
    assert(code[3] == le_bytes(dword_of(d))[2]);
    assert(code[4] == le_bytes(dword_of(d))[3]);
    lemma_le_round_trip(dword_of(d));
    lemma_sign_round_trip(0, d);
    assert(m.code32(1) == Ok::<u32, Fault>(dword_of(d)));
    assert(m.step() == m.near_jmp());
}

/// Register-direct round trip: a ModRM byte of mode 3 decodes to a
/// descriptor of one byte whose operand is the register that the base field
/// names.  Reading the operand reads that register, and writing it writes
/// that register and nothing else.
pub proof fn law_register_direct(m: Machine, reg: u8, rm: u8, value: u32)
    requires
        m.wf(),
        reg <= 7,
        rm <= 7,
        m.encodes(seq![modrm_byte(3, reg, rm)]),
    ensures
        m.decode() == Ok::<ModRM, Fault>(
            ModRM { modval: 3, opecode: reg, reg_index: reg, rm, disp: Displacement::Absent },
        ),
        m.decode().unwrap().len() == 1,
        m.r32(m.decode().unwrap()) == m.registers[reg as int],
        m.rm32(m.decode().unwrap()) == Ok::<u32, Fault>(m.registers[rm as int]),
        m.with_rm32(m.decode().unwrap(), value) == Ok::<Machine, Fault>(
            Machine { registers: m.registers.update(rm as int, value), ..m },
        ),
{
    let code = seq![modrm_byte(3, reg, rm)];
    lemma_encoded_bytes(m, code);
    assert(code[0] == modrm_byte(3, reg, rm));
    law_modrm_fields(3, reg, rm);
}

/// Displacement addressing with an 8-bit displacement: a ModRM byte of mode
/// 1 with a base field other than 4, followed by the encoding of `d`,
/// decodes to a descriptor of two bytes.  Its effective address is the base
/// register plus `d`; where that sum is no 32-bit address, resolving is a
/// bounds fault.
pub proof fn law_disp8_address(m: Machine, reg: u8, rm: u8, d: i8)
    requires
        m.wf(),
        reg <= 7,
        rm <= 7,
        rm != 4,
        m.encodes(seq![modrm_byte(1, reg, rm), byte_of(d)]),
    ensures
        m.decode() == Ok::<ModRM, Fault>(
            ModRM { modval: 1, opecode: reg, reg_index: reg, rm, disp: Displacement::Byte(d) },
        ),
        m.decode().unwrap().len() == 2,
        m.address_sum(m.decode().unwrap()) == m.registers[rm as int] + d,
        m.address(m.decode().unwrap()) == if 0 <= m.registers[rm as int] + d <= u32::MAX {
            Ok::<u32, Fault>((m.registers[rm as int] + d) as u32)
        } else {
            Err::<u32, Fault>(Fault::Bounds)
        },
{
    let code = seq![modrm_byte(1, reg, rm), byte_of(d)];
    lemma_encoded_bytes(m, code);
    assert(code[0] == modrm_byte(1, reg, rm));
    assert(code[1] == byte_of(d));
    law_modrm_fields(1, reg, rm);
    lemma_sign_round_trip(d, 0);
}

/// Displacement addressing with a 32-bit displacement: a ModRM byte of mode
/// 2 with a base field other than 4, followed by the little-endian encoding
/// of `d`, decodes to a descriptor of five bytes.  Its effective address is
/// the base register plus `d`; where that sum is no 32-bit address,
/// resolving is a bounds fault.
pub proof fn law_disp32_address(m: Machine, reg: u8, rm: u8, d: i32)
    requires
        m.wf(),
        reg <= 7,
        rm <= 7,
        rm != 4,
        m.encodes(seq![modrm_byte(2, reg, rm)] + le_bytes(dword_of(d))),
    ensures
        m.decode() == Ok::<ModRM, Fault>(
            ModRM { modval: 2, opecode: reg, reg_index: reg, rm, disp: Displacement::Dword(d) },
        ),
        m.decode().unwrap().len() == 5,
        m.address_sum(m.decode().unwrap()) == m.registers[rm as int] + d,
        m.address(m.decode().unwrap()) == if 0 <= m.registers[rm as int] + d <= u32::MAX {
            Ok::<u32, Fault>((m.registers[rm as int] + d) as u32)
        } else {
            Err::<u32, Fault>(Fault::Bounds)
        },
{
    let code = seq![modrm_byte(2, reg, rm)] + le_bytes(dword_of(d));
    lemma_encoded_bytes(m, code);
    assert(code[0] == modrm_byte(2, reg, rm));
    assert(code[1] == le_bytes(dword_of(d))[0]);
    assert(code[2] == le_bytes(dword_of(d))[1]);
    assert(code[3] == le_bytes(dword_of(d))[2]);
    assert(code[4] == le_bytes(dword_of(d))[3]);
    law_modrm_fields(2, reg, rm);
    lemma_le_round_trip(dword_of(d));
    lemma_sign_round_trip(0, d);
    assert(m.code32(1) == Ok::<u32, Fault>(dword_of(d)));
}

/// A ModRM byte with base field 4 in a mode other than register-direct asks
/// for a SIB byte: decoding it is an unimplemented-addressing fault that
/// names the mode and the base field, whatever follows the byte.
pub proof fn law_sib_decode_fault(m: Machine, byte: u8)
    requires
        m.encodes(seq![byte]),
        mode_field(byte) != 3,
        base_field(byte) == 4,
    ensures
        m.decode() == Err::<ModRM, Fault>(
            Fault::UnimplementedAddressing { modval: mode_field(byte), rm: 4 },
        ),
{
    lemma_encoded_bytes(m, seq![byte]);
    assert(seq![byte][0] == byte);
}

/// A descriptor with base field 4 in a mode other than register-direct never
/// resolves: its address, a read of its operand and a write to its operand
/// are all the unimplemented-addressing fault.
pub proof fn law_sib_never_resolves(m: Machine, modrm: ModRM, value: u32)
    requires
        modrm.modval != 3,
        modrm.rm == 4,
    ensures
        m.address(modrm) == Err::<u32, Fault>(
            Fault::UnimplementedAddressing { modval: modrm.modval, rm: 4 },
        ),
        m.rm32(modrm) == Err::<u32, Fault>(
            Fault::UnimplementedAddressing { modval: modrm.modval, rm: 4 },
        ),
        m.with_rm32(modrm, value) == Err::<Machine, Fault>(
            Fault::UnimplementedAddressing { modval: modrm.modval, rm: 4 },
        ),
{
}

/// An instruction that takes a ModRM operand faults, without effect, when
/// its ModRM byte asks for a SIB byte.
pub proof fn law_sib_step_fault(m: Machine, opcode: u8, byte: u8)
    requires
        opcode == 0x01 || opcode == 0x83 || opcode == 0x89 || opcode == 0x8B || opcode == 0xC7
            || opcode == 0xFF,
        m.encodes(seq![opcode, byte]),
        mode_field(byte) != 3,
        base_field(byte) == 4,
    ensures
        m.step() == Err::<Machine, Fault>(
            Fault::UnimplementedAddressing { modval: mode_field(byte), rm: 4 },
        ),
{
    let code = seq![opcode, byte];
    lemma_encoded_bytes(m, code);
    assert(code[0] == opcode);
    assert(code[1] == byte);
    assert(m.advance(1).encodes(seq![byte])) by {
        assert(m.memory.subrange(m.eip as int + 1, m.eip as int + 2) =~= seq![byte]);
    }
    law_sib_decode_fault(m.advance(1), byte);
}

/// A step that succeeds keeps the number of registers, the size of memory
/// and the flag register.
pub proof fn law_step_keeps_shape(m: Machine)
    requires
        m.wf(),
        m.step() is Ok,
    ensures
        m.step().unwrap().wf(),
        m.step().unwrap().memory.len() == m.memory.len(),
        m.step().unwrap().eflags == m.eflags,
{
}

/// An opcode byte outside the instruction table is an unimplemented-opcode
/// fault that names the byte.
pub proof fn law_unknown_opcode(m: Machine, opcode: u8)
    requires
        m.encodes(seq![opcode]),
        opcode != 0x01,
        opcode != 0x83,
        opcode != 0x89,
        opcode != 0x8B,
        !(0xB8 <= opcode <= 0xBF),
        opcode != 0xC7,
        opcode != 0xE9,
        opcode != 0xEB,
        opcode != 0xFF,
    ensures
        m.step() == Err::<Machine, Fault>(
            Fault::UnimplementedOpcode { opcode: opcode as u32, extension: None },
        ),
{
    lemma_encoded_bytes(m, seq![opcode]);
    assert(seq![opcode][0] == opcode);
}

/// Whatever decodes, decodes to a well-formed descriptor: its fields are the
/// bit fields of the byte at the instruction pointer, and whether it holds
/// no displacement, one byte or four is settled by mode and base field
/// alone.
pub proof fn law_decode_is_well_formed(m: Machine)
    requires
        m.decode() is Ok,
    ensures
        m.eip < m.memory.len(),
        m.decode().unwrap().wf(),
        m.decode().unwrap().modval == mode_field(m.memory[m.eip as int]),
        m.decode().unwrap().reg_index == reg_field(m.memory[m.eip as int]),
        m.decode().unwrap().rm == base_field(m.memory[m.eip as int]),
        m.decode().unwrap().len() == 1 + displacement_size(
            m.decode().unwrap().modval,
            m.decode().unwrap().rm,
        ),
        m.eip + m.decode().unwrap().len() <= m.memory.len(),
{
}

/// A double word stored in memory is read back from the same address, and
/// storing what was read changes nothing.
pub proof fn law_memory32_round_trip(m: Machine, address: int, value: u32)
    requires
        0 <= address,
        address + 4 <= m.memory.len(),
    ensures
        m.with_memory32(address, value).unwrap().memory32(address) == Ok::<u32, Fault>(value),
        m.with_memory32(address, m.memory32(address).unwrap()) == Ok::<Machine, Fault>(m),
{
    lemma_le_round_trip(value);
    lemma_le_bytes_of_dword(
        m.memory[address],
        m.memory[address + 1],
        m.memory[address + 2],
        m.memory[address + 3],
    );
    let back = m.with_memory32(address, m.memory32(address).unwrap()).unwrap();
    assert(back.memory =~= m.memory);
}

/// Storing a double word is overlaying memory with its four little-endian
/// bytes.
pub proof fn law_store_is_overlay(m: Machine, address: int, value: u32)
    ensures
        m.with_memory32(address, value) == m.with_image(address, le_bytes(value)),
{
    if 0 <= address && address + 4 <= m.memory.len() {
        assert(m.with_memory32(address, value).unwrap().memory =~= m.with_image(
            address,
            le_bytes(value),
        ).unwrap().memory);
    }
}

/// A store to memory changes the four bytes it addresses and no other.
pub proof fn law_memory32_store_is_local(m: Machine, address: int, value: u32, other: int)
    requires
        0 <= address,
        address + 4 <= m.memory.len(),
        0 <= other < m.memory.len(),
        other < address || address + 4 <= other,
    ensures
        m.with_memory32(address, value).unwrap().memory[other] == m.memory[other],
        m.with_memory32(address, value).unwrap().registers == m.registers,
        m.with_memory32(address, value).unwrap().eip == m.eip,
{
}

/// The instruction pointer after an instruction that is no jump: five bytes
/// on for `mov r32, imm32`; for the others one byte for the opcode, then the
/// length of the descriptor, then one byte of immediate for group 0x83 and
/// four for `mov r/m32, imm32`.
pub proof fn law_pointer_advance(m: Machine, opcode: u32)
    requires
        m.wf(),
        m.execute(opcode) is Ok,
        opcode != 0xE9,
        opcode != 0xEB,
    ensures
        0xB8 <= opcode <= 0xBF ==> m.execute(opcode).unwrap().eip == m.eip + 5,
        !(0xB8 <= opcode <= 0xBF) ==> m.advance(1).decode() is Ok && m.execute(
            opcode,
        ).unwrap().eip == m.eip + 1 + m.advance(1).decode().unwrap().len() + if opcode == 0x83 {
            1nat
        } else if opcode == 0xC7 {
            4nat
        } else {
            0nat
        },
{
}

/// `add r/m32, r32` between registers: the destination takes the sum modulo
/// 2^32, the instruction is two bytes long, and nothing else changes.
pub proof fn law_add_registers(m: Machine, reg: u8, rm: u8)
    requires
        m.wf(),
        reg <= 7,
        rm <= 7,
        m.encodes(seq![0x01u8, modrm_byte(3, reg, rm)]),
    ensures
        m.step() == Ok::<Machine, Fault>(
            Machine {
                registers: m.registers.update(
                    rm as int,
                    wrap32(m.registers[rm as int] + m.registers[reg as int]),
                ),
                eip: m.eip + 2,
                ..m
            },
        ),
{
    let code = seq![0x01u8, modrm_byte(3, reg, rm)];
    lemma_encoded_bytes(m, code);
    assert(code[0] == 0x01 && code[1] == modrm_byte(3, reg, rm));
    law_modrm_fields(3, reg, rm);
    assert(m.step() == m.add_rm32_r32());
}

/// `sub r/m32, imm8` on a register: the register takes itself minus the
/// signed byte `d`, modulo 2^32; the instruction is three bytes long, and
/// nothing else changes.
pub proof fn law_sub_register_imm8(m: Machine, rm: u8, d: i8)
    requires
        m.wf(),
        rm <= 7,
        m.encodes(seq![0x83u8, modrm_byte(3, 5, rm), byte_of(d)]),
    ensures
        m.step() == Ok::<Machine, Fault>(
            Machine {
                registers: m.registers.update(rm as int, wrap32(m.registers[rm as int] - d)),
                eip: m.eip + 3,
                ..m
            },
        ),
{
    let code = seq![0x83u8, modrm_byte(3, 5, rm), byte_of(d)];
    lemma_encoded_bytes(m, code);
    assert(code[0] == 0x83 && code[1] == modrm_byte(3, 5, rm) && code[2] == byte_of(d));
    law_modrm_fields(3, 5, rm);
    lemma_sign_round_trip(d, 0);
    assert(m.step() == m.code_83());
}

/// `mov r/m32, r32` and `mov r32, r/m32` between registers: the destination
/// takes the value of the source, the instruction is two bytes long, and
/// nothing else changes.
pub proof fn law_mov_registers(m: Machine, reg: u8, rm: u8)
    requires
        m.wf(),
        reg <= 7,
        rm <= 7,
    ensures
        m.encodes(seq![0x89u8, modrm_byte(3, reg, rm)]) ==> m.step() == Ok::<Machine, Fault>(
            Machine {
                registers: m.registers.update(rm as int, m.registers[reg as int]),
                eip: m.eip + 2,
                ..m
            },
        ),
        m.encodes(seq![0x8Bu8, modrm_byte(3, reg, rm)]) ==> m.step() == Ok::<Machine, Fault>(
            Machine {
                registers: m.registers.update(reg as int, m.registers[rm as int]),
                eip: m.eip + 2,
                ..m
            },
        ),
{
    law_modrm_fields(3, reg, rm);
    if m.encodes(seq![0x89u8, modrm_byte(3, reg, rm)]) {
        let code = seq![0x89u8, modrm_byte(3, reg, rm)];
        lemma_encoded_bytes(m, code);
        assert(code[0] == 0x89 && code[1] == modrm_byte(3, reg, rm));
        assert(m.step() == m.mov_rm32_r32());
    }
    if m.encodes(seq![0x8Bu8, modrm_byte(3, reg, rm)]) {
        let code = seq![0x8Bu8, modrm_byte(3, reg, rm)];
        lemma_encoded_bytes(m, code);
        assert(code[0] == 0x8B && code[1] == modrm_byte(3, reg, rm));
        assert(m.step() == m.mov_r32_rm32());
    }
}

/// `mov r/m32, imm32` on a register: the register takes the immediate, the
/// instruction is six bytes long, and nothing else changes.
pub proof fn law_mov_register_imm32(m: Machine, reg: u8, rm: u8, imm: u32)
    requires
        m.wf(),
        reg <= 7,
        rm <= 7,
        m.encodes(seq![0xC7u8, modrm_byte(3, reg, rm)] + le_bytes(imm)),
    ensures
        m.step() == Ok::<Machine, Fault>(
            Machine { registers: m.registers.update(rm as int, imm), eip: m.eip + 6, ..m },
        ),
{
    let code = seq![0xC7u8, modrm_byte(3, reg, rm)] + le_bytes(imm);
    lemma_encoded_bytes(m, code);
    assert(code[0] == 0xC7 && code[1] == modrm_byte(3, reg, rm));
    assert(code[2] == le_bytes(imm)[0]);
    assert(code[3] == le_bytes(imm)[1]);
    assert(code[4] == le_bytes(imm)[2]);
    assert(code[5] == le_bytes(imm)[3]);
    law_modrm_fields(3, reg, rm);
    lemma_le_round_trip(imm);
    assert(m.advance(2).code32(0) == Ok::<u32, Fault>(imm));
    assert(m.step() == m.mov_rm32_imm32());
}

/// `inc r/m32` on a register: the register takes itself plus one, modulo
/// 2^32; the instruction is two bytes long, and nothing else changes.
pub proof fn law_inc_register(m: Machine, rm: u8)
    requires
        m.wf(),
        rm <= 7,
        m.encodes(seq![0xFFu8, modrm_byte(3, 0, rm)]),
    ensures
        m.step() == Ok::<Machine, Fault>(
            Machine {
                registers: m.registers.update(rm as int, wrap32(m.registers[rm as int] + 1)),
                eip: m.eip + 2,
                ..m
            },
        ),
{
    let code = seq![0xFFu8, modrm_byte(3, 0, rm)];
    lemma_encoded_bytes(m, code);
    assert(code[0] == 0xFF && code[1] == modrm_byte(3, 0, rm));
    law_modrm_fields(3, 0, rm);
    assert(m.step() == m.code_ff());
}

/// A group opcode whose sub-opcode has no handler is an
/// unimplemented-opcode fault that names the opcode and the sub-opcode.
pub proof fn law_unknown_extension(m: Machine, opcode: u8, extension: u8, rm: u8)
    requires
        extension <= 7,
        rm <= 7,
        (opcode == 0x83 && extension != 5) || (opcode == 0xFF && extension != 0),
        m.encodes(seq![opcode, modrm_byte(3, extension, rm)]),
    ensures
        m.step() == Err::<Machine, Fault>(
            Fault::UnimplementedOpcode { opcode: opcode as u32, extension: Some(extension) },
        ),
{
    let code = seq![opcode, modrm_byte(3, extension, rm)];
    lemma_encoded_bytes(m, code);
    assert(code[0] == opcode && code[1] == modrm_byte(3, extension, rm));
    law_modrm_fields(3, extension, rm);
}

} // verus!
