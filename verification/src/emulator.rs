//! The executable processor state and its operations.

use vstd::prelude::*;
use crate::bytes::{
    dword_from_le, lemma_shifted_bytes, low_byte, sign_extend_byte, sign_extend_dword,
};
use crate::fault::Fault;
use crate::machine::Machine;
use crate::modrm::{Displacement, ModRM};

verus! {

/// The general-purpose registers, in the order of their encoding.
#[derive(Clone, Copy, Debug, PartialEq, Eq)]
pub enum Register {
    EAX,
    ECX,
    EDX,
    EBX,
    ESP,
    EBP,
    ESI,
    EDI,
}

/// Number of general-purpose registers.
pub const REGISTERS_COUNT: usize = 8;

impl Register {
    /// The register's number in instruction encodings.
    pub open spec fn number(self) -> int {
        match self {
            Register::EAX => 0,
            Register::ECX => 1,
            Register::EDX => 2,
            Register::EBX => 3,
            Register::ESP => 4,
            Register::EBP => 5,
            Register::ESI => 6,
            Register::EDI => 7,
        }
    }

    /// The register's place in the register file.
    pub fn index(self) -> (index: usize)
        ensures
            index == self.number(),
            index < REGISTERS_COUNT,
    {
        match self {
            Register::EAX => 0,
            Register::ECX => 1,
            Register::EDX => 2,
            Register::EBX => 3,
            Register::ESP => 4,
            Register::EBP => 5,
            Register::ESI => 6,
            Register::EDI => 7,
        }
    }
}

/// The processor: register file, flag register, memory and instruction
/// pointer.
#[derive(Debug, PartialEq, Eq)]
pub struct Emulator {
    pub registers: [u32; 8],
    pub eflags: u32,
    pub memory: Vec<u8>,
    pub eip: usize,
}

impl View for Emulator {
    type V = Machine;

    open spec fn view(&self) -> Machine {
        Machine {
            registers: self.registers@,
            eflags: self.eflags,
            memory: self.memory@,
            eip: self.eip as nat,
        }
    }
}

impl Clone for Emulator {
    /// A second processor in the same state.
    fn clone(&self) -> (copy: Self)
        ensures
            copy@ == self@,
    {
        let copy = Emulator {
            registers: self.registers,
            eflags: self.eflags,
            memory: self.memory.clone(),
            eip: self.eip,
        };
        assert(copy.memory@ =~= self.memory@);
        copy
    }
}

impl Emulator {
    /// A processor with `size` bytes of zeroed memory, all registers zero
    /// but the stack pointer, which holds `esp`, and the instruction pointer
    /// at `eip`.
    pub fn new(size: usize, eip: usize, esp: u32) -> (emu: Self)
        ensures
            emu@ == Machine::initial(size as nat, eip as nat, esp),
    {
        let mut emu = Self { registers: [0;8], eflags: 0, memory: vec![0; size], eip };
        emu.registers[Register::ESP.index()] = esp;
        assert(emu@.registers =~= Machine::initial(size as nat, eip as nat, esp).registers);
        assert(emu@.memory =~= Machine::initial(size as nat, eip as nat, esp).memory);
        emu
    }

    /// Copies `image` into memory from `origin` on.  Nothing is written
    /// unless the whole image fits.
    pub fn load(&mut self, origin: usize, image: &[u8]) -> (done: Result<(), Fault>)
        ensures
            old(self)@.yields(old(self)@.with_image(origin as int, image@), final(self)@, done),
    {
        let len = self.memory.len();
        if origin > len || image.len() > len - origin {
            return Err(Fault::Bounds);
        }
        let mut copied: usize = 0;
        while copied < image.len()
            invariant
                copied <= image.len(),
                origin + image.len() <= self.memory.len(),
                self.memory.len() == old(self).memory.len(),
                self.registers == old(self).registers,
                self.eflags == old(self).eflags,
                self.eip == old(self).eip,
                forall|i: int|
                    0 <= i < self.memory.len() ==> self.memory[i] == if origin <= i < origin
                        + copied {
                        image[i - origin]
                    } else {
                        old(self).memory[i]
                    },
            decreases image.len() - copied,
        {
            self.memory[origin + copied] = image[copied];
            copied = copied + 1;
        }
        assert(self@.memory =~= old(self)@.with_image(origin as int, image@).unwrap().memory);
        Ok(())
    }

    /// Fetches the byte `index` places past the instruction pointer.
    pub fn get_code8(&self, index: usize) -> (byte: Result<u32, Fault>)
        ensures
            byte == self@.code8(index as int),
    {
        if self.eip < self.memory.len() && index < self.memory.len() - self.eip {
            Ok(self.memory[self.eip + index] as u32)
        } else {
            Err(Fault::Bounds)
        }
    }

    /// Fetches the byte `index` places past the instruction pointer and
    /// sign-extends it.
    pub fn get_sign_code8(&self, index: usize) -> (byte: Result<i32, Fault>)
        ensures
            byte == self@.sign_code8(index as int),
    {
        if self.eip < self.memory.len() && index < self.memory.len() - self.eip {
            Ok(sign_extend_byte(self.memory[self.eip + index]))
        } else {
            Err(Fault::Bounds)
        }
    }

    /// Fetches the little-endian double word that starts `index` places past
    /// the instruction pointer.
    pub fn get_code32(&self, index: usize) -> (dword: Result<u32, Fault>)
        ensures
            dword == self@.code32(index as int),
    {
        let len = self.memory.len();
        if self.eip <= len && index <= len - self.eip && len - self.eip - index >= 4 {
            let b0 = self.get_code8(index)?;
            let b1 = self.get_code8(index + 1)?;
            let b2 = self.get_code8(index + 2)?;
            let b3 = self.get_code8(index + 3)?;
            Ok(dword_from_le(b0 as u8, b1 as u8, b2 as u8, b3 as u8))
        } else {
            Err(Fault::Bounds)
        }
    }

    /// Fetches the double word that starts `index` places past the
    /// instruction pointer and reads it as a signed number.
    pub fn get_sign_code32(&self, index: usize) -> (dword: Result<i32, Fault>)
        ensures
            dword == self@.sign_code32(index as int),
    {
        match self.get_code32(index) {
            Ok(value) => Ok(sign_extend_dword(value)),
            Err(fault) => Err(fault),
        }
    }

    /// Reads register `index`.
    pub fn get_register32(&self, index: usize) -> (value: u32)
        requires
            index < REGISTERS_COUNT,
        ensures
            value == self@.registers[index as int],
    {
        self.registers[index]
    }

    /// Writes `value` to register `index`.
    pub fn set_register32(&mut self, index: usize, value: u32)
        requires
            index < REGISTERS_COUNT,
        ensures
            final(self)@ == old(self)@.with_register(index as int, value),
    {
        self.registers[index] = value;
        assert(self@.registers =~= old(self)@.registers.update(index as int, value));
    }

    /// Reads the byte at `address`, widened to 32 bits.
    pub fn get_memory8(&self, address: usize) -> (byte: Result<u32, Fault>)
        ensures
            byte == self@.memory8(address as int),
    {
        if address < self.memory.len() {
            Ok(self.memory[address] as u32)
        } else {
            Err(Fault::Bounds)
        }
    }

    /// Reads the little-endian double word at `address`.
    pub fn get_memory32(&self, address: usize) -> (dword: Result<u32, Fault>)
        ensures
            dword == self@.memory32(address as int),
    {
        let len = self.memory.len();
        if address <= len && len - address >= 4 {
            let b0 = self.get_memory8(address)?;
            let b1 = self.get_memory8(address + 1)?;
            let b2 = self.get_memory8(address + 2)?;
            let b3 = self.get_memory8(address + 3)?;
            Ok(dword_from_le(b0 as u8, b1 as u8, b2 as u8, b3 as u8))
        } else {
            Err(Fault::Bounds)
        }
    }

    /// Stores the low byte of `value` at `address`.
    pub fn set_memory8(&mut self, address: usize, value: u32) -> (done: Result<(), Fault>)
        ensures
            old(self)@.yields(
                old(self)@.with_memory8(address as int, value),
                final(self)@,
                done,
            ),
    {
        if address < self.memory.len() {
            self.memory[address] = low_byte(value);
            Ok(())
        } else {
            Err(Fault::Bounds)
        }
    }

    /// Stores `value` at `address`, little-endian.  Nothing is written
    /// unless all four bytes lie within memory.
    pub fn set_memory32(&mut self, address: usize, value: u32) -> (done: Result<(), Fault>)
        ensures
            old(self)@.yields(
                old(self)@.with_memory32(address as int, value),
                final(self)@,
                done,
            ),
    {
        let len = self.memory.len();
        if address <= len && len - address >= 4 {
            proof {
                lemma_shifted_bytes(value);
            }
            self.set_memory8(address, value)?;
            self.set_memory8(address + 1, value >> 8)?;
            self.set_memory8(address + 2, value >> 16)?;
            self.set_memory8(address + 3, value >> 24)?;
            Ok(())
        } else {
            Err(Fault::Bounds)
        }
    }

    /// Resolves the effective address of the memory operand that `modrm`
    /// denotes.
    pub fn calc_memory_address(&self, modrm: &ModRM) -> (address: Result<u32, Fault>)
        requires
            modrm.wf(),
        ensures
            address == self@.address(*modrm),
    {
        if modrm.modval == 3 || modrm.rm == 4 {
            return Err(Fault::UnimplementedAddressing { modval: modrm.modval, rm: modrm.rm });
        }
        let disp: i64 = match modrm.disp {
            Displacement::Absent => 0,
            Displacement::Byte(d) => d as i64,
            Displacement::Dword(d) => d as i64,
        };
        let sum: i64 = if modrm.modval == 0 && modrm.rm == 5 {
            disp
        } else {
            self.get_register32(modrm.rm as usize) as i64 + disp
        };
        if 0 <= sum && sum <= 0xFFFF_FFFF {
            Ok(sum as u32)
        } else {
            Err(Fault::Bounds)
        }
    }

    /// Reads the register-or-memory operand that `modrm` denotes.
    pub fn get_rm32(&self, modrm: &ModRM) -> (value: Result<u32, Fault>)
        requires
            modrm.wf(),
        ensures
            value == self@.rm32(*modrm),
    {
        if modrm.modval == 3 {
            Ok(self.get_register32(modrm.rm as usize))
        } else {
            let address = self.calc_memory_address(modrm)?;
            self.get_memory32(address as usize)
        }
    }

    /// Writes `value` to the register-or-memory operand that `modrm` denotes.
    pub fn set_rm32(&mut self, modrm: &ModRM, value: u32) -> (done: Result<(), Fault>)
        requires
            modrm.wf(),
        ensures
            old(self)@.yields(old(self)@.with_rm32(*modrm, value), final(self)@, done),
    {
        if modrm.modval == 3 {
            self.set_register32(modrm.rm as usize, value);
            Ok(())
        } else {
            let address = self.calc_memory_address(modrm)?;
            self.set_memory32(address as usize, value)
        }
    }

    /// Reads the register that the register field of `modrm` names.
    pub fn get_r32(&self, modrm: &ModRM) -> (value: u32)
        requires
            modrm.wf(),
        ensures
            value == self@.r32(*modrm),
    {
        self.get_register32(modrm.reg_index as usize)
    }

    /// Writes `value` to the register that the register field of `modrm`
    /// names.
    pub fn set_r32(&mut self, modrm: &ModRM, value: u32)
        requires
            modrm.wf(),
        ensures
            final(self)@ == old(self)@.with_r32(*modrm, value),
    {
        self.set_register32(modrm.reg_index as usize, value);
    }

    /// Moves the instruction pointer forward by `count` bytes that lie
    /// within memory.
    pub(crate) fn advance(&mut self, count: usize)
        requires
            old(self)@.eip + count <= old(self)@.memory.len(),
        ensures
            final(self)@ == old(self)@.advance(count as nat),
    {
        assert(self.memory@.len() == self.memory.len());
        self.eip = self.eip + count;
    }

    /// Gives up the instruction that began at `start`: puts the instruction
    /// pointer back there and reports `fault`.
    fn abandon(&mut self, start: usize, fault: Fault) -> (done: Result<(), Fault>)
        ensures
            final(self)@ == old(self)@.jump(start as nat),
            done == Err::<(), Fault>(fault),
    {
        self.eip = start;
        Err(fault)
    }

    /// Decodes the operand descriptor that follows the opcode byte and
    /// leaves the instruction pointer past both.
    fn fetch_operand(&mut self) -> (operand: Result<ModRM, Fault>)
        ensures
            match old(self)@.operand() {
                Ok((modrm, next)) => {
                    &&& operand == Ok::<ModRM, Fault>(modrm)
                    &&& modrm.wf()
                    &&& final(self)@ == next
                },
                Err(fault) => {
                    &&& operand == Err::<ModRM, Fault>(fault)
                    &&& final(self)@ == old(self)@
                },
            },
    {
        if self.eip >= self.memory.len() {
            return Err(Fault::Bounds);
        }
        self.advance(1);
        let mut modrm = ModRM::default();
        match modrm.parse_modrm(self) {
            Ok(()) => Ok(modrm),
            Err(fault) => {
                self.eip = self.eip - 1;
                Err(fault)
            },
        }
    }

    /// `mov r32, imm32`: loads the double word after the opcode byte into
    /// the register that the low three bits of `opcode` name.
    fn mov_r32_imm32(&mut self, opcode: u32) -> (done: Result<(), Fault>)
        requires
            0xB8 <= opcode <= 0xBF,
        ensures
            old(self)@.yields(old(self)@.mov_r32_imm32(opcode - 0xB8), final(self)@, done),
    {
        let value = self.get_code32(1)?;
        self.set_register32((opcode - 0xB8) as usize, value);
        self.advance(5);
        Ok(())
    }

    /// `mov r/m32, imm32`.
    fn mov_rm32_imm32(&mut self) -> (done: Result<(), Fault>)
        ensures
            old(self)@.yields(old(self)@.mov_rm32_imm32(), final(self)@, done),
    {
        let start = self.eip;
        let modrm = self.fetch_operand()?;
        let value = match self.get_code32(0) {
            Ok(value) => value,
            Err(fault) => {
                return self.abandon(start, fault);
            },
        };
        self.advance(4);
        match self.set_rm32(&modrm, value) {
            Ok(()) => Ok(()),
            Err(fault) => self.abandon(start, fault),
        }
    }

    /// `mov r/m32, r32`.
    fn mov_rm32_r32(&mut self) -> (done: Result<(), Fault>)
        ensures
            old(self)@.yields(old(self)@.mov_rm32_r32(), final(self)@, done),
    {
        let start = self.eip;
        let modrm = self.fetch_operand()?;
        let r32 = self.get_r32(&modrm);
        match self.set_rm32(&modrm, r32) {
            Ok(()) => Ok(()),
            Err(fault) => self.abandon(start, fault),
        }
    }

    /// `mov r32, r/m32`.
    fn mov_r32_rm32(&mut self) -> (done: Result<(), Fault>)
        ensures
            old(self)@.yields(old(self)@.mov_r32_rm32(), final(self)@, done),
    {
        let start = self.eip;
        let modrm = self.fetch_operand()?;
        match self.get_rm32(&modrm) {
            Ok(rm32) => {
                self.set_r32(&modrm, rm32);
                Ok(())
            },
            Err(fault) => self.abandon(start, fault),
        }
    }

    /// Sets the instruction pointer `diff` bytes past the end of the
    /// current instruction, which is `length` bytes long.
    fn jump_relative(&mut self, length: u8, diff: i32) -> (done: Result<(), Fault>)
        ensures
            old(self)@.yields(
                old(self)@.jump_relative(length as int, diff as int),
                final(self)@,
                done,
            ),
    {
        let target: i128 = self.eip as i128 + length as i128 + diff as i128;
        if 0 <= target && target <= usize::MAX as i128 {
            self.eip = target as usize;
            Ok(())
        } else {
            Err(Fault::Bounds)
        }
    }

    /// `jmp rel8`.
    fn short_jmp(&mut self) -> (done: Result<(), Fault>)
        ensures
            old(self)@.yields(old(self)@.short_jmp(), final(self)@, done),
    {
        let diff = self.get_sign_code8(1)?;
        self.jump_relative(2, diff)
    }

    /// `jmp rel32`.
    fn near_jmp(&mut self) -> (done: Result<(), Fault>)
        ensures
            old(self)@.yields(old(self)@.near_jmp(), final(self)@, done),
    {
        let diff = self.get_sign_code32(1)?;
        self.jump_relative(5, diff)
    }

    /// `add r/m32, r32`.
    fn add_rm32_r32(&mut self) -> (done: Result<(), Fault>)
        ensures
            old(self)@.yields(old(self)@.add_rm32_r32(), final(self)@, done),
    {
        let start = self.eip;
        let modrm = self.fetch_operand()?;
        let r32 = self.get_r32(&modrm);
        let rm32 = match self.get_rm32(&modrm) {
            Ok(value) => value,
            Err(fault) => {
                return self.abandon(start, fault);
            },
        };
        match self.set_rm32(&modrm, rm32.wrapping_add(r32)) {
            Ok(()) => Ok(()),
            Err(fault) => self.abandon(start, fault),
        }
    }

    /// `sub r/m32, imm8`, with the instruction pointer at the immediate.
    fn sub_rm32_imm8(&mut self, modrm: &ModRM) -> (done: Result<(), Fault>)
        requires
            modrm.wf(),
        ensures
            old(self)@.yields(old(self)@.sub_rm32_imm8(*modrm), final(self)@, done),
    {
        let start = self.eip;
        let rm32 = self.get_rm32(modrm)?;
        let imm8 = self.get_sign_code8(0)?;
        self.advance(1);
        match self.set_rm32(modrm, rm32.wrapping_add_signed(-imm8)) {
            Ok(()) => Ok(()),
            Err(fault) => self.abandon(start, fault),
        }
    }

    /// Group opcode 0x83.
    fn code_83(&mut self) -> (done: Result<(), Fault>)
        ensures
            old(self)@.yields(old(self)@.code_83(), final(self)@, done),
    {
        let start = self.eip;
        let modrm = self.fetch_operand()?;
        let outcome = match modrm.opecode {
            5 => self.sub_rm32_imm8(&modrm),
            _ => Err(Fault::UnimplementedOpcode { opcode: 0x83, extension: Some(modrm.opecode) }),
        };
        match outcome {
            Ok(()) => Ok(()),
            Err(fault) => self.abandon(start, fault),
        }
    }

    /// `inc r/m32`, with the instruction pointer past the descriptor.
    fn inc_rm32(&mut self, modrm: &ModRM) -> (done: Result<(), Fault>)
        requires
            modrm.wf(),
        ensures
            old(self)@.yields(old(self)@.inc_rm32(*modrm), final(self)@, done),
    {
        let value = self.get_rm32(modrm)?;
        self.set_rm32(modrm, value.wrapping_add(1))
    }

    /// Group opcode 0xFF.
    fn code_ff(&mut self) -> (done: Result<(), Fault>)
        ensures
            old(self)@.yields(old(self)@.code_ff(), final(self)@, done),
    {
        let start = self.eip;
        let modrm = self.fetch_operand()?;
        let outcome = match modrm.opecode {
            0 => self.inc_rm32(&modrm),
            _ => Err(Fault::UnimplementedOpcode { opcode: 0xFF, extension: Some(modrm.opecode) }),
        };
        match outcome {
            Ok(()) => Ok(()),
            Err(fault) => self.abandon(start, fault),
        }
    }

    /// Executes the instruction whose opcode byte is `opcode` and whose
    /// operand bytes follow the byte at the instruction pointer.
    ///
    /// On success the state is the one that the model's
    /// [`execute`](Machine::execute) gives, with the instruction pointer at
    /// the next instruction; on a fault nothing has changed.
    pub fn call_instruction(&mut self, opcode: u32) -> (done: Result<(), Fault>)
        ensures
            old(self)@.yields(old(self)@.execute(opcode), final(self)@, done),
    {
        match opcode {
            0x01 => self.add_rm32_r32(),
            0x83 => self.code_83(),
            0x89 => self.mov_rm32_r32(),
            0x8B => self.mov_r32_rm32(),
            0xB8..=0xBF => self.mov_r32_imm32(opcode),
            0xC7 => self.mov_rm32_imm32(),
            0xE9 => self.near_jmp(),
            0xEB => self.short_jmp(),
            0xFF => self.code_ff(),
            _ => Err(Fault::UnimplementedOpcode { opcode, extension: None }),
        }
    }

    /// Executes the instruction at the instruction pointer.
    ///
    /// On success the state is the one that the model's
    /// [`step`](Machine::step) gives; on a fault nothing has changed.
    pub fn step(&mut self) -> (done: Result<(), Fault>)
        ensures
            old(self)@.yields(old(self)@.step(), final(self)@, done),
    {
        let opcode = self.get_code8(0)?;
        self.call_instruction(opcode)
    }
}

} // verus!

