//! The mathematical model of the processor: what the state is and what each
//! instruction makes of it.

use vstd::prelude::*;
use crate::bytes::{dword_byte, le_dword, sign_extend32, sign_extend8, wrap32};
use crate::fault::Fault;
use crate::modrm::{base_field, mode_field, needs_sib, reg_field, Displacement, ModRM};

verus! {

/// The processor state as plain mathematical values.
#[verifier::ext_equal]
pub struct Machine {
    /// The general-purpose registers, in encoding order.
    pub registers: Seq<u32>,
    /// The flag register.
    pub eflags: u32,
    /// The bytes of memory.
    pub memory: Seq<u8>,
    /// Offset into `memory` of the next byte to fetch.
    pub eip: nat,
}

impl Machine {
    /// There are exactly eight registers.
    pub open spec fn wf(self) -> bool {
        self.registers.len() == 8
    }

    /// The state that construction leaves: `size` zero bytes of memory, the
    /// stack pointer at `esp`, every other register and the flags zero.
    pub open spec fn initial(size: nat, eip: nat, esp: u32) -> Machine {
        Machine {
            registers: Seq::new(8, |i: int| 0u32).update(4, esp),
            eflags: 0,
            memory: Seq::new(size, |i: int| 0u8),
            eip,
        }
    }

    /// What a mutating operation must leave behind when the model says
    /// `expected` of it: on success the state `after` is the expected one,
    /// and on a fault the fault is reported and nothing has changed.
    pub open spec fn yields(
        self,
        expected: Result<Machine, Fault>,
        after: Machine,
        done: Result<(), Fault>,
    ) -> bool {
        match expected {
            Ok(next) => done is Ok && after =~= next,
            Err(fault) => done == Err::<(), Fault>(fault) && after =~= self,
        }
    }

    /// The bytes from the instruction pointer on are `bytes`, all of them
    /// within memory.
    pub open spec fn encodes(self, bytes: Seq<u8>) -> bool {
        &&& self.eip + bytes.len() <= self.memory.len()
        &&& self.memory.subrange(self.eip as int, self.eip + bytes.len() as int) == bytes
    }

    /// The same state with the instruction pointer moved forward by `n`.
    pub open spec fn advance(self, n: nat) -> Machine {
        Machine { eip: self.eip + n, ..self }
    }

    /// The same state with the instruction pointer set to `target`.
    pub open spec fn jump(self, target: nat) -> Machine {
        Machine { eip: target, ..self }
    }

    /// The same state with register `index` holding `value`.
    pub open spec fn with_register(self, index: int, value: u32) -> Machine {
        Machine { registers: self.registers.update(index, value), ..self }
    }

    /// The byte at `address`, widened to 32 bits.
    pub open spec fn memory8(self, address: int) -> Result<u32, Fault> {
        if 0 <= address < self.memory.len() {
            Ok(self.memory[address] as u32)
        } else {
            Err(Fault::Bounds)
        }
    }

    /// The little-endian double word in the four bytes from `address` on.
    pub open spec fn memory32(self, address: int) -> Result<u32, Fault> {
        if 0 <= address && address + 4 <= self.memory.len() {
            Ok(
                le_dword(
                    self.memory[address],
                    self.memory[address + 1],
                    self.memory[address + 2],
                    self.memory[address + 3],
                ),
            )
        } else {
            Err(Fault::Bounds)
        }
    }

    /// The state after the low byte of `value` has been stored at `address`.
    pub open spec fn with_memory8(self, address: int, value: u32) -> Result<Machine, Fault> {
        if 0 <= address < self.memory.len() {
            Ok(Machine { memory: self.memory.update(address, dword_byte(value, 0)), ..self })
        } else {
            Err(Fault::Bounds)
        }
    }

    /// The state after the bytes of `image` have been copied into memory
    /// from `origin` on.  An image that does not fit is a bounds fault.
    pub open spec fn with_image(self, origin: int, image: Seq<u8>) -> Result<Machine, Fault> {
        if 0 <= origin && origin + image.len() <= self.memory.len() {
            Ok(
                Machine {
                    memory: self.memory.subrange(0, origin) + image + self.memory.subrange(
                        origin + image.len(),
                        self.memory.len() as int,
                    ),
                    ..self
                },
            )
        } else {
            Err(Fault::Bounds)
        }
    }

    /// The state after `value` has been stored, little-endian, in the four
    /// bytes from `address` on.
    pub open spec fn with_memory32(self, address: int, value: u32) -> Result<Machine, Fault> {
        if 0 <= address && address + 4 <= self.memory.len() {
            Ok(
                Machine {
                    memory: self.memory.update(address, dword_byte(value, 0)).update(
                        address + 1,
                        dword_byte(value, 1),
                    ).update(address + 2, dword_byte(value, 2)).update(
                        address + 3,
                        dword_byte(value, 3),
                    ),
                    ..self
                },
            )
        } else {
            Err(Fault::Bounds)
        }
    }

    /// The byte `index` places past the instruction pointer, widened to 32
    /// bits.
    pub open spec fn code8(self, index: int) -> Result<u32, Fault> {
        self.memory8(self.eip + index)
    }

    /// The byte `index` places past the instruction pointer, sign-extended.
    pub open spec fn sign_code8(self, index: int) -> Result<i32, Fault> {
        if 0 <= self.eip + index < self.memory.len() {
            Ok(sign_extend8(self.memory[self.eip + index]))
        } else {
            Err(Fault::Bounds)
        }
    }

    /// The double word that starts `index` places past the instruction
    /// pointer.
    pub open spec fn code32(self, index: int) -> Result<u32, Fault> {
        self.memory32(self.eip + index)
    }

    /// The double word that starts `index` places past the instruction
    /// pointer, read as a signed number.
    pub open spec fn sign_code32(self, index: int) -> Result<i32, Fault> {
        match self.code32(index) {
            Ok(value) => Ok(sign_extend32(value)),
            Err(fault) => Err(fault),
        }
    }

    /// The operand descriptor encoded at the instruction pointer.
    ///
    /// A byte outside memory is a bounds fault, of the ModRM byte first and
    /// of the displacement after it; a form that needs a SIB byte is an
    /// unimplemented-addressing fault and is found before the displacement
    /// is looked at.
    pub open spec fn decode(self) -> Result<ModRM, Fault> {
        if self.eip >= self.memory.len() {
            Err(Fault::Bounds)
        } else {
            let byte = self.memory[self.eip as int];
            let modval = mode_field(byte);
            let reg = reg_field(byte);
            let rm = base_field(byte);
            if needs_sib(modval, rm) {
                Err(Fault::UnimplementedAddressing { modval, rm })
            } else if modval == 2 || (modval == 0 && rm == 5) {
                match self.sign_code32(1) {
                    Ok(d) => Ok(
                        ModRM {
                            modval,
                            opecode: reg,
                            reg_index: reg,
                            rm,
                            disp: Displacement::Dword(d),
                        },
                    ),
                    Err(fault) => Err(fault),
                }
            } else if modval == 1 {
                match self.sign_code8(1) {
                    Ok(d) => Ok(
                        ModRM {
                            modval,
                            opecode: reg,
                            reg_index: reg,
                            rm,
                            disp: Displacement::Byte(d as i8),
                        },
                    ),
                    Err(fault) => Err(fault),
                }
            } else {
                Ok(ModRM { modval, opecode: reg, reg_index: reg, rm, disp: Displacement::Absent })
            }
        }
    }

    /// The effective address that `modrm` denotes, as an integer: the
    /// displacement alone for mode 0 with base field 5, otherwise the base
    /// register plus the displacement.
    pub open spec fn address_sum(self, modrm: ModRM) -> int {
        if modrm.modval == 0 && modrm.rm == 5 {
            modrm.disp.value()
        } else {
            self.registers[modrm.rm as int] + modrm.disp.value()
        }
    }

    /// The effective address of the memory operand that `modrm` denotes.
    ///
    /// Register-direct descriptors and forms that need a SIB byte have none:
    /// that is an unimplemented-addressing fault.  A sum below zero or above
    /// 2^32 - 1 is a bounds fault; it is never wrapped.
    pub open spec fn address(self, modrm: ModRM) -> Result<u32, Fault> {
        if modrm.modval == 3 || modrm.rm == 4 {
            Err(Fault::UnimplementedAddressing { modval: modrm.modval, rm: modrm.rm })
        } else if 0 <= self.address_sum(modrm) <= u32::MAX {
            Ok(self.address_sum(modrm) as u32)
        } else {
            Err(Fault::Bounds)
        }
    }

    /// The value of the register-or-memory operand that `modrm` denotes.
    pub open spec fn rm32(self, modrm: ModRM) -> Result<u32, Fault> {
        if modrm.modval == 3 {
            Ok(self.registers[modrm.rm as int])
        } else {
            match self.address(modrm) {
                Ok(address) => self.memory32(address as int),
                Err(fault) => Err(fault),
            }
        }
    }

    /// The state after `value` has been stored in the register-or-memory
    /// operand that `modrm` denotes.
    pub open spec fn with_rm32(self, modrm: ModRM, value: u32) -> Result<Machine, Fault> {
        if modrm.modval == 3 {
            Ok(self.with_register(modrm.rm as int, value))
        } else {
            match self.address(modrm) {
                Ok(address) => self.with_memory32(address as int, value),
                Err(fault) => Err(fault),
            }
        }
    }

    /// The value of the register operand that `modrm` names.
    pub open spec fn r32(self, modrm: ModRM) -> u32 {
        self.registers[modrm.reg_index as int]
    }

    /// The state after `value` has been stored in the register operand that
    /// `modrm` names.
    pub open spec fn with_r32(self, modrm: ModRM, value: u32) -> Machine {
        self.with_register(modrm.reg_index as int, value)
    }

    /// The descriptor that follows the opcode byte, and the state with the
    /// instruction pointer past both.
    pub open spec fn operand(self) -> Result<(ModRM, Machine), Fault> {
        match self.advance(1).decode() {
            Ok(modrm) => Ok((modrm, self.advance(1 + modrm.len()))),
            Err(fault) => Err(fault),
        }
    }

    /// `mov r32, imm32`: register `reg` takes the double word after the
    /// opcode byte; the instruction is five bytes long.
    pub open spec fn mov_r32_imm32(self, reg: int) -> Result<Machine, Fault> {
        match self.code32(1) {
            Ok(value) => Ok(self.with_register(reg, value).advance(5)),
            Err(fault) => Err(fault),
        }
    }

    /// `mov r/m32, imm32`: the operand takes the double word that follows
    /// the descriptor.
    pub open spec fn mov_rm32_imm32(self) -> Result<Machine, Fault> {
        match self.operand() {
            Ok((modrm, at_immediate)) => match at_immediate.code32(0) {
                Ok(value) => at_immediate.advance(4).with_rm32(modrm, value),
                Err(fault) => Err(fault),
            },
            Err(fault) => Err(fault),
        }
    }

    /// `mov r/m32, r32`: the operand takes the value of the register.
    pub open spec fn mov_rm32_r32(self) -> Result<Machine, Fault> {
        match self.operand() {
            Ok((modrm, next)) => next.with_rm32(modrm, next.r32(modrm)),
            Err(fault) => Err(fault),
        }
    }

    /// `mov r32, r/m32`: the register takes the value of the operand.
    pub open spec fn mov_r32_rm32(self) -> Result<Machine, Fault> {
        match self.operand() {
            Ok((modrm, next)) => match next.rm32(modrm) {
                Ok(value) => Ok(next.with_r32(modrm, value)),
                Err(fault) => Err(fault),
            },
            Err(fault) => Err(fault),
        }
    }

    /// `add r/m32, r32`: the operand takes the sum of itself and the
    /// register, modulo 2^32.  No flag changes.
    pub open spec fn add_rm32_r32(self) -> Result<Machine, Fault> {
        match self.operand() {
            Ok((modrm, next)) => match next.rm32(modrm) {
                Ok(value) => next.with_rm32(modrm, wrap32(value + next.r32(modrm))),
                Err(fault) => Err(fault),
            },
            Err(fault) => Err(fault),
        }
    }

    /// `sub r/m32, imm8`, on the state whose instruction pointer is at the
    /// immediate: the operand takes itself minus the sign-extended byte,
    /// modulo 2^32.
    pub open spec fn sub_rm32_imm8(self, modrm: ModRM) -> Result<Machine, Fault> {
        match self.rm32(modrm) {
            Ok(value) => match self.sign_code8(0) {
                Ok(immediate) => self.advance(1).with_rm32(modrm, wrap32(value - immediate)),
                Err(fault) => Err(fault),
            },
            Err(fault) => Err(fault),
        }
    }

    /// `inc r/m32`, on the state whose instruction pointer is past the
    /// descriptor: the operand takes itself plus one, modulo 2^32.
    pub open spec fn inc_rm32(self, modrm: ModRM) -> Result<Machine, Fault> {
        match self.rm32(modrm) {
            Ok(value) => self.with_rm32(modrm, wrap32(value + 1)),
            Err(fault) => Err(fault),
        }
    }

    /// Group opcode 0x83: sub-opcode 5 is `sub r/m32, imm8`; the others have
    /// no handler.
    pub open spec fn code_83(self) -> Result<Machine, Fault> {
        match self.operand() {
            Ok((modrm, next)) => if modrm.opecode == 5 {
                next.sub_rm32_imm8(modrm)
            } else {
                Err(Fault::UnimplementedOpcode { opcode: 0x83, extension: Some(modrm.opecode) })
            },
            Err(fault) => Err(fault),
        }
    }

    /// Group opcode 0xFF: sub-opcode 0 is `inc r/m32`; the others have no
    /// handler.
    pub open spec fn code_ff(self) -> Result<Machine, Fault> {
        match self.operand() {
            Ok((modrm, next)) => if modrm.opecode == 0 {
                next.inc_rm32(modrm)
            } else {
                Err(Fault::UnimplementedOpcode { opcode: 0xFF, extension: Some(modrm.opecode) })
            },
            Err(fault) => Err(fault),
        }
    }

    /// A jump relative to the end of an instruction of `length` bytes.  A
    /// target below zero or above `usize::MAX` is a bounds fault.
    pub open spec fn jump_relative(self, length: int, diff: int) -> Result<Machine, Fault> {
        if 0 <= self.eip + length + diff <= usize::MAX {
            Ok(self.jump((self.eip + length + diff) as nat))
        } else {
            Err(Fault::Bounds)
        }
    }

    /// `jmp rel8`: a jump relative to the end of the two-byte instruction.
    pub open spec fn short_jmp(self) -> Result<Machine, Fault> {
        match self.sign_code8(1) {
            Ok(diff) => self.jump_relative(2, diff as int),
            Err(fault) => Err(fault),
        }
    }

    /// `jmp rel32`: a jump relative to the end of the five-byte instruction.
    pub open spec fn near_jmp(self) -> Result<Machine, Fault> {
        match self.sign_code32(1) {
            Ok(diff) => self.jump_relative(5, diff as int),
            Err(fault) => Err(fault),
        }
    }

    /// What the instruction with opcode byte `opcode` at the instruction
    /// pointer does.  The operand bytes are those that follow the
    /// instruction pointer's byte in memory.
    pub open spec fn execute(self, opcode: u32) -> Result<Machine, Fault> {
        if opcode == 0x01 {
            self.add_rm32_r32()
        } else if opcode == 0x83 {
            self.code_83()
        } else if opcode == 0x89 {
            self.mov_rm32_r32()
        } else if opcode == 0x8B {
            self.mov_r32_rm32()
        } else if 0xB8 <= opcode <= 0xBF {
            self.mov_r32_imm32(opcode - 0xB8)
        } else if opcode == 0xC7 {
            self.mov_rm32_imm32()
        } else if opcode == 0xE9 {
            self.near_jmp()
        } else if opcode == 0xEB {
            self.short_jmp()
        } else if opcode == 0xFF {
            self.code_ff()
        } else {
            Err(Fault::UnimplementedOpcode { opcode, extension: None })
        }
    }

    /// One step: fetch the opcode byte at the instruction pointer and do
    /// what it says.
    pub open spec fn step(self) -> Result<Machine, Fault> {
        match self.code8(0) {
            Ok(opcode) => self.execute(opcode),
            Err(fault) => Err(fault),
        }
    }
}

} // verus!
