//! The ModRM operand descriptor and its decoder.

use vstd::prelude::*;
use crate::emulator::Emulator;
use crate::fault::Fault;

verus! {

/// The displacement that follows a ModRM byte.
#[derive(Clone, Copy, Debug, PartialEq, Eq)]
pub enum Displacement {
    /// The addressing form carries no displacement.
    Absent,
    /// One byte, read as a signed number.
    Byte(i8),
    /// Four little-endian bytes, read as a signed number.
    Dword(i32),
}

impl Displacement {
    /// The signed number that the displacement adds to an address.
    pub open spec fn value(self) -> int {
        match self {
            Displacement::Absent => 0,
            Displacement::Byte(d) => d as int,
            Displacement::Dword(d) => d as int,
        }
    }

    /// How many bytes of the instruction stream the displacement occupies.
    pub open spec fn size(self) -> nat {
        match self {
            Displacement::Absent => 0,
            Displacement::Byte(_) => 1,
            Displacement::Dword(_) => 4,
        }
    }
}

/// A decoded ModRM byte together with its displacement.
///
/// `opecode` and `reg_index` are two readings of the same three bits: group
/// opcodes take them as a sub-opcode, the other instructions as a register
/// number.
#[derive(Clone, Copy, Debug, PartialEq, Eq)]
pub struct ModRM {
    /// Addressing mode: 0 indirect, 1 indirect with an 8-bit displacement,
    /// 2 indirect with a 32-bit displacement, 3 register-direct.
    pub modval: u8,
    pub opecode: u8,
    pub reg_index: u8,
    /// Base register; in the indirect modes 4 asks for a SIB byte, and in
    /// mode 0 the value 5 asks for an absolute 32-bit address.
    pub rm: u8,
    pub disp: Displacement,
}

/// The mode field of a ModRM byte: bits 7 and 6.
pub open spec fn mode_field(byte: u8) -> u8 {
    byte / 0x40
}

/// The register or sub-opcode field of a ModRM byte: bits 5 to 3.
pub open spec fn reg_field(byte: u8) -> u8 {
    byte / 8 % 8
}

/// The base field of a ModRM byte: bits 2 to 0.
pub open spec fn base_field(byte: u8) -> u8 {
    byte % 8
}

/// The ModRM byte with mode `modval`, register field `reg` and base field
/// `rm`.
pub open spec fn modrm_byte(modval: u8, reg: u8, rm: u8) -> u8 {
    (modval * 0x40 + reg * 8 + rm) as u8
}

/// Whether mode `modval` with base field `rm` stands for an addressing form
/// that needs a SIB byte.
pub open spec fn needs_sib(modval: u8, rm: u8) -> bool {
    modval != 3 && rm == 4
}

/// How many displacement bytes follow a ModRM byte of mode `modval` and base
/// field `rm`.
pub open spec fn displacement_size(modval: u8, rm: u8) -> nat {
    if modval == 2 || (modval == 0 && rm == 5) {
        4
    } else if modval == 1 {
        1
    } else {
        0
    }
}

impl ModRM {
    /// The fields are within their bit widths and the displacement is of the
    /// size that mode and base field call for.
    pub open spec fn wf(self) -> bool {
        &&& self.modval <= 3
        &&& self.reg_index <= 7
        &&& self.opecode == self.reg_index
        &&& self.rm <= 7
        &&& self.disp.size() == displacement_size(self.modval, self.rm)
    }

    /// Number of bytes that the descriptor occupies in the instruction
    /// stream: the ModRM byte and its displacement.
    pub open spec fn len(self) -> nat {
        1 + self.disp.size()
    }

    /// Decodes the ModRM byte at the instruction pointer of `emu`, and the
    /// displacement that its mode calls for, into `self`, and moves the
    /// instruction pointer past the bytes read.
    ///
    /// On a fault neither `self` nor `emu` has changed.
    pub fn parse_modrm(&mut self, emu: &mut Emulator) -> (done: Result<(), Fault>)
        ensures
            match old(emu)@.decode() {
                Ok(modrm) => {
                    &&& done is Ok
                    &&& *final(self) == modrm
                    &&& final(self).wf()
                    &&& final(emu)@ == old(emu)@.advance(modrm.len())
                },
                Err(fault) => {
                    &&& done == Err::<(), Fault>(fault)
                    &&& *final(self) == *old(self)
                    &&& final(emu)@ == old(emu)@
                },
            },
    {
        let code = emu.get_code8(0)?;
        assert(((code & 0xC0) >> 6) == (code as u8) / 0x40 && ((code & 0x38) >> 3) == (code as u8) / 8
            % 8 && (code & 0x07) == (code as u8) % 8) by (bit_vector)
            requires
                code < 0x100,
        ;
        let modval: u8 = ((code & 0xC0) >> 6) as u8;
        let reg: u8 = ((code & 0x38) >> 3) as u8;
        let rm: u8 = (code & 0x07) as u8;
        if modval != 3 && rm == 4 {
            return Err(Fault::UnimplementedAddressing { modval, rm });
        }
        if modval == 2 || (modval == 0 && rm == 5) {
            let disp32 = emu.get_sign_code32(1)?;
            *self = ModRM {
                modval,
                opecode: reg,
                reg_index: reg,
                rm,
                disp: Displacement::Dword(disp32),
            };
            emu.advance(5);
        } else if modval == 1 {
            let disp8 = emu.get_sign_code8(1)?;
            *self = ModRM {
                modval,
                opecode: reg,
                reg_index: reg,
                rm,
                disp: Displacement::Byte(disp8 as i8),
            };
            emu.advance(2);
        } else {
            *self = ModRM { modval, opecode: reg, reg_index: reg, rm, disp: Displacement::Absent };
            emu.advance(1);
        }
        Ok(())
    }
}

impl Default for ModRM {
    /// Mode 0 on register 0 with no displacement.
    fn default() -> (modrm: ModRM)
        ensures
            modrm == (ModRM {
                modval: 0,
                opecode: 0,
                reg_index: 0,
                rm: 0,
                disp: Displacement::Absent,
            }),
            modrm.wf(),
    {
        ModRM { modval: 0, opecode: 0, reg_index: 0, rm: 0, disp: Displacement::Absent }
    }
}

} // verus!
