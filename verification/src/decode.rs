//! The instruction decoder: from a 16-bit opcode to an instruction with its
//! operands.

use vstd::prelude::*;

verus! {

/// One instruction with its operands taken apart.
///
/// `x` and `y` name registers, `n` is a four-bit count, `kk` a byte and `nnn`
/// a twelve-bit address.
#[derive(Clone, Copy, Debug, PartialEq, Eq, Structural)]
pub enum Instruction {
    /// `00CN`: scroll the display down by `n` rows.
    Scd { n: u8 },
    /// `00DN`: scroll the display up by `n` rows.
    Scu { n: u8 },
    /// `00E0`: clear the display.
    Cls,
    /// `00EE`: return from a subroutine.
    Ret,
    /// `00FB`: scroll right by four cells.
    Scr,
    /// `00FC`: scroll left by four cells.
    Scl,
    /// `00FE`: switch to low resolution.
    Low,
    /// `00FF`: switch to high resolution.
    High,
    /// `1NNN`: jump to `nnn`.
    Jp { nnn: u16 },
    /// `2NNN`: call the subroutine at `nnn`.
    Call { nnn: u16 },
    /// `3XKK`: skip the next instruction if Vx equals `kk`.
    SeVxByte { x: u8, kk: u8 },
    /// `4XKK`: skip the next instruction if Vx differs from `kk`.
    SneVxByte { x: u8, kk: u8 },
    /// `5XY_`: skip the next instruction if Vx equals Vy.
    SeVxVy { x: u8, y: u8 },
    /// `6XKK`: set Vx to `kk`.
    LdVxByte { x: u8, kk: u8 },
    /// `7XKK`: add `kk` to Vx.
    AddVxByte { x: u8, kk: u8 },
    /// `8XY0`: set Vx to Vy.
    LdVxVy { x: u8, y: u8 },
    /// `8XY1`: set Vx to Vx or Vy.
    OrVxVy { x: u8, y: u8 },
    /// `8XY2`: set Vx to Vx and Vy.
    AndVxVy { x: u8, y: u8 },
    /// `8XY3`: set Vx to Vx xor Vy.
    XorVxVy { x: u8, y: u8 },
    /// `8XY4`: add Vy to Vx, with carry in VF.
    AddVxVy { x: u8, y: u8 },
    /// `8XY5`: subtract Vy from Vx, with "no borrow" in VF.
    SubVxVy { x: u8, y: u8 },
    /// `8XY6`: shift Vx right by one, with the lost bit in VF.
    ShrVx { x: u8 },
    /// `8XY7`: set Vx to Vy minus Vx, with "no borrow" in VF.
    SubnVxVy { x: u8, y: u8 },
    /// `8XYE`: shift Vx left by one, with the lost bit in VF.
    ShlVx { x: u8 },
    /// `9XY_`: skip the next instruction if Vx differs from Vy.
    SneVxVy { x: u8, y: u8 },
    /// `ANNN`: set I to `nnn`.
    LdIAddr { nnn: u16 },
    /// `BNNN`: jump to `nnn` plus V0.
    JpV0Addr { nnn: u16 },
    /// `CXKK`: set Vx to a random byte masked by `kk`.
    RndVxByte { x: u8, kk: u8 },
    /// `DXYN`: draw the sprite at I at (Vx, Vy).
    DrwVxVyNibble { x: u8, y: u8, n: u8 },
    /// `EX9E`: skip the next instruction if the key in Vx is down.
    SkpVx { x: u8 },
    /// `EXA1`: skip the next instruction if the key in Vx is up.
    SknpVx { x: u8 },
    /// `FX07`: set Vx to the delay timer.
    LdVxDt { x: u8 },
    /// `FX0A`: wait for a key.
    LdVxK { x: u8 },
    /// `FX15`: set the delay timer to Vx.
    LdDtVx { x: u8 },
    /// `FX18`: set the sound timer to Vx.
    LdStVx { x: u8 },
    /// `FX1E`: add Vx to I.
    AddIVx { x: u8 },
    /// `FX29`: point I at the five-byte glyph for Vx.
    LdFVx { x: u8 },
    /// `FX30`: point I at the ten-byte glyph for Vx.
    LdHfVx { x: u8 },
    /// `FX33`: store the three decimal digits of Vx at I.
    LdBVx { x: u8 },
    /// `FX55`: store V0 to Vx at I.
    LdIVx { x: u8 },
    /// `FX65`: load V0 to Vx from I.
    LdVxI { x: u8 },
}

/// What an opcode turned out to be.
#[derive(Clone, Copy, Debug, PartialEq, Eq, Structural)]
pub enum Decoded {
    /// An instruction to run.
    Run(Instruction),
    /// A known encoding that the machine does not carry out.
    Unimplemented,
    /// No instruction at all.
    Unknown,
}

/// The four nibbles of an opcode, highest first.
pub open spec fn nibbles(opcode: u16) -> (u16, u16, u16, u16) {
    (opcode / 0x1000, (opcode / 0x100) % 0x10, (opcode / 0x10) % 0x10, opcode % 0x10)
}

/// The operand fields of an opcode: `x`, `y`, `nnn`, `kk` and `n`.
pub open spec fn variables(opcode: u16) -> (u8, u8, u16, u8, u8) {
    (
        ((opcode / 0x100) % 0x10) as u8,
        ((opcode / 0x10) % 0x10) as u8,
        opcode % 0x1000,
        (opcode % 0x100) as u8,
        (opcode % 0x10) as u8,
    )
}

/// The instruction set as a table from opcodes to instructions.
pub open spec fn decode_spec(opcode: u16) -> Decoded {
    let (n1, n2, n3, n4) = nibbles(opcode);
    let (x, y, nnn, kk, n) = variables(opcode);
    if n1 == 0x0 {
        if n2 != 0 {
            Decoded::Unknown
        } else if n3 == 0xC {
            Decoded::Run(Instruction::Scd { n })
        } else if n3 == 0xD {
            Decoded::Run(Instruction::Scu { n })
        } else if n3 == 0xE && n4 == 0x0 {
            Decoded::Run(Instruction::Cls)
        } else if n3 == 0xE && n4 == 0xE {
            Decoded::Run(Instruction::Ret)
        } else if n3 == 0xF && n4 == 0xB {
            Decoded::Run(Instruction::Scr)
        } else if n3 == 0xF && n4 == 0xC {
            Decoded::Run(Instruction::Scl)
        } else if n3 == 0xF && n4 == 0xD {
            Decoded::Unimplemented
        } else if n3 == 0xF && n4 == 0xE {
            Decoded::Run(Instruction::Low)
        } else if n3 == 0xF && n4 == 0xF {
            Decoded::Run(Instruction::High)
        } else {
            Decoded::Unknown
        }
    } else if n1 == 0x1 {
        Decoded::Run(Instruction::Jp { nnn })
    } else if n1 == 0x2 {
        Decoded::Run(Instruction::Call { nnn })
    } else if n1 == 0x3 {
        Decoded::Run(Instruction::SeVxByte { x, kk })
    } else if n1 == 0x4 {
        Decoded::Run(Instruction::SneVxByte { x, kk })
    } else if n1 == 0x5 {
        if n4 == 0x2 || n4 == 0x3 {
            Decoded::Unimplemented
        } else {
            Decoded::Run(Instruction::SeVxVy { x, y })
        }
    } else if n1 == 0x6 {
        Decoded::Run(Instruction::LdVxByte { x, kk })
    } else if n1 == 0x7 {
        Decoded::Run(Instruction::AddVxByte { x, kk })
    } else if n1 == 0x8 {
        if n4 == 0x0 {
            Decoded::Run(Instruction::LdVxVy { x, y })
        } else if n4 == 0x1 {
            Decoded::Run(Instruction::OrVxVy { x, y })
        } else if n4 == 0x2 {
            Decoded::Run(Instruction::AndVxVy { x, y })
        } else if n4 == 0x3 {
            Decoded::Run(Instruction::XorVxVy { x, y })
        } else if n4 == 0x4 {
            Decoded::Run(Instruction::AddVxVy { x, y })
        } else if n4 == 0x5 {
            Decoded::Run(Instruction::SubVxVy { x, y })
        } else if n4 == 0x6 {
            Decoded::Run(Instruction::ShrVx { x })
        } else if n4 == 0x7 {
            Decoded::Run(Instruction::SubnVxVy { x, y })
        } else if n4 == 0xE {
            Decoded::Run(Instruction::ShlVx { x })
        } else {
            Decoded::Unknown
        }
    } else if n1 == 0x9 {
        Decoded::Run(Instruction::SneVxVy { x, y })
    } else if n1 == 0xA {
        Decoded::Run(Instruction::LdIAddr { nnn })
    } else if n1 == 0xB {
        Decoded::Run(Instruction::JpV0Addr { nnn })
    } else if n1 == 0xC {
        Decoded::Run(Instruction::RndVxByte { x, kk })
    } else if n1 == 0xD {
        Decoded::Run(Instruction::DrwVxVyNibble { x, y, n })
    } else if n1 == 0xE {
        if n3 == 0x9 && n4 == 0xE {
            Decoded::Run(Instruction::SkpVx { x })
        } else if n3 == 0xA && n4 == 0x1 {
            Decoded::Run(Instruction::SknpVx { x })
        } else {
            Decoded::Unknown
        }
    } else {
        if n3 == 0x0 && n4 == 0x1 {
            Decoded::Unimplemented
        } else if n3 == 0x0 && n4 == 0x7 {
            Decoded::Run(Instruction::LdVxDt { x })
        } else if n3 == 0x0 && n4 == 0xA {
            Decoded::Run(Instruction::LdVxK { x })
        } else if n3 == 0x1 && n4 == 0x5 {
            Decoded::Run(Instruction::LdDtVx { x })
        } else if n3 == 0x1 && n4 == 0x8 {
            Decoded::Run(Instruction::LdStVx { x })
        } else if n3 == 0x1 && n4 == 0xE {
            Decoded::Run(Instruction::AddIVx { x })
        } else if n3 == 0x2 && n4 == 0x9 {
            Decoded::Run(Instruction::LdFVx { x })
        } else if n3 == 0x3 && n4 == 0x0 {
            Decoded::Run(Instruction::LdHfVx { x })
        } else if n3 == 0x3 && n4 == 0x3 {
            Decoded::Run(Instruction::LdBVx { x })
        } else if n3 == 0x5 && n4 == 0x5 {
            Decoded::Run(Instruction::LdIVx { x })
        } else if n3 == 0x6 && n4 == 0x5 {
            Decoded::Run(Instruction::LdVxI { x })
        } else if (n3 == 0x7 || n3 == 0x8) && n4 == 0x5 {
            Decoded::Unimplemented
        } else if n2 == 0x0 && n3 == 0x0 && (n4 == 0x0 || n4 == 0x2) {
            Decoded::Unimplemented
        } else if n2 == 0x0 && n3 == 0x3 && n4 == 0xA {
            Decoded::Unimplemented
        } else {
            Decoded::Unknown
        }
    }
}

impl Instruction {
    /// The registers that the instruction names.
    pub open spec fn registers(self) -> (u8, u8) {
        match self {
            Instruction::SeVxByte { x, .. }
            | Instruction::SneVxByte { x, .. }
            | Instruction::LdVxByte { x, .. }
            | Instruction::AddVxByte { x, .. }
            | Instruction::RndVxByte { x, .. }
            | Instruction::ShrVx { x }
            | Instruction::ShlVx { x }
            | Instruction::SkpVx { x }
            | Instruction::SknpVx { x }
            | Instruction::LdVxDt { x }
            | Instruction::LdVxK { x }
            | Instruction::LdDtVx { x }
            | Instruction::LdStVx { x }
            | Instruction::AddIVx { x }
            | Instruction::LdFVx { x }
            | Instruction::LdHfVx { x }
            | Instruction::LdBVx { x }
            | Instruction::LdIVx { x }
            | Instruction::LdVxI { x } => (x, 0),
            Instruction::SeVxVy { x, y }
            | Instruction::LdVxVy { x, y }
            | Instruction::OrVxVy { x, y }
            | Instruction::AndVxVy { x, y }
            | Instruction::XorVxVy { x, y }
            | Instruction::AddVxVy { x, y }
            | Instruction::SubVxVy { x, y }
            | Instruction::SubnVxVy { x, y }
            | Instruction::SneVxVy { x, y }
            | Instruction::DrwVxVyNibble { x, y, .. } => (x, y),
            _ => (0, 0),
        }
    }

    /// The count that the instruction carries, if it carries one.
    pub open spec fn count(self) -> u8 {
        match self {
            Instruction::Scd { n } | Instruction::Scu { n } | Instruction::DrwVxVyNibble {
                n,
                ..
            } => n,
            _ => 0,
        }
    }

    /// The operands are within what an opcode can hold: register numbers and
    /// counts below 16.
    pub open spec fn wf(self) -> bool {
        &&& self.registers().0 < 16
        &&& self.registers().1 < 16
        &&& self.count() < 16
    }
}

/// Splits an opcode into its four nibbles, highest first.
pub fn get_nibbles(opcode: u16) -> (nib: (u16, u16, u16, u16))
    ensures
        nib == nibbles(opcode),
{
    let nib_1: u16 = (opcode & 0xF000) >> 12;
    let nib_2: u16 = (opcode & 0x0F00) >> 8;
    let nib_3: u16 = (opcode & 0x00F0) >> 4;
    let nib_4: u16 = opcode & 0x000F;
    assert(nib_1 == opcode / 0x1000) by (bit_vector)
        requires
            nib_1 == (opcode & 0xF000) >> 12,
    ;
    assert(nib_2 == (opcode / 0x100) % 0x10) by (bit_vector)
        requires
            nib_2 == (opcode & 0x0F00) >> 8,
    ;
    assert(nib_3 == (opcode / 0x10) % 0x10) by (bit_vector)
        requires
            nib_3 == (opcode & 0x00F0) >> 4,
    ;
    assert(nib_4 == opcode % 0x10) by (bit_vector)
        requires
            nib_4 == opcode & 0x000F,
    ;
    (nib_1, nib_2, nib_3, nib_4)
}

/// Reads the operand fields of an opcode: `x`, `y`, `nnn`, `kk` and `n`.
pub fn get_variables(opcode: u16) -> (vars: (u8, u8, u16, u8, u8))
    ensures
        vars == variables(opcode),
        vars.0 < 16,
        vars.1 < 16,
        vars.2 < 0x1000,
        vars.4 < 16,
{
    let (_, nib_2, nib_3, nib_4) = get_nibbles(opcode);
    let nnn: u16 = opcode & 0x0FFF;
    let low: u16 = opcode & 0x00FF;
    assert(nnn == opcode % 0x1000) by (bit_vector)
        requires
            nnn == opcode & 0x0FFF,
    ;
    assert(low == opcode % 0x100) by (bit_vector)
        requires
            low == opcode & 0x00FF,
    ;
    (nib_2 as u8, nib_3 as u8, nnn, low as u8, nib_4 as u8)
}

/// Decodes an opcode.
pub fn decode(opcode: u16) -> (decoded: Decoded)
    ensures
        decoded == decode_spec(opcode),
        decoded matches Decoded::Run(instruction) ==> instruction.wf(),
{
    let nibbles = get_nibbles(opcode);
    let (x, y, nnn, kk, n) = get_variables(opcode);
    match nibbles {
        (0x0, 0x0, 0xC, _) => Decoded::Run(Instruction::Scd { n }),
        (0x0, 0x0, 0xD, _) => Decoded::Run(Instruction::Scu { n }),
        (0x0, 0x0, 0xE, 0x0) => Decoded::Run(Instruction::Cls),
        (0x0, 0x0, 0xE, 0xE) => Decoded::Run(Instruction::Ret),
        (0x0, 0x0, 0xF, 0xB) => Decoded::Run(Instruction::Scr),
        (0x0, 0x0, 0xF, 0xC) => Decoded::Run(Instruction::Scl),
        (0x0, 0x0, 0xF, 0xD) => Decoded::Unimplemented,
        (0x0, 0x0, 0xF, 0xE) => Decoded::Run(Instruction::Low),
        (0x0, 0x0, 0xF, 0xF) => Decoded::Run(Instruction::High),
        (0x1, _, _, _) => Decoded::Run(Instruction::Jp { nnn }),
        (0x2, _, _, _) => Decoded::Run(Instruction::Call { nnn }),
        (0x3, _, _, _) => Decoded::Run(Instruction::SeVxByte { x, kk }),
        (0x4, _, _, _) => Decoded::Run(Instruction::SneVxByte { x, kk }),
        (0x5, _, _, 0x2) => Decoded::Unimplemented,
        (0x5, _, _, 0x3) => Decoded::Unimplemented,
        (0x5, _, _, _) => Decoded::Run(Instruction::SeVxVy { x, y }),
        (0x6, _, _, _) => Decoded::Run(Instruction::LdVxByte { x, kk }),
        (0x7, _, _, _) => Decoded::Run(Instruction::AddVxByte { x, kk }),
        (0x8, _, _, 0x0) => Decoded::Run(Instruction::LdVxVy { x, y }),
        (0x8, _, _, 0x1) => Decoded::Run(Instruction::OrVxVy { x, y }),
        (0x8, _, _, 0x2) => Decoded::Run(Instruction::AndVxVy { x, y }),
        (0x8, _, _, 0x3) => Decoded::Run(Instruction::XorVxVy { x, y }),
        (0x8, _, _, 0x4) => Decoded::Run(Instruction::AddVxVy { x, y }),
        (0x8, _, _, 0x5) => Decoded::Run(Instruction::SubVxVy { x, y }),
        (0x8, _, _, 0x6) => Decoded::Run(Instruction::ShrVx { x }),
        (0x8, _, _, 0x7) => Decoded::Run(Instruction::SubnVxVy { x, y }),
        (0x8, _, _, 0xE) => Decoded::Run(Instruction::ShlVx { x }),
        (0x9, _, _, _) => Decoded::Run(Instruction::SneVxVy { x, y }),
        (0xA, _, _, _) => Decoded::Run(Instruction::LdIAddr { nnn }),
        (0xB, _, _, _) => Decoded::Run(Instruction::JpV0Addr { nnn }),
        (0xC, _, _, _) => Decoded::Run(Instruction::RndVxByte { x, kk }),
        (0xD, _, _, _) => Decoded::Run(Instruction::DrwVxVyNibble { x, y, n }),
        (0xE, _, 0x9, 0xE) => Decoded::Run(Instruction::SkpVx { x }),
        (0xE, _, 0xA, 0x1) => Decoded::Run(Instruction::SknpVx { x }),
        (0xF, _, 0x0, 0x1) => Decoded::Unimplemented,
        (0xF, _, 0x0, 0x7) => Decoded::Run(Instruction::LdVxDt { x }),
        (0xF, _, 0x0, 0xA) => Decoded::Run(Instruction::LdVxK { x }),
        (0xF, _, 0x1, 0x5) => Decoded::Run(Instruction::LdDtVx { x }),
        (0xF, _, 0x1, 0x8) => Decoded::Run(Instruction::LdStVx { x }),
        (0xF, _, 0x1, 0xE) => Decoded::Run(Instruction::AddIVx { x }),
        (0xF, _, 0x2, 0x9) => Decoded::Run(Instruction::LdFVx { x }),
        (0xF, _, 0x3, 0x0) => Decoded::Run(Instruction::LdHfVx { x }),
        (0xF, _, 0x3, 0x3) => Decoded::Run(Instruction::LdBVx { x }),
        (0xF, _, 0x5, 0x5) => Decoded::Run(Instruction::LdIVx { x }),
        (0xF, _, 0x7, 0x5) => Decoded::Unimplemented,
        (0xF, _, 0x8, 0x5) => Decoded::Unimplemented,
        (0xF, _, 0x6, 0x5) => Decoded::Run(Instruction::LdVxI { x }),
        (0xF, 0x0, 0x0, 0x2) => Decoded::Unimplemented,
        (0xF, 0x0, 0x0, 0x0) => Decoded::Unimplemented,
        (0xF, 0x0, 0x3, 0xA) => Decoded::Unimplemented,
        (_, _, _, _) => Decoded::Unknown,
    }
}

} // verus!
