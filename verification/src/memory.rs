//! Memory: loading a program and the glyph tables, fetching opcodes, and the
//! instructions that work through the index register.

use crate::chip8::Chip8;
use crate::error::Chip8Error;
use crate::machine::Machine;
use crate::machine::BIG_FONT_ADDRESS;
use crate::machine::ENTRY_POINT;
use crate::machine::FLAG;
use crate::machine::RAM_SIZE;
use crate::machine::SCREEN_SIZE;
use vstd::prelude::*;

verus! {

/// Bytes in the table of five-byte glyphs.
pub const FONT_SIZE: usize = 80;

/// Bytes in the table of ten-byte glyphs.
pub const BIG_FONT_SIZE: usize = 160;

/// The glyphs 0 to F, five rows of eight pixels each; only the left four
/// columns are used.
pub const FONT: [u8; FONT_SIZE] = [
    0xF0, 0x90, 0x90, 0x90, 0xF0,
    0x20, 0x60, 0x20, 0x20, 0x70,
    0xF0, 0x10, 0xF0, 0x80, 0xF0,
    0xF0, 0x10, 0xF0, 0x10, 0xF0,
    0x90, 0x90, 0xF0, 0x10, 0x10,
    0xF0, 0x80, 0xF0, 0x10, 0xF0,
    0xF0, 0x80, 0xF0, 0x90, 0xF0,
    0xF0, 0x10, 0x20, 0x40, 0x40,
    0xF0, 0x90, 0xF0, 0x90, 0xF0,
    0xF0, 0x90, 0xF0, 0x10, 0xF0,
    0xF0, 0x90, 0xF0, 0x90, 0x90,
    0xE0, 0x90, 0xE0, 0x90, 0xE0,
    0xF0, 0x80, 0x80, 0x80, 0xF0,
    0xE0, 0x90, 0x90, 0x90, 0xE0,
    0xF0, 0x80, 0xF0, 0x80, 0xF0,
    0xF0, 0x80, 0xF0, 0x80, 0x80,
];

/// The glyphs 0 to F, ten rows of eight pixels each.
pub const BIG_FONT: [u8; BIG_FONT_SIZE] = [
    0xFF, 0xFF, 0xC3, 0xC3, 0xC3, 0xC3, 0xC3, 0xC3, 0xFF, 0xFF,
    0x18, 0x78, 0x78, 0x18, 0x18, 0x18, 0x18, 0x18, 0xFF, 0xFF,
    0xFF, 0xFF, 0x03, 0x03, 0xFF, 0xFF, 0xC0, 0xC0, 0xFF, 0xFF,
    0xFF, 0xFF, 0x03, 0x03, 0xFF, 0xFF, 0x03, 0x03, 0xFF, 0xFF,
    0xC3, 0xC3, 0xC3, 0xC3, 0xFF, 0xFF, 0x03, 0x03, 0x03, 0x03,
    0xFF, 0xFF, 0xC0, 0xC0, 0xFF, 0xFF, 0x03, 0x03, 0xFF, 0xFF,
    0xFF, 0xFF, 0xC0, 0xC0, 0xFF, 0xFF, 0xC3, 0xC3, 0xFF, 0xFF,
    0xFF, 0xFF, 0x03, 0x03, 0x06, 0x0C, 0x18, 0x18, 0x18, 0x18,
    0xFF, 0xFF, 0xC3, 0xC3, 0xFF, 0xFF, 0xC3, 0xC3, 0xFF, 0xFF,
    0xFF, 0xFF, 0xC3, 0xC3, 0xFF, 0xFF, 0x03, 0x03, 0xFF, 0xFF,
    0x7E, 0xFF, 0xC3, 0xC3, 0xC3, 0xFF, 0xFF, 0xC3, 0xC3, 0xC3,
    0xFC, 0xFC, 0xC3, 0xC3, 0xFC, 0xFC, 0xC3, 0xC3, 0xFC, 0xFC,
    0x3C, 0xFF, 0xC3, 0xC0, 0xC0, 0xC0, 0xC0, 0xC3, 0xFF, 0x3C,
    0xFC, 0xFE, 0xC3, 0xC3, 0xC3, 0xC3, 0xC3, 0xC3, 0xFE, 0xFC,
    0xFF, 0xFF, 0xC0, 0xC0, 0xFF, 0xFF, 0xC0, 0xC0, 0xFF, 0xFF,
    0xFF, 0xFF, 0xC0, 0xC0, 0xFF, 0xFF, 0xC0, 0xC0, 0xC0, 0xC0,
];

/// Memory after a load: the two glyph tables at their addresses, the program
/// from the entry point on, and every other byte as it was.
pub open spec fn loaded(memory: Seq<u8>, rom: Seq<u8>) -> Seq<u8> {
    Seq::new(
        memory.len(),
        |a: int|
            if 0 <= a < FONT_SIZE {
                FONT@[a]
            } else if BIG_FONT_ADDRESS <= a < BIG_FONT_ADDRESS + BIG_FONT_SIZE {
                BIG_FONT@[a - BIG_FONT_ADDRESS]
            } else if ENTRY_POINT <= a < ENTRY_POINT + rom.len() {
                rom[a - ENTRY_POINT]
            } else {
                memory[a]
            },
    )
}

/// The big-endian 16-bit word at `address` and the byte after it.
pub open spec fn opcode_at(memory: Seq<u8>, address: u16) -> u16 {
    (memory[address as int] * 256 + memory[address + 1]) as u16
}

impl Machine {
    /// `load_rom`: refused when the program does not fit; otherwise memory is
    /// `loaded` and the tick rate, if one is given, replaces the old one.
    pub open spec fn load_rom(self, rom: Seq<u8>, tick_rate: Option<u16>) -> Result<
        Machine,
        Chip8Error,
    > {
        if ENTRY_POINT + rom.len() > RAM_SIZE {
            Err(Chip8Error::OutOfBoundsLoad)
        } else {
            Ok(
                Machine {
                    memory: loaded(self.memory, rom),
                    tick_rate: match tick_rate {
                        Some(rate) => rate,
                        None => self.tick_rate,
                    },
                    ..self
                },
            )
        }
    }

    /// `reset`: the program counter is back on the entry point, the stack is
    /// empty, and memory and display are blank. Everything else stays.
    pub open spec fn reset(self) -> Machine {
        Machine {
            pc: ENTRY_POINT as u16,
            sp: 0,
            memory: Seq::new(RAM_SIZE as nat, |a: int| 0u8),
            gfx: Seq::new(SCREEN_SIZE as nat, |k: int| false),
            ..self
        }
    }

    /// Whether the `count` bytes from I on lie within memory.
    pub open spec fn in_memory(self, count: int) -> bool {
        self.i + count <= RAM_SIZE
    }

    /// `LD I, nnn`.
    pub open spec fn ld_i_addr(self, nnn: u16) -> Machine {
        Machine { i: nnn, ..self }.advance()
    }

    /// `ADD I, Vx`: the sum modulo 65536, and VF is 1 exactly when the new I
    /// lies above 0xFFF.
    pub open spec fn add_i_vx(self, x: u8) -> Machine {
        let i = ((self.i + self.v[x as int]) % 0x10000) as u16;
        Machine {
            i,
            v: self.v.update(
                FLAG as int,
                if i > 0xFFF {
                    1
                } else {
                    0
                },
            ),
            ..self
        }.advance()
    }

    /// `LD F, Vx`: I is the address of the five-byte glyph for Vx.
    pub open spec fn ld_f_vx(self, x: u8) -> Machine {
        Machine { i: (self.v[x as int] * 5) as u16, ..self }.advance()
    }

    /// `LD HF, Vx`: I is the address of the ten-byte glyph for Vx.
    pub open spec fn ld_hf_vx(self, x: u8) -> Machine {
        Machine { i: (BIG_FONT_ADDRESS + self.v[x as int] * 10) as u16, ..self }.advance()
    }

    /// `LD B, Vx`: the hundreds, tens and units of Vx go to I, I+1 and I+2.
    /// Refused when those bytes are not all in memory.
    pub open spec fn ld_b_vx(self, x: u8) -> Result<Machine, Chip8Error> {
        let value = self.v[x as int];
        if !self.in_memory(3) {
            Err(Chip8Error::OutOfBoundsAccess(self.i))
        } else {
            Ok(
                Machine {
                    memory: self.memory.update(self.i as int, value / 100).update(
                        self.i + 1,
                        (value / 10) % 10,
                    ).update(self.i + 2, value % 10),
                    ..self
                }.advance(),
            )
        }
    }

    /// `LD [I], Vx`: V0 to Vx go to memory from I on, and I moves past them.
    /// Refused when those bytes are not all in memory.
    pub open spec fn ld_i_vx(self, x: u8) -> Result<Machine, Chip8Error> {
        if !self.in_memory(x + 1) {
            Err(Chip8Error::OutOfBoundsAccess(self.i))
        } else {
            Ok(
                Machine {
                    memory: Seq::new(
                        self.memory.len(),
                        |a: int|
                            if self.i <= a <= self.i + x {
                                self.v[a - self.i]
                            } else {
                                self.memory[a]
                            },
                    ),
                    i: ((self.i + x + 1) % 0x10000) as u16,
                    ..self
                }.advance(),
            )
        }
    }

    /// `LD Vx, [I]`: V0 to Vx are read from memory from I on, and I moves
    /// past them. Refused when those bytes are not all in memory.
    pub open spec fn ld_vx_i(self, x: u8) -> Result<Machine, Chip8Error> {
        if !self.in_memory(x + 1) {
            Err(Chip8Error::OutOfBoundsAccess(self.i))
        } else {
            Ok(
                Machine {
                    v: Seq::new(
                        self.v.len(),
                        |k: int|
                            if 0 <= k <= x {
                                self.memory[self.i + k]
                            } else {
                                self.v[k]
                            },
                    ),
                    i: ((self.i + x + 1) % 0x10000) as u16,
                    ..self
                }.advance(),
            )
        }
    }
}

impl Chip8 {
    /// Brings the machine back to the start of a blank memory: the program
    /// counter, the stack, memory and the display are reset; registers,
    /// timers, keys and settings are kept.
    pub fn reset(&mut self)
        ensures
            final(self)@ == old(self)@.reset(),
            final(self)@.wf(),
    {
        proof {
            use_type_invariant(&*self);
        }
        self.pc = ENTRY_POINT as u16;
        self.sp = 0;
        self.memory = [0; RAM_SIZE];
        self.gfx_buffer = [false; SCREEN_SIZE];
    }

    /// Copies a program to the entry point and the glyph tables to their
    /// places, and takes over the tick rate if one is given.
    ///
    /// A program too long for memory is refused with `OutOfBoundsLoad`, and
    /// nothing is written.
    pub fn load_rom(&mut self, rom_buf: &[u8], tick_rate: Option<u16>) -> (result: Result<
        (),
        Chip8Error,
    >)
        ensures
            old(self)@.settles(old(self)@.load_rom(rom_buf@, tick_rate), result, final(self)@),
            final(self)@.wf(),
    {
        proof {
            use_type_invariant(&*self);
        }
        if rom_buf.len() > RAM_SIZE - ENTRY_POINT {
            return Err(Chip8Error::OutOfBoundsLoad);
        }
        let mut k: usize = 0;
        while k < rom_buf.len()
            invariant
                k <= rom_buf.len() <= RAM_SIZE - ENTRY_POINT,
                self.inv(),
                self@ == (Machine {
                    memory: Seq::new(
                        RAM_SIZE as nat,
                        |a: int|
                            if ENTRY_POINT <= a < ENTRY_POINT + k {
                                rom_buf@[a - ENTRY_POINT]
                            } else {
                                old(self)@.memory[a]
                            },
                    ),
                    ..old(self)@
                }),
            decreases rom_buf.len() - k,
        {
            self.memory[ENTRY_POINT + k] = rom_buf[k];
            k = k + 1;
        }
        let mut k: usize = 0;
        while k < FONT_SIZE
            invariant
                k <= FONT_SIZE,
                rom_buf.len() <= RAM_SIZE - ENTRY_POINT,
                self.inv(),
                self@ == (Machine {
                    memory: Seq::new(
                        RAM_SIZE as nat,
                        |a: int|
                            if 0 <= a < k {
                                FONT@[a]
                            } else if ENTRY_POINT <= a < ENTRY_POINT + rom_buf@.len() {
                                rom_buf@[a - ENTRY_POINT]
                            } else {
                                old(self)@.memory[a]
                            },
                    ),
                    ..old(self)@
                }),
            decreases FONT_SIZE - k,
        {
            self.memory[k] = FONT[k];
            k = k + 1;
        }
        let mut k: usize = 0;
        while k < BIG_FONT_SIZE
            invariant
                k <= BIG_FONT_SIZE,
                rom_buf.len() <= RAM_SIZE - ENTRY_POINT,
                self.inv(),
                self@ == (Machine {
                    memory: Seq::new(
                        RAM_SIZE as nat,
                        |a: int|
                            if 0 <= a < FONT_SIZE {
                                FONT@[a]
                            } else if BIG_FONT_ADDRESS <= a < BIG_FONT_ADDRESS + k {
                                BIG_FONT@[a - BIG_FONT_ADDRESS]
                            } else if ENTRY_POINT <= a < ENTRY_POINT + rom_buf@.len() {
                                rom_buf@[a - ENTRY_POINT]
                            } else {
                                old(self)@.memory[a]
                            },
                    ),
                    ..old(self)@
                }),
            decreases BIG_FONT_SIZE - k,
        {
            self.memory[BIG_FONT_ADDRESS + k] = BIG_FONT[k];
            k = k + 1;
        }
        if let Some(rate) = tick_rate {
            self.tick_rate = rate;
        }
        Ok(())
    }

    /// The opcode at the program counter: the byte there and the byte after
    /// it, high byte first.
    pub fn get_opcode(&self) -> (opcode: u16)
        requires
            self@.pc + 1 < RAM_SIZE,
        ensures
            opcode == opcode_at(self@.memory, self@.pc),
    {
        let high: u16 = self.memory[self.pc as usize] as u16;
        let low: u16 = self.memory[self.pc as usize + 1] as u16;
        let opcode: u16 = high << 8 | low;
        assert(opcode == high * 256 + low) by (bit_vector)
            requires
                opcode == high << 8 | low,
                high < 256,
                low < 256,
        ;
        opcode
    }

    /// Whether the `count` bytes from I on lie within memory.
    pub(crate) fn in_memory(&self, count: usize) -> (fits: bool)
        requires
            count <= 0x10000,
        ensures
            fits == self@.in_memory(count as int),
    {
        self.i as usize + count <= RAM_SIZE
    }

    /// Sets I to the address `nnn`.
    pub(crate) fn ld_i_addr(&mut self, nnn: u16)
        ensures
            final(self)@ == old(self)@.ld_i_addr(nnn),
    {
        proof {
            use_type_invariant(&*self);
        }
        self.i = nnn;
        self.pc = self.pc.wrapping_add(2);
    }

    /// Adds Vx to I. VF is set to 1 when the new I lies above 0xFFF, and to
    /// 0 when it does not.
    pub(crate) fn add_i_vx(&mut self, x: u8)
        requires
            x < 16,
        ensures
            final(self)@ == old(self)@.add_i_vx(x),
    {
        proof {
            use_type_invariant(&*self);
        }
        self.i = self.i.wrapping_add(self.v[x as usize] as u16);
        if self.i > 0xFFF {
            self.v[FLAG] = 1;
        } else {
            self.v[FLAG] = 0;
        }
        self.pc = self.pc.wrapping_add(2);
    }

    /// Sets I to the location of the sprite for the character in Vx.
    pub(crate) fn ld_f_vx(&mut self, x: u8)
        requires
            x < 16,
        ensures
            final(self)@ == old(self)@.ld_f_vx(x),
    {
        proof {
            use_type_invariant(&*self);
        }
        self.i = self.v[x as usize] as u16 * 5;
        self.pc = self.pc.wrapping_add(2);
    }

    /// Sets I to the location of the big sprite for the character in Vx.
    pub(crate) fn ld_hf_vx(&mut self, x: u8)
        requires
            x < 16,
        ensures
            final(self)@ == old(self)@.ld_hf_vx(x),
    {
        proof {
            use_type_invariant(&*self);
        }
        self.i = BIG_FONT_ADDRESS as u16 + self.v[x as usize] as u16 * 10;
        self.pc = self.pc.wrapping_add(2);
    }

    /// Stores the binary-coded decimal representation of Vx at the addresses
    /// I, I plus 1, and I plus 2.
    pub(crate) fn ld_b_vx(&mut self, x: u8) -> (result: Result<(), Chip8Error>)
        requires
            x < 16,
        ensures
            old(self)@.settles(old(self)@.ld_b_vx(x), result, final(self)@),
    {
        proof {
            use_type_invariant(&*self);
        }
        if !self.in_memory(3) {
            return Err(Chip8Error::OutOfBoundsAccess(self.i));
        }
        let value: u8 = self.v[x as usize];
        self.memory[self.i as usize] = value / 100;
        self.memory[self.i as usize + 1] = (value / 10) % 10;
        self.memory[self.i as usize + 2] = value % 10;
        self.pc = self.pc.wrapping_add(2);
        Ok(())
    }

    /// Stores V0 to Vx in memory starting at address I.
    pub(crate) fn ld_i_vx(&mut self, x: u8) -> (result: Result<(), Chip8Error>)
        requires
            x < 16,
        ensures
            old(self)@.settles(old(self)@.ld_i_vx(x), result, final(self)@),
    {
        proof {
            use_type_invariant(&*self);
        }
        if !self.in_memory(x as usize + 1) {
            return Err(Chip8Error::OutOfBoundsAccess(self.i));
        }
        let mut k: usize = 0;
        while k <= x as usize
            invariant
                k <= x + 1,
                x < 16,
                old(self)@.in_memory(x + 1),
                self.inv(),
                self@ == (Machine {
                    memory: Seq::new(
                        RAM_SIZE as nat,
                        |a: int|
                            if old(self)@.i <= a < old(self)@.i + k {
                                old(self)@.v[a - old(self)@.i]
                            } else {
                                old(self)@.memory[a]
                            },
                    ),
                    ..old(self)@
                }),
            decreases x + 1 - k,
        {
            self.memory[self.i as usize + k] = self.v[k];
            k = k + 1;
        }
        self.i = self.i.wrapping_add(x as u16 + 1);
        self.pc = self.pc.wrapping_add(2);
        Ok(())
    }

    /// Fills V0 to Vx from memory starting at address I.
    pub(crate) fn ld_vx_i(&mut self, x: u8) -> (result: Result<(), Chip8Error>)
        requires
            x < 16,
        ensures
            old(self)@.settles(old(self)@.ld_vx_i(x), result, final(self)@),
    {
        proof {
            use_type_invariant(&*self);
        }
        if !self.in_memory(x as usize + 1) {
            return Err(Chip8Error::OutOfBoundsAccess(self.i));
        }
        let mut k: usize = 0;
        while k <= x as usize
            invariant
                k <= x + 1,
                x < 16,
                old(self)@.in_memory(x + 1),
                self.inv(),
                self@ == (Machine {
                    v: Seq::new(
                        16,
                        |j: int|
                            if 0 <= j < k {
                                old(self)@.memory[old(self)@.i + j]
                            } else {
                                old(self)@.v[j]
                            },
                    ),
                    ..old(self)@
                }),
            decreases x + 1 - k,
        {
            self.v[k] = self.memory[self.i as usize + k];
            k = k + 1;
        }
        self.i = self.i.wrapping_add(x as u16 + 1);
        self.pc = self.pc.wrapping_add(2);
        Ok(())
    }
}

} // verus!
