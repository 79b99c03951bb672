//! The call stack and the instructions that move the program counter.

use crate::chip8::Chip8;
use crate::error::Chip8Error;
use crate::machine::next_pc;
use crate::machine::Machine;
use crate::machine::STACK_SIZE;
use vstd::prelude::*;

verus! {

impl Machine {
    /// `RET`: the newest return address leaves the stack, and the program
    /// goes on after the call that pushed it. Refused on an empty stack.
    pub open spec fn ret(self) -> Result<Machine, Chip8Error> {
        if self.sp == 0 {
            Err(Chip8Error::StackUnderflow)
        } else {
            Ok(
                Machine {
                    sp: (self.sp - 1) as u8,
                    pc: next_pc(self.stack[self.sp - 1]),
                    ..self
                },
            )
        }
    }

    /// `JP nnn`.
    pub open spec fn jp_addr(self, nnn: u16) -> Machine {
        Machine { pc: nnn, ..self }
    }

    /// `CALL nnn`: the address of the call goes on the stack, and the program
    /// goes on at `nnn`. Refused on a full stack.
    pub open spec fn call_addr(self, nnn: u16) -> Result<Machine, Chip8Error> {
        if self.sp >= STACK_SIZE {
            Err(Chip8Error::StackOverflow)
        } else {
            Ok(
                Machine {
                    stack: self.stack.update(self.sp as int, self.pc),
                    sp: (self.sp + 1) as u8,
                    pc: nnn,
                    ..self
                },
            )
        }
    }

    /// The machine after a conditional skip: past the next instruction if
    /// `taken`, on it otherwise.
    pub open spec fn branch(self, taken: bool) -> Machine {
        if taken {
            self.skip()
        } else {
            self.advance()
        }
    }

    /// `SE Vx, kk`.
    pub open spec fn se_vx_byte(self, x: u8, kk: u8) -> Machine {
        self.branch(self.v[x as int] == kk)
    }

    /// `SNE Vx, kk`.
    pub open spec fn sne_vx_byte(self, x: u8, kk: u8) -> Machine {
        self.branch(self.v[x as int] != kk)
    }

    /// `SE Vx, Vy`.
    pub open spec fn se_vx_vy(self, x: u8, y: u8) -> Machine {
        self.branch(self.v[x as int] == self.v[y as int])
    }

    /// `SNE Vx, Vy`.
    pub open spec fn sne_vx_vy(self, x: u8, y: u8) -> Machine {
        self.branch(self.v[x as int] != self.v[y as int])
    }

    /// `JP V0, nnn`: the target is `nnn` plus V0, whatever `x` the opcode
    /// holds.
    pub open spec fn jp_v0_addr(self, nnn: u16) -> Machine {
        Machine { pc: ((nnn + self.v[0]) % 0x10000) as u16, ..self }
    }
}

impl Chip8 {
    /// Returns from a subroutine.
    pub(crate) fn ret(&mut self) -> (result: Result<(), Chip8Error>)
        ensures
            old(self)@.settles(old(self)@.ret(), result, final(self)@),
    {
        proof {
            use_type_invariant(&*self);
        }
        if self.sp < 1 {
            return Err(Chip8Error::StackUnderflow);
        }
        self.sp = self.sp - 1;
        self.pc = self.stack[self.sp as usize].wrapping_add(2);
        Ok(())
    }

    /// Jumps to address `nnn`.
    pub(crate) fn jp_addr(&mut self, nnn: u16)
        ensures
            final(self)@ == old(self)@.jp_addr(nnn),
    {
        proof {
            use_type_invariant(&*self);
        }
        self.pc = nnn;
    }

    /// Calls the subroutine at `nnn`.
    pub(crate) fn call_addr(&mut self, nnn: u16) -> (result: Result<(), Chip8Error>)
        ensures
            old(self)@.settles(old(self)@.call_addr(nnn), result, final(self)@),
    {
        proof {
            use_type_invariant(&*self);
        }
        if self.sp as usize >= STACK_SIZE {
            return Err(Chip8Error::StackOverflow);
        }
        self.stack[self.sp as usize] = self.pc;
        self.sp = self.sp + 1;
        self.pc = nnn;
        Ok(())
    }

    /// Moves the program counter past the next instruction if `taken`, and
    /// onto it otherwise.
    pub(crate) fn branch(&mut self, taken: bool)
        ensures
            final(self)@ == old(self)@.branch(taken),
    {
        proof {
            use_type_invariant(&*self);
        }
        if taken {
            self.pc = self.pc.wrapping_add(4);
        } else {
            self.pc = self.pc.wrapping_add(2);
        }
    }

    /// Skips the next instruction if Vx equals `kk`.
    pub(crate) fn se_vx_byte(&mut self, x: u8, kk: u8)
        requires
            x < 16,
        ensures
            final(self)@ == old(self)@.se_vx_byte(x, kk),
    {
        self.branch(self.v[x as usize] == kk);
    }

    /// Skips the next instruction if Vx does not equal `kk`.
    pub(crate) fn sne_vx_byte(&mut self, x: u8, kk: u8)
        requires
            x < 16,
        ensures
            final(self)@ == old(self)@.sne_vx_byte(x, kk),
    {
        self.branch(self.v[x as usize] != kk);
    }

    /// Skips the next instruction if Vx equals Vy.
    pub(crate) fn se_vx_vy(&mut self, x: u8, y: u8)
        requires
            x < 16,
            y < 16,
        ensures
            final(self)@ == old(self)@.se_vx_vy(x, y),
    {
        self.branch(self.v[x as usize] == self.v[y as usize]);
    }

    /// Skips the next instruction if Vx does not equal Vy.
    pub(crate) fn sne_vx_vy(&mut self, x: u8, y: u8)
        requires
            x < 16,
            y < 16,
        ensures
            final(self)@ == old(self)@.sne_vx_vy(x, y),
    {
        self.branch(self.v[x as usize] != self.v[y as usize]);
    }

    /// Jumps to the address `nnn` plus V0.
    pub(crate) fn jp_v0_addr(&mut self, nnn: u16)
        ensures
            final(self)@ == old(self)@.jp_v0_addr(nnn),
    {
        proof {
            use_type_invariant(&*self);
        }
        self.pc = nnn.wrapping_add(self.v[0] as u16);
    }
}

} // verus!
