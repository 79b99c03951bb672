//! The register file: the instructions that compute on V0 to VF.

use crate::chip8::Chip8;
use crate::machine::Machine;
use crate::machine::FLAG;
use crate::rng::mask_random;
use crate::rng::masked_byte;
use crate::rng::next_random_word;
use crate::rng::random_word;
use vstd::prelude::*;

verus! {

impl Machine {
    /// The machine with register `x` set to `value`.
    pub open spec fn with_register(self, x: u8, value: u8) -> Machine {
        Machine { v: self.v.update(x as int, value), ..self }
    }

    /// The machine with register `x` set to `value` and then VF set to `flag`.
    pub open spec fn with_result(self, x: u8, value: u8, flag: u8) -> Machine {
        Machine { v: self.v.update(x as int, value).update(FLAG as int, flag), ..self }
    }

    /// `LD Vx, kk`.
    pub open spec fn ld_vx_byte(self, x: u8, kk: u8) -> Machine {
        self.with_register(x, kk).advance()
    }

    /// `ADD Vx, kk`: the sum modulo 256; VF is left alone.
    pub open spec fn add_vx_byte(self, x: u8, kk: u8) -> Machine {
        self.with_register(x, ((self.v[x as int] + kk) % 256) as u8).advance()
    }

    /// `LD Vx, Vy`.
    pub open spec fn ld_vx_vy(self, x: u8, y: u8) -> Machine {
        self.with_register(x, self.v[y as int]).advance()
    }

    /// `OR Vx, Vy`.
    pub open spec fn or_vx_vy(self, x: u8, y: u8) -> Machine {
        self.with_register(x, self.v[x as int] | self.v[y as int]).advance()
    }

    /// `AND Vx, Vy`.
    pub open spec fn and_vx_vy(self, x: u8, y: u8) -> Machine {
        self.with_register(x, self.v[x as int] & self.v[y as int]).advance()
    }

    /// `XOR Vx, Vy`.
    pub open spec fn xor_vx_vy(self, x: u8, y: u8) -> Machine {
        self.with_register(x, self.v[x as int] ^ self.v[y as int]).advance()
    }

    /// `ADD Vx, Vy`: the sum modulo 256, and VF is 1 exactly when the sum
    /// passes 255.
    pub open spec fn add_vx_vy(self, x: u8, y: u8) -> Machine {
        let sum = self.v[x as int] + self.v[y as int];
        self.with_result(
            x,
            (sum % 256) as u8,
            if sum > 255 {
                1
            } else {
                0
            },
        ).advance()
    }

    /// `SUB Vx, Vy`: the difference modulo 256, and VF is 1 exactly when
    /// nothing is borrowed.
    pub open spec fn sub_vx_vy(self, x: u8, y: u8) -> Machine {
        let a = self.v[x as int];
        let b = self.v[y as int];
        self.with_result(
            x,
            ((a - b) % 256) as u8,
            if a >= b {
                1
            } else {
                0
            },
        ).advance()
    }

    /// `SHR Vx`: Vx halved, and VF is the bit that fell off.
    pub open spec fn shr_vx_vy(self, x: u8) -> Machine {
        let a = self.v[x as int];
        self.with_result(x, a / 2, a % 2).advance()
    }

    /// `SUBN Vx, Vy`: Vy minus Vx modulo 256, and VF is 1 exactly when
    /// nothing is borrowed.
    pub open spec fn subn_vx_vy(self, x: u8, y: u8) -> Machine {
        let a = self.v[x as int];
        let b = self.v[y as int];
        self.with_result(
            x,
            ((b - a) % 256) as u8,
            if b >= a {
                1
            } else {
                0
            },
        ).advance()
    }

    /// `SHL Vx`: Vx doubled modulo 256, and VF is the bit that fell off.
    pub open spec fn shl_vx_vy(self, x: u8) -> Machine {
        let a = self.v[x as int];
        self.with_result(x, ((a * 2) % 256) as u8, a / 128).advance()
    }

    /// What `RND Vx, kk` does with the word it drew: Vx is the low byte of
    /// the word, masked by `kk`.
    pub open spec fn store_random(self, x: u8, kk: u8, word: u32) -> Machine {
        self.with_register(x, masked_byte(word, kk)).advance()
    }

    /// `RND Vx, kk`: the generator moves on by one word, and that word is
    /// stored as `store_random` says. A machine without a generator takes
    /// the fixed fallback word.
    pub open spec fn rnd_vx_byte(self, x: u8, kk: u8) -> Machine {
        let (word, rng) = random_word(self.rng);
        Machine { rng, ..self }.store_random(x, kk, word)
    }
}

impl Chip8 {
    /// Sets Vx to `kk`.
    pub(crate) fn ld_vx_byte(&mut self, x: u8, kk: u8)
        requires
            x < 16,
        ensures
            final(self)@ == old(self)@.ld_vx_byte(x, kk),
    {
        proof {
            use_type_invariant(&*self);
        }
        self.v[x as usize] = kk;
        self.pc = self.pc.wrapping_add(2);
    }

    /// Adds `kk` to Vx.
    pub(crate) fn add_vx_byte(&mut self, x: u8, kk: u8)
        requires
            x < 16,
        ensures
            final(self)@ == old(self)@.add_vx_byte(x, kk),
    {
        proof {
            use_type_invariant(&*self);
        }
        self.v[x as usize] = self.v[x as usize].wrapping_add(kk);
        self.pc = self.pc.wrapping_add(2);
    }

    /// Sets Vx to the value of Vy.
    pub(crate) fn ld_vx_vy(&mut self, x: u8, y: u8)
        requires
            x < 16,
            y < 16,
        ensures
            final(self)@ == old(self)@.ld_vx_vy(x, y),
    {
        proof {
            use_type_invariant(&*self);
        }
        self.v[x as usize] = self.v[y as usize];
        self.pc = self.pc.wrapping_add(2);
    }

    /// Sets Vx to (Vx OR Vy).
    pub(crate) fn or_vx_vy(&mut self, x: u8, y: u8)
        requires
            x < 16,
            y < 16,
        ensures
            final(self)@ == old(self)@.or_vx_vy(x, y),
    {
        proof {
            use_type_invariant(&*self);
        }
        self.v[x as usize] = self.v[x as usize] | self.v[y as usize];
        self.pc = self.pc.wrapping_add(2);
    }

    /// Sets Vx to (Vx AND Vy).
    pub(crate) fn and_vx_vy(&mut self, x: u8, y: u8)
        requires
            x < 16,
            y < 16,
        ensures
            final(self)@ == old(self)@.and_vx_vy(x, y),
    {
        proof {
            use_type_invariant(&*self);
        }
        self.v[x as usize] = self.v[x as usize] & self.v[y as usize];
        self.pc = self.pc.wrapping_add(2);
    }

    /// Sets Vx to (Vx XOR Vy).
    pub(crate) fn xor_vx_vy(&mut self, x: u8, y: u8)
        requires
            x < 16,
            y < 16,
        ensures
            final(self)@ == old(self)@.xor_vx_vy(x, y),
    {
        proof {
            use_type_invariant(&*self);
        }
        self.v[x as usize] = self.v[x as usize] ^ self.v[y as usize];
        self.pc = self.pc.wrapping_add(2);
    }

    /// Adds Vy to Vx. VF is set to 1 when there is a carry, and to 0 when
    /// there is not.
    pub(crate) fn add_vx_vy(&mut self, x: u8, y: u8)
        requires
            x < 16,
            y < 16,
        ensures
            final(self)@ == old(self)@.add_vx_vy(x, y),
    {
        proof {
            use_type_invariant(&*self);
        }
        let flag: bool = self.v[y as usize] > (0xFF - self.v[x as usize]);
        self.v[x as usize] = self.v[x as usize].wrapping_add(self.v[y as usize]);
        if flag {
            self.v[FLAG] = 1;
        } else {
            self.v[FLAG] = 0;
        }
        self.pc = self.pc.wrapping_add(2);
    }

    /// Subtracts Vy from Vx. VF is set to 0 when there is a borrow, and to 1
    /// when there is not.
    pub(crate) fn sub_vx_vy(&mut self, x: u8, y: u8)
        requires
            x < 16,
            y < 16,
        ensures
            final(self)@ == old(self)@.sub_vx_vy(x, y),
    {
        proof {
            use_type_invariant(&*self);
        }
        let flag: bool = self.v[y as usize] > self.v[x as usize];
        self.v[x as usize] = self.v[x as usize].wrapping_sub(self.v[y as usize]);
        if flag {
            self.v[FLAG] = 0;
        } else {
            self.v[FLAG] = 1;
        }
        self.pc = self.pc.wrapping_add(2);
    }

    /// Shifts Vx right by one. VF is set to the least significant bit of Vx
    /// before the shift.
    pub(crate) fn shr_vx_vy(&mut self, x: u8)
        requires
            x < 16,
        ensures
            final(self)@ == old(self)@.shr_vx_vy(x),
    {
        proof {
            use_type_invariant(&*self);
        }
        let a: u8 = self.v[x as usize];
        let flag: u8 = a & 0x1;
        let half: u8 = a >> 1;
        assert(flag == a % 2 && half == a / 2) by (bit_vector)
            requires
                flag == a & 0x1,
                half == a >> 1,
        ;
        self.v[x as usize] = half;
        self.v[FLAG] = flag;
        self.pc = self.pc.wrapping_add(2);
    }

    /// Sets Vx to Vy minus Vx. VF is set to 0 when there is a borrow, and to
    /// 1 when there is not.
    pub(crate) fn subn_vx_vy(&mut self, x: u8, y: u8)
        requires
            x < 16,
            y < 16,
        ensures
            final(self)@ == old(self)@.subn_vx_vy(x, y),
    {
        proof {
            use_type_invariant(&*self);
        }
        let flag: bool = self.v[y as usize] >= self.v[x as usize];
        self.v[x as usize] = self.v[y as usize].wrapping_sub(self.v[x as usize]);
        if flag {
            self.v[FLAG] = 1;
        } else {
            self.v[FLAG] = 0;
        }
        self.pc = self.pc.wrapping_add(2);
    }

    /// Shifts Vx left by one. VF is set to the most significant bit of Vx
    /// before the shift.
    pub(crate) fn shl_vx_vy(&mut self, x: u8)
        requires
            x < 16,
        ensures
            final(self)@ == old(self)@.shl_vx_vy(x),
    {
        proof {
            use_type_invariant(&*self);
        }
        let a: u8 = self.v[x as usize];
        let flag: u8 = a >> 7;
        let double: u8 = a << 1;
        assert(flag == a / 128 && double == (a * 2) % 256) by (bit_vector)
            requires
                flag == a >> 7,
                double == a << 1,
        ;
        self.v[x as usize] = double;
        self.v[FLAG] = flag;
        self.pc = self.pc.wrapping_add(2);
    }

    /// Sets Vx to a random number, masked by `kk`.
    pub(crate) fn rnd_vx_byte(&mut self, x: u8, kk: u8)
        requires
            x < 16,
        ensures
            final(self)@ == old(self)@.rnd_vx_byte(x, kk),
    {
        proof {
            use_type_invariant(&*self);
        }
        let word: u32 = next_random_word(&mut self.rnd_seed);
        self.store_random(x, kk, word);
    }

    /// Finishes `RND Vx, kk` with the word that was drawn: stores its low
    /// byte, masked by `kk`, in Vx and moves on to the next instruction.
    pub fn store_random(&mut self, x: u8, kk: u8, word: u32)
        requires
            x < 16,
        ensures
            final(self)@ == old(self)@.store_random(x, kk, word),
            final(self)@.wf(),
    {
        proof {
            use_type_invariant(&*self);
        }
        self.v[x as usize] = mask_random(word, kk);
        self.pc = self.pc.wrapping_add(2);
    }
}

} // verus!
