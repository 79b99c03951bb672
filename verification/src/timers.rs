//! The delay timer and the sound timer.

use crate::chip8::Chip8;
use crate::machine::Machine;
use vstd::prelude::*;

verus! {

/// A timer one frame later: one less, and never below zero.
pub open spec fn counted_down(timer: u8) -> u8 {
    if timer > 0 {
        (timer - 1) as u8
    } else {
        0
    }
}

impl Machine {
    /// The machine with both timers counted down once.
    pub open spec fn update_timers(self) -> Machine {
        Machine { dt: counted_down(self.dt), st: counted_down(self.st), ..self }
    }

    /// Whether the tone is due: the sound timer stands at exactly 1.
    pub open spec fn play_sound(self) -> bool {
        self.st == 1
    }

    /// `LD Vx, DT`.
    pub open spec fn ld_vx_dt(self, x: u8) -> Machine {
        self.with_register(x, self.dt).advance()
    }

    /// `LD DT, Vx`.
    pub open spec fn ld_dt_vx(self, x: u8) -> Machine {
        Machine { dt: self.v[x as int], ..self }.advance()
    }

    /// `LD ST, Vx`.
    pub open spec fn ld_st_vx(self, x: u8) -> Machine {
        Machine { st: self.v[x as int], ..self }.advance()
    }
}

impl Chip8 {
    /// Counts both timers down by one, stopping at zero.
    pub fn update_timers(&mut self)
        ensures
            final(self)@ == old(self)@.update_timers(),
            final(self)@.wf(),
    {
        proof {
            use_type_invariant(&*self);
        }
        if self.dt > 0 {
            self.dt = self.dt - 1;
        }
        if self.st > 0 {
            self.st = self.st - 1;
        }
    }

    /// Whether the host should sound the tone now: true exactly when the
    /// sound timer stands at 1.
    #[must_use]
    pub fn play_sound(&self) -> (due: bool)
        ensures
            due == self@.play_sound(),
    {
        self.st == 1
    }

    /// Sets Vx to the value of the delay timer.
    pub(crate) fn ld_vx_dt(&mut self, x: u8)
        requires
            x < 16,
        ensures
            final(self)@ == old(self)@.ld_vx_dt(x),
    {
        proof {
            use_type_invariant(&*self);
        }
        self.v[x as usize] = self.dt;
        self.pc = self.pc.wrapping_add(2);
    }

    /// Sets the delay timer to Vx.
    pub(crate) fn ld_dt_vx(&mut self, x: u8)
        requires
            x < 16,
        ensures
            final(self)@ == old(self)@.ld_dt_vx(x),
    {
        proof {
            use_type_invariant(&*self);
        }
        self.dt = self.v[x as usize];
        self.pc = self.pc.wrapping_add(2);
    }

    /// Sets the sound timer to Vx.
    pub(crate) fn ld_st_vx(&mut self, x: u8)
        requires
            x < 16,
        ensures
            final(self)@ == old(self)@.ld_st_vx(x),
    {
        proof {
            use_type_invariant(&*self);
        }
        self.st = self.v[x as usize];
        self.pc = self.pc.wrapping_add(2);
    }
}

} // verus!
