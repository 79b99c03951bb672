//! The machine itself: its state, how it is made, and how a host reads and
//! writes the parts that are open to it.

use crate::machine::Machine;
use crate::machine::DEFAULT_TICK_RATE;
use crate::machine::ENTRY_POINT;
use crate::machine::KEYS;
use crate::machine::RAM_SIZE;
use crate::machine::REGISTERS;
use crate::machine::SCREEN_SIZE;
use crate::machine::STACK_SIZE;
use crate::rng::generator_from_seed;
use crate::rng::seeded_generator;
use rand::rngs::SmallRng;
use vstd::prelude::*;

verus! {

/// A CHIP-8 / SUPER-CHIP-8 machine.
///
/// The machine owns all of its state; nothing is shared between machines.
#[derive(Debug)]
pub struct Chip8 {
    pub(crate) i: u16,
    pub(crate) sp: u8,
    pub(crate) stack: [u16; STACK_SIZE],
    pub(crate) v: [u8; REGISTERS],
    pub(crate) pc: u16,
    pub(crate) dt: u8,
    pub(crate) st: u8,
    pub(crate) keys: [bool; KEYS],
    pub(crate) memory: [u8; RAM_SIZE],
    pub(crate) gfx_buffer: [bool; SCREEN_SIZE],
    pub(crate) rnd_seed: Option<SmallRng>,
    pub(crate) tick_rate: u16,
    pub(crate) should_draw: bool,
    pub(crate) hi_res: bool,
    pub(crate) scroll_x: i8,
    pub(crate) rows_start: u8,
    pub(crate) rows_end: u8,
}

impl View for Chip8 {
    type V = Machine;

    open(crate) spec fn view(&self) -> Machine {
        Machine {
            i: self.i,
            sp: self.sp,
            stack: self.stack@,
            v: self.v@,
            pc: self.pc,
            dt: self.dt,
            st: self.st,
            keys: self.keys@,
            memory: self.memory@,
            gfx: self.gfx_buffer@,
            rng: self.rnd_seed,
            tick_rate: self.tick_rate,
            should_draw: self.should_draw,
            hi_res: self.hi_res,
            scroll_x: self.scroll_x,
            rows_start: self.rows_start,
            rows_end: self.rows_end,
        }
    }
}

impl Chip8 {
    /// The stack pointer never passes the end of the stack.
    #[verifier::type_invariant]
    pub open(crate) spec fn inv(self) -> bool {
        self.sp <= STACK_SIZE
    }

    /// A machine with everything zeroed, about to run from the entry point.
    #[must_use]
    pub fn new() -> (cpu: Chip8)
        ensures
            cpu@ == Machine::fresh(),
            cpu@.wf(),
    {
        Chip8 {
            i: 0,
            sp: 0,
            stack: [0; STACK_SIZE],
            v: [0; REGISTERS],
            pc: ENTRY_POINT as u16,
            dt: 0,
            st: 0,
            keys: [false; KEYS],
            memory: [0; RAM_SIZE],
            gfx_buffer: [false; SCREEN_SIZE],
            rnd_seed: None,
            tick_rate: DEFAULT_TICK_RATE,
            should_draw: false,
            hi_res: false,
            scroll_x: 0,
            rows_start: 0,
            rows_end: 0,
        }
    }

    /// Gives the machine a generator built from `seed`, so that the random
    /// bytes it draws from now on are those of that seed.
    pub fn set_random_seed(&mut self, seed: u64)
        ensures
            final(self)@ == old(self)@.set_random_seed(seed),
            final(self)@.wf(),
    {
        proof {
            use_type_invariant(&*self);
        }
        let small_rng: SmallRng = generator_from_seed(seed);
        self.rnd_seed = Some(small_rng);
    }

    /// The index register I.
    pub fn i(&self) -> (i: u16)
        ensures
            i == self@.i,
    {
        self.i
    }

    /// Number of return addresses on the call stack; never above 16.
    pub fn sp(&self) -> (sp: u8)
        ensures
            sp == self@.sp,
            sp <= STACK_SIZE,
    {
        proof {
            use_type_invariant(self);
        }
        self.sp
    }

    /// The call stack; the entries below `sp` are live.
    pub fn stack(&self) -> (stack: &[u16; STACK_SIZE])
        ensures
            stack@ == self@.stack,
    {
        &self.stack
    }

    /// The general registers V0 to VF.
    pub fn v(&self) -> (v: &[u8; REGISTERS])
        ensures
            v@ == self@.v,
    {
        &self.v
    }

    /// The program counter.
    pub fn pc(&self) -> (pc: u16)
        ensures
            pc == self@.pc,
    {
        self.pc
    }

    /// The delay timer.
    pub fn dt(&self) -> (dt: u8)
        ensures
            dt == self@.dt,
    {
        self.dt
    }

    /// The sound timer.
    pub fn st(&self) -> (st: u8)
        ensures
            st == self@.st,
    {
        self.st
    }

    /// Which keys are held down.
    pub fn keys(&self) -> (keys: &[bool; KEYS])
        ensures
            keys@ == self@.keys,
    {
        &self.keys
    }

    /// Memory.
    pub fn memory(&self) -> (memory: &[u8; RAM_SIZE])
        ensures
            memory@ == self@.memory,
    {
        &self.memory
    }

    /// The display grid, row by row at the current width.
    pub fn gfx_buffer(&self) -> (grid: &[bool; SCREEN_SIZE])
        ensures
            grid@ == self@.gfx,
    {
        &self.gfx_buffer
    }

    /// Instructions run per frame.
    pub fn tick_rate(&self) -> (rate: u16)
        ensures
            rate == self@.tick_rate,
    {
        self.tick_rate
    }

    /// Whether the display changed since the last frame was taken.
    pub fn should_draw(&self) -> (owed: bool)
        ensures
            owed == self@.should_draw,
    {
        self.should_draw
    }

    /// Horizontal scroll offset, in cells.
    pub fn scroll_x(&self) -> (offset: i8)
        ensures
            offset == self@.scroll_x,
    {
        self.scroll_x
    }

    /// First row of the dirty range.
    pub fn rows_start(&self) -> (row: u8)
        ensures
            row == self@.rows_start,
    {
        self.rows_start
    }

    /// Last row of the dirty range.
    pub fn rows_end(&self) -> (row: u8)
        ensures
            row == self@.rows_end,
    {
        self.rows_end
    }

    /// Writes one byte of memory.
    pub fn set_memory(&mut self, address: usize, value: u8)
        requires
            address < RAM_SIZE,
        ensures
            final(self)@ == (Machine {
                memory: old(self)@.memory.update(address as int, value),
                ..old(self)@
            }),
            final(self)@.wf(),
    {
        proof {
            use_type_invariant(&*self);
        }
        self.memory[address] = value;
    }

    /// Replaces the display grid.
    pub fn set_gfx_buffer(&mut self, grid: [bool; SCREEN_SIZE])
        ensures
            final(self)@ == (Machine { gfx: grid@, ..old(self)@ }),
            final(self)@.wf(),
    {
        proof {
            use_type_invariant(&*self);
        }
        self.gfx_buffer = grid;
    }

    /// Writes register `x`.
    pub fn set_v(&mut self, x: usize, value: u8)
        requires
            x < REGISTERS,
        ensures
            final(self)@ == (Machine { v: old(self)@.v.update(x as int, value), ..old(self)@ }),
            final(self)@.wf(),
    {
        proof {
            use_type_invariant(&*self);
        }
        self.v[x] = value;
    }

    /// Writes the index register I.
    pub fn set_i(&mut self, i: u16)
        ensures
            final(self)@ == (Machine { i, ..old(self)@ }),
            final(self)@.wf(),
    {
        proof {
            use_type_invariant(&*self);
        }
        self.i = i;
    }

    /// Writes the program counter.
    pub fn set_pc(&mut self, pc: u16)
        ensures
            final(self)@ == (Machine { pc, ..old(self)@ }),
            final(self)@.wf(),
    {
        proof {
            use_type_invariant(&*self);
        }
        self.pc = pc;
    }

    /// Writes the delay timer.
    pub fn set_dt(&mut self, dt: u8)
        ensures
            final(self)@ == (Machine { dt, ..old(self)@ }),
            final(self)@.wf(),
    {
        proof {
            use_type_invariant(&*self);
        }
        self.dt = dt;
    }
}

impl Default for Chip8 {
    fn default() -> (cpu: Chip8)
        ensures
            cpu@ == Machine::fresh(),
            cpu@.wf(),
    {
        Chip8::new()
    }
}

} // verus!
