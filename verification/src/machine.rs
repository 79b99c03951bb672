//! The mathematical model of the machine, over which every contract of the
//! crate is written.

use crate::error::Chip8Error;
use rand::rngs::SmallRng;
use vstd::prelude::*;

verus! {

/// Number of general registers, V0 to VF.
pub const REGISTERS: usize = 16;

/// Number of return addresses the call stack holds.
pub const STACK_SIZE: usize = 16;

/// Number of keys on the keypad.
pub const KEYS: usize = 16;

/// Bytes of memory: the whole 16-bit address space.
pub const RAM_SIZE: usize = 65536;

/// Width of the display at low resolution.
pub const SCREEN_WIDTH: usize = 64;

/// Height of the display at low resolution.
pub const SCREEN_HEIGHT: usize = 32;

/// Cells of the display grid, sized for high resolution (128 by 64).
pub const SCREEN_SIZE: usize = 8192;

/// Address at which a program is loaded and starts.
pub const ENTRY_POINT: usize = 512;

/// Instructions run per frame unless `load_rom` is given another rate.
pub const DEFAULT_TICK_RATE: u16 = 10;

/// Address of the ten-byte glyphs.
pub const BIG_FONT_ADDRESS: usize = 0x50;

/// Index of VF, the register that instructions use as their flag.
pub const FLAG: usize = 0xF;

/// First row of a dirty range that covers the whole screen, and last row of
/// one that covers nothing.
pub const ROWS_MIN: u8 = 0;

/// Last row of a dirty range that covers the whole screen, and first row of
/// one that covers nothing.
pub const ROWS_MAX: u8 = 255;

/// The state of a machine as plain mathematical values.
#[verifier::ext_equal]
pub struct Machine {
    /// The index register I.
    pub i: u16,
    /// Number of return addresses on the call stack.
    pub sp: u8,
    /// The call stack; the entries below `sp` are live.
    pub stack: Seq<u16>,
    /// The general registers V0 to VF.
    pub v: Seq<u8>,
    /// The program counter.
    pub pc: u16,
    /// The delay timer.
    pub dt: u8,
    /// The sound timer.
    pub st: u8,
    /// Which keys are held down.
    pub keys: Seq<bool>,
    /// Memory.
    pub memory: Seq<u8>,
    /// The display grid, row by row at the current width.
    pub gfx: Seq<bool>,
    /// The random generator, once seeded.
    pub rng: Option<SmallRng>,
    /// Instructions run per frame.
    pub tick_rate: u16,
    /// Whether the display changed since the last frame was taken.
    pub should_draw: bool,
    /// Whether the display is at high resolution.
    pub hi_res: bool,
    /// Horizontal scroll offset, in cells.
    pub scroll_x: i8,
    /// First row of the dirty range.
    pub rows_start: u8,
    /// Last row of the dirty range.
    pub rows_end: u8,
}

/// The address of the instruction after the one at `pc`.
pub open spec fn next_pc(pc: u16) -> u16 {
    ((pc + 2) % 0x10000) as u16
}

/// The address two instructions after the one at `pc`.
pub open spec fn skip_pc(pc: u16) -> u16 {
    ((pc + 4) % 0x10000) as u16
}

impl Machine {
    /// Every component has its fixed size and the stack pointer is in range.
    pub open spec fn wf(self) -> bool {
        &&& self.sp <= STACK_SIZE
        &&& self.stack.len() == STACK_SIZE
        &&& self.v.len() == REGISTERS
        &&& self.keys.len() == KEYS
        &&& self.memory.len() == RAM_SIZE
        &&& self.gfx.len() == SCREEN_SIZE
    }

    /// Logical width of the display.
    pub open spec fn width(self) -> int {
        if self.hi_res {
            128
        } else {
            64
        }
    }

    /// Logical height of the display.
    pub open spec fn height(self) -> int {
        if self.hi_res {
            64
        } else {
            32
        }
    }

    /// The machine with its program counter on the next instruction.
    pub open spec fn advance(self) -> Machine {
        Machine { pc: next_pc(self.pc), ..self }
    }

    /// The machine with its program counter past the next instruction.
    pub open spec fn skip(self) -> Machine {
        Machine { pc: skip_pc(self.pc), ..self }
    }

    /// The machine with every row marked dirty and a redraw owed.
    pub open spec fn redraw_all(self) -> Machine {
        Machine { rows_start: ROWS_MIN, rows_end: ROWS_MAX, should_draw: true, ..self }
    }

    /// An operation that was to turn `self` into `expected` did so and
    /// reported success, or was refused with the expected error and left
    /// everything as it was.
    pub open spec fn settles(
        self,
        expected: Result<Machine, Chip8Error>,
        result: Result<(), Chip8Error>,
        after: Machine,
    ) -> bool {
        match expected {
            Ok(machine) => result is Ok && after =~= machine,
            Err(error) => result == Err::<(), Chip8Error>(error) && after =~= self,
        }
    }

    /// A machine as `new` makes it.
    pub open spec fn fresh() -> Machine {
        Machine {
            i: 0,
            sp: 0,
            stack: Seq::new(STACK_SIZE as nat, |k: int| 0u16),
            v: Seq::new(REGISTERS as nat, |k: int| 0u8),
            pc: ENTRY_POINT as u16,
            dt: 0,
            st: 0,
            keys: Seq::new(KEYS as nat, |k: int| false),
            memory: Seq::new(RAM_SIZE as nat, |k: int| 0u8),
            gfx: Seq::new(SCREEN_SIZE as nat, |k: int| false),
            rng: None,
            tick_rate: DEFAULT_TICK_RATE,
            should_draw: false,
            hi_res: false,
            scroll_x: 0,
            rows_start: 0,
            rows_end: 0,
        }
    }
}

} // verus!
