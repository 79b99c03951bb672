//! The display: resolution, the dirty range, taking a frame, clearing and
//! scrolling.

use crate::chip8::Chip8;
use crate::machine::Machine;
use crate::machine::ROWS_MAX;
use crate::machine::ROWS_MIN;
use crate::machine::SCREEN_SIZE;
use vstd::prelude::*;

verus! {

/// The cell that lies `shift` cells before `cell` on the grid taken as a
/// ring.
pub open spec fn ring_cell(cell: int, shift: int) -> int {
    (cell - shift) % (SCREEN_SIZE as int)
}

impl Machine {
    /// The machine with every row marked dirty.
    pub open spec fn full_screen_rows(self) -> Machine {
        Machine { rows_start: ROWS_MIN, rows_end: ROWS_MAX, ..self }
    }

    /// The machine with no row marked dirty.
    pub open spec fn reset_rows(self) -> Machine {
        Machine { rows_start: ROWS_MAX, rows_end: ROWS_MIN, ..self }
    }

    /// What taking a frame hands out and leaves behind: while a redraw is
    /// owed, the grid, with the debt and the dirty range cleared; otherwise
    /// nothing, with nothing changed.
    pub open spec fn draw(self) -> (Option<Seq<bool>>, Machine) {
        if self.should_draw {
            (Some(self.gfx), Machine { should_draw: false, ..self.reset_rows() })
        } else {
            (None, self)
        }
    }

    /// `CLS`: every cell is off, every row is dirty and a redraw is owed.
    pub open spec fn cls(self) -> Machine {
        Machine { gfx: Seq::new(SCREEN_SIZE as nat, |cell: int| false), ..self }.redraw_all().advance()
    }

    /// The grid turned by `shift` rows of the current width towards its end:
    /// every row of the screen moves down by `shift` rows. The grid is turned
    /// as a whole, so what leaves at its end comes back at its start; at low
    /// resolution the rows that leave the screen stay in the rest of the
    /// grid, and the rows that enter come from there.
    pub open spec fn scrolled(self, shift: int) -> Seq<bool> {
        Seq::new(
            SCREEN_SIZE as nat,
            |cell: int| self.gfx[ring_cell(cell, shift * self.width())],
        )
    }

    /// `SCD n`: the rows move down by `n`; every row is dirty and a redraw is
    /// owed.
    pub open spec fn scd(self, n: u8) -> Machine {
        Machine { gfx: self.scrolled(n as int), ..self }.redraw_all().advance()
    }

    /// `SCU n`: the rows move up by `n`; every row is dirty and a redraw is
    /// owed.
    pub open spec fn scu(self, n: u8) -> Machine {
        Machine { gfx: self.scrolled(-(n as int)), ..self }.redraw_all().advance()
    }

    /// `SCR`: the scroll offset grows by four, modulo 256 within -128..=127;
    /// every row is dirty and a redraw is owed.
    pub open spec fn scr(self) -> Machine {
        Machine {
            scroll_x: if self.scroll_x + 4 > 127 {
                (self.scroll_x + 4 - 256) as i8
            } else {
                (self.scroll_x + 4) as i8
            },
            ..self
        }.redraw_all().advance()
    }

    /// `SCL`: the scroll offset shrinks by four, modulo 256 within
    /// -128..=127; every row is dirty and a redraw is owed.
    pub open spec fn scl(self) -> Machine {
        Machine {
            scroll_x: if self.scroll_x - 4 < -128 {
                (self.scroll_x - 4 + 256) as i8
            } else {
                (self.scroll_x - 4) as i8
            },
            ..self
        }.redraw_all().advance()
    }

    /// `LOW`.
    pub open spec fn low(self) -> Machine {
        Machine { hi_res: false, ..self }.advance()
    }

    /// `HIGH`.
    pub open spec fn high(self) -> Machine {
        Machine { hi_res: true, ..self }.advance()
    }
}

impl Chip8 {
    /// Whether the display is at high resolution.
    pub fn is_hi_res(&self) -> (hi_res: bool)
        ensures
            hi_res == self@.hi_res,
    {
        self.hi_res
    }

    /// Logical width of the display: 128 at high resolution, 64 otherwise.
    pub fn width(&self) -> (width: usize)
        ensures
            width == self@.width(),
    {
        if self.is_hi_res() {
            128
        } else {
            64
        }
    }

    /// Logical height of the display: 64 at high resolution, 32 otherwise.
    pub fn height(&self) -> (height: usize)
        ensures
            height == self@.height(),
    {
        if self.is_hi_res() {
            64
        } else {
            32
        }
    }

    /// Marks every row dirty.
    pub fn full_screen_rows(&mut self)
        ensures
            final(self)@ == old(self)@.full_screen_rows(),
            final(self)@.wf(),
    {
        proof {
            use_type_invariant(&*self);
        }
        self.rows_start = ROWS_MIN;
        self.rows_end = ROWS_MAX;
    }

    /// Marks no row dirty.
    pub fn reset_rows(&mut self)
        ensures
            final(self)@ == old(self)@.reset_rows(),
            final(self)@.wf(),
    {
        proof {
            use_type_invariant(&*self);
        }
        self.rows_start = ROWS_MAX;
        self.rows_end = ROWS_MIN;
    }

    /// Takes the frame if one is owed: hands out the grid and clears the
    /// redraw flag and the dirty range. Returns `None`, and changes nothing,
    /// when the display did not change since the last frame was taken.
    pub fn draw(&mut self) -> (frame: Option<[bool; SCREEN_SIZE]>)
        ensures
            final(self)@ == old(self)@.draw().1,
            final(self)@.wf(),
            match frame {
                Some(grid) => old(self)@.draw().0 == Some(grid@),
                None => old(self)@.draw().0 is None,
            },
    {
        proof {
            use_type_invariant(&*self);
        }
        if self.should_draw {
            self.should_draw = false;
            self.rows_start = ROWS_MAX;
            self.rows_end = ROWS_MIN;
            Some(self.gfx_buffer)
        } else {
            None
        }
    }

    /// Marks every row dirty and raises the redraw flag.
    pub(crate) fn redraw_all(&mut self)
        ensures
            final(self)@ == old(self)@.redraw_all(),
    {
        proof {
            use_type_invariant(&*self);
        }
        self.rows_start = ROWS_MIN;
        self.rows_end = ROWS_MAX;
        self.should_draw = true;
    }

    /// Clears the screen.
    pub(crate) fn cls(&mut self)
        ensures
            final(self)@ == old(self)@.cls(),
    {
        proof {
            use_type_invariant(&*self);
        }
        self.gfx_buffer = [false; SCREEN_SIZE];
        self.redraw_all();
        self.pc = self.pc.wrapping_add(2);
    }

    /// Turns the grid by `shift` cells towards its end; what leaves at the end
    /// comes back at the start.
    pub(crate) fn rotate_screen(&mut self, shift: usize)
        requires
            shift < SCREEN_SIZE,
        ensures
            final(self)@ == (Machine {
                gfx: Seq::new(
                    SCREEN_SIZE as nat,
                    |cell: int| old(self)@.gfx[ring_cell(cell, shift as int)],
                ),
                ..old(self)@
            }),
    {
        proof {
            use_type_invariant(&*self);
        }
        let before: [bool; SCREEN_SIZE] = self.gfx_buffer;
        let mut cell: usize = 0;
        while cell < SCREEN_SIZE
            invariant
                cell <= SCREEN_SIZE,
                shift < SCREEN_SIZE,
                before@ == old(self)@.gfx,
                self.inv(),
                self@ == (Machine {
                    gfx: Seq::new(
                        SCREEN_SIZE as nat,
                        |c: int|
                            if 0 <= c < cell {
                                before@[ring_cell(c, shift as int)]
                            } else {
                                before@[c]
                            },
                    ),
                    ..old(self)@
                }),
            decreases SCREEN_SIZE - cell,
        {
            let from: usize = (cell + SCREEN_SIZE - shift) % SCREEN_SIZE;
            assert(from == ring_cell(cell as int, shift as int)) by {
                if cell >= shift {
                    assert(cell + SCREEN_SIZE - shift == (cell - shift) + SCREEN_SIZE);
                }
            }
            self.gfx_buffer[cell] = before[from];
            cell = cell + 1;
        }
    }

    /// Scrolls the display down by `n` rows.
    pub(crate) fn scd(&mut self, n: u8)
        requires
            n < 16,
        ensures
            final(self)@ == old(self)@.scd(n),
    {
        let shift: usize = if self.is_hi_res() {
            128 * n as usize
        } else {
            64 * n as usize
        };
        self.rotate_screen(shift);
        self.redraw_all();
        self.branch(false);
    }

    /// Scrolls the display up by `n` rows.
    pub(crate) fn scu(&mut self, n: u8)
        requires
            n < 16,
        ensures
            final(self)@ == old(self)@.scu(n),
    {
        let shift: usize = if n == 0 {
            0
        } else if self.is_hi_res() {
            SCREEN_SIZE - 128 * n as usize
        } else {
            SCREEN_SIZE - 64 * n as usize
        };
        proof {
            let back = -(n as int) * old(self)@.width();
            assert(back == if old(self)@.hi_res {
                -128 * n
            } else {
                -64 * n
            });
            assert forall|cell: int| #[trigger] ring_cell(cell, shift as int) == ring_cell(cell, back) by {
                if n != 0 {
                    vstd::arithmetic::div_mod::lemma_mod_sub_multiples_vanish(
                        cell - back,
                        SCREEN_SIZE as int,
                    );
                }
            }
        }
        self.rotate_screen(shift);
        self.redraw_all();
        self.branch(false);
    }

    /// Scrolls the display right by four cells.
    pub(crate) fn scr(&mut self)
        ensures
            final(self)@ == old(self)@.scr(),
    {
        proof {
            use_type_invariant(&*self);
        }
        self.scroll_x = self.scroll_x.wrapping_add(4);
        self.redraw_all();
        self.branch(false);
    }

    /// Scrolls the display left by four cells.
    pub(crate) fn scl(&mut self)
        ensures
            final(self)@ == old(self)@.scl(),
    {
        proof {
            use_type_invariant(&*self);
        }
        self.scroll_x = self.scroll_x.wrapping_sub(4);
        self.redraw_all();
        self.branch(false);
    }

    /// Switches to low resolution.
    pub(crate) fn low(&mut self)
        ensures
            final(self)@ == old(self)@.low(),
    {
        proof {
            use_type_invariant(&*self);
        }
        self.hi_res = false;
        self.pc = self.pc.wrapping_add(2);
    }

    /// Switches to high resolution.
    pub(crate) fn high(&mut self)
        ensures
            final(self)@ == old(self)@.high(),
    {
        proof {
            use_type_invariant(&*self);
        }
        self.hi_res = true;
        self.pc = self.pc.wrapping_add(2);
    }
}

} // verus!
