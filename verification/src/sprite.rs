//! `DRW`: what drawing a sprite does to the display, and the proof that the
//! drawing loop does exactly that.

use crate::chip8::Chip8;
use crate::error::Chip8Error;
use crate::machine::Machine;
use crate::machine::FLAG;
use vstd::prelude::*;

verus! {

/// Whether pixel `k` of a sprite byte is set, counting from the left.
pub open spec fn pixel_bit(byte: u8, k: u8) -> bool {
    byte & (0x80u8 >> k) != 0
}

impl Machine {
    /// Number of cells on the screen at the current resolution: width times
    /// height.
    pub open spec fn cells(self) -> int {
        if self.hi_res {
            8192
        } else {
            2048
        }
    }

    /// Width in pixels of the sprite that `DRW` with count `n` draws: 16 for
    /// a count of zero at high resolution, 8 otherwise.
    pub open spec fn sprite_width(self, n: u8) -> int {
        if n == 0 && self.hi_res {
            16
        } else {
            8
        }
    }

    /// Height in rows of the sprite that `DRW` with count `n` draws: the
    /// count, or 16 for a count of zero.
    pub open spec fn sprite_height(self, n: u8) -> int {
        if n == 0 {
            16
        } else {
            n as int
        }
    }

    /// Number of bytes that the sprite takes in memory.
    pub open spec fn sprite_bytes(self, n: u8) -> int {
        if self.sprite_width(n) == 16 {
            2 * self.sprite_height(n)
        } else {
            self.sprite_height(n)
        }
    }

    /// Address of the byte that holds pixel (`row`, `col`) of the sprite at
    /// I: one byte a row, or two with the left half first.
    pub open spec fn sprite_address(self, n: u8, row: int, col: int) -> int {
        if self.sprite_width(n) == 16 {
            self.i + 2 * row + col / 8
        } else {
            self.i + row
        }
    }

    /// Whether pixel (`row`, `col`) of the sprite at I is set.
    pub open spec fn sprite_pixel(self, n: u8, row: int, col: int) -> bool {
        pixel_bit(self.memory[self.sprite_address(n, row, col)], (col % 8) as u8)
    }

    /// The cell on which pixel (`row`, `col`) of a sprite drawn at (Vx, Vy)
    /// falls. Coordinates wrap around the screen.
    pub open spec fn sprite_cell(self, x: u8, y: u8, row: int, col: int) -> int {
        (self.v[x as int] + col) % self.width() + ((self.v[y as int] + row) % self.height())
            * self.width()
    }

    /// The sprite column that falls on `cell` when the sprite is drawn at
    /// column Vx.
    pub open spec fn sprite_col(self, x: u8, cell: int) -> int {
        (cell % self.width() - self.v[x as int]) % self.width()
    }

    /// The sprite row that falls on `cell` when the sprite is drawn at row
    /// Vy.
    pub open spec fn sprite_row(self, y: u8, cell: int) -> int {
        (cell / self.width() - self.v[y as int]) % self.height()
    }

    /// Whether `DRW Vx, Vy, n` toggles `cell`: the cell is on the screen and
    /// a set pixel of the sprite falls on it.
    pub open spec fn sprite_covers(self, x: u8, y: u8, n: u8, cell: int) -> bool {
        &&& 0 <= cell < self.cells()
        &&& self.sprite_col(x, cell) < self.sprite_width(n)
        &&& self.sprite_row(y, cell) < self.sprite_height(n)
        &&& self.sprite_pixel(n, self.sprite_row(y, cell), self.sprite_col(x, cell))
    }

    /// Whether the sprite pixel that falls on `cell` comes before pixel
    /// (`row`, `col`) when the sprite is walked row by row.
    pub open spec fn sprite_before(self, x: u8, y: u8, cell: int, row: int, col: int) -> bool {
        self.sprite_row(y, cell) < row || (self.sprite_row(y, cell) == row && self.sprite_col(
            x,
            cell,
        ) < col)
    }

    /// Whether `DRW` toggles `cell` with one of the pixels before (`row`,
    /// `col`).
    pub open spec fn sprite_covers_before(
        self,
        x: u8,
        y: u8,
        n: u8,
        cell: int,
        row: int,
        col: int,
    ) -> bool {
        self.sprite_covers(x, y, n, cell) && self.sprite_before(x, y, cell, row, col)
    }

    /// The grid once the pixels before (`row`, `col`) are drawn.
    pub open spec fn drawn_before(self, x: u8, y: u8, n: u8, row: int, col: int) -> Seq<bool> {
        Seq::new(
            self.gfx.len(),
            |cell: int| self.gfx[cell] != self.sprite_covers_before(x, y, n, cell, row, col),
        )
    }

    /// The grid once the whole sprite is drawn: exactly the covered cells are
    /// toggled.
    pub open spec fn drawn(self, x: u8, y: u8, n: u8) -> Seq<bool> {
        Seq::new(self.gfx.len(), |cell: int| self.gfx[cell] != self.sprite_covers(x, y, n, cell))
    }

    /// Whether one of the pixels before (`row`, `col`) turns a lit cell off.
    pub open spec fn collides_before(self, x: u8, y: u8, n: u8, row: int, col: int) -> bool {
        exists|cell: int|
            0 <= cell < self.gfx.len() && self.gfx[cell] && #[trigger] self.sprite_covers_before(
                x,
                y,
                n,
                cell,
                row,
                col,
            )
    }

    /// Whether drawing the sprite turns a lit cell off.
    pub open spec fn collides(self, x: u8, y: u8, n: u8) -> bool {
        exists|cell: int|
            0 <= cell < self.gfx.len() && self.gfx[cell] && #[trigger] self.sprite_covers(
                x,
                y,
                n,
                cell,
            )
    }

    /// Whether row `row` of the sprite has a set pixel left of column `col`.
    pub open spec fn sprite_row_shows_before(self, n: u8, row: int, col: int) -> bool {
        exists|c: int| 0 <= c < col && #[trigger] self.sprite_pixel(n, row, c)
    }

    /// Whether row `row` of the sprite has a set pixel.
    pub open spec fn sprite_row_shows(self, n: u8, row: int) -> bool {
        self.sprite_row_shows_before(n, row, self.sprite_width(n))
    }

    /// Whether one of the first `rows` rows of the sprite has a set pixel.
    pub open spec fn sprite_shows_before(self, n: u8, rows: int) -> bool {
        exists|r: int| 0 <= r < rows && #[trigger] self.sprite_row_shows(n, r)
    }

    /// Whether the sprite has a set pixel at all.
    pub open spec fn sprite_shows(self, n: u8) -> bool {
        self.sprite_shows_before(n, self.sprite_height(n))
    }

    /// The screen row on which row `row` of a sprite drawn at row Vy falls.
    pub open spec fn screen_row(self, y: u8, row: int) -> int {
        (self.v[y as int] + row) % self.height()
    }

    /// First row of the dirty range once the first `rows` rows of the sprite
    /// are drawn: the least of the old first row and the screen rows of the
    /// sprite rows that show.
    pub open spec fn dirty_start_before(self, y: u8, n: u8, rows: int) -> int
        decreases rows,
    {
        if rows <= 0 {
            self.rows_start as int
        } else {
            let so_far = self.dirty_start_before(y, n, rows - 1);
            let at = self.screen_row(y, rows - 1);
            if self.sprite_row_shows(n, rows - 1) && at < so_far {
                at
            } else {
                so_far
            }
        }
    }

    /// Last row of the dirty range once the first `rows` rows of the sprite
    /// are drawn: the greatest of the old last row and the screen rows of the
    /// sprite rows that show.
    pub open spec fn dirty_end_before(self, y: u8, n: u8, rows: int) -> int
        decreases rows,
    {
        if rows <= 0 {
            self.rows_end as int
        } else {
            let so_far = self.dirty_end_before(y, n, rows - 1);
            let at = self.screen_row(y, rows - 1);
            if self.sprite_row_shows(n, rows - 1) && at > so_far {
                at
            } else {
                so_far
            }
        }
    }

    /// `DRW Vx, Vy, n`: the cells under the set pixels of the sprite at I are
    /// toggled, with coordinates wrapping around the screen. VF is 1 exactly
    /// when a lit cell went off. If the sprite has a set pixel, a redraw is
    /// owed and the dirty range grows to hold every row touched. Refused when
    /// the sprite does not lie within memory.
    pub open spec fn drw_vx_vy_nibble(self, x: u8, y: u8, n: u8) -> Result<Machine, Chip8Error> {
        if !self.in_memory(self.sprite_bytes(n)) {
            Err(Chip8Error::OutOfBoundsAccess(self.i))
        } else {
            Ok(
                Machine {
                    gfx: self.drawn(x, y, n),
                    v: self.v.update(
                        FLAG as int,
                        if self.collides(x, y, n) {
                            1
                        } else {
                            0
                        },
                    ),
                    should_draw: self.should_draw || self.sprite_shows(n),
                    rows_start: self.dirty_start_before(y, n, self.sprite_height(n)) as u8,
                    rows_end: self.dirty_end_before(y, n, self.sprite_height(n)) as u8,
                    ..self
                }.advance(),
            )
        }
    }
}

/// Laying a sprite pixel on the screen and asking which pixel lies on that
/// cell lead back to the same pixel.
pub(crate) proof fn lemma_sprite_cell(m: Machine, x: u8, y: u8, row: int, col: int)
    requires
        0 <= row < 16,
        0 <= col < 16,
    ensures
        0 <= m.sprite_cell(x, y, row, col) < m.cells(),
        m.sprite_col(x, m.sprite_cell(x, y, row, col)) == col,
        m.sprite_row(y, m.sprite_cell(x, y, row, col)) == row,
{
    let vx = m.v[x as int] as int;
    let vy = m.v[y as int] as int;
    if m.hi_res {
        let px = (vx + col) % 128;
        let py = (vy + row) % 64;
        let cell = px + py * 128;
        assert(cell % 128 == px && cell / 128 == py);
        assert((px - vx) % 128 == col);
        assert((py - vy) % 64 == row);
    } else {
        let px = (vx + col) % 64;
        let py = (vy + row) % 32;
        let cell = px + py * 64;
        assert(cell % 64 == px && cell / 64 == py);
        assert((px - vx) % 64 == col);
        assert((py - vy) % 32 == row);
    }
}

/// Going `offset` places on from `start` around a ring of `size` places ends
/// at `place` if `place` lies `offset` places after `start`.
proof fn lemma_ring_offset(place: int, start: int, offset: int, size: int)
    requires
        size > 0,
        0 <= place < size,
        0 <= offset < size,
        (place - start) % size == offset,
    ensures
        (start + offset) % size == place,
{
    let turns = (place - start) / size;
    vstd::arithmetic::div_mod::lemma_fundamental_div_mod(place - start, size);
    assert(size * (-turns) == -(size * turns)) by (nonlinear_arith);
    assert(start + offset == size * (-turns) + place);
    vstd::arithmetic::div_mod::lemma_mod_multiples_vanish(-turns, place, size);
    vstd::arithmetic::div_mod::lemma_small_mod(place as nat, size as nat);
}

/// Only one cell of the screen lies under a given sprite pixel.
pub(crate) proof fn lemma_sprite_cell_unique(m: Machine, x: u8, y: u8, cell: int, row: int, col: int)
    requires
        0 <= cell < m.cells(),
        0 <= row < 16,
        0 <= col < 16,
        m.sprite_col(x, cell) == col,
        m.sprite_row(y, cell) == row,
    ensures
        cell == m.sprite_cell(x, y, row, col),
{
    let vx = m.v[x as int] as int;
    let vy = m.v[y as int] as int;
    if m.hi_res {
        let px = cell % 128;
        let py = cell / 128;
        lemma_ring_offset(px, vx, col, 128);
        lemma_ring_offset(py, vy, row, 64);
    } else {
        let px = cell % 64;
        let py = cell / 64;
        lemma_ring_offset(px, vx, col, 64);
        lemma_ring_offset(py, vy, row, 32);
    }
}

/// Before the first pixel nothing is drawn.
proof fn lemma_draw_start(m: Machine, x: u8, y: u8, n: u8)
    ensures
        m.drawn_before(x, y, n, 0, 0) == m.gfx,
        !m.collides_before(x, y, n, 0, 0),
        !m.sprite_shows_before(n, 0),
{
    assert(m.drawn_before(x, y, n, 0, 0) =~= m.gfx);
}

/// What drawing pixel (`row`, `col`) adds to what the pixels before it did.
proof fn lemma_draw_pixel(m: Machine, x: u8, y: u8, n: u8, row: int, col: int)
    requires
        m.wf(),
        n < 16,
        0 <= row < m.sprite_height(n),
        0 <= col < m.sprite_width(n),
    ensures
        !m.sprite_covers_before(x, y, n, m.sprite_cell(x, y, row, col), row, col),
        m.drawn_before(x, y, n, row, col + 1) == if m.sprite_pixel(n, row, col) {
            m.drawn_before(x, y, n, row, col).update(
                m.sprite_cell(x, y, row, col),
                !m.gfx[m.sprite_cell(x, y, row, col)],
            )
        } else {
            m.drawn_before(x, y, n, row, col)
        },
        m.collides_before(x, y, n, row, col + 1) == (m.collides_before(x, y, n, row, col) || (
        m.sprite_pixel(n, row, col) && m.gfx[m.sprite_cell(x, y, row, col)])),
        m.sprite_row_shows_before(n, row, col + 1) == (m.sprite_row_shows_before(n, row, col)
            || m.sprite_pixel(n, row, col)),
{
    let here = m.sprite_cell(x, y, row, col);
    let on = m.sprite_pixel(n, row, col);
    lemma_sprite_cell(m, x, y, row, col);
    assert forall|cell: int| 0 <= cell < m.gfx.len() implies #[trigger] m.sprite_covers_before(
        x,
        y,
        n,
        cell,
        row,
        col + 1,
    ) == (m.sprite_covers_before(x, y, n, cell, row, col) || (cell == here && on)) by {
        if 0 <= cell < m.cells() && m.sprite_row(y, cell) == row && m.sprite_col(x, cell) == col {
            lemma_sprite_cell_unique(m, x, y, cell, row, col);
        }
    }
    if on {
        assert(m.drawn_before(x, y, n, row, col + 1) =~= m.drawn_before(x, y, n, row, col).update(
            here,
            !m.gfx[here],
        ));
    } else {
        assert(m.drawn_before(x, y, n, row, col + 1) =~= m.drawn_before(x, y, n, row, col));
    }
    if m.collides_before(x, y, n, row, col + 1) {
        let cell = choose|cell: int|
            0 <= cell < m.gfx.len() && m.gfx[cell] && #[trigger] m.sprite_covers_before(
                x,
                y,
                n,
                cell,
                row,
                col + 1,
            );
        if cell != here {
            assert(m.sprite_covers_before(x, y, n, cell, row, col));
        }
    }
    if m.collides_before(x, y, n, row, col) {
        let cell = choose|cell: int|
            0 <= cell < m.gfx.len() && m.gfx[cell] && #[trigger] m.sprite_covers_before(
                x,
                y,
                n,
                cell,
                row,
                col,
            );
        assert(m.sprite_covers_before(x, y, n, cell, row, col + 1));
    }
    if on && m.gfx[here] {
        assert(m.sprite_covers_before(x, y, n, here, row, col + 1));
    }
    if m.sprite_row_shows_before(n, row, col + 1) {
        let c = choose|c: int| 0 <= c < col + 1 && #[trigger] m.sprite_pixel(n, row, c);
        if c != col {
            assert(m.sprite_row_shows_before(n, row, col));
        }
    }
    if m.sprite_row_shows_before(n, row, col) {
        let c = choose|c: int| 0 <= c < col && #[trigger] m.sprite_pixel(n, row, c);
        assert(m.sprite_pixel(n, row, c));
    }
    if on {
        assert(m.sprite_pixel(n, row, col));
    }
}

/// Once a row of the sprite is through, the next row begins.
proof fn lemma_draw_row(m: Machine, x: u8, y: u8, n: u8, row: int)
    requires
        0 <= row < m.sprite_height(n),
    ensures
        m.drawn_before(x, y, n, row, m.sprite_width(n)) == m.drawn_before(x, y, n, row + 1, 0),
        m.collides_before(x, y, n, row, m.sprite_width(n)) == m.collides_before(
            x,
            y,
            n,
            row + 1,
            0,
        ),
        m.sprite_shows_before(n, row + 1) == (m.sprite_shows_before(n, row) || m.sprite_row_shows(
            n,
            row,
        )),
{
    let width = m.sprite_width(n);
    assert forall|cell: int| #[trigger]
        m.sprite_covers_before(x, y, n, cell, row, width) == m.sprite_covers_before(
            x,
            y,
            n,
            cell,
            row + 1,
            0,
        ) by {}
    assert(m.drawn_before(x, y, n, row, width) =~= m.drawn_before(x, y, n, row + 1, 0));
    if m.collides_before(x, y, n, row, width) {
        let cell = choose|cell: int|
            0 <= cell < m.gfx.len() && m.gfx[cell] && #[trigger] m.sprite_covers_before(
                x,
                y,
                n,
                cell,
                row,
                width,
            );
        assert(m.sprite_covers_before(x, y, n, cell, row + 1, 0));
    }
    if m.collides_before(x, y, n, row + 1, 0) {
        let cell = choose|cell: int|
            0 <= cell < m.gfx.len() && m.gfx[cell] && #[trigger] m.sprite_covers_before(
                x,
                y,
                n,
                cell,
                row + 1,
                0,
            );
        assert(m.sprite_covers_before(x, y, n, cell, row, width));
    }
    if m.sprite_shows_before(n, row + 1) {
        let r = choose|r: int| 0 <= r < row + 1 && #[trigger] m.sprite_row_shows(n, r);
        if r != row {
            assert(m.sprite_shows_before(n, row));
        }
    }
    if m.sprite_shows_before(n, row) {
        let r = choose|r: int| 0 <= r < row && #[trigger] m.sprite_row_shows(n, r);
        assert(m.sprite_row_shows(n, r));
    }
    if m.sprite_row_shows(n, row) {
        assert(m.sprite_shows_before(n, row + 1));
    }
}

/// Once the last row is through, the whole sprite is drawn.
proof fn lemma_draw_end(m: Machine, x: u8, y: u8, n: u8)
    ensures
        m.drawn_before(x, y, n, m.sprite_height(n), 0) == m.drawn(x, y, n),
        m.collides_before(x, y, n, m.sprite_height(n), 0) == m.collides(x, y, n),
{
    let height = m.sprite_height(n);
    assert forall|cell: int| #[trigger]
        m.sprite_covers_before(x, y, n, cell, height, 0) == m.sprite_covers(x, y, n, cell) by {}
    assert(m.drawn_before(x, y, n, height, 0) =~= m.drawn(x, y, n));
    if m.collides_before(x, y, n, height, 0) {
        let cell = choose|cell: int|
            0 <= cell < m.gfx.len() && m.gfx[cell] && #[trigger] m.sprite_covers_before(
                x,
                y,
                n,
                cell,
                height,
                0,
            );
        assert(m.sprite_covers(x, y, n, cell));
    }
    if m.collides(x, y, n) {
        let cell = choose|cell: int|
            0 <= cell < m.gfx.len() && m.gfx[cell] && #[trigger] m.sprite_covers(x, y, n, cell);
        assert(m.sprite_covers_before(x, y, n, cell, height, 0));
    }
}

/// The dirty range stays within what a byte holds.
pub(crate) proof fn lemma_dirty_range_bounds(m: Machine, y: u8, n: u8, rows: int)
    ensures
        0 <= m.dirty_start_before(y, n, rows) <= 255,
        0 <= m.dirty_end_before(y, n, rows) <= 255,
    decreases rows,
{
    if rows > 0 {
        lemma_dirty_range_bounds(m, y, n, rows - 1);
    }
}

impl Chip8 {
    /// Draws the sprite at I at coordinate (Vx, Vy): 8 pixels wide and `n`
    /// rows high, or 16 rows high for `n` of zero, and then 16 pixels wide at
    /// high resolution.
    pub(crate) fn drw_vx_vy_nibble(&mut self, x: u8, y: u8, n: u8) -> (result: Result<
        (),
        Chip8Error,
    >)
        requires
            x < 16,
            y < 16,
            n < 16,
        ensures
            old(self)@.settles(old(self)@.drw_vx_vy_nibble(x, y, n), result, final(self)@),
    {
        proof {
            use_type_invariant(&*self);
        }
        let wide: bool = n == 0 && self.hi_res;
        let sprite_width: usize = if wide {
            16
        } else {
            8
        };
        let sprite_height: usize = if n == 0 {
            16
        } else {
            n as usize
        };
        let sprite_bytes: usize = if wide {
            2 * sprite_height
        } else {
            sprite_height
        };
        if !self.in_memory(sprite_bytes) {
            return Err(Chip8Error::OutOfBoundsAccess(self.i));
        }
        let gfx_start_x: usize = self.v[x as usize] as usize;
        let gfx_start_y: usize = self.v[y as usize] as usize;
        let hi_res: bool = self.hi_res;
        let width: usize = self.width();
        let height: usize = self.height();
        let mut collision: bool = false;
        let mut y_offset: usize = 0;
        proof {
            lemma_draw_start(old(self)@, x, y, n);
        }
        while y_offset < sprite_height
            invariant
                x < 16,
                y < 16,
                n < 16,
                self.inv(),
                wide == (old(self)@.sprite_width(n) == 16),
                sprite_width == old(self)@.sprite_width(n),
                sprite_height == old(self)@.sprite_height(n),
                old(self)@.in_memory(old(self)@.sprite_bytes(n)),
                gfx_start_x == old(self)@.v[x as int],
                gfx_start_y == old(self)@.v[y as int],
                hi_res == old(self)@.hi_res,
                width == old(self)@.width(),
                height == old(self)@.height(),
                y_offset <= sprite_height,
                collision == old(self)@.collides_before(x, y, n, y_offset as int, 0),
                self@ == (Machine {
                    gfx: old(self)@.drawn_before(x, y, n, y_offset as int, 0),
                    should_draw: old(self)@.should_draw || old(self)@.sprite_shows_before(
                        n,
                        y_offset as int,
                    ),
                    rows_start: old(self)@.dirty_start_before(y, n, y_offset as int) as u8,
                    rows_end: old(self)@.dirty_end_before(y, n, y_offset as int) as u8,
                    ..old(self)@
                }),
            decreases sprite_height - y_offset,
        {
            let gfx_y: usize = (gfx_start_y + y_offset) % height;
            let mut row_shows: bool = false;
            let mut x_offset: usize = 0;
            while x_offset < sprite_width
                invariant
                    x < 16,
                    y < 16,
                    n < 16,
                    self.inv(),
                    wide == (old(self)@.sprite_width(n) == 16),
                    sprite_width == old(self)@.sprite_width(n),
                    sprite_height == old(self)@.sprite_height(n),
                    old(self)@.in_memory(old(self)@.sprite_bytes(n)),
                    gfx_start_x == old(self)@.v[x as int],
                    gfx_start_y == old(self)@.v[y as int],
                    hi_res == old(self)@.hi_res,
                    width == old(self)@.width(),
                    height == old(self)@.height(),
                    y_offset < sprite_height,
                    x_offset <= sprite_width,
                    gfx_y == old(self)@.screen_row(y, y_offset as int),
                    row_shows == old(self)@.sprite_row_shows_before(
                        n,
                        y_offset as int,
                        x_offset as int,
                    ),
                    collision == old(self)@.collides_before(
                        x,
                        y,
                        n,
                        y_offset as int,
                        x_offset as int,
                    ),
                    self@ == (Machine {
                        gfx: old(self)@.drawn_before(x, y, n, y_offset as int, x_offset as int),
                        should_draw: old(self)@.should_draw || old(self)@.sprite_shows_before(
                            n,
                            y_offset as int,
                        ),
                        rows_start: old(self)@.dirty_start_before(y, n, y_offset as int) as u8,
                        rows_end: old(self)@.dirty_end_before(y, n, y_offset as int) as u8,
                        ..old(self)@
                    }),
                decreases sprite_width - x_offset,
            {
                let address: usize = if wide {
                    self.i as usize + 2 * y_offset + x_offset / 8
                } else {
                    self.i as usize + y_offset
                };
                let byte: u8 = self.memory[address];
                let bit: u8 = (x_offset % 8) as u8;
                proof {
                    use_type_invariant(&*self);
                    lemma_sprite_cell(old(self)@, x, y, y_offset as int, x_offset as int);
                    lemma_draw_pixel(old(self)@, x, y, n, y_offset as int, x_offset as int);
                }
                if byte & (0x80u8 >> bit) != 0 {
                    let gfx_x: usize = (gfx_start_x + x_offset) % width;
                    let gfx_index: usize = if hi_res {
                        gfx_x + gfx_y * 128
                    } else {
                        gfx_x + gfx_y * 64
                    };
                    assert(gfx_index == old(self)@.sprite_cell(
                        x,
                        y,
                        y_offset as int,
                        x_offset as int,
                    ));
                    if self.gfx_buffer[gfx_index] {
                        collision = true;
                    }
                    self.gfx_buffer[gfx_index] = !self.gfx_buffer[gfx_index];
                    row_shows = true;
                }
                x_offset = x_offset + 1;
            }
            proof {
                use_type_invariant(&*self);
                lemma_draw_row(old(self)@, x, y, n, y_offset as int);
                lemma_dirty_range_bounds(old(self)@, y, n, y_offset as int);
                lemma_dirty_range_bounds(old(self)@, y, n, y_offset as int + 1);
            }
            if row_shows {
                if (gfx_y as u8) < self.rows_start {
                    self.rows_start = gfx_y as u8;
                }
                if (gfx_y as u8) > self.rows_end {
                    self.rows_end = gfx_y as u8;
                }
                self.should_draw = true;
            }
            y_offset = y_offset + 1;
        }
        proof {
            use_type_invariant(&*self);
            lemma_draw_end(old(self)@, x, y, n);
        }
        if collision {
            self.v[FLAG] = 1;
        } else {
            self.v[FLAG] = 0;
        }
        self.pc = self.pc.wrapping_add(2);
        Ok(())
    }
}

} // verus!
