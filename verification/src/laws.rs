//! What holds of the instruction set as a whole, proved from the
//! definitions of the single instructions.

use crate::decode::decode_spec;
use crate::decode::Decoded;
use crate::decode::Instruction;
use crate::error::Chip8Error;
use crate::machine::next_pc;
use crate::machine::Machine;
use crate::machine::FLAG;
use crate::machine::ROWS_MAX;
use crate::machine::ROWS_MIN;
use crate::machine::SCREEN_SIZE;
use crate::machine::STACK_SIZE;
use crate::memory::opcode_at;
use crate::sprite::lemma_dirty_range_bounds;
use crate::sprite::lemma_sprite_cell;
use crate::sprite::lemma_sprite_cell_unique;
use crate::timers::counted_down;
use vstd::prelude::*;

verus! {

/// `LD Vx, kk1` followed by `ADD Vx, kk2` leaves `(kk1 + kk2) mod 256` in Vx.
pub proof fn law_load_then_add(m: Machine, x: u8, kk1: u8, kk2: u8)
    requires
        m.wf(),
        x < 16,
    ensures
        m.execute(Instruction::LdVxByte { x, kk: kk1 }) matches Ok(loaded) && loaded.execute(
            Instruction::AddVxByte { x, kk: kk2 },
        ) matches Ok(added) && added.v[x as int] == (kk1 + kk2) % 256,
{
    reveal(Machine::execute);
}

/// `CLS` leaves every cell of the display off and every row dirty, whatever
/// the machine held before.
pub proof fn law_clear_screen(m: Machine)
    ensures
        m.execute(Instruction::Cls) matches Ok(cleared) && cleared.gfx.len() == SCREEN_SIZE && (
        forall|cell: int| 0 <= cell < SCREEN_SIZE ==> !(#[trigger] cleared.gfx[cell]))
            && cleared.rows_start == ROWS_MIN && cleared.rows_end == ROWS_MAX
            && cleared.should_draw,
{
    reveal(Machine::execute);
}

/// `CALL nnn` followed by `RET` brings the program to the instruction after
/// the call and the stack pointer to where it was; whenever the call is
/// accepted, so is the return.
pub proof fn law_call_then_return(m: Machine, nnn: u16)
    requires
        m.wf(),
        m.sp < STACK_SIZE,
    ensures
        m.execute(Instruction::Call { nnn }) matches Ok(called) && called.execute(
            Instruction::Ret,
        ) matches Ok(returned) && returned.pc == next_pc(m.pc) && returned.sp == m.sp,
{
    reveal(Machine::execute);
}

impl Machine {
    /// The machine after `count` calls of `nnn` in a row, or the error of the
    /// first call that is refused.
    pub open spec fn nested_calls(self, nnn: u16, count: nat) -> Result<Machine, Chip8Error>
        decreases count,
    {
        if count == 0 {
            Ok(self)
        } else {
            match self.nested_calls(nnn, (count - 1) as nat) {
                Ok(inner) => inner.execute(Instruction::Call { nnn }),
                Err(error) => Err(error),
            }
        }
    }

    /// The timer value `frames` frames after it stood at `timer`.
    pub open spec fn timer_after(timer: u8, frames: nat) -> u8
        decreases frames,
    {
        if frames == 0 {
            timer
        } else {
            counted_down(Machine::timer_after(timer, (frames - 1) as nat))
        }
    }

    /// Whether one of the next `ticks` ticks runs `LD DT, Vx`.
    pub open spec fn loads_delay_timer(self, ticks: nat) -> bool
        decreases ticks,
    {
        if ticks == 0 {
            false
        } else {
            match self.tick() {
                Ok(next) => decode_spec(opcode_at(self.memory, self.pc)) matches Decoded::Run(
                    Instruction::LdDtVx { .. },
                ) || next.loads_delay_timer((ticks - 1) as nat),
                Err(_) => false,
            }
        }
    }

    /// The machine after `count` frames, whether or not a frame ended in an
    /// error.
    pub open spec fn frames(self, count: nat) -> Machine
        decreases count,
    {
        if count == 0 {
            self
        } else {
            self.frames((count - 1) as nat).update().0
        }
    }

    /// Whether one of the next `count` frames runs `LD DT, Vx`.
    pub open spec fn frames_load_delay_timer(self, count: nat) -> bool
        decreases count,
    {
        if count == 0 {
            false
        } else {
            let before = self.frames((count - 1) as nat);
            self.frames_load_delay_timer((count - 1) as nat)
                || before.update_timers().loads_delay_timer(before.tick_rate as nat)
        }
    }

    /// The registers after each of up to `ticks` ticks, as far as the ticks
    /// are accepted.
    pub open spec fn register_trace(self, ticks: nat) -> Seq<Seq<u8>>
        decreases ticks,
    {
        if ticks == 0 {
            Seq::empty()
        } else {
            match self.tick() {
                Ok(next) => seq![next.v] + next.register_trace((ticks - 1) as nat),
                Err(_) => Seq::empty(),
            }
        }
    }

    /// Whether two machines agree in everything but their generators.
    pub open spec fn same_but_generator(self, other: Machine) -> bool {
        (Machine { rng: other.rng, ..self }) == other
    }
}

/// From an empty stack, up to sixteen nested calls are accepted, and each
/// takes one slot.
pub proof fn law_sixteen_calls_fit(m: Machine, nnn: u16, count: nat)
    requires
        m.wf(),
        m.sp == 0,
        count <= STACK_SIZE,
    ensures
        m.nested_calls(nnn, count) matches Ok(inner) && inner.sp == count && inner.wf(),
    decreases count,
{
    reveal(Machine::execute);
    if count > 0 {
        law_sixteen_calls_fit(m, nnn, (count - 1) as nat);
    }
}

/// From an empty stack, the seventeenth nested call is refused with
/// `StackOverflow`.
pub proof fn law_seventeenth_call_overflows(m: Machine, nnn: u16)
    requires
        m.wf(),
        m.sp == 0,
    ensures
        m.nested_calls(nnn, 17) == Err::<Machine, Chip8Error>(Chip8Error::StackOverflow),
{
    reveal(Machine::execute);
    law_sixteen_calls_fit(m, nnn, 16);
}

/// `RET` with nothing on the stack is refused with `StackUnderflow`; a
/// machine that was just made is such a machine.
pub proof fn law_return_on_empty_stack(m: Machine)
    requires
        m.sp == 0,
    ensures
        m.execute(Instruction::Ret) == Err::<Machine, Chip8Error>(Chip8Error::StackUnderflow),
        Machine::fresh().sp == 0,
{
    reveal(Machine::execute);
}

/// The cells that a draw toggles are exactly those on which a set pixel of
/// the sprite falls: pixel (`row`, `col`) falls on the cell at column
/// `(Vx + col) mod width` of row `(Vy + row) mod height`.
pub proof fn law_draw_toggles_cells_under_pixels(m: Machine, x: u8, y: u8, n: u8, cell: int)
    requires
        n < 16,
    ensures
        m.sprite_covers(x, y, n, cell) <==> exists|row: int, col: int|
            0 <= row < m.sprite_height(n) && 0 <= col < m.sprite_width(n) && m.sprite_pixel(
                n,
                row,
                col,
            ) && #[trigger] m.sprite_cell(x, y, row, col) == cell,
{
    if m.sprite_covers(x, y, n, cell) {
        let row = m.sprite_row(y, cell);
        let col = m.sprite_col(x, cell);
        lemma_sprite_cell_unique(m, x, y, cell, row, col);
        assert(m.sprite_cell(x, y, row, col) == cell);
    }
    if exists|row: int, col: int|
        0 <= row < m.sprite_height(n) && 0 <= col < m.sprite_width(n) && m.sprite_pixel(
            n,
            row,
            col,
        ) && #[trigger] m.sprite_cell(x, y, row, col) == cell {
        let (row, col) = choose|row: int, col: int|
            0 <= row < m.sprite_height(n) && 0 <= col < m.sprite_width(n) && m.sprite_pixel(
                n,
                row,
                col,
            ) && #[trigger] m.sprite_cell(x, y, row, col) == cell;
        lemma_sprite_cell(m, x, y, row, col);
    }
}

/// Drawing a sprite a second time at the same place puts the display back
/// exactly as it was before the first draw.
pub proof fn law_draw_twice_restores(m: Machine, x: u8, y: u8, n: u8)
    requires
        m.wf(),
        x < 16,
        y < 16,
        n < 16,
        m.drw_vx_vy_nibble(x, y, n) matches Ok(once) && once.v[x as int] == m.v[x as int]
            && once.v[y as int] == m.v[y as int],
    ensures
        m.drw_vx_vy_nibble(x, y, n) matches Ok(once) && once.drw_vx_vy_nibble(
            x,
            y,
            n,
        ) matches Ok(twice) && twice.gfx == m.gfx,
{
    let once = m.drw_vx_vy_nibble(x, y, n)->Ok_0;
    assert forall|cell: int| #[trigger]
        once.sprite_covers(x, y, n, cell) == m.sprite_covers(x, y, n, cell) by {}
    let twice = once.drw_vx_vy_nibble(x, y, n)->Ok_0;
    assert(twice.gfx =~= m.gfx);
}

/// The second of two draws of a sprite at the same place sets VF to 1,
/// provided the first draw lit at least one cell.
pub proof fn law_draw_twice_collides(m: Machine, x: u8, y: u8, n: u8, lit: int)
    requires
        m.wf(),
        x < 16,
        y < 16,
        n < 16,
        m.drw_vx_vy_nibble(x, y, n) matches Ok(once) && once.v[x as int] == m.v[x as int]
            && once.v[y as int] == m.v[y as int],
        m.sprite_covers(x, y, n, lit),
        !m.gfx[lit],
    ensures
        m.drw_vx_vy_nibble(x, y, n) matches Ok(once) && once.drw_vx_vy_nibble(
            x,
            y,
            n,
        ) matches Ok(twice) && twice.v[FLAG as int] == 1,
{
    let once = m.drw_vx_vy_nibble(x, y, n)->Ok_0;
    assert(once.sprite_covers(x, y, n, lit) == m.sprite_covers(x, y, n, lit));
    assert(once.gfx[lit] && once.sprite_covers(x, y, n, lit));
}

/// A timer that stands at `timer` stands at `timer - frames` after `frames`
/// frames, and at zero once that would be negative.
pub proof fn law_timer_floor(timer: u8, frames: nat)
    ensures
        Machine::timer_after(timer, frames) == if timer >= frames {
            timer - frames
        } else {
            0
        },
    decreases frames,
{
    if frames > 0 {
        law_timer_floor(timer, (frames - 1) as nat);
    }
}

/// A run that does not come across `LD DT, Vx` leaves the delay timer as it
/// is.
pub proof fn law_run_keeps_delay_timer(m: Machine, ticks: nat)
    requires
        !m.loads_delay_timer(ticks),
    ensures
        m.run(ticks).0.dt == m.dt,
    decreases ticks,
{
    if ticks > 0 {
        if let Ok(next) = m.tick() {
            let instruction = decode_spec(opcode_at(m.memory, m.pc))->Run_0;
            law_timers_written_by_loads_only(m, instruction);
            law_run_keeps_delay_timer(next, (ticks - 1) as nat);
        }
    }
}

/// Over frames that do not come across `LD DT, Vx`, the delay timer counts
/// down by one a frame and stays at zero once it is there.
pub proof fn law_frames_count_delay_timer_down(m: Machine, count: nat)
    requires
        !m.frames_load_delay_timer(count),
    ensures
        m.frames(count).dt == if m.dt >= count {
            m.dt - count
        } else {
            0
        },
    decreases count,
{
    if count > 0 {
        let before = m.frames((count - 1) as nat);
        law_frames_count_delay_timer_down(m, (count - 1) as nat);
        law_run_keeps_delay_timer(before.update_timers(), before.tick_rate as nat);
    }
}

/// No instruction but `LD DT, Vx` writes the delay timer, and none but
/// `LD ST, Vx` the sound timer: between two writes a timer only counts down.
pub proof fn law_timers_written_by_loads_only(m: Machine, instruction: Instruction)
    ensures
        m.execute(instruction) matches Ok(next) ==> {
            &&& !(instruction is LdDtVx) ==> next.dt == m.dt
            &&& !(instruction is LdStVx) ==> next.st == m.st
        },
{
    reveal(Machine::execute);
}

/// Every opcode that is run names registers and counts that exist.
pub proof fn law_decoded_operands_in_range(opcode: u16)
    ensures
        decode_spec(opcode) matches Decoded::Run(instruction) ==> instruction.wf(),
{
}

/// An instruction leaves every part of the machine at its size and the stack
/// pointer within the stack.
pub proof fn law_execute_keeps_shape(m: Machine, instruction: Instruction)
    requires
        m.wf(),
        instruction.wf(),
    ensures
        m.execute(instruction) matches Ok(next) ==> next.wf(),
{
    reveal(Machine::execute);
}

/// A run leaves every part of the machine at its size and the stack pointer
/// within the stack, as many ticks as it may take.
pub proof fn law_run_keeps_shape(m: Machine, ticks: nat)
    requires
        m.wf(),
    ensures
        m.run(ticks).0.wf(),
    decreases ticks,
{
    if ticks > 0 {
        if let Ok(next) = m.tick() {
            law_decoded_operands_in_range(opcode_at(m.memory, m.pc));
            let instruction = decode_spec(opcode_at(m.memory, m.pc))->Run_0;
            law_execute_keeps_shape(m, instruction);
            law_run_keeps_shape(next, (ticks - 1) as nat);
        }
    }
}

/// After a draw, the dirty range holds the row of every cell that the sprite
/// toggled, and it still holds the rows it held before.
pub proof fn law_dirty_range_covers(m: Machine, x: u8, y: u8, n: u8, cell: int)
    requires
        m.wf(),
        x < 16,
        y < 16,
        n < 16,
        m.sprite_covers(x, y, n, cell),
    ensures
        m.drw_vx_vy_nibble(x, y, n) matches Ok(drawn) ==> drawn.rows_start <= cell / m.width()
            <= drawn.rows_end && drawn.rows_start <= m.rows_start && m.rows_end <= drawn.rows_end,
{
    let row = m.sprite_row(y, cell);
    let col = m.sprite_col(x, cell);
    lemma_sprite_cell_unique(m, x, y, cell, row, col);
    lemma_sprite_cell(m, x, y, row, col);
    assert(m.screen_row(y, row) == cell / m.width());
    assert(m.sprite_pixel(n, row, col));
    assert(m.sprite_row_shows(n, row));
    lemma_dirty_range_holds(m, y, n, m.sprite_height(n), row);
    lemma_dirty_range_bounds(m, y, n, m.sprite_height(n));
}

/// After a draw, the dirty range starts at its old first row or at a row
/// that the sprite touched, and ends at its old last row or at a row that
/// the sprite touched: it holds no more than it must.
pub proof fn law_dirty_range_tight(m: Machine, y: u8, n: u8, rows: int)
    ensures
        m.dirty_start_before(y, n, rows) == m.rows_start || exists|row: int|
            0 <= row < rows && m.sprite_row_shows(n, row) && #[trigger] m.screen_row(y, row)
                == m.dirty_start_before(y, n, rows),
        m.dirty_end_before(y, n, rows) == m.rows_end || exists|row: int|
            0 <= row < rows && m.sprite_row_shows(n, row) && #[trigger] m.screen_row(y, row)
                == m.dirty_end_before(y, n, rows),
    decreases rows,
{
    if rows > 0 {
        law_dirty_range_tight(m, y, n, rows - 1);
        let at = m.screen_row(y, rows - 1);
        if m.dirty_start_before(y, n, rows) != m.rows_start {
            if m.dirty_start_before(y, n, rows) == m.dirty_start_before(y, n, rows - 1) {
                let row = choose|row: int|
                    0 <= row < rows - 1 && m.sprite_row_shows(n, row) && #[trigger] m.screen_row(
                        y,
                        row,
                    ) == m.dirty_start_before(y, n, rows - 1);
                assert(m.screen_row(y, row) == m.dirty_start_before(y, n, rows));
            } else {
                assert(m.screen_row(y, rows - 1) == m.dirty_start_before(y, n, rows));
            }
        }
        if m.dirty_end_before(y, n, rows) != m.rows_end {
            if m.dirty_end_before(y, n, rows) == m.dirty_end_before(y, n, rows - 1) {
                let row = choose|row: int|
                    0 <= row < rows - 1 && m.sprite_row_shows(n, row) && #[trigger] m.screen_row(
                        y,
                        row,
                    ) == m.dirty_end_before(y, n, rows - 1);
                assert(m.screen_row(y, row) == m.dirty_end_before(y, n, rows));
            } else {
                assert(m.screen_row(y, rows - 1) == m.dirty_end_before(y, n, rows));
            }
        }
    }
}

/// Once the first `rows` rows of a sprite are drawn, the dirty range holds
/// the screen row of each of them that shows, and the rows it held before.
proof fn lemma_dirty_range_holds(m: Machine, y: u8, n: u8, rows: int, row: int)
    requires
        0 <= row < rows,
        m.sprite_row_shows(n, row),
    ensures
        m.dirty_start_before(y, n, rows) <= m.screen_row(y, row) <= m.dirty_end_before(y, n, rows),
        m.dirty_start_before(y, n, rows) <= m.rows_start,
        m.rows_end <= m.dirty_end_before(y, n, rows),
    decreases rows,
{
    lemma_dirty_range_grows(m, y, n, rows);
    if row < rows - 1 {
        lemma_dirty_range_holds(m, y, n, rows - 1, row);
    }
}

/// Drawing more rows only widens the dirty range.
proof fn lemma_dirty_range_grows(m: Machine, y: u8, n: u8, rows: int)
    ensures
        m.dirty_start_before(y, n, rows) <= m.rows_start,
        m.rows_end <= m.dirty_end_before(y, n, rows),
    decreases rows,
{
    if rows > 0 {
        lemma_dirty_range_grows(m, y, n, rows - 1);
    }
}

/// Two machines that agree in everything but their generators, seeded with
/// the same seed, go through the same registers tick by tick.
pub proof fn law_seeded_runs_agree(a: Machine, b: Machine, seed: u64, ticks: nat)
    requires
        a.same_but_generator(b),
    ensures
        a.set_random_seed(seed).register_trace(ticks) == b.set_random_seed(seed).register_trace(
            ticks,
        ),
{
    assert(a.set_random_seed(seed) == b.set_random_seed(seed));
}

} // verus!
