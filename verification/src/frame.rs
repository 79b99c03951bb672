//! Presenting the display on a one-bit panel of 400 by 240 pixels.

use crate::chip8::Chip8;
use crate::machine::SCREEN_SIZE;
use crate::sprite::pixel_bit;
use vstd::prelude::*;

verus! {

/// Pixels in a row of the panel.
pub const LCD_COLUMNS: usize = 400;

/// Rows of the panel.
pub const LCD_ROWS: usize = 240;

/// Bytes in a row of the panel's frame, eight pixels to a byte and the
/// leftmost pixel in the highest bit.
pub const LCD_ROWSIZE: usize = 52;

/// Pixels to a cell, each way, when the display is at low resolution.
pub const SCALE_LOW: usize = 6;

/// Pixels to a cell, each way, when the display is at high resolution.
pub const SCALE_HIGH: usize = 3;

/// Pixels to a cell, each way, at the given resolution: the picture is 384 by
/// 192 pixels at either.
pub open spec fn panel_scale(hi_res: bool) -> int {
    if hi_res {
        SCALE_HIGH as int
    } else {
        SCALE_LOW as int
    }
}

/// The number whose binary digits, highest first, are the pixels of `row`
/// inverted: 1 for a pixel that is off, 0 for one that is on.
pub open spec fn packed(row: Seq<bool>) -> nat
    decreases row.len(),
{
    if row.len() == 0 {
        0
    } else {
        2 * packed(row.drop_last()) + if row.last() {
            0nat
        } else {
            1nat
        }
    }
}

/// Two to the power of `digits`.
pub open spec fn radix(digits: nat) -> nat
    decreases digits,
{
    if digits == 0 {
        1
    } else {
        2 * radix((digits - 1) as nat)
    }
}

/// A row of `n` pixels packs into a number of `n` binary digits.
proof fn lemma_packed_bound(row: Seq<bool>)
    ensures
        packed(row) < radix(row.len()),
    decreases row.len(),
{
    if row.len() > 0 {
        lemma_packed_bound(row.drop_last());
    }
}

/// Packs up to eight pixels into a byte for the panel, inverted, with the
/// last pixel in the lowest bit.
pub fn draw_row(input: &[bool]) -> (byte: u8)
    requires
        input@.len() <= 8,
    ensures
        byte == packed(input@),
{
    let mut acc: u8 = 0;
    let mut k: usize = 0;
    while k < input.len()
        invariant
            k <= input@.len() <= 8,
            acc == packed(input@.take(k as int)),
        decreases input@.len() - k,
    {
        proof {
            lemma_packed_bound(input@.take(k as int));
            assert(radix(7) == 128) by {
                reveal_with_fuel(radix, 8);
            }
            lemma_radix_grows(k as nat, 7);
            assert(input@.take(k + 1).drop_last() =~= input@.take(k as int));
        }
        let bit: u8 = if input[k] {
            0
        } else {
            1
        };
        acc = 2 * acc + bit;
        k = k + 1;
    }
    assert(input@.take(k as int) =~= input@);
    acc
}

/// Powers of two grow with the exponent.
proof fn lemma_radix_grows(low: nat, high: nat)
    requires
        low <= high,
    ensures
        radix(low) <= radix(high),
    decreases high,
{
    if low < high {
        lemma_radix_grows(low, (high - 1) as nat);
    }
}

/// Whether the pixel at (`row`, `col`) of a frame is set.
pub open spec fn lcd_bit(frame: Seq<u8>, row: int, col: int) -> bool {
    pixel_bit(frame[row * LCD_ROWSIZE + col / 8], (col % 8) as u8)
}

/// Column of the panel at which the picture starts: the picture is centred.
pub open spec fn picture_left(scale: int, width: int) -> int {
    (LCD_COLUMNS - width * scale) / 2
}

/// Row of the panel at which the picture starts: the picture is centred.
pub open spec fn picture_top(scale: int, height: int) -> int {
    (LCD_ROWS - height * scale) / 2
}

/// Whether a picture of `width` by `height` cells, each `scale` pixels wide
/// and high, fits on the panel.
pub open spec fn fits_panel(scale: int, width: int, height: int) -> bool {
    &&& scale > 0
    &&& 0 <= width * scale <= LCD_COLUMNS
    &&& 0 <= height * scale <= LCD_ROWS
}

/// Whether the pixel at (`row`, `col`) of the panel belongs to the picture.
pub open spec fn in_picture(scale: int, width: int, height: int, row: int, col: int) -> bool {
    &&& picture_left(scale, width) <= col < picture_left(scale, width) + width * scale
    &&& picture_top(scale, height) <= row < picture_top(scale, height) + height * scale
}

/// Whether the cell shown at column `x` of row `y` of the picture is lit:
/// the grid is read row by row, `scroll_x` cells on, around its end.
pub open spec fn shown(grid: Seq<bool>, scroll_x: i8, width: int, x: int, y: int) -> bool {
    grid[(y * width + x + scroll_x) % (SCREEN_SIZE as int)]
}

/// The pixel at (`row`, `col`) of the panel once the picture is rendered:
/// within the picture it is set where the cell under it is dark, and
/// elsewhere it is what it was.
pub open spec fn picture_bit(
    frame: Seq<u8>,
    grid: Seq<bool>,
    scroll_x: i8,
    scale: int,
    width: int,
    height: int,
    row: int,
    col: int,
) -> bool {
    if in_picture(scale, width, height, row, col) {
        !shown(
            grid,
            scroll_x,
            width,
            (col - picture_left(scale, width)) / scale,
            (row - picture_top(scale, height)) / scale,
        )
    } else {
        lcd_bit(frame, row, col)
    }
}

/// Setting one pixel of a byte leaves the others.
proof fn lemma_set_pixel(byte: u8, k: u8, j: u8)
    requires
        k < 8,
        j < 8,
    ensures
        pixel_bit(byte | (0x80u8 >> k), j) == (j == k || pixel_bit(byte, j)),
        pixel_bit(byte & !(0x80u8 >> k), j) == (j != k && pixel_bit(byte, j)),
{
    assert((byte | (0x80u8 >> k)) & (0x80u8 >> j) != 0 <==> (j == k || byte & (0x80u8 >> j) != 0))
        by (bit_vector)
        requires
            k < 8,
            j < 8,
    ;
    assert((byte & !(0x80u8 >> k)) & (0x80u8 >> j) != 0 <==> (j != k && byte & (0x80u8 >> j) != 0))
        by (bit_vector)
        requires
            k < 8,
            j < 8,
    ;
}

/// Sets or clears the pixel at (`row`, `col`) of a frame.
fn put_pixel(frame: &mut [u8], row: usize, col: usize, set: bool)
    requires
        old(frame)@.len() >= LCD_ROWSIZE * LCD_ROWS,
        row < LCD_ROWS,
        col < 8 * LCD_ROWSIZE,
    ensures
        final(frame)@.len() == old(frame)@.len(),
        forall|r: int, c: int|
            0 <= r < LCD_ROWS && 0 <= c < 8 * LCD_ROWSIZE ==> #[trigger] lcd_bit(
                final(frame)@,
                r,
                c,
            ) == if r == row && c == col {
                set
            } else {
                lcd_bit(old(frame)@, r, c)
            },
        forall|k: int|
            LCD_ROWSIZE * LCD_ROWS <= k < old(frame)@.len() ==> final(frame)@[k] == old(frame)@[k],
{
    let byte_index: usize = row * LCD_ROWSIZE + col / 8;
    let bit: u8 = (col % 8) as u8;
    let before: u8 = frame[byte_index];
    let after: u8 = if set {
        before | (0x80u8 >> bit)
    } else {
        before & !(0x80u8 >> bit)
    };
    frame[byte_index] = after;
    assert forall|r: int, c: int| 0 <= r < LCD_ROWS && 0 <= c < 8 * LCD_ROWSIZE implies #[trigger]
        lcd_bit(frame@, r, c) == if r == row && c == col {
        set
    } else {
        lcd_bit(old(frame)@, r, c)
    } by {
        lemma_set_pixel(before, bit, (c % 8) as u8);
    }
}

/// Whether pixel (`row`, `col`) of the panel comes before pixel (`at_row`,
/// `at_col`) when the panel is walked row by row.
pub open spec fn walked(row: int, col: int, at_row: int, at_col: int) -> bool {
    row < at_row || (row == at_row && col < at_col)
}

/// The cell of the grid shown at column `x` of row `y` of the picture.
fn shown_cell(grid: &[bool; SCREEN_SIZE], scroll_x: i8, width: usize, x: usize, y: usize) -> (lit:
    bool)
    requires
        x < width <= LCD_COLUMNS,
        y < LCD_ROWS,
    ensures
        lit == shown(grid@, scroll_x, width as int, x as int, y as int),
{
    assert(y * width <= LCD_ROWS * LCD_COLUMNS) by (nonlinear_arith)
        requires
            y < LCD_ROWS,
            width <= LCD_COLUMNS,
    ;
    let straight: usize = y * width + x;
    let offset: usize = if scroll_x >= 0 {
        scroll_x as usize
    } else {
        (SCREEN_SIZE as i16 + scroll_x as i16) as usize
    };
    let cell: usize = (straight + offset) % SCREEN_SIZE;
    assert(cell == (straight + scroll_x) % (SCREEN_SIZE as int)) by {
        if scroll_x < 0 {
            vstd::arithmetic::div_mod::lemma_mod_add_multiples_vanish(
                straight + scroll_x,
                SCREEN_SIZE as int,
            );
        }
    }
    grid[cell]
}

/// Renders the grid onto a frame of the panel: a centred picture of `width`
/// by `height` cells, each a square of `scale` by `scale` pixels, white
/// where the cell is dark. The rest of the frame is left as it is.
pub fn render(
    frame: &mut [u8],
    grid: &[bool; SCREEN_SIZE],
    scroll_x: i8,
    scale: usize,
    width: usize,
    height: usize,
)
    requires
        old(frame)@.len() >= LCD_ROWSIZE * LCD_ROWS,
        fits_panel(scale as int, width as int, height as int),
    ensures
        final(frame)@.len() == old(frame)@.len(),
        forall|row: int, col: int|
            0 <= row < LCD_ROWS && 0 <= col < 8 * LCD_ROWSIZE ==> #[trigger] lcd_bit(
                final(frame)@,
                row,
                col,
            ) == picture_bit(
                old(frame)@,
                grid@,
                scroll_x,
                scale as int,
                width as int,
                height as int,
                row,
                col,
            ),
        forall|k: int|
            LCD_ROWSIZE * LCD_ROWS <= k < old(frame)@.len() ==> final(frame)@[k] == old(frame)@[k],
{
    let picture_width: usize = width * scale;
    let picture_height: usize = height * scale;
    let padding_x: usize = (LCD_COLUMNS - picture_width) / 2;
    let padding_y: usize = (LCD_ROWS - picture_height) / 2;
    assert(width <= picture_width && height <= picture_height) by (nonlinear_arith)
        requires
            scale > 0,
            picture_width == width * scale,
            picture_height == height * scale,
    ;
    let mut row: usize = padding_y;
    while row < padding_y + picture_height
        invariant
            frame@.len() == old(frame)@.len(),
            frame@.len() >= LCD_ROWSIZE * LCD_ROWS,
            scale > 0,
            picture_width == width * scale,
            picture_height == height * scale,
            width <= picture_width <= LCD_COLUMNS,
            height <= picture_height <= LCD_ROWS,
            padding_x == picture_left(scale as int, width as int),
            padding_y == picture_top(scale as int, height as int),
            padding_y <= row <= padding_y + picture_height,
            forall|r: int, c: int|
                0 <= r < LCD_ROWS && 0 <= c < 8 * LCD_ROWSIZE ==> #[trigger] lcd_bit(frame@, r, c)
                    == if walked(r, c, row as int, 0) {
                    picture_bit(
                        old(frame)@,
                        grid@,
                        scroll_x,
                        scale as int,
                        width as int,
                        height as int,
                        r,
                        c,
                    )
                } else {
                    lcd_bit(old(frame)@, r, c)
                },
            forall|k: int|
                LCD_ROWSIZE * LCD_ROWS <= k < old(frame)@.len() ==> frame@[k] == old(frame)@[k],
        decreases padding_y + picture_height - row,
    {
        let y: usize = (row - padding_y) / scale;
        proof {
            assert(scale * height == height * scale) by (nonlinear_arith);
            vstd::arithmetic::div_mod::lemma_multiply_divide_lt(
                row - padding_y,
                scale as int,
                height as int,
            );
        }
        let mut col: usize = padding_x;
        while col < padding_x + picture_width
            invariant
                frame@.len() == old(frame)@.len(),
                frame@.len() >= LCD_ROWSIZE * LCD_ROWS,
                scale > 0,
                picture_width == width * scale,
                picture_height == height * scale,
                width <= picture_width <= LCD_COLUMNS,
                height <= picture_height <= LCD_ROWS,
                padding_x == picture_left(scale as int, width as int),
                padding_y == picture_top(scale as int, height as int),
                padding_y <= row < padding_y + picture_height,
                padding_x <= col <= padding_x + picture_width,
                y == (row - padding_y) / (scale as int),
                y < height,
                forall|r: int, c: int|
                    0 <= r < LCD_ROWS && 0 <= c < 8 * LCD_ROWSIZE ==> #[trigger] lcd_bit(
                        frame@,
                        r,
                        c,
                    ) == if walked(r, c, row as int, 0) || (r == row && padding_x <= c < col) {
                        picture_bit(
                            old(frame)@,
                            grid@,
                            scroll_x,
                            scale as int,
                            width as int,
                            height as int,
                            r,
                            c,
                        )
                    } else {
                        lcd_bit(old(frame)@, r, c)
                    },
                forall|k: int|
                    LCD_ROWSIZE * LCD_ROWS <= k < old(frame)@.len() ==> frame@[k] == old(
                        frame,
                    )@[k],
            decreases padding_x + picture_width - col,
        {
            let x: usize = (col - padding_x) / scale;
            proof {
                assert(scale * width == width * scale) by (nonlinear_arith);
                vstd::arithmetic::div_mod::lemma_multiply_divide_lt(
                    col - padding_x,
                    scale as int,
                    width as int,
                );
            }
            let lit: bool = shown_cell(grid, scroll_x, width, x, y);
            put_pixel(frame, row, col, !lit);
            col = col + 1;
        }
        row = row + 1;
    }
}

/// Presents the machine on the panel if it owes a redraw: renders its grid
/// onto the frame and takes the frame from the machine, which clears the
/// redraw flag and the dirty range. Tells whether it drew. When nothing is
/// owed, nothing changes.
pub fn draw(frame: &mut [u8], cpu: &mut Chip8, scale: usize, width: usize, height: usize) -> (drawn:
    bool)
    requires
        old(frame)@.len() >= LCD_ROWSIZE * LCD_ROWS,
        fits_panel(scale as int, width as int, height as int),
    ensures
        drawn == old(cpu)@.should_draw,
        final(cpu)@ == old(cpu)@.draw().1,
        final(cpu)@.wf(),
        final(frame)@.len() == old(frame)@.len(),
        !drawn ==> final(frame)@ == old(frame)@,
        drawn ==> forall|row: int, col: int|
            0 <= row < LCD_ROWS && 0 <= col < 8 * LCD_ROWSIZE ==> #[trigger] lcd_bit(
                final(frame)@,
                row,
                col,
            ) == picture_bit(
                old(frame)@,
                old(cpu)@.gfx,
                old(cpu)@.scroll_x,
                scale as int,
                width as int,
                height as int,
                row,
                col,
            ),
        forall|k: int|
            LCD_ROWSIZE * LCD_ROWS <= k < old(frame)@.len() ==> final(frame)@[k] == old(frame)@[k],
{
    let scroll_x: i8 = cpu.scroll_x();
    match cpu.draw() {
        Some(grid) => {
            render(frame, &grid, scroll_x, scale, width, height);
            true
        },
        None => false,
    }
}

/// Presents the machine on the panel at the scale that goes with its
/// resolution, if it owes a redraw; see `draw`.
pub fn present(frame: &mut [u8], cpu: &mut Chip8) -> (drawn: bool)
    requires
        old(frame)@.len() >= LCD_ROWSIZE * LCD_ROWS,
    ensures
        drawn == old(cpu)@.should_draw,
        final(cpu)@ == old(cpu)@.draw().1,
        final(cpu)@.wf(),
        final(frame)@.len() == old(frame)@.len(),
        !drawn ==> final(frame)@ == old(frame)@,
        drawn ==> forall|row: int, col: int|
            0 <= row < LCD_ROWS && 0 <= col < 8 * LCD_ROWSIZE ==> #[trigger] lcd_bit(
                final(frame)@,
                row,
                col,
            ) == picture_bit(
                old(frame)@,
                old(cpu)@.gfx,
                old(cpu)@.scroll_x,
                panel_scale(old(cpu)@.hi_res),
                old(cpu)@.width(),
                old(cpu)@.height(),
                row,
                col,
            ),
        forall|k: int|
            LCD_ROWSIZE * LCD_ROWS <= k < old(frame)@.len() ==> final(frame)@[k] == old(frame)@[k],
{
    let scale: usize = if cpu.is_hi_res() {
        SCALE_HIGH
    } else {
        SCALE_LOW
    };
    let width: usize = cpu.width();
    let height: usize = cpu.height();
    draw(frame, cpu, scale, width, height)
}

} // verus!
