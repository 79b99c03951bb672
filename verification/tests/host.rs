use pachip8risu::draw;
use pachip8risu::draw_row;
use pachip8risu::frame::LCD_COLUMNS;
use pachip8risu::frame::LCD_ROWS;
use pachip8risu::frame::LCD_ROWSIZE;
use pachip8risu::handle_inputs;
use pachip8risu::present;
use pachip8risu::render;
use pachip8risu::Buttons;
use pachip8risu::Chip8;
use pachip8risu::SCREEN_SIZE;

const NONE: Buttons = Buttons {
    up: false,
    right: false,
    down: false,
    left: false,
    a: false,
    b: false,
};

/// Whether the pixel at (`row`, `col`) of a frame is set.
fn lcd_bit(frame: &[u8], row: usize, col: usize) -> bool {
    frame[row * LCD_ROWSIZE + col / 8] & (0x80 >> (col % 8)) != 0
}

#[test]
fn draw_row_packs_inverted_pixels() {
    assert_eq!(draw_row(&[]), 0);
    assert_eq!(draw_row(&[true]), 0);
    assert_eq!(draw_row(&[false]), 1);
    assert_eq!(draw_row(&[true, false, false, true]), 0b0110);
    assert_eq!(draw_row(&[false; 8]), 0xFF);
    assert_eq!(draw_row(&[true; 8]), 0x00);
    assert_eq!(
        draw_row(&[false, true, true, true, true, true, true, true]),
        0b1000_0000
    );
    assert_eq!(
        draw_row(&[true, true, true, true, true, true, true, false]),
        0b0000_0001
    );
}

#[test]
fn pad_buttons_drive_their_keys() {
    let mut cpu = Chip8::new();
    cpu.set_key(1, true);
    handle_inputs(
        &mut cpu,
        Buttons { up: true, a: true, ..NONE },
        Buttons { ..NONE },
    );
    let mut expected = [false; 16];
    expected[1] = true;
    expected[5] = true;
    expected[6] = true;
    assert_eq!(*cpu.keys(), expected);
    handle_inputs(
        &mut cpu,
        Buttons { right: true, down: true, left: true, b: true, ..NONE },
        Buttons { up: true, ..NONE },
    );
    expected[5] = false;
    expected[9] = true;
    expected[8] = true;
    expected[7] = true;
    expected[10] = true;
    assert_eq!(*cpu.keys(), expected);
    // Pushed and released within one poll ends up released.
    handle_inputs(
        &mut cpu,
        Buttons { up: true, ..NONE },
        Buttons { up: true, a: true, ..NONE },
    );
    expected[6] = false;
    assert_eq!(*cpu.keys(), expected);
    handle_inputs(&mut cpu, NONE, NONE);
    assert_eq!(*cpu.keys(), expected);
}

#[test]
fn render_scales_and_centres_the_picture() {
    let mut frame = vec![0u8; LCD_ROWSIZE * LCD_ROWS];
    let mut grid = [false; SCREEN_SIZE];
    grid[0] = true;
    grid[63 + 31 * 64] = true;
    render(&mut frame, &grid, 0, 6, 64, 32);
    for row in 0..LCD_ROWS {
        for col in 0..8 * LCD_ROWSIZE {
            let inside = (8..392).contains(&col) && (24..216).contains(&row);
            let expected = if inside {
                let (x, y) = ((col - 8) / 6, (row - 24) / 6);
                !grid[y * 64 + x]
            } else {
                false
            };
            assert_eq!(lcd_bit(&frame, row, col), expected, "row {row}, column {col}");
        }
    }
    assert_eq!(frame[24 * LCD_ROWSIZE], 0x00);
    assert_eq!(frame[24 * LCD_ROWSIZE + 1], 0x03);
    assert_eq!(frame[24 * LCD_ROWSIZE + 2], 0xFF);
    assert_eq!(frame[215 * LCD_ROWSIZE + 48], 0xC0);
    assert_eq!(frame[215 * LCD_ROWSIZE + 49], 0x00);
    assert_eq!(LCD_COLUMNS, 400);
}

#[test]
fn render_leaves_the_margin_as_it_was() {
    let mut frame = vec![0xA5u8; LCD_ROWSIZE * LCD_ROWS + 3];
    let grid = [true; SCREEN_SIZE];
    render(&mut frame, &grid, 0, 3, 128, 64);
    for row in 0..LCD_ROWS {
        for col in 0..8 * LCD_ROWSIZE {
            let inside = (8..392).contains(&col) && (24..216).contains(&row);
            let before = 0xA5u8 & (0x80 >> (col % 8)) != 0;
            assert_eq!(lcd_bit(&frame, row, col), !inside && before);
        }
    }
    assert_eq!(frame[LCD_ROWSIZE * LCD_ROWS..], [0xA5, 0xA5, 0xA5]);
}

#[test]
fn render_reads_the_grid_from_the_scroll_offset() {
    let mut grid = [false; SCREEN_SIZE];
    grid[4] = true;
    grid[SCREEN_SIZE - 4] = true;
    let mut right = vec![0u8; LCD_ROWSIZE * LCD_ROWS];
    render(&mut right, &grid, 4, 6, 64, 32);
    // The cell four places on from the first cell is lit.
    assert!(!lcd_bit(&right, 24, 8));
    assert!(lcd_bit(&right, 24, 8 + 6));
    let mut left = vec![0u8; LCD_ROWSIZE * LCD_ROWS];
    render(&mut left, &grid, -4, 6, 64, 32);
    // Four places back from the first cell lies the end of the grid.
    assert!(!lcd_bit(&left, 24, 8));
    assert!(lcd_bit(&left, 24, 8 + 6));
    // Eight places back from cell 8 of the first row lies cell 4.
    assert!(!lcd_bit(&left, 24, 8 + 8 * 6));
    assert!(lcd_bit(&left, 24, 8 + 7 * 6));
}

#[test]
fn draw_presents_only_when_a_frame_is_owed() {
    let mut cpu = Chip8::new();
    let mut frame = vec![0u8; LCD_ROWSIZE * LCD_ROWS];
    assert!(!draw(&mut frame, &mut cpu, 6, 64, 32));
    assert!(frame.iter().all(|&byte| byte == 0));
    // CLS owes a frame.
    cpu.set_memory(0x200, 0x00);
    cpu.set_memory(0x201, 0xE0);
    assert_eq!(cpu.tick(), Ok(()));
    assert!(draw(&mut frame, &mut cpu, 6, 64, 32));
    assert!(lcd_bit(&frame, 24, 8));
    assert!(!lcd_bit(&frame, 23, 8));
    assert!(!cpu.should_draw());
    assert_eq!((cpu.rows_start(), cpu.rows_end()), (255, 0));
    let snapshot = frame.clone();
    assert!(!draw(&mut frame, &mut cpu, 6, 64, 32));
    assert_eq!(frame, snapshot);
}

#[test]
fn present_picks_the_scale_for_the_resolution() {
    let mut cpu = Chip8::new();
    let mut grid = [false; SCREEN_SIZE];
    grid[1] = true;
    cpu.set_gfx_buffer(grid);
    // SCR owes a frame and moves the picture by four cells.
    cpu.set_memory(0x200, 0x00);
    cpu.set_memory(0x201, 0xFB);
    assert_eq!(cpu.tick(), Ok(()));
    let mut low = vec![0u8; LCD_ROWSIZE * LCD_ROWS];
    assert!(present(&mut low, &mut cpu));
    let mut expected = vec![0u8; LCD_ROWSIZE * LCD_ROWS];
    render(&mut expected, &grid, 4, 6, 64, 32);
    assert_eq!(low, expected);
    assert!(!present(&mut low, &mut cpu));

    // HIGH, then SCL twice owes a frame again.
    for opcode in [0x00FFu16, 0x00FC, 0x00FC] {
        let pc = cpu.pc() as usize;
        cpu.set_memory(pc, (opcode >> 8) as u8);
        cpu.set_memory(pc + 1, (opcode & 0xFF) as u8);
        assert_eq!(cpu.tick(), Ok(()));
    }
    let mut high = vec![0u8; LCD_ROWSIZE * LCD_ROWS];
    assert!(present(&mut high, &mut cpu));
    let mut expected = vec![0u8; LCD_ROWSIZE * LCD_ROWS];
    render(&mut expected, cpu.gfx_buffer(), -4, 3, 128, 64);
    assert_eq!(high, expected);
    // Cell 1 shows five cells on, three pixels to a cell.
    assert!(!lcd_bit(&high, 24, 8 + 5 * 3));
    assert!(lcd_bit(&high, 24, 8 + 4 * 3));
}
