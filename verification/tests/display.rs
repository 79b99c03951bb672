use pachip8risu::Chip8;
use pachip8risu::Chip8Error;
use pachip8risu::SCREEN_SIZE;

/// Writes `opcode` at the program counter and runs one tick.
fn run(cpu: &mut Chip8, opcode: u16) -> Result<(), Chip8Error> {
    let pc = cpu.pc() as usize;
    cpu.set_memory(pc, (opcode >> 8) as u8);
    cpu.set_memory(pc + 1, (opcode & 0xFF) as u8);
    cpu.tick()
}

/// The cells that are lit, as (column, row) pairs at the given width.
fn lit_cells(cpu: &Chip8, width: usize) -> Vec<(usize, usize)> {
    let mut cells = Vec::new();
    for (cell, &on) in cpu.gfx_buffer().iter().enumerate() {
        if on {
            cells.push((cell % width, cell / width));
        }
    }
    cells
}

/// Writes the bytes of a sprite at `address` and points I at it.
fn place_sprite(cpu: &mut Chip8, address: u16, bytes: &[u8]) {
    for (k, &byte) in bytes.iter().enumerate() {
        cpu.set_memory(address as usize + k, byte);
    }
    cpu.set_i(address);
}

#[test]
fn glyph_zero_draws_its_shape() {
    let mut cpu = Chip8::new();
    place_sprite(&mut cpu, 0, &[0xF0, 0x90, 0x90, 0x90, 0xF0]);
    cpu.set_v(0xF, 1);
    assert_eq!(run(&mut cpu, 0xD015), Ok(()));
    let expected = vec![
        (0, 0), (1, 0), (2, 0), (3, 0),
        (0, 1), (3, 1),
        (0, 2), (3, 2),
        (0, 3), (3, 3),
        (0, 4), (1, 4), (2, 4), (3, 4),
    ];
    assert_eq!(lit_cells(&cpu, 64), expected);
    // The glyph fills a box of five rows by four columns.
    assert!(expected.iter().all(|&(x, y)| x < 4 && y < 5));
    assert_eq!(cpu.v()[0xF], 0);
    assert!(cpu.should_draw());
    assert_eq!((cpu.rows_start(), cpu.rows_end()), (0, 4));
    assert_eq!(cpu.pc(), 0x202);
    assert_eq!(cpu.i(), 0);
}

#[test]
fn glyph_comes_from_the_loaded_font() {
    let mut cpu = Chip8::new();
    assert_eq!(cpu.load_rom(&[0xF0, 0x29, 0xD1, 0x25], None), Ok(()));
    assert_eq!(cpu.tick(), Ok(()));
    assert_eq!(cpu.tick(), Ok(()));
    assert_eq!(lit_cells(&cpu, 64).len(), 14);
    assert_eq!(cpu.v()[0xF], 0);
}

#[test]
fn drawing_twice_restores_the_display() {
    let mut cpu = Chip8::new();
    place_sprite(&mut cpu, 0x300, &[0x3C, 0x42, 0x81, 0x42, 0x3C]);
    // Something on the display already, partly under the sprite.
    let mut grid = [false; SCREEN_SIZE];
    grid[10 + 7 * 64] = true;
    grid[12 + 7 * 64] = true;
    grid[40 + 20 * 64] = true;
    cpu.set_gfx_buffer(grid);
    cpu.set_v(1, 8);
    cpu.set_v(2, 7);
    assert_eq!(run(&mut cpu, 0xD125), Ok(()));
    assert_ne!(*cpu.gfx_buffer(), grid);
    assert_eq!(cpu.v()[0xF], 1);
    assert_eq!(run(&mut cpu, 0xD125), Ok(()));
    assert_eq!(*cpu.gfx_buffer(), grid);
    assert_eq!(cpu.v()[0xF], 1);
}

#[test]
fn drawing_on_a_blank_display_then_again_collides() {
    let mut cpu = Chip8::new();
    place_sprite(&mut cpu, 0x300, &[0x80]);
    assert_eq!(run(&mut cpu, 0xD011), Ok(()));
    assert_eq!(cpu.v()[0xF], 0);
    assert_eq!(lit_cells(&cpu, 64), vec![(0, 0)]);
    assert_eq!(run(&mut cpu, 0xD011), Ok(()));
    assert_eq!(cpu.v()[0xF], 1);
    assert_eq!(lit_cells(&cpu, 64), vec![]);
}

#[test]
fn erasing_lit_cells_then_drawing_again_does_not_collide() {
    let mut cpu = Chip8::new();
    place_sprite(&mut cpu, 0x300, &[0xC0]);
    let mut grid = [false; SCREEN_SIZE];
    grid[0] = true;
    grid[1] = true;
    cpu.set_gfx_buffer(grid);
    assert_eq!(run(&mut cpu, 0xD011), Ok(()));
    assert_eq!(cpu.v()[0xF], 1);
    assert_eq!(run(&mut cpu, 0xD011), Ok(()));
    assert_eq!(cpu.v()[0xF], 0);
    assert_eq!(*cpu.gfx_buffer(), grid);
}

#[test]
fn sprites_wrap_around_the_screen() {
    let mut cpu = Chip8::new();
    place_sprite(&mut cpu, 0x300, &[0xFF, 0x81]);
    cpu.set_v(0, 62);
    cpu.set_v(1, 31);
    assert_eq!(run(&mut cpu, 0xD012), Ok(()));
    let expected = vec![
        (5, 0), (62, 0),
        (0, 31), (1, 31), (2, 31), (3, 31), (4, 31), (5, 31), (62, 31), (63, 31),
    ];
    assert_eq!(lit_cells(&cpu, 64), expected);
    assert_eq!((cpu.rows_start(), cpu.rows_end()), (0, 31));
}

#[test]
fn coordinates_are_taken_modulo_the_screen() {
    let mut cpu = Chip8::new();
    place_sprite(&mut cpu, 0x300, &[0x80]);
    cpu.set_v(0, 64 + 3);
    cpu.set_v(1, 32 * 7 + 2);
    assert_eq!(run(&mut cpu, 0xD011), Ok(()));
    assert_eq!(lit_cells(&cpu, 64), vec![(3, 2)]);
}

#[test]
fn count_zero_is_sixteen_rows_at_low_resolution() {
    let mut cpu = Chip8::new();
    place_sprite(&mut cpu, 0x300, &[0x01; 16]);
    assert_eq!(run(&mut cpu, 0xD000), Ok(()));
    let expected: Vec<(usize, usize)> = (0..16).map(|row| (7, row)).collect();
    assert_eq!(lit_cells(&cpu, 64), expected);
    assert_eq!((cpu.rows_start(), cpu.rows_end()), (0, 15));
}

#[test]
fn count_zero_is_a_big_sprite_at_high_resolution() {
    let mut cpu = Chip8::new();
    assert_eq!(run(&mut cpu, 0x00FF), Ok(()));
    assert!(cpu.is_hi_res());
    assert_eq!((cpu.width(), cpu.height()), (128, 64));
    let mut bytes = [0u8; 32];
    bytes[0] = 0x80;
    bytes[1] = 0x01;
    bytes[30] = 0x01;
    bytes[31] = 0x80;
    place_sprite(&mut cpu, 0x300, &bytes);
    cpu.set_v(0, 120);
    cpu.set_v(1, 60);
    assert_eq!(run(&mut cpu, 0xD010), Ok(()));
    let expected = vec![(127, 11), (0, 11), (120, 60), (7, 60)];
    let mut lit = lit_cells(&cpu, 128);
    lit.sort();
    let mut sorted = expected.clone();
    sorted.sort();
    assert_eq!(lit, sorted);
    assert_eq!((cpu.rows_start(), cpu.rows_end()), (0, 60));
}

#[test]
fn eight_wide_sprites_at_high_resolution() {
    let mut cpu = Chip8::new();
    assert_eq!(run(&mut cpu, 0x00FF), Ok(()));
    place_sprite(&mut cpu, 0x300, &[0xFF, 0xFF]);
    cpu.set_v(0, 100);
    cpu.set_v(1, 40);
    assert_eq!(run(&mut cpu, 0xD012), Ok(()));
    let lit = lit_cells(&cpu, 128);
    assert_eq!(lit.len(), 16);
    assert!(lit.iter().all(|&(x, y)| (100..108).contains(&x) && (40..42).contains(&y)));
}

#[test]
fn low_resolution_leaves_the_rest_of_the_grid_alone() {
    let mut cpu = Chip8::new();
    let mut grid = [false; SCREEN_SIZE];
    grid[2048] = true;
    grid[8191] = true;
    cpu.set_gfx_buffer(grid);
    place_sprite(&mut cpu, 0x300, &[0xFF; 15]);
    cpu.set_v(0, 60);
    cpu.set_v(1, 25);
    assert_eq!(run(&mut cpu, 0xD01F), Ok(()));
    assert!(cpu.gfx_buffer()[2048]);
    assert!(cpu.gfx_buffer()[8191]);
    assert_eq!(cpu.gfx_buffer()[2049..8191].iter().filter(|&&on| on).count(), 0);
    assert_eq!(cpu.gfx_buffer()[..2048].iter().filter(|&&on| on).count(), 120);
    assert_eq!(cpu.v()[0xF], 0);
}

#[test]
fn dirty_range_grows_to_the_rows_touched() {
    let mut cpu = Chip8::new();
    cpu.reset_rows();
    assert_eq!((cpu.rows_start(), cpu.rows_end()), (255, 0));
    place_sprite(&mut cpu, 0x300, &[0x00, 0x18, 0x00, 0x18, 0x00]);
    cpu.set_v(1, 10);
    assert_eq!(run(&mut cpu, 0xD015), Ok(()));
    assert_eq!((cpu.rows_start(), cpu.rows_end()), (11, 13));
    // A second sprite further down only moves the end.
    cpu.set_v(1, 20);
    assert_eq!(run(&mut cpu, 0xD012), Ok(()));
    assert_eq!((cpu.rows_start(), cpu.rows_end()), (11, 21));
}

#[test]
fn empty_sprite_changes_nothing_but_vf_and_pc() {
    let mut cpu = Chip8::new();
    cpu.reset_rows();
    cpu.set_v(0xF, 1);
    place_sprite(&mut cpu, 0x300, &[0, 0, 0]);
    assert_eq!(run(&mut cpu, 0xD013), Ok(()));
    assert!(!cpu.should_draw());
    assert_eq!((cpu.rows_start(), cpu.rows_end()), (255, 0));
    assert_eq!(cpu.v()[0xF], 0);
    assert_eq!(cpu.pc(), 0x202);
    assert!(lit_cells(&cpu, 64).is_empty());
}

#[test]
fn vf_as_coordinate_is_read_before_it_is_cleared() {
    let mut cpu = Chip8::new();
    place_sprite(&mut cpu, 0x300, &[0x80]);
    cpu.set_v(0xF, 9);
    assert_eq!(run(&mut cpu, 0xDFF1), Ok(()));
    assert_eq!(lit_cells(&cpu, 64), vec![(9, 9)]);
    assert_eq!(cpu.v()[0xF], 0);
}

#[test]
fn sprite_past_the_end_of_memory_is_refused() {
    let mut cpu = Chip8::new();
    cpu.set_i(0xFFFC);
    cpu.set_memory(0xFFFC, 0xFF);
    cpu.set_v(0xF, 7);
    assert_eq!(run(&mut cpu, 0xD005), Err(Chip8Error::OutOfBoundsAccess(0xFFFC)));
    assert!(lit_cells(&cpu, 64).is_empty());
    assert_eq!(cpu.v()[0xF], 7);
    assert_eq!(cpu.pc(), 0x200);
    assert!(!cpu.should_draw());
    // Four rows still fit.
    assert_eq!(run(&mut cpu, 0xD004), Ok(()));
    assert_eq!(lit_cells(&cpu, 64).len(), 8);
}

#[test]
fn cls_blanks_the_display_and_marks_every_row() {
    let mut cpu = Chip8::new();
    cpu.set_gfx_buffer([true; SCREEN_SIZE]);
    cpu.reset_rows();
    assert_eq!(run(&mut cpu, 0x00E0), Ok(()));
    assert_eq!(*cpu.gfx_buffer(), [false; SCREEN_SIZE]);
    assert_eq!((cpu.rows_start(), cpu.rows_end()), (0, 255));
    assert!(cpu.should_draw());
    assert_eq!(cpu.pc(), 0x202);
}

#[test]
fn take_frame_hands_the_grid_out_once() {
    let mut cpu = Chip8::new();
    assert_eq!(cpu.draw(), None);
    place_sprite(&mut cpu, 0x300, &[0xA0]);
    assert_eq!(run(&mut cpu, 0xD011), Ok(()));
    let frame = cpu.draw().expect("a frame is owed");
    assert!(frame[0] && !frame[1] && frame[2]);
    assert_eq!(frame.iter().filter(|&&on| on).count(), 2);
    assert!(!cpu.should_draw());
    assert_eq!((cpu.rows_start(), cpu.rows_end()), (255, 0));
    assert_eq!(cpu.draw(), None);
    assert_eq!((cpu.rows_start(), cpu.rows_end()), (255, 0));
}

#[test]
fn full_and_empty_dirty_ranges() {
    let mut cpu = Chip8::new();
    cpu.full_screen_rows();
    assert_eq!((cpu.rows_start(), cpu.rows_end()), (0, 255));
    cpu.reset_rows();
    assert_eq!((cpu.rows_start(), cpu.rows_end()), (255, 0));
    assert!(!cpu.should_draw());
}

#[test]
fn scroll_down_moves_rows_down() {
    let mut cpu = Chip8::new();
    let mut grid = [false; SCREEN_SIZE];
    grid[3] = true;
    grid[5 + 31 * 64] = true;
    cpu.set_gfx_buffer(grid);
    cpu.reset_rows();
    assert_eq!(run(&mut cpu, 0x00C2), Ok(()));
    // Row 0 is now row 2; row 31 has left the screen for the rest of the
    // grid, and the rows that came in at the top are dark.
    assert_eq!(lit_cells(&cpu, 64), vec![(3, 2), (5, 33)]);
    assert_eq!((cpu.rows_start(), cpu.rows_end()), (0, 255));
    assert!(cpu.should_draw());
    assert_eq!(cpu.pc(), 0x202);
}

#[test]
fn scroll_up_moves_rows_up() {
    let mut cpu = Chip8::new();
    let mut grid = [false; SCREEN_SIZE];
    grid[3 + 2 * 64] = true;
    grid[5 + 31 * 64] = true;
    cpu.set_gfx_buffer(grid);
    assert_eq!(run(&mut cpu, 0x00D2), Ok(()));
    assert_eq!(lit_cells(&cpu, 64), vec![(3, 0), (5, 29)]);
    assert!(cpu.should_draw());
    assert_eq!((cpu.rows_start(), cpu.rows_end()), (0, 255));
}

#[test]
fn scrolling_turns_the_whole_grid() {
    let mut cpu = Chip8::new();
    let mut grid = [false; SCREEN_SIZE];
    grid[7] = true;
    grid[SCREEN_SIZE - 1] = true;
    cpu.set_gfx_buffer(grid);
    // Up by one row: the first row goes to the end of the grid.
    assert_eq!(run(&mut cpu, 0x00D1), Ok(()));
    assert_eq!(lit_cells(&cpu, 64), vec![(63, 126), (7, 127)]);
    // Down by three rows: the end of the grid comes back at the start.
    assert_eq!(run(&mut cpu, 0x00C3), Ok(()));
    assert_eq!(lit_cells(&cpu, 64), vec![(63, 1), (7, 2)]);
}

#[test]
fn scroll_down_then_up_restores_the_grid() {
    let mut cpu = Chip8::new();
    let mut grid = [false; SCREEN_SIZE];
    for cell in (0..SCREEN_SIZE).step_by(37) {
        grid[cell] = true;
    }
    cpu.set_gfx_buffer(grid);
    assert_eq!(run(&mut cpu, 0x00CF), Ok(()));
    assert_ne!(*cpu.gfx_buffer(), grid);
    assert_eq!(run(&mut cpu, 0x00DF), Ok(()));
    assert_eq!(*cpu.gfx_buffer(), grid);
}

#[test]
fn scroll_by_zero_rows_keeps_the_grid() {
    let mut cpu = Chip8::new();
    let mut grid = [false; SCREEN_SIZE];
    grid[77] = true;
    cpu.set_gfx_buffer(grid);
    assert_eq!(run(&mut cpu, 0x00C0), Ok(()));
    assert_eq!(run(&mut cpu, 0x00D0), Ok(()));
    assert_eq!(*cpu.gfx_buffer(), grid);
    assert_eq!(cpu.pc(), 0x204);
}

#[test]
fn scroll_at_high_resolution_uses_the_wide_rows() {
    let mut cpu = Chip8::new();
    assert_eq!(run(&mut cpu, 0x00FF), Ok(()));
    let mut grid = [false; SCREEN_SIZE];
    grid[100] = true;
    grid[100 + 63 * 128] = true;
    cpu.set_gfx_buffer(grid);
    // The grid is the screen: the last row comes back as the first.
    assert_eq!(run(&mut cpu, 0x00C1), Ok(()));
    assert_eq!(lit_cells(&cpu, 128), vec![(100, 0), (100, 1)]);
    assert_eq!(run(&mut cpu, 0x00DF), Ok(()));
    assert_eq!(lit_cells(&cpu, 128), vec![(100, 49), (100, 50)]);
}

#[test]
fn horizontal_scroll_moves_the_offset_by_four() {
    let mut cpu = Chip8::new();
    cpu.reset_rows();
    assert_eq!(run(&mut cpu, 0x00FB), Ok(()));
    assert_eq!(cpu.scroll_x(), 4);
    assert_eq!((cpu.rows_start(), cpu.rows_end()), (0, 255));
    assert!(cpu.should_draw());
    assert_eq!(run(&mut cpu, 0x00FC), Ok(()));
    assert_eq!(run(&mut cpu, 0x00FC), Ok(()));
    assert_eq!(cpu.scroll_x(), -4);
    assert_eq!(cpu.pc(), 0x206);
}

#[test]
fn horizontal_scroll_wraps_within_a_signed_byte() {
    let mut cpu = Chip8::new();
    for _ in 0..31 {
        assert_eq!(run(&mut cpu, 0x00FB), Ok(()));
    }
    assert_eq!(cpu.scroll_x(), 124);
    assert_eq!(run(&mut cpu, 0x00FB), Ok(()));
    assert_eq!(cpu.scroll_x(), -128);
    assert_eq!(run(&mut cpu, 0x00FC), Ok(()));
    assert_eq!(cpu.scroll_x(), 124);
}

#[test]
fn resolution_switches() {
    let mut cpu = Chip8::new();
    assert_eq!((cpu.width(), cpu.height()), (64, 32));
    assert_eq!(run(&mut cpu, 0x00FF), Ok(()));
    assert!(cpu.is_hi_res());
    assert_eq!((cpu.width(), cpu.height()), (128, 64));
    assert_eq!(run(&mut cpu, 0x00FE), Ok(()));
    assert!(!cpu.is_hi_res());
    assert_eq!((cpu.width(), cpu.height()), (64, 32));
    assert_eq!(cpu.pc(), 0x204);
}
