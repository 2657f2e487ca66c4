use crust_8::io::graphics::{GraphicsBuffer, BUFFER_SIZE, HEIGHT_PX, WIDTH_PX};

#[test]
fn graphics_test_index_pixel() {
    assert_eq!(None, GraphicsBuffer::index_pixel(32, 63));
    assert_eq!(None, GraphicsBuffer::index_pixel(31, 64));
    assert_eq!(None, GraphicsBuffer::index_pixel(32, 64));

    assert_eq!(0, GraphicsBuffer::index_pixel(0, 0).unwrap());
    assert_eq!(5, GraphicsBuffer::index_pixel(5, 0).unwrap());
    assert_eq!(63, GraphicsBuffer::index_pixel(63, 0).unwrap());
    assert_eq!(64, GraphicsBuffer::index_pixel(0, 1).unwrap());
    assert_eq!(140, GraphicsBuffer::index_pixel(12, 2).unwrap());
    assert_eq!(2047, GraphicsBuffer::index_pixel(63, 31).unwrap());
}

#[test]
fn graphics_test_pixel_operations() {
    let mut graphics = GraphicsBuffer::new();

    // Should be off to start
    assert_eq!(Some(false), graphics.get_pixel(6, 1));
    graphics.buffer[70] = true;

    // Looking up the pixel by coordinate should be true now
    assert_eq!(Some(true), graphics.get_pixel(6, 1));

    // Flipping the pixel should return true because it was flipped off
    assert_eq!(true, graphics.flip_pixel(6, 1));

    // And the underlying pixel should now be false
    assert_eq!(Some(false), graphics.get_pixel(6, 1));

    // Flipping it back on should return false because nothing was turned off
    assert_eq!(false, graphics.flip_pixel(6, 1));
    assert_eq!(true, graphics.flip_pixel(6, 1));

    assert_eq!([false; 2048], graphics.buffer);
}

#[test]
fn graphics_test_headless_graphics() {
    let mut graphics = GraphicsBuffer::new();

    // There should be 2048 boolean cells in the graphics buffer
    assert_eq!([false; 2048], graphics.buffer);

    // Drawing an empty sprite should not affect the buffer or indicate a flip
    let flipped = graphics.draw(0, 0, &[]);
    assert_eq!(false, flipped);
    assert_eq!([false; 2048], graphics.buffer);

    // This sprite forms a checkerboard pattern
    let sprite_positive = [0xAA, 0x55, 0xAA, 0x55];
    let sprite_negative = [0x55, 0xAA, 0x55, 0xAA];

    let pixels_aa = [true, false, true, false, true, false, true, false];
    let pixels_55 = [false, true, false, true, false, true, false, true];
    let pixels_00 = [false; 8];
    let pixels_ff = [true; 8];

    let flipped = graphics.draw(0, 0, &sprite_positive);
    assert_eq!(false, flipped);

    // Check the whole draw area
    assert_eq!(pixels_aa, graphics.buffer[0..8]);
    assert_eq!(pixels_55, graphics.buffer[64..72]);
    assert_eq!(pixels_aa, graphics.buffer[128..136]);
    assert_eq!(pixels_55, graphics.buffer[192..200]);

    // Check a few things outside the draw area
    assert_eq!(pixels_00, graphics.buffer[8..16]);
    assert_eq!(pixels_00, graphics.buffer[200..208]);

    // Draw the checkerboard's inverse
    let flipped = graphics.draw(0, 0, &sprite_negative);
    assert_eq!(false, flipped);
    for y in 0..4 {
        assert_eq!(pixels_ff, graphics.buffer[y * 64..y * 64 + 8])
    }

    // Flip both checkerboards off again, should reset the board
    assert_eq!(true, graphics.draw(0, 0, &sprite_positive));
    assert_eq!(true, graphics.draw(0, 0, &sprite_negative));
    assert_eq!([false; 2048], graphics.buffer);
}

#[test]
fn a_sprite_that_crosses_the_edges_comes_back_on_the_other_side() {
    // An 8x8 all-black sprite
    let sprite = [0xFF; 8];

    let mut graphics = GraphicsBuffer::new();

    let flipped = graphics.draw(WIDTH_PX as u8 - 1, HEIGHT_PX as u8 - 1, &sprite);
    assert_eq!(false, flipped);

    // One column at the right edge and seven at the left, in the bottom row
    // and in the seven rows at the top.
    let mut expected = [false; 2048];
    for y in [31, 0, 1, 2, 3, 4, 5, 6] {
        for x in [63, 0, 1, 2, 3, 4, 5, 6] {
            expected[x + 64 * y] = true;
        }
    }

    assert_eq!(expected, graphics.buffer);
}

#[test]
fn coordinates_beyond_the_screen_wrap_too() {
    let mut wrapped = GraphicsBuffer::new();
    wrapped.draw(64 + 3, 32 * 5 + 2, &[0x80, 0x01]);

    let mut plain = GraphicsBuffer::new();
    plain.draw(3, 2, &[0x80, 0x01]);

    assert_eq!(plain.buffer, wrapped.buffer);
    assert_eq!(Some(true), plain.get_pixel(3, 2));
    assert_eq!(Some(true), plain.get_pixel(10, 3));
    assert_eq!(2, plain.buffer.iter().filter(|pixel| **pixel).count());
}

#[test]
fn the_most_significant_bit_is_the_leftmost_pixel() {
    let mut graphics = GraphicsBuffer::new();
    graphics.draw(8, 4, &[0b1100_0001]);

    assert_eq!(Some(true), graphics.get_pixel(8, 4));
    assert_eq!(Some(true), graphics.get_pixel(9, 4));
    assert_eq!(Some(false), graphics.get_pixel(10, 4));
    assert_eq!(Some(false), graphics.get_pixel(14, 4));
    assert_eq!(Some(true), graphics.get_pixel(15, 4));
    assert_eq!(3, graphics.buffer.iter().filter(|pixel| **pixel).count());
}

#[test]
fn drawing_twice_restores_the_buffer_and_collides() {
    let sprites: [&[u8]; 4] = [
        &[0xF0, 0x90, 0x90, 0x90, 0xF0],
        &[0xFF; 15],
        &[0x01],
        &[0x3C, 0x00, 0xC3],
    ];
    let places = [(0u8, 0u8), (60, 30), (63, 31), (200, 100), (255, 255)];

    for sprite in sprites {
        for (x, y) in places {
            let mut graphics = GraphicsBuffer::new();
            graphics.draw(5, 5, &[0xAA, 0x55, 0xAA]);
            let before = graphics.buffer;

            graphics.draw(x, y, sprite);
            let lit_a_pixel =
                (0..BUFFER_SIZE).any(|index| !before[index] && graphics.buffer[index]);
            assert!(lit_a_pixel);

            // The second draw undoes the first and turns off what the first
            // turned on.
            assert_eq!(true, graphics.draw(x, y, sprite));
            assert_eq!(before, graphics.buffer);
        }
    }
}

#[test]
fn a_sprite_taller_than_the_screen_draws_over_itself() {
    // Row 32 lands on the row that row 0 landed on and turns its pixel off.
    let mut sprite = [0u8; 33];
    sprite[0] = 0x80;
    sprite[32] = 0x80;

    let mut graphics = GraphicsBuffer::new();
    assert_eq!(true, graphics.draw(0, 0, &sprite));
    assert_eq!([false; 2048], graphics.buffer);
}

#[test]
fn clear_turns_every_pixel_off() {
    let mut graphics = GraphicsBuffer::new();
    graphics.draw(10, 10, &[0xFF, 0xFF]);
    graphics.clear();
    assert_eq!([false; 2048], graphics.buffer);
    assert_eq!(64, graphics.width());
    assert_eq!(32, graphics.height());
}

#[test]
fn pixels_off_the_screen_cannot_be_read_or_flipped() {
    let mut graphics = GraphicsBuffer::new();
    assert_eq!(None, graphics.get_pixel(64, 0));
    assert_eq!(None, graphics.get_pixel(0, 32));
    assert_eq!(false, graphics.flip_pixel(64, 0));
    assert_eq!(false, graphics.flip_pixel(0, 32));
    assert_eq!([false; 2048], graphics.buffer);
}
