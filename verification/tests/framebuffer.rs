use quad_epd::buffer_len;
use quad_epd::color::BitOrder;
use quad_epd::color::QuadColor;
use quad_epd::graphics::Display;
use quad_epd::yrd0750ryf665f60::display_7in5;

/// Reads pixel `(x, y)` back out of the raw buffer, mirroring the packing:
/// `x * 2 / 8` bytes into row `y`, at the shift the bit order dictates.
fn read_pixel(display: &Display, order: BitOrder, x: u32, y: u32) -> QuadColor {
    let width = display.width() as usize;
    let line = (width * 2 + 7) / 8;
    let idx = (x as usize) * 2 / 8 + (y as usize) * line;
    let shift = match order {
        BitOrder::LsbFirst => (x % 4) * 2,
        BitOrder::MsbFirst => 6 - (x % 4) * 2,
    };
    QuadColor::from_bits((display.buffer()[idx] >> shift) & 0b11)
}

#[test]
fn out_of_range_writes_change_nothing() {
    let mut display = Display::new(8, 4, BitOrder::MsbFirst);
    let before = display.buffer().to_vec();
    display.set_pixel(-1, 0, QuadColor::Red);
    display.set_pixel(8, 0, QuadColor::Red);
    display.set_pixel(0, -1, QuadColor::Black);
    display.set_pixel(0, 4, QuadColor::Yellow);
    display.set_pixel(i32::MIN, i32::MAX, QuadColor::Red);
    assert_eq!(display.buffer(), before.as_slice());
}

#[test]
fn write_then_decode_returns_written_color_msb_first() {
    let mut display = Display::new(8, 4, BitOrder::MsbFirst);
    let colors = [QuadColor::Black, QuadColor::White, QuadColor::Red, QuadColor::Yellow];
    for (i, &c) in colors.iter().enumerate() {
        let x = i as i32 * 2 + 1;
        let y = i as i32;
        display.set_pixel(x, y, c);
        assert_eq!(read_pixel(&display, BitOrder::MsbFirst, x as u32, y as u32), c);
    }
}

#[test]
fn write_then_decode_returns_written_color_lsb_first() {
    let mut display = Display::new(8, 4, BitOrder::LsbFirst);
    let colors = [QuadColor::Black, QuadColor::White, QuadColor::Red, QuadColor::Yellow];
    for (i, &c) in colors.iter().enumerate() {
        let x = 7 - i as i32;
        let y = 3 - i as i32;
        display.set_pixel(x, y, c);
        assert_eq!(read_pixel(&display, BitOrder::LsbFirst, x as u32, y as u32), c);
    }
}

#[test]
fn neighbour_pixels_survive_a_write() {
    let mut display = Display::new(8, 2, BitOrder::MsbFirst);
    display.set_pixel(0, 0, QuadColor::Red);
    display.set_pixel(1, 0, QuadColor::Black);
    display.set_pixel(2, 0, QuadColor::Yellow);
    // Overwrite the middle pixel; its byte-mates must keep their colors.
    display.set_pixel(1, 0, QuadColor::White);
    assert_eq!(read_pixel(&display, BitOrder::MsbFirst, 0, 0), QuadColor::Red);
    assert_eq!(read_pixel(&display, BitOrder::MsbFirst, 1, 0), QuadColor::White);
    assert_eq!(read_pixel(&display, BitOrder::MsbFirst, 2, 0), QuadColor::Yellow);
    assert_eq!(read_pixel(&display, BitOrder::MsbFirst, 3, 0), QuadColor::White);
}

#[test]
fn panel_buffer_is_96000_bytes() {
    let display = display_7in5(BitOrder::MsbFirst);
    assert_eq!(display.buffer().len(), 96000);
    assert_eq!(display.width(), 800);
    assert_eq!(display.height(), 480);
}

#[test]
fn buffer_len_rounds_rows_up() {
    // The panel's own usage: 800 bits per half-row over twice the height.
    assert_eq!(buffer_len(800, 480 * 2), 96000);
    assert_eq!(buffer_len(1, 1), 1);
    assert_eq!(buffer_len(9, 2), 4);
}

#[test]
fn fresh_buffer_is_all_white_pattern() {
    let display = display_7in5(BitOrder::MsbFirst);
    assert!(display.buffer().iter().all(|&b| b == 0x55));
    assert_eq!(read_pixel(&display, BitOrder::MsbFirst, 0, 0), QuadColor::White);
    assert_eq!(read_pixel(&display, BitOrder::MsbFirst, 799, 479), QuadColor::White);
    assert_eq!(read_pixel(&display, BitOrder::MsbFirst, 397, 240), QuadColor::White);
}

#[test]
fn row_padding_bits_do_not_collide() {
    // Width 3 packs one row into a single byte with two padding fields.
    let mut display = Display::new(3, 2, BitOrder::MsbFirst);
    assert_eq!(display.buffer().len(), 2);
    display.set_pixel(2, 0, QuadColor::Black);
    display.set_pixel(0, 1, QuadColor::Red);
    assert_eq!(read_pixel(&display, BitOrder::MsbFirst, 2, 0), QuadColor::Black);
    assert_eq!(read_pixel(&display, BitOrder::MsbFirst, 0, 1), QuadColor::Red);
    assert_eq!(read_pixel(&display, BitOrder::MsbFirst, 0, 0), QuadColor::White);
}
