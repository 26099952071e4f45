use hadron::console::{Colors, Pixel, VgaWriter, HEIGHT, WIDTH};
use hadron::memory::VirtualAddress;
use hadron::registers::Msr;

fn blank_screen() -> VgaWriter {
    VgaWriter::new([[b' '; 80]; 25])
}

fn row_text(writer: &VgaWriter, row: usize) -> String {
    (0..WIDTH).map(|col| writer.char_at(row, col) as char).collect::<String>().trim_end().to_string()
}

#[test]
fn pixel_keeps_its_parts() {
    let pixel = Pixel::new(1, 2, 3);
    assert_eq!((pixel.r, pixel.g, pixel.b), (1, 2, 3));
    assert_eq!(pixel.as_bits(), 0x0001_0203);
    assert_eq!(Pixel::new(255, 255, 255).as_bits(), 0x00FF_FFFF);
    assert_eq!(Pixel::default(), Pixel::new(0, 0, 0));
}

#[test]
fn pixel_of_each_named_colour() {
    assert_eq!(Pixel::from(Colors::Red), Pixel::new(255, 0, 0));
    assert_eq!(Pixel::from(Colors::Green), Pixel::new(0, 255, 0));
    assert_eq!(Pixel::from(Colors::White), Pixel::new(255, 255, 255));
    assert_eq!(Pixel::from(Colors::Black), Pixel::new(0, 0, 0));
    assert_eq!(Pixel::from(Colors::Red).as_bits(), 0x00FF_0000);
    assert_eq!(Pixel::from(Colors::Green).as_bits(), 0x0000_FF00);
}

#[test]
fn pixel_set_and_reset() {
    let mut pixel = Pixel::new(9, 9, 9);
    pixel.set(Colors::Green);
    assert_eq!(pixel, Pixel::new(0, 255, 0));
    pixel.set(Pixel::new(4, 5, 6));
    assert_eq!(pixel, Pixel::new(4, 5, 6));
    pixel.reset();
    assert_eq!(pixel, Pixel::new(255, 255, 255));
}

#[test]
fn bytes_go_into_the_bottom_row() {
    let mut writer = blank_screen();
    assert_eq!(writer.cursor(), 0);
    writer.write_bytes(b"ok");
    assert_eq!(writer.cursor(), 2);
    assert_eq!(writer.char_at(HEIGHT - 1, 0), b'o');
    assert_eq!(writer.char_at(HEIGHT - 1, 1), b'k');
    assert_eq!(writer.char_at(HEIGHT - 1, 2), b' ');
    assert_eq!(row_text(&writer, HEIGHT - 2), "");
}

#[test]
fn line_feed_scrolls_the_screen_up() {
    let mut writer = blank_screen();
    writer.write_bytes(b"first\nsecond\nthird");
    assert_eq!(row_text(&writer, HEIGHT - 3), "first");
    assert_eq!(row_text(&writer, HEIGHT - 2), "second");
    assert_eq!(row_text(&writer, HEIGHT - 1), "third");
    assert_eq!(writer.cursor(), 5);
    writer.write_byte(b'\n');
    assert_eq!(row_text(&writer, HEIGHT - 4), "first");
    assert_eq!(row_text(&writer, HEIGHT - 1), "");
    assert_eq!(writer.cursor(), 0);
}

#[test]
fn full_row_wraps_before_the_next_byte() {
    let mut writer = blank_screen();
    let line = [b'x'; 80];
    writer.write_bytes(&line);
    assert_eq!(writer.cursor(), WIDTH);
    assert_eq!(writer.char_at(HEIGHT - 1, 79), b'x');
    assert_eq!(row_text(&writer, HEIGHT - 2), "");
    writer.write_byte(b'y');
    assert_eq!(writer.cursor(), 1);
    assert_eq!(writer.char_at(HEIGHT - 1, 0), b'y');
    assert_eq!(writer.char_at(HEIGHT - 1, 1), b' ');
    assert_eq!(writer.char_at(HEIGHT - 2, 0), b'x');
    assert_eq!(writer.char_at(HEIGHT - 2, 79), b'x');
}

#[test]
fn top_row_is_lost_after_a_full_screen() {
    let mut rows = [[b' '; 80]; 25];
    for (i, row) in rows.iter_mut().enumerate() {
        row[0] = b'a' + i as u8;
    }
    let mut writer = VgaWriter::new(rows);
    assert_eq!(writer.char_at(0, 0), b'a');
    assert_eq!(writer.char_at(24, 0), b'y');
    writer.new_line();
    assert_eq!(writer.char_at(0, 0), b'b');
    assert_eq!(writer.char_at(23, 0), b'y');
    assert_eq!(writer.char_at(24, 0), b' ');
    writer.clear_row(0);
    assert_eq!(writer.char_at(0, 0), b' ');
    assert_eq!(writer.char_at(1, 0), b'c');
}

#[test]
fn virtual_address_arithmetic() {
    let base = VirtualAddress::new(0x1000);
    assert_eq!(base.as_u64(), 0x1000);
    assert_eq!((base + 0x20u64).as_u64(), 0x1020);
    assert_eq!((base + 0x30usize).as_u64(), 0x1030);
    assert_eq!(VirtualAddress::default().as_u64(), 0);
    assert_eq!(base.checked_offset(u64::MAX - 0x1000), Some(VirtualAddress::new(u64::MAX)));
    assert_eq!(base.checked_offset(u64::MAX - 0xFFF), None);
}

#[test]
fn register_values_split_and_join() {
    assert_eq!(Msr::new(0xC000_0100).number(), 0xC000_0100);
    assert_eq!(Msr::join(0x1234_5678, 0x9ABC_DEF0), 0x1234_5678_9ABC_DEF0);
    assert_eq!(Msr::split(0x1234_5678_9ABC_DEF0), (0x1234_5678, 0x9ABC_DEF0));
    assert_eq!(Msr::join(0, u32::MAX), 0xFFFF_FFFF);
    assert_eq!(Msr::split(u64::MAX), (u32::MAX, u32::MAX));
}
