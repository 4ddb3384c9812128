use reznez::ppu::palette::color::Color;
use reznez::ppu::palette::color_t::ColorT;
use reznez::ppu::palette::rgb::{Rgb, Rgbt};
use reznez::ppu::pixel_index::{PixelColumn, PixelIndex, PixelRow};
use reznez::ppu::render::frame::{DebugBuffer, Frame, FrameBuffer};

#[test]
fn dummy_frame_is_black() {
    let frame = Frame::dummy(3, 2);
    assert_eq!(frame.pixel_width(), 3);
    assert_eq!(frame.pixel_height(), 2);
    assert_eq!(frame.pixel_count(), 6);
    assert_eq!(frame.frame(), &[0u8; 24][..]);
}

#[test]
fn exact_sized_frame_covers_the_screen() {
    let frame = Frame::exact_sized();
    assert_eq!(frame.pixel_width(), 256);
    assert_eq!(frame.pixel_height(), 240);
    assert_eq!(frame.frame().len(), 4 * 256 * 240);
}

#[test]
fn set_pixel_writes_opaque_rgba() {
    let mut frame = Frame::dummy(3, 2);
    frame.set_pixel(2, 1, Rgb::new(10, 20, 30));
    let index = 4 * (3 * 1 + 2);
    assert_eq!(&frame.frame()[index..index + 4], &[10, 20, 30, 0xFF]);
    assert_eq!(frame.frame()[0], 0);
}

#[test]
fn to_ppm_drops_alpha() {
    let mut frame = Frame::dummy(2, 1);
    frame.set_pixel(0, 0, Rgb::new(1, 2, 3));
    frame.set_pixel(1, 0, Rgb::new(4, 5, 6));
    let ppm = frame.to_ppm();
    assert_eq!(ppm.to_bytes(), b"P6\n2 1\n255\n\x01\x02\x03\x04\x05\x06".to_vec());
}

#[test]
fn write_all_pixel_data_copies_rgb() {
    let mut frame = Frame::dummy(1, 2);
    frame.set_pixel(0, 1, Rgb::new(7, 8, 9));
    let mut data = vec![0xAA; 6];
    frame.write_all_pixel_data(&mut data);
    assert_eq!(data, vec![0, 0, 0, 7, 8, 9]);
}

#[test]
fn resize_clears_the_frame() {
    let mut frame = Frame::dummy(1, 1);
    frame.set_pixel(0, 0, Rgb::white());
    frame.resize(2, 2);
    assert_eq!(frame.pixel_count(), 4);
    assert_eq!(frame.frame(), &[0u8; 16][..]);
}

#[test]
fn frame_buffer_filled_and_indexed() {
    let buffer = FrameBuffer::filled(4, 3, 7u8);
    assert_eq!(*buffer.get(3, 2), 7);
    let index = PixelIndex { column: PixelColumn::new(1), row: PixelRow::zero() };
    assert_eq!(*buffer.get_at(index), 7);
}

#[test]
fn frame_buffer_clear_row() {
    let mut buffer: FrameBuffer<ColorT> = FrameBuffer::default();
    let opaque = ColorT::opaque(Color::from_u8(0x16));
    let row = PixelRow::try_from_u8(5).unwrap();
    let other_row = PixelRow::try_from_u8(6).unwrap();
    for column in [0u8, 100, 255] {
        buffer.set_at(PixelIndex { column: PixelColumn::new(column), row }, opaque);
        buffer.set_at(PixelIndex { column: PixelColumn::new(column), row: other_row }, opaque);
    }
    buffer.clear_row(row);
    for column in [0u8, 100, 255] {
        assert_eq!(*buffer.get_at(PixelIndex { column: PixelColumn::new(column), row }), ColorT::Transparent);
        assert_eq!(*buffer.get_at(PixelIndex { column: PixelColumn::new(column), row: other_row }), opaque);
    }
    buffer.clear();
    assert_eq!(*buffer.get_at(PixelIndex { column: PixelColumn::new(0), row: other_row }), ColorT::Transparent);
}

fn rgba_at<const W: usize, const H: usize>(buffer: &DebugBuffer<W, H>, column: usize, row: usize) -> [u8; 4] {
    let mut rgba = vec![0; 4 * W * H];
    buffer.copy_to_rgba_buffer(&mut rgba);
    let index = 4 * (row * W + column);
    [rgba[index], rgba[index + 1], rgba[index + 2], rgba[index + 3]]
}

#[test]
fn debug_buffer_shows_background_where_transparent() {
    let mut buffer: DebugBuffer<4, 3> = DebugBuffer::new(Rgb::new(9, 9, 9));
    assert_eq!(rgba_at(&buffer, 1, 1), [9, 9, 9, 0xFF]);
    buffer.write_rgbt(1, 1, Rgbt::Opaque(Rgb::new(1, 2, 3)));
    assert_eq!(rgba_at(&buffer, 1, 1), [1, 2, 3, 0xFF]);
    buffer.write_rgbt(1, 1, Rgbt::Transparent);
    assert_eq!(rgba_at(&buffer, 1, 1), [9, 9, 9, 0xFF]);
}

#[test]
fn wrapping_horizontal_line() {
    let red = Rgb::new(255, 0, 0);
    let mut buffer: DebugBuffer<4, 3> = DebugBuffer::new(Rgb::black());
    // Row 4 is row 1; columns 3 through 5 wrap to 3, 0 and 1.
    buffer.place_wrapping_horizontal_line(4, 3, 5, red);
    assert_eq!(rgba_at(&buffer, 3, 1), [255, 0, 0, 0xFF]);
    assert_eq!(rgba_at(&buffer, 0, 1), [255, 0, 0, 0xFF]);
    assert_eq!(rgba_at(&buffer, 1, 1), [255, 0, 0, 0xFF]);
    assert_eq!(rgba_at(&buffer, 2, 1), [0, 0, 0, 0xFF]);
    assert_eq!(rgba_at(&buffer, 3, 0), [0, 0, 0, 0xFF]);
}

#[test]
fn line_whose_ends_meet_covers_the_row() {
    let mut buffer: DebugBuffer<4, 3> = DebugBuffer::new(Rgb::black());
    buffer.place_wrapping_horizontal_line(0, 0, 4, Rgb::white());
    for column in 0..4 {
        assert_eq!(rgba_at(&buffer, column, 0), [255, 255, 255, 0xFF]);
    }
}

#[test]
fn wrapping_vertical_line() {
    let green = Rgb::new(0, 255, 0);
    let mut buffer: DebugBuffer<4, 3> = DebugBuffer::new(Rgb::black());
    buffer.place_wrapping_vertical_line(2, 0, 1, green);
    assert_eq!(rgba_at(&buffer, 2, 0), [0, 255, 0, 0xFF]);
    assert_eq!(rgba_at(&buffer, 2, 1), [0, 255, 0, 0xFF]);
    assert_eq!(rgba_at(&buffer, 2, 2), [0, 0, 0, 0xFF]);
    assert_eq!(rgba_at(&buffer, 1, 0), [0, 0, 0, 0xFF]);
}

#[test]
fn place_frame_buffer_with_transform() {
    let mut frame = FrameBuffer::filled(256, 240, 0u8);
    frame.set_at(PixelIndex { column: PixelColumn::new(255), row: PixelRow::try_from_u8(239).unwrap() }, 5u8);
    let mut buffer: DebugBuffer<258, 241> = DebugBuffer::new(Rgb::black());
    buffer.place_frame_buffer_with(2, 1, &frame, |v: u8| Rgb::new(v, v, v));
    assert_eq!(rgba_at(&buffer, 257, 240), [5, 5, 5, 0xFF]);
    assert_eq!(rgba_at(&buffer, 2, 1), [0, 0, 0, 0xFF]);
    assert_eq!(rgba_at(&buffer, 0, 0), [0, 0, 0, 0xFF]);
}
