use reznez::ppu::pixel_index::PixelIndex;
use reznez::ppu::render::ppm::{Parser, Ppm};

#[test]
fn exact() {
    let input = &b"P6\n256"[..];
    let mut parser = Parser::new(input);
    assert_eq!(parser.exact(b"P6\n"), true);
    assert_eq!(parser.remainder().len(), 3);
}

#[test]
fn exact_failed() {
    let input = &b"P3\n256"[..];
    let mut parser = Parser::new(input);
    assert_eq!(parser.exact(b"P6\n"), false);
    assert_eq!(parser.remainder().len(), 6);
}

#[test]
fn number() {
    let input = &b"256abcd"[..];
    let mut parser = Parser::new(input);
    assert_eq!(parser.number(), Some(256));
    assert_eq!(parser.remainder().len(), 4);
}

#[test]
fn just_number() {
    let input = &b"240"[..];
    let mut parser = Parser::new(input);
    assert_eq!(parser.number(), Some(240));
    assert_eq!(parser.remainder().len(), 0);
}

#[test]
fn bigger_number() {
    let input = &b"293abcd"[..];
    let mut parser = Parser::new(input);
    assert_eq!(parser.number(), Some(293));
    assert_eq!(parser.remainder().len(), 4);
}

#[test]
fn empty_number() {
    let input = &b"abcd"[..];
    let mut parser = Parser::new(input);
    assert_eq!(parser.number(), None);
    assert_eq!(parser.remainder().len(), 4);
}

#[test]
fn number_too_big() {
    let input = &b"123123123123123123123123123123123123123123123123abcd"[..];
    let mut parser = Parser::new(input);
    assert_eq!(parser.number(), None);
    assert_eq!(parser.remainder().len(), 52);
}

#[test]
fn roundtrip() {
    let mut data = Vec::with_capacity(3 * PixelIndex::PIXEL_COUNT);
    for i in 0..3 * PixelIndex::PIXEL_COUNT {
        data.push((i % 256) as u8);
    }

    let ppm = Ppm::new(data.clone(), 256, 240);
    let bytes = &ppm.to_bytes();
    assert_eq!(&bytes[bytes.len() - data.len()..], &data);
    let ppm = Ppm::from_bytes(bytes).unwrap();
    let bytes = &ppm.to_bytes();
    assert_eq!(&bytes[bytes.len() - data.len()..], &data);
}

#[test]
fn header_is_plain_text() {
    let ppm = Ppm::new(vec![1, 2, 3, 4, 5, 6], 2, 1);
    assert_eq!(ppm.to_bytes(), b"P6\n2 1\n255\n\x01\x02\x03\x04\x05\x06".to_vec());
}

#[test]
fn windows_line_endings_are_accepted() {
    let ppm = Ppm::from_bytes(b"P6\r\n1 1\r\n255\r\nabc").unwrap();
    assert_eq!(ppm.to_bytes(), b"P6\n1 1\n255\nabc".to_vec());
}

#[test]
fn missing_magic_is_rejected() {
    assert_eq!(Ppm::from_bytes(b"P3\n1 1\n255\nabc").err(), Some("PPM magic value missing.".to_string()));
}

#[test]
fn missing_space_is_rejected() {
    assert_eq!(Ppm::from_bytes(b"P6\n1\n1\n255\nabc").err(), Some("Space missing between width and height.".to_string()));
}

#[test]
fn missing_height_is_rejected() {
    assert_eq!(Ppm::from_bytes(b"P6\n1 x\n255\nabc").err(), Some("Height missing".to_string()));
}

#[test]
fn wrong_max_color_is_rejected() {
    assert_eq!(Ppm::from_bytes(b"P6\n1 1\n65535\nabc").err(), Some("Max color value incorrect or missing.".to_string()));
}

#[test]
fn wrong_data_length_is_rejected() {
    assert_eq!(
        Ppm::from_bytes(b"P6\n1 1\n255\nabcd").err(),
        Some("Expected PPM data length to be 3 but was 4.".to_string()),
    );
}

#[test]
fn header_errors_name_the_failing_step() {
    assert_eq!(Ppm::from_bytes(b"P6\n256abcd").err(), Some("Space missing between width and height.".to_string()));
    assert_eq!(Ppm::from_bytes(b"P6\nabcd").err(), Some("Width missing".to_string()));
    let mut too_big = b"P6\n".to_vec();
    for _ in 0..16 {
        too_big.extend_from_slice(b"123");
    }
    too_big.extend_from_slice(b"abcd");
    assert_eq!(Ppm::from_bytes(&too_big).err(), Some("Width missing".to_string()));
    assert_eq!(Ppm::from_bytes(b"P6\n2 240").err(), Some("Max color value incorrect or missing.".to_string()));
    let ppm = Ppm::from_bytes(b"P6\n1 1\n255\n\x01\x02\x03").unwrap();
    assert_eq!(ppm.to_bytes(), b"P6\n1 1\n255\n\x01\x02\x03".to_vec());
}
