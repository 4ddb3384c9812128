use reznez::ppu::palette::color::{Brightness, Color, Hue};
use reznez::ppu::palette::color_t::ColorT;
use reznez::ppu::palette::ntsc_float_decoder::signal_level_index;
use reznez::ppu::palette::rgb::{Rgb, Rgbt};
use reznez::ppu::palette::system_palette::{PaletteError, SystemPalette, SystemPaletteSection};
use reznez::ppu::palette::system_palette_decoder::SystemPaletteDecoder;
use reznez::ppu::register::ppu_registers::Emphasis;

/// A palette text whose color `16 * b + h` is (b, h, 3 * h).
fn palette_text(line_separator: &str) -> String {
    let mut text = String::new();
    for b in 0..4 {
        let mut words = Vec::new();
        for h in 0..16 {
            words.push(format!("{}", b));
            words.push(format!("{}", h));
            words.push(format!("{}", 3 * h));
        }
        text.push_str(&words.join(" "));
        text.push_str(line_separator);
    }
    text
}

#[test]
fn parses_sixty_four_colors() {
    let colors = SystemPalette::parse_unemphasized(&palette_text("\n")).unwrap();
    assert_eq!(colors.len(), 64);
    assert_eq!(colors[0], Rgb::new(0, 0, 0));
    assert_eq!(colors[17], Rgb::new(1, 1, 3));
    assert_eq!(colors[63], Rgb::new(3, 15, 45));
}

#[test]
fn parse_skips_blank_lines_and_extra_spaces() {
    let text = format!("\n  \r\n{}   \n", palette_text("\r\n").replace(' ', "  "));
    let colors = SystemPalette::parse_unemphasized(&text).unwrap();
    assert_eq!(colors[33], Rgb::new(2, 1, 3));
}

#[test]
fn parse_refuses_wrong_line_count() {
    let mut text = palette_text("\n");
    text.push_str("1 2 3\n");
    match SystemPalette::parse_unemphasized(&text) {
        Err(PaletteError::WrongLineCount { found }) => assert_eq!(found, 5),
        other => panic!("unexpected result {:?}", other),
    }
}

#[test]
fn parse_refuses_words_that_are_not_numbers() {
    let text = palette_text("\n").replacen("3", "x3", 1);
    match SystemPalette::parse_unemphasized(&text) {
        Err(PaletteError::NotANumber { word }) => assert_eq!(word, vec!['x', '3']),
        other => panic!("unexpected result {:?}", other),
    }
    let too_big = palette_text("\n").replacen("45", "256", 1);
    match SystemPalette::parse_unemphasized(&too_big) {
        Err(PaletteError::NotANumber { word }) => assert_eq!(word, vec!['2', '5', '6']),
        other => panic!("unexpected result {:?}", other),
    }
}

#[test]
fn parse_refuses_wrong_value_count() {
    let mut lines: Vec<String> = palette_text("\n").lines().map(|l| l.to_string()).collect();
    lines[2].push_str(" 7");
    let text = lines.join("\n");
    match SystemPalette::parse_unemphasized(&text) {
        Err(PaletteError::WrongValueCount { found }) => assert_eq!(found, 49),
        other => panic!("unexpected result {:?}", other),
    }
}

#[test]
fn parse_reports_a_bad_word_before_a_bad_count() {
    let mut lines: Vec<String> = palette_text("\n").lines().map(|l| l.to_string()).collect();
    lines[1].push_str(" oops");
    let text = lines.join("\n");
    match SystemPalette::parse_unemphasized(&text) {
        Err(PaletteError::NotANumber { word }) => assert_eq!(word, vec!['o', 'o', 'p', 's']),
        other => panic!("unexpected result {:?}", other),
    }
}

#[test]
fn parse_accepts_a_plus_sign() {
    let text = palette_text("\n").replacen("45", "+45", 1);
    let colors = SystemPalette::parse_unemphasized(&text).unwrap();
    assert_eq!(colors[15], Rgb::new(0, 15, 45));
}

fn section_with(colors: &[Rgb]) -> SystemPaletteSection {
    SystemPaletteSection::new(colors.to_vec())
}

#[test]
fn lookup_by_color_and_emphasis() {
    let colors = SystemPalette::parse_unemphasized(&palette_text("\n")).unwrap();
    let mut sections = Vec::new();
    for e in 0..8u8 {
        let shifted: Vec<Rgb> = colors.iter().map(|c| Rgb::new(c.red(), c.green(), e)).collect();
        sections.push(section_with(&shifted));
    }
    let palette = SystemPalette::new(sections);
    let color = Color::new(Brightness::from_u8(2), Hue::from_u8(5));
    assert_eq!(palette.lookup_rgb(color, Emphasis::off()), Rgb::new(2, 5, 0));
    let emphasis = Emphasis { red: true, green: false, blue: true };
    assert_eq!(palette.lookup_rgb(color, emphasis), Rgb::new(2, 5, 5));
    assert_eq!(palette.emphasis_section(3).lookup_rgb(color), Rgb::new(2, 5, 3));
}

#[test]
fn lookup_rgbt_keeps_transparency() {
    let colors = SystemPalette::parse_unemphasized(&palette_text("\n")).unwrap();
    let section = section_with(&colors);
    assert_eq!(section.lookup_rgbt(ColorT::Transparent), Rgbt::Transparent);
    let color = Color::from_u8(0x21);
    assert_eq!(section.lookup_rgbt(ColorT::opaque(color)), Rgbt::Opaque(Rgb::new(2, 1, 3)));
}

#[test]
fn all_black_palette() {
    let palette = SystemPalette::all_black();
    assert_eq!(palette.lookup_rgb(Color::from_u8(0x30), Emphasis::off()), Rgb::black());
    let decoder = SystemPaletteDecoder::new(palette);
    assert_eq!(decoder.system_palette().lookup_rgb(Color::from_u8(0x12), Emphasis::off()), Rgb::black());
}

#[test]
fn ntsc_signal_levels() {
    let none = Emphasis::off();
    let red = Emphasis { red: true, green: false, blue: false };
    // Gray stays at its high level whatever the phase.
    let gray = Color::new(Brightness::Low, Hue::Gray);
    assert_eq!(signal_level_index(0, gray, none), 5);
    assert_eq!(signal_level_index(6, gray, none), 5);
    // Black takes the low brightness, stays low and is never attenuated.
    let black = Color::new(Brightness::Maximum, Hue::Black);
    assert_eq!(signal_level_index(0, black, red), 1);
    assert_eq!(signal_level_index(7, black, red), 1);
    // A hue is high for the six phases from its number, low for the others.
    let azure = Color::new(Brightness::High, Hue::Azure);
    assert_eq!(signal_level_index(0, azure, none), 6);
    assert_eq!(signal_level_index(5, azure, none), 2);
    // Red emphasis attenuates while olive is in phase.
    assert_eq!(signal_level_index(0, azure, red), 6);
    assert_eq!(signal_level_index(4, azure, red), 14);
    assert_eq!(signal_level_index(5, azure, red), 10);
}

#[test]
fn color_numbers_round_trip() {
    for value in 0..64u8 {
        let color = Color::from_u8(value);
        assert_eq!(color.to_u6(), value);
        assert_eq!(color.to_usize(), 16 * color.brightness() as usize + color.hue() as usize);
        assert_eq!(Color::from_u8(color.to_u6()), color);
    }
}
