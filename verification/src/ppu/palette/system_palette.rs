use vstd::prelude::*;

use crate::ppu::palette::color::Color;
use crate::ppu::palette::color_t::ColorT;
use crate::ppu::palette::rgb::{Rgb, Rgbt};
use crate::ppu::register::ppu_registers::Emphasis;
use crate::util::text::{chars_of, kept_pieces, parse_unsigned, spec_parse_unsigned, split_kept, split_on};

verus! {

/// The 64 colors of the PPU under one of the eight emphasis settings.
pub struct SystemPaletteSection(Vec<Rgb>);

impl SystemPaletteSection {
    #[verifier::type_invariant]
    closed spec fn has_all_colors(&self) -> bool {
        self.0.len() == 64
    }

    pub closed spec fn spec_colors(&self) -> Seq<Rgb> {
        self.0@
    }

    pub fn all_black() -> (r: SystemPaletteSection)
        ensures
            r.spec_colors() == Seq::new(64, |i: int| Rgb { red: 0, green: 0, blue: 0 }),
    {
        let mut colors: Vec<Rgb> = Vec::new();
        while colors.len() < 64
            invariant
                colors.len() <= 64,
                colors@ == Seq::new(colors.len() as nat, |i: int| Rgb { red: 0, green: 0, blue: 0 }),
            decreases 64 - colors.len(),
        {
            colors.push(Rgb::black());
        }
        SystemPaletteSection(colors)
    }

    /// A section from its 64 colors, indexed by color number.
    pub fn new(colors: Vec<Rgb>) -> (r: SystemPaletteSection)
        requires
            colors.len() == 64,
        ensures
            r.spec_colors() == colors@,
    {
        SystemPaletteSection(colors)
    }

    pub fn lookup_rgb(&self, color: Color) -> (r: Rgb)
        ensures
            self.spec_colors().len() == 64,
            r == self.spec_colors()[color.spec_to_u6() as int],
    {
        proof {
            use_type_invariant(self);
        }
        self.0[color.to_usize()]
    }

    pub fn lookup_rgbt(&self, color_t: ColorT) -> (r: Rgbt)
        ensures
            r == (match color_t {
                ColorT::Transparent => Rgbt::Transparent,
                ColorT::Opaque(color) => Rgbt::Opaque(self.spec_colors()[color.spec_to_u6() as int]),
            }),
    {
        match color_t {
            ColorT::Transparent => Rgbt::Transparent,
            ColorT::Opaque(color) => Rgbt::Opaque(self.lookup_rgb(color)),
        }
    }
}

/// The colors of the PPU under each of the eight emphasis settings.
pub struct SystemPalette(Vec<SystemPaletteSection>);

impl SystemPalette {
    #[verifier::type_invariant]
    closed spec fn has_all_sections(&self) -> bool {
        self.0.len() == 8
    }

    pub closed spec fn spec_sections(&self) -> Seq<SystemPaletteSection> {
        self.0@
    }

    pub fn all_black() -> (r: SystemPalette)
        ensures
            r.spec_sections().len() == 8,
            forall|i: int| 0 <= i < 8 ==> (#[trigger] r.spec_sections()[i]).spec_colors()
                == Seq::new(64, |j: int| Rgb { red: 0, green: 0, blue: 0 }),
    {
        let mut sections: Vec<SystemPaletteSection> = Vec::new();
        while sections.len() < 8
            invariant
                sections.len() <= 8,
                forall|i: int| 0 <= i < sections.len() ==> (#[trigger] sections@[i]).spec_colors()
                    == Seq::new(64, |j: int| Rgb { red: 0, green: 0, blue: 0 }),
            decreases 8 - sections.len(),
        {
            sections.push(SystemPaletteSection::all_black());
        }
        SystemPalette(sections)
    }

    /// A palette from its eight sections, indexed by emphasis.
    pub fn new(sections: Vec<SystemPaletteSection>) -> (r: SystemPalette)
        requires
            sections.len() == 8,
        ensures
            r.spec_sections() == sections@,
    {
        SystemPalette(sections)
    }

    /// The color under the emphasis: color `color` of section `emphasis.index()`.
    pub fn lookup_rgb(&self, color: Color, emphasis: Emphasis) -> (r: Rgb)
        ensures
            r == self.spec_sections()[emphasis.spec_index()].spec_colors()[color.spec_to_u6() as int],
    {
        proof {
            use_type_invariant(self);
        }
        self.0[emphasis.index()].lookup_rgb(color)
    }

    /// Reads the 64 unemphasized colors of a palette (`.pal`) text. The emphasized sections are
    /// computed from them by scaling, which is left to the caller.
    pub fn parse_unemphasized(raw: &str) -> (r: Result<Vec<Rgb>, PaletteError>)
        ensures
            r matches Ok(colors) ==> spec_parse_palette(raw@) == Ok::<Seq<Rgb>, PaletteErrorView>(colors@),
            r matches Err(e) ==> spec_parse_palette(raw@) == Err::<Seq<Rgb>, PaletteErrorView>(e@),
    {
        let text = chars_of(raw);
        parse_palette_colors(&text)
    }

    pub fn emphasis_section(&self, emphasis_index: usize) -> (r: &SystemPaletteSection)
        requires
            emphasis_index < 8,
        ensures
            *r == self.spec_sections()[emphasis_index as int],
    {
        proof {
            use_type_invariant(self);
        }
        &self.0[emphasis_index]
    }
}

/// Why a palette file was refused.
#[derive(Debug)]
pub enum PaletteError {
    /// There must be exactly 4 non-blank lines (one for each brightness).
    WrongLineCount { found: usize },
    /// A word on a line isn't a number from 0 to 255.
    NotANumber { word: Vec<char> },
    /// A line must hold exactly 48 values (16 RGB triples).
    WrongValueCount { found: usize },
}

/// What a `PaletteError` says.
pub enum PaletteErrorView {
    WrongLineCount { found: nat },
    NotANumber { word: Seq<char> },
    WrongValueCount { found: nat },
}

impl View for PaletteError {
    type V = PaletteErrorView;

    open spec fn view(&self) -> PaletteErrorView {
        match self {
            PaletteError::WrongLineCount { found } => PaletteErrorView::WrongLineCount { found: *found as nat },
            PaletteError::NotANumber { word } => PaletteErrorView::NotANumber { word: word@ },
            PaletteError::WrongValueCount { found } => PaletteErrorView::WrongValueCount { found: *found as nat },
        }
    }
}

/// The non-blank lines of a palette file, trimmed.
pub open spec fn palette_lines(text: Seq<char>) -> Seq<Seq<char>> {
    kept_pieces(split_on(text, '\n'), true)
}

/// The words of a line: what lies between its spaces.
pub open spec fn palette_words(line: Seq<char>) -> Seq<Seq<char>> {
    kept_pieces(split_on(line, ' '), false)
}

/// The numbers that the words spell, or the first word that isn't a number from 0 to 255.
pub open spec fn spec_numbers(words: Seq<Seq<char>>) -> Result<Seq<u8>, Seq<char>>
    decreases words.len(),
{
    if words.len() == 0 {
        Ok(Seq::empty())
    } else {
        match spec_numbers(words.drop_last()) {
            Err(word) => Err(word),
            Ok(numbers) => match spec_parse_unsigned(words.last(), 10, 255) {
                Some(n) => Ok(numbers.push(n as u8)),
                None => Err(words.last()),
            },
        }
    }
}

/// The 48 values of a line; a word that isn't a number is reported before a wrong count.
pub open spec fn spec_parse_line(line: Seq<char>) -> Result<Seq<u8>, PaletteErrorView> {
    let words = palette_words(line);
    match spec_numbers(words) {
        Err(word) => Err(PaletteErrorView::NotANumber { word }),
        Ok(numbers) => if words.len() != 48 {
            Err(PaletteErrorView::WrongValueCount { found: words.len() })
        } else {
            Ok(numbers)
        },
    }
}

/// The color with number `16 * brightness + hue` takes the RGB triple at `3 * hue` of the line
/// of its brightness.
pub open spec fn spec_palette_colors(lines: Seq<Seq<u8>>) -> Seq<Rgb> {
    Seq::new(64, |i: int| {
        let line = lines[i / 16];
        let h = i % 16;
        Rgb { red: line[3 * h], green: line[3 * h + 1], blue: line[3 * h + 2] }
    })
}

/// The values of each line, or the error of the first line that has one.
pub open spec fn spec_parse_lines(lines: Seq<Seq<char>>) -> Result<Seq<Seq<u8>>, PaletteErrorView>
    decreases lines.len(),
{
    if lines.len() == 0 {
        Ok(Seq::empty())
    } else {
        match spec_parse_lines(lines.drop_last()) {
            Err(e) => Err(e),
            Ok(parsed) => match spec_parse_line(lines.last()) {
                Err(e) => Err(e),
                Ok(numbers) => Ok(parsed.push(numbers)),
            },
        }
    }
}

/// The 64 unemphasized colors of a palette file: 4 non-blank lines, from the lowest brightness
/// up, each with 16 RGB triples, one for each hue. The lines are checked in order.
pub open spec fn spec_parse_palette(text: Seq<char>) -> Result<Seq<Rgb>, PaletteErrorView> {
    let lines = palette_lines(text);
    if lines.len() != 4 {
        Err(PaletteErrorView::WrongLineCount { found: lines.len() })
    } else {
        match spec_parse_lines(lines) {
            Err(e) => Err(e),
            Ok(parsed) => Ok(spec_palette_colors(parsed)),
        }
    }
}

proof fn lemma_parse_lines_error_persists(lines: Seq<Seq<char>>, n: int)
    requires
        0 <= n <= lines.len(),
        spec_parse_lines(lines.take(n)) is Err,
    ensures
        spec_parse_lines(lines) == spec_parse_lines(lines.take(n)),
    decreases lines.len() - n,
{
    if n < lines.len() {
        assert(lines.take(n + 1).drop_last() =~= lines.take(n));
        lemma_parse_lines_error_persists(lines, n + 1);
    } else {
        assert(lines.take(n) =~= lines);
    }
}

proof fn lemma_parse_lines_lengths(lines: Seq<Seq<char>>)
    ensures
        spec_parse_lines(lines) matches Ok(parsed) ==> parsed.len() == lines.len()
            && forall|k: int| 0 <= k < parsed.len() ==> (#[trigger] parsed[k]).len() == 48,
    decreases lines.len(),
{
    if lines.len() > 0 {
        lemma_parse_lines_lengths(lines.drop_last());
        lemma_parse_line_length(lines.last());
    }
}

proof fn lemma_parse_line_length(line: Seq<char>)
    ensures
        spec_parse_line(line) matches Ok(numbers) ==> numbers.len() == 48,
{
    lemma_numbers_length(palette_words(line));
}

proof fn lemma_numbers_length(words: Seq<Seq<char>>)
    ensures
        spec_numbers(words) matches Ok(numbers) ==> numbers.len() == words.len(),
    decreases words.len(),
{
    if words.len() > 0 {
        lemma_numbers_length(words.drop_last());
    }
}

/// The numbers of a line's words, or the first word that isn't a number from 0 to 255.
fn numbers_of(words: &Vec<Vec<char>>) -> (r: Result<Vec<u8>, Vec<char>>)
    ensures
        r matches Ok(numbers) ==> spec_numbers(words.deep_view()) == Ok::<Seq<u8>, Seq<char>>(numbers@),
        r matches Err(word) ==> spec_numbers(words.deep_view()) == Err::<Seq<u8>, Seq<char>>(word@),
{
    let mut numbers: Vec<u8> = Vec::new();
    let mut i: usize = 0;
    while i < words.len()
        invariant
            i <= words@.len(),
            spec_numbers(words.deep_view().take(i as int)) == Ok::<Seq<u8>, Seq<char>>(numbers@),
        decreases words@.len() - i,
    {
        proof {
            assert(words.deep_view().take(i + 1).drop_last() =~= words.deep_view().take(i as int));
            assert(words@[i as int].deep_view() =~= words@[i as int]@);
        }
        match parse_unsigned(&words[i], 10, 255) {
            Some(n) => {
                numbers.push(n as u8);
            },
            None => {
                let word = words[i].clone();
                proof {
                    assert(word@ =~= words@[i as int]@);
                    assert(spec_numbers(words.deep_view().take(i + 1)) is Err);
                    lemma_numbers_error_persists(words.deep_view(), i + 1);
                }
                return Err(word);
            },
        }
        i = i + 1;
    }
    proof {
        assert(words.deep_view().take(i as int) =~= words.deep_view());
    }
    Ok(numbers)
}

/// Once a word fails, the first failing word stays the answer however many words follow.
proof fn lemma_numbers_error_persists(words: Seq<Seq<char>>, n: int)
    requires
        0 <= n <= words.len(),
        spec_numbers(words.take(n)) is Err,
    ensures
        spec_numbers(words) == spec_numbers(words.take(n)),
    decreases words.len() - n,
{
    if n < words.len() {
        assert(words.take(n + 1).drop_last() =~= words.take(n));
        lemma_numbers_error_persists(words, n + 1);
    } else {
        assert(words.take(n) =~= words);
    }
}

fn parse_line(line: &Vec<char>) -> (r: Result<Vec<u8>, PaletteError>)
    ensures
        r matches Ok(numbers) ==> spec_parse_line(line@) == Ok::<Seq<u8>, PaletteErrorView>(numbers@),
        r matches Err(e) ==> spec_parse_line(line@) == Err::<Seq<u8>, PaletteErrorView>(e@),
{
    let words = split_kept(line, ' ', false);
    match numbers_of(&words) {
        Err(word) => Err(PaletteError::NotANumber { word }),
        Ok(numbers) => if words.len() != 48 {
            Err(PaletteError::WrongValueCount { found: words.len() })
        } else {
            Ok(numbers)
        },
    }
}

/// Reads the 64 unemphasized colors of a palette file (4 lines of 48 numbers).
pub fn parse_palette_colors(text: &Vec<char>) -> (r: Result<Vec<Rgb>, PaletteError>)
    ensures
        r matches Ok(colors) ==> spec_parse_palette(text@) == Ok::<Seq<Rgb>, PaletteErrorView>(colors@),
        r matches Err(e) ==> spec_parse_palette(text@) == Err::<Seq<Rgb>, PaletteErrorView>(e@),
{
    let lines = split_kept(text, '\n', true);
    if lines.len() != 4 {
        return Err(PaletteError::WrongLineCount { found: lines.len() });
    }
    match parse_lines(&lines) {
        Err(e) => Err(e),
        Ok(parsed) => {
            proof {
                lemma_parse_lines_lengths(lines.deep_view());
                assert(parsed@.len() == 4);
                assert forall|k: int| 0 <= k < 4 implies (#[trigger] parsed@[k])@.len() == 48 by {
                    assert(parsed.deep_view()[k] == parsed@[k].deep_view());
                    assert(parsed@[k].deep_view() =~= parsed@[k]@);
                }
            }
            let colors = palette_colors(&parsed[0], &parsed[1], &parsed[2], &parsed[3]);
            proof {
                let p = parsed.deep_view();
                assert forall|k: int| 0 <= k < 4 implies parsed@[k]@ == #[trigger] p[k] by {
                    assert(parsed@[k].deep_view() =~= parsed@[k]@);
                }
                assert(seq![parsed@[0]@, parsed@[1]@, parsed@[2]@, parsed@[3]@] =~= p);
            }
            Ok(colors)
        },
    }
}

/// The values of each line, or the error of the first line that has one.
fn parse_lines(lines: &Vec<Vec<char>>) -> (r: Result<Vec<Vec<u8>>, PaletteError>)
    ensures
        r matches Ok(parsed) ==> spec_parse_lines(lines.deep_view()) == Ok::<Seq<Seq<u8>>, PaletteErrorView>(parsed.deep_view()),
        r matches Err(e) ==> spec_parse_lines(lines.deep_view()) == Err::<Seq<Seq<u8>>, PaletteErrorView>(e@),
{
    let mut parsed: Vec<Vec<u8>> = Vec::new();
    let mut i: usize = 0;
    proof {
        assert(lines.deep_view().take(0) =~= Seq::<Seq<char>>::empty());
        assert(parsed.deep_view() =~= Seq::<Seq<u8>>::empty());
    }
    while i < lines.len()
        invariant
            i <= lines@.len(),
            spec_parse_lines(lines.deep_view().take(i as int)) == Ok::<Seq<Seq<u8>>, PaletteErrorView>(parsed.deep_view()),
        decreases lines@.len() - i,
    {
        proof {
            assert(lines.deep_view().take(i + 1).drop_last() =~= lines.deep_view().take(i as int));
            assert(lines@[i as int].deep_view() =~= lines@[i as int]@);
        }
        match parse_line(&lines[i]) {
            Ok(numbers) => {
                let ghost old_parsed = parsed.deep_view();
                let ghost numbers_view = numbers@;
                let ghost numbers_deep = numbers.deep_view();
                parsed.push(numbers);
                proof {
                    assert(numbers_deep =~= numbers_view);
                    assert(parsed.deep_view() =~= old_parsed.push(numbers_view));
                }
            },
            Err(e) => {
                proof {
                    lemma_parse_lines_error_persists(lines.deep_view(), i + 1);
                }
                return Err(e);
            },
        }
        i = i + 1;
    }
    proof {
        assert(lines.deep_view().take(i as int) =~= lines.deep_view());
    }
    Ok(parsed)
}

/// Lays the 16 RGB triples of the four lines out by color number.
fn palette_colors(l0: &Vec<u8>, l1: &Vec<u8>, l2: &Vec<u8>, l3: &Vec<u8>) -> (r: Vec<Rgb>)
    requires
        l0@.len() == 48 && l1@.len() == 48 && l2@.len() == 48 && l3@.len() == 48,
    ensures
        r@ == spec_palette_colors(seq![l0@, l1@, l2@, l3@]),
{
    let ghost all = seq![l0@, l1@, l2@, l3@];
    let mut colors: Vec<Rgb> = Vec::new();
    let mut brightness: usize = 0;
    while brightness < 4
        invariant
            brightness <= 4,
            l0@.len() == 48 && l1@.len() == 48 && l2@.len() == 48 && l3@.len() == 48,
            all == seq![l0@, l1@, l2@, l3@],
            colors@ == spec_palette_colors(all).take(16 * brightness as int),
        decreases 4 - brightness,
    {
        let line = if brightness == 0 {
            l0
        } else if brightness == 1 {
            l1
        } else if brightness == 2 {
            l2
        } else {
            l3
        };
        assert(line@ == all[brightness as int]);
        let mut hue: usize = 0;
        while hue < 16
            invariant
                brightness < 4,
                hue <= 16,
                line@.len() == 48,
                line@ == all[brightness as int],
                colors@ == spec_palette_colors(all).take(16 * brightness + hue),
            decreases 16 - hue,
        {
            let rgb = Rgb::new(line[3 * hue], line[3 * hue + 1], line[3 * hue + 2]);
            proof {
                let i = 16 * brightness + hue;
                assert(i / 16 == brightness as int && i % 16 == hue as int);
                assert(spec_palette_colors(all)[i] == rgb);
                assert(spec_palette_colors(all).take(i + 1) =~= spec_palette_colors(all).take(i).push(rgb));
            }
            colors.push(rgb);
            hue = hue + 1;
        }
        brightness = brightness + 1;
    }
    proof {
        assert(spec_palette_colors(all).take(64) =~= spec_palette_colors(all));
    }
    colors
}

} // verus!
