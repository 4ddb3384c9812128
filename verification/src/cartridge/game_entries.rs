use vstd::prelude::*;

use crate::cartridge::cartridge_metadata::{CartridgeMetadata, ConsoleType, TimingMode};
use crate::util::text::{chars_of, parse_unsigned, spec_parse_unsigned};

verus! {

/// An attribute of an XML element: its (local) name and its value.
pub type XmlAttribute = (Seq<char>, Seq<char>);

/// A child node of an XML element: its tag name (empty unless it is an element) and its attributes.
pub type XmlChild = (Seq<char>, Seq<XmlAttribute>);

/// A node of an XML document: its tag name (empty unless it is an element) and its children.
pub type XmlNode = (Seq<char>, Seq<XmlChild>);

/// The nodes of an XML document, root first and then in document order, if the text is a
/// well-formed XML document.
pub uninterp spec fn xml_nodes(text: Seq<char>) -> Option<Seq<XmlNode>>;

/// Parses XML with `roxmltree::Document::parse`, and lists every node of the document
/// (`descendants` of the root): its tag name (`tag_name().name()`) and, for each of its children,
/// the child's tag name and its attributes (`attributes()`, local name and value, in order). The
/// result is `None` exactly when the parse fails, and is named by `xml_nodes`.
#[verifier::external_body]
fn parse_xml_nodes(text: &str) -> (r: Option<Vec<(Vec<char>, Vec<(Vec<char>, Vec<(Vec<char>, Vec<char>)>)>)>>)
    ensures
        r is None <==> xml_nodes(text@) is None,
        r matches Some(nodes) ==> xml_nodes(text@) == Some(nodes.deep_view()),
{
    let doc = roxmltree::Document::parse(text).ok()?;
    Some(doc.root().descendants().map(|node| (
        node.tag_name().name().chars().collect(),
        node.children().map(|child| (
            child.tag_name().name().chars().collect(),
            child.attributes().map(|a| (a.name().chars().collect(), a.value().chars().collect())).collect(),
        )).collect(),
    )).collect())
}

/// Why the game database was refused.
#[derive(PartialEq, Eq, Clone, Copy, Debug, Structural)]
pub enum HeaderDbError {
    /// The text isn't a well-formed XML document.
    NotXml,
    /// A `game` element (counted from zero) lacks a required entry, or has one that can't be read.
    BadGame { index: usize },
    /// A ROM is both in the database and in the table of ROMs missing from it.
    InDbAndExtension,
    /// The database has the ROM, but its PRG ROM size and the ROM's own are not both known and equal.
    PrgRomSizeMismatch,
}

/// The value of the first attribute with the name.
pub open spec fn first_attribute(attributes: Seq<XmlAttribute>, name: Seq<char>) -> Option<Seq<char>>
    decreases attributes.len(),
{
    if attributes.len() == 0 {
        None
    } else if attributes[0].0 == name {
        Some(attributes[0].1)
    } else {
        first_attribute(attributes.drop_first(), name)
    }
}

/// The attributes of the first child with the tag name.
pub open spec fn first_child(children: Seq<XmlChild>, tag: Seq<char>) -> Option<Seq<XmlAttribute>>
    decreases children.len(),
{
    if children.len() == 0 {
        None
    } else if children[0].0 == tag {
        Some(children[0].1)
    } else {
        first_child(children.drop_first(), tag)
    }
}

/// An attribute of a child element: nothing when there is no such child, and an error when the
/// child lacks the attribute.
pub open spec fn spec_read_attribute(children: Seq<XmlChild>, tag: Seq<char>, name: Seq<char>) -> Result<Option<Seq<char>>, ()> {
    match first_child(children, tag) {
        None => Ok(None),
        Some(attributes) => match first_attribute(attributes, name) {
            None => Err(()),
            Some(value) => Ok(Some(value)),
        },
    }
}

/// An attribute that must be present.
pub open spec fn required(read: Result<Option<Seq<char>>, ()>) -> Option<Seq<char>> {
    match read {
        Ok(Some(value)) => Some(value),
        _ => None,
    }
}

/// A size that is zero when absent.
pub open spec fn optional_size(read: Result<Option<Seq<char>>, ()>) -> Option<u32> {
    match read {
        Err(()) => None,
        Ok(None) => Some(0),
        Ok(Some(text)) => match spec_parse_unsigned(text, 10, u32::MAX as nat) {
            Some(n) => Some(n as u32),
            None => None,
        },
    }
}

pub open spec fn hex_u32(text: Option<Seq<char>>) -> Option<u32> {
    match text {
        Some(t) => match spec_parse_unsigned(t, 16, u32::MAX as nat) {
            Some(n) => Some(n as u32),
            None => None,
        },
        None => None,
    }
}

pub open spec fn decimal(text: Option<Seq<char>>, max: nat) -> Option<nat> {
    match text {
        Some(t) => spec_parse_unsigned(t, 10, max),
        None => None,
    }
}

/// The console type that a database number names.
pub open spec fn spec_console_type(number: u8) -> ConsoleType {
    if number == 0 {
        ConsoleType::NesFamiconDendy
    } else if number == 1 {
        ConsoleType::Vs
    } else if number == 2 {
        ConsoleType::PlayChoice10
    } else {
        ConsoleType::Extended(number)
    }
}

/// The metadata of a `game` element, from its children: `rom` and `prgrom` checksums (hex),
/// `pcb` mapper, submapper, battery and mirroring, `prgrom`, `prgram`, `prgnvram`, `chrrom`,
/// `chrram` and `chrnvram` sizes (absent RAM and CHR ROM sizes are zero), `console` type and
/// region, `expansion` type, and optionally the `chrrom` checksum, the `miscrom` count and the
/// `vs` hardware and PPU types, and the `pcb` mirroring code when it is one character. Nothing
/// when a required entry is missing or unreadable.
#[verifier::opaque]
pub open spec fn spec_game_metadata(c: Seq<XmlChild>) -> Option<CartridgeMetadata> {
    let full_hash = hex_u32(required(spec_read_attribute(c, "rom"@, "crc32"@)));
    let prg_rom_hash = hex_u32(required(spec_read_attribute(c, "prgrom"@, "crc32"@)));
    let mapper = decimal(required(spec_read_attribute(c, "pcb"@, "mapper"@)), u16::MAX as nat);
    let submapper = required(spec_read_attribute(c, "pcb"@, "submapper"@));
    let battery = required(spec_read_attribute(c, "pcb"@, "battery"@));
    let prg_rom_size = decimal(required(spec_read_attribute(c, "prgrom"@, "size"@)), u32::MAX as nat);
    let prg_work_ram_size = optional_size(spec_read_attribute(c, "prgram"@, "size"@));
    let prg_save_ram_size = optional_size(spec_read_attribute(c, "prgnvram"@, "size"@));
    let chr_rom_size = optional_size(spec_read_attribute(c, "chrrom"@, "size"@));
    let chr_work_ram_size = optional_size(spec_read_attribute(c, "chrram"@, "size"@));
    let chr_save_ram_size = optional_size(spec_read_attribute(c, "chrnvram"@, "size"@));
    let console_type = decimal(required(spec_read_attribute(c, "console"@, "type"@)), u8::MAX as nat);
    let region = decimal(required(spec_read_attribute(c, "console"@, "region"@)), 3);
    let expansion = decimal(required(spec_read_attribute(c, "expansion"@, "type"@)), u8::MAX as nat);
    let chr_rom_hash = spec_read_attribute(c, "chrrom"@, "crc32"@);
    let misc_roms = spec_read_attribute(c, "miscrom"@, "number"@);
    let vs_hardware = spec_read_attribute(c, "vs"@, "hardware"@);
    let vs_ppu = spec_read_attribute(c, "vs"@, "ppu"@);
    let mirroring = required(spec_read_attribute(c, "pcb"@, "mirroring"@));
    if full_hash is None || prg_rom_hash is None || mapper is None || submapper is None || battery is None
        || prg_rom_size is None || prg_work_ram_size is None || prg_save_ram_size is None || chr_rom_size is None
        || chr_work_ram_size is None || chr_save_ram_size is None || console_type is None || region is None
        || expansion is None || chr_rom_hash is Err || misc_roms is Err || vs_hardware is Err || vs_ppu is Err
        || mirroring is None
        || (chr_rom_hash matches Ok(Some(t)) && hex_u32(Some(t)) is None)
        || (misc_roms matches Ok(Some(t)) && decimal(Some(t), u8::MAX as nat) is None)
        || (vs_hardware matches Ok(Some(_)) && vs_ppu matches Ok(Some(_))
            && (decimal(vs_hardware->Ok_0, u8::MAX as nat) is None || decimal(vs_ppu->Ok_0, u8::MAX as nat) is None)) {
        None
    } else {
        let both_vs = vs_hardware matches Ok(Some(_)) && vs_ppu matches Ok(Some(_));
        Some(CartridgeMetadata {
            mapper_number: Some(mapper->Some_0 as u16),
            submapper_number: match spec_parse_unsigned(submapper->Some_0, 10, u8::MAX as nat) {
                Some(n) => Some(n as u8),
                None => None,
            },
            prg_rom_size: Some(prg_rom_size->Some_0 as u32),
            prg_work_ram_size: prg_work_ram_size,
            prg_save_ram_size: prg_save_ram_size,
            chr_rom_size: chr_rom_size,
            chr_work_ram_size: chr_work_ram_size,
            chr_save_ram_size: chr_save_ram_size,
            has_persistent_memory: Some(battery->Some_0 == "1"@),
            name_table_mirroring_index: None,
            name_table_mirroring_code: if mirroring->Some_0.len() == 1 { Some(mirroring->Some_0[0]) } else { None },
            console_type: Some(spec_console_type(console_type->Some_0 as u8)),
            timing_mode: Some(TimingMode::spec_from_u8(region->Some_0 as u8)),
            miscellaneous_rom_count: match misc_roms {
                Ok(Some(t)) => Some(decimal(Some(t), u8::MAX as nat)->Some_0 as u8),
                _ => None,
            },
            default_expansion_device: Some(expansion->Some_0 as u8),
            vs_hardware_type: if both_vs { Some(decimal(vs_hardware->Ok_0, u8::MAX as nat)->Some_0 as u8) } else { None },
            vs_ppu_type: if both_vs { Some(decimal(vs_ppu->Ok_0, u8::MAX as nat)->Some_0 as u8) } else { None },
            full_hash: full_hash,
            prg_rom_hash: prg_rom_hash,
            chr_rom_hash: match chr_rom_hash {
                Ok(Some(t)) => hex_u32(Some(t)),
                _ => None,
            },
        })
    }
}

/// The children of the `game` elements, in document order.
pub open spec fn spec_game_elements(nodes: Seq<XmlNode>) -> Seq<Seq<XmlChild>>
    decreases nodes.len(),
{
    if nodes.len() == 0 {
        Seq::empty()
    } else {
        let games = spec_game_elements(nodes.drop_last());
        if nodes.last().0 == "game"@ {
            games.push(nodes.last().1)
        } else {
            games
        }
    }
}

/// The metadata of every game, or the index of the first game that can't be read.
pub open spec fn spec_games_metadata(games: Seq<Seq<XmlChild>>) -> Result<Seq<CartridgeMetadata>, nat>
    decreases games.len(),
{
    if games.len() == 0 {
        Ok(Seq::empty())
    } else {
        match spec_games_metadata(games.drop_last()) {
            Err(index) => Err(index),
            Ok(metadata) => match spec_game_metadata(games.last()) {
                None => Err((games.len() - 1) as nat),
                Some(m) => Ok(metadata.push(m)),
            },
        }
    }
}

/// The games of a database text, or why it was refused.
pub open spec fn spec_read_games(text: Seq<char>) -> Result<Seq<CartridgeMetadata>, HeaderDbError> {
    match xml_nodes(text) {
        None => Err(HeaderDbError::NotXml),
        Some(nodes) => match spec_games_metadata(spec_game_elements(nodes)) {
            Err(index) => Err(HeaderDbError::BadGame { index: index as usize }),
            Ok(games) => Ok(games),
        },
    }
}

fn same_chars(a: &Vec<char>, b: &Vec<char>) -> (r: bool)
    ensures
        r == (a@ == b@),
{
    if a.len() != b.len() {
        return false;
    }
    let mut i: usize = 0;
    while i < a.len()
        invariant
            a@.len() == b@.len(),
            i <= a@.len(),
            forall|j: int| 0 <= j < i ==> a@[j] == b@[j],
        decreases a@.len() - i,
    {
        if a[i] != b[i] {
            return false;
        }
        i = i + 1;
    }
    assert(a@ =~= b@);
    true
}

fn find_attribute(attributes: &Vec<(Vec<char>, Vec<char>)>, name: &Vec<char>) -> (r: Option<Vec<char>>)
    ensures
        r matches Some(v) ==> first_attribute(attributes.deep_view(), name@) == Some(v@),
        r is None ==> first_attribute(attributes.deep_view(), name@) is None,
{
    let mut i: usize = 0;
    assert(attributes.deep_view().skip(0) =~= attributes.deep_view());
    while i < attributes.len()
        invariant
            i <= attributes@.len(),
            first_attribute(attributes.deep_view(), name@) == first_attribute(attributes.deep_view().skip(i as int), name@),
        decreases attributes@.len() - i,
    {
        let ghost rest = attributes.deep_view().skip(i as int);
        proof {
            assert(rest[0] == attributes@[i as int].deep_view());
            assert(rest.drop_first() =~= attributes.deep_view().skip(i + 1));
            assert(attributes@[i as int].0.deep_view() =~= attributes@[i as int].0@);
            assert(attributes@[i as int].1.deep_view() =~= attributes@[i as int].1@);
        }
        if same_chars(&attributes[i].0, name) {
            return Some(attributes[i].1.clone());
        }
        i = i + 1;
    }
    None
}

fn find_child<'a>(children: &'a Vec<(Vec<char>, Vec<(Vec<char>, Vec<char>)>)>, tag: &Vec<char>) -> (r: Option<&'a Vec<(Vec<char>, Vec<char>)>>)
    ensures
        r matches Some(a) ==> first_child(children.deep_view(), tag@) == Some(a.deep_view()),
        r is None ==> first_child(children.deep_view(), tag@) is None,
{
    let mut i: usize = 0;
    assert(children.deep_view().skip(0) =~= children.deep_view());
    while i < children.len()
        invariant
            i <= children@.len(),
            first_child(children.deep_view(), tag@) == first_child(children.deep_view().skip(i as int), tag@),
        decreases children@.len() - i,
    {
        let ghost rest = children.deep_view().skip(i as int);
        proof {
            assert(rest[0] == children@[i as int].deep_view());
            assert(rest.drop_first() =~= children.deep_view().skip(i + 1));
            assert(children@[i as int].0.deep_view() =~= children@[i as int].0@);
        }
        if same_chars(&children[i].0, tag) {
            return Some(&children[i].1);
        }
        i = i + 1;
    }
    None
}

/// An attribute of a child element: `Ok(None)` when there is no such child, and an error when
/// the child lacks the attribute.
fn read_attribute(children: &Vec<(Vec<char>, Vec<(Vec<char>, Vec<char>)>)>, tag: &str, name: &str) -> (r: Result<Option<Vec<char>>, ()>)
    ensures
        r matches Ok(Some(v)) ==> spec_read_attribute(children.deep_view(), tag@, name@) == Ok::<Option<Seq<char>>, ()>(Some(v@)),
        r matches Ok(None) ==> spec_read_attribute(children.deep_view(), tag@, name@) == Ok::<Option<Seq<char>>, ()>(None),
        r is Err ==> spec_read_attribute(children.deep_view(), tag@, name@) is Err,
{
    let tag = chars_of(tag);
    let name = chars_of(name);
    match find_child(children, &tag) {
        None => Ok(None),
        Some(attributes) => match find_attribute(attributes, &name) {
            None => Err(()),
            Some(value) => Ok(Some(value)),
        },
    }
}

fn required_value(read: Result<Option<Vec<char>>, ()>) -> (r: Option<Vec<char>>)
    ensures
        r matches Some(v) ==> read matches Ok(Some(w)) && v@ == w@,
        r is None ==> !(read matches Ok(Some(_))),
{
    match read {
        Ok(Some(value)) => Some(value),
        _ => None,
    }
}

fn optional_size_of(read: Result<Option<Vec<char>>, ()>) -> (r: Option<u32>)
    ensures
        r == optional_size(match read {
            Ok(Some(v)) => Ok::<Option<Seq<char>>, ()>(Some(v@)),
            Ok(None) => Ok::<Option<Seq<char>>, ()>(None),
            Err(()) => Err::<Option<Seq<char>>, ()>(()),
        }),
{
    match read {
        Err(()) => None,
        Ok(None) => Some(0),
        Ok(Some(text)) => parse_unsigned(&text, 10, 0xFFFF_FFFF),
    }
}

/// The metadata of a `game` element, from its children; nothing when a required entry is
/// missing or unreadable.
fn game_metadata(c: &Vec<(Vec<char>, Vec<(Vec<char>, Vec<char>)>)>) -> (r: Option<CartridgeMetadata>)
    ensures
        r == spec_game_metadata(c.deep_view()),
{
    proof {
        reveal(spec_game_metadata);
    }
    let full = required_value(read_attribute(c, "rom", "crc32"));
    let prg = required_value(read_attribute(c, "prgrom", "crc32"));
    let mapper = required_value(read_attribute(c, "pcb", "mapper"));
    let submapper = required_value(read_attribute(c, "pcb", "submapper"));
    let battery = required_value(read_attribute(c, "pcb", "battery"));
    let prg_rom_size = required_value(read_attribute(c, "prgrom", "size"));
    let prg_work_ram_size = optional_size_of(read_attribute(c, "prgram", "size"));
    let prg_save_ram_size = optional_size_of(read_attribute(c, "prgnvram", "size"));
    let chr_rom_size = optional_size_of(read_attribute(c, "chrrom", "size"));
    let chr_work_ram_size = optional_size_of(read_attribute(c, "chrram", "size"));
    let chr_save_ram_size = optional_size_of(read_attribute(c, "chrnvram", "size"));
    let console_type = required_value(read_attribute(c, "console", "type"));
    let region = required_value(read_attribute(c, "console", "region"));
    let expansion = required_value(read_attribute(c, "expansion", "type"));
    let chr_rom_hash = read_attribute(c, "chrrom", "crc32");
    let misc_roms = read_attribute(c, "miscrom", "number");
    let vs_hardware = read_attribute(c, "vs", "hardware");
    let vs_ppu = read_attribute(c, "vs", "ppu");
    let mirroring = required_value(read_attribute(c, "pcb", "mirroring"));

    let full_hash = match full { Some(t) => parse_unsigned(&t, 16, 0xFFFF_FFFF), None => None };
    let prg_rom_hash = match prg { Some(t) => parse_unsigned(&t, 16, 0xFFFF_FFFF), None => None };
    let mapper_number = match mapper { Some(t) => parse_unsigned(&t, 10, 0xFFFF), None => None };
    let prg_rom_size = match prg_rom_size { Some(t) => parse_unsigned(&t, 10, 0xFFFF_FFFF), None => None };
    let console_number = match console_type { Some(t) => parse_unsigned(&t, 10, 0xFF), None => None };
    let region_number = match region { Some(t) => parse_unsigned(&t, 10, 3), None => None };
    let expansion_number = match expansion { Some(t) => parse_unsigned(&t, 10, 0xFF), None => None };
    let chr_hash = match &chr_rom_hash { Ok(Some(t)) => parse_unsigned(t, 16, 0xFFFF_FFFF), _ => None };
    let misc_count = match &misc_roms { Ok(Some(t)) => parse_unsigned(t, 10, 0xFF), _ => None };
    let hardware_number = match &vs_hardware { Ok(Some(t)) => parse_unsigned(t, 10, 0xFF), _ => None };
    let ppu_number = match &vs_ppu { Ok(Some(t)) => parse_unsigned(t, 10, 0xFF), _ => None };
    let both_vs = matches!(vs_hardware, Ok(Some(_))) && matches!(vs_ppu, Ok(Some(_)));

    if full_hash.is_none() || prg_rom_hash.is_none() || mapper_number.is_none() || submapper.is_none()
        || battery.is_none() || prg_rom_size.is_none() || prg_work_ram_size.is_none()
        || prg_save_ram_size.is_none() || chr_rom_size.is_none() || chr_work_ram_size.is_none()
        || chr_save_ram_size.is_none() || console_number.is_none() || region_number.is_none()
        || expansion_number.is_none() || chr_rom_hash.is_err() || misc_roms.is_err() || vs_hardware.is_err()
        || vs_ppu.is_err() || mirroring.is_none()
        || (matches!(chr_rom_hash, Ok(Some(_))) && chr_hash.is_none())
        || (matches!(misc_roms, Ok(Some(_))) && misc_count.is_none())
        || (both_vs && (hardware_number.is_none() || ppu_number.is_none())) {
        return None;
    }
    let submapper_number = match &submapper {
        Some(t) => match parse_unsigned(t, 10, 0xFF) {
            Some(n) => Some(n as u8),
            None => None,
        },
        None => None,
    };
    let one = chars_of("1");
    let has_battery = match &battery { Some(t) => same_chars(t, &one), None => false };
    let console = match console_number.unwrap() {
        0 => ConsoleType::NesFamiconDendy,
        1 => ConsoleType::Vs,
        2 => ConsoleType::PlayChoice10,
        n => ConsoleType::Extended(n as u8),
    };
    let mut metadata = CartridgeMetadata::empty();
    metadata.mapper_number = Some(mapper_number.unwrap() as u16);
    metadata.submapper_number = submapper_number;
    metadata.prg_rom_size = Some(prg_rom_size.unwrap());
    metadata.prg_work_ram_size = prg_work_ram_size;
    metadata.prg_save_ram_size = prg_save_ram_size;
    metadata.chr_rom_size = chr_rom_size;
    metadata.chr_work_ram_size = chr_work_ram_size;
    metadata.chr_save_ram_size = chr_save_ram_size;
    metadata.has_persistent_memory = Some(has_battery);
    metadata.console_type = Some(console);
    metadata.timing_mode = Some(TimingMode::from_u8(region_number.unwrap() as u8));
    metadata.miscellaneous_rom_count = match misc_count { Some(n) => Some(n as u8), None => None };
    metadata.default_expansion_device = Some(expansion_number.unwrap() as u8);
    if both_vs {
        metadata.vs_hardware_type = Some(hardware_number.unwrap() as u8);
        metadata.vs_ppu_type = Some(ppu_number.unwrap() as u8);
    }
    metadata.full_hash = full_hash;
    metadata.prg_rom_hash = prg_rom_hash;
    metadata.chr_rom_hash = chr_hash;
    metadata.name_table_mirroring_code = match &mirroring {
        Some(code) => if code.len() == 1 { Some(code[0]) } else { None },
        None => None,
    };
    Some(metadata)
}

/// The game elements among the first nodes come first among the game elements of all of them.
proof fn lemma_game_elements_prefix(nodes: Seq<XmlNode>, i: int)
    requires
        0 <= i <= nodes.len(),
    ensures
        spec_game_elements(nodes.take(i)).len() <= spec_game_elements(nodes).len(),
        spec_game_elements(nodes).take(spec_game_elements(nodes.take(i)).len() as int)
            == spec_game_elements(nodes.take(i)),
    decreases nodes.len(),
{
    if i == nodes.len() {
        assert(nodes.take(i) =~= nodes);
        assert(spec_game_elements(nodes).take(spec_game_elements(nodes).len() as int) =~= spec_game_elements(nodes));
    } else {
        let rest = nodes.drop_last();
        lemma_game_elements_prefix(rest, i);
        assert(rest.take(i) =~= nodes.take(i));
        let g = spec_game_elements(rest);
        let k = spec_game_elements(nodes.take(i)).len() as int;
        if nodes.last().0 == "game"@ {
            assert(g.push(nodes.last().1).take(k) =~= g.take(k));
        }
    }
}

/// Once a game can't be read, that game is the answer however many games follow.
proof fn lemma_games_error_persists(games: Seq<Seq<XmlChild>>, n: int)
    requires
        0 <= n <= games.len(),
        spec_games_metadata(games.take(n)) is Err,
    ensures
        spec_games_metadata(games) == spec_games_metadata(games.take(n)),
    decreases games.len() - n,
{
    if n < games.len() {
        assert(games.take(n + 1).drop_last() =~= games.take(n));
        lemma_games_error_persists(games, n + 1);
    } else {
        assert(games.take(n) =~= games);
    }
}

/// Reads the games of a database text (an XML document with a `game` element for each ROM).
pub fn read_games(text: &str) -> (r: Result<Vec<CartridgeMetadata>, HeaderDbError>)
    ensures
        r matches Ok(games) ==> spec_read_games(text@) == Ok::<Seq<CartridgeMetadata>, HeaderDbError>(games@),
        r matches Err(e) ==> spec_read_games(text@) == Err::<Seq<CartridgeMetadata>, HeaderDbError>(e),
{
    let nodes = match parse_xml_nodes(text) {
        None => return Err(HeaderDbError::NotXml),
        Some(nodes) => nodes,
    };
    let ghost all = nodes.deep_view();
    assert(xml_nodes(text@) == Some(all));
    let game_tag = chars_of("game");
    let mut games: Vec<CartridgeMetadata> = Vec::new();
    let mut count: usize = 0;
    let mut i: usize = 0;
    proof {
        assert(all.take(0) =~= Seq::<XmlNode>::empty());
    }
    while i < nodes.len()
        invariant
            i <= nodes@.len(),
            all == nodes.deep_view(),
            xml_nodes(text@) == Some(all),
            game_tag@ == "game"@,
            count == spec_game_elements(all.take(i as int)).len(),
            count <= i,
            spec_games_metadata(spec_game_elements(all.take(i as int))) == Ok::<Seq<CartridgeMetadata>, nat>(games@),
        decreases nodes@.len() - i,
    {
        let ghost before = spec_game_elements(all.take(i as int));
        proof {
            assert(all.take(i + 1).drop_last() =~= all.take(i as int));
            assert(all.take(i + 1).last() == nodes@[i as int].deep_view());
            assert(nodes@[i as int].0.deep_view() =~= nodes@[i as int].0@);
        }
        if same_chars(&nodes[i].0, &game_tag) {
            let ghost after = spec_game_elements(all.take(i + 1));
            assert(after == before.push(nodes@[i as int].1.deep_view()));
            assert(after.drop_last() =~= before);
            match game_metadata(&nodes[i].1) {
                None => {
                    proof {
                        assert(after.last() == nodes@[i as int].1.deep_view());
                        assert(spec_games_metadata(after) == Err::<Seq<CartridgeMetadata>, nat>(count as nat));
                        lemma_game_elements_prefix(all, i + 1);
                        let games_all = spec_game_elements(all);
                        assert(games_all.take(after.len() as int) == after);
                        lemma_games_error_persists(games_all, after.len() as int);
                        assert(spec_games_metadata(games_all) == Err::<Seq<CartridgeMetadata>, nat>(count as nat));
                        assert(xml_nodes(text@) == Some(all));
                    }
                    return Err(HeaderDbError::BadGame { index: count });
                },
                Some(metadata) => {
                    games.push(metadata);
                },
            }
            count = count + 1;
        }
        i = i + 1;
    }
    proof {
        assert(all.take(i as int) =~= all);
    }
    Ok(games)
}

/// The metadata read from a `game` element has both of the ROM's hashes.
pub proof fn lemma_game_metadata_has_hashes(c: Seq<XmlChild>)
    ensures
        spec_game_metadata(c) matches Some(m) ==> m.full_hash is Some && m.prg_rom_hash is Some,
{
    reveal(spec_game_metadata);
}

/// A game's metadata takes each memory size from the `size` of the child that names that memory
/// (zero when the child is absent): PRG ROM from `prgrom`, PRG work RAM from `prgram`, PRG save
/// RAM from `prgnvram`, CHR ROM from `chrrom`, CHR work RAM from `chrram` and CHR save RAM from
/// `chrnvram`; the checksums from the `crc32` of `rom` and `prgrom`; the mapper number from
/// `pcb`'s `mapper`, and the battery from whether `pcb`'s `battery` is "1".
pub proof fn lemma_game_metadata_reads_its_children(c: Seq<XmlChild>)
    ensures
        spec_game_metadata(c) matches Some(m) ==> {
            &&& m.prg_rom_size == optional_size(spec_read_attribute(c, "prgrom"@, "size"@))
            &&& m.prg_work_ram_size == optional_size(spec_read_attribute(c, "prgram"@, "size"@))
            &&& m.prg_save_ram_size == optional_size(spec_read_attribute(c, "prgnvram"@, "size"@))
            &&& m.chr_rom_size == optional_size(spec_read_attribute(c, "chrrom"@, "size"@))
            &&& m.chr_work_ram_size == optional_size(spec_read_attribute(c, "chrram"@, "size"@))
            &&& m.chr_save_ram_size == optional_size(spec_read_attribute(c, "chrnvram"@, "size"@))
            &&& m.full_hash == hex_u32(required(spec_read_attribute(c, "rom"@, "crc32"@)))
            &&& m.prg_rom_hash == hex_u32(required(spec_read_attribute(c, "prgrom"@, "crc32"@)))
            &&& m.mapper_number matches Some(n)
                && decimal(required(spec_read_attribute(c, "pcb"@, "mapper"@)), u16::MAX as nat) == Some(n as nat)
            &&& m.has_persistent_memory == Some(required(spec_read_attribute(c, "pcb"@, "battery"@)) == Some("1"@))
            &&& m.submapper_number matches Some(n)
                ==> decimal(required(spec_read_attribute(c, "pcb"@, "submapper"@)), u8::MAX as nat) == Some(n as nat)
            &&& m.console_type matches Some(t) && decimal(required(spec_read_attribute(c, "console"@, "type"@)), u8::MAX as nat)
                matches Some(n) && t == spec_console_type(n as u8)
            &&& m.timing_mode matches Some(t) && decimal(required(spec_read_attribute(c, "console"@, "region"@)), 3)
                matches Some(n) && t == TimingMode::spec_from_u8(n as u8)
            &&& m.default_expansion_device matches Some(d)
                && decimal(required(spec_read_attribute(c, "expansion"@, "type"@)), u8::MAX as nat) == Some(d as nat)
            &&& m.chr_rom_hash == hex_u32(required(spec_read_attribute(c, "chrrom"@, "crc32"@)))
            &&& m.miscellaneous_rom_count matches Some(n)
                ==> decimal(required(spec_read_attribute(c, "miscrom"@, "number"@)), u8::MAX as nat) == Some(n as nat)
            &&& m.vs_hardware_type matches Some(n)
                ==> decimal(required(spec_read_attribute(c, "vs"@, "hardware"@)), u8::MAX as nat) == Some(n as nat)
            &&& m.vs_ppu_type matches Some(n)
                ==> decimal(required(spec_read_attribute(c, "vs"@, "ppu"@)), u8::MAX as nat) == Some(n as nat)
        },
        spec_game_metadata(c) is Some && spec_read_attribute(c, "chrnvram"@, "size"@) == Ok::<Option<Seq<char>>, ()>(None)
            ==> spec_game_metadata(c)->Some_0.chr_save_ram_size == Some(0u32),
        spec_game_metadata(c) is Some && spec_read_attribute(c, "prgnvram"@, "size"@) == Ok::<Option<Seq<char>>, ()>(None)
            ==> spec_game_metadata(c)->Some_0.prg_save_ram_size == Some(0u32),
{
    reveal(spec_game_metadata);
}

} // verus!
