use vstd::prelude::*;

use crate::cartridge::cartridge_metadata::CartridgeMetadata;
use crate::cartridge::game_entries::{lemma_game_metadata_has_hashes, read_games, spec_game_elements, spec_games_metadata, spec_read_games, xml_nodes, HeaderDbError};
use crate::cartridge::game_entries::XmlChild;
use std::collections::BTreeMap;

verus! {

broadcast use vstd::std_specs::btree::group_btree_axioms, vstd::laws_cmp::group_laws_cmp;

/// A table entry: full file hash, PRG ROM hash, mapper number, submapper number.
pub type SubmapperEntry = (u32, u32, u16, u8);

/// Submapper numbers that replace the ones that a ROM's header gives.
pub open spec fn spec_override_submapper_numbers() -> Seq<SubmapperEntry> {
    seq![
        (0x271C9FDDu32, 0x630BE870u32, 4u16, 99u8),
    ]
}

/// Submapper numbers for ROMs that aren't in the header database (mostly test ROMs).
pub open spec fn spec_missing_rom_submapper_numbers() -> Seq<SubmapperEntry> {
    seq![
        (0x672D3D63u32, 0xB5AA2FE2u32, 3u16, 1u8),
        (0xDF3CC59Bu32, 0xD08945A8u32, 3u16, 1u8),
        (0xF3424705u32, 0x0419F991u32, 3u16, 1u8),
        (0x93E02802u32, 0x2217DD01u32, 3u16, 1u8),
        (0x17F0953Du32, 0x175E01BFu32, 3u16, 1u8),
        (0xEDEA4AF1u32, 0xCE4AFCDCu32, 3u16, 1u8),
        (0x8E96BA66u32, 0xE8915AEDu32, 2u16, 1u8),
        (0x36FA0965u32, 0xE8915AEDu32, 2u16, 1u8),
        (0x253EDA21u32, 0xE8915AEDu32, 2u16, 2u8),
        (0x8B11DAE5u32, 0xD87AD61Eu32, 3u16, 1u8),
        (0xA5090AF4u32, 0xD87AD61Eu32, 3u16, 1u8),
        (0xD7207AC7u32, 0xD87AD61Eu32, 3u16, 2u8),
        (0x475297ECu32, 0x66755EDBu32, 7u16, 1u8),
        (0xFF3E24EFu32, 0x66755EDBu32, 7u16, 1u8),
        (0xECFAF7ABu32, 0x66755EDBu32, 7u16, 2u8),
        (0x10285C08u32, 0xCBB98D7Eu32, 7u16, 1u8),
        (0x8448D2DEu32, 0xCBB98D7Eu32, 34u16, 2u8),
        (0x0ABC6A1Eu32, 0xCBB98D7Eu32, 34u16, 2u8),
        (0xE48E63E4u32, 0xBC6BDB81u32, 2u16, 1u8),
        (0x1811EEA1u32, 0xC4B8677Au32, 3u16, 1u8),
        (0x2728D88Fu32, 0xBC6BDB81u32, 7u16, 1u8),
        (0x30D6E090u32, 0xBC6BDB81u32, 34u16, 2u8),
        (0xA407ABD7u32, 0xBC6BDB81u32, 78u16, 3u8),
        (0x452BD6DEu32, 0xBCB4850Fu32, 1u16, 0u8),
        (0x81DD9A27u32, 0x5CDF99DFu32, 1u16, 0u8),
        (0xA4400963u32, 0x2328D92u32, 1u16, 0u8),
        (0x321DD294u32, 0xFB088D24u32, 4u16, 0u8),
        (0x57161F2Bu32, 0xF3D9138Bu32, 4u16, 0u8),
        (0xD1F4C403u32, 0x5AE84FBDu32, 4u16, 0u8),
        (0xBF8EED32u32, 0x815F36C1u32, 4u16, 0u8),
        (0xDE44F4E3u32, 0xC5DE666Bu32, 4u16, 0u8),
        (0x9F1A68EDu32, 0xADB8D4DDu32, 4u16, 1u8),
        (0x51CF10D1u32, 0xBF5C8C2Au32, 4u16, 0u8),
        (0x89F15C7Au32, 0x6762C081u32, 4u16, 0u8),
        (0x1EB478B7u32, 0xF027E44Cu32, 4u16, 0u8),
        (0x1A3DB8DCu32, 0xF4AE2427u32, 4u16, 0u8),
        (0x1D814D25u32, 0xF312D1DEu32, 4u16, 99u8),
        (0x81A3248Du32, 0x6F30B876u32, 4u16, 0u8),
        (0x7700E53Bu32, 0x1859EA56u32, 7u16, 1u8),
        (0x2844DA7Cu32, 0x471DD511u32, 7u16, 1u8),
        (0xFEC27D2Fu32, 0x919B7242u32, 7u16, 1u8),
        (0x4F8FF278u32, 0x165324EAu32, 1u16, 0u8),
        (0x254A4EAu32, 0x7E0FAEE4u32, 7u16, 1u8),
        (0xAD2966D3u32, 0x33CE3FF0u32, 85u16, 2u8),
        (0xB4054B51u32, 0x6269AC9Au32, 10u16, 5u8),
        (0xF458222Cu32, 0xB84451FBu32, 7u16, 1u8),
        (0xB4054B51u32, 0x6269AC9Au32, 16u16, 4u8),
    ]
}

fn override_submapper_numbers() -> (r: Vec<SubmapperEntry>)
    ensures
        r@ == spec_override_submapper_numbers(),
{
    let r = vec![
        (0x271C9FDDu32, 0x630BE870u32, 4u16, 99u8),
    ];
    assert(r@ =~= spec_override_submapper_numbers());
    r
}

fn missing_rom_submapper_numbers() -> (r: Vec<SubmapperEntry>)
    ensures
        r@ == spec_missing_rom_submapper_numbers(),
{
    let r = vec![
        (0x672D3D63u32, 0xB5AA2FE2u32, 3u16, 1u8),
        (0xDF3CC59Bu32, 0xD08945A8u32, 3u16, 1u8),
        (0xF3424705u32, 0x0419F991u32, 3u16, 1u8),
        (0x93E02802u32, 0x2217DD01u32, 3u16, 1u8),
        (0x17F0953Du32, 0x175E01BFu32, 3u16, 1u8),
        (0xEDEA4AF1u32, 0xCE4AFCDCu32, 3u16, 1u8),
        (0x8E96BA66u32, 0xE8915AEDu32, 2u16, 1u8),
        (0x36FA0965u32, 0xE8915AEDu32, 2u16, 1u8),
        (0x253EDA21u32, 0xE8915AEDu32, 2u16, 2u8),
        (0x8B11DAE5u32, 0xD87AD61Eu32, 3u16, 1u8),
        (0xA5090AF4u32, 0xD87AD61Eu32, 3u16, 1u8),
        (0xD7207AC7u32, 0xD87AD61Eu32, 3u16, 2u8),
        (0x475297ECu32, 0x66755EDBu32, 7u16, 1u8),
        (0xFF3E24EFu32, 0x66755EDBu32, 7u16, 1u8),
        (0xECFAF7ABu32, 0x66755EDBu32, 7u16, 2u8),
        (0x10285C08u32, 0xCBB98D7Eu32, 7u16, 1u8),
        (0x8448D2DEu32, 0xCBB98D7Eu32, 34u16, 2u8),
        (0x0ABC6A1Eu32, 0xCBB98D7Eu32, 34u16, 2u8),
        (0xE48E63E4u32, 0xBC6BDB81u32, 2u16, 1u8),
        (0x1811EEA1u32, 0xC4B8677Au32, 3u16, 1u8),
        (0x2728D88Fu32, 0xBC6BDB81u32, 7u16, 1u8),
        (0x30D6E090u32, 0xBC6BDB81u32, 34u16, 2u8),
        (0xA407ABD7u32, 0xBC6BDB81u32, 78u16, 3u8),
        (0x452BD6DEu32, 0xBCB4850Fu32, 1u16, 0u8),
        (0x81DD9A27u32, 0x5CDF99DFu32, 1u16, 0u8),
        (0xA4400963u32, 0x2328D92u32, 1u16, 0u8),
        (0x321DD294u32, 0xFB088D24u32, 4u16, 0u8),
        (0x57161F2Bu32, 0xF3D9138Bu32, 4u16, 0u8),
        (0xD1F4C403u32, 0x5AE84FBDu32, 4u16, 0u8),
        (0xBF8EED32u32, 0x815F36C1u32, 4u16, 0u8),
        (0xDE44F4E3u32, 0xC5DE666Bu32, 4u16, 0u8),
        (0x9F1A68EDu32, 0xADB8D4DDu32, 4u16, 1u8),
        (0x51CF10D1u32, 0xBF5C8C2Au32, 4u16, 0u8),
        (0x89F15C7Au32, 0x6762C081u32, 4u16, 0u8),
        (0x1EB478B7u32, 0xF027E44Cu32, 4u16, 0u8),
        (0x1A3DB8DCu32, 0xF4AE2427u32, 4u16, 0u8),
        (0x1D814D25u32, 0xF312D1DEu32, 4u16, 99u8),
        (0x81A3248Du32, 0x6F30B876u32, 4u16, 0u8),
        (0x7700E53Bu32, 0x1859EA56u32, 7u16, 1u8),
        (0x2844DA7Cu32, 0x471DD511u32, 7u16, 1u8),
        (0xFEC27D2Fu32, 0x919B7242u32, 7u16, 1u8),
        (0x4F8FF278u32, 0x165324EAu32, 1u16, 0u8),
        (0x254A4EAu32, 0x7E0FAEE4u32, 7u16, 1u8),
        (0xAD2966D3u32, 0x33CE3FF0u32, 85u16, 2u8),
        (0xB4054B51u32, 0x6269AC9Au32, 10u16, 5u8),
        (0xF458222Cu32, 0xB84451FBu32, 7u16, 1u8),
        (0xB4054B51u32, 0x6269AC9Au32, 16u16, 4u8),
    ];
    assert(r@ =~= spec_missing_rom_submapper_numbers());
    r
}

/// Game metadata keyed by a hash: each game under its hash, later games replacing earlier ones.
pub open spec fn spec_index_by(games: Seq<CartridgeMetadata>, by_full_hash: bool) -> Map<u32, CartridgeMetadata>
    decreases games.len(),
{
    if games.len() == 0 {
        Map::empty()
    } else {
        let last = games.last();
        let key = if by_full_hash { last.full_hash.unwrap() } else { last.prg_rom_hash.unwrap() };
        spec_index_by(games.drop_last(), by_full_hash).insert(key, last)
    }
}

/// A submapper table keyed by one of its hashes: the mapper number and metadata that holds only
/// the mapper and submapper numbers, later entries replacing earlier ones.
pub open spec fn spec_table_by(table: Seq<SubmapperEntry>, by_full_hash: bool) -> Map<u32, (u16, CartridgeMetadata)>
    decreases table.len(),
{
    if table.len() == 0 {
        Map::empty()
    } else {
        let (full, prg, mapper, submapper) = table.last();
        let key = if by_full_hash { full } else { prg };
        spec_table_by(table.drop_last(), by_full_hash).insert(key, (mapper, CartridgeMetadata {
            mapper_number: Some(mapper),
            submapper_number: Some(submapper),
            ..CartridgeMetadata::spec_empty()
        }))
    }
}

/// Every game of the database has both hashes.
pub open spec fn games_are_hashed(games: Seq<CartridgeMetadata>) -> bool {
    forall|i: int| 0 <= i < games.len() ==> (#[trigger] games[i]).full_hash is Some && games[i].prg_rom_hash is Some
}

/// No ROM is both in the database and in the table of ROMs missing from it.
pub open spec fn extension_is_disjoint(games: Seq<CartridgeMetadata>) -> bool {
    forall|i: int| 0 <= i < spec_missing_rom_submapper_numbers().len() ==> {
        &&& !spec_index_by(games, true).contains_key(#[trigger] spec_missing_rom_submapper_numbers()[i].0)
        &&& !spec_index_by(games, false).contains_key(spec_missing_rom_submapper_numbers()[i].1)
    }
}

/// Metadata for known ROMs, looked up by the checksum of the whole file or of the PRG ROM.
pub struct HeaderDb {
    metadata_by_full_crc32: BTreeMap<u32, CartridgeMetadata>,
    metadata_by_prg_rom_crc32: BTreeMap<u32, CartridgeMetadata>,
    missing_submapper_numbers_by_full_hash: BTreeMap<u32, (u16, CartridgeMetadata)>,
    missing_submapper_numbers_by_prg_rom_hash: BTreeMap<u32, (u16, CartridgeMetadata)>,
    override_submapper_numbers_by_full_hash: BTreeMap<u32, (u16, CartridgeMetadata)>,
    override_submapper_numbers_by_prg_rom_hash: BTreeMap<u32, (u16, CartridgeMetadata)>,
}

impl HeaderDb {
    pub closed spec fn spec_by_full_hash(&self) -> Map<u32, CartridgeMetadata> { self.metadata_by_full_crc32@ }
    pub closed spec fn spec_by_prg_hash(&self) -> Map<u32, CartridgeMetadata> { self.metadata_by_prg_rom_crc32@ }
    pub closed spec fn spec_missing_by_full_hash(&self) -> Map<u32, (u16, CartridgeMetadata)> { self.missing_submapper_numbers_by_full_hash@ }
    pub closed spec fn spec_missing_by_prg_hash(&self) -> Map<u32, (u16, CartridgeMetadata)> { self.missing_submapper_numbers_by_prg_rom_hash@ }
    pub closed spec fn spec_override_by_full_hash(&self) -> Map<u32, (u16, CartridgeMetadata)> { self.override_submapper_numbers_by_full_hash@ }
    pub closed spec fn spec_override_by_prg_hash(&self) -> Map<u32, (u16, CartridgeMetadata)> { self.override_submapper_numbers_by_prg_rom_hash@ }

    /// Every entry of the submapper tables knows its submapper number.
    pub closed spec fn wf(&self) -> bool {
        &&& submapper_numbers_known(self.override_submapper_numbers_by_full_hash@)
        &&& submapper_numbers_known(self.override_submapper_numbers_by_prg_rom_hash@)
        &&& submapper_numbers_known(self.missing_submapper_numbers_by_full_hash@)
        &&& submapper_numbers_known(self.missing_submapper_numbers_by_prg_rom_hash@)
    }

    /// The database indexes exactly these games, and the built-in tables of submapper numbers.
    pub open spec fn built_from(&self, games: Seq<CartridgeMetadata>) -> bool {
        &&& self.wf()
        &&& self.spec_by_full_hash() == spec_index_by(games, true)
        &&& self.spec_by_prg_hash() == spec_index_by(games, false)
        &&& self.spec_missing_by_full_hash() == spec_table_by(spec_missing_rom_submapper_numbers(), true)
        &&& self.spec_missing_by_prg_hash() == spec_table_by(spec_missing_rom_submapper_numbers(), false)
        &&& self.spec_override_by_full_hash() == spec_table_by(spec_override_submapper_numbers(), true)
        &&& self.spec_override_by_prg_hash() == spec_table_by(spec_override_submapper_numbers(), false)
    }

    /// Reads the header database from its XML text and indexes its games, with the built-in
    /// tables of submapper numbers. Refused when the text can't be read, or when a ROM is both in
    /// the database and in the table of ROMs missing from it.
    pub fn load(xml: &str) -> (r: Result<HeaderDb, HeaderDbError>)
        ensures
            match spec_read_games(xml@) {
                Err(e) => r == Err::<HeaderDb, HeaderDbError>(e),
                Ok(games) => if extension_is_disjoint(games) {
                    r matches Ok(db) && db.built_from(games)
                } else {
                    r == Err::<HeaderDb, HeaderDbError>(HeaderDbError::InDbAndExtension)
                },
            },
    {
        let games = read_games(xml)?;
        proof {
            lemma_read_games_hashed(xml@);
        }
        HeaderDb::from_games(&games)
    }

    /// Indexes games (each with both hashes) and the built-in tables of submapper numbers.
    /// Refused when a ROM is both among the games and in the table of ROMs missing from the
    /// database.
    pub fn from_games(games: &Vec<CartridgeMetadata>) -> (r: Result<HeaderDb, HeaderDbError>)
        requires
            games_are_hashed(games@),
        ensures
            extension_is_disjoint(games@) ==> (r matches Ok(db) && db.built_from(games@)),
            !extension_is_disjoint(games@) ==> r == Err::<HeaderDb, HeaderDbError>(HeaderDbError::InDbAndExtension),
    {
        let metadata_by_full_crc32 = index_games(games, true);
        let metadata_by_prg_rom_crc32 = index_games(games, false);
        let missing = missing_rom_submapper_numbers();
        if in_either_index(&metadata_by_full_crc32, &metadata_by_prg_rom_crc32, &missing) {
            return Err(HeaderDbError::InDbAndExtension);
        }
        let override_numbers = override_submapper_numbers();
        proof {
            lemma_table_submapper_numbers_known(missing@, true);
            lemma_table_submapper_numbers_known(missing@, false);
            lemma_table_submapper_numbers_known(override_numbers@, true);
            lemma_table_submapper_numbers_known(override_numbers@, false);
        }
        Ok(HeaderDb {
            metadata_by_full_crc32,
            metadata_by_prg_rom_crc32,
            missing_submapper_numbers_by_full_hash: index_table(&missing, true),
            missing_submapper_numbers_by_prg_rom_hash: index_table(&missing, false),
            override_submapper_numbers_by_full_hash: index_table(&override_numbers, true),
            override_submapper_numbers_by_prg_rom_hash: index_table(&override_numbers, false),
        })
    }

    /// The database's metadata for a ROM: by the hash of the whole file if it's known, otherwise
    /// by the hash of its PRG ROM.
    pub fn header_from_db(
        &self,
        full_hash: u32,
        prg_hash: u32,
        mapper_number: u16,
        submapper_number: Option<u8>,
    ) -> (r: Option<CartridgeMetadata>)
        ensures
            r == self.spec_db_header(full_hash, prg_hash),
    {
        match self.metadata_by_full_crc32.get(&full_hash) {
            Some(metadata) => return Some(*metadata),
            None => {},
        }
        match self.metadata_by_prg_rom_crc32.get(&prg_hash) {
            Some(metadata) => Some(*metadata),
            None => None,
        }
    }

    /// The database's metadata for a ROM: by the hash of the whole file if it's known, otherwise
    /// by the hash of its PRG ROM.
    pub open spec fn spec_db_header(&self, full_hash: u32, prg_hash: u32) -> Option<CartridgeMetadata> {
        if self.spec_by_full_hash().contains_key(full_hash) {
            Some(self.spec_by_full_hash()[full_hash])
        } else if self.spec_by_prg_hash().contains_key(prg_hash) {
            Some(self.spec_by_prg_hash()[prg_hash])
        } else {
            None
        }
    }

    /// The submapper number that replaces the header's for a ROM, with the hashes it was found by.
    pub fn override_submapper_number(&self, data_hash: u32, prg_hash: u32) -> (r: Option<(u16, u8, u32, u32)>)
        requires
            self.wf(),
        ensures
            r == spec_submapper_lookup(self.spec_override_by_full_hash(), self.spec_override_by_prg_hash(), data_hash, prg_hash),
    {
        lookup_submapper(&self.override_submapper_numbers_by_full_hash, &self.override_submapper_numbers_by_prg_rom_hash, data_hash, prg_hash)
    }

    /// The submapper number for a ROM that the header database lacks, with the hashes it was found by.
    pub fn missing_submapper_number(&self, data_hash: u32, prg_hash: u32) -> (r: Option<(u16, u8, u32, u32)>)
        requires
            self.wf(),
        ensures
            r == spec_submapper_lookup(self.spec_missing_by_full_hash(), self.spec_missing_by_prg_hash(), data_hash, prg_hash),
    {
        lookup_submapper(&self.missing_submapper_numbers_by_full_hash, &self.missing_submapper_numbers_by_prg_rom_hash, data_hash, prg_hash)
    }
}

/// The metadata that a submapper table entry gives a ROM: only when the entry names the ROM's
/// own mapper, its mapper and submapper numbers and the hashes it was found by; otherwise nothing.
pub open spec fn spec_table_metadata(entry: Option<(u16, u8, u32, u32)>, mapper_number: u16) -> CartridgeMetadata {
    if entry is Some && entry->Some_0.0 == mapper_number {
        CartridgeMetadata {
            mapper_number: Some(entry->Some_0.0),
            submapper_number: Some(entry->Some_0.1),
            full_hash: Some(entry->Some_0.2),
            prg_rom_hash: Some(entry->Some_0.3),
            ..CartridgeMetadata::spec_empty()
        }
    } else {
        CartridgeMetadata::spec_empty()
    }
}

fn table_metadata(entry: Option<(u16, u8, u32, u32)>, mapper_number: u16) -> (r: CartridgeMetadata)
    ensures
        r == spec_table_metadata(entry, mapper_number),
{
    match entry {
        Some((number, sub_number, full_hash, prg_hash)) => if number == mapper_number {
            let mut metadata = CartridgeMetadata::with_mapper_and_submapper_number(number, sub_number);
            metadata.full_hash = Some(full_hash);
            metadata.prg_rom_hash = Some(prg_hash);
            metadata
        } else {
            CartridgeMetadata::empty()
        },
        None => CartridgeMetadata::empty(),
    }
}

/// What the header database knows of a ROM, from the metadata its own header gives (which must
/// hold both hashes and the mapper number): the database's metadata for it, if any; the override
/// submapper metadata; and the metadata from the table of ROMs missing from the database. A table
/// entry counts only when it names the ROM's mapper. Refused when the database has the ROM but
/// the PRG ROM sizes are not both known and equal.
pub fn resolve_db_metadata(
    db: &HeaderDb,
    header: &CartridgeMetadata,
) -> (r: Result<(Option<CartridgeMetadata>, CartridgeMetadata, CartridgeMetadata), HeaderDbError>)
    requires
        db.wf(),
        header.full_hash is Some,
        header.prg_rom_hash is Some,
        header.mapper_number is Some,
    ensures
        ({
            let full = header.full_hash.unwrap();
            let prg = header.prg_rom_hash.unwrap();
            let mapper = header.mapper_number.unwrap();
            let found = db.spec_db_header(full, prg);
            if found is Some && (header.prg_rom_size is None || found->Some_0.prg_rom_size != header.prg_rom_size) {
                r == Err::<(Option<CartridgeMetadata>, CartridgeMetadata, CartridgeMetadata), HeaderDbError>(
                    HeaderDbError::PrgRomSizeMismatch)
            } else {
                r == Ok::<(Option<CartridgeMetadata>, CartridgeMetadata, CartridgeMetadata), HeaderDbError>((
                    found,
                    spec_table_metadata(spec_submapper_lookup(db.spec_override_by_full_hash(),
                        db.spec_override_by_prg_hash(), full, prg), mapper),
                    spec_table_metadata(spec_submapper_lookup(db.spec_missing_by_full_hash(),
                        db.spec_missing_by_prg_hash(), full, prg), mapper),
                ))
            }
        }),
{
    let full_hash = header.full_hash.unwrap();
    let prg_hash = header.prg_rom_hash.unwrap();
    let mapper_number = header.mapper_number.unwrap();
    let db_header = db.header_from_db(full_hash, prg_hash, mapper_number, header.submapper_number);
    if let Some(found) = db_header {
        if header.prg_rom_size.is_none() || found.prg_rom_size != header.prg_rom_size {
            return Err(HeaderDbError::PrgRomSizeMismatch);
        }
    }
    let overrides = table_metadata(db.override_submapper_number(full_hash, prg_hash), mapper_number);
    let extension = table_metadata(db.missing_submapper_number(full_hash, prg_hash), mapper_number);
    Ok((db_header, overrides, extension))
}

/// Every entry of a submapper table knows its submapper number.
pub open spec fn submapper_numbers_known(m: Map<u32, (u16, CartridgeMetadata)>) -> bool {
    forall|k: u32| m.contains_key(k) ==> (#[trigger] m[k]).1.submapper_number is Some
}

/// The table entry for a ROM: by the hash of the whole file, otherwise by the hash of the PRG ROM.
pub open spec fn spec_submapper_lookup(
    by_full: Map<u32, (u16, CartridgeMetadata)>,
    by_prg: Map<u32, (u16, CartridgeMetadata)>,
    data_hash: u32,
    prg_hash: u32,
) -> Option<(u16, u8, u32, u32)> {
    if by_full.contains_key(data_hash) {
        Some((by_full[data_hash].0, by_full[data_hash].1.submapper_number.unwrap(), data_hash, prg_hash))
    } else if by_prg.contains_key(prg_hash) {
        Some((by_prg[prg_hash].0, by_prg[prg_hash].1.submapper_number.unwrap(), data_hash, prg_hash))
    } else {
        None
    }
}

fn lookup_submapper(
    by_full: &BTreeMap<u32, (u16, CartridgeMetadata)>,
    by_prg: &BTreeMap<u32, (u16, CartridgeMetadata)>,
    data_hash: u32,
    prg_hash: u32,
) -> (r: Option<(u16, u8, u32, u32)>)
    requires
        submapper_numbers_known(by_full@),
        submapper_numbers_known(by_prg@),
    ensures
        r == spec_submapper_lookup(by_full@, by_prg@, data_hash, prg_hash),
{
    match by_full.get(&data_hash) {
        Some(entry) => {
            let (number, header) = *entry;
            return Some((number, header.submapper_number.unwrap(), data_hash, prg_hash));
        },
        None => {},
    }
    match by_prg.get(&prg_hash) {
        Some(entry) => {
            let (number, header) = *entry;
            Some((number, header.submapper_number.unwrap(), data_hash, prg_hash))
        },
        None => None,
    }
}

/// Whether some entry of the table is in one of the indexes: by its full hash in the first, or
/// by its PRG ROM hash in the second.
fn in_either_index(
    by_full: &BTreeMap<u32, CartridgeMetadata>,
    by_prg: &BTreeMap<u32, CartridgeMetadata>,
    table: &Vec<SubmapperEntry>,
) -> (r: bool)
    ensures
        r == exists|i: int| 0 <= i < table@.len()
            && (by_full@.contains_key(#[trigger] table@[i].0) || by_prg@.contains_key(table@[i].1)),
{
    let mut i: usize = 0;
    while i < table.len()
        invariant
            i <= table@.len(),
            forall|j: int| 0 <= j < i ==> !by_full@.contains_key(#[trigger] table@[j].0) && !by_prg@.contains_key(table@[j].1),
        decreases table@.len() - i,
    {
        let (full, prg, _, _) = table[i];
        if by_full.contains_key(&full) || by_prg.contains_key(&prg) {
            return true;
        }
        assert forall|j: int| 0 <= j < i + 1 implies !by_full@.contains_key(#[trigger] table@[j].0)
            && !by_prg@.contains_key(table@[j].1) by {
            if j == i {
                assert(table@[j] == (full, prg, table@[j].2, table@[j].3));
            }
        }
        i = i + 1;
    }
    false
}

fn index_games(games: &Vec<CartridgeMetadata>, by_full_hash: bool) -> (r: BTreeMap<u32, CartridgeMetadata>)
    requires
        games_are_hashed(games@),
    ensures
        r@ == spec_index_by(games@, by_full_hash),
{
    let mut r: BTreeMap<u32, CartridgeMetadata> = BTreeMap::new();
    let mut i: usize = 0;
    while i < games.len()
        invariant
            i <= games@.len(),
            games_are_hashed(games@),
            r@ == spec_index_by(games@.subrange(0, i as int), by_full_hash),
        decreases games@.len() - i,
    {
        let game = games[i];
        let key = if by_full_hash { game.full_hash.unwrap() } else { game.prg_rom_hash.unwrap() };
        r.insert(key, game);
        i = i + 1;
        proof {
            assert(games@.subrange(0, i as int).drop_last() =~= games@.subrange(0, i - 1));
        }
    }
    proof {
        assert(games@.subrange(0, games@.len() as int) =~= games@);
    }
    r
}

fn index_table(table: &Vec<SubmapperEntry>, by_full_hash: bool) -> (r: BTreeMap<u32, (u16, CartridgeMetadata)>)
    ensures
        r@ == spec_table_by(table@, by_full_hash),
{
    let mut r: BTreeMap<u32, (u16, CartridgeMetadata)> = BTreeMap::new();
    let mut i: usize = 0;
    while i < table.len()
        invariant
            i <= table@.len(),
            r@ == spec_table_by(table@.subrange(0, i as int), by_full_hash),
        decreases table@.len() - i,
    {
        let (full, prg, mapper, submapper) = table[i];
        let key = if by_full_hash { full } else { prg };
        let header = CartridgeMetadata::with_mapper_and_submapper_number(mapper, submapper);
        r.insert(key, (mapper, header));
        i = i + 1;
        proof {
            assert(table@.subrange(0, i as int).drop_last() =~= table@.subrange(0, i - 1));
        }
    }
    proof {
        assert(table@.subrange(0, table@.len() as int) =~= table@);
    }
    r
}

/// Every table entry knows its submapper number.
proof fn lemma_table_submapper_numbers_known(table: Seq<SubmapperEntry>, by_full_hash: bool)
    ensures
        submapper_numbers_known(spec_table_by(table, by_full_hash)),
    decreases table.len(),
{
    if table.len() > 0 {
        lemma_table_submapper_numbers_known(table.drop_last(), by_full_hash);
    }
}

/// The games read from a database text each have both hashes.
pub proof fn lemma_read_games_hashed(text: Seq<char>)
    ensures
        spec_read_games(text) matches Ok(games) ==> games_are_hashed(games),
{
    if let Some(nodes) = xml_nodes(text) {
        lemma_games_metadata_hashed(spec_game_elements(nodes));
    }
}

proof fn lemma_games_metadata_hashed(games: Seq<Seq<XmlChild>>)
    ensures
        spec_games_metadata(games) matches Ok(metadata) ==> games_are_hashed(metadata),
    decreases games.len(),
{
    if games.len() > 0 {
        lemma_games_metadata_hashed(games.drop_last());
        lemma_game_metadata_has_hashes(games.last());
    }
}

/// Every game of a loaded database is found by its full hash and by its PRG ROM hash, and what
/// a hash finds is a game with that hash (among games that share a hash, the last one).
pub proof fn lemma_loaded_games_are_found(db: HeaderDb, games: Seq<CartridgeMetadata>, i: int)
    requires
        db.built_from(games),
        games_are_hashed(games),
        0 <= i < games.len(),
    ensures
        db.spec_by_full_hash().contains_key(games[i].full_hash.unwrap()),
        db.spec_by_full_hash()[games[i].full_hash.unwrap()].full_hash == games[i].full_hash,
        db.spec_by_prg_hash().contains_key(games[i].prg_rom_hash.unwrap()),
        db.spec_by_prg_hash()[games[i].prg_rom_hash.unwrap()].prg_rom_hash == games[i].prg_rom_hash,
{
    lemma_index_finds_game(games, i);
}

proof fn lemma_index_finds_game(games: Seq<CartridgeMetadata>, i: int)
    requires
        games_are_hashed(games),
        0 <= i < games.len(),
    ensures
        spec_index_by(games, true).contains_key(games[i].full_hash.unwrap()),
        spec_index_by(games, true)[games[i].full_hash.unwrap()].full_hash == games[i].full_hash,
        spec_index_by(games, false).contains_key(games[i].prg_rom_hash.unwrap()),
        spec_index_by(games, false)[games[i].prg_rom_hash.unwrap()].prg_rom_hash == games[i].prg_rom_hash,
    decreases games.len(),
{
    let rest = games.drop_last();
    if i < games.len() - 1 {
        assert(games_are_hashed(rest)) by {
            assert forall|j: int| 0 <= j < rest.len() implies (#[trigger] rest[j]).full_hash is Some
                && rest[j].prg_rom_hash is Some by {
                assert(rest[j] == games[j]);
            }
        }
        lemma_index_finds_game(rest, i);
        assert(rest[i] == games[i]);
        assert(games.last() == games[games.len() - 1]);
    }
}

} // verus!
