use vstd::prelude::*;

use crate::cartridge::resolved_metadata::ResolvedMetadata;

verus! {

/// The MMC1 boards, told apart by their memory sizes.
#[allow(non_camel_case_types)]
#[derive(PartialEq, Eq, Clone, Copy, Debug, Structural)]
pub enum Board {
    Unknown,
    SAROM,
    SBROM,
    SCROM_SL1ROM,
    SEROM,
    SFROM128,
    SFROM256,
    SGROM,
    SGROM_SMROM,
    SHROM,
    SIROM,
    SJROM,
    SKROM,
    SLROM,
    SNROM,
    SOROM,
    SUROM,
    SXROM,
    SZROM,
}

/// The board that has these memory sizes, in KiB: PRG ROM, PRG work RAM, PRG save RAM,
/// CHR ROM and CHR RAM.
pub open spec fn spec_board_for_sizes(prg_rom: u32, prg_work_ram: u32, prg_save_ram: u32, chr_rom: u32, chr_ram: u32) -> Board {
    match (prg_rom, prg_work_ram, prg_save_ram, chr_rom, chr_ram) {
            (64             ,  8,  0, 16 | 32 | 64, 0) => Board::SAROM,
            (64             ,  0,  8, 16 | 32 | 64, 0) => Board::SAROM,
            (64             ,  0,  0, 16 | 32 | 64, 0) => Board::SBROM,
            (64             ,  0,  0,          128, 0) => Board::SCROM_SL1ROM,
            (32             ,  0,  0, 16 | 32 | 64, 0) => Board::SEROM,
            (128            ,  0,  0, 16 | 32 | 64, 0) => Board::SFROM128,
            (256            ,  0,  0, 16 | 32 | 64, 0) => Board::SFROM256,
            (128            ,  0,  0,            8, 0) => Board::SGROM,
            (128 | 256      ,  0,  0,            0, 8) => Board::SGROM,
            (256            ,  0,  0,            8, 0) => Board::SGROM_SMROM,
            (32             ,  0,  0,          128, 0) => Board::SHROM,
            (32             ,  8,  0, 16 | 32 | 64, 0) => Board::SIROM,
            (128 | 256      ,  8,  0, 16 | 32 | 64, 0) => Board::SJROM,
            (128 | 256      ,  0,  8, 16 | 32 | 64, 0) => Board::SJROM,
            (128 | 256      ,  8,  0,          128, 0) => Board::SKROM,
            (128 | 256      ,  0,  8,          128, 0) => Board::SKROM,
            (128 | 256      ,  0,  0,          128, 0) => Board::SLROM,
            (128 | 256      ,  8,  0,            8, 0) => Board::SNROM,
            (128 | 256      ,  8,  0,            0, 8) => Board::SNROM,
            (128 | 256      ,  0,  8,            8, 0) => Board::SNROM,
            (128 | 256      ,  0,  8,            0, 8) => Board::SNROM,
            (128 | 256      , 16,  0,            8, 0) => Board::SOROM,
            (128 | 256      , 16,  0,            0, 8) => Board::SOROM,
            (      512      ,  8,  0,            8, 0) => Board::SUROM,
            (      512      ,  0,  8,            8, 0) => Board::SUROM,
            (      512      ,  8,  0,            0, 8) => Board::SUROM,
            (      512      ,  0,  8,            0, 8) => Board::SUROM,
            (128 | 256 | 512, 32,  0,            _, _) => Board::SXROM,
            (128 | 256 | 512,  0, 32,            _, _) => Board::SXROM,
            (128 | 256      ,  8,  8, 16 | 32 | 64, 0) => Board::SZROM,
            _ => Board::Unknown,
    }
}

fn board_for_sizes(prg_rom: u32, prg_work_ram: u32, prg_save_ram: u32, chr_rom: u32, chr_ram: u32) -> (r: Board)
    ensures
        r == spec_board_for_sizes(prg_rom, prg_work_ram, prg_save_ram, chr_rom, chr_ram),
{
    match (prg_rom, prg_work_ram, prg_save_ram, chr_rom, chr_ram) {
            (64             ,  8,  0, 16 | 32 | 64, 0) => Board::SAROM,
            (64             ,  0,  8, 16 | 32 | 64, 0) => Board::SAROM,
            (64             ,  0,  0, 16 | 32 | 64, 0) => Board::SBROM,
            (64             ,  0,  0,          128, 0) => Board::SCROM_SL1ROM,
            (32             ,  0,  0, 16 | 32 | 64, 0) => Board::SEROM,
            (128            ,  0,  0, 16 | 32 | 64, 0) => Board::SFROM128,
            (256            ,  0,  0, 16 | 32 | 64, 0) => Board::SFROM256,
            (128            ,  0,  0,            8, 0) => Board::SGROM,
            (128 | 256      ,  0,  0,            0, 8) => Board::SGROM,
            (256            ,  0,  0,            8, 0) => Board::SGROM_SMROM,
            (32             ,  0,  0,          128, 0) => Board::SHROM,
            (32             ,  8,  0, 16 | 32 | 64, 0) => Board::SIROM,
            (128 | 256      ,  8,  0, 16 | 32 | 64, 0) => Board::SJROM,
            (128 | 256      ,  0,  8, 16 | 32 | 64, 0) => Board::SJROM,
            (128 | 256      ,  8,  0,          128, 0) => Board::SKROM,
            (128 | 256      ,  0,  8,          128, 0) => Board::SKROM,
            (128 | 256      ,  0,  0,          128, 0) => Board::SLROM,
            (128 | 256      ,  8,  0,            8, 0) => Board::SNROM,
            (128 | 256      ,  8,  0,            0, 8) => Board::SNROM,
            (128 | 256      ,  0,  8,            8, 0) => Board::SNROM,
            (128 | 256      ,  0,  8,            0, 8) => Board::SNROM,
            (128 | 256      , 16,  0,            8, 0) => Board::SOROM,
            (128 | 256      , 16,  0,            0, 8) => Board::SOROM,
            (      512      ,  8,  0,            8, 0) => Board::SUROM,
            (      512      ,  0,  8,            8, 0) => Board::SUROM,
            (      512      ,  8,  0,            0, 8) => Board::SUROM,
            (      512      ,  0,  8,            0, 8) => Board::SUROM,
            (128 | 256 | 512, 32,  0,            _, _) => Board::SXROM,
            (128 | 256 | 512,  0, 32,            _, _) => Board::SXROM,
            (128 | 256      ,  8,  8, 16 | 32 | 64, 0) => Board::SZROM,
            _ => Board::Unknown,
    }
}

impl Board {
    /// The board that the cartridge's memory sizes identify. SEROM and SHROM boards are refused:
    /// they are to be described by submapper 5 instead.
    pub fn from_cartridge_metadata(metadata: &ResolvedMetadata) -> (r: Result<Board, Mmc1BoardError>)
        ensures
            ({
                let board = spec_board_for_sizes(
                    metadata.prg_rom_size / 1024,
                    metadata.prg_work_ram_size / 1024,
                    metadata.prg_save_ram_size / 1024,
                    metadata.chr_rom_size / 1024,
                    metadata.chr_work_ram_size / 1024,
                );
                r == if board == Board::SEROM || board == Board::SHROM {
                    Err::<Board, Mmc1BoardError>(Mmc1BoardError::UseSubmapper5Instead)
                } else {
                    Ok(board)
                }
            }),
    {
        let board = board_for_sizes(
            metadata.prg_rom_size / 1024,
            metadata.prg_work_ram_size / 1024,
            metadata.prg_save_ram_size / 1024,
            metadata.chr_rom_size / 1024,
            metadata.chr_work_ram_size / 1024,
        );
        if board == Board::SEROM || board == Board::SHROM {
            return Err(Mmc1BoardError::UseSubmapper5Instead);
        }
        Ok(board)
    }
}

#[derive(PartialEq, Eq, Clone, Copy, Debug, Structural)]
pub enum Mmc1BoardError {
    UseSubmapper5Instead,
}

/// 8 KiB of PRG RAM, either work RAM or save RAM.
pub open spec fn one_8k_prg_ram(work: u32, save: u32) -> bool {
    (work == 8 && save == 0) || (work == 0 && save == 8)
}

/// 16, 32 or 64 KiB of CHR ROM and no CHR RAM.
pub open spec fn small_chr_rom(chr_rom: u32, chr_ram: u32) -> bool {
    (chr_rom == 16 || chr_rom == 32 || chr_rom == 64) && chr_ram == 0
}

/// 8 KiB of CHR, either ROM or RAM.
pub open spec fn one_8k_chr(chr_rom: u32, chr_ram: u32) -> bool {
    (chr_rom == 8 && chr_ram == 0) || (chr_rom == 0 && chr_ram == 8)
}

/// The memory that each board is built with, in KiB: the PRG ROM sizes it takes, its PRG RAM
/// (work or save), and its CHR ROM or RAM.
pub open spec fn board_fits(board: Board, prg_rom: u32, work: u32, save: u32, chr_rom: u32, chr_ram: u32) -> bool {
    let no_prg_ram = work == 0 && save == 0;
    let rom_128_or_256 = prg_rom == 128 || prg_rom == 256;
    match board {
        Board::Unknown => false,
        Board::SAROM => prg_rom == 64 && one_8k_prg_ram(work, save) && small_chr_rom(chr_rom, chr_ram),
        Board::SBROM => prg_rom == 64 && no_prg_ram && small_chr_rom(chr_rom, chr_ram),
        Board::SCROM_SL1ROM => prg_rom == 64 && no_prg_ram && chr_rom == 128 && chr_ram == 0,
        Board::SEROM => prg_rom == 32 && no_prg_ram && small_chr_rom(chr_rom, chr_ram),
        Board::SFROM128 => prg_rom == 128 && no_prg_ram && small_chr_rom(chr_rom, chr_ram),
        Board::SFROM256 => prg_rom == 256 && no_prg_ram && small_chr_rom(chr_rom, chr_ram),
        Board::SGROM => no_prg_ram && ((prg_rom == 128 && chr_rom == 8 && chr_ram == 0)
            || (rom_128_or_256 && chr_rom == 0 && chr_ram == 8)),
        Board::SGROM_SMROM => prg_rom == 256 && no_prg_ram && chr_rom == 8 && chr_ram == 0,
        Board::SHROM => prg_rom == 32 && no_prg_ram && chr_rom == 128 && chr_ram == 0,
        Board::SIROM => prg_rom == 32 && work == 8 && save == 0 && small_chr_rom(chr_rom, chr_ram),
        Board::SJROM => rom_128_or_256 && one_8k_prg_ram(work, save) && small_chr_rom(chr_rom, chr_ram),
        Board::SKROM => rom_128_or_256 && one_8k_prg_ram(work, save) && chr_rom == 128 && chr_ram == 0,
        Board::SLROM => rom_128_or_256 && no_prg_ram && chr_rom == 128 && chr_ram == 0,
        Board::SNROM => rom_128_or_256 && one_8k_prg_ram(work, save) && one_8k_chr(chr_rom, chr_ram),
        Board::SOROM => rom_128_or_256 && work == 16 && save == 0 && one_8k_chr(chr_rom, chr_ram),
        Board::SUROM => prg_rom == 512 && one_8k_prg_ram(work, save) && one_8k_chr(chr_rom, chr_ram),
        Board::SXROM => (rom_128_or_256 || prg_rom == 512) && ((work == 32 && save == 0) || (work == 0 && save == 32)),
        Board::SZROM => rom_128_or_256 && work == 8 && save == 8 && small_chr_rom(chr_rom, chr_ram),
    }
}

/// A cartridge is identified as a board exactly when its memory is what that board is built
/// with: the board found has the cartridge's PRG ROM, PRG RAM and CHR sizes, and memory that
/// fits a board is always identified as that board (so, for example, no PRG RAM with 128 KiB of
/// PRG ROM and of CHR ROM is SLROM, never the PRG RAM boards SKROM or SJROM).
pub proof fn lemma_board_identified_by_its_memory(
    board: Board,
    prg_rom: u32,
    work: u32,
    save: u32,
    chr_rom: u32,
    chr_ram: u32,
)
    ensures
        spec_board_for_sizes(prg_rom, work, save, chr_rom, chr_ram) != Board::Unknown
            ==> board_fits(spec_board_for_sizes(prg_rom, work, save, chr_rom, chr_ram), prg_rom, work, save, chr_rom, chr_ram),
        board_fits(board, prg_rom, work, save, chr_rom, chr_ram)
            ==> spec_board_for_sizes(prg_rom, work, save, chr_rom, chr_ram) == board,
{
}

} // verus!
