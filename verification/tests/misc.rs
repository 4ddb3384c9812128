use reznez::cartridge::resolved_metadata::ResolvedMetadata;
use reznez::cpu::instruction::{AccessMode, Instruction, OpCode, StepSequence};
use reznez::gui::debug_screens::sprite::{u32_from_be_bytes, Sprite};
use reznez::mapper::mappers::mmc1::board::{Board, Mmc1BoardError};
use reznez::memory::regions::ciram::{Ciram, CiramSide};
use reznez::ppu::palette::color::{Brightness, Color, Hue};
use reznez::ppu::pixel_index::{PixelColumn, PixelIndex, PixelRow};
use reznez::ppu::sprite::oam::Oam;
use reznez::ppu::sprite::oam_address::OamAddress;
use reznez::ppu::sprite::sprite_attributes::{Priority, SpriteAttributes};
use reznez::util::circular_buffer::CircularBuffer;

#[test]
fn decodes_instructions() {
    let lda = Instruction::from_code_point(0xA9);
    assert_eq!(lda.code_point(), 0xA9);
    assert_eq!(lda.op_code(), OpCode::LDA);
    assert_eq!(lda.access_mode(), AccessMode::Imm);
    assert_eq!(lda.steps(), StepSequence::ImmediateAddressing);

    let jmp = Instruction::from_code_point(0x6C);
    assert_eq!(jmp.op_code(), OpCode::JMP);
    assert_eq!(jmp.access_mode(), AccessMode::Ind);
    assert_eq!(jmp.steps(), StepSequence::JmpIndirect);

    let brk = Instruction::from_code_point(0x00);
    assert_eq!(brk.op_code(), OpCode::BRK);
    assert_eq!(brk.steps(), StepSequence::Brk);

    let sta = Instruction::from_code_point(0x9D);
    assert_eq!(sta.op_code(), OpCode::STA);
    assert_eq!(sta.access_mode(), AccessMode::AbX);
    assert_eq!(sta.steps(), StepSequence::AbsoluteXWrite);

    assert_eq!(Instruction::from_code_point(0x02).op_code(), OpCode::JAM);
}

#[test]
fn instruction_lengths() {
    assert_eq!(AccessMode::Imp.instruction_length(), 1);
    assert_eq!(AccessMode::Rel.instruction_length(), 2);
    assert_eq!(AccessMode::IzY.instruction_length(), 2);
    assert_eq!(AccessMode::Ind.instruction_length(), 3);
}

fn sizes(prg_rom: u32, prg_work: u32, prg_save: u32, chr_rom: u32, chr_ram: u32) -> ResolvedMetadata {
    ResolvedMetadata {
        prg_rom_size: prg_rom * 1024,
        prg_work_ram_size: prg_work * 1024,
        prg_save_ram_size: prg_save * 1024,
        chr_rom_size: chr_rom * 1024,
        chr_work_ram_size: chr_ram * 1024,
        chr_save_ram_size: 0,
    }
}

#[test]
fn mmc1_boards_by_size() {
    assert_eq!(Board::from_cartridge_metadata(&sizes(64, 8, 0, 32, 0)), Ok(Board::SAROM));
    assert_eq!(Board::from_cartridge_metadata(&sizes(512, 0, 8, 0, 8)), Ok(Board::SUROM));
    assert_eq!(Board::from_cartridge_metadata(&sizes(256, 32, 0, 0, 8)), Ok(Board::SXROM));
    assert_eq!(Board::from_cartridge_metadata(&sizes(16, 0, 0, 8, 0)), Ok(Board::Unknown));
    assert_eq!(
        Board::from_cartridge_metadata(&sizes(32, 0, 0, 16, 0)),
        Err(Mmc1BoardError::UseSubmapper5Instead),
    );
}

#[test]
fn circular_buffer_keeps_the_newest_values() {
    let mut buffer: CircularBuffer<u8> = CircularBuffer::default_filled(3);
    buffer.push(1);
    buffer.push(2);
    buffer.push(3);
    buffer.push(4);
    let (first, second) = buffer.slices();
    let mut values = second.to_vec();
    values.extend_from_slice(first);
    assert_eq!(values.len(), 3);
    let mut pairs = [[9u8, 9]; 3];
    buffer.clone_to(&mut pairs);
    assert_eq!(pairs, [[9, 2], [9, 3], [9, 4]]);
}

#[test]
fn color_numbers() {
    let color = Color::new(Brightness::from_u8(3), Hue::from_u8(0xD));
    assert_eq!(color.to_u6(), 0x3D);
    assert_eq!(color.to_usize(), 0x3D);
    assert_eq!(Color::from_u8(0xFD).to_u6(), 0x3D);
    assert_eq!(color.to_greyscale().to_u6(), 0x30);
    assert_eq!(Color::black().to_u6(), 0x1E);
}

#[test]
fn pixel_indexes() {
    let index = PixelIndex { column: PixelColumn::new(10), row: PixelRow::try_from_u8(20).unwrap() };
    assert_eq!(index.to_usize(), 20 * 256 + 10);
    assert!(!index.is_in_overscan_region());
    let edge = PixelIndex { column: PixelColumn::new(10), row: PixelRow::try_from_u8(2).unwrap() };
    assert!(edge.is_in_overscan_region());
    assert!(PixelRow::try_from_u8(240).is_none());
    assert!(PixelColumn::new(3).is_in_left_margin());
    assert!(!PixelColumn::new(8).is_in_left_margin());
}

#[test]
fn ciram_writes_need_enabling() {
    let mut ciram = Ciram::new();
    ciram.write(CiramSide::Right, 5, 0x77);
    assert_eq!(ciram.side(CiramSide::Right)[5], 0);
    ciram.enable_writes();
    ciram.write(CiramSide::Right, 5, 0x77);
    assert_eq!(ciram.side(CiramSide::Right)[5], 0x77);
    assert_eq!(ciram.side(CiramSide::Left)[5], 0);
    ciram.disable_writes();
    ciram.write(CiramSide::Left, 5, 0x11);
    assert_eq!(ciram.side(CiramSide::Left)[5], 0);
}

#[test]
fn sprites_from_bytes() {
    assert_eq!(u32_from_be_bytes(1, 2, 3, 4), 0x0102_0304);
    let sprite = Sprite::from_u32(0x10_42_20_08);
    assert_eq!(sprite.tile_number().to_u8(), 0x42);
    assert_eq!(sprite.priority(), Priority::Behind);
    assert_eq!(Sprite::from_u32(0x10_42_00_08).priority(), Priority::InFront);
    assert_eq!(SpriteAttributes::from_u8(0xC3).palette_table_index().to_u8(), 3);
    assert!(SpriteAttributes::from_u8(0xC3).flip_vertically());
    assert!(SpriteAttributes::from_u8(0xC3).flip_horizontally());
}

#[test]
fn debug_sprite_filters_read_priority_from_the_first_byte() {
    let mut oam = Oam::new();
    // Sprite 0: first byte has bit 5 set, so it counts as behind the background.
    oam.write(OamAddress::from_u8(0), 0x20);
    oam.write(OamAddress::from_u8(1), 0x11);
    // Sprite 1: first byte has bit 5 clear, so it counts as in front.
    oam.write(OamAddress::from_u8(4), 0x00);
    oam.write(OamAddress::from_u8(5), 0x22);
    // Sprite 20 is beyond the first sixteen and always kept.
    oam.write(OamAddress::from_u8(81), 0x33);

    let front = oam.only_front_sprites();
    assert_eq!(front.peek(OamAddress::from_u8(1)), 0);
    assert_eq!(front.peek(OamAddress::from_u8(5)), 0x22);
    assert_eq!(front.peek(OamAddress::from_u8(81)), 0x33);

    let back = oam.only_back_sprites();
    assert_eq!(back.peek(OamAddress::from_u8(1)), 0x11);
    assert_eq!(back.peek(OamAddress::from_u8(5)), 0);
    assert_eq!(back.peek(OamAddress::from_u8(81)), 0x33);

    assert_eq!(oam.sprites().len(), 64);
    assert_eq!(oam.sprites()[1].tile_number().to_u8(), 0x22);
}

#[test]
fn oam_address_steps() {
    let mut address = OamAddress::from_u8(0xFF);
    address.next_field();
    assert_eq!(address.to_u8(), 0);
    let mut address = OamAddress::from_u8(0xFE);
    address.corrupt_by_write();
    assert_eq!(address.to_u8(), 2);
    address.reset();
    assert_eq!(address.to_u8(), 0);
}
