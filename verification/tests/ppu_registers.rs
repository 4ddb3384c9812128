use reznez::ppu::name_table::name_table_quadrant::NameTableQuadrant;
use reznez::ppu::pattern_table_side::PatternTableSide;
use reznez::ppu::ppu_clock::PpuClock;
use reznez::ppu::register::ppu_registers::{AddressIncrement, ExtPinRole, Mask, PpuRegisters, WriteToggle};
use reznez::ppu::sprite::oam::Oam;
use reznez::ppu::sprite::oam_address::OamAddress;
use reznez::ppu::sprite::sprite_height::SpriteHeight;

fn vblank_clock() -> PpuClock {
    PpuClock::starting_at(0, 241, 10)
}

#[test]
fn ctrl_write_sets_every_field() {
    let mut regs = PpuRegisters::new();
    assert!(!regs.nmi_enabled());
    regs.write_ctrl(0b1011_1110);
    assert!(regs.nmi_enabled());
    assert_eq!(regs.ext_pin_role(), ExtPinRole::Read);
    assert_eq!(regs.sprite_height(), SpriteHeight::Tall);
    assert_eq!(regs.background_table_side(), PatternTableSide::Right);
    assert_eq!(regs.sprite_table_side(), PatternTableSide::Right);
    assert_eq!(regs.current_address_increment(), AddressIncrement::Down);
    assert_eq!(regs.base_name_table_quadrant(), NameTableQuadrant::BottomLeft);
}

#[test]
fn mask_write_delays_rendering() {
    let mut regs = PpuRegisters::new();
    regs.write_mask(0x18);
    assert!(regs.background_enabled());
    assert!(regs.sprites_enabled());
    assert!(!regs.rendering_enabled());
    assert_eq!(regs.mask(), Mask::from_u8(0x18));
    assert!(!Mask::from_u8(0x18).greyscale_enabled());
    assert!(Mask::from_u8(0x01).greyscale_enabled());
}

#[test]
fn status_read_shows_the_data_latch_and_resets_the_toggle() {
    let mut regs = PpuRegisters::new();
    regs.write_ctrl(0xBE);
    assert_eq!(regs.peek_status().unmasked_value(), 0x1E);
    regs.write_ppu_addr(0x3F);
    assert_eq!(regs.write_toggle(), WriteToggle::SecondByte);
    assert_eq!(regs.read_status().unmasked_value(), 0x1F);
    assert_eq!(regs.write_toggle(), WriteToggle::FirstByte);
}

#[test]
fn palette_reads_are_direct() {
    let mut regs = PpuRegisters::new();
    regs.write_ppu_addr(0x3F);
    regs.write_ppu_addr(0x00);
    assert_eq!(regs.peek_ppu_data(0x15).unmasked_value(), 0x15);
    regs.write_status(0xC0);
    assert_eq!(regs.peek_ppu_data(0x15).unmasked_value(), 0xD5);
}

#[test]
fn other_reads_come_from_the_buffer() {
    let mut regs = PpuRegisters::new();
    regs.write_ppu_addr(0x20);
    regs.write_ppu_addr(0x00);
    assert_eq!(regs.peek_ppu_data(0x99).unmasked_value(), 0);
    regs.set_ppu_read_buffer_and_advance(&vblank_clock(), 0x42);
    assert_eq!(regs.read_ppu_data(0x99).unmasked_value(), 0x42);
}

#[test]
fn data_writes_advance_the_address() {
    let mut regs = PpuRegisters::new();
    regs.write_ppu_addr(0x3E);
    regs.write_ppu_addr(0xFF);
    assert_eq!(regs.peek_ppu_data(0x01).unmasked_value(), 0);
    regs.write_ppu_data(0x07);
    // 0x3F00 is in the palette table.
    assert_eq!(regs.peek_ppu_data(0x01).unmasked_value(), 0x01);
}

#[test]
fn scroll_writes() {
    let mut regs = PpuRegisters::new();
    regs.write_scroll(0x7D);
    assert_eq!(regs.x_scroll().to_u8(), 0x7D);
    assert_eq!(regs.write_toggle(), WriteToggle::SecondByte);
    regs.write_scroll(0x20);
    assert_eq!(regs.x_scroll().to_u8(), 0x7D);
    assert_eq!(regs.write_toggle(), WriteToggle::FirstByte);
}

#[test]
fn oam_data_writes_store_and_advance() {
    let mut regs = PpuRegisters::new();
    let mut oam = Oam::new();
    regs.write_oam_addr(0x10);
    regs.write_oam_data(&mut oam, &vblank_clock(), 0xAB);
    assert_eq!(oam.peek(OamAddress::from_u8(0x10)), 0xAB);
    assert_eq!(regs.peek_oam_data(&oam).unmasked_value(), 0);
    regs.write_oam_addr(0x12);
    regs.write_oam_data(&mut oam, &vblank_clock(), 0xFF);
    // Attribute bytes have no bits 2 through 4.
    assert_eq!(oam.peek(OamAddress::from_u8(0x12)), 0xE3);
    regs.write_oam_addr(0x12);
    assert_eq!(regs.read_oam_data(&oam).unmasked_value(), 0xE3);
}

#[test]
fn oam_data_writes_during_rendering_only_bump_the_address() {
    let mut regs = PpuRegisters::new();
    let mut oam = Oam::new();
    regs.write_mask(0x18);
    let clock = PpuClock::starting_at(0, 10, 100);
    let _ = regs.tick(&clock);
    let _ = regs.tick(&clock);
    let _ = regs.tick(&clock);
    let _ = regs.tick(&clock);
    if regs.rendering_enabled() {
        regs.write_oam_addr(0x00);
        regs.write_oam_data(&mut oam, &clock, 0x55);
        assert_eq!(oam.peek(OamAddress::from_u8(0x00)), 0);
        oam.write(OamAddress::from_u8(0x04), 0x66);
        assert_eq!(regs.peek_oam_data(&oam).unmasked_value(), 0x66);
    }
}

#[test]
fn write_only_registers_read_the_data_latch() {
    let mut regs = PpuRegisters::new();
    regs.write_ctrl(0x5A);
    assert_eq!(regs.peek_from_write_only_register().unmasked_value(), 0x5A);
}
