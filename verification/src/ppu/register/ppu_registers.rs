use vstd::prelude::*;

use crate::memory::ppu::ppu_address::{PpuAddress, XScroll};
use crate::memory::read_result::ReadResult;
use crate::ppu::name_table::name_table_quadrant::NameTableQuadrant;
use crate::ppu::pattern_table_side::PatternTableSide;
use crate::ppu::pixel_index::ColumnInTile;
use crate::ppu::ppu_clock::PpuClock;
use crate::ppu::register::ppu_io_bus::PpuIoBus;
use crate::ppu::sprite::oam::{spec_stored_byte, Oam};
use crate::ppu::sprite::oam_address::OamAddress;
use crate::ppu::sprite::sprite_height::SpriteHeight;

verus! {

/// Bit `n` of a byte.
pub open spec fn bit(value: u8, n: u8) -> bool {
    (value >> n) % 2 == 1
}

/// The eight PPU registers that the CPU sees at 0x2000 through 0x2007.
pub struct PpuRegisters {
    // PPUCTRL (0x2000) sub-registers
    nmi_enabled: bool,
    ext_pin_role: ExtPinRole,
    sprite_height: SpriteHeight,
    background_table_side: PatternTableSide,
    sprite_table_side: PatternTableSide,
    current_address_increment: AddressIncrement,
    base_name_table_quadrant: NameTableQuadrant,

    // PPUMASK (0x2001)
    mask: Mask,

    // PPUMASK (0x2001), applied a little later by the PPU clock
    rendering_enabled: bool,
    rendering_toggle_state: RenderingToggleState,

    // PPUSTATUS (0x2002) sub-registers
    pub vblank_active: bool,
    pub ppu_status_vblank_active: bool,
    pub suppress_vblank_active: bool,
    pub sprite0_hit: bool,
    pub sprite0_hit_pending: bool,
    pub sprite_overflow: bool,
    pub sprite_overflow_pending: bool,

    // OAMADDR (0x2003) and OAMDATA (0x2004)
    pub oam_addr: OamAddress,

    // PPUSCROLL (0x2005): "x"
    pub fine_x_scroll: ColumnInTile,

    // PPUSCROLL (0x2005) and PPUADDR (0x2006): "t" and "w"
    pub next_address: PpuAddress,
    write_toggle: WriteToggle,

    // PPUADDR (0x2006) and PPUDATA (0x2007): "v"
    pub current_address: PpuAddress,

    // PPUDATA (0x2007)
    ppu_read_buffer: u8,

    // Shared between all registers (0x2000 through 0x2007)
    ppu_io_bus: PpuIoBus,
}

impl PpuRegisters {
    pub closed spec fn spec_nmi_enabled(&self) -> bool { self.nmi_enabled }
    pub closed spec fn spec_ext_pin_role(&self) -> ExtPinRole { self.ext_pin_role }
    pub closed spec fn spec_sprite_height(&self) -> SpriteHeight { self.sprite_height }
    pub closed spec fn spec_background_table_side(&self) -> PatternTableSide { self.background_table_side }
    pub closed spec fn spec_sprite_table_side(&self) -> PatternTableSide { self.sprite_table_side }
    pub closed spec fn spec_current_address_increment(&self) -> AddressIncrement { self.current_address_increment }
    pub closed spec fn spec_base_name_table_quadrant(&self) -> NameTableQuadrant { self.base_name_table_quadrant }
    pub closed spec fn spec_mask(&self) -> Mask { self.mask }
    pub closed spec fn spec_rendering_enabled(&self) -> bool { self.rendering_enabled }
    pub closed spec fn spec_rendering_toggle_state(&self) -> RenderingToggleState { self.rendering_toggle_state }
    pub closed spec fn spec_write_toggle(&self) -> WriteToggle { self.write_toggle }
    pub closed spec fn spec_ppu_read_buffer(&self) -> u8 { self.ppu_read_buffer }
    pub closed spec fn spec_io_bus(&self) -> u8 { self.ppu_io_bus.spec_value() }
    pub closed spec fn spec_vblank_active(&self) -> bool { self.vblank_active }
    pub closed spec fn spec_ppu_status_vblank_active(&self) -> bool { self.ppu_status_vblank_active }
    pub closed spec fn spec_suppress_vblank_active(&self) -> bool { self.suppress_vblank_active }
    pub closed spec fn spec_sprite0_hit(&self) -> bool { self.sprite0_hit }
    pub closed spec fn spec_sprite0_hit_pending(&self) -> bool { self.sprite0_hit_pending }
    pub closed spec fn spec_sprite_overflow(&self) -> bool { self.sprite_overflow }
    pub closed spec fn spec_sprite_overflow_pending(&self) -> bool { self.sprite_overflow_pending }
    pub closed spec fn spec_oam_addr(&self) -> OamAddress { self.oam_addr }
    pub closed spec fn spec_fine_x_scroll(&self) -> ColumnInTile { self.fine_x_scroll }
    pub closed spec fn spec_next_address(&self) -> PpuAddress { self.next_address }
    pub closed spec fn spec_current_address(&self) -> PpuAddress { self.current_address }

    pub closed spec fn wf(&self) -> bool {
        self.next_address.wf() && self.current_address.wf()
    }

    /// Everything off and zero, as at power on.
    pub fn new() -> (r: Self)
        ensures
            r.wf(),
            !r.spec_nmi_enabled(),
            r.spec_ext_pin_role() == ExtPinRole::Read,
            r.spec_sprite_height() == SpriteHeight::Normal,
            r.spec_background_table_side() == PatternTableSide::Left,
            r.spec_sprite_table_side() == PatternTableSide::Left,
            r.spec_current_address_increment() == AddressIncrement::Right,
            r.spec_base_name_table_quadrant() == NameTableQuadrant::TopLeft,
            r.spec_mask() == Mask::spec_all_disabled(),
            !r.spec_rendering_enabled(),
            r.spec_rendering_toggle_state() == RenderingToggleState::Inactive,
            !r.spec_vblank_active(),
            !r.spec_ppu_status_vblank_active(),
            !r.spec_suppress_vblank_active(),
            !r.spec_sprite0_hit() && !r.spec_sprite0_hit_pending() && !r.spec_sprite_overflow() && !r.spec_sprite_overflow_pending(),
            r.spec_oam_addr()@ == 0,
            r.spec_fine_x_scroll() == ColumnInTile::Zero,
            r.spec_next_address()@ == 0,
            r.spec_current_address()@ == 0,
            r.spec_write_toggle() == WriteToggle::FirstByte,
            r.spec_ppu_read_buffer() == 0,
            r.spec_io_bus() == 0,
    {
        Self {
            nmi_enabled: false,
            ext_pin_role: ExtPinRole::Read,
            sprite_height: SpriteHeight::Normal,
            background_table_side: PatternTableSide::Left,
            sprite_table_side: PatternTableSide::Left,
            current_address_increment: AddressIncrement::Right,
            base_name_table_quadrant: NameTableQuadrant::TopLeft,
            mask: Mask::all_disabled(),
            rendering_enabled: false,
            rendering_toggle_state: RenderingToggleState::Inactive,
            vblank_active: false,
            ppu_status_vblank_active: false,
            suppress_vblank_active: false,
            sprite0_hit: false,
            sprite0_hit_pending: false,
            sprite_overflow: false,
            sprite_overflow_pending: false,
            oam_addr: OamAddress::from_u8(0),
            fine_x_scroll: ColumnInTile::Zero,
            next_address: PpuAddress::zero(),
            write_toggle: WriteToggle::FirstByte,
            current_address: PpuAddress::zero(),
            ppu_read_buffer: 0,
            ppu_io_bus: PpuIoBus::new(),
        }
    }

    pub fn nmi_enabled(&self) -> (r: bool)
        ensures r == self.spec_nmi_enabled(),
    {
        self.nmi_enabled
    }

    pub fn ext_pin_role(&self) -> (r: ExtPinRole)
        ensures r == self.spec_ext_pin_role(),
    {
        self.ext_pin_role
    }

    pub fn sprite_height(&self) -> (r: SpriteHeight)
        ensures r == self.spec_sprite_height(),
    {
        self.sprite_height
    }

    pub fn background_table_side(&self) -> (r: PatternTableSide)
        ensures r == self.spec_background_table_side(),
    {
        self.background_table_side
    }

    pub fn sprite_table_side(&self) -> (r: PatternTableSide)
        ensures r == self.spec_sprite_table_side(),
    {
        self.sprite_table_side
    }

    pub fn current_address_increment(&self) -> (r: AddressIncrement)
        ensures r == self.spec_current_address_increment(),
    {
        self.current_address_increment
    }

    pub fn base_name_table_quadrant(&self) -> (r: NameTableQuadrant)
        ensures r == self.spec_base_name_table_quadrant(),
    {
        self.base_name_table_quadrant
    }

    /// Write 0x2000 (PPUCTRL, `nehb siqq`).
    pub fn write_ctrl(&mut self, value: u8)
        requires
            old(self).wf(),
        ensures
            final(self).wf(),
            final(self).spec_io_bus() == value,
            final(self).spec_nmi_enabled() == bit(value, 7),
            final(self).spec_ext_pin_role() == (if bit(value, 6) { ExtPinRole::Write } else { ExtPinRole::Read }),
            final(self).spec_sprite_height() == (if bit(value, 5) { SpriteHeight::Tall } else { SpriteHeight::Normal }),
            final(self).spec_background_table_side() == (if bit(value, 4) { PatternTableSide::Right } else { PatternTableSide::Left }),
            final(self).spec_sprite_table_side() == (if bit(value, 3) { PatternTableSide::Right } else { PatternTableSide::Left }),
            final(self).spec_current_address_increment() == (if bit(value, 2) { AddressIncrement::Down } else { AddressIncrement::Right }),
            final(self).spec_base_name_table_quadrant().spec_to_u8() == value % 4,
            final(self).spec_next_address().spec_quadrant() == value % 4,
            final(self).spec_next_address().spec_coarse_x() == old(self).spec_next_address().spec_coarse_x(),
            final(self).spec_next_address().spec_coarse_y() == old(self).spec_next_address().spec_coarse_y(),
            final(self).spec_next_address().spec_fine_y() == old(self).spec_next_address().spec_fine_y(),
            final(self).spec_current_address() == old(self).spec_current_address(),
            final(self).spec_write_toggle() == old(self).spec_write_toggle(),
            final(self).spec_mask() == old(self).spec_mask(),
    {
        self.ppu_io_bus.update(value);
        let n = value & 0b1000_0000 != 0;
        let e = value & 0b0100_0000 != 0;
        let h = value & 0b0010_0000 != 0;
        let b = value & 0b0001_0000 != 0;
        let s = value & 0b0000_1000 != 0;
        let i = value & 0b0000_0100 != 0;
        let q = value & 0b0000_0011;
        assert(n == bit(value, 7) && e == bit(value, 6) && h == bit(value, 5) && b == bit(value, 4)
            && s == bit(value, 3) && i == bit(value, 2) && q == value % 4) by (bit_vector)
            requires
                n == (value & 0b1000_0000 != 0),
                e == (value & 0b0100_0000 != 0),
                h == (value & 0b0010_0000 != 0),
                b == (value & 0b0001_0000 != 0),
                s == (value & 0b0000_1000 != 0),
                i == (value & 0b0000_0100 != 0),
                q == value & 0b0000_0011,
        ;
        self.nmi_enabled = n;
        self.ext_pin_role = if e { ExtPinRole::Write } else { ExtPinRole::Read };
        self.sprite_height = if h { SpriteHeight::Tall } else { SpriteHeight::Normal };
        self.background_table_side = if b { PatternTableSide::Right } else { PatternTableSide::Left };
        self.sprite_table_side = if s { PatternTableSide::Right } else { PatternTableSide::Left };
        self.current_address_increment = if i { AddressIncrement::Down } else { AddressIncrement::Right };
        self.base_name_table_quadrant = NameTableQuadrant::from_u8(q);
        self.next_address.set_name_table_quadrant(self.base_name_table_quadrant);
    }

    pub fn mask(&self) -> (r: Mask)
        ensures r == self.spec_mask(),
    {
        self.mask
    }

    pub fn background_enabled(&self) -> (r: bool)
        ensures r == self.spec_mask().background_enabled,
    {
        self.mask.background_enabled()
    }

    pub fn sprites_enabled(&self) -> (r: bool)
        ensures r == self.spec_mask().sprites_enabled,
    {
        self.mask.sprites_enabled()
    }

    /// Whether rendering is in effect (which lags a write to PPUMASK).
    pub fn rendering_enabled(&self) -> (r: bool)
        ensures r == self.spec_rendering_enabled(),
    {
        self.rendering_enabled
    }

    /// Write 0x2001 (PPUMASK, `efgs blmz`). A change to whether anything is rendered starts
    /// a delayed toggle of rendering.
    pub fn write_mask(&mut self, value: u8)
        ensures
            final(self).wf() == old(self).wf(),
            final(self).spec_io_bus() == value,
            final(self).spec_mask() == Mask::spec_from_u8(value),
            final(self).spec_rendering_enabled() == old(self).spec_rendering_enabled(),
            final(self).spec_rendering_toggle_state() == (if old(self).spec_rendering_enabled()
                != (Mask::spec_from_u8(value).sprites_enabled || Mask::spec_from_u8(value).background_enabled) {
                RenderingToggleState::Pending
            } else {
                old(self).spec_rendering_toggle_state()
            }),
            final(self).spec_next_address() == old(self).spec_next_address(),
            final(self).spec_current_address() == old(self).spec_current_address(),
            final(self).spec_write_toggle() == old(self).spec_write_toggle(),
    {
        self.ppu_io_bus.update(value);
        self.mask = Mask::from_u8(value);
        if self.rendering_enabled != (self.mask.sprites_enabled() || self.mask.background_enabled()) {
            self.rendering_toggle_state = RenderingToggleState::Pending;
        }
    }

    /// Peek 0x2002 (PPUSTATUS, `vhobbbbb`): vblank, sprite 0 hit, sprite overflow, then the
    /// low five bits of the data latch.
    pub fn peek_status(&self) -> (r: ReadResult)
        ensures
            r.spec_mask() == 0xFF,
            r.spec_value() == Self::spec_status(self.spec_ppu_status_vblank_active(), self.spec_sprite0_hit(),
                self.spec_sprite_overflow(), self.spec_io_bus()),
    {
        let v: u8 = if self.ppu_status_vblank_active { 0b1000_0000 } else { 0 };
        let h: u8 = if self.sprite0_hit { 0b0100_0000 } else { 0 };
        let o: u8 = if self.sprite_overflow { 0b0010_0000 } else { 0 };
        let b: u8 = self.ppu_io_bus.value() & 0b0001_1111;
        ReadResult::full(v | h | o | b)
    }

    pub open spec fn spec_status(vblank: bool, hit: bool, overflow: bool, bus: u8) -> u8 {
        (if vblank { 0b1000_0000u8 } else { 0u8 }) | (if hit { 0b0100_0000u8 } else { 0u8 })
            | (if overflow { 0b0010_0000u8 } else { 0u8 }) | (bus & 0b0001_1111u8)
    }

    /// Read 0x2002: the status also lands on the data latch, and the write toggle resets.
    pub fn read_status(&mut self) -> (r: ReadResult)
        ensures
            final(self).wf() == old(self).wf(),
            r.spec_mask() == 0xFF,
            r.spec_value() == Self::spec_status(old(self).spec_ppu_status_vblank_active(), old(self).spec_sprite0_hit(),
                old(self).spec_sprite_overflow(), old(self).spec_io_bus()),
            final(self).spec_io_bus() == r.spec_value(),
            final(self).spec_write_toggle() == WriteToggle::FirstByte,
            final(self).spec_next_address() == old(self).spec_next_address(),
            final(self).spec_current_address() == old(self).spec_current_address(),
            final(self).spec_ppu_status_vblank_active() == old(self).spec_ppu_status_vblank_active(),
            final(self).spec_vblank_active() == old(self).spec_vblank_active(),
            final(self).spec_suppress_vblank_active() == old(self).spec_suppress_vblank_active(),
            final(self).spec_sprite0_hit() == old(self).spec_sprite0_hit(),
            final(self).spec_sprite0_hit_pending() == old(self).spec_sprite0_hit_pending(),
            final(self).spec_sprite_overflow() == old(self).spec_sprite_overflow(),
            final(self).spec_sprite_overflow_pending() == old(self).spec_sprite_overflow_pending(),
            final(self).spec_oam_addr() == old(self).spec_oam_addr(),
            final(self).spec_fine_x_scroll() == old(self).spec_fine_x_scroll(),
            final(self).spec_ppu_read_buffer() == old(self).spec_ppu_read_buffer(),
            final(self).spec_mask() == old(self).spec_mask(),
            final(self).spec_nmi_enabled() == old(self).spec_nmi_enabled(),
    {
        let value = self.peek_status();
        let status = value.unmasked_value();
        let ghost bus = self.spec_io_bus();
        let ghost a = self.ppu_status_vblank_active;
        let ghost b = self.sprite0_hit;
        let ghost c = self.sprite_overflow;
        self.ppu_io_bus.update_from_status_read(status);
        assert((status & 0b1110_0000) | (bus & 0b0001_1111) == status) by (bit_vector)
            requires
                status == (if a { 0b1000_0000u8 } else { 0u8 }) | (if b { 0b0100_0000u8 } else { 0u8 })
                    | (if c { 0b0010_0000u8 } else { 0u8 }) | (bus & 0b0001_1111u8),
        ;
        self.write_toggle = WriteToggle::FirstByte;
        ReadResult::full(self.ppu_io_bus.value())
    }

    /// Write 0x2002: the register is read-only, but the data latch still takes the value.
    pub fn write_status(&mut self, register_value: u8)
        ensures
            final(self).spec_io_bus() == register_value,
            final(self).wf() == old(self).wf(),
            final(self).spec_next_address() == old(self).spec_next_address(),
            final(self).spec_current_address() == old(self).spec_current_address(),
            final(self).spec_write_toggle() == old(self).spec_write_toggle(),
    {
        self.ppu_io_bus.update(register_value);
    }

    /// Write 0x2003 (OAMADDR).
    pub fn write_oam_addr(&mut self, value: u8)
        ensures
            final(self).spec_io_bus() == value,
            final(self).spec_oam_addr()@ == value,
            final(self).wf() == old(self).wf(),
    {
        self.ppu_io_bus.update(value);
        self.oam_addr = OamAddress::from_u8(value);
    }

    /// Peek 0x2004 (OAMDATA): the byte of OAM at OAMADDR.
    pub fn peek_oam_data(&self, oam: &Oam) -> (r: ReadResult)
        requires
            oam.wf(),
        ensures
            r.spec_mask() == 0xFF,
            r.spec_value() == oam@[self.spec_oam_addr()@ as int],
    {
        ReadResult::full(oam.peek(self.oam_addr))
    }

    /// Read 0x2004: the byte also lands on the data latch.
    pub fn read_oam_data(&mut self, oam: &Oam) -> (r: ReadResult)
        requires
            oam.wf(),
        ensures
            r.spec_mask() == 0xFF,
            r.spec_value() == oam@[old(self).spec_oam_addr()@ as int],
            final(self).spec_io_bus() == r.spec_value(),
            final(self).spec_oam_addr() == old(self).spec_oam_addr(),
            final(self).wf() == old(self).wf(),
    {
        let value = oam.peek(self.oam_addr);
        self.ppu_io_bus.update(value);
        ReadResult::full(value)
    }

    /// Write 0x2004: stores the byte and moves to the next one, except during rendering
    /// (on the visible and pre-render scanlines), where nothing is stored and OAMADDR is bumped
    /// to the next sprite instead.
    pub fn write_oam_data(&mut self, oam: &mut Oam, clock: &PpuClock, value: u8)
        requires
            old(oam).wf(),
        ensures
            final(oam).wf(),
            final(self).spec_io_bus() == value,
            final(self).wf() == old(self).wf(),
            (old(self).spec_rendering_enabled()
                && (clock.spec_scanline() < 240 || clock.spec_scanline() == 261)) ==> {
                &&& final(oam)@ == old(oam)@
                &&& final(self).spec_oam_addr()@ == (old(self).spec_oam_addr()@ + 4) % 256
            },
            !(old(self).spec_rendering_enabled()
                && (clock.spec_scanline() < 240 || clock.spec_scanline() == 261)) ==> {
                &&& final(oam)@ == old(oam)@.update(old(self).spec_oam_addr()@ as int,
                    spec_stored_byte(old(self).spec_oam_addr()@, value))
                &&& final(self).spec_oam_addr()@ == (old(self).spec_oam_addr()@ + 1) % 256
            },
    {
        self.ppu_io_bus.update(value);
        if self.rendering_enabled && (clock.is_on_visible_scanline() || clock.is_on_prerender_scanline()) {
            self.oam_addr.corrupt_by_write();
        } else {
            oam.write(self.oam_addr, value);
            self.oam_addr.next_field();
        }
    }

    /// Write 0x2005 (PPUSCROLL): the first write sets the horizontal scroll, the second the
    /// vertical scroll.
    pub fn write_scroll(&mut self, dimension: u8)
        requires
            old(self).wf(),
        ensures
            final(self).wf(),
            final(self).spec_io_bus() == dimension,
            final(self).spec_write_toggle() == old(self).spec_write_toggle().spec_toggled(),
            final(self).spec_current_address() == old(self).spec_current_address(),
            final(self).spec_next_address().spec_quadrant() == old(self).spec_next_address().spec_quadrant(),
            old(self).spec_write_toggle() == WriteToggle::FirstByte ==> {
                &&& final(self).spec_fine_x_scroll().spec_to_u8() == dimension % 8
                &&& final(self).spec_next_address().spec_coarse_x() == dimension / 8
                &&& final(self).spec_next_address().spec_coarse_y() == old(self).spec_next_address().spec_coarse_y()
                &&& final(self).spec_next_address().spec_fine_y() == old(self).spec_next_address().spec_fine_y()
            },
            old(self).spec_write_toggle() == WriteToggle::SecondByte ==> {
                &&& final(self).spec_fine_x_scroll() == old(self).spec_fine_x_scroll()
                &&& final(self).spec_next_address().spec_coarse_x() == old(self).spec_next_address().spec_coarse_x()
                &&& final(self).spec_next_address().spec_coarse_y() == dimension / 8
                &&& final(self).spec_next_address().spec_fine_y() == dimension % 8
            },
    {
        self.ppu_io_bus.update(dimension);
        match self.write_toggle {
            WriteToggle::FirstByte => {
                let value = XScroll::from_u8(dimension);
                self.fine_x_scroll = value.fine();
                self.next_address.set_coarse_x_scroll(value.coarse());
            }
            WriteToggle::SecondByte => {
                self.next_address.set_y_scroll(dimension);
            }
        }
        self.write_toggle.toggle();
    }

    /// Write 0x2006 (PPUADDR): the first write sets the high byte of the next address, the
    /// second sets its low byte and makes it the current address.
    pub fn write_ppu_addr(&mut self, value: u8)
        requires
            old(self).wf(),
        ensures
            final(self).wf(),
            final(self).spec_io_bus() == value,
            final(self).spec_write_toggle() == old(self).spec_write_toggle().spec_toggled(),
            old(self).spec_write_toggle() == WriteToggle::FirstByte ==> {
                &&& final(self).spec_next_address()@ == old(self).spec_next_address()@ % 256 + 256 * (value % 64)
                &&& final(self).spec_current_address() == old(self).spec_current_address()
            },
            old(self).spec_write_toggle() == WriteToggle::SecondByte ==> {
                &&& final(self).spec_next_address()@ == 256 * (old(self).spec_next_address()@ / 256) + value
                &&& final(self).spec_current_address() == final(self).spec_next_address()
            },
    {
        self.ppu_io_bus.update(value);
        match self.write_toggle {
            WriteToggle::FirstByte => self.next_address.set_high_byte(value),
            WriteToggle::SecondByte => {
                self.next_address.set_low_byte(value);
                self.current_address = self.next_address;
            }
        }
        self.write_toggle.toggle();
    }

    /// Peek 0x2007 (PPUDATA): the read buffer, except for palette data, which is read directly
    /// (its top two bits come from the data latch).
    pub fn peek_ppu_data(&self, old_data: u8) -> (r: ReadResult)
        ensures
            r.spec_mask() == 0xFF,
            r.spec_value() == (if self.spec_current_address()@ % 0x4000 >= 0x3F00 {
                (self.spec_io_bus() & 0b1100_0000) | (old_data & 0b0011_1111)
            } else {
                self.spec_ppu_read_buffer()
            }),
    {
        let data = if self.current_address.is_in_palette_table() {
            (self.ppu_io_bus.value() & 0b1100_0000) | (old_data & 0b0011_1111)
        } else {
            self.ppu_read_buffer
        };
        ReadResult::full(data)
    }

    /// Read 0x2007: the value also lands on the data latch.
    pub fn read_ppu_data(&mut self, old_data: u8) -> (r: ReadResult)
        ensures
            r.spec_mask() == 0xFF,
            r.spec_value() == (if old(self).spec_current_address()@ % 0x4000 >= 0x3F00 {
                (old(self).spec_io_bus() & 0b1100_0000) | (old_data & 0b0011_1111)
            } else {
                old(self).spec_ppu_read_buffer()
            }),
            final(self).spec_io_bus() == r.spec_value(),
            final(self).wf() == old(self).wf(),
            final(self).spec_current_address() == old(self).spec_current_address(),
            final(self).spec_ppu_read_buffer() == old(self).spec_ppu_read_buffer(),
    {
        let value_read = self.peek_ppu_data(old_data);
        self.ppu_io_bus.update(value_read.unmasked_value());
        value_read
    }

    /// Completes a read of 0x2007: fills the read buffer and advances the current address.
    /// Reading during rendering also moves the current address down a pixel row.
    pub fn set_ppu_read_buffer_and_advance(&mut self, clock: &PpuClock, new_buffer_data: u8)
        requires
            old(self).wf(),
        ensures
            final(self).wf(),
            final(self).spec_ppu_read_buffer() == new_buffer_data,
            !(old(self).spec_rendering_enabled() && !(241 <= clock.spec_scanline() <= 260))
                ==> final(self).spec_current_address()@ == (old(self).spec_current_address()@
                    + old(self).spec_current_address_increment().spec_amount()) % 0x8000,
    {
        self.ppu_read_buffer = new_buffer_data;
        self.current_address.advance(self.current_address_increment);
        let is_rendering = self.rendering_enabled && !clock.is_on_vblank_scanline();
        if is_rendering {
            self.current_address.increment_fine_y_scroll();
        }
    }

    /// Write 0x2007: the value goes on the data latch (the bus stores it) and the current
    /// address advances.
    pub fn write_ppu_data(&mut self, value: u8)
        requires
            old(self).wf(),
        ensures
            final(self).wf(),
            final(self).spec_io_bus() == value,
            final(self).spec_current_address()@ == (old(self).spec_current_address()@
                + old(self).spec_current_address_increment().spec_amount()) % 0x8000,
    {
        self.ppu_io_bus.update(value);
        self.current_address.advance(self.current_address_increment);
    }

    /// Reading a write-only register gives the data latch.
    pub fn peek_from_write_only_register(&self) -> (r: ReadResult)
        ensures
            r.spec_mask() == 0xFF,
            r.spec_value() == self.spec_io_bus(),
    {
        ReadResult::full(self.ppu_io_bus.value())
    }

    /// Advances the delayed effects by one PPU cycle: pending sprite flags become visible, and
    /// a pending rendering toggle takes effect one cycle after it becomes ready.
    pub fn tick(&mut self, clock: &PpuClock) -> (r: PpuRegistersTickResult)
        ensures
            final(self).wf() == old(self).wf(),
            final(self).spec_sprite0_hit() == (old(self).spec_sprite0_hit() || old(self).spec_sprite0_hit_pending()),
            !final(self).spec_sprite0_hit_pending(),
            final(self).spec_sprite_overflow() == (old(self).spec_sprite_overflow() || old(self).spec_sprite_overflow_pending()),
            !final(self).spec_sprite_overflow_pending(),
            final(self).spec_rendering_toggle_state() == (match old(self).spec_rendering_toggle_state() {
                RenderingToggleState::Inactive => RenderingToggleState::Inactive,
                RenderingToggleState::Pending => RenderingToggleState::Ready,
                RenderingToggleState::Ready => RenderingToggleState::Inactive,
            }),
            final(self).spec_rendering_enabled() == (if old(self).spec_rendering_toggle_state() == RenderingToggleState::Ready {
                !old(self).spec_rendering_enabled()
            } else {
                old(self).spec_rendering_enabled()
            }),
            r.rendering_toggled == (if old(self).spec_rendering_toggle_state() == RenderingToggleState::Ready {
                Some(if old(self).spec_rendering_enabled() { Toggle::Disable } else { Toggle::Enable })
            } else {
                None
            }),
            final(self).spec_next_address() == old(self).spec_next_address(),
            final(self).spec_current_address() == old(self).spec_current_address(),
    {
        if clock.cycle() == 1 {
            self.ppu_io_bus.maybe_decay();
        }
        if self.sprite0_hit_pending {
            self.sprite0_hit = true;
            self.sprite0_hit_pending = false;
        }
        if self.sprite_overflow_pending {
            self.sprite_overflow = true;
            self.sprite_overflow_pending = false;
        }
        let rendering_toggled = match self.rendering_toggle_state {
            RenderingToggleState::Inactive => None,
            RenderingToggleState::Pending => {
                self.rendering_toggle_state = RenderingToggleState::Ready;
                None
            }
            RenderingToggleState::Ready => {
                self.rendering_enabled = !self.rendering_enabled;
                self.rendering_toggle_state = RenderingToggleState::Inactive;
                Some(if self.rendering_enabled { Toggle::Enable } else { Toggle::Disable })
            }
        };
        PpuRegistersTickResult { rendering_toggled }
    }

    /// The horizontal scroll that the next frame starts with.
    pub fn x_scroll(&self) -> (r: XScroll)
        ensures
            r.coarse == self.spec_next_address().spec_coarse_x(),
            r.fine == self.spec_fine_x_scroll(),
    {
        XScroll { coarse: self.next_address.coarse_x_scroll(), fine: self.fine_x_scroll }
    }

    pub fn write_toggle(&self) -> (r: WriteToggle)
        ensures
            r == self.spec_write_toggle(),
    {
        self.write_toggle
    }
}

/// Which of the two writes of PPUSCROLL or PPUADDR comes next.
#[derive(PartialEq, Eq, Clone, Copy, Debug, Structural)]
pub enum WriteToggle {
    FirstByte,
    SecondByte,
}

impl WriteToggle {
    pub open spec fn spec_toggled(self) -> WriteToggle {
        match self {
            WriteToggle::FirstByte => WriteToggle::SecondByte,
            WriteToggle::SecondByte => WriteToggle::FirstByte,
        }
    }

    pub fn toggle(&mut self)
        ensures
            *final(self) == old(self).spec_toggled(),
    {
        *self = match *self {
            WriteToggle::FirstByte => WriteToggle::SecondByte,
            WriteToggle::SecondByte => WriteToggle::FirstByte,
        };
    }
}

/// A write to PPUMASK that turns rendering on or off takes effect after a delay.
#[derive(PartialEq, Eq, Clone, Copy, Debug, Structural)]
pub enum RenderingToggleState {
    Inactive,
    Pending,
    Ready,
}

pub struct PpuRegistersTickResult {
    pub rendering_toggled: Option<Toggle>,
}

#[derive(PartialEq, Eq, Clone, Copy, Debug, Structural)]
pub enum Toggle {
    Enable,
    Disable,
}

#[derive(PartialEq, Eq, Clone, Copy, Debug, Structural)]
pub enum ExtPinRole {
    Read,
    Write,
}

/// How far the current address moves after each PPUDATA access.
#[derive(PartialEq, Eq, Clone, Copy, Debug, Structural)]
pub enum AddressIncrement {
    Right,
    Down,
}

impl AddressIncrement {
    pub open spec fn spec_amount(self) -> int {
        match self {
            AddressIncrement::Right => 1,
            AddressIncrement::Down => 32,
        }
    }
}

/// PPUMASK.
#[derive(PartialEq, Eq, Clone, Copy, Debug, Structural)]
pub struct Mask {
    pub greyscale_enabled: bool,
    pub left_background_columns_enabled: bool,
    pub left_sprite_columns_enabled: bool,
    pub background_enabled: bool,
    pub sprites_enabled: bool,
    pub emphasis: Emphasis,
}

impl Mask {
    pub open spec fn spec_all_disabled() -> Mask {
        Mask {
            greyscale_enabled: false,
            left_background_columns_enabled: false,
            left_sprite_columns_enabled: false,
            background_enabled: false,
            sprites_enabled: false,
            emphasis: Emphasis { red: false, green: false, blue: false },
        }
    }

    /// The mask that a byte (`efgs blmz`) encodes.
    pub open spec fn spec_from_u8(value: u8) -> Mask {
        Mask {
            greyscale_enabled: bit(value, 0),
            left_background_columns_enabled: bit(value, 1),
            left_sprite_columns_enabled: bit(value, 2),
            background_enabled: bit(value, 3),
            sprites_enabled: bit(value, 4),
            emphasis: Emphasis { red: bit(value, 5), green: bit(value, 6), blue: bit(value, 7) },
        }
    }

    pub fn from_u8(value: u8) -> (r: Mask)
        ensures
            r == Self::spec_from_u8(value),
    {
        let e = value & 0b1000_0000 != 0;
        let f = value & 0b0100_0000 != 0;
        let g = value & 0b0010_0000 != 0;
        let s = value & 0b0001_0000 != 0;
        let b = value & 0b0000_1000 != 0;
        let l = value & 0b0000_0100 != 0;
        let m = value & 0b0000_0010 != 0;
        let z = value & 0b0000_0001 != 0;
        assert(e == bit(value, 7) && f == bit(value, 6) && g == bit(value, 5) && s == bit(value, 4)
            && b == bit(value, 3) && l == bit(value, 2) && m == bit(value, 1) && z == bit(value, 0))
            by (bit_vector)
            requires
                e == (value & 0b1000_0000 != 0),
                f == (value & 0b0100_0000 != 0),
                g == (value & 0b0010_0000 != 0),
                s == (value & 0b0001_0000 != 0),
                b == (value & 0b0000_1000 != 0),
                l == (value & 0b0000_0100 != 0),
                m == (value & 0b0000_0010 != 0),
                z == (value & 0b0000_0001 != 0),
        ;
        Mask {
            greyscale_enabled: z,
            left_background_columns_enabled: m,
            left_sprite_columns_enabled: l,
            background_enabled: b,
            sprites_enabled: s,
            emphasis: Emphasis { red: g, green: f, blue: e },
        }
    }

    pub fn all_disabled() -> (r: Mask)
        ensures
            r == Self::spec_all_disabled(),
    {
        Mask {
            greyscale_enabled: false,
            left_background_columns_enabled: false,
            left_sprite_columns_enabled: false,
            background_enabled: false,
            sprites_enabled: false,
            emphasis: Emphasis::off(),
        }
    }

    /// Like all disabled, but the leftmost eight columns are not hidden.
    pub fn full_screen_enabled() -> (r: Mask)
        ensures
            r == (Mask {
                left_background_columns_enabled: true,
                left_sprite_columns_enabled: true,
                ..Self::spec_all_disabled()
            }),
    {
        Mask {
            left_background_columns_enabled: true,
            left_sprite_columns_enabled: true,
            ..Self::all_disabled()
        }
    }

    pub fn greyscale_enabled(self) -> (r: bool)
        ensures r == self.greyscale_enabled,
    {
        self.greyscale_enabled
    }

    pub fn left_background_columns_enabled(self) -> (r: bool)
        ensures r == self.left_background_columns_enabled,
    {
        self.left_background_columns_enabled
    }

    pub fn left_sprite_columns_enabled(self) -> (r: bool)
        ensures r == self.left_sprite_columns_enabled,
    {
        self.left_sprite_columns_enabled
    }

    pub fn background_enabled(self) -> (r: bool)
        ensures r == self.background_enabled,
    {
        self.background_enabled
    }

    pub fn sprites_enabled(self) -> (r: bool)
        ensures r == self.sprites_enabled,
    {
        self.sprites_enabled
    }

    pub fn emphasis(self) -> (r: Emphasis)
        ensures r == self.emphasis,
    {
        self.emphasis
    }
}

/// Which color components PPUMASK emphasizes.
#[derive(PartialEq, Eq, Clone, Copy, Debug, Structural)]
pub struct Emphasis {
    pub red: bool,
    pub green: bool,
    pub blue: bool,
}

impl Emphasis {
    pub open spec fn spec_index(self) -> int {
        4 * (if self.blue { 1int } else { 0 }) + 2 * (if self.green { 1int } else { 0 })
            + (if self.red { 1int } else { 0 })
    }

    /// No emphasis.
    pub fn off() -> (r: Emphasis)
        ensures
            !r.red && !r.green && !r.blue,
    {
        Emphasis { red: false, green: false, blue: false }
    }

    pub fn red(self) -> (r: bool)
        ensures r == self.red,
    {
        self.red
    }

    pub fn green(self) -> (r: bool)
        ensures r == self.green,
    {
        self.green
    }

    pub fn blue(self) -> (r: bool)
        ensures r == self.blue,
    {
        self.blue
    }

    /// Which of the eight emphasis combinations: blue, green and red are bits 2, 1 and 0.
    pub fn index(self) -> (r: usize)
        ensures
            r == self.spec_index(),
            r < 8,
    {
        (if self.blue { 4usize } else { 0 }) + (if self.green { 2usize } else { 0 }) + (if self.red { 1usize } else { 0 })
    }
}

/// Two writes to PPUADDR, starting from the first byte, point the current address at the
/// fourteen bit address that the high byte (its low six bits) and the low byte form.
pub proof fn lemma_ppu_addr_writes(next: u16, high: u8, low: u8)
    requires
        next < 0x8000,
    ensures
        256 * ((next % 256 + 256 * (high % 64)) / 256) + low == 256 * (high % 64) + low,
{
    assert((next % 256 + 256 * (high % 64)) / 256 == high % 64) by (nonlinear_arith)
        requires
            0 <= next % 256 < 256,
            0 <= high % 64 < 64,
    ;
}

/// The write toggle alternates: toggling twice returns to where it was.
pub proof fn lemma_write_toggle_alternates(toggle: WriteToggle)
    ensures
        toggle.spec_toggled().spec_toggled() == toggle,
        toggle.spec_toggled() != toggle,
{
}

} // verus!
