use vstd::prelude::*;

use crate::ppu::palette::system_palette::SystemPalette;

verus! {

/// Turns PPU colors into RGB by looking them up in a system palette.
pub struct SystemPaletteDecoder {
    system_palette: SystemPalette,
}

impl SystemPaletteDecoder {
    pub closed spec fn spec_system_palette(&self) -> SystemPalette {
        self.system_palette
    }

    pub fn new(system_palette: SystemPalette) -> (r: SystemPaletteDecoder)
        ensures
            r.spec_system_palette() == system_palette,
    {
        SystemPaletteDecoder { system_palette }
    }

    pub fn system_palette(&self) -> (r: &SystemPalette)
        ensures
            *r == self.spec_system_palette(),
    {
        &self.system_palette
    }
}

} // verus!
