use vstd::prelude::*;

use crate::gui::debug_screens::sprite::{u32_from_be_bytes, Sprite};
use crate::ppu::sprite::oam::{spec_stored_byte, Oam, OAM_SIZE};
use crate::ppu::sprite::oam_address::OamAddress;
use crate::ppu::sprite::sprite_attributes::{Priority, SpriteAttributes};

verus! {

/// Whether the sprite whose priority the debug view reads (from the first byte of the sprite,
/// repeated in all four places) is drawn with the given priority.
pub open spec fn spec_debug_priority(bytes: Seq<u8>, sprite: int) -> Priority {
    Priority::spec_from_bool((bytes[4 * sprite] / 32) % 2 == 1)
}

/// What a debug view of the first sixteen sprites keeps: sprites that don't have the wanted
/// priority are zeroed out.
pub open spec fn spec_only_sprites(bytes: Seq<u8>, wanted: Priority) -> Seq<u8> {
    Seq::new(bytes.len(), |i: int| {
        if i < 64 && spec_debug_priority(bytes, i / 4) != wanted {
            0u8
        } else {
            bytes[i]
        }
    })
}

impl Oam {
    /// For debug windows: a copy with the sprites that are drawn behind the background hidden.
    /// Only the first sixteen sprites are considered, and each one's priority is read from the
    /// sprite's first byte.
    pub fn only_front_sprites(&self) -> (r: Oam)
        requires
            self.wf(),
        ensures
            r.wf(),
            r@ == spec_only_sprites(self@, Priority::InFront),
    {
        self.only_sprites_with_priority(Priority::InFront)
    }

    /// For debug windows: a copy with the sprites that are drawn in front of the background hidden.
    /// Only the first sixteen sprites are considered, and each one's priority is read from the
    /// sprite's first byte.
    pub fn only_back_sprites(&self) -> (r: Oam)
        requires
            self.wf(),
        ensures
            r.wf(),
            r@ == spec_only_sprites(self@, Priority::Behind),
    {
        self.only_sprites_with_priority(Priority::Behind)
    }

    fn only_sprites_with_priority(&self, wanted: Priority) -> (r: Oam)
        requires
            self.wf(),
        ensures
            r.wf(),
            r@ == spec_only_sprites(self@, wanted),
    {
        let mut result = self.clone();
        let mut sprite: usize = 0;
        while sprite < 16
            invariant
                result.wf(),
                self.wf(),
                sprite <= 16,
                forall|i: int| 0 <= i < 4 * sprite ==> #[trigger] result@[i] == spec_only_sprites(self@, wanted)[i],
                forall|i: int| 4 * sprite <= i < OAM_SIZE ==> #[trigger] result@[i] == self@[i],
            decreases 16 - sprite,
        {
            let i = 4 * sprite;
            let b = result.to_raw()[i];
            let value = u32_from_be_bytes(b, b, b, b);
            let s = Sprite::from_u32(value);
            if s.priority() != wanted {
                result.write(OamAddress::from_u8(i as u8), 0);
                result.write(OamAddress::from_u8(i as u8 + 1), 0);
                result.write(OamAddress::from_u8(i as u8 + 2), 0);
                result.write(OamAddress::from_u8(i as u8 + 3), 0);
                proof {
                    assert(spec_stored_byte((i + 2) as u8, 0) == 0) by (bit_vector);
                }
            }
            proof {
                assert forall|j: int| 0 <= j < 4 * (sprite + 1) implies #[trigger] result@[j]
                    == spec_only_sprites(self@, wanted)[j] by {
                    if j >= 4 * sprite {
                        assert(j / 4 == sprite);
                    }
                }
            }
            sprite = sprite + 1;
        }
        result
    }

    /// For debug windows: all 64 sprites.
    pub fn sprites(&self) -> (r: Vec<Sprite>)
        requires
            self.wf(),
        ensures
            r@.len() == 64,
            forall|n: int| 0 <= n < 64 ==> {
                &&& (#[trigger] r@[n]).spec_y()@ == self@[4 * n]
                &&& r@[n].spec_tile_number()@ == self@[4 * n + 1]
                &&& r@[n].spec_attributes().spec_decodes(self@[4 * n + 2])
                &&& r@[n].spec_x()@ == self@[4 * n + 3]
            },
    {
        let raw = self.to_raw();
        let mut result: Vec<Sprite> = Vec::new();
        let mut n: usize = 0;
        while n < 64
            invariant
                raw@ == self@,
                self.wf(),
                n <= 64,
                result@.len() == n,
                forall|k: int| 0 <= k < n ==> {
                    &&& (#[trigger] result@[k]).spec_y()@ == self@[4 * k]
                    &&& result@[k].spec_tile_number()@ == self@[4 * k + 1]
                    &&& result@[k].spec_attributes().spec_decodes(self@[4 * k + 2])
                    &&& result@[k].spec_x()@ == self@[4 * k + 3]
                },
            decreases 64 - n,
        {
            let b0 = raw[4 * n];
            let b1 = raw[4 * n + 1];
            let b2 = raw[4 * n + 2];
            let b3 = raw[4 * n + 3];
            let value = u32_from_be_bytes(b0, b1, b2, b3);
            result.push(Sprite::from_u32(value));
            n = n + 1;
        }
        result
    }
}

} // verus!
