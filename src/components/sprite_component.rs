use vstd::prelude::*;

use super::Component;

verus! {

/// A component that describes what to draw for an entity: one cell of a
/// sprite sheet, or a whole tile map when `tilemap` is set.
pub struct SpriteComponent {
    pub exists: bool,
    pub id: u32,
    /// Render-side quad handle; meaningful once the sprite has been drawn.
    pub quad_id: u32,
    pub tex_name: String,
    pub sprite_index: u32,
    pub tilemap: Option<Vec<u32>>,
    pub tilemap_width: u32,
    pub tilemap_height: u32,
    /// Render geometry must be generated again before the next draw.
    pub should_update: bool,
}

impl Component for SpriteComponent {
    open spec fn live(&self) -> bool {
        self.exists
    }

    open spec fn is_fresh(&self, slot: u32) -> bool {
        &&& self.exists
        &&& self.id == slot
        &&& self.quad_id == 0
        &&& self.tex_name@ == seq!['b', 'l', 'a', 'c', 'k']
        &&& self.sprite_index == 0
        &&& self.tilemap is None
        &&& self.tilemap_width == 0
        &&& self.tilemap_height == 0
        &&& self.should_update
    }

    open spec fn is_uninit(&self) -> bool {
        &&& !self.exists
        &&& self.id == 0
        &&& self.quad_id == 0
        &&& self.tex_name@ == seq!['b', 'l', 'a', 'c', 'k']
        &&& self.sprite_index == 0
        &&& self.tilemap is None
        &&& self.tilemap_width == 0
        &&& self.tilemap_height == 0
        &&& self.should_update
    }

    proof fn lemma_fresh_is_live(r: Self, slot: u32) {
    }

    fn uninit() -> (r: Self) {
        let mut r = Self::fresh(0);
        r.exists = false;
        r
    }

    fn fresh(slot: u32) -> (r: Self) {
        let tex_name = String::from_str("black");
        proof {
            reveal_strlit("black");
            assert(tex_name@ =~= seq!['b', 'l', 'a', 'c', 'k']);
        }
        SpriteComponent {
            exists: true,
            id: slot,
            quad_id: 0,
            tex_name,
            sprite_index: 0,
            tilemap: None,
            tilemap_width: 0,
            tilemap_height: 0,
            should_update: true,
        }
    }

    fn is_live(&self) -> (r: bool) {
        self.exists
    }
}

} // verus!
