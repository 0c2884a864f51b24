use vstd::prelude::*;

use super::Component;

verus! {

/// Sub-pixel units in one pixel: precise coordinates and speeds are kept
/// in thousandths of a pixel, so that every movement constant is exact.
pub const SUBPIXELS: i32 = 1000;

/// A component that places an entity in the world.
///
/// `x` and `y` are whole pixels; `prec_x`, `prec_y` (position) and
/// `spd_x`, `spd_y` (speed per frame) are in thousandths of a pixel.
#[derive(Clone, Copy, Debug, PartialEq, Eq, Structural)]
pub struct PositionComponent {
    pub exists: bool,
    pub id: u32,
    pub x: i32,
    pub y: i32,
    pub prec_x: i32,
    pub prec_y: i32,
    pub spd_x: i32,
    pub spd_y: i32,
}

impl Component for PositionComponent {
    open spec fn live(&self) -> bool {
        self.exists
    }

    open spec fn is_fresh(&self, slot: u32) -> bool {
        *self == PositionComponent {
            exists: true,
            id: slot,
            x: 0,
            y: 0,
            prec_x: 0,
            prec_y: 0,
            spd_x: 0,
            spd_y: 0,
        }
    }

    open spec fn is_uninit(&self) -> bool {
        *self == PositionComponent {
            exists: false,
            id: 0,
            x: 0,
            y: 0,
            prec_x: 0,
            prec_y: 0,
            spd_x: 0,
            spd_y: 0,
        }
    }

    proof fn lemma_fresh_is_live(r: Self, slot: u32) {
    }

    fn uninit() -> (r: Self) {
        PositionComponent {
            exists: false,
            id: 0,
            x: 0,
            y: 0,
            prec_x: 0,
            prec_y: 0,
            spd_x: 0,
            spd_y: 0,
        }
    }

    fn fresh(slot: u32) -> (r: Self) {
        PositionComponent {
            exists: true,
            id: slot,
            x: 0,
            y: 0,
            prec_x: 0,
            prec_y: 0,
            spd_x: 0,
            spd_y: 0,
        }
    }

    fn is_live(&self) -> (r: bool) {
        self.exists
    }
}

} // verus!
