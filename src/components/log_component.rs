use vstd::prelude::*;

use super::Component;

verus! {

/// A component that holds a message waiting to be logged.
pub struct LogComponent {
    pub exists: bool,
    pub id: u32,
    pub has_info: bool,
    pub message: String,
}

impl Component for LogComponent {
    open spec fn live(&self) -> bool {
        self.exists
    }

    open spec fn is_fresh(&self, slot: u32) -> bool {
        &&& self.exists
        &&& self.id == slot
        &&& !self.has_info
        &&& self.message@ == Seq::<char>::empty()
    }

    open spec fn is_uninit(&self) -> bool {
        &&& !self.exists
        &&& self.id == 0
        &&& !self.has_info
        &&& self.message@ == Seq::<char>::empty()
    }

    proof fn lemma_fresh_is_live(r: Self, slot: u32) {
    }

    fn uninit() -> (r: Self) {
        LogComponent { exists: false, id: 0, has_info: false, message: String::new() }
    }

    fn fresh(slot: u32) -> (r: Self) {
        LogComponent { exists: true, id: slot, has_info: false, message: String::new() }
    }

    fn is_live(&self) -> (r: bool) {
        self.exists
    }
}

} // verus!
