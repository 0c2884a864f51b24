use vstd::prelude::*;

verus! {

/// A record kept in a slot arena: it knows whether its slot is live and
/// which slot it sits in.
pub trait Component: Sized {
    /// Whether the record's slot is in use.
    spec fn live(&self) -> bool;

    /// The record holds the kind-specific defaults, is bound to `slot` and
    /// is live.
    spec fn is_fresh(&self, slot: u32) -> bool;

    /// The record is the unbound placeholder: not live, slot 0, and the
    /// kind-specific defaults.
    spec fn is_uninit(&self) -> bool;

    /// A fresh record is live.
    proof fn lemma_fresh_is_live(r: Self, slot: u32)
        requires
            r.is_fresh(slot),
        ensures
            r.live(),
    ;

    /// Returns an uninitialized instance of this component.
    fn uninit() -> (r: Self)
        ensures
            r.is_uninit(),
            !r.live(),
    ;

    /// Returns the record with defaults for a newly bound slot.
    fn fresh(slot: u32) -> (r: Self)
        ensures
            r.is_fresh(slot),
            r.live(),
    ;

    /// Whether the record's slot is in use.
    fn is_live(&self) -> (r: bool)
        ensures
            r == self.live(),
    ;
}

} // verus!
