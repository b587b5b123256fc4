//! The aircraft data the overlays consult.
use vstd::prelude::*;

verus! {

/// Data of the current aircraft: whether it is jet powered.
#[derive(Debug, Clone, Copy)]
pub struct Blkx {
    pub is_jet: bool,
}

impl Default for Blkx {
    fn default() -> (r: Blkx)
        ensures
            !r.is_jet,
    {
        Blkx { is_jet: false }
    }
}

} // verus!
