//! Material slots of the terrain material set.
use vstd::prelude::*;

verus! {

/// Index of a material in the terrain material set.
#[derive(Debug, Clone, Copy, PartialEq, Eq, Structural)]
pub struct MaterialSlot(pub u8);

impl MaterialSlot {
    /// The index of the slot.
    pub fn value(&self) -> (res: u8)
        ensures
            res == self.0,
    {
        self.0
    }
}

impl vstd::std_specs::convert::FromSpecImpl<u8> for MaterialSlot {
    open spec fn obeys_from_spec() -> bool {
        true
    }

    open spec fn from_spec(v: u8) -> MaterialSlot {
        MaterialSlot(v)
    }
}

impl From<u8> for MaterialSlot {
    fn from(v: u8) -> (res: MaterialSlot) {
        MaterialSlot(v)
    }
}

} // verus!
