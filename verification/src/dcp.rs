//! Categories of the device's control protocol.

use vstd::prelude::*;

verus! {

/// A category of the control protocol, known by its 16-bit identifier. The
/// device can be asked whether it supports one.
#[derive(Copy, Clone, Debug, PartialEq, Eq, Structural)]
pub struct DCPCategory {
    id: u16,
}

impl DCPCategory {
    /// The category with the identifier `id`.
    pub fn new(id: u16) -> (category: DCPCategory)
        ensures
            category.spec_id() == id,
    {
        DCPCategory { id }
    }

    /// The identifier of the category.
    pub closed spec fn spec_id(self) -> u16 {
        self.id
    }

    /// The identifier of the category.
    pub fn id(&self) -> (id: u16)
        ensures
            id == self.spec_id(),
    {
        self.id
    }
}

} // verus!
