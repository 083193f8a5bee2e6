//! The collector-managed pointer handle, as the traversal protocol sees it.

use vstd::prelude::*;

verus! {

/// A handle to one reference-counted box managed by the cycle collector.
///
/// The traversal protocol never looks inside the box a handle designates;
/// it only reports the handle to the visitor. All the protocol needs of a
/// handle is an identity, so the handle carries the box's address as a
/// plain number.
#[derive(Clone, Copy, PartialEq, Eq, Structural, Debug)]
pub struct CcPtr {
    /// Address of the reference-counted box this handle designates.
    pub addr: usize,
}

impl CcPtr {
    /// The identity of the designated box, as a mathematical integer.
    pub open spec fn id(self) -> int {
        self.addr as int
    }

    pub fn new(addr: usize) -> (p: CcPtr)
        ensures
            p.id() == addr as int,
    {
        CcPtr { addr }
    }
}

} // verus!
