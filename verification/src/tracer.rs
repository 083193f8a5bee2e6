//! The visitor side of the protocol: the collector supplies a tracer, and a
//! traversal reports to it every collectible pointer the traversed value
//! directly owns.

use vstd::prelude::*;
use vstd::multiset::Multiset;
use vstd::seq_lib::group_to_multiset_ensures;
use crate::handle::CcPtr;

verus! {

/// A visitor supplied by the collector for one traversal pass.
///
/// A traversal invokes `visit` once for every collector-managed pointer the
/// traversed value directly owns. What a pass has reported so far is the
/// multiset `visited()`: traversal order carries no meaning, only the
/// completeness of the reported edge set does.
pub trait Tracer: Sized {
    /// The multiset of box identities reported to this visitor so far.
    spec fn visited(&self) -> Multiset<int>;

    /// Receive one directly-owned collectible pointer.
    fn visit(&mut self, ptr: CcPtr)
        ensures
            final(self).visited() == old(self).visited().insert(ptr.id()),
    ;
}

/// A tracer that records every reported pointer, in the order the traversal
/// happened to produce them.
pub struct EdgeLog {
    edges: Vec<CcPtr>,
}

impl EdgeLog {
    /// The identities recorded so far, in report order.
    pub closed spec fn log(&self) -> Seq<int> {
        self.edges@.map_values(|p: CcPtr| p.id())
    }

    pub fn new() -> (log: EdgeLog)
        ensures
            log.visited() == Multiset::<int>::empty(),
            log.log() == Seq::<int>::empty(),
    {
        let log = EdgeLog { edges: Vec::new() };
        proof {
            assert(log.log() =~= Seq::<int>::empty());
            log.log().to_multiset_ensures();
            assert(log.visited() =~= Multiset::<int>::empty());
        }
        log
    }

    /// How many pointers have been reported to this log.
    pub fn len(&self) -> (n: usize)
        ensures
            n == self.log().len(),
            n == self.visited().len(),
    {
        proof {
            self.log().to_multiset_ensures();
        }
        self.edges.len()
    }

    /// The `i`-th reported pointer, in report order.
    pub fn get(&self, i: usize) -> (p: CcPtr)
        requires
            i < self.log().len(),
        ensures
            p.id() == self.log()[i as int],
    {
        self.edges[i]
    }
}

impl Tracer for EdgeLog {
    open spec fn visited(&self) -> Multiset<int> {
        self.log().to_multiset()
    }

    fn visit(&mut self, ptr: CcPtr) {
        self.edges.push(ptr);
        proof {
            broadcast use group_to_multiset_ensures;
            assert(self.log() =~= old(self).log().push(ptr.id()));
        }
    }
}

} // verus!
