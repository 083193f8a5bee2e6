//! The traceable-capability contract.

use vstd::prelude::*;
use vstd::multiset::Multiset;
use crate::handle::CcPtr;
use crate::tracer::Tracer;

verus! {

/// A trait that informs the cycle collector how to find memory that is owned
/// by a `Trace` instance and managed by the cycle collector.
///
/// The abstract state of an implementor is `edges()`: the multiset of
/// identities of the collector-managed pointers the value directly owns.
/// Traversal reports exactly that multiset to the visitor, in no particular
/// order. Failing to report an owned pointer would let a reference cycle
/// escape collection, so `trace` promises completeness, not just soundness.
pub trait Trace: Sized {
    /// The identities of the collector-managed pointers this value directly
    /// owns. Directly: pointers reachable without crossing another
    /// collector-managed pointer, whose own edges are that pointer's
    /// responsibility in a later, separate traversal.
    spec fn edges(&self) -> Multiset<int>;

    /// Whether this type opts out of collection. Fixed per type: no instance
    /// of an atomic type can ever own a collectible pointer.
    spec fn atomic(&self) -> bool;

    /// The atomicity contract: an atomic value owns no collectible pointers,
    /// so skipping its traversal loses no edges.
    proof fn atomic_owns_nothing(&self)
        ensures
            self.atomic() ==> self.edges() == Multiset::<int>::empty(),
    ;

    /// Invoke the tracer on each of the collector-managed pointers owned by
    /// this instance: the visitor receives exactly `self.edges()`, and
    /// nothing else changes in it.
    ///
    /// Failing to invoke the tracer on every owned pointer can leak cycles.
    fn trace<V: Tracer>(&self, tracer: &mut V)
        ensures
            final(tracer).visited() == old(tracer).visited().add(self.edges()),
    ;

    /// Returns true to opt out of being tracked by the cycle collector and
    /// behave like an ordinary reference-counted pointer.
    fn is_atomic(&self) -> (r: bool)
        ensures
            r == self.atomic(),
    ;
}

/// A handle owns exactly the one box it designates: traversal bottoms out
/// here, reporting the handle itself rather than recursing into the box.
impl Trace for CcPtr {
    open spec fn edges(&self) -> Multiset<int> {
        Multiset::<int>::empty().insert(self.id())
    }

    open spec fn atomic(&self) -> bool {
        false
    }

    proof fn atomic_owns_nothing(&self) {
    }

    fn trace<V: Tracer>(&self, tracer: &mut V) {
        tracer.visit(*self);
    }

    fn is_atomic(&self) -> bool {
        false
    }
}

/// Traverse `this` unless its type is atomic. Skipping a known-atomic value
/// is a safe optimisation: by the atomicity contract it owns no edges, so
/// the visitor still ends the call holding exactly the edges of `this`.
pub fn trace_non_atomic<T: Trace, V: Tracer>(this: &T, tracer: &mut V)
    ensures
        final(tracer).visited() == old(tracer).visited().add(this.edges()),
{
    if !this.is_atomic() {
        this.trace(tracer);
    } else {
        proof {
            this.atomic_owns_nothing();
            assert(tracer.visited().add(this.edges()) =~= tracer.visited());
        }
    }
}

} // verus!
