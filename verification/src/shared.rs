//! Shared-ownership pointers and synchronization primitives.
//!
//! A shared-ownership pointer belongs to its own, independent
//! reference-counting domain: its referent is kept alive by that domain,
//! not by this collector's boxes, so the collector must not reach through
//! it. Marking such pointers atomic keeps the collector out of a domain it
//! does not manage and avoids double-counting across ownership systems.
//! Synchronization primitives cannot participate in a collected cycle at
//! all; tracing them would be unsafe or meaningless.

use vstd::prelude::*;
use vstd::multiset::Multiset;
use std::rc::Rc;
use std::sync::Arc;
use std::sync::Mutex;
use std::sync::RwLock;
use crate::trace::Trace;
use crate::tracer::Tracer;

verus! {

/// Declares `std::sync::Mutex` to the verifier. The type stays opaque: the
/// traversal never locks or reads a mutex, so no method of it is specified
/// or called.
#[verifier::reject_recursive_types(T)]
#[verifier::external_type_specification]
#[verifier::external_body]
pub struct ExMutex<T>(Mutex<T>) where T: ?Sized;

/// Declares `std::sync::RwLock` to the verifier; opaque for the same
/// reason as `Mutex`.
#[verifier::reject_recursive_types(T)]
#[verifier::external_type_specification]
#[verifier::external_body]
pub struct ExRwLock<T>(RwLock<T>) where T: ?Sized;

/// A shared-ownership pointer is an opaque leaf to this collector.
impl<T> Trace for Rc<T> {
    open spec fn edges(&self) -> Multiset<int> {
        Multiset::<int>::empty()
    }

    open spec fn atomic(&self) -> bool {
        true
    }

    proof fn atomic_owns_nothing(&self) {
    }

    fn trace<V: Tracer>(&self, tracer: &mut V) {
        proof {
            assert(tracer.visited().add(self.edges()) =~= tracer.visited());
        }
    }

    fn is_atomic(&self) -> bool {
        true
    }
}

/// An atomically reference-counted pointer: same rule as `Rc`.
impl<T> Trace for Arc<T> {
    open spec fn edges(&self) -> Multiset<int> {
        Multiset::<int>::empty()
    }

    open spec fn atomic(&self) -> bool {
        true
    }

    proof fn atomic_owns_nothing(&self) {
    }

    fn trace<V: Tracer>(&self, tracer: &mut V) {
        proof {
            assert(tracer.visited().add(self.edges()) =~= tracer.visited());
        }
    }

    fn is_atomic(&self) -> bool {
        true
    }
}

/// A mutual-exclusion lock is a synchronization primitive: atomic.
impl<T> Trace for Mutex<T> {
    open spec fn edges(&self) -> Multiset<int> {
        Multiset::<int>::empty()
    }

    open spec fn atomic(&self) -> bool {
        true
    }

    proof fn atomic_owns_nothing(&self) {
    }

    fn trace<V: Tracer>(&self, tracer: &mut V) {
        proof {
            assert(tracer.visited().add(self.edges()) =~= tracer.visited());
        }
    }

    fn is_atomic(&self) -> bool {
        true
    }
}

/// A reader-writer lock is a synchronization primitive too. Examining its
/// contents would mean taking the write side, which can block; traversal
/// never blocks, so the lock is an opaque leaf.
impl<T> Trace for RwLock<T> {
    open spec fn edges(&self) -> Multiset<int> {
        Multiset::<int>::empty()
    }

    open spec fn atomic(&self) -> bool {
        true
    }

    proof fn atomic_owns_nothing(&self) {
    }

    fn trace<V: Tracer>(&self, tracer: &mut V) {
        proof {
            assert(tracer.visited().add(self.edges()) =~= tracer.visited());
        }
    }

    fn is_atomic(&self) -> bool {
        true
    }
}

} // verus!
