//! The atomic leaf types. A type is atomic exactly when no instance of it
//! can ever, now or after mutation, own a collector-managed pointer; the
//! collector then treats it as an opaque leaf and skips it. Primitive
//! scalars and plain text own no pointers at all, so each of them is marked
//! atomic here, with a traversal that is a proved no-op.

use vstd::prelude::*;
use vstd::multiset::Multiset;
use crate::trace::Trace;
use crate::tracer::Tracer;

verus! {

impl Trace for bool {
    open spec fn edges(&self) -> Multiset<int> {
        Multiset::<int>::empty()
    }

    open spec fn atomic(&self) -> bool {
        true
    }

    proof fn atomic_owns_nothing(&self) {
    }

    fn trace<V: Tracer>(&self, tracer: &mut V) {
        proof {
            assert(tracer.visited().add(self.edges()) =~= tracer.visited());
        }
    }

    fn is_atomic(&self) -> bool {
        true
    }
}

impl Trace for char {
    open spec fn edges(&self) -> Multiset<int> {
        Multiset::<int>::empty()
    }

    open spec fn atomic(&self) -> bool {
        true
    }

    proof fn atomic_owns_nothing(&self) {
    }

    fn trace<V: Tracer>(&self, tracer: &mut V) {
        proof {
            assert(tracer.visited().add(self.edges()) =~= tracer.visited());
        }
    }

    fn is_atomic(&self) -> bool {
        true
    }
}

impl Trace for i8 {
    open spec fn edges(&self) -> Multiset<int> {
        Multiset::<int>::empty()
    }

    open spec fn atomic(&self) -> bool {
        true
    }

    proof fn atomic_owns_nothing(&self) {
    }

    fn trace<V: Tracer>(&self, tracer: &mut V) {
        proof {
            assert(tracer.visited().add(self.edges()) =~= tracer.visited());
        }
    }

    fn is_atomic(&self) -> bool {
        true
    }
}

impl Trace for i16 {
    open spec fn edges(&self) -> Multiset<int> {
        Multiset::<int>::empty()
    }

    open spec fn atomic(&self) -> bool {
        true
    }

    proof fn atomic_owns_nothing(&self) {
    }

    fn trace<V: Tracer>(&self, tracer: &mut V) {
        proof {
            assert(tracer.visited().add(self.edges()) =~= tracer.visited());
        }
    }

    fn is_atomic(&self) -> bool {
        true
    }
}

impl Trace for i32 {
    open spec fn edges(&self) -> Multiset<int> {
        Multiset::<int>::empty()
    }

    open spec fn atomic(&self) -> bool {
        true
    }

    proof fn atomic_owns_nothing(&self) {
    }

    fn trace<V: Tracer>(&self, tracer: &mut V) {
        proof {
            assert(tracer.visited().add(self.edges()) =~= tracer.visited());
        }
    }

    fn is_atomic(&self) -> bool {
        true
    }
}

impl Trace for i64 {
    open spec fn edges(&self) -> Multiset<int> {
        Multiset::<int>::empty()
    }

    open spec fn atomic(&self) -> bool {
        true
    }

    proof fn atomic_owns_nothing(&self) {
    }

    fn trace<V: Tracer>(&self, tracer: &mut V) {
        proof {
            assert(tracer.visited().add(self.edges()) =~= tracer.visited());
        }
    }

    fn is_atomic(&self) -> bool {
        true
    }
}

impl Trace for isize {
    open spec fn edges(&self) -> Multiset<int> {
        Multiset::<int>::empty()
    }

    open spec fn atomic(&self) -> bool {
        true
    }

    proof fn atomic_owns_nothing(&self) {
    }

    fn trace<V: Tracer>(&self, tracer: &mut V) {
        proof {
            assert(tracer.visited().add(self.edges()) =~= tracer.visited());
        }
    }

    fn is_atomic(&self) -> bool {
        true
    }
}

impl Trace for u8 {
    open spec fn edges(&self) -> Multiset<int> {
        Multiset::<int>::empty()
    }

    open spec fn atomic(&self) -> bool {
        true
    }

    proof fn atomic_owns_nothing(&self) {
    }

    fn trace<V: Tracer>(&self, tracer: &mut V) {
        proof {
            assert(tracer.visited().add(self.edges()) =~= tracer.visited());
        }
    }

    fn is_atomic(&self) -> bool {
        true
    }
}

impl Trace for u16 {
    open spec fn edges(&self) -> Multiset<int> {
        Multiset::<int>::empty()
    }

    open spec fn atomic(&self) -> bool {
        true
    }

    proof fn atomic_owns_nothing(&self) {
    }

    fn trace<V: Tracer>(&self, tracer: &mut V) {
        proof {
            assert(tracer.visited().add(self.edges()) =~= tracer.visited());
        }
    }

    fn is_atomic(&self) -> bool {
        true
    }
}

impl Trace for u32 {
    open spec fn edges(&self) -> Multiset<int> {
        Multiset::<int>::empty()
    }

    open spec fn atomic(&self) -> bool {
        true
    }

    proof fn atomic_owns_nothing(&self) {
    }

    fn trace<V: Tracer>(&self, tracer: &mut V) {
        proof {
            assert(tracer.visited().add(self.edges()) =~= tracer.visited());
        }
    }

    fn is_atomic(&self) -> bool {
        true
    }
}

impl Trace for u64 {
    open spec fn edges(&self) -> Multiset<int> {
        Multiset::<int>::empty()
    }

    open spec fn atomic(&self) -> bool {
        true
    }

    proof fn atomic_owns_nothing(&self) {
    }

    fn trace<V: Tracer>(&self, tracer: &mut V) {
        proof {
            assert(tracer.visited().add(self.edges()) =~= tracer.visited());
        }
    }

    fn is_atomic(&self) -> bool {
        true
    }
}

impl Trace for usize {
    open spec fn edges(&self) -> Multiset<int> {
        Multiset::<int>::empty()
    }

    open spec fn atomic(&self) -> bool {
        true
    }

    proof fn atomic_owns_nothing(&self) {
    }

    fn trace<V: Tracer>(&self, tracer: &mut V) {
        proof {
            assert(tracer.visited().add(self.edges()) =~= tracer.visited());
        }
    }

    fn is_atomic(&self) -> bool {
        true
    }
}

impl Trace for String {
    open spec fn edges(&self) -> Multiset<int> {
        Multiset::<int>::empty()
    }

    open spec fn atomic(&self) -> bool {
        true
    }

    proof fn atomic_owns_nothing(&self) {
    }

    fn trace<V: Tracer>(&self, tracer: &mut V) {
        proof {
            assert(tracer.visited().add(self.edges()) =~= tracer.visited());
        }
    }

    fn is_atomic(&self) -> bool {
        true
    }
}

impl Trace for () {
    open spec fn edges(&self) -> Multiset<int> {
        Multiset::<int>::empty()
    }

    open spec fn atomic(&self) -> bool {
        true
    }

    proof fn atomic_owns_nothing(&self) {
    }

    fn trace<V: Tracer>(&self, tracer: &mut V) {
        proof {
            assert(tracer.visited().add(self.edges()) =~= tracer.visited());
        }
    }

    fn is_atomic(&self) -> bool {
        true
    }
}

} // verus!
