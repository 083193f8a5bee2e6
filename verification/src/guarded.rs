//! The interior-mutability wrapper and its guard interaction.
//!
//! A value behind a runtime-checked exclusivity guard may only be traversed
//! when the guard can be taken without blocking. If the guard is already
//! held elsewhere, the holder's outstanding access keeps the structure
//! reachable through ordinary control flow, so this pass silently reports
//! no edges for it: a conservative possible leak, never a block, a panic or
//! undefined behaviour.

use vstd::prelude::*;
use vstd::multiset::Multiset;
use crate::trace::Trace;
use crate::tracer::Tracer;

verus! {

/// A cell that hands out checked exclusive access to its value.
///
/// The exclusivity flag stands in for the cell's outstanding-borrow state:
/// while some holder has acquired the guard, nobody else — the collector
/// included — may look at the value.
pub struct GuardedCell<T> {
    value: T,
    held: bool,
}

impl<T> GuardedCell<T> {
    /// Whether the guard is currently held by some external holder.
    pub closed spec fn guard_held(&self) -> bool {
        self.held
    }

    /// The value the cell wraps.
    pub closed spec fn contents(&self) -> T {
        self.value
    }

    /// A fresh cell; its guard starts out free.
    pub fn new(value: T) -> (cell: GuardedCell<T>)
        ensures
            !cell.guard_held(),
            cell.contents() == value,
    {
        GuardedCell { value, held: false }
    }

    /// Non-blocking attempt to take the guard: succeeds exactly when no
    /// holder has it, and never waits.
    pub fn acquire(&mut self) -> (taken: bool)
        ensures
            taken == !old(self).guard_held(),
            final(self).guard_held(),
            final(self).contents() == old(self).contents(),
    {
        if self.held {
            false
        } else {
            self.held = true;
            true
        }
    }

    /// Give the guard back.
    pub fn release(&mut self)
        requires
            old(self).guard_held(),
        ensures
            !final(self).guard_held(),
            final(self).contents() == old(self).contents(),
    {
        self.held = false;
    }

    /// Read the wrapped value; demands that nobody holds exclusive access.
    pub fn peek(&self) -> (value: &T)
        requires
            !self.guard_held(),
        ensures
            *value == self.contents(),
    {
        &self.value
    }
}

/// A guarded cell owns the edges of its value — but only while its guard
/// can be taken. With the guard held elsewhere the cell reports nothing,
/// and in particular traversal neither blocks nor panics.
impl<T: Trace> Trace for GuardedCell<T> {
    open spec fn edges(&self) -> Multiset<int> {
        if self.guard_held() {
            Multiset::<int>::empty()
        } else {
            self.contents().edges()
        }
    }

    open spec fn atomic(&self) -> bool {
        false
    }

    proof fn atomic_owns_nothing(&self) {
    }

    fn trace<V: Tracer>(&self, tracer: &mut V) {
        if !self.held {
            self.value.trace(tracer);
        } else {
            proof {
                assert(tracer.visited().add(self.edges()) =~= tracer.visited());
            }
        }
    }

    fn is_atomic(&self) -> bool {
        false
    }
}

} // verus!
