//! Traversal of the built-in composite kinds: growable and double-ended
//! sequences, optional values, success/failure values, and the
//! exclusive-ownership box. Each reports exactly the combined direct edges
//! of the values it holds, by delegating to each of them in turn.

use vstd::prelude::*;
use vstd::multiset::Multiset;
use std::collections::VecDeque;
use crate::compose::lemma_seq_edges_skip_step;
use crate::compose::seq_edges;
use crate::trace::Trace;
use crate::tracer::Tracer;

verus! {

/// Traverse the elements of `v` from position `i` to the back, reporting
/// the edges of that suffix.
fn trace_vec_from<T: Trace, V: Tracer>(v: &Vec<T>, i: usize, tracer: &mut V)
    requires
        i <= v.len(),
    ensures
        final(tracer).visited() == old(tracer).visited().add(seq_edges(v@.skip(i as int))),
    decreases v.len() - i,
{
    if i < v.len() {
        let t = &v[i];
        t.trace(tracer);
        trace_vec_from(v, i + 1, tracer);
        proof {
            lemma_seq_edges_skip_step(v@, i as int);
            assert(old(tracer).visited().add(v@[i as int].edges()).add(seq_edges(v@.skip(
                i as int + 1,
            ))) =~= old(tracer).visited().add(seq_edges(v@.skip(i as int))));
        }
    } else {
        proof {
            assert(v@.skip(i as int) =~= Seq::<T>::empty());
            assert(tracer.visited().add(seq_edges(v@.skip(i as int))) =~= tracer.visited());
        }
    }
}

/// A growable sequence owns the edges of each of its elements.
impl<T: Trace> Trace for Vec<T> {
    open spec fn edges(&self) -> Multiset<int> {
        seq_edges(self@)
    }

    open spec fn atomic(&self) -> bool {
        false
    }

    proof fn atomic_owns_nothing(&self) {
    }

    fn trace<V: Tracer>(&self, tracer: &mut V) {
        trace_vec_from(self, 0, tracer);
        proof {
            assert(self@.skip(0) =~= self@);
        }
    }

    fn is_atomic(&self) -> bool {
        false
    }
}

/// Traverse the elements of `q` from position `i` to the back, reporting
/// the edges of that suffix.
fn trace_deque_from<T: Trace, V: Tracer>(q: &VecDeque<T>, i: usize, tracer: &mut V)
    requires
        i <= q.len(),
    ensures
        final(tracer).visited() == old(tracer).visited().add(seq_edges(q@.skip(i as int))),
    decreases q.len() - i,
{
    if i < q.len() {
        let t = &q[i];
        t.trace(tracer);
        trace_deque_from(q, i + 1, tracer);
        proof {
            lemma_seq_edges_skip_step(q@, i as int);
            assert(old(tracer).visited().add(q@[i as int].edges()).add(seq_edges(q@.skip(
                i as int + 1,
            ))) =~= old(tracer).visited().add(seq_edges(q@.skip(i as int))));
        }
    } else {
        proof {
            assert(q@.skip(i as int) =~= Seq::<T>::empty());
            assert(tracer.visited().add(seq_edges(q@.skip(i as int))) =~= tracer.visited());
        }
    }
}

/// A double-ended queue owns the edges of each of its elements.
impl<T: Trace> Trace for VecDeque<T> {
    open spec fn edges(&self) -> Multiset<int> {
        seq_edges(self@)
    }

    open spec fn atomic(&self) -> bool {
        false
    }

    proof fn atomic_owns_nothing(&self) {
    }

    fn trace<V: Tracer>(&self, tracer: &mut V) {
        trace_deque_from(self, 0, tracer);
        proof {
            assert(self@.skip(0) =~= self@);
        }
    }

    fn is_atomic(&self) -> bool {
        false
    }
}

/// An optional value owns the edges of the value it holds, if any.
impl<T: Trace> Trace for Option<T> {
    open spec fn edges(&self) -> Multiset<int> {
        match self {
            Option::Some(t) => t.edges(),
            Option::None => Multiset::<int>::empty(),
        }
    }

    open spec fn atomic(&self) -> bool {
        false
    }

    proof fn atomic_owns_nothing(&self) {
    }

    fn trace<V: Tracer>(&self, tracer: &mut V) {
        match self {
            Option::Some(t) => t.trace(tracer),
            Option::None => {
                proof {
                    assert(tracer.visited().add(self.edges()) =~= tracer.visited());
                }
            },
        }
    }

    fn is_atomic(&self) -> bool {
        false
    }
}

/// A success/failure value owns the edges of whichever branch it holds.
impl<T: Trace, E: Trace> Trace for Result<T, E> {
    open spec fn edges(&self) -> Multiset<int> {
        match self {
            Result::Ok(t) => t.edges(),
            Result::Err(e) => e.edges(),
        }
    }

    open spec fn atomic(&self) -> bool {
        false
    }

    proof fn atomic_owns_nothing(&self) {
    }

    fn trace<V: Tracer>(&self, tracer: &mut V) {
        match self {
            Result::Ok(t) => t.trace(tracer),
            Result::Err(e) => e.trace(tracer),
        }
    }

    fn is_atomic(&self) -> bool {
        false
    }
}

/// The exclusive-ownership box owns exactly the edges of its single value.
impl<T: Trace> Trace for Box<T> {
    open spec fn edges(&self) -> Multiset<int> {
        (**self).edges()
    }

    open spec fn atomic(&self) -> bool {
        false
    }

    proof fn atomic_owns_nothing(&self) {
    }

    fn trace<V: Tracer>(&self, tracer: &mut V) {
        (&**self).trace(tracer);
    }

    fn is_atomic(&self) -> bool {
        false
    }
}

} // verus!
