//! The guarantees the traversal protocol gives the collector, stated once,
//! over every implementor at once.

use vstd::prelude::*;
use vstd::multiset::Multiset;
use vstd::seq_lib::group_to_multiset_ensures;
use crate::compose::lemma_seq_edges_concat;
use crate::compose::seq_edges;
use crate::guarded::GuardedCell;
use crate::handle::CcPtr;
use crate::trace::Trace;
use crate::tracer::EdgeLog;
use crate::tracer::Tracer;

verus! {

/// For every atomic-classified type, traversal invokes the visitor zero
/// times, whatever the instance: an atomic value owns no edges, so a
/// traversal pass adds nothing to what the visitor has seen.
pub proof fn lemma_atomic_reports_nothing<T: Trace>(v: &T, seen: Multiset<int>)
    ensures
        v.atomic() ==> v.edges() == Multiset::<int>::empty(),
        v.atomic() ==> seen.add(v.edges()) == seen,
{
    v.atomic_owns_nothing();
    if v.atomic() {
        assert(seen.add(v.edges()) =~= seen);
    }
}

/// An empty container reports nothing, whatever its element type.
pub proof fn lemma_empty_container_reports_nothing<T: Trace>(s: Seq<T>)
    requires
        s.len() == 0,
    ensures
        seq_edges(s) == Multiset::<int>::empty(),
{
}

/// A sequence of collector-managed pointers reports each of them exactly
/// once — one visit per pointer held, however large the sequence, and zero
/// visits for the empty sequence.
pub proof fn lemma_sequence_reports_each_pointer_once(s: Seq<CcPtr>)
    ensures
        seq_edges(s) == s.map_values(|p: CcPtr| p.id()).to_multiset(),
        s.len() == 0 ==> seq_edges(s) == Multiset::<int>::empty(),
    decreases s.len(),
{
    broadcast use group_to_multiset_ensures;

    let ids = s.map_values(|p: CcPtr| p.id());
    if s.len() == 0 {
        assert(ids =~= Seq::<int>::empty());
        assert(ids.to_multiset() =~= Multiset::<int>::empty());
    } else {
        lemma_sequence_reports_each_pointer_once(s.drop_first());
        assert(ids.remove(0) =~= s.drop_first().map_values(|p: CcPtr| p.id()));
        assert(ids.remove(0).to_multiset() =~= ids.to_multiset().remove(ids[0]));
        assert(ids.contains(ids[0]));
        assert(ids.to_multiset().count(ids[0]) > 0);
        assert(ids.to_multiset().remove(ids[0]).insert(ids[0]) =~= ids.to_multiset());
        assert(seq_edges(s) =~= ids.to_multiset());
    }
}

/// The composition law: a container of containers reports the same
/// multiset of pointers as the flattened container holding every inner
/// element side by side. Nesting changes nothing about the edge set.
pub proof fn lemma_nested_containers_flatten<T: Trace>(vs: Seq<Vec<T>>)
    ensures
        seq_edges(vs) == seq_edges(vs.map_values(|v: Vec<T>| v@).flatten()),
    decreases vs.len(),
{
    let inner = vs.map_values(|v: Vec<T>| v@);
    if vs.len() == 0 {
        assert(inner =~= Seq::<Seq<T>>::empty());
    } else {
        lemma_nested_containers_flatten(vs.drop_first());
        assert(inner.first() == vs.first()@);
        assert(inner.drop_first() =~= vs.drop_first().map_values(|v: Vec<T>| v@));
        lemma_seq_edges_concat(inner.first(), inner.drop_first().flatten());
        assert(seq_edges(vs) =~= seq_edges(inner.flatten()));
    }
}

/// The guard-skip law: while an interior-mutability wrapper's guard is held
/// externally, the wrapper's traversal reports no edges at all — the pass
/// completes without blocking, without panicking and without a visit.
pub proof fn lemma_held_guard_reports_nothing<T: Trace>(cell: &GuardedCell<T>)
    ensures
        cell.guard_held() ==> cell.edges() == Multiset::<int>::empty(),
{
}

/// Idempotence: two traversals of the same unmodified value report the
/// same multiset of pointers — each pass delivers exactly the value's edge
/// set, no more on the first pass and no fewer on the second.
pub fn trace_twice<T: Trace>(value: &T) -> (logs: (EdgeLog, EdgeLog))
    ensures
        logs.0.visited() == logs.1.visited(),
        logs.0.visited() == value.edges(),
{
    let mut first_pass = EdgeLog::new();
    value.trace(&mut first_pass);
    let mut second_pass = EdgeLog::new();
    value.trace(&mut second_pass);
    proof {
        assert(Multiset::<int>::empty().add(value.edges()) =~= value.edges());
    }
    (first_pass, second_pass)
}

} // verus!
