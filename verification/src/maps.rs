//! Traversal of keyed maps, ordered and hashed. Only the value side of a
//! map owns edges: keys index the values, they are never owned pointers.
//! Maps here are keyed by a plain integer, the form the verifier's model
//! of the standard maps supports.

use vstd::prelude::*;
use vstd::multiset::Multiset;
use vstd::laws_cmp::group_laws_cmp;
use vstd::std_specs::iter::IteratorSpec;
use vstd::std_specs::btree::axiom_key_obeys_cmp_spec_meaning;
use vstd::std_specs::btree::key_obeys_cmp_spec;
use vstd::std_specs::btree::into_iter_values as btree_iter_values;
use vstd::std_specs::btree::spec_values_iter as btree_values_iter;
use vstd::std_specs::hash::builds_valid_hashers;
use vstd::std_specs::hash::group_hash_axioms;
use vstd::std_specs::hash::obeys_key_model;
use vstd::std_specs::hash::into_iter_values as hash_iter_values;
use vstd::std_specs::hash::spec_values_iter as hash_values_iter;
use std::collections::BTreeMap;
use std::collections::HashMap;
use std::collections::hash_map::RandomState;
use crate::compose::seq_edges;
use crate::trace::Trace;
use crate::tracer::Tracer;

verus! {

/// Traverse every value a map's value iterator has yet to yield, in
/// whatever order the iterator produces them.
fn trace_remaining_values<'a, V: Trace + 'a, I: core::iter::Iterator<Item = &'a V>, T: Tracer>(
    it: I,
    tracer: &mut T,
    pending: Ghost<Seq<V>>,
)
    requires
        it.obeys_prophetic_iter_laws(),
        IteratorSpec::decrease(&it) is Some,
        it.remaining().unref() == pending@,
    ensures
        final(tracer).visited() == old(tracer).visited().add(seq_edges(pending@)),
    decreases IteratorSpec::decrease(&it)->0,
{
    let mut iter = it;
    match iter.next() {
        Some(v) => {
            v.trace(tracer);
            proof {
                assert(iter.remaining().unref() =~= pending@.drop_first());
            }
            trace_remaining_values(iter, tracer, Ghost(pending@.drop_first()));
            proof {
                assert(old(tracer).visited().add(v.edges()).add(seq_edges(pending@.drop_first()))
                    =~= old(tracer).visited().add(seq_edges(pending@)));
            }
        },
        None => {
            proof {
                assert(pending@ =~= Seq::<V>::empty());
                assert(tracer.visited().add(seq_edges(pending@)) =~= tracer.visited());
            }
        },
    }
}

/// Traverse the values of an ordered map.
fn trace_btree_map<V: Trace, T: Tracer>(m: &BTreeMap<u64, V>, tracer: &mut T)
    ensures
        final(tracer).visited() == old(tracer).visited().add(m.edges()),
{
    proof {
        broadcast use group_laws_cmp;
        broadcast use axiom_key_obeys_cmp_spec_meaning;
        assert(key_obeys_cmp_spec::<u64>());
    }
    let it = m.values();
    proof {
        assert(IteratorSpec::initial_value_relation(&it, &it));
        assert(btree_iter_values(it) == IteratorSpec::remaining(&it).unref());
    }
    trace_remaining_values(it, tracer, Ghost(btree_iter_values(it)));
}

/// Traverse the values of a hashed map.
fn trace_hash_map<V: Trace, T: Tracer>(m: &HashMap<u64, V>, tracer: &mut T)
    ensures
        final(tracer).visited() == old(tracer).visited().add(m.edges()),
{
    proof {
        broadcast use group_hash_axioms;
        assert(obeys_key_model::<u64>());
        assert(builds_valid_hashers::<RandomState>());
    }
    let it = m.values();
    proof {
        assert(IteratorSpec::initial_value_relation(&it, &it));
        assert(hash_iter_values(it) == IteratorSpec::remaining(&it).unref());
    }
    trace_remaining_values(it, tracer, Ghost(hash_iter_values(it)));
}

/// An ordered map owns the edges of its values, and of nothing else.
impl<W: Trace> Trace for BTreeMap<u64, W> {
    open spec fn edges(&self) -> Multiset<int> {
        seq_edges(btree_iter_values(btree_values_iter(self)))
    }

    open spec fn atomic(&self) -> bool {
        false
    }

    proof fn atomic_owns_nothing(&self) {
    }

    fn trace<V: Tracer>(&self, tracer: &mut V) {
        trace_btree_map(self, tracer);
    }

    fn is_atomic(&self) -> bool {
        false
    }
}

/// A hashed map owns the edges of its values, and of nothing else. The
/// hashing decides nothing but the order of the visits, which carries no
/// meaning: the reported multiset is that of the values.
impl<W: Trace> Trace for HashMap<u64, W> {
    open spec fn edges(&self) -> Multiset<int> {
        seq_edges(hash_iter_values(hash_values_iter(self)))
    }

    open spec fn atomic(&self) -> bool {
        false
    }

    proof fn atomic_owns_nothing(&self) {
    }

    fn trace<V: Tracer>(&self, tracer: &mut V) {
        trace_hash_map(self, tracer);
    }

    fn is_atomic(&self) -> bool {
        false
    }
}

} // verus!
