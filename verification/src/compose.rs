//! Composition rules: the edge set of a sequence of traceable values, and
//! the lemmas that let container traversals report it element by element.

use vstd::prelude::*;
use vstd::multiset::Multiset;
use crate::trace::Trace;

verus! {

/// The combined direct edge set of a sequence of traceable values: every
/// element contributes its own edges, and nothing else.
pub open spec fn seq_edges<T: Trace>(s: Seq<T>) -> Multiset<int>
    decreases s.len(),
{
    if s.len() == 0 {
        Multiset::<int>::empty()
    } else {
        s.first().edges().add(seq_edges(s.drop_first()))
    }
}

/// One step of a front-to-back traversal: the edges of the suffix from `i`
/// are the edges of element `i` plus the edges of the suffix from `i + 1`.
pub proof fn lemma_seq_edges_skip_step<T: Trace>(s: Seq<T>, i: int)
    requires
        0 <= i < s.len(),
    ensures
        seq_edges(s.skip(i)) == s[i].edges().add(seq_edges(s.skip(i + 1))),
{
    assert(s.skip(i).first() == s[i]);
    assert(s.skip(i).drop_first() =~= s.skip(i + 1));
}

/// Appending one element adds exactly that element's edges.
pub proof fn lemma_seq_edges_push<T: Trace>(s: Seq<T>, x: T)
    ensures
        seq_edges(s.push(x)) == seq_edges(s).add(x.edges()),
    decreases s.len(),
{
    if s.len() == 0 {
        assert(s.push(x).first() == x);
        assert(s.push(x).drop_first() =~= Seq::<T>::empty());
        assert(seq_edges(s.push(x).drop_first()) == Multiset::<int>::empty());
        assert(seq_edges(s.push(x)) =~= seq_edges(s).add(x.edges()));
    } else {
        assert(s.push(x).drop_first() =~= s.drop_first().push(x));
        lemma_seq_edges_push(s.drop_first(), x);
        assert(seq_edges(s.push(x)) =~= seq_edges(s).add(x.edges()));
    }
}

/// Concatenation combines the edge sets of the two halves.
pub proof fn lemma_seq_edges_concat<T: Trace>(a: Seq<T>, b: Seq<T>)
    ensures
        seq_edges(a + b) == seq_edges(a).add(seq_edges(b)),
    decreases a.len(),
{
    if a.len() == 0 {
        assert(a + b =~= b);
        assert(seq_edges(a + b) =~= seq_edges(a).add(seq_edges(b)));
    } else {
        assert((a + b).first() == a.first());
        assert((a + b).drop_first() =~= a.drop_first() + b);
        lemma_seq_edges_concat(a.drop_first(), b);
        assert(seq_edges(a + b) =~= seq_edges(a).add(seq_edges(b)));
    }
}

} // verus!
