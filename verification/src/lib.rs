//! Tracing protocol for a cycle-collecting reference-counted memory manager.
//!
//! A cycle collector must discover, for any heap value that participates in
//! reference counting, which collector-managed pointers that value directly
//! owns. This crate defines the traversal contract every such value obeys,
//! the opt-out rule for types that can never own a collectible pointer, and
//! the composition rules that make nested containers traceable automatically.

mod compose;
mod containers;
mod guarded;
mod handle;
mod laws;
mod leaves;
mod maps;
mod policy;
mod shared;
mod trace;
mod tracer;

pub use compose::seq_edges;
pub use guarded::GuardedCell;
pub use handle::CcPtr;
pub use laws::lemma_atomic_reports_nothing;
pub use laws::lemma_empty_container_reports_nothing;
pub use laws::lemma_held_guard_reports_nothing;
pub use laws::lemma_nested_containers_flatten;
pub use laws::lemma_sequence_reports_each_pointer_once;
pub use laws::trace_twice;
pub use policy::Category;
pub use policy::category_is_atomic;
pub use trace::Trace;
pub use trace::trace_non_atomic;
pub use tracer::EdgeLog;
pub use tracer::Tracer;
