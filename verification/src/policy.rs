//! The atomicity policy, as one table over the kinds of types a collected
//! heap can hold.
//!
//! Whether a type is atomic is fixed per category, never per instance. The
//! table exists so the collector and the per-type impls agree on a single
//! policy: a category is atomic exactly when no value of it can ever own a
//! collector-managed pointer, or when reaching into it would cross into a
//! domain this collector does not manage.

use vstd::prelude::*;

verus! {

/// The kinds of types the policy classifies.
#[derive(Clone, Copy, PartialEq, Eq, Structural, Debug)]
pub enum Category {
    /// Booleans, characters and machine integers: cannot hold pointers.
    PrimitiveScalar,
    /// Plain text buffers and string slices: cannot hold pointers.
    TextValue,
    /// Growable, fixed and double-ended sequences of traceable elements.
    SequenceContainer,
    /// Ordered or hashed key-value maps; only the value side owns edges.
    KeyValueMap,
    /// An optional value.
    OptionalValue,
    /// A success-or-failure value.
    FallibleValue,
    /// The exclusive-ownership box: one owned value, always reachable.
    OwningIndirection,
    /// Shared-ownership pointers, plain or atomically counted: their
    /// referents live in an independent reference-counting domain.
    SharedPointer,
    /// An interior-mutability wrapper behind a runtime-checked guard.
    GuardedInterior,
    /// Locks, barriers, condition variables and the like.
    SyncPrimitive,
    /// Buffered readers and writers, standard streams and other I/O
    /// handles.
    IoHandle,
    /// Processes, sockets, file paths and other OS resource handles.
    OsResource,
    /// Plain function pointers: code, not owned data.
    FunctionValue,
}

/// The policy itself: which categories opt out of traversal.
pub open spec fn category_atomic(c: Category) -> bool {
    match c {
        Category::PrimitiveScalar => true,
        Category::TextValue => true,
        Category::SequenceContainer => false,
        Category::KeyValueMap => false,
        Category::OptionalValue => false,
        Category::FallibleValue => false,
        Category::OwningIndirection => false,
        Category::SharedPointer => true,
        Category::GuardedInterior => false,
        Category::SyncPrimitive => true,
        Category::IoHandle => true,
        Category::OsResource => true,
        Category::FunctionValue => true,
    }
}

/// Whether a category opts out of traversal, for the collector to skip
/// whole classes of objects without a per-instance query.
pub fn category_is_atomic(c: Category) -> (r: bool)
    ensures
        r == category_atomic(c),
{
    match c {
        Category::PrimitiveScalar => true,
        Category::TextValue => true,
        Category::SequenceContainer => false,
        Category::KeyValueMap => false,
        Category::OptionalValue => false,
        Category::FallibleValue => false,
        Category::OwningIndirection => false,
        Category::SharedPointer => true,
        Category::GuardedInterior => false,
        Category::SyncPrimitive => true,
        Category::IoHandle => true,
        Category::OsResource => true,
        Category::FunctionValue => true,
    }
}

} // verus!
