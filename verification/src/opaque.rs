use vstd::prelude::*;
use crate::computations::Dependency;
use crate::computations::DiceComputations;
use crate::key::Key;

verus! {

/// A computed value that a computation holds without having read it. The only
/// way to the value is a projection, and applying one is what makes the
/// computation depend on the key: on that projection of it, not on the whole.
pub struct OpaqueValue<K: Key> {
    key: K,
    value: K::Value,
}

impl<K: Key> OpaqueValue<K> {
    /// The key whose value this is.
    pub closed spec fn key(&self) -> K {
        self.key
    }

    /// The value inside.
    pub closed spec fn value(&self) -> K::Value {
        self.value
    }

    pub(crate) fn new(key: K, value: K::Value) -> (opaque: Self)
        ensures
            opaque.key() == key,
            opaque.value() == value,
    {
        OpaqueValue { key, value }
    }

    /// A copy of the key whose value this is.
    pub fn requested_key(&self) -> (key: K)
        ensures
            key == self.key(),
    {
        self.key.dupe()
    }

    /// Applies the projection `f`, known by `identity`, to the value, and
    /// records in `ctx` the edge on the pair of the key and the projection.
    pub fn projection<R, F>(&self, ctx: &mut DiceComputations<K>, identity: u64, f: F) -> (r: R) where
        F: FnOnce(&K::Value) -> R,

        requires
            f.requires((&self.value(),)),
        ensures
            f.ensures((&self.value(),), r),
            final(ctx).recorded() == old(ctx).recorded().push(
                Dependency::Projection(self.key(), identity),
            ),
            final(ctx).same_scope(old(ctx)),
    {
        ctx.record_projection(&self.key, identity);
        f(&self.value)
    }
}

} // verus!
