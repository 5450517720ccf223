use vstd::prelude::*;
use crate::cancellation::CancellationContext;
use crate::computations::DiceComputations;
use crate::error::DiceError;

verus! {

/// How long the results of a kind of key are worth keeping.
#[derive(Debug, Clone, Copy, PartialEq, Eq, Structural)]
pub enum StorageType {
    /// Keep results until they are invalidated.
    Normal,
    /// Keep only the given number of most recent results.
    LastN(usize),
}

/// A memoizable computation, identified by its value: two keys that are equal
/// are the same computation, wherever they are stored.
pub trait Key: Sized {
    /// What the computation produces.
    type Value;

    /// The value that this key stands for. A body is deterministic: whenever
    /// it succeeds, this is what it returns.
    spec fn value(&self) -> Self::Value;

    /// Whether `y` counts as the same value as `x`.
    spec fn equal(x: &Self::Value, y: &Self::Value) -> bool;

    /// Whether `x` may be used again once it is stored.
    spec fn valid(x: &Self::Value) -> bool;

    /// Whether `self` and `other` are the same key.
    fn same_key(&self, other: &Self) -> (b: bool)
        ensures
            b == (*self == *other),
    ;

    /// A copy of the key.
    fn dupe(&self) -> (d: Self)
        ensures
            d == *self,
    ;

    /// A copy of a value of this key.
    fn dupe_value(value: &Self::Value) -> (d: Self::Value)
        ensures
            d == *value,
    ;

    /// The body: computes the value, requesting other keys through `ctx`.
    /// The engine calls it with the context that `DiceComputations::for_body`
    /// makes: below the ancestor chain that the request has led to, with
    /// nothing recorded yet, and with `cancellations` as the signal of its
    /// scope.
    fn compute(&self, ctx: &mut DiceComputations<Self>, cancellations: &CancellationContext) -> (r:
        Result<Self::Value, DiceError<Self>>)
        ensures
            r matches Ok(v) ==> v == self.value(),
    ;

    /// Whether a recomputed value `y` counts as unchanged from `x`, so that
    /// what was derived from `x` stays valid.
    fn equality(x: &Self::Value, y: &Self::Value) -> (b: bool)
        ensures
            b == Self::equal(x, y),
    ;

    /// Whether a stored value may still be handed out without recomputing it.
    fn validity(x: &Self::Value) -> (b: bool)
        ensures
            b == Self::valid(x),
    ;

    /// The retention policy for results of this kind of key.
    fn storage_type() -> StorageType;

    /// The name of this kind of key, for diagnostics.
    fn key_type_name() -> String;
}

} // verus!
