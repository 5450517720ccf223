use vstd::prelude::*;

verus! {

/// Why a request to the engine failed.
#[derive(Debug, Clone, PartialEq, Eq)]
pub enum DiceError<K> {
    /// `trigger` was requested while it was already being computed on the same
    /// branch. `cyclic_keys` are the keys of the cycle, from the earlier request
    /// of `trigger` to the most recent request; as the engine reports it, no
    /// key stands twice among them.
    Cycle { trigger: K, cyclic_keys: Vec<K> },
    /// A cycle guard of kind `requested` was asked for, while the transaction
    /// holds one of kind `installed`.
    CycleGuardMismatch { requested: u64, installed: u64 },
    /// The body of a key failed; the reason is handed on as the body gave it.
    Computation { reason: String },
}

pub type DiceResult<K, T> = Result<T, DiceError<K>>;

} // verus!
