use vstd::prelude::*;
use crate::computations::Dependency;
use crate::computations::DiceComputations;
use crate::cycles::ComputationData;
use crate::cycles::DetectCycles;
use crate::data::lookup;
use crate::data::DiceData;
use crate::data::UserComputationData;
use crate::key::Key;

verus! {

/// Puts together the settings of an engine before it is built.
pub struct DiceBuilder {
    data: DiceData,
}

impl DiceBuilder {
    /// The settings so far.
    pub closed spec fn settings(&self) -> Seq<(u64, Seq<char>)> {
        self.data@
    }

    /// A builder with no settings.
    pub fn new() -> (b: Self)
        ensures
            b.settings() == Seq::<(u64, Seq<char>)>::empty(),
    {
        DiceBuilder { data: DiceData::new() }
    }

    /// Adds the setting `value` under `slot`, if the slot is still empty;
    /// returns whether it was.
    pub fn set_data(&mut self, slot: u64, value: String) -> (written: bool)
        ensures
            written == (lookup(old(self).settings(), slot) is None),
            written ==> final(self).settings() == old(self).settings().push((slot, value@)),
            !written ==> final(self).settings() == old(self).settings(),
    {
        self.data.set(slot, value)
    }

    /// The engine with these settings, which from now on are only read.
    pub fn build(self, detect_cycles: DetectCycles) -> (dice: Dice)
        ensures
            dice.settings() == self.settings(),
            dice.detects() == (detect_cycles == DetectCycles::Enabled),
    {
        Dice { global: self.data, detect_cycles }
    }
}

/// The engine: the settings that all its transactions share, and the switch
/// for cycle detection.
pub struct Dice {
    global: DiceData,
    detect_cycles: DetectCycles,
}

impl Dice {
    /// The settings of the engine.
    pub closed spec fn settings(&self) -> Seq<(u64, Seq<char>)> {
        self.global@
    }

    /// Whether the transactions of the engine check their requests for cycles.
    pub closed spec fn detects(&self) -> bool {
        self.detect_cycles == DetectCycles::Enabled
    }

    /// Starts a transaction with the data `user_data`. Its context stands at
    /// the top of a branch: no key is on its ancestor chain, whatever earlier
    /// transactions of the engine have requested.
    pub fn transaction<K: Key>(&self, user_data: UserComputationData) -> (transaction:
        DiceTransaction<K>)
        ensures
            transaction.ctx.global() == self.settings(),
            transaction.ctx.user() == user_data@,
            transaction.ctx.detects() == self.detects(),
            transaction.ctx.chain() == Seq::<K>::empty(),
            transaction.ctx.recorded() == Seq::<Dependency<K>>::empty(),
            transaction.ctx.stored() == Seq::<K>::empty(),
            !transaction.ctx.cancelled(),
    {
        let data = ComputationData::new(user_data, self.detect_cycles);
        DiceTransaction { ctx: DiceComputations::new(self.global.dupe(), data) }
    }
}

/// One top-level request to the engine: the context at the root of its
/// computations.
pub struct DiceTransaction<K: Key> {
    pub ctx: DiceComputations<K>,
}

impl<K: Key> std::ops::Deref for DiceTransaction<K> {
    type Target = DiceComputations<K>;

    fn deref(&self) -> (ctx: &DiceComputations<K>)
        ensures
            *ctx == self.ctx,
    {
        &self.ctx
    }
}

} // verus!
