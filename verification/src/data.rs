use vstd::prelude::*;

verus! {

/// The value stored under `slot` in `entries`: that of the first entry with
/// this slot.
pub open spec fn lookup(entries: Seq<(u64, Seq<char>)>, slot: u64) -> Option<Seq<char>>
    decreases entries.len(),
{
    if entries.len() == 0 {
        None
    } else if entries[0].0 == slot {
        Some(entries[0].1)
    } else {
        lookup(entries.drop_first(), slot)
    }
}

/// A slot that holds a value keeps it, whatever is written after it, under
/// this slot or under another.
pub proof fn lemma_written_slot_keeps_value(
    entries: Seq<(u64, Seq<char>)>,
    slot: u64,
    later: (u64, Seq<char>),
)
    requires
        lookup(entries, slot) is Some,
    ensures
        lookup(entries.push(later), slot) == lookup(entries, slot),
    decreases entries.len(),
{
    if entries.len() != 0 {
        if entries[0].0 != slot {
            assert(entries.push(later).drop_first() =~= entries.drop_first().push(later));
            lemma_written_slot_keeps_value(entries.drop_first(), slot, later);
        }
    }
}

/// A store of settings, each under a numbered slot. A slot is written once;
/// after that the store only answers reads.
pub struct DiceData {
    entries: Vec<(u64, String)>,
}

impl View for DiceData {
    type V = Seq<(u64, Seq<char>)>;

    closed spec fn view(&self) -> Seq<(u64, Seq<char>)> {
        Seq::new(self.entries@.len(), |i: int| (self.entries@[i].0, self.entries@[i].1@))
    }
}

impl DiceData {
    /// The empty store.
    pub fn new() -> (d: Self)
        ensures
            d@ == Seq::<(u64, Seq<char>)>::empty(),
    {
        DiceData { entries: Vec::new() }
    }

    /// Writes `value` under `slot`, if the slot is still empty. Returns whether
    /// it was: a slot that holds a value keeps it.
    pub fn set(&mut self, slot: u64, value: String) -> (written: bool)
        ensures
            written == (lookup(old(self)@, slot) is None),
            written ==> final(self)@ == old(self)@.push((slot, value@)),
            !written ==> final(self)@ == old(self)@,
    {
        if self.get(slot).is_some() {
            return false;
        }
        self.entries.push((slot, value));
        true
    }

    /// The value under `slot`, if the slot was written.
    pub fn get(&self, slot: u64) -> (r: Option<&String>)
        ensures
            match r {
                Some(value) => lookup(self@, slot) == Some(value@),
                None => lookup(self@, slot) is None,
            },
    {
        let mut i: usize = 0;
        assert(self@.subrange(0, self@.len() as int) =~= self@);
        while i < self.entries.len()
            invariant
                i <= self.entries.len(),
                lookup(self@, slot) == lookup(self@.subrange(i as int, self@.len() as int), slot),
            decreases self.entries.len() - i,
        {
            let ghost rest = self@.subrange(i as int, self@.len() as int);
            if self.entries[i].0 == slot {
                return Some(&self.entries[i].1);
            }
            assert(rest.drop_first() =~= self@.subrange(i + 1, self@.len() as int));
            i += 1;
        }
        None
    }

    /// A copy of the store.
    pub fn dupe(&self) -> (d: Self)
        ensures
            d@ == self@,
    {
        let mut entries: Vec<(u64, String)> = Vec::new();
        let mut i: usize = 0;
        while i < self.entries.len()
            invariant
                i <= self.entries.len(),
                entries@.len() == i,
                forall|j: int| 0 <= j < i ==> entries@[j] == self.entries@[j],
            decreases self.entries.len() - i,
        {
            entries.push((self.entries[i].0, self.entries[i].1.clone()));
            i += 1;
        }
        DiceData { entries }
    }
}

/// The guard that a transaction's cycle detector hands to computations. Guards
/// come in kinds; a reader names the kind that it expects.
#[derive(Debug, Clone, Copy, PartialEq, Eq, Structural)]
pub struct UserCycleDetectorGuard {
    pub kind: u64,
    pub token: u64,
}

/// What belongs to one transaction: its settings and, if it has one, the guard
/// of its cycle detector. It is put together before the transaction starts and
/// only read after that.
pub struct UserComputationData {
    pub data: DiceData,
    pub cycle_guard: Option<UserCycleDetectorGuard>,
}

impl View for UserComputationData {
    type V = (Seq<(u64, Seq<char>)>, Option<UserCycleDetectorGuard>);

    open spec fn view(&self) -> (Seq<(u64, Seq<char>)>, Option<UserCycleDetectorGuard>) {
        (self.data@, self.cycle_guard)
    }
}

impl UserComputationData {
    /// No settings and no guard.
    pub fn new() -> (d: Self)
        ensures
            d@ == (Seq::<(u64, Seq<char>)>::empty(), None::<UserCycleDetectorGuard>),
    {
        UserComputationData { data: DiceData::new(), cycle_guard: None }
    }

    /// A copy of the data.
    pub fn dupe(&self) -> (d: Self)
        ensures
            d@ == self@,
    {
        UserComputationData { data: self.data.dupe(), cycle_guard: self.cycle_guard }
    }
}

} // verus!
