use std::sync::atomic::AtomicUsize;
use std::sync::atomic::Ordering;

use dice::cancellation::CancellationContext;
use dice::computations::Dependency;
use dice::computations::DiceComputations;
use dice::cycles::ComputationData;
use dice::cycles::CycleDetector;
use dice::cycles::DetectCycles;
use dice::data::DiceData;
use dice::data::UserComputationData;
use dice::data::UserCycleDetectorGuard;
use dice::error::DiceError;
use dice::key::Key;
use dice::key::StorageType;
use dice::memo::Memo;
use dice::transaction::Dice;
use dice::transaction::DiceBuilder;
use dice::transaction::DiceTransaction;

#[derive(Clone, Debug, PartialEq, Eq, Hash)]
struct K(usize);

impl Key for K {
    type Value = ();

    fn value(&self) {}

    fn same_key(&self, other: &Self) -> bool {
        self == other
    }

    fn dupe(&self) -> Self {
        self.clone()
    }

    fn dupe_value(_value: &()) {}

    fn compute(
        &self,
        _ctx: &mut DiceComputations<Self>,
        _cancellations: &CancellationContext,
    ) -> Result<(), DiceError<Self>> {
        unreachable!()
    }

    fn equal(_x: &(), _y: &()) -> bool {
        true
    }

    fn valid(_x: &()) -> bool {
        true
    }

    fn equality(_x: &(), _y: &()) -> bool {
        unreachable!()
    }

    fn validity(_x: &()) -> bool {
        unreachable!()
    }

    fn storage_type() -> StorageType {
        unreachable!()
    }

    fn key_type_name() -> String {
        unreachable!()
    }
}

#[test]
fn cycle_detection_when_no_cycles() {
    let ctx = ComputationData::new(UserComputationData::new(), DetectCycles::Enabled);
    let ctx = ctx.subrequest(&K(1)).unwrap();
    let ctx = ctx.subrequest(&K(2)).unwrap();
    let ctx = ctx.subrequest(&K(3)).unwrap();
    let _ctx = ctx.subrequest(&K(4)).unwrap();
}

#[test]
fn cycle_detection_when_cycles() {
    let ctx = ComputationData::new(UserComputationData::new(), DetectCycles::Enabled);
    let ctx = ctx.subrequest(&K(1)).unwrap();
    let ctx = ctx.subrequest(&K(2)).unwrap();
    let ctx = ctx.subrequest(&K(3)).unwrap();
    let ctx = ctx.subrequest(&K(4)).unwrap();
    match ctx.subrequest(&K(1)) {
        Ok(_) => {
            panic!("should have cycle error")
        }
        Err(e) => match &e {
            DiceError::Cycle {
                trigger,
                cyclic_keys,
            } => {
                assert!(
                    trigger.same_key(&K(1)),
                    "expected trigger key to be `{:?}` but was `{:?}`",
                    K(1),
                    trigger
                );
                assert_eq!(cyclic_keys, &vec![K(1), K(2), K(3), K(4)])
            }
            _ => {
                panic!("wrong error type")
            }
        },
    }
}

#[test]
fn distinct_requests_extend_the_chain() {
    let mut ctx = ComputationData::new(UserComputationData::new(), DetectCycles::Enabled);
    assert_eq!(ctx.ancestors(), Vec::<K>::new());
    for n in 0..25 {
        ctx = ctx.subrequest(&K(n)).unwrap();
        assert_eq!(ctx.ancestors().len(), n + 1);
    }
    assert_eq!(ctx.ancestors(), (0..25).map(K).collect::<Vec<_>>());
}

#[test]
fn cycle_starts_at_the_repeated_key() {
    let ctx = ComputationData::new(UserComputationData::new(), DetectCycles::Enabled);
    let ctx = ctx.subrequest(&K(1)).unwrap();
    let ctx = ctx.subrequest(&K(2)).unwrap();
    let ctx = ctx.subrequest(&K(3)).unwrap();
    let ctx = ctx.subrequest(&K(4)).unwrap();
    match ctx.subrequest(&K(3)) {
        Err(DiceError::Cycle {
            trigger,
            cyclic_keys,
        }) => {
            assert_eq!(trigger, K(3));
            assert_eq!(cyclic_keys, vec![K(3), K(4)]);
        }
        _ => panic!("expected a cycle"),
    }
    match ctx.subrequest(&K(4)) {
        Err(DiceError::Cycle {
            trigger,
            cyclic_keys,
        }) => {
            assert_eq!(trigger, K(4));
            assert_eq!(cyclic_keys, vec![K(4)]);
        }
        _ => panic!("expected a cycle"),
    }
    assert_eq!(ctx.ancestors(), vec![K(1), K(2), K(3), K(4)]);
}

#[test]
fn detector_visit_leaves_the_parent_alone() {
    let top: CycleDetector<K> = CycleDetector::new();
    assert_eq!(top.len(), 0);
    let one = top.visit(&K(1)).unwrap();
    let left = one.visit(&K(7)).unwrap();
    let right = one.visit(&K(7)).unwrap();
    assert_eq!(one.keys(), &vec![K(1)]);
    assert_eq!(left.keys(), &vec![K(1), K(7)]);
    assert_eq!(right.keys(), &vec![K(1), K(7)]);
    assert_eq!(one.dupe().keys(), one.keys());
    assert!(left.visit(&K(7)).is_err());
    assert!(top.visit(&K(7)).is_ok());
}

#[test]
fn disabled_detection_accepts_repeats() {
    let ctx = ComputationData::new(UserComputationData::new(), DetectCycles::Disabled);
    assert_eq!(ctx.detect_cycles(), DetectCycles::Disabled);
    let ctx = ctx.subrequest(&K(1)).unwrap();
    let ctx = ctx.subrequest(&K(1)).unwrap();
    let ctx = ctx.subrequest(&K(1)).unwrap();
    assert_eq!(ctx.ancestors(), Vec::<K>::new());
}

/// Two kinds of key in one type: equal numbers under different kinds are
/// different keys.
#[derive(Clone, Debug, PartialEq, Eq)]
enum Tagged {
    Load(u32),
    Parse(u32),
}

impl Key for Tagged {
    type Value = u32;

    fn value(&self) -> u32 {
        match self {
            Tagged::Load(n) => *n,
            Tagged::Parse(n) => *n + 1,
        }
    }

    fn same_key(&self, other: &Self) -> bool {
        self == other
    }

    fn dupe(&self) -> Self {
        self.clone()
    }

    fn dupe_value(value: &u32) -> u32 {
        *value
    }

    fn compute(
        &self,
        ctx: &mut DiceComputations<Self>,
        _cancellations: &CancellationContext,
    ) -> Result<u32, DiceError<Self>> {
        match self {
            Tagged::Load(n) => Ok(*n),
            Tagged::Parse(n) => Ok(ctx.compute(&Tagged::Load(*n))? + 1),
        }
    }

    fn equal(x: &u32, y: &u32) -> bool {
        x == y
    }

    fn valid(_x: &u32) -> bool {
        true
    }

    fn equality(x: &u32, y: &u32) -> bool {
        x == y
    }

    fn validity(_x: &u32) -> bool {
        true
    }

    fn storage_type() -> StorageType {
        StorageType::Normal
    }

    fn key_type_name() -> String {
        "Tagged".to_owned()
    }
}

#[test]
fn keys_are_compared_by_value() {
    let ctx = ComputationData::new(UserComputationData::new(), DetectCycles::Enabled);
    let first = Tagged::Load(5);
    let ctx = ctx.subrequest(&first).unwrap();
    // Same number, other kind: another key.
    let ctx = ctx.subrequest(&Tagged::Parse(5)).unwrap();
    // Another object that is equal by value: the same key.
    let again = Tagged::Load(2 + 3);
    match ctx.subrequest(&again) {
        Err(DiceError::Cycle {
            trigger,
            cyclic_keys,
        }) => {
            assert_eq!(trigger, Tagged::Load(5));
            assert_eq!(cyclic_keys, vec![Tagged::Load(5), Tagged::Parse(5)]);
        }
        _ => panic!("expected a cycle"),
    }
}

static FIB_BODIES: AtomicUsize = AtomicUsize::new(0);

#[derive(Clone, Debug, PartialEq, Eq)]
struct Fib(u8);

impl Key for Fib {
    type Value = u64;

    fn value(&self) -> u64 {
        if self.0 < 2 {
            1
        } else {
            Fib(self.0 - 1).value() + Fib(self.0 - 2).value()
        }
    }

    fn same_key(&self, other: &Self) -> bool {
        self == other
    }

    fn dupe(&self) -> Self {
        self.clone()
    }

    fn dupe_value(value: &u64) -> u64 {
        *value
    }

    fn compute(
        &self,
        ctx: &mut DiceComputations<Self>,
        _cancellations: &CancellationContext,
    ) -> Result<u64, DiceError<Self>> {
        FIB_BODIES.fetch_add(1, Ordering::SeqCst);
        assert_eq!(ctx.ancestors().last(), Some(self));
        if self.0 < 2 {
            Ok(1)
        } else {
            let a = ctx.compute(&Fib(self.0 - 1))?;
            let b = ctx.compute(&Fib(self.0 - 2))?;
            Ok(a + b)
        }
    }

    fn equal(x: &u64, y: &u64) -> bool {
        x == y
    }

    fn valid(_x: &u64) -> bool {
        true
    }

    fn equality(x: &u64, y: &u64) -> bool {
        x == y
    }

    fn validity(_x: &u64) -> bool {
        true
    }

    fn storage_type() -> StorageType {
        StorageType::LastN(1)
    }

    fn key_type_name() -> String {
        "Fib".to_owned()
    }
}

fn engine() -> Dice {
    let mut builder = DiceBuilder::new();
    assert!(builder.set_data(1, "sha1".to_owned()));
    assert!(builder.set_data(2, "v2".to_owned()));
    // A slot is written once.
    assert!(!builder.set_data(1, "sha256".to_owned()));
    builder.build(DetectCycles::Enabled)
}

#[test]
fn fib_end_to_end() {
    let dice = engine();
    let mut transaction: DiceTransaction<Fib> = dice.transaction(UserComputationData::new());
    let ctx = &mut transaction.ctx;
    // The body gives 1 below 2 and the sum of the two keys before otherwise:
    // 1, 1, 2, 3, 5, 8.
    assert!(!ctx.has_stored(&Fib(4)));
    assert_eq!(ctx.compute(&Fib(4)), Ok(5));
    assert!(ctx.has_stored(&Fib(4)));
    assert!(ctx.has_stored(&Fib(0)));
    assert!(!ctx.has_stored(&Fib(5)));
    assert_eq!(ctx.compute(&Fib(5)), Ok(8));
    assert_eq!(ctx.compute(&Fib(0)), Ok(1));
    assert_eq!(ctx.compute(&Fib(1)), Ok(1));
    assert_eq!(ctx.compute(&Fib(3)), Ok(3));
    // Each of the six keys ran its body once, though most were reached on
    // several paths.
    assert_eq!(FIB_BODIES.load(Ordering::SeqCst), 6);
    // The chain is back at the top; the edges are those of the five requests.
    assert_eq!(ctx.ancestors(), Vec::<Fib>::new());
    assert_eq!(
        ctx.dependencies(),
        &vec![
            Dependency::Value(Fib(4)),
            Dependency::Value(Fib(5)),
            Dependency::Value(Fib(0)),
            Dependency::Value(Fib(1)),
            Dependency::Value(Fib(3)),
        ]
    );
}

/// A key that requests its successor, modulo 3: every request closes a cycle.
#[derive(Clone, Debug, PartialEq, Eq)]
struct Ring(u8);

impl Key for Ring {
    type Value = u8;

    fn value(&self) -> u8 {
        0
    }

    fn same_key(&self, other: &Self) -> bool {
        self == other
    }

    fn dupe(&self) -> Self {
        self.clone()
    }

    fn dupe_value(value: &u8) -> u8 {
        *value
    }

    fn compute(
        &self,
        ctx: &mut DiceComputations<Self>,
        _cancellations: &CancellationContext,
    ) -> Result<u8, DiceError<Self>> {
        if self.0 >= 10 {
            return Err(DiceError::Computation {
                reason: format!("no ring member {}", self.0),
            });
        }
        ctx.compute(&Ring((self.0 + 1) % 3))
    }

    fn equal(x: &u8, y: &u8) -> bool {
        x == y
    }

    fn valid(_x: &u8) -> bool {
        true
    }

    fn equality(x: &u8, y: &u8) -> bool {
        x == y
    }

    fn validity(_x: &u8) -> bool {
        true
    }

    fn storage_type() -> StorageType {
        StorageType::Normal
    }

    fn key_type_name() -> String {
        "Ring".to_owned()
    }
}

#[test]
fn cycle_through_bodies_is_an_error() {
    let dice = engine();
    let mut transaction: DiceTransaction<Ring> = dice.transaction(UserComputationData::new());
    let ctx = &mut transaction.ctx;
    assert_eq!(
        ctx.compute(&Ring(1)),
        Err(DiceError::Cycle {
            trigger: Ring(1),
            cyclic_keys: vec![Ring(1), Ring(2), Ring(0)],
        })
    );
    // Nothing of the failed branch is left: the same request fails in the
    // same way, and another transaction of the engine starts at the top.
    assert_eq!(ctx.ancestors(), Vec::<Ring>::new());
    assert_eq!(
        ctx.compute(&Ring(0)),
        Err(DiceError::Cycle {
            trigger: Ring(0),
            cyclic_keys: vec![Ring(0), Ring(1), Ring(2)],
        })
    );
    let mut later: DiceTransaction<Ring> = dice.transaction(UserComputationData::new());
    assert_eq!(later.ctx.ancestors(), Vec::<Ring>::new());
    assert_eq!(
        later.ctx.compute(&Ring(2)),
        Err(DiceError::Cycle {
            trigger: Ring(2),
            cyclic_keys: vec![Ring(2), Ring(0), Ring(1)],
        })
    );
}

#[test]
fn body_failure_is_handed_on() {
    let dice = engine();
    let mut transaction: DiceTransaction<Ring> = dice.transaction(UserComputationData::new());
    let failed = transaction.ctx.compute(&Ring(12));
    assert_eq!(
        failed,
        Err(DiceError::Computation {
            reason: "no ring member 12".to_owned()
        })
    );
    assert_eq!(
        transaction.ctx.dependencies(),
        &vec![Dependency::Value(Ring(12))]
    );
}

#[test]
fn compute_many_keeps_the_order_of_the_keys() {
    let dice = engine();
    let mut transaction: DiceTransaction<Tagged> = dice.transaction(UserComputationData::new());
    let a = Tagged::Parse(10);
    let b = Tagged::Load(3);
    let c = Tagged::Load(10);
    // `c` is computed while `a` is, so its value is there before that of `a`.
    let results = transaction.ctx.compute_many(&[&a, &b, &c]);
    assert_eq!(results, vec![Ok(11), Ok(3), Ok(10)]);
    assert_eq!(
        transaction.ctx.dependencies(),
        &vec![
            Dependency::Value(Tagged::Parse(10)),
            Dependency::Value(Tagged::Load(3)),
            Dependency::Value(Tagged::Load(10)),
        ]
    );
    assert_eq!(transaction.ctx.compute_many(&[]), vec![]);
}

#[test]
fn siblings_may_request_the_same_key() {
    let dice = engine();
    let mut transaction: DiceTransaction<Tagged> = dice.transaction(UserComputationData::new());
    // Both bodies request Load(4) below the same parent.
    let results = transaction
        .ctx
        .compute_many(&[&Tagged::Parse(4), &Tagged::Parse(4), &Tagged::Load(4)]);
    assert_eq!(results, vec![Ok(5), Ok(5), Ok(4)]);

    let parent = ComputationData::new(UserComputationData::new(), DetectCycles::Enabled)
        .subrequest(&Tagged::Parse(1))
        .unwrap();
    let first = parent.subrequest(&Tagged::Load(1)).unwrap();
    let first = first.subrequest(&Tagged::Load(2)).unwrap();
    let second = parent.subrequest(&Tagged::Load(1)).unwrap();
    let second = second.subrequest(&Tagged::Load(2)).unwrap();
    assert_eq!(first.ancestors(), second.ancestors());
    assert_eq!(parent.ancestors(), vec![Tagged::Parse(1)]);
}

#[test]
fn opaque_value_records_only_projections() {
    let dice = engine();
    let mut transaction: DiceTransaction<Tagged> = dice.transaction(UserComputationData::new());
    let ctx = &mut transaction.ctx;
    let opaque = ctx.compute_opaque(&Tagged::Parse(41)).ok().unwrap();
    assert_eq!(opaque.requested_key(), Tagged::Parse(41));
    assert_eq!(ctx.dependencies(), &vec![]);
    let even = opaque.projection(ctx, 7, |value: &u32| value % 2 == 0);
    assert!(even);
    let tens = opaque.projection(ctx, 8, |value: &u32| value / 10);
    assert_eq!(tens, 4);
    assert_eq!(
        ctx.dependencies(),
        &vec![
            Dependency::Projection(Tagged::Parse(41), 7),
            Dependency::Projection(Tagged::Parse(41), 8),
        ]
    );
}

#[test]
fn cycle_guard_by_kind() {
    let dice = engine();
    let bare: DiceTransaction<K> = dice.transaction(UserComputationData::new());
    assert_eq!(bare.cycle_guard(1), Ok(None));
    assert_eq!(bare.ctx.cycle_guard(1), Ok(None));

    let guard = UserCycleDetectorGuard { kind: 1, token: 99 };
    let mut data = UserComputationData::new();
    data.cycle_guard = Some(guard);
    let guarded: DiceTransaction<K> = dice.transaction(data);
    assert_eq!(guarded.ctx.cycle_guard(1), Ok(Some(&guard)));
    assert_eq!(
        guarded.ctx.cycle_guard(2),
        Err(DiceError::CycleGuardMismatch {
            requested: 2,
            installed: 1
        })
    );
    assert_eq!(
        guarded.ctx.per_transaction_data().cycle_guard,
        Some(guard)
    );
}

#[test]
fn data_scopes_are_read_only_snapshots() {
    let dice = engine();
    let mut data = UserComputationData::new();
    assert!(data.data.set(5, "events".to_owned()));
    let one: DiceTransaction<K> = dice.transaction(data);
    let two: DiceTransaction<K> = dice.transaction(UserComputationData::new());
    assert_eq!(one.ctx.global_data().get(1), Some(&"sha1".to_owned()));
    assert_eq!(one.ctx.global_data().get(2), Some(&"v2".to_owned()));
    assert_eq!(one.ctx.global_data().get(3), None);
    assert_eq!(two.ctx.global_data().get(1), Some(&"sha1".to_owned()));
    assert_eq!(
        one.ctx.per_transaction_data().data.get(5),
        Some(&"events".to_owned())
    );
    assert_eq!(two.ctx.per_transaction_data().data.get(5), None);
}

#[test]
fn dice_data_is_write_once() {
    let mut data = DiceData::new();
    assert_eq!(data.get(0), None);
    assert!(data.set(0, "a".to_owned()));
    assert!(data.set(u64::MAX, "b".to_owned()));
    assert!(!data.set(0, "c".to_owned()));
    assert_eq!(data.get(0), Some(&"a".to_owned()));
    assert_eq!(data.get(u64::MAX), Some(&"b".to_owned()));
    let copy = data.dupe();
    assert_eq!(copy.get(0), Some(&"a".to_owned()));
    assert_eq!(copy.get(1), None);
}

#[test]
fn temporary_spawn_gets_a_fresh_view() {
    let dice = engine();
    let mut transaction: DiceTransaction<Tagged> = dice.transaction(UserComputationData::new());
    assert_eq!(transaction.ctx.compute(&Tagged::Load(1)), Ok(1));
    let seen = transaction.ctx.temporary_spawn(
        |mut spawned: DiceTransaction<Tagged>, cancellations: &CancellationContext| {
            assert!(!cancellations.is_cancelled());
            assert_eq!(spawned.ctx.dependencies(), &vec![]);
            assert_eq!(spawned.ctx.ancestors(), vec![]);
            assert_eq!(
                spawned.ctx.global_data().get(1),
                Some(&"sha1".to_owned())
            );
            spawned.ctx.compute(&Tagged::Parse(1))
        },
    );
    assert_eq!(seen, Ok(2));
    assert_eq!(
        transaction.ctx.dependencies(),
        &vec![Dependency::Value(Tagged::Load(1))]
    );
}

#[test]
fn cancellation_is_a_signal() {
    let mut scope = CancellationContext::new();
    assert!(!scope.is_cancelled());
    let copy = scope;
    scope.cancel();
    assert!(scope.is_cancelled());
    assert!(!copy.is_cancelled());
}

/// A key whose stored values are never valid, and whose values all count as
/// equal.
#[derive(Clone, Debug, PartialEq, Eq)]
struct Stale(u8);

static STALE_BODIES: AtomicUsize = AtomicUsize::new(0);

impl Key for Stale {
    type Value = u8;

    fn value(&self) -> u8 {
        self.0
    }

    fn same_key(&self, other: &Self) -> bool {
        self == other
    }

    fn dupe(&self) -> Self {
        self.clone()
    }

    fn dupe_value(value: &u8) -> u8 {
        *value
    }

    fn compute(
        &self,
        _ctx: &mut DiceComputations<Self>,
        _cancellations: &CancellationContext,
    ) -> Result<u8, DiceError<Self>> {
        STALE_BODIES.fetch_add(1, Ordering::SeqCst);
        Ok(self.0)
    }

    fn equal(_x: &u8, _y: &u8) -> bool {
        true
    }

    fn valid(_x: &u8) -> bool {
        false
    }

    fn equality(_x: &u8, _y: &u8) -> bool {
        true
    }

    fn validity(_x: &u8) -> bool {
        false
    }

    fn storage_type() -> StorageType {
        StorageType::Normal
    }

    fn key_type_name() -> String {
        "Stale".to_owned()
    }
}

#[test]
fn invalid_values_are_recomputed() {
    let dice = engine();
    let mut transaction: DiceTransaction<Stale> = dice.transaction(UserComputationData::new());
    assert_eq!(transaction.ctx.compute(&Stale(3)), Ok(3));
    assert_eq!(transaction.ctx.compute(&Stale(3)), Ok(3));
    assert_eq!(STALE_BODIES.load(Ordering::SeqCst), 2);

    let mut memo: Memo<Stale> = Memo::new();
    assert_eq!(memo.len(), 0);
    assert!(memo.store(&Stale(1), 1));
    // The key has a value that counts as equal: nothing changed.
    assert!(!memo.store(&Stale(1), 1));
    assert_eq!(memo.len(), 1);
    assert_eq!(memo.lookup(&Stale(1)), None);
    assert_eq!(memo.lookup(&Stale(2)), None);

    let mut kept: Memo<Fib> = Memo::new();
    assert!(kept.store(&Fib(2), 2));
    assert_eq!(kept.lookup(&Fib(2)), Some(2));
    assert_eq!(kept.lookup(&Fib(3)), None);
}

#[test]
fn conclude_hands_the_outcome_back() {
    let dice = engine();
    let mut transaction: DiceTransaction<Fib> = dice.transaction(UserComputationData::new());
    assert_eq!(transaction.ctx.conclude(&Fib(20), Ok(10946)), Ok(10946));
    let failure = DiceError::Computation {
        reason: "gone".to_owned(),
    };
    assert_eq!(
        transaction.ctx.conclude(&Fib(21), Err(failure.clone())),
        Err(failure)
    );
    // The value that was concluded is the one that a later request gets.
    let before = FIB_BODIES.load(Ordering::SeqCst);
    assert_eq!(transaction.ctx.compute(&Fib(20)), Ok(10946));
    assert_eq!(FIB_BODIES.load(Ordering::SeqCst), before);
}

/// A key whose body gives up when cancellation was requested.
#[derive(Clone, Debug, PartialEq, Eq)]
struct Polite(u8);

impl Key for Polite {
    type Value = u8;

    fn value(&self) -> u8 {
        self.0
    }

    fn same_key(&self, other: &Self) -> bool {
        self == other
    }

    fn dupe(&self) -> Self {
        self.clone()
    }

    fn dupe_value(value: &u8) -> u8 {
        *value
    }

    fn compute(
        &self,
        ctx: &mut DiceComputations<Self>,
        cancellations: &CancellationContext,
    ) -> Result<u8, DiceError<Self>> {
        if cancellations.is_cancelled() {
            return Err(DiceError::Computation {
                reason: "cancelled".to_owned(),
            });
        }
        if self.0 > 0 {
            ctx.compute(&Polite(self.0 - 1))?;
        }
        Ok(self.0)
    }

    fn equal(x: &u8, y: &u8) -> bool {
        x == y
    }

    fn valid(_x: &u8) -> bool {
        true
    }

    fn equality(x: &u8, y: &u8) -> bool {
        x == y
    }

    fn validity(_x: &u8) -> bool {
        true
    }

    fn storage_type() -> StorageType {
        StorageType::Normal
    }

    fn key_type_name() -> String {
        "Polite".to_owned()
    }
}

#[test]
fn bodies_see_the_cancellation_signal() {
    let dice = engine();
    let mut transaction: DiceTransaction<Polite> = dice.transaction(UserComputationData::new());
    assert_eq!(transaction.ctx.compute(&Polite(2)), Ok(2));
    assert!(!transaction.ctx.cancellations().is_cancelled());
    transaction.ctx.cancel();
    assert!(transaction.ctx.cancellations().is_cancelled());
    // Stored values are still handed out; a body that has to run gives up.
    assert_eq!(transaction.ctx.compute(&Polite(1)), Ok(1));
    assert_eq!(
        transaction.ctx.compute(&Polite(3)),
        Err(DiceError::Computation {
            reason: "cancelled".to_owned()
        })
    );
    // Spawned work has a scope of its own.
    let spawned = transaction.ctx.temporary_spawn(
        |mut spawned: DiceTransaction<Polite>, cancellations: &CancellationContext| {
            assert!(!cancellations.is_cancelled());
            assert!(!spawned.ctx.cancellations().is_cancelled());
            spawned.ctx.compute(&Polite(3))
        },
    );
    assert_eq!(spawned, Ok(3));
}

#[test]
fn compute_many_gives_equal_keys_equal_answers() {
    let dice = engine();
    let mut transaction: DiceTransaction<Tagged> = dice.transaction(UserComputationData::new());
    assert_eq!(transaction.ctx.compute(&Tagged::Load(9)), Ok(9));
    let stored = Tagged::Load(9);
    let twice = Tagged::Parse(2);
    let results = transaction
        .ctx
        .compute_many(&[&twice, &stored, &twice, &stored, &twice]);
    assert_eq!(results, vec![Ok(3), Ok(9), Ok(3), Ok(9), Ok(3)]);
    assert!(transaction.ctx.has_stored(&twice));
    assert!(transaction.ctx.has_stored(&stored));
    assert!(transaction.ctx.has_stored(&Tagged::Load(2)));

    // Keys on the chain get the same diagnostic at every position.
    let parent = ComputationData::new(UserComputationData::new(), DetectCycles::Enabled)
        .subrequest(&Tagged::Load(1))
        .unwrap();
    let (mut body, _signal) = transaction.ctx.for_body(&Tagged::Load(1), parent);
    let cycle = Err(DiceError::Cycle {
        trigger: Tagged::Load(1),
        cyclic_keys: vec![Tagged::Load(1)],
    });
    assert_eq!(
        body.compute_many(&[&Tagged::Load(1), &Tagged::Load(5), &Tagged::Load(1)]),
        vec![cycle.clone(), Ok(5), cycle]
    );
}

#[test]
fn the_body_gets_the_chain_of_its_request() {
    let dice = engine();
    let mut transaction: DiceTransaction<Tagged> = dice.transaction(UserComputationData::new());
    assert_eq!(transaction.ctx.compute(&Tagged::Load(3)), Ok(3));
    transaction.ctx.cancel();
    let sub = ComputationData::new(UserComputationData::new(), DetectCycles::Enabled)
        .subrequest(&Tagged::Parse(1))
        .unwrap();
    let (body, signal) = transaction.ctx.for_body(&Tagged::Parse(1), sub);
    assert_eq!(body.ancestors(), vec![Tagged::Parse(1)]);
    assert_eq!(body.dependencies(), &vec![]);
    assert!(body.has_stored(&Tagged::Load(3)));
    assert!(signal.is_cancelled());
    assert!(body.cancellations().is_cancelled());
    assert_eq!(body.global_data().get(1), Some(&"sha1".to_owned()));

    let (fresh, scope) = transaction.ctx.fresh_view();
    assert_eq!(fresh.ctx.ancestors(), vec![]);
    assert!(!fresh.ctx.has_stored(&Tagged::Load(3)));
    assert!(!scope.is_cancelled());
}

/// A key that requests itself.
#[derive(Clone, Debug, PartialEq, Eq)]
struct Own(u8);

impl Key for Own {
    type Value = u8;

    fn value(&self) -> u8 {
        self.0
    }

    fn equal(x: &u8, y: &u8) -> bool {
        x == y
    }

    fn valid(_x: &u8) -> bool {
        true
    }

    fn same_key(&self, other: &Self) -> bool {
        self == other
    }

    fn dupe(&self) -> Self {
        self.clone()
    }

    fn dupe_value(value: &u8) -> u8 {
        *value
    }

    fn compute(
        &self,
        ctx: &mut DiceComputations<Self>,
        _cancellations: &CancellationContext,
    ) -> Result<u8, DiceError<Self>> {
        ctx.compute(&Own(self.0))
    }

    fn equality(x: &u8, y: &u8) -> bool {
        x == y
    }

    fn validity(_x: &u8) -> bool {
        true
    }

    fn storage_type() -> StorageType {
        StorageType::Normal
    }

    fn key_type_name() -> String {
        "Own".to_owned()
    }
}

#[test]
fn a_key_that_requests_itself_is_an_error() {
    let dice = engine();
    let mut transaction: DiceTransaction<Own> = dice.transaction(UserComputationData::new());
    assert_eq!(
        transaction.ctx.compute(&Own(4)),
        Err(DiceError::Cycle {
            trigger: Own(4),
            cyclic_keys: vec![Own(4)],
        })
    );
    assert!(!transaction.ctx.has_stored(&Own(4)));
}

#[test]
fn memo_copy_and_absorb() {
    let mut memo: Memo<Fib> = Memo::new();
    assert!(memo.store(&Fib(2), 2));
    assert!(memo.store(&Fib(3), 3));
    let mut copy = memo.dupe();
    assert_eq!(copy.len(), 2);
    assert!(copy.holds(&Fib(2)));
    assert!(copy.store(&Fib(4), 5));
    assert!(!memo.holds(&Fib(4)));
    memo.absorb(copy);
    assert_eq!(memo.len(), 3);
    assert_eq!(memo.lookup(&Fib(2)), Some(2));
    assert_eq!(memo.lookup(&Fib(3)), Some(3));
    assert_eq!(memo.lookup(&Fib(4)), Some(5));
    memo.absorb(Memo::new());
    assert_eq!(memo.len(), 3);
}
