use vstd::prelude::*;
use crate::cancellation::CancellationContext;
use crate::cycles::subrequest_of;
use crate::cycles::guard_for;
use crate::cycles::ComputationData;
use crate::data::DiceData;
use crate::data::UserComputationData;
use crate::data::UserCycleDetectorGuard;
use crate::error::DiceError;
use crate::key::Key;
use crate::memo::Memo;
use crate::opaque::OpaqueValue;
use crate::transaction::DiceTransaction;

verus! {

/// An edge of the dependency graph, from the computation that records it.
#[derive(Debug, Clone, PartialEq, Eq)]
pub enum Dependency<K> {
    /// On the whole value of a key.
    Value(K),
    /// On what the projection with the given identity derives from the value
    /// of a key.
    Projection(K, u64),
}

/// The context of one computation: through it a body requests other keys, and
/// it records what the computation came to depend on.
pub struct DiceComputations<K: Key> {
    global: DiceData,
    data: ComputationData<K>,
    memo: Memo<K>,
    deps: Vec<Dependency<K>>,
    cancellations: CancellationContext,
}

impl<K: Key> DiceComputations<K> {
    /// The settings of the engine.
    pub closed spec fn global(&self) -> Seq<(u64, Seq<char>)> {
        self.global@
    }

    /// The data of the transaction.
    pub closed spec fn user(&self) -> (Seq<(u64, Seq<char>)>, Option<UserCycleDetectorGuard>) {
        self.data.user()
    }

    /// Whether requests are checked for cycles.
    pub closed spec fn detects(&self) -> bool {
        self.data.detects()
    }

    /// The ancestor chain of the computation.
    pub closed spec fn chain(&self) -> Seq<K> {
        self.data.chain()
    }

    /// The edges that the computation has recorded, oldest first.
    pub closed spec fn recorded(&self) -> Seq<Dependency<K>> {
        self.deps@
    }

    /// The keys whose values the transaction has stored so far.
    pub closed spec fn stored(&self) -> Seq<K> {
        self.memo.keys()
    }

    /// Whether cancellation was requested in the scope of the computation.
    pub closed spec fn cancelled(&self) -> bool {
        self.cancellations.cancelled()
    }

    /// Whether `self` and `other` are contexts of the same computation: with
    /// the same settings, transaction data, switch, ancestor chain and
    /// cancellation signal.
    pub open spec fn same_scope(&self, other: &Self) -> bool {
        &&& self.global() == other.global()
        &&& self.user() == other.user()
        &&& self.detects() == other.detects()
        &&& self.chain() == other.chain()
        &&& self.cancelled() == other.cancelled()
    }

    /// Whether `self` is a context at the top of a branch in the transaction
    /// of `origin`, with nothing recorded or stored and no cancellation
    /// requested.
    pub open spec fn fresh_view_of(&self, origin: &Self) -> bool {
        &&& self.global() == origin.global()
        &&& self.user() == origin.user()
        &&& self.detects() == origin.detects()
        &&& self.chain() == Seq::<K>::empty()
        &&& self.recorded() == Seq::<Dependency<K>>::empty()
        &&& self.stored() == Seq::<K>::empty()
        &&& !self.cancelled()
    }

    /// Whether every key that has a stored value in `before` has one in
    /// `self`.
    pub open spec fn keeps_stored(&self, before: &Self) -> bool {
        forall|k: K|
            #![trigger self.stored().contains(k)]
            #![trigger before.stored().contains(k)]
            before.stored().contains(k) ==> self.stored().contains(k)
    }

    /// Whether `self` is the context that the body of `key` gets when the key
    /// is requested from `parent`: in the same transaction and scope, below
    /// the chain `chain` that the request has led to, with nothing recorded
    /// yet and with the stored values of the parent.
    pub open spec fn is_for_body(&self, parent: &Self, chain: Seq<K>) -> bool {
        &&& self.global() == parent.global()
        &&& self.user() == parent.user()
        &&& self.detects() == parent.detects()
        &&& self.chain() == chain
        &&& self.cancelled() == parent.cancelled()
        &&& self.recorded() == Seq::<Dependency<K>>::empty()
        &&& self.stored() == parent.stored()
    }

    /// Whether the transaction holds a value for `key` that can be used
    /// again.
    pub open spec fn memoized(&self, key: K) -> bool {
        self.stored().contains(key) && K::valid(&key.value())
    }

    /// Whether `r` can be the answer to a request for `key` from this
    /// context. A key on the ancestor chain gets the diagnostic of its cycle
    /// and nothing else, and no key stands twice among the keys of the cycle;
    /// a value that any other key gets is the key's value.
    pub open spec fn answers(&self, key: K, r: Result<K::Value, DiceError<K>>) -> bool {
        match subrequest_of(self.detects(), self.chain(), key) {
            Err((trigger, cycle)) => r matches Err(DiceError::Cycle { trigger: t, cyclic_keys })
                && t == trigger && cyclic_keys@ == cycle && cyclic_keys@.no_duplicates(),
            Ok(_) => r matches Ok(v) ==> v == key.value(),
        }
    }

    /// Whether a request for `key` from this context is owed a value: the
    /// key is not on the ancestor chain, and the transaction holds a value
    /// for it that can be used again.
    pub open spec fn owes_value(&self, key: K) -> bool {
        subrequest_of(self.detects(), self.chain(), key) is Ok && self.memoized(key)
    }

    /// As `answers`, for a request that asks for an opaque value.
    pub open spec fn answers_opaque(&self, key: K, r: Result<OpaqueValue<K>, DiceError<K>>) -> bool {
        match subrequest_of(self.detects(), self.chain(), key) {
            Err((trigger, cycle)) => r matches Err(DiceError::Cycle { trigger: t, cyclic_keys })
                && t == trigger && cyclic_keys@ == cycle && cyclic_keys@.no_duplicates(),
            Ok(_) => r matches Ok(opaque) ==> opaque.key() == key && opaque.value() == key.value(),
        }
    }

    /// The edges that a request for the whole value of `key` records: one on
    /// the key, unless the request closes a cycle.
    pub open spec fn edge(&self, key: K) -> Seq<Dependency<K>> {
        if subrequest_of(self.detects(), self.chain(), key) is Ok {
            seq![Dependency::Value(key)]
        } else {
            Seq::empty()
        }
    }

    /// The edges that requests for the whole values of `keys` record, one
    /// request after the other.
    pub open spec fn edges(&self, keys: Seq<&K>) -> Seq<Dependency<K>>
        decreases keys.len(),
    {
        if keys.len() == 0 {
            Seq::empty()
        } else {
            self.edges(keys.drop_last()) + self.edge(*keys.last())
        }
    }

    /// The context at the top of a branch of a transaction.
    pub fn new(global: DiceData, data: ComputationData<K>) -> (ctx: Self)
        ensures
            ctx.global() == global@,
            ctx.user() == data.user(),
            ctx.detects() == data.detects(),
            ctx.chain() == data.chain(),
            ctx.recorded() == Seq::<Dependency<K>>::empty(),
            ctx.stored() == Seq::<K>::empty(),
            !ctx.cancelled(),
    {
        DiceComputations {
            global,
            data,
            memo: Memo::new(),
            deps: Vec::new(),
            cancellations: CancellationContext::new(),
        }
    }

    /// Takes what the body of `key` returned, below this context, and gives
    /// the answer to the request: the body's own result, value or failure, as
    /// it is. A value is kept for later requests of the key.
    pub fn conclude(&mut self, key: &K, outcome: Result<K::Value, DiceError<K>>) -> (r: Result<
        K::Value,
        DiceError<K>,
    >)
        requires
            outcome matches Ok(v) ==> v == key.value(),
        ensures
            r == outcome,
            final(self).stored() == if r is Ok && !old(self).stored().contains(*key) {
                old(self).stored().push(*key)
            } else {
                old(self).stored()
            },
            r is Ok ==> final(self).stored().contains(*key),
            final(self).keeps_stored(old(self)),
            final(self).same_scope(old(self)),
            final(self).recorded() == old(self).recorded(),
    {
        match outcome {
            Ok(value) => {
                let kept = K::dupe_value(&value);
                let _ = self.memo.store(key, kept);
                proof {
                    let before = old(self).stored();
                    if !before.contains(*key) {
                        let after = before.push(*key);
                        assert(after.last() == *key);
                        assert forall|k: K| before.contains(k) implies after.contains(k) by {
                            let at = choose|at: int| 0 <= at < before.len() && before[at] == k;
                            assert(after[at] == k);
                        }
                    }
                }
                Ok(value)
            },
            Err(e) => Err(e),
        }
    }

    /// What the body of `key` is called with when the key is requested from
    /// this context, where `sub` is the state of the branch below the
    /// request: its context, and the cancellation signal of its scope.
    pub fn for_body(&self, key: &K, sub: ComputationData<K>) -> (body: (
        Self,
        CancellationContext,
    ))
        requires
            subrequest_of(self.detects(), self.chain(), *key) == Ok::<Seq<K>, (K, Seq<K>)>(
                sub.chain(),
            ),
            sub.user() == self.user(),
            sub.detects() == self.detects(),
        ensures
            body.0.is_for_body(self, sub.chain()),
            body.1.cancelled() == self.cancelled(),
    {
        let child = DiceComputations {
            global: self.global.dupe(),
            data: sub,
            memo: self.memo.dupe(),
            deps: Vec::new(),
            cancellations: self.cancellations,
        };
        (child, self.cancellations)
    }

    /// Answers a request whose key is not on the ancestor chain: with the
    /// stored value if one can be used, else by running the body below `sub`.
    /// The body works on a context of its own, with copies of the stored
    /// values; what it has stored is taken over when it returns, so that
    /// nothing that was stored here is lost, whatever the body does.
    fn evaluate(&mut self, key: &K, sub: ComputationData<K>) -> (r: Result<K::Value, DiceError<K>>)
        requires
            subrequest_of(old(self).detects(), old(self).chain(), *key) == Ok::<
                Seq<K>,
                (K, Seq<K>),
            >(sub.chain()),
            sub.user() == old(self).user(),
            sub.detects() == old(self).detects(),
        ensures
            r matches Ok(v) ==> v == key.value(),
            old(self).memoized(*key) ==> r is Ok && final(self).stored() == old(self).stored(),
            r is Ok ==> final(self).stored().contains(*key),
            final(self).keeps_stored(old(self)),
            final(self).same_scope(old(self)),
            final(self).recorded() == old(self).recorded(),
    {
        match self.memo.lookup(key) {
            Some(value) => Ok(value),
            None => {
                let (mut child, cancellations) = self.for_body(key, sub);
                let outcome = key.compute(&mut child, &cancellations);
                self.memo.absorb(child.memo);
                self.conclude(key, outcome)
            },
        }
    }

    /// The value of `key`: the one stored in this transaction, if it can be
    /// used again, else the one that the key's body computes now. If the key
    /// is on the ancestor chain, the request fails with the diagnostic of the
    /// cycle. A failure of the body is handed on. Unless the request closes a
    /// cycle, it records an edge on the key. The ancestor chain is afterwards
    /// what it was.
    pub fn compute(&mut self, key: &K) -> (r: Result<K::Value, DiceError<K>>)
        ensures
            old(self).answers(*key, r),
            old(self).owes_value(*key) ==> r is Ok && final(self).stored() == old(self).stored(),
            r is Ok ==> final(self).stored().contains(*key),
            final(self).keeps_stored(old(self)),
            final(self).recorded() == old(self).recorded() + old(self).edge(*key),
            final(self).same_scope(old(self)),
    {
        match self.data.subrequest(key) {
            Err(e) => {
                Err(e)
            },
            Ok(sub) => {
                let r = self.evaluate(key, sub);
                self.deps.push(Dependency::Value(key.dupe()));
                r
            },
        }
    }

    /// The answers to requests for `keys`, in the order of the keys: each is
    /// what `compute` gives for its key. A key that is owed a value gets it,
    /// a value that is given is stored, and once a key has got a value that
    /// can be used again, the same key gets it again further on.
    pub fn compute_many(&mut self, keys: &[&K]) -> (r: Vec<Result<K::Value, DiceError<K>>>)
        ensures
            r@.len() == keys@.len(),
            forall|i: int| 0 <= i < keys@.len() ==> old(self).answers(*keys@[i], #[trigger] r@[i]),
            forall|i: int|
                0 <= i < keys@.len() && old(self).owes_value(*keys@[i]) ==> (#[trigger] r@[i]) is Ok,
            forall|i: int|
                0 <= i < keys@.len() && (#[trigger] r@[i]) is Ok ==> final(self).stored().contains(
                    *keys@[i],
                ),
            forall|a: int, b: int|
                #![trigger r@[a], r@[b]]
                0 <= a < b < keys@.len() && *keys@[a] == *keys@[b] && r@[a] is Ok && K::valid(
                    &keys@[a].value(),
                ) ==> r@[b] is Ok,
            final(self).keeps_stored(old(self)),
            final(self).recorded() == old(self).recorded() + old(self).edges(keys@),
            final(self).same_scope(old(self)),
    {
        let mut results: Vec<Result<K::Value, DiceError<K>>> = Vec::new();
        let mut i: usize = 0;
        while i < keys.len()
            invariant
                i <= keys@.len(),
                results@.len() == i,
                forall|j: int| 0 <= j < i ==> old(self).answers(*keys@[j], #[trigger] results@[j]),
                forall|j: int|
                    0 <= j < i && old(self).owes_value(*keys@[j]) ==> (#[trigger] results@[j]) is Ok,
                forall|j: int|
                    0 <= j < i && (#[trigger] results@[j]) is Ok ==> self.stored().contains(
                        *keys@[j],
                    ),
                forall|a: int, b: int|
                    #![trigger results@[a], results@[b]]
                    0 <= a < b < i && *keys@[a] == *keys@[b] && results@[a] is Ok && K::valid(
                        &keys@[a].value(),
                    ) ==> results@[b] is Ok,
                self.keeps_stored(old(self)),
                self.recorded() == old(self).recorded() + old(self).edges(keys@.take(i as int)),
                self.same_scope(old(self)),
            decreases keys@.len() - i,
        {
            let answer = self.compute(keys[i]);
            proof {
                let now = keys@.take(i + 1);
                assert(now.drop_last() =~= keys@.take(i as int));
            }
            results.push(answer);
            i += 1;
        }
        assert(keys@.take(i as int) =~= keys@);
        results
    }

    /// As `compute`, but the value comes wrapped, and no edge is recorded: a
    /// dependency arises only when a projection is applied to the value.
    pub fn compute_opaque(&mut self, key: &K) -> (r: Result<OpaqueValue<K>, DiceError<K>>)
        ensures
            old(self).answers_opaque(*key, r),
            old(self).owes_value(*key) ==> r is Ok && final(self).stored() == old(self).stored(),
            r is Ok ==> final(self).stored().contains(*key),
            final(self).keeps_stored(old(self)),
            final(self).recorded() == old(self).recorded(),
            final(self).same_scope(old(self)),
    {
        match self.data.subrequest(key) {
            Err(e) => Err(e),
            Ok(sub) => {
                match self.evaluate(key, sub) {
                    Ok(value) => Ok(OpaqueValue::new(key.dupe(), value)),
                    Err(e) => Err(e),
                }
            },
        }
    }

    /// Records that the computation depends on what the projection `identity`
    /// derives from the value of `key`.
    pub fn record_projection(&mut self, key: &K, identity: u64)
        ensures
            final(self).recorded() == old(self).recorded().push(
                Dependency::Projection(*key, identity),
            ),
            final(self).stored() == old(self).stored(),
            final(self).same_scope(old(self)),
    {
        self.deps.push(Dependency::Projection(key.dupe(), identity));
    }

    /// Runs `f` on a view of the transaction of its own: at the top of a
    /// branch, with nothing recorded, and with a cancellation scope that does
    /// not inherit from this computation.
    pub fn temporary_spawn<R, F>(&self, f: F) -> (r: R) where
        F: FnOnce(DiceTransaction<K>, &CancellationContext) -> R,

        requires
            forall|transaction: DiceTransaction<K>, cancellations: CancellationContext|
                transaction.ctx.fresh_view_of(self) && !cancellations.cancelled() ==> f.requires(
                    (transaction, &cancellations),
                ),
        ensures
            exists|transaction: DiceTransaction<K>, cancellations: CancellationContext|
                transaction.ctx.fresh_view_of(self) && !cancellations.cancelled() && f.ensures(
                    (transaction, &cancellations),
                    r,
                ),
    {
        let (transaction, cancellations) = self.fresh_view();
        f(transaction, &cancellations)
    }

    /// A view of the transaction of its own, with its own cancellation
    /// scope: what spawned work runs on.
    pub fn fresh_view(&self) -> (view: (DiceTransaction<K>, CancellationContext))
        ensures
            view.0.ctx.fresh_view_of(self),
            !view.1.cancelled(),
    {
        let data = ComputationData::new(self.data.user_data().dupe(), self.data.detect_cycles());
        let transaction = DiceTransaction { ctx: DiceComputations::new(self.global.dupe(), data) };
        (transaction, CancellationContext::new())
    }

    /// Requests cancellation in the scope of this computation. Nothing is
    /// stopped: the bodies that run from now on see the signal.
    pub fn cancel(&mut self)
        ensures
            final(self).cancelled(),
            final(self).global() == old(self).global(),
            final(self).user() == old(self).user(),
            final(self).detects() == old(self).detects(),
            final(self).chain() == old(self).chain(),
            final(self).recorded() == old(self).recorded(),
            final(self).stored() == old(self).stored(),
    {
        self.cancellations.cancel();
    }

    /// The settings of the engine.
    pub fn global_data(&self) -> (d: &DiceData)
        ensures
            d@ == self.global(),
    {
        &self.global
    }

    /// The data of the transaction.
    pub fn per_transaction_data(&self) -> (d: &UserComputationData)
        ensures
            d@ == self.user(),
    {
        self.data.user_data()
    }

    /// The guard of the transaction's cycle detector, for a reader that
    /// expects one of the kind `kind`: none if the transaction has no guard,
    /// a failure if it has one of another kind.
    pub fn cycle_guard(&self, kind: u64) -> (r: Result<
        Option<&UserCycleDetectorGuard>,
        DiceError<K>,
    >)
        ensures
            match r {
                Ok(Some(guard)) => guard_for(self.user().1, kind) == Ok::<
                    Option<UserCycleDetectorGuard>,
                    (u64, u64),
                >(Some(*guard)),
                Ok(None) => guard_for(self.user().1, kind) == Ok::<
                    Option<UserCycleDetectorGuard>,
                    (u64, u64),
                >(None),
                Err(DiceError::CycleGuardMismatch { requested, installed }) => guard_for(
                    self.user().1,
                    kind,
                ) == Err::<Option<UserCycleDetectorGuard>, (u64, u64)>((requested, installed)),
                Err(_) => false,
            },
    {
        self.data.cycle_guard(kind)
    }

    /// Whether the transaction has a stored value for `key`.
    pub fn has_stored(&self, key: &K) -> (b: bool)
        ensures
            b == self.stored().contains(*key),
    {
        self.memo.holds(key)
    }

    /// The edges that the computation has recorded, oldest first.
    pub fn dependencies(&self) -> (deps: &Vec<Dependency<K>>)
        ensures
            deps@ == self.recorded(),
    {
        &self.deps
    }

    /// Copies of the keys on the ancestor chain, outermost first.
    pub fn ancestors(&self) -> (keys: Vec<K>)
        ensures
            keys@ == self.chain(),
            keys@.no_duplicates(),
    {
        self.data.ancestors()
    }

    /// The cancellation signal of the computation.
    pub fn cancellations(&self) -> (c: CancellationContext)
        ensures
            c.cancelled() == self.cancelled(),
    {
        self.cancellations
    }
}

} // verus!
