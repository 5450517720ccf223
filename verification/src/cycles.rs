use vstd::prelude::*;
use crate::data::UserComputationData;
use crate::data::UserCycleDetectorGuard;
use crate::error::DiceError;
use crate::key::Key;

verus! {

/// Whether a transaction checks its requests for cycles.
#[derive(Debug, Clone, Copy, PartialEq, Eq, Structural)]
pub enum DetectCycles {
    Enabled,
    Disabled,
}

/// The position of the first entry of `chain` that equals `key`; the length of
/// `chain` if there is none.
pub open spec fn first_index<K>(chain: Seq<K>, key: K) -> int
    decreases chain.len(),
{
    if chain.len() == 0 {
        0
    } else if chain[0] == key {
        0
    } else {
        1 + first_index(chain.drop_first(), key)
    }
}

/// The keys of the cycle that a request for `key` closes: the entries of
/// `chain` from the first one that equals `key` to the last.
pub open spec fn cycle_of<K>(chain: Seq<K>, key: K) -> Seq<K> {
    chain.subrange(first_index(chain, key), chain.len() as int)
}

/// What requesting `key` below `chain` gives: the extended chain, or the
/// diagnostic as the pair of the trigger and the keys of the cycle.
pub open spec fn request<K>(chain: Seq<K>, key: K) -> Result<Seq<K>, (K, Seq<K>)> {
    if chain.contains(key) {
        Err((key, cycle_of(chain, key)))
    } else {
        Ok(chain.push(key))
    }
}

/// What requesting `keys` one below the other gives, starting below `chain`:
/// the chain after the last request, or the first diagnostic.
pub open spec fn request_all<K>(chain: Seq<K>, keys: Seq<K>) -> Result<Seq<K>, (K, Seq<K>)>
    decreases keys.len(),
{
    if keys.len() == 0 {
        Ok(chain)
    } else {
        match request(chain, keys[0]) {
            Ok(next) => request_all(next, keys.drop_first()),
            Err(e) => Err(e),
        }
    }
}

/// `first_index` is where it says: within the chain exactly if the key
/// occurs, at an entry that equals the key, with no such entry before it.
pub proof fn lemma_first_index<K>(chain: Seq<K>, key: K)
    ensures
        0 <= first_index(chain, key) <= chain.len(),
        chain.contains(key) <==> first_index(chain, key) < chain.len(),
        first_index(chain, key) < chain.len() ==> chain[first_index(chain, key)] == key,
        forall|j: int| 0 <= j < first_index(chain, key) ==> chain[j] != key,
    decreases chain.len(),
{
    if chain.len() == 0 {
    } else if chain[0] == key {
    } else {
        let rest = chain.drop_first();
        lemma_first_index(rest, key);
        let f = first_index(rest, key);
        assert forall|j: int| 0 <= j < 1 + f implies chain[j] != key by {
            if j > 0 {
                assert(chain[j] == rest[j - 1]);
            }
        }
    }
}

/// The position `i` is the first index of `key` if the entry there equals the
/// key and no earlier entry does.
pub proof fn lemma_first_index_is<K>(chain: Seq<K>, key: K, i: int)
    requires
        0 <= i < chain.len(),
        chain[i] == key,
        forall|j: int| 0 <= j < i ==> chain[j] != key,
    ensures
        first_index(chain, key) == i,
{
    lemma_first_index(chain, key);
}

/// Requests that are made one below the other can be made in two runs: the
/// second run starts where the first one ended, unless that one failed.
pub proof fn lemma_request_all_split<K>(chain: Seq<K>, first: Seq<K>, second: Seq<K>)
    ensures
        request_all(chain, first + second) == match request_all(chain, first) {
            Ok(next) => request_all(next, second),
            Err(e) => Err(e),
        },
    decreases first.len(),
{
    if first.len() == 0 {
    } else {
        assert((first + second).drop_first() =~= first.drop_first() + second);
        match request(chain, first[0]) {
            Ok(next) => {
                lemma_request_all_split(next, first.drop_first(), second);
            },
            Err(_) => {},
        }
    }
}

/// Requests for keys that differ from each other and from the keys on the
/// chain all succeed, and the chain grows by exactly these keys.
pub proof fn lemma_fresh_requests_succeed<K>(chain: Seq<K>, keys: Seq<K>)
    requires
        (chain + keys).no_duplicates(),
    ensures
        request_all(chain, keys) == Ok::<Seq<K>, (K, Seq<K>)>(chain + keys),
    decreases keys.len(),
{
    if keys.len() == 0 {
    } else {
        let all = chain + keys;
        assert(all[chain.len() as int] == keys[0]);
        if chain.contains(keys[0]) {
            let i = choose|i: int| 0 <= i < chain.len() && chain[i] == keys[0];
            assert(all[i] == chain[i]);
        }
        let next = chain.push(keys[0]);
        assert(next + keys.drop_first() =~= all);
        lemma_fresh_requests_succeed(next, keys.drop_first());
    }
}

/// A run of requests for distinct keys, started at the top of a branch,
/// succeeds, and the chain then holds these keys in the order of the requests:
/// as many as were requested.
pub proof fn lemma_distinct_requests_succeed<K>(keys: Seq<K>)
    requires
        keys.no_duplicates(),
    ensures
        request_all(Seq::<K>::empty(), keys) == Ok::<Seq<K>, (K, Seq<K>)>(keys),
        request_all(Seq::<K>::empty(), keys)->Ok_0.len() == keys.len(),
{
    lemma_fresh_requests_succeed(Seq::<K>::empty(), keys);
}

/// A run of requests, started at the top of a branch, in which the request at
/// position `i` is the first to repeat an earlier key, that at position `j`,
/// fails: the trigger is the repeated key, and the keys of the cycle are those
/// requested from position `j` up to the repeat, in the order of their
/// requests. What would have been requested after the repeat plays no part.
pub proof fn lemma_repeated_request_fails<K>(keys: Seq<K>, j: int, i: int)
    requires
        0 <= j < i < keys.len(),
        keys[i] == keys[j],
        keys.take(i).no_duplicates(),
    ensures
        request_all(Seq::<K>::empty(), keys) == Err::<Seq<K>, (K, Seq<K>)>(
            (keys[i], keys.subrange(j, i)),
        ),
{
    let before = keys.take(i);
    let rest = keys.skip(i);
    assert(keys =~= before + rest);
    lemma_distinct_requests_succeed(before);
    lemma_request_all_split(Seq::<K>::empty(), before, rest);
    lemma_first_index_is(before, keys[i], j);
    assert(cycle_of(before, keys[i]) =~= keys.subrange(j, i));
}

/// Two branches below one parent do not see each other's requests. A key that
/// is not on the parent's chain can be the first request of both: neither gets
/// a cycle for it, and each goes on from the parent's chain and this key by
/// its own later requests alone.
pub proof fn lemma_sibling_requests_independent<K>(
    parent: Seq<K>,
    key: K,
    first_branch: Seq<K>,
    second_branch: Seq<K>,
)
    requires
        !parent.contains(key),
    ensures
        request(parent, key) == Ok::<Seq<K>, (K, Seq<K>)>(parent.push(key)),
        request_all(parent, seq![key] + first_branch) == request_all(
            parent.push(key),
            first_branch,
        ),
        request_all(parent, seq![key] + second_branch) == request_all(
            parent.push(key),
            second_branch,
        ),
{
    assert((seq![key] + first_branch).drop_first() =~= first_branch);
    assert((seq![key] + second_branch).drop_first() =~= second_branch);
}

/// A request at the top of a branch is held against the empty chain alone
/// and succeeds: what earlier branches requested, and how they ended, is no
/// part of what a request is held against.
pub proof fn lemma_top_request_succeeds<K>(key: K)
    ensures
        request(Seq::<K>::empty(), key) == Ok::<Seq<K>, (K, Seq<K>)>(seq![key]),
{
}

/// No key comes to stand twice on a chain: a request below a chain of
/// distinct keys gives a chain of distinct keys, or a cycle of distinct keys.
pub proof fn lemma_request_keeps_distinct<K>(chain: Seq<K>, key: K)
    requires
        chain.no_duplicates(),
    ensures
        match request(chain, key) {
            Ok(next) => next.no_duplicates(),
            Err((_, cycle)) => cycle.no_duplicates(),
        },
{
    lemma_first_index(chain, key);
}

/// What a request for `key` gives in a transaction: with detection switched
/// on, what `request` gives; with detection switched off, always the chain as
/// it was, which then records nothing.
pub open spec fn subrequest_of<K>(detects: bool, chain: Seq<K>, key: K) -> Result<
    Seq<K>,
    (K, Seq<K>),
> {
    if detects {
        request(chain, key)
    } else {
        Ok(chain)
    }
}

/// The guard that a reader who expects the kind `kind` gets from a transaction
/// with the guard `installed`: none if none is installed, the installed one if
/// it is of this kind, else the failure as the pair of the requested and the
/// installed kind.
pub open spec fn guard_for(installed: Option<UserCycleDetectorGuard>, kind: u64) -> Result<
    Option<UserCycleDetectorGuard>,
    (u64, u64),
> {
    match installed {
        None => Ok(None),
        Some(guard) => if guard.kind == kind {
            Ok(Some(guard))
        } else {
            Err((kind, guard.kind))
        },
    }
}

/// The ancestor chain of one evaluation branch: the keys that are being
/// computed, outermost first. No key occurs twice in it.
pub struct CycleDetector<K: Key> {
    stack: Vec<K>,
}

impl<K: Key> View for CycleDetector<K> {
    type V = Seq<K>;

    closed spec fn view(&self) -> Seq<K> {
        self.stack@
    }
}

impl<K: Key> CycleDetector<K> {
    #[verifier::type_invariant]
    spec fn distinct(self) -> bool {
        self.stack@.no_duplicates()
    }

    /// The empty chain, at the top of a branch.
    pub fn new() -> (d: Self)
        ensures
            d@ == Seq::<K>::empty(),
    {
        CycleDetector { stack: Vec::new() }
    }

    /// The number of keys on the chain.
    pub fn len(&self) -> (n: usize)
        ensures
            n == self@.len(),
    {
        self.stack.len()
    }

    /// The keys on the chain, outermost first.
    pub fn keys(&self) -> (keys: &Vec<K>)
        ensures
            keys@ == self@,
            keys@.no_duplicates(),
    {
        proof {
            use_type_invariant(self);
        }
        &self.stack
    }

    /// A copy of the chain.
    pub fn dupe(&self) -> (d: Self)
        ensures
            d@ == self@,
    {
        proof {
            use_type_invariant(self);
        }
        let stack = copy_keys(&self.stack, 0);
        CycleDetector { stack }
    }

    /// Requests `key` below this chain. If the key is on the chain, this is a
    /// cycle, and the diagnostic names the key and the keys of the cycle.
    /// Otherwise the result is this chain extended by the key. This chain
    /// itself stays as it is.
    pub fn visit(&self, key: &K) -> (r: Result<CycleDetector<K>, DiceError<K>>)
        ensures
            match r {
                Ok(next) => request(self@, *key) == Ok::<Seq<K>, (K, Seq<K>)>(next@),
                Err(DiceError::Cycle { trigger, cyclic_keys }) => request(self@, *key) == Err::<
                    Seq<K>,
                    (K, Seq<K>),
                >((trigger, cyclic_keys@)) && cyclic_keys@.no_duplicates(),
                Err(_) => false,
            },
    {
        proof {
            use_type_invariant(self);
        }
        let mut i: usize = 0;
        while i < self.stack.len()
            invariant
                i <= self.stack.len(),
                self.stack@.no_duplicates(),
                forall|j: int| 0 <= j < i ==> self.stack@[j] != *key,
            decreases self.stack.len() - i,
        {
            if self.stack[i].same_key(key) {
                proof {
                    lemma_first_index_is(self.stack@, *key, i as int);
                    lemma_request_keeps_distinct(self.stack@, *key);
                }
                let cyclic_keys = copy_keys(&self.stack, i);
                return Err(DiceError::Cycle { trigger: key.dupe(), cyclic_keys });
            }
            i += 1;
        }
        let mut stack = copy_keys(&self.stack, 0);
        assert(stack@ =~= self.stack@);
        stack.push(key.dupe());
        Ok(CycleDetector { stack })
    }
}

/// The state that one evaluation branch carries: the data of its transaction
/// and, if the transaction detects cycles, the ancestor chain of the branch.
pub struct ComputationData<K: Key> {
    user_data: UserComputationData,
    cycle_detector: Option<CycleDetector<K>>,
}

impl<K: Key> ComputationData<K> {
    /// The data of the transaction.
    pub closed spec fn user(&self) -> (Seq<(u64, Seq<char>)>, Option<UserCycleDetectorGuard>) {
        self.user_data@
    }

    /// Whether requests are checked for cycles.
    pub closed spec fn detects(&self) -> bool {
        self.cycle_detector is Some
    }

    /// The ancestor chain; empty where cycles are not detected.
    pub closed spec fn chain(&self) -> Seq<K> {
        match self.cycle_detector {
            Some(detector) => detector@,
            None => Seq::empty(),
        }
    }

    /// The state at the top of a branch.
    pub fn new(user_data: UserComputationData, detect_cycles: DetectCycles) -> (c: Self)
        ensures
            c.user() == user_data@,
            c.detects() == (detect_cycles == DetectCycles::Enabled),
            c.chain() == Seq::<K>::empty(),
    {
        let cycle_detector = match detect_cycles {
            DetectCycles::Enabled => Some(CycleDetector::new()),
            DetectCycles::Disabled => None,
        };
        ComputationData { user_data, cycle_detector }
    }

    /// The state of the branch below a request for `key`, or the cycle that
    /// the request closes. With detection switched off every request succeeds.
    /// This state itself stays as it is.
    pub fn subrequest(&self, key: &K) -> (r: Result<ComputationData<K>, DiceError<K>>)
        ensures
            match r {
                Ok(next) => {
                    &&& subrequest_of(self.detects(), self.chain(), *key) == Ok::<
                        Seq<K>,
                        (K, Seq<K>),
                    >(next.chain())
                    &&& next.detects() == self.detects()
                    &&& next.user() == self.user()
                },
                Err(DiceError::Cycle { trigger, cyclic_keys }) => subrequest_of(
                    self.detects(),
                    self.chain(),
                    *key,
                ) == Err::<Seq<K>, (K, Seq<K>)>((trigger, cyclic_keys@))
                    && cyclic_keys@.no_duplicates(),
                Err(_) => false,
            },
    {
        match &self.cycle_detector {
            Some(detector) => {
                match detector.visit(key) {
                    Ok(next) => Ok(
                        ComputationData {
                            user_data: self.user_data.dupe(),
                            cycle_detector: Some(next),
                        },
                    ),
                    Err(e) => Err(e),
                }
            },
            None => Ok(ComputationData { user_data: self.user_data.dupe(), cycle_detector: None }),
        }
    }

    /// The data of the transaction.
    pub fn user_data(&self) -> (d: &UserComputationData)
        ensures
            d@ == self.user(),
    {
        &self.user_data
    }

    /// Whether requests are checked for cycles.
    pub fn detect_cycles(&self) -> (d: DetectCycles)
        ensures
            (d == DetectCycles::Enabled) == self.detects(),
    {
        match &self.cycle_detector {
            Some(_) => DetectCycles::Enabled,
            None => DetectCycles::Disabled,
        }
    }

    /// Copies of the keys on the ancestor chain, outermost first.
    pub fn ancestors(&self) -> (keys: Vec<K>)
        ensures
            keys@ == self.chain(),
            keys@.no_duplicates(),
    {
        match &self.cycle_detector {
            Some(detector) => {
                copy_keys(detector.keys(), 0)
            },
            None => Vec::new(),
        }
    }

    /// The guard of the transaction's cycle detector, for a reader that
    /// expects one of the kind `kind`.
    pub fn cycle_guard(&self, kind: u64) -> (r: Result<
        Option<&UserCycleDetectorGuard>,
        DiceError<K>,
    >)
        ensures
            match r {
                Ok(Some(guard)) => guard_for(self.user().1, kind) == Ok::<
                    Option<UserCycleDetectorGuard>,
                    (u64, u64),
                >(Some(*guard)),
                Ok(None) => guard_for(self.user().1, kind) == Ok::<
                    Option<UserCycleDetectorGuard>,
                    (u64, u64),
                >(None),
                Err(DiceError::CycleGuardMismatch { requested, installed }) => guard_for(
                    self.user().1,
                    kind,
                ) == Err::<Option<UserCycleDetectorGuard>, (u64, u64)>((requested, installed)),
                Err(_) => false,
            },
    {
        match &self.user_data.cycle_guard {
            None => Ok(None),
            Some(guard) => {
                if guard.kind == kind {
                    Ok(Some(guard))
                } else {
                    Err(DiceError::CycleGuardMismatch { requested: kind, installed: guard.kind })
                }
            },
        }
    }
}

/// Copies of the entries of `keys` from position `from` on.
fn copy_keys<K: Key>(keys: &Vec<K>, from: usize) -> (copy: Vec<K>)
    requires
        from <= keys.len(),
    ensures
        copy@ == keys@.subrange(from as int, keys@.len() as int),
{
    let mut copy: Vec<K> = Vec::new();
    let mut i: usize = from;
    while i < keys.len()
        invariant
            from <= i <= keys.len(),
            copy@ == keys@.subrange(from as int, i as int),
        decreases keys.len() - i,
    {
        copy.push(keys[i].dupe());
        i += 1;
    }
    copy
}

} // verus!
