//! Bookkeeping for single-flight lookups: a request-scoped registry that
//! hands out at most one fetch per key and lets every later caller share
//! the handle of that fetch.

use vstd::prelude::*;

verus! {

/// Mathematical model of a [`CacheKey`].
pub enum CacheKeyView {
    Id(Seq<char>),
    Path(Seq<char>, Seq<char>, Option<Seq<char>>),
}

/// The identity of a remote entity: an id (ensembles, ensemble models) or
/// an owner, repository and optional commit (functions, profiles).
#[derive(Debug)]
pub enum CacheKey {
    Id(String),
    Path { owner: String, repository: String, commit: Option<String> },
}

impl CacheKey {
    pub open spec fn view(self) -> CacheKeyView {
        match self {
            CacheKey::Id(s) => CacheKeyView::Id(s@),
            CacheKey::Path { owner, repository, commit } => CacheKeyView::Path(
                owner@,
                repository@,
                match commit {
                    Some(c) => Some(c@),
                    None => None,
                },
            ),
        }
    }

    /// Whether two keys name the same entity.
    pub fn same(&self, other: &CacheKey) -> (r: bool)
        ensures
            r == (self.view() == other.view()),
    {
        match (self, other) {
            (CacheKey::Id(a), CacheKey::Id(b)) => a.eq(b),
            (
                CacheKey::Path { owner: o1, repository: r1, commit: c1 },
                CacheKey::Path { owner: o2, repository: r2, commit: c2 },
            ) => {
                let commits = match (c1, c2) {
                    (Some(a), Some(b)) => a.eq(b),
                    (None, None) => true,
                    _ => false,
                };
                o1.eq(o2) && r1.eq(r2) && commits
            },
            _ => false,
        }
    }
}

/// The outcome of asking the registry for a key.
#[derive(Clone, Copy, Debug, PartialEq, Eq, Structural)]
pub enum Claim {
    /// The key was new: the caller starts the one fetch; its handle is at this slot.
    Lead(usize),
    /// A fetch for the key exists: the caller shares the handle at this slot.
    Follow(usize),
}

impl Claim {
    pub open spec fn slot(self) -> usize {
        match self {
            Claim::Lead(i) => i,
            Claim::Follow(i) => i,
        }
    }
}

/// The first position of a key in a sequence of entries.
pub open spec fn find_key<V>(s: Seq<(CacheKeyView, V)>, k: CacheKeyView) -> Option<int>
    decreases s.len(),
{
    if s.len() == 0 {
        None
    } else {
        match find_key(s.drop_last(), k) {
            Some(i) => Some(i),
            None => if s.last().0 == k {
                Some(s.len() - 1)
            } else {
                None
            },
        }
    }
}

/// A claim of a key on a registry: the registry afterwards, and the claim.
pub open spec fn claim_spec<V>(s: Seq<(CacheKeyView, V)>, k: CacheKeyView, handle: V) -> (
    Seq<(CacheKeyView, V)>,
    Claim,
) {
    match find_key(s, k) {
        Some(i) => (s, Claim::Follow(i as usize)),
        None => (s.push((k, handle)), Claim::Lead(s.len() as usize)),
    }
}

/// Claims of a sequence of keys made one after another, each with its own
/// handle: the registry afterwards, and the claims in order.
pub open spec fn claims_spec<V>(s: Seq<(CacheKeyView, V)>, keys: Seq<CacheKeyView>, handles: Seq<V>) -> (
    Seq<(CacheKeyView, V)>,
    Seq<Claim>,
)
    decreases keys.len(),
{
    if keys.len() == 0 {
        (s, Seq::empty())
    } else {
        let (t, cs) = claims_spec(s, keys.drop_last(), handles);
        let (u, c) = claim_spec(t, keys.last(), handles[keys.len() - 1]);
        (u, cs.push(c))
    }
}

proof fn lemma_find_key_prefix<V>(s: Seq<(CacheKeyView, V)>, k: CacheKeyView, j: int)
    requires
        0 <= j <= s.len(),
        find_key(s.subrange(0, j), k) is Some,
    ensures
        find_key(s, k) == find_key(s.subrange(0, j), k),
    decreases s.len() - j,
{
    if j < s.len() {
        assert(s.subrange(0, j + 1).drop_last() =~= s.subrange(0, j));
        lemma_find_key_prefix(s, k, j + 1);
    } else {
        assert(s.subrange(0, j) =~= s);
    }
}

proof fn lemma_find_key_none<V>(s: Seq<(CacheKeyView, V)>, k: CacheKeyView)
    ensures
        find_key(s, k) is None <==> forall|i: int| 0 <= i < s.len() ==> s[i].0 != k,
        find_key(s, k) matches Some(i) ==> 0 <= i < s.len() && s[i].0 == k,
    decreases s.len(),
{
    if s.len() > 0 {
        lemma_find_key_none(s.drop_last(), k);
        assert forall|i: int| 0 <= i < s.len() - 1 implies s.drop_last()[i] == s[i] by {}
    }
}

/// A registry of in-flight fetches, one entry per key, each holding the
/// shared handle of that key's fetch.
#[derive(Debug)]
pub struct FlightTable<V> {
    keys: Vec<CacheKey>,
    handles: Vec<V>,
}

impl<V> FlightTable<V> {
    /// The entries, in order of first request.
    pub closed spec fn view(self) -> Seq<(CacheKeyView, V)> {
        Seq::new(self.keys@.len(), |i: int| (self.keys@[i].view(), self.handles@[i]))
    }

    /// Keys and handles line up, and no key is held twice.
    pub closed spec fn wf(self) -> bool {
        &&& self.keys@.len() == self.handles@.len()
        &&& forall|i: int, j: int|
            0 <= i < j < self.keys@.len() ==> self.keys@[i].view() != self.keys@[j].view()
    }

    /// An empty registry.
    pub fn new() -> (r: FlightTable<V>)
        ensures
            r.wf(),
            r.view() == Seq::<(CacheKeyView, V)>::empty(),
    {
        let r = FlightTable { keys: Vec::new(), handles: Vec::new() };
        assert(r.view() =~= Seq::<(CacheKeyView, V)>::empty());
        r
    }

    /// The number of keys held.
    pub fn len(&self) -> (r: usize)
        requires
            self.wf(),
        ensures
            r == self.view().len(),
    {
        self.keys.len()
    }

    /// The slot of a key, if it is held.
    pub fn find(&self, key: &CacheKey) -> (r: Option<usize>)
        requires
            self.wf(),
        ensures
            r matches Some(i) ==> find_key(self.view(), key.view()) == Some(i as int),
            r is None ==> find_key(self.view(), key.view()) is None,
    {
        let ghost s = self.view();
        let mut i: usize = 0;
        assert(s.subrange(0, 0) =~= Seq::<(CacheKeyView, V)>::empty());
        while i < self.keys.len()
            invariant
                self.wf(),
                s == self.view(),
                0 <= i <= self.keys.len(),
                find_key(s.subrange(0, i as int), key.view()) is None,
            decreases self.keys.len() - i,
        {
            assert(s.subrange(0, i + 1).drop_last() =~= s.subrange(0, i as int));
            if self.keys[i].same(key) {
                proof { lemma_find_key_prefix(s, key.view(), i + 1); }
                return Some(i);
            }
            i = i + 1;
        }
        assert(s.subrange(0, i as int) =~= s);
        None
    }

    /// The handle held at a slot.
    pub fn handle(&self, slot: usize) -> (r: &V)
        requires
            self.wf(),
            slot < self.view().len(),
        ensures
            *r == self.view()[slot as int].1,
    {
        &self.handles[slot]
    }

    /// Asks for a key with the handle of a fetch that the caller would
    /// start: a new key keeps the handle and makes the caller the leader;
    /// a held key leaves the registry as it is and points at its handle.
    pub fn claim(&mut self, key: CacheKey, handle: V) -> (r: Claim)
        requires
            old(self).wf(),
        ensures
            final(self).wf(),
            (final(self).view(), r) == claim_spec(old(self).view(), key.view(), handle),
            r.slot() < final(self).view().len(),
    {
        proof { lemma_find_key_none(self.view(), key.view()); }
        match self.find(&key) {
            Some(i) => Claim::Follow(i),
            None => {
                let ghost old_view = self.view();
                let n = self.keys.len();
                self.keys.push(key);
                self.handles.push(handle);
                assert(self.view() =~= old_view.push((key.view(), handle)));
                assert forall|i: int, j: int|
                    0 <= i < j < self.keys@.len() implies self.keys@[i].view() != self.keys@[j].view() by {
                    if j == n {
                        assert(old_view[i].0 == self.keys@[i].view());
                    }
                }
                Claim::Lead(n)
            },
        }
    }
}

/// However many claims of one key follow each other, exactly one leads (the
/// first, when the registry did not hold the key; none, when it did), and
/// all of them point at the same slot, so that every caller shares one
/// fetch and sees its one outcome.
pub proof fn lemma_single_flight<V>(s: Seq<(CacheKeyView, V)>, k: CacheKeyView, keys: Seq<CacheKeyView>, handles: Seq<V>)
    requires
        s.len() < usize::MAX,
        keys.len() >= 1,
        handles.len() >= keys.len(),
        forall|i: int| 0 <= i < keys.len() ==> keys[i] == k,
    ensures
        ({
            let (t, cs) = claims_spec(s, keys, handles);
            &&& cs.len() == keys.len()
            &&& forall|i: int| 0 <= i < cs.len() ==> (#[trigger] cs[i]).slot() == cs[0].slot()
            &&& forall|i: int| 1 <= i < cs.len() ==> #[trigger] cs[i] is Follow
            &&& (cs[0] is Lead <==> find_key(s, k) is None)
            &&& find_key(t, k) == Some(cs[0].slot() as int)
        }),
    decreases keys.len(),
{
    lemma_find_key_none(s, k);
    let (t, cs) = claims_spec(s, keys.drop_last(), handles);
    let (u, c) = claim_spec(t, keys.last(), handles[keys.len() - 1]);
    assert(claims_spec(s, keys, handles) == (u, cs.push(c)));
    assert(keys.last() == k);
    if keys.len() == 1 {
        assert(t == s && cs.len() == 0);
        match find_key(s, k) {
            Some(i) => {
                assert(c == Claim::Follow(i as usize));
            },
            None => {
                let v = s.push((k, handles[0]));
                assert(v.drop_last() =~= s);
                assert(find_key(v, k) == Some(s.len() as int));
            },
        }
    } else {
        lemma_single_flight(s, k, keys.drop_last(), handles);
        assert(c == Claim::Follow(cs[0].slot()));
        assert(u == t);
        assert(cs.push(c)[0] == cs[0]);
    }
}

} // verus!
