//! The correlation cache: results of completed sends, keyed by the request
//! id that the caller chose when it dispatched the send.
use vstd::prelude::*;

verus! {

/// The result of a completed send: the id the remote service gave the new
/// message and the content it stored.
pub struct CachedMessage {
    pub id: String,
    pub content: String,
}

impl View for CachedMessage {
    type V = (Seq<char>, Seq<char>);

    open spec fn view(&self) -> (Seq<char>, Seq<char>) {
        (self.id@, self.content@)
    }
}

/// The mapping that a list of entries stands for; a later entry for a key
/// stands over an earlier one.
pub open spec fn entries_map(s: Seq<(String, CachedMessage)>) -> Map<Seq<char>, (Seq<char>, Seq<char>)>
    decreases s.len(),
{
    if s.len() == 0 {
        Map::empty()
    } else {
        entries_map(s.drop_last()).insert(s.last().0@, s.last().1@)
    }
}

/// No two entries share a key.
pub open spec fn keys_unique(s: Seq<(String, CachedMessage)>) -> bool {
    forall|i: int, j: int| 0 <= i < j < s.len() ==> #[trigger] s[i].0@ != #[trigger] s[j].0@
}

proof fn lemma_entries_domain(s: Seq<(String, CachedMessage)>, k: Seq<char>)
    ensures
        entries_map(s).contains_key(k) <==> exists|i: int| 0 <= i < s.len() && #[trigger] s[i].0@ == k,
    decreases s.len(),
{
    if s.len() > 0 {
        lemma_entries_domain(s.drop_last(), k);
        if entries_map(s.drop_last()).contains_key(k) {
            let i = choose|i: int| 0 <= i < s.drop_last().len() && #[trigger] s.drop_last()[i].0@ == k;
            assert(s[i].0@ == k);
        }
        if exists|i: int| 0 <= i < s.len() && #[trigger] s[i].0@ == k {
            let i = choose|i: int| 0 <= i < s.len() && #[trigger] s[i].0@ == k;
            if i < s.len() - 1 {
                assert(s.drop_last()[i].0@ == k);
            }
        }
    }
}

proof fn lemma_entries_value(s: Seq<(String, CachedMessage)>, i: int)
    requires
        keys_unique(s),
        0 <= i < s.len(),
    ensures
        entries_map(s).contains_key(s[i].0@),
        entries_map(s)[s[i].0@] == s[i].1@,
    decreases s.len(),
{
    if i < s.len() - 1 {
        assert(keys_unique(s.drop_last()));
        lemma_entries_value(s.drop_last(), i);
        assert(s.drop_last()[i] == s[i]);
        assert(s[i].0@ != s[s.len() - 1].0@);
    }
}

/// Thread-agnostic store of send results by request id. A request id maps to
/// at most one result; a later put for the same id replaces the earlier one.
pub struct CorrelationCache {
    entries: Vec<(String, CachedMessage)>,
}

impl View for CorrelationCache {
    type V = Map<Seq<char>, (Seq<char>, Seq<char>)>;

    closed spec fn view(&self) -> Map<Seq<char>, (Seq<char>, Seq<char>)> {
        entries_map(self.entries@)
    }
}

impl CorrelationCache {
    /// Each request id is held by one entry at most.
    pub closed spec fn wf(&self) -> bool {
        keys_unique(self.entries@)
    }

    /// An empty cache.
    pub fn new() -> (r: CorrelationCache)
        ensures
            r.wf(),
            r@ == Map::<Seq<char>, (Seq<char>, Seq<char>)>::empty(),
    {
        CorrelationCache { entries: Vec::new() }
    }

    /// Number of request ids that hold a result.
    pub fn len(&self) -> (r: usize)
        requires
            self.wf(),
        ensures
            r == self@.len(),
    {
        proof {
            self.lemma_len();
        }
        self.entries.len()
    }

    proof fn lemma_len(&self)
        requires
            self.wf(),
        ensures
            self@.len() == self.entries@.len(),
    {
        let s = self.entries@;
        let keys = Set::new(|i: int| 0 <= i < s.len()).map(|i: int| s[i].0@);
        assert forall|k: Seq<char>| #[trigger] self@.contains_key(k) <==> keys.contains(k) by {
            lemma_entries_domain(s, k);
            if self@.contains_key(k) {
                let i = choose|i: int| 0 <= i < s.len() && #[trigger] s[i].0@ == k;
                assert(Set::new(|i: int| 0 <= i < s.len()).contains(i));
            }
        }
        assert(self@.dom() =~= keys);
        let idx = Set::new(|i: int| 0 <= i < s.len());
        assert(idx =~= vstd::set_lib::set_int_range(0, s.len() as int));
        vstd::set_lib::lemma_int_range(0, s.len() as int);
        assert forall|i: int, j: int| idx.contains(i) && idx.contains(j) && s[i].0@ == s[j].0@ implies i == j by {
            if i < j {
                assert(s[i].0@ != s[j].0@);
            } else if j < i {
                assert(s[j].0@ != s[i].0@);
            }
        }
        vstd::set_lib::lemma_map_size(idx, keys, |i: int| s[i].0@);
    }

    /// Records `result` under `request_id`, replacing any earlier result.
    pub fn put(&mut self, request_id: String, result: CachedMessage)
        requires
            old(self).wf(),
        ensures
            final(self).wf(),
            final(self)@ == old(self)@.insert(request_id@, result@),
    {
        let ghost s0 = self.entries@;
        let n = self.entries.len();
        let mut i: usize = 0;
        while i < n
            invariant
                n == self.entries@.len(),
                self.entries@ == s0,
                old(self).entries@ == s0,
                keys_unique(s0),
                i <= n,
                forall|j: int| 0 <= j < i ==> #[trigger] s0[j].0@ != request_id@,
            decreases n - i,
        {
            if self.entries[i].0 == request_id {
                self.entries.set(i, (request_id, result));
                proof {
                    let s1 = self.entries@;
                    assert(keys_unique(s1)) by {
                        assert forall|a: int, b: int| 0 <= a < b < s1.len() implies #[trigger] s1[a].0@
                            != #[trigger] s1[b].0@ by {
                            assert(s0[a].0@ != s0[b].0@);
                        }
                    }
                    assert forall|k: Seq<char>| #[trigger] entries_map(s1).contains_key(k)
                        == entries_map(s0).insert(request_id@, result@).contains_key(k) by {
                        lemma_entries_domain(s0, k);
                        lemma_entries_domain(s1, k);
                        if exists|j: int| 0 <= j < s0.len() && #[trigger] s0[j].0@ == k {
                            let j = choose|j: int| 0 <= j < s0.len() && #[trigger] s0[j].0@ == k;
                            assert(s1[j].0@ == k);
                        }
                        if exists|j: int| 0 <= j < s1.len() && #[trigger] s1[j].0@ == k {
                            let j = choose|j: int| 0 <= j < s1.len() && #[trigger] s1[j].0@ == k;
                            assert(s0[j].0@ == k);
                        }
                    }
                    assert forall|k: Seq<char>| #[trigger] entries_map(s1).contains_key(k)
                        implies entries_map(s1)[k] == entries_map(s0).insert(request_id@, result@)[k] by {
                        lemma_entries_domain(s1, k);
                        let j = choose|j: int| 0 <= j < s1.len() && #[trigger] s1[j].0@ == k;
                        lemma_entries_value(s1, j);
                        lemma_entries_value(s0, j);
                    }
                    assert(entries_map(s1) =~= entries_map(s0).insert(request_id@, result@));
                }
                return;
            }
            i = i + 1;
        }
        self.entries.push((request_id, result));
        proof {
            let s1 = self.entries@;
            assert(s1.drop_last() =~= s0);
            assert(keys_unique(s1)) by {
                assert forall|a: int, b: int| 0 <= a < b < s1.len() implies #[trigger] s1[a].0@
                    != #[trigger] s1[b].0@ by {
                    if b < s0.len() {
                        assert(s0[a].0@ != s0[b].0@);
                    } else {
                        assert(s1[a] == s0[a]);
                    }
                }
            }
        }
    }

    /// The result recorded under `request_id`, if any; the cache is left as
    /// it was.
    pub fn get(&self, request_id: &str) -> (r: Option<CachedMessage>)
        requires
            self.wf(),
        ensures
            match r {
                Some(m) => self@.contains_key(request_id@) && self@[request_id@] == m@,
                None => !self@.contains_key(request_id@),
            },
    {
        let ghost s = self.entries@;
        let key = request_id.to_string();
        let n = self.entries.len();
        let mut i: usize = 0;
        while i < n
            invariant
                key@ == request_id@,
                keys_unique(s),
                n == s.len(),
                s == self.entries@,
                i <= n,
                forall|j: int| 0 <= j < i ==> #[trigger] s[j].0@ != request_id@,
            decreases n - i,
        {
            let entry = &self.entries[i];
            if entry.0 == key {
                proof {
                    lemma_entries_value(s, i as int);
                }
                return Some(CachedMessage { id: entry.1.id.clone(), content: entry.1.content.clone() });
            }
            i = i + 1;
        }
        proof {
            lemma_entries_domain(s, request_id@);
        }
        None
    }

    /// Forgets every recorded result.
    pub fn clear(&mut self)
        ensures
            final(self).wf(),
            final(self)@ == Map::<Seq<char>, (Seq<char>, Seq<char>)>::empty(),
    {
        self.entries = Vec::new();
    }
}

/// Last writer wins: after two puts under one request id, a lookup of that
/// id finds the second result.
pub proof fn lemma_last_put_wins(
    m: Map<Seq<char>, (Seq<char>, Seq<char>)>,
    id: Seq<char>,
    r1: (Seq<char>, Seq<char>),
    r2: (Seq<char>, Seq<char>),
)
    ensures
        m.insert(id, r1).insert(id, r2).contains_key(id),
        m.insert(id, r1).insert(id, r2)[id] == r2,
{
}

/// After a clear, a lookup of any request id, present before or not, finds
/// nothing.
pub proof fn lemma_clear_forgets(m: Map<Seq<char>, (Seq<char>, Seq<char>)>, id: Seq<char>)
    ensures
        !Map::<Seq<char>, (Seq<char>, Seq<char>)>::empty().contains_key(id),
{
}

} // verus!
