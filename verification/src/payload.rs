//! The fact payload handed to the policy oracle.
//!
//! A payload is an ordered mapping from fact name to typed value, built
//! fresh per operation from a fixed vocabulary of keys the external rule
//! evaluator understands. Once handed over it is never mutated again.

use vstd::prelude::*;

use crate::address::Address;

verus! {

/// The fixed vocabulary of fact names.
#[derive(Clone, Copy, Debug, PartialEq, Eq, Structural)]
pub enum PayloadKey {
    /// The amount being moved.
    Amount,
    /// The account the operation is directed at.
    Target,
    /// The authority that initiated the operation.
    Authority,
    /// The current holder of the asset.
    Holder,
}

/// A typed fact value.
#[derive(Debug)]
pub enum PayloadValue {
    /// A plain number.
    Number(u64),
    /// A single address.
    Pubkey(Address),
    /// A list of addresses.
    PubkeyList(Vec<Address>),
}

/// The mathematical image of a [`PayloadValue`].
pub ghost enum PayloadValueView {
    Number(u64),
    Pubkey(Seq<u8>),
    PubkeyList(Seq<Seq<u8>>),
}

impl View for PayloadValue {
    type V = PayloadValueView;

    open spec fn view(&self) -> PayloadValueView {
        match self {
            PayloadValue::Number(n) => PayloadValueView::Number(*n),
            PayloadValue::Pubkey(a) => PayloadValueView::Pubkey(a@),
            PayloadValue::PubkeyList(l) => PayloadValueView::PubkeyList(
                l@.map(|i: int, a: Address| a@),
            ),
        }
    }
}

/// The fact sheet: an ordered mapping with one entry per fact name.
pub struct Payload {
    pub entries: Vec<(PayloadKey, PayloadValue)>,
}

/// The mapping read off an entry list, later entries overriding earlier.
pub open spec fn spec_entries_map(s: Seq<(PayloadKey, PayloadValueView)>) -> Map<
    PayloadKey,
    PayloadValueView,
>
    decreases s.len(),
{
    if s.len() == 0 {
        Map::empty()
    } else {
        spec_entries_map(s.drop_last()).insert(s.last().0, s.last().1)
    }
}

pub open spec fn spec_keys_unique(s: Seq<(PayloadKey, PayloadValueView)>) -> bool {
    forall|i: int, j: int| 0 <= i < j < s.len() ==> (#[trigger] s[i]).0 != (#[trigger] s[j]).0
}

impl View for Payload {
    type V = Seq<(PayloadKey, PayloadValueView)>;

    open spec fn view(&self) -> Seq<(PayloadKey, PayloadValueView)> {
        self.entries@.map(|i: int, e: (PayloadKey, PayloadValue)| (e.0, e.1@))
    }
}

impl Payload {
    /// Each fact name occurs at most once.
    pub open spec fn wf(&self) -> bool {
        spec_keys_unique(self@)
    }

    /// The mapping this payload presents to the oracle.
    pub open spec fn facts(&self) -> Map<PayloadKey, PayloadValueView> {
        spec_entries_map(self@)
    }

    /// An empty payload.
    pub fn new() -> (r: Payload)
        ensures
            r.wf(),
            r.facts() == Map::<PayloadKey, PayloadValueView>::empty(),
            r@.len() == 0,
    {
        Payload { entries: Vec::new() }
    }

    /// Sets the fact `key` to `value`, replacing any earlier value.
    pub fn insert(&mut self, key: PayloadKey, value: PayloadValue)
        requires
            old(self).wf(),
        ensures
            final(self).wf(),
            final(self).facts() == old(self).facts().insert(key, value@),
            final(self).facts().dom() == old(self).facts().dom().insert(key),
    {
        let ghost prev = self@;
        let mut i: usize = 0;
        let n = self.entries.len();
        while i < n
            invariant
                self@ == prev,
                old(self)@ == prev,
                spec_keys_unique(prev),
                n == self.entries@.len(),
                i <= n,
                forall|j: int| 0 <= j < i ==> (#[trigger] prev[j]).0 != key,
            decreases n - i,
        {
            if self.entries[i].0 == key {
                self.entries.set(i, (key, value));
                proof {
                    assert(self@ =~= prev.update(i as int, (key, value@)));
                    lemma_entries_map_update(prev, i as int, key, value@);
                    lemma_keys_unique_update(prev, i as int, key, value@);
                    assert(self.facts().dom() =~= spec_entries_map(prev).dom().insert(key));
                }
                return ;
            }
            i = i + 1;
        }
        self.entries.push((key, value));
        proof {
            assert(self@.drop_last() =~= prev);
            assert(self@.last() == (key, value@));
            assert(forall|j: int, l: int|
                0 <= j < l < self@.len() ==> (#[trigger] self@[j]).0 != (#[trigger] self@[l]).0)
                by {
                assert(forall|j: int| 0 <= j < prev.len() ==> (#[trigger] self@[j]) == prev[j]);
            }
            assert(self.facts().dom() =~= spec_entries_map(prev).dom().insert(key));
        }
    }

    /// Reads the fact `key`, if it was set.
    pub fn get(&self, key: PayloadKey) -> (r: Option<&PayloadValue>)
        requires
            self.wf(),
        ensures
            match r {
                Some(v) => self.facts().dom().contains(key) && v@ == self.facts()[key],
                None => !self.facts().dom().contains(key),
            },
    {
        let n = self.entries.len();
        let mut i: usize = 0;
        while i < n
            invariant
                self.wf(),
                n == self.entries@.len(),
                i <= n,
                forall|j: int| 0 <= j < i ==> (#[trigger] self@[j]).0 != key,
            decreases n - i,
        {
            proof {
                assert(self@[i as int] == (self.entries@[i as int].0, self.entries@[i as int].1@));
            }
            if self.entries[i].0 == key {
                proof {
                    lemma_entries_map_index(self@, i as int, key);
                }
                return Some(&self.entries[i].1);
            }
            i = i + 1;
        }
        proof {
            lemma_entries_map_absent(self@, key);
        }
        None
    }

    /// The number of facts set.
    pub fn len(&self) -> (r: usize)
        ensures
            r == self@.len(),
    {
        self.entries.len()
    }
}

/// A key that no entry holds is not in the mapping.
pub proof fn lemma_entries_map_absent(s: Seq<(PayloadKey, PayloadValueView)>, key: PayloadKey)
    requires
        forall|j: int| 0 <= j < s.len() ==> (#[trigger] s[j]).0 != key,
    ensures
        !spec_entries_map(s).dom().contains(key),
    decreases s.len(),
{
    if s.len() > 0 {
        lemma_entries_map_absent(s.drop_last(), key);
    }
}

/// With unique keys, the entry holding a key gives its mapping value.
pub proof fn lemma_entries_map_index(
    s: Seq<(PayloadKey, PayloadValueView)>,
    i: int,
    key: PayloadKey,
)
    requires
        spec_keys_unique(s),
        0 <= i < s.len(),
        s[i].0 == key,
    ensures
        spec_entries_map(s).dom().contains(key),
        spec_entries_map(s)[key] == s[i].1,
    decreases s.len(),
{
    if i == s.len() - 1 {
    } else {
        assert(spec_keys_unique(s.drop_last())) by {
            assert(forall|a: int, b: int|
                0 <= a < b < s.drop_last().len() ==> (#[trigger] s.drop_last()[a]).0
                    != (#[trigger] s.drop_last()[b]).0);
        }
        lemma_entries_map_index(s.drop_last(), i, key);
        assert(s.last().0 != key);
    }
}

/// Replacing the value at a key's entry inserts into the mapping.
pub proof fn lemma_entries_map_update(
    s: Seq<(PayloadKey, PayloadValueView)>,
    i: int,
    key: PayloadKey,
    v: PayloadValueView,
)
    requires
        spec_keys_unique(s),
        0 <= i < s.len(),
        s[i].0 == key,
    ensures
        spec_entries_map(s.update(i, (key, v))) == spec_entries_map(s).insert(key, v),
    decreases s.len(),
{
    let t = s.update(i, (key, v));
    if i == s.len() - 1 {
        assert(t.drop_last() =~= s.drop_last());
        assert(spec_entries_map(t) =~= spec_entries_map(s).insert(key, v));
    } else {
        assert(spec_keys_unique(s.drop_last())) by {
            assert(forall|a: int, b: int|
                0 <= a < b < s.drop_last().len() ==> (#[trigger] s.drop_last()[a]).0
                    != (#[trigger] s.drop_last()[b]).0);
        }
        lemma_entries_map_update(s.drop_last(), i, key, v);
        assert(t.drop_last() =~= s.drop_last().update(i, (key, v)));
        assert(t.last() == s.last());
        assert(s.last().0 != key);
        assert(spec_entries_map(t) =~= spec_entries_map(s).insert(key, v));
    }
}

/// Updating an entry in place keeps the keys unique.
pub proof fn lemma_keys_unique_update(
    s: Seq<(PayloadKey, PayloadValueView)>,
    i: int,
    key: PayloadKey,
    v: PayloadValueView,
)
    requires
        spec_keys_unique(s),
        0 <= i < s.len(),
        s[i].0 == key,
    ensures
        spec_keys_unique(s.update(i, (key, v))),
{
    let t = s.update(i, (key, v));
    assert(forall|a: int, b: int|
        0 <= a < b < t.len() ==> (#[trigger] t[a]).0 != (#[trigger] t[b]).0) by {
        assert(forall|a: int| 0 <= a < t.len() ==> (#[trigger] t[a]).0 == s[a].0);
    }
}

/// The facts a caller supplies ahead of time for rule evaluation.
pub struct AuthorizationData {
    pub payload: Payload,
}

impl AuthorizationData {
    /// Wraps caller-supplied facts.
    pub fn new(payload: Payload) -> (r: AuthorizationData)
        ensures
            r.payload@ == payload@,
    {
        AuthorizationData { payload }
    }

    /// Starts from no facts at all.
    pub fn new_empty() -> (r: AuthorizationData)
        ensures
            r.payload.wf(),
            r.payload.facts() == Map::<PayloadKey, PayloadValueView>::empty(),
            r.payload@.len() == 0,
    {
        AuthorizationData { payload: Payload::new() }
    }
}

} // verus!
