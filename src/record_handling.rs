use vstd::prelude::*;

verus! {

/// A calendar day in UTC.
#[derive(Clone, Copy, Debug, PartialEq, Eq, Hash, Structural)]
pub struct Day {
    pub year: i32,
    pub month: u32,
    pub day: u32,
}

/// An aggregation key as specifications see it: (day, client IPv4 address, system name).
pub type KeyView = (Day, u32, Seq<char>);

/// The key under which records are counted.
#[derive(Debug, Hash)]
pub struct AggregateELBRecord {
    pub day: Day,
    /// The client's IPv4 address, most significant octet first.
    pub client_address: u32,
    pub system_name: String,
}

impl View for AggregateELBRecord {
    type V = KeyView;

    open spec fn view(&self) -> KeyView {
        (self.day, self.client_address, self.system_name@)
    }
}

impl AggregateELBRecord {
    pub fn new(day: Day, client_address: u32, system_name: String) -> (r: AggregateELBRecord)
        ensures
            r@ == (day, client_address, system_name@),
    {
        AggregateELBRecord { day, client_address, system_name }
    }

    /// Component-wise comparison of two keys.
    pub fn same_key(&self, other: &AggregateELBRecord) -> (r: bool)
        ensures
            r == (self@ == other@),
    {
        self.day == other.day && self.client_address == other.client_address
            && self.system_name == other.system_name
    }
}

impl Clone for AggregateELBRecord {
    fn clone(&self) -> (r: AggregateELBRecord)
        ensures
            r == *self,
    {
        AggregateELBRecord {
            day: self.day,
            client_address: self.client_address,
            system_name: self.system_name.clone(),
        }
    }
}

impl PartialEq for AggregateELBRecord {
    fn eq(&self, other: &AggregateELBRecord) -> (r: bool) {
        self.same_key(other)
    }
}

impl vstd::std_specs::cmp::PartialEqSpecImpl for AggregateELBRecord {
    open spec fn obeys_eq_spec() -> bool {
        true
    }

    open spec fn eq_spec(&self, other: &AggregateELBRecord) -> bool {
        self@ == other@
    }
}

impl Eq for AggregateELBRecord {
}

/// The count of `k` in an aggregate; zero where the key is absent.
pub open spec fn count(m: Map<KeyView, int>, k: KeyView) -> int {
    if m.contains_key(k) {
        m[k]
    } else {
        0
    }
}

/// The aggregate that holds every key of `a` or `b`, with the two counts summed.
pub open spec fn merged(a: Map<KeyView, int>, b: Map<KeyView, int>) -> Map<KeyView, int> {
    Map::new(|k: KeyView| a.contains_key(k) || b.contains_key(k), |k: KeyView| count(a, k) + count(b, k))
}

/// Whether every summed count of `merged(a, b)` fits in an `i64`.
pub open spec fn merge_fits(a: Map<KeyView, int>, b: Map<KeyView, int>) -> bool {
    forall|k: KeyView| count(a, k) + count(b, k) <= i64::MAX
}

/// Whether every count in `m` is below the largest `i64`.
pub open spec fn below_max(m: Map<KeyView, int>) -> bool {
    forall|k: KeyView| #[trigger] m.contains_key(k) ==> m[k] < i64::MAX
}

/// The aggregate that a list of (key, count) entries stands for.
pub open spec fn entries_map(s: Seq<(AggregateELBRecord, i64)>) -> Map<KeyView, int>
    decreases s.len(),
{
    if s.len() == 0 {
        Map::empty()
    } else {
        entries_map(s.drop_last()).insert(s.last().0@, s.last().1 as int)
    }
}

/// No key occurs twice among the entries.
pub open spec fn keys_unique(s: Seq<(AggregateELBRecord, i64)>) -> bool {
    forall|i: int, j: int| 0 <= i < j < s.len() ==> s[i].0@ != s[j].0@
}

proof fn lemma_entries_map_contains(s: Seq<(AggregateELBRecord, i64)>, k: KeyView)
    ensures
        entries_map(s).contains_key(k) <==> exists|j: int| 0 <= j < s.len() && s[j].0@ == k,
    decreases s.len(),
{
    if s.len() > 0 {
        lemma_entries_map_contains(s.drop_last(), k);
        if entries_map(s).contains_key(k) && s.last().0@ != k {
            let j = choose|j: int| 0 <= j < s.drop_last().len() && s.drop_last()[j].0@ == k;
            assert(s[j].0@ == k);
        }
        if exists|j: int| 0 <= j < s.len() && s[j].0@ == k {
            let j = choose|j: int| 0 <= j < s.len() && s[j].0@ == k;
            if j < s.len() - 1 {
                assert(s.drop_last()[j].0@ == k);
            }
        }
    }
}

proof fn lemma_entries_map_value(s: Seq<(AggregateELBRecord, i64)>, j: int)
    requires
        keys_unique(s),
        0 <= j < s.len(),
    ensures
        entries_map(s).contains_key(s[j].0@),
        entries_map(s)[s[j].0@] == s[j].1 as int,
    decreases s.len(),
{
    if j < s.len() - 1 {
        lemma_entries_map_value(s.drop_last(), j);
        assert(s.drop_last()[j] == s[j]);
    }
}

proof fn lemma_entries_map_update(
    s: Seq<(AggregateELBRecord, i64)>,
    i: int,
    e: (AggregateELBRecord, i64),
)
    requires
        keys_unique(s),
        0 <= i < s.len(),
        e.0@ == s[i].0@,
    ensures
        entries_map(s.update(i, e)) == entries_map(s).insert(e.0@, e.1 as int),
    decreases s.len(),
{
    let t = s.update(i, e);
    if i == s.len() - 1 {
        assert(t.drop_last() =~= s.drop_last());
        assert(entries_map(t) =~= entries_map(s).insert(e.0@, e.1 as int));
    } else {
        assert(t.drop_last() =~= s.drop_last().update(i, e));
        lemma_entries_map_update(s.drop_last(), i, e);
        assert(s.last().0@ != e.0@);
        assert(entries_map(t) =~= entries_map(s).insert(e.0@, e.1 as int));
    }
}

proof fn lemma_entries_map_len(s: Seq<(AggregateELBRecord, i64)>)
    requires
        keys_unique(s),
    ensures
        entries_map(s).dom().finite(),
        entries_map(s).dom().len() == s.len(),
    decreases s.len(),
{
    if s.len() > 0 {
        lemma_entries_map_len(s.drop_last());
        lemma_entries_map_contains(s.drop_last(), s.last().0@);
        assert(!entries_map(s.drop_last()).contains_key(s.last().0@));
    }
}

/// The index of the entry whose key equals `key`, if there is one.
fn position(entries: &Vec<(AggregateELBRecord, i64)>, key: &AggregateELBRecord) -> (r: Option<usize>)
    ensures
        r matches Some(i) ==> i < entries@.len() && entries@[i as int].0@ == key@,
        r is None ==> forall|j: int| 0 <= j < entries@.len() ==> entries@[j].0@ != key@,
{
    let mut i: usize = 0;
    while i < entries.len()
        invariant
            0 <= i <= entries@.len(),
            forall|j: int| 0 <= j < i ==> entries@[j].0@ != key@,
        decreases entries@.len() - i,
    {
        if entries[i].0.same_key(key) {
            return Some(i);
        }
        i += 1;
    }
    None
}

/// A mapping from keys to counts, each count at least one.
#[derive(Debug)]
pub struct ELBRecordAggregation {
    entries: Vec<(AggregateELBRecord, i64)>,
}

impl View for ELBRecordAggregation {
    type V = Map<KeyView, int>;

    closed spec fn view(&self) -> Map<KeyView, int> {
        entries_map(self.entries@)
    }
}

impl ELBRecordAggregation {
    #[verifier::type_invariant]
    closed spec fn wf(self) -> bool {
        &&& keys_unique(self.entries@)
        &&& forall|i: int| 0 <= i < self.entries@.len() ==> self.entries@[i].1 > 0
    }

    pub fn new() -> (r: ELBRecordAggregation)
        ensures
            r@ == Map::<KeyView, int>::empty(),
    {
        ELBRecordAggregation { entries: Vec::new() }
    }

    /// The number of distinct keys.
    pub fn len(&self) -> (r: usize)
        ensures
            r == self@.dom().len(),
    {
        proof {
            use_type_invariant(self);
            lemma_entries_map_len(self.entries@);
        }
        self.entries.len()
    }

    pub fn is_empty(&self) -> (r: bool)
        ensures
            r == (self@.dom().len() == 0),
    {
        self.len() == 0
    }

    /// The entries as (key, count) pairs, one for each key.
    pub fn entries(&self) -> (r: &Vec<(AggregateELBRecord, i64)>)
        ensures
            entries_map(r@) == self@,
            keys_unique(r@),
            forall|i: int| 0 <= i < r@.len() ==> r@[i].1 > 0,
    {
        proof {
            use_type_invariant(self);
        }
        &self.entries
    }

    /// The count of `key`, if it is present.
    pub fn get(&self, key: &AggregateELBRecord) -> (r: Option<i64>)
        ensures
            r is None <==> !self@.contains_key(key@),
            r matches Some(c) ==> self@[key@] == c,
    {
        proof {
            use_type_invariant(self);
            lemma_entries_map_contains(self.entries@, key@);
        }
        match position(&self.entries, key) {
            Some(i) => {
                proof {
                    lemma_entries_map_value(self.entries@, i as int);
                }
                Some(self.entries[i].1)
            },
            None => None,
        }
    }

    /// Adds `n` to the count of `key`, inserting the key if it is absent.
    pub fn add_count(&mut self, key: AggregateELBRecord, n: i64)
        requires
            n > 0,
            count(old(self)@, key@) + n <= i64::MAX,
        ensures
            final(self)@ == old(self)@.insert(key@, count(old(self)@, key@) + n),
    {
        proof {
            use_type_invariant(&*self);
            lemma_entries_map_contains(self.entries@, key@);
        }
        let mut entries: Vec<(AggregateELBRecord, i64)> = Vec::new();
        std::mem::swap(&mut self.entries, &mut entries);
        let ghost s = entries@;
        match position(&entries, &key) {
            Some(i) => {
                proof {
                    lemma_entries_map_value(s, i as int);
                }
                let c = entries[i].1;
                entries.set(i, (key, c + n));
                proof {
                    lemma_entries_map_update(s, i as int, entries@[i as int]);
                    assert(entries@ == s.update(i as int, entries@[i as int]));
                }
            },
            None => {
                entries.push((key, n));
                proof {
                    assert(entries@.drop_last() =~= s);
                }
            },
        }
        std::mem::swap(&mut self.entries, &mut entries);
    }

    /// Counts one more occurrence of `key`.
    pub fn add(&mut self, key: AggregateELBRecord)
        requires
            count(old(self)@, key@) < i64::MAX,
        ensures
            final(self)@ == old(self)@.insert(key@, count(old(self)@, key@) + 1),
    {
        self.add_count(key, 1);
    }

    /// Adds every count of `src` to this aggregate.
    pub fn merge_from(&mut self, src: &ELBRecordAggregation)
        requires
            merge_fits(old(self)@, src@),
        ensures
            final(self)@ == merged(old(self)@, src@),
    {
        proof {
            use_type_invariant(src);
        }
        let ghost d0 = self@;
        let n = src.entries.len();
        let mut i: usize = 0;
        while i < n
            invariant
                n == src.entries@.len(),
                0 <= i <= n,
                keys_unique(src.entries@),
                forall|j: int| 0 <= j < n ==> src.entries@[j].1 > 0,
                src@ == entries_map(src.entries@),
                merge_fits(d0, src@),
                self@ == merged(d0, entries_map(src.entries@.take(i as int))),
            decreases n - i,
        {
            let ghost pre = src.entries@.take(i as int);
            let ghost k = src.entries@[i as int].0@;
            proof {
                lemma_entries_map_contains(pre, k);
                lemma_entries_map_value(src.entries@, i as int);
                assert(!entries_map(pre).contains_key(k));
                assert(count(d0, k) + count(src@, k) <= i64::MAX);
            }
            let key = src.entries[i].0.clone();
            let v = src.entries[i].1;
            self.add_count(key, v);
            proof {
                let post = src.entries@.take(i + 1);
                assert(post.drop_last() =~= pre);
                assert(self@ =~= merged(d0, entries_map(post)));
            }
            i += 1;
        }
        proof {
            assert(src.entries@.take(n as int) =~= src.entries@);
        }
    }

    /// Whether merging `src` into this aggregate keeps every count within an `i64`.
    pub fn can_merge(&self, src: &ELBRecordAggregation) -> (r: bool)
        ensures
            r == merge_fits(self@, src@),
    {
        proof {
            use_type_invariant(self);
            use_type_invariant(src);
        }
        let n = src.entries.len();
        let mut i: usize = 0;
        while i < n
            invariant
                n == src.entries@.len(),
                0 <= i <= n,
                keys_unique(src.entries@),
                forall|j: int| 0 <= j < n ==> src.entries@[j].1 > 0,
                src@ == entries_map(src.entries@),
                forall|j: int|
                    0 <= j < i ==> count(self@, #[trigger] src.entries@[j].0@) + src.entries@[j].1
                        <= i64::MAX,
            decreases n - i,
        {
            let c = match self.get(&src.entries[i].0) {
                Some(c) => c,
                None => 0,
            };
            if c > i64::MAX - src.entries[i].1 {
                proof {
                    lemma_entries_map_value(src.entries@, i as int);
                }
                return false;
            }
            i += 1;
        }
        proof {
            assert forall|k: KeyView| count(self@, k) + count(src@, k) <= i64::MAX by {
                lemma_entries_map_contains(src.entries@, k);
                lemma_entries_map_contains(self.entries@, k);
                if src@.contains_key(k) {
                    let j = choose|j: int| 0 <= j < src.entries@.len() && src.entries@[j].0@ == k;
                    lemma_entries_map_value(src.entries@, j);
                    assert(count(self@, src.entries@[j].0@) + src.entries@[j].1 <= i64::MAX);
                } else if self@.contains_key(k) {
                    let j = choose|j: int| 0 <= j < self.entries@.len() && self.entries@[j].0@ == k;
                    lemma_entries_map_value(self.entries@, j);
                }
            }
        }
        true
    }
}

/// Adds every count of `src_aggs` into `dst_aggs`.
pub fn merge_aggregates(src_aggs: &ELBRecordAggregation, dst_aggs: &mut ELBRecordAggregation)
    requires
        merge_fits(old(dst_aggs)@, src_aggs@),
    ensures
        final(dst_aggs)@ == merged(old(dst_aggs)@, src_aggs@),
{
    dst_aggs.merge_from(src_aggs);
}

/// Counts one more occurrence of `aggregate_record` in `dst_aggs`.
pub fn aggregate_record(aggregate_record: AggregateELBRecord, dst_aggs: &mut ELBRecordAggregation)
    requires
        count(old(dst_aggs)@, aggregate_record@) < i64::MAX,
    ensures
        final(dst_aggs)@ == old(dst_aggs)@.insert(
            aggregate_record@,
            count(old(dst_aggs)@, aggregate_record@) + 1,
        ),
{
    dst_aggs.add(aggregate_record);
}

} // verus!
