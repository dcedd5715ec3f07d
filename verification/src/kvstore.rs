use vstd::prelude::*;

verus! {

/// A stored record: an opaque value keyed by a string in the store.
#[derive(Debug, Clone)]
pub struct KvElement {
    data: String,
}

impl View for KvElement {
    type V = Seq<char>;

    closed spec fn view(&self) -> Seq<char> {
        self.data@
    }
}

/// chashmap's concurrent hash table, the store's internally synchronized
/// container (per-bucket locking, so writers to distinct keys do not
/// serialize each other).
#[verifier::external_type_specification]
#[verifier::external_body]
#[verifier::reject_recursive_types(K)]
#[verifier::reject_recursive_types(V)]
pub struct ExCHashMap<K, V>(chashmap::CHashMap<K, V>);

/// The key-value pairs a container currently holds, as a map of plain values.
pub uninterp spec fn chm_contents(m: chashmap::CHashMap<String, KvElement>) -> Map<
    Seq<char>,
    Seq<char>,
>;

/// Relies on chashmap::CHashMap::new: a freshly created table holds nothing.
#[verifier::external_body]
fn chm_new() -> (m: chashmap::CHashMap<String, KvElement>)
    ensures
        chm_contents(m).dom() == Set::<Seq<char>>::empty(),
{
    chashmap::CHashMap::new()
}

/// Relies on chashmap::CHashMap::insert: replaces an existing entry for
/// the key or creates a fresh one; nothing else changes.
#[verifier::external_body]
fn chm_insert(m: &mut chashmap::CHashMap<String, KvElement>, key: String, value: KvElement)
    ensures
        chm_contents(*final(m)) == chm_contents(*old(m)).insert(key@, value@),
{
    m.insert(key, value);
}

/// Relies on chashmap::CHashMap::get: returns the value stored under the
/// key, or nothing when the key is absent.
#[verifier::external_body]
fn chm_get(m: &chashmap::CHashMap<String, KvElement>, key: &String) -> (r: Option<String>)
    ensures
        match r {
            Some(v) => chm_contents(*m).contains_key(key@) && v@ == chm_contents(*m)[key@],
            None => !chm_contents(*m).contains_key(key@),
        },
{
    match m.get(key) {
        Some(guard) => Some(guard.data.clone()),
        None => None,
    }
}

/// Relies on chashmap::CHashMap::remove: takes the entry for the key out;
/// removing an absent key changes nothing.
#[verifier::external_body]
fn chm_remove(m: &mut chashmap::CHashMap<String, KvElement>, key: &String)
    ensures
        chm_contents(*final(m)) == chm_contents(*old(m)).remove(key@),
{
    m.remove(key);
}

/// The mapping a batch of entries writes, applied first to last: a key
/// given twice keeps the value seen last.
pub open spec fn batch_map(entries: Seq<(String, String)>) -> Map<Seq<char>, Seq<char>>
    decreases entries.len(),
{
    if entries.len() == 0 {
        Map::empty()
    } else {
        batch_map(entries.drop_last()).insert(entries.last().0@, entries.last().1@)
    }
}

/// The in-memory key-value store: a mapping from key to record, keys
/// unique, a write to an existing key overwriting the prior value.
pub struct KvStore {
    container: chashmap::CHashMap<String, KvElement>,
}

impl View for KvStore {
    type V = Map<Seq<char>, Seq<char>>;

    closed spec fn view(&self) -> Map<Seq<char>, Seq<char>> {
        chm_contents(self.container)
    }
}

impl KvStore {
    /// An empty store.
    pub fn new() -> (s: KvStore)
        ensures
            s@ == Map::<Seq<char>, Seq<char>>::empty(),
    {
        KvStore { container: chm_new() }
    }

    /// Upserts every pair of the batch; for a key given twice the value
    /// seen last wins, and keys outside the batch keep their records.
    pub fn set(&mut self, data: Vec<(String, String)>)
        ensures
            final(self)@ == old(self)@.union_prefer_right(batch_map(data@)),
    {
        let mut i: usize = 0;
        while i < data.len()
            invariant
                i <= data.len(),
                self@ == old(self)@.union_prefer_right(batch_map(data@.take(i as int))),
            decreases data.len() - i,
        {
            let key = data[i].0.clone();
            let value = data[i].1.clone();
            chm_insert(&mut self.container, key, KvElement { data: value });
            proof {
                assert(data@.take(i + 1 as int).drop_last() =~= data@.take(i as int));
                assert(data@.take(i + 1 as int).last() == data@[i as int]);
                assert(old(self)@.union_prefer_right(batch_map(data@.take(i as int))).insert(
                    data@[i as int].0@,
                    data@[i as int].1@,
                ) =~= old(self)@.union_prefer_right(batch_map(data@.take(i + 1 as int))));
            }
            i += 1;
        }
        proof {
            assert(data@.take(data.len() as int) =~= data@);
        }
    }

    /// Returns the current record for the key, or signals absence.
    pub fn get(&self, key: String) -> (r: Option<String>)
        ensures
            self@.contains_key(key@) ==> (r matches Some(v) && v@ == self@[key@]),
            !self@.contains_key(key@) ==> r is None,
    {
        chm_get(&self.container, &key)
    }

    /// Removes the key if present; removing an absent key is a no-op.
    pub fn drop(&mut self, key: String)
        ensures
            final(self)@ == old(self)@.remove(key@),
    {
        chm_remove(&mut self.container, &key);
    }
}

/// After a batch write, every key of the batch reads back as the value the
/// batch gave it; in particular, after writing the one pair (k, v) the key
/// k reads back as v.
pub proof fn lemma_set_then_get(m: Map<Seq<char>, Seq<char>>, k: String, v: String)
    ensures
        m.union_prefer_right(batch_map(seq![(k, v)])).contains_key(k@),
        m.union_prefer_right(batch_map(seq![(k, v)]))[k@] == v@,
{
    assert(batch_map(seq![(k, v)]).contains_key(k@));
}

/// A key that no write of the batch touches, and that the store did not
/// hold before, is still absent after the batch is applied.
pub proof fn lemma_absent_key(
    m: Map<Seq<char>, Seq<char>>,
    entries: Seq<(String, String)>,
    k: Seq<char>,
)
    requires
        !m.contains_key(k),
        !batch_map(entries).contains_key(k),
    ensures
        !m.union_prefer_right(batch_map(entries)).contains_key(k),
{
}

/// A key that no write of the batch touches keeps its prior record.
pub proof fn lemma_untouched_key(
    m: Map<Seq<char>, Seq<char>>,
    entries: Seq<(String, String)>,
    k: Seq<char>,
)
    requires
        m.contains_key(k),
        !batch_map(entries).contains_key(k),
    ensures
        m.union_prefer_right(batch_map(entries)).contains_key(k),
        m.union_prefer_right(batch_map(entries))[k] == m[k],
{
}

/// After a key is removed, it reads back as absent, whatever record it
/// held before.
pub proof fn lemma_remove_then_get(m: Map<Seq<char>, Seq<char>>, k: Seq<char>)
    ensures
        !m.remove(k).contains_key(k),
{
}

/// Writing the same batch twice leaves the same store as writing it once.
pub proof fn lemma_set_idempotent(m: Map<Seq<char>, Seq<char>>, entries: Seq<(String, String)>)
    ensures
        m.union_prefer_right(batch_map(entries)).union_prefer_right(batch_map(entries))
            == m.union_prefer_right(batch_map(entries)),
{
    assert(m.union_prefer_right(batch_map(entries)).union_prefer_right(batch_map(entries))
        =~= m.union_prefer_right(batch_map(entries)));
}

/// Two batches over disjoint key sets both persist, whichever of the two
/// writers lands first, and the final store does not depend on the order.
pub proof fn lemma_disjoint_sets_commute(
    m: Map<Seq<char>, Seq<char>>,
    e1: Seq<(String, String)>,
    e2: Seq<(String, String)>,
)
    requires
        batch_map(e1).dom().disjoint(batch_map(e2).dom()),
    ensures
        m.union_prefer_right(batch_map(e1)).union_prefer_right(batch_map(e2))
            == m.union_prefer_right(batch_map(e2)).union_prefer_right(batch_map(e1)),
        forall|k: Seq<char>| #[trigger] batch_map(e1).contains_key(k)
            ==> m.union_prefer_right(batch_map(e1)).union_prefer_right(
                batch_map(e2),
            ).contains_key(k) && m.union_prefer_right(batch_map(e1)).union_prefer_right(
                batch_map(e2),
            )[k] == batch_map(e1)[k],
        forall|k: Seq<char>| #[trigger] batch_map(e2).contains_key(k)
            ==> m.union_prefer_right(batch_map(e1)).union_prefer_right(
                batch_map(e2),
            ).contains_key(k) && m.union_prefer_right(batch_map(e1)).union_prefer_right(
                batch_map(e2),
            )[k] == batch_map(e2)[k],
{
    assert(m.union_prefer_right(batch_map(e1)).union_prefer_right(batch_map(e2))
        =~= m.union_prefer_right(batch_map(e2)).union_prefer_right(batch_map(e1)));
}

} // verus!
