use lru::LruCache;
use vstd::prelude::*;

verus! {

#[verifier::external_type_specification]
#[verifier::external_body]
#[verifier::reject_recursive_types(K)]
#[verifier::reject_recursive_types(V)]
#[verifier::reject_recursive_types(S)]
pub struct ExLruCache<K, V, S>(LruCache<K, V, S>);

/// What an LRU cache holds: pairs of identifier and instance number, the most
/// recently used first.
pub uninterp spec fn lru_entries(c: LruCache<u128, u64>) -> Seq<(u128, u64)>;

/// The capacity that an LRU cache was made with.
pub uninterp spec fn lru_cap(c: LruCache<u128, u64>) -> nat;

/// Whether `id` is among the keys of `entries`.
pub open spec fn has_key(entries: Seq<(u128, u64)>, id: u128) -> bool {
    exists|i: int| 0 <= i < entries.len() && (#[trigger] entries[i]).0 == id
}

/// Relies on lru::LruCache::new: an empty cache holding at most `cap` entries.
#[verifier::external_body]
fn lru_new(cap: usize) -> (r: LruCache<u128, u64>)
    requires
        cap > 0,
    ensures
        lru_entries(r) == Seq::<(u128, u64)>::empty(),
        lru_cap(r) == cap as nat,
{
    LruCache::new(std::num::NonZeroUsize::new(cap).unwrap())
}

/// Relies on lru::LruCache::get: the value of a present key, which moves to
/// the front; nothing changes for an absent key.
#[verifier::external_body]
fn lru_get(c: &mut LruCache<u128, u64>, k: u128) -> (r: Option<u64>)
    ensures
        lru_cap(*final(c)) == lru_cap(*old(c)),
        r is None <==> !has_key(lru_entries(*old(c)), k),
        r is None ==> lru_entries(*final(c)) == lru_entries(*old(c)),
        r matches Some(v) ==> exists|i: int|
            0 <= i < lru_entries(*old(c)).len() && #[trigger] lru_entries(*old(c))[i] == (k, v)
                && lru_entries(*final(c)) == seq![(k, v)] + lru_entries(*old(c)).remove(i),
{
    c.get(&k).copied()
}

/// Relies on lru::LruCache::push for an absent key: the new entry goes to the
/// front and, where the cache was full, the least recently used entry is
/// removed and returned.
#[verifier::external_body]
fn lru_push(c: &mut LruCache<u128, u64>, k: u128, v: u64) -> (r: Option<(u128, u64)>)
    requires
        !has_key(lru_entries(*old(c)), k),
        lru_entries(*old(c)).len() <= lru_cap(*old(c)),
    ensures
        lru_cap(*final(c)) == lru_cap(*old(c)),
        lru_entries(*old(c)).len() < lru_cap(*old(c)) ==> r is None && lru_entries(*final(c))
            == seq![(k, v)] + lru_entries(*old(c)),
        lru_entries(*old(c)).len() == lru_cap(*old(c)) ==> r == Some(lru_entries(*old(c)).last())
            && lru_entries(*final(c)) == seq![(k, v)] + lru_entries(*old(c)).drop_last(),
{
    c.push(k, v)
}

/// The abstract state of an [EntityCache].
pub ghost struct CacheModel {
    /// Resident identifiers with their instance numbers, most recently used first.
    pub entries: Seq<(u128, u64)>,
    /// The most entries that stay resident.
    pub capacity: nat,
    /// How many instances were spawned so far; also the next instance number.
    pub spawned: nat,
}

/// A well-formed cache: each identifier at most once, within capacity, and
/// each instance number one that was handed out.
pub open spec fn model_wf(m: CacheModel) -> bool {
    &&& m.capacity >= 1
    &&& m.spawned <= u64::MAX
    &&& m.entries.len() <= m.capacity
    &&& forall|i: int, j: int|
        0 <= i < j < m.entries.len() ==> (#[trigger] m.entries[i]).0 != (#[trigger] m.entries[j]).0
    &&& forall|i: int| 0 <= i < m.entries.len() ==> ((#[trigger] m.entries[i]).1 as nat) < m.spawned
}

/// Whether `id` has a resident instance.
pub open spec fn resident(m: CacheModel, id: u128) -> bool {
    has_key(m.entries, id)
}

/// The state after spawning an instance for a non-resident `id`: it comes
/// first with the next instance number, and in a full cache the least
/// recently used entry leaves.
pub open spec fn after_spawn(m: CacheModel, id: u128) -> CacheModel {
    CacheModel {
        entries: seq![(id, m.spawned as u64)] + if m.entries.len() == m.capacity {
            m.entries.drop_last()
        } else {
            m.entries
        },
        capacity: m.capacity,
        spawned: m.spawned + 1,
    }
}

/// Spawning for a non-resident identifier keeps the cache well formed and
/// leaves exactly one resident entry for it, holding the new instance: every
/// later lookup of the identifier finds that same instance.
pub proof fn lemma_spawn_single_instance(m: CacheModel, id: u128)
    requires
        model_wf(m),
        !resident(m, id),
        m.spawned < u64::MAX,
    ensures
        model_wf(after_spawn(m, id)),
        resident(after_spawn(m, id), id),
        forall|i: int|
            0 <= i < after_spawn(m, id).entries.len() && (#[trigger] after_spawn(m, id).entries[i]).0
                == id ==> i == 0 && after_spawn(m, id).entries[i].1 as nat == m.spawned,
{
    let old_e = m.entries;
    let new_e = after_spawn(m, id).entries;
    assert(new_e[0].0 == id);
    assert forall|a: int| 0 < a < new_e.len() implies #[trigger] new_e[a] == old_e[a - 1] by {}
    assert forall|a: int, b: int| 0 <= a < b < new_e.len() implies (#[trigger] new_e[a]).0 != (
    #[trigger] new_e[b]).0 by {
        assert(new_e[b] == old_e[b - 1]);
        if a > 0 {
            assert(new_e[a] == old_e[a - 1]);
        }
    }
    assert forall|a: int| 0 <= a < new_e.len() implies ((#[trigger] new_e[a]).1 as nat) < m.spawned
        + 1 by {
        if a > 0 {
            assert(new_e[a] == old_e[a - 1]);
        }
    }
    assert forall|i: int| 0 <= i < new_e.len() && (#[trigger] new_e[i]).0 == id implies i == 0
        && new_e[i].1 as nat == m.spawned by {
        if i > 0 {
            assert(new_e[i] == old_e[i - 1]);
        }
    }
}

/// When a full cache spawns for a new identifier, the least recently used
/// identifier is the one that leaves, so its next lookup must spawn again;
/// every other resident identifier stays resident.
pub proof fn lemma_evicts_least_recently_used(m: CacheModel, id: u128)
    requires
        model_wf(m),
        !resident(m, id),
        m.entries.len() == m.capacity,
    ensures
        !resident(after_spawn(m, id), m.entries.last().0),
        forall|k: u128|
            resident(m, k) && k != m.entries.last().0 ==> #[trigger] resident(after_spawn(m, id), k),
{
    let old_e = m.entries;
    let new_e = after_spawn(m, id).entries;
    let last = old_e.len() - 1;
    assert forall|a: int| 0 < a < new_e.len() implies #[trigger] new_e[a] == old_e[a - 1] by {}
    if resident(after_spawn(m, id), old_e[last].0) {
        let a = choose|a: int| 0 <= a < new_e.len() && (#[trigger] new_e[a]).0 == old_e[last].0;
        if a == 0 {
            assert(old_e[last].0 == id);
        } else {
            assert(old_e[a - 1].0 == old_e[last].0);
        }
    }
    assert forall|k: u128| resident(m, k) && k != m.entries.last().0 implies #[trigger] resident(
        after_spawn(m, id),
        k,
    ) by {
        let i = choose|i: int| 0 <= i < old_e.len() && (#[trigger] old_e[i]).0 == k;
        assert(i != last);
        assert(new_e[i + 1] == old_e[i]);
    }
}

/// Decides, for one identifier at a time, whether a live instance of an
/// account can be reused or a new one must be spawned, keeping at most
/// `capacity` of them and dropping the least recently used first.
pub struct EntityCache {
    entries: LruCache<u128, u64>,
    spawned: u64,
}

impl View for EntityCache {
    type V = CacheModel;

    closed spec fn view(&self) -> CacheModel {
        CacheModel {
            entries: lru_entries(self.entries),
            capacity: lru_cap(self.entries),
            spawned: self.spawned as nat,
        }
    }
}

impl EntityCache {
    /// An empty cache for at most `capacity` live instances.
    pub fn new(capacity: usize) -> (r: EntityCache)
        requires
            capacity > 0,
        ensures
            r@.entries == Seq::<(u128, u64)>::empty(),
            r@.capacity == capacity as nat,
            r@.spawned == 0,
            model_wf(r@),
    {
        EntityCache { entries: lru_new(capacity), spawned: 0 }
    }

    /// How many instances were spawned so far.
    pub fn spawned(&self) -> (r: u64)
        ensures
            r as nat == self@.spawned,
    {
        self.spawned
    }

    /// The instance number of a resident `id`, which becomes the most
    /// recently used; `None`, with nothing changed, where `id` must be spawned.
    pub fn lookup(&mut self, id: u128) -> (r: Option<u64>)
        requires
            model_wf(old(self)@),
        ensures
            model_wf(final(self)@),
            final(self)@.capacity == old(self)@.capacity,
            final(self)@.spawned == old(self)@.spawned,
            r is None <==> !resident(old(self)@, id),
            r is None ==> final(self)@ == old(self)@,
            forall|i: int|
                0 <= i < old(self)@.entries.len() && (#[trigger] old(self)@.entries[i]).0 == id
                    ==> r == Some(old(self)@.entries[i].1),
            r matches Some(inst) ==> exists|i: int|
                0 <= i < old(self)@.entries.len() && #[trigger] old(self)@.entries[i] == (id, inst)
                    && final(self)@.entries == seq![(id, inst)] + old(self)@.entries.remove(i),
    {
        lru_get(&mut self.entries, id)
    }

    /// Records a newly spawned instance for a non-resident `id` and returns
    /// its number, with the identifier that was evicted to make room, if any.
    pub fn record_spawn(&mut self, id: u128) -> (r: (u64, Option<u128>))
        requires
            model_wf(old(self)@),
            !resident(old(self)@, id),
            old(self)@.spawned < u64::MAX,
        ensures
            final(self)@ == after_spawn(old(self)@, id),
            model_wf(final(self)@),
            r.0 as nat == old(self)@.spawned,
            r.1 == (if old(self)@.entries.len() == old(self)@.capacity {
                Some(old(self)@.entries.last().0)
            } else {
                None::<u128>
            }),
    {
        let inst = self.spawned;
        let evicted = lru_push(&mut self.entries, id, inst);
        self.spawned = self.spawned + 1;
        let r = match evicted {
            Some((k, _)) => Some(k),
            None => None,
        };
        proof {
            assert(self@ =~= after_spawn(old(self)@, id));
            lemma_spawn_single_instance(old(self)@, id);
        }
        (inst, r)
    }
}

} // verus!
