//! The memory cache: image bytes by resource key, each entry stamped with the
//! time at which it entered, and the sweep that evicts what has outlived the
//! time-to-live.

use vstd::hash_map::StringHashMap;
use vstd::prelude::*;
use vstd::seq_lib::seq_to_set_is_finite;

verus! {

/// How long an entry may stay in the cache, in milliseconds: 300 seconds.
pub const CACHE_TTL_MILLIS: u64 = 300_000;

/// The time between two sweeps, in seconds.
pub const SWEEP_INTERVAL_SECS: u64 = 300;

/// An image held by the cache.
#[derive(Debug)]
pub struct ImageCacheItem {
    /// When the entry entered the cache, in milliseconds on the monotonic
    /// clock of the process.
    pub time: u64,
    /// The container format of `image`.
    pub format: image::ImageFormat,
    /// The encoded bytes of the image.
    pub image: Vec<u8>,
}

/// What a cache entry holds, as a mathematical value.
pub ghost struct CacheEntry {
    pub time: u64,
    pub format: image::ImageFormat,
    pub payload: Seq<u8>,
}

impl View for ImageCacheItem {
    type V = CacheEntry;

    open spec fn view(&self) -> CacheEntry {
        CacheEntry { time: self.time, format: self.format, payload: self.image@ }
    }
}

impl Clone for ImageCacheItem {
    fn clone(&self) -> (copy: Self)
        ensures
            copy@ == self@,
    {
        let image = self.image.clone();
        assert(image@ =~= self.image@);
        ImageCacheItem { time: self.time, format: self.format, image }
    }
}

/// The contents of a cache: at most one entry for each key.
pub type Entries = Map<Seq<char>, CacheEntry>;

/// What a lookup of `key` finds.
pub open spec fn lookup(entries: Entries, key: Seq<char>) -> Option<CacheEntry> {
    if entries.contains_key(key) {
        Some(entries[key])
    } else {
        None
    }
}

/// The age at `now` of an entry that entered at `time`. A clock reading that
/// lies before the entry's own counts as no age at all.
pub open spec fn age(time: u64, now: u64) -> nat {
    if now >= time {
        (now - time) as nat
    } else {
        0
    }
}

/// An entry is expired once its age exceeds the time-to-live.
pub open spec fn is_expired(time: u64, now: u64) -> bool {
    age(time, now) > CACHE_TTL_MILLIS
}

/// The keys that a sweep at `now` evicts.
pub open spec fn expired_set(entries: Entries, now: u64) -> Set<Seq<char>> {
    Set::new(|key: Seq<char>| entries.contains_key(key) && is_expired(entries[key].time, now))
}

/// The contents that a sweep at `now` leaves: every entry that is not expired,
/// unchanged.
pub open spec fn swept(entries: Entries, now: u64) -> Entries {
    entries.remove_keys(expired_set(entries, now))
}

/// Whether the entry that entered at `time` is expired at `now`.
pub fn expired(time: u64, now: u64) -> (gone: bool)
    ensures
        gone == is_expired(time, now),
{
    now >= time && now - time > CACHE_TTL_MILLIS
}

/// The memory cache. Its keys are kept twice: in the map, for lookup, and in
/// a list without repetitions, which a sweep walks.
pub struct Cache {
    map: StringHashMap<ImageCacheItem>,
    keys: Vec<String>,
}

/// A list of keys, each taken as its text.
pub open spec fn key_views(keys: Seq<String>) -> Seq<Seq<char>> {
    keys.map_values(|key: String| key@)
}

impl View for Cache {
    type V = Entries;

    closed spec fn view(&self) -> Entries {
        self.map@.map_values(|item: ImageCacheItem| item@)
    }
}

impl Cache {
    /// The list of keys names each key of the map once. Every cache that
    /// this module hands out is well formed, and its methods keep it so.
    pub closed spec fn wf(&self) -> bool {
        &&& key_views(self.keys@).no_duplicates()
        &&& key_views(self.keys@).to_set() == self.map@.dom()
    }

    /// An empty cache.
    pub fn default() -> (cache: Cache)
        ensures
            cache.wf(),
            cache@ == Entries::empty(),
    {
        let cache = Cache { map: StringHashMap::new(), keys: Vec::new() };
        assert(key_views(cache.keys@).to_set() =~= cache.map@.dom());
        assert(cache@ =~= Entries::empty());
        cache
    }

    /// The entry under `path`, whether or not it has outlived the
    /// time-to-live: only a sweep evicts.
    pub fn read_image(&self, path: &str) -> (found: Option<&ImageCacheItem>)
        ensures
            match found {
                Some(item) => lookup(self@, path@) == Some(item@),
                None => lookup(self@, path@) is None,
            },
    {
        self.map.get(path)
    }

    /// Puts `cache_item` under `path`, in place of any entry that was there.
    pub fn write_image(&mut self, path: &str, cache_item: ImageCacheItem)
        requires
            old(self).wf(),
        ensures
            final(self).wf(),
            final(self)@ == old(self)@.insert(path@, cache_item@),
    {
        let ghost listed = key_views(self.keys@);
        if !self.map.contains_key(path) {
            self.keys.push(path.to_owned());
            proof {
                assert(key_views(self.keys@) =~= listed.push(path@));
                assert(!listed.to_set().contains(path@));
                lemma_push_no_duplicates(listed, path@);
                lemma_push_to_set(listed, path@);
            }
        } else {
            proof {
                assert(self.map@.dom().insert(path@) =~= self.map@.dom());
            }
        }
        self.map.insert(path.to_owned(), cache_item);
        proof {
            assert(self.map@.dom() =~= old(self).map@.dom().insert(path@));
            assert(self@ =~= old(self)@.insert(path@, cache_item@));
        }
    }

    /// The number of entries.
    pub fn len(&self) -> (count: usize)
        requires
            self.wf(),
        ensures
            count == self@.len(),
            self@.dom().finite(),
    {
        proof {
            self.lemma_listed();
        }
        self.keys.len()
    }

    /// The keys of the entries that are expired at `now`, each once: the
    /// snapshot that a sweep takes before it removes anything.
    pub fn expired_keys(&self, now: u64) -> (keys: Vec<String>)
        requires
            self.wf(),
        ensures
            key_views(keys@).no_duplicates(),
            key_views(keys@).to_set() == expired_set(self@, now),
    {
        let (gone, kept) = self.partition(now);
        proof {
            let gone_views = key_views(gone@);
            assert(gone_views.to_set() =~= expired_set(self@, now)) by {
                assert forall|key: Seq<char>|
                    gone_views.to_set().contains(key) <==> expired_set(self@, now).contains(
                        key,
                    ) by {
                    if expired_set(self@, now).contains(key) {
                        assert(self.map@.dom().contains(key));
                        assert(key_views(self.keys@).to_set().contains(key));
                    }
                }
            }
        }
        gone
    }

    /// One sweep: takes the snapshot of the keys that are expired at `now`,
    /// then removes exactly those. Returns how many entries it evicted.
    pub fn cull(&mut self, now: u64) -> (evicted: usize)
        requires
            old(self).wf(),
        ensures
            final(self).wf(),
            final(self)@ == swept(old(self)@, now),
            evicted == expired_set(old(self)@, now).len(),
            evicted == old(self)@.len() - final(self)@.len(),
    {
        let (gone, kept) = self.partition(now);
        let ghost gone_views = key_views(gone@);
        let ghost kept_views = key_views(kept@);
        let ghost listed = key_views(self.keys@);
        let ghost before = self.map@;
        let mut i: usize = 0;
        while i < gone.len()
            invariant
                i <= gone.len(),
                gone_views == key_views(gone@),
                self.map@ == before.remove_keys(gone_views.take(i as int).to_set()),
            decreases gone.len() - i,
        {
            self.map.remove(gone[i].as_str());
            proof {
                let done = gone_views.take(i as int);
                let next = gone_views.take(i + 1);
                assert(next =~= done.push(gone_views[i as int]));
                assert(next.to_set() =~= done.to_set().insert(gone_views[i as int])) by {
                    lemma_push_to_set(done, gone_views[i as int]);
                }
                assert(self.map@ =~= before.remove_keys(next.to_set()));
            }
            i += 1;
        }
        self.keys = kept;
        proof {
            assert(gone_views.take(gone.len() as int) =~= gone_views);
            old(self).lemma_listed();
            assert(gone_views.to_set() =~= expired_set(old(self)@, now)) by {
                assert forall|key: Seq<char>|
                    gone_views.to_set().contains(key) <==> expired_set(old(self)@, now).contains(
                        key,
                    ) by {
                    if expired_set(old(self)@, now).contains(key) {
                        assert(before.dom().contains(key));
                        assert(listed.to_set().contains(key));
                    }
                }
            }
            assert(self@ =~= swept(old(self)@, now));
            assert(kept_views.to_set() =~= self.map@.dom()) by {
                assert forall|key: Seq<char>|
                    kept_views.to_set().contains(key) <==> self.map@.dom().contains(key) by {
                    if self.map@.dom().contains(key) {
                        assert(before.dom().contains(key));
                        assert(listed.to_set().contains(key));
                    }
                }
            }
            self.lemma_listed();
            gone_views.unique_seq_to_set();
        }
        gone.len()
    }

    /// Splits the keys into those whose entries are expired at `now` and the
    /// rest, without changing the cache.
    fn partition(&self, now: u64) -> (parts: (Vec<String>, Vec<String>))
        requires
            self.wf(),
        ensures
            key_views(parts.0@).no_duplicates(),
            key_views(parts.1@).no_duplicates(),
            parts.0@.len() + parts.1@.len() == self.keys@.len(),
            forall|key: Seq<char>| #[trigger]
                key_views(parts.0@).contains(key) <==> key_views(self.keys@).contains(key)
                    && is_expired(self.map@[key].time, now),
            forall|key: Seq<char>| #[trigger]
                key_views(parts.1@).contains(key) <==> key_views(self.keys@).contains(key)
                    && !is_expired(self.map@[key].time, now),
    {
        let mut gone: Vec<String> = Vec::new();
        let mut kept: Vec<String> = Vec::new();
        let ghost listed = key_views(self.keys@);
        let mut i: usize = 0;
        while i < self.keys.len()
            invariant
                self.wf(),
                i <= self.keys.len(),
                listed == key_views(self.keys@),
                key_views(gone@).no_duplicates(),
                key_views(kept@).no_duplicates(),
                gone@.len() + kept@.len() == i,
                forall|key: Seq<char>| #[trigger]
                    key_views(gone@).contains(key) <==> listed.take(i as int).contains(key)
                        && is_expired(self.map@[key].time, now),
                forall|key: Seq<char>| #[trigger]
                    key_views(kept@).contains(key) <==> listed.take(i as int).contains(key)
                        && !is_expired(self.map@[key].time, now),
            decreases self.keys.len() - i,
        {
            let key = &self.keys[i];
            let ghost gone_before = key_views(gone@);
            let ghost kept_before = key_views(kept@);
            proof {
                assert(listed[i as int] == key@);
                assert(listed.take(i + 1) =~= listed.take(i as int).push(key@));
                assert(!listed.take(i as int).contains(key@)) by {
                    if listed.take(i as int).contains(key@) {
                        let j = choose|j: int|
                            0 <= j < i && listed.take(i as int)[j] == key@;
                        assert(listed[j] == listed[i as int]);
                    }
                }
                assert(listed.to_set().contains(key@));
                lemma_push_contains(listed.take(i as int), key@);
            }
            let stale = match self.map.get(key.as_str()) {
                Some(item) => expired(item.time, now),
                None => false,
            };
            if stale {
                gone.push(key.clone());
                proof {
                    assert(key_views(gone@) =~= gone_before.push(key@));
                    lemma_push_contains(gone_before, key@);
                    lemma_push_no_duplicates(gone_before, key@);
                }
            } else {
                kept.push(key.clone());
                proof {
                    assert(key_views(kept@) =~= kept_before.push(key@));
                    lemma_push_contains(kept_before, key@);
                    lemma_push_no_duplicates(kept_before, key@);
                }
            }
            i += 1;
        }
        proof {
            assert(listed.take(i as int) =~= listed);
        }
        (gone, kept)
    }

    /// A well-formed cache holds as many entries as its list has keys.
    proof fn lemma_listed(&self)
        requires
            self.wf(),
        ensures
            self@.dom() == self.map@.dom(),
            self@.dom().finite(),
            self@.len() == self.keys@.len(),
    {
        let listed = key_views(self.keys@);
        assert(self@.dom() =~= self.map@.dom());
        listed.unique_seq_to_set();
        seq_to_set_is_finite(listed);
    }
}

/// Read-your-write: once an entry is written under a key, a lookup of that
/// key finds that entry, with the payload and the format that were written.
pub proof fn lemma_read_your_write(entries: Entries, key: Seq<char>, entry: CacheEntry)
    ensures
        lookup(entries.insert(key, entry), key) == Some(entry),
        lookup(entries.insert(key, entry), key)->0.payload == entry.payload,
        lookup(entries.insert(key, entry), key)->0.format == entry.format,
{
}

/// A write under one key leaves what a lookup of any other key finds.
pub proof fn lemma_write_is_local(
    entries: Entries,
    key: Seq<char>,
    entry: CacheEntry,
    other: Seq<char>,
)
    requires
        other != key,
    ensures
        lookup(entries.insert(key, entry), other) == lookup(entries, other),
{
}

/// Eviction goes by age: a sweep removes an entry if its age exceeds the
/// time-to-live, and otherwise leaves it as it is.
pub proof fn lemma_sweep_goes_by_age(entries: Entries, key: Seq<char>, now: u64)
    requires
        entries.contains_key(key),
    ensures
        now - entries[key].time > CACHE_TTL_MILLIS ==> lookup(swept(entries, now), key) is None,
        now - entries[key].time <= CACHE_TTL_MILLIS ==> lookup(swept(entries, now), key) == Some(
            entries[key],
        ),
{
}

/// A sweep brings no entry into the cache.
pub proof fn lemma_sweep_only_removes(entries: Entries, key: Seq<char>, now: u64)
    ensures
        lookup(swept(entries, now), key) is Some ==> lookup(swept(entries, now), key) == lookup(
            entries,
            key,
        ),
{
}

/// Eviction is idempotent: right after a sweep nothing is expired, so a
/// second sweep at the same time removes nothing.
pub proof fn lemma_sweep_is_idempotent(entries: Entries, now: u64)
    ensures
        expired_set(swept(entries, now), now) == Set::<Seq<char>>::empty(),
        swept(swept(entries, now), now) == swept(entries, now),
{
    assert(expired_set(swept(entries, now), now) =~= Set::<Seq<char>>::empty());
    assert(swept(swept(entries, now), now) =~= swept(entries, now));
}

/// What a sequence contains after a push: what it contained, and the new item.
proof fn lemma_push_contains<A>(items: Seq<A>, item: A)
    ensures
        forall|other: A| #[trigger]
            items.push(item).contains(other) <==> items.contains(other) || other == item,
{
    assert forall|other: A| #[trigger]
        items.push(item).contains(other) <==> items.contains(other) || other == item by {
        if items.push(item).contains(other) {
            let i = choose|i: int| 0 <= i < items.push(item).len() && items.push(item)[i] == other;
            if i < items.len() {
                assert(items[i] == other);
            }
        }
        if items.contains(other) {
            let i = choose|i: int| 0 <= i < items.len() && items[i] == other;
            assert(items.push(item)[i] == other);
        }
        if other == item {
            assert(items.push(item)[items.len() as int] == other);
        }
    }
}

/// The set of a sequence after a push.
proof fn lemma_push_to_set<A>(items: Seq<A>, item: A)
    ensures
        items.push(item).to_set() == items.to_set().insert(item),
{
    lemma_push_contains(items, item);
    assert forall|other: A|
        items.push(item).to_set().contains(other) <==> items.to_set().insert(item).contains(
            other,
        ) by {
        assert(items.push(item).to_set().contains(other) <==> items.push(item).contains(other));
    }
    assert(items.push(item).to_set() =~= items.to_set().insert(item));
}

/// Pushing an item that a sequence lacks keeps it free of repetitions.
proof fn lemma_push_no_duplicates<A>(items: Seq<A>, item: A)
    requires
        items.no_duplicates(),
        !items.contains(item),
    ensures
        items.push(item).no_duplicates(),
{
    assert forall|i: int, j: int|
        0 <= i < items.push(item).len() && 0 <= j < items.push(item).len() && i != j implies items.push(
        item,
    )[i] != items.push(item)[j] by {
        if i < items.len() && j < items.len() {
        } else if i < items.len() {
            assert(items.contains(items[i]));
        } else if j < items.len() {
            assert(items.contains(items[j]));
        }
    }
}

} // verus!
