//! A time- and size-bounded cache of fetched metadata, keyed by entity
//! identifier. Storage, expiry and eviction are supplied by moka; the
//! contracts here model the associations the cache may still hold, so a
//! lookup can only ever return a value that was stored for that key.

use std::time::Duration;
use vstd::prelude::*;

verus! {

use crate::metadata::{EntityMetadata, MetadataView};

/// A bounded cache of parsed metadata, keyed by entity identifier.
#[verifier::external_body]
pub struct MdqCache {
    inner: moka::sync::Cache<String, EntityMetadata>,
}

/// The associations the cache may still hold, as a map from key to stored
/// value. Expiry and eviction may silently drop entries, so this map
/// over-approximates what a lookup can return: every hit comes from it, but a
/// key in it may still miss.
pub uninterp spec fn cache_entries(c: MdqCache) -> Map<Seq<char>, MetadataView>;

/// The contents of a cache that holds nothing.
pub open spec fn no_entries() -> Map<Seq<char>, MetadataView> {
    Map::empty()
}

impl MdqCache {
    /// The associations this cache may still hold; see `cache_entries`.
    pub open spec fn entries(&self) -> Map<Seq<char>, MetadataView> {
        cache_entries(*self)
    }

    /// Relies on moka's sync cache builder: a freshly built cache holds no
    /// entries, is bounded by `max_entries`, and expires each entry
    /// `ttl_secs` seconds after it was inserted. moka panics on a
    /// time-to-live over 1000 years, hence the bound required here.
    #[verifier::external_body]
    pub fn new(max_entries: u64, ttl_secs: u64) -> (r: MdqCache)
        requires
            ttl_secs <= 31_536_000_000,
        ensures
            cache_entries(r) == no_entries(),
    {
        MdqCache {
            inner: moka::sync::Cache::builder().max_capacity(max_entries).time_to_live(
                Duration::from_secs(ttl_secs),
            ).build(),
        }
    }

    /// Relies on moka's `get`: a lookup never fabricates a value, so a hit
    /// returns exactly what was last stored for that key; a miss is always
    /// possible (expiry, eviction).
    #[verifier::external_body]
    pub fn get(&self, key: &str) -> (r: Option<EntityMetadata>)
        ensures
            match r {
                Some(v) => self.entries().dom().contains(key@) && v@ == self.entries()[key@],
                None => true,
            },
    {
        self.inner.get(key)
    }

    /// Relies on moka's `insert`: it stores or replaces the association for
    /// `key` and drops no other association except by eviction, which only
    /// removes entries.
    #[verifier::external_body]
    pub fn insert(&mut self, key: &str, value: &EntityMetadata)
        ensures
            final(self).entries() == old(self).entries().insert(key@, value@),
    {
        self.inner.insert(key.to_string(), value.clone());
    }

    /// Relies on moka's `invalidate`: it removes the association for `key` if
    /// present, and no other.
    #[verifier::external_body]
    pub fn invalidate(&mut self, key: &str)
        ensures
            final(self).entries() == old(self).entries().remove(key@),
    {
        self.inner.invalidate(key);
    }
}

/// Law: a key that was never stored cannot be answered for. A fresh cache
/// holds no associations, and invalidating a key removes its association, so
/// a lookup can hit for that key only after a later insert.
pub proof fn lemma_absent_key_never_hits(entries: Map<Seq<char>, MetadataView>, k: Seq<char>)
    ensures
        !no_entries().dom().contains(k),
        !entries.remove(k).dom().contains(k),
{
}

impl Default for MdqCache {
    /// A cache of up to 1000 entries with a one-hour time to live.
    fn default() -> (r: Self)
        ensures
            r.entries() == no_entries(),
    {
        Self::new(1000, 3600)
    }
}

} // verus!
