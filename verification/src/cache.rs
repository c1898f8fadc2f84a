//! A small time-based cache for voice lists, to reduce repeated catalog
//! calls. Time is injected: every operation takes the current clock in
//! milliseconds, so expiry is a pure function of the stored timestamps.

use vstd::prelude::*;

verus! {

/// One cached value with the moment it was stored and its time to live.
pub struct CacheEntry<T> {
    pub data: T,
    pub cached_at_ms: u64,
    pub ttl_ms: u64,
}

impl<T> CacheEntry<T> {
    /// Caches a value as of `now_ms`.
    pub fn new(data: T, ttl_ms: u64, now_ms: u64) -> (r: CacheEntry<T>)
        ensures
            r.data == data,
            r.cached_at_ms == now_ms,
            r.ttl_ms == ttl_ms,
    {
        CacheEntry { data, cached_at_ms: now_ms, ttl_ms }
    }

    /// An entry is expired once more than its time to live has elapsed;
    /// a clock that moved backwards also counts as expired.
    pub open spec fn spec_expired(self, now_ms: u64) -> bool {
        now_ms < self.cached_at_ms || now_ms - self.cached_at_ms > self.ttl_ms
    }

    /// Whether the entry has expired as of `now_ms`.
    pub fn is_expired(&self, now_ms: u64) -> (r: bool)
        ensures
            r == self.spec_expired(now_ms),
    {
        if now_ms < self.cached_at_ms {
            true
        } else {
            now_ms - self.cached_at_ms > self.ttl_ms
        }
    }

    /// Replaces the value and restarts the clock.
    pub fn refresh(&mut self, data: T, now_ms: u64)
        ensures
            final(self).data == data,
            final(self).cached_at_ms == now_ms,
            final(self).ttl_ms == old(self).ttl_ms,
    {
        self.data = data;
        self.cached_at_ms = now_ms;
    }
}

/// A single-slot cache with a default time to live.
pub struct VoiceCache<T> {
    pub cache: Option<CacheEntry<T>>,
    pub default_ttl_ms: u64,
}

impl<T> VoiceCache<T> {
    /// An empty cache whose entries live `ttl_seconds`.
    pub fn new(ttl_seconds: u64) -> (r: VoiceCache<T>)
        requires
            ttl_seconds <= 18_446_744_073_709_551u64,
        ensures
            r.cache is None,
            r.default_ttl_ms == ttl_seconds * 1000,
    {
        VoiceCache { cache: None, default_ttl_ms: ttl_seconds * 1000 }
    }

    /// The cached value, if one is stored and not expired as of `now_ms`.
    pub fn get(&self, now_ms: u64) -> (r: Option<&T>)
        ensures
            match self.cache {
                Some(e) => if e.spec_expired(now_ms) {
                    r is None
                } else {
                    r matches Some(v) && *v == e.data
                },
                None => r is None,
            },
    {
        match &self.cache {
            Some(entry) => {
                if !entry.is_expired(now_ms) {
                    Some(&entry.data)
                } else {
                    None
                }
            },
            None => None,
        }
    }

    /// Stores a value as of `now_ms`: a fresh slot uses the default time
    /// to live, an occupied one keeps its own.
    pub fn set(&mut self, data: T, now_ms: u64)
        ensures
            final(self).default_ttl_ms == old(self).default_ttl_ms,
            final(self).cache matches Some(e) && e.data == data && e.cached_at_ms == now_ms
                && e.ttl_ms == (match old(self).cache {
                Some(o) => o.ttl_ms,
                None => old(self).default_ttl_ms,
            }),
    {
        match &mut self.cache {
            Some(entry) => {
                entry.refresh(data, now_ms);
            },
            None => {
                let ttl = self.default_ttl_ms;
                self.cache = Some(CacheEntry::new(data, ttl, now_ms));
            },
        }
    }

    /// Empties the cache.
    pub fn clear(&mut self)
        ensures
            final(self).cache is None,
            final(self).default_ttl_ms == old(self).default_ttl_ms,
    {
        self.cache = None;
    }

    /// Whether a live (unexpired) value is stored as of `now_ms`.
    pub fn is_valid(&self, now_ms: u64) -> (r: bool)
        ensures
            r == (match self.cache {
                Some(e) => !e.spec_expired(now_ms),
                None => false,
            }),
    {
        match &self.cache {
            Some(entry) => !entry.is_expired(now_ms),
            None => false,
        }
    }
}

impl<T> Default for VoiceCache<T> {
    /// Five minutes of time to live.
    fn default() -> (r: VoiceCache<T>)
        ensures
            r.cache is None,
            r.default_ttl_ms == 300000,
    {
        VoiceCache { cache: None, default_ttl_ms: 300000 }
    }
}

} // verus!
