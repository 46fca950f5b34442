//! The key-value backend, modelled as a value.
//!
//! The running system keeps this state in a remote store reached over a
//! connection; the actors in this crate are written against the model below,
//! which holds the same state as plain values: the stored entries, and the
//! rate-limit counters with their expiry deadlines.  The backend offers
//! exactly the three primitives the service needs: `get`, `set`, and an
//! atomic increment-with-conditional-expire for the rate limiter.

use vstd::prelude::*;
use vstd::hash_map::StringHashMap;

verus! {

/// Why a storage call failed: the key was absent, or the backend call itself
/// failed.  The model backend never fails on its own; `BackendError` is what
/// a reply from the real, networked backend can carry, and every function
/// that consumes replies handles it.
#[derive(Clone, Copy, Debug, PartialEq, Eq, Structural)]
pub enum StorageError {
    NotFound,
    BackendError,
}

impl StorageError {
    /// A short description of the failure, for an error envelope's message.
    pub fn message(&self) -> (r: &'static str)
        ensures
            *self matches StorageError::NotFound ==> r@ == "key not found"@,
            *self matches StorageError::BackendError ==> r@ == "backend error"@,
    {
        match self {
            StorageError::NotFound => "key not found",
            StorageError::BackendError => "backend error",
        }
    }
}

/// One rate-limit counter as the backend keeps it: how many requests have
/// been counted in the current window, and the moment (in seconds) at which
/// that window ends and the entry expires.
#[derive(Clone, Copy, Debug, PartialEq, Eq, Structural)]
pub struct Window {
    pub count: u32,
    pub deadline: u64,
}

/// Saturating increment: the counter clamps at its ceiling instead of
/// wrapping, so an attacker cannot reset a window by overflowing it.
pub open spec fn saturating_inc(c: u32) -> u32 {
    if c == u32::MAX {
        u32::MAX
    } else {
        (c + 1) as u32
    }
}

/// The deadline of a window opened at `now`, clamped to the end of time.
pub open spec fn window_deadline(now: u64, window_secs: u64) -> u64 {
    if now + window_secs <= u64::MAX {
        (now + window_secs) as u64
    } else {
        u64::MAX
    }
}

/// What one atomic increment-with-conditional-expire does to a counter
/// entry, observed at time `now`.  An entry that is absent, or whose window
/// has ended, starts a fresh window: count one, deadline `now + window_secs`.
/// A live entry is incremented with saturation and keeps its deadline — the
/// window boundary is fixed at the first request and never pushed forward.
pub open spec fn window_step(prev: Option<Window>, now: u64, window_secs: u64) -> Window {
    match prev {
        Option::Some(w) => {
            if now < w.deadline {
                Window { count: saturating_inc(w.count), deadline: w.deadline }
            } else {
                Window { count: 1, deadline: window_deadline(now, window_secs) }
            }
        },
        Option::None => Window { count: 1, deadline: window_deadline(now, window_secs) },
    }
}

/// The backend's state.  The real store keeps both kinds of entry in one
/// keyspace, the counters under a reserved prefix of their own; the model
/// keeps the two apart, which the prefix guarantees anyway.
pub struct Backend {
    data: StringHashMap<String>,
    counters: StringHashMap<Window>,
}

impl Backend {
    /// The stored entries: key to value.
    pub closed spec fn entries(&self) -> Map<Seq<char>, Seq<char>> {
        self.data@.map_values(|v: String| v@)
    }

    /// The rate-limit counters: key to window state.
    pub closed spec fn windows(&self) -> Map<Seq<char>, Window> {
        self.counters@
    }

    /// A backend with nothing stored.
    pub fn new() -> (r: Backend)
        ensures
            r.entries() == Map::<Seq<char>, Seq<char>>::empty(),
            r.windows() == Map::<Seq<char>, Window>::empty(),
    {
        let r = Backend { data: StringHashMap::new(), counters: StringHashMap::new() };
        proof {
            assert(r.entries() =~= Map::<Seq<char>, Seq<char>>::empty());
        }
        r
    }

    /// Look a key up: the stored value, or `NotFound` when the key is absent.
    pub fn get(&self, key: &str) -> (r: Result<String, StorageError>)
        ensures
            self.entries().contains_key(key@) ==> (r matches Ok(v) && v@ == self.entries()[key@]),
            !self.entries().contains_key(key@) ==> r == Err::<String, StorageError>(
                StorageError::NotFound,
            ),
    {
        match self.data.get(key) {
            Option::Some(v) => Ok(v.clone()),
            Option::None => Err(StorageError::NotFound),
        }
    }

    /// Store `value` under `key`, overwriting any existing value: last write
    /// wins.
    pub fn set(&mut self, key: String, value: String)
        ensures
            final(self).entries() == old(self).entries().insert(key@, value@),
            final(self).windows() == old(self).windows(),
    {
        self.data.insert(key, value);
        proof {
            assert(self.entries() =~= old(self).entries().insert(key@, value@));
        }
    }

    /// The backend's one compound primitive, an indivisible unit: increment
    /// the counter at `key` with saturation, and give the key an expiry of
    /// `window_secs` only if it does not already have one.  Returns the
    /// post-increment count.  An entry whose deadline has passed is gone from
    /// the store, so the increment finds nothing and opens a fresh window.
    pub fn incr_with_expire(&mut self, key: &str, window_secs: u64, now: u64) -> (count: u32)
        ensures
            final(self).windows() == old(self).windows().insert(
                key@,
                window_step(old(self).windows().get(key@), now, window_secs),
            ),
            count == window_step(old(self).windows().get(key@), now, window_secs).count,
            final(self).entries() == old(self).entries(),
    {
        let deadline = if window_secs <= u64::MAX - now {
            now + window_secs
        } else {
            u64::MAX
        };
        let w = match self.counters.get(key) {
            Option::Some(prev) => {
                if now < prev.deadline {
                    let c = if prev.count == u32::MAX {
                        u32::MAX
                    } else {
                        prev.count + 1
                    };
                    Window { count: c, deadline: prev.deadline }
                } else {
                    Window { count: 1, deadline }
                }
            },
            Option::None => Window { count: 1, deadline },
        };
        self.counters.insert(key.to_owned(), w);
        w.count
    }

    /// Install a counter entry as a freshly started process may find one on
    /// the shared backend: window state lives in the backend, not in the
    /// process, so it survives restarts and is shared across replicas.
    pub fn set_window(&mut self, key: &str, w: Window)
        ensures
            final(self).windows() == old(self).windows().insert(key@, w),
            final(self).entries() == old(self).entries(),
    {
        self.counters.insert(key.to_owned(), w);
    }
}

} // verus!
