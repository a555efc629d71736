//! Cached, epoch-keyed transformations.
//!
//! A cache cell holds at most one value together with the epoch it was
//! computed for, and a tolerance in whole seconds. A request within the
//! tolerance of the cached epoch is served from the cache; any other
//! request invokes the caller's compute function and the result replaces
//! the entry. The cell itself is a plain value; sharing one between
//! several handles is a matter of wrapping it in a shared reference.

use vstd::prelude::*;

verus! {

/// A cached value of type `T` with epoch-based invalidation.
#[derive(Clone, Copy, Debug)]
pub struct CachedTransform<T> {
    /// The cached value and the epoch (Unix seconds) it was computed for.
    pub entry: Option<(T, i64)>,
    /// How far, in whole seconds, a requested epoch may lie from the
    /// cached epoch and still be served from the cache.
    pub tolerance_seconds: i64,
}

impl<T: Copy> CachedTransform<T> {
    /// Whether the cache holds an entry whose epoch lies within the
    /// tolerance of the requested epoch.
    pub open spec fn spec_is_valid_for(&self, epoch: int) -> bool {
        match self.entry {
            Some(e) => -self.tolerance_seconds <= epoch - e.1 <= self.tolerance_seconds,
            None => false,
        }
    }

    /// Create an empty cache with the given time tolerance in seconds.
    pub fn new(tolerance_seconds: i64) -> (r: CachedTransform<T>)
        ensures
            r.entry is None,
            r.tolerance_seconds == tolerance_seconds,
    {
        CachedTransform { entry: None, tolerance_seconds }
    }

    /// Whether a request at `epoch` would be served from the cache.
    pub fn is_valid_for(&self, epoch: i64) -> (r: bool)
        ensures
            r == self.spec_is_valid_for(epoch as int),
    {
        match &self.entry {
            Some(e) => {
                let diff: i128 = epoch as i128 - e.1 as i128;
                -(self.tolerance_seconds as i128) <= diff && diff
                    <= self.tolerance_seconds as i128
            },
            None => false,
        }
    }

    /// Clear the cached entry.
    pub fn invalidate(&mut self)
        ensures
            final(self).entry is None,
            final(self).tolerance_seconds == old(self).tolerance_seconds,
    {
        self.entry = None;
    }

    /// Serve the value for `epoch` from the cache when the cached epoch is
    /// within tolerance; otherwise invoke `compute` on the epoch, store
    /// its result under `epoch`, and return it. On a cache hit the cell is
    /// untouched and `compute` is never invoked.
    pub fn get_or_compute<F: FnOnce(i64) -> T>(&mut self, epoch: i64, compute: F) -> (r: T)
        requires
            call_requires(compute, (epoch,)),
        ensures
            final(self).tolerance_seconds == old(self).tolerance_seconds,
            old(self).spec_is_valid_for(epoch as int) ==> *final(self) == *old(self) && Some(
                (r, old(self).entry->Some_0.1),
            ) == old(self).entry,
            !old(self).spec_is_valid_for(epoch as int) ==> call_ensures(compute, (epoch,), r)
                && final(self).entry == Some((r, epoch)),
    {
        match &self.entry {
            Some(e) => {
                let diff: i128 = epoch as i128 - e.1 as i128;
                if -(self.tolerance_seconds as i128) <= diff && diff
                    <= self.tolerance_seconds as i128 {
                    return e.0;
                }
            },
            None => {},
        }
        let value: T = compute(epoch);
        self.entry = Some((value, epoch));
        value
    }
}

} // verus!
