//! A shared station slot with runtime-checked borrow discipline. Any number
//! of shared (read-only) views of the station may be outstanding at once, or
//! a single exclusive (mutable) view, never both; a request that would break
//! this fails fast with `BorrowConflict` instead of permitting silent
//! concurrent mutation.

use vstd::prelude::*;
use crate::relay::GroundStation;

verus! {

/// Why access to a shared station was refused.
#[derive(Debug, Clone, Copy, PartialEq, Eq, Structural)]
pub enum AccessError {
    /// A view was requested while an incompatible view was outstanding.
    BorrowConflict,
}

/// A station shared among several logical owners. Views are acquired and
/// released explicitly; the cell tracks how many are outstanding and refuses
/// any combination other than "many readers" or "one writer".
pub struct StationCell {
    station: GroundStation,
    shared_views: u64,
    exclusive_view: bool,
}

impl StationCell {
    /// The station currently stored.
    pub closed spec fn station_spec(&self) -> GroundStation {
        self.station
    }

    /// How many shared (read-only) views are outstanding.
    pub closed spec fn shared_count(&self) -> u64 {
        self.shared_views
    }

    /// Whether the exclusive (mutable) view is outstanding.
    pub closed spec fn exclusively_held(&self) -> bool {
        self.exclusive_view
    }

    /// Wraps `station` for sharing; no views are outstanding yet.
    pub fn new(station: GroundStation) -> (c: StationCell)
        ensures
            c.station_spec() == station,
            c.shared_count() == 0,
            !c.exclusively_held(),
    {
        StationCell { station, shared_views: 0, exclusive_view: false }
    }

    /// Acquires one more shared view. Fails fast with `BorrowConflict`,
    /// changing nothing, while the exclusive view is outstanding (or when the
    /// view count would overflow); otherwise only the count grows.
    pub fn acquire_shared(&mut self) -> (r: Result<(), AccessError>)
        ensures
            match r {
                Ok(()) => !old(self).exclusively_held()
                    && old(self).shared_count() < u64::MAX
                    && final(self).shared_count() == old(self).shared_count() + 1
                    && final(self).station_spec() == old(self).station_spec()
                    && !final(self).exclusively_held(),
                Err(e) => e == AccessError::BorrowConflict
                    && (old(self).exclusively_held() || old(self).shared_count() == u64::MAX)
                    && *final(self) == *old(self),
            },
    {
        if self.exclusive_view || self.shared_views == u64::MAX {
            Err(AccessError::BorrowConflict)
        } else {
            self.shared_views = self.shared_views + 1;
            Ok(())
        }
    }

    /// Releases one shared view.
    pub fn release_shared(&mut self)
        requires
            old(self).shared_count() > 0,
        ensures
            final(self).shared_count() == old(self).shared_count() - 1,
            final(self).station_spec() == old(self).station_spec(),
            final(self).exclusively_held() == old(self).exclusively_held(),
    {
        self.shared_views = self.shared_views - 1;
    }

    /// Acquires the exclusive view. Fails fast with `BorrowConflict`,
    /// changing nothing, while any other view is outstanding.
    pub fn acquire_exclusive(&mut self) -> (r: Result<(), AccessError>)
        ensures
            match r {
                Ok(()) => !old(self).exclusively_held()
                    && old(self).shared_count() == 0
                    && final(self).exclusively_held()
                    && final(self).shared_count() == 0
                    && final(self).station_spec() == old(self).station_spec(),
                Err(e) => e == AccessError::BorrowConflict
                    && (old(self).exclusively_held() || old(self).shared_count() > 0)
                    && *final(self) == *old(self),
            },
    {
        if self.exclusive_view || self.shared_views > 0 {
            Err(AccessError::BorrowConflict)
        } else {
            self.exclusive_view = true;
            Ok(())
        }
    }

    /// Releases the exclusive view.
    pub fn release_exclusive(&mut self)
        requires
            old(self).exclusively_held(),
        ensures
            !final(self).exclusively_held(),
            final(self).shared_count() == old(self).shared_count(),
            final(self).station_spec() == old(self).station_spec(),
    {
        self.exclusive_view = false;
    }

    /// The number of outstanding shared views.
    pub fn shared_views(&self) -> (n: u64)
        ensures
            n == self.shared_count(),
    {
        self.shared_views
    }

    /// Whether the exclusive view is outstanding.
    pub fn is_exclusively_held(&self) -> (b: bool)
        ensures
            b == self.exclusively_held(),
    {
        self.exclusive_view
    }

    /// Reads the radio frequency through an outstanding view.
    pub fn radio_freq_centimhz(&self) -> (f: u64)
        requires
            self.shared_count() > 0 || self.exclusively_held(),
        ensures
            f == self.station_spec().radio_freq_centimhz,
    {
        self.station.radio_freq_centimhz
    }

    /// Stores a new radio frequency through the exclusive view; the view
    /// bookkeeping is untouched.
    pub fn set_radio_freq_centimhz(&mut self, f: u64)
        requires
            old(self).exclusively_held(),
        ensures
            final(self).station_spec() == (GroundStation { radio_freq_centimhz: f }),
            final(self).shared_count() == old(self).shared_count(),
            final(self).exclusively_held(),
    {
        self.station.radio_freq_centimhz = f;
    }
}

} // verus!
