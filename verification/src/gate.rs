//! Concurrency admission: an optional upper bound on the number of protocol
//! operations in flight at once for one client. A batch counts as a single
//! operation. When no bound is configured, admission is a no-op.

use vstd::prelude::*;

verus! {

/// Bounds the number of in-flight protocol operations sharing one client.
///
/// With a bound of `K`, at most `K` operations hold a permit at any instant:
/// [`ConcurrencyGate::well_formed`] is established by the constructor and
/// preserved by every operation. Without a bound, permits are no-ops and
/// nothing is counted.
#[derive(Debug, Clone, Copy)]
pub struct ConcurrencyGate {
    pub limit: Option<u64>,
    pub in_flight: u64,
}

impl ConcurrencyGate {
    /// Invariant: the in-flight count never exceeds the bound.
    pub open spec fn well_formed(&self) -> bool {
        match self.limit {
            Some(k) => self.in_flight <= k,
            None => self.in_flight == 0,
        }
    }

    /// A fresh gate with the given optional bound and nothing in flight.
    pub fn new(limit: Option<u64>) -> (r: Self)
        ensures
            r.well_formed(),
            r.limit == limit,
            r.in_flight == 0,
    {
        ConcurrencyGate { limit, in_flight: 0 }
    }

    /// Tries to admit one more operation. Admission succeeds exactly when
    /// admission is unbounded (a no-op permit, nothing counted) or the
    /// in-flight count is below the bound; a saturated gate refuses and is
    /// left unchanged, and the caller must wait for a release.
    pub fn try_acquire(&mut self) -> (admitted: bool)
        requires
            old(self).well_formed(),
        ensures
            final(self).well_formed(),
            final(self).limit == old(self).limit,
            match old(self).limit {
                None => admitted && final(self).in_flight == old(self).in_flight,
                Some(k) => if old(self).in_flight < k {
                    admitted && final(self).in_flight == old(self).in_flight + 1
                } else {
                    !admitted && final(self).in_flight == old(self).in_flight
                },
            },
    {
        match self.limit {
            None => true,
            Some(k) => {
                if self.in_flight < k {
                    self.in_flight = self.in_flight + 1;
                    true
                } else {
                    false
                }
            },
        }
    }

    /// Returns one permit. Only a permit that [`Self::try_acquire`] granted
    /// under a bound is returned; no-op permits of an unbounded gate are not.
    pub fn release(&mut self)
        requires
            old(self).well_formed(),
            old(self).limit is Some,
            old(self).in_flight >= 1,
        ensures
            final(self).well_formed(),
            final(self).limit == old(self).limit,
            final(self).in_flight == old(self).in_flight - 1,
    {
        self.in_flight = self.in_flight - 1;
    }

    /// Saturation bound: in every well-formed state, the number of
    /// operations in flight is at most the configured bound, and an
    /// acquisition attempted at the bound is refused.
    pub proof fn lemma_bound_respected(g: ConcurrencyGate, k: u64)
        requires
            g.well_formed(),
            g.limit == Some(k),
        ensures
            g.in_flight <= k,
    {
    }
}

} // verus!
