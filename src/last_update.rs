use vstd::prelude::*;
use crate::error::LendingError;

verus! {

/// Slots that may pass before a refreshed record counts as stale again.
pub const STALE_AFTER_SLOTS_ELAPSED: u8 = 1;

/// When a reserve or an obligation was last refreshed, and whether it has been
/// changed since.
#[derive(Clone, Copy, Debug, PartialEq, Eq, Structural)]
pub struct LastUpdate {
    pub is_stale: bool,
    pub slot: u64,
}

pub struct NewLastUpdateArgs {
    pub slot: u64,
}

/// Staleness at `slot`: flagged, or a slot has passed since the refresh.
pub open spec fn stale_at(u: LastUpdate, slot: u64) -> bool {
    u.is_stale || slot - u.slot >= STALE_AFTER_SLOTS_ELAPSED
}

impl LastUpdate {
    pub fn new(args: NewLastUpdateArgs) -> (r: LastUpdate)
        ensures
            r.is_stale,
            r.slot == args.slot,
    {
        LastUpdate { is_stale: true, slot: args.slot }
    }

    /// Slots since the last update; fails when `slot` lies before it.
    pub fn slots_elapsed(&self, slot: u64) -> (r: Result<u64, LendingError>)
        ensures
            slot >= self.slot ==> r == Ok::<u64, LendingError>((slot - self.slot) as u64),
            slot < self.slot ==> r == Err::<u64, LendingError>(LendingError::MathOverflow),
    {
        match slot.checked_sub(self.slot) {
            Some(d) => Ok(d),
            None => Err(LendingError::MathOverflow),
        }
    }

    pub fn mark_stale(&mut self)
        ensures
            final(self).is_stale,
            final(self).slot == old(self).slot,
    {
        self.is_stale = true;
    }

    pub fn update_slot(&mut self, slot: u64)
        ensures
            !final(self).is_stale,
            final(self).slot == slot,
    {
        self.slot = slot;
        self.is_stale = false;
    }

    pub fn is_stale(&self, slot: u64) -> (r: Result<bool, LendingError>)
        ensures
            self.is_stale ==> r == Ok::<bool, LendingError>(true),
            !self.is_stale && slot < self.slot ==> r == Err::<bool, LendingError>(LendingError::MathOverflow),
            !self.is_stale && slot >= self.slot ==> r == Ok::<bool, LendingError>(stale_at(*self, slot)),
    {
        if self.is_stale {
            return Ok(true);
        }
        let elapsed = match self.slots_elapsed(slot) {
            Ok(d) => d,
            Err(e) => return Err(e),
        };
        Ok(elapsed >= STALE_AFTER_SLOTS_ELAPSED as u64)
    }
}

} // verus!
