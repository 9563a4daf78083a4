//! The identity gate: a biometric check is trusted for a while after it
//! succeeds; a clock that went back counts as expired.

use vstd::prelude::*;
use crate::clock::epoch_secs;

verus! {

/// How long a successful check is trusted, in seconds.
pub const IDENTITY_VERIFY_TTL_SECS: u64 = 600;

/// When the identity was last verified (seconds since the epoch, 0: never).
pub struct IdentityGate {
    pub last_verify_epoch_secs: u64,
}

/// Whether a check made at `last` still holds at `now`: never verified, or
/// a clock that went back, count as expired.
pub open spec fn verified_recently(last: u64, now: u64) -> bool {
    last != 0 && last <= now && now - last <= IDENTITY_VERIFY_TTL_SECS
}

impl IdentityGate {
    /// A gate that was never passed.
    pub fn new() -> (r: Self)
        ensures
            r.last_verify_epoch_secs == 0,
    {
        IdentityGate { last_verify_epoch_secs: 0 }
    }

    /// Records a successful check made at `now`.
    pub fn note_identity_verified_at(&mut self, now: u64)
        ensures
            final(self).last_verify_epoch_secs == now,
    {
        self.last_verify_epoch_secs = now;
    }

    /// Records a successful check made now (by the wall clock) and returns
    /// the clock reading it recorded.
    pub fn note_identity_verified(&mut self) -> (now: u64)
        ensures
            final(self).last_verify_epoch_secs == now,
    {
        let now = epoch_secs();
        self.note_identity_verified_at(now);
        now
    }

    /// Whether the last check still holds at `now`.
    pub fn identity_verified_recently_at(&self, now: u64) -> (r: bool)
        ensures
            r == verified_recently(self.last_verify_epoch_secs, now),
    {
        let last = self.last_verify_epoch_secs;
        if last == 0 {
            return false;
        }
        if now < last {
            return false;
        }
        now - last <= IDENTITY_VERIFY_TTL_SECS
    }

    /// Whether the last check still holds now (by the wall clock). Whatever
    /// the clock reads, a gate that was never passed is closed.
    pub fn identity_verified_recently(&self) -> (r: bool)
        ensures
            r ==> self.last_verify_epoch_secs != 0,
            r ==> exists|now: u64| #[trigger] verified_recently(self.last_verify_epoch_secs, now),
    {
        let now = epoch_secs();
        self.identity_verified_recently_at(now)
    }
}

/// A check made at `t` holds for the whole trust period after it, and not
/// a second longer; before `t` (a clock set back) it does not hold.
pub proof fn law_trust_period(t: u64, now: u64)
    requires
        t != 0,
    ensures
        t <= now <= t + IDENTITY_VERIFY_TTL_SECS ==> verified_recently(t, now),
        now > t + IDENTITY_VERIFY_TTL_SECS ==> !verified_recently(t, now),
        now < t ==> !verified_recently(t, now),
{
}

} // verus!
