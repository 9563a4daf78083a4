//! Counting authentication failures: five refused logins in a row trigger a
//! MAC reset with a DHCP renewal, after which the count starts again. A
//! success clears the count; network errors do not count.

use vstd::prelude::*;
use crate::text::str_eq;
use crate::auth::outcome::{CommandResult, opt_text};

verus! {

/// Refused logins in a row that trigger the MAC reset.
pub const MAX_FAILURES: u32 = 5;

/// The two per-adapter counters of dual-adapter mode.
#[derive(Clone, Copy, Debug, PartialEq, Eq, Structural)]
pub enum AdapterFailureCounter {
    A1,
    A2,
}

/// Result codes that mean the portal refused the credentials (not a
/// network error): `ac_auth_failed`, `1` (invalid or refused), `4`
/// (account disabled).
pub open spec fn is_auth_failure_code(code: Seq<char>) -> bool {
    code == "ac_auth_failed"@ || code == "1"@ || code == "4"@
}

/// Whether a result's code marks an authentication failure (no code: no).
pub fn is_auth_failure(result: &CommandResult) -> (r: bool)
    ensures
        r == match opt_text(result.code) {
            Some(c) => is_auth_failure_code(c),
            None => false,
        },
{
    match &result.code {
        Some(c) => str_eq(c.as_str(), "ac_auth_failed") || str_eq(c.as_str(), "1") || str_eq(
            c.as_str(),
            "4",
        ),
        None => false,
    }
}

/// What an adapter's result counts as: `(success, authentication failure)`;
/// no result counts as neither.
pub open spec fn result_counts(result: Option<CommandResult>) -> (bool, bool) {
    match result {
        Some(r) => (
            r.success,
            match opt_text(r.code) {
                Some(c) => is_auth_failure_code(c),
                None => false,
            },
        ),
        None => (false, false),
    }
}

/// One counter after a login: a success clears it; a refused login counts
/// one more, and the fifth triggers the reset (returned as `true`) and
/// starts the count again; anything else leaves it.
pub open spec fn spec_failure_step(count: u32, success: bool, auth_failure: bool) -> (u32, bool) {
    if success {
        (0, false)
    } else if !auth_failure {
        (count, false)
    } else if count + 1 >= MAX_FAILURES {
        (0, true)
    } else {
        ((count + 1) as u32, false)
    }
}

fn failure_step(count: u32, success: bool, auth_failure: bool) -> (r: (u32, bool))
    requires
        count < MAX_FAILURES,
    ensures
        r == spec_failure_step(count, success, auth_failure),
{
    if success {
        (0, false)
    } else if !auth_failure {
        (count, false)
    } else if count + 1 >= MAX_FAILURES {
        (0, true)
    } else {
        (count + 1, false)
    }
}

/// The failure counters: the global one and one per adapter.
pub struct AuthFailureCounts {
    pub portal_failure_count: u32,
    pub a1_auth_failure_count: u32,
    pub a2_auth_failure_count: u32,
}

impl AuthFailureCounts {
    /// Every counter stays below the reset threshold.
    pub open spec fn wf(self) -> bool {
        &&& self.portal_failure_count < MAX_FAILURES
        &&& self.a1_auth_failure_count < MAX_FAILURES
        &&& self.a2_auth_failure_count < MAX_FAILURES
    }

    pub open spec fn counter(self, c: AdapterFailureCounter) -> u32 {
        match c {
            AdapterFailureCounter::A1 => self.a1_auth_failure_count,
            AdapterFailureCounter::A2 => self.a2_auth_failure_count,
        }
    }

    /// All counters at zero.
    pub fn new() -> (r: Self)
        ensures
            r.wf(),
            r.portal_failure_count == 0,
            r.a1_auth_failure_count == 0,
            r.a2_auth_failure_count == 0,
    {
        AuthFailureCounts { portal_failure_count: 0, a1_auth_failure_count: 0, a2_auth_failure_count: 0 }
    }

    /// The count of one adapter.
    pub fn get_adapter_failure_count(&self, counter: AdapterFailureCounter) -> (r: u32)
        ensures
            r == self.counter(counter),
    {
        match counter {
            AdapterFailureCounter::A1 => self.a1_auth_failure_count,
            AdapterFailureCounter::A2 => self.a2_auth_failure_count,
        }
    }

    /// Sets the count of one adapter.
    pub fn set_adapter_failure_count(&mut self, counter: AdapterFailureCounter, value: u32)
        ensures
            final(self).counter(counter) == value,
            final(self).portal_failure_count == old(self).portal_failure_count,
            counter == AdapterFailureCounter::A1 ==> final(self).a2_auth_failure_count == old(
                self,
            ).a2_auth_failure_count,
            counter == AdapterFailureCounter::A2 ==> final(self).a1_auth_failure_count == old(
                self,
            ).a1_auth_failure_count,
    {
        match counter {
            AdapterFailureCounter::A1 => self.a1_auth_failure_count = value,
            AdapterFailureCounter::A2 => self.a2_auth_failure_count = value,
        }
    }

    /// Single-adapter mode: updates the global count after a login;
    /// returns whether the MAC reset of all adapters is due.
    pub fn update_auth_failure_count(&mut self, result: &CommandResult) -> (reset: bool)
        requires
            old(self).wf(),
        ensures
            final(self).wf(),
            (final(self).portal_failure_count, reset) == spec_failure_step(
                old(self).portal_failure_count,
                result_counts(Some(*result)).0,
                result_counts(Some(*result)).1,
            ),
            final(self).a1_auth_failure_count == old(self).a1_auth_failure_count,
            final(self).a2_auth_failure_count == old(self).a2_auth_failure_count,
    {
        let auth_failure = is_auth_failure(result);
        let (c, reset) = failure_step(self.portal_failure_count, result.success, auth_failure);
        self.portal_failure_count = c;
        reset
    }

    /// Dual-adapter mode: updates one adapter's count after its login
    /// (no result counts as neither success nor refusal); returns whether
    /// that adapter's MAC reset is due.
    pub fn handle_single_adapter_failure(&mut self, counter: AdapterFailureCounter, result: &Option<CommandResult>) -> (reset: bool)
        requires
            old(self).wf(),
        ensures
            final(self).wf(),
            (final(self).counter(counter), reset) == spec_failure_step(
                old(self).counter(counter),
                result_counts(*result).0,
                result_counts(*result).1,
            ),
            final(self).portal_failure_count == old(self).portal_failure_count,
            counter == AdapterFailureCounter::A1 ==> final(self).a2_auth_failure_count == old(
                self,
            ).a2_auth_failure_count,
            counter == AdapterFailureCounter::A2 ==> final(self).a1_auth_failure_count == old(
                self,
            ).a1_auth_failure_count,
    {
        let (success, auth) = match result {
            Some(r) => (r.success, is_auth_failure(r)),
            None => (false, false),
        };
        let prev = self.get_adapter_failure_count(counter);
        let (c, reset) = failure_step(prev, success, auth);
        self.set_adapter_failure_count(counter, c);
        reset
    }

    /// Clears every count (after a successful logout).
    pub fn reset_all(&mut self)
        ensures
            final(self).wf(),
            final(self).portal_failure_count == 0,
            final(self).a1_auth_failure_count == 0,
            final(self).a2_auth_failure_count == 0,
    {
        self.portal_failure_count = 0;
        self.a1_auth_failure_count = 0;
        self.a2_auth_failure_count = 0;
    }
}

/// From a clear count, four refused logins do not reset and the fifth does;
/// a success in between starts over.
pub proof fn law_fifth_refusal_resets()
    ensures
        !spec_failure_step(0, false, true).1,
        !spec_failure_step(3, false, true).1,
        spec_failure_step(4, false, true) == (0u32, true),
        spec_failure_step(4, true, false) == (0u32, false),
{
}

/// A reset happens only on a refused login, and network errors never move
/// the count.
pub proof fn law_only_refusals_count(count: u32, success: bool, auth_failure: bool)
    requires
        count < MAX_FAILURES,
    ensures
        spec_failure_step(count, success, auth_failure).1 ==> !success && auth_failure,
        !success && !auth_failure ==> spec_failure_step(count, success, auth_failure) == (count, false),
        spec_failure_step(count, success, auth_failure).0 < MAX_FAILURES,
{
}

} // verus!
