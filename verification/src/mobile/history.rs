//! Login and quality history: newest first, at most 100 entries.

use vstd::prelude::*;
use crate::text::to_owned_string;

verus! {

/// Entries kept in each history.
pub const HISTORY_MAX: usize = 100;

/// One login attempt.
#[derive(Clone, Debug)]
pub struct LoginHistoryEntry {
    pub time: String,
    pub success: bool,
    pub message: String,
    pub adapter: String,
    pub user: String,
    pub login_type: String,
}

/// One quality test; a latency that was not measured (negative in the
/// result) is kept as `None`, apart from a measured 0.
#[derive(Clone, Debug)]
pub struct QualityHistoryEntry {
    pub timestamp: u64,
    pub gateway_latency: Option<i64>,
    pub external_latency: Option<i64>,
    pub quality: String,
}

/// `entry` in front of `entries`, at most `cap` of them kept.
pub open spec fn pushed_front_capped<T>(entries: Seq<T>, entry: T, cap: nat) -> Seq<T> {
    if entries.len() + 1 > cap {
        (seq![entry] + entries).take(cap as int)
    } else {
        seq![entry] + entries
    }
}

/// Puts `entry` in front of `entries` and keeps at most `cap` of them.
pub fn push_front_capped<T>(entries: Vec<T>, entry: T, cap: usize) -> (r: Vec<T>)
    ensures
        r@ == pushed_front_capped(entries@, entry, cap as nat),
{
    let mut v = entries;
    let ghost before = v@;
    v.insert(0, entry);
    assert(v@ =~= seq![entry] + before);
    if v.len() > cap {
        v.truncate(cap);
    }
    v
}

/// A measured latency, or `None` for a negative (not measured) one.
pub fn measured_latency(ms: i64) -> (r: Option<i64>)
    ensures
        r == (if ms >= 0 {
            Some(ms)
        } else {
            None
        }),
{
    if ms >= 0 {
        Some(ms)
    } else {
        None
    }
}

/// The history entry of a quality test.
pub fn quality_history_entry(timestamp: u64, gateway_latency: i64, external_latency: i64, quality: &str) -> (r:
    QualityHistoryEntry)
    ensures
        r.timestamp == timestamp,
        r.gateway_latency == (if gateway_latency >= 0 {
            Some(gateway_latency)
        } else {
            None
        }),
        r.external_latency == (if external_latency >= 0 {
            Some(external_latency)
        } else {
            None
        }),
        r.quality@ == quality@,
{
    QualityHistoryEntry {
        timestamp,
        gateway_latency: measured_latency(gateway_latency),
        external_latency: measured_latency(external_latency),
        quality: to_owned_string(quality),
    }
}

/// The history entry of a login on the phone (always over `wlan0`).
pub fn login_history_entry(time: &str, success: bool, message: &str, user: &str, login_type: &str) -> (r:
    LoginHistoryEntry)
    ensures
        r.time@ == time@,
        r.success == success,
        r.message@ == message@,
        r.adapter@ == "wlan0"@,
        r.user@ == user@,
        r.login_type@ == login_type@,
{
    LoginHistoryEntry {
        time: to_owned_string(time),
        success,
        message: to_owned_string(message),
        adapter: to_owned_string("wlan0"),
        user: to_owned_string(user),
        login_type: to_owned_string(login_type),
    }
}

/// The history never grows past its cap, the newest entry comes first, and
/// the older ones keep their order behind it.
pub proof fn law_history_is_newest_first_and_capped<T>(entries: Seq<T>, entry: T, cap: nat)
    requires
        cap >= 1,
    ensures
        pushed_front_capped(entries, entry, cap).len() <= cap,
        pushed_front_capped(entries, entry, cap).len() >= 1,
        pushed_front_capped(entries, entry, cap)[0] == entry,
        forall|i: int|
            1 <= i < pushed_front_capped(entries, entry, cap).len() ==> #[trigger] pushed_front_capped(
                entries,
                entry,
                cap,
            )[i] == entries[i - 1],
{
}

} // verus!
