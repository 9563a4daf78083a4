use campus_login::mobile::identity::{IdentityGate, IDENTITY_VERIFY_TTL_SECS};

fn now_epoch_secs() -> u64 {
    std::time::SystemTime::now().duration_since(std::time::UNIX_EPOCH).map(|d| d.as_secs()).unwrap_or(0)
}

#[test]
fn never_verified_is_false() {
    let gate = IdentityGate { last_verify_epoch_secs: 0 };
    assert!(!gate.identity_verified_recently());
}

#[test]
fn ttl_inside_true_outside_false() {
    let now = now_epoch_secs();
    let gate = IdentityGate { last_verify_epoch_secs: now - 100 };
    assert!(gate.identity_verified_recently(), "100s < TTL 600s");
    let gate = IdentityGate { last_verify_epoch_secs: now - (IDENTITY_VERIFY_TTL_SECS + 1) };
    assert!(!gate.identity_verified_recently(), "601s > TTL");
}

#[test]
fn clock_set_back_counts_as_expired() {
    let now = now_epoch_secs();
    let gate = IdentityGate { last_verify_epoch_secs: now + 3600 };
    assert!(!gate.identity_verified_recently(), "回拨守卫:last > now 应过期");
}

#[test]
fn trust_period_boundaries_at_fixed_times() {
    let mut gate = IdentityGate::new();
    assert!(!gate.identity_verified_recently_at(1_000));
    gate.note_identity_verified_at(1_000);
    assert!(gate.identity_verified_recently_at(1_000));
    assert!(gate.identity_verified_recently_at(1_600));
    assert!(!gate.identity_verified_recently_at(1_601));
    assert!(!gate.identity_verified_recently_at(999));
    let mut live = IdentityGate::new();
    live.note_identity_verified();
    assert!(live.identity_verified_recently());
}
