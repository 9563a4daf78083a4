//! The checks that come before each self-service request: which password is
//! sent, when the identity gate stops a request, and how the fields a
//! request needs are validated.

use vstd::prelude::*;
use crate::text::{
    chars_of, char_is_ascii_digit, is_ascii_digit, lex_greater, str_eq, str_greater, to_owned_string,
    trim, trim_str, utf8_len,
};
use crate::config::model::PASSWORD_MASK;
use crate::mobile::settings::Settings;
use crate::mobile::identity::{IdentityGate, verified_recently};

verus! {

/// The message shown when the identity check has expired.
pub const IDENTITY_EXPIRED: &'static str = "生物识别验证已过期,请重新验证";

/// The self-service password to send: the one entered, unless it is empty
/// or the mask; then the saved one; `None` when neither exists.
pub open spec fn spec_self_password(incoming: Seq<char>, saved: Seq<char>) -> Option<Seq<char>> {
    if incoming.len() != 0 && incoming != PASSWORD_MASK@ {
        Some(incoming)
    } else if saved.len() == 0 {
        None
    } else {
        Some(saved)
    }
}

/// The self-service password to send (see `spec_self_password`).
pub fn resolve_self_password(incoming: &str, settings: &Settings) -> (r: Option<String>)
    ensures
        match spec_self_password(incoming@, settings.self_password@) {
            Some(p) => r matches Some(s) && s@ == p,
            None => r is None,
        },
{
    if !incoming.is_empty() && !str_eq(incoming, PASSWORD_MASK) {
        return Some(to_owned_string(incoming));
    }
    if settings.self_password.as_str().is_empty() {
        None
    } else {
        Some(settings.self_password.clone())
    }
}

/// What the identity check says: nothing when the biometric switch is off or the
/// identity was verified within the trust period, the expiry message
/// otherwise.
pub open spec fn gate_message(hello_enabled: bool, verified: bool) -> Option<Seq<char>> {
    if !hello_enabled || verified {
        None
    } else {
        Some(IDENTITY_EXPIRED@)
    }
}

/// The identity check in front of requests that change something, at time `now`.
pub fn ensure_identity_gate_at(settings: &Settings, gate: &IdentityGate, now: u64) -> (r: Option<String>)
    ensures
        match gate_message(
            settings.self_hello_enabled,
            verified_recently(gate.last_verify_epoch_secs, now),
        ) {
            Some(m) => r matches Some(s) && s@ == m,
            None => r is None,
        },
{
    if !settings.self_hello_enabled {
        return None;
    }
    if gate.identity_verified_recently_at(now) {
        None
    } else {
        Some(to_owned_string(IDENTITY_EXPIRED))
    }
}

/// The identity check in front of requests that change something, by the wall clock:
/// with the biometric switch off it never stops a request; with it on, a
/// gate that was never passed always does.
pub fn ensure_identity_gate(settings: &Settings, gate: &IdentityGate) -> (r: Option<String>)
    ensures
        !settings.self_hello_enabled ==> r is None,
        settings.self_hello_enabled && gate.last_verify_epoch_secs == 0 ==> (r matches Some(s) && s@
            == IDENTITY_EXPIRED@),
        r matches Some(s) ==> s@ == IDENTITY_EXPIRED@,
{
    if !settings.self_hello_enabled {
        return None;
    }
    if gate.identity_verified_recently() {
        None
    } else {
        Some(to_owned_string(IDENTITY_EXPIRED))
    }
}

/// `YYYY-MM-DD`: ten characters, `-` at positions 4 and 7, digits elsewhere
/// (checked on bytes in the same way: a non-ASCII character fails either
/// way).
pub open spec fn spec_is_iso_date(s: Seq<char>) -> bool {
    &&& s.len() == 10
    &&& forall|i: int|
        0 <= i < 10 ==> if i == 4 || i == 7 {
            #[trigger] s[i] == '-'
        } else {
            is_ascii_digit(s[i])
        }
}

/// Strict `YYYY-MM-DD` check.
pub fn is_iso_date(s: &str) -> (r: bool)
    ensures
        r == spec_is_iso_date(s@),
{
    let v = chars_of(s);
    if v.len() != 10 {
        return false;
    }
    let mut i: usize = 0;
    while i < 10
        invariant
            v@ == s@,
            v.len() == 10,
            i <= 10,
            forall|k: int|
                0 <= k < i ==> if k == 4 || k == 7 {
                    #[trigger] v@[k] == '-'
                } else {
                    is_ascii_digit(v@[k])
                },
        decreases 10 - i,
    {
        let ok = if i == 4 || i == 7 {
            v[i] == '-'
        } else {
            char_is_ascii_digit(v[i])
        };
        if !ok {
            return false;
        }
        i = i + 1;
    }
    true
}

/// An account and the password to send with it.
pub struct Credentials {
    pub account: String,
    pub password: String,
}

/// The first check of every request: the trimmed account must not be
/// empty, and a password must be at hand.
pub open spec fn credentials_error(account: Seq<char>, incoming: Seq<char>, saved: Seq<char>) -> Option<
    Seq<char>,
> {
    if trim(account).len() == 0 {
        Some("请输入学号"@)
    } else if spec_self_password(incoming, saved) is None {
        Some("请输入自助服务系统密码"@)
    } else {
        None
    }
}

/// Whether `c` holds the trimmed account and the password to send.
pub open spec fn is_credentials_for(c: Credentials, account: Seq<char>, incoming: Seq<char>, saved: Seq<char>) -> bool {
    c.account@ == trim(account) && Some(c.password@) == spec_self_password(incoming, saved)
}

/// The account and password for a query (bind status, dashboard).
pub fn check_query_credentials(account: &str, password: &str, settings: &Settings) -> (r: Result<
    Credentials,
    String,
>)
    ensures
        match credentials_error(account@, password@, settings.self_password@) {
            Some(m) => r matches Err(e) && e@ == m,
            None => r matches Ok(c) && is_credentials_for(c, account@, password@, settings.self_password@),
        },
{
    let account = trim_str(account);
    if account.as_str().is_empty() {
        return Err(to_owned_string("请输入学号"));
    }
    match resolve_self_password(password, settings) {
        None => Err(to_owned_string("请输入自助服务系统密码")),
        Some(p) => Ok(Credentials { account, password: p }),
    }
}

/// Why an online-log query is refused, if it is: the credentials, then
/// both dates in `YYYY-MM-DD`, then a start not after the end.
pub open spec fn online_log_error(
    account: Seq<char>,
    incoming: Seq<char>,
    saved: Seq<char>,
    start: Seq<char>,
    end: Seq<char>,
) -> Option<Seq<char>> {
    if credentials_error(account, incoming, saved) is Some {
        credentials_error(account, incoming, saved)
    } else if !spec_is_iso_date(start) || !spec_is_iso_date(end) {
        Some("日期格式应为 YYYY-MM-DD"@)
    } else if lex_greater(start, end) {
        Some("开始日期不能晚于结束日期"@)
    } else {
        None
    }
}

/// The checks before an online-log query.
pub fn check_online_log_query(
    account: &str,
    password: &str,
    start_time: &str,
    end_time: &str,
    settings: &Settings,
) -> (r: Result<Credentials, String>)
    ensures
        match online_log_error(account@, password@, settings.self_password@, start_time@, end_time@) {
            Some(m) => r matches Err(e) && e@ == m,
            None => r matches Ok(c) && is_credentials_for(c, account@, password@, settings.self_password@),
        },
{
    let c = match check_query_credentials(account, password, settings) {
        Ok(c) => c,
        Err(e) => return Err(e),
    };
    if !is_iso_date(start_time) || !is_iso_date(end_time) {
        return Err(to_owned_string("日期格式应为 YYYY-MM-DD"));
    }
    if str_greater(start_time, end_time) {
        return Err(to_owned_string("开始日期不能晚于结束日期"));
    }
    Ok(c)
}

/// Why a request that changes something is refused, if it is: the account,
/// then the identity check, then the password (that check comes before the password).
pub open spec fn gated_error(
    account: Seq<char>,
    incoming: Seq<char>,
    saved: Seq<char>,
    gate: Option<Seq<char>>,
) -> Option<Seq<char>> {
    if trim(account).len() == 0 {
        Some("请输入学号"@)
    } else if gate is Some {
        gate
    } else if spec_self_password(incoming, saved) is None {
        Some("请输入自助服务系统密码"@)
    } else {
        None
    }
}

/// The checks before ending an online session: account, gate, password,
/// then a non-blank session id. `gate` is what the identity gate said.
pub fn check_offline_session(
    account: &str,
    password: &str,
    session_id: &str,
    settings: &Settings,
    gate: Option<String>,
) -> (r: Result<Credentials, String>)
    ensures
        ({
            let g = match gate {
                Some(s) => Some(s@),
                None => None,
            };
            match gated_error(account@, password@, settings.self_password@, g) {
                Some(m) => r matches Err(e) && e@ == m,
                None => if trim(session_id@).len() == 0 {
                    r matches Err(e) && e@ == "缺少会话标识"@
                } else {
                    r matches Ok(c) && is_credentials_for(
                        c,
                        account@,
                        password@,
                        settings.self_password@,
                    )
                },
            }
        }),
{
    let account = trim_str(account);
    if account.as_str().is_empty() {
        return Err(to_owned_string("请输入学号"));
    }
    if let Some(msg) = gate {
        return Err(msg);
    }
    let p = match resolve_self_password(password, settings) {
        None => return Err(to_owned_string("请输入自助服务系统密码")),
        Some(p) => p,
    };
    let sid = trim_str(session_id);
    if sid.as_str().is_empty() {
        return Err(to_owned_string("缺少会话标识"));
    }
    Ok(Credentials { account, password: p })
}

/// The checks before revealing the operator credentials: account, then the
/// identity check, which holds here whatever the biometric switch says,
/// then the password. `verified` is whether the identity was verified
/// within the trust period.
pub fn check_reveal_credential(account: &str, password: &str, settings: &Settings, verified: bool) -> (r:
    Result<Credentials, String>)
    ensures
        match gated_error(
            account@,
            password@,
            settings.self_password@,
            gate_message(true, verified),
        ) {
            Some(m) => r matches Err(e) && e@ == m,
            None => r matches Ok(c) && is_credentials_for(c, account@, password@, settings.self_password@),
        },
{
    let account = trim_str(account);
    if account.as_str().is_empty() {
        return Err(to_owned_string("请输入学号"));
    }
    if !verified {
        return Err(to_owned_string(IDENTITY_EXPIRED));
    }
    match resolve_self_password(password, settings) {
        None => Err(to_owned_string("请输入自助服务系统密码")),
        Some(p) => Ok(Credentials { account, password: p }),
    }
}

/// What an operator binding request sends.
pub struct BindRequest {
    pub account: String,
    pub password: String,
    pub operator: String,
    pub phone: String,
    pub sms_password: String,
}

/// An 11-digit phone number.
pub open spec fn is_phone_number(p: Seq<char>) -> bool {
    utf8_len(p) == 11 && forall|i: int| 0 <= i < p.len() ==> is_ascii_digit(#[trigger] p[i])
}

/// Why a binding request is refused, if it is: account, gate, password,
/// then an 11-digit phone number and a non-empty operator password (all
/// fields trimmed).
pub open spec fn bind_error(
    account: Seq<char>,
    incoming: Seq<char>,
    saved: Seq<char>,
    gate: Option<Seq<char>>,
    phone: Seq<char>,
    sms_password: Seq<char>,
) -> Option<Seq<char>> {
    if gated_error(account, incoming, saved, gate) is Some {
        gated_error(account, incoming, saved, gate)
    } else if !is_phone_number(trim(phone)) {
        Some("请输入 11 位手机号"@)
    } else if trim(sms_password).len() == 0 {
        Some("请输入运营商账户密码"@)
    } else {
        None
    }
}

fn all_ascii_digits(s: &str) -> (r: bool)
    ensures
        r == forall|i: int| 0 <= i < s@.len() ==> is_ascii_digit(#[trigger] s@[i]),
{
    let v = chars_of(s);
    let mut i: usize = 0;
    while i < v.len()
        invariant
            v@ == s@,
            i <= v.len(),
            forall|k: int| 0 <= k < i ==> is_ascii_digit(#[trigger] v@[k]),
        decreases v.len() - i,
    {
        if !char_is_ascii_digit(v[i]) {
            return false;
        }
        i = i + 1;
    }
    true
}

/// The checks before an operator binding request (see `bind_error`); the
/// request carries every field trimmed and the password to send.
pub fn check_bind_operator(
    account: &str,
    password: &str,
    operator: &str,
    phone: &str,
    sms_password: &str,
    settings: &Settings,
    gate: Option<String>,
) -> (r: Result<BindRequest, String>)
    ensures
        ({
            let g = match gate {
                Some(s) => Some(s@),
                None => None,
            };
            match bind_error(account@, password@, settings.self_password@, g, phone@, sms_password@) {
                Some(m) => r matches Err(e) && e@ == m,
                None => r matches Ok(b) && b.account@ == trim(account@) && Some(b.password@)
                    == spec_self_password(password@, settings.self_password@) && b.operator@ == trim(
                    operator@,
                ) && b.phone@ == trim(phone@) && b.sms_password@ == trim(sms_password@),
            }
        }),
{
    let account = trim_str(account);
    let operator = trim_str(operator);
    let phone = trim_str(phone);
    let sms_password = trim_str(sms_password);
    if account.as_str().is_empty() {
        return Err(to_owned_string("请输入学号"));
    }
    if let Some(msg) = gate {
        return Err(msg);
    }
    let p = match resolve_self_password(password, settings) {
        None => return Err(to_owned_string("请输入自助服务系统密码")),
        Some(p) => p,
    };
    let pv = chars_of(phone.as_str());
    if crate::text::utf8_len_exceeds(&pv, 11) || !crate::text::utf8_len_exceeds(&pv, 10) || !all_ascii_digits(
        phone.as_str(),
    ) {
        return Err(to_owned_string("请输入 11 位手机号"));
    }
    if sms_password.as_str().is_empty() {
        return Err(to_owned_string("请输入运营商账户密码"));
    }
    Ok(BindRequest { account, password: p, operator, phone, sms_password })
}

/// With the biometric switch on, a request that changes something never
/// goes through on a gate that was never passed.
pub proof fn law_unverified_requests_are_stopped(account: Seq<char>, incoming: Seq<char>, saved: Seq<char>)
    requires
        trim(account).len() > 0,
    ensures
        gated_error(account, incoming, saved, gate_message(true, verified_recently(0, 0))) == Some(
            IDENTITY_EXPIRED@,
        ),
{
}

} // verus!
