//! Reading the portal page: whether the client is logged in, judged only
//! from page content (never by trying credentials), and the status reported
//! for each outcome.

use vstd::prelude::*;
use crate::text::{
    chars_of, contains, has_prefix, has_substr, starts_with, to_owned_string, utf8_len,
    char_utf8_width, lemma_utf8_len_push, parse_unsigned, parses_unsigned, unsigned_digits,
    digits_value,
};
use crate::net::{
    IpValue, ip_of, parse_ip, url_port, url_with_port, url_serialized, parse_url_port, set_url_port,
    serialize_url,
};
use crate::text::{concat2, string_from_chars};

verus! {

/// Page marker shown when logged in.
pub const PAGE_INDICATOR_LOGOUT: &'static str = "Dr.COMWebLoginID_1";
/// Page markers shown when logged out.
pub const PAGE_INDICATOR_LOGIN_0: &'static str = "Dr.COMWebLoginID_0";
pub const PAGE_INDICATOR_LOGIN_2: &'static str = "Dr.COMWebLoginID_2";
/// Page titles of the logout page (logged in) and the login page.
pub const PAGE_TITLE_LOGOUT: &'static str = "<title>注销页</title>";
pub const PAGE_TITLE_LOGIN: &'static str = "<title>登录页</title>";

/// The status of the portal as reported to the front end.
#[derive(Debug, Clone)]
pub struct PortalStatus {
    pub reachable: bool,
    pub login_available: bool,
    pub online: bool,
    pub message: String,
    pub data_length: usize,
    pub error_kind: Option<String>,
}

/// What the page content says about the login state.
#[derive(Debug, Clone, Copy, PartialEq, Eq, Structural)]
pub enum PageCheckResult {
    /// The page says logged in (`true`) or logged out (`false`).
    Determined(bool),
    /// The page matches no known marker.
    Unknown,
    /// The page could not be fetched.
    Failed,
}

// ---------------------------------------------------------------------------
// Specifications
// ---------------------------------------------------------------------------

/// Byte offset at which the `j`-th character of `s` starts.
pub open spec fn start_offset(s: Seq<char>, j: int) -> nat {
    utf8_len(s.take(j))
}

/// `k` is the number of leading characters of `s` that start before byte
/// `max_len` (what `safe_truncate` keeps).
pub open spec fn is_truncation_count(s: Seq<char>, max_len: nat, k: int) -> bool {
    &&& 0 <= k <= s.len()
    &&& forall|j: int| 0 <= j < k ==> #[trigger] start_offset(s, j) < max_len
    &&& (k == s.len() || start_offset(s, k) >= max_len)
}

/// What `safe_truncate` keeps of `s`: the characters that start before
/// byte `max_len`.
pub open spec fn truncated(s: Seq<char>, max_len: nat) -> Seq<char> {
    s.take(choose|k: int| is_truncation_count(s, max_len, k))
}

/// The number of characters kept is unique.
pub proof fn lemma_truncation_count_unique(s: Seq<char>, max_len: nat, k1: int, k2: int)
    requires
        is_truncation_count(s, max_len, k1),
        is_truncation_count(s, max_len, k2),
    ensures
        k1 == k2,
{
    if k1 < k2 {
        assert(start_offset(s, k1) < max_len);
    } else if k2 < k1 {
        assert(start_offset(s, k2) < max_len);
    }
}

pub open spec fn session_has_uid(h: Seq<char>) -> bool {
    has_substr(h, "uid='"@) && !has_substr(h, "uid=''"@)
}

pub open spec fn session_has_v4ip(h: Seq<char>) -> bool {
    has_substr(h, "v4ip='"@) && !has_substr(h, "v4ip='0."@) && !has_substr(h, "v4ip=''"@)
}

pub open spec fn session_has_oltime(h: Seq<char>) -> bool {
    has_substr(h, "oltime="@) && !has_substr(h, "oltime=0"@)
}

/// A user session shows on the page: a non-empty uid, or an address that
/// is not 0.x together with a non-zero online time.
pub open spec fn spec_has_user_session(h: Seq<char>) -> bool {
    session_has_uid(h) || (session_has_v4ip(h) && session_has_oltime(h))
}

/// The outcome for a page: the first known marker found decides, in this
/// order (logout marker, logout title, login markers, login title); then a
/// visible user session means logged in; otherwise unknown.
pub open spec fn spec_analyze_page(h: Seq<char>) -> PageCheckResult {
    if has_substr(h, PAGE_INDICATOR_LOGOUT@) {
        PageCheckResult::Determined(true)
    } else if has_substr(h, PAGE_TITLE_LOGOUT@) {
        PageCheckResult::Determined(true)
    } else if has_substr(h, PAGE_INDICATOR_LOGIN_0@) {
        PageCheckResult::Determined(false)
    } else if has_substr(h, PAGE_INDICATOR_LOGIN_2@) {
        PageCheckResult::Determined(false)
    } else if has_substr(h, PAGE_TITLE_LOGIN@) {
        PageCheckResult::Determined(false)
    } else if spec_has_user_session(h) {
        PageCheckResult::Determined(true)
    } else {
        PageCheckResult::Unknown
    }
}

/// Index of the first `.` in `s` (its length if there is none).
pub open spec fn first_dot(s: Seq<char>) -> int
    decreases s.len(),
{
    if s.len() == 0 {
        0
    } else if s[0] == '.' {
        0
    } else {
        1 + first_dot(s.drop_first())
    }
}

/// The value of the first dot-separated field of `s`, if it is a valid
/// `u8` literal.
pub open spec fn first_field_u8(s: Seq<char>) -> Option<nat> {
    let f = s.take(first_dot(s));
    if parses_unsigned(f, 255) {
        Some(digits_value(unsigned_digits(f)))
    } else {
        None
    }
}

/// The address text lies in a NAT/private range: 10.*, 192.168.*,
/// 169.254.*, 172.16-31.*, or 100.64-127.* (the second field read as an
/// 8-bit number).
pub open spec fn spec_is_nat_private_ip(ip: Seq<char>) -> bool {
    ||| has_prefix(ip, "10."@)
    ||| has_prefix(ip, "192.168."@)
    ||| has_prefix(ip, "169.254."@)
    ||| (has_prefix(ip, "172."@) && match first_field_u8(ip.skip(4)) {
        Some(o) => 16 <= o <= 31,
        None => false,
    })
    ||| (has_prefix(ip, "100."@) && match first_field_u8(ip.skip(4)) {
        Some(o) => 64 <= o <= 127,
        None => false,
    })
}

/// The status reported when the page decides the login state.
pub open spec fn is_determined_status(s: PortalStatus, online: bool) -> bool {
    &&& s.reachable
    &&& s.login_available == !online
    &&& s.online == online
    &&& s.message@ == (if online {
        "已在线"@
    } else {
        "未登录"@
    })
    &&& s.data_length == 0
    &&& s.error_kind is None
}

/// The status reported when the page does not decide the login state: the
/// user must check by hand; no login is attempted.
pub open spec fn is_manual_check_status(s: PortalStatus) -> bool {
    &&& s.reachable
    &&& s.login_available
    &&& !s.online
    &&& s.message@ == "Portal 页面无法判断登录状态，请手动确认"@
    &&& s.data_length == 0
    &&& s.error_kind matches Some(k) && k@ == "need_manual_check"@
}

/// The status reported when the page cannot be fetched.
pub open spec fn is_request_failed_status(s: PortalStatus) -> bool {
    &&& !s.reachable
    &&& !s.login_available
    &&& !s.online
    &&& s.message@ == "Portal页面请求失败"@
    &&& s.data_length == 0
    &&& s.error_kind matches Some(k) && k@ == "request_failed"@
}

// ---------------------------------------------------------------------------
// Implementation
// ---------------------------------------------------------------------------

/// Width in bytes of the UTF-8 encoding of `c` (`char::len_utf8`).
pub fn char_len_utf8(c: char) -> (r: usize)
    ensures
        r == char_utf8_width(c),
{
    if (c as u32) < 0x80 {
        1
    } else if (c as u32) < 0x800 {
        2
    } else if (c as u32) < 0x10000 {
        3
    } else {
        4
    }
}

/// Cuts `s` for logging: keeps every character that starts before byte
/// `max_len` (a character straddling the limit is kept whole, so the cut is
/// always on a character boundary).
pub fn safe_truncate(s: &str, max_len: usize) -> (r: &str)
    ensures
        exists|k: int| is_truncation_count(s@, max_len as nat, k) && r@ == s@.take(k),
        r@ == truncated(s@, max_len as nat),
{
    let v = chars_of(s);
    let mut k: usize = 0;
    let mut offset: usize = 0;
    while k < v.len() && offset < max_len
        invariant
            v@ == s@,
            k <= v.len(),
            offset as nat == start_offset(s@, k as int),
            forall|j: int| 0 <= j < k ==> #[trigger] start_offset(s@, j) < max_len,
        decreases v.len() - k,
    {
        let w = char_len_utf8(v[k]);
        proof {
            assert(s@.take(k + 1) =~= s@.take(k as int).push(v@[k as int]));
            lemma_utf8_len_push(s@.take(k as int), v@[k as int]);
        }
        if w >= max_len - offset {
            // the next character starts at or beyond max_len
            k = k + 1;
            assert(start_offset(s@, k as int) >= max_len);
            let r = s.substring_char(0, k);
            assert(s@.subrange(0, k as int) =~= s@.take(k as int));
            proof {
                assert(is_truncation_count(s@, max_len as nat, k as int));
                lemma_truncation_count_unique(s@, max_len as nat, k as int,
                    choose|j: int| is_truncation_count(s@, max_len as nat, j));
            }
            return r;
        }
        offset = offset + w;
        k = k + 1;
    }
    let r = s.substring_char(0, k);
    assert(s@.subrange(0, k as int) =~= s@.take(k as int));
    proof {
        assert(is_truncation_count(s@, max_len as nat, k as int));
        lemma_truncation_count_unique(s@, max_len as nat, k as int,
            choose|j: int| is_truncation_count(s@, max_len as nat, j));
    }
    r
}

/// The status for a page that decides the login state.
pub fn build_determined_status(online: bool) -> (r: PortalStatus)
    ensures
        is_determined_status(r, online),
{
    PortalStatus {
        reachable: true,
        login_available: !online,
        online,
        message: if online {
            to_owned_string("已在线")
        } else {
            to_owned_string("未登录")
        },
        data_length: 0,
        error_kind: None,
    }
}

/// The status for a page that does not decide the login state. Probing is
/// read-only: no credentials are sent, the user is asked to check.
pub fn handle_unknown_page_status(adapter_name: Option<&str>, adapter_ip: &str) -> (r: PortalStatus)
    ensures
        is_manual_check_status(r),
{
    PortalStatus {
        reachable: true,
        login_available: true,
        online: false,
        message: to_owned_string("Portal 页面无法判断登录状态，请手动确认"),
        data_length: 0,
        error_kind: Some(to_owned_string("need_manual_check")),
    }
}

/// The status for a page request that failed.
pub fn build_request_failed_status() -> (r: PortalStatus)
    ensures
        is_request_failed_status(r),
{
    PortalStatus {
        reachable: false,
        login_available: false,
        online: false,
        message: to_owned_string("Portal页面请求失败"),
        data_length: 0,
        error_kind: Some(to_owned_string("request_failed")),
    }
}

/// The adapter's address, if it is given and parses.
pub fn parse_adapter_ip(adapter_ip: &str) -> (r: Option<IpValue>)
    ensures
        r == (if adapter_ip@.len() == 0 {
            None
        } else {
            ip_of(adapter_ip@)
        }),
{
    if !adapter_ip.is_empty() {
        parse_ip(adapter_ip)
    } else {
        None
    }
}

/// Index of the first `.` in `v[from..]`, relative to `from`.
fn first_dot_from(v: &Vec<char>, from: usize) -> (r: usize)
    requires
        from <= v.len(),
    ensures
        r == first_dot(v@.skip(from as int)),
        from + r <= v.len(),
{
    let mut i = from;
    while i < v.len() && v[i] != '.'
        invariant
            from <= i <= v.len(),
            first_dot(v@.skip(from as int)) == (i - from) + first_dot(v@.skip(i as int)),
        decreases v.len() - i,
    {
        assert(v@.skip(i as int).drop_first() =~= v@.skip(i + 1));
        i = i + 1;
    }
    i - from
}

/// Whether the address text lies in a NAT/private range (see
/// `spec_is_nat_private_ip`).
pub fn is_nat_private_ip(ip: &str) -> (r: bool)
    ensures
        r == spec_is_nat_private_ip(ip@),
{
    if starts_with(ip, "10.") {
        return true;
    }
    if starts_with(ip, "192.168.") || starts_with(ip, "169.254.") {
        return true;
    }
    let v = chars_of(ip);
    proof {
        reveal_strlit("172.");
        reveal_strlit("100.");
        if has_prefix(ip@, "172."@) && has_prefix(ip@, "100."@) {
            assert(ip@[1] == "172."@[1]);
            assert(ip@[1] == "100."@[1]);
        }
    }
    if starts_with(ip, "172.") {
        let d = first_dot_from(&v, 4);
        assert(v@.subrange(4, 4 + d as int) =~= v@.skip(4).take(d as int));
        match parse_unsigned(&v, 4, 4 + d, 255) {
            Some(o) => {
                return 16 <= o && o <= 31;
            },
            None => {},
        }
    }
    if starts_with(ip, "100.") {
        let d = first_dot_from(&v, 4);
        assert(v@.subrange(4, 4 + d as int) =~= v@.skip(4).take(d as int));
        match parse_unsigned(&v, 4, 4 + d, 255) {
            Some(o) => {
                return 64 <= o && o <= 127;
            },
            None => {},
        }
    }
    false
}

/// Whether the page shows a user session (see `spec_has_user_session`).
pub fn has_user_session_indicators(html: &str) -> (r: bool)
    ensures
        r == spec_has_user_session(html@),
{
    let has_uid = contains(html, "uid='") && !contains(html, "uid=''");
    let has_v4ip = contains(html, "v4ip='") && !contains(html, "v4ip='0.") && !contains(html, "v4ip=''");
    let has_oltime = contains(html, "oltime=") && !contains(html, "oltime=0");
    has_uid || (has_v4ip && has_oltime)
}

/// The login state the page content shows (see `spec_analyze_page`).
pub fn analyze_portal_page_content(html: &str) -> (r: PageCheckResult)
    ensures
        r == spec_analyze_page(html@),
{
    if contains(html, PAGE_INDICATOR_LOGOUT) {
        return PageCheckResult::Determined(true);
    }
    if contains(html, PAGE_TITLE_LOGOUT) {
        return PageCheckResult::Determined(true);
    }
    if contains(html, PAGE_INDICATOR_LOGIN_0) {
        return PageCheckResult::Determined(false);
    }
    if contains(html, PAGE_INDICATOR_LOGIN_2) {
        return PageCheckResult::Determined(false);
    }
    if contains(html, PAGE_TITLE_LOGIN) {
        return PageCheckResult::Determined(false);
    }
    if has_user_session_indicators(html) {
        return PageCheckResult::Determined(true);
    }
    PageCheckResult::Unknown
}

/// The portal status from the fetched page (`None` when the request or the
/// read failed): a deciding page gives the determined status, an undecided
/// one asks for a manual check, a failed fetch reports the failure.
pub fn check_portal_full(page_html: Option<&str>) -> (r: PortalStatus)
    ensures
        match page_html {
            None => is_request_failed_status(r),
            Some(h) => match spec_analyze_page(h@) {
                PageCheckResult::Determined(online) => is_determined_status(r, online),
                _ => is_manual_check_status(r),
            },
        },
{
    match page_html {
        None => build_request_failed_status(),
        Some(html) => match analyze_portal_page_content(html) {
            PageCheckResult::Determined(online) => build_determined_status(online),
            _ => handle_unknown_page_status(None, ""),
        },
    }
}

/// A probe never reports "online" without the page saying so: the manual
/// check and failure statuses are both offline.
pub proof fn law_undecided_page_is_not_online(s: PortalStatus)
    requires
        is_manual_check_status(s) || is_request_failed_status(s),
    ensures
        !s.online,
{
}

/// The logged-in markers win over everything that follows them: a page
/// holding the logout marker is read as logged in whatever else it holds.
pub proof fn law_logout_marker_decides(h: Seq<char>)
    requires
        has_substr(h, PAGE_INDICATOR_LOGOUT@),
    ensures
        spec_analyze_page(h) == PageCheckResult::Determined(true),
{
}

// ---------------------------------------------------------------------------
// Portal port
// ---------------------------------------------------------------------------

/// The port the portal listens on when its address names none.
pub const DEFAULT_PORTAL_PORT: u16 = 801;

/// `s` without trailing `/` (`trim_end_matches('/')`).
pub open spec fn trim_end_slashes(s: Seq<char>) -> Seq<char>
    decreases s.len(),
{
    if s.len() > 0 && s.last() == '/' {
        trim_end_slashes(s.drop_last())
    } else {
        s
    }
}

/// The portal base with its port: the address (trailing `/` removed) as the
/// URL parser writes it, with port 801 added when it names none; an address
/// the parser refuses gets `:801` appended as it stands.
pub open spec fn spec_ensure_portal_port(base: Seq<char>) -> Seq<char> {
    let t = trim_end_slashes(base);
    let fallback = t + ":801"@;
    match url_port(t) {
        None => fallback,
        Some(None) => match url_with_port(t, DEFAULT_PORTAL_PORT) {
            Some(x) => trim_end_slashes(x),
            None => fallback,
        },
        Some(Some(_)) => match url_serialized(t) {
            Some(x) => trim_end_slashes(x),
            None => fallback,
        },
    }
}

fn trim_end_slashes_of(s: &str) -> (r: String)
    ensures
        r@ == trim_end_slashes(s@),
{
    let v = chars_of(s);
    let mut n = v.len();
    assert(v@.take(n as int) =~= v@);
    while n > 0 && v[n - 1] == '/'
        invariant
            n <= v.len(),
            trim_end_slashes(v@) == trim_end_slashes(v@.take(n as int)),
        decreases n,
    {
        assert(v@.take(n as int).drop_last() =~= v@.take(n - 1));
        n = n - 1;
    }
    assert(v@.subrange(0, n as int) =~= v@.take(n as int));
    string_from_chars(&v, 0, n)
}

/// The portal base with its port (see `spec_ensure_portal_port`).
pub fn ensure_portal_port(base: &str) -> (r: String)
    ensures
        r@ == spec_ensure_portal_port(base@),
{
    let t = trim_end_slashes_of(base);
    match parse_url_port(t.as_str()) {
        None => concat2(t.as_str(), ":801"),
        Some(None) => match set_url_port(t.as_str(), DEFAULT_PORTAL_PORT) {
            Some(x) => trim_end_slashes_of(x.as_str()),
            None => concat2(t.as_str(), ":801"),
        },
        Some(Some(_)) => match serialize_url(t.as_str()) {
            Some(x) => trim_end_slashes_of(x.as_str()),
            None => concat2(t.as_str(), ":801"),
        },
    }
}

} // verus!
