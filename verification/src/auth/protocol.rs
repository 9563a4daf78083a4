//! The portal's login/logout protocol: request URLs, extraction of the JSON
//! object from a JSONP reply, and the interpretation of login and logout
//! replies.

use vstd::prelude::*;
use vstd::string::StringExecFns;
use vstd::utf8::encode_utf8;
use crate::text::{chars_of, concat2, contains, decimal, has_prefix, has_substr, to_owned_string, trim_start, trim_start_index_of, u64_to_decimal};
use crate::auth::portal::{truncated, safe_truncate};
use crate::clock::epoch_nanos;

verus! {

// ---------------------------------------------------------------------------
// Outcome of a login or logout attempt
// ---------------------------------------------------------------------------

/// What a login or logout attempt came to, in the shape sent to the front
/// end (`code`, `message`, `success`, `retryable`).
#[derive(Debug, Clone)]
pub struct LoginOutcome {
    pub code: String,
    pub message: String,
    pub success: bool,
    /// Whether trying again may help; `None` when the result does not say
    /// (the callers read it as "no" when handing it on, "yes" inside the
    /// retry loop).
    pub retryable: Option<bool>,
}

impl View for LoginOutcome {
    type V = (Seq<char>, Seq<char>, bool, Option<bool>);

    open spec fn view(&self) -> (Seq<char>, Seq<char>, bool, Option<bool>) {
        (self.code@, self.message@, self.success, self.retryable)
    }
}

fn outcome(code: &str, message: &str, success: bool, retryable: bool) -> (r: LoginOutcome)
    ensures
        r@ == (code@, message@, success, Some(retryable)),
{
    LoginOutcome {
        code: to_owned_string(code),
        message: to_owned_string(message),
        success,
        retryable: Some(retryable),
    }
}

fn outcome_owned(code: String, message: String, success: bool, retryable: bool) -> (r: LoginOutcome)
    ensures
        r@ == (code@, message@, success, Some(retryable)),
{
    LoginOutcome { code, message, success, retryable: Some(retryable) }
}

fn outcome_unsaid(code: &str, message: &str, success: bool) -> (r: LoginOutcome)
    ensures
        r@ == (code@, message@, success, None::<bool>),
{
    LoginOutcome { code: to_owned_string(code), message: to_owned_string(message), success, retryable: None }
}

// ---------------------------------------------------------------------------
// Request token
// ---------------------------------------------------------------------------

/// The request token for a seed: `1000 + seed % 9000` in decimal.
pub open spec fn request_token(seed: u64) -> Seq<char> {
    decimal((1000 + seed % 9000) as nat)
}

/// The request token for a seed (see `request_token`).
pub fn random_v_from_seed(seed: u64) -> (r: String)
    ensures
        r@ == request_token(seed),
{
    u64_to_decimal(1000 + seed % 9000)
}

/// A four-digit request token derived from the clock.
pub fn random_v() -> (r: String)
    ensures
        exists|seed: u64| #[trigger] request_token(seed) == r@,
{
    random_v_from_seed(epoch_nanos())
}

// ---------------------------------------------------------------------------
// JSONP extraction
// ---------------------------------------------------------------------------

/// Index of the first `c` in `s` at or after `from`.
pub open spec fn find_char_from(s: Seq<char>, c: char, from: int) -> Option<int>
    decreases s.len() - from,
{
    if from < 0 || from >= s.len() {
        None
    } else if s[from] == c {
        Some(from)
    } else {
        find_char_from(s, c, from + 1)
    }
}

/// Scans `s` from `i` with the brace-balance state (`depth`, inside a
/// string, after a backslash in a string) and gives the index of the `}`
/// that closes the outermost object, if any.
pub open spec fn scan_object_end(s: Seq<char>, i: int, depth: int, in_string: bool, escaped: bool) -> Option<int>
    decreases s.len() - i,
{
    if i < 0 || i >= s.len() {
        None
    } else if in_string {
        if escaped {
            scan_object_end(s, i + 1, depth, true, false)
        } else if s[i] == '\\' {
            scan_object_end(s, i + 1, depth, true, true)
        } else if s[i] == '"' {
            scan_object_end(s, i + 1, depth, false, false)
        } else {
            scan_object_end(s, i + 1, depth, true, false)
        }
    } else if s[i] == '"' {
        scan_object_end(s, i + 1, depth, true, false)
    } else if s[i] == '{' {
        scan_object_end(s, i + 1, depth + 1, false, false)
    } else if s[i] == '}' {
        if depth - 1 == 0 {
            Some(i)
        } else {
            scan_object_end(s, i + 1, depth - 1, false, false)
        }
    } else {
        scan_object_end(s, i + 1, depth, false, false)
    }
}

/// The part of a JSONP reply handed to the JSON parser: from the first `{`
/// after the first `(` to the `}` that balances it (quotes and escapes
/// respected); the whole reply when there is no such object.
pub open spec fn spec_jsonp_slice(s: Seq<char>) -> Seq<char> {
    match find_char_from(s, '(', 0) {
        None => s,
        Some(open) => match find_char_from(s, '{', open) {
            None => s,
            Some(start) => match scan_object_end(s, start, 0, false, false) {
                None => s,
                Some(end) => s.subrange(start, end + 1),
            },
        },
    }
}

fn find_char(v: &Vec<char>, c: char, from: usize) -> (r: Option<usize>)
    ensures
        r is None ==> find_char_from(v@, c, from as int) is None,
        r matches Some(i) ==> find_char_from(v@, c, from as int) == Some(i as int),
        r matches Some(i) ==> from <= i < v.len() && v@[i as int] == c,
{
    let mut i = from;
    while i < v.len()
        invariant
            from <= i,
            find_char_from(v@, c, from as int) == find_char_from(v@, c, i as int),
        decreases v.len() - i,
    {
        if v[i] == c {
            return Some(i);
        }
        i = i + 1;
    }
    None
}

fn scan_end(v: &Vec<char>, start: usize) -> (r: Option<usize>)
    requires
        start < v.len(),
        v@[start as int] == '{',
    ensures
        r is None ==> scan_object_end(v@, start as int, 0, false, false) is None,
        r matches Some(i) ==> scan_object_end(v@, start as int, 0, false, false) == Some(i as int),
        r matches Some(i) ==> start <= i < v.len(),
{
    let mut i = start;
    let mut depth: usize = 0;
    let mut in_string = false;
    let mut escaped = false;
    while i < v.len()
        invariant
            start < v.len(),
            v@[start as int] == '{',
            start <= i,
            depth <= i - start,
            i == start ==> depth == 0 && !in_string && !escaped,
            i > start ==> depth >= 1,
            escaped ==> in_string,
            scan_object_end(v@, start as int, 0, false, false) == scan_object_end(
                v@,
                i as int,
                depth as int,
                in_string,
                escaped,
            ),
        decreases v.len() - i,
    {
        let b = v[i];
        let ghost (d0, s0, e0) = (depth as int, in_string, escaped);
        assert(scan_object_end(v@, i as int, d0, s0, e0) == if s0 {
            if e0 {
                scan_object_end(v@, i + 1, d0, true, false)
            } else if b == '\\' {
                scan_object_end(v@, i + 1, d0, true, true)
            } else if b == '"' {
                scan_object_end(v@, i + 1, d0, false, false)
            } else {
                scan_object_end(v@, i + 1, d0, true, false)
            }
        } else if b == '"' {
            scan_object_end(v@, i + 1, d0, true, false)
        } else if b == '{' {
            scan_object_end(v@, i + 1, d0 + 1, false, false)
        } else if b == '}' {
            if d0 - 1 == 0 {
                Some(i as int)
            } else {
                scan_object_end(v@, i + 1, d0 - 1, false, false)
            }
        } else {
            scan_object_end(v@, i + 1, d0, false, false)
        });
        if in_string {
            if escaped {
                escaped = false;
            } else if b == '\\' {
                escaped = true;
            } else if b == '"' {
                in_string = false;
            }
        } else if b == '"' {
            in_string = true;
        } else if b == '{' {
            depth = depth + 1;
        } else if b == '}' {
            if depth == 1 {
                return Some(i);
            }
            depth = depth - 1;
        }
        i = i + 1;
    }
    None
}

/// Extracts the first complete JSON object of a JSONP reply (see
/// `spec_jsonp_slice`); a reply that is not JSONP is returned whole.
pub fn jsonp_json_slice(response: &str) -> (r: &str)
    ensures
        r@ == spec_jsonp_slice(response@),
{
    let v = chars_of(response);
    let open = match find_char(&v, '(', 0) {
        None => return response,
        Some(o) => o,
    };
    let start = match find_char(&v, '{', open) {
        None => return response,
        Some(s) => s,
    };
    assert(find_char_from(response@, '(', 0) == Some(open as int));
    assert(find_char_from(response@, '{', open as int) == Some(start as int));
    match scan_end(&v, start) {
        None => response,
        Some(end) => {
            assert(scan_object_end(response@, start as int, 0, false, false) == Some(end as int));
            response.substring_char(start, end + 1)
        },
    }
}


// ---------------------------------------------------------------------------
// Numbers in messages
// ---------------------------------------------------------------------------

/// Decimal rendering of a signed integer (a minus sign for negatives).
pub open spec fn signed_decimal(x: int) -> Seq<char> {
    if x < 0 {
        "-"@ + decimal((-x) as nat)
    } else {
        decimal(x as nat)
    }
}

/// `x.to_string()` for an `i64`.
pub fn i64_to_decimal(x: i64) -> (r: String)
    ensures
        r@ == signed_decimal(x as int),
{
    if x < 0 {
        let m: u64 = ((-(x + 1)) as u64) + 1;
        let d = u64_to_decimal(m);
        concat2("-", d.as_str())
    } else {
        u64_to_decimal(x as u64)
    }
}

// ---------------------------------------------------------------------------
// JSON reply fields
// ---------------------------------------------------------------------------

/// What `serde_json` makes of a reply: `None` when it is not JSON,
/// otherwise its `result` member read as an `i64` (if it is one) and its
/// `msg` member read as a string (if it is one).
pub uninterp spec fn json_result_msg(s: Seq<char>) -> Option<(Option<i64>, Option<Seq<char>>)>;

pub open spec fn fields_view(f: Option<(Option<i64>, Option<String>)>) -> Option<
    (Option<i64>, Option<Seq<char>>),
> {
    match f {
        None => None,
        Some((r, m)) => Some(
            (
                r,
                match m {
                    Some(x) => Some(x@),
                    None => None,
                },
            ),
        ),
    }
}

/// Parses `s` with `serde_json::from_str::<Value>` and reads the `result`
/// and `msg` members (`Value::as_i64`, `Value::as_str`). The contract says
/// only that the outcome is the named function of the input.
#[verifier::external_body]
fn parse_json_result_msg(s: &str) -> (r: Option<(Option<i64>, Option<String>)>)
    ensures
        fields_view(r) == json_result_msg(s@),
{
    match serde_json::from_str::<serde_json::Value>(s) {
        Ok(v) => Some(
            (
                v.get("result").and_then(|x| x.as_i64()),
                v.get("msg").and_then(|x| x.as_str()).map(|m| m.to_string()),
            ),
        ),
        Err(_) => None,
    }
}

// ---------------------------------------------------------------------------
// Interpretation of replies
// ---------------------------------------------------------------------------

pub open spec fn or_default(msg: Seq<char>, d: Seq<char>) -> Seq<char> {
    if msg.len() == 0 {
        d
    } else {
        msg
    }
}

/// The message reports a refusal (illegal, failed, wrong, refused).
pub open spec fn has_failure_word(msg: Seq<char>) -> bool {
    has_substr(msg, "非法"@) || has_substr(msg, "失败"@) || has_substr(msg, "错误"@) || has_substr(
        msg,
        "拒绝"@,
    )
}

/// The reply looks like an HTML page.
pub open spec fn looks_like_html(response: Seq<char>) -> bool {
    let t = trim_start(response);
    has_prefix(t, "<!"@) || has_prefix(t, "<html"@) || has_prefix(t, "<HTML"@)
}

pub open spec fn result_code(f: (Option<i64>, Option<Seq<char>>)) -> int {
    match f.0 {
        Some(x) => x as int,
        None => -1,
    }
}

pub open spec fn result_msg(f: (Option<i64>, Option<Seq<char>>)) -> Seq<char> {
    match f.1 {
        Some(m) => m,
        None => ""@,
    }
}

/// The interpretation of a login reply from its parsed fields (`None`:
/// not JSON) and its raw text.
pub open spec fn spec_login_outcome(
    fields: Option<(Option<i64>, Option<Seq<char>>)>,
    response: Seq<char>,
) -> (Seq<char>, Seq<char>, bool, Option<bool>) {
    match fields {
        None => if looks_like_html(response) {
            ("parse_error"@, "Portal返回非预期格式(HTML)，请稍后重试"@, false, Some(false))
        } else {
            ("parse_error"@, "无法解析登录响应"@, false, Some(true))
        },
        Some(f) => {
            let result = result_code(f);
            let msg = result_msg(f);
            if result == 0 {
                if has_substr(msg, "已经在线"@) {
                    ("0"@, msg, true, Some(false))
                } else if has_substr(msg, "认证成功"@) {
                    ("0"@, "登录成功"@, true, Some(false))
                } else if has_substr(msg, "AC认证失败"@) {
                    ("ac_auth_failed"@, "认证失败："@ + msg, false, Some(false))
                } else {
                    ("unknown_failure"@, or_default(msg, "未识别的登录响应"@), false, Some(false))
                }
            } else if result == 1 {
                if has_failure_word(msg) {
                    ("1"@, msg, false, Some(false))
                } else {
                    ("0"@, or_default(msg, "Portal协议认证成功"@), true, Some(false))
                }
            } else if result == 2 {
                if has_substr(msg, "已经在线"@) {
                    ("2"@, or_default(msg, "已在线"@), true, Some(false))
                } else {
                    ("2"@, or_default(msg, "已在线（IP冲突或重复登录）"@), false, Some(false))
                }
            } else if result == 3 {
                ("3"@, or_default(msg, "流量超限"@), false, Some(false))
            } else if result == 4 {
                ("4"@, or_default(msg, "账号被禁用"@), false, Some(false))
            } else {
                (
                    signed_decimal(result),
                    or_default(msg, "未知响应码: "@ + signed_decimal(result)),
                    false,
                    Some(true),
                )
            }
        },
    }
}

/// The reply names a completed logout.
pub open spec fn mentions_logout_done(response: Seq<char>) -> bool {
    has_substr(response, "注销成功"@) || has_substr(response, "下线成功"@) || has_substr(
        response,
        "已下线"@,
    )
}

/// The interpretation of a logout reply from its parsed fields (`None`:
/// not JSON) and its raw text.
pub open spec fn spec_logout_outcome(
    fields: Option<(Option<i64>, Option<Seq<char>>)>,
    response: Seq<char>,
) -> (Seq<char>, Seq<char>, bool, Option<bool>) {
    match fields {
        None => if looks_like_html(response) {
            if mentions_logout_done(response) || has_substr(response, "logout"@) {
                ("0"@, "注销成功"@, true, Some(false))
            } else {
                ("parse_error"@, "Portal返回非预期格式(HTML)，请稍后重试"@, false, Some(false))
            }
        } else if mentions_logout_done(response) || has_substr(response, "解绑成功"@) {
            ("0"@, "注销成功"@, true, Some(false))
        } else {
            ("parse_error"@, "无法解析注销响应: "@ + truncated(response, 200), false, Some(true))
        },
        Some(f) => {
            let result = result_code(f);
            let msg = result_msg(f);
            if result == 0 {
                if has_substr(msg, "解绑终端MAC成功"@) {
                    ("0"@, "注销成功"@, true, Some(false))
                } else if has_substr(msg, "获取用户在线信息数据为空"@) {
                    ("0"@, "当前无在线设备"@, true, Some(false))
                } else if has_failure_word(msg) {
                    ("0"@, msg, false, Some(false))
                } else {
                    ("0"@, or_default(msg, "操作完成"@), true, Some(false))
                }
            } else if result == 1 {
                if has_failure_word(msg) {
                    ("1"@, msg, false, Some(false))
                } else {
                    ("1"@, or_default(msg, "注销成功"@), true, Some(false))
                }
            } else {
                (
                    signed_decimal(result),
                    or_default(msg, "注销失败，响应码: "@ + signed_decimal(result)),
                    false,
                    Some(true),
                )
            }
        },
    }
}

fn msg_has_failure_word(msg: &str) -> (r: bool)
    ensures
        r == has_failure_word(msg@),
{
    contains(msg, "非法") || contains(msg, "失败") || contains(msg, "错误") || contains(msg, "拒绝")
}

fn msg_or(msg: &str, d: &str) -> (r: String)
    ensures
        r@ == or_default(msg@, d@),
{
    if msg.is_empty() {
        to_owned_string(d)
    } else {
        to_owned_string(msg)
    }
}

fn msg_or_owned(msg: &str, d: String) -> (r: String)
    ensures
        r@ == or_default(msg@, d@),
{
    if msg.is_empty() {
        d
    } else {
        to_owned_string(msg)
    }
}

/// Whether the reply looks like an HTML page (see `looks_like_html`).
pub fn response_looks_like_html(response: &str) -> (r: bool)
    ensures
        r == looks_like_html(response@),
{
    let v = chars_of(response);
    let a = trim_start_index_of(&v);
    let t = response.substring_char(a, v.len());
    assert(t@ == trim_start(response@));
    crate::text::starts_with(t, "<!") || crate::text::starts_with(t, "<html")
        || crate::text::starts_with(t, "<HTML")
}

/// Interprets a login reply from the fields the JSON parser read (`None`:
/// not JSON) and the raw reply (see `spec_login_outcome`).
pub fn login_outcome_from_fields(fields: &Option<(Option<i64>, Option<String>)>, response: &str) -> (r:
    LoginOutcome)
    ensures
        r@ == spec_login_outcome(fields_view(*fields), response@),
{
    match fields {
        None => {
            if response_looks_like_html(response) {
                outcome("parse_error", "Portal返回非预期格式(HTML)，请稍后重试", false, false)
            } else {
                outcome("parse_error", "无法解析登录响应", false, true)
            }
        },
        Some((res, m)) => {
            let result: i64 = match res {
                Some(x) => *x,
                None => -1,
            };
            let msg: &str = match m {
                Some(x) => x.as_str(),
                None => "",
            };
            if result == 0 {
                if contains(msg, "已经在线") {
                    outcome("0", msg, true, false)
                } else if contains(msg, "认证成功") {
                    outcome("0", "登录成功", true, false)
                } else if contains(msg, "AC认证失败") {
                    outcome_owned(to_owned_string("ac_auth_failed"), concat2("认证失败：", msg), false, false)
                } else {
                    outcome_owned(to_owned_string("unknown_failure"), msg_or(msg, "未识别的登录响应"), false, false)
                }
            } else if result == 1 {
                if msg_has_failure_word(msg) {
                    outcome("1", msg, false, false)
                } else {
                    outcome_owned(to_owned_string("0"), msg_or(msg, "Portal协议认证成功"), true, false)
                }
            } else if result == 2 {
                if contains(msg, "已经在线") {
                    outcome_owned(to_owned_string("2"), msg_or(msg, "已在线"), true, false)
                } else {
                    outcome_owned(to_owned_string("2"), msg_or(msg, "已在线（IP冲突或重复登录）"), false, false)
                }
            } else if result == 3 {
                outcome_owned(to_owned_string("3"), msg_or(msg, "流量超限"), false, false)
            } else if result == 4 {
                outcome_owned(to_owned_string("4"), msg_or(msg, "账号被禁用"), false, false)
            } else {
                let code = i64_to_decimal(result);
                let fallback = concat2("未知响应码: ", code.as_str());
                outcome_owned(code, msg_or_owned(msg, fallback), false, true)
            }
        },
    }
}

/// Interprets a logout reply from the fields the JSON parser read (`None`:
/// not JSON) and the raw reply (see `spec_logout_outcome`).
pub fn logout_outcome_from_fields(fields: &Option<(Option<i64>, Option<String>)>, response: &str) -> (r:
    LoginOutcome)
    ensures
        r@ == spec_logout_outcome(fields_view(*fields), response@),
{
    match fields {
        None => {
            let done = contains(response, "注销成功") || contains(response, "下线成功") || contains(
                response,
                "已下线",
            );
            if response_looks_like_html(response) {
                if done || contains(response, "logout") {
                    outcome("0", "注销成功", true, false)
                } else {
                    outcome("parse_error", "Portal返回非预期格式(HTML)，请稍后重试", false, false)
                }
            } else if done || contains(response, "解绑成功") {
                outcome("0", "注销成功", true, false)
            } else {
                let cut = safe_truncate(response, 200);
                outcome_owned(to_owned_string("parse_error"), concat2("无法解析注销响应: ", cut), false, true)
            }
        },
        Some((res, m)) => {
            let result: i64 = match res {
                Some(x) => *x,
                None => -1,
            };
            let msg: &str = match m {
                Some(x) => x.as_str(),
                None => "",
            };
            if result == 0 {
                if contains(msg, "解绑终端MAC成功") {
                    outcome("0", "注销成功", true, false)
                } else if contains(msg, "获取用户在线信息数据为空") {
                    outcome("0", "当前无在线设备", true, false)
                } else if msg_has_failure_word(msg) {
                    outcome("0", msg, false, false)
                } else {
                    outcome_owned(to_owned_string("0"), msg_or(msg, "操作完成"), true, false)
                }
            } else if result == 1 {
                if msg_has_failure_word(msg) {
                    outcome("1", msg, false, false)
                } else {
                    outcome_owned(to_owned_string("1"), msg_or(msg, "注销成功"), true, false)
                }
            } else {
                let code = i64_to_decimal(result);
                let fallback = concat2("注销失败，响应码: ", code.as_str());
                outcome_owned(code, msg_or_owned(msg, fallback), false, true)
            }
        },
    }
}

/// Interprets a login reply: the JSON object is cut out of the JSONP
/// wrapper, parsed, and judged by its `result` code and `msg` text.
pub fn parse_login_result(response: &str) -> (r: LoginOutcome)
    ensures
        r@ == spec_login_outcome(json_result_msg(spec_jsonp_slice(response@)), response@),
{
    let json_data = jsonp_json_slice(response);
    let fields = parse_json_result_msg(json_data);
    login_outcome_from_fields(&fields, response)
}

/// Interprets a logout reply (MAC unbind or Radius logout), in the same way.
pub fn parse_logout_result(response: &str) -> (r: LoginOutcome)
    ensures
        r@ == spec_logout_outcome(json_result_msg(spec_jsonp_slice(response@)), response@),
{
    let json_data = jsonp_json_slice(response);
    let fields = parse_json_result_msg(json_data);
    logout_outcome_from_fields(&fields, response)
}

// ---------------------------------------------------------------------------
// Logout summary
// ---------------------------------------------------------------------------

pub open spec fn spec_merge_logout(any_radius_ok: bool, any_unbind_ok: bool) -> Seq<char> {
    if any_radius_ok && any_unbind_ok {
        "注销成功"@
    } else if any_radius_ok {
        "Radius注销成功，MAC解绑失败"@
    } else if any_unbind_ok {
        "Radius注销失败，MAC解绑成功"@
    } else {
        "注销失败"@
    }
}

/// The logout message: the Radius logout decides success, the MAC unbind
/// is best effort and only shows in the text.
pub fn merge_logout_results(any_radius_ok: bool, any_unbind_ok: bool) -> (r: &'static str)
    ensures
        r@ == spec_merge_logout(any_radius_ok, any_unbind_ok),
{
    if any_radius_ok && any_unbind_ok {
        "注销成功"
    } else if any_radius_ok {
        "Radius注销成功，MAC解绑失败"
    } else if any_unbind_ok {
        "Radius注销失败，MAC解绑成功"
    } else {
        "注销失败"
    }
}

/// The overall result of a logout after its rounds: success and
/// retryability follow the Radius logout alone.
pub fn logout_summary(any_radius_ok: bool, any_unbind_ok: bool) -> (r: LoginOutcome)
    ensures
        r@ == (
            if any_radius_ok {
                "0"@
            } else {
                "1"@
            },
            spec_merge_logout(any_radius_ok, any_unbind_ok),
            any_radius_ok,
            Some(!any_radius_ok),
        ),
{
    let msg = merge_logout_results(any_radius_ok, any_unbind_ok);
    outcome(if any_radius_ok { "0" } else { "1" }, msg, any_radius_ok, !any_radius_ok)
}

/// The second logout round is skipped when the first one already achieved
/// both the Radius logout and the MAC unbind, or when the application is
/// quitting.
pub fn logout_needs_second_round(any_radius_ok: bool, any_unbind_ok: bool, quitting: bool) -> (r: bool)
    ensures
        r == (!(any_radius_ok && any_unbind_ok) && !quitting),
{
    !(any_radius_ok && any_unbind_ok) && !quitting
}

/// A login reply is only ever a success with code `0` or `2`; a reply that
/// is not JSON is never a success; a reply worth retrying is never a
/// success.
pub proof fn law_login_outcome_consistency(fields: Option<(Option<i64>, Option<Seq<char>>)>, response: Seq<char>)
    ensures
        spec_login_outcome(fields, response).2 ==> (spec_login_outcome(fields, response).0 == "0"@
            || spec_login_outcome(fields, response).0 == "2"@),
        fields is None ==> !spec_login_outcome(fields, response).2,
        spec_login_outcome(fields, response).3 is Some,
        spec_login_outcome(fields, response).3 == Some(true) ==> !spec_login_outcome(fields, response).2,
{
}

/// Likewise for logout replies: a reply worth retrying is never a success.
pub proof fn law_logout_outcome_consistency(fields: Option<(Option<i64>, Option<Seq<char>>)>, response: Seq<char>)
    ensures
        spec_logout_outcome(fields, response).3 is Some,
        spec_logout_outcome(fields, response).3 == Some(true) ==> !spec_logout_outcome(fields, response).2,
{
}

/// A logout never reports success without the Radius logout, and a
/// successful one is never retried.
pub proof fn law_logout_success_follows_radius(any_radius_ok: bool, any_unbind_ok: bool)
    ensures
        (if any_radius_ok {
            "0"@
        } else {
            "1"@
        }) == "0"@ ==> any_radius_ok,
{
    reveal_strlit("0");
    reveal_strlit("1");
    assert("0"@[0] != "1"@[0]);
}

// ---------------------------------------------------------------------------
// Request URLs
// ---------------------------------------------------------------------------

pub open spec fn is_unreserved_byte(b: u8) -> bool {
    (48 <= b <= 57) || (65 <= b <= 90) || (97 <= b <= 122) || b == 45 || b == 46 || b == 95 || b
        == 126
}

pub open spec fn upper_hex_digit(d: u8) -> char {
    if d < 10 {
        ((d + 48) as u8) as char
    } else {
        ((d + 55) as u8) as char
    }
}

/// Percent-encoding of a byte string: unreserved bytes (ASCII letters,
/// digits and `- . _ ~`) stay, every other byte becomes `%` and two
/// upper-case hex digits.
pub open spec fn percent_encode_bytes(bs: Seq<u8>) -> Seq<char>
    decreases bs.len(),
{
    if bs.len() == 0 {
        Seq::empty()
    } else {
        let b = bs[0];
        let head = if is_unreserved_byte(b) {
            seq![b as char]
        } else {
            seq!['%', upper_hex_digit(b / 16), upper_hex_digit(b % 16)]
        };
        head + percent_encode_bytes(bs.drop_first())
    }
}

/// `urlencoding::encode`: percent-encodes the UTF-8 bytes of `s` except
/// ASCII letters, digits and `- . _ ~`, hex digits in upper case.
#[verifier::external_body]
pub(crate) fn url_encode(s: &str) -> (r: String)
    ensures
        r@ == percent_encode_bytes(encode_utf8(s@)),
{
    urlencoding::encode(s).into_owned()
}

/// The login request URL for a portal base that already carries its port.
pub open spec fn spec_login_url(
    base: Seq<char>,
    user_account: Seq<char>,
    password: Seq<char>,
    v: Seq<char>,
) -> Seq<char> {
    base + "/eportal/portal/login?callback="@ + percent_encode_bytes(encode_utf8("dr1003"@))
        + "&login_method=1&user_account="@ + percent_encode_bytes(encode_utf8(user_account))
        + "&user_password="@ + percent_encode_bytes(encode_utf8(password))
        + "&wlan_user_ip=&wlan_user_ipv6=&wlan_user_mac=000000000000&wlan_ac_ip=&wlan_ac_name=&jsVersion=4.1.3&terminal_type=1&lang=zh-cn&v="@
        + v + "&lang=zh"@
}

/// Builds the login request URL (account and password percent-encoded).
pub fn build_login_url(portal_base: &str, user_account: &str, password: &str, v: &str) -> (r: String)
    ensures
        r@ == spec_login_url(portal_base@, user_account@, password@, v@),
{
    let mut u = to_owned_string(portal_base);
    u.append("/eportal/portal/login?callback=");
    let cb = url_encode("dr1003");
    u.append(cb.as_str());
    u.append("&login_method=1&user_account=");
    let acct = url_encode(user_account);
    u.append(acct.as_str());
    u.append("&user_password=");
    let pw = url_encode(password);
    u.append(pw.as_str());
    u.append(
        "&wlan_user_ip=&wlan_user_ipv6=&wlan_user_mac=000000000000&wlan_ac_ip=&wlan_ac_name=&jsVersion=4.1.3&terminal_type=1&lang=zh-cn&v=",
    );
    u.append(v);
    u.append("&lang=zh");
    u
}

/// The address sent as `wlan_user_ip` at logout: none behind NAT.
pub fn logout_wlan_user_ip(adapter_ip: &str) -> (r: &str)
    ensures
        r@ == (if crate::auth::portal::spec_is_nat_private_ip(adapter_ip@) {
            ""@
        } else {
            adapter_ip@
        }),
{
    if crate::auth::portal::is_nat_private_ip(adapter_ip) {
        ""
    } else {
        adapter_ip
    }
}

/// Placeholder credentials the portal expects in a logout request.
pub const LOGOUT_PLACEHOLDER_ACCOUNT: &'static str = "drcom";
pub const LOGOUT_PLACEHOLDER_PASSWORD: &'static str = "123";

/// The MAC-unbind request URL of logout round `round` (callback
/// `dr100<round+1>`), for a portal base that carries its port.
pub open spec fn spec_unbind_url(base: Seq<char>, round: nat, user: Seq<char>, wlan_user_ip: Seq<char>, v: Seq<char>) -> Seq<
    char,
> {
    base + "/eportal/portal/mac/unbind?callback=dr100"@ + decimal(round + 1) + "&user_account="@
        + percent_encode_bytes(encode_utf8(user)) + "&wlan_user_mac=000000000000&wlan_user_ip="@
        + percent_encode_bytes(encode_utf8(wlan_user_ip)) + "&jsVersion=4.1.3&v="@ + v + "&lang=zh"@
}

/// Builds the MAC-unbind request URL (see `spec_unbind_url`).
pub fn build_unbind_url(base: &str, round: u64, user: &str, wlan_user_ip: &str, v: &str) -> (r: String)
    requires
        round < u64::MAX,
    ensures
        r@ == spec_unbind_url(base@, round as nat, user@, wlan_user_ip@, v@),
{
    let mut u = to_owned_string(base);
    u.append("/eportal/portal/mac/unbind?callback=dr100");
    let cb = u64_to_decimal(round + 1);
    u.append(cb.as_str());
    u.append("&user_account=");
    let acct = url_encode(user);
    u.append(acct.as_str());
    u.append("&wlan_user_mac=000000000000&wlan_user_ip=");
    let ip = url_encode(wlan_user_ip);
    u.append(ip.as_str());
    u.append("&jsVersion=4.1.3&v=");
    u.append(v);
    u.append("&lang=zh");
    u
}

/// The Radius logout request URL of logout round `round` (callback
/// `dr100<round+2>`, placeholder credentials), for a portal base that
/// carries its port.
pub open spec fn spec_logout_url(base: Seq<char>, round: nat, wlan_user_ip: Seq<char>, v: Seq<char>) -> Seq<char> {
    base + "/eportal/portal/logout?callback=dr100"@ + decimal(round + 2)
        + "&login_method=1&user_account="@ + LOGOUT_PLACEHOLDER_ACCOUNT@ + "&user_password="@
        + LOGOUT_PLACEHOLDER_PASSWORD@ + "&ac_logout=1&register_mode=1&wlan_user_ip="@
        + percent_encode_bytes(encode_utf8(wlan_user_ip))
        + "&wlan_user_ipv6=&wlan_vlan_id=1&wlan_user_mac=000000000000&wlan_ac_ip=&wlan_ac_name=&jsVersion=4.1.3&v="@
        + v + "&lang=zh"@
}

/// Builds the Radius logout request URL (see `spec_logout_url`).
pub fn build_logout_url(base: &str, round: u64, wlan_user_ip: &str, v: &str) -> (r: String)
    requires
        round < u64::MAX - 1,
    ensures
        r@ == spec_logout_url(base@, round as nat, wlan_user_ip@, v@),
{
    let mut u = to_owned_string(base);
    u.append("/eportal/portal/logout?callback=dr100");
    let cb = u64_to_decimal(round + 2);
    u.append(cb.as_str());
    u.append("&login_method=1&user_account=");
    u.append(LOGOUT_PLACEHOLDER_ACCOUNT);
    u.append("&user_password=");
    u.append(LOGOUT_PLACEHOLDER_PASSWORD);
    u.append("&ac_logout=1&register_mode=1&wlan_user_ip=");
    let ip = url_encode(wlan_user_ip);
    u.append(ip.as_str());
    u.append(
        "&wlan_user_ipv6=&wlan_vlan_id=1&wlan_user_mac=000000000000&wlan_ac_ip=&wlan_ac_name=&jsVersion=4.1.3&v=",
    );
    u.append(v);
    u.append("&lang=zh");
    u
}

// ---------------------------------------------------------------------------
// Retries
// ---------------------------------------------------------------------------

/// Whether the retry loop stops after an attempt: on success, or when the
/// result says it is not worth retrying (a result that does not say is
/// retried).
pub fn retry_should_stop(outcome: &LoginOutcome) -> (r: bool)
    ensures
        r == (outcome.success || outcome.retryable == Some(false)),
{
    outcome.success || match outcome.retryable {
        Some(b) => !b,
        None => false,
    }
}

/// The result when the application quits during the retries (it says
/// nothing of retrying).
pub fn quitting_outcome() -> (r: LoginOutcome)
    ensures
        r@ == ("error"@, "应用正在退出"@, false, None::<bool>),
{
    outcome_unsaid("error", "应用正在退出", false)
}

/// The result of an attempt whose request failed: worth retrying.
pub fn request_error_outcome(message: String) -> (r: LoginOutcome)
    ensures
        r@ == ("error"@, message@, false, Some(true)),
{
    outcome_owned(to_owned_string("error"), message, false, true)
}

/// The result when no attempt was made at all (it says nothing of
/// retrying).
pub fn max_retries_outcome() -> (r: LoginOutcome)
    ensures
        r@ == ("max_retries"@, "多次重试后仍失败"@, false, None::<bool>),
{
    outcome_unsaid("max_retries", "多次重试后仍失败", false)
}

/// Whether to wait and try again after attempt `attempt` of `max`: only
/// while attempts remain.
pub fn retry_has_next(attempt: u32, max_retries: u32) -> (r: bool)
    ensures
        r == (attempt < max_retries),
{
    attempt < max_retries
}

/// The wait between two attempts, in ms.
pub const RETRY_WAIT_MS: u64 = 2000;

/// Where a retry loop stands: the attempts made so far, the limit, and the
/// result of the last attempt that did not end the loop.
pub struct RetryState {
    pub attempts: u32,
    pub max_retries: u32,
    pub last: Option<LoginOutcome>,
}

/// What the loop learns from outside.
pub enum RetryEvent {
    /// The loop is about to try (at the start, or after a wait that ran to
    /// its end); `quitting` is the application's quit flag.
    Ready { quitting: bool },
    /// An attempt came back: its result, or why its request failed.
    Answered(Result<LoginOutcome, String>),
    /// The wait between attempts ended; `completed` is false when quitting
    /// cut it short.
    Waited { completed: bool, quitting: bool },
}

/// What the loop does next.
pub enum RetryAction {
    /// Make an attempt.
    Send,
    /// Wait this long, unless quitting cuts it short.
    Wait { ms: u64 },
    /// Stop with this result.
    Finish(LoginOutcome),
}

pub type OutcomeView = (Seq<char>, Seq<char>, bool, Option<bool>);

pub enum RetryEventSpec {
    Ready { quitting: bool },
    Answered(Result<OutcomeView, Seq<char>>),
    Waited { completed: bool, quitting: bool },
}

pub enum RetryActionSpec {
    Send,
    Wait { ms: u64 },
    Finish(OutcomeView),
}

pub open spec fn opt_outcome_view(o: Option<LoginOutcome>) -> Option<OutcomeView> {
    match o {
        Some(x) => Some(x@),
        None => None,
    }
}

impl RetryState {
    pub open spec fn view_parts(self) -> (u32, u32, Option<OutcomeView>) {
        (self.attempts, self.max_retries, opt_outcome_view(self.last))
    }

    /// No more attempts were made than the limit allows.
    pub open spec fn wf(self) -> bool {
        self.attempts <= self.max_retries
    }
}

pub open spec fn retry_event_view(e: RetryEvent) -> RetryEventSpec {
    match e {
        RetryEvent::Ready { quitting } => RetryEventSpec::Ready { quitting },
        RetryEvent::Answered(Ok(o)) => RetryEventSpec::Answered(Ok(o@)),
        RetryEvent::Answered(Err(m)) => RetryEventSpec::Answered(Err(m@)),
        RetryEvent::Waited { completed, quitting } => RetryEventSpec::Waited { completed, quitting },
    }
}

pub open spec fn retry_action_view(a: RetryAction) -> RetryActionSpec {
    match a {
        RetryAction::Send => RetryActionSpec::Send,
        RetryAction::Wait { ms } => RetryActionSpec::Wait { ms },
        RetryAction::Finish(o) => RetryActionSpec::Finish(o@),
    }
}

pub open spec fn quitting_view() -> OutcomeView {
    ("error"@, "应用正在退出"@, false, None::<bool>)
}

pub open spec fn max_retries_view() -> OutcomeView {
    ("max_retries"@, "多次重试后仍失败"@, false, None::<bool>)
}

/// The loop stops after an attempt that succeeded or that says retrying
/// will not help.
pub open spec fn stops_retrying(o: OutcomeView) -> bool {
    o.2 || o.3 == Some(false)
}

/// Before an attempt: with the attempts used up, the last result (or, when
/// none was made, "no attempt"); when quitting, the quitting result, with
/// nothing sent; otherwise an attempt.
pub open spec fn retry_begin(s: (u32, u32, Option<OutcomeView>), quitting: bool) -> (
    (u32, u32, Option<OutcomeView>),
    RetryActionSpec,
) {
    if s.0 >= s.1 {
        (
            s,
            RetryActionSpec::Finish(
                match s.2 {
                    Some(o) => o,
                    None => max_retries_view(),
                },
            ),
        )
    } else if quitting {
        (s, RetryActionSpec::Finish(quitting_view()))
    } else {
        (s, RetryActionSpec::Send)
    }
}

/// One step of the retry loop of a login.
pub open spec fn spec_retry_step(s: (u32, u32, Option<OutcomeView>), e: RetryEventSpec) -> (
    (u32, u32, Option<OutcomeView>),
    RetryActionSpec,
) {
    match e {
        RetryEventSpec::Ready { quitting } => retry_begin(s, quitting),
        RetryEventSpec::Waited { completed, quitting } => if completed {
            retry_begin(s, quitting)
        } else {
            (s, RetryActionSpec::Finish(quitting_view()))
        },
        RetryEventSpec::Answered(res) => {
            let n = (s.0 + 1) as u32;
            let o = match res {
                Ok(o) => o,
                Err(m) => ("error"@, m, false, Some(true)),
            };
            if res is Ok && stops_retrying(o) {
                ((n, s.1, s.2), RetryActionSpec::Finish(o))
            } else if n < s.1 {
                ((n, s.1, Some(o)), RetryActionSpec::Wait { ms: RETRY_WAIT_MS })
            } else {
                ((n, s.1, Some(o)), RetryActionSpec::Finish(o))
            }
        },
    }
}

fn copy_outcome(o: &LoginOutcome) -> (r: LoginOutcome)
    ensures
        r@ == o@,
{
    LoginOutcome {
        code: to_owned_string(o.code.as_str()),
        message: to_owned_string(o.message.as_str()),
        success: o.success,
        retryable: o.retryable,
    }
}

/// The retry loop as a step function (see `spec_retry_step`): the caller
/// makes the attempts and the waits and reports them. An answer comes only
/// for an attempt the loop asked for.
pub fn retry_step(s: &RetryState, e: RetryEvent) -> (r: (RetryState, RetryAction))
    requires
        s.wf(),
        e is Answered ==> s.attempts < s.max_retries,
    ensures
        (r.0.view_parts(), retry_action_view(r.1)) == spec_retry_step(s.view_parts(), retry_event_view(e)),
        r.0.wf(),
{
    let last = match &s.last {
        Some(o) => Some(copy_outcome(o)),
        None => None,
    };
    let same = RetryState { attempts: s.attempts, max_retries: s.max_retries, last };
    match e {
        RetryEvent::Waited { completed: false, quitting: _ } => (same, RetryAction::Finish(quitting_outcome())),
        RetryEvent::Ready { quitting } | RetryEvent::Waited { completed: true, quitting } => {
            if s.attempts >= s.max_retries {
                let o = match &s.last {
                    Some(o) => copy_outcome(o),
                    None => max_retries_outcome(),
                };
                (same, RetryAction::Finish(o))
            } else if quitting {
                (same, RetryAction::Finish(quitting_outcome()))
            } else {
                (same, RetryAction::Send)
            }
        },
        RetryEvent::Answered(res) => {
            let n = s.attempts + 1;
            let answered = res.is_ok();
            let o = match res {
                Ok(o) => o,
                Err(m) => request_error_outcome(m),
            };
            if answered && retry_should_stop(&o) {
                (RetryState { attempts: n, max_retries: s.max_retries, last: same.last }, RetryAction::Finish(o))
            } else if n < s.max_retries {
                let kept = copy_outcome(&o);
                (RetryState { attempts: n, max_retries: s.max_retries, last: Some(kept) }, RetryAction::Wait {
                    ms: RETRY_WAIT_MS,
                })
            } else {
                let kept = copy_outcome(&o);
                (RetryState { attempts: n, max_retries: s.max_retries, last: Some(kept) }, RetryAction::Finish(o))
            }
        },
    }
}

/// The loop is ready for an attempt and the application is not quitting.
pub open spec fn clear_to_send(e: RetryEventSpec) -> bool {
    match e {
        RetryEventSpec::Ready { quitting } => !quitting,
        RetryEventSpec::Waited { completed, quitting } => completed && !quitting,
        RetryEventSpec::Answered(_) => false,
    }
}

/// The retry loop's promises, step by step: an attempt is sent only while
/// attempts remain and the application is not quitting (quitting before an
/// attempt ends the loop with the quitting result); every answer counts one
/// attempt and nothing else does, so no more than `max_retries` are made; a
/// success or a result that says retrying will not help ends the loop with
/// that result; and the answer to the last allowed attempt ends it with
/// that answer.
pub proof fn law_retry_loop(s: (u32, u32, Option<OutcomeView>), e: RetryEventSpec)
    requires
        s.0 <= s.1,
        e is Answered ==> s.0 < s.1,
    ensures
        ({
            let (t, a) = spec_retry_step(s, e);
            &&& t.0 <= t.1
            &&& t.1 == s.1
            &&& t.0 == (if e is Answered { s.0 + 1 } else { s.0 as int })
            &&& a is Send ==> s.0 < s.1 && clear_to_send(e)
        }),
        (e == RetryEventSpec::Ready { quitting: true } && s.0 < s.1) ==> spec_retry_step(s, e).1
            == RetryActionSpec::Finish(quitting_view()),
        e matches RetryEventSpec::Answered(Ok(o)) ==> (stops_retrying(o) || s.0 + 1 == s.1 ==> spec_retry_step(
            s,
            e,
        ).1 == RetryActionSpec::Finish(o)),
{
}

/// The wait between the two logout rounds, in ms (cut short by quitting).
pub const LOGOUT_ROUND_WAIT_MS: u64 = 1500;

/// Where a logout stands: the round under way (1 or 2) and whether some
/// round so far achieved the Radius logout or the MAC unbind.
#[derive(Clone, Copy, Debug, PartialEq, Eq)]
pub struct LogoutRounds {
    pub round: u32,
    pub any_radius_ok: bool,
    pub any_unbind_ok: bool,
}

/// What the logout learns from outside.
pub enum LogoutRoundEvent {
    /// A round ended: whether its MAC unbind and its Radius logout were
    /// answered with success (a failed request counts as no success).
    RoundDone { unbind_ok: bool, radius_ok: bool },
    /// The wait between the rounds ended; `quitting` is the quit flag.
    Waited { quitting: bool },
}

/// What the logout does next.
pub enum LogoutRoundAction {
    Wait { ms: u64 },
    RunRound { round: u32 },
    Finish(LoginOutcome),
}

pub enum LogoutRoundActionSpec {
    Wait { ms: u64 },
    RunRound { round: u32 },
    Finish(OutcomeView),
}

pub open spec fn logout_round_action_view(a: LogoutRoundAction) -> LogoutRoundActionSpec {
    match a {
        LogoutRoundAction::Wait { ms } => LogoutRoundActionSpec::Wait { ms },
        LogoutRoundAction::RunRound { round } => LogoutRoundActionSpec::RunRound { round },
        LogoutRoundAction::Finish(o) => LogoutRoundActionSpec::Finish(o@),
    }
}

/// The overall result after the rounds (see `logout_summary`).
pub open spec fn logout_summary_view(any_radius_ok: bool, any_unbind_ok: bool) -> OutcomeView {
    (
        if any_radius_ok {
            "0"@
        } else {
            "1"@
        },
        spec_merge_logout(any_radius_ok, any_unbind_ok),
        any_radius_ok,
        Some(!any_radius_ok),
    )
}

/// The rounds of a logout: each round's successes are added to what the
/// earlier ones achieved; after the first round, a second one follows
/// (after a wait) unless both already succeeded or the application is
/// quitting by the end of the wait; then the summary of all rounds.
pub open spec fn spec_logout_round_step(s: LogoutRounds, e: LogoutRoundEventSpec) -> (LogoutRounds, LogoutRoundActionSpec) {
    match e {
        LogoutRoundEventSpec::RoundDone { unbind_ok, radius_ok } => {
            let t = LogoutRounds {
                round: s.round,
                any_radius_ok: s.any_radius_ok || radius_ok,
                any_unbind_ok: s.any_unbind_ok || unbind_ok,
            };
            if s.round == 1 && !(t.any_radius_ok && t.any_unbind_ok) {
                (t, LogoutRoundActionSpec::Wait { ms: LOGOUT_ROUND_WAIT_MS })
            } else {
                (t, LogoutRoundActionSpec::Finish(logout_summary_view(t.any_radius_ok, t.any_unbind_ok)))
            }
        },
        LogoutRoundEventSpec::Waited { quitting } => if s.round == 1 && !quitting {
            (LogoutRounds { round: 2, ..s }, LogoutRoundActionSpec::RunRound { round: 2 })
        } else {
            (s, LogoutRoundActionSpec::Finish(logout_summary_view(s.any_radius_ok, s.any_unbind_ok)))
        },
    }
}

pub enum LogoutRoundEventSpec {
    RoundDone { unbind_ok: bool, radius_ok: bool },
    Waited { quitting: bool },
}

pub open spec fn logout_round_event_view(e: LogoutRoundEvent) -> LogoutRoundEventSpec {
    match e {
        LogoutRoundEvent::RoundDone { unbind_ok, radius_ok } => LogoutRoundEventSpec::RoundDone { unbind_ok, radius_ok },
        LogoutRoundEvent::Waited { quitting } => LogoutRoundEventSpec::Waited { quitting },
    }
}

/// A logout starts in round 1 with nothing achieved.
pub fn logout_rounds_start() -> (r: LogoutRounds)
    ensures
        r == (LogoutRounds { round: 1, any_radius_ok: false, any_unbind_ok: false }),
{
    LogoutRounds { round: 1, any_radius_ok: false, any_unbind_ok: false }
}

/// One step of the logout rounds (see `spec_logout_round_step`); the
/// caller sends the requests, waits, and reports back.
pub fn logout_round_step(s: &LogoutRounds, e: LogoutRoundEvent) -> (r: (LogoutRounds, LogoutRoundAction))
    ensures
        (r.0, logout_round_action_view(r.1)) == spec_logout_round_step(*s, logout_round_event_view(e)),
{
    match e {
        LogoutRoundEvent::RoundDone { unbind_ok, radius_ok } => {
            let t = LogoutRounds {
                round: s.round,
                any_radius_ok: s.any_radius_ok || radius_ok,
                any_unbind_ok: s.any_unbind_ok || unbind_ok,
            };
            if s.round == 1 && !(t.any_radius_ok && t.any_unbind_ok) {
                (t, LogoutRoundAction::Wait { ms: LOGOUT_ROUND_WAIT_MS })
            } else {
                (t, LogoutRoundAction::Finish(logout_summary(t.any_radius_ok, t.any_unbind_ok)))
            }
        },
        LogoutRoundEvent::Waited { quitting } => {
            if s.round == 1 && !quitting {
                (LogoutRounds { round: 2, ..*s }, LogoutRoundAction::RunRound { round: 2 })
            } else {
                (*s, LogoutRoundAction::Finish(logout_summary(s.any_radius_ok, s.any_unbind_ok)))
            }
        },
    }
}

/// A round's success is never lost: what the logout reports is that some
/// round achieved the Radius logout (and, in its message, the unbind); no
/// round after the second is ever started.
pub proof fn law_logout_rounds(s: LogoutRounds, e: LogoutRoundEventSpec)
    ensures
        ({
            let (t, a) = spec_logout_round_step(s, e);
            &&& s.any_radius_ok ==> t.any_radius_ok
            &&& s.any_unbind_ok ==> t.any_unbind_ok
            &&& (e matches LogoutRoundEventSpec::RoundDone { unbind_ok, radius_ok } ==> t.any_radius_ok == (
            s.any_radius_ok || radius_ok) && t.any_unbind_ok == (s.any_unbind_ok || unbind_ok))
            &&& (a matches LogoutRoundActionSpec::RunRound { round } ==> round == 2 && s.round == 1)
            &&& (a matches LogoutRoundActionSpec::Finish(o) ==> o == logout_summary_view(
                t.any_radius_ok,
                t.any_unbind_ok,
            ) && o.2 == t.any_radius_ok)
        }),
{
}

/// A login reply with result 1 whose message names no refusal (none of
/// 非法, 失败, 错误, 拒绝) is a success with code `0`, showing the message
/// (or "Portal协议认证成功" when it is empty); one whose message names a
/// refusal is a failure with code `1` that is not retried.
pub proof fn law_login_result_one(m: Option<Seq<char>>, response: Seq<char>)
    ensures
        ({
            let msg = match m {
                Some(x) => x,
                None => Seq::<char>::empty(),
            };
            let o = spec_login_outcome(Some((Some(1i64), m)), response);
            let refused = has_substr(msg, "非法"@) || has_substr(msg, "失败"@) || has_substr(msg, "错误"@)
                || has_substr(msg, "拒绝"@);
            &&& !refused ==> o.2 && o.0 == "0"@ && o.1 == (if msg.len() == 0 {
                "Portal协议认证成功"@
            } else {
                msg
            })
            &&& refused ==> !o.2 && o.0 == "1"@ && o.1 == msg && o.3 == Some(false)
        }),
{
    reveal_strlit("");
    assert(""@ =~= Seq::<char>::empty());
    assert(result_code((Some(1i64), m)) == 1);
}

/// A logout reply whose message names a refusal (非法, 失败, 错误 or 拒绝)
/// is never a success, unless it is a result-0 reply that also reports the
/// MAC unbind done or no device online (those are read first).
pub proof fn law_logout_refusal_is_failure(f: (Option<i64>, Option<Seq<char>>), response: Seq<char>)
    requires
        ({
            let msg = result_msg(f);
            has_substr(msg, "非法"@) || has_substr(msg, "失败"@) || has_substr(msg, "错误"@) || has_substr(
                msg,
                "拒绝"@,
            )
        }),
        result_code(f) == 0 ==> !has_substr(result_msg(f), "解绑终端MAC成功"@) && !has_substr(
            result_msg(f),
            "获取用户在线信息数据为空"@,
        ),
    ensures
        !spec_logout_outcome(Some(f), response).2,
{
}

/// The message names a refusal: 非法, 失败, 错误 or 拒绝.
pub open spec fn names_refusal(msg: Seq<char>) -> bool {
    has_substr(msg, "非法"@) || has_substr(msg, "失败"@) || has_substr(msg, "错误"@) || has_substr(msg, "拒绝"@)
}

/// When a login succeeded: only for a JSON reply whose result is 0 with
/// "已经在线" or "认证成功" in its message, 1 with no refusal named, or 2
/// with "已经在线"; every success carries code `0` or `2` and is not
/// retried, and only an unreadable non-HTML reply or an unknown result code
/// is worth retrying.
pub proof fn law_login_success_cases(fields: Option<(Option<i64>, Option<Seq<char>>)>, response: Seq<char>)
    ensures
        spec_login_outcome(fields, response).2 <==> match fields {
            None => false,
            Some(f) => {
                ||| (result_code(f) == 0 && (has_substr(result_msg(f), "已经在线"@) || has_substr(
                    result_msg(f),
                    "认证成功"@,
                )))
                ||| (result_code(f) == 1 && !names_refusal(result_msg(f)))
                ||| (result_code(f) == 2 && has_substr(result_msg(f), "已经在线"@))
            },
        },
        spec_login_outcome(fields, response).2 ==> spec_login_outcome(fields, response).3 == Some(false),
        spec_login_outcome(fields, response).3 == Some(true) <==> match fields {
            None => !looks_like_html(response),
            Some(f) => !(0 <= result_code(f) <= 4),
        },
{
}

/// When a logout succeeded: a non-JSON reply that names a finished logout
/// (an HTML page also when it mentions "logout", plain text also "解绑成功");
/// a JSON reply with result 0 that reports the MAC unbind done, no device
/// online, or no refusal; or result 1 with no refusal named. Nothing else
/// is a success.
pub proof fn law_logout_success_cases(fields: Option<(Option<i64>, Option<Seq<char>>)>, response: Seq<char>)
    ensures
        spec_logout_outcome(fields, response).2 <==> match fields {
            None => if looks_like_html(response) {
                mentions_logout_done(response) || has_substr(response, "logout"@)
            } else {
                mentions_logout_done(response) || has_substr(response, "解绑成功"@)
            },
            Some(f) => {
                ||| (result_code(f) == 0 && (has_substr(result_msg(f), "解绑终端MAC成功"@) || has_substr(
                    result_msg(f),
                    "获取用户在线信息数据为空"@,
                ) || !names_refusal(result_msg(f))))
                ||| (result_code(f) == 1 && !names_refusal(result_msg(f)))
            },
        },
        spec_logout_outcome(fields, response).2 ==> spec_logout_outcome(fields, response).3 == Some(false),
{
}

} // verus!
