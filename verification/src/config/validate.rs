//! Field validation of the desktop configuration: the strict form used when
//! saving or importing, and the lenient form used when loading from disk.

use vstd::prelude::*;
use crate::text::{decimal, chars_of, concat2, concat3, str_eq, to_owned_string, utf8_len, utf8_len_exceeds};
use crate::net::{
    IpValue, ip_of, parse_ip, dotted_text, lemma_dotted_text, url_parts_of, parse_url_parts, url_parts_view, v4_is_private,
    v4_is_loopback, v6_is_loopback, ip_v4_is_private, ip_v6_is_loopback,
};
use crate::pattern::{regex_is_match, username_text, color_text};
use crate::config::model::{
    Config, PASSWORD_MASK, default_campus_gateway, default_required_network_name, is_default_config,
};

verus! {

// ---------------------------------------------------------------------------
// Specifications
// ---------------------------------------------------------------------------

/// The characters a user name may hold.
pub const USERNAME_PATTERN: &'static str = "^[a-zA-Z0-9._-]+$";

/// A theme colour: `#` and six hexadecimal digits.
pub const CUSTOM_COLOR_PATTERN: &'static str = "^#[0-9a-fA-F]{6}$";

/// Why a user name is refused, if it is, given whether the user-name
/// pattern matched it (`None`: the pattern did not compile).
pub open spec fn username_refusal(u: Seq<char>, matched: Option<bool>) -> Option<Seq<char>> {
    if u.len() == 0 {
        Some("用户名不能为空"@)
    } else if utf8_len(u) > 64 {
        Some("用户名过长"@)
    } else if matched != Some(true) {
        Some("用户名包含非法字符"@)
    } else {
        None
    }
}

/// Why a user name is refused, if it is.
pub open spec fn username_error(u: Seq<char>) -> Option<Seq<char>> {
    username_refusal(u, Some(username_text(u)))
}

/// The operator suffixes a login may carry (empty = the campus itself).
pub open spec fn operator_ok(op: Seq<char>) -> bool {
    op == ""@ || op == "@telecom"@ || op == "@unicom"@ || op == "@cmcc"@
}

pub open spec fn operator_error_message(op: Seq<char>) -> Seq<char> {
    "运营商后缀无效: "@ + op + "，可选：@telecom、@unicom、@cmcc"@
}

/// Why a password is refused, if it is.
pub open spec fn password_error(p: Seq<char>) -> Option<Seq<char>> {
    if p.len() == 0 {
        Some("密码不能为空"@)
    } else if utf8_len(p) > 128 {
        Some("密码过长"@)
    } else {
        None
    }
}

/// The old operator names that are renamed on load.
pub open spec fn migrated_operator(op: Seq<char>) -> Seq<char> {
    if op == "@ctcc"@ {
        "@telecom"@
    } else if op == "@cucc"@ {
        "@unicom"@
    } else {
        op
    }
}

/// An empty portal address and the historical `:801` form both become the
/// default address.
pub open spec fn normalized_portal_url(u: Seq<char>) -> Seq<char> {
    if u == "http://10.1.99.100:801"@ || u.len() == 0 {
        "http://10.1.99.100"@
    } else {
        u
    }
}

/// Whether the colour pattern matches `c`.
pub open spec fn color_ok(c: Seq<char>) -> bool {
    color_text(c)
}

pub open spec fn theme_ok(t: Seq<char>) -> bool {
    t == "dark"@ || t == "light"@ || t == "system"@
}

/// Why a portal address is refused, given what the URL parser and the
/// address parser make of it.
pub open spec fn portal_parts_error(
    parts: Result<(Seq<char>, Option<Seq<char>>), Seq<char>>,
    host_ip: Option<IpValue>,
) -> Option<Seq<char>> {
    match parts {
        Err(e) => Some("Portal地址格式无效: "@ + e),
        Ok((scheme, host)) => {
            if scheme != "http"@ && scheme != "https"@ {
                Some("Portal地址协议不支持: "@ + scheme + "，仅允许http/https"@)
            } else {
                match host {
                    None => None,
                    Some(h) => match host_ip {
                        Some(IpValue::V4(a, b, c, d)) => if !v4_is_private(a, b) && !v4_is_loopback(
                            a,
                        ) {
                            Some("Portal地址仅允许内网IP或localhost"@)
                        } else {
                            None
                        },
                        Some(ip) => if !v6_is_loopback(ip) {
                            Some("Portal地址仅允许内网IPv4或localhost"@)
                        } else {
                            None
                        },
                        None => if h != "localhost"@ {
                            Some("Portal地址仅允许IP地址，不支持域名"@)
                        } else {
                            None
                        },
                    },
                }
            }
        },
    }
}

/// The host the URL parser finds in `u`, parsed as an address.
pub open spec fn host_ip_of(u: Seq<char>) -> Option<IpValue> {
    match url_parts_of(u) {
        Ok((_, Some(h))) => ip_of(h),
        _ => None,
    }
}

/// Why a portal address is refused, if it is.
pub open spec fn portal_url_error(u: Seq<char>) -> Option<Seq<char>> {
    portal_parts_error(url_parts_of(u), host_ip_of(u))
}

pub open spec fn clamp_u64(x: u64, lo: u64, hi: u64) -> u64 {
    if x < lo {
        lo
    } else if x > hi {
        hi
    } else {
        x
    }
}

pub open spec fn min_u16(x: u16, m: u16) -> u16 {
    if x < m {
        x
    } else {
        m
    }
}

/// The campus gateway after filling an empty one with the default.
pub open spec fn filled_campus_gateway(g: Seq<char>) -> Seq<char> {
    if g.len() == 0 {
        "10.2.127.254"@
    } else {
        g
    }
}

/// Why strict validation refuses `c`, if it does; checks run in this order.
pub open spec fn config_error(c: Config) -> Option<Seq<char>> {
    if c.user@.len() > 0 && username_error(c.user@) is Some {
        username_error(c.user@)
    } else if c.password@.len() > 0 && c.password@ != PASSWORD_MASK@ && password_error(
        c.password@,
    ) is Some {
        password_error(c.password@)
    } else if !operator_ok(migrated_operator(c.operator@)) {
        Some(operator_error_message(migrated_operator(c.operator@)))
    } else if c.custom_theme_color@.len() > 0 && !color_ok(c.custom_theme_color@) {
        Some("自定义主题颜色格式无效，需为#开头的6位十六进制色值"@)
    } else if !theme_ok(c.theme_mode@) {
        Some("主题模式必须为\"dark\"、\"light\"或\"system\""@)
    } else if portal_url_error(normalized_portal_url(c.portal_url@)) is Some {
        portal_url_error(normalized_portal_url(c.portal_url@))
    } else if c.fixed_gateway@.len() > 0 && ip_of(c.fixed_gateway@) is None {
        Some("固定网关地址无效: "@ + c.fixed_gateway@)
    } else if ip_of(filled_campus_gateway(c.campus_gateway@)) is None {
        Some("校园网关地址无效: "@ + filled_campus_gateway(c.campus_gateway@))
    } else {
        None
    }
}

/// The check start time after the one-time hour-to-minute migration of
/// configurations older than version 2.
pub open spec fn migrated_check_start(c: Config) -> u16 {
    if c.config_version < 2 && 0 < c.campus_check_start_minutes < 24 {
        (c.campus_check_start_minutes * 60) as u16
    } else {
        c.campus_check_start_minutes
    }
}

/// `r` is what strict validation makes of an accepted `c`.
pub open spec fn is_validated_of(r: Config, c: Config) -> bool {
    &&& r.operator@ == migrated_operator(c.operator@)
    &&& r.portal_url@ == normalized_portal_url(c.portal_url@)
    &&& r.campus_gateway@ == filled_campus_gateway(c.campus_gateway@)
    &&& r.required_network_name@ == (if c.required_network_name@.len() == 0 {
        "i-wxxy"@
    } else {
        c.required_network_name@
    })
    &&& r == (Config {
        operator: r.operator,
        portal_url: r.portal_url,
        campus_gateway: r.campus_gateway,
        required_network_name: r.required_network_name,
        background_check_interval: clamp_u64(c.background_check_interval, 10000, 3600000),
        latency_test_interval: clamp_u64(c.latency_test_interval, 10000, 3600000),
        log_retention_days: if c.log_retention_days > 365 {
            365
        } else {
            c.log_retention_days
        },
        config_version: if c.config_version < 2 {
            2
        } else {
            c.config_version
        },
        campus_check_start_minutes: min_u16(migrated_check_start(c), 1439),
        campus_check_end_minutes: min_u16(c.campus_check_end_minutes, 1439),
        campus_exit_start_minutes: min_u16(c.campus_exit_start_minutes, 1439),
        campus_exit_end_minutes: min_u16(c.campus_exit_end_minutes, 1439),
        ..c
    })
}

// ---------------------------------------------------------------------------
// Field validators
// ---------------------------------------------------------------------------

/// The outcome for a user name once the user-name pattern has been applied
/// to it: 1 to 64 bytes, matched by the pattern; returns it back.
pub fn username_outcome(user: &str, matched: Option<bool>) -> (r: Result<&str, String>)
    ensures
        match username_refusal(user@, matched) {
            None => r matches Ok(u) && u@ == user@,
            Some(m) => r matches Err(e) && e@ == m,
        },
{
    let v = chars_of(user);
    if v.len() == 0 {
        return Err(to_owned_string("用户名不能为空"));
    }
    if utf8_len_exceeds(&v, 64) {
        return Err(to_owned_string("用户名过长"));
    }
    match matched {
        Some(true) => Ok(user),
        _ => Err(to_owned_string("用户名包含非法字符")),
    }
}

/// Checks a user name: 1 to 64 bytes of `[a-zA-Z0-9._-]`; returns it back.
pub fn validate_username(user: &str) -> (r: Result<&str, String>)
    ensures
        r is Ok <==> (username_text(user@) && utf8_len(user@) <= 64),
        match username_error(user@) {
            None => r matches Ok(u) && u@ == user@,
            Some(m) => r matches Err(e) && e@ == m,
        },
{
    let matched = regex_is_match(USERNAME_PATTERN, user);
    username_outcome(user, matched)
}

/// Checks an operator suffix against the accepted list; returns it back.
pub fn validate_operator(op: &str) -> (r: Result<&str, String>)
    ensures
        operator_ok(op@) ==> (r matches Ok(o) && o@ == op@),
        !operator_ok(op@) ==> (r matches Err(e) && e@ == operator_error_message(op@)),
{
    if str_eq(op, "") || str_eq(op, "@telecom") || str_eq(op, "@unicom") || str_eq(op, "@cmcc") {
        Ok(op)
    } else {
        Err(concat3("运营商后缀无效: ", op, "，可选：@telecom、@unicom、@cmcc"))
    }
}

/// Checks a password: 1 to 128 bytes.
pub fn validate_password(password: &str) -> (r: Result<(), String>)
    ensures
        match password_error(password@) {
            None => r is Ok,
            Some(m) => r matches Err(e) && e@ == m,
        },
{
    let v = chars_of(password);
    if v.len() == 0 {
        return Err(to_owned_string("密码不能为空"));
    }
    if utf8_len_exceeds(&v, 128) {
        return Err(to_owned_string("密码过长"));
    }
    Ok(())
}

/// Decides a portal address from what the URL parser made of it and from
/// the parsed form of its host: http/https only, and the host must be a
/// private or loopback IPv4 address, the IPv6 loopback, or `localhost`.
pub fn check_portal_url_parts(
    parts: &Result<(String, Option<String>), String>,
    host_ip: Option<IpValue>,
) -> (r: Result<(), String>)
    ensures
        match portal_parts_error(url_parts_view(*parts), host_ip) {
            None => r is Ok,
            Some(m) => r matches Err(e) && e@ == m,
        },
{
    match parts {
        Err(e) => Err(concat2("Portal地址格式无效: ", e.as_str())),
        Ok((scheme, host)) => {
            if !str_eq(scheme.as_str(), "http") && !str_eq(scheme.as_str(), "https") {
                return Err(concat3("Portal地址协议不支持: ", scheme.as_str(), "，仅允许http/https"));
            }
            match host {
                None => Ok(()),
                Some(h) => match host_ip {
                    Some(IpValue::V4(a, b, _, _)) => {
                        if !ip_v4_is_private(a, b) && a != 127 {
                            Err(to_owned_string("Portal地址仅允许内网IP或localhost"))
                        } else {
                            Ok(())
                        }
                    },
                    Some(ip) => {
                        if !ip_v6_is_loopback(&ip) {
                            Err(to_owned_string("Portal地址仅允许内网IPv4或localhost"))
                        } else {
                            Ok(())
                        }
                    },
                    None => {
                        if !str_eq(h.as_str(), "localhost") {
                            Err(to_owned_string("Portal地址仅允许IP地址，不支持域名"))
                        } else {
                            Ok(())
                        }
                    },
                },
            }
        },
    }
}

/// Checks a portal address: scheme http/https; host a private or loopback
/// IPv4 address, the IPv6 loopback, or `localhost`.
pub fn validate_portal_url(url: &str) -> (r: Result<(), String>)
    ensures
        match portal_url_error(url@) {
            None => r is Ok,
            Some(m) => r matches Err(e) && e@ == m,
        },
{
    let parts = parse_url_parts(url);
    let host_ip = match &parts {
        Ok((_, Some(h))) => parse_ip(h.as_str()),
        _ => None,
    };
    check_portal_url_parts(&parts, host_ip)
}

/// Renames the retired operator suffixes `@ctcc` and `@cucc`.
pub fn migrate_operator(op: &mut String)
    ensures
        final(op)@ == migrated_operator(old(op)@),
{
    if str_eq(op.as_str(), "@ctcc") {
        *op = to_owned_string("@telecom");
    } else if str_eq(op.as_str(), "@cucc") {
        *op = to_owned_string("@unicom");
    }
}

/// Replaces an empty or `:801` portal address by the default one.
pub fn normalize_portal_url(url: &mut String)
    ensures
        final(url)@ == normalized_portal_url(old(url)@),
{
    if str_eq(url.as_str(), "http://10.1.99.100:801") || url.as_str().is_empty() {
        *url = to_owned_string("http://10.1.99.100");
    }
}

/// `^#[0-9a-fA-F]{6}$` on a theme colour.
pub fn is_valid_color(color: &str) -> (r: bool)
    ensures
        r == color_ok(color@),
{
    match regex_is_match(CUSTOM_COLOR_PATTERN, color) {
        Some(m) => m,
        None => false,
    }
}

pub(crate) fn clamp_interval(x: u64) -> (r: u64)
    ensures
        r == clamp_u64(x, 10000, 3600000),
{
    if x < 10000 {
        10000
    } else if x > 3600000 {
        3600000
    } else {
        x
    }
}

fn min_1439(x: u16) -> (r: u16)
    ensures
        r == min_u16(x, 1439),
{
    if x < 1439 {
        x
    } else {
        1439
    }
}

/// The operator suffix after renaming retired names.
pub fn migrated_operator_of(op: &str) -> (r: String)
    ensures
        r@ == migrated_operator(op@),
{
    let mut o = to_owned_string(op);
    migrate_operator(&mut o);
    o
}

/// The first reason strict validation refuses `config`, if any (see
/// `config_error` for the order and the messages).
pub fn config_rejection(config: &Config) -> (r: Option<String>)
    ensures
        match config_error(*config) {
            None => r is None,
            Some(m) => r matches Some(e) && e@ == m,
        },
{
    if !config.user.as_str().is_empty() {
        if let Err(e) = validate_username(config.user.as_str()) {
            return Some(e);
        }
    }
    if !config.password.as_str().is_empty() && !str_eq(config.password.as_str(), PASSWORD_MASK) {
        if let Err(e) = validate_password(config.password.as_str()) {
            return Some(e);
        }
    }
    let op = migrated_operator_of(config.operator.as_str());
    match validate_operator(op.as_str()) {
        Ok(_) => {},
        Err(e) => {
            return Some(e);
        },
    }
    if !config.custom_theme_color.as_str().is_empty() && !is_valid_color(
        config.custom_theme_color.as_str(),
    ) {
        return Some(to_owned_string("自定义主题颜色格式无效，需为#开头的6位十六进制色值"));
    }
    if !str_eq(config.theme_mode.as_str(), "dark") && !str_eq(config.theme_mode.as_str(), "light")
        && !str_eq(config.theme_mode.as_str(), "system") {
        return Some(to_owned_string("主题模式必须为\"dark\"、\"light\"或\"system\""));
    }
    let mut portal = to_owned_string(config.portal_url.as_str());
    normalize_portal_url(&mut portal);
    if let Err(e) = validate_portal_url(portal.as_str()) {
        return Some(e);
    }
    if !config.fixed_gateway.as_str().is_empty() && parse_ip(config.fixed_gateway.as_str()).is_none() {
        return Some(concat2("固定网关地址无效: ", config.fixed_gateway.as_str()));
    }
    let gateway = if config.campus_gateway.as_str().is_empty() {
        default_campus_gateway()
    } else {
        to_owned_string(config.campus_gateway.as_str())
    };
    if parse_ip(gateway.as_str()).is_none() {
        return Some(concat2("校园网关地址无效: ", gateway.as_str()));
    }
    None
}

/// The normalizations strict validation applies to an accepted
/// configuration (see `is_validated_of`).
pub fn normalized_config(config: Config) -> (r: Config)
    ensures
        is_validated_of(r, config),
{
    let operator = migrated_operator_of(config.operator.as_str());
    let mut portal_url = to_owned_string(config.portal_url.as_str());
    normalize_portal_url(&mut portal_url);
    let campus_gateway = if config.campus_gateway.as_str().is_empty() {
        default_campus_gateway()
    } else {
        to_owned_string(config.campus_gateway.as_str())
    };
    let required_network_name = if config.required_network_name.as_str().is_empty() {
        default_required_network_name()
    } else {
        to_owned_string(config.required_network_name.as_str())
    };
    let mut start = config.campus_check_start_minutes;
    let mut version = config.config_version;
    if version < 2 {
        if start > 0 && start < 24 {
            start = start * 60;
        }
        version = 2;
    }
    let log_days = if config.log_retention_days > 365 {
        365
    } else {
        config.log_retention_days
    };
    Config {
        operator,
        portal_url,
        campus_gateway,
        required_network_name,
        background_check_interval: clamp_interval(config.background_check_interval),
        latency_test_interval: clamp_interval(config.latency_test_interval),
        log_retention_days: log_days,
        config_version: version,
        campus_check_start_minutes: min_1439(start),
        campus_check_end_minutes: min_1439(config.campus_check_end_minutes),
        campus_exit_start_minutes: min_1439(config.campus_exit_start_minutes),
        campus_exit_end_minutes: min_1439(config.campus_exit_end_minutes),
        ..config
    }
}

/// Strict validation: refuses the first invalid field (see `config_error`
/// for the order and the messages); otherwise renames retired operators,
/// clamps intervals and times, normalizes the portal address, fills empty
/// gateway and network name with their defaults and migrates old versions.
pub fn validate_config(config: Config) -> (r: Result<Config, String>)
    ensures
        match config_error(config) {
            None => r matches Ok(c) && is_validated_of(c, config),
            Some(m) => r matches Err(e) && e@ == m,
        },
{
    match config_rejection(&config) {
        Some(e) => Err(e),
        None => Ok(normalized_config(config)),
    }
}

/// The per-field fallbacks lenient validation applies before the strict
/// pass: each invalid field is replaced by its default, independently of the
/// others.
pub open spec fn is_lenient_step(c1: Config, c: Config) -> bool {
    &&& c1.user@ == (if c.user@.len() > 0 && username_error(c.user@) is Some {
        ""@
    } else {
        c.user@
    })
    &&& c1.password@ == (if c.password@.len() > 0 && c.password@ != PASSWORD_MASK@ && password_error(
        c.password@,
    ) is Some {
        ""@
    } else {
        c.password@
    })
    &&& c1.operator@ == (if operator_ok(migrated_operator(c.operator@)) {
        migrated_operator(c.operator@)
    } else {
        ""@
    })
    &&& c1.custom_theme_color@ == (if c.custom_theme_color@.len() > 0 && !color_ok(
        c.custom_theme_color@,
    ) {
        "#6366f1"@
    } else {
        c.custom_theme_color@
    })
    &&& c1.theme_mode@ == (if theme_ok(c.theme_mode@) {
        c.theme_mode@
    } else {
        "dark"@
    })
    &&& c1.portal_url@ == (if portal_url_error(normalized_portal_url(c.portal_url@)) is Some {
        "http://10.1.99.100"@
    } else {
        normalized_portal_url(c.portal_url@)
    })
    &&& c1.fixed_gateway@ == (if c.fixed_gateway@.len() > 0 && ip_of(c.fixed_gateway@) is None {
        "10.2.127.254"@
    } else {
        c.fixed_gateway@
    })
    &&& c1.campus_gateway@ == (if ip_of(filled_campus_gateway(c.campus_gateway@)) is None {
        "10.2.127.254"@
    } else {
        filled_campus_gateway(c.campus_gateway@)
    })
    &&& c1.required_network_name@ == (if c.required_network_name@.len() == 0 {
        "i-wxxy"@
    } else {
        c.required_network_name@
    })
    &&& c1 == (Config {
        user: c1.user,
        password: c1.password,
        operator: c1.operator,
        custom_theme_color: c1.custom_theme_color,
        theme_mode: c1.theme_mode,
        portal_url: c1.portal_url,
        fixed_gateway: c1.fixed_gateway,
        campus_gateway: c1.campus_gateway,
        required_network_name: c1.required_network_name,
        ..c
    })
}

/// Lenient validation, used when loading from disk: each invalid field
/// falls back to its default on its own, then the strict pass runs; should
/// it still refuse, the whole configuration falls back to the defaults.
pub fn validate_config_lenient(config: Config) -> (r: Config)
    ensures
        exists|c1: Config|
            {
                &&& #[trigger] is_lenient_step(c1, config)
                &&& config_error(c1) is None ==> is_validated_of(r, c1)
                &&& config_error(c1) is Some ==> is_default_config(r)
            },
        config_error(r) is None,
        is_validated_of(r, r),
{
    let ghost c0 = config;
    let step = lenient_step(config);
    let ghost c1 = step;
    let r = match validate_config(step) {
        Ok(c) => c,
        Err(_) => Config::default(),
    };
    assert(is_lenient_step(c1, c0));
    proof {
        law_lenient_result_passes_strict(c0, r);
    }
    r
}

/// The per-field fallbacks of lenient validation (see `is_lenient_step`).
pub fn lenient_step(config: Config) -> (r: Config)
    ensures
        is_lenient_step(r, config),
{
    let user = if !config.user.as_str().is_empty() && validate_username(config.user.as_str()).is_err() {
        to_owned_string("")
    } else {
        to_owned_string(config.user.as_str())
    };
    let password = if !config.password.as_str().is_empty() && !str_eq(
        config.password.as_str(),
        PASSWORD_MASK,
    ) && validate_password(config.password.as_str()).is_err() {
        to_owned_string("")
    } else {
        to_owned_string(config.password.as_str())
    };
    let mut operator = migrated_operator_of(config.operator.as_str());
    if validate_operator(operator.as_str()).is_err() {
        operator = to_owned_string("");
    }
    let custom_theme_color = if !config.custom_theme_color.as_str().is_empty() && !is_valid_color(
        config.custom_theme_color.as_str(),
    ) {
        to_owned_string("#6366f1")
    } else {
        to_owned_string(config.custom_theme_color.as_str())
    };
    let theme_mode = if !str_eq(config.theme_mode.as_str(), "dark") && !str_eq(
        config.theme_mode.as_str(),
        "light",
    ) && !str_eq(config.theme_mode.as_str(), "system") {
        to_owned_string("dark")
    } else {
        to_owned_string(config.theme_mode.as_str())
    };
    let mut portal_url = to_owned_string(config.portal_url.as_str());
    normalize_portal_url(&mut portal_url);
    if validate_portal_url(portal_url.as_str()).is_err() {
        portal_url = to_owned_string("http://10.1.99.100");
    }
    let fixed_gateway = if !config.fixed_gateway.as_str().is_empty() && parse_ip(
        config.fixed_gateway.as_str(),
    ).is_none() {
        to_owned_string("10.2.127.254")
    } else {
        to_owned_string(config.fixed_gateway.as_str())
    };
    let mut campus_gateway = if config.campus_gateway.as_str().is_empty() {
        default_campus_gateway()
    } else {
        to_owned_string(config.campus_gateway.as_str())
    };
    if parse_ip(campus_gateway.as_str()).is_none() {
        campus_gateway = to_owned_string("10.2.127.254");
    }
    let required_network_name = if config.required_network_name.as_str().is_empty() {
        default_required_network_name()
    } else {
        to_owned_string(config.required_network_name.as_str())
    };
    Config {
        user,
        password,
        operator,
        custom_theme_color,
        theme_mode,
        portal_url,
        fixed_gateway,
        campus_gateway,
        required_network_name,
        ..config
    }
}


/// The fallback addresses of lenient validation are read as the IPv4
/// addresses they spell.
proof fn lemma_fallback_addresses()
    ensures
        ip_of("10.2.127.254"@) == Some(IpValue::V4(10, 2, 127, 254)),
        ip_of("10.1.99.100"@) == Some(IpValue::V4(10, 1, 99, 100)),
        url_parts_of("http://10.1.99.100"@) == Ok::<(Seq<char>, Option<Seq<char>>), Seq<char>>(
            ("http"@, Some("10.1.99.100"@)),
        ),
{
    reveal_strlit("10.2.127.254");
    reveal_strlit("10.1.99.100");
    reveal_strlit("http://10.1.99.100");
    reveal_strlit("http");
    assert(decimal(1) =~= seq!['1']);
    assert(decimal(2) =~= seq!['2']);
    assert(decimal(9) =~= seq!['9']);
    assert(decimal(12) =~= seq!['1', '2']);
    assert(decimal(10) =~= seq!['1', '0']);
    assert(decimal(25) =~= seq!['2', '5']);
    assert(decimal(127) =~= seq!['1', '2', '7']);
    assert(decimal(254) =~= seq!['2', '5', '4']);
    assert(decimal(99) =~= seq!['9', '9']);
    assert(decimal(100) =~= seq!['1', '0', '0']);
    lemma_dotted_text(10, 2, 127, 254);
    lemma_dotted_text(10, 1, 99, 100);
    assert("10.2.127.254"@ =~= dotted_text(10, 2, 127, 254));
    assert("10.1.99.100"@ =~= dotted_text(10, 1, 99, 100));
    let u = "http://10.1.99.100"@;
    assert(u.subrange(0, 7) =~= seq!['h', 't', 't', 'p', ':', '/', '/']);
    assert(u.subrange(7, u.len() as int) =~= "10.1.99.100"@);
    assert(seq!['h', 't', 't', 'p'] =~= "http"@);
}

/// Every fallback value passes strict validation, so the per-field step of
/// lenient validation always gives a configuration that strict validation
/// accepts.
pub proof fn law_lenient_step_is_accepted(c: Config, c1: Config)
    requires
        is_lenient_step(c1, c),
    ensures
        config_error(c1) is None,
{
    lemma_fallback_addresses();
    reveal_strlit("");
    reveal_strlit("http://10.1.99.100");
    reveal_strlit("http://10.1.99.100:801");
    reveal_strlit("10.2.127.254");
    reveal_strlit("@telecom");
    reveal_strlit("@unicom");
    reveal_strlit("@cmcc");
    reveal_strlit("@ctcc");
    reveal_strlit("@cucc");
    reveal_strlit("#6366f1");
    reveal_strlit("dark");
    reveal_strlit("http");
    assert(operator_ok(migrated_operator(c1.operator@)));
    assert(c1.custom_theme_color@.len() > 0 ==> color_ok(c1.custom_theme_color@));
    assert(portal_url_error(normalized_portal_url(c1.portal_url@)) is None);
    assert(c1.fixed_gateway@.len() > 0 ==> ip_of(c1.fixed_gateway@) is Some);
    assert(ip_of(filled_campus_gateway(c1.campus_gateway@)) is Some);
}

/// What lenient validation returns (as its contract describes it) passes
/// strict validation and comes back from it unchanged.
pub proof fn law_lenient_result_passes_strict(c: Config, r: Config)
    requires
        exists|c1: Config|
            {
                &&& #[trigger] is_lenient_step(c1, c)
                &&& config_error(c1) is None ==> is_validated_of(r, c1)
                &&& config_error(c1) is Some ==> is_default_config(r)
            },
    ensures
        config_error(r) is None,
        is_validated_of(r, r),
{
    let c1 = choose|c1: Config|
        {
            &&& #[trigger] is_lenient_step(c1, c)
            &&& config_error(c1) is None ==> is_validated_of(r, c1)
            &&& config_error(c1) is Some ==> is_default_config(r)
        };
    law_lenient_step_is_accepted(c, c1);
    law_validation_is_idempotent(c1, r);
}

/// Validation is stable: a configuration that strict validation accepted
/// and normalised is accepted again and comes back unchanged (in
/// particular the hour-to-minute migration of the check start runs once).
pub proof fn law_validation_is_idempotent(c: Config, r: Config)
    requires
        config_error(c) is None,
        is_validated_of(r, c),
    ensures
        config_error(r) is None,
        is_validated_of(r, r),
{
    reveal_strlit("http://10.1.99.100");
    reveal_strlit("http://10.1.99.100:801");
    reveal_strlit("10.2.127.254");
    reveal_strlit("i-wxxy");
    reveal_strlit("@telecom");
    reveal_strlit("@unicom");
    reveal_strlit("@ctcc");
    reveal_strlit("@cucc");
    assert(migrated_operator(r.operator@) == r.operator@);
    assert(normalized_portal_url(r.portal_url@) == r.portal_url@);
    assert(filled_campus_gateway(r.campus_gateway@) == r.campus_gateway@);
}

/// A portal address with scheme http or https whose host is an IPv4
/// address is accepted exactly when the address is private (10.0.0.0/8,
/// 172.16.0.0/12, 192.168.0.0/16) or loopback (127.0.0.0/8); any other IPv4
/// host is refused as outside the campus network.
pub proof fn law_portal_private_ipv4(scheme: Seq<char>, h: Seq<char>, a: u8, b: u8, c: u8, d: u8)
    requires
        scheme == "http"@ || scheme == "https"@,
    ensures
        ({
            let e = portal_parts_error(
                Ok::<(Seq<char>, Option<Seq<char>>), Seq<char>>((scheme, Some(h))),
                Some(IpValue::V4(a, b, c, d)),
            );
            &&& (a == 10 || (a == 172 && 16 <= b && b <= 31) || (a == 192 && b == 168) || a == 127) ==> e is None
            &&& !(a == 10 || (a == 172 && 16 <= b && b <= 31) || (a == 192 && b == 168) || a == 127) ==> e
                == Some("Portal地址仅允许内网IP或localhost"@)
        }),
{
    reveal_strlit("http");
    reveal_strlit("https");
}

/// The whole portal rule: a URL that does not parse is refused with the
/// parser's message; a scheme other than http or https is refused; without
/// a host it passes; an IPv4 host passes only when private or loopback, an
/// IPv6 host only as `::1`, and a name only as `localhost`.
pub proof fn law_portal_rule(
    parts: Result<(Seq<char>, Option<Seq<char>>), Seq<char>>,
    host_ip: Option<IpValue>,
)
    ensures
        portal_parts_error(parts, host_ip) is None <==> match parts {
            Err(_) => false,
            Ok((scheme, host)) => (scheme == "http"@ || scheme == "https"@) && match host {
                None => true,
                Some(h) => match host_ip {
                    Some(IpValue::V4(a, b, _, _)) => a == 10 || (a == 172 && 16 <= b && b <= 31) || (a == 192
                        && b == 168) || a == 127,
                    Some(IpValue::V6(s0, s1, s2, s3, s4, s5, s6, s7)) => s0 == 0 && s1 == 0 && s2 == 0 && s3 == 0
                        && s4 == 0 && s5 == 0 && s6 == 0 && s7 == 1,
                    None => h == "localhost"@,
                },
            },
        },
        parts matches Err(e) ==> portal_parts_error(parts, host_ip) == Some("Portal地址格式无效: "@ + e),
{
}

} // verus!
