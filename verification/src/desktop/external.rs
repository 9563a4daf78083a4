//! Opening an outside link in the system browser: only plain http(s)
//! addresses of reasonable length, without a user name or password.

use vstd::prelude::*;
use crate::text::{chars_of, concat2, has_prefix, starts_with, to_owned_string, utf8_len, utf8_len_exceeds};
use crate::net::{url_userinfo, parse_url_userinfo};

verus! {

/// Longest address opened, in bytes.
pub const MAX_EXTERNAL_URL_BYTES: usize = 2048;

/// Why an outside link is refused, if it is, given what the URL parser
/// makes of it: the scheme prefix first, then the length, then the parse,
/// then any user name or password.
pub open spec fn external_url_error(url: Seq<char>, info: Result<(Seq<char>, bool), Seq<char>>) -> Option<
    Seq<char>,
> {
    if !has_prefix(url, "http://"@) && !has_prefix(url, "https://"@) {
        Some("仅支持http/https 链接"@)
    } else if utf8_len(url) > MAX_EXTERNAL_URL_BYTES {
        Some("URL长度超出限制"@)
    } else {
        match info {
            Err(e) => Some("URL解析失败: "@ + e),
            Ok((user, has_password)) => if user.len() > 0 || has_password {
                Some("URL不允许包含用户名或密码"@)
            } else {
                None
            },
        }
    }
}

/// Checks an outside link before it is opened (see `external_url_error`,
/// with the parser's reading `url_userinfo`).
pub fn check_external_url(url: &str) -> (r: Result<(), String>)
    ensures
        match external_url_error(url@, url_userinfo(url@)) {
            None => r is Ok,
            Some(m) => r matches Err(e) && e@ == m,
        },
{
    if !starts_with(url, "http://") && !starts_with(url, "https://") {
        return Err(to_owned_string("仅支持http/https 链接"));
    }
    let v = chars_of(url);
    if utf8_len_exceeds(&v, MAX_EXTERNAL_URL_BYTES) {
        return Err(to_owned_string("URL长度超出限制"));
    }
    match parse_url_userinfo(url) {
        Err(e) => Err(concat2("URL解析失败: ", e.as_str())),
        Ok((user, has_password)) => {
            if !user.as_str().is_empty() || has_password {
                Err(to_owned_string("URL不允许包含用户名或密码"))
            } else {
                Ok(())
            }
        },
    }
}

} // verus!
