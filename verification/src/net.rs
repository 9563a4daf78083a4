//! Address and URL facts the library takes from std and from the `url`
//! crate, turned into plain values.

use vstd::prelude::*;
use crate::text::{all_digits, decimal, digits_value, lacks_char, split_on};

verus! {

/// An IP address as plain numbers: four octets, or eight 16-bit segments.
#[derive(Clone, Copy, Debug, PartialEq, Eq)]
pub enum IpValue {
    V4(u8, u8, u8, u8),
    V6(u16, u16, u16, u16, u16, u16, u16, u16),
}

/// What `str::parse::<core::net::IpAddr>` makes of a string (`None` when it
/// rejects it).
pub uninterp spec fn parsed_ip(s: Seq<char>) -> Option<IpValue>;

/// An octet in dot-decimal notation: decimal digits without a leading
/// zero (a lone `0` aside), at most 255.
pub open spec fn octet_text(p: Seq<char>) -> bool {
    &&& p.len() >= 1
    &&& all_digits(p)
    &&& (p.len() == 1 || p[0] != '0')
    &&& digits_value(p) <= 255
}

/// The four octets of `s` when it is an IPv4 address in dot-decimal
/// notation: four octets divided by `.`.
pub open spec fn dotted_quad(s: Seq<char>) -> Option<(u8, u8, u8, u8)> {
    let p = split_on(s, '.');
    if p.len() == 4 && octet_text(p[0]) && octet_text(p[1]) && octet_text(p[2]) && octet_text(p[3]) {
        Some(
            (
                digits_value(p[0]) as u8,
                digits_value(p[1]) as u8,
                digits_value(p[2]) as u8,
                digits_value(p[3]) as u8,
            ),
        )
    } else {
        None
    }
}

/// The dot-decimal text of the address `a.b.c.d`.
pub open spec fn dotted_text(a: u8, b: u8, c: u8, d: u8) -> Seq<char> {
    decimal(a as nat) + seq!['.'] + decimal(b as nat) + seq!['.'] + decimal(c as nat) + seq!['.']
        + decimal(d as nat)
}

/// The decimal text of an octet is read back as that octet.
pub proof fn lemma_octet_text(n: u8)
    ensures
        octet_text(decimal(n as nat)),
        digits_value(decimal(n as nat)) == n,
        lacks_char(decimal(n as nat), '.'),
{
    crate::text::lemma_decimal_digits(n as nat);
    crate::text::lemma_decimal_leading(n as nat);
    let t = decimal(n as nat);
    assert forall|i: int| 0 <= i < t.len() implies #[trigger] t[i] != '.' by {
        assert(crate::text::is_ascii_digit(t[i]));
    }
}

/// The dot-decimal text of `a.b.c.d` is read back as that address.
pub proof fn lemma_dotted_text(a: u8, b: u8, c: u8, d: u8)
    ensures
        dotted_quad(dotted_text(a, b, c, d)) == Some((a, b, c, d)),
{
    lemma_octet_text(a);
    lemma_octet_text(b);
    lemma_octet_text(c);
    lemma_octet_text(d);
    let (ta, tb, tc, td) = (decimal(a as nat), decimal(b as nat), decimal(c as nat), decimal(d as nat));
    crate::text::lemma_split_on_lacking(ta, '.');
    crate::text::lemma_split_on_lacking(tb, '.');
    crate::text::lemma_split_on_lacking(tc, '.');
    crate::text::lemma_split_on_lacking(td, '.');
    let x1 = ta + seq!['.'] + tb;
    let x2 = x1 + seq!['.'] + tc;
    crate::text::lemma_split_on_join(ta, '.', tb);
    crate::text::lemma_split_on_join(x1, '.', tc);
    crate::text::lemma_split_on_join(x2, '.', td);
    assert(split_on(dotted_text(a, b, c, d), '.') =~= seq![ta, tb, tc, td]);
}

/// What the address parser makes of `s`: a dot-decimal IPv4 address gives
/// its octets; for any other text the outcome is `parsed_ip`.
pub open spec fn ip_of(s: Seq<char>) -> Option<IpValue> {
    match dotted_quad(s) {
        Some((a, b, c, d)) => Some(IpValue::V4(a, b, c, d)),
        None => parsed_ip(s),
    }
}

/// `s.parse::<core::net::IpAddr>()`, with the address taken apart into its
/// octets or segments. The contract says that the outcome is the named
/// function of the input, and, as std's documentation of `Ipv4Addr`'s
/// `FromStr` describes, that four decimal octets divided by `.` (no octal
/// leading zero) give that IPv4 address. Of other text it says nothing.
#[verifier::external_body]
pub(crate) fn parse_ip(s: &str) -> (r: Option<IpValue>)
    ensures
        r == parsed_ip(s@),
        r == ip_of(s@),
{
    match s.parse::<core::net::IpAddr>() {
        Ok(core::net::IpAddr::V4(v4)) => {
            let o = v4.octets();
            Some(IpValue::V4(o[0], o[1], o[2], o[3]))
        },
        Ok(core::net::IpAddr::V6(v6)) => {
            let g = v6.segments();
            Some(IpValue::V6(g[0], g[1], g[2], g[3], g[4], g[5], g[6], g[7]))
        },
        Err(_) => None,
    }
}

/// `Ipv4Addr::is_private`: 10.0.0.0/8, 172.16.0.0/12 and 192.168.0.0/16.
pub open spec fn v4_is_private(a: u8, b: u8) -> bool {
    a == 10 || (a == 172 && 16 <= b <= 31) || (a == 192 && b == 168)
}

/// `Ipv4Addr::is_loopback`: 127.0.0.0/8.
pub open spec fn v4_is_loopback(a: u8) -> bool {
    a == 127
}

/// `Ipv6Addr::is_loopback`: exactly `::1`.
pub open spec fn v6_is_loopback(ip: IpValue) -> bool {
    ip == IpValue::V6(0, 0, 0, 0, 0, 0, 0, 1)
}

pub fn ip_v4_is_private(a: u8, b: u8) -> (r: bool)
    ensures
        r == v4_is_private(a, b),
{
    a == 10 || (a == 172 && 16 <= b && b <= 31) || (a == 192 && b == 168)
}

pub fn ip_v6_is_loopback(ip: &IpValue) -> (r: bool)
    ensures
        r == v6_is_loopback(*ip),
{
    match ip {
        IpValue::V6(a, b, c, d, e, f, g, h) => *a == 0 && *b == 0 && *c == 0 && *d == 0 && *e == 0
            && *f == 0 && *g == 0 && *h == 1,
        IpValue::V4(..) => false,
    }
}

/// The parts of a URL the library reads, as `url::Url::parse` gives them:
/// the scheme and the host string (if any), or the parse error's text.
pub uninterp spec fn url_parts(s: Seq<char>) -> Result<(Seq<char>, Option<Seq<char>>), Seq<char>>;

pub open spec fn opt_string_view(o: Option<String>) -> Option<Seq<char>> {
    match o {
        Some(s) => Some(s@),
        None => None,
    }
}

pub open spec fn url_parts_view(r: Result<(String, Option<String>), String>) -> Result<
    (Seq<char>, Option<Seq<char>>),
    Seq<char>,
> {
    match r {
        Ok((scheme, host)) => Ok((scheme@, opt_string_view(host))),
        Err(e) => Err(e@),
    }
}

/// The scheme and host of an address made of `http://` or `https://` and a
/// dot-decimal IPv4 address, with nothing after it.
pub open spec fn plain_ipv4_url(s: Seq<char>) -> Option<(Seq<char>, Seq<char>)> {
    if s.len() > 7 && s.subrange(0, 7) == seq!['h', 't', 't', 'p', ':', '/', '/'] && dotted_quad(
        s.subrange(7, s.len() as int),
    ) is Some {
        Some((seq!['h', 't', 't', 'p'], s.subrange(7, s.len() as int)))
    } else if s.len() > 8 && s.subrange(0, 8) == seq!['h', 't', 't', 'p', 's', ':', '/', '/']
        && dotted_quad(s.subrange(8, s.len() as int)) is Some {
        Some((seq!['h', 't', 't', 'p', 's'], s.subrange(8, s.len() as int)))
    } else {
        None
    }
}

/// What `url::Url::parse` gives for `s` as `(scheme(), host_str())`: for a
/// plain `http`/`https` address of an IPv4 host, that scheme and host; for
/// any other text the outcome is `url_parts`.
pub open spec fn url_parts_of(s: Seq<char>) -> Result<(Seq<char>, Option<Seq<char>>), Seq<char>> {
    match plain_ipv4_url(s) {
        Some((scheme, host)) => Ok((scheme, Some(host))),
        None => url_parts(s),
    }
}

/// `url::Url::parse`, read out as `(scheme(), host_str())`, or the
/// displayed parse error. The contract says that the outcome is the named
/// function of the input, and that `http://` or `https://` followed by a
/// dot-decimal IPv4 address (already in the form the WHATWG host parser
/// writes it) gives that scheme and that host. Of other text it says
/// nothing.
#[verifier::external_body]
pub(crate) fn parse_url_parts(s: &str) -> (r: Result<(String, Option<String>), String>)
    ensures
        url_parts_view(r) == url_parts(s@),
        url_parts_view(r) == url_parts_of(s@),
{
    match url::Url::parse(s) {
        Ok(u) => Ok((u.scheme().to_string(), u.host_str().map(|h| h.to_string()))),
        Err(e) => Err(e.to_string()),
    }
}

/// What `url::Url::parse` makes of `s`, read out as `port()` (`None` when
/// it does not parse).
pub uninterp spec fn url_port(s: Seq<char>) -> Option<Option<u16>>;

/// `url::Url::parse(s)` and then `port()`. The contract says only that the
/// outcome is the named function of the input.
#[verifier::external_body]
pub(crate) fn parse_url_port(s: &str) -> (r: Option<Option<u16>>)
    ensures
        r == url_port(s@),
{
    match url::Url::parse(s) {
        Ok(u) => Some(u.port()),
        Err(_) => None,
    }
}

/// The serialisation (`as_str()`) of `s` parsed by `url::Url::parse`, after
/// `set_port(Some(port))` (`None` when it does not parse).
pub uninterp spec fn url_with_port(s: Seq<char>, port: u16) -> Option<Seq<char>>;

/// `url::Url::parse(s)`, `set_port(Some(port))` (its refusal ignored) and
/// `as_str()`. The contract says only that the outcome is the named
/// function of the inputs.
#[verifier::external_body]
pub(crate) fn set_url_port(s: &str, port: u16) -> (r: Option<String>)
    ensures
        opt_string_view(r) == url_with_port(s@, port),
{
    match url::Url::parse(s) {
        Ok(mut u) => {
            let _ = u.set_port(Some(port));
            Some(u.as_str().to_string())
        },
        Err(_) => None,
    }
}

/// The serialisation (`as_str()`) of `s` parsed by `url::Url::parse`
/// (`None` when it does not parse).
pub uninterp spec fn url_serialized(s: Seq<char>) -> Option<Seq<char>>;

/// `url::Url::parse(s)` and `as_str()`. The contract says only that the
/// outcome is the named function of the input.
#[verifier::external_body]
pub(crate) fn serialize_url(s: &str) -> (r: Option<String>)
    ensures
        opt_string_view(r) == url_serialized(s@),
{
    match url::Url::parse(s) {
        Ok(u) => Some(u.as_str().to_string()),
        Err(_) => None,
    }
}

/// The last segment of the path of `s` parsed by `url::Url::parse`
/// (`path_segments()` then `last()`); `None` when it does not parse or has
/// no segmented path.
pub uninterp spec fn url_last_segment(s: Seq<char>) -> Option<Seq<char>>;

/// `url::Url::parse(s)`, `path_segments()` and `last()`. The contract says
/// only that the outcome is the named function of the input.
#[verifier::external_body]
pub(crate) fn last_url_segment(s: &str) -> (r: Option<String>)
    ensures
        opt_string_view(r) == url_last_segment(s@),
{
    match url::Url::parse(s) {
        Ok(u) => u.path_segments().and_then(|seg| seg.last()).map(|x| x.to_string()),
        Err(_) => None,
    }
}

/// What `url::Url::parse` makes of `s`, read out as `(username(),
/// password().is_some())`, or the displayed parse error.
pub uninterp spec fn url_userinfo(s: Seq<char>) -> Result<(Seq<char>, bool), Seq<char>>;

pub open spec fn userinfo_view(r: Result<(String, bool), String>) -> Result<(Seq<char>, bool), Seq<char>> {
    match r {
        Ok((user, has_password)) => Ok((user@, has_password)),
        Err(e) => Err(e@),
    }
}

/// `url::Url::parse(s)`, read out as the user name (empty when there is
/// none) and whether a password is given, or the displayed parse error.
/// The contract says only that the outcome is the named function of the
/// input.
#[verifier::external_body]
pub(crate) fn parse_url_userinfo(s: &str) -> (r: Result<(String, bool), String>)
    ensures
        userinfo_view(r) == url_userinfo(s@),
{
    match url::Url::parse(s) {
        Ok(u) => Ok((u.username().to_string(), u.password().is_some())),
        Err(e) => Err(e.to_string()),
    }
}

} // verus!
