//! The host part of an address, as the portal probe and the download
//! whitelist read it: what follows the first `://` (up to the next one), cut
//! at the first `/`, without a numeric port.

use vstd::prelude::*;
use crate::text::{
    all_digits, chars_of, first_char_index, first_occurrence, last_char_index, find_first,
    first_char_index_of, last_char_index_of, vec_subrange, all_digits_in, string_from_chars,
};

verus! {

/// `s.split("://").nth(1)`: what follows the first `://`, up to the next.
pub open spec fn after_scheme(s: Seq<char>) -> Option<Seq<char>> {
    match first_occurrence(s, "://"@) {
        None => None,
        Some(i) => {
            let rest = s.skip(i + 3);
            match first_occurrence(rest, "://"@) {
                None => Some(rest),
                Some(j) => Some(rest.take(j)),
            }
        },
    }
}

/// `s.split('/').next()`: `s` up to its first `/`.
pub open spec fn before_slash(s: Seq<char>) -> Seq<char> {
    s.take(first_char_index(s, '/'))
}

/// The host of `host[:port]`: `None` when a colon is followed by something
/// other than digits, or nothing stands before it.
pub open spec fn host_of_host_port(hp: Seq<char>) -> Option<Seq<char>> {
    match last_char_index(hp, ':') {
        None => Some(hp),
        Some(k) => if k > 0 && all_digits(hp.skip(k + 1)) {
            Some(hp.take(k))
        } else {
            None
        },
    }
}

/// The host named by an absolute address, if it names one.
pub open spec fn url_host(url: Seq<char>) -> Option<Seq<char>> {
    match after_scheme(url) {
        None => None,
        Some(seg) => host_of_host_port(before_slash(seg)),
    }
}

/// The portal host: as `url_host`, but an address without a scheme is read
/// whole, and a `host:port` whose port is not numeric is kept as it is.
pub open spec fn spec_portal_host_of(url: Seq<char>) -> Seq<char> {
    let seg = match after_scheme(url) {
        Some(x) => x,
        None => url,
    };
    let hp = before_slash(seg);
    match host_of_host_port(hp) {
        Some(h) => h,
        None => hp,
    }
}

fn after_scheme_of(v: &Vec<char>) -> (r: Option<Vec<char>>)
    ensures
        match after_scheme(v@) {
            Some(x) => r matches Some(w) && w@ == x,
            None => r is None,
        },
{
    let sep = chars_of("://");
    proof {
        reveal_strlit("://");
    }
    match find_first(v, &sep) {
        None => None,
        Some(i) => {
            assert(i + 3 <= v.len()) by {
                assert(crate::text::occurs_at(v@, sep@, i as int));
            }
            let rest = vec_subrange(v, i + 3, v.len());
            assert(rest@ =~= v@.skip(i + 3));
            match find_first(&rest, &sep) {
                None => Some(rest),
                Some(j) => {
                    let seg = vec_subrange(&rest, 0, j);
                    assert(seg@ =~= rest@.take(j as int));
                    Some(seg)
                },
            }
        },
    }
}

fn before_slash_of(v: &Vec<char>) -> (r: Vec<char>)
    ensures
        r@ == before_slash(v@),
{
    let k = first_char_index_of(v, '/');
    let r = vec_subrange(v, 0, k);
    assert(r@ =~= v@.take(k as int));
    r
}

fn host_of_host_port_of(hp: &Vec<char>) -> (r: Option<Vec<char>>)
    ensures
        match host_of_host_port(hp@) {
            Some(h) => r matches Some(w) && w@ == h,
            None => r is None,
        },
{
    match last_char_index_of(hp, ':') {
        None => Some(vec_subrange(hp, 0, hp.len())),
        Some(k) => {
            assert(crate::text::is_last_char_index(hp@, ':', k as int));
            assert(k < hp.len());
            let digits = all_digits_in(hp, k + 1, hp.len());
            assert(hp@.subrange(k + 1, hp.len() as int) =~= hp@.skip(k + 1));
            if k > 0 && digits {
                let h = vec_subrange(hp, 0, k);
                assert(h@ =~= hp@.take(k as int));
                Some(h)
            } else {
                None
            }
        },
    }
}

/// The host named by `url` (see `url_host`).
pub fn url_host_of(url: &str) -> (r: Option<String>)
    ensures
        match url_host(url@) {
            Some(h) => r matches Some(s) && s@ == h,
            None => r is None,
        },
{
    let v = chars_of(url);
    match after_scheme_of(&v) {
        None => None,
        Some(seg) => {
            let hp = before_slash_of(&seg);
            match host_of_host_port_of(&hp) {
                Some(h) => Some(string_from_chars(&h, 0, h.len())),
                None => None,
            }
        },
    }
}

/// `"http://10.1.99.100" -> "10.1.99.100"`: drops the scheme, the port and
/// the path; what cannot be read that way is returned as it stands.
pub fn portal_host_of(url: &str) -> (r: String)
    ensures
        r@ == spec_portal_host_of(url@),
{
    let v = chars_of(url);
    let seg = match after_scheme_of(&v) {
        Some(x) => x,
        None => v,
    };
    let hp = before_slash_of(&seg);
    match host_of_host_port_of(&hp) {
        Some(h) => string_from_chars(&h, 0, h.len()),
        None => string_from_chars(&hp, 0, hp.len()),
    }
}

} // verus!
