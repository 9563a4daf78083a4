//! Updates on the phone: version comparison, the sources asked for the
//! version file, the download whitelist, the downloaded file's name, the
//! size limit and the checksum comparison.

use vstd::prelude::*;
use crate::text::{ascii_lowercase, chars_of, concat3, digits_value, first_char_index, first_char_index_of, has_substr, is_hex_digit, is_white_space, last_char_index, last_char_index_of, parse_unsigned, parses_unsigned, split_chars, split_on, str_eq, string_from_chars, to_ascii_lowercase_chars, to_owned_string, trim_start, trim_start_index_of, unsigned_digits, vec_contains, vec_subrange, char_is_white_space, char_is_hex_digit, concat2};
use crate::mobile::url_host::{url_host, url_host_of};

verus! {

/// Largest download accepted, in bytes (500 MiB).
pub const MAX_DOWNLOAD_BYTES: u64 = 524288000;

pub const VERSION_FILE: &'static str =
    "https://raw.githubusercontent.com/ikliml666/Wxxy-CampusLogin/main/version.json";
pub const VERSION_MIRROR_1: &'static str =
    "https://ghfast.top/https://raw.githubusercontent.com/ikliml666/Wxxy-CampusLogin/main/version.json";
pub const VERSION_MIRROR_2: &'static str =
    "https://gh-proxy.com/https://raw.githubusercontent.com/ikliml666/Wxxy-CampusLogin/main/version.json";
pub const VERSION_MIRROR_3: &'static str =
    "https://ghproxy.net/https://raw.githubusercontent.com/ikliml666/Wxxy-CampusLogin/main/version.json";

/// A downloadable file of a release.
#[derive(Debug, Clone)]
pub struct ReleaseAsset {
    pub name: String,
    pub url: String,
    pub size: u64,
}

/// What a version check found.
#[derive(Debug, Clone)]
pub struct UpdateInfo {
    pub has_update: bool,
    pub latest_version: String,
    pub release_notes: String,
    pub assets: Vec<ReleaseAsset>,
    pub sha256_checksum: Option<String>,
}

// ---------------------------------------------------------------------------
// Version comparison
// ---------------------------------------------------------------------------

/// Number of leading `v`s.
pub open spec fn leading_v_count(s: Seq<char>) -> int
    decreases s.len(),
{
    if s.len() > 0 && s[0] == 'v' {
        1 + leading_v_count(s.drop_first())
    } else {
        0
    }
}

/// Length of the run of ASCII digits that starts `s`.
pub open spec fn digit_prefix_len(s: Seq<char>) -> int
    decreases s.len(),
{
    if s.len() > 0 && '0' <= s[0] && s[0] <= '9' {
        1 + digit_prefix_len(s.drop_first())
    } else {
        0
    }
}

pub proof fn lemma_prefix_counts_bounded(s: Seq<char>)
    ensures
        0 <= leading_v_count(s) <= s.len(),
        0 <= digit_prefix_len(s) <= s.len(),
        forall|i: int| 0 <= i < leading_v_count(s) ==> s[i] == 'v',
        leading_v_count(s) < s.len() ==> s[leading_v_count(s)] != 'v',
        forall|i: int| 0 <= i < digit_prefix_len(s) ==> '0' <= #[trigger] s[i] <= '9',
        digit_prefix_len(s) < s.len() ==> !('0' <= s[digit_prefix_len(s)] <= '9'),
    decreases s.len(),
{
    if s.len() > 0 {
        lemma_prefix_counts_bounded(s.drop_first());
        assert forall|i: int| 0 <= i < digit_prefix_len(s) implies '0' <= #[trigger] s[i] <= '9' by {
            if i > 0 {
                assert(s[i] == s.drop_first()[i - 1]);
            }
        }
        assert forall|i: int| 0 <= i < leading_v_count(s) implies s[i] == 'v' by {
            if i > 0 {
                assert(s[i] == s.drop_first()[i - 1]);
            }
        }
    }
}

/// The number a version segment stands for: its leading digits read as a
/// `u32`, 0 when there are none or they overflow.
pub open spec fn segment_number(seg: Seq<char>) -> nat {
    let d = seg.take(digit_prefix_len(seg));
    if parses_unsigned(d, u32::MAX as nat) {
        digits_value(unsigned_digits(d))
    } else {
        0
    }
}

/// The numbers of a version string: leading `v`s dropped, split at `.`.
pub open spec fn version_numbers(s: Seq<char>) -> Seq<nat> {
    split_on(s.skip(leading_v_count(s)), '.').map_values(|seg: Seq<char>| segment_number(seg))
}

pub open spec fn number_at(v: Seq<nat>, i: int) -> nat {
    if 0 <= i < v.len() {
        v[i]
    } else {
        0
    }
}

/// Whether `l` is newer than `c` from position `i` on: the first position
/// where they differ decides, missing numbers counting as 0.
pub open spec fn newer_from(l: Seq<nat>, c: Seq<nat>, i: int) -> bool
    decreases (if l.len() > c.len() {
        l.len()
    } else {
        c.len()
    }) - i,
{
    if i < 0 || (i >= l.len() && i >= c.len()) {
        false
    } else if number_at(l, i) != number_at(c, i) {
        number_at(l, i) > number_at(c, i)
    } else {
        newer_from(l, c, i + 1)
    }
}

/// Whether `latest` is a newer version than `current`.
pub open spec fn spec_has_newer_version(current: Seq<char>, latest: Seq<char>) -> bool {
    newer_from(version_numbers(latest), version_numbers(current), 0)
}

fn version_numbers_of(s: &str) -> (r: Vec<u32>)
    ensures
        r@.len() == version_numbers(s@).len(),
        forall|i: int| 0 <= i < r.len() ==> r@[i] as nat == #[trigger] version_numbers(s@)[i],
{
    let v = chars_of(s);
    let mut k: usize = 0;
    while k < v.len() && v[k] == 'v'
        invariant
            k <= v.len(),
            forall|i: int| 0 <= i < k ==> v@[i] == 'v',
        decreases v.len() - k,
    {
        k = k + 1;
    }
    proof {
        lemma_prefix_counts_bounded(v@);
        lemma_leading_v_exact(v@, k as int);
    }
    let rest = vec_subrange(&v, k, v.len());
    assert(rest@ =~= s@.skip(leading_v_count(s@)));
    let parts = split_chars(&rest, '.');
    let mut out: Vec<u32> = Vec::new();
    let mut j: usize = 0;
    while j < parts.len()
        invariant
            j <= parts.len(),
            parts.len() == split_on(rest@, '.').len(),
            forall|i: int| 0 <= i < parts.len() ==> #[trigger] parts@[i]@ == split_on(rest@, '.')[i],
            out@.len() == j,
            forall|i: int| 0 <= i < j ==> out@[i] as nat == #[trigger] segment_number(split_on(rest@, '.')[i]),
        decreases parts.len() - j,
    {
        let seg = &parts[j];
        let mut d: usize = 0;
        while d < seg.len() && '0' <= seg[d] && seg[d] <= '9'
            invariant
                d <= seg.len(),
                forall|i: int| 0 <= i < d ==> '0' <= #[trigger] seg@[i] <= '9',
            decreases seg.len() - d,
        {
            d = d + 1;
        }
        proof {
            lemma_prefix_counts_bounded(seg@);
            lemma_digit_prefix_exact(seg@, d as int);
            assert(seg@.subrange(0, d as int) =~= seg@.take(d as int));
        }
        let n = match parse_unsigned(seg, 0, d, u32::MAX) {
            Some(x) => x,
            None => 0,
        };
        out.push(n);
        j = j + 1;
    }
    out
}

pub proof fn lemma_leading_v_exact(s: Seq<char>, k: int)
    requires
        0 <= k <= s.len(),
        forall|i: int| 0 <= i < k ==> s[i] == 'v',
        k == s.len() || s[k] != 'v',
    ensures
        leading_v_count(s) == k,
    decreases s.len(),
{
    if k > 0 {
        assert forall|i: int| 0 <= i < k - 1 implies s.drop_first()[i] == 'v' by {
            assert(s[i + 1] == 'v');
        }
        if k < s.len() {
            assert(s.drop_first()[k - 1] == s[k]);
        }
        lemma_leading_v_exact(s.drop_first(), k - 1);
    }
}

pub proof fn lemma_digit_prefix_exact(s: Seq<char>, k: int)
    requires
        0 <= k <= s.len(),
        forall|i: int| 0 <= i < k ==> '0' <= #[trigger] s[i] <= '9',
        k == s.len() || !('0' <= s[k] <= '9'),
    ensures
        digit_prefix_len(s) == k,
    decreases s.len(),
{
    if k > 0 {
        assert('0' <= s[0] <= '9');
        assert forall|i: int| 0 <= i < k - 1 implies '0' <= #[trigger] s.drop_first()[i] <= '9' by {
            assert('0' <= s[i + 1] <= '9');
        }
        if k < s.len() {
            assert(s.drop_first()[k - 1] == s[k]);
        }
        lemma_digit_prefix_exact(s.drop_first(), k - 1);
    }
}

/// Whether `latest` is newer than `current`: a leading `v` is ignored, the
/// dot-separated segments are compared as numbers (their leading digits,
/// 0 when there are none), a missing segment counting as 0.
pub fn has_newer_version(current: &str, latest: &str) -> (r: bool)
    ensures
        r == spec_has_newer_version(current@, latest@),
{
    let c = version_numbers_of(current);
    let l = version_numbers_of(latest);
    let ghost cs = version_numbers(current@);
    let ghost ls = version_numbers(latest@);
    let len = if c.len() > l.len() {
        c.len()
    } else {
        l.len()
    };
    let mut i: usize = 0;
    while i < len
        invariant
            cs == version_numbers(current@),
            ls == version_numbers(latest@),
            c@.len() == cs.len(),
            l@.len() == ls.len(),
            forall|k: int| 0 <= k < c.len() ==> c@[k] as nat == #[trigger] cs[k],
            forall|k: int| 0 <= k < l.len() ==> l@[k] as nat == #[trigger] ls[k],
            len == (if c.len() > l.len() {
                c.len()
            } else {
                l.len()
            }),
            i <= len,
            newer_from(ls, cs, 0) == newer_from(ls, cs, i as int),
        decreases len - i,
    {
        let cv: u32 = if i < c.len() {
            c[i]
        } else {
            0
        };
        let lv: u32 = if i < l.len() {
            l[i]
        } else {
            0
        };
        assert(cv as nat == number_at(cs, i as int));
        assert(lv as nat == number_at(ls, i as int));
        if lv != cv {
            assert(!(i >= ls.len() && i >= cs.len()));
            assert(newer_from(ls, cs, i as int) == (lv > cv));
            return lv > cv;
        }
        i = i + 1;
    }
    false
}

// ---------------------------------------------------------------------------
// Sources and the download whitelist
// ---------------------------------------------------------------------------

/// The version file's sources in the order they are tried: the mirrors
/// first (the usual choice), or the official source first.
pub fn version_urls(mirror_first: bool) -> (r: Vec<&'static str>)
    ensures
        r@.len() == 4,
        mirror_first ==> r@ == seq![VERSION_MIRROR_1, VERSION_MIRROR_2, VERSION_MIRROR_3, VERSION_FILE],
        !mirror_first ==> r@ == seq![VERSION_FILE, VERSION_MIRROR_1, VERSION_MIRROR_2, VERSION_MIRROR_3],
{
    if mirror_first {
        vec![VERSION_MIRROR_1, VERSION_MIRROR_2, VERSION_MIRROR_3, VERSION_FILE]
    } else {
        vec![VERSION_FILE, VERSION_MIRROR_1, VERSION_MIRROR_2, VERSION_MIRROR_3]
    }
}

/// The hosts downloads may come from: GitHub and its known mirrors.
pub open spec fn is_allowed_download_host(h: Seq<char>) -> bool {
    ||| h == "github.com"@
    ||| h == "api.github.com"@
    ||| h == "objects.githubusercontent.com"@
    ||| h == "raw.githubusercontent.com"@
    ||| h == "release-assets.githubusercontent.com"@
    ||| h == "ghfast.top"@
    ||| h == "gh-proxy.com"@
    ||| h == "ghproxy.net"@
}

fn allowed_download_host(h: &str) -> (r: bool)
    ensures
        r == is_allowed_download_host(h@),
{
    str_eq(h, "github.com") || str_eq(h, "api.github.com") || str_eq(h, "objects.githubusercontent.com")
        || str_eq(h, "raw.githubusercontent.com") || str_eq(h, "release-assets.githubusercontent.com")
        || str_eq(h, "ghfast.top") || str_eq(h, "gh-proxy.com") || str_eq(h, "ghproxy.net")
}

/// Why a download address is refused, if it is: no readable host, or a
/// host outside the whitelist (whatever the scheme).
pub open spec fn download_url_error(url: Seq<char>) -> Option<Seq<char>> {
    match url_host(url) {
        None => Some("URL 缺少合法主机名"@),
        Some(h) => if is_allowed_download_host(h) {
            None
        } else {
            Some("下载域名不在白名单: "@ + h)
        },
    }
}

/// Checks a download address against the host whitelist.
pub fn allowed_url(url: &str) -> (r: Result<(), String>)
    ensures
        match download_url_error(url@) {
            None => r is Ok,
            Some(m) => r matches Err(e) && e@ == m,
        },
{
    match url_host_of(url) {
        None => Err(to_owned_string("URL 缺少合法主机名")),
        Some(h) => if allowed_download_host(h.as_str()) {
            Ok(())
        } else {
            Err(concat2("下载域名不在白名单: ", h.as_str()))
        },
    }
}

// ---------------------------------------------------------------------------
// The downloaded file
// ---------------------------------------------------------------------------

/// What follows the last `/` of `s` (all of `s` if there is none).
pub open spec fn after_last_slash(s: Seq<char>) -> Seq<char> {
    match last_char_index(s, '/') {
        Some(k) => s.skip(k + 1),
        None => s,
    }
}

/// The name the download is saved under: the last path segment without its
/// query, unless that is empty or holds `..`; then `campus-login-<version>.apk`.
pub open spec fn spec_download_file_name(url: Seq<char>, version: Seq<char>) -> Seq<char> {
    let last = after_last_slash(url);
    let name = last.take(first_char_index(last, '?'));
    if last.len() == 0 || has_substr(name, ".."@) {
        "campus-login-"@ + version + ".apk"@
    } else {
        name
    }
}

/// The name the download is saved under (see `spec_download_file_name`).
pub fn download_file_name(url: &str, version: &str) -> (r: String)
    ensures
        r@ == spec_download_file_name(url@, version@),
{
    let v = chars_of(url);
    let last = match last_char_index_of(&v, '/') {
        Some(k) => {
            assert(crate::text::is_last_char_index(v@, '/', k as int));
            assert(k < v.len());
            vec_subrange(&v, k + 1, v.len())
        },
        None => vec_subrange(&v, 0, v.len()),
    };
    assert(last@ =~= after_last_slash(url@));
    let q = first_char_index_of(&last, '?');
    let name = vec_subrange(&last, 0, q);
    assert(name@ =~= last@.take(q as int));
    let dots = chars_of("..");
    if last.len() == 0 || vec_contains(&name, &dots) {
        concat3("campus-login-", version, ".apk")
    } else {
        string_from_chars(&name, 0, name.len())
    }
}

/// Whether one more chunk still fits under the download limit.
pub fn chunk_fits(downloaded: u64, chunk_len: u64) -> (r: bool)
    ensures
        r == (downloaded + chunk_len <= MAX_DOWNLOAD_BYTES),
{
    chunk_len <= MAX_DOWNLOAD_BYTES && downloaded <= MAX_DOWNLOAD_BYTES - chunk_len
}

// ---------------------------------------------------------------------------
// Checksum
// ---------------------------------------------------------------------------

/// `s.split_whitespace().next().unwrap_or("")`: the first run of
/// non-white-space characters.
pub open spec fn first_token(s: Seq<char>) -> Seq<char> {
    let t = trim_start(s);
    t.take(first_white_space_index(t))
}

/// Index of the first white-space character of `s` (`s.len()` if none).
pub open spec fn first_white_space_index(s: Seq<char>) -> int
    decreases s.len(),
{
    if s.len() == 0 || is_white_space(s[0]) {
        0
    } else {
        1 + first_white_space_index(s.drop_first())
    }
}

pub proof fn lemma_first_white_space_exact(s: Seq<char>, k: int)
    requires
        0 <= k <= s.len(),
        forall|i: int| 0 <= i < k ==> !is_white_space(#[trigger] s[i]),
        k == s.len() || is_white_space(s[k]),
    ensures
        first_white_space_index(s) == k,
    decreases s.len(),
{
    if k > 0 {
        assert(!is_white_space(s[0]));
        assert forall|i: int| 0 <= i < k - 1 implies !is_white_space(#[trigger] s.drop_first()[i]) by {
            assert(!is_white_space(s[i + 1]));
        }
        if k < s.len() {
            assert(s.drop_first()[k - 1] == s[k]);
        }
        lemma_first_white_space_exact(s.drop_first(), k - 1);
    }
}

/// The expected checksum, cleaned: the first token (a `hex name` line is
/// accepted) in lower case, if it is 64 hexadecimal digits; `None` means
/// no usable checksum (the check is skipped).
pub open spec fn clean_checksum(expected: Seq<char>) -> Option<Seq<char>> {
    let c = ascii_lowercase(first_token(expected));
    if c.len() == 64 && forall|i: int| 0 <= i < 64 ==> is_hex_digit(#[trigger] c[i]) {
        Some(c)
    } else {
        None
    }
}

/// The cleaned expected checksum (see `clean_checksum`).
pub fn expected_checksum(expected: &str) -> (r: Option<String>)
    ensures
        match clean_checksum(expected@) {
            Some(c) => r matches Some(s) && s@ == c,
            None => r is None,
        },
{
    let v = chars_of(expected);
    let a = trim_start_index_of(&v);
    let t = vec_subrange(&v, a, v.len());
    assert(t@ =~= trim_start(expected@));
    let mut k: usize = 0;
    while k < t.len() && !char_is_white_space(t[k])
        invariant
            k <= t.len(),
            forall|i: int| 0 <= i < k ==> !is_white_space(#[trigger] t@[i]),
        decreases t.len() - k,
    {
        k = k + 1;
    }
    proof {
        lemma_first_white_space_exact(t@, k as int);
    }
    let tok = vec_subrange(&t, 0, k);
    assert(tok@ =~= first_token(expected@));
    let c = to_ascii_lowercase_chars(&tok);
    if c.len() != 64 {
        return None;
    }
    let mut i: usize = 0;
    while i < 64
        invariant
            c.len() == 64,
            c@ == ascii_lowercase(first_token(expected@)),
            i <= 64,
            forall|j: int| 0 <= j < i ==> is_hex_digit(#[trigger] c@[j]),
        decreases 64 - i,
    {
        if !char_is_hex_digit(c[i]) {
            assert(!is_hex_digit(c@[i as int]));
            return None;
        }
        i = i + 1;
    }
    Some(string_from_chars(&c, 0, c.len()))
}

pub open spec fn lower_hex_digit(d: u8) -> char {
    if d < 10 {
        (('0' as u8) + d) as char
    } else {
        (('a' as u8) + d - 10) as char
    }
}

/// Lower-case hexadecimal rendering of bytes, two digits each.
pub open spec fn lower_hex(bs: Seq<u8>) -> Seq<char>
    decreases bs.len(),
{
    if bs.len() == 0 {
        Seq::empty()
    } else {
        lower_hex(bs.drop_last()) + seq![
            lower_hex_digit(bs.last() / 16),
            lower_hex_digit(bs.last() % 16),
        ]
    }
}

fn hex_digit_char(d: u8) -> (c: char)
    requires
        d < 16,
    ensures
        c == lower_hex_digit(d),
{
    if d < 10 {
        (('0' as u8) + d) as char
    } else {
        (('a' as u8) + d - 10) as char
    }
}

/// Lower-case hexadecimal rendering of a digest.
pub fn digest_hex(digest: &Vec<u8>) -> (r: String)
    ensures
        r@ == lower_hex(digest@),
{
    let mut out: Vec<char> = Vec::new();
    let mut i: usize = 0;
    while i < digest.len()
        invariant
            i <= digest.len(),
            out@ == lower_hex(digest@.take(i as int)),
        decreases digest.len() - i,
    {
        let b = digest[i];
        out.push(hex_digit_char(b / 16));
        out.push(hex_digit_char(b % 16));
        proof {
            let p = digest@.take(i + 1);
            assert(p.drop_last() =~= digest@.take(i as int));
            assert(p.last() == b);
        }
        assert(out@ =~= lower_hex(digest@.take(i + 1)));
        i = i + 1;
    }
    assert(digest@.take(digest.len() as int) =~= digest@);
    string_from_chars(&out, 0, out.len())
}

/// Whether a downloaded file's digest passes the check: with no usable
/// expected checksum it does; otherwise its hexadecimal form must equal it.
pub fn digest_matches(expected: &str, digest: &Vec<u8>) -> (r: bool)
    ensures
        r == match clean_checksum(expected@) {
            None => true,
            Some(c) => lower_hex(digest@) == c,
        },
{
    match expected_checksum(expected) {
        None => true,
        Some(c) => {
            let actual = digest_hex(digest);
            str_eq(actual.as_str(), c.as_str())
        },
    }
}

/// The download addresses offered for a release file on the phone, as
/// `(name, url)`: GitHub itself, then three mirrors that take the address
/// as it is.
pub fn mirror_urls(github_url: &str) -> (r: Vec<(String, String)>)
    ensures
        r@.len() == 4,
        r@[0].0@ == "GitHub"@ && r@[0].1@ == github_url@,
        r@[1].0@ == "ghfast.top"@ && r@[1].1@ == "https://ghfast.top/"@ + github_url@,
        r@[2].0@ == "gh-proxy.com"@ && r@[2].1@ == "https://gh-proxy.com/"@ + github_url@,
        r@[3].0@ == "ghproxy.net"@ && r@[3].1@ == "https://ghproxy.net/"@ + github_url@,
{
    let mut v: Vec<(String, String)> = Vec::new();
    v.push((to_owned_string("GitHub"), to_owned_string(github_url)));
    v.push((to_owned_string("ghfast.top"), concat2("https://ghfast.top/", github_url)));
    v.push((to_owned_string("gh-proxy.com"), concat2("https://gh-proxy.com/", github_url)));
    v.push((to_owned_string("ghproxy.net"), concat2("https://ghproxy.net/", github_url)));
    v
}

/// A leading `v` makes no difference: `v2.4.0` compares as `2.4.0`, on
/// either side.
pub proof fn law_leading_v_is_ignored(a: Seq<char>, b: Seq<char>)
    ensures
        spec_has_newer_version(a, seq!['v'] + b) == spec_has_newer_version(a, b),
        spec_has_newer_version(seq!['v'] + a, b) == spec_has_newer_version(a, b),
{
    lemma_leading_v_dropped(a);
    lemma_leading_v_dropped(b);
}

pub proof fn lemma_leading_v_dropped(s: Seq<char>)
    ensures
        version_numbers(seq!['v'] + s) == version_numbers(s),
{
    let t = seq!['v'] + s;
    assert(t[0] == 'v');
    assert(t.drop_first() =~= s);
    assert(leading_v_count(t) == 1 + leading_v_count(s));
    lemma_prefix_counts_bounded(s);
    assert(t.skip(leading_v_count(t)) =~= s.skip(leading_v_count(s)));
}

/// A version is never newer than itself.
pub proof fn law_version_not_newer_than_itself(v: Seq<char>)
    ensures
        !spec_has_newer_version(v, v),
{
    lemma_newer_from_self(version_numbers(v), 0);
}

pub proof fn lemma_newer_from_self(l: Seq<nat>, i: int)
    ensures
        !newer_from(l, l, i),
    decreases l.len() - i,
{
    if i >= 0 && i < l.len() {
        lemma_newer_from_self(l, i + 1);
    }
}

/// Of two versions, at most one is newer than the other.
pub proof fn law_version_order_is_asymmetric(a: Seq<char>, b: Seq<char>)
    ensures
        !(spec_has_newer_version(a, b) && spec_has_newer_version(b, a)),
{
    lemma_newer_from_asymmetric(version_numbers(b), version_numbers(a), 0);
}

pub proof fn lemma_newer_from_asymmetric(l: Seq<nat>, c: Seq<nat>, i: int)
    ensures
        !(newer_from(l, c, i) && newer_from(c, l, i)),
    decreases (if l.len() > c.len() {
        l.len()
    } else {
        c.len()
    }) - i,
{
    if i >= 0 && !(i >= l.len() && i >= c.len()) && number_at(l, i) == number_at(c, i) {
        lemma_newer_from_asymmetric(l, c, i + 1);
    }
}

} // verus!
