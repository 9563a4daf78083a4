//! What the phone's hardware says about how much the interface can afford:
//! the performance tier from the SoC model (or, without one, from the big
//! cores and the memory), the big-core count, the memory size, and which
//! cores form the little cluster.

use vstd::prelude::*;
use crate::text::{
    ascii_uppercase, chars_of, digits_value, first_char_index, first_char_index_of, has_prefix,
    is_white_space, parse_unsigned_u64, parses_unsigned, starts_with, to_ascii_uppercase_chars, trim,
    trim_bounds, trim_start, trim_start_index_of, unsigned_digits, vec_subrange, char_is_white_space,
    string_from_chars,
};
use crate::mobile::update::{first_token, first_white_space_index, lemma_first_white_space_exact};

verus! {

/// A core whose highest frequency reaches this (in kHz) counts as a big core.
pub const BIG_CORE_MIN_KHZ: u64 = 1800000;

// ---------------------------------------------------------------------------
// Tier
// ---------------------------------------------------------------------------

/// Snapdragon 8 series of every generation, Dimensity 9300 and 9400.
pub open spec fn is_flagship_soc(s: Seq<char>) -> bool {
    ||| has_prefix(s, "SM8250"@)
    ||| has_prefix(s, "SM8350"@)
    ||| has_prefix(s, "SM8450"@)
    ||| has_prefix(s, "SM8475"@)
    ||| has_prefix(s, "SM8550"@)
    ||| has_prefix(s, "SM8650"@)
    ||| has_prefix(s, "SM8750"@)
    ||| has_prefix(s, "MT6989"@)
    ||| has_prefix(s, "MT6991"@)
}

/// Snapdragon 7 series and the upper Dimensity 8 and 9 models.
pub open spec fn is_upper_mid_soc(s: Seq<char>) -> bool {
    ||| has_prefix(s, "SM7"@)
    ||| has_prefix(s, "MT6985"@)
    ||| has_prefix(s, "MT6983"@)
    ||| has_prefix(s, "MT689"@)
    ||| has_prefix(s, "MT698"@)
}

/// The tier (0 entry .. 3 flagship): the SoC model decides (case-blind);
/// an unknown model is tier 1; with no model at all, four big cores and
/// 8 GiB give tier 2, two big cores or 4 GiB tier 1, less tier 0.
pub open spec fn spec_tier(soc: Seq<char>, big_cores: u32, mem_mb: u64) -> u32 {
    let s = ascii_uppercase(soc);
    if is_flagship_soc(s) {
        3
    } else if is_upper_mid_soc(s) {
        2
    } else if s.len() == 0 {
        if big_cores >= 4 && mem_mb >= 8 * 1024 {
            2
        } else if big_cores >= 2 || mem_mb >= 4 * 1024 {
            1
        } else {
            0
        }
    } else {
        1
    }
}

fn flagship_soc(s: &str) -> (r: bool)
    ensures
        r == is_flagship_soc(s@),
{
    starts_with(s, "SM8250") || starts_with(s, "SM8350") || starts_with(s, "SM8450") || starts_with(s, "SM8475")
        || starts_with(s, "SM8550") || starts_with(s, "SM8650") || starts_with(s, "SM8750") || starts_with(
        s,
        "MT6989",
    ) || starts_with(s, "MT6991")
}

fn upper_mid_soc(s: &str) -> (r: bool)
    ensures
        r == is_upper_mid_soc(s@),
{
    starts_with(s, "SM7") || starts_with(s, "MT6985") || starts_with(s, "MT6983") || starts_with(s, "MT689")
        || starts_with(s, "MT698")
}

/// The performance tier of the phone (see `spec_tier`).
pub fn tier_of(soc: &str, big_cores: u32, mem_mb: u64) -> (r: u32)
    ensures
        r == spec_tier(soc@, big_cores, mem_mb),
{
    let v = chars_of(soc);
    let u = to_ascii_uppercase_chars(&v);
    let s = string_from_chars(&u, 0, u.len());
    assert(u@.subrange(0, u.len() as int) =~= u@);
    if flagship_soc(s.as_str()) {
        3
    } else if upper_mid_soc(s.as_str()) {
        2
    } else if u.len() == 0 {
        if big_cores >= 4 && mem_mb >= 8 * 1024 {
            2
        } else if big_cores >= 2 || mem_mb >= 4 * 1024 {
            1
        } else {
            0
        }
    } else {
        1
    }
}

// ---------------------------------------------------------------------------
// Frequencies and memory
// ---------------------------------------------------------------------------

/// `s.trim().parse::<u64>().ok()`.
pub open spec fn spec_trimmed_u64(s: Seq<char>) -> Option<u64> {
    let t = trim(s);
    if parses_unsigned(t, u64::MAX as nat) {
        Some(digits_value(unsigned_digits(t)) as u64)
    } else {
        None
    }
}

/// Reads a frequency file's content (kHz, surrounded by white space).
pub fn parse_trimmed_u64(s: &str) -> (r: Option<u64>)
    ensures
        r == spec_trimmed_u64(s@),
{
    let v = chars_of(s);
    let (a, b) = trim_bounds(&v);
    parse_unsigned_u64(&v, a, b)
}

/// How many of the frequencies reach `min`.
pub open spec fn count_at_least(fs: Seq<u64>, min: u64) -> nat
    decreases fs.len(),
{
    if fs.len() == 0 {
        0
    } else {
        count_at_least(fs.drop_last(), min) + (if fs.last() >= min {
            1nat
        } else {
            0nat
        })
    }
}

pub proof fn lemma_count_at_most_len(fs: Seq<u64>, min: u64)
    ensures
        count_at_least(fs, min) <= fs.len(),
    decreases fs.len(),
{
    if fs.len() > 0 {
        lemma_count_at_most_len(fs.drop_last(), min);
    }
}

/// The number of big cores among the highest frequencies (kHz) of the
/// cores that could be read.
pub fn big_core_count(max_freqs_khz: &Vec<u64>) -> (r: u32)
    requires
        max_freqs_khz.len() <= u32::MAX,
    ensures
        r as nat == count_at_least(max_freqs_khz@, BIG_CORE_MIN_KHZ),
{
    let mut n: u32 = 0;
    let mut i: usize = 0;
    while i < max_freqs_khz.len()
        invariant
            i <= max_freqs_khz.len() <= u32::MAX,
            n as nat == count_at_least(max_freqs_khz@.take(i as int), BIG_CORE_MIN_KHZ),
        decreases max_freqs_khz.len() - i,
    {
        proof {
            assert(max_freqs_khz@.take(i + 1).drop_last() =~= max_freqs_khz@.take(i as int));
            lemma_count_at_most_len(max_freqs_khz@.take(i as int), BIG_CORE_MIN_KHZ);
        }
        if max_freqs_khz[i] >= BIG_CORE_MIN_KHZ {
            n = n + 1;
        }
        i = i + 1;
    }
    assert(max_freqs_khz@.take(i as int) =~= max_freqs_khz@);
    n
}

/// The second white-space separated field of the first line (the size in
/// kB on `/proc/meminfo`'s `MemTotal:` line).
pub open spec fn second_field_of_first_line(s: Seq<char>) -> Seq<char> {
    let line = s.take(first_char_index(s, '\n'));
    let t = trim_start(line);
    first_token(t.skip(first_white_space_index(t)))
}

/// The memory size in MiB from `/proc/meminfo`: the first line's second
/// field in kB, divided by 1024; 0 when it cannot be read.
pub open spec fn spec_mem_total_mb(meminfo: Seq<char>) -> u64 {
    let f = second_field_of_first_line(meminfo);
    if parses_unsigned(f, u64::MAX as nat) {
        (digits_value(unsigned_digits(f)) / 1024) as u64
    } else {
        0
    }
}

/// The index of the first white-space character of `v` at or after
/// `from` (`v.len()` if none).
fn white_space_from(v: &Vec<char>, from: usize) -> (r: usize)
    requires
        from <= v.len(),
    ensures
        from <= r <= v.len(),
        r - from == first_white_space_index(v@.skip(from as int)),
{
    let mut k: usize = from;
    while k < v.len() && !char_is_white_space(v[k])
        invariant
            from <= k <= v.len(),
            forall|i: int| from <= i < k ==> !is_white_space(#[trigger] v@[i]),
        decreases v.len() - k,
    {
        k = k + 1;
    }
    proof {
        let t = v@.skip(from as int);
        assert forall|i: int| 0 <= i < k - from implies !is_white_space(#[trigger] t[i]) by {
            assert(t[i] == v@[from + i]);
        }
        if k < v.len() {
            assert(t[k - from] == v@[k as int]);
        }
        lemma_first_white_space_exact(t, k - from);
    }
    k
}

/// The memory size in MiB read from `/proc/meminfo` (see `spec_mem_total_mb`).
pub fn mem_total_mb(meminfo: &str) -> (r: u64)
    ensures
        r == spec_mem_total_mb(meminfo@),
{
    let v = chars_of(meminfo);
    let nl = first_char_index_of(&v, '\n');
    let line = vec_subrange(&v, 0, nl);
    assert(line@ =~= meminfo@.take(nl as int));
    let a = trim_start_index_of(&line);
    let t = vec_subrange(&line, a, line.len());
    assert(t@ =~= trim_start(line@));
    let e = white_space_from(&t, 0);
    assert(t@.skip(0) =~= t@);
    let rest = vec_subrange(&t, e, t.len());
    assert(rest@ =~= t@.skip(first_white_space_index(t@)));
    let b = trim_start_index_of(&rest);
    let f_end = white_space_from(&rest, b);
    proof {
        assert(rest@.skip(b as int) =~= trim_start(rest@));
        assert(first_token(rest@) =~= rest@.subrange(b as int, f_end as int));
    }
    match parse_unsigned_u64(&rest, b, f_end) {
        Some(kb) => kb / 1024,
        None => 0,
    }
}

// ---------------------------------------------------------------------------
// Little cores
// ---------------------------------------------------------------------------

/// The lowest frequency of a non-empty list of `(core, kHz)`.
pub open spec fn min_freq(s: Seq<(usize, u64)>) -> u64
    decreases s.len(),
{
    if s.len() <= 1 {
        s[0].1
    } else if s.last().1 < min_freq(s.drop_last()) {
        s.last().1
    } else {
        min_freq(s.drop_last())
    }
}

/// The highest frequency of a non-empty list of `(core, kHz)`.
pub open spec fn max_freq(s: Seq<(usize, u64)>) -> u64
    decreases s.len(),
{
    if s.len() <= 1 {
        s[0].1
    } else if s.last().1 > max_freq(s.drop_last()) {
        s.last().1
    } else {
        max_freq(s.drop_last())
    }
}

/// The cores whose frequency is `f`, in list order.
pub open spec fn cores_at(s: Seq<(usize, u64)>, f: u64) -> Seq<usize>
    decreases s.len(),
{
    if s.len() == 0 {
        Seq::empty()
    } else if s.last().1 == f {
        cores_at(s.drop_last(), f).push(s.last().0)
    } else {
        cores_at(s.drop_last(), f)
    }
}

/// `x.saturating_mul(k)`.
pub open spec fn sat_mul(x: u64, k: u64) -> int {
    if x * k > u64::MAX {
        u64::MAX as int
    } else {
        x * k
    }
}

/// The little cores: the cores of the lowest frequency; none when fewer
/// than two cores were read or the highest frequency is less than 1.3
/// times the lowest (one cluster, nothing to choose).
pub open spec fn spec_little_cores(s: Seq<(usize, u64)>) -> Seq<usize> {
    if s.len() < 2 {
        Seq::empty()
    } else if sat_mul(max_freq(s), 100) < sat_mul(min_freq(s), 130) {
        Seq::empty()
    } else {
        cores_at(s, min_freq(s))
    }
}

fn sat_mul_u64(x: u64, k: u64) -> (r: u64)
    ensures
        r == sat_mul(x, k),
{
    x.checked_mul(k).unwrap_or(u64::MAX)
}

/// The little cores among the `(core, highest kHz)` pairs of the cores
/// that could be read, in the order read (see `spec_little_cores`).
pub fn little_core_ids(freqs: &Vec<(usize, u64)>) -> (r: Vec<usize>)
    ensures
        r@ == spec_little_cores(freqs@),
{
    if freqs.len() < 2 {
        return Vec::new();
    }
    let mut mn: u64 = freqs[0].1;
    let mut mx: u64 = freqs[0].1;
    let mut i: usize = 1;
    while i < freqs.len()
        invariant
            1 <= i <= freqs.len(),
            mn == min_freq(freqs@.take(i as int)),
            mx == max_freq(freqs@.take(i as int)),
        decreases freqs.len() - i,
    {
        proof {
            assert(freqs@.take(i + 1).drop_last() =~= freqs@.take(i as int));
        }
        let f = freqs[i].1;
        if f < mn {
            mn = f;
        }
        if f > mx {
            mx = f;
        }
        i = i + 1;
    }
    assert(freqs@.take(i as int) =~= freqs@);
    if sat_mul_u64(mx, 100) < sat_mul_u64(mn, 130) {
        return Vec::new();
    }
    let mut out: Vec<usize> = Vec::new();
    let mut j: usize = 0;
    while j < freqs.len()
        invariant
            j <= freqs.len(),
            out@ == cores_at(freqs@.take(j as int), mn),
        decreases freqs.len() - j,
    {
        proof {
            assert(freqs@.take(j + 1).drop_last() =~= freqs@.take(j as int));
        }
        if freqs[j].1 == mn {
            out.push(freqs[j].0);
        }
        j = j + 1;
    }
    assert(freqs@.take(j as int) =~= freqs@);
    out
}

/// Every little core has the lowest frequency read, and there is a little
/// cluster only when the frequencies differ by at least 30 %.
pub proof fn law_little_cores_are_slowest(s: Seq<(usize, u64)>)
    ensures
        spec_little_cores(s).len() > 0 ==> s.len() >= 2 && sat_mul(max_freq(s), 100) >= sat_mul(
            min_freq(s),
            130,
        ),
{
}

} // verus!
