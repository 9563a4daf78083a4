//! Updates on the desktop: the download address must be HTTPS on GitHub or
//! a known mirror (subdomains included); the file takes the last path
//! segment as its name; downloads are limited to 500 MiB.

use vstd::prelude::*;
use crate::text::{concat2, concat3, has_prefix, has_suffix, starts_with, str_eq, to_owned_string, u64_to_decimal, decimal};
use crate::net::{url_parts, parse_url_parts, url_last_segment, last_url_segment};
use crate::auth::protocol::{percent_encode_bytes, url_encode};
use vstd::utf8::encode_utf8;

verus! {

/// Largest update accepted, in bytes (500 MiB).
pub const MAX_DOWNLOAD_SIZE: u64 = 524288000;

/// `h` is the host `l` or a subdomain of it.
pub open spec fn host_matches_spec(h: Seq<char>, l: Seq<char>) -> bool {
    h == l || has_suffix(h, "."@ + l)
}

/// The hosts updates may come from (GitHub and known mirrors), with their
/// subdomains.
pub open spec fn is_allowed_update_host(h: Seq<char>) -> bool {
    ||| host_matches_spec(h, "github.com"@)
    ||| host_matches_spec(h, "api.github.com"@)
    ||| host_matches_spec(h, "github-releases.githubusercontent.com"@)
    ||| host_matches_spec(h, "objects.githubusercontent.com"@)
    ||| host_matches_spec(h, "ghfast.top"@)
    ||| host_matches_spec(h, "gh-proxy.com"@)
    ||| host_matches_spec(h, "gh-proxy.org"@)
    ||| host_matches_spec(h, "ghproxy.net"@)
    ||| host_matches_spec(h, "gh.llkk.cc"@)
    ||| host_matches_spec(h, "gh.ddlc.top"@)
    ||| host_matches_spec(h, "ghproxy.homeboyc.cn"@)
    ||| host_matches_spec(h, "githubproxy.cc"@)
    ||| host_matches_spec(h, "ghproxylist.com"@)
    ||| host_matches_spec(h, "moeyy.cn"@)
}

fn host_matches(host: &str, listed: &str) -> (r: bool)
    ensures
        r == host_matches_spec(host@, listed@),
{
    if str_eq(host, listed) {
        return true;
    }
    let dotted = concat2(".", listed);
    crate::text::ends_with(host, dotted.as_str())
}

fn allowed_update_host(host: &str) -> (r: bool)
    ensures
        r == is_allowed_update_host(host@),
{
    host_matches(host, "github.com") || host_matches(host, "api.github.com") || host_matches(host, "github-releases.githubusercontent.com") || host_matches(host, "objects.githubusercontent.com") || host_matches(host, "ghfast.top") || host_matches(host, "gh-proxy.com") || host_matches(host, "gh-proxy.org") || host_matches(host, "ghproxy.net") || host_matches(host, "gh.llkk.cc") || host_matches(host, "gh.ddlc.top") || host_matches(host, "ghproxy.homeboyc.cn") || host_matches(host, "githubproxy.cc") || host_matches(host, "ghproxylist.com") || host_matches(host, "moeyy.cn")
}

/// Why a download address is refused, if it is, else the file name: only
/// `https://`; the address must parse; its host (empty if none) must be
/// listed or under a listed one; the name is the last path segment, or
/// `update.exe`.
pub open spec fn spec_check_download_url(url: Seq<char>) -> Result<Seq<char>, Seq<char>> {
    if !has_prefix(url, "https://"@) {
        Err("仅允许HTTPS协议下载更新包"@)
    } else {
        match url_parts(url) {
            Err(e) => Err("URL解析失败: "@ + e),
            Ok((_, host)) => {
                let h = match host {
                    Some(x) => x,
                    None => ""@,
                };
                if !is_allowed_update_host(h) {
                    Err("不允许从该域名下载: "@ + h)
                } else {
                    Ok(
                        match url_last_segment(url) {
                            Some(n) => n,
                            None => "update.exe"@,
                        },
                    )
                }
            },
        }
    }
}

/// Checks a download address and returns the name the file is saved under
/// (see `spec_check_download_url`).
pub fn check_download_url(url: &str) -> (r: Result<String, String>)
    ensures
        match spec_check_download_url(url@) {
            Ok(n) => r matches Ok(s) && s@ == n,
            Err(m) => r matches Err(e) && e@ == m,
        },
{
    if !starts_with(url, "https://") {
        return Err(to_owned_string("仅允许HTTPS协议下载更新包"));
    }
    let parts = parse_url_parts(url);
    match parts {
        Err(e) => Err(concat2("URL解析失败: ", e.as_str())),
        Ok((_, host)) => {
            let h = match host {
                Some(x) => x,
                None => to_owned_string(""),
            };
            if !allowed_update_host(h.as_str()) {
                return Err(concat2("不允许从该域名下载: ", h.as_str()));
            }
            match last_url_segment(url) {
                Some(n) => Ok(n),
                None => Ok(to_owned_string("update.exe")),
            }
        },
    }
}

/// Refuses an update whose announced size exceeds the limit (sizes in
/// whole MiB in the message).
pub fn check_announced_size(total: u64) -> (r: Result<(), String>)
    ensures
        total <= MAX_DOWNLOAD_SIZE ==> r is Ok,
        total > MAX_DOWNLOAD_SIZE ==> (r matches Err(e) && e@ == "文件过大("@ + decimal(
            (total / 1024 / 1024) as nat,
        ) + "MB)，超过大小限制500MB)"@),
{
    if total > MAX_DOWNLOAD_SIZE {
        let mb = u64_to_decimal(total / 1024 / 1024);
        Err(concat3("文件过大(", mb.as_str(), "MB)，超过大小限制500MB)"))
    } else {
        Ok(())
    }
}

/// Stops a download that has grown past the limit.
pub fn check_downloaded_size(downloaded: u64) -> (r: Result<(), String>)
    ensures
        downloaded <= MAX_DOWNLOAD_SIZE ==> r is Ok,
        downloaded > MAX_DOWNLOAD_SIZE ==> (r matches Err(e) && e@ == "下载文件超过大小限制(500MB)"@),
{
    if downloaded > MAX_DOWNLOAD_SIZE {
        Err(to_owned_string("下载文件超过大小限制(500MB)"))
    } else {
        Ok(())
    }
}

/// Whether to report progress: at most every 200 ms, and always when the
/// announced size is reached.
pub fn should_emit_progress(elapsed_ms: u64, total: u64, downloaded: u64) -> (r: bool)
    ensures
        r == (elapsed_ms >= 200 || (total > 0 && downloaded == total)),
{
    elapsed_ms >= 200 || (total > 0 && downloaded == total)
}


/// A download mirror offered for a release file.
pub struct MirrorUrl {
    pub name: String,
    pub url: String,
    pub description: String,
}

/// Why a release address is refused for mirroring, if it is: it must be a
/// GitHub address, with no `..` and no backslash.
pub open spec fn mirror_source_error(u: Seq<char>) -> Option<Seq<char>> {
    if !has_prefix(u, "https://github.com/"@) && !has_prefix(u, "http://github.com/"@) {
        Some("无效的GitHub URL"@)
    } else if crate::text::has_substr(u, ".."@) || crate::text::has_substr(u, "\\"@) {
        Some("URL包含非法字符"@)
    } else {
        None
    }
}

/// The mirror's address: its base followed by the encoded release address.
pub open spec fn mirrored(base: Seq<char>, u: Seq<char>) -> Seq<char> {
    base + percent_encode_bytes(encode_utf8(u))
}

pub open spec fn is_mirror(m: MirrorUrl, name: Seq<char>, url: Seq<char>, description: Seq<char>) -> bool {
    m.name@ == name && m.url@ == url && m.description@ == description
}

fn mirror(name: &str, url: String, description: &str) -> (r: MirrorUrl)
    ensures
        is_mirror(r, name@, url@, description@),
{
    MirrorUrl { name: to_owned_string(name), url, description: to_owned_string(description) }
}

/// The mirrors of a GitHub release address: the address itself, then four
/// accelerating mirrors that take it percent-encoded.
pub fn mirror_urls(github_url: &str) -> (r: Result<Vec<MirrorUrl>, String>)
    ensures
        match mirror_source_error(github_url@) {
            Some(m) => r matches Err(e) && e@ == m,
            None => r matches Ok(v) && v@.len() == 5 && is_mirror(
                v@[0],
                "GitHub 官方"@,
                github_url@,
                "官方源，海外网络推荐"@,
            ) && is_mirror(
                v@[1],
                "ghfast.top"@,
                mirrored("https://ghfast.top/"@, github_url@),
                "国内加速，速度较快"@,
            ) && is_mirror(
                v@[2],
                "gh-proxy.com"@,
                mirrored("https://gh-proxy.com/"@, github_url@),
                "国内加速，多区域节点"@,
            ) && is_mirror(
                v@[3],
                "ghproxy.net"@,
                mirrored("https://ghproxy.net/"@, github_url@),
                "国内加速镜像"@,
            ) && is_mirror(
                v@[4],
                "gh.llkk.cc"@,
                mirrored("https://gh.llkk.cc/"@, github_url@),
                "国内加速镜像"@,
            ),
        },
{
    if !starts_with(github_url, "https://github.com/") && !starts_with(github_url, "http://github.com/") {
        return Err(to_owned_string("无效的GitHub URL"));
    }
    if crate::text::contains(github_url, "..") || crate::text::contains(github_url, "\\") {
        return Err(to_owned_string("URL包含非法字符"));
    }
    let encoded = url_encode(github_url);
    let mut v: Vec<MirrorUrl> = Vec::new();
    v.push(mirror("GitHub 官方", to_owned_string(github_url), "官方源，海外网络推荐"));
    v.push(mirror("ghfast.top", concat2("https://ghfast.top/", encoded.as_str()), "国内加速，速度较快"));
    v.push(mirror("gh-proxy.com", concat2("https://gh-proxy.com/", encoded.as_str()), "国内加速，多区域节点"));
    v.push(mirror("ghproxy.net", concat2("https://ghproxy.net/", encoded.as_str()), "国内加速镜像"));
    v.push(mirror("gh.llkk.cc", concat2("https://gh.llkk.cc/", encoded.as_str()), "国内加速镜像"));
    Ok(v)
}

/// Every mirror that `mirror_urls` offers can be downloaded from: an HTTPS
/// address whose host the URL parser reads as GitHub or as one of the
/// mirror hosts (ghfast.top, gh-proxy.com, ghproxy.net, gh.llkk.cc), or a
/// subdomain of one, passes the download check and is saved under its last
/// path segment (or `update.exe`).
pub proof fn law_offered_mirrors_are_downloadable(url: Seq<char>, scheme: Seq<char>, host: Seq<char>)
    requires
        has_prefix(url, "https://"@),
        url_parts(url) == Ok::<(Seq<char>, Option<Seq<char>>), Seq<char>>((scheme, Some(host))),
        host_matches_spec(host, "github.com"@) || host_matches_spec(host, "ghfast.top"@)
            || host_matches_spec(host, "gh-proxy.com"@) || host_matches_spec(host, "ghproxy.net"@)
            || host_matches_spec(host, "gh.llkk.cc"@),
    ensures
        spec_check_download_url(url) == Ok::<Seq<char>, Seq<char>>(
            match url_last_segment(url) {
                Some(n) => n,
                None => "update.exe"@,
            },
        ),
{
}

/// The mirror addresses `mirror_urls` builds are HTTPS addresses on those
/// mirror hosts: each starts with `https://`, the host and `/`.
pub proof fn law_mirror_addresses_use_listed_hosts(u: Seq<char>)
    ensures
        has_prefix(mirrored("https://ghfast.top/"@, u), "https://"@ + "ghfast.top"@ + "/"@),
        has_prefix(mirrored("https://gh-proxy.com/"@, u), "https://"@ + "gh-proxy.com"@ + "/"@),
        has_prefix(mirrored("https://ghproxy.net/"@, u), "https://"@ + "ghproxy.net"@ + "/"@),
        has_prefix(mirrored("https://gh.llkk.cc/"@, u), "https://"@ + "gh.llkk.cc"@ + "/"@),
        is_allowed_update_host("ghfast.top"@),
        is_allowed_update_host("gh-proxy.com"@),
        is_allowed_update_host("ghproxy.net"@),
        is_allowed_update_host("gh.llkk.cc"@),
        is_allowed_update_host("github.com"@),
{
    reveal_strlit("https://");
    reveal_strlit("ghfast.top");
    reveal_strlit("gh-proxy.com");
    reveal_strlit("ghproxy.net");
    reveal_strlit("gh.llkk.cc");
    reveal_strlit("/");
    reveal_strlit("https://ghfast.top/");
    reveal_strlit("https://gh-proxy.com/");
    reveal_strlit("https://ghproxy.net/");
    reveal_strlit("https://gh.llkk.cc/");
    let e = percent_encode_bytes(encode_utf8(u));
    assert(mirrored("https://ghfast.top/"@, u).take(19) =~= "https://"@ + "ghfast.top"@ + "/"@);
    assert(mirrored("https://gh-proxy.com/"@, u).take(21) =~= "https://"@ + "gh-proxy.com"@ + "/"@);
    assert(mirrored("https://ghproxy.net/"@, u).take(20) =~= "https://"@ + "ghproxy.net"@ + "/"@);
    assert(mirrored("https://gh.llkk.cc/"@, u).take(19) =~= "https://"@ + "gh.llkk.cc"@ + "/"@);
}

/// Only HTTPS addresses on a listed host (or under one) are downloaded:
/// any other address is refused, with the reason.
pub proof fn law_download_needs_https_and_listed_host(url: Seq<char>)
    ensures
        !has_prefix(url, "https://"@) ==> spec_check_download_url(url) == Err::<Seq<char>, Seq<char>>(
            "仅允许HTTPS协议下载更新包"@,
        ),
        spec_check_download_url(url) is Ok ==> has_prefix(url, "https://"@),
        spec_check_download_url(url) is Ok ==> (url_parts(url) matches Ok((_, host)) && is_allowed_update_host(
            match host {
                Some(x) => x,
                None => ""@,
            },
        )),
{
}

} // verus!
