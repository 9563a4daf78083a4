//! Installing a downloaded update: where its SHA-256 checksum is read from,
//! and which installer runs it.

use vstd::prelude::*;
use crate::text::{concat2, str_eq, to_owned_string};

verus! {

/// What `serde_json::from_str::<Vec<String>>` makes of `text` (`None` when
/// it is not a JSON array of strings).
pub uninterp spec fn json_string_list(text: Seq<char>) -> Option<Seq<Seq<char>>>;

pub open spec fn strings_view(v: Seq<String>) -> Seq<Seq<char>> {
    v.map_values(|s: String| s@)
}

pub open spec fn opt_strings_view(r: Option<Vec<String>>) -> Option<Seq<Seq<char>>> {
    match r {
        Some(v) => Some(strings_view(v@)),
        None => None,
    }
}

/// `serde_json::from_str::<Vec<String>>(text)`, `None` on error. The
/// contract says only that the outcome is the named function of the input.
#[verifier::external_body]
fn parse_json_string_list(text: &str) -> (r: Option<Vec<String>>)
    ensures
        opt_strings_view(r) == json_string_list(text@),
{
    serde_json::from_str::<Vec<String>>(text).ok()
}

/// The addresses the checksum of an update is fetched from: none given (or
/// an empty one) blocks the install; a JSON array of addresses (text
/// starting with `[` that parses as one) gives those mirrors; anything else
/// is a single address.
pub open spec fn spec_checksum_sources(checksum_url: Option<Seq<char>>) -> Result<Seq<Seq<char>>, Seq<char>> {
    match checksum_url {
        None => Err("未提供SHA256校验和，安装已阻止"@),
        Some(u) => if u.len() == 0 {
            Err("未提供SHA256校验和，安装已阻止"@)
        } else if u[0] == '[' && json_string_list(u) is Some {
            Ok(json_string_list(u)->Some_0)
        } else {
            Ok(seq![u])
        },
    }
}

pub open spec fn opt_str_view(o: Option<&str>) -> Option<Seq<char>> {
    match o {
        Some(s) => Some(s@),
        None => None,
    }
}

/// Where the checksum of an update comes from (see `spec_checksum_sources`).
pub fn checksum_sources(checksum_url: Option<&str>) -> (r: Result<Vec<String>, String>)
    ensures
        match spec_checksum_sources(opt_str_view(checksum_url)) {
            Ok(l) => r matches Ok(v) && strings_view(v@) == l,
            Err(m) => r matches Err(e) && e@ == m,
        },
{
    match checksum_url {
        None => Err(to_owned_string("未提供SHA256校验和，安装已阻止")),
        Some(u) => {
            if u.is_empty() {
                return Err(to_owned_string("未提供SHA256校验和，安装已阻止"));
            }
            let first = u.get_char(0);
            if first == '[' {
                match parse_json_string_list(u) {
                    Some(list) => return Ok(list),
                    None => {},
                }
            }
            let mut v: Vec<String> = Vec::new();
            v.push(to_owned_string(u));
            proof {
                assert(strings_view(v@) =~= seq![u@]);
            }
            Ok(v)
        },
    }
}

/// What `str::to_lowercase` makes of `s`.
pub uninterp spec fn lowercased(s: Seq<char>) -> Seq<char>;

/// `s.to_lowercase()`. The contract says only that the outcome is the
/// named function of the input.
#[verifier::external_body]
fn to_lowercase_string(s: &str) -> (r: String)
    ensures
        r@ == lowercased(s@),
{
    s.to_lowercase()
}

/// How an installer is started.
#[derive(Clone, Copy, Debug, PartialEq, Eq)]
pub enum InstallKind {
    /// Run the program itself.
    Exe,
    /// Hand it to `msiexec /i`.
    Msi,
}

/// The installer for a file extension once lower-cased: `exe` or `msi`;
/// anything else is refused, naming the extension.
pub open spec fn spec_install_kind(lower: Seq<char>) -> Result<InstallKind, Seq<char>> {
    if lower == "exe"@ {
        Ok(InstallKind::Exe)
    } else if lower == "msi"@ {
        Ok(InstallKind::Msi)
    } else {
        Err("不支持的安装包格式: "@ + lower)
    }
}

/// The installer for the extension `ext`, compared lower-cased.
pub fn install_kind(ext: &str) -> (r: Result<InstallKind, String>)
    ensures
        match spec_install_kind(lowercased(ext@)) {
            Ok(k) => r == Ok::<InstallKind, String>(k),
            Err(m) => r matches Err(e) && e@ == m,
        },
{
    let lower = to_lowercase_string(ext);
    if str_eq(lower.as_str(), "exe") {
        Ok(InstallKind::Exe)
    } else if str_eq(lower.as_str(), "msi") {
        Ok(InstallKind::Msi)
    } else {
        Err(concat2("不支持的安装包格式: ", lower.as_str()))
    }
}

} // verus!
