//! The password fields when a configuration is saved, exported or
//! imported: the mask and an empty field stand for "unchanged", and no
//! plain-text password leaves through an export. Imported files are at
//! most 1 MiB.

use vstd::prelude::*;
use crate::config::model::{Config, PASSWORD_MASK};
use crate::mobile::settings::{resolve_password_field, resolved_password};
use crate::text::{concat3, decimal, str_eq, u64_to_decimal};

verus! {

/// An empty field or the mask: no new password was given.
pub open spec fn is_placeholder(p: Seq<char>) -> bool {
    p.len() == 0 || p == PASSWORD_MASK@
}

fn placeholder(p: &str) -> (r: bool)
    ensures
        r == is_placeholder(p@),
{
    p.is_empty() || str_eq(p, PASSWORD_MASK)
}

/// The configuration a save writes: the validated one, with both passwords
/// resolved against the saved ones (`clear_*` empties a field explicitly).
pub fn saved_config(validated: Config, current: &Config, clear_password: bool, clear_self_password: bool) -> (r:
    Config)
    ensures
        r.password@ == resolved_password(validated.password@, current.password@, clear_password),
        r.self_password@ == resolved_password(
            validated.self_password@,
            current.self_password@,
            clear_self_password,
        ),
        r == (Config { password: r.password, self_password: r.self_password, ..validated }),
{
    let password = resolve_password_field(validated.password.as_str(), current.password.as_str(), clear_password);
    let self_password = resolve_password_field(
        validated.self_password.as_str(),
        current.self_password.as_str(),
        clear_self_password,
    );
    Config { password, self_password, ..validated }
}

/// What becomes of one password field of an imported file.
#[derive(Debug, Clone, Copy, PartialEq, Eq, Structural)]
pub enum ImportedPassword {
    /// Empty or the mask: the saved password stays.
    KeepCurrent,
    /// Exported with passwords: the field is ciphertext of this machine.
    Decrypt,
    /// Written by hand: the field is the password itself.
    AsIs,
}

/// What becomes of an imported password field (see `ImportedPassword`).
pub open spec fn spec_imported_password(imported: Seq<char>, encrypted: bool) -> ImportedPassword {
    if is_placeholder(imported) {
        ImportedPassword::KeepCurrent
    } else if encrypted {
        ImportedPassword::Decrypt
    } else {
        ImportedPassword::AsIs
    }
}

/// What becomes of an imported password field, given whether the file says
/// its passwords are encrypted.
pub fn imported_password_plan(imported: &str, encrypted: bool) -> (r: ImportedPassword)
    ensures
        r == spec_imported_password(imported@, encrypted),
{
    if placeholder(imported) {
        ImportedPassword::KeepCurrent
    } else if encrypted {
        ImportedPassword::Decrypt
    } else {
        ImportedPassword::AsIs
    }
}

/// The message of an imported ciphertext that does not decrypt here.
pub fn import_decrypt_error(detail: &str) -> (r: String)
    ensures
        r@ == "密码密文解密失败（含密码导出仅限本机导入）: "@ + detail@,
{
    crate::text::concat2("密码密文解密失败（含密码导出仅限本机导入）: ", detail)
}

/// Whether an export with passwords writes this field as ciphertext; an
/// empty field or the mask is written empty instead.
pub fn export_needs_cipher(password: &str) -> (r: bool)
    ensures
        r == !is_placeholder(password@),
{
    !placeholder(password)
}

/// An export without passwords carries only the mask or empty fields: the
/// plain passwords never appear in it.
pub proof fn law_masked_export_has_no_secret(c: Config, r: Config)
    requires
        crate::config::model::is_masked_of(r, c),
    ensures
        r.password@ == crate::config::model::masked_secret(c.password@),
        r.self_password@ == crate::config::model::masked_secret(c.self_password@),
        is_placeholder(r.password@),
        is_placeholder(r.self_password@),
{
}

/// A placeholder never overwrites a saved password, on save or on import.
pub proof fn law_placeholder_keeps_saved(p: Seq<char>, current: Seq<char>, encrypted: bool)
    requires
        is_placeholder(p),
    ensures
        resolved_password(p, current, false) == current,
        spec_imported_password(p, encrypted) == ImportedPassword::KeepCurrent,
{
}

/// Largest configuration file imported, in bytes (1 MiB).
pub const MAX_IMPORT_SIZE: u64 = 1048576;

/// Refuses a configuration file larger than `MAX_IMPORT_SIZE`, naming its
/// size.
pub fn check_import_size(len: u64) -> (r: Result<(), String>)
    ensures
        len <= MAX_IMPORT_SIZE ==> r is Ok,
        len > MAX_IMPORT_SIZE ==> (r matches Err(e) && e@ == "配置文件过大（"@ + decimal(len as nat)
            + " 字节），超过 1MB 限制"@),
{
    if len > MAX_IMPORT_SIZE {
        let n = u64_to_decimal(len);
        Err(concat3("配置文件过大（", n.as_str(), " 字节），超过 1MB 限制"))
    } else {
        Ok(())
    }
}

/// Whether a stored password field holds ciphertext to decrypt on load (an
/// empty field or the mask is kept as it is).
pub fn stored_password_is_cipher(password: &str) -> (r: bool)
    ensures
        r == !is_placeholder(password@),
{
    !placeholder(password)
}

} // verus!
