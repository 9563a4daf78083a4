//! Accounts on the desktop: the same file-per-account scheme as the phone,
//! with the desktop's own login fields (the adapters) and the byte-length
//! limit of its file names.

use vstd::prelude::*;
use crate::text::{concat2, has_prefix, starts_with, str_eq, to_owned_string, trim, trim_str, utf8_len, utf8_len_exceeds, chars_of};
use crate::pattern::{regex_is_match, account_name_text};
use crate::config::model::{Config, is_default_config};
use crate::mobile::accounts::{ACCOUNT_NAME_PATTERN, AccountItem, display_name_error, display_name_taken};

verus! {

/// Why an account file name is refused (1 to 32 bytes, matched by the
/// file-name pattern), given whether the pattern matched it.
pub open spec fn account_name_refusal(name: Seq<char>, matched: Option<bool>) -> Option<
    Seq<char>,
> {
    if name.len() == 0 || utf8_len(name) > 32 {
        Some("账号名称长度需在1-32之间"@)
    } else if matched != Some(true) {
        Some("账号名称仅允许字母、数字、下划线、中文和连字符"@)
    } else {
        None
    }
}

/// Why an account file name is refused, if it is.
pub open spec fn account_name_error(name: Seq<char>) -> Option<Seq<char>> {
    account_name_refusal(name, Some(account_name_text(name)))
}

/// The outcome for an account file name once the file-name pattern has been
/// applied to it.
pub fn account_name_outcome(name: &str, matched: Option<bool>) -> (r: Result<String, String>)
    ensures
        match account_name_refusal(name@, matched) {
            None => r matches Ok(n) && n@ == name@,
            Some(m) => r matches Err(e) && e@ == m,
        },
{
    let v = chars_of(name);
    if v.len() == 0 || utf8_len_exceeds(&v, 32) {
        return Err(to_owned_string("账号名称长度需在1-32之间"));
    }
    match matched {
        Some(true) => Ok(to_owned_string(name)),
        _ => Err(to_owned_string("账号名称仅允许字母、数字、下划线、中文和连字符")),
    }
}

/// Checks an account file name: 1 to 32 bytes of letters, digits, `_`, `-`
/// and CJK ideographs.
pub fn validate_account_name(name: &str) -> (r: Result<String, String>)
    ensures
        r is Ok <==> (account_name_text(name@) && utf8_len(name@) <= 32),
        match account_name_error(name@) {
            None => r matches Ok(n) && n@ == name@,
            Some(m) => r matches Err(e) && e@ == m,
        },
{
    let matched = regex_is_match(ACCOUNT_NAME_PATTERN, name);
    account_name_outcome(name, matched)
}

/// Checks a display name (as on the phone) and returns it trimmed.
pub fn validate_display_name(name: &str) -> (r: Result<String, String>)
    ensures
        match display_name_error(name@) {
            None => r matches Ok(n) && n@ == trim(name@),
            Some(m) => r matches Err(e) && e@ == m,
        },
{
    crate::mobile::accounts::validate_display_name(name)
}

/// The checks renaming an account starts with, before any file is read:
/// the display name (returned trimmed), then the id as a file name.
pub fn rename_account_check(account_id: &str, display_name: &str) -> (r: Result<(String, String), String>)
    ensures
        match display_name_error(display_name@) {
            Some(m) => r matches Err(e) && e@ == m,
            None => match account_name_error(account_id@) {
                Some(m) => r matches Err(e) && e@ == m,
                None => r matches Ok((id, n)) && id@ == account_id@ && n@ == trim(display_name@),
            },
        },
{
    let new_name = match validate_display_name(display_name) {
        Ok(n) => n,
        Err(e) => return Err(e),
    };
    match validate_account_name(account_id) {
        Ok(id) => Ok((id, new_name)),
        Err(e) => Err(e),
    }
}

/// Another listed account (any id but `id`) already shows `name`.
pub open spec fn name_taken_by_other(items: Seq<AccountItem>, id: Seq<char>, name: Seq<char>) -> bool {
    exists|i: int| 0 <= i < items.len() && items[i].id@ != id && #[trigger] items[i].display_name@ == name
}

/// `w` is `c` with `name` as display name and nothing else changed.
#[verifier::opaque]
pub open spec fn is_renamed(w: Config, c: Config, name: Seq<char>) -> bool {
    &&& w.display_name@ == name
    &&& w == (Config { display_name: w.display_name, ..c })
}

fn renamed(c: Config, name: &str) -> (w: Config)
    ensures
        is_renamed(w, c, name@),
{
    let mut w = c;
    w.display_name = to_owned_string(name);
    proof {
        reveal(is_renamed);
    }
    w
}

/// The one write of a rename, from the account's file as read (its read
/// error stops the rename) and the listed accounts: another account that
/// already shows the new name refuses it; otherwise the file is written
/// back with only its display name changed.
pub fn rename_account_write(account_id: &str, new_name: &str, loaded: Result<Config, String>, items: &Vec<
    AccountItem,
>) -> (r: Result<Config, String>)
    ensures
        match loaded {
            Err(e) => r matches Err(m) && m@ == e@,
            Ok(c) => if name_taken_by_other(items@, account_id@, new_name@) {
                r matches Err(m) && m@ == "名称已存在: "@ + new_name@
            } else {
                r matches Ok(w) && is_renamed(w, c, new_name@)
            },
        },
{
    match loaded {
        Err(e) => Err(e),
        Ok(c) => {
            if display_name_taken(items, account_id, new_name) {
                Err(concat2("名称已存在: ", new_name))
            } else {
                Ok(renamed(c, new_name))
            }
        },
    }
}

/// The configuration after switching to an account: its six login fields
/// (user, password, operator, both adapters, the dual-adapter switch), its
/// display name (the id when it has none) and the id as active account.
/// The adapter-to-account bindings are the device's and stay.
pub open spec fn is_switched_config(r: Config, current: Config, account: Config, safe_name: Seq<char>) -> bool {
    &&& r.user@ == account.user@
    &&& r.password@ == account.password@
    &&& r.operator@ == account.operator@
    &&& r.adapter1@ == account.adapter1@
    &&& r.adapter2@ == account.adapter2@
    &&& r.dual_adapter == account.dual_adapter
    &&& r.display_name@ == (if account.display_name@.len() == 0 {
        safe_name
    } else {
        account.display_name@
    })
    &&& r.active_account@ == safe_name
    &&& r == (Config {
        user: r.user,
        password: r.password,
        operator: r.operator,
        adapter1: r.adapter1,
        adapter2: r.adapter2,
        dual_adapter: r.dual_adapter,
        display_name: r.display_name,
        active_account: r.active_account,
        ..current
    })
}

/// Merges an account into the current configuration (see
/// `is_switched_config`).
pub fn merge_account_into_config(current: &mut Config, account: &Config, safe_name: &str)
    ensures
        is_switched_config(*final(current), *old(current), *account, safe_name@),
{
    let display_name = if account.display_name.as_str().is_empty() {
        to_owned_string(safe_name)
    } else {
        account.display_name.clone()
    };
    let c = current.duplicate();
    *current = Config {
        user: account.user.clone(),
        password: account.password.clone(),
        operator: account.operator.clone(),
        adapter1: account.adapter1.clone(),
        adapter2: account.adapter2.clone(),
        dual_adapter: account.dual_adapter,
        display_name,
        active_account: to_owned_string(safe_name),
        ..c
    };
}

/// The read errors after which "save as account" overwrites the file with
/// the current configuration: no file, an unreadable file, or a password
/// that no longer decrypts.
pub open spec fn is_recoverable_read_error(e: Seq<char>) -> bool {
    e == "账号不存在"@ || has_prefix(e, "读取账号配置失败"@) || e == "账号密码解密失败"@
}

/// `c` is `e` with the login fields (all but the password) and the active
/// account of `d`.
#[verifier::opaque]
pub open spec fn has_login_fields_of(c: Config, e: Config, d: Config) -> bool {
    &&& c.user@ == d.user@
    &&& c.operator@ == d.operator@
    &&& c.adapter1@ == d.adapter1@
    &&& c.adapter2@ == d.adapter2@
    &&& c.dual_adapter == d.dual_adapter
    &&& c.active_account@ == d.active_account@
    &&& c == (Config {
        user: c.user,
        operator: c.operator,
        adapter1: c.adapter1,
        adapter2: c.adapter2,
        dual_adapter: c.dual_adapter,
        active_account: c.active_account,
        ..e
    })
}

fn overwrite_login_fields(e: Config, d: &Config) -> (r: Config)
    ensures
        has_login_fields_of(r, e, *d),
{
    reveal(has_login_fields_of);
    Config {
        user: d.user.clone(),
        operator: d.operator.clone(),
        adapter1: d.adapter1.clone(),
        adapter2: d.adapter2.clone(),
        dual_adapter: d.dual_adapter,
        active_account: d.active_account.clone(),
        ..e
    }
}

fn recoverable_read_error(e: &str) -> (r: bool)
    ensures
        r == is_recoverable_read_error(e@),
{
    str_eq(e, "账号不存在") || starts_with(e, "读取账号配置失败") || str_eq(e, "账号密码解密失败")
}

/// The file "save as account" writes, from what reading the existing file
/// gave: an existing file keeps its other fields and takes the login
/// fields (the password is set by the caller); after a recoverable read
/// error the current data is written whole; any other error (a damaged
/// file) stops the save.
pub fn merge_save_as_target(existing: Result<Config, String>, account_data: &Config) -> (r: Result<
    Config,
    String,
>)
    ensures
        match existing {
            Ok(e) => r matches Ok(c) && has_login_fields_of(c, e, *account_data),
            Err(msg) => if is_recoverable_read_error(msg@) {
                r matches Ok(c) && c == *account_data
            } else {
                r matches Err(m) && m@ == msg@
            },
        },
{
    match existing {
        Ok(e) => Ok(overwrite_login_fields(e, account_data)),
        Err(e) => {
            if recoverable_read_error(e.as_str()) {
                Ok(account_data.duplicate())
            } else {
                Err(e)
            }
        },
    }
}

/// The data "save as account" starts from: the current configuration with
/// the password left out (it is set on the file afterwards), the name as
/// active account, and, when saving under another name than the active
/// account's, no display name (the file then shows its id).
pub open spec fn is_save_as_data(r: Config, config: Config, account_name: Seq<char>, safe_name: Seq<char>) -> bool {
    &&& r.password@ == ""@
    &&& r.active_account@ == account_name
    &&& r.display_name@ == (if config.active_account@ != safe_name {
        ""@
    } else {
        config.display_name@
    })
    &&& r == (Config {
        password: r.password,
        active_account: r.active_account,
        display_name: r.display_name,
        ..config
    })
}

/// Prepares the data saved under `safe_name` (see `is_save_as_data`).
pub fn save_as_account_data(config: &Config, account_name: &str, safe_name: &str) -> (r: Config)
    ensures
        is_save_as_data(r, *config, account_name@, safe_name@),
{
    let c = config.duplicate();
    let differs = !str_eq(c.active_account.as_str(), safe_name);
    let mut r = c;
    r.password = to_owned_string("");
    r.active_account = to_owned_string(account_name);
    if differs {
        r.display_name = to_owned_string("");
    }
    r
}

/// The display name the main configuration takes after "save as account":
/// the saved file's own display name, or the id when it is blank.
pub open spec fn saved_display_name(saved: Config, safe_name: Seq<char>) -> Seq<char> {
    if trim(saved.display_name@).len() == 0 {
        safe_name
    } else {
        saved.display_name@
    }
}

/// Completes the file written by "save as account" with the current
/// password and returns it with the display name the main configuration
/// takes (see `saved_display_name`).
pub fn finish_save_as(target: Config, password: &str, safe_name: &str) -> (r: (Config, String))
    ensures
        r.0.password@ == password@,
        r.0 == (Config { password: r.0.password, ..target }),
        r.1@ == saved_display_name(r.0, safe_name@),
{
    let display = if trim_str(target.display_name.as_str()).as_str().is_empty() {
        to_owned_string(safe_name)
    } else {
        target.display_name.clone()
    };
    let saved = Config { password: to_owned_string(password), ..target };
    (saved, display)
}

/// The main configuration after "save as account": the saved name becomes
/// the active account and its display name is shown.
pub fn apply_saved_account(current: &mut Config, account_name: &str, display: &str)
    ensures
        final(current).active_account@ == account_name@,
        final(current).display_name@ == display@,
        *final(current) == (Config {
            active_account: final(current).active_account,
            display_name: final(current).display_name,
            ..*old(current)
        }),
{
    let c = current.duplicate();
    *current = Config {
        active_account: to_owned_string(account_name),
        display_name: to_owned_string(display),
        ..c
    };
}

/// `c` is `base` with the current login fields: user, password, operator,
/// both adapters and the dual-adapter switch.
#[verifier::opaque]
pub open spec fn is_saved_back(c: Config, base: Config, current: Config) -> bool {
    &&& c.user@ == current.user@
    &&& c.password@ == current.password@
    &&& c.operator@ == current.operator@
    &&& c.adapter1@ == current.adapter1@
    &&& c.adapter2@ == current.adapter2@
    &&& c.dual_adapter == current.dual_adapter
    &&& c == (Config {
        user: c.user,
        password: c.password,
        operator: c.operator,
        adapter1: c.adapter1,
        adapter2: c.adapter2,
        dual_adapter: c.dual_adapter,
        ..base
    })
}

/// The file of the previously active account, saved back before another
/// account is saved: the existing file (or, when there is none, the
/// defaults named by the id) with the current login fields.
pub fn previous_account_save(existing: Result<Config, String>, prev_name: &str, current: &Config) -> (r:
    Result<Config, String>)
    ensures
        match existing {
            Ok(e) => r matches Ok(c) && is_saved_back(c, e, *current),
            Err(msg) => if msg@ == "账号不存在"@ {
                r matches Ok(c) && c.display_name@ == prev_name@ && exists|d: Config|
                    #[trigger] is_default_config(d) && is_saved_back(
                        c,
                        Config { display_name: c.display_name, ..d },
                        *current,
                    )
            } else {
                r matches Err(m) && m@ == "读取旧账号配置失败"@
            },
        },
{
    let ghost mut d: Option<Config> = None;
    let base = match existing {
        Ok(e) => e,
        Err(e) => {
            if str_eq(e.as_str(), "账号不存在") {
                let mut fresh = Config::default();
                proof {
                    d = Some(fresh);
                }
                fresh.display_name = to_owned_string(prev_name);
                fresh
            } else {
                return Err(to_owned_string("读取旧账号配置失败"));
            }
        },
    };
    let mut c = base;
    c.user = current.user.clone();
    c.password = current.password.clone();
    c.operator = current.operator.clone();
    c.adapter1 = current.adapter1.clone();
    c.adapter2 = current.adapter2.clone();
    c.dual_adapter = current.dual_adapter;
    proof {
        reveal(is_saved_back);
        if let Some(d0) = d {
            assert(is_default_config(d0));
            assert(is_saved_back(c, Config { display_name: c.display_name, ..d0 }, *current));
        }
    }
    Ok(c)
}

/// `r` is `c` with an empty active account and every other field unchanged.
#[verifier::opaque]
pub open spec fn is_active_cleared(r: Config, c: Config) -> bool {
    &&& r == (Config { active_account: r.active_account, ..c })
    &&& r.active_account@ == ""@
}

fn clear_active(c: &mut Config)
    ensures
        is_active_cleared(*final(c), *old(c)),
{
    reveal(is_active_cleared);
    c.active_account = to_owned_string("");
}

/// The configuration after deleting the account `safe_name`: the active
/// account is cleared when it was that one. Returns whether it changed.
pub fn clear_deleted_active_account(current: &mut Config, safe_name: &str) -> (changed: bool)
    ensures
        changed == (old(current).active_account@ == safe_name@),
        changed ==> is_active_cleared(*final(current), *old(current)),
        !changed ==> *final(current) == *old(current),
{
    if str_eq(current.active_account.as_str(), safe_name) {
        clear_active(current);
        true
    } else {
        false
    }
}

/// The id under which the login fields are kept as an account, if they are.
pub fn auto_create_account_id(config: &Config) -> (r: Option<String>)
    ensures
        match crate::mobile::accounts::auto_account_id(config.user@, config.password@) {
            Some(id) => r matches Some(s) && s@ == id,
            None => r is None,
        },
{
    if config.user.as_str().is_empty() || config.password.as_str().is_empty() {
        return None;
    }
    let id = crate::mobile::accounts::sanitize_account_id(config.user.as_str());
    if id.as_str().is_empty() {
        None
    } else {
        Some(id)
    }
}

/// What automatic creation writes to the account file `id`, if anything
/// (the same rules as on the phone: a new file is the current configuration
/// named by the raw user name; another user's file is never touched; an
/// unchanged one is not rewritten; otherwise only user, password and
/// operator are updated).
pub open spec fn is_auto_create_write(r: Option<Config>, config: Config, id: Seq<char>, existing: Option<Config>) -> bool {
    match existing {
        None => r matches Some(s) && is_new_account_snapshot(s, config, id),
        Some(e) => if e.user@ != config.user@ {
            r is None
        } else if e.password@ == config.password@ && e.operator@ == config.operator@ {
            r is None
        } else {
            r matches Some(s) && is_credentials_update(s, e, config)
        },
    }
}

/// `s` is the configuration `config` named by its raw user name, with `id`
/// as active account.
#[verifier::opaque]
pub open spec fn is_new_account_snapshot(s: Config, config: Config, id: Seq<char>) -> bool {
    &&& s == (Config { display_name: s.display_name, active_account: s.active_account, ..config })
    &&& s.display_name@ == config.user@
    &&& s.active_account@ == id
}

/// `s` is `e` with the user, password and operator of `config`.
#[verifier::opaque]
pub open spec fn is_credentials_update(s: Config, e: Config, config: Config) -> bool {
    &&& s == (Config { user: s.user, password: s.password, operator: s.operator, ..e })
    &&& s.user@ == config.user@
    &&& s.password@ == config.password@
    &&& s.operator@ == config.operator@
}

fn snapshot_for_new_account(config: &Config, id: &str) -> (r: Config)
    ensures
        is_new_account_snapshot(r, *config, id@),
{
    reveal(is_new_account_snapshot);
    Config { display_name: config.user.clone(), active_account: to_owned_string(id), ..config.duplicate() }
}

fn credentials_updated(e: Config, config: &Config) -> (r: Config)
    ensures
        is_credentials_update(r, e, *config),
{
    reveal(is_credentials_update);
    Config {
        user: config.user.clone(),
        password: config.password.clone(),
        operator: config.operator.clone(),
        ..e
    }
}

/// The write that automatic creation makes, if any (see
/// `is_auto_create_write`).
pub fn auto_create_write(config: &Config, id: &str, existing: Option<Config>) -> (r: Option<Config>)
    ensures
        is_auto_create_write(r, *config, id@, existing),
{
    match existing {
        None => Some(snapshot_for_new_account(config, id)),
        Some(e) => {
            if !str_eq(e.user.as_str(), config.user.as_str()) {
                None
            } else if str_eq(e.password.as_str(), config.password.as_str()) && str_eq(
                e.operator.as_str(),
                config.operator.as_str(),
            ) {
                None
            } else {
                Some(credentials_updated(e, config))
            }
        },
    }
}

/// Switching accounts never moves the adapter-to-account bindings.
pub proof fn law_switch_keeps_device_bindings(r: Config, current: Config, account: Config, safe_name: Seq<char>)
    requires
        is_switched_config(r, current, account, safe_name),
    ensures
        r.adapter1_account == current.adapter1_account,
        r.adapter2_account == current.adapter2_account,
{
}

} // verus!
