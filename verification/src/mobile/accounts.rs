//! Accounts on the phone: one settings file per account, named by a
//! sanitised id; the rules for ids, names, saving, switching and the
//! automatic creation of an account from the login fields.

use vstd::prelude::*;
use crate::text::{
    chars_of, char_is_ascii_alnum, char_is_control, is_ascii_alnum, is_control, string_from_chars,
    str_eq, to_owned_string, trim, trim_str, ends_with, has_suffix, lex_greater, str_greater,
};
use crate::pattern::{regex_is_match, account_name_text};
use crate::mobile::settings::Settings;

verus! {

/// The characters an account file name may hold.
pub const ACCOUNT_NAME_PATTERN: &'static str = r"^[a-zA-Z0-9_\u{4e00}-\u{9fff}-]+$";

/// One entry of the account list: the file id and the name shown for it.
#[derive(Clone, Debug, PartialEq)]
pub struct AccountItem {
    pub id: String,
    pub display_name: String,
}

// ---------------------------------------------------------------------------
// Ids and names
// ---------------------------------------------------------------------------

/// Characters kept as they are in an account id.
pub open spec fn is_account_id_char(c: char) -> bool {
    is_ascii_alnum(c) || c == '_' || c == '-' || ('\u{4e00}' <= c && c <= '\u{9fff}')
}

pub open spec fn sanitized_char(c: char) -> char {
    if is_account_id_char(c) {
        c
    } else {
        '_'
    }
}

/// The id derived from a user name: at most its first 32 characters, each
/// character outside the file-name set replaced by `_`.
pub open spec fn spec_sanitize_account_id(u: Seq<char>) -> Seq<char> {
    let n = if u.len() < 32 { u.len() as int } else { 32 };
    u.take(n).map_values(|c: char| sanitized_char(c))
}

/// Replaces every character outside `[a-zA-Z0-9_\u{4e00}-\u{9fff}-]` by `_`
/// and keeps at most 32 characters. Empty in, empty out.
pub fn sanitize_account_id(user: &str) -> (r: String)
    ensures
        r@ == spec_sanitize_account_id(user@),
{
    let v = chars_of(user);
    let n: usize = if v.len() < 32 { v.len() } else { 32 };
    let mut out: Vec<char> = Vec::new();
    let mut i: usize = 0;
    while i < n
        invariant
            v@ == user@,
            n <= v.len(),
            n == (if user@.len() < 32 { user@.len() as int } else { 32 }),
            i <= n,
            out@ == v@.take(i as int).map_values(|c: char| sanitized_char(c)),
        decreases n - i,
    {
        let c = v[i];
        let keep = char_is_ascii_alnum(c) || c == '_' || c == '-' || ('\u{4e00}' <= c && c <= '\u{9fff}');
        out.push(if keep { c } else { '_' });
        assert(v@.take(i + 1) =~= v@.take(i as int).push(c));
        assert(out@ =~= v@.take(i + 1).map_values(|c: char| sanitized_char(c)));
        i = i + 1;
    }
    string_from_chars(&out, 0, out.len())
}

/// Why an account file name is refused (1 to 32 characters, matched by the
/// file-name pattern), given whether the pattern matched it.
pub open spec fn account_name_refusal(name: Seq<char>, matched: Option<bool>) -> Option<
    Seq<char>,
> {
    if name.len() == 0 || name.len() > 32 {
        Some("账号名称长度需在1-32之间"@)
    } else if matched != Some(true) {
        Some("账号名称仅允许字母、数字、下划线、中文和连字符"@)
    } else {
        None
    }
}

/// Why an account file name is refused, if it is.
pub open spec fn account_name_error(name: Seq<char>) -> Option<Seq<char>> {
    account_name_refusal(name, Some(account_name_text(name)))
}

/// The outcome for an account file name once the file-name pattern has been
/// applied to it.
pub fn account_name_outcome(name: &str, matched: Option<bool>) -> (r: Result<String, String>)
    ensures
        match account_name_refusal(name@, matched) {
            None => r matches Ok(n) && n@ == name@,
            Some(m) => r matches Err(e) && e@ == m,
        },
{
    let count = crate::text::char_count(name);
    if count == 0 || count > 32 {
        return Err(to_owned_string("账号名称长度需在1-32之间"));
    }
    match matched {
        Some(true) => Ok(to_owned_string(name)),
        _ => Err(to_owned_string("账号名称仅允许字母、数字、下划线、中文和连字符")),
    }
}

/// Checks an account file name: 1 to 32 characters of letters, digits,
/// `_`, `-` and CJK ideographs (nothing that could leave the directory).
pub fn validate_account_name(name: &str) -> (r: Result<String, String>)
    ensures
        r is Ok <==> (account_name_text(name@) && name@.len() <= 32),
        match account_name_error(name@) {
            None => r matches Ok(n) && n@ == name@,
            Some(m) => r matches Err(e) && e@ == m,
        },
{
    let matched = regex_is_match(ACCOUNT_NAME_PATTERN, name);
    account_name_outcome(name, matched)
}

/// Why a display name is refused, if it is; checked on the trimmed name.
pub open spec fn display_name_error(name: Seq<char>) -> Option<Seq<char>> {
    let t = trim(name);
    if t.len() == 0 {
        Some("显示名称不能为空"@)
    } else if t.len() > 32 {
        Some("显示名称长度需在1-32之间"@)
    } else if exists|i: int| 0 <= i < t.len() && is_control(#[trigger] t[i]) {
        Some("显示名称不得包含控制字符或换行"@)
    } else {
        None
    }
}

/// Checks a display name (1 to 32 characters once trimmed, no control
/// character or line break; spaces and any visible character allowed) and
/// returns it trimmed.
pub fn validate_display_name(name: &str) -> (r: Result<String, String>)
    ensures
        match display_name_error(name@) {
            None => r matches Ok(n) && n@ == trim(name@),
            Some(m) => r matches Err(e) && e@ == m,
        },
{
    let trimmed = trim_str(name);
    let v = chars_of(trimmed.as_str());
    if v.len() == 0 {
        return Err(to_owned_string("显示名称不能为空"));
    }
    if v.len() > 32 {
        return Err(to_owned_string("显示名称长度需在1-32之间"));
    }
    let mut i: usize = 0;
    while i < v.len()
        invariant
            v@ == trim(name@),
            0 < v.len() <= 32,
            i <= v.len(),
            forall|k: int| 0 <= k < i ==> !is_control(#[trigger] v@[k]),
        decreases v.len() - i,
    {
        if char_is_control(v[i]) {
            assert(is_control(trim(name@)[i as int]));
            return Err(to_owned_string("显示名称不得包含控制字符或换行"));
        }
        i = i + 1;
    }
    Ok(trimmed)
}

/// The name listed for an account file: its own display name when that is
/// not blank, the id otherwise (also when the file could not be read).
pub open spec fn listed_display_name(id: Seq<char>, read: Option<Seq<char>>) -> Seq<char> {
    match read {
        Some(d) => if trim(d).len() > 0 {
            d
        } else {
            id
        },
        None => id,
    }
}

/// The list entry for an account file, from what its display name read as.
pub fn account_item_for(id: &str, read: Option<String>) -> (r: AccountItem)
    ensures
        r.id@ == id@,
        r.display_name@ == listed_display_name(id@, match read {
            Some(d) => Some(d@),
            None => None,
        }),
{
    let display = match read {
        Some(d) => {
            let t = trim_str(d.as_str());
            if t.as_str().is_empty() {
                to_owned_string(id)
            } else {
                d
            }
        },
        None => to_owned_string(id),
    };
    AccountItem { id: to_owned_string(id), display_name: display }
}

/// The account id of a file in the accounts directory: a name ending in
/// `.json`, without that ending, neither empty nor starting with `.`.
pub open spec fn spec_account_file_id(name: Seq<char>) -> Option<Seq<char>> {
    if name.len() > 5 && has_suffix(name, ".json"@) && name[0] != '.' {
        Some(name.subrange(0, name.len() - 5))
    } else {
        None
    }
}

/// The account id of the file `name`, if it is an account file (see
/// `spec_account_file_id`).
pub fn account_file_id(name: &str) -> (r: Option<String>)
    ensures
        match spec_account_file_id(name@) {
            Some(id) => r matches Some(s) && s@ == id,
            None => r is None,
        },
{
    if !ends_with(name, ".json") {
        return None;
    }
    let v = chars_of(name);
    proof {
        reveal_strlit(".json");
    }
    if v.len() <= 5 || v[0] == '.' {
        return None;
    }
    Some(string_from_chars(&v, 0, v.len() - 5))
}

pub open spec fn item_views(v: Seq<AccountItem>) -> Seq<(Seq<char>, Seq<char>)> {
    v.map_values(|x: AccountItem| (x.id@, x.display_name@))
}

/// The items are in order of their ids, as Rust orders strings.
pub open spec fn sorted_by_id(v: Seq<AccountItem>) -> bool {
    forall|i: int, j: int| 0 <= i < j < v.len() ==> !lex_greater(#[trigger] v[i].id@, #[trigger] v[j].id@)
}

fn copy_item(x: &AccountItem) -> (r: AccountItem)
    ensures
        r.id@ == x.id@,
        r.display_name@ == x.display_name@,
{
    AccountItem { id: to_owned_string(x.id.as_str()), display_name: to_owned_string(x.display_name.as_str()) }
}

/// The account list in order of ids: the same entries, sorted.
pub fn sort_account_items(items: &Vec<AccountItem>) -> (r: Vec<AccountItem>)
    ensures
        item_views(r@).to_multiset() == item_views(items@).to_multiset(),
        sorted_by_id(r@),
{
    let mut r: Vec<AccountItem> = Vec::new();
    let mut i: usize = 0;
    assert(item_views(items@.take(0)) =~= Seq::<(Seq<char>, Seq<char>)>::empty());
    assert(item_views(r@) =~= Seq::<(Seq<char>, Seq<char>)>::empty());
    while i < items.len()
        invariant
            i <= items.len(),
            sorted_by_id(r@),
            item_views(r@).to_multiset() == item_views(items@.take(i as int)).to_multiset(),
        decreases items.len() - i,
    {
        let x = copy_item(&items[i]);
        let mut pos: usize = 0;
        while pos < r.len() && !str_greater(r[pos].id.as_str(), x.id.as_str())
            invariant
                pos <= r.len(),
                forall|k: int| 0 <= k < pos ==> !lex_greater(#[trigger] r@[k].id@, x.id@),
            decreases r.len() - pos,
        {
            pos = pos + 1;
        }
        let ghost old_r = r@;
        let ghost xv = (x.id@, x.display_name@);
        let ghost xid = x.id@;
        proof {
            assert(forall|k: int| 0 <= k < pos ==> !lex_greater(#[trigger] old_r[k].id@, xid));
            if pos < r.len() {
                assert(lex_greater(old_r[pos as int].id@, xid));
            }
        }
        r.insert(pos, x);
        proof {
            let p = pos as int;
            assert(item_views(r@) =~= item_views(old_r).insert(p, xv));
            vstd::seq_lib::to_multiset_insert(item_views(old_r), p, xv);
            assert(items@.take(i + 1) =~= items@.take(i as int).push(items@[i as int]));
            assert(item_views(items@.take(i + 1)) =~= item_views(items@.take(i as int)).push(xv));
            vstd::seq_lib::to_multiset_build(item_views(items@.take(i as int)), xv);
            assert forall|a: int, b: int| 0 <= a < b < r@.len() implies !lex_greater(
                #[trigger] r@[a].id@,
                #[trigger] r@[b].id@,
            ) by {
                if b < p {
                    assert(r@[a] == old_r[a]);
                    assert(r@[b] == old_r[b]);
                } else if b == p {
                    assert(r@[a] == old_r[a]);
                    assert(r@[b].id@ == xid);
                    assert(!lex_greater(old_r[a].id@, xid));
                } else if a == p {
                    assert(r@[a].id@ == xid);
                    assert(r@[b] == old_r[b - 1]);
                    assert(lex_greater(old_r[p].id@, xid));
                    if b - 1 == p {
                        crate::text::lemma_lex_greater_asymmetric(old_r[p].id@, xid);
                    } else {
                        assert(!lex_greater(old_r[p].id@, old_r[b - 1].id@));
                        if lex_greater(xid, old_r[b - 1].id@) {
                            crate::text::lemma_lex_greater_transitive(old_r[p].id@, xid, old_r[b - 1].id@);
                        }
                    }
                } else if a < p {
                    assert(r@[a] == old_r[a]);
                    assert(r@[b] == old_r[b - 1]);
                    assert(!lex_greater(old_r[a].id@, old_r[b - 1].id@));
                } else {
                    assert(r@[a] == old_r[a - 1]);
                    assert(r@[b] == old_r[b - 1]);
                    assert(!lex_greater(old_r[a - 1].id@, old_r[b - 1].id@));
                }
            }
        }
        i = i + 1;
    }
    assert(items@.take(items.len() as int) =~= items@);
    r
}

/// Whether another account (any id but `account_id`) already shows
/// `new_name`.
pub fn display_name_taken(items: &Vec<AccountItem>, account_id: &str, new_name: &str) -> (r: bool)
    ensures
        r == exists|i: int|
            0 <= i < items.len() && items@[i].id@ != account_id@ && #[trigger] items@[i].display_name@
                == new_name@,
{
    let mut i: usize = 0;
    while i < items.len()
        invariant
            i <= items.len(),
            forall|k: int|
                0 <= k < i ==> !(items@[k].id@ != account_id@ && #[trigger] items@[k].display_name@
                    == new_name@),
        decreases items.len() - i,
    {
        if !str_eq(items[i].id.as_str(), account_id) && str_eq(items[i].display_name.as_str(), new_name) {
            return true;
        }
        i = i + 1;
    }
    false
}

// ---------------------------------------------------------------------------
// Saving, switching, deleting
// ---------------------------------------------------------------------------

/// Whether `saved` is the file written by "save as account": the login
/// fields of the current settings with `safe_name` as active account. An
/// existing file keeps everything else; a new one is a copy of the current
/// settings, without display name when saved under another id than the
/// active one (the old account's name must not leak into it).
pub open spec fn is_save_as_file(
    saved: Settings,
    current: Settings,
    existing: Option<Settings>,
    safe_name: Seq<char>,
) -> bool {
    let base = match existing {
        Some(e) => e,
        None => current,
    };
    &&& saved.user@ == current.user@
    &&& saved.password@ == current.password@
    &&& saved.operator@ == current.operator@
    &&& saved.active_account@ == safe_name
    &&& saved.display_name@ == (match existing {
        Some(e) => e.display_name@,
        None => if current.active_account@ != safe_name {
            ""@
        } else {
            current.display_name@
        },
    })
    &&& saved == (Settings {
        user: saved.user,
        password: saved.password,
        operator: saved.operator,
        active_account: saved.active_account,
        display_name: saved.display_name,
        ..base
    })
}

fn saved_over_existing(current: &Settings, e: Settings, safe_name: &str) -> (r: Settings)
    ensures
        r == (Settings {
            user: r.user,
            password: r.password,
            operator: r.operator,
            active_account: r.active_account,
            ..e
        }),
        r.user@ == current.user@,
        r.password@ == current.password@,
        r.operator@ == current.operator@,
        r.active_account@ == safe_name@,
{
    Settings {
        user: current.user.clone(),
        password: current.password.clone(),
        operator: current.operator.clone(),
        active_account: to_owned_string(safe_name),
        ..e
    }
}

fn saved_as_new(current: &Settings, safe_name: &str, keep_display: bool) -> (r: Settings)
    ensures
        r == (Settings { active_account: r.active_account, display_name: r.display_name, ..*current }),
        r.active_account@ == safe_name@,
        r.display_name@ == (if keep_display {
            current.display_name@
        } else {
            ""@
        }),
{
    let d = if keep_display {
        current.display_name.clone()
    } else {
        to_owned_string("")
    };
    Settings { active_account: to_owned_string(safe_name), display_name: d, ..current.duplicate() }
}

/// "Save as account": the file to write (see `is_save_as_file`) and the
/// display name the main settings take: the file's own, else the id.
pub fn merge_save_as_target(current: &Settings, existing: Option<Settings>, safe_name: &str) -> (r: (
    Settings,
    String,
))
    ensures
        is_save_as_file(r.0, *current, existing, safe_name@),
        r.1@ == (if trim(r.0.display_name@).len() == 0 {
            safe_name@
        } else {
            r.0.display_name@
        }),
{
    let is_resave = !str_eq(current.active_account.as_str(), safe_name);
    let save_account = match existing {
        Some(e) => saved_over_existing(current, e, safe_name),
        None => saved_as_new(current, safe_name, !is_resave),
    };
    let t = trim_str(save_account.display_name.as_str());
    let final_display = if t.as_str().is_empty() {
        to_owned_string(safe_name)
    } else {
        save_account.display_name.clone()
    };
    (save_account, final_display)
}

/// The main settings after switching to an account: its login fields, no
/// pending night-switch restore (it belonged to the previous account), its
/// display name (the id when it has none) and the id as active account.
pub open spec fn is_switched_settings(r: Settings, current: Settings, account: Settings, safe_name: Seq<char>) -> bool {
    &&& r.user@ == account.user@
    &&& r.password@ == account.password@
    &&& r.operator@ == account.operator@
    &&& r.night_operator_restore@ == ""@
    &&& r.display_name@ == (if account.display_name@.len() == 0 {
        safe_name
    } else {
        account.display_name@
    })
    &&& r.active_account@ == safe_name
    &&& r == (Settings {
        user: r.user,
        password: r.password,
        operator: r.operator,
        night_operator_restore: r.night_operator_restore,
        display_name: r.display_name,
        active_account: r.active_account,
        ..current
    })
}

/// Merges an account's login fields into the current settings (see
/// `is_switched_settings`).
pub fn merge_switched_account(current: Settings, account: Settings, safe_name: &str) -> (r: Settings)
    ensures
        is_switched_settings(r, current, account, safe_name@),
{
    let display_name = if account.display_name.as_str().is_empty() {
        to_owned_string(safe_name)
    } else {
        account.display_name
    };
    Settings {
        user: account.user,
        password: account.password,
        operator: account.operator,
        night_operator_restore: to_owned_string(""),
        display_name,
        active_account: to_owned_string(safe_name),
        ..current
    }
}

/// The main settings after deleting the account `safe_name`: the active
/// account is cleared when it was that one. Returns whether it changed.
pub fn clear_deleted_active_account(current: &mut Settings, safe_name: &str) -> (changed: bool)
    ensures
        changed == (old(current).active_account@ == safe_name@),
        changed ==> *final(current) == (Settings {
            active_account: final(current).active_account,
            ..*old(current)
        }) && final(current).active_account@ == ""@,
        !changed ==> *final(current) == *old(current),
{
    if str_eq(current.active_account.as_str(), safe_name) {
        current.active_account = to_owned_string("");
        true
    } else {
        false
    }
}

// ---------------------------------------------------------------------------
// Automatic account creation
// ---------------------------------------------------------------------------

/// The id under which the login fields are kept as an account, if they are:
/// both user and password must be set, and the sanitised id non-empty.
pub open spec fn auto_account_id(user: Seq<char>, password: Seq<char>) -> Option<Seq<char>> {
    if user.len() == 0 || password.len() == 0 {
        None
    } else if spec_sanitize_account_id(user).len() == 0 {
        None
    } else {
        Some(spec_sanitize_account_id(user))
    }
}

/// The id for automatic account creation (see `auto_account_id`).
pub fn auto_create_account_id(config: &Settings) -> (r: Option<String>)
    ensures
        match auto_account_id(config.user@, config.password@) {
            Some(id) => r matches Some(s) && s@ == id,
            None => r is None,
        },
{
    if config.user.as_str().is_empty() || config.password.as_str().is_empty() {
        return None;
    }
    let id = sanitize_account_id(config.user.as_str());
    if id.as_str().is_empty() {
        None
    } else {
        Some(id)
    }
}

/// What automatic creation writes to the file `id`, if anything:
/// - no file yet: the current settings, named by the raw user name, with
///   the id as active account;
/// - a file of another user (two user names sanitised to one id): nothing,
///   never another user's credentials;
/// - the same user with the same password and operator: nothing;
/// - otherwise the file with only user, password and operator updated.
pub open spec fn is_auto_create_write(
    r: Option<Settings>,
    config: Settings,
    id: Seq<char>,
    existing: Option<Settings>,
) -> bool {
    match existing {
        None => r matches Some(s) && s == (Settings {
            display_name: s.display_name,
            active_account: s.active_account,
            ..config
        }) && s.display_name@ == config.user@ && s.active_account@ == id,
        Some(e) => if e.user@ != config.user@ {
            r is None
        } else if e.password@ == config.password@ && e.operator@ == config.operator@ {
            r is None
        } else {
            r matches Some(s) && s == (Settings {
                user: s.user,
                password: s.password,
                operator: s.operator,
                ..e
            }) && s.user@ == config.user@ && s.password@ == config.password@ && s.operator@
                == config.operator@
        },
    }
}

/// The write that automatic creation makes, if any (see
/// `is_auto_create_write`).
pub fn auto_create_write(config: &Settings, id: &str, existing: Option<Settings>) -> (r: Option<
    Settings,
>)
    ensures
        is_auto_create_write(r, *config, id@, existing),
{
    match existing {
        None => {
            let snapshot = Settings {
                display_name: config.user.clone(),
                active_account: to_owned_string(id),
                ..config.duplicate()
            };
            Some(snapshot)
        },
        Some(e) => {
            if !str_eq(e.user.as_str(), config.user.as_str()) {
                None
            } else if str_eq(e.password.as_str(), config.password.as_str()) && str_eq(
                e.operator.as_str(),
                config.operator.as_str(),
            ) {
                None
            } else {
                Some(
                    Settings {
                        user: config.user.clone(),
                        password: config.password.clone(),
                        operator: config.operator.clone(),
                        ..e
                    },
                )
            }
        },
    }
}

// ---------------------------------------------------------------------------
// Laws
// ---------------------------------------------------------------------------

/// A sanitised id holds at most 32 characters, all from the file-name set.
pub proof fn law_sanitized_id_is_file_safe(u: Seq<char>)
    ensures
        spec_sanitize_account_id(u).len() <= 32,
        forall|i: int|
            0 <= i < spec_sanitize_account_id(u).len() ==> is_account_id_char(
                #[trigger] spec_sanitize_account_id(u)[i],
            ),
{
}

/// Sanitising an id again changes nothing.
pub proof fn law_sanitize_is_idempotent(u: Seq<char>)
    ensures
        spec_sanitize_account_id(spec_sanitize_account_id(u)) == spec_sanitize_account_id(u),
{
    let s = spec_sanitize_account_id(u);
    assert(spec_sanitize_account_id(s) =~= s);
}

/// Automatic creation never touches a file that belongs to another user.
pub proof fn law_auto_create_spares_other_users(
    r: Option<Settings>,
    config: Settings,
    id: Seq<char>,
    e: Settings,
)
    requires
        is_auto_create_write(r, config, id, Some(e)),
        e.user@ != config.user@,
    ensures
        r is None,
{
}

/// A second automatic creation with the same login fields writes nothing.
pub proof fn law_auto_create_is_idempotent(config: Settings, id: Seq<char>, first: Settings, r: Option<Settings>)
    requires
        is_auto_create_write(Some(first), config, id, None),
        is_auto_create_write(r, config, id, Some(first)),
    ensures
        r is None,
{
}

} // verus!
