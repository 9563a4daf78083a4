//! The tray menu: what it shows for the current configuration, what each
//! entry does, and how a quick logout is reported.

use vstd::prelude::*;
use crate::text::{concat2, has_prefix, starts_with, str_eq, to_owned_string};

verus! {

/// Prefix of the ids of the "switch account" entries (the account name
/// follows).
pub const SWITCH_ITEM_PREFIX: &'static str = "switch-account:";

/// What a tray menu entry does.
#[derive(Debug)]
pub enum TrayAction {
    Show,
    QuickLogin,
    QuickLogout,
    SwitchAccount(String),
    Quit,
    Ignore,
}

/// The action of the menu entry `id`.
pub open spec fn spec_tray_action(id: Seq<char>) -> (u8, Seq<char>) {
    if id == "show"@ {
        (0, ""@)
    } else if id == "quick-login"@ {
        (1, ""@)
    } else if id == "quick-logout"@ {
        (2, ""@)
    } else if has_prefix(id, SWITCH_ITEM_PREFIX@) {
        (3, id.skip(SWITCH_ITEM_PREFIX@.len() as int))
    } else if id == "quit"@ {
        (4, ""@)
    } else {
        (5, ""@)
    }
}

pub open spec fn action_code(a: TrayAction) -> (u8, Seq<char>) {
    match a {
        TrayAction::Show => (0, ""@),
        TrayAction::QuickLogin => (1, ""@),
        TrayAction::QuickLogout => (2, ""@),
        TrayAction::SwitchAccount(n) => (3, n@),
        TrayAction::Quit => (4, ""@),
        TrayAction::Ignore => (5, ""@),
    }
}

/// Reads a menu entry id: the fixed entries, `switch-account:<name>`, or
/// nothing.
pub fn tray_action(id: &str) -> (r: TrayAction)
    ensures
        action_code(r) == spec_tray_action(id@),
{
    if str_eq(id, "show") {
        TrayAction::Show
    } else if str_eq(id, "quick-login") {
        TrayAction::QuickLogin
    } else if str_eq(id, "quick-logout") {
        TrayAction::QuickLogout
    } else if starts_with(id, SWITCH_ITEM_PREFIX) {
        let v = crate::text::chars_of(id);
        let p = crate::text::chars_of(SWITCH_ITEM_PREFIX);
        let name = crate::text::string_from_chars(&v, p.len(), v.len());
        assert(v@.subrange(p.len() as int, v.len() as int) =~= id@.skip(SWITCH_ITEM_PREFIX@.len() as int));
        TrayAction::SwitchAccount(name)
    } else if str_eq(id, "quit") {
        TrayAction::Quit
    } else {
        TrayAction::Ignore
    }
}

/// One entry of the "switch account" submenu.
pub struct SwitchItem {
    pub id: String,
    pub label: String,
    pub enabled: bool,
}

/// The parts of the tray menu that depend on the configuration.
pub struct TrayMenuModel {
    /// Quick logout needs a configured user.
    pub quick_logout_enabled: bool,
    /// The submenu is disabled (with a placeholder) when no account is saved.
    pub switch_enabled: bool,
    pub switch_items: Vec<SwitchItem>,
}

/// The entry for account `name`: the active account is marked and
/// disabled.
pub open spec fn is_switch_item(item: SwitchItem, name: Seq<char>, active: Seq<char>) -> bool {
    &&& item.id@ == SWITCH_ITEM_PREFIX@ + name
    &&& item.label@ == (if name == active {
        name + "（当前）"@
    } else {
        name
    })
    &&& item.enabled == (name != active)
}

/// The menu model for the configuration: quick logout enabled with a user,
/// one entry per saved account, or a disabled placeholder when there is
/// none.
pub fn tray_menu_model(has_account: bool, active_account: &str, accounts: &Vec<String>) -> (r: TrayMenuModel)
    ensures
        r.quick_logout_enabled == has_account,
        r.switch_enabled == (accounts.len() > 0),
        accounts.len() == 0 ==> r.switch_items.len() == 1 && r.switch_items@[0].id@
            == "switch-account-empty"@ && r.switch_items@[0].label@ == "（无已保存账号）"@
            && !r.switch_items@[0].enabled,
        accounts.len() > 0 ==> r.switch_items.len() == accounts.len() && forall|i: int|
            0 <= i < accounts.len() ==> is_switch_item(
                #[trigger] r.switch_items@[i],
                accounts@[i]@,
                active_account@,
            ),
{
    let mut items: Vec<SwitchItem> = Vec::new();
    if accounts.len() == 0 {
        items.push(
            SwitchItem {
                id: to_owned_string("switch-account-empty"),
                label: to_owned_string("（无已保存账号）"),
                enabled: false,
            },
        );
    } else {
        let mut i: usize = 0;
        while i < accounts.len()
            invariant
                i <= accounts.len(),
                items.len() == i,
                forall|k: int|
                    0 <= k < i ==> is_switch_item(#[trigger] items@[k], accounts@[k]@, active_account@),
            decreases accounts.len() - i,
        {
            let name = accounts[i].as_str();
            let is_active = str_eq(name, active_account);
            let label = if is_active {
                concat2(name, "（当前）")
            } else {
                to_owned_string(name)
            };
            items.push(SwitchItem { id: concat2(SWITCH_ITEM_PREFIX, name), label, enabled: !is_active });
            i = i + 1;
        }
    }
    TrayMenuModel { quick_logout_enabled: has_account, switch_enabled: accounts.len() > 0, switch_items: items }
}

/// The notice after a quick logout: success always; a failure only when it
/// has a message.
pub fn quick_logout_notice(success: bool, message: &str) -> (r: Option<(String, String)>)
    ensures
        success ==> (r matches Some(n) && n.0@ == "快速注销成功"@ && n.1@ == "已注销校园网登录"@),
        !success && message@.len() > 0 ==> (r matches Some(n) && n.0@ == "快速注销失败"@ && n.1@
            == message@),
        !success && message@.len() == 0 ==> r is None,
{
    if success {
        Some((to_owned_string("快速注销成功"), to_owned_string("已注销校园网登录")))
    } else if !message.is_empty() {
        Some((to_owned_string("快速注销失败"), to_owned_string(message)))
    } else {
        None
    }
}

/// A switch entry id read back gives the account it was built for.
pub proof fn law_switch_entry_round_trip(name: Seq<char>)
    ensures
        spec_tray_action(SWITCH_ITEM_PREFIX@ + name) == (3u8, name),
{
    reveal_strlit("switch-account:");
    reveal_strlit("show");
    reveal_strlit("quick-login");
    reveal_strlit("quick-logout");
    let id = SWITCH_ITEM_PREFIX@ + name;
    assert(id.subrange(0, SWITCH_ITEM_PREFIX@.len() as int) =~= SWITCH_ITEM_PREFIX@);
    assert(id.skip(SWITCH_ITEM_PREFIX@.len() as int) =~= name);
    assert(id != "show"@) by {
        assert(id.len() >= 15);
    }
    assert(id != "quick-login"@) by {
        assert(id.len() >= 15);
    }
    assert(id != "quick-logout"@) by {
        assert(id.len() >= 15);
    }
}

} // verus!
