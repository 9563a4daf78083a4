//! The decisions of a full login or logout on the desktop: whether the
//! credentials are there, which adapters log in and with which account's
//! credentials. Finding the adapters and sending the requests is the
//! caller's work; it reports what it found and follows the route returned.

use vstd::prelude::*;
use crate::text::{concat2, str_eq, to_owned_string};
use crate::config::model::Config;

verus! {

/// The credentials are missing only when the global user or password is
/// empty and neither adapter is bound to an account of its own.
pub open spec fn spec_credentials_missing(c: Config) -> bool {
    (c.user@.len() == 0 || c.password@.len() == 0) && c.adapter1_account@.len() == 0
        && c.adapter2_account@.len() == 0
}

/// Whether a login must stop for want of credentials (see
/// `spec_credentials_missing`).
pub fn credentials_missing(config: &Config) -> (r: bool)
    ensures
        r == spec_credentials_missing(*config),
{
    (config.user.as_str().is_empty() || config.password.as_str().is_empty())
        && config.adapter1_account.as_str().is_empty() && config.adapter2_account.as_str().is_empty()
}

/// The account bound to an adapter chosen by hand: the primary adapter's
/// binding, the secondary's, or none (the global account).
pub open spec fn spec_manual_account_id(name: Seq<char>, c: Config) -> Seq<char> {
    if name == c.adapter1@ {
        c.adapter1_account@
    } else if name == c.adapter2@ {
        c.adapter2_account@
    } else {
        ""@
    }
}

/// The account bound to an adapter chosen by hand (see
/// `spec_manual_account_id`).
pub fn resolve_manual_adapter_account_id<'a>(name: &str, config: &'a Config) -> (r: &'a str)
    ensures
        r@ == spec_manual_account_id(name@, *config),
{
    if str_eq(name, config.adapter1.as_str()) {
        config.adapter1_account.as_str()
    } else if str_eq(name, config.adapter2.as_str()) {
        config.adapter2_account.as_str()
    } else {
        ""
    }
}

/// `r` is `base` with the user, password and operator of `account`, when
/// there is one; every other field (the adapter bindings among them) is
/// the base's.
#[verifier::opaque]
pub open spec fn is_credentials_config(r: Config, base: Config, account: Option<Config>) -> bool {
    match account {
        None => r == base,
        Some(a) => {
            &&& r == (Config { user: r.user, password: r.password, operator: r.operator, ..base })
            &&& r.user@ == a.user@
            &&& r.password@ == a.password@
            &&& r.operator@ == a.operator@
        },
    }
}

/// The configuration a login runs with: the base, with the credentials of
/// the adapter's account when one was read (see `is_credentials_config`).
pub fn credentials_config(base: &Config, account: Option<&Config>) -> (r: Config)
    ensures
        account is None ==> is_credentials_config(r, *base, None),
        account matches Some(a) ==> is_credentials_config(r, *base, Some(*a)),
{
    match account {
        None => base_credentials(base),
        Some(a) => override_credentials(base, a),
    }
}

fn base_credentials(base: &Config) -> (r: Config)
    ensures
        is_credentials_config(r, *base, None),
{
    reveal(is_credentials_config);
    base.duplicate()
}

fn override_credentials(base: &Config, a: &Config) -> (r: Config)
    ensures
        is_credentials_config(r, *base, Some(*a)),
{
    reveal(is_credentials_config);
    let c = base.duplicate();
    Config { user: a.user.clone(), password: a.password.clone(), operator: a.operator.clone(), ..c }
}

/// Where a login or logout goes once the adapters are known.
#[derive(Debug)]
pub enum AdapterRoute {
    /// Stop with this message.
    Fail(String),
    /// The adapter chosen by hand, with the account bound to it (empty: the
    /// global account).
    Manual { account_id: String },
    /// Both adapters, each with its own binding.
    Dual { account1: String, account2: String },
    /// The primary adapter, with its binding.
    Single { account_id: String },
}

/// The message of a login that cannot start.
pub open spec fn login_precheck_error(c: Config, adapter_count: nat) -> Option<Seq<char>> {
    if spec_credentials_missing(c) {
        Some("用户名或密码为空"@)
    } else if adapter_count == 0 {
        Some("未找到可用网络适配器"@)
    } else {
        None
    }
}

/// Whether a login can start: credentials at hand and at least one adapter.
pub fn login_precheck(config: &Config, adapter_count: usize) -> (r: Result<(), String>)
    ensures
        match login_precheck_error(*config, adapter_count as nat) {
            Some(m) => r matches Err(e) && e@ == m,
            None => r is Ok,
        },
{
    if credentials_missing(config) {
        return Err(to_owned_string("用户名或密码为空"));
    }
    if adapter_count == 0 {
        return Err(to_owned_string("未找到可用网络适配器"));
    }
    Ok(())
}

/// The message of a logout that cannot start.
pub open spec fn logout_precheck_error(c: Config, adapter_count: nat) -> Option<Seq<char>> {
    if c.user@.len() == 0 {
        Some("用户名为空，无法注销"@)
    } else if adapter_count == 0 {
        Some("未找到可用网络适配器"@)
    } else {
        None
    }
}

/// Whether a logout can start: a user name and at least one adapter.
pub fn logout_precheck(config: &Config, adapter_count: usize) -> (r: Result<(), String>)
    ensures
        match logout_precheck_error(*config, adapter_count as nat) {
            Some(m) => r matches Err(e) && e@ == m,
            None => r is Ok,
        },
{
    if config.user.as_str().is_empty() {
        return Err(to_owned_string("用户名为空，无法注销"));
    }
    if adapter_count == 0 {
        return Err(to_owned_string("未找到可用网络适配器"));
    }
    Ok(())
}

/// The route of a login: the adapter chosen by hand (if it has an
/// address) with its binding; otherwise both adapters when the secondary
/// has an address too, else the primary alone; no primary with an address
/// stops the login.
pub open spec fn is_login_route(
    r: AdapterRoute,
    c: Config,
    adapter_name: Option<Seq<char>>,
    manual_found: bool,
    a1_found: bool,
    a2_found: bool,
) -> bool {
    match adapter_name {
        Some(name) => if manual_found {
            r matches AdapterRoute::Manual { account_id } && account_id@ == spec_manual_account_id(name, c)
        } else {
            r matches AdapterRoute::Fail(m) && m@ == "未找到适配器: "@ + name
        },
        None => if !a1_found {
            r matches AdapterRoute::Fail(m) && m@ == "未找到有效IP地址的适配器"@
        } else if a2_found {
            r matches AdapterRoute::Dual { account1, account2 } && account1@ == c.adapter1_account@
                && account2@ == c.adapter2_account@
        } else {
            r matches AdapterRoute::Single { account_id } && account_id@ == c.adapter1_account@
        },
    }
}

/// The route of a login (see `is_login_route`). `manual_found`, `a1_found`
/// and `a2_found` say whether the adapter chosen by hand, the primary and
/// the secondary adapter were found with a valid address.
pub fn plan_login_route(
    config: &Config,
    adapter_name: Option<&str>,
    manual_found: bool,
    a1_found: bool,
    a2_found: bool,
) -> (r: AdapterRoute)
    ensures
        is_login_route(
            r,
            *config,
            match adapter_name {
                Some(n) => Some(n@),
                None => None,
            },
            manual_found,
            a1_found,
            a2_found,
        ),
{
    match adapter_name {
        Some(name) => {
            if manual_found {
                let id = resolve_manual_adapter_account_id(name, config);
                AdapterRoute::Manual { account_id: to_owned_string(id) }
            } else {
                AdapterRoute::Fail(concat2("未找到适配器: ", name))
            }
        },
        None => {
            if !a1_found {
                AdapterRoute::Fail(to_owned_string("未找到有效IP地址的适配器"))
            } else if a2_found {
                AdapterRoute::Dual {
                    account1: config.adapter1_account.clone(),
                    account2: config.adapter2_account.clone(),
                }
            } else {
                AdapterRoute::Single { account_id: config.adapter1_account.clone() }
            }
        },
    }
}

/// The route of a logout: as for a login, but every adapter logs out the
/// global user (no account binding is used).
pub open spec fn is_logout_route(
    r: AdapterRoute,
    adapter_name: Option<Seq<char>>,
    manual_found: bool,
    a1_found: bool,
    a2_found: bool,
) -> bool {
    match adapter_name {
        Some(name) => if manual_found {
            r matches AdapterRoute::Manual { account_id } && account_id@ == ""@
        } else {
            r matches AdapterRoute::Fail(m) && m@ == "未找到适配器: "@ + name
        },
        None => if !a1_found {
            r matches AdapterRoute::Fail(m) && m@ == "未找到有效IP地址的适配器"@
        } else if a2_found {
            r matches AdapterRoute::Dual { account1, account2 } && account1@ == ""@ && account2@ == ""@
        } else {
            r matches AdapterRoute::Single { account_id } && account_id@ == ""@
        },
    }
}

/// The route of a logout (see `is_logout_route`).
pub fn plan_logout_route(adapter_name: Option<&str>, manual_found: bool, a1_found: bool, a2_found: bool) -> (r:
    AdapterRoute)
    ensures
        is_logout_route(
            r,
            match adapter_name {
                Some(n) => Some(n@),
                None => None,
            },
            manual_found,
            a1_found,
            a2_found,
        ),
{
    match adapter_name {
        Some(name) => {
            if manual_found {
                AdapterRoute::Manual { account_id: to_owned_string("") }
            } else {
                AdapterRoute::Fail(concat2("未找到适配器: ", name))
            }
        },
        None => {
            if !a1_found {
                AdapterRoute::Fail(to_owned_string("未找到有效IP地址的适配器"))
            } else if a2_found {
                AdapterRoute::Dual { account1: to_owned_string(""), account2: to_owned_string("") }
            } else {
                AdapterRoute::Single { account_id: to_owned_string("") }
            }
        },
    }
}

/// Overriding the credentials never changes which account an adapter is
/// bound to.
pub proof fn law_credentials_keep_bindings(r: Config, base: Config, account: Option<Config>)
    requires
        is_credentials_config(r, base, account),
    ensures
        r.adapter1_account == base.adapter1_account,
        r.adapter2_account == base.adapter2_account,
        r.campus_gateway == base.campus_gateway,
{
    reveal(is_credentials_config);
}

} // verus!
