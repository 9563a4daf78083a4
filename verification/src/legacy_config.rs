//! The first-generation desktop configuration (a smaller field set with
//! its own defaults), kept for reading old installations.

use vstd::prelude::*;
use crate::text::{concat2, str_eq, to_owned_string};
use crate::config::model::{masked_secret, PASSWORD_MASK};
use crate::config::validate::{
    username_error, operator_ok, operator_error_message, password_error, migrated_operator,
    normalized_portal_url, color_ok, theme_ok, portal_url_error, filled_campus_gateway, clamp_u64,
    migrated_operator_of, normalize_portal_url, is_valid_color, validate_portal_url, clamp_interval,
};
use crate::net::{ip_of, parse_ip};

verus! {

/// First-generation settings of one installation.
#[derive(Clone, Debug)]
pub struct Config {
    pub user: String,
    pub password: String,
    pub operator: String,
    pub adapter1: String,
    pub adapter2: String,
    pub dual_adapter: bool,
    pub auto_login_on_start: bool,
    pub auto_exit_after_login: bool,
    pub minimize_to_tray: bool,
    pub hidden_start: bool,
    pub auto_launch: bool,
    pub enable_background_check: bool,
    pub background_check_interval: u64,
    pub auto_login_on_preparation: bool,
    pub auto_exit_on_online: bool,
    pub theme_mode: String,
    pub enable_notification: bool,
    pub active_account: String,
    pub enable_latency_test: bool,
    pub latency_test_interval: u64,
    pub custom_theme_color: String,
    pub default_panel: String,
    pub enable_network_quality: bool,
    pub skip_ttfb_in_latency: bool,
    pub skip_content_in_latency: bool,
    pub portal_url: String,
    pub fixed_gateway: String,
    pub required_network_name: String,
    pub enable_network_name_check: bool,
    pub campus_gateway: String,
}

impl Config {
    /// A field-by-field copy.
    pub fn duplicate(&self) -> (r: Self)
        ensures
            r == *self,
    {
        Config {
            user: self.user.clone(),
            password: self.password.clone(),
            operator: self.operator.clone(),
            adapter1: self.adapter1.clone(),
            adapter2: self.adapter2.clone(),
            dual_adapter: self.dual_adapter,
            auto_login_on_start: self.auto_login_on_start,
            auto_exit_after_login: self.auto_exit_after_login,
            minimize_to_tray: self.minimize_to_tray,
            hidden_start: self.hidden_start,
            auto_launch: self.auto_launch,
            enable_background_check: self.enable_background_check,
            background_check_interval: self.background_check_interval,
            auto_login_on_preparation: self.auto_login_on_preparation,
            auto_exit_on_online: self.auto_exit_on_online,
            theme_mode: self.theme_mode.clone(),
            enable_notification: self.enable_notification,
            active_account: self.active_account.clone(),
            enable_latency_test: self.enable_latency_test,
            latency_test_interval: self.latency_test_interval,
            custom_theme_color: self.custom_theme_color.clone(),
            default_panel: self.default_panel.clone(),
            enable_network_quality: self.enable_network_quality,
            skip_ttfb_in_latency: self.skip_ttfb_in_latency,
            skip_content_in_latency: self.skip_content_in_latency,
            portal_url: self.portal_url.clone(),
            fixed_gateway: self.fixed_gateway.clone(),
            required_network_name: self.required_network_name.clone(),
            enable_network_name_check: self.enable_network_name_check,
            campus_gateway: self.campus_gateway.clone(),
        }
    }
}

/// The first-generation defaults.
pub open spec fn is_default_config(c: Config) -> bool {
    &&& c.user@ == ""@
    &&& c.password@ == ""@
    &&& c.operator@ == ""@
    &&& c.adapter1@ == "自动检测"@
    &&& c.adapter2@ == ""@
    &&& c.dual_adapter == false
    &&& c.auto_login_on_start == true
    &&& c.auto_exit_after_login == true
    &&& c.minimize_to_tray == false
    &&& c.hidden_start == true
    &&& c.auto_launch == true
    &&& c.enable_background_check == true
    &&& c.background_check_interval == 60000
    &&& c.auto_login_on_preparation == true
    &&& c.auto_exit_on_online == true
    &&& c.theme_mode@ == "dark"@
    &&& c.enable_notification == true
    &&& c.active_account@ == ""@
    &&& c.enable_latency_test == false
    &&& c.latency_test_interval == 30000
    &&& c.custom_theme_color@ == "#6366f1"@
    &&& c.default_panel@ == ""@
    &&& c.enable_network_quality == true
    &&& c.skip_ttfb_in_latency == true
    &&& c.skip_content_in_latency == true
    &&& c.portal_url@ == "http://10.1.99.100"@
    &&& c.fixed_gateway@ == "10.2.127.254"@
    &&& c.required_network_name@ == "i-wxxy"@
    &&& c.enable_network_name_check == true
    &&& c.campus_gateway@ == "10.2.127.254"@
}

impl Default for Config {
    fn default() -> (r: Self)
        ensures
            is_default_config(r),
    {
        Config {
            user: to_owned_string(""),
            password: to_owned_string(""),
            operator: to_owned_string(""),
            adapter1: to_owned_string("自动检测"),
            adapter2: to_owned_string(""),
            dual_adapter: false,
            auto_login_on_start: true,
            auto_exit_after_login: true,
            minimize_to_tray: false,
            hidden_start: true,
            auto_launch: true,
            enable_background_check: true,
            background_check_interval: 60000,
            auto_login_on_preparation: true,
            auto_exit_on_online: true,
            theme_mode: to_owned_string("dark"),
            enable_notification: true,
            active_account: to_owned_string(""),
            enable_latency_test: false,
            latency_test_interval: 30000,
            custom_theme_color: to_owned_string("#6366f1"),
            default_panel: to_owned_string(""),
            enable_network_quality: true,
            skip_ttfb_in_latency: true,
            skip_content_in_latency: true,
            portal_url: to_owned_string("http://10.1.99.100"),
            fixed_gateway: to_owned_string("10.2.127.254"),
            required_network_name: to_owned_string("i-wxxy"),
            enable_network_name_check: true,
            campus_gateway: to_owned_string("10.2.127.254"),
        }
    }
}

pub fn default_portal_url() -> (r: String)
    ensures
        r@ == "http://10.1.99.100"@,
{
    to_owned_string("http://10.1.99.100")
}

pub fn default_required_network_name() -> (r: String)
    ensures
        r@ == "i-wxxy"@,
{
    to_owned_string("i-wxxy")
}

pub fn default_campus_gateway() -> (r: String)
    ensures
        r@ == "10.2.127.254"@,
{
    to_owned_string("10.2.127.254")
}

/// The login account: the user name followed by the operator suffix,
/// unless the operator is empty or the `__default__` marker.
pub open spec fn spec_user_account(user: Seq<char>, operator: Seq<char>) -> Seq<char> {
    if operator.len() > 0 && operator != "__default__"@ {
        user + operator
    } else {
        user
    }
}

impl Config {
    /// The configuration as it may be shown outside the backend: a
    /// non-empty password replaced by the mask; nothing else changes.
    pub fn masked_for_display(&self) -> (r: Config)
        ensures
            r.password@ == masked_secret(self.password@),
            r == (Config { password: r.password, ..*self }),
    {
        let mut c = self.duplicate();
        if !c.password.as_str().is_empty() {
            c.password = to_owned_string(PASSWORD_MASK);
        }
        c
    }

    /// The account string sent at login (see `spec_user_account`).
    pub fn user_account_with_operator(&self) -> (r: String)
        ensures
            r@ == spec_user_account(self.user@, self.operator@),
    {
        if !self.operator.as_str().is_empty() && !str_eq(self.operator.as_str(), "__default__") {
            concat2(self.user.as_str(), self.operator.as_str())
        } else {
            to_owned_string(self.user.as_str())
        }
    }
}

/// Same rule as the current configuration's user name check.
pub fn validate_username(user: &str) -> (r: Result<&str, String>)
    ensures
        match username_error(user@) {
            None => r matches Ok(u) && u@ == user@,
            Some(m) => r matches Err(e) && e@ == m,
        },
{
    crate::config::validate::validate_username(user)
}

/// Same rule as the current configuration's operator check.
pub fn validate_operator(op: &str) -> (r: Result<&str, String>)
    ensures
        operator_ok(op@) ==> (r matches Ok(o) && o@ == op@),
        !operator_ok(op@) ==> (r matches Err(e) && e@ == operator_error_message(op@)),
{
    crate::config::validate::validate_operator(op)
}

/// Same rule as the current configuration's password check.
pub fn validate_password(password: &str) -> (r: Result<(), String>)
    ensures
        match password_error(password@) {
            None => r is Ok,
            Some(m) => r matches Err(e) && e@ == m,
        },
{
    crate::config::validate::validate_password(password)
}

/// Why the first-generation validation refuses `c`, if it does; checks run
/// in this order. Unlike the current rules, a password equal to the mask
/// is refused.
pub open spec fn legacy_config_error(c: Config) -> Option<Seq<char>> {
    if c.user@.len() > 0 && username_error(c.user@) is Some {
        username_error(c.user@)
    } else if c.password@.len() > 0 && c.password@ == PASSWORD_MASK@ {
        Some("密码不能为\"***\""@)
    } else if c.password@.len() > 0 && password_error(c.password@) is Some {
        password_error(c.password@)
    } else if !operator_ok(migrated_operator(c.operator@)) {
        Some(operator_error_message(migrated_operator(c.operator@)))
    } else if c.custom_theme_color@.len() > 0 && !color_ok(c.custom_theme_color@) {
        Some("自定义主题颜色格式无效，需为#开头的6位十六进制色值"@)
    } else if !theme_ok(c.theme_mode@) {
        Some("主题模式必须为\"dark\"、\"light\"或\"system\""@)
    } else if portal_url_error(normalized_portal_url(c.portal_url@)) is Some {
        portal_url_error(normalized_portal_url(c.portal_url@))
    } else if c.fixed_gateway@.len() > 0 && ip_of(c.fixed_gateway@) is None {
        Some("固定网关地址无效: "@ + c.fixed_gateway@)
    } else if ip_of(filled_campus_gateway(c.campus_gateway@)) is None {
        Some("校园网关地址无效: "@ + filled_campus_gateway(c.campus_gateway@))
    } else {
        None
    }
}

/// What first-generation validation makes of an accepted configuration:
/// retired operators renamed, both intervals clamped to 10 s .. 1 h, the
/// portal address normalized, empty gateway and network name filled with
/// their defaults; nothing else changes.
#[verifier::opaque]
pub open spec fn is_legacy_validated_of(r: Config, c: Config) -> bool {
    &&& r.operator@ == migrated_operator(c.operator@)
    &&& r.background_check_interval == clamp_u64(c.background_check_interval, 10000, 3600000)
    &&& r.latency_test_interval == clamp_u64(c.latency_test_interval, 10000, 3600000)
    &&& r.portal_url@ == normalized_portal_url(c.portal_url@)
    &&& r.campus_gateway@ == filled_campus_gateway(c.campus_gateway@)
    &&& r.required_network_name@ == (if c.required_network_name@.len() == 0 {
        "i-wxxy"@
    } else {
        c.required_network_name@
    })
    &&& r == (Config {
        operator: r.operator,
        background_check_interval: r.background_check_interval,
        latency_test_interval: r.latency_test_interval,
        portal_url: r.portal_url,
        campus_gateway: r.campus_gateway,
        required_network_name: r.required_network_name,
        ..c
    })
}

fn legacy_rejection(config: &Config) -> (r: Option<String>)
    ensures
        match legacy_config_error(*config) {
            None => r is None,
            Some(m) => r matches Some(e) && e@ == m,
        },
{
    if !config.user.as_str().is_empty() {
        if let Err(e) = validate_username(config.user.as_str()) {
            return Some(e);
        }
    }
    if !config.password.as_str().is_empty() {
        if str_eq(config.password.as_str(), PASSWORD_MASK) {
            return Some(to_owned_string("密码不能为\"***\""));
        }
        if let Err(e) = validate_password(config.password.as_str()) {
            return Some(e);
        }
    }
    let op = migrated_operator_of(config.operator.as_str());
    match validate_operator(op.as_str()) {
        Ok(_) => {},
        Err(e) => {
            return Some(e);
        },
    }
    if !config.custom_theme_color.as_str().is_empty() && !is_valid_color(
        config.custom_theme_color.as_str(),
    ) {
        return Some(to_owned_string("自定义主题颜色格式无效，需为#开头的6位十六进制色值"));
    }
    if !str_eq(config.theme_mode.as_str(), "dark") && !str_eq(config.theme_mode.as_str(), "light")
        && !str_eq(config.theme_mode.as_str(), "system") {
        return Some(to_owned_string("主题模式必须为\"dark\"、\"light\"或\"system\""));
    }
    let mut portal = to_owned_string(config.portal_url.as_str());
    normalize_portal_url(&mut portal);
    if let Err(e) = validate_portal_url(portal.as_str()) {
        return Some(e);
    }
    if !config.fixed_gateway.as_str().is_empty() && parse_ip(config.fixed_gateway.as_str()).is_none() {
        return Some(concat2("固定网关地址无效: ", config.fixed_gateway.as_str()));
    }
    let gateway = if config.campus_gateway.as_str().is_empty() {
        default_campus_gateway()
    } else {
        to_owned_string(config.campus_gateway.as_str())
    };
    if parse_ip(gateway.as_str()).is_none() {
        return Some(concat2("校园网关地址无效: ", gateway.as_str()));
    }
    None
}

fn legacy_normalized(config: Config) -> (r: Config)
    ensures
        is_legacy_validated_of(r, config),
{
    reveal(is_legacy_validated_of);
    let operator = migrated_operator_of(config.operator.as_str());
    let mut portal_url = to_owned_string(config.portal_url.as_str());
    normalize_portal_url(&mut portal_url);
    let campus_gateway = if config.campus_gateway.as_str().is_empty() {
        default_campus_gateway()
    } else {
        to_owned_string(config.campus_gateway.as_str())
    };
    let required_network_name = if config.required_network_name.as_str().is_empty() {
        default_required_network_name()
    } else {
        to_owned_string(config.required_network_name.as_str())
    };
    Config {
        operator,
        portal_url,
        campus_gateway,
        required_network_name,
        background_check_interval: clamp_interval(config.background_check_interval),
        latency_test_interval: clamp_interval(config.latency_test_interval),
        ..config
    }
}

/// First-generation strict validation: refuses the first invalid field
/// (see `legacy_config_error`), otherwise returns the normalized
/// configuration (see `is_legacy_validated_of`).
pub fn validate_config(config: Config) -> (r: Result<Config, String>)
    ensures
        match legacy_config_error(config) {
            Some(m) => r matches Err(e) && e@ == m,
            None => r matches Ok(c) && is_legacy_validated_of(c, config),
        },
{
    match legacy_rejection(&config) {
        Some(e) => Err(e),
        None => Ok(legacy_normalized(config)),
    }
}

} // verus!
