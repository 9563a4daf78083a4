//! Desktop configuration: the persisted settings of one installation,
//! their defaults and the outbound masking of secrets.

use vstd::prelude::*;
use crate::text::to_owned_string;

verus! {


/// Placeholder that replaces a non-empty secret when a configuration leaves
/// the backend.
pub const PASSWORD_MASK: &'static str = "***";

/// Adapter name meaning "pick the adapter automatically".
pub const AUTO_DETECT_ADAPTER: &'static str = "自动检测";

/// One installation's settings (field names follow the persisted camelCase
/// keys one to one).
#[derive(Clone, Debug)]
pub struct Config {
    pub user: String,
    pub password: String,
    pub self_password: String,
    pub self_hello_enabled: bool,
    pub self_reverify_each_action: bool,
    pub operator: String,
    pub adapter1: String,
    pub adapter2: String,
    pub adapter1_account: String,
    pub adapter2_account: String,
    pub dual_adapter: bool,
    pub auto_login_on_start: bool,
    pub auto_exit_after_login: bool,
    pub minimize_to_tray: bool,
    pub hidden_start: bool,
    pub auto_launch: bool,
    pub enable_background_check: bool,
    pub background_check_interval: u64,
    pub auto_login_on_preparation: bool,
    pub enable_night_operator_switch: bool,
    pub night_operator_restore: String,
    pub auto_exit_on_online: bool,
    pub theme_mode: String,
    pub enable_notification: bool,
    pub active_account: String,
    pub display_name: String,
    pub enable_latency_test: bool,
    pub latency_test_interval: u64,
    pub custom_theme_color: String,
    pub default_panel: String,
    pub enable_network_quality: bool,
    pub skip_ttfb_in_latency: bool,
    pub skip_content_in_latency: bool,
    pub portal_url: String,
    pub fixed_gateway: String,
    pub required_network_name: String,
    pub enable_network_name_check: bool,
    pub campus_gateway: String,
    pub update_source: String,
    pub campus_exit_on_fail: bool,
    pub campus_exit_start_minutes: u16,
    pub campus_exit_end_minutes: u16,
    pub campus_check_start_minutes: u16,
    pub campus_check_end_minutes: u16,
    pub scheduled_login_minutes: u16,
    pub scheduled_logout_minutes: u16,
    pub log_retention_days: u32,
    pub max_disconnect_reconnect: u32,
    pub auto_login_cooldown_secs: u64,
    pub skip_sha256_when_missing: bool,
    pub config_version: u32,
}

impl Config {
    /// A field-by-field copy.
    pub fn duplicate(&self) -> (r: Self)
        ensures
            r == *self,
    {
        Config {
            user: self.user.clone(),
            password: self.password.clone(),
            self_password: self.self_password.clone(),
            self_hello_enabled: self.self_hello_enabled,
            self_reverify_each_action: self.self_reverify_each_action,
            operator: self.operator.clone(),
            adapter1: self.adapter1.clone(),
            adapter2: self.adapter2.clone(),
            adapter1_account: self.adapter1_account.clone(),
            adapter2_account: self.adapter2_account.clone(),
            dual_adapter: self.dual_adapter,
            auto_login_on_start: self.auto_login_on_start,
            auto_exit_after_login: self.auto_exit_after_login,
            minimize_to_tray: self.minimize_to_tray,
            hidden_start: self.hidden_start,
            auto_launch: self.auto_launch,
            enable_background_check: self.enable_background_check,
            background_check_interval: self.background_check_interval,
            auto_login_on_preparation: self.auto_login_on_preparation,
            enable_night_operator_switch: self.enable_night_operator_switch,
            night_operator_restore: self.night_operator_restore.clone(),
            auto_exit_on_online: self.auto_exit_on_online,
            theme_mode: self.theme_mode.clone(),
            enable_notification: self.enable_notification,
            active_account: self.active_account.clone(),
            display_name: self.display_name.clone(),
            enable_latency_test: self.enable_latency_test,
            latency_test_interval: self.latency_test_interval,
            custom_theme_color: self.custom_theme_color.clone(),
            default_panel: self.default_panel.clone(),
            enable_network_quality: self.enable_network_quality,
            skip_ttfb_in_latency: self.skip_ttfb_in_latency,
            skip_content_in_latency: self.skip_content_in_latency,
            portal_url: self.portal_url.clone(),
            fixed_gateway: self.fixed_gateway.clone(),
            required_network_name: self.required_network_name.clone(),
            enable_network_name_check: self.enable_network_name_check,
            campus_gateway: self.campus_gateway.clone(),
            update_source: self.update_source.clone(),
            campus_exit_on_fail: self.campus_exit_on_fail,
            campus_exit_start_minutes: self.campus_exit_start_minutes,
            campus_exit_end_minutes: self.campus_exit_end_minutes,
            campus_check_start_minutes: self.campus_check_start_minutes,
            campus_check_end_minutes: self.campus_check_end_minutes,
            scheduled_login_minutes: self.scheduled_login_minutes,
            scheduled_logout_minutes: self.scheduled_logout_minutes,
            log_retention_days: self.log_retention_days,
            max_disconnect_reconnect: self.max_disconnect_reconnect,
            auto_login_cooldown_secs: self.auto_login_cooldown_secs,
            skip_sha256_when_missing: self.skip_sha256_when_missing,
            config_version: self.config_version,
        }
    }
}

/// The defaults a fresh installation starts with.
pub open spec fn is_default_config(c: Config) -> bool {
    &&& c.user@ == ""@
    &&& c.password@ == ""@
    &&& c.self_password@ == ""@
    &&& c.self_hello_enabled == true
    &&& c.self_reverify_each_action == false
    &&& c.operator@ == ""@
    &&& c.adapter1@ == "自动检测"@
    &&& c.adapter2@ == ""@
    &&& c.adapter1_account@ == ""@
    &&& c.adapter2_account@ == ""@
    &&& c.dual_adapter == false
    &&& c.auto_login_on_start == true
    &&& c.auto_exit_after_login == true
    &&& c.minimize_to_tray == false
    &&& c.hidden_start == false
    &&& c.auto_launch == true
    &&& c.enable_background_check == true
    &&& c.background_check_interval == 15000
    &&& c.auto_login_on_preparation == true
    &&& c.enable_night_operator_switch == false
    &&& c.night_operator_restore@ == ""@
    &&& c.auto_exit_on_online == true
    &&& c.theme_mode@ == "dark"@
    &&& c.enable_notification == true
    &&& c.active_account@ == ""@
    &&& c.display_name@ == ""@
    &&& c.enable_latency_test == true
    &&& c.latency_test_interval == 60000
    &&& c.custom_theme_color@ == "#6366f1"@
    &&& c.default_panel@ == ""@
    &&& c.enable_network_quality == true
    &&& c.skip_ttfb_in_latency == true
    &&& c.skip_content_in_latency == true
    &&& c.portal_url@ == "http://10.1.99.100"@
    &&& c.fixed_gateway@ == "10.2.127.254"@
    &&& c.required_network_name@ == "i-wxxy"@
    &&& c.enable_network_name_check == true
    &&& c.campus_gateway@ == "10.2.127.254"@
    &&& c.update_source@ == "mirror"@
    &&& c.campus_exit_on_fail == true
    &&& c.campus_exit_start_minutes == 480
    &&& c.campus_exit_end_minutes == 1380
    &&& c.campus_check_start_minutes == 460
    &&& c.campus_check_end_minutes == 1380
    &&& c.scheduled_login_minutes == 0
    &&& c.scheduled_logout_minutes == 0
    &&& c.log_retention_days == 7
    &&& c.max_disconnect_reconnect == 3
    &&& c.auto_login_cooldown_secs == 60
    &&& c.skip_sha256_when_missing == false
    &&& c.config_version == 3
}

impl Default for Config {
    fn default() -> (r: Self)
        ensures
            is_default_config(r),
    {
        Config {
            user: to_owned_string(""),
            password: to_owned_string(""),
            self_password: to_owned_string(""),
            self_hello_enabled: true,
            self_reverify_each_action: false,
            operator: to_owned_string(""),
            adapter1: to_owned_string("自动检测"),
            adapter2: to_owned_string(""),
            adapter1_account: to_owned_string(""),
            adapter2_account: to_owned_string(""),
            dual_adapter: false,
            auto_login_on_start: true,
            auto_exit_after_login: true,
            minimize_to_tray: false,
            hidden_start: false,
            auto_launch: true,
            enable_background_check: true,
            background_check_interval: 15000,
            auto_login_on_preparation: true,
            enable_night_operator_switch: false,
            night_operator_restore: to_owned_string(""),
            auto_exit_on_online: true,
            theme_mode: to_owned_string("dark"),
            enable_notification: true,
            active_account: to_owned_string(""),
            display_name: to_owned_string(""),
            enable_latency_test: true,
            latency_test_interval: 60000,
            custom_theme_color: to_owned_string("#6366f1"),
            default_panel: to_owned_string(""),
            enable_network_quality: true,
            skip_ttfb_in_latency: true,
            skip_content_in_latency: true,
            portal_url: to_owned_string("http://10.1.99.100"),
            fixed_gateway: to_owned_string("10.2.127.254"),
            required_network_name: to_owned_string("i-wxxy"),
            enable_network_name_check: true,
            campus_gateway: to_owned_string("10.2.127.254"),
            update_source: to_owned_string("mirror"),
            campus_exit_on_fail: true,
            campus_exit_start_minutes: 480,
            campus_exit_end_minutes: 1380,
            campus_check_start_minutes: 460,
            campus_check_end_minutes: 1380,
            scheduled_login_minutes: 0,
            scheduled_logout_minutes: 0,
            log_retention_days: 7,
            max_disconnect_reconnect: 3,
            auto_login_cooldown_secs: 60,
            skip_sha256_when_missing: false,
            config_version: 3,
        }
    }
}

/// Serde default for boolean switches that start enabled.
pub fn default_true() -> (r: bool)
    ensures
        r,
{
    true
}

pub fn default_campus_check_start_minutes() -> (r: u16)
    ensures
        r == 460,
{
    460
}

/// 23:00 expressed in minutes since midnight.
pub fn default_campus_check_end_minutes() -> (r: u16)
    ensures
        r == 1380,
{
    1380
}

pub fn default_campus_exit_start_minutes() -> (r: u16)
    ensures
        r == 480,
{
    480
}

pub fn default_campus_exit_end_minutes() -> (r: u16)
    ensures
        r == 1380,
{
    1380
}

pub fn default_fixed_gateway() -> (r: String)
    ensures
        r@ == "10.2.127.254"@,
{
    to_owned_string("10.2.127.254")
}

pub fn default_log_retention_days() -> (r: u32)
    ensures
        r == 7,
{
    7
}

pub fn default_max_disconnect_reconnect() -> (r: u32)
    ensures
        r == 3,
{
    3
}

pub fn default_auto_login_cooldown_secs() -> (r: u64)
    ensures
        r == 60,
{
    60
}

pub fn default_portal_url() -> (r: String)
    ensures
        r@ == "http://10.1.99.100"@,
{
    to_owned_string("http://10.1.99.100")
}

pub fn default_required_network_name() -> (r: String)
    ensures
        r@ == "i-wxxy"@,
{
    to_owned_string("i-wxxy")
}

pub fn default_campus_gateway() -> (r: String)
    ensures
        r@ == "10.2.127.254"@,
{
    to_owned_string("10.2.127.254")
}

/// What a secret shows as outside the backend: empty stays empty (meaning
/// "not set"), anything else becomes the mask.
pub open spec fn masked_secret(s: Seq<char>) -> Seq<char> {
    if s.len() == 0 {
        s
    } else {
        PASSWORD_MASK@
    }
}

/// `r` is `c` with both secrets masked and every other field unchanged.
pub open spec fn is_masked_of(r: Config, c: Config) -> bool {
    &&& r.password@ == masked_secret(c.password@)
    &&& r.self_password@ == masked_secret(c.self_password@)
    &&& r == (Config { password: r.password, self_password: r.self_password, ..c })
}

/// Replaces `s` by the mask unless it is empty.
pub fn mask_secret(s: &mut String)
    ensures
        final(s)@ == masked_secret(old(s)@),
{
    if !s.as_str().is_empty() {
        *s = to_owned_string(PASSWORD_MASK);
    }
}

impl Config {
    /// The configuration as it may be shown outside the backend: every
    /// non-empty secret replaced by the mask. The receiver is not changed.
    pub fn masked_for_display(&self) -> (r: Config)
        ensures
            is_masked_of(r, *self),
    {
        let mut c = self.duplicate();
        c.mask_in_place();
        c
    }

    /// Masks both secrets in place; no other field changes.
    pub fn mask_in_place(&mut self)
        ensures
            is_masked_of(*final(self), *old(self)),
    {
        mask_secret(&mut self.password);
        mask_secret(&mut self.self_password);
    }
}

} // verus!
