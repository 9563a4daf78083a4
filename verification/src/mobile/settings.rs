//! The phone client's settings: defaults, the masked form shown to the
//! front end, how a saved secret survives an edit that did not touch it, and
//! the one-time migration of an old default.

use vstd::prelude::*;
use crate::text::to_owned_string;
use crate::config::model::{PASSWORD_MASK, masked_secret, mask_secret};

verus! {

/// The phone client's settings.
#[derive(Clone, Debug)]
pub struct Settings {
    // credentials (secrets are encrypted before they reach the disk)
    pub user: String,
    pub password: String,
    pub self_password: String,
    pub self_hello_enabled: bool,
    pub self_reverify_each_action: bool,
    pub operator: String,
    // behaviour
    pub auto_login_on_start: bool,
    pub enable_background_check: bool,
    pub background_check_interval: u64,
    pub auto_login_on_preparation: bool,
    pub max_disconnect_reconnect: u32,
    pub auto_login_cooldown_secs: u64,
    // appearance and notifications
    pub theme_mode: String,
    pub enable_notification: bool,
    pub custom_theme_color: String,
    pub default_panel: String,
    pub active_account: String,
    /// Readable name of the active account.
    pub display_name: String,
    /// The operator suffix saved by the night-time switch, to be restored.
    pub night_operator_restore: String,
    pub enable_boot_autostart: bool,
    // timed quality tests
    pub enable_latency_test: bool,
    pub latency_test_interval: u64,
    pub enable_network_quality: bool,
    pub skip_ttfb_in_latency: bool,
    pub skip_content_in_latency: bool,
    // network
    pub portal_url: String,
    pub fixed_gateway: String,
    pub required_network_name: String,
    pub enable_network_name_check: bool,
    pub campus_gateway: String,
    // updates: "mirror" (mirrors first) or "github" (official source first)
    pub update_source: String,
    // logs
    pub log_retention_days: u32,
    pub config_schema_version: u32,
}

impl Settings {
    /// A field-by-field copy.
    pub fn duplicate(&self) -> (r: Self)
        ensures
            r == *self,
    {
        Settings {
            user: self.user.clone(),
            password: self.password.clone(),
            self_password: self.self_password.clone(),
            self_hello_enabled: self.self_hello_enabled,
            self_reverify_each_action: self.self_reverify_each_action,
            operator: self.operator.clone(),
            auto_login_on_start: self.auto_login_on_start,
            enable_background_check: self.enable_background_check,
            background_check_interval: self.background_check_interval,
            auto_login_on_preparation: self.auto_login_on_preparation,
            max_disconnect_reconnect: self.max_disconnect_reconnect,
            auto_login_cooldown_secs: self.auto_login_cooldown_secs,
            theme_mode: self.theme_mode.clone(),
            enable_notification: self.enable_notification,
            custom_theme_color: self.custom_theme_color.clone(),
            default_panel: self.default_panel.clone(),
            active_account: self.active_account.clone(),
            display_name: self.display_name.clone(),
            night_operator_restore: self.night_operator_restore.clone(),
            enable_boot_autostart: self.enable_boot_autostart,
            enable_latency_test: self.enable_latency_test,
            latency_test_interval: self.latency_test_interval,
            enable_network_quality: self.enable_network_quality,
            skip_ttfb_in_latency: self.skip_ttfb_in_latency,
            skip_content_in_latency: self.skip_content_in_latency,
            portal_url: self.portal_url.clone(),
            fixed_gateway: self.fixed_gateway.clone(),
            required_network_name: self.required_network_name.clone(),
            enable_network_name_check: self.enable_network_name_check,
            campus_gateway: self.campus_gateway.clone(),
            update_source: self.update_source.clone(),
            log_retention_days: self.log_retention_days,
            config_schema_version: self.config_schema_version,
        }
    }
}

/// The settings of a fresh installation.
pub open spec fn is_default_settings(s: Settings) -> bool {
    &&& s.user@ == ""@
    &&& s.password@ == ""@
    &&& s.self_password@ == ""@
    &&& s.self_hello_enabled == true
    &&& s.self_reverify_each_action == false
    &&& s.operator@ == ""@
    &&& s.auto_login_on_start == false
    &&& s.enable_background_check == false
    &&& s.background_check_interval == 60000
    &&& s.auto_login_on_preparation == false
    &&& s.max_disconnect_reconnect == 3
    &&& s.auto_login_cooldown_secs == 60
    &&& s.theme_mode@ == "dark"@
    &&& s.enable_notification == true
    &&& s.custom_theme_color@ == "#6366f1"@
    &&& s.default_panel@ == "dashboard"@
    &&& s.active_account@ == ""@
    &&& s.display_name@ == ""@
    &&& s.night_operator_restore@ == ""@
    &&& s.enable_boot_autostart == false
    &&& s.enable_latency_test == false
    &&& s.latency_test_interval == 60000
    &&& s.enable_network_quality == true
    &&& s.skip_ttfb_in_latency == false
    &&& s.skip_content_in_latency == false
    &&& s.portal_url@ == "http://10.1.99.100"@
    &&& s.fixed_gateway@ == "10.2.127.254"@
    &&& s.required_network_name@ == "i-wxxy"@
    &&& s.enable_network_name_check == false
    &&& s.campus_gateway@ == "10.2.127.254"@
    &&& s.update_source@ == "mirror"@
    &&& s.log_retention_days == 7
    &&& s.config_schema_version == 1
}

impl Default for Settings {
    fn default() -> (r: Self)
        ensures
            is_default_settings(r),
    {
        Settings {
            user: to_owned_string(""),
            password: to_owned_string(""),
            self_password: to_owned_string(""),
            self_hello_enabled: true,
            self_reverify_each_action: false,
            operator: to_owned_string(""),
            auto_login_on_start: false,
            enable_background_check: false,
            background_check_interval: 60000,
            auto_login_on_preparation: false,
            max_disconnect_reconnect: 3,
            auto_login_cooldown_secs: 60,
            theme_mode: to_owned_string("dark"),
            enable_notification: true,
            custom_theme_color: to_owned_string("#6366f1"),
            default_panel: to_owned_string("dashboard"),
            active_account: to_owned_string(""),
            display_name: to_owned_string(""),
            night_operator_restore: to_owned_string(""),
            enable_boot_autostart: false,
            enable_latency_test: false,
            latency_test_interval: 60000,
            enable_network_quality: true,
            skip_ttfb_in_latency: false,
            skip_content_in_latency: false,
            portal_url: to_owned_string("http://10.1.99.100"),
            fixed_gateway: to_owned_string("10.2.127.254"),
            required_network_name: to_owned_string("i-wxxy"),
            enable_network_name_check: false,
            campus_gateway: to_owned_string("10.2.127.254"),
            update_source: to_owned_string("mirror"),
            log_retention_days: 7,
            config_schema_version: 1,
        }
    }
}

/// `r` is `s` with both secrets masked and every other field unchanged.
pub open spec fn is_masked_settings_of(r: Settings, s: Settings) -> bool {
    &&& r.password@ == masked_secret(s.password@)
    &&& r.self_password@ == masked_secret(s.self_password@)
    &&& r == (Settings { password: r.password, self_password: r.self_password, ..s })
}

/// The settings as they may leave the backend: every non-empty secret
/// replaced by the mask.
pub fn masked_for_display(s: &Settings) -> (r: Settings)
    ensures
        is_masked_settings_of(r, *s),
{
    let mut m = s.duplicate();
    mask_secret(&mut m.password);
    mask_secret(&mut m.self_password);
    m
}

/// What a secret field becomes when the front end saves: cleared when
/// asked; kept when the front end sent nothing or the mask; replaced
/// otherwise.
pub open spec fn resolved_password(incoming: Seq<char>, current: Seq<char>, clear: bool) -> Seq<char> {
    if clear {
        ""@
    } else if incoming.len() == 0 || incoming == PASSWORD_MASK@ {
        current
    } else {
        incoming
    }
}

/// An empty field or the mask means "unchanged" and falls back to the saved
/// value; `clear` empties it explicitly.
pub fn resolve_password_field(incoming: &str, current: &str, clear: bool) -> (r: String)
    ensures
        r@ == resolved_password(incoming@, current@, clear),
{
    if clear {
        return to_owned_string("");
    }
    if incoming.is_empty() || crate::text::str_eq(incoming, PASSWORD_MASK) {
        to_owned_string(current)
    } else {
        to_owned_string(incoming)
    }
}

/// The settings that a save writes: what the front end sent, with both
/// secrets resolved against the saved ones.
pub fn merge_saved_settings(
    incoming: Settings,
    current: &Settings,
    clear_password: bool,
    clear_self_password: bool,
) -> (r: Settings)
    ensures
        r.password@ == resolved_password(incoming.password@, current.password@, clear_password),
        r.self_password@ == resolved_password(
            incoming.self_password@,
            current.self_password@,
            clear_self_password,
        ),
        r == (Settings { password: r.password, self_password: r.self_password, ..incoming }),
{
    let password = resolve_password_field(incoming.password.as_str(), current.password.as_str(), clear_password);
    let self_password = resolve_password_field(
        incoming.self_password.as_str(),
        current.self_password.as_str(),
        clear_self_password,
    );
    Settings { password, self_password, ..incoming }
}

/// The settings after the one-time migration of schema 0: the historical
/// 15 s check interval becomes the current 60 s default, and the schema is
/// marked current. Later versions are left alone.
pub open spec fn migrated_settings(s: Settings) -> Settings {
    if s.config_schema_version >= 1 {
        s
    } else {
        Settings {
            background_check_interval: if s.background_check_interval == 15000 {
                60000
            } else {
                s.background_check_interval
            },
            config_schema_version: 1,
            ..s
        }
    }
}

/// Applies the schema-0 migration; returns whether anything was migrated
/// (the caller then writes the settings back).
pub fn migrate_legacy_defaults(s: &mut Settings) -> (migrated: bool)
    ensures
        *final(s) == migrated_settings(*old(s)),
        migrated == (old(s).config_schema_version < 1),
{
    if s.config_schema_version >= 1 {
        return false;
    }
    if s.background_check_interval == 15000 {
        s.background_check_interval = 60000;
    }
    s.config_schema_version = 1;
    true
}

/// Migrating twice changes nothing more than migrating once.
pub proof fn law_migration_is_idempotent(s: Settings)
    ensures
        migrated_settings(migrated_settings(s)) == migrated_settings(s),
{
}

/// Masking never lets a non-empty secret through: the shown password is
/// either empty (it was empty) or the mask.
pub proof fn law_masked_settings_hide_secrets(r: Settings, s: Settings)
    requires
        is_masked_settings_of(r, s),
    ensures
        r.password@.len() == 0 || r.password@ == PASSWORD_MASK@,
        r.self_password@.len() == 0 || r.self_password@ == PASSWORD_MASK@,
        (r.password@.len() == 0) == (s.password@.len() == 0),
{
    reveal_strlit("***");
}

} // verus!
