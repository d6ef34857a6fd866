//! Settings of the bot (`telemt-admin.toml`), their defaults and the rules
//! that derive the effective runtime from them.

use vstd::prelude::*;

use crate::runtime::RuntimeMode;
use crate::text::{lit, str_chars, string_from_chars, trim, trim_chars};

verus! {

/// Path of the settings file when none is given.
pub const DEFAULT_CONFIG_PATH: &'static str = "/etc/telemt-admin.toml";

#[derive(Debug, Clone)]
pub struct Config {
    /// Telegram bot token (or taken from `TELOXIDE_TOKEN`).
    pub bot_token: Option<String>,
    /// Telegram user ids of the administrators.
    pub admin_ids: Vec<i64>,
    /// Path of the telemt configuration.
    pub telemt_config_path: String,
    /// Path of the SQLite database.
    pub db_path: String,
    /// Name of the systemd service of telemt.
    pub service_name: String,
    /// Page size of the list of active users.
    pub users_page_size: i64,
    /// Rules for invite tokens.
    pub security: SecurityConfig,
    /// Settings of the telemt control API.
    pub telemt_api: TelemtApiConfig,
    /// Notifications and background monitoring.
    pub notifications: NotificationsConfig,
    /// How the telemt process is managed on the host.
    pub runtime: Option<RuntimeSection>,
}

/// The `[runtime]` section.
#[derive(Debug, Clone)]
pub struct RuntimeSection {
    pub mode: RuntimeMode,
    /// Systemd unit for `mode = "systemd"` (the top-level `service_name` when unset).
    pub service_name: Option<String>,
    /// Label shown for `mode = "external"`.
    pub label: Option<String>,
}

#[derive(Debug, Clone)]
pub struct SecurityConfig {
    pub default_token_days: i64,
    pub max_token_days: i64,
    pub allow_auto_approve_tokens: bool,
    pub wizard_state_ttl_seconds: Option<i64>,
}

#[derive(Debug, Clone)]
pub struct TelemtApiConfig {
    pub enabled: bool,
    pub base_url: String,
    pub auth_header: Option<String>,
    pub timeout_ms: u64,
    pub allow_file_fallback: bool,
    pub prefer_api_links: bool,
}

#[derive(Debug, Clone)]
pub struct NotificationsConfig {
    pub enabled: bool,
    pub health_check_interval_secs: u64,
    pub notify_on_health_change: bool,
    pub notify_on_runtime_alerts: bool,
    pub notify_on_new_request: bool,
}

pub fn default_runtime_mode() -> (r: RuntimeMode)
    ensures
        r == RuntimeMode::Systemd,
{
    RuntimeMode::Systemd
}

pub fn default_telemt_config_path() -> (r: String)
    ensures
        r@ == "/etc/telemt.toml"@,
{
    lit("/etc/telemt.toml")
}

pub fn default_db_path() -> (r: String)
    ensures
        r@ == "/var/lib/telemt-admin/state.db"@,
{
    lit("/var/lib/telemt-admin/state.db")
}

pub fn default_service_name() -> (r: String)
    ensures
        r@ == "telemt.service"@,
{
    lit("telemt.service")
}

pub fn default_users_page_size() -> (r: i64)
    ensures
        r == 10,
{
    10
}

pub fn default_token_days() -> (r: i64)
    ensures
        r == 14,
{
    14
}

pub fn default_max_token_days() -> (r: i64)
    ensures
        r == 180,
{
    180
}

pub fn default_allow_auto_approve_tokens() -> (r: bool)
    ensures
        r,
{
    true
}

pub fn default_telemt_api_base_url() -> (r: String)
    ensures
        r@ == "http://127.0.0.1:9091"@,
{
    lit("http://127.0.0.1:9091")
}

pub fn default_telemt_api_timeout_ms() -> (r: u64)
    ensures
        r == 5000,
{
    5_000
}

pub fn default_allow_file_fallback() -> (r: bool)
    ensures
        r,
{
    true
}

pub fn default_prefer_api_links() -> (r: bool)
    ensures
        r,
{
    true
}

pub fn default_notifications_enabled() -> (r: bool)
    ensures
        r,
{
    true
}

pub fn default_health_check_interval_secs() -> (r: u64)
    ensures
        r == 60,
{
    60
}

pub fn default_notify_on_health_change() -> (r: bool)
    ensures
        r,
{
    true
}

pub fn default_notify_on_runtime_alerts() -> (r: bool)
    ensures
        r,
{
    true
}

pub fn default_notify_on_new_request() -> (r: bool)
    ensures
        r,
{
    true
}

impl Default for SecurityConfig {
    fn default() -> (r: SecurityConfig)
        ensures
            r.default_token_days == 14,
            r.max_token_days == 180,
            r.allow_auto_approve_tokens,
            r.wizard_state_ttl_seconds is None,
    {
        SecurityConfig {
            default_token_days: default_token_days(),
            max_token_days: default_max_token_days(),
            allow_auto_approve_tokens: default_allow_auto_approve_tokens(),
            wizard_state_ttl_seconds: None,
        }
    }
}

impl Default for TelemtApiConfig {
    fn default() -> (r: TelemtApiConfig)
        ensures
            !r.enabled,
            r.base_url@ == "http://127.0.0.1:9091"@,
            r.auth_header is None,
            r.timeout_ms == 5000,
            r.allow_file_fallback,
            r.prefer_api_links,
    {
        TelemtApiConfig {
            enabled: false,
            base_url: default_telemt_api_base_url(),
            auth_header: None,
            timeout_ms: default_telemt_api_timeout_ms(),
            allow_file_fallback: default_allow_file_fallback(),
            prefer_api_links: default_prefer_api_links(),
        }
    }
}

impl Default for NotificationsConfig {
    fn default() -> (r: NotificationsConfig)
        ensures
            r.enabled,
            r.health_check_interval_secs == 60,
            r.notify_on_health_change,
            r.notify_on_runtime_alerts,
            r.notify_on_new_request,
    {
        NotificationsConfig {
            enabled: default_notifications_enabled(),
            health_check_interval_secs: default_health_check_interval_secs(),
            notify_on_health_change: default_notify_on_health_change(),
            notify_on_runtime_alerts: default_notify_on_runtime_alerts(),
            notify_on_new_request: default_notify_on_new_request(),
        }
    }
}

/// Why loaded settings are refused.
#[derive(Debug, Clone, Copy, PartialEq, Eq, Structural)]
pub enum ConfigError {
    /// `security.wizard_state_ttl_seconds` is zero or negative.
    NonPositiveWizardTtl,
    /// `notifications.health_check_interval_secs` is zero.
    ZeroHealthCheckInterval,
    /// No bot token in the file nor in the environment.
    MissingBotToken,
}

impl ConfigError {
    pub open spec fn text(self) -> Seq<char> {
        match self {
            ConfigError::NonPositiveWizardTtl =>
                "security.wizard_state_ttl_seconds должен быть положительным числом секунд"@,
            ConfigError::ZeroHealthCheckInterval =>
                "notifications.health_check_interval_secs должен быть положительным"@,
            ConfigError::MissingBotToken =>
                "Не задан bot_token (в TOML, TELEMT_ADMIN__BOT_TOKEN или TELOXIDE_TOKEN)"@,
        }
    }

    pub fn message(self) -> (r: String)
        ensures
            r@ == self.text(),
    {
        match self {
            ConfigError::NonPositiveWizardTtl => lit(
                "security.wizard_state_ttl_seconds должен быть положительным числом секунд",
            ),
            ConfigError::ZeroHealthCheckInterval => lit(
                "notifications.health_check_interval_secs должен быть положительным",
            ),
            ConfigError::MissingBotToken => lit(
                "Не задан bot_token (в TOML, TELEMT_ADMIN__BOT_TOKEN или TELOXIDE_TOKEN)",
            ),
        }
    }
}

/// The runtime section's value trimmed, when it holds more than whitespace.
pub open spec fn nonblank_trimmed(v: Option<String>) -> Option<Seq<char>> {
    match v {
        Some(s) => if trim(s@).len() > 0 {
            Some(trim(s@))
        } else {
            None
        },
        None => None,
    }
}

fn nonblank_trimmed_exec(v: &Option<String>) -> (r: Option<String>)
    ensures
        match r {
            Some(s) => nonblank_trimmed(*v) == Some(s@),
            None => nonblank_trimmed(*v) is None,
        },
{
    match v {
        Some(s) => {
            let c = str_chars(s.as_str());
            let t = trim_chars(c.as_slice());
            if t.len() > 0 {
                Some(string_from_chars(t.as_slice()))
            } else {
                None
            }
        },
        None => None,
    }
}

impl Config {
    pub open spec fn effective_runtime_mode_spec(self) -> RuntimeMode {
        match self.runtime {
            Some(r) => r.mode,
            None => RuntimeMode::Systemd,
        }
    }

    pub open spec fn effective_systemd_unit_spec(self) -> Seq<char> {
        match self.runtime {
            Some(r) => match nonblank_trimmed(r.service_name) {
                Some(u) => u,
                None => self.service_name@,
            },
            None => self.service_name@,
        }
    }

    pub open spec fn effective_external_label_spec(self) -> Option<Seq<char>> {
        match self.runtime {
            Some(r) => nonblank_trimmed(r.label),
            None => None,
        }
    }

    /// The checks that loaded settings must pass, in the order they are made.
    pub open spec fn validation(self) -> Result<(), ConfigError> {
        if self.security.wizard_state_ttl_seconds matches Some(ttl) && ttl <= 0 {
            Err(ConfigError::NonPositiveWizardTtl)
        } else if self.notifications.health_check_interval_secs == 0 {
            Err(ConfigError::ZeroHealthCheckInterval)
        } else {
            Ok(())
        }
    }

    pub fn is_admin(&self, user_id: i64) -> (r: bool)
        ensures
            r == self.admin_ids@.contains(user_id),
    {
        for i in 0..self.admin_ids.len()
            invariant
                forall|j: int| 0 <= j < i ==> self.admin_ids@[j] != user_id,
        {
            if self.admin_ids[i] == user_id {
                return true;
            }
        }
        false
    }

    /// The runtime mode; without a `[runtime]` section it is systemd.
    pub fn effective_runtime_mode(&self) -> (r: RuntimeMode)
        ensures
            r == self.effective_runtime_mode_spec(),
    {
        match &self.runtime {
            Some(r) => r.mode,
            None => RuntimeMode::Systemd,
        }
    }

    /// The unit that `systemctl` acts on in systemd mode.
    pub fn effective_systemd_unit(&self) -> (r: String)
        ensures
            r@ == self.effective_systemd_unit_spec(),
    {
        match &self.runtime {
            Some(r) => match nonblank_trimmed_exec(&r.service_name) {
                Some(u) => u,
                None => self.service_name.clone(),
            },
            None => self.service_name.clone(),
        }
    }

    /// The label shown for an external supervisor.
    pub fn effective_external_label(&self) -> (r: Option<String>)
        ensures
            match r {
                Some(s) => self.effective_external_label_spec() == Some(s@),
                None => self.effective_external_label_spec() is None,
            },
    {
        match &self.runtime {
            Some(r) => nonblank_trimmed_exec(&r.label),
            None => None,
        }
    }

    /// Checks the settings as loading does after parsing.
    pub fn validate(&self) -> (r: Result<(), ConfigError>)
        ensures
            r == self.validation(),
    {
        if let Some(ttl) = self.security.wizard_state_ttl_seconds {
            if ttl <= 0 {
                return Err(ConfigError::NonPositiveWizardTtl);
            }
        }
        if self.notifications.health_check_interval_secs == 0 {
            return Err(ConfigError::ZeroHealthCheckInterval);
        }
        Ok(())
    }

    /// The bot token: the one in the file, else the one from the environment.
    pub fn bot_token(&self, env_token: Option<String>) -> (r: Result<String, ConfigError>)
        ensures
            match self.bot_token {
                Some(t) => r == Ok::<String, ConfigError>(t),
                None => match env_token {
                    Some(t) => r == Ok::<String, ConfigError>(t),
                    None => r == Err::<String, ConfigError>(ConfigError::MissingBotToken),
                },
            },
    {
        match &self.bot_token {
            Some(t) => Ok(t.clone()),
            None => match env_token {
                Some(t) => Ok(t),
                None => Err(ConfigError::MissingBotToken),
            },
        }
    }
}

/// Subcommands of the command line.
#[derive(Debug, Clone, Copy, PartialEq, Eq, Structural)]
pub enum Commands {
    /// Check whether a newer release exists.
    CheckUpdate,
    /// Replace the binary with the newest release (Linux x86_64 only).
    SelfUpdate,
}

/// Command-line arguments.
#[derive(Debug, Clone)]
pub struct Cli {
    /// Path given with `--config`.
    pub config: Option<String>,
    /// Path given as the positional argument (older launch style).
    pub config_path: Option<String>,
    pub command: Option<Commands>,
}

impl Cli {
    pub open spec fn config_path_spec(self) -> Seq<char> {
        match self.config {
            Some(c) => c@,
            None => match self.config_path {
                Some(p) => p@,
                None => DEFAULT_CONFIG_PATH@,
            },
        }
    }

    /// The settings path: `--config` first, then the positional argument, then the default.
    pub fn config_path(&self) -> (r: String)
        ensures
            r@ == self.config_path_spec(),
    {
        match &self.config {
            Some(c) => c.clone(),
            None => match &self.config_path {
                Some(p) => p.clone(),
                None => lit(DEFAULT_CONFIG_PATH),
            },
        }
    }
}

} // verus!
