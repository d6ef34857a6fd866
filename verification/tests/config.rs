use telemt_admin::config::{
    default_allow_auto_approve_tokens, default_allow_file_fallback, default_db_path,
    default_health_check_interval_secs, default_max_token_days, default_notifications_enabled,
    default_notify_on_health_change, default_notify_on_new_request,
    default_notify_on_runtime_alerts, default_prefer_api_links, default_runtime_mode,
    default_service_name, default_telemt_api_base_url, default_telemt_api_timeout_ms,
    default_telemt_config_path, default_token_days, default_users_page_size, Cli, Commands,
    Config, ConfigError, NotificationsConfig, RuntimeSection, SecurityConfig, TelemtApiConfig,
    DEFAULT_CONFIG_PATH,
};
use telemt_admin::runtime::RuntimeMode;

fn base_config() -> Config {
    Config {
        bot_token: None,
        admin_ids: vec![100, 200],
        telemt_config_path: default_telemt_config_path(),
        db_path: default_db_path(),
        service_name: default_service_name(),
        users_page_size: default_users_page_size(),
        security: SecurityConfig::default(),
        telemt_api: TelemtApiConfig::default(),
        notifications: NotificationsConfig::default(),
        runtime: None,
    }
}

#[test]
fn config_defaults() {
    assert_eq!(default_runtime_mode(), RuntimeMode::Systemd);
    assert_eq!(default_telemt_config_path(), "/etc/telemt.toml");
    assert_eq!(default_db_path(), "/var/lib/telemt-admin/state.db");
    assert_eq!(default_service_name(), "telemt.service");
    assert_eq!(default_users_page_size(), 10);
    assert_eq!(default_token_days(), 14);
    assert_eq!(default_max_token_days(), 180);
    assert!(default_allow_auto_approve_tokens());
    assert_eq!(default_telemt_api_base_url(), "http://127.0.0.1:9091");
    assert_eq!(default_telemt_api_timeout_ms(), 5000);
    assert!(default_allow_file_fallback());
    assert!(default_prefer_api_links());
    assert!(default_notifications_enabled());
    assert_eq!(default_health_check_interval_secs(), 60);
    assert!(default_notify_on_health_change());
    assert!(default_notify_on_runtime_alerts());
    assert!(default_notify_on_new_request());
    assert_eq!(DEFAULT_CONFIG_PATH, "/etc/telemt-admin.toml");
}

#[test]
fn config_section_defaults() {
    let s = SecurityConfig::default();
    assert_eq!(s.default_token_days, 14);
    assert_eq!(s.max_token_days, 180);
    assert!(s.allow_auto_approve_tokens);
    assert_eq!(s.wizard_state_ttl_seconds, None);
    let a = TelemtApiConfig::default();
    assert!(!a.enabled);
    assert_eq!(a.base_url, "http://127.0.0.1:9091");
    assert_eq!(a.auth_header, None);
    assert_eq!(a.timeout_ms, 5000);
    let n = NotificationsConfig::default();
    assert!(n.enabled);
    assert_eq!(n.health_check_interval_secs, 60);
}

#[test]
fn config_is_admin_checks_the_list() {
    let c = base_config();
    assert!(c.is_admin(100));
    assert!(c.is_admin(200));
    assert!(!c.is_admin(300));
}

#[test]
fn config_effective_runtime_without_section_is_systemd() {
    let c = base_config();
    assert_eq!(c.effective_runtime_mode(), RuntimeMode::Systemd);
    assert_eq!(c.effective_systemd_unit(), "telemt.service");
    assert_eq!(c.effective_external_label(), None);
}

#[test]
fn config_effective_runtime_from_section() {
    let mut c = base_config();
    c.runtime = Some(RuntimeSection {
        mode: RuntimeMode::External,
        service_name: Some("  custom.service ".to_string()),
        label: Some(" docker compose ".to_string()),
    });
    assert_eq!(c.effective_runtime_mode(), RuntimeMode::External);
    assert_eq!(c.effective_systemd_unit(), "custom.service");
    assert_eq!(c.effective_external_label(), Some("docker compose".to_string()));

    c.runtime = Some(RuntimeSection {
        mode: RuntimeMode::Unmanaged,
        service_name: Some("   ".to_string()),
        label: Some("".to_string()),
    });
    assert_eq!(c.effective_runtime_mode(), RuntimeMode::Unmanaged);
    assert_eq!(c.effective_systemd_unit(), "telemt.service");
    assert_eq!(c.effective_external_label(), None);
}

#[test]
fn config_validate_refuses_bad_values() {
    let c = base_config();
    assert_eq!(c.validate(), Ok(()));
    let mut ttl = base_config();
    ttl.security.wizard_state_ttl_seconds = Some(0);
    assert_eq!(ttl.validate(), Err(ConfigError::NonPositiveWizardTtl));
    ttl.security.wizard_state_ttl_seconds = Some(600);
    assert_eq!(ttl.validate(), Ok(()));
    let mut interval = base_config();
    interval.notifications.health_check_interval_secs = 0;
    assert_eq!(interval.validate(), Err(ConfigError::ZeroHealthCheckInterval));
    interval.security.wizard_state_ttl_seconds = Some(-5);
    assert_eq!(interval.validate(), Err(ConfigError::NonPositiveWizardTtl));
}

#[test]
fn config_error_messages() {
    assert_eq!(
        ConfigError::NonPositiveWizardTtl.message(),
        "security.wizard_state_ttl_seconds должен быть положительным числом секунд"
    );
    assert_eq!(
        ConfigError::ZeroHealthCheckInterval.message(),
        "notifications.health_check_interval_secs должен быть положительным"
    );
    assert_eq!(
        ConfigError::MissingBotToken.message(),
        "Не задан bot_token (в TOML, TELEMT_ADMIN__BOT_TOKEN или TELOXIDE_TOKEN)"
    );
}

#[test]
fn config_bot_token_prefers_file_then_environment() {
    let mut c = base_config();
    assert_eq!(c.bot_token(None), Err(ConfigError::MissingBotToken));
    assert_eq!(c.bot_token(Some("env".to_string())), Ok("env".to_string()));
    c.bot_token = Some("file".to_string());
    assert_eq!(c.bot_token(Some("env".to_string())), Ok("file".to_string()));
}

#[test]
fn cli_config_path_order() {
    let none = Cli { config: None, config_path: None, command: None };
    assert_eq!(none.config_path(), "/etc/telemt-admin.toml");
    let positional = Cli { config: None, config_path: Some("/tmp/a.toml".to_string()), command: None };
    assert_eq!(positional.config_path(), "/tmp/a.toml");
    let both = Cli {
        config: Some("/tmp/b.toml".to_string()),
        config_path: Some("/tmp/a.toml".to_string()),
        command: Some(Commands::CheckUpdate),
    };
    assert_eq!(both.config_path(), "/tmp/b.toml");
}
