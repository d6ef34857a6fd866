use std::sync::Arc;

use telemt_admin::config::{Config, NotificationsConfig, SecurityConfig, TelemtApiConfig};
use telemt_admin::runtime::{RuntimeMode, TelemtRuntime};
use telemt_admin::state::{is_admin_message, sender_display_name, BotState};
use telemt_admin::telemt::TelemtBackend;

fn bot_state() -> BotState {
    let config = Config {
        bot_token: None,
        admin_ids: vec![42],
        telemt_config_path: "/etc/telemt.toml".to_string(),
        db_path: "/tmp/state.db".to_string(),
        service_name: "telemt.service".to_string(),
        users_page_size: 10,
        security: SecurityConfig::default(),
        telemt_api: TelemtApiConfig::default(),
        notifications: NotificationsConfig::default(),
        runtime: None,
    };
    let backend = TelemtBackend::new(&config.telemt_api);
    BotState {
        config: Arc::new(config),
        telemt_backend: backend,
        telemt_runtime: TelemtRuntime::new(RuntimeMode::Systemd, "telemt.service".to_string(), None),
        bot_username: Some("telemt_admin_bot".to_string()),
    }
}

#[test]
fn sender_display_name_joins_nonblank_last_name() {
    assert_eq!(sender_display_name("Alice", None), "Alice");
    assert_eq!(sender_display_name("Alice", Some("Doe")), "Alice Doe");
    assert_eq!(sender_display_name("Alice", Some("   ")), "Alice");
    assert_eq!(sender_display_name("Alice", Some(" Doe ")), "Alice  Doe ");
}

#[test]
fn admin_messages_need_a_listed_sender() {
    let state = bot_state();
    assert!(is_admin_message(Some(42), &state));
    assert!(!is_admin_message(Some(43), &state));
    assert!(!is_admin_message(None, &state));
}
