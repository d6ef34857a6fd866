use telemt_admin::db::{AdminStats, SyncErrorCount, SyncHealthSummary};
use telemt_admin::panel::{service_panel_text, ServicePanelData};
use telemt_admin::runtime::{RuntimeCapabilities, ServiceEvents, ServiceSummary};
use telemt_admin::telemt::{TelemtBackendMode, TelemtRuntimeEvent, TelemtRuntimeSnapshot};

fn data() -> ServicePanelData {
    ServicePanelData {
        notice: Some("перезапуск выполнен".to_string()),
        caps: RuntimeCapabilities {
            shows_systemd_unit: false,
            shows_journal_tail: false,
            can_start: false,
            can_stop: false,
            can_restart: false,
            can_reload_config: false,
        },
        runtime_label: "docker".to_string(),
        backend_mode: TelemtBackendMode::ControlApi,
        summary: ServiceSummary {
            success: false,
            active_state: "unknown".to_string(),
            sub_state: "external".to_string(),
            unit_file_state: "—".to_string(),
            main_pid: None,
            exec_main_status: Some(3),
            error: Some("no runtime".to_string()),
        },
        service_events: ServiceEvents { success: true, lines: vec![], error: None },
        admin_events: vec![],
        stats: AdminStats {
            total: 0,
            pending: 1,
            approved: 2,
            rejected: 0,
            deleted: 0,
            tokens_total: 0,
            tokens_active: 0,
            tokens_manual_active: 0,
            tokens_auto_active: 0,
            tokens_revoked: 0,
            tokens_expired: 0,
            tokens_exhausted: 0,
        },
        active_tokens: 4,
        sync_health: SyncHealthSummary {
            degraded_users: 1,
            approved_via_control_api: 2,
            approved_via_legacy: 0,
            top_sync_errors: vec![SyncErrorCount { code: "timeout".to_string(), affected_users: 1 }],
        },
        telemt_stats: None,
        telemt_stats_error: Some("down".to_string()),
        connections_summary: None,
        connections_summary_error: None,
        runtime_snapshot: None,
        runtime_snapshot_error: Some("refused".to_string()),
    }
}

#[test]
fn service_panel_without_daemon_is_exact() {
    let text = service_panel_text(&data(), "1.2.3", &vec![], &vec![]);
    assert_eq!(
        text,
        "⚙️ Статус\n\ntelemt-admin: v1.2.3 · бот активен\n\nTelemt (docker): unknown · external\nСтатус host-runtime: ошибка\nДействие: перезапуск выполнен\nUnit/PID: не применимо (runtime external/none)\nПользователи: 2 | Заявки: 1 | Токены: 4\nSync: degraded 1 | API 2 | legacy 0\nРежим провижининга: control API\nКод процесса: 3\nОшибка статуса: no runtime\n\nДемон (control API)\nОшибка опроса runtime API: refused\n\nНагрузка telemt: ошибка опроса (down)\n\nSync ошибки:\n• timeout · 1\n\nСобытия сервиса (journal недоступен в этом runtime):\n• нет данных\n\nДействия админа:\n• пока нет событий"
    );
}

#[test]
fn service_panel_with_daemon_report() {
    let mut d = data();
    d.runtime_snapshot = Some(TelemtRuntimeSnapshot {
        source: TelemtBackendMode::ControlApi,
        health_status: "ok".to_string(),
        api_read_only: true,
        build_version: Some("3.1".to_string()),
        transport_mode: None,
        startup_status: Some("ready".to_string()),
        startup_stage: None,
        startup_progress_text: Some("100.0%".to_string()),
        api_whitelist_enabled: Some(true),
        api_whitelist_entries: None,
        api_auth_header_enabled: Some(false),
        accepting_new_connections: Some(true),
        me_runtime_ready: Some(false),
        use_middle_proxy: Some(true),
        route_mode: Some("direct".to_string()),
        me_selftest_kdf_state: None,
        me_selftest_timeskew_state: Some("ok".to_string()),
        me_selftest_enabled: Some(true),
        upstream_configured_total: Some(3),
        upstream_healthy_total: Some(2),
        upstream_unhealthy_total: Some(1),
        events: vec![TelemtRuntimeEvent {
            ts_epoch_secs: 1,
            event_type: "reload".to_string(),
            context: "config".to_string(),
        }],
        last_revision: Some("abcdef".to_string()),
    });
    d.service_events = ServiceEvents {
        success: false,
        lines: vec!["a".to_string(), "b".to_string(), "c".to_string(), "d".to_string()],
        error: None,
    };
    let text = service_panel_text(&d, "0.1.0", &vec!["T1".to_string()], &vec![]);
    let expected_daemon = "\n\nДемон (control API)\nПрофиль: control_api\nВерсия: 3.1 | Health: ok | read-only: да\nМаршрут: direct | middle proxy: да | ME runtime: нет | приём соединений: да\nUpstream: здоровых 2 из 3\n⚠️ Нездоровых upstream: 1\nME self-test: KDF `—` · время `ok`\nЗапуск: ready (100.0%)\nAPI whitelist: вкл (—)\nAPI auth header: выкл\nRevision: abcdef\n\nСобытия API:\n• T1 · reload · config\n";
    assert!(text.contains(expected_daemon), "{text}");
    assert!(text.contains("• журнал прочитан частично\n• a\n• b\n• c\n\nДействия админа:"));
    assert!(!text.contains("• d\n"));
}
