use telemt_admin::callback_data::ServiceAction;
use telemt_admin::db::{admin_activity_from_row, AdminActivity, AdminActivityKind, AdminStats};
use telemt_admin::runtime::{RuntimeCapabilities, ServiceSummary};
use telemt_admin::screens::{
    admin_activity_summary, compact_line, page_bounds, render_connections_summary_text,
    service_action_confirm_text, service_action_title, service_status_label, stats_screen_text,
};
use telemt_admin::telemt::{TelemtConnectionTopUser, TelemtConnectionsSummary, TelemtStatsSummary};

fn top(name: &str, conns: u64, octets: u64) -> TelemtConnectionTopUser {
    TelemtConnectionTopUser { username: name.to_string(), current_connections: conns, total_octets: octets }
}

fn reference_page_bounds(total_items: i64, page_size: i64, requested_page: i64) -> (i64, i64, i64) {
    let total_pages = ((total_items + page_size - 1) / page_size).max(1);
    let page = requested_page.clamp(1, total_pages);
    let offset = (page - 1) * page_size;
    (page, total_pages, offset)
}

#[test]
fn page_bounds_clamps_pages() {
    assert_eq!(page_bounds(25, 10, 1), (1, 3, 0));
    assert_eq!(page_bounds(25, 10, 9), (3, 3, 20));
    assert_eq!(page_bounds(25, 10, -4), (1, 3, 0));
    assert_eq!(page_bounds(0, 10, 5), (1, 1, 0));
    for total in -30..60 {
        for size in 1..12 {
            for req in -3..9 {
                assert_eq!(page_bounds(total, size, req), reference_page_bounds(total, size, req));
            }
        }
    }
}

#[test]
fn compact_line_shortens() {
    assert_eq!(compact_line("  short  ", 10), "short");
    assert_eq!(compact_line("abcdefghij", 8), "abcde...");
    assert_eq!(compact_line("abcdef", 2), "...");
    assert_eq!(compact_line("абвгдеёжз", 5), "аб...");
}

#[test]
fn service_labels() {
    assert_eq!(service_action_title(ServiceAction::Reload), "перечитать конфиг");
    assert_eq!(
        service_action_confirm_text(ServiceAction::Stop),
        "Подтвердить действие: остановить сервис?\n\nЭто может временно прервать доступ пользователей."
    );
    assert_eq!(service_status_label("active", "running"), "работает");
    assert_eq!(service_status_label("active", "exited"), "exited");
    assert_eq!(service_status_label("inactive", "dead"), "dead");
    assert_eq!(service_status_label("failed", "failed"), "failed");
}

#[test]
fn admin_activities() {
    let a = admin_activity_from_row(5, "request_approved", Some(3), None).unwrap();
    assert_eq!(a, AdminActivity { timestamp: 5, kind: AdminActivityKind::RequestApproved { request_id: 3 } });
    assert_eq!(admin_activity_summary(&a), "Заявка #3 одобрена");
    let t = admin_activity_from_row(6, "token_revoked", None, Some("T".to_string())).unwrap();
    assert_eq!(admin_activity_summary(&t), "Токен T отозван");
    assert_eq!(
        admin_activity_from_row(1, "token_created", None, None),
        Err("token отсутствует для token_created".to_string())
    );
    assert_eq!(
        admin_activity_from_row(1, "other", None, None),
        Err("Неизвестный тип admin activity из БД: other".to_string())
    );
}

#[test]
fn connections_summary_text() {
    let summary = TelemtConnectionsSummary {
        current_connections: 12,
        current_connections_me: 5,
        current_connections_direct: 7,
        active_users: 3,
        top_by_connections: vec![top("tg_1", 9, 2048)],
        top_by_throughput: vec![],
    };
    assert_eq!(
        render_connections_summary_text(Some(&summary), None),
        "📈 Top пользователей\n\nLive connections: 12 | ME: 5 | Direct: 7 | active users: 3\n\nТоп по соединениям:\n• tg_1 · conns 9 · traffic 2.00 KB\n\nТоп по трафику:\n• нет данных"
    );
    assert_eq!(
        render_connections_summary_text(None, Some("  timeout  ")),
        "📈 Top пользователей\n\nRuntime endpoint недоступен или выключен в telemt API.\n\nПричина: timeout"
    );
    let many: Vec<TelemtConnectionTopUser> = (0..7).map(|i| top(&format!("u{i}"), i, 0)).collect();
    let summary = TelemtConnectionsSummary { top_by_throughput: many.clone(), top_by_connections: many, ..summary };
    let text = render_connections_summary_text(Some(&summary), None);
    assert!(text.contains("• u4 · conns 4"));
    assert!(!text.contains("• u5 · conns 5"));
}

#[test]
fn stats_screen_is_exact() {
    let caps = RuntimeCapabilities {
        shows_systemd_unit: true,
        shows_journal_tail: true,
        can_start: true,
        can_stop: true,
        can_restart: true,
        can_reload_config: true,
    };
    let summary = ServiceSummary {
        success: true,
        active_state: "active".to_string(),
        sub_state: "running".to_string(),
        unit_file_state: "enabled".to_string(),
        main_pid: Some(77),
        exec_main_status: None,
        error: None,
    };
    let stats = AdminStats {
        total: 10,
        pending: 2,
        approved: 5,
        rejected: 1,
        deleted: 2,
        tokens_total: 8,
        tokens_active: 3,
        tokens_manual_active: 2,
        tokens_auto_active: 1,
        tokens_revoked: 1,
        tokens_expired: 2,
        tokens_exhausted: 2,
    };
    let ts = TelemtStatsSummary {
        uptime_text: "3600".to_string(),
        connections_total: 100,
        connections_bad_total: 4,
        handshake_timeouts_total: 1,
        configured_users: 5,
    };
    let live = TelemtConnectionsSummary {
        current_connections: 12,
        current_connections_me: 5,
        current_connections_direct: 7,
        active_users: 3,
        top_by_connections: vec![top("tg_1", 11, 10), top("tg_2", 3, 5)],
        top_by_throughput: vec![top("tg_3", 1, 2 * 1_073_741_824)],
    };
    let events = vec![AdminActivity { timestamp: 1, kind: AdminActivityKind::TokenCreated { token: "T".to_string() } }];
    let text = stats_screen_text(
        &caps,
        "telemt.service",
        &summary,
        &stats,
        Some(&ts),
        Some(&live),
        &events,
        &vec!["TIME".to_string()],
    );
    assert_eq!(
        text,
        "📊 Сводка состояния\n\nСервис: telemt.service\nСтатус: работает\nПроверка systemd: OK\nUnit: enabled | PID: 77\n\nДоступ и заявки:\n• Активные пользователи: 5\n• Заявки в ожидании: 2\n• Отклонённые заявки: 1\n• Отозванные доступы: 2\n• Всего записей: 10\n\nInvite-токены:\n• Активные: 3\n• Активные ручные / авто: 2 / 1\n• Отозванные: 1\n• Истёкшие: 2\n• Исчерпанные: 2\n• Всего создано: 8\n\nLive telemt:\n• Uptime: 3600 s | configured users: 5\n• Connections total / bad: 100 / 4\n• Handshake timeouts: 1\n• Live connections: 12 | ME: 5 | Direct: 7 | active users: 3\n• Top TCP: tg_1 (11 conn, 10 B)\n• Top traffic: tg_3 (2.00 GB)\n• Аномалии: TCP spike: tg_1 (11); traffic spike: tg_3 (2.00 GB)\n\nНедавняя активность:\n• TIME · Токен T создан"
    );
}
