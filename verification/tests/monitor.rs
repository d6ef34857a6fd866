use telemt_admin::config::NotificationsConfig;
use telemt_admin::monitor::{
    monitor_api_failure, monitor_enabled, monitor_step, poll_interval_secs, MonitorState,
};
use telemt_admin::telemt::TelemtMonitorSnapshot;

fn notifications(health: bool, runtime: bool) -> NotificationsConfig {
    NotificationsConfig {
        enabled: true,
        health_check_interval_secs: 60,
        notify_on_health_change: health,
        notify_on_runtime_alerts: runtime,
        notify_on_new_request: true,
    }
}

fn snapshot(health: &str, accepting: bool, ready: bool, unhealthy: u64) -> TelemtMonitorSnapshot {
    TelemtMonitorSnapshot {
        health_status: health.to_string(),
        accepting_new_connections: Some(accepting),
        me_runtime_ready: Some(ready),
        upstream_unhealthy_total: Some(unhealthy),
        me_selftest_kdf_state: Some("ok".to_string()),
        me_selftest_timeskew_state: Some("ok".to_string()),
    }
}

#[test]
fn first_poll_sends_nothing_and_records_snapshot() {
    let (next, msgs) = monitor_step(
        &MonitorState::default(),
        &notifications(true, true),
        &snapshot("ok", true, true, 0),
    );
    assert!(msgs.is_empty());
    assert_eq!(next.api_available, Some(true));
    assert_eq!(next.health_status, Some("ok".to_string()));
    assert_eq!(next.accepting_new_connections, Some(true));
    assert_eq!(next.upstream_unhealthy_total, Some(0));
    assert_eq!(next.kdf_state, Some("ok".to_string()));
}

#[test]
fn same_snapshot_twice_is_quiet() {
    let n = notifications(true, true);
    let snap = snapshot("degraded", false, false, 2);
    let (state, _) = monitor_step(&MonitorState::default(), &n, &snap);
    let (_, msgs) = monitor_step(&state, &n, &snap);
    assert!(msgs.is_empty());
}

#[test]
fn changes_are_reported_in_order() {
    let n = notifications(true, true);
    let (state, _) = monitor_step(&MonitorState::default(), &n, &snapshot("ok", true, true, 0));
    let mut bad = snapshot("degraded", false, false, 3);
    bad.me_selftest_kdf_state = Some("failed".to_string());
    let (state, msgs) = monitor_step(&state, &n, &bad);
    assert_eq!(
        msgs,
        vec![
            "ℹ️ telemt health изменился\n\nБыло: ok\nСтало: degraded".to_string(),
            "🚨 telemt перестал принимать новые соединения".to_string(),
            "🚨 ME runtime больше не готов".to_string(),
            "🚨 В telemt появились unhealthy upstream\n\nКоличество: 3".to_string(),
            "🚨 ME self-test KDF сообщает о проблеме\n\nТекущее состояние: failed".to_string(),
        ]
    );
    let (_, msgs) = monitor_step(&state, &n, &snapshot("degraded", true, true, 0));
    assert_eq!(
        msgs,
        vec![
            "✅ telemt снова принимает новые соединения".to_string(),
            "✅ ME runtime снова готов".to_string(),
            "✅ Все upstream снова healthy".to_string(),
            "✅ ME self-test KDF снова в состоянии ok".to_string(),
        ]
    );
}

#[test]
fn switched_off_notifications_stay_silent() {
    let n = notifications(false, false);
    let (state, _) = monitor_step(&MonitorState::default(), &n, &snapshot("ok", true, true, 0));
    let (state, msgs) = monitor_step(&state, &n, &snapshot("bad", false, false, 5));
    assert!(msgs.is_empty());
    let (_, msgs) = monitor_api_failure(&state, &n, "timeout");
    assert!(msgs.is_empty());
}

#[test]
fn api_failure_is_reported_once_and_recovery_announced() {
    let n = notifications(true, true);
    let (state, _) = monitor_step(&MonitorState::default(), &n, &snapshot("ok", true, true, 0));
    let (state, msgs) = monitor_api_failure(&state, &n, "connection refused");
    assert_eq!(
        msgs,
        vec!["🚨 telemt control API недоступен\n\nПричина: connection refused".to_string()]
    );
    assert_eq!(state.api_available, Some(false));
    assert_eq!(state.health_status, Some("ok".to_string()));
    let (state, msgs) = monitor_api_failure(&state, &n, "connection refused");
    assert!(msgs.is_empty());
    let (_, msgs) = monitor_step(&state, &n, &snapshot("ok", true, true, 0));
    assert_eq!(msgs, vec!["✅ telemt control API снова доступен".to_string()]);
}

#[test]
fn monitor_switch_and_interval() {
    let mut n = notifications(true, true);
    assert!(monitor_enabled(&n, true));
    assert!(!monitor_enabled(&n, false));
    n.enabled = false;
    assert!(!monitor_enabled(&n, true));
    assert_eq!(poll_interval_secs(&n), 60);
    n.health_check_interval_secs = 0;
    assert_eq!(poll_interval_secs(&n), 1);
}
