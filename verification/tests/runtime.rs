use telemt_admin::runtime::{
    command_result, config_reload_result, failed_events, failed_summary, parse_journal,
    parse_service_summary, reload_signal_args, spawn_failure, systemctl_args, unsupported_action,
    RuntimeMode, ServiceController, TelemtRuntime,
};

#[test]
fn runtime_mode_names() {
    assert_eq!(RuntimeMode::Systemd.as_str(), "systemd");
    assert_eq!(RuntimeMode::External.as_str(), "external");
    assert_eq!(RuntimeMode::Unmanaged.as_str(), "none");
}

#[test]
fn service_controller_keeps_its_unit() {
    let c = ServiceController::new("telemt.service".to_string());
    assert_eq!(c.service_name(), "telemt.service");
}

#[test]
fn systemd_runtime_is_fully_managed() {
    let rt = TelemtRuntime::new(RuntimeMode::Systemd, "telemt".to_string(), None);
    let caps = rt.capabilities();
    assert!(caps.shows_systemd_unit && caps.shows_journal_tail);
    assert!(caps.can_start && caps.can_stop && caps.can_restart && caps.can_reload_config);
    assert_eq!(rt.display_label(), "telemt");
    assert_eq!(rt.systemd_unit(), Some("telemt".to_string()));
    assert!(rt.unmanaged_summary().is_none());
    assert!(rt.unmanaged_events().is_none());
    assert!(rt.unmanaged_reload_result().is_none());
}

#[test]
fn external_runtime_uses_label_or_default() {
    let rt = TelemtRuntime::new(RuntimeMode::External, "x".to_string(), Some("docker".to_string()));
    assert_eq!(rt.display_label(), "docker");
    assert_eq!(rt.systemd_unit(), None);
    let caps = rt.capabilities();
    assert!(!caps.can_start && !caps.can_reload_config && !caps.shows_journal_tail);
    let summary = rt.unmanaged_summary().unwrap();
    assert!(summary.success);
    assert_eq!(summary.active_state, "external");
    assert_eq!(summary.sub_state, "docker");
    assert_eq!(summary.unit_file_state, "—");

    let blank = TelemtRuntime::new(RuntimeMode::External, "x".to_string(), Some("   ".to_string()));
    assert_eq!(blank.display_label(), "внешний supervisor");
    let none = TelemtRuntime::new(RuntimeMode::External, "x".to_string(), None);
    assert_eq!(none.display_label(), "внешний supervisor");

    let events = rt.unmanaged_events().unwrap();
    assert_eq!(
        events.lines,
        vec!["Журнал systemd недоступен: процесс telemt управляется внешне.".to_string()]
    );
}

#[test]
fn unmanaged_runtime_refuses_host_actions() {
    let rt = TelemtRuntime::new(RuntimeMode::Unmanaged, "telemt".to_string(), None);
    assert_eq!(rt.display_label(), "telemt (без host-управления)");
    let summary = rt.unmanaged_summary().unwrap();
    assert_eq!(summary.active_state, "n/a");
    assert_eq!(summary.sub_state, "none");
    let events = rt.unmanaged_events().unwrap();
    assert_eq!(events.lines, vec!["Режим runtime=none: журнал unit не используется.".to_string()]);
    let reload = rt.unmanaged_reload_result().unwrap();
    assert!(!reload.success);
    assert!(reload.stderr.starts_with("В режиме runtime external/none"));
}

#[test]
fn unsupported_action_names_the_action() {
    let r = unsupported_action("start");
    assert!(!r.success);
    assert_eq!(
        r.stderr,
        "Действие «start» недоступно в текущем режиме runtime (используйте control API и внешний supervisor)."
    );
}

#[test]
fn parse_service_summary_reads_properties() {
    let out = "ActiveState=active\nSubState=running\nUnitFileState=enabled\nMainPID=1234\nExecMainStatus=0\n";
    let s = parse_service_summary(out);
    assert!(s.success);
    assert_eq!(s.active_state, "active");
    assert_eq!(s.sub_state, "running");
    assert_eq!(s.unit_file_state, "enabled");
    assert_eq!(s.main_pid, Some(1234));
    assert_eq!(s.exec_main_status, Some(0));
    assert_eq!(s.error, None);
}

#[test]
fn parse_service_summary_defaults_and_filters() {
    let s = parse_service_summary("MainPID=0\nExecMainStatus=-1\nOther=1\n");
    assert_eq!(s.active_state, "unknown");
    assert_eq!(s.sub_state, "unknown");
    assert_eq!(s.unit_file_state, "unknown");
    assert_eq!(s.main_pid, None);
    assert_eq!(s.exec_main_status, None);

    let later_wins = parse_service_summary("ActiveState=inactive\nActiveState= failed \n");
    assert_eq!(later_wins.active_state, "failed");
}

#[test]
fn failed_summary_and_events_carry_the_error() {
    let s = failed_summary("boom".to_string());
    assert!(!s.success);
    assert_eq!(s.active_state, "unknown");
    assert_eq!(s.error, Some("boom".to_string()));
    let e = failed_events("no journal".to_string());
    assert!(!e.success);
    assert!(e.lines.is_empty());
    assert_eq!(e.error, Some("no journal".to_string()));
}

#[test]
fn parse_journal_keeps_trimmed_nonempty_lines() {
    let e = parse_journal("  first line \n\n   \nsecond\n");
    assert!(e.success);
    assert_eq!(e.lines, vec!["first line".to_string(), "second".to_string()]);
    assert_eq!(e.error, None);
}

#[test]
fn systemctl_argument_lists() {
    assert_eq!(systemctl_args("restart", "telemt"), vec!["restart".to_string(), "telemt".to_string()]);
    assert_eq!(
        reload_signal_args("telemt"),
        vec![
            "kill".to_string(),
            "-s".to_string(),
            "HUP".to_string(),
            "--kill-who=main".to_string(),
            "telemt".to_string(),
        ]
    );
}

#[test]
fn systemctl_results() {
    let ok = command_result(true, "  \n");
    assert!(ok.success);
    assert_eq!(ok.stderr, "");
    let bad = command_result(false, " Unit not found.\n");
    assert!(!bad.success);
    assert_eq!(bad.stderr, "Unit not found.");
    let spawn = spawn_failure("No such file");
    assert!(!spawn.success);
    assert_eq!(spawn.stderr, "Ошибка запуска systemctl: No such file");
    let sent = config_reload_result(true).unwrap();
    assert!(sent.success);
    assert_eq!(sent.stderr, "Конфиг перечитан (systemctl kill -s HUP --kill-who=main)");
    assert!(config_reload_result(false).is_none());
}
