use telemt_admin::format::render_upstreams_summary_text;
use telemt_admin::telemt::{TelemtUpstream, TelemtUpstreamDc, TelemtUpstreamsSummary};
use telemt_admin::runtime::{
    command_result, config_reload_result, reload_signal_args, spawn_failure, systemctl_args,
};

#[test]
fn upstreams_summary_text() {
    let summary = TelemtUpstreamsSummary {
        configured_total: 2,
        healthy_total: 1,
        route_kinds: "direct".to_string(),
        upstreams: vec![
            TelemtUpstream {
                dc_list: vec![
                    TelemtUpstreamDc { dc: 1, latency_text: Some("42ms".to_string()) },
                    TelemtUpstreamDc { dc: 2, latency_text: None },
                ],
                last_check_age_secs: 7,
            },
            TelemtUpstream { dc_list: vec![], last_check_age_secs: 9 },
        ],
    };
    assert_eq!(
        render_upstreams_summary_text(Some(&summary), None),
        "📡 Upstreams\n\n✅ 1/2 healthy | direct\n\n🌐 DC1: ✅ 42ms | DC2: ❌ —\n🌐 \n\n⏱ Последняя проверка: 7 сек назад"
    );
    assert_eq!(
        render_upstreams_summary_text(None, Some("off")),
        "📡 Upstreams\n\nФункция отключена или недоступна в telemt.\n\nПричина: off"
    );
    assert_eq!(
        render_upstreams_summary_text(None, None),
        "📡 Upstreams\n\nФункция отключена или недоступна в telemt."
    );
}

#[test]
fn systemctl_commands() {
    assert_eq!(systemctl_args("restart", "telemt"), vec!["restart", "telemt"]);
    assert_eq!(
        reload_signal_args("telemt"),
        vec!["kill", "-s", "HUP", "--kill-who=main", "telemt"]
    );
    let r = command_result(false, "  failed \n");
    assert!(!r.success);
    assert_eq!(r.stderr, "failed");
    let f = spawn_failure("not found");
    assert!(!f.success);
    assert_eq!(f.stderr, "Ошибка запуска systemctl: not found");
    let ok = config_reload_result(true).unwrap();
    assert!(ok.success);
    assert_eq!(ok.stderr, "Конфиг перечитан (systemctl kill -s HUP --kill-who=main)");
    assert!(config_reload_result(false).is_none());
}
