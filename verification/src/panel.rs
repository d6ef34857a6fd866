//! The service panel: the bot, the telemt service, the daemon's control
//! API, the load, sync errors, the service journal and recent actions.

use vstd::prelude::*;

use crate::db::{AdminActivity, AdminStats, SyncErrorCount, SyncHealthSummary};
use crate::runtime::{RuntimeCapabilities, ServiceEvents, ServiceSummary};
use crate::screens::{
    activity_lines, compact, compact_line, ok_or, push_line, runtime_status, status_detail_lines,
    unit_pid_line,
};
use crate::telemt::{
    TelemtBackendMode, TelemtConnectionsSummary, TelemtRuntimeEvent, TelemtRuntimeSnapshot,
    TelemtStatsSummary,
};
use crate::text::{int_str, join_on, join_strings, lit, nat_digits, push_i64, push_str, push_u64, string_views};

verus! {

/// What the service panel shows.
#[derive(Debug, Clone)]
pub struct ServicePanelData {
    pub notice: Option<String>,
    pub caps: RuntimeCapabilities,
    pub runtime_label: String,
    pub backend_mode: TelemtBackendMode,
    pub summary: ServiceSummary,
    pub service_events: ServiceEvents,
    pub admin_events: Vec<AdminActivity>,
    pub stats: AdminStats,
    pub active_tokens: i64,
    pub sync_health: SyncHealthSummary,
    pub telemt_stats: Option<TelemtStatsSummary>,
    pub telemt_stats_error: Option<String>,
    pub connections_summary: Option<TelemtConnectionsSummary>,
    pub connections_summary_error: Option<String>,
    pub runtime_snapshot: Option<TelemtRuntimeSnapshot>,
    pub runtime_snapshot_error: Option<String>,
}

pub open spec fn yes_no(b: bool) -> Seq<char> {
    if b {
        "да"@
    } else {
        "нет"@
    }
}

pub open spec fn on_off(b: bool) -> Seq<char> {
    if b {
        "вкл"@
    } else {
        "выкл"@
    }
}

pub open spec fn text_or_dash(o: Option<String>) -> Seq<char> {
    match o {
        Some(t) => t@,
        None => "—"@,
    }
}

pub open spec fn one_if(c: bool, line: Seq<char>) -> Seq<Seq<char>> {
    if c {
        seq![line]
    } else {
        Seq::<Seq<char>>::empty()
    }
}

/// The bot, the service state, the counts, sync and the provisioning mode.
pub open spec fn panel_head(d: ServicePanelData, version: Seq<char>) -> Seq<Seq<char>> {
    seq![
        "⚙️ Статус"@,
        Seq::<char>::empty(),
        "telemt-admin: v"@ + version + " · бот активен"@,
        Seq::<char>::empty(),
        if d.caps.shows_systemd_unit {
            "Юнит "@ + d.runtime_label@ + ": "@ + runtime_status(d.caps, d.summary)
        } else {
            "Telemt ("@ + d.runtime_label@ + "): "@ + runtime_status(d.caps, d.summary)
        },
        (if d.caps.shows_systemd_unit {
            "Проверка systemd: "@
        } else {
            "Статус host-runtime: "@
        }) + ok_or(d.summary.success, "ошибка"@),
    ] + match d.notice {
        Some(n) => seq!["Действие: "@ + n@],
        None => Seq::<Seq<char>>::empty(),
    } + seq![
        unit_pid_line(d.caps, d.summary),
        "Пользователи: "@ + int_str(d.stats.approved as int) + " | Заявки: "@ + int_str(d.stats.pending as int)
            + " | Токены: "@ + int_str(d.active_tokens as int),
        "Sync: degraded "@ + int_str(d.sync_health.degraded_users as int) + " | API "@ + int_str(
            d.sync_health.approved_via_control_api as int,
        ) + " | legacy "@ + int_str(d.sync_health.approved_via_legacy as int),
        "Режим провижининга: "@ + match d.backend_mode {
            TelemtBackendMode::LegacyFile => "файл + systemd"@,
            TelemtBackendMode::ControlApi => "control API"@,
        },
    ] + status_detail_lines(d.summary)
}

/// The route line, when all four gates are known.
pub open spec fn route_lines(s: TelemtRuntimeSnapshot) -> Seq<Seq<char>> {
    match (s.accepting_new_connections, s.me_runtime_ready, s.use_middle_proxy, s.route_mode) {
        (Some(acc), Some(me), Some(proxy), Some(route)) => seq![
            "Маршрут: "@ + route@ + " | middle proxy: "@ + yes_no(proxy) + " | ME runtime: "@ + yes_no(me)
                + " | приём соединений: "@ + yes_no(acc),
        ],
        _ => Seq::<Seq<char>>::empty(),
    }
}

/// The upstream lines, when the three counts are known.
pub open spec fn upstream_lines(s: TelemtRuntimeSnapshot) -> Seq<Seq<char>> {
    match (s.upstream_configured_total, s.upstream_healthy_total, s.upstream_unhealthy_total) {
        (Some(cfg), Some(ok), Some(bad)) => seq![
            "Upstream: здоровых "@ + nat_digits(ok as nat) + " из "@ + nat_digits(cfg as nat),
        ] + one_if(bad > 0, "⚠️ Нездоровых upstream: "@ + nat_digits(bad as nat)),
        _ => Seq::<Seq<char>>::empty(),
    }
}

pub open spec fn selftest_lines(s: TelemtRuntimeSnapshot) -> Seq<Seq<char>> {
    match s.me_selftest_enabled {
        Some(true) => seq![
            "ME self-test: KDF `"@ + text_or_dash(s.me_selftest_kdf_state) + "` · время `"@ + text_or_dash(
                s.me_selftest_timeskew_state,
            ) + "`"@,
        ],
        Some(false) => seq!["ME self-test: данные пока недоступны (ME pool)"@],
        None => Seq::<Seq<char>>::empty(),
    }
}

/// The startup state and stage, where known.
pub open spec fn startup_lines(s: TelemtRuntimeSnapshot) -> Seq<Seq<char>> {
    (match s.startup_status {
        Some(st) => seq!["Запуск: "@ + st@ + " ("@ + text_or_dash(s.startup_progress_text) + ")"@],
        None => Seq::<Seq<char>>::empty(),
    }) + match s.startup_stage {
        Some(st) => seq!["Этап: "@ + compact(st@, 60)],
        None => Seq::<Seq<char>>::empty(),
    }
}

/// The API whitelist, the auth header and the config revision, where known.
pub open spec fn access_lines(s: TelemtRuntimeSnapshot) -> Seq<Seq<char>> {
    (match s.api_whitelist_enabled {
        Some(en) => seq![
            "API whitelist: "@ + on_off(en) + " ("@ + match s.api_whitelist_entries {
                Some(n) => nat_digits(n as nat),
                None => "—"@,
            } + ")"@,
        ],
        None => Seq::<Seq<char>>::empty(),
    }) + (match s.api_auth_header_enabled {
        Some(en) => seq!["API auth header: "@ + on_off(en)],
        None => Seq::<Seq<char>>::empty(),
    }) + match s.last_revision {
        Some(r) => seq!["Revision: "@ + compact(r@, 24)],
        None => Seq::<Seq<char>>::empty(),
    }
}

/// The daemon's profile, version, health and transport.
pub open spec fn daemon_head_lines(s: TelemtRuntimeSnapshot) -> Seq<Seq<char>> {
    seq![
        Seq::<char>::empty(),
        "Демон (control API)"@,
        "Профиль: "@ + s.source.text(),
        "Версия: "@ + text_or_dash(s.build_version) + " | Health: "@ + s.health_status@ + " | read-only: "@
            + yes_no(s.api_read_only),
    ] + match s.transport_mode {
        Some(m) => seq!["Транспорт: "@ + m@],
        None => Seq::<Seq<char>>::empty(),
    }
}

/// The first four API events (their times already rendered), or "• нет данных".
pub open spec fn api_event_lines(events: Seq<TelemtRuntimeEvent>, times: Seq<Seq<char>>) -> Seq<Seq<char>> {
    if events.len() == 0 {
        seq!["• нет данных"@]
    } else {
        Seq::new(
            if events.len() < 4 {
                events.len()
            } else {
                4
            },
            |i: int|
                "• "@ + times[i] + " · "@ + compact(events[i].event_type@, 28) + " · "@ + compact(
                    events[i].context@,
                    42,
                ),
        )
    }
}

/// The daemon section: its control API report, or why it is missing.
pub open spec fn daemon_lines(
    snapshot: Option<TelemtRuntimeSnapshot>,
    error: Option<String>,
    times: Seq<Seq<char>>,
) -> Seq<Seq<char>> {
    match snapshot {
        Some(s) => daemon_report_lines(s, times),
        None => match error {
            Some(e) => seq![
                Seq::<char>::empty(),
                "Демон (control API)"@,
                "Ошибка опроса runtime API: "@ + compact(e@, 90),
            ],
            None => Seq::<Seq<char>>::empty(),
        },
    }
}

/// The load section and the live connections line, or why they are missing.
pub open spec fn load_lines(d: ServicePanelData) -> Seq<Seq<char>> {
    (match d.telemt_stats {
        Some(t) => seq![
            Seq::<char>::empty(),
            "Нагрузка"@,
            "Uptime: "@ + t.uptime_text@ + " сек | users in config: "@ + nat_digits(t.configured_users as nat),
            "Всего соединений: "@ + nat_digits(t.connections_total as nat) + " | bad: "@ + nat_digits(
                t.connections_bad_total as nat,
            ) + " | handshake timeout: "@ + nat_digits(t.handshake_timeouts_total as nat),
        ],
        None => match d.telemt_stats_error {
            Some(e) => seq![Seq::<char>::empty(), "Нагрузка telemt: ошибка опроса ("@ + compact(e@, 90) + ")"@],
            None => Seq::<Seq<char>>::empty(),
        },
    }) + match d.connections_summary {
        Some(c) => seq![
            "Live: "@ + nat_digits(c.current_connections as nat) + " | ME: "@ + nat_digits(
                c.current_connections_me as nat,
            ) + " | Direct: "@ + nat_digits(c.current_connections_direct as nat) + " | active users: "@
                + nat_digits(c.active_users as nat),
        ],
        None => match d.connections_summary_error {
            Some(e) => seq!["Live connections: ошибка опроса ("@ + compact(e@, 90) + ")"@],
            None => Seq::<Seq<char>>::empty(),
        },
    }
}

/// The three most frequent sync errors, when there are any.
pub open spec fn sync_error_lines(errors: Seq<SyncErrorCount>) -> Seq<Seq<char>> {
    if errors.len() == 0 {
        Seq::<Seq<char>>::empty()
    } else {
        seq![Seq::<char>::empty(), "Sync ошибки:"@] + Seq::new(
            if errors.len() < 3 {
                errors.len()
            } else {
                3
            },
            |i: int| "• "@ + errors[i].code@ + " · "@ + int_str(errors[i].affected_users as int),
        )
    }
}

/// The journal section: its first three lines, or its error, or "нет данных".
pub open spec fn journal_lines(caps: RuntimeCapabilities, ev: ServiceEvents) -> Seq<Seq<char>> {
    seq![
        Seq::<char>::empty(),
        if caps.shows_journal_tail {
            "События сервиса:"@
        } else {
            "События сервиса (journal недоступен в этом runtime):"@
        },
    ] + if ev.lines@.len() == 0 {
        seq![
            match ev.error {
                Some(e) => "• "@ + compact(e@, 90),
                None => "• нет данных"@,
            },
        ]
    } else {
        one_if(!ev.success, "• журнал прочитан частично"@) + Seq::new(
            if ev.lines@.len() < 3 {
                ev.lines@.len()
            } else {
                3
            },
            |i: int| "• "@ + compact(ev.lines@[i]@, 90),
        )
    }
}

/// The whole panel, joined by line feeds.
pub open spec fn service_panel(
    d: ServicePanelData,
    version: Seq<char>,
    api_times: Seq<Seq<char>>,
    admin_times: Seq<Seq<char>>,
) -> Seq<char> {
    join_on(
        panel_head(d, version) + daemon_lines(d.runtime_snapshot, d.runtime_snapshot_error, api_times)
            + load_lines(d) + sync_error_lines(d.sync_health.top_sync_errors@) + journal_lines(
            d.caps,
            d.service_events,
        ) + seq![Seq::<char>::empty(), "Действия админа:"@] + activity_lines(d.admin_events@, admin_times),
        '\n',
    )
}

fn push_panel_head(lines: &mut Vec<String>, d: &ServicePanelData, version: &str)
    ensures
        string_views(final(lines)@) == string_views(old(lines)@) + panel_head(*d, version@),
{
    push_line(lines, lit("⚙️ Статус"));
    push_line(lines, String::new());
    let mut v = lit("telemt-admin: v");
    push_str(&mut v, version);
    push_str(&mut v, " · бот активен");
    push_line(lines, v);
    push_line(lines, String::new());
    let status = crate::screens::runtime_status_text(&d.caps, &d.summary);
    if d.caps.shows_systemd_unit {
        let mut a = lit("Юнит ");
        push_str(&mut a, d.runtime_label.as_str());
        push_str(&mut a, ": ");
        push_str(&mut a, status.as_str());
        push_line(lines, a);
    } else {
        let mut a = lit("Telemt (");
        push_str(&mut a, d.runtime_label.as_str());
        push_str(&mut a, "): ");
        push_str(&mut a, status.as_str());
        push_line(lines, a);
    }
    let mut b = lit(if d.caps.shows_systemd_unit {
        "Проверка systemd: "
    } else {
        "Статус host-runtime: "
    });
    push_str(&mut b, if d.summary.success {
        "OK"
    } else {
        "ошибка"
    });
    push_line(lines, b);
    if let Some(n) = &d.notice {
        let mut t = lit("Действие: ");
        push_str(&mut t, n.as_str());
        push_line(lines, t);
    }
    push_line(lines, crate::screens::unit_pid_text(&d.caps, &d.summary));
    let mut u = lit("Пользователи: ");
    push_i64(&mut u, d.stats.approved);
    push_str(&mut u, " | Заявки: ");
    push_i64(&mut u, d.stats.pending);
    push_str(&mut u, " | Токены: ");
    push_i64(&mut u, d.active_tokens);
    push_line(lines, u);
    let mut sy = lit("Sync: degraded ");
    push_i64(&mut sy, d.sync_health.degraded_users);
    push_str(&mut sy, " | API ");
    push_i64(&mut sy, d.sync_health.approved_via_control_api);
    push_str(&mut sy, " | legacy ");
    push_i64(&mut sy, d.sync_health.approved_via_legacy);
    push_line(lines, sy);
    let mut m = lit("Режим провижининга: ");
    push_str(&mut m, match d.backend_mode {
        TelemtBackendMode::LegacyFile => "файл + systemd",
        TelemtBackendMode::ControlApi => "control API",
    });
    push_line(lines, m);
    crate::screens::push_status_details(lines, &d.summary);
    assert(string_views(lines@) =~= string_views(old(lines)@) + panel_head(*d, version@));
}

fn push_route_and_upstream(lines: &mut Vec<String>, s: &TelemtRuntimeSnapshot)
    ensures
        string_views(final(lines)@) == string_views(old(lines)@) + route_lines(*s) + upstream_lines(*s),
{
    match (s.accepting_new_connections, s.me_runtime_ready, s.use_middle_proxy, &s.route_mode) {
        (Some(acc), Some(me), Some(proxy), Some(route)) => {
            let mut t = lit("Маршрут: ");
            push_str(&mut t, route.as_str());
            push_str(&mut t, " | middle proxy: ");
            push_str(&mut t, if proxy {
                "да"
            } else {
                "нет"
            });
            push_str(&mut t, " | ME runtime: ");
            push_str(&mut t, if me {
                "да"
            } else {
                "нет"
            });
            push_str(&mut t, " | приём соединений: ");
            push_str(&mut t, if acc {
                "да"
            } else {
                "нет"
            });
            push_line(lines, t);
        },
        _ => {},
    }
    let ghost mid = string_views(lines@);
    assert(mid =~= string_views(old(lines)@) + route_lines(*s));
    match (s.upstream_configured_total, s.upstream_healthy_total, s.upstream_unhealthy_total) {
        (Some(cfg), Some(ok), Some(bad)) => {
            let mut t = lit("Upstream: здоровых ");
            push_u64(&mut t, ok);
            push_str(&mut t, " из ");
            push_u64(&mut t, cfg);
            push_line(lines, t);
            if bad > 0 {
                let mut w = lit("⚠️ Нездоровых upstream: ");
                push_u64(&mut w, bad);
                push_line(lines, w);
            }
        },
        _ => {},
    }
    assert(string_views(lines@) =~= mid + upstream_lines(*s));
}

fn push_text_or_dash(t: &mut String, o: &Option<String>)
    ensures
        final(t)@ == old(t)@ + text_or_dash(*o),
{
    match o {
        Some(x) => push_str(t, x.as_str()),
        None => push_str(t, "—"),
    }
}

fn push_selftest(lines: &mut Vec<String>, s: &TelemtRuntimeSnapshot)
    ensures
        string_views(final(lines)@) == string_views(old(lines)@) + selftest_lines(*s),
{
    match s.me_selftest_enabled {
        Some(true) => {
            let mut t = lit("ME self-test: KDF `");
            push_text_or_dash(&mut t, &s.me_selftest_kdf_state);
            push_str(&mut t, "` · время `");
            push_text_or_dash(&mut t, &s.me_selftest_timeskew_state);
            push_str(&mut t, "`");
            push_line(lines, t);
        },
        Some(false) => push_line(lines, lit("ME self-test: данные пока недоступны (ME pool)")),
        None => {},
    }
    assert(string_views(lines@) =~= string_views(old(lines)@) + selftest_lines(*s));
}

fn push_startup(lines: &mut Vec<String>, s: &TelemtRuntimeSnapshot)
    ensures
        string_views(final(lines)@) == string_views(old(lines)@) + startup_lines(*s),
{
    if let Some(st) = &s.startup_status {
        let mut t = lit("Запуск: ");
        push_str(&mut t, st.as_str());
        push_str(&mut t, " (");
        push_text_or_dash(&mut t, &s.startup_progress_text);
        push_str(&mut t, ")");
        push_line(lines, t);
    }
    if let Some(st) = &s.startup_stage {
        let mut t = lit("Этап: ");
        let c = compact_line(st.as_str(), 60);
        push_str(&mut t, c.as_str());
        push_line(lines, t);
    }
    assert(string_views(lines@) =~= string_views(old(lines)@) + startup_lines(*s));
}

fn push_access(lines: &mut Vec<String>, s: &TelemtRuntimeSnapshot)
    ensures
        string_views(final(lines)@) == string_views(old(lines)@) + access_lines(*s),
{
    if let Some(en) = s.api_whitelist_enabled {
        let mut t = lit("API whitelist: ");
        push_str(&mut t, if en {
            "вкл"
        } else {
            "выкл"
        });
        push_str(&mut t, " (");
        match s.api_whitelist_entries {
            Some(n) => push_u64(&mut t, n as u64),
            None => push_str(&mut t, "—"),
        }
        push_str(&mut t, ")");
        push_line(lines, t);
    }
    if let Some(en) = s.api_auth_header_enabled {
        let mut t = lit("API auth header: ");
        push_str(&mut t, if en {
            "вкл"
        } else {
            "выкл"
        });
        push_line(lines, t);
    }
    if let Some(r) = &s.last_revision {
        let mut t = lit("Revision: ");
        let c = compact_line(r.as_str(), 24);
        push_str(&mut t, c.as_str());
        push_line(lines, t);
    }
    assert(string_views(lines@) =~= string_views(old(lines)@) + access_lines(*s));
}

fn push_daemon_head(lines: &mut Vec<String>, s: &TelemtRuntimeSnapshot)
    ensures
        string_views(final(lines)@) == string_views(old(lines)@) + daemon_head_lines(*s),
{
    push_line(lines, String::new());
    push_line(lines, lit("Демон (control API)"));
    let mut p = lit("Профиль: ");
    push_str(&mut p, s.source.as_str());
    push_line(lines, p);
    let mut v = lit("Версия: ");
    push_text_or_dash(&mut v, &s.build_version);
    push_str(&mut v, " | Health: ");
    push_str(&mut v, s.health_status.as_str());
    push_str(&mut v, " | read-only: ");
    push_str(&mut v, if s.api_read_only {
        "да"
    } else {
        "нет"
    });
    push_line(lines, v);
    if let Some(m) = &s.transport_mode {
        let mut t = lit("Транспорт: ");
        push_str(&mut t, m.as_str());
        push_line(lines, t);
    }
    assert(string_views(lines@) =~= string_views(old(lines)@) + daemon_head_lines(*s));
}

fn push_api_events(lines: &mut Vec<String>, events: &Vec<TelemtRuntimeEvent>, times: &Vec<String>)
    requires
        times@.len() >= events@.len() || times@.len() >= 4,
    ensures
        string_views(final(lines)@) == string_views(old(lines)@) + api_event_lines(events@, string_views(times@)),
{
    if events.len() == 0 {
        push_line(lines, lit("• нет данных"));
        assert(string_views(lines@) =~= string_views(old(lines)@) + api_event_lines(events@, string_views(times@)));
        return;
    }
    let n: usize = if events.len() < 4 {
        events.len()
    } else {
        4
    };
    let ghost want = api_event_lines(events@, string_views(times@));
    for i in 0..n
        invariant
            n <= events@.len(),
            n <= times@.len(),
            want == api_event_lines(events@, string_views(times@)),
            want.len() == n,
            string_views(lines@) == string_views(old(lines)@) + want.take(i as int),
    {
        let e = &events[i];
        let mut t = lit("• ");
        push_str(&mut t, times[i].as_str());
        push_str(&mut t, " · ");
        let a = compact_line(e.event_type.as_str(), 28);
        push_str(&mut t, a.as_str());
        push_str(&mut t, " · ");
        let b = compact_line(e.context.as_str(), 42);
        push_str(&mut t, b.as_str());
        assert(string_views(times@)[i as int] == times@[i as int]@);
        assert(t@ == want[i as int]);
        push_line(lines, t);
        assert(want.take(i + 1) =~= want.take(i as int).push(want[i as int]));
    }
    assert(want.take(n as int) =~= want);
}

pub open spec fn daemon_report_lines(s: TelemtRuntimeSnapshot, times: Seq<Seq<char>>) -> Seq<Seq<char>> {
    daemon_head_lines(s) + route_lines(s) + upstream_lines(s) + selftest_lines(s) + startup_lines(s)
        + access_lines(s) + seq![Seq::<char>::empty(), "События API:"@] + api_event_lines(s.events@, times)
}

#[verifier::rlimit(30)]
fn push_daemon_report(lines: &mut Vec<String>, s: &TelemtRuntimeSnapshot, times: &Vec<String>)
    requires
        times@.len() >= s.events@.len() || times@.len() >= 4,
    ensures
        string_views(final(lines)@) == string_views(old(lines)@) + daemon_report_lines(*s, string_views(times@)),
{
    let ghost l0 = string_views(lines@);
    push_daemon_head(lines, s);
    push_route_and_upstream(lines, s);
    push_selftest(lines, s);
    push_startup(lines, s);
    push_access(lines, s);
    let ghost l5 = string_views(lines@);
    push_line(lines, String::new());
    push_line(lines, lit("События API:"));
    let ghost l6 = string_views(lines@);
    assert(l6 =~= l5 + seq![Seq::<char>::empty(), "События API:"@]);
    push_api_events(lines, &s.events, times);
    assert(string_views(lines@) =~= l0 + daemon_report_lines(*s, string_views(times@)));
}

fn push_daemon(
    lines: &mut Vec<String>,
    snapshot: &Option<TelemtRuntimeSnapshot>,
    error: &Option<String>,
    times: &Vec<String>,
)
    requires
        snapshot matches Some(s) ==> (times@.len() >= s.events@.len() || times@.len() >= 4),
    ensures
        string_views(final(lines)@) == string_views(old(lines)@) + daemon_lines(*snapshot, *error, string_views(times@)),
{
    match snapshot {
        Some(s) => {
            push_daemon_report(lines, s, times);
        },
        None => {
            if let Some(e) = error {
                push_line(lines, String::new());
                push_line(lines, lit("Демон (control API)"));
                let mut t = lit("Ошибка опроса runtime API: ");
                let c = compact_line(e.as_str(), 90);
                push_str(&mut t, c.as_str());
                push_line(lines, t);
            }
        },
    }
    assert(string_views(lines@) =~= string_views(old(lines)@) + daemon_lines(*snapshot, *error, string_views(times@)));
}

fn push_load(lines: &mut Vec<String>, d: &ServicePanelData)
    ensures
        string_views(final(lines)@) == string_views(old(lines)@) + load_lines(*d),
{
    match &d.telemt_stats {
        Some(t) => {
            push_line(lines, String::new());
            push_line(lines, lit("Нагрузка"));
            let mut a = lit("Uptime: ");
            push_str(&mut a, t.uptime_text.as_str());
            push_str(&mut a, " сек | users in config: ");
            push_u64(&mut a, t.configured_users as u64);
            push_line(lines, a);
            let mut b = lit("Всего соединений: ");
            push_u64(&mut b, t.connections_total);
            push_str(&mut b, " | bad: ");
            push_u64(&mut b, t.connections_bad_total);
            push_str(&mut b, " | handshake timeout: ");
            push_u64(&mut b, t.handshake_timeouts_total);
            push_line(lines, b);
        },
        None => {
            if let Some(e) = &d.telemt_stats_error {
                push_line(lines, String::new());
                let mut t = lit("Нагрузка telemt: ошибка опроса (");
                let c = compact_line(e.as_str(), 90);
                push_str(&mut t, c.as_str());
                push_str(&mut t, ")");
                push_line(lines, t);
            }
        },
    }
    match &d.connections_summary {
        Some(c) => {
            let mut t = lit("Live: ");
            push_u64(&mut t, c.current_connections);
            push_str(&mut t, " | ME: ");
            push_u64(&mut t, c.current_connections_me);
            push_str(&mut t, " | Direct: ");
            push_u64(&mut t, c.current_connections_direct);
            push_str(&mut t, " | active users: ");
            push_u64(&mut t, c.active_users as u64);
            push_line(lines, t);
        },
        None => {
            if let Some(e) = &d.connections_summary_error {
                let mut t = lit("Live connections: ошибка опроса (");
                let c = compact_line(e.as_str(), 90);
                push_str(&mut t, c.as_str());
                push_str(&mut t, ")");
                push_line(lines, t);
            }
        },
    }
    assert(string_views(lines@) =~= string_views(old(lines)@) + load_lines(*d));
}

fn push_sync_errors(lines: &mut Vec<String>, errors: &Vec<SyncErrorCount>)
    ensures
        string_views(final(lines)@) == string_views(old(lines)@) + sync_error_lines(errors@),
{
    if errors.len() == 0 {
        assert(string_views(lines@) =~= string_views(old(lines)@) + sync_error_lines(errors@));
        return;
    }
    push_line(lines, String::new());
    push_line(lines, lit("Sync ошибки:"));
    let n: usize = if errors.len() < 3 {
        errors.len()
    } else {
        3
    };
    let ghost base = string_views(lines@);
    let ghost want = Seq::new(n as nat, |i: int| "• "@ + errors@[i].code@ + " · "@ + int_str(errors@[i].affected_users as int));
    for i in 0..n
        invariant
            n <= errors@.len(),
            want.len() == n,
            want == Seq::new(n as nat, |i: int| "• "@ + errors@[i].code@ + " · "@ + int_str(errors@[i].affected_users as int)),
            string_views(lines@) == base + want.take(i as int),
    {
        let mut t = lit("• ");
        push_str(&mut t, errors[i].code.as_str());
        push_str(&mut t, " · ");
        push_i64(&mut t, errors[i].affected_users);
        assert(t@ == want[i as int]);
        push_line(lines, t);
        assert(want.take(i + 1) =~= want.take(i as int).push(want[i as int]));
    }
    assert(want.take(n as int) =~= want);
    assert(string_views(lines@) =~= string_views(old(lines)@) + sync_error_lines(errors@));
}

fn push_journal(lines: &mut Vec<String>, caps: &RuntimeCapabilities, ev: &ServiceEvents)
    ensures
        string_views(final(lines)@) == string_views(old(lines)@) + journal_lines(*caps, *ev),
{
    push_line(lines, String::new());
    push_line(lines, lit(if caps.shows_journal_tail {
        "События сервиса:"
    } else {
        "События сервиса (journal недоступен в этом runtime):"
    }));
    let ghost base = string_views(lines@);
    if ev.lines.len() == 0 {
        match &ev.error {
            Some(e) => {
                let mut t = lit("• ");
                let c = compact_line(e.as_str(), 90);
                push_str(&mut t, c.as_str());
                push_line(lines, t);
            },
            None => push_line(lines, lit("• нет данных")),
        }
    } else {
        if !ev.success {
            push_line(lines, lit("• журнал прочитан частично"));
        }
        let ghost mid = string_views(lines@);
        let n: usize = if ev.lines.len() < 3 {
            ev.lines.len()
        } else {
            3
        };
        let ghost want = Seq::new(n as nat, |i: int| "• "@ + compact(ev.lines@[i]@, 90));
        for i in 0..n
            invariant
                n <= ev.lines@.len(),
                want.len() == n,
                want == Seq::new(n as nat, |i: int| "• "@ + compact(ev.lines@[i]@, 90)),
                string_views(lines@) == mid + want.take(i as int),
        {
            let mut t = lit("• ");
            let c = compact_line(ev.lines[i].as_str(), 90);
            push_str(&mut t, c.as_str());
            assert(t@ == want[i as int]);
            push_line(lines, t);
            assert(want.take(i + 1) =~= want.take(i as int).push(want[i as int]));
        }
        assert(want.take(n as int) =~= want);
    }
    assert(string_views(lines@) =~= string_views(old(lines)@) + journal_lines(*caps, *ev));
}

/// The service panel; `api_event_times` and `admin_event_times` hold the
/// rendered times of the shown events, `version` the bot's version.
pub fn service_panel_text(
    d: &ServicePanelData,
    version: &str,
    api_event_times: &Vec<String>,
    admin_event_times: &Vec<String>,
) -> (r: String)
    requires
        d.runtime_snapshot matches Some(s) ==> (api_event_times@.len() >= s.events@.len()
            || api_event_times@.len() >= 4),
        admin_event_times@.len() >= d.admin_events@.len() || admin_event_times@.len() >= 4,
    ensures
        r@ == service_panel(*d, version@, string_views(api_event_times@), string_views(admin_event_times@)),
{
    let mut lines: Vec<String> = Vec::new();
    push_panel_head(&mut lines, d, version);
    push_daemon(&mut lines, &d.runtime_snapshot, &d.runtime_snapshot_error, api_event_times);
    push_load(&mut lines, d);
    push_sync_errors(&mut lines, &d.sync_health.top_sync_errors);
    push_journal(&mut lines, &d.caps, &d.service_events);
    push_line(&mut lines, String::new());
    push_line(&mut lines, lit("Действия админа:"));
    crate::screens::push_activity_lines(&mut lines, &d.admin_events, admin_event_times);
    assert(string_views(lines@) =~= panel_head(*d, version@) + daemon_lines(
        d.runtime_snapshot,
        d.runtime_snapshot_error,
        string_views(api_event_times@),
    ) + load_lines(*d) + sync_error_lines(d.sync_health.top_sync_errors@) + journal_lines(d.caps, d.service_events)
        + seq![Seq::<char>::empty(), "Действия админа:"@] + activity_lines(d.admin_events@, string_views(admin_event_times@)));
    join_strings(&lines, '\n')
}

} // verus!
