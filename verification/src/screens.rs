//! The administrator's screens: paging, short lines, service status labels,
//! the top of users and the summaries of the service.

use vstd::prelude::*;

use crate::callback_data::ServiceAction;
use crate::db::{AdminActivity, AdminActivityKind, AdminStats, RegistrationRequest, RequestStatus, UserGroup};
use crate::runtime::{RuntimeCapabilities, ServiceSummary};
use crate::format::{bytes_human, format_bytes_human};
use crate::telemt::{TelemtConnectionTopUser, TelemtConnectionsSummary, TelemtStatsSummary};
use crate::text::{
    int_str, join_on, join_strings, lit, nat_digits, push_i64, push_str, push_u64, str_chars,
    string_from_chars, string_views, trim, trim_chars,
};

verus! {

// ---------------------------------------------------------------------
// Paging
// ---------------------------------------------------------------------

/// The number of pages for `total` items: at least one; Rust's division
/// rounds toward zero, so a count of zero or less has one page.
pub open spec fn total_pages(total: int, size: int) -> int {
    let n = total + size - 1;
    if n <= 0 {
        1
    } else if n / size < 1 {
        1
    } else {
        n / size
    }
}

/// The page shown for a requested page: clamped to `1..=total_pages`, with the
/// offset of its first item.
pub open spec fn page_bounds_spec(total: int, size: int, requested: int) -> (int, int, int) {
    let tp = total_pages(total, size);
    let page = if requested < 1 {
        1
    } else if requested > tp {
        tp
    } else {
        requested
    };
    (page, tp, (page - 1) * size)
}

pub fn page_bounds(total_items: i64, page_size: i64, requested_page: i64) -> (r: (i64, i64, i64))
    requires
        page_size >= 1,
        total_items + page_size - 1 <= i64::MAX,
    ensures
        (r.0 as int, r.1 as int, r.2 as int) == page_bounds_spec(
            total_items as int,
            page_size as int,
            requested_page as int,
        ),
{
    let n: i64 = total_items + (page_size - 1);
    let tp: i64 = if n <= 0 {
        1
    } else if n / page_size < 1 {
        1
    } else {
        n / page_size
    };
    let page: i64 = if requested_page < 1 {
        1
    } else if requested_page > tp {
        tp
    } else {
        requested_page
    };
    proof {
        if n > 0 {
            assert((page - 1) * page_size <= n) by (nonlinear_arith)
                requires
                    1 <= page <= tp,
                    tp == 1 || tp == n / page_size,
                    n > 0,
                    page_size >= 1,
            {
                if tp != 1 {
                    assert(tp * page_size <= n);
                }
            }
        } else {
            assert(page == 1);
        }
    }
    (page, tp, (page - 1) * page_size)
}

// ---------------------------------------------------------------------
// Short lines and labels
// ---------------------------------------------------------------------

/// A value trimmed; longer than `limit` characters, its first `limit - 3`
/// (none below 3) followed by "...".
pub open spec fn compact(value: Seq<char>, limit: nat) -> Seq<char> {
    let t = trim(value);
    if t.len() <= limit {
        t
    } else {
        t.take(if limit >= 3 {
            limit - 3
        } else {
            0
        }) + "..."@
    }
}

pub fn compact_line(value: &str, limit: usize) -> (r: String)
    ensures
        r@ == compact(value@, limit as nat),
{
    let v = str_chars(value);
    let t = trim_chars(v.as_slice());
    if t.len() <= limit {
        string_from_chars(t.as_slice())
    } else {
        let keep: usize = if limit >= 3 {
            limit - 3
        } else {
            0
        };
        let mut head: Vec<char> = Vec::new();
        for k in 0..keep
            invariant
                keep <= t@.len(),
                head@ == t@.take(k as int),
        {
            head.push(t[k]);
            assert(t@.take(k + 1) =~= t@.take(k as int).push(t@[k as int]));
        }
        let mut s = string_from_chars(head.as_slice());
        push_str(&mut s, "...");
        s
    }
}

pub open spec fn service_action_title_text(action: ServiceAction) -> Seq<char> {
    match action {
        ServiceAction::Start => "запустить сервис"@,
        ServiceAction::Stop => "остановить сервис"@,
        ServiceAction::Restart => "перезапустить сервис"@,
        ServiceAction::Reload => "перечитать конфиг"@,
        ServiceAction::Status => "обновить статус"@,
    }
}

/// What a service action does, as asked in its confirmation.
pub fn service_action_title(action: ServiceAction) -> (r: &'static str)
    ensures
        r@ == service_action_title_text(action),
{
    match action {
        ServiceAction::Start => "запустить сервис",
        ServiceAction::Stop => "остановить сервис",
        ServiceAction::Restart => "перезапустить сервис",
        ServiceAction::Reload => "перечитать конфиг",
        ServiceAction::Status => "обновить статус",
    }
}

/// The confirmation asked before a service action.
pub fn service_action_confirm_text(action: ServiceAction) -> (r: String)
    ensures
        r@ == "Подтвердить действие: "@ + service_action_title_text(action)
            + "?\n\nЭто может временно прервать доступ пользователей."@,
{
    let mut s = lit("Подтвердить действие: ");
    push_str(&mut s, service_action_title(action));
    push_str(&mut s, "?\n\nЭто может временно прервать доступ пользователей.");
    s
}

/// The state of a systemd unit in words: "работает" when active and running,
/// else the sub-state of an active or inactive unit, else the active state.
pub open spec fn status_label(active: Seq<char>, sub: Seq<char>) -> Seq<char> {
    if active == "active"@ && sub == "running"@ {
        "работает"@
    } else if active == "active"@ || active == "inactive"@ {
        sub
    } else {
        active
    }
}

pub fn service_status_label(active_state: &str, sub_state: &str) -> (r: String)
    ensures
        r@ == status_label(active_state@, sub_state@),
{
    let a = str_chars(active_state);
    let b = str_chars(sub_state);
    let active = crate::text::chars_eq_str(a.as_slice(), "active");
    if active && crate::text::chars_eq_str(b.as_slice(), "running") {
        lit("работает")
    } else if active || crate::text::chars_eq_str(a.as_slice(), "inactive") {
        lit(sub_state)
    } else {
        lit(active_state)
    }
}

pub open spec fn activity_summary(a: AdminActivity) -> Seq<char> {
    match a.kind {
        AdminActivityKind::RequestApproved { request_id } => "Заявка #"@ + int_str(request_id as int) + " одобрена"@,
        AdminActivityKind::RequestRejected { request_id } => "Заявка #"@ + int_str(request_id as int) + " отклонена"@,
        AdminActivityKind::TokenCreated { token } => "Токен "@ + token@ + " создан"@,
        AdminActivityKind::TokenRevoked { token } => "Токен "@ + token@ + " отозван"@,
    }
}

/// An administrator's action in words.
pub fn admin_activity_summary(activity: &AdminActivity) -> (r: String)
    ensures
        r@ == activity_summary(*activity),
{
    match &activity.kind {
        AdminActivityKind::RequestApproved { request_id } => {
            let mut s = lit("Заявка #");
            push_i64(&mut s, *request_id);
            push_str(&mut s, " одобрена");
            s
        },
        AdminActivityKind::RequestRejected { request_id } => {
            let mut s = lit("Заявка #");
            push_i64(&mut s, *request_id);
            push_str(&mut s, " отклонена");
            s
        },
        AdminActivityKind::TokenCreated { token } => {
            let mut s = lit("Токен ");
            push_str(&mut s, token.as_str());
            push_str(&mut s, " создан");
            s
        },
        AdminActivityKind::TokenRevoked { token } => {
            let mut s = lit("Токен ");
            push_str(&mut s, token.as_str());
            push_str(&mut s, " отозван");
            s
        },
    }
}

// ---------------------------------------------------------------------
// Top of users
// ---------------------------------------------------------------------

pub open spec fn by_connections_line(u: TelemtConnectionTopUser) -> Seq<char> {
    "• "@ + u.username@ + " · conns "@ + nat_digits(u.current_connections as nat) + " · traffic "@
        + bytes_human(u.total_octets as nat)
}

pub open spec fn by_traffic_line(u: TelemtConnectionTopUser) -> Seq<char> {
    "• "@ + u.username@ + " · traffic "@ + bytes_human(u.total_octets as nat) + " · conns "@
        + nat_digits(u.current_connections as nat)
}

/// One line per user among the first five, or "• нет данных" for none.
pub open spec fn top_lines(users: Seq<TelemtConnectionTopUser>, by_traffic: bool) -> Seq<Seq<char>> {
    if users.len() == 0 {
        seq!["• нет данных"@]
    } else {
        users.take(if users.len() < 5 {
            users.len() as int
        } else {
            5
        }).map_values(
            |u: TelemtConnectionTopUser|
                if by_traffic {
                    by_traffic_line(u)
                } else {
                    by_connections_line(u)
                },
        )
    }
}

pub open spec fn live_line(s: TelemtConnectionsSummary) -> Seq<char> {
    "Live connections: "@ + nat_digits(s.current_connections as nat) + " | ME: "@ + nat_digits(
        s.current_connections_me as nat,
    ) + " | Direct: "@ + nat_digits(s.current_connections_direct as nat) + " | active users: "@
        + nat_digits(s.active_users as nat)
}

/// The top of users screen: live counts and the first five users by
/// connections and by traffic; without a summary, why it is missing.
pub open spec fn connections_summary_text(
    summary: Option<TelemtConnectionsSummary>,
    error: Option<Seq<char>>,
) -> Seq<char> {
    match summary {
        Some(s) => join_on(
            seq!["📈 Top пользователей"@, Seq::<char>::empty(), live_line(s), Seq::<char>::empty(), "Топ по соединениям:"@]
                + top_lines(s.top_by_connections@, false) + seq![Seq::<char>::empty(), "Топ по трафику:"@]
                + top_lines(s.top_by_throughput@, true),
            '\n',
        ),
        None => "📈 Top пользователей\n\nRuntime endpoint недоступен или выключен в telemt API."@
            + match error {
            Some(e) => "\n\nПричина: "@ + compact(e, 90),
            None => Seq::<char>::empty(),
        },
    }
}

fn top_line(u: &TelemtConnectionTopUser, by_traffic: bool) -> (r: String)
    ensures
        r@ == (if by_traffic {
            by_traffic_line(*u)
        } else {
            by_connections_line(*u)
        }),
{
    let mut s = lit("• ");
    push_str(&mut s, u.username.as_str());
    if by_traffic {
        push_str(&mut s, " · traffic ");
        let b = format_bytes_human(u.total_octets);
        push_str(&mut s, b.as_str());
        push_str(&mut s, " · conns ");
        push_u64(&mut s, u.current_connections);
    } else {
        push_str(&mut s, " · conns ");
        push_u64(&mut s, u.current_connections);
        push_str(&mut s, " · traffic ");
        let b = format_bytes_human(u.total_octets);
        push_str(&mut s, b.as_str());
    }
    s
}

fn push_top_lines(lines: &mut Vec<String>, users: &Vec<TelemtConnectionTopUser>, by_traffic: bool)
    ensures
        string_views(final(lines)@) == string_views(old(lines)@) + top_lines(users@, by_traffic),
{
    if users.len() == 0 {
        lines.push(lit("• нет данных"));
        assert(string_views(lines@) =~= string_views(old(lines)@) + top_lines(users@, by_traffic));
        return;
    }
    let n: usize = if users.len() < 5 {
        users.len()
    } else {
        5
    };
    let ghost shown = users@.take(n as int).map_values(
        |u: TelemtConnectionTopUser|
            if by_traffic {
                by_traffic_line(u)
            } else {
                by_connections_line(u)
            },
    );
    assert(shown == top_lines(users@, by_traffic));
    for i in 0..n
        invariant
            n <= users@.len(),
            shown.len() == n,
            forall|j: int| 0 <= j < n ==> #[trigger] shown[j] == (if by_traffic {
                by_traffic_line(users@[j])
            } else {
                by_connections_line(users@[j])
            }),
            string_views(lines@) == string_views(old(lines)@) + shown.take(i as int),
    {
        let line = top_line(&users[i], by_traffic);
        let ghost before = string_views(lines@);
        lines.push(line);
        assert(string_views(lines@) =~= before.push(shown[i as int]));
        assert(shown.take(i + 1) =~= shown.take(i as int).push(shown[i as int]));
    }
    assert(shown.take(n as int) =~= shown);
}

pub(crate) fn push_line(lines: &mut Vec<String>, line: String)
    ensures
        string_views(final(lines)@) == string_views(old(lines)@).push(line@),
{
    lines.push(line);
    assert(string_views(lines@) =~= string_views(old(lines)@).push(line@));
}

pub fn render_connections_summary_text(
    summary: Option<&TelemtConnectionsSummary>,
    error: Option<&str>,
) -> (r: String)
    ensures
        r@ == connections_summary_text(
            match summary {
                Some(s) => Some(*s),
                None => None,
            },
            crate::commands::str_opt_view(error),
        ),
{
    match summary {
        Some(s) => {
            let mut lines: Vec<String> = Vec::new();
            push_line(&mut lines, lit("📈 Top пользователей"));
            push_line(&mut lines, String::new());
            let mut live = lit("Live connections: ");
            push_u64(&mut live, s.current_connections);
            push_str(&mut live, " | ME: ");
            push_u64(&mut live, s.current_connections_me);
            push_str(&mut live, " | Direct: ");
            push_u64(&mut live, s.current_connections_direct);
            push_str(&mut live, " | active users: ");
            push_u64(&mut live, s.active_users as u64);
            push_line(&mut lines, live);
            push_line(&mut lines, String::new());
            push_line(&mut lines, lit("Топ по соединениям:"));
            let ghost head = string_views(lines@);
            push_top_lines(&mut lines, &s.top_by_connections, false);
            push_line(&mut lines, String::new());
            push_line(&mut lines, lit("Топ по трафику:"));
            push_top_lines(&mut lines, &s.top_by_throughput, true);
            assert(string_views(lines@) =~= seq![
                "📈 Top пользователей"@,
                Seq::<char>::empty(),
                live_line(*s),
                Seq::<char>::empty(),
                "Топ по соединениям:"@,
            ] + top_lines(s.top_by_connections@, false) + seq![Seq::<char>::empty(), "Топ по трафику:"@]
                + top_lines(s.top_by_throughput@, true));
            join_strings(&lines, '\n')
        },
        None => {
            let mut text = lit("📈 Top пользователей\n\nRuntime endpoint недоступен или выключен в telemt API.");
            if let Some(e) = error {
                push_str(&mut text, "\n\nПричина: ");
                let c = compact_line(e, 90);
                push_str(&mut text, c.as_str());
            }
            text
        },
    }
}

// ---------------------------------------------------------------------
// The status summary
// ---------------------------------------------------------------------

pub open spec fn ok_or(success: bool, failure: Seq<char>) -> Seq<char> {
    if success {
        "OK"@
    } else {
        failure
    }
}

/// The service state as shown: a worded systemd state, or "active · sub".
pub open spec fn runtime_status(caps: RuntimeCapabilities, s: ServiceSummary) -> Seq<char> {
    if caps.shows_systemd_unit {
        status_label(s.active_state@, s.sub_state@)
    } else {
        s.active_state@ + " · "@ + s.sub_state@
    }
}

pub open spec fn unit_pid_line(caps: RuntimeCapabilities, s: ServiceSummary) -> Seq<char> {
    if caps.shows_systemd_unit {
        "Unit: "@ + s.unit_file_state@ + " | PID: "@ + match s.main_pid {
            Some(p) => int_str(p as int),
            None => "—"@,
        }
    } else {
        "Unit/PID: не применимо (runtime external/none)"@
    }
}

/// The exit code and the error of the last status query, where there are any.
pub open spec fn status_detail_lines(s: ServiceSummary) -> Seq<Seq<char>> {
    (match s.exec_main_status {
        Some(c) => seq!["Код процесса: "@ + int_str(c as int)],
        None => Seq::<Seq<char>>::empty(),
    }) + match s.error {
        Some(e) => seq!["Ошибка статуса: "@ + compact(e@, 90)],
        None => Seq::<Seq<char>>::empty(),
    }
}

pub(crate) fn runtime_status_text(caps: &RuntimeCapabilities, summary: &ServiceSummary) -> (r: String)
    ensures
        r@ == runtime_status(*caps, *summary),
{
    if caps.shows_systemd_unit {
        service_status_label(summary.active_state.as_str(), summary.sub_state.as_str())
    } else {
        let mut t = summary.active_state.clone();
        push_str(&mut t, " · ");
        push_str(&mut t, summary.sub_state.as_str());
        t
    }
}

pub(crate) fn unit_pid_text(caps: &RuntimeCapabilities, summary: &ServiceSummary) -> (r: String)
    ensures
        r@ == unit_pid_line(*caps, *summary),
{
    if caps.shows_systemd_unit {
        let mut t = lit("Unit: ");
        push_str(&mut t, summary.unit_file_state.as_str());
        push_str(&mut t, " | PID: ");
        match summary.main_pid {
            Some(p) => push_i64(&mut t, p),
            None => push_str(&mut t, "—"),
        }
        t
    } else {
        lit("Unit/PID: не применимо (runtime external/none)")
    }
}

pub(crate) fn push_status_details(lines: &mut Vec<String>, summary: &ServiceSummary)
    ensures
        string_views(final(lines)@) == string_views(old(lines)@) + status_detail_lines(*summary),
{
    if let Some(c) = summary.exec_main_status {
        let mut t = lit("Код процесса: ");
        push_i64(&mut t, c);
        push_line(lines, t);
    }
    if let Some(e) = &summary.error {
        let mut t = lit("Ошибка статуса: ");
        let c = compact_line(e.as_str(), 90);
        push_str(&mut t, c.as_str());
        push_line(lines, t);
    }
    assert(string_views(lines@) =~= string_views(old(lines)@) + status_detail_lines(*summary));
}

pub open spec fn stats_head_lines(caps: RuntimeCapabilities, label: Seq<char>, s: ServiceSummary) -> Seq<Seq<char>> {
    seq![
        "📊 Сводка состояния"@,
        Seq::<char>::empty(),
        "Сервис: "@ + label,
        "Статус: "@ + runtime_status(caps, s),
        (if caps.shows_systemd_unit {
            "Проверка systemd"@
        } else {
            "Host-runtime"@
        }) + ": "@ + ok_or(s.success, "Ошибка"@),
        unit_pid_line(caps, s),
    ] + status_detail_lines(s)
}

pub open spec fn stats_count_lines(st: AdminStats) -> Seq<Seq<char>> {
    seq![
        Seq::<char>::empty(),
        "Доступ и заявки:"@,
        "• Активные пользователи: "@ + int_str(st.approved as int),
        "• Заявки в ожидании: "@ + int_str(st.pending as int),
        "• Отклонённые заявки: "@ + int_str(st.rejected as int),
        "• Отозванные доступы: "@ + int_str(st.deleted as int),
        "• Всего записей: "@ + int_str(st.total as int),
        Seq::<char>::empty(),
        "Invite-токены:"@,
        "• Активные: "@ + int_str(st.tokens_active as int),
        "• Активные ручные / авто: "@ + int_str(st.tokens_manual_active as int) + " / "@ + int_str(
            st.tokens_auto_active as int,
        ),
        "• Отозванные: "@ + int_str(st.tokens_revoked as int),
        "• Истёкшие: "@ + int_str(st.tokens_expired as int),
        "• Исчерпанные: "@ + int_str(st.tokens_exhausted as int),
        "• Всего создано: "@ + int_str(st.tokens_total as int),
    ]
}

fn labelled_i64(label: &str, v: i64) -> (r: String)
    ensures
        r@ == label@ + int_str(v as int),
{
    let mut t = lit(label);
    push_i64(&mut t, v);
    t
}

fn push_stats_counts(lines: &mut Vec<String>, st: &AdminStats)
    ensures
        string_views(final(lines)@) == string_views(old(lines)@) + stats_count_lines(*st),
{
    push_line(lines, String::new());
    push_line(lines, lit("Доступ и заявки:"));
    push_line(lines, labelled_i64("• Активные пользователи: ", st.approved));
    push_line(lines, labelled_i64("• Заявки в ожидании: ", st.pending));
    push_line(lines, labelled_i64("• Отклонённые заявки: ", st.rejected));
    push_line(lines, labelled_i64("• Отозванные доступы: ", st.deleted));
    push_line(lines, labelled_i64("• Всего записей: ", st.total));
    push_line(lines, String::new());
    push_line(lines, lit("Invite-токены:"));
    push_line(lines, labelled_i64("• Активные: ", st.tokens_active));
    let mut t = labelled_i64("• Активные ручные / авто: ", st.tokens_manual_active);
    push_str(&mut t, " / ");
    push_i64(&mut t, st.tokens_auto_active);
    push_line(lines, t);
    push_line(lines, labelled_i64("• Отозванные: ", st.tokens_revoked));
    push_line(lines, labelled_i64("• Истёкшие: ", st.tokens_expired));
    push_line(lines, labelled_i64("• Исчерпанные: ", st.tokens_exhausted));
    push_line(lines, labelled_i64("• Всего создано: ", st.tokens_total));
    assert(string_views(lines@) =~= string_views(old(lines)@) + stats_count_lines(*st));
}

pub open spec fn live_stats_lines(ts: Option<TelemtStatsSummary>) -> Seq<Seq<char>> {
    match ts {
        Some(t) => seq![
            "• Uptime: "@ + t.uptime_text@ + " s | configured users: "@ + nat_digits(t.configured_users as nat),
            "• Connections total / bad: "@ + nat_digits(t.connections_total as nat) + " / "@ + nat_digits(
                t.connections_bad_total as nat,
            ),
            "• Handshake timeouts: "@ + nat_digits(t.handshake_timeouts_total as nat),
        ],
        None => seq!["• stats summary: нет данных"@],
    }
}

fn push_live_stats(lines: &mut Vec<String>, ts: Option<&TelemtStatsSummary>)
    ensures
        string_views(final(lines)@) == string_views(old(lines)@) + live_stats_lines(
            match ts {
                Some(t) => Some(*t),
                None => None,
            },
        ),
{
    match ts {
        Some(t) => {
            let mut a = lit("• Uptime: ");
            push_str(&mut a, t.uptime_text.as_str());
            push_str(&mut a, " s | configured users: ");
            push_u64(&mut a, t.configured_users as u64);
            push_line(lines, a);
            let mut b = lit("• Connections total / bad: ");
            push_u64(&mut b, t.connections_total);
            push_str(&mut b, " / ");
            push_u64(&mut b, t.connections_bad_total);
            push_line(lines, b);
            let mut c = lit("• Handshake timeouts: ");
            push_u64(&mut c, t.handshake_timeouts_total);
            push_line(lines, c);
        },
        None => push_line(lines, lit("• stats summary: нет данных")),
    }
    assert(string_views(lines@) =~= string_views(old(lines)@) + live_stats_lines(
        match ts {
            Some(t) => Some(*t),
            None => None,
        },
    ));
}

/// "TCP spike" for each of the top users by connections with 10 or more.
pub open spec fn tcp_alerts(users: Seq<TelemtConnectionTopUser>) -> Seq<Seq<char>>
    decreases users.len(),
{
    if users.len() == 0 {
        Seq::<Seq<char>>::empty()
    } else {
        tcp_alerts(users.drop_last()) + if users.last().current_connections >= 10 {
            seq!["TCP spike: "@ + users.last().username@ + " ("@ + nat_digits(users.last().current_connections as nat) + ")"@]
        } else {
            Seq::<Seq<char>>::empty()
        }
    }
}

/// "traffic spike" for each of the top users by traffic with 1 GiB or more.
pub open spec fn traffic_alerts(users: Seq<TelemtConnectionTopUser>) -> Seq<Seq<char>>
    decreases users.len(),
{
    if users.len() == 0 {
        Seq::<Seq<char>>::empty()
    } else {
        traffic_alerts(users.drop_last()) + if users.last().total_octets >= 1073741824 {
            seq!["traffic spike: "@ + users.last().username@ + " ("@ + bytes_human(users.last().total_octets as nat) + ")"@]
        } else {
            Seq::<Seq<char>>::empty()
        }
    }
}

pub open spec fn live_connection_lines(live: Option<TelemtConnectionsSummary>) -> Seq<Seq<char>> {
    match live {
        Some(l) => seq!["• "@ + live_line(l)] + top_tcp_lines(l) + top_traffic_lines(l) + seq![
            anomaly_line(tcp_alerts(l.top_by_connections@) + traffic_alerts(l.top_by_throughput@)),
        ],
        None => seq!["• connections summary: нет данных"@],
    }
}

fn push_alerts(alerts: &mut Vec<String>, users: &Vec<TelemtConnectionTopUser>, traffic: bool)
    ensures
        string_views(final(alerts)@) == string_views(old(alerts)@) + if traffic {
            traffic_alerts(users@)
        } else {
            tcp_alerts(users@)
        },
{
    for i in 0..users.len()
        invariant
            string_views(alerts@) == string_views(old(alerts)@) + if traffic {
                traffic_alerts(users@.take(i as int))
            } else {
                tcp_alerts(users@.take(i as int))
            },
    {
        let u = &users[i];
        assert(users@.take(i + 1).drop_last() =~= users@.take(i as int));
        assert(users@.take(i + 1).last() == users@[i as int]);
        if traffic {
            if u.total_octets >= 1073741824 {
                let mut t = lit("traffic spike: ");
                push_str(&mut t, u.username.as_str());
                push_str(&mut t, " (");
                let b = format_bytes_human(u.total_octets);
                push_str(&mut t, b.as_str());
                push_str(&mut t, ")");
                push_line(alerts, t);
            }
        } else {
            if u.current_connections >= 10 {
                let mut t = lit("TCP spike: ");
                push_str(&mut t, u.username.as_str());
                push_str(&mut t, " (");
                push_u64(&mut t, u.current_connections);
                push_str(&mut t, ")");
                push_line(alerts, t);
            }
        }
        assert(string_views(alerts@) =~= string_views(old(alerts)@) + if traffic {
            traffic_alerts(users@.take(i + 1))
        } else {
            tcp_alerts(users@.take(i + 1))
        });
    }
    assert(users@.take(users@.len() as int) =~= users@);
}

fn live_header_line(l: &TelemtConnectionsSummary) -> (r: String)
    ensures
        r@ == "• "@ + live_line(*l),
{
    let mut a = lit("• ");
    push_str(&mut a, "Live connections: ");
    push_u64(&mut a, l.current_connections);
    push_str(&mut a, " | ME: ");
    push_u64(&mut a, l.current_connections_me);
    push_str(&mut a, " | Direct: ");
    push_u64(&mut a, l.current_connections_direct);
    push_str(&mut a, " | active users: ");
    push_u64(&mut a, l.active_users as u64);
    assert(a@ =~= "• "@ + live_line(*l));
    a
}

pub open spec fn top_tcp_lines(l: TelemtConnectionsSummary) -> Seq<Seq<char>> {
    if l.top_by_connections@.len() > 0 {
        let top = l.top_by_connections@[0];
        seq![
            "• Top TCP: "@ + top.username@ + " ("@ + nat_digits(top.current_connections as nat) + " conn, "@
                + bytes_human(top.total_octets as nat) + ")"@,
        ]
    } else {
        Seq::<Seq<char>>::empty()
    }
}

pub open spec fn top_traffic_lines(l: TelemtConnectionsSummary) -> Seq<Seq<char>> {
    if l.top_by_throughput@.len() > 0 {
        let top = l.top_by_throughput@[0];
        seq!["• Top traffic: "@ + top.username@ + " ("@ + bytes_human(top.total_octets as nat) + ")"@]
    } else {
        Seq::<Seq<char>>::empty()
    }
}

pub open spec fn anomaly_line(alerts: Seq<Seq<char>>) -> Seq<char> {
    if alerts.len() == 0 {
        "• Аномалии: не обнаружены"@
    } else {
        "• Аномалии: "@ + crate::text::join_text(alerts, "; "@)
    }
}

fn push_top_tcp(lines: &mut Vec<String>, l: &TelemtConnectionsSummary)
    ensures
        string_views(final(lines)@) == string_views(old(lines)@) + top_tcp_lines(*l),
{
    if l.top_by_connections.len() > 0 {
        let top = &l.top_by_connections[0];
        let mut t = lit("• Top TCP: ");
        push_str(&mut t, top.username.as_str());
        push_str(&mut t, " (");
        push_u64(&mut t, top.current_connections);
        push_str(&mut t, " conn, ");
        let b = format_bytes_human(top.total_octets);
        push_str(&mut t, b.as_str());
        push_str(&mut t, ")");
        push_line(lines, t);
    }
    assert(string_views(lines@) =~= string_views(old(lines)@) + top_tcp_lines(*l));
}

fn push_top_traffic(lines: &mut Vec<String>, l: &TelemtConnectionsSummary)
    ensures
        string_views(final(lines)@) == string_views(old(lines)@) + top_traffic_lines(*l),
{
    if l.top_by_throughput.len() > 0 {
        let top = &l.top_by_throughput[0];
        let mut t = lit("• Top traffic: ");
        push_str(&mut t, top.username.as_str());
        push_str(&mut t, " (");
        let b = format_bytes_human(top.total_octets);
        push_str(&mut t, b.as_str());
        push_str(&mut t, ")");
        push_line(lines, t);
    }
    assert(string_views(lines@) =~= string_views(old(lines)@) + top_traffic_lines(*l));
}

fn anomaly_text(l: &TelemtConnectionsSummary) -> (r: String)
    ensures
        r@ == anomaly_line(tcp_alerts(l.top_by_connections@) + traffic_alerts(l.top_by_throughput@)),
{
    let mut alerts: Vec<String> = Vec::new();
    push_alerts(&mut alerts, &l.top_by_connections, false);
    push_alerts(&mut alerts, &l.top_by_throughput, true);
    assert(string_views(alerts@) =~= tcp_alerts(l.top_by_connections@) + traffic_alerts(l.top_by_throughput@));
    if alerts.len() == 0 {
        lit("• Аномалии: не обнаружены")
    } else {
        let mut t = lit("• Аномалии: ");
        let joined = crate::text::join_texts(&alerts, "; ");
        push_str(&mut t, joined.as_str());
        t
    }
}

fn push_live_connections(lines: &mut Vec<String>, live: Option<&TelemtConnectionsSummary>)
    ensures
        string_views(final(lines)@) == string_views(old(lines)@) + live_connection_lines(
            match live {
                Some(l) => Some(*l),
                None => None,
            },
        ),
{
    match live {
        Some(l) => {
            push_line(lines, live_header_line(l));
            push_top_tcp(lines, l);
            push_top_traffic(lines, l);
            push_line(lines, anomaly_text(l));
            assert(live_connection_lines(Some(*l)) =~= seq!["• "@ + live_line(*l)] + top_tcp_lines(*l)
                + top_traffic_lines(*l) + seq![anomaly_line(tcp_alerts(l.top_by_connections@) + traffic_alerts(l.top_by_throughput@))]);
        },
        None => push_line(lines, lit("• connections summary: нет данных")),
    }
    assert(string_views(lines@) =~= string_views(old(lines)@) + live_connection_lines(
        match live {
            Some(l) => Some(*l),
            None => None,
        },
    ));
}

/// "• time · what" for the first four actions (the times already rendered),
/// or "• пока нет событий".
pub open spec fn activity_lines(events: Seq<AdminActivity>, times: Seq<Seq<char>>) -> Seq<Seq<char>> {
    if events.len() == 0 {
        seq!["• пока нет событий"@]
    } else {
        Seq::new(
            if events.len() < 4 {
                events.len()
            } else {
                4
            },
            |i: int| "• "@ + times[i] + " · "@ + compact(activity_summary(events[i]), 70),
        )
    }
}

pub(crate) fn push_activity_lines(lines: &mut Vec<String>, events: &Vec<AdminActivity>, times: &Vec<String>)
    requires
        times@.len() >= events@.len() || times@.len() >= 4,
    ensures
        string_views(final(lines)@) == string_views(old(lines)@) + activity_lines(events@, string_views(times@)),
{
    if events.len() == 0 {
        push_line(lines, lit("• пока нет событий"));
        assert(string_views(lines@) =~= string_views(old(lines)@) + activity_lines(events@, string_views(times@)));
        return;
    }
    let n: usize = if events.len() < 4 {
        events.len()
    } else {
        4
    };
    let ghost want = activity_lines(events@, string_views(times@));
    for i in 0..n
        invariant
            n <= events@.len(),
            n <= times@.len(),
            want == activity_lines(events@, string_views(times@)),
            want.len() == n,
            string_views(lines@) == string_views(old(lines)@) + want.take(i as int),
    {
        let mut t = lit("• ");
        push_str(&mut t, times[i].as_str());
        push_str(&mut t, " · ");
        let what = admin_activity_summary(&events[i]);
        let c = compact_line(what.as_str(), 70);
        push_str(&mut t, c.as_str());
        assert(string_views(times@)[i as int] == times@[i as int]@);
        assert(t@ == want[i as int]);
        push_line(lines, t);
        assert(want.take(i + 1) =~= want.take(i as int).push(want[i as int]));
    }
    assert(want.take(n as int) =~= want);
}

/// The status summary screen: the service, the counts of requests and
/// tokens, telemt's live figures and recent administrator actions.
pub open spec fn stats_screen(
    caps: RuntimeCapabilities,
    label: Seq<char>,
    s: ServiceSummary,
    st: AdminStats,
    ts: Option<TelemtStatsSummary>,
    live: Option<TelemtConnectionsSummary>,
    events: Seq<AdminActivity>,
    times: Seq<Seq<char>>,
) -> Seq<char> {
    join_on(
        stats_head_lines(caps, label, s) + stats_count_lines(st) + seq![Seq::<char>::empty(), "Live telemt:"@]
            + live_stats_lines(ts) + live_connection_lines(live) + seq![
            Seq::<char>::empty(),
            "Недавняя активность:"@,
        ] + activity_lines(events, times),
        '\n',
    )
}

/// The status summary; `event_times` holds the rendered time of each shown action.
pub fn stats_screen_text(
    caps: &RuntimeCapabilities,
    label: &str,
    summary: &ServiceSummary,
    stats: &AdminStats,
    telemt_stats: Option<&TelemtStatsSummary>,
    live: Option<&TelemtConnectionsSummary>,
    events: &Vec<AdminActivity>,
    event_times: &Vec<String>,
) -> (r: String)
    requires
        event_times@.len() >= events@.len() || event_times@.len() >= 4,
    ensures
        r@ == stats_screen(
            *caps,
            label@,
            *summary,
            *stats,
            match telemt_stats {
                Some(t) => Some(*t),
                None => None,
            },
            match live {
                Some(l) => Some(*l),
                None => None,
            },
            events@,
            string_views(event_times@),
        ),
{
    let mut lines: Vec<String> = Vec::new();
    push_line(&mut lines, lit("📊 Сводка состояния"));
    push_line(&mut lines, String::new());
    let mut a = lit("Сервис: ");
    push_str(&mut a, label);
    push_line(&mut lines, a);
    let mut b = lit("Статус: ");
    let st = runtime_status_text(caps, summary);
    push_str(&mut b, st.as_str());
    push_line(&mut lines, b);
    let mut c = lit(if caps.shows_systemd_unit {
        "Проверка systemd"
    } else {
        "Host-runtime"
    });
    push_str(&mut c, ": ");
    push_str(&mut c, if summary.success {
        "OK"
    } else {
        "Ошибка"
    });
    push_line(&mut lines, c);
    push_line(&mut lines, unit_pid_text(caps, summary));
    push_status_details(&mut lines, summary);
    let ghost head = string_views(lines@);
    assert(head =~= stats_head_lines(*caps, label@, *summary));
    push_stats_counts(&mut lines, stats);
    push_line(&mut lines, String::new());
    push_line(&mut lines, lit("Live telemt:"));
    push_live_stats(&mut lines, telemt_stats);
    push_live_connections(&mut lines, live);
    push_line(&mut lines, String::new());
    push_line(&mut lines, lit("Недавняя активность:"));
    push_activity_lines(&mut lines, events, event_times);
    assert(string_views(lines@) =~= stats_head_lines(*caps, label@, *summary) + stats_count_lines(*stats) + seq![
        Seq::<char>::empty(),
        "Live telemt:"@,
    ] + live_stats_lines(
        match telemt_stats {
            Some(t) => Some(*t),
            None => None,
        },
    ) + live_connection_lines(
        match live {
            Some(l) => Some(*l),
            None => None,
        },
    ) + seq![Seq::<char>::empty(), "Недавняя активность:"@] + activity_lines(events@, string_views(event_times@)));
    join_strings(&lines, '\n')
}

// ---------------------------------------------------------------------
// Screen texts
// ---------------------------------------------------------------------

pub open spec fn user_home(status: Option<RequestStatus>) -> Seq<char> {
    match status {
        Some(RequestStatus::Approved) => "✅ Доступ открыт.\n\nНажмите «Моя ссылка», чтобы получить ссылку на прокси."@,
        Some(RequestStatus::Pending) => "⏳ Заявка на рассмотрении.\n\nДождитесь решения администратора.\nДля ускорения — отправьте invite-токен, если он у вас есть."@,
        Some(RequestStatus::Rejected) => "❌ Заявка отклонена.\n\nЕсли у вас есть новый invite-токен, введите его."@,
        Some(RequestStatus::Deleted) => "🚫 Доступ отозван.\n\nДля новой регистрации введите новый invite-токен."@,
        None => "🔒 Чтобы получить доступ, введите invite-токен."@,
    }
}

/// A user's home screen by the state of their request (none: not registered).
pub fn user_home_text(status: Option<RequestStatus>) -> (r: &'static str)
    ensures
        r@ == user_home(status),
{
    match status {
        Some(RequestStatus::Approved) => "✅ Доступ открыт.\n\nНажмите «Моя ссылка», чтобы получить ссылку на прокси.",
        Some(RequestStatus::Pending) => "⏳ Заявка на рассмотрении.\n\nДождитесь решения администратора.\nДля ускорения — отправьте invite-токен, если он у вас есть.",
        Some(RequestStatus::Rejected) => "❌ Заявка отклонена.\n\nЕсли у вас есть новый invite-токен, введите его.",
        Some(RequestStatus::Deleted) => "🚫 Доступ отозван.\n\nДля новой регистрации введите новый invite-токен.",
        None => "🔒 Чтобы получить доступ, введите invite-токен.",
    }
}

/// The card of a pending request; `created` is its time, already rendered.
pub open spec fn pending_request_card(req: RegistrationRequest, created: Seq<char>) -> Seq<char> {
    "📋 Заявка #"@ + int_str(req.id as int) + "\n\n👤 "@ + crate::format::display_name(req) + "\n🆔 "@ + int_str(
        req.tg_user_id as int,
    ) + "\n📱 "@ + (match req.tg_username {
        Some(u) => "@"@ + u@,
        None => "—"@,
    }) + "\n📅 "@ + created + match req.invite_token_id {
        Some(id) => "\n🎟 ID ссылки (invite): "@ + int_str(id as int),
        None => Seq::<char>::empty(),
    }
}

pub fn pending_request_card_text(req: &RegistrationRequest, created: &str) -> (r: String)
    ensures
        r@ == pending_request_card(*req, created@),
{
    let mut s = lit("📋 Заявка #");
    push_i64(&mut s, req.id);
    push_str(&mut s, "\n\n👤 ");
    let name = crate::format::user_display_name(req);
    push_str(&mut s, name.as_str());
    push_str(&mut s, "\n🆔 ");
    push_i64(&mut s, req.tg_user_id);
    push_str(&mut s, "\n📱 ");
    match &req.tg_username {
        Some(u) => {
            push_str(&mut s, "@");
            push_str(&mut s, u.as_str());
        },
        None => push_str(&mut s, "—"),
    }
    push_str(&mut s, "\n📅 ");
    push_str(&mut s, created);
    if let Some(id) = req.invite_token_id {
        push_str(&mut s, "\n🎟 ID ссылки (invite): ");
        push_i64(&mut s, id);
    }
    assert(s@ =~= pending_request_card(*req, created@));
    s
}

/// The question before revoking a token.
pub fn token_revoke_confirm_text(code: &str) -> (r: String)
    ensures
        r@ == "Отозвать invite-токен "@ + code@ + "?\n\nПосле этого его нельзя будет использовать для регистрации."@,
{
    let mut s = lit("Отозвать invite-токен ");
    push_str(&mut s, code);
    push_str(&mut s, "?\n\nПосле этого его нельзя будет использовать для регистрации.");
    s
}

/// The question before deleting a user by id.
pub fn delete_user_confirm_text(tg_user_id: i64) -> (r: String)
    ensures
        r@ == "Удалить пользователя с Telegram ID "@ + int_str(tg_user_id as int)
            + "?\n\nДействие деактивирует пользователя в БД и удалит его из telemt-конфига."@,
{
    let mut s = lit("Удалить пользователя с Telegram ID ");
    push_i64(&mut s, tg_user_id);
    push_str(&mut s, "?\n\nДействие деактивирует пользователя в БД и удалит его из telemt-конфига.");
    s
}

/// The question before removing a user from their card.
pub fn user_ban_confirm_text(tg_user_id: i64) -> (r: String)
    ensures
        r@ == "Удалить пользователя "@ + int_str(tg_user_id as int)
            + "?\n\nЭто действие уберёт запись из telemt и деактивирует доступ в БД."@,
{
    let mut s = lit("Удалить пользователя ");
    push_i64(&mut s, tg_user_id);
    push_str(&mut s, "?\n\nЭто действие уберёт запись из telemt и деактивирует доступ в БД.");
    s
}

/// The heading of the token list.
pub fn token_list_header(total: i64, page: i64, total_pages: i64) -> (r: String)
    ensures
        r@ == "🎟 Токены · "@ + int_str(total as int) + "\nСтраница: "@ + int_str(page as int) + "/"@ + int_str(
            total_pages as int,
        ) + "\n\nВ списке — срок действия invite-ссылки, не подписки пользователя.\n\nВыберите токен."@,
{
    let mut s = lit("🎟 Токены · ");
    push_i64(&mut s, total);
    push_str(&mut s, "\nСтраница: ");
    push_i64(&mut s, page);
    push_str(&mut s, "/");
    push_i64(&mut s, total_pages);
    push_str(&mut s, "\n\nВ списке — срок действия invite-ссылки, не подписки пользователя.\n\nВыберите токен.");
    s
}

/// The heading of the list of pending requests.
pub fn pending_list_header(total: i64, page: i64, total_pages: i64) -> (r: String)
    ensures
        r@ == "📥 Заявки · "@ + int_str(total as int) + "\nСтраница: "@ + int_str(page as int) + "/"@ + int_str(
            total_pages as int,
        ) + "\n\nВыберите заявку."@,
{
    let mut s = lit("📥 Заявки · ");
    push_i64(&mut s, total);
    push_str(&mut s, "\nСтраница: ");
    push_i64(&mut s, page);
    push_str(&mut s, "/");
    push_i64(&mut s, total_pages);
    push_str(&mut s, "\n\nВыберите заявку.");
    s
}

/// A pending request in the list: "📋 #id · name".
pub fn pending_list_label(req: &RegistrationRequest) -> (r: String)
    ensures
        r@ == "📋 #"@ + int_str(req.id as int) + " · "@ + crate::format::display_name(*req),
{
    let mut s = lit("📋 #");
    push_i64(&mut s, req.id);
    push_str(&mut s, " · ");
    let name = crate::format::user_display_name(req);
    push_str(&mut s, name.as_str());
    s
}

/// The heading of the list of users, with the number selected when any.
pub fn users_list_header(total: i64, page: i64, total_pages: i64, selected: usize) -> (r: String)
    ensures
        r@ == "👥 Пользователи · "@ + int_str(total as int) + (if selected > 0 {
            " (выбрано: "@ + nat_digits(selected as nat) + ")"@
        } else {
            Seq::<char>::empty()
        }) + "\nСтраница: "@ + int_str(page as int) + "/"@ + int_str(total_pages as int)
            + "\n\nВыберите пользователя (⬜ - выбрать)."@,
{
    let mut s = lit("👥 Пользователи · ");
    push_i64(&mut s, total);
    if selected > 0 {
        push_str(&mut s, " (выбрано: ");
        push_u64(&mut s, selected as u64);
        push_str(&mut s, ")");
    }
    push_str(&mut s, "\nСтраница: ");
    push_i64(&mut s, page);
    push_str(&mut s, "/");
    push_i64(&mut s, total_pages);
    push_str(&mut s, "\n\nВыберите пользователя (⬜ - выбрать).");
    s
}

/// The text of the groups menu: for choosing a group for selected users or
/// for managing groups, with a hint when there are none.
pub fn groups_menu_text(has_groups: bool, selection_mode: bool) -> (r: &'static str)
    ensures
        r@ == (if !has_groups {
            if selection_mode {
                "📁 Выберите группу для выбранных пользователей\n\nПока нет ни одной группы."@
            } else {
                "📁 Группы пользователей\n\nПока нет ни одной группы. Нажмите «Новая группа»."@
            }
        } else if selection_mode {
            "📁 Выберите группу для выбранных пользователей"@
        } else {
            "📁 Группы пользователей\n\nВыберите группу или создайте новую."@
        }),
{
    if !has_groups {
        if selection_mode {
            "📁 Выберите группу для выбранных пользователей\n\nПока нет ни одной группы."
        } else {
            "📁 Группы пользователей\n\nПока нет ни одной группы. Нажмите «Новая группа»."
        }
    } else if selection_mode {
        "📁 Выберите группу для выбранных пользователей"
    } else {
        "📁 Группы пользователей\n\nВыберите группу или создайте новую."
    }
}

/// The card of a group; `created` and `expires` are its times, already rendered.
pub open spec fn group_card(g: UserGroup, members: i64, created: Seq<char>, expires: Seq<char>) -> Seq<char> {
    "📁 Группа: "@ + g.name@ + "\nID: "@ + int_str(g.id as int) + "\nСоздана: "@ + created + "\nУчастников: "@
        + int_str(members as int) + (match g.expires_at {
        Some(ts) => "\nОбщий срок группы: "@ + expires + "\nUnix timestamp: "@ + int_str(ts as int),
        None => "\nОбщий срок группы: не задан."@,
    }) + "\n\n«Задать/изменить срок» обновит общий срок группы через UI.\n«Снять срок» очистит общий срок группы.\n«Отключить всех» удалит пользователей из telemt и локальной БД, затем удалит группу.\n«Применить срок» выставит всем участникам `expiration` из RFC3339, вычисленного из unix-срока группы."@
}

pub fn group_card_text(group: &UserGroup, members: i64, created: &str, expires: &str) -> (r: String)
    ensures
        r@ == group_card(*group, members, created@, expires@),
{
    let mut s = lit("📁 Группа: ");
    push_str(&mut s, group.name.as_str());
    push_str(&mut s, "\nID: ");
    push_i64(&mut s, group.id);
    push_str(&mut s, "\nСоздана: ");
    push_str(&mut s, created);
    push_str(&mut s, "\nУчастников: ");
    push_i64(&mut s, members);
    match group.expires_at {
        Some(ts) => {
            push_str(&mut s, "\nОбщий срок группы: ");
            push_str(&mut s, expires);
            push_str(&mut s, "\nUnix timestamp: ");
            push_i64(&mut s, ts);
        },
        None => push_str(&mut s, "\nОбщий срок группы: не задан."),
    }
    push_str(&mut s, "\n\n«Задать/изменить срок» обновит общий срок группы через UI.\n«Снять срок» очистит общий срок группы.\n«Отключить всех» удалит пользователей из telemt и локальной БД, затем удалит группу.\n«Применить срок» выставит всем участникам `expiration` из RFC3339, вычисленного из unix-срока группы.");
    assert(s@ =~= group_card(*group, members, created@, expires@));
    s
}

/// The caption of a user's QR code: who they are and their link.
pub fn user_qr_caption(user: &RegistrationRequest, link: &str) -> (r: String)
    ensures
        r@ == "👤 "@ + crate::format::display_name(*user) + " ("@ + int_str(user.tg_user_id as int) + ")\n\n🔗 "@ + link@,
{
    let mut s = lit("👤 ");
    let name = crate::format::user_display_name(user);
    push_str(&mut s, name.as_str());
    push_str(&mut s, " (");
    push_i64(&mut s, user.tg_user_id);
    push_str(&mut s, ")\n\n🔗 ");
    push_str(&mut s, link);
    s
}

/// The file name of a user's QR code image.
pub fn user_qr_file_name(tg_user_id: i64) -> (r: String)
    ensures
        r@ == "telemt-proxy-"@ + int_str(tg_user_id as int) + ".png"@,
{
    let mut s = lit("telemt-proxy-");
    push_i64(&mut s, tg_user_id);
    push_str(&mut s, ".png");
    s
}

// ---------------------------------------------------------------------
// Laws
// ---------------------------------------------------------------------

/// The page shown is always between the first and the last, there is always
/// a page, and for a non-empty list its first item exists.
pub proof fn lemma_page_in_range(total: int, size: int, requested: int)
    requires
        size >= 1,
    ensures
        page_bounds_spec(total, size, requested).1 >= 1,
        1 <= page_bounds_spec(total, size, requested).0 <= page_bounds_spec(total, size, requested).1,
        page_bounds_spec(total, size, requested).2 >= 0,
        total >= 1 ==> page_bounds_spec(total, size, requested).2 < total,
{
    let r = page_bounds_spec(total, size, requested);
    let page = r.0;
    let tp = r.1;
    let offset = r.2;
    let n = total + size - 1;
    assert(tp >= 1);
    assert(1 <= page <= tp);
    assert(offset == (page - 1) * size);
    assert(offset >= 0) by (nonlinear_arith)
        requires
            offset == (page - 1) * size,
            page >= 1,
            size >= 1,
    ;
    if total >= 1 {
        if tp > 1 {
            vstd::arithmetic::div_mod::lemma_fundamental_div_mod(n, size);
            assert(n == size * (n / size) + n % size);
            assert(0 <= n % size < size);
            assert(tp == n / size);
            assert((page - 1) * size < total) by (nonlinear_arith)
                requires
                    1 <= page <= tp,
                    n == size * tp + (n % size),
                    0 <= n % size < size,
                    n == total + size - 1,
                    size >= 1,
            ;
            assert(offset < total);
        } else {
            assert(page == 1);
            assert(offset == 0) by (nonlinear_arith)
                requires
                    offset == (page - 1) * size,
                    page == 1,
            ;
        }
    }
}

/// A shortened line never exceeds its limit (for limits of at least 3).
pub proof fn lemma_compact_within_limit(value: Seq<char>, limit: nat)
    requires
        limit >= 3,
    ensures
        compact(value, limit).len() <= limit,
{
    reveal_strlit("...");
}

} // verus!
