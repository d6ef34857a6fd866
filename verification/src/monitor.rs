//! Background monitoring of telemt: from the previous observation and a new
//! snapshot (or a failed poll), the next observation and the notifications
//! that administrators receive.

use vstd::prelude::*;

use crate::config::NotificationsConfig;
use crate::telemt::TelemtMonitorSnapshot;
use crate::text::{chars_eq_str, lit, nat_digits, push_str, push_u64, str_chars};

verus! {

/// What the previous poll observed.
#[derive(Debug, Clone, Default)]
pub struct MonitorState {
    pub api_available: Option<bool>,
    pub health_status: Option<String>,
    pub accepting_new_connections: Option<bool>,
    pub me_runtime_ready: Option<bool>,
    pub upstream_unhealthy_total: Option<u64>,
    pub kdf_state: Option<String>,
    pub timeskew_state: Option<String>,
}

/// The observation as plain values.
pub struct Observed {
    pub api_available: Option<bool>,
    pub health_status: Option<Seq<char>>,
    pub accepting_new_connections: Option<bool>,
    pub me_runtime_ready: Option<bool>,
    pub upstream_unhealthy_total: Option<u64>,
    pub kdf_state: Option<Seq<char>>,
    pub timeskew_state: Option<Seq<char>>,
}

/// A snapshot as plain values.
pub struct Snap {
    pub health_status: Seq<char>,
    pub accepting_new_connections: Option<bool>,
    pub me_runtime_ready: Option<bool>,
    pub upstream_unhealthy_total: Option<u64>,
    pub kdf_state: Option<Seq<char>>,
    pub timeskew_state: Option<Seq<char>>,
}

pub open spec fn opt_view(v: Option<String>) -> Option<Seq<char>> {
    match v {
        Some(s) => Some(s@),
        None => None,
    }
}

impl MonitorState {
    pub open spec fn observed(&self) -> Observed {
        Observed {
            api_available: self.api_available,
            health_status: opt_view(self.health_status),
            accepting_new_connections: self.accepting_new_connections,
            me_runtime_ready: self.me_runtime_ready,
            upstream_unhealthy_total: self.upstream_unhealthy_total,
            kdf_state: opt_view(self.kdf_state),
            timeskew_state: opt_view(self.timeskew_state),
        }
    }
}

pub open spec fn snap_of(s: TelemtMonitorSnapshot) -> Snap {
    Snap {
        health_status: s.health_status@,
        accepting_new_connections: s.accepting_new_connections,
        me_runtime_ready: s.me_runtime_ready,
        upstream_unhealthy_total: s.upstream_unhealthy_total,
        kdf_state: opt_view(s.me_selftest_kdf_state),
        timeskew_state: opt_view(s.me_selftest_timeskew_state),
    }
}

/// The observation a successful poll leaves behind: the snapshot itself.
pub open spec fn observed_after(snap: Snap) -> Observed {
    Observed {
        api_available: Some(true),
        health_status: Some(snap.health_status),
        accepting_new_connections: snap.accepting_new_connections,
        me_runtime_ready: snap.me_runtime_ready,
        upstream_unhealthy_total: snap.upstream_unhealthy_total,
        kdf_state: snap.kdf_state,
        timeskew_state: snap.timeskew_state,
    }
}

pub open spec fn api_down_text(error: Seq<char>) -> Seq<char> {
    "🚨 telemt control API недоступен\n\nПричина: "@ + error
}

pub open spec fn api_back_text() -> Seq<char> {
    "✅ telemt control API снова доступен"@
}

pub open spec fn health_changed_text(before: Seq<char>, after: Seq<char>) -> Seq<char> {
    "ℹ️ telemt health изменился\n\nБыло: "@ + before + "\nСтало: "@ + after
}

pub open spec fn upstream_bad_text(count: u64) -> Seq<char> {
    "🚨 В telemt появились unhealthy upstream\n\nКоличество: "@ + nat_digits(count as nat)
}

/// A self-test state counts as a problem when it is known and not `ok`.
pub open spec fn is_bad(v: Option<Seq<char>>) -> bool {
    match v {
        Some(x) => x != "ok"@,
        None => false,
    }
}

pub open spec fn state_problem_text(title: Seq<char>, current: Option<Seq<char>>) -> Seq<char> {
    "🚨 "@ + title + " сообщает о проблеме\n\nТекущее состояние: "@ + match current {
        Some(c) => c,
        None => "unknown"@,
    }
}

pub open spec fn state_ok_text(title: Seq<char>) -> Seq<char> {
    "✅ "@ + title + " снова в состоянии ok"@
}

/// The notification about a self-test state, if its goodness changed.
pub open spec fn recovery_messages(
    previous: Option<Seq<char>>,
    current: Option<Seq<char>>,
    title: Seq<char>,
) -> Seq<Seq<char>> {
    if !is_bad(previous) && is_bad(current) {
        seq![state_problem_text(title, current)]
    } else if is_bad(previous) && !is_bad(current) {
        seq![state_ok_text(title)]
    } else {
        Seq::<Seq<char>>::empty()
    }
}

pub open spec fn health_messages(prev: Observed, snap: Snap) -> Seq<Seq<char>> {
    let m1 = match prev.health_status {
        Some(before) => if before != snap.health_status {
            seq![health_changed_text(before, snap.health_status)]
        } else {
            Seq::<Seq<char>>::empty()
        },
        None => Seq::<Seq<char>>::empty(),
    };
    let m2 = if prev.accepting_new_connections == Some(true) && snap.accepting_new_connections
        == Some(false) {
        seq!["🚨 telemt перестал принимать новые соединения"@]
    } else if prev.accepting_new_connections == Some(false) && snap.accepting_new_connections
        == Some(true) {
        seq!["✅ telemt снова принимает новые соединения"@]
    } else {
        Seq::<Seq<char>>::empty()
    };
    let m3 = if prev.me_runtime_ready == Some(true) && snap.me_runtime_ready == Some(false) {
        seq!["🚨 ME runtime больше не готов"@]
    } else if prev.me_runtime_ready == Some(false) && snap.me_runtime_ready == Some(true) {
        seq!["✅ ME runtime снова готов"@]
    } else {
        Seq::<Seq<char>>::empty()
    };
    m1 + m2 + m3
}

pub open spec fn unwrap_zero(v: Option<u64>) -> u64 {
    match v {
        Some(x) => x,
        None => 0,
    }
}

pub open spec fn runtime_messages(prev: Observed, snap: Snap) -> Seq<Seq<char>> {
    let before = unwrap_zero(prev.upstream_unhealthy_total);
    let now = unwrap_zero(snap.upstream_unhealthy_total);
    let m1 = if before == 0 && now > 0 {
        seq![upstream_bad_text(now)]
    } else if before > 0 && now == 0 {
        seq!["✅ Все upstream снова healthy"@]
    } else {
        Seq::<Seq<char>>::empty()
    };
    m1 + recovery_messages(prev.kdf_state, snap.kdf_state, "ME self-test KDF"@)
        + recovery_messages(prev.timeskew_state, snap.timeskew_state, "ME self-test time skew"@)
}

/// The notifications of a successful poll, in the order they are sent.
pub open spec fn step_messages(
    prev: Observed,
    health_flag: bool,
    runtime_flag: bool,
    snap: Snap,
) -> Seq<Seq<char>> {
    let back = if prev.api_available == Some(false) && health_flag {
        seq![api_back_text()]
    } else {
        Seq::<Seq<char>>::empty()
    };
    let health = if health_flag {
        health_messages(prev, snap)
    } else {
        Seq::<Seq<char>>::empty()
    };
    let runtime = if runtime_flag {
        runtime_messages(prev, snap)
    } else {
        Seq::<Seq<char>>::empty()
    };
    back + health + runtime
}

/// The notifications of a poll that could not reach the API.
pub open spec fn failure_messages(prev: Observed, health_flag: bool, error: Seq<char>) -> Seq<
    Seq<char>,
> {
    if health_flag && prev.api_available != Some(false) {
        seq![api_down_text(error)]
    } else {
        Seq::<Seq<char>>::empty()
    }
}

pub open spec fn texts(v: Seq<String>) -> Seq<Seq<char>> {
    v.map_values(|s: String| s@)
}

fn push_msg(out: &mut Vec<String>, m: String)
    ensures
        texts(final(out)@) == texts(old(out)@).push(m@),
{
    out.push(m);
    assert(texts(out@) =~= texts(old(out)@).push(m@));
}

fn clone_opt(v: &Option<String>) -> (r: Option<String>)
    ensures
        opt_view(r) == opt_view(*v),
{
    match v {
        Some(s) => Some(s.clone()),
        None => None,
    }
}

fn is_bad_exec(v: &Option<String>) -> (r: bool)
    ensures
        r == is_bad(opt_view(*v)),
{
    match v {
        Some(s) => {
            let c = str_chars(s.as_str());
            !chars_eq_str(c.as_slice(), "ok")
        },
        None => false,
    }
}

fn push_recovery(out: &mut Vec<String>, previous: &Option<String>, current: &Option<String>, title: &str)
    ensures
        texts(final(out)@) == texts(old(out)@) + recovery_messages(
            opt_view(*previous),
            opt_view(*current),
            title@,
        ),
{
    let prev_bad = is_bad_exec(previous);
    let curr_bad = is_bad_exec(current);
    if !prev_bad && curr_bad {
        let mut m = lit("🚨 ");
        push_str(&mut m, title);
        push_str(&mut m, " сообщает о проблеме\n\nТекущее состояние: ");
        match current {
            Some(c) => push_str(&mut m, c.as_str()),
            None => push_str(&mut m, "unknown"),
        }
        assert(m@ =~= state_problem_text(title@, opt_view(*current)));
        push_msg(out, m);
        assert(texts(out@) =~= texts(old(out)@) + seq![state_problem_text(title@, opt_view(*current))]);
    } else if prev_bad && !curr_bad {
        let mut m = lit("✅ ");
        push_str(&mut m, title);
        push_str(&mut m, " снова в состоянии ok");
        assert(m@ =~= state_ok_text(title@));
        push_msg(out, m);
        assert(texts(out@) =~= texts(old(out)@) + seq![state_ok_text(title@)]);
    } else {
        assert(texts(out@) =~= texts(old(out)@) + Seq::<Seq<char>>::empty());
    }
}

fn opt_eq_str(v: &Option<String>, s: &String) -> (r: bool)
    ensures
        r == (opt_view(*v) == Some(s@)),
{
    match v {
        Some(x) => *x == *s,
        None => false,
    }
}

fn push_health_messages(out: &mut Vec<String>, state: &MonitorState, snapshot: &TelemtMonitorSnapshot)
    ensures
        texts(final(out)@) == texts(old(out)@) + health_messages(state.observed(), snap_of(*snapshot)),
{
    let ghost start = texts(out@);
    if !opt_eq_str(&state.health_status, &snapshot.health_status) {
        if let Some(previous) = &state.health_status {
            let mut m = lit("ℹ️ telemt health изменился\n\nБыло: ");
            push_str(&mut m, previous.as_str());
            push_str(&mut m, "\nСтало: ");
            push_str(&mut m, snapshot.health_status.as_str());
            assert(m@ =~= health_changed_text(previous@, snapshot.health_status@));
            push_msg(out, m);
        }
    }
    let ghost after_m1 = texts(out@);
    if state.accepting_new_connections == Some(true) && snapshot.accepting_new_connections == Some(
        false,
    ) {
        push_msg(out, lit("🚨 telemt перестал принимать новые соединения"));
    } else if state.accepting_new_connections == Some(false) && snapshot.accepting_new_connections
        == Some(true) {
        push_msg(out, lit("✅ telemt снова принимает новые соединения"));
    }
    if state.me_runtime_ready == Some(true) && snapshot.me_runtime_ready == Some(false) {
        push_msg(out, lit("🚨 ME runtime больше не готов"));
    } else if state.me_runtime_ready == Some(false) && snapshot.me_runtime_ready == Some(true) {
        push_msg(out, lit("✅ ME runtime снова готов"));
    }
    assert(texts(out@) =~= start + health_messages(state.observed(), snap_of(*snapshot)));
}

fn push_runtime_messages(out: &mut Vec<String>, state: &MonitorState, snapshot: &TelemtMonitorSnapshot)
    ensures
        texts(final(out)@) == texts(old(out)@) + runtime_messages(state.observed(), snap_of(*snapshot)),
{
    let ghost start = texts(out@);
    let before = match state.upstream_unhealthy_total {
        Some(x) => x,
        None => 0,
    };
    let now = match snapshot.upstream_unhealthy_total {
        Some(x) => x,
        None => 0,
    };
    if before == 0 && now > 0 {
        let mut m = lit("🚨 В telemt появились unhealthy upstream\n\nКоличество: ");
        push_u64(&mut m, now);
        assert(m@ =~= upstream_bad_text(now));
        push_msg(out, m);
    } else if before > 0 && now == 0 {
        push_msg(out, lit("✅ Все upstream снова healthy"));
    }
    push_recovery(out, &state.kdf_state, &snapshot.me_selftest_kdf_state, "ME self-test KDF");
    push_recovery(
        out,
        &state.timeskew_state,
        &snapshot.me_selftest_timeskew_state,
        "ME self-test time skew",
    );
    assert(texts(out@) =~= start + runtime_messages(state.observed(), snap_of(*snapshot)));
}

/// Handles a successful poll: the next observation and the notifications to send.
pub fn monitor_step(
    state: &MonitorState,
    notifications: &NotificationsConfig,
    snapshot: &TelemtMonitorSnapshot,
) -> (r: (MonitorState, Vec<String>))
    ensures
        r.0.observed() == observed_after(snap_of(*snapshot)),
        texts(r.1@) == step_messages(
            state.observed(),
            notifications.notify_on_health_change,
            notifications.notify_on_runtime_alerts,
            snap_of(*snapshot),
        ),
{
    let mut out: Vec<String> = Vec::new();
    if state.api_available == Some(false) && notifications.notify_on_health_change {
        push_msg(&mut out, lit("✅ telemt control API снова доступен"));
    }
    let ghost after_back = texts(out@);
    if notifications.notify_on_health_change {
        push_health_messages(&mut out, state, snapshot);
    }
    let ghost after_health = texts(out@);
    if notifications.notify_on_runtime_alerts {
        push_runtime_messages(&mut out, state, snapshot);
    }
    assert(texts(out@) =~= step_messages(
        state.observed(),
        notifications.notify_on_health_change,
        notifications.notify_on_runtime_alerts,
        snap_of(*snapshot),
    ));
    let next = MonitorState {
        api_available: Some(true),
        health_status: Some(snapshot.health_status.clone()),
        accepting_new_connections: snapshot.accepting_new_connections,
        me_runtime_ready: snapshot.me_runtime_ready,
        upstream_unhealthy_total: snapshot.upstream_unhealthy_total,
        kdf_state: clone_opt(&snapshot.me_selftest_kdf_state),
        timeskew_state: clone_opt(&snapshot.me_selftest_timeskew_state),
    };
    (next, out)
}

/// Handles a poll that could not reach the API: the API is marked unavailable and
/// administrators hear of it once, on the first failure.
pub fn monitor_api_failure(
    state: &MonitorState,
    notifications: &NotificationsConfig,
    error: &str,
) -> (r: (MonitorState, Vec<String>))
    ensures
        r.0.observed() == (Observed { api_available: Some(false), ..state.observed() }),
        texts(r.1@) == failure_messages(
            state.observed(),
            notifications.notify_on_health_change,
            error@,
        ),
{
    let mut out: Vec<String> = Vec::new();
    if notifications.notify_on_health_change && state.api_available != Some(false) {
        let mut m = lit("🚨 telemt control API недоступен\n\nПричина: ");
        push_str(&mut m, error);
        push_msg(&mut out, m);
        assert(texts(out@) =~= seq![api_down_text(error@)]);
    } else {
        assert(texts(out@) =~= Seq::<Seq<char>>::empty());
    }
    let next = MonitorState {
        api_available: Some(false),
        health_status: clone_opt(&state.health_status),
        accepting_new_connections: state.accepting_new_connections,
        me_runtime_ready: state.me_runtime_ready,
        upstream_unhealthy_total: state.upstream_unhealthy_total,
        kdf_state: clone_opt(&state.kdf_state),
        timeskew_state: clone_opt(&state.timeskew_state),
    };
    (next, out)
}

/// Whether the background monitor runs at all: notifications and the control API
/// must both be enabled.
pub fn monitor_enabled(notifications: &NotificationsConfig, api_enabled: bool) -> (r: bool)
    ensures
        r == (notifications.enabled && api_enabled),
{
    notifications.enabled && api_enabled
}

/// The polling period in seconds (at least one).
pub fn poll_interval_secs(notifications: &NotificationsConfig) -> (r: u64)
    ensures
        r == if notifications.health_check_interval_secs < 1 {
            1
        } else {
            notifications.health_check_interval_secs
        },
{
    if notifications.health_check_interval_secs < 1 {
        1
    } else {
        notifications.health_check_interval_secs
    }
}

// ---------------------------------------------------------------------
// Laws
// ---------------------------------------------------------------------

/// Seeing the same snapshot twice in a row sends nothing the second time:
/// every notification is about a change.
pub proof fn lemma_repeated_snapshot_is_silent(
    prev: Observed,
    health_flag: bool,
    runtime_flag: bool,
    snap: Snap,
)
    ensures
        step_messages(observed_after(snap), health_flag, runtime_flag, snap).len() == 0,
{
    let o = observed_after(snap);
    assert(health_messages(o, snap) =~= Seq::<Seq<char>>::empty());
    assert(recovery_messages(snap.kdf_state, snap.kdf_state, "ME self-test KDF"@)
        =~= Seq::<Seq<char>>::empty());
    assert(recovery_messages(snap.timeskew_state, snap.timeskew_state, "ME self-test time skew"@)
        =~= Seq::<Seq<char>>::empty());
    assert(runtime_messages(o, snap) =~= Seq::<Seq<char>>::empty());
}

/// A failed poll right after another failed poll sends nothing.
pub proof fn lemma_repeated_failure_is_silent(prev: Observed, health_flag: bool, e1: Seq<char>, e2: Seq<char>)
    ensures
        failure_messages(Observed { api_available: Some(false), ..prev }, health_flag, e2).len()
            == 0,
{
}

/// The first successful poll after a failure announces that the API is back
/// (when health notifications are on), before anything else.
pub proof fn lemma_recovery_announced_first(prev: Observed, runtime_flag: bool, snap: Snap)
    requires
        prev.api_available == Some(false),
    ensures
        step_messages(prev, true, runtime_flag, snap).len() >= 1,
        step_messages(prev, true, runtime_flag, snap)[0] == api_back_text(),
{
}

/// With both kinds of notifications switched off, polls never send anything.
pub proof fn lemma_quiet_when_disabled(prev: Observed, snap: Snap, error: Seq<char>)
    ensures
        step_messages(prev, false, false, snap).len() == 0,
        failure_messages(prev, false, error).len() == 0,
{
    assert(step_messages(prev, false, false, snap) =~= Seq::<Seq<char>>::empty());
}

/// An unavailable API is announced on the first failed poll after anything other
/// than a failure, when health notifications are on.
pub proof fn lemma_outage_announced(prev: Observed, error: Seq<char>)
    requires
        prev.api_available != Some(false),
    ensures
        failure_messages(prev, true, error) == seq![api_down_text(error)],
{
}

/// The self-test state is fine: unknown, or known to be ok.
pub open spec fn self_test_fine(v: Option<Seq<char>>) -> bool {
    v is None || v == Some("ok"@)
}

proof fn lemma_problem_text(title: Seq<char>, x: Seq<char>)
    ensures
        title == "ME self-test time skew"@ ==> state_problem_text(title, Some(x))
            == "🚨 ME self-test time skew сообщает о проблеме\n\nТекущее состояние: "@ + x,
        title == "ME self-test KDF"@ ==> state_problem_text(title, Some(x))
            == "🚨 ME self-test KDF сообщает о проблеме\n\nТекущее состояние: "@ + x,
        title == "ME self-test time skew"@ ==> state_ok_text(title)
            == "✅ ME self-test time skew снова в состоянии ok"@,
        title == "ME self-test KDF"@ ==> state_ok_text(title) == "✅ ME self-test KDF снова в состоянии ok"@,
{
    reveal_strlit("🚨 ");
    reveal_strlit(" сообщает о проблеме\n\nТекущее состояние: ");
    reveal_strlit("✅ ");
    reveal_strlit(" снова в состоянии ok");
    reveal_strlit("ME self-test time skew");
    reveal_strlit("ME self-test KDF");
    reveal_strlit("🚨 ME self-test time skew сообщает о проблеме\n\nТекущее состояние: ");
    reveal_strlit("🚨 ME self-test KDF сообщает о проблеме\n\nТекущее состояние: ");
    reveal_strlit("✅ ME self-test time skew снова в состоянии ok");
    reveal_strlit("✅ ME self-test KDF снова в состоянии ok");
    assert("🚨 "@ + "ME self-test time skew"@ + " сообщает о проблеме\n\nТекущее состояние: "@ + x
        =~= "🚨 ME self-test time skew сообщает о проблеме\n\nТекущее состояние: "@ + x);
    assert("🚨 "@ + "ME self-test KDF"@ + " сообщает о проблеме\n\nТекущее состояние: "@ + x
        =~= "🚨 ME self-test KDF сообщает о проблеме\n\nТекущее состояние: "@ + x);
    assert("✅ "@ + "ME self-test time skew"@ + " снова в состоянии ok"@
        =~= "✅ ME self-test time skew снова в состоянии ok"@);
    assert("✅ "@ + "ME self-test KDF"@ + " снова в состоянии ok"@
        =~= "✅ ME self-test KDF снова в состоянии ok"@);
}

/// With runtime notifications on, a time-skew self-test that goes from fine to
/// a known other state is announced as a problem naming that state; it is the
/// last message of the poll.
pub proof fn lemma_timeskew_problem_announced(prev: Observed, health_flag: bool, snap: Snap, x: Seq<char>)
    requires
        self_test_fine(prev.timeskew_state),
        snap.timeskew_state == Some(x),
        x != "ok"@,
    ensures
        step_messages(prev, health_flag, true, snap).len() >= 1,
        step_messages(prev, health_flag, true, snap).last()
            == "🚨 ME self-test time skew сообщает о проблеме\n\nТекущее состояние: "@ + x,
{
    lemma_problem_text("ME self-test time skew"@, x);
}

/// With runtime notifications on, a time-skew self-test that goes from a known
/// non-ok state back to fine is announced as recovered, as the last message of
/// the poll.
pub proof fn lemma_timeskew_recovery_announced(prev: Observed, health_flag: bool, snap: Snap, x: Seq<char>)
    requires
        prev.timeskew_state == Some(x),
        x != "ok"@,
        self_test_fine(snap.timeskew_state),
    ensures
        step_messages(prev, health_flag, true, snap).len() >= 1,
        step_messages(prev, health_flag, true, snap).last()
            == "✅ ME self-test time skew снова в состоянии ok"@,
{
    lemma_problem_text("ME self-test time skew"@, x);
}

/// With runtime notifications on, a KDF self-test that goes from fine to a known
/// other state is announced as a problem naming that state.
pub proof fn lemma_kdf_problem_announced(prev: Observed, health_flag: bool, snap: Snap, x: Seq<char>)
    requires
        self_test_fine(prev.kdf_state),
        snap.kdf_state == Some(x),
        x != "ok"@,
    ensures
        step_messages(prev, health_flag, true, snap).contains(
            "🚨 ME self-test KDF сообщает о проблеме\n\nТекущее состояние: "@ + x,
        ),
{
    lemma_problem_text("ME self-test KDF"@, x);
    let m = step_messages(prev, health_flag, true, snap);
    let back = m.len() - runtime_messages(prev, snap).len();
    let r = runtime_messages(prev, snap);
    let k = r.len() - recovery_messages(prev.timeskew_state, snap.timeskew_state, "ME self-test time skew"@).len() - 1;
    assert(r[k] == state_problem_text("ME self-test KDF"@, Some(x)));
    assert(m[back + k] == r[k]);
}

/// With runtime notifications on, a KDF self-test that goes from a known non-ok
/// state back to fine is announced as recovered.
pub proof fn lemma_kdf_recovery_announced(prev: Observed, health_flag: bool, snap: Snap, x: Seq<char>)
    requires
        prev.kdf_state == Some(x),
        x != "ok"@,
        self_test_fine(snap.kdf_state),
    ensures
        step_messages(prev, health_flag, true, snap).contains("✅ ME self-test KDF снова в состоянии ok"@),
{
    lemma_problem_text("ME self-test KDF"@, x);
    let m = step_messages(prev, health_flag, true, snap);
    let back = m.len() - runtime_messages(prev, snap).len();
    let r = runtime_messages(prev, snap);
    let k = r.len() - recovery_messages(prev.timeskew_state, snap.timeskew_state, "ME self-test time skew"@).len() - 1;
    assert(r[k] == state_ok_text("ME self-test KDF"@));
    assert(m[back + k] == r[k]);
}

} // verus!
