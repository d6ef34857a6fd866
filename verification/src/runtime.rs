//! How the telemt process is managed on the host (systemd, an external
//! supervisor, or not at all), and the reading of `systemctl` and
//! `journalctl` output.

use vstd::prelude::*;

use crate::text::{
    lines, lines_chars, lit, parse_i64, parse_i64_spec, push_str, str_chars, string_from_chars,
    trim, trim_chars, views_of,
};

verus! {

/// Integration mode with the OS or supervisor (the `[runtime]` section).
#[derive(Debug, Clone, Copy, PartialEq, Eq, Structural)]
pub enum RuntimeMode {
    Systemd,
    External,
    Unmanaged,
}

impl RuntimeMode {
    pub open spec fn text(self) -> Seq<char> {
        match self {
            RuntimeMode::Systemd => "systemd"@,
            RuntimeMode::External => "external"@,
            RuntimeMode::Unmanaged => "none"@,
        }
    }

    pub fn as_str(self) -> (r: &'static str)
        ensures
            r@ == self.text(),
    {
        match self {
            RuntimeMode::Systemd => "systemd",
            RuntimeMode::External => "external",
            RuntimeMode::Unmanaged => "none",
        }
    }
}

#[derive(Debug, Clone, Copy, PartialEq, Eq, Structural)]
pub struct RuntimeCapabilities {
    pub shows_systemd_unit: bool,
    pub shows_journal_tail: bool,
    pub can_start: bool,
    pub can_stop: bool,
    pub can_restart: bool,
    pub can_reload_config: bool,
}

#[derive(Debug)]
pub struct ServiceResult {
    pub success: bool,
    pub stderr: String,
}

#[derive(Debug, Clone)]
pub struct ServiceSummary {
    pub success: bool,
    pub active_state: String,
    pub sub_state: String,
    pub unit_file_state: String,
    pub main_pid: Option<i64>,
    pub exec_main_status: Option<i64>,
    pub error: Option<String>,
}

#[derive(Debug, Clone)]
pub struct ServiceEvents {
    pub success: bool,
    pub lines: Vec<String>,
    pub error: Option<String>,
}

/// The name of the systemd unit of telemt.
#[derive(Debug, Clone)]
pub struct ServiceController {
    service_name: String,
}

impl ServiceController {
    pub closed spec fn name(&self) -> Seq<char> {
        self.service_name@
    }

    pub fn new(service_name: String) -> (r: ServiceController)
        ensures
            r.name() == service_name@,
    {
        ServiceController { service_name }
    }

    pub fn service_name(&self) -> (r: &str)
        ensures
            r@ == self.name(),
    {
        self.service_name.as_str()
    }
}

#[derive(Debug, Clone)]
enum TelemtRuntimeInner {
    Systemd(ServiceController),
    External { label: String },
    Unmanaged,
}

/// The one place that decides between `systemctl`/`journalctl`, API-only screens
/// and the legacy reload.
#[derive(Debug, Clone)]
pub struct TelemtRuntime {
    inner: TelemtRuntimeInner,
}

/// What a runtime is, as far as its behaviour goes.
pub enum RuntimeKind {
    Systemd { unit: Seq<char> },
    External { label: Seq<char> },
    Unmanaged,
}

/// The label shown for an external supervisor without a configured one.
pub open spec fn default_external_label() -> Seq<char> {
    "внешний supervisor"@
}

pub open spec fn blank(s: Seq<char>) -> bool {
    trim(s).len() == 0
}

impl TelemtRuntime {
    pub closed spec fn kind(&self) -> RuntimeKind {
        match &self.inner {
            TelemtRuntimeInner::Systemd(s) => RuntimeKind::Systemd { unit: s.name() },
            TelemtRuntimeInner::External { label } => RuntimeKind::External { label: label@ },
            TelemtRuntimeInner::Unmanaged => RuntimeKind::Unmanaged,
        }
    }

    /// Builds the runtime from the effective settings once the configuration is loaded.
    pub fn new(mode: RuntimeMode, systemd_unit: String, external_label: Option<String>) -> (r:
        TelemtRuntime)
        ensures
            mode == RuntimeMode::Systemd ==> r.kind() == (RuntimeKind::Systemd {
                unit: systemd_unit@,
            }),
            mode == RuntimeMode::External ==> r.kind() == (RuntimeKind::External {
                label: match external_label {
                    Some(l) => if blank(l@) {
                        default_external_label()
                    } else {
                        l@
                    },
                    None => default_external_label(),
                },
            }),
            mode == RuntimeMode::Unmanaged ==> r.kind() == RuntimeKind::Unmanaged,
    {
        let inner = match mode {
            RuntimeMode::Systemd => TelemtRuntimeInner::Systemd(
                ServiceController::new(systemd_unit),
            ),
            RuntimeMode::External => {
                let label = match external_label {
                    Some(l) => {
                        let v = str_chars(l.as_str());
                        let t = trim_chars(v.as_slice());
                        if t.len() == 0 {
                            lit("внешний supervisor")
                        } else {
                            l
                        }
                    },
                    None => lit("внешний supervisor"),
                };
                TelemtRuntimeInner::External { label }
            },
            RuntimeMode::Unmanaged => TelemtRuntimeInner::Unmanaged,
        };
        TelemtRuntime { inner }
    }

    pub fn capabilities(&self) -> (r: RuntimeCapabilities)
        ensures
            ({
                let managed = self.kind() is Systemd;
                r == RuntimeCapabilities {
                    shows_systemd_unit: managed,
                    shows_journal_tail: managed,
                    can_start: managed,
                    can_stop: managed,
                    can_restart: managed,
                    can_reload_config: managed,
                }
            }),
    {
        match &self.inner {
            TelemtRuntimeInner::Systemd(_) => RuntimeCapabilities {
                shows_systemd_unit: true,
                shows_journal_tail: true,
                can_start: true,
                can_stop: true,
                can_restart: true,
                can_reload_config: true,
            },
            TelemtRuntimeInner::External { .. } | TelemtRuntimeInner::Unmanaged => {
                RuntimeCapabilities {
                    shows_systemd_unit: false,
                    shows_journal_tail: false,
                    can_start: false,
                    can_stop: false,
                    can_restart: false,
                    can_reload_config: false,
                }
            },
        }
    }

    /// The unit name or label shown on the status screen.
    pub fn display_label(&self) -> (r: String)
        ensures
            r@ == match self.kind() {
                RuntimeKind::Systemd { unit } => unit,
                RuntimeKind::External { label } => label,
                RuntimeKind::Unmanaged => "telemt (без host-управления)"@,
            },
    {
        match &self.inner {
            TelemtRuntimeInner::Systemd(s) => lit(s.service_name()),
            TelemtRuntimeInner::External { label } => label.clone(),
            TelemtRuntimeInner::Unmanaged => lit("telemt (без host-управления)"),
        }
    }

    /// The systemd unit, when the runtime manages one.
    pub fn systemd_unit(&self) -> (r: Option<String>)
        ensures
            (r is Some) == (self.kind() is Systemd),
            r matches Some(u) ==> self.kind() == (RuntimeKind::Systemd { unit: u@ }),
    {
        match &self.inner {
            TelemtRuntimeInner::Systemd(s) => Some(lit(s.service_name())),
            _ => None,
        }
    }

    /// The status summary of a runtime that is not systemd; `None` for systemd,
    /// whose summary comes from `systemctl show`.
    pub fn unmanaged_summary(&self) -> (r: Option<ServiceSummary>)
        ensures
            (r is Some) == !(self.kind() is Systemd),
            r matches Some(s) ==> {
                &&& s.success
                &&& s.unit_file_state@ == "—"@
                &&& s.main_pid is None
                &&& s.exec_main_status is None
                &&& s.error is None
                &&& match self.kind() {
                    RuntimeKind::External { label } => s.active_state@ == "external"@
                        && s.sub_state@ == label,
                    _ => s.active_state@ == "n/a"@ && s.sub_state@ == "none"@,
                }
            },
    {
        match &self.inner {
            TelemtRuntimeInner::Systemd(_) => None,
            TelemtRuntimeInner::External { label } => Some(
                ServiceSummary {
                    success: true,
                    active_state: lit("external"),
                    sub_state: label.clone(),
                    unit_file_state: lit("—"),
                    main_pid: None,
                    exec_main_status: None,
                    error: None,
                },
            ),
            TelemtRuntimeInner::Unmanaged => Some(
                ServiceSummary {
                    success: true,
                    active_state: lit("n/a"),
                    sub_state: lit("none"),
                    unit_file_state: lit("—"),
                    main_pid: None,
                    exec_main_status: None,
                    error: None,
                },
            ),
        }
    }

    /// The journal of a runtime that is not systemd; `None` for systemd.
    pub fn unmanaged_events(&self) -> (r: Option<ServiceEvents>)
        ensures
            (r is Some) == !(self.kind() is Systemd),
            r matches Some(e) ==> {
                &&& e.success
                &&& e.error is None
                &&& e.lines@.len() == 1
                &&& e.lines@[0]@ == if self.kind() is External {
                    "Журнал systemd недоступен: процесс telemt управляется внешне."@
                } else {
                    "Режим runtime=none: журнал unit не используется."@
                }
            },
    {
        match &self.inner {
            TelemtRuntimeInner::Systemd(_) => None,
            TelemtRuntimeInner::External { .. } => Some(
                ServiceEvents {
                    success: true,
                    lines: vec![lit("Журнал systemd недоступен: процесс telemt управляется внешне.")],
                    error: None,
                },
            ),
            TelemtRuntimeInner::Unmanaged => Some(
                ServiceEvents {
                    success: true,
                    lines: vec![lit("Режим runtime=none: журнал unit не используется.")],
                    error: None,
                },
            ),
        }
    }

    /// The answer to a config reload when no systemd unit is managed; `None` for systemd.
    pub fn unmanaged_reload_result(&self) -> (r: Option<ServiceResult>)
        ensures
            (r is Some) == !(self.kind() is Systemd),
            r matches Some(res) ==> !res.success && res.stderr@ == reload_refusal_text(),
    {
        match &self.inner {
            TelemtRuntimeInner::Systemd(_) => None,
            _ => Some(
                ServiceResult {
                    success: false,
                    stderr: lit(
                        "В режиме runtime external/none нельзя перечитать конфиг через systemd; перезапустите telemt вручную (контейнер/supervisor).",
                    ),
                },
            ),
        }
    }
}

pub open spec fn reload_refusal_text() -> Seq<char> {
    "В режиме runtime external/none нельзя перечитать конфиг через systemd; перезапустите telemt вручную (контейнер/supervisor)."@
}

pub open spec fn unsupported_action_text(action: Seq<char>) -> Seq<char> {
    "Действие «"@ + action
        + "» недоступно в текущем режиме runtime (используйте control API и внешний supervisor)."@
}

/// The refusal of a start/stop/restart/status request outside systemd.
pub fn unsupported_action(action: &str) -> (r: ServiceResult)
    ensures
        !r.success,
        r.stderr@ == unsupported_action_text(action@),
{
    let mut s = String::new();
    push_str(&mut s, "Действие «");
    push_str(&mut s, action);
    push_str(
        &mut s,
        "» недоступно в текущем режиме runtime (используйте control API и внешний supervisor).",
    );
    assert(s@ =~= unsupported_action_text(action@));
    ServiceResult { success: false, stderr: s }
}

// ---------------------------------------------------------------------
// `systemctl show` and `journalctl` output
// ---------------------------------------------------------------------

/// The fields of `systemctl show` that the status screen reads.
pub struct SummaryFields {
    pub active_state: Seq<char>,
    pub sub_state: Seq<char>,
    pub unit_file_state: Seq<char>,
    pub main_pid: Option<i64>,
    pub exec_main_status: Option<i64>,
}

pub open spec fn initial_fields() -> SummaryFields {
    SummaryFields {
        active_state: "unknown"@,
        sub_state: "unknown"@,
        unit_file_state: "unknown"@,
        main_pid: None,
        exec_main_status: None,
    }
}

pub open spec fn starts_with(s: Seq<char>, p: Seq<char>) -> bool {
    p.len() <= s.len() && s.take(p.len() as int) == p
}

pub open spec fn after(s: Seq<char>, p: Seq<char>) -> Seq<char> {
    s.skip(p.len() as int)
}

pub open spec fn positive(v: Option<i64>) -> Option<i64> {
    match v {
        Some(x) => if x > 0 {
            Some(x)
        } else {
            None
        },
        None => None,
    }
}

pub open spec fn non_negative(v: Option<i64>) -> Option<i64> {
    match v {
        Some(x) => if x >= 0 {
            Some(x)
        } else {
            None
        },
        None => None,
    }
}

/// One line of `systemctl show` applied to the fields read so far; a later line
/// for the same property wins.
pub open spec fn apply_show_line(f: SummaryFields, line: Seq<char>) -> SummaryFields {
    if starts_with(line, "ActiveState="@) {
        SummaryFields { active_state: trim(after(line, "ActiveState="@)), ..f }
    } else if starts_with(line, "SubState="@) {
        SummaryFields { sub_state: trim(after(line, "SubState="@)), ..f }
    } else if starts_with(line, "UnitFileState="@) {
        SummaryFields { unit_file_state: trim(after(line, "UnitFileState="@)), ..f }
    } else if starts_with(line, "MainPID="@) {
        SummaryFields {
            main_pid: positive(parse_i64_spec(trim(after(line, "MainPID="@)))),
            ..f
        }
    } else if starts_with(line, "ExecMainStatus="@) {
        SummaryFields {
            exec_main_status: non_negative(parse_i64_spec(trim(after(line, "ExecMainStatus="@)))),
            ..f
        }
    } else {
        f
    }
}

pub open spec fn show_fields(ls: Seq<Seq<char>>) -> SummaryFields
    decreases ls.len(),
{
    if ls.len() == 0 {
        initial_fields()
    } else {
        apply_show_line(show_fields(ls.drop_last()), ls.last())
    }
}

/// The summary that a successful `systemctl show` output stands for.
pub open spec fn summary_from_show(stdout: Seq<char>) -> SummaryFields {
    show_fields(lines(stdout))
}

fn value_after(line: &[char], prefix: &str) -> (r: Option<Vec<char>>)
    ensures
        r is Some <==> starts_with(line@, prefix@),
        r matches Some(v) ==> v@ == trim(after(line@, prefix@)),
{
    match crate::text::strip_prefix_chars(line, prefix) {
        Some(rest) => Some(trim_chars(rest.as_slice())),
        None => None,
    }
}

/// Reads the output of a successful `systemctl show --property=...`.
pub fn parse_service_summary(stdout: &str) -> (r: ServiceSummary)
    ensures
        r.success,
        r.error is None,
        r.active_state@ == summary_from_show(stdout@).active_state,
        r.sub_state@ == summary_from_show(stdout@).sub_state,
        r.unit_file_state@ == summary_from_show(stdout@).unit_file_state,
        r.main_pid == summary_from_show(stdout@).main_pid,
        r.exec_main_status == summary_from_show(stdout@).exec_main_status,
{
    let v = str_chars(stdout);
    let ls = lines_chars(v.as_slice());
    let ghost lsv = views_of(ls@);
    let mut active_state = lit("unknown");
    let mut sub_state = lit("unknown");
    let mut unit_file_state = lit("unknown");
    let mut main_pid: Option<i64> = None;
    let mut exec_main_status: Option<i64> = None;
    assert(lsv.take(0) =~= Seq::<Seq<char>>::empty());
    for i in 0..ls.len()
        invariant
            lsv == views_of(ls@),
            ({
                let f = show_fields(lsv.take(i as int));
                &&& active_state@ == f.active_state
                &&& sub_state@ == f.sub_state
                &&& unit_file_state@ == f.unit_file_state
                &&& main_pid == f.main_pid
                &&& exec_main_status == f.exec_main_status
            }),
    {
        let line = ls[i].as_slice();
        assert(lsv.take(i + 1).drop_last() =~= lsv.take(i as int));
        assert(lsv.take(i + 1).last() == line@);
        if let Some(value) = value_after(line, "ActiveState=") {
            active_state = string_from_chars(value.as_slice());
        } else if let Some(value) = value_after(line, "SubState=") {
            sub_state = string_from_chars(value.as_slice());
        } else if let Some(value) = value_after(line, "UnitFileState=") {
            unit_file_state = string_from_chars(value.as_slice());
        } else if let Some(value) = value_after(line, "MainPID=") {
            main_pid = match parse_i64(value.as_slice()) {
                Some(pid) => if pid > 0 {
                    Some(pid)
                } else {
                    None
                },
                None => None,
            };
        } else if let Some(value) = value_after(line, "ExecMainStatus=") {
            exec_main_status = match parse_i64(value.as_slice()) {
                Some(status) => if status >= 0 {
                    Some(status)
                } else {
                    None
                },
                None => None,
            };
        }
    }
    assert(lsv.take(ls@.len() as int) =~= lsv);
    ServiceSummary {
        success: true,
        active_state,
        sub_state,
        unit_file_state,
        main_pid,
        exec_main_status,
        error: None,
    }
}

/// The summary when `systemctl show` failed or could not run.
pub fn failed_summary(error: String) -> (r: ServiceSummary)
    ensures
        !r.success,
        r.active_state@ == "unknown"@,
        r.sub_state@ == "unknown"@,
        r.unit_file_state@ == "unknown"@,
        r.main_pid is None,
        r.exec_main_status is None,
        r.error == Some(error),
{
    ServiceSummary {
        success: false,
        active_state: lit("unknown"),
        sub_state: lit("unknown"),
        unit_file_state: lit("unknown"),
        main_pid: None,
        exec_main_status: None,
        error: Some(error),
    }
}

/// The journal lines that are kept: trimmed, empty ones dropped.
pub open spec fn journal_lines(ls: Seq<Seq<char>>) -> Seq<Seq<char>>
    decreases ls.len(),
{
    if ls.len() == 0 {
        Seq::<Seq<char>>::empty()
    } else {
        let prev = journal_lines(ls.drop_last());
        let t = trim(ls.last());
        if t.len() == 0 {
            prev
        } else {
            prev.push(t)
        }
    }
}

/// Reads the output of a successful `journalctl -u <unit> -n <limit>`.
pub fn parse_journal(stdout: &str) -> (r: ServiceEvents)
    ensures
        r.success,
        r.error is None,
        crate::text::string_views(r.lines@) == journal_lines(lines(stdout@)),
{
    let v = str_chars(stdout);
    let ls = lines_chars(v.as_slice());
    let ghost lsv = views_of(ls@);
    let mut out: Vec<String> = Vec::new();
    assert(lsv.take(0) =~= Seq::<Seq<char>>::empty());
    for i in 0..ls.len()
        invariant
            lsv == views_of(ls@),
            crate::text::string_views(out@) == journal_lines(lsv.take(i as int)),
    {
        assert(lsv.take(i + 1).drop_last() =~= lsv.take(i as int));
        assert(lsv.take(i + 1).last() == ls@[i as int]@);
        let t = trim_chars(ls[i].as_slice());
        if t.len() > 0 {
            let ghost before = crate::text::string_views(out@);
            out.push(string_from_chars(t.as_slice()));
            assert(crate::text::string_views(out@) =~= before.push(t@));
        }
    }
    assert(lsv.take(ls@.len() as int) =~= lsv);
    ServiceEvents { success: true, lines: out, error: None }
}

/// The events when `journalctl` failed or could not run.
pub fn failed_events(error: String) -> (r: ServiceEvents)
    ensures
        !r.success,
        r.lines@.len() == 0,
        r.error == Some(error),
{
    ServiceEvents { success: false, lines: Vec::new(), error: Some(error) }
}

// ---------------------------------------------------------------------
// Running systemctl
// ---------------------------------------------------------------------

/// The arguments of `systemctl <action> <unit>`.
pub fn systemctl_args(action: &str, unit: &str) -> (r: Vec<String>)
    ensures
        crate::text::string_views(r@) == seq![action@, unit@],
{
    let r = vec![lit(action), lit(unit)];
    assert(crate::text::string_views(r@) =~= seq![action@, unit@]);
    r
}

/// The arguments that ask systemd to send SIGHUP to the unit's main process.
pub fn reload_signal_args(unit: &str) -> (r: Vec<String>)
    ensures
        crate::text::string_views(r@) == seq!["kill"@, "-s"@, "HUP"@, "--kill-who=main"@, unit@],
{
    let r = vec![lit("kill"), lit("-s"), lit("HUP"), lit("--kill-who=main"), lit(unit)];
    assert(crate::text::string_views(r@) =~= seq!["kill"@, "-s"@, "HUP"@, "--kill-who=main"@, unit@]);
    r
}

/// The result of a finished systemctl: its exit status and its error output trimmed.
pub fn command_result(success: bool, stderr: &str) -> (r: ServiceResult)
    ensures
        r.success == success,
        r.stderr@ == trim(stderr@),
{
    ServiceResult { success, stderr: crate::text::trim_str(stderr) }
}

/// The result when systemctl could not be started at all.
pub fn spawn_failure(error: &str) -> (r: ServiceResult)
    ensures
        !r.success,
        r.stderr@ == "Ошибка запуска systemctl: "@ + error@,
{
    let mut s = lit("Ошибка запуска systemctl: ");
    push_str(&mut s, error);
    ServiceResult { success: false, stderr: s }
}

/// After the configuration changed: the result when SIGHUP reached telemt,
/// else none, and the unit is restarted instead.
pub fn config_reload_result(signal_sent: bool) -> (r: Option<ServiceResult>)
    ensures
        signal_sent ==> (r matches Some(x) && x.success && x.stderr@ == "Конфиг перечитан (systemctl kill -s HUP --kill-who=main)"@),
        !signal_sent ==> r is None,
{
    if signal_sent {
        Some(ServiceResult { success: true, stderr: lit("Конфиг перечитан (systemctl kill -s HUP --kill-who=main)") })
    } else {
        None
    }
}

} // verus!
