//! The data exchanged with telemt (control API first, legacy file as
//! fallback) and the rules that map API answers onto the bot's own records.

use vstd::prelude::*;

use crate::config::TelemtApiConfig;
use crate::text::{lit, push_str, str_chars, string_from_chars, trim};

verus! {

#[derive(Debug, Clone, Copy, PartialEq, Eq, Structural)]
pub enum TelemtBackendMode {
    LegacyFile,
    ControlApi,
}

impl TelemtBackendMode {
    pub open spec fn text(self) -> Seq<char> {
        match self {
            TelemtBackendMode::LegacyFile => "legacy_file"@,
            TelemtBackendMode::ControlApi => "control_api"@,
        }
    }

    pub fn as_str(self) -> (r: &'static str)
        ensures
            r@ == self.text(),
    {
        match self {
            TelemtBackendMode::LegacyFile => "legacy_file",
            TelemtBackendMode::ControlApi => "control_api",
        }
    }
}

#[derive(Debug, Clone)]
pub struct ProvisionedUser {
    pub secret: String,
    pub link: Option<String>,
    pub mode: TelemtBackendMode,
    pub revision: Option<String>,
}

#[derive(Debug, Clone)]
pub struct DeleteUserResult {
    pub removed: bool,
    pub mode: TelemtBackendMode,
    pub revision: Option<String>,
}

/// Load figures of telemt. The uptime, a float in telemt's answer, is held
/// as the text it is shown with (whole seconds).
#[derive(Debug, Clone)]
pub struct TelemtStatsSummary {
    pub uptime_text: String,
    pub connections_total: u64,
    pub connections_bad_total: u64,
    pub handshake_timeouts_total: u64,
    pub configured_users: usize,
}

/// The state of the telemt daemon as its control API reports it. The
/// startup progress, a float in telemt's answer, is held as the text it is
/// shown with ("42.5%").
#[derive(Debug, Clone)]
pub struct TelemtRuntimeSnapshot {
    pub source: TelemtBackendMode,
    pub health_status: String,
    pub api_read_only: bool,
    pub build_version: Option<String>,
    pub transport_mode: Option<String>,
    pub startup_status: Option<String>,
    pub startup_stage: Option<String>,
    pub startup_progress_text: Option<String>,
    pub api_whitelist_enabled: Option<bool>,
    pub api_whitelist_entries: Option<usize>,
    pub api_auth_header_enabled: Option<bool>,
    pub accepting_new_connections: Option<bool>,
    pub me_runtime_ready: Option<bool>,
    pub use_middle_proxy: Option<bool>,
    pub route_mode: Option<String>,
    pub me_selftest_kdf_state: Option<String>,
    pub me_selftest_timeskew_state: Option<String>,
    pub me_selftest_enabled: Option<bool>,
    pub upstream_configured_total: Option<u64>,
    pub upstream_healthy_total: Option<u64>,
    pub upstream_unhealthy_total: Option<u64>,
    pub events: Vec<TelemtRuntimeEvent>,
    pub last_revision: Option<String>,
}

/// One data center as an upstream reaches it. The latency, a float in
/// telemt's answer, is held as the text it is shown with ("42ms"); none when
/// the data center is unreachable.
#[derive(Debug, Clone)]
pub struct TelemtUpstreamDc {
    pub dc: i64,
    pub latency_text: Option<String>,
}

/// An upstream and its data centers.
#[derive(Debug, Clone)]
pub struct TelemtUpstream {
    pub dc_list: Vec<TelemtUpstreamDc>,
    pub last_check_age_secs: u64,
}

/// The health of telemt's upstreams.
#[derive(Debug, Clone)]
pub struct TelemtUpstreamsSummary {
    pub configured_total: u64,
    pub healthy_total: u64,
    pub route_kinds: String,
    pub upstreams: Vec<TelemtUpstream>,
}

#[derive(Debug, Clone)]
pub struct TelemtRuntimeEvent {
    pub ts_epoch_secs: i64,
    pub event_type: String,
    pub context: String,
}

#[derive(Debug, Clone)]
pub struct TelemtUserInfo {
    pub source: TelemtBackendMode,
    pub user_ad_tag: Option<String>,
    pub max_tcp_conns: Option<usize>,
    pub expiration_rfc3339: Option<String>,
    pub data_quota_bytes: Option<u64>,
    pub max_unique_ips: Option<usize>,
    pub current_connections: Option<u64>,
    pub active_unique_ips: Option<usize>,
    pub active_unique_ips_list: Vec<String>,
    pub recent_unique_ips: Option<usize>,
    pub recent_unique_ips_list: Vec<String>,
    pub total_octets: Option<u64>,
    pub links: Vec<String>,
}

/// Limits to change on a user; unset fields stay as they are.
#[derive(Debug, Clone, Default)]
pub struct TelemtUserPatch {
    pub max_tcp_conns: Option<usize>,
    pub expiration_rfc3339: Option<String>,
    pub data_quota_bytes: Option<u64>,
    pub max_unique_ips: Option<usize>,
}

impl TelemtUserPatch {
    pub fn is_empty(&self) -> (r: bool)
        ensures
            r == (self.max_tcp_conns is None && self.expiration_rfc3339 is None
                && self.data_quota_bytes is None && self.max_unique_ips is None),
    {
        self.max_tcp_conns.is_none() && self.expiration_rfc3339.is_none()
            && self.data_quota_bytes.is_none() && self.max_unique_ips.is_none()
    }
}

#[derive(Debug, Clone)]
pub struct TelemtConnectionTopUser {
    pub username: String,
    pub current_connections: u64,
    pub total_octets: u64,
}

#[derive(Debug, Clone)]
pub struct TelemtConnectionsSummary {
    pub current_connections: u64,
    pub current_connections_me: u64,
    pub current_connections_direct: u64,
    pub active_users: usize,
    pub top_by_connections: Vec<TelemtConnectionTopUser>,
    pub top_by_throughput: Vec<TelemtConnectionTopUser>,
}

#[derive(Debug, Clone)]
pub struct TelemtMonitorSnapshot {
    pub health_status: String,
    pub accepting_new_connections: Option<bool>,
    pub me_runtime_ready: Option<bool>,
    pub upstream_unhealthy_total: Option<u64>,
    pub me_selftest_kdf_state: Option<String>,
    pub me_selftest_timeskew_state: Option<String>,
}

/// Proxy links of a user, by transport.
#[derive(Debug, Clone)]
pub struct UserLinks {
    pub classic: Vec<String>,
    pub secure: Vec<String>,
    pub tls: Vec<String>,
}

/// A user as the control API describes it.
#[derive(Debug, Clone)]
pub struct ApiUserInfo {
    pub user_ad_tag: Option<String>,
    pub max_tcp_conns: Option<usize>,
    pub expiration_rfc3339: Option<String>,
    pub data_quota_bytes: Option<u64>,
    pub max_unique_ips: Option<usize>,
    pub current_connections: u64,
    pub active_unique_ips: usize,
    pub active_unique_ips_list: Vec<String>,
    pub recent_unique_ips: usize,
    pub recent_unique_ips_list: Vec<String>,
    pub total_octets: u64,
    pub links: UserLinks,
}

/// One user of the runtime connections summary.
#[derive(Debug, Clone)]
pub struct RuntimeConnectionUserData {
    pub username: String,
    pub current_connections: u64,
    pub total_octets: u64,
}

pub open spec fn first_of(v: Seq<String>) -> Option<String> {
    if v.len() > 0 {
        Some(v[0])
    } else {
        None
    }
}

/// The preferred link: TLS first, then secure, then classic.
pub open spec fn best_link(links: UserLinks) -> Option<String> {
    if links.tls@.len() > 0 {
        first_of(links.tls@)
    } else if links.secure@.len() > 0 {
        first_of(links.secure@)
    } else {
        first_of(links.classic@)
    }
}

pub fn pick_best_link(links: &UserLinks) -> (r: Option<String>)
    ensures
        r == best_link(*links),
{
    if links.tls.len() > 0 {
        Some(links.tls[0].clone())
    } else if links.secure.len() > 0 {
        Some(links.secure[0].clone())
    } else if links.classic.len() > 0 {
        Some(links.classic[0].clone())
    } else {
        None
    }
}

fn append_cloned(out: &mut Vec<String>, v: &Vec<String>)
    ensures
        final(out)@ == old(out)@ + v@,
{
    for i in 0..v.len()
        invariant
            out@ == old(out)@ + v@.take(i as int),
    {
        out.push(v[i].clone());
        assert(v@.take(i + 1) =~= v@.take(i as int).push(v@[i as int]));
        assert(old(out)@ + v@.take(i + 1) =~= (old(out)@ + v@.take(i as int)).push(v@[i as int]));
    }
    assert(v@.take(v@.len() as int) =~= v@);
}

/// Every link: the TLS ones, then the secure ones, then the classic ones.
pub fn collect_links(links: &UserLinks) -> (r: Vec<String>)
    ensures
        r@ == links.tls@ + links.secure@ + links.classic@,
{
    let mut out: Vec<String> = Vec::new();
    append_cloned(&mut out, &links.tls);
    append_cloned(&mut out, &links.secure);
    append_cloned(&mut out, &links.classic);
    assert(out@ =~= links.tls@ + links.secure@ + links.classic@);
    out
}

pub fn map_api_user_info(source: TelemtBackendMode, user: ApiUserInfo) -> (r: TelemtUserInfo)
    ensures
        r.source == source,
        r.user_ad_tag == user.user_ad_tag,
        r.max_tcp_conns == user.max_tcp_conns,
        r.expiration_rfc3339 == user.expiration_rfc3339,
        r.data_quota_bytes == user.data_quota_bytes,
        r.max_unique_ips == user.max_unique_ips,
        r.current_connections == Some(user.current_connections),
        r.active_unique_ips == Some(user.active_unique_ips),
        r.active_unique_ips_list == user.active_unique_ips_list,
        r.recent_unique_ips == Some(user.recent_unique_ips),
        r.recent_unique_ips_list == user.recent_unique_ips_list,
        r.total_octets == Some(user.total_octets),
        r.links@ == user.links.tls@ + user.links.secure@ + user.links.classic@,
{
    let links = collect_links(&user.links);
    TelemtUserInfo {
        source,
        user_ad_tag: user.user_ad_tag,
        max_tcp_conns: user.max_tcp_conns,
        expiration_rfc3339: user.expiration_rfc3339,
        data_quota_bytes: user.data_quota_bytes,
        max_unique_ips: user.max_unique_ips,
        current_connections: Some(user.current_connections),
        active_unique_ips: Some(user.active_unique_ips),
        active_unique_ips_list: user.active_unique_ips_list,
        recent_unique_ips: Some(user.recent_unique_ips),
        recent_unique_ips_list: user.recent_unique_ips_list,
        total_octets: Some(user.total_octets),
        links,
    }
}

pub fn map_connection_top_user(user: RuntimeConnectionUserData) -> (r: TelemtConnectionTopUser)
    ensures
        r.username == user.username,
        r.current_connections == user.current_connections,
        r.total_octets == user.total_octets,
{
    TelemtConnectionTopUser {
        username: user.username,
        current_connections: user.current_connections,
        total_octets: user.total_octets,
    }
}

/// What the legacy file path knows about a user: only the link built from the secret.
pub fn legacy_user_info(link: String) -> (r: TelemtUserInfo)
    ensures
        r.source == TelemtBackendMode::LegacyFile,
        r.user_ad_tag is None,
        r.max_tcp_conns is None,
        r.expiration_rfc3339 is None,
        r.data_quota_bytes is None,
        r.max_unique_ips is None,
        r.current_connections is None,
        r.active_unique_ips is None,
        r.active_unique_ips_list@.len() == 0,
        r.recent_unique_ips is None,
        r.recent_unique_ips_list@.len() == 0,
        r.total_octets is None,
        r.links@ == seq![link],
{
    TelemtUserInfo {
        source: TelemtBackendMode::LegacyFile,
        user_ad_tag: None,
        max_tcp_conns: None,
        expiration_rfc3339: None,
        data_quota_bytes: None,
        max_unique_ips: None,
        current_connections: None,
        active_unique_ips: None,
        active_unique_ips_list: Vec::new(),
        recent_unique_ips: None,
        recent_unique_ips_list: Vec::new(),
        total_octets: None,
        links: vec![link],
    }
}

/// The single point that chooses between the control API and the legacy file path.
#[derive(Debug, Clone)]
pub struct TelemtBackend {
    mode: TelemtBackendMode,
}

impl TelemtBackend {
    pub closed spec fn mode_spec(&self) -> TelemtBackendMode {
        self.mode
    }

    /// The control API when it is enabled in the settings, else the legacy file.
    pub fn new(api_cfg: &TelemtApiConfig) -> (r: TelemtBackend)
        ensures
            r.mode_spec() == if api_cfg.enabled {
                TelemtBackendMode::ControlApi
            } else {
                TelemtBackendMode::LegacyFile
            },
    {
        let mode = if api_cfg.enabled {
            TelemtBackendMode::ControlApi
        } else {
            TelemtBackendMode::LegacyFile
        };
        TelemtBackend { mode }
    }

    pub fn mode(&self) -> (r: TelemtBackendMode)
        ensures
            r == self.mode_spec(),
    {
        self.mode
    }

    /// Whether user limits can be changed: only through the control API.
    pub fn supports_patch(&self) -> (r: bool)
        ensures
            r == (self.mode_spec() == TelemtBackendMode::ControlApi),
    {
        match self.mode {
            TelemtBackendMode::ControlApi => true,
            TelemtBackendMode::LegacyFile => false,
        }
    }
}

// ---------------------------------------------------------------------
// Control API client rules
// ---------------------------------------------------------------------

/// The text without every trailing `/` (`trim_end_matches('/')`).
pub open spec fn trim_trailing_slashes(s: Seq<char>) -> Seq<char>
    decreases s.len(),
{
    if s.len() > 0 && s.last() == '/' {
        trim_trailing_slashes(s.drop_last())
    } else {
        s
    }
}

/// Base address and authorization of the control API.
#[derive(Debug, Clone)]
pub struct ApiEndpoint {
    pub base_url: String,
    pub auth_header: Option<String>,
}

/// The authorization header that is sent: the configured one unless it is blank.
pub open spec fn effective_auth(v: Option<String>) -> Option<Seq<char>> {
    match v {
        Some(s) => if trim(s@).len() > 0 {
            Some(s@)
        } else {
            None
        },
        None => None,
    }
}

impl ApiEndpoint {
    pub fn new(api_cfg: &TelemtApiConfig) -> (r: ApiEndpoint)
        ensures
            r.base_url@ == trim_trailing_slashes(api_cfg.base_url@),
            match r.auth_header {
                Some(h) => effective_auth(api_cfg.auth_header) == Some(h@),
                None => effective_auth(api_cfg.auth_header) is None,
            },
    {
        let v = str_chars(api_cfg.base_url.as_str());
        let mut n = v.len();
        assert(v@.take(v@.len() as int) =~= v@);
        while n > 0 && v[n - 1] == '/'
            invariant
                n <= v@.len(),
                trim_trailing_slashes(v@) == trim_trailing_slashes(v@.take(n as int)),
            decreases n,
        {
            assert(v@.take(n as int).drop_last() =~= v@.take(n - 1));
            n = n - 1;
        }
        let base_url = string_from_chars(&v.as_slice()[0..n]);
        assert(v@.take(n as int) == v@.subrange(0, n as int));
        let auth_header = match &api_cfg.auth_header {
            Some(h) => {
                let hv = str_chars(h.as_str());
                let t = crate::text::trim_chars(hv.as_slice());
                if t.len() > 0 {
                    Some(h.clone())
                } else {
                    None
                }
            },
            None => None,
        };
        ApiEndpoint { base_url, auth_header }
    }

    /// The full address of an API path.
    pub fn endpoint(&self, path: &str) -> (r: String)
        ensures
            r@ == self.base_url@ + path@,
    {
        let mut s = self.base_url.clone();
        push_str(&mut s, path);
        s
    }
}

/// A failed control API answer.
#[derive(Debug, Clone)]
pub struct TelemtApiError {
    pub status: u16,
    pub code: Option<String>,
    pub message: String,
}

pub open spec fn is_revision_conflict(status: u16, code: Option<Seq<char>>) -> bool {
    status == 409 && code == Some("revision_conflict"@)
}

/// Whether a failed mutation is sent once more: on a revision conflict, and only once.
pub fn should_retry_mutation(status: u16, code: Option<&str>, retried: bool) -> (r: bool)
    ensures
        r == (!retried && is_revision_conflict(
            status,
            match code {
                Some(c) => Some(c@),
                None => None,
            },
        )),
{
    if retried || status != 409 {
        return false;
    }
    match code {
        Some(c) => {
            let v = str_chars(c);
            crate::text::chars_eq_str(v.as_slice(), "revision_conflict")
        },
        None => false,
    }
}

/// The error of a failed answer: the message of the error envelope when the body
/// held one, else the trimmed body text.
pub fn api_error_from(status: u16, envelope: Option<(String, String)>, body_text: &str) -> (r:
    TelemtApiError)
    ensures
        r.status == status,
        match envelope {
            Some((code, message)) => r.code == Some(code) && r.message == message,
            None => r.code is None && r.message@ == trim(body_text@),
        },
{
    match envelope {
        Some((code, message)) => TelemtApiError { status, code: Some(code), message },
        None => TelemtApiError {
            status,
            code: None,
            message: crate::text::trim_str(body_text),
        },
    }
}

/// The text of an API error as the bot shows it.
pub fn api_error_text(e: &TelemtApiError) -> (r: String)
    ensures
        r@ == "telemt API error ("@ + crate::text::nat_digits(e.status as nat) + "): "@
            + e.message@,
{
    let mut s = lit("telemt API error (");
    crate::text::push_u64(&mut s, e.status as u64);
    push_str(&mut s, "): ");
    push_str(&mut s, e.message.as_str());
    s
}

} // verus!
