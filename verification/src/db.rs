//! Records kept in the bot's database and the decisions taken on them:
//! registration requests, invite tokens, user groups and wizard-state expiry.

use vstd::prelude::*;

use crate::text::{lit, push_str};

verus! {

#[derive(Debug, Clone, Copy, PartialEq, Eq, Structural)]
pub enum RequestStatus {
    Pending,
    Approved,
    Rejected,
    Deleted,
}

impl RequestStatus {
    pub open spec fn text(self) -> Seq<char> {
        match self {
            RequestStatus::Pending => "pending"@,
            RequestStatus::Approved => "approved"@,
            RequestStatus::Rejected => "rejected"@,
            RequestStatus::Deleted => "deleted"@,
        }
    }

    /// The value stored in the `status` column (and shown to administrators).
    pub fn as_str(self) -> (r: &'static str)
        ensures
            r@ == self.text(),
    {
        match self {
            RequestStatus::Pending => "pending",
            RequestStatus::Approved => "approved",
            RequestStatus::Rejected => "rejected",
            RequestStatus::Deleted => "deleted",
        }
    }

    pub fn to_string(self) -> (r: String)
        ensures
            r@ == self.text(),
    {
        lit(self.as_str())
    }
}

/// A registration request, which becomes the user's record once approved.
#[derive(Debug, Clone)]
pub struct RegistrationRequest {
    pub id: i64,
    pub tg_user_id: i64,
    pub tg_username: Option<String>,
    pub tg_display_name: Option<String>,
    pub status: RequestStatus,
    pub telemt_username: Option<String>,
    pub secret: Option<String>,
    pub created_at: i64,
    pub backend_mode: Option<String>,
    pub last_sync_error: Option<String>,
    pub last_seen_revision: Option<String>,
    pub last_synced_at: Option<i64>,
    pub invite_token_id: Option<i64>,
}

/// An invite token.
#[derive(Debug, Clone)]
pub struct InviteToken {
    pub id: i64,
    pub token: String,
    pub created_at: i64,
    pub expires_at: i64,
    pub auto_approve: bool,
    pub created_by: Option<i64>,
    pub max_usage: Option<i64>,
    pub usage_count: i64,
    pub is_active: bool,
    pub default_expiration_days: Option<i32>,
    pub default_max_unique_ips: Option<i32>,
    pub default_data_quota_bytes: Option<i64>,
}

/// A group of users sharing limits and an expiry.
#[derive(Debug, Clone)]
pub struct UserGroup {
    pub id: i64,
    pub name: String,
    pub created_at: i64,
    /// Unix time at which access of the whole group ends, if any.
    pub expires_at: Option<i64>,
}

/// The answer to a user who asks to register.
#[derive(Debug, Clone)]
pub enum RegisterResult {
    NewPending(RegistrationRequest),
    AlreadyPending,
    Approved(String),
    Rejected,
}

#[derive(Debug, Clone, Copy, PartialEq, Eq, Structural)]
pub enum TokenMode {
    Manual,
    AutoApprove,
}

/// Why an invite token could not be used.
#[derive(Debug, Clone, PartialEq, Eq)]
pub enum TokenConsumeError {
    NotFound,
    Revoked,
    Expired,
    UsageLimitReached,
    Internal(String),
}

/// An invite token that was just used.
#[derive(Debug, Clone)]
pub struct ConsumedInviteToken {
    pub id: i64,
    pub token: String,
    pub mode: TokenMode,
    pub expires_at: i64,
    pub created_by: Option<i64>,
    pub usage_count: i64,
    pub max_usage: Option<i64>,
}

/// Counts of requests and tokens by state.
#[derive(Debug, Clone, Copy, PartialEq, Eq, Structural)]
pub struct AdminStats {
    pub total: i64,
    pub pending: i64,
    pub approved: i64,
    pub rejected: i64,
    pub deleted: i64,
    pub tokens_total: i64,
    pub tokens_active: i64,
    pub tokens_manual_active: i64,
    pub tokens_auto_active: i64,
    pub tokens_revoked: i64,
    pub tokens_expired: i64,
    pub tokens_exhausted: i64,
}

/// Something an administrator did.
#[derive(Debug, Clone, PartialEq, Eq)]
pub enum AdminActivityKind {
    RequestApproved { request_id: i64 },
    RequestRejected { request_id: i64 },
    TokenCreated { token: String },
    TokenRevoked { token: String },
}

/// An administrator's action and when it happened.
#[derive(Debug, Clone, PartialEq, Eq)]
pub struct AdminActivity {
    pub timestamp: i64,
    pub kind: AdminActivityKind,
}

/// How many users share one sync error.
#[derive(Debug, Clone)]
pub struct SyncErrorCount {
    pub code: String,
    pub affected_users: i64,
}

/// The state of syncing approved users with telemt.
#[derive(Debug, Clone)]
pub struct SyncHealthSummary {
    pub degraded_users: i64,
    pub approved_via_control_api: i64,
    pub approved_via_legacy: i64,
    pub top_sync_errors: Vec<SyncErrorCount>,
}

/// An activity read from a database row: the kind names which of the
/// request id and the token it needs; a missing one or an unknown kind is an
/// error naming it.
pub open spec fn activity_from_row(
    timestamp: i64,
    kind: Seq<char>,
    request_id: Option<i64>,
    token: Option<Seq<char>>,
) -> Result<(i64, int, i64, Seq<char>), Seq<char>> {
    if kind == "request_approved"@ {
        match request_id {
            Some(id) => Ok((timestamp, 0, id, Seq::<char>::empty())),
            None => Err("request_id отсутствует для request_approved"@),
        }
    } else if kind == "request_rejected"@ {
        match request_id {
            Some(id) => Ok((timestamp, 1, id, Seq::<char>::empty())),
            None => Err("request_id отсутствует для request_rejected"@),
        }
    } else if kind == "token_created"@ {
        match token {
            Some(t) => Ok((timestamp, 2, 0, t)),
            None => Err("token отсутствует для token_created"@),
        }
    } else if kind == "token_revoked"@ {
        match token {
            Some(t) => Ok((timestamp, 3, 0, t)),
            None => Err("token отсутствует для token_revoked"@),
        }
    } else {
        Err("Неизвестный тип admin activity из БД: "@ + kind)
    }
}

pub open spec fn activity_view(a: AdminActivity) -> (i64, int, i64, Seq<char>) {
    match a.kind {
        AdminActivityKind::RequestApproved { request_id } => (a.timestamp, 0, request_id, Seq::<char>::empty()),
        AdminActivityKind::RequestRejected { request_id } => (a.timestamp, 1, request_id, Seq::<char>::empty()),
        AdminActivityKind::TokenCreated { token } => (a.timestamp, 2, 0, token@),
        AdminActivityKind::TokenRevoked { token } => (a.timestamp, 3, 0, token@),
    }
}

pub fn admin_activity_from_row(
    timestamp: i64,
    kind: &str,
    request_id: Option<i64>,
    token: Option<String>,
) -> (r: Result<AdminActivity, String>)
    ensures
        match r {
            Ok(a) => activity_from_row(timestamp, kind@, request_id, crate::format::opt_view(token)) == Ok::<(i64, int, i64, Seq<char>), Seq<char>>(activity_view(a)),
            Err(m) => activity_from_row(timestamp, kind@, request_id, crate::format::opt_view(token)) == Err::<(i64, int, i64, Seq<char>), Seq<char>>(m@),
        },
{
    let k = crate::text::str_chars(kind);
    if crate::text::chars_eq_str(k.as_slice(), "request_approved") {
        match request_id {
            Some(id) => Ok(AdminActivity { timestamp, kind: AdminActivityKind::RequestApproved { request_id: id } }),
            None => Err(lit("request_id отсутствует для request_approved")),
        }
    } else if crate::text::chars_eq_str(k.as_slice(), "request_rejected") {
        match request_id {
            Some(id) => Ok(AdminActivity { timestamp, kind: AdminActivityKind::RequestRejected { request_id: id } }),
            None => Err(lit("request_id отсутствует для request_rejected")),
        }
    } else if crate::text::chars_eq_str(k.as_slice(), "token_created") {
        match token {
            Some(t) => Ok(AdminActivity { timestamp, kind: AdminActivityKind::TokenCreated { token: t } }),
            None => Err(lit("token отсутствует для token_created")),
        }
    } else if crate::text::chars_eq_str(k.as_slice(), "token_revoked") {
        match token {
            Some(t) => Ok(AdminActivity { timestamp, kind: AdminActivityKind::TokenRevoked { token: t } }),
            None => Err(lit("token отсутствует для token_revoked")),
        }
    } else {
        let mut m = lit("Неизвестный тип admin activity из БД: ");
        push_str(&mut m, kind);
        Err(m)
    }
}

// ---------------------------------------------------------------------
// Invite tokens
// ---------------------------------------------------------------------

/// A token can be used: not revoked, not expired, and below its usage limit.
pub open spec fn token_active(t: InviteToken, now: i64) -> bool {
    &&& t.is_active
    &&& t.expires_at > now
    &&& match t.max_usage {
        Some(max) => t.usage_count < max,
        None => true,
    }
}

pub fn is_token_active(t: &InviteToken, now: i64) -> (r: bool)
    ensures
        r == token_active(*t, now),
{
    t.is_active && t.expires_at > now && match t.max_usage {
        Some(max) => t.usage_count < max,
        None => true,
    }
}

pub open spec fn token_mode_spec(auto_approve: bool) -> TokenMode {
    if auto_approve {
        TokenMode::AutoApprove
    } else {
        TokenMode::Manual
    }
}

pub fn token_mode(auto_approve: bool) -> (r: TokenMode)
    ensures
        r == token_mode_spec(auto_approve),
{
    if auto_approve {
        TokenMode::AutoApprove
    } else {
        TokenMode::Manual
    }
}

/// Why a token that cannot be used was refused (a missing token is "not found").
pub open spec fn refusal(row: Option<InviteToken>, now: i64) -> TokenConsumeError {
    match row {
        None => TokenConsumeError::NotFound,
        Some(t) => if !t.is_active {
            TokenConsumeError::Revoked
        } else if t.expires_at <= now {
            TokenConsumeError::Expired
        } else if t.max_usage matches Some(max) && t.usage_count >= max {
            TokenConsumeError::UsageLimitReached
        } else {
            TokenConsumeError::NotFound
        },
    }
}

/// Classifies a refused token.
pub fn consume_refusal(row: &Option<InviteToken>, now: i64) -> (r: TokenConsumeError)
    ensures
        r == refusal(*row, now),
{
    match row {
        None => TokenConsumeError::NotFound,
        Some(t) => {
            if !t.is_active {
                TokenConsumeError::Revoked
            } else if t.expires_at <= now {
                TokenConsumeError::Expired
            } else if match t.max_usage {
                Some(max) => t.usage_count >= max,
                None => false,
            } {
                TokenConsumeError::UsageLimitReached
            } else {
                TokenConsumeError::NotFound
            }
        },
    }
}

/// Using a token: an active token has its usage counted; any other is refused
/// with its reason. `row` is the token with the used code, if one exists.
pub fn consume_invite_token(row: Option<InviteToken>, now: i64) -> (r: Result<
    ConsumedInviteToken,
    TokenConsumeError,
>)
    requires
        row matches Some(t) ==> t.usage_count < i64::MAX,
    ensures
        match row {
            Some(t) => if token_active(t, now) {
                r matches Ok(c) && c.id == t.id && c.token == t.token && c.mode == token_mode_spec(
                    t.auto_approve,
                ) && c.expires_at == t.expires_at && c.created_by == t.created_by
                    && c.usage_count == t.usage_count + 1 && c.max_usage == t.max_usage
            } else {
                r == Err::<ConsumedInviteToken, TokenConsumeError>(refusal(row, now))
            },
            None => r == Err::<ConsumedInviteToken, TokenConsumeError>(
                TokenConsumeError::NotFound,
            ),
        },
{
    match row {
        Some(t) => {
            if is_token_active(&t, now) {
                Ok(
                    ConsumedInviteToken {
                        id: t.id,
                        token: t.token,
                        mode: token_mode(t.auto_approve),
                        expires_at: t.expires_at,
                        created_by: t.created_by,
                        usage_count: t.usage_count + 1,
                        max_usage: t.max_usage,
                    },
                )
            } else {
                let row = Some(t);
                Err(consume_refusal(&row, now))
            }
        },
        None => Err(TokenConsumeError::NotFound),
    }
}

/// A usable token is never refused with "not found", and a refused existing token
/// is refused for one of the three reasons it can fail.
pub proof fn lemma_refusal_reason(t: InviteToken, now: i64)
    requires
        !token_active(t, now),
    ensures
        refusal(Some(t), now) != TokenConsumeError::NotFound,
{
}

/// A token is never used beyond its usage limit: after a successful use the count
/// is at most the limit.
pub proof fn lemma_usage_never_exceeds_limit(t: InviteToken, now: i64, max: i64)
    requires
        t.max_usage == Some(max),
        token_active(t, now),
    ensures
        t.usage_count + 1 <= max,
{
}

/// An internal failure while using a token, with its context.
pub fn map_internal_token_error(context: &str, err: &str) -> (r: TokenConsumeError)
    ensures
        r matches TokenConsumeError::Internal(m) && m@ == context@ + ": "@ + err@,
{
    let mut m = lit(context);
    push_str(&mut m, ": ");
    push_str(&mut m, err);
    TokenConsumeError::Internal(m)
}

pub open spec fn is_ascii_alnum(c: char) -> bool {
    ('0' <= c && c <= '9') || ('A' <= c && c <= 'Z') || ('a' <= c && c <= 'z')
}

/// `rand`: `len` characters drawn from `rand::distr::Alphanumeric` (the ASCII
/// letters and digits) with the thread-local generator. Which characters
/// come is chance: only their number and their kind are stated.
#[verifier::external_body]
fn random_alphanumeric(len: usize) -> (r: String)
    ensures
        r@.len() == len,
        forall|i: int| 0 <= i < len ==> is_ascii_alnum(#[trigger] r@[i]),
{
    rand::distr::SampleString::sample_string(&rand::distr::Alphanumeric, &mut rand::rng(), len)
}

/// A fresh invite code: ten random ASCII letters and digits.
pub fn generate_invite_token() -> (r: String)
    ensures
        r@.len() == 10,
        forall|i: int| 0 <= i < 10 ==> is_ascii_alnum(#[trigger] r@[i]),
{
    random_alphanumeric(10)
}

/// Why a new token's expiry cannot be computed.
#[derive(Debug, Clone, Copy, PartialEq, Eq, Structural)]
pub enum TokenExpiryError {
    /// The number of days times a day's seconds does not fit.
    DurationTooLarge,
    /// Adding the duration to the current time does not fit.
    InvalidExpiry,
}

impl TokenExpiryError {
    pub fn message(self) -> (r: String)
        ensures
            r@ == match self {
                TokenExpiryError::DurationTooLarge => "Срок действия токена слишком большой"@,
                TokenExpiryError::InvalidExpiry => "Некорректное время истечения токена"@,
            },
    {
        match self {
            TokenExpiryError::DurationTooLarge => lit("Срок действия токена слишком большой"),
            TokenExpiryError::InvalidExpiry => lit("Некорректное время истечения токена"),
        }
    }
}

pub open spec fn fits_i64(v: int) -> bool {
    i64::MIN <= v <= i64::MAX
}

/// The expiry of a token created at `now` for `days` days.
pub fn invite_expires_at(now: i64, days: i64) -> (r: Result<i64, TokenExpiryError>)
    ensures
        !fits_i64(days * 86400) ==> r == Err::<i64, TokenExpiryError>(
            TokenExpiryError::DurationTooLarge,
        ),
        fits_i64(days * 86400) && !fits_i64(now + days * 86400) ==> r == Err::<
            i64,
            TokenExpiryError,
        >(TokenExpiryError::InvalidExpiry),
        fits_i64(days * 86400) && fits_i64(now + days * 86400) ==> r == Ok::<
            i64,
            TokenExpiryError,
        >((now + days * 86400) as i64),
{
    let ttl = match days.checked_mul(86_400) {
        Some(v) => v,
        None => return Err(TokenExpiryError::DurationTooLarge),
    };
    match now.checked_add(ttl) {
        Some(v) => Ok(v),
        None => Err(TokenExpiryError::InvalidExpiry),
    }
}

// ---------------------------------------------------------------------
// Registration
// ---------------------------------------------------------------------

/// What registering does, given the user's existing request.
#[derive(Debug, Clone, PartialEq, Eq)]
pub enum RegistrationAction {
    /// Answer with the approved user's secret.
    ReturnApproved(String),
    /// Answer that the request was rejected.
    ReturnRejected,
    /// Refresh the pending request (name, time, invite) and answer "already pending".
    RefreshPending,
    /// Turn the deleted request back into a fresh pending one.
    Revive,
    /// Insert a new pending request.
    Insert,
    /// Answer "already pending" without changes.
    ReturnPending,
}

pub open spec fn registration_action_spec(existing: Option<RegistrationRequest>) -> RegistrationAction {
    match existing {
        None => RegistrationAction::Insert,
        Some(r) => match r.status {
            RequestStatus::Approved => match r.secret {
                Some(s) => RegistrationAction::ReturnApproved(s),
                None => RegistrationAction::ReturnPending,
            },
            RequestStatus::Rejected => RegistrationAction::ReturnRejected,
            RequestStatus::Pending => RegistrationAction::RefreshPending,
            RequestStatus::Deleted => RegistrationAction::Revive,
        },
    }
}

/// Decides what registering a user does from the request already stored for them.
pub fn registration_action(existing: &Option<RegistrationRequest>) -> (r: RegistrationAction)
    ensures
        r == registration_action_spec(*existing),
{
    match existing {
        None => RegistrationAction::Insert,
        Some(r) => match r.status {
            RequestStatus::Approved => match &r.secret {
                Some(s) => RegistrationAction::ReturnApproved(s.clone()),
                None => RegistrationAction::ReturnPending,
            },
            RequestStatus::Rejected => RegistrationAction::ReturnRejected,
            RequestStatus::Pending => RegistrationAction::RefreshPending,
            RequestStatus::Deleted => RegistrationAction::Revive,
        },
    }
}

/// The answer when a concurrent insert won the race: it reflects the stored request.
pub fn register_result_after_conflict(existing: Option<RegistrationRequest>) -> (r: Option<
    RegisterResult,
>)
    ensures
        match existing {
            None => r is None,
            Some(e) => match e.status {
                RequestStatus::Approved => match e.secret {
                    Some(s) => r matches Some(RegisterResult::Approved(x)) && x == s,
                    None => r matches Some(RegisterResult::AlreadyPending),
                },
                RequestStatus::Rejected => r matches Some(RegisterResult::Rejected),
                _ => r matches Some(RegisterResult::AlreadyPending),
            },
        },
{
    match existing {
        None => None,
        Some(e) => match e.status {
            RequestStatus::Approved => match e.secret {
                Some(s) => Some(RegisterResult::Approved(s)),
                None => Some(RegisterResult::AlreadyPending),
            },
            RequestStatus::Rejected => Some(RegisterResult::Rejected),
            _ => Some(RegisterResult::AlreadyPending),
        },
    }
}

/// The invite of a refreshed or revived request: the new one when given,
/// else the one it had (`COALESCE(?, invite_token_id)`).
pub open spec fn kept_invite(given: Option<i64>, old: Option<i64>) -> Option<i64> {
    match given {
        Some(i) => Some(i),
        None => old,
    }
}

/// A pending request asked for again: the names and time are renewed and the
/// invite is kept unless a new one is given; everything else stays.
pub open spec fn refreshed_pending(
    existing: RegistrationRequest,
    tg_username: Option<String>,
    tg_display_name: Option<String>,
    invite_token_id: Option<i64>,
    now: i64,
) -> RegistrationRequest {
    RegistrationRequest {
        tg_username,
        tg_display_name,
        created_at: now,
        invite_token_id: kept_invite(invite_token_id, existing.invite_token_id),
        ..existing
    }
}

/// A deleted request asked for again: it becomes pending, loses its telemt
/// user and secret, and is renewed as a pending request is.
pub open spec fn revived(
    existing: RegistrationRequest,
    tg_username: Option<String>,
    tg_display_name: Option<String>,
    invite_token_id: Option<i64>,
    now: i64,
) -> RegistrationRequest {
    RegistrationRequest {
        status: RequestStatus::Pending,
        telemt_username: None,
        secret: None,
        ..refreshed_pending(existing, tg_username, tg_display_name, invite_token_id, now)
    }
}

/// A first request of a user, stored with the id `id` at `now`: pending, with
/// the user's names and invite, and every other column empty.
pub open spec fn fresh_pending(
    id: i64,
    tg_user_id: i64,
    tg_username: Option<String>,
    tg_display_name: Option<String>,
    invite_token_id: Option<i64>,
    now: i64,
) -> RegistrationRequest {
    RegistrationRequest {
        id,
        tg_user_id,
        tg_username,
        tg_display_name,
        status: RequestStatus::Pending,
        telemt_username: None,
        secret: None,
        created_at: now,
        backend_mode: None,
        last_sync_error: None,
        last_seen_revision: None,
        last_synced_at: None,
        invite_token_id,
    }
}

/// The request a user's first registration stores; `id` is the one the
/// database gave the new row.
pub fn new_pending_request(
    id: i64,
    tg_user_id: i64,
    tg_username: Option<String>,
    tg_display_name: Option<String>,
    invite_token_id: Option<i64>,
    now: i64,
) -> (r: RegistrationRequest)
    ensures
        r == fresh_pending(id, tg_user_id, tg_username, tg_display_name, invite_token_id, now),
{
    RegistrationRequest {
        id,
        tg_user_id,
        tg_username,
        tg_display_name,
        status: RequestStatus::Pending,
        telemt_username: None,
        secret: None,
        created_at: now,
        backend_mode: None,
        last_sync_error: None,
        last_seen_revision: None,
        last_synced_at: None,
        invite_token_id,
    }
}

/// The stored request after a pending user registers again at `now`.
pub fn refresh_pending_request(
    existing: RegistrationRequest,
    tg_username: Option<String>,
    tg_display_name: Option<String>,
    invite_token_id: Option<i64>,
    now: i64,
) -> (r: RegistrationRequest)
    ensures
        r == refreshed_pending(existing, tg_username, tg_display_name, invite_token_id, now),
{
    let mut r = existing;
    r.tg_username = tg_username;
    r.tg_display_name = tg_display_name;
    r.created_at = now;
    r.invite_token_id = match invite_token_id {
        Some(i) => Some(i),
        None => r.invite_token_id,
    };
    r
}

/// The stored request after a deleted user registers again at `now`.
pub fn revive_request(
    existing: RegistrationRequest,
    tg_username: Option<String>,
    tg_display_name: Option<String>,
    invite_token_id: Option<i64>,
    now: i64,
) -> (r: RegistrationRequest)
    ensures
        r == revived(existing, tg_username, tg_display_name, invite_token_id, now),
{
    let mut r = refresh_pending_request(existing, tg_username, tg_display_name, invite_token_id, now);
    r.status = RequestStatus::Pending;
    r.telemt_username = None;
    r.secret = None;
    r
}

/// Registering never touches an approved or a rejected request: the answer is
/// read from it.
pub proof fn lemma_resolved_requests_are_kept(r: RegistrationRequest)
    requires
        r.status == RequestStatus::Approved || r.status == RequestStatus::Rejected,
    ensures
        !(registration_action_spec(Some(r)) is RefreshPending),
        !(registration_action_spec(Some(r)) is Revive),
        !(registration_action_spec(Some(r)) is Insert),
{
}

// ---------------------------------------------------------------------
// Wizard state expiry
// ---------------------------------------------------------------------

/// Why the age of a wizard state cannot be judged.
#[derive(Debug, Clone, Copy, PartialEq, Eq, Structural)]
pub enum WizardTtlError {
    /// `now - ttl` does not fit.
    InvalidTtl,
}

/// Whether a wizard state saved at `updated_at` has expired at `now`: never
/// without a TTL; with one, when it was saved at or before `now - ttl`;
/// an error when `now - ttl` does not fit.
pub open spec fn wizard_expiry(ttl_seconds: Option<i64>, now: i64, updated_at: i64) -> Result<bool, WizardTtlError> {
    match ttl_seconds {
        None => Ok(false),
        Some(ttl) => if fits_i64(now - ttl) {
            Ok(updated_at <= now - ttl)
        } else {
            Err(WizardTtlError::InvalidTtl)
        },
    }
}

pub fn is_wizard_state_expired(ttl_seconds: Option<i64>, now: i64, updated_at: i64) -> (r: Result<
    bool,
    WizardTtlError,
>)
    ensures
        r == wizard_expiry(ttl_seconds, now, updated_at),
{
    match ttl_seconds {
        None => Ok(false),
        Some(ttl) => match now.checked_sub(ttl) {
            Some(expires_before) => Ok(updated_at <= expires_before),
            None => Err(WizardTtlError::InvalidTtl),
        },
    }
}

/// A wizard step is kept while it is younger than the TTL: without a TTL it
/// never expires, and with a positive TTL a step saved after `now - ttl`
/// (such as one saved just now) has not expired.
pub proof fn lemma_fresh_state_kept(ttl_seconds: Option<i64>, now: i64, updated_at: i64)
    requires
        ttl_seconds matches Some(ttl) ==> ttl > 0 && fits_i64(now - ttl) && updated_at > now - ttl,
    ensures
        wizard_expiry(ttl_seconds, now, updated_at) == Ok::<bool, WizardTtlError>(false),
{
}

} // verus!
