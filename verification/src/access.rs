//! Giving and taking access: the answers to an invite code, the notices to
//! administrators and the outcome of removing a user.

use vstd::prelude::*;

use crate::commands::str_opt_view;
use crate::db::{ConsumedInviteToken, RegisterResult, RegistrationRequest, TokenConsumeError, TokenMode};
use crate::text::{int_str, lit, push_i64, push_str};

verus! {

pub open spec fn telemt_name(tg_user_id: i64) -> Seq<char> {
    "tg_"@ + int_str(tg_user_id as int)
}

/// The telemt user name of a Telegram user: "tg_<id>".
pub fn telemt_username(tg_user_id: i64) -> (r: String)
    ensures
        r@ == telemt_name(tg_user_id),
{
    let mut s = lit("tg_");
    push_i64(&mut s, tg_user_id);
    s
}

/// The answer to an invite code that could not be used; an internal failure
/// has none and is passed on.
pub open spec fn refusal_text(e: TokenConsumeError) -> Option<Seq<char>> {
    match e {
        TokenConsumeError::NotFound => Some("Токен не найден. Проверьте код и попробуйте снова."@),
        TokenConsumeError::Revoked => Some("Этот токен отозван администратором."@),
        TokenConsumeError::Expired => Some("Срок действия токена истёк."@),
        TokenConsumeError::UsageLimitReached => Some("Лимит использований токена исчерпан."@),
        TokenConsumeError::Internal(_) => None,
    }
}

pub fn invite_refusal_text(e: &TokenConsumeError) -> (r: Option<String>)
    ensures
        crate::format::opt_view(r) == refusal_text(*e),
{
    match e {
        TokenConsumeError::NotFound => Some(lit("Токен не найден. Проверьте код и попробуйте снова.")),
        TokenConsumeError::Revoked => Some(lit("Этот токен отозван администратором.")),
        TokenConsumeError::Expired => Some(lit("Срок действия токена истёк.")),
        TokenConsumeError::UsageLimitReached => Some(lit("Лимит использований токена исчерпан.")),
        TokenConsumeError::Internal(_) => None,
    }
}

/// What follows a used invite code.
#[derive(Debug, Clone, Copy, PartialEq, Eq, Structural)]
pub enum InviteStep {
    /// Register the user as a request for an administrator.
    Register,
    /// Give access at once.
    ApproveDirectly,
}

/// A manual token registers a request; an automatic one gives access.
pub fn invite_step(token: &ConsumedInviteToken) -> (r: InviteStep)
    ensures
        token.mode == TokenMode::Manual ==> r == InviteStep::Register,
        token.mode == TokenMode::AutoApprove ==> r == InviteStep::ApproveDirectly,
{
    match token.mode {
        TokenMode::Manual => InviteStep::Register,
        TokenMode::AutoApprove => InviteStep::ApproveDirectly,
    }
}

/// What to answer after registering: the link of an approved user is built
/// from their secret first.
#[derive(Debug, Clone, PartialEq, Eq)]
pub enum RegistrationReply {
    /// Build the proxy link from this secret and send it.
    SendLink(String),
    /// Send this text.
    Text(String),
    /// Send this text and tell the administrators about the new request.
    TextAndNotify(String),
}

pub fn registration_reply(result: &RegisterResult) -> (r: RegistrationReply)
    ensures
        match *result {
            RegisterResult::Approved(secret) => r matches RegistrationReply::SendLink(s) && s@ == secret@,
            RegisterResult::Rejected => r matches RegistrationReply::Text(t) && t@ == "Ваша заявка на регистрацию отклонена администратором."@,
            RegisterResult::AlreadyPending => r matches RegistrationReply::Text(t) && t@ == "Ваша заявка уже на рассмотрении. Ожидайте подтверждения администратора."@,
            RegisterResult::NewPending(_) => r matches RegistrationReply::TextAndNotify(t) && t@ == "Заявка отправлена. Ожидайте подтверждения."@,
        },
{
    match result {
        RegisterResult::Approved(secret) => RegistrationReply::SendLink(secret.clone()),
        RegisterResult::Rejected => RegistrationReply::Text(lit("Ваша заявка на регистрацию отклонена администратором.")),
        RegisterResult::AlreadyPending => RegistrationReply::Text(
            lit("Ваша заявка уже на рассмотрении. Ожидайте подтверждения администратора."),
        ),
        RegisterResult::NewPending(_) => RegistrationReply::TextAndNotify(lit("Заявка отправлена. Ожидайте подтверждения.")),
    }
}

/// The message with a user's proxy link.
pub fn proxy_link_message(link: &str) -> (r: String)
    ensures
        r@ == "Ваша ссылка на прокси:\n\n"@ + link@,
{
    let mut s = lit("Ваша ссылка на прокси:\n\n");
    push_str(&mut s, link);
    s
}

/// The message with the link of a user whose access was approved at once.
pub fn approved_link_message(link: &str) -> (r: String)
    ensures
        r@ == "Доступ одобрен! Ваша ссылка для подключения:\n\n"@ + link@,
{
    let mut s = lit("Доступ одобрен! Ваша ссылка для подключения:\n\n");
    push_str(&mut s, link);
    s
}

pub open spec fn or_dash(o: Option<Seq<char>>) -> Seq<char> {
    match o {
        Some(t) => t,
        None => "—"@,
    }
}

pub open spec fn string_opt_view(o: Option<String>) -> Option<Seq<char>> {
    match o {
        Some(s) => Some(s@),
        None => None,
    }
}

/// The notice to administrators about a new request; `created` is the
/// request's time, already rendered.
pub open spec fn new_request_notice(req: RegistrationRequest, created: Seq<char>) -> Seq<char> {
    "📋 Новая заявка #"@ + int_str(req.id as int) + ":\nUser ID: "@ + int_str(req.tg_user_id as int)
        + "\nUsername: @"@ + or_dash(string_opt_view(req.tg_username)) + "\nИмя: "@ + or_dash(
        string_opt_view(req.tg_display_name),
    ) + "\nВремя: "@ + created
}

fn push_or_dash(s: &mut String, o: &Option<String>)
    ensures
        final(s)@ == old(s)@ + or_dash(string_opt_view(*o)),
{
    match o {
        Some(t) => push_str(s, t.as_str()),
        None => push_str(s, "—"),
    }
}

pub fn new_request_notice_with(req: &RegistrationRequest, created: &str) -> (r: String)
    ensures
        r@ == new_request_notice(*req, created@),
{
    let mut s = lit("📋 Новая заявка #");
    push_i64(&mut s, req.id);
    push_str(&mut s, ":\nUser ID: ");
    push_i64(&mut s, req.tg_user_id);
    push_str(&mut s, "\nUsername: @");
    push_or_dash(&mut s, &req.tg_username);
    push_str(&mut s, "\nИмя: ");
    push_or_dash(&mut s, &req.tg_display_name);
    push_str(&mut s, "\nВремя: ");
    push_str(&mut s, created);
    assert(s@ =~= new_request_notice(*req, created@));
    s
}

/// The notice to administrators about a new request, its time in the
/// machine's time zone.
pub fn new_request_notice_text(req: &RegistrationRequest) -> (r: String)
    ensures
        exists|c: Seq<char>|
            crate::format::timestamp_text_of(req.created_at, c) && r@ == #[trigger] new_request_notice(*req, c),
{
    let created = crate::format::format_timestamp(req.created_at);
    new_request_notice_with(req, created.as_str())
}

/// The audit notice to administrators after a user got access by an
/// automatic token; `expires` is the token's end, already rendered.
pub open spec fn auto_approve_notice(
    tg_user_id: i64,
    username: Option<Seq<char>>,
    display_name: Option<Seq<char>>,
    t: ConsumedInviteToken,
    expires: Seq<char>,
) -> Seq<char> {
    "✅ Автоподключение по токену\nUser ID: "@ + int_str(tg_user_id as int) + "\nUsername: @"@
        + or_dash(username) + "\nИмя: "@ + or_dash(display_name) + "\nToken: "@ + t.token@
        + "\nToken ID: "@ + int_str(t.id as int) + "\nMode: "@ + (match t.mode {
        TokenMode::AutoApprove => "auto"@,
        TokenMode::Manual => "manual"@,
    }) + "\nExpires: "@ + expires + "\nUsage: "@ + int_str(t.usage_count as int) + "/"@ + (match t.max_usage {
        Some(m) => int_str(m as int),
        None => "∞"@,
    }) + "\nCreated by: "@ + match t.created_by {
        Some(c) => int_str(c as int),
        None => "—"@,
    }
}

pub fn auto_approve_notice_with(
    tg_user_id: i64,
    username: Option<&str>,
    display_name: Option<&str>,
    token: &ConsumedInviteToken,
    expires: &str,
) -> (r: String)
    ensures
        r@ == auto_approve_notice(tg_user_id, str_opt_view(username), str_opt_view(display_name), *token, expires@),
{
    let mut s = lit("✅ Автоподключение по токену\nUser ID: ");
    push_i64(&mut s, tg_user_id);
    push_str(&mut s, "\nUsername: @");
    match username {
        Some(u) => push_str(&mut s, u),
        None => push_str(&mut s, "—"),
    }
    push_str(&mut s, "\nИмя: ");
    match display_name {
        Some(d) => push_str(&mut s, d),
        None => push_str(&mut s, "—"),
    }
    push_str(&mut s, "\nToken: ");
    push_str(&mut s, token.token.as_str());
    push_str(&mut s, "\nToken ID: ");
    push_i64(&mut s, token.id);
    push_str(&mut s, "\nMode: ");
    match token.mode {
        TokenMode::AutoApprove => push_str(&mut s, "auto"),
        TokenMode::Manual => push_str(&mut s, "manual"),
    }
    push_str(&mut s, "\nExpires: ");
    push_str(&mut s, expires);
    push_str(&mut s, "\nUsage: ");
    push_i64(&mut s, token.usage_count);
    push_str(&mut s, "/");
    match token.max_usage {
        Some(m) => push_i64(&mut s, m),
        None => push_str(&mut s, "∞"),
    }
    push_str(&mut s, "\nCreated by: ");
    match token.created_by {
        Some(c) => push_i64(&mut s, c),
        None => push_str(&mut s, "—"),
    }
    assert(s@ =~= auto_approve_notice(tg_user_id, str_opt_view(username), str_opt_view(display_name), *token, expires@));
    s
}

/// The audit notice with the token's end in the machine's time zone.
pub fn auto_approve_notice_text(
    tg_user_id: i64,
    username: Option<&str>,
    display_name: Option<&str>,
    token: &ConsumedInviteToken,
) -> (r: String)
    ensures
        exists|e: Seq<char>|
            crate::format::timestamp_text_of(token.expires_at, e) && r@ == #[trigger] auto_approve_notice(tg_user_id, str_opt_view(username), str_opt_view(display_name), *token, e),
{
    let expires = crate::format::format_timestamp(token.expires_at);
    auto_approve_notice_with(tg_user_id, username, display_name, token, expires.as_str())
}

/// What "my link" does for a user.
#[derive(Debug, Clone, Copy, PartialEq, Eq, Structural)]
pub enum LinkRequest {
    /// Build the link from the stored telemt name and secret.
    Existing,
    /// Give an administrator access at once, then send the link.
    ProvisionAdmin,
    /// Tell the user that they have no access.
    NoAccess,
}

/// An approved user gets their link; an administrator without access is given
/// access; anyone else is told to register.
pub fn link_request(has_access: bool, is_admin: bool) -> (r: LinkRequest)
    ensures
        has_access ==> r == LinkRequest::Existing,
        !has_access && is_admin ==> r == LinkRequest::ProvisionAdmin,
        !has_access && !is_admin ==> r == LinkRequest::NoAccess,
{
    if has_access {
        LinkRequest::Existing
    } else if is_admin {
        LinkRequest::ProvisionAdmin
    } else {
        LinkRequest::NoAccess
    }
}

/// The sync error recorded after removing a user: none when telemt had them.
pub fn hard_ban_sync_error(removed_from_backend: bool) -> (r: Option<&'static str>)
    ensures
        removed_from_backend ==> r is None,
        !removed_from_backend ==> (r matches Some(e) && e@ == "user_not_found_in_backend"@),
{
    if removed_from_backend {
        None
    } else {
        Some("user_not_found_in_backend")
    }
}

/// The outcome of removing a user: removed when telemt or the database had them.
pub fn hard_ban_text(tg_user_id: i64, removed_from_backend: bool, removed_from_db: bool) -> (r: String)
    ensures
        r@ == "Пользователь "@ + telemt_name(tg_user_id) + (if removed_from_backend || removed_from_db {
            " удалён"@
        } else {
            " не найден"@
        }),
{
    let mut s = lit("Пользователь ");
    let name = telemt_username(tg_user_id);
    push_str(&mut s, name.as_str());
    if removed_from_backend || removed_from_db {
        push_str(&mut s, " удалён");
    } else {
        push_str(&mut s, " не найден");
    }
    s
}

/// Distinct Telegram users get distinct telemt user names.
pub proof fn lemma_telemt_names_distinct(a: i64, b: i64)
    requires
        a != b,
    ensures
        telemt_name(a) != telemt_name(b),
{
    reveal_strlit("tg_");
    if telemt_name(a) == telemt_name(b) {
        assert(telemt_name(a).skip(3) =~= int_str(a as int));
        assert(telemt_name(b).skip(3) =~= int_str(b as int));
        crate::text::lemma_parse_int_str(a as int, i64::MIN as int, i64::MAX as int);
        crate::text::lemma_parse_int_str(b as int, i64::MIN as int, i64::MAX as int);
    }
}

} // verus!
