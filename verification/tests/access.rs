use telemt_admin::access::{
    approved_link_message, auto_approve_notice_with, hard_ban_sync_error, hard_ban_text,
    invite_refusal_text, invite_step, link_request, new_request_notice_with, proxy_link_message,
    registration_reply, telemt_username, InviteStep, LinkRequest, RegistrationReply,
};
use telemt_admin::db::{
    ConsumedInviteToken, RegisterResult, RegistrationRequest, RequestStatus, TokenConsumeError,
    TokenMode,
};

fn consumed(mode: TokenMode) -> ConsumedInviteToken {
    ConsumedInviteToken {
        id: 3,
        token: "Tok".to_string(),
        mode,
        expires_at: 0,
        created_by: None,
        usage_count: 2,
        max_usage: Some(5),
    }
}

fn request() -> RegistrationRequest {
    RegistrationRequest {
        id: 11,
        tg_user_id: 42,
        tg_username: None,
        tg_display_name: Some("Alice".to_string()),
        status: RequestStatus::Pending,
        telemt_username: None,
        secret: None,
        created_at: 0,
        backend_mode: None,
        last_sync_error: None,
        last_seen_revision: None,
        last_synced_at: None,
        invite_token_id: None,
    }
}

#[test]
fn telemt_username_prefixes_the_id() {
    assert_eq!(telemt_username(42), "tg_42");
    assert_eq!(telemt_username(-1), "tg_-1");
}

#[test]
fn refusals_have_their_answers() {
    assert_eq!(
        invite_refusal_text(&TokenConsumeError::NotFound).as_deref(),
        Some("Токен не найден. Проверьте код и попробуйте снова.")
    );
    assert_eq!(
        invite_refusal_text(&TokenConsumeError::Revoked).as_deref(),
        Some("Этот токен отозван администратором.")
    );
    assert_eq!(
        invite_refusal_text(&TokenConsumeError::Expired).as_deref(),
        Some("Срок действия токена истёк.")
    );
    assert_eq!(
        invite_refusal_text(&TokenConsumeError::UsageLimitReached).as_deref(),
        Some("Лимит использований токена исчерпан.")
    );
    assert_eq!(invite_refusal_text(&TokenConsumeError::Internal("db".to_string())), None);
}

#[test]
fn invite_step_follows_the_mode() {
    assert_eq!(invite_step(&consumed(TokenMode::Manual)), InviteStep::Register);
    assert_eq!(invite_step(&consumed(TokenMode::AutoApprove)), InviteStep::ApproveDirectly);
}

#[test]
fn registration_replies() {
    assert_eq!(
        registration_reply(&RegisterResult::Approved("s3cr3t".to_string())),
        RegistrationReply::SendLink("s3cr3t".to_string())
    );
    assert_eq!(
        registration_reply(&RegisterResult::Rejected),
        RegistrationReply::Text("Ваша заявка на регистрацию отклонена администратором.".to_string())
    );
    assert_eq!(
        registration_reply(&RegisterResult::AlreadyPending),
        RegistrationReply::Text(
            "Ваша заявка уже на рассмотрении. Ожидайте подтверждения администратора.".to_string()
        )
    );
    assert_eq!(
        registration_reply(&RegisterResult::NewPending(request())),
        RegistrationReply::TextAndNotify("Заявка отправлена. Ожидайте подтверждения.".to_string())
    );
}

#[test]
fn link_messages() {
    assert_eq!(proxy_link_message("L"), "Ваша ссылка на прокси:\n\nL");
    assert_eq!(approved_link_message("L"), "Доступ одобрен! Ваша ссылка для подключения:\n\nL");
}

#[test]
fn notices_to_administrators() {
    assert_eq!(
        new_request_notice_with(&request(), "T"),
        "📋 Новая заявка #11:\nUser ID: 42\nUsername: @—\nИмя: Alice\nВремя: T"
    );
    assert_eq!(
        auto_approve_notice_with(42, Some("bob"), None, &consumed(TokenMode::AutoApprove), "E"),
        "✅ Автоподключение по токену\nUser ID: 42\nUsername: @bob\nИмя: —\nToken: Tok\nToken ID: 3\nMode: auto\nExpires: E\nUsage: 2/5\nCreated by: —"
    );
}

#[test]
fn link_requests_and_bans() {
    assert_eq!(link_request(true, false), LinkRequest::Existing);
    assert_eq!(link_request(false, true), LinkRequest::ProvisionAdmin);
    assert_eq!(link_request(false, false), LinkRequest::NoAccess);
    assert_eq!(hard_ban_sync_error(true), None);
    assert_eq!(hard_ban_sync_error(false), Some("user_not_found_in_backend"));
    assert_eq!(hard_ban_text(5, true, false), "Пользователь tg_5 удалён");
    assert_eq!(hard_ban_text(5, false, false), "Пользователь tg_5 не найден");
}
