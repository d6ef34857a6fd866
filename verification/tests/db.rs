use telemt_admin::db::{
    consume_invite_token, consume_refusal, generate_invite_token, invite_expires_at,
    is_token_active, is_wizard_state_expired, map_internal_token_error,
    register_result_after_conflict, registration_action, token_mode, InviteToken,
    RegisterResult, RegistrationAction, RegistrationRequest, RequestStatus, TokenConsumeError,
    TokenExpiryError, TokenMode, WizardTtlError,
};

fn token(is_active: bool, expires_at: i64, max_usage: Option<i64>, usage_count: i64) -> InviteToken {
    InviteToken {
        id: 7,
        token: "ABCdef1234".to_string(),
        created_at: 0,
        expires_at,
        auto_approve: true,
        created_by: Some(1),
        max_usage,
        usage_count,
        is_active,
        default_expiration_days: None,
        default_max_unique_ips: None,
        default_data_quota_bytes: None,
    }
}

fn request(status: RequestStatus, secret: Option<&str>) -> RegistrationRequest {
    RegistrationRequest {
        id: 1,
        tg_user_id: 101,
        tg_username: Some("alice".to_string()),
        tg_display_name: Some("Alice".to_string()),
        status,
        telemt_username: None,
        secret: secret.map(|s| s.to_string()),
        created_at: 0,
        backend_mode: None,
        last_sync_error: None,
        last_seen_revision: None,
        last_synced_at: None,
        invite_token_id: None,
    }
}

#[test]
fn request_status_names() {
    assert_eq!(RequestStatus::Pending.as_str(), "pending");
    assert_eq!(RequestStatus::Approved.as_str(), "approved");
    assert_eq!(RequestStatus::Rejected.as_str(), "rejected");
    assert_eq!(RequestStatus::Deleted.to_string(), "deleted");
}

#[test]
fn token_activity_rules() {
    assert!(is_token_active(&token(true, 100, None, 5), 50));
    assert!(!is_token_active(&token(false, 100, None, 0), 50));
    assert!(!is_token_active(&token(true, 50, None, 0), 50));
    assert!(is_token_active(&token(true, 100, Some(3), 2), 50));
    assert!(!is_token_active(&token(true, 100, Some(3), 3), 50));
    assert_eq!(token_mode(true), TokenMode::AutoApprove);
    assert_eq!(token_mode(false), TokenMode::Manual);
}

#[test]
fn consuming_an_active_token_counts_the_use() {
    let c = consume_invite_token(Some(token(true, 100, Some(3), 2)), 50).unwrap();
    assert_eq!(c.id, 7);
    assert_eq!(c.token, "ABCdef1234");
    assert_eq!(c.mode, TokenMode::AutoApprove);
    assert_eq!(c.usage_count, 3);
    assert_eq!(c.max_usage, Some(3));
    assert_eq!(c.expires_at, 100);
    assert_eq!(c.created_by, Some(1));
}

#[test]
fn consuming_a_refused_token_gives_its_reason() {
    assert_eq!(consume_invite_token(None, 50).unwrap_err(), TokenConsumeError::NotFound);
    assert_eq!(
        consume_invite_token(Some(token(false, 100, None, 0)), 50).unwrap_err(),
        TokenConsumeError::Revoked
    );
    assert_eq!(
        consume_invite_token(Some(token(true, 10, None, 0)), 50).unwrap_err(),
        TokenConsumeError::Expired
    );
    assert_eq!(
        consume_invite_token(Some(token(true, 100, Some(1), 1)), 50).unwrap_err(),
        TokenConsumeError::UsageLimitReached
    );
    assert_eq!(consume_refusal(&Some(token(true, 100, None, 0)), 50), TokenConsumeError::NotFound);
}

#[test]
fn internal_token_error_keeps_context() {
    assert_eq!(
        map_internal_token_error("consume", "db locked"),
        TokenConsumeError::Internal("consume: db locked".to_string())
    );
}

#[test]
fn generated_tokens_are_ten_ascii_alphanumerics() {
    let a = generate_invite_token();
    assert_eq!(a.chars().count(), 10);
    assert!(a.chars().all(|c| c.is_ascii_alphanumeric()));
}

#[test]
fn invite_expiry_is_days_after_now() {
    assert_eq!(invite_expires_at(1_000, 2), Ok(1_000 + 2 * 86_400));
    assert_eq!(invite_expires_at(0, i64::MAX / 1000), Err(TokenExpiryError::DurationTooLarge));
    assert_eq!(invite_expires_at(i64::MAX - 10, 1), Err(TokenExpiryError::InvalidExpiry));
    assert_eq!(
        TokenExpiryError::DurationTooLarge.message(),
        "Срок действия токена слишком большой"
    );
    assert_eq!(TokenExpiryError::InvalidExpiry.message(), "Некорректное время истечения токена");
}

#[test]
fn registration_actions_follow_stored_status() {
    assert_eq!(registration_action(&None), RegistrationAction::Insert);
    assert_eq!(
        registration_action(&Some(request(RequestStatus::Approved, Some("s3cr3t")))),
        RegistrationAction::ReturnApproved("s3cr3t".to_string())
    );
    assert_eq!(
        registration_action(&Some(request(RequestStatus::Approved, None))),
        RegistrationAction::ReturnPending
    );
    assert_eq!(
        registration_action(&Some(request(RequestStatus::Rejected, None))),
        RegistrationAction::ReturnRejected
    );
    assert_eq!(
        registration_action(&Some(request(RequestStatus::Pending, None))),
        RegistrationAction::RefreshPending
    );
    assert_eq!(
        registration_action(&Some(request(RequestStatus::Deleted, Some("old")))),
        RegistrationAction::Revive
    );
}

#[test]
fn conflict_answer_reflects_stored_request() {
    assert!(register_result_after_conflict(None).is_none());
    match register_result_after_conflict(Some(request(RequestStatus::Approved, Some("x")))) {
        Some(RegisterResult::Approved(s)) => assert_eq!(s, "x"),
        other => panic!("unexpected {:?}", other),
    }
    assert!(matches!(
        register_result_after_conflict(Some(request(RequestStatus::Rejected, None))),
        Some(RegisterResult::Rejected)
    ));
    assert!(matches!(
        register_result_after_conflict(Some(request(RequestStatus::Pending, None))),
        Some(RegisterResult::AlreadyPending)
    ));
}

#[test]
fn wizard_state_expiry() {
    assert_eq!(is_wizard_state_expired(None, 1_000, 0), Ok(false));
    assert_eq!(is_wizard_state_expired(Some(600), 1_000, 400), Ok(true));
    assert_eq!(is_wizard_state_expired(Some(600), 1_000, 401), Ok(false));
    assert_eq!(is_wizard_state_expired(Some(600), 1_000, 1_000), Ok(false));
    assert_eq!(
        is_wizard_state_expired(Some(i64::MAX), -10, 0),
        Err(WizardTtlError::InvalidTtl)
    );
}
