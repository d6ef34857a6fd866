use telemt_admin::commands::{
    invite_token_created_text_with, parse_invite_token_params, service_action_result_text,
    token_lookup_code, TokenRequest,
};
use telemt_admin::callback_data::ServiceAction;
use telemt_admin::config::SecurityConfig;
use telemt_admin::db::InviteToken;

fn sec() -> SecurityConfig {
    SecurityConfig {
        default_token_days: 14,
        max_token_days: 90,
        allow_auto_approve_tokens: true,
        wizard_state_ttl_seconds: None,
    }
}

fn req(days: i64, auto: bool, max: Option<i64>) -> Result<TokenRequest, String> {
    Ok(TokenRequest { days, auto_approve: auto, max_uses: max })
}

#[test]
fn invite_params_positional_numbers() {
    let s = sec();
    assert_eq!(parse_invite_token_params(false, "", &s), req(14, false, None));
    assert_eq!(parse_invite_token_params(true, "7", &s), req(7, true, None));
    assert_eq!(parse_invite_token_params(false, "7 3", &s), req(7, false, Some(3)));
    assert_eq!(parse_invite_token_params(false, "--max-uses 2", &s), req(14, false, Some(2)));
    assert_eq!(parse_invite_token_params(false, "--max-uses 2 5", &s), req(5, false, Some(2)));
}

#[test]
fn invite_params_refusals() {
    let mut s = sec();
    assert_eq!(
        parse_invite_token_params(false, "1 2 3", &s),
        Err("Укажите не больше двух чисел: срок действия invite-токена (дни) и лимит активаций.".to_string())
    );
    assert_eq!(
        parse_invite_token_params(false, "--max-uses 0", &s),
        Err("Лимит активаций токена должен быть не меньше 1.".to_string())
    );
    assert_eq!(
        parse_invite_token_params(false, "--max-uses 2 --max-uses 3", &s),
        Err("Лимит активаций токена можно указать только один раз.".to_string())
    );
    assert_eq!(
        parse_invite_token_params(false, "--max-uses 2 5 6", &s),
        Err("Лимит активаций токена можно указать только один раз.".to_string())
    );
    assert_eq!(
        parse_invite_token_params(false, "7 0", &s),
        Err("Лимит активаций токена должен быть не меньше 1.".to_string())
    );
    assert_eq!(
        parse_invite_token_params(false, "0", &s),
        Err("Срок действия invite-токена (дней) должен быть не меньше 1.".to_string())
    );
    assert_eq!(
        parse_invite_token_params(false, "91", &s),
        Err("Срок действия invite-токена не может превышать 90 дней.".to_string())
    );
    let hint = parse_invite_token_params(false, "week", &s).unwrap_err();
    assert!(hint.starts_with("Параметры invite-токена"));
    assert!(hint.contains("По умолчанию: 14 дней"));
    assert_eq!(parse_invite_token_params(false, "--max-uses", &s), Err(hint));
    s.allow_auto_approve_tokens = false;
    assert_eq!(
        parse_invite_token_params(true, "7", &s),
        Err("Автоподтверждение токенов запрещено в конфигурации.".to_string())
    );
}

#[test]
fn invite_token_created_text_lists_limits() {
    let token = InviteToken {
        id: 1,
        token: "Abc".to_string(),
        created_at: 0,
        expires_at: 0,
        auto_approve: false,
        created_by: None,
        max_usage: Some(3),
        usage_count: 0,
        is_active: true,
        default_expiration_days: Some(30),
        default_max_unique_ips: Some(2),
        default_data_quota_bytes: None,
    };
    assert_eq!(
        invite_token_created_text_with(&token, Some("bot"), "D"),
        "✅ Invite-токен создан:\nКод: <code>Abc</code>\nСсылка: https://t.me/bot?start=Abc\nРежим: Ручной ✅\nСрок действия ссылки (invite): до D\nЛимит активаций по ссылке: 3\nЛимиты пользователя: 30 дн., IP: 2\n"
    );
    assert!(invite_token_created_text_with(&token, None, "D")
        .contains("Ссылка: недоступна (username бота неизвестен). Укажите `bot_username`"));
}

#[test]
fn token_lookup_and_service_results() {
    assert_eq!(token_lookup_code(" `Abc` "), Ok("Abc".to_string()));
    assert_eq!(
        token_lookup_code("  "),
        Err("Отправьте код токена одним сообщением.".to_string())
    );
    assert_eq!(service_action_result_text(ServiceAction::Restart, true, "x"), "restart: OK");
    assert_eq!(
        service_action_result_text(ServiceAction::Stop, false, "denied"),
        "stop: denied"
    );
}
