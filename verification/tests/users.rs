use telemt_admin::db::{RegistrationRequest, RequestStatus, UserGroup};
use telemt_admin::users::{
    broadcast_message, classify_lookup_input, create_lookup_refusal, group_member_expiration,
    group_name, is_cancel_command, is_cancel_word, lookup_candidate_label, lookup_choose_text,
    lookup_not_found_text, lookup_outcome, user_created_text, user_list_label, LookupInputKind,
    LookupOutcome,
};

fn user(name: &str) -> RegistrationRequest {
    RegistrationRequest {
        id: 1,
        tg_user_id: 77,
        tg_username: None,
        tg_display_name: Some(name.to_string()),
        status: RequestStatus::Approved,
        telemt_username: None,
        secret: None,
        created_at: 0,
        backend_mode: None,
        last_sync_error: None,
        last_seen_revision: None,
        last_synced_at: None,
        invite_token_id: None,
    }
}

#[test]
fn classify_lookup_input_kinds() {
    assert_eq!(classify_lookup_input(" 42 "), Some(LookupInputKind::UserId(42)));
    assert_eq!(
        classify_lookup_input("@ bob "),
        Some(LookupInputKind::Username("bob".to_string()))
    );
    assert_eq!(classify_lookup_input("@"), None);
    assert_eq!(classify_lookup_input(""), None);
    assert_eq!(
        classify_lookup_input(" Ali "),
        Some(LookupInputKind::PartialQuery("Ali".to_string()))
    );
}

#[test]
fn lookup_answers() {
    assert_eq!(
        lookup_not_found_text(&LookupInputKind::Username("bob".to_string())),
        "Пользователь @bob не найден среди активных."
    );
    assert_eq!(
        lookup_not_found_text(&LookupInputKind::UserId(1)),
        "Активный пользователь не найден."
    );
    assert_eq!(lookup_outcome(0), LookupOutcome::NotFound);
    assert_eq!(lookup_outcome(1), LookupOutcome::Open);
    assert_eq!(lookup_outcome(3), LookupOutcome::Choose);
    assert_eq!(lookup_choose_text(3), "Найдено 3 пользователей. Выберите:");
    assert_eq!(create_lookup_refusal(1), None);
    assert_eq!(
        create_lookup_refusal(2).as_deref(),
        Some("Найдено несколько пользователей (2). Уточните запрос: точный @username или Telegram ID.")
    );
    assert!(create_lookup_refusal(0).unwrap().starts_with("Пользователь не найден в базе."));
    assert_eq!(user_created_text("tg_5", "L"), "Пользователь tg_5 создан.\nСсылка:\nL");
}

#[test]
fn user_labels_are_shortened() {
    assert_eq!(lookup_candidate_label(&user("Alice")), "Alice · id 77");
    let long = "x".repeat(50);
    assert_eq!(
        lookup_candidate_label(&user(&long)),
        format!("{}... · id 77", "x".repeat(45))
    );
    assert_eq!(user_list_label(&user("Bob")), "Bob (id 77)");
    let long = "я".repeat(41);
    assert_eq!(user_list_label(&user(&long)), format!("{}... (id 77)", "я".repeat(37)));
    assert_eq!(user_list_label(&user(&"я".repeat(40))), format!("{} (id 77)", "я".repeat(40)));
}

#[test]
fn groups() {
    assert_eq!(group_name("  VIP "), Ok("VIP".to_string()));
    assert_eq!(group_name("   "), Err("Имя группы не может быть пустым".to_string()));
    let mut g = UserGroup { id: 1, name: "g".to_string(), created_at: 0, expires_at: None };
    assert!(group_member_expiration(&g).unwrap_err().starts_with("У группы не задан"));
    g.expires_at = Some(1_704_067_200);
    assert_eq!(group_member_expiration(&g), Ok("2024-01-01T00:00:00+00:00".to_string()));
    g.expires_at = Some(i64::MAX);
    assert_eq!(
        group_member_expiration(&g),
        Err("Некорректное время expires_at у группы".to_string())
    );
}

#[test]
fn broadcast_cancel_words() {
    assert!(is_cancel_command(" Отмена "));
    assert!(is_cancel_command("/CANCEL"));
    assert!(is_cancel_command("/отмена"));
    assert!(!is_cancel_command("отменить"));
    assert!(is_cancel_word("cancel"));
    assert!(!is_cancel_word("Cancel"));
    assert_eq!(broadcast_message("  hello  "), Some("hello".to_string()));
    assert_eq!(broadcast_message("  "), None);
    assert_eq!(broadcast_message("ОТМЕНА"), None);
}
