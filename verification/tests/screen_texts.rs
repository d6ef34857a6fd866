use telemt_admin::db::{RegistrationRequest, RequestStatus, UserGroup};
use telemt_admin::screens::{
    delete_user_confirm_text, group_card_text, groups_menu_text, pending_list_header,
    pending_list_label, pending_request_card_text, token_list_header, token_revoke_confirm_text,
    user_ban_confirm_text, user_home_text, user_qr_caption, user_qr_file_name, users_list_header,
};

fn request() -> RegistrationRequest {
    RegistrationRequest {
        id: 4,
        tg_user_id: 42,
        tg_username: Some("alice".to_string()),
        tg_display_name: None,
        status: RequestStatus::Pending,
        telemt_username: None,
        secret: None,
        created_at: 0,
        backend_mode: None,
        last_sync_error: None,
        last_seen_revision: None,
        last_synced_at: None,
        invite_token_id: Some(9),
    }
}

#[test]
fn user_home_texts_by_status() {
    assert!(user_home_text(Some(RequestStatus::Approved)).starts_with("✅ Доступ открыт."));
    assert!(user_home_text(Some(RequestStatus::Pending)).starts_with("⏳"));
    assert!(user_home_text(Some(RequestStatus::Rejected)).starts_with("❌"));
    assert!(user_home_text(Some(RequestStatus::Deleted)).starts_with("🚫"));
    assert_eq!(user_home_text(None), "🔒 Чтобы получить доступ, введите invite-токен.");
}

#[test]
fn request_card_and_labels() {
    assert_eq!(
        pending_request_card_text(&request(), "T"),
        "📋 Заявка #4\n\n👤 @alice\n🆔 42\n📱 @alice\n📅 T\n🎟 ID ссылки (invite): 9"
    );
    assert_eq!(pending_list_label(&request()), "📋 #4 · @alice");
    assert_eq!(
        pending_list_header(12, 2, 3),
        "📥 Заявки · 12\nСтраница: 2/3\n\nВыберите заявку."
    );
    assert!(token_list_header(1, 1, 1).starts_with("🎟 Токены · 1\nСтраница: 1/1\n\n"));
    assert_eq!(
        users_list_header(5, 1, 1, 2),
        "👥 Пользователи · 5 (выбрано: 2)\nСтраница: 1/1\n\nВыберите пользователя (⬜ - выбрать)."
    );
    assert_eq!(
        users_list_header(5, 1, 1, 0),
        "👥 Пользователи · 5\nСтраница: 1/1\n\nВыберите пользователя (⬜ - выбрать)."
    );
}

#[test]
fn confirmations_and_groups() {
    assert!(token_revoke_confirm_text("X").starts_with("Отозвать invite-токен X?"));
    assert!(delete_user_confirm_text(5).starts_with("Удалить пользователя с Telegram ID 5?"));
    assert!(user_ban_confirm_text(5).starts_with("Удалить пользователя 5?"));
    assert_eq!(groups_menu_text(false, true), "📁 Выберите группу для выбранных пользователей\n\nПока нет ни одной группы.");
    assert_eq!(groups_menu_text(true, false), "📁 Группы пользователей\n\nВыберите группу или создайте новую.");
    let g = UserGroup { id: 3, name: "VIP".to_string(), created_at: 0, expires_at: Some(10) };
    let text = group_card_text(&g, 4, "C", "E");
    assert!(text.starts_with("📁 Группа: VIP\nID: 3\nСоздана: C\nУчастников: 4\nОбщий срок группы: E\nUnix timestamp: 10\n\n«Задать/изменить срок»"));
    let g = UserGroup { expires_at: None, ..g };
    assert!(group_card_text(&g, 0, "C", "E").contains("\nОбщий срок группы: не задан.\n\n"));
}

#[test]
fn qr_texts() {
    assert_eq!(user_qr_caption(&request(), "L"), "👤 @alice (42)\n\n🔗 L");
    assert_eq!(user_qr_file_name(42), "telemt-proxy-42.png");
}
