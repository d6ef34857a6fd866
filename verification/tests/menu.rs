use telemt_admin::callback_data::UserLimitField;
use telemt_admin::db::InviteToken;
use telemt_admin::menu::{
    group_created_text, group_expiration_input_in_range, group_expiry_saved_text, menu_step,
    parse_group_expiration_input, quota_input_fits, wizard_token_created_message, MenuAction,
};
use telemt_admin::wizard::WizardState;

const NOW: i64 = 1_700_000_000;

#[test]
fn group_expiration_accepts_all_forms() {
    assert_eq!(parse_group_expiration_input("  ", NOW), Ok(None));
    assert_eq!(parse_group_expiration_input("NONE", NOW), Ok(None));
    assert_eq!(parse_group_expiration_input("Off", NOW), Ok(None));
    assert_eq!(parse_group_expiration_input("без даты", NOW), Ok(None));
    assert_eq!(
        parse_group_expiration_input("2024-01-01T00:00:00Z", NOW),
        Ok(Some(1_704_067_200))
    );
    assert_eq!(
        parse_group_expiration_input("2024-01-01T03:00:00+03:00", NOW),
        Ok(Some(1_704_067_200))
    );
    assert_eq!(parse_group_expiration_input("+30d", NOW), Ok(Some(NOW + 30 * 86_400)));
    assert_eq!(parse_group_expiration_input("+ 2 dd", NOW), Ok(Some(NOW + 2 * 86_400)));
    assert_eq!(
        parse_group_expiration_input("+0", NOW),
        Err("Количество дней должно быть больше нуля".to_string())
    );
    assert_eq!(
        parse_group_expiration_input("+x", NOW),
        Err("Количество дней должно быть положительным целым числом".to_string())
    );
    assert_eq!(
        parse_group_expiration_input("2024-02-03", NOW),
        Ok(Some(1_706_918_400 + 86_399))
    );
    assert_eq!(
        parse_group_expiration_input("tomorrow", NOW),
        Err("Используйте RFC3339, YYYY-MM-DD, +30d или `none`".to_string())
    );
}

#[test]
fn group_expiration_range_check() {
    assert!(group_expiration_input_in_range("+30", NOW));
    assert!(group_expiration_input_in_range("none", NOW));
    assert!(group_expiration_input_in_range("+x", NOW));
    assert!(!group_expiration_input_in_range("+99999999999", NOW));
    assert!(!group_expiration_input_in_range("+96000000", NOW));
}

#[test]
fn menu_without_state_does_not_understand() {
    assert_eq!(
        menu_step(None, false, "hi", NOW),
        MenuAction::Reply(
            "Не понял запрос. Используйте /help или начните нужный сценарий через slash-команду либо кнопку."
                .to_string()
        )
    );
}

#[test]
fn admin_steps_clear_for_non_admins() {
    for state in [
        WizardState::AdminBroadcastAwaitingMessage,
        WizardState::AdminGroupAwaitingName,
        WizardState::AdminGroupExpiryAwaitingValue { group_id: 3 },
        WizardState::AdminImportAwaitingTgId,
    ] {
        assert_eq!(menu_step(Some(state), false, "x", NOW), MenuAction::ClearState);
    }
}

#[test]
fn admin_steps_for_admins() {
    assert_eq!(
        menu_step(Some(WizardState::AdminBroadcastAwaitingMessage), true, " hi ", NOW),
        MenuAction::Broadcast(" hi ".to_string())
    );
    assert_eq!(
        menu_step(Some(WizardState::AdminGroupAwaitingName), true, "  ", NOW),
        MenuAction::CancelGroupCreation
    );
    assert_eq!(
        menu_step(Some(WizardState::AdminGroupAwaitingName), true, " VIP ", NOW),
        MenuAction::CreateGroup("VIP".to_string())
    );
    assert_eq!(
        menu_step(Some(WizardState::AdminGroupExpiryAwaitingValue { group_id: 3 }), true, "+1", NOW),
        MenuAction::SetGroupExpiry { group_id: 3, expires_at: Some(NOW + 86_400) }
    );
    assert_eq!(
        menu_step(Some(WizardState::AdminGroupExpiryAwaitingValue { group_id: 3 }), true, "+0", NOW),
        MenuAction::Reply(
            "Не удалось разобрать срок группы: Количество дней должно быть больше нуля".to_string()
        )
    );
    assert_eq!(
        menu_step(Some(WizardState::AdminImportAwaitingTgId), true, " 42 ", NOW),
        MenuAction::ImportUser(42)
    );
    assert_eq!(
        menu_step(Some(WizardState::AdminImportAwaitingTgId), true, "abc", NOW),
        MenuAction::Reply("Нужен числовой Telegram user id (например 123456789).".to_string())
    );
}

#[test]
fn lookup_steps_pass_the_trimmed_text() {
    assert_eq!(
        menu_step(Some(WizardState::AwaitingInviteToken), false, " ABC ", NOW),
        MenuAction::ProcessInviteToken("ABC".to_string())
    );
    assert_eq!(
        menu_step(Some(WizardState::AdminFindUserAwaitingTarget { page: 2 }), true, "@bob ", NOW),
        MenuAction::FindUser { query: "@bob".to_string(), page: 2 }
    );
    assert_eq!(
        menu_step(
            Some(WizardState::AdminSetUserLimitAwaitingValue {
                tg_user_id: 9,
                page: 1,
                field: UserLimitField::MaxUniqueIps
            }),
            true,
            " 5",
            NOW
        ),
        MenuAction::ApplyUserLimit {
            tg_user_id: 9,
            field: UserLimitField::MaxUniqueIps,
            value: "5".to_string()
        }
    );
    assert_eq!(
        menu_step(Some(WizardState::AdminDeleteAwaitingTarget), true, "77", NOW),
        MenuAction::PromptDelete("77".to_string())
    );
    assert_eq!(
        menu_step(Some(WizardState::AdminTokenCreateAwaitingParams { auto_approve: true }), true, " 5 ", NOW),
        MenuAction::CreateTokenFromText { auto_approve: true, params: "5".to_string() }
    );
}

#[test]
fn token_wizard_steps() {
    assert_eq!(
        menu_step(Some(WizardState::AdminTokenAwaitingExpiration { auto_approve: false }), true, "60", NOW),
        MenuAction::Advance {
            next: WizardState::AdminTokenAwaitingMaxIps { auto_approve: false, expiration_days: Some(60) },
            reply: "Срок доступа: 60 дн.\n\nТеперь введите лимит IP (Max Unique IPs) — количество устройств, с которых можно подключаться. Например: 3 или пропустите это поле отправив /skip".to_string(),
        }
    );
    assert_eq!(
        menu_step(Some(WizardState::AdminTokenAwaitingExpiration { auto_approve: false }), true, "400", NOW),
        MenuAction::Reply("Укажите срок в днях: 30, 60, 180 или другое число (1-365).".to_string())
    );
    assert_eq!(
        menu_step(
            Some(WizardState::AdminTokenAwaitingMaxIps { auto_approve: true, expiration_days: Some(30) }),
            true,
            "/skip",
            NOW
        ),
        MenuAction::Advance {
            next: WizardState::AdminTokenAwaitingDataQuota {
                auto_approve: true,
                expiration_days: Some(30),
                max_unique_ips: None
            },
            reply: "Лимит IP: не ограничен.\n\nТеперь введите квоту трафика в GB (например: 10) или пропустите отправив /skip (0 = безлимит)".to_string(),
        }
    );
    assert_eq!(
        menu_step(
            Some(WizardState::AdminTokenAwaitingMaxIps { auto_approve: true, expiration_days: Some(30) }),
            true,
            "3",
            NOW
        ),
        MenuAction::Advance {
            next: WizardState::AdminTokenAwaitingDataQuota {
                auto_approve: true,
                expiration_days: Some(30),
                max_unique_ips: Some(3)
            },
            reply: "Лимит IP: 3.\n\nТеперь введите квоту трафика в GB (например: 10) или пропустите отправив /skip (0 = безлимит)".to_string(),
        }
    );
    assert_eq!(
        menu_step(
            Some(WizardState::AdminTokenAwaitingDataQuota {
                auto_approve: true,
                expiration_days: Some(30),
                max_unique_ips: Some(3)
            }),
            true,
            "10",
            NOW
        ),
        MenuAction::CreateWizardToken {
            link_days: 30,
            auto_approve: true,
            expiration_days: Some(30),
            max_unique_ips: Some(3),
            data_quota_bytes: Some(10 * 1_073_741_824)
        }
    );
    assert_eq!(
        menu_step(
            Some(WizardState::AdminTokenAwaitingDataQuota {
                auto_approve: false,
                expiration_days: None,
                max_unique_ips: None
            }),
            true,
            "0",
            NOW
        ),
        MenuAction::CreateWizardToken {
            link_days: 30,
            auto_approve: false,
            expiration_days: None,
            max_unique_ips: None,
            data_quota_bytes: None
        }
    );
    assert!(quota_input_fits("8589934591"));
    assert!(!quota_input_fits("8589934592"));
}

#[test]
fn answers_after_work() {
    assert_eq!(group_created_text("VIP", 4), "Группа «VIP» создана (id=4).");
    assert_eq!(group_expiry_saved_text(None), "Общий срок группы снят.");
    assert_eq!(
        group_expiry_saved_text(Some(5)),
        "Общий срок группы обновлён.\nUnix timestamp: 5\nОткройте карточку группы и примените срок к участникам."
    );
    let token = InviteToken {
        id: 1,
        token: "Tok".to_string(),
        created_at: 0,
        expires_at: 0,
        auto_approve: true,
        created_by: Some(1),
        max_usage: None,
        usage_count: 0,
        is_active: true,
        default_expiration_days: Some(30),
        default_max_unique_ips: None,
        default_data_quota_bytes: None,
    };
    assert_eq!(
        wizard_token_created_message(&token, true, None),
        "✅ Invite-токен создан:\nКод: <code>Tok</code>\nСсылка: недоступна (username бота неизвестен).\nРежим: AUTO\nЛимиты пользователя: доступ 30 дн.\n"
    );
}
