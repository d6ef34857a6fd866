use telemt_admin::commands::{
    check_token_days, command_argument, command_id_argument, command_kind, delete_command,
    extract_command_name, help_text, parse_token_args, service_command, split_words,
    token_command, token_created_text_with, token_request_from_text, CommandKind, DeleteCommand,
    ServiceCommand, TokenArgs, TokenArgsError, TokenCommand, TokenRequest, TokenRequestError,
};
use telemt_admin::callback_data::ServiceAction;
use telemt_admin::config::SecurityConfig;
use telemt_admin::db::InviteToken;

fn security() -> SecurityConfig {
    SecurityConfig {
        default_token_days: 7,
        max_token_days: 30,
        allow_auto_approve_tokens: false,
        wizard_state_ttl_seconds: None,
    }
}

fn words(s: &str) -> Vec<String> {
    split_words(s)
}

#[test]
fn split_words_matches_split_whitespace() {
    for text in ["", "  a  b\tc\n", "one", "  ", "x\u{3000}y", "/token create 5 --auto"] {
        let expected: Vec<String> = text.split_whitespace().map(|w| w.to_string()).collect();
        assert_eq!(split_words(text), expected);
    }
}

#[test]
fn extract_command_name_checks_the_mention() {
    assert_eq!(extract_command_name("/start abc", None), Some("start".to_string()));
    assert_eq!(
        extract_command_name("/token@MyBot list", Some("@mybot")),
        Some("token".to_string())
    );
    assert_eq!(extract_command_name("/token@OtherBot", Some("mybot")), None);
    assert_eq!(extract_command_name("/help@any", None), Some("help".to_string()));
    assert_eq!(extract_command_name("hello", None), None);
    assert_eq!(extract_command_name("   ", None), None);
    assert_eq!(extract_command_name("/", None), Some("".to_string()));
}

#[test]
fn command_kind_knows_the_commands() {
    assert_eq!(command_kind("start"), CommandKind::Start);
    assert_eq!(command_kind("token"), CommandKind::Token);
    assert_eq!(command_kind("service"), CommandKind::Service);
    assert_eq!(command_kind("Start"), CommandKind::Unknown);
}

#[test]
fn help_text_differs_for_admins() {
    assert!(help_text(true).contains("/approve <id>"));
    assert!(!help_text(false).contains("/approve"));
    assert!(help_text(false).starts_with("Команды:\n/start — начать регистрацию"));
}

#[test]
fn command_arguments() {
    assert_eq!(command_argument("/approve 12 x"), Some("12".to_string()));
    assert_eq!(command_argument("/approve"), None);
    assert_eq!(command_id_argument("/approve 12"), Some(12));
    assert_eq!(command_id_argument("/approve x"), None);
    assert_eq!(command_id_argument("/approve"), None);
    assert_eq!(delete_command("/delete 5"), DeleteCommand::Confirm(5));
    assert_eq!(delete_command("/delete five"), DeleteCommand::Usage);
    assert_eq!(delete_command("/delete"), DeleteCommand::Prompt);
    assert_eq!(service_command("/service"), ServiceCommand::ShowPanel);
    assert_eq!(
        service_command("/service reload"),
        ServiceCommand::Run(ServiceAction::Reload)
    );
    assert_eq!(service_command("/service explode"), ServiceCommand::Usage);
}

#[test]
fn token_args_are_read_in_order() {
    let ws = words("/token create 5 --auto --max-uses 3");
    assert_eq!(
        parse_token_args(&ws, 2, true),
        Ok(TokenArgs { days: Some(5), auto_approve: true, max_uses: Some(3) })
    );
    assert_eq!(
        parse_token_args(&words("/token create --max-uses"), 2, true),
        Err(TokenArgsError::MissingMaxUsesValue)
    );
    assert_eq!(
        parse_token_args(&words("/token create --max-uses 0"), 2, true),
        Err(TokenArgsError::InvalidMaxUses)
    );
    assert_eq!(
        parse_token_args(&words("/token create 5 6"), 2, true),
        Err(TokenArgsError::RepeatedDays)
    );
    assert_eq!(
        parse_token_args(&words("--auto"), 0, false),
        Err(TokenArgsError::UnknownWord)
    );
    assert_eq!(
        parse_token_args(&words(""), 0, false),
        Ok(TokenArgs { days: None, auto_approve: false, max_uses: None })
    );
}

#[test]
fn token_days_are_checked() {
    let sec = security();
    assert_eq!(check_token_days(None, &sec), Ok(7));
    assert_eq!(check_token_days(Some(0), &sec), Err(TokenRequestError::TooShort));
    assert_eq!(check_token_days(Some(31), &sec), Err(TokenRequestError::TooLong(30)));
    assert_eq!(
        TokenRequestError::TooLong(30).message(),
        "Нельзя создать токен на срок больше 30 дней."
    );
}

#[test]
fn token_command_decides() {
    let mut sec = security();
    assert_eq!(token_command("/token", &sec), TokenCommand::ShowMenu);
    assert_eq!(token_command("/token list", &sec), TokenCommand::List);
    assert_eq!(
        token_command("/token revoke ABC", &sec),
        TokenCommand::Revoke("ABC".to_string())
    );
    assert_eq!(
        token_command("/token revoke", &sec),
        TokenCommand::Reply("Использование: /token revoke <token>".to_string())
    );
    assert_eq!(
        token_command("/token create 3 --max-uses 2", &sec),
        TokenCommand::Create(TokenRequest { days: 3, auto_approve: false, max_uses: Some(2) })
    );
    assert_eq!(
        token_command("/token create -a", &sec),
        TokenCommand::Reply("Автоподтверждение токенов запрещено в конфигурации.".to_string())
    );
    assert_eq!(
        token_command("/token create --max-uses x", &sec),
        TokenCommand::Reply("Параметр --max-uses должен быть целым числом >= 1.".to_string())
    );
    assert_eq!(
        token_command("/token create soon", &sec),
        TokenCommand::Reply(
            "Использование: /token create [days] [--auto|-a] [--max-uses N]".to_string()
        )
    );
    assert_eq!(
        token_command("/token what", &sec),
        TokenCommand::Reply(
            "Использование:\n/token create [days] [--auto|-a] [--max-uses N]\n/token list\n/token revoke <token>"
                .to_string()
        )
    );
    sec.allow_auto_approve_tokens = true;
    assert_eq!(
        token_command("/token create -a", &sec),
        TokenCommand::Create(TokenRequest { days: 7, auto_approve: true, max_uses: None })
    );
}

#[test]
fn token_request_from_wizard_text() {
    let mut sec = security();
    assert_eq!(
        token_request_from_text(false, "7 --max-uses 3", &sec),
        Ok(TokenRequest { days: 7, auto_approve: false, max_uses: Some(3) })
    );
    assert_eq!(
        token_request_from_text(true, "7", &sec),
        Err("Автоподтверждение токенов запрещено в конфигурации.".to_string())
    );
    assert_eq!(
        token_request_from_text(false, "7 8", &sec),
        Err("Срок действия можно указать только один раз.".to_string())
    );
    assert_eq!(
        token_request_from_text(false, "--max-uses", &sec),
        Err("Формат: [days] [--max-uses N]\nНапример: 7 --max-uses 3 или пустое сообщение для значений по умолчанию.".to_string())
    );
    assert_eq!(
        token_request_from_text(false, "--max-uses -1", &sec),
        Err("Параметр --max-uses должен быть >= 1.".to_string())
    );
    assert_eq!(
        token_request_from_text(false, "x", &sec),
        Err("Формат: [days] [--max-uses N]\nНапример: 7 --max-uses 3.".to_string())
    );
    assert_eq!(
        token_request_from_text(false, "0", &sec),
        Err("Срок действия должен быть не меньше 1 дня.".to_string())
    );
    sec.allow_auto_approve_tokens = true;
    assert_eq!(
        token_request_from_text(true, "", &sec),
        Ok(TokenRequest { days: 7, auto_approve: true, max_uses: None })
    );
}

#[test]
fn token_created_texts() {
    let token = InviteToken {
        id: 1,
        token: "Tok".to_string(),
        created_at: 0,
        expires_at: 0,
        auto_approve: false,
        created_by: None,
        max_usage: None,
        usage_count: 0,
        is_active: true,
        default_expiration_days: None,
        default_max_unique_ips: None,
        default_data_quota_bytes: None,
    };
    assert_eq!(
        token_created_text_with(&token, Some("bot"), "01.01.2030", false),
        "✅ Токен создан:\nКод: <code>Tok</code>\nСсылка: https://t.me/bot?start=Tok\nРежим: Ручной ✅\nДействует до: 01.01.2030\nЛимит использований: без лимита\nИспользуйте команду <code>/token revoke Tok</code> для отзыва."
    );
    let mut limited = token.clone();
    limited.max_usage = Some(4);
    limited.auto_approve = true;
    assert_eq!(
        token_created_text_with(&limited, None, "d", true),
        "✅ Токен создан:\nКод: <code>Tok</code>\nСсылка: недоступна (у бота не задан username в Telegram).\nРежим: АВТОПОДТВЕРЖДЕНИЕ 🚀\nДействует до: d\nЛимит использований: 4\nДля отзыва используйте `/token` -> «Отозвать токен» или старую команду <code>/token revoke Tok</code>."
    );
}
