use telemt_admin::db::{InviteToken, RegistrationRequest, RequestStatus};
use telemt_admin::format::{
    date_text, format_bytes_human, format_mode, format_optional_bytes, format_quota_gb,
    format_token_limits, invite_token_button_title_with, invite_token_card_text_with,
    invite_token_limits_text, render_user_card_text, timestamp_text, usage_guide_text,
    user_card_text_with, user_display_name,
};
use telemt_admin::telemt::{TelemtBackendMode, TelemtUserInfo};

fn sample_request() -> RegistrationRequest {
    RegistrationRequest {
        id: 1,
        tg_user_id: 42,
        tg_username: Some("alice".to_string()),
        tg_display_name: Some("Alice".to_string()),
        status: RequestStatus::Approved,
        telemt_username: Some("tg_42".to_string()),
        secret: Some("secret".to_string()),
        created_at: 1_700_000_000,
        backend_mode: Some("control_api".to_string()),
        last_sync_error: None,
        last_seen_revision: Some("rev-123".to_string()),
        last_synced_at: Some(1_700_000_100),
        invite_token_id: Some(7),
    }
}

fn sample_runtime_info() -> TelemtUserInfo {
    TelemtUserInfo {
        source: TelemtBackendMode::ControlApi,
        user_ad_tag: Some("promo".to_string()),
        max_tcp_conns: Some(10),
        expiration_rfc3339: Some("2026-04-01T00:00:00Z".to_string()),
        data_quota_bytes: Some(4096),
        max_unique_ips: Some(3),
        current_connections: Some(2),
        active_unique_ips: Some(1),
        active_unique_ips_list: vec!["1.1.1.1".to_string()],
        recent_unique_ips: Some(2),
        recent_unique_ips_list: vec!["1.1.1.1".to_string(), "2.2.2.2".to_string()],
        total_octets: Some(8192),
        links: vec!["link-1".to_string(), "link-2".to_string()],
    }
}

fn sample_token() -> InviteToken {
    InviteToken {
        id: 5,
        token: "AbCdEf1234".to_string(),
        created_at: 1_700_000_000,
        expires_at: 1_702_592_000,
        auto_approve: true,
        created_by: Some(77),
        max_usage: Some(10),
        usage_count: 3,
        is_active: true,
        default_expiration_days: Some(30),
        default_max_unique_ips: Some(3),
        default_data_quota_bytes: Some(10 * 1_073_741_824),
    }
}

#[test]
fn format_bytes_human_formats_thresholds() {
    assert_eq!(format_bytes_human(512), "512 B");
    assert_eq!(format_bytes_human(2048), "2.00 KB");
    assert_eq!(format_bytes_human(5 * 1024 * 1024), "5.00 MB");
}

#[test]
fn render_user_card_text_includes_runtime_and_sync_data() {
    let text = render_user_card_text(&sample_request(), Some(&sample_runtime_info()));

    assert!(text.contains("Alice"));
    assert!(text.contains("42"));
    assert!(text.contains("🔗 tg_"));
    assert!(text.contains("📡 ●"));
    assert!(text.contains("соединений"));
}

#[test]
fn render_user_card_text_shows_limits() {
    let req = sample_request();
    let mut info = sample_runtime_info();
    info.max_tcp_conns = Some(10);
    info.current_connections = Some(5);
    let text = render_user_card_text(&req, Some(&info));

    assert!(text.contains("TCP: 10"));
    assert!(text.contains("соединений"));
}

#[test]
fn usage_guide_text_mentions_start_and_link() {
    let text = usage_guide_text();

    assert!(text.contains("/start"));
    assert!(text.contains("Моя ссылка"));
}

fn float_reference(value: u64) -> String {
    const KB: f64 = 1024.0;
    const MB: f64 = KB * 1024.0;
    const GB: f64 = MB * 1024.0;
    const TB: f64 = GB * 1024.0;
    let value_f = value as f64;
    if value_f >= TB {
        format!("{:.2} TB", value_f / TB)
    } else if value_f >= GB {
        format!("{:.2} GB", value_f / GB)
    } else if value_f >= MB {
        format!("{:.2} MB", value_f / MB)
    } else if value_f >= KB {
        format!("{:.2} KB", value_f / KB)
    } else {
        format!("{value} B")
    }
}

#[test]
fn format_bytes_human_agrees_with_float_formatting() {
    let mut values: Vec<u64> = vec![
        0,
        1,
        1023,
        1024,
        1152,
        1_048_575,
        1_048_576,
        1_073_741_823,
        1_073_741_824,
        1_099_511_627_775,
        1_099_511_627_776,
        (1u64 << 53) - 1,
        1u64 << 53,
        (1u64 << 53) + 1,
        (1u64 << 53) + 3,
        u64::MAX - 1024,
        u64::MAX,
    ];
    let mut x: u64 = 0x9E37_79B9_7F4A_7C15;
    for _ in 0..20_000 {
        x ^= x << 13;
        x ^= x >> 7;
        x ^= x << 17;
        let shift = (x % 64) as u32;
        values.push(x >> shift);
        values.push(((x >> 40) & 0xFFFF) * 128 + 1024);
    }
    for v in values {
        assert_eq!(format_bytes_human(v), float_reference(v), "value {v}");
    }
}

#[test]
fn format_bytes_human_rounds_ties_to_even() {
    assert_eq!(format!("{:.2}", 1.125f64), "1.12");
    assert_eq!(format_bytes_human(1152), "1.12 KB");
    assert_eq!(format_bytes_human(1024 * 1024 - 1), "1024.00 KB");
    assert_eq!(format_bytes_human(u64::MAX), "16777216.00 TB");
}

#[test]
fn format_quota_gb_agrees_with_float_formatting() {
    let mut values: Vec<i64> = vec![
        0,
        1,
        -1,
        1_073_741_824,
        10 * 1_073_741_824,
        -5 * 1_073_741_824,
        53_687_091,
        53_687_092,
        i64::MAX,
        i64::MIN,
        i64::MIN + 1,
    ];
    let mut x: u64 = 0x2545_F491_4F6C_DD1D;
    for _ in 0..20_000 {
        x ^= x << 13;
        x ^= x >> 7;
        x ^= x << 17;
        let shift = (x % 64) as u32;
        values.push((x >> shift) as i64);
    }
    for q in values {
        let expected = format!("{:.1} GB", q as f64 / 1_073_741_824.0);
        assert_eq!(format_quota_gb(q), expected, "quota {q}");
    }
    assert_eq!(format_quota_gb(10 * 1_073_741_824), "10.0 GB");
    assert_eq!(format_quota_gb(-1), "-0.0 GB");
}

#[test]
fn format_optional_bytes_uses_dash_when_unknown() {
    assert_eq!(format_optional_bytes(None), "—");
    assert_eq!(format_optional_bytes(Some(3 * 1024 * 1024 * 1024)), "3.00 GB");
}

#[test]
fn format_mode_names_both_modes() {
    assert_eq!(format_mode(true), "АВТОПОДТВЕРЖДЕНИЕ 🚀");
    assert_eq!(format_mode(false), "Ручной ✅");
}

#[test]
fn user_display_name_falls_back_in_order() {
    let mut user = sample_request();
    assert_eq!(user_display_name(&user), "Alice");
    user.tg_display_name = None;
    assert_eq!(user_display_name(&user), "@alice");
    user.tg_username = None;
    assert_eq!(user_display_name(&user), "tg_42");
    user.telemt_username = None;
    user.tg_user_id = -5;
    assert_eq!(user_display_name(&user), "tg_-5");
}

#[test]
fn user_card_text_is_exact() {
    let mut info = sample_runtime_info();
    info.current_connections = Some(12);
    info.active_unique_ips = Some(4);
    let text = user_card_text_with(&sample_request(), Some(&info), "2023-11-14 22:15:00 +00:00");
    assert_eq!(
        text,
        "👤 Alice\n🆔 42 | 📋 approved\n📡 ● 12 соединений | 🌐 4 active IP | 🕘 2 recent IP\n📦 8.00 KB трафика\n🛡 TCP: 10 | 🌍 IP: 3 | 🧮 Квота: 4.00 KB\n⚠️ TCP: 12/10 (превышен!), IP: 4/3 (превышен!)\n⏳ 2026-04-01T00:00:00Z\n🔗 tg_42\n⏱ synced 2023-11-14 22:15:00 +00:00"
    );
}

#[test]
fn user_card_text_without_runtime_info() {
    let mut user = sample_request();
    user.last_synced_at = None;
    let text = render_user_card_text(&user, None);
    assert_eq!(
        text,
        "👤 Alice\n🆔 42 | 📋 approved\n📡 ● 0 соединений | 🌐 0 active IP | 🕘 0 recent IP\n📦 0 B трафика\n🛡 TCP: ∞ | 🌍 IP: ∞ | 🧮 Квота: ∞\n⏳ Не задано\n🔗 tg_42\n⏱ synced —"
    );
}

#[test]
fn token_limits_texts() {
    let token = sample_token();
    assert_eq!(invite_token_limits_text(&token), "доступ 30 дн., IP: 3, 10.0 GB");
    assert_eq!(format_token_limits(&token), "30 дн., IP: 3, 10.0 GB");
    let mut bare = sample_token();
    bare.default_expiration_days = None;
    bare.default_max_unique_ips = None;
    bare.default_data_quota_bytes = None;
    assert_eq!(invite_token_limits_text(&bare), "по умолчанию");
}

#[test]
fn token_card_and_title_are_exact() {
    let token = sample_token();
    assert_eq!(
        invite_token_button_title_with(&token, "15.12.2023"),
        "AbCdEf1234 · AUTO · invite до 15.12.2023"
    );
    assert_eq!(
        invite_token_card_text_with(&token, "15.12.2023", "14.11.2023"),
        "🎟 Invite-токен\n\n🔑 AbCdEf1234\n⚙️ AUTO\n⏳ Срок действия ссылки (invite): до 15.12.2023\n📊 Активаций по ссылке: 3/10\n👤 77\n📅 создан 14.11.2023\n\n📈 Лимиты пользователя: доступ 30 дн., IP: 3, 10.0 GB"
    );
    let mut open = sample_token();
    open.max_usage = None;
    open.created_by = None;
    open.auto_approve = false;
    let text = invite_token_card_text_with(&open, "a", "b");
    assert!(text.contains("⚙️ MANUAL"));
    assert!(text.contains("📊 Активаций по ссылке: 3/∞"));
    assert!(text.contains("👤 —"));
}

#[test]
fn date_texts_fall_back_without_calendar() {
    assert_eq!(date_text(None), "—");
    assert_eq!(date_text(Some("01.02.2024".to_string())), "01.02.2024");
    assert_eq!(timestamp_text(-7, None), "Некорректный timestamp: -7");
}
