use telemt_admin::shared::{
    build_bot_start_link, build_user_qr_png_bytes, escape_html, format_admin_backend_error,
    normalize_start_token, parse_create_target, parse_start_token, start_argument_text,
    CreateTarget,
};

#[test]
fn parse_create_target_reads_ids_and_usernames() {
    assert_eq!(parse_create_target("  12345 "), Some(CreateTarget::UserId(12345)));
    assert_eq!(parse_create_target("-7"), Some(CreateTarget::UserId(-7)));
    assert_eq!(parse_create_target("+8"), Some(CreateTarget::UserId(8)));
    assert_eq!(
        parse_create_target(" @alice "),
        Some(CreateTarget::Username("alice".to_string()))
    );
    assert_eq!(
        parse_create_target("@ bob"),
        Some(CreateTarget::Username("bob".to_string()))
    );
    assert_eq!(parse_create_target("@"), None);
    assert_eq!(parse_create_target("   "), None);
    assert_eq!(parse_create_target("alice"), None);
    assert_eq!(parse_create_target("99999999999999999999"), None);
}

#[test]
fn parse_start_token_reads_the_payload() {
    assert_eq!(parse_start_token("/start ABC123"), Some("ABC123".to_string()));
    assert_eq!(parse_start_token("  /start   `ABC`  extra"), Some("ABC".to_string()));
    assert_eq!(parse_start_token("/startgroup XYZ"), Some("XYZ".to_string()));
    assert_eq!(parse_start_token("/start"), None);
    assert_eq!(parse_start_token("/help ABC"), None);
    assert_eq!(parse_start_token("hello /start ABC"), None);
    assert_eq!(parse_start_token("/start ```"), None);
    assert_eq!(parse_start_token(""), None);
}

#[test]
fn parse_start_token_percent_decodes() {
    assert_eq!(parse_start_token("/start A%42C"), Some("ABC".to_string()));
    assert_eq!(parse_start_token("/start %60tok%60"), Some("tok".to_string()));
    assert_eq!(parse_start_token("/start a+b"), Some("a+b".to_string()));
    // Bytes that are not UTF-8 leave the argument as it was.
    assert_eq!(parse_start_token("/start %FFx"), Some("%FFx".to_string()));
}

#[test]
fn start_argument_and_normalization() {
    assert_eq!(start_argument_text("/start  a b"), Some("a".to_string()));
    assert_eq!(start_argument_text("/stop a"), None);
    assert_eq!(normalize_start_token(" `` x `` "), Some("x".to_string()));
    assert_eq!(normalize_start_token("` `"), None);
}

#[test]
fn escape_html_replaces_markup_characters() {
    assert_eq!(escape_html("a<b>&c"), "a&lt;b&gt;&amp;c");
    assert_eq!(escape_html("&lt;"), "&amp;lt;");
    assert_eq!(escape_html("plain"), "plain");
}

#[test]
fn format_admin_backend_error_escapes_both_parts() {
    assert_eq!(
        format_admin_backend_error("save <x>", "a & b"),
        "<b>Ошибка backend</b>\n\n<b>Операция:</b> save &lt;x&gt;\n<b>Причина:</b>\n<pre>a &amp; b</pre>"
    );
}

#[test]
fn build_bot_start_link_strips_at_signs() {
    assert_eq!(
        build_bot_start_link("@@my_bot", "TOKEN"),
        "https://t.me/my_bot?start=TOKEN"
    );
    assert_eq!(build_bot_start_link("bot", "x"), "https://t.me/bot?start=x");
}

#[test]
fn build_user_qr_png_bytes_gives_a_png() {
    let bytes = build_user_qr_png_bytes("tg://proxy?server=example.org&port=443").unwrap();
    assert!(bytes.len() > 8);
    assert_eq!(&bytes[0..8], &[0x89, b'P', b'N', b'G', 0x0D, 0x0A, 0x1A, 0x0A]);
    let too_long = "x".repeat(8000);
    assert!(build_user_qr_png_bytes(&too_long).is_err());
}
