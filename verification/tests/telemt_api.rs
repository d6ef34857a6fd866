use telemt_admin::config::TelemtApiConfig;
use telemt_admin::telemt::{
    api_error_from, api_error_text, legacy_user_info, should_retry_mutation, ApiEndpoint,
    TelemtBackend, TelemtBackendMode, TelemtUserPatch,
};

fn api_config(enabled: bool, base_url: &str, auth: Option<&str>) -> TelemtApiConfig {
    TelemtApiConfig {
        enabled,
        base_url: base_url.to_string(),
        auth_header: auth.map(|a| a.to_string()),
        timeout_ms: 5000,
        allow_file_fallback: true,
        prefer_api_links: true,
    }
}

#[test]
fn backend_mode_follows_api_switch() {
    let api = TelemtBackend::new(&api_config(true, "http://x", None));
    assert_eq!(api.mode(), TelemtBackendMode::ControlApi);
    assert!(api.supports_patch());
    let file = TelemtBackend::new(&api_config(false, "http://x", None));
    assert_eq!(file.mode(), TelemtBackendMode::LegacyFile);
    assert!(!file.supports_patch());
}

#[test]
fn endpoint_drops_trailing_slashes_and_blank_auth() {
    let e = ApiEndpoint::new(&api_config(true, "http://127.0.0.1:9091///", Some("  ")));
    assert_eq!(e.base_url, "http://127.0.0.1:9091");
    assert_eq!(e.auth_header, None);
    assert_eq!(e.endpoint("/v1/users"), "http://127.0.0.1:9091/v1/users");

    let auth = ApiEndpoint::new(&api_config(true, "http://h", Some("Bearer abc123")));
    assert_eq!(auth.base_url, "http://h");
    assert_eq!(auth.auth_header, Some("Bearer abc123".to_string()));
}

#[test]
fn mutation_retried_once_on_revision_conflict() {
    assert!(should_retry_mutation(409, Some("revision_conflict"), false));
    assert!(!should_retry_mutation(409, Some("revision_conflict"), true));
    assert!(!should_retry_mutation(409, Some("other"), false));
    assert!(!should_retry_mutation(409, None, false));
    assert!(!should_retry_mutation(500, Some("revision_conflict"), false));
}

#[test]
fn api_error_prefers_envelope_then_body() {
    let e = api_error_from(
        404,
        Some(("not_found".to_string(), "user missing".to_string())),
        "ignored",
    );
    assert_eq!(e.status, 404);
    assert_eq!(e.code, Some("not_found".to_string()));
    assert_eq!(e.message, "user missing");
    assert_eq!(api_error_text(&e), "telemt API error (404): user missing");

    let raw = api_error_from(502, None, "  bad gateway \n");
    assert_eq!(raw.code, None);
    assert_eq!(raw.message, "bad gateway");
    assert_eq!(api_error_text(&raw), "telemt API error (502): bad gateway");
}

#[test]
fn legacy_user_info_has_only_the_link() {
    let info = legacy_user_info("tg://proxy?x".to_string());
    assert_eq!(info.source, TelemtBackendMode::LegacyFile);
    assert_eq!(info.links, vec!["tg://proxy?x".to_string()]);
    assert_eq!(info.max_tcp_conns, None);
    assert_eq!(info.total_octets, None);
    assert!(info.active_unique_ips_list.is_empty());
}

#[test]
fn user_patch_emptiness() {
    let empty = TelemtUserPatch::default();
    assert!(empty.is_empty());
    let p = TelemtUserPatch { max_unique_ips: Some(3), ..TelemtUserPatch::default() };
    assert!(!p.is_empty());
}
