use telemt_admin::callback_data::CallbackAction;
use telemt_admin::db::{refresh_pending_request, revive_request, RegistrationRequest, RequestStatus};
use telemt_admin::users::group_limits_patch;

fn stored(status: RequestStatus) -> RegistrationRequest {
    RegistrationRequest {
        id: 5,
        tg_user_id: 202,
        tg_username: Some("bob".to_string()),
        tg_display_name: Some("Bob".to_string()),
        status,
        telemt_username: Some("tg_202".to_string()),
        secret: Some("secret".to_string()),
        created_at: 10,
        backend_mode: Some("api".to_string()),
        last_sync_error: None,
        last_seen_revision: Some("r1".to_string()),
        last_synced_at: Some(20),
        invite_token_id: Some(3),
    }
}

#[test]
fn refreshed_pending_request_renews_names_time_and_invite() {
    let r = refresh_pending_request(
        stored(RequestStatus::Pending),
        Some("bob2".to_string()),
        Some("Bob 2".to_string()),
        None,
        99,
    );
    assert_eq!(r.status, RequestStatus::Pending);
    assert_eq!(r.tg_username, Some("bob2".to_string()));
    assert_eq!(r.tg_display_name, Some("Bob 2".to_string()));
    assert_eq!(r.created_at, 99);
    assert_eq!(r.invite_token_id, Some(3));
    assert_eq!(r.secret, Some("secret".to_string()));
    let with_invite = refresh_pending_request(stored(RequestStatus::Pending), None, None, Some(8), 99);
    assert_eq!(with_invite.invite_token_id, Some(8));
    assert_eq!(with_invite.tg_username, None);
}

#[test]
fn revived_request_is_pending_without_link_or_secret() {
    let r = revive_request(stored(RequestStatus::Deleted), Some("bob2".to_string()), None, Some(4), 77);
    assert_eq!(r.status, RequestStatus::Pending);
    assert_eq!(r.telemt_username, None);
    assert_eq!(r.secret, None);
    assert_eq!(r.created_at, 77);
    assert_eq!(r.invite_token_id, Some(4));
    assert_eq!(r.id, 5);
    assert_eq!(r.tg_user_id, 202);
}

#[test]
fn group_limits_patch_from_defaults() {
    assert_eq!(
        group_limits_patch(None, None, None, 0).unwrap_err(),
        "У группы не заданы лимиты. Задайте лимиты в карточке группы."
    );
    let p = group_limits_patch(Some(1), Some(3), Some(1_073_741_824), 0).unwrap();
    assert_eq!(p.expiration_rfc3339, Some("1970-01-02T00:00:00+00:00".to_string()));
    assert_eq!(p.max_unique_ips, Some(3));
    assert_eq!(p.data_quota_bytes, Some(1_073_741_824));
    assert_eq!(p.max_tcp_conns, None);
    let q = group_limits_patch(None, None, Some(5), 0).unwrap();
    assert_eq!(q.expiration_rfc3339, None);
    assert_eq!(q.max_unique_ips, None);
    assert_eq!(q.data_quota_bytes, Some(5));
    let far = group_limits_patch(Some(1), None, None, 8_210_266_876_799).unwrap();
    assert_eq!(far.expiration_rfc3339, Some("2025-12-31T23:59:59Z".to_string()));
}

#[test]
fn encodings_of_distinct_actions_differ() {
    let a = CallbackAction::ShowUsersPage { page: 0 };
    let b = CallbackAction::ShowUsersPage { page: 1 };
    assert!(a.encode().starts_with("v1|") && b.encode().starts_with("v1|"));
    assert_ne!(a.encode(), b.encode());
    assert_ne!(
        CallbackAction::OpenUserCard { tg_user_id: 1, page: 2 }.encode(),
        CallbackAction::OpenTokenCard { token_id: 1, page: 2 }.encode()
    );
    assert_ne!(CallbackAction::ShowStats.encode(), CallbackAction::ShowServicePanel.encode());
}

#[test]
fn first_registration_stores_a_pending_request() {
    let r = telemt_admin::db::new_pending_request(
        1,
        101,
        Some("alice".to_string()),
        Some("Alice".to_string()),
        Some(9),
        1_000,
    );
    assert_eq!(r.id, 1);
    assert_eq!(r.tg_user_id, 101);
    assert_eq!(r.tg_username, Some("alice".to_string()));
    assert_eq!(r.tg_display_name, Some("Alice".to_string()));
    assert_eq!(r.status, RequestStatus::Pending);
    assert_eq!(r.invite_token_id, Some(9));
    assert_eq!(r.created_at, 1_000);
    assert_eq!(r.telemt_username, None);
    assert_eq!(r.secret, None);
    assert_eq!(r.last_synced_at, None);
}
