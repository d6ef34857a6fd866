use telemt_admin::callback_data::{CallbackAction, ServiceAction, UserLimitField};

#[test]
fn service_action_parse_accepts_known_values() {
    assert_eq!(ServiceAction::parse("start"), Some(ServiceAction::Start));
    assert_eq!(ServiceAction::parse("stop"), Some(ServiceAction::Stop));
    assert_eq!(ServiceAction::parse("restart"), Some(ServiceAction::Restart));
    assert_eq!(ServiceAction::parse("reload"), Some(ServiceAction::Reload));
    assert_eq!(ServiceAction::parse("status"), Some(ServiceAction::Status));
    assert_eq!(ServiceAction::parse("unknown"), None);
}

#[test]
fn user_limit_field_parse_accepts_known_values() {
    assert_eq!(
        UserLimitField::parse("tcp"),
        Some(UserLimitField::MaxTcpConns)
    );
    assert_eq!(
        UserLimitField::parse("quota"),
        Some(UserLimitField::DataQuotaBytes)
    );
    assert_eq!(
        UserLimitField::parse("ips"),
        Some(UserLimitField::MaxUniqueIps)
    );
    assert_eq!(
        UserLimitField::parse("expire"),
        Some(UserLimitField::Expiration)
    );
    assert_eq!(UserLimitField::parse("bad"), None);
}

#[test]
fn callback_action_roundtrip_preserves_payload() {
    let cases = [
        CallbackAction::Noop,
        CallbackAction::ShowPendingRequestsPage { page: 3 },
        CallbackAction::OpenPendingRequest {
            request_id: 42,
            page: 2,
        },
        CallbackAction::PromptUserLimit {
            tg_user_id: 1001,
            page: 4,
            field: UserLimitField::DataQuotaBytes,
        },
        CallbackAction::ConfirmServiceAction {
            action: ServiceAction::Reload,
        },
        CallbackAction::PromptTokenCreate { auto_approve: true },
        CallbackAction::OpenTokenCard {
            token_id: 55,
            page: 7,
        },
        CallbackAction::AssignUserToGroup {
            tg_user_id: 12,
            group_id: 99,
            page: 5,
        },
        CallbackAction::ShowGroupsMenu,
        CallbackAction::OpenGroupCard { group_id: 7 },
        CallbackAction::PromptCreateGroup,
        CallbackAction::GroupDeactivateAll { group_id: 3 },
        CallbackAction::GroupApplyExpiry { group_id: 4 },
        CallbackAction::UserGroupPicker {
            tg_user_id: 100,
            page: 2,
        },
        CallbackAction::AssignUserToGroup {
            tg_user_id: 12,
            group_id: 0,
            page: 1,
        },
        CallbackAction::PromptImportUser,
        CallbackAction::PromptBroadcastApproved,
    ];

    for case in cases {
        let encoded = case.encode();
        assert_eq!(CallbackAction::decode(&encoded), Some(case));
    }
}

#[test]
fn decode_clamps_page_to_one() {
    assert_eq!(
        CallbackAction::decode("v1|admin|pending|page|0"),
        Some(CallbackAction::ShowPendingRequestsPage { page: 1 })
    );
    assert_eq!(
        CallbackAction::decode("v1|admin|user|open|12|-9"),
        Some(CallbackAction::OpenUserCard {
            tg_user_id: 12,
            page: 1,
        })
    );
}

#[test]
fn decode_rejects_invalid_payloads() {
    assert_eq!(CallbackAction::decode("v1|admin|service|confirm|bad"), None);
    assert_eq!(CallbackAction::decode("v1|admin|user|limit|bad|1|2"), None);
    assert_eq!(CallbackAction::decode("v1|admin|pending|open|abc|2"), None);
    assert_eq!(CallbackAction::decode("v2|admin|home"), None);
    assert_eq!(CallbackAction::decode("garbage"), None);
}
