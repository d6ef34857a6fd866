use telemt_admin::callback_data::UserLimitField;
use telemt_admin::wizard::WizardState;

fn roundtrip(state: WizardState) -> Option<WizardState> {
    WizardState::decode(&state.encode())
}

#[test]
fn wizard_simple_states_encode_to_fixed_keys() {
    assert_eq!(WizardState::AwaitingInviteToken.encode(), "awaiting_invite_token");
    assert_eq!(WizardState::AdminDeleteAwaitingTarget.encode(), "admin_delete_awaiting_target");
    assert_eq!(WizardState::AdminBroadcastAwaitingMessage.encode(), "admin_broadcast_awaiting");
    assert_eq!(WizardState::AdminGroupAwaitingName.encode(), "admin_group_awaiting_name");
    assert_eq!(WizardState::AdminImportAwaitingTgId.encode(), "admin_import_awaiting_tg_id");
}

#[test]
fn wizard_states_with_fields_encode_their_fields() {
    assert_eq!(
        WizardState::AdminFindUserAwaitingTarget { page: 3 }.encode(),
        "admin_find_user:3"
    );
    assert_eq!(
        WizardState::AdminFindUserAwaitingTarget { page: 0 }.encode(),
        "admin_find_user:1"
    );
    assert_eq!(
        WizardState::AdminSetUserLimitAwaitingValue {
            tg_user_id: 42,
            page: 2,
            field: UserLimitField::MaxUniqueIps,
        }
        .encode(),
        "admin_set_user_limit:ips:42:2"
    );
    assert_eq!(
        WizardState::AdminTokenCreateAwaitingParams { auto_approve: true }.encode(),
        "admin_token_create:auto"
    );
    assert_eq!(
        WizardState::AdminTokenAwaitingExpiration { auto_approve: false }.encode(),
        "admin_token_exp:manual"
    );
    assert_eq!(
        WizardState::AdminTokenAwaitingMaxIps { auto_approve: true, expiration_days: None }
            .encode(),
        "admin_token_ips:auto:0"
    );
    assert_eq!(
        WizardState::AdminTokenAwaitingDataQuota {
            auto_approve: false,
            expiration_days: Some(30),
            max_unique_ips: Some(3),
        }
        .encode(),
        "admin_token_quota:manual:30:3"
    );
    assert_eq!(
        WizardState::AdminGroupExpiryAwaitingValue { group_id: -7 }.encode(),
        "admin_group_expiry:-7"
    );
}

#[test]
fn wizard_roundtrip_keeps_every_state() {
    let states = vec![
        WizardState::AwaitingInviteToken,
        WizardState::AdminDeleteAwaitingTarget,
        WizardState::AdminFindUserAwaitingTarget { page: 5 },
        WizardState::AdminSetUserLimitAwaitingValue {
            tg_user_id: 123456789,
            page: 4,
            field: UserLimitField::DataQuotaBytes,
        },
        WizardState::AdminFindTokenAwaitingCode { page: 1 },
        WizardState::AdminTokenCreateAwaitingParams { auto_approve: false },
        WizardState::AdminTokenAwaitingExpiration { auto_approve: true },
        WizardState::AdminTokenAwaitingMaxIps { auto_approve: false, expiration_days: Some(60) },
        WizardState::AdminTokenAwaitingDataQuota {
            auto_approve: true,
            expiration_days: Some(180),
            max_unique_ips: None,
        },
        WizardState::AdminBroadcastAwaitingMessage,
        WizardState::AdminGroupAwaitingName,
        WizardState::AdminGroupExpiryAwaitingValue { group_id: 9 },
        WizardState::AdminImportAwaitingTgId,
    ];
    for s in states {
        assert_eq!(roundtrip(s.clone()), Some(s));
    }
}

#[test]
fn wizard_roundtrip_normalizes_pages_and_zero_counts() {
    assert_eq!(
        roundtrip(WizardState::AdminFindTokenAwaitingCode { page: -4 }),
        Some(WizardState::AdminFindTokenAwaitingCode { page: 1 })
    );
    assert_eq!(
        roundtrip(WizardState::AdminTokenAwaitingMaxIps {
            auto_approve: true,
            expiration_days: Some(0),
        }),
        Some(WizardState::AdminTokenAwaitingMaxIps { auto_approve: true, expiration_days: None })
    );
}

#[test]
fn wizard_decode_rejects_unknown_or_broken_keys() {
    assert_eq!(WizardState::decode(""), None);
    assert_eq!(WizardState::decode("something_else"), None);
    assert_eq!(WizardState::decode("admin_find_user:abc"), None);
    assert_eq!(WizardState::decode("admin_group_expiry:"), None);
    assert_eq!(WizardState::decode("admin_set_user_limit:bogus:1:1"), None);
    assert_eq!(WizardState::decode("admin_set_user_limit:ips:1"), None);
}

#[test]
fn wizard_decode_reads_loose_token_keys() {
    assert_eq!(
        WizardState::decode("admin_token_exp:whatever"),
        Some(WizardState::AdminTokenAwaitingExpiration { auto_approve: false })
    );
    assert_eq!(
        WizardState::decode("admin_token_ips:auto"),
        Some(WizardState::AdminTokenAwaitingMaxIps { auto_approve: true, expiration_days: None })
    );
    assert_eq!(
        WizardState::decode("admin_token_quota:manual:x:5"),
        Some(WizardState::AdminTokenAwaitingDataQuota {
            auto_approve: false,
            expiration_days: None,
            max_unique_ips: Some(5),
        })
    );
}
