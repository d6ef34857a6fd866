use telemt_admin::callback_data::{CallbackAction, UserLimitField};
use telemt_admin::callbacks::{
    callback_route, is_unchanged_message_error, previous_token_wizard_step, text_contains,
    user_callback, wizard_for_prompt, CallbackRoute, UserCallback,
};
use telemt_admin::wizard::WizardState;

#[test]
fn callback_route_decodes() {
    assert_eq!(callback_route("garbage"), CallbackRoute::Stale);
    assert_eq!(callback_route(&CallbackAction::Noop.encode()), CallbackRoute::Noop);
    assert_eq!(
        callback_route("v1|admin|pending|page|0"),
        CallbackRoute::Dispatch(CallbackAction::ShowPendingRequestsPage { page: 1 })
    );
}

#[test]
fn unchanged_message_errors_are_recognized() {
    assert!(is_unchanged_message_error(
        "Bad Request: message is not modified: specified new message content"
    ));
    assert!(!is_unchanged_message_error("message was deleted"));
    assert!(text_contains("abc", ""));
    assert!(text_contains("abc", "bc"));
    assert!(!text_contains("ab", "abc"));
}

#[test]
fn user_buttons() {
    assert_eq!(user_callback(&CallbackAction::ShowUserHome, false), Some(UserCallback::Home));
    assert_eq!(user_callback(&CallbackAction::ShowUserLink, true), Some(UserCallback::Link));
    assert_eq!(user_callback(&CallbackAction::ShowUsageGuide, false), Some(UserCallback::Guide));
    assert_eq!(
        user_callback(&CallbackAction::PromptInviteToken, false),
        Some(UserCallback::AwaitInviteToken)
    );
    assert_eq!(
        user_callback(&CallbackAction::CancelWizard, true),
        Some(UserCallback::CancelToAdminHome)
    );
    assert_eq!(
        user_callback(&CallbackAction::CancelWizard, false),
        Some(UserCallback::CancelToUserHome)
    );
    assert_eq!(user_callback(&CallbackAction::ShowAdminHome, true), None);
}

#[test]
fn prompts_start_their_wizard_steps() {
    assert_eq!(
        wizard_for_prompt(&CallbackAction::PromptUserLookup { page: 3 }),
        Some(WizardState::AdminFindUserAwaitingTarget { page: 3 })
    );
    assert_eq!(
        wizard_for_prompt(&CallbackAction::PromptUserLimit {
            tg_user_id: 1,
            page: 2,
            field: UserLimitField::Expiration
        }),
        Some(WizardState::AdminSetUserLimitAwaitingValue {
            tg_user_id: 1,
            page: 2,
            field: UserLimitField::Expiration
        })
    );
    assert_eq!(
        wizard_for_prompt(&CallbackAction::PromptDeleteUser),
        Some(WizardState::AdminDeleteAwaitingTarget)
    );
    assert_eq!(wizard_for_prompt(&CallbackAction::ShowStats), None);
}

#[test]
fn token_wizard_goes_back_one_step() {
    let (s, t) = previous_token_wizard_step(Some(WizardState::AdminTokenAwaitingMaxIps {
        auto_approve: true,
        expiration_days: Some(30),
    }))
    .unwrap();
    assert_eq!(s, WizardState::AdminTokenAwaitingExpiration { auto_approve: true });
    assert!(t.starts_with("Выберите срок доступа"));
    let (s, _) = previous_token_wizard_step(Some(WizardState::AdminTokenAwaitingDataQuota {
        auto_approve: false,
        expiration_days: Some(60),
        max_unique_ips: Some(2),
    }))
    .unwrap();
    assert_eq!(
        s,
        WizardState::AdminTokenAwaitingMaxIps { auto_approve: false, expiration_days: Some(60) }
    );
    assert_eq!(previous_token_wizard_step(None), None);
    assert_eq!(previous_token_wizard_step(Some(WizardState::AwaitingInviteToken)), None);
}
