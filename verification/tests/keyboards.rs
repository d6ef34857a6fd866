use telemt_admin::callback_data::{CallbackAction, ServiceAction};
use telemt_admin::keyboards::{
    admin_home_keyboard, approve_reject_buttons, cancel_keyboard, confirm_service_action_keyboard,
    pending_requests_keyboard, service_control_buttons, token_list_keyboard, token_menu_keyboard,
    users_page_keyboard, Button,
};

fn labels(k: &Vec<Vec<Button>>) -> Vec<Vec<(String, String)>> {
    k.iter()
        .map(|row| row.iter().map(|b| (b.text.clone(), b.action.encode())).collect())
        .collect()
}

#[test]
fn approve_reject_buttons_point_at_the_request() {
    let k = approve_reject_buttons(9);
    assert_eq!(
        k,
        vec![vec![
            Button {
                text: "✅ Одобрить".to_string(),
                action: CallbackAction::ApproveRequest { request_id: 9, page: 1 }
            },
            Button {
                text: "❌ Отклонить".to_string(),
                action: CallbackAction::RejectRequest { request_id: 9, page: 1 }
            },
        ]]
    );
}

#[test]
fn admin_home_has_three_rows() {
    let k = admin_home_keyboard();
    assert_eq!(k.len(), 3);
    assert_eq!(k[2][0].action, CallbackAction::ShowStats);
}

#[test]
fn pending_list_navigation() {
    let k = pending_requests_keyboard(&vec![(5, "📋 #5 · A".to_string())], 1, 3);
    let l = labels(&k);
    assert_eq!(l.len(), 3);
    assert_eq!(l[0][0].0, "📋 #5 · A");
    assert_eq!(k[0][0].action, CallbackAction::OpenPendingRequest { request_id: 5, page: 1 });
    assert_eq!(k[1][0].action, CallbackAction::ShowPendingRequestsPage { page: 1 });
    assert_eq!(l[1][1].0, "📄 1/3");
    assert_eq!(k[1][2].action, CallbackAction::ShowPendingRequestsPage { page: 2 });
    let last = pending_requests_keyboard(&vec![], 3, 3);
    assert_eq!(last[0][2].action, CallbackAction::ShowPendingRequestsPage { page: 3 });
    let empty = pending_requests_keyboard(&vec![], 1, 0);
    assert_eq!(empty[0][1].text, "📄 1/1");
}

#[test]
fn user_and_token_lists() {
    let k = users_page_keyboard(&vec![(7, "Bob (id 7)".to_string())], 2, 2);
    assert_eq!(k[0][0].text, "👤 Bob (id 7)");
    assert_eq!(k[0][0].action, CallbackAction::OpenUserCard { tg_user_id: 7, page: 2 });
    assert_eq!(k.len(), 5);
    let t = token_list_keyboard(&vec![(3, "T".to_string())], 1, 1);
    assert_eq!(t[0][0].text, "🎟 T");
    assert_eq!(t[0][0].action, CallbackAction::OpenTokenCard { token_id: 3, page: 1 });
    assert_eq!(t[3][0].action, CallbackAction::ShowTokenMenu);
}

#[test]
fn token_menu_offers_auto_tokens_only_when_allowed() {
    assert_eq!(token_menu_keyboard(false).len(), 3);
    let k = token_menu_keyboard(true);
    assert_eq!(k.len(), 4);
    assert_eq!(k[1][0].action, CallbackAction::PromptTokenCreate { auto_approve: true });
}

#[test]
fn service_and_confirmations() {
    let k = service_control_buttons();
    assert_eq!(
        k[0][1].action,
        CallbackAction::ExecuteServiceAction { action: ServiceAction::Reload }
    );
    assert_eq!(
        confirm_service_action_keyboard(ServiceAction::Stop)[0][0].action,
        CallbackAction::ExecuteServiceAction { action: ServiceAction::Stop }
    );
    let c = cancel_keyboard(CallbackAction::ShowAdminHome);
    assert_eq!(c[0][1].action, CallbackAction::CancelWizard);
}
