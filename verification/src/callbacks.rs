//! Inline-button presses: which press is handled how, and which wizard step
//! a button starts or goes back to.

use vstd::prelude::*;

use crate::callback_data::{decode_spec, CallbackAction};
use crate::text::str_chars;
use crate::wizard::WizardState;

verus! {

/// What a button press leads to.
#[derive(Debug, Clone, PartialEq, Eq)]
pub enum CallbackRoute {
    /// The payload is not understood: tell the user the button is out of date.
    Stale,
    /// The button does nothing: just acknowledge it.
    Noop,
    /// Handle this action.
    Dispatch(CallbackAction),
}

pub fn callback_route(data: &str) -> (r: CallbackRoute)
    ensures
        match decode_spec(data@) {
            None => r == CallbackRoute::Stale,
            Some(CallbackAction::Noop) => r == CallbackRoute::Noop,
            Some(a) => r == CallbackRoute::Dispatch(a),
        },
{
    match CallbackAction::decode(data) {
        None => CallbackRoute::Stale,
        Some(CallbackAction::Noop) => CallbackRoute::Noop,
        Some(a) => CallbackRoute::Dispatch(a),
    }
}

/// `needle` occurs in `hay`.
pub open spec fn contains_text(hay: Seq<char>, needle: Seq<char>) -> bool {
    exists|i: int| 0 <= i && i + needle.len() <= hay.len() && #[trigger] hay.subrange(i, i + needle.len()) == needle
}

/// Whether `hay` holds `needle` at index `i`.
fn occurs_at(hay: &[char], needle: &[char], i: usize) -> (r: bool)
    requires
        i + needle@.len() <= hay@.len(),
    ensures
        r == (hay@.subrange(i as int, i + needle@.len()) == needle@),
{
    let hl = hay.len();
    for k in 0..needle.len()
        invariant
            hl == hay@.len(),
            i + needle@.len() <= hay@.len(),
            forall|j: int| 0 <= j < k ==> hay@[i + j] == needle@[j],
    {
        assert(i + k < hl);
        let idx: usize = i + k;
        if hay[idx] != needle[k] {
            assert(hay@.subrange(i as int, i + needle@.len())[k as int] != needle@[k as int]);
            return false;
        }
    }
    assert(hay@.subrange(i as int, i + needle@.len()) =~= needle@);
    true
}

/// `str::contains`.
pub fn text_contains(hay: &str, needle: &str) -> (r: bool)
    ensures
        r == contains_text(hay@, needle@),
{
    let h = str_chars(hay);
    let n = str_chars(needle);
    if n.len() > h.len() {
        return false;
    }
    let last = h.len() - n.len();
    let mut i: usize = 0;
    while i < last
        invariant
            h@ == hay@,
            n@ == needle@,
            i <= last,
            last + n@.len() == h@.len(),
            forall|j: int| 0 <= j < i ==> #[trigger] h@.subrange(j, j + n@.len()) != n@,
        decreases last - i,
    {
        if occurs_at(h.as_slice(), n.as_slice(), i) {
            return true;
        }
        i = i + 1;
    }
    if occurs_at(h.as_slice(), n.as_slice(), last) {
        return true;
    }
    assert forall|j: int| 0 <= j && j + needle@.len() <= hay@.len() implies #[trigger] hay@.subrange(j, j + needle@.len()) != needle@ by {
        assert(j <= last);
    }
    false
}

/// A failed button press whose only fault is that the screen was already
/// showing the same text; it is passed over silently.
pub fn is_unchanged_message_error(error_text: &str) -> (r: bool)
    ensures
        r == contains_text(error_text@, "message is not modified"@),
{
    text_contains(error_text, "message is not modified")
}

/// The screens and steps of the buttons every user has.
#[derive(Debug, Clone, Copy, PartialEq, Eq, Structural)]
pub enum UserCallback {
    /// Forget the wizard step, then show the user's home screen.
    Home,
    /// Show the user's proxy link.
    Link,
    /// Show how to connect.
    Guide,
    /// Wait for an invite code in the next message.
    AwaitInviteToken,
    /// Forget the wizard step, then show the administrator's home screen.
    CancelToAdminHome,
    /// Forget the wizard step, then show the user's home screen.
    CancelToUserHome,
}

/// Which user button an action is; none for administrators' buttons.
pub fn user_callback(action: &CallbackAction, is_admin: bool) -> (r: Option<UserCallback>)
    ensures
        match *action {
            CallbackAction::ShowUserHome => r == Some(UserCallback::Home),
            CallbackAction::ShowUserLink => r == Some(UserCallback::Link),
            CallbackAction::ShowUsageGuide => r == Some(UserCallback::Guide),
            CallbackAction::PromptInviteToken => r == Some(UserCallback::AwaitInviteToken),
            CallbackAction::CancelWizard => r == Some(
                if is_admin {
                    UserCallback::CancelToAdminHome
                } else {
                    UserCallback::CancelToUserHome
                },
            ),
            _ => r is None,
        },
{
    match action {
        CallbackAction::ShowUserHome => Some(UserCallback::Home),
        CallbackAction::ShowUserLink => Some(UserCallback::Link),
        CallbackAction::ShowUsageGuide => Some(UserCallback::Guide),
        CallbackAction::PromptInviteToken => Some(UserCallback::AwaitInviteToken),
        CallbackAction::CancelWizard => Some(
            if is_admin {
                UserCallback::CancelToAdminHome
            } else {
                UserCallback::CancelToUserHome
            },
        ),
        _ => None,
    }
}

/// The wizard step a "prompt" button starts; none for other buttons.
pub fn wizard_for_prompt(action: &CallbackAction) -> (r: Option<WizardState>)
    ensures
        match *action {
            CallbackAction::PromptUserLookup { page } => r == Some(WizardState::AdminFindUserAwaitingTarget { page }),
            CallbackAction::PromptUserLimit { tg_user_id, page, field } => r == Some(
                WizardState::AdminSetUserLimitAwaitingValue { tg_user_id, page, field },
            ),
            CallbackAction::PromptTokenLookup { page } => r == Some(WizardState::AdminFindTokenAwaitingCode { page }),
            CallbackAction::PromptTokenCreate { auto_approve } => r == Some(
                WizardState::AdminTokenCreateAwaitingParams { auto_approve },
            ),
            CallbackAction::PromptDeleteUser => r == Some(WizardState::AdminDeleteAwaitingTarget),
            _ => r is None,
        },
{
    match action {
        CallbackAction::PromptUserLookup { page } => Some(WizardState::AdminFindUserAwaitingTarget { page: *page }),
        CallbackAction::PromptUserLimit { tg_user_id, page, field } => Some(
            WizardState::AdminSetUserLimitAwaitingValue { tg_user_id: *tg_user_id, page: *page, field: *field },
        ),
        CallbackAction::PromptTokenLookup { page } => Some(WizardState::AdminFindTokenAwaitingCode { page: *page }),
        CallbackAction::PromptTokenCreate { auto_approve } => Some(
            WizardState::AdminTokenCreateAwaitingParams { auto_approve: *auto_approve },
        ),
        CallbackAction::PromptDeleteUser => Some(WizardState::AdminDeleteAwaitingTarget),
        _ => None,
    }
}

/// One step back in the token wizard, with the prompt of that step: from the
/// IP limit back to the period, from the quota back to the IP limit; from
/// anywhere else there is no previous step.
pub fn previous_token_wizard_step(current: Option<WizardState>) -> (r: Option<(WizardState, &'static str)>)
    ensures
        match current {
            Some(WizardState::AdminTokenAwaitingMaxIps { auto_approve, .. }) => r matches Some((s, t))
                && s == (WizardState::AdminTokenAwaitingExpiration { auto_approve })
                && t@ == "Выберите срок доступа пользователя в днях:\n• 30 дней\n• 60 дней\n• 180 дней\n• или другое число (1-365)"@,
            Some(WizardState::AdminTokenAwaitingDataQuota { auto_approve, expiration_days, .. }) => r matches Some((s, t))
                && s == (WizardState::AdminTokenAwaitingMaxIps { auto_approve, expiration_days })
                && t@ == "Введите лимит IP (количество устройств, с которых можно подключаться).\nНапример: 3 или пропустите отправив /skip"@,
            _ => r is None,
        },
{
    match current {
        Some(WizardState::AdminTokenAwaitingMaxIps { auto_approve, .. }) => Some(
            (
                WizardState::AdminTokenAwaitingExpiration { auto_approve },
                "Выберите срок доступа пользователя в днях:\n• 30 дней\n• 60 дней\n• 180 дней\n• или другое число (1-365)",
            ),
        ),
        Some(WizardState::AdminTokenAwaitingDataQuota { auto_approve, expiration_days, .. }) => Some(
            (
                WizardState::AdminTokenAwaitingMaxIps { auto_approve, expiration_days },
                "Введите лимит IP (количество устройств, с которых можно подключаться).\nНапример: 3 или пропустите отправив /skip",
            ),
        ),
        _ => None,
    }
}

} // verus!
