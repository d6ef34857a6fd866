//! Inline-button payloads: every button of the bot carries one
//! `CallbackAction`, encoded as `v1|...` pieces joined with `|`.

use vstd::prelude::*;

use crate::text::{
    chars_eq_str, i64_to_string, int_str, join_on, join_strings, lemma_int_str_no_char,
    lemma_parse_int_str, lemma_split_join, lit, parse_i64, parse_i64_spec, split_chars, split_on,
    str_chars, string_views, views_of,
};

verus! {

#[derive(Clone, Copy, Debug, PartialEq, Eq, Structural)]
pub enum ServiceAction {
    Start,
    Stop,
    Restart,
    Reload,
    Status,
}

impl ServiceAction {
    pub open spec fn text(self) -> Seq<char> {
        match self {
            ServiceAction::Start => "start"@,
            ServiceAction::Stop => "stop"@,
            ServiceAction::Restart => "restart"@,
            ServiceAction::Reload => "reload"@,
            ServiceAction::Status => "status"@,
        }
    }

    pub open spec fn parse_spec(v: Seq<char>) -> Option<ServiceAction> {
        if v == "start"@ {
            Some(ServiceAction::Start)
        } else if v == "stop"@ {
            Some(ServiceAction::Stop)
        } else if v == "restart"@ {
            Some(ServiceAction::Restart)
        } else if v == "reload"@ {
            Some(ServiceAction::Reload)
        } else if v == "status"@ {
            Some(ServiceAction::Status)
        } else {
            None
        }
    }

    pub fn as_str(self) -> (r: &'static str)
        ensures
            r@ == self.text(),
    {
        match self {
            ServiceAction::Start => "start",
            ServiceAction::Stop => "stop",
            ServiceAction::Restart => "restart",
            ServiceAction::Reload => "reload",
            ServiceAction::Status => "status",
        }
    }

    pub fn parse_chars(value: &[char]) -> (r: Option<ServiceAction>)
        ensures
            r == Self::parse_spec(value@),
    {
        if chars_eq_str(value, "start") {
            Some(ServiceAction::Start)
        } else if chars_eq_str(value, "stop") {
            Some(ServiceAction::Stop)
        } else if chars_eq_str(value, "restart") {
            Some(ServiceAction::Restart)
        } else if chars_eq_str(value, "reload") {
            Some(ServiceAction::Reload)
        } else if chars_eq_str(value, "status") {
            Some(ServiceAction::Status)
        } else {
            None
        }
    }

    pub fn parse(value: &str) -> (r: Option<ServiceAction>)
        ensures
            r == Self::parse_spec(value@),
    {
        let v = str_chars(value);
        Self::parse_chars(v.as_slice())
    }
}

#[derive(Clone, Copy, Debug, PartialEq, Eq, Structural)]
pub enum UserLimitField {
    MaxTcpConns,
    DataQuotaBytes,
    MaxUniqueIps,
    Expiration,
}

impl UserLimitField {
    pub open spec fn text(self) -> Seq<char> {
        match self {
            UserLimitField::MaxTcpConns => "tcp"@,
            UserLimitField::DataQuotaBytes => "quota"@,
            UserLimitField::MaxUniqueIps => "ips"@,
            UserLimitField::Expiration => "expire"@,
        }
    }

    pub open spec fn parse_spec(v: Seq<char>) -> Option<UserLimitField> {
        if v == "tcp"@ {
            Some(UserLimitField::MaxTcpConns)
        } else if v == "quota"@ {
            Some(UserLimitField::DataQuotaBytes)
        } else if v == "ips"@ {
            Some(UserLimitField::MaxUniqueIps)
        } else if v == "expire"@ {
            Some(UserLimitField::Expiration)
        } else {
            None
        }
    }

    pub fn as_str(self) -> (r: &'static str)
        ensures
            r@ == self.text(),
    {
        match self {
            UserLimitField::MaxTcpConns => "tcp",
            UserLimitField::DataQuotaBytes => "quota",
            UserLimitField::MaxUniqueIps => "ips",
            UserLimitField::Expiration => "expire",
        }
    }

    pub fn parse_chars(value: &[char]) -> (r: Option<UserLimitField>)
        ensures
            r == Self::parse_spec(value@),
    {
        if chars_eq_str(value, "tcp") {
            Some(UserLimitField::MaxTcpConns)
        } else if chars_eq_str(value, "quota") {
            Some(UserLimitField::DataQuotaBytes)
        } else if chars_eq_str(value, "ips") {
            Some(UserLimitField::MaxUniqueIps)
        } else if chars_eq_str(value, "expire") {
            Some(UserLimitField::Expiration)
        } else {
            None
        }
    }

    pub fn parse(value: &str) -> (r: Option<UserLimitField>)
        ensures
            r == Self::parse_spec(value@),
    {
        let v = str_chars(value);
        Self::parse_chars(v.as_slice())
    }
}

/// Parsing the text of an action gives the action back.
pub proof fn lemma_service_action_roundtrip(a: ServiceAction)
    ensures
        ServiceAction::parse_spec(a.text()) == Some(a),
{
    reveal_strlit("start");
    reveal_strlit("stop");
    reveal_strlit("restart");
    reveal_strlit("reload");
    reveal_strlit("status");
    assert("start"@.len() == 5 && "stop"@.len() == 4 && "restart"@.len() == 7);
    assert("reload"@.len() == 6 && "status"@.len() == 6);
    assert("stop"@ != "start"@);
    assert("restart"@ != "start"@ && "restart"@ != "stop"@);
    assert("reload"@ != "start"@ && "reload"@ != "stop"@ && "reload"@ != "restart"@);
    assert("status"@ != "start"@ && "status"@ != "stop"@ && "status"@ != "restart"@);
    assert("status"@ != "reload"@) by {
        assert("status"@[0] != "reload"@[0]);
    }
}

/// Parsing the text of a limit field gives the field back.
pub proof fn lemma_user_limit_field_roundtrip(f: UserLimitField)
    ensures
        UserLimitField::parse_spec(f.text()) == Some(f),
{
    reveal_strlit("tcp");
    reveal_strlit("quota");
    reveal_strlit("ips");
    reveal_strlit("expire");
    assert("tcp"@.len() == 3 && "quota"@.len() == 5 && "ips"@.len() == 3 && "expire"@.len() == 6);
    assert("quota"@ != "tcp"@);
    assert("ips"@ != "tcp"@) by {
        assert("ips"@[0] != "tcp"@[0]);
    }
    assert("ips"@ != "quota"@);
    assert("expire"@ != "tcp"@ && "expire"@ != "quota"@ && "expire"@ != "ips"@);
}


pub open spec fn clamp_page_spec(page: i64) -> i64 {
    if page < 1 {
        1
    } else {
        page
    }
}

/// `page.max(1)`.
pub fn clamp_page(page: i64) -> (r: i64)
    ensures
        r == clamp_page_spec(page),
{
    if page < 1 {
        1
    } else {
        page
    }
}

pub proof fn lemma_service_action_no_pipe(a: ServiceAction)
    ensures
        !a.text().contains('|'),
{
    reveal_strlit("start");
    reveal_strlit("stop");
    reveal_strlit("restart");
    reveal_strlit("reload");
    reveal_strlit("status");
}

pub proof fn lemma_user_limit_field_no_pipe(f: UserLimitField)
    ensures
        !f.text().contains('|'),
{
    reveal_strlit("tcp");
    reveal_strlit("quota");
    reveal_strlit("ips");
    reveal_strlit("expire");
}

/// What `decode` gives for a payload.
pub open spec fn decode_spec(data: Seq<char>) -> Option<CallbackAction> {
    decode_parts(split_on(data, '|'))
}

impl CallbackAction {
    pub fn decode(data: &str) -> (r: Option<CallbackAction>)
        ensures
            r == decode_spec(data@),
    {
        Self::decode_v1(data)
    }

    fn decode_v1(data: &str) -> (r: Option<CallbackAction>)
        ensures
            r == decode_spec(data@),
    {
        let chars = str_chars(data);
        let parts = split_chars(chars.as_slice(), '|');
        decode_pieces(&parts)
    }
}

#[derive(Clone, Debug, PartialEq, Eq, Structural)]
pub enum CallbackAction {
    Noop,
    ShowAdminHome,
    ShowUserHome,
    ShowUserLink,
    ShowUsageGuide,
    PromptInviteToken,
    CancelWizard,
    ShowPendingRequests,
    ShowPendingRequestsPage { page: i64 },
    OpenPendingRequest { request_id: i64, page: i64 },
    ShowUsersPage { page: i64 },
    PromptUserLookup { page: i64 },
    OpenUserCard { tg_user_id: i64, page: i64 },
    PromptUserLimit { tg_user_id: i64, page: i64, field: UserLimitField },
    ViewUserQr { tg_user_id: i64 },
    SendUserStartLink { tg_user_id: i64 },
    ConfirmUserBan { tg_user_id: i64, page: i64 },
    ExecuteUserBan { tg_user_id: i64, page: i64 },
    ShowStats,
    ShowServicePanel,
    ShowConnectionsSummary,
    ConfirmServiceAction { action: ServiceAction },
    ExecuteServiceAction { action: ServiceAction },
    ShowTokenMenu,
    PromptTokenCreate { auto_approve: bool },
    ShowTokenList,
    ShowTokenListPage { page: i64 },
    PromptTokenLookup { page: i64 },
    OpenTokenCard { token_id: i64, page: i64 },
    SendTokenStartLink { token_id: i64 },
    ConfirmTokenRevoke { token_id: i64, page: i64 },
    ExecuteTokenRevoke { token_id: i64, page: i64 },
    PromptDeleteUser,
    ExecuteDeleteUser { tg_user_id: i64 },
    ApproveRequest { request_id: i64, page: i64 },
    RejectRequest { request_id: i64, page: i64 },
    /// Broadcast a message to every user whose request is approved.
    PromptBroadcastApproved,
    ShowGroupsMenu,
    OpenGroupCard { group_id: i64 },
    PromptCreateGroup,
    GroupDeactivateAll { group_id: i64 },
    GroupApplyExpiry { group_id: i64 },
    UserGroupPicker { tg_user_id: i64, page: i64 },
    AssignUserToGroup { tg_user_id: i64, group_id: i64, page: i64 },
    PromptImportUser,
}

impl CallbackAction {
    /// The `|`-separated pieces of the payload of an action.
    pub open spec fn parts(self) -> Seq<Seq<char>> {
        match self {
            CallbackAction::Noop => seq!["v1"@, "noop"@],
            CallbackAction::ShowAdminHome => seq!["v1"@, "admin"@, "home"@],
            CallbackAction::ShowUserHome => seq!["v1"@, "user"@, "home"@],
            CallbackAction::ShowUserLink => seq!["v1"@, "user"@, "link"@],
            CallbackAction::ShowUsageGuide => seq!["v1"@, "user"@, "guide"@],
            CallbackAction::PromptInviteToken => seq!["v1"@, "user"@, "invite"@],
            CallbackAction::CancelWizard => seq!["v1"@, "wizard"@, "cancel"@],
            CallbackAction::ShowPendingRequests => seq!["v1"@, "admin"@, "pending"@],
            CallbackAction::ShowPendingRequestsPage { page } => seq!["v1"@, "admin"@, "pending"@, "page"@, int_str(page as int)],
            CallbackAction::OpenPendingRequest { request_id, page } => seq!["v1"@, "admin"@, "pending"@, "open"@, int_str(request_id as int), int_str(page as int)],
            CallbackAction::ShowUsersPage { page } => seq!["v1"@, "admin"@, "users"@, "page"@, int_str(page as int)],
            CallbackAction::PromptUserLookup { page } => seq!["v1"@, "admin"@, "users"@, "lookup"@, int_str(page as int)],
            CallbackAction::OpenUserCard { tg_user_id, page } => seq!["v1"@, "admin"@, "user"@, "open"@, int_str(tg_user_id as int), int_str(page as int)],
            CallbackAction::PromptUserLimit { tg_user_id, page, field } => seq!["v1"@, "admin"@, "user"@, "limit"@, field.text(), int_str(tg_user_id as int), int_str(page as int)],
            CallbackAction::ViewUserQr { tg_user_id } => seq!["v1"@, "admin"@, "user"@, "view"@, int_str(tg_user_id as int)],
            CallbackAction::SendUserStartLink { tg_user_id } => seq!["v1"@, "admin"@, "user"@, "startlink"@, int_str(tg_user_id as int)],
            CallbackAction::ConfirmUserBan { tg_user_id, page } => seq!["v1"@, "admin"@, "user"@, "ban_confirm"@, int_str(tg_user_id as int), int_str(page as int)],
            CallbackAction::ExecuteUserBan { tg_user_id, page } => seq!["v1"@, "admin"@, "user"@, "ban_execute"@, int_str(tg_user_id as int), int_str(page as int)],
            CallbackAction::ShowStats => seq!["v1"@, "admin"@, "stats"@],
            CallbackAction::ShowServicePanel => seq!["v1"@, "admin"@, "service"@],
            CallbackAction::ShowConnectionsSummary => seq!["v1"@, "admin"@, "service"@, "connections"@],
            CallbackAction::ConfirmServiceAction { action } => seq!["v1"@, "admin"@, "service"@, "confirm"@, action.text()],
            CallbackAction::ExecuteServiceAction { action } => seq!["v1"@, "admin"@, "service"@, "execute"@, action.text()],
            CallbackAction::ShowTokenMenu => seq!["v1"@, "admin"@, "token"@],
            CallbackAction::PromptTokenCreate { auto_approve } => seq!["v1"@, "admin"@, "token"@, "create"@, (if auto_approve { "1"@ } else { "0"@ })],
            CallbackAction::ShowTokenList => seq!["v1"@, "admin"@, "token"@, "list"@],
            CallbackAction::ShowTokenListPage { page } => seq!["v1"@, "admin"@, "token"@, "page"@, int_str(page as int)],
            CallbackAction::PromptTokenLookup { page } => seq!["v1"@, "admin"@, "token"@, "lookup"@, int_str(page as int)],
            CallbackAction::OpenTokenCard { token_id, page } => seq!["v1"@, "admin"@, "token"@, "open"@, int_str(token_id as int), int_str(page as int)],
            CallbackAction::SendTokenStartLink { token_id } => seq!["v1"@, "admin"@, "token"@, "startlink"@, int_str(token_id as int)],
            CallbackAction::ConfirmTokenRevoke { token_id, page } => seq!["v1"@, "admin"@, "token"@, "revoke"@, "confirm"@, int_str(token_id as int), int_str(page as int)],
            CallbackAction::ExecuteTokenRevoke { token_id, page } => seq!["v1"@, "admin"@, "token"@, "revoke"@, "execute"@, int_str(token_id as int), int_str(page as int)],
            CallbackAction::PromptDeleteUser => seq!["v1"@, "admin"@, "delete"@],
            CallbackAction::ExecuteDeleteUser { tg_user_id } => seq!["v1"@, "admin"@, "delete"@, "execute"@, int_str(tg_user_id as int)],
            CallbackAction::ApproveRequest { request_id, page } => seq!["v1"@, "req"@, "approve"@, int_str(request_id as int), int_str(page as int)],
            CallbackAction::RejectRequest { request_id, page } => seq!["v1"@, "req"@, "reject"@, int_str(request_id as int), int_str(page as int)],
            CallbackAction::PromptBroadcastApproved => seq!["v1"@, "admin"@, "broadcast"@],
            CallbackAction::ShowGroupsMenu => seq!["v1"@, "admin"@, "groups"@],
            CallbackAction::OpenGroupCard { group_id } => seq!["v1"@, "admin"@, "groups"@, "open"@, int_str(group_id as int)],
            CallbackAction::PromptCreateGroup => seq!["v1"@, "admin"@, "groups"@, "create"@],
            CallbackAction::GroupDeactivateAll { group_id } => seq!["v1"@, "admin"@, "groups"@, "deactivate"@, int_str(group_id as int)],
            CallbackAction::GroupApplyExpiry { group_id } => seq!["v1"@, "admin"@, "groups"@, "apply_expiry"@, int_str(group_id as int)],
            CallbackAction::UserGroupPicker { tg_user_id, page } => seq!["v1"@, "admin"@, "user"@, "group"@, "pick"@, int_str(tg_user_id as int), int_str(page as int)],
            CallbackAction::AssignUserToGroup { tg_user_id, group_id, page } => seq!["v1"@, "admin"@, "user"@, "group"@, "set"@, int_str(tg_user_id as int), int_str(group_id as int), int_str(page as int)],
            CallbackAction::PromptImportUser => seq!["v1"@, "admin"@, "import"@],
        }
    }

    /// The payload `encode` gives.
    pub open spec fn encode_spec(self) -> Seq<char> {
        join_on(self.parts(), '|')
    }

    /// The action with every page number raised to at least one, as decoding reads it.
    pub open spec fn normalized(self) -> CallbackAction {
        match self {
            CallbackAction::ShowPendingRequestsPage { page } => CallbackAction::ShowPendingRequestsPage { page: clamp_page_spec(page) },
            CallbackAction::OpenPendingRequest { request_id, page } => CallbackAction::OpenPendingRequest { request_id, page: clamp_page_spec(page) },
            CallbackAction::ShowUsersPage { page } => CallbackAction::ShowUsersPage { page: clamp_page_spec(page) },
            CallbackAction::PromptUserLookup { page } => CallbackAction::PromptUserLookup { page: clamp_page_spec(page) },
            CallbackAction::OpenUserCard { tg_user_id, page } => CallbackAction::OpenUserCard { tg_user_id, page: clamp_page_spec(page) },
            CallbackAction::PromptUserLimit { tg_user_id, page, field } => CallbackAction::PromptUserLimit { tg_user_id, page: clamp_page_spec(page), field },
            CallbackAction::ConfirmUserBan { tg_user_id, page } => CallbackAction::ConfirmUserBan { tg_user_id, page: clamp_page_spec(page) },
            CallbackAction::ExecuteUserBan { tg_user_id, page } => CallbackAction::ExecuteUserBan { tg_user_id, page: clamp_page_spec(page) },
            CallbackAction::ShowTokenListPage { page } => CallbackAction::ShowTokenListPage { page: clamp_page_spec(page) },
            CallbackAction::PromptTokenLookup { page } => CallbackAction::PromptTokenLookup { page: clamp_page_spec(page) },
            CallbackAction::OpenTokenCard { token_id, page } => CallbackAction::OpenTokenCard { token_id, page: clamp_page_spec(page) },
            CallbackAction::ConfirmTokenRevoke { token_id, page } => CallbackAction::ConfirmTokenRevoke { token_id, page: clamp_page_spec(page) },
            CallbackAction::ExecuteTokenRevoke { token_id, page } => CallbackAction::ExecuteTokenRevoke { token_id, page: clamp_page_spec(page) },
            CallbackAction::ApproveRequest { request_id, page } => CallbackAction::ApproveRequest { request_id, page: clamp_page_spec(page) },
            CallbackAction::RejectRequest { request_id, page } => CallbackAction::RejectRequest { request_id, page: clamp_page_spec(page) },
            CallbackAction::UserGroupPicker { tg_user_id, page } => CallbackAction::UserGroupPicker { tg_user_id, page: clamp_page_spec(page) },
            CallbackAction::AssignUserToGroup { tg_user_id, group_id, page } => CallbackAction::AssignUserToGroup { tg_user_id, group_id, page: clamp_page_spec(page) },
            _ => self,
        }
    }

    pub fn encode(&self) -> (r: String)
        ensures
            r@ == self.encode_spec(),
    {
        let parts: Vec<String> = match self {
            CallbackAction::Noop => vec![lit("v1"), lit("noop")],
            CallbackAction::ShowAdminHome => vec![lit("v1"), lit("admin"), lit("home")],
            CallbackAction::ShowUserHome => vec![lit("v1"), lit("user"), lit("home")],
            CallbackAction::ShowUserLink => vec![lit("v1"), lit("user"), lit("link")],
            CallbackAction::ShowUsageGuide => vec![lit("v1"), lit("user"), lit("guide")],
            CallbackAction::PromptInviteToken => vec![lit("v1"), lit("user"), lit("invite")],
            CallbackAction::CancelWizard => vec![lit("v1"), lit("wizard"), lit("cancel")],
            CallbackAction::ShowPendingRequests => vec![lit("v1"), lit("admin"), lit("pending")],
            CallbackAction::ShowPendingRequestsPage { page } => vec![lit("v1"), lit("admin"), lit("pending"), lit("page"), i64_to_string(*page)],
            CallbackAction::OpenPendingRequest { request_id, page } => vec![lit("v1"), lit("admin"), lit("pending"), lit("open"), i64_to_string(*request_id), i64_to_string(*page)],
            CallbackAction::ShowUsersPage { page } => vec![lit("v1"), lit("admin"), lit("users"), lit("page"), i64_to_string(*page)],
            CallbackAction::PromptUserLookup { page } => vec![lit("v1"), lit("admin"), lit("users"), lit("lookup"), i64_to_string(*page)],
            CallbackAction::OpenUserCard { tg_user_id, page } => vec![lit("v1"), lit("admin"), lit("user"), lit("open"), i64_to_string(*tg_user_id), i64_to_string(*page)],
            CallbackAction::PromptUserLimit { tg_user_id, page, field } => vec![lit("v1"), lit("admin"), lit("user"), lit("limit"), lit(field.as_str()), i64_to_string(*tg_user_id), i64_to_string(*page)],
            CallbackAction::ViewUserQr { tg_user_id } => vec![lit("v1"), lit("admin"), lit("user"), lit("view"), i64_to_string(*tg_user_id)],
            CallbackAction::SendUserStartLink { tg_user_id } => vec![lit("v1"), lit("admin"), lit("user"), lit("startlink"), i64_to_string(*tg_user_id)],
            CallbackAction::ConfirmUserBan { tg_user_id, page } => vec![lit("v1"), lit("admin"), lit("user"), lit("ban_confirm"), i64_to_string(*tg_user_id), i64_to_string(*page)],
            CallbackAction::ExecuteUserBan { tg_user_id, page } => vec![lit("v1"), lit("admin"), lit("user"), lit("ban_execute"), i64_to_string(*tg_user_id), i64_to_string(*page)],
            CallbackAction::ShowStats => vec![lit("v1"), lit("admin"), lit("stats")],
            CallbackAction::ShowServicePanel => vec![lit("v1"), lit("admin"), lit("service")],
            CallbackAction::ShowConnectionsSummary => vec![lit("v1"), lit("admin"), lit("service"), lit("connections")],
            CallbackAction::ConfirmServiceAction { action } => vec![lit("v1"), lit("admin"), lit("service"), lit("confirm"), lit(action.as_str())],
            CallbackAction::ExecuteServiceAction { action } => vec![lit("v1"), lit("admin"), lit("service"), lit("execute"), lit(action.as_str())],
            CallbackAction::ShowTokenMenu => vec![lit("v1"), lit("admin"), lit("token")],
            CallbackAction::PromptTokenCreate { auto_approve } => vec![lit("v1"), lit("admin"), lit("token"), lit("create"), lit(if *auto_approve { "1" } else { "0" })],
            CallbackAction::ShowTokenList => vec![lit("v1"), lit("admin"), lit("token"), lit("list")],
            CallbackAction::ShowTokenListPage { page } => vec![lit("v1"), lit("admin"), lit("token"), lit("page"), i64_to_string(*page)],
            CallbackAction::PromptTokenLookup { page } => vec![lit("v1"), lit("admin"), lit("token"), lit("lookup"), i64_to_string(*page)],
            CallbackAction::OpenTokenCard { token_id, page } => vec![lit("v1"), lit("admin"), lit("token"), lit("open"), i64_to_string(*token_id), i64_to_string(*page)],
            CallbackAction::SendTokenStartLink { token_id } => vec![lit("v1"), lit("admin"), lit("token"), lit("startlink"), i64_to_string(*token_id)],
            CallbackAction::ConfirmTokenRevoke { token_id, page } => vec![lit("v1"), lit("admin"), lit("token"), lit("revoke"), lit("confirm"), i64_to_string(*token_id), i64_to_string(*page)],
            CallbackAction::ExecuteTokenRevoke { token_id, page } => vec![lit("v1"), lit("admin"), lit("token"), lit("revoke"), lit("execute"), i64_to_string(*token_id), i64_to_string(*page)],
            CallbackAction::PromptDeleteUser => vec![lit("v1"), lit("admin"), lit("delete")],
            CallbackAction::ExecuteDeleteUser { tg_user_id } => vec![lit("v1"), lit("admin"), lit("delete"), lit("execute"), i64_to_string(*tg_user_id)],
            CallbackAction::ApproveRequest { request_id, page } => vec![lit("v1"), lit("req"), lit("approve"), i64_to_string(*request_id), i64_to_string(*page)],
            CallbackAction::RejectRequest { request_id, page } => vec![lit("v1"), lit("req"), lit("reject"), i64_to_string(*request_id), i64_to_string(*page)],
            CallbackAction::PromptBroadcastApproved => vec![lit("v1"), lit("admin"), lit("broadcast")],
            CallbackAction::ShowGroupsMenu => vec![lit("v1"), lit("admin"), lit("groups")],
            CallbackAction::OpenGroupCard { group_id } => vec![lit("v1"), lit("admin"), lit("groups"), lit("open"), i64_to_string(*group_id)],
            CallbackAction::PromptCreateGroup => vec![lit("v1"), lit("admin"), lit("groups"), lit("create")],
            CallbackAction::GroupDeactivateAll { group_id } => vec![lit("v1"), lit("admin"), lit("groups"), lit("deactivate"), i64_to_string(*group_id)],
            CallbackAction::GroupApplyExpiry { group_id } => vec![lit("v1"), lit("admin"), lit("groups"), lit("apply_expiry"), i64_to_string(*group_id)],
            CallbackAction::UserGroupPicker { tg_user_id, page } => vec![lit("v1"), lit("admin"), lit("user"), lit("group"), lit("pick"), i64_to_string(*tg_user_id), i64_to_string(*page)],
            CallbackAction::AssignUserToGroup { tg_user_id, group_id, page } => vec![lit("v1"), lit("admin"), lit("user"), lit("group"), lit("set"), i64_to_string(*tg_user_id), i64_to_string(*group_id), i64_to_string(*page)],
            CallbackAction::PromptImportUser => vec![lit("v1"), lit("admin"), lit("import")],
        };
        assert(string_views(parts@) =~= self.parts());
        join_strings(&parts, '|')
    }

}

/// The action a list of payload pieces stands for, if any.
pub open spec fn decode_parts(p: Seq<Seq<char>>) -> Option<CallbackAction> {
    if p.len() == 2 && p[0] == "v1"@ && p[1] == "noop"@ {
        Some(CallbackAction::Noop)
    } else if p.len() == 3 && p[0] == "v1"@ && p[1] == "admin"@ && p[2] == "home"@ {
        Some(CallbackAction::ShowAdminHome)
    } else if p.len() == 3 && p[0] == "v1"@ && p[1] == "user"@ && p[2] == "home"@ {
        Some(CallbackAction::ShowUserHome)
    } else if p.len() == 3 && p[0] == "v1"@ && p[1] == "user"@ && p[2] == "link"@ {
        Some(CallbackAction::ShowUserLink)
    } else if p.len() == 3 && p[0] == "v1"@ && p[1] == "user"@ && p[2] == "guide"@ {
        Some(CallbackAction::ShowUsageGuide)
    } else if p.len() == 3 && p[0] == "v1"@ && p[1] == "user"@ && p[2] == "invite"@ {
        Some(CallbackAction::PromptInviteToken)
    } else if p.len() == 3 && p[0] == "v1"@ && p[1] == "wizard"@ && p[2] == "cancel"@ {
        Some(CallbackAction::CancelWizard)
    } else if p.len() == 3 && p[0] == "v1"@ && p[1] == "admin"@ && p[2] == "pending"@ {
        Some(CallbackAction::ShowPendingRequests)
    } else if p.len() == 5 && p[0] == "v1"@ && p[1] == "admin"@ && p[2] == "pending"@ && p[3] == "page"@ {
        match parse_i64_spec(p[4]) { Some(raw) => { let page_v = clamp_page_spec(raw); Some(CallbackAction::ShowPendingRequestsPage { page: page_v }) }, None => None }
    } else if p.len() == 6 && p[0] == "v1"@ && p[1] == "admin"@ && p[2] == "pending"@ && p[3] == "open"@ {
        match parse_i64_spec(p[4]) { Some(request_id_v) => match parse_i64_spec(p[5]) { Some(raw) => { let page_v = clamp_page_spec(raw); Some(CallbackAction::OpenPendingRequest { request_id: request_id_v, page: page_v }) }, None => None }, None => None }
    } else if p.len() == 5 && p[0] == "v1"@ && p[1] == "admin"@ && p[2] == "users"@ && p[3] == "page"@ {
        match parse_i64_spec(p[4]) { Some(raw) => { let page_v = clamp_page_spec(raw); Some(CallbackAction::ShowUsersPage { page: page_v }) }, None => None }
    } else if p.len() == 5 && p[0] == "v1"@ && p[1] == "admin"@ && p[2] == "users"@ && p[3] == "lookup"@ {
        match parse_i64_spec(p[4]) { Some(raw) => { let page_v = clamp_page_spec(raw); Some(CallbackAction::PromptUserLookup { page: page_v }) }, None => None }
    } else if p.len() == 6 && p[0] == "v1"@ && p[1] == "admin"@ && p[2] == "user"@ && p[3] == "open"@ {
        match parse_i64_spec(p[4]) { Some(tg_user_id_v) => match parse_i64_spec(p[5]) { Some(raw) => { let page_v = clamp_page_spec(raw); Some(CallbackAction::OpenUserCard { tg_user_id: tg_user_id_v, page: page_v }) }, None => None }, None => None }
    } else if p.len() == 7 && p[0] == "v1"@ && p[1] == "admin"@ && p[2] == "user"@ && p[3] == "limit"@ {
        match UserLimitField::parse_spec(p[4]) { Some(field_v) => match parse_i64_spec(p[5]) { Some(tg_user_id_v) => match parse_i64_spec(p[6]) { Some(raw) => { let page_v = clamp_page_spec(raw); Some(CallbackAction::PromptUserLimit { tg_user_id: tg_user_id_v, page: page_v, field: field_v }) }, None => None }, None => None }, None => None }
    } else if p.len() == 5 && p[0] == "v1"@ && p[1] == "admin"@ && p[2] == "user"@ && p[3] == "view"@ {
        match parse_i64_spec(p[4]) { Some(tg_user_id_v) => Some(CallbackAction::ViewUserQr { tg_user_id: tg_user_id_v }), None => None }
    } else if p.len() == 5 && p[0] == "v1"@ && p[1] == "admin"@ && p[2] == "user"@ && p[3] == "startlink"@ {
        match parse_i64_spec(p[4]) { Some(tg_user_id_v) => Some(CallbackAction::SendUserStartLink { tg_user_id: tg_user_id_v }), None => None }
    } else if p.len() == 6 && p[0] == "v1"@ && p[1] == "admin"@ && p[2] == "user"@ && p[3] == "ban_confirm"@ {
        match parse_i64_spec(p[4]) { Some(tg_user_id_v) => match parse_i64_spec(p[5]) { Some(raw) => { let page_v = clamp_page_spec(raw); Some(CallbackAction::ConfirmUserBan { tg_user_id: tg_user_id_v, page: page_v }) }, None => None }, None => None }
    } else if p.len() == 6 && p[0] == "v1"@ && p[1] == "admin"@ && p[2] == "user"@ && p[3] == "ban_execute"@ {
        match parse_i64_spec(p[4]) { Some(tg_user_id_v) => match parse_i64_spec(p[5]) { Some(raw) => { let page_v = clamp_page_spec(raw); Some(CallbackAction::ExecuteUserBan { tg_user_id: tg_user_id_v, page: page_v }) }, None => None }, None => None }
    } else if p.len() == 3 && p[0] == "v1"@ && p[1] == "admin"@ && p[2] == "stats"@ {
        Some(CallbackAction::ShowStats)
    } else if p.len() == 3 && p[0] == "v1"@ && p[1] == "admin"@ && p[2] == "service"@ {
        Some(CallbackAction::ShowServicePanel)
    } else if p.len() == 4 && p[0] == "v1"@ && p[1] == "admin"@ && p[2] == "service"@ && p[3] == "connections"@ {
        Some(CallbackAction::ShowConnectionsSummary)
    } else if p.len() == 5 && p[0] == "v1"@ && p[1] == "admin"@ && p[2] == "service"@ && p[3] == "confirm"@ {
        match ServiceAction::parse_spec(p[4]) { Some(action_v) => Some(CallbackAction::ConfirmServiceAction { action: action_v }), None => None }
    } else if p.len() == 5 && p[0] == "v1"@ && p[1] == "admin"@ && p[2] == "service"@ && p[3] == "execute"@ {
        match ServiceAction::parse_spec(p[4]) { Some(action_v) => Some(CallbackAction::ExecuteServiceAction { action: action_v }), None => None }
    } else if p.len() == 3 && p[0] == "v1"@ && p[1] == "admin"@ && p[2] == "token"@ {
        Some(CallbackAction::ShowTokenMenu)
    } else if p.len() == 5 && p[0] == "v1"@ && p[1] == "admin"@ && p[2] == "token"@ && p[3] == "create"@ {
        { let auto_approve_v = p[4] == "1"@; Some(CallbackAction::PromptTokenCreate { auto_approve: auto_approve_v }) }
    } else if p.len() == 4 && p[0] == "v1"@ && p[1] == "admin"@ && p[2] == "token"@ && p[3] == "list"@ {
        Some(CallbackAction::ShowTokenList)
    } else if p.len() == 5 && p[0] == "v1"@ && p[1] == "admin"@ && p[2] == "token"@ && p[3] == "page"@ {
        match parse_i64_spec(p[4]) { Some(raw) => { let page_v = clamp_page_spec(raw); Some(CallbackAction::ShowTokenListPage { page: page_v }) }, None => None }
    } else if p.len() == 5 && p[0] == "v1"@ && p[1] == "admin"@ && p[2] == "token"@ && p[3] == "lookup"@ {
        match parse_i64_spec(p[4]) { Some(raw) => { let page_v = clamp_page_spec(raw); Some(CallbackAction::PromptTokenLookup { page: page_v }) }, None => None }
    } else if p.len() == 6 && p[0] == "v1"@ && p[1] == "admin"@ && p[2] == "token"@ && p[3] == "open"@ {
        match parse_i64_spec(p[4]) { Some(token_id_v) => match parse_i64_spec(p[5]) { Some(raw) => { let page_v = clamp_page_spec(raw); Some(CallbackAction::OpenTokenCard { token_id: token_id_v, page: page_v }) }, None => None }, None => None }
    } else if p.len() == 5 && p[0] == "v1"@ && p[1] == "admin"@ && p[2] == "token"@ && p[3] == "startlink"@ {
        match parse_i64_spec(p[4]) { Some(token_id_v) => Some(CallbackAction::SendTokenStartLink { token_id: token_id_v }), None => None }
    } else if p.len() == 7 && p[0] == "v1"@ && p[1] == "admin"@ && p[2] == "token"@ && p[3] == "revoke"@ && p[4] == "confirm"@ {
        match parse_i64_spec(p[5]) { Some(token_id_v) => match parse_i64_spec(p[6]) { Some(raw) => { let page_v = clamp_page_spec(raw); Some(CallbackAction::ConfirmTokenRevoke { token_id: token_id_v, page: page_v }) }, None => None }, None => None }
    } else if p.len() == 7 && p[0] == "v1"@ && p[1] == "admin"@ && p[2] == "token"@ && p[3] == "revoke"@ && p[4] == "execute"@ {
        match parse_i64_spec(p[5]) { Some(token_id_v) => match parse_i64_spec(p[6]) { Some(raw) => { let page_v = clamp_page_spec(raw); Some(CallbackAction::ExecuteTokenRevoke { token_id: token_id_v, page: page_v }) }, None => None }, None => None }
    } else if p.len() == 3 && p[0] == "v1"@ && p[1] == "admin"@ && p[2] == "delete"@ {
        Some(CallbackAction::PromptDeleteUser)
    } else if p.len() == 5 && p[0] == "v1"@ && p[1] == "admin"@ && p[2] == "delete"@ && p[3] == "execute"@ {
        match parse_i64_spec(p[4]) { Some(tg_user_id_v) => Some(CallbackAction::ExecuteDeleteUser { tg_user_id: tg_user_id_v }), None => None }
    } else if p.len() == 5 && p[0] == "v1"@ && p[1] == "req"@ && p[2] == "approve"@ {
        match parse_i64_spec(p[3]) { Some(request_id_v) => match parse_i64_spec(p[4]) { Some(raw) => { let page_v = clamp_page_spec(raw); Some(CallbackAction::ApproveRequest { request_id: request_id_v, page: page_v }) }, None => None }, None => None }
    } else if p.len() == 5 && p[0] == "v1"@ && p[1] == "req"@ && p[2] == "reject"@ {
        match parse_i64_spec(p[3]) { Some(request_id_v) => match parse_i64_spec(p[4]) { Some(raw) => { let page_v = clamp_page_spec(raw); Some(CallbackAction::RejectRequest { request_id: request_id_v, page: page_v }) }, None => None }, None => None }
    } else if p.len() == 3 && p[0] == "v1"@ && p[1] == "admin"@ && p[2] == "broadcast"@ {
        Some(CallbackAction::PromptBroadcastApproved)
    } else if p.len() == 3 && p[0] == "v1"@ && p[1] == "admin"@ && p[2] == "groups"@ {
        Some(CallbackAction::ShowGroupsMenu)
    } else if p.len() == 5 && p[0] == "v1"@ && p[1] == "admin"@ && p[2] == "groups"@ && p[3] == "open"@ {
        match parse_i64_spec(p[4]) { Some(group_id_v) => Some(CallbackAction::OpenGroupCard { group_id: group_id_v }), None => None }
    } else if p.len() == 4 && p[0] == "v1"@ && p[1] == "admin"@ && p[2] == "groups"@ && p[3] == "create"@ {
        Some(CallbackAction::PromptCreateGroup)
    } else if p.len() == 5 && p[0] == "v1"@ && p[1] == "admin"@ && p[2] == "groups"@ && p[3] == "deactivate"@ {
        match parse_i64_spec(p[4]) { Some(group_id_v) => Some(CallbackAction::GroupDeactivateAll { group_id: group_id_v }), None => None }
    } else if p.len() == 5 && p[0] == "v1"@ && p[1] == "admin"@ && p[2] == "groups"@ && p[3] == "apply_expiry"@ {
        match parse_i64_spec(p[4]) { Some(group_id_v) => Some(CallbackAction::GroupApplyExpiry { group_id: group_id_v }), None => None }
    } else if p.len() == 7 && p[0] == "v1"@ && p[1] == "admin"@ && p[2] == "user"@ && p[3] == "group"@ && p[4] == "pick"@ {
        match parse_i64_spec(p[5]) { Some(tg_user_id_v) => match parse_i64_spec(p[6]) { Some(raw) => { let page_v = clamp_page_spec(raw); Some(CallbackAction::UserGroupPicker { tg_user_id: tg_user_id_v, page: page_v }) }, None => None }, None => None }
    } else if p.len() == 8 && p[0] == "v1"@ && p[1] == "admin"@ && p[2] == "user"@ && p[3] == "group"@ && p[4] == "set"@ {
        match parse_i64_spec(p[5]) { Some(tg_user_id_v) => match parse_i64_spec(p[6]) { Some(group_id_v) => match parse_i64_spec(p[7]) { Some(raw) => { let page_v = clamp_page_spec(raw); Some(CallbackAction::AssignUserToGroup { tg_user_id: tg_user_id_v, group_id: group_id_v, page: page_v }) }, None => None }, None => None }, None => None }
    } else if p.len() == 3 && p[0] == "v1"@ && p[1] == "admin"@ && p[2] == "import"@ {
        Some(CallbackAction::PromptImportUser)
    } else {
        None
    }
}

fn decode_pieces(parts: &Vec<Vec<char>>) -> (r: Option<CallbackAction>)
    ensures
        r == decode_parts(views_of(parts@)),
{
    let ghost p = views_of(parts@);
    assert(forall|i: int| 0 <= i < parts@.len() ==> #[trigger] p[i] == parts@[i]@);
    if parts.len() == 2 && chars_eq_str(parts[0].as_slice(), "v1") && chars_eq_str(parts[1].as_slice(), "noop") {
        Some(CallbackAction::Noop)
    } else if parts.len() == 3 && chars_eq_str(parts[0].as_slice(), "v1") && chars_eq_str(parts[1].as_slice(), "admin") && chars_eq_str(parts[2].as_slice(), "home") {
        Some(CallbackAction::ShowAdminHome)
    } else if parts.len() == 3 && chars_eq_str(parts[0].as_slice(), "v1") && chars_eq_str(parts[1].as_slice(), "user") && chars_eq_str(parts[2].as_slice(), "home") {
        Some(CallbackAction::ShowUserHome)
    } else if parts.len() == 3 && chars_eq_str(parts[0].as_slice(), "v1") && chars_eq_str(parts[1].as_slice(), "user") && chars_eq_str(parts[2].as_slice(), "link") {
        Some(CallbackAction::ShowUserLink)
    } else if parts.len() == 3 && chars_eq_str(parts[0].as_slice(), "v1") && chars_eq_str(parts[1].as_slice(), "user") && chars_eq_str(parts[2].as_slice(), "guide") {
        Some(CallbackAction::ShowUsageGuide)
    } else if parts.len() == 3 && chars_eq_str(parts[0].as_slice(), "v1") && chars_eq_str(parts[1].as_slice(), "user") && chars_eq_str(parts[2].as_slice(), "invite") {
        Some(CallbackAction::PromptInviteToken)
    } else if parts.len() == 3 && chars_eq_str(parts[0].as_slice(), "v1") && chars_eq_str(parts[1].as_slice(), "wizard") && chars_eq_str(parts[2].as_slice(), "cancel") {
        Some(CallbackAction::CancelWizard)
    } else if parts.len() == 3 && chars_eq_str(parts[0].as_slice(), "v1") && chars_eq_str(parts[1].as_slice(), "admin") && chars_eq_str(parts[2].as_slice(), "pending") {
        Some(CallbackAction::ShowPendingRequests)
    } else if parts.len() == 5 && chars_eq_str(parts[0].as_slice(), "v1") && chars_eq_str(parts[1].as_slice(), "admin") && chars_eq_str(parts[2].as_slice(), "pending") && chars_eq_str(parts[3].as_slice(), "page") {
        match parse_i64(parts[4].as_slice()) { Some(raw) => { let page_v = clamp_page(raw); Some(CallbackAction::ShowPendingRequestsPage { page: page_v }) }, None => None }
    } else if parts.len() == 6 && chars_eq_str(parts[0].as_slice(), "v1") && chars_eq_str(parts[1].as_slice(), "admin") && chars_eq_str(parts[2].as_slice(), "pending") && chars_eq_str(parts[3].as_slice(), "open") {
        match parse_i64(parts[4].as_slice()) { Some(request_id_v) => match parse_i64(parts[5].as_slice()) { Some(raw) => { let page_v = clamp_page(raw); Some(CallbackAction::OpenPendingRequest { request_id: request_id_v, page: page_v }) }, None => None }, None => None }
    } else if parts.len() == 5 && chars_eq_str(parts[0].as_slice(), "v1") && chars_eq_str(parts[1].as_slice(), "admin") && chars_eq_str(parts[2].as_slice(), "users") && chars_eq_str(parts[3].as_slice(), "page") {
        match parse_i64(parts[4].as_slice()) { Some(raw) => { let page_v = clamp_page(raw); Some(CallbackAction::ShowUsersPage { page: page_v }) }, None => None }
    } else if parts.len() == 5 && chars_eq_str(parts[0].as_slice(), "v1") && chars_eq_str(parts[1].as_slice(), "admin") && chars_eq_str(parts[2].as_slice(), "users") && chars_eq_str(parts[3].as_slice(), "lookup") {
        match parse_i64(parts[4].as_slice()) { Some(raw) => { let page_v = clamp_page(raw); Some(CallbackAction::PromptUserLookup { page: page_v }) }, None => None }
    } else if parts.len() == 6 && chars_eq_str(parts[0].as_slice(), "v1") && chars_eq_str(parts[1].as_slice(), "admin") && chars_eq_str(parts[2].as_slice(), "user") && chars_eq_str(parts[3].as_slice(), "open") {
        match parse_i64(parts[4].as_slice()) { Some(tg_user_id_v) => match parse_i64(parts[5].as_slice()) { Some(raw) => { let page_v = clamp_page(raw); Some(CallbackAction::OpenUserCard { tg_user_id: tg_user_id_v, page: page_v }) }, None => None }, None => None }
    } else if parts.len() == 7 && chars_eq_str(parts[0].as_slice(), "v1") && chars_eq_str(parts[1].as_slice(), "admin") && chars_eq_str(parts[2].as_slice(), "user") && chars_eq_str(parts[3].as_slice(), "limit") {
        match UserLimitField::parse_chars(parts[4].as_slice()) { Some(field_v) => match parse_i64(parts[5].as_slice()) { Some(tg_user_id_v) => match parse_i64(parts[6].as_slice()) { Some(raw) => { let page_v = clamp_page(raw); Some(CallbackAction::PromptUserLimit { tg_user_id: tg_user_id_v, page: page_v, field: field_v }) }, None => None }, None => None }, None => None }
    } else if parts.len() == 5 && chars_eq_str(parts[0].as_slice(), "v1") && chars_eq_str(parts[1].as_slice(), "admin") && chars_eq_str(parts[2].as_slice(), "user") && chars_eq_str(parts[3].as_slice(), "view") {
        match parse_i64(parts[4].as_slice()) { Some(tg_user_id_v) => Some(CallbackAction::ViewUserQr { tg_user_id: tg_user_id_v }), None => None }
    } else if parts.len() == 5 && chars_eq_str(parts[0].as_slice(), "v1") && chars_eq_str(parts[1].as_slice(), "admin") && chars_eq_str(parts[2].as_slice(), "user") && chars_eq_str(parts[3].as_slice(), "startlink") {
        match parse_i64(parts[4].as_slice()) { Some(tg_user_id_v) => Some(CallbackAction::SendUserStartLink { tg_user_id: tg_user_id_v }), None => None }
    } else if parts.len() == 6 && chars_eq_str(parts[0].as_slice(), "v1") && chars_eq_str(parts[1].as_slice(), "admin") && chars_eq_str(parts[2].as_slice(), "user") && chars_eq_str(parts[3].as_slice(), "ban_confirm") {
        match parse_i64(parts[4].as_slice()) { Some(tg_user_id_v) => match parse_i64(parts[5].as_slice()) { Some(raw) => { let page_v = clamp_page(raw); Some(CallbackAction::ConfirmUserBan { tg_user_id: tg_user_id_v, page: page_v }) }, None => None }, None => None }
    } else if parts.len() == 6 && chars_eq_str(parts[0].as_slice(), "v1") && chars_eq_str(parts[1].as_slice(), "admin") && chars_eq_str(parts[2].as_slice(), "user") && chars_eq_str(parts[3].as_slice(), "ban_execute") {
        match parse_i64(parts[4].as_slice()) { Some(tg_user_id_v) => match parse_i64(parts[5].as_slice()) { Some(raw) => { let page_v = clamp_page(raw); Some(CallbackAction::ExecuteUserBan { tg_user_id: tg_user_id_v, page: page_v }) }, None => None }, None => None }
    } else if parts.len() == 3 && chars_eq_str(parts[0].as_slice(), "v1") && chars_eq_str(parts[1].as_slice(), "admin") && chars_eq_str(parts[2].as_slice(), "stats") {
        Some(CallbackAction::ShowStats)
    } else if parts.len() == 3 && chars_eq_str(parts[0].as_slice(), "v1") && chars_eq_str(parts[1].as_slice(), "admin") && chars_eq_str(parts[2].as_slice(), "service") {
        Some(CallbackAction::ShowServicePanel)
    } else if parts.len() == 4 && chars_eq_str(parts[0].as_slice(), "v1") && chars_eq_str(parts[1].as_slice(), "admin") && chars_eq_str(parts[2].as_slice(), "service") && chars_eq_str(parts[3].as_slice(), "connections") {
        Some(CallbackAction::ShowConnectionsSummary)
    } else if parts.len() == 5 && chars_eq_str(parts[0].as_slice(), "v1") && chars_eq_str(parts[1].as_slice(), "admin") && chars_eq_str(parts[2].as_slice(), "service") && chars_eq_str(parts[3].as_slice(), "confirm") {
        match ServiceAction::parse_chars(parts[4].as_slice()) { Some(action_v) => Some(CallbackAction::ConfirmServiceAction { action: action_v }), None => None }
    } else if parts.len() == 5 && chars_eq_str(parts[0].as_slice(), "v1") && chars_eq_str(parts[1].as_slice(), "admin") && chars_eq_str(parts[2].as_slice(), "service") && chars_eq_str(parts[3].as_slice(), "execute") {
        match ServiceAction::parse_chars(parts[4].as_slice()) { Some(action_v) => Some(CallbackAction::ExecuteServiceAction { action: action_v }), None => None }
    } else if parts.len() == 3 && chars_eq_str(parts[0].as_slice(), "v1") && chars_eq_str(parts[1].as_slice(), "admin") && chars_eq_str(parts[2].as_slice(), "token") {
        Some(CallbackAction::ShowTokenMenu)
    } else if parts.len() == 5 && chars_eq_str(parts[0].as_slice(), "v1") && chars_eq_str(parts[1].as_slice(), "admin") && chars_eq_str(parts[2].as_slice(), "token") && chars_eq_str(parts[3].as_slice(), "create") {
        { let auto_approve_v = chars_eq_str(parts[4].as_slice(), "1"); Some(CallbackAction::PromptTokenCreate { auto_approve: auto_approve_v }) }
    } else if parts.len() == 4 && chars_eq_str(parts[0].as_slice(), "v1") && chars_eq_str(parts[1].as_slice(), "admin") && chars_eq_str(parts[2].as_slice(), "token") && chars_eq_str(parts[3].as_slice(), "list") {
        Some(CallbackAction::ShowTokenList)
    } else if parts.len() == 5 && chars_eq_str(parts[0].as_slice(), "v1") && chars_eq_str(parts[1].as_slice(), "admin") && chars_eq_str(parts[2].as_slice(), "token") && chars_eq_str(parts[3].as_slice(), "page") {
        match parse_i64(parts[4].as_slice()) { Some(raw) => { let page_v = clamp_page(raw); Some(CallbackAction::ShowTokenListPage { page: page_v }) }, None => None }
    } else if parts.len() == 5 && chars_eq_str(parts[0].as_slice(), "v1") && chars_eq_str(parts[1].as_slice(), "admin") && chars_eq_str(parts[2].as_slice(), "token") && chars_eq_str(parts[3].as_slice(), "lookup") {
        match parse_i64(parts[4].as_slice()) { Some(raw) => { let page_v = clamp_page(raw); Some(CallbackAction::PromptTokenLookup { page: page_v }) }, None => None }
    } else if parts.len() == 6 && chars_eq_str(parts[0].as_slice(), "v1") && chars_eq_str(parts[1].as_slice(), "admin") && chars_eq_str(parts[2].as_slice(), "token") && chars_eq_str(parts[3].as_slice(), "open") {
        match parse_i64(parts[4].as_slice()) { Some(token_id_v) => match parse_i64(parts[5].as_slice()) { Some(raw) => { let page_v = clamp_page(raw); Some(CallbackAction::OpenTokenCard { token_id: token_id_v, page: page_v }) }, None => None }, None => None }
    } else if parts.len() == 5 && chars_eq_str(parts[0].as_slice(), "v1") && chars_eq_str(parts[1].as_slice(), "admin") && chars_eq_str(parts[2].as_slice(), "token") && chars_eq_str(parts[3].as_slice(), "startlink") {
        match parse_i64(parts[4].as_slice()) { Some(token_id_v) => Some(CallbackAction::SendTokenStartLink { token_id: token_id_v }), None => None }
    } else if parts.len() == 7 && chars_eq_str(parts[0].as_slice(), "v1") && chars_eq_str(parts[1].as_slice(), "admin") && chars_eq_str(parts[2].as_slice(), "token") && chars_eq_str(parts[3].as_slice(), "revoke") && chars_eq_str(parts[4].as_slice(), "confirm") {
        match parse_i64(parts[5].as_slice()) { Some(token_id_v) => match parse_i64(parts[6].as_slice()) { Some(raw) => { let page_v = clamp_page(raw); Some(CallbackAction::ConfirmTokenRevoke { token_id: token_id_v, page: page_v }) }, None => None }, None => None }
    } else if parts.len() == 7 && chars_eq_str(parts[0].as_slice(), "v1") && chars_eq_str(parts[1].as_slice(), "admin") && chars_eq_str(parts[2].as_slice(), "token") && chars_eq_str(parts[3].as_slice(), "revoke") && chars_eq_str(parts[4].as_slice(), "execute") {
        match parse_i64(parts[5].as_slice()) { Some(token_id_v) => match parse_i64(parts[6].as_slice()) { Some(raw) => { let page_v = clamp_page(raw); Some(CallbackAction::ExecuteTokenRevoke { token_id: token_id_v, page: page_v }) }, None => None }, None => None }
    } else if parts.len() == 3 && chars_eq_str(parts[0].as_slice(), "v1") && chars_eq_str(parts[1].as_slice(), "admin") && chars_eq_str(parts[2].as_slice(), "delete") {
        Some(CallbackAction::PromptDeleteUser)
    } else if parts.len() == 5 && chars_eq_str(parts[0].as_slice(), "v1") && chars_eq_str(parts[1].as_slice(), "admin") && chars_eq_str(parts[2].as_slice(), "delete") && chars_eq_str(parts[3].as_slice(), "execute") {
        match parse_i64(parts[4].as_slice()) { Some(tg_user_id_v) => Some(CallbackAction::ExecuteDeleteUser { tg_user_id: tg_user_id_v }), None => None }
    } else if parts.len() == 5 && chars_eq_str(parts[0].as_slice(), "v1") && chars_eq_str(parts[1].as_slice(), "req") && chars_eq_str(parts[2].as_slice(), "approve") {
        match parse_i64(parts[3].as_slice()) { Some(request_id_v) => match parse_i64(parts[4].as_slice()) { Some(raw) => { let page_v = clamp_page(raw); Some(CallbackAction::ApproveRequest { request_id: request_id_v, page: page_v }) }, None => None }, None => None }
    } else if parts.len() == 5 && chars_eq_str(parts[0].as_slice(), "v1") && chars_eq_str(parts[1].as_slice(), "req") && chars_eq_str(parts[2].as_slice(), "reject") {
        match parse_i64(parts[3].as_slice()) { Some(request_id_v) => match parse_i64(parts[4].as_slice()) { Some(raw) => { let page_v = clamp_page(raw); Some(CallbackAction::RejectRequest { request_id: request_id_v, page: page_v }) }, None => None }, None => None }
    } else if parts.len() == 3 && chars_eq_str(parts[0].as_slice(), "v1") && chars_eq_str(parts[1].as_slice(), "admin") && chars_eq_str(parts[2].as_slice(), "broadcast") {
        Some(CallbackAction::PromptBroadcastApproved)
    } else if parts.len() == 3 && chars_eq_str(parts[0].as_slice(), "v1") && chars_eq_str(parts[1].as_slice(), "admin") && chars_eq_str(parts[2].as_slice(), "groups") {
        Some(CallbackAction::ShowGroupsMenu)
    } else if parts.len() == 5 && chars_eq_str(parts[0].as_slice(), "v1") && chars_eq_str(parts[1].as_slice(), "admin") && chars_eq_str(parts[2].as_slice(), "groups") && chars_eq_str(parts[3].as_slice(), "open") {
        match parse_i64(parts[4].as_slice()) { Some(group_id_v) => Some(CallbackAction::OpenGroupCard { group_id: group_id_v }), None => None }
    } else if parts.len() == 4 && chars_eq_str(parts[0].as_slice(), "v1") && chars_eq_str(parts[1].as_slice(), "admin") && chars_eq_str(parts[2].as_slice(), "groups") && chars_eq_str(parts[3].as_slice(), "create") {
        Some(CallbackAction::PromptCreateGroup)
    } else if parts.len() == 5 && chars_eq_str(parts[0].as_slice(), "v1") && chars_eq_str(parts[1].as_slice(), "admin") && chars_eq_str(parts[2].as_slice(), "groups") && chars_eq_str(parts[3].as_slice(), "deactivate") {
        match parse_i64(parts[4].as_slice()) { Some(group_id_v) => Some(CallbackAction::GroupDeactivateAll { group_id: group_id_v }), None => None }
    } else if parts.len() == 5 && chars_eq_str(parts[0].as_slice(), "v1") && chars_eq_str(parts[1].as_slice(), "admin") && chars_eq_str(parts[2].as_slice(), "groups") && chars_eq_str(parts[3].as_slice(), "apply_expiry") {
        match parse_i64(parts[4].as_slice()) { Some(group_id_v) => Some(CallbackAction::GroupApplyExpiry { group_id: group_id_v }), None => None }
    } else if parts.len() == 7 && chars_eq_str(parts[0].as_slice(), "v1") && chars_eq_str(parts[1].as_slice(), "admin") && chars_eq_str(parts[2].as_slice(), "user") && chars_eq_str(parts[3].as_slice(), "group") && chars_eq_str(parts[4].as_slice(), "pick") {
        match parse_i64(parts[5].as_slice()) { Some(tg_user_id_v) => match parse_i64(parts[6].as_slice()) { Some(raw) => { let page_v = clamp_page(raw); Some(CallbackAction::UserGroupPicker { tg_user_id: tg_user_id_v, page: page_v }) }, None => None }, None => None }
    } else if parts.len() == 8 && chars_eq_str(parts[0].as_slice(), "v1") && chars_eq_str(parts[1].as_slice(), "admin") && chars_eq_str(parts[2].as_slice(), "user") && chars_eq_str(parts[3].as_slice(), "group") && chars_eq_str(parts[4].as_slice(), "set") {
        match parse_i64(parts[5].as_slice()) { Some(tg_user_id_v) => match parse_i64(parts[6].as_slice()) { Some(group_id_v) => match parse_i64(parts[7].as_slice()) { Some(raw) => { let page_v = clamp_page(raw); Some(CallbackAction::AssignUserToGroup { tg_user_id: tg_user_id_v, group_id: group_id_v, page: page_v }) }, None => None }, None => None }, None => None }
    } else if parts.len() == 3 && chars_eq_str(parts[0].as_slice(), "v1") && chars_eq_str(parts[1].as_slice(), "admin") && chars_eq_str(parts[2].as_slice(), "import") {
        Some(CallbackAction::PromptImportUser)
    } else {
        None
    }
}

proof fn lemma_literal_facts()
    ensures
        "0"@.len() == 1 && "0"@[0] == '0',
        !"0"@.contains('|'),
        "1"@.len() == 1 && "1"@[0] == '1',
        !"1"@.contains('|'),
        "admin"@.len() == 5 && "admin"@[0] == 'a',
        !"admin"@.contains('|'),
        "apply_expiry"@.len() == 12 && "apply_expiry"@[0] == 'a',
        !"apply_expiry"@.contains('|'),
        "approve"@.len() == 7 && "approve"@[0] == 'a',
        !"approve"@.contains('|'),
        "ban_confirm"@.len() == 11 && "ban_confirm"@[0] == 'b' && "ban_confirm"@[4] == 'c',
        !"ban_confirm"@.contains('|'),
        "ban_execute"@.len() == 11 && "ban_execute"@[0] == 'b' && "ban_execute"@[4] == 'e',
        !"ban_execute"@.contains('|'),
        "broadcast"@.len() == 9 && "broadcast"@[0] == 'b',
        !"broadcast"@.contains('|'),
        "cancel"@.len() == 6 && "cancel"@[0] == 'c',
        !"cancel"@.contains('|'),
        "confirm"@.len() == 7 && "confirm"@[0] == 'c',
        !"confirm"@.contains('|'),
        "connections"@.len() == 11 && "connections"@[0] == 'c',
        !"connections"@.contains('|'),
        "create"@.len() == 6 && "create"@[0] == 'c',
        !"create"@.contains('|'),
        "deactivate"@.len() == 10 && "deactivate"@[0] == 'd',
        !"deactivate"@.contains('|'),
        "delete"@.len() == 6 && "delete"@[0] == 'd',
        !"delete"@.contains('|'),
        "execute"@.len() == 7 && "execute"@[0] == 'e',
        !"execute"@.contains('|'),
        "group"@.len() == 5 && "group"@[0] == 'g',
        !"group"@.contains('|'),
        "groups"@.len() == 6 && "groups"@[0] == 'g',
        !"groups"@.contains('|'),
        "guide"@.len() == 5 && "guide"@[0] == 'g',
        !"guide"@.contains('|'),
        "home"@.len() == 4 && "home"@[0] == 'h',
        !"home"@.contains('|'),
        "import"@.len() == 6 && "import"@[0] == 'i',
        !"import"@.contains('|'),
        "invite"@.len() == 6 && "invite"@[0] == 'i',
        !"invite"@.contains('|'),
        "limit"@.len() == 5 && "limit"@[0] == 'l',
        !"limit"@.contains('|'),
        "link"@.len() == 4 && "link"@[0] == 'l',
        !"link"@.contains('|'),
        "list"@.len() == 4 && "list"@[0] == 'l',
        !"list"@.contains('|'),
        "lookup"@.len() == 6 && "lookup"@[0] == 'l',
        !"lookup"@.contains('|'),
        "noop"@.len() == 4 && "noop"@[0] == 'n',
        !"noop"@.contains('|'),
        "open"@.len() == 4 && "open"@[0] == 'o',
        !"open"@.contains('|'),
        "page"@.len() == 4 && "page"@[0] == 'p',
        !"page"@.contains('|'),
        "pending"@.len() == 7 && "pending"@[0] == 'p',
        !"pending"@.contains('|'),
        "pick"@.len() == 4 && "pick"@[0] == 'p',
        !"pick"@.contains('|'),
        "reject"@.len() == 6 && "reject"@[0] == 'r',
        !"reject"@.contains('|'),
        "req"@.len() == 3 && "req"@[0] == 'r',
        !"req"@.contains('|'),
        "revoke"@.len() == 6 && "revoke"@[0] == 'r',
        !"revoke"@.contains('|'),
        "service"@.len() == 7 && "service"@[0] == 's',
        !"service"@.contains('|'),
        "set"@.len() == 3 && "set"@[0] == 's',
        !"set"@.contains('|'),
        "startlink"@.len() == 9 && "startlink"@[0] == 's',
        !"startlink"@.contains('|'),
        "stats"@.len() == 5 && "stats"@[0] == 's',
        !"stats"@.contains('|'),
        "token"@.len() == 5 && "token"@[0] == 't',
        !"token"@.contains('|'),
        "user"@.len() == 4 && "user"@[0] == 'u',
        !"user"@.contains('|'),
        "users"@.len() == 5 && "users"@[0] == 'u',
        !"users"@.contains('|'),
        "v1"@.len() == 2 && "v1"@[0] == 'v',
        !"v1"@.contains('|'),
        "view"@.len() == 4 && "view"@[0] == 'v',
        !"view"@.contains('|'),
        "wizard"@.len() == 6 && "wizard"@[0] == 'w',
        !"wizard"@.contains('|'),
{
    reveal_strlit("0");
    reveal_strlit("1");
    reveal_strlit("admin");
    reveal_strlit("apply_expiry");
    reveal_strlit("approve");
    reveal_strlit("ban_confirm");
    reveal_strlit("ban_execute");
    reveal_strlit("broadcast");
    reveal_strlit("cancel");
    reveal_strlit("confirm");
    reveal_strlit("connections");
    reveal_strlit("create");
    reveal_strlit("deactivate");
    reveal_strlit("delete");
    reveal_strlit("execute");
    reveal_strlit("group");
    reveal_strlit("groups");
    reveal_strlit("guide");
    reveal_strlit("home");
    reveal_strlit("import");
    reveal_strlit("invite");
    reveal_strlit("limit");
    reveal_strlit("link");
    reveal_strlit("list");
    reveal_strlit("lookup");
    reveal_strlit("noop");
    reveal_strlit("open");
    reveal_strlit("page");
    reveal_strlit("pending");
    reveal_strlit("pick");
    reveal_strlit("reject");
    reveal_strlit("req");
    reveal_strlit("revoke");
    reveal_strlit("service");
    reveal_strlit("set");
    reveal_strlit("startlink");
    reveal_strlit("stats");
    reveal_strlit("token");
    reveal_strlit("user");
    reveal_strlit("users");
    reveal_strlit("v1");
    reveal_strlit("view");
    reveal_strlit("wizard");
}

proof fn lemma_roundtrip_0(a: CallbackAction)
    requires
        a is Noop,
    ensures
        decode_spec(a.encode_spec()) == Some(a.normalized()),
        split_on(a.encode_spec(), '|') == a.parts(),
{
    lemma_literal_facts();
    let ps = a.parts();
    match a {
        CallbackAction::Noop => {
            
        },
        _ => {},
    }
    assert forall|i: int| 0 <= i < ps.len() implies !(#[trigger] ps[i]).contains('|') by {}
    lemma_split_join(ps, '|');
}

proof fn lemma_roundtrip_1(a: CallbackAction)
    requires
        a is ShowAdminHome,
    ensures
        decode_spec(a.encode_spec()) == Some(a.normalized()),
        split_on(a.encode_spec(), '|') == a.parts(),
{
    lemma_literal_facts();
    let ps = a.parts();
    match a {
        CallbackAction::ShowAdminHome => {
            
        },
        _ => {},
    }
    assert forall|i: int| 0 <= i < ps.len() implies !(#[trigger] ps[i]).contains('|') by {}
    lemma_split_join(ps, '|');
}

proof fn lemma_roundtrip_2(a: CallbackAction)
    requires
        a is ShowUserHome,
    ensures
        decode_spec(a.encode_spec()) == Some(a.normalized()),
        split_on(a.encode_spec(), '|') == a.parts(),
{
    lemma_literal_facts();
    let ps = a.parts();
    match a {
        CallbackAction::ShowUserHome => {
            
        },
        _ => {},
    }
    assert forall|i: int| 0 <= i < ps.len() implies !(#[trigger] ps[i]).contains('|') by {}
    lemma_split_join(ps, '|');
}

proof fn lemma_roundtrip_3(a: CallbackAction)
    requires
        a is ShowUserLink,
    ensures
        decode_spec(a.encode_spec()) == Some(a.normalized()),
        split_on(a.encode_spec(), '|') == a.parts(),
{
    lemma_literal_facts();
    let ps = a.parts();
    match a {
        CallbackAction::ShowUserLink => {
            
        },
        _ => {},
    }
    assert forall|i: int| 0 <= i < ps.len() implies !(#[trigger] ps[i]).contains('|') by {}
    lemma_split_join(ps, '|');
}

proof fn lemma_roundtrip_4(a: CallbackAction)
    requires
        a is ShowUsageGuide,
    ensures
        decode_spec(a.encode_spec()) == Some(a.normalized()),
        split_on(a.encode_spec(), '|') == a.parts(),
{
    lemma_literal_facts();
    let ps = a.parts();
    match a {
        CallbackAction::ShowUsageGuide => {
            
        },
        _ => {},
    }
    assert forall|i: int| 0 <= i < ps.len() implies !(#[trigger] ps[i]).contains('|') by {}
    lemma_split_join(ps, '|');
}

proof fn lemma_roundtrip_5(a: CallbackAction)
    requires
        a is PromptInviteToken,
    ensures
        decode_spec(a.encode_spec()) == Some(a.normalized()),
        split_on(a.encode_spec(), '|') == a.parts(),
{
    lemma_literal_facts();
    let ps = a.parts();
    match a {
        CallbackAction::PromptInviteToken => {
            
        },
        _ => {},
    }
    assert forall|i: int| 0 <= i < ps.len() implies !(#[trigger] ps[i]).contains('|') by {}
    lemma_split_join(ps, '|');
}

proof fn lemma_roundtrip_6(a: CallbackAction)
    requires
        a is CancelWizard,
    ensures
        decode_spec(a.encode_spec()) == Some(a.normalized()),
        split_on(a.encode_spec(), '|') == a.parts(),
{
    lemma_literal_facts();
    let ps = a.parts();
    match a {
        CallbackAction::CancelWizard => {
            
        },
        _ => {},
    }
    assert forall|i: int| 0 <= i < ps.len() implies !(#[trigger] ps[i]).contains('|') by {}
    lemma_split_join(ps, '|');
}

proof fn lemma_roundtrip_7(a: CallbackAction)
    requires
        a is ShowPendingRequests,
    ensures
        decode_spec(a.encode_spec()) == Some(a.normalized()),
        split_on(a.encode_spec(), '|') == a.parts(),
{
    lemma_literal_facts();
    let ps = a.parts();
    match a {
        CallbackAction::ShowPendingRequests => {
            
        },
        _ => {},
    }
    assert forall|i: int| 0 <= i < ps.len() implies !(#[trigger] ps[i]).contains('|') by {}
    lemma_split_join(ps, '|');
}

proof fn lemma_roundtrip_8(a: CallbackAction)
    requires
        a is ShowPendingRequestsPage,
    ensures
        decode_spec(a.encode_spec()) == Some(a.normalized()),
        split_on(a.encode_spec(), '|') == a.parts(),
{
    lemma_literal_facts();
    let ps = a.parts();
    match a {
        CallbackAction::ShowPendingRequestsPage { page } => {
            lemma_parse_int_str(page as int, i64::MIN as int, i64::MAX as int);
            lemma_int_str_no_char(page as int, '|');
        },
        _ => {},
    }
    assert forall|i: int| 0 <= i < ps.len() implies !(#[trigger] ps[i]).contains('|') by {}
    lemma_split_join(ps, '|');
}

proof fn lemma_roundtrip_9(a: CallbackAction)
    requires
        a is OpenPendingRequest,
    ensures
        decode_spec(a.encode_spec()) == Some(a.normalized()),
        split_on(a.encode_spec(), '|') == a.parts(),
{
    lemma_literal_facts();
    let ps = a.parts();
    match a {
        CallbackAction::OpenPendingRequest { request_id, page } => {
            lemma_parse_int_str(request_id as int, i64::MIN as int, i64::MAX as int);
            lemma_int_str_no_char(request_id as int, '|');
            lemma_parse_int_str(page as int, i64::MIN as int, i64::MAX as int);
            lemma_int_str_no_char(page as int, '|');
        },
        _ => {},
    }
    assert forall|i: int| 0 <= i < ps.len() implies !(#[trigger] ps[i]).contains('|') by {}
    lemma_split_join(ps, '|');
}

proof fn lemma_roundtrip_10(a: CallbackAction)
    requires
        a is ShowUsersPage,
    ensures
        decode_spec(a.encode_spec()) == Some(a.normalized()),
        split_on(a.encode_spec(), '|') == a.parts(),
{
    lemma_literal_facts();
    let ps = a.parts();
    match a {
        CallbackAction::ShowUsersPage { page } => {
            lemma_parse_int_str(page as int, i64::MIN as int, i64::MAX as int);
            lemma_int_str_no_char(page as int, '|');
        },
        _ => {},
    }
    assert forall|i: int| 0 <= i < ps.len() implies !(#[trigger] ps[i]).contains('|') by {}
    lemma_split_join(ps, '|');
}

proof fn lemma_roundtrip_11(a: CallbackAction)
    requires
        a is PromptUserLookup,
    ensures
        decode_spec(a.encode_spec()) == Some(a.normalized()),
        split_on(a.encode_spec(), '|') == a.parts(),
{
    lemma_literal_facts();
    let ps = a.parts();
    match a {
        CallbackAction::PromptUserLookup { page } => {
            lemma_parse_int_str(page as int, i64::MIN as int, i64::MAX as int);
            lemma_int_str_no_char(page as int, '|');
        },
        _ => {},
    }
    assert forall|i: int| 0 <= i < ps.len() implies !(#[trigger] ps[i]).contains('|') by {}
    lemma_split_join(ps, '|');
}

proof fn lemma_roundtrip_12(a: CallbackAction)
    requires
        a is OpenUserCard,
    ensures
        decode_spec(a.encode_spec()) == Some(a.normalized()),
        split_on(a.encode_spec(), '|') == a.parts(),
{
    lemma_literal_facts();
    let ps = a.parts();
    match a {
        CallbackAction::OpenUserCard { tg_user_id, page } => {
            lemma_parse_int_str(tg_user_id as int, i64::MIN as int, i64::MAX as int);
            lemma_int_str_no_char(tg_user_id as int, '|');
            lemma_parse_int_str(page as int, i64::MIN as int, i64::MAX as int);
            lemma_int_str_no_char(page as int, '|');
        },
        _ => {},
    }
    assert forall|i: int| 0 <= i < ps.len() implies !(#[trigger] ps[i]).contains('|') by {}
    lemma_split_join(ps, '|');
}

proof fn lemma_roundtrip_13(a: CallbackAction)
    requires
        a is PromptUserLimit,
    ensures
        decode_spec(a.encode_spec()) == Some(a.normalized()),
        split_on(a.encode_spec(), '|') == a.parts(),
{
    lemma_literal_facts();
    let ps = a.parts();
    match a {
        CallbackAction::PromptUserLimit { tg_user_id, page, field } => {
            lemma_user_limit_field_roundtrip(field);
            lemma_user_limit_field_no_pipe(field);
            lemma_parse_int_str(tg_user_id as int, i64::MIN as int, i64::MAX as int);
            lemma_int_str_no_char(tg_user_id as int, '|');
            lemma_parse_int_str(page as int, i64::MIN as int, i64::MAX as int);
            lemma_int_str_no_char(page as int, '|');
        },
        _ => {},
    }
    assert forall|i: int| 0 <= i < ps.len() implies !(#[trigger] ps[i]).contains('|') by {}
    lemma_split_join(ps, '|');
}

proof fn lemma_roundtrip_14(a: CallbackAction)
    requires
        a is ViewUserQr,
    ensures
        decode_spec(a.encode_spec()) == Some(a.normalized()),
        split_on(a.encode_spec(), '|') == a.parts(),
{
    lemma_literal_facts();
    let ps = a.parts();
    match a {
        CallbackAction::ViewUserQr { tg_user_id } => {
            lemma_parse_int_str(tg_user_id as int, i64::MIN as int, i64::MAX as int);
            lemma_int_str_no_char(tg_user_id as int, '|');
        },
        _ => {},
    }
    assert forall|i: int| 0 <= i < ps.len() implies !(#[trigger] ps[i]).contains('|') by {}
    lemma_split_join(ps, '|');
}

proof fn lemma_roundtrip_15(a: CallbackAction)
    requires
        a is SendUserStartLink,
    ensures
        decode_spec(a.encode_spec()) == Some(a.normalized()),
        split_on(a.encode_spec(), '|') == a.parts(),
{
    lemma_literal_facts();
    let ps = a.parts();
    match a {
        CallbackAction::SendUserStartLink { tg_user_id } => {
            lemma_parse_int_str(tg_user_id as int, i64::MIN as int, i64::MAX as int);
            lemma_int_str_no_char(tg_user_id as int, '|');
        },
        _ => {},
    }
    assert forall|i: int| 0 <= i < ps.len() implies !(#[trigger] ps[i]).contains('|') by {}
    lemma_split_join(ps, '|');
}

proof fn lemma_roundtrip_16(a: CallbackAction)
    requires
        a is ConfirmUserBan,
    ensures
        decode_spec(a.encode_spec()) == Some(a.normalized()),
        split_on(a.encode_spec(), '|') == a.parts(),
{
    lemma_literal_facts();
    let ps = a.parts();
    match a {
        CallbackAction::ConfirmUserBan { tg_user_id, page } => {
            lemma_parse_int_str(tg_user_id as int, i64::MIN as int, i64::MAX as int);
            lemma_int_str_no_char(tg_user_id as int, '|');
            lemma_parse_int_str(page as int, i64::MIN as int, i64::MAX as int);
            lemma_int_str_no_char(page as int, '|');
        },
        _ => {},
    }
    assert forall|i: int| 0 <= i < ps.len() implies !(#[trigger] ps[i]).contains('|') by {}
    lemma_split_join(ps, '|');
}

proof fn lemma_roundtrip_17(a: CallbackAction)
    requires
        a is ExecuteUserBan,
    ensures
        decode_spec(a.encode_spec()) == Some(a.normalized()),
        split_on(a.encode_spec(), '|') == a.parts(),
{
    lemma_literal_facts();
    let ps = a.parts();
    match a {
        CallbackAction::ExecuteUserBan { tg_user_id, page } => {
            lemma_parse_int_str(tg_user_id as int, i64::MIN as int, i64::MAX as int);
            lemma_int_str_no_char(tg_user_id as int, '|');
            lemma_parse_int_str(page as int, i64::MIN as int, i64::MAX as int);
            lemma_int_str_no_char(page as int, '|');
        },
        _ => {},
    }
    assert forall|i: int| 0 <= i < ps.len() implies !(#[trigger] ps[i]).contains('|') by {}
    lemma_split_join(ps, '|');
}

proof fn lemma_roundtrip_18(a: CallbackAction)
    requires
        a is ShowStats,
    ensures
        decode_spec(a.encode_spec()) == Some(a.normalized()),
        split_on(a.encode_spec(), '|') == a.parts(),
{
    lemma_literal_facts();
    let ps = a.parts();
    match a {
        CallbackAction::ShowStats => {
            
        },
        _ => {},
    }
    assert forall|i: int| 0 <= i < ps.len() implies !(#[trigger] ps[i]).contains('|') by {}
    lemma_split_join(ps, '|');
}

proof fn lemma_roundtrip_19(a: CallbackAction)
    requires
        a is ShowServicePanel,
    ensures
        decode_spec(a.encode_spec()) == Some(a.normalized()),
        split_on(a.encode_spec(), '|') == a.parts(),
{
    lemma_literal_facts();
    let ps = a.parts();
    match a {
        CallbackAction::ShowServicePanel => {
            
        },
        _ => {},
    }
    assert forall|i: int| 0 <= i < ps.len() implies !(#[trigger] ps[i]).contains('|') by {}
    lemma_split_join(ps, '|');
}

proof fn lemma_roundtrip_20(a: CallbackAction)
    requires
        a is ShowConnectionsSummary,
    ensures
        decode_spec(a.encode_spec()) == Some(a.normalized()),
        split_on(a.encode_spec(), '|') == a.parts(),
{
    lemma_literal_facts();
    let ps = a.parts();
    match a {
        CallbackAction::ShowConnectionsSummary => {
            
        },
        _ => {},
    }
    assert forall|i: int| 0 <= i < ps.len() implies !(#[trigger] ps[i]).contains('|') by {}
    lemma_split_join(ps, '|');
}

proof fn lemma_roundtrip_21(a: CallbackAction)
    requires
        a is ConfirmServiceAction,
    ensures
        decode_spec(a.encode_spec()) == Some(a.normalized()),
        split_on(a.encode_spec(), '|') == a.parts(),
{
    lemma_literal_facts();
    let ps = a.parts();
    match a {
        CallbackAction::ConfirmServiceAction { action } => {
            lemma_service_action_roundtrip(action);
            lemma_service_action_no_pipe(action);
        },
        _ => {},
    }
    assert forall|i: int| 0 <= i < ps.len() implies !(#[trigger] ps[i]).contains('|') by {}
    lemma_split_join(ps, '|');
}

proof fn lemma_roundtrip_22(a: CallbackAction)
    requires
        a is ExecuteServiceAction,
    ensures
        decode_spec(a.encode_spec()) == Some(a.normalized()),
        split_on(a.encode_spec(), '|') == a.parts(),
{
    lemma_literal_facts();
    let ps = a.parts();
    match a {
        CallbackAction::ExecuteServiceAction { action } => {
            lemma_service_action_roundtrip(action);
            lemma_service_action_no_pipe(action);
        },
        _ => {},
    }
    assert forall|i: int| 0 <= i < ps.len() implies !(#[trigger] ps[i]).contains('|') by {}
    lemma_split_join(ps, '|');
}

proof fn lemma_roundtrip_23(a: CallbackAction)
    requires
        a is ShowTokenMenu,
    ensures
        decode_spec(a.encode_spec()) == Some(a.normalized()),
        split_on(a.encode_spec(), '|') == a.parts(),
{
    lemma_literal_facts();
    let ps = a.parts();
    match a {
        CallbackAction::ShowTokenMenu => {
            
        },
        _ => {},
    }
    assert forall|i: int| 0 <= i < ps.len() implies !(#[trigger] ps[i]).contains('|') by {}
    lemma_split_join(ps, '|');
}

proof fn lemma_roundtrip_24(a: CallbackAction)
    requires
        a is PromptTokenCreate,
    ensures
        decode_spec(a.encode_spec()) == Some(a.normalized()),
        split_on(a.encode_spec(), '|') == a.parts(),
{
    lemma_literal_facts();
    let ps = a.parts();
    match a {
        CallbackAction::PromptTokenCreate { auto_approve } => {
            
        },
        _ => {},
    }
    assert forall|i: int| 0 <= i < ps.len() implies !(#[trigger] ps[i]).contains('|') by {}
    lemma_split_join(ps, '|');
}

proof fn lemma_roundtrip_25(a: CallbackAction)
    requires
        a is ShowTokenList,
    ensures
        decode_spec(a.encode_spec()) == Some(a.normalized()),
        split_on(a.encode_spec(), '|') == a.parts(),
{
    lemma_literal_facts();
    let ps = a.parts();
    match a {
        CallbackAction::ShowTokenList => {
            
        },
        _ => {},
    }
    assert forall|i: int| 0 <= i < ps.len() implies !(#[trigger] ps[i]).contains('|') by {}
    lemma_split_join(ps, '|');
}

proof fn lemma_roundtrip_26(a: CallbackAction)
    requires
        a is ShowTokenListPage,
    ensures
        decode_spec(a.encode_spec()) == Some(a.normalized()),
        split_on(a.encode_spec(), '|') == a.parts(),
{
    lemma_literal_facts();
    let ps = a.parts();
    match a {
        CallbackAction::ShowTokenListPage { page } => {
            lemma_parse_int_str(page as int, i64::MIN as int, i64::MAX as int);
            lemma_int_str_no_char(page as int, '|');
        },
        _ => {},
    }
    assert forall|i: int| 0 <= i < ps.len() implies !(#[trigger] ps[i]).contains('|') by {}
    lemma_split_join(ps, '|');
}

proof fn lemma_roundtrip_27(a: CallbackAction)
    requires
        a is PromptTokenLookup,
    ensures
        decode_spec(a.encode_spec()) == Some(a.normalized()),
        split_on(a.encode_spec(), '|') == a.parts(),
{
    lemma_literal_facts();
    let ps = a.parts();
    match a {
        CallbackAction::PromptTokenLookup { page } => {
            lemma_parse_int_str(page as int, i64::MIN as int, i64::MAX as int);
            lemma_int_str_no_char(page as int, '|');
        },
        _ => {},
    }
    assert forall|i: int| 0 <= i < ps.len() implies !(#[trigger] ps[i]).contains('|') by {}
    lemma_split_join(ps, '|');
}

proof fn lemma_roundtrip_28(a: CallbackAction)
    requires
        a is OpenTokenCard,
    ensures
        decode_spec(a.encode_spec()) == Some(a.normalized()),
        split_on(a.encode_spec(), '|') == a.parts(),
{
    lemma_literal_facts();
    let ps = a.parts();
    match a {
        CallbackAction::OpenTokenCard { token_id, page } => {
            lemma_parse_int_str(token_id as int, i64::MIN as int, i64::MAX as int);
            lemma_int_str_no_char(token_id as int, '|');
            lemma_parse_int_str(page as int, i64::MIN as int, i64::MAX as int);
            lemma_int_str_no_char(page as int, '|');
        },
        _ => {},
    }
    assert forall|i: int| 0 <= i < ps.len() implies !(#[trigger] ps[i]).contains('|') by {}
    lemma_split_join(ps, '|');
}

proof fn lemma_roundtrip_29(a: CallbackAction)
    requires
        a is SendTokenStartLink,
    ensures
        decode_spec(a.encode_spec()) == Some(a.normalized()),
        split_on(a.encode_spec(), '|') == a.parts(),
{
    lemma_literal_facts();
    let ps = a.parts();
    match a {
        CallbackAction::SendTokenStartLink { token_id } => {
            lemma_parse_int_str(token_id as int, i64::MIN as int, i64::MAX as int);
            lemma_int_str_no_char(token_id as int, '|');
        },
        _ => {},
    }
    assert forall|i: int| 0 <= i < ps.len() implies !(#[trigger] ps[i]).contains('|') by {}
    lemma_split_join(ps, '|');
}

proof fn lemma_roundtrip_30(a: CallbackAction)
    requires
        a is ConfirmTokenRevoke,
    ensures
        decode_spec(a.encode_spec()) == Some(a.normalized()),
        split_on(a.encode_spec(), '|') == a.parts(),
{
    lemma_literal_facts();
    let ps = a.parts();
    match a {
        CallbackAction::ConfirmTokenRevoke { token_id, page } => {
            lemma_parse_int_str(token_id as int, i64::MIN as int, i64::MAX as int);
            lemma_int_str_no_char(token_id as int, '|');
            lemma_parse_int_str(page as int, i64::MIN as int, i64::MAX as int);
            lemma_int_str_no_char(page as int, '|');
        },
        _ => {},
    }
    assert forall|i: int| 0 <= i < ps.len() implies !(#[trigger] ps[i]).contains('|') by {}
    lemma_split_join(ps, '|');
}

proof fn lemma_roundtrip_31(a: CallbackAction)
    requires
        a is ExecuteTokenRevoke,
    ensures
        decode_spec(a.encode_spec()) == Some(a.normalized()),
        split_on(a.encode_spec(), '|') == a.parts(),
{
    lemma_literal_facts();
    let ps = a.parts();
    match a {
        CallbackAction::ExecuteTokenRevoke { token_id, page } => {
            lemma_parse_int_str(token_id as int, i64::MIN as int, i64::MAX as int);
            lemma_int_str_no_char(token_id as int, '|');
            lemma_parse_int_str(page as int, i64::MIN as int, i64::MAX as int);
            lemma_int_str_no_char(page as int, '|');
        },
        _ => {},
    }
    assert forall|i: int| 0 <= i < ps.len() implies !(#[trigger] ps[i]).contains('|') by {}
    lemma_split_join(ps, '|');
}

proof fn lemma_roundtrip_32(a: CallbackAction)
    requires
        a is PromptDeleteUser,
    ensures
        decode_spec(a.encode_spec()) == Some(a.normalized()),
        split_on(a.encode_spec(), '|') == a.parts(),
{
    lemma_literal_facts();
    let ps = a.parts();
    match a {
        CallbackAction::PromptDeleteUser => {
            
        },
        _ => {},
    }
    assert forall|i: int| 0 <= i < ps.len() implies !(#[trigger] ps[i]).contains('|') by {}
    lemma_split_join(ps, '|');
}

proof fn lemma_roundtrip_33(a: CallbackAction)
    requires
        a is ExecuteDeleteUser,
    ensures
        decode_spec(a.encode_spec()) == Some(a.normalized()),
        split_on(a.encode_spec(), '|') == a.parts(),
{
    lemma_literal_facts();
    let ps = a.parts();
    match a {
        CallbackAction::ExecuteDeleteUser { tg_user_id } => {
            lemma_parse_int_str(tg_user_id as int, i64::MIN as int, i64::MAX as int);
            lemma_int_str_no_char(tg_user_id as int, '|');
        },
        _ => {},
    }
    assert forall|i: int| 0 <= i < ps.len() implies !(#[trigger] ps[i]).contains('|') by {}
    lemma_split_join(ps, '|');
}

proof fn lemma_roundtrip_34(a: CallbackAction)
    requires
        a is ApproveRequest,
    ensures
        decode_spec(a.encode_spec()) == Some(a.normalized()),
        split_on(a.encode_spec(), '|') == a.parts(),
{
    lemma_literal_facts();
    let ps = a.parts();
    match a {
        CallbackAction::ApproveRequest { request_id, page } => {
            lemma_parse_int_str(request_id as int, i64::MIN as int, i64::MAX as int);
            lemma_int_str_no_char(request_id as int, '|');
            lemma_parse_int_str(page as int, i64::MIN as int, i64::MAX as int);
            lemma_int_str_no_char(page as int, '|');
        },
        _ => {},
    }
    assert forall|i: int| 0 <= i < ps.len() implies !(#[trigger] ps[i]).contains('|') by {}
    lemma_split_join(ps, '|');
}

proof fn lemma_roundtrip_35(a: CallbackAction)
    requires
        a is RejectRequest,
    ensures
        decode_spec(a.encode_spec()) == Some(a.normalized()),
        split_on(a.encode_spec(), '|') == a.parts(),
{
    lemma_literal_facts();
    let ps = a.parts();
    match a {
        CallbackAction::RejectRequest { request_id, page } => {
            lemma_parse_int_str(request_id as int, i64::MIN as int, i64::MAX as int);
            lemma_int_str_no_char(request_id as int, '|');
            lemma_parse_int_str(page as int, i64::MIN as int, i64::MAX as int);
            lemma_int_str_no_char(page as int, '|');
        },
        _ => {},
    }
    assert forall|i: int| 0 <= i < ps.len() implies !(#[trigger] ps[i]).contains('|') by {}
    lemma_split_join(ps, '|');
}

proof fn lemma_roundtrip_36(a: CallbackAction)
    requires
        a is PromptBroadcastApproved,
    ensures
        decode_spec(a.encode_spec()) == Some(a.normalized()),
        split_on(a.encode_spec(), '|') == a.parts(),
{
    lemma_literal_facts();
    let ps = a.parts();
    match a {
        CallbackAction::PromptBroadcastApproved => {
            
        },
        _ => {},
    }
    assert forall|i: int| 0 <= i < ps.len() implies !(#[trigger] ps[i]).contains('|') by {}
    lemma_split_join(ps, '|');
}

proof fn lemma_roundtrip_37(a: CallbackAction)
    requires
        a is ShowGroupsMenu,
    ensures
        decode_spec(a.encode_spec()) == Some(a.normalized()),
        split_on(a.encode_spec(), '|') == a.parts(),
{
    lemma_literal_facts();
    let ps = a.parts();
    match a {
        CallbackAction::ShowGroupsMenu => {
            
        },
        _ => {},
    }
    assert forall|i: int| 0 <= i < ps.len() implies !(#[trigger] ps[i]).contains('|') by {}
    lemma_split_join(ps, '|');
}

proof fn lemma_roundtrip_38(a: CallbackAction)
    requires
        a is OpenGroupCard,
    ensures
        decode_spec(a.encode_spec()) == Some(a.normalized()),
        split_on(a.encode_spec(), '|') == a.parts(),
{
    lemma_literal_facts();
    let ps = a.parts();
    match a {
        CallbackAction::OpenGroupCard { group_id } => {
            lemma_parse_int_str(group_id as int, i64::MIN as int, i64::MAX as int);
            lemma_int_str_no_char(group_id as int, '|');
        },
        _ => {},
    }
    assert forall|i: int| 0 <= i < ps.len() implies !(#[trigger] ps[i]).contains('|') by {}
    lemma_split_join(ps, '|');
}

proof fn lemma_roundtrip_39(a: CallbackAction)
    requires
        a is PromptCreateGroup,
    ensures
        decode_spec(a.encode_spec()) == Some(a.normalized()),
        split_on(a.encode_spec(), '|') == a.parts(),
{
    lemma_literal_facts();
    let ps = a.parts();
    match a {
        CallbackAction::PromptCreateGroup => {
            
        },
        _ => {},
    }
    assert forall|i: int| 0 <= i < ps.len() implies !(#[trigger] ps[i]).contains('|') by {}
    lemma_split_join(ps, '|');
}

proof fn lemma_roundtrip_40(a: CallbackAction)
    requires
        a is GroupDeactivateAll,
    ensures
        decode_spec(a.encode_spec()) == Some(a.normalized()),
        split_on(a.encode_spec(), '|') == a.parts(),
{
    lemma_literal_facts();
    let ps = a.parts();
    match a {
        CallbackAction::GroupDeactivateAll { group_id } => {
            lemma_parse_int_str(group_id as int, i64::MIN as int, i64::MAX as int);
            lemma_int_str_no_char(group_id as int, '|');
        },
        _ => {},
    }
    assert forall|i: int| 0 <= i < ps.len() implies !(#[trigger] ps[i]).contains('|') by {}
    lemma_split_join(ps, '|');
}

proof fn lemma_roundtrip_41(a: CallbackAction)
    requires
        a is GroupApplyExpiry,
    ensures
        decode_spec(a.encode_spec()) == Some(a.normalized()),
        split_on(a.encode_spec(), '|') == a.parts(),
{
    lemma_literal_facts();
    let ps = a.parts();
    match a {
        CallbackAction::GroupApplyExpiry { group_id } => {
            lemma_parse_int_str(group_id as int, i64::MIN as int, i64::MAX as int);
            lemma_int_str_no_char(group_id as int, '|');
        },
        _ => {},
    }
    assert forall|i: int| 0 <= i < ps.len() implies !(#[trigger] ps[i]).contains('|') by {}
    lemma_split_join(ps, '|');
}

proof fn lemma_roundtrip_42(a: CallbackAction)
    requires
        a is UserGroupPicker,
    ensures
        decode_spec(a.encode_spec()) == Some(a.normalized()),
        split_on(a.encode_spec(), '|') == a.parts(),
{
    lemma_literal_facts();
    let ps = a.parts();
    match a {
        CallbackAction::UserGroupPicker { tg_user_id, page } => {
            lemma_parse_int_str(tg_user_id as int, i64::MIN as int, i64::MAX as int);
            lemma_int_str_no_char(tg_user_id as int, '|');
            lemma_parse_int_str(page as int, i64::MIN as int, i64::MAX as int);
            lemma_int_str_no_char(page as int, '|');
        },
        _ => {},
    }
    assert forall|i: int| 0 <= i < ps.len() implies !(#[trigger] ps[i]).contains('|') by {}
    lemma_split_join(ps, '|');
}

proof fn lemma_roundtrip_43(a: CallbackAction)
    requires
        a is AssignUserToGroup,
    ensures
        decode_spec(a.encode_spec()) == Some(a.normalized()),
        split_on(a.encode_spec(), '|') == a.parts(),
{
    lemma_literal_facts();
    let ps = a.parts();
    match a {
        CallbackAction::AssignUserToGroup { tg_user_id, group_id, page } => {
            lemma_parse_int_str(tg_user_id as int, i64::MIN as int, i64::MAX as int);
            lemma_int_str_no_char(tg_user_id as int, '|');
            lemma_parse_int_str(group_id as int, i64::MIN as int, i64::MAX as int);
            lemma_int_str_no_char(group_id as int, '|');
            lemma_parse_int_str(page as int, i64::MIN as int, i64::MAX as int);
            lemma_int_str_no_char(page as int, '|');
        },
        _ => {},
    }
    assert forall|i: int| 0 <= i < ps.len() implies !(#[trigger] ps[i]).contains('|') by {}
    lemma_split_join(ps, '|');
}

proof fn lemma_roundtrip_44(a: CallbackAction)
    requires
        a is PromptImportUser,
    ensures
        decode_spec(a.encode_spec()) == Some(a.normalized()),
        split_on(a.encode_spec(), '|') == a.parts(),
{
    lemma_literal_facts();
    let ps = a.parts();
    match a {
        CallbackAction::PromptImportUser => {
            
        },
        _ => {},
    }
    assert forall|i: int| 0 <= i < ps.len() implies !(#[trigger] ps[i]).contains('|') by {}
    lemma_split_join(ps, '|');
}

/// Decoding the payload of an action gives the action back, with its page
/// numbers raised to at least one.
pub proof fn lemma_decode_encode(a: CallbackAction)
    ensures
        decode_spec(a.encode_spec()) == Some(a.normalized()),
        split_on(a.encode_spec(), '|') == a.parts(),
{
    match a {
        CallbackAction::Noop => lemma_roundtrip_0(a),
        CallbackAction::ShowAdminHome => lemma_roundtrip_1(a),
        CallbackAction::ShowUserHome => lemma_roundtrip_2(a),
        CallbackAction::ShowUserLink => lemma_roundtrip_3(a),
        CallbackAction::ShowUsageGuide => lemma_roundtrip_4(a),
        CallbackAction::PromptInviteToken => lemma_roundtrip_5(a),
        CallbackAction::CancelWizard => lemma_roundtrip_6(a),
        CallbackAction::ShowPendingRequests => lemma_roundtrip_7(a),
        CallbackAction::ShowPendingRequestsPage { .. } => lemma_roundtrip_8(a),
        CallbackAction::OpenPendingRequest { .. } => lemma_roundtrip_9(a),
        CallbackAction::ShowUsersPage { .. } => lemma_roundtrip_10(a),
        CallbackAction::PromptUserLookup { .. } => lemma_roundtrip_11(a),
        CallbackAction::OpenUserCard { .. } => lemma_roundtrip_12(a),
        CallbackAction::PromptUserLimit { .. } => lemma_roundtrip_13(a),
        CallbackAction::ViewUserQr { .. } => lemma_roundtrip_14(a),
        CallbackAction::SendUserStartLink { .. } => lemma_roundtrip_15(a),
        CallbackAction::ConfirmUserBan { .. } => lemma_roundtrip_16(a),
        CallbackAction::ExecuteUserBan { .. } => lemma_roundtrip_17(a),
        CallbackAction::ShowStats => lemma_roundtrip_18(a),
        CallbackAction::ShowServicePanel => lemma_roundtrip_19(a),
        CallbackAction::ShowConnectionsSummary => lemma_roundtrip_20(a),
        CallbackAction::ConfirmServiceAction { .. } => lemma_roundtrip_21(a),
        CallbackAction::ExecuteServiceAction { .. } => lemma_roundtrip_22(a),
        CallbackAction::ShowTokenMenu => lemma_roundtrip_23(a),
        CallbackAction::PromptTokenCreate { .. } => lemma_roundtrip_24(a),
        CallbackAction::ShowTokenList => lemma_roundtrip_25(a),
        CallbackAction::ShowTokenListPage { .. } => lemma_roundtrip_26(a),
        CallbackAction::PromptTokenLookup { .. } => lemma_roundtrip_27(a),
        CallbackAction::OpenTokenCard { .. } => lemma_roundtrip_28(a),
        CallbackAction::SendTokenStartLink { .. } => lemma_roundtrip_29(a),
        CallbackAction::ConfirmTokenRevoke { .. } => lemma_roundtrip_30(a),
        CallbackAction::ExecuteTokenRevoke { .. } => lemma_roundtrip_31(a),
        CallbackAction::PromptDeleteUser => lemma_roundtrip_32(a),
        CallbackAction::ExecuteDeleteUser { .. } => lemma_roundtrip_33(a),
        CallbackAction::ApproveRequest { .. } => lemma_roundtrip_34(a),
        CallbackAction::RejectRequest { .. } => lemma_roundtrip_35(a),
        CallbackAction::PromptBroadcastApproved => lemma_roundtrip_36(a),
        CallbackAction::ShowGroupsMenu => lemma_roundtrip_37(a),
        CallbackAction::OpenGroupCard { .. } => lemma_roundtrip_38(a),
        CallbackAction::PromptCreateGroup => lemma_roundtrip_39(a),
        CallbackAction::GroupDeactivateAll { .. } => lemma_roundtrip_40(a),
        CallbackAction::GroupApplyExpiry { .. } => lemma_roundtrip_41(a),
        CallbackAction::UserGroupPicker { .. } => lemma_roundtrip_42(a),
        CallbackAction::AssignUserToGroup { .. } => lemma_roundtrip_43(a),
        CallbackAction::PromptImportUser => lemma_roundtrip_44(a),
    }
}

/// Every action read from a payload already has its pages clamped to at
/// least 1: decoding never yields a page below the first.
pub proof fn lemma_decoded_is_normalized(data: Seq<char>)
    ensures
        decode_spec(data) matches Some(a) ==> a.normalized() == a,
{
}

/// The page number an action carries, if it carries one.
pub open spec fn page_of(a: CallbackAction) -> Option<i64> {
    match a {
        CallbackAction::ShowPendingRequestsPage { page } => Some(page),
        CallbackAction::OpenPendingRequest { page, .. } => Some(page),
        CallbackAction::ShowUsersPage { page } => Some(page),
        CallbackAction::PromptUserLookup { page } => Some(page),
        CallbackAction::OpenUserCard { page, .. } => Some(page),
        CallbackAction::PromptUserLimit { page, .. } => Some(page),
        CallbackAction::ConfirmUserBan { page, .. } => Some(page),
        CallbackAction::ExecuteUserBan { page, .. } => Some(page),
        CallbackAction::ShowTokenListPage { page } => Some(page),
        CallbackAction::PromptTokenLookup { page } => Some(page),
        CallbackAction::OpenTokenCard { page, .. } => Some(page),
        CallbackAction::ConfirmTokenRevoke { page, .. } => Some(page),
        CallbackAction::ExecuteTokenRevoke { page, .. } => Some(page),
        CallbackAction::ApproveRequest { page, .. } => Some(page),
        CallbackAction::RejectRequest { page, .. } => Some(page),
        CallbackAction::UserGroupPicker { page, .. } => Some(page),
        CallbackAction::AssignUserToGroup { page, .. } => Some(page),
        _ => None,
    }
}

/// An action's page is the last piece of its payload.
proof fn lemma_page_is_last_part(a: CallbackAction)
    ensures
        a.parts().len() >= 2,
        page_of(a) matches Some(p) ==> a.parts().last() == int_str(p as int),
        (page_of(a) is Some) == (page_of(a.normalized()) is Some),
{
}

/// Two actions that read back alike and carry the same page are the same.
proof fn lemma_same_normalized_and_page(a: CallbackAction, b: CallbackAction)
    requires
        a.normalized() == b.normalized(),
        page_of(a) == page_of(b),
    ensures
        a == b,
{
}

/// Every payload starts with the version "v1|", and different actions get
/// different payloads.
pub proof fn lemma_encode_injective(a: CallbackAction, b: CallbackAction)
    ensures
        a.encode_spec().len() >= 3 && a.encode_spec().take(3) == "v1|"@,
        a != b ==> a.encode_spec() != b.encode_spec(),
{
    lemma_decode_encode(a);
    lemma_decode_encode(b);
    lemma_page_is_last_part(a);
    lemma_page_is_last_part(b);
    reveal_strlit("v1");
    reveal_strlit("v1|");
    let pa = a.parts();
    assert(pa[0] == "v1"@);
    assert(a.encode_spec() == pa[0] + seq!['|'] + join_on(pa.drop_first(), '|'));
    assert(a.encode_spec().take(3) =~= "v1|"@);
    if a.encode_spec() == b.encode_spec() {
        assert(a.parts() == b.parts());
        assert(a.normalized() == b.normalized());
        match page_of(a) {
            Some(x) => {
                let y = page_of(b)->0;
                lemma_parse_int_str(x as int, i64::MIN as int, i64::MAX as int);
                lemma_parse_int_str(y as int, i64::MIN as int, i64::MAX as int);
                assert(int_str(x as int) == int_str(y as int));
            },
            None => {},
        }
        lemma_same_normalized_and_page(a, b);
    }
}

} // verus!
