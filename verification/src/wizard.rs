//! Step-by-step dialog state of a user, stored as a short text key
//! between messages and across restarts.

use vstd::prelude::*;

use crate::callback_data::{
    clamp_page, clamp_page_spec, lemma_user_limit_field_roundtrip, UserLimitField,
};
use crate::text::{
    chars_eq_str, has_prefix, int_str, join_on, lemma_join2, lemma_join3, lemma_int_str_no_char, lemma_not_prefix_at,
    lemma_parse_int_str, lemma_split_join, parse_i32, parse_i32_spec, parse_i64, parse_i64_spec,
    push_char, push_i64, push_str, split_chars, split_on, str_chars, strip_prefix_chars,
    views_of,
};

verus! {

#[derive(Clone, Debug, PartialEq, Eq, Structural)]
pub enum WizardState {
    AwaitingInviteToken,
    AdminDeleteAwaitingTarget,
    AdminFindUserAwaitingTarget { page: i64 },
    AdminSetUserLimitAwaitingValue { tg_user_id: i64, page: i64, field: UserLimitField },
    AdminFindTokenAwaitingCode { page: i64 },
    AdminTokenCreateAwaitingParams { auto_approve: bool },
    /// Waiting for the access period in days (30/60/180 or typed in).
    AdminTokenAwaitingExpiration { auto_approve: bool },
    /// Waiting for the limit of unique IPs (optional).
    AdminTokenAwaitingMaxIps { auto_approve: bool, expiration_days: Option<i32> },
    /// Waiting for the traffic quota in bytes (optional).
    AdminTokenAwaitingDataQuota {
        auto_approve: bool,
        expiration_days: Option<i32>,
        max_unique_ips: Option<i32>,
    },
    /// Waiting for the text to send to every approved user.
    AdminBroadcastAwaitingMessage,
    /// Waiting for the name of a new user group.
    AdminGroupAwaitingName,
    /// Waiting for the new shared expiry of a group.
    AdminGroupExpiryAwaitingValue { group_id: i64 },
    /// Waiting for the Telegram user id to import from the telemt API.
    AdminImportAwaitingTgId,
}

pub open spec fn mode_text(auto_approve: bool) -> Seq<char> {
    if auto_approve {
        "auto"@
    } else {
        "manual"@
    }
}

pub open spec fn opt_zero(v: Option<i32>) -> i32 {
    match v {
        Some(n) => n,
        None => 0,
    }
}

/// A stored count where zero stands for "not set".
pub open spec fn nonzero(v: Option<i32>) -> Option<i32> {
    match v {
        Some(n) => if n == 0 {
            None
        } else {
            Some(n)
        },
        None => None,
    }
}

/// The piece at `i`, if the split produced that many.
pub open spec fn piece(ps: Seq<Seq<char>>, i: int) -> Option<Seq<char>> {
    if i < ps.len() {
        Some(ps[i])
    } else {
        None
    }
}

/// An optional count read from an optional piece.
pub open spec fn count_piece(ps: Seq<Seq<char>>, i: int) -> Option<i32> {
    match piece(ps, i) {
        Some(t) => nonzero(parse_i32_spec(t)),
        None => None,
    }
}

impl WizardState {
    /// The stored key of a state.
    pub open spec fn encode_spec(self) -> Seq<char> {
        match self {
            WizardState::AwaitingInviteToken => "awaiting_invite_token"@,
            WizardState::AdminDeleteAwaitingTarget => "admin_delete_awaiting_target"@,
            WizardState::AdminFindUserAwaitingTarget { page } => "admin_find_user:"@ + int_str(
                clamp_page_spec(page) as int,
            ),
            WizardState::AdminSetUserLimitAwaitingValue { tg_user_id, page, field } =>
                "admin_set_user_limit:"@ + join_on(
                seq![field.text(), int_str(tg_user_id as int), int_str(clamp_page_spec(page) as int)],
                ':',
            ),
            WizardState::AdminFindTokenAwaitingCode { page } => "admin_find_token:"@ + int_str(
                clamp_page_spec(page) as int,
            ),
            WizardState::AdminTokenCreateAwaitingParams { auto_approve } => "admin_token_create:"@
                + mode_text(auto_approve),
            WizardState::AdminTokenAwaitingExpiration { auto_approve } => "admin_token_exp:"@
                + mode_text(auto_approve),
            WizardState::AdminTokenAwaitingMaxIps { auto_approve, expiration_days } =>
                "admin_token_ips:"@ + join_on(
                seq![mode_text(auto_approve), int_str(opt_zero(expiration_days) as int)],
                ':',
            ),
            WizardState::AdminTokenAwaitingDataQuota {
                auto_approve,
                expiration_days,
                max_unique_ips,
            } => "admin_token_quota:"@ + join_on(
                seq![
                    mode_text(auto_approve),
                    int_str(opt_zero(expiration_days) as int),
                    int_str(opt_zero(max_unique_ips) as int),
                ],
                ':',
            ),
            WizardState::AdminBroadcastAwaitingMessage => "admin_broadcast_awaiting"@,
            WizardState::AdminGroupAwaitingName => "admin_group_awaiting_name"@,
            WizardState::AdminGroupExpiryAwaitingValue { group_id } => "admin_group_expiry:"@
                + int_str(group_id as int),
            WizardState::AdminImportAwaitingTgId => "admin_import_awaiting_tg_id"@,
        }
    }

    /// The state as it is read back from its key: pages at least one, zero counts unset.
    pub open spec fn normalized(self) -> WizardState {
        match self {
            WizardState::AdminFindUserAwaitingTarget { page } =>
                WizardState::AdminFindUserAwaitingTarget { page: clamp_page_spec(page) },
            WizardState::AdminSetUserLimitAwaitingValue { tg_user_id, page, field } =>
                WizardState::AdminSetUserLimitAwaitingValue {
                tg_user_id,
                page: clamp_page_spec(page),
                field,
            },
            WizardState::AdminFindTokenAwaitingCode { page } =>
                WizardState::AdminFindTokenAwaitingCode { page: clamp_page_spec(page) },
            WizardState::AdminTokenAwaitingMaxIps { auto_approve, expiration_days } =>
                WizardState::AdminTokenAwaitingMaxIps {
                auto_approve,
                expiration_days: nonzero(expiration_days),
            },
            WizardState::AdminTokenAwaitingDataQuota {
                auto_approve,
                expiration_days,
                max_unique_ips,
            } => WizardState::AdminTokenAwaitingDataQuota {
                auto_approve,
                expiration_days: nonzero(expiration_days),
                max_unique_ips: nonzero(max_unique_ips),
            },
            _ => self,
        }
    }
}

/// The state a stored key stands for, if any.
pub open spec fn decode_spec(v: Seq<char>) -> Option<WizardState> {
    if v == "awaiting_invite_token"@ {
        Some(WizardState::AwaitingInviteToken)
    } else if v == "admin_delete_awaiting_target"@ {
        Some(WizardState::AdminDeleteAwaitingTarget)
    } else if v == "admin_token_create:auto"@ {
        Some(WizardState::AdminTokenCreateAwaitingParams { auto_approve: true })
    } else if v == "admin_token_create:manual"@ {
        Some(WizardState::AdminTokenCreateAwaitingParams { auto_approve: false })
    } else if v == "admin_broadcast_awaiting"@ {
        Some(WizardState::AdminBroadcastAwaitingMessage)
    } else if v == "admin_group_awaiting_name"@ {
        Some(WizardState::AdminGroupAwaitingName)
    } else if v == "admin_import_awaiting_tg_id"@ {
        Some(WizardState::AdminImportAwaitingTgId)
    } else if has_prefix(v, "admin_token_exp:"@) {
        let rest = v.skip("admin_token_exp:"@.len() as int);
        Some(WizardState::AdminTokenAwaitingExpiration { auto_approve: rest == "auto"@ })
    } else if has_prefix(v, "admin_token_ips:"@) {
        let ps = split_on(v.skip("admin_token_ips:"@.len() as int), ':');
        Some(
            WizardState::AdminTokenAwaitingMaxIps {
                auto_approve: ps[0] == "auto"@,
                expiration_days: count_piece(ps, 1),
            },
        )
    } else if has_prefix(v, "admin_token_quota:"@) {
        let ps = split_on(v.skip("admin_token_quota:"@.len() as int), ':');
        Some(
            WizardState::AdminTokenAwaitingDataQuota {
                auto_approve: ps[0] == "auto"@,
                expiration_days: count_piece(ps, 1),
                max_unique_ips: count_piece(ps, 2),
            },
        )
    } else if has_prefix(v, "admin_group_expiry:"@) {
        match parse_i64_spec(v.skip("admin_group_expiry:"@.len() as int)) {
            Some(group_id) => Some(WizardState::AdminGroupExpiryAwaitingValue { group_id }),
            None => None,
        }
    } else if has_prefix(v, "admin_find_user:"@) {
        match parse_i64_spec(v.skip("admin_find_user:"@.len() as int)) {
            Some(page) => Some(
                WizardState::AdminFindUserAwaitingTarget { page: clamp_page_spec(page) },
            ),
            None => None,
        }
    } else if has_prefix(v, "admin_set_user_limit:"@) {
        let ps = split_on(v.skip("admin_set_user_limit:"@.len() as int), ':');
        match (UserLimitField::parse_spec(ps[0]), piece(ps, 1), piece(ps, 2)) {
            (Some(field), Some(a), Some(b)) => match (parse_i64_spec(a), parse_i64_spec(b)) {
                (Some(tg_user_id), Some(page)) => Some(
                    WizardState::AdminSetUserLimitAwaitingValue {
                        tg_user_id,
                        page: clamp_page_spec(page),
                        field,
                    },
                ),
                _ => None,
            },
            _ => None,
        }
    } else if has_prefix(v, "admin_find_token:"@) {
        match parse_i64_spec(v.skip("admin_find_token:"@.len() as int)) {
            Some(page) => Some(
                WizardState::AdminFindTokenAwaitingCode { page: clamp_page_spec(page) },
            ),
            None => None,
        }
    } else {
        None
    }
}

fn push_mode(s: &mut String, auto_approve: bool)
    ensures
        final(s)@ == old(s)@ + mode_text(auto_approve),
{
    if auto_approve {
        push_str(s, "auto");
    } else {
        push_str(s, "manual");
    }
}

fn nonzero_exec(v: Option<i32>) -> (r: Option<i32>)
    ensures
        r == nonzero(v),
{
    match v {
        Some(n) => if n == 0 {
            None
        } else {
            Some(n)
        },
        None => None,
    }
}

fn count_piece_exec(ps: &Vec<Vec<char>>, i: usize) -> (r: Option<i32>)
    ensures
        r == count_piece(views_of(ps@), i as int),
{
    if i < ps.len() {
        nonzero_exec(parse_i32(ps[i].as_slice()))
    } else {
        None
    }
}

impl WizardState {
    pub fn encode(&self) -> (r: String)
        ensures
            r@ == self.encode_spec(),
    {
        let mut s = String::new();
        match self {
            WizardState::AwaitingInviteToken => push_str(&mut s, "awaiting_invite_token"),
            WizardState::AdminDeleteAwaitingTarget => push_str(
                &mut s,
                "admin_delete_awaiting_target",
            ),
            WizardState::AdminFindUserAwaitingTarget { page } => {
                push_str(&mut s, "admin_find_user:");
                push_i64(&mut s, clamp_page(*page));
            },
            WizardState::AdminSetUserLimitAwaitingValue { tg_user_id, page, field } => {
                push_str(&mut s, "admin_set_user_limit:");
                push_str(&mut s, field.as_str());
                push_char(&mut s, ':');
                push_i64(&mut s, *tg_user_id);
                push_char(&mut s, ':');
                push_i64(&mut s, clamp_page(*page));
                proof {
                    lemma_join3(
                        field.text(),
                        int_str(*tg_user_id as int),
                        int_str(clamp_page_spec(*page) as int),
                        ':',
                    );
                }
            },
            WizardState::AdminFindTokenAwaitingCode { page } => {
                push_str(&mut s, "admin_find_token:");
                push_i64(&mut s, clamp_page(*page));
            },
            WizardState::AdminTokenCreateAwaitingParams { auto_approve } => {
                push_str(&mut s, "admin_token_create:");
                push_mode(&mut s, *auto_approve);
            },
            WizardState::AdminTokenAwaitingExpiration { auto_approve } => {
                push_str(&mut s, "admin_token_exp:");
                push_mode(&mut s, *auto_approve);
            },
            WizardState::AdminTokenAwaitingMaxIps { auto_approve, expiration_days } => {
                push_str(&mut s, "admin_token_ips:");
                push_mode(&mut s, *auto_approve);
                push_char(&mut s, ':');
                push_i64(&mut s, unwrap_zero(*expiration_days) as i64);
                proof {
                    lemma_join2(
                        mode_text(*auto_approve),
                        int_str(opt_zero(*expiration_days) as int),
                        ':',
                    );
                }
            },
            WizardState::AdminTokenAwaitingDataQuota {
                auto_approve,
                expiration_days,
                max_unique_ips,
            } => {
                push_str(&mut s, "admin_token_quota:");
                push_mode(&mut s, *auto_approve);
                push_char(&mut s, ':');
                push_i64(&mut s, unwrap_zero(*expiration_days) as i64);
                push_char(&mut s, ':');
                push_i64(&mut s, unwrap_zero(*max_unique_ips) as i64);
                proof {
                    lemma_join3(
                        mode_text(*auto_approve),
                        int_str(opt_zero(*expiration_days) as int),
                        int_str(opt_zero(*max_unique_ips) as int),
                        ':',
                    );
                }
            },
            WizardState::AdminBroadcastAwaitingMessage => push_str(
                &mut s,
                "admin_broadcast_awaiting",
            ),
            WizardState::AdminGroupAwaitingName => push_str(&mut s, "admin_group_awaiting_name"),
            WizardState::AdminGroupExpiryAwaitingValue { group_id } => {
                push_str(&mut s, "admin_group_expiry:");
                push_i64(&mut s, *group_id);
            },
            WizardState::AdminImportAwaitingTgId => push_str(
                &mut s,
                "admin_import_awaiting_tg_id",
            ),
        }
        assert(s@ =~= self.encode_spec());
        s
    }

    pub fn decode(value: &str) -> (r: Option<WizardState>)
        ensures
            r == decode_spec(value@),
    {
        let v = str_chars(value);
        let v = v.as_slice();
        if chars_eq_str(v, "awaiting_invite_token") {
            return Some(WizardState::AwaitingInviteToken);
        }
        if chars_eq_str(v, "admin_delete_awaiting_target") {
            return Some(WizardState::AdminDeleteAwaitingTarget);
        }
        if chars_eq_str(v, "admin_token_create:auto") {
            return Some(WizardState::AdminTokenCreateAwaitingParams { auto_approve: true });
        }
        if chars_eq_str(v, "admin_token_create:manual") {
            return Some(WizardState::AdminTokenCreateAwaitingParams { auto_approve: false });
        }
        if chars_eq_str(v, "admin_broadcast_awaiting") {
            return Some(WizardState::AdminBroadcastAwaitingMessage);
        }
        if chars_eq_str(v, "admin_group_awaiting_name") {
            return Some(WizardState::AdminGroupAwaitingName);
        }
        if chars_eq_str(v, "admin_import_awaiting_tg_id") {
            return Some(WizardState::AdminImportAwaitingTgId);
        }
        if let Some(rest) = strip_prefix_chars(v, "admin_token_exp:") {
            let auto_approve = chars_eq_str(rest.as_slice(), "auto");
            return Some(WizardState::AdminTokenAwaitingExpiration { auto_approve });
        }
        if let Some(rest) = strip_prefix_chars(v, "admin_token_ips:") {
            let ps = split_chars(rest.as_slice(), ':');
            proof {
                crate::text::lemma_split_on_len(rest@, ':');
            }
            let auto_approve = chars_eq_str(ps[0].as_slice(), "auto");
            let expiration_days = count_piece_exec(&ps, 1);
            return Some(WizardState::AdminTokenAwaitingMaxIps { auto_approve, expiration_days });
        }
        if let Some(rest) = strip_prefix_chars(v, "admin_token_quota:") {
            let ps = split_chars(rest.as_slice(), ':');
            proof {
                crate::text::lemma_split_on_len(rest@, ':');
            }
            let auto_approve = chars_eq_str(ps[0].as_slice(), "auto");
            let expiration_days = count_piece_exec(&ps, 1);
            let max_unique_ips = count_piece_exec(&ps, 2);
            return Some(
                WizardState::AdminTokenAwaitingDataQuota {
                    auto_approve,
                    expiration_days,
                    max_unique_ips,
                },
            );
        }
        if let Some(rest) = strip_prefix_chars(v, "admin_group_expiry:") {
            return match parse_i64(rest.as_slice()) {
                Some(group_id) => Some(WizardState::AdminGroupExpiryAwaitingValue { group_id }),
                None => None,
            };
        }
        if let Some(rest) = strip_prefix_chars(v, "admin_find_user:") {
            return match parse_i64(rest.as_slice()) {
                Some(page) => Some(
                    WizardState::AdminFindUserAwaitingTarget { page: clamp_page(page) },
                ),
                None => None,
            };
        }
        if let Some(rest) = strip_prefix_chars(v, "admin_set_user_limit:") {
            let ps = split_chars(rest.as_slice(), ':');
            proof {
                crate::text::lemma_split_on_len(rest@, ':');
            }
            let field = match UserLimitField::parse_chars(ps[0].as_slice()) {
                Some(f) => f,
                None => return None,
            };
            if ps.len() < 2 {
                return None;
            }
            let tg_user_id = match parse_i64(ps[1].as_slice()) {
                Some(n) => n,
                None => return None,
            };
            if ps.len() < 3 {
                return None;
            }
            let page = match parse_i64(ps[2].as_slice()) {
                Some(n) => n,
                None => return None,
            };
            return Some(
                WizardState::AdminSetUserLimitAwaitingValue {
                    tg_user_id,
                    page: clamp_page(page),
                    field,
                },
            );
        }
        if let Some(rest) = strip_prefix_chars(v, "admin_find_token:") {
            return match parse_i64(rest.as_slice()) {
                Some(page) => Some(
                    WizardState::AdminFindTokenAwaitingCode { page: clamp_page(page) },
                ),
                None => None,
            };
        }
        None
    }
}

/// `v.unwrap_or(0)`.
fn unwrap_zero(v: Option<i32>) -> (r: i32)
    ensures
        r == opt_zero(v),
{
    match v {
        Some(n) => n,
        None => 0,
    }
}

proof fn lemma_wizard_literal_facts()
    ensures
        "admin_broadcast_awaiting"@.len() == 24,
        "admin_delete_awaiting_target"@.len() == 28,
        "admin_find_token:"@.len() == 17,
        "admin_find_user:"@.len() == 16,
        "admin_group_awaiting_name"@.len() == 25,
        "admin_group_expiry:"@.len() == 19,
        "admin_import_awaiting_tg_id"@.len() == 27,
        "admin_set_user_limit:"@.len() == 21,
        "admin_token_create:"@.len() == 19,
        "admin_token_create:auto"@.len() == 23,
        "admin_token_create:manual"@.len() == 25,
        "admin_token_exp:"@.len() == 16,
        "admin_token_ips:"@.len() == 16,
        "admin_token_quota:"@.len() == 18,
        "auto"@.len() == 4,
        "awaiting_invite_token"@.len() == 21,
        "manual"@.len() == 6,
        !"auto"@.contains(':'),
        !"manual"@.contains(':'),
        "admin_token_create:"@ + "auto"@ == "admin_token_create:auto"@,
        "admin_token_create:"@ + "manual"@ == "admin_token_create:manual"@,
{
    reveal_strlit("admin_broadcast_awaiting");
    reveal_strlit("admin_delete_awaiting_target");
    reveal_strlit("admin_find_token:");
    reveal_strlit("admin_find_user:");
    reveal_strlit("admin_group_awaiting_name");
    reveal_strlit("admin_group_expiry:");
    reveal_strlit("admin_import_awaiting_tg_id");
    reveal_strlit("admin_set_user_limit:");
    reveal_strlit("admin_token_create:");
    reveal_strlit("admin_token_create:auto");
    reveal_strlit("admin_token_create:manual");
    reveal_strlit("admin_token_exp:");
    reveal_strlit("admin_token_ips:");
    reveal_strlit("admin_token_quota:");
    reveal_strlit("auto");
    reveal_strlit("awaiting_invite_token");
    reveal_strlit("manual");
    assert("admin_token_create:"@ + "auto"@ =~= "admin_token_create:auto"@);
    assert("admin_token_create:"@ + "manual"@ =~= "admin_token_create:manual"@);
}

pub proof fn lemma_user_limit_field_no_colon(f: UserLimitField)
    ensures
        !f.text().contains(':'),
{
    reveal_strlit("tcp");
    reveal_strlit("quota");
    reveal_strlit("ips");
    reveal_strlit("expire");
}

proof fn lemma_wizard_roundtrip_0(w: WizardState)
    requires
        w is AwaitingInviteToken,
    ensures
        decode_spec(w.encode_spec()) == Some(w.normalized()),
{
    lemma_wizard_literal_facts();
    let enc = w.encode_spec();
    reveal_strlit("awaiting_invite_token");
    match w {
        WizardState::AwaitingInviteToken => {
        },
        _ => {},
    }
}

proof fn lemma_wizard_roundtrip_1(w: WizardState)
    requires
        w is AdminDeleteAwaitingTarget,
    ensures
        decode_spec(w.encode_spec()) == Some(w.normalized()),
{
    lemma_wizard_literal_facts();
    let enc = w.encode_spec();
    reveal_strlit("admin_delete_awaiting_target");
    match w {
        WizardState::AdminDeleteAwaitingTarget => {
        },
        _ => {},
    }
}

proof fn lemma_wizard_roundtrip_2(w: WizardState)
    requires
        w is AdminTokenCreateAwaitingParams,
    ensures
        decode_spec(w.encode_spec()) == Some(w.normalized()),
{
    lemma_wizard_literal_facts();
    let enc = w.encode_spec();
    reveal_strlit("admin_token_create:");
    match w {
        WizardState::AdminTokenCreateAwaitingParams { auto_approve } => {
        },
        _ => {},
    }
}

proof fn lemma_wizard_roundtrip_3(w: WizardState)
    requires
        w is AdminBroadcastAwaitingMessage,
    ensures
        decode_spec(w.encode_spec()) == Some(w.normalized()),
{
    lemma_wizard_literal_facts();
    let enc = w.encode_spec();
    reveal_strlit("admin_broadcast_awaiting");
    match w {
        WizardState::AdminBroadcastAwaitingMessage => {
        },
        _ => {},
    }
}

proof fn lemma_wizard_roundtrip_4(w: WizardState)
    requires
        w is AdminGroupAwaitingName,
    ensures
        decode_spec(w.encode_spec()) == Some(w.normalized()),
{
    lemma_wizard_literal_facts();
    let enc = w.encode_spec();
    reveal_strlit("admin_group_awaiting_name");
    reveal_strlit("admin_token_create:manual");
    match w {
        WizardState::AdminGroupAwaitingName => {
            assert("admin_group_awaiting_name"@[6] != "admin_token_create:manual"@[6]);
        },
        _ => {},
    }
}

proof fn lemma_wizard_roundtrip_5(w: WizardState)
    requires
        w is AdminImportAwaitingTgId,
    ensures
        decode_spec(w.encode_spec()) == Some(w.normalized()),
{
    lemma_wizard_literal_facts();
    let enc = w.encode_spec();
    reveal_strlit("admin_import_awaiting_tg_id");
    match w {
        WizardState::AdminImportAwaitingTgId => {
        },
        _ => {},
    }
}

proof fn lemma_wizard_roundtrip_6(w: WizardState)
    requires
        w is AdminTokenAwaitingExpiration,
    ensures
        decode_spec(w.encode_spec()) == Some(w.normalized()),
{
    lemma_wizard_literal_facts();
    let enc = w.encode_spec();
    reveal_strlit("admin_broadcast_awaiting");
    reveal_strlit("admin_delete_awaiting_target");
    reveal_strlit("admin_group_awaiting_name");
    reveal_strlit("admin_import_awaiting_tg_id");
    reveal_strlit("admin_token_create:auto");
    reveal_strlit("admin_token_create:manual");
    reveal_strlit("admin_token_exp:");
    reveal_strlit("awaiting_invite_token");
    match w {
        WizardState::AdminTokenAwaitingExpiration { auto_approve } => {
            let rest = enc.skip("admin_token_exp:"@.len() as int);
            assert(enc.take("admin_token_exp:"@.len() as int) =~= "admin_token_exp:"@);
            assert(rest =~= enc.subrange("admin_token_exp:"@.len() as int, enc.len() as int));
            assert(enc[1] == "admin_token_exp:"@[1] && "admin_token_exp:"@[1] != "awaiting_invite_token"@[1]);
            assert(enc[6] == "admin_token_exp:"@[6] && "admin_token_exp:"@[6] != "admin_delete_awaiting_target"@[6]);
            assert(enc[12] == "admin_token_exp:"@[12] && "admin_token_exp:"@[12] != "admin_token_create:auto"@[12]);
            assert(enc[12] == "admin_token_exp:"@[12] && "admin_token_exp:"@[12] != "admin_token_create:manual"@[12]);
            assert(enc[6] == "admin_token_exp:"@[6] && "admin_token_exp:"@[6] != "admin_broadcast_awaiting"@[6]);
            assert(enc[6] == "admin_token_exp:"@[6] && "admin_token_exp:"@[6] != "admin_group_awaiting_name"@[6]);
            assert(enc[6] == "admin_token_exp:"@[6] && "admin_token_exp:"@[6] != "admin_import_awaiting_tg_id"@[6]);
            assert(rest =~= mode_text(auto_approve));
        },
        _ => {},
    }
}

proof fn lemma_wizard_roundtrip_7(w: WizardState)
    requires
        w is AdminTokenAwaitingMaxIps,
    ensures
        decode_spec(w.encode_spec()) == Some(w.normalized()),
{
    lemma_wizard_literal_facts();
    let enc = w.encode_spec();
    reveal_strlit("admin_broadcast_awaiting");
    reveal_strlit("admin_delete_awaiting_target");
    reveal_strlit("admin_group_awaiting_name");
    reveal_strlit("admin_import_awaiting_tg_id");
    reveal_strlit("admin_token_create:auto");
    reveal_strlit("admin_token_create:manual");
    reveal_strlit("admin_token_exp:");
    reveal_strlit("admin_token_ips:");
    reveal_strlit("awaiting_invite_token");
    match w {
        WizardState::AdminTokenAwaitingMaxIps { auto_approve, expiration_days } => {
            let rest = enc.skip("admin_token_ips:"@.len() as int);
            assert(enc.take("admin_token_ips:"@.len() as int) =~= "admin_token_ips:"@);
            assert(rest =~= enc.subrange("admin_token_ips:"@.len() as int, enc.len() as int));
            assert(enc[1] == "admin_token_ips:"@[1] && "admin_token_ips:"@[1] != "awaiting_invite_token"@[1]);
            assert(enc[6] == "admin_token_ips:"@[6] && "admin_token_ips:"@[6] != "admin_delete_awaiting_target"@[6]);
            assert(enc[12] == "admin_token_ips:"@[12] && "admin_token_ips:"@[12] != "admin_token_create:auto"@[12]);
            assert(enc[12] == "admin_token_ips:"@[12] && "admin_token_ips:"@[12] != "admin_token_create:manual"@[12]);
            assert(enc[6] == "admin_token_ips:"@[6] && "admin_token_ips:"@[6] != "admin_broadcast_awaiting"@[6]);
            assert(enc[6] == "admin_token_ips:"@[6] && "admin_token_ips:"@[6] != "admin_group_awaiting_name"@[6]);
            assert(enc[6] == "admin_token_ips:"@[6] && "admin_token_ips:"@[6] != "admin_import_awaiting_tg_id"@[6]);
            assert(enc[12] == "admin_token_ips:"@[12] && "admin_token_ips:"@[12] != "admin_token_exp:"@[12]);
            lemma_not_prefix_at(enc, "admin_token_exp:"@, 12);
            let d = opt_zero(expiration_days) as int;
            lemma_parse_int_str(d, i32::MIN as int, i32::MAX as int);
            lemma_int_str_no_char(d, ':');
            let ps = seq![mode_text(auto_approve), int_str(d)];
            assert(rest =~= join_on(ps, ':'));
            assert forall|i: int| 0 <= i < ps.len() implies !(#[trigger] ps[i]).contains(':') by {}
            lemma_split_join(ps, ':');
            assert(count_piece(ps, 1) == nonzero(expiration_days));
        },
        _ => {},
    }
}

proof fn lemma_wizard_roundtrip_8(w: WizardState)
    requires
        w is AdminTokenAwaitingDataQuota,
    ensures
        decode_spec(w.encode_spec()) == Some(w.normalized()),
{
    lemma_wizard_literal_facts();
    let enc = w.encode_spec();
    reveal_strlit("admin_broadcast_awaiting");
    reveal_strlit("admin_delete_awaiting_target");
    reveal_strlit("admin_group_awaiting_name");
    reveal_strlit("admin_import_awaiting_tg_id");
    reveal_strlit("admin_token_create:auto");
    reveal_strlit("admin_token_create:manual");
    reveal_strlit("admin_token_exp:");
    reveal_strlit("admin_token_ips:");
    reveal_strlit("admin_token_quota:");
    reveal_strlit("awaiting_invite_token");
    match w {
        WizardState::AdminTokenAwaitingDataQuota { auto_approve, expiration_days, max_unique_ips } => {
            let rest = enc.skip("admin_token_quota:"@.len() as int);
            assert(enc.take("admin_token_quota:"@.len() as int) =~= "admin_token_quota:"@);
            assert(rest =~= enc.subrange("admin_token_quota:"@.len() as int, enc.len() as int));
            assert(enc[1] == "admin_token_quota:"@[1] && "admin_token_quota:"@[1] != "awaiting_invite_token"@[1]);
            assert(enc[6] == "admin_token_quota:"@[6] && "admin_token_quota:"@[6] != "admin_delete_awaiting_target"@[6]);
            assert(enc[12] == "admin_token_quota:"@[12] && "admin_token_quota:"@[12] != "admin_token_create:auto"@[12]);
            assert(enc[12] == "admin_token_quota:"@[12] && "admin_token_quota:"@[12] != "admin_token_create:manual"@[12]);
            assert(enc[6] == "admin_token_quota:"@[6] && "admin_token_quota:"@[6] != "admin_broadcast_awaiting"@[6]);
            assert(enc[6] == "admin_token_quota:"@[6] && "admin_token_quota:"@[6] != "admin_group_awaiting_name"@[6]);
            assert(enc[6] == "admin_token_quota:"@[6] && "admin_token_quota:"@[6] != "admin_import_awaiting_tg_id"@[6]);
            assert(enc[12] == "admin_token_quota:"@[12] && "admin_token_quota:"@[12] != "admin_token_exp:"@[12]);
            lemma_not_prefix_at(enc, "admin_token_exp:"@, 12);
            assert(enc[12] == "admin_token_quota:"@[12] && "admin_token_quota:"@[12] != "admin_token_ips:"@[12]);
            lemma_not_prefix_at(enc, "admin_token_ips:"@, 12);
            let d = opt_zero(expiration_days) as int;
            let m = opt_zero(max_unique_ips) as int;
            lemma_parse_int_str(d, i32::MIN as int, i32::MAX as int);
            lemma_int_str_no_char(d, ':');
            lemma_parse_int_str(m, i32::MIN as int, i32::MAX as int);
            lemma_int_str_no_char(m, ':');
            let ps = seq![mode_text(auto_approve), int_str(d), int_str(m)];
            assert(rest =~= join_on(ps, ':'));
            assert forall|i: int| 0 <= i < ps.len() implies !(#[trigger] ps[i]).contains(':') by {}
            lemma_split_join(ps, ':');
            assert(count_piece(ps, 1) == nonzero(expiration_days));
            assert(count_piece(ps, 2) == nonzero(max_unique_ips));
        },
        _ => {},
    }
}

proof fn lemma_wizard_roundtrip_9(w: WizardState)
    requires
        w is AdminGroupExpiryAwaitingValue,
    ensures
        decode_spec(w.encode_spec()) == Some(w.normalized()),
{
    lemma_wizard_literal_facts();
    let enc = w.encode_spec();
    reveal_strlit("admin_broadcast_awaiting");
    reveal_strlit("admin_delete_awaiting_target");
    reveal_strlit("admin_group_awaiting_name");
    reveal_strlit("admin_group_expiry:");
    reveal_strlit("admin_import_awaiting_tg_id");
    reveal_strlit("admin_token_create:auto");
    reveal_strlit("admin_token_create:manual");
    reveal_strlit("admin_token_exp:");
    reveal_strlit("admin_token_ips:");
    reveal_strlit("admin_token_quota:");
    reveal_strlit("awaiting_invite_token");
    match w {
        WizardState::AdminGroupExpiryAwaitingValue { group_id } => {
            let rest = enc.skip("admin_group_expiry:"@.len() as int);
            assert(enc.take("admin_group_expiry:"@.len() as int) =~= "admin_group_expiry:"@);
            assert(rest =~= enc.subrange("admin_group_expiry:"@.len() as int, enc.len() as int));
            assert(enc[1] == "admin_group_expiry:"@[1] && "admin_group_expiry:"@[1] != "awaiting_invite_token"@[1]);
            assert(enc[6] == "admin_group_expiry:"@[6] && "admin_group_expiry:"@[6] != "admin_delete_awaiting_target"@[6]);
            assert(enc[6] == "admin_group_expiry:"@[6] && "admin_group_expiry:"@[6] != "admin_token_create:auto"@[6]);
            assert(enc[6] == "admin_group_expiry:"@[6] && "admin_group_expiry:"@[6] != "admin_token_create:manual"@[6]);
            assert(enc[6] == "admin_group_expiry:"@[6] && "admin_group_expiry:"@[6] != "admin_broadcast_awaiting"@[6]);
            assert(enc[12] == "admin_group_expiry:"@[12] && "admin_group_expiry:"@[12] != "admin_group_awaiting_name"@[12]);
            assert(enc[6] == "admin_group_expiry:"@[6] && "admin_group_expiry:"@[6] != "admin_import_awaiting_tg_id"@[6]);
            assert(enc[6] == "admin_group_expiry:"@[6] && "admin_group_expiry:"@[6] != "admin_token_exp:"@[6]);
            lemma_not_prefix_at(enc, "admin_token_exp:"@, 6);
            assert(enc[6] == "admin_group_expiry:"@[6] && "admin_group_expiry:"@[6] != "admin_token_ips:"@[6]);
            lemma_not_prefix_at(enc, "admin_token_ips:"@, 6);
            assert(enc[6] == "admin_group_expiry:"@[6] && "admin_group_expiry:"@[6] != "admin_token_quota:"@[6]);
            lemma_not_prefix_at(enc, "admin_token_quota:"@, 6);
            lemma_parse_int_str(group_id as int, i64::MIN as int, i64::MAX as int);
            assert(rest =~= int_str(group_id as int));
        },
        _ => {},
    }
}

proof fn lemma_wizard_roundtrip_10(w: WizardState)
    requires
        w is AdminFindUserAwaitingTarget,
    ensures
        decode_spec(w.encode_spec()) == Some(w.normalized()),
{
    lemma_wizard_literal_facts();
    let enc = w.encode_spec();
    reveal_strlit("admin_broadcast_awaiting");
    reveal_strlit("admin_delete_awaiting_target");
    reveal_strlit("admin_find_user:");
    reveal_strlit("admin_group_awaiting_name");
    reveal_strlit("admin_group_expiry:");
    reveal_strlit("admin_import_awaiting_tg_id");
    reveal_strlit("admin_token_create:auto");
    reveal_strlit("admin_token_create:manual");
    reveal_strlit("admin_token_exp:");
    reveal_strlit("admin_token_ips:");
    reveal_strlit("admin_token_quota:");
    reveal_strlit("awaiting_invite_token");
    match w {
        WizardState::AdminFindUserAwaitingTarget { page } => {
            let rest = enc.skip("admin_find_user:"@.len() as int);
            assert(enc.take("admin_find_user:"@.len() as int) =~= "admin_find_user:"@);
            assert(rest =~= enc.subrange("admin_find_user:"@.len() as int, enc.len() as int));
            assert(enc[1] == "admin_find_user:"@[1] && "admin_find_user:"@[1] != "awaiting_invite_token"@[1]);
            assert(enc[6] == "admin_find_user:"@[6] && "admin_find_user:"@[6] != "admin_delete_awaiting_target"@[6]);
            assert(enc[6] == "admin_find_user:"@[6] && "admin_find_user:"@[6] != "admin_token_create:auto"@[6]);
            assert(enc[6] == "admin_find_user:"@[6] && "admin_find_user:"@[6] != "admin_token_create:manual"@[6]);
            assert(enc[6] == "admin_find_user:"@[6] && "admin_find_user:"@[6] != "admin_broadcast_awaiting"@[6]);
            assert(enc[6] == "admin_find_user:"@[6] && "admin_find_user:"@[6] != "admin_group_awaiting_name"@[6]);
            assert(enc[6] == "admin_find_user:"@[6] && "admin_find_user:"@[6] != "admin_import_awaiting_tg_id"@[6]);
            assert(enc[6] == "admin_find_user:"@[6] && "admin_find_user:"@[6] != "admin_token_exp:"@[6]);
            lemma_not_prefix_at(enc, "admin_token_exp:"@, 6);
            assert(enc[6] == "admin_find_user:"@[6] && "admin_find_user:"@[6] != "admin_token_ips:"@[6]);
            lemma_not_prefix_at(enc, "admin_token_ips:"@, 6);
            assert(enc[6] == "admin_find_user:"@[6] && "admin_find_user:"@[6] != "admin_token_quota:"@[6]);
            lemma_not_prefix_at(enc, "admin_token_quota:"@, 6);
            assert(enc[6] == "admin_find_user:"@[6] && "admin_find_user:"@[6] != "admin_group_expiry:"@[6]);
            lemma_not_prefix_at(enc, "admin_group_expiry:"@, 6);
            lemma_parse_int_str(clamp_page_spec(page) as int, i64::MIN as int, i64::MAX as int);
            assert(rest =~= int_str(clamp_page_spec(page) as int));
        },
        _ => {},
    }
}

proof fn lemma_wizard_roundtrip_11(w: WizardState)
    requires
        w is AdminSetUserLimitAwaitingValue,
    ensures
        decode_spec(w.encode_spec()) == Some(w.normalized()),
{
    lemma_wizard_literal_facts();
    let enc = w.encode_spec();
    reveal_strlit("admin_broadcast_awaiting");
    reveal_strlit("admin_delete_awaiting_target");
    reveal_strlit("admin_find_user:");
    reveal_strlit("admin_group_awaiting_name");
    reveal_strlit("admin_group_expiry:");
    reveal_strlit("admin_import_awaiting_tg_id");
    reveal_strlit("admin_set_user_limit:");
    reveal_strlit("admin_token_create:auto");
    reveal_strlit("admin_token_create:manual");
    reveal_strlit("admin_token_exp:");
    reveal_strlit("admin_token_ips:");
    reveal_strlit("admin_token_quota:");
    reveal_strlit("awaiting_invite_token");
    match w {
        WizardState::AdminSetUserLimitAwaitingValue { tg_user_id, page, field } => {
            let rest = enc.skip("admin_set_user_limit:"@.len() as int);
            assert(enc.take("admin_set_user_limit:"@.len() as int) =~= "admin_set_user_limit:"@);
            assert(rest =~= enc.subrange("admin_set_user_limit:"@.len() as int, enc.len() as int));
            assert(enc[1] == "admin_set_user_limit:"@[1] && "admin_set_user_limit:"@[1] != "awaiting_invite_token"@[1]);
            assert(enc[6] == "admin_set_user_limit:"@[6] && "admin_set_user_limit:"@[6] != "admin_delete_awaiting_target"@[6]);
            assert(enc[6] == "admin_set_user_limit:"@[6] && "admin_set_user_limit:"@[6] != "admin_token_create:auto"@[6]);
            assert(enc[6] == "admin_set_user_limit:"@[6] && "admin_set_user_limit:"@[6] != "admin_token_create:manual"@[6]);
            assert(enc[6] == "admin_set_user_limit:"@[6] && "admin_set_user_limit:"@[6] != "admin_broadcast_awaiting"@[6]);
            assert(enc[6] == "admin_set_user_limit:"@[6] && "admin_set_user_limit:"@[6] != "admin_group_awaiting_name"@[6]);
            assert(enc[6] == "admin_set_user_limit:"@[6] && "admin_set_user_limit:"@[6] != "admin_import_awaiting_tg_id"@[6]);
            assert(enc[6] == "admin_set_user_limit:"@[6] && "admin_set_user_limit:"@[6] != "admin_token_exp:"@[6]);
            lemma_not_prefix_at(enc, "admin_token_exp:"@, 6);
            assert(enc[6] == "admin_set_user_limit:"@[6] && "admin_set_user_limit:"@[6] != "admin_token_ips:"@[6]);
            lemma_not_prefix_at(enc, "admin_token_ips:"@, 6);
            assert(enc[6] == "admin_set_user_limit:"@[6] && "admin_set_user_limit:"@[6] != "admin_token_quota:"@[6]);
            lemma_not_prefix_at(enc, "admin_token_quota:"@, 6);
            assert(enc[6] == "admin_set_user_limit:"@[6] && "admin_set_user_limit:"@[6] != "admin_group_expiry:"@[6]);
            lemma_not_prefix_at(enc, "admin_group_expiry:"@, 6);
            assert(enc[6] == "admin_set_user_limit:"@[6] && "admin_set_user_limit:"@[6] != "admin_find_user:"@[6]);
            lemma_not_prefix_at(enc, "admin_find_user:"@, 6);
            let pg = clamp_page_spec(page) as int;
            lemma_parse_int_str(tg_user_id as int, i64::MIN as int, i64::MAX as int);
            lemma_int_str_no_char(tg_user_id as int, ':');
            lemma_parse_int_str(pg, i64::MIN as int, i64::MAX as int);
            lemma_int_str_no_char(pg, ':');
            lemma_user_limit_field_roundtrip(field);
            lemma_user_limit_field_no_colon(field);
            let ps = seq![field.text(), int_str(tg_user_id as int), int_str(pg)];
            assert(rest =~= join_on(ps, ':'));
            assert forall|i: int| 0 <= i < ps.len() implies !(#[trigger] ps[i]).contains(':') by {}
            lemma_split_join(ps, ':');
            assert(piece(ps, 1) == Some(int_str(tg_user_id as int)));
            assert(piece(ps, 2) == Some(int_str(pg)));
        },
        _ => {},
    }
}

proof fn lemma_wizard_roundtrip_12(w: WizardState)
    requires
        w is AdminFindTokenAwaitingCode,
    ensures
        decode_spec(w.encode_spec()) == Some(w.normalized()),
{
    lemma_wizard_literal_facts();
    let enc = w.encode_spec();
    reveal_strlit("admin_broadcast_awaiting");
    reveal_strlit("admin_delete_awaiting_target");
    reveal_strlit("admin_find_token:");
    reveal_strlit("admin_find_user:");
    reveal_strlit("admin_group_awaiting_name");
    reveal_strlit("admin_group_expiry:");
    reveal_strlit("admin_import_awaiting_tg_id");
    reveal_strlit("admin_set_user_limit:");
    reveal_strlit("admin_token_create:auto");
    reveal_strlit("admin_token_create:manual");
    reveal_strlit("admin_token_exp:");
    reveal_strlit("admin_token_ips:");
    reveal_strlit("admin_token_quota:");
    reveal_strlit("awaiting_invite_token");
    match w {
        WizardState::AdminFindTokenAwaitingCode { page } => {
            let rest = enc.skip("admin_find_token:"@.len() as int);
            assert(enc.take("admin_find_token:"@.len() as int) =~= "admin_find_token:"@);
            assert(rest =~= enc.subrange("admin_find_token:"@.len() as int, enc.len() as int));
            assert(enc[1] == "admin_find_token:"@[1] && "admin_find_token:"@[1] != "awaiting_invite_token"@[1]);
            assert(enc[6] == "admin_find_token:"@[6] && "admin_find_token:"@[6] != "admin_delete_awaiting_target"@[6]);
            assert(enc[6] == "admin_find_token:"@[6] && "admin_find_token:"@[6] != "admin_token_create:auto"@[6]);
            assert(enc[6] == "admin_find_token:"@[6] && "admin_find_token:"@[6] != "admin_token_create:manual"@[6]);
            assert(enc[6] == "admin_find_token:"@[6] && "admin_find_token:"@[6] != "admin_broadcast_awaiting"@[6]);
            assert(enc[6] == "admin_find_token:"@[6] && "admin_find_token:"@[6] != "admin_group_awaiting_name"@[6]);
            assert(enc[6] == "admin_find_token:"@[6] && "admin_find_token:"@[6] != "admin_import_awaiting_tg_id"@[6]);
            assert(enc[6] == "admin_find_token:"@[6] && "admin_find_token:"@[6] != "admin_token_exp:"@[6]);
            lemma_not_prefix_at(enc, "admin_token_exp:"@, 6);
            assert(enc[6] == "admin_find_token:"@[6] && "admin_find_token:"@[6] != "admin_token_ips:"@[6]);
            lemma_not_prefix_at(enc, "admin_token_ips:"@, 6);
            assert(enc[6] == "admin_find_token:"@[6] && "admin_find_token:"@[6] != "admin_token_quota:"@[6]);
            lemma_not_prefix_at(enc, "admin_token_quota:"@, 6);
            assert(enc[6] == "admin_find_token:"@[6] && "admin_find_token:"@[6] != "admin_group_expiry:"@[6]);
            lemma_not_prefix_at(enc, "admin_group_expiry:"@, 6);
            assert(enc[11] == "admin_find_token:"@[11] && "admin_find_token:"@[11] != "admin_find_user:"@[11]);
            lemma_not_prefix_at(enc, "admin_find_user:"@, 11);
            assert(enc[6] == "admin_find_token:"@[6] && "admin_find_token:"@[6] != "admin_set_user_limit:"@[6]);
            lemma_not_prefix_at(enc, "admin_set_user_limit:"@, 6);
            lemma_parse_int_str(clamp_page_spec(page) as int, i64::MIN as int, i64::MAX as int);
            assert(rest =~= int_str(clamp_page_spec(page) as int));
        },
        _ => {},
    }
}

/// Decoding the stored key of a state gives the state back, with pages raised
/// to at least one and zero counts read as unset.
pub proof fn lemma_wizard_decode_encode(w: WizardState)
    ensures
        decode_spec(w.encode_spec()) == Some(w.normalized()),
{
    match w {
        WizardState::AwaitingInviteToken => lemma_wizard_roundtrip_0(w),
        WizardState::AdminDeleteAwaitingTarget => lemma_wizard_roundtrip_1(w),
        WizardState::AdminTokenCreateAwaitingParams { .. } => lemma_wizard_roundtrip_2(w),
        WizardState::AdminBroadcastAwaitingMessage => lemma_wizard_roundtrip_3(w),
        WizardState::AdminGroupAwaitingName => lemma_wizard_roundtrip_4(w),
        WizardState::AdminImportAwaitingTgId => lemma_wizard_roundtrip_5(w),
        WizardState::AdminTokenAwaitingExpiration { .. } => lemma_wizard_roundtrip_6(w),
        WizardState::AdminTokenAwaitingMaxIps { .. } => lemma_wizard_roundtrip_7(w),
        WizardState::AdminTokenAwaitingDataQuota { .. } => lemma_wizard_roundtrip_8(w),
        WizardState::AdminGroupExpiryAwaitingValue { .. } => lemma_wizard_roundtrip_9(w),
        WizardState::AdminFindUserAwaitingTarget { .. } => lemma_wizard_roundtrip_10(w),
        WizardState::AdminSetUserLimitAwaitingValue { .. } => lemma_wizard_roundtrip_11(w),
        WizardState::AdminFindTokenAwaitingCode { .. } => lemma_wizard_roundtrip_12(w),
    }
}

} // verus!
