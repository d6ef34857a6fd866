//! Plain text messages answered according to the sender's wizard step:
//! what each step does with the text, and the texts it answers with.

use vstd::prelude::*;

use crate::callback_data::UserLimitField;
use crate::commands::{eq_ignore_ascii_case, str_opt_view};
use crate::db::InviteToken;
use crate::format::{limits_text, opt_view};
use crate::shared::{bot_start_link, run_start_back};
use crate::text::{
    int_str, lit, parse_i32, parse_i32_spec, parse_i64, parse_i64_spec, push_i64, push_str,
    str_chars, string_from_chars, trim, trim_chars,
};
use crate::wizard::WizardState;

verus! {

// ---------------------------------------------------------------------
// The shared expiry of a user group
// ---------------------------------------------------------------------

/// What `chrono::DateTime::parse_from_rfc3339` gives for a text, as a Unix time.
pub uninterp spec fn rfc3339_timestamp(s: Seq<char>) -> Option<i64>;

/// What `chrono::NaiveDate::parse_from_str(s, "%Y-%m-%d")` gives for a text:
/// `None` when it is not such a date, else the Unix time of 23:59:59 UTC
/// that day (`None` inside where `and_hms_opt` refuses).
pub uninterp spec fn ymd_end_of_day(s: Seq<char>) -> Option<Option<i64>>;

/// `chrono::DateTime::parse_from_rfc3339(s)` and its `timestamp()`.
#[verifier::external_body]
fn parse_rfc3339_timestamp(s: &str) -> (r: Option<i64>)
    ensures
        r == rfc3339_timestamp(s@),
{
    match chrono::DateTime::parse_from_rfc3339(s) {
        Ok(dt) => Some(dt.timestamp()),
        Err(_) => None,
    }
}

/// `chrono::NaiveDate::parse_from_str(s, "%Y-%m-%d")`, then `and_hms_opt(23, 59, 59)`
/// and the Unix time of that moment taken as UTC.
#[verifier::external_body]
fn parse_ymd_end_of_day(s: &str) -> (r: Option<Option<i64>>)
    ensures
        r == ymd_end_of_day(s@),
{
    match chrono::NaiveDate::parse_from_str(s, "%Y-%m-%d") {
        Ok(date) => match date.and_hms_opt(23, 59, 59) {
            Some(dt) => Some(Some(chrono::DateTime::<chrono::Utc>::from_naive_utc_and_offset(dt, chrono::Utc).timestamp())),
            None => Some(None),
        },
        Err(_) => None,
    }
}

/// The last Unix time chrono can represent (262142-12-31 23:59:59 UTC).
pub open spec fn max_chrono_timestamp() -> int {
    8210266876799
}

/// "+30d", "+ 30", "+30dd": the text after '+' without trailing 'd's, trimmed.
pub open spec fn plus_days_text(t: Seq<char>) -> Seq<char> {
    let rest = t.drop_first();
    trim(rest.take(run_start_back(rest, 'd', rest.len() as int)))
}

pub open spec fn is_no_expiry_word(t: Seq<char>) -> bool {
    t.len() == 0 || eq_ignore_ascii_case(t, "none"@) || eq_ignore_ascii_case(t, "no"@)
        || eq_ignore_ascii_case(t, "off"@) || eq_ignore_ascii_case(t, "clear"@)
        || eq_ignore_ascii_case(t, "без даты"@)
}

/// The expiry typed for a group: nothing ("none", "off", ...), an RFC 3339
/// time, "+N" days from `now`, or a day "YYYY-MM-DD" (until its end, UTC);
/// otherwise the reason it cannot be read.
pub open spec fn group_expiration(value: Seq<char>, now: i64) -> Result<Option<i64>, Seq<char>> {
    let t = trim(value);
    if is_no_expiry_word(t) {
        Ok(None)
    } else if rfc3339_timestamp(t) is Some {
        Ok(Some(rfc3339_timestamp(t)->0))
    } else if t[0] == '+' {
        match parse_i64_spec(plus_days_text(t)) {
            None => Err("Количество дней должно быть положительным целым числом"@),
            Some(days) => if days <= 0 {
                Err("Количество дней должно быть больше нуля"@)
            } else {
                Ok(Some((now + days * 86400) as i64))
            },
        }
    } else {
        match ymd_end_of_day(t) {
            None => Err("Используйте RFC3339, YYYY-MM-DD, +30d или `none`"@),
            Some(None) => Err("Не удалось собрать дату истечения"@),
            Some(Some(ts)) => Ok(Some(ts)),
        }
    }
}

/// Adding the days typed after '+' to `now` stays inside chrono's range
/// (beyond it chrono stops the program).
pub open spec fn group_expiration_in_range(value: Seq<char>, now: i64) -> bool {
    let t = trim(value);
    (!is_no_expiry_word(t) && t[0] == '+' && parse_i64_spec(plus_days_text(t)) is Some
        && parse_i64_spec(plus_days_text(t))->0 > 0) ==> ({
        let days = parse_i64_spec(plus_days_text(t))->0;
        days * 86400 <= i64::MAX / 1000 && now + days * 86400 <= max_chrono_timestamp()
    })
}

fn eq_ignore_ascii_case_str(v: &[char], word: &str) -> (r: bool)
    ensures
        r == eq_ignore_ascii_case(v@, word@),
{
    let w = str_chars(word);
    if v.len() != w.len() {
        return false;
    }
    for i in 0..v.len()
        invariant
            v@.len() == w@.len(),
            w@ == word@,
            forall|j: int| 0 <= j < i ==> crate::commands::ascii_fold(v@[j])
                == crate::commands::ascii_fold(w@[j]),
    {
        let a = v[i];
        let b = w[i];
        let fa: u32 = if 'A' <= a && a <= 'Z' {
            (a as u32) + 32
        } else {
            a as u32
        };
        let fb: u32 = if 'A' <= b && b <= 'Z' {
            (b as u32) + 32
        } else {
            b as u32
        };
        if fa != fb {
            return false;
        }
    }
    true
}

/// Whether the text asks for no expiry.
fn is_no_expiry_word_exec(t: &[char]) -> (r: bool)
    ensures
        r == is_no_expiry_word(t@),
{
    t.len() == 0 || eq_ignore_ascii_case_str(t, "none") || eq_ignore_ascii_case_str(t, "no")
        || eq_ignore_ascii_case_str(t, "off") || eq_ignore_ascii_case_str(t, "clear")
        || eq_ignore_ascii_case_str(t, "без даты")
}

/// Whether `parse_group_expiration_input` may be called for this text at `now`.
pub fn group_expiration_input_in_range(value: &str, now: i64) -> (r: bool)
    ensures
        r == group_expiration_in_range(value@, now),
{
    let v = str_chars(value);
    let t = trim_chars(v.as_slice());
    if is_no_expiry_word_exec(t.as_slice()) || t[0] != '+' {
        return true;
    }
    let days_text = plus_days_chars(t.as_slice());
    match parse_i64(days_text.as_slice()) {
        Some(days) => {
            if days <= 0 {
                true
            } else {
                days <= 106_751_991_167 && (now as i128) + (days as i128) * 86400
                    <= 8210266876799
            }
        },
        None => true,
    }
}

fn plus_days_chars(t: &[char]) -> (r: Vec<char>)
    requires
        t@.len() > 0,
    ensures
        r@ == plus_days_text(t@),
{
    let mut rest: Vec<char> = Vec::new();
    for k in 1..t.len()
        invariant
            1 <= k <= t@.len(),
            rest@ == t@.subrange(1, k as int),
    {
        rest.push(t[k]);
        assert(t@.subrange(1, k + 1) =~= t@.subrange(1, k as int).push(t@[k as int]));
    }
    assert(rest@ =~= t@.drop_first());
    let mut b: usize = rest.len();
    while b > 0 && rest[b - 1] == 'd'
        invariant
            b <= rest@.len(),
            run_start_back(rest@, 'd', rest@.len() as int) == run_start_back(rest@, 'd', b as int),
        decreases b,
    {
        b = b - 1;
    }
    let mut head: Vec<char> = Vec::new();
    for k in 0..b
        invariant
            k <= b,
            b <= rest@.len(),
            head@ == rest@.take(k as int),
    {
        head.push(rest[k]);
        assert(rest@.take(k + 1) =~= rest@.take(k as int).push(rest@[k as int]));
    }
    trim_chars(head.as_slice())
}

pub open spec fn expiration_view(r: Result<Option<i64>, String>) -> Result<Option<i64>, Seq<char>> {
    match r {
        Ok(v) => Ok(v),
        Err(m) => Err(m@),
    }
}

/// Reads the shared expiry typed for a group; `now` is the current Unix time.
pub fn parse_group_expiration_input(value: &str, now: i64) -> (r: Result<Option<i64>, String>)
    requires
        group_expiration_in_range(value@, now),
    ensures
        expiration_view(r) == group_expiration(value@, now),
{
    let v = str_chars(value);
    let t = trim_chars(v.as_slice());
    if is_no_expiry_word_exec(t.as_slice()) {
        return Ok(None);
    }
    let ts = string_from_chars(t.as_slice());
    if let Some(stamp) = parse_rfc3339_timestamp(ts.as_str()) {
        return Ok(Some(stamp));
    }
    if t[0] == '+' {
        let days_text = plus_days_chars(t.as_slice());
        match parse_i64(days_text.as_slice()) {
            None => Err(lit("Количество дней должно быть положительным целым числом")),
            Some(days) => {
                if days <= 0 {
                    Err(lit("Количество дней должно быть больше нуля"))
                } else {
                    Ok(Some(now + days * 86400))
                }
            },
        }
    } else {
        match parse_ymd_end_of_day(ts.as_str()) {
            None => Err(lit("Используйте RFC3339, YYYY-MM-DD, +30d или `none`")),
            Some(None) => Err(lit("Не удалось собрать дату истечения")),
            Some(Some(stamp)) => Ok(Some(stamp)),
        }
    }
}

// ---------------------------------------------------------------------
// The steps of the token wizard
// ---------------------------------------------------------------------

/// The access period typed into the token wizard: 1 to 365 days.
pub open spec fn expiration_days_input(t: Seq<char>) -> Option<i32> {
    match parse_i32_spec(t) {
        Some(d) => if 0 < d && d <= 365 {
            Some(d)
        } else {
            None
        },
        None => None,
    }
}

/// The IP limit typed into the token wizard: 1 to 10, or none ("/skip" or anything else).
pub open spec fn max_ips_input(t: Seq<char>) -> Option<i32> {
    if t == "/skip"@ {
        None
    } else {
        match parse_i32_spec(t) {
            Some(v) => if 0 < v && v <= 10 {
                Some(v)
            } else {
                None
            },
            None => None,
        }
    }
}

/// The traffic quota typed into the token wizard, in GB, as bytes; none for
/// "/skip", "0" or anything that is not a positive number.
pub open spec fn quota_input(t: Seq<char>) -> Option<i64> {
    if t == "/skip"@ || t == "0"@ {
        None
    } else {
        match parse_i64_spec(t) {
            Some(v) => if v > 0 {
                Some((v * 1073741824) as i64)
            } else {
                None
            },
            None => None,
        }
    }
}

/// The quota typed in gigabytes fits in bytes (beyond it the product overflows).
pub open spec fn quota_input_in_range(t: Seq<char>) -> bool {
    (t != "/skip"@ && t != "0"@ && parse_i64_spec(t) is Some && parse_i64_spec(t)->0 > 0) ==> parse_i64_spec(t)->0 * 1073741824 <= i64::MAX
}

fn expiration_days_from(t: &[char]) -> (r: Option<i32>)
    ensures
        r == expiration_days_input(t@),
{
    match parse_i32(t) {
        Some(d) => if 0 < d && d <= 365 {
            Some(d)
        } else {
            None
        },
        None => None,
    }
}

fn max_ips_from(t: &[char]) -> (r: Option<i32>)
    ensures
        r == max_ips_input(t@),
{
    if crate::text::chars_eq_str(t, "/skip") {
        None
    } else {
        match parse_i32(t) {
            Some(v) => if 0 < v && v <= 10 {
                Some(v)
            } else {
                None
            },
            None => None,
        }
    }
}

fn quota_from(t: &[char]) -> (r: Option<i64>)
    requires
        quota_input_in_range(t@),
    ensures
        r == quota_input(t@),
{
    if crate::text::chars_eq_str(t, "/skip") || crate::text::chars_eq_str(t, "0") {
        None
    } else {
        match parse_i64(t) {
            Some(v) => if v > 0 {
                Some(v * 1073741824)
            } else {
                None
            },
            None => None,
        }
    }
}

/// Whether the quota typed into the token wizard fits in bytes.
pub fn quota_input_fits(text: &str) -> (r: bool)
    ensures
        r == quota_input_in_range(trim(text@)),
{
    let v = str_chars(text);
    let t = trim_chars(v.as_slice());
    if crate::text::chars_eq_str(t.as_slice(), "/skip") || crate::text::chars_eq_str(t.as_slice(), "0") {
        return true;
    }
    match parse_i64(t.as_slice()) {
        Some(v) => v <= 0 || v <= 8589934591,
        None => true,
    }
}

pub open spec fn after_expiration_text(days: i32) -> Seq<char> {
    "Срок доступа: "@ + int_str(days as int) + " дн.\n\nТеперь введите лимит IP (Max Unique IPs) — количество устройств, с которых можно подключаться. Например: 3 или пропустите это поле отправив /skip"@
}

pub open spec fn after_max_ips_text(ips: Option<i32>) -> Seq<char> {
    "Лимит IP: "@ + match ips {
        Some(v) => int_str(v as int),
        None => "не ограничен"@,
    } + ".\n\nТеперь введите квоту трафика в GB (например: 10) или пропустите отправив /skip (0 = безлимит)"@
}

pub open spec fn not_understood_text() -> Seq<char> {
    "Не понял запрос. Используйте /help или начните нужный сценарий через slash-команду либо кнопку."@
}

/// What a plain message does at the sender's wizard step.
#[derive(Debug, Clone, PartialEq, Eq)]
pub enum MenuAction {
    /// Forget the step (a step only administrators may take).
    ClearState,
    /// Send this text to every approved user.
    Broadcast(String),
    /// Forget the step and say that creating the group was cancelled.
    CancelGroupCreation,
    /// Create a group with this name.
    CreateGroup(String),
    /// Store this shared expiry for the group.
    SetGroupExpiry { group_id: i64, expires_at: Option<i64> },
    /// Import this Telegram user from telemt.
    ImportUser(i64),
    /// Use this invite code.
    ProcessInviteToken(String),
    /// Ask to confirm deleting the user named by this text.
    PromptDelete(String),
    /// Look up a user by this text and open their card.
    FindUser { query: String, page: i64 },
    /// Set a limit of a user to the value in this text.
    ApplyUserLimit { tg_user_id: i64, field: UserLimitField, value: String },
    /// Look up a token by this code and open its card.
    FindToken { code: String, page: i64 },
    /// Create a token from these typed options.
    CreateTokenFromText { auto_approve: bool, params: String },
    /// Move to the next step and answer with this text.
    Advance { next: WizardState, reply: String },
    /// Create a token valid for `link_days` days (always the wizard's 30) that
    /// gives these limits.
    CreateWizardToken {
        link_days: i64,
        auto_approve: bool,
        expiration_days: Option<i32>,
        max_unique_ips: Option<i32>,
        data_quota_bytes: Option<i64>,
    },
    /// Answer with this text and stay at the step.
    Reply(String),
}

/// The inputs on which a step reads a number that chrono or the quota could not hold.
pub open spec fn menu_input_in_range(state: Option<WizardState>, is_admin: bool, text: Seq<char>, now: i64) -> bool {
    match state {
        Some(WizardState::AdminGroupExpiryAwaitingValue { .. }) => is_admin ==> group_expiration_in_range(text, now),
        Some(WizardState::AdminTokenAwaitingDataQuota { .. }) => quota_input_in_range(trim(text)),
        _ => true,
    }
}

/// Decides what a plain message does at the sender's wizard step; `now` is
/// the current Unix time.
pub fn menu_step(state: Option<WizardState>, is_admin: bool, text: &str, now: i64) -> (r: MenuAction)
    requires
        menu_input_in_range(state, is_admin, text@, now),
    ensures
        match state {
            None => r matches MenuAction::Reply(m) && m@ == not_understood_text(),
            Some(WizardState::AdminBroadcastAwaitingMessage) => if !is_admin {
                r is ClearState
            } else {
                r matches MenuAction::Broadcast(t) && t@ == text@
            },
            Some(WizardState::AdminGroupAwaitingName) => if !is_admin {
                r is ClearState
            } else if trim(text@).len() == 0 {
                r is CancelGroupCreation
            } else {
                r matches MenuAction::CreateGroup(n) && n@ == trim(text@)
            },
            Some(WizardState::AdminGroupExpiryAwaitingValue { group_id }) => if !is_admin {
                r is ClearState
            } else {
                match group_expiration(text@, now) {
                    Ok(e) => r == MenuAction::SetGroupExpiry { group_id, expires_at: e },
                    Err(m) => r matches MenuAction::Reply(x) && x@ == "Не удалось разобрать срок группы: "@ + m,
                }
            },
            Some(WizardState::AdminImportAwaitingTgId) => if !is_admin {
                r is ClearState
            } else {
                match parse_i64_spec(trim(text@)) {
                    Some(id) => r == MenuAction::ImportUser(id),
                    None => r matches MenuAction::Reply(x) && x@ == "Нужен числовой Telegram user id (например 123456789)."@,
                }
            },
            Some(WizardState::AwaitingInviteToken) => r matches MenuAction::ProcessInviteToken(t) && t@ == trim(text@),
            Some(WizardState::AdminDeleteAwaitingTarget) => r matches MenuAction::PromptDelete(t) && t@ == trim(text@),
            Some(WizardState::AdminFindUserAwaitingTarget { page }) => r matches MenuAction::FindUser { query, page: p } && query@ == trim(text@) && p == page,
            Some(WizardState::AdminSetUserLimitAwaitingValue { tg_user_id, page: _, field }) => r matches MenuAction::ApplyUserLimit { tg_user_id: u, field: f, value } && u == tg_user_id && f == field && value@ == trim(text@),
            Some(WizardState::AdminFindTokenAwaitingCode { page }) => r matches MenuAction::FindToken { code, page: p } && code@ == trim(text@) && p == page,
            Some(WizardState::AdminTokenCreateAwaitingParams { auto_approve }) => r matches MenuAction::CreateTokenFromText { auto_approve: a, params } && a == auto_approve && params@ == trim(text@),
            Some(WizardState::AdminTokenAwaitingExpiration { auto_approve }) => match expiration_days_input(trim(text@)) {
                Some(d) => r matches MenuAction::Advance { next, reply } && next == (WizardState::AdminTokenAwaitingMaxIps { auto_approve, expiration_days: Some(d) }) && reply@ == after_expiration_text(d),
                None => r matches MenuAction::Reply(x) && x@ == "Укажите срок в днях: 30, 60, 180 или другое число (1-365)."@,
            },
            Some(WizardState::AdminTokenAwaitingMaxIps { auto_approve, expiration_days }) => r matches MenuAction::Advance { next, reply } && next == (WizardState::AdminTokenAwaitingDataQuota { auto_approve, expiration_days, max_unique_ips: max_ips_input(trim(text@)) }) && reply@ == after_max_ips_text(max_ips_input(trim(text@))),
            Some(WizardState::AdminTokenAwaitingDataQuota { auto_approve, expiration_days, max_unique_ips }) => r == (MenuAction::CreateWizardToken { link_days: 30, auto_approve, expiration_days, max_unique_ips, data_quota_bytes: quota_input(trim(text@)) }),
        },
{
    let v = str_chars(text);
    let t = trim_chars(v.as_slice());
    let trimmed = string_from_chars(t.as_slice());
    match state {
        None => MenuAction::Reply(lit(
            "Не понял запрос. Используйте /help или начните нужный сценарий через slash-команду либо кнопку.",
        )),
        Some(WizardState::AdminBroadcastAwaitingMessage) => if !is_admin {
            MenuAction::ClearState
        } else {
            MenuAction::Broadcast(lit(text))
        },
        Some(WizardState::AdminGroupAwaitingName) => if !is_admin {
            MenuAction::ClearState
        } else if t.len() == 0 {
            MenuAction::CancelGroupCreation
        } else {
            MenuAction::CreateGroup(trimmed)
        },
        Some(WizardState::AdminGroupExpiryAwaitingValue { group_id }) => if !is_admin {
            MenuAction::ClearState
        } else {
            match parse_group_expiration_input(text, now) {
                Ok(e) => MenuAction::SetGroupExpiry { group_id, expires_at: e },
                Err(m) => {
                    let mut x = lit("Не удалось разобрать срок группы: ");
                    push_str(&mut x, m.as_str());
                    MenuAction::Reply(x)
                },
            }
        },
        Some(WizardState::AdminImportAwaitingTgId) => if !is_admin {
            MenuAction::ClearState
        } else {
            match parse_i64(t.as_slice()) {
                Some(id) => MenuAction::ImportUser(id),
                None => MenuAction::Reply(lit("Нужен числовой Telegram user id (например 123456789).")),
            }
        },
        Some(WizardState::AwaitingInviteToken) => MenuAction::ProcessInviteToken(trimmed),
        Some(WizardState::AdminDeleteAwaitingTarget) => MenuAction::PromptDelete(trimmed),
        Some(WizardState::AdminFindUserAwaitingTarget { page }) => MenuAction::FindUser { query: trimmed, page },
        Some(WizardState::AdminSetUserLimitAwaitingValue { tg_user_id, page: _, field }) => MenuAction::ApplyUserLimit { tg_user_id, field, value: trimmed },
        Some(WizardState::AdminFindTokenAwaitingCode { page }) => MenuAction::FindToken { code: trimmed, page },
        Some(WizardState::AdminTokenCreateAwaitingParams { auto_approve }) => MenuAction::CreateTokenFromText { auto_approve, params: trimmed },
        Some(WizardState::AdminTokenAwaitingExpiration { auto_approve }) => match expiration_days_from(t.as_slice()) {
            Some(d) => {
                let mut reply = lit("Срок доступа: ");
                push_i64(&mut reply, d as i64);
                push_str(&mut reply, " дн.\n\nТеперь введите лимит IP (Max Unique IPs) — количество устройств, с которых можно подключаться. Например: 3 или пропустите это поле отправив /skip");
                MenuAction::Advance {
                    next: WizardState::AdminTokenAwaitingMaxIps { auto_approve, expiration_days: Some(d) },
                    reply,
                }
            },
            None => MenuAction::Reply(lit("Укажите срок в днях: 30, 60, 180 или другое число (1-365).")),
        },
        Some(WizardState::AdminTokenAwaitingMaxIps { auto_approve, expiration_days }) => {
            let ips = max_ips_from(t.as_slice());
            let mut reply = lit("Лимит IP: ");
            match ips {
                Some(v) => push_i64(&mut reply, v as i64),
                None => push_str(&mut reply, "не ограничен"),
            }
            push_str(&mut reply, ".\n\nТеперь введите квоту трафика в GB (например: 10) или пропустите отправив /skip (0 = безлимит)");
            MenuAction::Advance {
                next: WizardState::AdminTokenAwaitingDataQuota { auto_approve, expiration_days, max_unique_ips: ips },
                reply,
            }
        },
        Some(WizardState::AdminTokenAwaitingDataQuota { auto_approve, expiration_days, max_unique_ips }) => {
            MenuAction::CreateWizardToken {
                link_days: 30,
                auto_approve,
                expiration_days,
                max_unique_ips,
                data_quota_bytes: quota_from(t.as_slice()),
            }
        },
    }
}

// ---------------------------------------------------------------------
// Answers after the work is done
// ---------------------------------------------------------------------

/// The answer after the token wizard created a token.
pub open spec fn wizard_token_created_text(t: InviteToken, auto_approve: bool, bot_username: Option<Seq<char>>) -> Seq<char> {
    "✅ Invite-токен создан:\nКод: <code>"@ + t.token@ + "</code>\n"@ + match bot_username {
        Some(b) => "Ссылка: "@ + bot_start_link(b, t.token@) + "\n"@,
        None => "Ссылка: недоступна (username бота неизвестен).\n"@,
    } + "Режим: "@ + (if auto_approve {
        "AUTO"@
    } else {
        "MANUAL"@
    }) + "\nЛимиты пользователя: "@ + limits_text(t, "доступ "@) + "\n"@
}

pub fn wizard_token_created_message(token: &InviteToken, auto_approve: bool, bot_username: Option<&str>) -> (r: String)
    ensures
        r@ == wizard_token_created_text(*token, auto_approve, str_opt_view(bot_username)),
{
    let mut s = lit("✅ Invite-токен создан:\nКод: <code>");
    push_str(&mut s, token.token.as_str());
    push_str(&mut s, "</code>\n");
    match bot_username {
        Some(b) => {
            push_str(&mut s, "Ссылка: ");
            let link = crate::shared::build_bot_start_link(b, token.token.as_str());
            push_str(&mut s, link.as_str());
            push_str(&mut s, "\n");
        },
        None => push_str(&mut s, "Ссылка: недоступна (username бота неизвестен).\n"),
    }
    push_str(&mut s, "Режим: ");
    push_str(&mut s, if auto_approve {
        "AUTO"
    } else {
        "MANUAL"
    });
    push_str(&mut s, "\nЛимиты пользователя: ");
    let limits = crate::format::invite_token_limits_text(token);
    push_str(&mut s, limits.as_str());
    push_str(&mut s, "\n");
    assert(s@ =~= wizard_token_created_text(*token, auto_approve, str_opt_view(bot_username)));
    s
}

/// The answer after a group was created.
pub fn group_created_text(name: &str, id: i64) -> (r: String)
    ensures
        r@ == "Группа «"@ + name@ + "» создана (id="@ + int_str(id as int) + ")."@,
{
    let mut s = lit("Группа «");
    push_str(&mut s, name);
    push_str(&mut s, "» создана (id=");
    push_i64(&mut s, id);
    push_str(&mut s, ").");
    s
}

/// The answer after a group's shared expiry was stored or removed.
pub fn group_expiry_saved_text(expires_at: Option<i64>) -> (r: String)
    ensures
        r@ == match expires_at {
            Some(ts) => "Общий срок группы обновлён.\nUnix timestamp: "@ + int_str(ts as int)
                + "\nОткройте карточку группы и примените срок к участникам."@,
            None => "Общий срок группы снят."@,
        },
{
    match expires_at {
        Some(ts) => {
            let mut s = lit("Общий срок группы обновлён.\nUnix timestamp: ");
            push_i64(&mut s, ts);
            push_str(&mut s, "\nОткройте карточку группы и примените срок к участникам.");
            s
        },
        None => lit("Общий срок группы снят."),
    }
}

/// What the token wizard accepts stays in its ranges: a period of 1 to 365
/// days, an IP limit of 1 to 10, and a quota of a positive whole number of
/// gigabytes.
pub proof fn lemma_wizard_inputs_in_range(t: Seq<char>)
    requires
        quota_input_in_range(t),
    ensures
        expiration_days_input(t) matches Some(d) ==> 1 <= d <= 365,
        max_ips_input(t) matches Some(v) ==> 1 <= v <= 10,
        quota_input(t) matches Some(b) ==> b > 0 && b % 1073741824 == 0,
{
    if let Some(b) = quota_input(t) {
        let v = parse_i64_spec(t)->0;
        assert(b == v * 1073741824);
        assert((v * 1073741824) % 1073741824 == 0) by (nonlinear_arith);
    }
}

/// "+N" days always lies in the future: N is at least one day.
pub proof fn lemma_plus_days_in_future(value: Seq<char>, now: i64)
    requires
        group_expiration_in_range(value, now),
        !is_no_expiry_word(trim(value)),
        rfc3339_timestamp(trim(value)) is None,
        trim(value)[0] == '+',
    ensures
        group_expiration(value, now) matches Ok(Some(ts)) ==> ts >= now + 86400,
{
}

} // verus!
