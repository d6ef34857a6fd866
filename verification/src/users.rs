//! Finding users from what an administrator typed, user groups and
//! broadcasts.

use vstd::prelude::*;

use crate::db::UserGroup;
use crate::format::{chrono_timestamp_in_range, display_name, opt_view, rfc3339_utc_text, user_display_name};
use crate::db::RegistrationRequest;
use crate::telemt::TelemtUserPatch;
use crate::text::{
    int_str, lit, parse_i64, parse_i64_spec, push_i64, push_str, str_chars, string_from_chars,
    strip_prefix_chars, trim, trim_chars,
};

verus! {

// ---------------------------------------------------------------------
// Looking up users
// ---------------------------------------------------------------------

/// What an administrator typed to find a user.
#[derive(Debug, Clone, PartialEq, Eq)]
pub enum LookupInputKind {
    /// A Telegram id.
    UserId(i64),
    /// A user name typed after '@'.
    Username(String),
    /// Any other text, searched within names.
    PartialQuery(String),
}

pub open spec fn lookup_view(k: LookupInputKind) -> (int, i64, Seq<char>) {
    match k {
        LookupInputKind::UserId(id) => (0, id, Seq::<char>::empty()),
        LookupInputKind::Username(u) => (1, 0, u@),
        LookupInputKind::PartialQuery(q) => (2, 0, q@),
    }
}

/// The text trimmed: nothing when empty; a number is an id; "@name" a user
/// name (nothing when the name is blank); anything else a search text.
pub open spec fn lookup_kind(arg: Seq<char>) -> Option<(int, i64, Seq<char>)> {
    let t = trim(arg);
    if t.len() == 0 {
        None
    } else if parse_i64_spec(t) is Some {
        Some((0, parse_i64_spec(t)->0, Seq::<char>::empty()))
    } else if t[0] == '@' {
        if trim(t.drop_first()).len() == 0 {
            None
        } else {
            Some((1, 0, trim(t.drop_first())))
        }
    } else {
        Some((2, 0, t))
    }
}

pub fn classify_lookup_input(arg: &str) -> (r: Option<LookupInputKind>)
    ensures
        match r {
            Some(k) => lookup_kind(arg@) == Some(lookup_view(k)),
            None => lookup_kind(arg@) is None,
        },
{
    let v = str_chars(arg);
    let t = trim_chars(v.as_slice());
    if t.len() == 0 {
        return None;
    }
    if let Some(id) = parse_i64(t.as_slice()) {
        return Some(LookupInputKind::UserId(id));
    }
    match strip_prefix_chars(t.as_slice(), "@") {
        Some(rest) => {
            proof {
                reveal_strlit("@");
                assert("@"@.len() == 1 && "@"@[0] == '@');
                assert(t@.take(1)[0] == t@[0]);
                assert(rest@ =~= t@.drop_first());
            }
            let name = trim_chars(rest.as_slice());
            if name.len() == 0 {
                None
            } else {
                Some(LookupInputKind::Username(string_from_chars(name.as_slice())))
            }
        },
        None => {
            proof {
                reveal_strlit("@");
                if t@[0] == '@' {
                    assert(t@.take(1) =~= "@"@);
                }
            }
            Some(LookupInputKind::PartialQuery(string_from_chars(t.as_slice())))
        },
    }
}

/// The answer when a lookup found nobody.
pub fn lookup_not_found_text(kind: &LookupInputKind) -> (r: String)
    ensures
        r@ == match *kind {
            LookupInputKind::Username(u) => "Пользователь @"@ + u@ + " не найден среди активных."@,
            _ => "Активный пользователь не найден."@,
        },
{
    match kind {
        LookupInputKind::Username(u) => {
            let mut s = lit("Пользователь @");
            push_str(&mut s, u.as_str());
            push_str(&mut s, " не найден среди активных.");
            s
        },
        _ => lit("Активный пользователь не найден."),
    }
}

/// The first `max` characters of a name, cut to `max - 3` and "..." when longer.
pub open spec fn shortened(name: Seq<char>, max: nat) -> Seq<char> {
    if name.len() > max {
        name.take(max - 3) + "..."@
    } else {
        name
    }
}

fn shorten(name: String, max: usize) -> (r: String)
    requires
        max >= 3,
    ensures
        r@ == shortened(name@, max as nat),
{
    let v = str_chars(name.as_str());
    if v.len() > max {
        let keep: usize = max - 3;
        let mut head: Vec<char> = Vec::new();
        for k in 0..keep
            invariant
                keep <= v@.len(),
                keep == max - 3,
                head@ == v@.take(k as int),
        {
            head.push(v[k]);
            assert(v@.take(k + 1) =~= v@.take(k as int).push(v@[k as int]));
        }
        let mut s = string_from_chars(head.as_slice());
        push_str(&mut s, "...");
        s
    } else {
        name
    }
}

/// A user among several found: "name · id N", the name cut at 48 characters.
pub fn lookup_candidate_label(user: &RegistrationRequest) -> (r: String)
    ensures
        r@ == shortened(display_name(*user), 48) + " · id "@ + int_str(user.tg_user_id as int),
{
    let mut s = shorten(user_display_name(user), 48);
    push_str(&mut s, " · id ");
    push_i64(&mut s, user.tg_user_id);
    s
}

/// A user in the paged list: "name (id N)", the name cut at 40 characters.
pub fn user_list_label(user: &RegistrationRequest) -> (r: String)
    ensures
        r@ == shortened(display_name(*user), 40) + " (id "@ + int_str(user.tg_user_id as int) + ")"@,
{
    let mut s = shorten(user_display_name(user), 40);
    push_str(&mut s, " (id ");
    push_i64(&mut s, user.tg_user_id);
    push_str(&mut s, ")");
    s
}

/// What a lookup does with the users it found.
#[derive(Debug, Clone, Copy, PartialEq, Eq, Structural)]
pub enum LookupOutcome {
    /// Nobody: say so.
    NotFound,
    /// Exactly one: open their card.
    Open,
    /// Several: let the administrator choose.
    Choose,
}

pub fn lookup_outcome(found: usize) -> (r: LookupOutcome)
    ensures
        found == 0 ==> r == LookupOutcome::NotFound,
        found == 1 ==> r == LookupOutcome::Open,
        found > 1 ==> r == LookupOutcome::Choose,
{
    if found == 0 {
        LookupOutcome::NotFound
    } else if found == 1 {
        LookupOutcome::Open
    } else {
        LookupOutcome::Choose
    }
}

/// The prompt above the found users to choose from.
pub fn lookup_choose_text(found: usize) -> (r: String)
    ensures
        r@ == "Найдено "@ + int_str(found as int) + " пользователей. Выберите:"@,
{
    let mut s = lit("Найдено ");
    crate::text::push_u64(&mut s, found as u64);
    push_str(&mut s, " пользователей. Выберите:");
    s
}

/// The answer when creating a user from a lookup that did not find exactly one.
pub fn create_lookup_refusal(found: usize) -> (r: Option<String>)
    ensures
        found == 1 ==> r is None,
        found == 0 ==> (r matches Some(t) && t@ == "Пользователь не найден в базе.\nОн должен хотя бы раз отправить боту /start.\nУкажите Telegram ID, @username или часть имени/ника."@),
        found > 1 ==> (r matches Some(t) && t@ == "Найдено несколько пользователей ("@ + int_str(found as int) + "). Уточните запрос: точный @username или Telegram ID."@),
{
    if found == 1 {
        None
    } else if found == 0 {
        Some(lit("Пользователь не найден в базе.\nОн должен хотя бы раз отправить боту /start.\nУкажите Telegram ID, @username или часть имени/ника."))
    } else {
        let mut s = lit("Найдено несколько пользователей (");
        crate::text::push_u64(&mut s, found as u64);
        push_str(&mut s, "). Уточните запрос: точный @username или Telegram ID.");
        Some(s)
    }
}

/// The answer after a user was created with their link.
pub fn user_created_text(telemt_user: &str, link: &str) -> (r: String)
    ensures
        r@ == "Пользователь "@ + telemt_user@ + " создан.\nСсылка:\n"@ + link@,
{
    let mut s = lit("Пользователь ");
    push_str(&mut s, telemt_user);
    push_str(&mut s, " создан.\nСсылка:\n");
    push_str(&mut s, link);
    s
}

// ---------------------------------------------------------------------
// Groups
// ---------------------------------------------------------------------

/// A new group's name: trimmed, and not empty.
pub fn group_name(name: &str) -> (r: Result<String, String>)
    ensures
        trim(name@).len() == 0 ==> (r matches Err(e) && e@ == "Имя группы не может быть пустым"@),
        trim(name@).len() > 0 ==> (r matches Ok(n) && n@ == trim(name@)),
{
    let v = str_chars(name);
    let t = trim_chars(v.as_slice());
    if t.len() == 0 {
        Err(lit("Имя группы не может быть пустым"))
    } else {
        Ok(string_from_chars(t.as_slice()))
    }
}

/// What `chrono::Utc.timestamp_opt(ts, 0).single()` and `to_rfc3339()` give
/// for a Unix time: its RFC 3339 text in UTC, or `None` where chrono cannot
/// represent the time.
pub open spec fn utc_rfc3339(ts: i64) -> Option<Seq<char>> {
    if chrono_timestamp_in_range(ts) {
        Some(rfc3339_utc_text(ts as int))
    } else {
        None
    }
}

/// `chrono::Utc.timestamp_opt(ts, 0).single()` and then `to_rfc3339()`: the
/// time is representable exactly in chrono's range (`timestamp_opt` is
/// `DateTime::from_timestamp`), and the text is its UTC date and time with the
/// offset "+00:00", as `utc_rfc3339` writes out.
#[verifier::external_body]
fn rfc3339_of(ts: i64) -> (r: Option<String>)
    ensures
        opt_view(r) == utc_rfc3339(ts),
{
    match chrono::TimeZone::timestamp_opt(&chrono::Utc, ts, 0).single() {
        Some(dt) => Some(dt.to_rfc3339()),
        None => None,
    }
}

/// The expiry to give every member of a group: the group's shared expiry as
/// RFC 3339; an error when the group has none or it is out of range.
pub fn group_member_expiration(group: &UserGroup) -> (r: Result<String, String>)
    ensures
        match group.expires_at {
            None => r matches Err(e) && e@ == "У группы не задан общий срок действия (expires_at). Задайте срок в карточке группы."@,
            Some(ts) => match utc_rfc3339(ts) {
                Some(t) => r matches Ok(x) && x@ == t,
                None => r matches Err(e) && e@ == "Некорректное время expires_at у группы"@,
            },
        },
{
    match group.expires_at {
        None => Err(lit("У группы не задан общий срок действия (expires_at). Задайте срок в карточке группы.")),
        Some(ts) => match rfc3339_of(ts) {
            Some(t) => Ok(t),
            None => Err(lit("Некорректное время expires_at у группы")),
        },
    }
}

pub open spec fn no_group_limits_text() -> Seq<char> {
    "У группы не заданы лимиты. Задайте лимиты в карточке группы."@
}

/// The expiry text a group's default period gives from `now`: the RFC 3339
/// text of `now + days` in UTC, or a fixed date where chrono cannot represent it.
pub open spec fn group_days_expiry(days: i32, now: i64) -> Seq<char> {
    match utc_rfc3339((now + days * 86400) as i64) {
        Some(t) => t,
        None => "2025-12-31T23:59:59Z"@,
    }
}

pub open spec fn no_group_limits(days: Option<i32>, ips: Option<i32>, quota: Option<i64>) -> bool {
    days is None && ips is None && quota is None
}

/// The patch holds the group's period as an expiry from `now`, its IP limit
/// and its quota, and leaves the connection limit unset.
pub open spec fn group_patch(p: TelemtUserPatch, days: Option<i32>, ips: Option<i32>, quota: Option<i64>, now: i64) -> bool {
    &&& p.max_tcp_conns is None
    &&& p.max_unique_ips == match ips {
        Some(v) => Some(v as usize),
        None => None::<usize>,
    }
    &&& p.data_quota_bytes == match quota {
        Some(v) => Some(v as u64),
        None => None::<u64>,
    }
    &&& opt_view(p.expiration_rfc3339) == match days {
        Some(d) => Some(group_days_expiry(d, now)),
        None => None::<Seq<char>>,
    }
}

/// The patch a group's default limits give each member at `now`: its period as
/// an expiry, its IP limit and its traffic quota; an error when the group sets
/// none of them.
pub fn group_limits_patch(
    default_expiration_days: Option<i32>,
    default_max_unique_ips: Option<i32>,
    default_data_quota_bytes: Option<i64>,
    now: i64,
) -> (r: Result<TelemtUserPatch, String>)
    requires
        default_expiration_days matches Some(d) ==> i64::MIN <= now + d * 86400 <= i64::MAX,
    ensures
        match r {
            Err(e) => no_group_limits(default_expiration_days, default_max_unique_ips, default_data_quota_bytes)
                && e@ == no_group_limits_text(),
            Ok(p) => !no_group_limits(default_expiration_days, default_max_unique_ips, default_data_quota_bytes)
                && group_patch(p, default_expiration_days, default_max_unique_ips, default_data_quota_bytes, now),
        },
{
    if default_expiration_days.is_none() && default_max_unique_ips.is_none()
        && default_data_quota_bytes.is_none() {
        return Err(lit("У группы не заданы лимиты. Задайте лимиты в карточке группы."));
    }
    let expiration_rfc3339 = match default_expiration_days {
        Some(days) => {
            let expiry_ts = now + (days as i64) * 86400;
            match rfc3339_of(expiry_ts) {
                Some(t) => Some(t),
                None => Some(lit("2025-12-31T23:59:59Z")),
            }
        },
        None => None,
    };
    let max_unique_ips = match default_max_unique_ips {
        Some(v) => Some(v as usize),
        None => None,
    };
    let data_quota_bytes = match default_data_quota_bytes {
        Some(v) => Some(v as u64),
        None => None,
    };
    Ok(TelemtUserPatch { max_tcp_conns: None, expiration_rfc3339, data_quota_bytes, max_unique_ips })
}

// ---------------------------------------------------------------------
// Broadcasts
// ---------------------------------------------------------------------

/// What `str::to_lowercase` gives for a text.
pub uninterp spec fn lowercase(s: Seq<char>) -> Seq<char>;

/// `str::to_lowercase`: the text in lower case by Unicode's rules.
#[verifier::external_body]
fn to_lowercase(s: &str) -> (r: String)
    ensures
        r@ == lowercase(s@),
{
    s.to_lowercase()
}

pub open spec fn is_cancel_word_spec(lower: Seq<char>) -> bool {
    lower == "отмена"@ || lower == "/cancel"@ || lower == "/отмена"@ || lower == "cancel"@
}

/// Whether a text already in lower case asks to cancel.
pub fn is_cancel_word(lower: &str) -> (r: bool)
    ensures
        r == is_cancel_word_spec(lower@),
{
    let v = str_chars(lower);
    crate::text::chars_eq_str(v.as_slice(), "отмена") || crate::text::chars_eq_str(v.as_slice(), "/cancel")
        || crate::text::chars_eq_str(v.as_slice(), "/отмена") || crate::text::chars_eq_str(v.as_slice(), "cancel")
}

/// Whether a message asks to cancel a broadcast: "отмена", "/cancel",
/// "/отмена" or "cancel" in any case, around whitespace.
pub fn is_cancel_command(text: &str) -> (r: bool)
    ensures
        r == is_cancel_word_spec(lowercase(trim(text@))),
{
    let t = crate::text::trim_str(text);
    let lower = to_lowercase(t.as_str());
    is_cancel_word(lower.as_str())
}

/// The text to send to everyone, or none when the message is empty or asks
/// to cancel.
pub fn broadcast_message(text: &str) -> (r: Option<String>)
    ensures
        (trim(text@).len() == 0 || is_cancel_word_spec(lowercase(trim(trim(text@))))) ==> r is None,
        !(trim(text@).len() == 0 || is_cancel_word_spec(lowercase(trim(trim(text@))))) ==> (r matches Some(m) && m@ == trim(text@)),
{
    let t = crate::text::trim_str(text);
    if t.as_str().unicode_len() == 0 {
        return None;
    }
    if is_cancel_command(t.as_str()) {
        None
    } else {
        Some(t)
    }
}

/// A shortened name is never longer than its limit.
pub proof fn lemma_shortened_within_limit(name: Seq<char>, max: nat)
    requires
        max >= 3,
    ensures
        shortened(name, max).len() <= max,
{
    reveal_strlit("...");
}

} // verus!
