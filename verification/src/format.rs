//! Texts shown to users and administrators: byte sizes, user cards,
//! invite-token cards and the usage guide.

use vstd::prelude::*;

use crate::db::{InviteToken, RegistrationRequest};
use crate::telemt::{TelemtUpstream, TelemtUpstreamDc, TelemtUpstreamsSummary, TelemtUserInfo};
use crate::text::{
    digit_char, digit_to_char, int_str, join_text, join_texts, lit, nat_digits, push_char, push_i64,
    push_str, push_u64, string_views,
};

verus! {

// ---------------------------------------------------------------------
// Binary floating point, as far as sizes need it
// ---------------------------------------------------------------------

/// The spacing of binary64 values around `v`: 1 below 2^53, doubling with
/// each further binary digit.
pub open spec fn ulp(v: nat) -> nat
    decreases v,
{
    if v < 0x20_0000_0000_0000 {
        1
    } else {
        2 * ulp(v / 2)
    }
}

/// `n / d` rounded to the nearest integer, ties to the even one.
pub open spec fn round_half_even(n: nat, d: nat) -> nat {
    let q = n / d;
    let r = n % d;
    if 2 * r > d || (2 * r == d && q % 2 == 1) {
        q + 1
    } else {
        q
    }
}

/// The value of `v as f64`: the nearest binary64 value, ties to even.
pub open spec fn binary64(v: nat) -> nat {
    round_half_even(v, ulp(v)) * ulp(v)
}

/// `{:.2}` of the exact quotient `x / unit`.
pub open spec fn fixed2(x: nat, unit: nat) -> Seq<char> {
    let r = round_half_even(x * 100, unit);
    nat_digits(r / 100) + seq!['.', digit_char(((r / 10) % 10) as int), digit_char((r % 10) as int)]
}

/// `{:.1}` of the exact quotient `x / unit`.
pub open spec fn fixed1(x: nat, unit: nat) -> Seq<char> {
    let r = round_half_even(x * 10, unit);
    nat_digits(r / 10) + seq!['.', digit_char((r % 10) as int)]
}

pub open spec fn kib() -> nat {
    1024
}

pub open spec fn mib() -> nat {
    1024 * 1024
}

pub open spec fn gib() -> nat {
    1024 * 1024 * 1024
}

pub open spec fn tib() -> nat {
    1024 * 1024 * 1024 * 1024
}

/// A byte count for people: whole bytes below 1 KB, otherwise two decimals
/// of the largest unit (KB, MB, GB, TB) that the count reaches, computed on
/// the count as a binary64 value.
pub open spec fn bytes_human(v: nat) -> Seq<char> {
    let f = binary64(v);
    if f >= tib() {
        fixed2(f, tib()) + " TB"@
    } else if f >= gib() {
        fixed2(f, gib()) + " GB"@
    } else if f >= mib() {
        fixed2(f, mib()) + " MB"@
    } else if f >= kib() {
        fixed2(f, kib()) + " KB"@
    } else {
        nat_digits(v) + " B"@
    }
}

pub open spec fn optional_bytes(v: Option<u64>) -> Seq<char> {
    match v {
        Some(b) => bytes_human(b as nat),
        None => "—"@,
    }
}

pub open spec fn abs_i64(q: i64) -> nat {
    if q < 0 {
        (-q) as nat
    } else {
        q as nat
    }
}

/// A byte quota in gigabytes with one decimal, computed on the quota as a
/// binary64 value; a negative quota keeps its sign.
pub open spec fn quota_gb_text(q: i64) -> Seq<char> {
    (if q < 0 {
        seq!['-']
    } else {
        Seq::<char>::empty()
    }) + fixed1(binary64(abs_i64(q)), gib()) + " GB"@
}

proof fn lemma_ulp_step(w: nat)
    requires
        w >= 0x20_0000_0000_0000,
    ensures
        ulp(w) == 2 * ulp(w / 2),
{
}

/// `v as f64`, as the exact integer it denotes.
fn binary64_u64(v: u64) -> (r: u128)
    ensures
        r == binary64(v as nat),
        r <= 0x4_0000_0000_0000_0000,
{
    let mut u: u64 = 1;
    let mut w: u64 = v;
    while w >= 0x20_0000_0000_0000
        invariant
            u >= 1,
            w == v / u,
            ulp(v as nat) == u * ulp(w as nat),
            u * w <= v,
            u <= 0x1000,
        decreases w,
    {
        proof {
            lemma_ulp_step(w as nat);
            assert(u < 0x800) by (nonlinear_arith)
                requires
                    u * w <= v,
                    w >= 0x20_0000_0000_0000,
                    v < 0x1_0000_0000_0000_0000int,
                    u >= 1,
            ;
            vstd::arithmetic::div_mod::lemma_div_denominator(v as int, u as int, 2);
            assert(u * (2 * ulp((w / 2) as nat)) == (u * 2) * ulp((w / 2) as nat)) by (nonlinear_arith);
            assert((u * 2) * (w / 2) <= u * w) by (nonlinear_arith)
                requires
                    u >= 1,
            ;
        }
        w = w / 2;
        u = u * 2;
    }
    assert(ulp(w as nat) == 1);
    let q: u64 = v / u;
    let rem: u64 = v % u;
    assert(q == w);
    let rq: u64 = if 2 * (rem as u128) > (u as u128) || (2 * (rem as u128) == (u as u128) && q % 2 == 1) {
        q + 1
    } else {
        q
    };
    proof {
        assert(round_half_even(v as nat, u as nat) == rq);
        let uw = ulp(w as nat);
        assert(u * uw == u) by (nonlinear_arith)
            requires
                uw == 1,
        ;
        assert(ulp(v as nat) == u);
        assert((rq as int) * (u as int) <= 0x20_0000_0000_0001 * 0x1000) by (nonlinear_arith)
            requires
                rq <= 0x20_0000_0000_0001,
                u <= 0x1000,
        ;
    }
    (rq as u128) * (u as u128)
}

/// Appends `{:.2}` of `x / unit`.
fn push_fixed2(s: &mut String, x: u128, unit: u128)
    requires
        1024 <= unit <= 0x100_0000_0000,
        x <= 0x4_0000_0000_0000_0000,
    ensures
        final(s)@ == old(s)@ + fixed2(x as nat, unit as nat),
{
    let n: u128 = x * 100;
    let q: u128 = n / unit;
    let rm: u128 = n % unit;
    proof {
        assert(q * 1024 <= n) by (nonlinear_arith)
            requires
                q == n / unit,
                unit >= 1024,
                n >= 0,
        {
            vstd::arithmetic::div_mod::lemma_fundamental_div_mod(n as int, unit as int);
        }
    }
    let r: u128 = if 2 * rm > unit || (2 * rm == unit && q % 2 == 1) {
        q + 1
    } else {
        q
    };
    assert(r == round_half_even((x * 100) as nat, unit as nat));
    let ip: u64 = (r / 100) as u64;
    push_u64(s, ip);
    push_char(s, '.');
    push_char(s, digit_to_char(((r / 10) % 10) as u64));
    push_char(s, digit_to_char((r % 10) as u64));
    assert(s@ =~= old(s)@ + fixed2(x as nat, unit as nat));
}

/// Appends `{:.1}` of `x / unit`.
fn push_fixed1(s: &mut String, x: u128, unit: u128)
    requires
        1024 <= unit <= 0x100_0000_0000,
        x <= 0x4_0000_0000_0000_0000,
    ensures
        final(s)@ == old(s)@ + fixed1(x as nat, unit as nat),
{
    let n: u128 = x * 10;
    let q: u128 = n / unit;
    let rm: u128 = n % unit;
    proof {
        assert(q * 1024 <= n) by (nonlinear_arith)
            requires
                q == n / unit,
                unit >= 1024,
                n >= 0,
        {
            vstd::arithmetic::div_mod::lemma_fundamental_div_mod(n as int, unit as int);
        }
    }
    let r: u128 = if 2 * rm > unit || (2 * rm == unit && q % 2 == 1) {
        q + 1
    } else {
        q
    };
    assert(r == round_half_even((x * 10) as nat, unit as nat));
    let ip: u64 = (r / 10) as u64;
    push_u64(s, ip);
    push_char(s, '.');
    push_char(s, digit_to_char((r % 10) as u64));
    assert(s@ =~= old(s)@ + fixed1(x as nat, unit as nat));
}

/// A byte count for people: "512 B", "2.00 KB", "5.00 MB", ...
pub fn format_bytes_human(value: u64) -> (r: String)
    ensures
        r@ == bytes_human(value as nat),
{
    let f = binary64_u64(value);
    let mut s = String::new();
    if f >= 0x100_0000_0000 {
        push_fixed2(&mut s, f, 0x100_0000_0000);
        push_str(&mut s, " TB");
    } else if f >= 0x4000_0000 {
        push_fixed2(&mut s, f, 0x4000_0000);
        push_str(&mut s, " GB");
    } else if f >= 0x10_0000 {
        push_fixed2(&mut s, f, 0x10_0000);
        push_str(&mut s, " MB");
    } else if f >= 0x400 {
        push_fixed2(&mut s, f, 0x400);
        push_str(&mut s, " KB");
    } else {
        push_u64(&mut s, value);
        push_str(&mut s, " B");
    }
    assert(s@ =~= bytes_human(value as nat));
    s
}

/// A byte count or a dash when unknown.
pub fn format_optional_bytes(value: Option<u64>) -> (r: String)
    ensures
        r@ == optional_bytes(value),
{
    match value {
        Some(v) => format_bytes_human(v),
        None => lit("—"),
    }
}

/// A quota in bytes shown in gigabytes, "10.0 GB".
pub fn format_quota_gb(quota: i64) -> (r: String)
    ensures
        r@ == quota_gb_text(quota),
{
    let mut s = String::new();
    let mag: u64 = if quota < 0 {
        push_char(&mut s, '-');
        (0i128 - (quota as i128)) as u64
    } else {
        quota as u64
    };
    assert(mag == abs_i64(quota));
    assert(s@ =~= (if quota < 0 {
        seq!['-']
    } else {
        Seq::<char>::empty()
    }));
    let f = binary64_u64(mag);
    push_fixed1(&mut s, f, 0x4000_0000);
    push_str(&mut s, " GB");
    assert(s@ =~= quota_gb_text(quota));
    s
}

// ---------------------------------------------------------------------
// Short labels
// ---------------------------------------------------------------------

/// How new requests are handled: automatically or by an administrator.
pub fn format_mode(auto_approve: bool) -> (r: &'static str)
    ensures
        r@ == (if auto_approve {
            "АВТОПОДТВЕРЖДЕНИЕ 🚀"@
        } else {
            "Ручной ✅"@
        }),
{
    if auto_approve {
        "АВТОПОДТВЕРЖДЕНИЕ 🚀"
    } else {
        "Ручной ✅"
    }
}

/// The name under which a user is shown: the Telegram display name, else
/// "@username", else the telemt user name, else "tg_<id>".
pub open spec fn display_name(user: RegistrationRequest) -> Seq<char> {
    match user.tg_display_name {
        Some(n) => n@,
        None => match user.tg_username {
            Some(u) => "@"@ + u@,
            None => match user.telemt_username {
                Some(t) => t@,
                None => "tg_"@ + int_str(user.tg_user_id as int),
            },
        },
    }
}

pub fn user_display_name(user: &RegistrationRequest) -> (r: String)
    ensures
        r@ == display_name(*user),
{
    match &user.tg_display_name {
        Some(n) => n.clone(),
        None => match &user.tg_username {
            Some(u) => {
                let mut s = lit("@");
                push_str(&mut s, u.as_str());
                s
            },
            None => match &user.telemt_username {
                Some(t) => t.clone(),
                None => {
                    let mut s = lit("tg_");
                    push_i64(&mut s, user.tg_user_id);
                    s
                },
            },
        },
    }
}

/// How to connect, as shown to users.
pub open spec fn usage_guide() -> Seq<char> {
    "Как подключиться к прокси:\n\n1) Откройте главный экран (/start) и нажмите «Моя ссылка».\n2) Telegram автоматически предложит добавить прокси.\n3) Подтвердите добавление.\n\nЕсли доступа ещё нет, начните с /start и введите invite-токен.\nЕсли не получается, обратитесь к администратору."@
}

pub fn usage_guide_text() -> (r: &'static str)
    ensures
        r@ == usage_guide(),
{
    "Как подключиться к прокси:\n\n1) Откройте главный экран (/start) и нажмите «Моя ссылка».\n2) Telegram автоматически предложит добавить прокси.\n3) Подтвердите добавление.\n\nЕсли доступа ещё нет, начните с /start и введите invite-токен.\nЕсли не получается, обратитесь к администратору."
}

// ---------------------------------------------------------------------
// Dates in the machine's time zone
// ---------------------------------------------------------------------

/// The Unix times that `chrono::DateTime::<Utc>::from_timestamp(ts, 0)` can
/// represent: from -262143-01-01 00:00:00 to 262142-12-31 23:59:59 UTC.
pub open spec fn chrono_timestamp_in_range(ts: i64) -> bool {
    -8334601228800 <= ts <= 8210266876799
}

pub open spec fn is_ascii_digit(c: char) -> bool {
    '0' <= c && c <= '9'
}

/// The shape of chrono's "%d.%m.%Y": two digits of day, '.', two digits of
/// month, '.', then the year (four digits at least, with a sign outside
/// 0..=9999).
pub open spec fn is_local_date_text(t: Seq<char>) -> bool {
    &&& t.len() >= 10
    &&& is_ascii_digit(t[0]) && is_ascii_digit(t[1]) && t[2] == '.'
    &&& is_ascii_digit(t[3]) && is_ascii_digit(t[4]) && t[5] == '.'
    &&& forall|i: int| 6 <= i < t.len() ==> is_ascii_digit(#[trigger] t[i]) || t[i] == '+' || t[i] == '-'
}

/// The shape of chrono's "%Y-%m-%d %H:%M:%S %:z": the year (four digits at
/// least, with a sign outside 0..=9999), then "-MM-DD HH:MM:SS +hh:mm";
/// nothing but ASCII digits, signs, ':' and spaces.
pub open spec fn is_local_timestamp_text(t: Seq<char>) -> bool {
    let n = t.len() as int;
    &&& n >= 26
    &&& t[n - 22] == '-' && t[n - 19] == '-' && t[n - 16] == ' '
    &&& t[n - 13] == ':' && t[n - 10] == ':' && t[n - 7] == ' '
    &&& (t[n - 6] == '+' || t[n - 6] == '-') && t[n - 3] == ':'
    &&& forall|i: int| 0 <= i < n ==> is_ascii_digit(#[trigger] t[i]) || t[i] == '+' || t[i] == '-'
        || t[i] == ':' || t[i] == ' '
}

/// The proleptic Gregorian (year, month, day) of a day counted from 1970-01-01.
pub open spec fn civil_from_days(days: int) -> (int, int, int) {
    let z = days + 719468;
    let era = z / 146097;
    let doe = z - era * 146097;
    let yoe = (doe - doe / 1460 + doe / 36524 - doe / 146096) / 365;
    let doy = doe - (365 * yoe + yoe / 4 - yoe / 100);
    let mp = (5 * doy + 2) / 153;
    let d = doy - (153 * mp + 2) / 5 + 1;
    let m = if mp < 10 {
        mp + 3
    } else {
        mp - 9
    };
    let y = yoe + era * 400;
    (if m <= 2 {
        y + 1
    } else {
        y
    }, m, d)
}

/// Two decimal digits, as chrono writes a day, month, hour, minute or second.
pub open spec fn two_digits(n: int) -> Seq<char> {
    seq![digit_char(n / 10), digit_char(n % 10)]
}

/// The digits of `n`, with zeros in front up to four digits.
pub open spec fn four_digits(n: nat) -> Seq<char> {
    let d = nat_digits(n);
    if d.len() < 4 {
        Seq::new((4 - d.len()) as nat, |i: int| '0') + d
    } else {
        d
    }
}

/// chrono's `%Y`: four digits within 0..=9999, else a sign and at least four digits.
pub open spec fn year_text(y: int) -> Seq<char> {
    if 0 <= y <= 9999 {
        four_digits(y as nat)
    } else if y > 9999 {
        "+"@ + nat_digits(y as nat)
    } else {
        "-"@ + four_digits((-y) as nat)
    }
}

/// "dd.mm.yyyy" of the Unix time `ts` seen at the offset `o` seconds east of UTC.
pub open spec fn local_date_text(ts: int, o: int) -> Seq<char> {
    let c = civil_from_days((ts + o) / 86400);
    two_digits(c.2) + "."@ + two_digits(c.1) + "."@ + year_text(c.0)
}

/// chrono's `%:z` of an offset: its sign, then hours and minutes (rounded to
/// the nearest minute) as "hh:mm".
pub open spec fn offset_text(o: int) -> Seq<char> {
    let a = if o < 0 {
        -o
    } else {
        o
    };
    let mins = (a + 30) / 60;
    (if o < 0 {
        "-"@
    } else {
        "+"@
    }) + two_digits(mins / 60) + ":"@ + two_digits(mins % 60)
}

/// "YYYY-MM-DD HH:MM:SS +hh:mm" of the Unix time `ts` seen at the offset `o`.
pub open spec fn local_timestamp_text(ts: int, o: int) -> Seq<char> {
    let c = civil_from_days((ts + o) / 86400);
    let s = (ts + o) % 86400;
    year_text(c.0) + "-"@ + two_digits(c.1) + "-"@ + two_digits(c.2) + " "@ + two_digits(s / 3600)
        + ":"@ + two_digits((s % 3600) / 60) + ":"@ + two_digits(s % 60) + " "@ + offset_text(o)
}

/// chrono's `to_rfc3339` of the Unix time `ts` in UTC:
/// "YYYY-MM-DDTHH:MM:SS+00:00", the year written as `%Y` writes it.
pub open spec fn rfc3339_utc_text(ts: int) -> Seq<char> {
    let c = civil_from_days(ts / 86400);
    let s = ts % 86400;
    year_text(c.0) + "-"@ + two_digits(c.1) + "-"@ + two_digits(c.2) + "T"@ + two_digits(s / 3600)
        + ":"@ + two_digits((s % 3600) / 60) + ":"@ + two_digits(s % 60) + "+00:00"@
}

/// An offset that chrono's `FixedOffset` can hold: less than a day either way.
pub open spec fn valid_offset(o: int) -> bool {
    -86400 < o < 86400
}

/// What `format_date` may give for a Unix time: "—" outside chrono's range,
/// else a local date text.
pub open spec fn date_text_of(ts: i64, t: Seq<char>) -> bool {
    if chrono_timestamp_in_range(ts) {
        is_local_date_text(t) && exists|o: int|
            valid_offset(o) && t == #[trigger] local_date_text(ts as int, o)
    } else {
        t == "—"@
    }
}

/// What `format_timestamp` may give for a Unix time: a note naming the raw
/// value outside chrono's range, else a local date-and-time text.
pub open spec fn timestamp_text_of(ts: i64, t: Seq<char>) -> bool {
    if chrono_timestamp_in_range(ts) {
        is_local_timestamp_text(t) && exists|o: int|
            valid_offset(o) && t == #[trigger] local_timestamp_text(ts as int, o)
    } else {
        t == "Некорректный timestamp: "@ + int_str(ts as int)
    }
}

/// `chrono`: `DateTime::<Utc>::from_timestamp(ts, 0)`, then `with_timezone(&Local)`
/// and `format("%d.%m.%Y")`. The text comes exactly for the times chrono can
/// represent, and it is the calendar date of `ts` at the machine's offset from
/// UTC, a `FixedOffset` of less than a day either way. Which offset that is
/// depends on the machine and is not stated. Looking up the offset reads the
/// machine's zone data and panics where that data gives none; that is not
/// stated either.
#[verifier::external_body]
fn local_date(ts: i64) -> (r: Option<String>)
    ensures
        (r is Some) == chrono_timestamp_in_range(ts),
        r matches Some(t) ==> is_local_date_text(t@),
        r matches Some(t) ==> exists|o: int|
            valid_offset(o) && t@ == #[trigger] local_date_text(ts as int, o),
{
    match chrono::DateTime::<chrono::Utc>::from_timestamp(ts, 0) {
        Some(dt) => Some(dt.with_timezone(&chrono::Local).format("%d.%m.%Y").to_string()),
        None => None,
    }
}

/// `chrono`: `DateTime::<Utc>::from_timestamp(ts, 0)`, then `with_timezone(&Local)`
/// and `format("%Y-%m-%d %H:%M:%S %:z")`. As for `local_date`: the text comes
/// exactly for the times chrono can represent, and it is the date and time of
/// `ts` at some offset of less than a day, followed by that offset; which
/// offset, and the panic on zone data that gives none, are not stated.
#[verifier::external_body]
fn local_timestamp(ts: i64) -> (r: Option<String>)
    ensures
        (r is Some) == chrono_timestamp_in_range(ts),
        r matches Some(t) ==> is_local_timestamp_text(t@),
        r matches Some(t) ==> exists|o: int|
            valid_offset(o) && t@ == #[trigger] local_timestamp_text(ts as int, o),
{
    match chrono::DateTime::<chrono::Utc>::from_timestamp(ts, 0) {
        Some(dt) => Some(dt.with_timezone(&chrono::Local).format("%Y-%m-%d %H:%M:%S %:z").to_string()),
        None => None,
    }
}

/// A date as rendered from the calendar text, or a dash without one.
pub open spec fn date_or_dash(local: Option<Seq<char>>) -> Seq<char> {
    match local {
        Some(t) => t,
        None => "—"@,
    }
}

/// A timestamp as rendered from the calendar text, or a note naming the raw value.
pub open spec fn timestamp_or_note(ts: i64, local: Option<Seq<char>>) -> Seq<char> {
    match local {
        Some(t) => t,
        None => "Некорректный timestamp: "@ + int_str(ts as int),
    }
}

pub open spec fn opt_view(o: Option<String>) -> Option<Seq<char>> {
    match o {
        Some(s) => Some(s@),
        None => None,
    }
}

/// The date text made from what the calendar gave: the text itself, or "—".
pub fn date_text(local: Option<String>) -> (r: String)
    ensures
        r@ == date_or_dash(opt_view(local)),
{
    match local {
        Some(t) => t,
        None => lit("—"),
    }
}

/// The timestamp text made from what the calendar gave: the text itself, or
/// a note naming the raw value.
pub fn timestamp_text(ts: i64, local: Option<String>) -> (r: String)
    ensures
        r@ == timestamp_or_note(ts, opt_view(local)),
{
    match local {
        Some(t) => t,
        None => {
            let mut s = lit("Некорректный timestamp: ");
            push_i64(&mut s, ts);
            s
        },
    }
}

/// The date of a Unix time in the machine's time zone, "—" when out of range.
pub fn format_date(ts: i64) -> (r: String)
    ensures
        !chrono_timestamp_in_range(ts) ==> r@ == "—"@,
        chrono_timestamp_in_range(ts) ==> is_local_date_text(r@),
        chrono_timestamp_in_range(ts) ==> exists|o: int|
            valid_offset(o) && r@ == #[trigger] local_date_text(ts as int, o),
        date_text_of(ts, r@),
{
    date_text(local_date(ts))
}

/// Date and time of a Unix time in the machine's time zone, or a note when
/// out of range.
pub fn format_timestamp(ts: i64) -> (r: String)
    ensures
        !chrono_timestamp_in_range(ts) ==> r@ == "Некорректный timestamp: "@ + int_str(ts as int),
        chrono_timestamp_in_range(ts) ==> is_local_timestamp_text(r@),
        chrono_timestamp_in_range(ts) ==> exists|o: int|
            valid_offset(o) && r@ == #[trigger] local_timestamp_text(ts as int, o),
        timestamp_text_of(ts, r@),
{
    timestamp_text(ts, local_timestamp(ts))
}

// ---------------------------------------------------------------------
// User card
// ---------------------------------------------------------------------

pub open spec fn u64_or(o: Option<u64>, d: Seq<char>) -> Seq<char> {
    match o {
        Some(v) => nat_digits(v as nat),
        None => d,
    }
}

pub open spec fn usize_or(o: Option<usize>, d: Seq<char>) -> Seq<char> {
    match o {
        Some(v) => nat_digits(v as nat),
        None => d,
    }
}

/// "TCP: cur/limit (превышен!)" when more connections are open than allowed.
pub open spec fn tcp_warning(i: TelemtUserInfo) -> Option<Seq<char>> {
    match (i.current_connections, i.max_tcp_conns) {
        (Some(cur), Some(limit)) => if cur > limit {
            Some("TCP: "@ + nat_digits(cur as nat) + "/"@ + nat_digits(limit as nat) + " (превышен!)"@)
        } else {
            None
        },
        _ => None,
    }
}

/// "IP: cur/limit (превышен!)" when more addresses are active than allowed.
pub open spec fn ip_warning(i: TelemtUserInfo) -> Option<Seq<char>> {
    match (i.active_unique_ips, i.max_unique_ips) {
        (Some(cur), Some(limit)) => if cur > limit {
            Some("IP: "@ + nat_digits(cur as nat) + "/"@ + nat_digits(limit as nat) + " (превышен!)"@)
        } else {
            None
        },
        _ => None,
    }
}

/// The warning line of a card: the exceeded limits joined by ", ", or nothing.
pub open spec fn warnings_line(i: TelemtUserInfo) -> Seq<char> {
    match (tcp_warning(i), ip_warning(i)) {
        (Some(a), Some(b)) => "⚠️ "@ + a + ", "@ + b + "\n"@,
        (Some(a), None) => "⚠️ "@ + a + "\n"@,
        (None, Some(b)) => "⚠️ "@ + b + "\n"@,
        (None, None) => Seq::<char>::empty(),
    }
}

/// The live figures of a card: open connections, active and recent IPs,
/// traffic; zeros when telemt gave nothing.
pub open spec fn card_activity(info: Option<&TelemtUserInfo>) -> Seq<char> {
    match info {
        Some(i) => "📡 ● "@ + u64_or(i.current_connections, "0"@) + " соединений | 🌐 "@ + usize_or(
            i.active_unique_ips,
            "0"@,
        ) + " active IP | 🕘 "@ + usize_or(i.recent_unique_ips, "0"@) + " recent IP\n"@ + "📦 "@
            + optional_bytes(i.total_octets) + " трафика\n"@,
        None => "📡 ● "@ + "0"@ + " соединений | 🌐 "@ + "0"@ + " active IP | 🕘 "@ + "0"@
            + " recent IP\n"@ + "📦 "@ + "0 B"@ + " трафика\n"@,
    }
}

/// The limits of a card; "∞" where none is set.
pub open spec fn card_limits(info: Option<&TelemtUserInfo>) -> Seq<char> {
    match info {
        Some(i) => "🛡 TCP: "@ + usize_or(i.max_tcp_conns, "∞"@) + " | 🌍 IP: "@ + usize_or(
            i.max_unique_ips,
            "∞"@,
        ) + " | 🧮 Квота: "@ + optional_bytes(i.data_quota_bytes) + "\n"@ + warnings_line(*i),
        None => "🛡 TCP: "@ + "∞"@ + " | 🌍 IP: "@ + "∞"@ + " | 🧮 Квота: "@ + "∞"@ + "\n"@,
    }
}

pub open spec fn card_expiration(info: Option<&TelemtUserInfo>) -> Seq<char> {
    match info {
        Some(i) => match i.expiration_rfc3339 {
            Some(e) => e@,
            None => "Не задано"@,
        },
        None => "Не задано"@,
    }
}

/// A user's card: who they are, their status, live figures, limits, expiry,
/// telemt name and when they were last synced (`last_sync`).
pub open spec fn user_card(
    user: RegistrationRequest,
    info: Option<&TelemtUserInfo>,
    last_sync: Seq<char>,
) -> Seq<char> {
    "👤 "@ + display_name(user) + "\n"@ + "🆔 "@ + int_str(user.tg_user_id as int) + " | 📋 "@
        + user.status.text() + "\n"@ + card_activity(info) + card_limits(info) + "⏳ "@
        + card_expiration(info) + "\n"@ + "🔗 "@ + match user.telemt_username {
        Some(t) => t@,
        None => "—"@,
    } + "\n"@ + "⏱ synced "@ + last_sync
}

fn push_u64_or(s: &mut String, o: Option<u64>, d: &str)
    ensures
        final(s)@ == old(s)@ + u64_or(o, d@),
{
    match o {
        Some(v) => push_u64(s, v),
        None => push_str(s, d),
    }
}

fn push_usize_or(s: &mut String, o: Option<usize>, d: &str)
    ensures
        final(s)@ == old(s)@ + usize_or(o, d@),
{
    match o {
        Some(v) => push_u64(s, v as u64),
        None => push_str(s, d),
    }
}

fn push_limit_warning(s: &mut String, label: &str, cur: u64, limit: u64)
    ensures
        final(s)@ == old(s)@ + label@ + nat_digits(cur as nat) + "/"@ + nat_digits(limit as nat)
            + " (превышен!)"@,
{
    push_str(s, label);
    push_u64(s, cur);
    push_str(s, "/");
    push_u64(s, limit);
    push_str(s, " (превышен!)");
}

fn push_warnings(s: &mut String, i: &TelemtUserInfo)
    ensures
        final(s)@ == old(s)@ + warnings_line(*i),
{
    let tcp: Option<String> = match (i.current_connections, i.max_tcp_conns) {
        (Some(cur), Some(limit)) => if cur > limit as u64 {
            let mut t = String::new();
            push_limit_warning(&mut t, "TCP: ", cur, limit as u64);
            Some(t)
        } else {
            None
        },
        _ => None,
    };
    let ip: Option<String> = match (i.active_unique_ips, i.max_unique_ips) {
        (Some(cur), Some(limit)) => if cur > limit {
            let mut t = String::new();
            push_limit_warning(&mut t, "IP: ", cur as u64, limit as u64);
            Some(t)
        } else {
            None
        },
        _ => None,
    };
    assert(opt_view(tcp) == tcp_warning(*i));
    assert(opt_view(ip) == ip_warning(*i));
    match (tcp, ip) {
        (Some(a), Some(b)) => {
            push_str(s, "⚠️ ");
            push_str(s, a.as_str());
            push_str(s, ", ");
            push_str(s, b.as_str());
            push_str(s, "\n");
        },
        (Some(a), None) => {
            push_str(s, "⚠️ ");
            push_str(s, a.as_str());
            push_str(s, "\n");
        },
        (None, Some(b)) => {
            push_str(s, "⚠️ ");
            push_str(s, b.as_str());
            push_str(s, "\n");
        },
        (None, None) => {},
    }
    assert(s@ =~= old(s)@ + warnings_line(*i));
}

fn push_card_activity(s: &mut String, info: Option<&TelemtUserInfo>)
    ensures
        final(s)@ == old(s)@ + card_activity(info),
{
    match info {
        Some(i) => {
            push_str(s, "📡 ● ");
            push_u64_or(s, i.current_connections, "0");
            push_str(s, " соединений | 🌐 ");
            push_usize_or(s, i.active_unique_ips, "0");
            push_str(s, " active IP | 🕘 ");
            push_usize_or(s, i.recent_unique_ips, "0");
            push_str(s, " recent IP\n");
            push_str(s, "📦 ");
            let total = format_optional_bytes(i.total_octets);
            push_str(s, total.as_str());
            push_str(s, " трафика\n");
        },
        None => {
            push_str(s, "📡 ● ");
            push_str(s, "0");
            push_str(s, " соединений | 🌐 ");
            push_str(s, "0");
            push_str(s, " active IP | 🕘 ");
            push_str(s, "0");
            push_str(s, " recent IP\n");
            push_str(s, "📦 ");
            push_str(s, "0 B");
            push_str(s, " трафика\n");
        },
    }
    assert(s@ =~= old(s)@ + card_activity(info));
}

fn push_card_limits(s: &mut String, info: Option<&TelemtUserInfo>)
    ensures
        final(s)@ == old(s)@ + card_limits(info),
{
    match info {
        Some(i) => {
            push_str(s, "🛡 TCP: ");
            push_usize_or(s, i.max_tcp_conns, "∞");
            push_str(s, " | 🌍 IP: ");
            push_usize_or(s, i.max_unique_ips, "∞");
            push_str(s, " | 🧮 Квота: ");
            let quota = format_optional_bytes(i.data_quota_bytes);
            push_str(s, quota.as_str());
            push_str(s, "\n");
            push_warnings(s, i);
        },
        None => {
            push_str(s, "🛡 TCP: ");
            push_str(s, "∞");
            push_str(s, " | 🌍 IP: ");
            push_str(s, "∞");
            push_str(s, " | 🧮 Квота: ");
            push_str(s, "∞");
            push_str(s, "\n");
        },
    }
    assert(s@ =~= old(s)@ + card_limits(info));
}

/// A user's card, with the time of the last sync already rendered.
pub fn user_card_text_with(
    user: &RegistrationRequest,
    runtime_info: Option<&TelemtUserInfo>,
    last_sync: &str,
) -> (r: String)
    ensures
        r@ == user_card(*user, runtime_info, last_sync@),
{
    let mut s = lit("👤 ");
    let name = user_display_name(user);
    push_str(&mut s, name.as_str());
    push_str(&mut s, "\n");
    push_str(&mut s, "🆔 ");
    push_i64(&mut s, user.tg_user_id);
    push_str(&mut s, " | 📋 ");
    push_str(&mut s, user.status.as_str());
    push_str(&mut s, "\n");
    push_card_activity(&mut s, runtime_info);
    push_card_limits(&mut s, runtime_info);
    push_str(&mut s, "⏳ ");
    match runtime_info {
        Some(i) => match &i.expiration_rfc3339 {
            Some(e) => push_str(&mut s, e.as_str()),
            None => push_str(&mut s, "Не задано"),
        },
        None => push_str(&mut s, "Не задано"),
    }
    push_str(&mut s, "\n");
    push_str(&mut s, "🔗 ");
    match &user.telemt_username {
        Some(t) => push_str(&mut s, t.as_str()),
        None => push_str(&mut s, "—"),
    }
    push_str(&mut s, "\n");
    push_str(&mut s, "⏱ synced ");
    push_str(&mut s, last_sync);
    assert(s@ =~= user_card(*user, runtime_info, last_sync@));
    s
}

/// A user's card as shown to administrators; the time of the last sync is
/// rendered in the machine's time zone, "—" when never synced.
pub fn render_user_card_text(user: &RegistrationRequest, runtime_info: Option<&TelemtUserInfo>) -> (r:
    String)
    ensures
        user.last_synced_at is None ==> r@ == user_card(*user, runtime_info, "—"@),
        user.last_synced_at matches Some(ts) ==> exists|t: Seq<char>|
            timestamp_text_of(ts, t) && r@ == #[trigger] user_card(*user, runtime_info, t),
{
    let last_sync = match user.last_synced_at {
        Some(ts) => format_timestamp(ts),
        None => lit("—"),
    };
    user_card_text_with(user, runtime_info, last_sync.as_str())
}

// ---------------------------------------------------------------------
// Invite tokens
// ---------------------------------------------------------------------

pub open spec fn token_mode_label(auto_approve: bool) -> Seq<char> {
    if auto_approve {
        "AUTO"@
    } else {
        "MANUAL"@
    }
}

/// The limits a token gives new users, each present one as a piece: the
/// access period (after `days_prefix`), the IP limit and the traffic quota.
pub open spec fn limit_parts(t: InviteToken, days_prefix: Seq<char>) -> Seq<Seq<char>> {
    (match t.default_expiration_days {
        Some(d) => seq![days_prefix + int_str(d as int) + " дн."@],
        None => Seq::<Seq<char>>::empty(),
    }) + (match t.default_max_unique_ips {
        Some(n) => seq!["IP: "@ + int_str(n as int)],
        None => Seq::<Seq<char>>::empty(),
    }) + (match t.default_data_quota_bytes {
        Some(q) => seq![quota_gb_text(q)],
        None => Seq::<Seq<char>>::empty(),
    })
}

/// The limits joined by ", ", or "по умолчанию" when the token sets none.
pub open spec fn limits_text(t: InviteToken, days_prefix: Seq<char>) -> Seq<char> {
    let parts = limit_parts(t, days_prefix);
    if parts.len() == 0 {
        "по умолчанию"@
    } else {
        join_text(parts, ", "@)
    }
}

fn limit_pieces(token: &InviteToken, days_prefix: &str) -> (r: Vec<String>)
    ensures
        string_views(r@) == limit_parts(*token, days_prefix@),
{
    let mut parts: Vec<String> = Vec::new();
    if let Some(days) = token.default_expiration_days {
        let mut p = lit(days_prefix);
        push_i64(&mut p, days as i64);
        push_str(&mut p, " дн.");
        parts.push(p);
    }
    if let Some(ips) = token.default_max_unique_ips {
        let mut p = lit("IP: ");
        push_i64(&mut p, ips as i64);
        parts.push(p);
    }
    if let Some(quota) = token.default_data_quota_bytes {
        parts.push(format_quota_gb(quota));
    }
    assert(string_views(parts@) =~= limit_parts(*token, days_prefix@));
    parts
}

fn limits_for(token: &InviteToken, days_prefix: &str) -> (r: String)
    ensures
        r@ == limits_text(*token, days_prefix@),
{
    let parts = limit_pieces(token, days_prefix);
    if parts.len() == 0 {
        lit("по умолчанию")
    } else {
        join_texts(&parts, ", ")
    }
}

/// The limits of a token as listed on its card: "доступ 30 дн., IP: 3, 10.0 GB".
pub fn invite_token_limits_text(token: &InviteToken) -> (r: String)
    ensures
        r@ == limits_text(*token, "доступ "@),
{
    limits_for(token, "доступ ")
}

/// The limits of a token as listed after creating it: "30 дн., IP: 3, 10.0 GB".
pub fn format_token_limits(token: &InviteToken) -> (r: String)
    ensures
        r@ == limits_text(*token, ""@),
{
    limits_for(token, "")
}

/// The title of a token's button: code, mode and the last day of the link.
pub open spec fn token_button_title(t: InviteToken, expires: Seq<char>) -> Seq<char> {
    t.token@ + " · "@ + token_mode_label(t.auto_approve) + " · invite до "@ + expires
}

pub fn invite_token_button_title_with(token: &InviteToken, expires: &str) -> (r: String)
    ensures
        r@ == token_button_title(*token, expires@),
{
    let mut s = token.token.clone();
    push_str(&mut s, " · ");
    push_str(&mut s, if token.auto_approve {
        "AUTO"
    } else {
        "MANUAL"
    });
    push_str(&mut s, " · invite до ");
    push_str(&mut s, expires);
    assert(s@ =~= token_button_title(*token, expires@));
    s
}

/// The title of a token's button; the date is rendered in the machine's time zone.
pub fn render_invite_token_button_title(token: &InviteToken) -> (r: String)
    ensures
        exists|e: Seq<char>|
            date_text_of(token.expires_at, e) && r@ == #[trigger] token_button_title(*token, e),
{
    let expires = format_date(token.expires_at);
    invite_token_button_title_with(token, expires.as_str())
}

/// "used/max", or "used/∞" without a limit.
pub open spec fn usage_text(t: InviteToken) -> Seq<char> {
    int_str(t.usage_count as int) + "/"@ + match t.max_usage {
        Some(m) => int_str(m as int),
        None => "∞"@,
    }
}

/// A token's card, with its two dates (`expires`, `created`) already rendered.
pub open spec fn token_card(t: InviteToken, expires: Seq<char>, created: Seq<char>) -> Seq<char> {
    "🎟 Invite-токен\n\n🔑 "@ + t.token@ + "\n⚙️ "@ + token_mode_label(t.auto_approve)
        + "\n⏳ Срок действия ссылки (invite): до "@ + expires + "\n📊 Активаций по ссылке: "@
        + usage_text(t) + "\n👤 "@ + match t.created_by {
        Some(c) => int_str(c as int),
        None => "—"@,
    } + "\n📅 создан "@ + created + "\n\n📈 Лимиты пользователя: "@ + limits_text(t, "доступ "@)
}

pub fn invite_token_card_text_with(token: &InviteToken, expires: &str, created: &str) -> (r: String)
    ensures
        r@ == token_card(*token, expires@, created@),
{
    let mut s = lit("🎟 Invite-токен\n\n🔑 ");
    push_str(&mut s, token.token.as_str());
    push_str(&mut s, "\n⚙️ ");
    push_str(&mut s, if token.auto_approve {
        "AUTO"
    } else {
        "MANUAL"
    });
    push_str(&mut s, "\n⏳ Срок действия ссылки (invite): до ");
    push_str(&mut s, expires);
    push_str(&mut s, "\n📊 Активаций по ссылке: ");
    push_i64(&mut s, token.usage_count);
    push_str(&mut s, "/");
    match token.max_usage {
        Some(m) => push_i64(&mut s, m),
        None => push_str(&mut s, "∞"),
    }
    push_str(&mut s, "\n👤 ");
    match token.created_by {
        Some(c) => push_i64(&mut s, c),
        None => push_str(&mut s, "—"),
    }
    push_str(&mut s, "\n📅 создан ");
    push_str(&mut s, created);
    push_str(&mut s, "\n\n📈 Лимиты пользователя: ");
    let limits = invite_token_limits_text(token);
    push_str(&mut s, limits.as_str());
    assert(s@ =~= token_card(*token, expires@, created@));
    s
}

/// A token's card; the dates are rendered in the machine's time zone.
pub fn render_invite_token_card_text(token: &InviteToken) -> (r: String)
    ensures
        exists|e: Seq<char>, c: Seq<char>|
            date_text_of(token.expires_at, e) && date_text_of(token.created_at, c)
                && r@ == #[trigger] token_card(*token, e, c),
{
    let expires = format_date(token.expires_at);
    let created = format_date(token.created_at);
    invite_token_card_text_with(token, expires.as_str(), created.as_str())
}

// ---------------------------------------------------------------------
// Upstreams
// ---------------------------------------------------------------------

/// "DC<n>: ✅ <latency>" for a reachable data center, "DC<n>: ❌ —" otherwise.
pub open spec fn dc_part(d: TelemtUpstreamDc) -> Seq<char> {
    "DC"@ + int_str(d.dc as int) + ": "@ + match d.latency_text {
        Some(l) => "✅ "@ + l@,
        None => "❌ "@ + "—"@,
    }
}

pub open spec fn upstream_line(u: TelemtUpstream) -> Seq<char> {
    "🌐 "@ + join_text(u.dc_list@.map_values(|d: TelemtUpstreamDc| dc_part(d)), " | "@)
}

/// The upstreams screen: health counts, one line per upstream and the age of
/// the last check; without a summary, why it is missing.
pub open spec fn upstreams_summary(summary: Option<TelemtUpstreamsSummary>, error: Option<Seq<char>>) -> Seq<char> {
    match summary {
        Some(s) => crate::text::join_on(
            seq![
                "📡 Upstreams"@,
                Seq::<char>::empty(),
                "✅ "@ + nat_digits(s.healthy_total as nat) + "/"@ + nat_digits(s.configured_total as nat)
                    + " healthy | "@ + s.route_kinds@,
                Seq::<char>::empty(),
            ] + s.upstreams@.map_values(|u: TelemtUpstream| upstream_line(u)) + if s.upstreams@.len() > 0 {
                seq![
                    Seq::<char>::empty(),
                    "⏱ Последняя проверка: "@ + nat_digits(s.upstreams@[0].last_check_age_secs as nat)
                        + " сек назад"@,
                ]
            } else {
                Seq::<Seq<char>>::empty()
            },
            '\n',
        ),
        None => "📡 Upstreams\n\nФункция отключена или недоступна в telemt."@ + match error {
            Some(e) => "\n\nПричина: "@ + e,
            None => Seq::<char>::empty(),
        },
    }
}

fn upstream_text(u: &TelemtUpstream) -> (r: String)
    ensures
        r@ == upstream_line(*u),
{
    let mut parts: Vec<String> = Vec::new();
    let ghost want = u.dc_list@.map_values(|d: TelemtUpstreamDc| dc_part(d));
    for i in 0..u.dc_list.len()
        invariant
            want == u.dc_list@.map_values(|d: TelemtUpstreamDc| dc_part(d)),
            string_views(parts@) == want.take(i as int),
    {
        let d = &u.dc_list[i];
        let mut t = lit("DC");
        push_i64(&mut t, d.dc);
        push_str(&mut t, ": ");
        match &d.latency_text {
            Some(l) => {
                push_str(&mut t, "✅ ");
                push_str(&mut t, l.as_str());
            },
            None => {
                push_str(&mut t, "❌ ");
                push_str(&mut t, "—");
            },
        }
        assert(t@ == want[i as int]);
        let ghost before = string_views(parts@);
        parts.push(t);
        assert(string_views(parts@) =~= before.push(want[i as int]));
        assert(want.take(i + 1) =~= want.take(i as int).push(want[i as int]));
    }
    assert(want.take(u.dc_list@.len() as int) =~= want);
    let mut s = lit("🌐 ");
    let joined = join_texts(&parts, " | ");
    push_str(&mut s, joined.as_str());
    s
}

pub fn render_upstreams_summary_text(summary: Option<&TelemtUpstreamsSummary>, error: Option<&str>) -> (r: String)
    ensures
        r@ == upstreams_summary(
            match summary {
                Some(s) => Some(*s),
                None => None,
            },
            crate::commands::str_opt_view(error),
        ),
{
    match summary {
        Some(s) => {
            let mut lines: Vec<String> = Vec::new();
            crate::screens::push_line(&mut lines, lit("📡 Upstreams"));
            crate::screens::push_line(&mut lines, String::new());
            let mut h = lit("✅ ");
            push_u64(&mut h, s.healthy_total);
            push_str(&mut h, "/");
            push_u64(&mut h, s.configured_total);
            push_str(&mut h, " healthy | ");
            push_str(&mut h, s.route_kinds.as_str());
            crate::screens::push_line(&mut lines, h);
            crate::screens::push_line(&mut lines, String::new());
            let ghost head = string_views(lines@);
            assert(head =~= seq![
                "📡 Upstreams"@,
                Seq::<char>::empty(),
                "✅ "@ + nat_digits(s.healthy_total as nat) + "/"@ + nat_digits(s.configured_total as nat)
                    + " healthy | "@ + s.route_kinds@,
                Seq::<char>::empty(),
            ]);
            let ghost want = s.upstreams@.map_values(|u: TelemtUpstream| upstream_line(u));
            for i in 0..s.upstreams.len()
                invariant
                    want == s.upstreams@.map_values(|u: TelemtUpstream| upstream_line(u)),
                    string_views(lines@) == head + want.take(i as int),
            {
                let t = upstream_text(&s.upstreams[i]);
                let ghost before = string_views(lines@);
                lines.push(t);
                assert(string_views(lines@) =~= before.push(want[i as int]));
                assert(want.take(i + 1) =~= want.take(i as int).push(want[i as int]));
            }
            assert(want.take(s.upstreams@.len() as int) =~= want);
            let ghost body = string_views(lines@);
            if s.upstreams.len() > 0 {
                crate::screens::push_line(&mut lines, String::new());
                let mut t = lit("⏱ Последняя проверка: ");
                push_u64(&mut t, s.upstreams[0].last_check_age_secs);
                push_str(&mut t, " сек назад");
                crate::screens::push_line(&mut lines, t);
            }
            assert(string_views(lines@) =~= seq![
                "📡 Upstreams"@,
                Seq::<char>::empty(),
                "✅ "@ + nat_digits(s.healthy_total as nat) + "/"@ + nat_digits(s.configured_total as nat)
                    + " healthy | "@ + s.route_kinds@,
                Seq::<char>::empty(),
            ] + want + if s.upstreams@.len() > 0 {
                seq![
                    Seq::<char>::empty(),
                    "⏱ Последняя проверка: "@ + nat_digits(s.upstreams@[0].last_check_age_secs as nat)
                        + " сек назад"@,
                ]
            } else {
                Seq::<Seq<char>>::empty()
            });
            crate::text::join_strings(&lines, '\n')
        },
        None => {
            let mut text = lit("📡 Upstreams\n\nФункция отключена или недоступна в telemt.");
            if let Some(e) = error {
                push_str(&mut text, "\n\nПричина: ");
                push_str(&mut text, e);
            }
            text
        },
    }
}

} // verus!
