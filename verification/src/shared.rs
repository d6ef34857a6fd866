//! Helpers shared by the bot's handlers: reading command arguments and
//! `/start` payloads, escaping for Telegram HTML, invite links and QR codes.

use vstd::prelude::*;

use crate::format::opt_view;
use crate::text::{
    has_prefix, is_ws, is_ws_exec, lit, parse_i64, parse_i64_spec, push_char, push_str, str_chars,
    string_from_chars, strip_prefix_chars, trim, trim_chars, ws_end,
};

verus! {

/// Whom an administrator means: a numeric Telegram id or a `@username`.
#[derive(Debug, Clone, PartialEq, Eq)]
pub enum CreateTarget {
    UserId(i64),
    Username(String),
}

pub open spec fn create_target_view(t: CreateTarget) -> (bool, i64, Seq<char>) {
    match t {
        CreateTarget::UserId(id) => (true, id, Seq::<char>::empty()),
        CreateTarget::Username(u) => (false, 0, u@),
    }
}

/// The argument trimmed: a number is an id; otherwise it must be "@name"
/// with a non-blank name (trimmed again).
pub open spec fn create_target(arg: Seq<char>) -> Option<(bool, i64, Seq<char>)> {
    let t = trim(arg);
    if t.len() == 0 {
        None
    } else if parse_i64_spec(t) is Some {
        Some((true, parse_i64_spec(t)->0, Seq::<char>::empty()))
    } else if t[0] == '@' && trim(t.drop_first()).len() > 0 {
        Some((false, 0, trim(t.drop_first())))
    } else {
        None
    }
}

pub fn parse_create_target(arg: &str) -> (r: Option<CreateTarget>)
    ensures
        match r {
            Some(t) => create_target(arg@) == Some(create_target_view(t)),
            None => create_target(arg@) is None,
        },
{
    let chars = str_chars(arg);
    let t = trim_chars(chars.as_slice());
    if t.len() == 0 {
        return None;
    }
    if let Some(id) = parse_i64(t.as_slice()) {
        return Some(CreateTarget::UserId(id));
    }
    match strip_prefix_chars(t.as_slice(), "@") {
        Some(rest) => {
            proof {
                reveal_strlit("@");
                assert("@"@.len() == 1 && "@"@[0] == '@');
                assert(t@.take(1)[0] == t@[0]);
                assert(t@[0] == '@');
                assert(rest@ =~= t@.drop_first());
            }
            let name = trim_chars(rest.as_slice());
            if name.len() == 0 {
                None
            } else {
                Some(CreateTarget::Username(string_from_chars(name.as_slice())))
            }
        },
        None => {
            proof {
                reveal_strlit("@");
                if t@[0] == '@' {
                    assert(t@.take(1) =~= "@"@);
                }
            }
            None
        },
    }
}

// ---------------------------------------------------------------------
// The `/start` payload
// ---------------------------------------------------------------------

/// Index of the first whitespace character at or after `i` (or the length).
pub open spec fn word_end(s: Seq<char>, i: int) -> int
    decreases s.len() - i,
{
    if i < s.len() && !is_ws(s[i]) {
        word_end(s, i + 1)
    } else {
        i
    }
}

/// Index of the first character other than `c` at or after `i` (or the length).
pub open spec fn run_end(s: Seq<char>, c: char, i: int) -> int
    decreases s.len() - i,
{
    if i < s.len() && s[i] == c {
        run_end(s, c, i + 1)
    } else {
        i
    }
}

/// Index just after the last character other than `c` before `j` (or zero).
pub open spec fn run_start_back(s: Seq<char>, c: char, j: int) -> int
    decreases j,
{
    if j > 0 && s[j - 1] == c {
        run_start_back(s, c, j - 1)
    } else {
        j
    }
}

/// `str::trim_matches(c)`: the text without leading and trailing `c`.
pub open spec fn trim_char(s: Seq<char>, c: char) -> Seq<char> {
    let a = run_end(s, c, 0);
    let b = run_start_back(s, c, s.len() as int);
    if a >= b {
        Seq::<char>::empty()
    } else {
        s.subrange(a, b)
    }
}

/// The second whitespace-separated word of a message whose first word starts
/// with "/start".
pub open spec fn start_argument(s: Seq<char>) -> Option<Seq<char>> {
    let a = ws_end(s, 0);
    let b = word_end(s, a);
    let c = ws_end(s, b);
    if a >= s.len() || !has_prefix(s.subrange(a, b), "/start"@) || c >= s.len() {
        None
    } else {
        Some(s.subrange(c, word_end(s, c)))
    }
}

/// A decoded token without surrounding whitespace and backticks; nothing
/// when that leaves it empty.
pub open spec fn normalized_token(decoded: Seq<char>) -> Option<Seq<char>> {
    let n = trim(trim_char(trim(decoded), '`'));
    if n.len() == 0 {
        None
    } else {
        Some(n)
    }
}

/// What `urlencoding::decode` gives for a text: the percent-decoded text,
/// or `None` where the decoded bytes are not UTF-8.
pub uninterp spec fn url_decoded(data: Seq<char>) -> Option<Seq<char>>;

/// The invite token carried by "/start <token>": the argument percent-decoded
/// (left as it is where decoding fails), then normalized.
pub open spec fn start_token(s: Seq<char>) -> Option<Seq<char>> {
    match start_argument(s) {
        None => None,
        Some(arg) => normalized_token(
            match url_decoded(arg) {
                Some(d) => d,
                None => arg,
            },
        ),
    }
}

pub open spec fn has_no_percent(s: Seq<char>) -> bool {
    forall|i: int| 0 <= i < s.len() ==> s[i] != '%'
}

/// `urlencoding::decode`, with the decoded text owned; `None` where the
/// decoded bytes are not UTF-8. The source returns the input unchanged when
/// it holds no '%'.
#[verifier::external_body]
fn url_decode(data: &str) -> (r: Option<String>)
    ensures
        opt_view(r) == url_decoded(data@),
        has_no_percent(data@) ==> opt_view(r) == Some(data@),
{
    match urlencoding::decode(data) {
        Ok(value) => Some(value.into_owned()),
        Err(_) => None,
    }
}

fn word_end_exec(v: &[char], i: usize) -> (r: usize)
    requires
        i <= v@.len(),
    ensures
        r as int == word_end(v@, i as int),
        i <= r <= v@.len(),
{
    let mut k = i;
    while k < v.len() && !is_ws_exec(v[k])
        invariant
            i <= k <= v@.len(),
            word_end(v@, i as int) == word_end(v@, k as int),
        decreases v@.len() - k,
    {
        k = k + 1;
    }
    k
}

fn ws_end_exec(v: &[char], i: usize) -> (r: usize)
    requires
        i <= v@.len(),
    ensures
        r as int == ws_end(v@, i as int),
        i <= r <= v@.len(),
{
    let mut k = i;
    while k < v.len() && is_ws_exec(v[k])
        invariant
            i <= k <= v@.len(),
            ws_end(v@, i as int) == ws_end(v@, k as int),
        decreases v@.len() - k,
    {
        k = k + 1;
    }
    k
}

fn slice_chars(v: &[char], a: usize, b: usize) -> (r: Vec<char>)
    requires
        a <= b <= v@.len(),
    ensures
        r@ == v@.subrange(a as int, b as int),
{
    let mut r: Vec<char> = Vec::new();
    for k in a..b
        invariant
            a <= k <= b,
            b <= v@.len(),
            r@ == v@.subrange(a as int, k as int),
    {
        r.push(v[k]);
        assert(v@.subrange(a as int, k + 1) =~= v@.subrange(a as int, k as int).push(v@[k as int]));
    }
    r
}

/// The argument of a "/start" message, before decoding.
pub fn start_argument_text(text: &str) -> (r: Option<String>)
    ensures
        opt_view(r) == start_argument(text@),
{
    let v = str_chars(text);
    let a = ws_end_exec(v.as_slice(), 0);
    if a >= v.len() {
        return None;
    }
    let b = word_end_exec(v.as_slice(), a);
    let first = slice_chars(v.as_slice(), a, b);
    if strip_prefix_chars(first.as_slice(), "/start").is_none() {
        return None;
    }
    let c = ws_end_exec(v.as_slice(), b);
    if c >= v.len() {
        return None;
    }
    let d = word_end_exec(v.as_slice(), c);
    let arg = slice_chars(v.as_slice(), c, d);
    Some(string_from_chars(arg.as_slice()))
}

fn trim_char_chars(v: &[char], c: char) -> (r: Vec<char>)
    ensures
        r@ == trim_char(v@, c),
{
    let n = v.len();
    let mut a: usize = 0;
    while a < n && v[a] == c
        invariant
            n == v@.len(),
            a <= n,
            run_end(v@, c, 0) == run_end(v@, c, a as int),
        decreases n - a,
    {
        a = a + 1;
    }
    let mut b: usize = n;
    while b > 0 && v[b - 1] == c
        invariant
            n == v@.len(),
            b <= n,
            run_start_back(v@, c, n as int) == run_start_back(v@, c, b as int),
        decreases b,
    {
        b = b - 1;
    }
    if a < b {
        slice_chars(v, a, b)
    } else {
        Vec::new()
    }
}

/// A decoded invite token without surrounding whitespace and backticks.
pub fn normalize_start_token(decoded: &str) -> (r: Option<String>)
    ensures
        opt_view(r) == normalized_token(decoded@),
{
    let v = str_chars(decoded);
    let t1 = trim_chars(v.as_slice());
    let t2 = trim_char_chars(t1.as_slice(), '`');
    let t3 = trim_chars(t2.as_slice());
    if t3.len() == 0 {
        None
    } else {
        Some(string_from_chars(t3.as_slice()))
    }
}

/// The invite token of a "/start <token>" message.
pub fn parse_start_token(text: &str) -> (r: Option<String>)
    ensures
        opt_view(r) == start_token(text@),
        start_argument(text@) is Some && has_no_percent(start_argument(text@)->0) ==> opt_view(r)
            == normalized_token(start_argument(text@)->0),
{
    match start_argument_text(text) {
        None => None,
        Some(arg) => {
            let decoded = match url_decode(arg.as_str()) {
                Some(d) => d,
                None => arg,
            };
            normalize_start_token(decoded.as_str())
        },
    }
}

// ---------------------------------------------------------------------
// Telegram HTML and links
// ---------------------------------------------------------------------

pub open spec fn escape_char(c: char) -> Seq<char> {
    if c == '&' {
        "&amp;"@
    } else if c == '<' {
        "&lt;"@
    } else if c == '>' {
        "&gt;"@
    } else {
        seq![c]
    }
}

/// The text with '&', '<' and '>' written as HTML entities.
pub open spec fn html_escaped(s: Seq<char>) -> Seq<char>
    decreases s.len(),
{
    if s.len() == 0 {
        Seq::<char>::empty()
    } else {
        html_escaped(s.drop_last()) + escape_char(s.last())
    }
}

pub fn escape_html(text: &str) -> (r: String)
    ensures
        r@ == html_escaped(text@),
{
    let v = str_chars(text);
    let mut s = String::new();
    for i in 0..v.len()
        invariant
            v@ == text@,
            s@ == html_escaped(v@.take(i as int)),
    {
        let c = v[i];
        if c == '&' {
            push_str(&mut s, "&amp;");
        } else if c == '<' {
            push_str(&mut s, "&lt;");
        } else if c == '>' {
            push_str(&mut s, "&gt;");
        } else {
            push_char(&mut s, c);
        }
        assert(v@.take(i + 1).drop_last() =~= v@.take(i as int));
    }
    assert(v@.take(v@.len() as int) =~= v@);
    s
}

/// The message that tells an administrator which operation failed and why,
/// in Telegram HTML.
pub open spec fn backend_error_message(action: Seq<char>, error: Seq<char>) -> Seq<char> {
    "<b>Ошибка backend</b>\n\n<b>Операция:</b> "@ + html_escaped(action)
        + "\n<b>Причина:</b>\n<pre>"@ + html_escaped(error) + "</pre>"@
}

/// `error` is the text of the error that stopped the operation.
pub fn format_admin_backend_error(action: &str, error: &str) -> (r: String)
    ensures
        r@ == backend_error_message(action@, error@),
{
    let mut s = lit("<b>Ошибка backend</b>\n\n<b>Операция:</b> ");
    let a = escape_html(action);
    push_str(&mut s, a.as_str());
    push_str(&mut s, "\n<b>Причина:</b>\n<pre>");
    let e = escape_html(error);
    push_str(&mut s, e.as_str());
    push_str(&mut s, "</pre>");
    s
}

/// The deep link that opens the bot with an invite token: the bot's name
/// without leading '@'.
pub open spec fn bot_start_link(bot_username: Seq<char>, token: Seq<char>) -> Seq<char> {
    "https://t.me/"@ + bot_username.skip(run_end(bot_username, '@', 0)) + "?start="@ + token
}

pub fn build_bot_start_link(bot_username: &str, token: &str) -> (r: String)
    ensures
        r@ == bot_start_link(bot_username@, token@),
{
    let v = str_chars(bot_username);
    let mut a: usize = 0;
    while a < v.len() && v[a] == '@'
        invariant
            v@ == bot_username@,
            a <= v@.len(),
            run_end(v@, '@', 0) == run_end(v@, '@', a as int),
        decreases v@.len() - a,
    {
        a = a + 1;
    }
    let name = slice_chars(v.as_slice(), a, v.len());
    let mut s = lit("https://t.me/");
    let name_s = string_from_chars(name.as_slice());
    push_str(&mut s, name_s.as_str());
    push_str(&mut s, "?start=");
    push_str(&mut s, token);
    assert(v@.subrange(a as int, v@.len() as int) =~= v@.skip(a as int));
    s
}

// ---------------------------------------------------------------------
// QR codes
// ---------------------------------------------------------------------

pub open spec fn bytes_result_view(r: Result<Vec<u8>, String>) -> Result<Seq<u8>, Seq<char>> {
    match r {
        Ok(b) => Ok(b@),
        Err(e) => Err(e@),
    }
}

/// What the QR pipeline gives for a payload: the PNG bytes of its QR code,
/// or the text of the error that stopped it.
pub uninterp spec fn qr_png(payload: Seq<char>) -> Result<Seq<u8>, Seq<char>>;

/// `qrcode::QrCode::new` on the payload's bytes, rendered by `qrcode` as an
/// 8-bit grey `image` with a quiet zone and at least 512x512 pixels, then
/// encoded by `image` as PNG; an error becomes its text.
#[verifier::external_body]
fn render_qr_png(payload: &str) -> (r: Result<Vec<u8>, String>)
    ensures
        bytes_result_view(r) == qr_png(payload@),
{
    let code = match qrcode::QrCode::new(payload.as_bytes()) {
        Ok(code) => code,
        Err(e) => return Err(e.to_string()),
    };
    let picture = code.render::<image::Luma<u8>>().quiet_zone(true).min_dimensions(512, 512).build();
    let mut bytes: Vec<u8> = Vec::new();
    let written = image::DynamicImage::ImageLuma8(picture).write_to(
        &mut std::io::Cursor::new(&mut bytes),
        image::ImageFormat::Png,
    );
    match written {
        Ok(()) => Ok(bytes),
        Err(e) => Err(e.to_string()),
    }
}

/// The PNG image of a QR code that holds `payload` (a user's proxy link).
pub fn build_user_qr_png_bytes(payload: &str) -> (r: Result<Vec<u8>, String>)
    ensures
        bytes_result_view(r) == qr_png(payload@),
{
    render_qr_png(payload)
}

/// Escaped text holds no '<' or '>' of its own: nothing in it can open or
/// close an HTML tag.
pub proof fn lemma_escaped_has_no_tags(s: Seq<char>)
    ensures
        forall|i: int| 0 <= i < html_escaped(s).len() ==> #[trigger] html_escaped(s)[i] != '<' && html_escaped(s)[i] != '>',
    decreases s.len(),
{
    reveal_strlit("&amp;");
    reveal_strlit("&lt;");
    reveal_strlit("&gt;");
    if s.len() > 0 {
        lemma_escaped_has_no_tags(s.drop_last());
        let head = html_escaped(s.drop_last());
        let tail = escape_char(s.last());
        assert(html_escaped(s) == head + tail);
        assert forall|i: int| 0 <= i < html_escaped(s).len() implies #[trigger] html_escaped(s)[i] != '<' && html_escaped(s)[i] != '>' by {
            if i < head.len() {
                assert(html_escaped(s)[i] == head[i]);
            } else {
                assert(html_escaped(s)[i] == tail[i - head.len()]);
            }
        }
    }
}

} // verus!
