//! Slash commands: telling which command a message holds, reading its
//! arguments and deciding what each command does.

use vstd::prelude::*;

use crate::callback_data::ServiceAction;
use crate::config::SecurityConfig;
use crate::db::InviteToken;
use crate::format::opt_view;
use crate::shared::{run_end, word_end};
use crate::text::{
    is_ws_exec, lemma_ws_end_bounds, lit, parse_i64, parse_i64_spec, push_i64, push_str,
    str_chars, string_from_chars, string_views, ws_end,
};

verus! {

// ---------------------------------------------------------------------
// Words of a message
// ---------------------------------------------------------------------

pub proof fn lemma_word_end_bounds(s: Seq<char>, i: int)
    requires
        0 <= i <= s.len(),
    ensures
        i <= word_end(s, i) <= s.len(),
        i < s.len() && !crate::text::is_ws(s[i]) ==> i < word_end(s, i),
        forall|k: int| i <= k < word_end(s, i) ==> !crate::text::is_ws(#[trigger] s[k]),
    decreases s.len() - i,
{
    if i < s.len() && !crate::text::is_ws(s[i]) {
        lemma_word_end_bounds(s, i + 1);
    }
}

/// The whitespace-separated words of `s` from index `i` on (`split_whitespace`).
pub open spec fn words_from(s: Seq<char>, i: int) -> Seq<Seq<char>>
    decreases s.len() - i,
    when 0 <= i <= s.len()
{
    let a = ws_end(s, i);
    proof {
        lemma_ws_end_bounds(s, i);
    }
    if a >= s.len() {
        Seq::<Seq<char>>::empty()
    } else {
        let b = word_end(s, a);
        proof {
            lemma_word_end_bounds(s, a);
        }
        seq![s.subrange(a, b)] + words_from(s, b)
    }
}

pub open spec fn words(s: Seq<char>) -> Seq<Seq<char>> {
    words_from(s, 0)
}

/// `text.split_whitespace()` collected.
pub fn split_words(text: &str) -> (r: Vec<String>)
    ensures
        string_views(r@) == words(text@),
{
    let v = str_chars(text);
    let n = v.len();
    let mut out: Vec<String> = Vec::new();
    let mut i: usize = 0;
    while i < n
        invariant
            v@ == text@,
            n == v@.len(),
            i <= n,
            string_views(out@) + words_from(v@, i as int) == words(v@),
        decreases n - i,
    {
        let ghost before = i as int;
        let mut a = i;
        while a < n && is_ws_exec(v[a])
            invariant
                v@ == text@,
                n == v@.len(),
                i <= a <= n,
                ws_end(v@, i as int) == ws_end(v@, a as int),
            decreases n - a,
        {
            a = a + 1;
        }
        proof {
            lemma_ws_end_bounds(v@, before);
        }
        if a >= n {
            assert(words_from(v@, before) =~= Seq::<Seq<char>>::empty());
            assert(string_views(out@) =~= string_views(out@) + words_from(v@, before));
            i = n;
            assert(words_from(v@, n as int) =~= Seq::<Seq<char>>::empty());
            assert(string_views(out@) + words_from(v@, i as int) =~= string_views(out@));
        } else {
            let mut b = a;
            while b < n && !is_ws_exec(v[b])
                invariant
                    v@ == text@,
                    n == v@.len(),
                    a <= b <= n,
                    word_end(v@, a as int) == word_end(v@, b as int),
                decreases n - b,
            {
                b = b + 1;
            }
            proof {
                lemma_word_end_bounds(v@, a as int);
            }
            let mut w: Vec<char> = Vec::new();
            for k in a..b
                invariant
                    a <= k <= b,
                    b <= v@.len(),
                    w@ == v@.subrange(a as int, k as int),
            {
                w.push(v[k]);
                assert(v@.subrange(a as int, k + 1) =~= v@.subrange(a as int, k as int).push(
                    v@[k as int],
                ));
            }
            let ghost old_out = string_views(out@);
            out.push(string_from_chars(w.as_slice()));
            assert(string_views(out@) =~= old_out.push(v@.subrange(a as int, b as int)));
            assert(words_from(v@, before) =~= seq![v@.subrange(a as int, b as int)] + words_from(
                v@,
                b as int,
            ));
            assert(old_out + words_from(v@, before) =~= string_views(out@) + words_from(
                v@,
                b as int,
            ));
            i = b;
        }
    }
    assert(words_from(v@, n as int) =~= Seq::<Seq<char>>::empty());
    assert(string_views(out@) =~= string_views(out@) + words_from(v@, n as int));
    out
}

// ---------------------------------------------------------------------
// Which command
// ---------------------------------------------------------------------

/// Index of the first `c` at or after `i` (or the length).
pub open spec fn find_char(s: Seq<char>, c: char, i: int) -> int
    decreases s.len() - i,
{
    if i < s.len() && s[i] != c {
        find_char(s, c, i + 1)
    } else {
        i
    }
}

pub proof fn lemma_find_char_bounds(s: Seq<char>, c: char, i: int)
    requires
        0 <= i <= s.len(),
    ensures
        i <= find_char(s, c, i) <= s.len(),
        find_char(s, c, i) < s.len() ==> s[find_char(s, c, i)] == c,
    decreases s.len() - i,
{
    if i < s.len() && s[i] != c {
        lemma_find_char_bounds(s, c, i + 1);
    }
}

/// The code of a character with ASCII capitals taken as small letters.
pub open spec fn ascii_fold(c: char) -> u32 {
    if 'A' <= c && c <= 'Z' {
        ((c as u32) + 32) as u32
    } else {
        c as u32
    }
}

/// `str::eq_ignore_ascii_case`.
pub open spec fn eq_ignore_ascii_case(a: Seq<char>, b: Seq<char>) -> bool {
    a.len() == b.len() && forall|i: int| 0 <= i < a.len() ==> ascii_fold(a[i]) == ascii_fold(b[i])
}

fn ascii_fold_exec(c: char) -> (r: u32)
    ensures
        r == ascii_fold(c),
{
    if 'A' <= c && c <= 'Z' {
        (c as u32) + 32
    } else {
        c as u32
    }
}

fn eq_ignore_ascii_case_chars(a: &[char], b: &[char]) -> (r: bool)
    ensures
        r == eq_ignore_ascii_case(a@, b@),
{
    if a.len() != b.len() {
        return false;
    }
    for i in 0..a.len()
        invariant
            a@.len() == b@.len(),
            forall|j: int| 0 <= j < i ==> ascii_fold(a@[j]) == ascii_fold(b@[j]),
    {
        if ascii_fold_exec(a[i]) != ascii_fold_exec(b[i]) {
            return false;
        }
    }
    true
}

/// The command a message starts with: its first word without the leading
/// '/', cut at the first '@'; a command addressed to another bot (by a
/// mention that differs from `bot_username` beyond ASCII case) is none.
pub open spec fn command_name(text: Seq<char>, bot_username: Option<Seq<char>>) -> Option<Seq<char>> {
    let ws = words(text);
    if ws.len() == 0 || ws[0][0] != '/' {
        None
    } else {
        let cmd = ws[0].drop_first();
        let k = find_char(cmd, '@', 0);
        if k < cmd.len() {
            match bot_username {
                Some(u) => if eq_ignore_ascii_case(cmd.skip(k + 1), u.skip(run_end(u, '@', 0))) {
                    Some(cmd.take(k))
                } else {
                    None
                },
                None => Some(cmd.take(k)),
            }
        } else {
            Some(cmd)
        }
    }
}

fn sub_chars(v: &[char], a: usize, b: usize) -> (r: Vec<char>)
    requires
        a <= b <= v@.len(),
    ensures
        r@ == v@.subrange(a as int, b as int),
{
    let mut r: Vec<char> = Vec::new();
    for k in a..b
        invariant
            a <= k <= b,
            b <= v@.len(),
            r@ == v@.subrange(a as int, k as int),
    {
        r.push(v[k]);
        assert(v@.subrange(a as int, k + 1) =~= v@.subrange(a as int, k as int).push(v@[k as int]));
    }
    r
}

pub fn extract_command_name(text: &str, bot_username: Option<&str>) -> (r: Option<String>)
    ensures
        opt_view(r) == command_name(
            text@,
            match bot_username {
                Some(u) => Some(u@),
                None => None,
            },
        ),
{
    let ws = split_words(text);
    if ws.len() == 0 {
        return None;
    }
    let first = str_chars(ws[0].as_str());
    proof {
        assert(string_views(ws@)[0] == ws@[0]@);
        lemma_nonempty_word(text@);
    }
    if first[0] != '/' {
        return None;
    }
    let cmd = sub_chars(first.as_slice(), 1, first.len());
    assert(cmd@ =~= first@.drop_first());
    let mut k: usize = 0;
    while k < cmd.len() && cmd[k] != '@'
        invariant
            k <= cmd@.len(),
            find_char(cmd@, '@', 0) == find_char(cmd@, '@', k as int),
        decreases cmd@.len() - k,
    {
        k = k + 1;
    }
    if k < cmd.len() {
        let name = sub_chars(cmd.as_slice(), 0, k);
        assert(name@ =~= cmd@.take(k as int));
        match bot_username {
            Some(u) => {
                let uv = str_chars(u);
                let mut a: usize = 0;
                while a < uv.len() && uv[a] == '@'
                    invariant
                        uv@ == u@,
                        a <= uv@.len(),
                        run_end(uv@, '@', 0) == run_end(uv@, '@', a as int),
                    decreases uv@.len() - a,
                {
                    a = a + 1;
                }
                let plain = sub_chars(uv.as_slice(), a, uv.len());
                assert(plain@ =~= uv@.skip(a as int));
                let mention = sub_chars(cmd.as_slice(), k + 1, cmd.len());
                assert(mention@ =~= cmd@.skip(k + 1));
                if eq_ignore_ascii_case_chars(mention.as_slice(), plain.as_slice()) {
                    Some(string_from_chars(name.as_slice()))
                } else {
                    None
                }
            },
            None => Some(string_from_chars(name.as_slice())),
        }
    } else {
        Some(string_from_chars(cmd.as_slice()))
    }
}

/// Every word is non-empty.
pub proof fn lemma_words_nonempty(s: Seq<char>, i: int)
    requires
        0 <= i <= s.len(),
    ensures
        forall|j: int| 0 <= j < words_from(s, i).len() ==> #[trigger] words_from(s, i)[j].len() > 0,
    decreases s.len() - i,
{
    lemma_ws_end_bounds(s, i);
    let a = ws_end(s, i);
    if a < s.len() {
        lemma_word_end_bounds(s, a);
        let b = word_end(s, a);
        lemma_words_nonempty(s, b);
        let rest = words_from(s, b);
        assert(words_from(s, i) == seq![s.subrange(a, b)] + rest);
        assert forall|j: int| 0 <= j < words_from(s, i).len() implies #[trigger] words_from(s, i)[j].len() > 0 by {
            if j > 0 {
                assert(words_from(s, i)[j] == rest[j - 1]);
            }
        }
    }
}

proof fn lemma_nonempty_word(s: Seq<char>)
    requires
        words(s).len() > 0,
    ensures
        words(s)[0].len() > 0,
{
    lemma_words_nonempty(s, 0);
}

/// The commands the bot knows.
#[derive(Debug, Clone, Copy, PartialEq, Eq, Structural)]
pub enum CommandKind {
    Start,
    Link,
    Help,
    Approve,
    Reject,
    Create,
    Delete,
    Service,
    Token,
    Unknown,
}

pub open spec fn command_kind_spec(name: Seq<char>) -> CommandKind {
    if name == "start"@ {
        CommandKind::Start
    } else if name == "link"@ {
        CommandKind::Link
    } else if name == "help"@ {
        CommandKind::Help
    } else if name == "approve"@ {
        CommandKind::Approve
    } else if name == "reject"@ {
        CommandKind::Reject
    } else if name == "create"@ {
        CommandKind::Create
    } else if name == "delete"@ {
        CommandKind::Delete
    } else if name == "service"@ {
        CommandKind::Service
    } else if name == "token"@ {
        CommandKind::Token
    } else {
        CommandKind::Unknown
    }
}

/// Which command a command name stands for.
pub fn command_kind(name: &str) -> (r: CommandKind)
    ensures
        r == command_kind_spec(name@),
{
    let v = str_chars(name);
    if crate::text::chars_eq_str(v.as_slice(), "start") {
        CommandKind::Start
    } else if crate::text::chars_eq_str(v.as_slice(), "link") {
        CommandKind::Link
    } else if crate::text::chars_eq_str(v.as_slice(), "help") {
        CommandKind::Help
    } else if crate::text::chars_eq_str(v.as_slice(), "approve") {
        CommandKind::Approve
    } else if crate::text::chars_eq_str(v.as_slice(), "reject") {
        CommandKind::Reject
    } else if crate::text::chars_eq_str(v.as_slice(), "create") {
        CommandKind::Create
    } else if crate::text::chars_eq_str(v.as_slice(), "delete") {
        CommandKind::Delete
    } else if crate::text::chars_eq_str(v.as_slice(), "service") {
        CommandKind::Service
    } else if crate::text::chars_eq_str(v.as_slice(), "token") {
        CommandKind::Token
    } else {
        CommandKind::Unknown
    }
}

// ---------------------------------------------------------------------
// /help and simple arguments
// ---------------------------------------------------------------------

pub open spec fn admin_help() -> Seq<char> {
    "Команды:\n/start — открыть главный экран администратора\n/help — показать эту справку\n/service — открыть панель управления сервисом\n/token — открыть мастер invite-токенов\n/create — запустить создание пользователя\n/delete — запустить удаление пользователя\n/approve <id> — быстро одобрить заявку\n/reject <id> — быстро отклонить заявку\n\nПодсказка:\n- сложные сценарии запускаются через slash-команды и продолжаются inline-кнопками;\n- старые аргументы `/service ...` и `/token ...` по-прежнему поддерживаются."@
}

pub open spec fn user_help() -> Seq<char> {
    "Команды:\n/start — начать регистрацию или открыть главный экран\n/link — получить ссылку на прокси\n/help — показать справку\n\nДальше бот сам подскажет, какой шаг нужен: ввести invite-токен, дождаться одобрения или забрать ссылку."@
}

/// The answer to /help: the administrator's list of commands, or the user's.
pub fn help_text(is_admin: bool) -> (r: &'static str)
    ensures
        r@ == (if is_admin {
            admin_help()
        } else {
            user_help()
        }),
{
    if is_admin {
        "Команды:\n/start — открыть главный экран администратора\n/help — показать эту справку\n/service — открыть панель управления сервисом\n/token — открыть мастер invite-токенов\n/create — запустить создание пользователя\n/delete — запустить удаление пользователя\n/approve <id> — быстро одобрить заявку\n/reject <id> — быстро отклонить заявку\n\nПодсказка:\n- сложные сценарии запускаются через slash-команды и продолжаются inline-кнопками;\n- старые аргументы `/service ...` и `/token ...` по-прежнему поддерживаются."
    } else {
        "Команды:\n/start — начать регистрацию или открыть главный экран\n/link — получить ссылку на прокси\n/help — показать справку\n\nДальше бот сам подскажет, какой шаг нужен: ввести invite-токен, дождаться одобрения или забрать ссылку."
    }
}

/// The second word of a message, the first argument of its command.
pub fn command_argument(text: &str) -> (r: Option<String>)
    ensures
        opt_view(r) == (if words(text@).len() > 1 {
            Some(words(text@)[1])
        } else {
            None
        }),
{
    let mut ws = split_words(text);
    if ws.len() > 1 {
        proof {
            assert(string_views(ws@)[1] == ws@[1]@);
        }
        Some(ws.remove(1))
    } else {
        None
    }
}

/// The numeric id given after /approve or /reject; none when missing or not a number.
pub fn command_id_argument(text: &str) -> (r: Option<i64>)
    ensures
        r == (if words(text@).len() > 1 {
            parse_i64_spec(words(text@)[1])
        } else {
            None
        }),
{
    match command_argument(text) {
        Some(arg) => {
            let v = str_chars(arg.as_str());
            parse_i64(v.as_slice())
        },
        None => None,
    }
}

/// What /delete does.
#[derive(Debug, Clone, Copy, PartialEq, Eq, Structural)]
pub enum DeleteCommand {
    /// Ask to confirm deleting this Telegram user.
    Confirm(i64),
    /// Answer with the usage line: the argument is not a number.
    Usage,
    /// Ask for the user to delete in the next message.
    Prompt,
}

pub open spec fn delete_command_spec(text: Seq<char>) -> DeleteCommand {
    let ws = words(text);
    if ws.len() > 1 {
        match parse_i64_spec(ws[1]) {
            Some(id) => DeleteCommand::Confirm(id),
            None => DeleteCommand::Usage,
        }
    } else {
        DeleteCommand::Prompt
    }
}

pub fn delete_command(text: &str) -> (r: DeleteCommand)
    ensures
        r == delete_command_spec(text@),
{
    match command_argument(text) {
        Some(arg) => {
            let v = str_chars(arg.as_str());
            match parse_i64(v.as_slice()) {
                Some(id) => DeleteCommand::Confirm(id),
                None => DeleteCommand::Usage,
            }
        },
        None => DeleteCommand::Prompt,
    }
}

/// What /service does.
#[derive(Debug, Clone, Copy, PartialEq, Eq, Structural)]
pub enum ServiceCommand {
    /// Open the service panel.
    ShowPanel,
    /// Run this action on the service.
    Run(ServiceAction),
    /// Answer with the usage line: the action is unknown.
    Usage,
}

pub open spec fn service_command_spec(text: Seq<char>) -> ServiceCommand {
    let ws = words(text);
    if ws.len() > 1 {
        match ServiceAction::parse_spec(ws[1]) {
            Some(a) => ServiceCommand::Run(a),
            None => ServiceCommand::Usage,
        }
    } else {
        ServiceCommand::ShowPanel
    }
}

pub fn service_command(text: &str) -> (r: ServiceCommand)
    ensures
        r == service_command_spec(text@),
{
    match command_argument(text) {
        Some(arg) => match ServiceAction::parse(arg.as_str()) {
            Some(a) => ServiceCommand::Run(a),
            None => ServiceCommand::Usage,
        },
        None => ServiceCommand::ShowPanel,
    }
}

// ---------------------------------------------------------------------
// Creating invite tokens from text
// ---------------------------------------------------------------------

/// The options of a token request: its period in days, automatic approval
/// and the usage limit.
#[derive(Debug, Clone, Copy, PartialEq, Eq, Structural)]
pub struct TokenArgs {
    pub days: Option<i64>,
    pub auto_approve: bool,
    pub max_uses: Option<i64>,
}

/// Why the options of a token request cannot be read.
#[derive(Debug, Clone, Copy, PartialEq, Eq, Structural)]
pub enum TokenArgsError {
    /// "--max-uses" is the last word.
    MissingMaxUsesValue,
    /// The value after "--max-uses" is not a whole number of at least 1.
    InvalidMaxUses,
    /// A second number of days.
    RepeatedDays,
    /// A word that is neither an option nor a number.
    UnknownWord,
}

/// Reads the words from `i` on: "--auto"/"-a" (where `accept_auto`) turns on
/// automatic approval, "--max-uses N" sets the limit, a number sets the
/// days (once); anything else is refused.
pub open spec fn token_args_from(
    ws: Seq<Seq<char>>,
    i: int,
    accept_auto: bool,
    acc: TokenArgs,
) -> Result<TokenArgs, TokenArgsError>
    decreases ws.len() - i,
    when 0 <= i
{
    if i >= ws.len() {
        Ok(acc)
    } else if accept_auto && (ws[i] == "--auto"@ || ws[i] == "-a"@) {
        token_args_from(ws, i + 1, accept_auto, TokenArgs { auto_approve: true, ..acc })
    } else if ws[i] == "--max-uses"@ {
        if i + 1 >= ws.len() {
            Err(TokenArgsError::MissingMaxUsesValue)
        } else {
            match parse_i64_spec(ws[i + 1]) {
                Some(v) => if v >= 1 {
                    token_args_from(ws, i + 2, accept_auto, TokenArgs { max_uses: Some(v), ..acc })
                } else {
                    Err(TokenArgsError::InvalidMaxUses)
                },
                None => Err(TokenArgsError::InvalidMaxUses),
            }
        }
    } else {
        match parse_i64_spec(ws[i]) {
            Some(d) => if acc.days is Some {
                Err(TokenArgsError::RepeatedDays)
            } else {
                token_args_from(ws, i + 1, accept_auto, TokenArgs { days: Some(d), ..acc })
            },
            None => Err(TokenArgsError::UnknownWord),
        }
    }
}

pub open spec fn no_token_args() -> TokenArgs {
    TokenArgs { days: None, auto_approve: false, max_uses: None }
}

/// Reads the options of a token request from the words `ws[start..]`.
pub fn parse_token_args(ws: &Vec<String>, start: usize, accept_auto: bool) -> (r: Result<
    TokenArgs,
    TokenArgsError,
>)
    ensures
        r == token_args_from(string_views(ws@), start as int, accept_auto, no_token_args()),
{
    let ghost sv = string_views(ws@);
    let mut acc = TokenArgs { days: None, auto_approve: false, max_uses: None };
    let mut i = start;
    while i < ws.len()
        invariant
            sv == string_views(ws@),
            sv.len() == ws@.len(),
            start <= i,
            token_args_from(sv, start as int, accept_auto, no_token_args()) == token_args_from(
                sv,
                i as int,
                accept_auto,
                acc,
            ),
        decreases ws@.len() - i,
    {
        let w = str_chars(ws[i].as_str());
        assert(w@ == sv[i as int]);
        if accept_auto && (crate::text::chars_eq_str(w.as_slice(), "--auto")
            || crate::text::chars_eq_str(w.as_slice(), "-a")) {
            acc = TokenArgs { auto_approve: true, ..acc };
            i = i + 1;
        } else if crate::text::chars_eq_str(w.as_slice(), "--max-uses") {
            if i + 1 >= ws.len() {
                return Err(TokenArgsError::MissingMaxUsesValue);
            }
            let value = str_chars(ws[i + 1].as_str());
            assert(value@ == sv[i + 1]);
            match parse_i64(value.as_slice()) {
                Some(v) => {
                    if v >= 1 {
                        acc = TokenArgs { max_uses: Some(v), ..acc };
                        i = i + 2;
                    } else {
                        return Err(TokenArgsError::InvalidMaxUses);
                    }
                },
                None => {
                    return Err(TokenArgsError::InvalidMaxUses);
                },
            }
        } else {
            match parse_i64(w.as_slice()) {
                Some(d) => {
                    if acc.days.is_some() {
                        return Err(TokenArgsError::RepeatedDays);
                    }
                    acc = TokenArgs { days: Some(d), ..acc };
                    i = i + 1;
                },
                None => {
                    return Err(TokenArgsError::UnknownWord);
                },
            }
        }
    }
    Ok(acc)
}

/// Why a token request is refused after its options were read.
#[derive(Debug, Clone, Copy, PartialEq, Eq, Structural)]
pub enum TokenRequestError {
    /// Fewer than one day.
    TooShort,
    /// More days than the configured maximum (given).
    TooLong(i64),
    /// Automatic approval asked for while the configuration forbids it.
    AutoApproveForbidden,
}

impl TokenRequestError {
    pub open spec fn text(self) -> Seq<char> {
        match self {
            TokenRequestError::TooShort => "Срок действия должен быть не меньше 1 дня."@,
            TokenRequestError::TooLong(max) => "Нельзя создать токен на срок больше "@ + crate::text::int_str(
                max as int,
            ) + " дней."@,
            TokenRequestError::AutoApproveForbidden => "Автоподтверждение токенов запрещено в конфигурации."@,
        }
    }

    pub fn message(self) -> (r: String)
        ensures
            r@ == self.text(),
    {
        match self {
            TokenRequestError::TooShort => lit("Срок действия должен быть не меньше 1 дня."),
            TokenRequestError::TooLong(max) => {
                let mut s = lit("Нельзя создать токен на срок больше ");
                push_i64(&mut s, max);
                push_str(&mut s, " дней.");
                s
            },
            TokenRequestError::AutoApproveForbidden => lit(
                "Автоподтверждение токенов запрещено в конфигурации.",
            ),
        }
    }
}

/// The period of a new token: the days given, else the configured default;
/// at least one day and at most the configured maximum.
pub open spec fn token_days(days: Option<i64>, sec: SecurityConfig) -> Result<i64, TokenRequestError> {
    let d = match days {
        Some(d) => d,
        None => sec.default_token_days,
    };
    if d < 1 {
        Err(TokenRequestError::TooShort)
    } else if d > sec.max_token_days {
        Err(TokenRequestError::TooLong(sec.max_token_days))
    } else {
        Ok(d)
    }
}

pub fn check_token_days(days: Option<i64>, sec: &SecurityConfig) -> (r: Result<i64, TokenRequestError>)
    ensures
        r == token_days(days, *sec),
{
    let d = match days {
        Some(d) => d,
        None => sec.default_token_days,
    };
    if d < 1 {
        Err(TokenRequestError::TooShort)
    } else if d > sec.max_token_days {
        Err(TokenRequestError::TooLong(sec.max_token_days))
    } else {
        Ok(d)
    }
}

pub open spec fn token_usage_line() -> Seq<char> {
    "Использование: /token create [days] [--auto|-a] [--max-uses N]"@
}

/// The answer to unreadable options of "/token create".
pub open spec fn command_args_error_text(e: TokenArgsError) -> Seq<char> {
    match e {
        TokenArgsError::InvalidMaxUses => "Параметр --max-uses должен быть целым числом >= 1."@,
        _ => token_usage_line(),
    }
}

/// The answer to unreadable options typed into the token wizard.
pub open spec fn wizard_args_error_text(e: TokenArgsError) -> Seq<char> {
    match e {
        TokenArgsError::MissingMaxUsesValue => "Формат: [days] [--max-uses N]\nНапример: 7 --max-uses 3 или пустое сообщение для значений по умолчанию."@,
        TokenArgsError::InvalidMaxUses => "Параметр --max-uses должен быть >= 1."@,
        TokenArgsError::RepeatedDays => "Срок действия можно указать только один раз."@,
        TokenArgsError::UnknownWord => "Формат: [days] [--max-uses N]\nНапример: 7 --max-uses 3."@,
    }
}

fn command_args_error_message(e: TokenArgsError) -> (r: String)
    ensures
        r@ == command_args_error_text(e),
{
    match e {
        TokenArgsError::InvalidMaxUses => lit("Параметр --max-uses должен быть целым числом >= 1."),
        _ => lit("Использование: /token create [days] [--auto|-a] [--max-uses N]"),
    }
}

fn wizard_args_error_message(e: TokenArgsError) -> (r: String)
    ensures
        r@ == wizard_args_error_text(e),
{
    match e {
        TokenArgsError::MissingMaxUsesValue => lit(
            "Формат: [days] [--max-uses N]\nНапример: 7 --max-uses 3 или пустое сообщение для значений по умолчанию.",
        ),
        TokenArgsError::InvalidMaxUses => lit("Параметр --max-uses должен быть >= 1."),
        TokenArgsError::RepeatedDays => lit("Срок действия можно указать только один раз."),
        TokenArgsError::UnknownWord => lit("Формат: [days] [--max-uses N]\nНапример: 7 --max-uses 3."),
    }
}

/// A token to create: its period, approval mode and usage limit.
#[derive(Debug, Clone, Copy, PartialEq, Eq, Structural)]
pub struct TokenRequest {
    pub days: i64,
    pub auto_approve: bool,
    pub max_uses: Option<i64>,
}

/// "/token create ...": the request, or the text to answer with.
pub open spec fn command_token_request(ws: Seq<Seq<char>>, sec: SecurityConfig) -> Result<
    TokenRequest,
    Seq<char>,
> {
    match token_args_from(ws, 2, true, no_token_args()) {
        Err(e) => Err(command_args_error_text(e)),
        Ok(a) => match token_days(a.days, sec) {
            Err(e) => Err(e.text()),
            Ok(d) => if a.auto_approve && !sec.allow_auto_approve_tokens {
                Err(TokenRequestError::AutoApproveForbidden.text())
            } else {
                Ok(TokenRequest { days: d, auto_approve: a.auto_approve, max_uses: a.max_uses })
            },
        },
    }
}

/// Options typed into the token wizard: the request, or the text to answer
/// with; automatic approval is checked first.
pub open spec fn wizard_token_request(auto_approve: bool, text: Seq<char>, sec: SecurityConfig) -> Result<
    TokenRequest,
    Seq<char>,
> {
    if auto_approve && !sec.allow_auto_approve_tokens {
        Err(TokenRequestError::AutoApproveForbidden.text())
    } else {
        match token_args_from(words(text), 0, false, no_token_args()) {
            Err(e) => Err(wizard_args_error_text(e)),
            Ok(a) => match token_days(a.days, sec) {
                Err(e) => Err(e.text()),
                Ok(d) => Ok(TokenRequest { days: d, auto_approve, max_uses: a.max_uses }),
            },
        }
    }
}

pub open spec fn request_view(r: Result<TokenRequest, String>) -> Result<TokenRequest, Seq<char>> {
    match r {
        Ok(t) => Ok(t),
        Err(m) => Err(m@),
    }
}

/// Reads the options typed into the token wizard (`handle_token_create_from_text`).
pub fn token_request_from_text(auto_approve: bool, text: &str, sec: &SecurityConfig) -> (r: Result<
    TokenRequest,
    String,
>)
    ensures
        request_view(r) == wizard_token_request(auto_approve, text@, *sec),
{
    if auto_approve && !sec.allow_auto_approve_tokens {
        return Err(TokenRequestError::AutoApproveForbidden.message());
    }
    let ws = split_words(text);
    match parse_token_args(&ws, 0, false) {
        Err(e) => Err(wizard_args_error_message(e)),
        Ok(a) => match check_token_days(a.days, sec) {
            Err(e) => Err(e.message()),
            Ok(d) => Ok(TokenRequest { days: d, auto_approve, max_uses: a.max_uses }),
        },
    }
}

/// What /token does.
#[derive(Debug, Clone, PartialEq, Eq)]
pub enum TokenCommand {
    /// Open the token menu.
    ShowMenu,
    /// Create a token.
    Create(TokenRequest),
    /// List the active tokens.
    List,
    /// Revoke the token with this code.
    Revoke(String),
    /// Answer with this text.
    Reply(String),
}

pub open spec fn token_usage_all() -> Seq<char> {
    "Использование:\n/token create [days] [--auto|-a] [--max-uses N]\n/token list\n/token revoke <token>"@
}

/// Decides what "/token ..." does from its words.
pub fn token_command(text: &str, sec: &SecurityConfig) -> (r: TokenCommand)
    ensures
        ({
            let ws = words(text@);
            match r {
                TokenCommand::ShowMenu => ws.len() <= 1,
                TokenCommand::Create(req) => ws.len() > 1 && ws[1] == "create"@
                    && command_token_request(ws, *sec) == Ok::<TokenRequest, Seq<char>>(req),
                TokenCommand::List => ws.len() > 1 && ws[1] == "list"@,
                TokenCommand::Revoke(code) => ws.len() > 2 && ws[1] == "revoke"@ && code@ == ws[2],
                TokenCommand::Reply(m) => ws.len() > 1 && (if ws[1] == "create"@ {
                    command_token_request(ws, *sec) == Err::<TokenRequest, Seq<char>>(m@)
                } else if ws[1] == "list"@ {
                    false
                } else if ws[1] == "revoke"@ {
                    ws.len() == 2 && m@ == "Использование: /token revoke <token>"@
                } else {
                    m@ == token_usage_all()
                }),
            }
        }),
{
    let ws = split_words(text);
    let ghost sv = string_views(ws@);
    if ws.len() <= 1 {
        return TokenCommand::ShowMenu;
    }
    let sub = str_chars(ws[1].as_str());
    assert(sub@ == sv[1]);
    if crate::text::chars_eq_str(sub.as_slice(), "create") {
        match parse_token_args(&ws, 2, true) {
            Err(e) => TokenCommand::Reply(command_args_error_message(e)),
            Ok(a) => match check_token_days(a.days, sec) {
                Err(e) => TokenCommand::Reply(e.message()),
                Ok(d) => if a.auto_approve && !sec.allow_auto_approve_tokens {
                    TokenCommand::Reply(TokenRequestError::AutoApproveForbidden.message())
                } else {
                    TokenCommand::Create(
                        TokenRequest { days: d, auto_approve: a.auto_approve, max_uses: a.max_uses },
                    )
                },
            },
        }
    } else if crate::text::chars_eq_str(sub.as_slice(), "list") {
        TokenCommand::List
    } else if crate::text::chars_eq_str(sub.as_slice(), "revoke") {
        if ws.len() > 2 {
            proof {
                assert(sv[2] == ws@[2]@);
            }
            let code = ws[2].clone();
            TokenCommand::Revoke(code)
        } else {
            TokenCommand::Reply(lit("Использование: /token revoke <token>"))
        }
    } else {
        TokenCommand::Reply(
            lit(
                "Использование:\n/token create [days] [--auto|-a] [--max-uses N]\n/token list\n/token revoke <token>",
            ),
        )
    }
}

pub open spec fn str_opt_view(o: Option<&str>) -> Option<Seq<char>> {
    match o {
        Some(b) => Some(b@),
        None => None,
    }
}

/// The line with the invite link, or why there is none.
pub open spec fn link_line(bot_username: Option<Seq<char>>, code: Seq<char>) -> Seq<char> {
    match bot_username {
        Some(b) => "Ссылка: "@ + crate::shared::bot_start_link(b, code) + "\n"@,
        None => "Ссылка: недоступна (у бота не задан username в Telegram).\n"@,
    }
}

/// The answer after a token was created from a command (`from_wizard` false)
/// or from the wizard; `expires` is its last day, already rendered.
pub open spec fn token_created_text(
    t: InviteToken,
    bot_username: Option<Seq<char>>,
    expires: Seq<char>,
    from_wizard: bool,
) -> Seq<char> {
    "✅ Токен создан:\nКод: <code>"@ + t.token@ + "</code>\n"@ + link_line(bot_username, t.token@)
        + "Режим: "@ + (if t.auto_approve {
        "АВТОПОДТВЕРЖДЕНИЕ 🚀"@
    } else {
        "Ручной ✅"@
    }) + "\nДействует до: "@ + expires + "\nЛимит использований: "@ + match t.max_usage {
        Some(m) => crate::text::int_str(m as int),
        None => "без лимита"@,
    } + (if from_wizard {
        "\nДля отзыва используйте `/token` -> «Отозвать токен» или старую команду <code>/token revoke "@
            + t.token@ + "</code>."@
    } else {
        "\nИспользуйте команду <code>/token revoke "@ + t.token@ + "</code> для отзыва."@
    })
}

pub fn token_created_text_with(
    token: &InviteToken,
    bot_username: Option<&str>,
    expires: &str,
    from_wizard: bool,
) -> (r: String)
    ensures
        r@ == token_created_text(
            *token,
            match bot_username {
                Some(b) => Some(b@),
                None => None,
            },
            expires@,
            from_wizard,
        ),
{
    let mut s = lit("✅ Токен создан:\nКод: <code>");
    push_str(&mut s, token.token.as_str());
    push_str(&mut s, "</code>\n");
    match bot_username {
        Some(b) => {
            push_str(&mut s, "Ссылка: ");
            let link = crate::shared::build_bot_start_link(b, token.token.as_str());
            push_str(&mut s, link.as_str());
            push_str(&mut s, "\n");
        },
        None => push_str(&mut s, "Ссылка: недоступна (у бота не задан username в Telegram).\n"),
    }
    push_str(&mut s, "Режим: ");
    push_str(&mut s, crate::format::format_mode(token.auto_approve));
    push_str(&mut s, "\nДействует до: ");
    push_str(&mut s, expires);
    push_str(&mut s, "\nЛимит использований: ");
    match token.max_usage {
        Some(m) => push_i64(&mut s, m),
        None => push_str(&mut s, "без лимита"),
    }
    if from_wizard {
        push_str(
            &mut s,
            "\nДля отзыва используйте `/token` -> «Отозвать токен» или старую команду <code>/token revoke ",
        );
        push_str(&mut s, token.token.as_str());
        push_str(&mut s, "</code>.");
    } else {
        push_str(&mut s, "\nИспользуйте команду <code>/token revoke ");
        push_str(&mut s, token.token.as_str());
        push_str(&mut s, "</code> для отзыва.");
    }
    assert(s@ =~= token_created_text(
        *token,
        match bot_username {
            Some(b) => Some(b@),
            None => None,
        },
        expires@,
        from_wizard,
    ));
    s
}

/// The answer after a token was created; its last day is rendered in the
/// machine's time zone.
pub fn token_created_message(token: &InviteToken, bot_username: Option<&str>, from_wizard: bool) -> (r:
    String)
    ensures
        exists|e: Seq<char>|
            crate::format::date_text_of(token.expires_at, e) && r@ == #[trigger] token_created_text(
                *token,
                str_opt_view(bot_username),
                e,
                from_wizard,
            ),
{
    let expires = crate::format::format_date(token.expires_at);
    token_created_text_with(token, bot_username, expires.as_str(), from_wizard)
}

// ---------------------------------------------------------------------
// The invite-token wizard's typed parameters
// ---------------------------------------------------------------------

/// Why typed token parameters are refused while they are read.
#[derive(Debug, Clone, Copy, PartialEq, Eq, Structural)]
pub enum TokenParamsError {
    /// Something that is not a number or "--max-uses N" (or a missing N).
    Format,
    /// "--max-uses" with a value that is not a whole number of at least 1.
    MaxUsesBelowOne,
    /// A second usage limit.
    RepeatedMaxUses,
    /// More than two plain numbers.
    TooManyNumbers,
}

/// Reads the words from `i` on: "--max-uses N" sets the limit (once), plain
/// numbers are collected (at most two), anything else is refused.
pub open spec fn token_params_from(
    ws: Seq<Seq<char>>,
    i: int,
    max_uses: Option<i64>,
    numbers: Seq<i64>,
) -> Result<(Option<i64>, Seq<i64>), TokenParamsError>
    decreases ws.len() - i,
    when 0 <= i
{
    if i >= ws.len() {
        Ok((max_uses, numbers))
    } else if ws[i] == "--max-uses"@ {
        if i + 1 >= ws.len() {
            Err(TokenParamsError::Format)
        } else {
            match parse_i64_spec(ws[i + 1]) {
                Some(v) => if v < 1 {
                    Err(TokenParamsError::MaxUsesBelowOne)
                } else if max_uses is Some {
                    Err(TokenParamsError::RepeatedMaxUses)
                } else {
                    token_params_from(ws, i + 2, Some(v), numbers)
                },
                None => Err(TokenParamsError::MaxUsesBelowOne),
            }
        }
    } else {
        match parse_i64_spec(ws[i]) {
            Some(n) => if numbers.len() + 1 > 2 {
                Err(TokenParamsError::TooManyNumbers)
            } else {
                token_params_from(ws, i + 1, max_uses, numbers.push(n))
            },
            None => Err(TokenParamsError::Format),
        }
    }
}

/// How to type the parameters, with the configured default period.
pub open spec fn token_params_hint(default_days: i64) -> Seq<char> {
    "Параметры invite-токена (срок действия ссылки и лимит активаций).\nЭто не срок доступа пользователя в telemt — его задают отдельно в карточке пользователя.\n\nФормат: одно число — срок действия invite-токена в днях; или два числа: дни и максимум активаций.\nПо умолчанию: "@
        + crate::text::int_str(default_days as int)
        + " дней, лимит активаций без ограничения.\nПримеры: 7 или 7 3.\nЛимит активаций можно задать и флагом: --max-uses 3"@
}

pub open spec fn token_params_error_text(e: TokenParamsError, default_days: i64) -> Seq<char> {
    match e {
        TokenParamsError::Format => token_params_hint(default_days),
        TokenParamsError::MaxUsesBelowOne => "Лимит активаций токена должен быть не меньше 1."@,
        TokenParamsError::RepeatedMaxUses => "Лимит активаций токена можно указать только один раз."@,
        TokenParamsError::TooManyNumbers => "Укажите не больше двух чисел: срок действия invite-токена (дни) и лимит активаций."@,
    }
}

/// The parameters typed into the invite-token wizard: automatic approval is
/// checked first; an empty message takes the default period; the first plain
/// number is the period, the second the usage limit; then the period must be
/// 1 to the configured maximum and the limit at least 1.
pub open spec fn token_params(auto_approve: bool, text: Seq<char>, sec: SecurityConfig) -> Result<TokenRequest, Seq<char>> {
    let ws = words(text);
    let days0: Option<i64> = if ws.len() == 0 {
        Some(sec.default_token_days)
    } else {
        None
    };
    if auto_approve && !sec.allow_auto_approve_tokens {
        Err("Автоподтверждение токенов запрещено в конфигурации."@)
    } else {
        match token_params_from(ws, 0, None, Seq::<i64>::empty()) {
            Err(e) => Err(token_params_error_text(e, sec.default_token_days)),
            Ok((mu, nums)) => if nums.len() > 0 && days0 is Some {
                Err("Срок действия invite-токена (дни) можно указать только один раз."@)
            } else if nums.len() > 1 && mu is Some {
                Err("Лимит активаций токена можно указать только один раз."@)
            } else {
                let days: i64 = if nums.len() > 0 {
                    nums[0]
                } else {
                    match days0 {
                        Some(d) => d,
                        None => sec.default_token_days,
                    }
                };
                let max_uses: Option<i64> = if nums.len() > 1 {
                    Some(nums[1])
                } else {
                    mu
                };
                if days < 1 {
                    Err("Срок действия invite-токена (дней) должен быть не меньше 1."@)
                } else if max_uses matches Some(m) && m < 1 {
                    Err("Лимит активаций токена должен быть не меньше 1."@)
                } else if days > sec.max_token_days {
                    Err("Срок действия invite-токена не может превышать "@ + crate::text::int_str(
                        sec.max_token_days as int,
                    ) + " дней."@)
                } else {
                    Ok(TokenRequest { days, auto_approve, max_uses })
                }
            },
        }
    }
}

fn token_params_error_message(e: TokenParamsError, default_days: i64) -> (r: String)
    ensures
        r@ == token_params_error_text(e, default_days),
{
    match e {
        TokenParamsError::Format => {
            let mut s = lit(
                "Параметры invite-токена (срок действия ссылки и лимит активаций).\nЭто не срок доступа пользователя в telemt — его задают отдельно в карточке пользователя.\n\nФормат: одно число — срок действия invite-токена в днях; или два числа: дни и максимум активаций.\nПо умолчанию: ",
            );
            push_i64(&mut s, default_days);
            push_str(
                &mut s,
                " дней, лимит активаций без ограничения.\nПримеры: 7 или 7 3.\nЛимит активаций можно задать и флагом: --max-uses 3",
            );
            s
        },
        TokenParamsError::MaxUsesBelowOne => lit("Лимит активаций токена должен быть не меньше 1."),
        TokenParamsError::RepeatedMaxUses => lit("Лимит активаций токена можно указать только один раз."),
        TokenParamsError::TooManyNumbers => lit(
            "Укажите не больше двух чисел: срок действия invite-токена (дни) и лимит активаций.",
        ),
    }
}

fn read_token_params(ws: &Vec<String>) -> (r: Result<(Option<i64>, Vec<i64>), TokenParamsError>)
    ensures
        match r {
            Ok((mu, nums)) => token_params_from(string_views(ws@), 0, None, Seq::<i64>::empty()) == Ok::<(Option<i64>, Seq<i64>), TokenParamsError>((mu, nums@)),
            Err(e) => token_params_from(string_views(ws@), 0, None, Seq::<i64>::empty()) == Err::<(Option<i64>, Seq<i64>), TokenParamsError>(e),
        },
{
    let ghost sv = string_views(ws@);
    let mut max_uses: Option<i64> = None;
    let mut numbers: Vec<i64> = Vec::new();
    let mut i: usize = 0;
    while i < ws.len()
        invariant
            sv == string_views(ws@),
            sv.len() == ws@.len(),
            numbers@.len() <= 2,
            token_params_from(sv, 0, None, Seq::<i64>::empty()) == token_params_from(sv, i as int, max_uses, numbers@),
        decreases ws@.len() - i,
    {
        let w = str_chars(ws[i].as_str());
        assert(w@ == sv[i as int]);
        if crate::text::chars_eq_str(w.as_slice(), "--max-uses") {
            if i + 1 >= ws.len() {
                return Err(TokenParamsError::Format);
            }
            let value = str_chars(ws[i + 1].as_str());
            assert(value@ == sv[i + 1]);
            match parse_i64(value.as_slice()) {
                Some(v) => {
                    if v < 1 {
                        return Err(TokenParamsError::MaxUsesBelowOne);
                    }
                    if max_uses.is_some() {
                        return Err(TokenParamsError::RepeatedMaxUses);
                    }
                    max_uses = Some(v);
                    i = i + 2;
                },
                None => {
                    return Err(TokenParamsError::MaxUsesBelowOne);
                },
            }
        } else {
            match parse_i64(w.as_slice()) {
                Some(n) => {
                    if numbers.len() + 1 > 2 {
                        return Err(TokenParamsError::TooManyNumbers);
                    }
                    numbers.push(n);
                    i = i + 1;
                },
                None => {
                    return Err(TokenParamsError::Format);
                },
            }
        }
    }
    Ok((max_uses, numbers))
}

/// Reads the parameters typed into the invite-token wizard.
pub fn parse_invite_token_params(auto_approve: bool, text: &str, sec: &SecurityConfig) -> (r: Result<TokenRequest, String>)
    ensures
        request_view(r) == token_params(auto_approve, text@, *sec),
{
    let ws = split_words(text);
    let days0: Option<i64> = if ws.len() == 0 {
        Some(sec.default_token_days)
    } else {
        None
    };
    if auto_approve && !sec.allow_auto_approve_tokens {
        return Err(lit("Автоподтверждение токенов запрещено в конфигурации."));
    }
    match read_token_params(&ws) {
        Err(e) => Err(token_params_error_message(e, sec.default_token_days)),
        Ok((mu, nums)) => {
            if nums.len() > 0 && days0.is_some() {
                return Err(lit("Срок действия invite-токена (дни) можно указать только один раз."));
            }
            if nums.len() > 1 && mu.is_some() {
                return Err(lit("Лимит активаций токена можно указать только один раз."));
            }
            let days: i64 = if nums.len() > 0 {
                nums[0]
            } else {
                match days0 {
                    Some(d) => d,
                    None => sec.default_token_days,
                }
            };
            let max_uses: Option<i64> = if nums.len() > 1 {
                Some(nums[1])
            } else {
                mu
            };
            if days < 1 {
                Err(lit("Срок действия invite-токена (дней) должен быть не меньше 1."))
            } else if match max_uses {
                Some(m) => m < 1,
                None => false,
            } {
                Err(lit("Лимит активаций токена должен быть не меньше 1."))
            } else if days > sec.max_token_days {
                let mut s = lit("Срок действия invite-токена не может превышать ");
                push_i64(&mut s, sec.max_token_days);
                push_str(&mut s, " дней.");
                Err(s)
            } else {
                Ok(TokenRequest { days, auto_approve, max_uses })
            }
        },
    }
}

/// The answer after the invite-token wizard created a token; `expires` is the
/// link's last day, already rendered.
pub open spec fn invite_token_created_text(t: InviteToken, bot_username: Option<Seq<char>>, expires: Seq<char>) -> Seq<char> {
    "✅ Invite-токен создан:\nКод: <code>"@ + t.token@ + "</code>\n"@ + match bot_username {
        Some(b) => "Ссылка: "@ + crate::shared::bot_start_link(b, t.token@) + "\n"@,
        None => "Ссылка: недоступна (username бота неизвестен). Укажите `bot_username` в конфиге или `TELEMT_ADMIN__BOT_USERNAME`, если до api.telegram.org нет доступа для getMe.\n"@,
    } + "Режим: "@ + (if t.auto_approve {
        "АВТОПОДТВЕРЖДЕНИЕ 🚀"@
    } else {
        "Ручной ✅"@
    }) + "\nСрок действия ссылки (invite): до "@ + expires + "\nЛимит активаций по ссылке: "@ + (match t.max_usage {
        Some(m) => crate::text::int_str(m as int),
        None => "без лимита"@,
    }) + "\nЛимиты пользователя: "@ + crate::format::limits_text(t, ""@) + "\n"@
}

pub fn invite_token_created_text_with(token: &InviteToken, bot_username: Option<&str>, expires: &str) -> (r: String)
    ensures
        r@ == invite_token_created_text(*token, str_opt_view(bot_username), expires@),
{
    let mut s = lit("✅ Invite-токен создан:\nКод: <code>");
    push_str(&mut s, token.token.as_str());
    push_str(&mut s, "</code>\n");
    match bot_username {
        Some(b) => {
            push_str(&mut s, "Ссылка: ");
            let link = crate::shared::build_bot_start_link(b, token.token.as_str());
            push_str(&mut s, link.as_str());
            push_str(&mut s, "\n");
        },
        None => push_str(
            &mut s,
            "Ссылка: недоступна (username бота неизвестен). Укажите `bot_username` в конфиге или `TELEMT_ADMIN__BOT_USERNAME`, если до api.telegram.org нет доступа для getMe.\n",
        ),
    }
    push_str(&mut s, "Режим: ");
    push_str(&mut s, crate::format::format_mode(token.auto_approve));
    push_str(&mut s, "\nСрок действия ссылки (invite): до ");
    push_str(&mut s, expires);
    push_str(&mut s, "\nЛимит активаций по ссылке: ");
    match token.max_usage {
        Some(m) => push_i64(&mut s, m),
        None => push_str(&mut s, "без лимита"),
    }
    push_str(&mut s, "\nЛимиты пользователя: ");
    let limits = crate::format::format_token_limits(token);
    push_str(&mut s, limits.as_str());
    push_str(&mut s, "\n");
    assert(s@ =~= invite_token_created_text(*token, str_opt_view(bot_username), expires@));
    s
}

/// The same answer with the link's last day rendered in the machine's time zone.
pub fn invite_token_created_message(token: &InviteToken, bot_username: Option<&str>) -> (r: String)
    ensures
        exists|e: Seq<char>|
            crate::format::date_text_of(token.expires_at, e) && r@ == #[trigger] invite_token_created_text(*token, str_opt_view(bot_username), e),
{
    let expires = crate::format::format_date(token.expires_at);
    invite_token_created_text_with(token, bot_username, expires.as_str())
}

/// The code typed to find a token, without whitespace and backticks around
/// it; an empty code is answered with how to send one.
pub fn token_lookup_code(arg: &str) -> (r: Result<String, String>)
    ensures
        match crate::shared::normalized_token(arg@) {
            Some(c) => r matches Ok(x) && x@ == c,
            None => r matches Err(m) && m@ == "Отправьте код токена одним сообщением."@,
        },
{
    match crate::shared::normalize_start_token(arg) {
        Some(c) => Ok(c),
        None => Err(lit("Отправьте код токена одним сообщением.")),
    }
}

/// The outcome of a service action as shown to the administrator: "OK" or
/// the error output.
pub fn service_action_result_text(action: ServiceAction, success: bool, stderr: &str) -> (r: String)
    ensures
        r@ == action.text() + ": "@ + (if success {
            "OK"@
        } else {
            stderr@
        }),
{
    let mut s = lit(action.as_str());
    push_str(&mut s, ": ");
    if success {
        push_str(&mut s, "OK");
    } else {
        push_str(&mut s, stderr);
    }
    s
}

/// A token request read from "/token create", from the command wizard or from
/// the invite-token wizard stays within the configuration: its period is 1
/// to the configured maximum of days, its usage limit is at least 1, and it
/// approves automatically only where the configuration allows it.
pub proof fn lemma_token_requests_within_config(ws: Seq<Seq<char>>, text: Seq<char>, auto_approve: bool, sec: SecurityConfig)
    ensures
        command_token_request(ws, sec) matches Ok(req) ==> within_config(req, sec),
        wizard_token_request(auto_approve, text, sec) matches Ok(req) ==> within_config(req, sec),
        token_params(auto_approve, text, sec) matches Ok(req) ==> within_config(req, sec),
{
    lemma_token_args_limit(ws, 2, true, no_token_args());
    lemma_token_args_limit(words(text), 0, false, no_token_args());
}

pub open spec fn within_config(req: TokenRequest, sec: SecurityConfig) -> bool {
    &&& 1 <= req.days <= sec.max_token_days
    &&& (req.max_uses matches Some(m) ==> m >= 1)
    &&& (req.auto_approve ==> sec.allow_auto_approve_tokens)
}

/// Reading options keeps a usage limit of at least 1.
proof fn lemma_token_args_limit(ws: Seq<Seq<char>>, i: int, accept_auto: bool, acc: TokenArgs)
    requires
        0 <= i,
        acc.max_uses matches Some(m) ==> m >= 1,
        !accept_auto ==> !acc.auto_approve,
    ensures
        token_args_from(ws, i, accept_auto, acc) matches Ok(a) ==> ((a.max_uses matches Some(m) ==> m >= 1) && (!accept_auto ==> !a.auto_approve)),
    decreases ws.len() - i,
{
    if i < ws.len() {
        if accept_auto && (ws[i] == "--auto"@ || ws[i] == "-a"@) {
            lemma_token_args_limit(ws, i + 1, accept_auto, TokenArgs { auto_approve: true, ..acc });
        } else if ws[i] == "--max-uses"@ {
            if i + 1 < ws.len() {
                if let Some(v) = parse_i64_spec(ws[i + 1]) {
                    if v >= 1 {
                        lemma_token_args_limit(ws, i + 2, accept_auto, TokenArgs { max_uses: Some(v), ..acc });
                    }
                }
            }
        } else {
            if let Some(d) = parse_i64_spec(ws[i]) {
                if acc.days is None {
                    lemma_token_args_limit(ws, i + 1, accept_auto, TokenArgs { days: Some(d), ..acc });
                }
            }
        }
    }
}

} // verus!
