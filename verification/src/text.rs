//! Character-level text primitives shared by every module: decimal
//! integers, splitting and joining on a separator, and string building.

use vstd::prelude::*;
use vstd::string::*;

verus! {

// ---------------------------------------------------------------------
// Decimal digits
// ---------------------------------------------------------------------

pub open spec fn is_digit(c: char) -> bool {
    '0' <= c && c <= '9'
}

pub open spec fn digit_val(c: char) -> int {
    (c as int) - ('0' as int)
}

pub open spec fn digit_char(d: int) -> char {
    (d + ('0' as int)) as char
}

/// Decimal digits of a natural number, most significant first, no leading zeros.
pub open spec fn nat_digits(n: nat) -> Seq<char>
    decreases n,
{
    if n < 10 {
        seq![digit_char(n as int)]
    } else {
        nat_digits(n / 10).push(digit_char((n % 10) as int))
    }
}

/// The text `{}` gives for an integer: an optional minus sign, then the digits.
pub open spec fn int_str(n: int) -> Seq<char> {
    if n < 0 {
        seq!['-'] + nat_digits((-n) as nat)
    } else {
        nat_digits(n as nat)
    }
}

pub open spec fn all_digits(s: Seq<char>) -> bool {
    forall|i: int| 0 <= i < s.len() ==> is_digit(#[trigger] s[i])
}

/// The value of a sequence of decimal digits.
pub open spec fn digits_value(s: Seq<char>) -> int
    decreases s.len(),
{
    if s.len() == 0 {
        0
    } else {
        digits_value(s.drop_last()) * 10 + digit_val(s.last())
    }
}

/// What `str::parse` gives for a signed integer type whose range is `lo..=hi`:
/// an optional `+` or `-`, then at least one decimal digit, and nothing else;
/// a value out of range is refused.
pub open spec fn parse_int(s: Seq<char>, lo: int, hi: int) -> Option<int> {
    if s.len() == 0 {
        None
    } else if s[0] == '-' {
        let r = s.drop_first();
        if r.len() > 0 && all_digits(r) && lo <= -digits_value(r) {
            Some(-digits_value(r))
        } else {
            None
        }
    } else if s[0] == '+' {
        let r = s.drop_first();
        if r.len() > 0 && all_digits(r) && digits_value(r) <= hi {
            Some(digits_value(r))
        } else {
            None
        }
    } else if all_digits(s) && digits_value(s) <= hi {
        Some(digits_value(s))
    } else {
        None
    }
}

pub open spec fn parse_i64_spec(s: Seq<char>) -> Option<i64> {
    match parse_int(s, i64::MIN as int, i64::MAX as int) {
        Some(v) => Some(v as i64),
        None => None,
    }
}

pub open spec fn parse_i32_spec(s: Seq<char>) -> Option<i32> {
    match parse_int(s, i32::MIN as int, i32::MAX as int) {
        Some(v) => Some(v as i32),
        None => None,
    }
}

pub proof fn lemma_nat_digits_shape(n: nat)
    ensures
        nat_digits(n).len() > 0,
        all_digits(nat_digits(n)),
        digits_value(nat_digits(n)) == n,
        nat_digits(n)[0] != '-',
        nat_digits(n)[0] != '+',
    decreases n,
{
    if n >= 10 {
        lemma_nat_digits_shape(n / 10);
        let d = nat_digits(n);
        assert(d.drop_last() =~= nat_digits(n / 10));
        assert(digit_val(digit_char((n % 10) as int)) == n % 10);
        assert(n == (n / 10) * 10 + n % 10);
        assert(d.last() == digit_char((n % 10) as int));
        assert(digits_value(d) == digits_value(nat_digits(n / 10)) * 10 + n % 10);
    } else {
        assert(digit_val(digit_char(n as int)) == n);
        assert(nat_digits(n).drop_last() =~= Seq::<char>::empty());
        assert(digits_value(Seq::<char>::empty()) == 0);
        assert(digits_value(nat_digits(n)) == digits_value(nat_digits(n).drop_last()) * 10
            + digit_val(nat_digits(n).last()));
    }
}

/// Parsing the decimal text of an integer in range gives the integer back.
pub proof fn lemma_parse_int_str(n: int, lo: int, hi: int)
    requires
        lo <= n <= hi,
        lo <= 0,
    ensures
        parse_int(int_str(n), lo, hi) == Some(n),
{
    if n < 0 {
        lemma_nat_digits_shape((-n) as nat);
        assert((seq!['-'] + nat_digits((-n) as nat)).drop_first() =~= nat_digits((-n) as nat));
    } else {
        lemma_nat_digits_shape(n as nat);
    }
}

pub proof fn lemma_int_str_no_char(n: int, c: char)
    requires
        !is_digit(c),
        c != '-',
    ensures
        !int_str(n).contains(c),
{
    let m: nat = if n < 0 {
        (-n) as nat
    } else {
        n as nat
    };
    lemma_nat_digits_shape(m);
    if int_str(n).contains(c) {
        let i = choose|i: int| 0 <= i < int_str(n).len() && int_str(n)[i] == c;
        if n < 0 {
            assert(int_str(n)[i] == nat_digits(m)[i - 1]);
        }
    }
}

/// A value of `digits_value` over a prefix never exceeds the value over the whole.
pub proof fn lemma_digits_value_prefix(s: Seq<char>, i: int)
    requires
        0 <= i <= s.len(),
        all_digits(s),
    ensures
        0 <= digits_value(s.take(i)) <= digits_value(s),
    decreases s.len() - i,
{
    if i < s.len() {
        lemma_digits_value_prefix(s, i + 1);
        assert(s.take(i + 1).drop_last() =~= s.take(i));
        assert(is_digit(s[i]));
    } else {
        assert(s.take(i) =~= s);
        lemma_digits_value_nonneg(s);
    }
}

pub proof fn lemma_digits_value_nonneg(s: Seq<char>)
    requires
        all_digits(s),
    ensures
        digits_value(s) >= 0,
    decreases s.len(),
{
    if s.len() > 0 {
        assert(all_digits(s.drop_last()));
        lemma_digits_value_nonneg(s.drop_last());
        assert(is_digit(s[s.len() - 1]));
    }
}

pub fn digit_to_char(d: u64) -> (c: char)
    requires
        d < 10,
    ensures
        c == digit_char(d as int),
        is_digit(c),
{
    match d {
        0 => '0',
        1 => '1',
        2 => '2',
        3 => '3',
        4 => '4',
        5 => '5',
        6 => '6',
        7 => '7',
        8 => '8',
        _ => '9',
    }
}

/// Appends one character to a string (`String::push`).
#[verifier::external_body]
pub fn push_char(s: &mut String, c: char)
    ensures
        final(s)@ == old(s)@.push(c),
{
    s.push(c);
}

/// Appends the decimal digits of `n`.
pub fn push_u64(s: &mut String, n: u64)
    ensures
        final(s)@ == old(s)@ + nat_digits(n as nat),
    decreases n,
{
    if n >= 10 {
        push_u64(s, n / 10);
    }
    push_char(s, digit_to_char(n % 10));
    proof {
        if n >= 10 {
            assert(old(s)@ + nat_digits(n as nat) =~= old(s)@ + nat_digits((n / 10) as nat) + seq![
                digit_char((n % 10) as int),
            ]);
        }
    }
}

/// Appends the decimal text of `n`, with a minus sign when negative.
pub fn push_i64(s: &mut String, n: i64)
    ensures
        final(s)@ == old(s)@ + int_str(n as int),
{
    if n < 0 {
        push_char(s, '-');
        let mag: u64 = (0i128 - (n as i128)) as u64;
        push_u64(s, mag);
        assert(old(s)@ + int_str(n as int) =~= old(s)@.push('-') + nat_digits(mag as nat));
    } else {
        push_u64(s, n as u64);
    }
}

/// `n.to_string()` for a signed integer.
pub fn i64_to_string(n: i64) -> (r: String)
    ensures
        r@ == int_str(n as int),
{
    let mut s = String::new();
    push_i64(&mut s, n);
    assert(s@ =~= int_str(n as int));
    s
}

/// `n.to_string()` for an unsigned integer.
pub fn u64_to_string(n: u64) -> (r: String)
    ensures
        r@ == nat_digits(n as nat),
{
    let mut s = String::new();
    push_u64(&mut s, n);
    assert(s@ =~= nat_digits(n as nat));
    s
}

/// Parses a run of decimal digits, giving `None` as soon as the value exceeds `cap`.
fn parse_digits_capped(s: &[char], start: usize, cap: u64) -> (r: Option<u64>)
    requires
        start <= s@.len(),
    ensures
        ({
            let t = s@.skip(start as int);
            match r {
                Some(v) => all_digits(t) && v == digits_value(t) && v <= cap,
                None => !all_digits(t) || digits_value(t) > cap,
            }
        }),
{
    let ghost t = s@.skip(start as int);
    let mut acc: u64 = 0;
    let mut i: usize = start;
    while i < s.len()
        invariant
            start <= i <= s@.len(),
            t == s@.skip(start as int),
            all_digits(t.take(i - start)),
            acc == digits_value(t.take(i - start)),
            acc <= cap,
        decreases s@.len() - i,
    {
        let c = s[i];
        if !('0' <= c && c <= '9') {
            assert(t[i - start] == c);
            return None;
        }
        let d: u64 = ((c as u32) - ('0' as u32)) as u64;
        assert(t.take(i - start + 1).drop_last() =~= t.take(i - start));
        assert(t.take(i - start + 1).last() == c);
        let next: u128 = (acc as u128) * 10 + (d as u128);
        if next > cap as u128 {
            proof {
                assert(all_digits(t.take(i - start + 1)));
                if all_digits(t) {
                    lemma_digits_value_prefix(t, i - start + 1);
                }
            }
            return None;
        }
        acc = next as u64;
        i = i + 1;
    }
    assert(t.take(i - start) =~= t);
    Some(acc)
}

/// `str::parse::<i64>()` over a character sequence.
pub fn parse_i64(s: &[char]) -> (r: Option<i64>)
    ensures
        r == parse_i64_spec(s@),
{
    if s.len() == 0 {
        return None;
    }
    if s[0] == '-' {
        assert(s@.skip(1) =~= s@.drop_first());
        if s.len() == 1 {
            return None;
        }
        match parse_digits_capped(s, 1, 0x8000_0000_0000_0000u64) {
            Some(v) => {
                let r: i64 = (0i128 - (v as i128)) as i64;
                Some(r)
            },
            None => None,
        }
    } else if s[0] == '+' {
        assert(s@.skip(1) =~= s@.drop_first());
        if s.len() == 1 {
            return None;
        }
        match parse_digits_capped(s, 1, 0x7fff_ffff_ffff_ffffu64) {
            Some(v) => Some(v as i64),
            None => None,
        }
    } else {
        assert(s@.skip(0) =~= s@);
        match parse_digits_capped(s, 0, 0x7fff_ffff_ffff_ffffu64) {
            Some(v) => Some(v as i64),
            None => None,
        }
    }
}

/// `str::parse::<i32>()` over a character sequence.
pub fn parse_i32(s: &[char]) -> (r: Option<i32>)
    ensures
        r == parse_i32_spec(s@),
{
    if s.len() == 0 {
        return None;
    }
    if s[0] == '-' {
        assert(s@.skip(1) =~= s@.drop_first());
        if s.len() == 1 {
            return None;
        }
        match parse_digits_capped(s, 1, 0x8000_0000u64) {
            Some(v) => {
                let r: i32 = (0i64 - (v as i64)) as i32;
                Some(r)
            },
            None => None,
        }
    } else if s[0] == '+' {
        assert(s@.skip(1) =~= s@.drop_first());
        if s.len() == 1 {
            return None;
        }
        match parse_digits_capped(s, 1, 0x7fff_ffffu64) {
            Some(v) => Some(v as i32),
            None => None,
        }
    } else {
        assert(s@.skip(0) =~= s@);
        match parse_digits_capped(s, 0, 0x7fff_ffffu64) {
            Some(v) => Some(v as i32),
            None => None,
        }
    }
}

// ---------------------------------------------------------------------
// Characters of strings
// ---------------------------------------------------------------------

/// The characters of a string slice.
pub fn str_chars(s: &str) -> (v: Vec<char>)
    ensures
        v@ == s@,
{
    let n = s.unicode_len();
    let mut v: Vec<char> = Vec::new();
    for i in 0..n
        invariant
            n == s@.len(),
            v@ == s@.take(i as int),
    {
        v.push(s.get_char(i));
        assert(s@.take(i + 1) =~= s@.take(i as int).push(s@[i as int]));
    }
    assert(s@.take(n as int) =~= s@);
    v
}

/// Whether a character sequence spells exactly the given text.
pub fn chars_eq_str(v: &[char], lit: &str) -> (r: bool)
    ensures
        r == (v@ == lit@),
{
    let n = lit.unicode_len();
    if v.len() != n {
        return false;
    }
    for i in 0..n
        invariant
            n == lit@.len(),
            v@.len() == n,
            forall|j: int| 0 <= j < i ==> v@[j] == lit@[j],
    {
        if v[i] != lit.get_char(i) {
            return false;
        }
    }
    assert(v@ =~= lit@);
    true
}

/// Appends every character of `v`.
pub fn push_chars(s: &mut String, v: &[char])
    ensures
        final(s)@ == old(s)@ + v@,
{
    for i in 0..v.len()
        invariant
            s@ == old(s)@ + v@.take(i as int),
    {
        push_char(s, v[i]);
        assert(v@.take(i + 1) =~= v@.take(i as int).push(v@[i as int]));
        assert(old(s)@ + v@.take(i + 1) =~= (old(s)@ + v@.take(i as int)).push(v@[i as int]));
    }
    assert(v@.take(v@.len() as int) =~= v@);
}

/// A string holding exactly the characters of `v`.
pub fn string_from_chars(v: &[char]) -> (s: String)
    ensures
        s@ == v@,
{
    let mut s = String::new();
    push_chars(&mut s, v);
    assert(s@ =~= v@);
    s
}

/// Appends a string slice (`String::push_str`).
pub fn push_str(s: &mut String, t: &str)
    ensures
        final(s)@ == old(s)@ + t@,
{
    s.append(t);
}

// ---------------------------------------------------------------------
// Splitting and joining
// ---------------------------------------------------------------------

/// The pieces `str::split(sep)` yields: always at least one, one more than
/// the number of separators.
pub open spec fn split_on(s: Seq<char>, sep: char) -> Seq<Seq<char>>
    decreases s.len(),
{
    if s.len() == 0 {
        seq![Seq::<char>::empty()]
    } else {
        let rest = split_on(s.drop_first(), sep);
        if s[0] == sep {
            seq![Seq::<char>::empty()] + rest
        } else {
            rest.update(0, seq![s[0]] + rest[0])
        }
    }
}

/// Pieces joined with a separator between consecutive ones.
pub open spec fn join_on(ps: Seq<Seq<char>>, sep: char) -> Seq<char>
    decreases ps.len(),
{
    if ps.len() == 0 {
        Seq::<char>::empty()
    } else if ps.len() == 1 {
        ps[0]
    } else {
        ps[0] + seq![sep] + join_on(ps.drop_first(), sep)
    }
}

pub open spec fn views_of(v: Seq<Vec<char>>) -> Seq<Seq<char>> {
    v.map_values(|p: Vec<char>| p@)
}

pub proof fn lemma_split_on_len(s: Seq<char>, sep: char)
    ensures
        split_on(s, sep).len() >= 1,
    decreases s.len(),
{
    if s.len() > 0 {
        lemma_split_on_len(s.drop_first(), sep);
    }
}

/// Splitting text without the separator gives the text itself.
pub proof fn lemma_split_no_sep(a: Seq<char>, sep: char)
    requires
        !a.contains(sep),
    ensures
        split_on(a, sep) == seq![a],
    decreases a.len(),
{
    if a.len() > 0 {
        assert(!a.drop_first().contains(sep)) by {
            if a.drop_first().contains(sep) {
                let i = choose|i: int| 0 <= i < a.drop_first().len() && a.drop_first()[i] == sep;
                assert(a[i + 1] == sep);
            }
        }
        lemma_split_no_sep(a.drop_first(), sep);
        assert(a[0] != sep);
        assert(seq![a[0]] + a.drop_first() =~= a);
        let rest = split_on(a.drop_first(), sep);
        assert(split_on(a, sep) == rest.update(0, seq![a[0]] + rest[0]));
        assert(split_on(a, sep) =~= seq![a]);
    } else {
        assert(a =~= Seq::<char>::empty());
    }
}

/// Splitting `a ++ sep ++ b`, where `a` holds no separator, peels `a` off.
pub proof fn lemma_split_cons(a: Seq<char>, b: Seq<char>, sep: char)
    requires
        !a.contains(sep),
    ensures
        split_on(a + seq![sep] + b, sep) == seq![a] + split_on(b, sep),
    decreases a.len(),
{
    let s = a + seq![sep] + b;
    lemma_split_on_len(b, sep);
    if a.len() == 0 {
        assert(s.drop_first() =~= b);
        assert(s[0] == sep);
        assert(a =~= Seq::<char>::empty());
        assert(split_on(s, sep) == seq![Seq::<char>::empty()] + split_on(s.drop_first(), sep));
        assert(split_on(s, sep) =~= seq![a] + split_on(b, sep));
    } else {
        assert(!a.drop_first().contains(sep)) by {
            if a.drop_first().contains(sep) {
                let i = choose|i: int| 0 <= i < a.drop_first().len() && a.drop_first()[i] == sep;
                assert(a[i + 1] == sep);
            }
        }
        lemma_split_cons(a.drop_first(), b, sep);
        assert(s.drop_first() =~= a.drop_first() + seq![sep] + b);
        assert(s[0] == a[0]);
        assert(a[0] != sep);
        assert(seq![a[0]] + a.drop_first() =~= a);
        let rest = split_on(s.drop_first(), sep);
        assert(split_on(s, sep) == rest.update(0, seq![s[0]] + rest[0]));
        assert(rest =~= seq![a.drop_first()] + split_on(b, sep));
        assert(split_on(s, sep) =~= seq![a] + split_on(b, sep));
    }
}

/// Splitting joined pieces gives the pieces back when none holds the separator.
pub proof fn lemma_split_join(ps: Seq<Seq<char>>, sep: char)
    requires
        ps.len() >= 1,
        forall|i: int| 0 <= i < ps.len() ==> !(#[trigger] ps[i]).contains(sep),
    ensures
        split_on(join_on(ps, sep), sep) == ps,
    decreases ps.len(),
{
    if ps.len() == 1 {
        lemma_split_no_sep(ps[0], sep);
        assert(seq![ps[0]] =~= ps);
    } else {
        let rest = ps.drop_first();
        assert forall|i: int| 0 <= i < rest.len() implies !(#[trigger] rest[i]).contains(sep) by {
            assert(rest[i] == ps[i + 1]);
        }
        lemma_split_join(rest, sep);
        lemma_split_cons(ps[0], join_on(rest, sep), sep);
        assert(seq![ps[0]] + rest =~= ps);
    }
}

/// `str::split(sep)` over a character sequence.
pub fn split_chars(s: &[char], sep: char) -> (r: Vec<Vec<char>>)
    ensures
        views_of(r@) == split_on(s@, sep),
{
    let mut done: Vec<Vec<char>> = Vec::new();
    let mut cur: Vec<char> = Vec::new();
    let n = s.len();
    proof {
        lemma_split_on_len(s@, sep);
        assert(s@.skip(0) =~= s@);
        assert(views_of(done@) =~= Seq::<Seq<char>>::empty());
        assert(cur@ + split_on(s@, sep)[0] =~= split_on(s@, sep)[0]);
        assert(split_on(s@, sep) =~= Seq::<Seq<char>>::empty().push(split_on(s@, sep)[0])
            + split_on(s@, sep).drop_first());
    }
    for i in 0..n
        invariant
            n == s@.len(),
            split_on(s@, sep) == views_of(done@).push(cur@ + split_on(s@.skip(i as int), sep)[0])
                + split_on(s@.skip(i as int), sep).drop_first(),
    {
        let ghost rest = s@.skip(i as int);
        let ghost next = s@.skip(i + 1);
        assert(rest.drop_first() =~= next);
        assert(rest[0] == s@[i as int]);
        proof {
            lemma_split_on_len(next, sep);
        }
        if s[i] == sep {
            let ghost old_done = views_of(done@);
            let ghost old_cur = cur@;
            done.push(cur);
            cur = Vec::new();
            assert(views_of(done@) =~= old_done.push(old_cur));
            assert(split_on(rest, sep) =~= seq![Seq::<char>::empty()] + split_on(next, sep));
            assert(split_on(rest, sep).drop_first() =~= split_on(next, sep));
            assert(old_done.push(old_cur + split_on(rest, sep)[0]) + split_on(rest, sep).drop_first()
                =~= views_of(done@).push(cur@ + split_on(next, sep)[0]) + split_on(next, sep).drop_first());
        } else {
            let ghost old_cur = cur@;
            cur.push(s[i]);
            assert(split_on(rest, sep)[0] =~= seq![s@[i as int]] + split_on(next, sep)[0]);
            assert(split_on(rest, sep).drop_first() =~= split_on(next, sep).drop_first());
            assert(old_cur + split_on(rest, sep)[0] =~= cur@ + split_on(next, sep)[0]);
        }
    }
    let ghost last = s@.skip(n as int);
    assert(last =~= Seq::<char>::empty());
    assert(split_on(last, sep) =~= seq![Seq::<char>::empty()]);
    let ghost old_done = views_of(done@);
    let ghost old_cur = cur@;
    done.push(cur);
    assert(views_of(done@) =~= old_done.push(old_cur));
    assert(old_cur + Seq::<char>::empty() =~= old_cur);
    assert(split_on(s@, sep) =~= views_of(done@));
    done
}

pub open spec fn string_views(v: Seq<String>) -> Seq<Seq<char>> {
    v.map_values(|p: String| p@)
}

/// `parts.join(sep)`: the pieces with a separator between consecutive ones.
pub fn join_strings(parts: &Vec<String>, sep: char) -> (r: String)
    ensures
        r@ == join_on(string_views(parts@), sep),
{
    let n = parts.len();
    let mut s = String::new();
    if n == 0 {
        assert(string_views(parts@) =~= Seq::<Seq<char>>::empty());
        assert(s@ =~= join_on(string_views(parts@), sep));
        return s;
    }
    let mut i = n - 1;
    s = parts[i].clone();
    assert(string_views(parts@).skip(i as int) =~= seq![parts@[i as int]@]);
    while i > 0
        invariant
            0 <= i < n,
            n == parts@.len(),
            s@ == join_on(string_views(parts@).skip(i as int), sep),
        decreases i,
    {
        let ghost tail = string_views(parts@).skip(i as int);
        let ghost whole = string_views(parts@).skip(i - 1);
        assert(whole.drop_first() =~= tail);
        assert(whole[0] == parts@[i - 1]@);
        let mut t = parts[i - 1].clone();
        push_char(&mut t, sep);
        t.append(s.as_str());
        s = t;
        i = i - 1;
        assert(s@ =~= join_on(whole, sep));
    }
    assert(string_views(parts@).skip(0) =~= string_views(parts@));
    s
}

/// The pieces with `sep` between consecutive ones (`[..].join(sep)`).
pub open spec fn join_text(ps: Seq<Seq<char>>, sep: Seq<char>) -> Seq<char>
    decreases ps.len(),
{
    if ps.len() == 0 {
        Seq::<char>::empty()
    } else if ps.len() == 1 {
        ps[0]
    } else {
        join_text(ps.drop_last(), sep) + sep + ps.last()
    }
}

/// `parts.join(sep)` with a text separator.
pub fn join_texts(parts: &Vec<String>, sep: &str) -> (r: String)
    ensures
        r@ == join_text(string_views(parts@), sep@),
{
    let mut s = String::new();
    let n = parts.len();
    for i in 0..n
        invariant
            n == parts@.len(),
            s@ == join_text(string_views(parts@).take(i as int), sep@),
    {
        let ghost before = string_views(parts@).take(i as int);
        let ghost after = string_views(parts@).take(i + 1);
        assert(after.drop_last() =~= before);
        assert(after.last() == parts@[i as int]@);
        if i > 0 {
            push_str(&mut s, sep);
        }
        push_str(&mut s, parts[i].as_str());
        proof {
            if i == 0 {
                assert(s@ =~= join_text(after, sep@));
            } else {
                assert(s@ =~= join_text(after, sep@));
            }
        }
    }
    assert(string_views(parts@).take(n as int) =~= string_views(parts@));
    s
}

/// A `String` holding the given text.
pub fn lit(t: &str) -> (r: String)
    ensures
        r@ == t@,
{
    String::from_str(t)
}

/// `s` starts with `p`.
pub open spec fn has_prefix(s: Seq<char>, p: Seq<char>) -> bool {
    p.len() <= s.len() && s.take(p.len() as int) == p
}

/// A text that differs from `p` at a position inside both does not start with `p`.
pub proof fn lemma_not_prefix_at(s: Seq<char>, p: Seq<char>, i: int)
    requires
        0 <= i < p.len(),
        i < s.len(),
        s[i] != p[i],
    ensures
        !has_prefix(s, p),
{
    if has_prefix(s, p) {
        assert(s.take(p.len() as int)[i] == s[i]);
    }
}

/// `str::strip_prefix` over a character sequence.
pub fn strip_prefix_chars(v: &[char], prefix: &str) -> (r: Option<Vec<char>>)
    ensures
        r is Some <==> has_prefix(v@, prefix@),
        r matches Some(rest) ==> rest@ == v@.skip(prefix@.len() as int),
{
    let n = prefix.unicode_len();
    if n > v.len() {
        return None;
    }
    for i in 0..n
        invariant
            n == prefix@.len(),
            n <= v@.len(),
            forall|j: int| 0 <= j < i ==> v@[j] == prefix@[j],
    {
        if v[i] != prefix.get_char(i) {
            proof {
                lemma_not_prefix_at(v@, prefix@, i as int);
            }
            return None;
        }
    }
    assert(v@.take(n as int) =~= prefix@);
    let mut rest: Vec<char> = Vec::new();
    for k in n..v.len()
        invariant
            n <= k <= v@.len(),
            rest@ == v@.subrange(n as int, k as int),
    {
        rest.push(v[k]);
        assert(v@.subrange(n as int, k + 1) =~= v@.subrange(n as int, k as int).push(v@[k as int]));
    }
    assert(rest@ =~= v@.skip(n as int));
    Some(rest)
}

pub proof fn lemma_join2(a: Seq<char>, b: Seq<char>, sep: char)
    ensures
        join_on(seq![a, b], sep) == a + seq![sep] + b,
{
    assert(seq![a, b].drop_first() =~= seq![b]);
    assert(join_on(seq![b], sep) == b);
}

pub proof fn lemma_join3(a: Seq<char>, b: Seq<char>, c: Seq<char>, sep: char)
    ensures
        join_on(seq![a, b, c], sep) == a + seq![sep] + b + seq![sep] + c,
{
    assert(seq![a, b, c].drop_first() =~= seq![b, c]);
    lemma_join2(b, c, sep);
    assert(a + seq![sep] + (b + seq![sep] + c) =~= a + seq![sep] + b + seq![sep] + c);
}

// ---------------------------------------------------------------------
// Whitespace, trimming and lines
// ---------------------------------------------------------------------

/// `char::is_whitespace`: the characters with the Unicode `White_Space` property.
pub open spec fn is_ws(c: char) -> bool {
    ||| c == '\t' || c == '\n' || c == '\u{0B}' || c == '\u{0C}' || c == '\r' || c == ' '
    ||| c == '\u{85}' || c == '\u{A0}' || c == '\u{1680}'
    ||| ('\u{2000}' <= c && c <= '\u{200A}')
    ||| c == '\u{2028}' || c == '\u{2029}' || c == '\u{202F}' || c == '\u{205F}'
        || c == '\u{3000}'
}

pub fn is_ws_exec(c: char) -> (r: bool)
    ensures
        r == is_ws(c),
{
    c == '\t' || c == '\n' || c == '\u{0B}' || c == '\u{0C}' || c == '\r' || c == ' ' || c
        == '\u{85}' || c == '\u{A0}' || c == '\u{1680}' || ('\u{2000}' <= c && c <= '\u{200A}')
        || c == '\u{2028}' || c == '\u{2029}' || c == '\u{202F}' || c == '\u{205F}' || c
        == '\u{3000}'
}

/// Index of the first non-whitespace character at or after `i` (or the length).
pub open spec fn ws_end(s: Seq<char>, i: int) -> int
    decreases s.len() - i,
{
    if i < s.len() && is_ws(s[i]) {
        ws_end(s, i + 1)
    } else {
        i
    }
}

/// Index just after the last non-whitespace character before `j` (or zero).
pub open spec fn ws_start_back(s: Seq<char>, j: int) -> int
    decreases j,
{
    if j > 0 && is_ws(s[j - 1]) {
        ws_start_back(s, j - 1)
    } else {
        j
    }
}

/// `str::trim`: the text without leading and trailing whitespace.
pub open spec fn trim(s: Seq<char>) -> Seq<char> {
    let a = ws_end(s, 0);
    let b = ws_start_back(s, s.len() as int);
    if a >= b {
        Seq::<char>::empty()
    } else {
        s.subrange(a, b)
    }
}

pub proof fn lemma_ws_end_bounds(s: Seq<char>, i: int)
    requires
        0 <= i <= s.len(),
    ensures
        i <= ws_end(s, i) <= s.len(),
        forall|k: int| i <= k < ws_end(s, i) ==> is_ws(#[trigger] s[k]),
        ws_end(s, i) < s.len() ==> !is_ws(s[ws_end(s, i)]),
    decreases s.len() - i,
{
    if i < s.len() && is_ws(s[i]) {
        lemma_ws_end_bounds(s, i + 1);
    }
}

pub proof fn lemma_ws_start_back_bounds(s: Seq<char>, j: int)
    requires
        0 <= j <= s.len(),
    ensures
        0 <= ws_start_back(s, j) <= j,
        forall|k: int| ws_start_back(s, j) <= k < j ==> is_ws(#[trigger] s[k]),
        ws_start_back(s, j) > 0 ==> !is_ws(s[ws_start_back(s, j) - 1]),
    decreases j,
{
    if j > 0 && is_ws(s[j - 1]) {
        lemma_ws_start_back_bounds(s, j - 1);
    }
}

/// `str::trim` over a character sequence.
pub fn trim_chars(v: &[char]) -> (r: Vec<char>)
    ensures
        r@ == trim(v@),
{
    let n = v.len();
    let mut a: usize = 0;
    while a < n && is_ws_exec(v[a])
        invariant
            n == v@.len(),
            a <= n,
            ws_end(v@, 0) == ws_end(v@, a as int),
        decreases n - a,
    {
        a = a + 1;
    }
    let mut b: usize = n;
    while b > 0 && is_ws_exec(v[b - 1])
        invariant
            n == v@.len(),
            b <= n,
            ws_start_back(v@, n as int) == ws_start_back(v@, b as int),
        decreases b,
    {
        b = b - 1;
    }
    let mut r: Vec<char> = Vec::new();
    if a < b {
        for k in a..b
            invariant
                a <= k <= b,
                b <= v@.len(),
                r@ == v@.subrange(a as int, k as int),
        {
            r.push(v[k]);
            assert(v@.subrange(a as int, k + 1) =~= v@.subrange(a as int, k as int).push(
                v@[k as int],
            ));
        }
    }
    assert(r@ =~= trim(v@));
    r
}

/// `str::trim` giving an owned string.
pub fn trim_str(s: &str) -> (r: String)
    ensures
        r@ == trim(s@),
{
    let v = str_chars(s);
    let t = trim_chars(v.as_slice());
    string_from_chars(t.as_slice())
}

/// A piece followed by a line feed, without one carriage return before it.
pub open spec fn strip_cr(p: Seq<char>) -> Seq<char> {
    if p.len() > 0 && p.last() == '\r' {
        p.drop_last()
    } else {
        p
    }
}

/// `str::lines`: pieces between line feeds, each line ended by a line feed losing one
/// carriage return before it, and no empty piece after a final line feed.
pub open spec fn lines(s: Seq<char>) -> Seq<Seq<char>> {
    let ps = split_on(s, '\n');
    let init = ps.drop_last().map_values(|p: Seq<char>| strip_cr(p));
    if ps.last().len() == 0 {
        init
    } else {
        init.push(ps.last())
    }
}

fn strip_cr_exec(p: Vec<char>) -> (r: Vec<char>)
    ensures
        r@ == strip_cr(p@),
{
    let mut p = p;
    if p.len() > 0 && p[p.len() - 1] == '\r' {
        p.pop();
    }
    p
}

/// `str::lines` over a character sequence.
pub fn lines_chars(v: &[char]) -> (r: Vec<Vec<char>>)
    ensures
        views_of(r@) == lines(v@),
{
    let ps = split_chars(v, '\n');
    proof {
        lemma_split_on_len(v@, '\n');
    }
    let n = ps.len();
    let ghost spl = views_of(ps@);
    let mut r: Vec<Vec<char>> = Vec::new();
    for i in 0..n - 1
        invariant
            n == ps@.len(),
            n >= 1,
            spl == views_of(ps@),
            views_of(r@) == spl.take(i as int).map_values(|p: Seq<char>| strip_cr(p)),
    {
        let p = ps[i].clone();
        assert(p@ == spl[i as int]);
        let q = strip_cr_exec(p);
        let ghost before = views_of(r@);
        r.push(q);
        assert(views_of(r@) =~= before.push(q@));
        assert(spl.take(i + 1) =~= spl.take(i as int).push(spl[i as int]));
        assert(spl.take(i + 1).map_values(|p: Seq<char>| strip_cr(p)) =~= spl.take(
            i as int,
        ).map_values(|p: Seq<char>| strip_cr(p)).push(strip_cr(spl[i as int])));
    }
    assert(spl.take(n - 1) =~= spl.drop_last());
    let last = ps[n - 1].clone();
    assert(last@ == spl.last());
    if last.len() > 0 {
        let ghost before = views_of(r@);
        r.push(last);
        assert(views_of(r@) =~= before.push(spl.last()));
    }
    r
}

} // verus!
