//! Text primitives shared by the rest of the library: whitespace trimming,
//! ASCII case folding, searching, decimal formatting and parsing, each
//! stated over the character sequence that a string views as.

use vstd::prelude::*;
use vstd::string::*;

verus! {

// ───────────────────────── characters ─────────────────────────

/// The Unicode `White_Space` property: the characters that `str::trim` strips.
pub open spec fn is_ws(c: char) -> bool {
    ||| ('\u{9}' <= c && c <= '\u{d}')
    ||| c == ' '
    ||| c == '\u{85}'
    ||| c == '\u{a0}'
    ||| c == '\u{1680}'
    ||| ('\u{2000}' <= c && c <= '\u{200a}')
    ||| c == '\u{2028}'
    ||| c == '\u{2029}'
    ||| c == '\u{202f}'
    ||| c == '\u{205f}'
    ||| c == '\u{3000}'
}

pub fn is_whitespace(c: char) -> (r: bool)
    ensures
        r == is_ws(c),
{
    ('\u{9}' <= c && c <= '\u{d}') || c == ' ' || c == '\u{85}' || c == '\u{a0}' || c
        == '\u{1680}' || ('\u{2000}' <= c && c <= '\u{200a}') || c == '\u{2028}' || c == '\u{2029}'
        || c == '\u{202f}' || c == '\u{205f}' || c == '\u{3000}'
}

/// ASCII lower-casing of one character (`char::to_ascii_lowercase`).
pub open spec fn lower_char(c: char) -> char {
    if 'A' <= c && c <= 'Z' {
        ((c as u32) + 32) as char
    } else {
        c
    }
}

pub fn ascii_lower_char(c: char) -> (r: char)
    ensures
        r == lower_char(c),
{
    if 'A' <= c && c <= 'Z' {
        let b: u8 = c as u8;
        (b + 32) as char
    } else {
        c
    }
}

/// ASCII lower-casing of a whole string (`str::to_ascii_lowercase`).
pub open spec fn lower(s: Seq<char>) -> Seq<char> {
    s.map_values(|c: char| lower_char(c))
}

// ───────────────────────── conversions ─────────────────────────

/// `String::push`: the string afterwards is the string before with `c`
/// appended at its end.
#[verifier::external_body]
pub(crate) fn push_char(s: &mut String, c: char)
    ensures
        final(s)@ == old(s)@.push(c),
{
    s.push(c);
}

pub fn to_chars(s: &str) -> (v: Vec<char>)
    ensures
        v@ == s@,
{
    let n = s.unicode_len();
    let mut v: Vec<char> = Vec::new();
    let mut i: usize = 0;
    while i < n
        invariant
            n == s@.len(),
            i <= n,
            v@ == s@.subrange(0, i as int),
        decreases n - i,
    {
        v.push(s.get_char(i));
        i = i + 1;
        assert(v@ =~= s@.subrange(0, i as int));
    }
    assert(v@ =~= s@);
    v
}

pub fn string_of(v: &[char]) -> (s: String)
    ensures
        s@ == v@,
{
    let mut s = String::new();
    let mut i: usize = 0;
    while i < v.len()
        invariant
            i <= v.len(),
            s@ == v@.subrange(0, i as int),
        decreases v.len() - i,
    {
        push_char(&mut s, v[i]);
        i = i + 1;
        assert(s@ =~= v@.subrange(0, i as int));
    }
    assert(s@ =~= v@);
    s
}

pub fn owned(s: &str) -> (r: String)
    ensures
        r@ == s@,
{
    s.to_owned()
}

// ───────────────────────── comparison ─────────────────────────

pub fn chars_eq(a: &[char], b: &[char]) -> (r: bool)
    ensures
        r == (a@ == b@),
{
    if a.len() != b.len() {
        return false;
    }
    let mut i: usize = 0;
    while i < a.len()
        invariant
            a.len() == b.len(),
            i <= a.len(),
            a@.subrange(0, i as int) == b@.subrange(0, i as int),
        decreases a.len() - i,
    {
        if a[i] != b[i] {
            return false;
        }
        i = i + 1;
        assert(a@.subrange(0, i as int) =~= a@.subrange(0, i - 1).push(a@[i - 1]));
        assert(b@.subrange(0, i as int) =~= b@.subrange(0, i - 1).push(b@[i - 1]));
    }
    assert(a@ =~= a@.subrange(0, i as int));
    assert(b@ =~= b@.subrange(0, i as int));
    true
}

pub fn str_eq(a: &str, b: &str) -> (r: bool)
    ensures
        r == (a@ == b@),
{
    let x = to_chars(a);
    let y = to_chars(b);
    chars_eq(x.as_slice(), y.as_slice())
}


pub fn str_eq_chars(a: &str, b: &[char]) -> (r: bool)
    ensures
        r == (a@ == b@),
{
    let x = to_chars(a);
    chars_eq(x.as_slice(), b)
}

// ───────────────────────── trimming ─────────────────────────

pub open spec fn trim_start(s: Seq<char>) -> Seq<char>
    decreases s.len(),
{
    if s.len() > 0 && is_ws(s[0]) {
        trim_start(s.drop_first())
    } else {
        s
    }
}

pub open spec fn trim_end(s: Seq<char>) -> Seq<char>
    decreases s.len(),
{
    if s.len() > 0 && is_ws(s.last()) {
        trim_end(s.drop_last())
    } else {
        s
    }
}

/// What `str::trim` leaves: the string without leading and trailing whitespace.
pub open spec fn trim(s: Seq<char>) -> Seq<char> {
    trim_end(trim_start(s))
}

proof fn lemma_trim_start_at(s: Seq<char>, i: int)
    requires
        0 <= i <= s.len(),
        forall|k: int| 0 <= k < i ==> is_ws(#[trigger] s[k]),
        i == s.len() || !is_ws(s[i]),
    ensures
        trim_start(s) == s.subrange(i, s.len() as int),
    decreases i,
{
    if i == 0 {
        assert(s.subrange(0, s.len() as int) =~= s);
    } else {
        let t = s.drop_first();
        assert forall|k: int| 0 <= k < i - 1 implies is_ws(#[trigger] t[k]) by {
            assert(t[k] == s[k + 1]);
        }
        lemma_trim_start_at(t, i - 1);
        assert(t.subrange(i - 1, t.len() as int) =~= s.subrange(i, s.len() as int));
    }
}

proof fn lemma_trim_end_at(s: Seq<char>, j: int)
    requires
        0 <= j <= s.len(),
        forall|k: int| j <= k < s.len() ==> is_ws(#[trigger] s[k]),
        j == 0 || !is_ws(s[j - 1]),
    ensures
        trim_end(s) == s.subrange(0, j),
    decreases s.len() - j,
{
    if j == s.len() {
        assert(s.subrange(0, j) =~= s);
    } else {
        let t = s.drop_last();
        assert forall|k: int| j <= k < t.len() implies is_ws(#[trigger] t[k]) by {
            assert(t[k] == s[k]);
        }
        lemma_trim_end_at(t, j);
        assert(t.subrange(0, j) =~= s.subrange(0, j));
    }
}

pub proof fn lemma_trim_idempotent(s: Seq<char>)
    ensures
        trim(trim(s)) == trim(s),
{
    let t = trim(s);
    lemma_trim_shape(s);
    if t.len() == 0 {
        lemma_trim_start_at(t, 0);
        lemma_trim_end_at(t, 0);
    } else {
        lemma_trim_start_at(t, 0);
        assert(t.subrange(0, t.len() as int) =~= t);
        lemma_trim_end_at(t, t.len() as int);
    }
}

/// A string that neither starts nor ends with whitespace is its own trim.
pub proof fn lemma_trim_fixed(s: Seq<char>)
    requires
        s.len() == 0 || (!is_ws(s[0]) && !is_ws(s.last())),
    ensures
        trim(s) == s,
{
    lemma_trim_start_at(s, 0);
    assert(s.subrange(0, s.len() as int) =~= s);
    lemma_trim_end_at(s, s.len() as int);
}

/// A trimmed string neither starts nor ends with whitespace.
pub proof fn lemma_trim_shape(s: Seq<char>)
    ensures
        trim(s).len() > 0 ==> !is_ws(trim(s)[0]) && !is_ws(trim(s).last()),
        trim(s).len() <= s.len(),
    decreases s.len(),
{
    lemma_trim_start_shape(s);
    lemma_trim_end_shape(trim_start(s));
    let a = trim_start(s);
    let b = trim_end(a);
    if b.len() > 0 {
        lemma_trim_end_prefix(a);
        assert(b[0] == a[0]);
    }
}

proof fn lemma_trim_start_shape(s: Seq<char>)
    ensures
        trim_start(s).len() > 0 ==> !is_ws(trim_start(s)[0]),
        trim_start(s).len() <= s.len(),
    decreases s.len(),
{
    if s.len() > 0 && is_ws(s[0]) {
        lemma_trim_start_shape(s.drop_first());
    }
}

proof fn lemma_trim_end_shape(s: Seq<char>)
    ensures
        trim_end(s).len() > 0 ==> !is_ws(trim_end(s).last()),
        trim_end(s).len() <= s.len(),
    decreases s.len(),
{
    if s.len() > 0 && is_ws(s.last()) {
        lemma_trim_end_shape(s.drop_last());
    }
}

proof fn lemma_trim_end_prefix(s: Seq<char>)
    ensures
        trim_end(s) == s.subrange(0, trim_end(s).len() as int),
    decreases s.len(),
{
    if s.len() > 0 && is_ws(s.last()) {
        lemma_trim_end_prefix(s.drop_last());
        lemma_trim_end_shape(s.drop_last());
        assert(s.drop_last().subrange(0, trim_end(s).len() as int) =~= s.subrange(
            0,
            trim_end(s).len() as int,
        ));
    } else {
        assert(s.subrange(0, s.len() as int) =~= s);
    }
}

/// Character positions `(start, end)` such that `s[start..end]` is `trim(s)`.
pub fn trim_bounds(s: &[char]) -> (r: (usize, usize))
    ensures
        r.0 <= r.1 <= s@.len(),
        s@.subrange(r.0 as int, r.1 as int) == trim(s@),
{
    let n = s.len();
    let mut i: usize = 0;
    while i < n && is_whitespace(s[i])
        invariant
            i <= n,
            n == s@.len(),
            forall|k: int| 0 <= k < i ==> is_ws(#[trigger] s@[k]),
        decreases n - i,
    {
        i = i + 1;
    }
    let mut j: usize = n;
    while j > i && is_whitespace(s[j - 1])
        invariant
            i <= j <= n,
            n == s@.len(),
            forall|k: int| j <= k < n ==> is_ws(#[trigger] s@[k]),
        decreases j - i,
    {
        j = j - 1;
    }
    proof {
        lemma_trim_start_at(s@, i as int);
        let t = s@.subrange(i as int, n as int);
        assert forall|k: int| (j - i) <= k < t.len() implies is_ws(#[trigger] t[k]) by {
            assert(t[k] == s@[k + i]);
        }
        if j > i {
            assert(t[j - i - 1] == s@[j - 1]);
        }
        lemma_trim_end_at(t, (j - i) as int);
        assert(t.subrange(0, (j - i) as int) =~= s@.subrange(i as int, j as int));
    }
    (i, j)
}

pub fn trim_chars(s: &[char]) -> (r: Vec<char>)
    ensures
        r@ == trim(s@),
{
    let (i, j) = trim_bounds(s);
    slice_range(s, i, j)
}

pub fn slice_range(s: &[char], from: usize, to: usize) -> (r: Vec<char>)
    requires
        from <= to <= s@.len(),
    ensures
        r@ == s@.subrange(from as int, to as int),
{
    let mut v: Vec<char> = Vec::new();
    let mut k: usize = from;
    while k < to
        invariant
            from <= k <= to,
            to <= s@.len(),
            v@ == s@.subrange(from as int, k as int),
        decreases to - k,
    {
        v.push(s[k]);
        k = k + 1;
        assert(v@ =~= s@.subrange(from as int, k as int));
    }
    v
}

/// `str::trim`.
pub fn trim_str(s: &str) -> (r: &str)
    ensures
        r@ == trim(s@),
{
    let v = to_chars(s);
    let (i, j) = trim_bounds(v.as_slice());
    s.substring_char(i, j)
}

/// `str::trim().to_string()`.
pub fn trim_string(s: &str) -> (r: String)
    ensures
        r@ == trim(s@),
{
    owned(trim_str(s))
}

// ───────────────────────── case ─────────────────────────

pub fn lower_chars(s: &[char]) -> (r: Vec<char>)
    ensures
        r@ == lower(s@),
{
    let mut v: Vec<char> = Vec::new();
    let mut i: usize = 0;
    while i < s.len()
        invariant
            i <= s.len(),
            v@ == lower(s@.subrange(0, i as int)),
        decreases s.len() - i,
    {
        let c = ascii_lower_char(s[i]);
        v.push(c);
        i = i + 1;
        assert(v@ =~= lower(s@.subrange(0, i as int)));
    }
    assert(s@.subrange(0, i as int) =~= s@);
    v
}

/// `str::eq_ignore_ascii_case`.
pub open spec fn eq_ignore_case(a: Seq<char>, b: Seq<char>) -> bool {
    lower(a) == lower(b)
}

pub fn str_eq_ignore_case(a: &str, b: &str) -> (r: bool)
    ensures
        r == eq_ignore_case(a@, b@),
{
    let x = lower_chars(to_chars(a).as_slice());
    let y = lower_chars(to_chars(b).as_slice());
    chars_eq(x.as_slice(), y.as_slice())
}

// ───────────────────────── searching ─────────────────────────

pub open spec fn has_prefix(s: Seq<char>, p: Seq<char>) -> bool {
    p.len() <= s.len() && s.subrange(0, p.len() as int) == p
}

/// Putting the same text before a string and before its prefix keeps it a
/// prefix.
pub proof fn lemma_prefix_extends(a: Seq<char>, b: Seq<char>, p: Seq<char>)
    requires
        has_prefix(b, p),
    ensures
        has_prefix(a + b, a + p),
{
    assert((a + b).subrange(0, (a + p).len() as int) =~= a + p);
}

pub open spec fn occurs_at(s: Seq<char>, p: Seq<char>, i: int) -> bool {
    0 <= i && i + p.len() <= s.len() && s.subrange(i, i + p.len()) == p
}

/// `str::contains` for a string pattern.
pub open spec fn contains(s: Seq<char>, p: Seq<char>) -> bool {
    exists|i: int| occurs_at(s, p, i)
}

fn matches_at(s: &[char], p: &[char], i: usize) -> (r: bool)
    requires
        i <= s@.len(),
    ensures
        r == occurs_at(s@, p@, i as int),
{
    if p.len() > s.len() - i {
        return false;
    }
    let mut k: usize = 0;
    while k < p.len()
        invariant
            i + p@.len() <= s@.len(),
            k <= p.len(),
            forall|m: int| 0 <= m < k ==> s@[i + m] == #[trigger] p@[m],
        decreases p.len() - k,
    {
        assert(i + k < s.len());
        if s[i + k] != p[k] {
            assert(s@.subrange(i as int, i + p@.len())[k as int] != p@[k as int]);
            return false;
        }
        k = k + 1;
    }
    assert(s@.subrange(i as int, i + p@.len()) =~= p@);
    true
}

pub fn chars_starts_with(s: &[char], p: &[char]) -> (r: bool)
    ensures
        r == has_prefix(s@, p@),
{
    matches_at(s, p, 0)
}

pub fn starts_with(s: &str, p: &str) -> (r: bool)
    ensures
        r == has_prefix(s@, p@),
{
    chars_starts_with(to_chars(s).as_slice(), to_chars(p).as_slice())
}

pub fn chars_contains(s: &[char], p: &[char]) -> (r: bool)
    ensures
        r == contains(s@, p@),
{
    if p.len() > s.len() {
        return false;
    }
    let last = s.len() - p.len();
    let mut i: usize = 0;
    loop
        invariant
            p@.len() <= s@.len(),
            last == s@.len() - p@.len(),
            i <= last,
            forall|m: int| 0 <= m < i ==> !occurs_at(s@, p@, m),
        decreases last - i,
    {
        if matches_at(s, p, i) {
            return true;
        }
        if i == last {
            return false;
        }
        i = i + 1;
    }
}

pub fn str_contains(s: &str, p: &str) -> (r: bool)
    ensures
        r == contains(s@, p@),
{
    chars_contains(to_chars(s).as_slice(), to_chars(p).as_slice())
}


// ───────────────────────── numbers ─────────────────────────

pub open spec fn digit_char(d: nat) -> char {
    (48 + d) as char
}

/// Decimal digits of `n` (what `format!("{}", n)` prints for an unsigned value).
pub open spec fn dec(n: nat) -> Seq<char>
    decreases n,
{
    if n < 10 {
        seq![digit_char(n)]
    } else {
        dec(n / 10).push(digit_char(n % 10))
    }
}

/// Decimal text of a signed value, with a leading `-` when negative.
pub open spec fn signed_dec(n: int) -> Seq<char> {
    if n < 0 {
        seq!['-'] + dec((-n) as nat)
    } else {
        dec(n as nat)
    }
}

fn digit(d: u64) -> (c: char)
    requires
        d < 10,
    ensures
        c == digit_char(d as nat),
{
    let b: u8 = d as u8;
    (48u8 + b) as char
}

pub fn push_dec(s: &mut String, n: u64)
    ensures
        final(s)@ == old(s)@ + dec(n as nat),
    decreases n,
{
    if n >= 10 {
        push_dec(s, n / 10);
    }
    let c = digit(n % 10);
    push_char(s, c);
    proof {
        if n >= 10 {
            assert(final(s)@ =~= old(s)@ + dec(n as nat));
        } else {
            assert(final(s)@ =~= old(s)@ + dec(n as nat));
        }
    }
}

pub fn i64_to_string(n: i64) -> (s: String)
    ensures
        s@ == signed_dec(n as int),
{
    let mut s = String::new();
    if n < 0 {
        push_char(&mut s, '-');
        let m: u64 = if n == i64::MIN {
            9223372036854775808u64
        } else {
            (-n) as u64
        };
        push_dec(&mut s, m);
    } else {
        push_dec(&mut s, n as u64);
    }
    assert(s@ =~= signed_dec(n as int));
    s
}

pub open spec fn is_digit(c: char) -> bool {
    '0' <= c && c <= '9'
}

pub open spec fn digit_val(c: char) -> nat {
    ((c as int) - 48) as nat
}

pub open spec fn all_digits(s: Seq<char>) -> bool {
    forall|i: int| 0 <= i < s.len() ==> is_digit(#[trigger] s[i])
}

pub open spec fn digits_value(s: Seq<char>) -> nat
    decreases s.len(),
{
    if s.len() == 0 {
        0
    } else {
        digits_value(s.drop_last()) * 10 + digit_val(s.last())
    }
}

/// What `<usize as FromStr>::from_str` accepts: an optional `+`, then one or
/// more decimal digits whose value fits in a `usize`.
pub open spec fn parse_usize(s: Seq<char>) -> Option<nat> {
    let body = if s.len() > 0 && s[0] == '+' {
        s.drop_first()
    } else {
        s
    };
    if body.len() > 0 && all_digits(body) && digits_value(body) <= usize::MAX {
        Some(digits_value(body))
    } else {
        None
    }
}

/// The decimal text of a number is all digits, and reads back as the number.
pub proof fn lemma_dec_digits(n: nat)
    ensures
        dec(n).len() > 0,
        all_digits(dec(n)),
        digits_value(dec(n)) == n,
    decreases n,
{
    if n < 10 {
        assert(digit_val(digit_char(n)) == n);
        assert(dec(n) == seq![digit_char(n)]);
        assert(dec(n).drop_last() =~= Seq::<char>::empty());
        assert(dec(n).last() == digit_char(n));
        assert(digits_value(Seq::<char>::empty()) == 0);
        assert(digits_value(dec(n)) == digits_value(dec(n).drop_last()) * 10 + digit_val(dec(n).last()));
    } else {
        lemma_dec_digits(n / 10);
        let d = (n % 10) as nat;
        assert(digit_val(digit_char(d)) == d);
        let s = dec(n / 10).push(digit_char(d));
        assert(s.drop_last() =~= dec(n / 10));
        assert(all_digits(s)) by {
            assert forall|i: int| 0 <= i < s.len() implies is_digit(#[trigger] s[i]) by {
                if i < s.len() - 1 {
                    assert(s[i] == dec(n / 10)[i]);
                }
            }
        }
        assert(dec(n) == s);
        assert(s.last() == digit_char(d));
        assert(digits_value(s) == digits_value(s.drop_last()) * 10 + digit_val(s.last()));
        assert((n / 10) * 10 + d == n);
    }
}

/// What `dec` writes, `parse_usize` reads back.
pub proof fn lemma_dec_parses(n: nat)
    requires
        n <= usize::MAX,
    ensures
        parse_usize(dec(n)) == Some(n),
{
    lemma_dec_digits(n);
    assert(is_digit(dec(n)[0]));
}

proof fn lemma_digits_value_prefix(s: Seq<char>, k: int)
    requires
        0 <= k <= s.len(),
    ensures
        digits_value(s.subrange(0, k)) <= digits_value(s),
    decreases s.len(),
{
    if k == s.len() {
        assert(s.subrange(0, k) =~= s);
    } else {
        let t = s.drop_last();
        lemma_digits_value_prefix(t, k);
        assert(t.subrange(0, k) =~= s.subrange(0, k));
        assert(digits_value(t) <= digits_value(t) * 10 + digit_val(s.last())) by (nonlinear_arith);
    }
}

pub fn str_to_usize(text: &str) -> (r: Option<usize>)
    ensures
        r matches Some(v) ==> parse_usize(text@) == Some(v as nat),
        r is None ==> parse_usize(text@) is None,
{
    let all = to_chars(text);
    let start: usize = if all.len() > 0 && all[0] == '+' {
        1
    } else {
        0
    };
    let ghost body = if text@.len() > 0 && text@[0] == '+' {
        text@.drop_first()
    } else {
        text@
    };
    assert(body =~= all@.subrange(start as int, all@.len() as int));
    if start >= all.len() {
        return None;
    }
    let mut acc: usize = 0;
    let mut i: usize = start;
    while i < all.len()
        invariant
            start <= i <= all@.len(),
            all@ == text@,
            body == (if text@.len() > 0 && text@[0] == '+' {
                text@.drop_first()
            } else {
                text@
            }),
            body.len() > 0,
            body == all@.subrange(start as int, all@.len() as int),
            all_digits(all@.subrange(start as int, i as int)),
            acc as nat == digits_value(all@.subrange(start as int, i as int)),
        decreases all.len() - i,
    {
        let c = all[i];
        if c < '0' || c > '9' {
            assert(body[i - start] == c);
            assert(!is_digit(body[i - start]));
            assert(!all_digits(body));
            return None;
        }
        let d: usize = ((c as u32) - 48) as usize;
        let ghost prefix = all@.subrange(start as int, i as int);
        let ghost next = all@.subrange(start as int, i + 1);
        assert(next.drop_last() =~= prefix);
        match acc.checked_mul(10) {
            None => {
                proof {
                    assert(digits_value(next) >= acc * 10) by (nonlinear_arith)
                        requires
                            digits_value(next) == digits_value(prefix) * 10 + digit_val(c),
                            acc as nat == digits_value(prefix),
                    ;
                    lemma_digits_value_prefix(body, (i + 1 - start) as int);
                    assert(body.subrange(0, (i + 1 - start) as int) =~= next);
                    assert(digits_value(body) > usize::MAX);
                }
                return None;
            },
            Some(m) => match m.checked_add(d) {
                None => {
                    proof {
                        lemma_digits_value_prefix(body, (i + 1 - start) as int);
                        assert(body.subrange(0, (i + 1 - start) as int) =~= next);
                    }
                    return None;
                },
                Some(v) => {
                    acc = v;
                },
            },
        }
        i = i + 1;
        assert(all_digits(all@.subrange(start as int, i as int)));
    }
    assert(all@.subrange(start as int, i as int) =~= body);
    Some(acc)
}


// ───────────────────────── prefixes, pieces, joins ─────────────────────────

/// `str::trim_start_matches` with a string pattern: every leading copy of `p`
/// is removed (an empty pattern removes nothing).
pub open spec fn strip_all(s: Seq<char>, p: Seq<char>) -> Seq<char>
    decreases s.len(),
{
    if p.len() > 0 && has_prefix(s, p) {
        strip_all(s.subrange(p.len() as int, s.len() as int), p)
    } else {
        s
    }
}

pub fn trim_start_matches(s: &[char], p: &str) -> (r: Vec<char>)
    ensures
        r@ == strip_all(s@, p@),
{
    let pat = to_chars(p);
    let mut cur: Vec<char> = slice_range(s, 0, s.len());
    assert(cur@ =~= s@);
    if pat.len() == 0 {
        return cur;
    }
    while chars_starts_with(cur.as_slice(), pat.as_slice())
        invariant
            pat@ == p@,
            pat@.len() > 0,
            strip_all(cur@, p@) == strip_all(s@, p@),
        decreases cur@.len(),
    {
        let next = slice_range(cur.as_slice(), pat.len(), cur.len());
        cur = next;
    }
    cur
}

/// `str::trim_end_matches` with a character: every trailing copy of `c` is
/// removed.
pub open spec fn strip_end_all(s: Seq<char>, c: char) -> Seq<char>
    decreases s.len(),
{
    if s.len() > 0 && s.last() == c {
        strip_end_all(s.drop_last(), c)
    } else {
        s
    }
}

pub fn trim_end_char(s: &str, c: char) -> (r: String)
    ensures
        r@ == strip_end_all(s@, c),
{
    let v = to_chars(s);
    let mut j: usize = v.len();
    assert(v@.subrange(0, j as int) =~= s@);
    while j > 0 && v[j - 1] == c
        invariant
            j <= v@.len(),
            v@ == s@,
            strip_end_all(v@.subrange(0, j as int), c) == strip_end_all(s@, c),
        decreases j,
    {
        assert(v@.subrange(0, j as int).drop_last() =~= v@.subrange(0, j - 1));
        j = j - 1;
    }
    if j == v.len() {
        assert(v@.subrange(0, j as int) =~= s@);
    }
    let out = slice_range(v.as_slice(), 0, j);
    string_of(out.as_slice())
}

/// `str::split` on one separator character, with Rust's treatment of empty
/// pieces: `""` gives one empty piece and a trailing separator gives a
/// trailing empty piece.
pub open spec fn split_on(s: Seq<char>, c: char) -> Seq<Seq<char>>
    decreases s.len(),
{
    if s.len() == 0 {
        seq![Seq::<char>::empty()]
    } else {
        let prev = split_on(s.drop_last(), c);
        if s.last() == c {
            prev.push(Seq::<char>::empty())
        } else {
            prev.update(prev.len() - 1, prev.last().push(s.last()))
        }
    }
}

pub proof fn lemma_split_on_nonempty(s: Seq<char>, c: char)
    ensures
        split_on(s, c).len() > 0,
    decreases s.len(),
{
    if s.len() > 0 {
        lemma_split_on_nonempty(s.drop_last(), c);
    }
}

/// The last piece of a split holds no separator.
pub proof fn lemma_split_last_free(s: Seq<char>, c: char)
    ensures
        split_on(s, c).len() > 0,
        !split_on(s, c).last().contains(c),
    decreases s.len(),
{
    lemma_split_on_nonempty(s, c);
    if s.len() > 0 {
        lemma_split_last_free(s.drop_last(), c);
        let prev = split_on(s.drop_last(), c);
        if s.last() != c {
            let piece = prev.last().push(s.last());
            assert forall|i: int| 0 <= i < piece.len() implies piece[i] != c by {
                if i < prev.last().len() {
                    assert(piece[i] == prev.last()[i]);
                }
            }
        }
    }
}

/// A text without the separator splits into itself alone.
pub proof fn lemma_split_free(t: Seq<char>, c: char)
    requires
        !t.contains(c),
    ensures
        split_on(t, c) == seq![t],
    decreases t.len(),
{
    if t.len() > 0 {
        let u = t.drop_last();
        assert(!u.contains(c)) by {
            if u.contains(c) {
                let i = choose|i: int| 0 <= i < u.len() && u[i] == c;
                assert(t[i] == c);
            }
        }
        lemma_split_free(u, c);
        assert(t.last() != c) by {
            assert(t[t.len() - 1] == t.last());
        }
        assert(u.push(t.last()) =~= t);
        assert(split_on(t, c) =~= seq![t]);
    } else {
        assert(t =~= Seq::<char>::empty());
    }
}

/// Splitting `x + y` splits `x`, then continues from its last piece.
pub proof fn lemma_split_concat(x: Seq<char>, y: Seq<char>, c: char)
    ensures
        split_on(x + y, c) == split_on(x, c).drop_last() + split_on(split_on(x, c).last() + y, c),
    decreases y.len(),
{
    lemma_split_last_free(x, c);
    let a = split_on(x, c);
    if y.len() == 0 {
        assert(x + y =~= x);
        assert(a.last() + y =~= a.last());
        lemma_split_free(a.last(), c);
        assert(a.drop_last() + seq![a.last()] =~= a);
    } else {
        let y1 = y.drop_last();
        let z = y.last();
        lemma_split_concat(x, y1, c);
        let b = split_on(a.last() + y1, c);
        lemma_split_on_nonempty(a.last() + y1, c);
        assert((x + y).drop_last() =~= x + y1);
        assert((x + y).last() == z);
        assert((a.last() + y).drop_last() =~= a.last() + y1);
        assert((a.last() + y).last() == z);
        assert(x + y =~= (x + y1).push(z));
        assert(a.last() + y =~= (a.last() + y1).push(z));
        if z == c {
            assert(split_on(x + y, c) =~= split_on(x + y1, c).push(Seq::<char>::empty()));
            assert(split_on(a.last() + y, c) =~= b.push(Seq::<char>::empty()));
            assert(a.drop_last() + b.push(Seq::<char>::empty()) =~= (a.drop_last() + b).push(Seq::<char>::empty()));
        } else {
            let whole = split_on(x + y1, c);
            assert(whole == a.drop_last() + b);
            assert(split_on(x + y, c) =~= whole.update(whole.len() - 1, whole.last().push(z)));
            assert(split_on(a.last() + y, c) =~= b.update(b.len() - 1, b.last().push(z)));
            assert(whole.last() == b.last());
            assert(whole.update(whole.len() - 1, whole.last().push(z)) =~= a.drop_last() + b.update(
                b.len() - 1,
                b.last().push(z),
            ));
        }
    }
}

pub fn split_chars(s: &[char], c: char) -> (r: Vec<Vec<char>>)
    ensures
        r@.len() == split_on(s@, c).len(),
        forall|i: int| 0 <= i < r@.len() ==> (#[trigger] r@[i])@ == split_on(s@, c)[i],
{
    let mut out: Vec<Vec<char>> = Vec::new();
    let mut cur: Vec<char> = Vec::new();
    let mut i: usize = 0;
    proof {
        assert(s@.subrange(0, 0) =~= Seq::<char>::empty());
    }
    while i < s.len()
        invariant
            i <= s@.len(),
            split_on(s@.subrange(0, i as int), c).len() == out@.len() + 1,
            forall|k: int|
                0 <= k < out@.len() ==> (#[trigger] out@[k])@ == split_on(
                    s@.subrange(0, i as int),
                    c,
                )[k],
            cur@ == split_on(s@.subrange(0, i as int), c).last(),
        decreases s.len() - i,
    {
        let ghost before = s@.subrange(0, i as int);
        let ghost after = s@.subrange(0, i + 1);
        assert(after.drop_last() =~= before);
        proof {
            lemma_split_on_nonempty(before, c);
        }
        if s[i] == c {
            out.push(cur);
            cur = Vec::new();
            assert(cur@ =~= Seq::<char>::empty());
        } else {
            cur.push(s[i]);
        }
        i = i + 1;
        assert(forall|k: int|
            0 <= k < out@.len() ==> (#[trigger] out@[k])@ == split_on(
                s@.subrange(0, i as int),
                c,
            )[k]);
    }
    proof {
        lemma_split_on_nonempty(s@.subrange(0, i as int), c);
    }
    out.push(cur);
    assert(s@.subrange(0, i as int) =~= s@);
    out
}

/// `[..].join(sep)`.
pub open spec fn join(parts: Seq<Seq<char>>, sep: Seq<char>) -> Seq<char>
    decreases parts.len(),
{
    if parts.len() == 0 {
        Seq::<char>::empty()
    } else if parts.len() == 1 {
        parts[0]
    } else {
        join(parts.drop_last(), sep) + sep + parts.last()
    }
}

pub fn join_strings(parts: &Vec<String>, sep: &str) -> (r: String)
    ensures
        r@ == join(parts@.map_values(|p: String| p@), sep@),
{
    let ghost views = parts@.map_values(|p: String| p@);
    let mut out = String::new();
    let mut i: usize = 0;
    while i < parts.len()
        invariant
            i <= parts@.len(),
            views == parts@.map_values(|p: String| p@),
            out@ == join(views.subrange(0, i as int), sep@),
        decreases parts.len() - i,
    {
        assert(views.subrange(0, i + 1).drop_last() =~= views.subrange(0, i as int));
        if i > 0 {
            out.append(sep);
        }
        out.append(parts[i].as_str());
        i = i + 1;
        assert(out@ =~= join(views.subrange(0, i as int), sep@));
    }
    assert(views.subrange(0, i as int) =~= views);
    out
}

} // verus!
