//! Text helpers: whitespace trimming, base URL normalization, the `Bearer `
//! prefix, and decimal rendering of integers.
use vstd::prelude::*;
use vstd::string::StrSliceExecFns;

verus! {

/// Whether `c` has the Unicode `White_Space` property: the code points that
/// the Unicode Character Database (PropList.txt) lists as white space.
pub open spec fn unicode_whitespace(c: char) -> bool {
    let n = c as u32;
    ||| 0x09 <= n <= 0x0D
    ||| n == 0x20
    ||| n == 0x85
    ||| n == 0xA0
    ||| n == 0x1680
    ||| 0x2000 <= n <= 0x200A
    ||| n == 0x2028
    ||| n == 0x2029
    ||| n == 0x202F
    ||| n == 0x205F
    ||| n == 0x3000
}

/// Calls `char::is_whitespace`, which its documentation defines as the
/// Unicode `White_Space` property of `c` (the list in `unicode_whitespace`).
#[verifier::external_body]
fn is_whitespace(c: char) -> (b: bool)
    ensures
        b == unicode_whitespace(c),
{
    c.is_whitespace()
}

/// Calls `String::push`, which appends one character.
#[verifier::external_body]
fn push_char(s: &mut String, c: char)
    ensures
        final(s)@ == old(s)@.push(c),
{
    s.push(c)
}

/// `s` without its leading whitespace.
pub open spec fn trim_start(s: Seq<char>) -> Seq<char>
    decreases s.len(),
{
    if s.len() > 0 && unicode_whitespace(s[0]) {
        trim_start(s.drop_first())
    } else {
        s
    }
}

/// `s` without its trailing whitespace.
pub open spec fn trim_end(s: Seq<char>) -> Seq<char>
    decreases s.len(),
{
    if s.len() > 0 && unicode_whitespace(s.last()) {
        trim_end(s.drop_last())
    } else {
        s
    }
}

/// `s` without leading and trailing whitespace.
pub open spec fn trimmed(s: Seq<char>) -> Seq<char> {
    trim_end(trim_start(s))
}

/// The characters of `s`, in order.
fn chars_of(s: &str) -> (v: Vec<char>)
    ensures
        v@ == s@,
{
    broadcast use vstd::string::group_string_axioms;

    let mut v: Vec<char> = Vec::new();
    for c in it: s.chars()
        invariant
            v@ == it.seq().take(it.index() as int),
            it.seq() == s@,
    {
        v.push(c);
        proof {
            assert(v@ =~= it.seq().take(it.index() + 1));
        }
    }
    proof {
        assert(v@ =~= s@);
    }
    v
}

/// Removes leading and trailing whitespace, as `str::trim` does.
pub fn trim(s: &str) -> (r: String)
    ensures
        r@ == trimmed(s@),
{
    let cs = chars_of(s);
    let n = cs.len();
    let mut start: usize = 0;
    assert(s@.subrange(0, n as int) =~= s@);
    while start < n && is_whitespace(cs[start])
        invariant
            n == cs@.len(),
            cs@ == s@,
            start <= n,
            trim_start(s@) == trim_start(s@.subrange(start as int, n as int)),
        decreases n - start,
    {
        proof {
            assert(s@.subrange(start as int, n as int).drop_first() =~= s@.subrange(
                start + 1,
                n as int,
            ));
        }
        start = start + 1;
    }
    assert(trim_start(s@) == s@.subrange(start as int, n as int));
    let mut end: usize = n;
    while end > start && is_whitespace(cs[end - 1])
        invariant
            n == cs@.len(),
            cs@ == s@,
            start <= end <= n,
            trim_end(s@.subrange(start as int, n as int)) == trim_end(
                s@.subrange(start as int, end as int),
            ),
        decreases end - start,
    {
        proof {
            assert(s@.subrange(start as int, end as int).drop_last() =~= s@.subrange(
                start as int,
                end - 1,
            ));
        }
        end = end - 1;
    }
    let r = s.substring_char(start, end);
    String::from_str(r)
}

/// The base URL used when none is configured.
pub const DEFAULT_BASE_URL: &'static str = "https://fufei.mossx.ai";

/// The base URL a user typed, with surrounding whitespace removed; the
/// default base URL when nothing else is left.
pub open spec fn normalized_base_url(typed: Seq<char>) -> Seq<char> {
    if trimmed(typed).len() == 0 {
        DEFAULT_BASE_URL@
    } else {
        trimmed(typed)
    }
}

/// Trims a typed base URL and falls back to the default when it is blank.
pub fn normalize_base_url(typed: &str) -> (r: String)
    ensures
        r@ == normalized_base_url(typed@),
        r@.len() > 0,
{
    proof {
        reveal_strlit("https://fufei.mossx.ai");
    }
    let t = trim(typed);
    if t.as_str().is_empty() {
        String::from_str(DEFAULT_BASE_URL)
    } else {
        t
    }
}

/// The characters of the prefix `Bearer ` (with a capital or a small `b`).
pub open spec fn bearer_prefix(capital: bool) -> Seq<char> {
    seq![if capital { 'B' } else { 'b' }, 'e', 'a', 'r', 'e', 'r', ' ']
}

/// Whether `s` begins with `p`.
pub open spec fn has_prefix(s: Seq<char>, p: Seq<char>) -> bool {
    p.len() <= s.len() && s.subrange(0, p.len() as int) == p
}

/// A pasted token without one leading `Bearer ` or `bearer `.
pub open spec fn without_bearer(token: Seq<char>) -> Seq<char> {
    if has_prefix(token, bearer_prefix(true)) || has_prefix(token, bearer_prefix(false)) {
        token.skip(7)
    } else {
        token
    }
}

/// Removes one leading `Bearer ` (or `bearer `) that a user pasted along
/// with a token; only the first such prefix goes.
pub fn strip_bearer(token: &str) -> (r: String)
    ensures
        r@ == without_bearer(token@),
{
    let cs = chars_of(token);
    let n = cs.len();
    if n >= 7 && (cs[0] == 'B' || cs[0] == 'b') && cs[1] == 'e' && cs[2] == 'a' && cs[3] == 'r'
        && cs[4] == 'e' && cs[5] == 'r' && cs[6] == ' ' {
        proof {
            let capital = cs@[0] == 'B';
            assert(token@.subrange(0, 7) =~= bearer_prefix(capital));
        }
        String::from_str(token.substring_char(7, n))
    } else {
        proof {
            if has_prefix(token@, bearer_prefix(true)) {
                assert(token@.subrange(0, 7)[0] == 'B');
            }
            if has_prefix(token@, bearer_prefix(false)) {
                assert(token@.subrange(0, 7)[0] == 'b');
            }
        }
        String::from_str(token)
    }
}

/// The decimal digit character for `d` (below ten).
pub open spec fn digit_char(d: nat) -> char {
    seq!['0', '1', '2', '3', '4', '5', '6', '7', '8', '9'][d as int]
}

/// The decimal rendering of `n`, without leading zeros.
pub open spec fn decimal(n: nat) -> Seq<char>
    decreases n,
{
    if n < 10 {
        seq![digit_char(n)]
    } else {
        decimal(n / 10).push(digit_char(n % 10))
    }
}

/// The decimal rendering of `i`, with a leading `-` when it is negative.
pub open spec fn signed_decimal(i: int) -> Seq<char> {
    if i < 0 {
        seq!['-'] + decimal((-i) as nat)
    } else {
        decimal(i as nat)
    }
}

fn digit(d: u64) -> (c: char)
    requires
        d < 10,
    ensures
        c == digit_char(d as nat),
{
    match d {
        0 => '0',
        1 => '1',
        2 => '2',
        3 => '3',
        4 => '4',
        5 => '5',
        6 => '6',
        7 => '7',
        8 => '8',
        _ => '9',
    }
}

fn push_decimal(out: &mut String, n: u64)
    ensures
        final(out)@ == old(out)@ + decimal(n as nat),
    decreases n,
{
    if n >= 10 {
        push_decimal(out, n / 10);
    }
    let c = digit(n % 10);
    push_char(out, c);
    proof {
        if n >= 10 {
            assert(old(out)@ + decimal(n as nat) =~= (old(out)@ + decimal((n / 10) as nat)).push(c));
        } else {
            assert(old(out)@ + decimal(n as nat) =~= old(out)@.push(c));
        }
    }
}

/// Renders an unsigned integer in decimal, as its `Display` does.
pub fn u64_to_decimal(n: u64) -> (r: String)
    ensures
        r@ == decimal(n as nat),
{
    let mut out = String::new();
    push_decimal(&mut out, n);
    proof {
        assert(out@ =~= decimal(n as nat));
    }
    out
}

/// Renders a signed integer in decimal, as its `Display` does.
pub fn i64_to_decimal(i: i64) -> (r: String)
    ensures
        r@ == signed_decimal(i as int),
{
    let mut out = String::new();
    if i < 0 {
        push_char(&mut out, '-');
        let magnitude = (-(i as i128)) as u64;
        push_decimal(&mut out, magnitude);
    } else {
        push_decimal(&mut out, i as u64);
    }
    proof {
        assert(out@ =~= signed_decimal(i as int));
    }
    out
}

proof fn trim_start_cut(s: Seq<char>) -> (a: int)
    ensures
        0 <= a <= s.len(),
        trim_start(s) == s.subrange(a, s.len() as int),
        forall|k: int| 0 <= k < a ==> unicode_whitespace(#[trigger] s[k]),
        a < s.len() ==> !unicode_whitespace(s[a]),
    decreases s.len(),
{
    if s.len() > 0 && unicode_whitespace(s[0]) {
        let t = s.drop_first();
        let a0 = trim_start_cut(t);
        assert(t.subrange(a0, t.len() as int) =~= s.subrange(a0 + 1, s.len() as int));
        assert forall|k: int| 0 <= k < a0 + 1 implies unicode_whitespace(#[trigger] s[k]) by {
            if k > 0 {
                assert(s[k] == t[k - 1]);
            }
        }
        a0 + 1
    } else {
        assert(s.subrange(0, s.len() as int) =~= s);
        0
    }
}

proof fn trim_end_cut(s: Seq<char>) -> (b: int)
    ensures
        0 <= b <= s.len(),
        trim_end(s) == s.subrange(0, b),
        forall|k: int| b <= k < s.len() ==> unicode_whitespace(#[trigger] s[k]),
        b > 0 ==> !unicode_whitespace(s[b - 1]),
    decreases s.len(),
{
    if s.len() > 0 && unicode_whitespace(s.last()) {
        let t = s.drop_last();
        let b0 = trim_end_cut(t);
        assert(t.subrange(0, b0) =~= s.subrange(0, b0));
        assert forall|k: int| b0 <= k < s.len() implies unicode_whitespace(#[trigger] s[k]) by {
            if k < s.len() - 1 {
                assert(s[k] == t[k]);
            }
        }
        b0
    } else {
        assert(s.subrange(0, s.len() as int) =~= s);
        s.len() as int
    }
}

/// Trimming keeps one unbroken stretch of the text: everything before and
/// after it is whitespace, and it neither begins nor ends with whitespace.
pub proof fn trimming_keeps_the_core(s: Seq<char>)
    ensures
        exists|a: int, b: int|
            0 <= a <= b <= s.len() && trimmed(s) == s.subrange(a, b) && (forall|k: int|
                0 <= k < a ==> unicode_whitespace(#[trigger] s[k])) && (forall|k: int|
                b <= k < s.len() ==> unicode_whitespace(#[trigger] s[k])) && (a < b ==> !unicode_whitespace(
                s[a],
            ) && !unicode_whitespace(s[b - 1])),
{
    let a = trim_start_cut(s);
    let t = s.subrange(a, s.len() as int);
    let b0 = trim_end_cut(t);
    let b = a + b0;
    assert(t.subrange(0, b0) =~= s.subrange(a, b));
    assert forall|k: int| b <= k < s.len() implies unicode_whitespace(#[trigger] s[k]) by {
        assert(s[k] == t[k - a]);
    }
    if a < b {
        assert(s[a] == t[0]);
        assert(s[b - 1] == t[b0 - 1]);
    }
    assert(0 <= a <= b <= s.len() && trimmed(s) == s.subrange(a, b) && (forall|k: int|
        0 <= k < a ==> unicode_whitespace(#[trigger] s[k])) && (forall|k: int|
        b <= k < s.len() ==> unicode_whitespace(#[trigger] s[k])) && (a < b ==> !unicode_whitespace(s[a])
        && !unicode_whitespace(s[b - 1])));
}

/// A pasted token loses exactly its first seven characters when they spell
/// `Bearer ` (or `bearer `), and is kept whole otherwise.
pub proof fn bearer_stripping(token: Seq<char>)
    ensures
        (token.len() >= 7 && (token[0] == 'B' || token[0] == 'b') && token[1] == 'e' && token[2]
            == 'a' && token[3] == 'r' && token[4] == 'e' && token[5] == 'r' && token[6] == ' ')
            ==> without_bearer(token) == token.skip(7),
        !(token.len() >= 7 && (token[0] == 'B' || token[0] == 'b') && token[1] == 'e' && token[2]
            == 'a' && token[3] == 'r' && token[4] == 'e' && token[5] == 'r' && token[6] == ' ')
            ==> without_bearer(token) == token,
{
    if token.len() >= 7 && (token[0] == 'B' || token[0] == 'b') && token[1] == 'e' && token[2] == 'a'
        && token[3] == 'r' && token[4] == 'e' && token[5] == 'r' && token[6] == ' ' {
        assert(token.subrange(0, 7) =~= bearer_prefix(token[0] == 'B'));
    } else {
        if has_prefix(token, bearer_prefix(true)) {
            assert(token.subrange(0, 7)[0] == token[0]);
            assert(token.subrange(0, 7)[6] == token[6]);
            assert(token.subrange(0, 7)[1] == token[1]);
            assert(token.subrange(0, 7)[2] == token[2]);
            assert(token.subrange(0, 7)[3] == token[3]);
            assert(token.subrange(0, 7)[4] == token[4]);
            assert(token.subrange(0, 7)[5] == token[5]);
        }
        if has_prefix(token, bearer_prefix(false)) {
            assert(token.subrange(0, 7)[0] == token[0]);
            assert(token.subrange(0, 7)[6] == token[6]);
            assert(token.subrange(0, 7)[1] == token[1]);
            assert(token.subrange(0, 7)[2] == token[2]);
            assert(token.subrange(0, 7)[3] == token[3]);
            assert(token.subrange(0, 7)[4] == token[4]);
            assert(token.subrange(0, 7)[5] == token[5]);
        }
    }
}

/// The number that a string of decimal digits spells.
pub open spec fn digits_value(s: Seq<char>) -> int
    decreases s.len(),
{
    if s.len() == 0 {
        0
    } else {
        digits_value(s.drop_last()) * 10 + (s.last() as int - '0' as int)
    }
}

/// Whether every character of `s` is a decimal digit.
pub open spec fn all_digits(s: Seq<char>) -> bool {
    forall|k: int| 0 <= k < s.len() ==> '0' <= #[trigger] s[k] <= '9'
}

proof fn digit_char_value(d: nat)
    requires
        d < 10,
    ensures
        digit_char(d) as int - '0' as int == d,
        '0' <= digit_char(d) <= '9',
{
    if d == 0 {} else if d == 1 {} else if d == 2 {} else if d == 3 {} else if d == 4 {
    } else if d == 5 {} else if d == 6 {} else if d == 7 {} else if d == 8 {} else {}
}

/// The decimal rendering of `n` is a string of digits that spells `n`,
/// starting with `0` only when `n` is zero.
pub proof fn decimal_spells_the_number(n: nat)
    ensures
        all_digits(decimal(n)),
        digits_value(decimal(n)) == n,
        decimal(n).len() > 0,
        decimal(n)[0] == '0' ==> n == 0,
    decreases n,
{
    if n < 10 {
        digit_char_value(n);
        assert(seq![digit_char(n)].drop_last() =~= Seq::<char>::empty());
        assert(digits_value(Seq::<char>::empty()) == 0);
        assert(digits_value(decimal(n)) == 0 * 10 + (digit_char(n) as int - '0' as int));
    } else {
        decimal_spells_the_number(n / 10);
        digit_char_value(n % 10);
        let p = decimal(n / 10);
        assert(p.push(digit_char(n % 10)).drop_last() =~= p);
        assert(digits_value(decimal(n)) == digits_value(p) * 10 + (digit_char(n % 10) as int - '0' as int));
        assert(n == (n / 10) * 10 + n % 10) by (nonlinear_arith);
        assert(decimal(n)[0] == p[0]);
        assert forall|k: int| 0 <= k < decimal(n).len() implies '0' <= #[trigger] decimal(n)[k] <= '9' by {
            if k < p.len() {
                assert(decimal(n)[k] == p[k]);
            }
        }
        if p[0] == '0' {
            assert(n / 10 == 0);
        }
    }
}

} // verus!
