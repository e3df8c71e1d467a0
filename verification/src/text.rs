use vstd::prelude::*;
use vstd::string::{StrSliceExecFns, StringExecFns};

verus! {

/// The characters `char::is_whitespace` accepts: Unicode `White_Space`.
pub open spec fn is_whitespace_char(c: char) -> bool {
    ||| '\t' <= c <= '\r'
    ||| c == ' '
    ||| c == '\u{85}'
    ||| c == '\u{A0}'
    ||| c == '\u{1680}'
    ||| '\u{2000}' <= c <= '\u{200A}'
    ||| c == '\u{2028}'
    ||| c == '\u{2029}'
    ||| c == '\u{202F}'
    ||| c == '\u{205F}'
    ||| c == '\u{3000}'
}

pub fn is_whitespace(c: char) -> (b: bool)
    ensures
        b == is_whitespace_char(c),
{
    ('\t' <= c && c <= '\r') || c == ' ' || c == '\u{85}' || c == '\u{A0}' || c == '\u{1680}'
        || ('\u{2000}' <= c && c <= '\u{200A}') || c == '\u{2028}' || c == '\u{2029}'
        || c == '\u{202F}' || c == '\u{205F}' || c == '\u{3000}'
}

/// `c` with ASCII capitals mapped to small letters.
pub open spec fn lower_char(c: char) -> char {
    if 'A' <= c <= 'Z' {
        ((c as u32) + 32) as char
    } else {
        c
    }
}

pub fn to_ascii_lower(c: char) -> (r: char)
    ensures
        r == lower_char(c),
{
    if 'A' <= c && c <= 'Z' {
        let b: u8 = (c as u8) + 32;
        b as char
    } else {
        c
    }
}

/// `c` with ASCII small letters mapped to capitals.
pub open spec fn upper_char(c: char) -> char {
    if 'a' <= c <= 'z' {
        ((c as u32) - 32) as char
    } else {
        c
    }
}

/// Index of the first non-whitespace character of `s` (its length if none).
pub open spec fn trim_start(s: Seq<char>) -> int
    decreases s.len(),
{
    if s.len() == 0 {
        0
    } else if is_whitespace_char(s[0]) {
        1 + trim_start(s.drop_first())
    } else {
        0
    }
}

/// One past the last non-whitespace character of `s` (0 if none).
pub open spec fn trim_end(s: Seq<char>) -> int
    decreases s.len(),
{
    if s.len() == 0 {
        0
    } else if is_whitespace_char(s.last()) {
        trim_end(s.drop_last())
    } else {
        s.len() as int
    }
}

/// `s` without leading and trailing whitespace, as `str::trim` returns it.
pub open spec fn trimmed(s: Seq<char>) -> Seq<char> {
    if trim_start(s) < trim_end(s) {
        s.subrange(trim_start(s), trim_end(s))
    } else {
        Seq::empty()
    }
}

/// `s` with every ASCII capital mapped to its small letter.
pub open spec fn lowered(s: Seq<char>) -> Seq<char> {
    s.map_values(|c: char| lower_char(c))
}


proof fn lemma_trim_start(s: Seq<char>, i: int)
    requires
        0 <= i <= s.len(),
        forall|k: int| 0 <= k < i ==> is_whitespace_char(#[trigger] s[k]),
        i == s.len() || !is_whitespace_char(s[i]),
    ensures
        trim_start(s) == i,
    decreases i,
{
    if s.len() > 0 && i > 0 {
        let t = s.drop_first();
        assert forall|k: int| 0 <= k < i - 1 implies is_whitespace_char(#[trigger] t[k]) by {
            assert(t[k] == s[k + 1]);
        }
        assert(i - 1 == t.len() || t[i - 1] == s[i]);
        lemma_trim_start(t, i - 1);
        assert(is_whitespace_char(s[0]));
    }
}

proof fn lemma_trim_end(s: Seq<char>, j: int)
    requires
        0 <= j <= s.len(),
        forall|k: int| j <= k < s.len() ==> is_whitespace_char(#[trigger] s[k]),
        j == 0 || !is_whitespace_char(s[j - 1]),
    ensures
        trim_end(s) == j,
    decreases s.len(),
{
    if s.len() > 0 {
        if j < s.len() {
            let t = s.drop_last();
            assert forall|k: int| j <= k < t.len() implies is_whitespace_char(#[trigger] t[k]) by {
                assert(t[k] == s[k]);
            }
            assert(j == 0 || t[j - 1] == s[j - 1]);
            assert(is_whitespace_char(s[s.len() - 1]));
            lemma_trim_end(t, j);
        }
    }
}

/// Start and end of `s` without surrounding whitespace.
fn trim_bounds(s: &str) -> (r: (usize, usize))
    ensures
        r.0 <= r.1 <= s@.len(),
        r.0 < r.1 ==> r.0 == trim_start(s@) && r.1 == trim_end(s@),
        r.0 == r.1 ==> trimmed(s@) == Seq::<char>::empty(),
{
    let n = s.unicode_len();
    let mut i: usize = 0;
    while i < n && is_whitespace(s.get_char(i))
        invariant
            n == s@.len(),
            i <= n,
            forall|k: int| 0 <= k < i ==> is_whitespace_char(#[trigger] s@[k]),
        decreases n - i,
    {
        i = i + 1;
    }
    proof { lemma_trim_start(s@, i as int); }
    if i == n {
        proof {
            if n > 0 {
                lemma_trim_end(s@, 0);
            } else {
                lemma_trim_end(s@, 0);
            }
        }
        return (n, n);
    }
    let mut j: usize = n;
    while j > 0 && is_whitespace(s.get_char(j - 1))
        invariant
            n == s@.len(),
            i < n,
            !is_whitespace_char(s@[i as int]),
            i < j <= n || j == 0,
            j <= n,
            forall|k: int| j <= k < n ==> is_whitespace_char(#[trigger] s@[k]),
        decreases j,
    {
        j = j - 1;
        assert(j > i) by {
            if j <= i {
                assert(j == i);
            }
        }
    }
    proof { lemma_trim_end(s@, j as int); }
    (i, j)
}

/// `s` without leading and trailing whitespace.
pub fn trim_str(s: &str) -> (r: &str)
    ensures
        r@ == trimmed(s@),
{
    let (a, b) = trim_bounds(s);
    s.substring_char(a, b)
}

/// The characters of `s` with ASCII capitals made small.
pub fn lower_chars(s: &str) -> (r: Vec<char>)
    ensures
        r@ == lowered(s@),
{
    let n = s.unicode_len();
    let mut out: Vec<char> = Vec::new();
    let mut i: usize = 0;
    while i < n
        invariant
            n == s@.len(),
            i <= n,
            out@ == lowered(s@.subrange(0, i as int)),
        decreases n - i,
    {
        out.push(to_ascii_lower(s.get_char(i)));
        assert(out@ =~= lowered(s@.subrange(0, i + 1)));
        i = i + 1;
    }
    assert(s@.subrange(0, n as int) =~= s@);
    out
}

/// Whether the characters in `a` spell `b`.
pub fn chars_eq_str(a: &Vec<char>, b: &str) -> (r: bool)
    ensures
        r == (a@ == b@),
{
    let n = b.unicode_len();
    if a.len() != n {
        return false;
    }
    let mut i: usize = 0;
    while i < n
        invariant
            n == b@.len(),
            a@.len() == n,
            i <= n,
            forall|k: int| 0 <= k < i ==> a@[k] == b@[k],
        decreases n - i,
    {
        if a[i] != b.get_char(i) {
            return false;
        }
        i = i + 1;
    }
    assert(a@ =~= b@);
    true
}


/// The character of a decimal digit.
pub open spec fn digit_char(d: nat) -> char {
    ((48 + d) as u32) as char
}

/// `n` written in decimal, as `{}` prints an unsigned integer.
pub open spec fn decimal_text(n: nat) -> Seq<char>
    decreases n,
{
    if n < 10 {
        seq![digit_char(n)]
    } else {
        decimal_text(n / 10).push(digit_char(n % 10))
    }
}

fn digit_str(d: u64) -> (s: &'static str)
    requires
        d < 10,
    ensures
        s@ == seq![digit_char(d as nat)],
{
    proof {
        reveal_strlit("0");
        reveal_strlit("1");
        reveal_strlit("2");
        reveal_strlit("3");
        reveal_strlit("4");
        reveal_strlit("5");
        reveal_strlit("6");
        reveal_strlit("7");
        reveal_strlit("8");
        reveal_strlit("9");
    }
    let s = match d {
        0 => "0",
        1 => "1",
        2 => "2",
        3 => "3",
        4 => "4",
        5 => "5",
        6 => "6",
        7 => "7",
        8 => "8",
        _ => "9",
    };
    assert(s@ =~= seq![digit_char(d as nat)]);
    s
}

/// Appends `n` in decimal to `s`.
pub fn append_decimal(s: &mut String, n: u64)
    ensures
        final(s)@ == old(s)@ + decimal_text(n as nat),
    decreases n,
{
    if n >= 10 {
        append_decimal(s, n / 10);
    }
    s.append(digit_str(n % 10));
    assert(final(s)@ =~= old(s)@ + decimal_text(n as nat));
}


pub open spec fn is_digit_char(c: char) -> bool {
    '0' <= c <= '9'
}

/// The number the decimal digits `s` spell.
pub open spec fn digits_value(s: Seq<char>) -> nat
    decreases s.len(),
{
    if s.len() == 0 {
        0
    } else {
        digits_value(s.drop_last()) * 10 + ((s.last() as u32) - 48) as nat
    }
}

/// `s` without one leading `+`.
pub open spec fn unsigned_digits(s: Seq<char>) -> Seq<char> {
    if s.len() > 0 && s[0] == '+' {
        s.drop_first()
    } else {
        s
    }
}

/// What `str::parse::<usize>` gives: an optional `+`, then one or more ASCII
/// digits whose value fits in `usize`.
pub open spec fn parsed_usize(s: Seq<char>) -> Option<usize> {
    let d = unsigned_digits(s);
    if d.len() > 0 && (forall|i: int| 0 <= i < d.len() ==> is_digit_char(#[trigger] d[i]))
        && digits_value(d) <= usize::MAX {
        Some(digits_value(d) as usize)
    } else {
        None
    }
}

proof fn lemma_digits_value_monotone(s: Seq<char>, i: int)
    requires
        0 <= i <= s.len(),
        forall|k: int| 0 <= k < s.len() ==> is_digit_char(#[trigger] s[k]),
    ensures
        digits_value(s.subrange(0, i)) <= digits_value(s),
    decreases s.len() - i,
{
    if i < s.len() {
        lemma_digits_value_monotone(s, i + 1);
        assert(s.subrange(0, i + 1).drop_last() =~= s.subrange(0, i));
    } else {
        assert(s.subrange(0, i) =~= s);
    }
}

/// Parses a decimal `usize`.
pub fn parse_usize(s: &str) -> (r: Option<usize>)
    ensures
        r == parsed_usize(s@),
{
    let n = s.unicode_len();
    let mut i: usize = 0;
    if n > 0 && s.get_char(0) == '+' {
        i = 1;
    }
    let start = i;
    let ghost d = unsigned_digits(s@);
    assert(d =~= s@.subrange(start as int, n as int));
    if start == n {
        return None;
    }
    let mut acc: usize = 0;
    while i < n
        invariant
            n == s@.len(),
            start <= i <= n,
            start < n,
            d == s@.subrange(start as int, n as int),
            d == unsigned_digits(s@),
            forall|k: int| start <= k < i ==> is_digit_char(#[trigger] s@[k]),
            acc == digits_value(s@.subrange(start as int, i as int)),
        decreases n - i,
    {
        let c = s.get_char(i);
        assert(s@.subrange(start as int, i + 1).drop_last() =~= s@.subrange(start as int, i as int));
        if !('0' <= c && c <= '9') {
            assert(!is_digit_char(d[i - start]));
            return None;
        }
        let v: u32 = (c as u32) - 48;
        let ghost prefix = s@.subrange(start as int, i + 1);
        assert(prefix =~= d.subrange(0, i + 1 - start));
        assert(digits_value(prefix) == acc * 10 + v);
        if acc > (usize::MAX - v as usize) / 10 {
            proof {
                assert(acc * 10 + v > usize::MAX);
                if forall|k: int| 0 <= k < d.len() ==> is_digit_char(#[trigger] d[k]) {
                    lemma_digits_value_monotone(d, i + 1 - start);
                }
            }
            return None;
        }
        acc = acc * 10 + v as usize;
        i = i + 1;
    }
    assert(s@.subrange(start as int, n as int) =~= d);
    Some(acc)
}


/// Whether `a` and `b` hold the same characters.
pub fn str_eq(a: &str, b: &str) -> (r: bool)
    ensures
        r == (a@ == b@),
{
    let n = a.unicode_len();
    if n != b.unicode_len() {
        return false;
    }
    let mut i: usize = 0;
    while i < n
        invariant
            n == a@.len(),
            n == b@.len(),
            i <= n,
            forall|k: int| 0 <= k < i ==> a@[k] == b@[k],
        decreases n - i,
    {
        if a.get_char(i) != b.get_char(i) {
            return false;
        }
        i = i + 1;
    }
    assert(a@ =~= b@);
    true
}

/// `s` with every ASCII small letter mapped to its capital.
pub open spec fn uppered(s: Seq<char>) -> Seq<char> {
    s.map_values(|c: char| upper_char(c))
}

proof fn lemma_trim_start_props(s: Seq<char>)
    ensures
        0 <= trim_start(s) <= s.len(),
        forall|k: int| 0 <= k < trim_start(s) ==> is_whitespace_char(#[trigger] s[k]),
        trim_start(s) == s.len() || !is_whitespace_char(s[trim_start(s)]),
    decreases s.len(),
{
    if s.len() > 0 && is_whitespace_char(s[0]) {
        let t = s.drop_first();
        lemma_trim_start_props(t);
        assert forall|k: int| 0 <= k < trim_start(s) implies is_whitespace_char(#[trigger] s[k]) by {
            if k > 0 {
                assert(s[k] == t[k - 1]);
            }
        }
        if trim_start(s) < s.len() {
            assert(s[trim_start(s)] == t[trim_start(t)]);
        }
    }
}

proof fn lemma_trim_end_props(s: Seq<char>)
    ensures
        0 <= trim_end(s) <= s.len(),
        forall|k: int| trim_end(s) <= k < s.len() ==> is_whitespace_char(#[trigger] s[k]),
        trim_end(s) == 0 || !is_whitespace_char(s[trim_end(s) - 1]),
    decreases s.len(),
{
    if s.len() > 0 && is_whitespace_char(s.last()) {
        let t = s.drop_last();
        lemma_trim_end_props(t);
        assert forall|k: int| trim_end(s) <= k < s.len() implies is_whitespace_char(#[trigger] s[k]) by {
            if k < s.len() - 1 {
                assert(s[k] == t[k]);
            }
        }
        if trim_end(s) > 0 {
            assert(s[trim_end(s) - 1] == t[trim_end(t) - 1]);
        }
    }
}

/// Whitespace added around a string does not change what trimming leaves.
pub proof fn lemma_trimmed_ignores_padding(pre: Seq<char>, s: Seq<char>, post: Seq<char>)
    requires
        forall|k: int| 0 <= k < pre.len() ==> is_whitespace_char(#[trigger] pre[k]),
        forall|k: int| 0 <= k < post.len() ==> is_whitespace_char(#[trigger] post[k]),
    ensures
        trimmed(pre + s + post) == trimmed(s),
{
    let t = pre + s + post;
    let p = pre.len() as int;
    lemma_trim_start_props(s);
    lemma_trim_end_props(s);
    lemma_trim_end_props(t);
    let a = trim_start(s);
    let b = trim_end(s);
    assert forall|k: int| 0 <= k < p implies t[k] == pre[k] by {}
    assert forall|k: int| p <= k < p + s.len() implies t[k] == s[k - p] by {}
    assert forall|k: int| p + s.len() <= k < t.len() implies t[k] == post[k - p - s.len()] by {}
    if a < s.len() {
        assert(a < b) by {
            if b <= a {
                assert(is_whitespace_char(s[a]));
            }
        }
        assert forall|k: int| 0 <= k < p + a implies is_whitespace_char(#[trigger] t[k]) by {
            if k < p {
                assert(t[k] == pre[k]);
            } else {
                assert(t[k] == s[k - p]);
            }
        }
        assert(t[p + a] == s[a]);
        lemma_trim_start(t, p + a);
        assert forall|k: int| p + b <= k < t.len() implies is_whitespace_char(#[trigger] t[k]) by {
            if k < p + s.len() {
                assert(t[k] == s[k - p]);
            } else {
                assert(t[k] == post[k - p - s.len()]);
            }
        }
        assert(t[p + b - 1] == s[b - 1]);
        lemma_trim_end(t, p + b);
        assert(t.subrange(p + a, p + b) =~= s.subrange(a, b));
    } else {
        assert forall|k: int| 0 <= k < t.len() implies is_whitespace_char(#[trigger] t[k]) by {
            if k < p {
                assert(t[k] == pre[k]);
            } else if k < p + s.len() {
                assert(t[k] == s[k - p]);
            } else {
                assert(t[k] == post[k - p - s.len()]);
            }
        }
        lemma_trim_start(t, t.len() as int);
    }
}

/// Changing the ASCII case of a character keeps whether it is whitespace, and
/// lowering afterwards gives what lowering gave before.
proof fn lemma_case_char(c: char)
    ensures
        is_whitespace_char(upper_char(c)) == is_whitespace_char(c),
        lower_char(upper_char(c)) == lower_char(c),
        is_whitespace_char(lower_char(c)) == is_whitespace_char(c),
        lower_char(lower_char(c)) == lower_char(c),
{
    let v = c as u32;
    if 'a' <= c <= 'z' {
        assert(97 <= v <= 122);
        let u = (v - 32) as char;
        assert(u as u32 == v - 32);
        assert(((u as u32 + 32) as char) == c);
    }
    if 'A' <= c <= 'Z' {
        assert(65 <= v <= 90);
        let l = (v + 32) as char;
        assert(l as u32 == v + 32);
    }
}

/// Trimming a string whose case was changed trims the same characters.
proof fn lemma_trimmed_case(s: Seq<char>)
    ensures
        trimmed(uppered(s)) == uppered(trimmed(s)),
        trimmed(lowered(s)) == lowered(trimmed(s)),
{
    let u = uppered(s);
    let l = lowered(s);
    assert forall|k: int| 0 <= k < s.len() implies is_whitespace_char(#[trigger] u[k]) == is_whitespace_char(s[k])
        && is_whitespace_char(l[k]) == is_whitespace_char(s[k]) by {
        lemma_case_char(s[k]);
    }
    lemma_trim_start_props(s);
    lemma_trim_end_props(s);
    let a = trim_start(s);
    let b = trim_end(s);
    assert forall|k: int| 0 <= k < a implies is_whitespace_char(#[trigger] u[k]) by {
        assert(is_whitespace_char(s[k]));
    }
    assert forall|k: int| 0 <= k < a implies is_whitespace_char(#[trigger] l[k]) by {
        assert(is_whitespace_char(s[k]));
    }
    lemma_trim_start(u, a);
    lemma_trim_start(l, a);
    assert forall|k: int| b <= k < s.len() implies is_whitespace_char(#[trigger] u[k]) by {
        assert(is_whitespace_char(s[k]));
    }
    assert forall|k: int| b <= k < s.len() implies is_whitespace_char(#[trigger] l[k]) by {
        assert(is_whitespace_char(s[k]));
    }
    lemma_trim_end(u, b);
    lemma_trim_end(l, b);
    if a < b {
        assert(u.subrange(a, b) =~= uppered(s.subrange(a, b)));
        assert(l.subrange(a, b) =~= lowered(s.subrange(a, b)));
    } else {
        assert(uppered(Seq::<char>::empty()) =~= Seq::<char>::empty());
        assert(lowered(Seq::<char>::empty()) =~= Seq::<char>::empty());
    }
}

/// Trimming ignores surrounding whitespace, and trimming then lowering ignores
/// ASCII case.
pub proof fn lemma_normalized_ignores_padding_and_case(pre: Seq<char>, s: Seq<char>, post: Seq<char>)
    requires
        forall|k: int| 0 <= k < pre.len() ==> is_whitespace_char(#[trigger] pre[k]),
        forall|k: int| 0 <= k < post.len() ==> is_whitespace_char(#[trigger] post[k]),
    ensures
        lowered(trimmed(pre + uppered(s) + post)) == lowered(trimmed(s)),
        lowered(trimmed(pre + lowered(s) + post)) == lowered(trimmed(s)),
        lowered(trimmed(pre + s + post)) == lowered(trimmed(s)),
{
    lemma_trimmed_ignores_padding(pre, uppered(s), post);
    lemma_trimmed_ignores_padding(pre, lowered(s), post);
    lemma_trimmed_ignores_padding(pre, s, post);
    lemma_trimmed_case(s);
    let t = trimmed(s);
    assert forall|k: int| 0 <= k < t.len() implies #[trigger] lowered(uppered(t))[k] == lowered(t)[k]
        && lowered(lowered(t))[k] == lowered(t)[k] by {
        lemma_case_char(t[k]);
    }
    assert(lowered(uppered(t)) =~= lowered(t));
    assert(lowered(lowered(t)) =~= lowered(t));
}

/// A string with no whitespace at either end and no ASCII capitals is its own
/// trimmed, lowered form.
pub proof fn lemma_plain_text(s: Seq<char>)
    requires
        s.len() > 0,
        !is_whitespace_char(s[0]),
        !is_whitespace_char(s[s.len() - 1]),
        forall|k: int| 0 <= k < s.len() ==> !('A' <= #[trigger] s[k] <= 'Z'),
    ensures
        trimmed(s) == s,
        lowered(s) == s,
{
    lemma_trim_start(s, 0);
    lemma_trim_end(s, s.len() as int);
    assert(s.subrange(0, s.len() as int) =~= s);
    assert(lowered(s) =~= s);
}

} // verus!
