//! Small verified helpers for strings and optional strings.

use vstd::prelude::*;
use vstd::string::{StrSliceExecFns, StringExecFns};

verus! {

/// A copy of an optional string, equal to the original.
pub fn clone_opt_string(o: &Option<String>) -> (r: Option<String>)
    ensures
        r == *o,
{
    match o {
        Some(s) => Some(s.clone()),
        None => None,
    }
}

/// A copy of a string, equal to the original.
pub fn clone_string(s: &String) -> (r: String)
    ensures
        r == *s,
{
    s.clone()
}

/// Relies on std's String::push: appends one character to the string.
#[verifier::external_body]
pub fn push_char(s: &mut String, c: char)
    ensures
        final(s)@ == old(s)@.push(c),
{
    s.push(c);
}

/// Whether two string slices hold the same characters.
pub fn substr_eq(a: &str, b: &str) -> (r: bool)
    ensures
        r == (a@ == b@),
{
    let sa = a.to_owned();
    let sb = b.to_owned();
    sa == sb
}

/// An ASCII letter or digit.
pub open spec fn is_alnum_char(c: char) -> bool {
    ||| 'A' <= c <= 'Z'
    ||| 'a' <= c <= 'z'
    ||| '0' <= c <= '9'
}

/// The ASCII digit character for `d` (`0 <= d <= 9`).
pub open spec fn spec_digit_char(d: int) -> char {
    ((48 + d) as u8) as char
}

/// The decimal digits of a non-negative number, most significant first.
pub open spec fn spec_u64_digits(n: int) -> Seq<char>
    decreases n,
{
    if n < 10 {
        Seq::empty().push(spec_digit_char(n))
    } else {
        spec_u64_digits(n / 10).push(spec_digit_char(n % 10))
    }
}

/// The decimal rendering of a signed number: a minus sign and the
/// magnitude's digits, or just the digits.
pub open spec fn spec_i64_str(v: int) -> Seq<char> {
    if v >= 0 {
        spec_u64_digits(v)
    } else {
        Seq::empty().push('-') + spec_u64_digits(-v)
    }
}

fn digit_char(d: u64) -> (c: char)
    requires
        d < 10,
    ensures
        c == spec_digit_char(d as int),
{
    (48 + d as u8) as char
}

/// Render a number in decimal.
pub fn u64_to_string(n: u64) -> (s: String)
    ensures
        s@ == spec_u64_digits(n as int),
    decreases n,
{
    if n < 10 {
        let mut s = String::new();
        push_char(&mut s, digit_char(n));
        s
    } else {
        let mut s = u64_to_string(n / 10);
        push_char(&mut s, digit_char(n % 10));
        s
    }
}

/// The index of the first occurrence of `c` in `s`, or `s.len()` when
/// `c` does not occur.
pub open spec fn spec_find_char(s: Seq<char>, c: char) -> int
    decreases s.len(),
{
    if s.len() == 0 {
        0
    } else if s[0] == c {
        0
    } else {
        1 + spec_find_char(s.drop_first(), c)
    }
}

/// What `spec_find_char` returns: a position in `0 ..= s.len()`, holding
/// `c` if inside, with nothing equal to `c` before it.
pub proof fn lemma_find_char_props(s: Seq<char>, c: char)
    ensures
        0 <= spec_find_char(s, c) <= s.len(),
        spec_find_char(s, c) < s.len() ==> s[spec_find_char(s, c)] == c,
        forall|j: int| 0 <= j < spec_find_char(s, c) ==> s[j] != c,
    decreases s.len(),
{
    if s.len() > 0 && s[0] != c {
        lemma_find_char_props(s.drop_first(), c);
        assert forall|j: int| 0 <= j < spec_find_char(s, c) implies s[j] != c by {
            if j > 0 {
                assert(s.drop_first()[j - 1] == s[j]);
            }
        }
    }
}

/// Find the first occurrence of `c` in `s`.
pub fn find_char(s: &str, c: char) -> (r: Option<usize>)
    ensures
        match r {
            Some(i) => i == spec_find_char(s@, c) && i < s@.len(),
            None => spec_find_char(s@, c) == s@.len(),
        },
{
    proof {
        lemma_find_char_props(s@, c);
    }
    let n = s.unicode_len();
    let mut i: usize = 0;
    while i < n
        invariant
            n == s@.len(),
            i <= n,
            forall|j: int| 0 <= j < i ==> s@[j] != c,
            0 <= spec_find_char(s@, c) <= s@.len(),
            spec_find_char(s@, c) < s@.len() ==> s@[spec_find_char(s@, c)] == c,
            forall|j: int| 0 <= j < spec_find_char(s@, c) ==> s@[j] != c,
        decreases n - i,
    {
        if s.get_char(i) == c {
            return Some(i);
        }
        i = i + 1;
    }
    None
}

/// Whether `s` begins with `prefix`.
pub open spec fn spec_starts_with(s: Seq<char>, prefix: Seq<char>) -> bool {
    s.len() >= prefix.len() && s.subrange(0, prefix.len() as int) == prefix
}

/// Decide whether `s` begins with `prefix`.
pub fn str_starts_with(s: &str, prefix: &str) -> (r: bool)
    ensures
        r == spec_starts_with(s@, prefix@),
{
    let n = s.unicode_len();
    let p = prefix.unicode_len();
    if p > n {
        proof {
            assert(!spec_starts_with(s@, prefix@));
        }
        return false;
    }
    let head = s.substring_char(0, p);
    let eq = substr_eq(head, prefix);
    proof {
        if eq {
            assert(s@.subrange(0, prefix@.len() as int) == prefix@);
        }
    }
    eq
}

/// The characters of `s` from position `from` on, as an owned string.
pub fn char_suffix(s: &str, from: usize) -> (r: String)
    requires
        from <= s@.len(),
    ensures
        r@ == s@.subrange(from as int, s@.len() as int),
{
    let n = s.unicode_len();
    s.substring_char(from, n).to_owned()
}

/// `s` split at every occurrence of `sep`: the pieces in order, each
/// free of `sep`, one more piece than separators.
pub open spec fn spec_split_char(s: Seq<char>, sep: char) -> Seq<Seq<char>>
    decreases s.len(),
{
    if s.len() == 0 {
        seq![Seq::<char>::empty()]
    } else if s[0] == sep {
        seq![Seq::<char>::empty()] + spec_split_char(s.drop_first(), sep)
    } else {
        let rest = spec_split_char(s.drop_first(), sep);
        seq![seq![s[0]] + rest[0]] + rest.drop_first()
    }
}

/// Splitting yields at least one piece.
pub proof fn lemma_split_char_len(s: Seq<char>, sep: char)
    ensures
        spec_split_char(s, sep).len() >= 1,
    decreases s.len(),
{
    if s.len() > 0 {
        lemma_split_char_len(s.drop_first(), sep);
    }
}

/// The split of `s` as assembled so far: the finished pieces, the piece
/// under construction completed by the split of the remainder, and the
/// rest of that split.
pub open spec fn split_char_partial(
    done: Seq<Seq<char>>,
    cur: Seq<char>,
    rem: Seq<char>,
    sep: char,
) -> Seq<Seq<char>> {
    done + seq![cur + spec_split_char(rem, sep)[0]] + spec_split_char(rem, sep).drop_first()
}

/// Split `s` at every occurrence of `sep`.
pub fn split_char(s: &str, sep: char) -> (parts: Vec<String>)
    ensures
        parts@.map_values(|p: String| p@) == spec_split_char(s@, sep),
{
    let n = s.unicode_len();
    let mut parts: Vec<String> = Vec::new();
    let mut cur = String::new();
    let mut i: usize = 0;
    proof {
        lemma_split_char_len(s@, sep);
        assert(s@.subrange(0, n as int) =~= s@);
        assert(spec_split_char(s@, sep) =~~= split_char_partial(
            parts@.map_values(|p: String| p@),
            cur@,
            s@.subrange(0, n as int),
            sep,
        ));
    }
    while i < n
        invariant
            n == s@.len(),
            i <= n,
            spec_split_char(s@, sep) =~~= split_char_partial(
                parts@.map_values(|p: String| p@),
                cur@,
                s@.subrange(i as int, n as int),
                sep,
            ),
        decreases n - i,
    {
        let ghost pre = s@.subrange(i as int, n as int);
        let ghost post = s@.subrange(i as int + 1, n as int);
        let ghost old_parts = parts@.map_values(|p: String| p@);
        let ghost old_cur = cur@;
        proof {
            assert(pre.len() > 0);
            assert(pre.drop_first() =~= post);
            lemma_split_char_len(post, sep);
        }
        let ch = s.get_char(i);
        proof {
            assert(pre[0] == s@[i as int]);
        }
        if ch == sep {
            parts.push(cur);
            cur = String::new();
            proof {
                let rest = spec_split_char(post, sep);
                assert(spec_split_char(pre, sep) == seq![Seq::<char>::empty()] + rest);
                assert((seq![Seq::<char>::empty()] + rest)[0] =~= Seq::<char>::empty());
                assert((seq![Seq::<char>::empty()] + rest).drop_first() =~= rest);
                assert(parts@.map_values(|p: String| p@) =~= old_parts.push(old_cur));
                assert(old_cur + spec_split_char(pre, sep)[0] =~= old_cur);
                assert(split_char_partial(old_parts, old_cur, pre, sep) =~~= split_char_partial(
                    parts@.map_values(|p: String| p@),
                    cur@,
                    post,
                    sep,
                ));
            }
        } else {
            push_char(&mut cur, ch);
            proof {
                let rest = spec_split_char(post, sep);
                assert(spec_split_char(pre, sep) == seq![seq![pre[0]] + rest[0]]
                    + rest.drop_first());
                assert(spec_split_char(pre, sep)[0] =~= seq![s@[i as int]] + rest[0]);
                assert(spec_split_char(pre, sep).drop_first() =~= rest.drop_first());
                assert(old_cur + (seq![s@[i as int]] + rest[0]) =~= cur@ + rest[0]);
                assert(split_char_partial(old_parts, old_cur, pre, sep) =~~= split_char_partial(
                    old_parts,
                    cur@,
                    post,
                    sep,
                ));
            }
        }
        i = i + 1;
    }
    let ghost old_parts = parts@.map_values(|p: String| p@);
    let ghost old_cur = cur@;
    parts.push(cur);
    proof {
        let tail = s@.subrange(n as int, n as int);
        assert(tail =~= Seq::<char>::empty());
        assert(spec_split_char(tail, sep) == seq![Seq::<char>::empty()]);
        assert(old_cur + spec_split_char(tail, sep)[0] =~= old_cur);
        assert(parts@.map_values(|p: String| p@) =~= old_parts.push(old_cur));
        assert(parts@.map_values(|p: String| p@) =~~= split_char_partial(
            old_parts,
            old_cur,
            tail,
            sep,
        ));
        assert(parts@.map_values(|p: String| p@) =~~= spec_split_char(s@, sep));
    }
    parts
}

/// An ASCII whitespace character.
pub open spec fn spec_is_space(c: char) -> bool {
    c == ' ' || c == '\t' || c == '\n' || c == '\r' || c == '\u{b}' || c == '\u{c}'
}

/// `s` without leading whitespace.
pub open spec fn spec_trim_start(s: Seq<char>) -> Seq<char>
    decreases s.len(),
{
    if s.len() > 0 && spec_is_space(s[0]) {
        spec_trim_start(s.drop_first())
    } else {
        s
    }
}

/// `s` without trailing whitespace.
pub open spec fn spec_trim_end(s: Seq<char>) -> Seq<char>
    decreases s.len(),
{
    if s.len() > 0 && spec_is_space(s[s.len() - 1]) {
        spec_trim_end(s.drop_last())
    } else {
        s
    }
}

/// `s` without leading or trailing whitespace.
pub open spec fn spec_trim(s: Seq<char>) -> Seq<char> {
    spec_trim_end(spec_trim_start(s))
}

proof fn lemma_trim_start_at(s: Seq<char>, a: int)
    requires
        0 <= a <= s.len(),
        forall|j: int| 0 <= j < a ==> spec_is_space(#[trigger] s[j]),
        a < s.len() ==> !spec_is_space(s[a]),
    ensures
        spec_trim_start(s) == s.subrange(a, s.len() as int),
    decreases s.len(),
{
    if a == 0 {
        if s.len() > 0 && spec_is_space(s[0]) {
            assert(false);
        }
        assert(s.subrange(0, s.len() as int) =~= s);
    } else {
        let d = s.drop_first();
        assert forall|j: int| 0 <= j < a - 1 implies spec_is_space(#[trigger] d[j]) by {
            assert(d[j] == s[j + 1]);
        }
        lemma_trim_start_at(d, a - 1);
        assert(d.subrange(a - 1, d.len() as int) =~= s.subrange(a, s.len() as int));
    }
}

proof fn lemma_trim_end_at(s: Seq<char>, b: int)
    requires
        0 <= b <= s.len(),
        forall|j: int| b <= j < s.len() ==> spec_is_space(#[trigger] s[j]),
        b > 0 ==> !spec_is_space(s[b - 1]),
    ensures
        spec_trim_end(s) == s.subrange(0, b),
    decreases s.len(),
{
    if b == s.len() {
        if s.len() > 0 && spec_is_space(s[s.len() - 1]) {
            assert(false);
        }
        assert(s.subrange(0, b) =~= s);
    } else {
        assert(spec_is_space(s[s.len() - 1]));
        let d = s.drop_last();
        assert forall|j: int| b <= j < d.len() implies spec_is_space(#[trigger] d[j]) by {
            assert(d[j] == s[j]);
        }
        lemma_trim_end_at(d, b);
        assert(d.subrange(0, b) =~= s.subrange(0, b));
    }
}

fn is_space_char(c: char) -> (r: bool)
    ensures
        r == spec_is_space(c),
{
    c == ' ' || c == '\t' || c == '\n' || c == '\r' || c == '\u{b}' || c == '\u{c}'
}

/// `s` with surrounding ASCII whitespace removed.
pub fn trim_str(s: &str) -> (r: String)
    ensures
        r@ == spec_trim(s@),
{
    let n = s.unicode_len();
    let mut a: usize = 0;
    while a < n && is_space_char(s.get_char(a))
        invariant
            n == s@.len(),
            a <= n,
            forall|j: int| 0 <= j < a ==> spec_is_space(#[trigger] s@[j]),
        decreases n - a,
    {
        a = a + 1;
    }
    proof {
        lemma_trim_start_at(s@, a as int);
    }
    let mut b: usize = n;
    while b > a && is_space_char(s.get_char(b - 1))
        invariant
            n == s@.len(),
            a <= b <= n,
            forall|j: int| b <= j < n ==> spec_is_space(#[trigger] s@[j]),
        decreases b,
    {
        b = b - 1;
    }
    let ghost t = s@.subrange(a as int, n as int);
    proof {
        assert forall|j: int| b - a <= j < t.len() implies spec_is_space(#[trigger] t[j]) by {
            assert(t[j] == s@[j + a]);
        }
        if b > a {
            assert(t[b - a - 1] == s@[b - 1]);
        }
        lemma_trim_end_at(t, b - a);
        assert(t.subrange(0, b - a) =~= s@.subrange(a as int, b as int));
    }
    s.substring_char(a, b).to_owned()
}

/// `s` with every `\r\n` pair replaced by `\n`, scanning left to right.
pub open spec fn spec_crlf_normalized(s: Seq<char>) -> Seq<char>
    decreases s.len(),
{
    if s.len() == 0 {
        Seq::empty()
    } else if s.len() >= 2 && s[0] == '\r' && s[1] == '\n' {
        seq!['\n'] + spec_crlf_normalized(s.subrange(2, s.len() as int))
    } else {
        seq![s[0]] + spec_crlf_normalized(s.drop_first())
    }
}

/// Normalize Windows line endings to `\n`.
pub fn normalize_crlf(s: &str) -> (r: String)
    ensures
        r@ == spec_crlf_normalized(s@),
{
    let n = s.unicode_len();
    let mut out = String::new();
    let mut i: usize = 0;
    proof {
        assert(s@.subrange(0, n as int) =~= s@);
    }
    while i < n
        invariant
            n == s@.len(),
            i <= n,
            out@ + spec_crlf_normalized(s@.subrange(i as int, n as int)) == spec_crlf_normalized(
                s@,
            ),
        decreases n - i,
    {
        let ghost pre = s@.subrange(i as int, n as int);
        let c = s.get_char(i);
        proof {
            assert(pre[0] == s@[i as int]);
        }
        if c == '\r' && i + 1 < n && s.get_char(i + 1) == '\n' {
            proof {
                assert(pre[1] == s@[i + 1]);
                assert(pre.subrange(2, pre.len() as int) =~= s@.subrange(i + 2, n as int));
                assert(spec_crlf_normalized(pre) == seq!['\n'] + spec_crlf_normalized(
                    s@.subrange(i + 2, n as int),
                ));
            }
            let ghost old_out = out@;
            push_char(&mut out, '\n');
            proof {
                assert(out@ + spec_crlf_normalized(s@.subrange(i + 2, n as int)) =~= old_out + (
                seq!['\n'] + spec_crlf_normalized(s@.subrange(i + 2, n as int))));
            }
            i = i + 2;
        } else {
            proof {
                assert(pre.drop_first() =~= s@.subrange(i + 1, n as int));
                assert(spec_crlf_normalized(pre) == seq![s@[i as int]] + spec_crlf_normalized(
                    s@.subrange(i + 1, n as int),
                ));
            }
            let ghost old_out = out@;
            push_char(&mut out, c);
            proof {
                assert(out@ + spec_crlf_normalized(s@.subrange(i + 1, n as int)) =~= old_out + (
                seq![s@[i as int]] + spec_crlf_normalized(s@.subrange(i + 1, n as int))));
            }
            i = i + 1;
        }
    }
    proof {
        assert(s@.subrange(n as int, n as int) =~= Seq::<char>::empty());
        assert(out@ + Seq::<char>::empty() =~= out@);
    }
    out
}

/// The pieces joined with `sep` between consecutive pieces.
pub open spec fn spec_join(parts: Seq<Seq<char>>, sep: Seq<char>) -> Seq<char>
    decreases parts.len(),
{
    if parts.len() == 0 {
        Seq::empty()
    } else if parts.len() == 1 {
        parts[0]
    } else {
        parts[0] + sep + spec_join(parts.drop_first(), sep)
    }
}

/// Joining one more piece appends a separator and the piece, except to
/// an empty join.
pub proof fn lemma_join_push(parts: Seq<Seq<char>>, x: Seq<char>, sep: Seq<char>)
    ensures
        parts.len() == 0 ==> spec_join(parts.push(x), sep) == x,
        parts.len() > 0 ==> spec_join(parts.push(x), sep) == spec_join(parts, sep) + sep + x,
    decreases parts.len(),
{
    if parts.len() == 0 {
        assert(parts.push(x)[0] == x);
    } else {
        let p = parts.push(x);
        assert(p.len() >= 2);
        assert(p[0] == parts[0]);
        assert(p.drop_first() =~= parts.drop_first().push(x));
        lemma_join_push(parts.drop_first(), x, sep);
        if parts.len() == 1 {
            assert(parts.drop_first().len() == 0);
            assert(spec_join(p, sep) == parts[0] + sep + x);
            assert(spec_join(parts, sep) == parts[0]);
        } else {
            assert(spec_join(p, sep) == parts[0] + sep + (spec_join(parts.drop_first(), sep) + sep
                + x));
            assert(parts[0] + sep + (spec_join(parts.drop_first(), sep) + sep + x) =~= (parts[0]
                + sep + spec_join(parts.drop_first(), sep)) + sep + x);
        }
    }
}

/// Join the pieces with `sep` between consecutive pieces.
pub fn join_strings(parts: &Vec<String>, sep: &str) -> (r: String)
    ensures
        r@ == spec_join(parts@.map_values(|p: String| p@), sep@),
{
    let ghost views = parts@.map_values(|p: String| p@);
    let mut acc = String::new();
    let mut i: usize = 0;
    proof {
        assert(views.take(0) =~= Seq::<Seq<char>>::empty());
    }
    while i < parts.len()
        invariant
            views == parts@.map_values(|p: String| p@),
            i <= parts.len(),
            acc@ == spec_join(views.take(i as int), sep@),
        decreases parts.len() - i,
    {
        proof {
            lemma_join_push(views.take(i as int), views[i as int], sep@);
            assert(views.take(i as int).push(views[i as int]) =~= views.take(i as int + 1));
        }
        if i > 0 {
            acc.append(sep);
        }
        acc.append(parts[i].as_str());
        i = i + 1;
    }
    proof {
        assert(views.take(parts@.len() as int) =~= views);
    }
    acc
}

/// Render a signed number in decimal.
pub fn i64_to_string(v: i64) -> (s: String)
    ensures
        s@ == spec_i64_str(v as int),
{
    if v >= 0 {
        u64_to_string(v as u64)
    } else {
        let magnitude: u64 = if v == i64::MIN {
            9223372036854775808u64
        } else {
            (-v) as u64
        };
        let mut s = String::new();
        push_char(&mut s, '-');
        let digits = u64_to_string(magnitude);
        s.append(digits.as_str());
        s
    }
}

} // verus!
