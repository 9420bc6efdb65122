use vstd::prelude::*;
use vstd::std_specs::iter::IteratorSpec;

verus! {

broadcast use vstd::string::group_string_axioms;

// ---------------------------------------------------------------------------
// Character classes
// ---------------------------------------------------------------------------

/// The Unicode `White_Space` property (PropList.txt).
pub open spec fn is_white_space(c: char) -> bool {
    let u = c as u32;
    ||| 0x09 <= u <= 0x0d
    ||| u == 0x20
    ||| u == 0x85
    ||| u == 0xa0
    ||| u == 0x1680
    ||| 0x2000 <= u <= 0x200a
    ||| u == 0x2028
    ||| u == 0x2029
    ||| u == 0x202f
    ||| u == 0x205f
    ||| u == 0x3000
}

/// The Unicode general category `Cc` (control codes).
pub open spec fn is_control_code(c: char) -> bool {
    let u = c as u32;
    u <= 0x1f || 0x7f <= u <= 0x9f
}

/// Whether a character has the Unicode `White_Space` property, as
/// `char::is_whitespace` tells.
pub fn char_is_whitespace(c: char) -> (r: bool)
    ensures
        r == is_white_space(c),
{
    ('\u{9}' <= c && c <= '\u{d}') || c == ' ' || c == '\u{85}' || c == '\u{a0}' || c == '\u{1680}'
        || ('\u{2000}' <= c && c <= '\u{200a}') || c == '\u{2028}' || c == '\u{2029}' || c
        == '\u{202f}' || c == '\u{205f}' || c == '\u{3000}'
}

/// Whether a character is a control code (general category `Cc`), as
/// `char::is_control` tells.
pub fn char_is_control(c: char) -> (r: bool)
    ensures
        r == is_control_code(c),
{
    c <= '\u{1f}' || ('\u{7f}' <= c && c <= '\u{9f}')
}

// ---------------------------------------------------------------------------
// Trimming
// ---------------------------------------------------------------------------

/// `s` without its leading whitespace.
pub open spec fn trim_start_spec(s: Seq<char>) -> Seq<char>
    decreases s.len(),
{
    if s.len() > 0 && is_white_space(s[0]) {
        trim_start_spec(s.drop_first())
    } else {
        s
    }
}

/// `s` without its trailing whitespace.
pub open spec fn trim_end_spec(s: Seq<char>) -> Seq<char>
    decreases s.len(),
{
    if s.len() > 0 && is_white_space(s.last()) {
        trim_end_spec(s.drop_last())
    } else {
        s
    }
}

/// `s` without leading and trailing whitespace.
pub open spec fn trimmed(s: Seq<char>) -> Seq<char> {
    trim_end_spec(trim_start_spec(s))
}

/// `s` without leading and trailing whitespace (as `str::trim` gives it).
pub(crate) fn trim_text(s: &str) -> (r: &str)
    ensures
        r@ == trimmed(s@),
{
    let v = chars_of(s);
    let n = v.len();
    let mut a: usize = 0;
    assert(s@.skip(0) =~= s@);
    while a < n && char_is_whitespace(v[a])
        invariant
            a <= n,
            n == s@.len(),
            v@ == s@,
            trim_start_spec(s@) == trim_start_spec(s@.skip(a as int)),
        decreases n - a,
    {
        assert(s@.skip(a as int).drop_first() =~= s@.skip(a + 1));
        a = a + 1;
    }
    let ghost t = s@.skip(a as int);
    assert(trim_start_spec(t) == t);
    let mut b: usize = n;
    assert(s@.subrange(a as int, b as int) =~= t);
    while b > a && char_is_whitespace(v[b - 1])
        invariant
            a <= b <= n,
            n == s@.len(),
            v@ == s@,
            trim_end_spec(t) == trim_end_spec(s@.subrange(a as int, b as int)),
        decreases b - a,
    {
        assert(s@.subrange(a as int, b as int).drop_last() =~= s@.subrange(a as int, b - 1));
        b = b - 1;
    }
    let ghost u = s@.subrange(a as int, b as int);
    assert(trim_end_spec(u) == u);
    vstd::string::StrSliceExecFns::substring_char(s, a, b)
}

/// Length of the run of non-whitespace characters that starts `s`.
pub open spec fn token_len(s: Seq<char>) -> nat
    decreases s.len(),
{
    if s.len() > 0 && !is_white_space(s[0]) {
        1 + token_len(s.drop_first())
    } else {
        0
    }
}

pub proof fn lemma_trim_start_shape(s: Seq<char>)
    ensures
        trim_start_spec(s).len() <= s.len(),
        trim_start_spec(s).len() > 0 ==> !is_white_space(trim_start_spec(s)[0]),
    decreases s.len(),
{
    if s.len() > 0 && is_white_space(s[0]) {
        lemma_trim_start_shape(s.drop_first());
    }
}

pub proof fn lemma_token_len_bound(s: Seq<char>)
    ensures
        token_len(s) <= s.len(),
        s.len() > 0 && !is_white_space(s[0]) ==> token_len(s) >= 1,
    decreases s.len(),
{
    if s.len() > 0 && !is_white_space(s[0]) {
        lemma_token_len_bound(s.drop_first());
    }
}

/// The `n`-th (from 0) of the whitespace-separated tokens of `s`, as
/// `str::split_whitespace` yields them.
pub open spec fn nth_token(s: Seq<char>, n: nat) -> Option<Seq<char>>
    decreases s.len(),
{
    let t = trim_start_spec(s);
    if t.len() == 0 {
        None
    } else if n == 0 {
        Some(t.take(token_len(t) as int))
    } else {
        proof {
            lemma_trim_start_shape(s);
            lemma_token_len_bound(t);
        }
        nth_token(t.skip(token_len(t) as int), (n - 1) as nat)
    }
}

/// The first index at or after `i` and before `end` that holds no
/// whitespace, or `end`.
pub fn skip_white_space(v: &Vec<char>, i: usize, end: usize) -> (j: usize)
    requires
        i <= end <= v.len(),
    ensures
        i <= j <= end,
        v@.subrange(j as int, end as int) == trim_start_spec(v@.subrange(i as int, end as int)),
{
    let mut j = i;
    while j < end && char_is_whitespace(v[j])
        invariant
            i <= j <= end <= v.len(),
            trim_start_spec(v@.subrange(j as int, end as int)) == trim_start_spec(
                v@.subrange(i as int, end as int),
            ),
        decreases end - j,
    {
        assert(v@.subrange(j as int, end as int).drop_first() =~= v@.subrange(j + 1, end as int));
        j = j + 1;
    }
    j
}

/// The end of the run of non-whitespace characters that starts at `j`.
pub fn token_end(v: &Vec<char>, j: usize, end: usize) -> (k: usize)
    requires
        j <= end <= v.len(),
    ensures
        j <= k <= end,
        k - j == token_len(v@.subrange(j as int, end as int)),
{
    let mut k = j;
    while k < end && !char_is_whitespace(v[k])
        invariant
            j <= k <= end <= v.len(),
            token_len(v@.subrange(j as int, end as int)) == (k - j) + token_len(
                v@.subrange(k as int, end as int),
            ),
        decreases end - k,
    {
        assert(v@.subrange(k as int, end as int).drop_first() =~= v@.subrange(k + 1, end as int));
        k = k + 1;
    }
    k
}

// ---------------------------------------------------------------------------
// Building strings
// ---------------------------------------------------------------------------

/// `String::push`: appends one character.
#[verifier::external_body]
pub(crate) fn push_char(s: &mut String, c: char)
    ensures
        final(s)@ == old(s)@.push(c),
{
    s.push(c);
}

/// The characters of a string, in order.
pub fn chars_of(s: &str) -> (v: Vec<char>)
    ensures
        v@ == s@,
{
    let mut v: Vec<char> = Vec::new();
    for c in it: s.chars()
        invariant
            v@ == it.seq().take(it.index() as int),
            it.seq() == s@,
    {
        v.push(c);
    }
    v
}

/// A string holding the given characters.
pub fn string_of(v: &[char]) -> (s: String)
    ensures
        s@ == v@,
{
    let mut s = String::new();
    let mut i: usize = 0;
    while i < v.len()
        invariant
            i <= v.len(),
            s@ == v@.take(i as int),
        decreases v.len() - i,
    {
        push_char(&mut s, v[i]);
        assert(v@.take(i + 1) == v@.take(i as int).push(v@[i as int]));
        i = i + 1;
    }
    assert(v@.take(v.len() as int) == v@);
    s
}

/// A copy of a string slice.
pub fn owned(s: &str) -> (r: String)
    ensures
        r@ == s@,
{
    s.to_owned()
}

/// Whether two strings hold the same characters.
pub fn same_text(a: &str, b: &str) -> (r: bool)
    ensures
        r == (a@ == b@),
{
    let x = chars_of(a);
    let y = chars_of(b);
    if x.len() != y.len() {
        return false;
    }
    let mut i: usize = 0;
    while i < x.len()
        invariant
            x@ == a@,
            y@ == b@,
            x.len() == y.len(),
            i <= x.len(),
            forall|j: int| 0 <= j < i ==> x@[j] == y@[j],
        decreases x.len() - i,
    {
        if x[i] != y[i] {
            return false;
        }
        i = i + 1;
    }
    assert(x@ =~= y@);
    true
}

// ---------------------------------------------------------------------------
// Decimal numerals
// ---------------------------------------------------------------------------

/// The ASCII digit for `d < 10`.
pub open spec fn digit_char(d: nat) -> char {
    if d == 0 { '0' }
    else if d == 1 { '1' }
    else if d == 2 { '2' }
    else if d == 3 { '3' }
    else if d == 4 { '4' }
    else if d == 5 { '5' }
    else if d == 6 { '6' }
    else if d == 7 { '7' }
    else if d == 8 { '8' }
    else { '9' }
}

/// The decimal numeral of `n`, without sign or leading zeros.
pub open spec fn decimal(n: nat) -> Seq<char>
    decreases n,
{
    if n < 10 {
        seq![digit_char(n)]
    } else {
        decimal(n / 10).push(digit_char(n % 10))
    }
}

fn digit_of(d: u64) -> (c: char)
    requires
        d < 10,
    ensures
        c == digit_char(d as nat),
{
    if d == 0 { '0' }
    else if d == 1 { '1' }
    else if d == 2 { '2' }
    else if d == 3 { '3' }
    else if d == 4 { '4' }
    else if d == 5 { '5' }
    else if d == 6 { '6' }
    else if d == 7 { '7' }
    else if d == 8 { '8' }
    else { '9' }
}

/// The decimal numeral of `n`, as `n.to_string()` writes it.
pub fn decimal_text(n: u64) -> (s: String)
    ensures
        s@ == decimal(n as nat),
    decreases n,
{
    if n < 10 {
        let mut s = String::new();
        push_char(&mut s, digit_of(n));
        assert(s@ == seq![digit_char(n as nat)]);
        s
    } else {
        let mut s = decimal_text(n / 10);
        push_char(&mut s, digit_of(n % 10));
        s
    }
}

// ---------------------------------------------------------------------------
// Occurrences and replacement
// ---------------------------------------------------------------------------

/// `pat` occurs in `s` starting at index `i`.
pub open spec fn occurs_at(s: Seq<char>, pat: Seq<char>, i: int) -> bool {
    0 <= i && i + pat.len() <= s.len() && s.subrange(i, i + pat.len()) == pat
}

/// `pat` occurs somewhere in `s`.
pub open spec fn occurs_in(s: Seq<char>, pat: Seq<char>) -> bool {
    exists|i: int| occurs_at(s, pat, i)
}

/// `s` with every occurrence of `pat` replaced by `rep`, the occurrences
/// taken from left to right without overlap; an empty `pat` matches before
/// every character and at the end, as `str::replace` does.
pub open spec fn replaced(s: Seq<char>, pat: Seq<char>, rep: Seq<char>) -> Seq<char>
    decreases s.len(),
{
    if pat.len() == 0 {
        if s.len() == 0 {
            rep
        } else {
            rep + seq![s[0]] + replaced(s.drop_first(), pat, rep)
        }
    } else if s.len() == 0 {
        s
    } else if pat.len() <= s.len() && s.take(pat.len() as int) == pat {
        rep + replaced(s.skip(pat.len() as int), pat, rep)
    } else {
        seq![s[0]] + replaced(s.drop_first(), pat, rep)
    }
}

/// No character occurs both in `a` and in `b`.
pub open spec fn share_no_char(a: Seq<char>, b: Seq<char>) -> bool {
    forall|i: int, j: int| 0 <= i < a.len() && 0 <= j < b.len() ==> a[i] != b[j]
}

fn matches_at(t: &Vec<char>, p: &Vec<char>, i: usize) -> (r: bool)
    requires
        i + p.len() <= t.len(),
    ensures
        r == (t@.subrange(i as int, i + p.len()) == p@),
{
    let mut k: usize = 0;
    while k < p.len()
        invariant
            i + p.len() <= t.len(),
            k <= p.len(),
            forall|j: int| 0 <= j < k ==> t@[i + j] == p@[j],
        decreases p.len() - k,
    {
        if t[i + k] != p[k] {
            assert(t@.subrange(i as int, i + p.len())[k as int] != p@[k as int]);
            return false;
        }
        k = k + 1;
    }
    assert(t@.subrange(i as int, i + p.len()) =~= p@);
    true
}

proof fn lemma_skip_take(s: Seq<char>, i: int, n: int)
    requires
        0 <= i,
        0 <= n,
        i + n <= s.len(),
    ensures
        s.skip(i).take(n) == s.subrange(i, i + n),
        s.skip(i).skip(n) == s.skip(i + n),
{
    assert(s.skip(i).take(n) =~= s.subrange(i, i + n));
    assert(s.skip(i).skip(n) =~= s.skip(i + n));
}

/// Whether `pat` occurs in `s`.
pub fn contains_text(s: &str, pat: &str) -> (r: bool)
    ensures
        r == occurs_in(s@, pat@),
{
    let t = chars_of(s);
    let p = chars_of(pat);
    if p.len() == 0 {
        assert(s@.subrange(0, 0) =~= pat@);
        assert(occurs_at(s@, pat@, 0));
        return true;
    }
    if p.len() > t.len() {
        assert forall|i: int| !occurs_at(s@, pat@, i) by {}
        return false;
    }
    let mut i: usize = 0;
    while i <= t.len() - p.len()
        invariant
            t@ == s@,
            p@ == pat@,
            0 < p.len() <= t.len(),
            i <= t.len() - p.len() + 1,
            forall|j: int| 0 <= j < i ==> !occurs_at(s@, pat@, j),
        decreases t.len() - i,
    {
        if matches_at(&t, &p, i) {
            assert(occurs_at(s@, pat@, i as int));
            return true;
        }
        i = i + 1;
    }
    assert forall|j: int| !occurs_at(s@, pat@, j) by {
        if 0 <= j && j + pat@.len() <= s@.len() {
            assert(j < i);
        }
    }
    false
}

/// `text` with every occurrence of `from` replaced by `to`, as `str::replace`
/// computes it.
pub fn replace_all(text: &str, from: &str, to: &str) -> (r: String)
    ensures
        r@ == replaced(text@, from@, to@),
{
    let t = chars_of(text);
    let p = chars_of(from);
    let ghost s = text@;
    let ghost pat = from@;
    let ghost rep = to@;
    let mut out = String::new();
    let mut i: usize = 0;
    proof {
        assert(s.skip(0) =~= s);
        assert(out@ + replaced(s, pat, rep) =~= replaced(s, pat, rep));
    }
    if p.len() == 0 {
        while i < t.len()
            invariant
                t@ == s,
                rep == to@,
                pat.len() == 0,
                i <= t.len(),
                replaced(s, pat, rep) == out@ + replaced(s.skip(i as int), pat, rep),
            decreases t.len() - i,
        {
            let ghost before = out@;
            out.append(to);
            push_char(&mut out, t[i]);
            proof {
                assert(s.skip(i as int).drop_first() =~= s.skip(i + 1));
                assert(s.skip(i as int)[0] == s[i as int]);
                assert(out@ =~= before + rep + seq![s[i as int]]);
                assert(before + (rep + seq![s[i as int]] + replaced(s.skip(i + 1), pat, rep))
                    =~= out@ + replaced(s.skip(i + 1), pat, rep));
            }
            i = i + 1;
        }
        out.append(to);
        proof {
            assert(s.skip(i as int).len() == 0);
        }
        return out;
    }
    while i < t.len()
        invariant
            t@ == s,
            p@ == pat,
            rep == to@,
            pat.len() > 0,
            i <= t.len(),
            replaced(s, pat, rep) == out@ + replaced(s.skip(i as int), pat, rep),
        decreases t.len() - i,
    {
        let ghost before = out@;
        let ghost rest = s.skip(i as int);
        if p.len() <= t.len() - i && matches_at(&t, &p, i) {
            out.append(to);
            proof {
                lemma_skip_take(s, i as int, pat.len() as int);
                assert(rest.take(pat.len() as int) == pat);
            }
            i = i + p.len();
        } else {
            push_char(&mut out, t[i]);
            proof {
                if pat.len() <= rest.len() {
                    lemma_skip_take(s, i as int, pat.len() as int);
                }
                assert(rest.drop_first() =~= s.skip(i + 1));
                assert(rest[0] == s[i as int]);
                assert(before + (seq![s[i as int]] + replaced(s.skip(i + 1), pat, rep))
                    =~= out@ + replaced(s.skip(i + 1), pat, rep));
            }
            i = i + 1;
        }
    }
    proof {
        assert(s.skip(i as int).len() == 0);
        assert(out@ + seq![] =~= out@);
    }
    out
}

// ---------------------------------------------------------------------------
// What replacement leaves behind
// ---------------------------------------------------------------------------

/// A prefix of the replaced text that holds no character of `rep` is a
/// prefix of the text it was made from.
proof fn lemma_prefix_without_rep(s: Seq<char>, pat: Seq<char>, rep: Seq<char>, k: int)
    requires
        pat.len() > 0,
        rep.len() > 0,
        0 <= k <= replaced(s, pat, rep).len(),
        forall|i: int, j: int|
            0 <= i < k && 0 <= j < rep.len() ==> replaced(s, pat, rep)[i] != rep[j],
    ensures
        k <= s.len(),
        s.take(k) == replaced(s, pat, rep).take(k),
    decreases s.len(),
{
    let r = replaced(s, pat, rep);
    if k == 0 {
        assert(s.take(0) =~= r.take(0));
    } else if s.len() == 0 {
    } else if pat.len() <= s.len() && s.take(pat.len() as int) == pat {
        assert(r[0] == rep[0]);
    } else {
        let tail = replaced(s.drop_first(), pat, rep);
        assert(r == seq![s[0]] + tail);
        assert forall|i: int, j: int|
            0 <= i < k - 1 && 0 <= j < rep.len() implies tail[i] != rep[j] by {
            assert(r[i + 1] == tail[i]);
        }
        lemma_prefix_without_rep(s.drop_first(), pat, rep, k - 1);
        assert(s.take(k) =~= seq![s[0]] + s.drop_first().take(k - 1));
        assert(r.take(k) =~= seq![s[0]] + tail.take(k - 1));
    }
}

/// When the replacement is non-empty and shares no character with the
/// pattern, the pattern never occurs in the replaced text.
pub proof fn lemma_replaced_has_no_pattern(s: Seq<char>, pat: Seq<char>, rep: Seq<char>)
    requires
        pat.len() > 0,
        rep.len() > 0,
        share_no_char(pat, rep),
    ensures
        !occurs_in(replaced(s, pat, rep), pat),
    decreases s.len(),
{
    let r = replaced(s, pat, rep);
    if s.len() == 0 {
        assert forall|i: int| !occurs_at(r, pat, i) by {}
    } else if pat.len() <= s.len() && s.take(pat.len() as int) == pat {
        let tail = replaced(s.skip(pat.len() as int), pat, rep);
        lemma_replaced_has_no_pattern(s.skip(pat.len() as int), pat, rep);
        assert(r == rep + tail);
        assert forall|i: int| !occurs_at(r, pat, i) by {
            if occurs_at(r, pat, i) {
                if i < rep.len() {
                    assert(r.subrange(i, i + pat.len())[0] == pat[0]);
                    assert(r[i] == rep[i]);
                } else {
                    assert(r.subrange(i, i + pat.len()) =~= tail.subrange(
                        i - rep.len(),
                        i - rep.len() + pat.len(),
                    ));
                    assert(occurs_at(tail, pat, i - rep.len()));
                }
            }
        }
    } else {
        let tail = replaced(s.drop_first(), pat, rep);
        lemma_replaced_has_no_pattern(s.drop_first(), pat, rep);
        assert(r == seq![s[0]] + tail);
        assert forall|i: int| !occurs_at(r, pat, i) by {
            if occurs_at(r, pat, i) {
                if i == 0 {
                    let k = pat.len() as int;
                    assert(r.take(k) =~= r.subrange(0, k));
                    assert forall|a: int, b: int|
                        0 <= a < k && 0 <= b < rep.len() implies r[a] != rep[b] by {
                        assert(r[a] == r.subrange(0, k)[a]);
                    }
                    lemma_prefix_without_rep(s, pat, rep, k);
                } else {
                    assert(r.subrange(i, i + pat.len()) =~= tail.subrange(
                        i - 1,
                        i - 1 + pat.len(),
                    ));
                    assert(occurs_at(tail, pat, i - 1));
                }
            }
        }
    }
}

/// Replacing a pattern that does not occur leaves the text unchanged.
pub proof fn lemma_replaced_without_occurrence(s: Seq<char>, pat: Seq<char>, rep: Seq<char>)
    requires
        pat.len() > 0,
        !occurs_in(s, pat),
    ensures
        replaced(s, pat, rep) == s,
    decreases s.len(),
{
    if s.len() == 0 {
    } else {
        if pat.len() <= s.len() && s.take(pat.len() as int) == pat {
            assert(s.subrange(0, pat.len() as int) =~= s.take(pat.len() as int));
            assert(occurs_at(s, pat, 0));
        }
        assert forall|i: int| !occurs_at(s.drop_first(), pat, i) by {
            if occurs_at(s.drop_first(), pat, i) {
                assert(s.drop_first().subrange(i, i + pat.len()) =~= s.subrange(
                    i + 1,
                    i + 1 + pat.len(),
                ));
                assert(occurs_at(s, pat, i + 1));
            }
        }
        lemma_replaced_without_occurrence(s.drop_first(), pat, rep);
        assert(seq![s[0]] + s.drop_first() =~= s);
    }
}

} // verus!
