use vstd::prelude::*;
use vstd::utf8::{decode_utf8, valid_utf8};
use crate::text::{chars_of, lemma_token_len_bound, lemma_trim_start_shape, nth_token, skip_white_space, token_end, token_len, trim_start_spec};

verus! {

broadcast use vstd::string::group_string_axioms;

/// The text that `String::from_utf8_lossy` makes of `bytes`.
pub uninterp spec fn utf8_lossy(bytes: Seq<u8>) -> Seq<char>;

/// `String::from_utf8_lossy`: decodes UTF-8, putting U+FFFD in place of each
/// invalid sequence. Its documentation says that valid UTF-8 comes back
/// decoded as it is. The decoding goes chunk by chunk (`Utf8Chunks`): an
/// invalid sequence is a prefix of a multi-byte sequence, so it never takes
/// in an ASCII byte; a line feed byte therefore decodes to a line feed of
/// its own, and the text is the decoding of the bytes before it, the line
/// feed, and the decoding of the bytes after it. What the decoding makes of
/// invalid input beyond that is left to the name.
#[verifier::external_body]
pub(crate) fn decode_lossy(bytes: &[u8]) -> (r: String)
    ensures
        r@ == utf8_lossy(bytes@),
        valid_utf8(bytes@) ==> r@ == decode_utf8(bytes@),
        forall|i: int|
            0 <= i < bytes@.len() && #[trigger] bytes@[i] == 10u8 ==> r@ == utf8_lossy(bytes@.take(i)) + seq!['\n'] + utf8_lossy(bytes@.skip(i + 1)),
{
    String::from_utf8_lossy(bytes).into_owned()
}

/// The characters of `s` before its first line feed (all of `s` when it has
/// none). A carriage return ending the line is whitespace, so it never
/// changes the tokens of the line.
pub open spec fn first_line(s: Seq<char>) -> Seq<char>
    decreases s.len(),
{
    if s.len() == 0 || s[0] == '\n' {
        Seq::empty()
    } else {
        seq![s[0]] + first_line(s.drop_first())
    }
}

proof fn lemma_first_line_before_feed(x: Seq<char>, y: Seq<char>)
    ensures
        first_line(x + seq!['\n'] + y) == first_line(x),
    decreases x.len(),
{
    if x.len() == 0 {
        assert((x + seq!['\n'] + y)[0] == '\n');
    } else if x[0] == '\n' {
        assert((x + seq!['\n'] + y)[0] == '\n');
    } else {
        assert((x + seq!['\n'] + y).drop_first() =~= x.drop_first() + seq!['\n'] + y);
        lemma_first_line_before_feed(x.drop_first(), y);
    }
}

/// Whether a response text announces success: the second
/// whitespace-separated token of its first line (the status code of
/// `HTTP/1.1 200 OK`) starts with `2`.
pub open spec fn status_line_ok(text: Seq<char>) -> bool {
    match nth_token(first_line(text), 1) {
        Some(tok) => tok.len() > 0 && tok[0] == '2',
        None => false,
    }
}

fn line_end(v: &Vec<char>) -> (e: usize)
    ensures
        e <= v.len(),
        v@.subrange(0, e as int) == first_line(v@),
{
    let mut e: usize = 0;
    proof {
        assert(v@.skip(0) =~= v@);
        assert(v@.subrange(0, 0) + first_line(v@) =~= first_line(v@));
    }
    while e < v.len() && v[e] != '\n'
        invariant
            e <= v.len(),
            first_line(v@) == v@.subrange(0, e as int) + first_line(v@.skip(e as int)),
        decreases v.len() - e,
    {
        proof {
            let rest = v@.skip(e as int);
            assert(rest[0] == v@[e as int]);
            assert(rest.drop_first() =~= v@.skip(e + 1));
            assert(v@.subrange(0, e as int) + (seq![rest[0]] + first_line(v@.skip(e + 1)))
                =~= v@.subrange(0, e + 1) + first_line(v@.skip(e + 1)));
        }
        e = e + 1;
    }
    proof {
        let rest = v@.skip(e as int);
        assert(rest.len() == 0 || rest[0] == '\n');
        assert(first_line(rest) =~= Seq::<char>::empty());
        assert(v@.subrange(0, e as int) + Seq::<char>::empty() =~= v@.subrange(0, e as int));
    }
    e
}

/// Whether a decoded response text announces success (see `status_line_ok`).
pub fn status_line_is_success(text: &str) -> (r: bool)
    ensures
        r == status_line_ok(text@),
{
    let v = chars_of(text);
    let end = line_end(&v);
    let ghost line = v@.subrange(0, end as int);
    let j = skip_white_space(&v, 0, end);
    proof {
        assert(v@.subrange(0, end as int) =~= line);
    }
    if j == end {
        return false;
    }
    let k = token_end(&v, j, end);
    let j2 = skip_white_space(&v, k, end);
    proof {
        let t = trim_start_spec(line);
        assert(t == v@.subrange(j as int, end as int));
        assert(t.skip(token_len(t) as int) =~= v@.subrange(k as int, end as int));
        reveal_with_fuel(nth_token, 2);
        lemma_trim_start_shape(v@.subrange(k as int, end as int));
    }
    if j2 == end {
        return false;
    }
    proof {
        let t2 = v@.subrange(j2 as int, end as int);
        assert(t2[0] == v@[j2 as int]);
        lemma_token_len_bound(t2);
        assert(t2.take(token_len(t2) as int)[0] == t2[0]);
    }
    v[j2] == '2'
}

/// The request that probes whether the local service is up.
pub fn readiness_request() -> (r: String)
    ensures
        r@ == "GET / HTTP/1.1\r\nHost: 127.0.0.1\r\nConnection: close\r\n\r\n"@,
{
    crate::text::owned("GET / HTTP/1.1\r\nHost: 127.0.0.1\r\nConnection: close\r\n\r\n")
}

/// Whether the first bytes read back from the local service announce a
/// successful HTTP status: the response, decoded as
/// `String::from_utf8_lossy` decodes it, passes `status_line_ok`.
/// Only the status line decides: for any line feed in the response, the
/// bytes before it decide alone, whatever follows.
pub fn http_response_is_success(response: &[u8]) -> (r: bool)
    ensures
        r == status_line_ok(utf8_lossy(response@)),
        valid_utf8(response@) ==> r == status_line_ok(decode_utf8(response@)),
        forall|i: int|
            0 <= i < response@.len() && #[trigger] response@[i] == 10u8 ==> r == status_line_ok(utf8_lossy(response@.take(i))),
{
    let text = decode_lossy(response);
    let r = status_line_is_success(text.as_str());
    proof {
        assert forall|i: int|
            0 <= i < response@.len() && #[trigger] response@[i] == 10u8 implies r == status_line_ok(utf8_lossy(response@.take(i))) by {
            lemma_first_line_before_feed(utf8_lossy(response@.take(i)), utf8_lossy(response@.skip(i + 1)));
        }
    }
    r
}

} // verus!
