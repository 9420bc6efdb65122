use vstd::prelude::*;
use crate::http::{decode_lossy, utf8_lossy};
use crate::text::{
    decimal, decimal_text, lemma_replaced_has_no_pattern, lemma_replaced_without_occurrence,
    occurs_in, owned, replace_all, replaced, share_no_char,
};

verus! {

broadcast use vstd::string::group_string_axioms;

/// What stands in a log in place of the API key.
pub open spec fn mask() -> Seq<char> {
    seq!['*', '*', '*']
}

/// `text` with every occurrence of `key` masked.
pub open spec fn redacted(text: Seq<char>, key: Seq<char>) -> Seq<char> {
    replaced(text, key, mask())
}

/// Masks every occurrence of the key in a text before it reaches a log.
pub fn redact_secret(text: &str, key: &str) -> (r: String)
    ensures
        r@ == redacted(text@, key@),
{
    let m = owned("***");
    proof {
        reveal_strlit("***");
        assert(m@ =~= mask());
    }
    replace_all(text, key, m.as_str())
}

/// The text of a captured output stream as it is written to the log:
/// decoded as `String::from_utf8_lossy` decodes it, then masked.
pub fn redact_log_bytes(bytes: &[u8], key: &str) -> (r: String)
    ensures
        r@ == redacted(utf8_lossy(bytes@), key@),
{
    let text = decode_lossy(bytes);
    redact_secret(text.as_str(), key)
}

/// One log entry: `[timestamp] [stream] text` and a line feed.
pub open spec fn log_entry(timestamp: nat, stream: Seq<char>, text: Seq<char>) -> Seq<char> {
    seq!['['] + decimal(timestamp) + seq![']', ' ', '['] + stream + seq![']', ' '] + text + seq![
        '\n',
    ]
}

/// Formats one log entry.
pub fn log_line(timestamp: u64, stream: &str, text: &str) -> (r: String)
    ensures
        r@ == log_entry(timestamp as nat, stream@, text@),
{
    let mut out = owned("[");
    let ts = decimal_text(timestamp);
    out.append(ts.as_str());
    let sep = owned("] [");
    out.append(sep.as_str());
    out.append(stream);
    let close = owned("] ");
    out.append(close.as_str());
    out.append(text);
    let nl = owned("\n");
    out.append(nl.as_str());
    proof {
        reveal_strlit("[");
        reveal_strlit("] [");
        reveal_strlit("] ");
        reveal_strlit("\n");
        assert(out@ =~= log_entry(timestamp as nat, stream@, text@));
    }
    out
}

/// Redaction law: once masked, a text never shows the key, whatever the
/// text, provided the key is not empty and holds no `*` (the mask's own
/// character).
pub proof fn law_redaction_hides_key(text: Seq<char>, key: Seq<char>)
    requires
        key.len() > 0,
        !key.contains('*'),
    ensures
        !occurs_in(redacted(text, key), key),
{
    assert(share_no_char(key, mask())) by {
        assert forall|i: int, j: int| 0 <= i < key.len() && 0 <= j < mask().len() implies key[i]
            != mask()[j] by {
            assert(mask()[j] == '*');
            if key[i] == '*' {
                assert(key.contains('*'));
            }
        }
    }
    lemma_replaced_has_no_pattern(text, key, mask());
}

/// Redaction leaves a text in which the key does not occur unchanged.
pub proof fn law_redaction_keeps_other_text(text: Seq<char>, key: Seq<char>)
    requires
        key.len() > 0,
        !occurs_in(text, key),
    ensures
        redacted(text, key) == text,
{
    lemma_replaced_without_occurrence(text, key, mask());
}

} // verus!
