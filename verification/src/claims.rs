//! The four claim strategies. Each one peeks speculatively and commits the
//! cursor only when the whole match, boundary checks included, has been
//! decided, so a failed claim never consumes anything.

use vstd::prelude::*;

use crate::cursor::LookaheadCursor;
use crate::foreign::{alphabetic, is_alphabetic_char, regex_accepts, regex_compiles,
    regex_full_match};

verus! {

/// What an exact-literal claim yields: the literal itself, iff the next
/// `literal.len()` characters equal the literal character for character.
pub open spec fn exact_claim(literal: Seq<char>, chars: Seq<char>, pos: int) -> Option<Seq<char>> {
    if pos + literal.len() <= chars.len() && chars.subrange(pos, pos + literal.len() as int)
        == literal {
        Some(literal)
    } else {
        None
    }
}

/// The keyword boundary: the character after the literal is absent or not
/// alphabetic, so a keyword never matches as a prefix of an identifier.
pub open spec fn keyword_boundary(literal: Seq<char>, chars: Seq<char>, pos: int) -> bool {
    pos + literal.len() == chars.len() || !alphabetic(chars[pos + literal.len() as int])
}

/// What a keyword claim yields: the exact literal, and only when the keyword
/// boundary holds behind it.
pub open spec fn keyword_claim(literal: Seq<char>, chars: Seq<char>, pos: int) -> Option<
    Seq<char>,
> {
    match exact_claim(literal, chars, pos) {
        Some(s) => if keyword_boundary(literal, chars, pos) {
            Some(s)
        } else {
            None
        },
        None => None,
    }
}

/// How far a greedy span grows from candidate length `k`: it extends one
/// character at a time as long as the whole candidate still matches the
/// anchored pattern, and stops at the first character whose inclusion breaks
/// the match, or at the end of the input.
pub open spec fn span_extend(pattern: Seq<char>, chars: Seq<char>, pos: int, k: int) -> int
    decreases chars.len() - pos - k,
{
    if pos + k >= chars.len() {
        k
    } else if regex_accepts(pattern, chars.subrange(pos, pos + k + 1)) {
        span_extend(pattern, chars, pos, k + 1)
    } else {
        k
    }
}

/// What an anchored-pattern span claim yields: the maximal-munch span, iff
/// the pattern is valid and the span is nonempty.
pub open spec fn span_claim(pattern: Seq<char>, chars: Seq<char>, pos: int) -> Option<Seq<char>> {
    if !regex_compiles(pattern) {
        None
    } else {
        let k = span_extend(pattern, chars, pos, 0);
        if k > 0 {
            Some(chars.subrange(pos, pos + k))
        } else {
            None
        }
    }
}

/// Scans a delimited string body from `i`: a backslash sets the escaped flag
/// and any other character clears it; an unescaped closing quote ends the
/// scan, returning the position just after it. Input that ends first yields
/// no result.
pub open spec fn string_scan(chars: Seq<char>, i: int, escaped: bool) -> Option<int>
    decreases chars.len() - i,
{
    if i >= chars.len() {
        None
    } else if chars[i] == '\\' {
        string_scan(chars, i + 1, true)
    } else if chars[i] == '"' && !escaped {
        Some(i + 1)
    } else {
        string_scan(chars, i + 1, false)
    }
}

/// What a delimited string claim yields: the whole run from the opening
/// quote up to and including the first unescaped closing quote.
pub open spec fn string_claim(chars: Seq<char>, pos: int) -> Option<Seq<char>> {
    if 0 <= pos < chars.len() && chars[pos] == '"' {
        match string_scan(chars, pos + 1, false) {
            Some(end) => Some(chars.subrange(pos, end)),
            None => None,
        }
    } else {
        None
    }
}

/// Law: a successful exact-literal claim returns the literal unchanged, and
/// the consumed characters are exactly the literal's length of input.
pub proof fn lemma_exact_claim_returns_literal(literal: Seq<char>, chars: Seq<char>, pos: int)
    requires
        0 <= pos <= chars.len(),
    ensures
        exact_claim(literal, chars, pos) matches Some(s) ==> s == literal && s.len()
            == literal.len() && s == chars.subrange(pos, pos + literal.len() as int),
{
}

/// Law: a keyword never matches as a prefix of a longer identifier. With an
/// alphabetic character right behind the literal the keyword claim fails,
/// and a successful keyword claim is exactly the exact-literal claim.
pub proof fn lemma_keyword_boundary(literal: Seq<char>, chars: Seq<char>, pos: int)
    requires
        0 <= pos <= chars.len(),
    ensures
        0 <= pos + literal.len() < chars.len() && alphabetic(chars[pos + literal.len() as int])
            ==> keyword_claim(literal, chars, pos) is None,
        keyword_claim(literal, chars, pos) matches Some(s) ==> exact_claim(literal, chars, pos)
            == Some(s),
{
}

/// A successful string scan stops on a quote.
pub proof fn lemma_string_scan_ends_with_quote(chars: Seq<char>, i: int, escaped: bool)
    requires
        0 <= i,
    ensures
        string_scan(chars, i, escaped) matches Some(end) ==> chars[end - 1] == '"',
    decreases chars.len() - i,
{
    if i >= chars.len() {
    } else if chars[i] == '\\' {
        lemma_string_scan_ends_with_quote(chars, i + 1, true);
    } else if chars[i] == '"' && !escaped {
    } else {
        lemma_string_scan_ends_with_quote(chars, i + 1, false);
    }
}

/// Law: a successful string claim is a whole delimited run: it spans at
/// least its two quotes, opens with one and closes with one.
pub proof fn lemma_string_claim_delimited(chars: Seq<char>, pos: int)
    requires
        0 <= pos,
    ensures
        string_claim(chars, pos) matches Some(s) ==> s.len() >= 2 && s[0] == '"' && s[s.len() - 1]
            == '"',
{
    lemma_string_scan_bounds(chars, pos + 1, false);
    lemma_string_scan_ends_with_quote(chars, pos + 1, false);
}

/// The span never retreats below its starting candidate, never passes the
/// end of input, accepts every candidate it grew through, and stops only at
/// the end of input or at a candidate the pattern rejects.
pub proof fn lemma_span_extend_props(pattern: Seq<char>, chars: Seq<char>, pos: int, k0: int)
    requires
        0 <= pos,
        0 <= k0,
        pos + k0 <= chars.len(),
    ensures
        ({
            let k = span_extend(pattern, chars, pos, k0);
            &&& k0 <= k <= chars.len() - pos
            &&& forall|j: int|
                k0 < j <= k ==> #[trigger] regex_accepts(pattern, chars.subrange(pos, pos + j))
            &&& (pos + k == chars.len() || !regex_accepts(
                pattern,
                chars.subrange(pos, pos + k + 1),
            ))
        }),
    decreases chars.len() - pos - k0,
{
    if pos + k0 >= chars.len() {
    } else if regex_accepts(pattern, chars.subrange(pos, pos + k0 + 1)) {
        lemma_span_extend_props(pattern, chars, pos, k0 + 1);
    } else {
    }
}

/// Law: greedy span matching is maximal. A successful span claim consists of
/// exactly the consumed characters, every candidate it grew through matches
/// the pattern, and the claim stops precisely where the input ends or where
/// one more character would break the match.
pub proof fn lemma_span_claim_maximal(pattern: Seq<char>, chars: Seq<char>, pos: int)
    requires
        0 <= pos <= chars.len(),
    ensures
        span_claim(pattern, chars, pos) matches Some(s) ==> {
            let k = s.len() as int;
            &&& 0 < k <= chars.len() - pos
            &&& s == chars.subrange(pos, pos + k)
            &&& forall|j: int|
                0 < j <= k ==> #[trigger] regex_accepts(pattern, chars.subrange(pos, pos + j))
            &&& (pos + k == chars.len() || !regex_accepts(
                pattern,
                chars.subrange(pos, pos + k + 1),
            ))
        },
{
    if regex_compiles(pattern) {
        lemma_span_extend_props(pattern, chars, pos, 0);
    }
}

/// A successful string scan ends after its starting point and within the
/// input.
pub proof fn lemma_string_scan_bounds(chars: Seq<char>, i: int, escaped: bool)
    requires
        0 <= i,
    ensures
        string_scan(chars, i, escaped) matches Some(end) ==> i < end <= chars.len(),
    decreases chars.len() - i,
{
    if i >= chars.len() {
    } else if chars[i] == '\\' {
        lemma_string_scan_bounds(chars, i + 1, true);
    } else if chars[i] == '"' && !escaped {
    } else {
        lemma_string_scan_bounds(chars, i + 1, false);
    }
}

/// Peeks whether the next characters spell `to_match`, without committing.
/// On success the speculative position rests just behind the literal.
#[verifier::loop_isolation(false)]
fn peek_literal(to_match: &str, buffer: &mut LookaheadCursor) -> (ok: bool)
    requires
        old(buffer).wf(),
        old(buffer)@.ahead == old(buffer)@.committed,
    ensures
        final(buffer).wf(),
        final(buffer)@.chars == old(buffer)@.chars,
        final(buffer)@.committed == old(buffer)@.committed,
        ok <==> exact_claim(to_match@, old(buffer)@.chars, old(buffer)@.committed) is Some,
        ok ==> final(buffer)@.ahead == old(buffer)@.committed + to_match@.len(),
{
    let len = to_match.unicode_len();
    let ghost chars = buffer@.chars;
    let ghost pos = buffer@.committed;
    let mut i: usize = 0;
    while i < len
        invariant
            buffer.wf(),
            buffer@.chars == chars,
            buffer@.committed == pos,
            buffer@.ahead == pos + i,
            i <= len,
            len == to_match@.len(),
            pos + i <= chars.len(),
            forall|j: int| 0 <= j < i ==> chars[pos + j] == to_match@[j],
        decreases len - i,
    {
        let expected = to_match.get_char(i);
        match buffer.peek() {
            Some(c) => {
                if c != expected {
                    proof {
                        if pos + len <= chars.len() {
                            assert(chars.subrange(pos, pos + len as int)[i as int]
                                != to_match@[i as int]);
                        }
                    }
                    return false;
                }
            },
            None => {
                return false;
            },
        }
        i = i + 1;
    }
    proof {
        assert(chars.subrange(pos, pos + len as int) =~= to_match@);
    }
    true
}

/// Exact literal strategy: succeeds iff the next `to_match.len()` characters
/// equal `to_match`, committing exactly that many; a failure commits nothing.
pub fn match_exact(to_match: &str, buffer: &mut LookaheadCursor) -> (r: Option<String>)
    requires
        old(buffer).wf(),
        old(buffer)@.ahead == old(buffer)@.committed,
    ensures
        final(buffer).wf(),
        final(buffer)@.chars == old(buffer)@.chars,
        match r {
            Some(s) => exact_claim(to_match@, old(buffer)@.chars, old(buffer)@.committed) == Some(
                s@,
            ) && final(buffer)@.committed == old(buffer)@.committed + s@.len(),
            None => exact_claim(to_match@, old(buffer)@.chars, old(buffer)@.committed) is None
                && final(buffer)@.committed == old(buffer)@.committed,
        },
{
    if peek_literal(to_match, buffer) {
        let len = to_match.unicode_len();
        buffer.advance(len);
        Some(String::from_str(to_match))
    } else {
        None
    }
}

/// Keyword strategy: an exact literal whose following character, if any,
/// must not be alphabetic. The literal and the boundary are both examined
/// before anything is committed.
pub fn match_keyword(to_match: &str, buffer: &mut LookaheadCursor) -> (r: Option<String>)
    requires
        old(buffer).wf(),
        old(buffer)@.ahead == old(buffer)@.committed,
    ensures
        final(buffer).wf(),
        final(buffer)@.chars == old(buffer)@.chars,
        match r {
            Some(s) => keyword_claim(to_match@, old(buffer)@.chars, old(buffer)@.committed)
                == Some(s@) && final(buffer)@.committed == old(buffer)@.committed + s@.len(),
            None => keyword_claim(to_match@, old(buffer)@.chars, old(buffer)@.committed) is None
                && final(buffer)@.committed == old(buffer)@.committed,
        },
{
    if !peek_literal(to_match, buffer) {
        return None;
    }
    let boundary_ok = match buffer.peek() {
        Some(c) => !is_alphabetic_char(c),
        None => true,
    };
    if boundary_ok {
        let len = to_match.unicode_len();
        buffer.advance(len);
        Some(String::from_str(to_match))
    } else {
        None
    }
}

/// Anchored-pattern span strategy: grows a candidate one character at a time
/// while the whole candidate matches the anchored pattern, and claims the
/// span in front of the first character that breaks it. A pattern that does
/// not compile never claims.
#[verifier::loop_isolation(false)]
pub fn match_pattern(pattern: &str, buffer: &mut LookaheadCursor) -> (r: Option<String>)
    requires
        old(buffer).wf(),
        old(buffer)@.ahead == old(buffer)@.committed,
    ensures
        final(buffer).wf(),
        final(buffer)@.chars == old(buffer)@.chars,
        match r {
            Some(s) => span_claim(pattern@, old(buffer)@.chars, old(buffer)@.committed) == Some(s@)
                && final(buffer)@.committed == old(buffer)@.committed + s@.len(),
            None => span_claim(pattern@, old(buffer)@.chars, old(buffer)@.committed) is None
                && final(buffer)@.committed == old(buffer)@.committed,
        },
{
    let ghost chars = buffer@.chars;
    let pos = buffer.position();
    let mut k: usize = 0;
    loop
        invariant
            buffer.wf(),
            buffer@.chars == chars,
            buffer@.committed == pos as int,
            buffer@.ahead == pos + k,
            pos + k <= chars.len(),
            k > 0 ==> regex_compiles(pattern@),
            span_extend(pattern@, chars, pos as int, 0) == span_extend(
                pattern@,
                chars,
                pos as int,
                k as int,
            ),
        decreases chars.len() - pos - k,
    {
        match buffer.peek() {
            Some(_c) => {
                let candidate = buffer.text(pos, pos + k + 1);
                match regex_full_match(pattern, candidate.as_str()) {
                    None => {
                        return None;
                    },
                    Some(true) => {
                        k = k + 1;
                    },
                    Some(false) => {
                        if k == 0 {
                            return None;
                        }
                        let text = buffer.text(pos, pos + k);
                        buffer.advance(k);
                        return Some(text);
                    },
                }
            },
            None => {
                if k == 0 {
                    return None;
                }
                let text = buffer.text(pos, pos + k);
                buffer.advance(k);
                return Some(text);
            },
        }
    }
}

/// Delimited string strategy: requires an opening quote, scans with the
/// escape flag for the first unescaped closing quote, and claims the whole
/// run, quotes included. Input that ends before the closing quote claims
/// nothing.
#[verifier::loop_isolation(false)]
pub fn match_string(buffer: &mut LookaheadCursor) -> (r: Option<String>)
    requires
        old(buffer).wf(),
        old(buffer)@.ahead == old(buffer)@.committed,
    ensures
        final(buffer).wf(),
        final(buffer)@.chars == old(buffer)@.chars,
        match r {
            Some(s) => string_claim(old(buffer)@.chars, old(buffer)@.committed) == Some(s@)
                && final(buffer)@.committed == old(buffer)@.committed + s@.len(),
            None => string_claim(old(buffer)@.chars, old(buffer)@.committed) is None
                && final(buffer)@.committed == old(buffer)@.committed,
        },
{
    let ghost chars = buffer@.chars;
    let pos = buffer.position();
    match buffer.peek() {
        Some(c) => {
            if c != '"' {
                return None;
            }
        },
        None => {
            return None;
        },
    }
    let mut i: usize = pos + 1;
    let mut escaped = false;
    loop
        invariant
            buffer.wf(),
            buffer@.chars == chars,
            buffer@.committed == pos as int,
            buffer@.ahead == i as int,
            pos + 1 <= i <= chars.len(),
            pos < chars.len() && chars[pos as int] == '"',
            string_scan(chars, pos + 1, false) == string_scan(chars, i as int, escaped),
        decreases chars.len() - i,
    {
        match buffer.peek() {
            Some(c) => {
                if c == '\\' {
                    escaped = true;
                    i = i + 1;
                } else if c == '"' && !escaped {
                    let end = i + 1;
                    let text = buffer.text(pos, end);
                    buffer.advance(end - pos);
                    return Some(text);
                } else {
                    escaped = false;
                    i = i + 1;
                }
            },
            None => {
                return None;
            },
        }
    }
}

} // verus!
