//! Stripping the JSONP callback wrapper from a raw response.
//!
//! Every endpoint answers `callbackName(<json>)`, optionally followed by
//! trailing characters. The payload is the text between the first `(` and the
//! last `)`; anchoring on those two characters keeps payloads intact even
//! when the JSON itself holds `(` or `)` inside string values, which splitting
//! on every parenthesis would corrupt.

use vstd::prelude::*;
use vstd::string::*;
use crate::error::SseError;

verus! {

/// `i` is the position of the first `(` of `s`.
pub open spec fn is_first_open(s: Seq<char>, i: int) -> bool {
    &&& 0 <= i < s.len()
    &&& s[i] == '('
    &&& forall|k: int| 0 <= k < i ==> s[k] != '('
}

/// `j` is the position of the last `)` of `s`.
pub open spec fn is_last_close(s: Seq<char>, j: int) -> bool {
    &&& 0 <= j < s.len()
    &&& s[j] == ')'
    &&& forall|k: int| j < k < s.len() ==> s[k] != ')'
}

/// The first `(` and the last `)` frame a callback invocation.
pub open spec fn is_envelope_frame(s: Seq<char>, i: int, j: int) -> bool {
    is_first_open(s, i) && is_last_close(s, j) && i < j
}

pub open spec fn has_envelope(s: Seq<char>) -> bool {
    exists|i: int, j: int| is_envelope_frame(s, i, j)
}

/// The payload between the first `(` and the last `)`, when such a frame
/// exists.
pub open spec fn spec_unwrap_jsonp(s: Seq<char>) -> Option<Seq<char>> {
    if has_envelope(s) {
        let (i, j) = choose|i: int, j: int| is_envelope_frame(s, i, j);
        Some(s.subrange(i + 1, j))
    } else {
        None
    }
}

/// A frame is unique: there is one first `(` and one last `)`.
pub proof fn lemma_envelope_frame_unique(s: Seq<char>, i1: int, j1: int, i2: int, j2: int)
    requires
        is_envelope_frame(s, i1, j1),
        is_envelope_frame(s, i2, j2),
    ensures
        i1 == i2,
        j1 == j2,
{
}

/// Strips the JSONP wrapper: the text strictly between the first `(` and the
/// last `)`. Fails with `MalformedEnvelope` when no such pair frames the
/// response.
pub fn unwrap_jsonp(resp: &str) -> (r: Result<String, SseError>)
    ensures
        match r {
            Ok(t) => spec_unwrap_jsonp(resp@) == Some(t@),
            Err(e) => e == SseError::MalformedEnvelope && spec_unwrap_jsonp(resp@) is None,
        },
{
    let n = resp.unicode_len();
    let mut a: usize = 0;
    while a < n && resp.get_char(a) != '('
        invariant
            n == resp@.len(),
            a <= n,
            forall|k: int| 0 <= k < a ==> resp@[k] != '(',
        decreases n - a,
    {
        a = a + 1;
    }
    if a == n {
        // no `(` anywhere, so no frame
        assert(forall|i: int, j: int| !is_envelope_frame(resp@, i, j));
        return Err(SseError::MalformedEnvelope);
    }
    let mut b: usize = n;
    while b > 0 && resp.get_char(b - 1) != ')'
        invariant
            n == resp@.len(),
            b <= n,
            forall|k: int| b <= k < n ==> resp@[k] != ')',
        decreases b,
    {
        b = b - 1;
    }
    if b == 0 || b - 1 <= a {
        // no `)`, or the last `)` does not come after the first `(`
        assert(forall|i: int, j: int| !is_envelope_frame(resp@, i, j)) by {
            assert forall|i: int, j: int| is_envelope_frame(resp@, i, j) implies false by {
                assert(i == a);
                if b == 0 {
                    assert(resp@[j] != ')');
                } else {
                    assert(j == b - 1);
                }
            }
        }
        return Err(SseError::MalformedEnvelope);
    }
    proof {
        assert(is_envelope_frame(resp@, a as int, b - 1));
        let (i, j) = choose|i: int, j: int| is_envelope_frame(resp@, i, j);
        lemma_envelope_frame_unique(resp@, i, j, a as int, b - 1);
    }
    let t = resp.substring_char(a + 1, b - 1);
    Ok(t.to_owned())
}

/// The unwrapping law: for any callback identifier (free of parentheses) and
/// any payload whatsoever — balanced parentheses inside the payload included —
/// unwrapping `callback(payload)` yields exactly the payload.
pub proof fn lemma_unwrap_wrapped_payload(callback: Seq<char>, payload: Seq<char>)
    requires
        forall|k: int| 0 <= k < callback.len() ==> callback[k] != '(',
        forall|k: int| 0 <= k < callback.len() ==> callback[k] != ')',
    ensures
        spec_unwrap_jsonp(callback + seq!['('] + payload + seq![')']) == Some(payload),
{
    let s = callback + seq!['('] + payload + seq![')'];
    let i = callback.len() as int;
    let j = s.len() - 1;
    assert(s[i] == '(');
    assert(s[j] == ')');
    assert(forall|k: int| 0 <= k < i ==> s[k] == callback[k] && s[k] != '(');
    assert(is_envelope_frame(s, i, j));
    let (ci, cj) = choose|ci: int, cj: int| is_envelope_frame(s, ci, cj);
    lemma_envelope_frame_unique(s, ci, cj, i, j);
    assert(s.subrange(i + 1, j) =~= payload);
}

} // verus!
