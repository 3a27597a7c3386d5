//! The tagged result of one rendering call, the diagnostic text built from
//! an engine error chain, and the null-byte guard applied before any text
//! crosses the boundary as a null-terminated string.

use vstd::prelude::*;
use vstd::string::*;

verus! {

/// Exactly one of rendered text or a diagnostic; never both, never neither.
pub enum RenderOutcome {
    Success(String),
    Failure(String),
}

/// The "Caused by: " lines for the tail of an error chain, one message per
/// line, in chain order.
pub open spec fn caused_by_text(msgs: Seq<Seq<char>>) -> Seq<char>
    decreases msgs.len(),
{
    if msgs.len() == 0 {
        Seq::empty()
    } else {
        "Caused by: "@ + msgs[0] + "\n"@ + caused_by_text(msgs.skip(1))
    }
}

/// The full diagnostic for an engine failure: the primary description on
/// the first line, then every cause in the chain on a line of its own.
pub open spec fn chain_text(msgs: Seq<Seq<char>>) -> Seq<char>
    recommends
        msgs.len() >= 1,
{
    "MiniJinja render error: "@ + msgs[0] + "\n"@ + caused_by_text(msgs.skip(1))
}

/// Build the diagnostic text for an engine failure from its message chain:
/// the primary message first, then each cause prefixed "Caused by: ".
pub fn format_error_chain(msgs: &Vec<String>) -> (r: String)
    requires
        msgs@.len() >= 1,
    ensures
        r@ == chain_text(msgs.deep_view()),
{
    let ghost all: Seq<Seq<char>> = msgs.deep_view();
    let mut out = String::from_str("MiniJinja render error: ");
    out.append(msgs[0].as_str());
    out.append("\n");
    let mut i: usize = 1;
    proof {
        assert(all[0] == msgs@[0]@);
        assert(out@ + caused_by_text(all.skip(1)) == chain_text(all));
    }
    while i < msgs.len()
        invariant
            1 <= i <= msgs@.len(),
            all == msgs.deep_view(),
            out@ + caused_by_text(all.skip(i as int)) == chain_text(all),
        decreases msgs@.len() - i,
    {
        out.append("Caused by: ");
        out.append(msgs[i].as_str());
        out.append("\n");
        proof {
            let rest = all.skip(i as int);
            assert(rest.len() > 0);
            assert(rest[0] == msgs@[i as int]@);
            assert(rest.skip(1) =~= all.skip(i + 1));
            assert(out@ + caused_by_text(all.skip(i + 1)) == chain_text(all));
        }
        i += 1;
    }
    proof {
        assert(all.skip(i as int) =~= Seq::<Seq<char>>::empty());
        assert(caused_by_text(all.skip(i as int)) == Seq::<char>::empty());
        assert(out@ + Seq::<char>::empty() =~= out@);
    }
    out
}

/// A diagnostic built from an engine error chain always begins with
/// "MiniJinja render error: ", whatever the chain held.
pub proof fn lemma_chain_text_prefix(msgs: Seq<Seq<char>>)
    ensures
        chain_text(msgs).len() >= "MiniJinja render error: "@.len(),
        chain_text(msgs).take("MiniJinja render error: "@.len() as int)
            == "MiniJinja render error: "@,
{
    assert(chain_text(msgs).take("MiniJinja render error: "@.len() as int)
        =~= "MiniJinja render error: "@);
}

/// Some character of `s` is the null character.
pub open spec fn contains_nul(s: Seq<char>) -> bool {
    exists|i: int| 0 <= i < s.len() && s[i] == '\0'
}

/// Whether the string holds a null character anywhere.
pub fn has_nul_char(s: &str) -> (b: bool)
    ensures
        b == contains_nul(s@),
{
    let n = s.unicode_len();
    let mut i: usize = 0;
    while i < n
        invariant
            i <= n,
            n == s@.len(),
            forall|j: int| 0 <= j < i ==> s@[j] != '\0',
        decreases n - i,
    {
        if s.get_char(i) == '\0' {
            proof {
                assert(contains_nul(s@)) by {
                    assert(0 <= i < s@.len() && s@[i as int] == '\0');
                }
            }
            return true;
        }
        i += 1;
    }
    false
}

/// A diagnostic or output string that cannot be null-terminated (it holds
/// an embedded null byte) degrades to this fixed message instead of
/// failing the encode step.
pub open spec fn nul_fallback_text() -> Seq<char> {
    "render error (message contained null byte)"@
}

/// The fallback itself holds no null character, so the guarded text
/// never does.
pub proof fn lemma_fallback_has_no_nul()
    ensures
        !contains_nul(nul_fallback_text()),
{
    reveal_strlit("render error (message contained null byte)");
}

/// Guard a string before it crosses the boundary as a null-terminated
/// string: pass it through unchanged unless it holds an embedded null
/// character, in which case substitute the fixed fallback.
pub fn encode_text(text: String) -> (r: String)
    ensures
        !contains_nul(text@) ==> r@ == text@,
        contains_nul(text@) ==> r@ == nul_fallback_text(),
        !contains_nul(r@),
{
    if has_nul_char(text.as_str()) {
        proof {
            lemma_fallback_has_no_nul();
        }
        String::from_str("render error (message contained null byte)")
    } else {
        text
    }
}

} // verus!
