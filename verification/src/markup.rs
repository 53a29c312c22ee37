//! Escaping of text for use in HTML.

use vstd::prelude::*;
use vstd::std_specs::iter::IteratorSpec;
use vstd::string::*;

verus! {

/// Whether a character has a meaning of its own in HTML text or in a quoted
/// attribute value.
pub open spec fn is_markup(c: char) -> bool {
    c == '&' || c == '<' || c == '>' || c == '"'
}

/// What stands for a character in HTML: its entity where the character is
/// markup, the character itself otherwise.
pub open spec fn escaped_char(c: char) -> Seq<char> {
    if c == '&' {
        "&amp;"@
    } else if c == '<' {
        "&lt;"@
    } else if c == '>' {
        "&gt;"@
    } else if c == '"' {
        "&quot;"@
    } else {
        seq![c]
    }
}

/// A text with each of its characters escaped, in order.
pub open spec fn escaped(text: Seq<char>) -> Seq<char>
    decreases text.len(),
{
    if text.len() == 0 {
        Seq::empty()
    } else {
        escaped(text.drop_last()) + escaped_char(text.last())
    }
}

/// Calls `String::push`, which appends one character.
#[verifier::external_body]
fn push_char(text: &mut String, c: char)
    ensures
        final(text)@ == old(text)@.push(c),
{
    text.push(c);
}

/// Escapes a text for HTML: see [`escaped`].
pub fn escape(text: &str) -> (out: String)
    ensures
        out@ == escaped(text@),
{
    broadcast use {axiom_spec_iter, next_postcondition};

    let mut out: String = String::new();
    let mut rest = text.chars();
    let ghost mut seen: Seq<char> = Seq::empty();
    loop
        invariant
            seen + rest.remaining() == text@,
            out@ == escaped(seen),
            rest.decrease() is Some,
        decreases rest.decrease()->0,
    {
        let ghost before = rest;
        let c = match rest.next() {
            Some(c) => c,
            None => {
                proof {
                    assert(seen =~= text@);
                }
                return out;
            },
        };
        proof {
            let longer = seen.push(c);
            assert(longer.drop_last() =~= seen);
            assert(longer + rest.remaining() =~= seen + before.remaining());
            seen = longer;
        }
        if c == '&' {
            out.append("&amp;");
        } else if c == '<' {
            out.append("&lt;");
        } else if c == '>' {
            out.append("&gt;");
        } else if c == '"' {
            out.append("&quot;");
        } else {
            push_char(&mut out, c);
            proof {
                assert(out@ =~= escaped(seen.drop_last()) + seq![c]);
            }
        }
    }
}

/// No character of an escaped text is `<`, `>` or `"`: escaped text opens
/// no tag and closes no attribute value.
pub proof fn lemma_escaped_is_inert(text: Seq<char>)
    ensures
        forall|i: int|
            0 <= i < escaped(text).len() ==> {
                let c = #[trigger] escaped(text)[i];
                c != '<' && c != '>' && c != '"'
            },
    decreases text.len(),
{
    reveal_strlit("&amp;");
    reveal_strlit("&lt;");
    reveal_strlit("&gt;");
    reveal_strlit("&quot;");
    if text.len() > 0 {
        lemma_escaped_is_inert(text.drop_last());
        let head = escaped(text.drop_last());
        let tail = escaped_char(text.last());
        assert forall|i: int| 0 <= i < escaped(text).len() implies {
            let c = #[trigger] escaped(text)[i];
            c != '<' && c != '>' && c != '"'
        } by {
            if i < head.len() {
                assert(escaped(text)[i] == head[i]);
            } else {
                assert(escaped(text)[i] == tail[i - head.len()]);
            }
        }
    }
}

/// A text without markup is its own escaped form.
pub proof fn lemma_escaped_plain_text(text: Seq<char>)
    requires
        forall|i: int| 0 <= i < text.len() ==> !is_markup(#[trigger] text[i]),
    ensures
        escaped(text) == text,
    decreases text.len(),
{
    if text.len() > 0 {
        lemma_escaped_plain_text(text.drop_last());
        assert(text.drop_last().push(text.last()) =~= text);
        assert(escaped(text) =~= text);
    }
}

} // verus!
