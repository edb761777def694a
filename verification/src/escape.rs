//! XML escaping of caller-supplied text.
//!
//! Text handed to the builder (titles, body lines, image paths, alt texts) is
//! escaped before it is embedded in the toast document, so that the five XML
//! metacharacters and a carriage return can never produce markup of their own.

use vstd::prelude::*;

verus! {

/// The replacement for one character: each XML metacharacter (and a carriage
/// return, which XML end-of-line handling would otherwise rewrite) becomes its
/// character entity; every other character stays as it is.
pub open spec fn escaped_char(c: char) -> Seq<char> {
    if c == '<' {
        seq!['&', 'l', 't', ';']
    } else if c == '>' {
        seq!['&', 'g', 't', ';']
    } else if c == '&' {
        seq!['&', 'a', 'm', 'p', ';']
    } else if c == '\'' {
        seq!['&', 'a', 'p', 'o', 's', ';']
    } else if c == '"' {
        seq!['&', 'q', 'u', 'o', 't', ';']
    } else if c == '\r' {
        seq!['&', '#', '1', '3', ';']
    } else {
        seq![c]
    }
}

/// The escaped form of a text: each character replaced by [`escaped_char`].
pub open spec fn escaped(s: Seq<char>) -> Seq<char>
    decreases s.len(),
{
    if s.len() == 0 {
        Seq::empty()
    } else {
        escaped_char(s[0]) + escaped(s.drop_first())
    }
}

/// Relies on `quick_xml::escape::escape`: it replaces `<`, `>`, `&`, `'`, `"`
/// and `\r` by their character entities and keeps every other character.
#[verifier::external_body]
pub(crate) fn xml_escape(content: &str) -> (r: String)
    ensures
        r@ == escaped(content@),
{
    quick_xml::escape::escape(content).into_owned()
}

/// Escaped text can never open or close markup: whatever the input, its
/// escaped form contains no `<`, `>`, `"` or `'`.  Together with the fixed,
/// balanced element skeleton of the toast template this is what keeps the
/// assembled document well-formed for arbitrary caller text.
pub proof fn lemma_escaped_free_of_markup(s: Seq<char>)
    ensures
        forall|i: int|
            0 <= i < escaped(s).len() ==> escaped(s)[i] != '<' && escaped(s)[i] != '>' && escaped(
                s,
            )[i] != '"' && escaped(s)[i] != '\'',
    decreases s.len(),
{
    if s.len() == 0 {
    } else {
        lemma_escaped_free_of_markup(s.drop_first());
        assert forall|i: int| 0 <= i < escaped(s).len() implies escaped(s)[i] != '<' && escaped(
            s,
        )[i] != '>' && escaped(s)[i] != '"' && escaped(s)[i] != '\'' by {
            if i < escaped_char(s[0]).len() {
                assert(escaped(s)[i] == escaped_char(s[0])[i]);
            } else {
                assert(escaped(s)[i] == escaped(s.drop_first())[i - escaped_char(s[0]).len()]);
            }
        }
    }
}

/// A character whose escaped form is an entity rather than itself.
pub open spec fn is_escaped_specially(c: char) -> bool {
    c == '<' || c == '>' || c == '&' || c == '\'' || c == '"' || c == '\r'
}

/// The first replacement of an escaped text determines the first character
/// of the original: the replacements form a prefix code.  An unescaped
/// character stands for itself and is never `&`; the entities all start with
/// `&` and differ from one another within their first three characters.
proof fn lemma_escaped_char_prefix_code(a: char, b: char, x: Seq<char>, y: Seq<char>)
    requires
        escaped_char(a) + x == escaped_char(b) + y,
    ensures
        a == b,
        x == y,
{
    let ca = escaped_char(a);
    let cb = escaped_char(b);
    assert((ca + x)[0] == (cb + y)[0]);
    if !is_escaped_specially(a) && !is_escaped_specially(b) {
        assert(a == b);
    } else if is_escaped_specially(a) && !is_escaped_specially(b) {
        assert((ca + x)[0] == '&' && (cb + y)[0] == b && b != '&');
        assert(false);
    } else if !is_escaped_specially(a) && is_escaped_specially(b) {
        assert((ca + x)[0] == a && (cb + y)[0] == '&' && a != '&');
        assert(false);
    } else {
        assert((ca + x)[1] == (cb + y)[1]);
        assert((ca + x)[2] == (cb + y)[2]);
        assert((ca + x)[1] == ca[1] && (cb + y)[1] == cb[1]);
        assert((ca + x)[2] == ca[2] && (cb + y)[2] == cb[2]);
        assert(a == b);
    }
    assert((ca + x).len() == (cb + y).len());
    assert(x.len() == y.len());
    assert forall|i: int| 0 <= i < x.len() implies x[i] == y[i] by {
        assert(x[i] == (ca + x)[ca.len() + i]);
        assert(y[i] == (cb + y)[cb.len() + i]);
    }
    assert(x =~= y);
}

/// Escaping never shortens a text below its own length.
proof fn lemma_escaped_len(s: Seq<char>)
    ensures
        escaped(s).len() >= s.len(),
    decreases s.len(),
{
    if s.len() > 0 {
        lemma_escaped_len(s.drop_first());
    }
}

/// Escaping loses nothing: two different texts never escape to the same
/// result, so escaped content stands for exactly one original text and the
/// document determines the caller's input.
pub proof fn lemma_escaped_injective(s: Seq<char>, t: Seq<char>)
    requires
        escaped(s) == escaped(t),
    ensures
        s == t,
    decreases s.len(),
{
    if s.len() == 0 {
        lemma_escaped_len(t);
        assert(t.len() == 0);
        assert(s =~= t);
    } else {
        lemma_escaped_len(s);
        assert(escaped(t).len() > 0);
        assert(t.len() > 0);
        lemma_escaped_char_prefix_code(s[0], t[0], escaped(s.drop_first()), escaped(t.drop_first()));
        lemma_escaped_injective(s.drop_first(), t.drop_first());
        assert(s.drop_first().len() == t.drop_first().len());
        assert forall|i: int| 0 <= i < s.len() implies s[i] == t[i] by {
            if i > 0 {
                assert(s[i] == s.drop_first()[i - 1]);
                assert(t[i] == t.drop_first()[i - 1]);
            }
        }
        assert(s =~= t);
    }
}

} // verus!
