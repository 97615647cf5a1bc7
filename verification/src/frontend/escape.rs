//! HTML escaping of untrusted text.
//!
//! Text placed between tags has `&`, `<` and `>` replaced by entities;
//! text placed in a quoted attribute value also has `"` and `'` replaced.
use vstd::prelude::*;

use crate::text::{chars_of, push_char};

verus! {

/// The replacement of one character in text content.
pub open spec fn escape_text_char(c: char) -> Seq<char> {
    if c == '&' {
        seq!['&', 'a', 'm', 'p', ';']
    } else if c == '<' {
        seq!['&', 'l', 't', ';']
    } else if c == '>' {
        seq!['&', 'g', 't', ';']
    } else {
        seq![c]
    }
}

/// The replacement of one character in an attribute value.
pub open spec fn escape_attr_char(c: char) -> Seq<char> {
    if c == '"' {
        seq!['&', 'q', 'u', 'o', 't', ';']
    } else if c == '\'' {
        seq!['&', '#', '3', '9', ';']
    } else {
        escape_text_char(c)
    }
}

/// `s` escaped for text content, character by character.
pub open spec fn escaped_text(s: Seq<char>) -> Seq<char>
    decreases s.len(),
{
    if s.len() == 0 {
        Seq::empty()
    } else {
        escaped_text(s.drop_last()) + escape_text_char(s.last())
    }
}

/// `s` escaped for a quoted attribute value, character by character.
pub open spec fn escaped_attr(s: Seq<char>) -> Seq<char>
    decreases s.len(),
{
    if s.len() == 0 {
        Seq::empty()
    } else {
        escaped_attr(s.drop_last()) + escape_attr_char(s.last())
    }
}

fn push_all(out: &mut String, Ghost(cs): Ghost<Seq<char>>, a: char, b: char, c: char, d: char, e: char, f: char, n: usize)
    requires
        1 <= n <= 6,
        cs.len() == n,
        cs[0] == a,
        n > 1 ==> cs[1] == b,
        n > 2 ==> cs[2] == c,
        n > 3 ==> cs[3] == d,
        n > 4 ==> cs[4] == e,
        n > 5 ==> cs[5] == f,
    ensures
        final(out)@ == old(out)@ + cs,
{
    let ghost start = out@;
    push_char(out, a);
    if n > 1 {
        push_char(out, b);
    }
    if n > 2 {
        push_char(out, c);
    }
    if n > 3 {
        push_char(out, d);
    }
    if n > 4 {
        push_char(out, e);
    }
    if n > 5 {
        push_char(out, f);
    }
    assert(out@ =~= start + cs);
}

/// Escape `s` for use as HTML text content: `&`, `<` and `>` become
/// `&amp;`, `&lt;` and `&gt;`.
pub fn escape_html_text(s: &str) -> (out: String)
    ensures
        out@ == escaped_text(s@),
{
    let v = chars_of(s);
    let mut out = String::new();
    for i in 0..v.len()
        invariant
            v@ == s@,
            out@ == escaped_text(v@.take(i as int)),
    {
        let c = v[i];
        assert(v@.take(i + 1).drop_last() =~= v@.take(i as int));
        if c == '&' {
            push_all(&mut out, Ghost(escape_text_char(c)), '&', 'a', 'm', 'p', ';', ' ', 5);
        } else if c == '<' {
            push_all(&mut out, Ghost(escape_text_char(c)), '&', 'l', 't', ';', ' ', ' ', 4);
        } else if c == '>' {
            push_all(&mut out, Ghost(escape_text_char(c)), '&', 'g', 't', ';', ' ', ' ', 4);
        } else {
            push_char(&mut out, c);
        }
    }
    assert(v@.take(v.len() as int) =~= v@);
    out
}

/// Escape `s` for use inside a quoted HTML attribute value: as for text,
/// and `"` and `'` become `&quot;` and `&#39;`.
pub fn escape_html_attr(s: &str) -> (out: String)
    ensures
        out@ == escaped_attr(s@),
{
    let v = chars_of(s);
    let mut out = String::new();
    for i in 0..v.len()
        invariant
            v@ == s@,
            out@ == escaped_attr(v@.take(i as int)),
    {
        let c = v[i];
        assert(v@.take(i + 1).drop_last() =~= v@.take(i as int));
        if c == '"' {
            push_all(&mut out, Ghost(escape_attr_char(c)), '&', 'q', 'u', 'o', 't', ';', 6);
        } else if c == '\'' {
            push_all(&mut out, Ghost(escape_attr_char(c)), '&', '#', '3', '9', ';', ' ', 5);
        } else if c == '&' {
            push_all(&mut out, Ghost(escape_attr_char(c)), '&', 'a', 'm', 'p', ';', ' ', 5);
        } else if c == '<' {
            push_all(&mut out, Ghost(escape_attr_char(c)), '&', 'l', 't', ';', ' ', ' ', 4);
        } else if c == '>' {
            push_all(&mut out, Ghost(escape_attr_char(c)), '&', 'g', 't', ';', ' ', ' ', 4);
        } else {
            push_char(&mut out, c);
        }
    }
    assert(v@.take(v.len() as int) =~= v@);
    out
}

/// Escaped text never opens or closes a tag: it holds no `<` and no `>`.
pub proof fn law_escaped_text_has_no_angle_brackets(s: Seq<char>)
    ensures
        !escaped_text(s).contains('<'),
        !escaped_text(s).contains('>'),
    decreases s.len(),
{
    if s.len() > 0 {
        law_escaped_text_has_no_angle_brackets(s.drop_last());
        let a = escaped_text(s.drop_last());
        let b = escape_text_char(s.last());
        assert forall|i: int| 0 <= i < (a + b).len() implies (a + b)[i] != '<' && (a + b)[i]
            != '>' by {
            if i < a.len() {
                assert((a + b)[i] == a[i]);
            } else {
                assert((a + b)[i] == b[i - a.len()]);
            }
        }
    }
}

/// An escaped attribute value cannot end its quotes or open a tag: it
/// holds no `"`, no `'`, no `<` and no `>`.
pub proof fn law_escaped_attr_is_inert(s: Seq<char>)
    ensures
        !escaped_attr(s).contains('"'),
        !escaped_attr(s).contains('\''),
        !escaped_attr(s).contains('<'),
        !escaped_attr(s).contains('>'),
    decreases s.len(),
{
    if s.len() > 0 {
        law_escaped_attr_is_inert(s.drop_last());
        let a = escaped_attr(s.drop_last());
        let b = escape_attr_char(s.last());
        assert forall|i: int| 0 <= i < (a + b).len() implies (a + b)[i] != '"' && (a + b)[i]
            != '\'' && (a + b)[i] != '<' && (a + b)[i] != '>' by {
            if i < a.len() {
                assert((a + b)[i] == a[i]);
            } else {
                assert((a + b)[i] == b[i - a.len()]);
            }
        }
    }
}

/// Text without markup characters is left as it is.
pub proof fn law_plain_text_is_unchanged(s: Seq<char>)
    requires
        forall|i: int| 0 <= i < s.len() ==> s[i] != '&' && s[i] != '<' && s[i] != '>',
    ensures
        escaped_text(s) == s,
    decreases s.len(),
{
    if s.len() > 0 {
        law_plain_text_is_unchanged(s.drop_last());
        assert(s.drop_last().push(s.last()) =~= s);
    }
}

} // verus!
