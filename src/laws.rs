//! Properties of the parser that hold of every input.
use vstd::prelude::*;
use crate::attr::{AttrStep, dir_at, ident_end, parse_attr};
use crate::grammar::{
    CharClass, is_boundary, keyword_at, keyword_end, line_rest, skip_class, text_end,
};
use crate::model::{EventView, Keyword, ParseError};
use crate::parser::{attrs_from, comment_events};
use crate::render::render_events;

verus! {

/// Whether `p` is the start of a line of `s`.
pub open spec fn is_line_start(s: Seq<char>, p: int) -> bool {
    p == 0 || (0 < p <= s.len() && s[p - 1] == '\n')
}

/// No line of `s` starts, after optional horizontal space, with an
/// attribute keyword.
pub open spec fn no_attribute_lines(s: Seq<char>) -> bool {
    forall|p: int| 0 <= p <= s.len() && is_line_start(s, p) ==> !#[trigger] is_boundary(s, p)
}

/// Every `\r` of `s` is followed by `\n`.
pub open spec fn no_bare_cr(s: Seq<char>) -> bool {
    forall|i: int| 0 <= i < s.len() && #[trigger] s[i] == '\r' ==> i + 1 < s.len() && s[i + 1] == '\n'
}

proof fn lemma_text_runs_to_end(s: Seq<char>, p: int)
    requires
        0 <= p <= s.len(),
        is_line_start(s, p),
        no_attribute_lines(s),
        no_bare_cr(s),
    ensures
        text_end(s, p) == Ok::<int, ParseError>(s.len() as int),
    decreases s.len() - p, 1int,
{
    if p < s.len() {
        lemma_line_runs_to_end(s, p);
    }
}

proof fn lemma_line_runs_to_end(s: Seq<char>, q: int)
    requires
        0 <= q <= s.len(),
        no_attribute_lines(s),
        no_bare_cr(s),
    ensures
        line_rest(s, q) == Ok::<int, ParseError>(s.len() as int),
    decreases s.len() - q, 0int,
{
    if q < s.len() {
        if s[q] == '\n' {
            lemma_text_runs_to_end(s, q + 1);
        } else if s[q] == '\r' {
            lemma_text_runs_to_end(s, q + 2);
        } else {
            lemma_line_runs_to_end(s, q + 1);
        }
    }
}

/// A comment body without attributes, whose line breaks are `\n` or
/// `\r\n`, is one description: the whole input, with nothing left over.
pub proof fn lemma_plain_text_is_one_description(s: Seq<char>)
    requires
        no_attribute_lines(s),
        no_bare_cr(s),
    ensures
        comment_events(s).0 == seq![EventView::Description(s)],
        comment_events(s).1 == Ok::<int, ParseError>(s.len() as int),
{
    lemma_text_runs_to_end(s, 0);
    assert(s.subrange(0, s.len() as int) =~= s);
    assert(skip_class(s, s.len() as int, CharClass::MultiSpace) == s.len());
    assert(parse_attr(s, s.len() as int) is NoAttr);
    assert(seq![EventView::Description(s)] + Seq::<EventView>::empty() =~= seq![
        EventView::Description(s),
    ]);
}

/// Free text, of the description or of an attribute, ends where it starts
/// (a boundary stands there), at the end of the input, or at the start of a
/// line that begins with an attribute keyword.
pub proof fn lemma_text_stops_at_line_start(s: Seq<char>, p: int)
    requires
        0 <= p <= s.len(),
    ensures
        text_end(s, p) matches Ok(e) ==> e == s.len() || (e == p && is_boundary(s, p)) || (
        is_line_start(s, e) && is_boundary(s, e)),
    decreases s.len() - p, 1int,
{
    if !(is_boundary(s, p) || p >= s.len()) {
        lemma_line_stops_at_line_start(s, p);
    }
}

proof fn lemma_line_stops_at_line_start(s: Seq<char>, q: int)
    requires
        0 <= q <= s.len(),
    ensures
        line_rest(s, q) matches Ok(e) ==> e == s.len() || (is_line_start(s, e) && is_boundary(
            s,
            e,
        )),
    decreases s.len() - q, 0int,
{
    if q < s.len() {
        if s[q] == '\n' {
            lemma_text_stops_at_line_start(s, q + 1);
        } else if s[q] == '\r' {
            if q + 1 < s.len() && s[q + 1] == '\n' {
                lemma_text_stops_at_line_start(s, q + 2);
            }
        } else {
            lemma_line_stops_at_line_start(s, q + 1);
        }
    }
}

/// The description of a comment ends at the end of the input or at the
/// start of a line that begins, after optional horizontal space, with an
/// attribute keyword. An `@` within a line never ends it.
pub proof fn lemma_description_ends_at_attribute_line(s: Seq<char>)
    ensures
        text_end(s, 0) matches Ok(e) ==> e == s.len() || (is_line_start(s, e) && is_boundary(
            s,
            e,
        )),
        text_end(s, 0) matches Ok(e) ==> comment_events(s).0[0] == EventView::Description(
            s.subrange(0, e),
        ),
{
    lemma_text_stops_at_line_start(s, 0);
}

/// Two passes over the same input produce the same events, the same end,
/// and the same rendered text.
pub proof fn lemma_passes_agree(s: Seq<char>, t: Seq<char>)
    requires
        s == t,
    ensures
        comment_events(s) == comment_events(t),
        render_events(comment_events(s).0, false) == render_events(comment_events(t).0, false),
{
}

/// A `@param` that no identifier follows, after its optional direction tag
/// and the separating space, is a fatal error; and the attribute list that
/// reaches it ends with that error.
pub proof fn lemma_param_without_name_is_fatal(s: Seq<char>, a: int, p: int)
    requires
        keyword_at(s, a) == Some(Keyword::Param),
        ident_end(
            s,
            skip_class(s, dir_at(s, keyword_end(s, a)).1, CharClass::Gap),
        ) == skip_class(s, dir_at(s, keyword_end(s, a)).1, CharClass::Gap),
        0 <= p <= s.len(),
        skip_class(s, p, CharClass::MultiSpace) == a,
    ensures
        parse_attr(s, a) is Fatal,
        attrs_from(s, p).0.len() == 0,
        attrs_from(s, p).1 is Err,
{
}

} // verus!
