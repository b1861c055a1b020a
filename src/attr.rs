//! The grammar of one attribute, once its `@keyword` has been recognised.
use vstd::prelude::*;
use vstd::string::*;
use crate::grammar::{
    CharClass, find_keyword, has_at, is_ident_start, is_ident_start_char, keyword_at, keyword_end,
    lemma_skip_class, lemma_text_end_bounds, scan_text, skip, skip_class, span_eq, text_end, word_end,
};
use crate::model::{Attr, AttrView, Keyword, ParamDir, ParseError, opt_text_view};

verus! {

/// What parsing one attribute at a position comes to.
pub enum AttrStep {
    /// No attribute keyword stands there: the attribute list has ended.
    NoAttr,
    /// A keyword stands there but its arguments are malformed.
    Fatal(ParseError),
    /// The attribute, and the position after it.
    Parsed(AttrView, int),
}

/// The optional direction tag of a `@param`, and the position after it.
pub open spec fn dir_at(s: Seq<char>, q: int) -> (ParamDir, int) {
    if has_at(s, q, seq!['[', 'i', 'n', 'o', 'u', 't', ']']) {
        (ParamDir::InOut, q + 7)
    } else if has_at(s, q, seq!['[', 'i', 'n', ']']) {
        (ParamDir::In, q + 4)
    } else if has_at(s, q, seq!['[', 'o', 'u', 't', ']']) {
        (ParamDir::Out, q + 5)
    } else {
        (ParamDir::Unspecified, q)
    }
}

/// The end of the identifier at `p`; `p` itself where none starts there.
pub open spec fn ident_end(s: Seq<char>, p: int) -> int {
    if 0 <= p < s.len() && is_ident_start(s[p]) {
        skip_class(s, p + 1, CharClass::IdentRest)
    } else {
        p
    }
}

/// An optional trailing description: separating space, then free text up to
/// the next boundary. It is absent where either part is empty.
pub open spec fn opt_desc(s: Seq<char>, q: int) -> Result<(Option<Seq<char>>, int), ParseError> {
    let w = skip_class(s, q, CharClass::Gap);
    if w == q {
        Ok((None, q))
    } else {
        match text_end(s, w) {
            Err(e) => Err(e),
            Ok(e) => if e == w {
                Ok((None, w))
            } else {
                Ok((Some(s.subrange(w, e)), e))
            },
        }
    }
}

/// A mandatory description of keyword `k` that starts at `q`.
pub open spec fn req_desc(s: Seq<char>, q: int, k: Keyword) -> Result<(Seq<char>, int), ParseError> {
    match text_end(s, q) {
        Err(e) => Err(e),
        Ok(e) => if e == q {
            Err(ParseError::Malformed { keyword: k, offset: q as usize })
        } else {
            Ok((s.subrange(q, e), e))
        },
    }
}

/// `@see` may put a `#` anchor marker, with optional space after it, before
/// its description.
pub open spec fn after_anchor(s: Seq<char>, w: int) -> int {
    if 0 <= w < s.len() && s[w] == '#' {
        skip_class(s, w + 1, CharClass::Gap)
    } else {
        w
    }
}

pub open spec fn step_of_req(r: Result<(Seq<char>, int), ParseError>, k: Keyword) -> AttrStep {
    match r {
        Err(e) => AttrStep::Fatal(e),
        Ok((d, e)) => AttrStep::Parsed(
            match k {
                Keyword::See => AttrView::See { desc: d },
                Keyword::Brief => AttrView::Brief { desc: d },
                _ => AttrView::Note { desc: d },
            },
            e,
        ),
    }
}

/// The attribute whose `@` stands at `a`.
pub open spec fn parse_attr(s: Seq<char>, a: int) -> AttrStep {
    match keyword_at(s, a) {
        None => AttrStep::NoAttr,
        Some(k) => {
            let q = keyword_end(s, a);
            match k {
                Keyword::Param => {
                    let (dir, q1) = dir_at(s, q);
                    let q2 = skip_class(s, q1, CharClass::Gap);
                    let q3 = ident_end(s, q2);
                    if q2 == q1 {
                        AttrStep::Fatal(ParseError::Malformed { keyword: k, offset: q1 as usize })
                    } else if q3 == q2 {
                        AttrStep::Fatal(ParseError::Malformed { keyword: k, offset: q2 as usize })
                    } else {
                        match opt_desc(s, q3) {
                            Err(e) => AttrStep::Fatal(e),
                            Ok((desc, e)) => AttrStep::Parsed(
                                AttrView::Param { dir, name: s.subrange(q2, q3), desc },
                                e,
                            ),
                        }
                    }
                },
                Keyword::Return => match opt_desc(s, q) {
                    Err(e) => AttrStep::Fatal(e),
                    Ok((desc, e)) => AttrStep::Parsed(AttrView::Return { desc }, e),
                },
                Keyword::Deprecated => AttrStep::Parsed(AttrView::Deprecated, q),
                Keyword::NoDoc => AttrStep::Parsed(AttrView::NoDoc, q),
                _ => {
                    let w = skip_class(s, q, CharClass::Gap);
                    if w == q {
                        AttrStep::Fatal(ParseError::Malformed { keyword: k, offset: q as usize })
                    } else if k == Keyword::See {
                        step_of_req(req_desc(s, after_anchor(s, w), k), k)
                    } else {
                        step_of_req(req_desc(s, w, k), k)
                    }
                },
            }
        },
    }
}

/// A parsed attribute ends after its `@`.
pub proof fn lemma_parse_attr_advances(s: Seq<char>, a: int)
    requires
        0 <= a <= s.len(),
    ensures
        parse_attr(s, a) matches AttrStep::Parsed(_, e) ==> a < e <= s.len(),
{
    if keyword_at(s, a) is Some {
        let q = keyword_end(s, a);
        lemma_skip_class(s, a + 1, CharClass::Word);
        let (dir, q1) = dir_at(s, q);
        lemma_skip_class(s, q1, CharClass::Gap);
        let q2 = skip_class(s, q1, CharClass::Gap);
        if 0 <= q2 < s.len() && is_ident_start(s[q2]) {
            lemma_skip_class(s, q2 + 1, CharClass::IdentRest);
        }
        let q3 = ident_end(s, q2);
        lemma_skip_class(s, q3, CharClass::Gap);
        lemma_text_end_bounds(s, skip_class(s, q3, CharClass::Gap));
        lemma_skip_class(s, q, CharClass::Gap);
        let w = skip_class(s, q, CharClass::Gap);
        lemma_text_end_bounds(s, w);
        if 0 <= w < s.len() && s[w] == '#' {
            lemma_skip_class(s, w + 1, CharClass::Gap);
        }
        lemma_text_end_bounds(s, after_anchor(s, w));
    }
}

/// The text `text[from..to]`, as a slice of the input.
pub(crate) fn slice<'i>(text: &'i str, from: usize, to: usize) -> (r: &'i str)
    requires
        from <= to <= text@.len(),
    ensures
        r@ == text@.subrange(from as int, to as int),
{
    text.substring_char(from, to)
}

fn dir_tag(chars: &Vec<char>, q: usize) -> (r: (ParamDir, usize))
    requires
        q <= chars.len(),
    ensures
        (r.0, r.1 as int) == dir_at(chars@, q as int),
        q <= r.1 <= chars.len(),
{
    let n = chars.len();
    let inout = ['[', 'i', 'n', 'o', 'u', 't', ']'];
    let tag_in = ['[', 'i', 'n', ']'];
    let tag_out = ['[', 'o', 'u', 't', ']'];
    assert(inout@ == seq!['[', 'i', 'n', 'o', 'u', 't', ']']);
    assert(tag_in@ == seq!['[', 'i', 'n', ']']);
    assert(tag_out@ == seq!['[', 'o', 'u', 't', ']']);
    if n - q >= 7 && span_eq(chars, q, q + 7, &inout) {
        (ParamDir::InOut, q + 7)
    } else if n - q >= 4 && span_eq(chars, q, q + 4, &tag_in) {
        (ParamDir::In, q + 4)
    } else if n - q >= 5 && span_eq(chars, q, q + 5, &tag_out) {
        (ParamDir::Out, q + 5)
    } else {
        (ParamDir::Unspecified, q)
    }
}

fn ident(chars: &Vec<char>, p: usize) -> (r: usize)
    requires
        p <= chars.len(),
    ensures
        r as int == ident_end(chars@, p as int),
        p <= r <= chars.len(),
{
    if p < chars.len() && is_ident_start_char(chars[p]) {
        skip(chars, p + 1, CharClass::IdentRest)
    } else {
        p
    }
}

fn optional_desc<'i>(text: &'i str, chars: &Vec<char>, q: usize) -> (r: Result<
    (Option<&'i str>, usize),
    ParseError,
>)
    requires
        q <= chars.len(),
        chars@ == text@,
    ensures
        match r {
            Ok((d, e)) => opt_desc(chars@, q as int) == Ok::<_, ParseError>(
                (opt_text_view(d), e as int),
            ) && e <= chars.len(),
            Err(err) => opt_desc(chars@, q as int) == Err::<(Option<Seq<char>>, int), _>(err),
        },
{
    let w = skip(chars, q, CharClass::Gap);
    if w == q {
        return Ok((None, q));
    }
    let e = scan_text(chars, w)?;
    if e == w {
        Ok((None, w))
    } else {
        Ok((Some(slice(text, w, e)), e))
    }
}

fn required_desc<'i>(text: &'i str, chars: &Vec<char>, q: usize, k: Keyword) -> (r: Result<
    (&'i str, usize),
    ParseError,
>)
    requires
        q <= chars.len(),
        chars@ == text@,
    ensures
        match r {
            Ok((d, e)) => req_desc(chars@, q as int, k) == Ok::<_, ParseError>((d@, e as int))
                && e <= chars.len(),
            Err(err) => req_desc(chars@, q as int, k) == Err::<(Seq<char>, int), _>(err),
        },
{
    let e = scan_text(chars, q)?;
    if e == q {
        Err(ParseError::Malformed { keyword: k, offset: q })
    } else {
        Ok((slice(text, q, e), e))
    }
}

/// Parses the attribute whose `@` stands at `a`. `Ok(None)` where no
/// attribute keyword stands there.
pub fn attr_at<'i>(text: &'i str, chars: &Vec<char>, a: usize) -> (r: Result<
    Option<(Attr<'i>, usize)>,
    ParseError,
>)
    requires
        a <= chars.len(),
        chars@ == text@,
    ensures
        match r {
            Ok(None) => parse_attr(chars@, a as int) is NoAttr,
            Ok(Some((at, e))) => parse_attr(chars@, a as int) == AttrStep::Parsed(at@, e as int)
                && e <= chars.len(),
            Err(err) => parse_attr(chars@, a as int) == AttrStep::Fatal(err),
        },
{
    let k = match find_keyword(chars, a) {
        None => return Ok(None),
        Some(k) => k,
    };
    let q = word_end(chars, a);
    match k {
        Keyword::Param => {
            let (dir, q1) = dir_tag(chars, q);
            let q2 = skip(chars, q1, CharClass::Gap);
            if q2 == q1 {
                return Err(ParseError::Malformed { keyword: k, offset: q1 });
            }
            let q3 = ident(chars, q2);
            if q3 == q2 {
                return Err(ParseError::Malformed { keyword: k, offset: q2 });
            }
            let name = slice(text, q2, q3);
            let (desc, e) = optional_desc(text, chars, q3)?;
            Ok(Some((Attr::Param { dir, name, desc }, e)))
        },
        Keyword::Return => {
            let (desc, e) = optional_desc(text, chars, q)?;
            Ok(Some((Attr::Return { desc }, e)))
        },
        Keyword::Deprecated => Ok(Some((Attr::Deprecated, q))),
        Keyword::NoDoc => Ok(Some((Attr::NoDoc, q))),
        _ => {
            let w = skip(chars, q, CharClass::Gap);
            if w == q {
                return Err(ParseError::Malformed { keyword: k, offset: q });
            }
            let start = if let Keyword::See = k {
                if w < chars.len() && chars[w] == '#' {
                    skip(chars, w + 1, CharClass::Gap)
                } else {
                    w
                }
            } else {
                w
            };
            let (desc, e) = required_desc(text, chars, start, k)?;
            let at = match k {
                Keyword::See => Attr::See { desc },
                Keyword::Brief => Attr::Brief { desc },
                _ => Attr::Note { desc },
            };
            Ok(Some((at, e)))
        },
    }
}

} // verus!
