//! The comment grammar: character classes, keyword lookahead and the
//! boundary scanner, each as a spec function over `Seq<char>` with an
//! executable counterpart over a vector of characters.
use vstd::prelude::*;
use crate::model::{Keyword, ParseError};

verus! {

/// Classes of characters that the grammar skips over.
#[derive(Clone, Copy)]
pub enum CharClass {
    /// Horizontal space: `' '` and `'\t'`.
    HSpace,
    /// Space that separates an attribute from its arguments: `' '`, `'\t'`, `'\n'`.
    Gap,
    /// Space between attributes: `' '`, `'\t'`, `'\n'`, `'\r'`.
    MultiSpace,
    /// Characters of a word after `@`: anything but whitespace.
    Word,
    /// Characters after the first one of an identifier.
    IdentRest,
}

/// Unicode `White_Space`, as `char::is_whitespace` decides it.
pub open spec fn is_whitespace(c: char) -> bool {
    let u = c as u32;
    (0x09 <= u && u <= 0x0D) || u == 0x20 || u == 0x85 || u == 0xA0 || u == 0x1680
        || (0x2000 <= u && u <= 0x200A) || u == 0x2028 || u == 0x2029 || u == 0x202F
        || u == 0x205F || u == 0x3000
}

pub open spec fn is_ident_start(c: char) -> bool {
    ('a' as u32 <= c as u32 && c as u32 <= 'z' as u32)
        || ('A' as u32 <= c as u32 && c as u32 <= 'Z' as u32) || c == '_' || c == '$'
}

pub open spec fn is_ident_rest(c: char) -> bool {
    is_ident_start(c) || ('0' as u32 <= c as u32 && c as u32 <= '9' as u32)
}

pub open spec fn in_class(cls: CharClass, c: char) -> bool {
    match cls {
        CharClass::HSpace => c == ' ' || c == '\t',
        CharClass::Gap => c == ' ' || c == '\t' || c == '\n',
        CharClass::MultiSpace => c == ' ' || c == '\t' || c == '\n' || c == '\r',
        CharClass::Word => !is_whitespace(c),
        CharClass::IdentRest => is_ident_rest(c),
    }
}

/// The first position at or after `p` whose character is not in `cls`.
pub open spec fn skip_class(s: Seq<char>, p: int, cls: CharClass) -> int
    decreases s.len() - p,
{
    if 0 <= p < s.len() && in_class(cls, s[p]) {
        skip_class(s, p + 1, cls)
    } else {
        p
    }
}

/// The keyword that a word after `@` names, if any.
pub open spec fn keyword_of(w: Seq<char>) -> Option<Keyword> {
    if w == seq!['p', 'a', 'r', 'a', 'm'] {
        Some(Keyword::Param)
    } else if w == seq!['r', 'e', 't', 'u', 'r', 'n'] || w == seq![
        'r',
        'e',
        't',
        'u',
        'r',
        'n',
        's',
    ] {
        Some(Keyword::Return)
    } else if w == seq!['d', 'e', 'p', 'r', 'e', 'c', 'a', 't', 'e', 'd'] {
        Some(Keyword::Deprecated)
    } else if w == seq!['s', 'e', 'e'] {
        Some(Keyword::See)
    } else if w == seq!['b', 'r', 'i', 'e', 'f'] {
        Some(Keyword::Brief)
    } else if w == seq!['n', 'o', 't', 'e'] {
        Some(Keyword::Note)
    } else if w == seq!['n', 'o', 'd', 'o', 'c'] {
        Some(Keyword::NoDoc)
    } else {
        None
    }
}

/// Whether `lit` occurs in `s` at `q`.
pub open spec fn has_at(s: Seq<char>, q: int, lit: Seq<char>) -> bool {
    0 <= q && q + lit.len() <= s.len() && s.subrange(q, q + lit.len()) == lit
}

/// Where the word after the `@` at `a` ends: at whitespace or the end of
/// the input, except that `param` directly followed by a `[` direction tag
/// ends before the `[`.
pub open spec fn keyword_end(s: Seq<char>, a: int) -> int {
    if has_at(s, a + 1, seq!['p', 'a', 'r', 'a', 'm', '[']) {
        a + 6
    } else {
        skip_class(s, a + 1, CharClass::Word)
    }
}

/// The keyword of an attribute that starts exactly at `a`: an `@`
/// immediately followed by a keyword word.
pub open spec fn keyword_at(s: Seq<char>, a: int) -> Option<Keyword> {
    if 0 <= a < s.len() && s[a] == '@' {
        keyword_of(s.subrange(a + 1, keyword_end(s, a)))
    } else {
        None
    }
}

/// The stop predicate of the scanner: optional horizontal space, then an
/// attribute keyword.
pub open spec fn is_boundary(s: Seq<char>, p: int) -> bool {
    keyword_at(s, skip_class(s, p, CharClass::HSpace)) is Some
}

/// Where free text that starts at `p` (a line start, or the point after an
/// attribute's separating space) ends: at the first line start that is a
/// boundary, or at the end of the input. A `\r` that is not part of `\r\n`
/// is fatal.
pub open spec fn text_end(s: Seq<char>, p: int) -> Result<int, ParseError>
    decreases s.len() - p, 1int,
{
    if p < 0 || is_boundary(s, p) || p >= s.len() {
        Ok(p)
    } else {
        line_rest(s, p)
    }
}

/// The scan inside a line, from `q` on.
pub open spec fn line_rest(s: Seq<char>, q: int) -> Result<int, ParseError>
    decreases s.len() - q, 0int,
{
    if q < 0 || q >= s.len() {
        Ok(s.len() as int)
    } else if s[q] == '\n' {
        text_end(s, q + 1)
    } else if s[q] == '\r' {
        if q + 1 < s.len() && s[q + 1] == '\n' {
            text_end(s, q + 2)
        } else {
            Err(ParseError::BareCarriageReturn { offset: q as usize })
        }
    } else {
        line_rest(s, q + 1)
    }
}

pub proof fn lemma_skip_class(s: Seq<char>, p: int, cls: CharClass)
    requires
        0 <= p <= s.len(),
    ensures
        p <= skip_class(s, p, cls) <= s.len(),
        forall|i: int| p <= i < skip_class(s, p, cls) ==> in_class(cls, #[trigger] s[i]),
        skip_class(s, p, cls) < s.len() ==> !in_class(cls, s[skip_class(s, p, cls)]),
    decreases s.len() - p,
{
    if p < s.len() && in_class(cls, s[p]) {
        lemma_skip_class(s, p + 1, cls);
    }
}

pub proof fn lemma_text_end_bounds(s: Seq<char>, p: int)
    requires
        0 <= p <= s.len(),
    ensures
        text_end(s, p) is Ok ==> p <= text_end(s, p)->Ok_0 <= s.len(),
    decreases s.len() - p, 1int,
{
    if !(is_boundary(s, p) || p >= s.len()) {
        lemma_line_rest_bounds(s, p, p);
    }
}

pub proof fn lemma_line_rest_bounds(s: Seq<char>, p: int, q: int)
    requires
        0 <= p <= q <= s.len(),
    ensures
        line_rest(s, q) is Ok ==> p <= line_rest(s, q)->Ok_0 <= s.len(),
    decreases s.len() - q, 0int,
{
    if q < s.len() {
        if s[q] == '\n' {
            lemma_text_end_bounds(s, q + 1);
        } else if s[q] == '\r' {
            if q + 1 < s.len() && s[q + 1] == '\n' {
                lemma_text_end_bounds(s, q + 2);
            }
        } else {
            lemma_line_rest_bounds(s, p, q + 1);
        }
    }
}

fn is_whitespace_char(c: char) -> (r: bool)
    ensures
        r == is_whitespace(c),
{
    let u = c as u32;
    (0x09 <= u && u <= 0x0D) || u == 0x20 || u == 0x85 || u == 0xA0 || u == 0x1680 || (0x2000
        <= u && u <= 0x200A) || u == 0x2028 || u == 0x2029 || u == 0x202F || u == 0x205F || u
        == 0x3000
}

pub fn is_ident_start_char(c: char) -> (r: bool)
    ensures
        r == is_ident_start(c),
{
    let u = c as u32;
    ('a' as u32 <= u && u <= 'z' as u32) || ('A' as u32 <= u && u <= 'Z' as u32) || c == '_'
        || c == '$'
}

fn class_has(cls: CharClass, c: char) -> (r: bool)
    ensures
        r == in_class(cls, c),
{
    match cls {
        CharClass::HSpace => c == ' ' || c == '\t',
        CharClass::Gap => c == ' ' || c == '\t' || c == '\n',
        CharClass::MultiSpace => c == ' ' || c == '\t' || c == '\n' || c == '\r',
        CharClass::Word => !is_whitespace_char(c),
        CharClass::IdentRest => is_ident_start_char(c) || ('0' as u32 <= c as u32 && c as u32
            <= '9' as u32),
    }
}

/// Skips the characters of `cls` from `p` on.
pub fn skip(chars: &Vec<char>, p: usize, cls: CharClass) -> (r: usize)
    requires
        p <= chars.len(),
    ensures
        r as int == skip_class(chars@, p as int, cls),
        p <= r <= chars.len(),
{
    let mut i = p;
    while i < chars.len() && class_has(cls, chars[i])
        invariant
            p <= i <= chars.len(),
            skip_class(chars@, i as int, cls) == skip_class(chars@, p as int, cls),
        decreases chars.len() - i,
    {
        i += 1;
    }
    i
}

/// Whether `chars[from..to]` equals `lit`.
pub fn span_eq(chars: &Vec<char>, from: usize, to: usize, lit: &[char]) -> (r: bool)
    requires
        from <= to <= chars.len(),
    ensures
        r == (chars@.subrange(from as int, to as int) == lit@),
{
    if to - from != lit.len() {
        return false;
    }
    let mut k: usize = 0;
    while k < lit.len()
        invariant
            to - from == lit.len(),
            from <= to <= chars.len(),
            0 <= k <= lit.len(),
            forall|j: int| 0 <= j < k ==> chars@[from + j] == lit@[j],
        decreases lit.len() - k,
    {
        if chars[from + k] != lit[k] {
            assert(chars@.subrange(from as int, to as int)[k as int] != lit@[k as int]);
            return false;
        }
        k += 1;
    }
    assert(chars@.subrange(from as int, to as int) =~= lit@);
    true
}

/// The keyword that `chars[from..to]` spells, if any.
fn keyword_in(chars: &Vec<char>, from: usize, to: usize) -> (r: Option<Keyword>)
    requires
        from <= to <= chars.len(),
    ensures
        r == keyword_of(chars@.subrange(from as int, to as int)),
{
    let ghost w = chars@.subrange(from as int, to as int);
    let param = ['p', 'a', 'r', 'a', 'm'];
    let ret = ['r', 'e', 't', 'u', 'r', 'n'];
    let rets = ['r', 'e', 't', 'u', 'r', 'n', 's'];
    let depr = ['d', 'e', 'p', 'r', 'e', 'c', 'a', 't', 'e', 'd'];
    let see = ['s', 'e', 'e'];
    let brief = ['b', 'r', 'i', 'e', 'f'];
    let note = ['n', 'o', 't', 'e'];
    let nodoc = ['n', 'o', 'd', 'o', 'c'];
    assert(param@ == seq!['p', 'a', 'r', 'a', 'm']);
    assert(ret@ == seq!['r', 'e', 't', 'u', 'r', 'n']);
    assert(rets@ == seq!['r', 'e', 't', 'u', 'r', 'n', 's']);
    assert(depr@ == seq!['d', 'e', 'p', 'r', 'e', 'c', 'a', 't', 'e', 'd']);
    assert(see@ == seq!['s', 'e', 'e']);
    assert(brief@ == seq!['b', 'r', 'i', 'e', 'f']);
    assert(note@ == seq!['n', 'o', 't', 'e']);
    assert(nodoc@ == seq!['n', 'o', 'd', 'o', 'c']);
    if span_eq(chars, from, to, &param) {
        Some(Keyword::Param)
    } else if span_eq(chars, from, to, &ret) || span_eq(chars, from, to, &rets) {
        Some(Keyword::Return)
    } else if span_eq(chars, from, to, &depr) {
        Some(Keyword::Deprecated)
    } else if span_eq(chars, from, to, &see) {
        Some(Keyword::See)
    } else if span_eq(chars, from, to, &brief) {
        Some(Keyword::Brief)
    } else if span_eq(chars, from, to, &note) {
        Some(Keyword::Note)
    } else if span_eq(chars, from, to, &nodoc) {
        Some(Keyword::NoDoc)
    } else {
        None
    }
}

/// Where the word after the `@` at `a` ends.
pub fn word_end(chars: &Vec<char>, a: usize) -> (r: usize)
    requires
        a < chars.len(),
    ensures
        r as int == keyword_end(chars@, a as int),
        a + 1 <= r <= chars.len(),
{
    let param_tag = ['p', 'a', 'r', 'a', 'm', '['];
    assert(param_tag@ == seq!['p', 'a', 'r', 'a', 'm', '[']);
    if chars.len() - (a + 1) >= 6 && span_eq(chars, a + 1, a + 7, &param_tag) {
        a + 6
    } else {
        skip(chars, a + 1, CharClass::Word)
    }
}

/// The keyword of an attribute that starts exactly at `a`, if any.
pub fn find_keyword(chars: &Vec<char>, a: usize) -> (r: Option<Keyword>)
    requires
        a <= chars.len(),
    ensures
        r == keyword_at(chars@, a as int),
        r is Some ==> a < chars.len() && keyword_end(chars@, a as int) <= chars.len(),
{
    if a < chars.len() && chars[a] == '@' {
        let b = word_end(chars, a);
        keyword_in(chars, a + 1, b)
    } else {
        None
    }
}

/// Whether a boundary stands at `p`.
pub fn at_boundary(chars: &Vec<char>, p: usize) -> (r: bool)
    requires
        p <= chars.len(),
    ensures
        r == is_boundary(chars@, p as int),
{
    let a = skip(chars, p, CharClass::HSpace);
    find_keyword(chars, a).is_some()
}

/// Scans free text from `p` to the next boundary or the end of the input.
pub fn scan_text(chars: &Vec<char>, p: usize) -> (r: Result<usize, ParseError>)
    requires
        p <= chars.len(),
    ensures
        match r {
            Ok(e) => text_end(chars@, p as int) == Ok::<int, ParseError>(e as int) && p <= e
                <= chars.len(),
            Err(err) => text_end(chars@, p as int) == Err::<int, ParseError>(err),
        },
{
    let ghost s = chars@;
    let n = chars.len();
    let mut i = p;
    let mut at_start = true;
    loop
        invariant
            n == chars.len(),
            s == chars@,
            p <= i <= n,
            at_start ==> text_end(s, i as int) == text_end(s, p as int),
            !at_start ==> line_rest(s, i as int) == text_end(s, p as int),
            !at_start ==> i < n,
        decreases 2 * (n - i) + (if at_start { 1int } else { 0int }),
    {
        if at_start {
            if at_boundary(chars, i) || i >= n {
                return Ok(i);
            }
            at_start = false;
        } else {
            let c = chars[i];
            if c == '\n' {
                i += 1;
                at_start = true;
            } else if c == '\r' {
                if i + 1 < n && chars[i + 1] == '\n' {
                    i += 2;
                    at_start = true;
                } else {
                    return Err(ParseError::BareCarriageReturn { offset: i });
                }
            } else {
                i += 1;
                if i == n {
                    return Ok(n);
                }
            }
        }
    }
}

} // verus!
