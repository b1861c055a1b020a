//! The event stream: one description, then the attributes, produced one at
//! a time.
use vstd::prelude::*;
use vstd::string::*;
use crate::attr::{AttrStep, attr_at, lemma_parse_attr_advances, parse_attr, slice};
use crate::grammar::{CharClass, lemma_skip_class, scan_text, skip, skip_class, text_end};
use crate::model::{CDocEvent, EventView, ParseError};

verus! {

/// The attributes from `p` on, and how the list ends: `Ok` with the position
/// of the unconsumed tail, or the fatal error.
pub open spec fn attrs_from(s: Seq<char>, p: int) -> (Seq<EventView>, Result<int, ParseError>)
    decreases s.len() - p,
    via attrs_from_decreases
{
    if p < 0 || p > s.len() {
        (seq![], Ok(p))
    } else {
        let a = skip_class(s, p, CharClass::MultiSpace);
        match parse_attr(s, a) {
            AttrStep::NoAttr => (seq![], Ok(a)),
            AttrStep::Fatal(e) => (seq![], Err(e)),
            AttrStep::Parsed(at, e) => {
                let rest = attrs_from(s, e);
                (seq![EventView::Attr(at)] + rest.0, rest.1)
            },
        }
    }
}

#[via_fn]
proof fn attrs_from_decreases(s: Seq<char>, p: int) {
    if 0 <= p <= s.len() {
        lemma_skip_class(s, p, CharClass::MultiSpace);
        lemma_parse_attr_advances(s, skip_class(s, p, CharClass::MultiSpace));
    }
}

/// The events of a whole comment body, and how the stream ends.
pub open spec fn comment_events(s: Seq<char>) -> (Seq<EventView>, Result<int, ParseError>) {
    match text_end(s, 0) {
        Err(e) => (seq![], Err(e)),
        Ok(e) => {
            let rest = attrs_from(s, e);
            (seq![EventView::Description(s.subrange(0, e))] + rest.0, rest.1)
        },
    }
}

enum State {
    Init,
    Attr,
    Done,
    Fatal(ParseError),
}

/// A forward-only producer of the events of one comment body.
pub struct CDocIter<'i> {
    text: &'i str,
    chars: Vec<char>,
    pos: usize,
    state: State,
}

/// The characters of `text`, one by one.
pub(crate) fn chars_of(text: &str) -> (r: Vec<char>)
    ensures
        r@ == text@,
{
    let n = text.unicode_len();
    let mut r: Vec<char> = Vec::new();
    let mut i: usize = 0;
    while i < n
        invariant
            n == text@.len(),
            i <= n,
            r@ == text@.subrange(0, i as int),
        decreases n - i,
    {
        r.push(text.get_char(i));
        i += 1;
        assert(r@ =~= text@.subrange(0, i as int));
    }
    assert(r@ =~= text@);
    r
}

/// Starts the event stream of a comment body. The caller's slice is left
/// as it is.
pub fn cdoc_iterator<'a, 'i>(input: &'a mut &'i str) -> (r: CDocIter<'i>)
    ensures
        *final(input) == *old(input),
        r.wf(),
        r.input() == old(input)@,
        !r.ended(),
        r.cursor() == 0,
        r.remaining() == comment_events(old(input)@),
{
    let text: &'i str = *input;
    CDocIter { text, chars: chars_of(text), pos: 0, state: State::Init }
}

/// Parses the description at the start of `input`, returns it, and moves
/// `input` past it.
pub fn cdoc<'i>(input: &mut &'i str) -> (r: Result<String, ParseError>)
    ensures
        match text_end(old(input)@, 0) {
            Ok(e) => r is Ok && r->Ok_0@ == old(input)@.subrange(0, e) && final(input)@
                == old(input)@.subrange(e, old(input)@.len() as int),
            Err(err) => r == Err::<String, ParseError>(err) && *final(input) == *old(input),
        },
{
    let text: &'i str = *input;
    let chars = chars_of(text);
    let e = scan_text(&chars, 0)?;
    *input = slice(text, e, chars.len());
    Ok(String::from_str(slice(text, 0, e)))
}

/// The views of a sequence of events.
pub open spec fn event_views<'i>(v: Seq<CDocEvent<'i>>) -> Seq<EventView> {
    v.map_values(|e: CDocEvent<'i>| e@)
}

/// What the end of a stream, `Ok` with the tail position or the fatal error,
/// hands to the caller.
pub open spec fn end_matches(s: Seq<char>, end: Result<int, ParseError>, r: Result<&str, ParseError>) -> bool {
    match end {
        Ok(t) => r is Ok && r->Ok_0@ == s.subrange(t, s.len() as int),
        Err(e) => r == Err::<&str, ParseError>(e),
    }
}

/// Runs the stream of `input` to its end: all its events, then the
/// unconsumed tail or the fatal error.
pub fn parse_comment<'i>(input: &'i str) -> (r: (Vec<CDocEvent<'i>>, Result<&'i str, ParseError>))
    ensures
        event_views(r.0@) == comment_events(input@).0,
        end_matches(input@, comment_events(input@).1, r.1),
{
    let mut text: &'i str = input;
    let mut iter = cdoc_iterator(&mut text);
    let mut events: Vec<CDocEvent<'i>> = Vec::new();
    let ghost all = comment_events(input@);
    loop
        invariant
            iter.wf(),
            iter.input() == input@,
            all == comment_events(input@),
            event_views(events@) + iter.remaining().0 == all.0,
            iter.remaining().1 == all.1,
        decreases iter.remaining().0.len(),
    {
        let ghost before = iter.remaining().0;
        match iter.next() {
            Some(ev) => {
                let ghost prev = event_views(events@);
                events.push(ev);
                assert(event_views(events@) =~= prev.push(ev@));
                assert(prev.push(ev@) + before.drop_first() =~= prev + before);
            },
            None => {
                assert(event_views(events@) =~= all.0);
                return (events, iter.finish());
            },
        }
    }
}

impl<'i> CDocIter<'i> {
    /// The whole comment body.
    pub closed spec fn input(&self) -> Seq<char> {
        self.text@
    }

    /// Where the stream stands in the input.
    pub closed spec fn cursor(&self) -> int {
        self.pos as int
    }

    /// Whether the stream has ended, normally or on a fatal error.
    pub closed spec fn ended(&self) -> bool {
        self.state is Done || self.state is Fatal
    }

    /// The character copy matches the input and the cursor lies within it.
    pub closed spec fn wf(&self) -> bool {
        &&& self.chars@ == self.text@
        &&& self.pos <= self.chars.len()
        &&& self.state is Init ==> self.pos == 0
    }

    /// The events still to come, and how the stream ends.
    pub closed spec fn remaining(&self) -> (Seq<EventView>, Result<int, ParseError>) {
        match self.state {
            State::Init => comment_events(self.text@),
            State::Attr => attrs_from(self.text@, self.pos as int),
            State::Done => (seq![], Ok(self.pos as int)),
            State::Fatal(e) => (seq![], Err(e)),
        }
    }

    /// Produces the next event, or `None` once the stream has ended.
    pub fn next(&mut self) -> (r: Option<CDocEvent<'i>>)
        requires
            old(self).wf(),
        ensures
            final(self).wf(),
            final(self).input() == old(self).input(),
            old(self).remaining().0.len() > 0 ==> r is Some && r->Some_0@ == old(
                self,
            ).remaining().0[0] && final(self).remaining() == (
                old(self).remaining().0.drop_first(),
                old(self).remaining().1,
            ),
            old(self).remaining().0.len() == 0 ==> r is None && final(self).ended()
                && final(self).remaining() == old(self).remaining(),
            r matches Some(CDocEvent::Description(_)) ==> !final(self).ended() && text_end(
                old(self).input(),
                0,
            ) == Ok::<int, ParseError>(final(self).cursor()),
            r matches Some(CDocEvent::Attr(_)) ==> !final(self).ended() && (parse_attr(
                old(self).input(),
                skip_class(old(self).input(), old(self).cursor(), CharClass::MultiSpace),
            ) matches AttrStep::Parsed(_, e) && final(self).cursor() == e),
    {
        let ghost s = self.text@;
        match self.state {
            State::Init => {
                match scan_text(&self.chars, 0) {
                    Ok(e) => {
                        self.pos = e;
                        self.state = State::Attr;
                        let ghost rest = attrs_from(s, e as int);
                        assert((seq![EventView::Description(s.subrange(0, e as int))]
                            + rest.0).drop_first() =~= rest.0);
                        Some(CDocEvent::Description(slice(self.text, 0, e)))
                    },
                    Err(err) => {
                        self.state = State::Fatal(err);
                        None
                    },
                }
            },
            State::Attr => {
                let a = skip(&self.chars, self.pos, CharClass::MultiSpace);
                match attr_at(self.text, &self.chars, a) {
                    Ok(None) => {
                        self.pos = a;
                        self.state = State::Done;
                        None
                    },
                    Ok(Some((at, e))) => {
                        self.pos = e;
                        let ghost rest = attrs_from(s, e as int);
                        assert((seq![EventView::Attr(at@)] + rest.0).drop_first() =~= rest.0);
                        Some(CDocEvent::Attr(at))
                    },
                    Err(err) => {
                        self.state = State::Fatal(err);
                        None
                    },
                }
            },
            State::Done => None,
            State::Fatal(_) => None,
        }
    }

    /// Ends the stream: the fatal error if one occurred, else the input that
    /// no event has consumed.
    pub fn finish(self) -> (r: Result<&'i str, ParseError>)
        requires
            self.wf(),
        ensures
            self.ended() ==> match self.remaining().1 {
                Ok(t) => r is Ok && r->Ok_0@ == self.input().subrange(t, self.input().len() as int),
                Err(e) => r == Err::<&'i str, ParseError>(e),
            },
            !self.ended() ==> r is Ok && r->Ok_0@ == self.input().subrange(
                self.cursor(),
                self.input().len() as int,
            ),
    {
        match self.state {
            State::Fatal(e) => Err(e),
            _ => Ok(slice(self.text, self.pos, self.chars.len())),
        }
    }
}

} // verus!
