//! The events and attributes produced by the parser, and their views.
use vstd::prelude::*;

verus! {

/// Direction tag of a `@param` attribute.
#[derive(Debug, Clone, Copy, PartialEq, Eq, PartialOrd, Ord, Hash, Structural)]
pub enum ParamDir {
    Unspecified,
    In,
    Out,
    InOut,
}

/// The attribute keywords that the parser recognises after an `@`.
#[derive(Debug, Clone, Copy, PartialEq, Eq, Hash, Structural)]
pub enum Keyword {
    Param,
    /// Spelled `return` or `returns`.
    Return,
    Deprecated,
    See,
    Brief,
    Note,
    NoDoc,
}

/// A fatal error: the comment is malformed and parsing stops.
///
/// Offsets count characters from the start of the comment body.
#[derive(Debug, Clone, Copy, PartialEq, Eq, Hash, Structural)]
pub enum ParseError {
    /// A `\r` that is not followed by `\n`.
    BareCarriageReturn { offset: usize },
    /// An attribute keyword was recognised but its arguments do not follow
    /// its grammar.
    Malformed { keyword: Keyword, offset: usize },
}

/// One attribute of a comment. Text fields borrow from the input.
#[derive(Debug, Clone, Copy, PartialEq, Eq, PartialOrd, Ord)]
pub enum Attr<'i> {
    Param { dir: ParamDir, name: &'i str, desc: Option<&'i str> },
    Return { desc: Option<&'i str> },
    Deprecated,
    See { desc: &'i str },
    Brief { desc: &'i str },
    Note { desc: &'i str },
    NoDoc,
}

/// One event of the stream that the parser produces.
#[derive(Debug, Clone, Copy, PartialEq, Eq, PartialOrd, Ord)]
pub enum CDocEvent<'i> {
    Description(&'i str),
    Attr(Attr<'i>),
}

/// Mathematical model of an [`Attr`]: its text fields as character sequences.
pub enum AttrView {
    Param { dir: ParamDir, name: Seq<char>, desc: Option<Seq<char>> },
    Return { desc: Option<Seq<char>> },
    Deprecated,
    See { desc: Seq<char> },
    Brief { desc: Seq<char> },
    Note { desc: Seq<char> },
    NoDoc,
}

/// Mathematical model of a [`CDocEvent`].
pub enum EventView {
    Description(Seq<char>),
    Attr(AttrView),
}

pub open spec fn opt_text_view(t: Option<&str>) -> Option<Seq<char>> {
    match t {
        Some(s) => Some(s@),
        None => None,
    }
}

impl<'i> View for Attr<'i> {
    type V = AttrView;

    open spec fn view(&self) -> AttrView {
        match *self {
            Attr::Param { dir, name, desc } => AttrView::Param {
                dir,
                name: name@,
                desc: opt_text_view(desc),
            },
            Attr::Return { desc } => AttrView::Return { desc: opt_text_view(desc) },
            Attr::Deprecated => AttrView::Deprecated,
            Attr::See { desc } => AttrView::See { desc: desc@ },
            Attr::Brief { desc } => AttrView::Brief { desc: desc@ },
            Attr::Note { desc } => AttrView::Note { desc: desc@ },
            Attr::NoDoc => AttrView::NoDoc,
        }
    }
}

impl<'i> View for CDocEvent<'i> {
    type V = EventView;

    open spec fn view(&self) -> EventView {
        match *self {
            CDocEvent::Description(d) => EventView::Description(d@),
            CDocEvent::Attr(a) => EventView::Attr(a@),
        }
    }
}

} // verus!
