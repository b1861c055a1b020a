//! The per-comment and per-declaration decisions that a binding generator
//! asks of this library.
use vstd::prelude::*;
use crate::grammar::span_eq;
use crate::parser::{chars_of, comment_events};
use crate::render::{FormatComment, render_events};

verus! {

/// A top-level declaration that a binding generator offers.
#[derive(Debug, Clone, Copy, PartialEq, Eq)]
pub enum RootItem<'a> {
    Function(&'a str),
    Var(&'a str),
    Other,
}

pub open spec fn has_prefix(s: Seq<char>, p: Seq<char>) -> bool {
    p.len() <= s.len() && s.subrange(0, p.len() as int) == p
}

/// Functions of the editor's API, its arena allocator and the Lua runtime,
/// but not the API's internal `nvim__` functions.
pub open spec fn includes_function(name: Seq<char>) -> bool {
    (has_prefix(name, seq!['n', 'v', 'i', 'm', '_']) && !has_prefix(
        name,
        seq!['n', 'v', 'i', 'm', '_', '_'],
    )) || has_prefix(name, seq!['a', 'r', 'e', 'n', 'a', '_']) || name == seq![
        'f',
        'r',
        'e',
        'e',
        '_',
        'b',
        'l',
        'o',
        'c',
        'k',
    ] || has_prefix(name, seq!['l', 'u', 'a', '_']) || has_prefix(
        name,
        seq!['l', 'u', 'a', 'J', 'I', 'T', '_'],
    )
}

/// The Lua runtime's constants.
pub open spec fn includes_var(name: Seq<char>) -> bool {
    has_prefix(name, seq!['L', 'U', 'A', '_']) || has_prefix(
        name,
        seq!['L', 'U', 'A', 'J', 'I', 'T', '_'],
    )
}

pub open spec fn includes_item(item: RootItem) -> bool {
    match item {
        RootItem::Function(name) => includes_function(name@),
        RootItem::Var(name) => includes_var(name@),
        RootItem::Other => false,
    }
}

fn starts_with(chars: &Vec<char>, lit: &[char]) -> (r: bool)
    ensures
        r == has_prefix(chars@, lit@),
{
    lit.len() <= chars.len() && span_eq(chars, 0, lit.len(), lit)
}

fn function_included(name: &str) -> (r: bool)
    ensures
        r == includes_function(name@),
{
    let chars = chars_of(name);
    let nvim = ['n', 'v', 'i', 'm', '_'];
    let nvim_internal = ['n', 'v', 'i', 'm', '_', '_'];
    let arena = ['a', 'r', 'e', 'n', 'a', '_'];
    let free_block = ['f', 'r', 'e', 'e', '_', 'b', 'l', 'o', 'c', 'k'];
    let lua = ['l', 'u', 'a', '_'];
    let luajit = ['l', 'u', 'a', 'J', 'I', 'T', '_'];
    assert(nvim@ == seq!['n', 'v', 'i', 'm', '_']);
    assert(nvim_internal@ == seq!['n', 'v', 'i', 'm', '_', '_']);
    assert(arena@ == seq!['a', 'r', 'e', 'n', 'a', '_']);
    assert(free_block@ == seq!['f', 'r', 'e', 'e', '_', 'b', 'l', 'o', 'c', 'k']);
    assert(lua@ == seq!['l', 'u', 'a', '_']);
    assert(luajit@ == seq!['l', 'u', 'a', 'J', 'I', 'T', '_']);
    assert(chars@.subrange(0, chars@.len() as int) =~= chars@);
    (starts_with(&chars, &nvim) && !starts_with(&chars, &nvim_internal)) || starts_with(
        &chars,
        &arena,
    ) || span_eq(&chars, 0, chars.len(), &free_block) || starts_with(&chars, &lua)
        || starts_with(&chars, &luajit)
}

fn var_included(name: &str) -> (r: bool)
    ensures
        r == includes_var(name@),
{
    let chars = chars_of(name);
    let lua = ['L', 'U', 'A', '_'];
    let luajit = ['L', 'U', 'A', 'J', 'I', 'T', '_'];
    assert(lua@ == seq!['L', 'U', 'A', '_']);
    assert(luajit@ == seq!['L', 'U', 'A', 'J', 'I', 'T', '_']);
    starts_with(&chars, &lua) || starts_with(&chars, &luajit)
}

/// The callbacks that a binding generator calls, with the writer that the
/// generated text may go to.
#[derive(Debug)]
pub struct Callback<W> {
    writer: W,
}

impl<W> Callback<W> {
    pub closed spec fn writer(&self) -> W {
        self.writer
    }

    pub fn new(writer: W) -> (r: Self)
        ensures
            r.writer() == writer,
    {
        Self { writer }
    }

    /// The documentation text of one comment.
    pub fn process_comment(&self, comment: &str) -> (r: Option<String>)
        ensures
            r is Some,
            r->Some_0@ == render_events(comment_events(comment@).0, false),
    {
        Some(FormatComment(comment).to_string())
    }

    /// Whether bindings are generated for a top-level declaration.
    pub fn do_include_root_item(&self, item: RootItem) -> (r: bool)
        ensures
            r == includes_item(item),
    {
        match item {
            RootItem::Function(name) => function_included(name),
            RootItem::Var(name) => var_included(name),
            RootItem::Other => false,
        }
    }
}

} // verus!
