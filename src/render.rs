//! Rendering of the event stream as documentation text.
use vstd::prelude::*;
use vstd::string::*;
use crate::model::{Attr, AttrView, CDocEvent, EventView, ParamDir};
use crate::parser::{cdoc_iterator, comment_events};

verus! {

pub open spec fn dir_text(dir: ParamDir) -> Seq<char> {
    match dir {
        ParamDir::Unspecified => ""@,
        ParamDir::In => "[in]"@,
        ParamDir::Out => "[out]"@,
        ParamDir::InOut => "[inout]"@,
    }
}

/// The text of one event, and whether the parameters header has been
/// written after it, given whether it had been before.
pub open spec fn render_event(ev: EventView, in_param: bool) -> (Seq<char>, bool) {
    match ev {
        EventView::Description(t) => (t, in_param),
        EventView::Attr(AttrView::Param { dir, name, desc }) => {
            let header = if in_param {
                Seq::empty()
            } else {
                "# Parameters\n"@
            };
            let tail = match desc {
                Some(d) => " "@ + d,
                None => "\n"@,
            };
            (header + "- `"@ + name + dir_text(dir) + "`"@ + tail, true)
        },
        EventView::Attr(AttrView::Return { desc: Some(d) }) => (
            "# Return value\n\n"@ + d + "\n"@,
            in_param,
        ),
        EventView::Attr(AttrView::See { desc }) => ("See: "@ + desc + "\n"@, in_param),
        EventView::Attr(AttrView::Brief { desc }) => ("Brief: "@ + desc + "\n"@, in_param),
        EventView::Attr(AttrView::Note { desc }) => ("Note: "@ + desc + "\n"@, in_param),
        _ => (Seq::empty(), in_param),
    }
}

/// The text of a sequence of events, rendered in order.
pub open spec fn render_events(evs: Seq<EventView>, in_param: bool) -> Seq<char>
    decreases evs.len(),
{
    if evs.len() == 0 {
        seq![]
    } else {
        let (t, ip) = render_event(evs[0], in_param);
        t + render_events(evs.drop_first(), ip)
    }
}

/// A comment body to be rendered as documentation text.
pub struct FormatComment<'a>(pub &'a str);

fn dir_str(dir: ParamDir) -> (r: &'static str)
    ensures
        r@ == dir_text(dir),
{
    match dir {
        ParamDir::Unspecified => "",
        ParamDir::In => "[in]",
        ParamDir::Out => "[out]",
        ParamDir::InOut => "[inout]",
    }
}

fn write_event(out: &mut String, ev: CDocEvent, in_param: bool) -> (r: bool)
    ensures
        final(out)@ == old(out)@ + render_event(ev@, in_param).0,
        r == render_event(ev@, in_param).1,
{
    let ghost o = out@;
    match ev {
        CDocEvent::Description(t) => {
            out.append(t);
            in_param
        },
        CDocEvent::Attr(Attr::Param { dir, name, desc }) => {
            if !in_param {
                out.append("# Parameters\n");
            }
            out.append("- `");
            out.append(name);
            out.append(dir_str(dir));
            out.append("`");
            match desc {
                Some(d) => {
                    out.append(" ");
                    out.append(d);
                },
                None => out.append("\n"),
            }
            assert(out@ =~= o + render_event(ev@, in_param).0);
            true
        },
        CDocEvent::Attr(Attr::Return { desc: Some(d) }) => {
            out.append("# Return value\n\n");
            out.append(d);
            out.append("\n");
            assert(out@ =~= o + render_event(ev@, in_param).0);
            in_param
        },
        CDocEvent::Attr(Attr::See { desc }) => {
            out.append("See: ");
            out.append(desc);
            out.append("\n");
            assert(out@ =~= o + render_event(ev@, in_param).0);
            in_param
        },
        CDocEvent::Attr(Attr::Brief { desc }) => {
            out.append("Brief: ");
            out.append(desc);
            out.append("\n");
            assert(out@ =~= o + render_event(ev@, in_param).0);
            in_param
        },
        CDocEvent::Attr(Attr::Note { desc }) => {
            out.append("Note: ");
            out.append(desc);
            out.append("\n");
            assert(out@ =~= o + render_event(ev@, in_param).0);
            in_param
        },
        _ => {
            assert(out@ =~= o + render_event(ev@, in_param).0);
            in_param
        },
    }
}

impl<'a> FormatComment<'a> {
    /// The documentation text of the comment: its events rendered in order.
    /// A fatal error ends the text after the events before it.
    pub fn to_string(&self) -> (r: String)
        ensures
            r@ == render_events(comment_events(self.0@).0, false),
    {
        let mut input: &'a str = self.0;
        let mut iter = cdoc_iterator(&mut input);
        let mut out = String::new();
        let mut in_param = false;
        let ghost all = render_events(comment_events(self.0@).0, false);
        loop
            invariant
                iter.wf(),
                all == render_events(comment_events(self.0@).0, false),
                out@ + render_events(iter.remaining().0, in_param) == all,
            decreases iter.remaining().0.len(),
        {
            let ghost evs = iter.remaining().0;
            match iter.next() {
                Some(ev) => {
                    let ghost before = out@;
                    let ghost ip0 = in_param;
                    in_param = write_event(&mut out, ev, in_param);
                    assert(before + render_events(evs, ip0) == all);
                    assert(out@ + render_events(iter.remaining().0, in_param) =~= before
                        + render_events(evs, ip0));
                },
                None => {
                    assert(out@ =~= all);
                    return out;
                },
            }
        }
    }
}

} // verus!
