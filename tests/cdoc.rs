use codegen::model::{Attr, CDocEvent, Keyword, ParamDir, ParseError};
use codegen::parser::{cdoc, cdoc_iterator, parse_comment};
use codegen::render::FormatComment;

fn events(input: &str) -> (Vec<CDocEvent<'_>>, Result<&str, ParseError>) {
    parse_comment(input)
}

const TEST_DESC: &str = " Get all autocommands that match the corresponding {opts}.\n\n These examples will get autocommands matching ALL the given criteria:\n\n ```lua\n -- Matches all criteria\n autocommands = vim.api.nvim_get_autocmds({\n   group = 'MyGroup',\n   event = {'BufEnter', 'BufWinEnter'},\n   pattern = {'*.c', '*.h'}\n })\n\n -- All commands from one group\n autocommands = vim.api.nvim_get_autocmds({\n   group = 'MyGroup',\n })\n ```\n\n NOTE: When multiple patterns or events are provided, it will find all the autocommands that\n match any combination of them.\n\n";
const TEST_PARAM: &str = "Dict with at least one of the following:\n             - buffer: (integer) Buffer number or list of buffer numbers for buffer local autocommands\n             |autocmd-buflocal|. Cannot be used with {pattern}\n             - event: (vim.api.keyset.events|vim.api.keyset.events[])\n               event or events to match against |autocmd-events|.\n             - id: (integer) Autocommand ID to match.\n             - group: (string|table) the autocommand group name or id to match against.\n             - pattern: (string|table) pattern or patterns to match against |autocmd-pattern|.\n             Cannot be used with {buffer}\n";
const TEST_RETURN: &str = "Array of autocommands matching the criteria, with each item\n             containing the following fields:\n             - buffer: (integer) the buffer number.\n             - buflocal: (boolean) true if the autocommand is buffer local.\n             - command: (string) the autocommand command. Note: this will be empty if a callback is set.\n             - callback: (function|string|nil): Lua function or name of a Vim script function\n               which is executed when this autocommand is triggered.\n             - desc: (string) the autocommand description.\n             - event: (vim.api.keyset.events) the autocommand event.\n             - id: (integer) the autocommand id (only when defined with the API).\n             - group: (integer) the autocommand group id.\n             - group_name: (string) the autocommand group name.\n             - once: (boolean) whether the autocommand is only run once.\n             - pattern: (string) the autocommand pattern.\n               If the autocommand is buffer local |autocmd-buffer-local|:\n";

#[test]
fn test_parse_comment() {
    let text = format!("{TEST_DESC} @param opts {TEST_PARAM} @return {TEST_RETURN}");
    let mut input = text.as_str();
    let mut iter = cdoc_iterator(&mut input);
    assert_eq!(Some(CDocEvent::Description(TEST_DESC)), iter.next());
    assert_eq!(
        Some(CDocEvent::Attr(Attr::Param {
            dir: ParamDir::Unspecified,
            name: "opts",
            desc: Some(TEST_PARAM)
        })),
        iter.next()
    );
    assert_eq!(
        Some(CDocEvent::Attr(Attr::Return {
            desc: Some(TEST_RETURN)
        })),
        iter.next()
    );
    assert_eq!(None, iter.next());
    assert_eq!(Ok(""), iter.finish());
}

#[test]
fn plain_text_is_one_description() {
    let input = "just some text\n  with two lines\n";
    let (evs, end) = events(input);
    assert_eq!(evs, vec![CDocEvent::Description(input)]);
    assert_eq!(end, Ok(""));
}

#[test]
fn plain_text_crlf_and_unterminated_last_line() {
    let input = "first\r\nsecond";
    let (evs, end) = events(input);
    assert_eq!(evs, vec![CDocEvent::Description(input)]);
    assert_eq!(end, Ok(""));
}

#[test]
fn empty_input_is_an_empty_description() {
    let (evs, end) = events("");
    assert_eq!(evs, vec![CDocEvent::Description("")]);
    assert_eq!(end, Ok(""));
}

#[test]
fn description_then_brief() {
    let mut input = "desc\n@brief hi\n";
    let mut iter = cdoc_iterator(&mut input);
    assert_eq!(iter.next(), Some(CDocEvent::Description("desc\n")));
    assert_eq!(iter.next(), Some(CDocEvent::Attr(Attr::Brief { desc: "hi\n" })));
    assert_eq!(iter.next(), None);
    assert_eq!(iter.next(), None);
    assert_eq!(iter.finish(), Ok(""));
    assert_eq!(input, "desc\n@brief hi\n");
}

#[test]
fn param_with_empty_description_before_it() {
    let (evs, end) = events("@param name this is a description\n");
    assert_eq!(
        evs,
        vec![
            CDocEvent::Description(""),
            CDocEvent::Attr(Attr::Param {
                dir: ParamDir::Unspecified,
                name: "name",
                desc: Some("this is a description\n"),
            }),
        ]
    );
    assert_eq!(end, Ok(""));
}

#[test]
fn param_direction_and_bare_return() {
    let input = "@param[in] x\n@return\n";
    let (evs, end) = events(input);
    assert_eq!(
        evs,
        vec![
            CDocEvent::Description(""),
            CDocEvent::Attr(Attr::Param { dir: ParamDir::In, name: "x", desc: None }),
            CDocEvent::Attr(Attr::Return { desc: None }),
        ]
    );
    assert_eq!(end, Ok(""));
    let text = FormatComment(input).to_string();
    assert_eq!(text, "# Parameters\n- `x[in]`\n");
}

#[test]
fn other_directions() {
    let (evs, _) = events("@param[out] a\n@param[inout] b d\n");
    assert_eq!(
        evs[1],
        CDocEvent::Attr(Attr::Param { dir: ParamDir::Out, name: "a", desc: None })
    );
    assert_eq!(
        evs[2],
        CDocEvent::Attr(Attr::Param { dir: ParamDir::InOut, name: "b", desc: Some("d\n") })
    );
}

#[test]
fn at_sign_mid_line_is_text() {
    let input = "see a@b for details\n";
    let (evs, end) = events(input);
    assert_eq!(evs, vec![CDocEvent::Description(input)]);
    assert_eq!(end, Ok(""));
    let input = "look: @brief is not here\n";
    assert_eq!(events(input).0, vec![CDocEvent::Description(input)]);
}

#[test]
fn unknown_keyword_is_text() {
    let input = "intro\n@briefly said\n@todo later\n";
    assert_eq!(events(input).0, vec![CDocEvent::Description(input)]);
}

#[test]
fn indented_attribute_ends_description() {
    let (evs, end) = events("text\n   @note careful\n");
    assert_eq!(
        evs,
        vec![
            CDocEvent::Description("text\n"),
            CDocEvent::Attr(Attr::Note { desc: "careful\n" }),
        ]
    );
    assert_eq!(end, Ok(""));
}

#[test]
fn see_anchor_marker_is_dropped() {
    let (evs, _) = events("@see # anchor text here\n");
    assert_eq!(evs[1], CDocEvent::Attr(Attr::See { desc: "anchor text here\n" }));
    let (evs, _) = events("@see plain\n");
    assert_eq!(evs[1], CDocEvent::Attr(Attr::See { desc: "plain\n" }));
}

#[test]
fn two_passes_agree() {
    let input = "d\n@param[in] a x\n@returns y\n@deprecated\n@nodoc\n";
    let first = events(input);
    let second = events(input);
    assert_eq!(first, second);
    assert_eq!(first.0.len(), 5);
    assert_eq!(first.0[2], CDocEvent::Attr(Attr::Return { desc: Some("y\n") }));
    assert_eq!(first.0[3], CDocEvent::Attr(Attr::Deprecated));
    assert_eq!(first.0[4], CDocEvent::Attr(Attr::NoDoc));
    assert_eq!(first.1, Ok(""));
    assert_eq!(FormatComment(input).to_string(), FormatComment(input).to_string());
}

#[test]
fn param_without_name_is_fatal() {
    let mut input = "@param\n";
    let mut iter = cdoc_iterator(&mut input);
    assert_eq!(iter.next(), Some(CDocEvent::Description("")));
    assert_eq!(iter.next(), None);
    assert_eq!(iter.next(), None);
    assert_eq!(
        iter.finish(),
        Err(ParseError::Malformed { keyword: Keyword::Param, offset: 7 })
    );
}

#[test]
fn param_with_bad_name_or_tag_is_fatal() {
    assert_eq!(
        events("@param 1x\n").1,
        Err(ParseError::Malformed { keyword: Keyword::Param, offset: 7 })
    );
    assert_eq!(
        events("@param[bad] p\n").1,
        Err(ParseError::Malformed { keyword: Keyword::Param, offset: 6 })
    );
}

#[test]
fn mandatory_descriptions() {
    assert_eq!(
        events("@brief\n").1,
        Err(ParseError::Malformed { keyword: Keyword::Brief, offset: 7 })
    );
    assert_eq!(
        events("@note\n").1,
        Err(ParseError::Malformed { keyword: Keyword::Note, offset: 6 })
    );
    assert_eq!(
        events("@see #\n").1,
        Err(ParseError::Malformed { keyword: Keyword::See, offset: 7 })
    );
}

#[test]
fn bare_carriage_return_is_fatal() {
    let (evs, end) = events("a\rb\n");
    assert!(evs.is_empty());
    assert_eq!(end, Err(ParseError::BareCarriageReturn { offset: 1 }));
    let (evs, end) = events("x\n@brief a\rb\n");
    assert_eq!(evs, vec![CDocEvent::Description("x\n")]);
    assert_eq!(end, Err(ParseError::BareCarriageReturn { offset: 10 }));
}

#[test]
fn unconsumed_tail_is_returned() {
    let (evs, end) = events("@deprecated trailing words\n");
    assert_eq!(evs.len(), 2);
    assert_eq!(end, Ok("trailing words\n"));
}

#[test]
fn text_is_borrowed_from_input() {
    let text = String::from("héllo\n@param[in] x ünï y\n@brief ü\n");
    let (evs, _) = parse_comment(&text);
    assert_eq!(evs[0], CDocEvent::Description("héllo\n"));
    assert_eq!(evs[2], CDocEvent::Attr(Attr::Brief { desc: "ü\n" }));
    let range = text.as_bytes().as_ptr_range();
    if let CDocEvent::Attr(Attr::Brief { desc }) = evs[2] {
        assert!(range.contains(&desc.as_ptr()));
    }
}

#[test]
fn cdoc_returns_description_and_advances() {
    let mut input = "desc\n@brief hi\n";
    assert_eq!(cdoc(&mut input), Ok(String::from("desc\n")));
    assert_eq!(input, "@brief hi\n");
    let mut bad = "a\rb";
    assert_eq!(cdoc(&mut bad), Err(ParseError::BareCarriageReturn { offset: 1 }));
    assert_eq!(bad, "a\rb");
}

#[test]
fn render_all_kinds() {
    let input = "Intro\n@param a first\n@param[out] b\n@return the value\n@see #other\n@brief short\n@note careful\n@deprecated\n@nodoc\n";
    assert_eq!(
        FormatComment(input).to_string(),
        "Intro\n# Parameters\n- `a` first\n- `b[out]`\n# Return value\n\nthe value\n\nSee: other\n\nBrief: short\n\nNote: careful\n\n"
    );
}

#[test]
fn render_stops_at_fatal_error() {
    assert_eq!(FormatComment("text\n@brief ok\n@param\n").to_string(), "text\nBrief: ok\n\n");
}

#[test]
fn bracket_after_other_keywords_is_text() {
    for input in ["@note[x]\n", "@see[x] y\n", "@return[in] v\n", "@params[in] x\n"] {
        let (evs, end) = events(input);
        assert_eq!(evs, vec![CDocEvent::Description(input)]);
        assert_eq!(end, Ok(""));
    }
}

#[test]
fn finish_on_fresh_stream_returns_whole_input() {
    let mut input = "desc\n@brief hi\n";
    let iter = cdoc_iterator(&mut input);
    assert_eq!(iter.finish(), Ok("desc\n@brief hi\n"));
}

#[test]
fn finish_after_stopping_early_returns_unconsumed_text() {
    let mut input = "desc\n@brief hi\n@note n\n";
    let mut iter = cdoc_iterator(&mut input);
    assert_eq!(iter.next(), Some(CDocEvent::Description("desc\n")));
    assert_eq!(iter.finish(), Ok("@brief hi\n@note n\n"));
    let mut iter = cdoc_iterator(&mut input);
    iter.next();
    assert_eq!(iter.next(), Some(CDocEvent::Attr(Attr::Brief { desc: "hi\n" })));
    assert_eq!(iter.finish(), Ok("@note n\n"));
}
