use codegen::callback::{Callback, RootItem};
use codegen::write::{write_all_step, WriteOutcome, WriteStep};

#[test]
fn process_comment_renders() {
    let cb = Callback::new(Vec::<u8>::new());
    assert_eq!(
        cb.process_comment("Does a thing.\n@param[in] n count\n"),
        Some(String::from("Does a thing.\n# Parameters\n- `n[in]` count\n"))
    );
}

#[test]
fn includes_api_and_lua_functions() {
    let cb = Callback::new(());
    assert!(cb.do_include_root_item(RootItem::Function("nvim_buf_get_lines")));
    assert!(!cb.do_include_root_item(RootItem::Function("nvim__id")));
    assert!(cb.do_include_root_item(RootItem::Function("arena_alloc")));
    assert!(cb.do_include_root_item(RootItem::Function("free_block")));
    assert!(!cb.do_include_root_item(RootItem::Function("free_blocks")));
    assert!(cb.do_include_root_item(RootItem::Function("lua_pushnumber")));
    assert!(cb.do_include_root_item(RootItem::Function("luaJIT_setmode")));
    assert!(!cb.do_include_root_item(RootItem::Function("nvim")));
    assert!(!cb.do_include_root_item(RootItem::Function("LUA_OK")));
}

#[test]
fn includes_lua_constants() {
    let cb = Callback::new(());
    assert!(cb.do_include_root_item(RootItem::Var("LUA_OK")));
    assert!(cb.do_include_root_item(RootItem::Var("LUAJIT_MODE_ENGINE")));
    assert!(!cb.do_include_root_item(RootItem::Var("lua_x")));
    assert!(!cb.do_include_root_item(RootItem::Other));
}

#[test]
fn write_steps() {
    assert_eq!(write_all_step(10, WriteOutcome::Wrote(4)), WriteStep::Advance(6));
    assert_eq!(write_all_step(4, WriteOutcome::Wrote(4)), WriteStep::Advance(0));
    assert_eq!(write_all_step(4, WriteOutcome::Wrote(0)), WriteStep::WriteZero);
    assert_eq!(write_all_step(4, WriteOutcome::Interrupted), WriteStep::Retry);
    assert_eq!(write_all_step(4, WriteOutcome::Failed), WriteStep::Fail);
}
