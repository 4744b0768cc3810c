use lua_edition::edition::{Edition, LuaJIT};

fn is_opener(line: &str) -> bool {
    line == "do" || line.starts_with("if ")
}

fn is_closer(line: &str) -> bool {
    line == "end"
}

#[test]
fn luajit_runtime_name() {
    assert_eq!(LuaJIT.runtime(), "luajit");
}

#[test]
fn luajit_start_block_opens_group() {
    let mut out = String::new();
    LuaJIT.start_block(&mut out);
    assert_eq!(out, "do\n");
}

#[test]
fn luajit_start_loop_places_label_inside() {
    let mut out = String::new();
    LuaJIT.start_loop(3, &mut out);
    assert_eq!(out, "do\n::continue_at_3::\n");
    assert_eq!(out.matches("continue_at_3").count(), 1);
}

#[test]
fn luajit_end_block_places_exit_label() {
    let mut out = String::new();
    LuaJIT.end_block(3, &mut out);
    assert_eq!(out, "::continue_at_3::\nend\n");
    assert_eq!(out.matches("continue_at_3").count(), 1);
}

#[test]
fn luajit_end_if_places_exit_label() {
    let mut out = String::new();
    LuaJIT.end_if(7, &mut out);
    assert_eq!(out, "::continue_at_7::\nend\n");
    assert_eq!(out.matches("continue_at_7").count(), 1);
}

#[test]
fn luajit_end_loop_places_no_label() {
    // Boundary condition: a bare loop has no exit label of its own, so it
    // cannot itself be the target of a same-level non-restart branch; a
    // caller that needs one must wrap the loop in an enclosing block.
    let mut out = String::new();
    LuaJIT.end_loop(&mut out);
    assert_eq!(out, "end\n");
}

#[test]
fn luajit_start_if_tests_truthiness() {
    let mut out = String::new();
    LuaJIT.start_if("reg_3", &mut out);
    assert_eq!(out, "if reg_3 ~= 0 then\n");
}

#[test]
fn luajit_br_target_is_noop() {
    let mut out = String::new();
    LuaJIT.br_target(4, true, &mut out);
    LuaJIT.br_target(4, false, &mut out);
    assert_eq!(out, "");
}

#[test]
fn luajit_branch_jumps_to_level_minus_up() {
    let mut out = String::new();
    LuaJIT.br_to_level(5, 2, false, &mut out);
    assert_eq!(out, "goto continue_at_3\n");

    let mut same = String::new();
    LuaJIT.br_to_level(5, 0, true, &mut same);
    assert_eq!(same, "goto continue_at_5\n");
}

#[test]
fn luajit_label_for_large_level() {
    let mut out = String::new();
    LuaJIT.start_loop(usize::MAX, &mut out);
    assert_eq!(out, format!("do\n::continue_at_{}::\n", usize::MAX));
}

#[test]
fn luajit_balanced_walk_balances_keywords() {
    // block { loop { if { br(up=2) } } } — a balanced enter/leave walk.
    let mut out = String::new();
    LuaJIT.start_block(&mut out);
    LuaJIT.br_target(0, false, &mut out);
    LuaJIT.start_loop(1, &mut out);
    LuaJIT.br_target(1, true, &mut out);
    LuaJIT.start_if("cond", &mut out);
    LuaJIT.br_target(2, false, &mut out);
    LuaJIT.br_to_level(2, 2, false, &mut out);
    LuaJIT.end_if(2, &mut out);
    LuaJIT.end_loop(&mut out);
    LuaJIT.end_block(0, &mut out);
    let opens = out.lines().filter(|l| is_opener(l)).count();
    let closes = out.lines().filter(|l| is_closer(l)).count();
    assert_eq!(opens, 3);
    assert_eq!(closes, 3);
}

#[test]
fn goto_flat_block_round_trip() {
    // A single flat block holding one same-level branch at level 0: the
    // branch jumps forward to the block's exit label.
    let mut out = String::new();
    LuaJIT.start_block(&mut out);
    LuaJIT.br_target(0, false, &mut out);
    LuaJIT.br_to_level(0, 0, false, &mut out);
    LuaJIT.end_block(0, &mut out);
    assert_eq!(out, "do\ngoto continue_at_0\n::continue_at_0::\nend\n");
}
