use lua_edition::edition::{Edition, Luau};

fn is_opener(line: &str) -> bool {
    line == "while true do" || line == "do" || line.starts_with("if ")
}

fn is_closer(line: &str) -> bool {
    line == "end"
}

#[test]
fn luau_runtime_name() {
    assert_eq!(Luau.runtime(), "luau");
}

#[test]
fn luau_constructs_open_wrappers() {
    let mut block = String::new();
    Luau.start_block(&mut block);
    assert_eq!(block, "while true do\n");

    let mut lp = String::new();
    Luau.start_loop(9, &mut lp);
    assert_eq!(lp, "while true do\n");

    let mut cond = String::new();
    Luau.start_if("x", &mut cond);
    assert_eq!(cond, "while true do\nif x ~= 0 then\n");
}

#[test]
fn luau_ends_stop_iterating() {
    let mut block = String::new();
    Luau.end_block(4, &mut block);
    assert_eq!(block, "break\nend\n");

    let mut lp = String::new();
    Luau.end_loop(&mut lp);
    assert_eq!(lp, "break\nend\n");

    let mut cond = String::new();
    Luau.end_if(4, &mut cond);
    assert_eq!(cond, "end\nbreak\nend\n");
}

#[test]
fn luau_same_level_loop_branch_is_pure_continue() {
    let mut out = String::new();
    Luau.br_to_level(4, 0, true, &mut out);
    assert_eq!(out, "do\ncontinue\nend\n");
    assert_eq!(out.matches("desired").count(), 0);
}

#[test]
fn luau_same_level_block_branch_is_pure_break() {
    let mut out = String::new();
    Luau.br_to_level(4, 0, false, &mut out);
    assert_eq!(out, "do\nbreak\nend\n");
    assert_eq!(out.matches("desired").count(), 0);
}

#[test]
fn luau_multi_level_branch_sets_sentinel_once() {
    let mut out = String::new();
    Luau.br_to_level(4, 3, false, &mut out);
    assert_eq!(out, "do\ndesired = 1\nbreak\nend\n");
    assert_eq!(out.matches("desired = ").count(), 1);
    let lines: Vec<&str> = out.lines().collect();
    assert_eq!(lines[1], "desired = 1");
    assert_eq!(lines[2], "break");
}

#[test]
fn luau_target_check_in_loop_clears_and_continues() {
    let mut out = String::new();
    Luau.br_target(2, true, &mut out);
    assert_eq!(
        out,
        "if desired then\nif desired == 2 then\ndesired = nil\ncontinue\nend\nbreak\nend\n"
    );
    assert_eq!(out.matches("desired = nil").count(), 1);
    assert_eq!(out.matches("continue\n").count(), 1);
}

#[test]
fn luau_target_check_outside_loop_clears_and_falls_through() {
    let mut out = String::new();
    Luau.br_target(2, false, &mut out);
    assert_eq!(
        out,
        "if desired then\nif desired == 2 then\ndesired = nil\nend\nbreak\nend\n"
    );
    assert_eq!(out.matches("desired = nil").count(), 1);
    assert_eq!(out.matches("continue").count(), 0);
}

#[test]
fn luau_balanced_walk_balances_keywords() {
    // loop { if { br(up=1) } } — a balanced enter/leave walk.
    let mut out = String::new();
    Luau.start_loop(0, &mut out);
    Luau.br_target(0, true, &mut out);
    Luau.start_if("c", &mut out);
    Luau.br_target(1, false, &mut out);
    Luau.br_to_level(1, 1, true, &mut out);
    Luau.end_if(1, &mut out);
    Luau.end_loop(&mut out);
    let opens = out.lines().filter(|l| is_opener(l)).count();
    let closes = out.lines().filter(|l| is_closer(l)).count();
    assert_eq!(opens, closes);
}

#[test]
fn sentinel_loop_restart_round_trip() {
    // A loop at level 0 holding an if at level 1; inside the if, a branch
    // crossing one boundary back to the loop. The branch sets the sentinel
    // to 0 and breaks out of the if's wrapper; the if's own check (level 1)
    // does not match and only stops its own iteration; the loop's check
    // (level 0) matches, clears the sentinel and continues.
    let mut out = String::new();
    Luau.start_loop(0, &mut out);
    Luau.br_target(0, true, &mut out);
    Luau.start_if("c", &mut out);
    Luau.br_target(1, false, &mut out);
    Luau.br_to_level(1, 1, true, &mut out);
    Luau.end_if(1, &mut out);
    Luau.end_loop(&mut out);
    let expected = "while true do\n\
        if desired then\nif desired == 0 then\ndesired = nil\ncontinue\nend\nbreak\nend\n\
        while true do\nif c ~= 0 then\n\
        if desired then\nif desired == 1 then\ndesired = nil\nend\nbreak\nend\n\
        do\ndesired = 0\nbreak\nend\n\
        end\nbreak\nend\n\
        break\nend\n";
    assert_eq!(out, expected);
    assert_eq!(out.matches("desired = 0").count(), 1);
}
