//! Laws of the two editions, stated over the spec-level line sequences that
//! the `Edition` contracts pin down, and proved once for all inputs.

use crate::edition::{Edition, LuaJIT, Luau};
use crate::lines::Line;
use vstd::prelude::*;

verus! {

/// True of the lines that open a construct in the emitted language.
pub open spec fn opens_construct(l: Line) -> bool {
    match l {
        Line::Do => true,
        Line::WhileTrueDo => true,
        Line::IfNonZero { .. } => true,
        Line::IfSentinelSet => true,
        Line::IfSentinelAt { .. } => true,
        _ => false,
    }
}

/// True of the lines that close a construct in the emitted language.
pub open spec fn closes_construct(l: Line) -> bool {
    l is End
}

pub open spec fn open_pred() -> spec_fn(Line) -> bool {
    |l: Line| opens_construct(l)
}

pub open spec fn close_pred() -> spec_fn(Line) -> bool {
    |l: Line| closes_construct(l)
}

pub open spec fn label_pred(level: nat) -> spec_fn(Line) -> bool {
    |l: Line| l == (Line::Label { level })
}

pub open spec fn set_sentinel_pred() -> spec_fn(Line) -> bool {
    |l: Line| l is SetSentinel
}

pub open spec fn clear_sentinel_pred() -> spec_fn(Line) -> bool {
    |l: Line| l is ClearSentinel
}

pub open spec fn continue_pred() -> spec_fn(Line) -> bool {
    |l: Line| l is Continue
}

/// How many lines of `lines` open a construct.
pub open spec fn open_count(lines: Seq<Line>) -> nat {
    lines.filter(open_pred()).len()
}

/// How many lines of `lines` close a construct.
pub open spec fn close_count(lines: Seq<Line>) -> nat {
    lines.filter(close_pred()).len()
}

/// How many lines of `lines` are the label of `level`.
pub open spec fn label_count(lines: Seq<Line>, level: nat) -> nat {
    lines.filter(label_pred(level)).len()
}

/// How many lines of `lines` assign the sentinel a level.
pub open spec fn set_sentinel_count(lines: Seq<Line>) -> nat {
    lines.filter(set_sentinel_pred()).len()
}

/// How many lines of `lines` clear the sentinel.
pub open spec fn clear_sentinel_count(lines: Seq<Line>) -> nat {
    lines.filter(clear_sentinel_pred()).len()
}

/// How many lines of `lines` are a `continue`.
pub open spec fn continue_count(lines: Seq<Line>) -> nat {
    lines.filter(continue_pred()).len()
}

/// Law: in the labeled-jump dialect, each of `start_loop`, `end_block` and
/// `end_if` at level `level` emits exactly one label line for `level`, and a
/// branch from `level` crossing `up` boundaries is one direct jump to the
/// label of `level - up`.
pub proof fn lemma_goto_labels(ed: LuaJIT, level: nat, up: nat, is_loop: bool)
    requires
        up <= level,
    ensures
        label_count(ed.start_loop_lines(level), level) == 1,
        label_count(ed.end_block_lines(level), level) == 1,
        label_count(ed.end_if_lines(level), level) == 1,
        ed.br_to_level_lines(level, up, is_loop) == seq![
            (Line::Goto { level: (level - up) as nat }),
        ],
{
    reveal_with_fuel(Seq::<_>::filter, 4);
    assert(ed.start_loop_lines(level).filter(label_pred(level)) =~= seq![
        (Line::Label { level }),
    ]);
    assert(ed.end_block_lines(level).filter(label_pred(level)) =~= seq![(Line::Label { level })]);
    assert(ed.end_if_lines(level).filter(label_pred(level)) =~= seq![(Line::Label { level })]);
}

/// One call the code generator makes on an edition while it walks the
/// nested control structure.
pub enum Call {
    /// `start_block`.
    StartBlock,
    /// `start_loop` at a nesting level.
    StartLoop { level: nat },
    /// `start_if` on a condition.
    StartIf { cond: Seq<char> },
    /// `end_block` at a nesting level.
    EndBlock { level: nat },
    /// `end_loop`.
    EndLoop,
    /// `end_if` at a nesting level.
    EndIf { level: nat },
    /// `br_target` at a nesting level.
    BrTarget { level: nat, in_loop: bool },
    /// `br_to_level` from a nesting level.
    BrToLevel { level: nat, up: nat, is_loop: bool },
}

/// The lines an edition emits for one call.
pub open spec fn lines_of<E: Edition>(ed: E, c: Call) -> Seq<Line> {
    match c {
        Call::StartBlock => ed.start_block_lines(),
        Call::StartLoop { level } => ed.start_loop_lines(level),
        Call::StartIf { cond } => ed.start_if_lines(cond),
        Call::EndBlock { level } => ed.end_block_lines(level),
        Call::EndLoop => ed.end_loop_lines(),
        Call::EndIf { level } => ed.end_if_lines(level),
        Call::BrTarget { level, in_loop } => ed.br_target_lines(level, in_loop),
        Call::BrToLevel { level, up, is_loop } => ed.br_to_level_lines(level, up, is_loop),
    }
}

/// The lines an edition emits for a whole call sequence, in order.
pub open spec fn emit<E: Edition>(ed: E, calls: Seq<Call>) -> Seq<Line>
    decreases calls.len(),
{
    if calls.len() == 0 {
        Seq::empty()
    } else {
        lines_of(ed, calls[0]) + emit(ed, calls.skip(1))
    }
}

/// +1 for a call that enters a construct, -1 for one that leaves it, 0 for
/// a branch or a branch-target check.
pub open spec fn enter_leave_delta(c: Call) -> int {
    match c {
        Call::StartBlock => 1,
        Call::StartLoop { .. } => 1,
        Call::StartIf { .. } => 1,
        Call::EndBlock { .. } => -1,
        Call::EndLoop => -1,
        Call::EndIf { .. } => -1,
        Call::BrTarget { .. } => 0,
        Call::BrToLevel { .. } => 0,
    }
}

/// The sum of the enter/leave deltas of a call sequence.
pub open spec fn delta_sum(calls: Seq<Call>) -> int
    decreases calls.len(),
{
    if calls.len() == 0 {
        0
    } else {
        enter_leave_delta(calls[0]) + delta_sum(calls.skip(1))
    }
}

/// A call sequence in which every construct entered is also left.
pub open spec fn balanced(calls: Seq<Call>) -> bool {
    delta_sum(calls) == 0
}

proof fn lemma_counts_concat(a: Seq<Line>, b: Seq<Line>)
    ensures
        open_count(a + b) == open_count(a) + open_count(b),
        close_count(a + b) == close_count(a) + close_count(b),
{
    Seq::<Line>::filter_distributes_over_add(a, b, open_pred());
    Seq::<Line>::filter_distributes_over_add(a, b, close_pred());
}

proof fn lemma_goto_call_counts(ed: LuaJIT, c: Call)
    ensures
        open_count(lines_of(ed, c)) as int - close_count(lines_of(ed, c)) as int
            == enter_leave_delta(c),
{
    reveal_with_fuel(Seq::<_>::filter, 4);
    match c {
        Call::StartBlock => {
            assert(lines_of(ed, c).filter(open_pred()) =~= seq![Line::Do]);
            assert(lines_of(ed, c).filter(close_pred()) =~= Seq::<Line>::empty());
        },
        Call::StartLoop { level } => {
            assert(lines_of(ed, c).filter(open_pred()) =~= seq![Line::Do]);
            assert(lines_of(ed, c).filter(close_pred()) =~= Seq::<Line>::empty());
        },
        Call::StartIf { cond } => {
            assert(lines_of(ed, c).filter(open_pred()) =~= seq![(Line::IfNonZero { cond })]);
            assert(lines_of(ed, c).filter(close_pred()) =~= Seq::<Line>::empty());
        },
        Call::EndBlock { level } => {
            assert(lines_of(ed, c).filter(open_pred()) =~= Seq::<Line>::empty());
            assert(lines_of(ed, c).filter(close_pred()) =~= seq![Line::End]);
        },
        Call::EndLoop => {
            assert(lines_of(ed, c).filter(open_pred()) =~= Seq::<Line>::empty());
            assert(lines_of(ed, c).filter(close_pred()) =~= seq![Line::End]);
        },
        Call::EndIf { level } => {
            assert(lines_of(ed, c).filter(open_pred()) =~= Seq::<Line>::empty());
            assert(lines_of(ed, c).filter(close_pred()) =~= seq![Line::End]);
        },
        Call::BrTarget { level, in_loop } => {
            assert(lines_of(ed, c).filter(open_pred()) =~= Seq::<Line>::empty());
            assert(lines_of(ed, c).filter(close_pred()) =~= Seq::<Line>::empty());
        },
        Call::BrToLevel { level, up, is_loop } => {
            assert(lines_of(ed, c).filter(open_pred()) =~= Seq::<Line>::empty());
            assert(lines_of(ed, c).filter(close_pred()) =~= Seq::<Line>::empty());
        },
    }
}

proof fn lemma_goto_emit_counts(ed: LuaJIT, calls: Seq<Call>)
    ensures
        open_count(emit(ed, calls)) as int - close_count(emit(ed, calls)) as int == delta_sum(
            calls,
        ),
    decreases calls.len(),
{
    reveal_with_fuel(Seq::<_>::filter, 2);
    if calls.len() == 0 {
        assert(emit(ed, calls).filter(open_pred()) =~= Seq::<Line>::empty());
        assert(emit(ed, calls).filter(close_pred()) =~= Seq::<Line>::empty());
    } else {
        lemma_goto_call_counts(ed, calls[0]);
        lemma_goto_emit_counts(ed, calls.skip(1));
        lemma_counts_concat(lines_of(ed, calls[0]), emit(ed, calls.skip(1)));
    }
}

/// Law: over any call sequence in which every construct entered is also
/// left, the labeled-jump dialect emits exactly as many construct-opening
/// lines as construct-closing lines.
pub proof fn lemma_goto_balanced(ed: LuaJIT, calls: Seq<Call>)
    requires
        balanced(calls),
    ensures
        open_count(emit(ed, calls)) == close_count(emit(ed, calls)),
{
    lemma_goto_emit_counts(ed, calls);
}

/// Law: in the sentinel dialect, a branch with `up == 0` is pure lexical
/// control — one `continue` when the target construct is a loop, one `break`
/// otherwise — and writes no sentinel; a branch with `up > 0` assigns the
/// sentinel exactly once, to `level - up`, immediately followed by one
/// `break`.
pub proof fn lemma_sentinel_branch(ed: Luau, level: nat, up: nat, is_loop: bool)
    requires
        up <= level,
    ensures
        up == 0 ==> set_sentinel_count(ed.br_to_level_lines(level, up, is_loop)) == 0,
        up == 0 && is_loop ==> ed.br_to_level_lines(level, up, is_loop) == seq![
            Line::Do,
            Line::Continue,
            Line::End,
        ],
        up == 0 && !is_loop ==> ed.br_to_level_lines(level, up, is_loop) == seq![
            Line::Do,
            Line::Break,
            Line::End,
        ],
        up > 0 ==> ed.br_to_level_lines(level, up, is_loop) == seq![
            Line::Do,
            (Line::SetSentinel { level: (level - up) as nat }),
            Line::Break,
            Line::End,
        ],
        up > 0 ==> set_sentinel_count(ed.br_to_level_lines(level, up, is_loop)) == 1,
{
    reveal_with_fuel(Seq::<_>::filter, 6);
    if up == 0 {
        if is_loop {
            assert(ed.br_to_level_lines(level, up, is_loop) =~= seq![
                Line::Do,
                Line::Continue,
                Line::End,
            ]);
        } else {
            assert(ed.br_to_level_lines(level, up, is_loop) =~= seq![
                Line::Do,
                Line::Break,
                Line::End,
            ]);
        }
        assert(ed.br_to_level_lines(level, up, is_loop).filter(set_sentinel_pred())
            =~= Seq::<Line>::empty());
    } else {
        assert(ed.br_to_level_lines(level, up, is_loop) =~= seq![
            Line::Do,
            (Line::SetSentinel { level: (level - up) as nat }),
            Line::Break,
            Line::End,
        ]);
        assert(ed.br_to_level_lines(level, up, is_loop).filter(set_sentinel_pred()) =~= seq![
            (Line::SetSentinel { level: (level - up) as nat }),
        ]);
    }
}

/// Law: the sentinel dialect's branch-target check clears the sentinel
/// exactly once, on the branch that matches its own level; when the
/// construct is a loop the clear is followed by exactly one `continue`, and
/// otherwise no `continue` is emitted, so control falls through to the
/// wrapper's `break`.
pub proof fn lemma_sentinel_target_check(ed: Luau, level: nat)
    ensures
        ed.br_target_lines(level, true) == seq![
            Line::IfSentinelSet,
            (Line::IfSentinelAt { level }),
            Line::ClearSentinel,
            Line::Continue,
            Line::End,
            Line::Break,
            Line::End,
        ],
        ed.br_target_lines(level, false) == seq![
            Line::IfSentinelSet,
            (Line::IfSentinelAt { level }),
            Line::ClearSentinel,
            Line::End,
            Line::Break,
            Line::End,
        ],
        clear_sentinel_count(ed.br_target_lines(level, true)) == 1,
        continue_count(ed.br_target_lines(level, true)) == 1,
        clear_sentinel_count(ed.br_target_lines(level, false)) == 1,
        continue_count(ed.br_target_lines(level, false)) == 0,
{
    reveal_with_fuel(Seq::<_>::filter, 8);
    assert(ed.br_target_lines(level, true) =~= seq![
        Line::IfSentinelSet,
        (Line::IfSentinelAt { level }),
        Line::ClearSentinel,
        Line::Continue,
        Line::End,
        Line::Break,
        Line::End,
    ]);
    assert(ed.br_target_lines(level, false) =~= seq![
        Line::IfSentinelSet,
        (Line::IfSentinelAt { level }),
        Line::ClearSentinel,
        Line::End,
        Line::Break,
        Line::End,
    ]);
    assert(ed.br_target_lines(level, true).filter(clear_sentinel_pred()) =~= seq![
        Line::ClearSentinel,
    ]);
    assert(ed.br_target_lines(level, true).filter(continue_pred()) =~= seq![Line::Continue]);
    assert(ed.br_target_lines(level, false).filter(clear_sentinel_pred()) =~= seq![
        Line::ClearSentinel,
    ]);
    assert(ed.br_target_lines(level, false).filter(continue_pred()) =~= Seq::<Line>::empty());
}

} // verus!
