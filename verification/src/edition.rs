//! The two target-dialect strategies. Each operation appends its exact text
//! to the output string; the text is pinned, line by line, by the spec-level
//! line sequences of the `Edition` trait.

use crate::lines::{
    lemma_render_concat, lemma_render_one, lemma_render_three, lemma_render_two, put_break,
    put_clear_sentinel, put_continue, put_do, put_end, put_goto, put_if_non_zero,
    put_if_sentinel_at, put_if_sentinel_set, put_label, put_set_sentinel, put_while_true_do,
    render, Line,
};
use crate::text::{dec_i64, push_dec_i64};
use vstd::prelude::*;

verus! {

/// A 64-bit integer literal paired with the edition's literal suffix.
pub struct Infix {
    /// The suffix appended after the digits.
    pub rhs: &'static str,
    /// The literal's value.
    pub inner: i64,
}

impl Infix {
    /// The rendered literal: the decimal digits, then the suffix.
    pub fn text(&self) -> (r: String)
        ensures
            r@ == dec_i64(self.inner as int) + self.rhs@,
    {
        let mut out = String::new();
        push_dec_i64(self.inner, &mut out);
        out.append(self.rhs);
        out
    }
}

/// One target-dialect strategy. The code generator walks the nested control
/// structure, calling `start_*` on descent, `end_*` on ascent, `br_target` at
/// the top of every construct body that can be a landing site, and
/// `br_to_level` for every multi-level branch. Every call appends exactly the
/// rendering of its spec-level line sequence to the output.
pub trait Edition {
    /// The name of the target dialect.
    spec fn runtime_spec(&self) -> Seq<char>;

    /// The lines that open a plain grouping construct.
    spec fn start_block_lines(&self) -> Seq<Line>;

    /// The lines that open a repeatable construct at a nesting level.
    spec fn start_loop_lines(&self, level: nat) -> Seq<Line>;

    /// The lines that open a conditional construct guarded by `cond`.
    spec fn start_if_lines(&self, cond: Seq<char>) -> Seq<Line>;

    /// The lines that close a plain grouping construct at a nesting level.
    spec fn end_block_lines(&self, level: nat) -> Seq<Line>;

    /// The lines that close a repeatable construct.
    spec fn end_loop_lines(&self) -> Seq<Line>;

    /// The lines that close a conditional construct at a nesting level.
    spec fn end_if_lines(&self, level: nat) -> Seq<Line>;

    /// The lines of the branch-target check at the top of a construct body.
    spec fn br_target_lines(&self, level: nat, in_loop: bool) -> Seq<Line>;

    /// The lines of a multi-level branch from `level` crossing `up`
    /// construct boundaries.
    spec fn br_to_level_lines(&self, level: nat, up: nat, is_loop: bool) -> Seq<Line>;

    /// The suffix this dialect puts after a 64-bit integer literal.
    spec fn i64_suffix(&self) -> Seq<char>;

    /// Returns the static name of the target dialect.
    fn runtime(&self) -> (r: &'static str)
        ensures
            r@ == self.runtime_spec(),
    ;

    /// Opens a plain grouping construct.
    fn start_block(&self, out: &mut String)
        ensures
            final(out)@ == old(out)@ + render(self.start_block_lines()),
    ;

    /// Opens a repeatable construct whose body starts at `level`.
    fn start_loop(&self, level: usize, out: &mut String)
        ensures
            final(out)@ == old(out)@ + render(self.start_loop_lines(level as nat)),
    ;

    /// Opens a conditional construct testing `cond` for nonzero.
    fn start_if(&self, cond: &str, out: &mut String)
        ensures
            final(out)@ == old(out)@ + render(self.start_if_lines(cond@)),
    ;

    /// Closes the plain grouping construct at `level`.
    fn end_block(&self, level: usize, out: &mut String)
        ensures
            final(out)@ == old(out)@ + render(self.end_block_lines(level as nat)),
    ;

    /// Closes a repeatable construct.
    fn end_loop(&self, out: &mut String)
        ensures
            final(out)@ == old(out)@ + render(self.end_loop_lines()),
    ;

    /// Closes the conditional construct at `level`.
    fn end_if(&self, level: usize, out: &mut String)
        ensures
            final(out)@ == old(out)@ + render(self.end_if_lines(level as nat)),
    ;

    /// Emits the check that detects and consumes a pending multi-level
    /// branch aimed at `level`; `in_loop` says whether this construct is a
    /// loop, so that a consumed branch resumes iteration.
    fn br_target(&self, level: usize, in_loop: bool, out: &mut String)
        ensures
            final(out)@ == old(out)@ + render(self.br_target_lines(level as nat, in_loop)),
    ;

    /// Emits a branch from nesting level `level` that crosses `up` construct
    /// boundaries; `is_loop` says whether the construct at the target level
    /// is a loop, so that the branch restarts it instead of leaving it.
    fn br_to_level(&self, level: usize, up: usize, is_loop: bool, out: &mut String)
        requires
            up <= level,
        ensures
            final(out)@ == old(out)@ + render(
                self.br_to_level_lines(level as nat, up as nat, is_loop),
            ),
    ;

    /// Wraps a 64-bit integer literal with this dialect's suffix.
    fn i64(&self, i: i64) -> (r: Infix)
        ensures
            r.inner == i,
            r.rhs@ == self.i64_suffix(),
    ;
}

/// The labeled-jump dialect: every construct is a plain grouping construct,
/// a label named by the nesting level marks each branch target, and a
/// multi-level branch is a direct `goto`.
pub struct LuaJIT;

impl Edition for LuaJIT {
    open spec fn runtime_spec(&self) -> Seq<char> {
        "luajit"@
    }

    open spec fn start_block_lines(&self) -> Seq<Line> {
        seq![Line::Do]
    }

    open spec fn start_loop_lines(&self, level: nat) -> Seq<Line> {
        seq![Line::Do, (Line::Label { level })]
    }

    open spec fn start_if_lines(&self, cond: Seq<char>) -> Seq<Line> {
        seq![(Line::IfNonZero { cond })]
    }

    open spec fn end_block_lines(&self, level: nat) -> Seq<Line> {
        seq![(Line::Label { level }), Line::End]
    }

    open spec fn end_loop_lines(&self) -> Seq<Line> {
        seq![Line::End]
    }

    open spec fn end_if_lines(&self, level: nat) -> Seq<Line> {
        seq![(Line::Label { level }), Line::End]
    }

    open spec fn br_target_lines(&self, level: nat, in_loop: bool) -> Seq<Line> {
        Seq::empty()
    }

    open spec fn br_to_level_lines(&self, level: nat, up: nat, is_loop: bool) -> Seq<Line> {
        seq![(Line::Goto { level: (level - up) as nat })]
    }

    open spec fn i64_suffix(&self) -> Seq<char> {
        "LL"@
    }

    fn runtime(&self) -> (r: &'static str) {
        "luajit"
    }

    fn start_block(&self, out: &mut String) {
        put_do(out);
    }

    fn start_loop(&self, level: usize, out: &mut String) {
        put_do(out);
        put_label(level, out);
        proof {
            lemma_render_two(Line::Do, Line::Label { level: level as nat });
            assert(out@ =~= old(out)@ + render(self.start_loop_lines(level as nat)));
        }
    }

    fn start_if(&self, cond: &str, out: &mut String) {
        put_if_non_zero(cond, out);
    }

    fn end_block(&self, level: usize, out: &mut String) {
        put_label(level, out);
        put_end(out);
        proof {
            lemma_render_two(Line::Label { level: level as nat }, Line::End);
            assert(out@ =~= old(out)@ + render(self.end_block_lines(level as nat)));
        }
    }

    fn end_loop(&self, out: &mut String) {
        put_end(out);
    }

    fn end_if(&self, level: usize, out: &mut String) {
        put_label(level, out);
        put_end(out);
        proof {
            lemma_render_two(Line::Label { level: level as nat }, Line::End);
            assert(out@ =~= old(out)@ + render(self.end_if_lines(level as nat)));
        }
    }

    fn br_target(&self, _level: usize, _in_loop: bool, out: &mut String) {
        proof {
            assert(out@ =~= old(out)@ + render(Seq::<Line>::empty()));
        }
    }

    fn br_to_level(&self, level: usize, up: usize, _is_loop: bool, out: &mut String) {
        let target: usize = level - up;
        put_goto(target, out);
    }

    fn i64(&self, i: i64) -> (r: Infix) {
        Infix { rhs: "LL", inner: i }
    }
}

/// The dialect with only lexical `break`/`continue`: every construct sits in
/// a single-iteration wrapper, and a multi-level branch writes the target
/// level into the shared sentinel variable before breaking out; each
/// enclosing wrapper's branch-target check relays or consumes it.
pub struct Luau;

impl Edition for Luau {
    open spec fn runtime_spec(&self) -> Seq<char> {
        "luau"@
    }

    open spec fn start_block_lines(&self) -> Seq<Line> {
        seq![Line::WhileTrueDo]
    }

    open spec fn start_loop_lines(&self, level: nat) -> Seq<Line> {
        seq![Line::WhileTrueDo]
    }

    open spec fn start_if_lines(&self, cond: Seq<char>) -> Seq<Line> {
        seq![Line::WhileTrueDo, (Line::IfNonZero { cond })]
    }

    open spec fn end_block_lines(&self, level: nat) -> Seq<Line> {
        seq![Line::Break, Line::End]
    }

    open spec fn end_loop_lines(&self) -> Seq<Line> {
        seq![Line::Break, Line::End]
    }

    open spec fn end_if_lines(&self, level: nat) -> Seq<Line> {
        seq![Line::End, Line::Break, Line::End]
    }

    open spec fn br_target_lines(&self, level: nat, in_loop: bool) -> Seq<Line> {
        seq![Line::IfSentinelSet, (Line::IfSentinelAt { level }), Line::ClearSentinel] + (
        if in_loop {
            seq![Line::Continue]
        } else {
            Seq::<Line>::empty()
        }) + seq![Line::End, Line::Break, Line::End]
    }

    open spec fn br_to_level_lines(&self, level: nat, up: nat, is_loop: bool) -> Seq<Line> {
        seq![Line::Do] + (if up == 0 {
            if is_loop {
                seq![Line::Continue]
            } else {
                seq![Line::Break]
            }
        } else {
            seq![(Line::SetSentinel { level: (level - up) as nat }), Line::Break]
        }) + seq![Line::End]
    }

    open spec fn i64_suffix(&self) -> Seq<char> {
        ""@
    }

    fn runtime(&self) -> (r: &'static str) {
        "luau"
    }

    fn start_block(&self, out: &mut String) {
        put_while_true_do(out);
    }

    fn start_loop(&self, _level: usize, out: &mut String) {
        put_while_true_do(out);
    }

    fn start_if(&self, cond: &str, out: &mut String) {
        put_while_true_do(out);
        put_if_non_zero(cond, out);
        proof {
            lemma_render_two(Line::WhileTrueDo, Line::IfNonZero { cond: cond@ });
            assert(out@ =~= old(out)@ + render(self.start_if_lines(cond@)));
        }
    }

    fn end_block(&self, _level: usize, out: &mut String) {
        put_break(out);
        put_end(out);
        proof {
            lemma_render_two(Line::Break, Line::End);
            assert(out@ =~= old(out)@ + render(self.end_block_lines(_level as nat)));
        }
    }

    fn end_loop(&self, out: &mut String) {
        put_break(out);
        put_end(out);
        proof {
            lemma_render_two(Line::Break, Line::End);
            assert(out@ =~= old(out)@ + render(self.end_loop_lines()));
        }
    }

    fn end_if(&self, _level: usize, out: &mut String) {
        put_end(out);
        put_break(out);
        put_end(out);
        proof {
            lemma_render_three(Line::End, Line::Break, Line::End);
            assert(out@ =~= old(out)@ + render(self.end_if_lines(_level as nat)));
        }
    }

    fn br_target(&self, level: usize, in_loop: bool, out: &mut String) {
        put_if_sentinel_set(out);
        put_if_sentinel_at(level, out);
        put_clear_sentinel(out);
        if in_loop {
            put_continue(out);
        }
        put_end(out);
        put_break(out);
        put_end(out);
        proof {
            let pre = seq![
                Line::IfSentinelSet,
                (Line::IfSentinelAt { level: level as nat }),
                Line::ClearSentinel,
            ];
            let mid = if in_loop {
                seq![Line::Continue]
            } else {
                Seq::<Line>::empty()
            };
            let suf = seq![Line::End, Line::Break, Line::End];
            lemma_render_three(
                Line::IfSentinelSet,
                Line::IfSentinelAt { level: level as nat },
                Line::ClearSentinel,
            );
            lemma_render_three(Line::End, Line::Break, Line::End);
            if in_loop {
                lemma_render_one(Line::Continue);
            }
            lemma_render_concat(pre, mid);
            lemma_render_concat(pre + mid, suf);
            assert(out@ =~= old(out)@ + render(self.br_target_lines(level as nat, in_loop)));
        }
    }

    fn br_to_level(&self, level: usize, up: usize, is_loop: bool, out: &mut String) {
        put_do(out);
        if up == 0 {
            if is_loop {
                put_continue(out);
            } else {
                put_break(out);
            }
        } else {
            let target: usize = level - up;
            put_set_sentinel(target, out);
            put_break(out);
        }
        put_end(out);
        proof {
            let pre = seq![Line::Do];
            let mid = if up == 0 {
                if is_loop {
                    seq![Line::Continue]
                } else {
                    seq![Line::Break]
                }
            } else {
                seq![(Line::SetSentinel { level: (level - up) as nat }), Line::Break]
            };
            let suf = seq![Line::End];
            if up != 0 {
                lemma_render_two(Line::SetSentinel { level: (level - up) as nat }, Line::Break);
            }
            lemma_render_concat(pre, mid);
            lemma_render_concat(pre + mid, suf);
            assert(out@ =~= old(out)@ + render(
                self.br_to_level_lines(level as nat, up as nat, is_loop),
            ));
        }
    }

    fn i64(&self, i: i64) -> (r: Infix) {
        Infix { rhs: "", inner: i }
    }
}

} // verus!
