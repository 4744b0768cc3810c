//! The individual lines of emitted target-language text, as a spec-level
//! datatype, with the exact text of each line and executable helpers that
//! append one line to the output.

use crate::text::{dec_nat, push_dec_usize};
use vstd::prelude::*;

verus! {

/// One line of emitted target-language text.
pub enum Line {
    /// `do` — opens a plain grouping construct.
    Do,
    /// `while true do` — opens a single-iteration wrapper construct.
    WhileTrueDo,
    /// `end` — closes a construct.
    End,
    /// `break` — stops the innermost enclosing loop.
    Break,
    /// `continue` — restarts the innermost enclosing loop.
    Continue,
    /// `::continue_at_<level>::` — the label for a nesting level.
    Label { level: nat },
    /// `goto continue_at_<level>` — a direct jump to a level's label.
    Goto { level: nat },
    /// `if <cond> ~= 0 then` — opens a conditional on runtime truthiness.
    IfNonZero { cond: Seq<char> },
    /// `if desired then` — tests whether a multi-level branch is in flight.
    IfSentinelSet,
    /// `if desired == <level> then` — tests whether the in-flight branch
    /// targets this level.
    IfSentinelAt { level: nat },
    /// `desired = nil` — consumes the in-flight branch.
    ClearSentinel,
    /// `desired = <level>` — starts a multi-level branch to a level.
    SetSentinel { level: nat },
}

/// The exact text of one line, without its trailing newline.
pub open spec fn line_text(l: Line) -> Seq<char> {
    match l {
        Line::Do => "do"@,
        Line::WhileTrueDo => "while true do"@,
        Line::End => "end"@,
        Line::Break => "break"@,
        Line::Continue => "continue"@,
        Line::Label { level } => "::continue_at_"@ + dec_nat(level) + "::"@,
        Line::Goto { level } => "goto continue_at_"@ + dec_nat(level),
        Line::IfNonZero { cond } => "if "@ + cond + " ~= 0 then"@,
        Line::IfSentinelSet => "if desired then"@,
        Line::IfSentinelAt { level } => "if desired == "@ + dec_nat(level) + " then"@,
        Line::ClearSentinel => "desired = nil"@,
        Line::SetSentinel { level } => "desired = "@ + dec_nat(level),
    }
}

/// The newline that ends every emitted line.
pub open spec fn nl() -> Seq<char> {
    seq!['\n']
}

/// The exact text of a sequence of lines, each followed by a newline.
pub open spec fn render(lines: Seq<Line>) -> Seq<char>
    decreases lines.len(),
{
    if lines.len() == 0 {
        Seq::empty()
    } else {
        line_text(lines[0]) + nl() + render(lines.skip(1))
    }
}

/// Rendering a concatenation of line sequences concatenates their texts.
pub proof fn lemma_render_concat(a: Seq<Line>, b: Seq<Line>)
    ensures
        render(a + b) == render(a) + render(b),
    decreases a.len(),
{
    if a.len() == 0 {
        assert(a + b =~= b);
        assert(render(a + b) =~= render(a) + render(b));
    } else {
        assert((a + b).skip(1) =~= a.skip(1) + b);
        lemma_render_concat(a.skip(1), b);
        assert((a + b)[0] == a[0]);
        assert(render(a + b) =~= render(a) + render(b));
    }
}

/// Rendering a single line yields its text and a newline.
pub proof fn lemma_render_one(l: Line)
    ensures
        render(seq![l]) == line_text(l) + nl(),
{
    let s = seq![l];
    assert(s.len() == 1);
    assert(s[0] == l);
    assert(s.skip(1) =~= Seq::<Line>::empty());
    assert(render(Seq::<Line>::empty()) == Seq::<char>::empty());
    assert(render(s) == line_text(l) + nl() + Seq::<char>::empty());
    assert(line_text(l) + nl() + Seq::<char>::empty() =~= line_text(l) + nl());
}

/// Rendering a pair of lines splits into the two single-line renderings.
pub proof fn lemma_render_two(a: Line, b: Line)
    ensures
        render(seq![a, b]) == render(seq![a]) + render(seq![b]),
{
    assert(seq![a, b] =~= seq![a] + seq![b]);
    lemma_render_concat(seq![a], seq![b]);
}

/// Rendering a triple of lines splits into the single-line renderings.
pub proof fn lemma_render_three(a: Line, b: Line, c: Line)
    ensures
        render(seq![a, b, c]) == render(seq![a]) + render(seq![b]) + render(seq![c]),
{
    assert(seq![a, b, c] =~= seq![a, b] + seq![c]);
    lemma_render_concat(seq![a, b], seq![c]);
    lemma_render_two(a, b);
}

pub(crate) fn put_do(out: &mut String)
    ensures
        final(out)@ == old(out)@ + render(seq![Line::Do]),
{
    proof {
        reveal_strlit("do\n");
        reveal_strlit("do");
        lemma_render_one(Line::Do);
        assert("do\n"@ =~= "do"@ + nl());
    }
    out.append("do\n");
}

pub(crate) fn put_while_true_do(out: &mut String)
    ensures
        final(out)@ == old(out)@ + render(seq![Line::WhileTrueDo]),
{
    proof {
        reveal_strlit("while true do\n");
        reveal_strlit("while true do");
        lemma_render_one(Line::WhileTrueDo);
        assert("while true do\n"@ =~= "while true do"@ + nl());
    }
    out.append("while true do\n");
}

pub(crate) fn put_end(out: &mut String)
    ensures
        final(out)@ == old(out)@ + render(seq![Line::End]),
{
    proof {
        reveal_strlit("end\n");
        reveal_strlit("end");
        lemma_render_one(Line::End);
        assert("end\n"@ =~= "end"@ + nl());
    }
    out.append("end\n");
}

pub(crate) fn put_break(out: &mut String)
    ensures
        final(out)@ == old(out)@ + render(seq![Line::Break]),
{
    proof {
        reveal_strlit("break\n");
        reveal_strlit("break");
        lemma_render_one(Line::Break);
        assert("break\n"@ =~= "break"@ + nl());
    }
    out.append("break\n");
}

pub(crate) fn put_continue(out: &mut String)
    ensures
        final(out)@ == old(out)@ + render(seq![Line::Continue]),
{
    proof {
        reveal_strlit("continue\n");
        reveal_strlit("continue");
        lemma_render_one(Line::Continue);
        assert("continue\n"@ =~= "continue"@ + nl());
    }
    out.append("continue\n");
}

pub(crate) fn put_label(level: usize, out: &mut String)
    ensures
        final(out)@ == old(out)@ + render(seq![(Line::Label { level: level as nat })]),
{
    proof {
        reveal_strlit("::continue_at_");
        reveal_strlit("::\n");
        reveal_strlit("::");
        lemma_render_one(Line::Label { level: level as nat });
        assert("::\n"@ =~= "::"@ + nl());
    }
    out.append("::continue_at_");
    push_dec_usize(level, out);
    out.append("::\n");
    proof {
        assert(out@ =~= old(out)@ + render(seq![(Line::Label { level: level as nat })]));
    }
}

pub(crate) fn put_goto(level: usize, out: &mut String)
    ensures
        final(out)@ == old(out)@ + render(seq![(Line::Goto { level: level as nat })]),
{
    proof {
        reveal_strlit("goto continue_at_");
        reveal_strlit("\n");
        lemma_render_one(Line::Goto { level: level as nat });
    }
    out.append("goto continue_at_");
    push_dec_usize(level, out);
    out.append("\n");
    proof {
        assert("\n"@ =~= nl());
        assert(out@ =~= old(out)@ + render(seq![(Line::Goto { level: level as nat })]));
    }
}

pub(crate) fn put_if_non_zero(cond: &str, out: &mut String)
    ensures
        final(out)@ == old(out)@ + render(seq![(Line::IfNonZero { cond: cond@ })]),
{
    proof {
        reveal_strlit("if ");
        reveal_strlit(" ~= 0 then\n");
        reveal_strlit(" ~= 0 then");
        lemma_render_one(Line::IfNonZero { cond: cond@ });
        assert(" ~= 0 then\n"@ =~= " ~= 0 then"@ + nl());
    }
    out.append("if ");
    out.append(cond);
    out.append(" ~= 0 then\n");
    proof {
        assert(out@ =~= old(out)@ + render(seq![(Line::IfNonZero { cond: cond@ })]));
    }
}

pub(crate) fn put_if_sentinel_set(out: &mut String)
    ensures
        final(out)@ == old(out)@ + render(seq![Line::IfSentinelSet]),
{
    proof {
        reveal_strlit("if desired then\n");
        reveal_strlit("if desired then");
        lemma_render_one(Line::IfSentinelSet);
        assert("if desired then\n"@ =~= "if desired then"@ + nl());
    }
    out.append("if desired then\n");
}

pub(crate) fn put_if_sentinel_at(level: usize, out: &mut String)
    ensures
        final(out)@ == old(out)@ + render(seq![(Line::IfSentinelAt { level: level as nat })]),
{
    proof {
        reveal_strlit("if desired == ");
        reveal_strlit(" then\n");
        reveal_strlit(" then");
        lemma_render_one(Line::IfSentinelAt { level: level as nat });
        assert(" then\n"@ =~= " then"@ + nl());
    }
    out.append("if desired == ");
    push_dec_usize(level, out);
    out.append(" then\n");
    proof {
        assert(out@ =~= old(out)@ + render(
            seq![(Line::IfSentinelAt { level: level as nat })],
        ));
    }
}

pub(crate) fn put_clear_sentinel(out: &mut String)
    ensures
        final(out)@ == old(out)@ + render(seq![Line::ClearSentinel]),
{
    proof {
        reveal_strlit("desired = nil\n");
        reveal_strlit("desired = nil");
        lemma_render_one(Line::ClearSentinel);
        assert("desired = nil\n"@ =~= "desired = nil"@ + nl());
    }
    out.append("desired = nil\n");
}

pub(crate) fn put_set_sentinel(level: usize, out: &mut String)
    ensures
        final(out)@ == old(out)@ + render(seq![(Line::SetSentinel { level: level as nat })]),
{
    proof {
        reveal_strlit("desired = ");
        reveal_strlit("\n");
        lemma_render_one(Line::SetSentinel { level: level as nat });
    }
    out.append("desired = ");
    push_dec_usize(level, out);
    out.append("\n");
    proof {
        assert("\n"@ =~= nl());
        assert(out@ =~= old(out)@ + render(seq![(Line::SetSentinel { level: level as nat })]));
    }
}

} // verus!
