//! Rendering a chain of failure causes as one readable report.
//!
//! A failed startup surfaces as an error with a chain of causes, given here
//! outermost error first and root cause last. The report prints the chain
//! in reverse, so the root cause comes first and every later message names
//! the issue it caused. Each cause may carry the text of a capture-site
//! trace; a present, non-empty trace is printed on the cause's line.

use vstd::prelude::*;

verus! {

/// One cause of a failure: its message and, where one was captured, the
/// text of its capture-site trace.
#[derive(Debug)]
pub struct Cause {
    pub message: String,
    pub trace: Option<String>,
}

/// The line between two causes of the printed report.
pub open spec fn separator() -> Seq<char> {
    "   Which caused the following issue:\n"@
}

/// What follows a cause's message: its trace, where a non-empty one was
/// captured, and the end of the line.
pub open spec fn trace_text(trace: Option<String>) -> Seq<char> {
    match trace {
        Some(t) => if t@.len() > 0 {
            " This happened at "@ + t@ + "\n"@
        } else {
            "\n"@
        },
        None => "\n"@,
    }
}

/// The printed text of one cause: its message and its trace line.
pub open spec fn cause_text(c: Cause) -> Seq<char> {
    c.message@ + trace_text(c.trace)
}

/// The whole report of a cause chain, given outermost first: the causes in
/// reverse order, the separator line before every cause but the first
/// printed one.
pub open spec fn report_text(causes: Seq<Cause>) -> Seq<char>
    decreases causes.len(),
{
    if causes.len() == 0 {
        Seq::empty()
    } else if causes.len() == 1 {
        cause_text(causes.last())
    } else {
        cause_text(causes.last()) + separator() + report_text(causes.drop_last())
    }
}

/// Peeling the outermost cause off a chain of two or more takes the last
/// separator and that cause's text off the end of the report.
proof fn lemma_report_text_step(s: Seq<Cause>)
    requires
        s.len() >= 2,
    ensures
        report_text(s) =~= report_text(s.skip(1)) + separator() + cause_text(s[0]),
    decreases s.len(),
{
    let t = s.skip(1);
    assert(t.last() == s.last());
    if s.len() == 2 {
        assert(s.drop_last() =~= seq![s[0]]);
        assert(t =~= seq![s[1]]);
        assert(report_text(t) == cause_text(s[1]));
        assert(report_text(s.drop_last()) == cause_text(s[0]));
    } else {
        lemma_report_text_step(s.drop_last());
        assert(t.drop_last() =~= s.drop_last().skip(1));
        assert(report_text(s.drop_last()) =~= report_text(s.drop_last().skip(1)) + separator()
            + cause_text(s[0]));
    }
}

/// Renders a failure's cause chain, given outermost error first, as the
/// report the demo prints: the causes in reverse order — root cause first —
/// each on its own line with its trace where a non-empty one was captured,
/// and the separator line announcing each issue the cause before it led to.
pub fn failure_to_string(causes: Vec<Cause>) -> (r: String)
    ensures
        r@ == report_text(causes@),
{
    let n = causes.len();
    let mut out = String::new();
    let mut j: usize = 0;
    while j < n
        invariant
            n == causes@.len(),
            j <= n,
            out@ =~= report_text(causes@.skip(n - j)),
        decreases n - j,
    {
        let ghost out0 = out@;
        let idx = n - 1 - j;
        if j > 0 {
            out.append("   Which caused the following issue:\n");
        }
        out.append(causes[idx].message.as_str());
        match &causes[idx].trace {
            Some(t) => {
                if !t.as_str().is_empty() {
                    out.append(" This happened at ");
                    out.append(t.as_str());
                    out.append("\n");
                } else {
                    out.append("\n");
                }
            },
            None => {
                out.append("\n");
            },
        }
        proof {
            let s = causes@;
            let c = s[idx as int];
            if j == 0 {
                assert(out@ =~= cause_text(c));
                assert(s.skip(n - 1).len() == 1);
                assert(s.skip(n - 1).last() == c);
                assert(out@ =~= report_text(s.skip(n - 1)));
            } else {
                assert(out@ =~= out0 + separator() + cause_text(c));
                lemma_report_text_step(s.skip(idx as int));
                assert(s.skip(idx as int).skip(1) =~= s.skip(n - j));
                assert(s.skip(idx as int)[0] == c);
                assert(out@ =~= report_text(s.skip(idx as int)));
            }
        }
        j = j + 1;
    }
    proof {
        assert(causes@.skip(0) =~= causes@);
    }
    out
}

} // verus!
