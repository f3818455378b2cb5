//! Draining the output of a long-running command.
//!
//! The command's standard output and standard error are polled in turn, one
//! line from each per pass, so that neither stream is left waiting while the
//! other has data. The caller performs the reads; this decides what each pass
//! means.
use vstd::prelude::*;

verus! {

/// The lines that one pass read, standard output's first.
pub open spec fn pass_lines(out_line: Option<String>, err_line: Option<String>) -> Seq<String> {
    match (out_line, err_line) {
        (Some(o), Some(e)) => seq![o, e],
        (Some(o), None) => seq![o],
        (None, Some(e)) => seq![e],
        (None, None) => Seq::empty(),
    }
}

/// Decides one pass over the two streams: the lines to echo, in order, or
/// `None` when neither stream yielded a line and the draining is over.
pub fn drain_pass(out_line: Option<String>, err_line: Option<String>) -> (r: Option<Vec<String>>)
    ensures
        r is None <==> (out_line is None && err_line is None),
        r matches Some(lines) ==> lines@ == pass_lines(out_line, err_line),
{
    let mut lines: Vec<String> = Vec::new();
    let finished = out_line.is_none() && err_line.is_none();
    if let Some(o) = out_line {
        lines.push(o);
    }
    if let Some(e) = err_line {
        lines.push(e);
    }
    if finished {
        None
    } else {
        proof {
            assert(lines@ =~= pass_lines(out_line, err_line));
        }
        Some(lines)
    }
}

} // verus!
