//! Rendering the batch output: the tabular report, the console summary
//! and the failure listing.
//!
//! Every renderer is specified character by character, so the text a run
//! prints or writes is a function of the records alone.

use vstd::prelude::*;

use crate::pairs::{join_path, joined};
use crate::structs::{FrameResult, PairFailure, SummaryStatistics};
use crate::text::{append_char, append_str, dec_chars, push_dec, push_score, score_chars};

verus! {

/// One report row: the frame index, a comma, the score, a newline.
pub open spec fn row_chars(r: FrameResult) -> Seq<char> {
    dec_chars(r.frame as int) + seq![','] + score_chars(r.ssimulacra2 as int) + seq!['\n']
}

/// The report rows, one per record, in sequence order.
pub open spec fn rows_chars(rs: Seq<FrameResult>) -> Seq<char>
    decreases rs.len(),
{
    if rs.len() == 0 {
        Seq::empty()
    } else {
        rows_chars(rs.drop_last()) + row_chars(rs.last())
    }
}

/// The whole tabular report: the header line, then one row per record.
pub open spec fn csv_chars(rs: Seq<FrameResult>) -> Seq<char> {
    "frame,ssimulacra2\n"@ + rows_chars(rs)
}

proof fn lemma_rows_take_step(rs: Seq<FrameResult>, i: int)
    requires
        0 <= i < rs.len(),
    ensures
        rows_chars(rs.take(i + 1)) == rows_chars(rs.take(i)) + row_chars(rs[i]),
{
    assert(rs.take(i + 1).drop_last() =~= rs.take(i));
    assert(rs.take(i + 1).last() == rs[i]);
}

/// Renders the tabular report of the records, in the order given.
pub fn render_csv(records: &Vec<FrameResult>) -> (s: String)
    ensures
        s@ == csv_chars(records@),
{
    let mut s = String::new();
    append_str(&mut s, "frame,ssimulacra2\n");
    assert(s@ =~= csv_chars(records@.take(0)));
    for i in 0..records.len()
        invariant
            s@ == csv_chars(records@.take(i as int)),
    {
        let r = records[i];
        push_dec(&mut s, r.frame as u64);
        append_char(&mut s, ',');
        push_score(&mut s, r.ssimulacra2);
        append_char(&mut s, '\n');
        proof {
            lemma_rows_take_step(records@, i as int);
            assert(s@ =~= csv_chars(records@.take(i + 1)));
        }
    }
    assert(records@.take(records@.len() as int) =~= records@);
    s
}

/// The console summary: one line each for minimum, maximum and mean.
pub open spec fn summary_chars(st: SummaryStatistics) -> Seq<char> {
    "Min: "@ + score_chars(st.min as int) + seq!['\n']
        + "Max: "@ + score_chars(st.max as int) + seq!['\n']
        + "Mean: "@ + score_chars(st.mean as int) + seq!['\n']
}

/// Renders the console summary of the statistics.
pub fn render_summary(st: &SummaryStatistics) -> (s: String)
    ensures
        s@ == summary_chars(*st),
{
    let mut s = String::new();
    append_str(&mut s, "Min: ");
    push_score(&mut s, st.min);
    append_char(&mut s, '\n');
    append_str(&mut s, "Max: ");
    push_score(&mut s, st.max);
    append_char(&mut s, '\n');
    append_str(&mut s, "Mean: ");
    push_score(&mut s, st.mean);
    append_char(&mut s, '\n');
    assert(s@ =~= summary_chars(*st));
    s
}

/// Where the tabular report is written: into the configured path as it
/// stands, unless that path is an existing directory — then into a file
/// of a fixed default name inside it.
pub fn report_target(out: &str, out_is_directory: bool) -> (p: String)
    ensures
        out_is_directory ==> p@ == joined(out@, "ssimulacra2.csv"@),
        !out_is_directory ==> p@ == out@,
{
    if out_is_directory {
        join_path(out, "ssimulacra2.csv")
    } else {
        out.to_owned()
    }
}

/// One line of the failure listing: the pair's identifier, a separator,
/// the failure kind, a newline.
pub open spec fn failure_line_chars(f: PairFailure) -> Seq<char> {
    f.pair.identifier@ + ": "@ + f.error.label_spec() + seq!['\n']
}

/// The failure listing, one line per failure, in the order recorded.
pub open spec fn failure_lines_chars(fs: Seq<PairFailure>) -> Seq<char>
    decreases fs.len(),
{
    if fs.len() == 0 {
        Seq::empty()
    } else {
        failure_lines_chars(fs.drop_last()) + failure_line_chars(fs.last())
    }
}

proof fn lemma_failure_lines_take_step(fs: Seq<PairFailure>, i: int)
    requires
        0 <= i < fs.len(),
    ensures
        failure_lines_chars(fs.take(i + 1))
            == failure_lines_chars(fs.take(i)) + failure_line_chars(fs[i]),
{
    assert(fs.take(i + 1).drop_last() =~= fs.take(i));
    assert(fs.take(i + 1).last() == fs[i]);
}

/// Renders the failure listing, one line per failure. Failures are
/// reported on their own, never mixed into the score statistics.
pub fn render_failures(failures: &Vec<PairFailure>) -> (s: String)
    ensures
        s@ == failure_lines_chars(failures@),
{
    let mut s = String::new();
    assert(s@ =~= failure_lines_chars(failures@.take(0)));
    for i in 0..failures.len()
        invariant
            s@ == failure_lines_chars(failures@.take(i as int)),
    {
        append_str(&mut s, failures[i].pair.identifier.as_str());
        append_str(&mut s, ": ");
        let label = failures[i].error.label();
        append_str(&mut s, label.as_str());
        append_char(&mut s, '\n');
        proof {
            lemma_failure_lines_take_step(failures@, i as int);
            assert(s@ =~= failure_lines_chars(failures@.take(i + 1)));
        }
    }
    assert(failures@.take(failures@.len() as int) =~= failures@);
    s
}

} // verus!
