//! What the command-line commands decide around the services they call:
//! where a link or load run puts its files, and the lines that report a
//! link or materialize run.
use vstd::prelude::*;
use crate::constants::TEST_HOME_DIR;
use crate::models::link::{results_view, FileProcessResult, FileProcessResultView};
use crate::models::path::{join, path_join};
use crate::text::{concat_str, strings_view};

verus! {

/// Where a link or load run puts its files: the home directory, or its
/// test directory when testing.
pub open spec fn spec_execution_target(home: Seq<char>, test: bool) -> Seq<char> {
    if test {
        path_join(home, TEST_HOME_DIR@)
    } else {
        home
    }
}

pub fn execution_target(home: &str, test: bool) -> (res: String)
    ensures
        res@ == spec_execution_target(home@, test),
{
    if test {
        join(home, TEST_HOME_DIR)
    } else {
        String::from_str(home)
    }
}

/// The line that reports one outcome of a link run; materialized paths and
/// failures get none.
pub open spec fn link_report_line(r: FileProcessResultView) -> Option<Seq<char>> {
    match r {
        FileProcessResultView::Linked(s, d) => Some("Linked: "@ + s + " -> "@ + d),
        FileProcessResultView::Created(p) => Some("Created directory: "@ + p),
        FileProcessResultView::Skipped(p) => Some("Skipped: "@ + p),
        _ => None,
    }
}

/// The line that reports one outcome of a materialize run; only the
/// materialized paths get one.
pub open spec fn materialize_report_line(r: FileProcessResultView) -> Option<Seq<char>> {
    match r {
        FileProcessResultView::Materialized(p, t) => Some(
            "Materialized: "@ + p + " (was linked to "@ + t + ")"@,
        ),
        _ => None,
    }
}

/// The report lines of a run, in order: one for each outcome that has one.
pub open spec fn report_lines(
    rs: Seq<FileProcessResultView>,
    line: spec_fn(FileProcessResultView) -> Option<Seq<char>>,
) -> Seq<Seq<char>>
    decreases rs.len(),
{
    if rs.len() == 0 {
        Seq::empty()
    } else {
        let prev = report_lines(rs.drop_last(), line);
        match line(rs.last()) {
            Some(l) => prev.push(l),
            None => prev,
        }
    }
}

fn link_line(r: &FileProcessResult) -> (res: Option<String>)
    ensures
        crate::models::path::opt_string_view(res) == link_report_line(r@),
{
    match r {
        FileProcessResult::Linked(s, d) => {
            let a = concat_str("Linked: ", s.as_str());
            let b = concat_str(a.as_str(), " -> ");
            let c = concat_str(b.as_str(), d.as_str());
            Some(c)
        },
        FileProcessResult::Created(p) => Some(concat_str("Created directory: ", p.as_str())),
        FileProcessResult::Skipped(p) => Some(concat_str("Skipped: ", p.as_str())),
        _ => None,
    }
}

fn materialize_line(r: &FileProcessResult) -> (res: Option<String>)
    ensures
        crate::models::path::opt_string_view(res) == materialize_report_line(r@),
{
    match r {
        FileProcessResult::Materialized(p, t) => {
            let a = concat_str("Materialized: ", p.as_str());
            let b = concat_str(a.as_str(), " (was linked to ");
            let c = concat_str(b.as_str(), t.as_str());
            Some(concat_str(c.as_str(), ")"))
        },
        _ => None,
    }
}

/// The lines that report a link run.
pub fn link_report(results: &Vec<FileProcessResult>) -> (res: Vec<String>)
    ensures
        strings_view(res@) == report_lines(
            results_view(results@),
            |r: FileProcessResultView| link_report_line(r),
        ),
{
    let ghost rv = results_view(results@);
    let ghost f = |r: FileProcessResultView| link_report_line(r);
    let mut out: Vec<String> = Vec::new();
    let mut i: usize = 0;
    while i < results.len()
        invariant
            rv == results_view(results@),
            f == (|r: FileProcessResultView| link_report_line(r)),
            i <= results@.len(),
            strings_view(out@) == report_lines(rv.take(i as int), f),
        decreases results@.len() - i,
    {
        assert(rv.take(i + 1).drop_last() =~= rv.take(i as int));
        assert(rv.take(i + 1).last() == results@[i as int]@);
        let ghost before = strings_view(out@);
        match link_line(&results[i]) {
            Some(l) => {
                out.push(l);
                assert(strings_view(out@) =~= before.push(out@.last()@));
            },
            None => {},
        }
        i = i + 1;
    }
    assert(rv.take(results@.len() as int) =~= rv);
    out
}

/// The lines that report a materialize run.
pub fn materialize_report(results: &Vec<FileProcessResult>) -> (res: Vec<String>)
    ensures
        strings_view(res@) == report_lines(
            results_view(results@),
            |r: FileProcessResultView| materialize_report_line(r),
        ),
{
    let ghost rv = results_view(results@);
    let ghost f = |r: FileProcessResultView| materialize_report_line(r);
    let mut out: Vec<String> = Vec::new();
    let mut i: usize = 0;
    while i < results.len()
        invariant
            rv == results_view(results@),
            f == (|r: FileProcessResultView| materialize_report_line(r)),
            i <= results@.len(),
            strings_view(out@) == report_lines(rv.take(i as int), f),
        decreases results@.len() - i,
    {
        assert(rv.take(i + 1).drop_last() =~= rv.take(i as int));
        assert(rv.take(i + 1).last() == results@[i as int]@);
        let ghost before = strings_view(out@);
        match materialize_line(&results[i]) {
            Some(l) => {
                out.push(l);
                assert(strings_view(out@) =~= before.push(out@.last()@));
            },
            None => {},
        }
        i = i + 1;
    }
    assert(rv.take(results@.len() as int) =~= rv);
    out
}

} // verus!
