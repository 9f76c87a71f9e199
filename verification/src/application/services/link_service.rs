//! Linking dotfiles into a target directory and reporting on every file
//! that the target directory holds.
use vstd::prelude::*;
use crate::text::strings_view;
use crate::models::link::{results_view, FileProcessResult, FileProcessResultView};
use crate::models::path::{path_components, paths_equal};

verus! {

/// An outcome reports on `p` when it links to `p` or skips `p`.
pub open spec fn reports_on(r: FileProcessResultView, p: Seq<char>) -> bool {
    match r {
        FileProcessResultView::Linked(_, dst) => path_components(dst) == path_components(p),
        FileProcessResultView::Skipped(dst) => path_components(dst) == path_components(p),
        _ => false,
    }
}

/// Some outcome of the list reports on `p`.
pub open spec fn reported(rs: Seq<FileProcessResultView>, p: Seq<char>) -> bool {
    exists|i: int| 0 <= i < rs.len() && reports_on(#[trigger] rs[i], p)
}

/// The report of a link run completed with the entries of the target
/// directory, taken in order: an entry that no outcome reports on yet is
/// added as skipped.
pub open spec fn spec_add_target_entries(
    rs: Seq<FileProcessResultView>,
    entries: Seq<Seq<char>>,
) -> Seq<FileProcessResultView>
    decreases entries.len(),
{
    if entries.len() == 0 {
        rs
    } else {
        let prev = spec_add_target_entries(rs, entries.drop_last());
        if reported(prev, entries.last()) {
            prev
        } else {
            prev.push(FileProcessResultView::Skipped(entries.last()))
        }
    }
}

fn is_reported(rs: &Vec<FileProcessResult>, p: &str) -> (res: bool)
    ensures
        res == reported(results_view(rs@), p@),
{
    let ghost rv = results_view(rs@);
    let mut i: usize = 0;
    while i < rs.len()
        invariant
            rv == results_view(rs@),
            i <= rs@.len(),
            forall|j: int| 0 <= j < i ==> !reports_on(#[trigger] rv[j], p@),
        decreases rs@.len() - i,
    {
        assert(rv[i as int] == rs@[i as int]@);
        let hit = match &rs[i] {
            FileProcessResult::Linked(_, dst) => paths_equal(dst.as_str(), p),
            FileProcessResult::Skipped(dst) => paths_equal(dst.as_str(), p),
            _ => false,
        };
        if hit {
            return true;
        }
        i = i + 1;
    }
    false
}

/// Adds every entry of the target directory that the report of a link run
/// does not mention yet, as skipped.
pub fn add_target_entries(results: Vec<FileProcessResult>, entries: &Vec<String>) -> (res: Vec<
    FileProcessResult,
>)
    ensures
        results_view(res@) == spec_add_target_entries(results_view(results@), strings_view(entries@)),
{
    let ghost start = results_view(results@);
    let ghost ev = strings_view(entries@);
    let mut res = results;
    let mut k: usize = 0;
    assert(ev.take(0) =~= Seq::<Seq<char>>::empty());
    while k < entries.len()
        invariant
            ev == strings_view(entries@),
            k <= entries@.len(),
            results_view(res@) == spec_add_target_entries(start, ev.take(k as int)),
        decreases entries@.len() - k,
    {
        assert(ev.take(k + 1).drop_last() =~= ev.take(k as int));
        assert(ev.take(k + 1).last() == entries@[k as int]@);
        let path = entries[k].as_str();
        if !is_reported(&res, path) {
            let ghost before = results_view(res@);
            res.push(FileProcessResult::Skipped(entries[k].clone()));
            assert(results_view(res@) =~= before.push(FileProcessResultView::Skipped(path@)));
        }
        k = k + 1;
    }
    assert(ev.take(entries@.len() as int) =~= ev);
    res
}

/// Completing a report keeps every outcome it had, in order, and reports on
/// every entry of the target directory.
pub proof fn lemma_add_target_entries_reports_all(
    rs: Seq<FileProcessResultView>,
    entries: Seq<Seq<char>>,
)
    ensures
        rs.is_prefix_of(spec_add_target_entries(rs, entries)),
        forall|k: int|
            0 <= k < entries.len() ==> reported(spec_add_target_entries(rs, entries), #[trigger] entries[k]),
    decreases entries.len(),
{
    if entries.len() > 0 {
        let init = entries.drop_last();
        lemma_add_target_entries_reports_all(rs, init);
        let prev = spec_add_target_entries(rs, init);
        let out = spec_add_target_entries(rs, entries);
        assert(prev.is_prefix_of(out));
        assert forall|k: int| 0 <= k < entries.len() implies reported(out, #[trigger] entries[k]) by {
            if k < entries.len() - 1 {
                assert(entries[k] == init[k]);
                assert(reported(prev, init[k]));
                let i = choose|i: int| 0 <= i < prev.len() && reports_on(#[trigger] prev[i], init[k]);
                assert(out[i] == prev[i]);
            } else {
                if !reported(prev, entries.last()) {
                    assert(reports_on(out[prev.len() as int], entries.last()));
                }
            }
        }
    }
}

} // verus!
