//! Materializing: every symlink under a directory is replaced by a copy of
//! what it points to, and the replacements and failures are reported.
use vstd::prelude::*;
use crate::commands::link::Linker;
use crate::models::link::{results_view, FileProcessResult, FileProcessResultView};

verus! {

/// Whether an outcome is reported after materializing.
pub open spec fn is_reported(r: FileProcessResultView) -> bool {
    r is Materialized || r is Error
}

/// The outcomes that are reported, in order.
pub open spec fn reported_outcomes(rs: Seq<FileProcessResultView>) -> Seq<FileProcessResultView>
    decreases rs.len(),
{
    if rs.len() == 0 {
        Seq::empty()
    } else {
        let prev = reported_outcomes(rs.drop_last());
        if is_reported(rs.last()) {
            prev.push(rs.last())
        } else {
            prev
        }
    }
}

/// Materializes the symlinks of a directory tree.
pub struct Materializer {
    linker: Linker,
}

impl Materializer {
    /// The linker the materializer holds.
    pub closed spec fn held_linker(&self) -> Linker {
        self.linker
    }

    pub fn new(linker: Linker) -> (res: Self)
        ensures
            res.held_linker() == linker,
    {
        Materializer { linker }
    }

    /// The linker that walks the tree.
    pub fn linker(&self) -> (res: &Linker)
        ensures
            *res == self.held_linker(),
    {
        &self.linker
    }

    /// The outcomes of a materialize run that are shown: the materialized
    /// symlinks and the failures, in order.
    pub fn reported(&self, results: Vec<FileProcessResult>) -> (res: Vec<FileProcessResult>)
        ensures
            results_view(res@) == reported_outcomes(results_view(results@)),
    {
        let ghost rv = results_view(results@);
        let mut rest = results;
        let mut out: Vec<FileProcessResult> = Vec::new();
        let ghost mut i: int = 0;
        assert(rv.skip(0) =~= rv);
        while rest.len() > 0
            invariant
                0 <= i <= rv.len(),
                results_view(rest@) == rv.skip(i),
                results_view(out@) == reported_outcomes(rv.take(i)),
            decreases rest@.len(),
        {
            let ghost before = results_view(out@);
            let ghost rest_before = rest@;
            assert(results_view(rest_before).len() == rest_before.len());
            assert(i < rv.len());
            let r = rest.remove(0);
            proof {
                assert(results_view(rest_before)[0] == r@);
                assert(rv.skip(i)[0] == rv[i]);
                assert(rv.take(i + 1).drop_last() =~= rv.take(i));
                assert(rv.take(i + 1).last() == r@);
                assert(rest@ =~= rest_before.subrange(1, rest_before.len() as int));
                assert forall|k: int| 0 <= k < rest@.len() implies #[trigger] results_view(rest@)[k]
                    == rv.skip(i + 1)[k] by {
                    assert(rest@[k] == rest_before[k + 1]);
                    assert(results_view(rest_before)[k + 1] == rv.skip(i)[k + 1]);
                }
                assert(results_view(rest@) =~= rv.skip(i + 1));
            }
            let keep = match &r {
                FileProcessResult::Materialized(_, _) => true,
                FileProcessResult::Error(_) => true,
                _ => false,
            };
            if keep {
                out.push(r);
                assert(results_view(out@) =~= before.push(rv[i]));
            }
            proof {
                i = i + 1;
            }
        }
        assert(results_view(rest@).len() == rest@.len());
        assert(rv.skip(i).len() == 0);
        assert(rv.take(i) =~= rv);
        out
    }
}

} // verus!
