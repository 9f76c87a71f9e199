//! What a link or materialize run did with each path.
use vstd::prelude::*;
use crate::error::AppError;

verus! {

/// The outcome for one path of a link or materialize run.
#[derive(Debug, Clone)]
pub enum FileProcessResult {
    /// A symlink was made: the source and the link.
    Linked(String, String),
    /// A directory was created.
    Created(String),
    /// A symlink was replaced by a copy of its target: the link and the target.
    Materialized(String, String),
    /// The path was left alone.
    Skipped(String),
    /// The path could not be processed; the error says why.
    Error(AppError),
}

/// The mathematical value of an outcome.
pub enum FileProcessResultView {
    Linked(Seq<char>, Seq<char>),
    Created(Seq<char>),
    Materialized(Seq<char>, Seq<char>),
    Skipped(Seq<char>),
    Error(AppError),
}

impl View for FileProcessResult {
    type V = FileProcessResultView;

    open spec fn view(&self) -> FileProcessResultView {
        match self {
            FileProcessResult::Linked(a, b) => FileProcessResultView::Linked(a@, b@),
            FileProcessResult::Created(a) => FileProcessResultView::Created(a@),
            FileProcessResult::Materialized(a, b) => FileProcessResultView::Materialized(a@, b@),
            FileProcessResult::Skipped(a) => FileProcessResultView::Skipped(a@),
            FileProcessResult::Error(e) => FileProcessResultView::Error(*e),
        }
    }
}

/// The views of a list of outcomes.
pub open spec fn results_view(v: Seq<FileProcessResult>) -> Seq<FileProcessResultView> {
    v.map_values(|r: FileProcessResult| r@)
}

} // verus!
