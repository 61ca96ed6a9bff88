//! What the details of all resource types have in common.
use crate::table::{
    all_wf, are_rows, find_filled, first_filled, read_rows, readable, Batch, FromRow,
};
use vstd::prelude::*;

verus! {

/// Fields common to every resource type's detail response.
#[derive(Debug)]
pub struct NodeBase {
    pub unique_id: String,
    pub name: String,
    pub resource_type: String,
    pub package_name: Option<String>,
    pub description: Option<String>,
    pub original_file_path: Option<String>,
}

/// Per-resource last-run snapshot.
#[derive(Debug)]
pub struct ExecutionInfo {
    pub status: Option<String>,
    /// Seconds in floating point, as the bits of the 64-bit form.
    pub execution_time: Option<u64>,
    pub completed_at: Option<String>,
}

/// One inline edge in a detail response's `depends_on` / `referenced_by`.
#[derive(Debug)]
pub struct EdgeRef {
    pub unique_id: String,
    pub edge_type: String,
}

/// The list in the first row of a column; empty where there is no row, no such
/// column of lists of strings, or the cell is null.
pub open spec fn first_list(batch: Batch, name: Seq<char>) -> Seq<String> {
    if batch.num_rows == 0 {
        Seq::empty()
    } else {
        match batch.opt_list(name, 0) {
            Some(items) => items,
            None => Seq::empty(),
        }
    }
}

/// Extract the list in the first row of a column. A missing column gives an empty
/// list, not an error.
pub fn extract_str_list(batch: &Batch, col_name: &str) -> (r: Vec<String>)
    requires
        batch.wf(),
    ensures
        r@ == first_list(*batch, col_name@),
{
    if batch.num_rows == 0 {
        return Vec::new();
    }
    match batch.get_opt_list(col_name, 0) {
        Some(items) => items,
        None => Vec::new(),
    }
}

impl FromRow for EdgeRef {
    open spec fn columns() -> Seq<Seq<char>> {
        seq!["unique_id"@, "edge_type"@]
    }

    open spec fn flags() -> Seq<Seq<char>> {
        Seq::empty()
    }

    open spec fn is_row(self, batch: Batch, row: int) -> bool {
        self.unique_id == batch.text("unique_id"@, row) && self.edge_type == batch.text(
            "edge_type"@,
            row,
        )
    }

    fn from_row(batch: &Batch, row: usize) -> (r: EdgeRef) {
        assert(Self::columns()[0] == "unique_id"@);
        assert(Self::columns()[1] == "edge_type"@);
        EdgeRef {
            unique_id: batch.get_text("unique_id", row),
            edge_type: batch.get_text("edge_type", row),
        }
    }
}

/// Extract all rows of an edges query.
pub fn extract_edge_refs(batches: &Vec<Batch>) -> (r: Vec<EdgeRef>)
    requires
        readable::<EdgeRef>(batches@),
    ensures
        are_rows(r@, batches@),
{
    read_rows(batches)
}

/// Whether the last run is that of the first row, if there is one.
pub open spec fn is_execution_info(r: Option<ExecutionInfo>, batches: Seq<Batch>) -> bool {
    match first_filled(batches) {
        Some(batch) => r matches Some(info) && info.status == batch.opt_text("status"@, 0)
            && info.execution_time == batch.opt_f64("execution_time"@, 0) && info.completed_at
            == batch.opt_text("completed_at"@, 0),
        None => r is None,
    }
}

/// Extract the first row of a run results query. `None` when no row is present.
pub fn extract_execution_info(batches: &Vec<Batch>) -> (r: Option<ExecutionInfo>)
    requires
        all_wf(batches@),
    ensures
        is_execution_info(r, batches@),
{
    match find_filled(batches) {
        Some(batch) => Some(
            ExecutionInfo {
                status: batch.get_opt_text("status", 0),
                execution_time: batch.get_opt_f64("execution_time", 0),
                completed_at: batch.get_opt_text("completed_at", 0),
            },
        ),
        None => None,
    }
}

/// The batches of a query that may have failed are well-formed.
pub open spec fn opt_wf(batches: Option<Vec<Batch>>) -> bool {
    batches matches Some(b) ==> all_wf(b@)
}

/// Whether the last run is that of a query that may have failed: none where it did.
pub open spec fn is_last_run(r: Option<ExecutionInfo>, batches: Option<Vec<Batch>>) -> bool {
    match batches {
        Some(batches) => is_execution_info(r, batches@),
        None => r is None,
    }
}

/// The last run of a resource, from a query that may have failed: the view is absent
/// when the project was never run.
pub fn last_run(batches: &Option<Vec<Batch>>) -> (r: Option<ExecutionInfo>)
    requires
        opt_wf(*batches),
    ensures
        is_last_run(r, *batches),
{
    match batches {
        Some(batches) => extract_execution_info(batches),
        None => None,
    }
}

/// A string, or the empty one.
pub open spec fn text_or_empty(s: Option<String>) -> Seq<char> {
    match s {
        Some(s) => s@,
        None => Seq::empty(),
    }
}

/// A string, or the empty one.
pub fn or_empty(s: Option<String>) -> (r: String)
    ensures
        r@ == text_or_empty(s),
{
    match s {
        Some(s) => s,
        None => String::new(),
    }
}

} // verus!
