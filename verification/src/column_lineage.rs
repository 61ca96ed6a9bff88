//! Column-level lineage: the direct edges that touch any column of a node.
//!
//! Whether column lineage is there at all depends on the distribution and on the
//! artifacts; where it is not, the reply says how to get it.
use crate::encoding::fields_view;
use crate::json::{check_unique_id, error_view, internal_error, valid_id, ErrorReply, ErrorView};
use vstd::prelude::*;

verus! {

/// A request for column lineage.
#[derive(Debug)]
pub struct ColumnLineageArgs {
    pub unique_id: String,
    pub column: Option<String>,
    pub upstream: bool,
    pub downstream: bool,
}

/// An edge between two columns.
#[derive(Debug)]
pub struct ColumnEdge {
    pub from_node: String,
    pub from_column: String,
    pub to_node: String,
    pub to_column: String,
    pub kind: String,
}

/// Why there is no column lineage.
#[derive(Debug)]
pub enum LineageError {
    /// Not in this distribution, or not with these artifacts.
    NotAvailable,
    NodeNotFound(String),
    ColumnNotFound { node: String, column: String, available: Vec<String> },
    Backend(String),
}

/// Column lineage of a node.
#[derive(Debug)]
pub struct ColumnLineageResponse {
    pub root: String,
    pub edges: Vec<ColumnEdge>,
}

/// A reply without column lineage: an error, and the columns that there are where the
/// one asked for is not among them.
#[derive(Debug)]
pub struct ColumnLineageRefusal {
    pub error: ErrorReply,
    pub available_columns: Option<Vec<String>>,
}

pub const UNAVAILABLE: &'static str =
    "Column-level lineage is not available in this distribution + artifact set.";

pub const UPGRADE_PATH: &'static str = "Run `dbt --use-index <run|build|compile>` with static analysis enabled, in a distribution that ships the column-lineage provider.";

/// 412 with how to get column lineage. The code tells clients how to show it.
pub open spec fn unavailable_view() -> ErrorView {
    ErrorView {
        status: 412,
        fields: seq![
            ("code"@, "column_lineage_unavailable"@),
            ("message"@, UNAVAILABLE@),
            ("upgrade_path"@, UPGRADE_PATH@),
        ],
    }
}

/// 404 with a code and a message.
pub open spec fn absent_view(code: Seq<char>, message: Seq<char>) -> ErrorView {
    ErrorView { status: 404, fields: seq![("code"@, code), ("message"@, message)] }
}

/// What is replied to an error.
pub open spec fn refusal_view(e: LineageError) -> ErrorView {
    match e {
        LineageError::NotAvailable => unavailable_view(),
        LineageError::NodeNotFound(id) => absent_view(
            "node_not_found"@,
            "node "@ + id@ + " not found"@,
        ),
        LineageError::ColumnNotFound { node, column, .. } => absent_view(
            "column_not_found"@,
            "column '"@ + column@ + "' not found in lineage for node '"@ + node@ + "'"@,
        ),
        LineageError::Backend(msg) => error_view(500, msg@),
    }
}

/// Check the unique id of a node and make the request for its column lineage: all its
/// columns, one hop.
pub fn plan_get_column_lineage(unique_id: &str) -> (r: Result<ColumnLineageArgs, ErrorReply>)
    ensures
        match r {
            Ok(args) => {
                &&& valid_id(unique_id@)
                &&& args.unique_id@ == unique_id@
                &&& args.column is None
                &&& !args.upstream
                &&& !args.downstream
            },
            Err(e) => !valid_id(unique_id@) && e@ == error_view(400, "invalid unique_id"@),
        },
{
    match check_unique_id(unique_id) {
        Ok(_) => Ok(
            ColumnLineageArgs {
                unique_id: unique_id.to_owned(),
                column: None,
                upstream: false,
                downstream: false,
            },
        ),
        Err(e) => Err(e),
    }
}

/// 412 with how to get column lineage.
pub fn unavailable_response() -> (r: ErrorReply)
    ensures
        r@ == unavailable_view(),
{
    let mut fields: Vec<(String, String)> = Vec::new();
    fields.push(("code".to_owned(), "column_lineage_unavailable".to_owned()));
    fields.push(("message".to_owned(), UNAVAILABLE.to_owned()));
    fields.push(("upgrade_path".to_owned(), UPGRADE_PATH.to_owned()));
    assert(fields_view(fields@) =~= unavailable_view().fields);
    ErrorReply { status: 412, fields }
}

fn absent(code: &str, message: String) -> (r: ErrorReply)
    ensures
        r@ == absent_view(code@, message@),
{
    let mut fields: Vec<(String, String)> = Vec::new();
    fields.push(("code".to_owned(), code.to_owned()));
    fields.push(("message".to_owned(), message));
    assert(fields_view(fields@) =~= absent_view(code@, message@).fields);
    ErrorReply { status: 404, fields }
}

/// The reply to a request for column lineage, from what came of it.
pub fn finish_get_column_lineage(
    unique_id: &str,
    found: Result<Vec<ColumnEdge>, LineageError>,
) -> (r: Result<ColumnLineageResponse, ColumnLineageRefusal>)
    ensures
        match found {
            Ok(edges) => r matches Ok(lineage) && lineage.root@ == unique_id@ && lineage.edges
                == edges,
            Err(e) => r matches Err(refusal) && refusal.error@ == refusal_view(e)
                && refusal.available_columns == (match e {
                LineageError::ColumnNotFound { available, .. } => Some(available),
                _ => None,
            }),
        },
{
    match found {
        Ok(edges) => Ok(ColumnLineageResponse { root: unique_id.to_owned(), edges }),
        Err(LineageError::NotAvailable) => Err(
            ColumnLineageRefusal { error: unavailable_response(), available_columns: None },
        ),
        Err(LineageError::NodeNotFound(id)) => {
            let mut message = "node ".to_owned();
            message.append(id.as_str());
            message.append(" not found");
            Err(
                ColumnLineageRefusal {
                    error: absent("node_not_found", message),
                    available_columns: None,
                },
            )
        },
        Err(LineageError::ColumnNotFound { node, column, available }) => {
            let mut message = "column '".to_owned();
            message.append(column.as_str());
            message.append("' not found in lineage for node '");
            message.append(node.as_str());
            message.append("'");
            Err(
                ColumnLineageRefusal {
                    error: absent("column_not_found", message),
                    available_columns: Some(available),
                },
            )
        },
        Err(LineageError::Backend(msg)) => Err(
            ColumnLineageRefusal { error: internal_error(msg), available_columns: None },
        ),
    }
}

} // verus!
