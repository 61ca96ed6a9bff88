//! Metadata of the project.
use crate::json::{
    error_view, first_object, first_row_as_object, internal_error, not_found, ErrorReply,
};
use crate::text::opt_str_text;
use vstd::prelude::*;

verus! {

/// The query for the metadata of the project.
pub const PROJECT_SQL: &'static str = "SELECT \
    project_name AS name, \
    project_id, \
    description, \
    dbt_version, \
    adapter_type, \
    git_sha, \
    git_branch, \
    git_is_dirty \
FROM dbt.project LIMIT 1";

/// What is said of a project without metadata.
pub const NO_PROJECT: &'static str = "no project metadata found in dbt.project";

/// The reply for a first row: the row as it is, 404 where there is none, 500 where it
/// could not be read.
pub fn project_reply(row: Result<Option<String>, String>) -> (r: Result<String, ErrorReply>)
    ensures
        match row {
            Ok(Some(object)) => r == Ok::<String, ErrorReply>(object),
            Ok(None) => r matches Err(e) && e@ == error_view(404, NO_PROJECT@),
            Err(msg) => r matches Err(e) && e@ == error_view(500, msg@),
        },
{
    match row {
        Ok(Some(object)) => Ok(object),
        Ok(None) => Err(not_found(NO_PROJECT.to_owned())),
        Err(msg) => Err(internal_error(msg)),
    }
}

/// The metadata of the project as a JSON object, from the JSON array that was written of
/// the rows of the query; `None` where there are no rows.
pub fn finish_get_project(written: Option<&str>) -> (r: Result<String, ErrorReply>)
    ensures
        match first_object(opt_str_text(written)) {
            Ok(Some(object)) => r matches Ok(body) && body@ == object,
            Ok(None) => r matches Err(e) && e@ == error_view(404, NO_PROJECT@),
            Err(msg) => r matches Err(e) && e@ == error_view(500, msg),
        },
{
    project_reply(first_row_as_object(written))
}

} // verus!
