//! What the lists of all resource types have in common.
use crate::json::{bad_request, error_view, ErrorReply, ErrorView};
use crate::pagination::{
    cursor_ref, cursor_sql, cursor_where_fragment, cut_page, decoded, leads_on, overfull, page_info,
    page_info_of, page_of, Cursor, CursorView, PageInfo, SortDir, INVALID_CURSOR,
};
use crate::probe::ListProbe;
use crate::sql::{escape_str, escaped};
use crate::text::{
    as_opt_str, decimal, given, given_text, opt_str_text, same, split_at_first, split_once,
    to_decimal,
};
use vstd::prelude::*;

verus! {

/// A list that can be run: the page size, and the variants of its query.
#[derive(Debug)]
pub struct ListPlan {
    pub first: u32,
    pub probe: ListProbe,
}

// ---------------------------------------------------------------------------
// Cursors
// ---------------------------------------------------------------------------

/// The cursor of `?after`, where it is given and can be read.
pub open spec fn asked_cursor(after: Option<String>) -> Option<CursorView> {
    match given_text(after) {
        Some(s) => decoded(s),
        None => None,
    }
}

/// Whether `?after` is given and cannot be read.
pub open spec fn bad_cursor(after: Option<String>) -> bool {
    given_text(after) is Some && asked_cursor(after) is None
}

/// What a list is refused with, if it is: a cursor that cannot be read comes before
/// any other fault.
pub open spec fn list_refusal(after: Option<String>, fault: Option<Seq<char>>) -> Option<
    ErrorView,
> {
    if bad_cursor(after) {
        Some(error_view(400, INVALID_CURSOR@))
    } else {
        match fault {
            Some(msg) => Some(error_view(400, msg)),
            None => None,
        }
    }
}

/// Read the cursor of `?after`. A tampered cursor is refused.
pub fn read_after(after: &Option<String>) -> (r: Result<Option<Cursor>, ErrorReply>)
    ensures
        match r {
            Ok(cursor) => !bad_cursor(*after) && crate::pagination::opt_cursor(cursor)
                == asked_cursor(*after),
            Err(e) => bad_cursor(*after) && e@ == error_view(400, INVALID_CURSOR@),
        },
{
    match given(after) {
        Some(s) => match Cursor::decode(s) {
            Ok(c) => Ok(Some(c)),
            Err(msg) => Err(bad_request(msg)),
        },
        None => Ok(None),
    }
}

/// A `WHERE` clause that also advances past a cursor, if there is one.
pub open spec fn page_clause(
    filter: Seq<char>,
    sort_expr: Seq<char>,
    uid_expr: Seq<char>,
    dir: SortDir,
    cursor: Option<CursorView>,
) -> Seq<char> {
    match cursor {
        Some(c) => filter + " AND "@ + cursor_sql(sort_expr, uid_expr, dir, c),
        None => filter,
    }
}

/// A `WHERE` clause that also advances past a cursor, if there is one.
pub fn page_where(
    filter: &str,
    sort_expr: &str,
    uid_expr: &str,
    dir: SortDir,
    cursor: Option<&Cursor>,
) -> (r: String)
    ensures
        r@ == page_clause(filter@, sort_expr@, uid_expr@, dir, cursor_ref(cursor)),
{
    let mut r = filter.to_owned();
    if let Some(c) = cursor {
        r.append(" AND ");
        r.append(
            cursor_where_fragment(
                sort_expr,
                uid_expr,
                dir,
                as_opt_str(&c.sort_value),
                c.unique_id.as_str(),
            ).as_str(),
        );
    }
    r
}

/// The order and the limit of a page: one row more than the page holds.
pub open spec fn page_order(
    sort_expr: Seq<char>,
    uid_expr: Seq<char>,
    dir: SortDir,
    first: u32,
) -> Seq<char> {
    " ORDER BY "@ + sort_expr + " "@ + dir.sql() + " NULLS LAST, "@ + uid_expr + " ASC LIMIT "@
        + decimal((first + 1) as nat)
}

/// The order and the limit of a page.
pub fn page_order_sql(sort_expr: &str, uid_expr: &str, dir: SortDir, first: u32) -> (r: String)
    requires
        first < u32::MAX,
    ensures
        r@ == page_order(sort_expr@, uid_expr@, dir, first),
{
    let mut r = " ORDER BY ".to_owned();
    r.append(sort_expr);
    r.append(" ");
    r.append(dir.as_sql());
    r.append(" NULLS LAST, ");
    r.append(uid_expr);
    r.append(" ASC LIMIT ");
    r.append(to_decimal((first + 1) as u64).as_str());
    r
}

// ---------------------------------------------------------------------------
// Sorting by name
// ---------------------------------------------------------------------------

/// The direction of `?sort` on a list that can be sorted by name only: ascending
/// where none is given; or what is wrong with it.
pub open spec fn name_sort(sort: Option<Seq<char>>) -> Result<SortDir, Seq<char>> {
    match sort {
        Some(raw) => if raw.len() == 0 {
            Ok(SortDir::Asc)
        } else {
            match split_at_first(raw, ':') {
                Some((column, dir)) => if dir != "asc"@ && dir != "desc"@ {
                    Err("sort direction must be asc or desc"@)
                } else if column != "name"@ {
                    Err("unknown sort column; only 'name' is supported"@)
                } else if dir == "asc"@ {
                    Ok(SortDir::Asc)
                } else {
                    Ok(SortDir::Desc)
                },
                None => Err("sort must be <column>:<asc|desc>"@),
            }
        },
        None => Ok(SortDir::Asc),
    }
}

/// Parse `?sort` on a list that can be sorted by name only.
pub fn parse_name_sort(sort: Option<&str>) -> (r: Result<(&'static str, SortDir), &'static str>)
    ensures
        match r {
            Ok((column, dir)) => column@ == "name"@ && name_sort(opt_str_text(sort)) == Ok::<
                SortDir,
                Seq<char>,
            >(dir),
            Err(e) => name_sort(opt_str_text(sort)) == Err::<SortDir, Seq<char>>(e@),
        },
{
    let raw = match sort {
        Some(raw) => if raw.is_empty() {
            return Ok(("name", SortDir::Asc));
        } else {
            raw
        },
        None => return Ok(("name", SortDir::Asc)),
    };
    match split_once(raw, ':') {
        Some((column, dir)) => {
            let asc = same(dir.as_str(), "asc");
            if !asc && !same(dir.as_str(), "desc") {
                Err("sort direction must be asc or desc")
            } else if !same(column.as_str(), "name") {
                Err("unknown sort column; only 'name' is supported")
            } else if asc {
                Ok(("name", SortDir::Asc))
            } else {
                Ok(("name", SortDir::Desc))
            }
        },
        None => Err("sort must be <column>:<asc|desc>"),
    }
}

/// What is wrong with `?sort`, if anything is.
pub open spec fn sort_fault(sort: Result<SortDir, Seq<char>>) -> Option<Seq<char>> {
    match sort {
        Ok(_) => None,
        Err(e) => Some(e),
    }
}

// ---------------------------------------------------------------------------
// Pages
// ---------------------------------------------------------------------------

/// A row of a list, which has a cursor.
pub trait Listed: Sized {
    /// The cursor of the row in a list that is sorted by a column.
    spec fn key(self, column: Seq<char>) -> CursorView;

    /// The cursor of the row.
    fn cursor(&self, column: &str) -> (r: Cursor)
        ensures
            r@ == self.key(column@),
    ;
}

/// The cursors of some rows.
pub open spec fn keys<T: Listed>(rows: Seq<T>, column: Seq<char>) -> Seq<CursorView> {
    Seq::new(rows.len(), |i: int| rows[i].key(column))
}

/// The page of a list, from the rows that its query gave.
pub fn finish_page<T: Listed>(rows: Vec<T>, first: u32, total_count: u64, column: &str) -> (r: (
    Vec<T>,
    PageInfo,
))
    ensures
        r.0@ == page_of(rows@, rows.len(), first),
        r.1@ == page_info_of(total_count, keys(r.0@, column@), overfull(rows.len(), first)),
        leads_on(r.1@, keys(r.0@, column@)),
{
    let mut rows = rows;
    let has_next_page = cut_page(&mut rows, first);
    let (first_row, last_row) = if rows.len() > 0 {
        (Some(rows[0].cursor(column)), Some(rows[rows.len() - 1].cursor(column)))
    } else {
        (None, None)
    };
    let info = page_info(total_count, first_row, last_row, has_next_page);
    assert(info@ == page_info_of(total_count, keys(rows@, column@), has_next_page));
    (rows, info)
}

// ---------------------------------------------------------------------------
// Facets
// ---------------------------------------------------------------------------

/// A single facet option. The count is not known today.
#[derive(Debug)]
pub struct FacetValue {
    pub value: String,
    pub count: Option<u64>,
}

impl FacetValue {
    /// A facet option without a count.
    pub fn new(value: String) -> (r: FacetValue)
        ensures
            r.value == value,
            r.count is None,
    {
        FacetValue { value, count: None }
    }
}

/// Whether facet options are some values, in order, without counts.
pub open spec fn are_facets(facets: Seq<FacetValue>, values: Seq<Seq<char>>) -> bool {
    &&& facets.len() == values.len()
    &&& forall|i: int|
        0 <= i < facets.len() ==> (#[trigger] facets[i]).value@ == values[i] && facets[i].count is None
}

/// Facet options of some values.
pub fn facets(values: Vec<String>) -> (r: Vec<FacetValue>)
    ensures
        are_facets(r@, crate::text::texts(values@)),
{
    let mut r: Vec<FacetValue> = Vec::new();
    let ghost all = values@;
    for value in it: values
        invariant
            it.seq() == all,
            r.len() == it.index(),
            forall|i: int|
                0 <= i < r.len() ==> (#[trigger] r@[i]).value == all[i] && r@[i].count is None,
    {
        r.push(FacetValue::new(value));
    }
    r
}

// ---------------------------------------------------------------------------
// Details
// ---------------------------------------------------------------------------

/// A query for a resource with a unique id.
pub open spec fn id_query(head: Seq<char>, id: Seq<char>, tail: Seq<char>) -> Seq<char> {
    head + escaped(id) + tail
}

/// A query for a resource with a unique id.
pub fn id_sql(head: &str, id: &str, tail: &str) -> (r: String)
    ensures
        r@ == id_query(head@, id@, tail@),
{
    let mut r = head.to_owned();
    r.append(escape_str(id).as_str());
    r.append(tail);
    r
}

pub const UPSTREAM_HEAD: &'static str = "SELECT parent_unique_id AS unique_id, edge_type \
     FROM dbt.edges WHERE child_unique_id = '";

pub const UPSTREAM_TAIL: &'static str = "' ORDER BY parent_unique_id";

pub const DOWNSTREAM_HEAD: &'static str = "SELECT child_unique_id AS unique_id, edge_type \
     FROM dbt.edges WHERE parent_unique_id = '";

pub const DOWNSTREAM_TAIL: &'static str = "' ORDER BY child_unique_id";

pub const RUN_RESULT_HEAD: &'static str = "SELECT status, \
     execution_time, \
     CAST(created_at AS VARCHAR) AS completed_at \
     FROM dbt_rt.run_results \
     WHERE unique_id = '";

pub const RUN_RESULT_TAIL: &'static str = "' ORDER BY created_at DESC LIMIT 1";

pub const COLUMNS_HEAD: &'static str = "SELECT column_name AS name, column_index AS index, \
     data_type, declared_type, inferred_type, catalog_type, \
     description, label, granularity \
     FROM dbt.node_columns WHERE unique_id = '";

pub const COLUMNS_TAIL: &'static str = "' ORDER BY column_index NULLS LAST, column_name";

pub const CATALOG_HEAD: &'static str = "SELECT table_type AS type, \
     table_owner AS owner, \
     NULL::BIGINT AS bytes_stat, \
     NULL::BIGINT AS row_count_stat \
     FROM dbt.catalog_tables \
     WHERE unique_id = '";

pub const LIMIT_ONE: &'static str = "' LIMIT 1";

/// What is said of a resource that is not there.
pub open spec fn not_found_text(noun: Seq<char>, id: Seq<char>) -> Seq<char> {
    noun + " "@ + id + " not found"@
}

/// 404 for a resource that is not there.
pub fn resource_not_found(noun: &str, id: &str) -> (r: ErrorReply)
    ensures
        r@ == error_view(404, not_found_text(noun@, id@)),
{
    let mut msg = noun.to_owned();
    msg.append(" ");
    msg.append(id);
    msg.append(" not found");
    crate::json::not_found(msg)
}

} // verus!
