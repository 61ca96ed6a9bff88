//! The list of saved queries and the detail of a saved query.
//!
//! What a saved query depends on stands in its own row; the type of each edge is the
//! prefix of the unique id.
use crate::detail_laws::{
    lemma_children_query, lemma_saved_query_query, reads_children, reads_saved_query,
};
use crate::encoding::JsonNode;
use crate::json::{
    check_unique_id, error_view, json_parse_or_null, parsed_or_null, valid_id, ErrorReply,
};
use crate::list_laws::{lemma_saved_query_list, lists_saved_query};
use crate::listing::{
    asked_cursor, finish_page, id_query, id_sql, keys, list_refusal, name_sort, not_found_text,
    page_clause, page_order, page_order_sql, page_where, parse_name_sort, read_after,
    resource_not_found, sort_fault, ListPlan, Listed, DOWNSTREAM_HEAD, DOWNSTREAM_TAIL, LIMIT_ONE,
};
use crate::node_base::{
    extract_edge_refs, extract_str_list, first_list, or_empty, text_or_empty, EdgeRef, NodeBase,
};
use crate::pagination::{
    clamp_first, clamped, cursor_ref, leads_on, overfull, page_info_of, page_of, Cursor, CursorView,
    PageInfo, SortDir, DEFAULT_PAGE_SIZE, MAX_PAGE_SIZE,
};
use crate::seeds::batches_or_none;
use crate::probe::{ListProbe, ListQuery, NO_COUNT};
use crate::table::{
    all_wf, are_rows, find_filled, first_filled, list_col_at, list_or_empty, read_rows, readable,
    Batch, FromRow,
};
use crate::text::{as_opt_str, opt_str_text, opt_text, split_at_first, split_once};
use vstd::prelude::*;

verus! {

// ---------------------------------------------------------------------------
// The detail of a saved query
// ---------------------------------------------------------------------------

/// The detail of a saved query.
#[derive(Debug)]
pub struct SavedQueryDetail {
    pub base: NodeBase,
    /// Display label.
    pub label: Option<String>,
    /// Project-relative path of the file that holds the saved query.
    pub file_path: Option<String>,
    pub fqn: Vec<String>,
    pub tags: Vec<String>,
    pub group_name: Option<String>,
    /// Epoch seconds in floating point, as the bits of the 64-bit form.
    pub created_at: Option<u64>,
    /// Parsed JSON, or null when absent / unparseable.
    pub query_params: JsonNode,
    /// Parsed JSON, or null when absent / unparseable.
    pub exports: JsonNode,
    /// Upstream resources.
    pub depends_on: Vec<EdgeRef>,
    /// Downstream consumers.
    pub referenced_by: Vec<EdgeRef>,
}

/// The part of a unique id before the first dot; the whole where there is none.
pub open spec fn prefix_type(id: Seq<char>) -> Seq<char> {
    match split_at_first(id, '.') {
        Some((prefix, _)) => prefix,
        None => id,
    }
}

/// Map a unique id like `metric.jaffle_shop.revenue` to its leading part. An id
/// without a dot is its own type.
pub fn edge_type_from_prefix(unique_id: &str) -> (r: String)
    ensures
        r@ == prefix_type(unique_id@),
{
    match split_once(unique_id, '.') {
        Some((prefix, _)) => prefix,
        None => unique_id.to_owned(),
    }
}

/// Whether edges are those to some resources, in order, each typed by its prefix.
pub open spec fn are_prefix_edges(edges: Seq<EdgeRef>, ids: Seq<String>) -> bool {
    &&& edges.len() == ids.len()
    &&& forall|i: int|
        0 <= i < edges.len() ==> (#[trigger] edges[i]).unique_id == ids[i] && edges[i].edge_type@
            == prefix_type(ids[i]@)
}

fn prefix_edges(ids: Vec<String>) -> (r: Vec<EdgeRef>)
    ensures
        are_prefix_edges(r@, ids@),
{
    let mut r: Vec<EdgeRef> = Vec::new();
    let ghost all = ids@;
    for unique_id in it: ids
        invariant
            it.seq() == all,
            r.len() == it.index(),
            forall|i: int|
                0 <= i < r.len() ==> (#[trigger] r@[i]).unique_id == all[i] && r@[i].edge_type@
                    == prefix_type(all[i]@),
    {
        let edge_type = edge_type_from_prefix(unique_id.as_str());
        r.push(EdgeRef { unique_id, edge_type });
    }
    r
}

/// Whether the own fields of a detail are those of the first row of a batch.
pub open spec fn is_saved_query_detail(d: SavedQueryDetail, batch: Batch) -> bool {
    &&& d.base.unique_id@ == text_or_empty(batch.opt_text("unique_id"@, 0))
    &&& d.base.name@ == text_or_empty(batch.opt_text("name"@, 0))
    &&& d.base.resource_type@ == "saved_query"@
    &&& d.base.package_name == batch.opt_text("package_name"@, 0)
    &&& d.base.description == batch.opt_text("description"@, 0)
    &&& d.base.original_file_path == batch.opt_text("original_file_path"@, 0)
    &&& d.label == batch.opt_text("label"@, 0)
    &&& d.file_path == batch.opt_text("file_path"@, 0)
    &&& d.fqn@ == first_list(batch, "fqn"@)
    &&& d.tags@ == first_list(batch, "tags"@)
    &&& d.group_name == batch.opt_text("group_name"@, 0)
    &&& d.created_at == batch.opt_f64("created_at"@, 0)
    &&& d.query_params@ == parsed_or_null(opt_text(batch.opt_text("query_params"@, 0)))
    &&& d.exports@ == parsed_or_null(opt_text(batch.opt_text("exports"@, 0)))
    &&& are_prefix_edges(d.depends_on@, first_list(batch, "depends_on_nodes"@))
}

/// Extract the own fields of a saved query; downstream is left empty.
pub fn extract_saved_query_detail(batches: &Vec<Batch>) -> (r: Option<SavedQueryDetail>)
    requires
        all_wf(batches@),
    ensures
        match first_filled(batches@) {
            Some(batch) => r matches Some(d) && is_saved_query_detail(d, batch) && d.referenced_by@.len() == 0,
            None => r is None,
        },
{
    match find_filled(batches) {
        Some(batch) => Some(
            SavedQueryDetail {
                base: NodeBase {
                    unique_id: or_empty(batch.get_opt_text("unique_id", 0)),
                    name: or_empty(batch.get_opt_text("name", 0)),
                    resource_type: "saved_query".to_owned(),
                    package_name: batch.get_opt_text("package_name", 0),
                    description: batch.get_opt_text("description", 0),
                    original_file_path: batch.get_opt_text("original_file_path", 0),
                },
                label: batch.get_opt_text("label", 0),
                file_path: batch.get_opt_text("file_path", 0),
                fqn: extract_str_list(batch, "fqn"),
                tags: extract_str_list(batch, "tags"),
                group_name: batch.get_opt_text("group_name", 0),
                created_at: batch.get_opt_f64("created_at", 0),
                query_params: json_parse_or_null(as_opt_str(&batch.get_opt_text("query_params", 0))),
                exports: json_parse_or_null(as_opt_str(&batch.get_opt_text("exports", 0))),
                depends_on: prefix_edges(extract_str_list(batch, "depends_on_nodes")),
                referenced_by: Vec::new(),
            },
        ),
        None => None,
    }
}

pub const SAVED_QUERY_NODE_HEAD: &'static str =
    "SELECT unique_id, name, label, description, package_name, \
     original_file_path, file_path, \
     fqn, tags, group_name, created_at, \
     query_params, exports, depends_on_nodes \
     FROM dbt.saved_queries \
     WHERE unique_id = '";

/// The queries for the detail of a saved query. The second is of a view that may be
/// absent.
#[derive(Debug)]
pub struct SavedQueryQueries {
    pub node: String,
    pub downstream: String,
}

/// Check the unique id of a saved query and build the queries for its detail.
pub fn plan_get_saved_query(unique_id: &str) -> (r: Result<SavedQueryQueries, ErrorReply>)
    ensures
        match r {
            Ok(q) => {
                &&& valid_id(unique_id@)
                &&& q.node@ == id_query(SAVED_QUERY_NODE_HEAD@, unique_id@, LIMIT_ONE@)
                &&& reads_saved_query(q.node@, unique_id@)
                &&& q.downstream@ == id_query(DOWNSTREAM_HEAD@, unique_id@, DOWNSTREAM_TAIL@)
                &&& reads_children(q.downstream@, unique_id@)
            },
            Err(e) => !valid_id(unique_id@) && e@ == error_view(400, "invalid unique_id"@),
        },
{
    proof {
        lemma_saved_query_query(unique_id@);
        lemma_children_query(unique_id@);
    }
    match check_unique_id(unique_id) {
        Ok(_) => Ok(
            SavedQueryQueries {
                node: id_sql(SAVED_QUERY_NODE_HEAD, unique_id, LIMIT_ONE),
                downstream: id_sql(DOWNSTREAM_HEAD, unique_id, DOWNSTREAM_TAIL),
            },
        ),
        Err(e) => Err(e),
    }
}

/// The detail of a saved query, from what its queries gave. `None` stands for an
/// absent view of edges: then nothing is downstream.
pub fn finish_get_saved_query(
    unique_id: &str,
    node: &Vec<Batch>,
    downstream: &Option<Vec<Batch>>,
) -> (r: Result<SavedQueryDetail, ErrorReply>)
    requires
        all_wf(node@),
        readable::<EdgeRef>(batches_or_none(*downstream)),
    ensures
        match first_filled(node@) {
            Some(batch) => r matches Ok(d) && is_saved_query_detail(d, batch) && are_rows(
                d.referenced_by@,
                batches_or_none(*downstream),
            ),
            None => r matches Err(e) && e@ == error_view(
                404,
                not_found_text("saved query"@, unique_id@),
            ),
        },
{
    match extract_saved_query_detail(node) {
        Some(detail) => {
            let mut detail = detail;
            if let Some(batches) = downstream {
                detail.referenced_by = extract_edge_refs(batches);
            }
            Ok(detail)
        },
        None => Err(resource_not_found("saved query", unique_id)),
    }
}

// ---------------------------------------------------------------------------
// The list of saved queries
// ---------------------------------------------------------------------------

/// One row of the list of saved queries.
#[derive(Debug)]
pub struct SavedQuerySummary {
    pub unique_id: String,
    pub name: String,
    pub package_name: Option<String>,
    pub group_name: Option<String>,
    pub tags: Vec<String>,
    pub description: Option<String>,
    /// Epoch seconds in floating point, as the bits of the 64-bit form.
    pub created_at: Option<u64>,
    /// Upstream unique ids, capped; see `depends_on_nodes_truncated`.
    pub depends_on_nodes: Vec<String>,
    /// `true` when the list exceeded the cap and is truncated.
    pub depends_on_nodes_truncated: bool,
}

/// Cursor-paginated response of the list.
#[derive(Debug)]
pub struct SavedQueryListResponse {
    pub data: Vec<SavedQuerySummary>,
    pub page_info: PageInfo,
}

/// Facets: there are none. It exists for uniformity across resource types.
#[derive(Debug)]
pub struct SavedQueryFacetsResponse {}

/// Query parameters of the list.
#[derive(Debug)]
pub struct SavedQueryListParams {
    /// Sort: `name:asc` (default) or `name:desc`. Any other key is refused.
    pub sort: Option<String>,
    pub first: Option<u32>,
    pub after: Option<String>,
}

impl Default for SavedQueryListParams {
    fn default() -> (r: SavedQueryListParams)
        ensures
            r.sort is None,
            r.first is None,
            r.after is None,
    {
        SavedQueryListParams { sort: None, first: None, after: None }
    }
}

/// Maximum number of upstream ids per row of the list.
pub const DEPENDS_ON_NODES_CAP: usize = 500;

pub const SAVED_QUERY_COUNT_HEAD: &'static str = "SELECT count(*) FROM dbt.saved_queries sq ";

pub const SAVED_QUERY_ROWS_HEAD: &'static str =
    "SELECT sq.unique_id, sq.name, sq.package_name, sq.group_name, \
     sq.tags, sq.description, sq.created_at, sq.depends_on_nodes \
     FROM dbt.saved_queries sq ";

/// Parse `?sort`: by name where none is given.
pub fn parse_saved_query_sort(sort: Option<&str>) -> (r: Result<(&'static str, SortDir), &'static str>)
    ensures
        match r {
            Ok((column, dir)) => column@ == "name"@ && name_sort(opt_str_text(sort)) == Ok::<
                SortDir,
                Seq<char>,
            >(dir),
            Err(e) => name_sort(opt_str_text(sort)) == Err::<SortDir, Seq<char>>(e@),
        },
{
    parse_name_sort(sort)
}

/// The query for the count. The cursor has no part in it.
pub open spec fn saved_query_count_sql(params: SavedQueryListParams) -> Seq<char> {
    SAVED_QUERY_COUNT_HEAD@ + "WHERE 1=1"@
}

/// The query for a page.
pub open spec fn saved_query_rows_sql(
    params: SavedQueryListParams,
    first: u32,
    dir: SortDir,
    cursor: Option<CursorView>,
) -> Seq<char> {
    SAVED_QUERY_ROWS_HEAD@ + page_clause("WHERE 1=1"@, "sq.name"@, "sq.unique_id"@, dir, cursor) + page_order(
        "sq.name"@,
        "sq.unique_id"@,
        dir,
        first,
    )
}

/// Build `(count_sql, rows_sql)`. The count covers the full set.
pub fn build_saved_query_list_sql(params: &SavedQueryListParams, first: u32, cursor: Option<&Cursor>) -> (r: Result<
    (String, String),
    &'static str,
>)
    requires
        first < u32::MAX,
    ensures
        match r {
            Ok((count_sql, rows_sql)) => name_sort(opt_text(params.sort)) matches Ok(dir)
                && count_sql@ == saved_query_count_sql(*params) && rows_sql@ == saved_query_rows_sql(
                *params,
                first,
                dir,
                cursor_ref(cursor),
            ),
            Err(e) => name_sort(opt_text(params.sort)) == Err::<SortDir, Seq<char>>(e@),
        },
{
    let dir = match parse_saved_query_sort(as_opt_str(&params.sort)) {
        Ok((_, dir)) => dir,
        Err(e) => return Err(e),
    };
    let filter = "WHERE 1=1".to_owned();
    let mut count_sql = SAVED_QUERY_COUNT_HEAD.to_owned();
    count_sql.append(filter.as_str());
    let mut rows_sql = SAVED_QUERY_ROWS_HEAD.to_owned();
    rows_sql.append(
        page_where(filter.as_str(), "sq.name", "sq.unique_id", dir, cursor).as_str(),
    );
    rows_sql.append(page_order_sql("sq.name", "sq.unique_id", dir, first).as_str());
    Ok((count_sql, rows_sql))
}

/// At most as many items as the cap.
pub open spec fn capped(items: Seq<String>) -> Seq<String> {
    if items.len() > DEPENDS_ON_NODES_CAP {
        items.take(DEPENDS_ON_NODES_CAP as int)
    } else {
        items
    }
}

impl FromRow for SavedQuerySummary {
    open spec fn columns() -> Seq<Seq<char>> {
        seq!["unique_id"@, "name"@, "package_name"@, "group_name"@, "description"@]
    }

    open spec fn flags() -> Seq<Seq<char>> {
        Seq::empty()
    }

    open spec fn is_row(self, batch: Batch, row: int) -> bool {
        &&& self.unique_id == batch.text("unique_id"@, row)
        &&& self.name == batch.text("name"@, row)
        &&& self.package_name == batch.opt_text("package_name"@, row)
        &&& self.group_name == batch.opt_text("group_name"@, row)
        &&& self.tags@ == list_or_empty(batch, "tags"@, row)
        &&& self.description == batch.opt_text("description"@, row)
        &&& self.created_at == batch.opt_f64("created_at"@, row)
        &&& self.depends_on_nodes@ == capped(list_or_empty(batch, "depends_on_nodes"@, row))
        &&& self.depends_on_nodes_truncated == (list_or_empty(batch, "depends_on_nodes"@, row).len()
            > DEPENDS_ON_NODES_CAP)
    }

    fn from_row(batch: &Batch, row: usize) -> (r: SavedQuerySummary) {
        assert(Self::columns()[0] == "unique_id"@);
        assert(Self::columns()[1] == "name"@);
        let mut nodes = list_col_at(batch, "depends_on_nodes", row);
        let truncated = nodes.len() > DEPENDS_ON_NODES_CAP;
        if truncated {
            nodes.truncate(DEPENDS_ON_NODES_CAP);
        }
        SavedQuerySummary {
            unique_id: batch.get_text("unique_id", row),
            name: batch.get_text("name", row),
            package_name: batch.get_opt_text("package_name", row),
            group_name: batch.get_opt_text("group_name", row),
            tags: list_col_at(batch, "tags", row),
            description: batch.get_opt_text("description", row),
            created_at: batch.get_opt_f64("created_at", row),
            depends_on_nodes: nodes,
            depends_on_nodes_truncated: truncated,
        }
    }
}

/// A row of the list never shows more upstream ids than the cap, and says that it is
/// truncated exactly where it shows fewer than there are.
pub proof fn lemma_upstream_is_capped(row: SavedQuerySummary, batch: Batch, i: int)
    requires
        row.is_row(batch, i),
    ensures
        row.depends_on_nodes@.len() <= DEPENDS_ON_NODES_CAP,
        row.depends_on_nodes_truncated <==> row.depends_on_nodes@.len() < list_or_empty(
            batch,
            "depends_on_nodes"@,
            i,
        ).len(),
{
}

/// Convert the batches of the query into typed rows.
pub fn batches_to_saved_query_summary_rows(batches: &Vec<Batch>) -> (r: Vec<SavedQuerySummary>)
    requires
        readable::<SavedQuerySummary>(batches@),
    ensures
        are_rows(r@, batches@),
{
    read_rows(batches)
}

impl Listed for SavedQuerySummary {
    open spec fn key(self, column: Seq<char>) -> CursorView {
        CursorView { sort_value: Some(self.name@), unique_id: self.unique_id@ }
    }

    fn cursor(&self, column: &str) -> (r: Cursor) {
        Cursor { sort_value: Some(self.name.clone()), unique_id: self.unique_id.clone() }
    }
}

/// Check a request for the list and plan it.
pub fn plan_list_saved_queries(params: &SavedQueryListParams) -> (r: Result<ListPlan, ErrorReply>)
    ensures
        match r {
            Ok(plan) => {
                &&& list_refusal(params.after, sort_fault(name_sort(opt_text(params.sort)))) is None
                &&& plan.first == clamped(params.first, DEFAULT_PAGE_SIZE, MAX_PAGE_SIZE)
                &&& 1 <= plan.first <= MAX_PAGE_SIZE
                &&& plan.probe.wf()
                &&& plan.probe.at == 0
                &&& plan.probe.noun@ == "saved query"@
                &&& plan.probe.absent@ == NO_COUNT@
                &&& plan.probe.queries.len() == 1
                &&& plan.probe.queries@[0].count_sql@ == saved_query_count_sql(*params)
                &&& plan.probe.queries@[0].rows_sql@ == saved_query_rows_sql(
                    *params,
                    plan.first,
                    name_sort(opt_text(params.sort))->Ok_0,
                    asked_cursor(params.after),
                )
                &&& lists_saved_query(
                    plan.probe.queries@[0].count_sql@,
                    plan.probe.queries@[0].rows_sql@,
                    *params,
                    plan.first,
                    name_sort(opt_text(params.sort))->Ok_0,
                    asked_cursor(params.after),
                )
            },
            Err(e) => list_refusal(params.after, sort_fault(name_sort(opt_text(params.sort))))
                == Some(e@),
        },
{
    let first: u32 = clamp_first(params.first);
    let cursor = match read_after(&params.after) {
        Ok(cursor) => cursor,
        Err(e) => return Err(e),
    };
    let (count_sql, rows_sql) = match build_saved_query_list_sql(params, first, cursor.as_ref()) {
        Ok(built) => built,
        Err(msg) => return Err(crate::json::bad_request(msg)),
    };
    proof {
        lemma_saved_query_list(
            *params,
            first,
            name_sort(opt_text(params.sort))->Ok_0,
            asked_cursor(params.after),
        );
    }
    let mut queries: Vec<ListQuery> = Vec::new();
    queries.push(ListQuery { count_sql, rows_sql });
    let probe = ListProbe::start(queries, "saved query");
    Ok(ListPlan { first, probe })
}

/// The page of the list, from the rows that its query gave.
pub fn finish_list_saved_queries(first: u32, total_count: u64, batches: &Vec<Batch>) -> (r: SavedQueryListResponse)
    requires
        readable::<SavedQuerySummary>(batches@),
    ensures
        exists|rows: Seq<SavedQuerySummary>, n: usize|
            are_rows(rows, batches@) && n == rows.len() && r.data@ == #[trigger] page_of(
                rows,
                n,
                first,
            ) && r.page_info@ == page_info_of(
                total_count,
                keys(r.data@, "name"@),
                overfull(n, first),
            ) && leads_on(r.page_info@, keys(r.data@, "name"@)),
{
    let rows = batches_to_saved_query_summary_rows(batches);
    let ghost all = rows@;
    let ghost n = rows.len();
    let (data, page_info) = finish_page(rows, first, total_count, "name");
    assert(data@ == page_of(all, n, first));
    SavedQueryListResponse { data, page_info }
}

} // verus!
