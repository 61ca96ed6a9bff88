//! The list of exposures, its facets, and the detail of an exposure.
//!
//! An exposure is a leaf: nothing references it. What it depends on stands in its own
//! row; the type of each edge is the prefix of the unique id.
use crate::detail_laws::{lemma_exposure_query, reads_exposure};
use crate::encoding::JsonNode;
use crate::json::{
    bad_request, check_unique_id, error_view, json_parse_or_null, parsed_or_null, valid_id,
    ErrorReply, ErrorView,
};
use crate::list_laws::{lemma_exposure_list, lists_exposure};
use crate::listing::{
    are_facets, asked_cursor, facets, finish_page, id_query, id_sql, keys, list_refusal,
    not_found_text, page_clause, page_order, page_order_sql, page_where, read_after,
    resource_not_found, FacetValue, ListPlan, Listed, LIMIT_ONE,
};
use crate::node_base::{extract_str_list, first_list, or_empty, text_or_empty, EdgeRef, NodeBase};
use crate::pagination::{
    clamp_first, clamped, cursor_ref, leads_on, overfull, page_info_of, page_of, Cursor, CursorView,
    PageInfo, SortDir, DEFAULT_PAGE_SIZE, MAX_PAGE_SIZE,
};
use crate::probe::{ListProbe, ListQuery, NO_COUNT};
use crate::sql::{escape_str, escaped};
use crate::table::{
    all_places, all_wf, column_texts, find_filled, first_filled, list_col_at, list_or_empty, places,
    places_view, read_column_texts, Batch,
};
use crate::text::{
    as_opt_str, given, given_text, opt_str_text, opt_text, split_at_first, split_once, texts,
};
use vstd::prelude::*;

verus! {

// ---------------------------------------------------------------------------
// Edges
// ---------------------------------------------------------------------------

/// The part of a unique id before the first dot; empty where there is none.
pub open spec fn prefix_type(id: Seq<char>) -> Seq<char> {
    match split_at_first(id, '.') {
        Some((prefix, _)) => prefix,
        None => Seq::empty(),
    }
}

/// Derive the type of an edge from the prefix of a unique id: `model.x.y` gives
/// `"model"`.
pub fn edge_type_from_prefix(unique_id: &str) -> (r: String)
    ensures
        r@ == prefix_type(unique_id@),
{
    match split_once(unique_id, '.') {
        Some((prefix, _)) => prefix,
        None => String::new(),
    }
}

/// Whether edges are those to some resources, in order, each typed by its prefix.
pub open spec fn are_prefix_edges(edges: Seq<EdgeRef>, ids: Seq<String>) -> bool {
    &&& edges.len() == ids.len()
    &&& forall|i: int|
        0 <= i < edges.len() ==> (#[trigger] edges[i]).unique_id == ids[i] && edges[i].edge_type@
            == prefix_type(ids[i]@)
}

fn prefix_edges(ids: Vec<String>) -> (r: Vec<EdgeRef>)
    ensures
        are_prefix_edges(r@, ids@),
{
    let mut r: Vec<EdgeRef> = Vec::new();
    let ghost all = ids@;
    for unique_id in it: ids
        invariant
            it.seq() == all,
            r.len() == it.index(),
            forall|i: int|
                0 <= i < r.len() ==> (#[trigger] r@[i]).unique_id == all[i] && r@[i].edge_type@
                    == prefix_type(all[i]@),
    {
        let edge_type = edge_type_from_prefix(unique_id.as_str());
        r.push(EdgeRef { unique_id, edge_type });
    }
    r
}

// ---------------------------------------------------------------------------
// The detail of an exposure
// ---------------------------------------------------------------------------

/// The detail of an exposure.
#[derive(Debug)]
pub struct ExposureDetail {
    pub base: NodeBase,
    /// Project-relative path of the file that holds the exposure.
    pub file_path: Option<String>,
    pub tags: Vec<String>,
    pub fqn: Vec<String>,
    pub label: Option<String>,
    pub exposure_type: Option<String>,
    pub maturity: Option<String>,
    pub url: Option<String>,
    pub owner_name: Option<String>,
    pub owner_email: Option<String>,
    /// Parsed JSON, or null when absent / unparseable.
    pub meta: JsonNode,
    /// Direct upstream.
    pub depends_on: Vec<EdgeRef>,
    /// Epoch seconds in floating point, as the bits of the 64-bit form.
    pub created_at: Option<u64>,
}

/// Whether a detail is that of the first row of a batch.
pub open spec fn is_exposure_detail(d: ExposureDetail, batch: Batch) -> bool {
    &&& d.base.unique_id@ == text_or_empty(batch.opt_text("unique_id"@, 0))
    &&& d.base.name@ == text_or_empty(batch.opt_text("name"@, 0))
    &&& d.base.resource_type@ == "exposure"@
    &&& d.base.package_name == batch.opt_text("package_name"@, 0)
    &&& d.base.description == batch.opt_text("description"@, 0)
    &&& d.base.original_file_path == batch.opt_text("original_file_path"@, 0)
    &&& d.file_path == batch.opt_text("file_path"@, 0)
    &&& d.tags@ == first_list(batch, "tags"@)
    &&& d.fqn@ == first_list(batch, "fqn"@)
    &&& d.label == batch.opt_text("label"@, 0)
    &&& d.exposure_type == batch.opt_text("exposure_type"@, 0)
    &&& d.maturity == batch.opt_text("maturity"@, 0)
    &&& d.url == batch.opt_text("url"@, 0)
    &&& d.owner_name == batch.opt_text("owner_name"@, 0)
    &&& d.owner_email == batch.opt_text("owner_email"@, 0)
    &&& d.meta@ == parsed_or_null(opt_text(batch.opt_text("meta"@, 0)))
    &&& are_prefix_edges(d.depends_on@, first_list(batch, "depends_on_nodes"@))
    &&& d.created_at == batch.opt_f64("created_at"@, 0)
}

/// Extract the detail of an exposure.
pub fn extract_exposure_detail(batches: &Vec<Batch>) -> (r: Option<ExposureDetail>)
    requires
        all_wf(batches@),
    ensures
        match first_filled(batches@) {
            Some(batch) => r matches Some(d) && is_exposure_detail(d, batch),
            None => r is None,
        },
{
    match find_filled(batches) {
        Some(batch) => Some(
            ExposureDetail {
                base: NodeBase {
                    unique_id: or_empty(batch.get_opt_text("unique_id", 0)),
                    name: or_empty(batch.get_opt_text("name", 0)),
                    resource_type: "exposure".to_owned(),
                    package_name: batch.get_opt_text("package_name", 0),
                    description: batch.get_opt_text("description", 0),
                    original_file_path: batch.get_opt_text("original_file_path", 0),
                },
                file_path: batch.get_opt_text("file_path", 0),
                tags: extract_str_list(batch, "tags"),
                fqn: extract_str_list(batch, "fqn"),
                label: batch.get_opt_text("label", 0),
                exposure_type: batch.get_opt_text("exposure_type", 0),
                maturity: batch.get_opt_text("maturity", 0),
                url: batch.get_opt_text("url", 0),
                owner_name: batch.get_opt_text("owner_name", 0),
                owner_email: batch.get_opt_text("owner_email", 0),
                meta: json_parse_or_null(as_opt_str(&batch.get_opt_text("meta", 0))),
                depends_on: prefix_edges(extract_str_list(batch, "depends_on_nodes")),
                created_at: batch.get_opt_f64("created_at", 0),
            },
        ),
        None => None,
    }
}

pub const EXPOSURE_DETAIL_HEAD: &'static str =
    "SELECT unique_id, name, package_name, description, \
     original_file_path, file_path, \
     label, exposure_type, maturity, url, \
     owner_name, owner_email, meta, \
     tags, fqn, depends_on_nodes, created_at \
     FROM dbt.exposures \
     WHERE unique_id = '";

/// Check the unique id and build the query for the detail.
pub fn plan_get_exposure(unique_id: &str) -> (r: Result<String, ErrorReply>)
    ensures
        match r {
            Ok(sql) => valid_id(unique_id@) && sql@ == id_query(
                EXPOSURE_DETAIL_HEAD@,
                unique_id@,
                LIMIT_ONE@,
            ) && reads_exposure(sql@, unique_id@),
            Err(e) => !valid_id(unique_id@) && e@ == error_view(400, "invalid unique_id"@),
        },
{
    proof {
        lemma_exposure_query(unique_id@);
    }
    match check_unique_id(unique_id) {
        Ok(_) => Ok(id_sql(EXPOSURE_DETAIL_HEAD, unique_id, LIMIT_ONE)),
        Err(e) => Err(e),
    }
}

/// The detail, from what the query gave.
pub fn finish_get_exposure(unique_id: &str, batches: &Vec<Batch>) -> (r: Result<
    ExposureDetail,
    ErrorReply,
>)
    requires
        all_wf(batches@),
    ensures
        match first_filled(batches@) {
            Some(batch) => r matches Ok(d) && is_exposure_detail(d, batch),
            None => r matches Err(e) && e@ == error_view(
                404,
                not_found_text("exposure"@, unique_id@),
            ),
        },
{
    match extract_exposure_detail(batches) {
        Some(detail) => Ok(detail),
        None => Err(resource_not_found("exposure", unique_id)),
    }
}

// ---------------------------------------------------------------------------
// The list of exposures
// ---------------------------------------------------------------------------

/// One row of the list of exposures.
#[derive(Debug)]
pub struct ExposureSummary {
    pub unique_id: String,
    pub name: String,
    pub exposure_type: Option<String>,
    pub maturity: Option<String>,
    pub owner_name: Option<String>,
    pub owner_email: Option<String>,
    pub tags: Vec<String>,
    /// Epoch seconds in floating point, as the bits of the 64-bit form.
    pub created_at: Option<u64>,
    /// Direct upstream, capped by the query.
    pub depends_on: Vec<EdgeRef>,
    /// `true` when the upstream list exceeded the cap.
    pub depends_on_truncated: bool,
}

/// Cursor-paginated response of the list.
#[derive(Debug)]
pub struct ExposureListResponse {
    pub data: Vec<ExposureSummary>,
    pub page_info: PageInfo,
}

/// Query parameters of the list.
#[derive(Debug)]
pub struct ExposureListParams {
    /// Not accepted: any value is refused. The order is by name.
    pub sort: Option<String>,
    pub first: Option<u32>,
    pub after: Option<String>,
    /// Exact-match filter by the name of the owner.
    pub owner: Option<String>,
}

impl Default for ExposureListParams {
    fn default() -> (r: ExposureListParams)
        ensures
            r.sort is None,
            r.first is None,
            r.after is None,
            r.owner is None,
    {
        ExposureListParams { sort: None, first: None, after: None, owner: None }
    }
}

pub const EXPOSURE_COUNT_HEAD: &'static str = "SELECT count(*) FROM dbt.exposures e ";

pub const EXPOSURE_ROWS_HEAD: &'static str =
    "SELECT e.unique_id, e.name, e.exposure_type, e.maturity, \
     e.owner_name, e.owner_email, e.tags, e.created_at, \
     list_slice(e.depends_on_nodes, 1, 500) AS depends_on_nodes_capped, \
     len(e.depends_on_nodes) > 500 AS depends_on_truncated \
     FROM dbt.exposures e ";

/// The `WHERE` clause of the filter by owner.
pub open spec fn exposure_filter(owner: Option<Seq<char>>) -> Seq<char> {
    match owner {
        Some(owner) => "WHERE 1=1"@ + " AND e.owner_name = '"@ + escaped(owner) + "'"@,
        None => "WHERE 1=1"@,
    }
}

/// The query for the count. The cursor has no part in it.
pub open spec fn exposure_count_sql(owner: Option<Seq<char>>) -> Seq<char> {
    EXPOSURE_COUNT_HEAD@ + exposure_filter(owner)
}

/// The query for a page, sorted by name. The list of what an exposure depends on is
/// capped at 500.
pub open spec fn exposure_rows_sql(
    owner: Option<Seq<char>>,
    first: u32,
    cursor: Option<CursorView>,
) -> Seq<char> {
    EXPOSURE_ROWS_HEAD@ + page_clause(
        exposure_filter(owner),
        "e.name"@,
        "e.unique_id"@,
        SortDir::Asc,
        cursor,
    ) + page_order("e.name"@, "e.unique_id"@, SortDir::Asc, first)
}

/// Build `(count_sql, rows_sql)`, with an optional exact-match filter by owner.
pub fn build_exposure_list_sql(owner: Option<&str>, first: u32, cursor: Option<&Cursor>) -> (r: (
    String,
    String,
))
    requires
        first < u32::MAX,
    ensures
        r.0@ == exposure_count_sql(opt_str_text(owner)),
        r.1@ == exposure_rows_sql(opt_str_text(owner), first, cursor_ref(cursor)),
{
    let mut filter = "WHERE 1=1".to_owned();
    if let Some(owner) = owner {
        filter.append(" AND e.owner_name = '");
        filter.append(escape_str(owner).as_str());
        filter.append("'");
    }
    let mut count_sql = EXPOSURE_COUNT_HEAD.to_owned();
    count_sql.append(filter.as_str());
    let mut rows_sql = EXPOSURE_ROWS_HEAD.to_owned();
    rows_sql.append(
        page_where(filter.as_str(), "e.name", "e.unique_id", SortDir::Asc, cursor).as_str(),
    );
    rows_sql.append(page_order_sql("e.name", "e.unique_id", SortDir::Asc, first).as_str());
    (count_sql, rows_sql)
}

/// What a list is refused with, if it is: any sort, also an empty one, comes before a
/// cursor that cannot be read.
pub open spec fn exposure_refusal(params: ExposureListParams) -> Option<ErrorView> {
    if params.sort is Some {
        Some(error_view(400, "sort is not supported on this endpoint"@))
    } else {
        list_refusal(params.after, None)
    }
}

/// Check a request for the list and plan it.
pub fn plan_list_exposures(params: &ExposureListParams) -> (r: Result<ListPlan, ErrorReply>)
    ensures
        match r {
            Ok(plan) => {
                &&& exposure_refusal(*params) is None
                &&& plan.first == clamped(params.first, DEFAULT_PAGE_SIZE, MAX_PAGE_SIZE)
                &&& 1 <= plan.first <= MAX_PAGE_SIZE
                &&& plan.probe.wf()
                &&& plan.probe.at == 0
                &&& plan.probe.noun@ == "exposure"@
                &&& plan.probe.absent@ == NO_COUNT@
                &&& plan.probe.queries.len() == 1
                &&& plan.probe.queries@[0].count_sql@ == exposure_count_sql(
                    given_text(params.owner),
                )
                &&& plan.probe.queries@[0].rows_sql@ == exposure_rows_sql(
                    given_text(params.owner),
                    plan.first,
                    asked_cursor(params.after),
                )
                &&& lists_exposure(
                    plan.probe.queries@[0].count_sql@,
                    plan.probe.queries@[0].rows_sql@,
                    given_text(params.owner),
                    plan.first,
                    asked_cursor(params.after),
                )
            },
            Err(e) => exposure_refusal(*params) == Some(e@),
        },
{
    if params.sort.is_some() {
        return Err(bad_request("sort is not supported on this endpoint"));
    }
    let first: u32 = clamp_first(params.first);
    let cursor = match read_after(&params.after) {
        Ok(cursor) => cursor,
        Err(e) => return Err(e),
    };
    let (count_sql, rows_sql) = build_exposure_list_sql(
        given(&params.owner),
        first,
        cursor.as_ref(),
    );
    proof {
        lemma_exposure_list(
            given_text(params.owner),
            first,
            asked_cursor(params.after),
        );
    }
    let mut queries: Vec<ListQuery> = Vec::new();
    queries.push(ListQuery { count_sql, rows_sql });
    let probe = ListProbe::start(queries, "exposure");
    Ok(ListPlan { first, probe })
}

/// Whether the rows of a batch are shown: it has the columns of unique ids and names.
pub open spec fn is_shown(batch: Batch) -> bool {
    batch.has_text("unique_id"@) && batch.has_text("name"@)
}

/// The places of the rows that are shown.
pub open spec fn shown_places(batches: Seq<Batch>, at: Seq<(int, int)>) -> Seq<(int, int)>
    decreases at.len(),
{
    if at.len() == 0 {
        at
    } else if is_shown(batches[at.last().0]) {
        shown_places(batches, at.drop_last()).push(at.last())
    } else {
        shown_places(batches, at.drop_last())
    }
}

/// Whether a summary is that of a row.
pub open spec fn is_exposure_row(r: ExposureSummary, batch: Batch, row: int) -> bool {
    &&& r.unique_id == batch.text("unique_id"@, row)
    &&& r.name == batch.text("name"@, row)
    &&& r.exposure_type == batch.opt_text("exposure_type"@, row)
    &&& r.maturity == batch.opt_text("maturity"@, row)
    &&& r.owner_name == batch.opt_text("owner_name"@, row)
    &&& r.owner_email == batch.opt_text("owner_email"@, row)
    &&& r.tags@ == list_or_empty(batch, "tags"@, row)
    &&& r.created_at == batch.opt_f64("created_at"@, row)
    &&& are_prefix_edges(r.depends_on@, list_or_empty(batch, "depends_on_nodes_capped"@, row))
    &&& r.depends_on_truncated == (batch.opt_bool("depends_on_truncated"@, row) == Some(true))
}

/// Whether summaries are those of some rows, in order.
pub open spec fn are_exposure_rows(
    rows: Seq<ExposureSummary>,
    batches: Seq<Batch>,
    at: Seq<(int, int)>,
) -> bool {
    &&& rows.len() == at.len()
    &&& forall|k: int|
        0 <= k < rows.len() ==> is_exposure_row(#[trigger] rows[k], batches[at[k].0], at[k].1)
}

/// Extract the capped upstream of a row.
pub fn extract_capped_depends_on(batch: &Batch, i: usize) -> (r: Vec<EdgeRef>)
    requires
        batch.wf(),
        i < batch.num_rows,
    ensures
        are_prefix_edges(r@, list_or_empty(*batch, "depends_on_nodes_capped"@, i as int)),
{
    prefix_edges(list_col_at(batch, "depends_on_nodes_capped", i))
}

fn exposure_row(batch: &Batch, i: usize) -> (r: ExposureSummary)
    requires
        batch.wf(),
        i < batch.num_rows,
        is_shown(*batch),
    ensures
        is_exposure_row(r, *batch, i as int),
{
    ExposureSummary {
        unique_id: batch.get_text("unique_id", i),
        name: batch.get_text("name", i),
        exposure_type: batch.get_opt_text("exposure_type", i),
        maturity: batch.get_opt_text("maturity", i),
        owner_name: batch.get_opt_text("owner_name", i),
        owner_email: batch.get_opt_text("owner_email", i),
        tags: list_col_at(batch, "tags", i),
        created_at: batch.get_opt_f64("created_at", i),
        depends_on: extract_capped_depends_on(batch, i),
        depends_on_truncated: match batch.get_opt_bool("depends_on_truncated", i) {
            Some(b) => b,
            None => false,
        },
    }
}

fn shows(batch: &Batch) -> (r: bool)
    ensures
        r == is_shown(*batch),
{
    let has_id = matches!(batch.find_column("unique_id"), Some(crate::table::ColumnData::Text(_)));
    let has_name = matches!(batch.find_column("name"), Some(crate::table::ColumnData::Text(_)));
    has_id && has_name
}

/// Convert the batches of the query into typed rows. A batch without the columns of
/// unique ids and names is passed over.
pub fn batches_to_exposure_summary_rows(batches: &Vec<Batch>) -> (r: Vec<ExposureSummary>)
    requires
        all_wf(batches@),
    ensures
        are_exposure_rows(r@, batches@, shown_places(batches@, places(batches@))),
{
    let at = all_places(batches);
    let ghost all = places(batches@);
    let mut r: Vec<ExposureSummary> = Vec::new();
    let mut k: usize = 0;
    assert(all.take(0) == Seq::<(int, int)>::empty());
    while k < at.len()
        invariant
            k <= at.len(),
            all_wf(batches@),
            all == places_view(at@),
            forall|k: int|
                0 <= k < at.len() ==> (#[trigger] at@[k]).0 < batches.len() && at@[k].1
                    < batches@[at@[k].0 as int].num_rows,
            are_exposure_rows(r@, batches@, shown_places(batches@, all.take(k as int))),
        decreases at.len() - k,
    {
        let (b, i) = at[k];
        assert(all.take(k + 1).drop_last() == all.take(k as int));
        assert(all.take(k + 1).last() == (b as int, i as int));
        if shows(&batches[b]) {
            let ghost had = r@;
            let ghost before = shown_places(batches@, all.take(k as int));
            r.push(exposure_row(&batches[b], i));
            assert forall|j: int| 0 <= j < r.len() implies is_exposure_row(
                #[trigger] r@[j],
                batches@[before.push((b as int, i as int))[j].0],
                before.push((b as int, i as int))[j].1,
            ) by {
                if j < had.len() {
                    assert(r@[j] == had[j]);
                }
            }
        }
        k += 1;
    }
    assert(all.take(all.len() as int) == all);
    r
}

impl Listed for ExposureSummary {
    open spec fn key(self, column: Seq<char>) -> CursorView {
        CursorView { sort_value: Some(self.name@), unique_id: self.unique_id@ }
    }

    fn cursor(&self, column: &str) -> (r: Cursor) {
        Cursor { sort_value: Some(self.name.clone()), unique_id: self.unique_id.clone() }
    }
}

/// The page of the list, from the rows that its query gave.
pub fn finish_list_exposures(first: u32, total_count: u64, batches: &Vec<Batch>) -> (r:
    ExposureListResponse)
    requires
        all_wf(batches@),
    ensures
        exists|rows: Seq<ExposureSummary>, n: usize|
            are_exposure_rows(rows, batches@, shown_places(batches@, places(batches@))) && n
                == rows.len() && r.data@ == #[trigger] page_of(rows, n, first) && r.page_info@
                == page_info_of(total_count, keys(r.data@, "name"@), overfull(n, first)) && leads_on(
                r.page_info@,
                keys(r.data@, "name"@),
            ),
{
    let rows = batches_to_exposure_summary_rows(batches);
    let ghost all = rows@;
    let ghost n = rows.len();
    let (data, page_info) = finish_page(rows, first, total_count, "name");
    assert(data@ == page_of(all, n, first));
    ExposureListResponse { data, page_info }
}

// ---------------------------------------------------------------------------
// Facets
// ---------------------------------------------------------------------------

/// Facets of exposures: the names of owners.
#[derive(Debug)]
pub struct ExposureFacetsResponse {
    pub owners: Vec<FacetValue>,
}

pub const EXPOSURE_OWNERS_FACET_SQL: &'static str = "\
SELECT DISTINCT owner_name AS value \
FROM dbt.exposures \
WHERE owner_name IS NOT NULL \
ORDER BY owner_name";

/// The facets of exposures, from what the query gave. A batch without the column is
/// passed over.
pub fn finish_exposure_facets(batches: &Vec<Batch>) -> (r: ExposureFacetsResponse)
    requires
        all_wf(batches@),
    ensures
        are_facets(r.owners@, texts(column_texts(batches@, "value"@))),
{
    ExposureFacetsResponse { owners: facets(read_column_texts(batches, "value")) }
}

} // verus!
