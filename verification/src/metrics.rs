//! The list of metrics and the detail of a metric.
use crate::detail_laws::{
    lemma_children_query, lemma_metric_query, lemma_parents_query, reads_children, reads_metric,
    reads_parents,
};
use crate::encoding::JsonNode;
use crate::json::{
    check_unique_id, error_view, json_parse_or_null, parsed_or_null, valid_id, ErrorReply,
};
use crate::list_laws::{lemma_metric_list, lists_metric};
use crate::listing::{
    asked_cursor, finish_page, id_query, id_sql, keys, list_refusal, name_sort, not_found_text,
    page_clause, page_order, page_order_sql, page_where, parse_name_sort, read_after,
    resource_not_found, sort_fault, ListPlan, Listed, DOWNSTREAM_HEAD, DOWNSTREAM_TAIL, LIMIT_ONE,
    UPSTREAM_HEAD, UPSTREAM_TAIL,
};
use crate::node_base::{
    extract_edge_refs, extract_str_list, first_list, or_empty, text_or_empty, EdgeRef, NodeBase,
};
use crate::pagination::{
    clamp_first, clamped, cursor_ref, leads_on, overfull, page_info_of, page_of, Cursor, CursorView,
    PageInfo, SortDir, DEFAULT_PAGE_SIZE, MAX_PAGE_SIZE,
};
use crate::probe::{ListProbe, ListQuery, NO_COUNT};
use crate::table::{
    all_wf, are_rows, find_filled, first_filled, list_col_at, list_or_empty, read_rows, readable,
    Batch, FromRow,
};
use crate::text::{as_opt_str, opt_str_text, opt_text};
use vstd::prelude::*;

verus! {

// ---------------------------------------------------------------------------
// The detail of a metric
// ---------------------------------------------------------------------------

/// The detail of a metric.
#[derive(Debug)]
pub struct MetricDetail {
    pub base: NodeBase,
    /// Project-relative path of the file that holds the metric.
    pub file_path: Option<String>,
    pub fqn: Vec<String>,
    pub tags: Vec<String>,
    /// Human-readable label.
    pub label: Option<String>,
    pub metric_type: Option<String>,
    /// Parsed JSON; its shape varies by `metric_type`.
    pub type_params: JsonNode,
    /// Parsed JSON.
    pub filter: JsonNode,
    pub time_granularity: Option<String>,
    pub semantic_model_name: Option<String>,
    pub input_metric_names: Vec<String>,
    pub group_name: Option<String>,
    /// Parsed JSON, or null when absent / unparseable.
    pub meta: JsonNode,
    /// Direct upstream.
    pub depends_on: Vec<EdgeRef>,
    /// Direct downstream.
    pub referenced_by: Vec<EdgeRef>,
    /// Epoch seconds in floating point, as the bits of the 64-bit form.
    pub created_at: Option<u64>,
}

/// Whether the own fields of a detail are those of the first row of a batch.
pub open spec fn is_metric_detail(d: MetricDetail, batch: Batch) -> bool {
    &&& d.base.unique_id@ == text_or_empty(batch.opt_text("unique_id"@, 0))
    &&& d.base.name@ == text_or_empty(batch.opt_text("name"@, 0))
    &&& d.base.resource_type@ == "metric"@
    &&& d.base.package_name == batch.opt_text("package_name"@, 0)
    &&& d.base.description == batch.opt_text("description"@, 0)
    &&& d.base.original_file_path == batch.opt_text("original_file_path"@, 0)
    &&& d.file_path == batch.opt_text("file_path"@, 0)
    &&& d.fqn@ == first_list(batch, "fqn"@)
    &&& d.tags@ == first_list(batch, "tags"@)
    &&& d.label == batch.opt_text("label"@, 0)
    &&& d.metric_type == batch.opt_text("metric_type"@, 0)
    &&& d.type_params@ == parsed_or_null(opt_text(batch.opt_text("type_params"@, 0)))
    &&& d.filter@ == parsed_or_null(opt_text(batch.opt_text("metric_filter"@, 0)))
    &&& d.time_granularity == batch.opt_text("time_granularity"@, 0)
    &&& d.semantic_model_name == batch.opt_text("semantic_model_name"@, 0)
    &&& d.input_metric_names@ == first_list(batch, "input_metric_names"@)
    &&& d.group_name == batch.opt_text("group_name"@, 0)
    &&& d.meta@ == parsed_or_null(opt_text(batch.opt_text("meta"@, 0)))
    &&& d.created_at == batch.opt_f64("created_at"@, 0)
}

/// Extract the own fields of a metric; what comes from other queries is left empty.
pub fn extract_metric_detail(batches: &Vec<Batch>) -> (r: Option<MetricDetail>)
    requires
        all_wf(batches@),
    ensures
        match first_filled(batches@) {
            Some(batch) => r matches Some(d) && is_metric_detail(d, batch) && d.depends_on@.len() == 0 && d.referenced_by@.len() == 0,
            None => r is None,
        },
{
    match find_filled(batches) {
        Some(batch) => Some(
            MetricDetail {
                base: NodeBase {
                    unique_id: or_empty(batch.get_opt_text("unique_id", 0)),
                    name: or_empty(batch.get_opt_text("name", 0)),
                    resource_type: "metric".to_owned(),
                    package_name: batch.get_opt_text("package_name", 0),
                    description: batch.get_opt_text("description", 0),
                    original_file_path: batch.get_opt_text("original_file_path", 0),
                },
                file_path: batch.get_opt_text("file_path", 0),
                fqn: extract_str_list(batch, "fqn"),
                tags: extract_str_list(batch, "tags"),
                label: batch.get_opt_text("label", 0),
                metric_type: batch.get_opt_text("metric_type", 0),
                type_params: json_parse_or_null(as_opt_str(&batch.get_opt_text("type_params", 0))),
                filter: json_parse_or_null(as_opt_str(&batch.get_opt_text("metric_filter", 0))),
                time_granularity: batch.get_opt_text("time_granularity", 0),
                semantic_model_name: batch.get_opt_text("semantic_model_name", 0),
                input_metric_names: extract_str_list(batch, "input_metric_names"),
                group_name: batch.get_opt_text("group_name", 0),
                meta: json_parse_or_null(as_opt_str(&batch.get_opt_text("meta", 0))),
                created_at: batch.get_opt_f64("created_at", 0),
                depends_on: Vec::new(),
                referenced_by: Vec::new(),
            },
        ),
        None => None,
    }
}

pub const METRIC_ROW_HEAD: &'static str = "SELECT unique_id, name, package_name, description, \
     original_file_path, file_path, \
     label, metric_type, type_params, metric_filter, \
     time_granularity, semantic_model_name, group_name, \
     input_metric_names, fqn, tags, meta, created_at \
     FROM dbt.metrics \
     WHERE unique_id = '";

/// The queries for the detail of a metric.
#[derive(Debug)]
pub struct MetricQueries {
    pub row: String,
    pub upstream: String,
    pub downstream: String,
}

/// Check the unique id of a metric and build the queries for its detail.
pub fn plan_get_metric(unique_id: &str) -> (r: Result<MetricQueries, ErrorReply>)
    ensures
        match r {
            Ok(q) => {
                &&& valid_id(unique_id@)
                &&& q.row@ == id_query(METRIC_ROW_HEAD@, unique_id@, LIMIT_ONE@)
                &&& reads_metric(q.row@, unique_id@)
                &&& q.upstream@ == id_query(UPSTREAM_HEAD@, unique_id@, UPSTREAM_TAIL@)
                &&& reads_parents(q.upstream@, unique_id@)
                &&& q.downstream@ == id_query(DOWNSTREAM_HEAD@, unique_id@, DOWNSTREAM_TAIL@)
                &&& reads_children(q.downstream@, unique_id@)
            },
            Err(e) => !valid_id(unique_id@) && e@ == error_view(400, "invalid unique_id"@),
        },
{
    proof {
        lemma_metric_query(unique_id@);
        lemma_parents_query(unique_id@);
        lemma_children_query(unique_id@);
    }
    match check_unique_id(unique_id) {
        Ok(_) => Ok(
            MetricQueries {
                row: id_sql(METRIC_ROW_HEAD, unique_id, LIMIT_ONE),
                upstream: id_sql(UPSTREAM_HEAD, unique_id, UPSTREAM_TAIL),
                downstream: id_sql(DOWNSTREAM_HEAD, unique_id, DOWNSTREAM_TAIL),
            },
        ),
        Err(e) => Err(e),
    }
}

/// The detail of a metric, from what its queries gave.
pub fn finish_get_metric(
    unique_id: &str,
    row: &Vec<Batch>,
    upstream: &Vec<Batch>,
    downstream: &Vec<Batch>,
) -> (r: Result<MetricDetail, ErrorReply>)
    requires
        all_wf(row@),
        readable::<EdgeRef>(upstream@),
        readable::<EdgeRef>(downstream@),
    ensures
        match first_filled(row@) {
            Some(batch) => r matches Ok(d) && is_metric_detail(d, batch) && are_rows(
                d.depends_on@,
                upstream@,
            ) && are_rows(d.referenced_by@, downstream@),
            None => r matches Err(e) && e@ == error_view(
                404,
                not_found_text("metric"@, unique_id@),
            ),
        },
{
    match extract_metric_detail(row) {
        Some(detail) => {
            let mut detail = detail;
            detail.depends_on = extract_edge_refs(upstream);
            detail.referenced_by = extract_edge_refs(downstream);
            Ok(detail)
        },
        None => Err(resource_not_found("metric", unique_id)),
    }
}

// ---------------------------------------------------------------------------
// The list of metrics
// ---------------------------------------------------------------------------

/// One row of the list of metrics.
#[derive(Debug)]
pub struct MetricSummary {
    pub unique_id: String,
    pub name: String,
    pub package_name: Option<String>,
    pub group_name: Option<String>,
    pub metric_type: Option<String>,
    pub semantic_model_name: Option<String>,
    pub tags: Vec<String>,
    pub description: Option<String>,
    pub input_metric_names: Vec<String>,
    /// Always `false`: there is no cap on the names of a row.
    pub input_metric_names_truncated: bool,
    /// Epoch seconds in floating point, as the bits of the 64-bit form.
    pub created_at: Option<u64>,
}

/// Cursor-paginated response of the list.
#[derive(Debug)]
pub struct MetricListResponse {
    pub data: Vec<MetricSummary>,
    pub page_info: PageInfo,
}

/// Facets: there are none. It exists for uniformity across resource types.
#[derive(Debug)]
pub struct MetricFacetsResponse {}

/// Query parameters of the list.
#[derive(Debug)]
pub struct MetricListParams {
    /// Sort: `name:asc` (default) or `name:desc`. Any other key is refused.
    pub sort: Option<String>,
    pub first: Option<u32>,
    pub after: Option<String>,
}

impl Default for MetricListParams {
    fn default() -> (r: MetricListParams)
        ensures
            r.sort is None,
            r.first is None,
            r.after is None,
    {
        MetricListParams { sort: None, first: None, after: None }
    }
}

pub const METRIC_COUNT_HEAD: &'static str = "SELECT count(*) FROM dbt.metrics m ";

pub const METRIC_ROWS_HEAD: &'static str =
    "SELECT m.unique_id, m.name, m.package_name, m.group_name, \
     m.metric_type, m.semantic_model_name, m.tags, \
     m.description, m.input_metric_names, m.created_at \
     FROM dbt.metrics m ";

/// Parse `?sort`: by name where none is given.
pub fn parse_metric_sort(sort: Option<&str>) -> (r: Result<(&'static str, SortDir), &'static str>)
    ensures
        match r {
            Ok((column, dir)) => column@ == "name"@ && name_sort(opt_str_text(sort)) == Ok::<
                SortDir,
                Seq<char>,
            >(dir),
            Err(e) => name_sort(opt_str_text(sort)) == Err::<SortDir, Seq<char>>(e@),
        },
{
    parse_name_sort(sort)
}

/// The query for the count. The cursor has no part in it.
pub open spec fn metric_count_sql(params: MetricListParams) -> Seq<char> {
    METRIC_COUNT_HEAD@ + "WHERE 1=1"@
}

/// The query for a page.
pub open spec fn metric_rows_sql(
    params: MetricListParams,
    first: u32,
    dir: SortDir,
    cursor: Option<CursorView>,
) -> Seq<char> {
    METRIC_ROWS_HEAD@ + page_clause("WHERE 1=1"@, "m.name"@, "m.unique_id"@, dir, cursor) + page_order(
        "m.name"@,
        "m.unique_id"@,
        dir,
        first,
    )
}

/// Build `(count_sql, rows_sql)`. The count covers the full set.
pub fn build_metric_list_sql(params: &MetricListParams, first: u32, cursor: Option<&Cursor>) -> (r: Result<
    (String, String),
    &'static str,
>)
    requires
        first < u32::MAX,
    ensures
        match r {
            Ok((count_sql, rows_sql)) => name_sort(opt_text(params.sort)) matches Ok(dir)
                && count_sql@ == metric_count_sql(*params) && rows_sql@ == metric_rows_sql(
                *params,
                first,
                dir,
                cursor_ref(cursor),
            ),
            Err(e) => name_sort(opt_text(params.sort)) == Err::<SortDir, Seq<char>>(e@),
        },
{
    let dir = match parse_metric_sort(as_opt_str(&params.sort)) {
        Ok((_, dir)) => dir,
        Err(e) => return Err(e),
    };
    let filter = "WHERE 1=1".to_owned();
    let mut count_sql = METRIC_COUNT_HEAD.to_owned();
    count_sql.append(filter.as_str());
    let mut rows_sql = METRIC_ROWS_HEAD.to_owned();
    rows_sql.append(
        page_where(filter.as_str(), "m.name", "m.unique_id", dir, cursor).as_str(),
    );
    rows_sql.append(page_order_sql("m.name", "m.unique_id", dir, first).as_str());
    Ok((count_sql, rows_sql))
}

impl FromRow for MetricSummary {
    open spec fn columns() -> Seq<Seq<char>> {
        seq![
            "unique_id"@,
            "name"@,
            "package_name"@,
            "group_name"@,
            "metric_type"@,
            "semantic_model_name"@,
            "description"@,
        ]
    }

    open spec fn flags() -> Seq<Seq<char>> {
        Seq::empty()
    }

    open spec fn is_row(self, batch: Batch, row: int) -> bool {
        &&& self.unique_id == batch.text("unique_id"@, row)
        &&& self.name == batch.text("name"@, row)
        &&& self.package_name == batch.opt_text("package_name"@, row)
        &&& self.group_name == batch.opt_text("group_name"@, row)
        &&& self.metric_type == batch.opt_text("metric_type"@, row)
        &&& self.semantic_model_name == batch.opt_text("semantic_model_name"@, row)
        &&& self.tags@ == list_or_empty(batch, "tags"@, row)
        &&& self.description == batch.opt_text("description"@, row)
        &&& self.input_metric_names@ == list_or_empty(batch, "input_metric_names"@, row)
        &&& !self.input_metric_names_truncated
        &&& self.created_at == batch.opt_f64("created_at"@, row)
    }

    fn from_row(batch: &Batch, row: usize) -> (r: MetricSummary) {
        assert(Self::columns()[0] == "unique_id"@);
        assert(Self::columns()[1] == "name"@);
        MetricSummary {
            unique_id: batch.get_text("unique_id", row),
            name: batch.get_text("name", row),
            package_name: batch.get_opt_text("package_name", row),
            group_name: batch.get_opt_text("group_name", row),
            metric_type: batch.get_opt_text("metric_type", row),
            semantic_model_name: batch.get_opt_text("semantic_model_name", row),
            tags: list_col_at(batch, "tags", row),
            description: batch.get_opt_text("description", row),
            input_metric_names: list_col_at(batch, "input_metric_names", row),
            input_metric_names_truncated: false,
            created_at: batch.get_opt_f64("created_at", row),
        }
    }
}

/// Convert the batches of the query into typed rows.
pub fn batches_to_metric_summary_rows(batches: &Vec<Batch>) -> (r: Vec<MetricSummary>)
    requires
        readable::<MetricSummary>(batches@),
    ensures
        are_rows(r@, batches@),
{
    read_rows(batches)
}

impl Listed for MetricSummary {
    open spec fn key(self, column: Seq<char>) -> CursorView {
        CursorView { sort_value: Some(self.name@), unique_id: self.unique_id@ }
    }

    fn cursor(&self, column: &str) -> (r: Cursor) {
        Cursor { sort_value: Some(self.name.clone()), unique_id: self.unique_id.clone() }
    }
}

/// Check a request for the list and plan it.
pub fn plan_list_metrics(params: &MetricListParams) -> (r: Result<ListPlan, ErrorReply>)
    ensures
        match r {
            Ok(plan) => {
                &&& list_refusal(params.after, sort_fault(name_sort(opt_text(params.sort)))) is None
                &&& plan.first == clamped(params.first, DEFAULT_PAGE_SIZE, MAX_PAGE_SIZE)
                &&& 1 <= plan.first <= MAX_PAGE_SIZE
                &&& plan.probe.wf()
                &&& plan.probe.at == 0
                &&& plan.probe.noun@ == "metric"@
                &&& plan.probe.absent@ == NO_COUNT@
                &&& plan.probe.queries.len() == 1
                &&& plan.probe.queries@[0].count_sql@ == metric_count_sql(*params)
                &&& plan.probe.queries@[0].rows_sql@ == metric_rows_sql(
                    *params,
                    plan.first,
                    name_sort(opt_text(params.sort))->Ok_0,
                    asked_cursor(params.after),
                )
                &&& lists_metric(
                    plan.probe.queries@[0].count_sql@,
                    plan.probe.queries@[0].rows_sql@,
                    *params,
                    plan.first,
                    name_sort(opt_text(params.sort))->Ok_0,
                    asked_cursor(params.after),
                )
            },
            Err(e) => list_refusal(params.after, sort_fault(name_sort(opt_text(params.sort))))
                == Some(e@),
        },
{
    let first: u32 = clamp_first(params.first);
    let cursor = match read_after(&params.after) {
        Ok(cursor) => cursor,
        Err(e) => return Err(e),
    };
    let (count_sql, rows_sql) = match build_metric_list_sql(params, first, cursor.as_ref()) {
        Ok(built) => built,
        Err(msg) => return Err(crate::json::bad_request(msg)),
    };
    proof {
        lemma_metric_list(
            *params,
            first,
            name_sort(opt_text(params.sort))->Ok_0,
            asked_cursor(params.after),
        );
    }
    let mut queries: Vec<ListQuery> = Vec::new();
    queries.push(ListQuery { count_sql, rows_sql });
    let probe = ListProbe::start(queries, "metric");
    Ok(ListPlan { first, probe })
}

/// The page of the list, from the rows that its query gave.
pub fn finish_list_metrics(first: u32, total_count: u64, batches: &Vec<Batch>) -> (r: MetricListResponse)
    requires
        readable::<MetricSummary>(batches@),
    ensures
        exists|rows: Seq<MetricSummary>, n: usize|
            are_rows(rows, batches@) && n == rows.len() && r.data@ == #[trigger] page_of(
                rows,
                n,
                first,
            ) && r.page_info@ == page_info_of(
                total_count,
                keys(r.data@, "name"@),
                overfull(n, first),
            ) && leads_on(r.page_info@, keys(r.data@, "name"@)),
{
    let rows = batches_to_metric_summary_rows(batches);
    let ghost all = rows@;
    let ghost n = rows.len();
    let (data, page_info) = finish_page(rows, first, total_count, "name");
    assert(data@ == page_of(all, n, first));
    MetricListResponse { data, page_info }
}

} // verus!
