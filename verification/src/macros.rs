//! The list of macros, its facets, and the detail of a macro.
//!
//! A macro is a definition only: it was never run and no catalog knows it. What it
//! depends on stands in its own row.
use crate::detail_laws::{lemma_macro_query, reads_macro};
use crate::encoding::JsonNode;
use crate::json::{
    check_unique_id, error_view, json_parse_or_null, parsed_or_null, valid_id, ErrorReply,
};
use crate::list_laws::{lemma_macro_list, lists_macro};
use crate::listing::{
    asked_cursor, finish_page, id_query, id_sql, keys, list_refusal, name_sort, not_found_text,
    page_clause, page_order, page_order_sql, page_where, parse_name_sort, read_after,
    resource_not_found, sort_fault, ListPlan, Listed, LIMIT_ONE,
};
use crate::node_base::{extract_str_list, first_list, or_empty, text_or_empty, EdgeRef, NodeBase};
use crate::pagination::{
    clamp_first, clamped, cursor_ref, leads_on, overfull, page_info_of, page_of, Cursor, CursorView,
    PageInfo, SortDir, DEFAULT_PAGE_SIZE, MAX_PAGE_SIZE,
};
use crate::probe::{ListProbe, ListQuery, NO_COUNT};
use crate::sql::{escape_str, escaped};
use crate::table::{
    all_have_text, all_wf, are_rows, column_texts, find_filled, first_filled, read_column_texts,
    read_rows, readable, Batch, FromRow,
};
use crate::text::{as_opt_str, given, given_text, opt_str_text, opt_text};
use vstd::prelude::*;

verus! {

// ---------------------------------------------------------------------------
// The detail of a macro
// ---------------------------------------------------------------------------

/// The detail of a macro.
#[derive(Debug)]
pub struct MacroDetail {
    pub base: NodeBase,
    pub file_path: Option<String>,
    pub patch_path: Option<String>,
    /// Template source.
    pub macro_sql: Option<String>,
    /// Parsed JSON, or null when absent / unparseable.
    pub arguments: JsonNode,
    /// Upstream macros that this macro calls.
    pub depends_on: Vec<EdgeRef>,
    pub docs_show: Option<bool>,
    pub supported_languages: Vec<String>,
    /// Parsed JSON, or null when absent / unparseable.
    pub meta: JsonNode,
    /// Epoch seconds in floating point, as the bits of the 64-bit form.
    pub created_at: Option<u64>,
}

/// Whether edges are those to some macros, in order.
pub open spec fn are_macro_edges(edges: Seq<EdgeRef>, ids: Seq<String>) -> bool {
    &&& edges.len() == ids.len()
    &&& forall|i: int|
        0 <= i < edges.len() ==> (#[trigger] edges[i]).unique_id == ids[i] && edges[i].edge_type@
            == "macro"@
}

fn macro_edges(ids: Vec<String>) -> (r: Vec<EdgeRef>)
    ensures
        are_macro_edges(r@, ids@),
{
    let mut r: Vec<EdgeRef> = Vec::new();
    let ghost all = ids@;
    for unique_id in it: ids
        invariant
            it.seq() == all,
            r.len() == it.index(),
            forall|i: int|
                0 <= i < r.len() ==> (#[trigger] r@[i]).unique_id == all[i] && r@[i].edge_type@
                    == "macro"@,
    {
        r.push(EdgeRef { unique_id, edge_type: "macro".to_owned() });
    }
    r
}

/// Whether the own fields of a detail are those of the first row of a batch.
pub open spec fn is_macro_detail(d: MacroDetail, batch: Batch) -> bool {
    &&& d.base.unique_id@ == text_or_empty(batch.opt_text("unique_id"@, 0))
    &&& d.base.name@ == text_or_empty(batch.opt_text("name"@, 0))
    &&& d.base.resource_type@ == "macro"@
    &&& d.base.package_name == batch.opt_text("package_name"@, 0)
    &&& d.base.description == batch.opt_text("description"@, 0)
    &&& d.base.original_file_path == batch.opt_text("original_file_path"@, 0)
    &&& d.file_path == batch.opt_text("file_path"@, 0)
    &&& d.patch_path == batch.opt_text("patch_path"@, 0)
    &&& d.macro_sql == batch.opt_text("macro_sql"@, 0)
    &&& d.arguments@ == parsed_or_null(opt_text(batch.opt_text("arguments"@, 0)))
    &&& are_macro_edges(d.depends_on@, first_list(batch, "depends_on_macros"@))
    &&& d.docs_show == batch.opt_bool("docs_show"@, 0)
    &&& d.supported_languages@ == first_list(batch, "supported_languages"@)
    &&& d.meta@ == parsed_or_null(opt_text(batch.opt_text("meta"@, 0)))
    &&& d.created_at == batch.opt_f64("created_at"@, 0)
}

/// Extract the detail of a macro.
pub fn extract_macro_detail(batches: &Vec<Batch>) -> (r: Option<MacroDetail>)
    requires
        all_wf(batches@),
    ensures
        match first_filled(batches@) {
            Some(batch) => r matches Some(d) && is_macro_detail(d, batch),
            None => r is None,
        },
{
    match find_filled(batches) {
        Some(batch) => Some(
            MacroDetail {
                base: NodeBase {
                    unique_id: or_empty(batch.get_opt_text("unique_id", 0)),
                    name: or_empty(batch.get_opt_text("name", 0)),
                    resource_type: "macro".to_owned(),
                    package_name: batch.get_opt_text("package_name", 0),
                    description: batch.get_opt_text("description", 0),
                    original_file_path: batch.get_opt_text("original_file_path", 0),
                },
                file_path: batch.get_opt_text("file_path", 0),
                patch_path: batch.get_opt_text("patch_path", 0),
                macro_sql: batch.get_opt_text("macro_sql", 0),
                arguments: json_parse_or_null(as_opt_str(&batch.get_opt_text("arguments", 0))),
                depends_on: macro_edges(extract_str_list(batch, "depends_on_macros")),
                docs_show: batch.get_opt_bool("docs_show", 0),
                supported_languages: extract_str_list(batch, "supported_languages"),
                meta: json_parse_or_null(as_opt_str(&batch.get_opt_text("meta", 0))),
                created_at: batch.get_opt_f64("created_at", 0),
            },
        ),
        None => None,
    }
}

pub const MACRO_DETAIL_HEAD: &'static str = "SELECT unique_id, name, package_name, description, \
     original_file_path, file_path, patch_path, \
     macro_sql, arguments, meta, \
     docs_show, supported_languages, depends_on_macros, \
     created_at \
     FROM dbt.macros \
     WHERE unique_id = '";

/// Check the unique id and build the query for the detail.
pub fn plan_get_macro(unique_id: &str) -> (r: Result<String, ErrorReply>)
    ensures
        match r {
            Ok(sql) => valid_id(unique_id@) && sql@ == id_query(MACRO_DETAIL_HEAD@, unique_id@, LIMIT_ONE@) && reads_macro(sql@, unique_id@),
            Err(e) => !valid_id(unique_id@) && e@ == error_view(400, "invalid unique_id"@),
        },
{
    proof {
        lemma_macro_query(unique_id@);
    }
    match check_unique_id(unique_id) {
        Ok(_) => Ok(id_sql(MACRO_DETAIL_HEAD, unique_id, LIMIT_ONE)),
        Err(e) => Err(e),
    }
}

/// The detail, from what the query gave.
pub fn finish_get_macro(unique_id: &str, batches: &Vec<Batch>) -> (r: Result<MacroDetail, ErrorReply>)
    requires
        all_wf(batches@),
    ensures
        match first_filled(batches@) {
            Some(batch) => r matches Ok(d) && is_macro_detail(d, batch),
            None => r matches Err(e) && e@ == error_view(404, not_found_text("macro"@, unique_id@)),
        },
{
    match extract_macro_detail(batches) {
        Some(detail) => Ok(detail),
        None => Err(resource_not_found("macro", unique_id)),
    }
}

// ---------------------------------------------------------------------------
// The list of macros
// ---------------------------------------------------------------------------

/// One row of the list of macros.
#[derive(Debug)]
pub struct MacroSummary {
    pub unique_id: String,
    pub name: String,
    pub package_name: Option<String>,
    pub description: Option<String>,
    /// Parsed JSON, or null when absent / unparseable.
    pub arguments: JsonNode,
}

/// Cursor-paginated response of the list.
#[derive(Debug)]
pub struct MacroListResponse {
    pub data: Vec<MacroSummary>,
    pub page_info: PageInfo,
}

/// Query parameters of the list.
#[derive(Debug)]
pub struct MacroListParams {
    /// Exact-match package name filter. Empty string treated as absent.
    pub package: Option<String>,
    /// Sort: `name:asc` (default) or `name:desc`. Any other key is refused.
    pub sort: Option<String>,
    pub first: Option<u32>,
    pub after: Option<String>,
}

impl Default for MacroListParams {
    fn default() -> (r: MacroListParams)
        ensures
            r.package is None,
            r.sort is None,
            r.first is None,
            r.after is None,
    {
        MacroListParams { package: None, sort: None, first: None, after: None }
    }
}

pub const MACRO_COUNT_HEAD: &'static str = "SELECT count(*) FROM dbt.macros m ";

pub const MACRO_ROWS_HEAD: &'static str =
    "SELECT m.unique_id, m.name, m.package_name, m.description, m.arguments \
     FROM dbt.macros m ";

/// The `WHERE` clause of the filters.
pub open spec fn macro_filter(params: MacroListParams) -> Seq<char> {
    match given_text(params.package) {
        Some(package) => "WHERE 1=1"@ + " AND package_name = '"@ + escaped(package) + "'"@,
        None => "WHERE 1=1"@,
    }
}

/// Parse `?sort`: by name where none is given.
pub fn parse_macro_sort(sort: Option<&str>) -> (r: Result<(&'static str, SortDir), &'static str>)
    ensures
        match r {
            Ok((column, dir)) => column@ == "name"@ && name_sort(opt_str_text(sort)) == Ok::<
                SortDir,
                Seq<char>,
            >(dir),
            Err(e) => name_sort(opt_str_text(sort)) == Err::<SortDir, Seq<char>>(e@),
        },
{
    parse_name_sort(sort)
}

/// The query for the count. The cursor has no part in it.
pub open spec fn macro_count_sql(params: MacroListParams) -> Seq<char> {
    MACRO_COUNT_HEAD@ + macro_filter(params)
}

/// The total is the same on every page: the count does not depend on the cursor.
pub proof fn lemma_total_is_the_same_on_every_page(params: MacroListParams, after: Option<String>)
    ensures
        macro_count_sql((MacroListParams { after, ..params })) == macro_count_sql(params),
{
}

/// The query for a page.
pub open spec fn macro_rows_sql(
    params: MacroListParams,
    first: u32,
    dir: SortDir,
    cursor: Option<CursorView>,
) -> Seq<char> {
    MACRO_ROWS_HEAD@ + page_clause(macro_filter(params), "m.name"@, "m.unique_id"@, dir, cursor) + page_order(
        "m.name"@,
        "m.unique_id"@,
        dir,
        first,
    )
}

/// Build `(count_sql, rows_sql)`. The count covers the full
/// filter-matching set.
pub fn build_macro_list_sql(params: &MacroListParams, first: u32, cursor: Option<&Cursor>) -> (r: Result<
    (String, String),
    &'static str,
>)
    requires
        first < u32::MAX,
    ensures
        match r {
            Ok((count_sql, rows_sql)) => name_sort(opt_text(params.sort)) matches Ok(dir)
                && count_sql@ == macro_count_sql(*params) && rows_sql@ == macro_rows_sql(
                *params,
                first,
                dir,
                cursor_ref(cursor),
            ),
            Err(e) => name_sort(opt_text(params.sort)) == Err::<SortDir, Seq<char>>(e@),
        },
{
    let dir = match parse_macro_sort(as_opt_str(&params.sort)) {
        Ok((_, dir)) => dir,
        Err(e) => return Err(e),
    };
    let mut filter = "WHERE 1=1".to_owned();
    if let Some(package) = given(&params.package) {
        filter.append(" AND package_name = '");
        filter.append(escape_str(package).as_str());
        filter.append("'");
    }
    let mut count_sql = MACRO_COUNT_HEAD.to_owned();
    count_sql.append(filter.as_str());
    let mut rows_sql = MACRO_ROWS_HEAD.to_owned();
    rows_sql.append(
        page_where(filter.as_str(), "m.name", "m.unique_id", dir, cursor).as_str(),
    );
    rows_sql.append(page_order_sql("m.name", "m.unique_id", dir, first).as_str());
    Ok((count_sql, rows_sql))
}

impl FromRow for MacroSummary {
    open spec fn columns() -> Seq<Seq<char>> {
        seq![
            "unique_id"@,
            "name"@,
            "package_name"@,
            "description"@,
            "arguments"@,
        ]
    }

    open spec fn flags() -> Seq<Seq<char>> {
        Seq::empty()
    }

    open spec fn is_row(self, batch: Batch, row: int) -> bool {
        &&& self.unique_id == batch.text("unique_id"@, row)
        &&& self.name == batch.text("name"@, row)
        &&& self.package_name == batch.opt_text("package_name"@, row)
        &&& self.description == batch.opt_text("description"@, row)
        &&& self.arguments@ == parsed_or_null(opt_text(batch.opt_text("arguments"@, row)))
    }

    fn from_row(batch: &Batch, row: usize) -> (r: MacroSummary) {
        assert(Self::columns()[0] == "unique_id"@);
        assert(Self::columns()[1] == "name"@);
        MacroSummary {
            unique_id: batch.get_text("unique_id", row),
            name: batch.get_text("name", row),
            package_name: batch.get_opt_text("package_name", row),
            description: batch.get_opt_text("description", row),
            arguments: json_parse_or_null(as_opt_str(&batch.get_opt_text("arguments", row))),
        }
    }
}

/// Convert the batches of the query into typed rows.
pub fn batches_to_macro_summary_rows(batches: &Vec<Batch>) -> (r: Vec<MacroSummary>)
    requires
        readable::<MacroSummary>(batches@),
    ensures
        are_rows(r@, batches@),
{
    read_rows(batches)
}

impl Listed for MacroSummary {
    open spec fn key(self, column: Seq<char>) -> CursorView {
        CursorView { sort_value: Some(self.name@), unique_id: self.unique_id@ }
    }

    fn cursor(&self, column: &str) -> (r: Cursor) {
        Cursor { sort_value: Some(self.name.clone()), unique_id: self.unique_id.clone() }
    }
}

/// Check a request for the list and plan it.
pub fn plan_list_macros(params: &MacroListParams) -> (r: Result<ListPlan, ErrorReply>)
    ensures
        match r {
            Ok(plan) => {
                &&& list_refusal(params.after, sort_fault(name_sort(opt_text(params.sort)))) is None
                &&& plan.first == clamped(params.first, DEFAULT_PAGE_SIZE, MAX_PAGE_SIZE)
                &&& 1 <= plan.first <= MAX_PAGE_SIZE
                &&& plan.probe.wf()
                &&& plan.probe.at == 0
                &&& plan.probe.noun@ == "macro"@
                &&& plan.probe.absent@ == NO_COUNT@
                &&& plan.probe.queries.len() == 1
                &&& plan.probe.queries@[0].count_sql@ == macro_count_sql(*params)
                &&& plan.probe.queries@[0].rows_sql@ == macro_rows_sql(
                    *params,
                    plan.first,
                    name_sort(opt_text(params.sort))->Ok_0,
                    asked_cursor(params.after),
                )
                &&& lists_macro(
                    plan.probe.queries@[0].count_sql@,
                    plan.probe.queries@[0].rows_sql@,
                    *params,
                    plan.first,
                    name_sort(opt_text(params.sort))->Ok_0,
                    asked_cursor(params.after),
                )
            },
            Err(e) => list_refusal(params.after, sort_fault(name_sort(opt_text(params.sort))))
                == Some(e@),
        },
{
    let first: u32 = clamp_first(params.first);
    let cursor = match read_after(&params.after) {
        Ok(cursor) => cursor,
        Err(e) => return Err(e),
    };
    let (count_sql, rows_sql) = match build_macro_list_sql(params, first, cursor.as_ref()) {
        Ok(built) => built,
        Err(msg) => return Err(crate::json::bad_request(msg)),
    };
    proof {
        lemma_macro_list(
            *params,
            first,
            name_sort(opt_text(params.sort))->Ok_0,
            asked_cursor(params.after),
        );
    }
    let mut queries: Vec<ListQuery> = Vec::new();
    queries.push(ListQuery { count_sql, rows_sql });
    let probe = ListProbe::start(queries, "macro");
    Ok(ListPlan { first, probe })
}

/// The page of the list, from the rows that its query gave.
pub fn finish_list_macros(first: u32, total_count: u64, batches: &Vec<Batch>) -> (r: MacroListResponse)
    requires
        readable::<MacroSummary>(batches@),
    ensures
        exists|rows: Seq<MacroSummary>, n: usize|
            are_rows(rows, batches@) && n == rows.len() && r.data@ == #[trigger] page_of(
                rows,
                n,
                first,
            ) && r.page_info@ == page_info_of(
                total_count,
                keys(r.data@, "name"@),
                overfull(n, first),
            ) && leads_on(r.page_info@, keys(r.data@, "name"@)),
{
    let rows = batches_to_macro_summary_rows(batches);
    let ghost all = rows@;
    let ghost n = rows.len();
    let (data, page_info) = finish_page(rows, first, total_count, "name");
    assert(data@ == page_of(all, n, first));
    MacroListResponse { data, page_info }
}

// ---------------------------------------------------------------------------
// Facets
// ---------------------------------------------------------------------------

/// One package facet option. The count is not known today.
#[derive(Debug)]
pub struct MacroFacetValue {
    pub value: String,
    pub count: Option<u64>,
}

impl MacroFacetValue {
    /// A facet option without a count.
    pub fn new(value: String) -> (r: MacroFacetValue)
        ensures
            r.value == value,
            r.count is None,
    {
        MacroFacetValue { value, count: None }
    }
}

/// Facets of macros.
#[derive(Debug)]
pub struct MacroFacetsResponse {
    pub packages: Vec<MacroFacetValue>,
}

pub const PACKAGES_FACET_SQL: &'static str = "\
SELECT DISTINCT package_name AS value \
FROM dbt.macros \
WHERE package_name IS NOT NULL \
ORDER BY value";

/// Whether facet options are some values, in order, without counts.
pub open spec fn are_macro_facets(facets: Seq<MacroFacetValue>, values: Seq<String>) -> bool {
    &&& facets.len() == values.len()
    &&& forall|i: int|
        0 <= i < facets.len() ==> (#[trigger] facets[i]).value == values[i] && facets[i].count is None
}

/// Extract the `value` strings that are not null, as facet options.
pub fn batches_to_macro_facet_values(batches: &Vec<Batch>) -> (r: Vec<MacroFacetValue>)
    requires
        all_wf(batches@),
        all_have_text(batches@, "value"@),
    ensures
        are_macro_facets(r@, column_texts(batches@, "value"@)),
{
    let values = read_column_texts(batches, "value");
    let ghost all = values@;
    let mut r: Vec<MacroFacetValue> = Vec::new();
    for value in it: values
        invariant
            it.seq() == all,
            r.len() == it.index(),
            forall|i: int|
                0 <= i < r.len() ==> (#[trigger] r@[i]).value == all[i] && r@[i].count is None,
    {
        r.push(MacroFacetValue::new(value));
    }
    r
}

/// The facets of macros, from what the query gave.
pub fn finish_macro_facets(batches: &Vec<Batch>) -> (r: MacroFacetsResponse)
    requires
        all_wf(batches@),
        all_have_text(batches@, "value"@),
    ensures
        are_macro_facets(r.packages@, column_texts(batches@, "value"@)),
{
    MacroFacetsResponse { packages: batches_to_macro_facet_values(batches) }
}

} // verus!
