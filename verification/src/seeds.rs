//! The list of seeds and the detail of a seed.
//!
//! A seed has no upstream references and no code; it is a file loaded as a table.
use crate::detail_laws::{
    lemma_catalog_query, lemma_catalog_stats_query, lemma_children_query, lemma_columns_query,
    lemma_last_run_query, lemma_seed_query, reads_catalog, reads_catalog_stats, reads_children,
    reads_columns, reads_last_run, reads_seed,
};
use crate::encoding::JsonNode;
use crate::json::{
    check_unique_id, error_view, json_parse_or_null, parsed_or_null, valid_id, ErrorReply,
};
use crate::listing::{
    asked_cursor, finish_page, id_query, id_sql, keys, list_refusal, not_found_text, page_clause,
    page_order, page_order_sql, page_where, read_after, resource_not_found, ListPlan, Listed,
    CATALOG_HEAD, COLUMNS_HEAD, COLUMNS_TAIL, DOWNSTREAM_HEAD, DOWNSTREAM_TAIL, LIMIT_ONE,
    RUN_RESULT_HEAD, RUN_RESULT_TAIL,
};
use crate::models::{find_in, lookup, pairs_view};
use crate::node_base::{
    extract_edge_refs, extract_str_list, first_list, is_last_run, last_run, opt_wf, or_empty,
    text_or_empty, EdgeRef, ExecutionInfo, NodeBase,
};
use crate::pagination::{
    clamp_first, clamped, cursor_ref, leads_on, overfull, page_info_of, page_of, Cursor, CursorView,
    PageInfo, SortDir, DEFAULT_PAGE_SIZE, MAX_PAGE_SIZE,
};
use crate::probe::{ListProbe, ListQuery, NO_COUNT};
use crate::table::{
    all_wf, are_rows, find_filled, first_filled, read_rows, readable, Batch, FromRow,
};
use crate::text::{
    as_opt_str, clone_opt, given, given_text, opt_text, same, signed_decimal, split_at_first,
    split_once, to_signed_decimal,
};
use vstd::prelude::*;

verus! {

// ---------------------------------------------------------------------------
// The detail of a seed
// ---------------------------------------------------------------------------

/// The detail of a seed.
#[derive(Debug)]
pub struct SeedDetail {
    pub base: NodeBase,
    /// Project-relative path of the file.
    pub file_path: Option<String>,
    /// Project-relative path of the patch file.
    pub patch_path: Option<String>,
    pub tags: Vec<String>,
    pub fqn: Vec<String>,
    pub database_name: Option<String>,
    pub schema_name: Option<String>,
    /// Warehouse table name.
    pub identifier: Option<String>,
    /// Parsed JSON, or null when absent / unparseable.
    pub meta: JsonNode,
    pub columns: Vec<SeedColumn>,
    /// Downstream consumers.
    pub referenced_by: Vec<EdgeRef>,
    /// Null when the seed was not run.
    pub execution_info: Option<ExecutionInfo>,
    /// Null when the catalog does not know the seed.
    pub catalog: Option<SeedCatalogInfo>,
}

/// A column of a seed.
#[derive(Debug)]
pub struct SeedColumn {
    pub name: String,
    pub index: Option<i64>,
    pub data_type: Option<String>,
    pub declared_type: Option<String>,
    pub inferred_type: Option<String>,
    pub catalog_type: Option<String>,
    pub description: Option<String>,
    pub label: Option<String>,
    pub granularity: Option<String>,
}

/// What the catalog knows of a seed.
#[derive(Debug)]
pub struct SeedCatalogInfo {
    pub table_type: Option<String>,
    pub owner: Option<String>,
    pub row_count_stat: Option<i64>,
    pub bytes_stat: Option<i64>,
    pub stats: Vec<CatalogStat>,
}

/// A statistic of the catalog.
#[derive(Debug)]
pub struct CatalogStat {
    pub id: String,
    pub label: String,
    pub value: String,
    pub description: String,
    pub include_in_stats: bool,
}

/// Whether the own fields of a detail are those of the first row of a batch.
pub open spec fn is_seed_detail(d: SeedDetail, batch: Batch) -> bool {
    &&& d.base.unique_id@ == text_or_empty(batch.opt_text("unique_id"@, 0))
    &&& d.base.name@ == text_or_empty(batch.opt_text("name"@, 0))
    &&& d.base.resource_type@ == text_or_empty(batch.opt_text("resource_type"@, 0))
    &&& d.base.package_name == batch.opt_text("package_name"@, 0)
    &&& d.base.description == batch.opt_text("description"@, 0)
    &&& d.base.original_file_path == batch.opt_text("original_file_path"@, 0)
    &&& d.file_path == batch.opt_text("file_path"@, 0)
    &&& d.patch_path == batch.opt_text("patch_path"@, 0)
    &&& d.tags@ == first_list(batch, "tags"@)
    &&& d.fqn@ == first_list(batch, "fqn"@)
    &&& d.database_name == batch.opt_text("database_name"@, 0)
    &&& d.schema_name == batch.opt_text("schema_name"@, 0)
    &&& d.identifier == batch.opt_text("identifier"@, 0)
    &&& d.meta@ == parsed_or_null(opt_text(batch.opt_text("meta"@, 0)))
}

/// Extract the own fields of a seed; what comes from other queries is left empty.
pub fn extract_seed_detail(batches: &Vec<Batch>) -> (r: Option<SeedDetail>)
    requires
        all_wf(batches@),
    ensures
        match first_filled(batches@) {
            Some(batch) => r matches Some(d) && is_seed_detail(d, batch) && d.columns@.len() == 0
                && d.referenced_by@.len() == 0 && d.execution_info is None && d.catalog is None,
            None => r is None,
        },
{
    match find_filled(batches) {
        Some(batch) => {
            let meta = batch.get_opt_text("meta", 0);
            Some(
                SeedDetail {
                    base: NodeBase {
                        unique_id: or_empty(batch.get_opt_text("unique_id", 0)),
                        name: or_empty(batch.get_opt_text("name", 0)),
                        resource_type: or_empty(batch.get_opt_text("resource_type", 0)),
                        package_name: batch.get_opt_text("package_name", 0),
                        description: batch.get_opt_text("description", 0),
                        original_file_path: batch.get_opt_text("original_file_path", 0),
                    },
                    file_path: batch.get_opt_text("file_path", 0),
                    patch_path: batch.get_opt_text("patch_path", 0),
                    tags: extract_str_list(batch, "tags"),
                    fqn: extract_str_list(batch, "fqn"),
                    database_name: batch.get_opt_text("database_name", 0),
                    schema_name: batch.get_opt_text("schema_name", 0),
                    identifier: batch.get_opt_text("identifier", 0),
                    meta: json_parse_or_null(as_opt_str(&meta)),
                    columns: Vec::new(),
                    referenced_by: Vec::new(),
                    execution_info: None,
                    catalog: None,
                },
            )
        },
        None => None,
    }
}

impl FromRow for SeedColumn {
    open spec fn columns() -> Seq<Seq<char>> {
        seq![
            "name"@,
            "data_type"@,
            "declared_type"@,
            "inferred_type"@,
            "catalog_type"@,
            "description"@,
            "label"@,
            "granularity"@,
        ]
    }

    open spec fn flags() -> Seq<Seq<char>> {
        Seq::empty()
    }

    open spec fn is_row(self, batch: Batch, row: int) -> bool {
        &&& self.name == batch.text("name"@, row)
        &&& self.index == batch.opt_i64("index"@, row)
        &&& self.data_type == batch.opt_text("data_type"@, row)
        &&& self.declared_type == batch.opt_text("declared_type"@, row)
        &&& self.inferred_type == batch.opt_text("inferred_type"@, row)
        &&& self.catalog_type == batch.opt_text("catalog_type"@, row)
        &&& self.description == batch.opt_text("description"@, row)
        &&& self.label == batch.opt_text("label"@, row)
        &&& self.granularity == batch.opt_text("granularity"@, row)
    }

    fn from_row(batch: &Batch, row: usize) -> (r: SeedColumn) {
        assert(Self::columns()[0] == "name"@);
        SeedColumn {
            name: batch.get_text("name", row),
            index: batch.get_opt_i64("index", row),
            data_type: batch.get_opt_text("data_type", row),
            declared_type: batch.get_opt_text("declared_type", row),
            inferred_type: batch.get_opt_text("inferred_type", row),
            catalog_type: batch.get_opt_text("catalog_type", row),
            description: batch.get_opt_text("description", row),
            label: batch.get_opt_text("label", row),
            granularity: batch.get_opt_text("granularity", row),
        }
    }
}

/// Extract the columns of a seed.
pub fn extract_seed_columns(batches: &Vec<Batch>) -> (r: Vec<SeedColumn>)
    requires
        readable::<SeedColumn>(batches@),
    ensures
        are_rows(r@, batches@),
{
    read_rows(batches)
}

impl FromRow for CatalogStat {
    open spec fn columns() -> Seq<Seq<char>> {
        seq!["id"@, "label"@, "value"@, "description"@]
    }

    open spec fn flags() -> Seq<Seq<char>> {
        Seq::empty()
    }

    open spec fn is_row(self, batch: Batch, row: int) -> bool {
        &&& self.id == batch.text("id"@, row)
        &&& self.label@ == text_or_empty(batch.opt_text("label"@, row))
        &&& self.value@ == text_or_empty(batch.opt_text("value"@, row))
        &&& self.description@ == text_or_empty(batch.opt_text("description"@, row))
        &&& self.include_in_stats == (batch.opt_bool("include"@, row) == Some(true))
    }

    fn from_row(batch: &Batch, row: usize) -> (r: CatalogStat) {
        assert(Self::columns()[0] == "id"@);
        CatalogStat {
            id: batch.get_text("id", row),
            label: or_empty(batch.get_opt_text("label", row)),
            value: or_empty(batch.get_opt_text("value", row)),
            description: or_empty(batch.get_opt_text("description", row)),
            include_in_stats: match batch.get_opt_bool("include", row) {
                Some(b) => b,
                None => false,
            },
        }
    }
}

/// Extract the statistics of the catalog.
pub fn extract_catalog_stats(batches: &Vec<Batch>) -> (r: Vec<CatalogStat>)
    requires
        readable::<CatalogStat>(batches@),
    ensures
        are_rows(r@, batches@),
{
    read_rows(batches)
}

/// Whether the catalog info is that of the first row of the tables, if there is one,
/// with all statistics.
pub open spec fn is_seed_catalog(
    r: Option<SeedCatalogInfo>,
    tables: Seq<Batch>,
    stats: Seq<Batch>,
) -> bool {
    match first_filled(tables) {
        Some(batch) => r matches Some(info) && {
            &&& info.table_type == batch.opt_text("type"@, 0)
            &&& info.owner == batch.opt_text("owner"@, 0)
            &&& info.bytes_stat == batch.opt_i64("bytes_stat"@, 0)
            &&& info.row_count_stat == batch.opt_i64("row_count_stat"@, 0)
            &&& are_rows(info.stats@, stats)
        },
        None => r is None,
    }
}

/// Extract what the catalog knows of a seed.
pub fn extract_seed_catalog(table_batches: &Vec<Batch>, stats_batches: &Vec<Batch>) -> (r: Option<
    SeedCatalogInfo,
>)
    requires
        all_wf(table_batches@),
        readable::<CatalogStat>(stats_batches@),
    ensures
        is_seed_catalog(r, table_batches@, stats_batches@),
{
    match find_filled(table_batches) {
        Some(batch) => Some(
            SeedCatalogInfo {
                table_type: batch.get_opt_text("type", 0),
                owner: batch.get_opt_text("owner", 0),
                bytes_stat: batch.get_opt_i64("bytes_stat", 0),
                row_count_stat: batch.get_opt_i64("row_count_stat", 0),
                stats: extract_catalog_stats(stats_batches),
            },
        ),
        None => None,
    }
}

pub const SEED_NODE_HEAD: &'static str =
    "SELECT n.unique_id, n.name, n.resource_type, n.package_name, n.description, \
     n.original_file_path, n.file_path, n.patch_path, \
     n.database_name, n.schema_name, n.alias AS identifier, n.meta, \
     n.tags, n.fqn \
     FROM dbt.nodes n \
     WHERE n.unique_id = '";

pub const SEED_NODE_TAIL: &'static str = "' AND n.resource_type = 'seed' LIMIT 1";

pub const CATALOG_STATS_HEAD: &'static str =
    "SELECT stat_id AS id, stat_label AS label, stat_value AS value, \
     description, include_in_stats AS include \
     FROM dbt.catalog_stats \
     WHERE unique_id = '";

pub const CATALOG_STATS_TAIL: &'static str = "' ORDER BY stat_id";

/// The queries for the detail of a seed. The last three are of views that may be
/// absent.
#[derive(Debug)]
pub struct SeedQueries {
    pub node: String,
    pub columns: String,
    pub downstream: String,
    pub run_result: String,
    pub catalog: String,
    pub catalog_stats: String,
}

/// Check the unique id of a seed and build the queries for its detail.
pub fn plan_get_seed(unique_id: &str) -> (r: Result<SeedQueries, ErrorReply>)
    ensures
        match r {
            Ok(q) => {
                &&& valid_id(unique_id@)
                &&& q.node@ == id_query(SEED_NODE_HEAD@, unique_id@, SEED_NODE_TAIL@)
                &&& reads_seed(q.node@, unique_id@)
                &&& q.columns@ == id_query(COLUMNS_HEAD@, unique_id@, COLUMNS_TAIL@)
                &&& reads_columns(q.columns@, unique_id@)
                &&& q.downstream@ == id_query(DOWNSTREAM_HEAD@, unique_id@, DOWNSTREAM_TAIL@)
                &&& reads_children(q.downstream@, unique_id@)
                &&& q.run_result@ == id_query(RUN_RESULT_HEAD@, unique_id@, RUN_RESULT_TAIL@)
                &&& reads_last_run(q.run_result@, unique_id@)
                &&& q.catalog@ == id_query(CATALOG_HEAD@, unique_id@, LIMIT_ONE@)
                &&& reads_catalog(q.catalog@, unique_id@)
                &&& q.catalog_stats@ == id_query(
                    CATALOG_STATS_HEAD@,
                    unique_id@,
                    CATALOG_STATS_TAIL@,
                )
                &&& reads_catalog_stats(q.catalog_stats@, unique_id@)
            },
            Err(e) => !valid_id(unique_id@) && e@ == error_view(400, "invalid unique_id"@),
        },
{
    proof {
        lemma_seed_query(unique_id@);
        lemma_columns_query(unique_id@);
        lemma_children_query(unique_id@);
        lemma_last_run_query(unique_id@);
        lemma_catalog_query(unique_id@);
        lemma_catalog_stats_query(unique_id@);
    }
    match check_unique_id(unique_id) {
        Ok(_) => {},
        Err(e) => return Err(e),
    }
    Ok(
        SeedQueries {
            node: id_sql(SEED_NODE_HEAD, unique_id, SEED_NODE_TAIL),
            columns: id_sql(COLUMNS_HEAD, unique_id, COLUMNS_TAIL),
            downstream: id_sql(DOWNSTREAM_HEAD, unique_id, DOWNSTREAM_TAIL),
            run_result: id_sql(RUN_RESULT_HEAD, unique_id, RUN_RESULT_TAIL),
            catalog: id_sql(CATALOG_HEAD, unique_id, LIMIT_ONE),
            catalog_stats: id_sql(CATALOG_STATS_HEAD, unique_id, CATALOG_STATS_TAIL),
        },
    )
}

/// The batches of a query that may have failed; none where it did.
pub open spec fn batches_or_none(batches: Option<Vec<Batch>>) -> Seq<Batch> {
    match batches {
        Some(batches) => batches@,
        None => Seq::empty(),
    }
}

/// The detail of a seed, from what its queries gave. `None` stands for a query whose
/// view is absent. Without the tables of the catalog there is no catalog info;
/// without its statistics there are none in it.
pub fn finish_get_seed(
    unique_id: &str,
    node: &Vec<Batch>,
    columns: &Vec<Batch>,
    downstream: &Vec<Batch>,
    run_result: &Option<Vec<Batch>>,
    catalog: &Option<Vec<Batch>>,
    catalog_stats: &Option<Vec<Batch>>,
) -> (r: Result<SeedDetail, ErrorReply>)
    requires
        all_wf(node@),
        readable::<SeedColumn>(columns@),
        readable::<EdgeRef>(downstream@),
        opt_wf(*run_result),
        opt_wf(*catalog),
        readable::<CatalogStat>(batches_or_none(*catalog_stats)),
    ensures
        match first_filled(node@) {
            Some(batch) => r matches Ok(d) && {
                &&& is_seed_detail(d, batch)
                &&& are_rows(d.columns@, columns@)
                &&& are_rows(d.referenced_by@, downstream@)
                &&& is_last_run(d.execution_info, *run_result)
                &&& match *catalog {
                    Some(tables) => is_seed_catalog(
                        d.catalog,
                        tables@,
                        batches_or_none(*catalog_stats),
                    ),
                    None => d.catalog is None,
                }
            },
            None => r matches Err(e) && e@ == error_view(404, not_found_text("seed"@, unique_id@)),
        },
{
    match extract_seed_detail(node) {
        Some(detail) => {
            let mut detail = detail;
            detail.columns = extract_seed_columns(columns);
            detail.referenced_by = extract_edge_refs(downstream);
            detail.execution_info = last_run(run_result);
            detail.catalog = match catalog {
                Some(tables) => match catalog_stats {
                    Some(stats) => extract_seed_catalog(tables, stats),
                    None => {
                        let stats: Vec<Batch> = Vec::new();
                        assert(stats@ =~= batches_or_none(*catalog_stats));
                        extract_seed_catalog(tables, &stats)
                    },
                },
                None => None,
            };
            Ok(detail)
        },
        None => Err(resource_not_found("seed", unique_id)),
    }
}

// ---------------------------------------------------------------------------
// The list of seeds
// ---------------------------------------------------------------------------

/// One row of the list of seeds.
#[derive(Debug)]
pub struct SeedSummary {
    pub unique_id: String,
    pub name: String,
    pub resource_type: String,
    pub package_name: Option<String>,
    pub description: Option<String>,
    pub original_file_path: Option<String>,
    /// Approximate row count; null when not known.
    pub row_count: Option<i64>,
    /// ISO 8601 completion timestamp; null when the seed was not run.
    pub executed_at: Option<String>,
}

/// Response of the list of seeds.
#[derive(Debug)]
pub struct SeedListResponse {
    pub data: Vec<SeedSummary>,
    pub page_info: PageInfo,
}

/// Facets of seeds: there are none. It exists for uniformity across resource types.
#[derive(Debug)]
pub struct SeedFacetsResponse {}

/// Query parameters of the list of seeds.
#[derive(Debug)]
pub struct SeedListParams {
    /// Sort spec `<column>:<asc|desc>`, by `name`, `row_count` or `executed_at`.
    /// Default: `name:asc`.
    pub sort: Option<String>,
    pub first: Option<u32>,
    pub after: Option<String>,
}

impl Default for SeedListParams {
    fn default() -> (r: SeedListParams)
        ensures
            r.sort is None,
            r.first is None,
            r.after is None,
    {
        SeedListParams { sort: None, first: None, after: None }
    }
}

/// What the list of seeds is sorted by.
#[derive(Debug)]
pub struct SortSelection {
    pub sql_expr: &'static str,
    pub dir: SortDir,
}

/// The expression of the time of a seed's last run. It needs the run results.
pub const EXECUTED_AT: &'static str = "CAST(lr.executed_at AS VARCHAR)";

/// The expression of a seed's row count. It needs the catalog's statistics.
pub const ROW_COUNT: &'static str = "rc.row_count";

/// The columns that the list can be sorted by, each with its expression.
pub open spec fn sortable_columns() -> Seq<(Seq<char>, Seq<char>)> {
    seq![
        ("name"@, "n.name"@),
        ("row_count"@, ROW_COUNT@),
        ("executed_at"@, EXECUTED_AT@),
    ]
}

/// What `<column>:<direction>` stands for: the expression and the direction.
pub open spec fn parsed_sort(s: Seq<char>) -> Result<(Seq<char>, SortDir), Seq<char>> {
    match split_at_first(s, ':') {
        Some((column, dir)) => if dir != "asc"@ && dir != "desc"@ {
            Err("sort direction must be 'asc' or 'desc'"@)
        } else {
            match lookup(sortable_columns(), column) {
                Some(expr) => Ok(
                    (
                        expr,
                        if dir == "asc"@ {
                            SortDir::Asc
                        } else {
                            SortDir::Desc
                        },
                    ),
                ),
                None => Err("unknown sort column"@),
            }
        },
        None => Err("sort must be in format <column>:<asc|desc>"@),
    }
}

/// Parse `"field:dir"`.
pub fn parse_sort(s: &str) -> (r: Result<SortSelection, &'static str>)
    ensures
        match r {
            Ok(sort) => parsed_sort(s@) == Ok::<(Seq<char>, SortDir), Seq<char>>(
                (sort.sql_expr@, sort.dir),
            ),
            Err(e) => parsed_sort(s@) == Err::<(Seq<char>, SortDir), Seq<char>>(e@),
        },
{
    let (column, dir) = match split_once(s, ':') {
        Some(parts) => parts,
        None => return Err("sort must be in format <column>:<asc|desc>"),
    };
    let dir = if same(dir.as_str(), "asc") {
        SortDir::Asc
    } else if same(dir.as_str(), "desc") {
        SortDir::Desc
    } else {
        return Err("sort direction must be 'asc' or 'desc'");
    };
    let table: Vec<(&'static str, &'static str)> = vec![
        ("name", "n.name"),
        ("row_count", ROW_COUNT),
        ("executed_at", EXECUTED_AT),
    ];
    assert(pairs_view(table@) =~= sortable_columns());
    match find_in(&table, column.as_str()) {
        Some(sql_expr) => Ok(SortSelection { sql_expr, dir }),
        None => Err("unknown sort column"),
    }
}

/// What the list is sorted by: by name where no sort is given.
pub open spec fn asked_sort(params: SeedListParams) -> Result<(Seq<char>, SortDir), Seq<char>> {
    match given_text(params.sort) {
        Some(s) => parsed_sort(s),
        None => Ok(("n.name"@, SortDir::Asc)),
    }
}

/// What is wrong with the parameters, if anything is. Which views are there has no
/// part in it.
pub open spec fn list_fault(params: SeedListParams) -> Option<Seq<char>> {
    match asked_sort(params) {
        Ok(_) => None,
        Err(e) => Some(e),
    }
}

pub const LAST_RUN_CTE: &'static str = "last_run AS (\
      SELECT unique_id, MAX(created_at) AS executed_at \
      FROM dbt_rt.run_results GROUP BY unique_id\
    )";

pub const ROW_COUNT_CTE: &'static str = "row_count_cte AS (\
      SELECT unique_id, \
             TRY_CAST(stat_value AS BIGINT) AS row_count \
      FROM dbt.catalog_stats \
      WHERE stat_id IN ('row_count', 'num_rows')\
    )";

pub const SEED_FILTER: &'static str = "WHERE n.resource_type = 'seed'";

pub const SEED_ROWS_HEAD: &'static str =
    "SELECT n.unique_id, n.name, n.resource_type, n.package_name, \
     n.description, n.original_file_path, ";

/// The tables that the query defines for itself.
pub open spec fn cte_prefix(with_run_results: bool, with_catalog_stats: bool) -> Seq<char> {
    if with_run_results && with_catalog_stats {
        "WITH "@ + LAST_RUN_CTE@ + ", "@ + ROW_COUNT_CTE@ + "\n"@
    } else if with_run_results {
        "WITH "@ + LAST_RUN_CTE@ + "\n"@
    } else if with_catalog_stats {
        "WITH "@ + ROW_COUNT_CTE@ + "\n"@
    } else {
        ""@
    }
}

/// The joins of the query.
pub open spec fn joins(with_run_results: bool, with_catalog_stats: bool) -> Seq<char> {
    " FROM dbt.nodes n "@ + (if with_run_results {
        "LEFT JOIN last_run lr ON lr.unique_id = n.unique_id"@
    } else {
        ""@
    }) + " "@ + (if with_catalog_stats {
        "LEFT JOIN row_count_cte rc ON rc.unique_id = n.unique_id"@
    } else {
        ""@
    }) + " "@
}

/// The query for the count of all seeds. The cursor has no part in it.
pub open spec fn seed_count_sql(with_run_results: bool, with_catalog_stats: bool) -> Seq<char> {
    cte_prefix(with_run_results, with_catalog_stats) + "SELECT count(*)"@ + joins(
        with_run_results,
        with_catalog_stats,
    ) + SEED_FILTER@
}

/// The expression that a query sorts by. A column of a view that is not joined is
/// null in every row.
pub open spec fn order_expr(
    sql_expr: Seq<char>,
    with_run_results: bool,
    with_catalog_stats: bool,
) -> Seq<char> {
    if sql_expr == EXECUTED_AT@ && !with_run_results {
        "NULL::VARCHAR"@
    } else if sql_expr == ROW_COUNT@ && !with_catalog_stats {
        "NULL::BIGINT"@
    } else {
        sql_expr
    }
}

/// The query for a page. The cursor and the order name only what is joined.
pub open spec fn seed_rows_sql(
    with_run_results: bool,
    with_catalog_stats: bool,
    first: u32,
    sort: (Seq<char>, SortDir),
    cursor: Option<CursorView>,
) -> Seq<char> {
    let expr = order_expr(sort.0, with_run_results, with_catalog_stats);
    cte_prefix(with_run_results, with_catalog_stats) + SEED_ROWS_HEAD@ + (if with_catalog_stats {
        "rc.row_count"@
    } else {
        "NULL::BIGINT AS row_count"@
    }) + ", "@ + (if with_run_results {
        "CAST(lr.executed_at AS VARCHAR) AS executed_at"@
    } else {
        "NULL::VARCHAR AS executed_at"@
    }) + joins(with_run_results, with_catalog_stats) + page_clause(
        SEED_FILTER@,
        expr,
        "n.unique_id"@,
        sort.1,
        cursor,
    ) + page_order(expr, "n.unique_id"@, sort.1, first)
}

fn cte_prefix_sql(with_run_results: bool, with_catalog_stats: bool) -> (r: String)
    ensures
        r@ == cte_prefix(with_run_results, with_catalog_stats),
{
    if !with_run_results && !with_catalog_stats {
        return "".to_owned();
    }
    let mut r = "WITH ".to_owned();
    if with_run_results {
        r.append(LAST_RUN_CTE);
        if with_catalog_stats {
            r.append(", ");
        }
    }
    if with_catalog_stats {
        r.append(ROW_COUNT_CTE);
    }
    r.append("\n");
    r
}

fn joins_sql(with_run_results: bool, with_catalog_stats: bool) -> (r: String)
    ensures
        r@ == joins(with_run_results, with_catalog_stats),
{
    let mut r = " FROM dbt.nodes n ".to_owned();
    r.append(
        if with_run_results {
            "LEFT JOIN last_run lr ON lr.unique_id = n.unique_id"
        } else {
            ""
        },
    );
    r.append(" ");
    r.append(
        if with_catalog_stats {
            "LEFT JOIN row_count_cte rc ON rc.unique_id = n.unique_id"
        } else {
            ""
        },
    );
    r.append(" ");
    r
}

/// Build `(count_sql, rows_sql)` for the list of seeds.
///
/// `with_run_results` and `with_catalog_stats` say which optional views are joined.
/// Where one is not, its column is null of the same type.
pub fn build_seed_list_sql(
    params: &SeedListParams,
    with_run_results: bool,
    with_catalog_stats: bool,
    first: u32,
    cursor: Option<&Cursor>,
) -> (r: Result<(String, String), &'static str>)
    requires
        first < u32::MAX,
    ensures
        match r {
            Ok((count_sql, rows_sql)) => {
                &&& list_fault(*params) is None
                &&& count_sql@ == seed_count_sql(with_run_results, with_catalog_stats)
                &&& rows_sql@ == seed_rows_sql(
                    with_run_results,
                    with_catalog_stats,
                    first,
                    asked_sort(*params)->Ok_0,
                    cursor_ref(cursor),
                )
            },
            Err(e) => list_fault(*params) == Some(e@),
        },
{
    let sort = match given(&params.sort) {
        Some(s) => match parse_sort(s) {
            Ok(sort) => sort,
            Err(e) => return Err(e),
        },
        None => SortSelection { sql_expr: "n.name", dir: SortDir::Asc },
    };
    let prefix = cte_prefix_sql(with_run_results, with_catalog_stats);
    let from = joins_sql(with_run_results, with_catalog_stats);
    let mut count_sql = prefix.clone();
    count_sql.append("SELECT count(*)");
    count_sql.append(from.as_str());
    count_sql.append(SEED_FILTER);
    let mut rows_sql = prefix;
    rows_sql.append(SEED_ROWS_HEAD);
    rows_sql.append(
        if with_catalog_stats {
            "rc.row_count"
        } else {
            "NULL::BIGINT AS row_count"
        },
    );
    rows_sql.append(", ");
    rows_sql.append(
        if with_run_results {
            "CAST(lr.executed_at AS VARCHAR) AS executed_at"
        } else {
            "NULL::VARCHAR AS executed_at"
        },
    );
    rows_sql.append(from.as_str());
    let expr: &str = if !with_run_results && same(sort.sql_expr, EXECUTED_AT) {
        "NULL::VARCHAR"
    } else if !with_catalog_stats && same(sort.sql_expr, ROW_COUNT) {
        "NULL::BIGINT"
    } else {
        sort.sql_expr
    };
    rows_sql.append(page_where(SEED_FILTER, expr, "n.unique_id", sort.dir, cursor).as_str());
    rows_sql.append(page_order_sql(expr, "n.unique_id", sort.dir, first).as_str());
    Ok((count_sql, rows_sql))
}

impl FromRow for SeedSummary {
    open spec fn columns() -> Seq<Seq<char>> {
        seq![
            "unique_id"@,
            "name"@,
            "resource_type"@,
            "package_name"@,
            "description"@,
            "original_file_path"@,
            "executed_at"@,
        ]
    }

    open spec fn flags() -> Seq<Seq<char>> {
        Seq::empty()
    }

    open spec fn is_row(self, batch: Batch, row: int) -> bool {
        &&& self.unique_id == batch.text("unique_id"@, row)
        &&& self.name == batch.text("name"@, row)
        &&& self.resource_type == batch.text("resource_type"@, row)
        &&& self.package_name == batch.opt_text("package_name"@, row)
        &&& self.description == batch.opt_text("description"@, row)
        &&& self.original_file_path == batch.opt_text("original_file_path"@, row)
        &&& self.row_count == batch.opt_i64("row_count"@, row)
        &&& self.executed_at == batch.opt_text("executed_at"@, row)
    }

    fn from_row(batch: &Batch, row: usize) -> (r: SeedSummary) {
        assert(Self::columns()[0] == "unique_id"@);
        assert(Self::columns()[1] == "name"@);
        assert(Self::columns()[2] == "resource_type"@);
        SeedSummary {
            unique_id: batch.get_text("unique_id", row),
            name: batch.get_text("name", row),
            resource_type: batch.get_text("resource_type", row),
            package_name: batch.get_opt_text("package_name", row),
            description: batch.get_opt_text("description", row),
            original_file_path: batch.get_opt_text("original_file_path", row),
            row_count: batch.get_opt_i64("row_count", row),
            executed_at: batch.get_opt_text("executed_at", row),
        }
    }
}

/// Convert the batches of the seeds query into typed rows.
pub fn batches_to_seed_summary_rows(batches: &Vec<Batch>) -> (r: Vec<SeedSummary>)
    requires
        readable::<SeedSummary>(batches@),
    ensures
        are_rows(r@, batches@),
{
    read_rows(batches)
}

/// The value of a row in the column that the list is sorted by.
pub open spec fn sort_value(row: SeedSummary, column: Seq<char>) -> Option<Seq<char>> {
    if column == "row_count"@ {
        match row.row_count {
            Some(n) => Some(signed_decimal(n as int)),
            None => None,
        }
    } else if column == "executed_at"@ {
        opt_text(row.executed_at)
    } else {
        Some(row.name@)
    }
}

impl Listed for SeedSummary {
    open spec fn key(self, column: Seq<char>) -> CursorView {
        CursorView { sort_value: sort_value(self, column), unique_id: self.unique_id@ }
    }

    fn cursor(&self, column: &str) -> (r: Cursor) {
        let sort_value = if same(column, "row_count") {
            match self.row_count {
                Some(n) => Some(to_signed_decimal(n)),
                None => None,
            }
        } else if same(column, "executed_at") {
            clone_opt(&self.executed_at)
        } else {
            Some(self.name.clone())
        };
        Cursor { sort_value, unique_id: self.unique_id.clone() }
    }
}

/// Whether a query is that of the list with the given views.
pub open spec fn is_variant(
    query: ListQuery,
    params: SeedListParams,
    with_run_results: bool,
    with_catalog_stats: bool,
) -> bool {
    &&& query.count_sql@ == seed_count_sql(with_run_results, with_catalog_stats)
    &&& query.rows_sql@ == seed_rows_sql(
        with_run_results,
        with_catalog_stats,
        clamped(params.first, DEFAULT_PAGE_SIZE, MAX_PAGE_SIZE),
        asked_sort(params)->Ok_0,
        asked_cursor(params.after),
    )
}

fn variant(
    params: &SeedListParams,
    with_run_results: bool,
    with_catalog_stats: bool,
    first: u32,
    cursor: Option<&Cursor>,
) -> (r: ListQuery)
    requires
        list_fault(*params) is None,
        first == clamped(params.first, DEFAULT_PAGE_SIZE, MAX_PAGE_SIZE),
        first < u32::MAX,
        cursor_ref(cursor) == asked_cursor(params.after),
    ensures
        is_variant(r, *params, with_run_results, with_catalog_stats),
{
    match build_seed_list_sql(params, with_run_results, with_catalog_stats, first, cursor) {
        Ok((count_sql, rows_sql)) => ListQuery { count_sql, rows_sql },
        Err(_) => ListQuery { count_sql: String::new(), rows_sql: String::new() },
    }
}

/// Check a request for the list of seeds and plan it: with both optional views, with
/// the run results alone, with the catalog's statistics alone, and without both. So a
/// column is null only where its own view is absent.
pub fn plan_list_seeds(params: &SeedListParams) -> (r: Result<ListPlan, ErrorReply>)
    ensures
        match r {
            Ok(plan) => {
                &&& list_refusal(params.after, list_fault(*params)) is None
                &&& plan.first == clamped(params.first, DEFAULT_PAGE_SIZE, MAX_PAGE_SIZE)
                &&& 1 <= plan.first <= MAX_PAGE_SIZE
                &&& plan.probe.wf()
                &&& plan.probe.at == 0
                &&& plan.probe.noun@ == "seed"@
                &&& plan.probe.absent@ == NO_COUNT@
                &&& plan.probe.queries.len() == 4
                &&& is_variant(plan.probe.queries@[0], *params, true, true)
                &&& is_variant(plan.probe.queries@[1], *params, true, false)
                &&& is_variant(plan.probe.queries@[2], *params, false, true)
                &&& is_variant(plan.probe.queries@[3], *params, false, false)
            },
            Err(e) => list_refusal(params.after, list_fault(*params)) == Some(e@),
        },
{
    let first: u32 = clamp_first(params.first);
    let cursor = match read_after(&params.after) {
        Ok(cursor) => cursor,
        Err(e) => return Err(e),
    };
    let (count_sql, rows_sql) = match build_seed_list_sql(
        params,
        true,
        true,
        first,
        cursor.as_ref(),
    ) {
        Ok(built) => built,
        Err(msg) => return Err(crate::json::bad_request(msg)),
    };
    let mut queries: Vec<ListQuery> = Vec::new();
    queries.push(ListQuery { count_sql, rows_sql });
    queries.push(variant(params, true, false, first, cursor.as_ref()));
    queries.push(variant(params, false, true, first, cursor.as_ref()));
    queries.push(variant(params, false, false, first, cursor.as_ref()));
    let probe = ListProbe::start(queries, "seed");
    Ok(ListPlan { first, probe })
}

/// The column that the list is sorted by.
pub open spec fn sort_column(params: SeedListParams) -> Seq<char> {
    match given_text(params.sort) {
        Some(s) => match split_at_first(s, ':') {
            Some((column, _)) => column,
            None => "name"@,
        },
        None => "name"@,
    }
}

/// The page of the list, from the rows that its query gave.
pub fn finish_list_seeds(
    params: &SeedListParams,
    first: u32,
    total_count: u64,
    batches: &Vec<Batch>,
) -> (r: SeedListResponse)
    requires
        readable::<SeedSummary>(batches@),
    ensures
        exists|rows: Seq<SeedSummary>, n: usize|
            are_rows(rows, batches@) && n == rows.len() && r.data@ == #[trigger] page_of(
                rows,
                n,
                first,
            ) && r.page_info@ == page_info_of(
                total_count,
                keys(r.data@, sort_column(*params)),
                overfull(n, first),
            ) && leads_on(r.page_info@, keys(r.data@, sort_column(*params))),
{
    let column = match given(&params.sort) {
        Some(s) => match split_once(s, ':') {
            Some((column, _)) => column,
            None => "name".to_owned(),
        },
        None => "name".to_owned(),
    };
    let rows = batches_to_seed_summary_rows(batches);
    let ghost all = rows@;
    let ghost n = rows.len();
    let (data, page_info) = finish_page(rows, first, total_count, column.as_str());
    assert(data@ == page_of(all, n, first));
    SeedListResponse { data, page_info }
}

} // verus!
