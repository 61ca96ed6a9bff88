//! The list of nodes, the counts by resource type, and the detail of a node.
use crate::detail_laws::{
    lemma_children_query, lemma_columns_query, lemma_last_run_query, lemma_node_query,
    lemma_parents_query, reads_children, reads_columns, reads_last_run, reads_node, reads_parents,
};
use crate::encoding::{json_inner, read_json_text, JsonNode, JsonView};
use crate::json::{
    array_text, bad_request, batches_as_value_array, check_unique_id, error_view, first_object,
    first_row_as_object, internal_error, valid_id, wrapped_list, wrapped_list_response, ErrorReply,
    ErrorView,
};
use crate::listing::{
    id_query, id_sql, not_found_text, resource_not_found, COLUMNS_HEAD, COLUMNS_TAIL,
    DOWNSTREAM_HEAD, DOWNSTREAM_TAIL, LIMIT_ONE, RUN_RESULT_HEAD, RUN_RESULT_TAIL, UPSTREAM_HEAD,
    UPSTREAM_TAIL,
};
use crate::node_base::{is_last_run, last_run, opt_wf, ExecutionInfo};
use crate::node_laws::{lemma_node_list, lists_nodes};
use crate::pagination::{clamp_size, clamped};
use crate::probe::{ListProbe, ListQuery, NO_COUNT};
use crate::sql::{escape_str, escaped, is_safe_ident, safe_ident};
use crate::table::{all_have_text, all_places, all_wf, places, places_view, Batch};
use crate::text::{decimal, given, given_text, opt_str_text, opt_text, same, to_decimal};
use vstd::prelude::*;

verus! {

/// Page size when `limit` is not specified.
pub const DEFAULT_LIMIT: u32 = 1000;

/// Hard ceiling on a single page.
pub const HARD_MAX_LIMIT: u32 = 5000;

// ---------------------------------------------------------------------------
// The list of nodes
// ---------------------------------------------------------------------------

pub const NODE_ROWS_HEAD: &'static str =
    "SELECT unique_id, name, resource_type, package_name, materialized, \
     description, database_name, schema_name, original_file_path FROM dbt.nodes ";

/// Query parameters of the list of nodes.
#[derive(Debug, Default)]
pub struct NodeListParams {
    pub resource_type: Option<String>,
    pub package: Option<String>,
    pub q: Option<String>,
    pub limit: Option<u32>,
    pub offset: Option<u32>,
}

/// A list of nodes that can be run.
#[derive(Debug)]
pub struct NodeListPlan {
    pub limit: u32,
    pub offset: u32,
    pub probe: ListProbe,
}

/// What a list of nodes is refused with, if it is: a type, and after it a package,
/// that is no identifier.
pub open spec fn node_refusal(params: NodeListParams) -> Option<ErrorView> {
    if params.resource_type matches Some(t) && !safe_ident(t@) {
        Some(error_view(400, "invalid type filter"@))
    } else if params.package matches Some(p) && !safe_ident(p@) {
        Some(error_view(400, "invalid package filter"@))
    } else {
        None
    }
}

/// The `WHERE` clause of the filters.
pub open spec fn node_filter(params: NodeListParams) -> Seq<char> {
    "WHERE 1=1"@ + (match params.resource_type {
        Some(t) => " AND resource_type = '"@ + t@ + "'"@,
        None => ""@,
    }) + (match params.package {
        Some(p) => " AND package_name = '"@ + p@ + "'"@,
        None => ""@,
    }) + (match given_text(params.q) {
        Some(q) => " AND (LOWER(name) LIKE LOWER('%"@ + escaped(q)
            + "%') OR LOWER(unique_id) LIKE LOWER('%"@ + escaped(q) + "%'))"@,
        None => ""@,
    })
}

/// The page size.
pub open spec fn node_limit(params: NodeListParams) -> u32 {
    clamped(params.limit, DEFAULT_LIMIT, HARD_MAX_LIMIT)
}

/// The number of rows to skip.
pub open spec fn node_offset(params: NodeListParams) -> u32 {
    match params.offset {
        Some(n) => n,
        None => 0,
    }
}

/// The query for the count of all nodes that the filters let through.
pub open spec fn node_count_sql(params: NodeListParams) -> Seq<char> {
    "SELECT count(*) FROM dbt.nodes "@ + node_filter(params)
}

/// The query for a page.
pub open spec fn node_rows_sql(params: NodeListParams) -> Seq<char> {
    NODE_ROWS_HEAD@ + node_filter(params) + " ORDER BY resource_type, name LIMIT "@ + decimal(
        node_limit(params) as nat,
    ) + " OFFSET "@ + decimal(node_offset(params) as nat)
}

fn node_filter_sql(params: &NodeListParams) -> (r: String)
    ensures
        r@ == node_filter(*params),
{
    let mut r = "WHERE 1=1".to_owned();
    match &params.resource_type {
        Some(t) => {
            let mut part = " AND resource_type = '".to_owned();
            part.append(t.as_str());
            part.append("'");
            r.append(part.as_str());
        },
        None => r.append(""),
    }
    match &params.package {
        Some(p) => {
            let mut part = " AND package_name = '".to_owned();
            part.append(p.as_str());
            part.append("'");
            r.append(part.as_str());
        },
        None => r.append(""),
    }
    match given(&params.q) {
        Some(q) => {
            let q = escape_str(q);
            let mut part = " AND (LOWER(name) LIKE LOWER('%".to_owned();
            part.append(q.as_str());
            part.append("%') OR LOWER(unique_id) LIKE LOWER('%");
            part.append(q.as_str());
            part.append("%'))");
            r.append(part.as_str());
        },
        None => r.append(""),
    }
    r
}

/// Check a request for the list of nodes and plan it.
pub fn plan_list_nodes(params: &NodeListParams) -> (r: Result<NodeListPlan, ErrorReply>)
    ensures
        match r {
            Ok(plan) => {
                &&& node_refusal(*params) is None
                &&& plan.limit == node_limit(*params)
                &&& 1 <= plan.limit <= HARD_MAX_LIMIT
                &&& plan.offset == node_offset(*params)
                &&& plan.probe.wf()
                &&& plan.probe.at == 0
                &&& plan.probe.noun@ == "node"@
                &&& plan.probe.absent@ == NO_COUNT@
                &&& plan.probe.queries.len() == 1
                &&& plan.probe.queries@[0].count_sql@ == node_count_sql(*params)
                &&& plan.probe.queries@[0].rows_sql@ == node_rows_sql(*params)
                &&& lists_nodes(
                    plan.probe.queries@[0].count_sql@,
                    plan.probe.queries@[0].rows_sql@,
                    *params,
                )
            },
            Err(e) => node_refusal(*params) == Some(e@),
        },
{
    let limit: u32 = clamp_size(params.limit, DEFAULT_LIMIT, HARD_MAX_LIMIT);
    let offset: u32 = match params.offset {
        Some(n) => n,
        None => 0,
    };
    if let Some(t) = &params.resource_type {
        if !is_safe_ident(t.as_str()) {
            return Err(bad_request("invalid type filter"));
        }
    }
    if let Some(p) = &params.package {
        if !is_safe_ident(p.as_str()) {
            return Err(bad_request("invalid package filter"));
        }
    }
    proof {
        lemma_node_list(*params);
    }
    let filter = node_filter_sql(params);
    let mut count_sql = "SELECT count(*) FROM dbt.nodes ".to_owned();
    count_sql.append(filter.as_str());
    let mut rows_sql = NODE_ROWS_HEAD.to_owned();
    rows_sql.append(filter.as_str());
    rows_sql.append(" ORDER BY resource_type, name LIMIT ");
    rows_sql.append(to_decimal(limit as u64).as_str());
    rows_sql.append(" OFFSET ");
    rows_sql.append(to_decimal(offset as u64).as_str());
    let mut queries: Vec<ListQuery> = Vec::new();
    queries.push(ListQuery { count_sql, rows_sql });
    let probe = ListProbe::start(queries, "node");
    Ok(NodeListPlan { limit, offset, probe })
}

/// The body of the list of nodes, from the rows as a writer of JSON wrote them:
/// `{"nodes": [...], "total": .., "offset": .., "limit": ..}`.
pub fn finish_list_nodes(written: &str, total: u64, offset: u32, limit: u32) -> (r: String)
    ensures
        r@ == wrapped_list(
            "nodes"@,
            written@,
            seq![
                ("total"@, decimal(total as nat)),
                ("offset"@, decimal(offset as nat)),
                ("limit"@, decimal(limit as nat)),
            ],
        ),
{
    let mut extra: Vec<(String, String)> = Vec::new();
    extra.push(("total".to_owned(), to_decimal(total)));
    extra.push(("offset".to_owned(), to_decimal(offset as u64)));
    extra.push(("limit".to_owned(), to_decimal(limit as u64)));
    assert(crate::encoding::fields_view(extra@) =~= seq![
        ("total"@, decimal(total as nat)),
        ("offset"@, decimal(offset as nat)),
        ("limit"@, decimal(limit as nat)),
    ]);
    wrapped_list_response("nodes", written, &extra)
}

// ---------------------------------------------------------------------------
// The detail of a node
// ---------------------------------------------------------------------------

pub const NODE_DETAIL_HEAD: &'static str =
    "SELECT n.unique_id, n.name, n.resource_type, n.package_name, \
     n.materialized, n.description, n.database_name, n.schema_name, \
     n.relation_name, n.identifier, n.original_file_path, \
     n.access_level, n.group_name, n.raw_code \
     FROM dbt.nodes n WHERE n.unique_id = '";

/// The queries for the detail of a node. The last is of a view that may be absent.
#[derive(Debug)]
pub struct NodeQueries {
    pub node: String,
    pub columns: String,
    pub upstream: String,
    pub downstream: String,
    pub run_result: String,
}

/// Check the unique id of a node and build the queries for its detail.
pub fn plan_get_node(unique_id: &str) -> (r: Result<NodeQueries, ErrorReply>)
    ensures
        match r {
            Ok(q) => {
                &&& valid_id(unique_id@)
                &&& q.node@ == id_query(NODE_DETAIL_HEAD@, unique_id@, LIMIT_ONE@)
                &&& reads_node(q.node@, unique_id@)
                &&& q.columns@ == id_query(COLUMNS_HEAD@, unique_id@, COLUMNS_TAIL@)
                &&& reads_columns(q.columns@, unique_id@)
                &&& q.upstream@ == id_query(UPSTREAM_HEAD@, unique_id@, UPSTREAM_TAIL@)
                &&& reads_parents(q.upstream@, unique_id@)
                &&& q.downstream@ == id_query(DOWNSTREAM_HEAD@, unique_id@, DOWNSTREAM_TAIL@)
                &&& reads_children(q.downstream@, unique_id@)
                &&& q.run_result@ == id_query(RUN_RESULT_HEAD@, unique_id@, RUN_RESULT_TAIL@)
                &&& reads_last_run(q.run_result@, unique_id@)
            },
            Err(e) => !valid_id(unique_id@) && e@ == error_view(400, "invalid unique_id"@),
        },
{
    proof {
        lemma_node_query(unique_id@);
        lemma_columns_query(unique_id@);
        lemma_parents_query(unique_id@);
        lemma_children_query(unique_id@);
        lemma_last_run_query(unique_id@);
    }
    match check_unique_id(unique_id) {
        Ok(_) => Ok(
            NodeQueries {
                node: id_sql(NODE_DETAIL_HEAD, unique_id, LIMIT_ONE),
                columns: id_sql(COLUMNS_HEAD, unique_id, COLUMNS_TAIL),
                upstream: id_sql(UPSTREAM_HEAD, unique_id, UPSTREAM_TAIL),
                downstream: id_sql(DOWNSTREAM_HEAD, unique_id, DOWNSTREAM_TAIL),
                run_result: id_sql(RUN_RESULT_HEAD, unique_id, RUN_RESULT_TAIL),
            },
        ),
        Err(e) => Err(e),
    }
}

/// The detail of a node: the fields of its own row, each a name and JSON text, and
/// what comes from other queries.
#[derive(Debug)]
pub struct NodeDetail {
    pub fields: Vec<(String, String)>,
    pub columns: JsonNode,
    pub depends_on: JsonNode,
    pub referenced_by: JsonNode,
    pub execution_info: Option<ExecutionInfo>,
}

/// What is replied for a node.
#[derive(Debug)]
pub enum NodeReply {
    Detail(NodeDetail),
    /// The row of the node as JSON text, where it is no object.
    Plain(String),
}

/// Whether a field of the row is shown: those that come from other queries take the
/// place of fields of the same name.
pub open spec fn is_own_field(name: Seq<char>) -> bool {
    name != "columns"@ && name != "depends_on"@ && name != "referenced_by"@ && name
        != "execution_info"@
}

/// The fields of the row that are shown.
pub open spec fn own_fields(fields: Seq<(Seq<char>, Seq<char>)>) -> Seq<(Seq<char>, Seq<char>)>
    decreases fields.len(),
{
    if fields.len() == 0 {
        fields
    } else if is_own_field(fields.last().0) {
        own_fields(fields.drop_last()).push(fields.last())
    } else {
        own_fields(fields.drop_last())
    }
}

/// Whether a reply is the one for a node, from what its queries gave. The queries for
/// columns and edges are given as a writer of JSON wrote their rows.
pub open spec fn is_node_reply(
    r: Result<NodeReply, ErrorReply>,
    unique_id: Seq<char>,
    node: Result<Option<Seq<char>>, Seq<char>>,
    columns: Result<JsonView, Seq<char>>,
    upstream: Result<JsonView, Seq<char>>,
    downstream: Result<JsonView, Seq<char>>,
    run_result: Option<Vec<Batch>>,
) -> bool {
    match node {
        Err(e) => r matches Err(reply) && reply@ == error_view(500, e),
        Ok(None) => r matches Err(reply) && reply@ == error_view(
            404,
            not_found_text("node"@, unique_id),
        ),
        Ok(Some(row)) => match (columns, upstream, downstream) {
            (Err(e), _, _) => r matches Err(reply) && reply@ == error_view(500, e),
            (_, Err(e), _) => r matches Err(reply) && reply@ == error_view(500, e),
            (_, _, Err(e)) => r matches Err(reply) && reply@ == error_view(500, e),
            (Ok(columns), Ok(upstream), Ok(downstream)) => match json_inner(row) {
                Ok(JsonView::Object(fields)) => r matches Ok(NodeReply::Detail(d)) && {
                    &&& crate::encoding::fields_view(d.fields@) == own_fields(fields)
                    &&& d.columns@ == columns
                    &&& d.depends_on@ == upstream
                    &&& d.referenced_by@ == downstream
                    &&& is_last_run(d.execution_info, run_result)
                },
                _ => r matches Ok(NodeReply::Plain(text)) && text@ == row,
            },
        },
    }
}

fn keep_own_fields(fields: Vec<(String, String)>) -> (r: Vec<(String, String)>)
    ensures
        crate::encoding::fields_view(r@) == own_fields(crate::encoding::fields_view(fields@)),
{
    let ghost rows = fields@;
    let ghost all = crate::encoding::fields_view(fields@);
    let mut r: Vec<(String, String)> = Vec::new();
    assert(crate::encoding::fields_view(r@) =~= own_fields(all.take(0)));
    for field in it: fields
        invariant
            it.seq() == rows,
            all == crate::encoding::fields_view(rows),
            crate::encoding::fields_view(r@) == own_fields(all.take(it.index())),
    {
        assert(all.take(it.index() + 1).drop_last() == all.take(it.index()));
        assert(all.take(it.index() + 1).last() == (field.0@, field.1@));
        let name = field.0.as_str();
        if !same(name, "columns") && !same(name, "depends_on") && !same(name, "referenced_by")
            && !same(name, "execution_info") {
            let ghost had = r@;
            r.push(field);
            assert(crate::encoding::fields_view(r@) =~= crate::encoding::fields_view(had).push(
                (field.0@, field.1@),
            ));
        }
    }
    assert(all.take(all.len() as int) == all);
    r
}

/// What is replied for a node, from readings of what its queries gave.
pub fn assemble_node(
    unique_id: &str,
    node: Result<Option<String>, String>,
    columns: Result<JsonNode, String>,
    upstream: Result<JsonNode, String>,
    downstream: Result<JsonNode, String>,
    run_result: &Option<Vec<Batch>>,
) -> (r: Result<NodeReply, ErrorReply>)
    requires
        opt_wf(*run_result),
    ensures
        is_node_reply(
            r,
            unique_id@,
            match node {
                Ok(row) => Ok(opt_text(row)),
                Err(e) => Err(e@),
            },
            crate::encoding::reading_view(columns),
            crate::encoding::reading_view(upstream),
            crate::encoding::reading_view(downstream),
            *run_result,
        ),
{
    let row = match node {
        Ok(Some(row)) => row,
        Ok(None) => return Err(resource_not_found("node", unique_id)),
        Err(e) => return Err(internal_error(e)),
    };
    let columns = match columns {
        Ok(v) => v,
        Err(e) => return Err(internal_error(e)),
    };
    let depends_on = match upstream {
        Ok(v) => v,
        Err(e) => return Err(internal_error(e)),
    };
    let referenced_by = match downstream {
        Ok(v) => v,
        Err(e) => return Err(internal_error(e)),
    };
    let execution_info = last_run(run_result);
    match read_json_text(row.as_str()) {
        Ok(JsonNode::Object(fields)) => Ok(
            NodeReply::Detail(
                NodeDetail {
                    fields: keep_own_fields(fields),
                    columns,
                    depends_on,
                    referenced_by,
                    execution_info,
                },
            ),
        ),
        _ => Ok(NodeReply::Plain(row)),
    }
}

/// What is replied for a node, from what its queries gave. The first row of the node
/// and all rows of the others are given as a writer of JSON wrote them.
pub fn finish_get_node(
    unique_id: &str,
    node: Option<&str>,
    columns: &str,
    upstream: &str,
    downstream: &str,
    run_result: &Option<Vec<Batch>>,
) -> (r: Result<NodeReply, ErrorReply>)
    requires
        opt_wf(*run_result),
    ensures
        is_node_reply(
            r,
            unique_id@,
            first_object(opt_str_text(node)),
            json_inner(array_text(columns@)),
            json_inner(array_text(upstream@)),
            json_inner(array_text(downstream@)),
            *run_result,
        ),
{
    assemble_node(
        unique_id,
        first_row_as_object(node),
        batches_as_value_array(columns),
        batches_as_value_array(upstream),
        batches_as_value_array(downstream),
        run_result,
    )
}

// ---------------------------------------------------------------------------
// Counts by resource type
// ---------------------------------------------------------------------------

pub const NODE_COUNTS_SQL: &'static str = "\
WITH raw AS (\
  SELECT resource_type, COUNT(*) AS count FROM dbt.nodes GROUP BY resource_type \
  UNION ALL \
  SELECT 'exposure'       AS resource_type, COUNT(*) AS count FROM dbt.exposures \
  UNION ALL \
  SELECT 'group'          AS resource_type, COUNT(*) AS count FROM dbt.groups \
  UNION ALL \
  SELECT 'macro'          AS resource_type, COUNT(*) AS count FROM dbt.macros \
  UNION ALL \
  SELECT 'metric'         AS resource_type, COUNT(*) AS count FROM dbt.metrics \
  UNION ALL \
  SELECT 'saved_query'    AS resource_type, COUNT(*) AS count FROM dbt.saved_queries \
  UNION ALL \
  SELECT 'semantic_model' AS resource_type, COUNT(*) AS count FROM dbt.semantic_models \
) \
SELECT resource_type, CAST(SUM(count) AS BIGINT) AS count \
FROM raw \
GROUP BY resource_type \
ORDER BY resource_type";

/// The counts of resources by type. A type that is absent counts 0. Unit tests count
/// as tests.
#[derive(Debug)]
pub struct NodeCountsResponse {
    pub analysis: i64,
    pub exposure: i64,
    pub function: i64,
    pub group: i64,
    pub macro_: i64,
    pub metric: i64,
    pub model: i64,
    pub saved_query: i64,
    pub seed: i64,
    pub semantic_model: i64,
    pub snapshot: i64,
    pub source: i64,
    /// Tests and unit tests.
    pub test: i64,
}

impl Default for NodeCountsResponse {
    fn default() -> (r: NodeCountsResponse)
        ensures
            forall|t: CountedType| #[trigger] r.get(t) == 0,
    {
        NodeCountsResponse {
            analysis: 0,
            exposure: 0,
            function: 0,
            group: 0,
            macro_: 0,
            metric: 0,
            model: 0,
            saved_query: 0,
            seed: 0,
            semantic_model: 0,
            snapshot: 0,
            source: 0,
            test: 0,
        }
    }
}

/// The resource types that are counted.
#[derive(Debug, Clone, Copy, PartialEq, Eq, Structural)]
pub enum CountedType {
    Analysis,
    Exposure,
    Function,
    Group,
    Macro,
    Metric,
    Model,
    SavedQuery,
    Seed,
    SemanticModel,
    Snapshot,
    Source,
    Test,
}

impl CountedType {
    /// The type that resources of a name count as.
    pub open spec fn named(name: Seq<char>) -> Option<CountedType> {
        if name == "analysis"@ {
            Some(CountedType::Analysis)
        } else if name == "exposure"@ {
            Some(CountedType::Exposure)
        } else if name == "function"@ {
            Some(CountedType::Function)
        } else if name == "group"@ {
            Some(CountedType::Group)
        } else if name == "macro"@ {
            Some(CountedType::Macro)
        } else if name == "metric"@ {
            Some(CountedType::Metric)
        } else if name == "model"@ {
            Some(CountedType::Model)
        } else if name == "saved_query"@ {
            Some(CountedType::SavedQuery)
        } else if name == "seed"@ {
            Some(CountedType::Seed)
        } else if name == "semantic_model"@ {
            Some(CountedType::SemanticModel)
        } else if name == "snapshot"@ {
            Some(CountedType::Snapshot)
        } else if name == "source"@ {
            Some(CountedType::Source)
        } else if name == "test"@ || name == "unit_test"@ {
            Some(CountedType::Test)
        } else {
            None
        }
    }

    /// The type that resources of a name count as.
    pub fn from_name(name: &str) -> (r: Option<CountedType>)
        ensures
            r == CountedType::named(name@),
    {
        if same(name, "analysis") {
            Some(CountedType::Analysis)
        } else if same(name, "exposure") {
            Some(CountedType::Exposure)
        } else if same(name, "function") {
            Some(CountedType::Function)
        } else if same(name, "group") {
            Some(CountedType::Group)
        } else if same(name, "macro") {
            Some(CountedType::Macro)
        } else if same(name, "metric") {
            Some(CountedType::Metric)
        } else if same(name, "model") {
            Some(CountedType::Model)
        } else if same(name, "saved_query") {
            Some(CountedType::SavedQuery)
        } else if same(name, "seed") {
            Some(CountedType::Seed)
        } else if same(name, "semantic_model") {
            Some(CountedType::SemanticModel)
        } else if same(name, "snapshot") {
            Some(CountedType::Snapshot)
        } else if same(name, "source") {
            Some(CountedType::Source)
        } else if same(name, "test") || same(name, "unit_test") {
            Some(CountedType::Test)
        } else {
            None
        }
    }
}

impl NodeCountsResponse {
    /// The count of a type.
    pub open spec fn get(self, t: CountedType) -> i64 {
        match t {
            CountedType::Analysis => self.analysis,
            CountedType::Exposure => self.exposure,
            CountedType::Function => self.function,
            CountedType::Group => self.group,
            CountedType::Macro => self.macro_,
            CountedType::Metric => self.metric,
            CountedType::Model => self.model,
            CountedType::SavedQuery => self.saved_query,
            CountedType::Seed => self.seed,
            CountedType::SemanticModel => self.semantic_model,
            CountedType::Snapshot => self.snapshot,
            CountedType::Source => self.source,
            CountedType::Test => self.test,
        }
    }

    /// The count of a type.
    pub fn count(&self, t: CountedType) -> (r: i64)
        ensures
            r == self.get(t),
    {
        match t {
            CountedType::Analysis => self.analysis,
            CountedType::Exposure => self.exposure,
            CountedType::Function => self.function,
            CountedType::Group => self.group,
            CountedType::Macro => self.macro_,
            CountedType::Metric => self.metric,
            CountedType::Model => self.model,
            CountedType::SavedQuery => self.saved_query,
            CountedType::Seed => self.seed,
            CountedType::SemanticModel => self.semantic_model,
            CountedType::Snapshot => self.snapshot,
            CountedType::Source => self.source,
            CountedType::Test => self.test,
        }
    }

    fn set(&mut self, t: CountedType, n: i64)
        ensures
            final(self).get(t) == n,
            forall|u: CountedType| u != t ==> #[trigger] final(self).get(u) == old(self).get(u),
    {
        match t {
            CountedType::Analysis => {
                self.analysis = n;
            },
            CountedType::Exposure => {
                self.exposure = n;
            },
            CountedType::Function => {
                self.function = n;
            },
            CountedType::Group => {
                self.group = n;
            },
            CountedType::Macro => {
                self.macro_ = n;
            },
            CountedType::Metric => {
                self.metric = n;
            },
            CountedType::Model => {
                self.model = n;
            },
            CountedType::SavedQuery => {
                self.saved_query = n;
            },
            CountedType::Seed => {
                self.seed = n;
            },
            CountedType::SemanticModel => {
                self.semantic_model = n;
            },
            CountedType::Snapshot => {
                self.snapshot = n;
            },
            CountedType::Source => {
                self.source = n;
            },
            CountedType::Test => {
                self.test = n;
            },
        }
    }
}

/// What a row counts for a type: nothing where its type is null or another one.
pub open spec fn row_count(batch: Batch, row: int, t: CountedType) -> int {
    match batch.opt_text("resource_type"@, row) {
        Some(name) => if CountedType::named(name@) == Some(t) {
            batch.number("count"@, row) as int
        } else {
            0
        },
        None => 0,
    }
}

/// The count of a type over some rows.
pub open spec fn tally(batches: Seq<Batch>, at: Seq<(int, int)>, t: CountedType) -> int
    decreases at.len(),
{
    if at.len() == 0 {
        0
    } else {
        tally(batches, at.drop_last(), t) + row_count(batches[at.last().0], at.last().1, t)
    }
}

/// Whether no count leaves 64 bits while rows are added up.
pub open spec fn counts_fit(batches: Seq<Batch>) -> bool {
    forall|n: int, t: CountedType|
        0 <= n <= places(batches).len() ==> i64::MIN <= #[trigger] tally(
            batches,
            places(batches).take(n),
            t,
        ) <= i64::MAX
}

/// Every batch that has rows has the columns of types and counts.
pub open spec fn all_countable(batches: Seq<Batch>) -> bool {
    &&& all_wf(batches)
    &&& all_have_text(batches, "resource_type"@)
    &&& forall|b: int|
        0 <= b < batches.len() && (#[trigger] batches[b]).num_rows > 0 ==> batches[b].has_i64(
            "count"@,
        )
}

/// Add up the counts; `None` where a count leaves 64 bits on the way.
pub fn tally_counts(batches: &Vec<Batch>) -> (r: Option<NodeCountsResponse>)
    requires
        all_countable(batches@),
    ensures
        match r {
            Some(counts) => counts_fit(batches@) && forall|t: CountedType| #[trigger]
                counts.get(t) == tally(batches@, places(batches@), t),
            None => !counts_fit(batches@),
        },
{
    let at = all_places(batches);
    let ghost all = places(batches@);
    let mut counts = NodeCountsResponse::default();
    let mut k: usize = 0;
    assert(all.take(0) == Seq::<(int, int)>::empty());
    while k < at.len()
        invariant
            k <= at.len(),
            all_countable(batches@),
            all == places(batches@),
            all == places_view(at@),
            forall|k: int|
                0 <= k < at.len() ==> (#[trigger] at@[k]).0 < batches.len() && at@[k].1
                    < batches@[at@[k].0 as int].num_rows,
            forall|t: CountedType| #[trigger]
                counts.get(t) == tally(batches@, all.take(k as int), t),
            forall|n: int, t: CountedType|
                0 <= n <= k ==> i64::MIN <= #[trigger] tally(batches@, all.take(n), t) <= i64::MAX,
        decreases at.len() - k,
    {
        let (b, i) = at[k];
        assert(all.take(k + 1).drop_last() == all.take(k as int));
        assert(all.take(k + 1).last() == (b as int, i as int));
        let ghost before = counts;
        assert forall|t: CountedType| #[trigger]
            tally(batches@, all.take(k + 1), t) == before.get(t) + row_count(
                batches@[b as int],
                i as int,
                t,
            ) by {
            assert(before.get(t) == tally(batches@, all.take(k as int), t));
        }
        if let Some(name) = batches[b].get_opt_text("resource_type", i) {
            if let Some(t) = CountedType::from_name(name.as_str()) {
                let n: i64 = batches[b].get_number("count", i);
                match counts.count(t).checked_add(n) {
                    Some(sum) => counts.set(t, sum),
                    None => {
                        assert(tally(batches@, all.take(k + 1), t) == before.get(t) + n);
                        return None;
                    },
                }
            }
        }
        assert forall|t: CountedType| #[trigger]
            counts.get(t) == tally(batches@, all.take(k + 1), t) by {
            assert(tally(batches@, all.take(k + 1), t) == before.get(t) + row_count(
                batches@[b as int],
                i as int,
                t,
            ));
        }
        assert forall|n: int, t: CountedType| 0 <= n <= k + 1 implies i64::MIN <= #[trigger] tally(
            batches@,
            all.take(n),
            t,
        ) <= i64::MAX by {
            if n == k + 1 {
                assert(counts.get(t) == tally(batches@, all.take(k + 1), t));
            }
        }
        k += 1;
    }
    assert(all.take(all.len() as int) == all);
    Some(counts)
}

/// Add up the counts of resources by type.
pub fn batches_to_counts(batches: &Vec<Batch>) -> (r: NodeCountsResponse)
    requires
        all_countable(batches@),
        counts_fit(batches@),
    ensures
        forall|t: CountedType| #[trigger]
            r.get(t) == tally(batches@, places(batches@), t),
{
    match tally_counts(batches) {
        Some(counts) => counts,
        None => NodeCountsResponse::default(),
    }
}

/// Unit tests and tests count as the same type.
pub proof fn lemma_unit_tests_count_as_tests()
    ensures
        CountedType::named("unit_test"@) == Some(CountedType::Test),
        CountedType::named("test"@) == Some(CountedType::Test),
{
    reveal_strlit("unit_test");
    reveal_strlit("test");
    reveal_strlit("analysis");
    reveal_strlit("exposure");
    reveal_strlit("function");
    reveal_strlit("group");
    reveal_strlit("macro");
    reveal_strlit("metric");
    reveal_strlit("model");
    reveal_strlit("saved_query");
    reveal_strlit("seed");
    reveal_strlit("semantic_model");
    reveal_strlit("snapshot");
    reveal_strlit("source");
    assert("unit_test"@.len() == 9 && "unit_test"@[0] == 'u');
    assert("test"@.len() == 4 && "test"@[0] == 't');
    assert("analysis"@.len() == 8 && "analysis"@[0] == 'a');
    assert("exposure"@.len() == 8 && "exposure"@[0] == 'e');
    assert("function"@.len() == 8 && "function"@[0] == 'f');
    assert("group"@.len() == 5 && "group"@[0] == 'g');
    assert("macro"@.len() == 5 && "macro"@[0] == 'm');
    assert("metric"@.len() == 6 && "metric"@[0] == 'm');
    assert("model"@.len() == 5 && "model"@[0] == 'm');
    assert("saved_query"@.len() == 11 && "saved_query"@[0] == 's');
    assert("seed"@.len() == 4 && "seed"@[0] == 's');
    assert("semantic_model"@.len() == 14 && "semantic_model"@[0] == 's');
    assert("snapshot"@.len() == 8 && "snapshot"@[0] == 's');
    assert("source"@.len() == 6 && "source"@[0] == 's');
}

/// The counts of rows in two parts add up to those of all rows.
pub proof fn lemma_counts_add_up(
    batches: Seq<Batch>,
    a: Seq<(int, int)>,
    b: Seq<(int, int)>,
    t: CountedType,
)
    ensures
        tally(batches, a + b, t) == tally(batches, a, t) + tally(batches, b, t),
    decreases b.len(),
{
    if b.len() == 0 {
        assert(a + b == a);
    } else {
        assert((a + b).drop_last() == a + b.drop_last());
        lemma_counts_add_up(batches, a, b.drop_last(), t);
    }
}

} // verus!
