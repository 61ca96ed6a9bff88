//! Model-level lineage: what a node is made from and what is made from it.
//!
//! A recursive query walks both upstream and downstream from the root, bounded by a
//! depth. Depths are signed: negative upstream, 0 the root, positive downstream.
//! Saved queries stand outside the table of edges; their lineage is made from their
//! own row.
use crate::detail_laws::{lemma_saved_query_name_query, reads_saved_query_name};
use crate::lineage_laws::{
    edges_between, lemma_edges_are_those_between_nodes, lemma_nodes_are_those_on_paths, nodes_on_paths,
    shows_edges, shows_nodes,
};
use crate::encoding::{json_inner, JsonNode, JsonView};
use crate::find::{occurs_at, starts_with};
use crate::json::{
    array_text, batches_as_value_array, check_unique_id, error_view, internal_error, valid_id,
    ErrorReply,
};
use crate::listing::{id_query, not_found_text, resource_not_found, LIMIT_ONE};
use crate::node_base::{extract_str_list, first_list};
use crate::pagination::{clamp_size, clamped};
use crate::sql::{escape_str, escaped};
use crate::table::{all_wf, find_filled, first_filled, Batch};
use crate::text::{after_last, decimal, last_part, split_at_first, split_once, to_decimal};
use vstd::prelude::*;

verus! {

/// Traversal depth when none is asked for.
pub const DEFAULT_MAX_DEPTH: u32 = 3;

/// Maximum traversal depth.
pub const HARD_MAX_DEPTH: u32 = 3;

/// Query parameters of a lineage.
#[derive(Debug, Default)]
pub struct LineageParams {
    pub max_depth: Option<u32>,
}

/// A node of the lineage of a saved query.
#[derive(Debug)]
pub struct LineageNode {
    pub unique_id: String,
    pub name: String,
    pub resource_type: String,
    pub materialized: Option<String>,
    pub depth: i32,
}

/// An edge of the lineage of a saved query.
#[derive(Debug)]
pub struct LineageEdge {
    pub from_id: String,
    pub to_id: String,
    pub edge_type: String,
}

/// The nodes and edges of a lineage.
#[derive(Debug)]
pub enum LineageGraph {
    /// As the queries gave them.
    Rows { node_rows: JsonNode, edge_rows: JsonNode },
    /// Made from the row of a saved query.
    SavedQuery { nodes: Vec<LineageNode>, edges: Vec<LineageEdge> },
}

/// The lineage of a node.
#[derive(Debug)]
pub struct LineageResponse {
    pub root: String,
    pub max_depth: u32,
    pub graph: LineageGraph,
}

// ---------------------------------------------------------------------------
// Queries
// ---------------------------------------------------------------------------

pub const NODES_UPSTREAM: &'static str = "WITH RECURSIVE \
     upstream AS ( \
         SELECT parent_unique_id AS unique_id, -1 AS depth \
         FROM dbt.edges WHERE child_unique_id = '";

pub const NODES_UPSTREAM_STEP: &'static str = "' \
         UNION ALL \
         SELECT e.parent_unique_id, u.depth - 1 \
         FROM dbt.edges e JOIN upstream u \
             ON e.child_unique_id = u.unique_id \
         WHERE u.depth > ";

pub const NODES_DOWNSTREAM: &'static str = " \
     ), \
     downstream AS ( \
         SELECT child_unique_id AS unique_id, 1 AS depth \
         FROM dbt.edges WHERE parent_unique_id = '";

pub const NODES_DOWNSTREAM_STEP: &'static str = "' \
         UNION ALL \
         SELECT e.child_unique_id, d.depth + 1 \
         FROM dbt.edges e JOIN downstream d \
             ON e.parent_unique_id = d.unique_id \
         WHERE d.depth < ";

pub const NODES_ALL: &'static str = " \
     ), \
     all_ids AS ( \
         SELECT '";

pub const NODES_TAIL: &'static str = "' AS unique_id, 0 AS depth \
         UNION ALL \
         SELECT unique_id, MIN(depth) FROM upstream GROUP BY unique_id \
         UNION ALL \
         SELECT unique_id, MAX(depth) FROM downstream GROUP BY unique_id \
     ), \
     metadata AS ( \
         SELECT unique_id, name, resource_type, materialized FROM dbt.nodes \
         UNION ALL \
         SELECT unique_id, name, 'metric' AS resource_type, NULL AS materialized FROM dbt.metrics \
         UNION ALL \
         SELECT unique_id, name, 'semantic_model' AS resource_type, NULL AS materialized FROM dbt.semantic_models \
         UNION ALL \
         SELECT unique_id, name, 'exposure' AS resource_type, NULL AS materialized FROM dbt.exposures \
     ) \
     SELECT m.unique_id, m.name, m.resource_type, m.materialized, \
            MIN(a.depth) AS depth \
     FROM all_ids a JOIN metadata m ON m.unique_id = a.unique_id \
     GROUP BY m.unique_id, m.name, m.resource_type, m.materialized \
     ORDER BY depth, m.resource_type, m.name";

pub const EDGES_TAIL: &'static str = "' AS unique_id \
         UNION \
         SELECT unique_id FROM upstream \
         UNION \
         SELECT unique_id FROM downstream \
     ) \
     SELECT e.parent_unique_id AS from_id, \
            e.child_unique_id AS to_id, \
            e.edge_type \
     FROM dbt.edges e \
     WHERE e.parent_unique_id IN (SELECT unique_id FROM all_ids) \
       AND e.child_unique_id IN (SELECT unique_id FROM all_ids) \
     ORDER BY e.parent_unique_id, e.child_unique_id";

/// The walk from a root in both directions, up to a depth, and the head of the table
/// of all that it reaches.
pub open spec fn walk(root_id: Seq<char>, max_depth: u32) -> Seq<char> {
    NODES_UPSTREAM@ + root_id + NODES_UPSTREAM_STEP@ + lowest(max_depth) + NODES_DOWNSTREAM@
        + root_id + NODES_DOWNSTREAM_STEP@ + decimal(max_depth as nat) + NODES_ALL@ + root_id
}

/// The lowest depth.
pub open spec fn lowest(max_depth: u32) -> Seq<char> {
    if max_depth == 0 {
        "0"@
    } else {
        "-"@ + decimal(max_depth as nat)
    }
}

fn walk_sql(root_id: &str, max_depth: u32) -> (r: String)
    ensures
        r@ == walk(root_id@, max_depth),
{
    let depth = to_decimal(max_depth as u64);
    let low = if max_depth == 0 {
        "0".to_owned()
    } else {
        let mut low = "-".to_owned();
        low.append(depth.as_str());
        low
    };
    let mut r = NODES_UPSTREAM.to_owned();
    r.append(root_id);
    r.append(NODES_UPSTREAM_STEP);
    r.append(low.as_str());
    r.append(NODES_DOWNSTREAM);
    r.append(root_id);
    r.append(NODES_DOWNSTREAM_STEP);
    r.append(depth.as_str());
    r.append(NODES_ALL);
    r.append(root_id);
    r
}

/// Build the query for every node within `max_depth` hops of a root, with its
/// metadata and its signed depth. `root_id` is escaped already.
pub fn build_nodes_sql(root_id: &str, max_depth: u32) -> (r: String)
    ensures
        r@ == walk(root_id@, max_depth) + NODES_TAIL@,
{
    let mut r = walk_sql(root_id, max_depth);
    r.append(NODES_TAIL);
    r
}

/// Build the query for every edge whose both ends are within `max_depth` hops of a
/// root. `root_id` is escaped already.
pub fn build_edges_sql(root_id: &str, max_depth: u32) -> (r: String)
    ensures
        r@ == walk(root_id@, max_depth) + EDGES_TAIL@,
{
    let mut r = walk_sql(root_id, max_depth);
    r.append(EDGES_TAIL);
    r
}

pub const SAVED_QUERY_PROBE_HEAD: &'static str = "SELECT unique_id, name, depends_on_nodes \
     FROM dbt.saved_queries WHERE unique_id = '";

/// Build the query for the row of a saved query. `root_id` is escaped already.
pub fn build_saved_query_probe_sql(root_id: &str) -> (r: String)
    ensures
        r@ == SAVED_QUERY_PROBE_HEAD@ + root_id@ + LIMIT_ONE@,
{
    let mut r = SAVED_QUERY_PROBE_HEAD.to_owned();
    r.append(root_id);
    r.append(LIMIT_ONE);
    r
}

/// A lineage that can be run.
#[derive(Debug)]
pub enum LineagePlan {
    /// Of a saved query, from its row.
    SavedQuery { max_depth: u32, sql: String },
    /// Of any other node.
    Graph { max_depth: u32, nodes_sql: String, edges_sql: String },
}

/// The depth that is walked.
pub open spec fn asked_depth(params: LineageParams) -> u32 {
    clamped(params.max_depth, DEFAULT_MAX_DEPTH, HARD_MAX_DEPTH)
}

/// Check the unique id of a node and build the queries for its lineage. The prefix of
/// the id tells a saved query.
pub fn plan_get_lineage(unique_id: &str, params: &LineageParams) -> (r: Result<
    LineagePlan,
    ErrorReply,
>)
    ensures
        match r {
            Ok(LineagePlan::SavedQuery { max_depth, sql }) => {
                &&& valid_id(unique_id@)
                &&& occurs_at(unique_id@, "saved_query."@, 0)
                &&& max_depth == asked_depth(*params)
                &&& 1 <= max_depth <= HARD_MAX_DEPTH
                &&& sql@ == id_query(SAVED_QUERY_PROBE_HEAD@, unique_id@, LIMIT_ONE@)
                &&& reads_saved_query_name(sql@, unique_id@)
            },
            Ok(LineagePlan::Graph { max_depth, nodes_sql, edges_sql }) => {
                &&& valid_id(unique_id@)
                &&& !occurs_at(unique_id@, "saved_query."@, 0)
                &&& max_depth == asked_depth(*params)
                &&& 1 <= max_depth <= HARD_MAX_DEPTH
                &&& nodes_sql@ == walk(escaped(unique_id@), max_depth) + NODES_TAIL@
                &&& edges_sql@ == walk(escaped(unique_id@), max_depth) + EDGES_TAIL@
                &&& shows_nodes(nodes_sql@, nodes_on_paths(unique_id@, max_depth as nat))
                &&& shows_edges(edges_sql@, edges_between(unique_id@, max_depth as nat))
            },
            Err(e) => !valid_id(unique_id@) && e@ == error_view(400, "invalid unique_id"@),
        },
{
    match check_unique_id(unique_id) {
        Ok(_) => {},
        Err(e) => return Err(e),
    }
    let max_depth: u32 = clamp_size(params.max_depth, DEFAULT_MAX_DEPTH, HARD_MAX_DEPTH);
    proof {
        lemma_saved_query_name_query(unique_id@);
        lemma_nodes_are_those_on_paths(unique_id@, max_depth);
        lemma_edges_are_those_between_nodes(unique_id@, max_depth);
    }
    let id = escape_str(unique_id);
    if starts_with(unique_id, "saved_query.") {
        let sql = build_saved_query_probe_sql(id.as_str());
        return Ok(LineagePlan::SavedQuery { max_depth, sql });
    }
    Ok(
        LineagePlan::Graph {
            max_depth,
            nodes_sql: build_nodes_sql(id.as_str(), max_depth),
            edges_sql: build_edges_sql(id.as_str(), max_depth),
        },
    )
}

// ---------------------------------------------------------------------------
// The lineage of a node
// ---------------------------------------------------------------------------

/// Whether a reply is the one for readings of the rows of nodes and edges. The root
/// is among the nodes where it is known, so no node means that it is not.
pub open spec fn is_lineage(
    r: Result<LineageResponse, ErrorReply>,
    unique_id: Seq<char>,
    max_depth: u32,
    nodes: Result<JsonView, Seq<char>>,
    edges: Result<JsonView, Seq<char>>,
) -> bool {
    match nodes {
        Err(e) => r matches Err(reply) && reply@ == error_view(500, e),
        Ok(nodes) => if nodes matches JsonView::Array(items) && items.len() == 0 {
            r matches Err(reply) && reply@ == error_view(404, not_found_text("node"@, unique_id))
        } else {
            match edges {
                Err(e) => r matches Err(reply) && reply@ == error_view(500, e),
                Ok(edges) => r matches Ok(lineage) && {
                    &&& lineage.root@ == unique_id
                    &&& lineage.max_depth == max_depth
                    &&& lineage.graph matches LineageGraph::Rows { node_rows: n, edge_rows: e } && n@
                        == nodes && e@ == edges
                },
            }
        },
    }
}

/// The lineage of a node, from readings of what its queries gave.
pub fn assemble_lineage(
    unique_id: &str,
    max_depth: u32,
    nodes: Result<JsonNode, String>,
    edges: Result<JsonNode, String>,
) -> (r: Result<LineageResponse, ErrorReply>)
    ensures
        is_lineage(
            r,
            unique_id@,
            max_depth,
            crate::encoding::reading_view(nodes),
            crate::encoding::reading_view(edges),
        ),
{
    let nodes = match nodes {
        Ok(v) => v,
        Err(e) => return Err(internal_error(e)),
    };
    let none = match &nodes {
        JsonNode::Array(items) => items.len() == 0,
        _ => false,
    };
    if none {
        return Err(resource_not_found("node", unique_id));
    }
    let edges = match edges {
        Ok(v) => v,
        Err(e) => return Err(internal_error(e)),
    };
    Ok(
        LineageResponse {
            root: unique_id.to_owned(),
            max_depth,
            graph: LineageGraph::Rows { node_rows: nodes, edge_rows: edges },
        },
    )
}

/// The lineage of a node, from the rows of its queries as a writer of JSON wrote
/// them.
pub fn finish_get_lineage(unique_id: &str, max_depth: u32, nodes: &str, edges: &str) -> (r: Result<
    LineageResponse,
    ErrorReply,
>)
    ensures
        is_lineage(
            r,
            unique_id@,
            max_depth,
            json_inner(array_text(nodes@)),
            json_inner(array_text(edges@)),
        ),
{
    assemble_lineage(
        unique_id,
        max_depth,
        batches_as_value_array(nodes),
        batches_as_value_array(edges),
    )
}

// ---------------------------------------------------------------------------
// The lineage of a saved query
// ---------------------------------------------------------------------------

/// The row of a saved query, as far as its lineage needs it.
#[derive(Debug)]
pub struct SavedQueryRoot {
    pub name: String,
    pub depends_on_nodes: Vec<String>,
}

/// The name in a row; where it has none, the last dotted part of the unique id.
pub open spec fn root_name(batch: Batch, unique_id: Seq<char>) -> Seq<char> {
    match batch.opt_text("name"@, 0) {
        Some(name) => name@,
        None => after_last(unique_id, '.'),
    }
}

/// Extract the row of a saved query; `None` where there is no row with a unique id.
pub fn extract_saved_query_root(batches: &Vec<Batch>) -> (r: Option<SavedQueryRoot>)
    requires
        all_wf(batches@),
    ensures
        match first_filled(batches@) {
            Some(batch) => match batch.opt_text("unique_id"@, 0) {
                Some(id) => r matches Some(root) && root.name@ == root_name(batch, id@)
                    && root.depends_on_nodes@ == first_list(batch, "depends_on_nodes"@),
                None => r is None,
            },
            None => r is None,
        },
{
    let batch = match find_filled(batches) {
        Some(batch) => batch,
        None => return None,
    };
    let unique_id = match batch.get_opt_text("unique_id", 0) {
        Some(id) => id,
        None => return None,
    };
    let name = match batch.get_opt_text("name", 0) {
        Some(name) => name,
        None => last_part(unique_id.as_str(), '.'),
    };
    Some(SavedQueryRoot { name, depends_on_nodes: extract_str_list(batch, "depends_on_nodes") })
}

/// The type of a resource by the prefix of its unique id.
pub open spec fn upstream_type(id: Seq<char>) -> Seq<char> {
    match split_at_first(id, '.') {
        Some((prefix, _)) => prefix,
        None => "node"@,
    }
}

/// Whether a node is that of an upstream resource.
pub open spec fn is_upstream_node(n: LineageNode, id: String) -> bool {
    &&& n.unique_id == id
    &&& n.name@ == after_last(id@, '.')
    &&& n.resource_type@ == upstream_type(id@)
    &&& n.materialized is None
    &&& n.depth == -1
}

/// Whether an edge goes from an upstream resource to the root.
pub open spec fn is_upstream_edge(e: LineageEdge, id: String, root: Seq<char>) -> bool {
    &&& e.from_id == id
    &&& e.to_id@ == root
    &&& e.edge_type@ == "saved_query"@
}

/// Whether nodes and edges are the lineage of a saved query: the root at depth 0, and
/// behind it each resource that it depends on, at depth -1, with an edge to the root.
pub open spec fn is_saved_query_graph(
    nodes: Seq<LineageNode>,
    edges: Seq<LineageEdge>,
    unique_id: Seq<char>,
    name: Seq<char>,
    upstream: Seq<String>,
) -> bool {
    &&& nodes.len() == upstream.len() + 1
    &&& edges.len() == upstream.len()
    &&& nodes[0].unique_id@ == unique_id
    &&& nodes[0].name@ == name
    &&& nodes[0].resource_type@ == "saved_query"@
    &&& nodes[0].materialized is None
    &&& nodes[0].depth == 0
    &&& forall|i: int|
        0 <= i < upstream.len() ==> is_upstream_node(nodes[i + 1], #[trigger] upstream[i])
    &&& forall|i: int|
        0 <= i < upstream.len() ==> is_upstream_edge(
            edges[i],
            #[trigger] upstream[i],
            unique_id,
        )
}

/// Build the lineage of a saved query: one hop upstream.
pub fn saved_query_response(unique_id: &str, max_depth: u32, root: SavedQueryRoot) -> (r:
    LineageResponse)
    ensures
        r.root@ == unique_id@,
        r.max_depth == max_depth,
        r.graph matches LineageGraph::SavedQuery { nodes, edges } && is_saved_query_graph(
            nodes@,
            edges@,
            unique_id@,
            root.name@,
            root.depends_on_nodes@,
        ),
{
    let mut nodes: Vec<LineageNode> = Vec::new();
    let mut edges: Vec<LineageEdge> = Vec::new();
    nodes.push(
        LineageNode {
            unique_id: unique_id.to_owned(),
            name: root.name,
            resource_type: "saved_query".to_owned(),
            materialized: None,
            depth: 0,
        },
    );
    let ghost first = nodes@[0];
    let upstream = &root.depends_on_nodes;
    let mut i: usize = 0;
    while i < upstream.len()
        invariant
            i <= upstream.len(),
            nodes.len() == i + 1,
            edges.len() == i,
            nodes@[0] == first,
            forall|j: int|
                0 <= j < i ==> is_upstream_node(nodes@[j + 1], #[trigger] upstream@[j]),
            forall|j: int|
                0 <= j < i ==> is_upstream_edge(edges@[j], #[trigger] upstream@[j], unique_id@),
        decreases upstream.len() - i,
    {
        let id = &upstream[i];
        let resource_type = match split_once(id.as_str(), '.') {
            Some((prefix, _)) => prefix,
            None => "node".to_owned(),
        };
        nodes.push(
            LineageNode {
                unique_id: id.clone(),
                name: last_part(id.as_str(), '.'),
                resource_type,
                materialized: None,
                depth: -1,
            },
        );
        edges.push(
            LineageEdge {
                from_id: id.clone(),
                to_id: unique_id.to_owned(),
                edge_type: "saved_query".to_owned(),
            },
        );
        i += 1;
    }
    LineageResponse {
        root: unique_id.to_owned(),
        max_depth,
        graph: LineageGraph::SavedQuery { nodes, edges },
    }
}

/// The lineage of a saved query, from what the query for its row gave.
pub fn finish_saved_query_lineage(unique_id: &str, max_depth: u32, batches: &Vec<Batch>) -> (r:
    Result<LineageResponse, ErrorReply>)
    requires
        all_wf(batches@),
    ensures
        match first_filled(batches@) {
            Some(batch) if batch.opt_text("unique_id"@, 0) is Some => r matches Ok(lineage) && {
                &&& lineage.root@ == unique_id@
                &&& lineage.max_depth == max_depth
                &&& lineage.graph matches LineageGraph::SavedQuery { nodes, edges }
                    && is_saved_query_graph(
                    nodes@,
                    edges@,
                    unique_id@,
                    root_name(batch, batch.opt_text("unique_id"@, 0)->0@),
                    first_list(batch, "depends_on_nodes"@),
                )
            },
            _ => r matches Err(e) && e@ == error_view(404, not_found_text("node"@, unique_id@)),
        },
{
    match extract_saved_query_root(batches) {
        Some(root) => Ok(saved_query_response(unique_id, max_depth, root)),
        None => Err(resource_not_found("node", unique_id)),
    }
}

} // verus!
