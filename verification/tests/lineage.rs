use dbt_docs_server::encoding::JsonNode;
use dbt_docs_server::lineage::{
    build_edges_sql, build_nodes_sql, build_saved_query_probe_sql, extract_saved_query_root,
    finish_get_lineage, finish_saved_query_lineage, plan_get_lineage, LineageGraph, LineageParams,
    LineagePlan,
};
use dbt_docs_server::table::{Batch, Cell, Column, ColumnData};

fn texts(name: &str, cells: &[Option<&str>]) -> Column {
    Column {
        name: name.to_string(),
        data: ColumnData::Text(
            cells
                .iter()
                .map(|c| Cell {
                    null: c.is_none(),
                    value: c.unwrap_or("").to_string(),
                })
                .collect(),
        ),
    }
}

fn lists(name: &str, cells: &[Option<&[&str]>]) -> Column {
    Column {
        name: name.to_string(),
        data: ColumnData::TextList(
            cells
                .iter()
                .map(|c| Cell {
                    null: c.is_none(),
                    value: c
                        .unwrap_or(&[])
                        .iter()
                        .map(|t| Cell {
                            null: false,
                            value: t.to_string(),
                        })
                        .collect(),
                })
                .collect(),
        ),
    }
}

#[test]
fn depth_is_clamped() {
    let depth = |max_depth| match plan_get_lineage("model.a", &LineageParams { max_depth }).unwrap() {
        LineagePlan::Graph { max_depth, .. } => max_depth,
        LineagePlan::SavedQuery { .. } => panic!("not a saved query"),
    };
    assert_eq!(depth(None), 3);
    assert_eq!(depth(Some(0)), 1);
    assert_eq!(depth(Some(2)), 2);
    assert_eq!(depth(Some(99)), 3);
}

#[test]
fn a_walk_goes_both_ways() {
    let sql = build_nodes_sql("model.a", 2);
    assert!(sql.contains("WHERE child_unique_id = 'model.a'"));
    assert!(sql.contains("WHERE u.depth > -2"));
    assert!(sql.contains("WHERE d.depth < 2"));
    assert!(build_nodes_sql("model.a", 0).contains("WHERE u.depth > 0"));
    assert!(build_edges_sql("model.a", 1).contains("SELECT 'model.a' AS unique_id UNION"));
    assert_eq!(
        build_saved_query_probe_sql("saved_query.a"),
        "SELECT unique_id, name, depends_on_nodes FROM dbt.saved_queries \
         WHERE unique_id = 'saved_query.a' LIMIT 1"
    );
}

#[test]
fn lineage_of_unknown_ids_is_refused() {
    let params = LineageParams::default();
    assert_eq!(plan_get_lineage("", &params).unwrap_err().status, 400);
    assert_eq!(plan_get_lineage("a'b", &params).unwrap_err().status, 400);
    let reply = finish_get_lineage("model.a", 3, "", "").unwrap_err();
    assert_eq!(reply.status, 404);
    assert_eq!(reply.fields[0].1, "node model.a not found");
    assert_eq!(finish_get_lineage("model.a", 3, "[", "").unwrap_err().status, 500);
}

#[test]
fn lineage_has_the_rows_of_its_queries() {
    let lineage = finish_get_lineage("model.a", 3, "[{\"unique_id\": \"model.a\"}]", "").unwrap();
    assert_eq!(lineage.root, "model.a");
    assert_eq!(lineage.max_depth, 3);
    let LineageGraph::Rows { node_rows, edge_rows } = lineage.graph else {
        panic!("expected rows");
    };
    assert!(matches!(node_rows, JsonNode::Array(items) if items == vec!["{\"unique_id\":\"model.a\"}"]));
    assert!(matches!(edge_rows, JsonNode::Array(items) if items.is_empty()));
}

#[test]
fn a_saved_query_has_one_hop_upstream() {
    let params = LineageParams::default();
    assert!(matches!(
        plan_get_lineage("saved_query.js.weekly", &params).unwrap(),
        LineagePlan::SavedQuery { .. }
    ));
    let row = vec![Batch {
        num_rows: 1,
        columns: vec![
            texts("unique_id", &[Some("saved_query.js.weekly")]),
            texts("name", &[None]),
            lists("depends_on_nodes", &[Some(&["metric.js.revenue", "plain"])]),
        ],
    }];
    assert_eq!(extract_saved_query_root(&row).unwrap().name, "weekly");
    let lineage = finish_saved_query_lineage("saved_query.js.weekly", 3, &row).unwrap();
    let LineageGraph::SavedQuery { nodes, edges } = lineage.graph else {
        panic!("expected a saved query");
    };
    assert_eq!(nodes.len(), 3);
    assert_eq!(nodes[0].depth, 0);
    assert_eq!(nodes[0].resource_type, "saved_query");
    assert_eq!(nodes[1].name, "revenue");
    assert_eq!(nodes[1].resource_type, "metric");
    assert_eq!(nodes[1].depth, -1);
    assert_eq!(nodes[2].resource_type, "node");
    assert_eq!(edges[1].from_id, "plain");
    assert_eq!(edges[1].to_id, "saved_query.js.weekly");
    assert_eq!(edges[1].edge_type, "saved_query");
    let reply = finish_saved_query_lineage("saved_query.js.x", 3, &vec![]).unwrap_err();
    assert_eq!(reply.status, 404);
}
