use dbt_docs_server::encoding::JsonNode;
use dbt_docs_server::pagination::Cursor;
use dbt_docs_server::saved_queries::{
    build_saved_query_list_sql, edge_type_from_prefix, finish_get_saved_query,
    finish_list_saved_queries, plan_get_saved_query, plan_list_saved_queries, SavedQueryListParams,
};
use dbt_docs_server::table::{Batch, Cell, Column, ColumnData};

fn texts(name: &str, cells: &[Option<&str>]) -> Column {
    Column {
        name: name.to_string(),
        data: ColumnData::Text(
            cells
                .iter()
                .map(|c| Cell {
                    null: c.is_none(),
                    value: c.unwrap_or("").to_string(),
                })
                .collect(),
        ),
    }
}

fn lists(name: &str, cells: &[Option<&[&str]>]) -> Column {
    Column {
        name: name.to_string(),
        data: ColumnData::TextList(
            cells
                .iter()
                .map(|c| Cell {
                    null: c.is_none(),
                    value: c
                        .unwrap_or(&[])
                        .iter()
                        .map(|t| Cell {
                            null: false,
                            value: t.to_string(),
                        })
                        .collect(),
                })
                .collect(),
        ),
    }
}

#[test]
fn saved_queries_tests_sort_default_is_name_asc() {
    let params = SavedQueryListParams::default();
    let (_, rows) = build_saved_query_list_sql(&params, 10, None).unwrap();
    assert!(rows.contains("ORDER BY sq.name ASC NULLS LAST"));
}

#[test]
fn saved_queries_tests_sort_name_desc_accepted() {
    let params = SavedQueryListParams {
        sort: Some("name:desc".into()),
        ..Default::default()
    };
    let (_, rows) = build_saved_query_list_sql(&params, 10, None).unwrap();
    assert!(rows.contains("ORDER BY sq.name DESC NULLS LAST"));
}

#[test]
fn saved_queries_tests_sort_unknown_column_returns_err() {
    let params = SavedQueryListParams {
        sort: Some("package_name:asc".into()),
        ..Default::default()
    };
    assert!(build_saved_query_list_sql(&params, 10, None).is_err());
}

#[test]
fn saved_queries_tests_sort_unknown_direction_returns_err() {
    let params = SavedQueryListParams {
        sort: Some("name:random".into()),
        ..Default::default()
    };
    assert!(build_saved_query_list_sql(&params, 10, None).is_err());
}

#[test]
fn saved_queries_tests_count_sql_excludes_cursor_rows_sql_includes_cursor() {
    let c = Cursor {
        sort_value: Some("weekly_revenue".into()),
        unique_id: "saved_query.jaffle_shop.weekly_revenue".into(),
    };
    let params = SavedQueryListParams::default();
    let (count, rows) = build_saved_query_list_sql(&params, 10, Some(&c)).unwrap();
    assert!(
        !count.contains("weekly_revenue"),
        "count must exclude cursor predicate"
    );
    assert!(
        rows.contains("weekly_revenue"),
        "rows must include cursor predicate"
    );
}

#[test]
fn saved_queries_tests_invalid_unique_id_returns_400() {
    assert_eq!(plan_get_saved_query("bad'id").unwrap_err().status, 400);
}

#[test]
fn missing_saved_query_returns_404() {
    let reply = finish_get_saved_query("saved_query.x.y", &vec![], &None).unwrap_err();
    assert_eq!(reply.status, 404);
    assert_eq!(reply.fields[0].1, "saved query saved_query.x.y not found");
}

#[test]
fn edge_types_are_prefixes() {
    assert_eq!(edge_type_from_prefix("metric.js.revenue"), "metric");
    assert_eq!(edge_type_from_prefix("plain"), "plain");
}

#[test]
fn depends_on_edge_type_derived_from_prefix() {
    let batch = Batch {
        num_rows: 1,
        columns: vec![
            texts("unique_id", &[Some("saved_query.pkg.q")]),
            texts("name", &[Some("q")]),
            texts("label", &[None]),
            texts("description", &[None]),
            texts("package_name", &[None]),
            texts("original_file_path", &[None]),
            texts("file_path", &[None]),
            lists("fqn", &[Some(&[])]),
            lists("tags", &[Some(&[])]),
            texts("group_name", &[None]),
            Column {
                name: "created_at".to_string(),
                data: ColumnData::Float64(vec![Cell {
                    null: true,
                    value: 0,
                }]),
            },
            texts("query_params", &[Some("{}")]),
            texts("exports", &[Some("[]")]),
            lists(
                "depends_on_nodes",
                &[Some(&[
                    "metric.pkg.m1",
                    "semantic_model.pkg.sm1",
                    "model.pkg.mod1",
                    "bare_unprefixed_id",
                ])],
            ),
        ],
    };
    let found = finish_get_saved_query("saved_query.pkg.q", &vec![batch], &Some(vec![])).unwrap();
    assert_eq!(found.depends_on[0].edge_type, "metric");
    assert_eq!(found.depends_on[1].edge_type, "semantic_model");
    assert_eq!(found.depends_on[2].edge_type, "model");
    assert_eq!(found.depends_on[3].edge_type, "bare_unprefixed_id");
}

const WEEKLY: &str = "saved_query.jaffle_shop.weekly_revenue_summary";

fn full() -> Vec<Batch> {
    let query_params = "{\"metrics\":[\"revenue\",\"order_count\"],\
        \"group_by\":[\"customer__region\",\"metric_time__week\"],\
        \"order_by\":[\"-metric_time__week\"],\"limit\":1000,\
        \"where\":{\"where_filters\":[{\"where_sql_template\":\
        \"{{ Dimension('customer__region') }} != 'INTERNAL'\"}]}}";
    let exports = "[{\"name\":\"weekly_revenue_summary__warehouse\",\
        \"config\":{\"alias\":\"weekly_revenue_summary\",\"export_as\":\"table\",\
        \"schema\":\"analytics\",\"database\":\"prod\"}}]";
    vec![Batch {
        num_rows: 1,
        columns: vec![
            texts("unique_id", &[Some(WEEKLY)]),
            texts("name", &[Some("weekly_revenue_summary")]),
            texts("label", &[Some("Weekly Revenue Summary")]),
            texts("description", &[Some("Weekly revenue by region")]),
            texts("package_name", &[Some("jaffle_shop")]),
            texts("original_file_path", &[Some("models/semantic/saved_queries.yml")]),
            texts("file_path", &[Some("models/semantic/saved_queries.yml")]),
            lists("fqn", &[Some(&["jaffle_shop", "semantic", "weekly_revenue_summary"])]),
            lists("tags", &[Some(&["finance", "weekly"])]),
            texts("group_name", &[Some("finance")]),
            Column {
                name: "created_at".to_string(),
                data: ColumnData::Float64(vec![Cell {
                    null: false,
                    value: 1_747_320_731.0f64.to_bits(),
                }]),
            },
            texts("query_params", &[Some(query_params)]),
            texts("exports", &[Some(exports)]),
            lists(
                "depends_on_nodes",
                &[Some(&[
                    "metric.jaffle_shop.revenue",
                    "metric.jaffle_shop.order_count",
                    "semantic_model.jaffle_shop.customers",
                ])],
            ),
        ],
    }]
}

fn field(node: &JsonNode, name: &str) -> serde_json::Value {
    let JsonNode::Object(fields) = node else {
        panic!("expected an object");
    };
    let text = &fields.iter().find(|f| f.0 == name).unwrap().1;
    serde_json::from_str(text).unwrap()
}

#[test]
fn saved_queries_tests_all_fields_hydrated() {
    let found = finish_get_saved_query(WEEKLY, &full(), &Some(vec![])).unwrap();
    assert_eq!(found.base.unique_id, WEEKLY);
    assert_eq!(found.base.name, "weekly_revenue_summary");
    assert_eq!(found.base.resource_type, "saved_query");
    assert_eq!(found.base.package_name.as_deref(), Some("jaffle_shop"));
    assert_eq!(
        found.base.description.as_deref(),
        Some("Weekly revenue by region")
    );
    assert_eq!(found.label.as_deref(), Some("Weekly Revenue Summary"));
    assert_eq!(found.group_name.as_deref(), Some("finance"));
    assert_eq!(found.created_at.map(f64::from_bits), Some(1_747_320_731.0));
    assert_eq!(found.tags, vec!["finance", "weekly"]);
    assert_eq!(
        found.fqn,
        vec!["jaffle_shop", "semantic", "weekly_revenue_summary"]
    );
    let metrics = field(&found.query_params, "metrics");
    assert_eq!(metrics[0], "revenue");
    assert_eq!(metrics[1], "order_count");
    let group_by = field(&found.query_params, "group_by");
    assert_eq!(group_by[0], "customer__region");
    assert_eq!(group_by[1], "metric_time__week");
    assert_eq!(field(&found.query_params, "order_by")[0], "-metric_time__week");
    assert_eq!(field(&found.query_params, "limit"), 1000);
    assert_eq!(
        field(&found.query_params, "where")["where_filters"][0]["where_sql_template"],
        "{{ Dimension('customer__region') }} != 'INTERNAL'"
    );
    let JsonNode::Array(exports) = &found.exports else {
        panic!("expected an array");
    };
    let export: serde_json::Value = serde_json::from_str(&exports[0]).unwrap();
    assert_eq!(export["name"], "weekly_revenue_summary__warehouse");
    assert_eq!(export["config"]["alias"], "weekly_revenue_summary");
    assert_eq!(export["config"]["export_as"], "table");
    assert_eq!(export["config"]["schema"], "analytics");
    assert_eq!(export["config"]["database"], "prod");
    assert_eq!(found.depends_on.len(), 3);
    assert_eq!(found.depends_on[0].unique_id, "metric.jaffle_shop.revenue");
    assert_eq!(found.depends_on[0].edge_type, "metric");
    assert_eq!(
        found.depends_on[2].unique_id,
        "semantic_model.jaffle_shop.customers"
    );
    assert_eq!(found.depends_on[2].edge_type, "semantic_model");
    assert!(found.referenced_by.is_empty());
}

#[test]
fn unreadable_json_columns_are_null() {
    let mut batches = full();
    for column in &mut batches[0].columns {
        if column.name == "exports" {
            *column = texts("exports", &[Some("nope")]);
        }
    }
    let found = finish_get_saved_query(WEEKLY, &batches, &None).unwrap();
    assert!(matches!(found.exports, JsonNode::Null));
    assert!(matches!(found.query_params, JsonNode::Object(_)));
}

#[test]
fn referenced_by_populated_from_downstream_edges() {
    let edges = Some(vec![Batch {
        num_rows: 1,
        columns: vec![
            texts("unique_id", &[Some("exposure.jaffle_shop.weekly_dashboard")]),
            texts("edge_type", &[Some("exposure")]),
        ],
    }]);
    let found = finish_get_saved_query(WEEKLY, &full(), &edges).unwrap();
    assert_eq!(
        found.referenced_by[0].unique_id,
        "exposure.jaffle_shop.weekly_dashboard"
    );
    assert_eq!(found.referenced_by[0].edge_type, "exposure");
}

#[test]
fn upstream_of_a_listed_query_is_capped() {
    let many: Vec<String> = (0..501).map(|i| format!("metric.js.m{i}")).collect();
    let many: Vec<&str> = many.iter().map(|m| m.as_str()).collect();
    let batch = Batch {
        num_rows: 2,
        columns: vec![
            texts("unique_id", &[Some("saved_query.js.a"), Some("saved_query.js.b")]),
            texts("name", &[Some("a"), Some("b")]),
            texts("package_name", &[None, None]),
            texts("group_name", &[None, None]),
            texts("description", &[None, None]),
            lists("tags", &[None, None]),
            lists("depends_on_nodes", &[Some(&many), Some(&many[..500])]),
        ],
    };
    let plan = plan_list_saved_queries(&SavedQueryListParams::default()).unwrap();
    let page = finish_list_saved_queries(plan.first, 2, &vec![batch]);
    assert_eq!(page.data[0].depends_on_nodes.len(), 500);
    assert!(page.data[0].depends_on_nodes_truncated);
    assert_eq!(page.data[1].depends_on_nodes.len(), 500);
    assert!(!page.data[1].depends_on_nodes_truncated);
}
