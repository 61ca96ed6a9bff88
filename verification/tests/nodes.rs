use dbt_docs_server::encoding::JsonNode;
use dbt_docs_server::nodes::{
    batches_to_counts, finish_get_node, finish_list_nodes, plan_get_node, plan_list_nodes,
    tally_counts, CountedType, NodeListParams, NodeReply,
};
use dbt_docs_server::table::{Batch, Cell, Column, ColumnData};

fn texts(name: &str, cells: &[Option<&str>]) -> Column {
    Column {
        name: name.to_string(),
        data: ColumnData::Text(
            cells
                .iter()
                .map(|c| Cell {
                    null: c.is_none(),
                    value: c.unwrap_or("").to_string(),
                })
                .collect(),
        ),
    }
}

fn numbers(name: &str, cells: &[Option<i64>]) -> Column {
    Column {
        name: name.to_string(),
        data: ColumnData::Int64(
            cells
                .iter()
                .map(|c| Cell {
                    null: c.is_none(),
                    value: c.unwrap_or(0),
                })
                .collect(),
        ),
    }
}

fn floats(name: &str, cells: &[Option<f64>]) -> Column {
    Column {
        name: name.to_string(),
        data: ColumnData::Float64(
            cells
                .iter()
                .map(|c| Cell {
                    null: c.is_none(),
                    value: c.unwrap_or(0.0).to_bits(),
                })
                .collect(),
        ),
    }
}

fn counts_batch(rows: &[(Option<&str>, i64)]) -> Batch {
    let types: Vec<Option<&str>> = rows.iter().map(|r| r.0).collect();
    let counts: Vec<Option<i64>> = rows.iter().map(|r| Some(r.1)).collect();
    Batch {
        num_rows: rows.len(),
        columns: vec![
            texts("resource_type", &types),
            numbers("count", &counts),
        ],
    }
}

#[test]
fn unit_test_rows_fold_into_test() {
    let batch = counts_batch(&[(Some("test"), 100), (Some("unit_test"), 42)]);
    let counts = batches_to_counts(&vec![batch]);
    assert_eq!(counts.test, 142, "unit_test must be summed into test");
}

#[test]
fn null_resource_type_rows_are_skipped() {
    let batch = counts_batch(&[(Some("model"), 10), (None, 5)]);
    let counts = batches_to_counts(&vec![batch]);
    assert_eq!(counts.model, 10);
    assert_eq!(counts.source, 0);
}

#[test]
fn returns_counts_for_known_resource_types() {
    let counts = batches_to_counts(&vec![counts_batch(&[
        (Some("model"), 142),
        (Some("source"), 23),
        (Some("test"), 456),
    ])]);
    assert_eq!(counts.model, 142);
    assert_eq!(counts.source, 23);
    assert_eq!(counts.test, 456);
    assert_eq!(counts.macro_, 0);
    assert_eq!(counts.exposure, 0);
}

#[test]
fn counts_add_up_over_batches() {
    let counts = batches_to_counts(&vec![
        counts_batch(&[(Some("model"), 142), (Some("source"), 23)]),
        counts_batch(&[(Some("test"), 456), (Some("widget"), 9), (Some("model"), 1)]),
    ]);
    assert_eq!(counts.model, 143);
    assert_eq!(counts.count(CountedType::Model), 143);
}

#[test]
fn counts_that_do_not_fit_are_none() {
    let batch = counts_batch(&[(Some("model"), i64::MAX), (Some("model"), 1)]);
    assert!(tally_counts(&vec![batch]).is_none());
    assert!(tally_counts(&vec![]).is_some());
}

#[test]
fn a_list_of_nodes_is_limited() {
    let plan = plan_list_nodes(&NodeListParams::default()).unwrap();
    assert_eq!(plan.limit, 1000);
    assert_eq!(plan.offset, 0);
    let plan = plan_list_nodes(&NodeListParams {
        limit: Some(100_000),
        offset: Some(7),
        resource_type: Some("model".to_string()),
        q: Some("50%".to_string()),
        ..Default::default()
    })
    .unwrap();
    assert_eq!(plan.limit, 5000);
    assert_eq!(plan.offset, 7);
    let sql = &plan.probe.queries[0].rows_sql;
    assert!(sql.contains("resource_type = 'model'"));
    assert!(sql.contains("OFFSET 7"));
    let refused = plan_list_nodes(&NodeListParams {
        package: Some("a;b".to_string()),
        ..Default::default()
    });
    assert_eq!(refused.unwrap_err().status, 400);
    assert_eq!(
        finish_list_nodes("[{\"a\":1}]", 1, 0, 10),
        "{\"nodes\":[{\"a\":1}],\"total\":1,\"offset\":0,\"limit\":10}"
    );
    assert_eq!(
        finish_list_nodes("", 0, 0, 10),
        "{\"nodes\":[],\"total\":0,\"offset\":0,\"limit\":10}"
    );
}

const ORDERS: &str = "[{\"unique_id\":\"model.jaffle_shop.orders\",\"name\":\"orders\",\
    \"resource_type\":\"model\",\"package_name\":\"jaffle_shop\",\"materialized\":\"table\",\
    \"description\":null,\"database_name\":\"prod\",\"schema_name\":\"dbt_prod\",\
    \"relation_name\":\"prod.dbt_prod.orders\",\"identifier\":\"orders\",\
    \"original_file_path\":\"models/orders.sql\",\"access_level\":null,\
    \"group_name\":null,\"raw_code\":null}]";

#[test]
fn get_node_execution_info_null_when_run_results_absent() {
    let reply = finish_get_node(
        "model.jaffle_shop.orders",
        Some(ORDERS),
        "",
        "",
        "",
        &None,
    )
    .unwrap();
    let NodeReply::Detail(node) = reply else {
        panic!("expected a detail");
    };
    assert!(node.execution_info.is_none());
}

#[test]
fn a_node_is_read_with_its_neighbours() {
    assert!(plan_get_node("model.js.a").unwrap().node.contains("'model.js.a'"));
    assert_eq!(plan_get_node("").unwrap_err().status, 400);
    let reply = finish_get_node(
        "model.js.a",
        Some("[{\"unique_id\":\"model.js.a\",\"name\":\"a\"}]"),
        "[{\"name\":\"id\"}]",
        "",
        "[]",
        &None,
    )
    .unwrap();
    let NodeReply::Detail(node) = reply else {
        panic!("expected a detail");
    };
    assert!(node
        .fields
        .contains(&("name".to_string(), "\"a\"".to_string())));
    assert!(matches!(&node.columns, JsonNode::Array(items) if items.len() == 1));
    assert!(matches!(&node.depends_on, JsonNode::Array(items) if items.is_empty()));
    assert!(node.execution_info.is_none());
}

#[test]
fn get_node_execution_info_populated_when_run_results_present() {
    let run = Some(vec![Batch {
        num_rows: 1,
        columns: vec![
            texts("status", &[Some("success")]),
            floats("execution_time", &[Some(4.2)]),
            texts("completed_at", &[Some("2026-05-15T10:32:11Z")]),
        ],
    }]);
    let reply = finish_get_node(
        "model.jaffle_shop.orders",
        Some(ORDERS),
        "",
        "",
        "",
        &run,
    )
    .unwrap();
    let NodeReply::Detail(node) = reply else {
        panic!("expected a detail");
    };
    let run = node.execution_info.unwrap();
    assert_eq!(run.status.as_deref(), Some("success"));
    assert_eq!(run.completed_at.as_deref(), Some("2026-05-15T10:32:11Z"));
    assert_eq!(run.execution_time, Some(4.2f64.to_bits()));
}

#[test]
fn an_unknown_node_is_not_found() {
    let reply = finish_get_node("m", None, "", "", "", &None).unwrap_err();
    assert_eq!(reply.status, 404);
    assert_eq!(reply.fields[0].1, "node m not found");
    let reply = finish_get_node("m", Some("[{"), "", "", "", &None).unwrap_err();
    assert_eq!(reply.status, 500);
}
