use dbt_docs_server::models::{
    build_list_sql, cursor_sort_value, finish_get_model, finish_list_models, finish_model_facets,
    layer_conditions, modeling_layer_case_sql, modeling_layer_where, parse_access_levels,
    parse_modeling_layers, parse_sort, plan_get_model, plan_list_models, resolve_sort_expr,
    ModelListParams,
};
use dbt_docs_server::pagination::{Cursor, SortDir};
use dbt_docs_server::probe::ProbeStep;
use dbt_docs_server::table::{Batch, Cell, Column, ColumnData};

fn texts(name: &str, cells: &[Option<&str>]) -> Column {
    Column {
        name: name.to_string(),
        data: ColumnData::Text(
            cells
                .iter()
                .map(|c| Cell {
                    null: c.is_none(),
                    value: c.unwrap_or("").to_string(),
                })
                .collect(),
        ),
    }
}

fn numbers(name: &str, cells: &[Option<i64>]) -> Column {
    Column {
        name: name.to_string(),
        data: ColumnData::Int64(
            cells
                .iter()
                .map(|c| Cell {
                    null: c.is_none(),
                    value: c.unwrap_or(0),
                })
                .collect(),
        ),
    }
}

fn flags(name: &str, cells: &[Option<bool>]) -> Column {
    Column {
        name: name.to_string(),
        data: ColumnData::Bool(
            cells
                .iter()
                .map(|c| Cell {
                    null: c.is_none(),
                    value: c.unwrap_or(false),
                })
                .collect(),
        ),
    }
}

fn lists(name: &str, cells: &[Option<&[&str]>]) -> Column {
    Column {
        name: name.to_string(),
        data: ColumnData::TextList(
            cells
                .iter()
                .map(|c| Cell {
                    null: c.is_none(),
                    value: c
                        .unwrap_or(&[])
                        .iter()
                        .map(|t| Cell {
                            null: false,
                            value: t.to_string(),
                        })
                        .collect(),
                })
                .collect(),
        ),
    }
}

fn floats(name: &str, cells: &[Option<f64>]) -> Column {
    Column {
        name: name.to_string(),
        data: ColumnData::Float64(
            cells
                .iter()
                .map(|c| Cell {
                    null: c.is_none(),
                    value: c.unwrap_or(0.0).to_bits(),
                })
                .collect(),
        ),
    }
}

fn small_numbers(name: &str, cells: &[i32]) -> Column {
    Column {
        name: name.to_string(),
        data: ColumnData::Int32(
            cells
                .iter()
                .map(|c| Cell {
                    null: false,
                    value: *c,
                })
                .collect(),
        ),
    }
}

fn summaries(ids: &[&str], has_catalog: i32) -> Batch {
    let n = ids.len();
    let ids: Vec<Option<&str>> = ids.iter().map(|i| Some(*i)).collect();
    Batch {
        num_rows: n,
        columns: vec![
            texts("unique_id", &ids),
            texts("name", &ids),
            texts("package_name", &vec![Some("js"); n]),
            texts("original_file_path", &vec![Some("models/a.sql"); n]),
            texts("modeling_layer", &vec![None; n]),
            texts("access_level", &vec![Some("public"); n]),
            flags("contract_enforced", &vec![Some(true); n]),
            texts("owner", &vec![Some("data team"); n]),
            texts("executed_at", &vec![Some("2026-01-01"); n]),
            texts("materialized", &vec![Some("table"); n]),
            small_numbers("has_catalog", &vec![has_catalog; n]),
            numbers("row_count_stat", &vec![Some(7); n]),
            numbers("bytes_stat", &vec![None; n]),
            texts("last_modified_stat", &vec![None; n]),
        ],
    }
}

#[test]
fn layer_conditions_drive_case_sql() {
    // Every layer must appear in the generated CASE SQL.
    let sql = modeling_layer_case_sql();
    assert!(sql.starts_with("CASE"), "must be a CASE expression");
    assert!(sql.ends_with("ELSE NULL END"), "must fall back to NULL");
    for (layer, cond) in layer_conditions() {
        assert!(sql.contains(layer), "CASE SQL missing '{layer}'");
        assert!(
            sql.contains(cond),
            "CASE SQL missing condition for '{layer}'"
        );
    }
}

#[test]
fn modeling_layer_where_isolates_each_layer() {
    // Filtering for one layer must not bleed into another layer's patterns.
    for (target_layer, _) in layer_conditions() {
        let sql = modeling_layer_where(&[target_layer]);
        for (other_layer, other_cond) in layer_conditions() {
            if other_layer == target_layer {
                assert!(
                    sql.contains(other_cond),
                    "WHERE missing {target_layer} conditions"
                );
            } else {
                // The condition strings for other layers should not appear.
                // Compare by checking for the other layer's unique LIKE patterns.
                let other_patterns: Vec<&str> = other_cond.split(" OR ").collect();
                for pat in &other_patterns {
                    // Only check patterns that aren't shared (e.g. "lower" is shared).
                    let pat = pat.trim();
                    if pat.contains("LIKE '") {
                        assert!(
                            !sql.contains(pat),
                            "WHERE for '{target_layer}' leaked pattern from '{other_layer}': {pat}"
                        );
                    }
                }
            }
        }
    }
}

#[test]
fn modeling_layer_where_multi_layer_or() {
    let sql = modeling_layer_where(&["Staging", "Marts"]);
    assert!(sql.contains(") OR ("), "layers must be OR'd together");
}

#[test]
fn parse_modeling_layers_rejects_unknown() {
    assert!(parse_modeling_layers("Unknown").is_err());
    assert!(parse_modeling_layers("staging").is_err()); // wrong case
}

#[test]
fn parse_modeling_layers_accepts_all_valid() {
    for (layer, _) in layer_conditions() {
        assert!(
            parse_modeling_layers(layer).is_ok(),
            "rejected valid layer '{layer}'"
        );
    }
    assert!(parse_modeling_layers("Staging,Marts").is_ok());
}

#[test]
fn access_levels_are_checked() {
    assert_eq!(
        parse_access_levels("public, private").unwrap(),
        vec!["public", "private"]
    );
    assert!(parse_access_levels("secret").is_err());
}

#[test]
fn sort_columns_are_checked() {
    assert_eq!(resolve_sort_expr("name").unwrap(), "n.name");
    assert!(resolve_sort_expr("nope").is_err());
    assert!(parse_sort("name:up").is_err());
    let sort = parse_sort("name:desc").unwrap();
    assert_eq!(sort.column, "name");
    assert!(matches!(sort.dir, SortDir::Desc));
}

#[test]
fn count_does_not_move_with_the_cursor() {
    let params = ModelListParams::default();
    let cursor = Cursor {
        sort_value: Some("zebra".to_string()),
        unique_id: "model.js.zebra".to_string(),
    };
    let (count, rows, _) = build_list_sql(&params, true, true, 10, Some(&cursor)).unwrap();
    let (plain_count, plain_rows, _) = build_list_sql(&params, true, true, 10, None).unwrap();
    assert_eq!(count, plain_count);
    assert_ne!(rows, plain_rows);
    assert!(rows.contains("n.name > 'zebra'"));
    assert!(rows.contains("LIMIT 11"));
}

#[test]
fn the_barest_query_names_no_absent_view() {
    let params = ModelListParams::default();
    let (count, rows, _) = build_list_sql(&params, false, false, 10, None).unwrap();
    for sql in [count, rows] {
        assert!(!sql.contains("WITH"));
        assert!(!sql.contains("rcc"));
        assert!(!sql.contains("lr."));
        assert!(!sql.contains("run_results"));
        assert!(!sql.contains("catalog_tables"));
    }
}

#[test]
fn invalid_parameters_are_refused() {
    let refused = |params: ModelListParams| plan_list_models(&params).unwrap_err();
    let bad = ModelListParams {
        sort: Some("nope:asc".to_string()),
        ..Default::default()
    };
    assert_eq!(refused(bad).status, 400);
    let bad = ModelListParams {
        modeling_layer: Some("staging".to_string()),
        ..Default::default()
    };
    assert_eq!(refused(bad).status, 400);
    let bad = ModelListParams {
        access: Some("secret".to_string()),
        ..Default::default()
    };
    assert_eq!(refused(bad).status, 400);
    let bad = ModelListParams {
        after: Some("not base64!!!".to_string()),
        ..Default::default()
    };
    let reply = refused(bad);
    assert_eq!(reply.status, 400);
    assert_eq!(reply.fields[0].0, "error");
    assert_eq!(reply.fields[0].1, "invalid cursor");
}

#[test]
fn absent_views_fall_back_to_barer_queries() {
    let plan = plan_list_models(&ModelListParams::default()).unwrap();
    let mut probe = plan.probe;
    assert!(probe.count_sql().contains("run_results"));
    assert!(probe.count_sql().contains("catalog_tables"));
    let mut asked = 1;
    loop {
        match probe.answer(None) {
            ProbeStep::Ask(next) => {
                asked += 1;
                probe = next;
            }
            ProbeStep::Fail(reply) => {
                assert_eq!(reply.status, 500);
                assert_eq!(reply.fields[0].1, "count query returned no rows");
                break;
            }
            ProbeStep::Rows { .. } => panic!("no count was given"),
        }
    }
    assert_eq!(asked, 4);
    let plan = plan_list_models(&ModelListParams::default()).unwrap();
    let ProbeStep::Ask(second) = plan.probe.answer(None) else {
        panic!("expected another query");
    };
    let ProbeStep::Rows { total, rows_sql } = second.answer(Some("12".to_string())) else {
        panic!("expected rows");
    };
    assert_eq!(total, 12);
    assert!(rows_sql.contains("LIMIT 101"));
}

#[test]
fn a_page_of_models_ends_in_a_cursor() {
    let plan = plan_list_models(&ModelListParams {
        first: Some(2),
        ..Default::default()
    })
    .unwrap();
    assert_eq!(plan.first, 2);
    let rows = vec![summaries(&["model.a", "model.b"], 1), summaries(&["model.c"], 0)];
    let page = finish_list_models(plan.first, &plan.sort, 3, &rows);
    assert_eq!(page.data.len(), 2);
    assert_eq!(page.data[0].unique_id, "model.a");
    assert_eq!(page.data[0].catalog.as_ref().unwrap().row_count_stat, Some(7));
    assert!(page.data[0].contract_enforced);
    assert!(page.page_info.has_next_page);
    assert_eq!(page.page_info.total_count, 3);
    let end = Cursor::decode(page.page_info.end_cursor.as_ref().unwrap()).unwrap();
    assert_eq!(end.sort_value.as_deref(), Some("model.b"));
    assert_eq!(end.unique_id, "model.b");
    let rest = finish_list_models(plan.first, &plan.sort, 3, &vec![summaries(&["model.c"], 0)]);
    assert!(!rest.page_info.has_next_page);
    assert_eq!(rest.page_info.end_cursor, None);
    assert!(rest.data[0].catalog.is_none());
    assert_eq!(cursor_sort_value(&rest.data[0], "name").as_deref(), Some("model.c"));
    assert_eq!(
        cursor_sort_value(&rest.data[0], "executed_at").as_deref(),
        Some("2026-01-01")
    );
}

#[test]
fn an_empty_list_has_no_cursors() {
    let plan = plan_list_models(&ModelListParams::default()).unwrap();
    let page = finish_list_models(plan.first, &plan.sort, 0, &vec![]);
    assert!(page.data.is_empty());
    assert_eq!(page.page_info.start_cursor, None);
    assert_eq!(page.page_info.end_cursor, None);
}

#[test]
fn facets_have_fixed_layers_and_found_owners() {
    let owners = vec![Batch {
        num_rows: 3,
        columns: vec![texts("owner", &[Some("analytics"), None, Some("finance")])],
    }];
    let facets = finish_model_facets(&owners, &vec![]);
    let values: Vec<&str> = facets.modeling_layers.iter().map(|f| f.value.as_str()).collect();
    assert_eq!(values, vec!["Staging", "Intermediate", "Marts"]);
    let values: Vec<&str> = facets.accesses.iter().map(|f| f.value.as_str()).collect();
    assert_eq!(values, vec!["private", "protected", "public"]);
    let values: Vec<&str> = facets.owners.iter().map(|f| f.value.as_str()).collect();
    assert_eq!(values, vec!["analytics", "finance"]);
}

#[test]
fn a_model_has_columns_edges_and_its_last_run() {
    let queries = plan_get_model("model.js.orders").unwrap();
    assert!(queries.node.contains("'model.js.orders'"));
    let node = vec![Batch {
        num_rows: 1,
        columns: vec![
            texts("unique_id", &[Some("model.js.orders")]),
            texts("name", &[Some("orders")]),
            texts("resource_type", &[Some("model")]),
            lists("tags", &[Some(&["daily", "core"])]),
            lists("fqn", &[None]),
            flags("contract_enforced", &[None]),
        ],
    }];
    let columns = vec![Batch {
        num_rows: 1,
        columns: vec![
            texts("name", &[Some("id")]),
            numbers("index", &[Some(1)]),
            texts("data_type", &[Some("int")]),
            texts("declared_type", &[None]),
            texts("inferred_type", &[None]),
            texts("catalog_type", &[None]),
            texts("description", &[None]),
            texts("label", &[None]),
            texts("granularity", &[None]),
        ],
    }];
    let edges = |id: &str| {
        vec![Batch {
            num_rows: 1,
            columns: vec![
                texts("unique_id", &[Some(id)]),
                texts("edge_type", &[Some("ref")]),
            ],
        }]
    };
    let run = Some(vec![Batch {
        num_rows: 1,
        columns: vec![
            texts("status", &[Some("success")]),
            floats("execution_time", &[Some(1.5)]),
            texts("completed_at", &[None]),
        ],
    }]);
    let model = finish_get_model(
        "model.js.orders",
        &node,
        &columns,
        &edges("source.js.raw"),
        &edges("exposure.js.board"),
        &run,
        &None,
    )
    .unwrap();
    assert_eq!(model.name, "orders");
    assert_eq!(model.tags, vec!["daily", "core"]);
    assert!(model.fqn.is_empty());
    assert_eq!(model.contract_enforced, None);
    assert_eq!(model.columns[0].name, "id");
    assert_eq!(model.columns[0].index, Some(1));
    assert_eq!(model.depends_on[0].unique_id, "source.js.raw");
    assert_eq!(model.referenced_by[0].unique_id, "exposure.js.board");
    let run = model.execution_info.unwrap();
    assert_eq!(run.status.as_deref(), Some("success"));
    assert_eq!(run.execution_time.map(f64::from_bits), Some(1.5));
    assert!(model.catalog.is_none());
}

#[test]
fn an_unknown_model_is_not_found() {
    let reply = finish_get_model("model.js.x", &vec![], &vec![], &vec![], &vec![], &None, &None)
        .unwrap_err();
    assert_eq!(reply.status, 404);
    assert_eq!(reply.fields[0].1, "model model.js.x not found");
    assert_eq!(plan_get_model("o'x").unwrap_err().status, 400);
    assert_eq!(plan_get_model("").unwrap_err().status, 400);
}

#[test]
fn models_are_sorted_by_what_is_joined() {
    let plan = plan_list_models(&ModelListParams {
        sort: Some("executed_at:desc".to_string()),
        after: Some(
            Cursor {
                sort_value: None,
                unique_id: "model.a".to_string(),
            }
            .encode(),
        ),
        ..Default::default()
    })
    .unwrap();
    assert_eq!(plan.sort.column, "executed_at");
    for query in &plan.probe.queries[..2] {
        assert!(query
            .rows_sql
            .contains("ORDER BY CAST(lr.executed_at AS VARCHAR) DESC NULLS LAST"));
    }
    for query in &plan.probe.queries[2..] {
        assert!(query.rows_sql.contains("ORDER BY NULL::VARCHAR DESC NULLS LAST"));
        assert!(query.rows_sql.contains("NULL::VARCHAR IS NULL"));
        assert!(!query.rows_sql.contains("lr."));
    }
}

#[test]
fn the_total_of_models_does_not_depend_on_the_cursor() {
    let first = plan_list_models(&ModelListParams::default()).unwrap();
    let later = plan_list_models(&ModelListParams {
        after: Some(
            Cursor {
                sort_value: Some("a".to_string()),
                unique_id: "model.a".to_string(),
            }
            .encode(),
        ),
        ..Default::default()
    })
    .unwrap();
    for (a, b) in first.probe.queries.iter().zip(&later.probe.queries) {
        assert_eq!(a.count_sql, b.count_sql);
        assert_ne!(a.rows_sql, b.rows_sql);
    }
}
