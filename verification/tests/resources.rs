use dbt_docs_server::encoding::JsonNode;
use dbt_docs_server::exposures::{
    edge_type_from_prefix, finish_exposure_facets, finish_get_exposure, finish_list_exposures,
    plan_get_exposure, plan_list_exposures, ExposureListParams,
};
use dbt_docs_server::groups::{
    extract_config_surface, finish_get_group, finish_list_groups, plan_get_group,
    plan_group_models, plan_list_groups, GroupDetailParams, GroupListParams,
};
use dbt_docs_server::metrics::{
    finish_get_metric, finish_list_metrics, plan_get_metric, plan_list_metrics, MetricListParams,
};
use dbt_docs_server::pagination::Cursor;
use dbt_docs_server::seeds::{
    finish_get_seed, finish_list_seeds, plan_get_seed, plan_list_seeds, SeedListParams,
};
use dbt_docs_server::table::{Batch, Cell, Column, ColumnData};

fn texts(name: &str, cells: &[Option<&str>]) -> Column {
    Column {
        name: name.to_string(),
        data: ColumnData::Text(
            cells
                .iter()
                .map(|c| Cell {
                    null: c.is_none(),
                    value: c.unwrap_or("").to_string(),
                })
                .collect(),
        ),
    }
}

fn numbers(name: &str, cells: &[Option<i64>]) -> Column {
    Column {
        name: name.to_string(),
        data: ColumnData::Int64(
            cells
                .iter()
                .map(|c| Cell {
                    null: c.is_none(),
                    value: c.unwrap_or(0),
                })
                .collect(),
        ),
    }
}

fn flags(name: &str, cells: &[Option<bool>]) -> Column {
    Column {
        name: name.to_string(),
        data: ColumnData::Bool(
            cells
                .iter()
                .map(|c| Cell {
                    null: c.is_none(),
                    value: c.unwrap_or(false),
                })
                .collect(),
        ),
    }
}

fn lists(name: &str, cells: &[Option<&[&str]>]) -> Column {
    Column {
        name: name.to_string(),
        data: ColumnData::TextList(
            cells
                .iter()
                .map(|c| Cell {
                    null: c.is_none(),
                    value: c
                        .unwrap_or(&[])
                        .iter()
                        .map(|t| Cell {
                            null: false,
                            value: t.to_string(),
                        })
                        .collect(),
                })
                .collect(),
        ),
    }
}

fn floats(name: &str, cells: &[Option<f64>]) -> Column {
    Column {
        name: name.to_string(),
        data: ColumnData::Float64(
            cells
                .iter()
                .map(|c| Cell {
                    null: c.is_none(),
                    value: c.unwrap_or(0.0).to_bits(),
                })
                .collect(),
        ),
    }
}

#[test]
fn detail_invalid_unique_id_returns_400() {
    assert_eq!(plan_get_exposure("bad'id").unwrap_err().status, 400);
    assert_eq!(plan_get_metric("bad'id").unwrap_err().status, 400);
    assert_eq!(plan_get_group("").unwrap_err().status, 400);
    assert_eq!(plan_get_seed("").unwrap_err().status, 400);
}

#[test]
fn detail_missing_returns_404() {
    let none = vec![];
    let text = |reply: dbt_docs_server::json::ErrorReply| {
        assert_eq!(reply.status, 404);
        reply.fields[0].1.clone()
    };
    assert_eq!(
        text(finish_get_exposure("exposure.x.y", &none).unwrap_err()),
        "exposure exposure.x.y not found"
    );
    assert_eq!(
        text(finish_get_metric("metric.x", &none, &none, &none).unwrap_err()),
        "metric metric.x not found"
    );
    assert_eq!(
        text(plan_group_models("group.x", &GroupDetailParams { first: None }, &none).unwrap_err()),
        "group group.x not found"
    );
    assert_eq!(
        text(finish_get_seed("seed.x", &none, &none, &none, &None, &None, &None).unwrap_err()),
        "seed seed.x not found"
    );
}

#[test]
fn an_exposure_has_its_upstream() {
    let row = vec![Batch {
        num_rows: 1,
        columns: vec![
            texts("unique_id", &[Some("exposure.js.board")]),
            texts("name", &[Some("board")]),
            texts("owner_name", &[Some("Ada")]),
            texts("meta", &[Some("{\"tier\":1}")]),
            lists("depends_on_nodes", &[Some(&["model.js.orders", "plain"])]),
            floats("created_at", &[Some(1.5)]),
        ],
    }];
    let found = finish_get_exposure("exposure.js.board", &row).unwrap();
    assert_eq!(found.base.resource_type, "exposure");
    assert_eq!(found.owner_name.as_deref(), Some("Ada"));
    assert!(matches!(found.meta, JsonNode::Object(_)));
    assert_eq!(found.depends_on[0].edge_type, "model");
    assert_eq!(found.depends_on[1].edge_type, edge_type_from_prefix("plain"));
    assert_eq!(found.created_at.map(f64::from_bits), Some(1.5));
}

#[test]
fn list_sort_param_returns_400() {
    let plan = plan_list_exposures(&ExposureListParams {
        sort: Some("name:asc".to_string()),
        ..Default::default()
    });
    assert_eq!(plan.unwrap_err().status, 400);
    let plan = plan_list_exposures(&ExposureListParams {
        owner: Some("A'da".to_string()),
        ..Default::default()
    })
    .unwrap();
    assert!(plan.probe.count_sql().contains("owner_name = 'A''da'"));
}

#[test]
fn list_depends_on_truncated_flag_propagated() {
    let row = Batch {
        num_rows: 1,
        columns: vec![
            texts("unique_id", &[Some("exposure.pkg.large")]),
            texts("name", &[Some("large")]),
            texts("exposure_type", &[None]),
            texts("maturity", &[None]),
            texts("owner_name", &[None]),
            texts("owner_email", &[None]),
            lists("tags", &[Some(&[])]),
            floats("created_at", &[None]),
            lists("depends_on_nodes_capped", &[Some(&["model.pkg.a", "model.pkg.b"])]),
            flags("depends_on_truncated", &[Some(true)]),
        ],
    };
    let page = finish_list_exposures(100, 1, &vec![row]);
    assert_eq!(page.data.len(), 1);
    assert!(page.data[0].depends_on_truncated);
    assert_eq!(page.data[0].depends_on[0].unique_id, "model.pkg.a");
    assert_eq!(page.data[0].depends_on[1].unique_id, "model.pkg.b");
    assert!(!page.page_info.has_next_page);
}

#[test]
fn facets_returns_distinct_owner_names() {
    assert!(finish_exposure_facets(&vec![]).owners.is_empty());
    let owners = finish_exposure_facets(&vec![Batch {
        num_rows: 2,
        columns: vec![texts("value", &[Some("Alex Park"), Some("Jane Doe")])],
    }])
    .owners;
    assert_eq!(owners.len(), 2);
    assert_eq!(owners[0].value, "Alex Park");
    assert_eq!(owners[1].value, "Jane Doe");
    assert_eq!(owners[0].count, None);
}

#[test]
fn a_metric_has_its_edges() {
    let row = vec![Batch {
        num_rows: 1,
        columns: vec![
            texts("unique_id", &[Some("metric.js.revenue")]),
            texts("name", &[Some("revenue")]),
            texts("metric_filter", &[Some("[1]")]),
            texts("type_params", &[Some("nope")]),
            lists("input_metric_names", &[Some(&["orders"])]),
        ],
    }];
    let edges = vec![Batch {
        num_rows: 1,
        columns: vec![
            texts("unique_id", &[Some("semantic_model.js.orders")]),
            texts("edge_type", &[Some("metric")]),
        ],
    }];
    let found = finish_get_metric("metric.js.revenue", &row, &edges, &vec![]).unwrap();
    assert!(matches!(found.filter, JsonNode::Array(_)));
    assert!(matches!(found.type_params, JsonNode::Null));
    assert_eq!(found.input_metric_names, vec!["orders"]);
    assert_eq!(found.depends_on[0].unique_id, "semantic_model.js.orders");
    assert!(found.referenced_by.is_empty());
}

#[test]
fn lists_refuse_bad_sorts_and_cursors() {
    assert_eq!(
        plan_list_metrics(&MetricListParams {
            sort: Some("x:asc".to_string()),
            ..Default::default()
        })
        .unwrap_err()
        .status,
        400
    );
    assert_eq!(
        plan_list_groups(&GroupListParams {
            after: Some("!".to_string()),
            ..Default::default()
        })
        .unwrap_err()
        .fields[0]
            .1,
        "invalid cursor"
    );
    assert_eq!(
        plan_list_seeds(&SeedListParams {
            sort: Some("name".to_string()),
            ..Default::default()
        })
        .unwrap_err()
        .status,
        400
    );
    assert_eq!(finish_list_metrics(10, 0, &vec![]).data.len(), 0);
    assert_eq!(finish_list_groups(10, 0, &vec![]).data.len(), 0);
}

#[test]
fn a_group_surfaces_its_config() {
    let config = JsonNode::Object(vec![
        ("tags".to_string(), "[\"a\",1,\"b\"]".to_string()),
        (
            "owner".to_string(),
            "{\"slack\":\"#team\",\"github\":\"team\"}".to_string(),
        ),
        ("meta".to_string(), "{\"tier\":1}".to_string()),
    ]);
    let (tags, slack, github, meta) = extract_config_surface(&config);
    assert_eq!(tags, vec!["a", "b"]);
    assert_eq!(slack.as_deref(), Some("#team"));
    assert_eq!(github.as_deref(), Some("team"));
    assert!(matches!(meta, JsonNode::Object(_)));
    let (tags, slack, github, meta) = extract_config_surface(&JsonNode::Array(vec![]));
    assert!(tags.is_empty());
    assert_eq!((slack, github), (None, None));
    assert!(matches!(meta, JsonNode::Null));
}

#[test]
fn a_group_counts_all_its_models() {
    let node = vec![Batch {
        num_rows: 1,
        columns: vec![
            texts("unique_id", &[Some("group.js.finance")]),
            texts("name", &[Some("fin'ance")]),
            texts("package_name", &[Some("js")]),
            texts("owner_name", &[Some("Ada")]),
            texts("owner_email", &[None]),
            texts("config", &[None]),
        ],
    }];
    let (detail, queries) =
        plan_group_models("group.js.finance", &GroupDetailParams { first: Some(1) }, &node).unwrap();
    assert!(queries.models.contains("n.group_name = 'fin''ance'"));
    assert!(queries.models.contains("AND n.package_name = 'js'"));
    assert!(queries.models.ends_with("LIMIT 1"));
    let models = vec![Batch {
        num_rows: 1,
        columns: vec![
            texts("unique_id", &[Some("model.js.a")]),
            texts("name", &[Some("a")]),
            texts("database_name", &[None]),
            texts("schema_name", &[None]),
            flags("contract_enforced", &[None]),
        ],
    }];
    let count = vec![Batch {
        num_rows: 1,
        columns: vec![numbers("count_star()", &[Some(3)])],
    }];
    let group = finish_get_group(detail, &models, &count);
    assert_eq!(group.models.len(), 1);
    assert_eq!(group.owner.as_ref().unwrap().name.as_deref(), Some("Ada"));
    assert_eq!(group.model_count, 3);
    assert!(group.truncated);
}

#[test]
fn a_seed_has_its_catalog() {
    let node = vec![Batch {
        num_rows: 1,
        columns: vec![
            texts("unique_id", &[Some("seed.js.countries")]),
            texts("name", &[Some("countries")]),
            texts("resource_type", &[Some("seed")]),
        ],
    }];
    let stats = Some(vec![Batch {
        num_rows: 1,
        columns: vec![
            texts("id", &[Some("row_count")]),
            texts("label", &[None]),
            texts("value", &[Some("12")]),
            texts("description", &[None]),
            flags("include", &[Some(true)]),
        ],
    }]);
    let catalog = Some(vec![Batch {
        num_rows: 1,
        columns: vec![
            texts("type", &[Some("table")]),
            texts("owner", &[None]),
            numbers("row_count_stat", &[Some(12)]),
            numbers("bytes_stat", &[None]),
        ],
    }]);
    let none = vec![];
    let seed = finish_get_seed("seed.js.countries", &node, &none, &none, &None, &catalog, &stats).unwrap();
    let found = seed.catalog.unwrap();
    assert_eq!(found.table_type.as_deref(), Some("table"));
    assert_eq!(found.stats[0].value, "12");
    assert_eq!(found.stats[0].label, "");
    assert!(found.stats[0].include_in_stats);
    assert!(seed.execution_info.is_none());
    let bare = finish_get_seed("seed.js.countries", &node, &none, &none, &None, &None, &None).unwrap();
    assert!(bare.catalog.is_none());
}

#[test]
fn seeds_are_listed_with_row_counts() {
    let params = SeedListParams::default();
    let rows = vec![Batch {
        num_rows: 1,
        columns: vec![
            texts("unique_id", &[Some("seed.a")]),
            texts("name", &[Some("a")]),
            texts("resource_type", &[Some("seed")]),
            texts("package_name", &[None]),
            texts("description", &[None]),
            texts("original_file_path", &[None]),
            numbers("row_count", &[Some(4)]),
            texts("executed_at", &[None]),
        ],
    }];
    let page = finish_list_seeds(&params, 10, 1, &rows);
    assert_eq!(page.data[0].row_count, Some(4));
    assert!(!page.page_info.has_next_page);
}

#[test]
fn seeds_fall_back_view_by_view() {
    let plan = plan_list_seeds(&SeedListParams::default()).unwrap();
    let views: Vec<(bool, bool)> = plan
        .probe
        .queries
        .iter()
        .map(|q| {
            (
                q.rows_sql.contains("dbt_rt.run_results"),
                q.rows_sql.contains("dbt.catalog_stats"),
            )
        })
        .collect();
    assert_eq!(
        views,
        vec![(true, true), (true, false), (false, true), (false, false)]
    );
}

#[test]
fn seeds_are_sorted_by_what_is_joined() {
    let plan = |sort: &str| {
        plan_list_seeds(&SeedListParams {
            sort: Some(sort.to_string()),
            first: Some(10),
            after: Some(
                Cursor {
                    sort_value: None,
                    unique_id: "seed.a".to_string(),
                }
                .encode(),
            ),
        })
        .unwrap()
        .probe
        .queries
    };
    let queries = plan("executed_at:desc");
    for query in &queries[..2] {
        assert!(query
            .rows_sql
            .contains("ORDER BY CAST(lr.executed_at AS VARCHAR) DESC NULLS LAST"));
    }
    for query in &queries[2..] {
        assert!(query.rows_sql.contains("ORDER BY NULL::VARCHAR DESC NULLS LAST"));
        assert!(!query.rows_sql.contains("lr."));
    }
    let queries = plan("row_count:asc");
    for (query, with_stats) in queries.iter().zip([true, false, true, false]) {
        assert_eq!(
            query.rows_sql.contains("ORDER BY rc.row_count ASC NULLS LAST"),
            with_stats
        );
        assert_eq!(
            query.rows_sql.contains("ORDER BY NULL::BIGINT ASC NULLS LAST"),
            !with_stats
        );
        assert_eq!(query.rows_sql.contains("rc."), with_stats);
    }
}

#[test]
fn any_sort_of_exposures_is_refused() {
    for sort in ["", "name:asc", "owner"] {
        let reply = plan_list_exposures(&ExposureListParams {
            sort: Some(sort.to_string()),
            ..Default::default()
        })
        .unwrap_err();
        assert_eq!(reply.status, 400);
        assert_eq!(
            reply.fields,
            vec![(
                "error".to_string(),
                "sort is not supported on this endpoint".to_string()
            )]
        );
    }
}
