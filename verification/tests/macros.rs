use dbt_docs_server::encoding::JsonNode;
use dbt_docs_server::macros::{
    build_macro_list_sql, finish_get_macro, finish_list_macros, finish_macro_facets,
    plan_get_macro, plan_list_macros, MacroListParams,
};
use dbt_docs_server::pagination::Cursor;
use dbt_docs_server::table::{Batch, Cell, Column, ColumnData};

fn texts(name: &str, cells: &[Option<&str>]) -> Column {
    Column {
        name: name.to_string(),
        data: ColumnData::Text(
            cells
                .iter()
                .map(|c| Cell {
                    null: c.is_none(),
                    value: c.unwrap_or("").to_string(),
                })
                .collect(),
        ),
    }
}

fn flags(name: &str, cells: &[Option<bool>]) -> Column {
    Column {
        name: name.to_string(),
        data: ColumnData::Bool(
            cells
                .iter()
                .map(|c| Cell {
                    null: c.is_none(),
                    value: c.unwrap_or(false),
                })
                .collect(),
        ),
    }
}

fn lists(name: &str, cells: &[Option<&[&str]>]) -> Column {
    Column {
        name: name.to_string(),
        data: ColumnData::TextList(
            cells
                .iter()
                .map(|c| Cell {
                    null: c.is_none(),
                    value: c
                        .unwrap_or(&[])
                        .iter()
                        .map(|t| Cell {
                            null: false,
                            value: t.to_string(),
                        })
                        .collect(),
                })
                .collect(),
        ),
    }
}

fn floats(name: &str, cells: &[Option<f64>]) -> Column {
    Column {
        name: name.to_string(),
        data: ColumnData::Float64(
            cells
                .iter()
                .map(|c| Cell {
                    null: c.is_none(),
                    value: c.unwrap_or(0.0).to_bits(),
                })
                .collect(),
        ),
    }
}

#[test]
fn macros_tests_sort_default_is_name_asc() {
    let params = MacroListParams::default();
    let (_, rows) = build_macro_list_sql(&params, 10, None).unwrap();
    assert!(rows.contains("ORDER BY m.name ASC NULLS LAST"));
}

#[test]
fn macros_tests_sort_name_desc_accepted() {
    let params = MacroListParams {
        sort: Some("name:desc".into()),
        ..Default::default()
    };
    let (_, rows) = build_macro_list_sql(&params, 10, None).unwrap();
    assert!(rows.contains("ORDER BY m.name DESC NULLS LAST"));
}

#[test]
fn macros_tests_sort_unknown_column_returns_err() {
    let params = MacroListParams {
        sort: Some("package_name:asc".into()),
        ..Default::default()
    };
    assert!(build_macro_list_sql(&params, 10, None).is_err());
}

#[test]
fn macros_tests_sort_unknown_direction_returns_err() {
    let params = MacroListParams {
        sort: Some("name:random".into()),
        ..Default::default()
    };
    assert!(build_macro_list_sql(&params, 10, None).is_err());
}

#[test]
fn package_filter_applied() {
    let params = MacroListParams {
        package: Some("dbt_utils".into()),
        ..Default::default()
    };
    let (count, rows) = build_macro_list_sql(&params, 10, None).unwrap();
    assert!(count.contains("package_name = 'dbt_utils'"));
    assert!(rows.contains("package_name = 'dbt_utils'"));
}

#[test]
fn empty_package_filter_not_applied() {
    let params = MacroListParams {
        package: Some("".into()),
        ..Default::default()
    };
    let (count, rows) = build_macro_list_sql(&params, 10, None).unwrap();
    // The WHERE clause must not filter on package_name when the param is empty.
    assert!(
        !count.contains("package_name ="),
        "count must not filter on package_name when empty"
    );
    assert!(
        !rows.contains("package_name ="),
        "rows must not filter on package_name when empty"
    );
}

#[test]
fn macros_tests_count_sql_excludes_cursor_rows_sql_includes_cursor() {
    let c = Cursor {
        sort_value: Some("cents_to_dollars".into()),
        unique_id: "macro.jaffle_shop.cents_to_dollars".into(),
    };
    let params = MacroListParams::default();
    let (count, rows) = build_macro_list_sql(&params, 10, Some(&c)).unwrap();
    assert!(
        !count.contains("cents_to_dollars"),
        "count must exclude cursor predicate"
    );
    assert!(
        rows.contains("cents_to_dollars"),
        "rows must include cursor predicate"
    );
}

fn detail(arguments: Option<&str>, meta: Option<&str>) -> Vec<Batch> {
    vec![Batch {
        num_rows: 1,
        columns: vec![
            texts("unique_id", &[Some("macro.js.cents")]),
            texts("name", &[Some("cents")]),
            texts("package_name", &[Some("js")]),
            texts("description", &[None]),
            texts("original_file_path", &[Some("macros/cents.sql")]),
            texts("file_path", &[Some("cents.sql")]),
            texts("patch_path", &[None]),
            texts("macro_sql", &[Some("select 1")]),
            texts("arguments", &[arguments]),
            lists("depends_on_macros", &[Some(&["macro.dbt.run"])]),
            flags("docs_show", &[Some(true)]),
            lists("supported_languages", &[None]),
            texts("meta", &[meta]),
            floats("created_at", &[Some(12.5)]),
        ],
    }]
}

#[test]
fn macros_tests_invalid_unique_id_returns_400() {
    assert_eq!(plan_get_macro("bad'id").unwrap_err().status, 400);
    assert_eq!(plan_get_macro("").unwrap_err().status, 400);
    assert!(plan_get_macro("macro.js.cents").unwrap().contains("'macro.js.cents'"));
}

#[test]
fn missing_macro_returns_404() {
    let reply = finish_get_macro("macro.x.y", &vec![]).unwrap_err();
    assert_eq!(reply.status, 404);
    assert_eq!(reply.fields[0].1, "macro macro.x.y not found");
}

#[test]
fn macros_tests_all_fields_hydrated() {
    let batch = Batch {
        num_rows: 1,
        columns: vec![
            texts("unique_id", &[Some("macro.jaffle_shop.cents_to_dollars")]),
            texts("name", &[Some("cents_to_dollars")]),
            texts("package_name", &[Some("jaffle_shop")]),
            texts("description", &[Some("Convert cents to dollars.")]),
            texts("original_file_path", &[Some("macros/m.sql")]),
            texts("file_path", &[Some("macros/m.sql")]),
            texts("patch_path", &[Some("macros/schema.yml")]),
            texts(
                "macro_sql",
                &[Some("{% macro cents_to_dollars(c) -%}({{ c }} / 100)::numeric{%- endmacro %}")],
            ),
            texts(
                "arguments",
                &[Some("[{\"name\":\"column_name\",\"type\":\"string\",\"description\":\"cents col\"}]")],
            ),
            texts("meta", &[Some("{\"owner\":\"data-eng\"}")]),
            flags("docs_show", &[Some(true)]),
            lists("supported_languages", &[Some(&["sql"])]),
            lists("depends_on_macros", &[Some(&["macro.dbt.type_numeric"])]),
            floats("created_at", &[Some(1_746_000_000.0)]),
        ],
    };
    let found = finish_get_macro("macro.jaffle_shop.cents_to_dollars", &vec![batch]).unwrap();
    assert_eq!(found.base.unique_id, "macro.jaffle_shop.cents_to_dollars");
    assert_eq!(found.base.name, "cents_to_dollars");
    assert_eq!(found.base.resource_type, "macro");
    assert_eq!(found.base.package_name.as_deref(), Some("jaffle_shop"));
    assert_eq!(
        found.base.description.as_deref(),
        Some("Convert cents to dollars.")
    );
    assert_eq!(found.file_path.as_deref(), Some("macros/m.sql"));
    assert_eq!(found.patch_path.as_deref(), Some("macros/schema.yml"));
    assert!(found.macro_sql.unwrap().contains("cents_to_dollars"));
    assert_eq!(found.docs_show, Some(true));
    assert_eq!(found.supported_languages, vec!["sql"]);
    assert_eq!(found.created_at.map(f64::from_bits), Some(1_746_000_000.0));
    let JsonNode::Object(fields) = &found.meta else {
        panic!("expected an object");
    };
    assert_eq!(fields, &vec![("owner".to_string(), "\"data-eng\"".to_string())]);
    let JsonNode::Array(items) = &found.arguments else {
        panic!("expected an array");
    };
    assert_eq!(items.len(), 1);
    let argument: serde_json::Value = serde_json::from_str(&items[0]).unwrap();
    assert_eq!(argument["name"], "column_name");
    assert_eq!(argument["type"], "string");
    assert_eq!(argument["description"], "cents col");
    assert_eq!(found.depends_on.len(), 1);
    assert_eq!(found.depends_on[0].unique_id, "macro.dbt.type_numeric");
    assert_eq!(found.depends_on[0].edge_type, "macro");
}

#[test]
fn json_columns_are_parsed() {
    let found =
        finish_get_macro("macro.js.cents", &detail(Some("[1,2]"), Some("{\"a\": {\"b\":1}}"))).unwrap();
    let JsonNode::Array(items) = &found.arguments else {
        panic!("expected an array");
    };
    assert_eq!(items, &vec!["1", "2"]);
    let JsonNode::Object(fields) = &found.meta else {
        panic!("expected an object");
    };
    assert_eq!(fields, &vec![("a".to_string(), "{\"b\":1}".to_string())]);
    assert_eq!(found.depends_on[0].unique_id, "macro.dbt.run");
    assert!(found.supported_languages.is_empty());
}

#[test]
fn malformed_json_columns_are_null() {
    for text in [None, Some(""), Some("  "), Some("{not json")] {
        let found = finish_get_macro("macro.js.cents", &detail(text, text)).unwrap();
        assert!(matches!(found.arguments, JsonNode::Null));
        assert!(matches!(found.meta, JsonNode::Null));
    }
}

fn summaries(names: &[&str]) -> Batch {
    let ids: Vec<String> = names.iter().map(|n| format!("macro.js.{n}")).collect();
    let ids: Vec<Option<&str>> = ids.iter().map(|i| Some(i.as_str())).collect();
    let names: Vec<Option<&str>> = names.iter().map(|n| Some(*n)).collect();
    let n = names.len();
    Batch {
        num_rows: n,
        columns: vec![
            texts("unique_id", &ids),
            texts("name", &names),
            texts("package_name", &vec![None; n]),
            texts("description", &vec![None; n]),
            texts("arguments", &vec![Some("{bad"); n]),
        ],
    }
}

#[test]
fn list_macros_pages_through() {
    let plan = plan_list_macros(&MacroListParams {
        first: Some(1),
        ..Default::default()
    })
    .unwrap();
    let page = finish_list_macros(plan.first, 2, &vec![summaries(&["a", "b"])]);
    assert_eq!(page.data.len(), 1);
    assert!(matches!(page.data[0].arguments, JsonNode::Null));
    assert!(page.page_info.has_next_page);
    let next = plan_list_macros(&MacroListParams {
        first: Some(1),
        after: page.page_info.end_cursor,
        ..Default::default()
    })
    .unwrap();
    assert!(next.probe.queries[0].rows_sql.contains("m.name > 'a'"));
    let last = finish_list_macros(next.first, 2, &vec![summaries(&["b"])]);
    assert!(!last.page_info.has_next_page);
    assert_eq!(last.page_info.end_cursor, None);
}

#[test]
fn list_macros_refuses_bad_parameters() {
    let bad = MacroListParams {
        sort: Some("package_name:asc".into()),
        ..Default::default()
    };
    assert_eq!(plan_list_macros(&bad).unwrap_err().status, 400);
    let bad = MacroListParams {
        after: Some("%%%".into()),
        ..Default::default()
    };
    assert_eq!(plan_list_macros(&bad).unwrap_err().fields[0].1, "invalid cursor");
}

#[test]
fn list_macro_facets_returns_packages() {
    assert!(finish_macro_facets(&vec![]).packages.is_empty());
    let packages = finish_macro_facets(&vec![Batch {
        num_rows: 3,
        columns: vec![texts(
            "value",
            &[Some("dbt"), Some("dbt_utils"), Some("jaffle_shop")],
        )],
    }])
    .packages;
    assert_eq!(packages.len(), 3);
    assert_eq!(packages[0].value, "dbt");
    assert_eq!(packages[1].value, "dbt_utils");
    assert_eq!(packages[2].value, "jaffle_shop");
    assert_eq!(packages[0].count, None);
}
