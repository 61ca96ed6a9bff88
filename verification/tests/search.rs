use dbt_docs_server::highlight::{
    build_description_highlight, build_highlight, build_tag_highlight, find_first_match, fold,
    mark_matches, pick_aligned, pick_single,
};
use dbt_docs_server::pagination::Cursor;
use dbt_docs_server::probe::ProbeStep;
use dbt_docs_server::search::{
    batches_to_search_rows, build_column_highlight, build_column_highlight_sql, finish_search,
    finish_search_facets, generate_highlight, plan_search, start_highlights, with_defaults,
    HighlightStep, RunStep, SearchFacetValue, SEARCH_FACETS_PACKAGES_SQL, SEARCH_FACETS_TAGS_SQL,
};
use dbt_docs_server::search_sql::{
    build_base_union, build_search_sql, join_fixed_width_sort_key, parse_csv_resource_types,
    ResourceType, SearchQueryParams,
};
use dbt_docs_server::table::{Batch, Cell, Column, ColumnData};

fn texts(name: &str, cells: &[Option<&str>]) -> Column {
    Column {
        name: name.to_string(),
        data: ColumnData::Text(
            cells
                .iter()
                .map(|c| Cell {
                    null: c.is_none(),
                    value: c.unwrap_or("").to_string(),
                })
                .collect(),
        ),
    }
}

fn numbers(name: &str, cells: &[Option<i64>]) -> Column {
    Column {
        name: name.to_string(),
        data: ColumnData::Int64(
            cells
                .iter()
                .map(|c| Cell {
                    null: c.is_none(),
                    value: c.unwrap_or(0),
                })
                .collect(),
        ),
    }
}

fn flags(name: &str, cells: &[Option<bool>]) -> Column {
    Column {
        name: name.to_string(),
        data: ColumnData::Bool(
            cells
                .iter()
                .map(|c| Cell {
                    null: c.is_none(),
                    value: c.unwrap_or(false),
                })
                .collect(),
        ),
    }
}

fn lists(name: &str, cells: &[Option<&[&str]>]) -> Column {
    Column {
        name: name.to_string(),
        data: ColumnData::TextList(
            cells
                .iter()
                .map(|c| Cell {
                    null: c.is_none(),
                    value: c
                        .unwrap_or(&[])
                        .iter()
                        .map(|t| Cell {
                            null: false,
                            value: t.to_string(),
                        })
                        .collect(),
                })
                .collect(),
        ),
    }
}

fn rows(ids: &[&str], matched: Option<&str>) -> Batch {
    let n = ids.len();
    let ids: Vec<Option<&str>> = ids.iter().map(|i| Some(*i)).collect();
    let tags: &[&str] = &["zeta orders", "alpha orders"];
    Batch {
        num_rows: n,
        columns: vec![
            texts("unique_id", &ids),
            texts("name", &ids),
            texts("resource_type", &vec![Some("model"); n]),
            texts("package_name", &vec![Some("js"); n]),
            texts("description", &vec![Some("All Orders of the shop"); n]),
            texts("materialized", &vec![Some("table"); n]),
            texts("access_level", &vec![None; n]),
            texts("source_name", &vec![None; n]),
            flags("freshness_checked", &vec![None; n]),
            texts("test_type", &vec![None; n]),
            texts("exposure_type", &vec![None; n]),
            texts("executed_at", &vec![None; n]),
            texts("matched_field", &vec![matched; n]),
            texts("cursor_key", &ids),
            lists("tags", &vec![Some(tags); n]),
            lists("fqn", &vec![None; n]),
        ],
    }
}

fn found(
    id: &str,
    name: &str,
    fqn: &[&str],
    tags: &[&str],
    description: Option<&str>,
    path: &str,
    matched: Option<&str>,
) -> Batch {
    Batch {
        num_rows: 1,
        columns: vec![
            texts("unique_id", &[Some(id)]),
            texts("name", &[Some(name)]),
            texts("resource_type", &[Some("model")]),
            texts("package_name", &[Some("jaffle_shop")]),
            texts("description", &[description]),
            texts("materialized", &[Some("table")]),
            texts("access_level", &[Some("public")]),
            texts("source_name", &[None]),
            flags("freshness_checked", &[None]),
            texts("test_type", &[None]),
            texts("exposure_type", &[None]),
            texts("executed_at", &[None]),
            texts("matched_field", &[matched]),
            texts("original_file_path", &[Some(path)]),
            lists("tags", &[Some(tags)]),
            lists("fqn", &[Some(fqn)]),
        ],
    }
}

fn browsed(id: &str, name: &str) -> Batch {
    found(
        id,
        name,
        &["jaffle_shop", name],
        &[],
        Some("A model"),
        "models/jaffle_shop.sql",
        None,
    )
}

#[test]
fn build_highlight_wraps_match_case_insensitive() {
    let result = build_highlight("Orders by Customer", &["orders"]);
    assert_eq!(result, "<b>Orders</b> by Customer");
}

#[test]
fn build_highlight_multi_token() {
    let result = build_highlight("order_id and customer_id", &["order", "customer"]);
    assert!(result.contains("<b>order</b>"));
    assert!(result.contains("<b>customer</b>"));
}

#[test]
fn build_highlight_preserves_original_casing() {
    let result = build_highlight("ORDERS list", &["orders"]);
    assert_eq!(result, "<b>ORDERS</b> list");
}

#[test]
fn highlights_go_by_characters() {
    // The lower case of a capital I with a dot is longer than the letter itself.
    assert_eq!(build_highlight("\u{130}x", &["x"]), "\u{130}<b>x</b>");
    assert_eq!(
        build_highlight("\u{130}\u{130} X\u{130}", &["x\u{130}"]),
        "\u{130}\u{130} <b>X\u{130}</b>"
    );
    // The Kelvin sign is longer than the letter that it is in lower case.
    assert_eq!(build_highlight("1\u{212a}b", &["k"]), "1<b>\u{212a}</b>b");
    assert_eq!(
        build_highlight("\u{c9}t\u{e9}", &["\u{e9}"]),
        "<b>\u{c9}</b>t<b>\u{e9}</b>"
    );
    let tags = vec!["\u{130}x".to_string()];
    assert_eq!(
        build_tag_highlight(&tags, &["x"]).as_deref(),
        Some("\u{130}<b>x</b>")
    );
    assert_eq!(
        build_description_highlight("\u{130}x", &["x"]),
        "\u{130}<b>x</b>"
    );
}

#[test]
fn texts_are_folded_character_by_character() {
    assert_eq!(fold("Ab\u{c9}"), vec!['a', 'b', '\u{e9}']);
    assert_eq!(fold("\u{130}B"), vec!['\u{130}', 'b']);
    assert_eq!(pick_single('X', &vec!['x']), 'x');
    assert_eq!(pick_single('X', &vec!['x', 'y']), 'X');
    assert_eq!(pick_aligned(vec!['a'], vec!['b']), vec!['a']);
    assert_eq!(pick_aligned(vec!['a', 'c'], vec!['b']), vec!['b']);
    let lower = vec!['a', 'b', 'a'];
    assert_eq!(
        mark_matches("XYZ", &lower, &vec![vec!['a'], vec![]]),
        "<b>X</b>Y<b>Z</b>"
    );
    assert_eq!(find_first_match(&lower, &vec![vec!['b'], vec![]]), Some(1));
    assert_eq!(find_first_match(&lower, &vec![vec!['b'], vec!['a']]), Some(0));
    assert_eq!(find_first_match(&lower, &vec![vec!['c']]), None);
}

#[test]
fn marks_stand_outside_marks() {
    assert_eq!(build_highlight("ab", &["a", "b"]), "<b>a</b><b>b</b>");
    assert_eq!(build_highlight("ab", &["b", "a"]), "<b>a</b><b>b</b>");
    assert_eq!(build_highlight("aa", &["a"]), "<b>a</b><b>a</b>");
    assert_eq!(build_highlight("aaa", &["aa"]), "<b>aa</b>a");
    assert_eq!(build_highlight("a/b", &["/", ""]), "a<b>/</b>b");
    // Matches that share characters are marked as one.
    assert_eq!(build_highlight("abcd", &["ab", "bc"]), "<b>abc</b>d");
    assert_eq!(build_highlight("orders", &["order", "orders"]), "<b>orders</b>");
    assert_eq!(build_highlight("none", &["x", ""]), "none");
    assert_eq!(build_highlight("", &["x"]), "");
}

#[test]
fn description_highlight_is_a_window() {
    let long = format!("{}orders{}", "a".repeat(100), "c".repeat(100));
    assert_eq!(
        build_description_highlight(&long, &["orders"]),
        format!("...{}<b>orders</b>{}...", "a".repeat(40), "c".repeat(34))
    );
    let early = format!("orders{}", "c".repeat(100));
    assert_eq!(
        build_description_highlight(&early, &["ORDERS"]),
        format!("<b>orders</b>{}...", "c".repeat(74))
    );
    let late = format!("{}orders", "a".repeat(100));
    assert_eq!(
        build_description_highlight(&late, &["orders"]),
        format!("...{}<b>orders</b>", "a".repeat(40))
    );
    let whole = format!("{}orders{}", "a".repeat(40), "c".repeat(34));
    assert_eq!(
        build_description_highlight(&whole, &["orders"]),
        format!("{}<b>orders</b>{}", "a".repeat(40), "c".repeat(34))
    );
    assert_eq!(
        build_description_highlight("no match", &["orders"]),
        "no match"
    );
}

#[test]
fn tag_highlight_takes_the_first_tag_in_order() {
    let tags = vec!["zeta orders".to_string(), "alpha Orders".to_string()];
    assert_eq!(
        build_tag_highlight(&tags, &["orders"]).as_deref(),
        Some("alpha <b>Orders</b>")
    );
    assert_eq!(build_tag_highlight(&tags, &["x"]), None);
}

#[test]
fn resource_types_read_back_in_order() {
    assert_eq!(ResourceType::all().len(), 12);
    for t in ResourceType::all() {
        assert_eq!(ResourceType::from_str(t.as_str()), Some(t));
    }
    assert_eq!(
        parse_csv_resource_types("macro, model,,model").unwrap(),
        vec![ResourceType::Model, ResourceType::Macro]
    );
    assert_eq!(
        parse_csv_resource_types("model,widget").unwrap_err(),
        "invalid type: widget"
    );
    assert!(build_base_union(&vec![], true, true).is_none());
}

#[test]
fn sort_keys_are_padded() {
    assert_eq!(
        join_fixed_width_sort_key(&[(2, "a"), (0, "b")]),
        "LPAD(CAST((a) AS VARCHAR), 2, '0')\n          || (b)"
    );
}

#[test]
fn search_refuses_bad_parameters() {
    let refused = |params: SearchQueryParams| plan_search(&params).unwrap_err();
    let reply = refused(SearchQueryParams {
        q: Some("x".repeat(1025)),
        ..Default::default()
    });
    assert_eq!(reply.status, 400);
    let reply = refused(SearchQueryParams {
        type_filter: Some("widget".to_string()),
        ..Default::default()
    });
    assert_eq!(reply.status, 400);
    let reply = refused(SearchQueryParams {
        modeling_layer: Some("staging".to_string()),
        ..Default::default()
    });
    assert_eq!(reply.status, 400);
    let reply = refused(SearchQueryParams {
        after: Some("!".to_string()),
        ..Default::default()
    });
    assert_eq!(reply.status, 400);
    assert!(plan_search(&SearchQueryParams {
        q: Some("\u{e9}".repeat(1024)),
        ..Default::default()
    })
    .is_ok());
}

#[test]
fn default_page_size_is_fifty() {
    let plan = plan_search(&SearchQueryParams::default()).unwrap();
    assert_eq!(plan.first, 50);
    assert!(plan.tokens.is_empty());
    let batches: Vec<Batch> = (0..60)
        .map(|i| browsed(&format!("model.pkg.model{i:02}"), &format!("model{i:02}")))
        .collect();
    let page = finish_search(plan.first, 60, batches_to_search_rows(&batches));
    assert_eq!(page.data.len(), 50);
    assert!(page.page_info.has_next_page);
}

#[test]
fn page_size_is_capped() {
    let plan = plan_search(&SearchQueryParams {
        q: Some(" Orders  by ".to_string()),
        first: Some(1000),
        ..Default::default()
    })
    .unwrap();
    assert_eq!(plan.first, 200);
    assert_eq!(plan.tokens, vec!["Orders", "by"]);
}

#[test]
fn absent_views_fall_back_when_searching() {
    let plan = plan_search(&SearchQueryParams::default()).unwrap();
    let n = plan.probe.queries.len();
    let mut probe = plan.probe;
    for _ in 1..n {
        let ProbeStep::Ask(next) = probe.answer(None) else {
            panic!("expected another query");
        };
        probe = next;
    }
    assert!(matches!(
        probe.answer(Some("3".to_string())),
        ProbeStep::Rows { total: 3, .. }
    ));
}

#[test]
fn ilike_wildcards_in_query_are_escaped() {
    let plan = plan_search(&SearchQueryParams {
        q: Some("%percent_".into()),
        ..Default::default()
    })
    .unwrap();
    for query in &plan.probe.queries {
        assert!(query.rows_sql.contains("'%' || '\\%percent\\_' || '%' ESCAPE '\\'"));
        assert!(query.count_sql.contains("'%' || '\\%percent\\_' || '%' ESCAPE '\\'"));
    }
}

#[test]
fn queries_are_quoted_and_escaped() {
    let params = SearchQueryParams {
        q: Some("50%_o'x".to_string()),
        ..Default::default()
    };
    let sql = build_search_sql(&params, &vec![ResourceType::Model], true, true, 10, None).unwrap();
    assert!(sql.page_sql.contains("'%' || '50\\%\\_o''x' || '%'"));
    assert!(sql.page_sql.contains("LIMIT 11"));
    let cursor = Cursor {
        sort_value: Some("k'1".to_string()),
        unique_id: "m".to_string(),
    };
    let later =
        build_search_sql(&params, &vec![ResourceType::Model], true, true, 10, Some(&cursor)).unwrap();
    assert!(later.page_sql.contains("'k''1'"));
    assert_eq!(later.count_sql, sql.count_sql);
    assert_eq!(
        build_search_sql(&params, &vec![], true, true, 10, None).unwrap_err(),
        "no resource types to search"
    );
}

#[test]
fn search_name_match_suppresses_highlight() {
    let row = found(
        "model.jaffle_shop.orders",
        "orders",
        &["jaffle_shop", "orders"],
        &[],
        Some("A model"),
        "models/jaffle_shop.sql",
        Some("name"),
    );
    let edges = batches_to_search_rows(&vec![row]);
    assert_eq!(edges[0].0.matched_field.as_deref(), Some("name"));
    assert!(matches!(
        generate_highlight(&edges[0].0, &["orders"]),
        HighlightStep::Done(None)
    ));
}

#[test]
fn search_description_match_returns_highlight() {
    let row = found(
        "model.jaffle_shop.orders",
        "orders",
        &["jaffle_shop", "orders"],
        &[],
        Some("combining payments and order status, one row per order"),
        "models/orders.sql",
        Some("description"),
    );
    let edges = batches_to_search_rows(&vec![row]);
    assert_eq!(edges[0].0.matched_field.as_deref(), Some("description"));
    let HighlightStep::Done(out) = generate_highlight(&edges[0].0, &["order"]) else {
        panic!("expected a highlight");
    };
    assert_eq!(
        out.as_deref(),
        Some("combining payments and <b>order</b> status, one row per <b>order</b>")
    );
}

#[test]
fn search_tag_match_returns_highlight() {
    let row = found(
        "model.jaffle_shop.orders",
        "orders",
        &["jaffle_shop", "orders"],
        &["orders-core"],
        None,
        "models/orders.sql",
        Some("tag"),
    );
    let edges = batches_to_search_rows(&vec![row]);
    assert_eq!(edges[0].0.matched_field.as_deref(), Some("tag"));
    let HighlightStep::Done(out) = generate_highlight(&edges[0].0, &["order"]) else {
        panic!("expected a highlight");
    };
    assert_eq!(out.as_deref(), Some("<b>order</b>s-core"));
}

#[test]
fn search_column_match_returns_comma_joined_highlight() {
    let row = found(
        "model.jaffle_shop.fct_orders",
        "fct_orders",
        &["jaffle_shop", "marts", "fct_orders"],
        &[],
        None,
        "models/marts/fct_orders.sql",
        Some("column"),
    );
    let edges = batches_to_search_rows(&vec![row]);
    assert_eq!(edges[0].0.matched_field.as_deref(), Some("column"));
    let HighlightStep::Columns(sql) = generate_highlight(&edges[0].0, &["order"]) else {
        panic!("expected a query");
    };
    assert_eq!(
        sql,
        build_column_highlight_sql("model.jaffle_shop.fct_orders", &["order"])
    );
    let names = vec![Batch {
        num_rows: 2,
        columns: vec![
            texts("unique_id", &[Some("model.jaffle_shop.fct_orders"); 2]),
            texts("column_name", &[Some("order_id"), Some("order_status")]),
        ],
    }];
    assert_eq!(
        build_column_highlight(&names, &["order"]).as_deref(),
        Some("<b>order</b>_id, <b>order</b>_status")
    );
    assert_eq!(build_column_highlight(&vec![], &["order"]), None);
    assert!(build_column_highlight_sql("m'1", &["order"]).contains("'m''1'"));
}

#[test]
fn a_search_is_highlighted_row_by_row() {
    let batches = vec![
        rows(&["a"], Some("description")),
        rows(&["b"], Some("column")),
        rows(&["c"], Some("column")),
        rows(&["d"], Some("name")),
    ];
    let RunStep::Ask { run, sql } =
        start_highlights(batches_to_search_rows(&batches), &["orders"])
    else {
        panic!("expected a query");
    };
    assert_eq!(run.at, 1);
    assert_eq!(sql, build_column_highlight_sql("b", &["orders"]));
    assert_eq!(
        run.rows[0].0.highlight.as_deref(),
        Some("All <b>Orders</b> of the shop")
    );
    let names = Some(vec![Batch {
        num_rows: 1,
        columns: vec![texts("column_name", &[Some("n_orders")])],
    }]);
    let RunStep::Ask { run, .. } = run.answer(&names, &["orders"]) else {
        panic!("expected another query");
    };
    assert_eq!(run.rows[1].0.highlight.as_deref(), Some("n_<b>orders</b>"));
    // A query that failed leaves the row without a highlight.
    let RunStep::Done(done) = run.answer(&None, &["orders"]) else {
        panic!("expected the rows");
    };
    assert_eq!(done.len(), 4);
    assert_eq!(done[2].0.highlight, None);
    assert_eq!(done[3].0.highlight, None);
}

#[test]
fn browsing_marks_nothing() {
    let found = batches_to_search_rows(&vec![rows(&["a"], Some("description"))]);
    let RunStep::Done(done) = start_highlights(found, &[]) else {
        panic!("expected the rows");
    };
    assert_eq!(done[0].0.highlight, None);
}

#[test]
fn cursor_pagination_advances_correctly() {
    let row1 = || browsed("model.jaffle_shop.alpha", "alpha");
    let row2 = || browsed("model.jaffle_shop.beta", "beta");
    let plan = plan_search(&SearchQueryParams {
        first: Some(1),
        ..Default::default()
    })
    .unwrap();
    let page = finish_search(plan.first, 2, batches_to_search_rows(&vec![row1(), row2()]));
    assert!(page.page_info.has_next_page);
    let cursor = page.page_info.end_cursor.unwrap();
    let read = Cursor::decode(&cursor).unwrap();
    assert_eq!(read.sort_value.as_deref(), Some("alpha"));
    assert_eq!(read.unique_id, "model.jaffle_shop.alpha");
    let plan = plan_search(&SearchQueryParams {
        first: Some(1),
        after: Some(cursor),
        ..Default::default()
    })
    .unwrap();
    assert!(plan.probe.queries[0].rows_sql.contains("b.name > 'alpha'"));
    let page = finish_search(plan.first, 2, batches_to_search_rows(&vec![row2()]));
    assert_eq!(page.data.len(), 1);
    assert!(!page.page_info.has_next_page);
    assert_eq!(page.page_info.end_cursor, None);
}

#[test]
fn search_cursors_hold_the_ranking_key() {
    let edges = batches_to_search_rows(&vec![rows(&["a", "b", "c"], None)]);
    let page = finish_search(2, 3, edges);
    assert_eq!(page.data.len(), 2);
    assert!(page.page_info.has_next_page);
    let end = Cursor::decode(page.page_info.end_cursor.as_ref().unwrap()).unwrap();
    assert_eq!(end.sort_value.as_deref(), Some("b"));
    assert_eq!(end.unique_id, "b");
    assert_eq!(page.page_info.total_count, 3);
}

#[test]
fn several_tags_are_one_condition() {
    let params = SearchQueryParams {
        package: Some("p".to_string()),
        tag: Some("a,b".to_string()),
        ..Default::default()
    };
    let sql = build_search_sql(&params, &vec![ResourceType::Model], true, true, 10, None).unwrap();
    let clause = "WHERE b.package_name IN ('p') AND (\
                  (len(list_filter(b.tags, x -> lower(x) = lower('a'))) > 0) OR \
                  (len(list_filter(b.tags, x -> lower(x) = lower('b'))) > 0))";
    assert!(sql.page_sql.contains(clause));
    assert!(sql.count_sql.contains(clause));
}

#[test]
fn filters_name_what_is_in_scope() {
    let params = SearchQueryParams {
        q: Some("orders".to_string()),
        package: Some("p".to_string()),
        materialization: Some("table".to_string()),
        ..Default::default()
    };
    let sql = build_search_sql(&params, &vec![ResourceType::Model], true, true, 10, None).unwrap();
    let clause = "\n) b\nWHERE b.package_name IN ('p') AND b.materialized IN ('table')\n),\n";
    assert!(sql.page_sql.contains(clause));
    assert!(sql.count_sql.contains(clause));
}

fn value(value: &str, count: u64) -> SearchFacetValue {
    SearchFacetValue::new(value.to_string(), count)
}

#[test]
fn facets_keep_their_defaults() {
    let out = with_defaults(
        vec![value("zeta", 1), value("view", 4), value("alpha", 2)],
        &["table", "view"],
    );
    let pairs: Vec<(&str, u64)> = out.iter().map(|f| (f.value.as_str(), f.count)).collect();
    assert_eq!(pairs, vec![("table", 0), ("view", 4), ("alpha", 2), ("zeta", 1)]);
}

#[test]
fn search_facets_empty_catalog() {
    let none = vec![];
    let facets = finish_search_facets(&none, &none, &none, &none, &none);
    assert_eq!(facets.accesses.len(), 3);
    assert!(facets.accesses.iter().all(|f| f.count == 0));
    assert_eq!(facets.modeling_layers.len(), 3);
    assert_eq!(facets.materialization_types.len(), 5);
    assert!(facets.materialization_types.iter().all(|f| f.count == 0));
    assert!(facets.tags.is_empty());
    assert!(facets.packages.is_empty());
    let packages = vec![Batch {
        num_rows: 1,
        columns: vec![texts("value", &[Some("js")]), numbers("cnt", &[Some(5)])],
    }];
    let facets = finish_search_facets(&none, &none, &none, &none, &packages);
    assert_eq!(facets.packages[0].value, "js");
    assert_eq!(facets.packages[0].count, 5);
}

#[test]
fn hits_have_the_fields_of_their_type() {
    let hit = |kind: &str| {
        let mut batch = found("x", "x", &[], &[], None, "x.sql", None);
        for column in &mut batch.columns {
            let name = column.name.clone();
            match name.as_str() {
                "resource_type" => *column = texts(&name, &[Some(kind)]),
                "source_name" | "test_type" | "exposure_type" | "executed_at" => {
                    *column = texts(&name, &[Some("t")])
                }
                "freshness_checked" => *column = flags(&name, &[Some(false)]),
                _ => {}
            }
        }
        let hit = batches_to_search_rows(&vec![batch]).remove(0).0.hit;
        [
            hit.materialized.is_some(),
            hit.access_level.is_some(),
            hit.source_name.is_some(),
            hit.freshness_checked.is_some(),
            hit.test_type.is_some(),
            hit.exposure_type.is_some(),
            hit.executed_at.is_some(),
        ]
    };
    assert_eq!(hit("model"), [true, true, false, false, false, false, true]);
    assert_eq!(hit("source"), [false, false, true, true, false, false, true]);
    assert_eq!(hit("test"), [false, false, false, false, true, false, true]);
    assert_eq!(hit("unit_test"), [false, false, false, false, true, false, false]);
    assert_eq!(hit("exposure"), [false, false, false, false, false, true, false]);
    assert_eq!(hit("seed"), [false, false, false, false, false, false, true]);
    assert_eq!(hit("macro"), [false; 7]);
}

#[test]
fn facets_go_over_every_resource_type() {
    for table in [
        "nodes",
        "macros",
        "exposures",
        "metrics",
        "saved_queries",
        "semantic_models",
        "groups",
        "unit_tests",
    ] {
        assert!(SEARCH_FACETS_PACKAGES_SQL.contains(&format!("FROM dbt.{table} ")));
    }
    for table in ["nodes", "exposures", "metrics", "saved_queries", "semantic_models"] {
        assert!(SEARCH_FACETS_TAGS_SQL.contains(&format!("FROM dbt.{table} ")));
    }
}
