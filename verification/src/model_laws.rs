//! What the queries of the list of models mean.
use crate::layer_laws::{layer_pred, lemma_layer_pred_holds, lemma_model_layers, row_in_layer};
use crate::listing::{asked_cursor, Listed};
use crate::meaning::{
    any_of, both, branches_sql, case_sql, case_value, counts, equals, grouped, has_numbers,
    has_value, is_one_of, key_in, left_join, lemma_and_equals, lemma_and_group, lemma_and_one_of,
    lemma_any_of, lemma_count_is_taken, lemma_page_is_read, lemma_plain_literal, listed,
    number_text, reads_page, selects, shows, shows_value, sqls, Expr, Item, Letters, Pred, Row,
};
use crate::models::{
    cte_prefix, is_variant, joins, known_layers, layer_branches, layer_case, layers, layers_sql,
    list_fault, lookup, model_count_sql, model_filter, model_rows_sql, optional_cols, order_expr,
    pieces, sort_expr, sortable_columns, ModelListCatalogInfo, ModelListParams, ModelSummary,
    SortView, CATALOG_COLS, EXECUTED_AT, NO_CATALOG_COLS, ROWS_HEAD, ROWS_MIDDLE, ROW_COUNT_COLS,
};
use crate::pagination::{clamped, CursorView, DEFAULT_PAGE_SIZE, MAX_PAGE_SIZE};
use crate::probe::ListQuery;
use crate::sql::{escaped, quoted_list};
use crate::table::{has_columns, Batch, FromRow};
use crate::text::{csv, given_text, opt_text};
use vstd::prelude::*;

verus! {

// ---------------------------------------------------------------------------
// Filters
// ---------------------------------------------------------------------------

/// Whether a row of `dbt.nodes n` is a model that the filters ask for: in one of the
/// layers, of one of the access levels, of one of the materializations and of the owner,
/// as far as they are given. A list of materializations without any asks for all.
pub open spec fn is_asked_for(params: ModelListParams, row: Row, l: Letters) -> bool {
    &&& row.at("n.resource_type"@) == Some("model"@)
    &&& given_text(params.modeling_layer) matches Some(raw) ==> exists|i: int|
        0 <= i < pieces(raw).len() && row_in_layer(
            row,
            l,
            "n.original_file_path"@,
            #[trigger] pieces(raw)[i],
        )
    &&& given_text(params.access) matches Some(raw) ==> is_one_of(
        row.at("n.access_level"@),
        pieces(raw),
    )
    &&& given_text(params.materialization) matches Some(raw) ==> csv(raw).len() == 0 || is_one_of(
        row.at("n.materialized"@),
        csv(raw),
    )
    &&& given_text(params.owner) matches Some(owner) ==> row.at("n.group_name"@) == Some(owner)
}

/// The models that the filters ask for.
pub open spec fn asked_for(params: ModelListParams) -> spec_fn(Row, Letters) -> bool {
    |row: Row, l: Letters| is_asked_for(params, row, l)
}

spec fn layers_pred(names: Seq<Seq<char>>) -> Seq<Pred> {
    Seq::new(names.len(), |i: int| grouped(layer_pred("n.original_file_path"@, names[i])))
}

proof fn lemma_lookup_layers(name: Seq<char>)
    requires
        lookup(layers(), name) is Some,
    ensures
        name == "Staging"@ || name == "Intermediate"@ || name == "Marts"@,
        lookup(layers(), name) == Some(layer_pred("n.original_file_path"@, name).sql()),
{
    lemma_model_layers();
    let t = layers();
    reveal_with_fuel(lookup, 4);
    assert(t.skip(1)[0] == t[1]);
    assert(t.skip(1).skip(1)[0] == t[2]);
    assert(t.skip(1).skip(1).skip(1).len() == 0);
    reveal_strlit("Staging");
    reveal_strlit("Intermediate");
    reveal_strlit("Marts");
    assert("Staging"@.len() == 7 && "Intermediate"@.len() == 12 && "Marts"@.len() == 5);
}

proof fn lemma_layers_sql(names: Seq<Seq<char>>, row: Row, l: Letters)
    requires
        known_layers(names),
        names.len() > 0,
    ensures
        any_of(layers_pred(names)).is_sql(),
        layers_sql(names) == any_of(layers_pred(names)).sql(),
        any_of(layers_pred(names)).holds(row, l) <==> exists|i: int|
            0 <= i < names.len() && row_in_layer(
                row,
                l,
                "n.original_file_path"@,
                #[trigger] names[i],
            ),
{
    let column = "n.original_file_path"@;
    let ps = layers_pred(names);
    assert forall|i: int| 0 <= i < ps.len() implies (#[trigger] ps[i]).is_sql() && ps[i].sql()
        == "("@ + lookup(layers(), names[i])->0 + ")"@ && ps[i].holds(row, l) == row_in_layer(
        row,
        l,
        column,
        names[i],
    ) by {
        assert(lookup(layers(), names[i]) is Some);
        lemma_lookup_layers(names[i]);
        lemma_layer_pred_holds(column, names[i], row, l);
        assert(ps[i] == grouped(layer_pred(column, names[i])));
    }
    lemma_any_of(ps, row, l);
    assert(sqls(ps) =~= Seq::new(names.len(), |i: int| "("@ + lookup(layers(), names[i])->0 + ")"@));
    if exists|i: int| 0 <= i < ps.len() && (#[trigger] ps[i]).holds(row, l) {
        let i = choose|i: int| 0 <= i < ps.len() && (#[trigger] ps[i]).holds(row, l);
        assert(row_in_layer(row, l, column, names[i]));
    }
    if exists|i: int| 0 <= i < names.len() && row_in_layer(row, l, column, #[trigger] names[i]) {
        let i = choose|i: int|
            0 <= i < names.len() && row_in_layer(row, l, column, #[trigger] names[i]);
        assert(ps[i].holds(row, l));
    }
}

proof fn lemma_pieces_not_empty(raw: Seq<char>)
    ensures
        pieces(raw).len() > 0,
{
}

spec fn filter_pred(params: ModelListParams) -> Pred {
    let a = equals("n.resource_type"@, "model"@);
    let b = match given_text(params.modeling_layer) {
        Some(raw) => both(a, grouped(any_of(layers_pred(pieces(raw))))),
        None => a,
    };
    let c = match given_text(params.access) {
        Some(raw) => both(b, Pred::OneOf(Expr::Of("n.access_level"@), pieces(raw))),
        None => b,
    };
    let d = match given_text(params.materialization) {
        Some(raw) => if csv(raw).len() > 0 {
            both(c, Pred::OneOf(Expr::Of("n.materialized"@), csv(raw)))
        } else {
            c
        },
        None => c,
    };
    match given_text(params.owner) {
        Some(owner) => both(d, equals("n.group_name"@, owner)),
        None => d,
    }
}

#[verifier::spinoff_prover]
#[verifier::rlimit(40)]
proof fn lemma_filter_texts()
    ensures
        "WHERE n.resource_type = 'model'"@ == "WHERE "@ + equals("n.resource_type"@, "model"@).sql(),
        " AND ("@ == " AND "@ + "("@,
        " AND n.access_level IN ("@ == " AND "@ + "n.access_level"@ + " IN ("@,
        " AND n.materialized IN ("@ == " AND "@ + "n.materialized"@ + " IN ("@,
        " AND n.group_name = '"@ == " AND "@ + "n.group_name"@ + " = "@ + seq!['\''],
        ""@ == Seq::<char>::empty(),
{
    reveal_with_fuel(Pred::sql, 2);
    reveal_with_fuel(Expr::sql, 2);
    reveal_strlit("model");
    lemma_plain_literal("model"@);
    reveal_strlit("WHERE n.resource_type = 'model'");
    reveal_strlit("WHERE ");
    reveal_strlit("n.resource_type");
    reveal_strlit(" = ");
    reveal_strlit(" AND (");
    reveal_strlit(" AND ");
    reveal_strlit("(");
    reveal_strlit(" AND n.access_level IN (");
    reveal_strlit("n.access_level");
    reveal_strlit(" IN (");
    reveal_strlit(" AND n.materialized IN (");
    reveal_strlit("n.materialized");
    reveal_strlit(" AND n.group_name = '");
    reveal_strlit("n.group_name");
    reveal_strlit("");
    assert("WHERE n.resource_type = 'model'"@ =~= "WHERE "@ + ("n.resource_type"@ + " = "@ + (seq![
        '\'',
    ] + "model"@ + seq!['\''])));
}

proof fn lemma_filter_sql(params: ModelListParams)
    requires
        list_fault(params) is None,
    ensures
        model_filter(params) == "WHERE "@ + filter_pred(params).sql(),
        filter_pred(params).is_factor(),
{
    lemma_filter_texts();
    let a = equals("n.resource_type"@, "model"@);
    let ta = "WHERE n.resource_type = 'model'"@;
    let (b, tb) = match given_text(params.modeling_layer) {
        Some(raw) => (
            both(a, grouped(any_of(layers_pred(pieces(raw))))),
            ta + (" AND ("@ + layers_sql(pieces(raw)) + ")"@),
        ),
        None => (a, ta + ""@),
    };
    if let Some(raw) = given_text(params.modeling_layer) {
        lemma_pieces_not_empty(raw);
        lemma_layers_sql(pieces(raw), arbitrary(), arbitrary());
        lemma_and_group(ta, a, " AND ("@, any_of(layers_pred(pieces(raw))));
    } else {
        assert(tb =~= ta);
    }
    let (c, tc) = match given_text(params.access) {
        Some(raw) => (
            both(b, Pred::OneOf(Expr::Of("n.access_level"@), pieces(raw))),
            tb + (" AND n.access_level IN ("@ + quoted_list(pieces(raw)) + ")"@),
        ),
        None => (b, tb + ""@),
    };
    if let Some(raw) = given_text(params.access) {
        lemma_pieces_not_empty(raw);
        lemma_and_one_of(tb, b, " AND n.access_level IN ("@, "n.access_level"@, pieces(raw));
    } else {
        assert(tc =~= tb);
    }
    let materials = match given_text(params.materialization) {
        Some(raw) => csv(raw),
        None => Seq::empty(),
    };
    let (d, td) = if materials.len() > 0 {
        (
            both(c, Pred::OneOf(Expr::Of("n.materialized"@), materials)),
            tc + (" AND n.materialized IN ("@ + quoted_list(materials) + ")"@),
        )
    } else {
        (c, tc + ""@)
    };
    if materials.len() > 0 {
        lemma_and_one_of(tc, c, " AND n.materialized IN ("@, "n.materialized"@, materials);
    } else {
        assert(td =~= tc);
    }
    if let Some(owner) = given_text(params.owner) {
        lemma_and_equals(td, d, " AND n.group_name = '"@, "n.group_name"@, owner);
        assert(model_filter(params) == td + (" AND n.group_name = '"@ + escaped(owner) + "'"@));
    } else {
        assert(td + ""@ =~= td);
        assert(model_filter(params) == td + ""@);
    }
}

proof fn lemma_filter_holds(params: ModelListParams, row: Row, l: Letters)
    requires
        list_fault(params) is None,
    ensures
        filter_pred(params).holds(row, l) == is_asked_for(params, row, l),
{
    reveal_with_fuel(Pred::holds, 6);
    reveal_with_fuel(Expr::eval, 2);
    if let Some(raw) = given_text(params.modeling_layer) {
        lemma_pieces_not_empty(raw);
        lemma_layers_sql(pieces(raw), row, l);
    }
}

/// The filter of the list of models is true of exactly the models that are asked for: a
/// model in one of the layers, of one of the access levels, of one of the
/// materializations and of the owner that are given.
pub proof fn lemma_filter_is_membership(params: ModelListParams)
    requires
        list_fault(params) is None,
    ensures
        exists|sql: Seq<char>|
            model_filter(params) == "WHERE "@ + sql && #[trigger] selects(sql, asked_for(params)),
{
    let p = filter_pred(params);
    lemma_filter_sql(params);
    assert forall|row: Row, l: Letters| p.holds(row, l) == #[trigger] asked_for(params)(row, l) by {
        lemma_filter_holds(params, row, l);
    }
    assert(selects(p.sql(), asked_for(params)));
}

// ---------------------------------------------------------------------------
// Pages
// ---------------------------------------------------------------------------

/// What a row of the list shows: `owner` is the name of the model's group.
pub open spec fn model_items(with_run_results: bool, with_catalog: bool) -> Seq<Item> {
    let none = "NULL::VARCHAR"@;
    let unknown = "NULL::BIGINT"@;
    seq![
        Item::Of("n"@, "unique_id"@),
        Item::Of("n"@, "name"@),
        Item::Of("n"@, "package_name"@),
        Item::Of("n"@, "original_file_path"@),
        Item::As(layer_case(), "modeling_layer"@),
        Item::Of("n"@, "access_level"@),
        Item::Of("n"@, "contract_enforced"@),
        Item::As("n.group_name"@, "owner"@),
        if with_run_results {
            Item::As("CAST(lr.executed_at AS VARCHAR)"@, "executed_at"@)
        } else {
            Item::As(none, "executed_at"@)
        },
        Item::Of("n"@, "materialized"@),
        if with_catalog {
            Item::As(
                "CASE WHEN ct.unique_id IS NOT NULL OR rcc.row_count_stat IS NOT NULL THEN 1 ELSE 0 END"@,
                "has_catalog"@,
            )
        } else if with_run_results {
            Item::As("CASE WHEN rcc.row_count_stat IS NOT NULL THEN 1 ELSE 0 END"@, "has_catalog"@)
        } else {
            Item::As("0"@, "has_catalog"@)
        },
        if with_catalog || with_run_results {
            Item::Of("rcc"@, "row_count_stat"@)
        } else {
            Item::As(unknown, "row_count_stat"@)
        },
        if with_catalog {
            Item::Of("bc"@, "bytes_stat"@)
        } else {
            Item::As(unknown, "bytes_stat"@)
        },
        if with_catalog {
            Item::Of("lm"@, "last_modified_stat"@)
        } else {
            Item::As(none, "last_modified_stat"@)
        },
    ]
}

/// The table of the list: every node, with its last run and what the catalog has of it as
/// far as they are there.
pub open spec fn model_table(with_run_results: bool, with_catalog: bool) -> Seq<char> {
    "dbt.nodes n "@ + (if with_run_results {
        left_join("last_run"@, "lr"@, "n"@)
    } else {
        ""@
    }) + " "@ + (if with_catalog {
        left_join("cat_tables"@, "ct"@, "n"@) + " "@ + left_join("row_count_cte"@, "rcc"@, "n"@)
            + " "@ + left_join("bytes_cte"@, "bc"@, "n"@) + " "@ + left_join(
            "last_modified_cte"@,
            "lm"@,
            "n"@,
        )
    } else if with_run_results {
        left_join("row_count_cte"@, "rcc"@, "n"@)
    } else {
        ""@
    })
}

proof fn lemma_joins(with_run_results: bool, with_catalog: bool)
    ensures
        joins(with_run_results, with_catalog) == " FROM "@ + model_table(
            with_run_results,
            with_catalog,
        ) + " "@,
{
    lemma_join_texts();
    reveal_strlit(" FROM dbt.nodes n ");
    reveal_strlit(" FROM ");
    reveal_strlit("dbt.nodes n ");
    assert(" FROM dbt.nodes n "@ =~= " FROM "@ + "dbt.nodes n "@);
    assert(joins(with_run_results, with_catalog) =~= " FROM "@ + model_table(
        with_run_results,
        with_catalog,
    ) + " "@);
}

#[verifier::spinoff_prover]
#[verifier::rlimit(40)]
proof fn lemma_join_texts()
    ensures
        crate::models::LAST_RUN_JOIN@ == left_join("last_run"@, "lr"@, "n"@),
        crate::models::ROW_COUNT_JOIN@ == left_join("row_count_cte"@, "rcc"@, "n"@),
        crate::models::CATALOG_JOINS@ == left_join("cat_tables"@, "ct"@, "n"@) + " "@ + left_join(
            "row_count_cte"@,
            "rcc"@,
            "n"@,
        ) + " "@ + left_join("bytes_cte"@, "bc"@, "n"@) + " "@ + left_join(
            "last_modified_cte"@,
            "lm"@,
            "n"@,
        ),
{
    reveal_strlit("LEFT JOIN ");
    reveal_strlit(" ");
    reveal_strlit(" ON ");
    reveal_strlit(".unique_id = ");
    reveal_strlit(".unique_id");
    reveal_strlit("n");
    reveal_strlit("last_run");
    reveal_strlit("lr");
    reveal_strlit("row_count_cte");
    reveal_strlit("rcc");
    reveal_strlit("cat_tables");
    reveal_strlit("ct");
    reveal_strlit("bytes_cte");
    reveal_strlit("bc");
    reveal_strlit("last_modified_cte");
    reveal_strlit("lm");
    reveal_strlit("LEFT JOIN last_run lr ON lr.unique_id = n.unique_id");
    reveal_strlit("LEFT JOIN row_count_cte rcc ON rcc.unique_id = n.unique_id");
    reveal_strlit(
        "LEFT JOIN cat_tables ct ON ct.unique_id = n.unique_id \
     LEFT JOIN row_count_cte rcc ON rcc.unique_id = n.unique_id \
     LEFT JOIN bytes_cte bc ON bc.unique_id = n.unique_id \
     LEFT JOIN last_modified_cte lm ON lm.unique_id = n.unique_id",
    );
}

#[verifier::spinoff_prover]
#[verifier::rlimit(40)]
proof fn lemma_item_texts()
    ensures
        ROWS_HEAD@ == "SELECT "@ + ("n"@ + "."@ + "unique_id"@) + ", "@ + ("n"@ + "."@ + "name"@)
            + ", "@ + ("n"@ + "."@ + "package_name"@) + ", "@ + ("n"@ + "."@
            + "original_file_path"@) + ", "@,
        ROWS_MIDDLE@ == " AS "@ + "modeling_layer"@ + ", "@ + ("n"@ + "."@ + "access_level"@)
            + ", "@ + ("n"@ + "."@ + "contract_enforced"@) + ", "@ + ("n.group_name"@ + " AS "@
            + "owner"@) + ", "@,
        "CAST(lr.executed_at AS VARCHAR) AS executed_at"@ == "CAST(lr.executed_at AS VARCHAR)"@
            + " AS "@ + "executed_at"@,
        "NULL::VARCHAR AS executed_at"@ == "NULL::VARCHAR"@ + " AS "@ + "executed_at"@,
        ", n.materialized, "@ == ", "@ + ("n"@ + "."@ + "materialized"@) + ", "@,
{
    reveal_strlit("SELECT ");
    reveal_strlit("n");
    reveal_strlit(".");
    reveal_strlit(", ");
    reveal_strlit(" AS ");
    reveal_strlit("unique_id");
    reveal_strlit("name");
    reveal_strlit("package_name");
    reveal_strlit("original_file_path");
    reveal_strlit("modeling_layer");
    reveal_strlit("access_level");
    reveal_strlit("contract_enforced");
    reveal_strlit("n.group_name");
    reveal_strlit("owner");
    reveal_strlit("executed_at");
    reveal_strlit("materialized");
    reveal_strlit("NULL::VARCHAR");
    reveal_strlit("CAST(lr.executed_at AS VARCHAR)");
    reveal_strlit("SELECT n.unique_id, n.name, n.package_name, n.original_file_path, ");
    reveal_strlit(
        " AS modeling_layer, \
       n.access_level, n.contract_enforced, \
       n.group_name AS owner, ",
    );
    reveal_strlit("CAST(lr.executed_at AS VARCHAR) AS executed_at");
    reveal_strlit("NULL::VARCHAR AS executed_at");
    reveal_strlit(", n.materialized, ");
}

#[verifier::spinoff_prover]
#[verifier::rlimit(40)]
proof fn lemma_catalog_texts()
    ensures
        CATALOG_COLS@
            == "CASE WHEN ct.unique_id IS NOT NULL OR rcc.row_count_stat IS NOT NULL THEN 1 ELSE 0 END"@
            + " AS "@ + "has_catalog"@ + ", "@ + ("rcc"@ + "."@ + "row_count_stat"@) + ", "@ + ("bc"@
            + "."@ + "bytes_stat"@) + ", "@ + ("lm"@ + "."@ + "last_modified_stat"@),
        ROW_COUNT_COLS@ == "CASE WHEN rcc.row_count_stat IS NOT NULL THEN 1 ELSE 0 END"@ + " AS "@
            + "has_catalog"@ + ", "@ + ("rcc"@ + "."@ + "row_count_stat"@) + ", "@ + (
        "NULL::BIGINT"@ + " AS "@ + "bytes_stat"@) + ", "@ + ("NULL::VARCHAR"@ + " AS "@
            + "last_modified_stat"@),
        NO_CATALOG_COLS@ == "0"@ + " AS "@ + "has_catalog"@ + ", "@ + ("NULL::BIGINT"@ + " AS "@
            + "row_count_stat"@) + ", "@ + ("NULL::BIGINT"@ + " AS "@ + "bytes_stat"@) + ", "@ + (
        "NULL::VARCHAR"@ + " AS "@ + "last_modified_stat"@),
{
    reveal_strlit("CASE WHEN ct.unique_id IS NOT NULL OR rcc.row_count_stat IS NOT NULL THEN 1 ELSE 0 END");
    reveal_strlit("CASE WHEN rcc.row_count_stat IS NOT NULL THEN 1 ELSE 0 END");
    reveal_strlit("0");
    reveal_strlit(" AS ");
    reveal_strlit(", ");
    reveal_strlit(".");
    reveal_strlit("rcc");
    reveal_strlit("bc");
    reveal_strlit("lm");
    reveal_strlit("has_catalog");
    reveal_strlit("row_count_stat");
    reveal_strlit("bytes_stat");
    reveal_strlit("last_modified_stat");
    reveal_strlit("NULL::BIGINT");
    reveal_strlit("NULL::VARCHAR");
    reveal_strlit(
        "CASE WHEN ct.unique_id IS NOT NULL OR rcc.row_count_stat IS NOT NULL \
          THEN 1 ELSE 0 END AS has_catalog, \
     rcc.row_count_stat, \
     bc.bytes_stat, \
     lm.last_modified_stat",
    );
    reveal_strlit(
        "CASE WHEN rcc.row_count_stat IS NOT NULL THEN 1 ELSE 0 END AS has_catalog, \
     rcc.row_count_stat, \
     NULL::BIGINT AS bytes_stat, \
     NULL::VARCHAR AS last_modified_stat",
    );
    reveal_strlit(
        "0 AS has_catalog, \
     NULL::BIGINT AS row_count_stat, \
     NULL::BIGINT AS bytes_stat, \
     NULL::VARCHAR AS last_modified_stat",
    );
}

proof fn lemma_regroup_four(
    s: Seq<char>,
    c: Seq<char>,
    i0: Seq<char>,
    i1: Seq<char>,
    i2: Seq<char>,
    i3: Seq<char>,
)
    ensures
        s + i0 + c + i1 + c + i2 + c + i3 + c == s + (i0 + c + i1 + c + i2 + c + i3) + c,
{
    assert(s + i0 + c + i1 + c + i2 + c + i3 + c =~= s + (i0 + c + i1 + c + i2 + c + i3) + c);
}

proof fn lemma_regroup_eight(
    s: Seq<char>,
    c: Seq<char>,
    four: Seq<char>,
    layer: Seq<char>,
    name: Seq<char>,
    i5: Seq<char>,
    i6: Seq<char>,
    i7: Seq<char>,
)
    ensures
        s + four + c + layer + (name + c + i5 + c + i6 + c + i7 + c) == s + (four + c + (layer + name)
            + c + i5 + c + i6 + c + i7) + c,
{
    assert(s + four + c + layer + (name + c + i5 + c + i6 + c + i7 + c) =~= s + (four + c + (layer
        + name) + c + i5 + c + i6 + c + i7) + c);
}

#[verifier::spinoff_prover]
proof fn lemma_first_items(with_run_results: bool, with_catalog: bool)
    ensures
        ROWS_HEAD@ + layer_case() + ROWS_MIDDLE@ == "SELECT "@ + listed(
            model_items(with_run_results, with_catalog),
            8,
        ) + ", "@,
{
    lemma_item_texts();
    let items = model_items(with_run_results, with_catalog);
    let four = listed(items, 4);
    let name = " AS "@ + "modeling_layer"@;
    let layer = layer_case();
    let (i5, i6, i7) = (items[5].sql(), items[6].sql(), items[7].sql());
    lemma_regroup_four(
        "SELECT "@,
        ", "@,
        items[0].sql(),
        items[1].sql(),
        items[2].sql(),
        items[3].sql(),
    );
    assert(ROWS_HEAD@ == "SELECT "@ + four + ", "@) by {
        reveal_with_fuel(listed, 5);
    }
    assert(items[4].sql() == layer + name) by {
        assert(layer + " AS "@ + "modeling_layer"@ =~= layer + name);
    }
    assert(listed(items, 8) == four + ", "@ + (layer + name) + ", "@ + i5 + ", "@ + i6 + ", "@ + i7) by {
        reveal_with_fuel(listed, 5);
    }
    assert(ROWS_MIDDLE@ == name + ", "@ + i5 + ", "@ + i6 + ", "@ + i7 + ", "@);
    lemma_regroup_eight("SELECT "@, ", "@, four, layer, name, i5, i6, i7);
}

proof fn lemma_last_items(with_run_results: bool, with_catalog: bool)
    ensures
        ({
            let items = model_items(with_run_results, with_catalog);
            optional_cols(with_run_results, with_catalog) == items[8].sql() + ", "@
                + items[9].sql() + ", "@ + (items[10].sql() + ", "@ + items[11].sql() + ", "@
                + items[12].sql() + ", "@ + items[13].sql())
        }),
{
    lemma_item_texts();
    lemma_catalog_texts();
    let items = model_items(with_run_results, with_catalog);
    let tail = items[10].sql() + ", "@ + items[11].sql() + ", "@ + items[12].sql() + ", "@
        + items[13].sql();
    let cols = if with_catalog {
        CATALOG_COLS@
    } else if with_run_results {
        ROW_COUNT_COLS@
    } else {
        NO_CATALOG_COLS@
    };
    assert(cols == tail);
    assert(items[8].sql() == (if with_run_results {
        "CAST(lr.executed_at AS VARCHAR) AS executed_at"@
    } else {
        "NULL::VARCHAR AS executed_at"@
    }));
    assert(items[9].sql() == "n"@ + "."@ + "materialized"@);
    assert(optional_cols(with_run_results, with_catalog) =~= items[8].sql() + ", "@
        + items[9].sql() + ", "@ + tail);
}

proof fn lemma_regroup_items(
    s: Seq<char>,
    l: Seq<char>,
    c: Seq<char>,
    i8: Seq<char>,
    i9: Seq<char>,
    i10: Seq<char>,
    i11: Seq<char>,
    i12: Seq<char>,
    i13: Seq<char>,
)
    ensures
        s + l + c + (i8 + c + i9 + c + (i10 + c + i11 + c + i12 + c + i13)) == s + (l + c + i8 + c
            + i9 + c + i10 + c + i11 + c + i12 + c + i13),
{
    assert(s + l + c + (i8 + c + i9 + c + (i10 + c + i11 + c + i12 + c + i13)) =~= s + (l + c + i8
        + c + i9 + c + i10 + c + i11 + c + i12 + c + i13));
}

proof fn lemma_model_items(with_run_results: bool, with_catalog: bool)
    ensures
        ROWS_HEAD@ + layer_case() + ROWS_MIDDLE@ + optional_cols(with_run_results, with_catalog)
            == "SELECT "@ + listed(
            model_items(with_run_results, with_catalog),
            model_items(with_run_results, with_catalog).len(),
        ),
{
    let items = model_items(with_run_results, with_catalog);
    lemma_first_items(with_run_results, with_catalog);
    lemma_last_items(with_run_results, with_catalog);
    lemma_regroup_items(
        "SELECT "@,
        listed(items, 8),
        ", "@,
        items[8].sql(),
        items[9].sql(),
        items[10].sql(),
        items[11].sql(),
        items[12].sql(),
        items[13].sql(),
    );
    reveal_with_fuel(listed, 7);
    assert(items.len() == 14);
}

proof fn lemma_regroup_page(
    w: Seq<char>,
    h1: Seq<char>,
    h2: Seq<char>,
    h3: Seq<char>,
    h4: Seq<char>,
    j: Seq<char>,
    s: Seq<char>,
    l: Seq<char>,
    f: Seq<char>,
    t: Seq<char>,
    b: Seq<char>,
)
    requires
        h1 + h2 + h3 + h4 == s + l,
        j == f + t + b,
    ensures
        w + h1 + h2 + h3 + h4 + j == w + s + l + f + t + b,
{
    assert(w + h1 + h2 + h3 + h4 + j =~= w + (h1 + h2 + h3 + h4) + j);
    assert(w + (s + l) + (f + t + b) =~= w + s + l + f + t + b);
}

/// The count of the list is that of all models that are asked for, and a page holds, of
/// the same models, those behind the cursor, in the order of the sort: whichever views
/// are there.
pub proof fn lemma_list_is_of_the_models_asked_for(
    params: ModelListParams,
    with_run_results: bool,
    with_catalog: bool,
    first: u32,
    sort: SortView,
    cursor: Option<CursorView>,
)
    requires
        list_fault(params) is None,
    ensures
        counts(
            model_count_sql(params, with_run_results, with_catalog),
            cte_prefix(with_run_results, with_catalog),
            model_table(with_run_results, with_catalog),
            asked_for(params),
        ),
        reads_page(
            model_rows_sql(params, with_run_results, with_catalog, first, sort, cursor),
            cte_prefix(with_run_results, with_catalog),
            model_items(with_run_results, with_catalog),
            model_table(with_run_results, with_catalog),
            asked_for(params),
            order_expr(sort.sql_expr, with_run_results),
            "n.unique_id"@,
            sort.dir,
            cursor,
            first,
        ),
{
    let p = filter_pred(params);
    lemma_filter_sql(params);
    assert forall|row: Row, l: Letters| p.holds(row, l) == #[trigger] asked_for(params)(row, l) by {
        lemma_filter_holds(params, row, l);
    };
    lemma_joins(with_run_results, with_catalog);
    lemma_model_items(with_run_results, with_catalog);
    let with = cte_prefix(with_run_results, with_catalog);
    let items = model_items(with_run_results, with_catalog);
    let from = model_table(with_run_results, with_catalog);
    let expr = order_expr(sort.sql_expr, with_run_results);
    lemma_count_is_taken(with, from, p, asked_for(params));
    reveal_strlit("SELECT count(*)");
    reveal_strlit(" FROM ");
    reveal_strlit("SELECT count(*) FROM ");
    assert("SELECT count(*) FROM "@ =~= "SELECT count(*)"@ + " FROM "@);
    assert(with + "SELECT count(*)"@ + joins(with_run_results, with_catalog) =~= with
        + "SELECT count(*) FROM "@ + from + " "@);
    lemma_page_is_read(
        with,
        items,
        from,
        p,
        asked_for(params),
        expr,
        "n.unique_id"@,
        sort.dir,
        cursor,
        first,
    );
    lemma_regroup_page(
        with,
        ROWS_HEAD@,
        layer_case(),
        ROWS_MIDDLE@,
        optional_cols(with_run_results, with_catalog),
        joins(with_run_results, with_catalog),
        "SELECT "@,
        listed(items, items.len()),
        " FROM "@,
        from,
        " "@,
    );
}

/// Every query of a request for the list counts and lists the models that are asked for, by
/// what is asked for and from the cursor on, whichever views it goes without.
pub proof fn lemma_every_query_lists_the_models(
    query: ListQuery,
    params: ModelListParams,
    sort: SortView,
    with_run_results: bool,
    with_catalog: bool,
)
    requires
        is_variant(query, params, sort, with_run_results, with_catalog),
        list_fault(params) is None,
    ensures
        counts(
            query.count_sql@,
            cte_prefix(with_run_results, with_catalog),
            model_table(with_run_results, with_catalog),
            asked_for(params),
        ),
        reads_page(
            query.rows_sql@,
            cte_prefix(with_run_results, with_catalog),
            model_items(with_run_results, with_catalog),
            model_table(with_run_results, with_catalog),
            asked_for(params),
            order_expr(sort.sql_expr, with_run_results),
            "n.unique_id"@,
            sort.dir,
            asked_cursor(params.after),
            clamped(params.first, DEFAULT_PAGE_SIZE, MAX_PAGE_SIZE),
        ),
{
    lemma_list_is_of_the_models_asked_for(
        params,
        with_run_results,
        with_catalog,
        clamped(params.first, DEFAULT_PAGE_SIZE, MAX_PAGE_SIZE),
        sort,
        asked_cursor(params.after),
    );
}

// ---------------------------------------------------------------------------
// Cursors
// ---------------------------------------------------------------------------

/// Whether a row is one that a database has: null is null, and a model has a name, a unique
/// id, and a contract that is enforced or not.
pub open spec fn is_model_row(row: Row) -> bool {
    &&& row.at("NULL::VARCHAR"@) is None
    &&& row.at("n.unique_id"@) is Some
    &&& row.at("n.name"@) is Some
    &&& row.at("n.contract_enforced"@) is Some
}

#[verifier::spinoff_prover]
#[verifier::rlimit(40)]
proof fn lemma_expr_texts()
    ensures
        "n"@ + "."@ + "unique_id"@ == "n.unique_id"@,
        "n"@ + "."@ + "name"@ == "n.name"@,
        "n"@ + "."@ + "package_name"@ == "n.package_name"@,
        "n"@ + "."@ + "original_file_path"@ == "n.original_file_path"@,
        "n"@ + "."@ + "access_level"@ == "n.access_level"@,
        "n"@ + "."@ + "contract_enforced"@ == "n.contract_enforced"@,
        "n"@ + "."@ + "materialized"@ == "n.materialized"@,
{
    reveal_strlit("n");
    reveal_strlit(".");
    reveal_strlit("unique_id");
    reveal_strlit("name");
    reveal_strlit("package_name");
    reveal_strlit("original_file_path");
    reveal_strlit("access_level");
    reveal_strlit("contract_enforced");
    reveal_strlit("materialized");
    reveal_strlit("n.unique_id");
    reveal_strlit("n.name");
    reveal_strlit("n.package_name");
    reveal_strlit("n.original_file_path");
    reveal_strlit("n.access_level");
    reveal_strlit("n.contract_enforced");
    reveal_strlit("n.materialized");
}

/// A model of the list shows what its row of the database has: the owner is the name of
/// its group, the layer the one that its path is in.
pub proof fn lemma_model_shows_its_row(
    model: ModelSummary,
    batch: Batch,
    i: int,
    row: Row,
    with_run_results: bool,
    with_catalog: bool,
)
    requires
        has_columns(batch, ModelSummary::columns(), ModelSummary::flags()),
        model.is_row(batch, i),
        shows(batch, i, model_items(with_run_results, with_catalog), row),
        is_model_row(row),
    ensures
        row.at("n.unique_id"@) == Some(model.unique_id@),
        row.at("n.name"@) == Some(model.name@),
        row.at("n.package_name"@) == opt_text(model.package_name),
        row.at("n.original_file_path"@) == opt_text(model.original_file_path),
        row.at(layer_case()) == opt_text(model.modeling_layer),
        row.at("n.access_level"@) == opt_text(model.access_level),
        row.at("n.contract_enforced"@) == Some(
            if model.contract_enforced {
                "true"@
            } else {
                "false"@
            },
        ),
        row.at("n.group_name"@) == opt_text(model.owner),
        with_run_results ==> row.at("CAST(lr.executed_at AS VARCHAR)"@) == opt_text(
            model.executed_at,
        ),
        !with_run_results ==> model.executed_at is None,
        row.at("n.materialized"@) == opt_text(model.materialized),
{
    lemma_expr_texts();
    let items = model_items(with_run_results, with_catalog);
    let c = ModelSummary::columns();
    assert(batch.has_text(c[0]) && batch.has_text(c[1]) && batch.has_text(c[2]) && batch.has_text(
        c[3],
    ) && batch.has_text(c[4]) && batch.has_text(c[5]) && batch.has_text(c[6]) && batch.has_text(
        c[7],
    ) && batch.has_text(c[8]));
    assert(batch.has_bool(ModelSummary::flags()[0]));
    assert(shows_value(batch, i, items[0].name(), row.at(items[0].expr())));
    assert(shows_value(batch, i, items[1].name(), row.at(items[1].expr())));
    assert(shows_value(batch, i, items[2].name(), row.at(items[2].expr())));
    assert(shows_value(batch, i, items[3].name(), row.at(items[3].expr())));
    assert(shows_value(batch, i, items[4].name(), row.at(items[4].expr())));
    assert(shows_value(batch, i, items[5].name(), row.at(items[5].expr())));
    assert(shows_value(batch, i, items[6].name(), row.at(items[6].expr())));
    assert(shows_value(batch, i, items[7].name(), row.at(items[7].expr())));
    assert(shows_value(batch, i, items[8].name(), row.at(items[8].expr())));
    assert(shows_value(batch, i, items[9].name(), row.at(items[9].expr())));
}

/// What the list shows of the catalog is what the catalog has of the model: the row count,
/// the size and the time of the last change, each from its own view.
#[verifier::spinoff_prover]
pub proof fn lemma_model_shows_its_catalog(
    model: ModelSummary,
    info: ModelListCatalogInfo,
    batch: Batch,
    i: int,
    row: Row,
)
    requires
        model.is_row(batch, i),
        shows(batch, i, model_items(true, true), row),
        has_columns(batch, seq!["last_modified_stat"@], Seq::empty()),
        has_numbers(batch, seq!["row_count_stat"@, "bytes_stat"@]),
        model.catalog == Some(info),
    ensures
        row.at("rcc.row_count_stat"@) == number_text(info.row_count_stat),
        row.at("bc.bytes_stat"@) == number_text(info.bytes_stat),
        row.at("lm.last_modified_stat"@) == opt_text(info.last_modified_stat),
{
    let items = model_items(true, true);
    reveal_strlit(".");
    reveal_strlit("rcc");
    reveal_strlit("bc");
    reveal_strlit("lm");
    reveal_strlit("row_count_stat");
    reveal_strlit("bytes_stat");
    reveal_strlit("last_modified_stat");
    reveal_strlit("rcc.row_count_stat");
    reveal_strlit("bc.bytes_stat");
    reveal_strlit("lm.last_modified_stat");
    assert("rcc"@ + "."@ + "row_count_stat"@ =~= "rcc.row_count_stat"@);
    assert("bc"@ + "."@ + "bytes_stat"@ =~= "bc.bytes_stat"@);
    assert("lm"@ + "."@ + "last_modified_stat"@ =~= "lm.last_modified_stat"@);
    let numbers = seq!["row_count_stat"@, "bytes_stat"@];
    assert(batch.has_i64(numbers[0]) && batch.has_i64(numbers[1]));
    assert(batch.has_text(seq!["last_modified_stat"@][0]));
    assert(shows_value(batch, i, items[11].name(), row.at(items[11].expr())));
    assert(shows_value(batch, i, items[12].name(), row.at(items[12].expr())));
    assert(shows_value(batch, i, items[13].name(), row.at(items[13].expr())));
}

/// The cursor of a model holds the value that the list is sorted by: for every column that
/// the list can be sorted by, the sort value is what the expression of the `ORDER BY` is in
/// the row, so that the page behind the cursor starts with the next row.
#[verifier::spinoff_prover]
#[verifier::rlimit(40)]
pub proof fn lemma_cursor_holds_the_sort_value(
    column: Seq<char>,
    expr: Seq<char>,
    model: ModelSummary,
    batch: Batch,
    i: int,
    row: Row,
    with_run_results: bool,
    with_catalog: bool,
)
    requires
        sort_expr(column) == Some(expr),
        has_columns(batch, ModelSummary::columns(), ModelSummary::flags()),
        model.is_row(batch, i),
        shows(batch, i, model_items(with_run_results, with_catalog), row),
        is_model_row(row),
    ensures
        row.at("n.unique_id"@) matches Some(id) && model.key(column) == key_in(
            row,
            order_expr(expr, with_run_results),
            id,
        ),
{
    lemma_model_shows_its_row(model, batch, i, row, with_run_results, with_catalog);
    let table = sortable_columns();
    reveal_with_fuel(lookup, 6);
    assert(table.skip(1)[0] == table[1]);
    assert(table.skip(1).skip(1)[0] == table[2]);
    assert(table.skip(1).skip(1).skip(1)[0] == table[3]);
    assert(table.skip(1).skip(1).skip(1).skip(1)[0] == table[4]);
    assert(table.skip(1).skip(1).skip(1).skip(1).skip(1).len() == 0);
    reveal_strlit("name");
    reveal_strlit("modeling_layer");
    reveal_strlit("access_level");
    reveal_strlit("contract_enforced");
    reveal_strlit("owner");
    reveal_strlit("executed_at");
    assert("name"@.len() == 4 && "modeling_layer"@.len() == 14 && "access_level"@.len() == 12
        && "contract_enforced"@.len() == 17 && "owner"@.len() == 5 && "executed_at"@.len() == 11);
    reveal_strlit("CAST(lr.executed_at AS VARCHAR)");
    reveal_strlit("n.name");
    reveal_strlit("n.access_level");
    reveal_strlit("n.contract_enforced");
    reveal_strlit("n.group_name");
    assert(EXECUTED_AT@.len() == 31 && "n.name"@.len() == 6 && "n.access_level"@.len() == 14
        && "n.contract_enforced"@.len() == 19 && "n.group_name"@.len() == 12);
    assert(layer_case() != EXECUTED_AT@) by {
        lemma_layer_case_starts();
        assert(EXECUTED_AT@[2] == 'S' && EXECUTED_AT@[3] == 'T');
    }
}

proof fn lemma_layer_case_starts()
    ensures
        layer_case().len() > 4,
        layer_case()[2] == 'S',
        layer_case()[3] == 'E',
{
    let t = layers();
    reveal_with_fuel(layer_branches, 4);
    assert(t.drop_last().drop_last().drop_last().len() == 0);
    reveal_strlit("CASE");
    reveal_strlit(" WHEN ");
    assert("CASE"@.len() == 4 && "CASE"@[2] == 'S' && "CASE"@[3] == 'E');
    let a = layer_branches(t.drop_last().drop_last());
    assert(a.len() >= 4 && a[2] == 'S' && a[3] == 'E');
    let b = layer_branches(t.drop_last());
    assert(b.len() >= 4 && b[2] == 'S' && b[3] == 'E');
    let c = layer_branches(t);
    assert(" WHEN "@.len() == 6);
    assert(c.len() > 4 && c[2] == 'S' && c[3] == 'E');
}

/// The layer that a model is shown with is the first that its path is in.
#[verifier::spinoff_prover]
#[verifier::rlimit(40)]
pub proof fn lemma_shown_layer_is_that_of_the_path()
    ensures
        has_value(
            layer_case(),
            |row: Row, l: Letters|
                {
                    let column = "n.original_file_path"@;
                    if row_in_layer(row, l, column, "Staging"@) {
                        Some("Staging"@)
                    } else if row_in_layer(row, l, column, "Intermediate"@) {
                        Some("Intermediate"@)
                    } else if row_in_layer(row, l, column, "Marts"@) {
                        Some("Marts"@)
                    } else {
                        None
                    }
                },
        ),
{
    let column = "n.original_file_path"@;
    let bs = seq![
        (layer_pred(column, "Staging"@), "Staging"@),
        (layer_pred(column, "Intermediate"@), "Intermediate"@),
        (layer_pred(column, "Marts"@), "Marts"@),
    ];
    let t = layers();
    lemma_model_layers();
    reveal_with_fuel(layer_branches, 4);
    reveal_with_fuel(branches_sql, 4);
    reveal_with_fuel(case_value, 4);
    reveal_strlit("Staging");
    reveal_strlit("Intermediate");
    reveal_strlit("Marts");
    lemma_plain_literal("Staging"@);
    lemma_plain_literal("Intermediate"@);
    lemma_plain_literal("Marts"@);
    reveal_strlit("'");
    reveal_strlit(" THEN '");
    reveal_strlit(" THEN ");
    reveal_strlit(" ELSE NULL END");
    reveal_strlit(" ELSE ");
    reveal_strlit("NULL");
    reveal_strlit(" END");
    assert("'"@ =~= seq!['\'']);
    assert(" THEN '"@ =~= " THEN "@ + seq!['\'']);
    assert(" ELSE NULL END"@ =~= " ELSE "@ + "NULL"@ + " END"@);
    let a = t.drop_last().drop_last();
    assert(a.drop_last().len() == 0);
    assert(layer_branches(a) =~= branches_sql(bs, 1));
    assert(layer_branches(t.drop_last()) =~= branches_sql(bs, 2));
    assert(layer_branches(t) =~= branches_sql(bs, 3));
    assert(layer_case() =~= case_sql(bs, None));
    assert forall|i: int| 0 <= i < bs.len() implies (#[trigger] bs[i]).0.is_sql() by {
        lemma_layer_pred_holds(column, bs[i].1, arbitrary(), arbitrary());
    }
    let value = |row: Row, l: Letters|
        {
            let column = "n.original_file_path"@;
            if row_in_layer(row, l, column, "Staging"@) {
                Some("Staging"@)
            } else if row_in_layer(row, l, column, "Intermediate"@) {
                Some("Intermediate"@)
            } else if row_in_layer(row, l, column, "Marts"@) {
                Some("Marts"@)
            } else {
                None
            }
        };
    assert forall|row: Row, l: Letters| case_value(bs, None, 0, row, l) == #[trigger] value(
        row,
        l,
    ) by {
        lemma_layer_pred_holds(column, "Staging"@, row, l);
        lemma_layer_pred_holds(column, "Intermediate"@, row, l);
        lemma_layer_pred_holds(column, "Marts"@, row, l);
    }
}

} // verus!
