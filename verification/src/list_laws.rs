//! What the queries of the lists that are sorted by name mean.
use crate::exposures::{
    exposure_count_sql, exposure_filter, exposure_rows_sql, is_exposure_row, ExposureSummary,
    EXPOSURE_COUNT_HEAD, EXPOSURE_ROWS_HEAD,
};
use crate::groups::{
    group_count_sql, group_rows_sql, GroupListParams, GroupSummary, GROUP_COUNT, GROUP_ROWS_HEAD,
};
use crate::json::parsed_or_null;
use crate::listing::Listed;
use crate::macros::{
    macro_count_sql, macro_filter, macro_rows_sql, MacroListParams, MacroSummary, MACRO_COUNT_HEAD,
    MACRO_ROWS_HEAD,
};
use crate::meaning::{
    all_rows, both, counts, counts_all, edge_ids, equals, first_of, has_lists, has_numbers,
    items_of, key_in, lemma_and_equals, lemma_count_is_taken, lemma_page_is_read, lemma_table_names,
    listed, reads_page, shows, shows_list, shows_value, starts_with_type, table_of, typed_by_ids,
    Expr, Item, Letters, Pred, Row,
};
use crate::metrics::{
    metric_count_sql, metric_rows_sql, MetricListParams, MetricSummary, METRIC_COUNT_HEAD,
    METRIC_ROWS_HEAD,
};
use crate::pagination::{CursorView, SortDir};
use crate::saved_queries::{
    saved_query_count_sql, saved_query_rows_sql, SavedQueryListParams, SavedQuerySummary,
    SAVED_QUERY_COUNT_HEAD, SAVED_QUERY_ROWS_HEAD,
};
use crate::sql::escaped;
use crate::table::{has_columns, Batch, FromRow};
use crate::text::{decimal, given_text, opt_text, split_at_first, texts};
use crate::text_laws::lemma_cut_at_the_first;
use vstd::prelude::*;

verus! {

// ---------------------------------------------------------------------------
// Exposures
// ---------------------------------------------------------------------------

/// What an exposure of the list is shown with.
pub open spec fn exposure_items() -> Seq<Item> {
    seq![
        Item::Of("e"@, "unique_id"@),
        Item::Of("e"@, "name"@),
        Item::Of("e"@, "exposure_type"@),
        Item::Of("e"@, "maturity"@),
        Item::Of("e"@, "owner_name"@),
        Item::Of("e"@, "owner_email"@),
        Item::Of("e"@, "tags"@),
        Item::Of("e"@, "created_at"@),
        Item::As("list_slice(e.depends_on_nodes, 1, 500)"@, "depends_on_nodes_capped"@),
        Item::As("len(e.depends_on_nodes) > 500"@, "depends_on_truncated"@),
    ]
}

#[verifier::spinoff_prover]
#[verifier::rlimit(40)]
proof fn lemma_exposure_items_text()
    ensures
        listed(exposure_items(), 10) == "e.unique_id, e.name, e.exposure_type, e.maturity, e.owner_name, e.owner_email, e.tags, e.created_at, list_slice(e.depends_on_nodes, 1, 500) AS depends_on_nodes_capped, len(e.depends_on_nodes) > 500 AS depends_on_truncated"@,
{
    reveal_with_fuel(listed, 6);
    reveal_strlit(", ");
    reveal_strlit(".");
    reveal_strlit(" AS ");
    reveal_strlit("e");
    reveal_strlit("unique_id");
    reveal_strlit("name");
    reveal_strlit("exposure_type");
    reveal_strlit("maturity");
    reveal_strlit("owner_name");
    reveal_strlit("owner_email");
    reveal_strlit("tags");
    reveal_strlit("created_at");
    reveal_strlit("list_slice(e.depends_on_nodes, 1, 500)");
    reveal_strlit("depends_on_nodes_capped");
    reveal_strlit("len(e.depends_on_nodes) > 500");
    reveal_strlit("depends_on_truncated");
    reveal_strlit("e.unique_id, e.name, e.exposure_type, e.maturity, e.owner_name");
    reveal_strlit("e.unique_id, e.name, e.exposure_type, e.maturity, e.owner_name, e.owner_email, e.tags, e.created_at, list_slice(e.depends_on_nodes, 1, 500) AS depends_on_nodes_capped, len(e.depends_on_nodes) > 500 AS depends_on_truncated");
    let items = exposure_items();
    assert(listed(items, 5) =~= "e.unique_id, e.name, e.exposure_type, e.maturity, e.owner_name"@);
    assert(listed(items, 10) =~= "e.unique_id, e.name, e.exposure_type, e.maturity, e.owner_name, e.owner_email, e.tags, e.created_at, list_slice(e.depends_on_nodes, 1, 500) AS depends_on_nodes_capped, len(e.depends_on_nodes) > 500 AS depends_on_truncated"@);
}

#[verifier::spinoff_prover]
#[verifier::rlimit(40)]
proof fn lemma_exposure_rows_head_head()
    ensures
        EXPOSURE_ROWS_HEAD@ == "SELECT "@ + listed(exposure_items(), exposure_items().len()) + " FROM "@ + "dbt.exposures e"@ + " "@,
{
    lemma_exposure_items_text();
    reveal_strlit("SELECT ");
    reveal_strlit(" FROM ");
    reveal_strlit("e.unique_id, e.name, e.exposure_type, e.maturity, e.owner_name, e.owner_email, e.tags, e.created_at, list_slice(e.depends_on_nodes, 1, 500) AS depends_on_nodes_capped, len(e.depends_on_nodes) > 500 AS depends_on_truncated");
    reveal_strlit("dbt.exposures e");
    reveal_strlit(" ");
    reveal_strlit(
        "SELECT e.unique_id, e.name, e.exposure_type, e.maturity, \
     e.owner_name, e.owner_email, e.tags, e.created_at, \
     list_slice(e.depends_on_nodes, 1, 500) AS depends_on_nodes_capped, \
     len(e.depends_on_nodes) > 500 AS depends_on_truncated \
     FROM dbt.exposures e ",
    );
    assert(EXPOSURE_ROWS_HEAD@ =~= "SELECT "@ + "e.unique_id, e.name, e.exposure_type, e.maturity, e.owner_name, e.owner_email, e.tags, e.created_at, list_slice(e.depends_on_nodes, 1, 500) AS depends_on_nodes_capped, len(e.depends_on_nodes) > 500 AS depends_on_truncated"@ + " FROM "@ + "dbt.exposures e"@ + " "@);
}

/// The exposures of an owner; all of them where no owner is asked for.
pub open spec fn owned_by(owner: Option<Seq<char>>) -> spec_fn(Row, Letters) -> bool {
    |row: Row, l: Letters| owner is Some ==> row.at("e.owner_name"@) == owner
}

/// Whether two queries are those of the list: the count is that of all exposures of the owner that is asked for, and the
/// page holds, of the same, those behind the cursor, in the order of their names.
pub open spec fn lists_exposure(
    count_sql: Seq<char>,
    rows_sql: Seq<char>,
    owner: Option<Seq<char>>,
    first: u32,
    cursor: Option<CursorView>,
) -> bool {
    &&& counts(count_sql, Seq::empty(), table_of("exposure"@) + " e"@, owned_by(owner))
    &&& reads_page(
        rows_sql,
        Seq::empty(),
        exposure_items(),
        table_of("exposure"@) + " e"@,
        owned_by(owner),
        "e.name"@,
        "e.unique_id"@,
        SortDir::Asc,
        cursor,
        first,
    )
}

/// The list holds all exposures of the owner that is asked for, in the order of their names.
#[verifier::spinoff_prover]
#[verifier::rlimit(40)]
pub proof fn lemma_exposure_list(owner: Option<Seq<char>>, first: u32, cursor: Option<CursorView>)
    ensures
        lists_exposure(exposure_count_sql(owner), exposure_rows_sql(owner, first, cursor), owner, first, cursor),
{
    lemma_table_names();
    lemma_exposure_rows_head_head();
    reveal_strlit("WHERE ");
    reveal_strlit("1=1");
    reveal_strlit("WHERE 1=1");
    reveal_strlit("dbt.exposures e");
    reveal_strlit(" e");
    reveal_strlit("dbt.exposures");
    reveal_strlit(" ");
    reveal_strlit("SELECT count(*) FROM ");
    reveal_strlit("SELECT count(*) FROM dbt.exposures e ");
    reveal_with_fuel(Pred::sql, 3);
    reveal_with_fuel(Pred::is_sql, 3);
    reveal_with_fuel(Pred::holds, 3);
    reveal_with_fuel(Expr::sql, 2);
    reveal_with_fuel(Expr::eval, 2);
    assert("WHERE 1=1"@ =~= "WHERE "@ + "1=1"@);
    let from = table_of("exposure"@) + " e"@;
    assert(from =~= "dbt.exposures e"@);
    let p = match owner {
        Some(owner) => both(Pred::Always, equals("e.owner_name"@, owner)),
        None => Pred::Always,
    };
    match owner {
        Some(owner) => {
            reveal_strlit(" AND e.owner_name = '");
            reveal_strlit(" AND ");
            reveal_strlit("e.owner_name");
            reveal_strlit(" = ");
            assert(" AND e.owner_name = '"@ =~= " AND "@ + "e.owner_name"@ + " = "@ + seq!['\'']);
            lemma_and_equals("WHERE 1=1"@, Pred::Always, " AND e.owner_name = '"@, "e.owner_name"@, owner);
            assert("WHERE 1=1"@ + (" AND e.owner_name = '"@ + escaped(owner) + "'"@)
                =~= exposure_filter(Some(owner)));
        },
        None => {},
    }
    assert(p.is_factor());
    assert(exposure_filter(owner) == "WHERE "@ + p.sql());
    assert forall|row: Row, l: Letters| p.holds(row, l) == #[trigger] owned_by(owner)(row, l) by {}
    lemma_count_is_taken(Seq::empty(), from, p, owned_by(owner));
    assert(EXPOSURE_COUNT_HEAD@ =~= Seq::<char>::empty() + "SELECT count(*) FROM "@ + from + " "@);
    lemma_page_is_read(
        Seq::empty(),
        exposure_items(),
        from,
        p,
        owned_by(owner),
        "e.name"@,
        "e.unique_id"@,
        SortDir::Asc,
        cursor,
        first,
    );
    let text = listed(exposure_items(), exposure_items().len());
    assert(Seq::<char>::empty() + "SELECT "@ + text + " FROM "@ + from + " "@ =~= EXPOSURE_ROWS_HEAD@);
}

/// An exposure of the list shows what its row of the database has, and its cursor holds
/// the name that the list is sorted by.
#[verifier::spinoff_prover]
#[verifier::rlimit(40)]
pub proof fn lemma_exposure_shows_its_row(r: ExposureSummary, batch: Batch, i: int, row: Row)
    requires
        is_exposure_row(r, batch, i),
        shows(batch, i, exposure_items(), row),
        has_columns(batch, seq!["unique_id"@, "name"@, "exposure_type"@, "maturity"@, "owner_name"@, "owner_email"@], seq!["depends_on_truncated"@]),
        has_lists(batch, seq!["tags"@, "depends_on_nodes_capped"@]),
        row.at("e.unique_id"@) is Some,
        row.at("e.name"@) is Some,
    ensures
        row.at("e.unique_id"@) == Some(r.unique_id@),
        row.at("e.name"@) == Some(r.name@),
        row.at("e.exposure_type"@) == opt_text(r.exposure_type),
        row.at("e.maturity"@) == opt_text(r.maturity),
        row.at("e.owner_name"@) == opt_text(r.owner_name),
        row.at("e.owner_email"@) == opt_text(r.owner_email),
        texts(r.tags@) == items_of(row.list("e.tags"@)),
        edge_ids(r.depends_on@) == items_of(row.list("list_slice(e.depends_on_nodes, 1, 500)"@)),
        typed_by_ids(r.depends_on@, false),
        r.depends_on_truncated == (row.at("len(e.depends_on_nodes) > 500"@) == Some("true"@)),
        forall|column: Seq<char>| row.at("e.unique_id"@) matches Some(id) && #[trigger] r.key(column) == key_in(row, "e.name"@, id),
{
    let items = exposure_items();
    reveal_strlit(".");
    reveal_strlit("e");
    reveal_strlit("unique_id");
    reveal_strlit("e.unique_id");
    reveal_strlit("name");
    reveal_strlit("e.name");
    reveal_strlit("exposure_type");
    reveal_strlit("e.exposure_type");
    reveal_strlit("maturity");
    reveal_strlit("e.maturity");
    reveal_strlit("owner_name");
    reveal_strlit("e.owner_name");
    reveal_strlit("owner_email");
    reveal_strlit("e.owner_email");
    reveal_strlit("tags");
    reveal_strlit("e.tags");
    assert("e"@ + "."@ + "unique_id"@ =~= "e.unique_id"@);
    assert("e"@ + "."@ + "name"@ =~= "e.name"@);
    assert("e"@ + "."@ + "exposure_type"@ =~= "e.exposure_type"@);
    assert("e"@ + "."@ + "maturity"@ =~= "e.maturity"@);
    assert("e"@ + "."@ + "owner_name"@ =~= "e.owner_name"@);
    assert("e"@ + "."@ + "owner_email"@ =~= "e.owner_email"@);
    assert("e"@ + "."@ + "tags"@ =~= "e.tags"@);
    let texts_of = seq!["unique_id"@, "name"@, "exposure_type"@, "maturity"@, "owner_name"@, "owner_email"@];
    assert(batch.has_text(texts_of[0]));
    assert(batch.has_text(texts_of[1]));
    assert(batch.has_text(texts_of[2]));
    assert(batch.has_text(texts_of[3]));
    assert(batch.has_text(texts_of[4]));
    assert(batch.has_text(texts_of[5]));
    let lists_of = seq!["tags"@, "depends_on_nodes_capped"@];
    assert(batch.column(lists_of[0]) is Some);
    assert(batch.column(lists_of[1]) is Some);
    let flags_of = seq!["depends_on_truncated"@];
    assert(batch.has_bool(flags_of[0]));
    assert(shows_value(batch, i, items[0].name(), row.at(items[0].expr())));
    assert(shows_value(batch, i, items[1].name(), row.at(items[1].expr())));
    assert(shows_value(batch, i, items[2].name(), row.at(items[2].expr())));
    assert(shows_value(batch, i, items[3].name(), row.at(items[3].expr())));
    assert(shows_value(batch, i, items[4].name(), row.at(items[4].expr())));
    assert(shows_value(batch, i, items[5].name(), row.at(items[5].expr())));
    assert(shows_list(batch, i, items[6].name(), row.list(items[6].expr())));
    assert(shows_list(batch, i, items[8].name(), row.list(items[8].expr())));
    assert(shows_value(batch, i, items[9].name(), row.at(items[9].expr())));
    reveal_strlit("true");
    reveal_strlit("false");
    assert("true"@.len() != "false"@.len());
    assert forall|k: int| 0 <= k < r.depends_on@.len() implies starts_with_type(
        (#[trigger] r.depends_on@[k]).unique_id@,
        r.depends_on@[k].edge_type@,
        false,
    ) by {
        let id = r.depends_on@[k].unique_id@;
        lemma_cut_at_the_first(id, '.');
        if let Some((before, after)) = split_at_first(id, '.') {
            assert(id =~= before.push('.') + after);
            assert(id[before.len() as int] == '.');
            assert(before =~= id.take(before.len() as int));
        }
    }
}

// ---------------------------------------------------------------------------
// Macros
// ---------------------------------------------------------------------------

/// What a macro of the list is shown with.
pub open spec fn macro_items() -> Seq<Item> {
    seq![
        Item::Of("m"@, "unique_id"@),
        Item::Of("m"@, "name"@),
        Item::Of("m"@, "package_name"@),
        Item::Of("m"@, "description"@),
        Item::Of("m"@, "arguments"@),
    ]
}

#[verifier::spinoff_prover]
#[verifier::rlimit(40)]
proof fn lemma_macro_items_text()
    ensures
        listed(macro_items(), 5) == "m.unique_id, m.name, m.package_name, m.description, m.arguments"@,
{
    reveal_with_fuel(listed, 6);
    reveal_strlit(", ");
    reveal_strlit(".");
    reveal_strlit("m");
    reveal_strlit("unique_id");
    reveal_strlit("name");
    reveal_strlit("package_name");
    reveal_strlit("description");
    reveal_strlit("arguments");
    reveal_strlit("m.unique_id, m.name, m.package_name, m.description, m.arguments");
    let items = macro_items();
    assert(listed(items, 5) =~= "m.unique_id, m.name, m.package_name, m.description, m.arguments"@);
}

#[verifier::spinoff_prover]
#[verifier::rlimit(40)]
proof fn lemma_macro_rows_head_head()
    ensures
        MACRO_ROWS_HEAD@ == "SELECT "@ + listed(macro_items(), macro_items().len()) + " FROM "@ + "dbt.macros m"@ + " "@,
{
    lemma_macro_items_text();
    reveal_strlit("SELECT ");
    reveal_strlit(" FROM ");
    reveal_strlit("m.unique_id, m.name, m.package_name, m.description, m.arguments");
    reveal_strlit("dbt.macros m");
    reveal_strlit(" ");
    reveal_strlit(
        "SELECT m.unique_id, m.name, m.package_name, m.description, m.arguments \
     FROM dbt.macros m ",
    );
    assert(MACRO_ROWS_HEAD@ =~= "SELECT "@ + "m.unique_id, m.name, m.package_name, m.description, m.arguments"@ + " FROM "@ + "dbt.macros m"@ + " "@);
}

/// The macros of a package; all of them where no package is asked for.
pub open spec fn in_package(params: MacroListParams) -> spec_fn(Row, Letters) -> bool {
    |row: Row, l: Letters|
        given_text(params.package) is Some ==> row.at("package_name"@) == given_text(params.package)
}

/// Whether two queries are those of the list: the count is that of all macros of the package that is asked for, and the
/// page holds, of the same, those behind the cursor, in the order of their names.
pub open spec fn lists_macro(
    count_sql: Seq<char>,
    rows_sql: Seq<char>,
    params: MacroListParams,
    first: u32, dir: SortDir,
    cursor: Option<CursorView>,
) -> bool {
    &&& counts(count_sql, Seq::empty(), table_of("macro"@) + " m"@, in_package(params))
    &&& reads_page(
        rows_sql,
        Seq::empty(),
        macro_items(),
        table_of("macro"@) + " m"@,
        in_package(params),
        "m.name"@,
        "m.unique_id"@,
        dir,
        cursor,
        first,
    )
}

/// The list holds all macros of the package that is asked for, in the order of their names.
#[verifier::spinoff_prover]
#[verifier::rlimit(40)]
pub proof fn lemma_macro_list(params: MacroListParams, first: u32, dir: SortDir, cursor: Option<CursorView>)
    ensures
        lists_macro(macro_count_sql(params), macro_rows_sql(params, first, dir, cursor), params, first, dir, cursor),
{
    lemma_table_names();
    lemma_macro_rows_head_head();
    reveal_strlit("WHERE ");
    reveal_strlit("1=1");
    reveal_strlit("WHERE 1=1");
    reveal_strlit("dbt.macros m");
    reveal_strlit(" m");
    reveal_strlit("dbt.macros");
    reveal_strlit(" ");
    reveal_strlit("SELECT count(*) FROM ");
    reveal_strlit("SELECT count(*) FROM dbt.macros m ");
    reveal_with_fuel(Pred::sql, 3);
    reveal_with_fuel(Pred::is_sql, 3);
    reveal_with_fuel(Pred::holds, 3);
    reveal_with_fuel(Expr::sql, 2);
    reveal_with_fuel(Expr::eval, 2);
    assert("WHERE 1=1"@ =~= "WHERE "@ + "1=1"@);
    let from = table_of("macro"@) + " m"@;
    assert(from =~= "dbt.macros m"@);
    let p = match given_text(params.package) {
        Some(package) => both(Pred::Always, equals("package_name"@, package)),
        None => Pred::Always,
    };
    match given_text(params.package) {
        Some(package) => {
            reveal_strlit(" AND package_name = '");
            reveal_strlit(" AND ");
            reveal_strlit("package_name");
            reveal_strlit(" = ");
            assert(" AND package_name = '"@ =~= " AND "@ + "package_name"@ + " = "@ + seq!['\'']);
            lemma_and_equals("WHERE 1=1"@, Pred::Always, " AND package_name = '"@, "package_name"@, package);
            assert("WHERE 1=1"@ + (" AND package_name = '"@ + escaped(package) + "'"@)
                =~= macro_filter(params));
        },
        None => {},
    }
    assert(p.is_factor());
    assert(macro_filter(params) == "WHERE "@ + p.sql());
    assert forall|row: Row, l: Letters| p.holds(row, l) == #[trigger] in_package(params)(row, l) by {}
    lemma_count_is_taken(Seq::empty(), from, p, in_package(params));
    assert(MACRO_COUNT_HEAD@ =~= Seq::<char>::empty() + "SELECT count(*) FROM "@ + from + " "@);
    lemma_page_is_read(
        Seq::empty(),
        macro_items(),
        from,
        p,
        in_package(params),
        "m.name"@,
        "m.unique_id"@,
        dir,
        cursor,
        first,
    );
    let text = listed(macro_items(), macro_items().len());
    assert(Seq::<char>::empty() + "SELECT "@ + text + " FROM "@ + from + " "@ =~= MACRO_ROWS_HEAD@);
}

/// A macro of the list shows what its row of the database has, and its cursor holds
/// the name that the list is sorted by.
#[verifier::spinoff_prover]
#[verifier::rlimit(40)]
pub proof fn lemma_macro_shows_its_row(r: MacroSummary, batch: Batch, i: int, row: Row)
    requires
        r.is_row(batch, i),
        shows(batch, i, macro_items(), row),
        has_columns(batch, seq!["unique_id"@, "name"@, "package_name"@, "description"@, "arguments"@], Seq::empty()),
        row.at("m.unique_id"@) is Some,
        row.at("m.name"@) is Some,
    ensures
        row.at("m.unique_id"@) == Some(r.unique_id@),
        row.at("m.name"@) == Some(r.name@),
        row.at("m.package_name"@) == opt_text(r.package_name),
        row.at("m.description"@) == opt_text(r.description),
        r.arguments@ == parsed_or_null(row.at("m.arguments"@)),
        forall|column: Seq<char>| row.at("m.unique_id"@) matches Some(id) && #[trigger] r.key(column) == key_in(row, "m.name"@, id),
{
    let items = macro_items();
    reveal_strlit(".");
    reveal_strlit("m");
    reveal_strlit("unique_id");
    reveal_strlit("m.unique_id");
    reveal_strlit("name");
    reveal_strlit("m.name");
    reveal_strlit("package_name");
    reveal_strlit("m.package_name");
    reveal_strlit("description");
    reveal_strlit("m.description");
    reveal_strlit("arguments");
    reveal_strlit("m.arguments");
    assert("m"@ + "."@ + "unique_id"@ =~= "m.unique_id"@);
    assert("m"@ + "."@ + "name"@ =~= "m.name"@);
    assert("m"@ + "."@ + "package_name"@ =~= "m.package_name"@);
    assert("m"@ + "."@ + "description"@ =~= "m.description"@);
    assert("m"@ + "."@ + "arguments"@ =~= "m.arguments"@);
    let texts_of = seq!["unique_id"@, "name"@, "package_name"@, "description"@, "arguments"@];
    assert(batch.has_text(texts_of[0]));
    assert(batch.has_text(texts_of[1]));
    assert(batch.has_text(texts_of[2]));
    assert(batch.has_text(texts_of[3]));
    assert(batch.has_text(texts_of[4]));
    assert(shows_value(batch, i, items[0].name(), row.at(items[0].expr())));
    assert(shows_value(batch, i, items[1].name(), row.at(items[1].expr())));
    assert(shows_value(batch, i, items[2].name(), row.at(items[2].expr())));
    assert(shows_value(batch, i, items[3].name(), row.at(items[3].expr())));
    assert(shows_value(batch, i, items[4].name(), row.at(items[4].expr())));
}

// ---------------------------------------------------------------------------
// Metrics
// ---------------------------------------------------------------------------

/// What a metric of the list is shown with.
pub open spec fn metric_items() -> Seq<Item> {
    seq![
        Item::Of("m"@, "unique_id"@),
        Item::Of("m"@, "name"@),
        Item::Of("m"@, "package_name"@),
        Item::Of("m"@, "group_name"@),
        Item::Of("m"@, "metric_type"@),
        Item::Of("m"@, "semantic_model_name"@),
        Item::Of("m"@, "tags"@),
        Item::Of("m"@, "description"@),
        Item::Of("m"@, "input_metric_names"@),
        Item::Of("m"@, "created_at"@),
    ]
}

#[verifier::spinoff_prover]
#[verifier::rlimit(40)]
proof fn lemma_metric_items_text()
    ensures
        listed(metric_items(), 10) == "m.unique_id, m.name, m.package_name, m.group_name, m.metric_type, m.semantic_model_name, m.tags, m.description, m.input_metric_names, m.created_at"@,
{
    reveal_with_fuel(listed, 6);
    reveal_strlit(", ");
    reveal_strlit(".");
    reveal_strlit("m");
    reveal_strlit("unique_id");
    reveal_strlit("name");
    reveal_strlit("package_name");
    reveal_strlit("group_name");
    reveal_strlit("metric_type");
    reveal_strlit("semantic_model_name");
    reveal_strlit("tags");
    reveal_strlit("description");
    reveal_strlit("input_metric_names");
    reveal_strlit("created_at");
    reveal_strlit("m.unique_id, m.name, m.package_name, m.group_name, m.metric_type");
    reveal_strlit("m.unique_id, m.name, m.package_name, m.group_name, m.metric_type, m.semantic_model_name, m.tags, m.description, m.input_metric_names, m.created_at");
    let items = metric_items();
    assert(listed(items, 5) =~= "m.unique_id, m.name, m.package_name, m.group_name, m.metric_type"@);
    assert(listed(items, 10) =~= "m.unique_id, m.name, m.package_name, m.group_name, m.metric_type, m.semantic_model_name, m.tags, m.description, m.input_metric_names, m.created_at"@);
}

#[verifier::spinoff_prover]
#[verifier::rlimit(40)]
proof fn lemma_metric_rows_head_head()
    ensures
        METRIC_ROWS_HEAD@ == "SELECT "@ + listed(metric_items(), metric_items().len()) + " FROM "@ + "dbt.metrics m"@ + " "@,
{
    lemma_metric_items_text();
    reveal_strlit("SELECT ");
    reveal_strlit(" FROM ");
    reveal_strlit("m.unique_id, m.name, m.package_name, m.group_name, m.metric_type, m.semantic_model_name, m.tags, m.description, m.input_metric_names, m.created_at");
    reveal_strlit("dbt.metrics m");
    reveal_strlit(" ");
    reveal_strlit(
        "SELECT m.unique_id, m.name, m.package_name, m.group_name, \
     m.metric_type, m.semantic_model_name, m.tags, \
     m.description, m.input_metric_names, m.created_at \
     FROM dbt.metrics m ",
    );
    assert(METRIC_ROWS_HEAD@ =~= "SELECT "@ + "m.unique_id, m.name, m.package_name, m.group_name, m.metric_type, m.semantic_model_name, m.tags, m.description, m.input_metric_names, m.created_at"@ + " FROM "@ + "dbt.metrics m"@ + " "@);
}

/// Whether two queries are those of the list: the count is that of all metrics, and the
/// page holds, of the same, those behind the cursor, in the order of their names.
pub open spec fn lists_metric(
    count_sql: Seq<char>,
    rows_sql: Seq<char>,
    params: MetricListParams,
    first: u32, dir: SortDir,
    cursor: Option<CursorView>,
) -> bool {
    &&& counts(count_sql, Seq::empty(), table_of("metric"@) + " m"@, all_rows())
    &&& reads_page(
        rows_sql,
        Seq::empty(),
        metric_items(),
        table_of("metric"@) + " m"@,
        all_rows(),
        "m.name"@,
        "m.unique_id"@,
        dir,
        cursor,
        first,
    )
}

/// The list holds all metrics, in the order of their names.
pub proof fn lemma_metric_list(params: MetricListParams, first: u32, dir: SortDir, cursor: Option<CursorView>)
    ensures
        lists_metric(metric_count_sql(params), metric_rows_sql(params, first, dir, cursor), params, first, dir, cursor),
{
    lemma_table_names();
    lemma_metric_rows_head_head();
    reveal_strlit("WHERE ");
    reveal_strlit("1=1");
    reveal_strlit("WHERE 1=1");
    reveal_strlit("dbt.metrics m");
    reveal_strlit(" m");
    reveal_strlit("dbt.metrics");
    reveal_strlit(" ");
    reveal_strlit("SELECT count(*) FROM ");
    reveal_strlit("SELECT count(*) FROM dbt.metrics m ");
    reveal_with_fuel(Pred::sql, 3);
    reveal_with_fuel(Pred::is_sql, 3);
    reveal_with_fuel(Pred::holds, 3);
    reveal_with_fuel(Expr::sql, 2);
    reveal_with_fuel(Expr::eval, 2);
    assert("WHERE 1=1"@ =~= "WHERE "@ + "1=1"@);
    let from = table_of("metric"@) + " m"@;
    assert(from =~= "dbt.metrics m"@);
    let p = Pred::Always;
    assert(p.is_factor());
    assert("WHERE 1=1"@ == "WHERE "@ + p.sql());
    assert forall|row: Row, l: Letters| p.holds(row, l) == #[trigger] all_rows()(row, l) by {}
    lemma_count_is_taken(Seq::empty(), from, p, all_rows());
    assert(METRIC_COUNT_HEAD@ =~= Seq::<char>::empty() + "SELECT count(*) FROM "@ + from + " "@);
    lemma_page_is_read(
        Seq::empty(),
        metric_items(),
        from,
        p,
        all_rows(),
        "m.name"@,
        "m.unique_id"@,
        dir,
        cursor,
        first,
    );
    let text = listed(metric_items(), metric_items().len());
    assert(Seq::<char>::empty() + "SELECT "@ + text + " FROM "@ + from + " "@ =~= METRIC_ROWS_HEAD@);
}

/// A metric of the list shows what its row of the database has, and its cursor holds
/// the name that the list is sorted by.
#[verifier::spinoff_prover]
#[verifier::rlimit(40)]
pub proof fn lemma_metric_shows_its_row(r: MetricSummary, batch: Batch, i: int, row: Row)
    requires
        r.is_row(batch, i),
        shows(batch, i, metric_items(), row),
        has_columns(batch, seq!["unique_id"@, "name"@, "package_name"@, "group_name"@, "metric_type"@, "semantic_model_name"@, "description"@], Seq::empty()),
        has_lists(batch, seq!["tags"@, "input_metric_names"@]),
        row.at("m.unique_id"@) is Some,
        row.at("m.name"@) is Some,
    ensures
        row.at("m.unique_id"@) == Some(r.unique_id@),
        row.at("m.name"@) == Some(r.name@),
        row.at("m.package_name"@) == opt_text(r.package_name),
        row.at("m.group_name"@) == opt_text(r.group_name),
        row.at("m.metric_type"@) == opt_text(r.metric_type),
        row.at("m.semantic_model_name"@) == opt_text(r.semantic_model_name),
        texts(r.tags@) == items_of(row.list("m.tags"@)),
        row.at("m.description"@) == opt_text(r.description),
        texts(r.input_metric_names@) == items_of(row.list("m.input_metric_names"@)),
        forall|column: Seq<char>| row.at("m.unique_id"@) matches Some(id) && #[trigger] r.key(column) == key_in(row, "m.name"@, id),
{
    let items = metric_items();
    reveal_strlit(".");
    reveal_strlit("m");
    reveal_strlit("unique_id");
    reveal_strlit("m.unique_id");
    reveal_strlit("name");
    reveal_strlit("m.name");
    reveal_strlit("package_name");
    reveal_strlit("m.package_name");
    reveal_strlit("group_name");
    reveal_strlit("m.group_name");
    reveal_strlit("metric_type");
    reveal_strlit("m.metric_type");
    reveal_strlit("semantic_model_name");
    reveal_strlit("m.semantic_model_name");
    reveal_strlit("description");
    reveal_strlit("m.description");
    reveal_strlit("tags");
    reveal_strlit("m.tags");
    reveal_strlit("input_metric_names");
    reveal_strlit("m.input_metric_names");
    assert("m"@ + "."@ + "unique_id"@ =~= "m.unique_id"@);
    assert("m"@ + "."@ + "name"@ =~= "m.name"@);
    assert("m"@ + "."@ + "package_name"@ =~= "m.package_name"@);
    assert("m"@ + "."@ + "group_name"@ =~= "m.group_name"@);
    assert("m"@ + "."@ + "metric_type"@ =~= "m.metric_type"@);
    assert("m"@ + "."@ + "semantic_model_name"@ =~= "m.semantic_model_name"@);
    assert("m"@ + "."@ + "description"@ =~= "m.description"@);
    assert("m"@ + "."@ + "tags"@ =~= "m.tags"@);
    assert("m"@ + "."@ + "input_metric_names"@ =~= "m.input_metric_names"@);
    let texts_of = seq!["unique_id"@, "name"@, "package_name"@, "group_name"@, "metric_type"@, "semantic_model_name"@, "description"@];
    assert(batch.has_text(texts_of[0]));
    assert(batch.has_text(texts_of[1]));
    assert(batch.has_text(texts_of[2]));
    assert(batch.has_text(texts_of[3]));
    assert(batch.has_text(texts_of[4]));
    assert(batch.has_text(texts_of[5]));
    assert(batch.has_text(texts_of[6]));
    let lists_of = seq!["tags"@, "input_metric_names"@];
    assert(batch.column(lists_of[0]) is Some);
    assert(batch.column(lists_of[1]) is Some);
    assert(shows_value(batch, i, items[0].name(), row.at(items[0].expr())));
    assert(shows_value(batch, i, items[1].name(), row.at(items[1].expr())));
    assert(shows_value(batch, i, items[2].name(), row.at(items[2].expr())));
    assert(shows_value(batch, i, items[3].name(), row.at(items[3].expr())));
    assert(shows_value(batch, i, items[4].name(), row.at(items[4].expr())));
    assert(shows_value(batch, i, items[5].name(), row.at(items[5].expr())));
    assert(shows_value(batch, i, items[7].name(), row.at(items[7].expr())));
    assert(shows_list(batch, i, items[6].name(), row.list(items[6].expr())));
    assert(shows_list(batch, i, items[8].name(), row.list(items[8].expr())));
}

// ---------------------------------------------------------------------------
// Saved queries
// ---------------------------------------------------------------------------

/// What a saved query of the list is shown with.
pub open spec fn saved_query_items() -> Seq<Item> {
    seq![
        Item::Of("sq"@, "unique_id"@),
        Item::Of("sq"@, "name"@),
        Item::Of("sq"@, "package_name"@),
        Item::Of("sq"@, "group_name"@),
        Item::Of("sq"@, "tags"@),
        Item::Of("sq"@, "description"@),
        Item::Of("sq"@, "created_at"@),
        Item::Of("sq"@, "depends_on_nodes"@),
    ]
}

#[verifier::spinoff_prover]
#[verifier::rlimit(40)]
proof fn lemma_saved_query_items_text()
    ensures
        listed(saved_query_items(), 8) == "sq.unique_id, sq.name, sq.package_name, sq.group_name, sq.tags, sq.description, sq.created_at, sq.depends_on_nodes"@,
{
    reveal_with_fuel(listed, 6);
    reveal_strlit(", ");
    reveal_strlit(".");
    reveal_strlit("sq");
    reveal_strlit("unique_id");
    reveal_strlit("name");
    reveal_strlit("package_name");
    reveal_strlit("group_name");
    reveal_strlit("tags");
    reveal_strlit("description");
    reveal_strlit("created_at");
    reveal_strlit("depends_on_nodes");
    reveal_strlit("sq.unique_id, sq.name, sq.package_name, sq.group_name, sq.tags");
    reveal_strlit("sq.unique_id, sq.name, sq.package_name, sq.group_name, sq.tags, sq.description, sq.created_at, sq.depends_on_nodes");
    let items = saved_query_items();
    assert(listed(items, 5) =~= "sq.unique_id, sq.name, sq.package_name, sq.group_name, sq.tags"@);
    assert(listed(items, 8) =~= "sq.unique_id, sq.name, sq.package_name, sq.group_name, sq.tags, sq.description, sq.created_at, sq.depends_on_nodes"@);
}

#[verifier::spinoff_prover]
#[verifier::rlimit(40)]
proof fn lemma_saved_query_rows_head_head()
    ensures
        SAVED_QUERY_ROWS_HEAD@ == "SELECT "@ + listed(saved_query_items(), saved_query_items().len()) + " FROM "@ + "dbt.saved_queries sq"@ + " "@,
{
    lemma_saved_query_items_text();
    reveal_strlit("SELECT ");
    reveal_strlit(" FROM ");
    reveal_strlit("sq.unique_id, sq.name, sq.package_name, sq.group_name, sq.tags, sq.description, sq.created_at, sq.depends_on_nodes");
    reveal_strlit("dbt.saved_queries sq");
    reveal_strlit(" ");
    reveal_strlit(
        "SELECT sq.unique_id, sq.name, sq.package_name, sq.group_name, \
     sq.tags, sq.description, sq.created_at, sq.depends_on_nodes \
     FROM dbt.saved_queries sq ",
    );
    assert(SAVED_QUERY_ROWS_HEAD@ =~= "SELECT "@ + "sq.unique_id, sq.name, sq.package_name, sq.group_name, sq.tags, sq.description, sq.created_at, sq.depends_on_nodes"@ + " FROM "@ + "dbt.saved_queries sq"@ + " "@);
}

/// Whether two queries are those of the list: the count is that of all saved queries, and the
/// page holds, of the same, those behind the cursor, in the order of their names.
pub open spec fn lists_saved_query(
    count_sql: Seq<char>,
    rows_sql: Seq<char>,
    params: SavedQueryListParams,
    first: u32, dir: SortDir,
    cursor: Option<CursorView>,
) -> bool {
    &&& counts(count_sql, Seq::empty(), table_of("saved_query"@) + " sq"@, all_rows())
    &&& reads_page(
        rows_sql,
        Seq::empty(),
        saved_query_items(),
        table_of("saved_query"@) + " sq"@,
        all_rows(),
        "sq.name"@,
        "sq.unique_id"@,
        dir,
        cursor,
        first,
    )
}

/// The list holds all saved queries, in the order of their names.
pub proof fn lemma_saved_query_list(params: SavedQueryListParams, first: u32, dir: SortDir, cursor: Option<CursorView>)
    ensures
        lists_saved_query(saved_query_count_sql(params), saved_query_rows_sql(params, first, dir, cursor), params, first, dir, cursor),
{
    lemma_table_names();
    lemma_saved_query_rows_head_head();
    reveal_strlit("WHERE ");
    reveal_strlit("1=1");
    reveal_strlit("WHERE 1=1");
    reveal_strlit("dbt.saved_queries sq");
    reveal_strlit(" sq");
    reveal_strlit("dbt.saved_queries");
    reveal_strlit(" ");
    reveal_strlit("SELECT count(*) FROM ");
    reveal_strlit("SELECT count(*) FROM dbt.saved_queries sq ");
    reveal_with_fuel(Pred::sql, 3);
    reveal_with_fuel(Pred::is_sql, 3);
    reveal_with_fuel(Pred::holds, 3);
    reveal_with_fuel(Expr::sql, 2);
    reveal_with_fuel(Expr::eval, 2);
    assert("WHERE 1=1"@ =~= "WHERE "@ + "1=1"@);
    let from = table_of("saved_query"@) + " sq"@;
    assert(from =~= "dbt.saved_queries sq"@);
    let p = Pred::Always;
    assert(p.is_factor());
    assert("WHERE 1=1"@ == "WHERE "@ + p.sql());
    assert forall|row: Row, l: Letters| p.holds(row, l) == #[trigger] all_rows()(row, l) by {}
    lemma_count_is_taken(Seq::empty(), from, p, all_rows());
    assert(SAVED_QUERY_COUNT_HEAD@ =~= Seq::<char>::empty() + "SELECT count(*) FROM "@ + from + " "@);
    lemma_page_is_read(
        Seq::empty(),
        saved_query_items(),
        from,
        p,
        all_rows(),
        "sq.name"@,
        "sq.unique_id"@,
        dir,
        cursor,
        first,
    );
    let text = listed(saved_query_items(), saved_query_items().len());
    assert(Seq::<char>::empty() + "SELECT "@ + text + " FROM "@ + from + " "@ =~= SAVED_QUERY_ROWS_HEAD@);
}

/// A saved query of the list shows what its row of the database has, and its cursor holds
/// the name that the list is sorted by.
#[verifier::spinoff_prover]
#[verifier::rlimit(40)]
pub proof fn lemma_saved_query_shows_its_row(r: SavedQuerySummary, batch: Batch, i: int, row: Row)
    requires
        r.is_row(batch, i),
        shows(batch, i, saved_query_items(), row),
        has_columns(batch, seq!["unique_id"@, "name"@, "package_name"@, "group_name"@, "description"@], Seq::empty()),
        has_lists(batch, seq!["tags"@, "depends_on_nodes"@]),
        row.at("sq.unique_id"@) is Some,
        row.at("sq.name"@) is Some,
    ensures
        row.at("sq.unique_id"@) == Some(r.unique_id@),
        row.at("sq.name"@) == Some(r.name@),
        row.at("sq.package_name"@) == opt_text(r.package_name),
        row.at("sq.group_name"@) == opt_text(r.group_name),
        texts(r.tags@) == items_of(row.list("sq.tags"@)),
        row.at("sq.description"@) == opt_text(r.description),
        texts(r.depends_on_nodes@) == first_of(items_of(row.list("sq.depends_on_nodes"@)), 500),
        r.depends_on_nodes_truncated == (items_of(row.list("sq.depends_on_nodes"@)).len() > 500),
        forall|column: Seq<char>| row.at("sq.unique_id"@) matches Some(id) && #[trigger] r.key(column) == key_in(row, "sq.name"@, id),
{
    let items = saved_query_items();
    reveal_strlit(".");
    reveal_strlit("sq");
    reveal_strlit("unique_id");
    reveal_strlit("sq.unique_id");
    reveal_strlit("name");
    reveal_strlit("sq.name");
    reveal_strlit("package_name");
    reveal_strlit("sq.package_name");
    reveal_strlit("group_name");
    reveal_strlit("sq.group_name");
    reveal_strlit("description");
    reveal_strlit("sq.description");
    reveal_strlit("tags");
    reveal_strlit("sq.tags");
    reveal_strlit("depends_on_nodes");
    reveal_strlit("sq.depends_on_nodes");
    assert("sq"@ + "."@ + "unique_id"@ =~= "sq.unique_id"@);
    assert("sq"@ + "."@ + "name"@ =~= "sq.name"@);
    assert("sq"@ + "."@ + "package_name"@ =~= "sq.package_name"@);
    assert("sq"@ + "."@ + "group_name"@ =~= "sq.group_name"@);
    assert("sq"@ + "."@ + "description"@ =~= "sq.description"@);
    assert("sq"@ + "."@ + "tags"@ =~= "sq.tags"@);
    assert("sq"@ + "."@ + "depends_on_nodes"@ =~= "sq.depends_on_nodes"@);
    let texts_of = seq!["unique_id"@, "name"@, "package_name"@, "group_name"@, "description"@];
    assert(batch.has_text(texts_of[0]));
    assert(batch.has_text(texts_of[1]));
    assert(batch.has_text(texts_of[2]));
    assert(batch.has_text(texts_of[3]));
    assert(batch.has_text(texts_of[4]));
    let lists_of = seq!["tags"@, "depends_on_nodes"@];
    assert(batch.column(lists_of[0]) is Some);
    assert(batch.column(lists_of[1]) is Some);
    assert(shows_value(batch, i, items[0].name(), row.at(items[0].expr())));
    assert(shows_value(batch, i, items[1].name(), row.at(items[1].expr())));
    assert(shows_value(batch, i, items[2].name(), row.at(items[2].expr())));
    assert(shows_value(batch, i, items[3].name(), row.at(items[3].expr())));
    assert(shows_value(batch, i, items[5].name(), row.at(items[5].expr())));
    assert(shows_list(batch, i, items[4].name(), row.list(items[4].expr())));
    assert(shows_list(batch, i, items[7].name(), row.list(items[7].expr())));
}

// ---------------------------------------------------------------------------
// Groups
// ---------------------------------------------------------------------------

/// What a group of the list is shown with.
pub open spec fn group_items() -> Seq<Item> {
    seq![
        Item::Of("g"@, "unique_id"@),
        Item::Of("g"@, "name"@),
        Item::Of("g"@, "owner_name"@),
        Item::Of("g"@, "owner_email"@),
        Item::As("json_extract_string(g.config, '$.owner.github')"@, "owner_github"@),
        Item::As("json_extract_string(g.config, '$.owner.slack')"@, "owner_slack"@),
        Item::As("(SELECT COUNT(*) FROM dbt.nodes n WHERE n.group_name = g.name AND n.package_name = g.package_name AND n.resource_type = 'model')"@, "model_count"@),
    ]
}

#[verifier::spinoff_prover]
#[verifier::rlimit(40)]
proof fn lemma_group_items_text()
    ensures
        listed(group_items(), 7) == "g.unique_id, g.name, g.owner_name, g.owner_email, json_extract_string(g.config, '$.owner.github') AS owner_github, json_extract_string(g.config, '$.owner.slack') AS owner_slack, (SELECT COUNT(*) FROM dbt.nodes n WHERE n.group_name = g.name AND n.package_name = g.package_name AND n.resource_type = 'model') AS model_count"@,
{
    reveal_with_fuel(listed, 6);
    reveal_strlit(", ");
    reveal_strlit(".");
    reveal_strlit(" AS ");
    reveal_strlit("g");
    reveal_strlit("unique_id");
    reveal_strlit("name");
    reveal_strlit("owner_name");
    reveal_strlit("owner_email");
    reveal_strlit("json_extract_string(g.config, '$.owner.github')");
    reveal_strlit("owner_github");
    reveal_strlit("json_extract_string(g.config, '$.owner.slack')");
    reveal_strlit("owner_slack");
    reveal_strlit("(SELECT COUNT(*) FROM dbt.nodes n WHERE n.group_name = g.name AND n.package_name = g.package_name AND n.resource_type = 'model')");
    reveal_strlit("model_count");
    reveal_strlit("g.unique_id, g.name, g.owner_name, g.owner_email, json_extract_string(g.config, '$.owner.github') AS owner_github");
    reveal_strlit("g.unique_id, g.name, g.owner_name, g.owner_email, json_extract_string(g.config, '$.owner.github') AS owner_github, json_extract_string(g.config, '$.owner.slack') AS owner_slack, (SELECT COUNT(*) FROM dbt.nodes n WHERE n.group_name = g.name AND n.package_name = g.package_name AND n.resource_type = 'model') AS model_count");
    let items = group_items();
    assert(listed(items, 5) =~= "g.unique_id, g.name, g.owner_name, g.owner_email, json_extract_string(g.config, '$.owner.github') AS owner_github"@);
    assert(listed(items, 7) =~= "g.unique_id, g.name, g.owner_name, g.owner_email, json_extract_string(g.config, '$.owner.github') AS owner_github, json_extract_string(g.config, '$.owner.slack') AS owner_slack, (SELECT COUNT(*) FROM dbt.nodes n WHERE n.group_name = g.name AND n.package_name = g.package_name AND n.resource_type = 'model') AS model_count"@);
}

#[verifier::spinoff_prover]
#[verifier::rlimit(40)]
proof fn lemma_group_rows_head_head()
    ensures
        GROUP_ROWS_HEAD@ == "SELECT "@ + listed(group_items(), group_items().len()) + " FROM "@ + "dbt.groups g"@ + " "@,
{
    lemma_group_items_text();
    reveal_strlit("SELECT ");
    reveal_strlit(" FROM ");
    reveal_strlit("g.unique_id, g.name, g.owner_name, g.owner_email, json_extract_string(g.config, '$.owner.github') AS owner_github, json_extract_string(g.config, '$.owner.slack') AS owner_slack, (SELECT COUNT(*) FROM dbt.nodes n WHERE n.group_name = g.name AND n.package_name = g.package_name AND n.resource_type = 'model') AS model_count");
    reveal_strlit("dbt.groups g");
    reveal_strlit(" ");
    reveal_strlit(
        "SELECT g.unique_id, g.name, g.owner_name, g.owner_email, \
     json_extract_string(g.config, '$.owner.github') AS owner_github, \
     json_extract_string(g.config, '$.owner.slack') AS owner_slack, \
     (SELECT COUNT(*) FROM dbt.nodes n \
      WHERE n.group_name = g.name \
        AND n.package_name = g.package_name \
        AND n.resource_type = 'model') AS model_count \
     FROM dbt.groups g ",
    );
    assert(GROUP_ROWS_HEAD@ =~= "SELECT "@ + "g.unique_id, g.name, g.owner_name, g.owner_email, json_extract_string(g.config, '$.owner.github') AS owner_github, json_extract_string(g.config, '$.owner.slack') AS owner_slack, (SELECT COUNT(*) FROM dbt.nodes n WHERE n.group_name = g.name AND n.package_name = g.package_name AND n.resource_type = 'model') AS model_count"@ + " FROM "@ + "dbt.groups g"@ + " "@);
}

/// Whether two queries are those of the list: the count is that of all groups, and the
/// page holds, of the same, those behind the cursor, in the order of their names.
pub open spec fn lists_group(
    count_sql: Seq<char>,
    rows_sql: Seq<char>,
    params: GroupListParams,
    first: u32, dir: SortDir,
    cursor: Option<CursorView>,
) -> bool {
    &&& counts_all(count_sql, table_of("group"@) + " g"@)
    &&& reads_page(
        rows_sql,
        Seq::empty(),
        group_items(),
        table_of("group"@) + " g"@,
        all_rows(),
        "g.name"@,
        "g.unique_id"@,
        dir,
        cursor,
        first,
    )
}

/// The list holds all groups, in the order of their names.
pub proof fn lemma_group_list(params: GroupListParams, first: u32, dir: SortDir, cursor: Option<CursorView>)
    ensures
        lists_group(group_count_sql(params), group_rows_sql(params, first, dir, cursor), params, first, dir, cursor),
{
    lemma_table_names();
    lemma_group_rows_head_head();
    reveal_strlit("WHERE ");
    reveal_strlit("1=1");
    reveal_strlit("WHERE 1=1");
    reveal_strlit("dbt.groups g");
    reveal_strlit(" g");
    reveal_strlit("dbt.groups");
    reveal_strlit(" ");
    reveal_strlit("SELECT count(*) FROM ");
    reveal_strlit("SELECT count(*) FROM dbt.groups g");
    reveal_with_fuel(Pred::sql, 3);
    reveal_with_fuel(Pred::is_sql, 3);
    reveal_with_fuel(Pred::holds, 3);
    reveal_with_fuel(Expr::sql, 2);
    reveal_with_fuel(Expr::eval, 2);
    assert("WHERE 1=1"@ =~= "WHERE "@ + "1=1"@);
    let from = table_of("group"@) + " g"@;
    assert(from =~= "dbt.groups g"@);
    let p = Pred::Always;
    assert(p.is_factor());
    assert("WHERE 1=1"@ == "WHERE "@ + p.sql());
    assert forall|row: Row, l: Letters| p.holds(row, l) == #[trigger] all_rows()(row, l) by {}
    assert(GROUP_COUNT@ =~= "SELECT count(*) FROM "@ + from);
    lemma_page_is_read(
        Seq::empty(),
        group_items(),
        from,
        p,
        all_rows(),
        "g.name"@,
        "g.unique_id"@,
        dir,
        cursor,
        first,
    );
    let text = listed(group_items(), group_items().len());
    assert(Seq::<char>::empty() + "SELECT "@ + text + " FROM "@ + from + " "@ =~= GROUP_ROWS_HEAD@);
}

/// A group of the list shows what its row of the database has, and its cursor holds
/// the name that the list is sorted by.
#[verifier::spinoff_prover]
#[verifier::rlimit(40)]
pub proof fn lemma_group_shows_its_row(r: GroupSummary, batch: Batch, i: int, row: Row)
    requires
        r.is_row(batch, i),
        shows(batch, i, group_items(), row),
        has_columns(batch, seq!["unique_id"@, "name"@, "owner_name"@, "owner_email"@, "owner_github"@, "owner_slack"@], Seq::empty()),
        has_numbers(batch, seq!["model_count"@]),
        row.at("g.unique_id"@) is Some,
        row.at("g.name"@) is Some,
    ensures
        row.at("g.unique_id"@) == Some(r.unique_id@),
        row.at("g.name"@) == Some(r.name@),
        row.at("g.owner_name"@) == opt_text(r.owner_name),
        row.at("g.owner_email"@) == opt_text(r.owner_email),
        row.at("json_extract_string(g.config, '$.owner.github')"@) == opt_text(r.owner_github),
        row.at("json_extract_string(g.config, '$.owner.slack')"@) == opt_text(r.owner_slack),
        row.at("(SELECT COUNT(*) FROM dbt.nodes n WHERE n.group_name = g.name AND n.package_name = g.package_name AND n.resource_type = 'model')"@) is Some && batch.opt_i64("model_count"@, i).unwrap() >= 0 ==> row.at("(SELECT COUNT(*) FROM dbt.nodes n WHERE n.group_name = g.name AND n.package_name = g.package_name AND n.resource_type = 'model')"@) == Some(decimal(r.model_count as nat)),
        forall|column: Seq<char>| row.at("g.unique_id"@) matches Some(id) && #[trigger] r.key(column) == key_in(row, "g.name"@, id),
{
    let items = group_items();
    reveal_strlit(".");
    reveal_strlit("g");
    reveal_strlit("unique_id");
    reveal_strlit("g.unique_id");
    reveal_strlit("name");
    reveal_strlit("g.name");
    reveal_strlit("owner_name");
    reveal_strlit("g.owner_name");
    reveal_strlit("owner_email");
    reveal_strlit("g.owner_email");
    assert("g"@ + "."@ + "unique_id"@ =~= "g.unique_id"@);
    assert("g"@ + "."@ + "name"@ =~= "g.name"@);
    assert("g"@ + "."@ + "owner_name"@ =~= "g.owner_name"@);
    assert("g"@ + "."@ + "owner_email"@ =~= "g.owner_email"@);
    let texts_of = seq!["unique_id"@, "name"@, "owner_name"@, "owner_email"@, "owner_github"@, "owner_slack"@];
    assert(batch.has_text(texts_of[0]));
    assert(batch.has_text(texts_of[1]));
    assert(batch.has_text(texts_of[2]));
    assert(batch.has_text(texts_of[3]));
    assert(batch.has_text(texts_of[4]));
    assert(batch.has_text(texts_of[5]));
    let numbers_of = seq!["model_count"@];
    assert(batch.has_i64(numbers_of[0]));
    assert(shows_value(batch, i, items[0].name(), row.at(items[0].expr())));
    assert(shows_value(batch, i, items[1].name(), row.at(items[1].expr())));
    assert(shows_value(batch, i, items[2].name(), row.at(items[2].expr())));
    assert(shows_value(batch, i, items[3].name(), row.at(items[3].expr())));
    assert(shows_value(batch, i, items[4].name(), row.at(items[4].expr())));
    assert(shows_value(batch, i, items[5].name(), row.at(items[5].expr())));
    assert(shows_value(batch, i, items[6].name(), row.at(items[6].expr())));
}

} // verus!
