//! What the queries of the list of seeds mean.
use crate::listing::{asked_cursor, Listed};
use crate::meaning::{
    counts, equals, has_numbers, key_in, left_join, lemma_count_is_taken, lemma_page_is_read,
    lemma_plain_literal, listed, number_text, reads_page, shows, shows_value, Expr, Item, Letters,
    Pred, Row,
};
use crate::models::lookup;
use crate::pagination::{clamped, CursorView, SortDir, DEFAULT_PAGE_SIZE, MAX_PAGE_SIZE};
use crate::probe::ListQuery;
use crate::seeds::{
    asked_sort, cte_prefix, is_variant, joins, order_expr, seed_count_sql, seed_rows_sql,
    sortable_columns, SeedListParams, SeedSummary, EXECUTED_AT, ROW_COUNT, SEED_FILTER,
    SEED_ROWS_HEAD,
};
use crate::table::{has_columns, Batch, FromRow};
use crate::text::opt_text;
use vstd::prelude::*;

verus! {

/// What a seed of the list is shown with.
pub open spec fn seed_items(with_run_results: bool, with_catalog_stats: bool) -> Seq<Item> {
    seq![
        Item::Of("n"@, "unique_id"@),
        Item::Of("n"@, "name"@),
        Item::Of("n"@, "resource_type"@),
        Item::Of("n"@, "package_name"@),
        Item::Of("n"@, "description"@),
        Item::Of("n"@, "original_file_path"@),
        if with_catalog_stats {
            Item::Of("rc"@, "row_count"@)
        } else {
            Item::As("NULL::BIGINT"@, "row_count"@)
        },
        if with_run_results {
            Item::As("CAST(lr.executed_at AS VARCHAR)"@, "executed_at"@)
        } else {
            Item::As("NULL::VARCHAR"@, "executed_at"@)
        },
    ]
}

/// The table of the list: every node, with its last run and its row count as far as they
/// are there.
pub open spec fn seed_table(with_run_results: bool, with_catalog_stats: bool) -> Seq<char> {
    "dbt.nodes n "@ + (if with_run_results {
        left_join("last_run"@, "lr"@, "n"@)
    } else {
        ""@
    }) + " "@ + (if with_catalog_stats {
        left_join("row_count_cte"@, "rc"@, "n"@)
    } else {
        ""@
    })
}

/// The nodes that are seeds.
pub open spec fn are_seeds() -> spec_fn(Row, Letters) -> bool {
    |row: Row, l: Letters| row.at("n.resource_type"@) == Some("seed"@)
}

#[verifier::spinoff_prover]
proof fn lemma_seed_joins(with_run_results: bool, with_catalog_stats: bool)
    ensures
        joins(with_run_results, with_catalog_stats) == " FROM "@ + seed_table(
            with_run_results,
            with_catalog_stats,
        ) + " "@,
{
    reveal_strlit("LEFT JOIN ");
    reveal_strlit(" ");
    reveal_strlit(" ON ");
    reveal_strlit(".unique_id = ");
    reveal_strlit(".unique_id");
    reveal_strlit("n");
    reveal_strlit("last_run");
    reveal_strlit("lr");
    reveal_strlit("row_count_cte");
    reveal_strlit("rc");
    reveal_strlit("LEFT JOIN last_run lr ON lr.unique_id = n.unique_id");
    reveal_strlit("LEFT JOIN row_count_cte rc ON rc.unique_id = n.unique_id");
    reveal_strlit(" FROM dbt.nodes n ");
    reveal_strlit(" FROM ");
    reveal_strlit("dbt.nodes n ");
    assert(" FROM dbt.nodes n "@ =~= " FROM "@ + "dbt.nodes n "@);
    assert(left_join("last_run"@, "lr"@, "n"@)
        =~= "LEFT JOIN last_run lr ON lr.unique_id = n.unique_id"@);
    assert(left_join("row_count_cte"@, "rc"@, "n"@)
        =~= "LEFT JOIN row_count_cte rc ON rc.unique_id = n.unique_id"@);
    assert(joins(with_run_results, with_catalog_stats) =~= " FROM "@ + seed_table(
        with_run_results,
        with_catalog_stats,
    ) + " "@);
}

#[verifier::spinoff_prover]
#[verifier::rlimit(40)]
proof fn lemma_seed_head(with_run_results: bool, with_catalog_stats: bool)
    ensures
        SEED_ROWS_HEAD@ == "SELECT "@ + listed(
            seed_items(with_run_results, with_catalog_stats),
            6,
        ) + ", "@,
{
    let items = seed_items(with_run_results, with_catalog_stats);
    reveal_with_fuel(listed, 7);
    reveal_strlit("SELECT ");
    reveal_strlit(", ");
    reveal_strlit(".");
    reveal_strlit("n");
    reveal_strlit("unique_id");
    reveal_strlit("name");
    reveal_strlit("resource_type");
    reveal_strlit("package_name");
    reveal_strlit("description");
    reveal_strlit("original_file_path");
    reveal_strlit("n.unique_id, n.name, n.resource_type, n.package_name, n.description, n.original_file_path");
    reveal_strlit(
        "SELECT n.unique_id, n.name, n.resource_type, n.package_name, \
     n.description, n.original_file_path, ",
    );
    assert(listed(items, 6) =~= "n.unique_id, n.name, n.resource_type, n.package_name, n.description, n.original_file_path"@);
    assert(SEED_ROWS_HEAD@ =~= "SELECT "@ + "n.unique_id, n.name, n.resource_type, n.package_name, n.description, n.original_file_path"@ + ", "@);
}

proof fn lemma_regroup_seed(
    w: Seq<char>,
    s: Seq<char>,
    six: Seq<char>,
    c: Seq<char>,
    a: Seq<char>,
    b: Seq<char>,
    f: Seq<char>,
    t: Seq<char>,
    e: Seq<char>,
)
    ensures
        w + (s + six + c) + a + c + b + (f + t + e) == w + s + (six + c + a + c + b) + f + t + e,
{
    assert(w + (s + six + c) + a + c + b + (f + t + e) =~= w + s + (six + c + a + c + b) + f + t
        + e);
}

/// The count is that of all seeds, and a page holds those behind the cursor, in the order
/// of the sort: whichever views are there.
pub proof fn lemma_seed_list(
    with_run_results: bool,
    with_catalog_stats: bool,
    first: u32,
    sort: (Seq<char>, SortDir),
    cursor: Option<CursorView>,
)
    ensures
        counts(
            seed_count_sql(with_run_results, with_catalog_stats),
            cte_prefix(with_run_results, with_catalog_stats),
            seed_table(with_run_results, with_catalog_stats),
            are_seeds(),
        ),
        reads_page(
            seed_rows_sql(with_run_results, with_catalog_stats, first, sort, cursor),
            cte_prefix(with_run_results, with_catalog_stats),
            seed_items(with_run_results, with_catalog_stats),
            seed_table(with_run_results, with_catalog_stats),
            are_seeds(),
            order_expr(sort.0, with_run_results, with_catalog_stats),
            "n.unique_id"@,
            sort.1,
            cursor,
            first,
        ),
{
    let with = cte_prefix(with_run_results, with_catalog_stats);
    let items = seed_items(with_run_results, with_catalog_stats);
    let from = seed_table(with_run_results, with_catalog_stats);
    let expr = order_expr(sort.0, with_run_results, with_catalog_stats);
    let p = equals("n.resource_type"@, "seed"@);
    reveal_with_fuel(Pred::sql, 2);
    reveal_with_fuel(Pred::is_sql, 2);
    reveal_with_fuel(Pred::holds, 2);
    reveal_with_fuel(Expr::sql, 2);
    reveal_with_fuel(Expr::eval, 2);
    reveal_strlit("seed");
    reveal_strlit("WHERE ");
    reveal_strlit("WHERE n.resource_type = 'seed'");
    reveal_strlit("n.resource_type");
    reveal_strlit(" = ");
    reveal_strlit("SELECT count(*)");
    reveal_strlit(" FROM ");
    reveal_strlit("SELECT count(*) FROM ");
    lemma_plain_literal("seed"@);
    assert(p.is_factor());
    assert(SEED_FILTER@ =~= "WHERE "@ + p.sql());
    lemma_seed_joins(with_run_results, with_catalog_stats);
    lemma_count_is_taken(with, from, p, are_seeds());
    assert("SELECT count(*) FROM "@ =~= "SELECT count(*)"@ + " FROM "@);
    assert(with + "SELECT count(*)"@ + joins(with_run_results, with_catalog_stats) =~= with
        + "SELECT count(*) FROM "@ + from + " "@);
    lemma_page_is_read(
        with,
        items,
        from,
        p,
        are_seeds(),
        expr,
        "n.unique_id"@,
        sort.1,
        cursor,
        first,
    );
    lemma_seed_head(with_run_results, with_catalog_stats);
    lemma_seed_last_items(with_run_results, with_catalog_stats);
    lemma_regroup_seed(
        with,
        "SELECT "@,
        listed(items, 6),
        ", "@,
        items[6].sql(),
        items[7].sql(),
        " FROM "@,
        from,
        " "@,
    );
    assert(items.len() == 8);
    reveal_with_fuel(listed, 3);
}

#[verifier::spinoff_prover]
#[verifier::rlimit(40)]
proof fn lemma_seed_last_items(with_run_results: bool, with_catalog_stats: bool)
    ensures
        seed_items(with_run_results, with_catalog_stats)[6].sql() == (if with_catalog_stats {
            "rc.row_count"@
        } else {
            "NULL::BIGINT AS row_count"@
        }),
        seed_items(with_run_results, with_catalog_stats)[7].sql() == (if with_run_results {
            "CAST(lr.executed_at AS VARCHAR) AS executed_at"@
        } else {
            "NULL::VARCHAR AS executed_at"@
        }),
{
    reveal_strlit("rc");
    reveal_strlit(".");
    reveal_strlit("row_count");
    reveal_strlit("rc.row_count");
    reveal_strlit("NULL::BIGINT");
    reveal_strlit(" AS ");
    reveal_strlit("NULL::BIGINT AS row_count");
    reveal_strlit("CAST(lr.executed_at AS VARCHAR)");
    reveal_strlit("executed_at");
    reveal_strlit("CAST(lr.executed_at AS VARCHAR) AS executed_at");
    reveal_strlit("NULL::VARCHAR");
    reveal_strlit("NULL::VARCHAR AS executed_at");
    let items = seed_items(with_run_results, with_catalog_stats);
    assert(items[6].sql() =~= (if with_catalog_stats {
        "rc.row_count"@
    } else {
        "NULL::BIGINT AS row_count"@
    }));
    assert(items[7].sql() =~= (if with_run_results {
        "CAST(lr.executed_at AS VARCHAR) AS executed_at"@
    } else {
        "NULL::VARCHAR AS executed_at"@
    }));
}

/// Every query of a request for the list counts and lists all seeds, from the cursor on,
/// whichever views it goes without.
pub proof fn lemma_every_query_lists_the_seeds(
    query: ListQuery,
    params: SeedListParams,
    with_run_results: bool,
    with_catalog_stats: bool,
    sort: (Seq<char>, SortDir),
)
    requires
        is_variant(query, params, with_run_results, with_catalog_stats),
        asked_sort(params) == Ok::<(Seq<char>, SortDir), Seq<char>>(sort),
    ensures
        counts(
            query.count_sql@,
            cte_prefix(with_run_results, with_catalog_stats),
            seed_table(with_run_results, with_catalog_stats),
            are_seeds(),
        ),
        reads_page(
            query.rows_sql@,
            cte_prefix(with_run_results, with_catalog_stats),
            seed_items(with_run_results, with_catalog_stats),
            seed_table(with_run_results, with_catalog_stats),
            are_seeds(),
            order_expr(sort.0, with_run_results, with_catalog_stats),
            "n.unique_id"@,
            sort.1,
            asked_cursor(params.after),
            clamped(params.first, DEFAULT_PAGE_SIZE, MAX_PAGE_SIZE),
        ),
{
    lemma_seed_list(
        with_run_results,
        with_catalog_stats,
        clamped(params.first, DEFAULT_PAGE_SIZE, MAX_PAGE_SIZE),
        sort,
        asked_cursor(params.after),
    );
}

/// A seed of the list shows what its row of the database has, and its cursor holds the
/// value that the list is sorted by.
#[verifier::spinoff_prover]
#[verifier::rlimit(40)]
pub proof fn lemma_seed_shows_its_row(
    r: SeedSummary,
    batch: Batch,
    i: int,
    row: Row,
    with_run_results: bool,
    with_catalog_stats: bool,
    column: Seq<char>,
)
    requires
        r.is_row(batch, i),
        shows(batch, i, seed_items(with_run_results, with_catalog_stats), row),
        has_columns(batch, SeedSummary::columns(), Seq::empty()),
        has_numbers(batch, seq!["row_count"@]),
        row.at("n.unique_id"@) is Some,
        row.at("n.name"@) is Some,
        row.at("n.resource_type"@) is Some,
        row.at("NULL::BIGINT"@) is None,
        row.at("NULL::VARCHAR"@) is None,
    ensures
        row.at("n.unique_id"@) == Some(r.unique_id@),
        row.at("n.name"@) == Some(r.name@),
        row.at("n.resource_type"@) == Some(r.resource_type@),
        row.at("n.package_name"@) == opt_text(r.package_name),
        row.at("n.description"@) == opt_text(r.description),
        row.at("n.original_file_path"@) == opt_text(r.original_file_path),
        with_catalog_stats ==> row.at("rc.row_count"@) == number_text(r.row_count),
        with_run_results ==> row.at("CAST(lr.executed_at AS VARCHAR)"@) == opt_text(r.executed_at),
        lookup(sortable_columns(), column) matches Some(expr) ==> r.key(column) == key_in(
            row,
            order_expr(expr, with_run_results, with_catalog_stats),
            r.unique_id@,
        ),
{
    let items = seed_items(with_run_results, with_catalog_stats);
    reveal_strlit(".");
    reveal_strlit("n");
    reveal_strlit("rc");
    reveal_strlit("row_count");
    reveal_strlit("rc.row_count");
    reveal_strlit("unique_id");
    reveal_strlit("n.unique_id");
    reveal_strlit("name");
    reveal_strlit("n.name");
    reveal_strlit("resource_type");
    reveal_strlit("n.resource_type");
    reveal_strlit("package_name");
    reveal_strlit("n.package_name");
    reveal_strlit("description");
    reveal_strlit("n.description");
    reveal_strlit("original_file_path");
    reveal_strlit("n.original_file_path");
    assert("n"@ + "."@ + "unique_id"@ =~= "n.unique_id"@);
    assert("n"@ + "."@ + "name"@ =~= "n.name"@);
    assert("n"@ + "."@ + "resource_type"@ =~= "n.resource_type"@);
    assert("n"@ + "."@ + "package_name"@ =~= "n.package_name"@);
    assert("n"@ + "."@ + "description"@ =~= "n.description"@);
    assert("n"@ + "."@ + "original_file_path"@ =~= "n.original_file_path"@);
    assert("rc"@ + "."@ + "row_count"@ =~= "rc.row_count"@);
    let c = SeedSummary::columns();
    assert(batch.has_text(c[0]) && batch.has_text(c[1]) && batch.has_text(c[2]) && batch.has_text(
        c[3],
    ) && batch.has_text(c[4]) && batch.has_text(c[5]) && batch.has_text(c[6]));
    assert(batch.has_i64(seq!["row_count"@][0]));
    assert(shows_value(batch, i, items[0].name(), row.at(items[0].expr())));
    assert(shows_value(batch, i, items[1].name(), row.at(items[1].expr())));
    assert(shows_value(batch, i, items[2].name(), row.at(items[2].expr())));
    assert(shows_value(batch, i, items[3].name(), row.at(items[3].expr())));
    assert(shows_value(batch, i, items[4].name(), row.at(items[4].expr())));
    assert(shows_value(batch, i, items[5].name(), row.at(items[5].expr())));
    assert(shows_value(batch, i, items[6].name(), row.at(items[6].expr())));
    assert(shows_value(batch, i, items[7].name(), row.at(items[7].expr())));
    let table = sortable_columns();
    reveal_with_fuel(lookup, 4);
    assert(table.skip(1)[0] == table[1]);
    assert(table.skip(1).skip(1)[0] == table[2]);
    assert(table.skip(1).skip(1).skip(1).len() == 0);
    reveal_strlit("executed_at");
    reveal_strlit("CAST(lr.executed_at AS VARCHAR)");
    assert("name"@.len() == 4 && "row_count"@.len() == 9 && "executed_at"@.len() == 11);
    assert("n.name"@.len() == 6 && ROW_COUNT@.len() == 12 && EXECUTED_AT@.len() == 31);
}

} // verus!
