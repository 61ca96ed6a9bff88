//! Which resources a search goes over.
use crate::meaning::{
    is_one_of, left_join, lemma_plain_literal, lemma_quoted_list_is_literals, lemma_table_names,
    listed, literal, literals, reads, reads_all, table_of, Expr, Item, Letters, Pred, Row,
};
use crate::search::{asked_types, is_node_type, search_types};
use crate::search_sql::{
    all_types, branch_if, branches, lemma_type_names_read_back, node_type_names, nodes_branch,
    types_in, ResourceType, SearchQueryParams, EXPOSURES_BRANCH, FRESHNESS_JOIN, GROUPS_BRANCH,
    MACROS_BRANCH, METRICS_BRANCH, NODES_FROM, NODES_HEAD, NODES_TESTS, NODES_WHERE,
    RUN_RESULTS_JOIN, SAVED_QUERIES_BRANCH, SEMANTIC_MODELS_BRANCH, UNIT_TESTS_BRANCH,
};
use crate::sql::quoted_list;
use crate::text::{csv, given_text};
use vstd::prelude::*;

verus! {

/// The columns of the base table, which every branch has.
pub open spec fn base_columns() -> Seq<Seq<char>> {
    seq![
        "unique_id"@,
        "name"@,
        "resource_type"@,
        "package_name"@,
        "fqn"@,
        "tags"@,
        "description"@,
        "materialized"@,
        "access_level"@,
        "source_name"@,
        "freshness_checked"@,
        "test_type"@,
        "exposure_type"@,
        "executed_at"@,
        "original_file_path"@,
    ]
}

/// Whether a select list is one of a branch: it has the columns of the base table, in their
/// order.
pub open spec fn are_base_items(items: Seq<Item>) -> bool {
    &&& items.len() == base_columns().len()
    &&& forall|k: int| 0 <= k < items.len() ==> (#[trigger] items[k]).name() == base_columns()[k]
}

/// What the branch of the type `exposure` has in the columns of the base table.
pub open spec fn exposure_branch_items() -> Seq<Item> {
    seq![
        Item::Of("e"@, "unique_id"@),
        Item::Of("e"@, "name"@),
        Item::As(literal("exposure"@) + "::VARCHAR"@, "resource_type"@),
        Item::Of("e"@, "package_name"@),
        Item::Of("e"@, "fqn"@),
        Item::Of("e"@, "tags"@),
        Item::Of("e"@, "description"@),
        Item::As("NULL::VARCHAR"@, "materialized"@),
        Item::As("NULL::VARCHAR"@, "access_level"@),
        Item::As("NULL::VARCHAR"@, "source_name"@),
        Item::As("NULL::BOOLEAN"@, "freshness_checked"@),
        Item::As("NULL::VARCHAR"@, "test_type"@),
        Item::Of("e"@, "exposure_type"@),
        Item::As("NULL::VARCHAR"@, "executed_at"@),
        Item::As("NULL::VARCHAR"@, "original_file_path"@),
    ]
}

#[verifier::spinoff_prover]
#[verifier::rlimit(80)]
proof fn lemma_exposure_branch_items_text()
    ensures
        listed(exposure_branch_items(), 15) == "e.unique_id, e.name, 'exposure'::VARCHAR AS resource_type, e.package_name, e.fqn, e.tags, e.description, NULL::VARCHAR AS materialized, NULL::VARCHAR AS access_level, NULL::VARCHAR AS source_name, NULL::BOOLEAN AS freshness_checked, NULL::VARCHAR AS test_type, e.exposure_type, NULL::VARCHAR AS executed_at, NULL::VARCHAR AS original_file_path"@,
{
    reveal_with_fuel(listed, 6);
    reveal_strlit(", ");
    reveal_strlit(".");
    reveal_strlit(" AS ");
    reveal_strlit("e");
    reveal_strlit("unique_id");
    reveal_strlit("name");
    reveal_strlit("'exposure'::VARCHAR");
    reveal_strlit("resource_type");
    reveal_strlit("package_name");
    reveal_strlit("fqn");
    reveal_strlit("tags");
    reveal_strlit("description");
    reveal_strlit("NULL::VARCHAR");
    reveal_strlit("materialized");
    reveal_strlit("access_level");
    reveal_strlit("source_name");
    reveal_strlit("NULL::BOOLEAN");
    reveal_strlit("freshness_checked");
    reveal_strlit("test_type");
    reveal_strlit("exposure_type");
    reveal_strlit("executed_at");
    reveal_strlit("original_file_path");
    reveal_strlit("e.unique_id, e.name, 'exposure'::VARCHAR AS resource_type, e.package_name, e.fqn");
    reveal_strlit("e.unique_id, e.name, 'exposure'::VARCHAR AS resource_type, e.package_name, e.fqn, e.tags, e.description, NULL::VARCHAR AS materialized, NULL::VARCHAR AS access_level, NULL::VARCHAR AS source_name");
    reveal_strlit("e.unique_id, e.name, 'exposure'::VARCHAR AS resource_type, e.package_name, e.fqn, e.tags, e.description, NULL::VARCHAR AS materialized, NULL::VARCHAR AS access_level, NULL::VARCHAR AS source_name, NULL::BOOLEAN AS freshness_checked, NULL::VARCHAR AS test_type, e.exposure_type, NULL::VARCHAR AS executed_at, NULL::VARCHAR AS original_file_path");
    reveal_strlit("exposure");
    reveal_strlit("::VARCHAR");
    lemma_plain_literal("exposure"@);
    assert(literal("exposure"@) + "::VARCHAR"@ =~= "'exposure'::VARCHAR"@);
    let items = exposure_branch_items();
    assert(listed(items, 5) =~= "e.unique_id, e.name, 'exposure'::VARCHAR AS resource_type, e.package_name, e.fqn"@);
    assert(listed(items, 10) =~= "e.unique_id, e.name, 'exposure'::VARCHAR AS resource_type, e.package_name, e.fqn, e.tags, e.description, NULL::VARCHAR AS materialized, NULL::VARCHAR AS access_level, NULL::VARCHAR AS source_name"@);
    assert(listed(items, 15) =~= "e.unique_id, e.name, 'exposure'::VARCHAR AS resource_type, e.package_name, e.fqn, e.tags, e.description, NULL::VARCHAR AS materialized, NULL::VARCHAR AS access_level, NULL::VARCHAR AS source_name, NULL::BOOLEAN AS freshness_checked, NULL::VARCHAR AS test_type, e.exposure_type, NULL::VARCHAR AS executed_at, NULL::VARCHAR AS original_file_path"@);
}

#[verifier::spinoff_prover]
#[verifier::rlimit(40)]
proof fn lemma_exposures_branch_text()
    ensures
        EXPOSURES_BRANCH@ == "SELECT "@ + listed(exposure_branch_items(), exposure_branch_items().len()) + " FROM "@ + "dbt.exposures e"@,
{
    lemma_exposure_branch_items_text();
    reveal_strlit("SELECT ");
    reveal_strlit(" FROM ");
    reveal_strlit("e.unique_id, e.name, 'exposure'::VARCHAR AS resource_type, e.package_name, e.fqn, e.tags, e.description, NULL::VARCHAR AS materialized, NULL::VARCHAR AS access_level, NULL::VARCHAR AS source_name, NULL::BOOLEAN AS freshness_checked, NULL::VARCHAR AS test_type, e.exposure_type, NULL::VARCHAR AS executed_at, NULL::VARCHAR AS original_file_path");
    reveal_strlit("dbt.exposures e");
    reveal_strlit(
        "SELECT e.unique_id, e.name, 'exposure'::VARCHAR AS resource_type, e.package_name, \
     e.fqn, e.tags, e.description, \
     NULL::VARCHAR AS materialized, NULL::VARCHAR AS access_level, NULL::VARCHAR AS source_name, \
     NULL::BOOLEAN AS freshness_checked, \
     NULL::VARCHAR AS test_type, \
     e.exposure_type, \
     NULL::VARCHAR AS executed_at, \
     NULL::VARCHAR AS original_file_path \
     FROM dbt.exposures e",
    );
    assert(EXPOSURES_BRANCH@ =~= "SELECT "@ + "e.unique_id, e.name, 'exposure'::VARCHAR AS resource_type, e.package_name, e.fqn, e.tags, e.description, NULL::VARCHAR AS materialized, NULL::VARCHAR AS access_level, NULL::VARCHAR AS source_name, NULL::BOOLEAN AS freshness_checked, NULL::VARCHAR AS test_type, e.exposure_type, NULL::VARCHAR AS executed_at, NULL::VARCHAR AS original_file_path"@ + " FROM "@ + "dbt.exposures e"@);
}

/// What the branch of the type `macro` has in the columns of the base table.
pub open spec fn macro_branch_items() -> Seq<Item> {
    seq![
        Item::Of("m"@, "unique_id"@),
        Item::Of("m"@, "name"@),
        Item::As(literal("macro"@) + "::VARCHAR"@, "resource_type"@),
        Item::Of("m"@, "package_name"@),
        Item::As("NULL::VARCHAR[]"@, "fqn"@),
        Item::As("NULL::VARCHAR[]"@, "tags"@),
        Item::Of("m"@, "description"@),
        Item::As("NULL::VARCHAR"@, "materialized"@),
        Item::As("NULL::VARCHAR"@, "access_level"@),
        Item::As("NULL::VARCHAR"@, "source_name"@),
        Item::As("NULL::BOOLEAN"@, "freshness_checked"@),
        Item::As("NULL::VARCHAR"@, "test_type"@),
        Item::As("NULL::VARCHAR"@, "exposure_type"@),
        Item::As("NULL::VARCHAR"@, "executed_at"@),
        Item::As("NULL::VARCHAR"@, "original_file_path"@),
    ]
}

#[verifier::spinoff_prover]
#[verifier::rlimit(80)]
proof fn lemma_macro_branch_items_text()
    ensures
        listed(macro_branch_items(), 15) == "m.unique_id, m.name, 'macro'::VARCHAR AS resource_type, m.package_name, NULL::VARCHAR[] AS fqn, NULL::VARCHAR[] AS tags, m.description, NULL::VARCHAR AS materialized, NULL::VARCHAR AS access_level, NULL::VARCHAR AS source_name, NULL::BOOLEAN AS freshness_checked, NULL::VARCHAR AS test_type, NULL::VARCHAR AS exposure_type, NULL::VARCHAR AS executed_at, NULL::VARCHAR AS original_file_path"@,
{
    reveal_with_fuel(listed, 6);
    reveal_strlit(", ");
    reveal_strlit(".");
    reveal_strlit(" AS ");
    reveal_strlit("m");
    reveal_strlit("unique_id");
    reveal_strlit("name");
    reveal_strlit("'macro'::VARCHAR");
    reveal_strlit("resource_type");
    reveal_strlit("package_name");
    reveal_strlit("NULL::VARCHAR[]");
    reveal_strlit("fqn");
    reveal_strlit("tags");
    reveal_strlit("description");
    reveal_strlit("NULL::VARCHAR");
    reveal_strlit("materialized");
    reveal_strlit("access_level");
    reveal_strlit("source_name");
    reveal_strlit("NULL::BOOLEAN");
    reveal_strlit("freshness_checked");
    reveal_strlit("test_type");
    reveal_strlit("exposure_type");
    reveal_strlit("executed_at");
    reveal_strlit("original_file_path");
    reveal_strlit("m.unique_id, m.name, 'macro'::VARCHAR AS resource_type, m.package_name, NULL::VARCHAR[] AS fqn");
    reveal_strlit("m.unique_id, m.name, 'macro'::VARCHAR AS resource_type, m.package_name, NULL::VARCHAR[] AS fqn, NULL::VARCHAR[] AS tags, m.description, NULL::VARCHAR AS materialized, NULL::VARCHAR AS access_level, NULL::VARCHAR AS source_name");
    reveal_strlit("m.unique_id, m.name, 'macro'::VARCHAR AS resource_type, m.package_name, NULL::VARCHAR[] AS fqn, NULL::VARCHAR[] AS tags, m.description, NULL::VARCHAR AS materialized, NULL::VARCHAR AS access_level, NULL::VARCHAR AS source_name, NULL::BOOLEAN AS freshness_checked, NULL::VARCHAR AS test_type, NULL::VARCHAR AS exposure_type, NULL::VARCHAR AS executed_at, NULL::VARCHAR AS original_file_path");
    reveal_strlit("macro");
    reveal_strlit("::VARCHAR");
    lemma_plain_literal("macro"@);
    assert(literal("macro"@) + "::VARCHAR"@ =~= "'macro'::VARCHAR"@);
    let items = macro_branch_items();
    assert(listed(items, 5) =~= "m.unique_id, m.name, 'macro'::VARCHAR AS resource_type, m.package_name, NULL::VARCHAR[] AS fqn"@);
    assert(listed(items, 10) =~= "m.unique_id, m.name, 'macro'::VARCHAR AS resource_type, m.package_name, NULL::VARCHAR[] AS fqn, NULL::VARCHAR[] AS tags, m.description, NULL::VARCHAR AS materialized, NULL::VARCHAR AS access_level, NULL::VARCHAR AS source_name"@);
    assert(listed(items, 15) =~= "m.unique_id, m.name, 'macro'::VARCHAR AS resource_type, m.package_name, NULL::VARCHAR[] AS fqn, NULL::VARCHAR[] AS tags, m.description, NULL::VARCHAR AS materialized, NULL::VARCHAR AS access_level, NULL::VARCHAR AS source_name, NULL::BOOLEAN AS freshness_checked, NULL::VARCHAR AS test_type, NULL::VARCHAR AS exposure_type, NULL::VARCHAR AS executed_at, NULL::VARCHAR AS original_file_path"@);
}

#[verifier::spinoff_prover]
#[verifier::rlimit(40)]
proof fn lemma_macros_branch_text()
    ensures
        MACROS_BRANCH@ == "SELECT "@ + listed(macro_branch_items(), macro_branch_items().len()) + " FROM "@ + "dbt.macros m"@,
{
    lemma_macro_branch_items_text();
    reveal_strlit("SELECT ");
    reveal_strlit(" FROM ");
    reveal_strlit("m.unique_id, m.name, 'macro'::VARCHAR AS resource_type, m.package_name, NULL::VARCHAR[] AS fqn, NULL::VARCHAR[] AS tags, m.description, NULL::VARCHAR AS materialized, NULL::VARCHAR AS access_level, NULL::VARCHAR AS source_name, NULL::BOOLEAN AS freshness_checked, NULL::VARCHAR AS test_type, NULL::VARCHAR AS exposure_type, NULL::VARCHAR AS executed_at, NULL::VARCHAR AS original_file_path");
    reveal_strlit("dbt.macros m");
    reveal_strlit(
        "SELECT m.unique_id, m.name, 'macro'::VARCHAR AS resource_type, m.package_name, \
     NULL::VARCHAR[] AS fqn, NULL::VARCHAR[] AS tags, m.description, \
     NULL::VARCHAR AS materialized, NULL::VARCHAR AS access_level, NULL::VARCHAR AS source_name, \
     NULL::BOOLEAN AS freshness_checked, \
     NULL::VARCHAR AS test_type, \
     NULL::VARCHAR AS exposure_type, \
     NULL::VARCHAR AS executed_at, \
     NULL::VARCHAR AS original_file_path \
     FROM dbt.macros m",
    );
    assert(MACROS_BRANCH@ =~= "SELECT "@ + "m.unique_id, m.name, 'macro'::VARCHAR AS resource_type, m.package_name, NULL::VARCHAR[] AS fqn, NULL::VARCHAR[] AS tags, m.description, NULL::VARCHAR AS materialized, NULL::VARCHAR AS access_level, NULL::VARCHAR AS source_name, NULL::BOOLEAN AS freshness_checked, NULL::VARCHAR AS test_type, NULL::VARCHAR AS exposure_type, NULL::VARCHAR AS executed_at, NULL::VARCHAR AS original_file_path"@ + " FROM "@ + "dbt.macros m"@);
}

/// What the branch of the type `metric` has in the columns of the base table.
pub open spec fn metric_branch_items() -> Seq<Item> {
    seq![
        Item::Of("m"@, "unique_id"@),
        Item::Of("m"@, "name"@),
        Item::As(literal("metric"@) + "::VARCHAR"@, "resource_type"@),
        Item::Of("m"@, "package_name"@),
        Item::Of("m"@, "fqn"@),
        Item::Of("m"@, "tags"@),
        Item::Of("m"@, "description"@),
        Item::As("NULL::VARCHAR"@, "materialized"@),
        Item::As("NULL::VARCHAR"@, "access_level"@),
        Item::As("NULL::VARCHAR"@, "source_name"@),
        Item::As("NULL::BOOLEAN"@, "freshness_checked"@),
        Item::As("NULL::VARCHAR"@, "test_type"@),
        Item::As("NULL::VARCHAR"@, "exposure_type"@),
        Item::As("NULL::VARCHAR"@, "executed_at"@),
        Item::As("NULL::VARCHAR"@, "original_file_path"@),
    ]
}

#[verifier::spinoff_prover]
#[verifier::rlimit(80)]
proof fn lemma_metric_branch_items_text()
    ensures
        listed(metric_branch_items(), 15) == "m.unique_id, m.name, 'metric'::VARCHAR AS resource_type, m.package_name, m.fqn, m.tags, m.description, NULL::VARCHAR AS materialized, NULL::VARCHAR AS access_level, NULL::VARCHAR AS source_name, NULL::BOOLEAN AS freshness_checked, NULL::VARCHAR AS test_type, NULL::VARCHAR AS exposure_type, NULL::VARCHAR AS executed_at, NULL::VARCHAR AS original_file_path"@,
{
    reveal_with_fuel(listed, 6);
    reveal_strlit(", ");
    reveal_strlit(".");
    reveal_strlit(" AS ");
    reveal_strlit("m");
    reveal_strlit("unique_id");
    reveal_strlit("name");
    reveal_strlit("'metric'::VARCHAR");
    reveal_strlit("resource_type");
    reveal_strlit("package_name");
    reveal_strlit("fqn");
    reveal_strlit("tags");
    reveal_strlit("description");
    reveal_strlit("NULL::VARCHAR");
    reveal_strlit("materialized");
    reveal_strlit("access_level");
    reveal_strlit("source_name");
    reveal_strlit("NULL::BOOLEAN");
    reveal_strlit("freshness_checked");
    reveal_strlit("test_type");
    reveal_strlit("exposure_type");
    reveal_strlit("executed_at");
    reveal_strlit("original_file_path");
    reveal_strlit("m.unique_id, m.name, 'metric'::VARCHAR AS resource_type, m.package_name, m.fqn");
    reveal_strlit("m.unique_id, m.name, 'metric'::VARCHAR AS resource_type, m.package_name, m.fqn, m.tags, m.description, NULL::VARCHAR AS materialized, NULL::VARCHAR AS access_level, NULL::VARCHAR AS source_name");
    reveal_strlit("m.unique_id, m.name, 'metric'::VARCHAR AS resource_type, m.package_name, m.fqn, m.tags, m.description, NULL::VARCHAR AS materialized, NULL::VARCHAR AS access_level, NULL::VARCHAR AS source_name, NULL::BOOLEAN AS freshness_checked, NULL::VARCHAR AS test_type, NULL::VARCHAR AS exposure_type, NULL::VARCHAR AS executed_at, NULL::VARCHAR AS original_file_path");
    reveal_strlit("metric");
    reveal_strlit("::VARCHAR");
    lemma_plain_literal("metric"@);
    assert(literal("metric"@) + "::VARCHAR"@ =~= "'metric'::VARCHAR"@);
    let items = metric_branch_items();
    assert(listed(items, 5) =~= "m.unique_id, m.name, 'metric'::VARCHAR AS resource_type, m.package_name, m.fqn"@);
    assert(listed(items, 10) =~= "m.unique_id, m.name, 'metric'::VARCHAR AS resource_type, m.package_name, m.fqn, m.tags, m.description, NULL::VARCHAR AS materialized, NULL::VARCHAR AS access_level, NULL::VARCHAR AS source_name"@);
    assert(listed(items, 15) =~= "m.unique_id, m.name, 'metric'::VARCHAR AS resource_type, m.package_name, m.fqn, m.tags, m.description, NULL::VARCHAR AS materialized, NULL::VARCHAR AS access_level, NULL::VARCHAR AS source_name, NULL::BOOLEAN AS freshness_checked, NULL::VARCHAR AS test_type, NULL::VARCHAR AS exposure_type, NULL::VARCHAR AS executed_at, NULL::VARCHAR AS original_file_path"@);
}

#[verifier::spinoff_prover]
#[verifier::rlimit(40)]
proof fn lemma_metrics_branch_text()
    ensures
        METRICS_BRANCH@ == "SELECT "@ + listed(metric_branch_items(), metric_branch_items().len()) + " FROM "@ + "dbt.metrics m"@,
{
    lemma_metric_branch_items_text();
    reveal_strlit("SELECT ");
    reveal_strlit(" FROM ");
    reveal_strlit("m.unique_id, m.name, 'metric'::VARCHAR AS resource_type, m.package_name, m.fqn, m.tags, m.description, NULL::VARCHAR AS materialized, NULL::VARCHAR AS access_level, NULL::VARCHAR AS source_name, NULL::BOOLEAN AS freshness_checked, NULL::VARCHAR AS test_type, NULL::VARCHAR AS exposure_type, NULL::VARCHAR AS executed_at, NULL::VARCHAR AS original_file_path");
    reveal_strlit("dbt.metrics m");
    reveal_strlit(
        "SELECT m.unique_id, m.name, 'metric'::VARCHAR AS resource_type, m.package_name, \
     m.fqn, m.tags, m.description, \
     NULL::VARCHAR AS materialized, NULL::VARCHAR AS access_level, NULL::VARCHAR AS source_name, \
     NULL::BOOLEAN AS freshness_checked, \
     NULL::VARCHAR AS test_type, \
     NULL::VARCHAR AS exposure_type, \
     NULL::VARCHAR AS executed_at, \
     NULL::VARCHAR AS original_file_path \
     FROM dbt.metrics m",
    );
    assert(METRICS_BRANCH@ =~= "SELECT "@ + "m.unique_id, m.name, 'metric'::VARCHAR AS resource_type, m.package_name, m.fqn, m.tags, m.description, NULL::VARCHAR AS materialized, NULL::VARCHAR AS access_level, NULL::VARCHAR AS source_name, NULL::BOOLEAN AS freshness_checked, NULL::VARCHAR AS test_type, NULL::VARCHAR AS exposure_type, NULL::VARCHAR AS executed_at, NULL::VARCHAR AS original_file_path"@ + " FROM "@ + "dbt.metrics m"@);
}

/// What the branch of the type `saved_query` has in the columns of the base table.
pub open spec fn saved_query_branch_items() -> Seq<Item> {
    seq![
        Item::Of("sq"@, "unique_id"@),
        Item::Of("sq"@, "name"@),
        Item::As(literal("saved_query"@) + "::VARCHAR"@, "resource_type"@),
        Item::Of("sq"@, "package_name"@),
        Item::Of("sq"@, "fqn"@),
        Item::Of("sq"@, "tags"@),
        Item::Of("sq"@, "description"@),
        Item::As("NULL::VARCHAR"@, "materialized"@),
        Item::As("NULL::VARCHAR"@, "access_level"@),
        Item::As("NULL::VARCHAR"@, "source_name"@),
        Item::As("NULL::BOOLEAN"@, "freshness_checked"@),
        Item::As("NULL::VARCHAR"@, "test_type"@),
        Item::As("NULL::VARCHAR"@, "exposure_type"@),
        Item::As("NULL::VARCHAR"@, "executed_at"@),
        Item::As("NULL::VARCHAR"@, "original_file_path"@),
    ]
}

#[verifier::spinoff_prover]
#[verifier::rlimit(80)]
proof fn lemma_saved_query_branch_items_text()
    ensures
        listed(saved_query_branch_items(), 15) == "sq.unique_id, sq.name, 'saved_query'::VARCHAR AS resource_type, sq.package_name, sq.fqn, sq.tags, sq.description, NULL::VARCHAR AS materialized, NULL::VARCHAR AS access_level, NULL::VARCHAR AS source_name, NULL::BOOLEAN AS freshness_checked, NULL::VARCHAR AS test_type, NULL::VARCHAR AS exposure_type, NULL::VARCHAR AS executed_at, NULL::VARCHAR AS original_file_path"@,
{
    reveal_with_fuel(listed, 6);
    reveal_strlit(", ");
    reveal_strlit(".");
    reveal_strlit(" AS ");
    reveal_strlit("sq");
    reveal_strlit("unique_id");
    reveal_strlit("name");
    reveal_strlit("'saved_query'::VARCHAR");
    reveal_strlit("resource_type");
    reveal_strlit("package_name");
    reveal_strlit("fqn");
    reveal_strlit("tags");
    reveal_strlit("description");
    reveal_strlit("NULL::VARCHAR");
    reveal_strlit("materialized");
    reveal_strlit("access_level");
    reveal_strlit("source_name");
    reveal_strlit("NULL::BOOLEAN");
    reveal_strlit("freshness_checked");
    reveal_strlit("test_type");
    reveal_strlit("exposure_type");
    reveal_strlit("executed_at");
    reveal_strlit("original_file_path");
    reveal_strlit("sq.unique_id, sq.name, 'saved_query'::VARCHAR AS resource_type, sq.package_name, sq.fqn");
    reveal_strlit("sq.unique_id, sq.name, 'saved_query'::VARCHAR AS resource_type, sq.package_name, sq.fqn, sq.tags, sq.description, NULL::VARCHAR AS materialized, NULL::VARCHAR AS access_level, NULL::VARCHAR AS source_name");
    reveal_strlit("sq.unique_id, sq.name, 'saved_query'::VARCHAR AS resource_type, sq.package_name, sq.fqn, sq.tags, sq.description, NULL::VARCHAR AS materialized, NULL::VARCHAR AS access_level, NULL::VARCHAR AS source_name, NULL::BOOLEAN AS freshness_checked, NULL::VARCHAR AS test_type, NULL::VARCHAR AS exposure_type, NULL::VARCHAR AS executed_at, NULL::VARCHAR AS original_file_path");
    reveal_strlit("saved_query");
    reveal_strlit("::VARCHAR");
    lemma_plain_literal("saved_query"@);
    assert(literal("saved_query"@) + "::VARCHAR"@ =~= "'saved_query'::VARCHAR"@);
    let items = saved_query_branch_items();
    assert(listed(items, 5) =~= "sq.unique_id, sq.name, 'saved_query'::VARCHAR AS resource_type, sq.package_name, sq.fqn"@);
    assert(listed(items, 10) =~= "sq.unique_id, sq.name, 'saved_query'::VARCHAR AS resource_type, sq.package_name, sq.fqn, sq.tags, sq.description, NULL::VARCHAR AS materialized, NULL::VARCHAR AS access_level, NULL::VARCHAR AS source_name"@);
    assert(listed(items, 15) =~= "sq.unique_id, sq.name, 'saved_query'::VARCHAR AS resource_type, sq.package_name, sq.fqn, sq.tags, sq.description, NULL::VARCHAR AS materialized, NULL::VARCHAR AS access_level, NULL::VARCHAR AS source_name, NULL::BOOLEAN AS freshness_checked, NULL::VARCHAR AS test_type, NULL::VARCHAR AS exposure_type, NULL::VARCHAR AS executed_at, NULL::VARCHAR AS original_file_path"@);
}

#[verifier::spinoff_prover]
#[verifier::rlimit(40)]
proof fn lemma_saved_queries_branch_text()
    ensures
        SAVED_QUERIES_BRANCH@ == "SELECT "@ + listed(saved_query_branch_items(), saved_query_branch_items().len()) + " FROM "@ + "dbt.saved_queries sq"@,
{
    lemma_saved_query_branch_items_text();
    reveal_strlit("SELECT ");
    reveal_strlit(" FROM ");
    reveal_strlit("sq.unique_id, sq.name, 'saved_query'::VARCHAR AS resource_type, sq.package_name, sq.fqn, sq.tags, sq.description, NULL::VARCHAR AS materialized, NULL::VARCHAR AS access_level, NULL::VARCHAR AS source_name, NULL::BOOLEAN AS freshness_checked, NULL::VARCHAR AS test_type, NULL::VARCHAR AS exposure_type, NULL::VARCHAR AS executed_at, NULL::VARCHAR AS original_file_path");
    reveal_strlit("dbt.saved_queries sq");
    reveal_strlit(
        "SELECT sq.unique_id, sq.name, 'saved_query'::VARCHAR AS resource_type, sq.package_name, \
     sq.fqn, sq.tags, sq.description, \
     NULL::VARCHAR AS materialized, NULL::VARCHAR AS access_level, NULL::VARCHAR AS source_name, \
     NULL::BOOLEAN AS freshness_checked, \
     NULL::VARCHAR AS test_type, \
     NULL::VARCHAR AS exposure_type, \
     NULL::VARCHAR AS executed_at, \
     NULL::VARCHAR AS original_file_path \
     FROM dbt.saved_queries sq",
    );
    assert(SAVED_QUERIES_BRANCH@ =~= "SELECT "@ + "sq.unique_id, sq.name, 'saved_query'::VARCHAR AS resource_type, sq.package_name, sq.fqn, sq.tags, sq.description, NULL::VARCHAR AS materialized, NULL::VARCHAR AS access_level, NULL::VARCHAR AS source_name, NULL::BOOLEAN AS freshness_checked, NULL::VARCHAR AS test_type, NULL::VARCHAR AS exposure_type, NULL::VARCHAR AS executed_at, NULL::VARCHAR AS original_file_path"@ + " FROM "@ + "dbt.saved_queries sq"@);
}

/// What the branch of the type `semantic_model` has in the columns of the base table.
pub open spec fn semantic_model_branch_items() -> Seq<Item> {
    seq![
        Item::Of("sm"@, "unique_id"@),
        Item::Of("sm"@, "name"@),
        Item::As(literal("semantic_model"@) + "::VARCHAR"@, "resource_type"@),
        Item::Of("sm"@, "package_name"@),
        Item::Of("sm"@, "fqn"@),
        Item::As("COALESCE((json_extract(sm.config, '$.tags'))::VARCHAR[], []::VARCHAR[])"@, "tags"@),
        Item::Of("sm"@, "description"@),
        Item::As("NULL::VARCHAR"@, "materialized"@),
        Item::As("NULL::VARCHAR"@, "access_level"@),
        Item::As("NULL::VARCHAR"@, "source_name"@),
        Item::As("NULL::BOOLEAN"@, "freshness_checked"@),
        Item::As("NULL::VARCHAR"@, "test_type"@),
        Item::As("NULL::VARCHAR"@, "exposure_type"@),
        Item::As("NULL::VARCHAR"@, "executed_at"@),
        Item::As("NULL::VARCHAR"@, "original_file_path"@),
    ]
}

#[verifier::spinoff_prover]
#[verifier::rlimit(80)]
proof fn lemma_semantic_model_branch_items_text()
    ensures
        listed(semantic_model_branch_items(), 15) == "sm.unique_id, sm.name, 'semantic_model'::VARCHAR AS resource_type, sm.package_name, sm.fqn, COALESCE((json_extract(sm.config, '$.tags'))::VARCHAR[], []::VARCHAR[]) AS tags, sm.description, NULL::VARCHAR AS materialized, NULL::VARCHAR AS access_level, NULL::VARCHAR AS source_name, NULL::BOOLEAN AS freshness_checked, NULL::VARCHAR AS test_type, NULL::VARCHAR AS exposure_type, NULL::VARCHAR AS executed_at, NULL::VARCHAR AS original_file_path"@,
{
    reveal_with_fuel(listed, 6);
    reveal_strlit(", ");
    reveal_strlit(".");
    reveal_strlit(" AS ");
    reveal_strlit("sm");
    reveal_strlit("unique_id");
    reveal_strlit("name");
    reveal_strlit("'semantic_model'::VARCHAR");
    reveal_strlit("resource_type");
    reveal_strlit("package_name");
    reveal_strlit("fqn");
    reveal_strlit("COALESCE((json_extract(sm.config, '$.tags'))::VARCHAR[], []::VARCHAR[])");
    reveal_strlit("tags");
    reveal_strlit("description");
    reveal_strlit("NULL::VARCHAR");
    reveal_strlit("materialized");
    reveal_strlit("access_level");
    reveal_strlit("source_name");
    reveal_strlit("NULL::BOOLEAN");
    reveal_strlit("freshness_checked");
    reveal_strlit("test_type");
    reveal_strlit("exposure_type");
    reveal_strlit("executed_at");
    reveal_strlit("original_file_path");
    reveal_strlit("sm.unique_id, sm.name, 'semantic_model'::VARCHAR AS resource_type, sm.package_name, sm.fqn");
    reveal_strlit("sm.unique_id, sm.name, 'semantic_model'::VARCHAR AS resource_type, sm.package_name, sm.fqn, COALESCE((json_extract(sm.config, '$.tags'))::VARCHAR[], []::VARCHAR[]) AS tags, sm.description, NULL::VARCHAR AS materialized, NULL::VARCHAR AS access_level, NULL::VARCHAR AS source_name");
    reveal_strlit("sm.unique_id, sm.name, 'semantic_model'::VARCHAR AS resource_type, sm.package_name, sm.fqn, COALESCE((json_extract(sm.config, '$.tags'))::VARCHAR[], []::VARCHAR[]) AS tags, sm.description, NULL::VARCHAR AS materialized, NULL::VARCHAR AS access_level, NULL::VARCHAR AS source_name, NULL::BOOLEAN AS freshness_checked, NULL::VARCHAR AS test_type, NULL::VARCHAR AS exposure_type, NULL::VARCHAR AS executed_at, NULL::VARCHAR AS original_file_path");
    reveal_strlit("semantic_model");
    reveal_strlit("::VARCHAR");
    lemma_plain_literal("semantic_model"@);
    assert(literal("semantic_model"@) + "::VARCHAR"@ =~= "'semantic_model'::VARCHAR"@);
    let items = semantic_model_branch_items();
    assert(listed(items, 5) =~= "sm.unique_id, sm.name, 'semantic_model'::VARCHAR AS resource_type, sm.package_name, sm.fqn"@);
    assert(listed(items, 10) =~= "sm.unique_id, sm.name, 'semantic_model'::VARCHAR AS resource_type, sm.package_name, sm.fqn, COALESCE((json_extract(sm.config, '$.tags'))::VARCHAR[], []::VARCHAR[]) AS tags, sm.description, NULL::VARCHAR AS materialized, NULL::VARCHAR AS access_level, NULL::VARCHAR AS source_name"@);
    assert(listed(items, 15) =~= "sm.unique_id, sm.name, 'semantic_model'::VARCHAR AS resource_type, sm.package_name, sm.fqn, COALESCE((json_extract(sm.config, '$.tags'))::VARCHAR[], []::VARCHAR[]) AS tags, sm.description, NULL::VARCHAR AS materialized, NULL::VARCHAR AS access_level, NULL::VARCHAR AS source_name, NULL::BOOLEAN AS freshness_checked, NULL::VARCHAR AS test_type, NULL::VARCHAR AS exposure_type, NULL::VARCHAR AS executed_at, NULL::VARCHAR AS original_file_path"@);
}

#[verifier::spinoff_prover]
#[verifier::rlimit(40)]
proof fn lemma_semantic_models_branch_text()
    ensures
        SEMANTIC_MODELS_BRANCH@ == "SELECT "@ + listed(semantic_model_branch_items(), semantic_model_branch_items().len()) + " FROM "@ + "dbt.semantic_models sm"@,
{
    lemma_semantic_model_branch_items_text();
    reveal_strlit("SELECT ");
    reveal_strlit(" FROM ");
    reveal_strlit("sm.unique_id, sm.name, 'semantic_model'::VARCHAR AS resource_type, sm.package_name, sm.fqn, COALESCE((json_extract(sm.config, '$.tags'))::VARCHAR[], []::VARCHAR[]) AS tags, sm.description, NULL::VARCHAR AS materialized, NULL::VARCHAR AS access_level, NULL::VARCHAR AS source_name, NULL::BOOLEAN AS freshness_checked, NULL::VARCHAR AS test_type, NULL::VARCHAR AS exposure_type, NULL::VARCHAR AS executed_at, NULL::VARCHAR AS original_file_path");
    reveal_strlit("dbt.semantic_models sm");
    reveal_strlit(
        "SELECT sm.unique_id, sm.name, 'semantic_model'::VARCHAR AS resource_type, sm.package_name, \
     sm.fqn, \
     COALESCE((json_extract(sm.config, '$.tags'))::VARCHAR[], []::VARCHAR[]) AS tags, \
     sm.description, \
     NULL::VARCHAR AS materialized, NULL::VARCHAR AS access_level, NULL::VARCHAR AS source_name, \
     NULL::BOOLEAN AS freshness_checked, \
     NULL::VARCHAR AS test_type, \
     NULL::VARCHAR AS exposure_type, \
     NULL::VARCHAR AS executed_at, \
     NULL::VARCHAR AS original_file_path \
     FROM dbt.semantic_models sm",
    );
    assert(SEMANTIC_MODELS_BRANCH@ =~= "SELECT "@ + "sm.unique_id, sm.name, 'semantic_model'::VARCHAR AS resource_type, sm.package_name, sm.fqn, COALESCE((json_extract(sm.config, '$.tags'))::VARCHAR[], []::VARCHAR[]) AS tags, sm.description, NULL::VARCHAR AS materialized, NULL::VARCHAR AS access_level, NULL::VARCHAR AS source_name, NULL::BOOLEAN AS freshness_checked, NULL::VARCHAR AS test_type, NULL::VARCHAR AS exposure_type, NULL::VARCHAR AS executed_at, NULL::VARCHAR AS original_file_path"@ + " FROM "@ + "dbt.semantic_models sm"@);
}

/// What the branch of the type `group` has in the columns of the base table.
pub open spec fn group_branch_items() -> Seq<Item> {
    seq![
        Item::Of("g"@, "unique_id"@),
        Item::Of("g"@, "name"@),
        Item::As(literal("group"@) + "::VARCHAR"@, "resource_type"@),
        Item::Of("g"@, "package_name"@),
        Item::As("NULL::VARCHAR[]"@, "fqn"@),
        Item::As("NULL::VARCHAR[]"@, "tags"@),
        Item::Of("g"@, "description"@),
        Item::As("NULL::VARCHAR"@, "materialized"@),
        Item::As("NULL::VARCHAR"@, "access_level"@),
        Item::As("NULL::VARCHAR"@, "source_name"@),
        Item::As("NULL::BOOLEAN"@, "freshness_checked"@),
        Item::As("NULL::VARCHAR"@, "test_type"@),
        Item::As("NULL::VARCHAR"@, "exposure_type"@),
        Item::As("NULL::VARCHAR"@, "executed_at"@),
        Item::As("NULL::VARCHAR"@, "original_file_path"@),
    ]
}

#[verifier::spinoff_prover]
#[verifier::rlimit(80)]
proof fn lemma_group_branch_items_text()
    ensures
        listed(group_branch_items(), 15) == "g.unique_id, g.name, 'group'::VARCHAR AS resource_type, g.package_name, NULL::VARCHAR[] AS fqn, NULL::VARCHAR[] AS tags, g.description, NULL::VARCHAR AS materialized, NULL::VARCHAR AS access_level, NULL::VARCHAR AS source_name, NULL::BOOLEAN AS freshness_checked, NULL::VARCHAR AS test_type, NULL::VARCHAR AS exposure_type, NULL::VARCHAR AS executed_at, NULL::VARCHAR AS original_file_path"@,
{
    reveal_with_fuel(listed, 6);
    reveal_strlit(", ");
    reveal_strlit(".");
    reveal_strlit(" AS ");
    reveal_strlit("g");
    reveal_strlit("unique_id");
    reveal_strlit("name");
    reveal_strlit("'group'::VARCHAR");
    reveal_strlit("resource_type");
    reveal_strlit("package_name");
    reveal_strlit("NULL::VARCHAR[]");
    reveal_strlit("fqn");
    reveal_strlit("tags");
    reveal_strlit("description");
    reveal_strlit("NULL::VARCHAR");
    reveal_strlit("materialized");
    reveal_strlit("access_level");
    reveal_strlit("source_name");
    reveal_strlit("NULL::BOOLEAN");
    reveal_strlit("freshness_checked");
    reveal_strlit("test_type");
    reveal_strlit("exposure_type");
    reveal_strlit("executed_at");
    reveal_strlit("original_file_path");
    reveal_strlit("g.unique_id, g.name, 'group'::VARCHAR AS resource_type, g.package_name, NULL::VARCHAR[] AS fqn");
    reveal_strlit("g.unique_id, g.name, 'group'::VARCHAR AS resource_type, g.package_name, NULL::VARCHAR[] AS fqn, NULL::VARCHAR[] AS tags, g.description, NULL::VARCHAR AS materialized, NULL::VARCHAR AS access_level, NULL::VARCHAR AS source_name");
    reveal_strlit("g.unique_id, g.name, 'group'::VARCHAR AS resource_type, g.package_name, NULL::VARCHAR[] AS fqn, NULL::VARCHAR[] AS tags, g.description, NULL::VARCHAR AS materialized, NULL::VARCHAR AS access_level, NULL::VARCHAR AS source_name, NULL::BOOLEAN AS freshness_checked, NULL::VARCHAR AS test_type, NULL::VARCHAR AS exposure_type, NULL::VARCHAR AS executed_at, NULL::VARCHAR AS original_file_path");
    reveal_strlit("group");
    reveal_strlit("::VARCHAR");
    lemma_plain_literal("group"@);
    assert(literal("group"@) + "::VARCHAR"@ =~= "'group'::VARCHAR"@);
    let items = group_branch_items();
    assert(listed(items, 5) =~= "g.unique_id, g.name, 'group'::VARCHAR AS resource_type, g.package_name, NULL::VARCHAR[] AS fqn"@);
    assert(listed(items, 10) =~= "g.unique_id, g.name, 'group'::VARCHAR AS resource_type, g.package_name, NULL::VARCHAR[] AS fqn, NULL::VARCHAR[] AS tags, g.description, NULL::VARCHAR AS materialized, NULL::VARCHAR AS access_level, NULL::VARCHAR AS source_name"@);
    assert(listed(items, 15) =~= "g.unique_id, g.name, 'group'::VARCHAR AS resource_type, g.package_name, NULL::VARCHAR[] AS fqn, NULL::VARCHAR[] AS tags, g.description, NULL::VARCHAR AS materialized, NULL::VARCHAR AS access_level, NULL::VARCHAR AS source_name, NULL::BOOLEAN AS freshness_checked, NULL::VARCHAR AS test_type, NULL::VARCHAR AS exposure_type, NULL::VARCHAR AS executed_at, NULL::VARCHAR AS original_file_path"@);
}

#[verifier::spinoff_prover]
#[verifier::rlimit(40)]
proof fn lemma_groups_branch_text()
    ensures
        GROUPS_BRANCH@ == "SELECT "@ + listed(group_branch_items(), group_branch_items().len()) + " FROM "@ + "dbt.groups g"@,
{
    lemma_group_branch_items_text();
    reveal_strlit("SELECT ");
    reveal_strlit(" FROM ");
    reveal_strlit("g.unique_id, g.name, 'group'::VARCHAR AS resource_type, g.package_name, NULL::VARCHAR[] AS fqn, NULL::VARCHAR[] AS tags, g.description, NULL::VARCHAR AS materialized, NULL::VARCHAR AS access_level, NULL::VARCHAR AS source_name, NULL::BOOLEAN AS freshness_checked, NULL::VARCHAR AS test_type, NULL::VARCHAR AS exposure_type, NULL::VARCHAR AS executed_at, NULL::VARCHAR AS original_file_path");
    reveal_strlit("dbt.groups g");
    reveal_strlit(
        "SELECT g.unique_id, g.name, 'group'::VARCHAR AS resource_type, g.package_name, \
     NULL::VARCHAR[] AS fqn, NULL::VARCHAR[] AS tags, g.description, \
     NULL::VARCHAR AS materialized, NULL::VARCHAR AS access_level, NULL::VARCHAR AS source_name, \
     NULL::BOOLEAN AS freshness_checked, \
     NULL::VARCHAR AS test_type, \
     NULL::VARCHAR AS exposure_type, \
     NULL::VARCHAR AS executed_at, \
     NULL::VARCHAR AS original_file_path \
     FROM dbt.groups g",
    );
    assert(GROUPS_BRANCH@ =~= "SELECT "@ + "g.unique_id, g.name, 'group'::VARCHAR AS resource_type, g.package_name, NULL::VARCHAR[] AS fqn, NULL::VARCHAR[] AS tags, g.description, NULL::VARCHAR AS materialized, NULL::VARCHAR AS access_level, NULL::VARCHAR AS source_name, NULL::BOOLEAN AS freshness_checked, NULL::VARCHAR AS test_type, NULL::VARCHAR AS exposure_type, NULL::VARCHAR AS executed_at, NULL::VARCHAR AS original_file_path"@ + " FROM "@ + "dbt.groups g"@);
}

/// What the branch of the type `unit_test` has in the columns of the base table.
pub open spec fn unit_test_branch_items() -> Seq<Item> {
    seq![
        Item::Of("ut"@, "unique_id"@),
        Item::Of("ut"@, "name"@),
        Item::As(literal("unit_test"@) + "::VARCHAR"@, "resource_type"@),
        Item::Of("ut"@, "package_name"@),
        Item::Of("ut"@, "fqn"@),
        Item::As("NULL::VARCHAR[]"@, "tags"@),
        Item::Of("ut"@, "description"@),
        Item::As("NULL::VARCHAR"@, "materialized"@),
        Item::As("NULL::VARCHAR"@, "access_level"@),
        Item::As("NULL::VARCHAR"@, "source_name"@),
        Item::As("NULL::BOOLEAN"@, "freshness_checked"@),
        Item::As(literal("unit_test"@) + "::VARCHAR"@, "test_type"@),
        Item::As("NULL::VARCHAR"@, "exposure_type"@),
        Item::As("NULL::VARCHAR"@, "executed_at"@),
        Item::As("NULL::VARCHAR"@, "original_file_path"@),
    ]
}

#[verifier::spinoff_prover]
#[verifier::rlimit(80)]
proof fn lemma_unit_test_branch_items_text()
    ensures
        listed(unit_test_branch_items(), 15) == "ut.unique_id, ut.name, 'unit_test'::VARCHAR AS resource_type, ut.package_name, ut.fqn, NULL::VARCHAR[] AS tags, ut.description, NULL::VARCHAR AS materialized, NULL::VARCHAR AS access_level, NULL::VARCHAR AS source_name, NULL::BOOLEAN AS freshness_checked, 'unit_test'::VARCHAR AS test_type, NULL::VARCHAR AS exposure_type, NULL::VARCHAR AS executed_at, NULL::VARCHAR AS original_file_path"@,
{
    reveal_with_fuel(listed, 6);
    reveal_strlit(", ");
    reveal_strlit(".");
    reveal_strlit(" AS ");
    reveal_strlit("ut");
    reveal_strlit("unique_id");
    reveal_strlit("name");
    reveal_strlit("'unit_test'::VARCHAR");
    reveal_strlit("resource_type");
    reveal_strlit("package_name");
    reveal_strlit("fqn");
    reveal_strlit("NULL::VARCHAR[]");
    reveal_strlit("tags");
    reveal_strlit("description");
    reveal_strlit("NULL::VARCHAR");
    reveal_strlit("materialized");
    reveal_strlit("access_level");
    reveal_strlit("source_name");
    reveal_strlit("NULL::BOOLEAN");
    reveal_strlit("freshness_checked");
    reveal_strlit("test_type");
    reveal_strlit("exposure_type");
    reveal_strlit("executed_at");
    reveal_strlit("original_file_path");
    reveal_strlit("ut.unique_id, ut.name, 'unit_test'::VARCHAR AS resource_type, ut.package_name, ut.fqn");
    reveal_strlit("ut.unique_id, ut.name, 'unit_test'::VARCHAR AS resource_type, ut.package_name, ut.fqn, NULL::VARCHAR[] AS tags, ut.description, NULL::VARCHAR AS materialized, NULL::VARCHAR AS access_level, NULL::VARCHAR AS source_name");
    reveal_strlit("ut.unique_id, ut.name, 'unit_test'::VARCHAR AS resource_type, ut.package_name, ut.fqn, NULL::VARCHAR[] AS tags, ut.description, NULL::VARCHAR AS materialized, NULL::VARCHAR AS access_level, NULL::VARCHAR AS source_name, NULL::BOOLEAN AS freshness_checked, 'unit_test'::VARCHAR AS test_type, NULL::VARCHAR AS exposure_type, NULL::VARCHAR AS executed_at, NULL::VARCHAR AS original_file_path");
    reveal_strlit("unit_test");
    reveal_strlit("::VARCHAR");
    lemma_plain_literal("unit_test"@);
    assert(literal("unit_test"@) + "::VARCHAR"@ =~= "'unit_test'::VARCHAR"@);
    let items = unit_test_branch_items();
    assert(listed(items, 5) =~= "ut.unique_id, ut.name, 'unit_test'::VARCHAR AS resource_type, ut.package_name, ut.fqn"@);
    assert(listed(items, 10) =~= "ut.unique_id, ut.name, 'unit_test'::VARCHAR AS resource_type, ut.package_name, ut.fqn, NULL::VARCHAR[] AS tags, ut.description, NULL::VARCHAR AS materialized, NULL::VARCHAR AS access_level, NULL::VARCHAR AS source_name"@);
    assert(listed(items, 15) =~= "ut.unique_id, ut.name, 'unit_test'::VARCHAR AS resource_type, ut.package_name, ut.fqn, NULL::VARCHAR[] AS tags, ut.description, NULL::VARCHAR AS materialized, NULL::VARCHAR AS access_level, NULL::VARCHAR AS source_name, NULL::BOOLEAN AS freshness_checked, 'unit_test'::VARCHAR AS test_type, NULL::VARCHAR AS exposure_type, NULL::VARCHAR AS executed_at, NULL::VARCHAR AS original_file_path"@);
}

#[verifier::spinoff_prover]
#[verifier::rlimit(40)]
proof fn lemma_unit_tests_branch_text()
    ensures
        UNIT_TESTS_BRANCH@ == "SELECT "@ + listed(unit_test_branch_items(), unit_test_branch_items().len()) + " FROM "@ + "dbt.unit_tests ut"@,
{
    lemma_unit_test_branch_items_text();
    reveal_strlit("SELECT ");
    reveal_strlit(" FROM ");
    reveal_strlit("ut.unique_id, ut.name, 'unit_test'::VARCHAR AS resource_type, ut.package_name, ut.fqn, NULL::VARCHAR[] AS tags, ut.description, NULL::VARCHAR AS materialized, NULL::VARCHAR AS access_level, NULL::VARCHAR AS source_name, NULL::BOOLEAN AS freshness_checked, 'unit_test'::VARCHAR AS test_type, NULL::VARCHAR AS exposure_type, NULL::VARCHAR AS executed_at, NULL::VARCHAR AS original_file_path");
    reveal_strlit("dbt.unit_tests ut");
    reveal_strlit(
        "SELECT ut.unique_id, ut.name, 'unit_test'::VARCHAR AS resource_type, ut.package_name, \
     ut.fqn, NULL::VARCHAR[] AS tags, ut.description, \
     NULL::VARCHAR AS materialized, NULL::VARCHAR AS access_level, NULL::VARCHAR AS source_name, \
     NULL::BOOLEAN AS freshness_checked, \
     'unit_test'::VARCHAR AS test_type, \
     NULL::VARCHAR AS exposure_type, \
     NULL::VARCHAR AS executed_at, \
     NULL::VARCHAR AS original_file_path \
     FROM dbt.unit_tests ut",
    );
    assert(UNIT_TESTS_BRANCH@ =~= "SELECT "@ + "ut.unique_id, ut.name, 'unit_test'::VARCHAR AS resource_type, ut.package_name, ut.fqn, NULL::VARCHAR[] AS tags, ut.description, NULL::VARCHAR AS materialized, NULL::VARCHAR AS access_level, NULL::VARCHAR AS source_name, NULL::BOOLEAN AS freshness_checked, 'unit_test'::VARCHAR AS test_type, NULL::VARCHAR AS exposure_type, NULL::VARCHAR AS executed_at, NULL::VARCHAR AS original_file_path"@ + " FROM "@ + "dbt.unit_tests ut"@);
}

/// Whether a branch gives all resources of a type that has a table of its own, each with
/// that type.
pub open spec fn gives_all(sql: Seq<char>, kind: Seq<char>) -> bool {
    exists|items: Seq<Item>, alias: Seq<char>|
        are_base_items(items) && items[2].expr() == literal(kind) + "::VARCHAR"@
            && #[trigger] reads_all(sql, items, table_of(kind) + " "@ + alias)
}

proof fn lemma_exposure_branch()
    ensures
        gives_all(EXPOSURES_BRANCH@, "exposure"@),
{
    lemma_exposures_branch_text();
    lemma_table_names();
    reveal_strlit("dbt.exposures e");
    reveal_strlit("dbt.exposures");
    reveal_strlit(" ");
    reveal_strlit("e");
    assert(table_of("exposure"@) + " "@ + "e"@ =~= "dbt.exposures e"@);
    let items = exposure_branch_items();
    assert(items.len() == 15);
    assert(items[2].expr() == literal("exposure"@) + "::VARCHAR"@);
    assert(reads_all(EXPOSURES_BRANCH@, items, table_of("exposure"@) + " "@ + "e"@));
}

proof fn lemma_macro_branch()
    ensures
        gives_all(MACROS_BRANCH@, "macro"@),
{
    lemma_macros_branch_text();
    lemma_table_names();
    reveal_strlit("dbt.macros m");
    reveal_strlit("dbt.macros");
    reveal_strlit(" ");
    reveal_strlit("m");
    assert(table_of("macro"@) + " "@ + "m"@ =~= "dbt.macros m"@);
    let items = macro_branch_items();
    assert(items.len() == 15);
    assert(items[2].expr() == literal("macro"@) + "::VARCHAR"@);
    assert(reads_all(MACROS_BRANCH@, items, table_of("macro"@) + " "@ + "m"@));
}

proof fn lemma_metric_branch()
    ensures
        gives_all(METRICS_BRANCH@, "metric"@),
{
    lemma_metrics_branch_text();
    lemma_table_names();
    reveal_strlit("dbt.metrics m");
    reveal_strlit("dbt.metrics");
    reveal_strlit(" ");
    reveal_strlit("m");
    assert(table_of("metric"@) + " "@ + "m"@ =~= "dbt.metrics m"@);
    let items = metric_branch_items();
    assert(items.len() == 15);
    assert(items[2].expr() == literal("metric"@) + "::VARCHAR"@);
    assert(reads_all(METRICS_BRANCH@, items, table_of("metric"@) + " "@ + "m"@));
}

proof fn lemma_saved_query_branch()
    ensures
        gives_all(SAVED_QUERIES_BRANCH@, "saved_query"@),
{
    lemma_saved_queries_branch_text();
    lemma_table_names();
    reveal_strlit("dbt.saved_queries sq");
    reveal_strlit("dbt.saved_queries");
    reveal_strlit(" ");
    reveal_strlit("sq");
    assert(table_of("saved_query"@) + " "@ + "sq"@ =~= "dbt.saved_queries sq"@);
    let items = saved_query_branch_items();
    assert(items.len() == 15);
    assert(items[2].expr() == literal("saved_query"@) + "::VARCHAR"@);
    assert(reads_all(SAVED_QUERIES_BRANCH@, items, table_of("saved_query"@) + " "@ + "sq"@));
}

proof fn lemma_semantic_model_branch()
    ensures
        gives_all(SEMANTIC_MODELS_BRANCH@, "semantic_model"@),
{
    lemma_semantic_models_branch_text();
    lemma_table_names();
    reveal_strlit("dbt.semantic_models sm");
    reveal_strlit("dbt.semantic_models");
    reveal_strlit(" ");
    reveal_strlit("sm");
    assert(table_of("semantic_model"@) + " "@ + "sm"@ =~= "dbt.semantic_models sm"@);
    let items = semantic_model_branch_items();
    assert(items.len() == 15);
    assert(items[2].expr() == literal("semantic_model"@) + "::VARCHAR"@);
    assert(reads_all(SEMANTIC_MODELS_BRANCH@, items, table_of("semantic_model"@) + " "@ + "sm"@));
}

proof fn lemma_group_branch()
    ensures
        gives_all(GROUPS_BRANCH@, "group"@),
{
    lemma_groups_branch_text();
    lemma_table_names();
    reveal_strlit("dbt.groups g");
    reveal_strlit("dbt.groups");
    reveal_strlit(" ");
    reveal_strlit("g");
    assert(table_of("group"@) + " "@ + "g"@ =~= "dbt.groups g"@);
    let items = group_branch_items();
    assert(items.len() == 15);
    assert(items[2].expr() == literal("group"@) + "::VARCHAR"@);
    assert(reads_all(GROUPS_BRANCH@, items, table_of("group"@) + " "@ + "g"@));
}

proof fn lemma_unit_test_branch()
    ensures
        gives_all(UNIT_TESTS_BRANCH@, "unit_test"@),
{
    lemma_unit_tests_branch_text();
    lemma_table_names();
    reveal_strlit("dbt.unit_tests ut");
    reveal_strlit("dbt.unit_tests");
    reveal_strlit(" ");
    reveal_strlit("ut");
    assert(table_of("unit_test"@) + " "@ + "ut"@ =~= "dbt.unit_tests ut"@);
    let items = unit_test_branch_items();
    assert(items.len() == 15);
    assert(items[2].expr() == literal("unit_test"@) + "::VARCHAR"@);
    assert(reads_all(UNIT_TESTS_BRANCH@, items, table_of("unit_test"@) + " "@ + "ut"@));
}

/// What the branch of nodes has in the columns of the base table.
pub open spec fn node_branch_items(with_freshness: bool, with_run_results: bool) -> Seq<Item> {
    seq![
        Item::Of("n"@, "unique_id"@),
        Item::Of("n"@, "name"@),
        Item::Of("n"@, "resource_type"@),
        Item::Of("n"@, "package_name"@),
        Item::Of("n"@, "fqn"@),
        Item::Of("n"@, "tags"@),
        Item::Of("n"@, "description"@),
        Item::Of("n"@, "materialized"@),
        Item::Of("n"@, "access_level"@),
        Item::Of("n"@, "source_name"@),
        Item::As(
            if with_freshness {
                "sf.unique_id IS NOT NULL"@
            } else {
                "NULL::BOOLEAN"@
            },
            "freshness_checked"@,
        ),
        Item::As(
            "CASE WHEN n.resource_type = 'test' THEN 'test' WHEN n.resource_type = 'unit_test' THEN 'unit_test' ELSE NULL END"@,
            "test_type"@,
        ),
        Item::As("NULL::VARCHAR"@, "exposure_type"@),
        Item::As(
            if with_run_results {
                "rr.executed_at"@
            } else {
                "NULL::VARCHAR"@
            },
            "executed_at"@,
        ),
        Item::Of("n"@, "original_file_path"@),
    ]
}

/// The nodes, with their freshness and their last run as far as they are there.
pub open spec fn node_branch_table(with_freshness: bool, with_run_results: bool) -> Seq<char> {
    "dbt.nodes n "@ + (if with_freshness {
        left_join("dbt.source_freshness"@, "sf"@, "n"@)
    } else {
        ""@
    }) + " "@ + (if with_run_results {
        left_join(
            "( SELECT unique_id, CAST(MAX(created_at) AS VARCHAR) AS executed_at FROM dbt_rt.run_results GROUP BY unique_id )"@,
            "rr"@,
            "n"@,
        )
    } else {
        ""@
    })
}

/// The nodes of some types.
pub open spec fn of_types(types: Seq<Seq<char>>) -> spec_fn(Row, Letters) -> bool {
    |row: Row, l: Letters| is_one_of(row.at("n.resource_type"@), types)
}

#[verifier::spinoff_prover]
#[verifier::rlimit(60)]
proof fn lemma_nodes_head(with_freshness: bool, with_run_results: bool)
    ensures
        NODES_HEAD@ == "SELECT "@ + listed(
            node_branch_items(with_freshness, with_run_results),
            10,
        ) + ", "@,
{
    reveal_with_fuel(listed, 6);
    reveal_strlit("SELECT ");
    reveal_strlit(", ");
    reveal_strlit(".");
    reveal_strlit("n");
    reveal_strlit("unique_id");
    reveal_strlit("name");
    reveal_strlit("resource_type");
    reveal_strlit("package_name");
    reveal_strlit("fqn");
    reveal_strlit("tags");
    reveal_strlit("description");
    reveal_strlit("materialized");
    reveal_strlit("access_level");
    reveal_strlit("source_name");
    reveal_strlit("n.unique_id, n.name, n.resource_type, n.package_name, n.fqn");
    reveal_strlit("n.unique_id, n.name, n.resource_type, n.package_name, n.fqn, n.tags, n.description, n.materialized, n.access_level, n.source_name");
    reveal_strlit(
        "SELECT n.unique_id, n.name, n.resource_type, n.package_name, \
     n.fqn, n.tags, n.description, \
     n.materialized, n.access_level, n.source_name, ",
    );
    let items = node_branch_items(with_freshness, with_run_results);
    assert(listed(items, 5) =~= "n.unique_id, n.name, n.resource_type, n.package_name, n.fqn"@);
    assert(listed(items, 10) =~= "n.unique_id, n.name, n.resource_type, n.package_name, n.fqn, n.tags, n.description, n.materialized, n.access_level, n.source_name"@);
    assert(NODES_HEAD@ =~= "SELECT "@ + "n.unique_id, n.name, n.resource_type, n.package_name, n.fqn, n.tags, n.description, n.materialized, n.access_level, n.source_name"@ + ", "@);
}

#[verifier::spinoff_prover]
#[verifier::rlimit(60)]
proof fn lemma_nodes_texts()
    ensures
        NODES_TESTS@ == " AS "@ + "freshness_checked"@ + ", "@ + ("CASE WHEN n.resource_type = 'test' THEN 'test' WHEN n.resource_type = 'unit_test' THEN 'unit_test' ELSE NULL END"@
            + " AS "@ + "test_type"@) + ", "@ + ("NULL::VARCHAR"@ + " AS "@ + "exposure_type"@) + ", "@,
        NODES_FROM@ == " AS "@ + "executed_at"@ + ", "@ + ("n"@ + "."@ + "original_file_path"@)
            + " FROM "@ + "dbt.nodes n "@,
        NODES_WHERE@ == " WHERE "@ + ("n.resource_type"@ + " IN ("@),
        FRESHNESS_JOIN@ == left_join("dbt.source_freshness"@, "sf"@, "n"@),
        RUN_RESULTS_JOIN@ == left_join(
            "( SELECT unique_id, CAST(MAX(created_at) AS VARCHAR) AS executed_at FROM dbt_rt.run_results GROUP BY unique_id )"@,
            "rr"@,
            "n"@,
        ),
{
    reveal_strlit(" AS ");
    reveal_strlit("freshness_checked");
    reveal_strlit(", ");
    reveal_strlit("CASE WHEN n.resource_type = 'test' THEN 'test' WHEN n.resource_type = 'unit_test' THEN 'unit_test' ELSE NULL END");
    reveal_strlit("test_type");
    reveal_strlit("NULL::VARCHAR");
    reveal_strlit("exposure_type");
    reveal_strlit("executed_at");
    reveal_strlit("n");
    reveal_strlit(".");
    reveal_strlit("original_file_path");
    reveal_strlit(" FROM ");
    reveal_strlit("dbt.nodes n ");
    reveal_strlit(" WHERE ");
    reveal_strlit("n.resource_type");
    reveal_strlit(" IN (");
    reveal_strlit("LEFT JOIN ");
    reveal_strlit(" ");
    reveal_strlit(" ON ");
    reveal_strlit(".unique_id = ");
    reveal_strlit(".unique_id");
    reveal_strlit("dbt.source_freshness");
    reveal_strlit("sf");
    reveal_strlit("rr");
    reveal_strlit("( SELECT unique_id, CAST(MAX(created_at) AS VARCHAR) AS executed_at FROM dbt_rt.run_results GROUP BY unique_id )");
    reveal_strlit(
        " AS freshness_checked, \
     CASE WHEN n.resource_type = 'test' THEN 'test' \
          WHEN n.resource_type = 'unit_test' THEN 'unit_test' \
          ELSE NULL END AS test_type, \
     NULL::VARCHAR AS exposure_type, ",
    );
    reveal_strlit(
        " AS executed_at, \
     n.original_file_path \
     FROM dbt.nodes n ",
    );
    reveal_strlit(
        " WHERE n.resource_type IN (",
    );
    reveal_strlit(
        "LEFT JOIN dbt.source_freshness sf ON sf.unique_id = n.unique_id",
    );
    reveal_strlit(
        "LEFT JOIN ( \
       SELECT unique_id, CAST(MAX(created_at) AS VARCHAR) AS executed_at \
       FROM dbt_rt.run_results \
       GROUP BY unique_id \
     ) rr ON rr.unique_id = n.unique_id",
    );
    assert(NODES_TESTS@ =~= " AS "@ + "freshness_checked"@ + ", "@ + ("CASE WHEN n.resource_type = 'test' THEN 'test' WHEN n.resource_type = 'unit_test' THEN 'unit_test' ELSE NULL END"@
        + " AS "@ + "test_type"@) + ", "@ + ("NULL::VARCHAR"@ + " AS "@ + "exposure_type"@) + ", "@);
    assert(NODES_FROM@ =~= " AS "@ + "executed_at"@ + ", "@ + ("n"@ + "."@ + "original_file_path"@)
        + " FROM "@ + "dbt.nodes n "@);
    assert(NODES_WHERE@ =~= " WHERE "@ + ("n.resource_type"@ + " IN ("@));
    assert(FRESHNESS_JOIN@ =~= left_join("dbt.source_freshness"@, "sf"@, "n"@));
    assert(RUN_RESULTS_JOIN@ =~= left_join("( SELECT unique_id, CAST(MAX(created_at) AS VARCHAR) AS executed_at FROM dbt_rt.run_results GROUP BY unique_id )"@, "rr"@, "n"@));
}

proof fn lemma_regroup_ten(
    s: Seq<char>,
    ten: Seq<char>,
    c: Seq<char>,
    a: Seq<char>,
    n10: Seq<char>,
    i11: Seq<char>,
    i12: Seq<char>,
    b: Seq<char>,
    n13: Seq<char>,
    i14: Seq<char>,
    f: Seq<char>,
    t: Seq<char>,
)
    ensures
        (s + ten + c) + a + (n10 + c + i11 + c + i12 + c) + b + (n13 + c + i14 + f + t) == s + (ten
            + c + (a + n10) + c + i11 + c + i12 + c + (b + n13) + c + i14) + f + t,
{
    assert((s + ten + c) + a + (n10 + c + i11 + c + i12 + c) + b + (n13 + c + i14 + f + t) =~= s + (
    ten + c + (a + n10) + c + i11 + c + i12 + c + (b + n13) + c + i14) + f + t);
}

proof fn lemma_regroup_where(
    h: Seq<char>,
    t: Seq<char>,
    x: Seq<char>,
    g: Seq<char>,
    y: Seq<char>,
    w: Seq<char>,
    p: Seq<char>,
    l: Seq<char>,
    e: Seq<char>,
)
    ensures
        (h + t) + x + g + y + (w + p) + l + e == h + (t + x + g + y) + w + (p + l + e),
{
    assert((h + t) + x + g + y + (w + p) + l + e =~= h + (t + x + g + y) + w + (p + l + e));
}

/// The branch of nodes gives exactly those of its types.
#[verifier::spinoff_prover]
pub proof fn lemma_node_branch_gives_its_types(
    types: Seq<Seq<char>>,
    with_freshness: bool,
    with_run_results: bool,
)
    requires
        types.len() > 0,
    ensures
        reads(
            nodes_branch(types, with_freshness, with_run_results),
            Seq::empty(),
            node_branch_items(with_freshness, with_run_results),
            node_branch_table(with_freshness, with_run_results),
            of_types(types),
            Seq::empty(),
        ),
        are_base_items(node_branch_items(with_freshness, with_run_results)),
{
    let items = node_branch_items(with_freshness, with_run_results);
    let p = Pred::OneOf(Expr::Of("n.resource_type"@), types);
    lemma_nodes_head(with_freshness, with_run_results);
    lemma_nodes_texts();
    lemma_quoted_list_is_literals(types);
    reveal_with_fuel(Pred::sql, 2);
    reveal_with_fuel(Pred::is_sql, 2);
    reveal_with_fuel(Pred::holds, 2);
    reveal_with_fuel(Expr::sql, 2);
    reveal_with_fuel(Expr::eval, 2);
    let a = if with_freshness {
        "sf.unique_id IS NOT NULL"@
    } else {
        "NULL::BOOLEAN"@
    };
    let b = if with_run_results {
        "rr.executed_at"@
    } else {
        "NULL::VARCHAR"@
    };
    let (n10, n13) = (" AS "@ + "freshness_checked"@, " AS "@ + "executed_at"@);
    let (i11, i12, i14) = (items[11].sql(), items[12].sql(), items[14].sql());
    let ten = listed(items, 10);
    assert(items[10].sql() == a + n10) by {
        assert(a + " AS "@ + "freshness_checked"@ =~= a + n10);
    }
    assert(items[13].sql() == b + n13) by {
        assert(b + " AS "@ + "executed_at"@ =~= b + n13);
    }
    assert(items.len() == 15);
    let all = listed(items, 15);
    assert(all == ten + ", "@ + (a + n10) + ", "@ + i11 + ", "@ + i12 + ", "@ + (b + n13) + ", "@
        + i14) by {
        reveal_with_fuel(listed, 6);
    }
    lemma_regroup_ten(
        "SELECT "@,
        ten,
        ", "@,
        a,
        n10,
        i11,
        i12,
        b,
        n13,
        i14,
        " FROM "@,
        "dbt.nodes n "@,
    );
    let x = if with_freshness {
        FRESHNESS_JOIN@
    } else {
        ""@
    };
    let y = if with_run_results {
        RUN_RESULTS_JOIN@
    } else {
        ""@
    };
    let h = "SELECT "@ + all + " FROM "@;
    assert(NODES_HEAD@ + a + NODES_TESTS@ + b + NODES_FROM@ == h + "dbt.nodes n "@);
    lemma_regroup_where(
        h,
        "dbt.nodes n "@,
        x,
        " "@,
        y,
        " WHERE "@,
        "n.resource_type"@ + " IN ("@,
        quoted_list(types),
        ")"@,
    );
    assert(p.sql() == "n.resource_type"@ + " IN ("@ + literals(types) + ")"@);
    let from = node_branch_table(with_freshness, with_run_results);
    assert(nodes_branch(types, with_freshness, with_run_results) == h + from + " WHERE "@ + p.sql());
    assert(Seq::<char>::empty() + "SELECT "@ =~= "SELECT "@);
    assert(h + from + " WHERE "@ + p.sql() + Seq::<char>::empty() =~= h + from + " WHERE "@
        + p.sql());
    assert(p.is_factor());
}

proof fn lemma_node_type_names(types: Seq<ResourceType>)
    ensures
        forall|s: Seq<char>| #[trigger]
            node_type_names(types).contains(s) <==> (exists|i: int|
                0 <= i < types.len() && (#[trigger] types[i]).is_node() && types[i].name() == s),
    decreases types.len(),
{
    if types.len() > 0 {
        let front = types.drop_last();
        lemma_node_type_names(front);
        let before = node_type_names(front);
        let all = node_type_names(types);
        assert forall|s: Seq<char>| #[trigger] all.contains(s) <==> (exists|i: int|
            0 <= i < types.len() && (#[trigger] types[i]).is_node() && types[i].name() == s) by {
            if all.contains(s) {
                let k = choose|k: int| 0 <= k < all.len() && all[k] == s;
                if k < before.len() {
                    assert(before[k] == s);
                    assert(before.contains(s));
                    let i = choose|i: int|
                        0 <= i < front.len() && (#[trigger] front[i]).is_node() && front[i].name()
                            == s;
                    assert(types[i] == front[i]);
                } else {
                    assert(types[types.len() - 1].name() == s);
                }
            }
            if exists|i: int|
                0 <= i < types.len() && (#[trigger] types[i]).is_node() && types[i].name() == s {
                let i = choose|i: int|
                    0 <= i < types.len() && (#[trigger] types[i]).is_node() && types[i].name() == s;
                if i < front.len() {
                    assert(front[i] == types[i]);
                    assert(before.contains(s));
                    let k = choose|k: int| 0 <= k < before.len() && before[k] == s;
                    assert(all[k] == s);
                } else {
                    assert(all[all.len() - 1] == s);
                }
            }
        }
    }
}

/// Whether a branch gives the resources of a type: all of its own table, or of the nodes
/// those of the type.
pub open spec fn is_branch_of(sql: Seq<char>, t: ResourceType) -> bool {
    ||| gives_all(sql, t.name())
    ||| gives_nodes(sql, t.name())
}

/// Whether a branch gives the nodes of a type.
pub open spec fn gives_nodes(sql: Seq<char>, kind: Seq<char>) -> bool {
    exists|types: Seq<Seq<char>>, with_freshness: bool, with_run_results: bool|
        types.contains(kind) && #[trigger] reads(
            sql,
            Seq::empty(),
            node_branch_items(with_freshness, with_run_results),
            node_branch_table(with_freshness, with_run_results),
            of_types(types),
            Seq::empty(),
        )
}

proof fn lemma_own_branches()
    ensures
        is_branch_of(EXPOSURES_BRANCH@, ResourceType::Exposure),
        is_branch_of(MACROS_BRANCH@, ResourceType::Macro),
        is_branch_of(METRICS_BRANCH@, ResourceType::Metric),
        is_branch_of(SAVED_QUERIES_BRANCH@, ResourceType::SavedQuery),
        is_branch_of(SEMANTIC_MODELS_BRANCH@, ResourceType::SemanticModel),
        is_branch_of(GROUPS_BRANCH@, ResourceType::Group),
        is_branch_of(UNIT_TESTS_BRANCH@, ResourceType::UnitTest),
{
    lemma_exposure_branch();
    lemma_macro_branch();
    lemma_metric_branch();
    lemma_saved_query_branch();
    lemma_semantic_model_branch();
    lemma_group_branch();
    lemma_unit_test_branch();
}

proof fn lemma_cat(a: Seq<Seq<char>>, b: Seq<Seq<char>>, x: Seq<char>)
    ensures
        (a + b).contains(x) <==> (a.contains(x) || b.contains(x)),
{
    let c = a + b;
    if c.contains(x) {
        let k = choose|k: int| 0 <= k < c.len() && c[k] == x;
        if k < a.len() {
            assert(a[k] == x);
        } else {
            assert(b[k - a.len()] == x);
        }
    }
    if a.contains(x) {
        let k = choose|k: int| 0 <= k < a.len() && a[k] == x;
        assert(c[k] == x);
    }
    if b.contains(x) {
        let k = choose|k: int| 0 <= k < b.len() && b[k] == x;
        assert(c[k + a.len()] == x);
    }
}

proof fn lemma_branch_if(types: Seq<ResourceType>, t: ResourceType, sql: Seq<char>, x: Seq<char>)
    ensures
        branch_if(types, t, sql).contains(x) <==> (types.contains(t) && x == sql),
{
    if types.contains(t) {
        assert(branch_if(types, t, sql)[0] == sql);
    }
}

#[verifier::spinoff_prover]
proof fn lemma_branches_hold(
    types: Seq<ResourceType>,
    with_freshness: bool,
    with_run_results: bool,
    x: Seq<char>,
)
    ensures
        branches(types, with_freshness, with_run_results).contains(x) <==> {
            ||| node_type_names(types).len() > 0 && x == nodes_branch(
                node_type_names(types),
                with_freshness,
                with_run_results,
            )
            ||| types.contains(ResourceType::Exposure) && x == EXPOSURES_BRANCH@
            ||| types.contains(ResourceType::Macro) && x == MACROS_BRANCH@
            ||| types.contains(ResourceType::Metric) && x == METRICS_BRANCH@
            ||| types.contains(ResourceType::SavedQuery) && x == SAVED_QUERIES_BRANCH@
            ||| types.contains(ResourceType::SemanticModel) && x == SEMANTIC_MODELS_BRANCH@
            ||| types.contains(ResourceType::Group) && x == GROUPS_BRANCH@
            ||| types.contains(ResourceType::UnitTest) && x == UNIT_TESTS_BRANCH@
        },
{
    let names = node_type_names(types);
    let a = if names.len() > 0 {
        seq![nodes_branch(names, with_freshness, with_run_results)]
    } else {
        Seq::<Seq<char>>::empty()
    };
    assert(a.contains(x) <==> (names.len() > 0 && x == nodes_branch(
        names,
        with_freshness,
        with_run_results,
    ))) by {
        if names.len() > 0 {
            assert(a[0] == nodes_branch(names, with_freshness, with_run_results));
        }
    }
    let pb = branch_if(types, ResourceType::Exposure, EXPOSURES_BRANCH@);
    let b = a + pb;
    lemma_branch_if(types, ResourceType::Exposure, EXPOSURES_BRANCH@, x);
    lemma_cat(a, pb, x);
    let pc = branch_if(types, ResourceType::Macro, MACROS_BRANCH@);
    let c = b + pc;
    lemma_branch_if(types, ResourceType::Macro, MACROS_BRANCH@, x);
    lemma_cat(b, pc, x);
    let pd = branch_if(types, ResourceType::Metric, METRICS_BRANCH@);
    let d = c + pd;
    lemma_branch_if(types, ResourceType::Metric, METRICS_BRANCH@, x);
    lemma_cat(c, pd, x);
    let pe = branch_if(types, ResourceType::SavedQuery, SAVED_QUERIES_BRANCH@);
    let e = d + pe;
    lemma_branch_if(types, ResourceType::SavedQuery, SAVED_QUERIES_BRANCH@, x);
    lemma_cat(d, pe, x);
    let pf = branch_if(types, ResourceType::SemanticModel, SEMANTIC_MODELS_BRANCH@);
    let f = e + pf;
    lemma_branch_if(types, ResourceType::SemanticModel, SEMANTIC_MODELS_BRANCH@, x);
    lemma_cat(e, pf, x);
    let pg = branch_if(types, ResourceType::Group, GROUPS_BRANCH@);
    let g = f + pg;
    lemma_branch_if(types, ResourceType::Group, GROUPS_BRANCH@, x);
    lemma_cat(f, pg, x);
    let ph = branch_if(types, ResourceType::UnitTest, UNIT_TESTS_BRANCH@);
    let h = g + ph;
    lemma_branch_if(types, ResourceType::UnitTest, UNIT_TESTS_BRANCH@, x);
    lemma_cat(g, ph, x);
}

/// Every type that is searched has a branch that gives its resources.
pub proof fn lemma_every_type_has_its_branch(
    types: Seq<ResourceType>,
    with_freshness: bool,
    with_run_results: bool,
    t: ResourceType,
)
    requires
        types.contains(t),
    ensures
        exists|sql: Seq<char>|
            branches(types, with_freshness, with_run_results).contains(sql)
                && #[trigger] is_branch_of(sql, t),
{
    lemma_own_branches();
    let sql = match t {
        ResourceType::Exposure => EXPOSURES_BRANCH@,
        ResourceType::Macro => MACROS_BRANCH@,
        ResourceType::Metric => METRICS_BRANCH@,
        ResourceType::SavedQuery => SAVED_QUERIES_BRANCH@,
        ResourceType::SemanticModel => SEMANTIC_MODELS_BRANCH@,
        ResourceType::Group => GROUPS_BRANCH@,
        ResourceType::UnitTest => UNIT_TESTS_BRANCH@,
        _ => nodes_branch(node_type_names(types), with_freshness, with_run_results),
    };
    if t.is_node() {
        lemma_node_type_names(types);
        let i = choose|i: int| 0 <= i < types.len() && types[i] == t;
        assert(types[i].is_node());
        let names = node_type_names(types);
        assert(names.contains(t.name()));
        lemma_node_branch_gives_its_types(names, with_freshness, with_run_results);
        assert(gives_nodes(sql, t.name()));
    }
    lemma_branches_hold(types, with_freshness, with_run_results, sql);
    assert(is_branch_of(sql, t));
}

/// Every branch gives the resources of a type that is searched.
pub proof fn lemma_every_branch_is_of_a_type(
    types: Seq<ResourceType>,
    with_freshness: bool,
    with_run_results: bool,
    sql: Seq<char>,
)
    requires
        branches(types, with_freshness, with_run_results).contains(sql),
    ensures
        exists|t: ResourceType| types.contains(t) && #[trigger] is_branch_of(sql, t),
{
    lemma_own_branches();
    lemma_branches_hold(types, with_freshness, with_run_results, sql);
    let names = node_type_names(types);
    if names.len() > 0 && sql == nodes_branch(names, with_freshness, with_run_results) {
        lemma_node_type_names(types);
        assert(names.contains(names[0]));
        let i = choose|i: int|
            0 <= i < types.len() && (#[trigger] types[i]).is_node() && types[i].name() == names[0];
        lemma_node_branch_gives_its_types(names, with_freshness, with_run_results);
        assert(gives_nodes(sql, types[i].name()));
        assert(is_branch_of(sql, types[i]));
    }
}

/// The types that stand among the nodes are those without a table of their own, so that no
/// resource stands in two branches.
pub proof fn lemma_a_type_stands_in_one_place(t: ResourceType)
    ensures
        t.is_node() <==> (t.name() == "model"@ || t.name() == "source"@ || t.name() == "seed"@
            || t.name() == "snapshot"@ || t.name() == "test"@),
        is_node_type(t.name()) <==> t.is_node(),
{
    lemma_type_names_read_back(t);
    lemma_type_names_read_back(ResourceType::Model);
    lemma_type_names_read_back(ResourceType::Source);
    lemma_type_names_read_back(ResourceType::Seed);
    lemma_type_names_read_back(ResourceType::Snapshot);
    lemma_type_names_read_back(ResourceType::Test);
}

proof fn lemma_types_in(all: Seq<ResourceType>, set: Set<ResourceType>, t: ResourceType)
    ensures
        types_in(all, set).contains(t) <==> (all.contains(t) && set.contains(t)),
    decreases all.len(),
{
    if all.len() > 0 {
        let front = all.drop_last();
        lemma_types_in(front, set, t);
        let before = types_in(front, set);
        let r = types_in(all, set);
        if all.contains(t) {
            let k = choose|k: int| 0 <= k < all.len() && all[k] == t;
            if k < front.len() {
                assert(front[k] == t);
                assert(front.contains(t));
            }
        }
        if front.contains(t) {
            let k = choose|k: int| 0 <= k < front.len() && front[k] == t;
            assert(all[k] == t);
        }
        assert(all[all.len() - 1] == all.last());
        if set.contains(all.last()) {
            assert(r == before.push(all.last()));
            assert(r[r.len() - 1] == all.last());
            if before.contains(t) {
                let k = choose|k: int| 0 <= k < before.len() && before[k] == t;
                assert(r[k] == t);
            }
            if r.contains(t) {
                let k = choose|k: int| 0 <= k < r.len() && r[k] == t;
                if k < before.len() {
                    assert(before[k] == t);
                    assert(before.contains(t));
                }
            }
        }
    }
}

/// A search goes over exactly the types that are asked for by name, and over all where
/// none is; but over models only where a filter is given that only models have.
pub proof fn lemma_search_goes_over_the_types_asked_for(params: SearchQueryParams, t: ResourceType)
    ensures
        search_types(params).contains(t) <==> {
            &&& given_text(params.type_filter) matches Some(raw) ==> csv(raw).contains(t.name())
            &&& given_text(params.modeling_layer) is Some || given_text(params.materialization) is Some
                ==> t.name() == "model"@
        },
{
    let all = all_types();
    assert(all.contains(t)) by {
        assert(all[0] == ResourceType::Model);
        assert(all[1] == ResourceType::Source);
        assert(all[2] == ResourceType::Seed);
        assert(all[3] == ResourceType::Snapshot);
        assert(all[4] == ResourceType::Test);
        assert(all[5] == ResourceType::UnitTest);
        assert(all[6] == ResourceType::Exposure);
        assert(all[7] == ResourceType::Metric);
        assert(all[8] == ResourceType::SemanticModel);
        assert(all[9] == ResourceType::SavedQuery);
        assert(all[10] == ResourceType::Macro);
        assert(all[11] == ResourceType::Group);
    }
    lemma_types_in(all, asked_types(params), t);
    lemma_types_in(all, asked_types(params).intersect(set![ResourceType::Model]), t);
    lemma_type_names_read_back(t);
    lemma_type_names_read_back(ResourceType::Model);
}

} // verus!
