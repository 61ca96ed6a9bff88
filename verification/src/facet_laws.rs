//! What the queries for counts, for the values of filters and for the views of a list mean.
use crate::exposures::EXPOSURE_OWNERS_FACET_SQL;
use crate::find::replaced;
use crate::macros::PACKAGES_FACET_SQL;
use crate::meaning::{
    both, equals, lemma_plain_literal, lemma_table_names, listed, literal, literals, reads,
    table_of, unioned, Expr, Item, Letters, Pred, Row,
};
use crate::models::{
    access_levels, CAT_CTES_BODY, MATERIALIZATIONS_FACET_SQL, OWNERS_FACET_SQL, ROW_COUNT_CTE_BODY,
    RR_CTE_BODY,
};
use crate::nodes::{row_count, CountedType, NodeCountsResponse, NODE_COUNTS_SQL};
use crate::project::PROJECT_SQL;
use crate::rank_laws::spaces;
use crate::search::{
    facet_access_levels, facet_layers, layer_branch, layers_facet, SEARCH_FACETS_ACCESSES_SQL,
    SEARCH_FACETS_MATERIALIZATIONS_SQL, SEARCH_FACETS_PACKAGES_SQL, SEARCH_FACETS_TAGS_SQL,
};
use crate::search_sql::layer_condition;
use crate::seeds::{LAST_RUN_CTE, ROW_COUNT_CTE};
use crate::table::Batch;
use vstd::prelude::*;

verus! {

// ---------------------------------------------------------------------------
// Counts by resource type
// ---------------------------------------------------------------------------

/// The types that are counted in tables of their own.
pub open spec fn tabled_types() -> Seq<Seq<char>> {
    seq![
        "exposure"@,
        "group"@,
        "macro"@,
        "metric"@,
        "saved_query"@,
        "semantic_model"@,
    ]
}

/// The count of the resources of a type in its own table, under the type.
pub open spec fn counted_sql(kind: Seq<char>) -> Seq<char> {
    "SELECT "@ + literal(kind) + spaces((14 - kind.len()) as nat)
        + " AS resource_type, COUNT(*) AS count FROM "@ + table_of(kind)
}

/// The counts of the query: the nodes, each under its own type, and the resources of every
/// type with a table of its own.
pub open spec fn counted_parts() -> Seq<Seq<char>> {
    seq![
        "SELECT resource_type, COUNT(*) AS count FROM dbt.nodes GROUP BY resource_type"@,
        counted_sql("exposure"@),
        counted_sql("group"@),
        counted_sql("macro"@),
        counted_sql("metric"@),
        counted_sql("saved_query"@),
        counted_sql("semantic_model"@),
    ]
}

proof fn lemma_counted_exposure()
    ensures
        counted_sql("exposure"@) == "SELECT 'exposure'       AS resource_type, COUNT(*) AS count FROM dbt.exposures"@,
{
    lemma_table_names();
    reveal_strlit("exposure");
    reveal_strlit("SELECT ");
    reveal_strlit(" AS resource_type, COUNT(*) AS count FROM ");
    reveal_strlit("dbt.exposures");
    reveal_strlit("SELECT 'exposure'       AS resource_type, COUNT(*) AS count FROM dbt.exposures");
    lemma_plain_literal("exposure"@);
    assert(counted_sql("exposure"@) =~= "SELECT 'exposure'       AS resource_type, COUNT(*) AS count FROM dbt.exposures"@);
}

proof fn lemma_counted_group()
    ensures
        counted_sql("group"@) == "SELECT 'group'          AS resource_type, COUNT(*) AS count FROM dbt.groups"@,
{
    lemma_table_names();
    reveal_strlit("group");
    reveal_strlit("SELECT ");
    reveal_strlit(" AS resource_type, COUNT(*) AS count FROM ");
    reveal_strlit("dbt.groups");
    reveal_strlit("SELECT 'group'          AS resource_type, COUNT(*) AS count FROM dbt.groups");
    lemma_plain_literal("group"@);
    assert(counted_sql("group"@) =~= "SELECT 'group'          AS resource_type, COUNT(*) AS count FROM dbt.groups"@);
}

proof fn lemma_counted_macro()
    ensures
        counted_sql("macro"@) == "SELECT 'macro'          AS resource_type, COUNT(*) AS count FROM dbt.macros"@,
{
    lemma_table_names();
    reveal_strlit("macro");
    reveal_strlit("SELECT ");
    reveal_strlit(" AS resource_type, COUNT(*) AS count FROM ");
    reveal_strlit("dbt.macros");
    reveal_strlit("SELECT 'macro'          AS resource_type, COUNT(*) AS count FROM dbt.macros");
    lemma_plain_literal("macro"@);
    assert(counted_sql("macro"@) =~= "SELECT 'macro'          AS resource_type, COUNT(*) AS count FROM dbt.macros"@);
}

proof fn lemma_counted_metric()
    ensures
        counted_sql("metric"@) == "SELECT 'metric'         AS resource_type, COUNT(*) AS count FROM dbt.metrics"@,
{
    lemma_table_names();
    reveal_strlit("metric");
    reveal_strlit("SELECT ");
    reveal_strlit(" AS resource_type, COUNT(*) AS count FROM ");
    reveal_strlit("dbt.metrics");
    reveal_strlit("SELECT 'metric'         AS resource_type, COUNT(*) AS count FROM dbt.metrics");
    lemma_plain_literal("metric"@);
    assert(counted_sql("metric"@) =~= "SELECT 'metric'         AS resource_type, COUNT(*) AS count FROM dbt.metrics"@);
}

proof fn lemma_counted_saved_query()
    ensures
        counted_sql("saved_query"@) == "SELECT 'saved_query'    AS resource_type, COUNT(*) AS count FROM dbt.saved_queries"@,
{
    lemma_table_names();
    reveal_strlit("saved_query");
    reveal_strlit("SELECT ");
    reveal_strlit(" AS resource_type, COUNT(*) AS count FROM ");
    reveal_strlit("dbt.saved_queries");
    reveal_strlit("SELECT 'saved_query'    AS resource_type, COUNT(*) AS count FROM dbt.saved_queries");
    lemma_plain_literal("saved_query"@);
    assert(counted_sql("saved_query"@) =~= "SELECT 'saved_query'    AS resource_type, COUNT(*) AS count FROM dbt.saved_queries"@);
}

proof fn lemma_counted_semantic_model()
    ensures
        counted_sql("semantic_model"@) == "SELECT 'semantic_model' AS resource_type, COUNT(*) AS count FROM dbt.semantic_models"@,
{
    lemma_table_names();
    reveal_strlit("semantic_model");
    reveal_strlit("SELECT ");
    reveal_strlit(" AS resource_type, COUNT(*) AS count FROM ");
    reveal_strlit("dbt.semantic_models");
    reveal_strlit("SELECT 'semantic_model' AS resource_type, COUNT(*) AS count FROM dbt.semantic_models");
    lemma_plain_literal("semantic_model"@);
    assert(counted_sql("semantic_model"@) =~= "SELECT 'semantic_model' AS resource_type, COUNT(*) AS count FROM dbt.semantic_models"@);
}

#[verifier::spinoff_prover]
#[verifier::rlimit(40)]
proof fn lemma_counts_upto_2()
    ensures
        unioned(counted_parts(), 2, " "@) == "SELECT resource_type, COUNT(*) AS count FROM dbt.nodes GROUP BY resource_type UNION ALL SELECT 'exposure'       AS resource_type, COUNT(*) AS count FROM dbt.exposures"@,
{
    lemma_counted_exposure();
    reveal_strlit(" ");
    reveal_strlit("UNION ALL");
    reveal_strlit("SELECT resource_type, COUNT(*) AS count FROM dbt.nodes GROUP BY resource_type");
    reveal_strlit("SELECT 'exposure'       AS resource_type, COUNT(*) AS count FROM dbt.exposures");
    reveal_strlit("SELECT resource_type, COUNT(*) AS count FROM dbt.nodes GROUP BY resource_type UNION ALL SELECT 'exposure'       AS resource_type, COUNT(*) AS count FROM dbt.exposures");
    let parts = counted_parts();
    assert(unioned(parts, 2, " "@) =~= unioned(parts, 1, " "@) + " "@ + "UNION ALL"@ + " "@
        + "SELECT 'exposure'       AS resource_type, COUNT(*) AS count FROM dbt.exposures"@) by {
        reveal_with_fuel(unioned, 3);
    }
    assert("SELECT resource_type, COUNT(*) AS count FROM dbt.nodes GROUP BY resource_type"@ + " "@ + "UNION ALL"@ + " "@ + "SELECT 'exposure'       AS resource_type, COUNT(*) AS count FROM dbt.exposures"@
        =~= "SELECT resource_type, COUNT(*) AS count FROM dbt.nodes GROUP BY resource_type UNION ALL SELECT 'exposure'       AS resource_type, COUNT(*) AS count FROM dbt.exposures"@);
}

#[verifier::spinoff_prover]
#[verifier::rlimit(40)]
proof fn lemma_counts_upto_3()
    ensures
        unioned(counted_parts(), 3, " "@) == "SELECT resource_type, COUNT(*) AS count FROM dbt.nodes GROUP BY resource_type UNION ALL SELECT 'exposure'       AS resource_type, COUNT(*) AS count FROM dbt.exposures UNION ALL SELECT 'group'          AS resource_type, COUNT(*) AS count FROM dbt.groups"@,
{
    lemma_counts_upto_2();
    lemma_counted_group();
    reveal_strlit(" ");
    reveal_strlit("UNION ALL");
    reveal_strlit("SELECT resource_type, COUNT(*) AS count FROM dbt.nodes GROUP BY resource_type UNION ALL SELECT 'exposure'       AS resource_type, COUNT(*) AS count FROM dbt.exposures");
    reveal_strlit("SELECT 'group'          AS resource_type, COUNT(*) AS count FROM dbt.groups");
    reveal_strlit("SELECT resource_type, COUNT(*) AS count FROM dbt.nodes GROUP BY resource_type UNION ALL SELECT 'exposure'       AS resource_type, COUNT(*) AS count FROM dbt.exposures UNION ALL SELECT 'group'          AS resource_type, COUNT(*) AS count FROM dbt.groups");
    let parts = counted_parts();
    assert(unioned(parts, 3, " "@) =~= unioned(parts, 2, " "@) + " "@ + "UNION ALL"@ + " "@
        + "SELECT 'group'          AS resource_type, COUNT(*) AS count FROM dbt.groups"@) by {
        reveal_with_fuel(unioned, 3);
    }
    assert("SELECT resource_type, COUNT(*) AS count FROM dbt.nodes GROUP BY resource_type UNION ALL SELECT 'exposure'       AS resource_type, COUNT(*) AS count FROM dbt.exposures"@ + " "@ + "UNION ALL"@ + " "@ + "SELECT 'group'          AS resource_type, COUNT(*) AS count FROM dbt.groups"@
        =~= "SELECT resource_type, COUNT(*) AS count FROM dbt.nodes GROUP BY resource_type UNION ALL SELECT 'exposure'       AS resource_type, COUNT(*) AS count FROM dbt.exposures UNION ALL SELECT 'group'          AS resource_type, COUNT(*) AS count FROM dbt.groups"@);
}

#[verifier::spinoff_prover]
#[verifier::rlimit(40)]
proof fn lemma_counts_upto_4()
    ensures
        unioned(counted_parts(), 4, " "@) == "SELECT resource_type, COUNT(*) AS count FROM dbt.nodes GROUP BY resource_type UNION ALL SELECT 'exposure'       AS resource_type, COUNT(*) AS count FROM dbt.exposures UNION ALL SELECT 'group'          AS resource_type, COUNT(*) AS count FROM dbt.groups UNION ALL SELECT 'macro'          AS resource_type, COUNT(*) AS count FROM dbt.macros"@,
{
    lemma_counts_upto_3();
    lemma_counted_macro();
    reveal_strlit(" ");
    reveal_strlit("UNION ALL");
    reveal_strlit("SELECT resource_type, COUNT(*) AS count FROM dbt.nodes GROUP BY resource_type UNION ALL SELECT 'exposure'       AS resource_type, COUNT(*) AS count FROM dbt.exposures UNION ALL SELECT 'group'          AS resource_type, COUNT(*) AS count FROM dbt.groups");
    reveal_strlit("SELECT 'macro'          AS resource_type, COUNT(*) AS count FROM dbt.macros");
    reveal_strlit("SELECT resource_type, COUNT(*) AS count FROM dbt.nodes GROUP BY resource_type UNION ALL SELECT 'exposure'       AS resource_type, COUNT(*) AS count FROM dbt.exposures UNION ALL SELECT 'group'          AS resource_type, COUNT(*) AS count FROM dbt.groups UNION ALL SELECT 'macro'          AS resource_type, COUNT(*) AS count FROM dbt.macros");
    let parts = counted_parts();
    assert(unioned(parts, 4, " "@) =~= unioned(parts, 3, " "@) + " "@ + "UNION ALL"@ + " "@
        + "SELECT 'macro'          AS resource_type, COUNT(*) AS count FROM dbt.macros"@) by {
        reveal_with_fuel(unioned, 3);
    }
    assert("SELECT resource_type, COUNT(*) AS count FROM dbt.nodes GROUP BY resource_type UNION ALL SELECT 'exposure'       AS resource_type, COUNT(*) AS count FROM dbt.exposures UNION ALL SELECT 'group'          AS resource_type, COUNT(*) AS count FROM dbt.groups"@ + " "@ + "UNION ALL"@ + " "@ + "SELECT 'macro'          AS resource_type, COUNT(*) AS count FROM dbt.macros"@
        =~= "SELECT resource_type, COUNT(*) AS count FROM dbt.nodes GROUP BY resource_type UNION ALL SELECT 'exposure'       AS resource_type, COUNT(*) AS count FROM dbt.exposures UNION ALL SELECT 'group'          AS resource_type, COUNT(*) AS count FROM dbt.groups UNION ALL SELECT 'macro'          AS resource_type, COUNT(*) AS count FROM dbt.macros"@);
}

#[verifier::spinoff_prover]
#[verifier::rlimit(40)]
proof fn lemma_counts_upto_5()
    ensures
        unioned(counted_parts(), 5, " "@) == "SELECT resource_type, COUNT(*) AS count FROM dbt.nodes GROUP BY resource_type UNION ALL SELECT 'exposure'       AS resource_type, COUNT(*) AS count FROM dbt.exposures UNION ALL SELECT 'group'          AS resource_type, COUNT(*) AS count FROM dbt.groups UNION ALL SELECT 'macro'          AS resource_type, COUNT(*) AS count FROM dbt.macros UNION ALL SELECT 'metric'         AS resource_type, COUNT(*) AS count FROM dbt.metrics"@,
{
    lemma_counts_upto_4();
    lemma_counted_metric();
    reveal_strlit(" ");
    reveal_strlit("UNION ALL");
    reveal_strlit("SELECT resource_type, COUNT(*) AS count FROM dbt.nodes GROUP BY resource_type UNION ALL SELECT 'exposure'       AS resource_type, COUNT(*) AS count FROM dbt.exposures UNION ALL SELECT 'group'          AS resource_type, COUNT(*) AS count FROM dbt.groups UNION ALL SELECT 'macro'          AS resource_type, COUNT(*) AS count FROM dbt.macros");
    reveal_strlit("SELECT 'metric'         AS resource_type, COUNT(*) AS count FROM dbt.metrics");
    reveal_strlit("SELECT resource_type, COUNT(*) AS count FROM dbt.nodes GROUP BY resource_type UNION ALL SELECT 'exposure'       AS resource_type, COUNT(*) AS count FROM dbt.exposures UNION ALL SELECT 'group'          AS resource_type, COUNT(*) AS count FROM dbt.groups UNION ALL SELECT 'macro'          AS resource_type, COUNT(*) AS count FROM dbt.macros UNION ALL SELECT 'metric'         AS resource_type, COUNT(*) AS count FROM dbt.metrics");
    let parts = counted_parts();
    assert(unioned(parts, 5, " "@) =~= unioned(parts, 4, " "@) + " "@ + "UNION ALL"@ + " "@
        + "SELECT 'metric'         AS resource_type, COUNT(*) AS count FROM dbt.metrics"@) by {
        reveal_with_fuel(unioned, 3);
    }
    assert("SELECT resource_type, COUNT(*) AS count FROM dbt.nodes GROUP BY resource_type UNION ALL SELECT 'exposure'       AS resource_type, COUNT(*) AS count FROM dbt.exposures UNION ALL SELECT 'group'          AS resource_type, COUNT(*) AS count FROM dbt.groups UNION ALL SELECT 'macro'          AS resource_type, COUNT(*) AS count FROM dbt.macros"@ + " "@ + "UNION ALL"@ + " "@ + "SELECT 'metric'         AS resource_type, COUNT(*) AS count FROM dbt.metrics"@
        =~= "SELECT resource_type, COUNT(*) AS count FROM dbt.nodes GROUP BY resource_type UNION ALL SELECT 'exposure'       AS resource_type, COUNT(*) AS count FROM dbt.exposures UNION ALL SELECT 'group'          AS resource_type, COUNT(*) AS count FROM dbt.groups UNION ALL SELECT 'macro'          AS resource_type, COUNT(*) AS count FROM dbt.macros UNION ALL SELECT 'metric'         AS resource_type, COUNT(*) AS count FROM dbt.metrics"@);
}

#[verifier::spinoff_prover]
#[verifier::rlimit(40)]
proof fn lemma_counts_upto_6()
    ensures
        unioned(counted_parts(), 6, " "@) == "SELECT resource_type, COUNT(*) AS count FROM dbt.nodes GROUP BY resource_type UNION ALL SELECT 'exposure'       AS resource_type, COUNT(*) AS count FROM dbt.exposures UNION ALL SELECT 'group'          AS resource_type, COUNT(*) AS count FROM dbt.groups UNION ALL SELECT 'macro'          AS resource_type, COUNT(*) AS count FROM dbt.macros UNION ALL SELECT 'metric'         AS resource_type, COUNT(*) AS count FROM dbt.metrics UNION ALL SELECT 'saved_query'    AS resource_type, COUNT(*) AS count FROM dbt.saved_queries"@,
{
    lemma_counts_upto_5();
    lemma_counted_saved_query();
    reveal_strlit(" ");
    reveal_strlit("UNION ALL");
    reveal_strlit("SELECT resource_type, COUNT(*) AS count FROM dbt.nodes GROUP BY resource_type UNION ALL SELECT 'exposure'       AS resource_type, COUNT(*) AS count FROM dbt.exposures UNION ALL SELECT 'group'          AS resource_type, COUNT(*) AS count FROM dbt.groups UNION ALL SELECT 'macro'          AS resource_type, COUNT(*) AS count FROM dbt.macros UNION ALL SELECT 'metric'         AS resource_type, COUNT(*) AS count FROM dbt.metrics");
    reveal_strlit("SELECT 'saved_query'    AS resource_type, COUNT(*) AS count FROM dbt.saved_queries");
    reveal_strlit("SELECT resource_type, COUNT(*) AS count FROM dbt.nodes GROUP BY resource_type UNION ALL SELECT 'exposure'       AS resource_type, COUNT(*) AS count FROM dbt.exposures UNION ALL SELECT 'group'          AS resource_type, COUNT(*) AS count FROM dbt.groups UNION ALL SELECT 'macro'          AS resource_type, COUNT(*) AS count FROM dbt.macros UNION ALL SELECT 'metric'         AS resource_type, COUNT(*) AS count FROM dbt.metrics UNION ALL SELECT 'saved_query'    AS resource_type, COUNT(*) AS count FROM dbt.saved_queries");
    let parts = counted_parts();
    assert(unioned(parts, 6, " "@) =~= unioned(parts, 5, " "@) + " "@ + "UNION ALL"@ + " "@
        + "SELECT 'saved_query'    AS resource_type, COUNT(*) AS count FROM dbt.saved_queries"@) by {
        reveal_with_fuel(unioned, 3);
    }
    assert("SELECT resource_type, COUNT(*) AS count FROM dbt.nodes GROUP BY resource_type UNION ALL SELECT 'exposure'       AS resource_type, COUNT(*) AS count FROM dbt.exposures UNION ALL SELECT 'group'          AS resource_type, COUNT(*) AS count FROM dbt.groups UNION ALL SELECT 'macro'          AS resource_type, COUNT(*) AS count FROM dbt.macros UNION ALL SELECT 'metric'         AS resource_type, COUNT(*) AS count FROM dbt.metrics"@ + " "@ + "UNION ALL"@ + " "@ + "SELECT 'saved_query'    AS resource_type, COUNT(*) AS count FROM dbt.saved_queries"@
        =~= "SELECT resource_type, COUNT(*) AS count FROM dbt.nodes GROUP BY resource_type UNION ALL SELECT 'exposure'       AS resource_type, COUNT(*) AS count FROM dbt.exposures UNION ALL SELECT 'group'          AS resource_type, COUNT(*) AS count FROM dbt.groups UNION ALL SELECT 'macro'          AS resource_type, COUNT(*) AS count FROM dbt.macros UNION ALL SELECT 'metric'         AS resource_type, COUNT(*) AS count FROM dbt.metrics UNION ALL SELECT 'saved_query'    AS resource_type, COUNT(*) AS count FROM dbt.saved_queries"@);
}

#[verifier::spinoff_prover]
#[verifier::rlimit(40)]
proof fn lemma_counts_upto_7()
    ensures
        unioned(counted_parts(), 7, " "@) == "SELECT resource_type, COUNT(*) AS count FROM dbt.nodes GROUP BY resource_type UNION ALL SELECT 'exposure'       AS resource_type, COUNT(*) AS count FROM dbt.exposures UNION ALL SELECT 'group'          AS resource_type, COUNT(*) AS count FROM dbt.groups UNION ALL SELECT 'macro'          AS resource_type, COUNT(*) AS count FROM dbt.macros UNION ALL SELECT 'metric'         AS resource_type, COUNT(*) AS count FROM dbt.metrics UNION ALL SELECT 'saved_query'    AS resource_type, COUNT(*) AS count FROM dbt.saved_queries UNION ALL SELECT 'semantic_model' AS resource_type, COUNT(*) AS count FROM dbt.semantic_models"@,
{
    lemma_counts_upto_6();
    lemma_counted_semantic_model();
    reveal_strlit(" ");
    reveal_strlit("UNION ALL");
    reveal_strlit("SELECT resource_type, COUNT(*) AS count FROM dbt.nodes GROUP BY resource_type UNION ALL SELECT 'exposure'       AS resource_type, COUNT(*) AS count FROM dbt.exposures UNION ALL SELECT 'group'          AS resource_type, COUNT(*) AS count FROM dbt.groups UNION ALL SELECT 'macro'          AS resource_type, COUNT(*) AS count FROM dbt.macros UNION ALL SELECT 'metric'         AS resource_type, COUNT(*) AS count FROM dbt.metrics UNION ALL SELECT 'saved_query'    AS resource_type, COUNT(*) AS count FROM dbt.saved_queries");
    reveal_strlit("SELECT 'semantic_model' AS resource_type, COUNT(*) AS count FROM dbt.semantic_models");
    reveal_strlit("SELECT resource_type, COUNT(*) AS count FROM dbt.nodes GROUP BY resource_type UNION ALL SELECT 'exposure'       AS resource_type, COUNT(*) AS count FROM dbt.exposures UNION ALL SELECT 'group'          AS resource_type, COUNT(*) AS count FROM dbt.groups UNION ALL SELECT 'macro'          AS resource_type, COUNT(*) AS count FROM dbt.macros UNION ALL SELECT 'metric'         AS resource_type, COUNT(*) AS count FROM dbt.metrics UNION ALL SELECT 'saved_query'    AS resource_type, COUNT(*) AS count FROM dbt.saved_queries UNION ALL SELECT 'semantic_model' AS resource_type, COUNT(*) AS count FROM dbt.semantic_models");
    let parts = counted_parts();
    assert(unioned(parts, 7, " "@) =~= unioned(parts, 6, " "@) + " "@ + "UNION ALL"@ + " "@
        + "SELECT 'semantic_model' AS resource_type, COUNT(*) AS count FROM dbt.semantic_models"@) by {
        reveal_with_fuel(unioned, 3);
    }
    assert("SELECT resource_type, COUNT(*) AS count FROM dbt.nodes GROUP BY resource_type UNION ALL SELECT 'exposure'       AS resource_type, COUNT(*) AS count FROM dbt.exposures UNION ALL SELECT 'group'          AS resource_type, COUNT(*) AS count FROM dbt.groups UNION ALL SELECT 'macro'          AS resource_type, COUNT(*) AS count FROM dbt.macros UNION ALL SELECT 'metric'         AS resource_type, COUNT(*) AS count FROM dbt.metrics UNION ALL SELECT 'saved_query'    AS resource_type, COUNT(*) AS count FROM dbt.saved_queries"@ + " "@ + "UNION ALL"@ + " "@ + "SELECT 'semantic_model' AS resource_type, COUNT(*) AS count FROM dbt.semantic_models"@
        =~= "SELECT resource_type, COUNT(*) AS count FROM dbt.nodes GROUP BY resource_type UNION ALL SELECT 'exposure'       AS resource_type, COUNT(*) AS count FROM dbt.exposures UNION ALL SELECT 'group'          AS resource_type, COUNT(*) AS count FROM dbt.groups UNION ALL SELECT 'macro'          AS resource_type, COUNT(*) AS count FROM dbt.macros UNION ALL SELECT 'metric'         AS resource_type, COUNT(*) AS count FROM dbt.metrics UNION ALL SELECT 'saved_query'    AS resource_type, COUNT(*) AS count FROM dbt.saved_queries UNION ALL SELECT 'semantic_model' AS resource_type, COUNT(*) AS count FROM dbt.semantic_models"@);
}

/// Each resource is counted once: a node under its own type, any other under the type that
/// its table holds.
#[verifier::spinoff_prover]
#[verifier::rlimit(60)]
pub proof fn lemma_each_table_counts_under_its_type()
    ensures
        NODE_COUNTS_SQL@ == "WITH raw AS ("@ + unioned(counted_parts(), 7, " "@)
            + " ) SELECT resource_type, CAST(SUM(count) AS BIGINT) AS count FROM raw GROUP BY resource_type ORDER BY resource_type"@,
        forall|i: int|
            0 <= i < tabled_types().len() ==> counted_parts()[i + 1] == counted_sql(
                #[trigger] tabled_types()[i],
            ),
{
    lemma_counts_upto_7();
    reveal_strlit("WITH raw AS (");
    reveal_strlit(" ) SELECT resource_type, CAST(SUM(count) AS BIGINT) AS count FROM raw GROUP BY resource_type ORDER BY resource_type");
    reveal_strlit("SELECT resource_type, COUNT(*) AS count FROM dbt.nodes GROUP BY resource_type UNION ALL SELECT 'exposure'       AS resource_type, COUNT(*) AS count FROM dbt.exposures UNION ALL SELECT 'group'          AS resource_type, COUNT(*) AS count FROM dbt.groups UNION ALL SELECT 'macro'          AS resource_type, COUNT(*) AS count FROM dbt.macros UNION ALL SELECT 'metric'         AS resource_type, COUNT(*) AS count FROM dbt.metrics UNION ALL SELECT 'saved_query'    AS resource_type, COUNT(*) AS count FROM dbt.saved_queries UNION ALL SELECT 'semantic_model' AS resource_type, COUNT(*) AS count FROM dbt.semantic_models");
    reveal_strlit(
        "\
WITH raw AS (\
  SELECT resource_type, COUNT(*) AS count FROM dbt.nodes GROUP BY resource_type \
  UNION ALL \
  SELECT 'exposure'       AS resource_type, COUNT(*) AS count FROM dbt.exposures \
  UNION ALL \
  SELECT 'group'          AS resource_type, COUNT(*) AS count FROM dbt.groups \
  UNION ALL \
  SELECT 'macro'          AS resource_type, COUNT(*) AS count FROM dbt.macros \
  UNION ALL \
  SELECT 'metric'         AS resource_type, COUNT(*) AS count FROM dbt.metrics \
  UNION ALL \
  SELECT 'saved_query'    AS resource_type, COUNT(*) AS count FROM dbt.saved_queries \
  UNION ALL \
  SELECT 'semantic_model' AS resource_type, COUNT(*) AS count FROM dbt.semantic_models \
) \
SELECT resource_type, CAST(SUM(count) AS BIGINT) AS count \
FROM raw \
GROUP BY resource_type \
ORDER BY resource_type",
    );
    assert(NODE_COUNTS_SQL@ =~= "WITH raw AS ("@ + "SELECT resource_type, COUNT(*) AS count FROM dbt.nodes GROUP BY resource_type UNION ALL SELECT 'exposure'       AS resource_type, COUNT(*) AS count FROM dbt.exposures UNION ALL SELECT 'group'          AS resource_type, COUNT(*) AS count FROM dbt.groups UNION ALL SELECT 'macro'          AS resource_type, COUNT(*) AS count FROM dbt.macros UNION ALL SELECT 'metric'         AS resource_type, COUNT(*) AS count FROM dbt.metrics UNION ALL SELECT 'saved_query'    AS resource_type, COUNT(*) AS count FROM dbt.saved_queries UNION ALL SELECT 'semantic_model' AS resource_type, COUNT(*) AS count FROM dbt.semantic_models"@ + " ) SELECT resource_type, CAST(SUM(count) AS BIGINT) AS count FROM raw GROUP BY resource_type ORDER BY resource_type"@);
}

/// The name of a type that is counted.
pub open spec fn counted_name(t: CountedType) -> Seq<char> {
    match t {
        CountedType::Analysis => "analysis"@,
        CountedType::Exposure => "exposure"@,
        CountedType::Function => "function"@,
        CountedType::Group => "group"@,
        CountedType::Macro => "macro"@,
        CountedType::Metric => "metric"@,
        CountedType::Model => "model"@,
        CountedType::SavedQuery => "saved_query"@,
        CountedType::Seed => "seed"@,
        CountedType::SemanticModel => "semantic_model"@,
        CountedType::Snapshot => "snapshot"@,
        CountedType::Source => "source"@,
        CountedType::Test => "test"@,
    }
}

/// Resources of a type count for that type and for no other; unit tests count as tests.
#[verifier::spinoff_prover]
#[verifier::rlimit(40)]
pub proof fn lemma_types_count_under_their_names(t: CountedType, name: Seq<char>)
    ensures
        CountedType::named(name) == Some(t) <==> (name == counted_name(t) || t == CountedType::Test
            && name == "unit_test"@),
{
    reveal_strlit("analysis");
    reveal_strlit("exposure");
    reveal_strlit("function");
    reveal_strlit("group");
    reveal_strlit("macro");
    reveal_strlit("metric");
    reveal_strlit("model");
    reveal_strlit("saved_query");
    reveal_strlit("seed");
    reveal_strlit("semantic_model");
    reveal_strlit("snapshot");
    reveal_strlit("source");
    reveal_strlit("test");
    reveal_strlit("unit_test");
    assert("analysis"@.len() == 8 && "exposure"@.len() == 8 && "function"@.len() == 8 && "group"@.len() == 5 && "macro"@.len() == 5 && "metric"@.len() == 6 && "model"@.len() == 5 && "saved_query"@.len() == 11 && "seed"@.len() == 4 && "semantic_model"@.len() == 14 && "snapshot"@.len() == 8 && "source"@.len() == 6 && "test"@.len() == 4 && "unit_test"@.len() == 9);
    assert("analysis"@[0] == 'a' && "exposure"@[0] == 'e' && "function"@[0] == 'f' && "snapshot"@[0] == 's');
    assert("group"@[1] == 'r' && "macro"@[1] == 'a' && "model"@[1] == 'o');
    assert("metric"@[0] == 'm' && "source"@[0] == 's');
    assert("seed"@[0] == 's' && "test"@[0] == 't');
}

/// A row counts for the type that it names, and for no other.
pub proof fn lemma_rows_count_for_their_type(batch: Batch, row: int, t: CountedType, name: String)
    requires
        batch.opt_text("resource_type"@, row) == Some(name),
    ensures
        name@ == counted_name(t) || t == CountedType::Test && name@ == "unit_test"@ ==> row_count(
            batch,
            row,
            t,
        ) == batch.number("count"@, row),
        name@ != counted_name(t) && !(t == CountedType::Test && name@ == "unit_test"@)
            ==> row_count(batch, row, t) == 0,
{
    lemma_types_count_under_their_names(t, name@);
}

/// The count of a type is the field of its name.
pub proof fn lemma_counts_are_fields(r: NodeCountsResponse)
    ensures
        r.get(CountedType::Analysis) == r.analysis,
        r.get(CountedType::Exposure) == r.exposure,
        r.get(CountedType::Function) == r.function,
        r.get(CountedType::Group) == r.group,
        r.get(CountedType::Macro) == r.macro_,
        r.get(CountedType::Metric) == r.metric,
        r.get(CountedType::Model) == r.model,
        r.get(CountedType::SavedQuery) == r.saved_query,
        r.get(CountedType::Seed) == r.seed,
        r.get(CountedType::SemanticModel) == r.semantic_model,
        r.get(CountedType::Snapshot) == r.snapshot,
        r.get(CountedType::Source) == r.source,
        r.get(CountedType::Test) == r.test,
{
}

// ---------------------------------------------------------------------------
// Values of filters
// ---------------------------------------------------------------------------

/// The condition that resources have a value, and that they are models if that is asked.
pub open spec fn valued(column: Seq<char>, models: bool) -> Pred {
    if models {
        both(equals("resource_type"@, "model"@), Pred::NotNull(Expr::Of(column)))
    } else {
        Pred::NotNull(Expr::Of(column))
    }
}

/// The values of a column, each once.
pub open spec fn values_sql(
    column: Seq<char>,
    name: Seq<char>,
    table: Seq<char>,
    models: bool,
    order: Seq<char>,
) -> Seq<char> {
    "SELECT DISTINCT "@ + column + " AS "@ + name + " FROM "@ + table + " WHERE "@ + valued(
        column,
        models,
    ).sql() + " ORDER BY "@ + order
}

/// The values of a column of models, each with the number of models that have it.
pub open spec fn counted_values_sql(note: Seq<char>, column: Seq<char>) -> Seq<char> {
    "/* facets:"@ + note + " */ SELECT "@ + column + " AS value, COUNT(*) AS cnt FROM dbt.nodes WHERE "@
        + valued(column, true).sql() + " GROUP BY "@ + column + " ORDER BY value"@
}

proof fn lemma_valued(column: Seq<char>)
    ensures
        valued(column, true).sql() == "resource_type = 'model' AND "@ + column + " IS NOT NULL"@,
        valued(column, false).sql() == column + " IS NOT NULL"@,
{
    reveal_with_fuel(Pred::sql, 3);
    reveal_with_fuel(Expr::sql, 2);
    reveal_strlit("model");
    reveal_strlit("resource_type");
    reveal_strlit(" = ");
    reveal_strlit(" AND ");
    reveal_strlit("resource_type = 'model' AND ");
    reveal_strlit(" IS NOT NULL");
    lemma_plain_literal("model"@);
    assert(equals("resource_type"@, "model"@).sql() == "resource_type"@ + " = "@ + literal("model"@));
    assert("resource_type = 'model' AND "@ =~= "resource_type"@ + " = "@ + literal("model"@) + " AND "@);
    assert(valued(column, true).sql() =~= "resource_type = 'model' AND "@ + column + " IS NOT NULL"@);
}

/// The values that a filter offers are those of the column that it goes by, of the
/// resources that are listed.
#[verifier::spinoff_prover]
#[verifier::rlimit(80)]
pub proof fn lemma_filters_offer_the_values_that_are_there()
    ensures
        OWNERS_FACET_SQL@ == "SELECT DISTINCT "@ + "name"@ + " AS "@ + "owner"@ + " FROM "@ + table_of(
            "group"@,
        ) + " ORDER BY "@ + "owner"@,
        MATERIALIZATIONS_FACET_SQL@ == values_sql(
            "materialized"@,
            "value"@,
            table_of("node"@),
            true,
            "value"@,
        ),
        EXPOSURE_OWNERS_FACET_SQL@ == values_sql(
            "owner_name"@,
            "value"@,
            table_of("exposure"@),
            false,
            "owner_name"@,
        ),
        PACKAGES_FACET_SQL@ == values_sql(
            "package_name"@,
            "value"@,
            table_of("macro"@),
            false,
            "value"@,
        ),
        SEARCH_FACETS_ACCESSES_SQL@ == counted_values_sql("access"@, "access_level"@),
        SEARCH_FACETS_MATERIALIZATIONS_SQL@ == counted_values_sql("mat"@, "materialized"@),
{
    lemma_table_names();
    lemma_valued("materialized"@);
    lemma_valued("owner_name"@);
    lemma_valued("package_name"@);
    lemma_valued("access_level"@);
    reveal_strlit("SELECT DISTINCT ");
    reveal_strlit("name");
    reveal_strlit(" AS ");
    reveal_strlit("owner");
    reveal_strlit(" FROM ");
    reveal_strlit("dbt.groups");
    reveal_strlit("dbt.nodes");
    reveal_strlit("dbt.exposures");
    reveal_strlit("dbt.macros");
    reveal_strlit(" ORDER BY ");
    reveal_strlit("materialized");
    reveal_strlit("value");
    reveal_strlit("owner_name");
    reveal_strlit("package_name");
    reveal_strlit(" WHERE ");
    reveal_strlit("resource_type = 'model' AND ");
    reveal_strlit(" IS NOT NULL");
    reveal_strlit("/* facets:");
    reveal_strlit(" */ SELECT ");
    reveal_strlit(" AS value, COUNT(*) AS cnt FROM dbt.nodes WHERE ");
    reveal_strlit(" GROUP BY ");
    reveal_strlit(" ORDER BY value");
    reveal_strlit("access");
    reveal_strlit("mat");
    reveal_strlit("access_level");
    reveal_strlit(
        "\
SELECT DISTINCT name AS owner \
FROM dbt.groups \
ORDER BY owner",
    );
    reveal_strlit(
        "\
SELECT DISTINCT materialized AS value \
FROM dbt.nodes \
WHERE resource_type = 'model' \
  AND materialized IS NOT NULL \
ORDER BY value",
    );
    reveal_strlit(
        "\
SELECT DISTINCT owner_name AS value \
FROM dbt.exposures \
WHERE owner_name IS NOT NULL \
ORDER BY owner_name",
    );
    reveal_strlit(
        "\
SELECT DISTINCT package_name AS value \
FROM dbt.macros \
WHERE package_name IS NOT NULL \
ORDER BY value",
    );
    reveal_strlit(
        "\
/* facets:access */ \
SELECT access_level AS value, COUNT(*) AS cnt \
FROM dbt.nodes \
WHERE resource_type = 'model' AND access_level IS NOT NULL \
GROUP BY access_level \
ORDER BY value",
    );
    reveal_strlit(
        "\
/* facets:mat */ \
SELECT materialized AS value, COUNT(*) AS cnt \
FROM dbt.nodes \
WHERE resource_type = 'model' AND materialized IS NOT NULL \
GROUP BY materialized \
ORDER BY value",
    );
    assert(OWNERS_FACET_SQL@ =~= "SELECT DISTINCT "@ + "name"@ + " AS "@ + "owner"@ + " FROM "@
        + "dbt.groups"@ + " ORDER BY "@ + "owner"@);
    assert(MATERIALIZATIONS_FACET_SQL@ =~= "SELECT DISTINCT "@ + "materialized"@ + " AS "@ + "value"@
        + " FROM "@ + "dbt.nodes"@ + " WHERE "@ + ("resource_type = 'model' AND "@ + "materialized"@
        + " IS NOT NULL"@) + " ORDER BY "@ + "value"@);
    assert(EXPOSURE_OWNERS_FACET_SQL@ =~= "SELECT DISTINCT "@ + "owner_name"@ + " AS "@ + "value"@
        + " FROM "@ + "dbt.exposures"@ + " WHERE "@ + ("owner_name"@ + " IS NOT NULL"@)
        + " ORDER BY "@ + "owner_name"@);
    assert(PACKAGES_FACET_SQL@ =~= "SELECT DISTINCT "@ + "package_name"@ + " AS "@ + "value"@
        + " FROM "@ + "dbt.macros"@ + " WHERE "@ + ("package_name"@ + " IS NOT NULL"@)
        + " ORDER BY "@ + "value"@);
    assert(SEARCH_FACETS_ACCESSES_SQL@ =~= "/* facets:"@ + "access"@ + " */ SELECT "@
        + "access_level"@ + " AS value, COUNT(*) AS cnt FROM dbt.nodes WHERE "@ + (
    "resource_type = 'model' AND "@ + "access_level"@ + " IS NOT NULL"@) + " GROUP BY "@
        + "access_level"@ + " ORDER BY value"@);
    assert(SEARCH_FACETS_MATERIALIZATIONS_SQL@ =~= "/* facets:"@ + "mat"@ + " */ SELECT "@
        + "materialized"@ + " AS value, COUNT(*) AS cnt FROM dbt.nodes WHERE "@ + (
    "resource_type = 'model' AND "@ + "materialized"@ + " IS NOT NULL"@) + " GROUP BY "@
        + "materialized"@ + " ORDER BY value"@);
}

/// The packages of the resources of a table.
pub open spec fn packages_sql(kind: Seq<char>) -> Seq<char> {
    "SELECT package_name AS pkg FROM "@ + table_of(kind) + " WHERE package_name IS NOT NULL"@
}

/// The tags of the resources of a table.
pub open spec fn tags_sql(kind: Seq<char>) -> Seq<char> {
    "SELECT unnest(tags) AS value FROM "@ + table_of(kind) + " WHERE tags IS NOT NULL"@
}

/// The parts of the query.
pub open spec fn packages_are_of_every_table_parts() -> Seq<Seq<char>> {
    seq![
        packages_sql("node"@),
        packages_sql("macro"@),
        packages_sql("exposure"@),
        packages_sql("metric"@),
        packages_sql("saved_query"@),
        packages_sql("semantic_model"@),
        packages_sql("group"@),
        packages_sql("unit_test"@),
    ]
}

proof fn lemma_packages_are_of_every_table_node()
    ensures
        packages_sql("node"@) == "SELECT package_name AS pkg FROM dbt.nodes WHERE package_name IS NOT NULL"@,
{
    lemma_table_names();
    reveal_strlit("SELECT package_name AS pkg FROM ");
    reveal_strlit(" WHERE package_name IS NOT NULL");
    reveal_strlit("dbt.nodes");
    reveal_strlit("SELECT package_name AS pkg FROM dbt.nodes WHERE package_name IS NOT NULL");
    assert(packages_sql("node"@) =~= "SELECT package_name AS pkg FROM dbt.nodes WHERE package_name IS NOT NULL"@);
}

proof fn lemma_packages_are_of_every_table_macro()
    ensures
        packages_sql("macro"@) == "SELECT package_name AS pkg FROM dbt.macros WHERE package_name IS NOT NULL"@,
{
    lemma_table_names();
    reveal_strlit("SELECT package_name AS pkg FROM ");
    reveal_strlit(" WHERE package_name IS NOT NULL");
    reveal_strlit("dbt.macros");
    reveal_strlit("SELECT package_name AS pkg FROM dbt.macros WHERE package_name IS NOT NULL");
    assert(packages_sql("macro"@) =~= "SELECT package_name AS pkg FROM dbt.macros WHERE package_name IS NOT NULL"@);
}

proof fn lemma_packages_are_of_every_table_exposure()
    ensures
        packages_sql("exposure"@) == "SELECT package_name AS pkg FROM dbt.exposures WHERE package_name IS NOT NULL"@,
{
    lemma_table_names();
    reveal_strlit("SELECT package_name AS pkg FROM ");
    reveal_strlit(" WHERE package_name IS NOT NULL");
    reveal_strlit("dbt.exposures");
    reveal_strlit("SELECT package_name AS pkg FROM dbt.exposures WHERE package_name IS NOT NULL");
    assert(packages_sql("exposure"@) =~= "SELECT package_name AS pkg FROM dbt.exposures WHERE package_name IS NOT NULL"@);
}

proof fn lemma_packages_are_of_every_table_metric()
    ensures
        packages_sql("metric"@) == "SELECT package_name AS pkg FROM dbt.metrics WHERE package_name IS NOT NULL"@,
{
    lemma_table_names();
    reveal_strlit("SELECT package_name AS pkg FROM ");
    reveal_strlit(" WHERE package_name IS NOT NULL");
    reveal_strlit("dbt.metrics");
    reveal_strlit("SELECT package_name AS pkg FROM dbt.metrics WHERE package_name IS NOT NULL");
    assert(packages_sql("metric"@) =~= "SELECT package_name AS pkg FROM dbt.metrics WHERE package_name IS NOT NULL"@);
}

proof fn lemma_packages_are_of_every_table_saved_query()
    ensures
        packages_sql("saved_query"@) == "SELECT package_name AS pkg FROM dbt.saved_queries WHERE package_name IS NOT NULL"@,
{
    lemma_table_names();
    reveal_strlit("SELECT package_name AS pkg FROM ");
    reveal_strlit(" WHERE package_name IS NOT NULL");
    reveal_strlit("dbt.saved_queries");
    reveal_strlit("SELECT package_name AS pkg FROM dbt.saved_queries WHERE package_name IS NOT NULL");
    assert(packages_sql("saved_query"@) =~= "SELECT package_name AS pkg FROM dbt.saved_queries WHERE package_name IS NOT NULL"@);
}

proof fn lemma_packages_are_of_every_table_semantic_model()
    ensures
        packages_sql("semantic_model"@) == "SELECT package_name AS pkg FROM dbt.semantic_models WHERE package_name IS NOT NULL"@,
{
    lemma_table_names();
    reveal_strlit("SELECT package_name AS pkg FROM ");
    reveal_strlit(" WHERE package_name IS NOT NULL");
    reveal_strlit("dbt.semantic_models");
    reveal_strlit("SELECT package_name AS pkg FROM dbt.semantic_models WHERE package_name IS NOT NULL");
    assert(packages_sql("semantic_model"@) =~= "SELECT package_name AS pkg FROM dbt.semantic_models WHERE package_name IS NOT NULL"@);
}

proof fn lemma_packages_are_of_every_table_group()
    ensures
        packages_sql("group"@) == "SELECT package_name AS pkg FROM dbt.groups WHERE package_name IS NOT NULL"@,
{
    lemma_table_names();
    reveal_strlit("SELECT package_name AS pkg FROM ");
    reveal_strlit(" WHERE package_name IS NOT NULL");
    reveal_strlit("dbt.groups");
    reveal_strlit("SELECT package_name AS pkg FROM dbt.groups WHERE package_name IS NOT NULL");
    assert(packages_sql("group"@) =~= "SELECT package_name AS pkg FROM dbt.groups WHERE package_name IS NOT NULL"@);
}

proof fn lemma_packages_are_of_every_table_unit_test()
    ensures
        packages_sql("unit_test"@) == "SELECT package_name AS pkg FROM dbt.unit_tests WHERE package_name IS NOT NULL"@,
{
    lemma_table_names();
    reveal_strlit("SELECT package_name AS pkg FROM ");
    reveal_strlit(" WHERE package_name IS NOT NULL");
    reveal_strlit("dbt.unit_tests");
    reveal_strlit("SELECT package_name AS pkg FROM dbt.unit_tests WHERE package_name IS NOT NULL");
    assert(packages_sql("unit_test"@) =~= "SELECT package_name AS pkg FROM dbt.unit_tests WHERE package_name IS NOT NULL"@);
}

#[verifier::spinoff_prover]
#[verifier::rlimit(40)]
proof fn lemma_packages_are_of_every_table_upto_2()
    ensures
        unioned(packages_are_of_every_table_parts(), 2, " "@) == "SELECT package_name AS pkg FROM dbt.nodes WHERE package_name IS NOT NULL UNION ALL SELECT package_name AS pkg FROM dbt.macros WHERE package_name IS NOT NULL"@,
{
    lemma_packages_are_of_every_table_macro();
    lemma_packages_are_of_every_table_node();
    reveal_strlit(" ");
    reveal_strlit("UNION ALL");
    reveal_strlit("SELECT package_name AS pkg FROM dbt.nodes WHERE package_name IS NOT NULL");
    reveal_strlit("SELECT package_name AS pkg FROM dbt.macros WHERE package_name IS NOT NULL");
    reveal_strlit("SELECT package_name AS pkg FROM dbt.nodes WHERE package_name IS NOT NULL UNION ALL SELECT package_name AS pkg FROM dbt.macros WHERE package_name IS NOT NULL");
    let parts = packages_are_of_every_table_parts();
    assert(unioned(parts, 2, " "@) =~= unioned(parts, 1, " "@) + " "@ + "UNION ALL"@ + " "@
        + "SELECT package_name AS pkg FROM dbt.macros WHERE package_name IS NOT NULL"@) by {
        reveal_with_fuel(unioned, 3);
    }
    assert("SELECT package_name AS pkg FROM dbt.nodes WHERE package_name IS NOT NULL"@ + " "@ + "UNION ALL"@ + " "@ + "SELECT package_name AS pkg FROM dbt.macros WHERE package_name IS NOT NULL"@
        =~= "SELECT package_name AS pkg FROM dbt.nodes WHERE package_name IS NOT NULL UNION ALL SELECT package_name AS pkg FROM dbt.macros WHERE package_name IS NOT NULL"@);
}

#[verifier::spinoff_prover]
#[verifier::rlimit(40)]
proof fn lemma_packages_are_of_every_table_upto_3()
    ensures
        unioned(packages_are_of_every_table_parts(), 3, " "@) == "SELECT package_name AS pkg FROM dbt.nodes WHERE package_name IS NOT NULL UNION ALL SELECT package_name AS pkg FROM dbt.macros WHERE package_name IS NOT NULL UNION ALL SELECT package_name AS pkg FROM dbt.exposures WHERE package_name IS NOT NULL"@,
{
    lemma_packages_are_of_every_table_upto_2();
    lemma_packages_are_of_every_table_exposure();
    reveal_strlit(" ");
    reveal_strlit("UNION ALL");
    reveal_strlit("SELECT package_name AS pkg FROM dbt.nodes WHERE package_name IS NOT NULL UNION ALL SELECT package_name AS pkg FROM dbt.macros WHERE package_name IS NOT NULL");
    reveal_strlit("SELECT package_name AS pkg FROM dbt.exposures WHERE package_name IS NOT NULL");
    reveal_strlit("SELECT package_name AS pkg FROM dbt.nodes WHERE package_name IS NOT NULL UNION ALL SELECT package_name AS pkg FROM dbt.macros WHERE package_name IS NOT NULL UNION ALL SELECT package_name AS pkg FROM dbt.exposures WHERE package_name IS NOT NULL");
    let parts = packages_are_of_every_table_parts();
    assert(unioned(parts, 3, " "@) =~= unioned(parts, 2, " "@) + " "@ + "UNION ALL"@ + " "@
        + "SELECT package_name AS pkg FROM dbt.exposures WHERE package_name IS NOT NULL"@) by {
        reveal_with_fuel(unioned, 3);
    }
    assert("SELECT package_name AS pkg FROM dbt.nodes WHERE package_name IS NOT NULL UNION ALL SELECT package_name AS pkg FROM dbt.macros WHERE package_name IS NOT NULL"@ + " "@ + "UNION ALL"@ + " "@ + "SELECT package_name AS pkg FROM dbt.exposures WHERE package_name IS NOT NULL"@
        =~= "SELECT package_name AS pkg FROM dbt.nodes WHERE package_name IS NOT NULL UNION ALL SELECT package_name AS pkg FROM dbt.macros WHERE package_name IS NOT NULL UNION ALL SELECT package_name AS pkg FROM dbt.exposures WHERE package_name IS NOT NULL"@);
}

#[verifier::spinoff_prover]
#[verifier::rlimit(40)]
proof fn lemma_packages_are_of_every_table_upto_4()
    ensures
        unioned(packages_are_of_every_table_parts(), 4, " "@) == "SELECT package_name AS pkg FROM dbt.nodes WHERE package_name IS NOT NULL UNION ALL SELECT package_name AS pkg FROM dbt.macros WHERE package_name IS NOT NULL UNION ALL SELECT package_name AS pkg FROM dbt.exposures WHERE package_name IS NOT NULL UNION ALL SELECT package_name AS pkg FROM dbt.metrics WHERE package_name IS NOT NULL"@,
{
    lemma_packages_are_of_every_table_upto_3();
    lemma_packages_are_of_every_table_metric();
    reveal_strlit(" ");
    reveal_strlit("UNION ALL");
    reveal_strlit("SELECT package_name AS pkg FROM dbt.nodes WHERE package_name IS NOT NULL UNION ALL SELECT package_name AS pkg FROM dbt.macros WHERE package_name IS NOT NULL UNION ALL SELECT package_name AS pkg FROM dbt.exposures WHERE package_name IS NOT NULL");
    reveal_strlit("SELECT package_name AS pkg FROM dbt.metrics WHERE package_name IS NOT NULL");
    reveal_strlit("SELECT package_name AS pkg FROM dbt.nodes WHERE package_name IS NOT NULL UNION ALL SELECT package_name AS pkg FROM dbt.macros WHERE package_name IS NOT NULL UNION ALL SELECT package_name AS pkg FROM dbt.exposures WHERE package_name IS NOT NULL UNION ALL SELECT package_name AS pkg FROM dbt.metrics WHERE package_name IS NOT NULL");
    let parts = packages_are_of_every_table_parts();
    assert(unioned(parts, 4, " "@) =~= unioned(parts, 3, " "@) + " "@ + "UNION ALL"@ + " "@
        + "SELECT package_name AS pkg FROM dbt.metrics WHERE package_name IS NOT NULL"@) by {
        reveal_with_fuel(unioned, 3);
    }
    assert("SELECT package_name AS pkg FROM dbt.nodes WHERE package_name IS NOT NULL UNION ALL SELECT package_name AS pkg FROM dbt.macros WHERE package_name IS NOT NULL UNION ALL SELECT package_name AS pkg FROM dbt.exposures WHERE package_name IS NOT NULL"@ + " "@ + "UNION ALL"@ + " "@ + "SELECT package_name AS pkg FROM dbt.metrics WHERE package_name IS NOT NULL"@
        =~= "SELECT package_name AS pkg FROM dbt.nodes WHERE package_name IS NOT NULL UNION ALL SELECT package_name AS pkg FROM dbt.macros WHERE package_name IS NOT NULL UNION ALL SELECT package_name AS pkg FROM dbt.exposures WHERE package_name IS NOT NULL UNION ALL SELECT package_name AS pkg FROM dbt.metrics WHERE package_name IS NOT NULL"@);
}

#[verifier::spinoff_prover]
#[verifier::rlimit(40)]
proof fn lemma_packages_are_of_every_table_upto_5()
    ensures
        unioned(packages_are_of_every_table_parts(), 5, " "@) == "SELECT package_name AS pkg FROM dbt.nodes WHERE package_name IS NOT NULL UNION ALL SELECT package_name AS pkg FROM dbt.macros WHERE package_name IS NOT NULL UNION ALL SELECT package_name AS pkg FROM dbt.exposures WHERE package_name IS NOT NULL UNION ALL SELECT package_name AS pkg FROM dbt.metrics WHERE package_name IS NOT NULL UNION ALL SELECT package_name AS pkg FROM dbt.saved_queries WHERE package_name IS NOT NULL"@,
{
    lemma_packages_are_of_every_table_upto_4();
    lemma_packages_are_of_every_table_saved_query();
    reveal_strlit(" ");
    reveal_strlit("UNION ALL");
    reveal_strlit("SELECT package_name AS pkg FROM dbt.nodes WHERE package_name IS NOT NULL UNION ALL SELECT package_name AS pkg FROM dbt.macros WHERE package_name IS NOT NULL UNION ALL SELECT package_name AS pkg FROM dbt.exposures WHERE package_name IS NOT NULL UNION ALL SELECT package_name AS pkg FROM dbt.metrics WHERE package_name IS NOT NULL");
    reveal_strlit("SELECT package_name AS pkg FROM dbt.saved_queries WHERE package_name IS NOT NULL");
    reveal_strlit("SELECT package_name AS pkg FROM dbt.nodes WHERE package_name IS NOT NULL UNION ALL SELECT package_name AS pkg FROM dbt.macros WHERE package_name IS NOT NULL UNION ALL SELECT package_name AS pkg FROM dbt.exposures WHERE package_name IS NOT NULL UNION ALL SELECT package_name AS pkg FROM dbt.metrics WHERE package_name IS NOT NULL UNION ALL SELECT package_name AS pkg FROM dbt.saved_queries WHERE package_name IS NOT NULL");
    let parts = packages_are_of_every_table_parts();
    assert(unioned(parts, 5, " "@) =~= unioned(parts, 4, " "@) + " "@ + "UNION ALL"@ + " "@
        + "SELECT package_name AS pkg FROM dbt.saved_queries WHERE package_name IS NOT NULL"@) by {
        reveal_with_fuel(unioned, 3);
    }
    assert("SELECT package_name AS pkg FROM dbt.nodes WHERE package_name IS NOT NULL UNION ALL SELECT package_name AS pkg FROM dbt.macros WHERE package_name IS NOT NULL UNION ALL SELECT package_name AS pkg FROM dbt.exposures WHERE package_name IS NOT NULL UNION ALL SELECT package_name AS pkg FROM dbt.metrics WHERE package_name IS NOT NULL"@ + " "@ + "UNION ALL"@ + " "@ + "SELECT package_name AS pkg FROM dbt.saved_queries WHERE package_name IS NOT NULL"@
        =~= "SELECT package_name AS pkg FROM dbt.nodes WHERE package_name IS NOT NULL UNION ALL SELECT package_name AS pkg FROM dbt.macros WHERE package_name IS NOT NULL UNION ALL SELECT package_name AS pkg FROM dbt.exposures WHERE package_name IS NOT NULL UNION ALL SELECT package_name AS pkg FROM dbt.metrics WHERE package_name IS NOT NULL UNION ALL SELECT package_name AS pkg FROM dbt.saved_queries WHERE package_name IS NOT NULL"@);
}

#[verifier::spinoff_prover]
#[verifier::rlimit(40)]
proof fn lemma_packages_are_of_every_table_upto_6()
    ensures
        unioned(packages_are_of_every_table_parts(), 6, " "@) == "SELECT package_name AS pkg FROM dbt.nodes WHERE package_name IS NOT NULL UNION ALL SELECT package_name AS pkg FROM dbt.macros WHERE package_name IS NOT NULL UNION ALL SELECT package_name AS pkg FROM dbt.exposures WHERE package_name IS NOT NULL UNION ALL SELECT package_name AS pkg FROM dbt.metrics WHERE package_name IS NOT NULL UNION ALL SELECT package_name AS pkg FROM dbt.saved_queries WHERE package_name IS NOT NULL UNION ALL SELECT package_name AS pkg FROM dbt.semantic_models WHERE package_name IS NOT NULL"@,
{
    lemma_packages_are_of_every_table_upto_5();
    lemma_packages_are_of_every_table_semantic_model();
    reveal_strlit(" ");
    reveal_strlit("UNION ALL");
    reveal_strlit("SELECT package_name AS pkg FROM dbt.nodes WHERE package_name IS NOT NULL UNION ALL SELECT package_name AS pkg FROM dbt.macros WHERE package_name IS NOT NULL UNION ALL SELECT package_name AS pkg FROM dbt.exposures WHERE package_name IS NOT NULL UNION ALL SELECT package_name AS pkg FROM dbt.metrics WHERE package_name IS NOT NULL UNION ALL SELECT package_name AS pkg FROM dbt.saved_queries WHERE package_name IS NOT NULL");
    reveal_strlit("SELECT package_name AS pkg FROM dbt.semantic_models WHERE package_name IS NOT NULL");
    reveal_strlit("SELECT package_name AS pkg FROM dbt.nodes WHERE package_name IS NOT NULL UNION ALL SELECT package_name AS pkg FROM dbt.macros WHERE package_name IS NOT NULL UNION ALL SELECT package_name AS pkg FROM dbt.exposures WHERE package_name IS NOT NULL UNION ALL SELECT package_name AS pkg FROM dbt.metrics WHERE package_name IS NOT NULL UNION ALL SELECT package_name AS pkg FROM dbt.saved_queries WHERE package_name IS NOT NULL UNION ALL SELECT package_name AS pkg FROM dbt.semantic_models WHERE package_name IS NOT NULL");
    let parts = packages_are_of_every_table_parts();
    assert(unioned(parts, 6, " "@) =~= unioned(parts, 5, " "@) + " "@ + "UNION ALL"@ + " "@
        + "SELECT package_name AS pkg FROM dbt.semantic_models WHERE package_name IS NOT NULL"@) by {
        reveal_with_fuel(unioned, 3);
    }
    assert("SELECT package_name AS pkg FROM dbt.nodes WHERE package_name IS NOT NULL UNION ALL SELECT package_name AS pkg FROM dbt.macros WHERE package_name IS NOT NULL UNION ALL SELECT package_name AS pkg FROM dbt.exposures WHERE package_name IS NOT NULL UNION ALL SELECT package_name AS pkg FROM dbt.metrics WHERE package_name IS NOT NULL UNION ALL SELECT package_name AS pkg FROM dbt.saved_queries WHERE package_name IS NOT NULL"@ + " "@ + "UNION ALL"@ + " "@ + "SELECT package_name AS pkg FROM dbt.semantic_models WHERE package_name IS NOT NULL"@
        =~= "SELECT package_name AS pkg FROM dbt.nodes WHERE package_name IS NOT NULL UNION ALL SELECT package_name AS pkg FROM dbt.macros WHERE package_name IS NOT NULL UNION ALL SELECT package_name AS pkg FROM dbt.exposures WHERE package_name IS NOT NULL UNION ALL SELECT package_name AS pkg FROM dbt.metrics WHERE package_name IS NOT NULL UNION ALL SELECT package_name AS pkg FROM dbt.saved_queries WHERE package_name IS NOT NULL UNION ALL SELECT package_name AS pkg FROM dbt.semantic_models WHERE package_name IS NOT NULL"@);
}

#[verifier::spinoff_prover]
#[verifier::rlimit(40)]
proof fn lemma_packages_are_of_every_table_upto_7()
    ensures
        unioned(packages_are_of_every_table_parts(), 7, " "@) == "SELECT package_name AS pkg FROM dbt.nodes WHERE package_name IS NOT NULL UNION ALL SELECT package_name AS pkg FROM dbt.macros WHERE package_name IS NOT NULL UNION ALL SELECT package_name AS pkg FROM dbt.exposures WHERE package_name IS NOT NULL UNION ALL SELECT package_name AS pkg FROM dbt.metrics WHERE package_name IS NOT NULL UNION ALL SELECT package_name AS pkg FROM dbt.saved_queries WHERE package_name IS NOT NULL UNION ALL SELECT package_name AS pkg FROM dbt.semantic_models WHERE package_name IS NOT NULL UNION ALL SELECT package_name AS pkg FROM dbt.groups WHERE package_name IS NOT NULL"@,
{
    lemma_packages_are_of_every_table_upto_6();
    lemma_packages_are_of_every_table_group();
    reveal_strlit(" ");
    reveal_strlit("UNION ALL");
    reveal_strlit("SELECT package_name AS pkg FROM dbt.nodes WHERE package_name IS NOT NULL UNION ALL SELECT package_name AS pkg FROM dbt.macros WHERE package_name IS NOT NULL UNION ALL SELECT package_name AS pkg FROM dbt.exposures WHERE package_name IS NOT NULL UNION ALL SELECT package_name AS pkg FROM dbt.metrics WHERE package_name IS NOT NULL UNION ALL SELECT package_name AS pkg FROM dbt.saved_queries WHERE package_name IS NOT NULL UNION ALL SELECT package_name AS pkg FROM dbt.semantic_models WHERE package_name IS NOT NULL");
    reveal_strlit("SELECT package_name AS pkg FROM dbt.groups WHERE package_name IS NOT NULL");
    reveal_strlit("SELECT package_name AS pkg FROM dbt.nodes WHERE package_name IS NOT NULL UNION ALL SELECT package_name AS pkg FROM dbt.macros WHERE package_name IS NOT NULL UNION ALL SELECT package_name AS pkg FROM dbt.exposures WHERE package_name IS NOT NULL UNION ALL SELECT package_name AS pkg FROM dbt.metrics WHERE package_name IS NOT NULL UNION ALL SELECT package_name AS pkg FROM dbt.saved_queries WHERE package_name IS NOT NULL UNION ALL SELECT package_name AS pkg FROM dbt.semantic_models WHERE package_name IS NOT NULL UNION ALL SELECT package_name AS pkg FROM dbt.groups WHERE package_name IS NOT NULL");
    let parts = packages_are_of_every_table_parts();
    assert(unioned(parts, 7, " "@) =~= unioned(parts, 6, " "@) + " "@ + "UNION ALL"@ + " "@
        + "SELECT package_name AS pkg FROM dbt.groups WHERE package_name IS NOT NULL"@) by {
        reveal_with_fuel(unioned, 3);
    }
    assert("SELECT package_name AS pkg FROM dbt.nodes WHERE package_name IS NOT NULL UNION ALL SELECT package_name AS pkg FROM dbt.macros WHERE package_name IS NOT NULL UNION ALL SELECT package_name AS pkg FROM dbt.exposures WHERE package_name IS NOT NULL UNION ALL SELECT package_name AS pkg FROM dbt.metrics WHERE package_name IS NOT NULL UNION ALL SELECT package_name AS pkg FROM dbt.saved_queries WHERE package_name IS NOT NULL UNION ALL SELECT package_name AS pkg FROM dbt.semantic_models WHERE package_name IS NOT NULL"@ + " "@ + "UNION ALL"@ + " "@ + "SELECT package_name AS pkg FROM dbt.groups WHERE package_name IS NOT NULL"@
        =~= "SELECT package_name AS pkg FROM dbt.nodes WHERE package_name IS NOT NULL UNION ALL SELECT package_name AS pkg FROM dbt.macros WHERE package_name IS NOT NULL UNION ALL SELECT package_name AS pkg FROM dbt.exposures WHERE package_name IS NOT NULL UNION ALL SELECT package_name AS pkg FROM dbt.metrics WHERE package_name IS NOT NULL UNION ALL SELECT package_name AS pkg FROM dbt.saved_queries WHERE package_name IS NOT NULL UNION ALL SELECT package_name AS pkg FROM dbt.semantic_models WHERE package_name IS NOT NULL UNION ALL SELECT package_name AS pkg FROM dbt.groups WHERE package_name IS NOT NULL"@);
}

#[verifier::spinoff_prover]
#[verifier::rlimit(40)]
proof fn lemma_packages_are_of_every_table_upto_8()
    ensures
        unioned(packages_are_of_every_table_parts(), 8, " "@) == "SELECT package_name AS pkg FROM dbt.nodes WHERE package_name IS NOT NULL UNION ALL SELECT package_name AS pkg FROM dbt.macros WHERE package_name IS NOT NULL UNION ALL SELECT package_name AS pkg FROM dbt.exposures WHERE package_name IS NOT NULL UNION ALL SELECT package_name AS pkg FROM dbt.metrics WHERE package_name IS NOT NULL UNION ALL SELECT package_name AS pkg FROM dbt.saved_queries WHERE package_name IS NOT NULL UNION ALL SELECT package_name AS pkg FROM dbt.semantic_models WHERE package_name IS NOT NULL UNION ALL SELECT package_name AS pkg FROM dbt.groups WHERE package_name IS NOT NULL UNION ALL SELECT package_name AS pkg FROM dbt.unit_tests WHERE package_name IS NOT NULL"@,
{
    lemma_packages_are_of_every_table_upto_7();
    lemma_packages_are_of_every_table_unit_test();
    reveal_strlit(" ");
    reveal_strlit("UNION ALL");
    reveal_strlit("SELECT package_name AS pkg FROM dbt.nodes WHERE package_name IS NOT NULL UNION ALL SELECT package_name AS pkg FROM dbt.macros WHERE package_name IS NOT NULL UNION ALL SELECT package_name AS pkg FROM dbt.exposures WHERE package_name IS NOT NULL UNION ALL SELECT package_name AS pkg FROM dbt.metrics WHERE package_name IS NOT NULL UNION ALL SELECT package_name AS pkg FROM dbt.saved_queries WHERE package_name IS NOT NULL UNION ALL SELECT package_name AS pkg FROM dbt.semantic_models WHERE package_name IS NOT NULL UNION ALL SELECT package_name AS pkg FROM dbt.groups WHERE package_name IS NOT NULL");
    reveal_strlit("SELECT package_name AS pkg FROM dbt.unit_tests WHERE package_name IS NOT NULL");
    reveal_strlit("SELECT package_name AS pkg FROM dbt.nodes WHERE package_name IS NOT NULL UNION ALL SELECT package_name AS pkg FROM dbt.macros WHERE package_name IS NOT NULL UNION ALL SELECT package_name AS pkg FROM dbt.exposures WHERE package_name IS NOT NULL UNION ALL SELECT package_name AS pkg FROM dbt.metrics WHERE package_name IS NOT NULL UNION ALL SELECT package_name AS pkg FROM dbt.saved_queries WHERE package_name IS NOT NULL UNION ALL SELECT package_name AS pkg FROM dbt.semantic_models WHERE package_name IS NOT NULL UNION ALL SELECT package_name AS pkg FROM dbt.groups WHERE package_name IS NOT NULL UNION ALL SELECT package_name AS pkg FROM dbt.unit_tests WHERE package_name IS NOT NULL");
    let parts = packages_are_of_every_table_parts();
    assert(unioned(parts, 8, " "@) =~= unioned(parts, 7, " "@) + " "@ + "UNION ALL"@ + " "@
        + "SELECT package_name AS pkg FROM dbt.unit_tests WHERE package_name IS NOT NULL"@) by {
        reveal_with_fuel(unioned, 3);
    }
    assert("SELECT package_name AS pkg FROM dbt.nodes WHERE package_name IS NOT NULL UNION ALL SELECT package_name AS pkg FROM dbt.macros WHERE package_name IS NOT NULL UNION ALL SELECT package_name AS pkg FROM dbt.exposures WHERE package_name IS NOT NULL UNION ALL SELECT package_name AS pkg FROM dbt.metrics WHERE package_name IS NOT NULL UNION ALL SELECT package_name AS pkg FROM dbt.saved_queries WHERE package_name IS NOT NULL UNION ALL SELECT package_name AS pkg FROM dbt.semantic_models WHERE package_name IS NOT NULL UNION ALL SELECT package_name AS pkg FROM dbt.groups WHERE package_name IS NOT NULL"@ + " "@ + "UNION ALL"@ + " "@ + "SELECT package_name AS pkg FROM dbt.unit_tests WHERE package_name IS NOT NULL"@
        =~= "SELECT package_name AS pkg FROM dbt.nodes WHERE package_name IS NOT NULL UNION ALL SELECT package_name AS pkg FROM dbt.macros WHERE package_name IS NOT NULL UNION ALL SELECT package_name AS pkg FROM dbt.exposures WHERE package_name IS NOT NULL UNION ALL SELECT package_name AS pkg FROM dbt.metrics WHERE package_name IS NOT NULL UNION ALL SELECT package_name AS pkg FROM dbt.saved_queries WHERE package_name IS NOT NULL UNION ALL SELECT package_name AS pkg FROM dbt.semantic_models WHERE package_name IS NOT NULL UNION ALL SELECT package_name AS pkg FROM dbt.groups WHERE package_name IS NOT NULL UNION ALL SELECT package_name AS pkg FROM dbt.unit_tests WHERE package_name IS NOT NULL"@);
}

/// The packages that a search can be narrowed to are those of the resources of every table.
#[verifier::spinoff_prover]
#[verifier::rlimit(80)]
pub proof fn lemma_packages_are_of_every_table()
    ensures
        SEARCH_FACETS_PACKAGES_SQL@ == "/* facets:pkg */ SELECT pkg AS value, COUNT(*) AS cnt FROM ("@ + unioned(packages_are_of_every_table_parts(), 8, " "@) + ") t GROUP BY pkg ORDER BY pkg"@,
{
    lemma_packages_are_of_every_table_upto_8();
    reveal_strlit("/* facets:pkg */ SELECT pkg AS value, COUNT(*) AS cnt FROM (");
    reveal_strlit(") t GROUP BY pkg ORDER BY pkg");
    reveal_strlit("SELECT package_name AS pkg FROM dbt.nodes WHERE package_name IS NOT NULL UNION ALL SELECT package_name AS pkg FROM dbt.macros WHERE package_name IS NOT NULL UNION ALL SELECT package_name AS pkg FROM dbt.exposures WHERE package_name IS NOT NULL UNION ALL SELECT package_name AS pkg FROM dbt.metrics WHERE package_name IS NOT NULL UNION ALL SELECT package_name AS pkg FROM dbt.saved_queries WHERE package_name IS NOT NULL UNION ALL SELECT package_name AS pkg FROM dbt.semantic_models WHERE package_name IS NOT NULL UNION ALL SELECT package_name AS pkg FROM dbt.groups WHERE package_name IS NOT NULL UNION ALL SELECT package_name AS pkg FROM dbt.unit_tests WHERE package_name IS NOT NULL");
    reveal_strlit(
        "\
/* facets:pkg */ \
SELECT pkg AS value, COUNT(*) AS cnt FROM (\
  SELECT package_name AS pkg FROM dbt.nodes WHERE package_name IS NOT NULL \
  UNION ALL \
  SELECT package_name AS pkg FROM dbt.macros WHERE package_name IS NOT NULL \
  UNION ALL \
  SELECT package_name AS pkg FROM dbt.exposures WHERE package_name IS NOT NULL \
  UNION ALL \
  SELECT package_name AS pkg FROM dbt.metrics WHERE package_name IS NOT NULL \
  UNION ALL \
  SELECT package_name AS pkg FROM dbt.saved_queries WHERE package_name IS NOT NULL \
  UNION ALL \
  SELECT package_name AS pkg FROM dbt.semantic_models WHERE package_name IS NOT NULL \
  UNION ALL \
  SELECT package_name AS pkg FROM dbt.groups WHERE package_name IS NOT NULL \
  UNION ALL \
  SELECT package_name AS pkg FROM dbt.unit_tests WHERE package_name IS NOT NULL\
) t \
GROUP BY pkg \
ORDER BY pkg",
    );
    assert(SEARCH_FACETS_PACKAGES_SQL@ =~= "/* facets:pkg */ SELECT pkg AS value, COUNT(*) AS cnt FROM ("@ + "SELECT package_name AS pkg FROM dbt.nodes WHERE package_name IS NOT NULL UNION ALL SELECT package_name AS pkg FROM dbt.macros WHERE package_name IS NOT NULL UNION ALL SELECT package_name AS pkg FROM dbt.exposures WHERE package_name IS NOT NULL UNION ALL SELECT package_name AS pkg FROM dbt.metrics WHERE package_name IS NOT NULL UNION ALL SELECT package_name AS pkg FROM dbt.saved_queries WHERE package_name IS NOT NULL UNION ALL SELECT package_name AS pkg FROM dbt.semantic_models WHERE package_name IS NOT NULL UNION ALL SELECT package_name AS pkg FROM dbt.groups WHERE package_name IS NOT NULL UNION ALL SELECT package_name AS pkg FROM dbt.unit_tests WHERE package_name IS NOT NULL"@ + ") t GROUP BY pkg ORDER BY pkg"@);
}

/// The parts of the query.
pub open spec fn tags_are_of_every_table_with_tags_parts() -> Seq<Seq<char>> {
    seq![
        tags_sql("node"@),
        tags_sql("exposure"@),
        tags_sql("metric"@),
        tags_sql("saved_query"@),
        "SELECT unnest((json_extract(config, '$.tags'))::VARCHAR[]) AS value FROM dbt.semantic_models WHERE json_extract(config, '$.tags') IS NOT NULL"@,
    ]
}

proof fn lemma_tags_are_of_every_table_with_tags_node()
    ensures
        tags_sql("node"@) == "SELECT unnest(tags) AS value FROM dbt.nodes WHERE tags IS NOT NULL"@,
{
    lemma_table_names();
    reveal_strlit("SELECT unnest(tags) AS value FROM ");
    reveal_strlit(" WHERE tags IS NOT NULL");
    reveal_strlit("dbt.nodes");
    reveal_strlit("SELECT unnest(tags) AS value FROM dbt.nodes WHERE tags IS NOT NULL");
    assert(tags_sql("node"@) =~= "SELECT unnest(tags) AS value FROM dbt.nodes WHERE tags IS NOT NULL"@);
}

proof fn lemma_tags_are_of_every_table_with_tags_exposure()
    ensures
        tags_sql("exposure"@) == "SELECT unnest(tags) AS value FROM dbt.exposures WHERE tags IS NOT NULL"@,
{
    lemma_table_names();
    reveal_strlit("SELECT unnest(tags) AS value FROM ");
    reveal_strlit(" WHERE tags IS NOT NULL");
    reveal_strlit("dbt.exposures");
    reveal_strlit("SELECT unnest(tags) AS value FROM dbt.exposures WHERE tags IS NOT NULL");
    assert(tags_sql("exposure"@) =~= "SELECT unnest(tags) AS value FROM dbt.exposures WHERE tags IS NOT NULL"@);
}

proof fn lemma_tags_are_of_every_table_with_tags_metric()
    ensures
        tags_sql("metric"@) == "SELECT unnest(tags) AS value FROM dbt.metrics WHERE tags IS NOT NULL"@,
{
    lemma_table_names();
    reveal_strlit("SELECT unnest(tags) AS value FROM ");
    reveal_strlit(" WHERE tags IS NOT NULL");
    reveal_strlit("dbt.metrics");
    reveal_strlit("SELECT unnest(tags) AS value FROM dbt.metrics WHERE tags IS NOT NULL");
    assert(tags_sql("metric"@) =~= "SELECT unnest(tags) AS value FROM dbt.metrics WHERE tags IS NOT NULL"@);
}

proof fn lemma_tags_are_of_every_table_with_tags_saved_query()
    ensures
        tags_sql("saved_query"@) == "SELECT unnest(tags) AS value FROM dbt.saved_queries WHERE tags IS NOT NULL"@,
{
    lemma_table_names();
    reveal_strlit("SELECT unnest(tags) AS value FROM ");
    reveal_strlit(" WHERE tags IS NOT NULL");
    reveal_strlit("dbt.saved_queries");
    reveal_strlit("SELECT unnest(tags) AS value FROM dbt.saved_queries WHERE tags IS NOT NULL");
    assert(tags_sql("saved_query"@) =~= "SELECT unnest(tags) AS value FROM dbt.saved_queries WHERE tags IS NOT NULL"@);
}

#[verifier::spinoff_prover]
#[verifier::rlimit(40)]
proof fn lemma_tags_are_of_every_table_with_tags_upto_2()
    ensures
        unioned(tags_are_of_every_table_with_tags_parts(), 2, " "@) == "SELECT unnest(tags) AS value FROM dbt.nodes WHERE tags IS NOT NULL UNION ALL SELECT unnest(tags) AS value FROM dbt.exposures WHERE tags IS NOT NULL"@,
{
    lemma_tags_are_of_every_table_with_tags_exposure();
    lemma_tags_are_of_every_table_with_tags_node();
    reveal_strlit(" ");
    reveal_strlit("UNION ALL");
    reveal_strlit("SELECT unnest(tags) AS value FROM dbt.nodes WHERE tags IS NOT NULL");
    reveal_strlit("SELECT unnest(tags) AS value FROM dbt.exposures WHERE tags IS NOT NULL");
    reveal_strlit("SELECT unnest(tags) AS value FROM dbt.nodes WHERE tags IS NOT NULL UNION ALL SELECT unnest(tags) AS value FROM dbt.exposures WHERE tags IS NOT NULL");
    let parts = tags_are_of_every_table_with_tags_parts();
    assert(unioned(parts, 2, " "@) =~= unioned(parts, 1, " "@) + " "@ + "UNION ALL"@ + " "@
        + "SELECT unnest(tags) AS value FROM dbt.exposures WHERE tags IS NOT NULL"@) by {
        reveal_with_fuel(unioned, 3);
    }
    assert("SELECT unnest(tags) AS value FROM dbt.nodes WHERE tags IS NOT NULL"@ + " "@ + "UNION ALL"@ + " "@ + "SELECT unnest(tags) AS value FROM dbt.exposures WHERE tags IS NOT NULL"@
        =~= "SELECT unnest(tags) AS value FROM dbt.nodes WHERE tags IS NOT NULL UNION ALL SELECT unnest(tags) AS value FROM dbt.exposures WHERE tags IS NOT NULL"@);
}

#[verifier::spinoff_prover]
#[verifier::rlimit(40)]
proof fn lemma_tags_are_of_every_table_with_tags_upto_3()
    ensures
        unioned(tags_are_of_every_table_with_tags_parts(), 3, " "@) == "SELECT unnest(tags) AS value FROM dbt.nodes WHERE tags IS NOT NULL UNION ALL SELECT unnest(tags) AS value FROM dbt.exposures WHERE tags IS NOT NULL UNION ALL SELECT unnest(tags) AS value FROM dbt.metrics WHERE tags IS NOT NULL"@,
{
    lemma_tags_are_of_every_table_with_tags_upto_2();
    lemma_tags_are_of_every_table_with_tags_metric();
    reveal_strlit(" ");
    reveal_strlit("UNION ALL");
    reveal_strlit("SELECT unnest(tags) AS value FROM dbt.nodes WHERE tags IS NOT NULL UNION ALL SELECT unnest(tags) AS value FROM dbt.exposures WHERE tags IS NOT NULL");
    reveal_strlit("SELECT unnest(tags) AS value FROM dbt.metrics WHERE tags IS NOT NULL");
    reveal_strlit("SELECT unnest(tags) AS value FROM dbt.nodes WHERE tags IS NOT NULL UNION ALL SELECT unnest(tags) AS value FROM dbt.exposures WHERE tags IS NOT NULL UNION ALL SELECT unnest(tags) AS value FROM dbt.metrics WHERE tags IS NOT NULL");
    let parts = tags_are_of_every_table_with_tags_parts();
    assert(unioned(parts, 3, " "@) =~= unioned(parts, 2, " "@) + " "@ + "UNION ALL"@ + " "@
        + "SELECT unnest(tags) AS value FROM dbt.metrics WHERE tags IS NOT NULL"@) by {
        reveal_with_fuel(unioned, 3);
    }
    assert("SELECT unnest(tags) AS value FROM dbt.nodes WHERE tags IS NOT NULL UNION ALL SELECT unnest(tags) AS value FROM dbt.exposures WHERE tags IS NOT NULL"@ + " "@ + "UNION ALL"@ + " "@ + "SELECT unnest(tags) AS value FROM dbt.metrics WHERE tags IS NOT NULL"@
        =~= "SELECT unnest(tags) AS value FROM dbt.nodes WHERE tags IS NOT NULL UNION ALL SELECT unnest(tags) AS value FROM dbt.exposures WHERE tags IS NOT NULL UNION ALL SELECT unnest(tags) AS value FROM dbt.metrics WHERE tags IS NOT NULL"@);
}

#[verifier::spinoff_prover]
#[verifier::rlimit(40)]
proof fn lemma_tags_are_of_every_table_with_tags_upto_4()
    ensures
        unioned(tags_are_of_every_table_with_tags_parts(), 4, " "@) == "SELECT unnest(tags) AS value FROM dbt.nodes WHERE tags IS NOT NULL UNION ALL SELECT unnest(tags) AS value FROM dbt.exposures WHERE tags IS NOT NULL UNION ALL SELECT unnest(tags) AS value FROM dbt.metrics WHERE tags IS NOT NULL UNION ALL SELECT unnest(tags) AS value FROM dbt.saved_queries WHERE tags IS NOT NULL"@,
{
    lemma_tags_are_of_every_table_with_tags_upto_3();
    lemma_tags_are_of_every_table_with_tags_saved_query();
    reveal_strlit(" ");
    reveal_strlit("UNION ALL");
    reveal_strlit("SELECT unnest(tags) AS value FROM dbt.nodes WHERE tags IS NOT NULL UNION ALL SELECT unnest(tags) AS value FROM dbt.exposures WHERE tags IS NOT NULL UNION ALL SELECT unnest(tags) AS value FROM dbt.metrics WHERE tags IS NOT NULL");
    reveal_strlit("SELECT unnest(tags) AS value FROM dbt.saved_queries WHERE tags IS NOT NULL");
    reveal_strlit("SELECT unnest(tags) AS value FROM dbt.nodes WHERE tags IS NOT NULL UNION ALL SELECT unnest(tags) AS value FROM dbt.exposures WHERE tags IS NOT NULL UNION ALL SELECT unnest(tags) AS value FROM dbt.metrics WHERE tags IS NOT NULL UNION ALL SELECT unnest(tags) AS value FROM dbt.saved_queries WHERE tags IS NOT NULL");
    let parts = tags_are_of_every_table_with_tags_parts();
    assert(unioned(parts, 4, " "@) =~= unioned(parts, 3, " "@) + " "@ + "UNION ALL"@ + " "@
        + "SELECT unnest(tags) AS value FROM dbt.saved_queries WHERE tags IS NOT NULL"@) by {
        reveal_with_fuel(unioned, 3);
    }
    assert("SELECT unnest(tags) AS value FROM dbt.nodes WHERE tags IS NOT NULL UNION ALL SELECT unnest(tags) AS value FROM dbt.exposures WHERE tags IS NOT NULL UNION ALL SELECT unnest(tags) AS value FROM dbt.metrics WHERE tags IS NOT NULL"@ + " "@ + "UNION ALL"@ + " "@ + "SELECT unnest(tags) AS value FROM dbt.saved_queries WHERE tags IS NOT NULL"@
        =~= "SELECT unnest(tags) AS value FROM dbt.nodes WHERE tags IS NOT NULL UNION ALL SELECT unnest(tags) AS value FROM dbt.exposures WHERE tags IS NOT NULL UNION ALL SELECT unnest(tags) AS value FROM dbt.metrics WHERE tags IS NOT NULL UNION ALL SELECT unnest(tags) AS value FROM dbt.saved_queries WHERE tags IS NOT NULL"@);
}

#[verifier::spinoff_prover]
#[verifier::rlimit(40)]
proof fn lemma_tags_are_of_every_table_with_tags_upto_5()
    ensures
        unioned(tags_are_of_every_table_with_tags_parts(), 5, " "@) == "SELECT unnest(tags) AS value FROM dbt.nodes WHERE tags IS NOT NULL UNION ALL SELECT unnest(tags) AS value FROM dbt.exposures WHERE tags IS NOT NULL UNION ALL SELECT unnest(tags) AS value FROM dbt.metrics WHERE tags IS NOT NULL UNION ALL SELECT unnest(tags) AS value FROM dbt.saved_queries WHERE tags IS NOT NULL UNION ALL SELECT unnest((json_extract(config, '$.tags'))::VARCHAR[]) AS value FROM dbt.semantic_models WHERE json_extract(config, '$.tags') IS NOT NULL"@,
{
    lemma_tags_are_of_every_table_with_tags_upto_4();
    reveal_strlit(" ");
    reveal_strlit("UNION ALL");
    reveal_strlit("SELECT unnest(tags) AS value FROM dbt.nodes WHERE tags IS NOT NULL UNION ALL SELECT unnest(tags) AS value FROM dbt.exposures WHERE tags IS NOT NULL UNION ALL SELECT unnest(tags) AS value FROM dbt.metrics WHERE tags IS NOT NULL UNION ALL SELECT unnest(tags) AS value FROM dbt.saved_queries WHERE tags IS NOT NULL");
    reveal_strlit("SELECT unnest((json_extract(config, '$.tags'))::VARCHAR[]) AS value FROM dbt.semantic_models WHERE json_extract(config, '$.tags') IS NOT NULL");
    reveal_strlit("SELECT unnest(tags) AS value FROM dbt.nodes WHERE tags IS NOT NULL UNION ALL SELECT unnest(tags) AS value FROM dbt.exposures WHERE tags IS NOT NULL UNION ALL SELECT unnest(tags) AS value FROM dbt.metrics WHERE tags IS NOT NULL UNION ALL SELECT unnest(tags) AS value FROM dbt.saved_queries WHERE tags IS NOT NULL UNION ALL SELECT unnest((json_extract(config, '$.tags'))::VARCHAR[]) AS value FROM dbt.semantic_models WHERE json_extract(config, '$.tags') IS NOT NULL");
    let parts = tags_are_of_every_table_with_tags_parts();
    assert(unioned(parts, 5, " "@) =~= unioned(parts, 4, " "@) + " "@ + "UNION ALL"@ + " "@
        + "SELECT unnest((json_extract(config, '$.tags'))::VARCHAR[]) AS value FROM dbt.semantic_models WHERE json_extract(config, '$.tags') IS NOT NULL"@) by {
        reveal_with_fuel(unioned, 3);
    }
    assert("SELECT unnest(tags) AS value FROM dbt.nodes WHERE tags IS NOT NULL UNION ALL SELECT unnest(tags) AS value FROM dbt.exposures WHERE tags IS NOT NULL UNION ALL SELECT unnest(tags) AS value FROM dbt.metrics WHERE tags IS NOT NULL UNION ALL SELECT unnest(tags) AS value FROM dbt.saved_queries WHERE tags IS NOT NULL"@ + " "@ + "UNION ALL"@ + " "@ + "SELECT unnest((json_extract(config, '$.tags'))::VARCHAR[]) AS value FROM dbt.semantic_models WHERE json_extract(config, '$.tags') IS NOT NULL"@
        =~= "SELECT unnest(tags) AS value FROM dbt.nodes WHERE tags IS NOT NULL UNION ALL SELECT unnest(tags) AS value FROM dbt.exposures WHERE tags IS NOT NULL UNION ALL SELECT unnest(tags) AS value FROM dbt.metrics WHERE tags IS NOT NULL UNION ALL SELECT unnest(tags) AS value FROM dbt.saved_queries WHERE tags IS NOT NULL UNION ALL SELECT unnest((json_extract(config, '$.tags'))::VARCHAR[]) AS value FROM dbt.semantic_models WHERE json_extract(config, '$.tags') IS NOT NULL"@);
}

/// The tags that a search can be narrowed to are those of the resources of every table with
/// tags. Semantic models have them in their configuration.
#[verifier::spinoff_prover]
#[verifier::rlimit(80)]
pub proof fn lemma_tags_are_of_every_table_with_tags()
    ensures
        SEARCH_FACETS_TAGS_SQL@ == "/* facets:tags */ SELECT t.value, COUNT(*) AS cnt FROM ("@ + unioned(tags_are_of_every_table_with_tags_parts(), 5, " "@) + ") t GROUP BY t.value ORDER BY t.value"@,
{
    lemma_tags_are_of_every_table_with_tags_upto_5();
    reveal_strlit("/* facets:tags */ SELECT t.value, COUNT(*) AS cnt FROM (");
    reveal_strlit(") t GROUP BY t.value ORDER BY t.value");
    reveal_strlit("SELECT unnest(tags) AS value FROM dbt.nodes WHERE tags IS NOT NULL UNION ALL SELECT unnest(tags) AS value FROM dbt.exposures WHERE tags IS NOT NULL UNION ALL SELECT unnest(tags) AS value FROM dbt.metrics WHERE tags IS NOT NULL UNION ALL SELECT unnest(tags) AS value FROM dbt.saved_queries WHERE tags IS NOT NULL UNION ALL SELECT unnest((json_extract(config, '$.tags'))::VARCHAR[]) AS value FROM dbt.semantic_models WHERE json_extract(config, '$.tags') IS NOT NULL");
    reveal_strlit(
        "\
/* facets:tags */ \
SELECT t.value, COUNT(*) AS cnt FROM (\
  SELECT unnest(tags) AS value FROM dbt.nodes WHERE tags IS NOT NULL \
  UNION ALL \
  SELECT unnest(tags) AS value FROM dbt.exposures WHERE tags IS NOT NULL \
  UNION ALL \
  SELECT unnest(tags) AS value FROM dbt.metrics WHERE tags IS NOT NULL \
  UNION ALL \
  SELECT unnest(tags) AS value FROM dbt.saved_queries WHERE tags IS NOT NULL \
  UNION ALL \
  SELECT unnest((json_extract(config, '$.tags'))::VARCHAR[]) AS value \
  FROM dbt.semantic_models WHERE json_extract(config, '$.tags') IS NOT NULL\
) t \
GROUP BY t.value \
ORDER BY t.value",
    );
    assert(SEARCH_FACETS_TAGS_SQL@ =~= "/* facets:tags */ SELECT t.value, COUNT(*) AS cnt FROM ("@ + "SELECT unnest(tags) AS value FROM dbt.nodes WHERE tags IS NOT NULL UNION ALL SELECT unnest(tags) AS value FROM dbt.exposures WHERE tags IS NOT NULL UNION ALL SELECT unnest(tags) AS value FROM dbt.metrics WHERE tags IS NOT NULL UNION ALL SELECT unnest(tags) AS value FROM dbt.saved_queries WHERE tags IS NOT NULL UNION ALL SELECT unnest((json_extract(config, '$.tags'))::VARCHAR[]) AS value FROM dbt.semantic_models WHERE json_extract(config, '$.tags') IS NOT NULL"@ + ") t GROUP BY t.value ORDER BY t.value"@);
}

/// The branch that counts the models of a layer: by the condition of the filter for that
/// layer.
pub open spec fn layer_count_sql(name: Seq<char>) -> Seq<char> {
    "WHEN "@ + replaced(layer_condition(name)->0, "b."@, ""@) + " THEN "@ + literal(name)
}

/// Models are counted by the layers that they can be filtered by, each under its own name.
pub proof fn lemma_layers_are_counted_as_they_are_filtered()
    ensures
        layers_facet() == "/* facets:layers */ SELECT CASE "@ + layer_count_sql("Staging"@) + " "@
            + layer_count_sql("Intermediate"@) + " "@ + layer_count_sql("Marts"@)
            + " ELSE NULL END"@
            + " AS value, COUNT(*) AS cnt FROM dbt.nodes WHERE resource_type = 'model' GROUP BY value HAVING value IS NOT NULL ORDER BY value"@,
{
    reveal_strlit("Staging");
    reveal_strlit("Intermediate");
    reveal_strlit("Marts");
    reveal_strlit(" THEN '");
    reveal_strlit(" THEN ");
    reveal_strlit("'");
    assert("Staging"@.len() == 7 && "Intermediate"@.len() == 12 && "Marts"@.len() == 5);
    lemma_plain_literal("Staging"@);
    lemma_plain_literal("Intermediate"@);
    lemma_plain_literal("Marts"@);
    lemma_layer_branch("Staging"@);
    lemma_layer_branch("Intermediate"@);
    lemma_layer_branch("Marts"@);
}

proof fn lemma_layer_branch(name: Seq<char>)
    requires
        literal(name) == seq!['\''] + name + seq!['\''],
    ensures
        layer_branch(layer_condition(name)->0, name) == layer_count_sql(name),
{
    reveal_strlit(" THEN '");
    reveal_strlit(" THEN ");
    reveal_strlit("'");
    assert(layer_branch(layer_condition(name)->0, name) =~= layer_count_sql(name));
}

/// The layers and the access levels that are offered are those that a filter takes.
pub proof fn lemma_offered_values_are_those_that_filters_take(name: Seq<char>)
    ensures
        facet_layers().contains(name) <==> layer_condition(name) is Some,
        facet_access_levels().contains(name) <==> access_levels().contains(name),
{
    let (a, b) = (facet_layers(), facet_access_levels());
    let c = access_levels();
    assert(a[0] == "Staging"@ && a[1] == "Intermediate"@ && a[2] == "Marts"@);
    assert(b[0] == "private"@ && b[1] == "protected"@ && b[2] == "public"@);
    assert(c.len() == 3);
    assert(c[0] == c[0] && c[1] == c[1] && c[2] == c[2]);
}

// ---------------------------------------------------------------------------
// Views
// ---------------------------------------------------------------------------

/// A table that a query defines for itself.
pub open spec fn view_sql(name: Seq<char>, query: Seq<char>) -> Seq<char> {
    name + " AS ("@ + query + ")"@
}

/// The time of the last run of each resource.
pub open spec fn last_runs_sql() -> Seq<char> {
    "SELECT unique_id, MAX(created_at) AS executed_at FROM "@ + "dbt_rt.run_results"@
        + " GROUP BY unique_id"@
}

/// Whether a query gives a statistic of the catalog for each resource that has it, under
/// one of its names.
pub open spec fn gives_stat(
    sql: Seq<char>,
    value: Seq<char>,
    name: Seq<char>,
    ids: Seq<Seq<char>>,
) -> bool {
    reads(
        sql,
        Seq::empty(),
        seq![Item::Plain("unique_id"@), Item::As(value, name)],
        "dbt.catalog_stats"@,
        |row: Row, l: Letters| row.at("stat_id"@) matches Some(id) && ids.contains(id),
        Seq::empty(),
    )
}

/// Whether a query gives the row counts, under a name.
pub open spec fn gives_row_counts(sql: Seq<char>, name: Seq<char>) -> bool {
    gives_stat(sql, "TRY_CAST(stat_value AS BIGINT)"@, name, seq!["row_count"@, "num_rows"@])
}

/// Whether a query gives the sizes.
pub open spec fn gives_sizes(sql: Seq<char>) -> bool {
    gives_stat(sql, "TRY_CAST(stat_value AS BIGINT)"@, "bytes_stat"@, seq!["bytes"@, "num_bytes"@])
}

/// Whether a query gives the times of the last change.
pub open spec fn gives_changes(sql: Seq<char>) -> bool {
    gives_stat(sql, "stat_value"@, "last_modified_stat"@, seq!["last_modified"@])
}

#[verifier::spinoff_prover]
#[verifier::rlimit(60)]
proof fn lemma_row_count_stat()
    ensures
        gives_stat(
            "SELECT unique_id, TRY_CAST(stat_value AS BIGINT) AS row_count_stat FROM dbt.catalog_stats WHERE stat_id IN ('row_count', 'num_rows')"@,
            "TRY_CAST(stat_value AS BIGINT)"@,
            "row_count_stat"@,
            seq!["row_count"@, "num_rows"@],
        ),
{
    let ids = seq!["row_count"@, "num_rows"@];
    let p = Pred::OneOf(Expr::Of("stat_id"@), ids);
    let items = seq![Item::Plain("unique_id"@), Item::As("TRY_CAST(stat_value AS BIGINT)"@, "row_count_stat"@)];
    reveal_with_fuel(Pred::sql, 2);
    reveal_with_fuel(Pred::is_sql, 2);
    reveal_with_fuel(Pred::holds, 2);
    reveal_with_fuel(Expr::sql, 2);
    reveal_with_fuel(Expr::eval, 2);
    reveal_with_fuel(listed, 3);
    reveal_with_fuel(literals, 3);
    reveal_strlit("SELECT ");
    reveal_strlit("unique_id");
    reveal_strlit(", ");
    reveal_strlit("TRY_CAST(stat_value AS BIGINT)");
    reveal_strlit(" AS ");
    reveal_strlit("row_count_stat");
    reveal_strlit(" FROM ");
    reveal_strlit("dbt.catalog_stats");
    reveal_strlit(" WHERE ");
    reveal_strlit("stat_id");
    reveal_strlit(" = ");
    reveal_strlit(" IN (");
    reveal_strlit(")");
    reveal_strlit("row_count");
    reveal_strlit("num_rows");
    reveal_strlit("SELECT unique_id, TRY_CAST(stat_value AS BIGINT) AS row_count_stat FROM dbt.catalog_stats WHERE stat_id IN ('row_count', 'num_rows')");
    lemma_plain_literal("row_count"@);
    lemma_plain_literal("num_rows"@);
    assert(literals(ids) =~= literal(ids[0]) + ", "@ + literal(ids[1])) by {
        assert(ids.drop_last() =~= seq![ids[0]]);
        assert(seq![ids[0]].drop_last().len() == 0);
    }
    assert(p.sql() == "stat_id"@ + " IN ("@ + (literal(ids[0]) + ", "@ + literal(ids[1])) + ")"@);
    let text = listed(items, 2);
    assert(text =~= "unique_id"@ + ", "@ + ("TRY_CAST(stat_value AS BIGINT)"@ + " AS "@ + "row_count_stat"@));
    let sql = Seq::<char>::empty() + "SELECT "@ + text + " FROM "@ + "dbt.catalog_stats"@ + " WHERE "@
        + p.sql() + Seq::<char>::empty();
    assert(sql =~= "SELECT unique_id, TRY_CAST(stat_value AS BIGINT) AS row_count_stat FROM dbt.catalog_stats WHERE stat_id IN ('row_count', 'num_rows')"@);
    assert(items.len() == 2);
    assert(p.is_factor());
    let rows = |row: Row, l: Letters| row.at("stat_id"@) matches Some(id) && ids.contains(id);
    assert forall|row: Row, l: Letters| p.holds(row, l) == #[trigger] rows(row, l) by {
    }
}

#[verifier::spinoff_prover]
#[verifier::rlimit(60)]
proof fn lemma_seed_row_count_stat()
    ensures
        gives_stat(
            "SELECT unique_id, TRY_CAST(stat_value AS BIGINT) AS row_count FROM dbt.catalog_stats WHERE stat_id IN ('row_count', 'num_rows')"@,
            "TRY_CAST(stat_value AS BIGINT)"@,
            "row_count"@,
            seq!["row_count"@, "num_rows"@],
        ),
{
    let ids = seq!["row_count"@, "num_rows"@];
    let p = Pred::OneOf(Expr::Of("stat_id"@), ids);
    let items = seq![Item::Plain("unique_id"@), Item::As("TRY_CAST(stat_value AS BIGINT)"@, "row_count"@)];
    reveal_with_fuel(Pred::sql, 2);
    reveal_with_fuel(Pred::is_sql, 2);
    reveal_with_fuel(Pred::holds, 2);
    reveal_with_fuel(Expr::sql, 2);
    reveal_with_fuel(Expr::eval, 2);
    reveal_with_fuel(listed, 3);
    reveal_with_fuel(literals, 3);
    reveal_strlit("SELECT ");
    reveal_strlit("unique_id");
    reveal_strlit(", ");
    reveal_strlit("TRY_CAST(stat_value AS BIGINT)");
    reveal_strlit(" AS ");
    reveal_strlit("row_count");
    reveal_strlit(" FROM ");
    reveal_strlit("dbt.catalog_stats");
    reveal_strlit(" WHERE ");
    reveal_strlit("stat_id");
    reveal_strlit(" = ");
    reveal_strlit(" IN (");
    reveal_strlit(")");
    reveal_strlit("num_rows");
    reveal_strlit("SELECT unique_id, TRY_CAST(stat_value AS BIGINT) AS row_count FROM dbt.catalog_stats WHERE stat_id IN ('row_count', 'num_rows')");
    lemma_plain_literal("row_count"@);
    lemma_plain_literal("num_rows"@);
    assert(literals(ids) =~= literal(ids[0]) + ", "@ + literal(ids[1])) by {
        assert(ids.drop_last() =~= seq![ids[0]]);
        assert(seq![ids[0]].drop_last().len() == 0);
    }
    assert(p.sql() == "stat_id"@ + " IN ("@ + (literal(ids[0]) + ", "@ + literal(ids[1])) + ")"@);
    let text = listed(items, 2);
    assert(text =~= "unique_id"@ + ", "@ + ("TRY_CAST(stat_value AS BIGINT)"@ + " AS "@ + "row_count"@));
    let sql = Seq::<char>::empty() + "SELECT "@ + text + " FROM "@ + "dbt.catalog_stats"@ + " WHERE "@
        + p.sql() + Seq::<char>::empty();
    assert(sql =~= "SELECT unique_id, TRY_CAST(stat_value AS BIGINT) AS row_count FROM dbt.catalog_stats WHERE stat_id IN ('row_count', 'num_rows')"@);
    assert(items.len() == 2);
    assert(p.is_factor());
    let rows = |row: Row, l: Letters| row.at("stat_id"@) matches Some(id) && ids.contains(id);
    assert forall|row: Row, l: Letters| p.holds(row, l) == #[trigger] rows(row, l) by {
    }
}

#[verifier::spinoff_prover]
#[verifier::rlimit(60)]
proof fn lemma_bytes_stat()
    ensures
        gives_stat(
            "SELECT unique_id, TRY_CAST(stat_value AS BIGINT) AS bytes_stat FROM dbt.catalog_stats WHERE stat_id IN ('bytes', 'num_bytes')"@,
            "TRY_CAST(stat_value AS BIGINT)"@,
            "bytes_stat"@,
            seq!["bytes"@, "num_bytes"@],
        ),
{
    let ids = seq!["bytes"@, "num_bytes"@];
    let p = Pred::OneOf(Expr::Of("stat_id"@), ids);
    let items = seq![Item::Plain("unique_id"@), Item::As("TRY_CAST(stat_value AS BIGINT)"@, "bytes_stat"@)];
    reveal_with_fuel(Pred::sql, 2);
    reveal_with_fuel(Pred::is_sql, 2);
    reveal_with_fuel(Pred::holds, 2);
    reveal_with_fuel(Expr::sql, 2);
    reveal_with_fuel(Expr::eval, 2);
    reveal_with_fuel(listed, 3);
    reveal_with_fuel(literals, 3);
    reveal_strlit("SELECT ");
    reveal_strlit("unique_id");
    reveal_strlit(", ");
    reveal_strlit("TRY_CAST(stat_value AS BIGINT)");
    reveal_strlit(" AS ");
    reveal_strlit("bytes_stat");
    reveal_strlit(" FROM ");
    reveal_strlit("dbt.catalog_stats");
    reveal_strlit(" WHERE ");
    reveal_strlit("stat_id");
    reveal_strlit(" = ");
    reveal_strlit(" IN (");
    reveal_strlit(")");
    reveal_strlit("bytes");
    reveal_strlit("num_bytes");
    reveal_strlit("SELECT unique_id, TRY_CAST(stat_value AS BIGINT) AS bytes_stat FROM dbt.catalog_stats WHERE stat_id IN ('bytes', 'num_bytes')");
    lemma_plain_literal("bytes"@);
    lemma_plain_literal("num_bytes"@);
    assert(literals(ids) =~= literal(ids[0]) + ", "@ + literal(ids[1])) by {
        assert(ids.drop_last() =~= seq![ids[0]]);
        assert(seq![ids[0]].drop_last().len() == 0);
    }
    assert(p.sql() == "stat_id"@ + " IN ("@ + (literal(ids[0]) + ", "@ + literal(ids[1])) + ")"@);
    let text = listed(items, 2);
    assert(text =~= "unique_id"@ + ", "@ + ("TRY_CAST(stat_value AS BIGINT)"@ + " AS "@ + "bytes_stat"@));
    let sql = Seq::<char>::empty() + "SELECT "@ + text + " FROM "@ + "dbt.catalog_stats"@ + " WHERE "@
        + p.sql() + Seq::<char>::empty();
    assert(sql =~= "SELECT unique_id, TRY_CAST(stat_value AS BIGINT) AS bytes_stat FROM dbt.catalog_stats WHERE stat_id IN ('bytes', 'num_bytes')"@);
    assert(items.len() == 2);
    assert(p.is_factor());
    let rows = |row: Row, l: Letters| row.at("stat_id"@) matches Some(id) && ids.contains(id);
    assert forall|row: Row, l: Letters| p.holds(row, l) == #[trigger] rows(row, l) by {
    }
}

#[verifier::spinoff_prover]
#[verifier::rlimit(60)]
proof fn lemma_last_modified_stat()
    ensures
        gives_stat(
            "SELECT unique_id, stat_value AS last_modified_stat FROM dbt.catalog_stats WHERE stat_id = 'last_modified'"@,
            "stat_value"@,
            "last_modified_stat"@,
            seq!["last_modified"@],
        ),
{
    let ids = seq!["last_modified"@];
    let p = equals("stat_id"@, ids[0]);
    let items = seq![Item::Plain("unique_id"@), Item::As("stat_value"@, "last_modified_stat"@)];
    reveal_with_fuel(Pred::sql, 2);
    reveal_with_fuel(Pred::is_sql, 2);
    reveal_with_fuel(Pred::holds, 2);
    reveal_with_fuel(Expr::sql, 2);
    reveal_with_fuel(Expr::eval, 2);
    reveal_with_fuel(listed, 3);
    reveal_with_fuel(literals, 3);
    reveal_strlit("SELECT ");
    reveal_strlit("unique_id");
    reveal_strlit(", ");
    reveal_strlit("stat_value");
    reveal_strlit(" AS ");
    reveal_strlit("last_modified_stat");
    reveal_strlit(" FROM ");
    reveal_strlit("dbt.catalog_stats");
    reveal_strlit(" WHERE ");
    reveal_strlit("stat_id");
    reveal_strlit(" = ");
    reveal_strlit(" IN (");
    reveal_strlit(")");
    reveal_strlit("last_modified");
    reveal_strlit("SELECT unique_id, stat_value AS last_modified_stat FROM dbt.catalog_stats WHERE stat_id = 'last_modified'");
    lemma_plain_literal("last_modified"@);
    assert(p.sql() == "stat_id"@ + " = "@ + literal(ids[0]));
    let text = listed(items, 2);
    assert(text =~= "unique_id"@ + ", "@ + ("stat_value"@ + " AS "@ + "last_modified_stat"@));
    let sql = Seq::<char>::empty() + "SELECT "@ + text + " FROM "@ + "dbt.catalog_stats"@ + " WHERE "@
        + p.sql() + Seq::<char>::empty();
    assert(sql =~= "SELECT unique_id, stat_value AS last_modified_stat FROM dbt.catalog_stats WHERE stat_id = 'last_modified'"@);
    assert(items.len() == 2);
    assert(p.is_factor());
    let rows = |row: Row, l: Letters| row.at("stat_id"@) matches Some(id) && ids.contains(id);
    assert forall|row: Row, l: Letters| p.holds(row, l) == #[trigger] rows(row, l) by {
        assert(ids[0] == ids[0]);
    }
}

/// The views of the list of models: the last run of each node, the nodes that the catalog
/// has, and their row counts, sizes and times of the last change.
#[verifier::spinoff_prover]
#[verifier::rlimit(80)]
pub proof fn lemma_model_views()
    ensures
        RR_CTE_BODY@ == view_sql("last_run"@, last_runs_sql()),
        exists|rows: Seq<char>| #[trigger]
            gives_row_counts(rows, "row_count_stat"@) && ROW_COUNT_CTE_BODY@ == view_sql(
                "row_count_cte"@,
                rows,
            ),
        exists|rows: Seq<char>, bytes: Seq<char>, changed: Seq<char>| #[trigger]
            gives_row_counts(rows, "row_count_stat"@) && #[trigger] gives_sizes(bytes)
                && #[trigger] gives_changes(changed)
                && CAT_CTES_BODY@ == view_sql(
                "cat_tables"@,
                "SELECT unique_id FROM dbt.catalog_tables"@,
            ) + ", "@ + view_sql("row_count_cte"@, rows) + ", "@ + view_sql("bytes_cte"@, bytes)
                + ", "@ + view_sql("last_modified_cte"@, changed),
{
    lemma_row_count_stat();
    lemma_bytes_stat();
    lemma_last_modified_stat();
    reveal_strlit("last_run");
    reveal_strlit(" AS (");
    reveal_strlit(")");
    reveal_strlit("SELECT unique_id, MAX(created_at) AS executed_at FROM ");
    reveal_strlit("dbt_rt.run_results");
    reveal_strlit(" GROUP BY unique_id");
    reveal_strlit("row_count_cte");
    reveal_strlit("bytes_cte");
    reveal_strlit("last_modified_cte");
    reveal_strlit("cat_tables");
    reveal_strlit("SELECT unique_id FROM dbt.catalog_tables");
    reveal_strlit(", ");
    reveal_strlit("SELECT unique_id, TRY_CAST(stat_value AS BIGINT) AS row_count_stat FROM dbt.catalog_stats WHERE stat_id IN ('row_count', 'num_rows')");
    reveal_strlit("SELECT unique_id, TRY_CAST(stat_value AS BIGINT) AS bytes_stat FROM dbt.catalog_stats WHERE stat_id IN ('bytes', 'num_bytes')");
    reveal_strlit("SELECT unique_id, stat_value AS last_modified_stat FROM dbt.catalog_stats WHERE stat_id = 'last_modified'");
    reveal_strlit(
        "last_run AS (\
  SELECT unique_id, MAX(created_at) AS executed_at \
  FROM dbt_rt.run_results \
  GROUP BY unique_id)",
    );
    reveal_strlit(
        "row_count_cte AS (\
  SELECT unique_id, TRY_CAST(stat_value AS BIGINT) AS row_count_stat \
  FROM dbt.catalog_stats WHERE stat_id IN ('row_count', 'num_rows')\
)",
    );
    reveal_strlit(
        "cat_tables AS (\
  SELECT unique_id FROM dbt.catalog_tables\
), row_count_cte AS (\
  SELECT unique_id, TRY_CAST(stat_value AS BIGINT) AS row_count_stat \
  FROM dbt.catalog_stats WHERE stat_id IN ('row_count', 'num_rows')\
), bytes_cte AS (\
  SELECT unique_id, TRY_CAST(stat_value AS BIGINT) AS bytes_stat \
  FROM dbt.catalog_stats WHERE stat_id IN ('bytes', 'num_bytes')\
), last_modified_cte AS (\
  SELECT unique_id, stat_value AS last_modified_stat \
  FROM dbt.catalog_stats WHERE stat_id = 'last_modified'\
)",
    );
    let (rows, bytes, changed) = (
        "SELECT unique_id, TRY_CAST(stat_value AS BIGINT) AS row_count_stat FROM dbt.catalog_stats WHERE stat_id IN ('row_count', 'num_rows')"@,
        "SELECT unique_id, TRY_CAST(stat_value AS BIGINT) AS bytes_stat FROM dbt.catalog_stats WHERE stat_id IN ('bytes', 'num_bytes')"@,
        "SELECT unique_id, stat_value AS last_modified_stat FROM dbt.catalog_stats WHERE stat_id = 'last_modified'"@,
    );
    assert(gives_row_counts(rows, "row_count_stat"@) && gives_sizes(bytes) && gives_changes(changed));
    assert(RR_CTE_BODY@ =~= view_sql("last_run"@, last_runs_sql()));
    assert(ROW_COUNT_CTE_BODY@ =~= view_sql("row_count_cte"@, rows));
    assert(CAT_CTES_BODY@ =~= view_sql("cat_tables"@, "SELECT unique_id FROM dbt.catalog_tables"@)
        + ", "@ + view_sql("row_count_cte"@, rows) + ", "@ + view_sql("bytes_cte"@, bytes) + ", "@
        + view_sql("last_modified_cte"@, changed));
}

/// The views of the list of seeds: the last run of each node and its row count.
#[verifier::spinoff_prover]
#[verifier::rlimit(60)]
pub proof fn lemma_seed_views()
    ensures
        LAST_RUN_CTE@ == view_sql("last_run"@, last_runs_sql()),
        exists|rows: Seq<char>| #[trigger]
            gives_row_counts(rows, "row_count"@) && ROW_COUNT_CTE@ == view_sql(
                "row_count_cte"@,
                rows,
            ),
{
    lemma_seed_row_count_stat();
    reveal_strlit("last_run");
    reveal_strlit(" AS (");
    reveal_strlit(")");
    reveal_strlit("SELECT unique_id, MAX(created_at) AS executed_at FROM ");
    reveal_strlit("dbt_rt.run_results");
    reveal_strlit(" GROUP BY unique_id");
    reveal_strlit("row_count_cte");
    reveal_strlit("SELECT unique_id, TRY_CAST(stat_value AS BIGINT) AS row_count FROM dbt.catalog_stats WHERE stat_id IN ('row_count', 'num_rows')");
    reveal_strlit(
        "last_run AS (\
      SELECT unique_id, MAX(created_at) AS executed_at \
      FROM dbt_rt.run_results GROUP BY unique_id\
    )",
    );
    reveal_strlit(
        "row_count_cte AS (\
      SELECT unique_id, \
             TRY_CAST(stat_value AS BIGINT) AS row_count \
      FROM dbt.catalog_stats \
      WHERE stat_id IN ('row_count', 'num_rows')\
    )",
    );
    assert(gives_row_counts("SELECT unique_id, TRY_CAST(stat_value AS BIGINT) AS row_count FROM dbt.catalog_stats WHERE stat_id IN ('row_count', 'num_rows')"@, "row_count"@));
    assert(LAST_RUN_CTE@ =~= view_sql("last_run"@, last_runs_sql()));
    assert(ROW_COUNT_CTE@ =~= view_sql("row_count_cte"@, "SELECT unique_id, TRY_CAST(stat_value AS BIGINT) AS row_count FROM dbt.catalog_stats WHERE stat_id IN ('row_count', 'num_rows')"@));
}

/// A query defines exactly the views that it joins: the last runs where there are run
/// results, and what is there of the catalog; of models with run results the row counts in
/// any case.
pub proof fn lemma_views_are_defined_where_they_are_joined(first: bool, second: bool)
    ensures
        crate::models::cte_prefix(first, second) == with_views(
            if first {
                Some(RR_CTE_BODY@)
            } else {
                None
            },
            if second {
                Some(CAT_CTES_BODY@)
            } else if first {
                Some(ROW_COUNT_CTE_BODY@)
            } else {
                None
            },
        ),
        crate::seeds::cte_prefix(first, second) == with_views(
            if first {
                Some(LAST_RUN_CTE@)
            } else {
                None
            },
            if second {
                Some(ROW_COUNT_CTE@)
            } else {
                None
            },
        ),
{
    reveal_strlit("");
    assert(""@ =~= Seq::<char>::empty());
}

/// The definitions of at most two views, before a query.
pub open spec fn with_views(a: Option<Seq<char>>, b: Option<Seq<char>>) -> Seq<char> {
    match (a, b) {
        (Some(a), Some(b)) => "WITH "@ + a + ", "@ + b + "\n"@,
        (Some(a), None) => "WITH "@ + a + "\n"@,
        (None, Some(b)) => "WITH "@ + b + "\n"@,
        (None, None) => Seq::empty(),
    }
}

// ---------------------------------------------------------------------------
// The project
// ---------------------------------------------------------------------------

/// What is shown of the project.
pub open spec fn project_items() -> Seq<Item> {
    seq![
        Item::As("project_name"@, "name"@),
        Item::Plain("project_id"@),
        Item::Plain("description"@),
        Item::Plain("dbt_version"@),
        Item::Plain("adapter_type"@),
        Item::Plain("git_sha"@),
        Item::Plain("git_branch"@),
        Item::Plain("git_is_dirty"@),
    ]
}

#[verifier::spinoff_prover]
#[verifier::rlimit(40)]
proof fn lemma_project_items_text()
    ensures
        listed(project_items(), 8) == "project_name AS name, project_id, description, dbt_version, adapter_type, git_sha, git_branch, git_is_dirty"@,
{
    reveal_with_fuel(listed, 6);
    reveal_strlit(", ");
    reveal_strlit(" AS ");
    reveal_strlit("project_name");
    reveal_strlit("name");
    reveal_strlit("project_id");
    reveal_strlit("description");
    reveal_strlit("dbt_version");
    reveal_strlit("adapter_type");
    reveal_strlit("git_sha");
    reveal_strlit("git_branch");
    reveal_strlit("git_is_dirty");
    reveal_strlit("project_name AS name, project_id, description, dbt_version, adapter_type");
    reveal_strlit("project_name AS name, project_id, description, dbt_version, adapter_type, git_sha, git_branch, git_is_dirty");
    let items = project_items();
    assert(listed(items, 5) =~= "project_name AS name, project_id, description, dbt_version, adapter_type"@);
    assert(listed(items, 8) =~= "project_name AS name, project_id, description, dbt_version, adapter_type, git_sha, git_branch, git_is_dirty"@);
}

/// The query for the project gives its one row.
pub proof fn lemma_project_query()
    ensures
        PROJECT_SQL@ == "SELECT "@ + listed(project_items(), 8) + " FROM "@ + "dbt.project"@
            + " LIMIT 1"@,
{
    lemma_project_items_text();
    reveal_strlit("SELECT ");
    reveal_strlit(" FROM ");
    reveal_strlit("dbt.project");
    reveal_strlit(" LIMIT 1");
    reveal_strlit("project_name AS name, project_id, description, dbt_version, adapter_type, git_sha, git_branch, git_is_dirty");
    reveal_strlit(
        "SELECT \
    project_name AS name, \
    project_id, \
    description, \
    dbt_version, \
    adapter_type, \
    git_sha, \
    git_branch, \
    git_is_dirty \
FROM dbt.project LIMIT 1",
    );
    assert(PROJECT_SQL@ =~= "SELECT "@ + "project_name AS name, project_id, description, dbt_version, adapter_type, git_sha, git_branch, git_is_dirty"@ + " FROM "@ + "dbt.project"@ + " LIMIT 1"@);
}

} // verus!
