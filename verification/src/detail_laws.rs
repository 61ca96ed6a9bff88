//! What the queries for the detail of a resource mean.
use crate::exposures::{is_exposure_detail, ExposureDetail, EXPOSURE_DETAIL_HEAD};
use crate::groups::{
    config_meta, config_owner, config_tags, is_group_detail, GroupDetail, GROUP_NODE_HEAD,
};
use crate::json::parsed_or_null;
use crate::lineage::SAVED_QUERY_PROBE_HEAD;
use crate::listing::{
    id_query, CATALOG_HEAD, COLUMNS_HEAD, COLUMNS_TAIL, DOWNSTREAM_HEAD, DOWNSTREAM_TAIL, LIMIT_ONE,
    RUN_RESULT_HEAD, RUN_RESULT_TAIL, UPSTREAM_HEAD, UPSTREAM_TAIL,
};
use crate::macros::{is_macro_detail, MacroDetail, MACRO_DETAIL_HEAD};
use crate::meaning::{
    edge_ids, flag_text, has_lists, has_numbers, items_of, lemma_id_query_reads,
    lemma_plain_literal, lemma_table_names, lemma_typed_id_query_reads, listed, literal,
    number_text, reads, shows, shows_list, shows_value, starts_with_type, table_of, typed_by_ids,
    with_id, with_id_and_type, Item, Row,
};
use crate::metrics::{is_metric_detail, MetricDetail, METRIC_ROW_HEAD};
use crate::models::{
    is_node_detail, ModelCatalogInfo, ModelColumn, ModelDetail, MODEL_COLUMNS_HEAD, MODEL_NODE_HEAD,
    MODEL_NODE_TAIL,
};
use crate::node_base::{EdgeRef, ExecutionInfo};
use crate::nodes::NODE_DETAIL_HEAD;
use crate::saved_queries::{is_saved_query_detail, SavedQueryDetail, SAVED_QUERY_NODE_HEAD};
use crate::seeds::{
    is_seed_detail, CatalogStat, SeedColumn, SeedDetail, CATALOG_STATS_HEAD, CATALOG_STATS_TAIL,
    SEED_NODE_HEAD, SEED_NODE_TAIL,
};
use crate::table::{has_columns, Batch, FromRow};
use crate::text::{opt_text, split_at_first, texts};
use crate::text_laws::lemma_cut_at_the_first;
use vstd::prelude::*;

verus! {

/// What is shown of the exposure.
pub open spec fn exposure_detail_items() -> Seq<Item> {
    seq![
        Item::Plain("unique_id"@),
        Item::Plain("name"@),
        Item::Plain("package_name"@),
        Item::Plain("description"@),
        Item::Plain("original_file_path"@),
        Item::Plain("file_path"@),
        Item::Plain("label"@),
        Item::Plain("exposure_type"@),
        Item::Plain("maturity"@),
        Item::Plain("url"@),
        Item::Plain("owner_name"@),
        Item::Plain("owner_email"@),
        Item::Plain("meta"@),
        Item::Plain("tags"@),
        Item::Plain("fqn"@),
        Item::Plain("depends_on_nodes"@),
        Item::Plain("created_at"@),
    ]
}

#[verifier::spinoff_prover]
#[verifier::rlimit(40)]
proof fn lemma_exposure_detail_items_text()
    ensures
        listed(exposure_detail_items(), 17) == "unique_id, name, package_name, description, original_file_path, file_path, label, exposure_type, maturity, url, owner_name, owner_email, meta, tags, fqn, depends_on_nodes, created_at"@,
{
    reveal_with_fuel(listed, 6);
    reveal_strlit(", ");
    reveal_strlit("unique_id");
    reveal_strlit("name");
    reveal_strlit("package_name");
    reveal_strlit("description");
    reveal_strlit("original_file_path");
    reveal_strlit("file_path");
    reveal_strlit("label");
    reveal_strlit("exposure_type");
    reveal_strlit("maturity");
    reveal_strlit("url");
    reveal_strlit("owner_name");
    reveal_strlit("owner_email");
    reveal_strlit("meta");
    reveal_strlit("tags");
    reveal_strlit("fqn");
    reveal_strlit("depends_on_nodes");
    reveal_strlit("created_at");
    reveal_strlit("unique_id, name, package_name, description, original_file_path");
    reveal_strlit("unique_id, name, package_name, description, original_file_path, file_path, label, exposure_type, maturity, url");
    reveal_strlit("unique_id, name, package_name, description, original_file_path, file_path, label, exposure_type, maturity, url, owner_name, owner_email, meta, tags, fqn");
    reveal_strlit("unique_id, name, package_name, description, original_file_path, file_path, label, exposure_type, maturity, url, owner_name, owner_email, meta, tags, fqn, depends_on_nodes, created_at");
    let items = exposure_detail_items();
    assert(listed(items, 5) =~= "unique_id, name, package_name, description, original_file_path"@);
    assert(listed(items, 10) =~= "unique_id, name, package_name, description, original_file_path, file_path, label, exposure_type, maturity, url"@);
    assert(listed(items, 15) =~= "unique_id, name, package_name, description, original_file_path, file_path, label, exposure_type, maturity, url, owner_name, owner_email, meta, tags, fqn"@);
    assert(listed(items, 17) =~= "unique_id, name, package_name, description, original_file_path, file_path, label, exposure_type, maturity, url, owner_name, owner_email, meta, tags, fqn, depends_on_nodes, created_at"@);
}

/// Whether a query gives the exposure with a unique id.
pub open spec fn reads_exposure(sql: Seq<char>, id: Seq<char>) -> bool {
    reads(sql, Seq::empty(), exposure_detail_items(), table_of("exposure"@), with_id("unique_id"@, id), " LIMIT 1"@)
}

#[verifier::spinoff_prover]
#[verifier::rlimit(40)]
proof fn lemma_exposure_detail_head_head()
    ensures
        EXPOSURE_DETAIL_HEAD@ == "SELECT "@ + listed(exposure_detail_items(), exposure_detail_items().len()) + " FROM "@ + "dbt.exposures"@ + " WHERE "@ + "unique_id"@ + " = "@ + seq!['\''],
{
    lemma_exposure_detail_items_text();
    reveal_strlit("SELECT ");
    reveal_strlit(" FROM ");
    reveal_strlit("unique_id, name, package_name, description, original_file_path, file_path, label, exposure_type, maturity, url, owner_name, owner_email, meta, tags, fqn, depends_on_nodes, created_at");
    reveal_strlit("dbt.exposures");
    reveal_strlit(" WHERE ");
    reveal_strlit("unique_id");
    reveal_strlit(" = ");
    reveal_strlit(
        "SELECT unique_id, name, package_name, description, \
     original_file_path, file_path, \
     label, exposure_type, maturity, url, \
     owner_name, owner_email, meta, \
     tags, fqn, depends_on_nodes, created_at \
     FROM dbt.exposures \
     WHERE unique_id = '",
    );
    assert(EXPOSURE_DETAIL_HEAD@ =~= "SELECT "@ + "unique_id, name, package_name, description, original_file_path, file_path, label, exposure_type, maturity, url, owner_name, owner_email, meta, tags, fqn, depends_on_nodes, created_at"@ + " FROM "@ + "dbt.exposures"@ + " WHERE "@ + "unique_id"@ + " = "@ + seq!['\'']);
}

/// The query for a unique id gives the exposure.
pub proof fn lemma_exposure_query(id: Seq<char>)
    ensures
        reads_exposure(id_query(EXPOSURE_DETAIL_HEAD@, id, LIMIT_ONE@), id),
{
    lemma_exposure_detail_head_head();
    lemma_table_names();
    reveal_strlit("' LIMIT 1");
    reveal_strlit(" LIMIT 1");
    assert(LIMIT_ONE@ =~= seq!['\''] + " LIMIT 1"@);
    lemma_id_query_reads(EXPOSURE_DETAIL_HEAD@, id, LIMIT_ONE@, exposure_detail_items(), "dbt.exposures"@, "unique_id"@, " LIMIT 1"@);
}

/// What is read for the exposure with a unique id is what
/// the row of the database has.
#[verifier::spinoff_prover]
#[verifier::rlimit(40)]
pub proof fn lemma_exposure_row(r: ExposureDetail, batch: Batch, row: Row)
    requires
        is_exposure_detail(r, batch),
        batch.num_rows > 0,
        shows(batch, 0, exposure_detail_items(), row),
        has_columns(batch, seq!["unique_id"@, "name"@, "package_name"@, "description"@, "original_file_path"@, "file_path"@, "label"@, "exposure_type"@, "maturity"@, "url"@, "owner_name"@, "owner_email"@, "meta"@], Seq::empty()),
        has_lists(batch, seq!["tags"@, "fqn"@, "depends_on_nodes"@]),
    ensures
        row.at("unique_id"@) is Some ==> row.at("unique_id"@) == Some(r.base.unique_id@),
        row.at("name"@) is Some ==> row.at("name"@) == Some(r.base.name@),
        table_of(r.base.resource_type@) == "dbt.exposures"@,
        row.at("package_name"@) == opt_text(r.base.package_name),
        row.at("description"@) == opt_text(r.base.description),
        row.at("original_file_path"@) == opt_text(r.base.original_file_path),
        row.at("file_path"@) == opt_text(r.file_path),
        texts(r.tags@) == items_of(row.list("tags"@)),
        texts(r.fqn@) == items_of(row.list("fqn"@)),
        row.at("label"@) == opt_text(r.label),
        row.at("exposure_type"@) == opt_text(r.exposure_type),
        row.at("maturity"@) == opt_text(r.maturity),
        row.at("url"@) == opt_text(r.url),
        row.at("owner_name"@) == opt_text(r.owner_name),
        row.at("owner_email"@) == opt_text(r.owner_email),
        r.meta@ == parsed_or_null(row.at("meta"@)),
        edge_ids(r.depends_on@) == items_of(row.list("depends_on_nodes"@)),
        typed_by_ids(r.depends_on@, false),
{
    let items = exposure_detail_items();
    let texts_of = seq!["unique_id"@, "name"@, "package_name"@, "description"@, "original_file_path"@, "file_path"@, "label"@, "exposure_type"@, "maturity"@, "url"@, "owner_name"@, "owner_email"@, "meta"@];
    assert(batch.has_text(texts_of[0]));
    assert(batch.has_text(texts_of[1]));
    assert(batch.has_text(texts_of[2]));
    assert(batch.has_text(texts_of[3]));
    assert(batch.has_text(texts_of[4]));
    assert(batch.has_text(texts_of[5]));
    assert(batch.has_text(texts_of[6]));
    assert(batch.has_text(texts_of[7]));
    assert(batch.has_text(texts_of[8]));
    assert(batch.has_text(texts_of[9]));
    assert(batch.has_text(texts_of[10]));
    assert(batch.has_text(texts_of[11]));
    assert(batch.has_text(texts_of[12]));
    let lists_of = seq!["tags"@, "fqn"@, "depends_on_nodes"@];
    assert(batch.column(lists_of[0]) is Some);
    assert(batch.column(lists_of[1]) is Some);
    assert(batch.column(lists_of[2]) is Some);
    assert(shows_value(batch, 0, items[0].name(), row.at(items[0].expr())));
    assert(shows_value(batch, 0, items[1].name(), row.at(items[1].expr())));
    assert(shows_value(batch, 0, items[2].name(), row.at(items[2].expr())));
    assert(shows_value(batch, 0, items[3].name(), row.at(items[3].expr())));
    assert(shows_value(batch, 0, items[4].name(), row.at(items[4].expr())));
    assert(shows_value(batch, 0, items[5].name(), row.at(items[5].expr())));
    assert(shows_value(batch, 0, items[6].name(), row.at(items[6].expr())));
    assert(shows_value(batch, 0, items[7].name(), row.at(items[7].expr())));
    assert(shows_value(batch, 0, items[8].name(), row.at(items[8].expr())));
    assert(shows_value(batch, 0, items[9].name(), row.at(items[9].expr())));
    assert(shows_value(batch, 0, items[10].name(), row.at(items[10].expr())));
    assert(shows_value(batch, 0, items[11].name(), row.at(items[11].expr())));
    assert(shows_value(batch, 0, items[12].name(), row.at(items[12].expr())));
    assert(shows_list(batch, 0, items[13].name(), row.list(items[13].expr())));
    assert(shows_list(batch, 0, items[14].name(), row.list(items[14].expr())));
    assert(shows_list(batch, 0, items[15].name(), row.list(items[15].expr())));
    lemma_table_names();
    assert forall|k: int| 0 <= k < r.depends_on@.len() implies starts_with_type(
        (#[trigger] r.depends_on@[k]).unique_id@,
        r.depends_on@[k].edge_type@,
        false,
    ) by {
        let id = r.depends_on@[k].unique_id@;
        lemma_cut_at_the_first(id, '.');
        if let Some((before, after)) = split_at_first(id, '.') {
            assert(id =~= before.push('.') + after);
            assert(id[before.len() as int] == '.');
            assert(before =~= id.take(before.len() as int));
        }
    }
}

/// What is shown of the macro.
pub open spec fn macro_detail_items() -> Seq<Item> {
    seq![
        Item::Plain("unique_id"@),
        Item::Plain("name"@),
        Item::Plain("package_name"@),
        Item::Plain("description"@),
        Item::Plain("original_file_path"@),
        Item::Plain("file_path"@),
        Item::Plain("patch_path"@),
        Item::Plain("macro_sql"@),
        Item::Plain("arguments"@),
        Item::Plain("meta"@),
        Item::Plain("docs_show"@),
        Item::Plain("supported_languages"@),
        Item::Plain("depends_on_macros"@),
        Item::Plain("created_at"@),
    ]
}

#[verifier::spinoff_prover]
#[verifier::rlimit(40)]
proof fn lemma_macro_detail_items_text()
    ensures
        listed(macro_detail_items(), 14) == "unique_id, name, package_name, description, original_file_path, file_path, patch_path, macro_sql, arguments, meta, docs_show, supported_languages, depends_on_macros, created_at"@,
{
    reveal_with_fuel(listed, 6);
    reveal_strlit(", ");
    reveal_strlit("unique_id");
    reveal_strlit("name");
    reveal_strlit("package_name");
    reveal_strlit("description");
    reveal_strlit("original_file_path");
    reveal_strlit("file_path");
    reveal_strlit("patch_path");
    reveal_strlit("macro_sql");
    reveal_strlit("arguments");
    reveal_strlit("meta");
    reveal_strlit("docs_show");
    reveal_strlit("supported_languages");
    reveal_strlit("depends_on_macros");
    reveal_strlit("created_at");
    reveal_strlit("unique_id, name, package_name, description, original_file_path");
    reveal_strlit("unique_id, name, package_name, description, original_file_path, file_path, patch_path, macro_sql, arguments, meta");
    reveal_strlit("unique_id, name, package_name, description, original_file_path, file_path, patch_path, macro_sql, arguments, meta, docs_show, supported_languages, depends_on_macros, created_at");
    let items = macro_detail_items();
    assert(listed(items, 5) =~= "unique_id, name, package_name, description, original_file_path"@);
    assert(listed(items, 10) =~= "unique_id, name, package_name, description, original_file_path, file_path, patch_path, macro_sql, arguments, meta"@);
    assert(listed(items, 14) =~= "unique_id, name, package_name, description, original_file_path, file_path, patch_path, macro_sql, arguments, meta, docs_show, supported_languages, depends_on_macros, created_at"@);
}

/// Whether a query gives the macro with a unique id.
pub open spec fn reads_macro(sql: Seq<char>, id: Seq<char>) -> bool {
    reads(sql, Seq::empty(), macro_detail_items(), table_of("macro"@), with_id("unique_id"@, id), " LIMIT 1"@)
}

#[verifier::spinoff_prover]
#[verifier::rlimit(40)]
proof fn lemma_macro_detail_head_head()
    ensures
        MACRO_DETAIL_HEAD@ == "SELECT "@ + listed(macro_detail_items(), macro_detail_items().len()) + " FROM "@ + "dbt.macros"@ + " WHERE "@ + "unique_id"@ + " = "@ + seq!['\''],
{
    lemma_macro_detail_items_text();
    reveal_strlit("SELECT ");
    reveal_strlit(" FROM ");
    reveal_strlit("unique_id, name, package_name, description, original_file_path, file_path, patch_path, macro_sql, arguments, meta, docs_show, supported_languages, depends_on_macros, created_at");
    reveal_strlit("dbt.macros");
    reveal_strlit(" WHERE ");
    reveal_strlit("unique_id");
    reveal_strlit(" = ");
    reveal_strlit(
        "SELECT unique_id, name, package_name, description, \
     original_file_path, file_path, patch_path, \
     macro_sql, arguments, meta, \
     docs_show, supported_languages, depends_on_macros, \
     created_at \
     FROM dbt.macros \
     WHERE unique_id = '",
    );
    assert(MACRO_DETAIL_HEAD@ =~= "SELECT "@ + "unique_id, name, package_name, description, original_file_path, file_path, patch_path, macro_sql, arguments, meta, docs_show, supported_languages, depends_on_macros, created_at"@ + " FROM "@ + "dbt.macros"@ + " WHERE "@ + "unique_id"@ + " = "@ + seq!['\'']);
}

/// The query for a unique id gives the macro.
pub proof fn lemma_macro_query(id: Seq<char>)
    ensures
        reads_macro(id_query(MACRO_DETAIL_HEAD@, id, LIMIT_ONE@), id),
{
    lemma_macro_detail_head_head();
    lemma_table_names();
    reveal_strlit("' LIMIT 1");
    reveal_strlit(" LIMIT 1");
    assert(LIMIT_ONE@ =~= seq!['\''] + " LIMIT 1"@);
    lemma_id_query_reads(MACRO_DETAIL_HEAD@, id, LIMIT_ONE@, macro_detail_items(), "dbt.macros"@, "unique_id"@, " LIMIT 1"@);
}

/// What is read for the macro with a unique id is what
/// the row of the database has.
#[verifier::spinoff_prover]
#[verifier::rlimit(40)]
pub proof fn lemma_macro_row(r: MacroDetail, batch: Batch, row: Row)
    requires
        is_macro_detail(r, batch),
        batch.num_rows > 0,
        shows(batch, 0, macro_detail_items(), row),
        has_columns(batch, seq!["unique_id"@, "name"@, "package_name"@, "description"@, "original_file_path"@, "file_path"@, "patch_path"@, "macro_sql"@, "arguments"@, "meta"@], seq!["docs_show"@]),
        has_lists(batch, seq!["depends_on_macros"@, "supported_languages"@]),
    ensures
        row.at("unique_id"@) is Some ==> row.at("unique_id"@) == Some(r.base.unique_id@),
        row.at("name"@) is Some ==> row.at("name"@) == Some(r.base.name@),
        table_of(r.base.resource_type@) == "dbt.macros"@,
        row.at("package_name"@) == opt_text(r.base.package_name),
        row.at("description"@) == opt_text(r.base.description),
        row.at("original_file_path"@) == opt_text(r.base.original_file_path),
        row.at("file_path"@) == opt_text(r.file_path),
        row.at("patch_path"@) == opt_text(r.patch_path),
        row.at("macro_sql"@) == opt_text(r.macro_sql),
        r.arguments@ == parsed_or_null(row.at("arguments"@)),
        edge_ids(r.depends_on@) == items_of(row.list("depends_on_macros"@)),
        forall|k: int| 0 <= k < r.depends_on.len() ==> table_of((#[trigger] r.depends_on@[k]).edge_type@) == "dbt.macros"@,
        row.at("docs_show"@) == flag_text(r.docs_show),
        texts(r.supported_languages@) == items_of(row.list("supported_languages"@)),
        r.meta@ == parsed_or_null(row.at("meta"@)),
{
    let items = macro_detail_items();
    let texts_of = seq!["unique_id"@, "name"@, "package_name"@, "description"@, "original_file_path"@, "file_path"@, "patch_path"@, "macro_sql"@, "arguments"@, "meta"@];
    assert(batch.has_text(texts_of[0]));
    assert(batch.has_text(texts_of[1]));
    assert(batch.has_text(texts_of[2]));
    assert(batch.has_text(texts_of[3]));
    assert(batch.has_text(texts_of[4]));
    assert(batch.has_text(texts_of[5]));
    assert(batch.has_text(texts_of[6]));
    assert(batch.has_text(texts_of[7]));
    assert(batch.has_text(texts_of[8]));
    assert(batch.has_text(texts_of[9]));
    let lists_of = seq!["depends_on_macros"@, "supported_languages"@];
    assert(batch.column(lists_of[0]) is Some);
    assert(batch.column(lists_of[1]) is Some);
    let flags_of = seq!["docs_show"@];
    assert(batch.has_bool(flags_of[0]));
    assert(shows_value(batch, 0, items[0].name(), row.at(items[0].expr())));
    assert(shows_value(batch, 0, items[1].name(), row.at(items[1].expr())));
    assert(shows_value(batch, 0, items[2].name(), row.at(items[2].expr())));
    assert(shows_value(batch, 0, items[3].name(), row.at(items[3].expr())));
    assert(shows_value(batch, 0, items[4].name(), row.at(items[4].expr())));
    assert(shows_value(batch, 0, items[5].name(), row.at(items[5].expr())));
    assert(shows_value(batch, 0, items[6].name(), row.at(items[6].expr())));
    assert(shows_value(batch, 0, items[7].name(), row.at(items[7].expr())));
    assert(shows_value(batch, 0, items[8].name(), row.at(items[8].expr())));
    assert(shows_value(batch, 0, items[9].name(), row.at(items[9].expr())));
    assert(shows_list(batch, 0, items[12].name(), row.list(items[12].expr())));
    assert(shows_list(batch, 0, items[11].name(), row.list(items[11].expr())));
    assert(shows_value(batch, 0, items[10].name(), row.at(items[10].expr())));
    lemma_table_names();
}

/// What is shown of the metric.
pub open spec fn metric_detail_items() -> Seq<Item> {
    seq![
        Item::Plain("unique_id"@),
        Item::Plain("name"@),
        Item::Plain("package_name"@),
        Item::Plain("description"@),
        Item::Plain("original_file_path"@),
        Item::Plain("file_path"@),
        Item::Plain("label"@),
        Item::Plain("metric_type"@),
        Item::Plain("type_params"@),
        Item::Plain("metric_filter"@),
        Item::Plain("time_granularity"@),
        Item::Plain("semantic_model_name"@),
        Item::Plain("group_name"@),
        Item::Plain("input_metric_names"@),
        Item::Plain("fqn"@),
        Item::Plain("tags"@),
        Item::Plain("meta"@),
        Item::Plain("created_at"@),
    ]
}

#[verifier::spinoff_prover]
#[verifier::rlimit(40)]
proof fn lemma_metric_detail_items_text()
    ensures
        listed(metric_detail_items(), 18) == "unique_id, name, package_name, description, original_file_path, file_path, label, metric_type, type_params, metric_filter, time_granularity, semantic_model_name, group_name, input_metric_names, fqn, tags, meta, created_at"@,
{
    reveal_with_fuel(listed, 6);
    reveal_strlit(", ");
    reveal_strlit("unique_id");
    reveal_strlit("name");
    reveal_strlit("package_name");
    reveal_strlit("description");
    reveal_strlit("original_file_path");
    reveal_strlit("file_path");
    reveal_strlit("label");
    reveal_strlit("metric_type");
    reveal_strlit("type_params");
    reveal_strlit("metric_filter");
    reveal_strlit("time_granularity");
    reveal_strlit("semantic_model_name");
    reveal_strlit("group_name");
    reveal_strlit("input_metric_names");
    reveal_strlit("fqn");
    reveal_strlit("tags");
    reveal_strlit("meta");
    reveal_strlit("created_at");
    reveal_strlit("unique_id, name, package_name, description, original_file_path");
    reveal_strlit("unique_id, name, package_name, description, original_file_path, file_path, label, metric_type, type_params, metric_filter");
    reveal_strlit("unique_id, name, package_name, description, original_file_path, file_path, label, metric_type, type_params, metric_filter, time_granularity, semantic_model_name, group_name, input_metric_names, fqn");
    reveal_strlit("unique_id, name, package_name, description, original_file_path, file_path, label, metric_type, type_params, metric_filter, time_granularity, semantic_model_name, group_name, input_metric_names, fqn, tags, meta, created_at");
    let items = metric_detail_items();
    assert(listed(items, 5) =~= "unique_id, name, package_name, description, original_file_path"@);
    assert(listed(items, 10) =~= "unique_id, name, package_name, description, original_file_path, file_path, label, metric_type, type_params, metric_filter"@);
    assert(listed(items, 15) =~= "unique_id, name, package_name, description, original_file_path, file_path, label, metric_type, type_params, metric_filter, time_granularity, semantic_model_name, group_name, input_metric_names, fqn"@);
    assert(listed(items, 18) =~= "unique_id, name, package_name, description, original_file_path, file_path, label, metric_type, type_params, metric_filter, time_granularity, semantic_model_name, group_name, input_metric_names, fqn, tags, meta, created_at"@);
}

/// Whether a query gives the metric with a unique id.
pub open spec fn reads_metric(sql: Seq<char>, id: Seq<char>) -> bool {
    reads(sql, Seq::empty(), metric_detail_items(), table_of("metric"@), with_id("unique_id"@, id), " LIMIT 1"@)
}

#[verifier::spinoff_prover]
#[verifier::rlimit(40)]
proof fn lemma_metric_row_head_head()
    ensures
        METRIC_ROW_HEAD@ == "SELECT "@ + listed(metric_detail_items(), metric_detail_items().len()) + " FROM "@ + "dbt.metrics"@ + " WHERE "@ + "unique_id"@ + " = "@ + seq!['\''],
{
    lemma_metric_detail_items_text();
    reveal_strlit("SELECT ");
    reveal_strlit(" FROM ");
    reveal_strlit("unique_id, name, package_name, description, original_file_path, file_path, label, metric_type, type_params, metric_filter, time_granularity, semantic_model_name, group_name, input_metric_names, fqn, tags, meta, created_at");
    reveal_strlit("dbt.metrics");
    reveal_strlit(" WHERE ");
    reveal_strlit("unique_id");
    reveal_strlit(" = ");
    reveal_strlit(
        "SELECT unique_id, name, package_name, description, \
     original_file_path, file_path, \
     label, metric_type, type_params, metric_filter, \
     time_granularity, semantic_model_name, group_name, \
     input_metric_names, fqn, tags, meta, created_at \
     FROM dbt.metrics \
     WHERE unique_id = '",
    );
    assert(METRIC_ROW_HEAD@ =~= "SELECT "@ + "unique_id, name, package_name, description, original_file_path, file_path, label, metric_type, type_params, metric_filter, time_granularity, semantic_model_name, group_name, input_metric_names, fqn, tags, meta, created_at"@ + " FROM "@ + "dbt.metrics"@ + " WHERE "@ + "unique_id"@ + " = "@ + seq!['\'']);
}

/// The query for a unique id gives the metric.
pub proof fn lemma_metric_query(id: Seq<char>)
    ensures
        reads_metric(id_query(METRIC_ROW_HEAD@, id, LIMIT_ONE@), id),
{
    lemma_metric_row_head_head();
    lemma_table_names();
    reveal_strlit("' LIMIT 1");
    reveal_strlit(" LIMIT 1");
    assert(LIMIT_ONE@ =~= seq!['\''] + " LIMIT 1"@);
    lemma_id_query_reads(METRIC_ROW_HEAD@, id, LIMIT_ONE@, metric_detail_items(), "dbt.metrics"@, "unique_id"@, " LIMIT 1"@);
}

/// What is read for the metric with a unique id is what
/// the row of the database has.
#[verifier::spinoff_prover]
#[verifier::rlimit(40)]
pub proof fn lemma_metric_row(r: MetricDetail, batch: Batch, row: Row)
    requires
        is_metric_detail(r, batch),
        batch.num_rows > 0,
        shows(batch, 0, metric_detail_items(), row),
        has_columns(batch, seq!["unique_id"@, "name"@, "package_name"@, "description"@, "original_file_path"@, "file_path"@, "label"@, "metric_type"@, "type_params"@, "metric_filter"@, "time_granularity"@, "semantic_model_name"@, "group_name"@, "meta"@], Seq::empty()),
        has_lists(batch, seq!["fqn"@, "tags"@, "input_metric_names"@]),
    ensures
        row.at("unique_id"@) is Some ==> row.at("unique_id"@) == Some(r.base.unique_id@),
        row.at("name"@) is Some ==> row.at("name"@) == Some(r.base.name@),
        table_of(r.base.resource_type@) == "dbt.metrics"@,
        row.at("package_name"@) == opt_text(r.base.package_name),
        row.at("description"@) == opt_text(r.base.description),
        row.at("original_file_path"@) == opt_text(r.base.original_file_path),
        row.at("file_path"@) == opt_text(r.file_path),
        texts(r.fqn@) == items_of(row.list("fqn"@)),
        texts(r.tags@) == items_of(row.list("tags"@)),
        row.at("label"@) == opt_text(r.label),
        row.at("metric_type"@) == opt_text(r.metric_type),
        r.type_params@ == parsed_or_null(row.at("type_params"@)),
        r.filter@ == parsed_or_null(row.at("metric_filter"@)),
        row.at("time_granularity"@) == opt_text(r.time_granularity),
        row.at("semantic_model_name"@) == opt_text(r.semantic_model_name),
        texts(r.input_metric_names@) == items_of(row.list("input_metric_names"@)),
        row.at("group_name"@) == opt_text(r.group_name),
        r.meta@ == parsed_or_null(row.at("meta"@)),
{
    let items = metric_detail_items();
    let texts_of = seq!["unique_id"@, "name"@, "package_name"@, "description"@, "original_file_path"@, "file_path"@, "label"@, "metric_type"@, "type_params"@, "metric_filter"@, "time_granularity"@, "semantic_model_name"@, "group_name"@, "meta"@];
    assert(batch.has_text(texts_of[0]));
    assert(batch.has_text(texts_of[1]));
    assert(batch.has_text(texts_of[2]));
    assert(batch.has_text(texts_of[3]));
    assert(batch.has_text(texts_of[4]));
    assert(batch.has_text(texts_of[5]));
    assert(batch.has_text(texts_of[6]));
    assert(batch.has_text(texts_of[7]));
    assert(batch.has_text(texts_of[8]));
    assert(batch.has_text(texts_of[9]));
    assert(batch.has_text(texts_of[10]));
    assert(batch.has_text(texts_of[11]));
    assert(batch.has_text(texts_of[12]));
    assert(batch.has_text(texts_of[13]));
    let lists_of = seq!["fqn"@, "tags"@, "input_metric_names"@];
    assert(batch.column(lists_of[0]) is Some);
    assert(batch.column(lists_of[1]) is Some);
    assert(batch.column(lists_of[2]) is Some);
    assert(shows_value(batch, 0, items[0].name(), row.at(items[0].expr())));
    assert(shows_value(batch, 0, items[1].name(), row.at(items[1].expr())));
    assert(shows_value(batch, 0, items[2].name(), row.at(items[2].expr())));
    assert(shows_value(batch, 0, items[3].name(), row.at(items[3].expr())));
    assert(shows_value(batch, 0, items[4].name(), row.at(items[4].expr())));
    assert(shows_value(batch, 0, items[5].name(), row.at(items[5].expr())));
    assert(shows_value(batch, 0, items[6].name(), row.at(items[6].expr())));
    assert(shows_value(batch, 0, items[7].name(), row.at(items[7].expr())));
    assert(shows_value(batch, 0, items[8].name(), row.at(items[8].expr())));
    assert(shows_value(batch, 0, items[9].name(), row.at(items[9].expr())));
    assert(shows_value(batch, 0, items[10].name(), row.at(items[10].expr())));
    assert(shows_value(batch, 0, items[11].name(), row.at(items[11].expr())));
    assert(shows_value(batch, 0, items[12].name(), row.at(items[12].expr())));
    assert(shows_value(batch, 0, items[16].name(), row.at(items[16].expr())));
    assert(shows_list(batch, 0, items[14].name(), row.list(items[14].expr())));
    assert(shows_list(batch, 0, items[15].name(), row.list(items[15].expr())));
    assert(shows_list(batch, 0, items[13].name(), row.list(items[13].expr())));
    lemma_table_names();
}

/// What is shown of the saved query.
pub open spec fn saved_query_detail_items() -> Seq<Item> {
    seq![
        Item::Plain("unique_id"@),
        Item::Plain("name"@),
        Item::Plain("label"@),
        Item::Plain("description"@),
        Item::Plain("package_name"@),
        Item::Plain("original_file_path"@),
        Item::Plain("file_path"@),
        Item::Plain("fqn"@),
        Item::Plain("tags"@),
        Item::Plain("group_name"@),
        Item::Plain("created_at"@),
        Item::Plain("query_params"@),
        Item::Plain("exports"@),
        Item::Plain("depends_on_nodes"@),
    ]
}

#[verifier::spinoff_prover]
#[verifier::rlimit(40)]
proof fn lemma_saved_query_detail_items_text()
    ensures
        listed(saved_query_detail_items(), 14) == "unique_id, name, label, description, package_name, original_file_path, file_path, fqn, tags, group_name, created_at, query_params, exports, depends_on_nodes"@,
{
    reveal_with_fuel(listed, 6);
    reveal_strlit(", ");
    reveal_strlit("unique_id");
    reveal_strlit("name");
    reveal_strlit("label");
    reveal_strlit("description");
    reveal_strlit("package_name");
    reveal_strlit("original_file_path");
    reveal_strlit("file_path");
    reveal_strlit("fqn");
    reveal_strlit("tags");
    reveal_strlit("group_name");
    reveal_strlit("created_at");
    reveal_strlit("query_params");
    reveal_strlit("exports");
    reveal_strlit("depends_on_nodes");
    reveal_strlit("unique_id, name, label, description, package_name");
    reveal_strlit("unique_id, name, label, description, package_name, original_file_path, file_path, fqn, tags, group_name");
    reveal_strlit("unique_id, name, label, description, package_name, original_file_path, file_path, fqn, tags, group_name, created_at, query_params, exports, depends_on_nodes");
    let items = saved_query_detail_items();
    assert(listed(items, 5) =~= "unique_id, name, label, description, package_name"@);
    assert(listed(items, 10) =~= "unique_id, name, label, description, package_name, original_file_path, file_path, fqn, tags, group_name"@);
    assert(listed(items, 14) =~= "unique_id, name, label, description, package_name, original_file_path, file_path, fqn, tags, group_name, created_at, query_params, exports, depends_on_nodes"@);
}

/// Whether a query gives the saved query with a unique id.
pub open spec fn reads_saved_query(sql: Seq<char>, id: Seq<char>) -> bool {
    reads(sql, Seq::empty(), saved_query_detail_items(), table_of("saved_query"@), with_id("unique_id"@, id), " LIMIT 1"@)
}

#[verifier::spinoff_prover]
#[verifier::rlimit(40)]
proof fn lemma_saved_query_node_head_head()
    ensures
        SAVED_QUERY_NODE_HEAD@ == "SELECT "@ + listed(saved_query_detail_items(), saved_query_detail_items().len()) + " FROM "@ + "dbt.saved_queries"@ + " WHERE "@ + "unique_id"@ + " = "@ + seq!['\''],
{
    lemma_saved_query_detail_items_text();
    reveal_strlit("SELECT ");
    reveal_strlit(" FROM ");
    reveal_strlit("unique_id, name, label, description, package_name, original_file_path, file_path, fqn, tags, group_name, created_at, query_params, exports, depends_on_nodes");
    reveal_strlit("dbt.saved_queries");
    reveal_strlit(" WHERE ");
    reveal_strlit("unique_id");
    reveal_strlit(" = ");
    reveal_strlit(
        "SELECT unique_id, name, label, description, package_name, \
     original_file_path, file_path, \
     fqn, tags, group_name, created_at, \
     query_params, exports, depends_on_nodes \
     FROM dbt.saved_queries \
     WHERE unique_id = '",
    );
    assert(SAVED_QUERY_NODE_HEAD@ =~= "SELECT "@ + "unique_id, name, label, description, package_name, original_file_path, file_path, fqn, tags, group_name, created_at, query_params, exports, depends_on_nodes"@ + " FROM "@ + "dbt.saved_queries"@ + " WHERE "@ + "unique_id"@ + " = "@ + seq!['\'']);
}

/// The query for a unique id gives the saved query.
pub proof fn lemma_saved_query_query(id: Seq<char>)
    ensures
        reads_saved_query(id_query(SAVED_QUERY_NODE_HEAD@, id, LIMIT_ONE@), id),
{
    lemma_saved_query_node_head_head();
    lemma_table_names();
    reveal_strlit("' LIMIT 1");
    reveal_strlit(" LIMIT 1");
    assert(LIMIT_ONE@ =~= seq!['\''] + " LIMIT 1"@);
    lemma_id_query_reads(SAVED_QUERY_NODE_HEAD@, id, LIMIT_ONE@, saved_query_detail_items(), "dbt.saved_queries"@, "unique_id"@, " LIMIT 1"@);
}

/// What is read for the saved query with a unique id is what
/// the row of the database has.
#[verifier::spinoff_prover]
#[verifier::rlimit(40)]
pub proof fn lemma_saved_query_row(r: SavedQueryDetail, batch: Batch, row: Row)
    requires
        is_saved_query_detail(r, batch),
        batch.num_rows > 0,
        shows(batch, 0, saved_query_detail_items(), row),
        has_columns(batch, seq!["unique_id"@, "name"@, "package_name"@, "description"@, "original_file_path"@, "label"@, "file_path"@, "group_name"@, "query_params"@, "exports"@], Seq::empty()),
        has_lists(batch, seq!["fqn"@, "tags"@, "depends_on_nodes"@]),
    ensures
        row.at("unique_id"@) is Some ==> row.at("unique_id"@) == Some(r.base.unique_id@),
        row.at("name"@) is Some ==> row.at("name"@) == Some(r.base.name@),
        table_of(r.base.resource_type@) == "dbt.saved_queries"@,
        row.at("package_name"@) == opt_text(r.base.package_name),
        row.at("description"@) == opt_text(r.base.description),
        row.at("original_file_path"@) == opt_text(r.base.original_file_path),
        row.at("label"@) == opt_text(r.label),
        row.at("file_path"@) == opt_text(r.file_path),
        texts(r.fqn@) == items_of(row.list("fqn"@)),
        texts(r.tags@) == items_of(row.list("tags"@)),
        row.at("group_name"@) == opt_text(r.group_name),
        r.query_params@ == parsed_or_null(row.at("query_params"@)),
        r.exports@ == parsed_or_null(row.at("exports"@)),
        edge_ids(r.depends_on@) == items_of(row.list("depends_on_nodes"@)),
        typed_by_ids(r.depends_on@, true),
{
    let items = saved_query_detail_items();
    let texts_of = seq!["unique_id"@, "name"@, "package_name"@, "description"@, "original_file_path"@, "label"@, "file_path"@, "group_name"@, "query_params"@, "exports"@];
    assert(batch.has_text(texts_of[0]));
    assert(batch.has_text(texts_of[1]));
    assert(batch.has_text(texts_of[2]));
    assert(batch.has_text(texts_of[3]));
    assert(batch.has_text(texts_of[4]));
    assert(batch.has_text(texts_of[5]));
    assert(batch.has_text(texts_of[6]));
    assert(batch.has_text(texts_of[7]));
    assert(batch.has_text(texts_of[8]));
    assert(batch.has_text(texts_of[9]));
    let lists_of = seq!["fqn"@, "tags"@, "depends_on_nodes"@];
    assert(batch.column(lists_of[0]) is Some);
    assert(batch.column(lists_of[1]) is Some);
    assert(batch.column(lists_of[2]) is Some);
    assert(shows_value(batch, 0, items[0].name(), row.at(items[0].expr())));
    assert(shows_value(batch, 0, items[1].name(), row.at(items[1].expr())));
    assert(shows_value(batch, 0, items[4].name(), row.at(items[4].expr())));
    assert(shows_value(batch, 0, items[3].name(), row.at(items[3].expr())));
    assert(shows_value(batch, 0, items[5].name(), row.at(items[5].expr())));
    assert(shows_value(batch, 0, items[2].name(), row.at(items[2].expr())));
    assert(shows_value(batch, 0, items[6].name(), row.at(items[6].expr())));
    assert(shows_value(batch, 0, items[9].name(), row.at(items[9].expr())));
    assert(shows_value(batch, 0, items[11].name(), row.at(items[11].expr())));
    assert(shows_value(batch, 0, items[12].name(), row.at(items[12].expr())));
    assert(shows_list(batch, 0, items[7].name(), row.list(items[7].expr())));
    assert(shows_list(batch, 0, items[8].name(), row.list(items[8].expr())));
    assert(shows_list(batch, 0, items[13].name(), row.list(items[13].expr())));
    lemma_table_names();
    assert forall|k: int| 0 <= k < r.depends_on@.len() implies starts_with_type(
        (#[trigger] r.depends_on@[k]).unique_id@,
        r.depends_on@[k].edge_type@,
        true,
    ) by {
        let id = r.depends_on@[k].unique_id@;
        lemma_cut_at_the_first(id, '.');
        if let Some((before, after)) = split_at_first(id, '.') {
            assert(id =~= before.push('.') + after);
            assert(id[before.len() as int] == '.');
            assert(before =~= id.take(before.len() as int));
        }
    }
}

/// What is shown of the group.
pub open spec fn group_detail_items() -> Seq<Item> {
    seq![
        Item::Of("g"@, "unique_id"@),
        Item::Of("g"@, "name"@),
        Item::Of("g"@, "package_name"@),
        Item::Of("g"@, "description"@),
        Item::Of("g"@, "original_file_path"@),
        Item::Of("g"@, "owner_name"@),
        Item::Of("g"@, "owner_email"@),
        Item::Of("g"@, "config"@),
        Item::As("CAST(g.ingested_at AS VARCHAR)"@, "ingested_at"@),
    ]
}

#[verifier::spinoff_prover]
#[verifier::rlimit(40)]
proof fn lemma_group_detail_items_text()
    ensures
        listed(group_detail_items(), 9) == "g.unique_id, g.name, g.package_name, g.description, g.original_file_path, g.owner_name, g.owner_email, g.config, CAST(g.ingested_at AS VARCHAR) AS ingested_at"@,
{
    reveal_with_fuel(listed, 6);
    reveal_strlit(", ");
    reveal_strlit(".");
    reveal_strlit(" AS ");
    reveal_strlit("g");
    reveal_strlit("unique_id");
    reveal_strlit("name");
    reveal_strlit("package_name");
    reveal_strlit("description");
    reveal_strlit("original_file_path");
    reveal_strlit("owner_name");
    reveal_strlit("owner_email");
    reveal_strlit("config");
    reveal_strlit("CAST(g.ingested_at AS VARCHAR)");
    reveal_strlit("ingested_at");
    reveal_strlit("g.unique_id, g.name, g.package_name, g.description, g.original_file_path");
    reveal_strlit("g.unique_id, g.name, g.package_name, g.description, g.original_file_path, g.owner_name, g.owner_email, g.config, CAST(g.ingested_at AS VARCHAR) AS ingested_at");
    let items = group_detail_items();
    assert(listed(items, 5) =~= "g.unique_id, g.name, g.package_name, g.description, g.original_file_path"@);
    assert(listed(items, 9) =~= "g.unique_id, g.name, g.package_name, g.description, g.original_file_path, g.owner_name, g.owner_email, g.config, CAST(g.ingested_at AS VARCHAR) AS ingested_at"@);
}

/// Whether a query gives the group with a unique id.
pub open spec fn reads_group(sql: Seq<char>, id: Seq<char>) -> bool {
    reads(sql, Seq::empty(), group_detail_items(), table_of("group"@) + " g"@, with_id("g.unique_id"@, id), " LIMIT 1"@)
}

#[verifier::spinoff_prover]
#[verifier::rlimit(40)]
proof fn lemma_group_node_head_head()
    ensures
        GROUP_NODE_HEAD@ == "SELECT "@ + listed(group_detail_items(), group_detail_items().len()) + " FROM "@ + "dbt.groups g"@ + " WHERE "@ + "g.unique_id"@ + " = "@ + seq!['\''],
{
    lemma_group_detail_items_text();
    reveal_strlit("SELECT ");
    reveal_strlit(" FROM ");
    reveal_strlit("g.unique_id, g.name, g.package_name, g.description, g.original_file_path, g.owner_name, g.owner_email, g.config, CAST(g.ingested_at AS VARCHAR) AS ingested_at");
    reveal_strlit("dbt.groups g");
    reveal_strlit(" WHERE ");
    reveal_strlit("g.unique_id");
    reveal_strlit(" = ");
    reveal_strlit(
        "SELECT g.unique_id, g.name, g.package_name, g.description, \
     g.original_file_path, \
     g.owner_name, g.owner_email, g.config, \
     CAST(g.ingested_at AS VARCHAR) AS ingested_at \
     FROM dbt.groups g \
     WHERE g.unique_id = '",
    );
    assert(GROUP_NODE_HEAD@ =~= "SELECT "@ + "g.unique_id, g.name, g.package_name, g.description, g.original_file_path, g.owner_name, g.owner_email, g.config, CAST(g.ingested_at AS VARCHAR) AS ingested_at"@ + " FROM "@ + "dbt.groups g"@ + " WHERE "@ + "g.unique_id"@ + " = "@ + seq!['\'']);
}

/// The query for a unique id gives the group.
pub proof fn lemma_group_query(id: Seq<char>)
    ensures
        reads_group(id_query(GROUP_NODE_HEAD@, id, LIMIT_ONE@), id),
{
    lemma_group_node_head_head();
    lemma_table_names();
    reveal_strlit("' LIMIT 1");
    reveal_strlit(" LIMIT 1");
    reveal_strlit("dbt.groups g");
    reveal_strlit(" g");
    reveal_strlit("dbt.groups");
    assert(table_of("group"@) + " g"@ =~= "dbt.groups g"@);
    assert(LIMIT_ONE@ =~= seq!['\''] + " LIMIT 1"@);
    lemma_id_query_reads(GROUP_NODE_HEAD@, id, LIMIT_ONE@, group_detail_items(), "dbt.groups g"@, "g.unique_id"@, " LIMIT 1"@);
}

/// What is read for the group with a unique id is what
/// the row of the database has.
#[verifier::spinoff_prover]
#[verifier::rlimit(40)]
pub proof fn lemma_group_row(r: GroupDetail, batch: Batch, row: Row)
    requires
        is_group_detail(r, batch),
        batch.num_rows > 0,
        shows(batch, 0, group_detail_items(), row),
        has_columns(batch, seq!["unique_id"@, "name"@, "package_name"@, "description"@, "original_file_path"@, "owner_name"@, "owner_email"@, "config"@, "ingested_at"@], Seq::empty()),
    ensures
        row.at("g.unique_id"@) is Some ==> row.at("g.unique_id"@) == Some(r.base.unique_id@),
        row.at("g.name"@) is Some ==> row.at("g.name"@) == Some(r.base.name@),
        table_of(r.base.resource_type@) == "dbt.groups"@,
        row.at("g.package_name"@) == opt_text(r.base.package_name),
        row.at("g.description"@) == opt_text(r.base.description),
        row.at("g.original_file_path"@) == opt_text(r.base.original_file_path),
        match r.owner {
            Some(o) => row.at("g.owner_name"@) == opt_text(o.name) && row.at("g.owner_email"@) == opt_text(o.email),
            None => row.at("g.owner_name"@) is None && row.at("g.owner_email"@) is None,
        },
        match r.owner {
            Some(o) => opt_text(o.slack) == config_owner(parsed_or_null(row.at("g.config"@)), "slack"@) && opt_text(o.github)
                == config_owner(parsed_or_null(row.at("g.config"@)), "github"@),
            None => config_owner(parsed_or_null(row.at("g.config"@)), "slack"@) is None && config_owner(parsed_or_null(row.at("g.config"@)), "github"@) is None,
        },
        texts(r.tags@) == config_tags(parsed_or_null(row.at("g.config"@))),
        r.meta@ == config_meta(parsed_or_null(row.at("g.config"@))),
        row.at("CAST(g.ingested_at AS VARCHAR)"@) == opt_text(r.ingested_at),
{
    let items = group_detail_items();
    reveal_strlit(".");
    reveal_strlit("g");
    reveal_strlit("unique_id");
    reveal_strlit("g.unique_id");
    reveal_strlit("name");
    reveal_strlit("g.name");
    reveal_strlit("package_name");
    reveal_strlit("g.package_name");
    reveal_strlit("description");
    reveal_strlit("g.description");
    reveal_strlit("original_file_path");
    reveal_strlit("g.original_file_path");
    reveal_strlit("owner_name");
    reveal_strlit("g.owner_name");
    reveal_strlit("owner_email");
    reveal_strlit("g.owner_email");
    reveal_strlit("config");
    reveal_strlit("g.config");
    assert("g"@ + "."@ + "unique_id"@ =~= "g.unique_id"@);
    assert("g"@ + "."@ + "name"@ =~= "g.name"@);
    assert("g"@ + "."@ + "package_name"@ =~= "g.package_name"@);
    assert("g"@ + "."@ + "description"@ =~= "g.description"@);
    assert("g"@ + "."@ + "original_file_path"@ =~= "g.original_file_path"@);
    assert("g"@ + "."@ + "owner_name"@ =~= "g.owner_name"@);
    assert("g"@ + "."@ + "owner_email"@ =~= "g.owner_email"@);
    assert("g"@ + "."@ + "config"@ =~= "g.config"@);
    let texts_of = seq!["unique_id"@, "name"@, "package_name"@, "description"@, "original_file_path"@, "owner_name"@, "owner_email"@, "config"@, "ingested_at"@];
    assert(batch.has_text(texts_of[0]));
    assert(batch.has_text(texts_of[1]));
    assert(batch.has_text(texts_of[2]));
    assert(batch.has_text(texts_of[3]));
    assert(batch.has_text(texts_of[4]));
    assert(batch.has_text(texts_of[5]));
    assert(batch.has_text(texts_of[6]));
    assert(batch.has_text(texts_of[7]));
    assert(batch.has_text(texts_of[8]));
    assert(shows_value(batch, 0, items[0].name(), row.at(items[0].expr())));
    assert(shows_value(batch, 0, items[1].name(), row.at(items[1].expr())));
    assert(shows_value(batch, 0, items[2].name(), row.at(items[2].expr())));
    assert(shows_value(batch, 0, items[3].name(), row.at(items[3].expr())));
    assert(shows_value(batch, 0, items[4].name(), row.at(items[4].expr())));
    assert(shows_value(batch, 0, items[5].name(), row.at(items[5].expr())));
    assert(shows_value(batch, 0, items[6].name(), row.at(items[6].expr())));
    assert(shows_value(batch, 0, items[7].name(), row.at(items[7].expr())));
    assert(shows_value(batch, 0, items[8].name(), row.at(items[8].expr())));
    lemma_table_names();
}

/// What is shown of the model.
pub open spec fn model_detail_items() -> Seq<Item> {
    seq![
        Item::Of("n"@, "unique_id"@),
        Item::Of("n"@, "name"@),
        Item::Of("n"@, "resource_type"@),
        Item::Of("n"@, "package_name"@),
        Item::Of("n"@, "materialized"@),
        Item::Of("n"@, "description"@),
        Item::Of("n"@, "database_name"@),
        Item::Of("n"@, "schema_name"@),
        Item::Of("n"@, "relation_name"@),
        Item::Of("n"@, "identifier"@),
        Item::Of("n"@, "original_file_path"@),
        Item::Of("n"@, "access_level"@),
        Item::Of("n"@, "group_name"@),
        Item::Of("n"@, "raw_code"@),
        Item::Of("n"@, "compiled_code"@),
        Item::Of("n"@, "contract_enforced"@),
        Item::Of("n"@, "tags"@),
        Item::Of("n"@, "fqn"@),
    ]
}

#[verifier::spinoff_prover]
#[verifier::rlimit(40)]
proof fn lemma_model_detail_items_text()
    ensures
        listed(model_detail_items(), 18) == "n.unique_id, n.name, n.resource_type, n.package_name, n.materialized, n.description, n.database_name, n.schema_name, n.relation_name, n.identifier, n.original_file_path, n.access_level, n.group_name, n.raw_code, n.compiled_code, n.contract_enforced, n.tags, n.fqn"@,
{
    reveal_with_fuel(listed, 6);
    reveal_strlit(", ");
    reveal_strlit(".");
    reveal_strlit("n");
    reveal_strlit("unique_id");
    reveal_strlit("name");
    reveal_strlit("resource_type");
    reveal_strlit("package_name");
    reveal_strlit("materialized");
    reveal_strlit("description");
    reveal_strlit("database_name");
    reveal_strlit("schema_name");
    reveal_strlit("relation_name");
    reveal_strlit("identifier");
    reveal_strlit("original_file_path");
    reveal_strlit("access_level");
    reveal_strlit("group_name");
    reveal_strlit("raw_code");
    reveal_strlit("compiled_code");
    reveal_strlit("contract_enforced");
    reveal_strlit("tags");
    reveal_strlit("fqn");
    reveal_strlit("n.unique_id, n.name, n.resource_type, n.package_name, n.materialized");
    reveal_strlit("n.unique_id, n.name, n.resource_type, n.package_name, n.materialized, n.description, n.database_name, n.schema_name, n.relation_name, n.identifier");
    reveal_strlit("n.unique_id, n.name, n.resource_type, n.package_name, n.materialized, n.description, n.database_name, n.schema_name, n.relation_name, n.identifier, n.original_file_path, n.access_level, n.group_name, n.raw_code, n.compiled_code");
    reveal_strlit("n.unique_id, n.name, n.resource_type, n.package_name, n.materialized, n.description, n.database_name, n.schema_name, n.relation_name, n.identifier, n.original_file_path, n.access_level, n.group_name, n.raw_code, n.compiled_code, n.contract_enforced, n.tags, n.fqn");
    let items = model_detail_items();
    assert(listed(items, 5) =~= "n.unique_id, n.name, n.resource_type, n.package_name, n.materialized"@);
    assert(listed(items, 10) =~= "n.unique_id, n.name, n.resource_type, n.package_name, n.materialized, n.description, n.database_name, n.schema_name, n.relation_name, n.identifier"@);
    assert(listed(items, 15) =~= "n.unique_id, n.name, n.resource_type, n.package_name, n.materialized, n.description, n.database_name, n.schema_name, n.relation_name, n.identifier, n.original_file_path, n.access_level, n.group_name, n.raw_code, n.compiled_code"@);
    assert(listed(items, 18) =~= "n.unique_id, n.name, n.resource_type, n.package_name, n.materialized, n.description, n.database_name, n.schema_name, n.relation_name, n.identifier, n.original_file_path, n.access_level, n.group_name, n.raw_code, n.compiled_code, n.contract_enforced, n.tags, n.fqn"@);
}

/// Whether a query gives the model with a unique id: a node of another type is none.
pub open spec fn reads_model(sql: Seq<char>, id: Seq<char>) -> bool {
    reads(sql, Seq::empty(), model_detail_items(), table_of("node"@) + " n"@, with_id_and_type("n.unique_id"@, id, "n.resource_type"@, "model"@), " LIMIT 1"@)
}

#[verifier::spinoff_prover]
#[verifier::rlimit(40)]
proof fn lemma_model_node_head_head()
    ensures
        MODEL_NODE_HEAD@ == "SELECT "@ + listed(model_detail_items(), model_detail_items().len()) + " FROM "@ + "dbt.nodes n"@ + " WHERE "@ + "n.unique_id"@ + " = "@ + seq!['\''],
{
    lemma_model_detail_items_text();
    reveal_strlit("SELECT ");
    reveal_strlit(" FROM ");
    reveal_strlit("n.unique_id, n.name, n.resource_type, n.package_name, n.materialized, n.description, n.database_name, n.schema_name, n.relation_name, n.identifier, n.original_file_path, n.access_level, n.group_name, n.raw_code, n.compiled_code, n.contract_enforced, n.tags, n.fqn");
    reveal_strlit("dbt.nodes n");
    reveal_strlit(" WHERE ");
    reveal_strlit("n.unique_id");
    reveal_strlit(" = ");
    reveal_strlit(
        "SELECT n.unique_id, n.name, n.resource_type, n.package_name, \
     n.materialized, n.description, n.database_name, n.schema_name, \
     n.relation_name, n.identifier, n.original_file_path, \
     n.access_level, n.group_name, n.raw_code, n.compiled_code, \
     n.contract_enforced, n.tags, n.fqn \
     FROM dbt.nodes n \
     WHERE n.unique_id = '",
    );
    assert(MODEL_NODE_HEAD@ =~= "SELECT "@ + "n.unique_id, n.name, n.resource_type, n.package_name, n.materialized, n.description, n.database_name, n.schema_name, n.relation_name, n.identifier, n.original_file_path, n.access_level, n.group_name, n.raw_code, n.compiled_code, n.contract_enforced, n.tags, n.fqn"@ + " FROM "@ + "dbt.nodes n"@ + " WHERE "@ + "n.unique_id"@ + " = "@ + seq!['\'']);
}

/// The query for a unique id gives the model.
pub proof fn lemma_model_query(id: Seq<char>)
    ensures
        reads_model(id_query(MODEL_NODE_HEAD@, id, MODEL_NODE_TAIL@), id),
{
    lemma_model_node_head_head();
    lemma_table_names();
    reveal_strlit("' AND n.resource_type = 'model' LIMIT 1");
    reveal_strlit(" LIMIT 1");
    reveal_strlit("dbt.nodes n");
    reveal_strlit(" n");
    reveal_strlit("dbt.nodes");
    reveal_strlit(" AND ");
    reveal_strlit("n.resource_type");
    reveal_strlit(" = ");
    reveal_strlit("model");
    assert(table_of("node"@) + " n"@ =~= "dbt.nodes n"@);
    lemma_plain_literal("model"@);
    assert(MODEL_NODE_TAIL@ =~= seq!['\''] + " AND "@ + "n.resource_type"@ + " = "@ + literal("model"@) + " LIMIT 1"@);
    lemma_typed_id_query_reads(
        MODEL_NODE_HEAD@,
        id,
        MODEL_NODE_TAIL@,
        model_detail_items(),
        "dbt.nodes n"@,
        "n.unique_id"@,
        "n.resource_type"@,
        "model"@,
        " LIMIT 1"@,
    );
}

/// What is read for the model with a unique id is what
/// the row of the database has.
#[verifier::spinoff_prover]
#[verifier::rlimit(40)]
pub proof fn lemma_model_row(r: ModelDetail, batch: Batch, row: Row)
    requires
        is_node_detail(r, batch),
        batch.num_rows > 0,
        shows(batch, 0, model_detail_items(), row),
        has_columns(batch, seq!["unique_id"@, "name"@, "resource_type"@, "package_name"@, "materialized"@, "description"@, "database_name"@, "schema_name"@, "relation_name"@, "identifier"@, "original_file_path"@, "access_level"@, "group_name"@, "raw_code"@, "compiled_code"@], seq!["contract_enforced"@]),
        has_lists(batch, seq!["tags"@, "fqn"@]),
    ensures
        row.at("n.unique_id"@) is Some ==> row.at("n.unique_id"@) == Some(r.unique_id@),
        row.at("n.name"@) is Some ==> row.at("n.name"@) == Some(r.name@),
        row.at("n.resource_type"@) is Some ==> row.at("n.resource_type"@) == Some(r.resource_type@),
        row.at("n.package_name"@) == opt_text(r.package_name),
        row.at("n.materialized"@) == opt_text(r.materialized),
        row.at("n.description"@) == opt_text(r.description),
        row.at("n.database_name"@) == opt_text(r.database_name),
        row.at("n.schema_name"@) == opt_text(r.schema_name),
        row.at("n.relation_name"@) == opt_text(r.relation_name),
        row.at("n.identifier"@) == opt_text(r.identifier),
        row.at("n.original_file_path"@) == opt_text(r.original_file_path),
        row.at("n.access_level"@) == opt_text(r.access_level),
        row.at("n.group_name"@) == opt_text(r.group_name),
        row.at("n.raw_code"@) == opt_text(r.raw_code),
        row.at("n.compiled_code"@) == opt_text(r.compiled_code),
        row.at("n.contract_enforced"@) == flag_text(r.contract_enforced),
        texts(r.tags@) == items_of(row.list("n.tags"@)),
        texts(r.fqn@) == items_of(row.list("n.fqn"@)),
{
    let items = model_detail_items();
    reveal_strlit(".");
    reveal_strlit("n");
    reveal_strlit("unique_id");
    reveal_strlit("n.unique_id");
    reveal_strlit("name");
    reveal_strlit("n.name");
    reveal_strlit("resource_type");
    reveal_strlit("n.resource_type");
    reveal_strlit("package_name");
    reveal_strlit("n.package_name");
    reveal_strlit("materialized");
    reveal_strlit("n.materialized");
    reveal_strlit("description");
    reveal_strlit("n.description");
    reveal_strlit("database_name");
    reveal_strlit("n.database_name");
    reveal_strlit("schema_name");
    reveal_strlit("n.schema_name");
    reveal_strlit("relation_name");
    reveal_strlit("n.relation_name");
    reveal_strlit("identifier");
    reveal_strlit("n.identifier");
    reveal_strlit("original_file_path");
    reveal_strlit("n.original_file_path");
    reveal_strlit("access_level");
    reveal_strlit("n.access_level");
    reveal_strlit("group_name");
    reveal_strlit("n.group_name");
    reveal_strlit("raw_code");
    reveal_strlit("n.raw_code");
    reveal_strlit("compiled_code");
    reveal_strlit("n.compiled_code");
    reveal_strlit("tags");
    reveal_strlit("n.tags");
    reveal_strlit("fqn");
    reveal_strlit("n.fqn");
    reveal_strlit("contract_enforced");
    reveal_strlit("n.contract_enforced");
    assert("n"@ + "."@ + "unique_id"@ =~= "n.unique_id"@);
    assert("n"@ + "."@ + "name"@ =~= "n.name"@);
    assert("n"@ + "."@ + "resource_type"@ =~= "n.resource_type"@);
    assert("n"@ + "."@ + "package_name"@ =~= "n.package_name"@);
    assert("n"@ + "."@ + "materialized"@ =~= "n.materialized"@);
    assert("n"@ + "."@ + "description"@ =~= "n.description"@);
    assert("n"@ + "."@ + "database_name"@ =~= "n.database_name"@);
    assert("n"@ + "."@ + "schema_name"@ =~= "n.schema_name"@);
    assert("n"@ + "."@ + "relation_name"@ =~= "n.relation_name"@);
    assert("n"@ + "."@ + "identifier"@ =~= "n.identifier"@);
    assert("n"@ + "."@ + "original_file_path"@ =~= "n.original_file_path"@);
    assert("n"@ + "."@ + "access_level"@ =~= "n.access_level"@);
    assert("n"@ + "."@ + "group_name"@ =~= "n.group_name"@);
    assert("n"@ + "."@ + "raw_code"@ =~= "n.raw_code"@);
    assert("n"@ + "."@ + "compiled_code"@ =~= "n.compiled_code"@);
    assert("n"@ + "."@ + "tags"@ =~= "n.tags"@);
    assert("n"@ + "."@ + "fqn"@ =~= "n.fqn"@);
    assert("n"@ + "."@ + "contract_enforced"@ =~= "n.contract_enforced"@);
    let texts_of = seq!["unique_id"@, "name"@, "resource_type"@, "package_name"@, "materialized"@, "description"@, "database_name"@, "schema_name"@, "relation_name"@, "identifier"@, "original_file_path"@, "access_level"@, "group_name"@, "raw_code"@, "compiled_code"@];
    assert(batch.has_text(texts_of[0]));
    assert(batch.has_text(texts_of[1]));
    assert(batch.has_text(texts_of[2]));
    assert(batch.has_text(texts_of[3]));
    assert(batch.has_text(texts_of[4]));
    assert(batch.has_text(texts_of[5]));
    assert(batch.has_text(texts_of[6]));
    assert(batch.has_text(texts_of[7]));
    assert(batch.has_text(texts_of[8]));
    assert(batch.has_text(texts_of[9]));
    assert(batch.has_text(texts_of[10]));
    assert(batch.has_text(texts_of[11]));
    assert(batch.has_text(texts_of[12]));
    assert(batch.has_text(texts_of[13]));
    assert(batch.has_text(texts_of[14]));
    let lists_of = seq!["tags"@, "fqn"@];
    assert(batch.column(lists_of[0]) is Some);
    assert(batch.column(lists_of[1]) is Some);
    let flags_of = seq!["contract_enforced"@];
    assert(batch.has_bool(flags_of[0]));
    assert(shows_value(batch, 0, items[0].name(), row.at(items[0].expr())));
    assert(shows_value(batch, 0, items[1].name(), row.at(items[1].expr())));
    assert(shows_value(batch, 0, items[2].name(), row.at(items[2].expr())));
    assert(shows_value(batch, 0, items[3].name(), row.at(items[3].expr())));
    assert(shows_value(batch, 0, items[4].name(), row.at(items[4].expr())));
    assert(shows_value(batch, 0, items[5].name(), row.at(items[5].expr())));
    assert(shows_value(batch, 0, items[6].name(), row.at(items[6].expr())));
    assert(shows_value(batch, 0, items[7].name(), row.at(items[7].expr())));
    assert(shows_value(batch, 0, items[8].name(), row.at(items[8].expr())));
    assert(shows_value(batch, 0, items[9].name(), row.at(items[9].expr())));
    assert(shows_value(batch, 0, items[10].name(), row.at(items[10].expr())));
    assert(shows_value(batch, 0, items[11].name(), row.at(items[11].expr())));
    assert(shows_value(batch, 0, items[12].name(), row.at(items[12].expr())));
    assert(shows_value(batch, 0, items[13].name(), row.at(items[13].expr())));
    assert(shows_value(batch, 0, items[14].name(), row.at(items[14].expr())));
    assert(shows_list(batch, 0, items[16].name(), row.list(items[16].expr())));
    assert(shows_list(batch, 0, items[17].name(), row.list(items[17].expr())));
    assert(shows_value(batch, 0, items[15].name(), row.at(items[15].expr())));
}

/// What is shown of the seed.
pub open spec fn seed_detail_items() -> Seq<Item> {
    seq![
        Item::Of("n"@, "unique_id"@),
        Item::Of("n"@, "name"@),
        Item::Of("n"@, "resource_type"@),
        Item::Of("n"@, "package_name"@),
        Item::Of("n"@, "description"@),
        Item::Of("n"@, "original_file_path"@),
        Item::Of("n"@, "file_path"@),
        Item::Of("n"@, "patch_path"@),
        Item::Of("n"@, "database_name"@),
        Item::Of("n"@, "schema_name"@),
        Item::As("n.alias"@, "identifier"@),
        Item::Of("n"@, "meta"@),
        Item::Of("n"@, "tags"@),
        Item::Of("n"@, "fqn"@),
    ]
}

#[verifier::spinoff_prover]
#[verifier::rlimit(40)]
proof fn lemma_seed_detail_items_text()
    ensures
        listed(seed_detail_items(), 14) == "n.unique_id, n.name, n.resource_type, n.package_name, n.description, n.original_file_path, n.file_path, n.patch_path, n.database_name, n.schema_name, n.alias AS identifier, n.meta, n.tags, n.fqn"@,
{
    reveal_with_fuel(listed, 6);
    reveal_strlit(", ");
    reveal_strlit(".");
    reveal_strlit(" AS ");
    reveal_strlit("n");
    reveal_strlit("unique_id");
    reveal_strlit("name");
    reveal_strlit("resource_type");
    reveal_strlit("package_name");
    reveal_strlit("description");
    reveal_strlit("original_file_path");
    reveal_strlit("file_path");
    reveal_strlit("patch_path");
    reveal_strlit("database_name");
    reveal_strlit("schema_name");
    reveal_strlit("n.alias");
    reveal_strlit("identifier");
    reveal_strlit("meta");
    reveal_strlit("tags");
    reveal_strlit("fqn");
    reveal_strlit("n.unique_id, n.name, n.resource_type, n.package_name, n.description");
    reveal_strlit("n.unique_id, n.name, n.resource_type, n.package_name, n.description, n.original_file_path, n.file_path, n.patch_path, n.database_name, n.schema_name");
    reveal_strlit("n.unique_id, n.name, n.resource_type, n.package_name, n.description, n.original_file_path, n.file_path, n.patch_path, n.database_name, n.schema_name, n.alias AS identifier, n.meta, n.tags, n.fqn");
    let items = seed_detail_items();
    assert(listed(items, 5) =~= "n.unique_id, n.name, n.resource_type, n.package_name, n.description"@);
    assert(listed(items, 10) =~= "n.unique_id, n.name, n.resource_type, n.package_name, n.description, n.original_file_path, n.file_path, n.patch_path, n.database_name, n.schema_name"@);
    assert(listed(items, 14) =~= "n.unique_id, n.name, n.resource_type, n.package_name, n.description, n.original_file_path, n.file_path, n.patch_path, n.database_name, n.schema_name, n.alias AS identifier, n.meta, n.tags, n.fqn"@);
}

/// Whether a query gives the seed with a unique id: a node of another type is none.
pub open spec fn reads_seed(sql: Seq<char>, id: Seq<char>) -> bool {
    reads(sql, Seq::empty(), seed_detail_items(), table_of("node"@) + " n"@, with_id_and_type("n.unique_id"@, id, "n.resource_type"@, "seed"@), " LIMIT 1"@)
}

#[verifier::spinoff_prover]
#[verifier::rlimit(40)]
proof fn lemma_seed_node_head_head()
    ensures
        SEED_NODE_HEAD@ == "SELECT "@ + listed(seed_detail_items(), seed_detail_items().len()) + " FROM "@ + "dbt.nodes n"@ + " WHERE "@ + "n.unique_id"@ + " = "@ + seq!['\''],
{
    lemma_seed_detail_items_text();
    reveal_strlit("SELECT ");
    reveal_strlit(" FROM ");
    reveal_strlit("n.unique_id, n.name, n.resource_type, n.package_name, n.description, n.original_file_path, n.file_path, n.patch_path, n.database_name, n.schema_name, n.alias AS identifier, n.meta, n.tags, n.fqn");
    reveal_strlit("dbt.nodes n");
    reveal_strlit(" WHERE ");
    reveal_strlit("n.unique_id");
    reveal_strlit(" = ");
    reveal_strlit(
        "SELECT n.unique_id, n.name, n.resource_type, n.package_name, n.description, \
     n.original_file_path, n.file_path, n.patch_path, \
     n.database_name, n.schema_name, n.alias AS identifier, n.meta, \
     n.tags, n.fqn \
     FROM dbt.nodes n \
     WHERE n.unique_id = '",
    );
    assert(SEED_NODE_HEAD@ =~= "SELECT "@ + "n.unique_id, n.name, n.resource_type, n.package_name, n.description, n.original_file_path, n.file_path, n.patch_path, n.database_name, n.schema_name, n.alias AS identifier, n.meta, n.tags, n.fqn"@ + " FROM "@ + "dbt.nodes n"@ + " WHERE "@ + "n.unique_id"@ + " = "@ + seq!['\'']);
}

/// The query for a unique id gives the seed.
pub proof fn lemma_seed_query(id: Seq<char>)
    ensures
        reads_seed(id_query(SEED_NODE_HEAD@, id, SEED_NODE_TAIL@), id),
{
    lemma_seed_node_head_head();
    lemma_table_names();
    reveal_strlit("' AND n.resource_type = 'seed' LIMIT 1");
    reveal_strlit(" LIMIT 1");
    reveal_strlit("dbt.nodes n");
    reveal_strlit(" n");
    reveal_strlit("dbt.nodes");
    reveal_strlit(" AND ");
    reveal_strlit("n.resource_type");
    reveal_strlit(" = ");
    reveal_strlit("seed");
    assert(table_of("node"@) + " n"@ =~= "dbt.nodes n"@);
    lemma_plain_literal("seed"@);
    assert(SEED_NODE_TAIL@ =~= seq!['\''] + " AND "@ + "n.resource_type"@ + " = "@ + literal("seed"@) + " LIMIT 1"@);
    lemma_typed_id_query_reads(
        SEED_NODE_HEAD@,
        id,
        SEED_NODE_TAIL@,
        seed_detail_items(),
        "dbt.nodes n"@,
        "n.unique_id"@,
        "n.resource_type"@,
        "seed"@,
        " LIMIT 1"@,
    );
}

/// What is read for the seed with a unique id is what
/// the row of the database has.
#[verifier::spinoff_prover]
#[verifier::rlimit(40)]
pub proof fn lemma_seed_row(r: SeedDetail, batch: Batch, row: Row)
    requires
        is_seed_detail(r, batch),
        batch.num_rows > 0,
        shows(batch, 0, seed_detail_items(), row),
        has_columns(batch, seq!["unique_id"@, "name"@, "resource_type"@, "package_name"@, "description"@, "original_file_path"@, "file_path"@, "patch_path"@, "database_name"@, "schema_name"@, "identifier"@, "meta"@], Seq::empty()),
        has_lists(batch, seq!["tags"@, "fqn"@]),
    ensures
        row.at("n.unique_id"@) is Some ==> row.at("n.unique_id"@) == Some(r.base.unique_id@),
        row.at("n.name"@) is Some ==> row.at("n.name"@) == Some(r.base.name@),
        row.at("n.resource_type"@) is Some ==> row.at("n.resource_type"@) == Some(r.base.resource_type@),
        row.at("n.package_name"@) == opt_text(r.base.package_name),
        row.at("n.description"@) == opt_text(r.base.description),
        row.at("n.original_file_path"@) == opt_text(r.base.original_file_path),
        row.at("n.file_path"@) == opt_text(r.file_path),
        row.at("n.patch_path"@) == opt_text(r.patch_path),
        texts(r.tags@) == items_of(row.list("n.tags"@)),
        texts(r.fqn@) == items_of(row.list("n.fqn"@)),
        row.at("n.database_name"@) == opt_text(r.database_name),
        row.at("n.schema_name"@) == opt_text(r.schema_name),
        row.at("n.alias"@) == opt_text(r.identifier),
        r.meta@ == parsed_or_null(row.at("n.meta"@)),
{
    let items = seed_detail_items();
    reveal_strlit(".");
    reveal_strlit("n");
    reveal_strlit("unique_id");
    reveal_strlit("n.unique_id");
    reveal_strlit("name");
    reveal_strlit("n.name");
    reveal_strlit("resource_type");
    reveal_strlit("n.resource_type");
    reveal_strlit("package_name");
    reveal_strlit("n.package_name");
    reveal_strlit("description");
    reveal_strlit("n.description");
    reveal_strlit("original_file_path");
    reveal_strlit("n.original_file_path");
    reveal_strlit("file_path");
    reveal_strlit("n.file_path");
    reveal_strlit("patch_path");
    reveal_strlit("n.patch_path");
    reveal_strlit("database_name");
    reveal_strlit("n.database_name");
    reveal_strlit("schema_name");
    reveal_strlit("n.schema_name");
    reveal_strlit("meta");
    reveal_strlit("n.meta");
    reveal_strlit("tags");
    reveal_strlit("n.tags");
    reveal_strlit("fqn");
    reveal_strlit("n.fqn");
    assert("n"@ + "."@ + "unique_id"@ =~= "n.unique_id"@);
    assert("n"@ + "."@ + "name"@ =~= "n.name"@);
    assert("n"@ + "."@ + "resource_type"@ =~= "n.resource_type"@);
    assert("n"@ + "."@ + "package_name"@ =~= "n.package_name"@);
    assert("n"@ + "."@ + "description"@ =~= "n.description"@);
    assert("n"@ + "."@ + "original_file_path"@ =~= "n.original_file_path"@);
    assert("n"@ + "."@ + "file_path"@ =~= "n.file_path"@);
    assert("n"@ + "."@ + "patch_path"@ =~= "n.patch_path"@);
    assert("n"@ + "."@ + "database_name"@ =~= "n.database_name"@);
    assert("n"@ + "."@ + "schema_name"@ =~= "n.schema_name"@);
    assert("n"@ + "."@ + "meta"@ =~= "n.meta"@);
    assert("n"@ + "."@ + "tags"@ =~= "n.tags"@);
    assert("n"@ + "."@ + "fqn"@ =~= "n.fqn"@);
    let texts_of = seq!["unique_id"@, "name"@, "resource_type"@, "package_name"@, "description"@, "original_file_path"@, "file_path"@, "patch_path"@, "database_name"@, "schema_name"@, "identifier"@, "meta"@];
    assert(batch.has_text(texts_of[0]));
    assert(batch.has_text(texts_of[1]));
    assert(batch.has_text(texts_of[2]));
    assert(batch.has_text(texts_of[3]));
    assert(batch.has_text(texts_of[4]));
    assert(batch.has_text(texts_of[5]));
    assert(batch.has_text(texts_of[6]));
    assert(batch.has_text(texts_of[7]));
    assert(batch.has_text(texts_of[8]));
    assert(batch.has_text(texts_of[9]));
    assert(batch.has_text(texts_of[10]));
    assert(batch.has_text(texts_of[11]));
    let lists_of = seq!["tags"@, "fqn"@];
    assert(batch.column(lists_of[0]) is Some);
    assert(batch.column(lists_of[1]) is Some);
    assert(shows_value(batch, 0, items[0].name(), row.at(items[0].expr())));
    assert(shows_value(batch, 0, items[1].name(), row.at(items[1].expr())));
    assert(shows_value(batch, 0, items[2].name(), row.at(items[2].expr())));
    assert(shows_value(batch, 0, items[3].name(), row.at(items[3].expr())));
    assert(shows_value(batch, 0, items[4].name(), row.at(items[4].expr())));
    assert(shows_value(batch, 0, items[5].name(), row.at(items[5].expr())));
    assert(shows_value(batch, 0, items[6].name(), row.at(items[6].expr())));
    assert(shows_value(batch, 0, items[7].name(), row.at(items[7].expr())));
    assert(shows_value(batch, 0, items[8].name(), row.at(items[8].expr())));
    assert(shows_value(batch, 0, items[9].name(), row.at(items[9].expr())));
    assert(shows_value(batch, 0, items[10].name(), row.at(items[10].expr())));
    assert(shows_value(batch, 0, items[11].name(), row.at(items[11].expr())));
    assert(shows_list(batch, 0, items[12].name(), row.list(items[12].expr())));
    assert(shows_list(batch, 0, items[13].name(), row.list(items[13].expr())));
}

/// What is shown of the node, of whatever type.
pub open spec fn node_detail_items() -> Seq<Item> {
    seq![
        Item::Of("n"@, "unique_id"@),
        Item::Of("n"@, "name"@),
        Item::Of("n"@, "resource_type"@),
        Item::Of("n"@, "package_name"@),
        Item::Of("n"@, "materialized"@),
        Item::Of("n"@, "description"@),
        Item::Of("n"@, "database_name"@),
        Item::Of("n"@, "schema_name"@),
        Item::Of("n"@, "relation_name"@),
        Item::Of("n"@, "identifier"@),
        Item::Of("n"@, "original_file_path"@),
        Item::Of("n"@, "access_level"@),
        Item::Of("n"@, "group_name"@),
        Item::Of("n"@, "raw_code"@),
    ]
}

#[verifier::spinoff_prover]
#[verifier::rlimit(40)]
proof fn lemma_node_detail_items_text()
    ensures
        listed(node_detail_items(), 14) == "n.unique_id, n.name, n.resource_type, n.package_name, n.materialized, n.description, n.database_name, n.schema_name, n.relation_name, n.identifier, n.original_file_path, n.access_level, n.group_name, n.raw_code"@,
{
    reveal_with_fuel(listed, 6);
    reveal_strlit(", ");
    reveal_strlit(".");
    reveal_strlit("n");
    reveal_strlit("unique_id");
    reveal_strlit("name");
    reveal_strlit("resource_type");
    reveal_strlit("package_name");
    reveal_strlit("materialized");
    reveal_strlit("description");
    reveal_strlit("database_name");
    reveal_strlit("schema_name");
    reveal_strlit("relation_name");
    reveal_strlit("identifier");
    reveal_strlit("original_file_path");
    reveal_strlit("access_level");
    reveal_strlit("group_name");
    reveal_strlit("raw_code");
    reveal_strlit("n.unique_id, n.name, n.resource_type, n.package_name, n.materialized");
    reveal_strlit("n.unique_id, n.name, n.resource_type, n.package_name, n.materialized, n.description, n.database_name, n.schema_name, n.relation_name, n.identifier");
    reveal_strlit("n.unique_id, n.name, n.resource_type, n.package_name, n.materialized, n.description, n.database_name, n.schema_name, n.relation_name, n.identifier, n.original_file_path, n.access_level, n.group_name, n.raw_code");
    let items = node_detail_items();
    assert(listed(items, 5) =~= "n.unique_id, n.name, n.resource_type, n.package_name, n.materialized"@);
    assert(listed(items, 10) =~= "n.unique_id, n.name, n.resource_type, n.package_name, n.materialized, n.description, n.database_name, n.schema_name, n.relation_name, n.identifier"@);
    assert(listed(items, 14) =~= "n.unique_id, n.name, n.resource_type, n.package_name, n.materialized, n.description, n.database_name, n.schema_name, n.relation_name, n.identifier, n.original_file_path, n.access_level, n.group_name, n.raw_code"@);
}

/// Whether a query gives the node with a unique id, of whatever type.
pub open spec fn reads_node(sql: Seq<char>, id: Seq<char>) -> bool {
    reads(sql, Seq::empty(), node_detail_items(), table_of("node"@) + " n"@, with_id("n.unique_id"@, id), " LIMIT 1"@)
}

#[verifier::spinoff_prover]
#[verifier::rlimit(40)]
proof fn lemma_node_detail_head_head()
    ensures
        NODE_DETAIL_HEAD@ == "SELECT "@ + listed(node_detail_items(), node_detail_items().len()) + " FROM "@ + "dbt.nodes n"@ + " WHERE "@ + "n.unique_id"@ + " = "@ + seq!['\''],
{
    lemma_node_detail_items_text();
    reveal_strlit("SELECT ");
    reveal_strlit(" FROM ");
    reveal_strlit("n.unique_id, n.name, n.resource_type, n.package_name, n.materialized, n.description, n.database_name, n.schema_name, n.relation_name, n.identifier, n.original_file_path, n.access_level, n.group_name, n.raw_code");
    reveal_strlit("dbt.nodes n");
    reveal_strlit(" WHERE ");
    reveal_strlit("n.unique_id");
    reveal_strlit(" = ");
    reveal_strlit(
        "SELECT n.unique_id, n.name, n.resource_type, n.package_name, \
     n.materialized, n.description, n.database_name, n.schema_name, \
     n.relation_name, n.identifier, n.original_file_path, \
     n.access_level, n.group_name, n.raw_code \
     FROM dbt.nodes n WHERE n.unique_id = '",
    );
    assert(NODE_DETAIL_HEAD@ =~= "SELECT "@ + "n.unique_id, n.name, n.resource_type, n.package_name, n.materialized, n.description, n.database_name, n.schema_name, n.relation_name, n.identifier, n.original_file_path, n.access_level, n.group_name, n.raw_code"@ + " FROM "@ + "dbt.nodes n"@ + " WHERE "@ + "n.unique_id"@ + " = "@ + seq!['\'']);
}

/// The query for a unique id gives the node, of whatever type.
pub proof fn lemma_node_query(id: Seq<char>)
    ensures
        reads_node(id_query(NODE_DETAIL_HEAD@, id, LIMIT_ONE@), id),
{
    lemma_node_detail_head_head();
    lemma_table_names();
    reveal_strlit("' LIMIT 1");
    reveal_strlit(" LIMIT 1");
    reveal_strlit("dbt.nodes n");
    reveal_strlit(" n");
    reveal_strlit("dbt.nodes");
    assert(table_of("node"@) + " n"@ =~= "dbt.nodes n"@);
    assert(LIMIT_ONE@ =~= seq!['\''] + " LIMIT 1"@);
    lemma_id_query_reads(NODE_DETAIL_HEAD@, id, LIMIT_ONE@, node_detail_items(), "dbt.nodes n"@, "n.unique_id"@, " LIMIT 1"@);
}

/// What is shown of what a node depends on.
pub open spec fn parents_items() -> Seq<Item> {
    seq![
        Item::As("parent_unique_id"@, "unique_id"@),
        Item::Plain("edge_type"@),
    ]
}

#[verifier::spinoff_prover]
#[verifier::rlimit(40)]
proof fn lemma_parents_items_text()
    ensures
        listed(parents_items(), 2) == "parent_unique_id AS unique_id, edge_type"@,
{
    reveal_with_fuel(listed, 3);
    reveal_strlit(", ");
    reveal_strlit(" AS ");
    reveal_strlit("parent_unique_id");
    reveal_strlit("unique_id");
    reveal_strlit("edge_type");
    reveal_strlit("parent_unique_id AS unique_id, edge_type");
    let items = parents_items();
    assert(listed(items, 2) =~= "parent_unique_id AS unique_id, edge_type"@);
}

/// Whether a query gives what a node depends on: the parents in the edges that it is the child of.
pub open spec fn reads_parents(sql: Seq<char>, id: Seq<char>) -> bool {
    reads(sql, Seq::empty(), parents_items(), "dbt.edges"@, with_id("child_unique_id"@, id), " ORDER BY parent_unique_id"@)
}

#[verifier::spinoff_prover]
#[verifier::rlimit(40)]
proof fn lemma_upstream_head_head()
    ensures
        UPSTREAM_HEAD@ == "SELECT "@ + listed(parents_items(), parents_items().len()) + " FROM "@ + "dbt.edges"@ + " WHERE "@ + "child_unique_id"@ + " = "@ + seq!['\''],
{
    lemma_parents_items_text();
    reveal_strlit("SELECT ");
    reveal_strlit(" FROM ");
    reveal_strlit("parent_unique_id AS unique_id, edge_type");
    reveal_strlit("dbt.edges");
    reveal_strlit(" WHERE ");
    reveal_strlit("child_unique_id");
    reveal_strlit(" = ");
    reveal_strlit(
        "SELECT parent_unique_id AS unique_id, edge_type \
     FROM dbt.edges WHERE child_unique_id = '",
    );
    assert(UPSTREAM_HEAD@ =~= "SELECT "@ + "parent_unique_id AS unique_id, edge_type"@ + " FROM "@ + "dbt.edges"@ + " WHERE "@ + "child_unique_id"@ + " = "@ + seq!['\'']);
}

/// The query for a unique id gives what a node depends on.
pub proof fn lemma_parents_query(id: Seq<char>)
    ensures
        reads_parents(id_query(UPSTREAM_HEAD@, id, UPSTREAM_TAIL@), id),
{
    lemma_upstream_head_head();
    reveal_strlit("' ORDER BY parent_unique_id");
    reveal_strlit(" ORDER BY parent_unique_id");
    assert(UPSTREAM_TAIL@ =~= seq!['\''] + " ORDER BY parent_unique_id"@);
    lemma_id_query_reads(UPSTREAM_HEAD@, id, UPSTREAM_TAIL@, parents_items(), "dbt.edges"@, "child_unique_id"@, " ORDER BY parent_unique_id"@);
}

/// What is read for what a node depends on is what
/// the row of the database has.
#[verifier::spinoff_prover]
#[verifier::rlimit(40)]
pub proof fn lemma_parents_row(r: EdgeRef, batch: Batch, i: int, row: Row)
    requires
        r.is_row(batch, i),
        shows(batch, i, parents_items(), row),
        has_columns(batch, seq!["unique_id"@, "edge_type"@], Seq::empty()),
        row.at("parent_unique_id"@) is Some,
        row.at("edge_type"@) is Some,
    ensures
        row.at("parent_unique_id"@) == Some(r.unique_id@),
        row.at("edge_type"@) == Some(r.edge_type@),
{
    let items = parents_items();
    let texts_of = seq!["unique_id"@, "edge_type"@];
    assert(batch.has_text(texts_of[0]));
    assert(batch.has_text(texts_of[1]));
    assert(shows_value(batch, i, items[0].name(), row.at(items[0].expr())));
    assert(shows_value(batch, i, items[1].name(), row.at(items[1].expr())));
}

/// What is shown of what depends on a node.
pub open spec fn children_items() -> Seq<Item> {
    seq![
        Item::As("child_unique_id"@, "unique_id"@),
        Item::Plain("edge_type"@),
    ]
}

#[verifier::spinoff_prover]
#[verifier::rlimit(40)]
proof fn lemma_children_items_text()
    ensures
        listed(children_items(), 2) == "child_unique_id AS unique_id, edge_type"@,
{
    reveal_with_fuel(listed, 3);
    reveal_strlit(", ");
    reveal_strlit(" AS ");
    reveal_strlit("child_unique_id");
    reveal_strlit("unique_id");
    reveal_strlit("edge_type");
    reveal_strlit("child_unique_id AS unique_id, edge_type");
    let items = children_items();
    assert(listed(items, 2) =~= "child_unique_id AS unique_id, edge_type"@);
}

/// Whether a query gives what depends on a node: the children in the edges that it is the parent of.
pub open spec fn reads_children(sql: Seq<char>, id: Seq<char>) -> bool {
    reads(sql, Seq::empty(), children_items(), "dbt.edges"@, with_id("parent_unique_id"@, id), " ORDER BY child_unique_id"@)
}

#[verifier::spinoff_prover]
#[verifier::rlimit(40)]
proof fn lemma_downstream_head_head()
    ensures
        DOWNSTREAM_HEAD@ == "SELECT "@ + listed(children_items(), children_items().len()) + " FROM "@ + "dbt.edges"@ + " WHERE "@ + "parent_unique_id"@ + " = "@ + seq!['\''],
{
    lemma_children_items_text();
    reveal_strlit("SELECT ");
    reveal_strlit(" FROM ");
    reveal_strlit("child_unique_id AS unique_id, edge_type");
    reveal_strlit("dbt.edges");
    reveal_strlit(" WHERE ");
    reveal_strlit("parent_unique_id");
    reveal_strlit(" = ");
    reveal_strlit(
        "SELECT child_unique_id AS unique_id, edge_type \
     FROM dbt.edges WHERE parent_unique_id = '",
    );
    assert(DOWNSTREAM_HEAD@ =~= "SELECT "@ + "child_unique_id AS unique_id, edge_type"@ + " FROM "@ + "dbt.edges"@ + " WHERE "@ + "parent_unique_id"@ + " = "@ + seq!['\'']);
}

/// The query for a unique id gives what depends on a node.
pub proof fn lemma_children_query(id: Seq<char>)
    ensures
        reads_children(id_query(DOWNSTREAM_HEAD@, id, DOWNSTREAM_TAIL@), id),
{
    lemma_downstream_head_head();
    reveal_strlit("' ORDER BY child_unique_id");
    reveal_strlit(" ORDER BY child_unique_id");
    assert(DOWNSTREAM_TAIL@ =~= seq!['\''] + " ORDER BY child_unique_id"@);
    lemma_id_query_reads(DOWNSTREAM_HEAD@, id, DOWNSTREAM_TAIL@, children_items(), "dbt.edges"@, "parent_unique_id"@, " ORDER BY child_unique_id"@);
}

/// What is read for what depends on a node is what
/// the row of the database has.
#[verifier::spinoff_prover]
#[verifier::rlimit(40)]
pub proof fn lemma_children_row(r: EdgeRef, batch: Batch, i: int, row: Row)
    requires
        r.is_row(batch, i),
        shows(batch, i, children_items(), row),
        has_columns(batch, seq!["unique_id"@, "edge_type"@], Seq::empty()),
        row.at("child_unique_id"@) is Some,
        row.at("edge_type"@) is Some,
    ensures
        row.at("child_unique_id"@) == Some(r.unique_id@),
        row.at("edge_type"@) == Some(r.edge_type@),
{
    let items = children_items();
    let texts_of = seq!["unique_id"@, "edge_type"@];
    assert(batch.has_text(texts_of[0]));
    assert(batch.has_text(texts_of[1]));
    assert(shows_value(batch, i, items[0].name(), row.at(items[0].expr())));
    assert(shows_value(batch, i, items[1].name(), row.at(items[1].expr())));
}

/// What is shown of the last run of a node.
pub open spec fn last_run_items() -> Seq<Item> {
    seq![
        Item::Plain("status"@),
        Item::Plain("execution_time"@),
        Item::As("CAST(created_at AS VARCHAR)"@, "completed_at"@),
    ]
}

#[verifier::spinoff_prover]
#[verifier::rlimit(40)]
proof fn lemma_last_run_items_text()
    ensures
        listed(last_run_items(), 3) == "status, execution_time, CAST(created_at AS VARCHAR) AS completed_at"@,
{
    reveal_with_fuel(listed, 4);
    reveal_strlit(", ");
    reveal_strlit(" AS ");
    reveal_strlit("status");
    reveal_strlit("execution_time");
    reveal_strlit("CAST(created_at AS VARCHAR)");
    reveal_strlit("completed_at");
    reveal_strlit("status, execution_time, CAST(created_at AS VARCHAR) AS completed_at");
    let items = last_run_items();
    assert(listed(items, 3) =~= "status, execution_time, CAST(created_at AS VARCHAR) AS completed_at"@);
}

/// Whether a query gives the last run of a node.
pub open spec fn reads_last_run(sql: Seq<char>, id: Seq<char>) -> bool {
    reads(sql, Seq::empty(), last_run_items(), "dbt_rt.run_results"@, with_id("unique_id"@, id), " ORDER BY created_at DESC LIMIT 1"@)
}

#[verifier::spinoff_prover]
#[verifier::rlimit(40)]
proof fn lemma_run_result_head_head()
    ensures
        RUN_RESULT_HEAD@ == "SELECT "@ + listed(last_run_items(), last_run_items().len()) + " FROM "@ + "dbt_rt.run_results"@ + " WHERE "@ + "unique_id"@ + " = "@ + seq!['\''],
{
    lemma_last_run_items_text();
    reveal_strlit("SELECT ");
    reveal_strlit(" FROM ");
    reveal_strlit("status, execution_time, CAST(created_at AS VARCHAR) AS completed_at");
    reveal_strlit("dbt_rt.run_results");
    reveal_strlit(" WHERE ");
    reveal_strlit("unique_id");
    reveal_strlit(" = ");
    reveal_strlit(
        "SELECT status, \
     execution_time, \
     CAST(created_at AS VARCHAR) AS completed_at \
     FROM dbt_rt.run_results \
     WHERE unique_id = '",
    );
    assert(RUN_RESULT_HEAD@ =~= "SELECT "@ + "status, execution_time, CAST(created_at AS VARCHAR) AS completed_at"@ + " FROM "@ + "dbt_rt.run_results"@ + " WHERE "@ + "unique_id"@ + " = "@ + seq!['\'']);
}

/// The query for a unique id gives the last run of a node.
pub proof fn lemma_last_run_query(id: Seq<char>)
    ensures
        reads_last_run(id_query(RUN_RESULT_HEAD@, id, RUN_RESULT_TAIL@), id),
{
    lemma_run_result_head_head();
    reveal_strlit("' ORDER BY created_at DESC LIMIT 1");
    reveal_strlit(" ORDER BY created_at DESC LIMIT 1");
    assert(RUN_RESULT_TAIL@ =~= seq!['\''] + " ORDER BY created_at DESC LIMIT 1"@);
    lemma_id_query_reads(RUN_RESULT_HEAD@, id, RUN_RESULT_TAIL@, last_run_items(), "dbt_rt.run_results"@, "unique_id"@, " ORDER BY created_at DESC LIMIT 1"@);
}

/// Whether a run is the one in the first row.
pub open spec fn is_first_run(r: ExecutionInfo, batch: Batch) -> bool {
    r.status == batch.opt_text("status"@, 0) && r.completed_at == batch.opt_text("completed_at"@, 0)
}

/// What is read for the last run of a node is what
/// the row of the database has.
#[verifier::spinoff_prover]
#[verifier::rlimit(40)]
pub proof fn lemma_last_run_row(r: ExecutionInfo, batch: Batch, row: Row)
    requires
        is_first_run(r, batch),
        batch.num_rows > 0,
        shows(batch, 0, last_run_items(), row),
        has_columns(batch, seq!["status"@, "completed_at"@], Seq::empty()),
    ensures
        row.at("status"@) == opt_text(r.status),
        row.at("CAST(created_at AS VARCHAR)"@) == opt_text(r.completed_at),
{
    let items = last_run_items();
    let texts_of = seq!["status"@, "completed_at"@];
    assert(batch.has_text(texts_of[0]));
    assert(batch.has_text(texts_of[1]));
    assert(shows_value(batch, 0, items[0].name(), row.at(items[0].expr())));
    assert(shows_value(batch, 0, items[2].name(), row.at(items[2].expr())));
}

/// What is shown of the columns of a node, in their order.
pub open spec fn columns_items() -> Seq<Item> {
    seq![
        Item::As("column_name"@, "name"@),
        Item::As("column_index"@, "index"@),
        Item::Plain("data_type"@),
        Item::Plain("declared_type"@),
        Item::Plain("inferred_type"@),
        Item::Plain("catalog_type"@),
        Item::Plain("description"@),
        Item::Plain("label"@),
        Item::Plain("granularity"@),
    ]
}

#[verifier::spinoff_prover]
#[verifier::rlimit(40)]
proof fn lemma_columns_items_text()
    ensures
        listed(columns_items(), 9) == "column_name AS name, column_index AS index, data_type, declared_type, inferred_type, catalog_type, description, label, granularity"@,
{
    reveal_with_fuel(listed, 6);
    reveal_strlit(", ");
    reveal_strlit(" AS ");
    reveal_strlit("column_name");
    reveal_strlit("name");
    reveal_strlit("column_index");
    reveal_strlit("index");
    reveal_strlit("data_type");
    reveal_strlit("declared_type");
    reveal_strlit("inferred_type");
    reveal_strlit("catalog_type");
    reveal_strlit("description");
    reveal_strlit("label");
    reveal_strlit("granularity");
    reveal_strlit("column_name AS name, column_index AS index, data_type, declared_type, inferred_type");
    reveal_strlit("column_name AS name, column_index AS index, data_type, declared_type, inferred_type, catalog_type, description, label, granularity");
    let items = columns_items();
    assert(listed(items, 5) =~= "column_name AS name, column_index AS index, data_type, declared_type, inferred_type"@);
    assert(listed(items, 9) =~= "column_name AS name, column_index AS index, data_type, declared_type, inferred_type, catalog_type, description, label, granularity"@);
}

/// Whether a query gives the columns of a node, in their order.
pub open spec fn reads_columns(sql: Seq<char>, id: Seq<char>) -> bool {
    reads(sql, Seq::empty(), columns_items(), "dbt.node_columns"@, with_id("unique_id"@, id), " ORDER BY column_index NULLS LAST, column_name"@)
}

#[verifier::spinoff_prover]
#[verifier::rlimit(40)]
proof fn lemma_columns_head_head()
    ensures
        COLUMNS_HEAD@ == "SELECT "@ + listed(columns_items(), columns_items().len()) + " FROM "@ + "dbt.node_columns"@ + " WHERE "@ + "unique_id"@ + " = "@ + seq!['\''],
{
    lemma_columns_items_text();
    reveal_strlit("SELECT ");
    reveal_strlit(" FROM ");
    reveal_strlit("column_name AS name, column_index AS index, data_type, declared_type, inferred_type, catalog_type, description, label, granularity");
    reveal_strlit("dbt.node_columns");
    reveal_strlit(" WHERE ");
    reveal_strlit("unique_id");
    reveal_strlit(" = ");
    reveal_strlit(
        "SELECT column_name AS name, column_index AS index, \
     data_type, declared_type, inferred_type, catalog_type, \
     description, label, granularity \
     FROM dbt.node_columns WHERE unique_id = '",
    );
    assert(COLUMNS_HEAD@ =~= "SELECT "@ + "column_name AS name, column_index AS index, data_type, declared_type, inferred_type, catalog_type, description, label, granularity"@ + " FROM "@ + "dbt.node_columns"@ + " WHERE "@ + "unique_id"@ + " = "@ + seq!['\'']);
}

/// The query for a unique id gives the columns of a node, in their order.
pub proof fn lemma_columns_query(id: Seq<char>)
    ensures
        reads_columns(id_query(COLUMNS_HEAD@, id, COLUMNS_TAIL@), id),
{
    lemma_columns_head_head();
    reveal_strlit("' ORDER BY column_index NULLS LAST, column_name");
    reveal_strlit(" ORDER BY column_index NULLS LAST, column_name");
    assert(COLUMNS_TAIL@ =~= seq!['\''] + " ORDER BY column_index NULLS LAST, column_name"@);
    lemma_id_query_reads(COLUMNS_HEAD@, id, COLUMNS_TAIL@, columns_items(), "dbt.node_columns"@, "unique_id"@, " ORDER BY column_index NULLS LAST, column_name"@);
}

/// What is read for the columns of a node, in their order is what
/// the row of the database has.
#[verifier::spinoff_prover]
#[verifier::rlimit(40)]
pub proof fn lemma_columns_row(r: SeedColumn, batch: Batch, i: int, row: Row)
    requires
        r.is_row(batch, i),
        shows(batch, i, columns_items(), row),
        has_columns(batch, seq!["name"@, "data_type"@, "declared_type"@, "inferred_type"@, "catalog_type"@, "description"@, "label"@, "granularity"@], Seq::empty()),
        has_numbers(batch, seq!["index"@]),
        row.at("column_name"@) is Some,
    ensures
        row.at("column_name"@) == Some(r.name@),
        row.at("column_index"@) == number_text(r.index),
        row.at("data_type"@) == opt_text(r.data_type),
        row.at("declared_type"@) == opt_text(r.declared_type),
        row.at("inferred_type"@) == opt_text(r.inferred_type),
        row.at("catalog_type"@) == opt_text(r.catalog_type),
        row.at("description"@) == opt_text(r.description),
        row.at("label"@) == opt_text(r.label),
        row.at("granularity"@) == opt_text(r.granularity),
{
    let items = columns_items();
    let texts_of = seq!["name"@, "data_type"@, "declared_type"@, "inferred_type"@, "catalog_type"@, "description"@, "label"@, "granularity"@];
    assert(batch.has_text(texts_of[0]));
    assert(batch.has_text(texts_of[1]));
    assert(batch.has_text(texts_of[2]));
    assert(batch.has_text(texts_of[3]));
    assert(batch.has_text(texts_of[4]));
    assert(batch.has_text(texts_of[5]));
    assert(batch.has_text(texts_of[6]));
    assert(batch.has_text(texts_of[7]));
    let numbers_of = seq!["index"@];
    assert(batch.has_i64(numbers_of[0]));
    assert(shows_value(batch, i, items[0].name(), row.at(items[0].expr())));
    assert(shows_value(batch, i, items[2].name(), row.at(items[2].expr())));
    assert(shows_value(batch, i, items[3].name(), row.at(items[3].expr())));
    assert(shows_value(batch, i, items[4].name(), row.at(items[4].expr())));
    assert(shows_value(batch, i, items[5].name(), row.at(items[5].expr())));
    assert(shows_value(batch, i, items[6].name(), row.at(items[6].expr())));
    assert(shows_value(batch, i, items[7].name(), row.at(items[7].expr())));
    assert(shows_value(batch, i, items[8].name(), row.at(items[8].expr())));
    assert(shows_value(batch, i, items[1].name(), row.at(items[1].expr())));
}

/// What is shown of the columns of a model, in their order, with names in lower case.
pub open spec fn model_columns_items() -> Seq<Item> {
    seq![
        Item::As("LOWER(column_name)"@, "name"@),
        Item::As("column_index"@, "index"@),
        Item::Plain("data_type"@),
        Item::Plain("declared_type"@),
        Item::Plain("inferred_type"@),
        Item::Plain("catalog_type"@),
        Item::Plain("description"@),
        Item::Plain("label"@),
        Item::Plain("granularity"@),
    ]
}

#[verifier::spinoff_prover]
#[verifier::rlimit(40)]
proof fn lemma_model_columns_items_text()
    ensures
        listed(model_columns_items(), 9) == "LOWER(column_name) AS name, column_index AS index, data_type, declared_type, inferred_type, catalog_type, description, label, granularity"@,
{
    reveal_with_fuel(listed, 6);
    reveal_strlit(", ");
    reveal_strlit(" AS ");
    reveal_strlit("LOWER(column_name)");
    reveal_strlit("name");
    reveal_strlit("column_index");
    reveal_strlit("index");
    reveal_strlit("data_type");
    reveal_strlit("declared_type");
    reveal_strlit("inferred_type");
    reveal_strlit("catalog_type");
    reveal_strlit("description");
    reveal_strlit("label");
    reveal_strlit("granularity");
    reveal_strlit("LOWER(column_name) AS name, column_index AS index, data_type, declared_type, inferred_type");
    reveal_strlit("LOWER(column_name) AS name, column_index AS index, data_type, declared_type, inferred_type, catalog_type, description, label, granularity");
    let items = model_columns_items();
    assert(listed(items, 5) =~= "LOWER(column_name) AS name, column_index AS index, data_type, declared_type, inferred_type"@);
    assert(listed(items, 9) =~= "LOWER(column_name) AS name, column_index AS index, data_type, declared_type, inferred_type, catalog_type, description, label, granularity"@);
}

/// Whether a query gives the columns of a model, in their order, with names in lower case.
pub open spec fn reads_model_columns(sql: Seq<char>, id: Seq<char>) -> bool {
    reads(sql, Seq::empty(), model_columns_items(), "dbt.node_columns"@, with_id("unique_id"@, id), " ORDER BY column_index NULLS LAST, column_name"@)
}

#[verifier::spinoff_prover]
#[verifier::rlimit(40)]
proof fn lemma_model_columns_head_head()
    ensures
        MODEL_COLUMNS_HEAD@ == "SELECT "@ + listed(model_columns_items(), model_columns_items().len()) + " FROM "@ + "dbt.node_columns"@ + " WHERE "@ + "unique_id"@ + " = "@ + seq!['\''],
{
    lemma_model_columns_items_text();
    reveal_strlit("SELECT ");
    reveal_strlit(" FROM ");
    reveal_strlit("LOWER(column_name) AS name, column_index AS index, data_type, declared_type, inferred_type, catalog_type, description, label, granularity");
    reveal_strlit("dbt.node_columns");
    reveal_strlit(" WHERE ");
    reveal_strlit("unique_id");
    reveal_strlit(" = ");
    reveal_strlit(
        "SELECT LOWER(column_name) AS name, column_index AS index, \
     data_type, declared_type, inferred_type, catalog_type, \
     description, label, granularity \
     FROM dbt.node_columns WHERE unique_id = '",
    );
    assert(MODEL_COLUMNS_HEAD@ =~= "SELECT "@ + "LOWER(column_name) AS name, column_index AS index, data_type, declared_type, inferred_type, catalog_type, description, label, granularity"@ + " FROM "@ + "dbt.node_columns"@ + " WHERE "@ + "unique_id"@ + " = "@ + seq!['\'']);
}

/// The query for a unique id gives the columns of a model, in their order, with names in lower case.
pub proof fn lemma_model_columns_query(id: Seq<char>)
    ensures
        reads_model_columns(id_query(MODEL_COLUMNS_HEAD@, id, COLUMNS_TAIL@), id),
{
    lemma_model_columns_head_head();
    reveal_strlit("' ORDER BY column_index NULLS LAST, column_name");
    reveal_strlit(" ORDER BY column_index NULLS LAST, column_name");
    assert(COLUMNS_TAIL@ =~= seq!['\''] + " ORDER BY column_index NULLS LAST, column_name"@);
    lemma_id_query_reads(MODEL_COLUMNS_HEAD@, id, COLUMNS_TAIL@, model_columns_items(), "dbt.node_columns"@, "unique_id"@, " ORDER BY column_index NULLS LAST, column_name"@);
}

/// What is read for the columns of a model, in their order, with names in lower case is what
/// the row of the database has.
#[verifier::spinoff_prover]
#[verifier::rlimit(40)]
pub proof fn lemma_model_columns_row(r: ModelColumn, batch: Batch, i: int, row: Row)
    requires
        r.is_row(batch, i),
        shows(batch, i, model_columns_items(), row),
        has_columns(batch, seq!["name"@, "data_type"@, "declared_type"@, "inferred_type"@, "catalog_type"@, "description"@, "label"@, "granularity"@], Seq::empty()),
        has_numbers(batch, seq!["index"@]),
        row.at("LOWER(column_name)"@) is Some,
    ensures
        row.at("LOWER(column_name)"@) == Some(r.name@),
        row.at("column_index"@) == number_text(r.index),
        row.at("data_type"@) == opt_text(r.data_type),
        row.at("declared_type"@) == opt_text(r.declared_type),
        row.at("inferred_type"@) == opt_text(r.inferred_type),
        row.at("catalog_type"@) == opt_text(r.catalog_type),
        row.at("description"@) == opt_text(r.description),
        row.at("label"@) == opt_text(r.label),
        row.at("granularity"@) == opt_text(r.granularity),
{
    let items = model_columns_items();
    let texts_of = seq!["name"@, "data_type"@, "declared_type"@, "inferred_type"@, "catalog_type"@, "description"@, "label"@, "granularity"@];
    assert(batch.has_text(texts_of[0]));
    assert(batch.has_text(texts_of[1]));
    assert(batch.has_text(texts_of[2]));
    assert(batch.has_text(texts_of[3]));
    assert(batch.has_text(texts_of[4]));
    assert(batch.has_text(texts_of[5]));
    assert(batch.has_text(texts_of[6]));
    assert(batch.has_text(texts_of[7]));
    let numbers_of = seq!["index"@];
    assert(batch.has_i64(numbers_of[0]));
    assert(shows_value(batch, i, items[0].name(), row.at(items[0].expr())));
    assert(shows_value(batch, i, items[2].name(), row.at(items[2].expr())));
    assert(shows_value(batch, i, items[3].name(), row.at(items[3].expr())));
    assert(shows_value(batch, i, items[4].name(), row.at(items[4].expr())));
    assert(shows_value(batch, i, items[5].name(), row.at(items[5].expr())));
    assert(shows_value(batch, i, items[6].name(), row.at(items[6].expr())));
    assert(shows_value(batch, i, items[7].name(), row.at(items[7].expr())));
    assert(shows_value(batch, i, items[8].name(), row.at(items[8].expr())));
    assert(shows_value(batch, i, items[1].name(), row.at(items[1].expr())));
}

/// What is shown of what the catalog has of a node.
pub open spec fn catalog_items() -> Seq<Item> {
    seq![
        Item::As("table_type"@, "type"@),
        Item::As("table_owner"@, "owner"@),
        Item::As("NULL::BIGINT"@, "bytes_stat"@),
        Item::As("NULL::BIGINT"@, "row_count_stat"@),
    ]
}

#[verifier::spinoff_prover]
#[verifier::rlimit(40)]
proof fn lemma_catalog_items_text()
    ensures
        listed(catalog_items(), 4) == "table_type AS type, table_owner AS owner, NULL::BIGINT AS bytes_stat, NULL::BIGINT AS row_count_stat"@,
{
    reveal_with_fuel(listed, 5);
    reveal_strlit(", ");
    reveal_strlit(" AS ");
    reveal_strlit("table_type");
    reveal_strlit("type");
    reveal_strlit("table_owner");
    reveal_strlit("owner");
    reveal_strlit("NULL::BIGINT");
    reveal_strlit("bytes_stat");
    reveal_strlit("row_count_stat");
    reveal_strlit("table_type AS type, table_owner AS owner, NULL::BIGINT AS bytes_stat, NULL::BIGINT AS row_count_stat");
    let items = catalog_items();
    assert(listed(items, 4) =~= "table_type AS type, table_owner AS owner, NULL::BIGINT AS bytes_stat, NULL::BIGINT AS row_count_stat"@);
}

/// Whether a query gives what the catalog has of a node.
pub open spec fn reads_catalog(sql: Seq<char>, id: Seq<char>) -> bool {
    reads(sql, Seq::empty(), catalog_items(), "dbt.catalog_tables"@, with_id("unique_id"@, id), " LIMIT 1"@)
}

#[verifier::spinoff_prover]
#[verifier::rlimit(40)]
proof fn lemma_catalog_head_head()
    ensures
        CATALOG_HEAD@ == "SELECT "@ + listed(catalog_items(), catalog_items().len()) + " FROM "@ + "dbt.catalog_tables"@ + " WHERE "@ + "unique_id"@ + " = "@ + seq!['\''],
{
    lemma_catalog_items_text();
    reveal_strlit("SELECT ");
    reveal_strlit(" FROM ");
    reveal_strlit("table_type AS type, table_owner AS owner, NULL::BIGINT AS bytes_stat, NULL::BIGINT AS row_count_stat");
    reveal_strlit("dbt.catalog_tables");
    reveal_strlit(" WHERE ");
    reveal_strlit("unique_id");
    reveal_strlit(" = ");
    reveal_strlit(
        "SELECT table_type AS type, \
     table_owner AS owner, \
     NULL::BIGINT AS bytes_stat, \
     NULL::BIGINT AS row_count_stat \
     FROM dbt.catalog_tables \
     WHERE unique_id = '",
    );
    assert(CATALOG_HEAD@ =~= "SELECT "@ + "table_type AS type, table_owner AS owner, NULL::BIGINT AS bytes_stat, NULL::BIGINT AS row_count_stat"@ + " FROM "@ + "dbt.catalog_tables"@ + " WHERE "@ + "unique_id"@ + " = "@ + seq!['\'']);
}

/// The query for a unique id gives what the catalog has of a node.
pub proof fn lemma_catalog_query(id: Seq<char>)
    ensures
        reads_catalog(id_query(CATALOG_HEAD@, id, LIMIT_ONE@), id),
{
    lemma_catalog_head_head();
    reveal_strlit("' LIMIT 1");
    reveal_strlit(" LIMIT 1");
    assert(LIMIT_ONE@ =~= seq!['\''] + " LIMIT 1"@);
    lemma_id_query_reads(CATALOG_HEAD@, id, LIMIT_ONE@, catalog_items(), "dbt.catalog_tables"@, "unique_id"@, " LIMIT 1"@);
}

/// Whether catalog info is that of the first row.
pub open spec fn is_first_table(r: ModelCatalogInfo, batch: Batch) -> bool {
    &&& r.table_type == batch.opt_text("type"@, 0)
    &&& r.owner == batch.opt_text("owner"@, 0)
    &&& r.bytes_stat == batch.opt_i64("bytes_stat"@, 0)
    &&& r.row_count_stat == batch.opt_i64("row_count_stat"@, 0)
}

/// What is read for what the catalog has of a node is what
/// the row of the database has.
#[verifier::spinoff_prover]
#[verifier::rlimit(40)]
pub proof fn lemma_catalog_row(r: ModelCatalogInfo, batch: Batch, row: Row)
    requires
        is_first_table(r, batch),
        batch.num_rows > 0,
        shows(batch, 0, catalog_items(), row),
        has_columns(batch, seq!["type"@, "owner"@], Seq::empty()),
        has_numbers(batch, seq!["bytes_stat"@, "row_count_stat"@]),
    ensures
        row.at("table_type"@) == opt_text(r.table_type),
        row.at("table_owner"@) == opt_text(r.owner),
        row.at("NULL::BIGINT"@) == number_text(r.bytes_stat),
        row.at("NULL::BIGINT"@) == number_text(r.row_count_stat),
{
    let items = catalog_items();
    let texts_of = seq!["type"@, "owner"@];
    assert(batch.has_text(texts_of[0]));
    assert(batch.has_text(texts_of[1]));
    let numbers_of = seq!["bytes_stat"@, "row_count_stat"@];
    assert(batch.has_i64(numbers_of[0]));
    assert(batch.has_i64(numbers_of[1]));
    assert(shows_value(batch, 0, items[0].name(), row.at(items[0].expr())));
    assert(shows_value(batch, 0, items[1].name(), row.at(items[1].expr())));
    assert(shows_value(batch, 0, items[2].name(), row.at(items[2].expr())));
    assert(shows_value(batch, 0, items[3].name(), row.at(items[3].expr())));
}

/// What is shown of the statistics that the catalog has of a node.
pub open spec fn catalog_stats_items() -> Seq<Item> {
    seq![
        Item::As("stat_id"@, "id"@),
        Item::As("stat_label"@, "label"@),
        Item::As("stat_value"@, "value"@),
        Item::Plain("description"@),
        Item::As("include_in_stats"@, "include"@),
    ]
}

#[verifier::spinoff_prover]
#[verifier::rlimit(40)]
proof fn lemma_catalog_stats_items_text()
    ensures
        listed(catalog_stats_items(), 5) == "stat_id AS id, stat_label AS label, stat_value AS value, description, include_in_stats AS include"@,
{
    reveal_with_fuel(listed, 6);
    reveal_strlit(", ");
    reveal_strlit(" AS ");
    reveal_strlit("stat_id");
    reveal_strlit("id");
    reveal_strlit("stat_label");
    reveal_strlit("label");
    reveal_strlit("stat_value");
    reveal_strlit("value");
    reveal_strlit("description");
    reveal_strlit("include_in_stats");
    reveal_strlit("include");
    reveal_strlit("stat_id AS id, stat_label AS label, stat_value AS value, description, include_in_stats AS include");
    let items = catalog_stats_items();
    assert(listed(items, 5) =~= "stat_id AS id, stat_label AS label, stat_value AS value, description, include_in_stats AS include"@);
}

/// Whether a query gives the statistics that the catalog has of a node.
pub open spec fn reads_catalog_stats(sql: Seq<char>, id: Seq<char>) -> bool {
    reads(sql, Seq::empty(), catalog_stats_items(), "dbt.catalog_stats"@, with_id("unique_id"@, id), " ORDER BY stat_id"@)
}

#[verifier::spinoff_prover]
#[verifier::rlimit(40)]
proof fn lemma_catalog_stats_head_head()
    ensures
        CATALOG_STATS_HEAD@ == "SELECT "@ + listed(catalog_stats_items(), catalog_stats_items().len()) + " FROM "@ + "dbt.catalog_stats"@ + " WHERE "@ + "unique_id"@ + " = "@ + seq!['\''],
{
    lemma_catalog_stats_items_text();
    reveal_strlit("SELECT ");
    reveal_strlit(" FROM ");
    reveal_strlit("stat_id AS id, stat_label AS label, stat_value AS value, description, include_in_stats AS include");
    reveal_strlit("dbt.catalog_stats");
    reveal_strlit(" WHERE ");
    reveal_strlit("unique_id");
    reveal_strlit(" = ");
    reveal_strlit(
        "SELECT stat_id AS id, stat_label AS label, stat_value AS value, \
     description, include_in_stats AS include \
     FROM dbt.catalog_stats \
     WHERE unique_id = '",
    );
    assert(CATALOG_STATS_HEAD@ =~= "SELECT "@ + "stat_id AS id, stat_label AS label, stat_value AS value, description, include_in_stats AS include"@ + " FROM "@ + "dbt.catalog_stats"@ + " WHERE "@ + "unique_id"@ + " = "@ + seq!['\'']);
}

/// The query for a unique id gives the statistics that the catalog has of a node.
pub proof fn lemma_catalog_stats_query(id: Seq<char>)
    ensures
        reads_catalog_stats(id_query(CATALOG_STATS_HEAD@, id, CATALOG_STATS_TAIL@), id),
{
    lemma_catalog_stats_head_head();
    reveal_strlit("' ORDER BY stat_id");
    reveal_strlit(" ORDER BY stat_id");
    assert(CATALOG_STATS_TAIL@ =~= seq!['\''] + " ORDER BY stat_id"@);
    lemma_id_query_reads(CATALOG_STATS_HEAD@, id, CATALOG_STATS_TAIL@, catalog_stats_items(), "dbt.catalog_stats"@, "unique_id"@, " ORDER BY stat_id"@);
}

/// What is read for the statistics that the catalog has of a node is what
/// the row of the database has.
#[verifier::spinoff_prover]
#[verifier::rlimit(40)]
pub proof fn lemma_catalog_stats_row(r: CatalogStat, batch: Batch, i: int, row: Row)
    requires
        r.is_row(batch, i),
        shows(batch, i, catalog_stats_items(), row),
        has_columns(batch, seq!["id"@, "label"@, "value"@, "description"@], seq!["include"@]),
        row.at("stat_id"@) is Some,
    ensures
        row.at("stat_id"@) == Some(r.id@),
        row.at("stat_label"@) is Some ==> row.at("stat_label"@) == Some(r.label@),
        row.at("stat_value"@) is Some ==> row.at("stat_value"@) == Some(r.value@),
        row.at("description"@) is Some ==> row.at("description"@) == Some(r.description@),
        r.include_in_stats == (row.at("include_in_stats"@) == Some("true"@)),
{
    let items = catalog_stats_items();
    let texts_of = seq!["id"@, "label"@, "value"@, "description"@];
    assert(batch.has_text(texts_of[0]));
    assert(batch.has_text(texts_of[1]));
    assert(batch.has_text(texts_of[2]));
    assert(batch.has_text(texts_of[3]));
    let flags_of = seq!["include"@];
    assert(batch.has_bool(flags_of[0]));
    assert(shows_value(batch, i, items[0].name(), row.at(items[0].expr())));
    assert(shows_value(batch, i, items[1].name(), row.at(items[1].expr())));
    assert(shows_value(batch, i, items[2].name(), row.at(items[2].expr())));
    assert(shows_value(batch, i, items[3].name(), row.at(items[3].expr())));
    assert(shows_value(batch, i, items[4].name(), row.at(items[4].expr())));
    reveal_strlit("true");
    reveal_strlit("false");
    assert("true"@.len() != "false"@.len());
}

/// What is shown of the name of a saved query and what it depends on.
pub open spec fn saved_query_name_detail_items() -> Seq<Item> {
    seq![
        Item::Plain("unique_id"@),
        Item::Plain("name"@),
        Item::Plain("depends_on_nodes"@),
    ]
}

#[verifier::spinoff_prover]
#[verifier::rlimit(40)]
proof fn lemma_saved_query_name_detail_items_text()
    ensures
        listed(saved_query_name_detail_items(), 3) == "unique_id, name, depends_on_nodes"@,
{
    reveal_with_fuel(listed, 4);
    reveal_strlit(", ");
    reveal_strlit("unique_id");
    reveal_strlit("name");
    reveal_strlit("depends_on_nodes");
    reveal_strlit("unique_id, name, depends_on_nodes");
    let items = saved_query_name_detail_items();
    assert(listed(items, 3) =~= "unique_id, name, depends_on_nodes"@);
}

/// Whether a query gives the name of a saved query and what it depends on.
pub open spec fn reads_saved_query_name(sql: Seq<char>, id: Seq<char>) -> bool {
    reads(sql, Seq::empty(), saved_query_name_detail_items(), table_of("saved_query"@), with_id("unique_id"@, id), " LIMIT 1"@)
}

#[verifier::spinoff_prover]
#[verifier::rlimit(40)]
proof fn lemma_saved_query_probe_head_head()
    ensures
        SAVED_QUERY_PROBE_HEAD@ == "SELECT "@ + listed(saved_query_name_detail_items(), saved_query_name_detail_items().len()) + " FROM "@ + "dbt.saved_queries"@ + " WHERE "@ + "unique_id"@ + " = "@ + seq!['\''],
{
    lemma_saved_query_name_detail_items_text();
    reveal_strlit("SELECT ");
    reveal_strlit(" FROM ");
    reveal_strlit("unique_id, name, depends_on_nodes");
    reveal_strlit("dbt.saved_queries");
    reveal_strlit(" WHERE ");
    reveal_strlit("unique_id");
    reveal_strlit(" = ");
    reveal_strlit(
        "SELECT unique_id, name, depends_on_nodes \
     FROM dbt.saved_queries WHERE unique_id = '",
    );
    assert(SAVED_QUERY_PROBE_HEAD@ =~= "SELECT "@ + "unique_id, name, depends_on_nodes"@ + " FROM "@ + "dbt.saved_queries"@ + " WHERE "@ + "unique_id"@ + " = "@ + seq!['\'']);
}

/// The query for a unique id gives the name of a saved query and what it depends on.
pub proof fn lemma_saved_query_name_query(id: Seq<char>)
    ensures
        reads_saved_query_name(id_query(SAVED_QUERY_PROBE_HEAD@, id, LIMIT_ONE@), id),
{
    lemma_saved_query_probe_head_head();
    lemma_table_names();
    reveal_strlit("' LIMIT 1");
    reveal_strlit(" LIMIT 1");
    assert(LIMIT_ONE@ =~= seq!['\''] + " LIMIT 1"@);
    lemma_id_query_reads(SAVED_QUERY_PROBE_HEAD@, id, LIMIT_ONE@, saved_query_name_detail_items(), "dbt.saved_queries"@, "unique_id"@, " LIMIT 1"@);
}

} // verus!
