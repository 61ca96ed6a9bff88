use dbt_docs_server::files::{finish_list_files, plan_list_files, projection_for, sources};
use dbt_docs_server::probe::ProbeStep;
use std::collections::HashSet;

#[test]
fn projection_for_nodes_uses_inline_resource_type_and_real_patch_path() {
    let sql = projection_for("dbt.nodes", None);
    assert!(
        sql.contains(", resource_type,"),
        "dbt.nodes must project its own resource_type column, got: {sql}"
    );
    assert!(
        !sql.contains("AS resource_type"),
        "dbt.nodes must not synthesize a literal resource_type"
    );
    assert!(
        sql.contains("patch_path") && !sql.contains("CAST(NULL"),
        "dbt.nodes must project its real patch_path column"
    );
    assert!(
        !sql.contains("WHERE"),
        "dbt.nodes has no filter clause, got: {sql}"
    );
}

#[test]
fn projection_for_macros_uses_literal_resource_type_and_real_patch_path() {
    let sql = projection_for("dbt.macros", Some("macro"));
    assert!(
        sql.contains("'macro' AS resource_type"),
        "macros must synthesize a literal resource_type, got: {sql}"
    );
    assert!(
        sql.contains("patch_path") && !sql.contains("CAST(NULL"),
        "dbt.macros must project its real patch_path column"
    );
}

#[test]
fn projection_for_generic_table_casts_null_patch_path() {
    let sql = projection_for("dbt.exposures", Some("exposure"));
    assert!(sql.contains("'exposure' AS resource_type"));
    assert!(
        sql.contains("CAST(NULL AS VARCHAR) AS patch_path"),
        "non-node/macro tables must cast NULL patch_path, got: {sql}"
    );
    assert!(!sql.contains("WHERE"));
}

#[test]
fn projection_for_semantic_models_filters_null_paths() {
    let sql = projection_for("dbt.semantic_models", Some("semantic_model"));
    assert!(
        sql.contains("WHERE original_file_path IS NOT NULL"),
        "semantic_models must filter null paths, got: {sql}"
    );
}

#[test]
fn sources_have_unique_tables_and_literals() {
    // Tables must be unique: a duplicate would double-count rows in UNION ALL.
    let mut seen = HashSet::new();
    for (table, _) in sources() {
        assert!(seen.insert(table), "duplicate source table: {table}");
    }
    // Only dbt.nodes uses inline resource_type (literal = None).
    let inline = sources()
        .iter()
        .filter(|(_, lit)| lit.is_none())
        .map(|(t, _)| *t)
        .collect::<Vec<_>>();
    assert_eq!(
        inline,
        vec!["dbt.nodes"],
        "only dbt.nodes should rely on its own resource_type column"
    );
}

#[test]
fn projection_is_one_selection() {
    assert_eq!(
        projection_for("dbt.groups", Some("group")),
        "SELECT unique_id, name, 'group' AS resource_type, package_name, original_file_path, \
         CAST(NULL AS VARCHAR) AS patch_path FROM dbt.groups"
    );
}

#[test]
fn no_tables_returns_empty_list_without_querying() {
    assert!(plan_list_files(&vec![false; 9]).is_none());
    assert_eq!(finish_list_files("", 0), "{\"files\":[],\"total\":0}");
}

#[test]
fn populated_table_returns_rows_with_total() {
    let mut filled = vec![false; 9];
    filled[0] = true;
    let probe = plan_list_files(&filled).unwrap();
    let ProbeStep::Rows { total, .. } = probe.answer(Some("1".to_string())) else {
        panic!("expected rows");
    };
    assert_eq!(total, 1);
    let row = "{\"unique_id\":\"model.pkg.customers\",\"name\":\"customers\",\
               \"resource_type\":\"model\",\"package_name\":\"pkg\",\
               \"original_file_path\":\"models/customers.sql\",\"patch_path\":null}";
    assert_eq!(
        finish_list_files(&format!("[{row}]"), total),
        format!("{{\"files\":[{row}],\"total\":1}}")
    );
}

#[test]
fn filled_tables_are_read_together() {
    let mut filled = vec![false; 9];
    filled[1] = true;
    filled[5] = true;
    let probe = plan_list_files(&filled).unwrap();
    assert_eq!(
        probe.count_sql(),
        format!(
            "SELECT count(*) FROM ({} UNION ALL {})",
            projection_for("dbt.exposures", Some("exposure")),
            projection_for("dbt.groups", Some("group"))
        )
    );
    let ProbeStep::Rows { total, rows_sql } = probe.answer(Some("2".to_string())) else {
        panic!("expected rows");
    };
    assert_eq!(total, 2);
    assert!(rows_sql.ends_with(") ORDER BY package_name, original_file_path, name"));
}

#[test]
fn files_without_a_count_are_an_error() {
    let probe = plan_list_files(&vec![true; 9]).unwrap();
    let ProbeStep::Fail(reply) = probe.answer(None) else {
        panic!("expected a failure");
    };
    assert_eq!(reply.status, 500);
    assert_eq!(reply.fields[0].1, "files count query returned no rows");
    let probe = plan_list_files(&vec![true; 9]).unwrap();
    let ProbeStep::Fail(reply) = probe.answer(Some("x".to_string())) else {
        panic!("expected a failure");
    };
    assert_eq!(
        reply.fields[0].1,
        "could not parse file count: invalid digit found in string"
    );
}
