use dbt_docs_server::catalogs::{
    InMemoryCatalogProvider, InMemoryCatalogProviderList, InMemorySchemaProvider, Registry,
};
use dbt_docs_server::delayed_table::{
    is_schema_compat, listing_source, plan_scan, ListingSource,
};
use dbt_docs_server::seed_io::{
    adapt_schema, infer_seed_column_name_strategy, plan_promotion, transform_schema_to_view,
    AdapterType, ColumnType, InferColumnNameStrategy, TableField, TableFormat, TableSchema,
};

fn schema(fields: Vec<(&str, ColumnType)>) -> TableSchema {
    TableSchema {
        fields: fields
            .into_iter()
            .map(|(name, data_type)| TableField {
                name: name.to_string(),
                data_type,
            })
            .collect(),
    }
}

fn other(name: &str) -> ColumnType {
    ColumnType::Other(name.to_string())
}

fn names(schema: &TableSchema) -> Vec<&str> {
    schema.fields.iter().map(|f| f.name.as_str()).collect()
}

#[test]
fn seed_names_follow_the_adapter() {
    let plain = |adapter| infer_seed_column_name_strategy(false, adapter);
    assert_eq!(
        plain(AdapterType::Snowflake),
        InferColumnNameStrategy::Uppercase
    );
    assert_eq!(
        plain(AdapterType::Exasol),
        InferColumnNameStrategy::Uppercase
    );
    for adapter in [
        AdapterType::Postgres,
        AdapterType::Salesforce,
        AdapterType::Redshift,
        AdapterType::DuckDB,
        AdapterType::Alt,
    ] {
        assert_eq!(plain(adapter), InferColumnNameStrategy::Lowercase);
    }
    for adapter in [
        AdapterType::Bigquery,
        AdapterType::Databricks,
        AdapterType::Spark,
        AdapterType::Fabric,
        AdapterType::ClickHouse,
    ] {
        assert_eq!(plain(adapter), InferColumnNameStrategy::Verbatim);
    }
    for adapter in [AdapterType::Snowflake, AdapterType::Trino] {
        assert_eq!(
            infer_seed_column_name_strategy(true, adapter),
            InferColumnNameStrategy::Verbatim
        );
    }
}

#[test]
fn seed_names_are_trimmed_and_folded() {
    let found = schema(vec![("  Id\t", other("Int32")), ("stra\u{df}e", ColumnType::Utf8)]);
    assert_eq!(
        names(&adapt_schema(&found, InferColumnNameStrategy::Verbatim)),
        vec!["Id", "stra\u{df}e"]
    );
    assert_eq!(
        names(&adapt_schema(&found, InferColumnNameStrategy::Uppercase)),
        vec!["ID", "STRASSE"]
    );
    let lower = adapt_schema(&found, InferColumnNameStrategy::Lowercase);
    assert_eq!(names(&lower), vec!["id", "stra\u{df}e"]);
    assert!(lower.fields[1].data_type.same(&ColumnType::Utf8));
}

#[test]
fn texts_and_bytes_become_views() {
    let physical = schema(vec![
        ("id", other("Int32")),
        ("name", ColumnType::Utf8),
        ("long_name", ColumnType::LargeUtf8),
        ("payload", ColumnType::Binary),
        ("blob", ColumnType::LargeBinary),
        ("seen", ColumnType::Utf8View),
    ]);
    let listed = transform_schema_to_view(&physical);
    assert_eq!(names(&listed), names(&physical));
    assert!(listed.fields[0].data_type.same(&other("Int32")));
    assert!(listed.fields[1].data_type.same(&ColumnType::Utf8View));
    assert!(listed.fields[2].data_type.same(&ColumnType::Utf8View));
    assert!(listed.fields[3].data_type.same(&ColumnType::BinaryView));
    assert!(listed.fields[4].data_type.same(&ColumnType::BinaryView));
    let again = transform_schema_to_view(&listed);
    for (a, b) in again.fields.iter().zip(listed.fields.iter()) {
        assert!(a.data_type.same(&b.data_type));
    }
    let columns: Vec<ColumnType> = physical.fields.into_iter().map(|f| f.data_type).collect();
    assert_eq!(
        plan_promotion(&columns, &listed),
        vec![false, true, true, true, true, false]
    );
    assert_eq!(plan_promotion(&vec![], &listed), Vec::<bool>::new());
}

#[test]
fn a_scan_lays_the_schema_over_the_file() {
    let physical = schema(vec![("ID", other("Int32")), ("NAME", ColumnType::Utf8View)]);
    let declared = schema(vec![("id", other("Int64")), ("name", ColumnType::Utf8View)]);
    let all = plan_scan(&physical, &declared, None);
    assert_eq!(all.len(), 2);
    assert_eq!(all[0].source, "ID");
    assert_eq!(all[0].name, "id");
    assert!(all[0].cast);
    assert!(!all[1].cast);
    let some = plan_scan(&physical, &declared, Some(&vec![1]));
    assert_eq!(some.len(), 1);
    assert_eq!(some[0].source_index, 0);
    assert_eq!(some[0].schema_index, 1);
    assert_eq!(some[0].name, "name");
}

#[test]
fn schemas_are_compatible_by_name() {
    let a = schema(vec![("id", other("Int32")), ("name", ColumnType::Utf8)]);
    let b = schema(vec![("id", other("Int64")), ("name", ColumnType::Utf8View)]);
    let c = schema(vec![("id", other("Int32"))]);
    let d = schema(vec![("name", ColumnType::Utf8), ("id", other("Int32"))]);
    assert!(is_schema_compat(&a, &b));
    assert!(!is_schema_compat(&a, &c));
    assert!(!is_schema_compat(&c, &a));
    assert!(!is_schema_compat(&a, &d));
}

#[test]
fn csv_is_not_listed() {
    assert_eq!(
        listing_source(TableFormat::Parquet),
        Ok(ListingSource::Parquet)
    );
    assert_eq!(listing_source(TableFormat::Json), Ok(ListingSource::NdJson));
    assert_eq!(
        listing_source(TableFormat::Csv),
        Err("TableFormat::Csv is not supported in make_listing_table_provider")
    );
}

#[test]
fn lookups_are_stable() {
    let mut registry = Registry::new();
    let a = registry.resolve("a");
    let b = registry.resolve("b");
    assert!(a.created && b.created);
    assert_ne!(a.item, b.item);
    let again = registry.resolve("a");
    assert!(!again.created);
    assert_eq!(again.item, a.item);
    assert_eq!(registry.find("b"), Some(b.item));
    assert_eq!(registry.find("c"), None);
    let mut all = registry.names();
    all.sort();
    assert_eq!(all, vec!["a", "b"]);
}

#[test]
fn catalogs_and_schemas_are_made_on_demand() {
    let mut catalogs = InMemoryCatalogProviderList::new();
    assert!(catalogs.catalog_names().is_empty());
    assert!(catalogs.resolve_catalog("db").created);
    assert!(!catalogs.resolve_catalog("db").created);
    assert_eq!(catalogs.register_catalog("other", 7), Some(7));
    assert_eq!(catalogs.catalog_names(), vec!["db"]);
    let mut catalog = InMemoryCatalogProvider::new();
    assert!(catalog.schema("main").created);
    assert_eq!(catalog.schema_names(), vec!["main"]);
}

#[test]
fn tables_are_registered_and_removed() {
    let mut tables = InMemorySchemaProvider::new();
    assert_eq!(tables.table("t"), None);
    let first = tables.register_table("t");
    assert_eq!(tables.table("t"), first);
    let second = tables.register_table("t");
    assert_ne!(first, second);
    assert_eq!(tables.table("t"), second);
    assert!(tables.table_exist("t"));
    assert_eq!(tables.table_names(), vec!["t"]);
    assert_eq!(tables.deregister_table("t"), second);
    assert_eq!(tables.deregister_table("t"), None);
    assert!(!tables.table_exist("t"));
}
