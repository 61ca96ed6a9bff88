//! Seeds: the names and types of their columns.
//!
//! A schema is held here as far as the rules on it look at it: the name and the type of
//! each column. What else a column has stays as it is.
use crate::text::{lowercase, same, to_lowercase, to_uppercase, trim, trimmed, uppercase};
use vstd::prelude::*;

verus! {

/// Formats of tables on disk.
#[derive(Clone, Copy, Debug, PartialEq, Eq, Structural)]
pub enum TableFormat {
    Parquet,
    Csv,
    Json,
}

/// How the names of columns that were found in a file are normalized.
#[derive(Clone, Copy, Debug, PartialEq, Eq, Structural)]
pub enum InferColumnNameStrategy {
    Verbatim,
    Uppercase,
    Lowercase,
}

/// Adapters to databases.
#[derive(Clone, Copy, Debug, PartialEq, Eq, Structural)]
pub enum AdapterType {
    Postgres,
    Snowflake,
    Bigquery,
    Databricks,
    Redshift,
    Salesforce,
    Spark,
    DuckDB,
    Fabric,
    ClickHouse,
    Exasol,
    Alt,
    Starburst,
    Athena,
    Trino,
    Dremio,
    Oracle,
    Datafusion,
}

/// Adapters whose casing of unquoted names is known.
pub open spec fn casing_known(adapter: AdapterType) -> bool {
    !(adapter is Starburst || adapter is Athena || adapter is Trino || adapter is Dremio
        || adapter is Oracle || adapter is Datafusion)
}

/// How an adapter whose casing is known folds unquoted names.
pub open spec fn casing(adapter: AdapterType) -> InferColumnNameStrategy {
    if adapter is Snowflake || adapter is Exasol {
        InferColumnNameStrategy::Uppercase
    } else if adapter is Postgres || adapter is Salesforce || adapter is Redshift
        || adapter is DuckDB || adapter is Alt {
        InferColumnNameStrategy::Lowercase
    } else {
        InferColumnNameStrategy::Verbatim
    }
}

/// How the names of the columns of a seed are normalized: as they are where columns are
/// quoted, else as the adapter folds them.
pub fn infer_seed_column_name_strategy(quote_columns: bool, adapter_type: AdapterType) -> (r:
    InferColumnNameStrategy)
    requires
        quote_columns || casing_known(adapter_type),
    ensures
        r == (if quote_columns {
            InferColumnNameStrategy::Verbatim
        } else {
            casing(adapter_type)
        }),
{
    if quote_columns {
        return InferColumnNameStrategy::Verbatim;
    }
    match adapter_type {
        AdapterType::Postgres
        | AdapterType::Salesforce
        | AdapterType::Redshift
        | AdapterType::DuckDB
        | AdapterType::Alt => InferColumnNameStrategy::Lowercase,
        AdapterType::Snowflake | AdapterType::Exasol => InferColumnNameStrategy::Uppercase,
        _ => InferColumnNameStrategy::Verbatim,
    }
}

// ---------------------------------------------------------------------------
// Schemas
// ---------------------------------------------------------------------------

/// The type of a column. Types that the rules do not tell apart are known by a name of
/// their own.
#[derive(Debug)]
pub enum ColumnType {
    Utf8,
    LargeUtf8,
    Utf8View,
    Binary,
    LargeBinary,
    BinaryView,
    Other(String),
}

/// What a `ColumnType` holds.
pub ghost enum ColumnKind {
    Utf8,
    LargeUtf8,
    Utf8View,
    Binary,
    LargeBinary,
    BinaryView,
    Other(Seq<char>),
}

impl View for ColumnType {
    type V = ColumnKind;

    open spec fn view(&self) -> ColumnKind {
        match *self {
            ColumnType::Utf8 => ColumnKind::Utf8,
            ColumnType::LargeUtf8 => ColumnKind::LargeUtf8,
            ColumnType::Utf8View => ColumnKind::Utf8View,
            ColumnType::Binary => ColumnKind::Binary,
            ColumnType::LargeBinary => ColumnKind::LargeBinary,
            ColumnType::BinaryView => ColumnKind::BinaryView,
            ColumnType::Other(name) => ColumnKind::Other(name@),
        }
    }
}

impl ColumnType {
    /// A copy of the type.
    pub fn copy(&self) -> (r: ColumnType)
        ensures
            r@ == self@,
    {
        match self {
            ColumnType::Utf8 => ColumnType::Utf8,
            ColumnType::LargeUtf8 => ColumnType::LargeUtf8,
            ColumnType::Utf8View => ColumnType::Utf8View,
            ColumnType::Binary => ColumnType::Binary,
            ColumnType::LargeBinary => ColumnType::LargeBinary,
            ColumnType::BinaryView => ColumnType::BinaryView,
            ColumnType::Other(name) => ColumnType::Other(name.clone()),
        }
    }

    /// Whether two types are the same.
    pub fn same(&self, other: &ColumnType) -> (r: bool)
        ensures
            r == (self@ == other@),
    {
        match (self, other) {
            (ColumnType::Utf8, ColumnType::Utf8) => true,
            (ColumnType::LargeUtf8, ColumnType::LargeUtf8) => true,
            (ColumnType::Utf8View, ColumnType::Utf8View) => true,
            (ColumnType::Binary, ColumnType::Binary) => true,
            (ColumnType::LargeBinary, ColumnType::LargeBinary) => true,
            (ColumnType::BinaryView, ColumnType::BinaryView) => true,
            (ColumnType::Other(a), ColumnType::Other(b)) => same(a.as_str(), b.as_str()),
            _ => false,
        }
    }
}

/// A column of a schema.
#[derive(Debug)]
pub struct TableField {
    pub name: String,
    pub data_type: ColumnType,
}

/// The columns of a table.
#[derive(Debug)]
pub struct TableSchema {
    pub fields: Vec<TableField>,
}

/// Names and types of columns.
pub open spec fn columns_view(v: Seq<TableField>) -> Seq<(Seq<char>, ColumnKind)> {
    Seq::new(v.len(), |i: int| (v[i].name@, v[i].data_type@))
}

impl View for TableSchema {
    type V = Seq<(Seq<char>, ColumnKind)>;

    open spec fn view(&self) -> Seq<(Seq<char>, ColumnKind)> {
        columns_view(self.fields@)
    }
}

/// A normalized name. Names are always trimmed.
pub open spec fn adapted_name(name: Seq<char>, strategy: InferColumnNameStrategy) -> Seq<char> {
    match strategy {
        InferColumnNameStrategy::Verbatim => trimmed(name),
        InferColumnNameStrategy::Uppercase => uppercase(trimmed(name)),
        InferColumnNameStrategy::Lowercase => lowercase(trimmed(name)),
    }
}

/// A schema with normalized names.
pub open spec fn adapted(
    schema: Seq<(Seq<char>, ColumnKind)>,
    strategy: InferColumnNameStrategy,
) -> Seq<(Seq<char>, ColumnKind)> {
    Seq::new(schema.len(), |i: int| (adapted_name(schema[i].0, strategy), schema[i].1))
}

/// The schema of a seed with the names of its columns normalized.
pub fn adapt_schema(
    schema: &TableSchema,
    infer_column_name_strategy: InferColumnNameStrategy,
) -> (r: TableSchema)
    ensures
        r@ == adapted(schema@, infer_column_name_strategy),
{
    let mut fields: Vec<TableField> = Vec::new();
    let mut i: usize = 0;
    while i < schema.fields.len()
        invariant
            i <= schema.fields.len(),
            columns_view(fields@) == adapted(schema@, infer_column_name_strategy).take(i as int),
        decreases schema.fields.len() - i,
    {
        let field = &schema.fields[i];
        let name = trim(field.name.as_str());
        let name = match infer_column_name_strategy {
            InferColumnNameStrategy::Verbatim => name,
            InferColumnNameStrategy::Uppercase => to_uppercase(name.as_str()),
            InferColumnNameStrategy::Lowercase => to_lowercase(name.as_str()),
        };
        let ghost had = fields@;
        let data_type = field.data_type.copy();
        fields.push(TableField { name, data_type });
        assert(columns_view(fields@) =~= columns_view(had).push((name@, data_type@)));
        assert(adapted(schema@, infer_column_name_strategy).take(i + 1) =~= adapted(
            schema@,
            infer_column_name_strategy,
        ).take(i as int).push((name@, data_type@)));
        i += 1;
    }
    assert(adapted(schema@, infer_column_name_strategy).take(schema@.len() as int) == adapted(
        schema@,
        infer_column_name_strategy,
    ));
    TableSchema { fields }
}

// ---------------------------------------------------------------------------
// View types
// ---------------------------------------------------------------------------

/// The type that a column is listed with: texts and bytes as views.
pub open spec fn view_kind(kind: ColumnKind) -> ColumnKind {
    match kind {
        ColumnKind::Utf8 | ColumnKind::LargeUtf8 => ColumnKind::Utf8View,
        ColumnKind::Binary | ColumnKind::LargeBinary => ColumnKind::BinaryView,
        _ => kind,
    }
}

/// A schema with texts and bytes as views.
pub open spec fn promoted(schema: Seq<(Seq<char>, ColumnKind)>) -> Seq<(Seq<char>, ColumnKind)> {
    Seq::new(schema.len(), |i: int| (schema[i].0, view_kind(schema[i].1)))
}

/// The schema that a file is listed with: texts and bytes become views.
pub fn transform_schema_to_view(schema: &TableSchema) -> (r: TableSchema)
    ensures
        r@ == promoted(schema@),
{
    let mut fields: Vec<TableField> = Vec::new();
    let mut i: usize = 0;
    while i < schema.fields.len()
        invariant
            i <= schema.fields.len(),
            columns_view(fields@) == promoted(schema@).take(i as int),
        decreases schema.fields.len() - i,
    {
        let field = &schema.fields[i];
        let data_type = match &field.data_type {
            ColumnType::Utf8 | ColumnType::LargeUtf8 => ColumnType::Utf8View,
            ColumnType::Binary | ColumnType::LargeBinary => ColumnType::BinaryView,
            other => other.copy(),
        };
        let name = field.name.clone();
        let ghost had = fields@;
        fields.push(TableField { name, data_type });
        assert(columns_view(fields@) =~= columns_view(had).push((name@, data_type@)));
        assert(promoted(schema@).take(i + 1) =~= promoted(schema@).take(i as int).push(
            (name@, data_type@),
        ));
        i += 1;
    }
    assert(promoted(schema@).take(schema@.len() as int) == promoted(schema@));
    TableSchema { fields }
}

/// Promotion keeps the names of the columns, leaves no text or bytes that are not views,
/// and does nothing to a schema that is promoted already.
pub proof fn lemma_promotion_is_stable(schema: Seq<(Seq<char>, ColumnKind)>)
    ensures
        promoted(promoted(schema)) == promoted(schema),
        forall|i: int|
            0 <= i < schema.len() ==> {
                let kind = #[trigger] promoted(schema)[i].1;
                &&& promoted(schema)[i].0 == schema[i].0
                &&& !(kind is Utf8) && !(kind is LargeUtf8)
                &&& !(kind is Binary) && !(kind is LargeBinary)
            },
{
    assert(promoted(promoted(schema)) =~= promoted(schema));
}

/// Which columns are cast when a batch is rebuilt under another schema.
pub open spec fn casts(
    columns: Seq<ColumnKind>,
    target: Seq<(Seq<char>, ColumnKind)>,
) -> Seq<bool> {
    Seq::new(
        if columns.len() < target.len() {
            columns.len()
        } else {
            target.len()
        },
        |i: int| columns[i] != target[i].1,
    )
}

/// Types of columns.
pub open spec fn kinds(v: Seq<ColumnType>) -> Seq<ColumnKind> {
    Seq::new(v.len(), |i: int| v[i]@)
}

/// Plan to rebuild a batch under another schema: which of its columns are cast, namely
/// those whose type differs. Columns beyond the shorter of the two are left out.
pub fn plan_promotion(columns: &Vec<ColumnType>, target: &TableSchema) -> (r: Vec<bool>)
    ensures
        r@ == casts(kinds(columns@), target@),
{
    let mut r: Vec<bool> = Vec::new();
    let mut i: usize = 0;
    while i < columns.len() && i < target.fields.len()
        invariant
            i <= columns.len(),
            i <= target.fields.len(),
            r@ == casts(kinds(columns@), target@).take(i as int),
        decreases columns.len() - i,
    {
        r.push(!columns[i].same(&target.fields[i].data_type));
        assert(casts(kinds(columns@), target@).take(i + 1) =~= casts(
            kinds(columns@),
            target@,
        ).take(i as int).push(r@[i as int]));
        i += 1;
    }
    assert(casts(kinds(columns@), target@).take(i as int) == casts(kinds(columns@), target@));
    r
}

/// The types of the columns of a schema.
pub open spec fn kinds_of(schema: Seq<(Seq<char>, ColumnKind)>) -> Seq<ColumnKind> {
    Seq::new(schema.len(), |i: int| schema[i].1)
}

/// Of a batch that is rebuilt under its promoted schema, exactly the texts and bytes that
/// are not views yet are cast; of one that is promoted already, nothing is.
pub proof fn lemma_promotion_casts_what_it_changes(schema: Seq<(Seq<char>, ColumnKind)>)
    ensures
        forall|i: int|
            0 <= i < schema.len() ==> {
                let kind = schema[i].1;
                #[trigger] casts(kinds_of(schema), promoted(schema))[i] == (kind is Utf8
                    || kind is LargeUtf8 || kind is Binary || kind is LargeBinary)
            },
        forall|i: int|
            0 <= i < schema.len() ==> !#[trigger] casts(
                kinds_of(promoted(schema)),
                promoted(schema),
            )[i],
{
}

} // verus!
