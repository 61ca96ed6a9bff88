//! A table whose data comes after its schema.
//!
//! Plans over a table are made while only its schema is known; its data is in a file
//! that is written later and may have other types. When the table is scanned, the
//! schema is laid over the columns of the file.
use crate::seed_io::{ColumnKind, TableFormat, TableSchema};
use crate::text::same;
use vstd::prelude::*;

verus! {

/// A column of a scan: a column of the file's plan, and what becomes of it.
#[derive(Debug)]
pub struct ProjectedColumn {
    /// The name of the column in the file.
    pub source: String,
    /// Its place in the plan over the file.
    pub source_index: usize,
    /// Its place in the schema.
    pub schema_index: usize,
    /// Whether it is cast to the type in the schema.
    pub cast: bool,
    /// The name in the schema.
    pub name: String,
}

/// The places of the columns that a scan is of: those asked for, or all.
pub open spec fn scanned(projection: Option<Seq<usize>>, n: nat) -> Seq<usize> {
    match projection {
        Some(places) => places,
        None => Seq::new(n, |i: int| i as usize),
    }
}

/// Whether a column of a scan is the one at a place of the schema.
pub open spec fn is_projected(
    c: ProjectedColumn,
    index: int,
    place: int,
    physical: Seq<(Seq<char>, ColumnKind)>,
    schema: Seq<(Seq<char>, ColumnKind)>,
) -> bool {
    &&& c.source@ == physical[place].0
    &&& c.source_index == index
    &&& c.schema_index == place
    &&& c.cast == (physical[place].1 != schema[place].1)
    &&& c.name@ == schema[place].0
}

/// The places in an optional list.
pub open spec fn opt_places(v: Option<&Vec<usize>>) -> Option<Seq<usize>> {
    match v {
        Some(v) => Some(v@),
        None => None,
    }
}

/// Plan a scan: for each column that is asked for, in order, which column of the file it
/// is, whether it is cast, and what it is called.
pub fn plan_scan(physical: &TableSchema, schema: &TableSchema, projection: Option<&Vec<usize>>) -> (r:
    Vec<ProjectedColumn>)
    requires
        forall|i: int|
            0 <= i < scanned(opt_places(projection), schema@.len()).len() ==> {
                let place = #[trigger] scanned(opt_places(projection), schema@.len())[i];
                place < physical@.len() && place < schema@.len()
            },
    ensures
        r.len() == scanned(opt_places(projection), schema@.len()).len(),
        forall|i: int|
            0 <= i < r.len() ==> is_projected(
                #[trigger] r@[i],
                i,
                scanned(opt_places(projection), schema@.len())[i] as int,
                physical@,
                schema@,
            ),
{
    let n: usize = match projection {
        Some(places) => places.len(),
        None => schema.fields.len(),
    };
    let ghost all = scanned(opt_places(projection), schema@.len());
    let mut r: Vec<ProjectedColumn> = Vec::new();
    let mut i: usize = 0;
    while i < n
        invariant
            i <= n,
            n == all.len(),
            all == scanned(opt_places(projection), schema@.len()),
            forall|j: int|
                0 <= j < all.len() ==> #[trigger] all[j] < physical@.len() && all[j]
                    < schema@.len(),
            r.len() == i,
            forall|j: int|
                0 <= j < i ==> is_projected(
                    #[trigger] r@[j],
                    j,
                    all[j] as int,
                    physical@,
                    schema@,
                ),
        decreases n - i,
    {
        let place: usize = match projection {
            Some(places) => places[i],
            None => i,
        };
        assert(place == all[i as int]);
        let field = &physical.fields[place];
        let overlay = &schema.fields[place];
        r.push(
            ProjectedColumn {
                source: field.name.clone(),
                source_index: i,
                schema_index: place,
                cast: !field.data_type.same(&overlay.data_type),
                name: overlay.name.clone(),
            },
        );
        i += 1;
    }
    r
}

/// Whether a schema can be laid over another: the same names in the same places.
pub open spec fn same_names(
    source: Seq<(Seq<char>, ColumnKind)>,
    target: Seq<(Seq<char>, ColumnKind)>,
) -> bool {
    source.len() == target.len() && forall|i: int|
        0 <= i < source.len() ==> #[trigger] source[i].0 == target[i].0
}

/// Check that a schema can be laid over another.
pub fn is_schema_compat(source: &TableSchema, target: &TableSchema) -> (r: bool)
    ensures
        r == same_names(source@, target@),
{
    if source.fields.len() != target.fields.len() {
        return false;
    }
    let mut i: usize = 0;
    while i < source.fields.len()
        invariant
            i <= source.fields.len(),
            source.fields.len() == target.fields.len(),
            forall|j: int| 0 <= j < i ==> #[trigger] source@[j].0 == target@[j].0,
        decreases source.fields.len() - i,
    {
        if !same(source.fields[i].name.as_str(), target.fields[i].name.as_str()) {
            assert(source@[i as int].0 != target@[i as int].0);
            return false;
        }
        i += 1;
    }
    true
}

/// A schema can be laid over itself and over its promotion to view types, and over
/// whatever can be laid over that.
pub proof fn lemma_compat_is_an_equivalence(
    a: Seq<(Seq<char>, ColumnKind)>,
    b: Seq<(Seq<char>, ColumnKind)>,
    c: Seq<(Seq<char>, ColumnKind)>,
)
    ensures
        same_names(a, a),
        same_names(a, crate::seed_io::promoted(a)),
        same_names(a, b) ==> same_names(b, a),
        same_names(a, b) && same_names(b, c) ==> same_names(a, c),
{
    if same_names(a, b) && same_names(b, c) {
        assert forall|i: int| 0 <= i < a.len() implies #[trigger] a[i].0 == c[i].0 by {
            assert(a[i].0 == b[i].0);
            assert(b[i].0 == c[i].0);
        }
    }
}

/// How the file behind a table is read.
#[derive(Clone, Copy, Debug, PartialEq, Eq, Structural)]
pub enum ListingSource {
    Parquet,
    /// One JSON object per line.
    NdJson,
}

pub const CSV_UNSUPPORTED: &'static str =
    "TableFormat::Csv is not supported in make_listing_table_provider";

/// How the file behind a table is read, by its format. CSV is not read this way.
pub fn listing_source(table_format: TableFormat) -> (r: Result<ListingSource, &'static str>)
    ensures
        match table_format {
            TableFormat::Parquet => r == Ok::<ListingSource, &'static str>(
                ListingSource::Parquet,
            ),
            TableFormat::Json => r == Ok::<ListingSource, &'static str>(ListingSource::NdJson),
            TableFormat::Csv => r matches Err(e) && e@ == CSV_UNSUPPORTED@,
        },
{
    match table_format {
        TableFormat::Parquet => Ok(ListingSource::Parquet),
        TableFormat::Json => Ok(ListingSource::NdJson),
        TableFormat::Csv => Err(CSV_UNSUPPORTED),
    }
}

} // verus!
