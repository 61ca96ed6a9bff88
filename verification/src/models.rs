//! The list of models, its facets, and the detail of a model.
use crate::detail_laws::{
    lemma_catalog_query, lemma_children_query, lemma_last_run_query, lemma_model_columns_query,
    lemma_model_query, lemma_parents_query, reads_catalog, reads_children, reads_last_run,
    reads_model, reads_model_columns, reads_parents,
};
use crate::find::str_texts;
use crate::json::{check_unique_id, error_view, valid_id, ErrorReply};
use crate::listing::{
    are_facets, asked_cursor, facets, finish_page, id_query, id_sql, keys, list_refusal,
    not_found_text, page_clause, page_order, page_order_sql, page_where, read_after,
    resource_not_found, FacetValue, Listed, CATALOG_HEAD, COLUMNS_TAIL, DOWNSTREAM_HEAD,
    DOWNSTREAM_TAIL, LIMIT_ONE, RUN_RESULT_HEAD, RUN_RESULT_TAIL, UPSTREAM_HEAD, UPSTREAM_TAIL,
};
use crate::node_base::{
    extract_edge_refs, extract_str_list, first_list, is_last_run, last_run, opt_wf, or_empty,
    text_or_empty, EdgeRef, ExecutionInfo,
};
use crate::pagination::{
    clamp_first, clamped, cursor_ref, leads_on, overfull, page_info_of, page_of, Cursor, CursorView,
    PageInfo, SortDir, DEFAULT_PAGE_SIZE, MAX_PAGE_SIZE,
};
use crate::probe::{ListProbe, ListQuery, NO_COUNT};
use crate::sql::{escape_str, escaped, quote_list, quoted_list};
use crate::table::{
    all_have_text, all_wf, are_rows, column_texts, find_filled, first_filled, read_column_texts,
    read_rows, readable, Batch, FromRow,
};
use crate::text::{
    ascii_lower, clone_opt, csv, csv_items, each_trimmed, given, given_text, is_char, join, joined,
    opt_text, same, split, split_at_first, split_once, split_trimmed, texts, to_ascii_lower,
};
use vstd::prelude::*;

verus! {

// ---------------------------------------------------------------------------
// Modeling layers
// ---------------------------------------------------------------------------

pub const STAGING_CONDITION: &'static str = "lower(n.original_file_path) LIKE '%/staging/%' \
     OR lower(n.original_file_path) LIKE '%/stg_%' \
     OR lower(n.original_file_path) LIKE 'staging/%'";

pub const INTERMEDIATE_CONDITION: &'static str =
    "lower(n.original_file_path) LIKE '%/intermediate/%' \
     OR lower(n.original_file_path) LIKE '%/int_%' \
     OR lower(n.original_file_path) LIKE 'intermediate/%'";

pub const MARTS_CONDITION: &'static str = "lower(n.original_file_path) LIKE '%/marts/%' \
     OR lower(n.original_file_path) LIKE '%/dim_%' \
     OR lower(n.original_file_path) LIKE '%/fct_%' \
     OR lower(n.original_file_path) LIKE 'marts/%'";

/// Names and what they stand for.
pub open spec fn pairs_view(v: Seq<(&'static str, &'static str)>) -> Seq<(Seq<char>, Seq<char>)> {
    Seq::new(v.len(), |i: int| (v[i].0@, v[i].1@))
}

/// The modeling layers: the name, and the conditions on the path of a model.
///
/// Single source of truth for modeling-layer classification. Both the expression
/// that shows the layer of a model and the filter by layer are made from this table,
/// so they can never drift.
pub open spec fn layers() -> Seq<(Seq<char>, Seq<char>)> {
    seq![
        ("Staging"@, STAGING_CONDITION@),
        ("Intermediate"@, INTERMEDIATE_CONDITION@),
        ("Marts"@, MARTS_CONDITION@),
    ]
}

/// The modeling layers: the name, and the conditions on the path of a model.
pub fn layer_conditions() -> (r: Vec<(&'static str, &'static str)>)
    ensures
        pairs_view(r@) == layers(),
{
    let r: Vec<(&'static str, &'static str)> = vec![
        ("Staging", STAGING_CONDITION),
        ("Intermediate", INTERMEDIATE_CONDITION),
        ("Marts", MARTS_CONDITION),
    ];
    assert(pairs_view(r@) =~= layers());
    r
}

/// What a name stands for in a table.
pub open spec fn lookup(table: Seq<(Seq<char>, Seq<char>)>, name: Seq<char>) -> Option<Seq<char>>
    decreases table.len(),
{
    if table.len() == 0 {
        None
    } else if table[0].0 == name {
        Some(table[0].1)
    } else {
        lookup(table.skip(1), name)
    }
}

/// What a name stands for in a table.
pub fn find_in(table: &Vec<(&'static str, &'static str)>, name: &str) -> (r: Option<&'static str>)
    ensures
        crate::text::opt_str_text(r) == lookup(pairs_view(table@), name@),
{
    let ghost all = pairs_view(table@);
    let mut i: usize = 0;
    assert(all.skip(0) == all);
    while i < table.len()
        invariant
            i <= table.len(),
            all == pairs_view(table@),
            lookup(all, name@) == lookup(all.skip(i as int), name@),
        decreases table.len() - i,
    {
        assert(all.skip(i as int).skip(1) == all.skip(i + 1));
        if same(table[i].0, name) {
            return Some(table[i].1);
        }
        i += 1;
    }
    None
}

/// The branches of the expression that shows the layer of a model.
pub open spec fn layer_branches(table: Seq<(Seq<char>, Seq<char>)>) -> Seq<char>
    decreases table.len(),
{
    if table.len() == 0 {
        "CASE"@
    } else {
        layer_branches(table.drop_last()) + " WHEN "@ + table.last().1 + " THEN '"@
            + table.last().0 + "'"@
    }
}

/// The expression that shows the layer of a model.
pub open spec fn layer_case() -> Seq<char> {
    layer_branches(layers()) + " ELSE NULL END"@
}

/// Build the SQL CASE expression that projects `modeling_layer`.
pub fn modeling_layer_case_sql() -> (r: String)
    ensures
        r@ == layer_case(),
{
    let table = layer_conditions();
    let ghost all = layers();
    let mut r = "CASE".to_owned();
    let mut i: usize = 0;
    assert(all.take(0) == Seq::<(Seq<char>, Seq<char>)>::empty());
    while i < table.len()
        invariant
            i <= table.len(),
            all == pairs_view(table@),
            r@ == layer_branches(all.take(i as int)),
        decreases table.len() - i,
    {
        assert(all.take(i + 1).drop_last() == all.take(i as int));
        r.append(" WHEN ");
        r.append(table[i].1);
        r.append(" THEN '");
        r.append(table[i].0);
        r.append("'");
        i += 1;
    }
    assert(all.take(all.len() as int) == all);
    r.append(" ELSE NULL END");
    r
}

/// The conditions of some layers, joined by `OR`.
pub open spec fn layers_sql(names: Seq<Seq<char>>) -> Seq<char> {
    joined(
        Seq::new(names.len(), |i: int| "("@ + lookup(layers(), names[i])->0 + ")"@),
        " OR "@,
    )
}

/// Whether every name is that of a layer.
pub open spec fn known_layers(names: Seq<Seq<char>>) -> bool {
    forall|i: int| 0 <= i < names.len() ==> lookup(layers(), #[trigger] names[i]) is Some
}

/// Build the WHERE OR fragment for a modeling_layer filter, of known layers.
pub fn modeling_layer_where(layers: &[&str]) -> (r: String)
    requires
        known_layers(str_texts(layers@)),
    ensures
        r@ == layers_sql(str_texts(layers@)),
{
    let table = layer_conditions();
    let ghost all = str_texts(layers@);
    let mut parts: Vec<String> = Vec::new();
    let mut i: usize = 0;
    while i < layers.len()
        invariant
            i <= layers.len(),
            all == str_texts(layers@),
            known_layers(all),
            pairs_view(table@) == self::layers(),
            parts.len() == i,
            forall|j: int|
                0 <= j < i ==> (#[trigger] parts@[j])@ == "("@ + lookup(self::layers(), all[j])->0
                    + ")"@,
        decreases layers.len() - i,
    {
        assert(lookup(self::layers(), all[i as int]) is Some);
        let mut part = "(".to_owned();
        if let Some(condition) = find_in(&table, layers[i]) {
            part.append(condition);
        }
        part.append(")");
        parts.push(part);
        i += 1;
    }
    assert(texts(parts@) =~= Seq::new(
        all.len(),
        |i: int| "("@ + lookup(self::layers(), all[i])->0 + ")"@,
    ));
    join(&parts, " OR ")
}

/// The filter by a layer is by the same condition that shows a model to be of it:
/// the condition stands in the expression right before the name of the layer.
pub proof fn lemma_filter_and_case_agree(i: int)
    requires
        0 <= i < layers().len(),
    ensures
        lookup(layers(), layers()[i].0) == Some(layers()[i].1),
        layers_sql(seq![layers()[i].0]) == "("@ + layers()[i].1 + ")"@,
        exists|before: Seq<char>, after: Seq<char>|
            layer_case() == #[trigger] (before + (" WHEN "@ + layers()[i].1 + " THEN '"@
                + layers()[i].0 + "'"@) + after),
{
    let table = layers();
    reveal_strlit("Staging");
    reveal_strlit("Intermediate");
    reveal_strlit("Marts");
    assert("Staging"@.len() == 7 && "Intermediate"@.len() == 12 && "Marts"@.len() == 5);
    reveal_with_fuel(lookup, 4);
    assert(table.skip(1)[0] == table[1]);
    assert(table.skip(1).skip(1)[0] == table[2]);
    let name = table[i].0;
    assert(lookup(table, name) == Some(table[i].1));
    let one = Seq::new(1, |j: int| "("@ + lookup(table, seq![name][j])->0 + ")"@);
    assert(one[0] == "("@ + table[i].1 + ")"@);
    let branch = " WHEN "@ + table[i].1 + " THEN '"@ + table[i].0 + "'"@;
    lemma_branch_stands(table, i);
    let (before, rest) = choose|before: Seq<char>, rest: Seq<char>|
        layer_branches(table) == #[trigger] (before + branch + rest);
    assert(layer_case() == before + branch + (rest + " ELSE NULL END"@));
}

proof fn lemma_branch_stands(table: Seq<(Seq<char>, Seq<char>)>, i: int)
    requires
        0 <= i < table.len(),
    ensures
        exists|before: Seq<char>, rest: Seq<char>|
            layer_branches(table) == #[trigger] (before + (" WHEN "@ + table[i].1 + " THEN '"@
                + table[i].0 + "'"@) + rest),
    decreases table.len(),
{
    let branch = " WHEN "@ + table[i].1 + " THEN '"@ + table[i].0 + "'"@;
    let last = " WHEN "@ + table.last().1 + " THEN '"@ + table.last().0 + "'"@;
    assert(layer_branches(table) == layer_branches(table.drop_last()) + last);
    if i == table.len() - 1 {
        assert(layer_branches(table) == layer_branches(table.drop_last()) + branch
            + Seq::<char>::empty());
    } else {
        lemma_branch_stands(table.drop_last(), i);
        let (before, rest) = choose|before: Seq<char>, rest: Seq<char>|
            layer_branches(table.drop_last()) == #[trigger] (before + branch + rest);
        assert(layer_branches(table) == before + branch + (rest + last));
    }
}

// ---------------------------------------------------------------------------
// Parameters
// ---------------------------------------------------------------------------

/// Query parameters of the list of models.
#[derive(Debug)]
pub struct ModelListParams {
    /// Comma-separated modeling layer filter: `Staging`, `Intermediate`, `Marts`.
    pub modeling_layer: Option<String>,
    /// Comma-separated access level filter: `public`, `protected`, `private`.
    pub access: Option<String>,
    /// Comma-separated materialization filter. Any value accepted; unknown values
    /// return empty results, never 400.
    pub materialization: Option<String>,
    /// Owner name (exact match).
    pub owner: Option<String>,
    /// Sort spec `<column>:<asc|desc>`. Column must be one of: name, modeling_layer,
    /// access_level, contract_enforced, owner, executed_at. Default: `name:asc`.
    pub sort: Option<String>,
    /// Page size.
    pub first: Option<u32>,
    /// Opaque cursor from the previous page's `page_info.end_cursor`.
    pub after: Option<String>,
}

impl Default for ModelListParams {
    fn default() -> (r: ModelListParams)
        ensures
            r.modeling_layer is None,
            r.access is None,
            r.materialization is None,
            r.owner is None,
            r.sort is None,
            r.first is None,
            r.after is None,
    {
        ModelListParams {
            modeling_layer: None,
            access: None,
            materialization: None,
            owner: None,
            sort: None,
            first: None,
            after: None,
        }
    }
}

/// What a list is sorted by.
#[derive(Debug)]
pub struct SortSelection {
    /// Query-param column name.
    pub column: String,
    /// SQL expression, usable in both `ORDER BY` and `WHERE`.
    pub sql_expr: String,
    /// Direction.
    pub dir: SortDir,
}

/// What a `SortSelection` holds.
#[verifier::ext_equal]
pub ghost struct SortView {
    pub column: Seq<char>,
    pub sql_expr: Seq<char>,
    pub dir: SortDir,
}

impl View for SortSelection {
    type V = SortView;

    open spec fn view(&self) -> SortView {
        SortView { column: self.column@, sql_expr: self.sql_expr@, dir: self.dir }
    }
}

/// The expression of the time of a model's last run. It needs the run results.
pub const EXECUTED_AT: &'static str = "CAST(lr.executed_at AS VARCHAR)";

/// The columns that the list can be sorted by, each with its expression. The layer
/// is not among them: its expression is made from the table of layers.
pub open spec fn sortable_columns() -> Seq<(Seq<char>, Seq<char>)> {
    seq![
        ("name"@, "n.name"@),
        ("access_level"@, "n.access_level"@),
        ("contract_enforced"@, "n.contract_enforced"@),
        ("owner"@, "n.group_name"@),
        ("executed_at"@, EXECUTED_AT@),
    ]
}

/// The expression of a column that the list can be sorted by.
pub open spec fn sort_expr(column: Seq<char>) -> Option<Seq<char>> {
    if column == "modeling_layer"@ {
        Some(layer_case())
    } else {
        lookup(sortable_columns(), column)
    }
}

/// Resolve a query-param sort column to its SQL expression.
pub fn resolve_sort_expr(col: &str) -> (r: Result<String, &'static str>)
    ensures
        match r {
            Ok(expr) => sort_expr(col@) == Some(expr@),
            Err(e) => sort_expr(col@) is None && e@ == "invalid sort column"@,
        },
{
    if same(col, "modeling_layer") {
        return Ok(modeling_layer_case_sql());
    }
    let table: Vec<(&'static str, &'static str)> = vec![
        ("name", "n.name"),
        ("access_level", "n.access_level"),
        ("contract_enforced", "n.contract_enforced"),
        ("owner", "n.group_name"),
        ("executed_at", EXECUTED_AT),
    ];
    assert(pairs_view(table@) =~= sortable_columns());
    match find_in(&table, col) {
        Some(expr) => Ok(expr.to_owned()),
        None => Err("invalid sort column"),
    }
}

/// What `<column>:<direction>` stands for. The direction may be left out and is in
/// any case of letters.
pub open spec fn parsed_sort(s: Seq<char>) -> Result<SortView, Seq<char>> {
    let (column, dir) = match split_at_first(s, ':') {
        Some(parts) => parts,
        None => (s, "asc"@),
    };
    match sort_expr(column) {
        Some(sql_expr) => if ascii_lower(dir) == "asc"@ {
            Ok(SortView { column, sql_expr, dir: SortDir::Asc })
        } else if ascii_lower(dir) == "desc"@ {
            Ok(SortView { column, sql_expr, dir: SortDir::Desc })
        } else {
            Err("sort direction must be asc or desc"@)
        },
        None => Err("invalid sort column"@),
    }
}

/// Parse `"field:dir"` into a validated `SortSelection`.
pub fn parse_sort(s: &str) -> (r: Result<SortSelection, &'static str>)
    ensures
        match r {
            Ok(sort) => parsed_sort(s@) == Ok::<SortView, Seq<char>>(sort@),
            Err(e) => parsed_sort(s@) == Err::<SortView, Seq<char>>(e@),
        },
{
    let (column, dir) = match split_once(s, ':') {
        Some(parts) => parts,
        None => (s.to_owned(), "asc".to_owned()),
    };
    let sql_expr = match resolve_sort_expr(column.as_str()) {
        Ok(expr) => expr,
        Err(e) => return Err(e),
    };
    let dir = to_ascii_lower(dir.as_str());
    if same(dir.as_str(), "asc") {
        Ok(SortSelection { column, sql_expr, dir: SortDir::Asc })
    } else if same(dir.as_str(), "desc") {
        Ok(SortSelection { column, sql_expr, dir: SortDir::Desc })
    } else {
        Err("sort direction must be asc or desc")
    }
}

/// The pieces of a comma-separated list, also the empty ones.
pub open spec fn pieces(raw: Seq<char>) -> Seq<Seq<char>> {
    each_trimmed(split(raw, is_char(',')))
}

/// Validate a comma-separated list of modeling layer values and return them.
pub fn parse_modeling_layers(raw: &str) -> (r: Result<Vec<String>, &'static str>)
    ensures
        match r {
            Ok(layers) => known_layers(pieces(raw@)) && texts(layers@) == pieces(raw@),
            Err(e) => !known_layers(pieces(raw@)) && e@ == "invalid modeling_layer value"@,
        },
{
    let names = split_trimmed(raw);
    let table = layer_conditions();
    let ghost all = pieces(raw@);
    let mut i: usize = 0;
    while i < names.len()
        invariant
            i <= names.len(),
            all == texts(names@),
            all == pieces(raw@),
            pairs_view(table@) == layers(),
            forall|j: int| 0 <= j < i ==> lookup(layers(), #[trigger] all[j]) is Some,
        decreases names.len() - i,
    {
        assert(all[i as int] == names@[i as int]@);
        if find_in(&table, names[i].as_str()).is_none() {
            return Err("invalid modeling_layer value");
        }
        i += 1;
    }
    Ok(names)
}

/// Whether every name is that of an access level.
pub open spec fn known_accesses(names: Seq<Seq<char>>) -> bool {
    forall|i: int| 0 <= i < names.len() ==> access_levels().contains(#[trigger] names[i])
}

/// The access levels, in alphabetical order.
pub open spec fn access_levels() -> Seq<Seq<char>> {
    seq!["private"@, "protected"@, "public"@]
}

fn is_access_level(name: &str) -> (r: bool)
    ensures
        r == access_levels().contains(name@),
{
    let ghost levels = access_levels();
    assert(levels[0] == "private"@ && levels[1] == "protected"@ && levels[2] == "public"@);
    same(name, "private") || same(name, "protected") || same(name, "public")
}

/// Validate a comma-separated list of access level values and return them.
pub fn parse_access_levels(raw: &str) -> (r: Result<Vec<String>, &'static str>)
    ensures
        match r {
            Ok(levels) => known_accesses(pieces(raw@)) && texts(levels@) == pieces(raw@),
            Err(e) => !known_accesses(pieces(raw@)) && e@ == "invalid access filter value"@,
        },
{
    let names = split_trimmed(raw);
    let ghost all = pieces(raw@);
    let mut i: usize = 0;
    while i < names.len()
        invariant
            i <= names.len(),
            all == texts(names@),
            all == pieces(raw@),
            forall|j: int| 0 <= j < i ==> access_levels().contains(#[trigger] all[j]),
        decreases names.len() - i,
    {
        assert(all[i as int] == names@[i as int]@);
        if !is_access_level(names[i].as_str()) {
            return Err("invalid access filter value");
        }
        i += 1;
    }
    Ok(names)
}

// ---------------------------------------------------------------------------
// The query of the list
// ---------------------------------------------------------------------------

/// What the list is sorted by: by name where no sort is given.
pub open spec fn asked_sort(params: ModelListParams) -> Result<SortView, Seq<char>> {
    match given_text(params.sort) {
        Some(s) => parsed_sort(s),
        None => Ok(SortView { column: "name"@, sql_expr: "n.name"@, dir: SortDir::Asc }),
    }
}

/// What is wrong with the parameters, if anything is. Which views are there has no
/// part in it.
pub open spec fn list_fault(params: ModelListParams) -> Option<Seq<char>> {
    let layers = given_text(params.modeling_layer);
    let accesses = given_text(params.access);
    if layers is Some && !known_layers(pieces(layers->0)) {
        Some("invalid modeling_layer value"@)
    } else if accesses is Some && !known_accesses(pieces(accesses->0)) {
        Some("invalid access filter value"@)
    } else {
        match asked_sort(params) {
            Ok(_) => None,
            Err(e) => Some(e),
        }
    }
}

/// The `WHERE` clause of the filters.
pub open spec fn model_filter(params: ModelListParams) -> Seq<char> {
    "WHERE n.resource_type = 'model'"@ + (match given_text(params.modeling_layer) {
        Some(raw) => " AND ("@ + layers_sql(pieces(raw)) + ")"@,
        None => ""@,
    }) + (match given_text(params.access) {
        Some(raw) => " AND n.access_level IN ("@ + quoted_list(pieces(raw)) + ")"@,
        None => ""@,
    }) + (match given_text(params.materialization) {
        Some(raw) => if csv(raw).len() > 0 {
            " AND n.materialized IN ("@ + quoted_list(csv(raw)) + ")"@
        } else {
            ""@
        },
        None => ""@,
    }) + (match given_text(params.owner) {
        Some(owner) => " AND n.group_name = '"@ + escaped(owner) + "'"@,
        None => ""@,
    })
}

pub const RR_CTE_BODY: &'static str = "last_run AS (\
  SELECT unique_id, MAX(created_at) AS executed_at \
  FROM dbt_rt.run_results \
  GROUP BY unique_id)";

pub const CAT_CTES_BODY: &'static str = "cat_tables AS (\
  SELECT unique_id FROM dbt.catalog_tables\
), row_count_cte AS (\
  SELECT unique_id, TRY_CAST(stat_value AS BIGINT) AS row_count_stat \
  FROM dbt.catalog_stats WHERE stat_id IN ('row_count', 'num_rows')\
), bytes_cte AS (\
  SELECT unique_id, TRY_CAST(stat_value AS BIGINT) AS bytes_stat \
  FROM dbt.catalog_stats WHERE stat_id IN ('bytes', 'num_bytes')\
), last_modified_cte AS (\
  SELECT unique_id, stat_value AS last_modified_stat \
  FROM dbt.catalog_stats WHERE stat_id = 'last_modified'\
)";

pub const ROW_COUNT_CTE_BODY: &'static str = "row_count_cte AS (\
  SELECT unique_id, TRY_CAST(stat_value AS BIGINT) AS row_count_stat \
  FROM dbt.catalog_stats WHERE stat_id IN ('row_count', 'num_rows')\
)";

pub const LAST_RUN_JOIN: &'static str = "LEFT JOIN last_run lr ON lr.unique_id = n.unique_id";

pub const CATALOG_JOINS: &'static str = "LEFT JOIN cat_tables ct ON ct.unique_id = n.unique_id \
     LEFT JOIN row_count_cte rcc ON rcc.unique_id = n.unique_id \
     LEFT JOIN bytes_cte bc ON bc.unique_id = n.unique_id \
     LEFT JOIN last_modified_cte lm ON lm.unique_id = n.unique_id";

pub const CATALOG_COLS: &'static str =
    "CASE WHEN ct.unique_id IS NOT NULL OR rcc.row_count_stat IS NOT NULL \
          THEN 1 ELSE 0 END AS has_catalog, \
     rcc.row_count_stat, \
     bc.bytes_stat, \
     lm.last_modified_stat";

pub const ROW_COUNT_JOIN: &'static str =
    "LEFT JOIN row_count_cte rcc ON rcc.unique_id = n.unique_id";

pub const ROW_COUNT_COLS: &'static str =
    "CASE WHEN rcc.row_count_stat IS NOT NULL THEN 1 ELSE 0 END AS has_catalog, \
     rcc.row_count_stat, \
     NULL::BIGINT AS bytes_stat, \
     NULL::VARCHAR AS last_modified_stat";

pub const NO_CATALOG_COLS: &'static str = "0 AS has_catalog, \
     NULL::BIGINT AS row_count_stat, \
     NULL::BIGINT AS bytes_stat, \
     NULL::VARCHAR AS last_modified_stat";

pub const ROWS_HEAD: &'static str = "SELECT \
       n.unique_id, n.name, n.package_name, n.original_file_path, ";

pub const ROWS_MIDDLE: &'static str = " AS modeling_layer, \
       n.access_level, n.contract_enforced, \
       n.group_name AS owner, ";

/// The tables that the query defines for itself. A table is only joined where it is
/// defined.
pub open spec fn cte_prefix(with_run_results: bool, with_catalog: bool) -> Seq<char> {
    if with_run_results && with_catalog {
        "WITH "@ + RR_CTE_BODY@ + ", "@ + CAT_CTES_BODY@ + "\n"@
    } else if with_run_results {
        "WITH "@ + RR_CTE_BODY@ + ", "@ + ROW_COUNT_CTE_BODY@ + "\n"@
    } else if with_catalog {
        "WITH "@ + CAT_CTES_BODY@ + "\n"@
    } else {
        ""@
    }
}

/// The joins of the query.
pub open spec fn joins(with_run_results: bool, with_catalog: bool) -> Seq<char> {
    " FROM dbt.nodes n "@ + (if with_run_results {
        LAST_RUN_JOIN@
    } else {
        ""@
    }) + " "@ + (if with_catalog {
        CATALOG_JOINS@
    } else if with_run_results {
        ROW_COUNT_JOIN@
    } else {
        ""@
    }) + " "@
}

/// The columns of run results and of the catalog.
pub open spec fn optional_cols(with_run_results: bool, with_catalog: bool) -> Seq<char> {
    (if with_run_results {
        "CAST(lr.executed_at AS VARCHAR) AS executed_at"@
    } else {
        "NULL::VARCHAR AS executed_at"@
    }) + ", n.materialized, "@ + (if with_catalog {
        CATALOG_COLS@
    } else if with_run_results {
        ROW_COUNT_COLS@
    } else {
        NO_CATALOG_COLS@
    })
}

/// The query for the count of all models that the filters let through. The cursor
/// has no part in it.
pub open spec fn model_count_sql(
    params: ModelListParams,
    with_run_results: bool,
    with_catalog: bool,
) -> Seq<char> {
    cte_prefix(with_run_results, with_catalog) + "SELECT count(*)"@ + joins(
        with_run_results,
        with_catalog,
    ) + model_filter(params)
}

/// The total is the same on every page: the count does not depend on the cursor.
pub proof fn lemma_total_is_the_same_on_every_page(
    params: ModelListParams,
    after: Option<String>,
    with_run_results: bool,
    with_catalog: bool,
)
    ensures
        model_count_sql(
            (ModelListParams { after, ..params }),
            with_run_results,
            with_catalog,
        ) == model_count_sql(params, with_run_results, with_catalog),
{
}

/// The expression that a query sorts by. Where the run results are not joined, the
/// time of the last run is null in every row.
pub open spec fn order_expr(sql_expr: Seq<char>, with_run_results: bool) -> Seq<char> {
    if sql_expr == EXECUTED_AT@ && !with_run_results {
        "NULL::VARCHAR"@
    } else {
        sql_expr
    }
}

/// The query for a page. The filter, the cursor and the order name only what is
/// joined.
pub open spec fn model_rows_sql(
    params: ModelListParams,
    with_run_results: bool,
    with_catalog: bool,
    first: u32,
    sort: SortView,
    cursor: Option<CursorView>,
) -> Seq<char> {
    let expr = order_expr(sort.sql_expr, with_run_results);
    cte_prefix(with_run_results, with_catalog) + ROWS_HEAD@ + layer_case() + ROWS_MIDDLE@
        + optional_cols(with_run_results, with_catalog) + joins(with_run_results, with_catalog)
        + page_clause(model_filter(params), expr, "n.unique_id"@, sort.dir, cursor) + page_order(
        expr,
        "n.unique_id"@,
        sort.dir,
        first,
    )
}

fn strs(v: &Vec<String>) -> (r: Vec<&str>)
    ensures
        str_texts(r@) == texts(v@),
{
    let mut r: Vec<&str> = Vec::new();
    let mut i: usize = 0;
    while i < v.len()
        invariant
            i <= v.len(),
            r.len() == i,
            forall|j: int| 0 <= j < i ==> (#[trigger] r@[j])@ == v@[j]@,
        decreases v.len() - i,
    {
        r.push(v[i].as_str());
        i += 1;
    }
    assert(str_texts(r@) =~= texts(v@));
    r
}

fn model_filter_sql(
    params: &ModelListParams,
    layers: &Option<Vec<String>>,
    accesses: &Option<Vec<String>>,
) -> (r: String)
    requires
        match (given_text(params.modeling_layer), *layers) {
            (Some(raw), Some(names)) => texts(names@) == pieces(raw) && known_layers(pieces(raw)),
            (None, None) => true,
            _ => false,
        },
        match (given_text(params.access), *accesses) {
            (Some(raw), Some(names)) => texts(names@) == pieces(raw),
            (None, None) => true,
            _ => false,
        },
    ensures
        r@ == model_filter(*params),
{
    let mut r = "WHERE n.resource_type = 'model'".to_owned();
    match layers {
        Some(names) => {
            let refs = strs(names);
            let mut part = " AND (".to_owned();
            part.append(modeling_layer_where(refs.as_slice()).as_str());
            part.append(")");
            r.append(part.as_str());
        },
        None => r.append(""),
    }
    match accesses {
        Some(names) => {
            let mut part = " AND n.access_level IN (".to_owned();
            part.append(quote_list(names).as_str());
            part.append(")");
            r.append(part.as_str());
        },
        None => r.append(""),
    }
    match given(&params.materialization) {
        Some(raw) => {
            let items = csv_items(raw);
            let mut part = "".to_owned();
            if items.len() > 0 {
                part = " AND n.materialized IN (".to_owned();
                part.append(quote_list(&items).as_str());
                part.append(")");
            }
            r.append(part.as_str());
        },
        None => r.append(""),
    }
    match given(&params.owner) {
        Some(owner) => {
            let mut part = " AND n.group_name = '".to_owned();
            part.append(escape_str(owner).as_str());
            part.append("'");
            r.append(part.as_str());
        },
        None => r.append(""),
    }
    r
}

fn cte_prefix_sql(with_run_results: bool, with_catalog: bool) -> (r: String)
    ensures
        r@ == cte_prefix(with_run_results, with_catalog),
{
    if !with_run_results && !with_catalog {
        return "".to_owned();
    }
    let mut r = "WITH ".to_owned();
    if with_run_results {
        r.append(RR_CTE_BODY);
        r.append(", ");
        r.append(
            if with_catalog {
                CAT_CTES_BODY
            } else {
                ROW_COUNT_CTE_BODY
            },
        );
    } else {
        r.append(CAT_CTES_BODY);
    }
    r.append("\n");
    r
}

fn joins_sql(with_run_results: bool, with_catalog: bool) -> (r: String)
    ensures
        r@ == joins(with_run_results, with_catalog),
{
    let mut r = " FROM dbt.nodes n ".to_owned();
    r.append(
        if with_run_results {
            LAST_RUN_JOIN
        } else {
            ""
        },
    );
    r.append(" ");
    r.append(
        if with_catalog {
            CATALOG_JOINS
        } else if with_run_results {
            ROW_COUNT_JOIN
        } else {
            ""
        },
    );
    r.append(" ");
    r
}

fn optional_cols_sql(with_run_results: bool, with_catalog: bool) -> (r: String)
    ensures
        r@ == optional_cols(with_run_results, with_catalog),
{
    let mut r = if with_run_results {
        "CAST(lr.executed_at AS VARCHAR) AS executed_at".to_owned()
    } else {
        "NULL::VARCHAR AS executed_at".to_owned()
    };
    r.append(", n.materialized, ");
    r.append(
        if with_catalog {
            CATALOG_COLS
        } else if with_run_results {
            ROW_COUNT_COLS
        } else {
            NO_CATALOG_COLS
        },
    );
    r
}

/// Build `(count_sql, rows_sql, sort)` for the models list query.
///
/// `with_run_results` and `with_catalog` say which optional views are joined; pass
/// `false` for one that is absent. When there is a cursor, the rows query advances
/// past it. The rows query asks for one row more than the page holds.
pub fn build_list_sql(
    params: &ModelListParams,
    with_run_results: bool,
    with_catalog: bool,
    first: u32,
    cursor: Option<&Cursor>,
) -> (r: Result<(String, String, SortSelection), &'static str>)
    requires
        first < u32::MAX,
    ensures
        match r {
            Ok((count_sql, rows_sql, sort)) => {
                &&& list_fault(*params) is None
                &&& asked_sort(*params) == Ok::<SortView, Seq<char>>(sort@)
                &&& count_sql@ == model_count_sql(*params, with_run_results, with_catalog)
                &&& rows_sql@ == model_rows_sql(
                    *params,
                    with_run_results,
                    with_catalog,
                    first,
                    sort@,
                    cursor_ref(cursor),
                )
            },
            Err(e) => list_fault(*params) == Some(e@),
        },
{
    let layers = match given(&params.modeling_layer) {
        Some(raw) => match parse_modeling_layers(raw) {
            Ok(names) => Some(names),
            Err(e) => return Err(e),
        },
        None => None,
    };
    let accesses = match given(&params.access) {
        Some(raw) => match parse_access_levels(raw) {
            Ok(names) => Some(names),
            Err(e) => return Err(e),
        },
        None => None,
    };
    let sort = match given(&params.sort) {
        Some(s) => match parse_sort(s) {
            Ok(sort) => sort,
            Err(e) => return Err(e),
        },
        None => SortSelection {
            column: "name".to_owned(),
            sql_expr: "n.name".to_owned(),
            dir: SortDir::Asc,
        },
    };
    let filter = model_filter_sql(params, &layers, &accesses);
    let prefix = cte_prefix_sql(with_run_results, with_catalog);
    let from = joins_sql(with_run_results, with_catalog);
    let mut count_sql = prefix.clone();
    count_sql.append("SELECT count(*)");
    count_sql.append(from.as_str());
    count_sql.append(filter.as_str());
    let mut rows_sql = prefix;
    rows_sql.append(ROWS_HEAD);
    rows_sql.append(modeling_layer_case_sql().as_str());
    rows_sql.append(ROWS_MIDDLE);
    rows_sql.append(optional_cols_sql(with_run_results, with_catalog).as_str());
    rows_sql.append(from.as_str());
    let expr: &str = if !with_run_results && same(sort.sql_expr.as_str(), EXECUTED_AT) {
        "NULL::VARCHAR"
    } else {
        sort.sql_expr.as_str()
    };
    rows_sql.append(
        page_where(filter.as_str(), expr, "n.unique_id", sort.dir, cursor).as_str(),
    );
    rows_sql.append(page_order_sql(expr, "n.unique_id", sort.dir, first).as_str());
    Ok((count_sql, rows_sql, sort))
}

// ---------------------------------------------------------------------------
// Rows
// ---------------------------------------------------------------------------

/// Catalog statistics of a row of the list. A field is null when the adapter did not
/// emit the statistic.
#[derive(Debug)]
pub struct ModelListCatalogInfo {
    /// Approximate row count.
    pub row_count_stat: Option<i64>,
    /// Size in bytes.
    pub bytes_stat: Option<i64>,
    /// Last-modified timestamp.
    pub last_modified_stat: Option<String>,
}

/// A single row of the list of models.
#[derive(Debug)]
pub struct ModelSummary {
    pub unique_id: String,
    pub name: String,
    pub package_name: Option<String>,
    pub original_file_path: Option<String>,
    /// Server-computed modeling layer, or null when the path matches no convention.
    pub modeling_layer: Option<String>,
    pub access_level: Option<String>,
    pub contract_enforced: bool,
    /// Owner from the model's group; null when ungrouped.
    pub owner: Option<String>,
    /// ISO-8601 timestamp of the last run; null when never run.
    pub executed_at: Option<String>,
    /// Materialization strategy; null when unknown.
    pub materialized: Option<String>,
    /// Warehouse catalog stats; null when no catalog row exists for this model.
    pub catalog: Option<ModelListCatalogInfo>,
}

/// Response body of the list of models.
#[derive(Debug)]
pub struct ModelListResponse {
    pub data: Vec<ModelSummary>,
    pub page_info: PageInfo,
}

/// Whether a row says that the catalog knows the model.
pub open spec fn has_catalog(batch: Batch, row: int) -> bool {
    batch.opt_i32("has_catalog"@, row) matches Some(n) && n != 0
}

impl FromRow for ModelSummary {
    open spec fn columns() -> Seq<Seq<char>> {
        seq![
            "unique_id"@,
            "name"@,
            "package_name"@,
            "original_file_path"@,
            "modeling_layer"@,
            "access_level"@,
            "owner"@,
            "executed_at"@,
            "materialized"@,
            "last_modified_stat"@,
        ]
    }

    open spec fn flags() -> Seq<Seq<char>> {
        seq!["contract_enforced"@]
    }

    open spec fn is_row(self, batch: Batch, row: int) -> bool {
        &&& self.unique_id == batch.text("unique_id"@, row)
        &&& self.name == batch.text("name"@, row)
        &&& self.package_name == batch.opt_text("package_name"@, row)
        &&& self.original_file_path == batch.opt_text("original_file_path"@, row)
        &&& self.modeling_layer == batch.opt_text("modeling_layer"@, row)
        &&& self.access_level == batch.opt_text("access_level"@, row)
        &&& self.contract_enforced == batch.flag("contract_enforced"@, row)
        &&& self.owner == batch.opt_text("owner"@, row)
        &&& self.executed_at == batch.opt_text("executed_at"@, row)
        &&& self.materialized == batch.opt_text("materialized"@, row)
        &&& self.catalog == (if has_catalog(batch, row) {
            Some(
                ModelListCatalogInfo {
                    row_count_stat: batch.opt_i64("row_count_stat"@, row),
                    bytes_stat: batch.opt_i64("bytes_stat"@, row),
                    last_modified_stat: batch.opt_text("last_modified_stat"@, row),
                },
            )
        } else {
            None
        })
    }

    fn from_row(batch: &Batch, row: usize) -> (r: ModelSummary) {
        assert(Self::columns()[0] == "unique_id"@);
        assert(Self::columns()[1] == "name"@);
        assert(Self::flags()[0] == "contract_enforced"@);
        let known = match batch.get_opt_i32("has_catalog", row) {
            Some(n) => n != 0,
            None => false,
        };
        let catalog = if known {
            Some(
                ModelListCatalogInfo {
                    row_count_stat: batch.get_opt_i64("row_count_stat", row),
                    bytes_stat: batch.get_opt_i64("bytes_stat", row),
                    last_modified_stat: batch.get_opt_text("last_modified_stat", row),
                },
            )
        } else {
            None
        };
        ModelSummary {
            unique_id: batch.get_text("unique_id", row),
            name: batch.get_text("name", row),
            package_name: batch.get_opt_text("package_name", row),
            original_file_path: batch.get_opt_text("original_file_path", row),
            modeling_layer: batch.get_opt_text("modeling_layer", row),
            access_level: batch.get_opt_text("access_level", row),
            contract_enforced: batch.get_flag("contract_enforced", row),
            owner: batch.get_opt_text("owner", row),
            executed_at: batch.get_opt_text("executed_at", row),
            materialized: batch.get_opt_text("materialized", row),
            catalog,
        }
    }
}

/// Convert the batches of the models query into typed rows.
pub fn batches_to_model_rows(batches: &Vec<Batch>) -> (r: Vec<ModelSummary>)
    requires
        readable::<ModelSummary>(batches@),
    ensures
        are_rows(r@, batches@),
{
    read_rows(batches)
}

/// The value of a row in the column that the list is sorted by.
pub open spec fn sort_value(row: ModelSummary, column: Seq<char>) -> Option<Seq<char>> {
    if column == "name"@ {
        Some(row.name@)
    } else if column == "modeling_layer"@ {
        opt_text(row.modeling_layer)
    } else if column == "access_level"@ {
        opt_text(row.access_level)
    } else if column == "contract_enforced"@ {
        Some(
            if row.contract_enforced {
                "true"@
            } else {
                "false"@
            },
        )
    } else if column == "owner"@ {
        opt_text(row.owner)
    } else if column == "executed_at"@ {
        opt_text(row.executed_at)
    } else {
        None
    }
}

/// Look up the sort-column value of a row for use in a cursor.
pub fn cursor_sort_value(row: &ModelSummary, column: &str) -> (r: Option<String>)
    ensures
        opt_text(r) == sort_value(*row, column@),
{
    if same(column, "name") {
        Some(row.name.clone())
    } else if same(column, "modeling_layer") {
        clone_opt(&row.modeling_layer)
    } else if same(column, "access_level") {
        clone_opt(&row.access_level)
    } else if same(column, "contract_enforced") {
        Some(
            if row.contract_enforced {
                "true".to_owned()
            } else {
                "false".to_owned()
            },
        )
    } else if same(column, "owner") {
        clone_opt(&row.owner)
    } else if same(column, "executed_at") {
        clone_opt(&row.executed_at)
    } else {
        None
    }
}

impl Listed for ModelSummary {
    open spec fn key(self, column: Seq<char>) -> CursorView {
        CursorView { sort_value: sort_value(self, column), unique_id: self.unique_id@ }
    }

    fn cursor(&self, column: &str) -> (r: Cursor) {
        Cursor {
            sort_value: cursor_sort_value(self, column),
            unique_id: self.unique_id.clone(),
        }
    }
}

// ---------------------------------------------------------------------------
// The list
// ---------------------------------------------------------------------------

/// A list of models that can be run.
#[derive(Debug)]
pub struct ModelListPlan {
    pub first: u32,
    pub sort: SortSelection,
    /// The variants of the query: with run results and the catalog, without the
    /// catalog, without run results, without both.
    pub probe: ListProbe,
}

/// Whether a query is that of the list with the given views.
pub open spec fn is_variant(
    query: ListQuery,
    params: ModelListParams,
    sort: SortView,
    with_run_results: bool,
    with_catalog: bool,
) -> bool {
    &&& query.count_sql@ == model_count_sql(params, with_run_results, with_catalog)
    &&& query.rows_sql@ == model_rows_sql(
        params,
        with_run_results,
        with_catalog,
        clamped(params.first, DEFAULT_PAGE_SIZE, MAX_PAGE_SIZE),
        sort,
        asked_cursor(params.after),
    )
}

fn variant(
    params: &ModelListParams,
    with_run_results: bool,
    with_catalog: bool,
    first: u32,
    cursor: Option<&Cursor>,
) -> (r: ListQuery)
    requires
        list_fault(*params) is None,
        first == clamped(params.first, DEFAULT_PAGE_SIZE, MAX_PAGE_SIZE),
        first < u32::MAX,
        cursor_ref(cursor) == asked_cursor(params.after),
    ensures
        is_variant(r, *params, asked_sort(*params)->Ok_0, with_run_results, with_catalog),
{
    match build_list_sql(params, with_run_results, with_catalog, first, cursor) {
        Ok((count_sql, rows_sql, _)) => ListQuery { count_sql, rows_sql },
        Err(_) => ListQuery { count_sql: String::new(), rows_sql: String::new() },
    }
}

/// Check a request for the list of models and plan it.
pub fn plan_list_models(params: &ModelListParams) -> (r: Result<ModelListPlan, ErrorReply>)
    ensures
        match r {
            Ok(plan) => {
                &&& list_refusal(params.after, list_fault(*params)) is None
                &&& plan.first == clamped(params.first, DEFAULT_PAGE_SIZE, MAX_PAGE_SIZE)
                &&& 1 <= plan.first <= MAX_PAGE_SIZE
                &&& asked_sort(*params) == Ok::<SortView, Seq<char>>(plan.sort@)
                &&& plan.probe.wf()
                &&& plan.probe.at == 0
                &&& plan.probe.noun@ == "model"@
                &&& plan.probe.absent@ == NO_COUNT@
                &&& plan.probe.queries.len() == 4
                &&& is_variant(plan.probe.queries@[0], *params, plan.sort@, true, true)
                &&& is_variant(plan.probe.queries@[1], *params, plan.sort@, true, false)
                &&& is_variant(plan.probe.queries@[2], *params, plan.sort@, false, true)
                &&& is_variant(plan.probe.queries@[3], *params, plan.sort@, false, false)
            },
            Err(e) => list_refusal(params.after, list_fault(*params)) == Some(e@),
        },
{
    let first: u32 = clamp_first(params.first);
    let cursor = match read_after(&params.after) {
        Ok(cursor) => cursor,
        Err(e) => return Err(e),
    };
    let (count_sql, rows_sql, sort) = match build_list_sql(
        params,
        true,
        true,
        first,
        cursor.as_ref(),
    ) {
        Ok(built) => built,
        Err(msg) => return Err(crate::json::bad_request(msg)),
    };
    let mut queries: Vec<ListQuery> = Vec::new();
    queries.push(ListQuery { count_sql, rows_sql });
    queries.push(variant(params, true, false, first, cursor.as_ref()));
    queries.push(variant(params, false, true, first, cursor.as_ref()));
    queries.push(variant(params, false, false, first, cursor.as_ref()));
    let probe = ListProbe::start(queries, "model");
    Ok(ModelListPlan { first, sort, probe })
}

/// The page of the list, from the rows that its query gave.
pub fn finish_list_models(
    first: u32,
    sort: &SortSelection,
    total_count: u64,
    batches: &Vec<Batch>,
) -> (r: ModelListResponse)
    requires
        readable::<ModelSummary>(batches@),
    ensures
        exists|rows: Seq<ModelSummary>, n: usize|
            are_rows(rows, batches@) && n == rows.len() && r.data@ == #[trigger] page_of(
                rows,
                n,
                first,
            ) && r.page_info@ == page_info_of(
                total_count,
                keys(r.data@, sort.column@),
                overfull(n, first),
            ) && leads_on(r.page_info@, keys(r.data@, sort.column@)),
{
    let rows = batches_to_model_rows(batches);
    let ghost all = rows@;
    let ghost n = rows.len();
    let (data, page_info) = finish_page(rows, first, total_count, sort.column.as_str());
    assert(data@ == page_of(all, n, first));
    ModelListResponse { data, page_info }
}

// ---------------------------------------------------------------------------
// Facets
// ---------------------------------------------------------------------------

/// Response body of the facets of models.
#[derive(Debug)]
pub struct ModelFacetsResponse {
    /// Modeling layer options in convention order.
    pub modeling_layers: Vec<FacetValue>,
    /// Access level options in alphabetical order.
    pub accesses: Vec<FacetValue>,
    /// Owner (group) options; project-specific.
    pub owners: Vec<FacetValue>,
    /// Distinct materialization values in the project.
    pub materializations: Vec<FacetValue>,
}

pub const OWNERS_FACET_SQL: &'static str = "\
SELECT DISTINCT name AS owner \
FROM dbt.groups \
ORDER BY owner";

pub const MATERIALIZATIONS_FACET_SQL: &'static str = "\
SELECT DISTINCT materialized AS value \
FROM dbt.nodes \
WHERE resource_type = 'model' \
  AND materialized IS NOT NULL \
ORDER BY value";

/// Extract the `owner` strings that are not null.
pub fn batches_to_owner_names(batches: &Vec<Batch>) -> (r: Vec<String>)
    requires
        all_wf(batches@),
        all_have_text(batches@, "owner"@),
    ensures
        r@ == column_texts(batches@, "owner"@),
{
    read_column_texts(batches, "owner")
}

/// Extract the `value` strings that are not null, as facet options.
pub fn batches_to_facet_values(batches: &Vec<Batch>) -> (r: Vec<FacetValue>)
    requires
        all_wf(batches@),
        all_have_text(batches@, "value"@),
    ensures
        are_facets(r@, texts(column_texts(batches@, "value"@))),
{
    facets(read_column_texts(batches, "value"))
}

/// The names of a table.
pub open spec fn names_of(table: Seq<(Seq<char>, Seq<char>)>) -> Seq<Seq<char>> {
    Seq::new(table.len(), |i: int| table[i].0)
}

/// The facets of models, from what the two queries gave.
pub fn finish_model_facets(owners: &Vec<Batch>, materializations: &Vec<Batch>) -> (r:
    ModelFacetsResponse)
    requires
        all_wf(owners@) && all_have_text(owners@, "owner"@),
        all_wf(materializations@) && all_have_text(materializations@, "value"@),
    ensures
        are_facets(r.modeling_layers@, names_of(layers())),
        are_facets(r.accesses@, access_levels()),
        are_facets(r.owners@, texts(column_texts(owners@, "owner"@))),
        are_facets(r.materializations@, texts(column_texts(materializations@, "value"@))),
{
    let table = layer_conditions();
    let mut names: Vec<String> = Vec::new();
    let mut i: usize = 0;
    while i < table.len()
        invariant
            i <= table.len(),
            pairs_view(table@) == layers(),
            names.len() == i,
            forall|j: int| 0 <= j < i ==> (#[trigger] names@[j])@ == layers()[j].0,
        decreases table.len() - i,
    {
        assert(layers()[i as int].0 == table@[i as int].0@);
        names.push(table[i].0.to_owned());
        i += 1;
    }
    assert(texts(names@) =~= names_of(layers()));
    let mut levels: Vec<String> = Vec::new();
    levels.push("private".to_owned());
    levels.push("protected".to_owned());
    levels.push("public".to_owned());
    assert(texts(levels@) =~= access_levels());
    ModelFacetsResponse {
        modeling_layers: facets(names),
        accesses: facets(levels),
        owners: facets(batches_to_owner_names(owners)),
        materializations: batches_to_facet_values(materializations),
    }
}

// ---------------------------------------------------------------------------
// The detail of a model
// ---------------------------------------------------------------------------

/// The detail of a model.
#[derive(Debug)]
pub struct ModelDetail {
    pub unique_id: String,
    pub name: String,
    pub resource_type: String,
    pub package_name: Option<String>,
    pub materialized: Option<String>,
    pub description: Option<String>,
    pub database_name: Option<String>,
    pub schema_name: Option<String>,
    pub relation_name: Option<String>,
    pub identifier: Option<String>,
    pub original_file_path: Option<String>,
    pub access_level: Option<String>,
    pub group_name: Option<String>,
    pub raw_code: Option<String>,
    pub compiled_code: Option<String>,
    pub contract_enforced: Option<bool>,
    pub tags: Vec<String>,
    pub fqn: Vec<String>,
    pub columns: Vec<ModelColumn>,
    pub depends_on: Vec<EdgeRef>,
    pub referenced_by: Vec<EdgeRef>,
    pub execution_info: Option<ExecutionInfo>,
    pub catalog: Option<ModelCatalogInfo>,
}

/// A column of a model.
#[derive(Debug)]
pub struct ModelColumn {
    pub name: String,
    pub index: Option<i64>,
    pub data_type: Option<String>,
    pub declared_type: Option<String>,
    pub inferred_type: Option<String>,
    pub catalog_type: Option<String>,
    pub description: Option<String>,
    pub label: Option<String>,
    pub granularity: Option<String>,
}

/// What the catalog knows of a model.
#[derive(Debug)]
pub struct ModelCatalogInfo {
    pub table_type: Option<String>,
    pub owner: Option<String>,
    pub bytes_stat: Option<i64>,
    pub row_count_stat: Option<i64>,
}

/// Whether the own fields of a detail are those of the first row of a batch.
pub open spec fn is_node_detail(d: ModelDetail, batch: Batch) -> bool {
    &&& d.unique_id@ == text_or_empty(batch.opt_text("unique_id"@, 0))
    &&& d.name@ == text_or_empty(batch.opt_text("name"@, 0))
    &&& d.resource_type@ == text_or_empty(batch.opt_text("resource_type"@, 0))
    &&& d.package_name == batch.opt_text("package_name"@, 0)
    &&& d.materialized == batch.opt_text("materialized"@, 0)
    &&& d.description == batch.opt_text("description"@, 0)
    &&& d.database_name == batch.opt_text("database_name"@, 0)
    &&& d.schema_name == batch.opt_text("schema_name"@, 0)
    &&& d.relation_name == batch.opt_text("relation_name"@, 0)
    &&& d.identifier == batch.opt_text("identifier"@, 0)
    &&& d.original_file_path == batch.opt_text("original_file_path"@, 0)
    &&& d.access_level == batch.opt_text("access_level"@, 0)
    &&& d.group_name == batch.opt_text("group_name"@, 0)
    &&& d.raw_code == batch.opt_text("raw_code"@, 0)
    &&& d.compiled_code == batch.opt_text("compiled_code"@, 0)
    &&& d.contract_enforced == batch.opt_bool("contract_enforced"@, 0)
    &&& d.tags@ == first_list(batch, "tags"@)
    &&& d.fqn@ == first_list(batch, "fqn"@)
}

/// Extract the own fields of a model; what comes from other queries is left empty.
pub fn extract_node_detail(batches: &Vec<Batch>) -> (r: Option<ModelDetail>)
    requires
        all_wf(batches@),
    ensures
        match first_filled(batches@) {
            Some(batch) => r matches Some(d) && is_node_detail(d, batch) && d.columns@.len() == 0
                && d.depends_on@.len() == 0 && d.referenced_by@.len() == 0
                && d.execution_info is None && d.catalog is None,
            None => r is None,
        },
{
    match find_filled(batches) {
        Some(batch) => Some(
            ModelDetail {
                unique_id: or_empty(batch.get_opt_text("unique_id", 0)),
                name: or_empty(batch.get_opt_text("name", 0)),
                resource_type: or_empty(batch.get_opt_text("resource_type", 0)),
                package_name: batch.get_opt_text("package_name", 0),
                materialized: batch.get_opt_text("materialized", 0),
                description: batch.get_opt_text("description", 0),
                database_name: batch.get_opt_text("database_name", 0),
                schema_name: batch.get_opt_text("schema_name", 0),
                relation_name: batch.get_opt_text("relation_name", 0),
                identifier: batch.get_opt_text("identifier", 0),
                original_file_path: batch.get_opt_text("original_file_path", 0),
                access_level: batch.get_opt_text("access_level", 0),
                group_name: batch.get_opt_text("group_name", 0),
                raw_code: batch.get_opt_text("raw_code", 0),
                compiled_code: batch.get_opt_text("compiled_code", 0),
                contract_enforced: batch.get_opt_bool("contract_enforced", 0),
                tags: extract_str_list(batch, "tags"),
                fqn: extract_str_list(batch, "fqn"),
                columns: Vec::new(),
                depends_on: Vec::new(),
                referenced_by: Vec::new(),
                execution_info: None,
                catalog: None,
            },
        ),
        None => None,
    }
}

impl FromRow for ModelColumn {
    open spec fn columns() -> Seq<Seq<char>> {
        seq![
            "name"@,
            "data_type"@,
            "declared_type"@,
            "inferred_type"@,
            "catalog_type"@,
            "description"@,
            "label"@,
            "granularity"@,
        ]
    }

    open spec fn flags() -> Seq<Seq<char>> {
        Seq::empty()
    }

    open spec fn is_row(self, batch: Batch, row: int) -> bool {
        &&& self.name == batch.text("name"@, row)
        &&& self.index == batch.opt_i64("index"@, row)
        &&& self.data_type == batch.opt_text("data_type"@, row)
        &&& self.declared_type == batch.opt_text("declared_type"@, row)
        &&& self.inferred_type == batch.opt_text("inferred_type"@, row)
        &&& self.catalog_type == batch.opt_text("catalog_type"@, row)
        &&& self.description == batch.opt_text("description"@, row)
        &&& self.label == batch.opt_text("label"@, row)
        &&& self.granularity == batch.opt_text("granularity"@, row)
    }

    fn from_row(batch: &Batch, row: usize) -> (r: ModelColumn) {
        assert(Self::columns()[0] == "name"@);
        ModelColumn {
            name: batch.get_text("name", row),
            index: batch.get_opt_i64("index", row),
            data_type: batch.get_opt_text("data_type", row),
            declared_type: batch.get_opt_text("declared_type", row),
            inferred_type: batch.get_opt_text("inferred_type", row),
            catalog_type: batch.get_opt_text("catalog_type", row),
            description: batch.get_opt_text("description", row),
            label: batch.get_opt_text("label", row),
            granularity: batch.get_opt_text("granularity", row),
        }
    }
}

/// Extract the columns of a model.
pub fn extract_model_columns(batches: &Vec<Batch>) -> (r: Vec<ModelColumn>)
    requires
        readable::<ModelColumn>(batches@),
    ensures
        are_rows(r@, batches@),
{
    read_rows(batches)
}

/// Whether the catalog info is that of the first row, if there is one.
pub open spec fn is_catalog_info(r: Option<ModelCatalogInfo>, batches: Seq<Batch>) -> bool {
    match first_filled(batches) {
        Some(batch) => r == Some(
            ModelCatalogInfo {
                table_type: batch.opt_text("type"@, 0),
                owner: batch.opt_text("owner"@, 0),
                bytes_stat: batch.opt_i64("bytes_stat"@, 0),
                row_count_stat: batch.opt_i64("row_count_stat"@, 0),
            },
        ),
        None => r is None,
    }
}

/// Extract what the catalog knows of a model.
pub fn extract_catalog_info(batches: &Vec<Batch>) -> (r: Option<ModelCatalogInfo>)
    requires
        all_wf(batches@),
    ensures
        is_catalog_info(r, batches@),
{
    match find_filled(batches) {
        Some(batch) => Some(
            ModelCatalogInfo {
                table_type: batch.get_opt_text("type", 0),
                owner: batch.get_opt_text("owner", 0),
                bytes_stat: batch.get_opt_i64("bytes_stat", 0),
                row_count_stat: batch.get_opt_i64("row_count_stat", 0),
            },
        ),
        None => None,
    }
}

pub const MODEL_NODE_HEAD: &'static str =
    "SELECT n.unique_id, n.name, n.resource_type, n.package_name, \
     n.materialized, n.description, n.database_name, n.schema_name, \
     n.relation_name, n.identifier, n.original_file_path, \
     n.access_level, n.group_name, n.raw_code, n.compiled_code, \
     n.contract_enforced, n.tags, n.fqn \
     FROM dbt.nodes n \
     WHERE n.unique_id = '";

pub const MODEL_NODE_TAIL: &'static str = "' AND n.resource_type = 'model' LIMIT 1";

pub const MODEL_COLUMNS_HEAD: &'static str =
    "SELECT LOWER(column_name) AS name, column_index AS index, \
     data_type, declared_type, inferred_type, catalog_type, \
     description, label, granularity \
     FROM dbt.node_columns WHERE unique_id = '";

/// The queries for the detail of a model. The last two are of views that may be
/// absent.
#[derive(Debug)]
pub struct ModelQueries {
    pub node: String,
    pub columns: String,
    pub upstream: String,
    pub downstream: String,
    pub run_result: String,
    pub catalog: String,
}

/// Check the unique id of a model and build the queries for its detail.
pub fn plan_get_model(unique_id: &str) -> (r: Result<ModelQueries, ErrorReply>)
    ensures
        match r {
            Ok(q) => {
                &&& valid_id(unique_id@)
                &&& q.node@ == id_query(MODEL_NODE_HEAD@, unique_id@, MODEL_NODE_TAIL@)
                &&& reads_model(q.node@, unique_id@)
                &&& q.columns@ == id_query(MODEL_COLUMNS_HEAD@, unique_id@, COLUMNS_TAIL@)
                &&& reads_model_columns(q.columns@, unique_id@)
                &&& q.upstream@ == id_query(UPSTREAM_HEAD@, unique_id@, UPSTREAM_TAIL@)
                &&& reads_parents(q.upstream@, unique_id@)
                &&& q.downstream@ == id_query(DOWNSTREAM_HEAD@, unique_id@, DOWNSTREAM_TAIL@)
                &&& reads_children(q.downstream@, unique_id@)
                &&& q.run_result@ == id_query(RUN_RESULT_HEAD@, unique_id@, RUN_RESULT_TAIL@)
                &&& reads_last_run(q.run_result@, unique_id@)
                &&& q.catalog@ == id_query(CATALOG_HEAD@, unique_id@, LIMIT_ONE@)
                &&& reads_catalog(q.catalog@, unique_id@)
            },
            Err(e) => !valid_id(unique_id@) && e@ == error_view(400, "invalid unique_id"@),
        },
{
    proof {
        lemma_model_query(unique_id@);
        lemma_model_columns_query(unique_id@);
        lemma_parents_query(unique_id@);
        lemma_children_query(unique_id@);
        lemma_last_run_query(unique_id@);
        lemma_catalog_query(unique_id@);
    }
    match check_unique_id(unique_id) {
        Ok(_) => {},
        Err(e) => return Err(e),
    }
    Ok(
        ModelQueries {
            node: id_sql(MODEL_NODE_HEAD, unique_id, MODEL_NODE_TAIL),
            columns: id_sql(MODEL_COLUMNS_HEAD, unique_id, COLUMNS_TAIL),
            upstream: id_sql(UPSTREAM_HEAD, unique_id, UPSTREAM_TAIL),
            downstream: id_sql(DOWNSTREAM_HEAD, unique_id, DOWNSTREAM_TAIL),
            run_result: id_sql(RUN_RESULT_HEAD, unique_id, RUN_RESULT_TAIL),
            catalog: id_sql(CATALOG_HEAD, unique_id, LIMIT_ONE),
        },
    )
}

/// The detail of a model, from what its queries gave. `None` stands for a query
/// whose view is absent.
pub fn finish_get_model(
    unique_id: &str,
    node: &Vec<Batch>,
    columns: &Vec<Batch>,
    upstream: &Vec<Batch>,
    downstream: &Vec<Batch>,
    run_result: &Option<Vec<Batch>>,
    catalog: &Option<Vec<Batch>>,
) -> (r: Result<ModelDetail, ErrorReply>)
    requires
        all_wf(node@),
        readable::<ModelColumn>(columns@),
        readable::<EdgeRef>(upstream@),
        readable::<EdgeRef>(downstream@),
        opt_wf(*run_result),
        opt_wf(*catalog),
    ensures
        match first_filled(node@) {
            Some(batch) => r matches Ok(d) && {
                &&& is_node_detail(d, batch)
                &&& are_rows(d.columns@, columns@)
                &&& are_rows(d.depends_on@, upstream@)
                &&& are_rows(d.referenced_by@, downstream@)
                &&& is_last_run(d.execution_info, *run_result)
                &&& match *catalog {
                    Some(batches) => is_catalog_info(d.catalog, batches@),
                    None => d.catalog is None,
                }
            },
            None => r matches Err(e) && e@ == error_view(
                404,
                not_found_text("model"@, unique_id@),
            ),
        },
{
    match extract_node_detail(node) {
        Some(detail) => {
            let mut detail = detail;
            detail.columns = extract_model_columns(columns);
            detail.depends_on = extract_edge_refs(upstream);
            detail.referenced_by = extract_edge_refs(downstream);
            detail.execution_info = last_run(run_result);
            detail.catalog = match catalog {
                Some(batches) => extract_catalog_info(batches),
                None => None,
            };
            Ok(detail)
        },
        None => Err(resource_not_found("model", unique_id)),
    }
}

} // verus!
