//! Cross-resource project search.
//!
//! Two modes. Browse mode (the query is absent or blank) gives all resources sorted
//! by name and unique id. Search mode splits the query at white space; every word
//! has to match in `name`, `column`, `tag`, `fqn` or `description`, in this order of
//! priority.
use crate::find::{replace, replaced, str_texts};
use crate::highlight::{
    build_description_highlight, build_highlight, build_tag_highlight, columns_highlight,
    description_highlight, highlight_columns, highlighted, tag_highlight,
};
use crate::json::{bad_request, bad_request_coded, coded_view, error_view, ErrorReply, ErrorView};
use crate::order::{comes_first, lemma_precedes_total, lemma_precedes_transitive, precedes};
use crate::pagination::{
    clamp_size, clamped, cursor_ref, cut_page, decoded, leads_on, overfull, page_info,
    page_info_of, page_of, Cursor, CursorView, PageInfo,
};
use crate::probe::{ListProbe, ListQuery, NO_COUNT};
use crate::search_sql::{
    all_types, build_search_sql, contains_type, count_sql, find_unknown_layer, is_search,
    named_types, ordered, page_sql, parse_csv_resource_types, search_fault, search_words, types_in,
    unknown_layer, unknown_type, ResourceType, SearchQueryParams, INTERMEDIATE_CONDITION,
    MARTS_CONDITION, STAGING_CONDITION,
};
use crate::sql::{escape_ilike, escape_str, escaped, pattern};
use crate::table::{
    all_have_text, all_have_texts, all_places, all_wf, column_texts, opt_items, places, places_view,
    read_column_texts, Batch,
};
use crate::text::{
    clone_opt, csv, given, given_text, join, joined, opt_same, opt_text, same, split_words, texts,
    to_chars, trim,
};
use vstd::prelude::*;

verus! {

/// Page size of a search when `?first` is omitted.
pub const SEARCH_DEFAULT_PAGE_SIZE: u32 = 50;

/// Maximum page size of a search.
pub const SEARCH_MAX_PAGE_SIZE: u32 = 200;

/// Maximum length of a query, in characters.
pub const MAX_QUERY_CHARS: usize = 1024;

// ---------------------------------------------------------------------------
// Response types
// ---------------------------------------------------------------------------

/// A single edge in the search response: one matched resource.
#[derive(Debug)]
pub struct SearchEdge {
    pub matched_field: Option<String>,
    pub highlight: Option<String>,
    pub hit: SearchHit,
}

/// A flat hit struct covering all resource types. Fields that a type does not have
/// are absent.
#[derive(Debug)]
pub struct SearchHit {
    pub unique_id: String,
    pub resource_type: String,
    pub name: Option<String>,
    pub fqn: Option<Vec<String>>,
    pub description: Option<String>,
    pub tags: Option<Vec<String>>,
    pub package_name: Option<String>,
    /// model only
    pub materialized: Option<String>,
    /// model only
    pub access_level: Option<String>,
    /// source only
    pub source_name: Option<String>,
    /// source only; null when freshness is not known
    pub freshness_checked: Option<bool>,
    /// test / unit_test only
    pub test_type: Option<String>,
    /// exposure only
    pub exposure_type: Option<String>,
    /// nodes only: last run (ISO string)
    pub executed_at: Option<String>,
}

/// Response envelope of a search.
#[derive(Debug)]
pub struct SearchResponse {
    pub data: Vec<SearchEdge>,
    pub page_info: PageInfo,
}

// ---------------------------------------------------------------------------
// Planning
// ---------------------------------------------------------------------------

/// The resource types that a search asks for, before the filters that only models
/// have.
pub open spec fn asked_types(params: SearchQueryParams) -> Set<ResourceType> {
    match given_text(params.type_filter) {
        Some(raw) => named_types(csv(raw)),
        None => Set::full(),
    }
}

/// The resource types of a search: only models where a filter is given that only
/// models have.
pub open spec fn search_types(params: SearchQueryParams) -> Seq<ResourceType> {
    if given_text(params.modeling_layer) is Some || given_text(params.materialization) is Some {
        ordered(asked_types(params).intersect(set![ResourceType::Model]))
    } else {
        ordered(asked_types(params))
    }
}

/// The cursor that a search starts behind, where it is given and can be read.
pub open spec fn search_cursor(params: SearchQueryParams) -> Option<CursorView> {
    match given_text(params.after) {
        Some(s) => decoded(s),
        None => None,
    }
}

/// What a search is refused with, if it is, in the order in which it is checked: a
/// query that is too long, a cursor that cannot be read, an unknown type, an
/// unknown modeling layer, nothing left to search.
pub open spec fn search_refusal(params: SearchQueryParams) -> Option<ErrorView> {
    let types = given_text(params.type_filter);
    let layers = given_text(params.modeling_layer);
    if params.q matches Some(q) && q@.len() > MAX_QUERY_CHARS {
        Some(coded_view("query_too_long"@, "query exceeds 1024 character limit"@))
    } else if given_text(params.after) is Some && search_cursor(params) is None {
        Some(coded_view("invalid_cursor"@, "cursor is invalid or expired"@))
    } else if types is Some && unknown_type(csv(types->0)) is Some {
        Some(
            coded_view("invalid_type"@, "invalid type: "@ + unknown_type(csv(types->0))->0),
        )
    } else if layers is Some && unknown_layer(csv(layers->0)) is Some {
        Some(
            coded_view(
                "invalid_modeling_layer"@,
                "unknown modeling_layer value: "@ + unknown_layer(csv(layers->0))->0
                    + "; allowed: Staging, Intermediate, Marts"@,
            ),
        )
    } else {
        match search_fault(params, search_types(params)) {
            Some(msg) => Some(error_view(400, msg)),
            None => None,
        }
    }
}

/// A search that can be run.
#[derive(Debug)]
pub struct SearchPlan {
    /// The page size.
    pub first: u32,
    /// The words to mark; none in browse mode.
    pub tokens: Vec<String>,
    /// The queries, with all joins first.
    pub probe: ListProbe,
}

/// Whether a query is the one for a search with the given joins.
pub open spec fn is_variant(
    query: ListQuery,
    params: SearchQueryParams,
    with_freshness: bool,
    with_run_results: bool,
) -> bool {
    let first = clamped(params.first, SEARCH_DEFAULT_PAGE_SIZE, SEARCH_MAX_PAGE_SIZE);
    let types = search_types(params);
    &&& query.rows_sql@ == page_sql(
        params,
        types,
        with_freshness,
        with_run_results,
        first,
        search_cursor(params),
    )
    &&& query.count_sql@ == count_sql(params, types, with_freshness, with_run_results)
}

/// The total of a search is the same on every page: neither the count nor the resource
/// types that it goes over depend on the cursor.
pub proof fn lemma_total_is_the_same_on_every_page(
    params: SearchQueryParams,
    after: Option<String>,
    with_freshness: bool,
    with_run_results: bool,
)
    ensures
        count_sql(
            (SearchQueryParams { after, ..params }),
            search_types((SearchQueryParams { after, ..params })),
            with_freshness,
            with_run_results,
        ) == count_sql(params, search_types(params), with_freshness, with_run_results),
{
}

/// Where models come first, keeping only models keeps the first or nothing.
proof fn lemma_only_models(all: Seq<ResourceType>, set: Set<ResourceType>)
    requires
        forall|i: int| 0 <= i < all.len() ==> (all[i] == ResourceType::Model <==> i == 0),
    ensures
        types_in(all, set.intersect(set![ResourceType::Model])) == (if all.len() > 0
            && set.contains(ResourceType::Model) {
            seq![ResourceType::Model]
        } else {
            Seq::empty()
        }),
        types_in(all, set).contains(ResourceType::Model) <==> all.len() > 0 && set.contains(
            ResourceType::Model,
        ),
    decreases all.len(),
{
    if all.len() > 0 {
        let rest = all.drop_last();
        lemma_only_models(rest, set);
        let before = types_in(rest, set);
        let t = all.last();
        assert(before.push(t).contains(ResourceType::Model) <==> before.contains(
            ResourceType::Model,
        ) || t == ResourceType::Model) by {
            if before.contains(ResourceType::Model) {
                let j = choose|j: int| 0 <= j < before.len() && before[j] == ResourceType::Model;
                assert(before.push(t)[j] == ResourceType::Model);
            }
            assert(before.push(t)[before.len() as int] == t);
        }
        if all.len() == 1 {
            assert(rest == Seq::<ResourceType>::empty());
            assert(Seq::<ResourceType>::empty().push(ResourceType::Model) == seq![
                ResourceType::Model,
            ]);
        }
    }
}

/// Every type is in order in the set of all types.
proof fn lemma_full_set(all: Seq<ResourceType>)
    ensures
        types_in(all, Set::full()) == all,
    decreases all.len(),
{
    if all.len() > 0 {
        lemma_full_set(all.drop_last());
        assert(all.drop_last().push(all.last()) == all);
    }
}

/// The resource types of a search, where its type filter names known types.
fn plan_types(params: &SearchQueryParams, asked: Vec<ResourceType>) -> (r: Vec<ResourceType>)
    requires
        asked@ == ordered(asked_types(*params)),
    ensures
        r@ == search_types(*params),
{
    let narrowed = given(&params.modeling_layer).is_some() || given(
        &params.materialization,
    ).is_some();
    if !narrowed {
        return asked;
    }
    proof {
        lemma_only_models(all_types(), asked_types(*params));
    }
    let mut models: Vec<ResourceType> = Vec::new();
    if contains_type(&asked, ResourceType::Model) {
        models.push(ResourceType::Model);
        assert(models@ =~= seq![ResourceType::Model]);
    }
    models
}

/// One query of a search that is not refused.
fn plan_query(
    params: &SearchQueryParams,
    types: &Vec<ResourceType>,
    with_freshness: bool,
    with_run_results: bool,
    first: u32,
    cursor: Option<&Cursor>,
) -> (r: ListQuery)
    requires
        types@ == search_types(*params),
        search_fault(*params, types@) is None,
        first == clamped(params.first, SEARCH_DEFAULT_PAGE_SIZE, SEARCH_MAX_PAGE_SIZE),
        first < u32::MAX,
        cursor_ref(cursor) == search_cursor(*params),
    ensures
        is_variant(r, *params, with_freshness, with_run_results),
{
    match build_search_sql(params, types, with_freshness, with_run_results, first, cursor) {
        Ok(sql) => ListQuery { count_sql: sql.count_sql, rows_sql: sql.page_sql },
        Err(_) => ListQuery { count_sql: String::new(), rows_sql: String::new() },
    }
}

/// The words to mark.
fn plan_tokens(q: &Option<String>) -> (r: Vec<String>)
    ensures
        texts(r@) == (if is_search(opt_text(*q)) {
            search_words(opt_text(*q))
        } else {
            Seq::empty()
        }),
{
    match q {
        Some(q) => if trim(q.as_str()).as_str().is_empty() {
            let r: Vec<String> = Vec::new();
            assert(texts(r@) =~= Seq::<Seq<char>>::empty());
            r
        } else {
            split_words(q.as_str())
        },
        None => {
            let r: Vec<String> = Vec::new();
            assert(texts(r@) =~= Seq::<Seq<char>>::empty());
            r
        },
    }
}

/// Check a request for a search and plan it: the page size, the words to mark, and
/// the queries with all joins, without freshness, and without run results either.
pub fn plan_search(params: &SearchQueryParams) -> (r: Result<SearchPlan, ErrorReply>)
    ensures
        match r {
            Ok(plan) => {
                &&& search_refusal(*params) is None
                &&& plan.first == clamped(
                    params.first,
                    SEARCH_DEFAULT_PAGE_SIZE,
                    SEARCH_MAX_PAGE_SIZE,
                )
                &&& 1 <= plan.first <= SEARCH_MAX_PAGE_SIZE
                &&& texts(plan.tokens@) == (if is_search(opt_text(params.q)) {
                    search_words(opt_text(params.q))
                } else {
                    Seq::empty()
                })
                &&& plan.probe.wf()
                &&& plan.probe.at == 0
                &&& plan.probe.noun@ == "search"@
                &&& plan.probe.absent@ == NO_COUNT@
                &&& plan.probe.queries.len() == 3
                &&& is_variant(plan.probe.queries@[0], *params, true, true)
                &&& is_variant(plan.probe.queries@[1], *params, false, true)
                &&& is_variant(plan.probe.queries@[2], *params, false, false)
            },
            Err(e) => search_refusal(*params) == Some(e@),
        },
{
    if let Some(q) = &params.q {
        if to_chars(q.as_str()).len() > MAX_QUERY_CHARS {
            return Err(
                bad_request_coded("query_too_long", "query exceeds 1024 character limit"),
            );
        }
    }
    let first: u32 = clamp_size(params.first, SEARCH_DEFAULT_PAGE_SIZE, SEARCH_MAX_PAGE_SIZE);
    let cursor = match given(&params.after) {
        Some(s) => match Cursor::decode(s) {
            Ok(c) => Some(c),
            Err(_) => {
                return Err(
                    bad_request_coded("invalid_cursor", "cursor is invalid or expired"),
                );
            },
        },
        None => None,
    };
    let asked = match given(&params.type_filter) {
        Some(raw) => match parse_csv_resource_types(raw) {
            Ok(types) => types,
            Err(msg) => {
                return Err(bad_request_coded("invalid_type", msg.as_str()));
            },
        },
        None => {
            proof {
                lemma_full_set(all_types());
            }
            ResourceType::all()
        },
    };
    if let Some(raw) = given(&params.modeling_layer) {
        if let Some(layer) = find_unknown_layer(raw) {
            let mut msg = "unknown modeling_layer value: ".to_owned();
            msg.append(layer.as_str());
            msg.append("; allowed: Staging, Intermediate, Marts");
            return Err(bad_request_coded("invalid_modeling_layer", msg.as_str()));
        }
    }
    let types = plan_types(params, asked);
    let full = match build_search_sql(params, &types, true, true, first, cursor.as_ref()) {
        Ok(sql) => ListQuery { count_sql: sql.count_sql, rows_sql: sql.page_sql },
        Err(msg) => {
            return Err(bad_request(msg.as_str()));
        },
    };
    let no_fresh = plan_query(params, &types, false, true, first, cursor.as_ref());
    let bare = plan_query(params, &types, false, false, first, cursor.as_ref());
    let mut queries: Vec<ListQuery> = Vec::new();
    queries.push(full);
    queries.push(no_fresh);
    queries.push(bare);
    let probe = ListProbe::start(queries, "search");
    Ok(SearchPlan { first, tokens: plan_tokens(&params.q), probe })
}

// ---------------------------------------------------------------------------
// Row extraction
// ---------------------------------------------------------------------------

/// The string columns that every row of a search has.
pub open spec fn search_columns() -> Seq<Seq<char>> {
    seq![
        "unique_id"@,
        "name"@,
        "resource_type"@,
        "package_name"@,
        "description"@,
        "materialized"@,
        "access_level"@,
        "source_name"@,
        "test_type"@,
        "exposure_type"@,
        "executed_at"@,
        "matched_field"@,
    ]
}

/// What a field holds that only some resource types have: nothing for the others.
pub open spec fn field_of<T>(has_it: bool, value: Option<T>) -> Option<T> {
    if has_it {
        value
    } else {
        None
    }
}

/// Whether resources of a type are nodes, which can be run.
pub open spec fn is_node_type(kind: Seq<char>) -> bool {
    kind == "model"@ || kind == "source"@ || kind == "seed"@ || kind == "snapshot"@ || kind
        == "test"@
}

/// Whether an edge is that of a row, not yet marked, with the key of its cursor. A field
/// that only some resource types have is absent for the others.
pub open spec fn is_search_row(
    edge: SearchEdge,
    key: Option<String>,
    batch: Batch,
    row: int,
) -> bool {
    let kind = batch.text("resource_type"@, row)@;
    &&& edge.matched_field == batch.opt_text("matched_field"@, row)
    &&& edge.highlight is None
    &&& edge.hit.unique_id == batch.text("unique_id"@, row)
    &&& edge.hit.resource_type == batch.text("resource_type"@, row)
    &&& edge.hit.name == batch.opt_text("name"@, row)
    &&& opt_items(edge.hit.fqn) == batch.opt_list("fqn"@, row)
    &&& edge.hit.description == batch.opt_text("description"@, row)
    &&& opt_items(edge.hit.tags) == batch.opt_list("tags"@, row)
    &&& edge.hit.package_name == batch.opt_text("package_name"@, row)
    &&& edge.hit.materialized == field_of(
        kind == "model"@,
        batch.opt_text("materialized"@, row),
    )
    &&& edge.hit.access_level == field_of(
        kind == "model"@,
        batch.opt_text("access_level"@, row),
    )
    &&& edge.hit.source_name == field_of(kind == "source"@, batch.opt_text("source_name"@, row))
    &&& edge.hit.freshness_checked == field_of(
        kind == "source"@,
        batch.opt_bool("freshness_checked"@, row),
    )
    &&& edge.hit.test_type == field_of(
        kind == "test"@ || kind == "unit_test"@,
        batch.opt_text("test_type"@, row),
    )
    &&& edge.hit.exposure_type == field_of(
        kind == "exposure"@,
        batch.opt_text("exposure_type"@, row),
    )
    &&& edge.hit.executed_at == field_of(
        is_node_type(kind),
        batch.opt_text("executed_at"@, row),
    )
    &&& key == batch.opt_text("cursor_key"@, row)
}

/// A text that only some resource types have.
fn text_if(has_it: bool, batch: &Batch, name: &str, i: usize) -> (r: Option<String>)
    requires
        batch.wf(),
        i < batch.num_rows,
    ensures
        r == field_of(has_it, batch.opt_text(name@, i as int)),
{
    if has_it {
        batch.get_opt_text(name, i)
    } else {
        None
    }
}

fn search_row(batch: &Batch, i: usize) -> (r: (SearchEdge, Option<String>))
    requires
        batch.wf(),
        i < batch.num_rows,
        forall|c: int|
            0 <= c < search_columns().len() ==> batch.has_text(#[trigger] search_columns()[c]),
    ensures
        is_search_row(r.0, r.1, *batch, i as int),
{
    proof {
        assert(search_columns()[0] == "unique_id"@);
        assert(search_columns()[2] == "resource_type"@);
    }
    let resource_type = batch.get_text("resource_type", i);
    let kind = resource_type.as_str();
    let is_model = same(kind, "model");
    let is_source = same(kind, "source");
    let is_test = same(kind, "test");
    let is_node = is_model || is_source || is_test || same(kind, "seed") || same(kind, "snapshot");
    let has_test_type = is_test || same(kind, "unit_test");
    let is_exposure = same(kind, "exposure");
    let hit = SearchHit {
        unique_id: batch.get_text("unique_id", i),
        resource_type,
        name: batch.get_opt_text("name", i),
        fqn: batch.get_opt_list("fqn", i),
        description: batch.get_opt_text("description", i),
        tags: batch.get_opt_list("tags", i),
        package_name: batch.get_opt_text("package_name", i),
        materialized: text_if(is_model, batch, "materialized", i),
        access_level: text_if(is_model, batch, "access_level", i),
        source_name: text_if(is_source, batch, "source_name", i),
        freshness_checked: if is_source {
            batch.get_opt_bool("freshness_checked", i)
        } else {
            None
        },
        test_type: text_if(has_test_type, batch, "test_type", i),
        exposure_type: text_if(is_exposure, batch, "exposure_type", i),
        executed_at: text_if(is_node, batch, "executed_at", i),
    };
    let edge = SearchEdge {
        matched_field: batch.get_opt_text("matched_field", i),
        highlight: None,
        hit,
    };
    (edge, batch.get_opt_text("cursor_key", i))
}

/// Convert batches into edges, without highlights, each with the key of its cursor.
///
/// The key is only there in search mode.
pub fn batches_to_search_rows(batches: &Vec<Batch>) -> (r: Vec<(SearchEdge, Option<String>)>)
    requires
        all_wf(batches@),
        all_have_texts(batches@, search_columns()),
    ensures
        r.len() == places(batches@).len(),
        forall|k: int|
            0 <= k < r.len() ==> {
                let p = places(batches@)[k];
                is_search_row((#[trigger] r@[k]).0, r@[k].1, batches@[p.0], p.1)
            },
{
    let at = all_places(batches);
    let mut r: Vec<(SearchEdge, Option<String>)> = Vec::new();
    let mut k: usize = 0;
    while k < at.len()
        invariant
            k <= at.len(),
            all_wf(batches@),
            all_have_texts(batches@, search_columns()),
            places_view(at@) == places(batches@),
            forall|k: int|
                0 <= k < at.len() ==> (#[trigger] at@[k]).0 < batches.len() && at@[k].1
                    < batches@[at@[k].0 as int].num_rows,
            r.len() == k,
            forall|j: int|
                0 <= j < k ==> {
                    let p = places(batches@)[j];
                    is_search_row((#[trigger] r@[j]).0, r@[j].1, batches@[p.0], p.1)
                },
        decreases at.len() - k,
    {
        let (b, i) = at[k];
        assert(places(batches@)[k as int] == (b as int, i as int));
        assert forall|c: int| 0 <= c < search_columns().len() implies batches@[b as int].has_text(
            #[trigger] search_columns()[c],
        ) by {
            assert(all_have_text(batches@, search_columns()[c]));
        }
        r.push(search_row(&batches[b], i));
        k += 1;
    }
    r
}

// ---------------------------------------------------------------------------
// Highlights
// ---------------------------------------------------------------------------

/// What the highlight of an edge takes.
#[derive(Debug)]
pub enum HighlightStep {
    /// This highlight, or none.
    Done(Option<String>),
    /// The names of the matching columns, which this query gives.
    Columns(String),
}

/// What a `HighlightStep` holds.
#[verifier::ext_equal]
pub ghost enum HighlightView {
    Done(Option<Seq<char>>),
    Columns(Seq<char>),
}

impl View for HighlightStep {
    type V = HighlightView;

    open spec fn view(&self) -> HighlightView {
        match *self {
            HighlightStep::Done(out) => HighlightView::Done(opt_text(out)),
            HighlightStep::Columns(sql) => HighlightView::Columns(sql@),
        }
    }
}

/// The condition that a column matches a token.
pub open spec fn column_condition(token: Seq<char>) -> Seq<char> {
    "column_name ILIKE '%' || '"@ + escaped(pattern(token)) + "' || '%' ESCAPE '\\'"@
}

/// The query for the columns of a resource that match every token.
pub open spec fn columns_sql(unique_id: Seq<char>, tokens: Seq<Seq<char>>) -> Seq<char> {
    "SELECT DISTINCT column_name FROM dbt.node_columns WHERE unique_id = '"@ + escaped(unique_id)
        + "' AND ("@ + joined(
        Seq::new(tokens.len(), |i: int| column_condition(tokens[i])),
        " AND "@,
    ) + ") ORDER BY column_name"@
}

/// What the highlight of an edge takes, by the field that matched: none for a name,
/// and a query for columns.
pub open spec fn highlight_step(edge: SearchEdge, tokens: Seq<Seq<char>>) -> HighlightView {
    let field = opt_text(edge.matched_field);
    if field == Some("description"@) {
        match opt_text(edge.hit.description) {
            Some(desc) => HighlightView::Done(Some(description_highlight(desc, tokens))),
            None => HighlightView::Done(None),
        }
    } else if field == Some("tag"@) {
        match edge.hit.tags {
            Some(tags) => HighlightView::Done(tag_highlight(texts(tags@), tokens)),
            None => HighlightView::Done(None),
        }
    } else if field == Some("fqn"@) {
        match edge.hit.fqn {
            Some(fqn) => HighlightView::Done(
                Some(highlighted(joined(texts(fqn@), "."@), tokens)),
            ),
            None => HighlightView::Done(None),
        }
    } else if field == Some("column"@) && tokens.len() > 0 {
        HighlightView::Columns(columns_sql(edge.hit.unique_id@, tokens))
    } else {
        HighlightView::Done(None)
    }
}

/// The query for the columns of a resource that match every token.
pub fn build_column_highlight_sql(unique_id: &str, tokens: &[&str]) -> (r: String)
    ensures
        r@ == columns_sql(unique_id@, str_texts(tokens@)),
{
    let ghost all = str_texts(tokens@);
    let mut parts: Vec<String> = Vec::new();
    let mut i: usize = 0;
    while i < tokens.len()
        invariant
            i <= tokens.len(),
            all == str_texts(tokens@),
            parts.len() == i,
            forall|j: int| 0 <= j < i ==> (#[trigger] parts@[j])@ == column_condition(all[j]),
        decreases tokens.len() - i,
    {
        let mut part = "column_name ILIKE '%' || '".to_owned();
        part.append(escape_ilike(tokens[i]).as_str());
        part.append("' || '%' ESCAPE '\\'");
        parts.push(part);
        i += 1;
    }
    assert(texts(parts@) =~= Seq::new(all.len(), |i: int| column_condition(all[i])));
    let mut r =
        "SELECT DISTINCT column_name FROM dbt.node_columns WHERE unique_id = '".to_owned();
    r.append(escape_str(unique_id).as_str());
    r.append("' AND (");
    r.append(join(&parts, " AND ").as_str());
    r.append(") ORDER BY column_name");
    r
}

/// Build the highlight of matching columns from what their query gave: their names,
/// marked and separated by commas.
pub fn build_column_highlight(batches: &Vec<Batch>, tokens: &[&str]) -> (r: Option<String>)
    requires
        all_wf(batches@),
        all_have_text(batches@, "column_name"@),
    ensures
        opt_text(r) == columns_highlight(
            texts(column_texts(batches@, "column_name"@)),
            str_texts(tokens@),
        ),
{
    let names = read_column_texts(batches, "column_name");
    highlight_columns(&names, tokens)
}

/// What the highlight of an edge takes, based on its `matched_field`.
pub fn generate_highlight(edge: &SearchEdge, tokens: &[&str]) -> (r: HighlightStep)
    ensures
        r@ == highlight_step(*edge, str_texts(tokens@)),
{
    if opt_same(&edge.matched_field, "description") {
        match &edge.hit.description {
            Some(desc) => HighlightStep::Done(
                Some(build_description_highlight(desc.as_str(), tokens)),
            ),
            None => HighlightStep::Done(None),
        }
    } else if opt_same(&edge.matched_field, "tag") {
        match &edge.hit.tags {
            Some(tags) => HighlightStep::Done(build_tag_highlight(tags, tokens)),
            None => HighlightStep::Done(None),
        }
    } else if opt_same(&edge.matched_field, "fqn") {
        match &edge.hit.fqn {
            Some(fqn) => HighlightStep::Done(
                Some(build_highlight(join(fqn, ".").as_str(), tokens)),
            ),
            None => HighlightStep::Done(None),
        }
    } else if opt_same(&edge.matched_field, "column") && tokens.len() > 0 {
        HighlightStep::Columns(build_column_highlight_sql(edge.hit.unique_id.as_str(), tokens))
    } else {
        HighlightStep::Done(None)
    }
}

/// Rows of a search that are being highlighted, in order: those before `at` are done.
#[derive(Debug)]
pub struct HighlightRun {
    pub rows: Vec<(SearchEdge, Option<String>)>,
    pub at: usize,
}

/// What to do next to highlight the rows of a search.
#[derive(Debug)]
pub enum RunStep {
    /// Ask for the matching columns of the row that the run is at.
    Ask { run: HighlightRun, sql: String },
    /// Every row is done.
    Done(Vec<(SearchEdge, Option<String>)>),
}

/// Whether a row is another with a highlight.
pub open spec fn is_marked(
    after: (SearchEdge, Option<String>),
    before: (SearchEdge, Option<String>),
    out: Option<Seq<char>>,
) -> bool {
    &&& after.0.matched_field == before.0.matched_field
    &&& after.0.hit == before.0.hit
    &&& after.1 == before.1
    &&& opt_text(after.0.highlight) == out
}

/// Whether rows are others of which a range got the highlights that take no query.
pub open spec fn are_marked(
    after: Seq<(SearchEdge, Option<String>)>,
    before: Seq<(SearchEdge, Option<String>)>,
    from: int,
    to: int,
    tokens: Seq<Seq<char>>,
) -> bool {
    &&& after.len() == before.len()
    &&& forall|i: int|
        0 <= i < before.len() && !(from <= i < to) ==> #[trigger] after[i] == before[i]
    &&& forall|i: int|
        from <= i < to ==> (highlight_step((#[trigger] before[i]).0, tokens) matches
            HighlightView::Done(out) && is_marked(after[i], before[i], out))
}

/// What follows for a run: rows are highlighted one by one, up to the first that takes a
/// query.
pub open spec fn follows(run: HighlightRun, tokens: Seq<Seq<char>>, step: RunStep) -> bool {
    let n = run.rows.len() as int;
    match step {
        RunStep::Done(rows) => are_marked(rows@, run.rows@, run.at as int, n, tokens),
        RunStep::Ask { run: next, sql } => {
            &&& run.at <= next.at < n
            &&& are_marked(next.rows@, run.rows@, run.at as int, next.at as int, tokens)
            &&& highlight_step(run.rows@[next.at as int].0, tokens) == HighlightView::Columns(sql@)
        },
    }
}

/// The highlight that the answer to a query for columns gives: none where it failed.
pub open spec fn answered(names: Option<Vec<Batch>>, tokens: Seq<Seq<char>>) -> Option<Seq<char>> {
    match names {
        Some(batches) => columns_highlight(
            texts(column_texts(batches@, "column_name"@)),
            tokens,
        ),
        None => None,
    }
}

/// Highlight the rows of a search. Without tokens there is nothing to mark.
pub fn start_highlights(rows: Vec<(SearchEdge, Option<String>)>, tokens: &[&str]) -> (r: RunStep)
    ensures
        if tokens.len() == 0 {
            r matches RunStep::Done(out) && out == rows
        } else {
            follows(HighlightRun { rows, at: 0 }, str_texts(tokens@), r)
        },
{
    if tokens.len() == 0 {
        RunStep::Done(rows)
    } else {
        HighlightRun { rows, at: 0 }.advance(tokens)
    }
}

impl HighlightRun {
    /// Highlight rows up to the first that takes a query.
    pub fn advance(self, tokens: &[&str]) -> (r: RunStep)
        requires
            self.at <= self.rows.len(),
        ensures
            follows(self, str_texts(tokens@), r),
    {
        let ghost all = str_texts(tokens@);
        let ghost before = self.rows@;
        let ghost from = self.at as int;
        let mut rows = self.rows;
        let mut i: usize = self.at;
        while i < rows.len()
            invariant
                from <= i <= rows.len(),
                all == str_texts(tokens@),
                before == self.rows@,
                from == self.at,
                are_marked(rows@, before, from, i as int, all),
            decreases rows.len() - i,
        {
            assert(rows@[i as int] == before[i as int]);
            let step = generate_highlight(&rows[i].0, tokens);
            match step {
                HighlightStep::Done(out) => {
                    let ghost had = rows@;
                    rows[i].0.highlight = out;
                    assert(rows@ == had.update(i as int, rows@[i as int]));
                },
                HighlightStep::Columns(sql) => {
                    return RunStep::Ask { run: HighlightRun { rows, at: i }, sql };
                },
            }
            i += 1;
        }
        RunStep::Done(rows)
    }

    /// Highlight the row that the run is at from the answer to its query, which is `None`
    /// where the query failed, and go on.
    pub fn answer(self, names: &Option<Vec<Batch>>, tokens: &[&str]) -> (r: RunStep)
        requires
            self.at < self.rows.len(),
            names matches Some(batches) ==> all_wf(batches@) && all_have_text(
                batches@,
                "column_name"@,
            ),
        ensures
            exists|next: HighlightRun|
                {
                    &&& next.at == self.at + 1
                    &&& next.rows.len() == self.rows.len()
                    &&& forall|i: int|
                        0 <= i < next.rows.len() && i != self.at ==> #[trigger] next.rows@[i]
                            == self.rows@[i]
                    &&& is_marked(
                        next.rows@[self.at as int],
                        self.rows@[self.at as int],
                        answered(*names, str_texts(tokens@)),
                    )
                    &&& #[trigger] follows(next, str_texts(tokens@), r)
                },
    {
        let out = match names {
            Some(batches) => build_column_highlight(batches, tokens),
            None => None,
        };
        let at: usize = self.at;
        let mut rows = self.rows;
        rows[at].0.highlight = out;
        let next = HighlightRun { rows, at: at + 1 };
        let ghost run = next;
        let r = next.advance(tokens);
        assert(follows(run, str_texts(tokens@), r));
        r
    }
}

// ---------------------------------------------------------------------------
// Pages
// ---------------------------------------------------------------------------

/// The cursor of a row: by its ranking key in search mode, and by its name in browse
/// mode.
pub open spec fn search_key(row: (SearchEdge, Option<String>)) -> CursorView {
    CursorView {
        sort_value: match row.1 {
            Some(key) => Some(key@),
            None => opt_text(row.0.hit.name),
        },
        unique_id: row.0.hit.unique_id@,
    }
}

/// The cursors of some rows.
pub open spec fn search_keys(rows: Seq<(SearchEdge, Option<String>)>) -> Seq<CursorView> {
    Seq::new(rows.len(), |i: int| search_key(rows[i]))
}

/// The edges of some rows.
pub open spec fn search_edges(rows: Seq<(SearchEdge, Option<String>)>) -> Seq<SearchEdge> {
    Seq::new(rows.len(), |i: int| rows[i].0)
}

fn cursor_of_row(row: &(SearchEdge, Option<String>)) -> (r: Cursor)
    ensures
        r@ == search_key(*row),
{
    let sort_value = match &row.1 {
        Some(key) => Some(key.clone()),
        None => clone_opt(&row.0.hit.name),
    };
    Cursor { sort_value, unique_id: row.0.hit.unique_id.clone() }
}

/// The page of a search, from the rows that its query gave.
pub fn finish_search(
    first: u32,
    total_count: u64,
    rows: Vec<(SearchEdge, Option<String>)>,
) -> (r: SearchResponse)
    ensures
        r.data@ == search_edges(page_of(rows@, rows.len(), first)),
        r.page_info@ == page_info_of(
            total_count,
            search_keys(page_of(rows@, rows.len(), first)),
            overfull(rows.len(), first),
        ),
        leads_on(r.page_info@, search_keys(page_of(rows@, rows.len(), first))),
{
    let mut rows = rows;
    let has_next_page = cut_page(&mut rows, first);
    let ghost page = rows@;
    let (first_row, last_row) = if rows.len() > 0 {
        (Some(cursor_of_row(&rows[0])), Some(cursor_of_row(&rows[rows.len() - 1])))
    } else {
        (None, None)
    };
    let info = page_info(total_count, first_row, last_row, has_next_page);
    proof {
        let keys = search_keys(page);
        assert(info@ == page_info_of(total_count, keys, has_next_page));
    }
    let mut data: Vec<SearchEdge> = Vec::new();
    for row in it: rows
        invariant
            it.seq() == page,
            data@ == search_edges(page.take(it.index())),
    {
        data.push(row.0);
        assert(search_edges(page.take(it.index() + 1)) =~= search_edges(
            page.take(it.index()),
        ).push(row.0));
    }
    assert(page.take(page.len() as int) == page);
    SearchResponse { data, page_info: info }
}

// ---------------------------------------------------------------------------
// Facets
// ---------------------------------------------------------------------------

/// A single facet value with a project-wide count of matching resources.
#[derive(Debug)]
pub struct SearchFacetValue {
    pub value: String,
    pub count: u64,
}

impl SearchFacetValue {
    /// A facet value with its count.
    pub fn new(value: String, count: u64) -> (r: SearchFacetValue)
        ensures
            r.value == value,
            r.count == count,
    {
        SearchFacetValue { value, count }
    }
}

/// The filter dimensions of a search.
#[derive(Debug)]
pub struct SearchFacetsResponse {
    /// Distinct model access levels with resource counts.
    pub accesses: Vec<SearchFacetValue>,
    /// Distinct modeling layers (Staging/Intermediate/Marts) with model counts.
    pub modeling_layers: Vec<SearchFacetValue>,
    /// Distinct model materialization strategies with model counts.
    pub materialization_types: Vec<SearchFacetValue>,
    /// Distinct tag values across all taggable resource types with resource counts.
    pub tags: Vec<SearchFacetValue>,
    /// Distinct package names across all resource types with resource counts.
    pub packages: Vec<SearchFacetValue>,
}

pub const SEARCH_FACETS_ACCESSES_SQL: &'static str = "\
/* facets:access */ \
SELECT access_level AS value, COUNT(*) AS cnt \
FROM dbt.nodes \
WHERE resource_type = 'model' AND access_level IS NOT NULL \
GROUP BY access_level \
ORDER BY value";

pub const SEARCH_FACETS_MATERIALIZATIONS_SQL: &'static str = "\
/* facets:mat */ \
SELECT materialized AS value, COUNT(*) AS cnt \
FROM dbt.nodes \
WHERE resource_type = 'model' AND materialized IS NOT NULL \
GROUP BY materialized \
ORDER BY value";

/// The query for tags, over every resource type that has them. Semantic models have them
/// in their configuration.
pub const SEARCH_FACETS_TAGS_SQL: &'static str = "\
/* facets:tags */ \
SELECT t.value, COUNT(*) AS cnt FROM (\
  SELECT unnest(tags) AS value FROM dbt.nodes WHERE tags IS NOT NULL \
  UNION ALL \
  SELECT unnest(tags) AS value FROM dbt.exposures WHERE tags IS NOT NULL \
  UNION ALL \
  SELECT unnest(tags) AS value FROM dbt.metrics WHERE tags IS NOT NULL \
  UNION ALL \
  SELECT unnest(tags) AS value FROM dbt.saved_queries WHERE tags IS NOT NULL \
  UNION ALL \
  SELECT unnest((json_extract(config, '$.tags'))::VARCHAR[]) AS value \
  FROM dbt.semantic_models WHERE json_extract(config, '$.tags') IS NOT NULL\
) t \
GROUP BY t.value \
ORDER BY t.value";

/// The query for packages, over every resource type.
pub const SEARCH_FACETS_PACKAGES_SQL: &'static str = "\
/* facets:pkg */ \
SELECT pkg AS value, COUNT(*) AS cnt FROM (\
  SELECT package_name AS pkg FROM dbt.nodes WHERE package_name IS NOT NULL \
  UNION ALL \
  SELECT package_name AS pkg FROM dbt.macros WHERE package_name IS NOT NULL \
  UNION ALL \
  SELECT package_name AS pkg FROM dbt.exposures WHERE package_name IS NOT NULL \
  UNION ALL \
  SELECT package_name AS pkg FROM dbt.metrics WHERE package_name IS NOT NULL \
  UNION ALL \
  SELECT package_name AS pkg FROM dbt.saved_queries WHERE package_name IS NOT NULL \
  UNION ALL \
  SELECT package_name AS pkg FROM dbt.semantic_models WHERE package_name IS NOT NULL \
  UNION ALL \
  SELECT package_name AS pkg FROM dbt.groups WHERE package_name IS NOT NULL \
  UNION ALL \
  SELECT package_name AS pkg FROM dbt.unit_tests WHERE package_name IS NOT NULL\
) t \
GROUP BY pkg \
ORDER BY pkg";

/// One branch of the query for modeling layers. The conditions of a layer name the
/// table `b`; the query has one table without a name.
pub open spec fn layer_branch(condition: Seq<char>, name: Seq<char>) -> Seq<char> {
    "WHEN "@ + replaced(condition, "b."@, ""@) + " THEN '"@ + name + "'"@
}

/// The query for modeling layers, from the conditions that the filter uses.
pub open spec fn layers_facet() -> Seq<char> {
    "/* facets:layers */ SELECT CASE "@ + layer_branch(STAGING_CONDITION@, "Staging"@) + " "@
        + layer_branch(INTERMEDIATE_CONDITION@, "Intermediate"@) + " "@ + layer_branch(
        MARTS_CONDITION@,
        "Marts"@,
    ) + " ELSE NULL END"@
        + " AS value, COUNT(*) AS cnt FROM dbt.nodes WHERE resource_type = 'model' GROUP BY value HAVING value IS NOT NULL ORDER BY value"@
}

fn layer_branch_sql(condition: &str, name: &str) -> (r: String)
    ensures
        r@ == layer_branch(condition@, name@),
{
    proof {
        reveal_strlit("b.");
    }
    let mut r = "WHEN ".to_owned();
    r.append(replace(condition, "b.", "").as_str());
    r.append(" THEN '");
    r.append(name);
    r.append("'");
    r
}

/// Builds the modeling-layers facets SQL from the conditions of the filter, so that
/// the two stay in sync.
pub fn search_facets_modeling_layers_sql() -> (r: String)
    ensures
        r@ == layers_facet(),
{
    let mut r = "/* facets:layers */ SELECT CASE ".to_owned();
    r.append(layer_branch_sql(STAGING_CONDITION, "Staging").as_str());
    r.append(" ");
    r.append(layer_branch_sql(INTERMEDIATE_CONDITION, "Intermediate").as_str());
    r.append(" ");
    r.append(layer_branch_sql(MARTS_CONDITION, "Marts").as_str());
    r.append(" ELSE NULL END");
    r.append(
        " AS value, COUNT(*) AS cnt FROM dbt.nodes WHERE resource_type = 'model' GROUP BY value HAVING value IS NOT NULL ORDER BY value",
    );
    r
}

/// The count that a list of facet values gives a value: the last one, if any.
pub open spec fn last_count(results: Seq<SearchFacetValue>, value: Seq<char>) -> Option<u64>
    decreases results.len(),
{
    if results.len() == 0 {
        None
    } else if results.last().value@ == value {
        Some(results.last().count)
    } else {
        last_count(results.drop_last(), value)
    }
}

/// The count of the default with the index `i`: 0 where it is absent. A default that
/// stands twice gets its count once.
pub open spec fn default_count(
    results: Seq<SearchFacetValue>,
    defaults: Seq<Seq<char>>,
    i: int,
) -> u64 {
    if defaults.take(i).contains(defaults[i]) {
        0
    } else {
        match last_count(results, defaults[i]) {
            Some(n) => n,
            None => 0,
        }
    }
}

/// Whether some facet values are exactly those of the results that are no defaults,
/// each once with its count, in the order of characters.
pub open spec fn are_extras(
    extras: Seq<SearchFacetValue>,
    results: Seq<SearchFacetValue>,
    defaults: Seq<Seq<char>>,
) -> bool {
    &&& forall|i: int, j: int|
        #![trigger extras[i], extras[j]]
        0 <= i < j < extras.len() ==> precedes(extras[i].value@, extras[j].value@)
    &&& forall|i: int|
        0 <= i < extras.len() ==> !defaults.contains((#[trigger] extras[i]).value@) && last_count(
            results,
            extras[i].value@,
        ) == Some(extras[i].count)
    &&& forall|v: Seq<char>| #[trigger]
        last_count(results, v) is Some && !defaults.contains(v) ==> exists|i: int|
            0 <= i < extras.len() && (#[trigger] extras[i]).value@ == v
}

fn find_count(results: &Vec<SearchFacetValue>, value: &str) -> (r: Option<u64>)
    ensures
        r == last_count(results@, value@),
{
    let mut i: usize = results.len();
    assert(results@.take(results@.len() as int) == results@);
    while i > 0
        invariant
            i <= results.len(),
            last_count(results@, value@) == last_count(results@.take(i as int), value@),
        decreases i,
    {
        assert(results@.take(i as int).drop_last() == results@.take(i - 1));
        assert(results@.take(i as int).last() == results@[i - 1]);
        i -= 1;
        if same(results[i].value.as_str(), value) {
            return Some(results[i].count);
        }
    }
    None
}

fn among(items: &[&str], n: usize, value: &str) -> (r: bool)
    requires
        n <= items.len(),
    ensures
        r == str_texts(items@).take(n as int).contains(value@),
{
    let ghost all = str_texts(items@).take(n as int);
    let mut i: usize = 0;
    while i < n
        invariant
            i <= n <= items.len(),
            all == str_texts(items@).take(n as int),
            forall|j: int| 0 <= j < i ==> all[j] != value@,
        decreases n - i,
    {
        if same(items[i], value) {
            assert(all[i as int] == value@);
            return true;
        }
        i += 1;
    }
    false
}

/// Put one more result into the extras of those before it.
fn add_extra(
    extras: &mut Vec<SearchFacetValue>,
    Ghost(results): Ghost<Seq<SearchFacetValue>>,
    Ghost(defaults): Ghost<Seq<Seq<char>>>,
    next: &SearchFacetValue,
)
    requires
        are_extras(old(extras)@, results, defaults),
        !defaults.contains(next.value@),
    ensures
        are_extras(final(extras)@, results.push(*next), defaults),
{
    let ghost before = extras@;
    let ghost after = results.push(*next);
    proof {
        assert(after.drop_last() == results);
        assert forall|v: Seq<char>| #[trigger] last_count(after, v) == (if v == next.value@ {
            Some(next.count)
        } else {
            last_count(results, v)
        }) by {}
    }
    let mut at: usize = 0;
    while at < extras.len() && comes_first(extras[at].value.as_str(), next.value.as_str())
        invariant
            at <= extras.len(),
            extras@ == before,
            forall|j: int| 0 <= j < at ==> precedes((#[trigger] before[j]).value@, next.value@),
        decreases extras.len() - at,
    {
        at += 1;
    }
    if at < extras.len() && same(extras[at].value.as_str(), next.value.as_str()) {
        extras[at].count = next.count;
        let ghost new = extras@;
        proof {
            assert forall|i: int| 0 <= i < new.len() implies (#[trigger] new[i]).value@
                == before[i].value@ by {}
            assert forall|i: int, j: int|
                #![trigger new[i], new[j]]
                0 <= i < j < new.len() implies precedes(new[i].value@, new[j].value@) by {
                assert(precedes(before[i].value@, before[j].value@));
            }
            assert forall|i: int| 0 <= i < new.len() implies !defaults.contains(
                (#[trigger] new[i]).value@,
            ) && last_count(after, new[i].value@) == Some(new[i].count) by {
                assert(last_count(results, before[i].value@) == Some(before[i].count));
                if i != at {
                    if i < at {
                        lemma_precedes_total(before[i].value@, next.value@);
                    } else {
                        assert(precedes(before[at as int].value@, before[i].value@));
                        lemma_precedes_total(before[i].value@, next.value@);
                    }
                }
            }
            assert forall|v: Seq<char>| #[trigger]
                last_count(after, v) is Some && !defaults.contains(v) implies exists|i: int|
                0 <= i < new.len() && (#[trigger] new[i]).value@ == v by {
                if v == next.value@ {
                    assert(new[at as int].value@ == v);
                } else {
                    assert(last_count(results, v) is Some);
                    let i = choose|i: int|
                        0 <= i < before.len() && (#[trigger] before[i]).value@ == v;
                    assert(new[i].value@ == v);
                }
            }
        }
        return;
    }
    proof {
        assert forall|j: int| at <= j < before.len() implies precedes(
            next.value@,
            (#[trigger] before[j]).value@,
        ) by {
            lemma_precedes_total(before[at as int].value@, next.value@);
            if j > at {
                assert(precedes(before[at as int].value@, before[j].value@));
                lemma_precedes_transitive(
                    next.value@,
                    before[at as int].value@,
                    before[j].value@,
                );
            }
        }
    }
    extras.insert(at, SearchFacetValue::new(next.value.clone(), next.count));
    let ghost new = extras@;
    proof {
        assert forall|i: int, j: int|
            #![trigger new[i], new[j]]
            0 <= i < j < new.len() implies precedes(new[i].value@, new[j].value@) by {
            if i < at && j < at {
                assert(precedes(before[i].value@, before[j].value@));
            } else if i < at && j > at {
                assert(precedes(before[i].value@, before[j - 1].value@));
            } else if i > at {
                assert(precedes(before[i - 1].value@, before[j - 1].value@));
            } else if i == at {
                assert(precedes(next.value@, before[j - 1].value@));
            } else {
                assert(precedes(before[i].value@, next.value@));
            }
        }
        assert forall|i: int| 0 <= i < new.len() implies !defaults.contains(
            (#[trigger] new[i]).value@,
        ) && last_count(after, new[i].value@) == Some(new[i].count) by {
            if i != at {
                let k = if i < at {
                    i
                } else {
                    i - 1
                };
                assert(new[i] == before[k]);
                assert(last_count(results, before[k].value@) == Some(before[k].count));
                lemma_precedes_total(before[k].value@, next.value@);
            }
        }
        assert forall|v: Seq<char>| #[trigger]
            last_count(after, v) is Some && !defaults.contains(v) implies exists|i: int|
            0 <= i < new.len() && (#[trigger] new[i]).value@ == v by {
            if v == next.value@ {
                assert(new[at as int].value@ == v);
            } else {
                assert(last_count(results, v) is Some);
                let k = choose|k: int| 0 <= k < before.len() && (#[trigger] before[k]).value@ == v;
                let i = if k < at {
                    k
                } else {
                    k + 1
                };
                assert(new[i] == before[k]);
            }
        }
    }
}

/// Ensure every value in `defaults` appears in the output, with `count: 0` if absent
/// from `sql_results`. Defaults are emitted in `defaults` order; any extra values
/// are appended alphabetically, each once with its last count.
pub fn with_defaults(sql_results: Vec<SearchFacetValue>, defaults: &[&str]) -> (r: Vec<
    SearchFacetValue,
>)
    ensures
        r.len() >= defaults.len(),
        forall|i: int|
            0 <= i < defaults.len() ==> (#[trigger] r@[i]).value@ == defaults@[i]@ && r@[i].count
                == default_count(sql_results@, str_texts(defaults@), i),
        are_extras(r@.skip(defaults.len() as int), sql_results@, str_texts(defaults@)),
{
    let ghost names = str_texts(defaults@);
    let mut r: Vec<SearchFacetValue> = Vec::new();
    let mut i: usize = 0;
    while i < defaults.len()
        invariant
            i <= defaults.len(),
            names == str_texts(defaults@),
            r.len() == i,
            forall|j: int|
                0 <= j < i ==> (#[trigger] r@[j]).value@ == defaults@[j]@ && r@[j].count
                    == default_count(sql_results@, names, j),
        decreases defaults.len() - i,
    {
        assert(names[i as int] == defaults@[i as int]@);
        let count: u64 = if among(defaults, i, defaults[i]) {
            0
        } else {
            match find_count(&sql_results, defaults[i]) {
                Some(n) => n,
                None => 0,
            }
        };
        r.push(SearchFacetValue::new(defaults[i].to_owned(), count));
        i += 1;
    }
    let mut extras: Vec<SearchFacetValue> = Vec::new();
    let mut k: usize = 0;
    assert(sql_results@.take(0) == Seq::<SearchFacetValue>::empty());
    assert(are_extras(extras@, sql_results@.take(0), names));
    assert(names.take(names.len() as int) == names);
    while k < sql_results.len()
        invariant
            k <= sql_results.len(),
            names == str_texts(defaults@),
            names.take(names.len() as int) == names,
            are_extras(extras@, sql_results@.take(k as int), names),
        decreases sql_results.len() - k,
    {
        let ghost seen = sql_results@.take(k as int);
        let next = &sql_results[k];
        assert(sql_results@.take(k + 1) == seen.push(*next));
        if among(defaults, defaults.len(), next.value.as_str()) {
            proof {
                assert(seen.push(*next).drop_last() == seen);
                assert forall|v: Seq<char>| v != next.value@ implies #[trigger] last_count(
                    seen.push(*next),
                    v,
                ) == last_count(seen, v) by {}
            }
        } else {
            add_extra(&mut extras, Ghost(seen), Ghost(names), next);
        }
        k += 1;
    }
    assert(sql_results@.take(sql_results@.len() as int) == sql_results@);
    let ghost tail = extras@;
    let ghost head = r@;
    r.append(&mut extras);
    assert(r@.skip(defaults.len() as int) == tail);
    assert forall|i: int| 0 <= i < defaults.len() implies (#[trigger] r@[i]).value@
        == defaults@[i]@ && r@[i].count == default_count(sql_results@, names, i) by {
        assert(r@[i] == head[i]);
    }
    r
}

/// The count in a cell: 0 where it is null or there is no such column.
pub open spec fn count_cell(batch: Batch, row: int) -> u64 {
    match batch.opt_i64("cnt"@, row) {
        Some(n) => n as u64,
        None => 0,
    }
}

/// The facet values at some places: those that are not null, each with its count.
pub open spec fn facets_at(batches: Seq<Batch>, at: Seq<(int, int)>) -> Seq<(String, u64)>
    decreases at.len(),
{
    if at.len() == 0 {
        Seq::empty()
    } else {
        let before = facets_at(batches, at.drop_last());
        let p = at.last();
        match batches[p.0].opt_text("value"@, p.1) {
            Some(s) => before.push((s, count_cell(batches[p.0], p.1))),
            None => before,
        }
    }
}

/// Facet values as pairs.
pub open spec fn facet_pairs(v: Seq<SearchFacetValue>) -> Seq<(String, u64)> {
    Seq::new(v.len(), |i: int| (v[i].value, v[i].count))
}

/// Extract `(value, cnt)` pairs from a two-column result.
pub fn batches_to_search_facet_values(batches: &Vec<Batch>) -> (r: Vec<SearchFacetValue>)
    requires
        all_wf(batches@),
        all_have_text(batches@, "value"@),
    ensures
        facet_pairs(r@) == facets_at(batches@, places(batches@)),
{
    let at = all_places(batches);
    let ghost all = places(batches@);
    let mut r: Vec<SearchFacetValue> = Vec::new();
    let mut k: usize = 0;
    assert(all.take(0) == Seq::<(int, int)>::empty());
    assert(facet_pairs(r@) =~= Seq::<(String, u64)>::empty());
    while k < at.len()
        invariant
            k <= at.len(),
            all_wf(batches@),
            all == places_view(at@),
            forall|k: int|
                0 <= k < at.len() ==> (#[trigger] at@[k]).0 < batches.len() && at@[k].1
                    < batches@[at@[k].0 as int].num_rows,
            facet_pairs(r@) == facets_at(batches@, all.take(k as int)),
        decreases at.len() - k,
    {
        let (b, i) = at[k];
        assert(all.take(k + 1).drop_last() == all.take(k as int));
        assert(all[k as int] == (b as int, i as int));
        match batches[b].get_opt_text("value", i) {
            Some(value) => {
                let count: u64 = match batches[b].get_opt_i64("cnt", i) {
                    Some(n) => n as u64,
                    None => 0,
                };
                let ghost had = r@;
                r.push(SearchFacetValue::new(value, count));
                assert(facet_pairs(r@) =~= facet_pairs(had).push((value, count)));
            },
            None => {},
        }
        k += 1;
    }
    assert(all.take(all.len() as int) == all);
    r
}

/// Access level values in display order.
pub open spec fn facet_access_levels() -> Seq<Seq<char>> {
    seq!["private"@, "protected"@, "public"@]
}

/// Modeling layers in convention order.
pub open spec fn facet_layers() -> Seq<Seq<char>> {
    seq!["Staging"@, "Intermediate"@, "Marts"@]
}

/// Standard materialization strategies in display order. Custom strategies appear
/// after these.
pub open spec fn facet_materializations() -> Seq<Seq<char>> {
    seq!["table"@, "view"@, "incremental"@, "ephemeral"@, "materialized_view"@]
}

/// Whether facet values are the defaults, completed by what a query gave.
pub open spec fn completes(
    r: Seq<SearchFacetValue>,
    results: Seq<(String, u64)>,
    defaults: Seq<Seq<char>>,
) -> bool {
    exists|rows: Seq<SearchFacetValue>|
        facet_pairs(rows) == results && #[trigger] completed(r, rows, defaults)
}

/// Whether facet values are the defaults in order, followed by the extras.
pub open spec fn completed(
    r: Seq<SearchFacetValue>,
    rows: Seq<SearchFacetValue>,
    defaults: Seq<Seq<char>>,
) -> bool {
    &&& r.len() >= defaults.len()
    &&& forall|i: int|
        0 <= i < defaults.len() ==> (#[trigger] r[i]).value@ == defaults[i] && r[i].count
            == default_count(rows, defaults, i)
    &&& are_extras(r.skip(defaults.len() as int), rows, defaults)
}

fn complete(batches: &Vec<Batch>, defaults: &[&str]) -> (r: Vec<SearchFacetValue>)
    requires
        all_wf(batches@),
        all_have_text(batches@, "value"@),
    ensures
        completes(r@, facets_at(batches@, places(batches@)), str_texts(defaults@)),
{
    let rows = batches_to_search_facet_values(batches);
    let ghost given = rows@;
    let r = with_defaults(rows, defaults);
    assert(completed(r@, given, str_texts(defaults@)));
    r
}

/// The facets of a search, from what the five queries gave. Dimensions with known
/// values show each of them, with count 0 where no resource has it.
pub fn finish_search_facets(
    access: &Vec<Batch>,
    layers: &Vec<Batch>,
    materializations: &Vec<Batch>,
    tags: &Vec<Batch>,
    packages: &Vec<Batch>,
) -> (r: SearchFacetsResponse)
    requires
        all_wf(access@) && all_have_text(access@, "value"@),
        all_wf(layers@) && all_have_text(layers@, "value"@),
        all_wf(materializations@) && all_have_text(materializations@, "value"@),
        all_wf(tags@) && all_have_text(tags@, "value"@),
        all_wf(packages@) && all_have_text(packages@, "value"@),
    ensures
        completes(
            r.accesses@,
            facets_at(access@, places(access@)),
            facet_access_levels(),
        ),
        completes(r.modeling_layers@, facets_at(layers@, places(layers@)), facet_layers()),
        completes(
            r.materialization_types@,
            facets_at(materializations@, places(materializations@)),
            facet_materializations(),
        ),
        facet_pairs(r.tags@) == facets_at(tags@, places(tags@)),
        facet_pairs(r.packages@) == facets_at(packages@, places(packages@)),
{
    let levels: [&str; 3] = ["private", "protected", "public"];
    let names: [&str; 3] = ["Staging", "Intermediate", "Marts"];
    let standard: [&str; 5] = ["table", "view", "incremental", "ephemeral", "materialized_view"];
    assert(str_texts(levels@) =~= facet_access_levels());
    assert(str_texts(names@) =~= facet_layers());
    assert(str_texts(standard@) =~= facet_materializations());
    SearchFacetsResponse {
        accesses: complete(access, &levels),
        modeling_layers: complete(layers, &names),
        materialization_types: complete(materializations, &standard),
        tags: batches_to_search_facet_values(tags),
        packages: batches_to_search_facet_values(packages),
    }
}

} // verus!
