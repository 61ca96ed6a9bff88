//! What the results of a search show.
use crate::filter_laws::{are_filters, searched};
use crate::highlight::{description_highlight, highlighted, tag_highlight};
use crate::meaning::{
    all_of, both, equals, finds, flag_text, grouped, has_lists, key_in, lemma_all_of,
    lemma_pattern_finds, lemma_quoted_is_literal, literal, shows, shows_list, shows_value, sqls,
    Expr, Item, Letters, Pred, Row,
};
use crate::pagination::{clamped, CursorView};
use crate::probe::ListQuery;
use crate::result_laws::{
    counts_results, lemma_count_is_of_the_results, lemma_page_is_of_the_results, reads_results,
};
use crate::search::{
    column_condition, columns_sql, highlight_step, is_search_row, is_variant, search_cursor,
    search_key, search_types, HighlightView, SearchEdge, SEARCH_DEFAULT_PAGE_SIZE,
    SEARCH_MAX_PAGE_SIZE,
};
use crate::search_sql::{
    branches, browse_count, browse_page, count_sql, is_search, page_sql, ranking_key, search_words,
    ResourceType, SearchQueryParams,
};
use crate::sql::{escaped, pattern};
use crate::table::{has_columns, Batch};
use crate::text::{is_blank, is_white, joined, nonempty, opt_text, split, texts, trimmed};
use crate::text_laws::{lemma_trimming_takes_white_space_off, pads};
use vstd::prelude::*;

verus! {

// ---------------------------------------------------------------------------
// Rows
// ---------------------------------------------------------------------------

/// What a result is shown with.
pub open spec fn hit_items() -> Seq<Item> {
    seq![
        Item::Plain("unique_id"@),
        Item::Plain("name"@),
        Item::Plain("resource_type"@),
        Item::Plain("package_name"@),
        Item::Plain("fqn"@),
        Item::Plain("tags"@),
        Item::Plain("description"@),
        Item::Plain("materialized"@),
        Item::Plain("access_level"@),
        Item::Plain("source_name"@),
        Item::Plain("freshness_checked"@),
        Item::Plain("test_type"@),
        Item::Plain("exposure_type"@),
        Item::Plain("executed_at"@),
        Item::Plain("matched_field"@),
        Item::Plain("cursor_key"@),
    ]
}

/// What a list holds, where there is one.
pub open spec fn list_text(v: Option<Vec<String>>) -> Option<Seq<Seq<char>>> {
    match v {
        Some(v) => Some(texts(v@)),
        None => None,
    }
}

/// A result shows what its row of the database has. What only some types have is shown for
/// those only: the materialization and the access level for models, the name and the
/// freshness of a source for sources, the kind of test for tests and unit tests, the type
/// of an exposure for exposures, and the last run for nodes.
#[verifier::spinoff_prover]
#[verifier::rlimit(60)]
pub proof fn lemma_hit_shows_its_row(
    edge: SearchEdge,
    key: Option<String>,
    batch: Batch,
    i: int,
    row: Row,
    kind: Seq<char>,
)
    requires
        is_search_row(edge, key, batch, i),
        shows(batch, i, hit_items(), row),
        has_columns(
            batch,
            seq!["unique_id"@, "name"@, "resource_type"@, "package_name"@, "description"@, "materialized"@, "access_level"@, "source_name"@, "test_type"@, "exposure_type"@, "executed_at"@, "matched_field"@, "cursor_key"@],
            seq!["freshness_checked"@],
        ),
        has_lists(batch, seq!["fqn"@, "tags"@]),
        row.at("unique_id"@) is Some,
        row.at("resource_type"@) == Some(kind),
    ensures
        row.at("unique_id"@) == Some(edge.hit.unique_id@),
        edge.hit.resource_type@ == kind,
        row.at("name"@) == opt_text(edge.hit.name),
        row.at("description"@) == opt_text(edge.hit.description),
        row.at("package_name"@) == opt_text(edge.hit.package_name),
        row.at("matched_field"@) == opt_text(edge.matched_field),
        row.list("fqn"@) == list_text(edge.hit.fqn),
        row.list("tags"@) == list_text(edge.hit.tags),
        opt_text(edge.hit.materialized) == (if kind == "model"@ {
            row.at("materialized"@)
        } else {
            None
        }),
        opt_text(edge.hit.access_level) == (if kind == "model"@ {
            row.at("access_level"@)
        } else {
            None
        }),
        opt_text(edge.hit.source_name) == (if kind == "source"@ {
            row.at("source_name"@)
        } else {
            None
        }),
        flag_text(edge.hit.freshness_checked) == (if kind == "source"@ {
            row.at("freshness_checked"@)
        } else {
            None
        }),
        opt_text(edge.hit.test_type) == (if kind == "test"@ || kind == "unit_test"@ {
            row.at("test_type"@)
        } else {
            None
        }),
        opt_text(edge.hit.exposure_type) == (if kind == "exposure"@ {
            row.at("exposure_type"@)
        } else {
            None
        }),
        opt_text(edge.hit.executed_at) == (if kind == "model"@ || kind == "source"@ || kind
            == "seed"@ || kind == "snapshot"@ || kind == "test"@ {
            row.at("executed_at"@)
        } else {
            None
        }),
        row.at("cursor_key"@) is Some ==> search_key((edge, key)) == key_in(
            row,
            "cursor_key"@,
            edge.hit.unique_id@,
        ),
        row.at("cursor_key"@) is None ==> search_key((edge, key)) == key_in(
            row,
            "name"@,
            edge.hit.unique_id@,
        ),
{
    let items = hit_items();
    let names = seq!["unique_id"@, "name"@, "resource_type"@, "package_name"@, "description"@, "materialized"@, "access_level"@, "source_name"@, "test_type"@, "exposure_type"@, "executed_at"@, "matched_field"@, "cursor_key"@];
    assert(batch.has_text(names[0]));
    assert(batch.has_text(names[1]));
    assert(batch.has_text(names[2]));
    assert(batch.has_text(names[3]));
    assert(batch.has_text(names[4]));
    assert(batch.has_text(names[5]));
    assert(batch.has_text(names[6]));
    assert(batch.has_text(names[7]));
    assert(batch.has_text(names[8]));
    assert(batch.has_text(names[9]));
    assert(batch.has_text(names[10]));
    assert(batch.has_text(names[11]));
    assert(batch.has_text(names[12]));
    assert(batch.has_bool(seq!["freshness_checked"@][0]));
    let lists = seq!["fqn"@, "tags"@];
    assert(batch.column(lists[0]) is Some && batch.column(lists[1]) is Some);
    assert(shows_value(batch, i, items[0].name(), row.at(items[0].expr())));
    assert(shows_value(batch, i, items[1].name(), row.at(items[1].expr())));
    assert(shows_value(batch, i, items[2].name(), row.at(items[2].expr())));
    assert(shows_value(batch, i, items[3].name(), row.at(items[3].expr())));
    assert(shows_list(batch, i, items[4].name(), row.list(items[4].expr())));
    assert(shows_list(batch, i, items[5].name(), row.list(items[5].expr())));
    assert(shows_value(batch, i, items[6].name(), row.at(items[6].expr())));
    assert(shows_value(batch, i, items[7].name(), row.at(items[7].expr())));
    assert(shows_value(batch, i, items[8].name(), row.at(items[8].expr())));
    assert(shows_value(batch, i, items[9].name(), row.at(items[9].expr())));
    assert(shows_value(batch, i, items[10].name(), row.at(items[10].expr())));
    assert(shows_value(batch, i, items[11].name(), row.at(items[11].expr())));
    assert(shows_value(batch, i, items[12].name(), row.at(items[12].expr())));
    assert(shows_value(batch, i, items[13].name(), row.at(items[13].expr())));
    assert(shows_value(batch, i, items[14].name(), row.at(items[14].expr())));
    assert(shows_value(batch, i, items[15].name(), row.at(items[15].expr())));
}

// ---------------------------------------------------------------------------
// Queries
// ---------------------------------------------------------------------------

proof fn lemma_blank_has_no_words(s: Seq<char>)
    requires
        forall|i: int| 0 <= i < s.len() ==> is_white(#[trigger] s[i]),
    ensures
        forall|k: int|
            0 <= k < split(s, is_blank()).len() ==> (#[trigger] split(s, is_blank())[k]).len() == 0,
        split(s, is_blank()).len() > 0,
    decreases s.len(),
{
    if s.len() > 0 {
        let t = s.drop_last();
        assert forall|i: int| 0 <= i < t.len() implies is_white(#[trigger] t[i]) by {
            assert(t[i] == s[i]);
        }
        lemma_blank_has_no_words(t);
        assert(is_white(s[s.len() - 1]));
        assert(is_blank()(s.last()));
    }
}

proof fn lemma_none_nonempty(s: Seq<Seq<char>>)
    requires
        forall|k: int| 0 <= k < s.len() ==> (#[trigger] s[k]).len() == 0,
    ensures
        nonempty(s).len() == 0,
    decreases s.len(),
{
    if s.len() > 0 {
        assert(s[s.len() - 1].len() == 0);
        assert forall|k: int| 0 <= k < s.drop_last().len() implies (#[trigger] s.drop_last()[k]).len()
            == 0 by {
            assert(s.drop_last()[k] == s[k]);
        }
        lemma_none_nonempty(s.drop_last());
    }
}

/// A query is searched for exactly where it has a word.
pub proof fn lemma_a_search_has_words(q: Option<Seq<char>>)
    ensures
        is_search(q) <==> search_words(q).len() > 0,
{
    if let Some(s) = q {
        if trimmed(s).len() > 0 {
            crate::text::lemma_words_of_text(s);
        } else {
            lemma_trimming_takes_white_space_off(s);
            let from = choose|from: int| #[trigger] pads(s, trimmed(s), from);
            assert forall|i: int| 0 <= i < s.len() implies is_white(#[trigger] s[i]) by {
                assert(i < from || from + trimmed(s).len() <= i);
            }
            lemma_blank_has_no_words(s);
            lemma_none_nonempty(split(s, is_blank()));
        }
    }
}

/// The queries of a request are those of a search where it has a word, and those of
/// browsing where it has none.
pub proof fn lemma_words_are_searched_for(
    params: SearchQueryParams,
    types: Seq<ResourceType>,
    with_freshness: bool,
    with_run_results: bool,
    first: u32,
    cursor: Option<CursorView>,
)
    requires
        are_filters(params),
    ensures
        search_words(opt_text(params.q)).len() > 0 ==> counts_results(
            count_sql(params, types, with_freshness, with_run_results),
            branches(types, with_freshness, with_run_results),
            searched(params),
            search_words(opt_text(params.q)),
        ) && reads_results(
            page_sql(params, types, with_freshness, with_run_results, first, cursor),
            branches(types, with_freshness, with_run_results),
            searched(params),
            search_words(opt_text(params.q)),
            ranking_key(trimmed(opt_text(params.q)->0)),
            cursor,
            first,
        ),
        search_words(opt_text(params.q)).len() == 0 ==> count_sql(
            params,
            types,
            with_freshness,
            with_run_results,
        ) == browse_count(params, types, with_freshness, with_run_results) && page_sql(
            params,
            types,
            with_freshness,
            with_run_results,
            first,
            cursor,
        ) == browse_page(params, types, with_freshness, with_run_results, first, cursor),
{
    lemma_a_search_has_words(opt_text(params.q));
    if search_words(opt_text(params.q)).len() > 0 {
        lemma_count_is_of_the_results(params, types, with_freshness, with_run_results);
        lemma_page_is_of_the_results(
            params,
            types,
            with_freshness,
            with_run_results,
            first,
            cursor,
        );
    }
}

/// Every query of a request counts and lists the results of its words among the types that
/// it asks for, from the cursor on, whichever views it goes without.
pub proof fn lemma_every_query_searches(
    query: ListQuery,
    params: SearchQueryParams,
    with_freshness: bool,
    with_run_results: bool,
)
    requires
        is_variant(query, params, with_freshness, with_run_results),
        are_filters(params),
        search_words(opt_text(params.q)).len() > 0,
    ensures
        counts_results(
            query.count_sql@,
            branches(search_types(params), with_freshness, with_run_results),
            searched(params),
            search_words(opt_text(params.q)),
        ),
        reads_results(
            query.rows_sql@,
            branches(search_types(params), with_freshness, with_run_results),
            searched(params),
            search_words(opt_text(params.q)),
            ranking_key(trimmed(opt_text(params.q)->0)),
            search_cursor(params),
            clamped(params.first, SEARCH_DEFAULT_PAGE_SIZE, SEARCH_MAX_PAGE_SIZE),
        ),
{
    lemma_words_are_searched_for(
        params,
        search_types(params),
        with_freshness,
        with_run_results,
        clamped(params.first, SEARCH_DEFAULT_PAGE_SIZE, SEARCH_MAX_PAGE_SIZE),
        search_cursor(params),
    );
}

/// What is marked of a result is the field that matched: a window of the description, the
/// best tag, the dotted name or the columns. A name is not marked.
pub proof fn lemma_the_field_that_matched_is_marked(edge: SearchEdge, tokens: Seq<Seq<char>>)
    requires
        tokens.len() > 0,
    ensures
        opt_text(edge.matched_field) == Some("name"@) || edge.matched_field is None
            ==> highlight_step(edge, tokens) == HighlightView::Done(None),
        opt_text(edge.matched_field) == Some("description"@) ==> highlight_step(edge, tokens)
            == HighlightView::Done(
            match opt_text(edge.hit.description) {
                Some(text) => Some(description_highlight(text, tokens)),
                None => None,
            },
        ),
        opt_text(edge.matched_field) == Some("tag"@) ==> highlight_step(edge, tokens)
            == HighlightView::Done(
            match list_text(edge.hit.tags) {
                Some(tags) => tag_highlight(tags, tokens),
                None => None,
            },
        ),
        opt_text(edge.matched_field) == Some("fqn"@) ==> highlight_step(edge, tokens)
            == HighlightView::Done(
            match list_text(edge.hit.fqn) {
                Some(parts) => Some(highlighted(joined(parts, "."@), tokens)),
                None => None,
            },
        ),
        opt_text(edge.matched_field) == Some("column"@) ==> highlight_step(edge, tokens)
            == HighlightView::Columns(columns_sql(edge.hit.unique_id@, tokens)),
{
    reveal_strlit("name");
    reveal_strlit("description");
    reveal_strlit("tag");
    reveal_strlit("fqn");
    reveal_strlit("column");
    assert("name"@.len() == 4 && "description"@.len() == 11 && "tag"@.len() == 3 && "fqn"@.len()
        == 3 && "column"@.len() == 6 && "tag"@[0] == 't' && "fqn"@[0] == 'f');
}

// ---------------------------------------------------------------------------
// Columns
// ---------------------------------------------------------------------------

/// Whether a column is one of a resource that every word is in.
pub open spec fn is_marked_column(
    row: Row,
    l: Letters,
    unique_id: Seq<char>,
    tokens: Seq<Seq<char>>,
) -> bool {
    &&& row.at("unique_id"@) == Some(unique_id)
    &&& forall|i: int|
        0 <= i < tokens.len() ==> row.at("column_name"@) is Some && finds(
            row.at("column_name"@)->0,
            #[trigger] tokens[i],
            l.alike,
        )
}

spec fn column_pred(token: Seq<char>) -> Pred {
    Pred::Holds(Expr::Of("column_name"@), token)
}

proof fn lemma_column_pred(token: Seq<char>, row: Row, l: Letters)
    ensures
        column_condition(token) == column_pred(token).sql(),
        column_pred(token).is_factor(),
        column_pred(token).holds(row, l) <==> row.at("column_name"@) is Some && finds(
            row.at("column_name"@)->0,
            token,
            l.alike,
        ),
{
    reveal_with_fuel(Pred::sql, 2);
    reveal_with_fuel(Pred::is_sql, 2);
    reveal_with_fuel(Pred::holds, 2);
    reveal_with_fuel(Expr::sql, 2);
    reveal_with_fuel(Expr::eval, 2);
    reveal_strlit("column_name ILIKE '%' || '");
    reveal_strlit("' || '%' ESCAPE '\\'");
    reveal_strlit("column_name");
    reveal_strlit(" ILIKE '%' || ");
    reveal_strlit(" || '%' ESCAPE '\\'");
    lemma_quoted_is_literal(pattern(token));
    assert("column_name ILIKE '%' || '"@ =~= "column_name"@ + " ILIKE '%' || "@ + seq!['\'']);
    assert("' || '%' ESCAPE '\\'"@ =~= seq!['\''] + " || '%' ESCAPE '\\'"@);
    assert(column_condition(token) =~= column_pred(token).sql());
    if let Some(x) = row.at("column_name"@) {
        lemma_pattern_finds(x, token, l.alike);
    }
}

/// The query for the columns to mark gives exactly those of the resource that every word is
/// in, each once.
#[verifier::spinoff_prover]
#[verifier::rlimit(40)]
pub proof fn lemma_marked_columns(unique_id: Seq<char>, tokens: Seq<Seq<char>>)
    requires
        tokens.len() > 0,
    ensures
        exists|p: Pred|
            p.is_factor() && columns_sql(unique_id, tokens)
                == "SELECT DISTINCT column_name FROM dbt.node_columns WHERE "@ + #[trigger] p.sql()
                + " ORDER BY column_name"@ && forall|row: Row, l: Letters| #[trigger]
                p.holds(row, l) == is_marked_column(row, l, unique_id, tokens),
{
    let ps = Seq::new(tokens.len(), |i: int| column_pred(tokens[i]));
    assert forall|i: int| 0 <= i < ps.len() implies (#[trigger] ps[i]).is_factor() && ps[i].sql()
        == column_condition(tokens[i]) by {
        lemma_column_pred(tokens[i], arbitrary(), arbitrary());
    }
    assert(sqls(ps) =~= Seq::new(tokens.len(), |i: int| column_condition(tokens[i])));
    lemma_all_of(ps, arbitrary(), arbitrary());
    let a = equals("unique_id"@, unique_id);
    let g = grouped(all_of(ps));
    let p = both(a, g);
    assert(a.sql() == "unique_id"@ + " = "@ + literal(unique_id)) by {
        reveal_with_fuel(Pred::sql, 2);
        reveal_with_fuel(Expr::sql, 2);
    }
    assert(a.is_sql() && all_of(ps).is_sql());
    assert(g.is_sql());
    assert(p.is_sql());
    assert(g.sql() == "("@ + joined(sqls(ps), " AND "@) + ")"@);
    assert(p.sql() == a.sql() + " AND "@ + g.sql());
    reveal_strlit("SELECT DISTINCT column_name FROM dbt.node_columns WHERE unique_id = '");
    reveal_strlit("' AND (");
    reveal_strlit(") ORDER BY column_name");
    reveal_strlit("SELECT DISTINCT column_name FROM dbt.node_columns WHERE ");
    reveal_strlit("unique_id");
    reveal_strlit(" = ");
    reveal_strlit(" AND ");
    reveal_strlit("(");
    reveal_strlit(")");
    reveal_strlit(" ORDER BY column_name");
    let j = joined(sqls(ps), " AND "@);
    assert("SELECT DISTINCT column_name FROM dbt.node_columns WHERE unique_id = '"@
        =~= "SELECT DISTINCT column_name FROM dbt.node_columns WHERE "@ + "unique_id"@ + " = "@ + seq![
        '\'',
    ]);
    assert("' AND ("@ =~= seq!['\''] + " AND "@ + "("@);
    assert(") ORDER BY column_name"@ =~= ")"@ + " ORDER BY column_name"@);
    lemma_regroup_columns(
        "SELECT DISTINCT column_name FROM dbt.node_columns WHERE "@,
        "unique_id"@,
        " = "@,
        seq!['\''],
        escaped(unique_id),
        " AND "@,
        "("@,
        j,
        ")"@,
        " ORDER BY column_name"@,
    );
    assert forall|row: Row, l: Letters| #[trigger] p.holds(row, l) == is_marked_column(
        row,
        l,
        unique_id,
        tokens,
    ) by {
        lemma_all_of(ps, row, l);
        assert(a.holds(row, l) == (row.at("unique_id"@) == Some(unique_id))) by {
            reveal_with_fuel(Pred::holds, 2);
            reveal_with_fuel(Expr::eval, 2);
        }
        assert(g.holds(row, l) == all_of(ps).holds(row, l));
        assert(p.holds(row, l) == (a.holds(row, l) && g.holds(row, l)));
        assert forall|i: int| 0 <= i < tokens.len() implies (#[trigger] ps[i]).holds(row, l) == (
        row.at("column_name"@) is Some && finds(
            row.at("column_name"@)->0,
            tokens[i],
            l.alike,
        )) by {
            lemma_column_pred(tokens[i], row, l);
        }
        if is_marked_column(row, l, unique_id, tokens) {
            assert forall|i: int| 0 <= i < ps.len() implies (#[trigger] ps[i]).holds(row, l) by {
                assert(finds(row.at("column_name"@)->0, tokens[i], l.alike));
            }
        }
        if p.holds(row, l) {
            assert forall|i: int| 0 <= i < tokens.len() implies row.at("column_name"@) is Some
                && finds(row.at("column_name"@)->0, #[trigger] tokens[i], l.alike) by {
                assert(ps[i].holds(row, l));
            }
        }
    }
}

proof fn lemma_regroup_columns(
    s: Seq<char>,
    u: Seq<char>,
    e: Seq<char>,
    q: Seq<char>,
    id: Seq<char>,
    a: Seq<char>,
    o: Seq<char>,
    j: Seq<char>,
    c: Seq<char>,
    r: Seq<char>,
)
    ensures
        (s + u + e + q) + id + (q + a + o) + j + (c + r) == s + (u + e + (q + id + q) + a + (o + j
            + c)) + r,
{
    assert((s + u + e + q) + id + (q + a + o) + j + (c + r) =~= s + (u + e + (q + id + q) + a + (o + j
        + c)) + r);
}

} // verus!
