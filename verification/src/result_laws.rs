//! What a page and the count of a search mean.
use crate::filter_laws::{are_filters, lemma_filters_narrow_together, lets_through, searched};
use crate::meaning::{
    behind, both, lemma_cursor_fragment, lemma_joined_is_unioned, unioned, Letters, Pred, Row,
};
use crate::pagination::{cursor_sql, is_collation, CursorView, SortDir};
use crate::search_laws::{are_tables_for, lemma_every_word_must_match, Tables};
use crate::search_sql::{
    and_cursor, base_union, branches, browse_clause, browse_count, browse_page, field_matches,
    filter_clause, ranking_key, search_count, search_head, search_page, search_words,
    valid_ids_join, ResourceType, SearchQueryParams, BROWSE_FROM, COUNT_WINNERS, WINNERS_HEAD,
    WINNERS_JOIN,
};
use crate::text::{decimal, opt_text, trimmed};
use vstd::prelude::*;

verus! {

/// The resources that a search goes over: those of its branches that the clause lets
/// through, and the matches of its words.
pub open spec fn found_sql(parts: Seq<Seq<char>>, clause: Seq<char>, t: Tables) -> Seq<char> {
    "WITH base AS (\nSELECT * FROM (\n"@ + unioned(parts, parts.len(), "\n"@) + "\n) b\n"@ + clause
        + "\n),\n"@ + t.sql()
}

/// The resources among the matches, each once, with the field of the least priority.
pub open spec fn winners_sql(priority: bool) -> Seq<char> {
    ",\nwinners AS (\nSELECT unique_id, arg_min(matched_field, priority) AS matched_field"@ + (
    if priority {
        ",\nmin(priority) AS match_priority"@
    } else {
        Seq::empty()
    }) + "\nFROM field_matches\nGROUP BY unique_id\n)\n"@
}

/// Whether a query counts the results of a search: the matches of all words in the
/// resources that the filters let through, each resource once.
pub open spec fn counts_results(
    sql: Seq<char>,
    parts: Seq<Seq<char>>,
    rows: spec_fn(Row, Letters) -> bool,
    words: Seq<Seq<char>>,
) -> bool {
    exists|t: Tables, clause: Seq<char>|
        are_tables_for(t, words) && lets_through(clause, rows) && sql == #[trigger] found_sql(
            parts,
            clause,
            t,
        ) + winners_sql(false) + "SELECT COUNT(*)\nFROM winners w\n"@ + t.join_sql("w"@)
}

/// Whether a condition takes the rows behind a cursor.
pub open spec fn takes_behind(
    p: Pred,
    rows: spec_fn(Row, Letters) -> bool,
    sort: Seq<char>,
    cursor: Option<CursorView>,
) -> bool {
    p.is_factor() && forall|row: Row, l: Letters|
        is_collation(l.lt) && row.at("b.unique_id"@) is Some ==> p.holds(row, l) == (#[trigger] rows(
            row,
            l,
        ) && behind(row, sort, "b.unique_id"@, SortDir::Asc, cursor, l))
}

/// Whether a query gives a page of the results of a search and one row more: the same
/// results, those behind the cursor, in the order of a key.
pub open spec fn reads_results(
    sql: Seq<char>,
    parts: Seq<Seq<char>>,
    rows: spec_fn(Row, Letters) -> bool,
    words: Seq<Seq<char>>,
    key: Seq<char>,
    cursor: Option<CursorView>,
    first: u32,
) -> bool {
    exists|t: Tables, clause: Seq<char>, p: Pred|
        are_tables_for(t, words) && lets_through(clause, rows) && takes_behind(
            p,
            |row: Row, l: Letters| true,
            key,
            cursor,
        ) && sql == #[trigger] found_sql(parts, clause, t) + winners_sql(true)
            + "SELECT b.*, w.matched_field, ("@ + key
            + ") AS cursor_key\nFROM base b\nJOIN winners w ON w.unique_id = b.unique_id\n"@
            + t.join_sql("b"@) + "\nWHERE "@ + #[trigger] p.sql()
            + "\nORDER BY cursor_key ASC, b.unique_id ASC\nLIMIT "@ + decimal((first + 1) as nat)
}

proof fn lemma_union(types: Seq<ResourceType>, with_freshness: bool, with_run_results: bool)
    ensures
        base_union(types, with_freshness, with_run_results) == unioned(
            branches(types, with_freshness, with_run_results),
            branches(types, with_freshness, with_run_results).len(),
            "\n"@,
        ),
{
    let parts = branches(types, with_freshness, with_run_results);
    reveal_strlit("\nUNION ALL\n");
    reveal_strlit("\n");
    reveal_strlit("UNION ALL");
    assert("\nUNION ALL\n"@ =~= "\n"@ + "UNION ALL"@ + "\n"@);
    lemma_joined_is_unioned(parts, parts.len(), "\nUNION ALL\n"@, "\n"@);
    assert(parts.take(parts.len() as int) =~= parts);
}

proof fn lemma_join(t: Tables, words: Seq<Seq<char>>, alias: Seq<char>)
    requires
        are_tables_for(t, words),
        words.len() > 0,
    ensures
        valid_ids_join(words.len(), alias) == t.join_sql(alias),
{
    reveal_strlit("");
    assert(""@ =~= Seq::<char>::empty());
}

proof fn lemma_head(
    params: SearchQueryParams,
    types: Seq<ResourceType>,
    with_freshness: bool,
    with_run_results: bool,
    t: Tables,
)
    requires
        field_matches(search_words(opt_text(params.q))) == t.sql(),
    ensures
        search_head(params, types, with_freshness, with_run_results) == found_sql(
            branches(types, with_freshness, with_run_results),
            filter_clause(params),
            t,
        ),
{
    lemma_union(types, with_freshness, with_run_results);
    reveal_strlit("WITH base AS (\nSELECT * FROM (\n");
}

#[verifier::spinoff_prover]
proof fn lemma_winners()
    ensures
        COUNT_WINNERS@ == winners_sql(false) + "SELECT COUNT(*)\nFROM winners w\n"@,
        WINNERS_HEAD@ == winners_sql(true) + "SELECT b.*, w.matched_field, ("@,
        WINNERS_JOIN@ == ") AS cursor_key\nFROM base b\nJOIN winners w ON w.unique_id = b.unique_id\n"@,
{
    reveal_strlit(",\nwinners AS (\nSELECT unique_id, arg_min(matched_field, priority) AS matched_field");
    reveal_strlit(",\nmin(priority) AS match_priority");
    reveal_strlit("\nFROM field_matches\nGROUP BY unique_id\n)\n");
    reveal_strlit("SELECT COUNT(*)\nFROM winners w\n");
    reveal_strlit("SELECT b.*, w.matched_field, (");
    reveal_strlit(") AS cursor_key\nFROM base b\nJOIN winners w ON w.unique_id = b.unique_id\n");
    reveal_strlit(
        ",\nwinners AS (\n\
     SELECT unique_id, arg_min(matched_field, priority) AS matched_field\n\
     FROM field_matches\n\
     GROUP BY unique_id\n\
     )\n\
     SELECT COUNT(*)\n\
     FROM winners w\n",
    );
    reveal_strlit(
        ",\nwinners AS (\n\
     SELECT unique_id, arg_min(matched_field, priority) AS matched_field,\n\
     min(priority) AS match_priority\n\
     FROM field_matches\n\
     GROUP BY unique_id\n\
     )\n\
     SELECT b.*, w.matched_field, (",
    );
    reveal_strlit(
        ") AS cursor_key\n\
     FROM base b\n\
     JOIN winners w ON w.unique_id = b.unique_id\n",
    );
    assert(COUNT_WINNERS@ =~= winners_sql(false) + "SELECT COUNT(*)\nFROM winners w\n"@);
    assert(WINNERS_HEAD@ =~= winners_sql(true) + "SELECT b.*, w.matched_field, ("@);
    assert(WINNERS_JOIN@ =~= ") AS cursor_key\nFROM base b\nJOIN winners w ON w.unique_id = b.unique_id\n"@);
}

/// The count of a search is that of the resources of its types that the filters let
/// through and that every word matches.
pub proof fn lemma_count_is_of_the_results(
    params: SearchQueryParams,
    types: Seq<ResourceType>,
    with_freshness: bool,
    with_run_results: bool,
)
    requires
        are_filters(params),
        search_words(opt_text(params.q)).len() > 0,
    ensures
        counts_results(
            search_count(params, types, with_freshness, with_run_results),
            branches(types, with_freshness, with_run_results),
            searched(params),
            search_words(opt_text(params.q)),
        ),
{
    let words = search_words(opt_text(params.q));
    lemma_every_word_must_match(words);
    let t = choose|t: Tables| field_matches(words) == #[trigger] t.sql() && are_tables_for(t, words);
    lemma_head(params, types, with_freshness, with_run_results, t);
    lemma_filters_narrow_together(params);
    lemma_join(t, words, "w"@);
    lemma_winners();
    let h = found_sql(
        branches(types, with_freshness, with_run_results),
        filter_clause(params),
        t,
    );
    assert(h + (winners_sql(false) + "SELECT COUNT(*)\nFROM winners w\n"@) =~= h + winners_sql(false)
        + "SELECT COUNT(*)\nFROM winners w\n"@);
}

proof fn lemma_and_cursor(key: Seq<char>, cursor: Option<CursorView>) -> (p: Pred)
    ensures
        "1=1"@ + and_cursor(key, cursor) == p.sql(),
        takes_behind(p, |row: Row, l: Letters| true, key, cursor),
{
    reveal_with_fuel(Pred::sql, 2);
    reveal_with_fuel(Pred::is_sql, 2);
    reveal_with_fuel(Pred::holds, 2);
    let uid = "b.unique_id"@;
    match cursor {
        None => {
            reveal_strlit("");
            assert("1=1"@ + ""@ =~= "1=1"@);
            Pred::Always
        },
        Some(c) => {
            lemma_cursor_fragment(key, uid, SortDir::Asc, c);
            let f = choose|f: Pred|
                f.is_factor() && cursor_sql(key, uid, SortDir::Asc, c) == #[trigger] f.sql() && forall|
                    row: Row,
                    l: Letters,
                |
                    is_collation(l.lt) && row.at(uid) is Some ==> #[trigger] f.holds(row, l)
                        == behind(row, key, uid, SortDir::Asc, Some(c), l);
            let p = both(Pred::Always, f);
            assert(p.sql() == "1=1"@ + " AND "@ + f.sql());
            assert("1=1"@ + and_cursor(key, cursor) =~= p.sql());
            assert(p.is_factor());
            assert forall|row: Row, l: Letters| p.holds(row, l) == f.holds(row, l) by {}
            p
        },
    }
}

proof fn lemma_regroup_page(
    h: Seq<char>,
    w: Seq<char>,
    s: Seq<char>,
    k: Seq<char>,
    j: Seq<char>,
    v: Seq<char>,
    a: Seq<char>,
    b: Seq<char>,
    c: Seq<char>,
    o: Seq<char>,
    n: Seq<char>,
)
    ensures
        h + (w + s) + k + j + v + (a + b) + c + o + n == h + w + s + k + j + v + a + (b + c) + o + n,
{
    assert(h + (w + s) + k + j + v + (a + b) + c + o + n =~= h + w + s + k + j + v + a + (b + c) + o
        + n);
}

/// A page of a search holds the same resources as the count, those behind the cursor, in
/// the order of the ranking by the query without white space around it.
pub proof fn lemma_page_is_of_the_results(
    params: SearchQueryParams,
    types: Seq<ResourceType>,
    with_freshness: bool,
    with_run_results: bool,
    first: u32,
    cursor: Option<CursorView>,
)
    requires
        are_filters(params),
        search_words(opt_text(params.q)).len() > 0,
    ensures
        reads_results(
            search_page(params, types, with_freshness, with_run_results, first, cursor),
            branches(types, with_freshness, with_run_results),
            searched(params),
            search_words(opt_text(params.q)),
            ranking_key(trimmed(opt_text(params.q)->0)),
            cursor,
            first,
        ),
{
    let words = search_words(opt_text(params.q));
    let key = ranking_key(trimmed(opt_text(params.q)->0));
    lemma_every_word_must_match(words);
    let t = choose|t: Tables| field_matches(words) == #[trigger] t.sql() && are_tables_for(t, words);
    lemma_head(params, types, with_freshness, with_run_results, t);
    lemma_filters_narrow_together(params);
    lemma_join(t, words, "b"@);
    lemma_winners();
    let p = lemma_and_cursor(key, cursor);
    reveal_strlit("\nWHERE 1=1");
    reveal_strlit("\nWHERE ");
    reveal_strlit("1=1");
    assert("\nWHERE 1=1"@ =~= "\nWHERE "@ + "1=1"@);
    let h = found_sql(
        branches(types, with_freshness, with_run_results),
        filter_clause(params),
        t,
    );
    lemma_regroup_page(
        h,
        winners_sql(true),
        "SELECT b.*, w.matched_field, ("@,
        key,
        ") AS cursor_key\nFROM base b\nJOIN winners w ON w.unique_id = b.unique_id\n"@,
        t.join_sql("b"@),
        "\nWHERE "@,
        "1=1"@,
        and_cursor(key, cursor),
        "\nORDER BY cursor_key ASC, b.unique_id ASC\nLIMIT "@,
        decimal((first + 1) as nat),
    );
}

// ---------------------------------------------------------------------------
// Without a query
// ---------------------------------------------------------------------------

/// The resources that are browsed.
pub open spec fn browsed_sql(parts: Seq<Seq<char>>) -> Seq<char> {
    "WITH base AS (\nSELECT * FROM (\n"@ + unioned(parts, parts.len(), "\n"@) + "\n) _b\n)\n"@
}

/// Whether a clause lets the given rows through that come behind a cursor.
pub open spec fn lets_through_behind(
    clause: Seq<char>,
    rows: spec_fn(Row, Letters) -> bool,
    sort: Seq<char>,
    cursor: Option<CursorView>,
) -> bool {
    if clause.len() == 0 {
        cursor is None && forall|row: Row, l: Letters| #[trigger] rows(row, l)
    } else {
        exists|p: Pred|
            clause == "WHERE "@ + #[trigger] p.sql() && takes_behind(p, rows, sort, cursor)
    }
}

proof fn lemma_browse_clause(params: SearchQueryParams, cursor: Option<CursorView>)
    requires
        are_filters(params),
    ensures
        lets_through_behind(browse_clause(params, cursor), searched(params), "b.name"@, cursor),
{
    lemma_filters_narrow_together(params);
    reveal_strlit("WHERE ");
    assert("WHERE "@.len() > 0);
    let clause = filter_clause(params);
    let uid = "b.unique_id"@;
    match cursor {
        None => {
            if clause.len() > 0 {
                let p = choose|p: Pred|
                    p.is_factor() && clause == "WHERE "@ + #[trigger] p.sql() && forall|
                        row: Row,
                        l: Letters,
                    |
                        p.holds(row, l) == #[trigger] searched(params)(row, l);
                assert(takes_behind(p, searched(params), "b.name"@, cursor));
            }
        },
        Some(c) => {
            lemma_cursor_fragment("b.name"@, uid, SortDir::Asc, c);
            let f = choose|f: Pred|
                f.is_factor() && cursor_sql("b.name"@, uid, SortDir::Asc, c) == #[trigger] f.sql()
                    && forall|row: Row, l: Letters|
                    is_collation(l.lt) && row.at(uid) is Some ==> #[trigger] f.holds(row, l)
                        == behind(row, "b.name"@, uid, SortDir::Asc, Some(c), l);
            if clause.len() == 0 {
                assert(browse_clause(params, cursor) == "WHERE "@ + f.sql());
                assert(takes_behind(f, searched(params), "b.name"@, cursor));
            } else {
                let p = choose|p: Pred|
                    p.is_factor() && clause == "WHERE "@ + #[trigger] p.sql() && forall|
                        row: Row,
                        l: Letters,
                    |
                        p.holds(row, l) == #[trigger] searched(params)(row, l);
                let q = both(p, f);
                assert(q.sql() == p.sql() + " AND "@ + f.sql());
                assert(browse_clause(params, cursor) =~= "WHERE "@ + q.sql());
                assert(q.is_factor());
                assert forall|row: Row, l: Letters|
                    is_collation(l.lt) && row.at(uid) is Some implies q.holds(row, l) == (
                #[trigger] searched(params)(row, l) && behind(
                    row,
                    "b.name"@,
                    uid,
                    SortDir::Asc,
                    cursor,
                    l,
                )) by {
                    assert(q.holds(row, l) == (p.holds(row, l) && f.holds(row, l)));
                }
                assert(takes_behind(q, searched(params), "b.name"@, cursor));
            }
        },
    }
}

/// Without a query, the count is that of all resources that the filters let through, and a
/// page holds, of the same, those behind the cursor, by name, resources without a name
/// last.
pub proof fn lemma_browsing(
    params: SearchQueryParams,
    types: Seq<ResourceType>,
    with_freshness: bool,
    with_run_results: bool,
    first: u32,
    cursor: Option<CursorView>,
)
    requires
        are_filters(params),
    ensures
        exists|clause: Seq<char>|
            #[trigger] lets_through(clause, searched(params)) && browse_count(
                params,
                types,
                with_freshness,
                with_run_results,
            ) == browsed_sql(branches(types, with_freshness, with_run_results))
                + "SELECT COUNT(*) FROM base b\n"@ + clause,
        exists|clause: Seq<char>|
            #[trigger] lets_through_behind(clause, searched(params), "b.name"@, cursor)
                && browse_page(params, types, with_freshness, with_run_results, first, cursor)
                == browsed_sql(branches(types, with_freshness, with_run_results))
                + "SELECT b.*, NULL::VARCHAR AS matched_field\nFROM base b\n"@ + clause
                + "\nORDER BY b.name ASC NULLS LAST, b.unique_id ASC\nLIMIT "@ + decimal(
                (first + 1) as nat,
            ),
{
    lemma_union(types, with_freshness, with_run_results);
    lemma_filters_narrow_together(params);
    lemma_browse_clause(params, cursor);
    let parts = branches(types, with_freshness, with_run_results);
    let u = unioned(parts, parts.len(), "\n"@);
    reveal_strlit("WITH base AS (\nSELECT * FROM (\n");
    reveal_strlit("\n) _b\n)\n");
    reveal_strlit("\n) _b\n)\nSELECT COUNT(*) FROM base b\n");
    reveal_strlit("SELECT COUNT(*) FROM base b\n");
    reveal_strlit("SELECT b.*, NULL::VARCHAR AS matched_field\nFROM base b\n");
    reveal_strlit(
        "\n) _b\n)\n\
     SELECT b.*, NULL::VARCHAR AS matched_field\n\
     FROM base b\n",
    );
    assert("\n) _b\n)\nSELECT COUNT(*) FROM base b\n"@ =~= "\n) _b\n)\n"@
        + "SELECT COUNT(*) FROM base b\n"@);
    assert(BROWSE_FROM@ =~= "\n) _b\n)\n"@
        + "SELECT b.*, NULL::VARCHAR AS matched_field\nFROM base b\n"@);
    let head = "WITH base AS (\nSELECT * FROM (\n"@ + u;
    assert(head + ("\n) _b\n)\n"@ + "SELECT COUNT(*) FROM base b\n"@) =~= browsed_sql(parts)
        + "SELECT COUNT(*) FROM base b\n"@);
    assert(head + ("\n) _b\n)\n"@ + "SELECT b.*, NULL::VARCHAR AS matched_field\nFROM base b\n"@)
        =~= browsed_sql(parts) + "SELECT b.*, NULL::VARCHAR AS matched_field\nFROM base b\n"@);
    assert(lets_through(filter_clause(params), searched(params)));
    assert(lets_through_behind(browse_clause(params, cursor), searched(params), "b.name"@, cursor));
}

} // verus!
