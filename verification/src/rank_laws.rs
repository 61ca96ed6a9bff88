//! What a search is ranked by.
use crate::layer_laws::{layer_pred, lemma_layer_pred_holds, lemma_search_layers, row_in_layer};
use crate::meaning::{
    branches_sql, case_sql, case_value, found_at, has_value, lemma_pattern_starts,
    lemma_plain_literal, literal, same_letter, Expr, Letters, Pred, Row,
};
use crate::order::precedes;
use crate::ranking::{
    is_ranked, lemma_ranking_orders_rows, rank_tiers, ranks, ranks_before, row_key, RankedRow,
};
use crate::search_sql::{
    exact_match, layer_rank, prefix_match, ranking_key, ranking_tiers, tier_sql, NAMELESS_KEY,
    RESOURCE_RANK,
};
use crate::sql::{escaped, pattern};
use crate::text::{decimal, joined};
use vstd::prelude::*;

verus! {

// ---------------------------------------------------------------------------
// Tiers
// ---------------------------------------------------------------------------

/// The digit of a test: 0 where it is passed.
pub open spec fn passed(b: bool) -> Option<Seq<char>> {
    if b {
        Some("0"@)
    } else {
        Some("1"@)
    }
}

/// Whether the name of a resource is the query, but for the case of letters.
pub open spec fn is_called(row: Row, l: Letters, q: Seq<char>) -> bool {
    row.at("b.name"@) matches Some(name) && (l.lower)(name) == (l.lower)(q)
}

/// Whether the name of a resource starts with the query, but for the case of letters.
pub open spec fn starts_with(row: Row, l: Letters, q: Seq<char>) -> bool {
    row.at("b.name"@) matches Some(name) && found_at((l.lower)(name), (l.lower)(q), 0, same_letter())
}

/// Whether the lower case of a pattern is the pattern of the lower case: none of the
/// characters with a meaning in a pattern comes or goes with the case.
pub open spec fn keeps_pattern(l: Letters, q: Seq<char>) -> bool {
    (l.lower)(pattern(q)) == pattern((l.lower)(q))
}

/// The first tier is 0 exactly where the query is the name.
#[verifier::spinoff_prover]
#[verifier::rlimit(40)]
pub proof fn lemma_exact_names_come_first(q: Seq<char>)
    ensures
        has_value(exact_match(q), |row: Row, l: Letters| passed(is_called(row, l, q))),
{
    let p = Pred::Equal(
        Expr::Lower(Box::new(Expr::Of("b.name"@))),
        Expr::Lower(Box::new(Expr::Text(q))),
    );
    let bs = seq![(p, "0"@)];
    reveal_with_fuel(Pred::sql, 2);
    reveal_with_fuel(Pred::is_sql, 2);
    reveal_with_fuel(Pred::holds, 2);
    reveal_with_fuel(Expr::sql, 3);
    reveal_with_fuel(Expr::eval, 3);
    reveal_with_fuel(branches_sql, 2);
    reveal_with_fuel(case_value, 2);
    reveal_strlit("CASE WHEN lower(b.name) = lower('");
    reveal_strlit("') THEN '0' ELSE '1' END");
    reveal_strlit("CASE");
    reveal_strlit(" WHEN ");
    reveal_strlit("lower(");
    reveal_strlit("b.name");
    reveal_strlit(")");
    reveal_strlit(" = ");
    reveal_strlit(" THEN ");
    reveal_strlit("0");
    reveal_strlit("1");
    reveal_strlit(" ELSE ");
    reveal_strlit(" END");
    lemma_plain_literal("0"@);
    lemma_plain_literal("1"@);
    assert(p.sql() == "lower("@ + "b.name"@ + ")"@ + " = "@ + ("lower("@ + literal(q) + ")"@));
    assert("CASE WHEN lower(b.name) = lower('"@ =~= "CASE"@ + " WHEN "@ + ("lower("@ + "b.name"@
        + ")"@ + " = "@ + "lower("@) + seq!['\'']);
    assert("') THEN '0' ELSE '1' END"@ =~= seq!['\''] + ")"@ + (" THEN "@ + literal("0"@) + " ELSE "@
        + literal("1"@) + " END"@));
    lemma_regroup_case(
        "CASE"@ + " WHEN "@,
        "lower("@ + "b.name"@ + ")"@ + " = "@,
        "lower("@,
        seq!['\''],
        escaped(q),
        ")"@,
        " THEN "@,
        literal("0"@),
        " ELSE "@,
        literal("1"@),
        " END"@,
    );
    assert("lower("@ + "b.name"@ + ")"@ + " = "@ + "lower("@ =~= "lower("@ + "b.name"@ + ")"@
        + " = "@ + "lower("@);
    assert(exact_match(q) == case_sql(bs, Some("1"@)));
    assert(bs[0].0.is_sql());
    let value = |row: Row, l: Letters| passed(is_called(row, l, q));
    assert forall|row: Row, l: Letters| case_value(bs, Some("1"@), 0, row, l) == #[trigger] value(
        row,
        l,
    ) by {}
}

proof fn lemma_regroup_case(
    a: Seq<char>,
    b: Seq<char>,
    c: Seq<char>,
    q: Seq<char>,
    e: Seq<char>,
    d: Seq<char>,
    t: Seq<char>,
    zero: Seq<char>,
    el: Seq<char>,
    one: Seq<char>,
    end: Seq<char>,
)
    ensures
        (a + (b + c) + q) + e + (q + d + (t + zero + el + one + end)) == (a + (b + (c + (q + e + q)
            + d)) + t + zero) + el + one + end,
{
    assert((a + (b + c) + q) + e + (q + d + (t + zero + el + one + end)) =~= (a + (b + (c + (q + e
        + q) + d)) + t + zero) + el + one + end);
}

/// The second tier is 0 exactly where the name starts with the query.
#[verifier::spinoff_prover]
#[verifier::rlimit(40)]
pub proof fn lemma_prefixes_come_second(q: Seq<char>)
    ensures
        exists|value: spec_fn(Row, Letters) -> Option<Seq<char>>| #[trigger]
            has_value(prefix_match(q), value) && forall|row: Row, l: Letters|
                keeps_pattern(l, q) ==> #[trigger] value(row, l) == passed(starts_with(row, l, q)),
{
    let p = Pred::Starts("b.name"@, q);
    let bs = seq![(p, "0"@)];
    reveal_with_fuel(Pred::sql, 2);
    reveal_with_fuel(Pred::is_sql, 2);
    reveal_with_fuel(Pred::holds, 2);
    reveal_with_fuel(branches_sql, 2);
    reveal_with_fuel(case_value, 2);
    reveal_strlit("CASE WHEN lower(b.name) LIKE lower('");
    reveal_strlit("') || '%' ESCAPE '\\' THEN '0' ELSE '1' END");
    reveal_strlit("CASE");
    reveal_strlit(" WHEN ");
    reveal_strlit("lower(");
    reveal_strlit("b.name");
    reveal_strlit(") LIKE lower(");
    reveal_strlit(") || '%' ESCAPE '\\'");
    reveal_strlit(" THEN ");
    reveal_strlit("0");
    reveal_strlit("1");
    reveal_strlit(" ELSE ");
    reveal_strlit(" END");
    lemma_plain_literal("0"@);
    lemma_plain_literal("1"@);
    let w = escaped(pattern(q));
    assert(p.sql() == "lower("@ + "b.name"@ + ") LIKE lower("@ + literal(pattern(q))
        + ") || '%' ESCAPE '\\'"@);
    assert("CASE WHEN lower(b.name) LIKE lower('"@ =~= "CASE"@ + " WHEN "@ + ("lower("@ + "b.name"@
        + ") LIKE lower("@) + seq!['\'']);
    assert("') || '%' ESCAPE '\\' THEN '0' ELSE '1' END"@ =~= seq!['\''] + ") || '%' ESCAPE '\\'"@ + (
    " THEN "@ + literal("0"@) + " ELSE "@ + literal("1"@) + " END"@));
    lemma_regroup_prefix(
        "CASE"@ + " WHEN "@,
        "lower("@ + "b.name"@ + ") LIKE lower("@,
        seq!['\''],
        w,
        ") || '%' ESCAPE '\\'"@,
        " THEN "@,
        literal("0"@),
        " ELSE "@,
        literal("1"@),
        " END"@,
    );
    assert(prefix_match(q) == case_sql(bs, Some("1"@)));
    assert(bs[0].0.is_sql());
    let value = |row: Row, l: Letters| passed(p.holds(row, l));
    assert forall|row: Row, l: Letters| case_value(bs, Some("1"@), 0, row, l) == #[trigger] value(
        row,
        l,
    ) by {}
    assert(has_value(prefix_match(q), value));
    assert forall|row: Row, l: Letters| keeps_pattern(l, q) implies #[trigger] value(row, l)
        == passed(starts_with(row, l, q)) by {
        if let Some(name) = row.at("b.name"@) {
            lemma_pattern_starts((l.lower)(name), (l.lower)(q), same_letter());
        }
    }
}

proof fn lemma_regroup_prefix(
    a: Seq<char>,
    b: Seq<char>,
    q: Seq<char>,
    e: Seq<char>,
    d: Seq<char>,
    t: Seq<char>,
    zero: Seq<char>,
    el: Seq<char>,
    one: Seq<char>,
    end: Seq<char>,
)
    ensures
        (a + b + q) + e + (q + d + (t + zero + el + one + end)) == (a + (b + (q + e + q) + d) + t
            + zero) + el + one + end,
{
    assert((a + b + q) + e + (q + d + (t + zero + el + one + end)) =~= (a + (b + (q + e + q) + d) + t
        + zero) + el + one + end);
}

/// The types in the order of the ranking. Any other type comes behind them.
pub open spec fn types_by_rank() -> Seq<Seq<char>> {
    seq![
        "model"@,
        "source"@,
        "metric"@,
        "exposure"@,
        "snapshot"@,
        "semantic_model"@,
        "seed"@,
        "saved_query"@,
        "test"@,
    ]
}

/// Some spaces.
pub open spec fn spaces(n: nat) -> Seq<char> {
    Seq::new(n, |i: int| ' ')
}

/// The text of the branches of the first `n` types: each type gives its place.
pub open spec fn places_sql(kinds: Seq<Seq<char>>, n: nat) -> Seq<char>
    decreases n,
{
    if n == 0 {
        Seq::empty()
    } else {
        places_sql(kinds, (n - 1) as nat) + "WHEN "@ + literal(kinds[n - 1]) + spaces(
            (14 - kinds[n - 1].len()) as nat,
        ) + " THEN "@ + literal(decimal((n - 1) as nat)) + " "@
    }
}

/// The fourth tier is the place of the type among the types of the ranking, and the number
/// of them for any other type.
#[verifier::spinoff_prover]
#[verifier::rlimit(80)]
pub proof fn lemma_types_are_ranked_by_place()
    ensures
        RESOURCE_RANK@ == "CASE b.resource_type "@ + places_sql(types_by_rank(), 9) + "ELSE "@
            + literal(decimal(types_by_rank().len())) + " END"@,
{
    let kinds = types_by_rank();
    reveal_strlit("CASE b.resource_type ");
    reveal_strlit("WHEN ");
    reveal_strlit(" THEN ");
    reveal_strlit(" ");
    reveal_strlit("ELSE ");
    reveal_strlit(" END");
    reveal_strlit("model");
    reveal_strlit("source");
    reveal_strlit("metric");
    reveal_strlit("exposure");
    reveal_strlit("snapshot");
    reveal_strlit("semantic_model");
    reveal_strlit("seed");
    reveal_strlit("saved_query");
    reveal_strlit("test");
    lemma_plain_literal(kinds[0]);
    lemma_plain_literal(kinds[1]);
    lemma_plain_literal(kinds[2]);
    lemma_plain_literal(kinds[3]);
    lemma_plain_literal(kinds[4]);
    lemma_plain_literal(kinds[5]);
    lemma_plain_literal(kinds[6]);
    lemma_plain_literal(kinds[7]);
    lemma_plain_literal(kinds[8]);
    reveal_with_fuel(decimal, 2);
    lemma_plain_literal(decimal(0));
    assert(decimal(0) =~= seq!['0']);
    lemma_plain_literal(decimal(1));
    assert(decimal(1) =~= seq!['1']);
    lemma_plain_literal(decimal(2));
    assert(decimal(2) =~= seq!['2']);
    lemma_plain_literal(decimal(3));
    assert(decimal(3) =~= seq!['3']);
    lemma_plain_literal(decimal(4));
    assert(decimal(4) =~= seq!['4']);
    lemma_plain_literal(decimal(5));
    assert(decimal(5) =~= seq!['5']);
    lemma_plain_literal(decimal(6));
    assert(decimal(6) =~= seq!['6']);
    lemma_plain_literal(decimal(7));
    assert(decimal(7) =~= seq!['7']);
    lemma_plain_literal(decimal(8));
    assert(decimal(8) =~= seq!['8']);
    lemma_plain_literal(decimal(9));
    assert(decimal(9) =~= seq!['9']);
    reveal_strlit("WHEN 'model'          THEN '0' ");
    assert(places_sql(kinds, 1) =~= "WHEN 'model'          THEN '0' "@) by {
        reveal_with_fuel(places_sql, 2);
    }
    reveal_strlit("WHEN 'model'          THEN '0' WHEN 'source'         THEN '1' ");
    assert(places_sql(kinds, 2) =~= "WHEN 'model'          THEN '0' WHEN 'source'         THEN '1' "@) by {
        reveal_with_fuel(places_sql, 2);
    }
    reveal_strlit("WHEN 'model'          THEN '0' WHEN 'source'         THEN '1' WHEN 'metric'         THEN '2' ");
    assert(places_sql(kinds, 3) =~= "WHEN 'model'          THEN '0' WHEN 'source'         THEN '1' WHEN 'metric'         THEN '2' "@) by {
        reveal_with_fuel(places_sql, 2);
    }
    reveal_strlit("WHEN 'model'          THEN '0' WHEN 'source'         THEN '1' WHEN 'metric'         THEN '2' WHEN 'exposure'       THEN '3' ");
    assert(places_sql(kinds, 4) =~= "WHEN 'model'          THEN '0' WHEN 'source'         THEN '1' WHEN 'metric'         THEN '2' WHEN 'exposure'       THEN '3' "@) by {
        reveal_with_fuel(places_sql, 2);
    }
    reveal_strlit("WHEN 'model'          THEN '0' WHEN 'source'         THEN '1' WHEN 'metric'         THEN '2' WHEN 'exposure'       THEN '3' WHEN 'snapshot'       THEN '4' ");
    assert(places_sql(kinds, 5) =~= "WHEN 'model'          THEN '0' WHEN 'source'         THEN '1' WHEN 'metric'         THEN '2' WHEN 'exposure'       THEN '3' WHEN 'snapshot'       THEN '4' "@) by {
        reveal_with_fuel(places_sql, 2);
    }
    reveal_strlit("WHEN 'model'          THEN '0' WHEN 'source'         THEN '1' WHEN 'metric'         THEN '2' WHEN 'exposure'       THEN '3' WHEN 'snapshot'       THEN '4' WHEN 'semantic_model' THEN '5' ");
    assert(places_sql(kinds, 6) =~= "WHEN 'model'          THEN '0' WHEN 'source'         THEN '1' WHEN 'metric'         THEN '2' WHEN 'exposure'       THEN '3' WHEN 'snapshot'       THEN '4' WHEN 'semantic_model' THEN '5' "@) by {
        reveal_with_fuel(places_sql, 2);
    }
    reveal_strlit("WHEN 'model'          THEN '0' WHEN 'source'         THEN '1' WHEN 'metric'         THEN '2' WHEN 'exposure'       THEN '3' WHEN 'snapshot'       THEN '4' WHEN 'semantic_model' THEN '5' WHEN 'seed'           THEN '6' ");
    assert(places_sql(kinds, 7) =~= "WHEN 'model'          THEN '0' WHEN 'source'         THEN '1' WHEN 'metric'         THEN '2' WHEN 'exposure'       THEN '3' WHEN 'snapshot'       THEN '4' WHEN 'semantic_model' THEN '5' WHEN 'seed'           THEN '6' "@) by {
        reveal_with_fuel(places_sql, 2);
    }
    reveal_strlit("WHEN 'model'          THEN '0' WHEN 'source'         THEN '1' WHEN 'metric'         THEN '2' WHEN 'exposure'       THEN '3' WHEN 'snapshot'       THEN '4' WHEN 'semantic_model' THEN '5' WHEN 'seed'           THEN '6' WHEN 'saved_query'    THEN '7' ");
    assert(places_sql(kinds, 8) =~= "WHEN 'model'          THEN '0' WHEN 'source'         THEN '1' WHEN 'metric'         THEN '2' WHEN 'exposure'       THEN '3' WHEN 'snapshot'       THEN '4' WHEN 'semantic_model' THEN '5' WHEN 'seed'           THEN '6' WHEN 'saved_query'    THEN '7' "@) by {
        reveal_with_fuel(places_sql, 2);
    }
    reveal_strlit("WHEN 'model'          THEN '0' WHEN 'source'         THEN '1' WHEN 'metric'         THEN '2' WHEN 'exposure'       THEN '3' WHEN 'snapshot'       THEN '4' WHEN 'semantic_model' THEN '5' WHEN 'seed'           THEN '6' WHEN 'saved_query'    THEN '7' WHEN 'test'           THEN '8' ");
    assert(places_sql(kinds, 9) =~= "WHEN 'model'          THEN '0' WHEN 'source'         THEN '1' WHEN 'metric'         THEN '2' WHEN 'exposure'       THEN '3' WHEN 'snapshot'       THEN '4' WHEN 'semantic_model' THEN '5' WHEN 'seed'           THEN '6' WHEN 'saved_query'    THEN '7' WHEN 'test'           THEN '8' "@) by {
        reveal_with_fuel(places_sql, 2);
    }
    reveal_strlit(
        "CASE b.resource_type \
       WHEN 'model'          THEN '0' \
       WHEN 'source'         THEN '1' \
       WHEN 'metric'         THEN '2' \
       WHEN 'exposure'       THEN '3' \
       WHEN 'snapshot'       THEN '4' \
       WHEN 'semantic_model' THEN '5' \
       WHEN 'seed'           THEN '6' \
       WHEN 'saved_query'    THEN '7' \
       WHEN 'test'           THEN '8' \
       ELSE '9' END",
    );
    assert(RESOURCE_RANK@ =~= "CASE b.resource_type "@ + "WHEN 'model'          THEN '0' WHEN 'source'         THEN '1' WHEN 'metric'         THEN '2' WHEN 'exposure'       THEN '3' WHEN 'snapshot'       THEN '4' WHEN 'semantic_model' THEN '5' WHEN 'seed'           THEN '6' WHEN 'saved_query'    THEN '7' WHEN 'test'           THEN '8' "@ + "ELSE "@ + literal(decimal(9)) + " END"@);
}

/// The fifth tier is 0 for marts, 1 for intermediate models, 2 for staging models and 3
/// for anything else.
#[verifier::spinoff_prover]
#[verifier::rlimit(40)]
pub proof fn lemma_marts_come_first()
    ensures
        has_value(
            layer_rank(),
            |row: Row, l: Letters|
                {
                    let column = "b.original_file_path"@;
                    if row_in_layer(row, l, column, "Marts"@) {
                        Some("0"@)
                    } else if row_in_layer(row, l, column, "Intermediate"@) {
                        Some("1"@)
                    } else if row_in_layer(row, l, column, "Staging"@) {
                        Some("2"@)
                    } else {
                        Some("3"@)
                    }
                },
        ),
{
    let column = "b.original_file_path"@;
    let bs = seq![
        (layer_pred(column, "Marts"@), "0"@),
        (layer_pred(column, "Intermediate"@), "1"@),
        (layer_pred(column, "Staging"@), "2"@),
    ];
    lemma_search_layers();
    reveal_with_fuel(branches_sql, 4);
    reveal_with_fuel(case_value, 4);
    reveal_strlit("0");
    reveal_strlit("1");
    reveal_strlit("2");
    reveal_strlit("3");
    reveal_strlit("CASE WHEN ");
    reveal_strlit(" THEN '0' WHEN ");
    reveal_strlit(" THEN '1' WHEN ");
    reveal_strlit(" THEN '2' ELSE '3' END");
    reveal_strlit("CASE");
    reveal_strlit(" WHEN ");
    reveal_strlit(" THEN ");
    reveal_strlit(" ELSE ");
    reveal_strlit(" END");
    lemma_plain_literal("0"@);
    lemma_plain_literal("1"@);
    lemma_plain_literal("2"@);
    lemma_plain_literal("3"@);
    assert("CASE WHEN "@ =~= "CASE"@ + " WHEN "@);
    assert(" THEN '0' WHEN "@ =~= " THEN "@ + literal("0"@) + " WHEN "@);
    assert(" THEN '1' WHEN "@ =~= " THEN "@ + literal("1"@) + " WHEN "@);
    assert(" THEN '2' ELSE '3' END"@ =~= " THEN "@ + literal("2"@) + " ELSE "@ + literal("3"@)
        + " END"@);
    let (a, b, c) = (bs[0].0.sql(), bs[1].0.sql(), bs[2].0.sql());
    lemma_regroup_layers(
        "CASE"@,
        " WHEN "@,
        " THEN "@,
        a,
        literal("0"@),
        b,
        literal("1"@),
        c,
        literal("2"@),
        " ELSE "@,
        literal("3"@),
        " END"@,
    );
    assert(layer_rank() == case_sql(bs, Some("3"@)));
    assert forall|i: int| 0 <= i < bs.len() implies (#[trigger] bs[i]).0.is_sql() by {
        lemma_layer_pred_holds(column, "Marts"@, arbitrary(), arbitrary());
        lemma_layer_pred_holds(column, "Intermediate"@, arbitrary(), arbitrary());
        lemma_layer_pred_holds(column, "Staging"@, arbitrary(), arbitrary());
    }
    let value = |row: Row, l: Letters|
        {
            let column = "b.original_file_path"@;
            if row_in_layer(row, l, column, "Marts"@) {
                Some("0"@)
            } else if row_in_layer(row, l, column, "Intermediate"@) {
                Some("1"@)
            } else if row_in_layer(row, l, column, "Staging"@) {
                Some("2"@)
            } else {
                Some("3"@)
            }
        };
    assert forall|row: Row, l: Letters| case_value(bs, Some("3"@), 0, row, l) == #[trigger] value(
        row,
        l,
    ) by {
        lemma_layer_pred_holds(column, "Marts"@, row, l);
        lemma_layer_pred_holds(column, "Intermediate"@, row, l);
        lemma_layer_pred_holds(column, "Staging"@, row, l);
    }
}

proof fn lemma_regroup_layers(
    k: Seq<char>,
    w: Seq<char>,
    t: Seq<char>,
    a: Seq<char>,
    a0: Seq<char>,
    b: Seq<char>,
    b0: Seq<char>,
    c: Seq<char>,
    c0: Seq<char>,
    e: Seq<char>,
    x: Seq<char>,
    end: Seq<char>,
)
    ensures
        (k + w) + a + (t + a0 + w) + b + (t + b0 + w) + c + (t + c0 + e + x + end) == k + w + a + t
            + a0 + w + b + t + b0 + w + c + t + c0 + e + x + end,
{
    assert((k + w) + a + (t + a0 + w) + b + (t + b0 + w) + c + (t + c0 + e + x + end) =~= k + w + a + t
        + a0 + w + b + t + b0 + w + c + t + c0 + e + x + end);
}

// ---------------------------------------------------------------------------
// The key
// ---------------------------------------------------------------------------

/// A digit of the key.
pub open spec fn digit_sql(expr: Seq<char>) -> Seq<char> {
    "LPAD(CAST(("@ + expr + ") AS VARCHAR), "@ + "1"@ + ", '0')"@
}

/// The key of a search has a digit for each tier, from the strongest to the weakest: the
/// exact name, the start of the name, the field that matched, the type and the layer;
/// and behind them the name.
pub proof fn lemma_key_has_its_tiers_in_order(q: Seq<char>)
    ensures
        ranking_key(q) == "CASE WHEN b.name IS NULL THEN '"@ + NAMELESS_KEY@ + "' ELSE "@ + (
        digit_sql(exact_match(q)) + "\n          || "@ + digit_sql(prefix_match(q))
            + "\n          || "@ + digit_sql("w.match_priority"@) + "\n          || "@ + digit_sql(
            RESOURCE_RANK@,
        ) + "\n          || "@ + digit_sql(layer_rank()) + "\n          || "@ + ("("@ + "b.name"@
            + ")"@)) + " END"@,
{
    let tiers = ranking_tiers(q);
    assert(tiers.len() == 6);
    let parts = Seq::new(tiers.len(), |i: int| tier_sql(tiers[i].0, tiers[i].1));
    reveal_with_fuel(decimal, 2);
    reveal_strlit("1");
    assert(decimal(1) =~= "1"@);
    assert(parts[0] == digit_sql(exact_match(q)));
    assert(parts[1] == digit_sql(prefix_match(q)));
    assert(parts[2] == digit_sql("w.match_priority"@));
    assert(parts[3] == digit_sql(RESOURCE_RANK@));
    assert(parts[4] == digit_sql(layer_rank()));
    assert(parts[5] == "("@ + "b.name"@ + ")"@);
    reveal_with_fuel(joined, 7);
    let p5 = parts.drop_last();
    let p4 = p5.drop_last();
    let p3 = p4.drop_last();
    let p2 = p3.drop_last();
    let p1 = p2.drop_last();
    assert(p1.len() == 1 && p1[0] == parts[0]);
    assert(p2.last() == parts[1] && p3.last() == parts[2] && p4.last() == parts[3] && p5.last()
        == parts[4]);
}

/// Of two rows the one comes first whose name is the query; of two such, or two others,
/// the one whose name starts with it; then the one that matched in the stronger field, of
/// the stronger type, in the stronger layer, and at last the one with the lesser name.
pub proof fn lemma_ranking_is_by_tier(
    a: RankedRow,
    a_name: Seq<char>,
    b: RankedRow,
    b_name: Seq<char>,
)
    requires
        a.name == Some(a_name),
        b.name == Some(b_name),
        is_ranked(a),
        is_ranked(b),
    ensures
        precedes(row_key(a), row_key(b)) == (if a.exact != b.exact {
            a.exact
        } else if a.prefix != b.prefix {
            a.prefix
        } else if a.priority != b.priority {
            a.priority < b.priority
        } else if a.resource != b.resource {
            a.resource < b.resource
        } else if a.layer != b.layer {
            a.layer < b.layer
        } else {
            precedes(a_name, b_name)
        }),
{
    lemma_ranking_orders_rows(a, a_name, b, b_name);
    let tiers = rank_tiers();
    let x = ranks(tiers, a);
    let y = ranks(tiers, b);
    reveal_with_fuel(ranks_before, 7);
    assert(x.len() == 5 && y.len() == 5);
    assert(x.skip(1)[0] == x[1] && x.skip(1).skip(1)[0] == x[2] && x.skip(1).skip(1).skip(1)[0]
        == x[3] && x.skip(1).skip(1).skip(1).skip(1)[0] == x[4]);
    assert(y.skip(1)[0] == y[1] && y.skip(1).skip(1)[0] == y[2] && y.skip(1).skip(1).skip(1)[0]
        == y[3] && y.skip(1).skip(1).skip(1).skip(1)[0] == y[4]);
}

} // verus!
