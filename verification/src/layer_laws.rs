//! What the conditions on the path of a model mean: which modeling layer it is in.
use crate::meaning::{
    either, has_shape, lemma_like_has_shape, lemma_like_starts, lemma_plain_literal, no_gap,
    shape_at, Expr, Letters, Pred, Row,
};
use vstd::prelude::*;

verus! {

/// Whether a path in lower case leads through a directory.
pub open spec fn leads_through(path: Seq<char>, dir: Seq<char>) -> bool {
    has_shape(path, "/"@ + dir + "/"@) || shape_at(path, dir + "/"@, 0)
}

/// Whether a name in a path in lower case starts with letters and has a character behind
/// them.
pub open spec fn has_name(path: Seq<char>, letters: Seq<char>) -> bool {
    has_shape(path, "/"@ + letters + "_"@)
}

/// Whether a path in lower case is that of a model of a layer: staging models stand in a
/// directory `staging` or are called `stg_..`, intermediate models in `intermediate` or
/// `int_..`, marts in `marts` or `dim_..` or `fct_..`.
pub open spec fn is_in_layer(path: Seq<char>, layer: Seq<char>) -> bool {
    ||| layer == "Staging"@ && (leads_through(path, "staging"@) || has_name(path, "stg"@))
    ||| layer == "Intermediate"@ && (leads_through(path, "intermediate"@) || has_name(path, "int"@))
    ||| layer == "Marts"@ && (leads_through(path, "marts"@) || has_name(path, "dim"@) || has_name(
        path,
        "fct"@,
    ))
}

/// Whether a row is in a layer, by the column of its path.
pub open spec fn row_in_layer(
    row: Row,
    l: Letters,
    column: Seq<char>,
    layer: Seq<char>,
) -> bool {
    row.at(column) matches Some(path) && is_in_layer((l.lower)(path), layer)
}

spec fn like(column: Seq<char>, p: Seq<char>) -> Pred {
    Pred::Like(Expr::Lower(Box::new(Expr::Of(column))), p)
}

/// The condition on the path of a model of a layer.
pub closed spec fn layer_pred(column: Seq<char>, layer: Seq<char>) -> Pred {
    if layer == "Staging"@ {
        either(
            either(like(column, "%/staging/%"@), like(column, "%/stg_%"@)),
            like(column, "staging/%"@),
        )
    } else if layer == "Intermediate"@ {
        either(
            either(like(column, "%/intermediate/%"@), like(column, "%/int_%"@)),
            like(column, "intermediate/%"@),
        )
    } else {
        either(
            either(
                either(like(column, "%/marts/%"@), like(column, "%/dim_%"@)),
                like(column, "%/fct_%"@),
            ),
            like(column, "marts/%"@),
        )
    }
}

proof fn lemma_infix(t: Seq<char>, p: Seq<char>, shape: Seq<char>)
    requires
        p == seq!['%'] + shape + seq!['%'],
        no_gap(shape),
    ensures
        crate::meaning::fits(
            t,
            crate::meaning::elements(p, false),
            crate::meaning::same_letter(),
        ) == has_shape(t, shape),
{
    lemma_like_has_shape(t, shape);
}

proof fn lemma_prefix(t: Seq<char>, p: Seq<char>, shape: Seq<char>)
    requires
        p == shape + seq!['%'],
        no_gap(shape),
    ensures
        crate::meaning::fits(
            t,
            crate::meaning::elements(p, false),
            crate::meaning::same_letter(),
        ) == shape_at(t, shape, 0),
{
    lemma_like_starts(t, shape);
}

#[verifier::spinoff_prover]
#[verifier::rlimit(40)]
proof fn lemma_shapes()
    ensures
        "%/staging/%"@ == seq!['%'] + ("/"@ + "staging"@ + "/"@) + seq!['%'],
        "%/stg_%"@ == seq!['%'] + ("/"@ + "stg"@ + "_"@) + seq!['%'],
        "staging/%"@ == ("staging"@ + "/"@) + seq!['%'],
        "%/intermediate/%"@ == seq!['%'] + ("/"@ + "intermediate"@ + "/"@) + seq!['%'],
        "%/int_%"@ == seq!['%'] + ("/"@ + "int"@ + "_"@) + seq!['%'],
        "intermediate/%"@ == ("intermediate"@ + "/"@) + seq!['%'],
        "%/marts/%"@ == seq!['%'] + ("/"@ + "marts"@ + "/"@) + seq!['%'],
        "%/dim_%"@ == seq!['%'] + ("/"@ + "dim"@ + "_"@) + seq!['%'],
        "%/fct_%"@ == seq!['%'] + ("/"@ + "fct"@ + "_"@) + seq!['%'],
        "marts/%"@ == ("marts"@ + "/"@) + seq!['%'],
        no_gap("/"@ + "staging"@ + "/"@),
        no_gap("/"@ + "stg"@ + "_"@),
        no_gap("staging"@ + "/"@),
        no_gap("/"@ + "intermediate"@ + "/"@),
        no_gap("/"@ + "int"@ + "_"@),
        no_gap("intermediate"@ + "/"@),
        no_gap("/"@ + "marts"@ + "/"@),
        no_gap("/"@ + "dim"@ + "_"@),
        no_gap("/"@ + "fct"@ + "_"@),
        no_gap("marts"@ + "/"@),
{
    reveal_strlit("%/staging/%");
    reveal_strlit("%/stg_%");
    reveal_strlit("staging/%");
    reveal_strlit("%/intermediate/%");
    reveal_strlit("%/int_%");
    reveal_strlit("intermediate/%");
    reveal_strlit("%/marts/%");
    reveal_strlit("%/dim_%");
    reveal_strlit("%/fct_%");
    reveal_strlit("marts/%");
    reveal_strlit("/");
    reveal_strlit("_");
    reveal_strlit("staging");
    reveal_strlit("stg");
    reveal_strlit("intermediate");
    reveal_strlit("int");
    reveal_strlit("marts");
    reveal_strlit("dim");
    reveal_strlit("fct");
}

proof fn lemma_layer_names()
    ensures
        "Staging"@ != "Intermediate"@,
        "Staging"@ != "Marts"@,
        "Intermediate"@ != "Marts"@,
{
    reveal_strlit("Staging");
    reveal_strlit("Intermediate");
    reveal_strlit("Marts");
    assert("Staging"@.len() == 7 && "Intermediate"@.len() == 12 && "Marts"@.len() == 5);
}

/// The condition of a layer is true of the models of the layer.
pub proof fn lemma_layer_pred_holds(column: Seq<char>, layer: Seq<char>, row: Row, l: Letters)
    requires
        layer == "Staging"@ || layer == "Intermediate"@ || layer == "Marts"@,
    ensures
        layer_pred(column, layer).holds(row, l) == row_in_layer(row, l, column, layer),
        layer_pred(column, layer).is_sql(),
{
    reveal_with_fuel(Pred::holds, 5);
    reveal_with_fuel(Pred::is_sql, 5);
    reveal_with_fuel(Expr::eval, 3);
    lemma_shapes();
    lemma_layer_names();
    if let Some(path) = row.at(column) {
        let t = (l.lower)(path);
        lemma_infix(t, "%/staging/%"@, "/"@ + "staging"@ + "/"@);
        lemma_infix(t, "%/stg_%"@, "/"@ + "stg"@ + "_"@);
        lemma_prefix(t, "staging/%"@, "staging"@ + "/"@);
        lemma_infix(t, "%/intermediate/%"@, "/"@ + "intermediate"@ + "/"@);
        lemma_infix(t, "%/int_%"@, "/"@ + "int"@ + "_"@);
        lemma_prefix(t, "intermediate/%"@, "intermediate"@ + "/"@);
        lemma_infix(t, "%/marts/%"@, "/"@ + "marts"@ + "/"@);
        lemma_infix(t, "%/dim_%"@, "/"@ + "dim"@ + "_"@);
        lemma_infix(t, "%/fct_%"@, "/"@ + "fct"@ + "_"@);
        lemma_prefix(t, "marts/%"@, "marts"@ + "/"@);
    }
}

proof fn lemma_like_sql(column: Seq<char>, p: Seq<char>)
    requires
        forall|i: int| 0 <= i < p.len() ==> #[trigger] p[i] != '\'',
    ensures
        like(column, p).sql() == "lower("@ + column + ")"@ + " LIKE "@ + (seq!['\''] + p + seq![
            '\'',
        ]),
{
    reveal_with_fuel(Pred::sql, 2);
    reveal_with_fuel(Expr::sql, 3);
    lemma_plain_literal(p);
}

#[verifier::spinoff_prover]
#[verifier::rlimit(40)]
proof fn lemma_layer_sqls(column: Seq<char>)
    ensures
        ({
            let path = "lower("@ + column + ")"@ + " LIKE "@;
            let q = seq!['\''];
            &&& layer_pred(column, "Staging"@).sql() == path + (q + "%/staging/%"@ + q) + " OR "@ + (path + (q
                + "%/stg_%"@ + q)) + " OR "@ + (path + (q + "staging/%"@ + q))
            &&& layer_pred(column, "Intermediate"@).sql() == path + (q + "%/intermediate/%"@ + q) + " OR "@ + (
            path + (q + "%/int_%"@ + q)) + " OR "@ + (path + (q + "intermediate/%"@ + q))
            &&& layer_pred(column, "Marts"@).sql() == path + (q + "%/marts/%"@ + q) + " OR "@ + (path + (q
                + "%/dim_%"@ + q)) + " OR "@ + (path + (q + "%/fct_%"@ + q)) + " OR "@ + (path + (q
                + "marts/%"@ + q))
        }),
{
    reveal_with_fuel(Pred::sql, 4);
    lemma_layer_names();
    reveal_strlit("%/staging/%");
    reveal_strlit("%/stg_%");
    reveal_strlit("staging/%");
    reveal_strlit("%/intermediate/%");
    reveal_strlit("%/int_%");
    reveal_strlit("intermediate/%");
    reveal_strlit("%/marts/%");
    reveal_strlit("%/dim_%");
    reveal_strlit("%/fct_%");
    reveal_strlit("marts/%");
    lemma_like_sql(column, "%/staging/%"@);
    lemma_like_sql(column, "%/stg_%"@);
    lemma_like_sql(column, "staging/%"@);
    lemma_like_sql(column, "%/intermediate/%"@);
    lemma_like_sql(column, "%/int_%"@);
    lemma_like_sql(column, "intermediate/%"@);
    lemma_like_sql(column, "%/marts/%"@);
    lemma_like_sql(column, "%/dim_%"@);
    lemma_like_sql(column, "%/fct_%"@);
    lemma_like_sql(column, "marts/%"@);
}

/// The conditions of the layers of the list of models are those on `n.original_file_path`.
#[verifier::spinoff_prover]
#[verifier::rlimit(40)]
pub proof fn lemma_model_layers()
    ensures
        crate::models::STAGING_CONDITION@ == layer_pred("n.original_file_path"@, "Staging"@).sql(),
        crate::models::INTERMEDIATE_CONDITION@ == layer_pred(
            "n.original_file_path"@,
            "Intermediate"@,
        ).sql(),
        crate::models::MARTS_CONDITION@ == layer_pred("n.original_file_path"@, "Marts"@).sql(),
{
    lemma_layer_sqls("n.original_file_path"@);
    reveal_strlit("%/staging/%");
    reveal_strlit("%/stg_%");
    reveal_strlit("staging/%");
    reveal_strlit("%/intermediate/%");
    reveal_strlit("%/int_%");
    reveal_strlit("intermediate/%");
    reveal_strlit("%/marts/%");
    reveal_strlit("%/dim_%");
    reveal_strlit("%/fct_%");
    reveal_strlit("marts/%");
    reveal_strlit("n.original_file_path");
    reveal_strlit("lower(");
    reveal_strlit(")");
    reveal_strlit(" LIKE ");
    reveal_strlit(" OR ");
    reveal_strlit(
        "lower(n.original_file_path) LIKE '%/staging/%' \
     OR lower(n.original_file_path) LIKE '%/stg_%' \
     OR lower(n.original_file_path) LIKE 'staging/%'",
    );
    reveal_strlit(
        "lower(n.original_file_path) LIKE '%/intermediate/%' \
     OR lower(n.original_file_path) LIKE '%/int_%' \
     OR lower(n.original_file_path) LIKE 'intermediate/%'",
    );
    reveal_strlit(
        "lower(n.original_file_path) LIKE '%/marts/%' \
     OR lower(n.original_file_path) LIKE '%/dim_%' \
     OR lower(n.original_file_path) LIKE '%/fct_%' \
     OR lower(n.original_file_path) LIKE 'marts/%'",
    );
}

/// The conditions of the layers of a search are those on `b.original_file_path`.
#[verifier::spinoff_prover]
#[verifier::rlimit(40)]
pub proof fn lemma_search_layers()
    ensures
        crate::search_sql::STAGING_CONDITION@ == layer_pred("b.original_file_path"@, "Staging"@).sql(),
        crate::search_sql::INTERMEDIATE_CONDITION@ == layer_pred(
            "b.original_file_path"@,
            "Intermediate"@,
        ).sql(),
        crate::search_sql::MARTS_CONDITION@ == layer_pred("b.original_file_path"@, "Marts"@).sql(),
{
    lemma_layer_sqls("b.original_file_path"@);
    reveal_strlit("%/staging/%");
    reveal_strlit("%/stg_%");
    reveal_strlit("staging/%");
    reveal_strlit("%/intermediate/%");
    reveal_strlit("%/int_%");
    reveal_strlit("intermediate/%");
    reveal_strlit("%/marts/%");
    reveal_strlit("%/dim_%");
    reveal_strlit("%/fct_%");
    reveal_strlit("marts/%");
    reveal_strlit("b.original_file_path");
    reveal_strlit("lower(");
    reveal_strlit(")");
    reveal_strlit(" LIKE ");
    reveal_strlit(" OR ");
    reveal_strlit(
        "lower(b.original_file_path) LIKE '%/staging/%' \
     OR lower(b.original_file_path) LIKE '%/stg_%' \
     OR lower(b.original_file_path) LIKE 'staging/%'",
    );
    reveal_strlit(
        "lower(b.original_file_path) LIKE '%/intermediate/%' \
     OR lower(b.original_file_path) LIKE '%/int_%' \
     OR lower(b.original_file_path) LIKE 'intermediate/%'",
    );
    reveal_strlit(
        "lower(b.original_file_path) LIKE '%/marts/%' \
     OR lower(b.original_file_path) LIKE '%/dim_%' \
     OR lower(b.original_file_path) LIKE '%/fct_%' \
     OR lower(b.original_file_path) LIKE 'marts/%'",
    );
}

} // verus!
