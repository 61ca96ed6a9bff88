//! What the filters of a search mean.
use crate::layer_laws::{layer_pred, lemma_layer_pred_holds, lemma_search_layers, row_in_layer};
use crate::meaning::{
    all_of, any_of, grouped, is_one_of, lemma_all_of, lemma_any_of, lemma_quoted_is_literal,
    lemma_quoted_list_is_literals, literal, literals, sqls, Expr, Letters, Pred, Row,
};
use crate::search_sql::{
    filter_clause, filter_conditions, layer_condition, layers_sql, package_sql, tag_condition,
    tag_sql, unknown_layer, SearchQueryParams,
};
use crate::sql::{escaped, quoted_list};
use crate::text::{csv, given_text};
use vstd::prelude::*;

verus! {

/// Whether a resource has a tag, but for the case of letters.
pub open spec fn has_tag(row: Row, l: Letters, tag: Seq<char>) -> bool {
    row.list("b.tags"@) matches Some(tags) && exists|k: int|
        0 <= k < tags.len() && (l.lower)(#[trigger] tags[k]) == (l.lower)(tag)
}

/// Whether a resource of the base table `b` is one that the filters ask for: of one of the
/// packages, with one of the tags, in one of the layers and of one of the
/// materializations, as far as they are given. A list of materializations without any asks
/// for all.
pub open spec fn is_searched(params: SearchQueryParams, row: Row, l: Letters) -> bool {
    &&& given_text(params.package) matches Some(raw) ==> is_one_of(
        row.at("b.package_name"@),
        csv(raw),
    )
    &&& given_text(params.tag) matches Some(raw) ==> exists|i: int|
        0 <= i < csv(raw).len() && has_tag(row, l, #[trigger] csv(raw)[i])
    &&& given_text(params.modeling_layer) matches Some(raw) ==> exists|i: int|
        0 <= i < csv(raw).len() && row_in_layer(
            row,
            l,
            "b.original_file_path"@,
            #[trigger] csv(raw)[i],
        )
    &&& given_text(params.materialization) matches Some(raw) ==> csv(raw).len() > 0 ==> is_one_of(
        row.at("b.materialized"@),
        csv(raw),
    )
}

/// Whether a filter that is given has an item. A list of packages, tags or layers without
/// any has no meaning.
pub open spec fn is_filled(raw: Option<Seq<char>>) -> bool {
    raw matches Some(raw) ==> csv(raw).len() > 0
}

/// Whether a clause lets exactly the given rows through. No clause lets all through.
pub open spec fn lets_through(clause: Seq<char>, rows: spec_fn(Row, Letters) -> bool) -> bool {
    if clause.len() == 0 {
        forall|row: Row, l: Letters| #[trigger] rows(row, l)
    } else {
        exists|p: Pred|
            p.is_factor() && clause == "WHERE "@ + #[trigger] p.sql() && forall|
                row: Row,
                l: Letters,
            |
                p.holds(row, l) == #[trigger] rows(row, l)
    }
}

spec fn tag_pred(tag: Seq<char>) -> Pred {
    Pred::AnyItem(
        "b.tags"@,
        Box::new(
            Pred::Equal(
                Expr::Lower(Box::new(Expr::Of("x"@))),
                Expr::Lower(Box::new(Expr::Text(tag))),
            ),
        ),
    )
}

#[verifier::spinoff_prover]
#[verifier::rlimit(40)]
proof fn lemma_tag_sql(tag: Seq<char>)
    ensures
        tag_condition(tag) == tag_pred(tag).sql(),
        tag_pred(tag).is_factor(),
{
    reveal_with_fuel(Pred::sql, 3);
    reveal_with_fuel(Pred::is_sql, 3);
    reveal_with_fuel(Expr::sql, 3);
    lemma_quoted_is_literal(tag);
    reveal_strlit("len(list_filter(b.tags, x -> lower(x) = lower('");
    reveal_strlit("'))) > 0");
    reveal_strlit("len(list_filter(");
    reveal_strlit("b.tags");
    reveal_strlit(", x -> ");
    reveal_strlit(")) > 0");
    reveal_strlit("lower(");
    reveal_strlit("x");
    reveal_strlit(")");
    reveal_strlit(" = ");
    assert(tag_pred(tag).sql() == "len(list_filter("@ + "b.tags"@ + ", x -> "@ + ("lower("@ + "x"@
        + ")"@ + " = "@ + ("lower("@ + literal(tag) + ")"@)) + ")) > 0"@);
    assert("len(list_filter(b.tags, x -> lower(x) = lower('"@ =~= "len(list_filter("@ + "b.tags"@
        + ", x -> "@ + ("lower("@ + "x"@ + ")"@ + " = "@ + "lower("@) + seq!['\'']);
    assert("'))) > 0"@ =~= seq!['\''] + ")"@ + ")) > 0"@);
    lemma_regroup_tag(
        "len(list_filter("@ + "b.tags"@ + ", x -> "@,
        "lower("@ + "x"@ + ")"@ + " = "@,
        "lower("@,
        seq!['\''],
        escaped(tag),
        ")"@,
        ")) > 0"@,
    );
}

proof fn lemma_regroup_tag(
    a: Seq<char>,
    b: Seq<char>,
    c: Seq<char>,
    q: Seq<char>,
    e: Seq<char>,
    d: Seq<char>,
    f: Seq<char>,
)
    ensures
        a + (b + c) + q + e + (q + d + f) == a + (b + (c + (q + e + q) + d)) + f,
{
    assert(a + (b + c) + q + e + (q + d + f) =~= a + (b + (c + (q + e + q) + d)) + f);
}

proof fn lemma_tag_holds(tag: Seq<char>, row: Row, l: Letters)
    ensures
        tag_pred(tag).holds(row, l) == has_tag(row, l, tag),
{
    reveal_with_fuel(Pred::holds, 3);
    reveal_with_fuel(Expr::eval, 3);
    let inner = Pred::Equal(
        Expr::Lower(Box::new(Expr::Of("x"@))),
        Expr::Lower(Box::new(Expr::Text(tag))),
    );
    assert forall|item: Seq<char>| #[trigger]
        inner.holds(row.with_item(item), l) == ((l.lower)(item) == (l.lower)(tag)) by {
        assert(row.with_item(item).at("x"@) == Some(item));
    }
    if let Some(tags) = row.list("b.tags"@) {
        if has_tag(row, l, tag) {
            let k = choose|k: int|
                0 <= k < tags.len() && (l.lower)(#[trigger] tags[k]) == (l.lower)(tag);
            assert(inner.holds(row.with_item(tags[k]), l));
        }
    }
}

spec fn tags_pred(tags: Seq<Seq<char>>) -> Pred {
    if tags.len() == 1 {
        tag_pred(tags[0])
    } else {
        grouped(any_of(Seq::new(tags.len(), |i: int| grouped(tag_pred(tags[i])))))
    }
}

proof fn lemma_tags(raw: Seq<char>, row: Row, l: Letters)
    requires
        csv(raw).len() > 0,
    ensures
        tag_sql(raw) == tags_pred(csv(raw)).sql(),
        tags_pred(csv(raw)).is_factor(),
        tags_pred(csv(raw)).holds(row, l) <==> exists|i: int|
            0 <= i < csv(raw).len() && has_tag(row, l, #[trigger] csv(raw)[i]),
{
    let tags = csv(raw);
    let ps = Seq::new(tags.len(), |i: int| grouped(tag_pred(tags[i])));
    assert forall|i: int| 0 <= i < tags.len() implies (#[trigger] ps[i]).is_sql() && ps[i].sql()
        == "("@ + tag_condition(tags[i]) + ")"@ && ps[i].holds(row, l) == has_tag(
        row,
        l,
        tags[i],
    ) by {
        lemma_tag_sql(tags[i]);
        lemma_tag_holds(tags[i], row, l);
    }
    lemma_tag_sql(tags[0]);
    lemma_tag_holds(tags[0], row, l);
    lemma_any_of(ps, row, l);
    assert(sqls(ps) =~= Seq::new(tags.len(), |i: int| "("@ + tag_condition(tags[i]) + ")"@));
    if exists|i: int| 0 <= i < ps.len() && (#[trigger] ps[i]).holds(row, l) {
        let i = choose|i: int| 0 <= i < ps.len() && (#[trigger] ps[i]).holds(row, l);
        assert(has_tag(row, l, tags[i]));
    }
    if exists|i: int| 0 <= i < tags.len() && has_tag(row, l, #[trigger] tags[i]) {
        let i = choose|i: int| 0 <= i < tags.len() && has_tag(row, l, #[trigger] tags[i]);
        assert(ps[i].holds(row, l));
    }
}

proof fn lemma_known_layer(names: Seq<Seq<char>>, i: int)
    requires
        unknown_layer(names) is None,
        0 <= i < names.len(),
    ensures
        layer_condition(names[i]) is Some,
    decreases names.len(),
{
    if i > 0 {
        lemma_known_layer(names.skip(1), i - 1);
        assert(names.skip(1)[i - 1] == names[i]);
    }
}

spec fn layers_pred(names: Seq<Seq<char>>) -> Seq<Pred> {
    Seq::new(names.len(), |i: int| grouped(layer_pred("b.original_file_path"@, names[i])))
}

proof fn lemma_layers(names: Seq<Seq<char>>, row: Row, l: Letters)
    requires
        unknown_layer(names) is None,
        names.len() > 0,
    ensures
        "("@ + layers_sql(names) + ")"@ == grouped(any_of(layers_pred(names))).sql(),
        grouped(any_of(layers_pred(names))).is_factor(),
        grouped(any_of(layers_pred(names))).holds(row, l) <==> exists|i: int|
            0 <= i < names.len() && row_in_layer(
                row,
                l,
                "b.original_file_path"@,
                #[trigger] names[i],
            ),
{
    let column = "b.original_file_path"@;
    let ps = layers_pred(names);
    assert forall|i: int| 0 <= i < ps.len() implies (#[trigger] ps[i]).is_sql() && ps[i].sql()
        == "("@ + layer_condition(names[i])->0 + ")"@ && ps[i].holds(row, l) == row_in_layer(
        row,
        l,
        column,
        names[i],
    ) by {
        lemma_known_layer(names, i);
        lemma_search_layers();
        lemma_layer_pred_holds(column, names[i], row, l);
        assert(ps[i] == grouped(layer_pred(column, names[i])));
    }
    lemma_any_of(ps, row, l);
    assert(sqls(ps) =~= Seq::new(names.len(), |i: int| "("@ + layer_condition(names[i])->0 + ")"@));
    if exists|i: int| 0 <= i < ps.len() && (#[trigger] ps[i]).holds(row, l) {
        let i = choose|i: int| 0 <= i < ps.len() && (#[trigger] ps[i]).holds(row, l);
        assert(row_in_layer(row, l, column, names[i]));
    }
    if exists|i: int| 0 <= i < names.len() && row_in_layer(row, l, column, #[trigger] names[i]) {
        let i = choose|i: int|
            0 <= i < names.len() && row_in_layer(row, l, column, #[trigger] names[i]);
        assert(ps[i].holds(row, l));
    }
}

proof fn lemma_one_of(column: Seq<char>, head: Seq<char>, items: Seq<Seq<char>>)
    requires
        head == column + " IN ("@,
        items.len() > 0,
    ensures
        head + quoted_list(items) + ")"@ == Pred::OneOf(Expr::Of(column), items).sql(),
        Pred::OneOf(Expr::Of(column), items).is_factor(),
{
    lemma_quoted_list_is_literals(items);
    assert(Expr::Of(column).sql() == column);
    assert(Pred::OneOf(Expr::Of(column), items).sql() == column + " IN ("@ + literals(items)
        + ")"@);
}

spec fn pred_if(p: Option<Pred>) -> Seq<Pred> {
    match p {
        Some(p) => seq![p],
        None => Seq::empty(),
    }
}

spec fn package_part(params: SearchQueryParams) -> Option<Pred> {
    match given_text(params.package) {
        Some(raw) => Some(Pred::OneOf(Expr::Of("b.package_name"@), csv(raw))),
        None => None,
    }
}

spec fn tag_part(params: SearchQueryParams) -> Option<Pred> {
    match given_text(params.tag) {
        Some(raw) => Some(tags_pred(csv(raw))),
        None => None,
    }
}

spec fn layer_part(params: SearchQueryParams) -> Option<Pred> {
    match given_text(params.modeling_layer) {
        Some(raw) => Some(grouped(any_of(layers_pred(csv(raw))))),
        None => None,
    }
}

spec fn materialization_part(params: SearchQueryParams) -> Option<Pred> {
    match given_text(params.materialization) {
        Some(raw) => if csv(raw).len() > 0 {
            Some(Pred::OneOf(Expr::Of("b.materialized"@), csv(raw)))
        } else {
            None
        },
        None => None,
    }
}

spec fn parts(params: SearchQueryParams) -> Seq<Pred> {
    pred_if(package_part(params)) + pred_if(tag_part(params)) + pred_if(layer_part(params)) + pred_if(
        materialization_part(params),
    )
}

spec fn opt_holds(p: Option<Pred>, row: Row, l: Letters) -> bool {
    p matches Some(p) ==> p.holds(row, l)
}

proof fn lemma_parts_hold(params: SearchQueryParams, row: Row, l: Letters)
    ensures
        (forall|i: int| 0 <= i < parts(params).len() ==> (#[trigger] parts(params)[i]).holds(row, l))
            <==> (opt_holds(package_part(params), row, l) && opt_holds(tag_part(params), row, l)
            && opt_holds(layer_part(params), row, l) && opt_holds(
            materialization_part(params),
            row,
            l,
        )),
{
    let (a, b, c, d) = (
        pred_if(package_part(params)),
        pred_if(tag_part(params)),
        pred_if(layer_part(params)),
        pred_if(materialization_part(params)),
    );
    let ps = parts(params);
    if forall|i: int| 0 <= i < ps.len() ==> (#[trigger] ps[i]).holds(row, l) {
        if a.len() > 0 {
            assert(ps[0].holds(row, l));
        }
        if b.len() > 0 {
            assert(ps[a.len() as int].holds(row, l));
        }
        if c.len() > 0 {
            assert(ps[(a.len() + b.len()) as int].holds(row, l));
        }
        if d.len() > 0 {
            assert(ps[(a.len() + b.len() + c.len()) as int].holds(row, l));
        }
    }
}

proof fn lemma_package_part(raw: Seq<char>)
    requires
        csv(raw).len() > 0,
    ensures
        package_sql(raw) == Pred::OneOf(Expr::Of("b.package_name"@), csv(raw)).sql(),
        Pred::OneOf(Expr::Of("b.package_name"@), csv(raw)).is_factor(),
{
    reveal_strlit("b.package_name IN (");
    reveal_strlit("b.package_name");
    reveal_strlit(" IN (");
    assert("b.package_name IN ("@ =~= "b.package_name"@ + " IN ("@);
    lemma_one_of("b.package_name"@, "b.package_name IN ("@, csv(raw));
}

proof fn lemma_materialization_part(raw: Seq<char>)
    requires
        csv(raw).len() > 0,
    ensures
        "b.materialized IN ("@ + quoted_list(csv(raw)) + ")"@ == Pred::OneOf(
            Expr::Of("b.materialized"@),
            csv(raw),
        ).sql(),
        Pred::OneOf(Expr::Of("b.materialized"@), csv(raw)).is_factor(),
{
    reveal_strlit("b.materialized IN (");
    reveal_strlit("b.materialized");
    reveal_strlit(" IN (");
    assert("b.materialized IN ("@ =~= "b.materialized"@ + " IN ("@);
    lemma_one_of("b.materialized"@, "b.materialized IN ("@, csv(raw));
}

/// Whether the filters can be read: those that are given have items, and the layers are
/// known.
pub open spec fn are_filters(params: SearchQueryParams) -> bool {
    &&& is_filled(given_text(params.package))
    &&& is_filled(given_text(params.tag))
    &&& is_filled(given_text(params.modeling_layer))
    &&& given_text(params.modeling_layer) matches Some(raw) ==> unknown_layer(csv(raw)) is None
}

proof fn lemma_parts_sql(params: SearchQueryParams)
    requires
        are_filters(params),
    ensures
        filter_conditions(params) == sqls(parts(params)),
        forall|i: int| 0 <= i < parts(params).len() ==> (#[trigger] parts(params)[i]).is_factor(),
{
    if let Some(raw) = given_text(params.package) {
        lemma_package_part(raw);
    }
    if let Some(raw) = given_text(params.tag) {
        lemma_tags(raw, arbitrary(), arbitrary());
    }
    if let Some(raw) = given_text(params.modeling_layer) {
        lemma_layers(csv(raw), arbitrary(), arbitrary());
    }
    if let Some(raw) = given_text(params.materialization) {
        if csv(raw).len() > 0 {
            lemma_materialization_part(raw);
        }
    }
    assert(filter_conditions(params) =~= sqls(parts(params)));
}

proof fn lemma_filters_hold(params: SearchQueryParams, row: Row, l: Letters)
    requires
        are_filters(params),
    ensures
        (forall|i: int| 0 <= i < parts(params).len() ==> (#[trigger] parts(params)[i]).holds(row, l))
            <==> is_searched(params, row, l),
{
    lemma_parts_hold(params, row, l);
    reveal_with_fuel(Expr::eval, 2);
    if let Some(raw) = given_text(params.tag) {
        lemma_tags(raw, row, l);
    }
    if let Some(raw) = given_text(params.modeling_layer) {
        lemma_layers(csv(raw), row, l);
    }
}

/// The rows that the filters ask for.
pub open spec fn searched(params: SearchQueryParams) -> spec_fn(Row, Letters) -> bool {
    |row: Row, l: Letters| is_searched(params, row, l)
}

/// The filters of a search let exactly the resources through that they ask for: each
/// filter that is given narrows the results, whatever the others are.
pub proof fn lemma_filters_narrow_together(params: SearchQueryParams)
    requires
        are_filters(params),
    ensures
        lets_through(filter_clause(params), searched(params)),
        filter_conditions(params).len() == 0 <==> filter_clause(params).len() == 0,
{
    let ps = parts(params);
    lemma_parts_sql(params);
    reveal_strlit("WHERE ");
    reveal_strlit("");
    assert forall|row: Row, l: Letters| (forall|i: int|
        0 <= i < ps.len() ==> (#[trigger] ps[i]).holds(row, l)) == #[trigger] searched(params)(
        row,
        l,
    ) by {
        lemma_filters_hold(params, row, l);
    }
    if ps.len() > 0 {
        let p = all_of(ps);
        lemma_all_of(ps, arbitrary(), arbitrary());
        assert("WHERE "@.len() > 0);
        assert(filter_clause(params) == "WHERE "@ + p.sql());
        assert forall|row: Row, l: Letters| p.holds(row, l) == #[trigger] searched(params)(row, l) by {
            lemma_all_of(ps, row, l);
        }
    } else {
        assert forall|row: Row, l: Letters| #[trigger] searched(params)(row, l) by {}
    }
}

} // verus!
