//! What a sort stands for.
use crate::listing::name_sort;
use crate::meaning::{comes_behind, Item};
use crate::model_laws::model_items;
use crate::models::{asked_sort, layer_case, lookup, sort_expr, ModelListParams, SortView};
use crate::pagination::{comes_before, is_collation, CursorView, SortDir};
use crate::seed_laws::seed_items;
use crate::text::{ascii_lower, given_text, split_at_first};
use crate::text_laws::lemma_cut_undoes_putting_together;
use vstd::prelude::*;

verus! {

/// The word for a direction.
pub open spec fn direction(dir: SortDir) -> Seq<char> {
    match dir {
        SortDir::Asc => "asc"@,
        SortDir::Desc => "desc"@,
    }
}

/// A sort by a column in a direction as it is asked for.
pub open spec fn sort_text(column: Seq<char>, dir: SortDir) -> Seq<char> {
    column + ":"@ + direction(dir)
}

proof fn lemma_sort_text_is_cut(column: Seq<char>, dir: SortDir)
    requires
        !column.contains(':'),
    ensures
        split_at_first(sort_text(column, dir), ':') == Some((column, direction(dir))),
        "asc"@ != "desc"@,
        sort_text(column, dir).len() > 0,
{
    reveal_strlit(":");
    reveal_strlit("asc");
    reveal_strlit("desc");
    assert("asc"@.len() == 3 && "desc"@.len() == 4);
    lemma_cut_undoes_putting_together(column, ':', direction(dir));
    assert(sort_text(column, dir) =~= column.push(':') + direction(dir));
}

/// Models are sorted by the column and in the direction that are asked for, and by name
/// where no sort is given.
pub proof fn lemma_models_are_sorted_as_asked(
    params: ModelListParams,
    column: Seq<char>,
    dir: SortDir,
)
    requires
        !column.contains(':'),
    ensures
        given_text(params.sort) == Some(sort_text(column, dir)) && sort_expr(column) is Some
            ==> asked_sort(params) == Ok::<SortView, Seq<char>>(
            SortView { column, sql_expr: sort_expr(column)->0, dir },
        ),
        given_text(params.sort) is None ==> asked_sort(params) == crate::models::parsed_sort(
            sort_text("name"@, SortDir::Asc),
        ),
{
    lemma_sort_text_is_cut(column, dir);
    reveal_strlit("asc");
    reveal_strlit("desc");
    reveal_strlit("name");
    reveal_strlit("modeling_layer");
    assert("name"@.len() == 4 && "modeling_layer"@.len() == 14);
    lemma_sort_text_is_cut("name"@, SortDir::Asc);
    assert(ascii_lower("asc"@) =~= "asc"@);
    assert(ascii_lower("desc"@) =~= "desc"@);
    reveal_with_fuel(lookup, 2);
}

/// Seeds are sorted by the column and in the direction that are asked for, and by name
/// where no sort is given.
pub proof fn lemma_seeds_are_sorted_as_asked(column: Seq<char>, dir: SortDir)
    requires
        !column.contains(':'),
    ensures
        lookup(crate::seeds::sortable_columns(), column) is Some ==> crate::seeds::parsed_sort(
            sort_text(column, dir),
        ) == Ok::<(Seq<char>, SortDir), Seq<char>>(
            (lookup(crate::seeds::sortable_columns(), column)->0, dir),
        ),
{
    lemma_sort_text_is_cut(column, dir);
}

/// A list by name is sorted in the direction that is asked for, and upwards where no sort
/// is given.
pub proof fn lemma_names_are_sorted_as_asked(dir: SortDir)
    ensures
        name_sort(Some(sort_text("name"@, dir))) == Ok::<SortDir, Seq<char>>(dir),
        name_sort(None) == Ok::<SortDir, Seq<char>>(SortDir::Asc),
        name_sort(Some(Seq::empty())) == Ok::<SortDir, Seq<char>>(SortDir::Asc),
{
    reveal_strlit("name");
    lemma_sort_text_is_cut("name"@, dir);
}

/// Pages follow each other in the order of their query: a row comes before another exactly
/// where the other comes behind it.
pub proof fn lemma_pages_follow_the_order(
    dir: SortDir,
    a: CursorView,
    b: CursorView,
    lt: spec_fn(Seq<char>, Seq<char>) -> bool,
)
    requires
        is_collation(lt),
    ensures
        comes_before(dir, a, b, lt) == comes_behind(b, a, dir, lt),
{
    if let (Some(x), Some(y)) = (a.sort_value, b.sort_value) {
        assert(!lt(x, x));
    }
}

/// Whether a select list shows an expression under a name.
pub open spec fn shows_under(items: Seq<Item>, name: Seq<char>, expr: Seq<char>) -> bool {
    exists|k: int| 0 <= k < items.len() && (#[trigger] items[k]).name() == name && items[k].expr() == expr
}

/// A column that models can be sorted by is one that is shown, and the order is by what is
/// shown.
pub proof fn lemma_models_are_sorted_by_what_is_shown(column: Seq<char>, with_catalog: bool)
    requires
        sort_expr(column) is Some,
    ensures
        shows_under(model_items(true, with_catalog), column, sort_expr(column)->0),
{
    let table = crate::models::sortable_columns();
    let items = model_items(true, with_catalog);
    reveal_with_fuel(lookup, 6);
    assert(table.skip(1)[0] == table[1]);
    assert(table.skip(1).skip(1)[0] == table[2]);
    assert(table.skip(1).skip(1).skip(1)[0] == table[3]);
    assert(table.skip(1).skip(1).skip(1).skip(1)[0] == table[4]);
    assert(table.skip(1).skip(1).skip(1).skip(1).skip(1).len() == 0);
    reveal_strlit("n");
    reveal_strlit(".");
    reveal_strlit("name");
    reveal_strlit("access_level");
    reveal_strlit("contract_enforced");
    reveal_strlit("n.name");
    reveal_strlit("n.access_level");
    reveal_strlit("n.contract_enforced");
    assert("n"@ + "."@ + "name"@ =~= "n.name"@);
    assert("n"@ + "."@ + "access_level"@ =~= "n.access_level"@);
    assert("n"@ + "."@ + "contract_enforced"@ =~= "n.contract_enforced"@);
    assert(items[1].name() == "name"@ && items[4].name() == "modeling_layer"@ && items[5].name()
        == "access_level"@ && items[6].name() == "contract_enforced"@ && items[7].name()
        == "owner"@ && items[8].name() == "executed_at"@);
    assert(items[4].expr() == layer_case());
}

/// A column that seeds can be sorted by is one that is shown, and the order is by what is
/// shown.
pub proof fn lemma_seeds_are_sorted_by_what_is_shown(column: Seq<char>)
    requires
        lookup(crate::seeds::sortable_columns(), column) is Some,
    ensures
        shows_under(
            seed_items(true, true),
            column,
            lookup(crate::seeds::sortable_columns(), column)->0,
        ),
{
    let table = crate::seeds::sortable_columns();
    let items = seed_items(true, true);
    reveal_with_fuel(lookup, 4);
    assert(table.skip(1)[0] == table[1]);
    assert(table.skip(1).skip(1)[0] == table[2]);
    assert(table.skip(1).skip(1).skip(1).len() == 0);
    reveal_strlit("n");
    reveal_strlit(".");
    reveal_strlit("rc");
    reveal_strlit("name");
    reveal_strlit("row_count");
    reveal_strlit("n.name");
    reveal_strlit("rc.row_count");
    assert("n"@ + "."@ + "name"@ =~= "n.name"@);
    assert("rc"@ + "."@ + "row_count"@ =~= "rc.row_count"@);
    assert(items[1].name() == "name"@ && items[6].name() == "row_count"@ && items[7].name()
        == "executed_at"@);
}

} // verus!
