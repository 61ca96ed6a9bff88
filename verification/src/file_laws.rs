//! What the query of the list of files means.
use crate::files::{files_union, projection, selections, source_tables};
use crate::meaning::{
    lemma_joined_is_unioned, lemma_plain_literal, lemma_table_names, listed, literal, reads,
    reads_all, table_of, unioned, Expr, Item, Letters, Pred, Row,
};
use vstd::prelude::*;

verus! {

/// The type that the resources of a table are listed with is the one that the table is
/// called by; only nodes have a type of their own. Every type of resource that stands in
/// a file is listed.
pub proof fn lemma_types_name_their_tables()
    ensures
        forall|i: int|
            0 <= i < source_tables().len() ==> match (#[trigger] source_tables()[i]).1 {
                Some(kind) => source_tables()[i].0 == table_of(kind),
                None => source_tables()[i].0 == "dbt.nodes"@,
            },
        forall|kind: Seq<char>|
            seq![
                "exposure"@,
                "metric"@,
                "macro"@,
                "semantic_model"@,
                "group"@,
                "unit_test"@,
                "doc"@,
                "saved_query"@,
            ].contains(kind) ==> #[trigger] source_tables().contains((table_of(kind), Some(kind))),
        source_tables().contains(("dbt.nodes"@, None)),
{
    lemma_table_names();
    let t = source_tables();
    let kinds = seq![
        "exposure"@,
        "metric"@,
        "macro"@,
        "semantic_model"@,
        "group"@,
        "unit_test"@,
        "doc"@,
        "saved_query"@,
    ];
    assert(t.len() == 9);
    assert(t[0] == ("dbt.nodes"@, None::<Seq<char>>));
    assert forall|kind: Seq<char>| kinds.contains(kind) implies #[trigger] t.contains(
        (table_of(kind), Some(kind)),
    ) by {
        let k = choose|k: int| 0 <= k < kinds.len() && kinds[k] == kind;
        assert(t[k + 1] == (table_of(kind), Some(kind)));
    }
}

/// What a file of a table is shown with: its type, and the path of its properties where
/// the table has one.
pub open spec fn file_items(table: Seq<char>, kind: Option<Seq<char>>) -> Seq<Item> {
    seq![
        Item::Plain("unique_id"@),
        Item::Plain("name"@),
        match kind {
            Some(kind) => Item::As(literal(kind), "resource_type"@),
            None => Item::Plain("resource_type"@),
        },
        Item::Plain("package_name"@),
        Item::Plain("original_file_path"@),
        if table == "dbt.nodes"@ || table == table_of("macro"@) {
            Item::Plain("patch_path"@)
        } else {
            Item::As("CAST(NULL AS VARCHAR)"@, "patch_path"@)
        },
    ]
}

/// The files of a table of semantic models are those with a path.
pub open spec fn has_path() -> spec_fn(Row, Letters) -> bool {
    |row: Row, l: Letters| row.at("original_file_path"@) is Some
}

#[verifier::spinoff_prover]
#[verifier::rlimit(40)]
proof fn lemma_projection_texts()
    ensures
        "SELECT unique_id, name, "@ == "SELECT "@ + "unique_id"@ + ", "@ + "name"@ + ", "@,
        "' AS resource_type"@ == seq!['\''] + " AS "@ + "resource_type"@,
        "'"@ == seq!['\''],
        ", package_name, original_file_path, "@ == ", "@ + "package_name"@ + ", "@
            + "original_file_path"@ + ", "@,
        "CAST(NULL AS VARCHAR) AS patch_path"@ == "CAST(NULL AS VARCHAR)"@ + " AS "@
            + "patch_path"@,
        " WHERE original_file_path IS NOT NULL"@ == " WHERE "@ + ("original_file_path"@
            + " IS NOT NULL"@),
        ""@ == Seq::<char>::empty(),
{
    reveal_strlit("SELECT unique_id, name, ");
    reveal_strlit("SELECT ");
    reveal_strlit("unique_id");
    reveal_strlit(", ");
    reveal_strlit("name");
    reveal_strlit("' AS resource_type");
    reveal_strlit(" AS ");
    reveal_strlit("resource_type");
    reveal_strlit("'");
    reveal_strlit(", package_name, original_file_path, ");
    reveal_strlit("package_name");
    reveal_strlit("original_file_path");
    reveal_strlit("CAST(NULL AS VARCHAR) AS patch_path");
    reveal_strlit("CAST(NULL AS VARCHAR)");
    reveal_strlit("patch_path");
    reveal_strlit(" WHERE original_file_path IS NOT NULL");
    reveal_strlit(" WHERE ");
    reveal_strlit(" IS NOT NULL");
    reveal_strlit("");
}

proof fn lemma_listed_six(items: Seq<Item>)
    requires
        items.len() == 6,
    ensures
        listed(items, 6) == items[0].sql() + ", "@ + items[1].sql() + ", "@ + items[2].sql() + ", "@
            + items[3].sql() + ", "@ + items[4].sql() + ", "@ + items[5].sql(),
{
    reveal_with_fuel(listed, 7);
}

proof fn lemma_kind_is_plain(i: int)
    requires
        0 <= i < source_tables().len(),
    ensures
        source_tables()[i].1 matches Some(kind) ==> literal(kind) == seq!['\''] + kind + seq!['\''],
{
    reveal_strlit("exposure");
    reveal_strlit("metric");
    reveal_strlit("macro");
    reveal_strlit("semantic_model");
    reveal_strlit("group");
    reveal_strlit("unit_test");
    reveal_strlit("doc");
    reveal_strlit("saved_query");
    if let Some(kind) = source_tables()[i].1 {
        lemma_plain_literal(kind);
    }
}

proof fn lemma_regroup_kind(q: Seq<char>, kind: Seq<char>, a: Seq<char>, name: Seq<char>)
    ensures
        q + kind + (q + a + name) == (q + kind + q) + a + name,
{
    assert(q + kind + (q + a + name) =~= (q + kind + q) + a + name);
}

proof fn lemma_regroup_head(
    s: Seq<char>,
    c: Seq<char>,
    i0: Seq<char>,
    i1: Seq<char>,
    i2: Seq<char>,
    i3: Seq<char>,
    i4: Seq<char>,
    i5: Seq<char>,
    f: Seq<char>,
    t: Seq<char>,
)
    ensures
        (s + i0 + c + i1 + c) + i2 + (c + i3 + c + i4 + c) + i5 + f + t == s + (i0 + c + i1 + c + i2
            + c + i3 + c + i4 + c + i5) + f + t,
{
    assert((s + i0 + c + i1 + c) + i2 + (c + i3 + c + i4 + c) + i5 + f + t =~= s + (i0 + c + i1 + c
        + i2 + c + i3 + c + i4 + c + i5) + f + t);
}

proof fn lemma_regroup_where(
    s: Seq<char>,
    l: Seq<char>,
    f: Seq<char>,
    t: Seq<char>,
    w: Seq<char>,
    p: Seq<char>,
)
    ensures
        (s + l + f + t) + (w + p) == Seq::<char>::empty() + s + l + f + t + w + p + Seq::<char>::empty(),
{
    assert((s + l + f + t) + (w + p) =~= Seq::<char>::empty() + s + l + f + t + w + p
        + Seq::<char>::empty());
}

/// Every file of a table is listed with the type of the table: the selection of a source
/// reads its table, and shows the type for the resource type. Of semantic models those
/// with a path are listed.
#[verifier::spinoff_prover]
#[verifier::rlimit(40)]
pub proof fn lemma_files_are_shown_with_their_type(i: int)
    requires
        0 <= i < source_tables().len(),
    ensures
        ({
            let (table, kind) = source_tables()[i];
            if table == table_of("semantic_model"@) {
                reads(
                    projection(table, kind),
                    Seq::empty(),
                    file_items(table, kind),
                    table,
                    has_path(),
                    Seq::empty(),
                )
            } else {
                reads_all(projection(table, kind), file_items(table, kind), table)
            }
        }),
{
    lemma_table_names();
    lemma_projection_texts();
    lemma_kind_is_plain(i);
    let (table, kind) = source_tables()[i];
    let items = file_items(table, kind);
    lemma_listed_six(items);
    let k = match kind {
        Some(kind) => "'"@ + kind + "' AS resource_type"@,
        None => "resource_type"@,
    };
    assert(k == items[2].sql()) by {
        if let Some(kind) = kind {
            lemma_regroup_kind(seq!['\''], kind, " AS "@, "resource_type"@);
        }
    }
    let patch = items[5].sql();
    let head = "SELECT unique_id, name, "@ + k + ", package_name, original_file_path, "@ + patch
        + " FROM "@ + table;
    lemma_regroup_head(
        "SELECT "@,
        ", "@,
        "unique_id"@,
        "name"@,
        k,
        "package_name"@,
        "original_file_path"@,
        patch,
        " FROM "@,
        table,
    );
    assert(head == "SELECT "@ + listed(items, 6) + " FROM "@ + table);
    if table == "dbt.semantic_models"@ {
        let p = Pred::NotNull(Expr::Of("original_file_path"@));
        reveal_with_fuel(Pred::sql, 2);
        reveal_with_fuel(Expr::sql, 2);
        assert(p.is_factor());
        assert(p.sql() == "original_file_path"@ + " IS NOT NULL"@);
        assert(projection(table, kind) == head + (" WHERE "@ + p.sql()));
        lemma_regroup_where("SELECT "@, listed(items, 6), " FROM "@, table, " WHERE "@, p.sql());
        assert forall|row: Row, l: Letters| p.holds(row, l) == #[trigger] has_path()(row, l) by {
            reveal_with_fuel(Pred::holds, 2);
            reveal_with_fuel(Expr::eval, 2);
        }
    } else {
        assert(projection(table, kind) == head + ""@);
        assert(head + ""@ =~= head);
    }
}

proof fn lemma_selections(tables: Seq<(Seq<char>, Option<Seq<char>>)>, filled: Seq<bool>)
    ensures
        forall|i: int|
            0 <= i < tables.len() && filled[i] ==> selections(tables, filled).contains(
                projection((#[trigger] tables[i]).0, tables[i].1),
            ),
        forall|part: Seq<char>| #[trigger]
            selections(tables, filled).contains(part) ==> exists|i: int|
                0 <= i < tables.len() && filled[i] && part == projection(
                    (#[trigger] tables[i]).0,
                    tables[i].1,
                ),
    decreases tables.len(),
{
    if tables.len() > 0 {
        let n = tables.len() - 1;
        let front = tables.drop_last();
        lemma_selections(front, filled);
        let before = selections(front, filled);
        let all = selections(tables, filled);
        let last = projection(tables[n].0, tables[n].1);
        assert forall|i: int| 0 <= i < tables.len() && filled[i] implies all.contains(
            projection((#[trigger] tables[i]).0, tables[i].1),
        ) by {
            if i < n {
                assert(front[i] == tables[i]);
                let part = projection(front[i].0, front[i].1);
                let k = choose|k: int| 0 <= k < before.len() && before[k] == part;
                assert(all[k] == part);
            } else {
                assert(all[before.len() as int] == last);
            }
        }
        assert forall|part: Seq<char>| #[trigger] all.contains(part) implies exists|i: int|
            0 <= i < tables.len() && filled[i] && part == projection(
                (#[trigger] tables[i]).0,
                tables[i].1,
            ) by {
            let k = choose|k: int| 0 <= k < all.len() && all[k] == part;
            if k < before.len() {
                assert(before[k] == part);
                assert(before.contains(part));
                let i = choose|i: int|
                    0 <= i < front.len() && filled[i] && part == projection(
                        (#[trigger] front[i]).0,
                        front[i].1,
                    );
                assert(tables[i] == front[i]);
            } else {
                assert(tables[n].0 == tables.last().0);
            }
        }
    }
}

/// The list of files is the files of all tables that have rows, and of no other: their
/// selections stand one behind the other.
pub proof fn lemma_files_are_those_of_all_filled_tables(filled: Seq<bool>)
    requires
        filled.len() == source_tables().len(),
    ensures
        exists|parts: Seq<Seq<char>>|
            {
                &&& files_union(filled) == #[trigger] unioned(parts, parts.len(), " "@)
                &&& forall|i: int|
                    0 <= i < filled.len() && filled[i] ==> parts.contains(
                        projection((#[trigger] source_tables()[i]).0, source_tables()[i].1),
                    )
                &&& forall|part: Seq<char>| #[trigger]
                    parts.contains(part) ==> exists|i: int|
                        0 <= i < filled.len() && filled[i] && part == projection(
                            (#[trigger] source_tables()[i]).0,
                            source_tables()[i].1,
                        )
            },
{
    let parts = selections(source_tables(), filled);
    lemma_selections(source_tables(), filled);
    reveal_strlit(" UNION ALL ");
    reveal_strlit(" ");
    reveal_strlit("UNION ALL");
    assert(" UNION ALL "@ =~= " "@ + "UNION ALL"@ + " "@);
    lemma_joined_is_unioned(parts, parts.len(), " UNION ALL "@, " "@);
    assert(parts.take(parts.len() as int) =~= parts);
}

/// What the list of files shows of a file.
pub open spec fn listed_items() -> Seq<Item> {
    seq![
        Item::Plain("unique_id"@),
        Item::Plain("name"@),
        Item::Plain("resource_type"@),
        Item::Plain("package_name"@),
        Item::Plain("original_file_path"@),
        Item::Plain("patch_path"@),
    ]
}

/// Whether a query counts all files of the tables that have rows.
pub open spec fn counts_files(sql: Seq<char>, filled: Seq<bool>) -> bool {
    sql == "SELECT count(*) FROM "@ + ("("@ + files_union(filled) + ")"@)
}

/// Whether a query gives the same files, by package, path and name.
pub open spec fn lists_files(sql: Seq<char>, filled: Seq<bool>) -> bool {
    sql == "SELECT "@ + listed(listed_items(), 6) + " FROM "@ + ("("@ + files_union(filled) + ")"@)
        + " ORDER BY package_name, original_file_path, name"@
}

/// The count of files is that of all files of the tables that have rows, and the list holds
/// the same files with what each is shown with.
#[verifier::spinoff_prover]
#[verifier::rlimit(40)]
pub proof fn lemma_files_are_counted_and_listed(filled: Seq<bool>)
    ensures
        counts_files("SELECT count(*) FROM ("@ + files_union(filled) + ")"@, filled),
        lists_files(
            "SELECT unique_id, name, resource_type, package_name, original_file_path, patch_path FROM ("@
                + files_union(filled) + ") ORDER BY package_name, original_file_path, name"@,
            filled,
        ),
{
    reveal_with_fuel(listed, 7);
    reveal_strlit("SELECT count(*) FROM (");
    reveal_strlit("SELECT count(*) FROM ");
    reveal_strlit("(");
    reveal_strlit(")");
    reveal_strlit("SELECT ");
    reveal_strlit(" FROM ");
    reveal_strlit(", ");
    reveal_strlit("unique_id");
    reveal_strlit("name");
    reveal_strlit("resource_type");
    reveal_strlit("package_name");
    reveal_strlit("original_file_path");
    reveal_strlit("patch_path");
    reveal_strlit("unique_id, name, resource_type, package_name, original_file_path, patch_path");
    reveal_strlit("SELECT unique_id, name, resource_type, package_name, original_file_path, patch_path FROM (");
    reveal_strlit(") ORDER BY package_name, original_file_path, name");
    reveal_strlit(" ORDER BY package_name, original_file_path, name");
    let u = files_union(filled);
    assert("SELECT count(*) FROM ("@ =~= "SELECT count(*) FROM "@ + "("@);
    assert("SELECT count(*) FROM "@ + "("@ + u + ")"@ =~= "SELECT count(*) FROM "@ + ("("@ + u
        + ")"@));
    let items = listed_items();
    assert(listed(items, 6)
        =~= "unique_id, name, resource_type, package_name, original_file_path, patch_path"@);
    let head = "SELECT "@ + listed(items, 6) + " FROM "@;
    assert("SELECT unique_id, name, resource_type, package_name, original_file_path, patch_path FROM ("@
        =~= head + "("@);
    assert(") ORDER BY package_name, original_file_path, name"@ =~= ")"@
        + " ORDER BY package_name, original_file_path, name"@);
    lemma_regroup_files(head, "("@, u, ")"@, " ORDER BY package_name, original_file_path, name"@);
}

proof fn lemma_regroup_files(
    h: Seq<char>,
    a: Seq<char>,
    u: Seq<char>,
    b: Seq<char>,
    o: Seq<char>,
)
    ensures
        (h + a) + u + (b + o) == h + (a + u + b) + o,
{
    assert((h + a) + u + (b + o) =~= h + (a + u + b) + o);
}

} // verus!
