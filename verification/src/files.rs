//! The list of all files of a project.
use crate::file_laws::{counts_files, lemma_files_are_counted_and_listed, lists_files};
use crate::json::{wrapped_list, wrapped_list_response};
use crate::probe::{ListProbe, ListQuery};
use crate::text::{decimal, join, joined, opt_str_text, same, texts, to_decimal};
use vstd::prelude::*;

verus! {

/// A table with resources that stand in files, and the resource type of its rows;
/// `None` where the table has a column for it.
pub open spec fn source_tables() -> Seq<(Seq<char>, Option<Seq<char>>)> {
    seq![
        ("dbt.nodes"@, None),
        ("dbt.exposures"@, Some("exposure"@)),
        ("dbt.metrics"@, Some("metric"@)),
        ("dbt.macros"@, Some("macro"@)),
        ("dbt.semantic_models"@, Some("semantic_model"@)),
        ("dbt.groups"@, Some("group"@)),
        ("dbt.unit_tests"@, Some("unit_test"@)),
        ("dbt.docs"@, Some("doc"@)),
        ("dbt.saved_queries"@, Some("saved_query"@)),
    ]
}

/// Tables and literals as text.
pub open spec fn sources_view(v: Seq<(&'static str, Option<&'static str>)>) -> Seq<
    (Seq<char>, Option<Seq<char>>),
> {
    Seq::new(v.len(), |i: int| (v[i].0@, opt_str_text(v[i].1)))
}

/// The tables that contribute to the list of files.
pub fn sources() -> (r: Vec<(&'static str, Option<&'static str>)>)
    ensures
        sources_view(r@) == source_tables(),
{
    let r: Vec<(&'static str, Option<&'static str>)> = vec![
        ("dbt.nodes", None),
        ("dbt.exposures", Some("exposure")),
        ("dbt.metrics", Some("metric")),
        ("dbt.macros", Some("macro")),
        ("dbt.semantic_models", Some("semantic_model")),
        ("dbt.groups", Some("group")),
        ("dbt.unit_tests", Some("unit_test")),
        ("dbt.docs", Some("doc")),
        ("dbt.saved_queries", Some("saved_query")),
    ];
    assert(sources_view(r@) =~= source_tables());
    r
}

/// No table stands twice among the sources, so no row is counted twice; and only the
/// table of nodes has its own column for the resource type.
pub proof fn lemma_sources_are_distinct()
    ensures
        forall|i: int, j: int|
            0 <= i < j < source_tables().len() ==> (#[trigger] source_tables()[i]).0 != (
            #[trigger] source_tables()[j]).0,
        forall|i: int|
            0 <= i < source_tables().len() ==> ((#[trigger] source_tables()[i]).1 is None
                <==> source_tables()[i].0 == "dbt.nodes"@),
{
    reveal_strlit("dbt.nodes");
    reveal_strlit("dbt.exposures");
    reveal_strlit("dbt.metrics");
    reveal_strlit("dbt.macros");
    reveal_strlit("dbt.semantic_models");
    reveal_strlit("dbt.groups");
    reveal_strlit("dbt.unit_tests");
    reveal_strlit("dbt.docs");
    reveal_strlit("dbt.saved_queries");
    assert("dbt.nodes"@.len() == 9 && "dbt.nodes"@[4] == 'n');
    assert("dbt.exposures"@.len() == 13 && "dbt.exposures"@[4] == 'e');
    assert("dbt.metrics"@.len() == 11 && "dbt.metrics"@[4] == 'm');
    assert("dbt.macros"@.len() == 10 && "dbt.macros"@[4] == 'm');
    assert("dbt.semantic_models"@.len() == 19 && "dbt.semantic_models"@[4] == 's');
    assert("dbt.groups"@.len() == 10 && "dbt.groups"@[4] == 'g');
    assert("dbt.unit_tests"@.len() == 14 && "dbt.unit_tests"@[4] == 'u');
    assert("dbt.docs"@.len() == 8 && "dbt.docs"@[4] == 'd');
    assert("dbt.saved_queries"@.len() == 17 && "dbt.saved_queries"@[4] == 's');
}

/// The selection of the files of one table.
pub open spec fn projection(table: Seq<char>, literal: Option<Seq<char>>) -> Seq<char> {
    "SELECT unique_id, name, "@ + (match literal {
        Some(literal) => "'"@ + literal + "' AS resource_type"@,
        None => "resource_type"@,
    }) + ", package_name, original_file_path, "@ + (if table == "dbt.nodes"@ || table
        == "dbt.macros"@ {
        "patch_path"@
    } else {
        "CAST(NULL AS VARCHAR) AS patch_path"@
    }) + " FROM "@ + table + (if table == "dbt.semantic_models"@ {
        " WHERE original_file_path IS NOT NULL"@
    } else {
        ""@
    })
}

/// The selection of the files of one table. Only nodes and macros have a patch path;
/// semantic models may be without a path, and those are left out.
pub fn projection_for(table: &str, literal: Option<&str>) -> (r: String)
    ensures
        r@ == projection(table@, opt_str_text(literal)),
{
    let kind = match literal {
        Some(literal) => {
            let mut kind = "'".to_owned();
            kind.append(literal);
            kind.append("' AS resource_type");
            kind
        },
        None => "resource_type".to_owned(),
    };
    let mut r = "SELECT unique_id, name, ".to_owned();
    r.append(kind.as_str());
    r.append(", package_name, original_file_path, ");
    r.append(
        if same(table, "dbt.nodes") || same(table, "dbt.macros") {
            "patch_path"
        } else {
            "CAST(NULL AS VARCHAR) AS patch_path"
        },
    );
    r.append(" FROM ");
    r.append(table);
    r.append(
        if same(table, "dbt.semantic_models") {
            " WHERE original_file_path IS NOT NULL"
        } else {
            ""
        },
    );
    r
}

/// The selections of the tables that have rows, in the order of the sources.
pub open spec fn selections(
    tables: Seq<(Seq<char>, Option<Seq<char>>)>,
    filled: Seq<bool>,
) -> Seq<Seq<char>>
    decreases tables.len(),
{
    if tables.len() == 0 {
        Seq::empty()
    } else {
        let before = selections(tables.drop_last(), filled);
        if filled[tables.len() - 1] {
            before.push(projection(tables.last().0, tables.last().1))
        } else {
            before
        }
    }
}

/// All files of the tables that have rows.
pub open spec fn files_union(filled: Seq<bool>) -> Seq<char> {
    joined(selections(source_tables(), filled), " UNION ALL "@)
}

/// What is said when the count query has no answer.
pub const NO_FILE_COUNT: &'static str = "files count query returned no rows";

/// Plan the list of files, where `filled` says of each source whether its table is
/// there and has rows. `None` where no table has: then there is no file.
pub fn plan_list_files(filled: &Vec<bool>) -> (r: Option<ListProbe>)
    requires
        filled.len() == source_tables().len(),
    ensures
        match r {
            Some(probe) => {
                &&& selections(source_tables(), filled@).len() > 0
                &&& probe.wf()
                &&& probe.at == 0
                &&& probe.noun@ == "file"@
                &&& probe.absent@ == NO_FILE_COUNT@
                &&& probe.queries.len() == 1
                &&& probe.queries@[0].count_sql@ == "SELECT count(*) FROM ("@ + files_union(filled@)
                    + ")"@
                &&& probe.queries@[0].rows_sql@
                    == "SELECT unique_id, name, resource_type, package_name, original_file_path, patch_path FROM ("@
                    + files_union(filled@) + ") ORDER BY package_name, original_file_path, name"@
                &&& counts_files(probe.queries@[0].count_sql@, filled@)
                &&& lists_files(probe.queries@[0].rows_sql@, filled@)
            },
            None => selections(source_tables(), filled@).len() == 0,
        },
{
    let tables = sources();
    let ghost all = source_tables();
    let mut parts: Vec<String> = Vec::new();
    let mut i: usize = 0;
    assert(all.take(0) == Seq::<(Seq<char>, Option<Seq<char>>)>::empty());
    assert(texts(parts@) =~= Seq::<Seq<char>>::empty());
    while i < tables.len()
        invariant
            i <= tables.len(),
            all == source_tables(),
            all == sources_view(tables@),
            filled.len() == all.len(),
            texts(parts@) == selections(all.take(i as int), filled@),
        decreases tables.len() - i,
    {
        assert(all.take(i + 1).drop_last() == all.take(i as int));
        assert(all.take(i + 1).last() == (tables@[i as int].0@, opt_str_text(
            tables@[i as int].1,
        )));
        if filled[i] {
            let (table, literal) = tables[i];
            let part = projection_for(table, literal);
            let ghost had = parts@;
            parts.push(part);
            assert(texts(parts@) =~= texts(had).push(part@));
        }
        i += 1;
    }
    assert(all.take(all.len() as int) == all);
    if parts.len() == 0 {
        return None;
    }
    let union = join(&parts, " UNION ALL ");
    proof {
        lemma_files_are_counted_and_listed(filled@);
    }
    let mut count_sql = "SELECT count(*) FROM (".to_owned();
    count_sql.append(union.as_str());
    count_sql.append(")");
    let mut rows_sql =
        "SELECT unique_id, name, resource_type, package_name, original_file_path, patch_path FROM (".to_owned();
    rows_sql.append(union.as_str());
    rows_sql.append(") ORDER BY package_name, original_file_path, name");
    let mut queries: Vec<ListQuery> = Vec::new();
    queries.push(ListQuery { count_sql, rows_sql });
    let mut probe = ListProbe::start(queries, "file");
    probe.absent = NO_FILE_COUNT;
    Some(probe)
}

/// The body of the list of files, from the rows as a writer of JSON wrote them:
/// `{"files": [...], "total": ..}`.
pub fn finish_list_files(written: &str, total: u64) -> (r: String)
    ensures
        r@ == wrapped_list("files"@, written@, seq![("total"@, decimal(total as nat))]),
{
    let mut extra: Vec<(String, String)> = Vec::new();
    extra.push(("total".to_owned(), to_decimal(total)));
    assert(crate::encoding::fields_view(extra@) =~= seq![("total"@, decimal(total as nat))]);
    wrapped_list_response("files", written, &extra)
}

} // verus!
