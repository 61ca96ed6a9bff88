//! What the queries of a search mean: which resources are found.
use crate::meaning::{
    both, finds, lemma_joined_is_unioned, lemma_pattern_finds, lemma_plain_literal, literal,
    unioned, Expr, Letters, Pred, Row,
};
use crate::search_sql::{
    field_matches, token_cte, token_matches, MATCH_COLUMN, MATCH_DESCRIPTION, MATCH_END, MATCH_FQN,
    MATCH_NAME, MATCH_TAG,
};
use crate::sql::{escaped, pattern};
use crate::text::{decimal, digit, joined};
use vstd::prelude::*;

verus! {

// ---------------------------------------------------------------------------
// Matches of a word
// ---------------------------------------------------------------------------

/// A resource that can be found: its own row, and the names of its columns.
pub ghost struct Resource {
    pub row: Row,
    pub columns: Seq<Seq<char>>,
}

/// The resources that a search is over, by their unique ids.
pub ghost struct Base {
    pub at: spec_fn(Seq<char>) -> Option<Resource>,
    pub letters: Letters,
}

/// Whether a word stands in one of some texts.
pub open spec fn found_among(items: Seq<Seq<char>>, word: Seq<char>, l: Letters) -> bool {
    exists|i: int| 0 <= i < items.len() && finds(#[trigger] items[i], word, l.alike)
}

/// Whether a word stands in a field of a resource, but for the case of letters: in its
/// name, the name of one of its columns, one of its tags, its dotted name or its
/// description.
pub open spec fn word_is_in(r: Resource, word: Seq<char>, field: Seq<char>, l: Letters) -> bool {
    ||| field == "name"@ && (r.row.at("name"@) matches Some(t) && finds(t, word, l.alike))
    ||| field == "column"@ && found_among(r.columns, word, l)
    ||| field == "tag"@ && (r.row.list("tags"@) matches Some(tags) && found_among(tags, word, l))
    ||| field == "fqn"@ && (r.row.list("fqn"@) matches Some(parts) && finds(
        joined(parts, "."@),
        word,
        l.alike,
    ))
    ||| field == "description"@ && (r.row.at("description"@) matches Some(t) && finds(
        t,
        word,
        l.alike,
    ))
}

/// How strong a match in a field is: the name is the strongest, the description the
/// weakest.
pub open spec fn strength(field: Seq<char>) -> nat {
    if field == "name"@ {
        1
    } else if field == "column"@ {
        2
    } else if field == "tag"@ {
        3
    } else if field == "fqn"@ {
        4
    } else {
        5
    }
}

/// Whether a word matches a resource in a field of the given strength.
pub open spec fn is_match(
    b: Base,
    word: Seq<char>,
    id: Seq<char>,
    field: Seq<char>,
    priority: nat,
) -> bool {
    (b.at)(id) matches Some(r) && word_is_in(r, word, field, b.letters) && priority == strength(
        field,
    )
}

/// Whether a word matches a resource in some field.
pub open spec fn word_matches(b: Base, word: Seq<char>, id: Seq<char>) -> bool {
    exists|field: Seq<char>, priority: nat| #[trigger] is_match(b, word, id, field, priority)
}

/// A selection of matches: the resources that meet a condition, each with the field and
/// its priority; or those with a column that meets it.
pub ghost struct Select {
    pub id: Seq<char>,
    pub field: Seq<char>,
    pub priority: nat,
    pub names: (Seq<char>, Seq<char>),
    pub by_column: bool,
    pub cond: Pred,
}

impl Select {
    /// The text of the selection.
    pub open spec fn sql(self) -> Seq<char> {
        "SELECT "@ + self.id + ", "@ + literal(self.field) + self.names.0 + ", "@ + decimal(
            self.priority,
        ) + self.names.1 + (if self.by_column {
            " FROM base b JOIN dbt.node_columns c USING (unique_id) WHERE "@
        } else {
            " FROM base WHERE "@
        }) + self.cond.sql()
    }

    /// Whether a resource is selected.
    pub open spec fn takes(self, r: Resource, l: Letters) -> bool {
        if self.by_column {
            exists|i: int|
                0 <= i < r.columns.len() && self.cond.holds(
                    with_column(r.row, #[trigger] r.columns[i]),
                    l,
                )
        } else {
            self.cond.holds(r.row, l)
        }
    }
}

/// A row joined with one of its columns.
pub open spec fn with_column(row: Row, column: Seq<char>) -> Row {
    Row {
        value: |expr: Seq<char>|
            if expr == "c.column_name"@ {
                Some(column)
            } else {
                (row.value)(expr)
            },
        items: row.items,
    }
}

/// The texts of some selections.
pub open spec fn select_sqls(ss: Seq<Select>) -> Seq<Seq<char>> {
    Seq::new(ss.len(), |i: int| ss[i].sql())
}

/// Whether the union of some selections has a row.
pub open spec fn has_match(
    ss: Seq<Select>,
    b: Base,
    id: Seq<char>,
    field: Seq<char>,
    priority: nat,
) -> bool {
    (b.at)(id) matches Some(r) && exists|i: int|
        0 <= i < ss.len() && (#[trigger] ss[i]).takes(r, b.letters) && ss[i].field == field
            && ss[i].priority == priority
}

/// Whether selections can be read: each has the unique id for its id, and their conditions
/// are conditions.
pub open spec fn are_selects(ss: Seq<Select>) -> bool {
    forall|i: int|
        0 <= i < ss.len() ==> (#[trigger] ss[i]).cond.is_factor() && ss[i].id == (
        if ss[i].by_column {
            "b.unique_id"@
        } else {
            "unique_id"@
        })
}

spec fn word_selects(word: Seq<char>) -> Seq<Select> {
    let plain = "unique_id"@;
    let none = (Seq::<char>::empty(), Seq::<char>::empty());
    seq![
        Select {
            id: plain,
            field: "name"@,
            priority: 1,
            names: (" AS matched_field"@, " AS priority"@),
            by_column: false,
            cond: Pred::Holds(Expr::Of("name"@), word),
        },
        Select {
            id: "b.unique_id"@,
            field: "column"@,
            priority: 2,
            names: none,
            by_column: true,
            cond: Pred::Holds(Expr::Of("c.column_name"@), word),
        },
        Select {
            id: plain,
            field: "tag"@,
            priority: 3,
            names: none,
            by_column: false,
            cond: both(
                Pred::HasList("tags"@),
                Pred::AnyItem("tags"@, Box::new(Pred::Holds(Expr::Of("x"@), word))),
            ),
        },
        Select {
            id: plain,
            field: "fqn"@,
            priority: 4,
            names: none,
            by_column: false,
            cond: both(
                Pred::HasList("fqn"@),
                Pred::Holds(Expr::Joined("fqn"@, "."@), word),
            ),
        },
        Select {
            id: plain,
            field: "description"@,
            priority: 5,
            names: none,
            by_column: false,
            cond: Pred::Holds(Expr::Of("description"@), word),
        },
    ]
}

proof fn lemma_digits()
    ensures
        decimal(1) == seq!['1'],
        decimal(2) == seq!['2'],
        decimal(3) == seq!['3'],
        decimal(4) == seq!['4'],
        decimal(5) == seq!['5'],
{
    assert(digit(1) == '1' && digit(2) == '2' && digit(3) == '3' && digit(4) == '4' && digit(5)
        == '5');
}

proof fn lemma_holds_sql(e: Expr, word: Seq<char>)
    ensures
        Pred::Holds(e, word).sql() == e.sql() + " ILIKE '%' || '"@ + escaped(pattern(word))
            + "' || '%' ESCAPE '\\'"@,
{
    reveal_with_fuel(Pred::sql, 2);
    reveal_strlit(" ILIKE '%' || ");
    reveal_strlit(" || '%' ESCAPE '\\'");
    reveal_strlit(" ILIKE '%' || '");
    reveal_strlit("' || '%' ESCAPE '\\'");
    assert(" ILIKE '%' || '"@ =~= " ILIKE '%' || "@ + seq!['\'']);
    assert("' || '%' ESCAPE '\\'"@ =~= seq!['\''] + " || '%' ESCAPE '\\'"@);
    let q = escaped(pattern(word));
    assert(e.sql() + " ILIKE '%' || "@ + literal(pattern(word)) + " || '%' ESCAPE '\\'"@ =~= e.sql()
        + " ILIKE '%' || '"@ + q + "' || '%' ESCAPE '\\'"@);
}

proof fn lemma_name_select(word: Seq<char>)
    ensures
        word_selects(word)[0].sql() == MATCH_NAME@ + escaped(pattern(word)) + MATCH_END@,
{
    let s = word_selects(word)[0];
    lemma_digits();
    lemma_holds_sql(Expr::Of("name"@), word);
    reveal_strlit("name");
    lemma_plain_literal("name"@);
    reveal_strlit("SELECT ");
    reveal_strlit("unique_id");
    reveal_strlit(", ");
    reveal_strlit(" AS matched_field");
    reveal_strlit(" AS priority");
    reveal_strlit(" FROM base WHERE ");
    reveal_strlit(" ILIKE '%' || '");
    reveal_strlit(
        "SELECT unique_id, 'name' AS matched_field, 1 AS priority FROM base \
     WHERE name ILIKE '%' || '",
    );
    let head = "SELECT "@ + "unique_id"@ + ", "@ + (seq!['\''] + "name"@ + seq!['\''])
        + " AS matched_field"@ + ", "@ + seq!['1'] + " AS priority"@ + " FROM base WHERE "@ + "name"@
        + " ILIKE '%' || '"@;
    assert(MATCH_NAME@ =~= head);
    let q = escaped(pattern(word));
    assert(s.sql() =~= head + q + MATCH_END@);
}

#[verifier::spinoff_prover]
#[verifier::rlimit(40)]
proof fn lemma_column_select(word: Seq<char>)
    ensures
        MATCH_END@ + "\n"@ + "UNION ALL"@ + "\n"@ + word_selects(word)[1].sql() == MATCH_COLUMN@
            + escaped(pattern(word)) + MATCH_END@,
{
    let s = word_selects(word)[1];
    lemma_digits();
    lemma_holds_sql(Expr::Of("c.column_name"@), word);
    reveal_strlit("column");
    lemma_plain_literal("column"@);
    reveal_strlit("SELECT ");
    reveal_strlit("b.unique_id");
    reveal_strlit(", ");
    reveal_strlit("c.column_name");
    reveal_strlit(" FROM base b JOIN dbt.node_columns c USING (unique_id) WHERE ");
    reveal_strlit(" ILIKE '%' || '");
    reveal_strlit("\n");
    reveal_strlit("UNION ALL");
    reveal_strlit("' || '%' ESCAPE '\\'");
    reveal_strlit(
        "' || '%' ESCAPE '\\'\n\
     UNION ALL\n\
     SELECT b.unique_id, 'column', 2 FROM base b \
     JOIN dbt.node_columns c USING (unique_id) \
     WHERE c.column_name ILIKE '%' || '",
    );
    let head = "SELECT "@ + "b.unique_id"@ + ", "@ + (seq!['\''] + "column"@ + seq!['\'']) + ", "@
        + seq!['2'] + " FROM base b JOIN dbt.node_columns c USING (unique_id) WHERE "@
        + "c.column_name"@ + " ILIKE '%' || '"@;
    let lead = MATCH_END@ + "\n"@ + "UNION ALL"@ + "\n"@;
    assert(MATCH_COLUMN@ =~= lead + head);
    let q = escaped(pattern(word));
    assert(s.sql() =~= head + q + MATCH_END@);
    assert(lead + (head + q + MATCH_END@) =~= (lead + head) + q + MATCH_END@);
}

#[verifier::spinoff_prover]
#[verifier::rlimit(40)]
proof fn lemma_tag_select(word: Seq<char>)
    ensures
        MATCH_END@ + "\n"@ + "UNION ALL"@ + "\n"@ + word_selects(word)[2].sql() == MATCH_TAG@
            + escaped(pattern(word)) + (MATCH_END@ + ")) > 0"@),
{
    let s = word_selects(word)[2];
    lemma_digits();
    lemma_holds_sql(Expr::Of("x"@), word);
    reveal_with_fuel(Pred::sql, 3);
    reveal_strlit("tag");
    lemma_plain_literal("tag"@);
    reveal_strlit("SELECT ");
    reveal_strlit("unique_id");
    reveal_strlit(", ");
    reveal_strlit("tags");
    reveal_strlit("x");
    reveal_strlit(" IS NOT NULL");
    reveal_strlit(" AND ");
    reveal_strlit("len(list_filter(");
    reveal_strlit(", x -> ");
    reveal_strlit(" FROM base WHERE ");
    reveal_strlit(" ILIKE '%' || '");
    reveal_strlit("\n");
    reveal_strlit("UNION ALL");
    reveal_strlit("' || '%' ESCAPE '\\'");
    reveal_strlit(
        "' || '%' ESCAPE '\\'\n\
     UNION ALL\n\
     SELECT unique_id, 'tag', 3 FROM base \
     WHERE tags IS NOT NULL \
     AND len(list_filter(tags, x -> x ILIKE '%' || '",
    );
    let head = "SELECT "@ + "unique_id"@ + ", "@ + (seq!['\''] + "tag"@ + seq!['\'']) + ", "@ + seq![
        '3',
    ] + " FROM base WHERE "@ + ("tags"@ + " IS NOT NULL"@) + " AND "@ + ("len(list_filter("@
        + "tags"@ + ", x -> "@ + "x"@ + " ILIKE '%' || '"@);
    let lead = MATCH_END@ + "\n"@ + "UNION ALL"@ + "\n"@;
    assert(MATCH_TAG@ =~= lead + head);
    let q = escaped(pattern(word));
    assert(s.sql() =~= head + q + (MATCH_END@ + ")) > 0"@));
    assert(lead + (head + q + (MATCH_END@ + ")) > 0"@)) =~= (lead + head) + q + (MATCH_END@
        + ")) > 0"@));
}

#[verifier::spinoff_prover]
#[verifier::rlimit(40)]
proof fn lemma_fqn_select(word: Seq<char>)
    ensures
        (MATCH_END@ + ")) > 0"@) + "\n"@ + "UNION ALL"@ + "\n"@ + word_selects(word)[3].sql()
            == MATCH_FQN@ + escaped(pattern(word)) + MATCH_END@,
{
    let s = word_selects(word)[3];
    lemma_digits();
    lemma_holds_sql(Expr::Joined("fqn"@, "."@), word);
    reveal_with_fuel(Pred::sql, 3);
    reveal_with_fuel(Expr::sql, 2);
    reveal_strlit("fqn");
    lemma_plain_literal("fqn"@);
    reveal_strlit(".");
    lemma_plain_literal("."@);
    reveal_strlit("SELECT ");
    reveal_strlit("unique_id");
    reveal_strlit(", ");
    reveal_strlit(" IS NOT NULL");
    reveal_strlit(" AND ");
    reveal_strlit("array_to_string(");
    reveal_strlit(")");
    reveal_strlit(")) > 0");
    reveal_strlit(" FROM base WHERE ");
    reveal_strlit(" ILIKE '%' || '");
    reveal_strlit("\n");
    reveal_strlit("UNION ALL");
    reveal_strlit("' || '%' ESCAPE '\\'");
    reveal_strlit(
        "' || '%' ESCAPE '\\')) > 0\n\
     UNION ALL\n\
     SELECT unique_id, 'fqn', 4 FROM base \
     WHERE fqn IS NOT NULL \
     AND array_to_string(fqn, '.') ILIKE '%' || '",
    );
    let head = "SELECT "@ + "unique_id"@ + ", "@ + (seq!['\''] + "fqn"@ + seq!['\'']) + ", "@ + seq![
        '4',
    ] + " FROM base WHERE "@ + ("fqn"@ + " IS NOT NULL"@) + " AND "@ + ("array_to_string("@
        + "fqn"@ + ", "@ + (seq!['\''] + "."@ + seq!['\'']) + ")"@ + " ILIKE '%' || '"@);
    let lead = MATCH_END@ + ")) > 0"@ + "\n"@ + "UNION ALL"@ + "\n"@;
    assert(MATCH_FQN@ =~= lead + head);
    let q = escaped(pattern(word));
    assert(s.sql() =~= head + q + MATCH_END@);
    assert(lead + (head + q + MATCH_END@) =~= (lead + head) + q + MATCH_END@);
}

#[verifier::spinoff_prover]
#[verifier::rlimit(40)]
proof fn lemma_description_select(word: Seq<char>)
    ensures
        MATCH_END@ + "\n"@ + "UNION ALL"@ + "\n"@ + word_selects(word)[4].sql()
            == MATCH_DESCRIPTION@ + escaped(pattern(word)) + MATCH_END@,
{
    let s = word_selects(word)[4];
    lemma_digits();
    lemma_holds_sql(Expr::Of("description"@), word);
    reveal_strlit("description");
    lemma_plain_literal("description"@);
    reveal_strlit("SELECT ");
    reveal_strlit("unique_id");
    reveal_strlit(", ");
    reveal_strlit(" FROM base WHERE ");
    reveal_strlit(" ILIKE '%' || '");
    reveal_strlit("\n");
    reveal_strlit("UNION ALL");
    reveal_strlit("' || '%' ESCAPE '\\'");
    reveal_strlit(
        "' || '%' ESCAPE '\\'\n\
     UNION ALL\n\
     SELECT unique_id, 'description', 5 FROM base \
     WHERE description ILIKE '%' || '",
    );
    let head = "SELECT "@ + "unique_id"@ + ", "@ + (seq!['\''] + "description"@ + seq!['\'']) + ", "@
        + seq!['5'] + " FROM base WHERE "@ + "description"@ + " ILIKE '%' || '"@;
    let lead = MATCH_END@ + "\n"@ + "UNION ALL"@ + "\n"@;
    assert(MATCH_DESCRIPTION@ =~= lead + head);
    let q = escaped(pattern(word));
    assert(s.sql() =~= head + q + MATCH_END@);
    assert(lead + (head + q + MATCH_END@) =~= (lead + head) + q + MATCH_END@);
}

proof fn lemma_chain(
    a: Seq<char>,
    q: Seq<char>,
    e: Seq<char>,
    e2: Seq<char>,
    u: Seq<char>,
    c: Seq<char>,
    t: Seq<char>,
    f: Seq<char>,
    d: Seq<char>,
    s0: Seq<char>,
    s1: Seq<char>,
    s2: Seq<char>,
    s3: Seq<char>,
    s4: Seq<char>,
)
    requires
        s0 == a + q + e,
        e + u + s1 == c + q + e,
        e + u + s2 == t + q + e2,
        e2 + u + s3 == f + q + e,
        e + u + s4 == d + q + e,
    ensures
        a + q + c + q + t + q + f + q + d + q + e == s0 + u + s1 + u + s2 + u + s3 + u + s4,
{
    let x1 = a + q;
    assert(s0 + u + s1 =~= x1 + (e + u + s1));
    let x2 = x1 + c + q;
    assert(x1 + (c + q + e) =~= x2 + e);
    assert(x2 + e + u + s2 =~= x2 + (e + u + s2));
    let x3 = x2 + t + q;
    assert(x2 + (t + q + e2) =~= x3 + e2);
    assert(x3 + e2 + u + s3 =~= x3 + (e2 + u + s3));
    let x4 = x3 + f + q;
    assert(x3 + (f + q + e) =~= x4 + e);
    assert(x4 + e + u + s4 =~= x4 + (e + u + s4));
    assert(x4 + (d + q + e) =~= x4 + d + q + e);
}

proof fn lemma_unioned_five(parts: Seq<Seq<char>>, u: Seq<char>)
    requires
        parts.len() == 5,
        u == "\n"@ + "UNION ALL"@ + "\n"@,
    ensures
        unioned(parts, 5, "\n"@) == parts[0] + u + parts[1] + u + parts[2] + u + parts[3] + u
            + parts[4],
{
    reveal_with_fuel(unioned, 6);
    let n = "\n"@;
    let w = "UNION ALL"@;
    assert(parts[0] + n + w + n =~= parts[0] + u);
    let a = parts[0] + u + parts[1];
    assert(a + n + w + n =~= a + u);
    let b = a + u + parts[2];
    assert(b + n + w + n =~= b + u);
    let c = b + u + parts[3];
    assert(c + n + w + n =~= c + u);
}

proof fn lemma_token_sql(word: Seq<char>)
    ensures
        token_matches(word) == unioned(select_sqls(word_selects(word)), 5, "\n"@),
{
    let parts = select_sqls(word_selects(word));
    let u = "\n"@ + "UNION ALL"@ + "\n"@;
    lemma_unioned_five(parts, u);
    lemma_name_select(word);
    lemma_column_select(word);
    lemma_tag_select(word);
    lemma_fqn_select(word);
    lemma_description_select(word);
    let e = MATCH_END@;
    let e2 = e + ")) > 0"@;
    assert(e + u + parts[1] =~= e + "\n"@ + "UNION ALL"@ + "\n"@ + parts[1]);
    assert(e + u + parts[2] =~= e + "\n"@ + "UNION ALL"@ + "\n"@ + parts[2]);
    assert(e2 + u + parts[3] =~= e2 + "\n"@ + "UNION ALL"@ + "\n"@ + parts[3]);
    assert(e + u + parts[4] =~= e + "\n"@ + "UNION ALL"@ + "\n"@ + parts[4]);
    lemma_chain(
        MATCH_NAME@,
        escaped(pattern(word)),
        e,
        e2,
        u,
        MATCH_COLUMN@,
        MATCH_TAG@,
        MATCH_FQN@,
        MATCH_DESCRIPTION@,
        parts[0],
        parts[1],
        parts[2],
        parts[3],
        parts[4],
    );
}

proof fn lemma_field_names()
    ensures
        "name"@ != "column"@,
        "name"@ != "tag"@,
        "name"@ != "fqn"@,
        "name"@ != "description"@,
        "column"@ != "tag"@,
        "column"@ != "fqn"@,
        "column"@ != "description"@,
        "tag"@ != "fqn"@,
        "tag"@ != "description"@,
        "fqn"@ != "description"@,
{
    reveal_strlit("name");
    reveal_strlit("column");
    reveal_strlit("tag");
    reveal_strlit("fqn");
    reveal_strlit("description");
    assert("name"@.len() == 4 && "column"@.len() == 6 && "tag"@.len() == 3 && "fqn"@.len() == 3
        && "description"@.len() == 11 && "tag"@[0] == 't' && "fqn"@[0] == 'f');
}

proof fn lemma_takes(word: Seq<char>, r: Resource, l: Letters)
    ensures
        word_selects(word)[0].takes(r, l) == word_is_in(r, word, "name"@, l),
        word_selects(word)[1].takes(r, l) == word_is_in(r, word, "column"@, l),
        word_selects(word)[2].takes(r, l) == word_is_in(r, word, "tag"@, l),
        word_selects(word)[3].takes(r, l) == word_is_in(r, word, "fqn"@, l),
        word_selects(word)[4].takes(r, l) == word_is_in(r, word, "description"@, l),
        are_selects(word_selects(word)),
{
    reveal_with_fuel(Pred::holds, 3);
    reveal_with_fuel(Pred::is_sql, 3);
    reveal_with_fuel(Expr::eval, 2);
    lemma_field_names();
    if let Some(t) = r.row.at("name"@) {
        lemma_pattern_finds(t, word, l.alike);
    }
    if let Some(t) = r.row.at("description"@) {
        lemma_pattern_finds(t, word, l.alike);
    }
    if let Some(parts) = r.row.list("fqn"@) {
        lemma_pattern_finds(joined(parts, "."@), word, l.alike);
    }
    let by_column = word_selects(word)[1];
    assert forall|i: int| 0 <= i < r.columns.len() implies by_column.cond.holds(
        with_column(r.row, #[trigger] r.columns[i]),
        l,
    ) == finds(r.columns[i], word, l.alike) by {
        lemma_pattern_finds(r.columns[i], word, l.alike);
        assert(with_column(r.row, r.columns[i]).at("c.column_name"@) == Some(r.columns[i]));
    }
    if by_column.takes(r, l) {
        let i = choose|i: int|
            0 <= i < r.columns.len() && by_column.cond.holds(
                with_column(r.row, #[trigger] r.columns[i]),
                l,
            );
        assert(finds(r.columns[i], word, l.alike));
    }
    if found_among(r.columns, word, l) {
        let i = choose|i: int|
            0 <= i < r.columns.len() && finds(#[trigger] r.columns[i], word, l.alike);
        assert(by_column.cond.holds(with_column(r.row, r.columns[i]), l));
    }
    if let Some(tags) = r.row.list("tags"@) {
        let p = Pred::Holds(Expr::Of("x"@), word);
        assert forall|i: int| 0 <= i < tags.len() implies p.holds(
            r.row.with_item(#[trigger] tags[i]),
            l,
        ) == finds(tags[i], word, l.alike) by {
            lemma_pattern_finds(tags[i], word, l.alike);
            assert(r.row.with_item(tags[i]).at("x"@) == Some(tags[i]));
        }
        let any = Pred::AnyItem("tags"@, Box::new(p));
        if any.holds(r.row, l) {
            let i = choose|i: int|
                0 <= i < tags.len() && p.holds(r.row.with_item(#[trigger] tags[i]), l);
            assert(finds(tags[i], word, l.alike));
        }
        if found_among(tags, word, l) {
            let i = choose|i: int|
                0 <= i < tags.len() && finds(#[trigger] tags[i], word, l.alike);
            assert(p.holds(r.row.with_item(tags[i]), l));
        }
    }
}

/// Whether a text selects exactly the matches of a word.
pub open spec fn selects_matches(sql: Seq<char>, word: Seq<char>) -> bool {
    exists|ss: Seq<Select>|
        {
            &&& sql == #[trigger] unioned(select_sqls(ss), ss.len(), "\n"@)
            &&& are_selects(ss)
            &&& forall|b: Base, id: Seq<char>, field: Seq<char>, priority: nat|
                has_match(ss, b, id, field, priority) == #[trigger] is_match(
                    b,
                    word,
                    id,
                    field,
                    priority,
                )
        }
}

proof fn lemma_has_match(word: Seq<char>, b: Base, id: Seq<char>)
    ensures
        forall|field: Seq<char>, priority: nat|
            has_match(word_selects(word), b, id, field, priority) == #[trigger] is_match(
                b,
                word,
                id,
                field,
                priority,
            ),
{
    let ss = word_selects(word);
    lemma_field_names();
    assert forall|field: Seq<char>, priority: nat|
        has_match(ss, b, id, field, priority) == #[trigger] is_match(
            b,
            word,
            id,
            field,
            priority,
        ) by {
        if let Some(r) = (b.at)(id) {
            lemma_takes(word, r, b.letters);
            if is_match(b, word, id, field, priority) {
                let i: int = strength(field) - 1;
                assert(ss[i].takes(r, b.letters) && ss[i].field == field && ss[i].priority
                    == priority);
            }
            if has_match(ss, b, id, field, priority) {
                let i = choose|i: int|
                    0 <= i < ss.len() && (#[trigger] ss[i]).takes(r, b.letters) && ss[i].field
                        == field && ss[i].priority == priority;
                assert(i == 0 || i == 1 || i == 2 || i == 3 || i == 4);
            }
        }
    }
}

/// The matches of a word are the resources that it stands in: in the name, in the name of
/// a column, in a tag, in the dotted name or in the description, whatever characters it
/// holds; the name is the strongest field, the description the weakest.
pub proof fn lemma_word_matches_its_fields(word: Seq<char>)
    ensures
        selects_matches(token_matches(word), word),
{
    let ss = word_selects(word);
    lemma_token_sql(word);
    assert forall|b: Base, id: Seq<char>, field: Seq<char>, priority: nat|
        has_match(ss, b, id, field, priority) == #[trigger] is_match(
            b,
            word,
            id,
            field,
            priority,
        ) by {
        lemma_has_match(word, b, id);
    }
    assert(are_selects(ss)) by {
        lemma_takes(word, arbitrary(), arbitrary());
    }
}

// ---------------------------------------------------------------------------
// Matches of several words
// ---------------------------------------------------------------------------

/// A table that a query defines.
pub open spec fn defined(name: Seq<char>, body: Seq<char>) -> Seq<char> {
    name + " AS (\n"@ + body + "\n)"@
}

/// How sets of ids are put together.
pub ghost enum SetWord {
    Intersect,
    Union,
}

/// The ids of the first `n` of some tables, put together.
pub open spec fn ids_sql(word: SetWord, names: Seq<Seq<char>>, n: nat) -> Seq<char>
    decreases n,
{
    if n == 0 {
        Seq::empty()
    } else if n == 1 {
        "SELECT unique_id FROM "@ + names[0]
    } else {
        ids_sql(word, names, (n - 1) as nat) + (match word {
            SetWord::Intersect => "\nINTERSECT\n"@,
            SetWord::Union => "\nUNION\n"@,
        }) + ("SELECT unique_id FROM "@ + names[n - 1])
    }
}

/// The selections of all rows of some tables.
pub open spec fn all_rows(names: Seq<Seq<char>>) -> Seq<Seq<char>> {
    Seq::new(names.len(), |i: int| "SELECT * FROM "@ + names[i])
}

/// The tables of a search: the matches of each word, put together.
pub ghost struct Tables {
    pub names: Seq<Seq<char>>,
    pub bodies: Seq<Seq<Select>>,
    pub word: SetWord,
}

impl Tables {
    /// The text of the matches of a word.
    pub open spec fn body(self, i: int) -> Seq<char> {
        unioned(select_sqls(self.bodies[i]), self.bodies[i].len(), "\n"@)
    }

    /// The text of the first `n` tables, each with a comma behind it.
    pub open spec fn first(self, n: nat) -> Seq<char>
        decreases n,
    {
        if n == 0 {
            Seq::empty()
        } else {
            self.first((n - 1) as nat) + defined(self.names[n - 1], self.body(n - 1)) + ",\n"@
        }
    }

    /// The text of the tables. One word has its matches alone; several have the ids that
    /// are valid, too, and all matches together.
    pub open spec fn sql(self) -> Seq<char> {
        if self.names.len() == 1 {
            "field_matches AS (\n    "@ + self.body(0) + "\n)"@
        } else {
            self.first(self.names.len()) + defined(
                "valid_unique_ids"@,
                ids_sql(self.word, self.names, self.names.len()),
            ) + ",\n"@ + defined(
                "field_matches"@,
                unioned(all_rows(self.names), self.names.len(), "\n"@),
            )
        }
    }

    /// Whether the tables can be read: no two have the same name.
    pub open spec fn are_tables(self) -> bool {
        &&& self.names.len() == self.bodies.len()
        &&& self.names.len() > 0
        &&& forall|i: int, j: int|
            0 <= i < j < self.names.len() ==> #[trigger] self.names[i] != #[trigger] self.names[j]
        &&& forall|i: int| 0 <= i < self.bodies.len() ==> are_selects(#[trigger] self.bodies[i])
    }

    /// Whether a table has a row for an id.
    pub open spec fn has_id(self, b: Base, i: int, id: Seq<char>) -> bool {
        exists|field: Seq<char>, priority: nat| #[trigger]
            has_match(self.bodies[i], b, id, field, priority)
    }

    /// Whether an id is among all matches.
    pub open spec fn is_matched(self, b: Base, id: Seq<char>) -> bool {
        exists|i: int| 0 <= i < self.names.len() && #[trigger] self.has_id(b, i, id)
    }

    /// Whether an id is valid.
    pub open spec fn is_valid(self, b: Base, id: Seq<char>) -> bool {
        match self.word {
            SetWord::Intersect => forall|i: int|
                0 <= i < self.names.len() ==> #[trigger] self.has_id(b, i, id),
            SetWord::Union => self.is_matched(b, id),
        }
    }

    /// The join with the valid ids, where there are any.
    pub open spec fn join_sql(self, alias: Seq<char>) -> Seq<char> {
        if self.names.len() == 1 {
            Seq::empty()
        } else {
            "JOIN valid_unique_ids vuid ON vuid.unique_id = "@ + alias + ".unique_id"@
        }
    }

    /// Whether an id is a result: it is among the matches, and among the valid ids where it
    /// is joined with them.
    pub open spec fn is_result(self, b: Base, id: Seq<char>) -> bool {
        self.is_matched(b, id) && (self.names.len() == 1 || self.is_valid(b, id))
    }
}

/// Whether a resource is a result of a search: each word matches at least one of its
/// fields.
pub open spec fn is_found(b: Base, words: Seq<Seq<char>>, id: Seq<char>) -> bool {
    forall|i: int| 0 <= i < words.len() ==> word_matches(b, #[trigger] words[i], id)
}

/// Whether tables are those of a search for some words.
pub open spec fn are_tables_for(t: Tables, words: Seq<Seq<char>>) -> bool {
    &&& t.are_tables()
    &&& t.names.len() == words.len()
    &&& forall|b: Base, id: Seq<char>| #[trigger] t.is_result(b, id) == is_found(b, words, id)
    &&& forall|b: Base, id: Seq<char>, field: Seq<char>, priority: nat|
        #![trigger t.has_row(b, id, field, priority)]
        t.has_row(b, id, field, priority) <==> exists|i: int|
            0 <= i < words.len() && is_match(b, #[trigger] words[i], id, field, priority)
}

impl Tables {
    /// Whether all matches have a row.
    pub open spec fn has_row(self, b: Base, id: Seq<char>, field: Seq<char>, priority: nat) -> bool {
        exists|i: int|
            0 <= i < self.bodies.len() && has_match(
                #[trigger] self.bodies[i],
                b,
                id,
                field,
                priority,
            )
    }
}

spec fn tables_of(words: Seq<Seq<char>>) -> Tables {
    Tables {
        names: if words.len() == 1 {
            seq!["field_matches"@]
        } else {
            Seq::new(words.len(), |i: int| token_cte(i))
        },
        bodies: Seq::new(words.len(), |i: int| word_selects(words[i])),
        word: SetWord::Intersect,
    }
}

proof fn lemma_ids_sql(names: Seq<Seq<char>>, n: nat)
    requires
        n <= names.len(),
    ensures
        joined(
            Seq::new(names.len(), |i: int| "SELECT unique_id FROM "@ + names[i]).take(n as int),
            "\nINTERSECT\n"@,
        ) == ids_sql(SetWord::Intersect, names, n),
    decreases n,
{
    let parts = Seq::new(names.len(), |i: int| "SELECT unique_id FROM "@ + names[i]);
    if n > 1 {
        lemma_ids_sql(names, (n - 1) as nat);
        assert(parts.take(n as int).drop_last() =~= parts.take(n - 1));
    }
}

proof fn lemma_first_sql(words: Seq<Seq<char>>, ctes: Seq<Seq<char>>, last: Seq<char>, n: nat)
    requires
        words.len() > 1,
        n <= words.len(),
        ctes.len() == words.len(),
        forall|i: int|
            0 <= i < words.len() ==> #[trigger] ctes[i] == defined(
                token_cte(i),
                token_matches(words[i]),
            ),
    ensures
        joined(ctes.take(n as int).push(last), ",\n"@) == tables_of(words).first(n) + last,
    decreases n,
{
    let t = tables_of(words);
    let s = ctes.take(n as int).push(last);
    if n == 0 {
        assert(s =~= seq![last]);
        assert(t.first(0) + last =~= last);
    } else {
        let prev = ctes[n - 1];
        lemma_first_sql(words, ctes, prev, (n - 1) as nat);
        assert(s.drop_last() =~= ctes.take(n - 1).push(prev));
        lemma_token_sql(words[n - 1]);
        assert(t.body(n - 1) == token_matches(words[n - 1]));
        assert(t.names[n - 1] == token_cte(n - 1));
        let f = t.first((n - 1) as nat);
        assert(joined(s, ",\n"@) == f + prev + ",\n"@ + last);
    }
}

proof fn lemma_tables_sql(words: Seq<Seq<char>>)
    requires
        words.len() > 0,
    ensures
        field_matches(words) == tables_of(words).sql(),
{
    let t = tables_of(words);
    if words.len() == 1 {
        lemma_token_sql(words[0]);
    } else {
        let ctes = Seq::new(
            words.len(),
            |i: int| token_cte(i) + " AS (\n"@ + token_matches(words[i]) + "\n)"@,
        );
        let ids = Seq::new(words.len(), |i: int| "SELECT unique_id FROM "@ + token_cte(i));
        let rows = Seq::new(words.len(), |i: int| "SELECT * FROM "@ + token_cte(i));
        let valid = "valid_unique_ids AS (\n"@ + joined(ids, "\nINTERSECT\n"@) + "\n)"@;
        let all = "field_matches AS (\n"@ + joined(rows, "\nUNION ALL\n"@) + "\n)"@;
        let whole = ctes.push(valid).push(all);
        lemma_ids_sql(t.names, words.len());
        assert(ids =~= Seq::new(t.names.len(), |i: int| "SELECT unique_id FROM "@ + t.names[i]));
        assert(ids.take(words.len() as int) =~= ids);
        reveal_strlit("\nUNION ALL\n");
        reveal_strlit("\n");
        reveal_strlit("UNION ALL");
        assert("\nUNION ALL\n"@ =~= "\n"@ + "UNION ALL"@ + "\n"@);
        lemma_joined_is_unioned(rows, words.len(), "\nUNION ALL\n"@, "\n"@);
        assert(rows.take(words.len() as int) =~= rows);
        assert(rows =~= all_rows(t.names));
        reveal_strlit("valid_unique_ids AS (\n");
        reveal_strlit("valid_unique_ids");
        reveal_strlit("field_matches AS (\n");
        reveal_strlit("field_matches");
        reveal_strlit(" AS (\n");
        assert("valid_unique_ids AS (\n"@ =~= "valid_unique_ids"@ + " AS (\n"@);
        assert("field_matches AS (\n"@ =~= "field_matches"@ + " AS (\n"@);
        lemma_first_sql(words, ctes, valid, words.len());
        assert(ctes.take(words.len() as int) =~= ctes);
        assert(whole.drop_last() =~= ctes.push(valid));
        assert(joined(whole, ",\n"@) == joined(ctes.push(valid), ",\n"@) + ",\n"@ + all);
    }
}

proof fn lemma_names_differ(i: int, j: int)
    requires
        0 <= i < j,
    ensures
        token_cte(i) != token_cte(j),
{
    crate::text_laws::lemma_decimal_reads_back(i as nat);
    crate::text_laws::lemma_decimal_reads_back(j as nat);
    let p = "token_matches_"@;
    assert(token_cte(i).skip(p.len() as int) =~= decimal(i as nat));
    assert(token_cte(j).skip(p.len() as int) =~= decimal(j as nat));
}

proof fn lemma_has_word(words: Seq<Seq<char>>, b: Base, i: int, id: Seq<char>)
    requires
        0 <= i < words.len(),
    ensures
        tables_of(words).has_id(b, i, id) == word_matches(b, words[i], id),
        forall|field: Seq<char>, priority: nat|
            has_match(tables_of(words).bodies[i], b, id, field, priority) == #[trigger] is_match(
                b,
                words[i],
                id,
                field,
                priority,
            ),
{
    let t = tables_of(words);
    let word = words[i];
    assert(t.bodies[i] == word_selects(word));
    lemma_has_match(word, b, id);
    if t.has_id(b, i, id) {
        let (field, priority) = choose|field: Seq<char>, priority: nat| #[trigger]
            has_match(t.bodies[i], b, id, field, priority);
        assert(is_match(b, word, id, field, priority));
    }
    if word_matches(b, word, id) {
        let (field, priority) = choose|field: Seq<char>, priority: nat| #[trigger]
            is_match(b, word, id, field, priority);
        assert(has_match(t.bodies[i], b, id, field, priority));
    }
}

proof fn lemma_tables(words: Seq<Seq<char>>)
    requires
        words.len() > 0,
    ensures
        are_tables_for(tables_of(words), words),
{
    let t = tables_of(words);
    assert forall|i: int, j: int| 0 <= i < j < t.names.len() implies #[trigger] t.names[i]
        != #[trigger] t.names[j] by {
        lemma_names_differ(i, j);
    }
    assert forall|i: int| 0 <= i < t.bodies.len() implies are_selects(#[trigger] t.bodies[i]) by {
        lemma_takes(words[i], arbitrary(), arbitrary());
    }
    assert forall|b: Base, id: Seq<char>| #[trigger] t.is_result(b, id) == is_found(
        b,
        words,
        id,
    ) by {
        assert forall|i: int| 0 <= i < words.len() implies #[trigger] t.has_id(b, i, id)
            == word_matches(b, words[i], id) by {
            lemma_has_word(words, b, i, id);
        }
        if t.is_result(b, id) {
            let k = choose|k: int| 0 <= k < t.names.len() && #[trigger] t.has_id(b, k, id);
            assert forall|i: int| 0 <= i < words.len() implies word_matches(
                b,
                #[trigger] words[i],
                id,
            ) by {
                if words.len() == 1 {
                    assert(i == k);
                }
                assert(t.has_id(b, i, id));
            }
        }
        if is_found(b, words, id) {
            assert(word_matches(b, words[0], id));
            assert(t.has_id(b, 0, id));
            assert forall|i: int| 0 <= i < t.names.len() implies #[trigger] t.has_id(b, i, id) by {
                assert(word_matches(b, words[i], id));
            }
        }
    }
    assert forall|b: Base, id: Seq<char>, field: Seq<char>, priority: nat| #[trigger]
        t.has_row(b, id, field, priority) <==> exists|i: int|
            0 <= i < words.len() && is_match(b, #[trigger] words[i], id, field, priority) by {
        if t.has_row(b, id, field, priority) {
            let i = choose|i: int|
                0 <= i < t.bodies.len() && has_match(
                    #[trigger] t.bodies[i],
                    b,
                    id,
                    field,
                    priority,
                );
            lemma_has_word(words, b, i, id);
            assert(is_match(b, words[i], id, field, priority));
        }
        if exists|i: int|
            0 <= i < words.len() && is_match(b, #[trigger] words[i], id, field, priority) {
            let i = choose|i: int|
                0 <= i < words.len() && is_match(b, #[trigger] words[i], id, field, priority);
            lemma_has_word(words, b, i, id);
            assert(has_match(t.bodies[i], b, id, field, priority));
        }
    }
}

/// The tables of a search find a resource exactly where each word matches at least one of
/// its fields: the valid ids are those that the matches of all words have in common.
pub proof fn lemma_every_word_must_match(words: Seq<Seq<char>>)
    requires
        words.len() > 0,
    ensures
        exists|t: Tables| field_matches(words) == #[trigger] t.sql() && are_tables_for(t, words),
{
    lemma_tables_sql(words);
    lemma_tables(words);
}

/// Another word never adds a result to a search, and takes away those that it does not
/// match.
pub proof fn lemma_more_words_find_less(
    b: Base,
    words: Seq<Seq<char>>,
    word: Seq<char>,
    id: Seq<char>,
)
    ensures
        is_found(b, words.push(word), id) <==> is_found(b, words, id) && word_matches(b, word, id),
{
    let more = words.push(word);
    if is_found(b, more, id) {
        assert forall|i: int| 0 <= i < words.len() implies word_matches(
            b,
            #[trigger] words[i],
            id,
        ) by {
            assert(more[i] == words[i]);
        }
        assert(more[words.len() as int] == word);
    }
}

} // verus!
