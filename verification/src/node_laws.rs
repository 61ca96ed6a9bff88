//! What the queries of the list of nodes and of the models of a group mean.
use crate::groups::{member_condition, member_count_sql, members_sql};
use crate::meaning::{
    both, counts, either, elements, equals, fits, grouped, lemma_and_equals, lemma_and_group,
    lemma_count_is_taken, lemma_plain_literal, listed, literal, reads, same_letter, Expr, Item,
    Letters, Pred, Row,
};
use crate::nodes::{
    node_count_sql, node_filter, node_limit, node_offset, node_refusal, node_rows_sql,
    NodeListParams, NODE_ROWS_HEAD,
};
use crate::sql::{escaped, ident_char, safe_ident};
use crate::text::{decimal, given_text};
use vstd::prelude::*;

verus! {

// ---------------------------------------------------------------------------
// The list of nodes
// ---------------------------------------------------------------------------

/// Whether a value, in lower case, fits a text with anything around it.
pub open spec fn is_like(v: Option<Seq<char>>, q: Seq<char>, l: Letters) -> bool {
    match v {
        Some(x) => fits(
            (l.lower)(x),
            elements((l.lower)(seq!['%'] + q + seq!['%']), false),
            same_letter(),
        ),
        None => false,
    }
}

/// The nodes that the filters ask for: of the type and of the package, and with a name or
/// a unique id like the text, as far as they are given.
pub open spec fn nodes_asked_for(params: NodeListParams) -> spec_fn(Row, Letters) -> bool {
    |row: Row, l: Letters|
        {
            &&& params.resource_type matches Some(t) ==> row.at("resource_type"@) == Some(t@)
            &&& params.package matches Some(p) ==> row.at("package_name"@) == Some(p@)
            &&& given_text(params.q) matches Some(q) ==> is_like(row.at("name"@), q, l) || is_like(
                row.at("unique_id"@),
                q,
                l,
            )
        }
}

spec fn type_pred(params: NodeListParams) -> Pred {
    match params.resource_type {
        Some(t) => both(Pred::Always, equals("resource_type"@, t@)),
        None => Pred::Always,
    }
}

spec fn package_pred(params: NodeListParams) -> Pred {
    match params.package {
        Some(p) => both(type_pred(params), equals("package_name"@, p@)),
        None => type_pred(params),
    }
}

spec fn like_pred(q: Seq<char>) -> Pred {
    let p = seq!['%'] + q + seq!['%'];
    either(Pred::LowerLike("name"@, p), Pred::LowerLike("unique_id"@, p))
}

spec fn node_pred(params: NodeListParams) -> Pred {
    match given_text(params.q) {
        Some(q) => both(package_pred(params), grouped(like_pred(q))),
        None => package_pred(params),
    }
}

proof fn lemma_plain_ident(s: Seq<char>)
    requires
        safe_ident(s),
    ensures
        escaped(s) == s,
{
    assert forall|i: int| 0 <= i < s.len() implies s[i] != '\'' by {
        assert(ident_char(s[i]));
    }
    lemma_plain_literal(s);
}

#[verifier::spinoff_prover]
#[verifier::rlimit(40)]
proof fn lemma_node_package_sql(params: NodeListParams)
    requires
        node_refusal(params) is None,
    ensures
        "WHERE 1=1"@ + (match params.resource_type {
            Some(t) => " AND resource_type = '"@ + t@ + "'"@,
            None => ""@,
        }) + (match params.package {
            Some(p) => " AND package_name = '"@ + p@ + "'"@,
            None => ""@,
        }) == "WHERE "@ + package_pred(params).sql(),
        package_pred(params).is_factor(),
{
    reveal_with_fuel(Pred::sql, 2);
    reveal_with_fuel(Pred::is_sql, 2);
    reveal_strlit("WHERE 1=1");
    reveal_strlit("WHERE ");
    reveal_strlit("1=1");
    reveal_strlit("");
    reveal_strlit(" AND ");
    reveal_strlit(" = ");
    reveal_strlit("resource_type");
    reveal_strlit("package_name");
    reveal_strlit(" AND resource_type = '");
    reveal_strlit(" AND package_name = '");
    assert(" AND resource_type = '"@ =~= " AND "@ + "resource_type"@ + " = "@ + seq!['\'']);
    assert(" AND package_name = '"@ =~= " AND "@ + "package_name"@ + " = "@ + seq!['\'']);
    let a = "WHERE 1=1"@;
    assert(a =~= "WHERE "@ + Pred::Always.sql());
    assert(Pred::Always.is_factor());
    let first = match params.resource_type {
        Some(t) => " AND resource_type = '"@ + t@ + "'"@,
        None => ""@,
    };
    match params.resource_type {
        Some(t) => {
            lemma_plain_ident(t@);
            lemma_and_equals(a, Pred::Always, " AND resource_type = '"@, "resource_type"@, t@);
        },
        None => {
            assert(a + ""@ =~= a);
        },
    }
    let b = a + first;
    assert(b == "WHERE "@ + type_pred(params).sql());
    match params.package {
        Some(p) => {
            lemma_plain_ident(p@);
            lemma_and_equals(b, type_pred(params), " AND package_name = '"@, "package_name"@, p@);
        },
        None => {
            assert(b + ""@ =~= b);
        },
    }
}

#[verifier::spinoff_prover]
#[verifier::rlimit(40)]
proof fn lemma_like_sql(q: Seq<char>)
    ensures
        " AND (LOWER(name) LIKE LOWER('%"@ + escaped(q)
            + "%') OR LOWER(unique_id) LIKE LOWER('%"@ + escaped(q) + "%'))"@ == " AND "@ + "("@
            + like_pred(q).sql() + ")"@,
        like_pred(q).is_sql(),
{
    let p = seq!['%'] + q + seq!['%'];
    lemma_pattern_literal(q);
    reveal_with_fuel(Pred::sql, 2);
    reveal_with_fuel(Pred::is_sql, 2);
    reveal_strlit(" AND (LOWER(name) LIKE LOWER('%");
    reveal_strlit("%') OR LOWER(unique_id) LIKE LOWER('%");
    reveal_strlit("%'))");
    reveal_strlit(" AND ");
    reveal_strlit("(");
    reveal_strlit(")");
    reveal_strlit("LOWER(");
    reveal_strlit("name");
    reveal_strlit("unique_id");
    reveal_strlit(") LIKE LOWER(");
    reveal_strlit(" OR ");
    let e = escaped(q);
    assert(like_pred(q).sql() == "LOWER("@ + "name"@ + ") LIKE LOWER("@ + literal(p) + ")"@
        + " OR "@ + ("LOWER("@ + "unique_id"@ + ") LIKE LOWER("@ + literal(p) + ")"@));
    assert(" AND (LOWER(name) LIKE LOWER('%"@ =~= " AND "@ + "("@ + "LOWER("@ + "name"@
        + ") LIKE LOWER("@ + seq!['\'', '%']);
    assert("%') OR LOWER(unique_id) LIKE LOWER('%"@ =~= seq!['%', '\''] + ")"@ + " OR "@ + "LOWER("@
        + "unique_id"@ + ") LIKE LOWER("@ + seq!['\'', '%']);
    assert("%'))"@ =~= seq!['%', '\''] + ")"@ + ")"@);
    lemma_regroup_like(
        " AND "@ + "("@,
        "LOWER("@ + "name"@ + ") LIKE LOWER("@,
        seq!['\'', '%'],
        e,
        seq!['%', '\''],
        ")"@,
        " OR "@,
        "LOWER("@ + "unique_id"@ + ") LIKE LOWER("@,
    );
    assert(" AND "@ + "("@ + "LOWER("@ + "name"@ + ") LIKE LOWER("@ + seq!['\'', '%'] =~= " AND "@
        + "("@ + ("LOWER("@ + "name"@ + ") LIKE LOWER("@) + seq!['\'', '%']);
    assert(seq!['%', '\''] + ")"@ + " OR "@ + "LOWER("@ + "unique_id"@ + ") LIKE LOWER("@ + seq![
        '\'',
        '%',
    ] =~= seq!['%', '\''] + ")"@ + " OR "@ + ("LOWER("@ + "unique_id"@ + ") LIKE LOWER("@) + seq![
        '\'',
        '%',
    ]);
}

proof fn lemma_pattern_literal(q: Seq<char>)
    ensures
        literal(seq!['%'] + q + seq!['%']) == seq!['\'', '%'] + escaped(q) + seq!['%', '\''],
{
    let p = seq!['%'] + q;
    lemma_escaped_push(p, '%');
    lemma_escaped_front(q, '%');
    assert(p.push('%') =~= seq!['%'] + q + seq!['%']);
    assert(literal(seq!['%'] + q + seq!['%']) =~= seq!['\'', '%'] + escaped(q) + seq!['%', '\'']);
}

proof fn lemma_escaped_push(s: Seq<char>, c: char)
    requires
        c != '\'',
    ensures
        escaped(s.push(c)) == escaped(s).push(c),
{
    assert(s.push(c).drop_last() =~= s);
    assert(escaped(s.push(c)) =~= escaped(s).push(c));
}

proof fn lemma_escaped_front(s: Seq<char>, c: char)
    requires
        c != '\'',
    ensures
        escaped(seq![c] + s) == seq![c] + escaped(s),
    decreases s.len(),
{
    let t = seq![c] + s;
    if s.len() == 0 {
        assert(t.drop_last() =~= Seq::<char>::empty());
        assert(escaped(Seq::<char>::empty()) =~= Seq::<char>::empty());
        assert(escaped(t) =~= seq![c] + escaped(s));
    } else {
        assert(t.drop_last() =~= seq![c] + s.drop_last());
        lemma_escaped_front(s.drop_last(), c);
        assert(escaped(t) =~= seq![c] + escaped(s));
    }
}

proof fn lemma_regroup_like(
    a: Seq<char>,
    n: Seq<char>,
    l: Seq<char>,
    e: Seq<char>,
    r: Seq<char>,
    c: Seq<char>,
    o: Seq<char>,
    u: Seq<char>,
)
    ensures
        a + n + l + e + (r + c + o + u + l) + e + (r + c + c) == a + (n + (l + e + r) + c + o + (u + (
        l + e + r) + c)) + c,
{
    assert(a + n + l + e + (r + c + o + u + l) + e + (r + c + c) =~= a + (n + (l + e + r) + c + o + (u
        + (l + e + r) + c)) + c);
}

proof fn lemma_node_filter_sql(params: NodeListParams)
    requires
        node_refusal(params) is None,
    ensures
        node_filter(params) == "WHERE "@ + node_pred(params).sql(),
        node_pred(params).is_factor(),
{
    lemma_node_package_sql(params);
    let b = "WHERE "@ + package_pred(params).sql();
    match given_text(params.q) {
        Some(q) => {
            lemma_like_sql(q);
            lemma_and_group(b, package_pred(params), " AND "@ + "("@, like_pred(q));
        },
        None => {
            reveal_strlit("");
            assert(b + ""@ =~= b);
        },
    }
}

proof fn lemma_node_filter_holds(params: NodeListParams, row: Row, l: Letters)
    ensures
        node_pred(params).holds(row, l) == nodes_asked_for(params)(row, l),
{
    reveal_with_fuel(Pred::holds, 6);
    reveal_with_fuel(Expr::eval, 2);
    assert(type_pred(params).holds(row, l) == (params.resource_type matches Some(t) ==> row.at(
        "resource_type"@,
    ) == Some(t@)));
    assert(package_pred(params).holds(row, l) == (type_pred(params).holds(row, l) && (
    params.package matches Some(p) ==> row.at("package_name"@) == Some(p@))));
}

/// What a node of the list is shown with.
pub open spec fn node_items() -> Seq<Item> {
    seq![
        Item::Plain("unique_id"@),
        Item::Plain("name"@),
        Item::Plain("resource_type"@),
        Item::Plain("package_name"@),
        Item::Plain("materialized"@),
        Item::Plain("description"@),
        Item::Plain("database_name"@),
        Item::Plain("schema_name"@),
        Item::Plain("original_file_path"@),
    ]
}

#[verifier::spinoff_prover]
#[verifier::rlimit(40)]
proof fn lemma_node_head()
    ensures
        NODE_ROWS_HEAD@ == "SELECT "@ + listed(node_items(), 9) + " FROM "@ + "dbt.nodes"@ + " "@,
{
    reveal_with_fuel(listed, 6);
    reveal_strlit("SELECT ");
    reveal_strlit(" FROM ");
    reveal_strlit("dbt.nodes");
    reveal_strlit(" ");
    reveal_strlit(", ");
    reveal_strlit("unique_id");
    reveal_strlit("name");
    reveal_strlit("resource_type");
    reveal_strlit("package_name");
    reveal_strlit("materialized");
    reveal_strlit("description");
    reveal_strlit("database_name");
    reveal_strlit("schema_name");
    reveal_strlit("original_file_path");
    reveal_strlit("unique_id, name, resource_type, package_name, materialized");
    reveal_strlit("unique_id, name, resource_type, package_name, materialized, description, database_name, schema_name, original_file_path");
    reveal_strlit(
        "SELECT unique_id, name, resource_type, package_name, materialized, \
     description, database_name, schema_name, original_file_path FROM dbt.nodes ",
    );
    let items = node_items();
    assert(listed(items, 5) =~= "unique_id, name, resource_type, package_name, materialized"@);
    assert(listed(items, 9)
        =~= "unique_id, name, resource_type, package_name, materialized, description, database_name, schema_name, original_file_path"@);
}

/// Whether two queries are those of the list: the count is that of all nodes that are asked
/// for, and the page holds, of the same, as many as the limit behind those that are
/// skipped, by type and name.
pub open spec fn lists_nodes(
    count_sql: Seq<char>,
    rows_sql: Seq<char>,
    params: NodeListParams,
) -> bool {
    &&& counts(count_sql, Seq::empty(), "dbt.nodes"@, nodes_asked_for(params))
    &&& reads(
        rows_sql,
        Seq::empty(),
        node_items(),
        "dbt.nodes"@,
        nodes_asked_for(params),
        " ORDER BY resource_type, name LIMIT "@ + decimal(node_limit(params) as nat)
            + " OFFSET "@ + decimal(node_offset(params) as nat),
    )
}

/// The list holds the nodes that are asked for.
pub proof fn lemma_node_list(params: NodeListParams)
    requires
        node_refusal(params) is None,
    ensures
        lists_nodes(node_count_sql(params), node_rows_sql(params), params),
{
    let p = node_pred(params);
    lemma_node_filter_sql(params);
    assert forall|row: Row, l: Letters| p.holds(row, l) == #[trigger] nodes_asked_for(params)(
        row,
        l,
    ) by {
        lemma_node_filter_holds(params, row, l);
    }
    lemma_count_is_taken(Seq::empty(), "dbt.nodes"@, p, nodes_asked_for(params));
    reveal_strlit("SELECT count(*) FROM dbt.nodes ");
    reveal_strlit("SELECT count(*) FROM ");
    reveal_strlit("dbt.nodes");
    reveal_strlit(" ");
    reveal_strlit("WHERE ");
    reveal_strlit(" WHERE ");
    assert("SELECT count(*) FROM dbt.nodes "@ =~= Seq::<char>::empty() + "SELECT count(*) FROM "@
        + "dbt.nodes"@ + " "@);
    lemma_node_head();
    let rest = " ORDER BY resource_type, name LIMIT "@ + decimal(node_limit(params) as nat)
        + " OFFSET "@ + decimal(node_offset(params) as nat);
    lemma_regroup_rows(
        "SELECT "@ + listed(node_items(), 9) + " FROM "@ + "dbt.nodes"@,
        " "@,
        "WHERE "@,
        p.sql(),
        " ORDER BY resource_type, name LIMIT "@,
        decimal(node_limit(params) as nat),
        " OFFSET "@,
        decimal(node_offset(params) as nat),
    );
    assert(" WHERE "@ =~= " "@ + "WHERE "@);
    let head = Seq::<char>::empty() + "SELECT "@ + listed(node_items(), 9) + " FROM "@
        + "dbt.nodes"@;
    assert(head =~= "SELECT "@ + listed(node_items(), 9) + " FROM "@ + "dbt.nodes"@);
    assert(node_items().len() == 9);
    assert(node_rows_sql(params) == head + " WHERE "@ + p.sql() + rest);
}

proof fn lemma_regroup_rows(
    h: Seq<char>,
    s: Seq<char>,
    w: Seq<char>,
    p: Seq<char>,
    a: Seq<char>,
    b: Seq<char>,
    c: Seq<char>,
    d: Seq<char>,
)
    ensures
        h + s + (w + p) + a + b + c + d == h + (s + w) + p + (a + b + c + d),
        h + s + (w + p) + a + b == h + (s + w) + p + (a + b),
{
    assert(h + s + (w + p) + a + b + c + d =~= h + (s + w) + p + (a + b + c + d));
    assert(h + s + (w + p) + a + b =~= h + (s + w) + p + (a + b));
}

// ---------------------------------------------------------------------------
// The models of a group
// ---------------------------------------------------------------------------

/// The models of a group: of its name, and of its package where it has one.
pub open spec fn members_of(name: Seq<char>, package: Option<Seq<char>>) -> spec_fn(
    Row,
    Letters,
) -> bool {
    |row: Row, l: Letters|
        {
            &&& row.at("n.resource_type"@) == Some("model"@)
            &&& row.at("n.group_name"@) == Some(name)
            &&& package is Some ==> row.at("n.package_name"@) == package
        }
}

/// What a model of a group is shown with.
pub open spec fn member_items() -> Seq<Item> {
    seq![
        Item::Of("n"@, "unique_id"@),
        Item::Of("n"@, "name"@),
        Item::Of("n"@, "database_name"@),
        Item::Of("n"@, "schema_name"@),
        Item::Of("n"@, "contract_enforced"@),
    ]
}

spec fn named_pred(name: Seq<char>) -> Pred {
    both(equals("n.group_name"@, name), equals("n.resource_type"@, "model"@))
}

spec fn member_pred(name: Seq<char>, package: Option<Seq<char>>) -> Pred {
    match package {
        Some(package) => both(named_pred(name), equals("n.package_name"@, package)),
        None => named_pred(name),
    }
}

#[verifier::spinoff_prover]
#[verifier::rlimit(40)]
proof fn lemma_member_sql(name: Seq<char>, package: Option<Seq<char>>)
    ensures
        member_condition(name, package) == "WHERE "@ + member_pred(name, package).sql(),
        member_pred(name, package).is_factor(),
{
    reveal_with_fuel(Pred::sql, 3);
    reveal_with_fuel(Pred::is_sql, 3);
    reveal_with_fuel(Expr::sql, 2);
    reveal_strlit("WHERE n.group_name = '");
    reveal_strlit("' AND n.resource_type = 'model'");
    reveal_strlit("WHERE ");
    reveal_strlit("n.group_name");
    reveal_strlit(" = ");
    reveal_strlit(" AND ");
    reveal_strlit("n.resource_type");
    reveal_strlit("model");
    reveal_strlit("");
    reveal_strlit("n.package_name");
    reveal_strlit(" AND n.package_name = '");
    lemma_plain_literal("model"@);
    assert("WHERE n.group_name = '"@ =~= "WHERE "@ + "n.group_name"@ + " = "@ + seq!['\'']);
    assert("' AND n.resource_type = 'model'"@ =~= seq!['\''] + " AND "@ + ("n.resource_type"@ + " = "@
        + literal("model"@)));
    let a = "WHERE n.group_name = '"@ + escaped(name) + "' AND n.resource_type = 'model'"@;
    assert(equals("n.group_name"@, name).sql() == "n.group_name"@ + " = "@ + literal(name));
    assert(equals("n.resource_type"@, "model"@).sql() == "n.resource_type"@ + " = "@ + literal(
        "model"@,
    ));
    assert(named_pred(name).sql() == "n.group_name"@ + " = "@ + literal(name) + " AND "@ + (
    "n.resource_type"@ + " = "@ + literal("model"@)));
    assert(a =~= "WHERE "@ + named_pred(name).sql());
    assert(named_pred(name).is_factor());
    match package {
        Some(package) => {
            assert(" AND n.package_name = '"@ =~= " AND "@ + "n.package_name"@ + " = "@ + seq!['\'']);
            lemma_and_equals(
                a,
                named_pred(name),
                " AND n.package_name = '"@,
                "n.package_name"@,
                package,
            );
        },
        None => {
            assert(a + ""@ =~= a);
        },
    }
}

#[verifier::spinoff_prover]
#[verifier::rlimit(40)]
proof fn lemma_member_head()
    ensures
        "SELECT n.unique_id, n.name, n.database_name, n.schema_name, n.contract_enforced FROM dbt.nodes n "@
            == "SELECT "@ + listed(member_items(), 5) + " FROM "@ + "dbt.nodes n"@ + " "@,
{
    reveal_with_fuel(listed, 6);
    reveal_strlit("SELECT ");
    reveal_strlit(" FROM ");
    reveal_strlit("dbt.nodes n");
    reveal_strlit(" ");
    reveal_strlit(", ");
    reveal_strlit(".");
    reveal_strlit("n");
    reveal_strlit("unique_id");
    reveal_strlit("name");
    reveal_strlit("database_name");
    reveal_strlit("schema_name");
    reveal_strlit("contract_enforced");
    reveal_strlit("n.unique_id, n.name, n.database_name, n.schema_name, n.contract_enforced");
    reveal_strlit("SELECT n.unique_id, n.name, n.database_name, n.schema_name, n.contract_enforced FROM dbt.nodes n ");
    let items = member_items();
    assert(listed(items, 5)
        =~= "n.unique_id, n.name, n.database_name, n.schema_name, n.contract_enforced"@);
}

/// The models of a group, by name and at most as many as the limit, and their count are
/// those of the group and of its package.
pub proof fn lemma_members(name: Seq<char>, package: Option<Seq<char>>, limit: u32)
    ensures
        counts(
            member_count_sql(name, package),
            Seq::empty(),
            "dbt.nodes n"@,
            members_of(name, package),
        ),
        reads(
            members_sql(name, package, limit),
            Seq::empty(),
            member_items(),
            "dbt.nodes n"@,
            members_of(name, package),
            " ORDER BY n.name LIMIT "@ + decimal(limit as nat),
        ),
{
    let p = member_pred(name, package);
    lemma_member_sql(name, package);
    assert forall|row: Row, l: Letters| p.holds(row, l) == #[trigger] members_of(name, package)(
        row,
        l,
    ) by {
        reveal_with_fuel(Pred::holds, 4);
        reveal_with_fuel(Expr::eval, 2);
        assert(named_pred(name).holds(row, l) == (row.at("n.group_name"@) == Some(name) && row.at(
            "n.resource_type"@,
        ) == Some("model"@)));
    }
    lemma_count_is_taken(Seq::empty(), "dbt.nodes n"@, p, members_of(name, package));
    reveal_strlit("SELECT count(*) FROM dbt.nodes n ");
    reveal_strlit("SELECT count(*) FROM ");
    reveal_strlit("dbt.nodes n");
    reveal_strlit(" ");
    reveal_strlit("WHERE ");
    reveal_strlit(" WHERE ");
    assert("SELECT count(*) FROM dbt.nodes n "@ =~= Seq::<char>::empty() + "SELECT count(*) FROM "@
        + "dbt.nodes n"@ + " "@);
    lemma_member_head();
    let rest = " ORDER BY n.name LIMIT "@ + decimal(limit as nat);
    lemma_regroup_rows(
        "SELECT "@ + listed(member_items(), 5) + " FROM "@ + "dbt.nodes n"@,
        " "@,
        "WHERE "@,
        p.sql(),
        " ORDER BY n.name LIMIT "@,
        decimal(limit as nat),
        Seq::empty(),
        Seq::empty(),
    );
    assert(" WHERE "@ =~= " "@ + "WHERE "@);
    let head = Seq::<char>::empty() + "SELECT "@ + listed(member_items(), 5) + " FROM "@
        + "dbt.nodes n"@;
    assert(head =~= "SELECT "@ + listed(member_items(), 5) + " FROM "@ + "dbt.nodes n"@);
    assert(member_items().len() == 5);
    assert(members_sql(name, package, limit) == head + " WHERE "@ + p.sql() + rest);
}

} // verus!
