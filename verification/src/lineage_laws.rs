//! What the queries of a lineage mean: the nodes that paths lead to, and the edges between
//! them.
use crate::lineage::{
    is_saved_query_graph, is_upstream_edge, is_upstream_node, lowest, walk, LineageEdge,
    LineageNode, EDGES_TAIL, NODES_ALL, NODES_DOWNSTREAM, NODES_DOWNSTREAM_STEP, NODES_TAIL,
    NODES_UPSTREAM, NODES_UPSTREAM_STEP,
};
use crate::meaning::{listed, literal, starts_with_type, table_of, unioned, Item};
use crate::sql::escaped;
use crate::text::{decimal, split_at_first, texts};
use crate::text_laws::{lemma_cut_at_the_first, lemma_last_part_has_no_separator};
use vstd::prelude::*;

verus! {

// ---------------------------------------------------------------------------
// Paths
// ---------------------------------------------------------------------------

/// What the database knows of lineage: which node is a direct parent of which, and which
/// nodes are there.
pub ghost struct Graph {
    pub edge: spec_fn(Seq<char>, Seq<char>) -> bool,
    pub known: spec_fn(Seq<char>) -> bool,
}

/// A direction to walk in: from children to parents, or from parents to children.
pub ghost enum Way {
    Up,
    Down,
}

/// Whether an edge leads from a node to another.
pub open spec fn leads(g: Graph, way: Way, from: Seq<char>, to: Seq<char>) -> bool {
    match way {
        Way::Up => (g.edge)(to, from),
        Way::Down => (g.edge)(from, to),
    }
}

/// Whether a path of `k` edges leads from a node to another.
pub open spec fn path(g: Graph, way: Way, from: Seq<char>, to: Seq<char>, k: nat) -> bool
    decreases k,
{
    if k == 0 {
        from == to
    } else {
        exists|mid: Seq<char>|
            path(g, way, from, mid, (k - 1) as nat) && #[trigger] leads(g, way, mid, to)
    }
}

/// Whether a path of at least one and at most `max` edges leads from a node to another.
pub open spec fn within(g: Graph, way: Way, from: Seq<char>, to: Seq<char>, max: nat) -> bool {
    exists|k: nat| 1 <= k <= max && #[trigger] path(g, way, from, to, k)
}

/// Whether `k` is the length of the longest path of at most `max` edges.
pub open spec fn farthest(
    g: Graph,
    way: Way,
    from: Seq<char>,
    to: Seq<char>,
    max: nat,
    k: nat,
) -> bool {
    &&& 1 <= k <= max
    &&& path(g, way, from, to, k)
    &&& forall|j: nat| k < j <= max ==> !#[trigger] path(g, way, from, to, j)
}

/// Whether a node is at a depth in one of the ways: the root at 0, what it is made from
/// below, what is made from it above.
pub open spec fn at_depth(g: Graph, root: Seq<char>, max: nat, id: Seq<char>, d: int) -> bool {
    ||| d == 0 && id == root
    ||| d < 0 && farthest(g, Way::Up, root, id, max, (-d) as nat)
    ||| d > 0 && farthest(g, Way::Down, root, id, max, d as nat)
}

/// Whether a node is the root, or a path of at most `max` edges leads from it to the root
/// or from the root to it.
pub open spec fn is_near(g: Graph, root: Seq<char>, max: nat, id: Seq<char>) -> bool {
    id == root || within(g, Way::Up, root, id, max) || within(g, Way::Down, root, id, max)
}

/// Whether a node is one of a lineage, at a depth: it is there, and the depth is the
/// lowest of those that it is at.
pub open spec fn is_node(g: Graph, root: Seq<char>, max: nat, id: Seq<char>, d: int) -> bool {
    &&& (g.known)(id)
    &&& at_depth(g, root, max, id, d)
    &&& forall|e: int| #[trigger] at_depth(g, root, max, id, e) ==> d <= e
}

// ---------------------------------------------------------------------------
// Recursive queries
// ---------------------------------------------------------------------------

/// A recursive table: the ids that edges lead to from a root, and on from those, each with
/// the number of edges, counted down or up.
pub ghost struct Walk {
    pub name: Seq<char>,
    pub alias: Seq<char>,
    pub way: Way,
    pub root: Seq<char>,
    pub max: nat,
}

impl Walk {
    /// The column of the end of an edge that is gone to.
    pub open spec fn to_column(self) -> Seq<char> {
        match self.way {
            Way::Up => "parent_unique_id"@,
            Way::Down => "child_unique_id"@,
        }
    }

    /// The column of the end of an edge that is come from.
    pub open spec fn from_column(self) -> Seq<char> {
        match self.way {
            Way::Up => "child_unique_id"@,
            Way::Down => "parent_unique_id"@,
        }
    }

    /// The text up to the root.
    pub open spec fn seed_sql(self) -> Seq<char> {
        self.name + " AS ( SELECT "@ + self.to_column() + (match self.way {
            Way::Up => " AS unique_id, -1 AS depth"@,
            Way::Down => " AS unique_id, 1 AS depth"@,
        }) + " FROM dbt.edges WHERE "@ + self.from_column() + " = "@
    }

    /// The text from the root up to the bound.
    pub open spec fn step_sql(self) -> Seq<char> {
        " UNION ALL SELECT e."@ + self.to_column() + ", "@ + self.alias + (match self.way {
            Way::Up => ".depth - 1"@,
            Way::Down => ".depth + 1"@,
        }) + " FROM dbt.edges e JOIN "@ + self.name + " "@ + self.alias + " ON e."@
            + self.from_column() + " = "@ + self.alias + ".unique_id WHERE "@ + self.alias + (
        match self.way {
            Way::Up => ".depth > -"@,
            Way::Down => ".depth < "@,
        })
    }

    /// The text of the table.
    pub open spec fn sql(self) -> Seq<char> {
        self.seed_sql() + literal(self.root) + self.step_sql() + decimal(self.max) + " )"@
    }

    /// The depth that is counted for `k` edges.
    pub open spec fn depth(self, k: nat) -> int {
        match self.way {
            Way::Up => -(k as int),
            Way::Down => k as int,
        }
    }

    /// Whether a row of a depth is gone on from.
    pub open spec fn goes_on(self, depth: int) -> bool {
        match self.way {
            Way::Up => depth > -self.max,
            Way::Down => depth < self.max,
        }
    }

    /// Whether the table has a row for an id after `k` rounds.
    pub open spec fn reached(self, g: Graph, k: nat, id: Seq<char>) -> bool
        decreases k,
    {
        if k == 0 {
            false
        } else if k == 1 {
            leads(g, self.way, self.root, id)
        } else {
            exists|mid: Seq<char>|
                self.reached(g, (k - 1) as nat, mid) && self.goes_on(self.depth((k - 1) as nat))
                    && #[trigger] leads(g, self.way, mid, id)
        }
    }

    /// Whether the table has a row.
    pub open spec fn has(self, g: Graph, id: Seq<char>, d: int) -> bool {
        exists|k: nat| #[trigger] self.reached(g, k, id) && d == self.depth(k)
    }

    /// The walk goes along the paths of at most `max` edges from the root.
    pub proof fn lemma_reached_is_path(self, g: Graph, k: nat, id: Seq<char>)
        requires
            self.max >= 1,
            k >= 1,
        ensures
            self.reached(g, k, id) <==> k <= self.max && path(g, self.way, self.root, id, k),
        decreases k,
    {
        if k == 1 {
            assert(path(g, self.way, self.root, self.root, 0));
            if path(g, self.way, self.root, id, 1) {
                let mid = choose|mid: Seq<char>|
                    path(g, self.way, self.root, mid, 0) && #[trigger] leads(g, self.way, mid, id);
                assert(mid == self.root);
            }
        } else {
            let j = (k - 1) as nat;
            if self.reached(g, k, id) {
                let mid = choose|mid: Seq<char>|
                    self.reached(g, j, mid) && self.goes_on(self.depth(j)) && #[trigger] leads(
                        g,
                        self.way,
                        mid,
                        id,
                    );
                self.lemma_reached_is_path(g, j, mid);
                assert(path(g, self.way, self.root, mid, j));
            }
            if k <= self.max && path(g, self.way, self.root, id, k) {
                let mid = choose|mid: Seq<char>|
                    path(g, self.way, self.root, mid, j) && #[trigger] leads(g, self.way, mid, id);
                self.lemma_reached_is_path(g, j, mid);
                assert(self.reached(g, j, mid));
            }
        }
    }
}

/// The query of a lineage: a walk up and a walk down from a root.
pub ghost struct Lineage {
    pub up: Walk,
    pub down: Walk,
    pub root: Seq<char>,
}

/// The tables that nodes are looked up in: those with a type of their own, and those of
/// one type.
pub open spec fn metadata_sql() -> Seq<char> {
    unioned(
        seq![
            "SELECT "@ + listed(
                seq![
                    Item::Plain("unique_id"@),
                    Item::Plain("name"@),
                    Item::Plain("resource_type"@),
                    Item::Plain("materialized"@),
                ],
                4,
            ) + " FROM dbt.nodes"@,
            kind_sql("metric"@),
            kind_sql("semantic_model"@),
            kind_sql("exposure"@),
        ],
        4,
        " "@,
    )
}

impl Lineage {
    /// The text of the walks.
    pub open spec fn walks_sql(self) -> Seq<char> {
        "WITH RECURSIVE "@ + self.up.sql() + ", "@ + self.down.sql() + ", all_ids AS ( SELECT "@
            + literal(self.root)
    }

    /// The text of the query for nodes.
    pub open spec fn nodes_sql(self) -> Seq<char> {
        self.walks_sql() + " AS unique_id, 0 AS depth UNION ALL SELECT unique_id, MIN(depth) FROM "@
            + self.up.name
            + " GROUP BY unique_id UNION ALL SELECT unique_id, MAX(depth) FROM "@ + self.down.name
            + " GROUP BY unique_id ), metadata AS ( "@ + metadata_sql()
            + " ) SELECT m.unique_id, m.name, m.resource_type, m.materialized, MIN(a.depth) AS depth FROM all_ids a JOIN metadata m ON m.unique_id = a.unique_id GROUP BY m.unique_id, m.name, m.resource_type, m.materialized ORDER BY depth, m.resource_type, m.name"@
    }

    /// The text of the query for edges.
    pub open spec fn edges_sql(self) -> Seq<char> {
        self.walks_sql() + " AS unique_id UNION SELECT unique_id FROM "@ + self.up.name
            + " UNION SELECT unique_id FROM "@ + self.down.name
            + " ) SELECT e.parent_unique_id AS from_id, e.child_unique_id AS to_id, e.edge_type FROM dbt.edges e WHERE e.parent_unique_id IN (SELECT unique_id FROM all_ids) AND e.child_unique_id IN (SELECT unique_id FROM all_ids) ORDER BY e.parent_unique_id, e.child_unique_id"@
    }

    /// Whether all ids of the query for nodes have a row: the root at 0, the lowest depth
    /// of the walk up, the highest of the walk down.
    pub open spec fn has_id(self, g: Graph, id: Seq<char>, d: int) -> bool {
        ||| d == 0 && id == self.root
        ||| self.up.has(g, id, d) && forall|e: int| #[trigger] self.up.has(g, id, e) ==> d <= e
        ||| self.down.has(g, id, d) && forall|e: int| #[trigger]
            self.down.has(g, id, e) ==> e <= d
    }

    /// Whether the query for nodes has a row.
    pub open spec fn has_node(self, g: Graph, id: Seq<char>, d: int) -> bool {
        &&& (g.known)(id)
        &&& self.has_id(g, id, d)
        &&& forall|e: int| #[trigger] self.has_id(g, id, e) ==> d <= e
    }

    /// Whether an id is among all ids of the query for edges.
    pub open spec fn reaches(self, g: Graph, id: Seq<char>) -> bool {
        ||| id == self.root
        ||| exists|d: int| #[trigger] self.up.has(g, id, d)
        ||| exists|d: int| #[trigger] self.down.has(g, id, d)
    }

    /// Whether the query for edges has a row.
    pub open spec fn has_edge(self, g: Graph, parent: Seq<char>, child: Seq<char>) -> bool {
        (g.edge)(parent, child) && self.reaches(g, parent) && self.reaches(g, child)
    }
}

/// Whether a query shows exactly the given nodes with their depths.
pub open spec fn shows_nodes(
    sql: Seq<char>,
    nodes: spec_fn(Graph, Seq<char>, int) -> bool,
) -> bool {
    exists|q: Lineage|
        {
            &&& sql == #[trigger] q.nodes_sql()
            &&& q.up.name != q.down.name
            &&& forall|g: Graph, id: Seq<char>, d: int|
                q.has_node(g, id, d) == #[trigger] nodes(g, id, d)
        }
}

/// Whether a query shows exactly the given edges.
pub open spec fn shows_edges(
    sql: Seq<char>,
    edges: spec_fn(Graph, Seq<char>, Seq<char>) -> bool,
) -> bool {
    exists|q: Lineage|
        {
            &&& sql == #[trigger] q.edges_sql()
            &&& q.up.name != q.down.name
            &&& forall|g: Graph, a: Seq<char>, b: Seq<char>|
                q.has_edge(g, a, b) == #[trigger] edges(g, a, b)
        }
}

// ---------------------------------------------------------------------------
// The query of a node
// ---------------------------------------------------------------------------

spec fn lineage_of(id: Seq<char>, max: nat) -> Lineage {
    Lineage {
        up: Walk { name: "upstream"@, alias: "u"@, way: Way::Up, root: id, max },
        down: Walk { name: "downstream"@, alias: "d"@, way: Way::Down, root: id, max },
        root: id,
    }
}

#[verifier::spinoff_prover]
#[verifier::rlimit(40)]
proof fn lemma_up_texts(w: Walk)
    requires
        w.name == "upstream"@,
        w.alias == "u"@,
        w.way is Up,
    ensures
        NODES_UPSTREAM@ == "WITH RECURSIVE "@ + w.seed_sql() + seq!['\''],
        NODES_UPSTREAM_STEP@ + "-"@ == seq!['\''] + w.step_sql(),
{
    reveal_strlit("WITH RECURSIVE ");
    reveal_strlit("upstream");
    reveal_strlit("u");
    reveal_strlit(" AS ( SELECT ");
    reveal_strlit("parent_unique_id");
    reveal_strlit("child_unique_id");
    reveal_strlit(" AS unique_id, -1 AS depth");
    reveal_strlit(" FROM dbt.edges WHERE ");
    reveal_strlit(" = ");
    reveal_strlit(" UNION ALL SELECT e.");
    reveal_strlit(", ");
    reveal_strlit(".depth - 1");
    reveal_strlit(" FROM dbt.edges e JOIN ");
    reveal_strlit(" ");
    reveal_strlit(" ON e.");
    reveal_strlit(".unique_id WHERE ");
    reveal_strlit(".depth > -");
    reveal_strlit("-");
    reveal_strlit(
        "WITH RECURSIVE \
     upstream AS ( \
         SELECT parent_unique_id AS unique_id, -1 AS depth \
         FROM dbt.edges WHERE child_unique_id = '",
    );
    reveal_strlit(
        "' \
         UNION ALL \
         SELECT e.parent_unique_id, u.depth - 1 \
         FROM dbt.edges e JOIN upstream u \
             ON e.child_unique_id = u.unique_id \
         WHERE u.depth > ",
    );
    assert(NODES_UPSTREAM@ =~= "WITH RECURSIVE "@ + w.seed_sql() + seq!['\'']);
    assert(NODES_UPSTREAM_STEP@ + "-"@ =~= seq!['\''] + w.step_sql());
}

#[verifier::spinoff_prover]
#[verifier::rlimit(40)]
proof fn lemma_down_texts(w: Walk)
    requires
        w.name == "downstream"@,
        w.alias == "d"@,
        w.way is Down,
    ensures
        NODES_DOWNSTREAM@ == " )"@ + ", "@ + w.seed_sql() + seq!['\''],
        NODES_DOWNSTREAM_STEP@ == seq!['\''] + w.step_sql(),
        NODES_ALL@ == " )"@ + ", all_ids AS ( SELECT "@ + seq!['\''],
{
    reveal_strlit(" )");
    reveal_strlit("downstream");
    reveal_strlit("d");
    reveal_strlit(" AS ( SELECT ");
    reveal_strlit("parent_unique_id");
    reveal_strlit("child_unique_id");
    reveal_strlit(" AS unique_id, 1 AS depth");
    reveal_strlit(" FROM dbt.edges WHERE ");
    reveal_strlit(" = ");
    reveal_strlit(" UNION ALL SELECT e.");
    reveal_strlit(", ");
    reveal_strlit(".depth + 1");
    reveal_strlit(" FROM dbt.edges e JOIN ");
    reveal_strlit(" ");
    reveal_strlit(" ON e.");
    reveal_strlit(".unique_id WHERE ");
    reveal_strlit(".depth < ");
    reveal_strlit(", all_ids AS ( SELECT ");
    reveal_strlit(
        " \
     ), \
     downstream AS ( \
         SELECT child_unique_id AS unique_id, 1 AS depth \
         FROM dbt.edges WHERE parent_unique_id = '",
    );
    reveal_strlit(
        "' \
         UNION ALL \
         SELECT e.child_unique_id, d.depth + 1 \
         FROM dbt.edges e JOIN downstream d \
             ON e.parent_unique_id = d.unique_id \
         WHERE d.depth < ",
    );
    reveal_strlit(" \
     ), \
     all_ids AS ( \
         SELECT '");
    assert(NODES_DOWNSTREAM@ =~= " )"@ + ", "@ + w.seed_sql() + seq!['\'']);
    assert(NODES_DOWNSTREAM_STEP@ =~= seq!['\''] + w.step_sql());
    assert(NODES_ALL@ =~= " )"@ + ", all_ids AS ( SELECT "@ + seq!['\'']);
}

proof fn lemma_regroup_walk(
    w: Seq<char>,
    us: Seq<char>,
    ut: Seq<char>,
    ds: Seq<char>,
    dt: Seq<char>,
    e: Seq<char>,
    q: Seq<char>,
    n: Seq<char>,
    c: Seq<char>,
    k: Seq<char>,
    a: Seq<char>,
)
    ensures
        (w + us + q) + e + (q + ut) + n + (c + k + ds + q) + e + (q + dt) + n + (c + a + q) + e + q
            == w + (us + (q + e + q) + ut + n + c) + k + (ds + (q + e + q) + dt + n + c) + a + (q
            + e + q),
{
    let x = (w + us + q) + e + (q + ut) + n;
    let x2 = w + us + (q + e + q) + ut + n;
    assert(x =~= x2);
    let y = x2 + (c + k + ds + q) + e + (q + dt) + n;
    let y2 = x2 + c + k + ds + (q + e + q) + dt + n;
    assert(y =~= y2);
    assert(y2 + (c + a + q) + e + q =~= y2 + c + a + (q + e + q));
    assert(w + (us + (q + e + q) + ut + n + c) =~= x2 + c);
    assert(x2 + c + k + (ds + (q + e + q) + dt + n + c) =~= y2 + c);
}

proof fn lemma_walk_sql(id: Seq<char>, max: u32)
    requires
        max >= 1,
    ensures
        walk(escaped(id), max) + seq!['\''] == lineage_of(id, max as nat).walks_sql(),
{
    let q = lineage_of(id, max as nat);
    lemma_up_texts(q.up);
    lemma_down_texts(q.down);
    let e = escaped(id);
    let n = decimal(max as nat);
    let quote = seq!['\''];
    let upper = NODES_UPSTREAM@ + e;
    assert(upper + NODES_UPSTREAM_STEP@ + lowest(max) =~= upper + (NODES_UPSTREAM_STEP@ + "-"@) + n);
    lemma_regroup_walk(
        "WITH RECURSIVE "@,
        q.up.seed_sql(),
        q.up.step_sql(),
        q.down.seed_sql(),
        q.down.step_sql(),
        e,
        quote,
        n,
        " )"@,
        ", "@,
        ", all_ids AS ( SELECT "@,
    );
}

/// The selection of the nodes of a table of one type.
pub open spec fn kind_sql(kind: Seq<char>) -> Seq<char> {
    "SELECT "@ + listed(
        seq![
            Item::Plain("unique_id"@),
            Item::Plain("name"@),
            Item::As(literal(kind), "resource_type"@),
            Item::As("NULL"@, "materialized"@),
        ],
        4,
    ) + " FROM "@ + table_of(kind)
}

#[verifier::spinoff_prover]
#[verifier::rlimit(40)]
proof fn lemma_kind_sql(kind: Seq<char>)
    requires
        forall|i: int| 0 <= i < kind.len() ==> #[trigger] kind[i] != '\'',
        kind.len() > 0,
        kind.last() != 'y',
    ensures
        kind_sql(kind) == "SELECT unique_id, name, '"@ + kind
            + "' AS resource_type, NULL AS materialized FROM dbt."@ + kind + "s"@,
{
    reveal_with_fuel(listed, 5);
    crate::meaning::lemma_plain_literal(kind);
    reveal_strlit("SELECT ");
    reveal_strlit("unique_id");
    reveal_strlit("name");
    reveal_strlit("resource_type");
    reveal_strlit("materialized");
    reveal_strlit("NULL");
    reveal_strlit(" AS ");
    reveal_strlit(", ");
    reveal_strlit(" FROM ");
    reveal_strlit("dbt.");
    reveal_strlit("SELECT unique_id, name, '");
    reveal_strlit("' AS resource_type, NULL AS materialized FROM dbt.");
    assert("SELECT unique_id, name, '"@ =~= "SELECT "@ + ("unique_id"@ + ", "@ + "name"@ + ", "@) + seq![
        '\'',
    ]);
    assert("' AS resource_type, NULL AS materialized FROM dbt."@ =~= seq!['\''] + (" AS "@
        + "resource_type"@ + ", "@ + ("NULL"@ + " AS "@ + "materialized"@)) + " FROM "@ + "dbt."@);
    assert(kind_sql(kind) =~= "SELECT unique_id, name, '"@ + kind
        + "' AS resource_type, NULL AS materialized FROM dbt."@ + kind + "s"@);
}

proof fn lemma_nodes_sql()
    ensures
        "SELECT "@ + listed(
            seq![
                Item::Plain("unique_id"@),
                Item::Plain("name"@),
                Item::Plain("resource_type"@),
                Item::Plain("materialized"@),
            ],
            4,
        ) + " FROM dbt.nodes"@
            == "SELECT unique_id, name, resource_type, materialized FROM dbt.nodes"@,
{
    reveal_with_fuel(listed, 5);
    reveal_strlit("SELECT ");
    reveal_strlit("unique_id");
    reveal_strlit("name");
    reveal_strlit("resource_type");
    reveal_strlit("materialized");
    reveal_strlit(", ");
    reveal_strlit(" FROM dbt.nodes");
    reveal_strlit("SELECT unique_id, name, resource_type, materialized FROM dbt.nodes");
    let a = seq![
        Item::Plain("unique_id"@),
        Item::Plain("name"@),
        Item::Plain("resource_type"@),
        Item::Plain("materialized"@),
    ];
    assert("SELECT "@ + listed(a, 4) + " FROM dbt.nodes"@
        =~= "SELECT unique_id, name, resource_type, materialized FROM dbt.nodes"@);
}

#[verifier::spinoff_prover]
#[verifier::rlimit(60)]
proof fn lemma_metadata_sql()
    ensures
        metadata_sql()
            == "SELECT unique_id, name, resource_type, materialized FROM dbt.nodes UNION ALL SELECT unique_id, name, 'metric' AS resource_type, NULL AS materialized FROM dbt.metrics UNION ALL SELECT unique_id, name, 'semantic_model' AS resource_type, NULL AS materialized FROM dbt.semantic_models UNION ALL SELECT unique_id, name, 'exposure' AS resource_type, NULL AS materialized FROM dbt.exposures"@,
{
    lemma_nodes_sql();
    reveal_strlit("metric");
    reveal_strlit("semantic_model");
    reveal_strlit("exposure");
    lemma_kind_sql("metric"@);
    lemma_kind_sql("semantic_model"@);
    lemma_kind_sql("exposure"@);
    reveal_strlit(" ");
    reveal_strlit("UNION ALL");
    reveal_strlit("s");
    reveal_strlit("SELECT unique_id, name, '");
    reveal_strlit("' AS resource_type, NULL AS materialized FROM dbt.");
    reveal_strlit("SELECT unique_id, name, resource_type, materialized FROM dbt.nodes");
    reveal_strlit("SELECT unique_id, name, resource_type, materialized FROM dbt.nodes UNION ALL SELECT unique_id, name, 'metric' AS resource_type, NULL AS materialized FROM dbt.metrics UNION ALL SELECT unique_id, name, 'semantic_model' AS resource_type, NULL AS materialized FROM dbt.semantic_models UNION ALL SELECT unique_id, name, 'exposure' AS resource_type, NULL AS materialized FROM dbt.exposures");
    reveal_with_fuel(unioned, 5);
    let gap = " "@ + "UNION ALL"@ + " "@;
    let n = "SELECT unique_id, name, resource_type, materialized FROM dbt.nodes"@;
    let h = "SELECT unique_id, name, '"@;
    let t = "' AS resource_type, NULL AS materialized FROM dbt."@;
    assert(metadata_sql() =~= n + gap + (h + "metric"@ + t + "metric"@ + "s"@) + gap + (h
        + "semantic_model"@ + t + "semantic_model"@ + "s"@) + gap + (h + "exposure"@ + t
        + "exposure"@ + "s"@));
}

proof fn lemma_nodes_tail(q: Lineage)
    requires
        q.up.name == "upstream"@,
        q.down.name == "downstream"@,
    ensures
        seq!['\''] + (" AS unique_id, 0 AS depth UNION ALL SELECT unique_id, MIN(depth) FROM "@
            + q.up.name + " GROUP BY unique_id UNION ALL SELECT unique_id, MAX(depth) FROM "@
            + q.down.name + " GROUP BY unique_id ), metadata AS ( "@ + metadata_sql()
            + " ) SELECT m.unique_id, m.name, m.resource_type, m.materialized, MIN(a.depth) AS depth FROM all_ids a JOIN metadata m ON m.unique_id = a.unique_id GROUP BY m.unique_id, m.name, m.resource_type, m.materialized ORDER BY depth, m.resource_type, m.name"@)
            == NODES_TAIL@,
{
    lemma_metadata_sql();
    reveal_strlit(" AS unique_id, 0 AS depth UNION ALL SELECT unique_id, MIN(depth) FROM ");
    reveal_strlit("upstream");
    reveal_strlit(" GROUP BY unique_id UNION ALL SELECT unique_id, MAX(depth) FROM ");
    reveal_strlit("downstream");
    reveal_strlit(" GROUP BY unique_id ), metadata AS ( ");
    reveal_strlit("SELECT unique_id, name, resource_type, materialized FROM dbt.nodes UNION ALL SELECT unique_id, name, 'metric' AS resource_type, NULL AS materialized FROM dbt.metrics UNION ALL SELECT unique_id, name, 'semantic_model' AS resource_type, NULL AS materialized FROM dbt.semantic_models UNION ALL SELECT unique_id, name, 'exposure' AS resource_type, NULL AS materialized FROM dbt.exposures");
    reveal_strlit(" ) SELECT m.unique_id, m.name, m.resource_type, m.materialized, MIN(a.depth) AS depth FROM all_ids a JOIN metadata m ON m.unique_id = a.unique_id GROUP BY m.unique_id, m.name, m.resource_type, m.materialized ORDER BY depth, m.resource_type, m.name");
    reveal_strlit(
        "' AS unique_id, 0 AS depth \
         UNION ALL \
         SELECT unique_id, MIN(depth) FROM upstream GROUP BY unique_id \
         UNION ALL \
         SELECT unique_id, MAX(depth) FROM downstream GROUP BY unique_id \
     ), \
     metadata AS ( \
         SELECT unique_id, name, resource_type, materialized FROM dbt.nodes \
         UNION ALL \
         SELECT unique_id, name, 'metric' AS resource_type, NULL AS materialized FROM dbt.metrics \
         UNION ALL \
         SELECT unique_id, name, 'semantic_model' AS resource_type, NULL AS materialized FROM dbt.semantic_models \
         UNION ALL \
         SELECT unique_id, name, 'exposure' AS resource_type, NULL AS materialized FROM dbt.exposures \
     ) \
     SELECT m.unique_id, m.name, m.resource_type, m.materialized, \
            MIN(a.depth) AS depth \
     FROM all_ids a JOIN metadata m ON m.unique_id = a.unique_id \
     GROUP BY m.unique_id, m.name, m.resource_type, m.materialized \
     ORDER BY depth, m.resource_type, m.name",
    );
}

proof fn lemma_edges_tail(q: Lineage)
    requires
        q.up.name == "upstream"@,
        q.down.name == "downstream"@,
    ensures
        seq!['\''] + (" AS unique_id UNION SELECT unique_id FROM "@ + q.up.name
            + " UNION SELECT unique_id FROM "@ + q.down.name
            + " ) SELECT e.parent_unique_id AS from_id, e.child_unique_id AS to_id, e.edge_type FROM dbt.edges e WHERE e.parent_unique_id IN (SELECT unique_id FROM all_ids) AND e.child_unique_id IN (SELECT unique_id FROM all_ids) ORDER BY e.parent_unique_id, e.child_unique_id"@)
            == EDGES_TAIL@,
{
    reveal_strlit(" AS unique_id UNION SELECT unique_id FROM ");
    reveal_strlit("upstream");
    reveal_strlit(" UNION SELECT unique_id FROM ");
    reveal_strlit("downstream");
    reveal_strlit(" ) SELECT e.parent_unique_id AS from_id, e.child_unique_id AS to_id, e.edge_type FROM dbt.edges e WHERE e.parent_unique_id IN (SELECT unique_id FROM all_ids) AND e.child_unique_id IN (SELECT unique_id FROM all_ids) ORDER BY e.parent_unique_id, e.child_unique_id");
    reveal_strlit(
        "' AS unique_id \
         UNION \
         SELECT unique_id FROM upstream \
         UNION \
         SELECT unique_id FROM downstream \
     ) \
     SELECT e.parent_unique_id AS from_id, \
            e.child_unique_id AS to_id, \
            e.edge_type \
     FROM dbt.edges e \
     WHERE e.parent_unique_id IN (SELECT unique_id FROM all_ids) \
       AND e.child_unique_id IN (SELECT unique_id FROM all_ids) \
     ORDER BY e.parent_unique_id, e.child_unique_id",
    );
}

proof fn lemma_walk_has(w: Walk, g: Graph, id: Seq<char>, d: int)
    requires
        w.max >= 1,
    ensures
        w.has(g, id, d) <==> exists|k: nat|
            1 <= k <= w.max && #[trigger] path(g, w.way, w.root, id, k) && d == w.depth(k),
{
    if w.has(g, id, d) {
        let k = choose|k: nat| #[trigger] w.reached(g, k, id) && d == w.depth(k);
        w.lemma_reached_is_path(g, k, id);
        assert(path(g, w.way, w.root, id, k));
    }
    if exists|k: nat|
        1 <= k <= w.max && #[trigger] path(g, w.way, w.root, id, k) && d == w.depth(k) {
        let k = choose|k: nat|
            1 <= k <= w.max && #[trigger] path(g, w.way, w.root, id, k) && d == w.depth(k);
        w.lemma_reached_is_path(g, k, id);
        assert(w.reached(g, k, id));
    }
}

proof fn lemma_lowest_of_walk(w: Walk, g: Graph, x: Seq<char>, d: int)
    requires
        w.max >= 1,
        w.way is Up,
    ensures
        (w.has(g, x, d) && forall|e: int| #[trigger] w.has(g, x, e) ==> d <= e) <==> d < 0
            && farthest(g, Way::Up, w.root, x, w.max, (-d) as nat),
{
    lemma_walk_has(w, g, x, d);
    if w.has(g, x, d) && forall|e: int| #[trigger] w.has(g, x, e) ==> d <= e {
        let k = choose|k: nat|
            1 <= k <= w.max && #[trigger] path(g, w.way, w.root, x, k) && d == w.depth(k);
        assert((-d) as nat == k);
        assert forall|j: nat| k < j <= w.max implies !#[trigger] path(g, Way::Up, w.root, x, j) by {
            if path(g, Way::Up, w.root, x, j) {
                lemma_walk_has(w, g, x, w.depth(j));
                assert(w.has(g, x, w.depth(j)));
            }
        }
    }
    if d < 0 && farthest(g, Way::Up, w.root, x, w.max, (-d) as nat) {
        let k = (-d) as nat;
        assert(d == w.depth(k));
        assert(path(g, w.way, w.root, x, k));
        assert forall|e: int| #[trigger] w.has(g, x, e) implies d <= e by {
            lemma_walk_has(w, g, x, e);
            let j = choose|j: nat|
                1 <= j <= w.max && #[trigger] path(g, w.way, w.root, x, j) && e == w.depth(j);
            assert(path(g, Way::Up, w.root, x, j));
        }
    }
}

proof fn lemma_highest_of_walk(w: Walk, g: Graph, x: Seq<char>, d: int)
    requires
        w.max >= 1,
        w.way is Down,
    ensures
        (w.has(g, x, d) && forall|e: int| #[trigger] w.has(g, x, e) ==> e <= d) <==> d > 0
            && farthest(g, Way::Down, w.root, x, w.max, d as nat),
{
    lemma_walk_has(w, g, x, d);
    if w.has(g, x, d) && forall|e: int| #[trigger] w.has(g, x, e) ==> e <= d {
        let k = choose|k: nat|
            1 <= k <= w.max && #[trigger] path(g, w.way, w.root, x, k) && d == w.depth(k);
        assert(d as nat == k);
        assert forall|j: nat| k < j <= w.max implies !#[trigger] path(
            g,
            Way::Down,
            w.root,
            x,
            j,
        ) by {
            if path(g, Way::Down, w.root, x, j) {
                lemma_walk_has(w, g, x, w.depth(j));
                assert(w.has(g, x, w.depth(j)));
            }
        }
    }
    if d > 0 && farthest(g, Way::Down, w.root, x, w.max, d as nat) {
        let k = d as nat;
        assert(d == w.depth(k));
        assert(path(g, w.way, w.root, x, k));
        assert forall|e: int| #[trigger] w.has(g, x, e) implies e <= d by {
            lemma_walk_has(w, g, x, e);
            let j = choose|j: nat|
                1 <= j <= w.max && #[trigger] path(g, w.way, w.root, x, j) && e == w.depth(j);
            assert(path(g, Way::Down, w.root, x, j));
        }
    }
}

proof fn lemma_has_id(id: Seq<char>, max: nat, g: Graph, x: Seq<char>, d: int)
    requires
        max >= 1,
    ensures
        lineage_of(id, max).has_id(g, x, d) == at_depth(g, id, max, x, d),
{
    let q = lineage_of(id, max);
    lemma_lowest_of_walk(q.up, g, x, d);
    lemma_highest_of_walk(q.down, g, x, d);
}

proof fn lemma_reaches(id: Seq<char>, max: nat, g: Graph, x: Seq<char>)
    requires
        max >= 1,
    ensures
        lineage_of(id, max).reaches(g, x) == is_near(g, id, max, x),
{
    let q = lineage_of(id, max);
    if exists|d: int| #[trigger] q.up.has(g, x, d) {
        let d = choose|d: int| #[trigger] q.up.has(g, x, d);
        lemma_walk_has(q.up, g, x, d);
    }
    if exists|d: int| #[trigger] q.down.has(g, x, d) {
        let d = choose|d: int| #[trigger] q.down.has(g, x, d);
        lemma_walk_has(q.down, g, x, d);
    }
    if within(g, Way::Up, id, x, max) {
        let k = choose|k: nat| 1 <= k <= max && #[trigger] path(g, Way::Up, id, x, k);
        lemma_walk_has(q.up, g, x, q.up.depth(k));
        assert(path(g, q.up.way, q.up.root, x, k));
        assert(q.up.has(g, x, q.up.depth(k)));
    }
    if within(g, Way::Down, id, x, max) {
        let k = choose|k: nat| 1 <= k <= max && #[trigger] path(g, Way::Down, id, x, k);
        lemma_walk_has(q.down, g, x, q.down.depth(k));
        assert(path(g, q.down.way, q.down.root, x, k));
        assert(q.down.has(g, x, q.down.depth(k)));
    }
}

proof fn lemma_regroup_tail(
    w: Seq<char>,
    s: Seq<char>,
    a: Seq<char>,
    b: Seq<char>,
    c: Seq<char>,
    d: Seq<char>,
    e: Seq<char>,
    f: Seq<char>,
    h: Seq<char>,
)
    ensures
        w + (s + (a + b + c + d + e + f + h)) == (w + s) + a + b + c + d + e + f + h,
        w + (s + (a + b + c + d + e)) == (w + s) + a + b + c + d + e,
{
    assert(w + (s + (a + b + c + d + e + f + h)) =~= (w + s) + a + b + c + d + e + f + h);
    assert(w + (s + (a + b + c + d + e)) =~= (w + s) + a + b + c + d + e);
}

#[verifier::spinoff_prover]
proof fn lemma_nodes_text(id: Seq<char>, max: u32)
    requires
        max >= 1,
    ensures
        walk(escaped(id), max) + NODES_TAIL@ == lineage_of(id, max as nat).nodes_sql(),
        lineage_of(id, max as nat).up.name != lineage_of(id, max as nat).down.name,
{
    let q = lineage_of(id, max as nat);
    lemma_walk_sql(id, max);
    lemma_nodes_tail(q);
    lemma_regroup_tail(
        walk(escaped(id), max),
        seq!['\''],
        " AS unique_id, 0 AS depth UNION ALL SELECT unique_id, MIN(depth) FROM "@,
        q.up.name,
        " GROUP BY unique_id UNION ALL SELECT unique_id, MAX(depth) FROM "@,
        q.down.name,
        " GROUP BY unique_id ), metadata AS ( "@,
        metadata_sql(),
        " ) SELECT m.unique_id, m.name, m.resource_type, m.materialized, MIN(a.depth) AS depth FROM all_ids a JOIN metadata m ON m.unique_id = a.unique_id GROUP BY m.unique_id, m.name, m.resource_type, m.materialized ORDER BY depth, m.resource_type, m.name"@,
    );
    reveal_strlit("upstream");
    reveal_strlit("downstream");
    assert("upstream"@.len() == 8 && "downstream"@.len() == 10);
}

#[verifier::spinoff_prover]
proof fn lemma_edges_text(id: Seq<char>, max: u32)
    requires
        max >= 1,
    ensures
        walk(escaped(id), max) + EDGES_TAIL@ == lineage_of(id, max as nat).edges_sql(),
        lineage_of(id, max as nat).up.name != lineage_of(id, max as nat).down.name,
{
    let q = lineage_of(id, max as nat);
    lemma_walk_sql(id, max);
    lemma_edges_tail(q);
    lemma_regroup_tail(
        walk(escaped(id), max),
        seq!['\''],
        " AS unique_id UNION SELECT unique_id FROM "@,
        q.up.name,
        " UNION SELECT unique_id FROM "@,
        q.down.name,
        " ) SELECT e.parent_unique_id AS from_id, e.child_unique_id AS to_id, e.edge_type FROM dbt.edges e WHERE e.parent_unique_id IN (SELECT unique_id FROM all_ids) AND e.child_unique_id IN (SELECT unique_id FROM all_ids) ORDER BY e.parent_unique_id, e.child_unique_id"@,
        Seq::empty(),
        Seq::empty(),
    );
    reveal_strlit("upstream");
    reveal_strlit("downstream");
    assert("upstream"@.len() == 8 && "downstream"@.len() == 10);
}

/// The nodes of a lineage, with their depths.
pub open spec fn nodes_on_paths(root: Seq<char>, max: nat) -> spec_fn(Graph, Seq<char>, int) -> bool {
    |g: Graph, id: Seq<char>, d: int| is_node(g, root, max, id, d)
}

/// The edges of a lineage.
pub open spec fn edges_between(root: Seq<char>, max: nat) -> spec_fn(
    Graph,
    Seq<char>,
    Seq<char>,
) -> bool {
    |g: Graph, a: Seq<char>, b: Seq<char>|
        (g.edge)(a, b) && is_near(g, root, max, a) && is_near(g, root, max, b)
}

/// The nodes of a lineage are the root and every node that a path of at most `max` edges
/// leads from to the root or to from the root, each at the lowest of its depths: what the
/// root is made from below 0, what is made from it above.
pub proof fn lemma_nodes_are_those_on_paths(id: Seq<char>, max: u32)
    requires
        max >= 1,
    ensures
        shows_nodes(walk(escaped(id), max) + NODES_TAIL@, nodes_on_paths(id, max as nat)),
{
    let q = lineage_of(id, max as nat);
    lemma_nodes_text(id, max);
    let nodes = nodes_on_paths(id, max as nat);
    assert forall|g: Graph, x: Seq<char>, d: int| q.has_node(g, x, d) == #[trigger] nodes(
        g,
        x,
        d,
    ) by {
        assert forall|e: int| #[trigger]
            q.has_id(g, x, e) == at_depth(g, id, max as nat, x, e) by {
            lemma_has_id(id, max as nat, g, x, e);
        }
        lemma_has_id(id, max as nat, g, x, d);
        if q.has_node(g, x, d) {
            assert forall|e: int| #[trigger] at_depth(g, id, max as nat, x, e) implies d <= e by {
                assert(q.has_id(g, x, e));
            }
        }
    }
}

/// The edges of a lineage are those between its nodes: both ends are the root, or at most
/// `max` edges away from it.
pub proof fn lemma_edges_are_those_between_nodes(id: Seq<char>, max: u32)
    requires
        max >= 1,
    ensures
        shows_edges(walk(escaped(id), max) + EDGES_TAIL@, edges_between(id, max as nat)),
{
    let q = lineage_of(id, max as nat);
    lemma_edges_text(id, max);
    let edges = edges_between(id, max as nat);
    assert forall|g: Graph, a: Seq<char>, b: Seq<char>| q.has_edge(g, a, b) == #[trigger] edges(
        g,
        a,
        b,
    ) by {
        lemma_reaches(id, max as nat, g, a);
        lemma_reaches(id, max as nat, g, b);
    }
}

proof fn lemma_farthest(g: Graph, way: Way, from: Seq<char>, to: Seq<char>, max: nat, top: nat)
    requires
        top <= max,
        within(g, way, from, to, top),
        forall|j: nat| top < j <= max ==> !#[trigger] path(g, way, from, to, j),
    ensures
        exists|k: nat| #[trigger] farthest(g, way, from, to, max, k),
    decreases top,
{
    if path(g, way, from, to, top) {
        assert(farthest(g, way, from, to, max, top));
    } else {
        let k = choose|k: nat| 1 <= k <= top && #[trigger] path(g, way, from, to, k);
        assert(k <= (top - 1) as nat);
        lemma_farthest(g, way, from, to, max, (top - 1) as nat);
    }
}

/// Every node that is there and at most `max` edges away from the root is among the nodes
/// of the lineage, and no other is. A direct child of the root is among them.
pub proof fn lemma_lineage_holds_every_near_node(
    g: Graph,
    root: Seq<char>,
    max: nat,
    id: Seq<char>,
)
    requires
        max >= 1,
    ensures
        (exists|d: int| #[trigger] is_node(g, root, max, id, d)) <==> (g.known)(id) && is_near(
            g,
            root,
            max,
            id,
        ),
        (g.edge)(root, id) ==> is_near(g, root, max, id),
        (g.edge)(id, root) ==> is_near(g, root, max, id),
{
    assert(path(g, Way::Up, root, root, 0) && path(g, Way::Down, root, root, 0));
    if (g.edge)(root, id) {
        assert(leads(g, Way::Down, root, id));
        assert(path(g, Way::Down, root, id, 1));
    }
    if (g.edge)(id, root) {
        assert(leads(g, Way::Up, root, id));
        assert(path(g, Way::Up, root, id, 1));
    }
    if (g.known)(id) && is_near(g, root, max, id) {
        if within(g, Way::Up, root, id, max) {
            lemma_farthest(g, Way::Up, root, id, max, max);
            let k = choose|k: nat| #[trigger] farthest(g, Way::Up, root, id, max, k);
            let d = -(k as int);
            assert(at_depth(g, root, max, id, d));
            assert forall|e: int| #[trigger] at_depth(g, root, max, id, e) implies d <= e by {
                if e < 0 {
                    let j = (-e) as nat;
                    assert(path(g, Way::Up, root, id, j));
                }
            }
            assert(is_node(g, root, max, id, d));
        } else if id == root {
            assert(at_depth(g, root, max, id, 0));
            assert forall|e: int| #[trigger] at_depth(g, root, max, id, e) implies 0 <= e by {
                if e < 0 {
                    let j = (-e) as nat;
                    assert(path(g, Way::Up, root, id, j));
                }
            }
            assert(is_node(g, root, max, id, 0));
        } else {
            lemma_farthest(g, Way::Down, root, id, max, max);
            let k = choose|k: nat| #[trigger] farthest(g, Way::Down, root, id, max, k);
            let d = k as int;
            assert(at_depth(g, root, max, id, d));
            assert forall|e: int| #[trigger] at_depth(g, root, max, id, e) implies d <= e by {
                if e < 0 {
                    let j = (-e) as nat;
                    assert(path(g, Way::Up, root, id, j));
                } else {
                    let j = e as nat;
                    assert(path(g, Way::Down, root, id, j));
                }
            }
            assert(is_node(g, root, max, id, d));
        }
    }
    if exists|d: int| #[trigger] is_node(g, root, max, id, d) {
        let d = choose|d: int| #[trigger] is_node(g, root, max, id, d);
        assert(at_depth(g, root, max, id, d));
        if d < 0 {
            assert(path(g, Way::Up, root, id, (-d) as nat));
        } else if d > 0 {
            assert(path(g, Way::Down, root, id, d as nat));
        }
    }
}

// ---------------------------------------------------------------------------
// Saved queries
// ---------------------------------------------------------------------------

/// The graph of a saved query: an edge leads from each resource that it depends on to it.
pub open spec fn dependencies(root: Seq<char>, upstream: Seq<Seq<char>>) -> Graph {
    Graph {
        edge: |a: Seq<char>, b: Seq<char>| b == root && upstream.contains(a),
        known: |x: Seq<char>| x == root || upstream.contains(x),
    }
}

proof fn lemma_one_hop(root: Seq<char>, upstream: Seq<Seq<char>>, id: Seq<char>, k: nat)
    requires
        !upstream.contains(root),
    ensures
        path(dependencies(root, upstream), Way::Up, root, id, k) == (if k == 0 {
            id == root
        } else {
            k == 1 && upstream.contains(id)
        }),
        path(dependencies(root, upstream), Way::Down, root, id, k) == (k == 0 && id == root),
    decreases k,
{
    let g = dependencies(root, upstream);
    if k > 0 {
        assert forall|mid: Seq<char>| #[trigger] leads(g, Way::Up, mid, id) implies path(
            g,
            Way::Up,
            root,
            mid,
            (k - 1) as nat,
        ) == (k == 1) by {
            lemma_one_hop(root, upstream, mid, (k - 1) as nat);
        }
        assert forall|mid: Seq<char>| #[trigger] leads(g, Way::Down, mid, id) implies !path(
            g,
            Way::Down,
            root,
            mid,
            (k - 1) as nat,
        ) by {
            lemma_one_hop(root, upstream, mid, (k - 1) as nat);
        }
        if k == 1 && upstream.contains(id) {
            assert(leads(g, Way::Up, root, id));
        }
    }
}

/// The lineage of a saved query that does not depend on itself is that of its graph,
/// whatever the bound: each node is at its depth, each edge is one of the graph, and every
/// resource that the query depends on is among the nodes and has an edge. A node is
/// called by the last part of its unique id.
pub proof fn lemma_saved_query_lineage(
    nodes: Seq<LineageNode>,
    edges: Seq<LineageEdge>,
    root: Seq<char>,
    name: Seq<char>,
    upstream: Seq<String>,
    max: nat,
)
    requires
        is_saved_query_graph(nodes, edges, root, name, upstream),
        !texts(upstream).contains(root),
        max >= 1,
    ensures
        forall|i: int|
            0 <= i < nodes.len() ==> is_node(
                dependencies(root, texts(upstream)),
                root,
                max,
                (#[trigger] nodes[i]).unique_id@,
                nodes[i].depth as int,
            ),
        forall|i: int|
            0 <= i < edges.len() ==> (dependencies(root, texts(upstream)).edge)(
                (#[trigger] edges[i]).from_id@,
                edges[i].to_id@,
            ),
        forall|k: int|
            0 <= k < upstream.len() ==> has_node_of(nodes, #[trigger] upstream[k]) && has_edge_from(
                edges,
                upstream[k],
            ),
        forall|i: int|
            1 <= i < nodes.len() ==> ends_with_part(
                (#[trigger] nodes[i]).unique_id@,
                nodes[i].name@,
            ) && (nodes[i].unique_id@.contains('.') ==> starts_with_type(
                nodes[i].unique_id@,
                nodes[i].resource_type@,
                true,
            )),
{
    let up = texts(upstream);
    let g = dependencies(root, up);
    assert forall|i: int| 0 <= i < nodes.len() implies is_node(
        g,
        root,
        max,
        (#[trigger] nodes[i]).unique_id@,
        nodes[i].depth as int,
    ) by {
        let id = nodes[i].unique_id@;
        if i > 0 {
            assert(is_upstream_node(nodes[i], upstream[i - 1]));
            assert(up[i - 1] == id);
            assert(up.contains(id));
        }
        assert forall|k: nat| #[trigger] path(g, Way::Up, root, id, k) == (if k == 0 {
            id == root
        } else {
            k == 1 && up.contains(id)
        }) by {
            lemma_one_hop(root, up, id, k);
        }
        assert forall|k: nat| #[trigger] path(g, Way::Down, root, id, k) == (k == 0 && id == root) by {
            lemma_one_hop(root, up, id, k);
        }
        assert(path(g, Way::Up, root, id, 1) == up.contains(id));
    }
    assert forall|i: int| 0 <= i < edges.len() implies (g.edge)(
        (#[trigger] edges[i]).from_id@,
        edges[i].to_id@,
    ) by {
        assert(is_upstream_edge(edges[i], upstream[i], root));
        assert(up[i] == edges[i].from_id@);
    }
    assert forall|k: int| 0 <= k < upstream.len() implies has_node_of(
        nodes,
        #[trigger] upstream[k],
    ) && has_edge_from(edges, upstream[k]) by {
        assert(is_upstream_node(nodes[k + 1], upstream[k]));
        assert(is_upstream_edge(edges[k], upstream[k], root));
    }
    assert forall|i: int| 1 <= i < nodes.len() implies ends_with_part(
        (#[trigger] nodes[i]).unique_id@,
        nodes[i].name@,
    ) && (nodes[i].unique_id@.contains('.') ==> starts_with_type(
        nodes[i].unique_id@,
        nodes[i].resource_type@,
        true,
    )) by {
        assert(is_upstream_node(nodes[i], upstream[i - 1]));
        let id = nodes[i].unique_id@;
        lemma_last_part_has_no_separator(id, '.');
        lemma_cut_at_the_first(id, '.');
        if let Some((before, after)) = split_at_first(id, '.') {
            assert(id[before.len() as int] == '.');
            assert(before =~= id.take(before.len() as int));
        }
    }
}

/// Whether a resource is among the nodes.
pub open spec fn has_node_of(nodes: Seq<LineageNode>, id: String) -> bool {
    exists|i: int| 0 <= i < nodes.len() && (#[trigger] nodes[i]).unique_id == id
}

/// Whether an edge leads from a resource.
pub open spec fn has_edge_from(edges: Seq<LineageEdge>, id: String) -> bool {
    exists|i: int| 0 <= i < edges.len() && (#[trigger] edges[i]).from_id == id
}

/// Whether a text is the last dotted part of another.
pub open spec fn ends_with_part(id: Seq<char>, part: Seq<char>) -> bool {
    &&& !part.contains('.')
    &&& part.len() <= id.len()
    &&& id.skip(id.len() - part.len()) == part
    &&& part.len() == id.len() || id[id.len() - part.len() - 1] == '.'
}

} // verus!
