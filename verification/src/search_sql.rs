//! The SQL of a search across all resources of a project.
use crate::find::str_texts;
use crate::pagination::{cursor_sql, cursor_ref, cursor_where_fragment, Cursor, CursorView, SortDir};
use crate::sql::{escape_ilike, escape_str, escaped, pattern, quote_list, quoted_list};
use crate::text::{
    as_opt_str, csv, csv_items, decimal, given, given_text, join, joined, opt_text, same,
    split_words, texts, to_decimal, trim, trimmed, words,
};
use vstd::prelude::*;

verus! {

// ---------------------------------------------------------------------------
// Resource types
// ---------------------------------------------------------------------------

/// All resource types that can appear in search results.
#[derive(Debug, Clone, Copy, PartialEq, Eq, Structural)]
pub enum ResourceType {
    Model,
    Source,
    Seed,
    Snapshot,
    Test,
    UnitTest,
    Exposure,
    Metric,
    SemanticModel,
    SavedQuery,
    Macro,
    Group,
}

/// Every resource type, in order.
pub open spec fn all_types() -> Seq<ResourceType> {
    seq![
        ResourceType::Model,
        ResourceType::Source,
        ResourceType::Seed,
        ResourceType::Snapshot,
        ResourceType::Test,
        ResourceType::UnitTest,
        ResourceType::Exposure,
        ResourceType::Metric,
        ResourceType::SemanticModel,
        ResourceType::SavedQuery,
        ResourceType::Macro,
        ResourceType::Group,
    ]
}

impl ResourceType {
    /// The name of a resource type.
    pub open spec fn name(self) -> Seq<char> {
        match self {
            ResourceType::Model => "model"@,
            ResourceType::Source => "source"@,
            ResourceType::Seed => "seed"@,
            ResourceType::Snapshot => "snapshot"@,
            ResourceType::Test => "test"@,
            ResourceType::UnitTest => "unit_test"@,
            ResourceType::Exposure => "exposure"@,
            ResourceType::Metric => "metric"@,
            ResourceType::SemanticModel => "semantic_model"@,
            ResourceType::SavedQuery => "saved_query"@,
            ResourceType::Macro => "macro"@,
            ResourceType::Group => "group"@,
        }
    }

    /// The resource type of a name.
    pub open spec fn named(s: Seq<char>) -> Option<ResourceType> {
        if s == "model"@ {
            Some(ResourceType::Model)
        } else if s == "source"@ {
            Some(ResourceType::Source)
        } else if s == "seed"@ {
            Some(ResourceType::Seed)
        } else if s == "snapshot"@ {
            Some(ResourceType::Snapshot)
        } else if s == "test"@ {
            Some(ResourceType::Test)
        } else if s == "unit_test"@ {
            Some(ResourceType::UnitTest)
        } else if s == "exposure"@ {
            Some(ResourceType::Exposure)
        } else if s == "metric"@ {
            Some(ResourceType::Metric)
        } else if s == "semantic_model"@ {
            Some(ResourceType::SemanticModel)
        } else if s == "saved_query"@ {
            Some(ResourceType::SavedQuery)
        } else if s == "macro"@ {
            Some(ResourceType::Macro)
        } else if s == "group"@ {
            Some(ResourceType::Group)
        } else {
            None
        }
    }

    /// Whether resources of this type stand in `dbt.nodes`.
    pub open spec fn is_node(self) -> bool {
        self == ResourceType::Model || self == ResourceType::Source || self == ResourceType::Seed
            || self == ResourceType::Snapshot || self == ResourceType::Test
    }

    /// Every resource type, in order.
    pub fn all() -> (r: Vec<ResourceType>)
        ensures
            r@ == all_types(),
    {
        vec![
            ResourceType::Model,
            ResourceType::Source,
            ResourceType::Seed,
            ResourceType::Snapshot,
            ResourceType::Test,
            ResourceType::UnitTest,
            ResourceType::Exposure,
            ResourceType::Metric,
            ResourceType::SemanticModel,
            ResourceType::SavedQuery,
            ResourceType::Macro,
            ResourceType::Group,
        ]
    }

    /// The resource type of a name.
    pub fn from_str(s: &str) -> (r: Option<ResourceType>)
        ensures
            r == ResourceType::named(s@),
    {
        if same(s, "model") {
            Some(ResourceType::Model)
        } else if same(s, "source") {
            Some(ResourceType::Source)
        } else if same(s, "seed") {
            Some(ResourceType::Seed)
        } else if same(s, "snapshot") {
            Some(ResourceType::Snapshot)
        } else if same(s, "test") {
            Some(ResourceType::Test)
        } else if same(s, "unit_test") {
            Some(ResourceType::UnitTest)
        } else if same(s, "exposure") {
            Some(ResourceType::Exposure)
        } else if same(s, "metric") {
            Some(ResourceType::Metric)
        } else if same(s, "semantic_model") {
            Some(ResourceType::SemanticModel)
        } else if same(s, "saved_query") {
            Some(ResourceType::SavedQuery)
        } else if same(s, "macro") {
            Some(ResourceType::Macro)
        } else if same(s, "group") {
            Some(ResourceType::Group)
        } else {
            None
        }
    }

    /// The name of a resource type.
    pub fn as_str(self) -> (r: &'static str)
        ensures
            r@ == self.name(),
    {
        match self {
            ResourceType::Model => "model",
            ResourceType::Source => "source",
            ResourceType::Seed => "seed",
            ResourceType::Snapshot => "snapshot",
            ResourceType::Test => "test",
            ResourceType::UnitTest => "unit_test",
            ResourceType::Exposure => "exposure",
            ResourceType::Metric => "metric",
            ResourceType::SemanticModel => "semantic_model",
            ResourceType::SavedQuery => "saved_query",
            ResourceType::Macro => "macro",
            ResourceType::Group => "group",
        }
    }

    /// Whether resources of this type stand in `dbt.nodes`.
    pub fn lives_in_dbt_nodes(self) -> (r: bool)
        ensures
            r == self.is_node(),
    {
        matches!(
            self,
            ResourceType::Model | ResourceType::Source | ResourceType::Seed
                | ResourceType::Snapshot | ResourceType::Test
        )
    }
}

/// The name of a resource type stands for it.
pub proof fn lemma_type_names_read_back(t: ResourceType)
    ensures
        ResourceType::named(t.name()) == Some(t),
{
    reveal_strlit("model");
    reveal_strlit("source");
    reveal_strlit("seed");
    reveal_strlit("snapshot");
    reveal_strlit("test");
    reveal_strlit("unit_test");
    reveal_strlit("exposure");
    reveal_strlit("metric");
    reveal_strlit("semantic_model");
    reveal_strlit("saved_query");
    reveal_strlit("macro");
    reveal_strlit("group");
    assert("model"@[0] == 'm' && "model"@[1] == 'o');
    assert("metric"@[0] == 'm' && "metric"@[1] == 'e');
    assert("macro"@[0] == 'm' && "macro"@[1] == 'a');
    assert("source"@[0] == 's' && "source"@[1] == 'o');
    assert("seed"@[0] == 's' && "seed"@[1] == 'e' && "seed"@.len() == 4);
    assert("snapshot"@[0] == 's' && "snapshot"@[1] == 'n');
    assert("semantic_model"@[0] == 's' && "semantic_model"@[1] == 'e' && "semantic_model"@.len()
        == 14);
    assert("saved_query"@[0] == 's' && "saved_query"@[1] == 'a');
    assert("test"@[0] == 't');
    assert("unit_test"@[0] == 'u');
    assert("exposure"@[0] == 'e');
    assert("group"@[0] == 'g');
}

/// Some of the resource types, in order.
pub open spec fn types_in(all: Seq<ResourceType>, set: Set<ResourceType>) -> Seq<ResourceType>
    decreases all.len(),
{
    if all.len() == 0 {
        all
    } else if set.contains(all.last()) {
        types_in(all.drop_last(), set).push(all.last())
    } else {
        types_in(all.drop_last(), set)
    }
}

/// A set of resource types, each once and in order.
pub open spec fn ordered(set: Set<ResourceType>) -> Seq<ResourceType> {
    types_in(all_types(), set)
}

/// The resource types that some names stand for.
pub open spec fn named_types(names: Seq<Seq<char>>) -> Set<ResourceType> {
    Set::new(|t: ResourceType| names.contains(t.name()))
}

/// The first name that is none of a resource type.
pub open spec fn unknown_type(names: Seq<Seq<char>>) -> Option<Seq<char>>
    decreases names.len(),
{
    if names.len() == 0 {
        None
    } else if ResourceType::named(names[0]) is None {
        Some(names[0])
    } else {
        unknown_type(names.skip(1))
    }
}

fn contains_name(names: &Vec<String>, name: &str) -> (r: bool)
    ensures
        r == texts(names@).contains(name@),
{
    let ghost all = texts(names@);
    let mut i: usize = 0;
    while i < names.len()
        invariant
            i <= names.len(),
            all == texts(names@),
            forall|j: int| 0 <= j < i ==> all[j] != name@,
        decreases names.len() - i,
    {
        if same(names[i].as_str(), name) {
            assert(all[i as int] == name@);
            return true;
        }
        i += 1;
    }
    false
}

fn find_unknown_type(names: &Vec<String>) -> (r: Option<&str>)
    ensures
        crate::text::opt_str_text(r) == unknown_type(texts(names@)),
{
    let ghost all = texts(names@);
    let mut i: usize = 0;
    assert(all.skip(0) == all);
    while i < names.len()
        invariant
            i <= names.len(),
            all == texts(names@),
            unknown_type(all) == unknown_type(all.skip(i as int)),
        decreases names.len() - i,
    {
        assert(all.skip(i as int).skip(1) == all.skip(i + 1));
        if ResourceType::from_str(names[i].as_str()).is_none() {
            return Some(names[i].as_str());
        }
        i += 1;
    }
    None
}

/// Parse a comma-separated list of resource types. The error names the first
/// unknown one.
pub fn parse_csv_resource_types(raw: &str) -> (r: Result<Vec<ResourceType>, String>)
    ensures
        match r {
            Ok(types) => unknown_type(csv(raw@)) is None && types@ == ordered(
                named_types(csv(raw@)),
            ),
            Err(e) => unknown_type(csv(raw@)) matches Some(name) && e@ == "invalid type: "@ + name,
        },
{
    let names = csv_items(raw);
    if let Some(name) = find_unknown_type(&names) {
        let mut e = "invalid type: ".to_owned();
        e.append(name);
        return Err(e);
    }
    let all = ResourceType::all();
    let mut types: Vec<ResourceType> = Vec::new();
    let ghost set = named_types(csv(raw@));
    let mut i: usize = 0;
    assert(all@.take(0) == Seq::<ResourceType>::empty());
    while i < all.len()
        invariant
            i <= all.len(),
            all@ == all_types(),
            texts(names@) == csv(raw@),
            set == named_types(csv(raw@)),
            types@ == types_in(all@.take(i as int), set),
        decreases all.len() - i,
    {
        let t = all[i];
        assert(all@.take(i + 1).drop_last() == all@.take(i as int));
        if contains_name(&names, t.as_str()) {
            types.push(t);
        }
        i += 1;
    }
    assert(all@.take(all@.len() as int) == all@);
    Ok(types)
}

/// Whether a resource type is among some.
pub fn contains_type(types: &Vec<ResourceType>, t: ResourceType) -> (r: bool)
    ensures
        r == types@.contains(t),
{
    let mut i: usize = 0;
    while i < types.len()
        invariant
            i <= types.len(),
            forall|j: int| 0 <= j < i ==> types@[j] != t,
        decreases types.len() - i,
    {
        if types[i] == t {
            assert(types@[i as int] == t);
            return true;
        }
        i += 1;
    }
    false
}

// ---------------------------------------------------------------------------
// Modeling layers
// ---------------------------------------------------------------------------

/// The path conditions of the layer `Staging`.
pub const STAGING_CONDITION: &'static str = "lower(b.original_file_path) LIKE '%/staging/%' \
     OR lower(b.original_file_path) LIKE '%/stg_%' \
     OR lower(b.original_file_path) LIKE 'staging/%'";

/// The path conditions of the layer `Intermediate`.
pub const INTERMEDIATE_CONDITION: &'static str =
    "lower(b.original_file_path) LIKE '%/intermediate/%' \
     OR lower(b.original_file_path) LIKE '%/int_%' \
     OR lower(b.original_file_path) LIKE 'intermediate/%'";

/// The path conditions of the layer `Marts`.
pub const MARTS_CONDITION: &'static str = "lower(b.original_file_path) LIKE '%/marts/%' \
     OR lower(b.original_file_path) LIKE '%/dim_%' \
     OR lower(b.original_file_path) LIKE '%/fct_%' \
     OR lower(b.original_file_path) LIKE 'marts/%'";

/// The modeling layers, each with the conditions on the path of a model of it.
pub open spec fn layers() -> Seq<(Seq<char>, Seq<char>)> {
    seq![
        ("Staging"@, STAGING_CONDITION@),
        ("Intermediate"@, INTERMEDIATE_CONDITION@),
        ("Marts"@, MARTS_CONDITION@),
    ]
}

/// The condition of a modeling layer.
pub open spec fn layer_condition(name: Seq<char>) -> Option<Seq<char>> {
    if name == "Staging"@ {
        Some(STAGING_CONDITION@)
    } else if name == "Intermediate"@ {
        Some(INTERMEDIATE_CONDITION@)
    } else if name == "Marts"@ {
        Some(MARTS_CONDITION@)
    } else {
        None
    }
}

/// The condition of a modeling layer.
pub fn find_layer_condition(name: &str) -> (r: Option<&'static str>)
    ensures
        crate::text::opt_str_text(r) == layer_condition(name@),
{
    if same(name, "Staging") {
        Some(STAGING_CONDITION)
    } else if same(name, "Intermediate") {
        Some(INTERMEDIATE_CONDITION)
    } else if same(name, "Marts") {
        Some(MARTS_CONDITION)
    } else {
        None
    }
}

/// The first name that is none of a modeling layer.
pub open spec fn unknown_layer(names: Seq<Seq<char>>) -> Option<Seq<char>>
    decreases names.len(),
{
    if names.len() == 0 {
        None
    } else if layer_condition(names[0]) is None {
        Some(names[0])
    } else {
        unknown_layer(names.skip(1))
    }
}

/// The first item of a comma-separated list that is no modeling layer.
pub fn find_unknown_layer(raw: &str) -> (r: Option<String>)
    ensures
        opt_text(r) == unknown_layer(csv(raw@)),
{
    let names = csv_items(raw);
    let ghost all = texts(names@);
    let mut i: usize = 0;
    assert(all.skip(0) == all);
    while i < names.len()
        invariant
            i <= names.len(),
            all == texts(names@),
            all == csv(raw@),
            unknown_layer(all) == unknown_layer(all.skip(i as int)),
        decreases names.len() - i,
    {
        assert(all.skip(i as int).skip(1) == all.skip(i + 1));
        if find_layer_condition(names[i].as_str()).is_none() {
            return Some(names[i].clone());
        }
        i += 1;
    }
    None
}

/// Where no name is unknown, every name is that of a layer.
proof fn lemma_known_layers(names: Seq<Seq<char>>)
    requires
        unknown_layer(names) is None,
    ensures
        forall|i: int| 0 <= i < names.len() ==> layer_condition(#[trigger] names[i]) is Some,
    decreases names.len(),
{
    if names.len() > 0 {
        lemma_known_layers(names.skip(1));
        assert forall|i: int| 0 <= i < names.len() implies layer_condition(
            #[trigger] names[i],
        ) is Some by {
            if i > 0 {
                assert(names[i] == names.skip(1)[i - 1]);
            }
        }
    }
}

/// The conditions of some layers, joined by `OR`.
pub open spec fn layers_sql(names: Seq<Seq<char>>) -> Seq<char> {
    joined(
        Seq::new(
            names.len(),
            |i: int| "("@ + layer_condition(names[i])->0 + ")"@,
        ),
        " OR "@,
    )
}

/// Build the `WHERE` fragment for the `?modeling_layer=` filter, of known layers.
pub fn modeling_layer_where(raw: &str) -> (r: String)
    requires
        unknown_layer(csv(raw@)) is None,
    ensures
        r@ == layers_sql(csv(raw@)),
{
    let names = csv_items(raw);
    let ghost all = csv(raw@);
    proof {
        lemma_known_layers(all);
    }
    let mut parts: Vec<String> = Vec::new();
    let mut i: usize = 0;
    while i < names.len()
        invariant
            i <= names.len(),
            all == texts(names@),
            forall|j: int| 0 <= j < all.len() ==> layer_condition(#[trigger] all[j]) is Some,
            parts.len() == i,
            forall|j: int|
                0 <= j < i ==> (#[trigger] parts@[j])@ == "("@ + layer_condition(all[j])->0 + ")"@,
        decreases names.len() - i,
    {
        assert(layer_condition(all[i as int]) is Some);
        let mut part = "(".to_owned();
        if let Some(condition) = find_layer_condition(names[i].as_str()) {
            part.append(condition);
        }
        part.append(")");
        parts.push(part);
        i += 1;
    }
    assert(texts(parts@) =~= Seq::new(
        all.len(),
        |i: int| "("@ + layer_condition(all[i])->0 + ")"@,
    ));
    join(&parts, " OR ")
}

// ---------------------------------------------------------------------------
// Branches of the union of all resources
// ---------------------------------------------------------------------------

pub const NODES_HEAD: &'static str = "SELECT n.unique_id, n.name, n.resource_type, n.package_name, \
     n.fqn, n.tags, n.description, \
     n.materialized, n.access_level, n.source_name, ";

pub const NODES_TESTS: &'static str = " AS freshness_checked, \
     CASE WHEN n.resource_type = 'test' THEN 'test' \
          WHEN n.resource_type = 'unit_test' THEN 'unit_test' \
          ELSE NULL END AS test_type, \
     NULL::VARCHAR AS exposure_type, ";

pub const NODES_FROM: &'static str = " AS executed_at, \
     n.original_file_path \
     FROM dbt.nodes n ";

pub const NODES_WHERE: &'static str = " WHERE n.resource_type IN (";

pub const FRESHNESS_JOIN: &'static str =
    "LEFT JOIN dbt.source_freshness sf ON sf.unique_id = n.unique_id";

pub const RUN_RESULTS_JOIN: &'static str = "LEFT JOIN ( \
       SELECT unique_id, CAST(MAX(created_at) AS VARCHAR) AS executed_at \
       FROM dbt_rt.run_results \
       GROUP BY unique_id \
     ) rr ON rr.unique_id = n.unique_id";

/// The branch of the resources in `dbt.nodes` of some types, with or without the
/// joins of views that may be absent.
pub open spec fn nodes_branch(
    types: Seq<Seq<char>>,
    with_freshness: bool,
    with_run_results: bool,
) -> Seq<char> {
    NODES_HEAD@ + (if with_freshness {
        "sf.unique_id IS NOT NULL"@
    } else {
        "NULL::BOOLEAN"@
    }) + NODES_TESTS@ + (if with_run_results {
        "rr.executed_at"@
    } else {
        "NULL::VARCHAR"@
    }) + NODES_FROM@ + (if with_freshness {
        FRESHNESS_JOIN@
    } else {
        ""@
    }) + " "@ + (if with_run_results {
        RUN_RESULTS_JOIN@
    } else {
        ""@
    }) + NODES_WHERE@ + quoted_list(types) + ")"@
}

/// Build the nodes branch (model/source/seed/snapshot/test) with optional joins.
/// Projects a uniform column set.
pub fn nodes_branch_sql(types: &[&str], with_freshness: bool, with_run_results: bool) -> (r: String)
    ensures
        r@ == nodes_branch(str_texts(types@), with_freshness, with_run_results),
{
    let mut list: Vec<String> = Vec::new();
    let mut i: usize = 0;
    while i < types.len()
        invariant
            i <= types.len(),
            list.len() == i,
            forall|j: int| 0 <= j < i ==> (#[trigger] list@[j])@ == types@[j]@,
        decreases types.len() - i,
    {
        list.push(types[i].to_owned());
        i += 1;
    }
    assert(texts(list@) =~= str_texts(types@));
    let mut r = NODES_HEAD.to_owned();
    r.append(
        if with_freshness {
            "sf.unique_id IS NOT NULL"
        } else {
            "NULL::BOOLEAN"
        },
    );
    r.append(NODES_TESTS);
    r.append(
        if with_run_results {
            "rr.executed_at"
        } else {
            "NULL::VARCHAR"
        },
    );
    r.append(NODES_FROM);
    r.append(
        if with_freshness {
            FRESHNESS_JOIN
        } else {
            ""
        },
    );
    r.append(" ");
    r.append(
        if with_run_results {
            RUN_RESULTS_JOIN
        } else {
            ""
        },
    );
    r.append(NODES_WHERE);
    r.append(quote_list(&list).as_str());
    r.append(")");
    r
}

pub const EXPOSURES_BRANCH: &'static str = "SELECT e.unique_id, e.name, 'exposure'::VARCHAR AS resource_type, e.package_name, \
     e.fqn, e.tags, e.description, \
     NULL::VARCHAR AS materialized, NULL::VARCHAR AS access_level, NULL::VARCHAR AS source_name, \
     NULL::BOOLEAN AS freshness_checked, \
     NULL::VARCHAR AS test_type, \
     e.exposure_type, \
     NULL::VARCHAR AS executed_at, \
     NULL::VARCHAR AS original_file_path \
     FROM dbt.exposures e";

/// The branch of the exposures.
pub fn exposures_branch_sql() -> (r: String)
    ensures
        r@ == EXPOSURES_BRANCH@,
{
    EXPOSURES_BRANCH.to_owned()
}

pub const MACROS_BRANCH: &'static str = "SELECT m.unique_id, m.name, 'macro'::VARCHAR AS resource_type, m.package_name, \
     NULL::VARCHAR[] AS fqn, NULL::VARCHAR[] AS tags, m.description, \
     NULL::VARCHAR AS materialized, NULL::VARCHAR AS access_level, NULL::VARCHAR AS source_name, \
     NULL::BOOLEAN AS freshness_checked, \
     NULL::VARCHAR AS test_type, \
     NULL::VARCHAR AS exposure_type, \
     NULL::VARCHAR AS executed_at, \
     NULL::VARCHAR AS original_file_path \
     FROM dbt.macros m";

/// The branch of the macros.
pub fn macros_branch_sql() -> (r: String)
    ensures
        r@ == MACROS_BRANCH@,
{
    MACROS_BRANCH.to_owned()
}

pub const METRICS_BRANCH: &'static str = "SELECT m.unique_id, m.name, 'metric'::VARCHAR AS resource_type, m.package_name, \
     m.fqn, m.tags, m.description, \
     NULL::VARCHAR AS materialized, NULL::VARCHAR AS access_level, NULL::VARCHAR AS source_name, \
     NULL::BOOLEAN AS freshness_checked, \
     NULL::VARCHAR AS test_type, \
     NULL::VARCHAR AS exposure_type, \
     NULL::VARCHAR AS executed_at, \
     NULL::VARCHAR AS original_file_path \
     FROM dbt.metrics m";

/// The branch of the metrics.
pub fn metrics_branch_sql() -> (r: String)
    ensures
        r@ == METRICS_BRANCH@,
{
    METRICS_BRANCH.to_owned()
}

pub const SAVED_QUERIES_BRANCH: &'static str = "SELECT sq.unique_id, sq.name, 'saved_query'::VARCHAR AS resource_type, sq.package_name, \
     sq.fqn, sq.tags, sq.description, \
     NULL::VARCHAR AS materialized, NULL::VARCHAR AS access_level, NULL::VARCHAR AS source_name, \
     NULL::BOOLEAN AS freshness_checked, \
     NULL::VARCHAR AS test_type, \
     NULL::VARCHAR AS exposure_type, \
     NULL::VARCHAR AS executed_at, \
     NULL::VARCHAR AS original_file_path \
     FROM dbt.saved_queries sq";

/// The branch of the saved queries.
pub fn saved_queries_branch_sql() -> (r: String)
    ensures
        r@ == SAVED_QUERIES_BRANCH@,
{
    SAVED_QUERIES_BRANCH.to_owned()
}

pub const SEMANTIC_MODELS_BRANCH: &'static str = "SELECT sm.unique_id, sm.name, 'semantic_model'::VARCHAR AS resource_type, sm.package_name, \
     sm.fqn, \
     COALESCE((json_extract(sm.config, '$.tags'))::VARCHAR[], []::VARCHAR[]) AS tags, \
     sm.description, \
     NULL::VARCHAR AS materialized, NULL::VARCHAR AS access_level, NULL::VARCHAR AS source_name, \
     NULL::BOOLEAN AS freshness_checked, \
     NULL::VARCHAR AS test_type, \
     NULL::VARCHAR AS exposure_type, \
     NULL::VARCHAR AS executed_at, \
     NULL::VARCHAR AS original_file_path \
     FROM dbt.semantic_models sm";

/// The branch of the semantic models.
pub fn semantic_models_branch_sql() -> (r: String)
    ensures
        r@ == SEMANTIC_MODELS_BRANCH@,
{
    SEMANTIC_MODELS_BRANCH.to_owned()
}

pub const GROUPS_BRANCH: &'static str = "SELECT g.unique_id, g.name, 'group'::VARCHAR AS resource_type, g.package_name, \
     NULL::VARCHAR[] AS fqn, NULL::VARCHAR[] AS tags, g.description, \
     NULL::VARCHAR AS materialized, NULL::VARCHAR AS access_level, NULL::VARCHAR AS source_name, \
     NULL::BOOLEAN AS freshness_checked, \
     NULL::VARCHAR AS test_type, \
     NULL::VARCHAR AS exposure_type, \
     NULL::VARCHAR AS executed_at, \
     NULL::VARCHAR AS original_file_path \
     FROM dbt.groups g";

/// The branch of the groups.
pub fn groups_branch_sql() -> (r: String)
    ensures
        r@ == GROUPS_BRANCH@,
{
    GROUPS_BRANCH.to_owned()
}

pub const UNIT_TESTS_BRANCH: &'static str = "SELECT ut.unique_id, ut.name, 'unit_test'::VARCHAR AS resource_type, ut.package_name, \
     ut.fqn, NULL::VARCHAR[] AS tags, ut.description, \
     NULL::VARCHAR AS materialized, NULL::VARCHAR AS access_level, NULL::VARCHAR AS source_name, \
     NULL::BOOLEAN AS freshness_checked, \
     'unit_test'::VARCHAR AS test_type, \
     NULL::VARCHAR AS exposure_type, \
     NULL::VARCHAR AS executed_at, \
     NULL::VARCHAR AS original_file_path \
     FROM dbt.unit_tests ut";

/// The branch of the unit tests.
pub fn unit_tests_branch_sql() -> (r: String)
    ensures
        r@ == UNIT_TESTS_BRANCH@,
{
    UNIT_TESTS_BRANCH.to_owned()
}

/// The names of the types that stand in `dbt.nodes`.
pub open spec fn node_type_names(types: Seq<ResourceType>) -> Seq<Seq<char>>
    decreases types.len(),
{
    if types.len() == 0 {
        Seq::empty()
    } else if types.last().is_node() {
        node_type_names(types.drop_last()).push(types.last().name())
    } else {
        node_type_names(types.drop_last())
    }
}

/// One branch, if its type is among those asked for.
pub open spec fn branch_if(types: Seq<ResourceType>, t: ResourceType, sql: Seq<char>) -> Seq<
    Seq<char>,
> {
    if types.contains(t) {
        seq![sql]
    } else {
        Seq::empty()
    }
}

/// The branches of the resource types asked for.
pub open spec fn branches(
    types: Seq<ResourceType>,
    with_freshness: bool,
    with_run_results: bool,
) -> Seq<Seq<char>> {
    let nodes = node_type_names(types);
    (if nodes.len() > 0 {
        seq![nodes_branch(nodes, with_freshness, with_run_results)]
    } else {
        Seq::<Seq<char>>::empty()
    }) + branch_if(types, ResourceType::Exposure, EXPOSURES_BRANCH@) + branch_if(
        types,
        ResourceType::Macro,
        MACROS_BRANCH@,
    ) + branch_if(types, ResourceType::Metric, METRICS_BRANCH@) + branch_if(
        types,
        ResourceType::SavedQuery,
        SAVED_QUERIES_BRANCH@,
    ) + branch_if(types, ResourceType::SemanticModel, SEMANTIC_MODELS_BRANCH@) + branch_if(
        types,
        ResourceType::Group,
        GROUPS_BRANCH@,
    ) + branch_if(types, ResourceType::UnitTest, UNIT_TESTS_BRANCH@)
}

/// The union of the branches of the resource types asked for.
pub open spec fn base_union(
    types: Seq<ResourceType>,
    with_freshness: bool,
    with_run_results: bool,
) -> Seq<char> {
    joined(branches(types, with_freshness, with_run_results), "\nUNION ALL\n"@)
}

/// There is a branch for every resource type, and its presence does not depend on
/// which joins are made: the union is empty exactly where no type is asked for.
pub proof fn lemma_union_is_empty_for_no_types(
    types: Seq<ResourceType>,
    with_freshness: bool,
    with_run_results: bool,
)
    ensures
        branches(types, with_freshness, with_run_results).len() == 0 <==> types.len() == 0,
{
    if types.len() > 0 {
        let t = types.last();
        assert(types.contains(t));
        assert(t.is_node() ==> node_type_names(types).len() > 0);
    } else {
        assert(node_type_names(types).len() == 0);
    }
}

fn push_branch(
    branches: &mut Vec<String>,
    types: &Vec<ResourceType>,
    t: ResourceType,
    sql: String,
)
    ensures
        texts(final(branches)@) == texts(old(branches)@) + branch_if(types@, t, sql@),
{
    if contains_type(types, t) {
        branches.push(sql);
    }
    assert(texts(branches@) =~= texts(old(branches)@) + branch_if(types@, t, sql@));
}

/// Build the union of all resources of the requested types; `None` where no type
/// is requested.
pub fn build_base_union(
    requested_types: &Vec<ResourceType>,
    with_freshness: bool,
    with_run_results: bool,
) -> (r: Option<String>)
    ensures
        match r {
            Some(sql) => requested_types.len() > 0 && sql@ == base_union(
                requested_types@,
                with_freshness,
                with_run_results,
            ),
            None => requested_types.len() == 0,
        },
{
    proof {
        lemma_union_is_empty_for_no_types(requested_types@, with_freshness, with_run_results);
    }
    let mut nodes: Vec<&str> = Vec::new();
    let mut i: usize = 0;
    assert(requested_types@.take(0) == Seq::<ResourceType>::empty());
    assert(str_texts(nodes@) =~= Seq::<Seq<char>>::empty());
    while i < requested_types.len()
        invariant
            i <= requested_types.len(),
            str_texts(nodes@) == node_type_names(requested_types@.take(i as int)),
        decreases requested_types.len() - i,
    {
        let t = requested_types[i];
        assert(requested_types@.take(i + 1).drop_last() == requested_types@.take(i as int));
        if t.lives_in_dbt_nodes() {
            let ghost had = nodes@;
            nodes.push(t.as_str());
            assert(str_texts(nodes@) =~= str_texts(had).push(t.name()));
        }
        i += 1;
    }
    assert(requested_types@.take(requested_types@.len() as int) == requested_types@);
    let ghost names = node_type_names(requested_types@);
    let mut parts: Vec<String> = Vec::new();
    if nodes.len() > 0 {
        parts.push(nodes_branch_sql(nodes.as_slice(), with_freshness, with_run_results));
    }
    assert(texts(parts@) =~= (if names.len() > 0 {
        seq![nodes_branch(names, with_freshness, with_run_results)]
    } else {
        Seq::<Seq<char>>::empty()
    }));
    push_branch(&mut parts, requested_types, ResourceType::Exposure, exposures_branch_sql());
    push_branch(&mut parts, requested_types, ResourceType::Macro, macros_branch_sql());
    push_branch(&mut parts, requested_types, ResourceType::Metric, metrics_branch_sql());
    push_branch(&mut parts, requested_types, ResourceType::SavedQuery, saved_queries_branch_sql());
    push_branch(
        &mut parts,
        requested_types,
        ResourceType::SemanticModel,
        semantic_models_branch_sql(),
    );
    push_branch(&mut parts, requested_types, ResourceType::Group, groups_branch_sql());
    push_branch(&mut parts, requested_types, ResourceType::UnitTest, unit_tests_branch_sql());
    assert(texts(parts@) == branches(requested_types@, with_freshness, with_run_results));
    if parts.len() == 0 {
        return None;
    }
    Some(join(&parts, "\nUNION ALL\n"))
}

// ---------------------------------------------------------------------------
// Filters
// ---------------------------------------------------------------------------

/// The filter by package.
pub open spec fn package_sql(raw: Seq<char>) -> Seq<char> {
    "b.package_name IN ("@ + quoted_list(csv(raw)) + ")"@
}

/// Build the `WHERE` fragment for the `?package=` filter.
pub fn package_where(raw: &str) -> (r: String)
    ensures
        r@ == package_sql(raw@),
{
    let mut r = "b.package_name IN (".to_owned();
    r.append(quote_list(&csv_items(raw)).as_str());
    r.append(")");
    r
}

/// The condition that a resource has a tag.
pub open spec fn tag_condition(tag: Seq<char>) -> Seq<char> {
    "len(list_filter(b.tags, x -> lower(x) = lower('"@ + escaped(tag) + "'))) > 0"@
}

/// The filter by tag: the condition, or several conditions joined by `OR` in brackets,
/// so that the other filters hold beside each of them.
pub open spec fn tag_sql(raw: Seq<char>) -> Seq<char> {
    let tags = csv(raw);
    if tags.len() == 1 {
        tag_condition(tags[0])
    } else {
        "("@ + joined(Seq::new(tags.len(), |i: int| "("@ + tag_condition(tags[i]) + ")"@), " OR "@)
            + ")"@
    }
}

fn tag_condition_sql(tag: &str) -> (r: String)
    ensures
        r@ == tag_condition(tag@),
{
    let mut r = "len(list_filter(b.tags, x -> lower(x) = lower('".to_owned();
    r.append(escape_str(tag).as_str());
    r.append("'))) > 0");
    r
}

/// Build the `WHERE` fragment for the `?tag=` filter. Resources without tags are
/// excluded.
pub fn tag_where(raw: &str) -> (r: String)
    ensures
        r@ == tag_sql(raw@),
{
    let tags = csv_items(raw);
    let ghost all = csv(raw@);
    if tags.len() == 1 {
        assert(all[0] == tags@[0]@);
        return tag_condition_sql(tags[0].as_str());
    }
    let mut parts: Vec<String> = Vec::new();
    let mut i: usize = 0;
    while i < tags.len()
        invariant
            i <= tags.len(),
            all == texts(tags@),
            parts.len() == i,
            forall|j: int|
                0 <= j < i ==> (#[trigger] parts@[j])@ == "("@ + tag_condition(all[j]) + ")"@,
        decreases tags.len() - i,
    {
        let mut part = "(".to_owned();
        part.append(tag_condition_sql(tags[i].as_str()).as_str());
        part.append(")");
        parts.push(part);
        i += 1;
    }
    assert(texts(parts@) =~= Seq::new(all.len(), |i: int| "("@ + tag_condition(all[i]) + ")"@));
    wrap("(", join(&parts, " OR ").as_str(), ")")
}

// ---------------------------------------------------------------------------
// Matches of tokens
// ---------------------------------------------------------------------------

pub const MATCH_NAME: &'static str =
    "SELECT unique_id, 'name' AS matched_field, 1 AS priority FROM base \
     WHERE name ILIKE '%' || '";

pub const MATCH_COLUMN: &'static str = "' || '%' ESCAPE '\\'\n\
     UNION ALL\n\
     SELECT b.unique_id, 'column', 2 FROM base b \
     JOIN dbt.node_columns c USING (unique_id) \
     WHERE c.column_name ILIKE '%' || '";

pub const MATCH_TAG: &'static str = "' || '%' ESCAPE '\\'\n\
     UNION ALL\n\
     SELECT unique_id, 'tag', 3 FROM base \
     WHERE tags IS NOT NULL \
     AND len(list_filter(tags, x -> x ILIKE '%' || '";

pub const MATCH_FQN: &'static str = "' || '%' ESCAPE '\\')) > 0\n\
     UNION ALL\n\
     SELECT unique_id, 'fqn', 4 FROM base \
     WHERE fqn IS NOT NULL \
     AND array_to_string(fqn, '.') ILIKE '%' || '";

pub const MATCH_DESCRIPTION: &'static str = "' || '%' ESCAPE '\\'\n\
     UNION ALL\n\
     SELECT unique_id, 'description', 5 FROM base \
     WHERE description ILIKE '%' || '";

pub const MATCH_END: &'static str = "' || '%' ESCAPE '\\'";

/// The fields that a token matches in, with their priority:
/// name(1) > column(2) > tag(3) > fqn(4) > description(5).
pub open spec fn token_matches(token: Seq<char>) -> Seq<char> {
    let q = escaped(pattern(token));
    MATCH_NAME@ + q + MATCH_COLUMN@ + q + MATCH_TAG@ + q + MATCH_FQN@ + q + MATCH_DESCRIPTION@ + q
        + MATCH_END@
}

/// The name of the matches of the token with the index `i`.
pub open spec fn token_cte(i: int) -> Seq<char> {
    "token_matches_"@ + decimal(i as nat)
}

/// The tables of matches: for one token its matches; for several the matches of
/// each, the resources that all of them match, and all matches together.
pub open spec fn field_matches(tokens: Seq<Seq<char>>) -> Seq<char> {
    if tokens.len() == 1 {
        "field_matches AS (\n    "@ + token_matches(tokens[0]) + "\n)"@
    } else {
        joined(
            Seq::new(
                tokens.len(),
                |i: int| token_cte(i) + " AS (\n"@ + token_matches(tokens[i]) + "\n)"@,
            ).push(
                "valid_unique_ids AS (\n"@ + joined(
                    Seq::new(
                        tokens.len(),
                        |i: int| "SELECT unique_id FROM "@ + token_cte(i),
                    ),
                    "\nINTERSECT\n"@,
                ) + "\n)"@,
            ).push(
                "field_matches AS (\n"@ + joined(
                    Seq::new(tokens.len(), |i: int| "SELECT * FROM "@ + token_cte(i)),
                    "\nUNION ALL\n"@,
                ) + "\n)"@,
            ),
            ",\n"@,
        )
    }
}

fn token_matches_sql(token: &str) -> (r: String)
    ensures
        r@ == token_matches(token@),
{
    let q = escape_ilike(token);
    let mut r = MATCH_NAME.to_owned();
    r.append(q.as_str());
    r.append(MATCH_COLUMN);
    r.append(q.as_str());
    r.append(MATCH_TAG);
    r.append(q.as_str());
    r.append(MATCH_FQN);
    r.append(q.as_str());
    r.append(MATCH_DESCRIPTION);
    r.append(q.as_str());
    r.append(MATCH_END);
    r
}

/// Text before and after another.
fn wrap(before: &str, text: &str, after: &str) -> (r: String)
    ensures
        r@ == before@ + text@ + after@,
{
    let mut r = before.to_owned();
    r.append(text);
    r.append(after);
    r
}

/// Build the `field_matches` table of a search. Each token must match at least one
/// field of a resource.
pub fn build_field_matches_cte(tokens: &Vec<String>) -> (r: String)
    requires
        tokens.len() > 0,
    ensures
        r@ == field_matches(texts(tokens@)),
{
    let ghost all = texts(tokens@);
    if tokens.len() == 1 {
        assert(all[0] == tokens@[0]@);
        return wrap("field_matches AS (\n    ", token_matches_sql(tokens[0].as_str()).as_str(), "\n)");
    }
    let mut ctes: Vec<String> = Vec::new();
    let mut ids: Vec<String> = Vec::new();
    let mut rows: Vec<String> = Vec::new();
    let mut i: usize = 0;
    while i < tokens.len()
        invariant
            i <= tokens.len(),
            all == texts(tokens@),
            ctes.len() == i,
            ids.len() == i,
            rows.len() == i,
            forall|j: int|
                0 <= j < i ==> (#[trigger] ctes@[j])@ == token_cte(j) + " AS (\n"@
                    + token_matches(all[j]) + "\n)"@,
            forall|j: int|
                0 <= j < i ==> (#[trigger] ids@[j])@ == "SELECT unique_id FROM "@ + token_cte(j),
            forall|j: int|
                0 <= j < i ==> (#[trigger] rows@[j])@ == "SELECT * FROM "@ + token_cte(j),
        decreases tokens.len() - i,
    {
        let mut name = "token_matches_".to_owned();
        name.append(to_decimal(i as u64).as_str());
        let mut cte = name.clone();
        cte.append(" AS (\n");
        cte.append(token_matches_sql(tokens[i].as_str()).as_str());
        cte.append("\n)");
        ctes.push(cte);
        let mut id = "SELECT unique_id FROM ".to_owned();
        id.append(name.as_str());
        ids.push(id);
        let mut row = "SELECT * FROM ".to_owned();
        row.append(name.as_str());
        rows.push(row);
        i += 1;
    }
    assert(texts(ids@) =~= Seq::new(all.len(), |i: int| "SELECT unique_id FROM "@ + token_cte(i)));
    assert(texts(rows@) =~= Seq::new(all.len(), |i: int| "SELECT * FROM "@ + token_cte(i)));
    let ghost each = Seq::new(
        all.len(),
        |i: int| token_cte(i) + " AS (\n"@ + token_matches(all[i]) + "\n)"@,
    );
    assert(texts(ctes@) =~= each);
    let valid = wrap("valid_unique_ids AS (\n", join(&ids, "\nINTERSECT\n").as_str(), "\n)");
    let fields = wrap("field_matches AS (\n", join(&rows, "\nUNION ALL\n").as_str(), "\n)");
    ctes.push(valid);
    ctes.push(fields);
    assert(texts(ctes@) =~= each.push(valid@).push(fields@));
    join(&ctes, ",\n")
}

// ---------------------------------------------------------------------------
// Ranking
// ---------------------------------------------------------------------------

/// A tier of a sort key: left-padded with zeros to a width; as it is where the
/// width is 0.
pub open spec fn tier_sql(width: nat, expr: Seq<char>) -> Seq<char> {
    if width == 0 {
        "("@ + expr + ")"@
    } else {
        "LPAD(CAST(("@ + expr + ") AS VARCHAR), "@ + decimal(width) + ", '0')"@
    }
}

/// Tiers as widths and expressions.
pub open spec fn tiers_view(tiers: Seq<(usize, &str)>) -> Seq<(nat, Seq<char>)> {
    Seq::new(tiers.len(), |i: int| (tiers[i].0 as nat, tiers[i].1@))
}

/// A sort key: the tiers, one behind the other.
pub open spec fn sort_key(tiers: Seq<(nat, Seq<char>)>) -> Seq<char> {
    joined(Seq::new(tiers.len(), |i: int| tier_sql(tiers[i].0, tiers[i].1)), "\n          || "@)
}

/// Concatenate ranking tiers into one fixed-width, lexicographically-sortable key.
///
/// Each tier is `(width, expr)`: the expr is left-padded with `'0'` to `width` chars
/// so byte-wise string ordering matches numeric ordering. A `width` of `0` appends
/// the expr unpadded: the variable-width tail.
pub fn join_fixed_width_sort_key(tiers: &[(usize, &str)]) -> (r: String)
    ensures
        r@ == sort_key(tiers_view(tiers@)),
{
    let ghost all = tiers_view(tiers@);
    let mut parts: Vec<String> = Vec::new();
    let mut i: usize = 0;
    while i < tiers.len()
        invariant
            i <= tiers.len(),
            all == tiers_view(tiers@),
            parts.len() == i,
            forall|j: int|
                0 <= j < i ==> (#[trigger] parts@[j])@ == tier_sql(all[j].0, all[j].1),
        decreases tiers.len() - i,
    {
        let (width, expr) = tiers[i];
        let part = if width == 0 {
            wrap("(", expr, ")")
        } else {
            let mut part = wrap("LPAD(CAST((", expr, ") AS VARCHAR), ");
            part.append(to_decimal(width as u64).as_str());
            part.append(", '0')");
            part
        };
        parts.push(part);
        i += 1;
    }
    assert(texts(parts@) =~= Seq::new(all.len(), |i: int| tier_sql(all[i].0, all[i].1)));
    join(&parts, "\n          || ")
}

pub const RESOURCE_RANK: &'static str = "CASE b.resource_type \
       WHEN 'model'          THEN '0' \
       WHEN 'source'         THEN '1' \
       WHEN 'metric'         THEN '2' \
       WHEN 'exposure'       THEN '3' \
       WHEN 'snapshot'       THEN '4' \
       WHEN 'semantic_model' THEN '5' \
       WHEN 'seed'           THEN '6' \
       WHEN 'saved_query'    THEN '7' \
       WHEN 'test'           THEN '8' \
       ELSE '9' END";

/// The tier of an exact name match.
pub open spec fn exact_match(q: Seq<char>) -> Seq<char> {
    "CASE WHEN lower(b.name) = lower('"@ + escaped(q) + "') THEN '0' ELSE '1' END"@
}

/// The tier of a prefix name match.
pub open spec fn prefix_match(q: Seq<char>) -> Seq<char> {
    "CASE WHEN lower(b.name) LIKE lower('"@ + escaped(pattern(q))
        + "') || '%' ESCAPE '\\' THEN '0' ELSE '1' END"@
}

/// The tier of the modeling layer: marts first, none last.
pub open spec fn layer_rank() -> Seq<char> {
    "CASE WHEN "@ + MARTS_CONDITION@ + " THEN '0' WHEN "@ + INTERMEDIATE_CONDITION@
        + " THEN '1' WHEN "@ + STAGING_CONDITION@ + " THEN '2' ELSE '3' END"@
}

/// What a tier of the ranking goes by.
pub ghost enum RankTier {
    Exact,
    Prefix,
    Priority,
    Resource,
    Layer,
    Name,
}

/// The tiers of the ranking with their widths, from the strongest to the weakest: exact
/// name match, prefix name match, field-match priority, resource type, modeling layer,
/// and the raw name as the tail.
pub open spec fn ranking_order() -> Seq<(nat, RankTier)> {
    seq![
        (1nat, RankTier::Exact),
        (1nat, RankTier::Prefix),
        (1nat, RankTier::Priority),
        (1nat, RankTier::Resource),
        (1nat, RankTier::Layer),
        (0nat, RankTier::Name),
    ]
}

/// The expression of a tier.
pub open spec fn tier_expr(tier: RankTier, q: Seq<char>) -> Seq<char> {
    match tier {
        RankTier::Exact => exact_match(q),
        RankTier::Prefix => prefix_match(q),
        RankTier::Priority => "w.match_priority"@,
        RankTier::Resource => RESOURCE_RANK@,
        RankTier::Layer => layer_rank(),
        RankTier::Name => "b.name"@,
    }
}

/// The tiers of the ranking, as widths and expressions.
pub open spec fn ranking_tiers(q: Seq<char>) -> Seq<(nat, Seq<char>)> {
    let order = ranking_order();
    Seq::new(order.len(), |i: int| (order[i].0, tier_expr(order[i].1, q)))
}

/// The sort key of a resource without a name.
pub const NAMELESS_KEY: &'static str = "9~9999";

/// The sort key of the ranking. A resource without a name sorts last.
pub open spec fn ranking_key(q: Seq<char>) -> Seq<char> {
    "CASE WHEN b.name IS NULL THEN '"@ + NAMELESS_KEY@ + "' ELSE "@ + sort_key(ranking_tiers(q))
        + " END"@
}

/// Build the composite `cursor_key` SQL expression for search-mode ranking.
///
/// Encodes the ranking tiers into a single lexicographically-sortable text, so that
/// the cursor needs a single key. An exact or prefix name match outranks the
/// resource type.
pub fn ranking_cursor_key_expr(q: &str) -> (r: String)
    ensures
        r@ == ranking_key(q@),
{
    let exact = wrap(
        "CASE WHEN lower(b.name) = lower('",
        escape_str(q).as_str(),
        "') THEN '0' ELSE '1' END",
    );
    let prefix = wrap(
        "CASE WHEN lower(b.name) LIKE lower('",
        escape_ilike(q).as_str(),
        "') || '%' ESCAPE '\\' THEN '0' ELSE '1' END",
    );
    let mut layer = wrap("CASE WHEN ", MARTS_CONDITION, " THEN '0' WHEN ");
    layer.append(INTERMEDIATE_CONDITION);
    layer.append(" THEN '1' WHEN ");
    layer.append(STAGING_CONDITION);
    layer.append(" THEN '2' ELSE '3' END");
    let mut tiers: Vec<(usize, &str)> = Vec::new();
    tiers.push((1, exact.as_str()));
    tiers.push((1, prefix.as_str()));
    tiers.push((1, "w.match_priority"));
    tiers.push((1, RESOURCE_RANK));
    tiers.push((1, layer.as_str()));
    tiers.push((0, "b.name"));
    assert(tiers_view(tiers@) =~= ranking_tiers(q@));
    let key = join_fixed_width_sort_key(tiers.as_slice());
    let mut r = wrap("CASE WHEN b.name IS NULL THEN '", NAMELESS_KEY, "' ELSE ");
    r.append(key.as_str());
    r.append(" END");
    r
}

// ---------------------------------------------------------------------------
// The search
// ---------------------------------------------------------------------------

/// Query parameters of a search.
#[derive(Debug)]
pub struct SearchQueryParams {
    /// Search query; absent or empty triggers browse mode.
    pub q: Option<String>,
    /// Comma-separated resource_type filter.
    pub type_filter: Option<String>,
    /// Comma-separated package_name filter.
    pub package: Option<String>,
    /// Comma-separated tag filter.
    pub tag: Option<String>,
    /// Comma-separated modeling_layer filter.
    pub modeling_layer: Option<String>,
    /// Comma-separated materialization filter (model-scoped). Any string accepted;
    /// unknown values return empty results, never 400.
    pub materialization: Option<String>,
    /// Page size.
    pub first: Option<u32>,
    /// Opaque cursor from a prior page's `page_info.end_cursor`.
    pub after: Option<String>,
}

impl Default for SearchQueryParams {
    fn default() -> (r: SearchQueryParams)
        ensures
            r.q is None,
            r.type_filter is None,
            r.package is None,
            r.tag is None,
            r.modeling_layer is None,
            r.materialization is None,
            r.first is None,
            r.after is None,
    {
        SearchQueryParams {
            q: None,
            type_filter: None,
            package: None,
            tag: None,
            modeling_layer: None,
            materialization: None,
            first: None,
            after: None,
        }
    }
}

/// The SQL of a search: a page of the results, and the count of all of them.
#[derive(Debug)]
pub struct SearchSql {
    pub page_sql: String,
    pub count_sql: String,
}

/// The words that are searched for; none in browse mode.
pub open spec fn search_words(q: Option<Seq<char>>) -> Seq<Seq<char>> {
    match q {
        Some(q) => words(q),
        None => Seq::empty(),
    }
}

/// Whether a query is there and not blank.
pub open spec fn is_search(q: Option<Seq<char>>) -> bool {
    match q {
        Some(q) => trimmed(q).len() > 0,
        None => false,
    }
}

/// One condition, if there is one.
pub open spec fn condition_if(c: Option<Seq<char>>) -> Seq<Seq<char>> {
    match c {
        Some(c) => seq![c],
        None => Seq::empty(),
    }
}

/// The condition of the materialization filter, unless it is blank.
pub open spec fn materialization_condition(raw: Option<Seq<char>>) -> Option<Seq<char>> {
    match raw {
        Some(raw) => if csv(raw).len() > 0 {
            Some("b.materialized IN ("@ + quoted_list(csv(raw)) + ")"@)
        } else {
            None
        },
        None => None,
    }
}

/// The conditions of the filters.
pub open spec fn filter_conditions(params: SearchQueryParams) -> Seq<Seq<char>> {
    condition_if(
        match given_text(params.package) {
            Some(raw) => Some(package_sql(raw)),
            None => None,
        },
    ) + condition_if(
        match given_text(params.tag) {
            Some(raw) => Some(tag_sql(raw)),
            None => None,
        },
    ) + condition_if(
        match given_text(params.modeling_layer) {
            Some(raw) => Some("("@ + layers_sql(csv(raw)) + ")"@),
            None => None,
        },
    ) + condition_if(materialization_condition(given_text(params.materialization)))
}

/// The `WHERE` clause of the filters; empty where there is none.
pub open spec fn filter_clause(params: SearchQueryParams) -> Seq<char> {
    let conditions = filter_conditions(params);
    if conditions.len() == 0 {
        ""@
    } else {
        "WHERE "@ + joined(conditions, " AND "@)
    }
}

/// Why a search cannot be built, if it cannot: no resource type is left to search,
/// or a modeling layer is unknown. Which joins are made has no part in it.
pub open spec fn search_fault(
    params: SearchQueryParams,
    types: Seq<ResourceType>,
) -> Option<Seq<char>> {
    if types.len() == 0 {
        Some("no resource types to search"@)
    } else {
        match given_text(params.modeling_layer) {
            Some(raw) => match unknown_layer(csv(raw)) {
                Some(layer) => Some("invalid modeling_layer value: "@ + layer),
                None => None,
            },
            None => None,
        }
    }
}

pub const BASE_HEAD: &'static str = "WITH base AS (\nSELECT * FROM (\n";

pub const WINNERS_HEAD: &'static str = ",\nwinners AS (\n\
     SELECT unique_id, arg_min(matched_field, priority) AS matched_field,\n\
     min(priority) AS match_priority\n\
     FROM field_matches\n\
     GROUP BY unique_id\n\
     )\n\
     SELECT b.*, w.matched_field, (";

pub const WINNERS_JOIN: &'static str = ") AS cursor_key\n\
     FROM base b\n\
     JOIN winners w ON w.unique_id = b.unique_id\n";

pub const COUNT_WINNERS: &'static str = ",\nwinners AS (\n\
     SELECT unique_id, arg_min(matched_field, priority) AS matched_field\n\
     FROM field_matches\n\
     GROUP BY unique_id\n\
     )\n\
     SELECT COUNT(*)\n\
     FROM winners w\n";

pub const BROWSE_FROM: &'static str = "\n) _b\n)\n\
     SELECT b.*, NULL::VARCHAR AS matched_field\n\
     FROM base b\n";

/// The resources and matches that a search starts from. The filters stand behind the
/// union of the resources, under the name that they call it by.
pub open spec fn search_head(
    params: SearchQueryParams,
    types: Seq<ResourceType>,
    with_freshness: bool,
    with_run_results: bool,
) -> Seq<char> {
    BASE_HEAD@ + base_union(types, with_freshness, with_run_results) + "\n) b\n"@ + filter_clause(
        params,
    ) + "\n),\n"@ + field_matches(search_words(opt_text(params.q)))
}

/// The join that keeps only resources that every word matches; none for one word.
pub open spec fn valid_ids_join(n: nat, alias: Seq<char>) -> Seq<char> {
    if n > 1 {
        "JOIN valid_unique_ids vuid ON vuid.unique_id = "@ + alias + ".unique_id"@
    } else {
        ""@
    }
}

/// The condition of a cursor, behind another condition.
pub open spec fn and_cursor(key: Seq<char>, cursor: Option<CursorView>) -> Seq<char> {
    match cursor {
        Some(c) => " AND "@ + cursor_sql(key, "b.unique_id"@, SortDir::Asc, c),
        None => ""@,
    }
}

/// The query for a page of a search.
pub open spec fn search_page(
    params: SearchQueryParams,
    types: Seq<ResourceType>,
    with_freshness: bool,
    with_run_results: bool,
    first: u32,
    cursor: Option<CursorView>,
) -> Seq<char> {
    let key = ranking_key(trimmed(opt_text(params.q)->0));
    let n = search_words(opt_text(params.q)).len();
    search_head(params, types, with_freshness, with_run_results) + WINNERS_HEAD@ + key
        + WINNERS_JOIN@ + valid_ids_join(n, "b"@) + "\nWHERE 1=1"@ + and_cursor(key, cursor)
        + "\nORDER BY cursor_key ASC, b.unique_id ASC\nLIMIT "@ + decimal((first + 1) as nat)
}

/// The query for the count of a search.
pub open spec fn search_count(
    params: SearchQueryParams,
    types: Seq<ResourceType>,
    with_freshness: bool,
    with_run_results: bool,
) -> Seq<char> {
    let n = search_words(opt_text(params.q)).len();
    search_head(params, types, with_freshness, with_run_results) + COUNT_WINNERS@ + valid_ids_join(
        n,
        "w"@,
    )
}

/// The `WHERE` clause of a page in browse mode.
pub open spec fn browse_clause(params: SearchQueryParams, cursor: Option<CursorView>) -> Seq<char> {
    match cursor {
        Some(c) => {
            let after = cursor_sql("b.name"@, "b.unique_id"@, SortDir::Asc, c);
            if filter_conditions(params).len() == 0 {
                "WHERE "@ + after
            } else {
                filter_clause(params) + " AND "@ + after
            }
        },
        None => filter_clause(params),
    }
}

/// The query for a page in browse mode.
pub open spec fn browse_page(
    params: SearchQueryParams,
    types: Seq<ResourceType>,
    with_freshness: bool,
    with_run_results: bool,
    first: u32,
    cursor: Option<CursorView>,
) -> Seq<char> {
    BASE_HEAD@ + base_union(types, with_freshness, with_run_results) + BROWSE_FROM@ + browse_clause(
        params,
        cursor,
    ) + "\nORDER BY b.name ASC NULLS LAST, b.unique_id ASC\nLIMIT "@ + decimal((first + 1) as nat)
}

/// The query for the count in browse mode.
pub open spec fn browse_count(
    params: SearchQueryParams,
    types: Seq<ResourceType>,
    with_freshness: bool,
    with_run_results: bool,
) -> Seq<char> {
    BASE_HEAD@ + base_union(types, with_freshness, with_run_results)
        + "\n) _b\n)\nSELECT COUNT(*) FROM base b\n"@ + filter_clause(params)
}

/// The query for a page of the results.
pub open spec fn page_sql(
    params: SearchQueryParams,
    types: Seq<ResourceType>,
    with_freshness: bool,
    with_run_results: bool,
    first: u32,
    cursor: Option<CursorView>,
) -> Seq<char> {
    if is_search(opt_text(params.q)) {
        search_page(params, types, with_freshness, with_run_results, first, cursor)
    } else {
        browse_page(params, types, with_freshness, with_run_results, first, cursor)
    }
}

/// The query for the count of all results. The cursor has no part in it.
pub open spec fn count_sql(
    params: SearchQueryParams,
    types: Seq<ResourceType>,
    with_freshness: bool,
    with_run_results: bool,
) -> Seq<char> {
    if is_search(opt_text(params.q)) {
        search_count(params, types, with_freshness, with_run_results)
    } else {
        browse_count(params, types, with_freshness, with_run_results)
    }
}

/// The SQL condition of every filter, in order.
fn filter_parts(params: &SearchQueryParams) -> (r: Vec<String>)
    requires
        given_text(params.modeling_layer) matches Some(raw) ==> unknown_layer(csv(raw)) is None,
    ensures
        texts(r@) == filter_conditions(*params),
{
    let mut parts: Vec<String> = Vec::new();
    assert(texts(parts@) =~= Seq::<Seq<char>>::empty());
    if let Some(raw) = given(&params.package) {
        let ghost had = parts@;
        parts.push(package_where(raw));
        assert(texts(parts@) =~= texts(had) + seq![package_sql(raw@)]);
    }
    if let Some(raw) = given(&params.tag) {
        let ghost had = parts@;
        parts.push(tag_where(raw));
        assert(texts(parts@) =~= texts(had) + seq![tag_sql(raw@)]);
    }
    if let Some(raw) = given(&params.modeling_layer) {
        let ghost had = parts@;
        let part = wrap("(", modeling_layer_where(raw).as_str(), ")");
        parts.push(part);
        assert(texts(parts@) =~= texts(had) + seq![part@]);
    }
    if let Some(raw) = given(&params.materialization) {
        let items = csv_items(raw);
        if items.len() > 0 {
            let ghost had = parts@;
            let part = wrap("b.materialized IN (", quote_list(&items).as_str(), ")");
            parts.push(part);
            assert(texts(parts@) =~= texts(had) + seq![part@]);
        }
    }
    assert(texts(parts@) =~= filter_conditions(*params));
    parts
}

/// The condition of a cursor, behind another condition.
fn and_cursor_sql(key: &str, cursor: Option<&Cursor>) -> (r: String)
    ensures
        r@ == and_cursor(key@, cursor_ref(cursor)),
{
    match cursor {
        Some(c) => {
            let mut r = " AND ".to_owned();
            r.append(
                cursor_where_fragment(
                    key,
                    "b.unique_id",
                    SortDir::Asc,
                    as_opt_str(&c.sort_value),
                    c.unique_id.as_str(),
                ).as_str(),
            );
            r
        },
        None => "".to_owned(),
    }
}

/// The `WHERE` clause of the filters.
fn filter_clause_sql(parts: &Vec<String>) -> (r: String)
    ensures
        r@ == (if parts.len() == 0 {
            ""@
        } else {
            "WHERE "@ + joined(texts(parts@), " AND "@)
        }),
{
    if parts.len() == 0 {
        return "".to_owned();
    }
    let mut r = "WHERE ".to_owned();
    r.append(join(parts, " AND ").as_str());
    r
}

fn valid_ids_join_sql(n: usize, alias: &str) -> (r: String)
    ensures
        r@ == valid_ids_join(n as nat, alias@),
{
    if n > 1 {
        wrap("JOIN valid_unique_ids vuid ON vuid.unique_id = ", alias, ".unique_id")
    } else {
        "".to_owned()
    }
}

fn build_search_mode(
    params: &SearchQueryParams,
    q: &str,
    union: &str,
    clause: &str,
    first: u32,
    cursor: Option<&Cursor>,
) -> (r: SearchSql)
    requires
        first < u32::MAX,
        opt_text(params.q) == Some(q@),
        is_search(Some(q@)),
        clause@ == filter_clause(*params),
    ensures
        forall|types: Seq<ResourceType>, f: bool, rr: bool|
            union@ == #[trigger] base_union(types, f, rr) ==> r.page_sql@ == search_page(
                *params,
                types,
                f,
                rr,
                first,
                cursor_ref(cursor),
            ) && r.count_sql@ == search_count(*params, types, f, rr),
{
    let tokens = split_words(q);
    proof {
        crate::text::lemma_words_of_text(q@);
    }
    let mut head = wrap(BASE_HEAD, union, "\n) b\n");
    head.append(clause);
    head.append("\n),\n");
    head.append(build_field_matches_cte(&tokens).as_str());
    let key = ranking_cursor_key_expr(trim(q).as_str());
    let mut page = head.clone();
    page.append(WINNERS_HEAD);
    page.append(key.as_str());
    page.append(WINNERS_JOIN);
    page.append(valid_ids_join_sql(tokens.len(), "b").as_str());
    page.append("\nWHERE 1=1");
    page.append(and_cursor_sql(key.as_str(), cursor).as_str());
    page.append("\nORDER BY cursor_key ASC, b.unique_id ASC\nLIMIT ");
    page.append(to_decimal((first + 1) as u64).as_str());
    let mut count = head;
    count.append(COUNT_WINNERS);
    count.append(valid_ids_join_sql(tokens.len(), "w").as_str());
    SearchSql { page_sql: page, count_sql: count }
}

fn build_browse_mode(
    params: &SearchQueryParams,
    union: &str,
    parts: &Vec<String>,
    first: u32,
    cursor: Option<&Cursor>,
) -> (r: SearchSql)
    requires
        first < u32::MAX,
        texts(parts@) == filter_conditions(*params),
    ensures
        forall|types: Seq<ResourceType>, f: bool, rr: bool|
            union@ == #[trigger] base_union(types, f, rr) ==> r.page_sql@ == browse_page(
                *params,
                types,
                f,
                rr,
                first,
                cursor_ref(cursor),
            ) && r.count_sql@ == browse_count(*params, types, f, rr),
{
    let clause = filter_clause_sql(parts);
    let page_clause = match cursor {
        Some(c) => {
            let after = cursor_where_fragment(
                "b.name",
                "b.unique_id",
                SortDir::Asc,
                as_opt_str(&c.sort_value),
                c.unique_id.as_str(),
            );
            let mut r = if parts.len() == 0 {
                "WHERE ".to_owned()
            } else {
                let mut r = clause.clone();
                r.append(" AND ");
                r
            };
            r.append(after.as_str());
            r
        },
        None => clause.clone(),
    };
    assert(page_clause@ == browse_clause(*params, cursor_ref(cursor)));
    let mut page = wrap(BASE_HEAD, union, BROWSE_FROM);
    page.append(page_clause.as_str());
    page.append("\nORDER BY b.name ASC NULLS LAST, b.unique_id ASC\nLIMIT ");
    page.append(to_decimal((first + 1) as u64).as_str());
    let mut count = wrap(BASE_HEAD, union, "\n) _b\n)\nSELECT COUNT(*) FROM base b\n");
    count.append(clause.as_str());
    SearchSql { page_sql: page, count_sql: count }
}

/// Build the full SQL for a search.
///
/// Whether it can be built depends on the parameters and the types alone, not on
/// which joins are made.
pub fn build_search_sql(
    params: &SearchQueryParams,
    requested_types: &Vec<ResourceType>,
    with_freshness: bool,
    with_run_results: bool,
    first: u32,
    cursor: Option<&Cursor>,
) -> (r: Result<SearchSql, String>)
    requires
        first < u32::MAX,
    ensures
        match r {
            Ok(sql) => search_fault(*params, requested_types@) is None && sql.page_sql@ == page_sql(
                *params,
                requested_types@,
                with_freshness,
                with_run_results,
                first,
                cursor_ref(cursor),
            ) && sql.count_sql@ == count_sql(
                *params,
                requested_types@,
                with_freshness,
                with_run_results,
            ),
            Err(e) => search_fault(*params, requested_types@) == Some(e@),
        },
{
    let union = match build_base_union(requested_types, with_freshness, with_run_results) {
        Some(union) => union,
        None => return Err("no resource types to search".to_owned()),
    };
    if let Some(raw) = given(&params.modeling_layer) {
        if let Some(layer) = find_unknown_layer(raw) {
            let mut e = "invalid modeling_layer value: ".to_owned();
            e.append(layer.as_str());
            return Err(e);
        }
    }
    let parts = filter_parts(params);
    let searching = match &params.q {
        Some(q) => !trim(q.as_str()).as_str().is_empty(),
        None => false,
    };
    if let Some(q) = &params.q {
        if searching {
            let clause = filter_clause_sql(&parts);
            return Ok(
                build_search_mode(
                    params,
                    q.as_str(),
                    union.as_str(),
                    clause.as_str(),
                    first,
                    cursor,
                ),
            );
        }
    }
    Ok(build_browse_mode(params, union.as_str(), &parts, first, cursor))
}

} // verus!
