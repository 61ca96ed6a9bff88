//! The list of groups and the detail of a group.
//!
//! The models of a group are those of its name and its package: group names are local
//! to a package.
use crate::detail_laws::{lemma_group_query, reads_group};
use crate::encoding::{find_field, json_field, json_inner, read_json_text, JsonNode, JsonView};
use crate::json::{
    check_unique_id, error_view, json_parse_or_null, parsed_or_null, valid_id, ErrorReply,
};
use crate::list_laws::{lemma_group_list, lists_group};
use crate::listing::{
    asked_cursor, finish_page, id_query, id_sql, keys, list_refusal, name_sort, not_found_text,
    page_clause, page_order, page_order_sql, page_where, parse_name_sort, read_after,
    resource_not_found, sort_fault, ListPlan, Listed, LIMIT_ONE,
};
use crate::node_base::{or_empty, text_or_empty, NodeBase};
use crate::pagination::{
    clamp_first, clamp_size, clamped, cursor_ref, leads_on, overfull, page_info_of, page_of, Cursor,
    CursorView, PageInfo, SortDir, DEFAULT_PAGE_SIZE, MAX_PAGE_SIZE,
};
use crate::probe::{ListProbe, ListQuery, NO_COUNT};
use crate::sql::{escape_str, escaped};
use crate::table::{
    all_wf, are_rows, find_filled, first_filled, read_rows, readable, Batch, ColumnData, FromRow,
};
use crate::text::{as_opt_str, decimal, opt_str_text, opt_text, texts, to_decimal};
use vstd::prelude::*;

verus! {

/// Most models that the detail of a group shows, and how many it shows where nothing
/// is asked for.
pub const DEFAULT_MODEL_LIMIT: u32 = 500;

/// Hard ceiling on the models that the detail of a group shows.
pub const HARD_MAX_MODEL_LIMIT: u32 = 500;

// ---------------------------------------------------------------------------
// The detail of a group
// ---------------------------------------------------------------------------

/// The detail of a group.
#[derive(Debug)]
pub struct GroupDetail {
    pub base: NodeBase,
    /// From the config when present; empty otherwise.
    pub tags: Vec<String>,
    /// Null when no owner fields are set.
    pub owner: Option<Owner>,
    /// From the config when present; null otherwise.
    pub meta: JsonNode,
    /// The models of the group, capped.
    pub models: Vec<GroupModelMember>,
    /// Total count of models, unaffected by the cap.
    pub model_count: u64,
    /// `true` when there are more models than are shown.
    pub truncated: bool,
    /// ISO 8601 timestamp.
    pub ingested_at: Option<String>,
}

/// Who owns a group.
#[derive(Debug)]
pub struct Owner {
    pub name: Option<String>,
    pub email: Option<String>,
    pub slack: Option<String>,
    pub github: Option<String>,
}

/// A model of a group.
#[derive(Debug)]
pub struct GroupModelMember {
    pub unique_id: String,
    pub name: String,
    pub database_name: Option<String>,
    pub schema_name: Option<String>,
    pub contract_enforced: Option<bool>,
}

/// Query parameters of the detail of a group.
#[derive(Debug, Default)]
pub struct GroupDetailParams {
    pub first: Option<u32>,
}

/// The value of a field of a JSON value; `None` where the value is no object, has no
/// such field, or the field cannot be read.
pub open spec fn field_value(json: JsonView, name: Seq<char>) -> Option<JsonView> {
    match json {
        JsonView::Object(fields) => match json_field(fields, name) {
            Some(text) => match json_inner(text) {
                Ok(v) => Some(v),
                Err(_) => None,
            },
            None => None,
        },
        _ => None,
    }
}

/// The string that a JSON value is.
pub open spec fn string_of(json: Option<JsonView>) -> Option<Seq<char>> {
    match json {
        Some(JsonView::Text(s)) => Some(s),
        _ => None,
    }
}

/// The strings among some JSON texts.
pub open spec fn strings_among(items: Seq<Seq<char>>) -> Seq<Seq<char>>
    decreases items.len(),
{
    if items.len() == 0 {
        Seq::empty()
    } else {
        let before = strings_among(items.drop_last());
        match json_inner(items.last()) {
            Ok(JsonView::Text(s)) => before.push(s),
            _ => before,
        }
    }
}

/// The tags in a config: the strings of its array `tags`.
pub open spec fn config_tags(config: JsonView) -> Seq<Seq<char>> {
    match field_value(config, "tags"@) {
        Some(JsonView::Array(items)) => strings_among(items),
        _ => Seq::empty(),
    }
}

/// A string in the `owner` of a config.
pub open spec fn config_owner(config: JsonView, name: Seq<char>) -> Option<Seq<char>> {
    match field_value(config, "owner"@) {
        Some(owner) => string_of(field_value(owner, name)),
        None => None,
    }
}

/// The `meta` of a config; null where there is none.
pub open spec fn config_meta(config: JsonView) -> JsonView {
    match field_value(config, "meta"@) {
        Some(v) => v,
        None => JsonView::Null,
    }
}

fn read_field(json: &JsonNode, name: &str) -> (r: Option<JsonNode>)
    ensures
        field_value(json@, name@) == (match r {
            Some(v) => Some(v@),
            None => None,
        }),
{
    match json {
        JsonNode::Object(fields) => match find_field(fields, name) {
            Some(text) => match read_json_text(text) {
                Ok(v) => Some(v),
                Err(_) => None,
            },
            None => None,
        },
        _ => None,
    }
}

fn keep_strings(items: &Vec<String>) -> (r: Vec<String>)
    ensures
        texts(r@) == strings_among(texts(items@)),
{
    let ghost all = texts(items@);
    let mut r: Vec<String> = Vec::new();
    let mut i: usize = 0;
    assert(all.take(0) == Seq::<Seq<char>>::empty());
    assert(texts(r@) =~= Seq::<Seq<char>>::empty());
    while i < items.len()
        invariant
            i <= items.len(),
            all == texts(items@),
            texts(r@) == strings_among(all.take(i as int)),
        decreases items.len() - i,
    {
        assert(all.take(i + 1).drop_last() == all.take(i as int));
        assert(all.take(i + 1).last() == items@[i as int]@);
        match read_json_text(items[i].as_str()) {
            Ok(JsonNode::Text(s)) => {
                let ghost had = r@;
                r.push(s);
                assert(texts(r@) =~= texts(had).push(s@));
            },
            _ => {},
        }
        i += 1;
    }
    assert(all.take(all.len() as int) == all);
    r
}

fn owner_string(owner: &Option<JsonNode>, name: &str) -> (r: Option<String>)
    ensures
        opt_text(r) == (match *owner {
            Some(owner) => string_of(field_value(owner@, name@)),
            None => None,
        }),
{
    match owner {
        Some(owner) => match read_field(owner, name) {
            Some(JsonNode::Text(s)) => Some(s),
            _ => None,
        },
        None => None,
    }
}

/// Lift `tags`, `slack`, `github`, and `meta` from a parsed config. `tags` is a
/// top-level array; `slack` and `github` stand under `owner`; `meta` is a top-level
/// field.
pub fn extract_config_surface(config: &JsonNode) -> (r: (
    Vec<String>,
    Option<String>,
    Option<String>,
    JsonNode,
))
    ensures
        texts(r.0@) == config_tags(config@),
        opt_text(r.1) == config_owner(config@, "slack"@),
        opt_text(r.2) == config_owner(config@, "github"@),
        r.3@ == config_meta(config@),
{
    let tags = match read_field(config, "tags") {
        Some(JsonNode::Array(items)) => keep_strings(&items),
        _ => {
            let none: Vec<String> = Vec::new();
            assert(texts(none@) =~= Seq::<Seq<char>>::empty());
            none
        },
    };
    let owner = read_field(config, "owner");
    let slack = owner_string(&owner, "slack");
    let github = owner_string(&owner, "github");
    let meta = match read_field(config, "meta") {
        Some(v) => v,
        None => JsonNode::Null,
    };
    (tags, slack, github, meta)
}

/// The config of a group.
pub open spec fn group_config(batch: Batch) -> JsonView {
    parsed_or_null(opt_text(batch.opt_text("config"@, 0)))
}

/// Whether an owner is that of a row: none where no owner field is set.
pub open spec fn is_owner(owner: Option<Owner>, batch: Batch) -> bool {
    let name = batch.opt_text("owner_name"@, 0);
    let email = batch.opt_text("owner_email"@, 0);
    let slack = config_owner(group_config(batch), "slack"@);
    let github = config_owner(group_config(batch), "github"@);
    if name is None && email is None && slack is None && github is None {
        owner is None
    } else {
        owner matches Some(o) && o.name == name && o.email == email && opt_text(o.slack) == slack
            && opt_text(o.github) == github
    }
}

/// Whether the own fields of a detail are those of the first row of a batch.
pub open spec fn is_group_detail(d: GroupDetail, batch: Batch) -> bool {
    &&& d.base.unique_id@ == text_or_empty(batch.opt_text("unique_id"@, 0))
    &&& d.base.name@ == text_or_empty(batch.opt_text("name"@, 0))
    &&& d.base.resource_type@ == "group"@
    &&& d.base.package_name == batch.opt_text("package_name"@, 0)
    &&& d.base.description == batch.opt_text("description"@, 0)
    &&& d.base.original_file_path == batch.opt_text("original_file_path"@, 0)
    &&& texts(d.tags@) == config_tags(group_config(batch))
    &&& is_owner(d.owner, batch)
    &&& d.meta@ == config_meta(group_config(batch))
    &&& d.ingested_at == batch.opt_text("ingested_at"@, 0)
}

/// Extract the own fields of a group, with its name and its package, which its models
/// are found by. What comes from other queries is left empty.
pub fn extract_group_detail(batches: &Vec<Batch>) -> (r: Option<
    (GroupDetail, String, Option<String>),
>)
    requires
        all_wf(batches@),
    ensures
        match first_filled(batches@) {
            Some(batch) => r matches Some((d, name, package)) && is_group_detail(d, batch) && name@
                == d.base.name@ && package == d.base.package_name && d.models@.len() == 0
                && d.model_count == 0 && !d.truncated,
            None => r is None,
        },
{
    let batch = match find_filled(batches) {
        Some(batch) => batch,
        None => return None,
    };
    let name = or_empty(batch.get_opt_text("name", 0));
    let package_name = batch.get_opt_text("package_name", 0);
    let owner_name = batch.get_opt_text("owner_name", 0);
    let owner_email = batch.get_opt_text("owner_email", 0);
    let config_raw = batch.get_opt_text("config", 0);
    let config = json_parse_or_null(as_opt_str(&config_raw));
    let (tags, slack, github, meta) = extract_config_surface(&config);
    let owned = owner_name.is_some() || owner_email.is_some() || slack.is_some()
        || github.is_some();
    let owner = if owned {
        Some(Owner { name: owner_name, email: owner_email, slack, github })
    } else {
        None
    };
    let detail = GroupDetail {
        base: NodeBase {
            unique_id: or_empty(batch.get_opt_text("unique_id", 0)),
            name: name.clone(),
            resource_type: "group".to_owned(),
            package_name: crate::text::clone_opt(&package_name),
            description: batch.get_opt_text("description", 0),
            original_file_path: batch.get_opt_text("original_file_path", 0),
        },
        tags,
        owner,
        meta,
        models: Vec::new(),
        model_count: 0,
        truncated: false,
        ingested_at: batch.get_opt_text("ingested_at", 0),
    };
    Some((detail, name, package_name))
}

impl FromRow for GroupModelMember {
    open spec fn columns() -> Seq<Seq<char>> {
        seq![
            "unique_id"@,
            "name"@,
        ]
    }

    open spec fn flags() -> Seq<Seq<char>> {
        Seq::empty()
    }

    open spec fn is_row(self, batch: Batch, row: int) -> bool {
        &&& self.unique_id == batch.text("unique_id"@, row)
        &&& self.name == batch.text("name"@, row)
        &&& self.database_name == batch.opt_text("database_name"@, row)
        &&& self.schema_name == batch.opt_text("schema_name"@, row)
        &&& self.contract_enforced == batch.opt_bool("contract_enforced"@, row)
    }

    fn from_row(batch: &Batch, row: usize) -> (r: GroupModelMember) {
        assert(Self::columns()[0] == "unique_id"@);
        assert(Self::columns()[1] == "name"@);
        GroupModelMember {
            unique_id: batch.get_text("unique_id", row),
            name: batch.get_text("name", row),
            database_name: batch.get_opt_text("database_name", row),
            schema_name: batch.get_opt_text("schema_name", row),
            contract_enforced: batch.get_opt_bool("contract_enforced", row),
        }
    }
}

/// Extract the models of a group.
pub fn extract_group_models(batches: &Vec<Batch>) -> (r: Vec<GroupModelMember>)
    requires
        readable::<GroupModelMember>(batches@),
    ensures
        are_rows(r@, batches@),
{
    read_rows(batches)
}

/// A count: 0 where it is not known or negative.
pub open spec fn count_of(n: Option<i64>) -> u64 {
    match n {
        Some(n) => if n > 0 {
            n as u64
        } else {
            0
        },
        None => 0,
    }
}

fn to_count(n: Option<i64>) -> (r: u64)
    ensures
        r == count_of(n),
{
    match n {
        Some(n) => if n > 0 {
            n as u64
        } else {
            0
        },
        None => 0,
    }
}

/// The number in the first cell of a batch, if it is a number and not null.
pub open spec fn first_cell(batch: Batch) -> Option<i64> {
    match batch.columns@[0].data {
        ColumnData::Int64(cells) => crate::table::known(cells@[0]),
        _ => None,
    }
}

/// The count that a query gave: the first number in the first cell of a batch.
pub open spec fn total_models(batches: Seq<Batch>) -> u64
    decreases batches.len(),
{
    if batches.len() == 0 {
        0
    } else if batches[0].num_rows > 0 && first_cell(batches[0]) is Some {
        count_of(first_cell(batches[0]))
    } else {
        total_models(batches.skip(1))
    }
}

/// Every batch that has rows has a column.
pub open spec fn all_have_columns(batches: Seq<Batch>) -> bool {
    forall|b: int|
        0 <= b < batches.len() && (#[trigger] batches[b]).num_rows > 0 ==> batches[b].columns.len()
            > 0
}

/// Extract the count that a query gave.
pub fn extract_model_count(batches: &Vec<Batch>) -> (r: u64)
    requires
        all_wf(batches@),
        all_have_columns(batches@),
    ensures
        r == total_models(batches@),
{
    let mut i: usize = 0;
    assert(batches@.skip(0) == batches@);
    while i < batches.len()
        invariant
            i <= batches.len(),
            all_wf(batches@),
            all_have_columns(batches@),
            total_models(batches@) == total_models(batches@.skip(i as int)),
        decreases batches.len() - i,
    {
        let batch = &batches[i];
        assert(batches@.skip(i as int).skip(1) == batches@.skip(i + 1));
        if batch.num_rows > 0 {
            assert(batches@[i as int].wf());
            assert(batch.columns@[0].data.has_len(batch.num_rows));
            if let ColumnData::Int64(cells) = &batch.columns[0].data {
                if !cells[0].null {
                    return to_count(Some(cells[0].value));
                }
            }
        }
        i += 1;
    }
    0
}

pub const GROUP_NODE_HEAD: &'static str =
    "SELECT g.unique_id, g.name, g.package_name, g.description, \
     g.original_file_path, \
     g.owner_name, g.owner_email, g.config, \
     CAST(g.ingested_at AS VARCHAR) AS ingested_at \
     FROM dbt.groups g \
     WHERE g.unique_id = '";

/// Check the unique id and build the query for the detail.
pub fn plan_get_group(unique_id: &str) -> (r: Result<String, ErrorReply>)
    ensures
        match r {
            Ok(sql) => valid_id(unique_id@) && sql@ == id_query(GROUP_NODE_HEAD@, unique_id@, LIMIT_ONE@) && reads_group(sql@, unique_id@),
            Err(e) => !valid_id(unique_id@) && e@ == error_view(400, "invalid unique_id"@),
        },
{
    proof {
        lemma_group_query(unique_id@);
    }
    match check_unique_id(unique_id) {
        Ok(_) => Ok(id_sql(GROUP_NODE_HEAD, unique_id, LIMIT_ONE)),
        Err(e) => Err(e),
    }
}

/// The condition on the models of a group: its name, and its package where it has one.
pub open spec fn member_condition(name: Seq<char>, package: Option<Seq<char>>) -> Seq<char> {
    "WHERE n.group_name = '"@ + escaped(name) + "' AND n.resource_type = 'model'"@ + (
    match package {
        Some(package) => " AND n.package_name = '"@ + escaped(package) + "'"@,
        None => ""@,
    })
}

/// The query for the models of a group.
pub open spec fn members_sql(
    name: Seq<char>,
    package: Option<Seq<char>>,
    limit: u32,
) -> Seq<char> {
    "SELECT n.unique_id, n.name, n.database_name, n.schema_name, n.contract_enforced FROM dbt.nodes n "@
        + member_condition(name, package) + " ORDER BY n.name LIMIT "@ + decimal(limit as nat)
}

/// The query for the count of the models of a group.
pub open spec fn member_count_sql(name: Seq<char>, package: Option<Seq<char>>) -> Seq<char> {
    "SELECT count(*) FROM dbt.nodes n "@ + member_condition(name, package)
}

/// The queries for the models of a group.
#[derive(Debug)]
pub struct MemberQueries {
    pub models: String,
    pub count: String,
}

fn member_condition_sql(name: &str, package: &Option<String>) -> (r: String)
    ensures
        r@ == member_condition(name@, opt_text(*package)),
{
    let mut r = "WHERE n.group_name = '".to_owned();
    r.append(escape_str(name).as_str());
    r.append("' AND n.resource_type = 'model'");
    let clause = match package {
        Some(package) => {
            let mut c = " AND n.package_name = '".to_owned();
            c.append(escape_str(package.as_str()).as_str());
            c.append("'");
            c
        },
        None => "".to_owned(),
    };
    r.append(clause.as_str());
    r
}

/// The group that is there, and the queries for its models; or that it is not there.
pub fn plan_group_models(
    unique_id: &str,
    params: &GroupDetailParams,
    node: &Vec<Batch>,
) -> (r: Result<(GroupDetail, MemberQueries), ErrorReply>)
    requires
        all_wf(node@),
    ensures
        match first_filled(node@) {
            Some(batch) => r matches Ok((d, q)) && {
                &&& is_group_detail(d, batch)
                &&& q.models@ == members_sql(
                    text_or_empty(batch.opt_text("name"@, 0)),
                    opt_text(batch.opt_text("package_name"@, 0)),
                    clamped(params.first, DEFAULT_MODEL_LIMIT, HARD_MAX_MODEL_LIMIT),
                )
                &&& q.count@ == member_count_sql(
                    text_or_empty(batch.opt_text("name"@, 0)),
                    opt_text(batch.opt_text("package_name"@, 0)),
                )
            },
            None => r matches Err(e) && e@ == error_view(404, not_found_text("group"@, unique_id@)),
        },
{
    let limit: u32 = clamp_size(params.first, DEFAULT_MODEL_LIMIT, HARD_MAX_MODEL_LIMIT);
    let (detail, name, package) = match extract_group_detail(node) {
        Some(found) => found,
        None => return Err(resource_not_found("group", unique_id)),
    };
    let condition = member_condition_sql(name.as_str(), &package);
    let mut models =
        "SELECT n.unique_id, n.name, n.database_name, n.schema_name, n.contract_enforced FROM dbt.nodes n ".to_owned();
    models.append(condition.as_str());
    models.append(" ORDER BY n.name LIMIT ");
    models.append(to_decimal(limit as u64).as_str());
    let mut count = "SELECT count(*) FROM dbt.nodes n ".to_owned();
    count.append(condition.as_str());
    Ok((detail, MemberQueries { models, count }))
}

/// The detail of a group with its models, from what their queries gave.
pub fn finish_get_group(detail: GroupDetail, models: &Vec<Batch>, count: &Vec<Batch>) -> (r:
    GroupDetail)
    requires
        readable::<GroupModelMember>(models@),
        all_wf(count@),
        all_have_columns(count@),
    ensures
        r.base == detail.base,
        r.tags == detail.tags,
        r.owner == detail.owner,
        r.meta == detail.meta,
        r.ingested_at == detail.ingested_at,
        are_rows(r.models@, models@),
        r.model_count == total_models(count@),
        r.truncated == (r.model_count > r.models@.len()),
{
    let mut detail = detail;
    detail.models = extract_group_models(models);
    detail.model_count = extract_model_count(count);
    detail.truncated = detail.model_count > detail.models.len() as u64;
    detail
}

// ---------------------------------------------------------------------------
// The list of groups
// ---------------------------------------------------------------------------

/// One row of the list of groups.
#[derive(Debug)]
pub struct GroupSummary {
    pub unique_id: String,
    pub name: String,
    pub owner_name: Option<String>,
    pub owner_email: Option<String>,
    pub owner_github: Option<String>,
    pub owner_slack: Option<String>,
    pub model_count: u64,
}

/// Cursor-paginated response of the list.
#[derive(Debug)]
pub struct GroupListResponse {
    pub data: Vec<GroupSummary>,
    pub page_info: PageInfo,
}

/// Facets: there are none. It exists for uniformity across resource types.
#[derive(Debug)]
pub struct GroupFacetsResponse {}

/// Query parameters of the list.
#[derive(Debug)]
pub struct GroupListParams {
    /// Sort: `name:asc` (default) or `name:desc`. Any other key is refused.
    pub sort: Option<String>,
    pub first: Option<u32>,
    pub after: Option<String>,
}

impl Default for GroupListParams {
    fn default() -> (r: GroupListParams)
        ensures
            r.sort is None,
            r.first is None,
            r.after is None,
    {
        GroupListParams { sort: None, first: None, after: None }
    }
}

pub const GROUP_COUNT: &'static str = "SELECT count(*) FROM dbt.groups g";

pub const GROUP_ROWS_HEAD: &'static str =
    "SELECT g.unique_id, g.name, g.owner_name, g.owner_email, \
     json_extract_string(g.config, '$.owner.github') AS owner_github, \
     json_extract_string(g.config, '$.owner.slack') AS owner_slack, \
     (SELECT COUNT(*) FROM dbt.nodes n \
      WHERE n.group_name = g.name \
        AND n.package_name = g.package_name \
        AND n.resource_type = 'model') AS model_count \
     FROM dbt.groups g ";

/// Parse `?sort`: by name where none is given.
pub fn parse_group_sort(sort: Option<&str>) -> (r: Result<(&'static str, SortDir), &'static str>)
    ensures
        match r {
            Ok((column, dir)) => column@ == "name"@ && name_sort(opt_str_text(sort)) == Ok::<
                SortDir,
                Seq<char>,
            >(dir),
            Err(e) => name_sort(opt_str_text(sort)) == Err::<SortDir, Seq<char>>(e@),
        },
{
    parse_name_sort(sort)
}

/// The query for the count. The cursor has no part in it.
pub open spec fn group_count_sql(params: GroupListParams) -> Seq<char> {
    GROUP_COUNT@
}

/// The query for a page.
pub open spec fn group_rows_sql(
    params: GroupListParams,
    first: u32,
    dir: SortDir,
    cursor: Option<CursorView>,
) -> Seq<char> {
    GROUP_ROWS_HEAD@ + page_clause("WHERE 1=1"@, "g.name"@, "g.unique_id"@, dir, cursor) + page_order(
        "g.name"@,
        "g.unique_id"@,
        dir,
        first,
    )
}

/// Build `(count_sql, rows_sql)`. The models of a group are counted by
/// its name and its package.
pub fn build_group_list_sql(params: &GroupListParams, first: u32, cursor: Option<&Cursor>) -> (r: Result<
    (String, String),
    &'static str,
>)
    requires
        first < u32::MAX,
    ensures
        match r {
            Ok((count_sql, rows_sql)) => name_sort(opt_text(params.sort)) matches Ok(dir)
                && count_sql@ == group_count_sql(*params) && rows_sql@ == group_rows_sql(
                *params,
                first,
                dir,
                cursor_ref(cursor),
            ),
            Err(e) => name_sort(opt_text(params.sort)) == Err::<SortDir, Seq<char>>(e@),
        },
{
    let dir = match parse_group_sort(as_opt_str(&params.sort)) {
        Ok((_, dir)) => dir,
        Err(e) => return Err(e),
    };
    let filter = "WHERE 1=1".to_owned();
    let count_sql = GROUP_COUNT.to_owned();
    let mut rows_sql = GROUP_ROWS_HEAD.to_owned();
    rows_sql.append(
        page_where(filter.as_str(), "g.name", "g.unique_id", dir, cursor).as_str(),
    );
    rows_sql.append(page_order_sql("g.name", "g.unique_id", dir, first).as_str());
    Ok((count_sql, rows_sql))
}

impl FromRow for GroupSummary {
    open spec fn columns() -> Seq<Seq<char>> {
        seq![
            "unique_id"@,
            "name"@,
            "owner_name"@,
            "owner_email"@,
            "owner_github"@,
            "owner_slack"@,
        ]
    }

    open spec fn flags() -> Seq<Seq<char>> {
        Seq::empty()
    }

    open spec fn is_row(self, batch: Batch, row: int) -> bool {
        &&& self.unique_id == batch.text("unique_id"@, row)
        &&& self.name == batch.text("name"@, row)
        &&& self.owner_name == batch.opt_text("owner_name"@, row)
        &&& self.owner_email == batch.opt_text("owner_email"@, row)
        &&& self.owner_github == batch.opt_text("owner_github"@, row)
        &&& self.owner_slack == batch.opt_text("owner_slack"@, row)
        &&& self.model_count == count_of(batch.opt_i64("model_count"@, row))
    }

    fn from_row(batch: &Batch, row: usize) -> (r: GroupSummary) {
        assert(Self::columns()[0] == "unique_id"@);
        assert(Self::columns()[1] == "name"@);
        GroupSummary {
            unique_id: batch.get_text("unique_id", row),
            name: batch.get_text("name", row),
            owner_name: batch.get_opt_text("owner_name", row),
            owner_email: batch.get_opt_text("owner_email", row),
            owner_github: batch.get_opt_text("owner_github", row),
            owner_slack: batch.get_opt_text("owner_slack", row),
            model_count: to_count(batch.get_opt_i64("model_count", row)),
        }
    }
}

/// Convert the batches of the query into typed rows.
pub fn batches_to_group_summary_rows(batches: &Vec<Batch>) -> (r: Vec<GroupSummary>)
    requires
        readable::<GroupSummary>(batches@),
    ensures
        are_rows(r@, batches@),
{
    read_rows(batches)
}

impl Listed for GroupSummary {
    open spec fn key(self, column: Seq<char>) -> CursorView {
        CursorView { sort_value: Some(self.name@), unique_id: self.unique_id@ }
    }

    fn cursor(&self, column: &str) -> (r: Cursor) {
        Cursor { sort_value: Some(self.name.clone()), unique_id: self.unique_id.clone() }
    }
}

/// Check a request for the list and plan it.
pub fn plan_list_groups(params: &GroupListParams) -> (r: Result<ListPlan, ErrorReply>)
    ensures
        match r {
            Ok(plan) => {
                &&& list_refusal(params.after, sort_fault(name_sort(opt_text(params.sort)))) is None
                &&& plan.first == clamped(params.first, DEFAULT_PAGE_SIZE, MAX_PAGE_SIZE)
                &&& 1 <= plan.first <= MAX_PAGE_SIZE
                &&& plan.probe.wf()
                &&& plan.probe.at == 0
                &&& plan.probe.noun@ == "group"@
                &&& plan.probe.absent@ == NO_COUNT@
                &&& plan.probe.queries.len() == 1
                &&& plan.probe.queries@[0].count_sql@ == group_count_sql(*params)
                &&& plan.probe.queries@[0].rows_sql@ == group_rows_sql(
                    *params,
                    plan.first,
                    name_sort(opt_text(params.sort))->Ok_0,
                    asked_cursor(params.after),
                )
                &&& lists_group(
                    plan.probe.queries@[0].count_sql@,
                    plan.probe.queries@[0].rows_sql@,
                    *params,
                    plan.first,
                    name_sort(opt_text(params.sort))->Ok_0,
                    asked_cursor(params.after),
                )
            },
            Err(e) => list_refusal(params.after, sort_fault(name_sort(opt_text(params.sort))))
                == Some(e@),
        },
{
    let first: u32 = clamp_first(params.first);
    let cursor = match read_after(&params.after) {
        Ok(cursor) => cursor,
        Err(e) => return Err(e),
    };
    let (count_sql, rows_sql) = match build_group_list_sql(params, first, cursor.as_ref()) {
        Ok(built) => built,
        Err(msg) => return Err(crate::json::bad_request(msg)),
    };
    proof {
        lemma_group_list(
            *params,
            first,
            name_sort(opt_text(params.sort))->Ok_0,
            asked_cursor(params.after),
        );
    }
    let mut queries: Vec<ListQuery> = Vec::new();
    queries.push(ListQuery { count_sql, rows_sql });
    let probe = ListProbe::start(queries, "group");
    Ok(ListPlan { first, probe })
}

/// The page of the list, from the rows that its query gave.
pub fn finish_list_groups(first: u32, total_count: u64, batches: &Vec<Batch>) -> (r: GroupListResponse)
    requires
        readable::<GroupSummary>(batches@),
    ensures
        exists|rows: Seq<GroupSummary>, n: usize|
            are_rows(rows, batches@) && n == rows.len() && r.data@ == #[trigger] page_of(
                rows,
                n,
                first,
            ) && r.page_info@ == page_info_of(
                total_count,
                keys(r.data@, "name"@),
                overfull(n, first),
            ) && leads_on(r.page_info@, keys(r.data@, "name"@)),
{
    let rows = batches_to_group_summary_rows(batches);
    let ghost all = rows@;
    let ghost n = rows.len();
    let (data, page_info) = finish_page(rows, first, total_count, "name");
    assert(data@ == page_of(all, n, first));
    GroupListResponse { data, page_info }
}

} // verus!
