//! Cursor pagination, shared by every list.
//!
//! A list is read in pages. A query asks for one row more than the page holds,
//! so that the page knows whether another one follows. The cursor of a row holds
//! the value that the list is sorted by and the row's unique id; it travels as
//! opaque base64 text.
use crate::encoding::{
    base64_decoding, base64_encoding, decode_base64, encode_base64, find_values, json_object,
    json_pair, members_view, object_members, read_json_pair, read_members, url_safe, value_view,
    values_of, values_view, write_json_object,
};
use crate::sql::{quote, quoted};
use crate::text::{join, joined, opt_str_text, opt_text, texts};
use vstd::prelude::*;

verus! {

/// Default page size when `?first` is omitted.
pub const DEFAULT_PAGE_SIZE: u32 = 100;

/// Maximum page size accepted; larger values are clamped.
pub const MAX_PAGE_SIZE: u32 = 1000;

/// What every failure to read a cursor says.
pub const INVALID_CURSOR: &'static str = "invalid cursor";

// ---------------------------------------------------------------------------
// Cursors
// ---------------------------------------------------------------------------

/// The position of a row in a sorted list. Opaque to clients.
#[derive(Debug)]
pub struct Cursor {
    /// Sort column value at the boundary row, as a string. `None` when the
    /// boundary row's sort value is NULL.
    pub sort_value: Option<String>,
    /// Unique id of the boundary row: the tie-breaker, so that the cursor totally
    /// orders even when the sort column has duplicates.
    pub unique_id: String,
}

/// What a `Cursor` holds.
#[verifier::ext_equal]
pub ghost struct CursorView {
    pub sort_value: Option<Seq<char>>,
    pub unique_id: Seq<char>,
}

impl View for Cursor {
    type V = CursorView;

    open spec fn view(&self) -> CursorView {
        CursorView { sort_value: opt_text(self.sort_value), unique_id: self.unique_id@ }
    }
}

/// The cursor that two JSON values stand for, each read as a string or null:
/// `unique_id` is a string. `None` stands for a value that is neither.
pub open spec fn cursor_of_values(
    sort_value: Option<Option<Seq<char>>>,
    unique_id: Option<Option<Seq<char>>>,
) -> Option<CursorView> {
    match (sort_value, unique_id) {
        (Some(sort_value), Some(Some(unique_id))) => Some(CursorView { sort_value, unique_id }),
        _ => None,
    }
}

/// The cursor that the members of an object stand for: `unique_id` once and `sort_value`
/// once or not at all. Members of other names are passed over.
pub open spec fn cursor_of_members(
    members: Seq<(Seq<char>, Option<Option<Seq<char>>>)>,
) -> Option<CursorView> {
    let sort_values = values_of(members, "sort_value"@);
    let unique_ids = values_of(members, "unique_id"@);
    if sort_values.len() > 1 || unique_ids.len() != 1 {
        None
    } else {
        cursor_of_values(
            if sort_values.len() == 0 {
                Some(None)
            } else {
                sort_values[0]
            },
            unique_ids[0],
        )
    }
}

/// The cursor that bytes stand for, from what they hold as an array of the two
/// values and as an object.
pub open spec fn cursor_of_json(
    pair: Option<(Option<Seq<char>>, Seq<char>)>,
    members: Option<Seq<(Seq<char>, Option<Option<Seq<char>>>)>>,
) -> Option<CursorView> {
    match (pair, members) {
        (Some(pair), _) => Some(CursorView { sort_value: pair.0, unique_id: pair.1 }),
        (None, Some(members)) => cursor_of_members(members),
        (None, None) => None,
    }
}

/// The cursor that an opaque text stands for.
pub open spec fn decoded(s: Seq<char>) -> Option<CursorView> {
    match base64_decoding(s) {
        Some(bytes) => cursor_of_json(json_pair(bytes), object_members(bytes)),
        None => None,
    }
}

/// The opaque text of a cursor.
pub open spec fn encoded(c: CursorView) -> Seq<char> {
    base64_encoding(
        json_object(
            seq![("sort_value"@, c.sort_value), ("unique_id"@, Some(c.unique_id))],
        ),
    )
}

impl Cursor {
    /// The cursor that two JSON values stand for, each read as a string or null.
    pub fn from_values(
        sort_value: Option<Option<String>>,
        unique_id: Option<Option<String>>,
    ) -> (r: Result<Cursor, &'static str>)
        ensures
            ({
                let want = cursor_of_values(value_view(sort_value), value_view(unique_id));
                match r {
                    Ok(c) => want == Some(c@),
                    Err(e) => want is None && e@ == INVALID_CURSOR@,
                }
            }),
    {
        match (sort_value, unique_id) {
            (Some(sort_value), Some(Some(unique_id))) => Ok(Cursor { sort_value, unique_id }),
            _ => Err(INVALID_CURSOR),
        }
    }

    /// The cursor that the members of an object stand for. A repeated field is refused.
    pub fn from_members(members: &Vec<(String, Option<Option<String>>)>) -> (r: Result<
        Cursor,
        &'static str,
    >)
        ensures
            ({
                let want = cursor_of_members(members_view(members@));
                match r {
                    Ok(c) => want == Some(c@),
                    Err(e) => want is None && e@ == INVALID_CURSOR@,
                }
            }),
    {
        let mut sort_values = find_values(members, "sort_value");
        let mut unique_ids = find_values(members, "unique_id");
        let ghost sorts = values_view(sort_values@);
        let ghost ids = values_view(unique_ids@);
        if sort_values.len() > 1 || unique_ids.len() != 1 {
            return Err(INVALID_CURSOR);
        }
        let unique_id = match unique_ids.pop() {
            Some(v) => v,
            None => None,
        };
        let sort_value = match sort_values.pop() {
            Some(v) => v,
            None => Some(None),
        };
        assert(value_view(unique_id) == ids[0]);
        assert(sorts.len() > 0 ==> value_view(sort_value) == sorts[0]);
        Cursor::from_values(sort_value, unique_id)
    }

    /// Serialize to opaque base64, in the URL-safe alphabet and without padding.
    /// Decoding the text gives the cursor back.
    pub fn encode(&self) -> (r: String)
        ensures
            r@ == encoded(self@),
            decoded(r@) == Some(self@),
            forall|i: int| 0 <= i < r@.len() ==> url_safe(#[trigger] r@[i]),
    {
        let mut fields: Vec<(String, Option<String>)> = Vec::new();
        fields.push(("sort_value".to_owned(), crate::text::clone_opt(&self.sort_value)));
        fields.push(("unique_id".to_owned(), Some(self.unique_id.clone())));
        proof {
            reveal_strlit("sort_value");
            reveal_strlit("unique_id");
            assert("sort_value"@.len() != "unique_id"@.len());
            assert(crate::encoding::flat_view(fields@) =~= seq![
                ("sort_value"@, self@.sort_value),
                ("unique_id"@, Some(self@.unique_id)),
            ]);
            assert(fields@[0].0@ == "sort_value"@);
            assert(fields@[1].0@ == "unique_id"@);
        }
        let json = write_json_object(fields);
        encode_base64(json.as_slice())
    }

    /// Decode from opaque base64. Fields of other names are passed over; a repeated field
    /// is refused.
    pub fn decode(s: &str) -> (r: Result<Cursor, &'static str>)
        ensures
            match r {
                Ok(c) => decoded(s@) == Some(c@),
                Err(e) => decoded(s@) is None && e@ == INVALID_CURSOR@,
            },
    {
        match decode_base64(s) {
            Some(bytes) => match read_json_pair(bytes.as_slice()) {
                Some((sort_value, unique_id)) => Ok(Cursor { sort_value, unique_id }),
                None => match read_members(bytes.as_slice()) {
                    Some(members) => Cursor::from_members(&members),
                    None => Err(INVALID_CURSOR),
                },
            },
            None => Err(INVALID_CURSOR),
        }
    }
}

// ---------------------------------------------------------------------------
// Sorting
// ---------------------------------------------------------------------------

/// Sort direction.
#[derive(Copy, Clone, Debug, PartialEq, Eq, Structural)]
pub enum SortDir {
    Asc,
    Desc,
}

impl SortDir {
    /// The direction in an `ORDER BY`.
    pub open spec fn sql(self) -> Seq<char> {
        match self {
            SortDir::Asc => "ASC"@,
            SortDir::Desc => "DESC"@,
        }
    }

    /// The direction in an `ORDER BY`.
    pub fn as_sql(self) -> (r: &'static str)
        ensures
            r@ == self.sql(),
    {
        match self {
            SortDir::Asc => "ASC",
            SortDir::Desc => "DESC",
        }
    }
}

/// One of the two columns that a list is sorted by.
pub ghost enum SortColumn {
    Sort,
    Uid,
}

/// A comparison of a column with a literal.
pub ghost enum Condition {
    Less(SortColumn, Seq<char>),
    Greater(SortColumn, Seq<char>),
    Equal(SortColumn, Seq<char>),
    IsNull(SortColumn),
}

/// The rows after a cursor: a disjunction of conjunctions.
///
/// A cursor with a sort value is followed by the rows whose sort value comes
/// later, by those with the same sort value and a greater unique id, and by those
/// without a sort value, which come last in either direction. A cursor without a
/// sort value is followed only by the rows without one that have a greater unique
/// id.
pub open spec fn after_cursor(dir: SortDir, cursor: CursorView) -> Seq<Seq<Condition>> {
    match cursor.sort_value {
        Some(v) => seq![
            seq![
                match dir {
                    SortDir::Asc => Condition::Greater(SortColumn::Sort, v),
                    SortDir::Desc => Condition::Less(SortColumn::Sort, v),
                },
            ],
            seq![
                Condition::Equal(SortColumn::Sort, v),
                Condition::Greater(SortColumn::Uid, cursor.unique_id),
            ],
            seq![Condition::IsNull(SortColumn::Sort)],
        ],
        None => seq![
            seq![
                Condition::IsNull(SortColumn::Sort),
                Condition::Greater(SortColumn::Uid, cursor.unique_id),
            ],
        ],
    }
}

impl SortColumn {
    /// The expression of the column.
    pub open spec fn expr(self, sort_expr: Seq<char>, uid_expr: Seq<char>) -> Seq<char> {
        match self {
            SortColumn::Sort => sort_expr,
            SortColumn::Uid => uid_expr,
        }
    }
}

impl Condition {
    /// The SQL of the comparison.
    pub open spec fn sql(self, sort_expr: Seq<char>, uid_expr: Seq<char>) -> Seq<char> {
        match self {
            Condition::Less(c, v) => c.expr(sort_expr, uid_expr) + " < "@ + quoted(v),
            Condition::Greater(c, v) => c.expr(sort_expr, uid_expr) + " > "@ + quoted(v),
            Condition::Equal(c, v) => c.expr(sort_expr, uid_expr) + " = "@ + quoted(v),
            Condition::IsNull(c) => c.expr(sort_expr, uid_expr) + " IS NULL"@,
        }
    }
}

/// Some conditions between a word: in brackets, unless there is only one.
pub open spec fn bracketed(parts: Seq<Seq<char>>, word: Seq<char>) -> Seq<char> {
    if parts.len() == 1 {
        parts[0]
    } else {
        "("@ + joined(parts, word) + ")"@
    }
}

/// The SQL of a conjunction.
pub open spec fn all_sql(
    conditions: Seq<Condition>,
    sort_expr: Seq<char>,
    uid_expr: Seq<char>,
) -> Seq<char> {
    bracketed(
        Seq::new(conditions.len(), |i: int| conditions[i].sql(sort_expr, uid_expr)),
        " AND "@,
    )
}

/// The SQL of a disjunction of conjunctions.
pub open spec fn any_sql(
    choices: Seq<Seq<Condition>>,
    sort_expr: Seq<char>,
    uid_expr: Seq<char>,
) -> Seq<char> {
    bracketed(
        Seq::new(choices.len(), |i: int| all_sql(choices[i], sort_expr, uid_expr)),
        " OR "@,
    )
}

/// The `WHERE` fragment that advances past a cursor.
pub open spec fn cursor_sql(
    sort_expr: Seq<char>,
    uid_expr: Seq<char>,
    dir: SortDir,
    cursor: CursorView,
) -> Seq<char> {
    any_sql(after_cursor(dir, cursor), sort_expr, uid_expr)
}

/// Some conditions between a word: in brackets, unless there is only one.
fn brackets(parts: &Vec<String>, word: &str) -> (r: String)
    ensures
        r@ == bracketed(texts(parts@), word@),
{
    if parts.len() == 1 {
        return parts[0].clone();
    }
    let mut r = "(".to_owned();
    r.append(join(parts, word).as_str());
    r.append(")");
    r
}

/// The SQL of a comparison.
fn comparison(expr: &str, operator: &str, literal: &str) -> (r: String)
    ensures
        r@ == expr@ + operator@ + literal@,
{
    let mut r = expr.to_owned();
    r.append(operator);
    r.append(literal);
    r
}

/// Build the SQL `WHERE` fragment for advancing past a cursor.
///
/// `sort_expr` is the column expression used in `ORDER BY`; `uid_expr` is the
/// expression of the unique id.
pub fn cursor_where_fragment(
    sort_expr: &str,
    uid_expr: &str,
    dir: SortDir,
    cursor_sort_value: Option<&str>,
    cursor_unique_id: &str,
) -> (r: String)
    ensures
        r@ == cursor_sql(
            sort_expr@,
            uid_expr@,
            dir,
            (CursorView {
                sort_value: opt_str_text(cursor_sort_value),
                unique_id: cursor_unique_id@,
            }),
        ),
{
    let later = comparison(uid_expr, " > ", quote(cursor_unique_id).as_str());
    let mut missing = sort_expr.to_owned();
    missing.append(" IS NULL");
    let ghost cursor = CursorView {
        sort_value: opt_str_text(cursor_sort_value),
        unique_id: cursor_unique_id@,
    };
    let ghost choices = after_cursor(dir, cursor);
    let mut parts: Vec<String> = Vec::new();
    let mut choice: Vec<String> = Vec::new();
    match cursor_sort_value {
        Some(cv) => {
            let value = quote(cv);
            let operator = match dir {
                SortDir::Asc => " > ",
                SortDir::Desc => " < ",
            };
            parts.push(comparison(sort_expr, operator, value.as_str()));
            choice.push(comparison(sort_expr, " = ", value.as_str()));
            choice.push(later);
            assert(texts(choice@) =~= Seq::new(
                choices[1].len(),
                |i: int| choices[1][i].sql(sort_expr@, uid_expr@),
            ));
            parts.push(brackets(&choice, " AND "));
            parts.push(missing);
            assert(all_sql(choices[0], sort_expr@, uid_expr@) == parts@[0]@);
            assert(all_sql(choices[2], sort_expr@, uid_expr@) == parts@[2]@);
        },
        None => {
            choice.push(missing);
            choice.push(later);
            assert(texts(choice@) =~= Seq::new(
                choices[0].len(),
                |i: int| choices[0][i].sql(sort_expr@, uid_expr@),
            ));
            parts.push(brackets(&choice, " AND "));
        },
    }
    assert(texts(parts@) =~= Seq::new(
        choices.len(),
        |i: int| all_sql(choices[i], sort_expr@, uid_expr@),
    ));
    brackets(&parts, " OR ")
}

/// Clamp a client-provided `first` value to the [1, MAX_PAGE_SIZE] range.
pub fn clamp_first(first: Option<u32>) -> (r: u32)
    ensures
        1 <= r <= MAX_PAGE_SIZE,
        r == clamped(first, DEFAULT_PAGE_SIZE, MAX_PAGE_SIZE),
{
    clamp_size(first, DEFAULT_PAGE_SIZE, MAX_PAGE_SIZE)
}

/// A page size: the default where none is asked for, and otherwise the nearest
/// number from 1 to the maximum.
pub open spec fn clamped(first: Option<u32>, default: u32, max: u32) -> u32 {
    let asked = match first {
        Some(n) => n,
        None => default,
    };
    if asked < 1 {
        1
    } else if asked > max {
        max
    } else {
        asked
    }
}

/// A page size: the default where none is asked for, and otherwise the nearest
/// number from 1 to the maximum.
pub fn clamp_size(first: Option<u32>, default: u32, max: u32) -> (r: u32)
    requires
        1 <= max,
    ensures
        1 <= r <= max,
        r == clamped(first, default, max),
{
    let asked: u32 = match first {
        Some(n) => n,
        None => default,
    };
    if asked < 1 {
        1
    } else if asked > max {
        max
    } else {
        asked
    }
}

// ---------------------------------------------------------------------------
// What a cursor selects
// ---------------------------------------------------------------------------

/// Whether `lt` orders texts strictly and totally, as a collation does.
pub open spec fn is_collation(lt: spec_fn(Seq<char>, Seq<char>) -> bool) -> bool {
    &&& forall|a: Seq<char>| !#[trigger] lt(a, a)
    &&& forall|a: Seq<char>, b: Seq<char>| #[trigger] lt(a, b) || a == b || lt(b, a)
    &&& forall|a: Seq<char>, b: Seq<char>, c: Seq<char>| #[trigger]
        lt(a, b) && #[trigger] lt(b, c) ==> lt(a, c)
}

impl Condition {
    /// Whether the comparison is true of a row with the given sort value and unique
    /// id. A comparison with NULL is not true.
    pub open spec fn holds(
        self,
        row: CursorView,
        lt: spec_fn(Seq<char>, Seq<char>) -> bool,
    ) -> bool {
        match self {
            Condition::Less(SortColumn::Sort, v) => row.sort_value matches Some(x) && lt(x, v),
            Condition::Less(SortColumn::Uid, v) => lt(row.unique_id, v),
            Condition::Greater(SortColumn::Sort, v) => row.sort_value matches Some(x) && lt(v, x),
            Condition::Greater(SortColumn::Uid, v) => lt(v, row.unique_id),
            Condition::Equal(SortColumn::Sort, v) => row.sort_value == Some(v),
            Condition::Equal(SortColumn::Uid, v) => row.unique_id == v,
            Condition::IsNull(SortColumn::Sort) => row.sort_value is None,
            Condition::IsNull(SortColumn::Uid) => false,
        }
    }
}

/// Whether a row is selected by a disjunction of conjunctions.
pub open spec fn selected(
    choices: Seq<Seq<Condition>>,
    row: CursorView,
    lt: spec_fn(Seq<char>, Seq<char>) -> bool,
) -> bool {
    exists|i: int|
        0 <= i < choices.len() && forall|j: int|
            0 <= j < (#[trigger] choices[i]).len() ==> (#[trigger] choices[i][j]).holds(row, lt)
}

/// Whether one row comes before another in a list sorted by
/// `sort <dir> NULLS LAST, uid ASC`.
pub open spec fn comes_before(
    dir: SortDir,
    a: CursorView,
    b: CursorView,
    lt: spec_fn(Seq<char>, Seq<char>) -> bool,
) -> bool {
    match (a.sort_value, b.sort_value) {
        (Some(x), Some(y)) => if x == y {
            lt(a.unique_id, b.unique_id)
        } else {
            match dir {
                SortDir::Asc => lt(x, y),
                SortDir::Desc => lt(y, x),
            }
        },
        (Some(_), None) => true,
        (None, Some(_)) => false,
        (None, None) => lt(a.unique_id, b.unique_id),
    }
}

/// The fragment for a cursor selects exactly the rows that come after the
/// cursor's row in the sorted list.
pub proof fn lemma_cursor_selects_later_rows(
    dir: SortDir,
    cursor: CursorView,
    row: CursorView,
    lt: spec_fn(Seq<char>, Seq<char>) -> bool,
)
    requires
        is_collation(lt),
    ensures
        selected(after_cursor(dir, cursor), row, lt) <==> comes_before(dir, cursor, row, lt),
{
    let choices = after_cursor(dir, cursor);
    match cursor.sort_value {
        Some(v) => {
            if comes_before(dir, cursor, row, lt) {
                let i: int = match row.sort_value {
                    Some(x) => if x == v {
                        1
                    } else {
                        0
                    },
                    None => 2,
                };
                assert forall|j: int| 0 <= j < choices[i].len() implies (
                #[trigger] choices[i][j]).holds(row, lt) by {}
            }
            if selected(choices, row, lt) {
                let i = choose|i: int|
                    0 <= i < choices.len() && forall|j: int|
                        0 <= j < (#[trigger] choices[i]).len() ==> (
                        #[trigger] choices[i][j]).holds(row, lt);
                assert(choices[i][0].holds(row, lt));
                if i == 1 {
                    assert(choices[i][1].holds(row, lt));
                }
            }
        },
        None => {
            if comes_before(dir, cursor, row, lt) {
                assert forall|j: int| 0 <= j < choices[0].len() implies (
                #[trigger] choices[0][j]).holds(row, lt) by {}
            }
            if selected(choices, row, lt) {
                assert(choices[0][0].holds(row, lt));
                assert(choices[0][1].holds(row, lt));
            }
        },
    }
}

/// Rows sorted by `sort <dir> NULLS LAST, uid ASC` are totally ordered: of two
/// rows with different keys exactly one comes first, and no row comes before
/// itself.
pub proof fn lemma_rows_totally_ordered(
    dir: SortDir,
    a: CursorView,
    b: CursorView,
    lt: spec_fn(Seq<char>, Seq<char>) -> bool,
)
    requires
        is_collation(lt),
    ensures
        a == b ==> !comes_before(dir, a, b, lt),
        a != b ==> (comes_before(dir, a, b, lt) <==> !comes_before(dir, b, a, lt)),
{
    if a != b {
        assert(a.unique_id == b.unique_id ==> a.sort_value != b.sort_value);
        assert(lt(a.unique_id, b.unique_id) || a.unique_id == b.unique_id || lt(
            b.unique_id,
            a.unique_id,
        ));
        assert(!(lt(a.unique_id, b.unique_id) && lt(b.unique_id, a.unique_id)));
        if let (Some(x), Some(y)) = (a.sort_value, b.sort_value) {
            assert(lt(x, y) || x == y || lt(y, x));
            assert(!(lt(x, y) && lt(y, x)));
        }
    }
}

/// Paging neither skips nor repeats a row: in a sorted list, the fragment for the
/// cursor of row `k` selects the rows after row `k` and no others.
pub proof fn lemma_pages_are_contiguous(
    dir: SortDir,
    rows: Seq<CursorView>,
    k: int,
    lt: spec_fn(Seq<char>, Seq<char>) -> bool,
)
    requires
        is_collation(lt),
        0 <= k < rows.len(),
        forall|i: int, j: int|
            0 <= i < j < rows.len() ==> #[trigger] comes_before(dir, rows[i], rows[j], lt),
    ensures
        forall|i: int|
            0 <= i < rows.len() ==> (selected(
                after_cursor(dir, rows[k]),
                #[trigger] rows[i],
                lt,
            ) <==> i > k),
{
    assert forall|i: int| 0 <= i < rows.len() implies (selected(
        after_cursor(dir, rows[k]),
        #[trigger] rows[i],
        lt,
    ) <==> i > k) by {
        lemma_cursor_selects_later_rows(dir, rows[k], rows[i], lt);
        if i > k {
            assert(comes_before(dir, rows[k], rows[i], lt));
        } else if i < k {
            assert(comes_before(dir, rows[i], rows[k], lt));
            lemma_rows_totally_ordered(dir, rows[i], rows[k], lt);
        } else {
            lemma_rows_totally_ordered(dir, rows[i], rows[k], lt);
        }
    }
}

// ---------------------------------------------------------------------------
// Pages
// ---------------------------------------------------------------------------

/// `page_info` block returned on every list.
#[derive(Debug)]
pub struct PageInfo {
    pub total_count: u64,
    pub start_cursor: Option<String>,
    pub end_cursor: Option<String>,
    pub has_next_page: bool,
}

/// What a `PageInfo` holds.
#[verifier::ext_equal]
pub ghost struct PageInfoView {
    pub total_count: u64,
    pub start_cursor: Option<Seq<char>>,
    pub end_cursor: Option<Seq<char>>,
    pub has_next_page: bool,
}

impl View for PageInfo {
    type V = PageInfoView;

    open spec fn view(&self) -> PageInfoView {
        PageInfoView {
            total_count: self.total_count,
            start_cursor: opt_text(self.start_cursor),
            end_cursor: opt_text(self.end_cursor),
            has_next_page: self.has_next_page,
        }
    }
}

/// Whether a query that asks for `first + 1` rows and gets `n` has seen a row of
/// the next page. The count is taken in 32 bits, as the page size is.
pub open spec fn overfull(n: usize, first: u32) -> bool {
    (n as u32) > first
}

/// The rows of a page: without the row that belongs to the next page.
pub open spec fn page_of<T>(rows: Seq<T>, n: usize, first: u32) -> Seq<T> {
    if overfull(n, first) {
        rows.take(first as int)
    } else {
        rows
    }
}

/// Cut the rows of a query to a page. Whether another page follows.
pub fn cut_page<T>(rows: &mut Vec<T>, first: u32) -> (has_next_page: bool)
    ensures
        has_next_page == overfull(old(rows).len(), first),
        final(rows)@ == page_of(old(rows)@, old(rows).len(), first),
        has_next_page ==> final(rows).len() == first,
{
    let n: usize = rows.len();
    let has_next_page = (n as u32) > first;
    if has_next_page {
        assert((n as u32) <= n) by (bit_vector);
        rows.truncate(first as usize);
    }
    has_next_page
}

/// The `page_info` of a page whose rows have the given cursors. There is no end
/// cursor on the last page.
pub open spec fn page_info_of(
    total_count: u64,
    keys: Seq<CursorView>,
    has_next_page: bool,
) -> PageInfoView {
    PageInfoView {
        total_count,
        start_cursor: if keys.len() > 0 {
            Some(encoded(keys[0]))
        } else {
            None
        },
        end_cursor: if has_next_page && keys.len() > 0 {
            Some(encoded(keys.last()))
        } else {
            None
        },
        has_next_page,
    }
}

/// Whether the cursors of a page stand for its first and its last row: what a
/// client hands back as `?after` is read as the row that the page ended with.
pub open spec fn leads_on(info: PageInfoView, keys: Seq<CursorView>) -> bool {
    &&& info.start_cursor matches Some(text) ==> keys.len() > 0 && decoded(text) == Some(keys[0])
    &&& info.end_cursor matches Some(text) ==> keys.len() > 0 && decoded(text) == Some(
        keys.last(),
    )
    &&& info.has_next_page && keys.len() > 0 ==> info.end_cursor is Some
}

/// The cursor that may be there, as a mathematical value.
pub open spec fn opt_cursor(c: Option<Cursor>) -> Option<CursorView> {
    match c {
        Some(c) => Some(c@),
        None => None,
    }
}

/// The cursor behind a reference, as a mathematical value.
pub open spec fn cursor_ref(cursor: Option<&Cursor>) -> Option<CursorView> {
    match cursor {
        Some(c) => Some(c@),
        None => None,
    }
}

/// The `page_info` of a page, from the cursors of its first and its last row.
pub fn page_info(
    total_count: u64,
    first_row: Option<Cursor>,
    last_row: Option<Cursor>,
    has_next_page: bool,
) -> (r: PageInfo)
    ensures
        forall|keys: Seq<CursorView>|
            (opt_cursor(first_row) == (if keys.len() > 0 {
                Some(keys[0])
            } else {
                None
            }) && opt_cursor(last_row) == (if keys.len() > 0 {
                Some(keys.last())
            } else {
                None
            })) ==> r@ == #[trigger] page_info_of(total_count, keys, has_next_page)
                && leads_on(r@, keys),
{
    let start_cursor = match first_row {
        Some(c) => Some(c.encode()),
        None => None,
    };
    let end_cursor = match last_row {
        Some(c) => if has_next_page {
            Some(c.encode())
        } else {
            None
        },
        None => None,
    };
    PageInfo { total_count, start_cursor, end_cursor, has_next_page }
}

/// A page holds no more rows than were asked for, and another page follows
/// exactly where the query gave one row more.
pub proof fn lemma_page_is_bounded<T>(rows: Seq<T>, n: usize, first: u32)
    requires
        first < u32::MAX,
        n == rows.len(),
        n <= first + 1,
    ensures
        page_of(rows, n, first).len() <= first,
        overfull(n, first) <==> rows.len() == first + 1,
{
}

// ---------------------------------------------------------------------------
// Reading a list page by page
// ---------------------------------------------------------------------------

/// Whether rows stand in the order of a list sorted by
/// `sort <dir> NULLS LAST, uid ASC`.
pub open spec fn is_sorted(
    dir: SortDir,
    rows: Seq<CursorView>,
    lt: spec_fn(Seq<char>, Seq<char>) -> bool,
) -> bool {
    forall|i: int, j: int|
        0 <= i < j < rows.len() ==> #[trigger] comes_before(dir, rows[i], rows[j], lt)
}

/// The rows of a list that the query for a page lets through: all of them where
/// there is no cursor, and those that the cursor's fragment selects where there is
/// one.
pub open spec fn rows_after(
    dir: SortDir,
    rows: Seq<CursorView>,
    cursor: Option<CursorView>,
    lt: spec_fn(Seq<char>, Seq<char>) -> bool,
) -> Seq<CursorView> {
    match cursor {
        Some(c) => rows.filter(|row: CursorView| selected(after_cursor(dir, c), row, lt)),
        None => rows,
    }
}

/// The rows that the query for a page gives: at most one more than the page holds.
pub open spec fn fetched(
    dir: SortDir,
    rows: Seq<CursorView>,
    cursor: Option<CursorView>,
    first: u32,
    lt: spec_fn(Seq<char>, Seq<char>) -> bool,
) -> Seq<CursorView> {
    let later = rows_after(dir, rows, cursor, lt);
    if later.len() > first {
        later.take(first + 1)
    } else {
        later
    }
}

/// The page that a client gets for a cursor.
pub open spec fn page_at(
    dir: SortDir,
    rows: Seq<CursorView>,
    cursor: Option<CursorView>,
    first: u32,
    lt: spec_fn(Seq<char>, Seq<char>) -> bool,
) -> Seq<CursorView> {
    let got = fetched(dir, rows, cursor, first, lt);
    page_of(got, got.len() as usize, first)
}

/// Whether the page that a client gets for a cursor says that another one follows.
pub open spec fn more_at(
    dir: SortDir,
    rows: Seq<CursorView>,
    cursor: Option<CursorView>,
    first: u32,
    lt: spec_fn(Seq<char>, Seq<char>) -> bool,
) -> bool {
    let got = fetched(dir, rows, cursor, first, lt);
    overfull(got.len() as usize, first)
}

/// The cursor that a client asks for page `i` with: none for the first page, then
/// the one that the page before ended with.
pub open spec fn cursor_for(pages: Seq<Seq<CursorView>>, i: int) -> Option<CursorView> {
    if i <= 0 {
        None
    } else {
        Some(pages[i - 1].last())
    }
}

/// Whether pages are those that a client gets who reads a list from its start and
/// asks on as long as another page follows.
pub open spec fn is_reading(
    dir: SortDir,
    rows: Seq<CursorView>,
    first: u32,
    pages: Seq<Seq<CursorView>>,
    lt: spec_fn(Seq<char>, Seq<char>) -> bool,
) -> bool {
    &&& pages.len() > 0
    &&& forall|i: int|
        0 <= i < pages.len() ==> #[trigger] pages[i] == page_at(
            dir,
            rows,
            cursor_for(pages, i),
            first,
            lt,
        )
    &&& forall|i: int|
        0 <= i < pages.len() ==> (#[trigger] more_at(dir, rows, cursor_for(pages, i), first, lt)
            <==> i < pages.len() - 1)
}

/// The number of rows on the first `k` pages.
pub open spec fn rows_on(pages: Seq<Seq<CursorView>>, k: nat) -> nat
    decreases k,
{
    if k == 0 {
        0
    } else {
        rows_on(pages, (k - 1) as nat) + pages[k - 1].len()
    }
}

/// A filter that lets through exactly the items behind the first `k` gives the rest
/// of a sequence.
proof fn lemma_filter_is_skip<T>(s: Seq<T>, k: int, keep: spec_fn(T) -> bool)
    requires
        0 <= k <= s.len(),
        forall|i: int| 0 <= i < s.len() ==> (keep(#[trigger] s[i]) <==> i >= k),
    ensures
        s.filter(keep) == s.skip(k),
    decreases s.len(),
{
    reveal(Seq::filter);
    if s.len() > 0 {
        let front = s.drop_last();
        assert(forall|i: int| 0 <= i < front.len() ==> front[i] == s[i]);
        if k < s.len() {
            lemma_filter_is_skip(front, k, keep);
            assert(keep(s[s.len() - 1]));
            assert(front.skip(k).push(s.last()) =~= s.skip(k));
        } else {
            lemma_filter_is_skip(front, k - 1, keep);
            assert(!keep(s[s.len() - 1]));
            assert(front.skip(k - 1) =~= s.skip(k));
        }
    } else {
        assert(s.filter(keep) =~= s.skip(k));
    }
}

/// The rows behind the cursor of row `k` are those behind row `k`.
proof fn lemma_rows_after_row(
    dir: SortDir,
    rows: Seq<CursorView>,
    k: int,
    lt: spec_fn(Seq<char>, Seq<char>) -> bool,
)
    requires
        is_collation(lt),
        is_sorted(dir, rows, lt),
        0 <= k < rows.len(),
    ensures
        rows_after(dir, rows, Some(rows[k]), lt) == rows.skip(k + 1),
{
    lemma_pages_are_contiguous(dir, rows, k, lt);
    let keep = |row: CursorView| selected(after_cursor(dir, rows[k]), row, lt);
    assert forall|i: int| 0 <= i < rows.len() implies (keep(#[trigger] rows[i]) <==> i >= k + 1) by {
        assert(selected(after_cursor(dir, rows[k]), rows[i], lt) <==> i > k);
    }
    lemma_filter_is_skip(rows, k + 1, keep);
}

/// The page for a cursor behind the first `k` rows holds the rows from `k` on, and
/// another page follows exactly where it does not reach the end.
proof fn lemma_page_at(
    dir: SortDir,
    rows: Seq<CursorView>,
    k: int,
    cursor: Option<CursorView>,
    first: u32,
    lt: spec_fn(Seq<char>, Seq<char>) -> bool,
)
    requires
        is_collation(lt),
        is_sorted(dir, rows, lt),
        0 <= k <= rows.len(),
        first < u32::MAX,
        rows_after(dir, rows, cursor, lt) == rows.skip(k),
    ensures
        more_at(dir, rows, cursor, first, lt) <==> rows.len() - k > first,
        page_at(dir, rows, cursor, first, lt) == (if rows.len() - k > first {
            rows.subrange(k, k + first)
        } else {
            rows.skip(k)
        }),
{
    let got = fetched(dir, rows, cursor, first, lt);
    assert(got.len() <= first + 1);
    assert(got.len() as usize == got.len());
    assert(page_at(dir, rows, cursor, first, lt) =~= (if rows.len() - k > first {
        rows.subrange(k, k + first)
    } else {
        rows.skip(k)
    }));
}

/// Page `k` of a reading starts behind the rows of the pages before it.
proof fn lemma_reading_advances(
    dir: SortDir,
    rows: Seq<CursorView>,
    first: u32,
    pages: Seq<Seq<CursorView>>,
    k: nat,
    lt: spec_fn(Seq<char>, Seq<char>) -> bool,
)
    requires
        is_collation(lt),
        is_sorted(dir, rows, lt),
        0 < first < u32::MAX,
        is_reading(dir, rows, first, pages, lt),
        k < pages.len(),
    ensures
        rows_on(pages, k) <= rows.len(),
        rows_after(dir, rows, cursor_for(pages, k as int), lt) == rows.skip(
            rows_on(pages, k) as int,
        ),
        pages.take(k as int).flatten() == rows.take(rows_on(pages, k) as int),
    decreases k,
{
    if k == 0 {
        assert(rows.skip(0) =~= rows);
        assert(pages.take(0).flatten() =~= rows.take(0));
    } else {
        let p = (k - 1) as nat;
        lemma_reading_advances(dir, rows, first, pages, p, lt);
        let at = rows_on(pages, p) as int;
        lemma_page_at(dir, rows, at, cursor_for(pages, p as int), first, lt);
        assert(more_at(dir, rows, cursor_for(pages, p as int), first, lt));
        assert(pages[p as int] == rows.subrange(at, at + first));
        assert(pages[p as int].last() == rows[at + first - 1]);
        lemma_rows_after_row(dir, rows, at + first - 1, lt);
        assert(pages.take(k as int) =~= pages.take(p as int).push(pages[p as int]));
        pages.take(p as int).lemma_flatten_push(pages[p as int]);
        assert(rows.take(at) + pages[p as int] =~= rows.take(at + first));
    }
}

/// A client who reads a list page by page sees every row exactly once and in order:
/// the pages, one behind the other, are the list.
pub proof fn lemma_pages_hold_every_row_once(
    dir: SortDir,
    rows: Seq<CursorView>,
    first: u32,
    pages: Seq<Seq<CursorView>>,
    lt: spec_fn(Seq<char>, Seq<char>) -> bool,
)
    requires
        is_collation(lt),
        is_sorted(dir, rows, lt),
        0 < first < u32::MAX,
        is_reading(dir, rows, first, pages, lt),
    ensures
        pages.flatten() == rows,
        rows.no_duplicates(),
{
    let k = (pages.len() - 1) as nat;
    lemma_reading_advances(dir, rows, first, pages, k, lt);
    let at = rows_on(pages, k) as int;
    lemma_page_at(dir, rows, at, cursor_for(pages, k as int), first, lt);
    assert(!more_at(dir, rows, cursor_for(pages, k as int), first, lt));
    assert(pages[k as int] == rows.skip(at));
    assert(pages =~= pages.take(k as int).push(pages[k as int]));
    pages.take(k as int).lemma_flatten_push(pages[k as int]);
    assert(rows.take(at) + rows.skip(at) =~= rows);
    assert forall|i: int, j: int| 0 <= i < j < rows.len() implies rows[i] != rows[j] by {
        assert(comes_before(dir, rows[i], rows[j], lt));
        lemma_rows_totally_ordered(dir, rows[i], rows[j], lt);
    }
}

/// The pages from row `k` on, each of `first` rows.
pub open spec fn cut_up(rows: Seq<CursorView>, k: int, first: u32) -> Seq<Seq<CursorView>>
    decreases rows.len() - k,
{
    if first > 0 && rows.len() - k > first {
        seq![rows.subrange(k, k + first)] + cut_up(rows, k + first, first)
    } else {
        seq![rows.skip(k)]
    }
}

proof fn lemma_cut_up(rows: Seq<CursorView>, k: int, first: u32, i: int)
    requires
        0 <= k <= rows.len(),
        0 < first,
        0 <= i < cut_up(rows, k, first).len(),
    ensures
        cut_up(rows, k, first).len() > 0,
        0 <= k + i * first <= rows.len(),
        cut_up(rows, k, first)[i] == (if rows.len() - (k + i * first) > first {
            rows.subrange(k + i * first, k + i * first + first)
        } else {
            rows.skip(k + i * first)
        }),
        rows.len() - (k + i * first) > first <==> i < cut_up(rows, k, first).len() - 1,
    decreases rows.len() - k,
{
    assert(0 * first == 0) by (nonlinear_arith);
    if rows.len() - k > first {
        let rest = cut_up(rows, k + first, first);
        assert(rest.len() > 0);
        if i > 0 {
            lemma_cut_up(rows, k + first, first, i - 1);
            assert((i - 1) * first + first == i * first) by (nonlinear_arith);
            assert(cut_up(rows, k, first)[i] == rest[i - 1]);
        }
    }
}

/// Reading a list comes to an end: the pages of `first` rows each, cut one behind
/// the other, are what a client gets.
pub proof fn lemma_reading_ends(
    dir: SortDir,
    rows: Seq<CursorView>,
    first: u32,
    lt: spec_fn(Seq<char>, Seq<char>) -> bool,
)
    requires
        is_collation(lt),
        is_sorted(dir, rows, lt),
        0 < first < u32::MAX,
    ensures
        is_reading(dir, rows, first, cut_up(rows, 0, first), lt),
{
    let pages = cut_up(rows, 0, first);
    assert forall|i: int| 0 <= i < pages.len() implies #[trigger] pages[i] == page_at(
        dir,
        rows,
        cursor_for(pages, i),
        first,
        lt,
    ) && (more_at(dir, rows, cursor_for(pages, i), first, lt) <==> i < pages.len() - 1) by {
        lemma_cut_up(rows, 0, first, i);
        if i == 0 {
            assert(0 * first == 0) by (nonlinear_arith);
            assert(rows.skip(0) =~= rows);
        } else {
            lemma_cut_up(rows, 0, first, i - 1);
            assert((i - 1) * first + first == i * first) by (nonlinear_arith);
            lemma_rows_after_row(dir, rows, i * first - 1, lt);
        }
        lemma_page_at(dir, rows, i * first, cursor_for(pages, i), first, lt);
    }
    assert forall|i: int| 0 <= i < pages.len() implies (#[trigger] more_at(
        dir,
        rows,
        cursor_for(pages, i),
        first,
        lt,
    ) <==> i < pages.len() - 1) by {
        assert(pages[i] == page_at(dir, rows, cursor_for(pages, i), first, lt));
    }
}

} // verus!
