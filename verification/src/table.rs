//! The result of a query: columns of cells, in batches.
use crate::text::same;
use vstd::prelude::*;

verus! {

/// A cell of a column. A null cell still has a value, which says nothing.
#[derive(Debug)]
pub struct Cell<T> {
    pub null: bool,
    pub value: T,
}

/// The cells of a column.
#[derive(Debug)]
pub enum ColumnData {
    Text(Vec<Cell<String>>),
    Bool(Vec<Cell<bool>>),
    Int64(Vec<Cell<i64>>),
    Int32(Vec<Cell<i32>>),
    /// Numbers in floating point, each as the bits of its 64-bit form.
    Float64(Vec<Cell<u64>>),
    /// Lists of strings.
    TextList(Vec<Cell<Vec<Cell<String>>>>),
    /// Cells of any other type, which nothing reads.
    Other,
}

/// A column of a batch.
#[derive(Debug)]
pub struct Column {
    pub name: String,
    pub data: ColumnData,
}

/// Some rows of the result of a query.
#[derive(Debug)]
pub struct Batch {
    pub num_rows: usize,
    pub columns: Vec<Column>,
}

impl ColumnData {
    /// Whether the column has `n` cells.
    pub open spec fn has_len(self, n: usize) -> bool {
        match self {
            ColumnData::Text(v) => v.len() == n,
            ColumnData::Bool(v) => v.len() == n,
            ColumnData::Int64(v) => v.len() == n,
            ColumnData::Int32(v) => v.len() == n,
            ColumnData::Float64(v) => v.len() == n,
            ColumnData::TextList(v) => v.len() == n,
            ColumnData::Other => true,
        }
    }
}

/// What a cell holds, unless it is null.
pub open spec fn known<T>(cell: Cell<T>) -> Option<T> {
    if cell.null {
        None
    } else {
        Some(cell.value)
    }
}

/// The first column of a name.
pub open spec fn column_of(columns: Seq<Column>, name: Seq<char>) -> Option<ColumnData>
    decreases columns.len(),
{
    if columns.len() == 0 {
        None
    } else if columns[0].name@ == name {
        Some(columns[0].data)
    } else {
        column_of(columns.skip(1), name)
    }
}

impl Batch {
    /// Every column has a cell for each row.
    pub open spec fn wf(self) -> bool {
        forall|i: int|
            0 <= i < self.columns.len() ==> (#[trigger] self.columns@[i]).data.has_len(
                self.num_rows,
            )
    }

    /// The column of a name.
    pub open spec fn column(self, name: Seq<char>) -> Option<ColumnData> {
        column_of(self.columns@, name)
    }

    /// Whether there is a column of strings of this name.
    pub open spec fn has_text(self, name: Seq<char>) -> bool {
        self.column(name) matches Some(ColumnData::Text(_))
    }

    /// Whether there is a column of booleans of this name.
    pub open spec fn has_bool(self, name: Seq<char>) -> bool {
        self.column(name) matches Some(ColumnData::Bool(_))
    }

    /// Whether there is a column of 64-bit numbers of this name.
    pub open spec fn has_i64(self, name: Seq<char>) -> bool {
        self.column(name) matches Some(ColumnData::Int64(_))
    }

    /// The value of a cell of 64-bit numbers, null or not.
    pub open spec fn number(self, name: Seq<char>, row: int) -> i64 {
        match self.column(name) {
            Some(ColumnData::Int64(v)) => v@[row].value,
            _ => arbitrary(),
        }
    }

    /// The value of a string cell, null or not.
    pub open spec fn text(self, name: Seq<char>, row: int) -> String {
        match self.column(name) {
            Some(ColumnData::Text(v)) => v@[row].value,
            _ => arbitrary(),
        }
    }

    /// The value of a boolean cell, null or not.
    pub open spec fn flag(self, name: Seq<char>, row: int) -> bool {
        match self.column(name) {
            Some(ColumnData::Bool(v)) => v@[row].value,
            _ => arbitrary(),
        }
    }

    /// The string in a cell; `None` where it is null or there is no such column of
    /// strings.
    pub open spec fn opt_text(self, name: Seq<char>, row: int) -> Option<String> {
        match self.column(name) {
            Some(ColumnData::Text(v)) => known(v@[row]),
            _ => None,
        }
    }

    /// The boolean in a cell; `None` where it is null or there is no such column of
    /// booleans.
    pub open spec fn opt_bool(self, name: Seq<char>, row: int) -> Option<bool> {
        match self.column(name) {
            Some(ColumnData::Bool(v)) => known(v@[row]),
            _ => None,
        }
    }

    /// The number in a cell; `None` where it is null or there is no such column of
    /// 64-bit numbers.
    pub open spec fn opt_i64(self, name: Seq<char>, row: int) -> Option<i64> {
        match self.column(name) {
            Some(ColumnData::Int64(v)) => known(v@[row]),
            _ => None,
        }
    }

    /// The number in a cell; `None` where it is null or there is no such column of
    /// 32-bit numbers.
    pub open spec fn opt_i32(self, name: Seq<char>, row: int) -> Option<i32> {
        match self.column(name) {
            Some(ColumnData::Int32(v)) => known(v@[row]),
            _ => None,
        }
    }

    /// The bits of the floating-point number in a cell; `None` where it is null or
    /// there is no such column of floating-point numbers.
    pub open spec fn opt_f64(self, name: Seq<char>, row: int) -> Option<u64> {
        match self.column(name) {
            Some(ColumnData::Float64(v)) => known(v@[row]),
            _ => None,
        }
    }

    /// The strings of a list cell, without the null ones; `None` where the cell is
    /// null or there is no such column of lists of strings.
    pub open spec fn opt_list(self, name: Seq<char>, row: int) -> Option<Seq<String>> {
        match self.column(name) {
            Some(ColumnData::TextList(v)) => match known(v@[row]) {
                Some(items) => Some(known_items(items@)),
                None => None,
            },
            _ => None,
        }
    }

    /// The column of a name.
    pub fn find_column(&self, name: &str) -> (r: Option<&ColumnData>)
        ensures
            match r {
                Some(data) => self.column(name@) == Some(*data),
                None => self.column(name@) is None,
            },
            self.wf() ==> match r {
                Some(data) => data.has_len(self.num_rows),
                None => true,
            },
    {
        let mut i: usize = 0;
        assert(self.columns@.skip(0) == self.columns@);
        while i < self.columns.len()
            invariant
                i <= self.columns.len(),
                self.column(name@) == column_of(self.columns@.skip(i as int), name@),
            decreases self.columns.len() - i,
        {
            assert(self.columns@.skip(i as int).skip(1) == self.columns@.skip(i + 1));
            if same(self.columns[i].name.as_str(), name) {
                assert(self.wf() ==> self.columns@[i as int].data.has_len(self.num_rows));
                return Some(&self.columns[i].data);
            }
            i += 1;
        }
        None
    }

    /// The value of a string cell, null or not.
    pub fn get_text(&self, name: &str, row: usize) -> (r: String)
        requires
            self.wf(),
            self.has_text(name@),
            row < self.num_rows,
        ensures
            r == self.text(name@, row as int),
    {
        match self.find_column(name) {
            Some(ColumnData::Text(v)) => v[row].value.clone(),
            _ => String::new(),
        }
    }

    /// The value of a cell of 64-bit numbers, null or not.
    pub fn get_number(&self, name: &str, row: usize) -> (r: i64)
        requires
            self.wf(),
            self.has_i64(name@),
            row < self.num_rows,
        ensures
            r == self.number(name@, row as int),
    {
        match self.find_column(name) {
            Some(ColumnData::Int64(v)) => v[row].value,
            _ => 0,
        }
    }

    /// The value of a boolean cell, null or not.
    pub fn get_flag(&self, name: &str, row: usize) -> (r: bool)
        requires
            self.wf(),
            self.has_bool(name@),
            row < self.num_rows,
        ensures
            r == self.flag(name@, row as int),
    {
        match self.find_column(name) {
            Some(ColumnData::Bool(v)) => v[row].value,
            _ => false,
        }
    }

    /// The string in a cell, if there is one.
    pub fn get_opt_text(&self, name: &str, row: usize) -> (r: Option<String>)
        requires
            self.wf(),
            row < self.num_rows,
        ensures
            r == self.opt_text(name@, row as int),
    {
        match self.find_column(name) {
            Some(ColumnData::Text(v)) => if v[row].null {
                None
            } else {
                Some(v[row].value.clone())
            },
            _ => None,
        }
    }

    /// The boolean in a cell, if there is one.
    pub fn get_opt_bool(&self, name: &str, row: usize) -> (r: Option<bool>)
        requires
            self.wf(),
            row < self.num_rows,
        ensures
            r == self.opt_bool(name@, row as int),
    {
        match self.find_column(name) {
            Some(ColumnData::Bool(v)) => if v[row].null {
                None
            } else {
                Some(v[row].value)
            },
            _ => None,
        }
    }

    /// The 64-bit number in a cell, if there is one.
    pub fn get_opt_i64(&self, name: &str, row: usize) -> (r: Option<i64>)
        requires
            self.wf(),
            row < self.num_rows,
        ensures
            r == self.opt_i64(name@, row as int),
    {
        match self.find_column(name) {
            Some(ColumnData::Int64(v)) => if v[row].null {
                None
            } else {
                Some(v[row].value)
            },
            _ => None,
        }
    }

    /// The 32-bit number in a cell, if there is one.
    pub fn get_opt_i32(&self, name: &str, row: usize) -> (r: Option<i32>)
        requires
            self.wf(),
            row < self.num_rows,
        ensures
            r == self.opt_i32(name@, row as int),
    {
        match self.find_column(name) {
            Some(ColumnData::Int32(v)) => if v[row].null {
                None
            } else {
                Some(v[row].value)
            },
            _ => None,
        }
    }

    /// The bits of the floating-point number in a cell, if there is one.
    pub fn get_opt_f64(&self, name: &str, row: usize) -> (r: Option<u64>)
        requires
            self.wf(),
            row < self.num_rows,
        ensures
            r == self.opt_f64(name@, row as int),
    {
        match self.find_column(name) {
            Some(ColumnData::Float64(v)) => if v[row].null {
                None
            } else {
                Some(v[row].value)
            },
            _ => None,
        }
    }

    /// The strings of a list cell, if there is one.
    pub fn get_opt_list(&self, name: &str, row: usize) -> (r: Option<Vec<String>>)
        requires
            self.wf(),
            row < self.num_rows,
        ensures
            opt_items(r) == self.opt_list(name@, row as int),
    {
        match self.find_column(name) {
            Some(ColumnData::TextList(v)) => if v[row].null {
                None
            } else {
                Some(keep_known(&v[row].value))
            },
            _ => None,
        }
    }
}

/// The items of an optional list.
pub open spec fn opt_items(v: Option<Vec<String>>) -> Option<Seq<String>> {
    match v {
        Some(v) => Some(v@),
        None => None,
    }
}

/// The values of the cells that are not null.
pub open spec fn known_items(cells: Seq<Cell<String>>) -> Seq<String>
    decreases cells.len(),
{
    if cells.len() == 0 {
        Seq::empty()
    } else if cells.last().null {
        known_items(cells.drop_last())
    } else {
        known_items(cells.drop_last()).push(cells.last().value)
    }
}

/// The values of the cells that are not null.
pub fn keep_known(cells: &Vec<Cell<String>>) -> (r: Vec<String>)
    ensures
        r@ == known_items(cells@),
{
    let mut r: Vec<String> = Vec::new();
    let mut i: usize = 0;
    while i < cells.len()
        invariant
            i <= cells.len(),
            r@ == known_items(cells@.take(i as int)),
        decreases cells.len() - i,
    {
        assert(cells@.take(i + 1).drop_last() == cells@.take(i as int));
        if !cells[i].null {
            r.push(cells[i].value.clone());
        }
        i += 1;
    }
    assert(cells@.take(cells@.len() as int) == cells@);
    r
}

// ---------------------------------------------------------------------------
// Rows over several batches
// ---------------------------------------------------------------------------

/// Every batch is well-formed.
pub open spec fn all_wf(batches: Seq<Batch>) -> bool {
    forall|b: int| 0 <= b < batches.len() ==> (#[trigger] batches[b]).wf()
}

/// Every batch that has rows has a column of strings of this name.
pub open spec fn all_have_text(batches: Seq<Batch>, name: Seq<char>) -> bool {
    forall|b: int|
        0 <= b < batches.len() && (#[trigger] batches[b]).num_rows > 0 ==> batches[b].has_text(
            name,
        )
}

/// Every batch that has rows has columns of strings of these names.
pub open spec fn all_have_texts(batches: Seq<Batch>, names: Seq<Seq<char>>) -> bool {
    forall|i: int| 0 <= i < names.len() ==> all_have_text(batches, #[trigger] names[i])
}

/// The places of all rows, in order: the batch, and the row in it.
pub open spec fn places(batches: Seq<Batch>) -> Seq<(int, int)>
    decreases batches.len(),
{
    if batches.len() == 0 {
        Seq::empty()
    } else {
        places(batches.drop_last()) + Seq::new(
            batches.last().num_rows as nat,
            |i: int| (batches.len() - 1, i),
        )
    }
}

/// Places as plain numbers.
pub open spec fn places_view(v: Seq<(usize, usize)>) -> Seq<(int, int)> {
    Seq::new(v.len(), |i: int| (v[i].0 as int, v[i].1 as int))
}

/// Every place is a row of a batch.
pub proof fn lemma_places(batches: Seq<Batch>)
    ensures
        forall|k: int|
            0 <= k < places(batches).len() ==> {
                let p = #[trigger] places(batches)[k];
                0 <= p.0 < batches.len() && 0 <= p.1 < batches[p.0].num_rows
            },
    decreases batches.len(),
{
    if batches.len() > 0 {
        lemma_places(batches.drop_last());
        let before = places(batches.drop_last());
        assert forall|k: int| 0 <= k < places(batches).len() implies {
            let p = #[trigger] places(batches)[k];
            0 <= p.0 < batches.len() && 0 <= p.1 < batches[p.0].num_rows
        } by {
            if k < before.len() {
                assert(places(batches)[k] == before[k]);
            }
        }
    }
}

/// The places of all rows, in order.
pub fn all_places(batches: &Vec<Batch>) -> (r: Vec<(usize, usize)>)
    ensures
        places_view(r@) == places(batches@),
        forall|k: int|
            0 <= k < r.len() ==> (#[trigger] r@[k]).0 < batches.len() && r@[k].1
                < batches@[r@[k].0 as int].num_rows,
{
    let mut r: Vec<(usize, usize)> = Vec::new();
    let mut b: usize = 0;
    assert(places_view(r@) =~= places(batches@.take(0)));
    while b < batches.len()
        invariant
            b <= batches.len(),
            places_view(r@) == places(batches@.take(b as int)),
        decreases batches.len() - b,
    {
        let ghost before = places(batches@.take(b as int));
        let n: usize = batches[b].num_rows;
        let mut i: usize = 0;
        assert(places_view(r@) =~= before + Seq::new(0, |i: int| (b as int, i)));
        while i < n
            invariant
                i <= n,
                places_view(r@) == before + Seq::new(i as nat, |i: int| (b as int, i)),
            decreases n - i,
        {
            let ghost had = r@;
            r.push((b, i));
            assert(places_view(r@) =~= places_view(had).push((b as int, i as int)));
            assert((before + Seq::new(i as nat, |i: int| (b as int, i))).push((b as int, i as int))
                =~= before + Seq::new((i + 1) as nat, |i: int| (b as int, i)));
            i += 1;
        }
        assert(batches@.take(b + 1).drop_last() == batches@.take(b as int));
        assert(places_view(r@) =~= places(batches@.take(b + 1)));
        b += 1;
    }
    assert(batches@.take(batches@.len() as int) == batches@);
    proof {
        lemma_places(batches@);
        assert forall|k: int| 0 <= k < r.len() implies (#[trigger] r@[k]).0 < batches.len()
            && r@[k].1 < batches@[r@[k].0 as int].num_rows by {
            assert(places_view(r@)[k] == places(batches@)[k]);
        }
    }
    r
}

/// The strings of a column that are not null, over all rows.
pub open spec fn column_texts(batches: Seq<Batch>, name: Seq<char>) -> Seq<String> {
    texts_at(batches, name, places(batches))
}

/// The strings of a column that are not null, at some places.
pub open spec fn texts_at(batches: Seq<Batch>, name: Seq<char>, at: Seq<(int, int)>) -> Seq<String>
    decreases at.len(),
{
    if at.len() == 0 {
        Seq::empty()
    } else {
        let before = texts_at(batches, name, at.drop_last());
        match batches[at.last().0].opt_text(name, at.last().1) {
            Some(s) => before.push(s),
            None => before,
        }
    }
}

/// The strings of a column that are not null, over all rows.
pub fn read_column_texts(batches: &Vec<Batch>, name: &str) -> (r: Vec<String>)
    requires
        all_wf(batches@),
    ensures
        r@ == column_texts(batches@, name@),
{
    let at = all_places(batches);
    let mut r: Vec<String> = Vec::new();
    let mut k: usize = 0;
    let ghost all = places(batches@);
    assert(all.take(0) == Seq::<(int, int)>::empty());
    while k < at.len()
        invariant
            k <= at.len(),
            all_wf(batches@),
            all == places_view(at@),
            forall|k: int|
                0 <= k < at.len() ==> (#[trigger] at@[k]).0 < batches.len() && at@[k].1
                    < batches@[at@[k].0 as int].num_rows,
            r@ == texts_at(batches@, name@, all.take(k as int)),
        decreases at.len() - k,
    {
        let (b, i) = at[k];
        assert(all.take(k + 1).drop_last() == all.take(k as int));
        assert(all[k as int] == (b as int, i as int));
        match batches[b].get_opt_text(name, i) {
            Some(s) => r.push(s),
            None => {},
        }
        k += 1;
    }
    assert(all.take(all.len() as int) == all);
    r
}

/// The first batch that has rows.
pub open spec fn first_filled(batches: Seq<Batch>) -> Option<Batch>
    decreases batches.len(),
{
    if batches.len() == 0 {
        None
    } else if batches[0].num_rows > 0 {
        Some(batches[0])
    } else {
        first_filled(batches.skip(1))
    }
}

/// The first batch that has rows.
pub fn find_filled(batches: &Vec<Batch>) -> (r: Option<&Batch>)
    ensures
        match r {
            Some(b) => first_filled(batches@) == Some(*b) && b.num_rows > 0,
            None => first_filled(batches@) is None,
        },
        all_wf(batches@) ==> match r {
            Some(b) => b.wf(),
            None => true,
        },
{
    let mut i: usize = 0;
    assert(batches@.skip(0) == batches@);
    while i < batches.len()
        invariant
            i <= batches.len(),
            first_filled(batches@) == first_filled(batches@.skip(i as int)),
        decreases batches.len() - i,
    {
        assert(batches@.skip(i as int).skip(1) == batches@.skip(i + 1));
        if batches[i].num_rows > 0 {
            assert(all_wf(batches@) ==> batches@[i as int].wf());
            return Some(&batches[i]);
        }
        i += 1;
    }
    None
}

// ---------------------------------------------------------------------------
// Reading rows
// ---------------------------------------------------------------------------

/// A value that is read from a row of a query.
pub trait FromRow: Sized {
    /// The columns of strings that a batch must have, whatever else it has.
    spec fn columns() -> Seq<Seq<char>>;

    /// The columns of booleans that a batch must have.
    spec fn flags() -> Seq<Seq<char>>;

    /// Whether the value is that of a row.
    spec fn is_row(self, batch: Batch, row: int) -> bool;

    /// Read the value of a row.
    fn from_row(batch: &Batch, row: usize) -> (r: Self)
        requires
            batch.wf(),
            row < batch.num_rows,
            has_columns(*batch, Self::columns(), Self::flags()),
        ensures
            r.is_row(*batch, row as int),
    ;
}

/// Whether a batch has columns of strings and of booleans of the given names.
pub open spec fn has_columns(batch: Batch, names: Seq<Seq<char>>, flags: Seq<Seq<char>>) -> bool {
    &&& forall|i: int| 0 <= i < names.len() ==> batch.has_text(#[trigger] names[i])
    &&& forall|i: int| 0 <= i < flags.len() ==> batch.has_bool(#[trigger] flags[i])
}

/// Whether batches are well-formed, and those with rows have the columns that a
/// value is read from.
pub open spec fn readable<T: FromRow>(batches: Seq<Batch>) -> bool {
    &&& all_wf(batches)
    &&& forall|b: int|
        0 <= b < batches.len() && (#[trigger] batches[b]).num_rows > 0 ==> has_columns(
            batches[b],
            T::columns(),
            T::flags(),
        )
}

/// Whether values are those of all rows, in order.
pub open spec fn are_rows<T: FromRow>(rows: Seq<T>, batches: Seq<Batch>) -> bool {
    &&& rows.len() == places(batches).len()
    &&& forall|k: int|
        0 <= k < rows.len() ==> {
            let p = places(batches)[k];
            (#[trigger] rows[k]).is_row(batches[p.0], p.1)
        }
}

/// Read the values of all rows, in order.
pub fn read_rows<T: FromRow>(batches: &Vec<Batch>) -> (r: Vec<T>)
    requires
        readable::<T>(batches@),
    ensures
        are_rows(r@, batches@),
{
    let at = all_places(batches);
    let mut r: Vec<T> = Vec::new();
    let mut k: usize = 0;
    while k < at.len()
        invariant
            k <= at.len(),
            readable::<T>(batches@),
            places_view(at@) == places(batches@),
            forall|k: int|
                0 <= k < at.len() ==> (#[trigger] at@[k]).0 < batches.len() && at@[k].1
                    < batches@[at@[k].0 as int].num_rows,
            r.len() == k,
            forall|j: int|
                0 <= j < k ==> {
                    let p = places(batches@)[j];
                    (#[trigger] r@[j]).is_row(batches@[p.0], p.1)
                },
        decreases at.len() - k,
    {
        let (b, i) = at[k];
        assert(places(batches@)[k as int] == (b as int, i as int));
        r.push(T::from_row(&batches[b], i));
        k += 1;
    }
    r
}

/// The strings of a list cell; none where it is null or there is no such column.
pub open spec fn list_or_empty(batch: Batch, name: Seq<char>, row: int) -> Seq<String> {
    match batch.opt_list(name, row) {
        Some(items) => items,
        None => Seq::empty(),
    }
}

/// The strings of a list cell; none where it is null or there is no such column.
pub fn list_col_at(batch: &Batch, col_name: &str, row: usize) -> (r: Vec<String>)
    requires
        batch.wf(),
        row < batch.num_rows,
    ensures
        r@ == list_or_empty(*batch, col_name@, row as int),
{
    match batch.get_opt_list(col_name, row) {
        Some(items) => items,
        None => Vec::new(),
    }
}

} // verus!
