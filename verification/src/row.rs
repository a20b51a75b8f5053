//! Rows as a query returns them, in plain values.

use crate::error::{column_name, FetchError, Field};
use crate::json::{json_clone, json_of, JsonDoc};
use crate::text::same_text;
use serde_json::Value;
use vstd::prelude::*;

verus! {

/// What one column of a row holds.
#[derive(Debug)]
pub enum Cell {
    /// A string.
    Text(String),
    /// A JSON document.
    Json(Value),
    /// Anything else, a null among them.
    Other,
}

/// One column of a row: its name and what it holds.
#[derive(Debug)]
pub struct Column {
    pub name: String,
    pub value: Cell,
}

/// One row of a query's result: its columns from left to right.
#[derive(Debug)]
pub struct Row {
    pub columns: Vec<Column>,
}

/// The content of a [`Cell`].
pub enum CellView {
    Text(Seq<char>),
    Json(JsonDoc),
    Other,
}

/// The content of a [`Column`].
pub struct ColumnView {
    pub name: Seq<char>,
    pub value: CellView,
}

impl View for Cell {
    type V = CellView;

    open spec fn view(&self) -> CellView {
        match *self {
            Cell::Text(text) => CellView::Text(text@),
            Cell::Json(value) => CellView::Json(json_of(value)),
            Cell::Other => CellView::Other,
        }
    }
}

impl View for Column {
    type V = ColumnView;

    open spec fn view(&self) -> ColumnView {
        ColumnView { name: self.name@, value: self.value@ }
    }
}

impl View for Row {
    type V = Seq<ColumnView>;

    open spec fn view(&self) -> Seq<ColumnView> {
        self.columns@.map_values(|column: Column| column@)
    }
}

/// The content of each of `rows`, in order.
pub open spec fn rows_view(rows: Seq<Row>) -> Seq<Seq<ColumnView>> {
    rows.map_values(|row: Row| row@)
}

/// Whether what a column holds can be read as `field`: the two schemas
/// are JSON documents, every other field is a string.
pub open spec fn readable(field: Field, cell: CellView) -> bool {
    match field {
        Field::Request | Field::Response => cell is Json,
        _ => cell is Text,
    }
}

/// The first of `fields` that `column` bears the name of without holding
/// what the field asks for.
pub open spec fn misread(fields: Seq<Field>, column: ColumnView) -> Option<Field>
    decreases fields.len(),
{
    if fields.len() == 0 {
        None
    } else if column.name == column_name(fields[0]) && !readable(fields[0], column.value) {
        Some(fields[0])
    } else {
        misread(fields.drop_first(), column)
    }
}

/// The field that the first misread column of `row` was taken for, going
/// from left to right.
pub open spec fn first_unreadable(row: Seq<ColumnView>, fields: Seq<Field>) -> Option<Field>
    decreases row.len(),
{
    if row.len() == 0 {
        None
    } else {
        match first_unreadable(row.drop_last(), fields) {
            Some(field) => Some(field),
            None => misread(fields, row.last()),
        }
    }
}

/// What the last column of `row` that is named as `field` holds.
pub open spec fn last_cell(row: Seq<ColumnView>, field: Field) -> Option<CellView>
    decreases row.len(),
{
    if row.len() == 0 {
        None
    } else if row.last().name == column_name(field) {
        Some(row.last().value)
    } else {
        last_cell(row.drop_last(), field)
    }
}

/// The first of `fields` that no column of `row` is named as.
pub open spec fn first_missing(row: Seq<ColumnView>, fields: Seq<Field>) -> Option<Field>
    decreases fields.len(),
{
    if fields.len() == 0 {
        None
    } else if last_cell(row, fields[0]) is None {
        Some(fields[0])
    } else {
        first_missing(row, fields.drop_first())
    }
}

/// What is wrong with `row` when it is read for `fields`: a misread column
/// comes before a missing one.
pub open spec fn row_fault(row: Seq<ColumnView>, fields: Seq<Field>) -> Option<FetchError> {
    match first_unreadable(row, fields) {
        Some(field) => Some(FetchError::UnreadableColumn(field)),
        None => match first_missing(row, fields) {
            Some(field) => Some(FetchError::MissingColumn(field)),
            None => None,
        },
    }
}

/// The string that `row` gives for `field`.
pub open spec fn text_in(row: Seq<ColumnView>, field: Field) -> Seq<char> {
    match last_cell(row, field) {
        Some(CellView::Text(text)) => text,
        _ => Seq::empty(),
    }
}

/// The document that `row` gives for `field`.
pub open spec fn doc_in(row: Seq<ColumnView>, field: Field) -> JsonDoc {
    match last_cell(row, field) {
        Some(CellView::Json(doc)) => doc,
        _ => JsonDoc::Null,
    }
}

/// A column that bears the name of one of `fields` and is not misread
/// holds what that field asks for.
pub proof fn lemma_not_misread(fields: Seq<Field>, column: ColumnView, k: int)
    requires
        misread(fields, column) is None,
        0 <= k < fields.len(),
        column.name == column_name(fields[k]),
    ensures
        readable(fields[k], column.value),
    decreases fields.len(),
{
    if k > 0 {
        lemma_not_misread(fields.drop_first(), column, k - 1);
    }
}

/// In a row without a misread column, what is found for a field can be
/// read as that field.
pub proof fn lemma_found_is_readable(row: Seq<ColumnView>, fields: Seq<Field>, k: int)
    requires
        first_unreadable(row, fields) is None,
        0 <= k < fields.len(),
        last_cell(row, fields[k]) is Some,
    ensures
        readable(fields[k], last_cell(row, fields[k])->0),
    decreases row.len(),
{
    if row.last().name == column_name(fields[k]) {
        lemma_not_misread(fields, row.last(), k);
    } else {
        lemma_found_is_readable(row.drop_last(), fields, k);
    }
}

/// In a row that misses none of `fields`, each of them is found.
pub proof fn lemma_none_missing(row: Seq<ColumnView>, fields: Seq<Field>, k: int)
    requires
        first_missing(row, fields) is None,
        0 <= k < fields.len(),
    ensures
        last_cell(row, fields[k]) is Some,
    decreases fields.len(),
{
    if k > 0 {
        lemma_none_missing(row, fields.drop_first(), k - 1);
    }
}

/// A column that is misread in a part of the row from the left is the
/// first misread column of the whole row.
pub proof fn lemma_unreadable_stays(row: Seq<ColumnView>, fields: Seq<Field>, n: int)
    requires
        0 <= n <= row.len(),
        first_unreadable(row.take(n), fields) is Some,
    ensures
        first_unreadable(row, fields) == first_unreadable(row.take(n), fields),
    decreases row.len() - n,
{
    if n < row.len() {
        assert(row.take(n + 1).drop_last() =~= row.take(n));
        lemma_unreadable_stays(row, fields, n + 1);
    } else {
        assert(row.take(n) =~= row);
    }
}

/// The first of `fields` that `column` is misread for.
fn misread_field(fields: &Vec<Field>, column: &Column) -> (found: Option<Field>)
    ensures
        found == misread(fields@, column@),
{
    let mut k: usize = 0;
    assert(fields@.skip(0) =~= fields@);
    while k < fields.len()
        invariant
            0 <= k <= fields.len(),
            misread(fields@, column@) == misread(fields@.skip(k as int), column@),
        decreases fields.len() - k,
    {
        let field = fields[k];
        let as_asked = match field {
            Field::Request | Field::Response => match column.value {
                Cell::Json(_) => true,
                _ => false,
            },
            _ => match column.value {
                Cell::Text(_) => true,
                _ => false,
            },
        };
        assert(fields@.skip(k as int)[0] == field);
        assert(fields@.skip(k as int).drop_first() =~= fields@.skip(k + 1));
        if same_text(column.name.as_str(), field.name()) && !as_asked {
            return Some(field);
        }
        k = k + 1;
    }
    None
}

impl Row {
    /// The place of the last column that is named as `field`.
    fn find(&self, field: Field) -> (found: Option<usize>)
        ensures
            match found {
                Some(place) => {
                    &&& place < self.columns.len()
                    &&& last_cell(self@, field) == Some(self.columns[place as int]@.value)
                },
                None => last_cell(self@, field) is None,
            },
    {
        let mut found: Option<usize> = None;
        let mut n: usize = 0;
        assert(self@.take(0) =~= Seq::<ColumnView>::empty());
        while n < self.columns.len()
            invariant
                0 <= n <= self.columns.len(),
                self@.len() == self.columns.len(),
                match found {
                    Some(place) => {
                        &&& place < n
                        &&& last_cell(self@.take(n as int), field) == Some(
                            self.columns[place as int]@.value,
                        )
                    },
                    None => last_cell(self@.take(n as int), field) is None,
                },
            decreases self.columns.len() - n,
        {
            assert(self@.take(n + 1).drop_last() =~= self@.take(n as int));
            assert(self@.take(n + 1).last() == self.columns[n as int]@);
            if same_text(self.columns[n].name.as_str(), field.name()) {
                found = Some(n);
            }
            n = n + 1;
        }
        assert(self@.take(n as int) =~= self@);
        found
    }

    /// What is wrong with this row when it is read for `fields`.
    pub fn check(&self, fields: &Vec<Field>) -> (fault: Option<FetchError>)
        ensures
            fault == row_fault(self@, fields@),
    {
        let mut n: usize = 0;
        assert(self@.take(0) =~= Seq::<ColumnView>::empty());
        while n < self.columns.len()
            invariant
                0 <= n <= self.columns.len(),
                self@.len() == self.columns.len(),
                first_unreadable(self@.take(n as int), fields@) is None,
            decreases self.columns.len() - n,
        {
            assert(self@.take(n + 1).drop_last() =~= self@.take(n as int));
            assert(self@.take(n + 1).last() == self.columns[n as int]@);
            match misread_field(fields, &self.columns[n]) {
                Some(field) => {
                    proof {
                        lemma_unreadable_stays(self@, fields@, n + 1);
                    }
                    return Some(FetchError::UnreadableColumn(field));
                },
                None => {},
            }
            n = n + 1;
        }
        assert(self@.take(n as int) =~= self@);
        let mut k: usize = 0;
        assert(fields@.skip(0) =~= fields@);
        while k < fields.len()
            invariant
                0 <= k <= fields.len(),
                first_unreadable(self@, fields@) is None,
                first_missing(self@, fields@) == first_missing(self@, fields@.skip(k as int)),
            decreases fields.len() - k,
        {
            assert(fields@.skip(k as int)[0] == fields[k as int]);
            assert(fields@.skip(k as int).drop_first() =~= fields@.skip(k + 1));
            if self.find(fields[k]).is_none() {
                return Some(FetchError::MissingColumn(fields[k]));
            }
            k = k + 1;
        }
        None
    }

    /// The string that this row gives for `field`, if it gives one.
    pub fn text(&self, field: Field) -> (found: Option<String>)
        ensures
            match last_cell(self@, field) {
                Some(CellView::Text(text)) => found matches Some(copy) && copy@ == text,
                _ => found is None,
            },
    {
        match self.find(field) {
            Some(place) => match &self.columns[place].value {
                Cell::Text(text) => Some(text.clone()),
                _ => None,
            },
            None => None,
        }
    }

    /// The document that this row gives for `field`, if it gives one.
    pub fn document(&self, field: Field) -> (found: Option<Value>)
        ensures
            match last_cell(self@, field) {
                Some(CellView::Json(doc)) => found matches Some(copy) && json_of(copy) == doc,
                _ => found is None,
            },
    {
        match self.find(field) {
            Some(place) => match &self.columns[place].value {
                Cell::Json(value) => Some(json_clone(value)),
                _ => None,
            },
            None => None,
        }
    }
}

} // verus!
