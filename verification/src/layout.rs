//! Reading result rows: which type each column of a row must have, and the
//! first fault of a row that does not have them.

use vstd::prelude::*;
use crate::errors::RowError;
use crate::values::{Cell, CellView};

verus! {

/// The type that a record's field asks of its column.
#[derive(Debug, Clone, Copy, PartialEq, Eq)]
pub enum Kind {
    /// Text, taken as it is.
    Text,
    /// Any integer that the database can hold.
    Integer,
    /// An integer of at most 32 bits.
    SmallInteger,
}

/// What is wrong with the column at `index` of `row` for a field of the given
/// kind, if anything: the column is missing, holds another type, or holds an
/// integer too large for the field.
pub open spec fn column_fault(row: Seq<CellView>, kind: Kind, index: int) -> Option<RowError> {
    if index < 0 || index >= row.len() {
        Some(RowError::MissingColumn(index as usize))
    } else {
        match (kind, row[index]) {
            (Kind::Text, CellView::Text(_)) => None,
            (Kind::Integer, CellView::Integer(_)) => None,
            (Kind::SmallInteger, CellView::Integer(n)) => if i32::MIN <= n <= i32::MAX {
                None
            } else {
                Some(RowError::OutOfRange(index as usize, n))
            },
            _ => Some(RowError::WrongType(index as usize)),
        }
    }
}

/// The first fault in a sequence of findings.
pub open spec fn first_fault(faults: Seq<Option<RowError>>) -> Option<RowError>
    decreases faults.len(),
{
    if faults.len() == 0 {
        None
    } else if faults[0] is Some {
        faults[0]
    } else {
        first_fault(faults.drop_first())
    }
}

/// The findings on the columns of `row`, one for each field of `layout`.
pub open spec fn column_faults(row: Seq<CellView>, layout: Seq<Kind>) -> Seq<Option<RowError>> {
    Seq::new(layout.len(), |i: int| column_fault(row, layout[i], i))
}

/// The fault of the leftmost column of `row` that does not suit `layout`.
pub open spec fn row_fault(row: Seq<CellView>, layout: Seq<Kind>) -> Option<RowError> {
    first_fault(column_faults(row, layout))
}

/// The fault of the first row of `rows` that does not suit `layout`.
pub open spec fn rows_fault(rows: Seq<Seq<CellView>>, layout: Seq<Kind>) -> Option<RowError> {
    first_fault(Seq::new(rows.len(), |k: int| row_fault(rows[k], layout)))
}

/// The text in the column at `index`; empty where there is none.
pub open spec fn text_at(row: Seq<CellView>, index: int) -> Seq<char> {
    if 0 <= index < row.len() {
        row[index].text()
    } else {
        Seq::empty()
    }
}

/// The integer in the column at `index`; zero where there is none.
pub open spec fn integer_at(row: Seq<CellView>, index: int) -> i64 {
    if 0 <= index < row.len() {
        row[index].integer()
    } else {
        0i64
    }
}

/// Findings without a fault have no first fault.
pub proof fn lemma_no_fault(faults: Seq<Option<RowError>>)
    requires
        forall|i: int| 0 <= i < faults.len() ==> faults[i] is None,
    ensures
        first_fault(faults) is None,
    decreases faults.len(),
{
    if faults.len() > 0 {
        lemma_no_fault(faults.drop_first());
    }
}

/// The first fault is the finding that no fault precedes.
pub proof fn lemma_fault_at(faults: Seq<Option<RowError>>, at: int)
    requires
        0 <= at < faults.len(),
        faults[at] is Some,
        forall|i: int| 0 <= i < at ==> faults[i] is None,
    ensures
        first_fault(faults) == faults[at],
    decreases faults.len(),
{
    if at > 0 {
        lemma_fault_at(faults.drop_first(), at - 1);
    }
}

/// Finds what is wrong with one column of a row.
pub fn check_column(row: &Vec<Cell>, kind: Kind, index: usize) -> (fault: Option<RowError>)
    ensures
        fault == column_fault(row.deep_view(), kind, index as int),
{
    if index >= row.len() {
        return Some(RowError::MissingColumn(index));
    }
    assert(row.deep_view()[index as int] == row[index as int]@);
    match (kind, &row[index]) {
        (Kind::Text, Cell::Text(_)) => None,
        (Kind::Integer, Cell::Integer(_)) => None,
        (Kind::SmallInteger, Cell::Integer(n)) => {
            if -2147483648 <= *n && *n <= 2147483647 {
                None
            } else {
                Some(RowError::OutOfRange(index, *n))
            }
        },
        _ => Some(RowError::WrongType(index)),
    }
}

/// Checks a row against a layout, column by column from the left, and
/// reports the first fault.
pub fn check_row(row: &Vec<Cell>, layout: &Vec<Kind>) -> (res: Result<(), RowError>)
    ensures
        res == match row_fault(row.deep_view(), layout@) {
            Some(fault) => Err::<(), RowError>(fault),
            None => Ok::<(), RowError>(()),
        },
{
    let ghost faults = column_faults(row.deep_view(), layout@);
    let mut i: usize = 0;
    while i < layout.len()
        invariant
            i <= layout.len(),
            faults == column_faults(row.deep_view(), layout@),
            forall|j: int| 0 <= j < i ==> faults[j] is None,
        decreases layout.len() - i,
    {
        match check_column(row, layout[i], i) {
            Some(fault) => {
                proof {
                    lemma_fault_at(faults, i as int);
                }
                return Err(fault);
            },
            None => {},
        }
        i += 1;
    }
    proof {
        lemma_no_fault(faults);
    }
    Ok(())
}

/// Checks every row against a layout, from the first row on, and reports the
/// first fault.
pub fn check_rows(rows: &Vec<Vec<Cell>>, layout: &Vec<Kind>) -> (res: Result<(), RowError>)
    ensures
        res == match rows_fault(rows.deep_view(), layout@) {
            Some(fault) => Err::<(), RowError>(fault),
            None => Ok::<(), RowError>(()),
        },
{
    let ghost faults = Seq::new(
        rows.deep_view().len(),
        |k: int| row_fault(rows.deep_view()[k], layout@),
    );
    let mut k: usize = 0;
    while k < rows.len()
        invariant
            k <= rows.len(),
            faults == Seq::new(
                rows.deep_view().len(),
                |k: int| row_fault(rows.deep_view()[k], layout@),
            ),
            forall|j: int| 0 <= j < k ==> faults[j] is None,
        decreases rows.len() - k,
    {
        assert(rows.deep_view()[k as int] == rows[k as int].deep_view());
        match check_row(&rows[k], layout) {
            Err(fault) => {
                proof {
                    lemma_fault_at(faults, k as int);
                }
                return Err(fault);
            },
            Ok(()) => {},
        }
        k += 1;
    }
    proof {
        lemma_no_fault(faults);
    }
    Ok(())
}

/// A copy of the text in the column at `index`; empty where there is none.
pub fn text_of(row: &Vec<Cell>, index: usize) -> (text: String)
    ensures
        text@ == text_at(row.deep_view(), index as int),
{
    if index >= row.len() {
        return String::new();
    }
    assert(row.deep_view()[index as int] == row[index as int]@);
    match &row[index] {
        Cell::Text(s) => s.clone(),
        _ => String::new(),
    }
}

/// The integer in the column at `index`; zero where there is none.
pub fn integer_of(row: &Vec<Cell>, index: usize) -> (n: i64)
    ensures
        n == integer_at(row.deep_view(), index as int),
{
    if index >= row.len() {
        return 0;
    }
    assert(row.deep_view()[index as int] == row[index as int]@);
    match &row[index] {
        Cell::Integer(n) => *n,
        _ => 0,
    }
}

} // verus!
