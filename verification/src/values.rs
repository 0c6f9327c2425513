//! The plain values that travel between the store and the database: what a
//! statement binds, and what a result row holds.

use vstd::prelude::*;

verus! {

/// A value bound to a placeholder of a statement. The store binds text and
/// integers, nothing else.
#[derive(Debug, Clone, PartialEq, Eq)]
pub enum Param {
    Integer(i64),
    Text(String),
}

/// The mathematical value of a [`Param`].
pub enum ParamView {
    Integer(i64),
    Text(Seq<char>),
}

impl View for Param {
    type V = ParamView;

    open spec fn view(&self) -> ParamView {
        match self {
            Param::Integer(n) => ParamView::Integer(*n),
            Param::Text(s) => ParamView::Text(s@),
        }
    }
}

impl DeepView for Param {
    type V = ParamView;

    open spec fn deep_view(&self) -> ParamView {
        self@
    }
}

/// One column of a result row, as the database hands it out. Reals and blobs
/// are told apart from the rest but carry no payload: no record of the store
/// has a field that could take one.
#[derive(Debug, Clone, PartialEq, Eq)]
pub enum Cell {
    Null,
    Integer(i64),
    Real,
    Text(String),
    Blob,
}

/// The mathematical value of a [`Cell`].
pub enum CellView {
    Null,
    Integer(i64),
    Real,
    Text(Seq<char>),
    Blob,
}

impl CellView {
    /// The text in the cell; empty where the cell holds no text.
    pub open spec fn text(self) -> Seq<char> {
        match self {
            CellView::Text(s) => s,
            _ => Seq::empty(),
        }
    }

    /// The integer in the cell; zero where the cell holds no integer.
    pub open spec fn integer(self) -> i64 {
        match self {
            CellView::Integer(n) => n,
            _ => 0i64,
        }
    }
}

impl View for Cell {
    type V = CellView;

    open spec fn view(&self) -> CellView {
        match self {
            Cell::Null => CellView::Null,
            Cell::Integer(n) => CellView::Integer(*n),
            Cell::Real => CellView::Real,
            Cell::Text(s) => CellView::Text(s@),
            Cell::Blob => CellView::Blob,
        }
    }
}

impl DeepView for Cell {
    type V = CellView;

    open spec fn deep_view(&self) -> CellView {
        self@
    }
}

/// The cell that a bound value is read back as when the database stores it
/// unchanged.
pub open spec fn stored(param: ParamView) -> CellView {
    match param {
        ParamView::Integer(n) => CellView::Integer(n),
        ParamView::Text(s) => CellView::Text(s),
    }
}

/// The row that bound values are read back as when the database stores them
/// unchanged, each in a column of its own.
pub open spec fn stored_row(params: Seq<ParamView>) -> Seq<CellView> {
    Seq::new(params.len(), |i: int| stored(params[i]))
}

/// A statement ready to run: its SQL text and the values for its
/// placeholders, in order.
#[derive(Debug, Clone, PartialEq, Eq)]
pub struct Statement {
    pub sql: &'static str,
    pub params: Vec<Param>,
}

/// The mathematical value of a [`Statement`].
pub struct StatementView {
    pub sql: Seq<char>,
    pub params: Seq<ParamView>,
}

impl View for Statement {
    type V = StatementView;

    open spec fn view(&self) -> StatementView {
        StatementView { sql: self.sql@, params: self.params.deep_view() }
    }
}

/// A bound text value holding a copy of `text`.
pub fn text_param(text: &String) -> (param: Param)
    ensures
        param@ == ParamView::Text(text@),
{
    Param::Text(text.clone())
}

} // verus!
