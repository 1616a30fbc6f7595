//! An interactive grid over tabular data.
//!
//! A [`TableView`] presents some store as rows and columns. The grid widget
//! in [`table`] keeps selection, scrolling and edit mode for one view and
//! turns keys into moves, edits and insertions; [`navigation`] stacks grids
//! for drill-down. [`database`] is a small columnar store with three views.
use vstd::prelude::*;

pub mod database;
pub mod frame;
pub mod keys;
pub mod navigation;
pub mod table;
pub mod text;

verus! {

/// What a cell shows, as a mathematical value.
pub enum CellContent {
    /// Plain text.
    Text(Seq<char>),
    /// A cell that opens a child view when activated.
    Link,
}

/// What a view hands out for one cell.
pub enum Cell {
    Text(String),
    Link,
}

impl View for Cell {
    type V = CellContent;

    open spec fn view(&self) -> CellContent {
        match self {
            Cell::Text(text) => CellContent::Text(text@),
            Cell::Link => CellContent::Link,
        }
    }
}

/// An edited value on its way into a view, one variant per kind of editor.
pub enum CellUpdate {
    /// The final text of a free-text editor.
    Text(String),
}

impl View for CellUpdate {
    type V = Seq<char>;

    open spec fn view(&self) -> Seq<char> {
        match self {
            CellUpdate::Text(text) => text@,
        }
    }
}

impl CellUpdate {
    /// The text that this update carries.
    pub fn as_text(self) -> (text: String)
        ensures
            text@ == self@,
    {
        match self {
            CellUpdate::Text(text) => text,
        }
    }
}

/// A column header.
#[derive(Clone)]
pub struct Column {
    pub label: String,
}

/// The labels of a sequence of headers.
pub open spec fn labels(headers: Seq<Column>) -> Seq<Seq<char>> {
    Seq::new(headers.len(), |i: int| headers[i].label@)
}

/// A source of rows and columns that a grid can show, edit and drill into.
///
/// A view holds no reference into the store: it addresses what it shows by
/// index and resolves it through the store on every call. The views of one
/// store form one type, so that a view opens children of its own type.
pub trait TableView: Sized {
    /// The store that the view reads and edits.
    type State;

    /// Whether this view can be shown over `state`.
    spec fn valid(&self, state: &Self::State) -> bool;

    /// The header labels, left to right.
    spec fn spec_columns(&self, state: &Self::State) -> Seq<Seq<char>>;

    /// The number of rows.
    spec fn spec_row_count(&self, state: &Self::State) -> nat;

    /// What the cell at `row` and `column` shows.
    spec fn spec_cell(&self, state: &Self::State, row: int, column: int) -> CellContent;

    /// Whether `after` is `before` with `text` committed to the cell at `row` and `column`.
    spec fn saved(
        &self,
        before: &Self::State,
        after: &Self::State,
        row: int,
        column: int,
        text: Seq<char>,
    ) -> bool;

    /// Whether the store can take one more row of this view.
    spec fn has_room(&self, state: &Self::State) -> bool;

    /// Whether `after` is `before` with one default row appended to this view.
    spec fn row_added(&self, before: &Self::State, after: &Self::State) -> bool;

    /// The child view behind the link at `row` and `column`.
    spec fn spec_open_cell(&self, state: &Self::State, row: int, column: int) -> Self;

    /// The headers of the view. A grid asks once, when the view is opened.
    fn columns(&self, state: &Self::State) -> (headers: Vec<Column>)
        requires
            self.valid(state),
        ensures
            labels(headers@) == self.spec_columns(state),
    ;

    fn row_count(&self, state: &Self::State) -> (count: usize)
        requires
            self.valid(state),
        ensures
            count == self.spec_row_count(state),
    ;

    fn cell(&self, state: &Self::State, row: usize, column: usize) -> (cell: Cell)
        requires
            self.valid(state),
            row < self.spec_row_count(state),
            column < self.spec_columns(state).len(),
        ensures
            cell@ == self.spec_cell(state, row as int, column as int),
    ;

    /// Commits an edited value to a text cell.
    fn save_cell(&mut self, state: &mut Self::State, row: usize, column: usize, value: CellUpdate)
        requires
            old(self).valid(old(state)),
            row < old(self).spec_row_count(old(state)),
            column < old(self).spec_columns(old(state)).len(),
            old(self).spec_cell(old(state), row as int, column as int) is Text,
        ensures
            *final(self) == *old(self),
            old(self).saved(old(state), final(state), row as int, column as int, value@),
    ;

    /// Appends a row of defaults, or leaves the store as it is where it is full.
    fn new_row(&mut self, state: &mut Self::State)
        requires
            old(self).valid(old(state)),
        ensures
            *final(self) == *old(self),
            old(self).has_room(old(state)) ==> old(self).row_added(old(state), final(state)),
            !old(self).has_room(old(state)) ==> *final(state) == *old(state),
    ;

    /// The child view behind a link cell. Opening changes neither view nor store.
    fn open_cell(&mut self, state: &mut Self::State, row: usize, column: usize) -> (child: Self)
        requires
            old(self).valid(old(state)),
            row < old(self).spec_row_count(old(state)),
            column < old(self).spec_columns(old(state)).len(),
            old(self).spec_cell(old(state), row as int, column as int) is Link,
        ensures
            *final(self) == *old(self),
            *final(state) == *old(state),
            child == old(self).spec_open_cell(old(state), row as int, column as int),
            child.valid(final(state)),
    ;

    /// A valid view has no more rows and columns than a machine index counts.
    proof fn sizes_fit(&self, state: &Self::State)
        requires
            self.valid(state),
        ensures
            self.spec_row_count(state) <= usize::MAX,
            self.spec_columns(state).len() <= usize::MAX,
    ;

    /// The child view behind a link is valid over the store of its parent.
    proof fn child_is_valid(&self, state: &Self::State, row: int, column: int)
        requires
            self.valid(state),
            0 <= row < self.spec_row_count(state),
            0 <= column < self.spec_columns(state).len(),
            self.spec_cell(state, row, column) is Link,
        ensures
            self.spec_open_cell(state, row, column).valid(state),
    ;

    /// A committed edit adds and removes nothing: the view that saved keeps
    /// its rows and headers, and every view of the store stays valid with at
    /// least the rows and columns it had.
    proof fn saved_keeps(
        &self,
        other: &Self,
        before: &Self::State,
        after: &Self::State,
        row: int,
        column: int,
        text: Seq<char>,
    )
        requires
            self.valid(before),
            0 <= row < self.spec_row_count(before),
            0 <= column < self.spec_columns(before).len(),
            self.spec_cell(before, row, column) is Text,
            self.saved(before, after, row, column, text),
            other.valid(before),
        ensures
            self.valid(after),
            self.spec_row_count(after) == self.spec_row_count(before),
            self.spec_columns(after) == self.spec_columns(before),
            other.valid(after),
            other.spec_row_count(after) >= other.spec_row_count(before),
            other.spec_columns(after).len() >= other.spec_columns(before).len(),
    ;

    /// A new row is one more row of the view that added it, under the same
    /// headers, and every view of the store stays valid with at least the
    /// rows and columns it had.
    proof fn row_added_keeps(&self, other: &Self, before: &Self::State, after: &Self::State)
        requires
            self.valid(before),
            self.has_room(before),
            self.row_added(before, after),
            other.valid(before),
        ensures
            self.valid(after),
            self.spec_row_count(after) == self.spec_row_count(before) + 1,
            self.spec_columns(after) == self.spec_columns(before),
            other.valid(after),
            other.spec_row_count(after) >= other.spec_row_count(before),
            other.spec_columns(after).len() >= other.spec_columns(before).len(),
    ;
}

} // verus!
