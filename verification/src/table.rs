//! The grid widget: one view with its selection, scrolling and edit mode.
use crate::keys::binding;
use crate::keys::command;
use crate::keys::event_key;
use crate::keys::key_of;
use crate::keys::Command;
use crate::keys::Key;
use crate::keys::Motion;
use crate::labels;
use crate::Cell;
use crate::CellContent;
use crate::CellUpdate;
use crate::Column;
use crate::TableView;
use crate::frame::equal_shares;
use crate::frame::link_text;
use crate::frame::link_word;
use crate::frame::spec_visible_rows;
use crate::frame::split_columns;
use crate::frame::strip_stays_inside;
use crate::frame::visible_rows;
use crate::frame::Area;
use crate::frame::Frame;
use crate::frame::Piece;
use crate::frame::PieceKind;
use crate::frame::PieceModel;
use crossterm::event::KeyEvent;
use vstd::prelude::*;

verus! {

/// A position in the grid: row, then column.
pub type Spot = (nat, nat);

/// Where the selection starts when a move finds nothing selected: in row 0,
/// in the last column for a move to the left and in the first for any other.
/// An empty grid has no cell to select.
pub open spec fn start(motion: Motion, rows: nat, columns: nat) -> Option<Spot> {
    if rows == 0 || columns == 0 {
        None
    } else {
        match motion {
            Motion::Left => Some((0nat, (columns - 1) as nat)),
            _ => Some((0nat, 0nat)),
        }
    }
}

/// The selection after one move: one cell further in the direction of
/// `motion`, or where it was at the edge of the grid.
pub open spec fn moved(spot: Option<Spot>, motion: Motion, rows: nat, columns: nat) -> Option<Spot> {
    match spot {
        None => start(motion, rows, columns),
        Some((row, column)) => match motion {
            Motion::Left => Some((row, if column > 0 { (column - 1) as nat } else { column })),
            Motion::Right => Some((row, if column + 1 < columns { column + 1 } else { column })),
            Motion::Up => Some((if row > 0 { (row - 1) as nat } else { row }, column)),
            Motion::Down => Some((if row + 1 < rows { row + 1 } else { row }, column)),
        },
    }
}

/// The selection after a sequence of moves.
pub open spec fn moved_all(spot: Option<Spot>, motions: Seq<Motion>, rows: nat, columns: nat) -> Option<Spot>
    decreases motions.len(),
{
    if motions.len() == 0 {
        spot
    } else {
        moved(moved_all(spot, motions.drop_last(), rows, columns), motions.last(), rows, columns)
    }
}

/// Whether a selection, if there is one, lies inside the grid.
pub open spec fn in_range(spot: Option<Spot>, rows: nat, columns: nat) -> bool {
    spot matches Some((row, column)) ==> row < rows && column < columns
}

/// Moves never leave the grid: a selection that is in range stays in range
/// through any sequence of moves, and none comes to be while the grid has no
/// rows or no columns.
pub proof fn moves_stay_in_range(spot: Option<Spot>, motions: Seq<Motion>, rows: nat, columns: nat)
    requires
        in_range(spot, rows, columns),
    ensures
        in_range(moved_all(spot, motions, rows, columns), rows, columns),
        rows == 0 || columns == 0 ==> moved_all(spot, motions, rows, columns) is None,
    decreases motions.len(),
{
    if motions.len() > 0 {
        moves_stay_in_range(spot, motions.drop_last(), rows, columns);
    }
}

/// A position as a mathematical value.
pub open spec fn spot_of(cell: Option<(usize, usize)>) -> Option<Spot> {
    match cell {
        Some((row, column)) => Some((row as nat, column as nat)),
        None => None,
    }
}

/// Moves a selection by one cell in a grid of `rows` by `columns`.
pub fn move_cell(cell: Option<(usize, usize)>, motion: Motion, rows: usize, columns: usize) -> (next: Option<(usize, usize)>)
    ensures
        spot_of(next) == moved(spot_of(cell), motion, rows as nat, columns as nat),
{
    match cell {
        None => {
            if rows == 0 || columns == 0 {
                None
            } else {
                match motion {
                    Motion::Left => Some((0, columns - 1)),
                    _ => Some((0, 0)),
                }
            }
        },
        Some((row, column)) => match motion {
            Motion::Left => Some((row, if column > 0 { column - 1 } else { column })),
            Motion::Right => Some((row, if column < usize::MAX && column + 1 < columns { column + 1 } else { column })),
            Motion::Up => Some((if row > 0 { row - 1 } else { row }, column)),
            Motion::Down => Some((if row < usize::MAX && row + 1 < rows { row + 1 } else { row }, column)),
        },
    }
}

/// The selected cell as a mathematical value.
pub struct Selection {
    pub row: nat,
    pub column: nat,
    /// The text in the editor while the cell is being edited.
    pub editing: Option<Seq<char>>,
}

/// The grid as a mathematical value.
pub struct Grid<V> {
    pub view: V,
    /// The header labels, as they were when the view was opened.
    pub header: Seq<Seq<char>>,
    pub scroll_offset: nat,
    pub selected: Option<Selection>,
}

/// What a key came to.
#[derive(Clone, Copy, Debug, PartialEq, Eq)]
pub enum Outcome {
    /// The key means nothing to the grid in its present mode.
    Ignored,
    /// The grid acted on the key.
    Handled,
    /// The selected cell is a link: whoever holds the grid opens it.
    Open { row: usize, column: usize },
    /// The key asks to leave this grid for its parent.
    Back,
}

/// What the embedded editor made of a key.
pub struct EditorReply {
    /// Whether the editor took the key.
    pub consumed: bool,
    /// The text in the editor after the key.
    pub text: String,
}

impl<V: TableView> Grid<V> {
    /// A freshly opened grid: the headers of the view, nothing selected, not scrolled.
    pub open spec fn opened(view: V, store: &V::State) -> Self {
        Grid { view, header: view.spec_columns(store), scroll_offset: 0, selected: None }
    }

    /// The selected position.
    pub open spec fn spot(self) -> Option<Spot> {
        match self.selected {
            Some(cell) => Some((cell.row, cell.column)),
            None => None,
        }
    }

    /// Whether a cell is being edited.
    pub open spec fn editing(self) -> bool {
        self.selected matches Some(cell) && cell.editing is Some
    }

    /// The grid fits the store: the view is valid, it still has the columns
    /// that the header shows, the selection lies inside the grid, and only a
    /// text cell is being edited.
    pub open spec fn wf(self, store: &V::State) -> bool {
        &&& self.view.valid(store)
        &&& self.header.len() <= self.view.spec_columns(store).len()
        &&& in_range(self.spot(), self.view.spec_row_count(store), self.header.len())
        &&& self.selected matches Some(cell) ==> (cell.editing is Some ==> self.view.spec_cell(
            store,
            cell.row as int,
            cell.column as int,
        ) is Text)
    }

    /// The grid with the selection at `spot` and nothing being edited.
    pub open spec fn select(self, spot: Option<Spot>) -> Self {
        Grid {
            selected: match spot {
                Some((row, column)) => Some(Selection { row, column, editing: None }),
                None => None,
            },
            ..self
        }
    }

    /// The grid with what is in the editor replaced by `text`, if a cell is being edited.
    pub open spec fn typed(self, text: Seq<char>) -> Self {
        match self.selected {
            Some(cell) => if cell.editing is Some {
                Grid { selected: Some(Selection { editing: Some(text), ..cell }), ..self }
            } else {
                self
            },
            None => self,
        }
    }

    /// What `key` comes to. Activate on a link asks for the link to be
    /// opened, Back asks to leave the grid, an unbound key is ignored; the
    /// grid acts on every other key itself.
    pub open spec fn outcome(self, store: &V::State, key: Key) -> Outcome {
        match binding(key, self.editing()) {
            None => Outcome::Ignored,
            Some(Command::Back) => Outcome::Back,
            Some(Command::Activate) => match self.selected {
                None => Outcome::Handled,
                Some(cell) => match self.view.spec_cell(store, cell.row as int, cell.column as int) {
                    CellContent::Text(_) => Outcome::Handled,
                    CellContent::Link => Outcome::Open { row: cell.row as usize, column: cell.column as usize },
                },
            },
            Some(_) => Outcome::Handled,
        }
    }

    /// The grid after `key`. A move changes the selection. Activate on a
    /// text cell starts editing, with the text of the cell in the editor.
    /// Commit leaves edit mode with the selection kept. No other key changes
    /// the grid.
    pub open spec fn after(self, store: &V::State, key: Key) -> Self {
        match binding(key, self.editing()) {
            Some(Command::Move(motion)) => self.select(
                moved(self.spot(), motion, self.view.spec_row_count(store), self.header.len()),
            ),
            Some(Command::Activate) => match self.selected {
                None => self,
                Some(cell) => match self.view.spec_cell(store, cell.row as int, cell.column as int) {
                    CellContent::Text(text) => Grid {
                        selected: Some(Selection { editing: Some(text), ..cell }),
                        ..self
                    },
                    CellContent::Link => self,
                },
            },
            Some(Command::Commit) => self.select(self.spot()),
            _ => self,
        }
    }

    /// Whether `key` takes the store to `store_after`. Insert appends a row
    /// through the view where the store has room. Commit saves what is in
    /// the editor to the selected cell. No other key changes the store.
    pub open spec fn store_steps(self, store: &V::State, key: Key, store_after: &V::State) -> bool {
        match binding(key, self.editing()) {
            Some(Command::Insert) => {
                &&& self.view.has_room(store) ==> self.view.row_added(store, store_after)
                &&& !self.view.has_room(store) ==> store_after == store
            },
            Some(Command::Commit) => {
                &&& self.selected matches Some(cell)
                &&& cell.editing matches Some(text)
                &&& self.view.saved(store, store_after, cell.row as int, cell.column as int, text)
            },
            _ => store_after == store,
        }
    }

    /// Whether `key` takes the grid over `store` to `after` over `store_after` with `outcome`.
    pub open spec fn steps(
        self,
        store: &V::State,
        key: Key,
        after: Self,
        store_after: &V::State,
        outcome: Outcome,
    ) -> bool {
        &&& outcome == self.outcome(store, key)
        &&& after == self.after(store, key)
        &&& self.store_steps(store, key, store_after)
    }

    /// Whether `key`, after the editor has seen it, takes the grid to `after`.
    ///
    /// While a cell is edited the key goes to the editor first: the grid
    /// takes over what the editor holds, and decides on the key itself only
    /// if the editor did not take it. Outside edit mode the editor has no say.
    pub open spec fn steps_edited(
        self,
        store: &V::State,
        key: Key,
        consumed: bool,
        text: Seq<char>,
        after: Self,
        store_after: &V::State,
        outcome: Outcome,
    ) -> bool {
        if self.editing() && consumed {
            outcome == Outcome::Handled && after == self.typed(text) && store_after == store
        } else {
            self.typed(text).steps(store, key, after, store_after, outcome)
        }
    }

    /// A key takes a grid that fits its store to a grid that fits the store
    /// as the key left it.
    pub proof fn steps_keep_wf(
        self,
        store: &V::State,
        key: Key,
        after: Self,
        store_after: &V::State,
        outcome: Outcome,
    )
        requires
            self.wf(store),
            self.steps(store, key, after, store_after, outcome),
        ensures
            after.wf(store_after),
            after.view == self.view,
            after.header == self.header,
            after.scroll_offset == self.scroll_offset,
    {
        match binding(key, self.editing()) {
            Some(Command::Insert) => {
                if self.view.has_room(store) {
                    self.view.row_added_keeps(&self.view, store, store_after);
                }
            },
            Some(Command::Commit) => {
                let cell = self.selected->Some_0;
                self.view.saved_keeps(
                    &self.view,
                    store,
                    store_after,
                    cell.row as int,
                    cell.column as int,
                    cell.editing->Some_0,
                );
            },
            _ => {},
        }
    }

    /// An edit made through another view of the same store leaves a grid
    /// that is not editing fit for the store.
    pub proof fn wf_survives_save(
        self,
        by: &V,
        store: &V::State,
        store_after: &V::State,
        row: int,
        column: int,
        text: Seq<char>,
    )
        requires
            self.wf(store),
            !self.editing(),
            by.valid(store),
            0 <= row < by.spec_row_count(store),
            0 <= column < by.spec_columns(store).len(),
            by.spec_cell(store, row, column) is Text,
            by.saved(store, store_after, row, column, text),
        ensures
            self.wf(store_after),
    {
        by.saved_keeps(&self.view, store, store_after, row, column, text);
    }

    /// A row added through another view of the same store leaves a grid
    /// that is not editing fit for the store.
    pub proof fn wf_survives_row(self, by: &V, store: &V::State, store_after: &V::State)
        requires
            self.wf(store),
            !self.editing(),
            by.valid(store),
            by.has_room(store),
            by.row_added(store, store_after),
        ensures
            self.wf(store_after),
    {
        by.row_added_keeps(&self.view, store, store_after);
    }
}

/// The cell that is selected in a grid.
pub struct SelectedCell {
    row: usize,
    column: usize,
    editing: Option<CellUpdate>,
}

impl View for SelectedCell {
    type V = Selection;

    closed spec fn view(&self) -> Selection {
        Selection {
            row: self.row as nat,
            column: self.column as nat,
            editing: match self.editing {
                Some(update) => Some(update@),
                None => None,
            },
        }
    }
}

impl SelectedCell {
    pub fn row(&self) -> (row: usize)
        ensures
            row == self@.row,
    {
        self.row
    }

    pub fn column(&self) -> (column: usize)
        ensures
            column == self@.column,
    {
        self.column
    }
}

/// A view on screen: the view, its headers as they were when it was opened,
/// how far it is scrolled, and the selected cell.
pub struct State<V> {
    view: V,
    columns: Vec<Column>,
    scroll_offset: usize,
    selected_cell: Option<SelectedCell>,
}

impl<V> View for State<V> {
    type V = Grid<V>;

    closed spec fn view(&self) -> Grid<V> {
        Grid {
            view: self.view,
            header: labels(self.columns@),
            scroll_offset: self.scroll_offset as nat,
            selected: match self.selected_cell {
                Some(cell) => Some(cell@),
                None => None,
            },
        }
    }
}

impl<V: TableView> State<V> {
    /// Opens `view`: asks it for its headers once and selects nothing.
    pub fn new(view: V, store: &V::State) -> (state: Self)
        requires
            view.valid(store),
        ensures
            state@ == Grid::opened(view, store),
            state@.wf(store),
    {
        let columns = view.columns(store);
        State { view, columns, scroll_offset: 0, selected_cell: None }
    }

    /// Whether a cell is being edited.
    pub fn is_editing(&self) -> (editing: bool)
        ensures
            editing == self@.editing(),
    {
        match &self.selected_cell {
            Some(cell) => cell.editing.is_some(),
            None => false,
        }
    }

    /// The view that the grid shows.
    pub fn shown(&self) -> (view: &V)
        ensures
            *view == self@.view,
    {
        &self.view
    }

    /// The headers, as they were when the view was opened.
    pub fn columns(&self) -> (headers: &Vec<Column>)
        ensures
            labels(headers@) == self@.header,
    {
        &self.columns
    }

    /// The number of rows that are scrolled out of sight above the first visible one.
    pub fn scroll_offset(&self) -> (offset: usize)
        ensures
            offset == self@.scroll_offset,
    {
        self.scroll_offset
    }

    /// Scrolls so that `offset` rows are out of sight above the first visible one.
    pub fn set_scroll_offset(&mut self, offset: usize)
        ensures
            final(self)@ == (Grid { scroll_offset: offset as nat, ..old(self)@ }),
    {
        self.scroll_offset = offset;
    }

    /// The selected position: row, then column.
    pub fn selection(&self) -> (cell: Option<(usize, usize)>)
        ensures
            spot_of(cell) == self@.spot(),
    {
        match &self.selected_cell {
            Some(cell) => Some((cell.row, cell.column)),
            None => None,
        }
    }

    /// What is in the editor, while a cell is being edited.
    pub fn edit_text(&self) -> (text: Option<String>)
        ensures
            match text {
                Some(text) => self@.selected matches Some(cell) && cell.editing == Some(text@),
                None => !self@.editing(),
            },
    {
        match &self.selected_cell {
            Some(cell) => match &cell.editing {
                Some(CellUpdate::Text(text)) => Some(text.clone()),
                None => None,
            },
            None => None,
        }
    }

    /// Replaces what is in the editor by `text`. Outside edit mode nothing changes.
    pub fn set_edit_text(&mut self, text: String)
        ensures
            final(self)@ == old(self)@.typed(text@),
    {
        if let Some(cell) = &mut self.selected_cell {
            if cell.editing.is_some() {
                cell.editing = Some(CellUpdate::Text(text));
            }
        }
    }

    /// The child view behind the link at `row` and `column`.
    pub fn open_cell(&mut self, store: &mut V::State, row: usize, column: usize) -> (child: V)
        requires
            old(self)@.view.valid(old(store)),
            row < old(self)@.view.spec_row_count(old(store)),
            column < old(self)@.view.spec_columns(old(store)).len(),
            old(self)@.view.spec_cell(old(store), row as int, column as int) is Link,
        ensures
            final(self)@ == old(self)@,
            *final(store) == *old(store),
            child == old(self)@.view.spec_open_cell(old(store), row as int, column as int),
            child.valid(final(store)),
    {
        self.view.open_cell(store, row, column)
    }

    /// Acts on `key` as the grid's own bindings say.
    pub fn handle_key(&mut self, store: &mut V::State, key: Key) -> (outcome: Outcome)
        requires
            old(self)@.wf(old(store)),
        ensures
            old(self)@.steps(old(store), key, final(self)@, final(store), outcome),
            final(self)@.wf(final(store)),
    {
        let ghost before = self@;
        let outcome = match command(key, self.is_editing()) {
            None => Outcome::Ignored,
            Some(Command::Back) => Outcome::Back,
            Some(Command::Move(motion)) => {
                let rows = self.view.row_count(store);
                let cell = match &self.selected_cell {
                    Some(cell) => Some((cell.row, cell.column)),
                    None => None,
                };
                self.selected_cell = match move_cell(cell, motion, rows, self.columns.len()) {
                    Some((row, column)) => Some(SelectedCell { row, column, editing: None }),
                    None => None,
                };
                Outcome::Handled
            },
            Some(Command::Insert) => {
                self.view.new_row(store);
                Outcome::Handled
            },
            Some(Command::Activate) => match &mut self.selected_cell {
                None => Outcome::Handled,
                Some(cell) => match self.view.cell(store, cell.row, cell.column) {
                    Cell::Text(text) => {
                        cell.editing = Some(CellUpdate::Text(text));
                        Outcome::Handled
                    },
                    Cell::Link => Outcome::Open { row: cell.row, column: cell.column },
                },
            },
            Some(Command::Commit) => {
                if let Some(cell) = &mut self.selected_cell {
                    if let Some(update) = cell.editing.take() {
                        self.view.save_cell(store, cell.row, cell.column, update);
                    }
                }
                Outcome::Handled
            },
        };
        proof {
            before.steps_keep_wf(old(store), key, self@, store, outcome);
        }
        outcome
    }

    /// Acts on `key` after the embedded editor has seen it and answered `reply`.
    pub fn handle_edited_key(&mut self, store: &mut V::State, key: Key, reply: EditorReply) -> (outcome: Outcome)
        requires
            old(self)@.wf(old(store)),
        ensures
            old(self)@.steps_edited(
                old(store),
                key,
                reply.consumed,
                reply.text@,
                final(self)@,
                final(store),
                outcome,
            ),
            final(self)@.wf(final(store)),
    {
        let consumed = reply.consumed && self.is_editing();
        self.set_edit_text(reply.text);
        if consumed {
            Outcome::Handled
        } else {
            self.handle_key(store, key)
        }
    }

    /// Acts on a key event of the terminal. `reply` is what the embedded
    /// editor answered, if the event was handed to it. The event is read as
    /// some key, and the grid acts on that key.
    pub fn handle_key_event(&mut self, store: &mut V::State, event: &KeyEvent, reply: Option<EditorReply>) -> (outcome: Outcome)
        requires
            old(self)@.wf(old(store)),
        ensures
            reply is None ==> old(self)@.steps(
                old(store),
                event_key(*event),
                final(self)@,
                final(store),
                outcome,
            ),
            reply matches Some(reply) ==> old(self)@.steps_edited(
                old(store),
                event_key(*event),
                reply.consumed,
                reply.text@,
                final(self)@,
                final(store),
                outcome,
            ),
            final(self)@.wf(final(store)),
    {
        let key = key_of(event);
        match reply {
            Some(reply) => self.handle_edited_key(store, key, reply),
            None => self.handle_key(store, key),
        }
    }
}

/// The piece that shows a cell which is not being edited.
pub open spec fn cell_piece(content: CellContent, area: Area, selected: bool) -> PieceModel {
    match content {
        CellContent::Text(text) => PieceModel { area, text, kind: PieceKind::Text, selected },
        CellContent::Link => PieceModel { area, text: link_text(), kind: PieceKind::Link, selected },
    }
}

impl<V: TableView> Grid<V> {
    /// The number of rows on screen when the grid is drawn into `bounds`
    /// under a header of one row.
    pub open spec fn visible(self, store: &V::State, bounds: Area) -> nat {
        spec_visible_rows(self.view.spec_row_count(store), self.scroll_offset, bounds.spec_body_height())
    }

    /// The piece in `line` of `column`, where the column has been given
    /// `column_area`. Line 0 is the header; line `k` below it shows row
    /// `scroll_offset + k - 1`. The selected cell is marked, and shows the
    /// editor in place of its text while it is being edited.
    pub open spec fn piece(
        self,
        store: &V::State,
        column_area: Area,
        bounds: Area,
        column: int,
        line: int,
    ) -> PieceModel {
        let area = column_area.spec_strip(bounds, line as nat);
        if line == 0 {
            PieceModel { area, text: self.header[column], kind: PieceKind::Header, selected: false }
        } else {
            let row = self.scroll_offset + line - 1;
            let selected = self.spot() == Some((row as nat, column as nat));
            if selected && self.editing() {
                PieceModel {
                    area,
                    text: self.selected->Some_0.editing->Some_0,
                    kind: PieceKind::Editor,
                    selected,
                }
            } else {
                cell_piece(self.view.spec_cell(store, row, column), area, selected)
            }
        }
    }

    /// What the grid shows in `bounds` when its columns have been given
    /// `areas`: for each column its header and the visible rows below it.
    pub open spec fn frame(self, store: &V::State, areas: Seq<Area>, bounds: Area) -> Seq<Seq<PieceModel>> {
        Seq::new(
            self.header.len(),
            |c: int| Seq::new(1 + self.visible(store, bounds), |k: int| self.piece(store, areas[c], bounds, c, k)),
        )
    }

    /// Nothing is drawn outside the bounds: every piece of a frame lies in them.
    pub proof fn frame_stays_inside(self, store: &V::State, areas: Seq<Area>, bounds: Area, column: int, line: int)
        requires
            0 <= column < self.header.len(),
            0 <= line <= self.visible(store, bounds),
        ensures
            bounds.holds(self.frame(store, areas, bounds)[column][line].area),
    {
        strip_stays_inside(areas[column], bounds, line as nat);
    }
}

impl<V: TableView> State<V> {
    /// The piece that shows the cell at `row` and `column` in `area`.
    fn cell_piece(&self, store: &V::State, row: usize, column: usize, area: Area) -> (piece: Piece)
        requires
            self@.wf(store),
            row < self@.view.spec_row_count(store),
            column < self@.header.len(),
        ensures
            area == piece@.area,
            piece@ == (if self@.spot() == Some((row as nat, column as nat)) && self@.editing() {
                PieceModel {
                    area,
                    text: self@.selected->Some_0.editing->Some_0,
                    kind: PieceKind::Editor,
                    selected: true,
                }
            } else {
                cell_piece(
                    self@.view.spec_cell(store, row as int, column as int),
                    area,
                    self@.spot() == Some((row as nat, column as nat)),
                )
            }),
    {
        let selected = match &self.selected_cell {
            Some(cell) => cell.row == row && cell.column == column,
            None => false,
        };
        if selected {
            if let Some(cell) = &self.selected_cell {
                if let Some(CellUpdate::Text(text)) = &cell.editing {
                    return Piece { area, text: text.clone(), kind: PieceKind::Editor, selected };
                }
            }
        }
        match self.view.cell(store, row, column) {
            Cell::Text(text) => Piece { area, text, kind: PieceKind::Text, selected },
            Cell::Link => Piece { area, text: link_word(), kind: PieceKind::Link, selected },
        }
    }

    /// Plans a frame in `bounds` for columns that have been given `areas`.
    pub fn frame_in(&self, store: &V::State, bounds: Area, areas: &Vec<Area>) -> (frame: Frame)
        requires
            self@.wf(store),
            areas@.len() == self@.header.len(),
        ensures
            frame@ == self@.frame(store, areas@, bounds),
    {
        let rows = self.view.row_count(store);
        let visible = visible_rows(rows, self.scroll_offset, bounds.body_height() as usize);
        let mut columns: Vec<Vec<Piece>> = Vec::new();
        let mut c: usize = 0;
        while c < self.columns.len()
            invariant
                self@.wf(store),
                areas@.len() == self@.header.len(),
                self.columns@.len() == self@.header.len(),
                rows == self@.view.spec_row_count(store),
                visible == self@.visible(store, bounds),
                c <= self.columns@.len(),
                columns@.len() == c,
                forall|j: int|
                    0 <= j < c ==> {
                        &&& (#[trigger] columns@[j])@.len() == 1 + visible
                        &&& forall|k: int|
                            0 <= k <= visible ==> (#[trigger] columns@[j]@[k])@ == self@.piece(
                                store,
                                areas@[j],
                                bounds,
                                j,
                                k,
                            )
                    },
            decreases self.columns@.len() - c,
        {
            let mut pieces: Vec<Piece> = Vec::new();
            pieces.push(
                Piece {
                    area: areas[c].strip(bounds, 0),
                    text: self.columns[c].label.clone(),
                    kind: PieceKind::Header,
                    selected: false,
                },
            );
            let mut i: usize = 0;
            while i < visible
                invariant
                    self@.wf(store),
                    c < self.columns@.len(),
                    areas@.len() == self@.header.len(),
                    self.columns@.len() == self@.header.len(),
                    rows == self@.view.spec_row_count(store),
                    visible == self@.visible(store, bounds),
                    i <= visible,
                    pieces@.len() == 1 + i,
                    forall|k: int|
                        0 <= k <= i ==> (#[trigger] pieces@[k])@ == self@.piece(store, areas@[c as int], bounds, c as int, k),
                decreases visible - i,
            {
                let row = self.scroll_offset + i;
                let line = (i + 1) as u16;
                let piece = self.cell_piece(store, row, c, areas[c].strip(bounds, line));
                pieces.push(piece);
                i += 1;
            }
            columns.push(pieces);
            c += 1;
        }
        let frame = Frame { columns };
        assert(frame@ =~~= self@.frame(store, areas@, bounds));
        frame
    }

    /// Plans a frame in `bounds`: splits `bounds` into one column for each
    /// header and shows the grid in those columns, whatever they are.
    pub fn frame(&self, store: &V::State, bounds: Area) -> (frame: Frame)
        requires
            self@.wf(store),
        ensures
            exists|areas: Seq<Area>|
                areas.len() == self@.header.len() && frame@ == self@.frame(store, areas, bounds),
    {
        let shares = equal_shares(self.columns.len());
        let areas = split_columns(bounds, &shares);
        self.frame_in(store, bounds, &areas)
    }
}

impl<V: TableView> Grid<V> {
    /// An edit goes round: activating a selected text cell starts editing
    /// with the text of the cell in the editor; when the editor then holds
    /// `text` and the edit is committed, just `text` is saved to the
    /// selected cell, and the grid is as it was before the edit, with the
    /// same cell selected.
    pub proof fn edit_commits_text(self, store: &V::State, text: Seq<char>, store_after: &V::State)
        requires
            self.wf(store),
            self.selected is Some,
            !self.editing(),
            self.view.spec_cell(
                store,
                self.selected->Some_0.row as int,
                self.selected->Some_0.column as int,
            ) is Text,
            self.after(store, Key::Enter).typed(text).store_steps(store, Key::Esc, store_after),
        ensures
            self.outcome(store, Key::Enter) == Outcome::Handled,
            self.store_steps(store, Key::Enter, store),
            self.after(store, Key::Enter).selected->Some_0.editing == Some(
                self.view.spec_cell(
                    store,
                    self.selected->Some_0.row as int,
                    self.selected->Some_0.column as int,
                )->Text_0,
            ),
            self.after(store, Key::Enter).typed(text).outcome(store, Key::Esc) == Outcome::Handled,
            self.after(store, Key::Enter).typed(text).after(store, Key::Esc) == self,
            self.view.saved(
                store,
                store_after,
                self.selected->Some_0.row as int,
                self.selected->Some_0.column as int,
                text,
            ),
    {
    }

    /// Only a commit or an insertion touches the store: any other key
    /// leaves it as it is, whatever is in the editor.
    pub proof fn other_keys_keep_store(self, store: &V::State, key: Key, store_after: &V::State)
        requires
            self.store_steps(store, key, store_after),
            !(binding(key, self.editing()) matches Some(Command::Commit)),
            !(binding(key, self.editing()) matches Some(Command::Insert)),
        ensures
            store_after == store,
    {
    }
}

} // verus!
