//! A small columnar store, and the views that present it as grids.
use crate::text::bool_text;
use crate::text::format_bool;
use crate::text::format_int;
use crate::text::int_text;
use crate::text::parse_bool;
use crate::text::parse_int;
use crate::text::text_bool;
use crate::text::text_i64;
use crate::Cell;
use crate::CellContent;
use crate::CellUpdate;
use crate::TableView;
use vstd::pervasive::unreached;
use vstd::prelude::*;
use vstd::string::*;

verus! {

/// The type of the values in a column.
#[derive(Clone, Copy, Debug, PartialEq, Eq, Structural)]
pub enum ColumnKind {
    Bool,
    Int,
    Text,
}

/// The values of a column, one for each row, as a mathematical value.
pub enum ColumnData {
    Bool(Seq<bool>),
    Int(Seq<i64>),
    Text(Seq<Seq<char>>),
}

impl ColumnData {
    pub open spec fn len(self) -> nat {
        match self {
            ColumnData::Bool(values) => values.len(),
            ColumnData::Int(values) => values.len(),
            ColumnData::Text(values) => values.len(),
        }
    }

    pub open spec fn kind(self) -> ColumnKind {
        match self {
            ColumnData::Bool(_) => ColumnKind::Bool,
            ColumnData::Int(_) => ColumnKind::Int,
            ColumnData::Text(_) => ColumnKind::Text,
        }
    }

    /// `rows` values of `kind`, each the default of its type: `false`, 0 or the empty text.
    pub open spec fn defaults(kind: ColumnKind, rows: nat) -> Self {
        match kind {
            ColumnKind::Bool => ColumnData::Bool(Seq::new(rows, |i: int| false)),
            ColumnKind::Int => ColumnData::Int(Seq::new(rows, |i: int| 0i64)),
            ColumnKind::Text => ColumnData::Text(Seq::new(rows, |i: int| Seq::<char>::empty())),
        }
    }

    /// The values with the default of their type appended.
    pub open spec fn grown(self) -> Self {
        match self {
            ColumnData::Bool(values) => ColumnData::Bool(values.push(false)),
            ColumnData::Int(values) => ColumnData::Int(values.push(0i64)),
            ColumnData::Text(values) => ColumnData::Text(values.push(Seq::<char>::empty())),
        }
    }

    /// The value in `row` as text.
    pub open spec fn text_at(self, row: int) -> Seq<char> {
        match self {
            ColumnData::Bool(values) => bool_text(values[row]),
            ColumnData::Int(values) => int_text(values[row] as int),
            ColumnData::Text(values) => values[row],
        }
    }

    /// Whether `text` spells a value of the type of the column. Every text
    /// is a value of a text column.
    pub open spec fn spells(self, text: Seq<char>) -> bool {
        match self {
            ColumnData::Bool(_) => text_bool(text) is Some,
            ColumnData::Int(_) => text_i64(text) is Some,
            ColumnData::Text(_) => true,
        }
    }

    /// The values after `text` has been entered in `row`: the value that
    /// `text` spells in the type of the column takes the place of the old
    /// one. A text that spells no such value changes nothing.
    pub open spec fn with_text(self, row: int, text: Seq<char>) -> Self {
        match self {
            ColumnData::Bool(values) => match text_bool(text) {
                Some(value) => ColumnData::Bool(values.update(row, value)),
                None => self,
            },
            ColumnData::Int(values) => match text_i64(text) {
                Some(value) => ColumnData::Int(values.update(row, value)),
                None => self,
            },
            ColumnData::Text(values) => ColumnData::Text(values.update(row, text)),
        }
    }
}

/// A column as a mathematical value.
pub struct ColumnModel {
    pub name: Seq<char>,
    pub data: ColumnData,
}

impl ColumnModel {
    /// A new column of `kind` for a table of `rows` rows: no name, every value the default.
    pub open spec fn fresh(kind: ColumnKind, rows: nat) -> Self {
        ColumnModel { name: Seq::empty(), data: ColumnData::defaults(kind, rows) }
    }
}

/// A table as a mathematical value.
pub struct TableModel {
    pub id: u32,
    pub name: Seq<char>,
    /// The identity of each row, in the order in which the columns hold the rows.
    pub row_ids: Seq<u32>,
    /// The identity that the next new row gets.
    pub next_row_id: u32,
    pub columns: Seq<ColumnModel>,
    /// The order in which the rows are displayed: positions of rows.
    pub sort_index: Seq<u32>,
}

impl TableModel {
    /// A new table: no name, no columns, no rows.
    pub open spec fn empty(id: u32) -> Self {
        TableModel {
            id,
            name: Seq::empty(),
            row_ids: Seq::empty(),
            next_row_id: 0,
            columns: Seq::empty(),
            sort_index: Seq::empty(),
        }
    }

    pub open spec fn rows(self) -> nat {
        self.row_ids.len()
    }

    /// Every column holds one value for each row; the row identities ascend
    /// and were all handed out by the counter; the display order names each
    /// row once.
    pub open spec fn wf(self) -> bool {
        &&& forall|c: int| 0 <= c < self.columns.len() ==> (#[trigger] self.columns[c]).data.len() == self.rows()
        &&& forall|i: int, j: int| 0 <= i < j < self.rows() ==> self.row_ids[i] < self.row_ids[j]
        &&& forall|i: int| 0 <= i < self.rows() ==> (#[trigger] self.row_ids[i]) < self.next_row_id
        &&& self.sort_index.len() == self.rows()
        &&& forall|i: int| 0 <= i < self.rows() ==> (#[trigger] self.sort_index[i]) < self.rows()
        &&& forall|i: int, j: int| 0 <= i < j < self.rows() ==> self.sort_index[i] != self.sort_index[j]
    }

    pub open spec fn renamed(self, name: Seq<char>) -> Self {
        TableModel { name, ..self }
    }

    pub open spec fn with_column_name(self, column: int, name: Seq<char>) -> Self {
        TableModel { columns: self.columns.update(column, ColumnModel { name, ..self.columns[column] }), ..self }
    }

    /// The table with a new column of `kind` after its columns.
    pub open spec fn with_column(self, kind: ColumnKind) -> Self {
        TableModel { columns: self.columns.push(ColumnModel::fresh(kind, self.rows())), ..self }
    }

    /// The table with a new row after its rows: the row gets the next
    /// identity, every column the default of its type, and the row is
    /// displayed last.
    pub open spec fn with_row(self) -> Self {
        TableModel {
            row_ids: self.row_ids.push(self.next_row_id),
            next_row_id: (self.next_row_id + 1) as u32,
            columns: Seq::new(
                self.columns.len(),
                |c: int| ColumnModel { data: self.columns[c].data.grown(), ..self.columns[c] },
            ),
            sort_index: self.sort_index.push(self.rows() as u32),
            ..self
        }
    }

    /// The table after `text` has been entered in the cell at `row` and `column`.
    pub open spec fn with_text(self, row: int, column: int, text: Seq<char>) -> Self {
        TableModel {
            columns: self.columns.update(
                column,
                ColumnModel { data: self.columns[column].data.with_text(row, text), ..self.columns[column] },
            ),
            ..self
        }
    }

    /// The names of the columns.
    pub open spec fn column_names(self) -> Seq<Seq<char>> {
        Seq::new(self.columns.len(), |c: int| self.columns[c].name)
    }
}

/// The store as a mathematical value.
pub struct DatabaseModel {
    /// The tables, in the order of their creation.
    pub tables: Seq<TableModel>,
    /// The identity that the next new table gets.
    pub next_table_id: u32,
}

impl DatabaseModel {
    pub open spec fn empty() -> Self {
        DatabaseModel { tables: Seq::empty(), next_table_id: 0 }
    }

    /// Every table is well formed; the table identities ascend and were all
    /// handed out by the counter.
    pub open spec fn wf(self) -> bool {
        &&& forall|t: int| 0 <= t < self.tables.len() ==> (#[trigger] self.tables[t]).wf()
        &&& forall|s: int, t: int| 0 <= s < t < self.tables.len() ==> self.tables[s].id < self.tables[t].id
        &&& forall|t: int| 0 <= t < self.tables.len() ==> (#[trigger] self.tables[t]).id < self.next_table_id
    }

    /// The store with a new, empty table after its tables.
    pub open spec fn with_table(self) -> Self {
        DatabaseModel {
            tables: self.tables.push(TableModel::empty(self.next_table_id)),
            next_table_id: (self.next_table_id + 1) as u32,
        }
    }

    /// The store with `table` in place of the table at `index`.
    pub open spec fn put(self, index: int, table: TableModel) -> Self {
        DatabaseModel { tables: self.tables.update(index, table), ..self }
    }

    /// Whether `after` is this store with one table changed in a way that
    /// keeps its identity and keeps it well formed.
    pub open spec fn changed_at(self, index: int, after: Self) -> bool {
        &&& 0 <= index < self.tables.len()
        &&& after == self.put(index, after.tables[index])
        &&& after.tables[index].id == self.tables[index].id
        &&& after.tables[index].wf()
    }

    /// A change to one table that keeps its identity and keeps it well
    /// formed keeps the store well formed.
    pub proof fn changed_at_keeps_wf(self, index: int, after: Self)
        requires
            self.wf(),
            self.changed_at(index, after),
        ensures
            after.wf(),
            after.tables.len() == self.tables.len(),
    {
        assert forall|t: int| 0 <= t < after.tables.len() implies (#[trigger] after.tables[t]).wf() && after.tables[t].id
            == self.tables[t].id by {
            if t != index {
                assert(after.tables[t] == self.tables[t]);
            }
        }
    }
}

/// A new row keeps a table well formed while the counter has an identity left.
pub proof fn with_row_keeps_wf(table: TableModel)
    requires
        table.wf(),
        table.next_row_id < u32::MAX,
    ensures
        table.with_row().wf(),
        table.with_row().rows() == table.rows() + 1,
        table.rows() < u32::MAX,
{
    rows_below_counter(table, table.rows() as int);
    let after = table.with_row();
    assert forall|i: int, j: int| 0 <= i < j < after.rows() implies after.sort_index[i] != after.sort_index[j] by {
        if j < table.rows() {
            assert(table.sort_index[i] != table.sort_index[j]);
        } else {
            assert(table.sort_index[i] < table.rows());
        }
    }
    assert forall|i: int, j: int| 0 <= i < j < after.rows() implies after.row_ids[i] < after.row_ids[j] by {
        if j < table.rows() {
            assert(table.row_ids[i] < table.row_ids[j]);
        } else {
            assert(table.row_ids[i] < table.next_row_id);
        }
    }
}

/// Ascending identities below the counter: the first `count` rows leave at
/// least `count` identities below the counter used.
pub proof fn rows_below_counter(table: TableModel, count: int)
    requires
        table.wf(),
        0 <= count <= table.rows(),
    ensures
        count <= table.next_row_id,
        count > 0 ==> count - 1 <= table.row_ids[count - 1],
    decreases count,
{
    if count > 1 {
        rows_below_counter(table, count - 1);
        assert(table.row_ids[count - 2] < table.row_ids[count - 1]);
    }
    if count > 0 {
        assert(table.row_ids[count - 1] < table.next_row_id);
    }
}

/// The values of a column, one vector for each type.
enum ColumnContent {
    Bool(Vec<bool>),
    Int(Vec<i64>),
    Text(Vec<String>),
}

impl View for ColumnContent {
    type V = ColumnData;

    closed spec fn view(&self) -> ColumnData {
        match self {
            ColumnContent::Bool(values) => ColumnData::Bool(values@),
            ColumnContent::Int(values) => ColumnData::Int(values@),
            ColumnContent::Text(values) => ColumnData::Text(Seq::new(values@.len(), |i: int| values@[i]@)),
        }
    }
}

impl ColumnContent {
    fn defaults(kind: ColumnKind, rows: usize) -> (content: Self)
        ensures
            content@ == ColumnData::defaults(kind, rows as nat),
    {
        match kind {
            ColumnKind::Bool => {
                let mut values: Vec<bool> = Vec::new();
                while values.len() < rows
                    invariant
                        values@.len() <= rows,
                        forall|i: int| 0 <= i < values@.len() ==> values@[i] == false,
                    decreases rows - values@.len(),
                {
                    values.push(false);
                }
                assert(values@ =~= Seq::new(rows as nat, |i: int| false));
                ColumnContent::Bool(values)
            },
            ColumnKind::Int => {
                let mut values: Vec<i64> = Vec::new();
                while values.len() < rows
                    invariant
                        values@.len() <= rows,
                        forall|i: int| 0 <= i < values@.len() ==> values@[i] == 0,
                    decreases rows - values@.len(),
                {
                    values.push(0);
                }
                assert(values@ =~= Seq::new(rows as nat, |i: int| 0i64));
                ColumnContent::Int(values)
            },
            ColumnKind::Text => {
                let mut values: Vec<String> = Vec::new();
                while values.len() < rows
                    invariant
                        values@.len() <= rows,
                        forall|i: int| 0 <= i < values@.len() ==> values@[i]@ == Seq::<char>::empty(),
                    decreases rows - values@.len(),
                {
                    values.push(String::new());
                }
                let content = ColumnContent::Text(values);
                assert(content@->Text_0 =~= Seq::new(rows as nat, |i: int| Seq::<char>::empty()));
                content
            },
        }
    }

    fn len(&self) -> (len: usize)
        ensures
            len == self@.len(),
    {
        match self {
            ColumnContent::Bool(values) => values.len(),
            ColumnContent::Int(values) => values.len(),
            ColumnContent::Text(values) => values.len(),
        }
    }

    fn kind(&self) -> (kind: ColumnKind)
        ensures
            kind == self@.kind(),
    {
        match self {
            ColumnContent::Bool(_) => ColumnKind::Bool,
            ColumnContent::Int(_) => ColumnKind::Int,
            ColumnContent::Text(_) => ColumnKind::Text,
        }
    }

    fn grow(&mut self)
        ensures
            final(self)@ == old(self)@.grown(),
    {
        match self {
            ColumnContent::Bool(values) => {
                values.push(false);
            },
            ColumnContent::Int(values) => {
                values.push(0);
            },
            ColumnContent::Text(values) => {
                values.push(String::new());
                assert(Seq::new(values@.len(), |i: int| values@[i]@) =~= Seq::new(
                    old(self)->Text_0@.len(),
                    |i: int| old(self)->Text_0@[i]@,
                ).push(Seq::<char>::empty()));
            },
        }
    }

    fn text_at(&self, row: usize) -> (text: String)
        requires
            row < self@.len(),
        ensures
            text@ == self@.text_at(row as int),
    {
        match self {
            ColumnContent::Bool(values) => format_bool(values[row]),
            ColumnContent::Int(values) => format_int(values[row]),
            ColumnContent::Text(values) => values[row].clone(),
        }
    }

    fn enter(&mut self, row: usize, text: String) -> (stored: bool)
        requires
            row < old(self)@.len(),
        ensures
            final(self)@ == old(self)@.with_text(row as int, text@),
            stored == old(self)@.spells(text@),
    {
        match self {
            ColumnContent::Bool(values) => {
                match parse_bool(text.as_str()) {
                    Some(value) => {
                        values.set(row, value);
                        true
                    },
                    None => false,
                }
            },
            ColumnContent::Int(values) => {
                match parse_int(text.as_str()) {
                    Some(value) => {
                        values.set(row, value);
                        true
                    },
                    None => false,
                }
            },
            ColumnContent::Text(values) => {
                let ghost entered = text@;
                values.set(row, text);
                assert(Seq::new(values@.len(), |i: int| values@[i]@) =~= Seq::new(
                    old(self)->Text_0@.len(),
                    |i: int| old(self)->Text_0@[i]@,
                ).update(row as int, entered));
                true
            },
        }
    }
}

/// A column of a table: a name and one value for each row.
pub struct Column {
    name: String,
    content: ColumnContent,
}

impl View for Column {
    type V = ColumnModel;

    closed spec fn view(&self) -> ColumnModel {
        ColumnModel { name: self.name@, data: self.content@ }
    }
}

impl Column {
    pub fn name(&self) -> (name: &str)
        ensures
            name@ == self@.name,
    {
        self.name.as_str()
    }

    pub fn kind(&self) -> (kind: ColumnKind)
        ensures
            kind == self@.data.kind(),
    {
        self.content.kind()
    }

    /// The number of values, one for each row of the table.
    pub fn len(&self) -> (len: usize)
        ensures
            len == self@.data.len(),
    {
        self.content.len()
    }

    /// The value in `row` as text.
    pub fn text_at(&self, row: usize) -> (text: String)
        requires
            row < self@.data.len(),
        ensures
            text@ == self@.data.text_at(row as int),
    {
        self.content.text_at(row)
    }
}

/// A table: columns of typed values, and a stable identity for each row.
pub struct Table {
    id: u32,
    name: String,
    /// Always ascending. The rows stand in the columns in the order of their identities here.
    row_ids: Vec<u32>,
    next_row_id: u32,
    columns: Vec<Column>,
    sort_index: Vec<u32>,
}

impl View for Table {
    type V = TableModel;

    closed spec fn view(&self) -> TableModel {
        TableModel {
            id: self.id,
            name: self.name@,
            row_ids: self.row_ids@,
            next_row_id: self.next_row_id,
            columns: Seq::new(self.columns@.len(), |c: int| self.columns@[c]@),
            sort_index: self.sort_index@,
        }
    }
}

impl Table {
    /// A table has no more rows and columns than its vectors can hold.
    pub proof fn lengths_fit(&self)
        ensures
            self@.rows() <= usize::MAX,
            self@.columns.len() <= usize::MAX,
    {
        assert(self@.rows() == self.row_ids.len());
        assert(self@.columns.len() == self.columns.len());
    }

    fn new(id: u32) -> (table: Self)
        ensures
            table@ == TableModel::empty(id),
    {
        let table = Table {
            id,
            name: String::new(),
            row_ids: Vec::new(),
            next_row_id: 0,
            columns: Vec::new(),
            sort_index: Vec::new(),
        };
        assert(table@.columns =~= Seq::empty());
        table
    }

    pub fn id(&self) -> (id: u32)
        ensures
            id == self@.id,
    {
        self.id
    }

    pub fn name(&self) -> (name: &str)
        ensures
            name@ == self@.name,
    {
        self.name.as_str()
    }

    pub fn row_count(&self) -> (count: usize)
        ensures
            count == self@.rows(),
    {
        self.row_ids.len()
    }

    /// The identity of the row at `row`.
    pub fn row_id(&self, row: usize) -> (id: u32)
        requires
            row < self@.rows(),
        ensures
            id == self@.row_ids[row as int],
    {
        self.row_ids[row]
    }

    pub fn column_count(&self) -> (count: usize)
        ensures
            count == self@.columns.len(),
    {
        self.columns.len()
    }

    pub fn column(&self, index: usize) -> (column: &Column)
        requires
            index < self@.columns.len(),
        ensures
            column@ == self@.columns[index as int],
    {
        &self.columns[index]
    }

    /// The position of the row that is displayed at `place`.
    pub fn displayed_row(&self, place: usize) -> (row: u32)
        requires
            place < self@.sort_index.len(),
        ensures
            row == self@.sort_index[place as int],
    {
        self.sort_index[place]
    }

    fn add_column(&mut self, kind: ColumnKind)
        ensures
            final(self)@ == old(self)@.with_column(kind),
    {
        let content = ColumnContent::defaults(kind, self.row_ids.len());
        self.columns.push(Column { name: String::new(), content });
        assert(self@.columns =~= old(self)@.with_column(kind).columns);
    }

    fn insert_row(&mut self)
        requires
            old(self)@.wf(),
            old(self)@.next_row_id < u32::MAX,
        ensures
            final(self)@ == old(self)@.with_row(),
    {
        let ghost before = self@;
        proof {
            with_row_keeps_wf(before);
        }
        let place = self.row_ids.len() as u32;
        self.row_ids.push(self.next_row_id);
        self.next_row_id = self.next_row_id + 1;
        self.sort_index.push(place);
        let mut c: usize = 0;
        while c < self.columns.len()
            invariant
                c <= self.columns@.len(),
                self.columns@.len() == before.columns.len(),
                forall|j: int| 0 <= j < c ==> (#[trigger] self.columns@[j])@ == before.with_row().columns[j],
                forall|j: int| c <= j < self.columns@.len() ==> (#[trigger] self.columns@[j])@ == before.columns[j],
                self.id == before.id,
                self.name@ == before.name,
                self.row_ids@ == before.with_row().row_ids,
                self.next_row_id == before.with_row().next_row_id,
                self.sort_index@ == before.with_row().sort_index,
            decreases self.columns@.len() - c,
        {
            self.columns[c].content.grow();
            c += 1;
        }
        assert(self@.columns =~= before.with_row().columns);
    }
}

/// The store: an ordered collection of tables.
pub struct Database {
    tables: Vec<Table>,
    next_table_id: u32,
}

impl View for Database {
    type V = DatabaseModel;

    closed spec fn view(&self) -> DatabaseModel {
        DatabaseModel {
            tables: Seq::new(self.tables@.len(), |t: int| self.tables@[t]@),
            next_table_id: self.next_table_id,
        }
    }
}

impl Default for Database {
    fn default() -> (database: Self)
        ensures
            database@ == DatabaseModel::empty(),
            database@.wf(),
    {
        Database::new()
    }
}

impl Database {
    /// A store has no more tables than a vector can hold, and none of its
    /// tables has more rows or columns than that.
    pub proof fn lengths_fit(&self)
        ensures
            self@.tables.len() <= usize::MAX,
            forall|t: int|
                0 <= t < self@.tables.len() ==> {
                    &&& (#[trigger] self@.tables[t]).rows() <= usize::MAX
                    &&& self@.tables[t].columns.len() <= usize::MAX
                },
    {
        assert(self@.tables.len() == self.tables.len());
        assert forall|t: int| 0 <= t < self@.tables.len() implies {
            &&& (#[trigger] self@.tables[t]).rows() <= usize::MAX
            &&& self@.tables[t].columns.len() <= usize::MAX
        } by {
            self.tables@[t].lengths_fit();
        }
    }

    /// A store without tables.
    pub fn new() -> (database: Self)
        ensures
            database@ == DatabaseModel::empty(),
            database@.wf(),
    {
        let database = Database { tables: Vec::new(), next_table_id: 0 };
        assert(database@.tables =~= Seq::empty());
        database
    }

    pub fn table_count(&self) -> (count: usize)
        ensures
            count == self@.tables.len(),
    {
        self.tables.len()
    }

    pub fn table(&self, index: usize) -> (table: &Table)
        requires
            index < self@.tables.len(),
        ensures
            table@ == self@.tables[index as int],
    {
        &self.tables[index]
    }

    /// Whether the counter has an identity left for another table.
    pub fn has_room(&self) -> (room: bool)
        ensures
            room == (self@.next_table_id < u32::MAX),
    {
        self.next_table_id < u32::MAX
    }

    /// Appends an empty table with a fresh identity.
    pub fn create_table(&mut self)
        requires
            old(self)@.wf(),
            old(self)@.next_table_id < u32::MAX,
        ensures
            final(self)@ == old(self)@.with_table(),
            final(self)@.wf(),
    {
        self.tables.push(Table::new(self.next_table_id));
        self.next_table_id = self.next_table_id + 1;
        assert(self@.tables =~= old(self)@.with_table().tables);
    }

    pub fn rename_table(&mut self, index: usize, name: String)
        requires
            old(self)@.wf(),
            index < old(self)@.tables.len(),
        ensures
            final(self)@ == old(self)@.put(index as int, old(self)@.tables[index as int].renamed(name@)),
            final(self)@.wf(),
    {
        self.tables[index].name = name;
        proof {
            let after = old(self)@.put(index as int, old(self)@.tables[index as int].renamed(name@));
            assert(self@.tables =~= after.tables);
            old(self)@.changed_at_keeps_wf(index as int, after);
        }
    }

    pub fn rename_column(&mut self, table: usize, column: usize, name: String)
        requires
            old(self)@.wf(),
            table < old(self)@.tables.len(),
            column < old(self)@.tables[table as int].columns.len(),
        ensures
            final(self)@ == old(self)@.put(
                table as int,
                old(self)@.tables[table as int].with_column_name(column as int, name@),
            ),
            final(self)@.wf(),
    {
        self.tables[table].columns[column].name = name;
        proof {
            let renamed = old(self)@.tables[table as int].with_column_name(column as int, name@);
            let after = old(self)@.put(table as int, renamed);
            assert(self@.tables[table as int].columns =~= renamed.columns);
            assert(self@.tables =~= after.tables);
            assert(renamed.wf()) by {
                assert forall|c: int| 0 <= c < renamed.columns.len() implies (#[trigger] renamed.columns[c]).data.len()
                    == renamed.rows() by {
                    assert(old(self)@.tables[table as int].columns[c].data.len() == renamed.rows());
                }
            }
            old(self)@.changed_at_keeps_wf(table as int, after);
        }
    }

    /// Appends a boolean column to a table, `false` in every row.
    pub fn add_column(&mut self, table: usize)
        requires
            old(self)@.wf(),
            table < old(self)@.tables.len(),
        ensures
            final(self)@ == old(self)@.put(table as int, old(self)@.tables[table as int].with_column(ColumnKind::Bool)),
            final(self)@.wf(),
    {
        self.add_column_of(table, ColumnKind::Bool)
    }

    /// Appends a column of `kind` to a table, the default of its type in every row.
    pub fn add_column_of(&mut self, table: usize, kind: ColumnKind)
        requires
            old(self)@.wf(),
            table < old(self)@.tables.len(),
        ensures
            final(self)@ == old(self)@.put(table as int, old(self)@.tables[table as int].with_column(kind)),
            final(self)@.wf(),
    {
        self.tables[table].add_column(kind);
        proof {
            let grown = old(self)@.tables[table as int].with_column(kind);
            let after = old(self)@.put(table as int, grown);
            assert(self@.tables =~= after.tables);
            assert(grown.wf()) by {
                assert forall|c: int| 0 <= c < grown.columns.len() implies (#[trigger] grown.columns[c]).data.len()
                    == grown.rows() by {
                    if c < grown.columns.len() - 1 {
                        assert(old(self)@.tables[table as int].columns[c].data.len() == grown.rows());
                    }
                }
            }
            old(self)@.changed_at_keeps_wf(table as int, after);
        }
    }

    /// Whether the counter of a table has an identity left for another row.
    pub fn has_room_in(&self, table: usize) -> (room: bool)
        requires
            table < self@.tables.len(),
        ensures
            room == (self@.tables[table as int].next_row_id < u32::MAX),
    {
        self.tables[table].next_row_id < u32::MAX
    }

    /// Appends a row to a table: a fresh identity, and the default of its type in every column.
    pub fn insert_row(&mut self, table: usize)
        requires
            old(self)@.wf(),
            table < old(self)@.tables.len(),
            old(self)@.tables[table as int].next_row_id < u32::MAX,
        ensures
            final(self)@ == old(self)@.put(table as int, old(self)@.tables[table as int].with_row()),
            final(self)@.wf(),
    {
        self.tables[table].insert_row();
        proof {
            let grown = old(self)@.tables[table as int].with_row();
            let after = old(self)@.put(table as int, grown);
            assert(self@.tables =~= after.tables);
            with_row_keeps_wf(old(self)@.tables[table as int]);
            old(self)@.changed_at_keeps_wf(table as int, after);
        }
    }

    /// Enters `text` in a cell: the value that it spells in the type of the
    /// column is stored; a text that spells none changes nothing. Tells
    /// whether the text spelled a value.
    pub fn enter_text(&mut self, table: usize, row: usize, column: usize, text: String) -> (stored: bool)
        requires
            old(self)@.wf(),
            table < old(self)@.tables.len(),
            row < old(self)@.tables[table as int].rows(),
            column < old(self)@.tables[table as int].columns.len(),
        ensures
            final(self)@ == old(self)@.put(
                table as int,
                old(self)@.tables[table as int].with_text(row as int, column as int, text@),
            ),
            final(self)@.wf(),
            stored == old(self)@.tables[table as int].columns[column as int].data.spells(text@),
    {
        assert(old(self)@.tables[table as int].columns[column as int].data.len() == old(self)@.tables[table as int].rows());
        let stored = self.tables[table].columns[column].content.enter(row, text);
        proof {
            let entered = old(self)@.tables[table as int].with_text(row as int, column as int, text@);
            let after = old(self)@.put(table as int, entered);
            assert(self@.tables[table as int].columns =~= entered.columns);
            assert(self@.tables =~= after.tables);
            with_text_keeps_wf(old(self)@.tables[table as int], row as int, column as int, text@);
            old(self)@.changed_at_keeps_wf(table as int, after);
        }
        stored
    }
}

/// Whether `after` has everything that `before` has: it is well formed, and
/// each table of `before` is still there with at least its rows and columns.
pub open spec fn grows(before: DatabaseModel, after: DatabaseModel) -> bool {
    &&& after.wf()
    &&& after.tables.len() >= before.tables.len()
    &&& forall|t: int|
        0 <= t < before.tables.len() ==> {
            &&& (#[trigger] after.tables[t]).rows() >= before.tables[t].rows()
            &&& after.tables[t].columns.len() >= before.tables[t].columns.len()
        }
}

/// A table that takes the place of one with the same identity, and has at
/// least its rows and columns, makes the store grow.
pub proof fn put_grows(before: DatabaseModel, index: int, table: TableModel)
    requires
        before.wf(),
        0 <= index < before.tables.len(),
        table.wf(),
        table.id == before.tables[index].id,
        table.rows() >= before.tables[index].rows(),
        table.columns.len() >= before.tables[index].columns.len(),
    ensures
        grows(before, before.put(index, table)),
{
    before.changed_at_keeps_wf(index, before.put(index, table));
}

/// The word for a type of column.
pub open spec fn kind_text(kind: ColumnKind) -> Seq<char> {
    match kind {
        ColumnKind::Bool => "boolean"@,
        ColumnKind::Int => "integer"@,
        ColumnKind::Text => "text"@,
    }
}

pub fn kind_word(kind: ColumnKind) -> (word: String)
    ensures
        word@ == kind_text(kind),
{
    match kind {
        ColumnKind::Bool => String::from_str("boolean"),
        ColumnKind::Int => String::from_str("integer"),
        ColumnKind::Text => String::from_str("text"),
    }
}

/// The view that lists the tables: the name of each, a link to its schema
/// and a link to its content.
#[derive(Clone, Copy, Debug, PartialEq, Eq)]
pub struct MainView {}

/// The view that lists the columns of one table: the name of each and its type.
#[derive(Clone, Copy, Debug, PartialEq, Eq)]
pub struct TableSchemaView {
    pub table_idx: usize,
}

/// The view that shows the rows of one table.
#[derive(Clone, Copy, Debug, PartialEq, Eq)]
pub struct TableContentView {
    pub table_idx: usize,
}

/// A view of the store, of any of its three kinds.
#[derive(Clone, Copy, Debug, PartialEq, Eq)]
pub enum DatabaseView {
    Main(MainView),
    Schema(TableSchemaView),
    Content(TableContentView),
}

impl MainView {
    pub open spec fn valid(&self, state: &Database) -> bool {
        state@.wf()
    }

    pub open spec fn spec_columns(&self) -> Seq<Seq<char>> {
        seq!["Table"@, "Schema"@, "Content"@]
    }

    pub open spec fn spec_cell(&self, state: &Database, row: int, column: int) -> CellContent {
        if column == 0 {
            CellContent::Text(state@.tables[row].name)
        } else {
            CellContent::Link
        }
    }

    /// A saved name is the new name of the table in `row`.
    pub open spec fn saved(&self, before: &Database, after: &Database, row: int, column: int, text: Seq<char>) -> bool {
        if column == 0 {
            after@ == before@.put(row, before@.tables[row].renamed(text))
        } else {
            after@ == before@
        }
    }

    pub open spec fn has_room(&self, state: &Database) -> bool {
        state@.next_table_id < u32::MAX
    }

    /// A new row is a new, empty table.
    pub open spec fn row_added(&self, before: &Database, after: &Database) -> bool {
        after@ == before@.with_table()
    }

    /// The schema of the table in `row` behind column 1, its content behind the others.
    pub open spec fn spec_open_cell(&self, row: int, column: int) -> DatabaseView {
        if column == 1 {
            DatabaseView::Schema(TableSchemaView { table_idx: row as usize })
        } else {
            DatabaseView::Content(TableContentView { table_idx: row as usize })
        }
    }

    pub fn columns(&self, state: &Database) -> (headers: Vec<crate::Column>)
        ensures
            crate::labels(headers@) == self.spec_columns(),
    {
        let mut headers: Vec<crate::Column> = Vec::new();
        headers.push(crate::Column { label: String::from_str("Table") });
        headers.push(crate::Column { label: String::from_str("Schema") });
        headers.push(crate::Column { label: String::from_str("Content") });
        assert(crate::labels(headers@) =~= self.spec_columns());
        headers
    }

    pub fn row_count(&self, state: &Database) -> (count: usize)
        ensures
            count == state@.tables.len(),
    {
        state.table_count()
    }

    pub fn cell(&self, state: &Database, row: usize, column: usize) -> (cell: Cell)
        requires
            row < state@.tables.len(),
            column < 3,
        ensures
            cell@ == self.spec_cell(state, row as int, column as int),
    {
        if column == 0 {
            Cell::Text(String::from_str(state.table(row).name()))
        } else {
            Cell::Link
        }
    }

    /// Renames the table in `row`.
    pub fn save_cell(&mut self, state: &mut Database, row: usize, column: usize, value: CellUpdate)
        requires
            old(self).valid(old(state)),
            row < old(state)@.tables.len(),
            column == 0,
        ensures
            *final(self) == *old(self),
            old(self).saved(old(state), final(state), row as int, column as int, value@),
            final(state)@.wf(),
    {
        state.rename_table(row, value.as_text());
    }

    /// Appends an empty table, unless the counter of tables is used up.
    pub fn new_row(&mut self, state: &mut Database)
        requires
            old(self).valid(old(state)),
        ensures
            *final(self) == *old(self),
            old(self).has_room(old(state)) ==> old(self).row_added(old(state), final(state)),
            !old(self).has_room(old(state)) ==> *final(state) == *old(state),
            final(state)@.wf(),
    {
        if state.has_room() {
            state.create_table();
        }
    }

    pub fn open_cell(&mut self, state: &mut Database, row: usize, column: usize) -> (child: DatabaseView)
        requires
            old(self).valid(old(state)),
            row < old(state)@.tables.len(),
            column == 1 || column == 2,
        ensures
            *final(self) == *old(self),
            *final(state) == *old(state),
            child == old(self).spec_open_cell(row as int, column as int),
            child.valid(final(state)),
    {
        if column == 1 {
            DatabaseView::Schema(TableSchemaView { table_idx: row })
        } else {
            DatabaseView::Content(TableContentView { table_idx: row })
        }
    }
}

impl TableSchemaView {
    pub open spec fn valid(&self, state: &Database) -> bool {
        state@.wf() && self.table_idx < state@.tables.len()
    }

    /// The table whose columns the view lists.
    pub open spec fn table(&self, state: &Database) -> TableModel {
        state@.tables[self.table_idx as int]
    }

    pub open spec fn spec_columns(&self) -> Seq<Seq<char>> {
        seq!["Column"@, "Type"@]
    }

    pub open spec fn spec_cell(&self, state: &Database, row: int, column: int) -> CellContent {
        if column == 0 {
            CellContent::Text(self.table(state).columns[row].name)
        } else {
            CellContent::Text(kind_text(self.table(state).columns[row].data.kind()))
        }
    }

    /// A saved name is the new name of the column in `row`. The type of a
    /// column is for display only: what is saved there changes nothing.
    pub open spec fn saved(&self, before: &Database, after: &Database, row: int, column: int, text: Seq<char>) -> bool {
        if column == 0 {
            after@ == before@.put(self.table_idx as int, self.table(before).with_column_name(row, text))
        } else {
            after@ == before@
        }
    }

    /// A new row is a new boolean column of the table.
    pub open spec fn row_added(&self, before: &Database, after: &Database) -> bool {
        after@ == before@.put(self.table_idx as int, self.table(before).with_column(ColumnKind::Bool))
    }

    pub fn columns(&self, state: &Database) -> (headers: Vec<crate::Column>)
        ensures
            crate::labels(headers@) == self.spec_columns(),
    {
        let mut headers: Vec<crate::Column> = Vec::new();
        headers.push(crate::Column { label: String::from_str("Column") });
        headers.push(crate::Column { label: String::from_str("Type") });
        assert(crate::labels(headers@) =~= self.spec_columns());
        headers
    }

    pub fn row_count(&self, state: &Database) -> (count: usize)
        requires
            self.valid(state),
        ensures
            count == self.table(state).columns.len(),
    {
        state.table(self.table_idx).column_count()
    }

    pub fn cell(&self, state: &Database, row: usize, column: usize) -> (cell: Cell)
        requires
            self.valid(state),
            row < self.table(state).columns.len(),
            column < 2,
        ensures
            cell@ == self.spec_cell(state, row as int, column as int),
    {
        let table = state.table(self.table_idx);
        if column == 0 {
            Cell::Text(String::from_str(table.column(row).name()))
        } else {
            Cell::Text(kind_word(table.column(row).kind()))
        }
    }

    /// Renames the column in `row`. Only the name of a column can be saved:
    /// its type is for display.
    pub fn save_cell(&mut self, state: &mut Database, row: usize, column: usize, value: CellUpdate)
        requires
            old(self).valid(old(state)),
            row < old(self).table(old(state)).columns.len(),
            column == 0,
        ensures
            *final(self) == *old(self),
            old(self).saved(old(state), final(state), row as int, column as int, value@),
            final(state)@.wf(),
    {
        state.rename_column(self.table_idx, row, value.as_text());
    }

    /// Appends a boolean column to the table, `false` in every row.
    pub fn new_row(&mut self, state: &mut Database)
        requires
            old(self).valid(old(state)),
        ensures
            *final(self) == *old(self),
            old(self).row_added(old(state), final(state)),
            final(state)@.wf(),
    {
        state.add_column(self.table_idx);
    }
}

impl TableContentView {
    pub open spec fn valid(&self, state: &Database) -> bool {
        state@.wf() && self.table_idx < state@.tables.len()
    }

    /// The table whose rows the view shows.
    pub open spec fn table(&self, state: &Database) -> TableModel {
        state@.tables[self.table_idx as int]
    }

    /// Every cell shows its value as text.
    pub open spec fn spec_cell(&self, state: &Database, row: int, column: int) -> CellContent {
        CellContent::Text(self.table(state).columns[column].data.text_at(row))
    }

    /// A saved text is entered in the cell as a value of the column's type.
    pub open spec fn saved(&self, before: &Database, after: &Database, row: int, column: int, text: Seq<char>) -> bool {
        after@ == before@.put(self.table_idx as int, self.table(before).with_text(row, column, text))
    }

    pub open spec fn has_room(&self, state: &Database) -> bool {
        self.table(state).next_row_id < u32::MAX
    }

    /// A new row is a new row of the table.
    pub open spec fn row_added(&self, before: &Database, after: &Database) -> bool {
        after@ == before@.put(self.table_idx as int, self.table(before).with_row())
    }

    /// One header for each column of the table, with its name.
    pub fn columns(&self, state: &Database) -> (headers: Vec<crate::Column>)
        requires
            self.valid(state),
        ensures
            crate::labels(headers@) == self.table(state).column_names(),
    {
        let table = state.table(self.table_idx);
        let mut headers: Vec<crate::Column> = Vec::new();
        let mut c: usize = 0;
        while c < table.column_count()
            invariant
                c <= table@.columns.len(),
                headers@.len() == c,
                forall|j: int| 0 <= j < c ==> (#[trigger] headers@[j]).label@ == table@.columns[j].name,
            decreases table@.columns.len() - c,
        {
            headers.push(crate::Column { label: String::from_str(table.column(c).name()) });
            c += 1;
        }
        assert(crate::labels(headers@) =~= table@.column_names());
        headers
    }

    pub fn row_count(&self, state: &Database) -> (count: usize)
        requires
            self.valid(state),
        ensures
            count == self.table(state).rows(),
    {
        state.table(self.table_idx).row_count()
    }

    pub fn cell(&self, state: &Database, row: usize, column: usize) -> (cell: Cell)
        requires
            self.valid(state),
            row < self.table(state).rows(),
            column < self.table(state).columns.len(),
        ensures
            cell@ == self.spec_cell(state, row as int, column as int),
    {
        let held = state.table(self.table_idx).column(column);
        assert(self.table(state).columns[column as int].data.len() == self.table(state).rows());
        Cell::Text(held.text_at(row))
    }

    /// Enters the text in the cell.
    pub fn save_cell(&mut self, state: &mut Database, row: usize, column: usize, value: CellUpdate)
        requires
            old(self).valid(old(state)),
            row < old(self).table(old(state)).rows(),
            column < old(self).table(old(state)).columns.len(),
        ensures
            *final(self) == *old(self),
            old(self).saved(old(state), final(state), row as int, column as int, value@),
            final(state)@.wf(),
    {
        state.enter_text(self.table_idx, row, column, value.as_text());
    }

    /// Appends a row of defaults, unless the counter of rows is used up.
    pub fn new_row(&mut self, state: &mut Database)
        requires
            old(self).valid(old(state)),
        ensures
            *final(self) == *old(self),
            old(self).has_room(old(state)) ==> old(self).row_added(old(state), final(state)),
            !old(self).has_room(old(state)) ==> *final(state) == *old(state),
            final(state)@.wf(),
    {
        if state.has_room_in(self.table_idx) {
            state.insert_row(self.table_idx);
        }
    }
}

impl DatabaseView {
    /// Whether the cell keeps a saved text letter for letter: the name of a
    /// table, the name of a column, or a value of a text column.
    pub open spec fn keeps_text(&self, state: &Database, row: int, column: int) -> bool {
        match self {
            DatabaseView::Main(_) => column == 0,
            DatabaseView::Schema(_) => column == 0,
            DatabaseView::Content(view) => view.table(state).columns[column].data is Text,
        }
    }

    /// Whether `after` has grown out of `before` by an edit through this view.
    pub open spec fn edited(&self, before: &Database, after: &Database) -> bool {
        ||| exists|row: int, column: int, text: Seq<char>|
            {
                &&& 0 <= row < self.spec_row_count(before)
                &&& 0 <= column < self.spec_columns(before).len()
                &&& self.spec_cell(before, row, column) is Text
                &&& #[trigger] self.saved(before, after, row, column, text)
            }
        ||| self.has_room(before) && self.row_added(before, after)
    }

    /// An edit through a valid view makes the store grow.
    pub proof fn edit_grows(&self, before: &Database, after: &Database)
        requires
            self.valid(before),
            self.edited(before, after),
        ensures
            grows(before@, after@),
    {
        if self.has_room(before) && self.row_added(before, after) {
            match self {
                DatabaseView::Main(_) => {
                    assert(TableModel::empty(before@.next_table_id).wf());
                },
                DatabaseView::Schema(view) => {
                    let table = view.table(before);
                    let grown = table.with_column(ColumnKind::Bool);
                    assert forall|c: int| 0 <= c < grown.columns.len() implies (#[trigger] grown.columns[c]).data.len()
                        == grown.rows() by {
                        if c < table.columns.len() {
                            assert(table.columns[c].data.len() == table.rows());
                        }
                    }
                    put_grows(before@, view.table_idx as int, grown);
                },
                DatabaseView::Content(view) => {
                    with_row_keeps_wf(view.table(before));
                    put_grows(before@, view.table_idx as int, view.table(before).with_row());
                },
            }
        } else {
            let (row, column, text) = choose|row: int, column: int, text: Seq<char>|
                {
                    &&& 0 <= row < self.spec_row_count(before)
                    &&& 0 <= column < self.spec_columns(before).len()
                    &&& self.spec_cell(before, row, column) is Text
                    &&& #[trigger] self.saved(before, after, row, column, text)
                };
            match self {
                DatabaseView::Main(_) => {
                    put_grows(before@, row, before@.tables[row].renamed(text));
                },
                DatabaseView::Schema(view) => {
                    if column == 0 {
                        let table = view.table(before);
                        let renamed = table.with_column_name(row, text);
                        assert forall|c: int| 0 <= c < renamed.columns.len() implies (
                        #[trigger] renamed.columns[c]).data.len() == renamed.rows() by {
                            assert(table.columns[c].data.len() == table.rows());
                        }
                        put_grows(before@, view.table_idx as int, renamed);
                    }
                },
                DatabaseView::Content(view) => {
                    with_text_keeps_wf(view.table(before), row, column, text);
                    put_grows(before@, view.table_idx as int, view.table(before).with_text(row, column, text));
                },
            }
        }
    }

    /// In a store that has grown, a view is still valid and has at least
    /// the rows and columns it had.
    pub proof fn growth_keeps(&self, before: &Database, after: &Database)
        requires
            self.valid(before),
            grows(before@, after@),
        ensures
            self.valid(after),
            self.spec_row_count(after) >= self.spec_row_count(before),
            self.spec_columns(after).len() >= self.spec_columns(before).len(),
    {
    }
}

impl TableView for DatabaseView {
    type State = Database;

    open spec fn valid(&self, state: &Database) -> bool {
        match self {
            DatabaseView::Main(view) => view.valid(state),
            DatabaseView::Schema(view) => view.valid(state),
            DatabaseView::Content(view) => view.valid(state),
        }
    }

    open spec fn spec_columns(&self, state: &Database) -> Seq<Seq<char>> {
        match self {
            DatabaseView::Main(view) => view.spec_columns(),
            DatabaseView::Schema(view) => view.spec_columns(),
            DatabaseView::Content(view) => view.table(state).column_names(),
        }
    }

    open spec fn spec_row_count(&self, state: &Database) -> nat {
        match self {
            DatabaseView::Main(_) => state@.tables.len(),
            DatabaseView::Schema(view) => view.table(state).columns.len(),
            DatabaseView::Content(view) => view.table(state).rows(),
        }
    }

    open spec fn spec_cell(&self, state: &Database, row: int, column: int) -> CellContent {
        match self {
            DatabaseView::Main(view) => view.spec_cell(state, row, column),
            DatabaseView::Schema(view) => view.spec_cell(state, row, column),
            DatabaseView::Content(view) => view.spec_cell(state, row, column),
        }
    }

    open spec fn saved(&self, before: &Database, after: &Database, row: int, column: int, text: Seq<char>) -> bool {
        match self {
            DatabaseView::Main(view) => view.saved(before, after, row, column, text),
            DatabaseView::Schema(view) => view.saved(before, after, row, column, text),
            DatabaseView::Content(view) => view.saved(before, after, row, column, text),
        }
    }

    open spec fn has_room(&self, state: &Database) -> bool {
        match self {
            DatabaseView::Main(view) => view.has_room(state),
            DatabaseView::Schema(_) => true,
            DatabaseView::Content(view) => view.has_room(state),
        }
    }

    open spec fn row_added(&self, before: &Database, after: &Database) -> bool {
        match self {
            DatabaseView::Main(view) => view.row_added(before, after),
            DatabaseView::Schema(view) => view.row_added(before, after),
            DatabaseView::Content(view) => view.row_added(before, after),
        }
    }

    open spec fn spec_open_cell(&self, state: &Database, row: int, column: int) -> Self {
        match self {
            DatabaseView::Main(view) => view.spec_open_cell(row, column),
            _ => *self,
        }
    }

    fn columns(&self, state: &Database) -> (headers: Vec<crate::Column>) {
        match self {
            DatabaseView::Main(view) => view.columns(state),
            DatabaseView::Schema(view) => view.columns(state),
            DatabaseView::Content(view) => view.columns(state),
        }
    }

    fn row_count(&self, state: &Database) -> (count: usize) {
        match self {
            DatabaseView::Main(view) => view.row_count(state),
            DatabaseView::Schema(view) => view.row_count(state),
            DatabaseView::Content(view) => view.row_count(state),
        }
    }

    fn cell(&self, state: &Database, row: usize, column: usize) -> (cell: Cell) {
        match self {
            DatabaseView::Main(view) => view.cell(state, row, column),
            DatabaseView::Schema(view) => view.cell(state, row, column),
            DatabaseView::Content(view) => view.cell(state, row, column),
        }
    }

    fn save_cell(&mut self, state: &mut Database, row: usize, column: usize, value: CellUpdate) {
        match self {
            DatabaseView::Main(view) => view.save_cell(state, row, column, value),
            DatabaseView::Schema(view) => {
                // The type of a column is shown as text but is read-only:
                // what is saved there is dropped.
                if column == 0 {
                    view.save_cell(state, row, column, value)
                }
            },
            DatabaseView::Content(view) => view.save_cell(state, row, column, value),
        }
    }

    fn new_row(&mut self, state: &mut Database) {
        match self {
            DatabaseView::Main(view) => view.new_row(state),
            DatabaseView::Schema(view) => view.new_row(state),
            DatabaseView::Content(view) => view.new_row(state),
        }
    }

    fn open_cell(&mut self, state: &mut Database, row: usize, column: usize) -> (child: Self) {
        match self {
            DatabaseView::Main(view) => view.open_cell(state, row, column),
            _ => unreached(),
        }
    }

    proof fn sizes_fit(&self, state: &Database) {
        state.lengths_fit();
    }

    proof fn child_is_valid(&self, state: &Database, row: int, column: int) {
        state.lengths_fit();
    }

    proof fn saved_keeps(
        &self,
        other: &Self,
        before: &Database,
        after: &Database,
        row: int,
        column: int,
        text: Seq<char>,
    ) {
        self.edit_grows(before, after);
        self.growth_keeps(before, after);
        other.growth_keeps(before, after);
        assert(self.spec_columns(after) =~= self.spec_columns(before));
    }

    proof fn row_added_keeps(&self, other: &Self, before: &Database, after: &Database) {
        self.edit_grows(before, after);
        self.growth_keeps(before, after);
        other.growth_keeps(before, after);
        assert(self.spec_columns(after) =~= self.spec_columns(before));
    }
}

/// A new row of the schema view is a new column of the table: the table has
/// one column more, the columns it had are as they were, and the new column
/// holds one value for each row of the table, every one of them `false`.
pub proof fn new_column_is_default(view: TableSchemaView, before: &Database, after: &Database)
    requires
        view.valid(before),
        view.row_added(before, after),
    ensures
        view.table(after).columns.len() == view.table(before).columns.len() + 1,
        view.table(after).columns.drop_last() == view.table(before).columns,
        view.table(after).rows() == view.table(before).rows(),
        view.table(after).columns.last().data matches ColumnData::Bool(values) && values.len() == view.table(
            after,
        ).rows() && forall|row: int| 0 <= row < values.len() ==> values[row] == false,
{
    let grown = view.table(before).with_column(ColumnKind::Bool);
    assert(view.table(after) == grown);
    assert(grown.columns.drop_last() =~= view.table(before).columns);
}

/// A name reads back: the table or the column that was renamed has the new
/// name, letter for letter.
pub proof fn rename_reads_back(database: DatabaseModel, table: int, column: int, name: Seq<char>)
    requires
        0 <= table < database.tables.len(),
    ensures
        database.put(table, database.tables[table].renamed(name)).tables[table].name == name,
        0 <= column < database.tables[table].columns.len() ==> database.put(
            table,
            database.tables[table].with_column_name(column, name),
        ).tables[table].columns[column].name == name,
{
}

/// A saved text reads back. A cell that keeps text shows the saved text,
/// letter for letter. A boolean or an integer cell shows the value that the
/// text spells, in the way such values are written, and shows what it
/// showed before if the text spells no such value. The type of a column is
/// not changed by what is saved there.
pub proof fn saved_reads_back(
    view: DatabaseView,
    before: &Database,
    after: &Database,
    row: int,
    column: int,
    text: Seq<char>,
)
    requires
        view.valid(before),
        0 <= row < view.spec_row_count(before),
        0 <= column < view.spec_columns(before).len(),
        view.spec_cell(before, row, column) is Text,
        view.saved(before, after, row, column, text),
    ensures
        view.keeps_text(before, row, column) ==> view.spec_cell(after, row, column) == CellContent::Text(text),
        view matches DatabaseView::Schema(_) && column != 0 ==> view.spec_cell(after, row, column)
            == view.spec_cell(before, row, column),
        view matches DatabaseView::Content(content) ==> match content.table(before).columns[column].data {
            ColumnData::Bool(_) => view.spec_cell(after, row, column) == (match text_bool(text) {
                Some(value) => CellContent::Text(bool_text(value)),
                None => view.spec_cell(before, row, column),
            }),
            ColumnData::Int(_) => view.spec_cell(after, row, column) == (match text_i64(text) {
                Some(value) => CellContent::Text(int_text(value as int)),
                None => view.spec_cell(before, row, column),
            }),
            ColumnData::Text(_) => view.spec_cell(after, row, column) == CellContent::Text(text),
        },
{
    match view {
        DatabaseView::Content(content) => {
            let table = content.table(before);
            assert(table.columns[column].data.len() == table.rows());
        },
        _ => {},
    }
}

/// Entering a text in a cell keeps a table well formed.
pub proof fn with_text_keeps_wf(table: TableModel, row: int, column: int, text: Seq<char>)
    requires
        table.wf(),
        0 <= row < table.rows(),
        0 <= column < table.columns.len(),
    ensures
        table.with_text(row, column, text).wf(),
{
    let after = table.with_text(row, column, text);
    assert forall|c: int| 0 <= c < after.columns.len() implies (#[trigger] after.columns[c]).data.len() == after.rows() by {
        assert(table.columns[c].data.len() == table.rows());
    }
}

} // verus!
