//! What a grid puts on screen, as a plan of pieces to draw.
use ratatui::layout::Constraint;
use ratatui::layout::Layout;
use ratatui::layout::Rect;
use vstd::prelude::*;
use vstd::string::*;

verus! {

/// A rectangle of terminal cells.
#[derive(Clone, Copy, Debug, PartialEq, Eq, Structural)]
pub struct Area {
    pub x: u16,
    pub y: u16,
    pub width: u16,
    pub height: u16,
}

/// The larger of two numbers.
pub open spec fn larger(a: int, b: int) -> int {
    if a >= b {
        a
    } else {
        b
    }
}

/// The smaller of two numbers.
pub open spec fn smaller(a: int, b: int) -> int {
    if a <= b {
        a
    } else {
        b
    }
}

impl Area {
    /// The column just right of the area.
    pub open spec fn right(self) -> int {
        self.x + self.width
    }

    /// The row just below the area.
    pub open spec fn bottom(self) -> int {
        self.y + self.height
    }

    /// Whether the area has no cell.
    pub open spec fn is_empty(self) -> bool {
        self.width == 0 || self.height == 0
    }

    /// Whether every cell of `inner` is a cell of this area.
    pub open spec fn holds(self, inner: Area) -> bool {
        inner.is_empty() || (self.x <= inner.x && inner.right() <= self.right() && self.y <= inner.y
            && inner.bottom() <= self.bottom())
    }

    /// The columns that this area shares with `bounds`, over the rows of this area.
    pub open spec fn spec_within(self, bounds: Area) -> Area {
        let left = larger(self.x as int, bounds.x as int);
        let right = smaller(self.right(), bounds.right());
        Area { x: left as u16, y: self.y, width: larger(right - left, 0) as u16, height: self.height }
    }

    /// How many rows of the area the screen can address, starting at its top.
    pub open spec fn spec_usable_height(self) -> nat {
        smaller(self.height as int, 0x1_0000 - self.y) as nat
    }

    /// How many rows are left for cells below a header of one row.
    pub open spec fn spec_body_height(self) -> nat {
        larger(self.spec_usable_height() - 1, 0) as nat
    }

    /// The strip of a column that lies in row `line` of `bounds`, counted
    /// from its top: as wide as the two overlap, and one row high where
    /// `bounds` has such a row.
    pub open spec fn spec_strip(self, bounds: Area, line: nat) -> Area {
        let shared = self.spec_within(bounds);
        if line < bounds.spec_usable_height() {
            Area { x: shared.x, y: (bounds.y + line) as u16, width: shared.width, height: 1 }
        } else {
            Area { x: shared.x, y: bounds.y, width: shared.width, height: 0 }
        }
    }

    pub fn within(self, bounds: Area) -> (shared: Area)
        ensures
            shared == self.spec_within(bounds),
    {
        let left: u16 = if self.x >= bounds.x {
            self.x
        } else {
            bounds.x
        };
        let own: u32 = self.x as u32 + self.width as u32;
        let other: u32 = bounds.x as u32 + bounds.width as u32;
        let right: u32 = if own <= other {
            own
        } else {
            other
        };
        let width: u16 = if right > left as u32 {
            (right - left as u32) as u16
        } else {
            0
        };
        Area { x: left, y: self.y, width, height: self.height }
    }

    pub fn usable_height(self) -> (rows: u16)
        ensures
            rows == self.spec_usable_height(),
    {
        let room: u32 = 0x1_0000 - self.y as u32;
        if (self.height as u32) <= room {
            self.height
        } else {
            room as u16
        }
    }

    pub fn body_height(self) -> (rows: u16)
        ensures
            rows == self.spec_body_height(),
    {
        let usable = self.usable_height();
        if usable > 0 {
            usable - 1
        } else {
            0
        }
    }

    pub fn strip(self, bounds: Area, line: u16) -> (strip: Area)
        ensures
            strip == self.spec_strip(bounds, line as nat),
            bounds.holds(strip),
    {
        let shared = self.within(bounds);
        if line < bounds.usable_height() {
            Area { x: shared.x, y: bounds.y + line, width: shared.width, height: 1 }
        } else {
            Area { x: shared.x, y: bounds.y, width: shared.width, height: 0 }
        }
    }
}

/// No strip leaves the bounds it was cut for.
pub proof fn strip_stays_inside(column: Area, bounds: Area, line: nat)
    ensures
        bounds.holds(column.spec_strip(bounds, line)),
{
}

/// The number of rows on screen: what is left of `row_count` rows after
/// `scroll_offset` of them, but no more than fit in `available_height`, and
/// none if the grid is scrolled past its last row.
pub open spec fn spec_visible_rows(row_count: nat, scroll_offset: nat, available_height: nat) -> nat {
    if scroll_offset >= row_count {
        0
    } else {
        smaller(row_count - scroll_offset, available_height as int) as nat
    }
}

pub fn visible_rows(row_count: usize, scroll_offset: usize, available_height: usize) -> (rows: usize)
    ensures
        rows == spec_visible_rows(row_count as nat, scroll_offset as nat, available_height as nat),
{
    if scroll_offset >= row_count {
        0
    } else if row_count - scroll_offset <= available_height {
        row_count - scroll_offset
    } else {
        available_height
    }
}

/// What a piece of the screen is.
#[derive(Clone, Copy, Debug, PartialEq, Eq, Structural)]
pub enum PieceKind {
    /// A column header.
    Header,
    /// The text of a cell.
    Text,
    /// A link cell, with the word that stands for it.
    Link,
    /// The cell that is being edited: the embedded editor is drawn here,
    /// with the text that it holds.
    Editor,
}

/// One thing to draw: a text in one row of the screen.
#[derive(Debug)]
pub struct Piece {
    pub area: Area,
    pub text: String,
    pub kind: PieceKind,
    /// Whether the piece is the selected cell, to be drawn highlighted.
    pub selected: bool,
}

/// A piece as a mathematical value.
pub struct PieceModel {
    pub area: Area,
    pub text: Seq<char>,
    pub kind: PieceKind,
    pub selected: bool,
}

impl View for Piece {
    type V = PieceModel;

    open spec fn view(&self) -> PieceModel {
        PieceModel { area: self.area, text: self.text@, kind: self.kind, selected: self.selected }
    }
}

/// What one frame shows: for each column of the grid, left to right, its
/// header and below it the visible cells.
#[derive(Debug)]
pub struct Frame {
    pub columns: Vec<Vec<Piece>>,
}

impl View for Frame {
    type V = Seq<Seq<PieceModel>>;

    open spec fn view(&self) -> Seq<Seq<PieceModel>> {
        Seq::new(self.columns@.len(), |c: int| Seq::new(self.columns@[c]@.len(), |k: int| self.columns@[c]@[k]@))
    }
}

/// The word that stands for a link.
pub open spec fn link_text() -> Seq<char> {
    seq!['O', 'p', 'e', 'n']
}

pub fn link_word() -> (word: String)
    ensures
        word@ == link_text(),
{
    proof {
        reveal_strlit("Open");
    }
    let word = String::from_str("Open");
    assert(word@ =~= link_text());
    word
}

/// The shares of `count` columns that are to be equally wide: one each.
pub fn equal_shares(count: usize) -> (shares: Vec<u16>)
    ensures
        shares@.len() == count,
        forall|i: int| 0 <= i < count ==> shares@[i] == 1,
{
    let mut shares: Vec<u16> = Vec::new();
    while shares.len() < count
        invariant
            shares@.len() <= count,
            forall|i: int| 0 <= i < shares@.len() ==> shares@[i] == 1,
        decreases count - shares@.len(),
    {
        shares.push(1);
    }
    shares
}

/// Splits `area` into columns, left to right, with
/// `ratatui::layout::Layout`: a horizontal layout of one constraint
/// `Fill` for each of `shares`, with that share, handed to `split`. The
/// claim is that `split` returns one rectangle for each constraint. Where
/// the columns lie is left to the layout's solver and not claimed.
#[verifier::external_body]
pub(crate) fn split_columns(area: Area, shares: &Vec<u16>) -> (columns: Vec<Area>)
    ensures
        columns@.len() == shares@.len(),
{
    let layout = Layout::horizontal(shares.iter().map(|share| Constraint::Fill(*share)));
    let rect = Rect { x: area.x, y: area.y, width: area.width, height: area.height };
    layout
        .split(rect)
        .iter()
        .map(|r| Area { x: r.x, y: r.y, width: r.width, height: r.height })
        .collect()
}

} // verus!
