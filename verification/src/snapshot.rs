//! What a consumer is handed: one immutable frame of terminal state.

use vstd::prelude::*;

verus! {

/// A colour, already resolved out of the palette.
#[derive(Clone, Copy, Debug, Default, PartialEq, Eq, Structural)]
pub struct Rgb {
    /// Red component.
    pub r: u8,
    /// Green component.
    pub g: u8,
    /// Blue component.
    pub b: u8,
}

/// Cell attributes, OR-ed together into a cell's `attributes` field.
///
/// The low byte is SGR state, the high byte is structure.
#[derive(Clone, Copy, Debug, PartialEq, Eq, Structural)]
pub enum Attribute {
    /// SGR 1.
    Bold,
    /// SGR 2.
    Faint,
    /// SGR 3.
    Italic,
    /// SGR 5.
    Blink,
    /// SGR 7.
    Inverse,
    /// SGR 8.
    Invisible,
    /// SGR 9.
    Strikethrough,
    /// SGR 53.
    Overline,
    /// The leading cell of a character two columns wide.
    Wide,
    /// The trailing cell of a character two columns wide.
    WideTail,
    /// The cell's `codepoint` is an index into the snapshot's grapheme table.
    Overflow,
}

/// The bit an attribute sets.
pub open spec fn attribute_bit(attribute: Attribute) -> u16 {
    match attribute {
        Attribute::Bold => 1,
        Attribute::Faint => 2,
        Attribute::Italic => 4,
        Attribute::Blink => 8,
        Attribute::Inverse => 16,
        Attribute::Invisible => 32,
        Attribute::Strikethrough => 64,
        Attribute::Overline => 128,
        Attribute::Wide => 256,
        Attribute::WideTail => 512,
        Attribute::Overflow => 1024,
    }
}

impl Attribute {
    /// The bit this attribute sets in a cell's `attributes`.
    pub fn bit(self) -> (bit: u16)
        ensures
            bit == attribute_bit(self),
    {
        match self {
            Attribute::Bold => 1,
            Attribute::Faint => 2,
            Attribute::Italic => 4,
            Attribute::Blink => 8,
            Attribute::Inverse => 16,
            Attribute::Invisible => 32,
            Attribute::Strikethrough => 64,
            Attribute::Overline => 128,
            Attribute::Wide => 256,
            Attribute::WideTail => 512,
            Attribute::Overflow => 1024,
        }
    }
}

/// How a cell is underlined.
#[derive(Clone, Copy, Debug, Default, PartialEq, Eq, Structural)]
pub enum Underline {
    /// Not underlined.
    #[default]
    NoUnderline,
    /// SGR 4.
    Single,
    /// SGR 21.
    Double,
    /// SGR 4:3.
    Curly,
    /// SGR 4:4.
    Dotted,
    /// SGR 4:5.
    Dashed,
    /// Underlined in a way knotty cannot name.
    Unknown,
}

/// How much of the screen changed since the last snapshot was taken.
///
/// Ordered by how much they cover, so the larger of two is the one that
/// describes both.
#[derive(Clone, Copy, Debug, PartialEq, Eq, Structural)]
pub enum Dirty {
    /// No row changed.
    Clean,
    /// Some rows changed; the row flags say which.
    Partial,
    /// Everything changed.
    Full,
}

/// Where a dirty level stands in the order of how much it covers.
pub open spec fn dirty_rank(dirty: Dirty) -> int {
    match dirty {
        Dirty::Clean => 0,
        Dirty::Partial => 1,
        Dirty::Full => 2,
    }
}

/// The larger of two dirty levels, which is the one that describes both.
pub open spec fn dirty_max(a: Dirty, b: Dirty) -> Dirty {
    if dirty_rank(a) >= dirty_rank(b) {
        a
    } else {
        b
    }
}

/// The larger of two dirty levels.
pub fn larger_dirty(a: Dirty, b: Dirty) -> (larger: Dirty)
    ensures
        larger == dirty_max(a, b),
{
    match (a, b) {
        (Dirty::Full, _) => Dirty::Full,
        (_, Dirty::Full) => Dirty::Full,
        (Dirty::Partial, _) => Dirty::Partial,
        (_, Dirty::Partial) => Dirty::Partial,
        _ => Dirty::Clean,
    }
}

/// Row state, OR-ed together into a row's `flags` field.
#[derive(Clone, Copy, Debug, PartialEq, Eq, Structural)]
pub enum RowFlag {
    /// The row changed since the last snapshot.
    Dirty,
    /// The row runs on into the next one.
    Wrapped,
    /// Part of the row is selected.
    Selected,
}

/// The bit a row flag sets.
pub open spec fn row_flag_bit(flag: RowFlag) -> u8 {
    match flag {
        RowFlag::Dirty => 1,
        RowFlag::Wrapped => 2,
        RowFlag::Selected => 4,
    }
}

impl RowFlag {
    /// The bit this flag sets in a row's `flags`.
    pub fn bit(self) -> (bit: u8)
        ensures
            bit == row_flag_bit(self),
    {
        match self {
            RowFlag::Dirty => 1,
            RowFlag::Wrapped => 2,
            RowFlag::Selected => 4,
        }
    }
}

/// What the cursor looks like.
#[derive(Clone, Copy, Debug, Default, PartialEq, Eq, Structural)]
pub enum CursorShape {
    /// A filled block over the cell.
    #[default]
    Block,
    /// A vertical bar before the cell.
    Bar,
    /// A line under the cell.
    Underline,
    /// An outlined block, drawn when the terminal is not focused.
    BlockHollow,
    /// A shape knotty cannot name.
    Unknown,
}

/// Where the cursor is and how it looks.
#[derive(Clone, Copy, Debug, Default, PartialEq, Eq, Structural)]
pub struct Cursor {
    /// Column, from the left of the viewport.
    pub x: u16,
    /// Row, from the top of the viewport.
    pub y: u16,
    /// Whether to draw it.
    pub visible: bool,
    /// Which shape to draw.
    pub shape: CursorShape,
}

/// Screen state that is not part of the grid.
#[derive(Clone, Debug, Default, PartialEq, Eq)]
pub struct ScreenState {
    /// Where the cursor is and how it looks.
    pub cursor: Cursor,
    /// Window title, with control characters removed.
    pub title: String,
    /// Working directory as an absolute path, with control characters
    /// removed.
    pub pwd: String,
}

/// What a screen state says, with its strings read as characters.
pub open spec fn screen_view(screen: ScreenState) -> (Cursor, Seq<char>, Seq<char>) {
    (screen.cursor, screen.title@, screen.pwd@)
}

impl ScreenState {
    /// A copy that says the same.
    pub fn copied(&self) -> (copy: ScreenState)
        ensures
            screen_view(copy) == screen_view(*self),
    {
        ScreenState { cursor: self.cursor, title: self.title.clone(), pwd: self.pwd.clone() }
    }

    /// Whether two screen states say the same.
    pub fn same_as(&self, other: &ScreenState) -> (same: bool)
        ensures
            same == (screen_view(*self) == screen_view(*other)),
    {
        self.cursor == other.cursor && self.title == other.title && self.pwd == other.pwd
    }
}

/// What a snapshot says about one row.
#[derive(Clone, Copy, Debug, Default, PartialEq, Eq, Structural)]
pub struct Row {
    /// A bit set of row flags.
    pub flags: u8,
    /// First selected column, inclusive.
    pub selection_start: u16,
    /// Last selected column, inclusive.
    pub selection_end: u16,
}

/// One terminal cell.
#[derive(Clone, Copy, Debug, Default, PartialEq, Eq, Structural)]
pub struct Cell {
    /// The cell's codepoint, or 0 when it holds no text; an index into the
    /// grapheme table when the cell has the overflow attribute.
    pub codepoint: u32,
    /// Foreground colour.
    pub foreground: Rgb,
    /// Background colour.
    pub background: Rgb,
    /// A bit set of attribute bits.
    pub attributes: u16,
    /// Which underline the cell carries, if any.
    pub underline: Underline,
}

/// One immutable frame of terminal state.
#[derive(Clone, Debug, PartialEq, Eq)]
pub struct Snapshot {
    /// Viewport width in cells.
    pub cols: u16,
    /// Viewport height in cells.
    pub rows: u16,
    /// How much of the screen changed since the last snapshot.
    pub dirty: Dirty,
    /// Whether a selection exists at all.
    pub has_selection: bool,
    /// Cursor, title and working directory.
    pub screen: ScreenState,
    /// `rows * cols` cells in row-major order.
    pub cells: Vec<Cell>,
    /// One entry per row.
    pub row_state: Vec<Row>,
    /// Codepoints for the cells that did not fit in one.
    pub graphemes: Vec<u32>,
}

/// Whether a grapheme table holds a whole run at `index`: its length, then
/// that many codepoints.
pub open spec fn holds_run(table: Seq<u32>, index: int) -> bool {
    0 <= index < table.len() && index + 1 + table[index] <= table.len()
}

/// Whether a frame holds together: its grid and rows are the sizes it says,
/// and every cell that points into the grapheme table points at a whole run
/// there, which is what a consumer indexing the table relies on.
pub open spec fn consistent(frame: Snapshot) -> bool {
    &&& frame.cells@.len() == frame.cols as int * frame.rows as int
    &&& frame.row_state@.len() == frame.rows as int
    &&& forall|i: int|
        0 <= i < frame.cells@.len() && #[trigger] frame.cells@[i].attributes & 1024u16 != 0
            ==> holds_run(frame.graphemes@, frame.cells@[i].codepoint as int)
}

/// A row after taking on the dirty mark of the row it replaces.
pub open spec fn absorbed_row(row: Row, dropped: Row) -> Row {
    Row { flags: row.flags | (dropped.flags & 1u8), ..row }
}

/// The row states after taking on the dirty marks of the ones they replace,
/// row for row as far as both go.
pub open spec fn absorbed_rows(rows: Seq<Row>, dropped: Seq<Row>) -> Seq<Row> {
    Seq::new(
        rows.len(),
        |i: int|
            if i < dropped.len() {
                absorbed_row(rows[i], dropped[i])
            } else {
                rows[i]
            },
    )
}

impl Snapshot {
    /// Take on the change marks of a snapshot that was published but never
    /// consumed.
    ///
    /// The engine's marks only describe what happened since the snapshot
    /// before, so when the mailbox drops an unconsumed one its marks would go
    /// with it. Both layers move together: the global level and the rows.
    pub fn absorb_marks_of(&mut self, dropped: &Self)
        ensures
            final(self).dirty == dirty_max(old(self).dirty, dropped.dirty),
            final(self).row_state@ == absorbed_rows(old(self).row_state@, dropped.row_state@),
            final(self).cols == old(self).cols,
            final(self).rows == old(self).rows,
            final(self).has_selection == old(self).has_selection,
            final(self).screen == old(self).screen,
            final(self).cells == old(self).cells,
            final(self).graphemes == old(self).graphemes,
    {
        self.dirty = larger_dirty(self.dirty, dropped.dirty);
        let n = if self.row_state.len() < dropped.row_state.len() {
            self.row_state.len()
        } else {
            dropped.row_state.len()
        };
        let ghost rows = self.row_state@;
        let ghost before = *self;
        let mut i: usize = 0;
        while i < n
            invariant
                self.dirty == before.dirty,
                self.cols == before.cols,
                self.rows == before.rows,
                self.has_selection == before.has_selection,
                self.screen == before.screen,
                self.cells == before.cells,
                self.graphemes == before.graphemes,
                n <= rows.len(),
                n <= dropped.row_state@.len(),
                i <= n,
                self.row_state@.len() == rows.len(),
                forall|j: int|
                    0 <= j < rows.len() ==> #[trigger] self.row_state@[j] == if j < i {
                        absorbed_row(rows[j], dropped.row_state@[j])
                    } else {
                        rows[j]
                    },
            decreases n - i,
        {
            let row = self.row_state[i];
            let marks = dropped.row_state[i].flags & 1u8;
            self.row_state.set(i, Row { flags: row.flags | marks, ..row });
            i = i + 1;
        }
        proof {
            assert(self.row_state@ =~= absorbed_rows(rows, dropped.row_state@));
        }
    }
}

} // verus!

verus! {

/// A snapshot dropped before anyone saw it hands over its dirty rows: every
/// row it marked dirty is dirty in the snapshot that replaces it, and no flag
/// of the replacing row is lost.
pub proof fn law_dropped_marks_carry_over(rows: Seq<Row>, dropped: Seq<Row>, i: int)
    requires
        0 <= i < rows.len(),
        i < dropped.len(),
    ensures
        dropped[i].flags & 1u8 == 1u8 ==> absorbed_rows(rows, dropped)[i].flags & 1u8 == 1u8,
        absorbed_rows(rows, dropped)[i].flags & rows[i].flags == rows[i].flags,
        absorbed_rows(rows, dropped)[i].selection_start == rows[i].selection_start,
        absorbed_rows(rows, dropped)[i].selection_end == rows[i].selection_end,
{
    let a = rows[i].flags;
    let b = dropped[i].flags;
    assert((b & 1u8 == 1u8) ==> ((a | (b & 1u8)) & 1u8 == 1u8)) by (bit_vector);
    assert((a | (b & 1u8)) & a == a) by (bit_vector);
}

/// The level a replacing snapshot reports covers both its own and the one it
/// replaces.
pub proof fn law_dirty_level_covers_both(own: Dirty, dropped: Dirty)
    ensures
        dirty_rank(dirty_max(own, dropped)) >= dirty_rank(own),
        dirty_rank(dirty_max(own, dropped)) >= dirty_rank(dropped),
        dirty_max(own, dropped) == own || dirty_max(own, dropped) == dropped,
{
}

} // verus!
