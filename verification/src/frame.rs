//! Flattening what the engine's render state says into a snapshot.
//!
//! The engine is walked row by row and cell by cell by whoever holds it;
//! what each step reads arrives here as plain values, and the frame it
//! builds keeps the promises a snapshot makes: every cell has a colour, a
//! cell marked as spilled points at a whole run in the grapheme table (the
//! frame's invariant, which `finish` hands on as `consistent`), and a row's
//! flags say what the row is.

use vstd::prelude::*;

use crate::snapshot::{
    attribute_bit, consistent, Attribute, holds_run, Cell, Cursor, CursorShape, Dirty, Rgb, Row, ScreenState, Snapshot, Underline,
};
use crate::terminal::EngineAnswer;
use crate::Error;

verus! {

/// The terminal's own colours, which a cell that names none is drawn in.
#[derive(Clone, Copy, Debug, PartialEq, Eq, Structural)]
pub struct Defaults {
    /// Default foreground.
    pub foreground: Rgb,
    /// Default background.
    pub background: Rgb,
}

/// Which part of a character a cell is, as the engine says.
#[derive(Clone, Copy, Debug, PartialEq, Eq, Structural)]
pub enum Width {
    /// A cell of its own.
    Narrow,
    /// The leading cell of a character two columns wide.
    Wide,
    /// The trailing cell of a character two columns wide.
    SpacerTail,
    /// The cell before a wide character that did not fit at a row's end.
    SpacerHead,
}

/// The structure bits a cell's width sets.
pub open spec fn width_bits(width: Width) -> u16 {
    match width {
        Width::Wide => 256,
        Width::SpacerTail => 512,
        _ => 0,
    }
}

/// The structure bits for `width`.
pub fn structure_of(width: Width) -> (bits: u16)
    ensures
        bits == width_bits(width),
{
    match width {
        Width::Wide => 256,
        Width::SpacerTail => 512,
        _ => 0,
    }
}

/// The SGR state of a cell, as the engine reports it.
#[derive(Clone, Copy, Debug, PartialEq, Eq, Structural)]
pub struct Style {
    /// SGR 1.
    pub bold: bool,
    /// SGR 2.
    pub faint: bool,
    /// SGR 3.
    pub italic: bool,
    /// SGR 5.
    pub blink: bool,
    /// SGR 7.
    pub inverse: bool,
    /// SGR 8.
    pub invisible: bool,
    /// SGR 9.
    pub strikethrough: bool,
    /// SGR 53.
    pub overline: bool,
}

/// `bit` when `present`, nothing otherwise.
pub open spec fn bit_if(present: bool, bit: u16) -> u16 {
    if present {
        bit
    } else {
        0
    }
}

/// The attribute bits a style sets: one per SGR attribute present.
pub open spec fn style_bits(style: Style) -> u16 {
    bit_if(style.bold, 1) | bit_if(style.faint, 2) | bit_if(style.italic, 4) | bit_if(style.blink, 8)
        | bit_if(style.inverse, 16) | bit_if(style.invisible, 32) | bit_if(style.strikethrough, 64)
        | bit_if(style.overline, 128)
}

/// The attribute bits for `style`.
pub fn attributes_of(style: &Style) -> (bits: u16)
    ensures
        bits == style_bits(*style),
{
    let bold: u16 = if style.bold { 1 } else { 0 };
    let faint: u16 = if style.faint { 2 } else { 0 };
    let italic: u16 = if style.italic { 4 } else { 0 };
    let blink: u16 = if style.blink { 8 } else { 0 };
    let inverse: u16 = if style.inverse { 16 } else { 0 };
    let invisible: u16 = if style.invisible { 32 } else { 0 };
    let strike: u16 = if style.strikethrough { 64 } else { 0 };
    let overline: u16 = if style.overline { 128 } else { 0 };
    bold | faint | italic | blink | inverse | invisible | strike | overline
}

/// What a row's state says: its flags, and where it is selected.
pub open spec fn row_view(dirty: bool, wrapped: bool, selection: Option<(u16, u16)>) -> Row {
    Row {
        flags: (if dirty {
            1u8
        } else {
            0u8
        }) | (if wrapped {
            2u8
        } else {
            0u8
        }) | (if selection is Some {
            4u8
        } else {
            0u8
        }),
        selection_start: match selection {
            Some(s) => s.0,
            None => 0,
        },
        selection_end: match selection {
            Some(s) => s.1,
            None => 0,
        },
    }
}

/// A row's state from what the engine says of it: whether it changed,
/// whether it runs on into the next, and which columns of it are selected.
pub fn row_of(dirty: bool, wrapped: bool, selection: Option<(u16, u16)>) -> (row: Row)
    ensures
        row == row_view(dirty, wrapped, selection),
{
    let dirty_bit: u8 = if dirty { 1 } else { 0 };
    let wrapped_bit: u8 = if wrapped { 2 } else { 0 };
    let selected_bit: u8 = if selection.is_some() { 4 } else { 0 };
    let (start, end) = match selection {
        Some(s) => s,
        None => (0, 0),
    };
    Row { flags: dirty_bit | wrapped_bit | selected_bit, selection_start: start, selection_end: end }
}

/// A row's dirty flag is the row having changed, whatever else it says.
pub proof fn law_row_flags_say_what_the_row_is(
    dirty: bool,
    wrapped: bool,
    selection: Option<(u16, u16)>,
)
    ensures
        (row_view(dirty, wrapped, selection).flags & 1u8 == 1u8) == dirty,
        (row_view(dirty, wrapped, selection).flags & 2u8 == 2u8) == wrapped,
        (row_view(dirty, wrapped, selection).flags & 4u8 == 4u8) == selection is Some,
{
    let d: u8 = if dirty { 1 } else { 0 };
    let w: u8 = if wrapped { 2 } else { 0 };
    let s: u8 = if selection is Some { 4 } else { 0 };
    assert(((d == 1u8 || d == 0u8) && (w == 2u8 || w == 0u8) && (s == 4u8 || s == 0u8)) ==> (((d | w
        | s) & 1u8 == 1u8) == (d == 1u8) && ((d | w | s) & 2u8 == 2u8) == (w == 2u8) && ((d | w | s)
        & 4u8 == 4u8) == (s == 4u8))) by (bit_vector);
}

/// The cursor as the engine reports it: its viewport position only where
/// it is in the viewport, and drawn only where it is both shown and there.
pub open spec fn cursor_view(in_viewport: bool, x: u16, y: u16, shown: bool, shape: CursorShape) -> Cursor {
    Cursor {
        x: if in_viewport {
            x
        } else {
            0
        },
        y: if in_viewport {
            y
        } else {
            0
        },
        visible: in_viewport && shown,
        shape,
    }
}

/// The cursor from what the engine says of it.
pub fn cursor_of(in_viewport: bool, x: u16, y: u16, shown: bool, shape: CursorShape) -> (cursor: Cursor)
    ensures
        cursor == cursor_view(in_viewport, x, y, shown, shape),
{
    let (x, y) = if in_viewport {
        (x, y)
    } else {
        (0, 0)
    };
    Cursor { x, y, visible: in_viewport && shown, shape }
}

/// What the engine's answer to "which colour does this cell carry?" means:
/// the colour, none (the cell takes the default), or a refusal.
pub fn color_verdict(asked: EngineAnswer, color: Rgb) -> (verdict: Result<Option<Rgb>, Error>)
    ensures
        asked == EngineAnswer::Success ==> verdict == Ok::<Option<Rgb>, Error>(Some(color)),
        asked == EngineAnswer::InvalidValue || asked == EngineAnswer::NoValue ==> verdict == Ok::<
            Option<Rgb>,
            Error,
        >(None),
        asked == EngineAnswer::OutOfSpace || asked == EngineAnswer::Refused ==> verdict == Err::<
            Option<Rgb>,
            Error,
        >(Error::Engine),
{
    match asked {
        EngineAnswer::Success => Ok(Some(color)),
        EngineAnswer::InvalidValue | EngineAnswer::NoValue => Ok(None),
        _ => Err(Error::Engine),
    }
}

/// What a cell holds: one codepoint, or a cluster already spilled into the
/// grapheme table at an index.
#[derive(Clone, Copy, Debug, PartialEq, Eq, Structural)]
pub enum Content {
    /// A single codepoint, or 0 for none.
    Codepoint(u32),
    /// The index of a spilled cluster's length in the grapheme table.
    Spilled(u32),
}

/// What a cell shows, as the engine hands it over: one codepoint, or a
/// cluster too long for a cell, which goes to the grapheme table.
pub enum Glyph<'a> {
    /// A single codepoint, or 0 for none.
    Codepoint(u32),
    /// The codepoints of a cluster that did not fit in its cell.
    Cluster(&'a [u32]),
}

/// A cell built from a single codepoint is never marked as spilled: the
/// style and structure bits all lie below the overflow bit.
pub proof fn lemma_codepoint_cell_is_not_spilled(style: Style, width: Width)
    ensures
        (style_bits(style) | width_bits(width) | 0u16) & 1024u16 == 0,
{
    let b1 = bit_if(style.bold, 1);
    let b2 = bit_if(style.faint, 2);
    let b3 = bit_if(style.italic, 4);
    let b4 = bit_if(style.blink, 8);
    let b5 = bit_if(style.inverse, 16);
    let b6 = bit_if(style.invisible, 32);
    let b7 = bit_if(style.strikethrough, 64);
    let b8 = bit_if(style.overline, 128);
    let w = width_bits(width);
    assert(((b1 | b2 | b3 | b4 | b5 | b6 | b7 | b8) | w | 0u16) & 1024u16 == 0) by (bit_vector)
        requires
            b1 == 0 || b1 == 1,
            b2 == 0 || b2 == 2,
            b3 == 0 || b3 == 4,
            b4 == 0 || b4 == 8,
            b5 == 0 || b5 == 16,
            b6 == 0 || b6 == 32,
            b7 == 0 || b7 == 64,
            b8 == 0 || b8 == 128,
            w == 0 || w == 256 || w == 512,
    ;
}

/// The cell a frame holds for what the engine says of it.
pub open spec fn cell_view(
    content: Content,
    foreground: Option<Rgb>,
    background: Option<Rgb>,
    defaults: Defaults,
    style: Style,
    width: Width,
    underline: Underline,
) -> Cell {
    Cell {
        codepoint: match content {
            Content::Codepoint(c) => c,
            Content::Spilled(i) => i,
        },
        foreground: match foreground {
            Some(c) => c,
            None => defaults.foreground,
        },
        background: match background {
            Some(c) => c,
            None => defaults.background,
        },
        attributes: style_bits(style) | width_bits(width) | (if content is Spilled {
            1024u16
        } else {
            0u16
        }),
        underline,
    }
}

/// Build one cell: a colour the cell does not carry is the default, and a
/// spilled cluster is marked as an index into the table.
pub fn cell_of(
    content: Content,
    foreground: Option<Rgb>,
    background: Option<Rgb>,
    defaults: Defaults,
    style: &Style,
    width: Width,
    underline: Underline,
) -> (cell: Cell)
    ensures
        cell == cell_view(content, foreground, background, defaults, *style, width, underline),
        foreground matches Some(c) ==> cell.foreground == c,
        foreground is None ==> cell.foreground == defaults.foreground,
        background matches Some(c) ==> cell.background == c,
        background is None ==> cell.background == defaults.background,
        cell.underline == underline,
{
    let (codepoint, overflow): (u32, u16) = match content {
        Content::Codepoint(c) => (c, 0),
        Content::Spilled(i) => (i, 1024),
    };
    let foreground = match foreground {
        Some(c) => c,
        None => defaults.foreground,
    };
    let background = match background {
        Some(c) => c,
        None => defaults.background,
    };
    Cell {
        codepoint,
        foreground,
        background,
        attributes: attributes_of(style) | structure_of(width) | overflow,
        underline,
    }
}

/// A cell no iterator reached: blank, in the terminal's own colours.
pub open spec fn blank_cell(defaults: Defaults) -> Cell {
    Cell {
        codepoint: 0,
        foreground: defaults.foreground,
        background: defaults.background,
        attributes: 0,
        underline: Underline::NoUnderline,
    }
}

/// A row nothing was said about: no flags, nothing selected.
pub open spec fn blank_row() -> Row {
    Row { flags: 0, selection_start: 0, selection_end: 0 }
}

/// A frame being built: a grid of `rows` by `cols` cells, the rows' state,
/// and the grapheme table the cells point into.
pub struct Frame {
    cols: u16,
    rows: u16,
    cells: Vec<Cell>,
    row_state: Vec<Row>,
    graphemes: Vec<u32>,
}

impl Frame {
    /// Well-formed: the grid and the row state are the sizes they say, and
    /// every cell marked as spilled points at a whole run in the table.
    pub closed spec fn wf(&self) -> bool {
        &&& self.cells@.len() == self.cols as int * self.rows as int
        &&& self.row_state@.len() == self.rows as int
        &&& forall|i: int|
            0 <= i < self.cells@.len() && #[trigger] self.cells@[i].attributes & 1024u16 != 0
                ==> holds_run(self.graphemes@, self.cells@[i].codepoint as int)
    }

    /// Width in cells.
    pub closed spec fn width(&self) -> u16 {
        self.cols
    }

    /// Height in cells.
    pub closed spec fn height(&self) -> u16 {
        self.rows
    }

    /// The cells, row-major.
    pub closed spec fn grid(&self) -> Seq<Cell> {
        self.cells@
    }

    /// One entry per row.
    pub closed spec fn rows_state(&self) -> Seq<Row> {
        self.row_state@
    }

    /// The grapheme table so far.
    pub closed spec fn table(&self) -> Seq<u32> {
        self.graphemes@
    }

    /// A frame of `cols` by `rows` blank cells in the default colours.
    pub fn new(cols: u16, rows: u16, defaults: Defaults) -> (frame: Self)
        requires
            cols as int * rows as int <= usize::MAX,
        ensures
            frame.wf(),
            frame.width() == cols,
            frame.height() == rows,
            forall|i: int| 0 <= i < frame.grid().len() ==> #[trigger] frame.grid()[i] == blank_cell(defaults),
            forall|i: int| 0 <= i < frame.rows_state().len() ==> #[trigger] frame.rows_state()[i] == blank_row(),
            frame.table() == Seq::<u32>::empty(),
    {
        let total = cols as usize * rows as usize;
        let blank = Cell {
            codepoint: 0,
            foreground: defaults.foreground,
            background: defaults.background,
            attributes: 0,
            underline: Underline::NoUnderline,
        };
        let mut cells: Vec<Cell> = Vec::new();
        let mut i: usize = 0;
        while i < total
            invariant
                i <= total,
                cells@.len() == i,
                forall|j: int| 0 <= j < i ==> #[trigger] cells@[j] == blank,
            decreases total - i,
        {
            cells.push(blank);
            i = i + 1;
        }
        let mut row_state: Vec<Row> = Vec::new();
        let mut y: u16 = 0;
        while y < rows
            invariant
                y <= rows,
                row_state@.len() == y,
                forall|j: int| 0 <= j < y ==> #[trigger] row_state@[j] == blank_row(),
            decreases rows - y,
        {
            row_state.push(Row { flags: 0, selection_start: 0, selection_end: 0 });
            y = y + 1;
        }
        proof {
            assert(0u16 & 1024u16 == 0) by (bit_vector);
        }
        Frame { cols, rows, cells, row_state, graphemes: Vec::new() }
    }

    /// Set row `y`'s state.
    pub fn set_row(&mut self, y: u16, row: Row)
        requires
            old(self).wf(),
            y < old(self).height(),
        ensures
            final(self).wf(),
            final(self).width() == old(self).width(),
            final(self).height() == old(self).height(),
            final(self).grid() == old(self).grid(),
            final(self).rows_state() == old(self).rows_state().update(y as int, row),
            final(self).table() == old(self).table(),
    {
        self.row_state.set(y as usize, row);
    }

    /// Set the cell at column `x` of row `y`.
    pub fn set_cell(&mut self, y: u16, x: u16, cell: Cell)
        requires
            old(self).wf(),
            y < old(self).height(),
            x < old(self).width(),
            cell.attributes & 1024u16 != 0 ==> holds_run(old(self).table(), cell.codepoint as int),
        ensures
            final(self).wf(),
            final(self).width() == old(self).width(),
            final(self).height() == old(self).height(),
            final(self).grid() == old(self).grid().update(
                y as int * old(self).width() as int + x as int,
                cell,
            ),
            final(self).rows_state() == old(self).rows_state(),
            final(self).table() == old(self).table(),
    {
        proof {
            let cols = self.cols as int;
            let rows = self.rows as int;
            assert(y as int * cols + x < cols * rows) by (nonlinear_arith)
                requires
                    0 <= y < rows,
                    0 <= x < cols,
            ;
            assert(0 <= y as int * cols) by (nonlinear_arith)
                requires
                    0 <= y,
                    0 <= cols,
            ;
        }
        // The grid's length is a `usize`, and the cell's index lies below it.
        let grid_len = self.cells.len();
        assert(y as int * self.cols as int + x < grid_len);
        let at = y as usize * self.cols as usize + x as usize;
        self.cells.set(at, cell);
    }

    /// Set the cell at column `x` of row `y` to what the engine said of it.
    ///
    /// A cluster goes into the grapheme table first, and the cell points at
    /// it; a table too long for its index to fit in a cell is a frame too
    /// large to describe, and nothing changes.
    pub fn put(
        &mut self,
        y: u16,
        x: u16,
        glyph: Glyph,
        foreground: Option<Rgb>,
        background: Option<Rgb>,
        defaults: Defaults,
        style: &Style,
        width: Width,
        underline: Underline,
    ) -> (put: Result<(), Error>)
        requires
            old(self).wf(),
            y < old(self).height(),
            x < old(self).width(),
            glyph matches Glyph::Cluster(cluster) ==> cluster@.len() <= u32::MAX,
        ensures
            final(self).wf(),
            final(self).width() == old(self).width(),
            final(self).height() == old(self).height(),
            final(self).rows_state() == old(self).rows_state(),
            ({
                let at = y as int * old(self).width() as int + x as int;
                match glyph {
                    Glyph::Codepoint(c) => {
                        &&& put is Ok
                        &&& final(self).table() == old(self).table()
                        &&& final(self).grid() == old(self).grid().update(
                            at,
                            cell_view(Content::Codepoint(c), foreground, background, defaults, *style, width, underline),
                        )
                    },
                    Glyph::Cluster(cluster) => if old(self).table().len() <= u32::MAX {
                        &&& put is Ok
                        &&& final(self).table() == old(self).table().push(cluster@.len() as u32) + cluster@
                        &&& final(self).grid() == old(self).grid().update(
                            at,
                            cell_view(
                                Content::Spilled(old(self).table().len() as u32),
                                foreground,
                                background,
                                defaults,
                                *style,
                                width,
                                underline,
                            ),
                        )
                    } else {
                        &&& put == Err::<(), Error>(Error::TooLarge)
                        &&& final(self).table() == old(self).table()
                        &&& final(self).grid() == old(self).grid()
                    },
                }
            }),
    {
        let content = match glyph {
            Glyph::Codepoint(c) => {
                proof {
                    lemma_codepoint_cell_is_not_spilled(*style, width);
                }
                Content::Codepoint(c)
            },
            Glyph::Cluster(cluster) => {
                let ghost table = self.table();
                match self.spill(cluster) {
                    Ok(index) => {
                        proof {
                            law_spilled_cluster_is_where_its_cell_points(table, cluster@);
                            let grown = table.push(cluster@.len() as u32) + cluster@;
                            assert(grown[table.len() as int] == cluster@.len());
                        }
                        Content::Spilled(index)
                    },
                    Err(e) => return Err(e),
                }
            },
        };
        let cell = cell_of(content, foreground, background, defaults, style, width, underline);
        self.set_cell(y, x, cell);
        Ok(())
    }

    /// Put a cluster that did not fit in one cell into the grapheme table —
    /// its length, then its codepoints — and answer the index its cell
    /// carries, which is where the length went.
    ///
    /// A table too long for its index to fit in a cell is a frame too large
    /// to describe.
    pub fn spill(&mut self, cluster: &[u32]) -> (index: Result<u32, Error>)
        requires
            old(self).wf(),
            cluster@.len() <= u32::MAX,
        ensures
            final(self).wf(),
            final(self).width() == old(self).width(),
            final(self).height() == old(self).height(),
            final(self).grid() == old(self).grid(),
            final(self).rows_state() == old(self).rows_state(),
            match index {
                Ok(i) => {
                    &&& old(self).table().len() <= u32::MAX
                    &&& i == old(self).table().len()
                    &&& final(self).table() == old(self).table().push(cluster@.len() as u32)
                        + cluster@
                },
                Err(e) => {
                    &&& e == Error::TooLarge
                    &&& old(self).table().len() > u32::MAX
                    &&& final(self).table() == old(self).table()
                },
            },
    {
        let len = self.graphemes.len();
        if len > u32::MAX as usize {
            return Err(Error::TooLarge);
        }
        let index = len as u32;
        self.graphemes.push(cluster.len() as u32);
        let ghost start = self.graphemes@;
        let ghost before = *self;
        let mut k: usize = 0;
        while k < cluster.len()
            invariant
                k <= cluster@.len(),
                self.cols == before.cols,
                self.rows == before.rows,
                self.cells == before.cells,
                self.row_state == before.row_state,
                self.graphemes@ == start + cluster@.subrange(0, k as int),
            decreases cluster@.len() - k,
        {
            self.graphemes.push(cluster[k]);
            k = k + 1;
            proof {
                assert(cluster@.subrange(0, k as int) =~= cluster@.subrange(0, k - 1) + seq![
                    cluster@[k - 1],
                ]);
            }
        }
        proof {
            assert(cluster@.subrange(0, cluster@.len() as int) =~= cluster@);
        }
        Ok(index)
    }

    /// The snapshot this frame is, at `dirty`, with `screen` beside it.
    /// Whether a selection exists is session state, filled in by the
    /// session: a frame says none.
    pub fn finish(self, dirty: Dirty, screen: ScreenState) -> (snapshot: Snapshot)
        requires
            self.wf(),
        ensures
            snapshot.cols == self.width(),
            snapshot.rows == self.height(),
            snapshot.dirty == dirty,
            !snapshot.has_selection,
            snapshot.screen == screen,
            snapshot.cells@ == self.grid(),
            snapshot.row_state@ == self.rows_state(),
            snapshot.graphemes@ == self.table(),
            consistent(snapshot),
    {
        Snapshot {
            cols: self.cols,
            rows: self.rows,
            dirty,
            has_selection: false,
            screen,
            cells: self.cells,
            row_state: self.row_state,
            graphemes: self.graphemes,
        }
    }
}

/// A spilled cluster is found where its cell points: the length at the
/// index, the codepoints right after it, and nothing already in the table
/// moves.
pub proof fn law_spilled_cluster_is_where_its_cell_points(table: Seq<u32>, cluster: Seq<u32>)
    requires
        cluster.len() <= u32::MAX,
    ensures
        ({
            let grown = table.push(cluster.len() as u32) + cluster;
            &&& grown[table.len() as int] == cluster.len()
            &&& grown.subrange((table.len() + 1) as int, (table.len() + 1 + cluster.len()) as int) == cluster
            &&& grown.subrange(0, table.len() as int) == table
        }),
{
    let grown = table.push(cluster.len() as u32) + cluster;
    assert(grown.subrange((table.len() + 1) as int, (table.len() + 1 + cluster.len()) as int) =~= cluster);
    assert(grown.subrange(0, table.len() as int) =~= table);
}

/// A cell is drawn in the colours the engine gives it, each on its own: a
/// foreground or background the cell carries is the one it gets, the
/// terminal's default stands in only where it carries none, and neither
/// colour depends on the other or on what the cell shows.
pub proof fn law_cell_keeps_the_colours_it_carries(
    content: Content,
    other_content: Content,
    foreground: Option<Rgb>,
    other_foreground: Option<Rgb>,
    background: Option<Rgb>,
    other_background: Option<Rgb>,
    defaults: Defaults,
    style: Style,
    width: Width,
    underline: Underline,
)
    ensures
        ({
            let cell = cell_view(content, foreground, background, defaults, style, width, underline);
            &&& foreground matches Some(c) ==> cell.foreground == c
            &&& foreground is None ==> cell.foreground == defaults.foreground
            &&& background matches Some(c) ==> cell.background == c
            &&& background is None ==> cell.background == defaults.background
            &&& cell.underline == underline
        }),
        cell_view(content, foreground, background, defaults, style, width, underline).background
            == cell_view(other_content, other_foreground, background, defaults, style, width, underline).background,
        cell_view(content, foreground, background, defaults, style, width, underline).foreground
            == cell_view(other_content, foreground, other_background, defaults, style, width, underline).foreground,
{
}

/// What a cell shows is what the engine gave it: a codepoint stands in the
/// cell as itself and is not marked as spilled, and a spilled cluster's
/// index stands in the cell marked as spilled.
pub proof fn law_cell_shows_its_content(
    content: Content,
    foreground: Option<Rgb>,
    background: Option<Rgb>,
    defaults: Defaults,
    style: Style,
    width: Width,
    underline: Underline,
)
    ensures
        ({
            let cell = cell_view(content, foreground, background, defaults, style, width, underline);
            &&& content matches Content::Codepoint(c) ==> cell.codepoint == c && cell.attributes & 1024u16 == 0
            &&& content matches Content::Spilled(i) ==> cell.codepoint == i && cell.attributes & 1024u16 != 0
        }),
{
    let bits = style_bits(style) | width_bits(width);
    lemma_codepoint_cell_is_not_spilled(style, width);
    assert((bits | 1024u16) & 1024u16 != 0) by (bit_vector);
}

/// Each SGR flag a cell is styled with sets its own attribute's bit and no
/// other, and a cell's width sets the wide or wide-tail bit exactly when it
/// is that half of a wide character.
pub proof fn law_each_style_flag_sets_its_own_bit(style: Style, width: Width)
    ensures
        ({
            let bits = style_bits(style) | width_bits(width);
            &&& (bits & attribute_bit(Attribute::Bold) != 0) == style.bold
            &&& (bits & attribute_bit(Attribute::Faint) != 0) == style.faint
            &&& (bits & attribute_bit(Attribute::Italic) != 0) == style.italic
            &&& (bits & attribute_bit(Attribute::Blink) != 0) == style.blink
            &&& (bits & attribute_bit(Attribute::Inverse) != 0) == style.inverse
            &&& (bits & attribute_bit(Attribute::Invisible) != 0) == style.invisible
            &&& (bits & attribute_bit(Attribute::Strikethrough) != 0) == style.strikethrough
            &&& (bits & attribute_bit(Attribute::Overline) != 0) == style.overline
            &&& (bits & attribute_bit(Attribute::Wide) != 0) == (width == Width::Wide)
            &&& (bits & attribute_bit(Attribute::WideTail) != 0) == (width == Width::SpacerTail)
        }),
{
    let b1 = bit_if(style.bold, 1);
    let b2 = bit_if(style.faint, 2);
    let b3 = bit_if(style.italic, 4);
    let b4 = bit_if(style.blink, 8);
    let b5 = bit_if(style.inverse, 16);
    let b6 = bit_if(style.invisible, 32);
    let b7 = bit_if(style.strikethrough, 64);
    let b8 = bit_if(style.overline, 128);
    let w = width_bits(width);
    let bits = (b1 | b2 | b3 | b4 | b5 | b6 | b7 | b8) | w;
    assert({
        &&& (bits & 1 != 0) == (b1 == 1)
        &&& (bits & 2 != 0) == (b2 == 2)
        &&& (bits & 4 != 0) == (b3 == 4)
        &&& (bits & 8 != 0) == (b4 == 8)
        &&& (bits & 16 != 0) == (b5 == 16)
        &&& (bits & 32 != 0) == (b6 == 32)
        &&& (bits & 64 != 0) == (b7 == 64)
        &&& (bits & 128 != 0) == (b8 == 128)
        &&& (bits & 256 != 0) == (w == 256)
        &&& (bits & 512 != 0) == (w == 512)
    }) by (bit_vector)
        requires
            b1 == 0 || b1 == 1,
            b2 == 0 || b2 == 2,
            b3 == 0 || b3 == 4,
            b4 == 0 || b4 == 8,
            b5 == 0 || b5 == 16,
            b6 == 0 || b6 == 32,
            b7 == 0 || b7 == 64,
            b8 == 0 || b8 == 128,
            w == 0 || w == 256 || w == 512,
            bits == (b1 | b2 | b3 | b4 | b5 | b6 | b7 | b8) | w,
    ;
}

/// A cursor in the viewport is where the engine says and drawn exactly when
/// it is shown; one outside the viewport is never drawn. Its shape is the
/// engine's either way.
pub proof fn law_cursor_is_drawn_only_in_the_viewport(
    in_viewport: bool,
    x: u16,
    y: u16,
    shown: bool,
    shape: CursorShape,
)
    ensures
        ({
            let cursor = cursor_view(in_viewport, x, y, shown, shape);
            &&& in_viewport ==> cursor.x == x && cursor.y == y && cursor.visible == shown
            &&& !in_viewport ==> !cursor.visible
            &&& cursor.shape == shape
        }),
{
}

/// A row selected between two columns records those columns; one that is
/// not selected records none.
pub proof fn law_row_records_its_selected_columns(
    dirty: bool,
    wrapped: bool,
    selection: Option<(u16, u16)>,
)
    ensures
        selection matches Some(columns) ==> row_view(dirty, wrapped, selection).selection_start == columns.0
            && row_view(dirty, wrapped, selection).selection_end == columns.1,
        selection is None ==> row_view(dirty, wrapped, selection).selection_start == 0
            && row_view(dirty, wrapped, selection).selection_end == 0,
{
}

} // verus!
