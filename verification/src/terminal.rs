//! The decisions a terminal makes around the engine: what a wheel turn comes
//! to, how far the viewport moves, where a selection gesture's ends fall,
//! and what the engine's answers to a sizing question mean.
//!
//! The engine reads modes and encodes sequences; every choice made from
//! those answers is here, over plain values.

use vstd::prelude::*;

use crate::Error;
use crate::session::SelectionUnit;

verus! {

/// The most lines one turn of the wheel is told to the child as.
///
/// A turn becomes one report or one arrow per line, and the count crosses
/// the boundary as a plain number, so this is what stands between a caller
/// whose arithmetic went wrong and an allocation of gigabytes.
pub const MAX_WHEEL_LINES: u32 = 1024;

/// How many lines a delta is worth, capped at the most a turn may be.
pub open spec fn capped(delta: i32) -> int {
    let lines = if delta < 0 {
        -delta
    } else {
        delta as int
    };
    if lines < MAX_WHEEL_LINES {
        lines
    } else {
        MAX_WHEEL_LINES as int
    }
}

/// How many lines `delta` is worth.
pub fn capped_lines(delta: i32) -> (lines: u32)
    ensures
        lines == capped(delta),
        lines <= MAX_WHEEL_LINES,
{
    let wide: i64 = delta as i64;
    let magnitude: i64 = if wide < 0 {
        -wide
    } else {
        wide
    };
    if magnitude < MAX_WHEEL_LINES as i64 {
        magnitude as u32
    } else {
        MAX_WHEEL_LINES
    }
}

/// `value` brought inside `0..size`, or 0 for a size of 0.
pub open spec fn within(value: u16, size: u16) -> u16 {
    let last = if size == 0 {
        0
    } else {
        (size - 1) as u16
    };
    if value < last {
        value
    } else {
        last
    }
}

/// A cell brought inside a grid of `grid.0` columns by `grid.1` rows: a
/// pointer past the edge means the edge.
pub fn clamped(cell: (u16, u16), grid: (u16, u16)) -> (inside: (u16, u16))
    ensures
        inside == (within(cell.0, grid.0), within(cell.1, grid.1)),
{
    let last_col = if grid.0 == 0 {
        0
    } else {
        grid.0 - 1
    };
    let last_row = if grid.1 == 0 {
        0
    } else {
        grid.1 - 1
    };
    let x = if cell.0 < last_col {
        cell.0
    } else {
        last_col
    };
    let y = if cell.1 < last_row {
        cell.1
    } else {
        last_row
    };
    (x, y)
}

/// How far the viewport moves for `lines` lines of scrolling, up positive:
/// the viewport counts down where the wheel counts up, by the capped count.
pub open spec fn viewport_delta(lines: i32) -> int {
    if lines > 0 {
        -capped(lines)
    } else {
        capped(lines)
    }
}

/// The viewport delta for `lines` lines of scrolling, up positive.
pub fn scroll_delta(lines: i32) -> (delta: i64)
    ensures
        delta == viewport_delta(lines),
{
    let capped = capped_lines(lines) as i64;
    if lines > 0 {
        -capped
    } else {
        capped
    }
}

/// What one turn of the wheel came to: something for the child, or a screen
/// that moved.
pub enum Wheel {
    /// Bytes for the child — mouse reports, or cursor keys.
    Bytes(Vec<u8>),
    /// The viewport moved into the scrollback, which is a frame to publish
    /// rather than anything to send.
    Scrolled,
}

/// Which of three things a wheel turn is, and how much of it.
#[derive(Clone, Copy, Debug, PartialEq, Eq, Structural)]
pub enum WheelRoute {
    /// Mouse reports, one per line: for each axis which way it turned and
    /// how many lines. The vertical ones come first.
    Report { up: bool, vertical: u32, right: bool, horizontal: u32 },
    /// The cursor keys, one arrow per line.
    Arrows { up: bool, lines: u32 },
    /// The viewport moves by `delta` rows, down positive.
    Scroll { delta: i64 },
    /// A sideways turn nothing below reporting reads: nothing happens.
    Nothing,
}

/// What a wheel turn of `delta_x`, `delta_y` lines is, given whether mouse
/// tracking is on, whether the alternate screen is active and whether
/// alternate scroll is set.
///
/// A program that asked to hear the mouse hears this too. On the alternate
/// screen with alternate scroll on it is cursor keys, which is how a pager
/// that never asked for the mouse still scrolls. Otherwise the viewport
/// moves.
pub open spec fn route_of(
    tracking: bool,
    alternate: bool,
    alternate_scroll: bool,
    delta_x: i32,
    delta_y: i32,
) -> WheelRoute {
    if tracking {
        WheelRoute::Report {
            up: delta_y > 0,
            vertical: capped(delta_y) as u32,
            right: delta_x > 0,
            horizontal: capped(delta_x) as u32,
        }
    } else if delta_y == 0 {
        WheelRoute::Nothing
    } else if alternate && alternate_scroll {
        WheelRoute::Arrows { up: delta_y > 0, lines: capped(delta_y) as u32 }
    } else {
        WheelRoute::Scroll { delta: viewport_delta(delta_y) as i64 }
    }
}

/// Decide what a wheel turn is.
pub fn wheel_route(
    tracking: bool,
    alternate: bool,
    alternate_scroll: bool,
    delta_x: i32,
    delta_y: i32,
) -> (route: WheelRoute)
    ensures
        route == route_of(tracking, alternate, alternate_scroll, delta_x, delta_y),
{
    if tracking {
        return WheelRoute::Report {
            up: delta_y > 0,
            vertical: capped_lines(delta_y),
            right: delta_x > 0,
            horizontal: capped_lines(delta_x),
        };
    }
    if delta_y == 0 {
        return WheelRoute::Nothing;
    }
    if alternate && alternate_scroll {
        return WheelRoute::Arrows { up: delta_y > 0, lines: capped_lines(delta_y) };
    }
    WheelRoute::Scroll { delta: scroll_delta(delta_y) }
}

/// `one` written out `times` times.
pub open spec fn repeat_seq(one: Seq<u8>, times: nat) -> Seq<u8>
    decreases times,
{
    if times == 0 {
        Seq::empty()
    } else {
        repeat_seq(one, (times - 1) as nat) + one
    }
}

/// `one` written out `times` times, which is what a run of arrows is.
pub fn repeated(one: &[u8], times: u32) -> (out: Vec<u8>)
    requires
        one@.len() * times <= usize::MAX,
    ensures
        out@ == repeat_seq(one@, times as nat),
{
    let mut out: Vec<u8> = Vec::new();
    let mut done: u32 = 0;
    while done < times
        invariant
            done <= times,
            out@ == repeat_seq(one@, done as nat),
            one@.len() * times <= usize::MAX,
        decreases times - done,
    {
        proof {
            assert(out@.len() == one@.len() * done) by {
                lemma_repeat_len(one@, done as nat);
            }
            assert(one@.len() * done + one@.len() <= one@.len() * times) by (nonlinear_arith)
                requires
                    done < times,
            ;
        }
        let mut k: usize = 0;
        let ghost start = out@;
        while k < one.len()
            invariant
                k <= one@.len(),
                out@ == start + one@.subrange(0, k as int),
                start.len() + one@.len() <= usize::MAX,
            decreases one@.len() - k,
        {
            out.push(one[k]);
            k = k + 1;
            proof {
                assert(one@.subrange(0, k as int) =~= one@.subrange(0, k - 1) + seq![one@[k - 1]]);
            }
        }
        proof {
            assert(one@.subrange(0, one@.len() as int) =~= one@);
        }
        done = done + 1;
    }
    out
}

/// How long `times` copies of `one` are.
pub proof fn lemma_repeat_len(one: Seq<u8>, times: nat)
    ensures
        repeat_seq(one, times).len() == one.len() * times,
    decreases times,
{
    if times > 0 {
        lemma_repeat_len(one, (times - 1) as nat);
        assert(one.len() * times == one.len() * (times - 1) + one.len()) by (nonlinear_arith)
            requires
                times > 0,
        ;
    } else {
        assert(one.len() * times == 0) by (nonlinear_arith)
            requires
                times == 0,
        ;
    }
}

/// Where a gesture's two cells fall once brought inside the grid, or `None`
/// while the child has asked to hear the mouse — a drag inside an editor is
/// the editor's, and nothing is selected for it.
pub open spec fn gesture_cells(tracking: bool, grid: (u16, u16), anchor: (u16, u16), cell: (u16, u16)) -> Option<
    ((u16, u16), (u16, u16)),
> {
    if tracking {
        None
    } else {
        Some(
            (
                (within(anchor.0, grid.0), within(anchor.1, grid.1)),
                (within(cell.0, grid.0), within(cell.1, grid.1)),
            ),
        )
    }
}

/// The cells a selection gesture is made from.
pub fn select_cells(tracking: bool, grid: (u16, u16), anchor: (u16, u16), cell: (u16, u16)) -> (cells:
    Option<((u16, u16), (u16, u16))>)
    ensures
        cells == gesture_cells(tracking, grid, anchor, cell),
{
    if tracking {
        None
    } else {
        Some((clamped(anchor, grid), clamped(cell, grid)))
    }
}

/// Whether `a` comes no later than `b` in reading order: rows first, then
/// columns.
pub open spec fn reads_no_later(a: (u16, u16), b: (u16, u16)) -> bool {
    a.1 < b.1 || (a.1 == b.1 && a.0 <= b.0)
}

/// The ends a selection gesture installs.
///
/// Measured in cells, the ends are the two cells themselves. Measured in
/// words or lines, each end's unit is the one found from that end looking
/// toward the other, put in reading order; the anchor's end comes first,
/// and which end of each unit to take is the direction of the drag. A
/// gesture over blank screen, where either end found no unit, falls back to
/// the two cells.
pub open spec fn ends_of<P>(
    unit: SelectionUnit,
    anchor: (u16, u16),
    cell: (u16, u16),
    anchor_at: P,
    cell_at: P,
    from_anchor: Option<(P, P)>,
    from_cell: Option<(P, P)>,
) -> (P, P) {
    match (unit, from_anchor, from_cell) {
        (SelectionUnit::Cell, _, _) => (anchor_at, cell_at),
        (_, Some(a), Some(c)) => if reads_no_later(anchor, cell) {
            (a.0, c.1)
        } else {
            (a.1, c.0)
        },
        _ => (anchor_at, cell_at),
    }
}

/// Choose a selection gesture's ends. `anchor_at` and `cell_at` are where
/// the two cells are; `from_anchor` and `from_cell` are the units found from
/// each end toward the other, already in reading order.
pub fn selection_ends<P: Copy>(
    unit: SelectionUnit,
    anchor: (u16, u16),
    cell: (u16, u16),
    anchor_at: P,
    cell_at: P,
    from_anchor: Option<(P, P)>,
    from_cell: Option<(P, P)>,
) -> (ends: (P, P))
    ensures
        ends == ends_of(unit, anchor, cell, anchor_at, cell_at, from_anchor, from_cell),
{
    match unit {
        SelectionUnit::Cell => (anchor_at, cell_at),
        _ => match (from_anchor, from_cell) {
            (Some(a), Some(c)) => {
                if anchor.1 < cell.1 || (anchor.1 == cell.1 && anchor.0 <= cell.0) {
                    (a.0, c.1)
                } else {
                    (a.1, c.0)
                }
            },
            _ => (anchor_at, cell_at),
        },
    }
}

/// A selection always hangs off the cell the gesture began on: whichever way
/// the drag went, the installed selection starts at an end of the anchor's
/// unit and stops at an end of the pointer's.
pub proof fn law_selection_hangs_off_the_anchor<P>(
    unit: SelectionUnit,
    anchor: (u16, u16),
    cell: (u16, u16),
    anchor_at: P,
    cell_at: P,
    from_anchor: (P, P),
    from_cell: (P, P),
)
    requires
        unit != SelectionUnit::Cell,
    ensures
        ({
            let ends = ends_of(unit, anchor, cell, anchor_at, cell_at, Some(from_anchor), Some(from_cell));
            (ends.0 == from_anchor.0 || ends.0 == from_anchor.1) && (ends.1 == from_cell.0 || ends.1
                == from_cell.1)
        }),
{
}

/// What the engine answered a call with.
#[derive(Clone, Copy, Debug, PartialEq, Eq, Structural)]
pub enum EngineAnswer {
    /// It did what was asked.
    Success,
    /// There was nothing to answer with.
    NoValue,
    /// The buffer it was handed was too small; it said how much is needed.
    OutOfSpace,
    /// A value it was handed was not one it takes.
    InvalidValue,
    /// Anything else it can answer.
    Refused,
}

/// What an encoder's answer to "how much room?" means: go on and take the
/// bytes, or the engine refused. Out of space is the answer to the
/// question, not a failure.
pub fn sizing_verdict(asked: EngineAnswer) -> (verdict: Result<(), Error>)
    ensures
        verdict is Ok <==> (asked == EngineAnswer::Success || asked == EngineAnswer::OutOfSpace),
        verdict matches Err(e) ==> e == Error::Engine,
{
    match asked {
        EngineAnswer::Success | EngineAnswer::OutOfSpace => Ok(()),
        _ => Err(Error::Engine),
    }
}

/// What the engine's answer to "how much room does this paste need?"
/// means: `Some(true)` to go on and encode, `Some(false)` for a paste that
/// comes to nothing at all, or a refusal.
pub fn paste_verdict(asked: EngineAnswer) -> (verdict: Result<bool, Error>)
    ensures
        asked == EngineAnswer::OutOfSpace ==> verdict == Ok::<bool, Error>(true),
        asked == EngineAnswer::Success ==> verdict == Ok::<bool, Error>(false),
        asked != EngineAnswer::OutOfSpace && asked != EngineAnswer::Success ==> verdict
            == Err::<bool, Error>(Error::Engine),
{
    match asked {
        EngineAnswer::OutOfSpace => Ok(true),
        EngineAnswer::Success => Ok(false),
        _ => Err(Error::Engine),
    }
}

/// What the engine's answer to "how much room does the selection's text
/// need?" means: no selection, a selection that formats to nothing, one to
/// go on and take, or a refusal. No selection is not a failure: it is the
/// answer a copy with nothing selected gets.
pub enum SelectionSize {
    /// Nothing is selected.
    Unselected,
    /// A selection that formats to no text.
    Empty,
    /// A selection whose text has to be taken.
    Needs,
}

/// Read the engine's answer to the selection sizing question.
pub fn selection_verdict(asked: EngineAnswer) -> (verdict: Result<SelectionSize, Error>)
    ensures
        asked == EngineAnswer::NoValue <==> verdict matches Ok(SelectionSize::Unselected),
        asked == EngineAnswer::Success <==> verdict matches Ok(SelectionSize::Empty),
        asked == EngineAnswer::OutOfSpace <==> verdict matches Ok(SelectionSize::Needs),
        verdict is Err ==> verdict == Err::<SelectionSize, Error>(Error::Engine),
{
    match asked {
        EngineAnswer::NoValue => Ok(SelectionSize::Unselected),
        EngineAnswer::OutOfSpace => Ok(SelectionSize::Needs),
        EngineAnswer::Success => Ok(SelectionSize::Empty),
        _ => Err(Error::Engine),
    }
}

/// What the engine's answer to a unit search means: the unit it found, none
/// to find, or a refusal. No word between the two ends is a drag across
/// blank screen, not a failure.
pub fn unit_verdict<P>(asked: EngineAnswer, found: P) -> (verdict: Result<Option<P>, Error>)
    ensures
        asked == EngineAnswer::Success ==> verdict == Ok::<Option<P>, Error>(Some(found)),
        asked == EngineAnswer::NoValue ==> verdict == Ok::<Option<P>, Error>(None),
        asked != EngineAnswer::Success && asked != EngineAnswer::NoValue ==> verdict == Err::<
            Option<P>,
            Error,
        >(Error::Engine),
{
    match asked {
        EngineAnswer::Success => Ok(Some(found)),
        EngineAnswer::NoValue => Ok(None),
        _ => Err(Error::Engine),
    }
}

/// What the engine's answer to resolving a viewport coordinate means.
///
/// A coordinate handed in as it came is out of range when refused: outside
/// the viewport is the one way a caller can make it fail. One already
/// clamped to the grid lies inside it, so a refusal there is the engine's.
pub fn point_verdict(asked: EngineAnswer, clamped: bool) -> (verdict: Result<(), Error>)
    ensures
        verdict is Ok <==> asked == EngineAnswer::Success,
        verdict is Err && clamped ==> verdict == Err::<(), Error>(Error::Engine),
        verdict is Err && !clamped ==> verdict == Err::<(), Error>(Error::OutOfRange),
{
    match asked {
        EngineAnswer::Success => Ok(()),
        _ => if clamped {
            Err(Error::Engine)
        } else {
            Err(Error::OutOfRange)
        },
    }
}

/// Whether a call went through; every failure the engine reports is the
/// same news up here.
pub fn checked(answer: EngineAnswer) -> (result: Result<(), Error>)
    ensures
        result is Ok <==> answer == EngineAnswer::Success,
        result is Err ==> result == Err::<(), Error>(Error::Engine),
{
    match answer {
        EngineAnswer::Success => Ok(()),
        _ => Err(Error::Engine),
    }
}

/// A wheel turn that reports says as much as it turned, and no more than
/// the cap: the count of reports on each axis is the capped count of lines.
pub proof fn law_wheel_never_passes_the_cap(
    tracking: bool,
    alternate: bool,
    alternate_scroll: bool,
    delta_x: i32,
    delta_y: i32,
)
    ensures
        match route_of(tracking, alternate, alternate_scroll, delta_x, delta_y) {
            WheelRoute::Report { vertical, horizontal, .. } => vertical <= MAX_WHEEL_LINES
                && horizontal <= MAX_WHEEL_LINES,
            WheelRoute::Arrows { lines, .. } => 0 < lines <= MAX_WHEEL_LINES,
            WheelRoute::Scroll { delta } => -(MAX_WHEEL_LINES as int) <= delta <= MAX_WHEEL_LINES
                && delta != 0,
            WheelRoute::Nothing => delta_y == 0 && !tracking,
        },
{
}

/// A wheel turned up moves the viewport up, which is a negative delta; a
/// turn down moves it down.
pub proof fn law_wheel_scrolls_the_way_it_turned(delta_y: i32)
    requires
        delta_y != 0,
    ensures
        route_of(false, false, false, 0, delta_y) matches WheelRoute::Scroll { delta } && (delta_y
            > 0 <==> delta < 0),
{
}

/// A wheel turn counts as many lines as it turned, whichever way, up to the
/// cap and never past it.
pub proof fn law_wheel_counts_the_lines_it_turned(delta: i32)
    ensures
        capped(delta) <= MAX_WHEEL_LINES,
        capped(delta) >= 0,
        delta > i32::MIN ==> capped(delta) == capped((-delta) as i32),
        (delta >= 0 && delta < MAX_WHEEL_LINES) ==> capped(delta) == delta,
        (delta < 0 && -delta < MAX_WHEEL_LINES) ==> capped(delta) == -delta,
{
}

/// A coordinate is clamped to the grid: one inside it is kept, one past an
/// edge lands on that edge, and what comes out is always inside a grid that
/// has any cells.
pub proof fn law_clamped_cell_is_inside_the_grid(value: u16, size: u16)
    ensures
        size > 0 ==> within(value, size) < size,
        value < size ==> within(value, size) == value,
        size > 0 && value >= size ==> within(value, size) == size - 1,
{
}

} // verus!
