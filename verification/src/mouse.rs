//! What a mouse did before anything has decided which bytes it becomes.
//!
//! The cell rather than the pixel: converting one to the other wants the
//! metrics, and those live where the display is. Whether the child hears of
//! an event at all, and in which format, is read against the terminal's
//! modes and so is decided beside it.

use vstd::prelude::*;

verus! {

/// Which way a mouse moved.
#[derive(Clone, Copy, Debug, PartialEq, Eq, Structural)]
pub enum MouseAction {
    /// A button went down.
    Press,
    /// A button came back up.
    Release,
    /// The pointer moved.
    Motion,
}

/// Which button a mouse event is about.
#[derive(Clone, Copy, Debug, PartialEq, Eq, Structural)]
pub enum MouseButton {
    /// No button, which only a motion can be.
    NoButton,
    /// The left button.
    Left,
    /// The right button.
    Right,
    /// The middle button.
    Middle,
}

/// One mouse event as it crosses the boundary.
#[derive(Clone, Copy, Debug, PartialEq, Eq, Structural)]
pub struct MouseEvent {
    /// Which way the mouse moved.
    pub action: MouseAction,
    /// Which button it was about.
    pub button: MouseButton,
    /// What was held, as modifier bits.
    pub mods: u16,
    /// The column the pointer was over, from the left of the viewport.
    pub x: u16,
    /// The row the pointer was over, from the top of the viewport.
    pub y: u16,
}

/// One turn of the wheel, in lines, over one cell. Up and right are
/// positive.
#[derive(Clone, Copy, Debug, PartialEq, Eq, Structural)]
pub struct WheelEvent {
    /// Lines sideways, right positive.
    pub delta_x: i32,
    /// Lines up or down, up positive.
    pub delta_y: i32,
    /// What was held, as modifier bits.
    pub mods: u16,
    /// The column the pointer was over.
    pub x: u16,
    /// The row the pointer was over.
    pub y: u16,
}

/// What the encoder has to be told before it reads one mouse event, and
/// whether the event is worth reading at all.
#[derive(Clone, Copy, Debug, PartialEq, Eq, Structural)]
pub struct MousePlan {
    /// The encoder's options are behind the terminal's modes and grid and
    /// have to be read again first.
    pub refresh: bool,
    /// A motion over the cell the last report was about: nothing new to
    /// say, so nothing is encoded.
    pub skip: bool,
    /// Whether to tell the encoder a button is held: a press, or a motion
    /// with a button down, which is what keeps a drag out of the window a
    /// drag.
    pub any_pressed: bool,
}

/// The plan for one event over `cell`, given whether the options are stale
/// and the cell the last reported event was over.
pub open spec fn plan_for(
    stale: bool,
    last: Option<(u16, u16)>,
    action: MouseAction,
    button: MouseButton,
    cell: (u16, u16),
) -> MousePlan {
    MousePlan {
        refresh: stale,
        skip: action == MouseAction::Motion && last == Some(cell),
        any_pressed: action == MouseAction::Press || (action == MouseAction::Motion && button
            != MouseButton::NoButton),
    }
}

/// The last reported cell after an event over `cell` encoded to
/// `encoded_len` bytes: only an event that was reported moves it.
pub open spec fn last_after(last: Option<(u16, u16)>, cell: (u16, u16), encoded_len: nat) -> Option<
    (u16, u16),
> {
    if encoded_len > 0 {
        Some(cell)
    } else {
        last
    }
}

/// The state a mouse encoder keeps between events: whether its options are
/// stale, and the cell the last reported event was over.
///
/// A drag arrives in pixels and is reported in cells, so without the last
/// cell a pointer wandering inside one cell would report once per pixel.
pub struct MotionFilter {
    stale: bool,
    last_cell: Option<(u16, u16)>,
}

impl View for MotionFilter {
    type V = (bool, Option<(u16, u16)>);

    /// Whether the options are stale, and the last reported cell.
    closed spec fn view(&self) -> (bool, Option<(u16, u16)>) {
        (self.stale, self.last_cell)
    }
}

impl MotionFilter {
    /// A filter whose options have never been read.
    pub fn new() -> (filter: Self)
        ensures
            filter@ == (true, None::<(u16, u16)>),
    {
        MotionFilter { stale: true, last_cell: None }
    }

    /// Something happened that the options may be behind — a feed or a
    /// resize. The last cell goes with them: the next event is reported
    /// wherever it falls.
    pub fn invalidate(&mut self)
        ensures
            final(self)@ == (true, None::<(u16, u16)>),
    {
        self.stale = true;
        self.last_cell = None;
    }

    /// Plan one event over `cell`. The options count as read once this
    /// returns.
    pub fn plan(&mut self, action: MouseAction, button: MouseButton, cell: (u16, u16)) -> (plan:
        MousePlan)
        ensures
            plan == plan_for(old(self)@.0, old(self)@.1, action, button, cell),
            plan.any_pressed == (action == MouseAction::Press || (action == MouseAction::Motion
                && button != MouseButton::NoButton)),
            plan.refresh == old(self)@.0,
            final(self)@ == (false, old(self)@.1),
    {
        let refresh = self.stale;
        self.stale = false;
        let skip = match action {
            MouseAction::Motion => match self.last_cell {
                Some(last) => last.0 == cell.0 && last.1 == cell.1,
                None => false,
            },
            _ => false,
        };
        let any_pressed = match action {
            MouseAction::Press => true,
            MouseAction::Motion => !matches!(button, MouseButton::NoButton),
            MouseAction::Release => false,
        };
        MousePlan { refresh, skip, any_pressed }
    }

    /// Note what encoding the event over `cell` came to.
    pub fn reported(&mut self, cell: (u16, u16), encoded_len: usize)
        ensures
            final(self)@ == (old(self)@.0, last_after(old(self)@.1, cell, encoded_len as nat)),
    {
        if encoded_len > 0 {
            self.last_cell = Some(cell);
        }
    }
}

/// A motion that was reported over a cell makes the next motion over that
/// cell a skip, whatever button either held.
pub proof fn law_motion_over_a_reported_cell_is_skipped(
    last: Option<(u16, u16)>,
    cell: (u16, u16),
    encoded_len: nat,
    button: MouseButton,
)
    requires
        encoded_len > 0,
    ensures
        plan_for(false, last_after(last, cell, encoded_len), MouseAction::Motion, button, cell).skip,
{
}

/// Nothing is skipped right after the options moved: the first event is
/// reported wherever it falls, and the options are read again first.
pub proof fn law_invalidated_filter_skips_nothing(
    action: MouseAction,
    button: MouseButton,
    cell: (u16, u16),
)
    ensures
        !plan_for(true, None, action, button, cell).skip,
        plan_for(true, None, action, button, cell).refresh,
{
}

/// Only motion is ever skipped: a press or a release over the same cell is
/// always encoded.
pub proof fn law_only_motion_is_skipped(
    stale: bool,
    last: Option<(u16, u16)>,
    action: MouseAction,
    button: MouseButton,
    cell: (u16, u16),
)
    requires
        action != MouseAction::Motion,
    ensures
        !plan_for(stale, last, action, button, cell).skip,
{
}

/// A drag is a drag whichever button is held: a motion with any button down
/// tells the encoder a button is held, just as a press does; a motion with
/// none held and a release do not. Which button it is never changes that.
pub proof fn law_any_held_button_makes_a_drag(
    stale: bool,
    last: Option<(u16, u16)>,
    button: MouseButton,
    other: MouseButton,
    cell: (u16, u16),
)
    ensures
        button != MouseButton::NoButton ==> plan_for(stale, last, MouseAction::Motion, button, cell).any_pressed,
        !plan_for(stale, last, MouseAction::Motion, MouseButton::NoButton, cell).any_pressed,
        plan_for(stale, last, MouseAction::Press, button, cell).any_pressed,
        !plan_for(stale, last, MouseAction::Release, button, cell).any_pressed,
        button != MouseButton::NoButton && other != MouseButton::NoButton ==> plan_for(
            stale,
            last,
            MouseAction::Motion,
            button,
            cell,
        ) == plan_for(stale, last, MouseAction::Motion, other, cell),
{
}

} // verus!
