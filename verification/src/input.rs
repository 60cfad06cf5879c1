//! Cursor tracking and the per-frame interaction dispatcher.

use vstd::prelude::*;

verus! {

/// Largest magnitude a world coordinate may have. Keeping every tracked
/// point within this bound means coordinate differences never overflow
/// an `i64`.
pub const COORD_LIMIT: i64 = 0x4000_0000;

/// A point in world space, in integer world units.
#[derive(Clone, Copy, Debug, PartialEq, Eq, Structural)]
pub struct Point2 {
    pub x: i64,
    pub y: i64,
}

impl Point2 {
    /// Whether both coordinates are within the tracked world range.
    pub open spec fn in_range(self) -> bool {
        &&& -COORD_LIMIT <= self.x <= COORD_LIMIT
        &&& -COORD_LIMIT <= self.y <= COORD_LIMIT
    }

    /// Componentwise difference, as a specification value.
    pub open spec fn spec_sub(self, other: Point2) -> Point2 {
        Point2 { x: (self.x - other.x) as i64, y: (self.y - other.y) as i64 }
    }

    /// The origin.
    pub open spec fn spec_zero() -> Point2 {
        Point2 { x: 0, y: 0 }
    }

    pub fn zero() -> (r: Point2)
        ensures
            r == Point2::spec_zero(),
    {
        Point2 { x: 0, y: 0 }
    }

    /// Componentwise difference of two in-range points.
    pub fn sub(self, other: Point2) -> (r: Point2)
        requires
            self.in_range(),
            other.in_range(),
        ensures
            r == self.spec_sub(other),
            r.x == self.x - other.x,
            r.y == self.y - other.y,
    {
        Point2 { x: self.x - other.x, y: self.y - other.y }
    }
}

/// Shared cursor state, updated once per frame from the frame's pointer
/// events and button edges.
#[derive(Clone, Copy, Debug, PartialEq, Eq, Structural)]
pub struct Cursor {
    pub position: Point2,
    pub pos_relative_to_click: Point2,
    pub last_click_position: Point2,
    pub last_right_click_position: Point2,
}

impl Cursor {
    /// Well-formedness: the tracked points are in range and the
    /// click-relative offset is exactly the position minus the click
    /// anchor.
    pub open spec fn wf(self) -> bool {
        &&& self.position.in_range()
        &&& self.last_click_position.in_range()
        &&& self.last_right_click_position.in_range()
        &&& self.pos_relative_to_click == self.position.spec_sub(self.last_click_position)
    }

    /// Whether the cursor lies strictly inside the axis-aligned rectangle
    /// centered at `position` with extents `size`.
    pub fn within_rect(&self, position: Point2, size: Point2) -> (r: bool)
        requires
            self.position.in_range(),
            position.in_range(),
            size.in_range(),
            size.x >= 0,
            size.y >= 0,
        ensures
            r == {
                &&& self.position.x < position.x + size.x / 2
                &&& self.position.x > position.x - size.x / 2
                &&& self.position.y < position.y + size.y / 2
                &&& self.position.y > position.y - size.y / 2
            },
    {
        if self.position.x < position.x + size.x / 2
            && self.position.x > position.x - size.x / 2
            && self.position.y < position.y + size.y / 2
            && self.position.y > position.y - size.y / 2
        {
            return true;
        }
        return false;
    }
}

impl Default for Cursor {
    /// The startup cursor: everything at the origin.
    fn default() -> (r: Self)
        ensures
            r == (Cursor {
                position: Point2::spec_zero(),
                pos_relative_to_click: Point2::spec_zero(),
                last_click_position: Point2::spec_zero(),
                last_right_click_position: Point2::spec_zero(),
            }),
            r.wf(),
    {
        Cursor {
            position: Point2::zero(),
            pos_relative_to_click: Point2::zero(),
            last_click_position: Point2::zero(),
            last_right_click_position: Point2::zero(),
        }
    }
}

/// Applies one frame's pointer-moved events and button press edges to the
/// cursor state.
///
/// `moves` holds the frame's pointer-moved events in arrival order, already
/// converted to world coordinates; the last one wins. After the moves, a
/// left press edge snaps the click anchor to the current position and zeroes
/// the click-relative offset, and a right press edge records its own anchor.
pub fn record_mouse_events_system(
    moves: &Vec<Point2>,
    left_just_pressed: bool,
    right_just_pressed: bool,
    cursor: &mut Cursor,
)
    requires
        old(cursor).wf(),
        forall|i: int| 0 <= i < moves@.len() ==> (#[trigger] moves@[i]).in_range(),
    ensures
        final(cursor).wf(),
        final(cursor).position == (if moves@.len() > 0 {
            moves@.last()
        } else {
            old(cursor).position
        }),
        final(cursor).last_click_position == (if left_just_pressed {
            final(cursor).position
        } else {
            old(cursor).last_click_position
        }),
        final(cursor).pos_relative_to_click == (if left_just_pressed {
            Point2::spec_zero()
        } else {
            final(cursor).position.spec_sub(old(cursor).last_click_position)
        }),
        final(cursor).last_right_click_position == (if right_just_pressed {
            final(cursor).position
        } else {
            old(cursor).last_right_click_position
        }),
{
    let n = moves.len();
    let mut i: usize = 0;
    while i < n
        invariant
            n == moves@.len(),
            0 <= i <= n,
            forall|j: int| 0 <= j < moves@.len() ==> (#[trigger] moves@[j]).in_range(),
            cursor.wf(),
            cursor.last_click_position == old(cursor).last_click_position,
            cursor.last_right_click_position == old(cursor).last_right_click_position,
            cursor.position == (if i > 0 {
                moves@[i - 1]
            } else {
                old(cursor).position
            }),
        decreases n - i,
    {
        let p = moves[i];
        cursor.position = p;
        cursor.pos_relative_to_click = p.sub(cursor.last_click_position);
        i += 1;
    }

    if left_just_pressed {
        cursor.last_click_position = cursor.position;
        cursor.pos_relative_to_click = Point2::zero();
    }

    if right_just_pressed {
        cursor.last_right_click_position = cursor.position;
    }
}

/// A discrete gameplay intent emitted by the dispatcher, consumed once by
/// the drawing systems.
#[derive(Clone, Copy, Debug, PartialEq, Eq, Structural)]
pub enum Action {
    StartMakingPolygon { pos: Point2 },
    EndMakingPolygon,
    StartMakingSegment { pos: Point2 },
    EndSegment { pos: Point2 },
    StartMakingCutSegment { start: Point2 },
    EndCutSegment { end: Point2 },
    Delete,
}

/// Everything the dispatcher may decide in one frame: emit an action, raise
/// a save or load request, cancel the in-progress cut segment outright, or
/// do nothing.
#[derive(Clone, Copy, Debug, PartialEq, Eq, Structural)]
pub enum Directive {
    Emit(Action),
    QuickSave,
    QuickLoad,
    CancelCutSegment,
    NoOp,
}

/// A snapshot of the input devices for one frame: held modifiers plus
/// edge-triggered presses, each true only on the frame the key or button
/// went down.
#[derive(Clone, Copy, Debug, PartialEq, Eq, Structural)]
pub struct InputState {
    pub lshift_pressed: bool,
    pub lcontrol_pressed: bool,
    pub space_pressed: bool,
    pub g_just_pressed: bool,
    pub h_just_pressed: bool,
    pub s_just_pressed: bool,
    pub l_just_pressed: bool,
    pub z_just_pressed: bool,
    pub t_just_pressed: bool,
    pub delete_just_pressed: bool,
    pub enter_just_pressed: bool,
    pub escape_just_pressed: bool,
    pub space_just_pressed: bool,
    pub left_just_pressed: bool,
    pub right_just_pressed: bool,
}

impl InputState {
    /// Whether every edge-triggered flag is clear; held modifiers may
    /// remain.
    pub open spec fn no_edges(self) -> bool {
        &&& !self.g_just_pressed
        &&& !self.h_just_pressed
        &&& !self.s_just_pressed
        &&& !self.l_just_pressed
        &&& !self.z_just_pressed
        &&& !self.t_just_pressed
        &&& !self.delete_just_pressed
        &&& !self.enter_just_pressed
        &&& !self.escape_just_pressed
        &&& !self.space_just_pressed
        &&& !self.left_just_pressed
        &&& !self.right_just_pressed
    }

    /// The snapshot a consumer sees after it has drained this frame's
    /// edge-triggered input: held modifiers survive, every press edge is
    /// cleared.
    pub fn clear_edges(self) -> (r: InputState)
        ensures
            r.lshift_pressed == self.lshift_pressed,
            r.lcontrol_pressed == self.lcontrol_pressed,
            r.space_pressed == self.space_pressed,
            r.no_edges(),
    {
        InputState {
            g_just_pressed: false,
            h_just_pressed: false,
            s_just_pressed: false,
            l_just_pressed: false,
            z_just_pressed: false,
            t_just_pressed: false,
            delete_just_pressed: false,
            enter_just_pressed: false,
            escape_just_pressed: false,
            space_just_pressed: false,
            left_just_pressed: false,
            right_just_pressed: false,
            ..self
        }
    }
}

/// The dispatcher's decision table, written top to bottom in priority
/// order; the first guard that holds decides the frame.
///
/// `making_polygon_count` and `making_cut_segment_count` are the number of
/// entities currently carrying the respective in-progress marker (0 or 1 in
/// a well-formed session).
pub open spec fn direct_make_polygon_action_spec(
    input: InputState,
    making_polygon_count: usize,
    making_cut_segment_count: usize,
    cursor: Cursor,
) -> Directive {
    let shift = input.lshift_pressed;
    let control = input.lcontrol_pressed;
    let space = input.space_pressed;
    if !shift && !control && (input.enter_just_pressed || input.right_just_pressed
        || input.space_just_pressed) && making_polygon_count == 1 {
        Directive::Emit(Action::EndMakingPolygon)
    } else if !shift && !control && !space && input.left_just_pressed && making_polygon_count
        == 1 {
        Directive::Emit(Action::EndSegment { pos: cursor.position })
    } else if !shift && !control && !space && input.left_just_pressed
        && making_cut_segment_count == 1 {
        Directive::Emit(Action::EndCutSegment { end: cursor.position })
    } else if !shift && control && !space && input.s_just_pressed {
        Directive::QuickSave
    } else if !shift && control && !space && input.l_just_pressed {
        Directive::QuickLoad
    } else if !shift && !control && !space && input.g_just_pressed {
        Directive::NoOp
    } else if !shift && !control && !space && input.escape_just_pressed
        && making_cut_segment_count == 1 {
        Directive::CancelCutSegment
    } else if shift && control && !space && input.g_just_pressed {
        Directive::NoOp
    } else if !shift && control && !space && input.h_just_pressed {
        Directive::NoOp
    } else if shift && control && !space && input.h_just_pressed {
        Directive::NoOp
    } else if !shift && control && !space && input.z_just_pressed {
        Directive::NoOp
    } else if shift && control && !space && input.z_just_pressed {
        Directive::NoOp
    } else if shift && !control && !space && input.t_just_pressed {
        Directive::NoOp
    } else if !shift && !control && !space && (input.delete_just_pressed
        || input.escape_just_pressed) {
        Directive::Emit(Action::Delete)
    } else if shift && !control && !space && input.left_just_pressed && making_polygon_count
        == 0 {
        Directive::Emit(Action::StartMakingPolygon { pos: cursor.position })
    } else if !shift && control && !space && input.left_just_pressed
        && making_cut_segment_count == 0 {
        Directive::Emit(Action::StartMakingCutSegment { start: cursor.position })
    } else {
        Directive::NoOp
    }
}

/// Decides the frame's single directive from the input snapshot, the
/// cardinality of the in-progress markers, and the cursor.
///
/// The guards are matched in priority order and the first match wins.
/// Several recognized modifier combinations are deliberate no-ops: reserved
/// slots for future gestures, kept explicit so they never fall through to
/// an unintended rule.
pub fn direct_make_polygon_action(
    input: &InputState,
    making_polygon_count: usize,
    making_cut_segment_count: usize,
    cursor: &Cursor,
) -> (r: Directive)
    ensures
        r == direct_make_polygon_action_spec(
            *input,
            making_polygon_count,
            making_cut_segment_count,
            *cursor,
        ),
{
    let mouse_just_pressed = input.left_just_pressed;
    let mouse_right_just_pressed = input.right_just_pressed;

    let pressed_g = input.g_just_pressed;
    let pressed_h = input.h_just_pressed;
    let pressed_s = input.s_just_pressed;
    let pressed_l = input.l_just_pressed;
    let pressed_z = input.z_just_pressed;
    let pressed_t = input.t_just_pressed;
    let pressed_delete = input.delete_just_pressed;
    let pressed_enter = input.enter_just_pressed;
    let pressed_escape = input.escape_just_pressed;
    let pressed_space = input.space_just_pressed;

    match (input.lshift_pressed, input.lcontrol_pressed, input.space_pressed) {
        // ending the polygon in progress outranks everything else
        (false, false, _) if (pressed_enter || mouse_right_just_pressed || pressed_space)
            && making_polygon_count == 1 => Directive::Emit(Action::EndMakingPolygon),
        // a click ends the current segment
        (false, false, false) if mouse_just_pressed && making_polygon_count == 1 => {
            Directive::Emit(Action::EndSegment { pos: cursor.position })
        },
        (false, false, false) if mouse_just_pressed && making_cut_segment_count == 1 => {
            Directive::Emit(Action::EndCutSegment { end: cursor.position })
        },
        (false, true, false) if pressed_s => Directive::QuickSave,
        (false, true, false) if pressed_l => Directive::QuickLoad,
        // reserved gesture slot
        (false, false, false) if pressed_g => Directive::NoOp,
        // cancel the cut in progress outright, distinct from Delete
        (false, false, false) if pressed_escape && making_cut_segment_count == 1 => {
            Directive::CancelCutSegment
        },
        // reserved gesture slots
        (true, true, false) if pressed_g => Directive::NoOp,
        (false, true, false) if pressed_h => Directive::NoOp,
        (true, true, false) if pressed_h => Directive::NoOp,
        (false, true, false) if pressed_z => Directive::NoOp,
        (true, true, false) if pressed_z => Directive::NoOp,
        (true, false, false) if pressed_t => Directive::NoOp,
        (false, false, false) if pressed_delete || pressed_escape => {
            Directive::Emit(Action::Delete)
        },
        // cannot start a polygon if one is already being made
        (true, false, false) if mouse_just_pressed && making_polygon_count == 0 => {
            Directive::Emit(Action::StartMakingPolygon { pos: cursor.position })
        },
        // cannot start a cut segment if one is already being made
        (false, true, false) if mouse_just_pressed && making_cut_segment_count == 0 => {
            Directive::Emit(Action::StartMakingCutSegment { start: cursor.position })
        },
        _ => Directive::NoOp,
    }
}

/// On the frame the left button is released, every entity carrying the
/// in-progress-segment marker loses it; otherwise nothing changes. The
/// result is the marker count after the frame.
pub fn direct_release_action(
    left_just_released: bool,
    making_segment_count: usize,
) -> (r: usize)
    ensures
        r == (if left_just_released {
            0usize
        } else {
            making_segment_count
        }),
{
    if left_just_released {
        0
    } else {
        making_segment_count
    }
}

/// With a polygon in progress and Enter just pressed, and neither Shift nor
/// Control held, the dispatcher ends the polygon, whatever the rest of the
/// input snapshot holds.
pub proof fn lemma_enter_ends_polygon(
    input: InputState,
    making_polygon_count: usize,
    making_cut_segment_count: usize,
    cursor: Cursor,
)
    requires
        !input.lshift_pressed,
        !input.lcontrol_pressed,
        input.enter_just_pressed,
        making_polygon_count == 1,
    ensures
        direct_make_polygon_action_spec(
            input,
            making_polygon_count,
            making_cut_segment_count,
            cursor,
        ) == Directive::Emit(Action::EndMakingPolygon),
{
}

/// With Shift held alone, no polygon in progress and the left button just
/// pressed, the dispatcher starts a polygon at the cursor — provided the
/// reserved Shift+T slot is not engaged, which sits higher in the table.
pub proof fn lemma_shift_click_starts_polygon(
    input: InputState,
    making_polygon_count: usize,
    making_cut_segment_count: usize,
    cursor: Cursor,
)
    requires
        input.lshift_pressed,
        !input.lcontrol_pressed,
        !input.space_pressed,
        !input.t_just_pressed,
        input.left_just_pressed,
        making_polygon_count == 0,
    ensures
        direct_make_polygon_action_spec(
            input,
            making_polygon_count,
            making_cut_segment_count,
            cursor,
        ) == Directive::Emit(Action::StartMakingPolygon { pos: cursor.position }),
{
}

/// While Control is held and a cut segment is in progress, no action at all
/// is emitted: every emitting rule either demands Control released or
/// demands that no cut segment exists.
pub proof fn lemma_control_with_cut_emits_no_action(
    input: InputState,
    making_polygon_count: usize,
    making_cut_segment_count: usize,
    cursor: Cursor,
)
    requires
        input.lcontrol_pressed,
        making_cut_segment_count == 1,
    ensures
        !(direct_make_polygon_action_spec(
            input,
            making_polygon_count,
            making_cut_segment_count,
            cursor,
        ) is Emit),
{
}

/// With no modifier held, Escape just pressed, a cut segment in progress
/// and no higher-priority edge engaged, the dispatcher cancels the cut
/// outright and emits no action — in particular not `Delete`, which Escape
/// only reaches when no cut is in progress.
pub proof fn lemma_escape_cancels_cut(
    input: InputState,
    making_polygon_count: usize,
    making_cut_segment_count: usize,
    cursor: Cursor,
)
    requires
        !input.lshift_pressed,
        !input.lcontrol_pressed,
        !input.space_pressed,
        input.escape_just_pressed,
        !input.g_just_pressed,
        !input.enter_just_pressed,
        !input.right_just_pressed,
        !input.space_just_pressed,
        !input.left_just_pressed,
        making_cut_segment_count == 1,
    ensures
        direct_make_polygon_action_spec(
            input,
            making_polygon_count,
            making_cut_segment_count,
            cursor,
        ) == Directive::CancelCutSegment,
{
}

/// Once a frame's edge-triggered input has been drained, the dispatcher
/// decides nothing: every effectful rule demands at least one press edge.
/// Hence reading the same frame twice cannot emit twice.
pub proof fn lemma_no_edges_no_directive(
    input: InputState,
    making_polygon_count: usize,
    making_cut_segment_count: usize,
    cursor: Cursor,
)
    requires
        input.no_edges(),
    ensures
        direct_make_polygon_action_spec(
            input,
            making_polygon_count,
            making_cut_segment_count,
            cursor,
        ) == Directive::NoOp,
{
}

} // verus!
