use vstd::prelude::*;

verus! {

/// A set of window edges: empty, one side, or two adjacent sides (a corner).
#[derive(PartialEq, Eq, Structural, Clone, Copy, Debug)]
pub struct Edge {
    pub left: bool,
    pub right: bool,
    pub top: bool,
    pub bottom: bool,
}

impl Edge {
    /// No edge.
    pub fn empty() -> (e: Edge)
        ensures
            e.is_empty_spec(),
    {
        Edge { left: false, right: false, top: false, bottom: false }
    }

    pub open spec fn is_empty_spec(&self) -> bool {
        !self.left && !self.right && !self.top && !self.bottom
    }

    /// Whether no edge is set.
    pub fn is_empty(&self) -> (b: bool)
        ensures
            b == self.is_empty_spec(),
    {
        !self.left && !self.right && !self.top && !self.bottom
    }

    /// The left or the right side alone.
    pub open spec fn is_vertical_side(&self) -> bool {
        self.left != self.right && !self.top && !self.bottom
    }

    /// The top or the bottom side alone.
    pub open spec fn is_horizontal_side(&self) -> bool {
        self.top != self.bottom && !self.left && !self.right
    }

    /// The top-left or the bottom-right corner.
    pub open spec fn is_falling_diagonal(&self) -> bool {
        (self.top && self.left && !self.bottom && !self.right) || (self.bottom && self.right
            && !self.top && !self.left)
    }

    /// The top-right or the bottom-left corner.
    pub open spec fn is_rising_diagonal(&self) -> bool {
        (self.top && self.right && !self.bottom && !self.left) || (self.bottom && self.left
            && !self.top && !self.right)
    }
}

/// Mouse cursor shapes a window can show.
#[derive(PartialEq, Eq, Structural, Clone, Copy, Debug)]
pub enum CursorShape {
    ArrowCursor,
    UpArrowCursor,
    CrossCursor,
    WaitCursor,
    IBeamCursor,
    SizeVerCursor,
    SizeHorCursor,
    SizeBDiagCursor,
    SizeFDiagCursor,
    SizeAllCursor,
    BlankCursor,
    SplitVCursor,
    SplitHCursor,
    PointingHandCursor,
    ForbiddenCursor,
    WhatsThisCursor,
    BusyCursor,
    OpenHandCursor,
    ClosedHandCursor,
    DragCopyCursor,
    DragMoveCursor,
    DragLinkCursor,
}

/// Where a pointer lies relative to the border and the corners of a move/resize area, as the
/// caller's geometry decides it (rectangle `x, y, w, h`, border thickness per side, corner
/// size).
#[derive(PartialEq, Eq, Structural, Clone, Copy, Debug)]
pub struct EdgeZones {
    /// `x <= px < x + border.left`
    pub in_left_border: bool,
    /// `x + w - border.right <= px < x + w`
    pub in_right_border: bool,
    /// `y <= py < y + border.top`
    pub in_top_border: bool,
    /// `y + h - border.bottom <= py < y + h`
    pub in_bottom_border: bool,
    /// `py < y + corner`
    pub near_top: bool,
    /// `py > y + h - corner`
    pub near_bottom: bool,
    /// `px < x + corner`
    pub near_left: bool,
    /// `px > x + w - corner`
    pub near_right: bool,
    /// `border.left > 0`: the area has a left resize border
    pub has_left_border: bool,
    /// `border.right > 0`
    pub has_right_border: bool,
    /// `border.top > 0`
    pub has_top_border: bool,
    /// `border.bottom > 0`
    pub has_bottom_border: bool,
}

/// Zones that geometry can give: a pointer lies in a border only where that border is not
/// zero.
pub open spec fn zones_consistent(z: EdgeZones) -> bool {
    &&& z.in_left_border ==> z.has_left_border
    &&& z.in_right_border ==> z.has_right_border
    &&& z.in_top_border ==> z.has_top_border
    &&& z.in_bottom_border ==> z.has_bottom_border
}

/// The edge that a pointer at the given zones would resize. The left border wins over the right
/// one and the top over the bottom. Within a side border near a corner, the side widens into
/// that corner (top before bottom, left before right), but only towards an edge that has a
/// resize border: a zero border on an edge means no resizing on that edge.
pub open spec fn edge_for_zones(z: EdgeZones) -> Edge {
    let h_left = z.in_left_border;
    let h_right = !z.in_left_border && z.in_right_border;
    let v_top = z.in_top_border;
    let v_bottom = !z.in_top_border && z.in_bottom_border;
    let side_only = (h_left || h_right) && !(v_top || v_bottom);
    let top_or_bottom_only = (v_top || v_bottom) && !(h_left || h_right);
    Edge {
        left: h_left || (top_or_bottom_only && z.near_left && z.has_left_border),
        right: h_right || (top_or_bottom_only && !(z.near_left && z.has_left_border)
            && z.near_right && z.has_right_border),
        top: v_top || (side_only && z.near_top && z.has_top_border),
        bottom: v_bottom || (side_only && !(z.near_top && z.has_top_border) && z.near_bottom
            && z.has_bottom_border),
    }
}

/// The cursor shown over an edge: size cursors over sides and corners, the move cursor (or the
/// arrow when there is no move area) elsewhere.
pub open spec fn cursor_for_edge_spec(
    edge: Edge,
    has_move_area: bool,
    move_area_cursor: CursorShape,
) -> CursorShape {
    if edge.is_vertical_side() {
        CursorShape::SizeHorCursor
    } else if edge.is_horizontal_side() {
        CursorShape::SizeVerCursor
    } else if edge.is_falling_diagonal() {
        CursorShape::SizeFDiagCursor
    } else if edge.is_rising_diagonal() {
        CursorShape::SizeBDiagCursor
    } else if has_move_area {
        move_area_cursor
    } else {
        CursorShape::ArrowCursor
    }
}

fn is_side_only(e: &Edge) -> (b: bool)
    ensures
        b == e.is_vertical_side(),
{
    !e.top && !e.bottom && (e.left != e.right)
}

fn is_top_or_bottom_only(e: &Edge) -> (b: bool)
    ensures
        b == e.is_horizontal_side(),
{
    !e.left && !e.right && (e.top != e.bottom)
}

/// The edge that a pointer at the given zones would resize.
pub fn position_to_edge(z: EdgeZones) -> (edge: Edge)
    ensures
        edge == edge_for_zones(z),
{
    let mut edge = Edge::empty();
    if z.in_left_border {
        edge.left = true;
    } else if z.in_right_border {
        edge.right = true;
    }
    if z.in_top_border {
        edge.top = true;
    } else if z.in_bottom_border {
        edge.bottom = true;
    }
    if is_side_only(&edge) && z.near_top && z.has_top_border {
        edge.top = true;
    }
    if is_side_only(&edge) && z.near_bottom && z.has_bottom_border {
        edge.bottom = true;
    }
    if is_top_or_bottom_only(&edge) && z.near_left && z.has_left_border {
        edge.left = true;
    }
    if is_top_or_bottom_only(&edge) && z.near_right && z.has_right_border {
        edge.right = true;
    }
    edge
}

/// The cursor shown over an edge.
pub fn cursor_for_edge(edge: Edge, has_move_area: bool, move_area_cursor: CursorShape) -> (c:
    CursorShape)
    ensures
        c == cursor_for_edge_spec(edge, has_move_area, move_area_cursor),
{
    let l = edge.left;
    let r = edge.right;
    let t = edge.top;
    let b = edge.bottom;
    if l != r && !t && !b {
        CursorShape::SizeHorCursor
    } else if t != b && !l && !r {
        CursorShape::SizeVerCursor
    } else if (t && l && !b && !r) || (b && r && !t && !l) {
        CursorShape::SizeFDiagCursor
    } else if (t && r && !b && !l) || (b && l && !t && !r) {
        CursorShape::SizeBDiagCursor
    } else if has_move_area {
        move_area_cursor
    } else {
        CursorShape::ArrowCursor
    }
}

/// What a move/resize area asks of its window.
#[derive(PartialEq, Eq, Structural, Clone, Copy, Debug)]
pub enum WindowRequest {
    Nothing,
    StartSystemMove,
    StartSystemResize(Edge),
    SetCursor(CursorShape),
}

/// The events a move/resize area reacts to.
#[derive(PartialEq, Eq, Structural, Clone, Copy, Debug)]
pub enum MoveResizeEvent {
    TapDown,
    PointerMove(EdgeZones),
    HitTestChange(bool),
    Other,
}

/// The answer to an event: whether the control gives up the pointer capture (it does on every
/// tap, as the system move and resize send no tap-up), and the request to the window.
#[derive(PartialEq, Eq, Structural, Clone, Copy, Debug)]
pub struct MoveResizeReaction {
    pub release_capture: bool,
    pub request: WindowRequest,
}

/// The settings of a move/resize area that its decisions read.
#[derive(PartialEq, Eq, Structural, Clone, Copy, Debug)]
pub struct MoveResizeSettings {
    /// Whether the whole area inside the border moves the window.
    pub has_move_area: bool,
    /// The cursor shown inside the move area.
    pub move_area_cursor: CursorShape,
}

/// The default style of a move/resize area: it remembers the edge under the pointer.
#[derive(PartialEq, Eq, Structural, Clone, Copy, Debug)]
pub struct DefaultMoveResizeAreaStyle {
    pub current_edge: Edge,
}

/// The state and the reaction after an event.
pub open spec fn move_resize_step(
    s: DefaultMoveResizeAreaStyle,
    settings: MoveResizeSettings,
    e: MoveResizeEvent,
) -> (DefaultMoveResizeAreaStyle, MoveResizeReaction) {
    match e {
        MoveResizeEvent::TapDown => {
            let request = if s.current_edge.is_empty_spec() {
                if settings.has_move_area {
                    WindowRequest::StartSystemMove
                } else {
                    WindowRequest::Nothing
                }
            } else {
                WindowRequest::StartSystemResize(s.current_edge)
            };
            (s, MoveResizeReaction { release_capture: true, request })
        },
        MoveResizeEvent::PointerMove(z) => {
            let edge = edge_for_zones(z);
            (
                DefaultMoveResizeAreaStyle { current_edge: edge },
                MoveResizeReaction {
                    release_capture: false,
                    request: WindowRequest::SetCursor(
                        cursor_for_edge_spec(edge, settings.has_move_area, settings.move_area_cursor),
                    ),
                },
            )
        },
        MoveResizeEvent::HitTestChange(is_hit) => (
            s,
            MoveResizeReaction {
                release_capture: false,
                request: if is_hit {
                    WindowRequest::Nothing
                } else {
                    WindowRequest::SetCursor(CursorShape::ArrowCursor)
                },
            },
        ),
        MoveResizeEvent::Other => (
            s,
            MoveResizeReaction { release_capture: false, request: WindowRequest::Nothing },
        ),
    }
}

impl DefaultMoveResizeAreaStyle {
    /// A style with no edge under the pointer.
    pub fn new() -> (s: Self)
        ensures
            s.current_edge.is_empty_spec(),
    {
        DefaultMoveResizeAreaStyle { current_edge: Edge::empty() }
    }

    /// Reacts to an event.
    pub fn handle_event(&mut self, settings: MoveResizeSettings, e: MoveResizeEvent) -> (r:
        MoveResizeReaction)
        ensures
            (*final(self), r) == move_resize_step(*old(self), settings, e),
    {
        match e {
            MoveResizeEvent::TapDown => {
                let request = if self.current_edge.is_empty() {
                    if settings.has_move_area {
                        WindowRequest::StartSystemMove
                    } else {
                        WindowRequest::Nothing
                    }
                } else {
                    WindowRequest::StartSystemResize(self.current_edge)
                };
                MoveResizeReaction { release_capture: true, request }
            },
            MoveResizeEvent::PointerMove(z) => {
                let edge = position_to_edge(z);
                self.current_edge = edge;
                let cursor = cursor_for_edge(edge, settings.has_move_area, settings.move_area_cursor);
                MoveResizeReaction {
                    release_capture: false,
                    request: WindowRequest::SetCursor(cursor),
                }
            },
            MoveResizeEvent::HitTestChange(is_hit) => {
                let request = if is_hit {
                    WindowRequest::Nothing
                } else {
                    WindowRequest::SetCursor(CursorShape::ArrowCursor)
                };
                MoveResizeReaction { release_capture: false, request }
            },
            MoveResizeEvent::Other => MoveResizeReaction {
                release_capture: false,
                request: WindowRequest::Nothing,
            },
        }
    }
}

/// A pointer never resizes two opposite sides at once: the edge is empty, one side or a corner.
pub proof fn lemma_edge_is_side_or_corner(z: EdgeZones)
    ensures
        !(edge_for_zones(z).left && edge_for_zones(z).right),
        !(edge_for_zones(z).top && edge_for_zones(z).bottom),
        ({
            let e = edge_for_zones(z);
            e.is_empty_spec() || e.is_vertical_side() || e.is_horizontal_side()
                || e.is_falling_diagonal() || e.is_rising_diagonal()
        }),
{
}

/// A side resizes only from its own border, or from a neighbouring border within the corner
/// size: a pointer in no border resizes nothing, and a diagonal resize happens only near a
/// corner.
pub proof fn lemma_edges_come_from_borders(z: EdgeZones)
    ensures
        ({
            let e = edge_for_zones(z);
            &&& (!z.in_left_border && !z.in_right_border && !z.in_top_border
                && !z.in_bottom_border) ==> e.is_empty_spec()
            &&& e.left ==> z.in_left_border || ((z.in_top_border || z.in_bottom_border)
                && z.near_left && z.has_left_border)
            &&& e.right ==> z.in_right_border || ((z.in_top_border || z.in_bottom_border)
                && z.near_right && z.has_right_border)
            &&& e.top ==> z.in_top_border || ((z.in_left_border || z.in_right_border)
                && z.near_top && z.has_top_border)
            &&& e.bottom ==> z.in_bottom_border || ((z.in_left_border || z.in_right_border)
                && z.near_bottom && z.has_bottom_border)
        }),
{
}

/// Which edges a pointer resizes, side by side: the left border gives the left side and the
/// right border (outside the left one) the right side, likewise the top and the bottom; inside
/// only a left or right border, the edge widens into the top corner when near the top (with a
/// top border) and else into the bottom corner when near the bottom (with a bottom border);
/// inside only a top or bottom border, it widens into the left corner, else the right one.
pub proof fn lemma_edges_from_zones(z: EdgeZones)
    ensures
        ({
            let e = edge_for_zones(z);
            let in_side = z.in_left_border || z.in_right_border;
            let in_end = z.in_top_border || z.in_bottom_border;
            let top_corner = z.near_top && z.has_top_border;
            let left_corner = z.near_left && z.has_left_border;
            &&& z.in_left_border ==> e.left && !e.right
            &&& !z.in_left_border && z.in_right_border ==> e.right && !e.left
            &&& z.in_top_border ==> e.top && !e.bottom
            &&& !z.in_top_border && z.in_bottom_border ==> e.bottom && !e.top
            &&& in_side && !in_end ==> (e.top <==> top_corner)
            &&& in_side && !in_end ==> (e.bottom <==> (!top_corner && z.near_bottom
                && z.has_bottom_border))
            &&& in_end && !in_side ==> (e.left <==> left_corner)
            &&& in_end && !in_side ==> (e.right <==> (!left_corner && z.near_right
                && z.has_right_border))
            &&& !in_side && !in_end ==> e.is_empty_spec()
        }),
{
}

/// A zero border on an edge means no resizing on that edge: neither from a border there (it has
/// none) nor from a corner of a neighbouring border.
pub proof fn lemma_zero_border_never_resizes(z: EdgeZones)
    requires
        zones_consistent(z),
    ensures
        !z.has_left_border ==> !edge_for_zones(z).left,
        !z.has_right_border ==> !edge_for_zones(z).right,
        !z.has_top_border ==> !edge_for_zones(z).top,
        !z.has_bottom_border ==> !edge_for_zones(z).bottom,
{
}

/// Over any edge the cursor is the size cursor of that edge's direction; the move cursor is
/// shown only where no edge is.
pub proof fn lemma_cursor_over_edge(z: EdgeZones, settings: MoveResizeSettings)
    ensures
        ({
            let e = edge_for_zones(z);
            let c = cursor_for_edge_spec(e, settings.has_move_area, settings.move_area_cursor);
            &&& !e.is_empty_spec() ==> (c == CursorShape::SizeHorCursor || c
                == CursorShape::SizeVerCursor || c == CursorShape::SizeFDiagCursor || c
                == CursorShape::SizeBDiagCursor)
            &&& e.is_empty_spec() ==> c == (if settings.has_move_area {
                settings.move_area_cursor
            } else {
                CursorShape::ArrowCursor
            })
        }),
{
}

/// A tap resizes by the edge that the last pointer move found, moves the window where there was
/// none and the area has a move area, and asks nothing otherwise.
pub proof fn lemma_tap_uses_last_move(
    s: DefaultMoveResizeAreaStyle,
    settings: MoveResizeSettings,
    z: EdgeZones,
)
    ensures
        ({
            let s1 = move_resize_step(s, settings, MoveResizeEvent::PointerMove(z)).0;
            let r = move_resize_step(s1, settings, MoveResizeEvent::TapDown).1;
            let e = edge_for_zones(z);
            &&& r.release_capture
            &&& !e.is_empty_spec() ==> r.request == WindowRequest::StartSystemResize(e)
            &&& (e.is_empty_spec() && settings.has_move_area) ==> r.request
                == WindowRequest::StartSystemMove
            &&& (e.is_empty_spec() && !settings.has_move_area) ==> r.request
                == WindowRequest::Nothing
        }),
{
}

} // verus!
