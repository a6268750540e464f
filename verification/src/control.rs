//! The controller's decision which desktop the pointer is on.
use crate::config::RemotePosition;
use crate::geometry::{
    clamp_i32, detect_edge_for_position, edge_for_position, map_entry_point, opposite_edge, Edge,
    Point, Rect,
};
use vstd::prelude::*;

verus! {

/// The desktop that receives input.
#[derive(Clone, Copy, Debug, PartialEq, Eq, Structural)]
pub enum ControlMode {
    Local,
    Remote,
}

/// What a pointer movement asks for.
#[derive(Clone, Copy, Debug, PartialEq, Eq, Structural)]
pub enum ControlOutput {
    Idle,
    EnterRemote(Point),
    MoveRemote(Point),
    ReturnLocal(Point),
}

/// The pointer's whereabouts on the two desktops.
#[derive(Clone, Copy, Debug, PartialEq, Eq, Structural)]
pub struct ControlState {
    local_desktop: Rect,
    remote_desktop: Rect,
    remote_position: RemotePosition,
    edge_trigger_px: i32,
    mode: ControlMode,
    last_local_point: Point,
    remote_point: Point,
}

/// What a `ControlState` holds.
pub struct ControlView {
    pub local_desktop: Rect,
    pub remote_desktop: Rect,
    pub remote_position: RemotePosition,
    pub edge_trigger_px: int,
    pub mode: ControlMode,
    pub last_local_point: Point,
    pub remote_point: Point,
}

/// Where a coordinate falls on another axis of a different length, in proportion
/// to the lengths.
pub open spec fn scaled_at(
    value: int,
    source_start: int,
    source_len: int,
    target_start: int,
    target_len: int,
) -> int {
    target_start + crate::geometry::clamp_int(value - source_start, 0, source_len - 1) * target_len
        / source_len
}

/// The point of the remote desktop at which the pointer enters it: on the entry
/// edge, at the height or width that the crossing point has on the local desktop.
pub open spec fn entry_target(
    position: RemotePosition,
    local_point: Point,
    local: Rect,
    remote: Rect,
) -> Point {
    if !local.valid() || !remote.valid() {
        local_point
    } else {
        let edge_point = crate::geometry::entry_at(position, local_point, local, remote);
        let row = scaled_at(
            local_point.y as int,
            local.top as int,
            local.height as int,
            remote.top as int,
            remote.height as int,
        ) as i32;
        let column = scaled_at(
            local_point.x as int,
            local.left as int,
            local.width as int,
            remote.left as int,
            remote.width as int,
        ) as i32;
        match position {
            RemotePosition::Left | RemotePosition::Right => Point { x: edge_point.x, y: row },
            RemotePosition::Top | RemotePosition::Bottom => Point { x: column, y: edge_point.y },
        }
    }
}

/// Whether a point lies beyond an edge of a desktop.
pub open spec fn beyond(point: Point, desktop: Rect, edge: Edge) -> bool {
    match edge {
        Edge::Left => point.x < desktop.left,
        Edge::Right => point.x > desktop.spec_right(),
        Edge::Top => point.y < desktop.top,
        Edge::Bottom => point.y > desktop.spec_bottom(),
    }
}

impl ControlView {
    /// Whether a local point crosses over to the remote desktop.
    pub open spec fn crosses(self, point: Point) -> bool {
        crate::geometry::edge_at_position(
            point,
            self.local_desktop,
            self.edge_trigger_px,
            self.remote_position,
        ) is Some
    }

    /// What observing a local pointer position leads to.
    pub open spec fn observed(self, point: Point) -> (ControlView, ControlOutput) {
        let seen = ControlView { last_local_point: point, ..self };
        if self.mode == ControlMode::Remote || !self.crosses(point) {
            (seen, ControlOutput::Idle)
        } else {
            let entry = entry_target(
                self.remote_position,
                point,
                self.local_desktop,
                self.remote_desktop,
            );
            (
                ControlView { mode: ControlMode::Remote, remote_point: entry, ..seen },
                ControlOutput::EnterRemote(entry),
            )
        }
    }

    /// The coordinates that observing a point computes are representable.
    pub open spec fn observation_fits(self, point: Point) -> bool {
        self.mode == ControlMode::Local ==> {
            &&& crate::geometry::strip_fits(
                self.local_desktop,
                self.edge_trigger_px,
                self.remote_position,
            )
            &&& self.crosses(point) && self.remote_desktop.valid()
                ==> crate::geometry::offset_fits(self.remote_position, point, self.local_desktop)
        }
    }

    /// Where the local pointer continues after it came back.
    pub open spec fn return_at(self) -> (int, int) {
        match self.remote_position {
            RemotePosition::Left => (
                self.local_desktop.left + self.edge_trigger_px - 1,
                self.last_local_point.y as int,
            ),
            RemotePosition::Right => (
                self.local_desktop.spec_right() - self.edge_trigger_px + 1,
                self.last_local_point.y as int,
            ),
            RemotePosition::Top => (
                self.last_local_point.x as int,
                self.local_desktop.top + self.edge_trigger_px - 1,
            ),
            RemotePosition::Bottom => (
                self.last_local_point.x as int,
                self.local_desktop.spec_bottom() - self.edge_trigger_px + 1,
            ),
        }
    }

    /// The remote point after a movement, before it is held inside the desktop.
    pub open spec fn moved(self, dx: int, dy: int) -> Point {
        Point { x: (self.remote_point.x + dx) as i32, y: (self.remote_point.y + dy) as i32 }
    }

    /// The edge of the remote desktop that leads back.
    pub open spec fn return_edge(self) -> Edge {
        crate::geometry::edge_of(self.remote_position).across()
    }

    /// What a movement of the remote pointer leads to.
    pub open spec fn applied(self, dx: int, dy: int) -> (ControlView, ControlOutput) {
        if self.mode != ControlMode::Remote {
            (self, ControlOutput::Idle)
        } else if beyond(self.moved(dx, dy), self.remote_desktop, self.return_edge()) {
            let (x, y) = self.return_at();
            (
                ControlView { mode: ControlMode::Local, ..self },
                ControlOutput::ReturnLocal(Point { x: x as i32, y: y as i32 }),
            )
        } else {
            let next = self.remote_desktop.clamped(self.moved(dx, dy));
            (ControlView { remote_point: next, ..self }, ControlOutput::MoveRemote(next))
        }
    }

    /// The coordinates that a movement computes are representable.
    pub open spec fn movement_fits(self, dx: int, dy: int) -> bool {
        self.mode == ControlMode::Remote ==> {
            &&& i32::MIN <= self.remote_point.x + dx <= i32::MAX
            &&& i32::MIN <= self.remote_point.y + dy <= i32::MAX
            &&& beyond(self.moved(dx, dy), self.remote_desktop, self.return_edge()) ==> {
                match self.remote_position {
                    RemotePosition::Left => i32::MIN <= self.local_desktop.left
                        + self.edge_trigger_px - 1 && self.local_desktop.left + self.edge_trigger_px
                        <= i32::MAX && i32::MIN <= self.local_desktop.left + self.edge_trigger_px,
                    RemotePosition::Right => i32::MIN <= self.local_desktop.spec_right()
                        - self.edge_trigger_px && self.local_desktop.spec_right()
                        - self.edge_trigger_px + 1 <= i32::MAX,
                    RemotePosition::Top => i32::MIN <= self.local_desktop.top + self.edge_trigger_px
                        - 1 && self.local_desktop.top + self.edge_trigger_px <= i32::MAX,
                    RemotePosition::Bottom => i32::MIN <= self.local_desktop.spec_bottom()
                        - self.edge_trigger_px && self.local_desktop.spec_bottom()
                        - self.edge_trigger_px + 1 <= i32::MAX,
                }
            }
        }
    }
}

impl View for ControlState {
    type V = ControlView;

    closed spec fn view(&self) -> ControlView {
        ControlView {
            local_desktop: self.local_desktop,
            remote_desktop: self.remote_desktop,
            remote_position: self.remote_position,
            edge_trigger_px: self.edge_trigger_px as int,
            mode: self.mode,
            last_local_point: self.last_local_point,
            remote_point: self.remote_point,
        }
    }
}

impl ControlState {
    pub fn new(
        local_desktop: Rect,
        remote_desktop: Rect,
        remote_position: RemotePosition,
        edge_trigger_px: i32,
    ) -> (r: Self)
        ensures
            r@ == (ControlView {
                local_desktop,
                remote_desktop,
                remote_position,
                edge_trigger_px: edge_trigger_px as int,
                mode: ControlMode::Local,
                last_local_point: Point { x: local_desktop.left, y: local_desktop.top },
                remote_point: Point { x: remote_desktop.left, y: remote_desktop.top },
            }),
    {
        Self {
            local_desktop,
            remote_desktop,
            remote_position,
            edge_trigger_px,
            mode: ControlMode::Local,
            last_local_point: Point::new(local_desktop.left, local_desktop.top),
            remote_point: Point::new(remote_desktop.left, remote_desktop.top),
        }
    }

    pub fn mode(&self) -> (r: ControlMode)
        ensures
            r == self@.mode,
    {
        self.mode
    }

    /// Gives control back to the local desktop without a pointer movement.
    pub fn force_local(&mut self)
        ensures
            final(self)@ == (ControlView { mode: ControlMode::Local, ..old(self)@ }),
    {
        self.mode = ControlMode::Local;
    }

    /// Takes note of the local pointer and enters the remote desktop at its edge.
    pub fn observe_local_pointer(&mut self, point: Point) -> (r: ControlOutput)
        requires
            old(self)@.observation_fits(point),
        ensures
            (final(self)@, r) == old(self)@.observed(point),
    {
        self.last_local_point = point;
        if self.mode == ControlMode::Remote {
            return ControlOutput::Idle;
        }
        if detect_edge_for_position(
            point,
            self.local_desktop,
            self.edge_trigger_px,
            self.remote_position,
        ).is_some() {
            self.mode = ControlMode::Remote;
            self.remote_point = self.entry_point(
                self.remote_position,
                point,
                self.local_desktop,
                self.remote_desktop,
            );
            return ControlOutput::EnterRemote(self.remote_point);
        }
        ControlOutput::Idle
    }

    /// Moves the remote pointer, or returns to the local desktop.
    pub fn apply_remote_delta(&mut self, dx: i32, dy: i32) -> (r: ControlOutput)
        requires
            old(self)@.movement_fits(dx as int, dy as int),
        ensures
            (final(self)@, r) == old(self)@.applied(dx as int, dy as int),
    {
        if self.mode != ControlMode::Remote {
            return ControlOutput::Idle;
        }
        let next = Point::new(self.remote_point.x + dx, self.remote_point.y + dy);
        let return_edge = opposite_edge(edge_for_position(self.remote_position));
        if crossed_edge(next, self.remote_desktop, return_edge) {
            self.mode = ControlMode::Local;
            return ControlOutput::ReturnLocal(self.local_return_point());
        }
        self.remote_point = self.remote_desktop.clamp(next);
        ControlOutput::MoveRemote(self.remote_point)
    }

    /// Whether the coordinates that observing a point computes are representable.
    pub fn can_observe(&self, point: Point) -> (r: bool)
        ensures
            r == self@.observation_fits(point),
    {
        if self.mode == ControlMode::Remote {
            return true;
        }
        if !crate::geometry::strip_is_representable(
            self.local_desktop,
            self.edge_trigger_px,
            self.remote_position,
        ) {
            return false;
        }
        detect_edge_for_position(
            point,
            self.local_desktop,
            self.edge_trigger_px,
            self.remote_position,
        ).is_none() || !self.remote_desktop.is_valid() || crate::geometry::offset_is_representable(
            self.remote_position,
            point,
            self.local_desktop,
        )
    }

    /// Whether the coordinates that a movement computes are representable.
    pub fn can_move(&self, dx: i32, dy: i32) -> (r: bool)
        ensures
            r == self@.movement_fits(dx as int, dy as int),
    {
        if self.mode != ControlMode::Remote {
            return true;
        }
        let low: i64 = i32::MIN as i64;
        let high: i64 = i32::MAX as i64;
        let x: i64 = self.remote_point.x as i64 + dx as i64;
        let y: i64 = self.remote_point.y as i64 + dy as i64;
        if x < low || x > high || y < low || y > high {
            return false;
        }
        let next = Point::new(self.remote_point.x + dx, self.remote_point.y + dy);
        let return_edge = opposite_edge(edge_for_position(self.remote_position));
        if !crossed_edge(next, self.remote_desktop, return_edge) {
            return true;
        }
        let trigger: i64 = self.edge_trigger_px as i64;
        match self.remote_position {
            RemotePosition::Left => {
                let edge: i64 = self.local_desktop.left as i64 + trigger;
                low < edge && edge <= high
            },
            RemotePosition::Right => {
                let edge: i64 = self.local_desktop.right() as i64 - trigger;
                low <= edge && edge < high
            },
            RemotePosition::Top => {
                let edge: i64 = self.local_desktop.top as i64 + trigger;
                low < edge && edge <= high
            },
            RemotePosition::Bottom => {
                let edge: i64 = self.local_desktop.bottom() as i64 - trigger;
                low <= edge && edge < high
            },
        }
    }

    fn local_return_point(&self) -> (r: Point)
        requires
            match self@.remote_position {
                RemotePosition::Left => i32::MIN <= self@.return_at().0 && self@.return_at().0
                    < i32::MAX,
                RemotePosition::Right => i32::MIN < self@.return_at().0 && self@.return_at().0
                    <= i32::MAX,
                RemotePosition::Top => i32::MIN <= self@.return_at().1 && self@.return_at().1
                    < i32::MAX,
                RemotePosition::Bottom => i32::MIN < self@.return_at().1 && self@.return_at().1
                    <= i32::MAX,
            },
        ensures
            r == (Point { x: self@.return_at().0 as i32, y: self@.return_at().1 as i32 }),
    {
        match self.remote_position {
            RemotePosition::Left => Point::new(
                self.local_desktop.left + self.edge_trigger_px - 1,
                self.last_local_point.y,
            ),
            RemotePosition::Right => Point::new(
                self.local_desktop.right() - self.edge_trigger_px + 1,
                self.last_local_point.y,
            ),
            RemotePosition::Top => Point::new(
                self.last_local_point.x,
                self.local_desktop.top + self.edge_trigger_px - 1,
            ),
            RemotePosition::Bottom => Point::new(
                self.last_local_point.x,
                self.local_desktop.bottom() - self.edge_trigger_px + 1,
            ),
        }
    }

    fn entry_point(
        &self,
        position: RemotePosition,
        local_point: Point,
        local: Rect,
        remote: Rect,
    ) -> (r: Point)
        requires
            local.valid() && remote.valid() ==> crate::geometry::offset_fits(
                position,
                local_point,
                local,
            ),
        ensures
            r == entry_target(position, local_point, local, remote),
    {
        let mapped = map_entry_point(position, local_point, local, remote);
        if !local.is_valid() || !remote.is_valid() {
            return mapped;
        }
        remote.clamp(
            match position {
                RemotePosition::Left => Point::new(
                    mapped.x,
                    scale_axis(local_point.y, local.top, local.height, remote.top, remote.height),
                ),
                RemotePosition::Right => Point::new(
                    mapped.x,
                    scale_axis(local_point.y, local.top, local.height, remote.top, remote.height),
                ),
                RemotePosition::Top => Point::new(
                    scale_axis(local_point.x, local.left, local.width, remote.left, remote.width),
                    mapped.y,
                ),
                RemotePosition::Bottom => Point::new(
                    scale_axis(local_point.x, local.left, local.width, remote.left, remote.width),
                    mapped.y,
                ),
            },
        )
    }
}

/// Whether `point` lies beyond `edge` of `desktop`.
pub fn crossed_edge(point: Point, desktop: Rect, edge: Edge) -> (r: bool)
    ensures
        r == beyond(point, desktop, edge),
{
    match edge {
        Edge::Left => point.x < desktop.left,
        Edge::Right => point.x > desktop.right(),
        Edge::Top => point.y < desktop.top,
        Edge::Bottom => point.y > desktop.bottom(),
    }
}

/// Scales a coordinate from one axis to another of a different length.
pub fn scale_axis(
    value: i32,
    source_start: i32,
    source_len: i32,
    target_start: i32,
    target_len: i32,
) -> (r: i32)
    requires
        source_len > 0,
        target_len > 0,
        target_start + target_len - 1 <= i32::MAX,
        i32::MIN <= value - source_start <= i32::MAX,
    ensures
        r == scaled_at(
            value as int,
            source_start as int,
            source_len as int,
            target_start as int,
            target_len as int,
        ),
        target_start <= r <= target_start + target_len - 1,
{
    let source_offset: i64 = clamp_i32(value - source_start, 0, source_len - 1) as i64;
    proof {
        lemma_scaled_below(source_offset as int, target_len as int, source_len as int);
    }
    let scaled: i64 = (source_offset * target_len as i64) / source_len as i64;
    target_start + scaled as i32
}

/// An offset inside an axis stays inside the axis it is scaled to.
proof fn lemma_scaled_below(offset: int, target_len: int, source_len: int)
    requires
        0 <= offset < source_len,
        0 < target_len < 0x8000_0000,
        0 < source_len < 0x8000_0000,
    ensures
        0 <= offset * target_len <= 0x4000_0000_0000_0000,
        0 <= offset * target_len / source_len < target_len,
{
    assert(0 <= offset * target_len <= (source_len - 1) * target_len) by (nonlinear_arith)
        requires
            0 <= offset <= source_len - 1,
            0 < target_len,
    ;
    assert((source_len - 1) * target_len <= 0x4000_0000_0000_0000) by (nonlinear_arith)
        requires
            0 < target_len < 0x8000_0000,
            0 < source_len < 0x8000_0000,
    ;
    assert(0 <= offset * target_len / source_len < target_len) by (nonlinear_arith)
        requires
            0 <= offset * target_len <= (source_len - 1) * target_len,
            0 < source_len,
            0 < target_len,
    ;
}

/// The pointer always enters a valid remote desktop on one of its pixels.
pub proof fn law_entry_lies_on_the_remote_desktop(
    position: RemotePosition,
    point: Point,
    local: Rect,
    remote: Rect,
)
    requires
        local.valid(),
        remote.valid(),
    ensures
        remote.holds(entry_target(position, point, local, remote)),
        match position {
            RemotePosition::Left => entry_target(position, point, local, remote).x
                == remote.spec_right(),
            RemotePosition::Right => entry_target(position, point, local, remote).x == remote.left,
            RemotePosition::Top => entry_target(position, point, local, remote).y
                == remote.spec_bottom(),
            RemotePosition::Bottom => entry_target(position, point, local, remote).y == remote.top,
        },
{
    lemma_scaled_below(
        crate::geometry::clamp_int(point.y - local.top, 0, local.height - 1),
        remote.height as int,
        local.height as int,
    );
    lemma_scaled_below(
        crate::geometry::clamp_int(point.x - local.left, 0, local.width - 1),
        remote.width as int,
        local.width as int,
    );
}

/// While the remote desktop has control, its pointer stays on its pixels, whatever
/// movements arrive.
pub proof fn law_remote_pointer_stays_on_the_desktop(s: ControlView, dx: int, dy: int)
    requires
        s.mode == ControlMode::Remote,
        s.remote_desktop.valid(),
        s.remote_desktop.holds(s.remote_point),
    ensures
        s.remote_desktop.holds(s.applied(dx, dy).0.remote_point),
        s.applied(dx, dy).1 matches ControlOutput::MoveRemote(p) ==> s.remote_desktop.holds(p),
{
}

/// Control changes hands only through `EnterRemote` and `ReturnLocal`: the mode
/// after a step is remote exactly when it entered, or was remote and did not return.
pub proof fn law_mode_follows_the_outputs(s: ControlView, point: Point, dx: int, dy: int)
    ensures
        s.observed(point).0.mode == ControlMode::Remote <==> s.mode == ControlMode::Remote
            || s.observed(point).1 is EnterRemote,
        s.applied(dx, dy).0.mode == ControlMode::Remote <==> s.mode == ControlMode::Remote
            && !(s.applied(dx, dy).1 is ReturnLocal),
        s.observed(point).1 is EnterRemote ==> s.mode == ControlMode::Local,
        s.applied(dx, dy).1 is ReturnLocal ==> s.mode == ControlMode::Remote,
{
}

/// A number of pixels along an edge, held inside the edge.
pub open spec fn held_offset(offset: int, len: int) -> int {
    if offset < 0 {
        0
    } else if offset > len - 1 {
        len - 1
    } else {
        offset
    }
}

/// The pointer enters the other desktop at the matching place: on the edge that touches
/// this desktop, and along that edge in proportion to where it crossed. The place is the
/// last pixel that does not lie beyond the exact proportion.
pub proof fn law_entry_is_in_proportion(s: ControlView, point: Point)
    requires
        s.local_desktop.valid(),
        s.remote_desktop.valid(),
        s.observed(point).1 is EnterRemote,
    ensures
        ({
            let entry = s.observed(point).1->EnterRemote_0;
            let local = s.local_desktop;
            let remote = s.remote_desktop;
            let row = held_offset(point.y - local.top, local.height as int);
            let column = held_offset(point.x - local.left, local.width as int);
            match s.remote_position {
                RemotePosition::Left => {
                    &&& entry.x == remote.left + remote.width - 1
                    &&& (entry.y - remote.top) * local.height <= row * remote.height < (entry.y
                        - remote.top + 1) * local.height
                },
                RemotePosition::Right => {
                    &&& entry.x == remote.left
                    &&& (entry.y - remote.top) * local.height <= row * remote.height < (entry.y
                        - remote.top + 1) * local.height
                },
                RemotePosition::Top => {
                    &&& entry.y == remote.top + remote.height - 1
                    &&& (entry.x - remote.left) * local.width <= column * remote.width < (entry.x
                        - remote.left + 1) * local.width
                },
                RemotePosition::Bottom => {
                    &&& entry.y == remote.top
                    &&& (entry.x - remote.left) * local.width <= column * remote.width < (entry.x
                        - remote.left + 1) * local.width
                },
            }
        }),
{
    let local = s.local_desktop;
    let remote = s.remote_desktop;
    let row = held_offset(point.y - local.top, local.height as int);
    let column = held_offset(point.x - local.left, local.width as int);
    lemma_scaled_below(row, remote.height as int, local.height as int);
    lemma_scaled_below(column, remote.width as int, local.width as int);
    lemma_rounded_down(row * remote.height, local.height as int);
    lemma_rounded_down(column * remote.width, local.width as int);
}

proof fn lemma_rounded_down(product: int, len: int)
    requires
        len > 0,
    ensures
        (product / len) * len <= product < (product / len + 1) * len,
{
    assert((product / len) * len <= product < (product / len + 1) * len) by (nonlinear_arith)
        requires
            len > 0,
    ;
}

/// Control changes to the other desktop exactly when the pointer is less than the
/// configured number of pixels away from what lies beyond the configured edge, and is
/// here. The pointer's place here and its place there are remembered.
pub proof fn law_control_crosses_at_the_configured_edge(s: ControlView, point: Point)
    ensures
        s.observed(point).1 is EnterRemote <==> s.mode == ControlMode::Local
            && s.local_desktop.valid() && s.edge_trigger_px > 0 && s.edge_trigger_px
            > match s.remote_position {
            RemotePosition::Left => point.x - s.local_desktop.left,
            RemotePosition::Right => s.local_desktop.left + s.local_desktop.width - 1 - point.x,
            RemotePosition::Top => point.y - s.local_desktop.top,
            RemotePosition::Bottom => s.local_desktop.top + s.local_desktop.height - 1 - point.y,
        },
        s.observed(point).1 is EnterRemote || s.observed(point).1 is Idle,
        s.observed(point).0.last_local_point == point,
        s.observed(point).1 matches ControlOutput::EnterRemote(entry)
            ==> s.observed(point).0.remote_point == entry,
        s.observed(point).1 is Idle ==> s.observed(point).0.remote_point == s.remote_point,
        s.observed(point).0.local_desktop == s.local_desktop,
        s.observed(point).0.remote_desktop == s.remote_desktop,
        s.observed(point).0.remote_position == s.remote_position,
        s.observed(point).0.edge_trigger_px == s.edge_trigger_px,
{
}

/// The pointer of the other desktop moves by what the mouse moved, and stops at the edges
/// that do not lead back. It comes back exactly when it moves beyond the edge through
/// which it came.
pub proof fn law_remote_pointer_follows_the_mouse(s: ControlView, dx: int, dy: int)
    requires
        s.mode == ControlMode::Remote,
        s.remote_desktop.valid(),
        s.movement_fits(dx, dy),
    ensures
        ({
            let remote = s.remote_desktop;
            let x = s.remote_point.x + dx;
            let y = s.remote_point.y + dy;
            let (after, output) = s.applied(dx, dy);
            let back = match s.remote_position {
                RemotePosition::Left => x > remote.left + remote.width - 1,
                RemotePosition::Right => x < remote.left,
                RemotePosition::Top => y > remote.top + remote.height - 1,
                RemotePosition::Bottom => y < remote.top,
            };
            &&& output is ReturnLocal <==> back
            &&& !back ==> output == ControlOutput::MoveRemote(after.remote_point)
            &&& !back ==> {
                let p = after.remote_point;
                &&& remote.left <= x < remote.left + remote.width ==> p.x == x
                &&& x < remote.left ==> p.x == remote.left
                &&& x >= remote.left + remote.width ==> p.x == remote.left + remote.width - 1
                &&& remote.top <= y < remote.top + remote.height ==> p.y == y
                &&& y < remote.top ==> p.y == remote.top
                &&& y >= remote.top + remote.height ==> p.y == remote.top + remote.height - 1
            }
            &&& back ==> after.remote_point == s.remote_point
            &&& after.last_local_point == s.last_local_point
            &&& after.local_desktop == s.local_desktop
            &&& after.remote_desktop == s.remote_desktop
            &&& after.remote_position == s.remote_position
            &&& after.edge_trigger_px == s.edge_trigger_px
        }),
{
}

/// The pointer comes back where it left: at the same height or width, on the innermost
/// pixel from which it would cross again, so that one pixel further inside it stays.
pub proof fn law_pointer_comes_back_at_its_edge(s: ControlView, dx: int, dy: int)
    requires
        s.local_desktop.valid(),
        s.edge_trigger_px > 0,
        s.movement_fits(dx, dy),
        s.applied(dx, dy).1 is ReturnLocal,
    ensures
        ({
            let p = s.applied(dx, dy).1->ReturnLocal_0;
            let after = s.applied(dx, dy).0;
            let last = s.last_local_point;
            &&& after.mode == ControlMode::Local
            &&& after.crosses(p)
            &&& match s.remote_position {
                RemotePosition::Left => p.y == last.y && forall|inner: Point|
                    inner.x > p.x ==> !#[trigger] after.crosses(inner),
                RemotePosition::Right => p.y == last.y && forall|inner: Point|
                    inner.x < p.x ==> !#[trigger] after.crosses(inner),
                RemotePosition::Top => p.x == last.x && forall|inner: Point|
                    inner.y > p.y ==> !#[trigger] after.crosses(inner),
                RemotePosition::Bottom => p.x == last.x && forall|inner: Point|
                    inner.y < p.y ==> !#[trigger] after.crosses(inner),
            }
        }),
{
}

} // verus!
