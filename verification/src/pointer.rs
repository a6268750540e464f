//! The local pointer while the other computer is controlled: where it is parked and
//! how its movements are read.
use crate::geometry::{
    saturate_i32, saturating_add_i32, saturating_sub_i32, Point, Rect,
};
use vstd::prelude::*;

verus! {

pub const PARK_POINTER_TOLERANCE_PX: i32 = 32;

pub const PARK_POINTER_EDGE_MARGIN_PX: i32 = 96;

pub const RAW_FALLBACK_DELAY_MILLIS: u64 = 4;

/// Half a length, towards zero.
pub open spec fn half(n: int) -> int {
    if n >= 0 { n / 2 } else { -((-n) / 2) }
}

/// The middle of a desktop, where the pointer is parked.
pub open spec fn anchor_of(desktop: Rect) -> Point {
    Point {
        x: saturate_i32(desktop.left + half(desktop.width as int)) as i32,
        y: saturate_i32(desktop.top + half(desktop.height as int)) as i32,
    }
}

fn half_of(n: i32) -> (r: i32)
    ensures
        r == half(n as int),
{
    if n >= 0 {
        n / 2
    } else {
        let magnitude: i64 = -(n as i64);
        (-(magnitude / 2)) as i32
    }
}

/// The pointer is taken to be in the middle of the desktop.
pub fn mark_local_pointer_parked_for_remote_control(
    local_desktop: Rect,
    last_pointer: &mut Option<Point>,
) -> (r: Point)
    ensures
        r == anchor_of(local_desktop),
        *final(last_pointer) == Some(r),
{
    let anchor = Point::new(
        saturating_add_i32(local_desktop.left, half_of(local_desktop.width)),
        saturating_add_i32(local_desktop.top, half_of(local_desktop.height)),
    );
    *last_pointer = Some(anchor);
    anchor
}

/// Whether two coordinates are close.
pub open spec fn close(a: i32, b: i32, tolerance: int) -> bool {
    -tolerance <= a - b <= tolerance
}

/// Whether two points are close in both directions.
pub open spec fn close_points(point: Point, target: Point, tolerance: int) -> bool {
    close(point.x, target.x, tolerance) && close(point.y, target.y, tolerance)
}

fn within(a: i32, b: i32, tolerance: i32) -> (r: bool)
    ensures
        r == close(a, b, tolerance as int),
{
    let difference: i64 = a as i64 - b as i64;
    let limit: i64 = tolerance as i64;
    -limit <= difference && difference <= limit
}

pub fn point_within_tolerance(point: Point, target: Point, tolerance: i32) -> (r: bool)
    requires
        tolerance >= 0,
    ensures
        r == close_points(point, target, tolerance as int),
{
    within(point.x, target.x, tolerance) && within(point.y, target.y, tolerance)
}

/// A position is the echo of a pointer that was put somewhere.
pub open spec fn is_park_echo(point: Point, pending: Option<Point>) -> bool {
    pending is Some && close_points(point, pending->0, PARK_POINTER_TOLERANCE_PX as int)
}

/// Takes the first position after the pointer was put somewhere. If it is close to
/// that place, it is no movement of the user.
pub fn consume_pending_pointer_park(
    point: Point,
    last_pointer: &mut Option<Point>,
    pending_pointer_park: &mut Option<Point>,
) -> (r: bool)
    ensures
        r == is_park_echo(point, *old(pending_pointer_park)),
        *final(pending_pointer_park) == None::<Point>,
        *final(last_pointer) == (if r {
            *old(pending_pointer_park)
        } else {
            *old(last_pointer)
        }),
{
    match pending_pointer_park.take() {
        Some(anchor) => {
            if point_within_tolerance(point, anchor, PARK_POINTER_TOLERANCE_PX) {
                *last_pointer = Some(anchor);
                true
            } else {
                false
            }
        },
        None => false,
    }
}

/// What a position of the local pointer means for the remote one.
#[derive(Clone, Copy, Debug, PartialEq, Eq, Structural)]
pub enum RemotePointerPositionAction {
    TrackOnly { repark_after_move: bool },
    Delta { dx: i32, dy: i32, repark_after_move: bool },
}

/// The difference of two coordinates, as far as it can be represented.
pub fn signed_delta(previous: i32, next: i32) -> (r: i32)
    ensures
        r == saturate_i32(next - previous),
{
    saturating_sub_i32(next, previous)
}

/// The pointer comes close to an edge of a valid desktop.
pub open spec fn near_border(point: Point, desktop: Rect) -> bool {
    desktop.valid() && {
        ||| point.x <= saturate_i32(desktop.left + PARK_POINTER_EDGE_MARGIN_PX)
        ||| point.x >= saturate_i32(desktop.spec_right() - PARK_POINTER_EDGE_MARGIN_PX)
        ||| point.y <= saturate_i32(desktop.top + PARK_POINTER_EDGE_MARGIN_PX)
        ||| point.y >= saturate_i32(desktop.spec_bottom() - PARK_POINTER_EDGE_MARGIN_PX)
    }
}

pub fn should_repark_local_pointer_for_remote_control(point: Point, local_desktop: Rect) -> (r:
    bool)
    ensures
        r == near_border(point, local_desktop),
{
    if !local_desktop.is_valid() {
        return false;
    }
    point.x <= saturating_add_i32(local_desktop.left, PARK_POINTER_EDGE_MARGIN_PX) || point.x
        >= saturating_sub_i32(local_desktop.right(), PARK_POINTER_EDGE_MARGIN_PX) || point.y
        <= saturating_add_i32(local_desktop.top, PARK_POINTER_EDGE_MARGIN_PX) || point.y
        >= saturating_sub_i32(local_desktop.bottom(), PARK_POINTER_EDGE_MARGIN_PX)
}

/// What a position means: the movement since the last one, unless raw movements
/// tell it already.
pub open spec fn position_action(
    point: Point,
    desktop: Rect,
    previous: Option<Point>,
    raw_delta_recent: bool,
) -> RemotePointerPositionAction {
    let repark_after_move = near_border(point, desktop);
    if raw_delta_recent || previous is None || previous == Some(point) {
        RemotePointerPositionAction::TrackOnly { repark_after_move }
    } else {
        RemotePointerPositionAction::Delta {
            dx: saturate_i32(point.x - previous->0.x) as i32,
            dy: saturate_i32(point.y - previous->0.y) as i32,
            repark_after_move,
        }
    }
}

pub fn remote_pointer_position_action(
    point: Point,
    local_desktop: Rect,
    last_pointer: &mut Option<Point>,
    raw_delta_recent: bool,
) -> (r: RemotePointerPositionAction)
    ensures
        r == position_action(point, local_desktop, *old(last_pointer), raw_delta_recent),
        *final(last_pointer) == Some(point),
{
    let previous = *last_pointer;
    *last_pointer = Some(point);
    let repark_after_move = should_repark_local_pointer_for_remote_control(point, local_desktop);
    if raw_delta_recent {
        return RemotePointerPositionAction::TrackOnly { repark_after_move };
    }
    match previous {
        None => RemotePointerPositionAction::TrackOnly { repark_after_move },
        Some(before) => {
            let dx: i32 = signed_delta(before.x, point.x);
            let dy: i32 = signed_delta(before.y, point.y);
            if dx == 0 && dy == 0 {
                RemotePointerPositionAction::TrackOnly { repark_after_move }
            } else {
                RemotePointerPositionAction::Delta { dx, dy, repark_after_move }
            }
        },
    }
}

/// A position that is read as a movement unless a raw movement follows soon.
#[derive(Clone, Copy, Debug, PartialEq, Eq, Structural)]
pub struct PendingRemotePointerPosition {
    pub point: Point,
    pub observed_millis: u64,
}

impl PendingRemotePointerPosition {
    /// A raw movement was waited for long enough.
    pub open spec fn due(self, now_millis: u64) -> bool {
        now_millis - self.observed_millis >= RAW_FALLBACK_DELAY_MILLIS
    }
}

pub fn pending_remote_pointer_position_due(
    pending: PendingRemotePointerPosition,
    now_millis: u64,
) -> (r: bool)
    ensures
        r == pending.due(now_millis),
{
    now_millis.saturating_sub(pending.observed_millis) >= RAW_FALLBACK_DELAY_MILLIS
}

/// A raw movement came: the position that waited tells only where the pointer is.
pub fn clear_pending_remote_pointer_position_after_raw_delta(
    pending_remote_pointer_position: &mut Option<PendingRemotePointerPosition>,
    last_pointer: &mut Option<Point>,
) -> (r: bool)
    ensures
        *final(pending_remote_pointer_position) == None::<PendingRemotePointerPosition>,
        r == (*old(pending_remote_pointer_position) is Some),
        *final(last_pointer) == (match *old(pending_remote_pointer_position) {
            Some(pending) => Some(pending.point),
            None => *old(last_pointer),
        }),
{
    match pending_remote_pointer_position.take() {
        Some(pending) => {
            *last_pointer = Some(pending.point);
            true
        },
        None => false,
    }
}

/// Parking does not park again: on a valid desktop that is wide and high enough, the
/// anchor lies away from every edge.
pub proof fn law_anchor_is_away_from_the_edges(desktop: Rect)
    requires
        desktop.valid(),
        desktop.width > 2 * PARK_POINTER_EDGE_MARGIN_PX + 2,
        desktop.height > 2 * PARK_POINTER_EDGE_MARGIN_PX + 2,
    ensures
        !near_border(anchor_of(desktop), desktop),
        desktop.holds(anchor_of(desktop)),
{
}

/// The pointer that was parked is not read as a movement: its own position is taken
/// for the echo.
pub proof fn law_parked_position_is_an_echo(anchor: Point)
    ensures
        is_park_echo(anchor, Some(anchor)),
{
}

/// The pointer is parked in the middle of the desktop: as far from the left edge as from
/// the right, and from the top as from the bottom, up to one pixel.
pub proof fn law_anchor_is_the_middle(desktop: Rect)
    requires
        desktop.valid(),
    ensures
        ({
            let anchor = anchor_of(desktop);
            let left = anchor.x - desktop.left;
            let right = desktop.left + desktop.width - anchor.x;
            let above = anchor.y - desktop.top;
            let below = desktop.top + desktop.height - anchor.y;
            &&& 0 <= right - left <= 1
            &&& 0 <= below - above <= 1
        }),
{
}

/// The first position after the pointer was put somewhere is no movement of the user
/// exactly if it is within 32 pixels of that place in both directions.
pub proof fn law_echoes_are_near_their_place(point: Point, place: Point)
    ensures
        is_park_echo(point, Some(place)) <==> point.x - place.x <= 32 && place.x - point.x <= 32
            && point.y - place.y <= 32 && place.y - point.y <= 32,
        !is_park_echo(point, None),
{
}

/// A position is read as the movement since the last one; so two positions one after the
/// other move the remote pointer as far as going to the second directly. Without a last
/// position, or with raw movements, it moves nothing.
pub proof fn law_positions_are_read_as_movements(
    first: Point,
    second: Point,
    desktop: Rect,
    previous: Option<Point>,
)
    ensures
        position_action(second, desktop, Some(first), true) is TrackOnly,
        position_action(second, desktop, None, false) is TrackOnly,
        position_action(second, desktop, Some(second), false) is TrackOnly,
        position_action(second, desktop, Some(first), false) matches
            RemotePointerPositionAction::Delta { dx, dy, .. } ==> {
            &&& i32::MIN <= second.x - first.x <= i32::MAX ==> first.x + dx == second.x
            &&& i32::MIN <= second.y - first.y <= i32::MAX ==> first.y + dy == second.y
        },
        first != second ==> position_action(second, desktop, Some(first), false) is Delta,
        match position_action(second, desktop, previous, false) {
            RemotePointerPositionAction::TrackOnly { repark_after_move } => repark_after_move,
            RemotePointerPositionAction::Delta { repark_after_move, .. } => repark_after_move,
        } == near_border(second, desktop),
{
}

/// The pointer is parked again exactly when it comes within 96 pixels of an edge of a
/// desktop that is wider and higher than that.
pub proof fn law_borders_are_96_pixels_wide(point: Point, desktop: Rect)
    requires
        desktop.valid(),
        desktop.width > 96,
        desktop.height > 96,
    ensures
        near_border(point, desktop) <==> point.x - desktop.left <= 96 || desktop.left
            + desktop.width - 1 - point.x <= 96 || point.y - desktop.top <= 96 || desktop.top
            + desktop.height - 1 - point.y <= 96,
{
}

/// A position waits four milliseconds for a raw movement, and no longer.
pub proof fn law_positions_wait_for_raw_movements(
    pending: PendingRemotePointerPosition,
    now_millis: u64,
)
    ensures
        pending.due(now_millis) <==> now_millis >= pending.observed_millis + 4,
{
}

} // verus!
