//! Desktop geometry: points, rectangles, edges and the mapping between two desktops.
use crate::config::RemotePosition;
use vstd::prelude::*;

verus! {

/// A point in virtual desktop coordinates.
#[derive(Clone, Copy, Debug, PartialEq, Eq, Structural)]
pub struct Point {
    pub x: i32,
    pub y: i32,
}

impl Point {
    pub fn new(x: i32, y: i32) -> (p: Self)
        ensures
            p == (Point { x, y }),
    {
        Self { x, y }
    }
}

/// A desktop rectangle given by its top left corner and its size.
#[derive(Clone, Copy, Debug, PartialEq, Eq, Structural)]
pub struct Rect {
    pub left: i32,
    pub top: i32,
    pub width: i32,
    pub height: i32,
}

/// `value` limited to the closed range from `low` to `high`.
pub open spec fn clamp_int(value: int, low: int, high: int) -> int {
    if value < low { low } else if value > high { high } else { value }
}

/// `value` limited to what an `i32` can hold.
pub open spec fn saturate_i32(value: int) -> int {
    clamp_int(value, i32::MIN as int, i32::MAX as int)
}

/// Adds two numbers, stopping at the limits of `i32`.
pub fn saturating_add_i32(a: i32, b: i32) -> (r: i32)
    ensures
        r == saturate_i32(a + b),
{
    let sum: i64 = a as i64 + b as i64;
    if sum < i32::MIN as i64 {
        i32::MIN
    } else if sum > i32::MAX as i64 {
        i32::MAX
    } else {
        sum as i32
    }
}

/// Subtracts two numbers, stopping at the limits of `i32`.
pub fn saturating_sub_i32(a: i32, b: i32) -> (r: i32)
    ensures
        r == saturate_i32(a - b),
{
    let difference: i64 = a as i64 - b as i64;
    if difference < i32::MIN as i64 {
        i32::MIN
    } else if difference > i32::MAX as i64 {
        i32::MAX
    } else {
        difference as i32
    }
}

/// Limits `value` to the closed range from `low` to `high`.
pub fn clamp_i32(value: i32, low: i32, high: i32) -> (r: i32)
    requires
        low <= high,
    ensures
        r == clamp_int(value as int, low as int, high as int),
{
    if value < low {
        low
    } else if value > high {
        high
    } else {
        value
    }
}

impl Rect {
    /// The column of the last pixel.
    pub open spec fn spec_right(self) -> int {
        saturate_i32(self.left + saturate_i32(self.width - 1))
    }

    /// The row of the last pixel.
    pub open spec fn spec_bottom(self) -> int {
        saturate_i32(self.top + saturate_i32(self.height - 1))
    }

    /// Both sides are positive and the last pixel has representable coordinates.
    pub open spec fn valid(self) -> bool {
        &&& self.width > 0
        &&& self.height > 0
        &&& self.left + self.width - 1 <= i32::MAX
        &&& self.top + self.height - 1 <= i32::MAX
    }

    /// Whether a point lies on one of the rectangle's pixels.
    pub open spec fn holds(self, point: Point) -> bool {
        &&& self.left <= point.x <= self.spec_right()
        &&& self.top <= point.y <= self.spec_bottom()
    }

    /// The pixel of a valid rectangle nearest to a point.
    pub open spec fn nearest(self, point: Point) -> Point {
        Point {
            x: clamp_int(point.x as int, self.left as int, self.spec_right()) as i32,
            y: clamp_int(point.y as int, self.top as int, self.spec_bottom()) as i32,
        }
    }

    /// What clamping a point gives: the nearest pixel, or the point itself
    /// when the rectangle is invalid.
    pub open spec fn clamped(self, point: Point) -> Point {
        if self.valid() { self.nearest(point) } else { point }
    }

    pub fn new(left: i32, top: i32, width: i32, height: i32) -> (r: Self)
        ensures
            r == (Rect { left, top, width, height }),
    {
        Self { left, top, width, height }
    }

    pub fn right(self) -> (r: i32)
        ensures
            r == self.spec_right(),
            self.valid() ==> r == self.left + self.width - 1,
    {
        saturating_add_i32(self.left, saturating_sub_i32(self.width, 1))
    }

    pub fn bottom(self) -> (r: i32)
        ensures
            r == self.spec_bottom(),
            self.valid() ==> r == self.top + self.height - 1,
    {
        saturating_add_i32(self.top, saturating_sub_i32(self.height, 1))
    }

    pub fn is_valid(self) -> (r: bool)
        ensures
            r == self.valid(),
    {
        self.width > 0 && self.height > 0 && self.left.checked_add(self.width - 1).is_some()
            && self.top.checked_add(self.height - 1).is_some()
    }

    /// Clamps a point into the rectangle. In an invalid rectangle a point stays as it is.
    pub fn clamp(self, point: Point) -> (r: Point)
        ensures
            r == self.clamped(point),
            self.valid() ==> self.holds(r),
    {
        match self.try_clamp(point) {
            Some(p) => p,
            None => point,
        }
    }

    /// Clamps a point into the rectangle, if the rectangle is valid.
    pub fn try_clamp(self, point: Point) -> (r: Option<Point>)
        ensures
            r == (if self.valid() { Some(self.nearest(point)) } else { None }),
            self.valid() ==> self.holds(self.nearest(point)),
    {
        if self.is_valid() {
            Some(
                Point {
                    x: clamp_i32(point.x, self.left, self.right()),
                    y: clamp_i32(point.y, self.top, self.bottom()),
                },
            )
        } else {
            None
        }
    }
}

/// A side of a desktop.
#[derive(Clone, Copy, Debug, PartialEq, Eq, Structural)]
pub enum Edge {
    Left,
    Right,
    Top,
    Bottom,
}

/// Whether a point lies in the strip of `trigger_px` pixels along an edge.
pub open spec fn near_edge(point: Point, desktop: Rect, trigger_px: int, edge: Edge) -> bool {
    match edge {
        Edge::Left => point.x < desktop.left + trigger_px,
        Edge::Right => point.x > desktop.spec_right() - trigger_px,
        Edge::Top => point.y < desktop.top + trigger_px,
        Edge::Bottom => point.y > desktop.spec_bottom() - trigger_px,
    }
}

/// The edge whose strip holds a point: left and right are looked at before top
/// and bottom.
pub open spec fn edge_at(point: Point, desktop: Rect, trigger_px: int) -> Option<Edge> {
    if !desktop.valid() || trigger_px <= 0 {
        None
    } else if near_edge(point, desktop, trigger_px, Edge::Left) {
        Some(Edge::Left)
    } else if near_edge(point, desktop, trigger_px, Edge::Right) {
        Some(Edge::Right)
    } else if near_edge(point, desktop, trigger_px, Edge::Top) {
        Some(Edge::Top)
    } else if near_edge(point, desktop, trigger_px, Edge::Bottom) {
        Some(Edge::Bottom)
    } else {
        None
    }
}

/// The inner borders of all four edge strips have representable coordinates.
pub open spec fn strips_fit(desktop: Rect, trigger_px: int) -> bool {
    desktop.valid() && trigger_px > 0 ==> {
        &&& desktop.left + trigger_px <= i32::MAX
        &&& desktop.top + trigger_px <= i32::MAX
        &&& desktop.spec_right() - trigger_px >= i32::MIN
        &&& desktop.spec_bottom() - trigger_px >= i32::MIN
    }
}

/// Finds the edge whose trigger strip holds `point`.
pub fn detect_edge(point: Point, desktop: Rect, trigger_px: i32) -> (r: Option<Edge>)
    requires
        strips_fit(desktop, trigger_px as int),
    ensures
        r == edge_at(point, desktop, trigger_px as int),
{
    if !desktop.is_valid() || trigger_px <= 0 {
        return None;
    }
    if point.x < desktop.left + trigger_px {
        Some(Edge::Left)
    } else if point.x > desktop.right() - trigger_px {
        Some(Edge::Right)
    } else if point.y < desktop.top + trigger_px {
        Some(Edge::Top)
    } else if point.y > desktop.bottom() - trigger_px {
        Some(Edge::Bottom)
    } else {
        None
    }
}

/// The edge of the local desktop behind which the other desktop lies.
pub open spec fn edge_of(position: RemotePosition) -> Edge {
    match position {
        RemotePosition::Left => Edge::Left,
        RemotePosition::Right => Edge::Right,
        RemotePosition::Top => Edge::Top,
        RemotePosition::Bottom => Edge::Bottom,
    }
}

/// The configured edge, if its trigger strip holds the point.
pub open spec fn edge_at_position(
    point: Point,
    desktop: Rect,
    trigger_px: int,
    position: RemotePosition,
) -> Option<Edge> {
    if desktop.valid() && trigger_px > 0 && near_edge(
        point,
        desktop,
        trigger_px,
        edge_of(position),
    ) {
        Some(edge_of(position))
    } else {
        None
    }
}

/// The inner border of the configured edge's strip has a representable coordinate.
pub open spec fn strip_fits(desktop: Rect, trigger_px: int, position: RemotePosition) -> bool {
    desktop.valid() && trigger_px > 0 ==> match edge_of(position) {
        Edge::Left => desktop.left + trigger_px <= i32::MAX,
        Edge::Right => desktop.spec_right() - trigger_px >= i32::MIN,
        Edge::Top => desktop.top + trigger_px <= i32::MAX,
        Edge::Bottom => desktop.spec_bottom() - trigger_px >= i32::MIN,
    }
}

/// Whether the inner border of the configured edge's strip has a representable
/// coordinate.
pub fn strip_is_representable(desktop: Rect, trigger_px: i32, position: RemotePosition) -> (r: bool)
    ensures
        r == strip_fits(desktop, trigger_px as int, position),
{
    if !desktop.is_valid() || trigger_px <= 0 {
        return true;
    }
    let trigger: i64 = trigger_px as i64;
    match position {
        RemotePosition::Left => desktop.left as i64 + trigger <= i32::MAX as i64,
        RemotePosition::Right => desktop.right() as i64 - trigger >= i32::MIN as i64,
        RemotePosition::Top => desktop.top as i64 + trigger <= i32::MAX as i64,
        RemotePosition::Bottom => desktop.bottom() as i64 - trigger >= i32::MIN as i64,
    }
}

/// Reports the configured edge when `point` lies in its trigger strip.
pub fn detect_edge_for_position(
    point: Point,
    desktop: Rect,
    trigger_px: i32,
    position: RemotePosition,
) -> (r: Option<Edge>)
    requires
        strip_fits(desktop, trigger_px as int, position),
    ensures
        r == edge_at_position(point, desktop, trigger_px as int, position),
{
    if !desktop.is_valid() || trigger_px <= 0 {
        return None;
    }
    let hit = match position {
        RemotePosition::Left => point.x < desktop.left + trigger_px,
        RemotePosition::Right => point.x > desktop.right() - trigger_px,
        RemotePosition::Top => point.y < desktop.top + trigger_px,
        RemotePosition::Bottom => point.y > desktop.bottom() - trigger_px,
    };
    if hit {
        Some(edge_for_position(position))
    } else {
        None
    }
}

/// The edge of the local desktop behind which the other desktop lies.
pub fn edge_for_position(position: RemotePosition) -> (r: Edge)
    ensures
        r == edge_of(position),
{
    match position {
        RemotePosition::Left => Edge::Left,
        RemotePosition::Right => Edge::Right,
        RemotePosition::Top => Edge::Top,
        RemotePosition::Bottom => Edge::Bottom,
    }
}

impl Edge {
    /// The edge on the other side of a desktop.
    pub open spec fn across(self) -> Edge {
        match self {
            Edge::Left => Edge::Right,
            Edge::Right => Edge::Left,
            Edge::Top => Edge::Bottom,
            Edge::Bottom => Edge::Top,
        }
    }
}

/// The edge on the other side of a desktop.
pub fn opposite_edge(edge: Edge) -> (r: Edge)
    ensures
        r == edge.across(),
{
    match edge {
        Edge::Left => Edge::Right,
        Edge::Right => Edge::Left,
        Edge::Top => Edge::Bottom,
        Edge::Bottom => Edge::Top,
    }
}

/// Going to the opposite edge twice leads back.
pub proof fn law_opposite_edge_is_an_involution(edge: Edge)
    ensures
        edge.across().across() == edge,
        edge.across() != edge,
{
}

/// Where a coordinate falls on another axis when the first pixels and the last
/// pixels of both axes correspond to each other.
pub open spec fn proportional_at(
    value: int,
    source_start: int,
    source_len: int,
    target_start: int,
    target_len: int,
) -> int {
    target_start + clamp_int(value - source_start, 0, source_len - 1) * (target_len - 1) / (
    if source_len - 1 > 1 { source_len - 1 } else { 1 })
}

/// The point of the remote desktop that a crossing at `local_point` leads to.
pub open spec fn entry_at(
    position: RemotePosition,
    local_point: Point,
    local: Rect,
    remote: Rect,
) -> Point {
    let row = proportional_at(
        local_point.y as int,
        local.top as int,
        local.height as int,
        remote.top as int,
        remote.height as int,
    ) as i32;
    let column = proportional_at(
        local_point.x as int,
        local.left as int,
        local.width as int,
        remote.left as int,
        remote.width as int,
    ) as i32;
    match position {
        RemotePosition::Left => Point { x: remote.spec_right() as i32, y: row },
        RemotePosition::Right => Point { x: remote.left, y: row },
        RemotePosition::Top => Point { x: column, y: remote.spec_bottom() as i32 },
        RemotePosition::Bottom => Point { x: column, y: remote.top },
    }
}

/// The distance of a point from the desktop's corner along the configured edge
/// is representable.
pub open spec fn offset_fits(position: RemotePosition, point: Point, local: Rect) -> bool {
    match position {
        RemotePosition::Left | RemotePosition::Right => {
            i32::MIN <= point.y - local.top <= i32::MAX
        },
        RemotePosition::Top | RemotePosition::Bottom => {
            i32::MIN <= point.x - local.left <= i32::MAX
        },
    }
}

/// Whether a point's offset along the crossed edge is representable.
pub fn offset_is_representable(position: RemotePosition, point: Point, local: Rect) -> (r: bool)
    ensures
        r == offset_fits(position, point, local),
{
    let offset: i64 = match position {
        RemotePosition::Left | RemotePosition::Right => point.y as i64 - local.top as i64,
        RemotePosition::Top | RemotePosition::Bottom => point.x as i64 - local.left as i64,
    };
    i32::MIN as i64 <= offset && offset <= i32::MAX as i64
}

/// Maps a point onto the remote entry edge. With an invalid rectangle the local point
/// stays as it is.
pub fn map_entry_point(
    position: RemotePosition,
    local_point: Point,
    local: Rect,
    remote: Rect,
) -> (r: Point)
    requires
        local.valid() && remote.valid() ==> offset_fits(position, local_point, local),
    ensures
        r == (if local.valid() && remote.valid() {
            entry_at(position, local_point, local, remote)
        } else {
            local_point
        }),
        local.valid() && remote.valid() ==> remote.holds(r),
{
    match try_map_entry_point(position, local_point, local, remote) {
        Some(p) => p,
        None => local_point,
    }
}

/// Maps a point onto the remote entry edge, if both rectangles are valid.
pub fn try_map_entry_point(
    position: RemotePosition,
    local_point: Point,
    local: Rect,
    remote: Rect,
) -> (r: Option<Point>)
    requires
        local.valid() && remote.valid() ==> offset_fits(position, local_point, local),
    ensures
        r == (if local.valid() && remote.valid() {
            Some(entry_at(position, local_point, local, remote))
        } else {
            None
        }),
        local.valid() && remote.valid() ==> remote.holds(
            entry_at(position, local_point, local, remote),
        ),
{
    if !local.is_valid() || !remote.is_valid() {
        return None;
    }
    Some(
        match position {
            RemotePosition::Left => Point::new(
                remote.right(),
                proportional(local_point.y, local.top, local.height, remote.top, remote.height),
            ),
            RemotePosition::Right => Point::new(
                remote.left,
                proportional(local_point.y, local.top, local.height, remote.top, remote.height),
            ),
            RemotePosition::Top => Point::new(
                proportional(local_point.x, local.left, local.width, remote.left, remote.width),
                remote.bottom(),
            ),
            RemotePosition::Bottom => Point::new(
                proportional(local_point.x, local.left, local.width, remote.left, remote.width),
                remote.top,
            ),
        },
    )
}

/// Maps a coordinate from one axis onto another, first pixel to first pixel and
/// last pixel to last pixel.
pub fn proportional(
    value: i32,
    source_start: i32,
    source_len: i32,
    target_start: i32,
    target_len: i32,
) -> (r: i32)
    requires
        source_len > 0,
        target_len > 0,
        target_start + target_len - 1 <= i32::MAX,
        i32::MIN <= value - source_start <= i32::MAX,
    ensures
        r == proportional_at(
            value as int,
            source_start as int,
            source_len as int,
            target_start as int,
            target_len as int,
        ),
        target_start <= r <= target_start + target_len - 1,
{
    let source_offset: i64 = clamp_i32(value - source_start, 0, source_len - 1) as i64;
    let span: i64 = (target_len - 1) as i64;
    let divisor: i64 = if source_len - 1 > 1 {
        (source_len - 1) as i64
    } else {
        1
    };
    proof {
        lemma_scaled_offset(source_offset as int, span as int, divisor as int);
    }
    let numerator: i64 = source_offset * span;
    target_start + (numerator / divisor) as i32
}

/// An offset of at most `divisor`, scaled by `span / divisor`, stays within `span`.
pub proof fn lemma_scaled_offset(offset: int, span: int, divisor: int)
    requires
        0 <= offset <= divisor,
        0 <= span < 0x8000_0000,
        0 < divisor < 0x8000_0000,
    ensures
        0 <= offset * span <= 0x4000_0000_0000_0000,
        0 <= offset * span / divisor <= span,
{
    assert(0 <= offset * span <= divisor * span) by (nonlinear_arith)
        requires
            0 <= offset <= divisor,
            0 <= span,
    ;
    assert(divisor * span <= 0x4000_0000_0000_0000) by (nonlinear_arith)
        requires
            0 <= span < 0x8000_0000,
            0 < divisor < 0x8000_0000,
    ;
    assert(offset * span / divisor <= span && 0 <= offset * span / divisor) by (nonlinear_arith)
        requires
            0 <= offset * span <= divisor * span,
            0 < divisor,
    ;
}

/// Clamping moves a point onto the rectangle and no further: a point on it stays, and no
/// other pixel of the rectangle is nearer in either direction.
pub proof fn law_clamping_finds_the_nearest_pixel(rect: Rect, point: Point, other: Point)
    requires
        rect.valid(),
    ensures
        rect.holds(rect.clamped(point)),
        rect.holds(point) ==> rect.clamped(point) == point,
        rect.left <= point.x < rect.left + rect.width ==> rect.clamped(point).x == point.x,
        rect.top <= point.y < rect.top + rect.height ==> rect.clamped(point).y == point.y,
        rect.holds(other) ==> {
            let near = rect.clamped(point);
            &&& (near.x - point.x <= other.x - point.x || near.x - point.x <= point.x - other.x)
            &&& (point.x - near.x <= other.x - point.x || point.x - near.x <= point.x - other.x)
            &&& (near.y - point.y <= other.y - point.y || near.y - point.y <= point.y - other.y)
            &&& (point.y - near.y <= other.y - point.y || point.y - near.y <= point.y - other.y)
        },
{
}

/// The pixels of a valid rectangle are those of its width and height from its corner on.
pub proof fn law_rectangles_hold_their_pixels(rect: Rect, point: Point)
    requires
        rect.valid(),
    ensures
        rect.holds(point) <==> rect.left <= point.x < rect.left + rect.width && rect.top
            <= point.y < rect.top + rect.height,
        rect.spec_right() == rect.left + rect.width - 1,
        rect.spec_bottom() == rect.top + rect.height - 1,
{
}

/// A point is at the configured edge exactly if fewer than `trigger_px` pixels of the
/// desktop lie between it and what is beyond that edge.
pub proof fn law_edges_are_felt_in_their_strip(
    point: Point,
    desktop: Rect,
    trigger_px: int,
    position: RemotePosition,
)
    requires
        desktop.valid(),
        trigger_px > 0,
    ensures
        edge_at_position(point, desktop, trigger_px, position) is Some <==> trigger_px > match position {
            RemotePosition::Left => point.x - desktop.left,
            RemotePosition::Right => desktop.left + desktop.width - 1 - point.x,
            RemotePosition::Top => point.y - desktop.top,
            RemotePosition::Bottom => desktop.top + desktop.height - 1 - point.y,
        },
        edge_at_position(point, desktop, trigger_px, position) matches Some(edge) ==> match edge {
            Edge::Left => position == RemotePosition::Left,
            Edge::Right => position == RemotePosition::Right,
            Edge::Top => position == RemotePosition::Top,
            Edge::Bottom => position == RemotePosition::Bottom,
        },
{
}

/// No edge is felt on a desktop that is not valid or with a strip without pixels.
pub proof fn law_no_edge_without_a_strip(
    point: Point,
    desktop: Rect,
    trigger_px: int,
    position: RemotePosition,
)
    requires
        !desktop.valid() || trigger_px <= 0,
    ensures
        edge_at_position(point, desktop, trigger_px, position) is None,
        edge_at(point, desktop, trigger_px) is None,
{
}

/// The edge that is found without a position is one at which the point is; the sides
/// come before top and bottom, the left before the right and the top before the bottom.
pub proof fn law_found_edges_are_felt(point: Point, desktop: Rect, trigger_px: int)
    requires
        desktop.valid(),
        trigger_px > 0,
    ensures
        ({
            let left = edge_at_position(point, desktop, trigger_px, RemotePosition::Left) is Some;
            let right = edge_at_position(point, desktop, trigger_px, RemotePosition::Right) is Some;
            let top = edge_at_position(point, desktop, trigger_px, RemotePosition::Top) is Some;
            let bottom = edge_at_position(point, desktop, trigger_px, RemotePosition::Bottom)
                is Some;
            let found = edge_at(point, desktop, trigger_px);
            &&& found == Some(Edge::Left) <==> left
            &&& found == Some(Edge::Right) <==> right && !left
            &&& found == Some(Edge::Top) <==> top && !left && !right
            &&& found == Some(Edge::Bottom) <==> bottom && !top && !left && !right
            &&& found is None <==> !left && !right && !top && !bottom
        }),
{
}

/// A mapped coordinate is in proportion: the first pixel leads to the first pixel, the
/// last to the last, and between them the distance from the start is scaled by the
/// lengths and rounded down. What lies outside the source counts as its nearest pixel.
pub proof fn law_axes_are_mapped_in_proportion(
    value: int,
    source_start: int,
    source_len: int,
    target_start: int,
    target_len: int,
)
    requires
        source_len > 1,
        target_len > 0,
    ensures
        ({
            let r = proportional_at(value, source_start, source_len, target_start, target_len);
            let end = source_start + source_len - 1;
            &&& value <= source_start ==> r == target_start
            &&& value >= end ==> r == target_start + target_len - 1
            &&& source_start <= value <= end ==> (r - target_start) * (source_len - 1) <= (value
                - source_start) * (target_len - 1) < (r - target_start + 1) * (source_len - 1)
        }),
{
    let d = source_len - 1;
    let span = target_len - 1;
    let offset = clamp_int(value - source_start, 0, d);
    let product = offset * span;
    assert(0 * span == 0);
    assert(0int / d == 0) by (nonlinear_arith)
        requires
            d > 0,
    ;
    assert(d * span / d == span) by (nonlinear_arith)
        requires
            d > 0,
    ;
    assert((product / d) * d <= product < (product / d + 1) * d) by (nonlinear_arith)
        requires
            d > 0,
    ;
}

/// A crossing leads to the edge of the other desktop that touches this one: with the
/// other desktop on the right, its left edge, and so on. Along the edge the place is in
/// proportion, so the corners meet the corners.
pub proof fn law_crossings_meet_the_facing_edge(
    position: RemotePosition,
    point: Point,
    local: Rect,
    remote: Rect,
)
    requires
        local.valid(),
        remote.valid(),
        local.width > 1,
        local.height > 1,
    ensures
        ({
            let entry = entry_at(position, point, local, remote);
            match position {
                RemotePosition::Left | RemotePosition::Right => {
                    &&& position == RemotePosition::Left ==> entry.x == remote.left + remote.width
                        - 1
                    &&& position == RemotePosition::Right ==> entry.x == remote.left
                    &&& point.y <= local.top ==> entry.y == remote.top
                    &&& point.y >= local.top + local.height - 1 ==> entry.y == remote.top
                        + remote.height - 1
                    &&& local.top <= point.y < local.top + local.height ==> (entry.y
                        - remote.top) * (local.height - 1) <= (point.y - local.top) * (
                    remote.height - 1) < (entry.y - remote.top + 1) * (local.height - 1)
                },
                RemotePosition::Top | RemotePosition::Bottom => {
                    &&& position == RemotePosition::Top ==> entry.y == remote.top + remote.height
                        - 1
                    &&& position == RemotePosition::Bottom ==> entry.y == remote.top
                    &&& point.x <= local.left ==> entry.x == remote.left
                    &&& point.x >= local.left + local.width - 1 ==> entry.x == remote.left
                        + remote.width - 1
                    &&& local.left <= point.x < local.left + local.width ==> (entry.x
                        - remote.left) * (local.width - 1) <= (point.x - local.left) * (
                    remote.width - 1) < (entry.x - remote.left + 1) * (local.width - 1)
                },
            }
        }),
{
    law_axes_are_mapped_in_proportion(
        point.y as int,
        local.top as int,
        local.height as int,
        remote.top as int,
        remote.height as int,
    );
    law_axes_are_mapped_in_proportion(
        point.x as int,
        local.left as int,
        local.width as int,
        remote.left as int,
        remote.width as int,
    );
    lemma_scaled_offset(
        clamp_int(point.y - local.top, 0, local.height - 1),
        remote.height - 1,
        local.height - 1,
    );
    lemma_scaled_offset(
        clamp_int(point.x - local.left, 0, local.width - 1),
        remote.width - 1,
        local.width - 1,
    );
}

} // verus!
