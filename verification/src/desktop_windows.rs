//! Windows on the desktop: the strip that notices a drag at the edge, and the window
//! that something is dropped on.
use crate::geometry::{Edge, Point, Rect};
use crate::text::{join2, join4, opt_view, same_text, signed_decimal, signed_number};
use vstd::prelude::*;

verus! {

/// How thick the strip at the edge is.
pub const EDGE_WINDOW_THICKNESS_PX: i32 = 2;

/// The largest of the sides of a desktop, at least one.
pub open spec fn longest_side(desktop: Rect) -> int {
    let longer = if desktop.width > desktop.height { desktop.width } else { desktop.height };
    if longer > 1 { longer as int } else { 1 }
}

/// The thickness of a strip along a side: at least one, and no more than the side.
pub open spec fn strip_thickness(desktop: Rect, thickness: int, side: int) -> int {
    let wanted = if thickness < 1 {
        1
    } else if thickness > longest_side(desktop) {
        longest_side(desktop)
    } else {
        thickness
    };
    if wanted < side { wanted } else { side }
}

/// Where the strip at an edge begins and how large it is.
pub open spec fn edge_strip(edge: Edge, desktop: Rect, thickness: int) -> (int, int, int, int) {
    let across = strip_thickness(desktop, thickness, desktop.width as int);
    let along = strip_thickness(desktop, thickness, desktop.height as int);
    match edge {
        Edge::Left => (desktop.left as int, desktop.top as int, across, desktop.height as int),
        Edge::Right => (
            desktop.left + (desktop.width - across),
            desktop.top as int,
            across,
            desktop.height as int,
        ),
        Edge::Top => (desktop.left as int, desktop.top as int, desktop.width as int, along),
        Edge::Bottom => (
            desktop.left as int,
            desktop.top + (desktop.height - along),
            desktop.width as int,
            along,
        ),
    }
}

/// The place of the strip can be counted.
pub open spec fn edge_strip_fits(edge: Edge, desktop: Rect, thickness: int) -> bool {
    let (left, top, _, _) = edge_strip(edge, desktop, thickness);
    i32::MIN <= left <= i32::MAX && i32::MIN <= top <= i32::MAX
}

fn strip_side(desktop: Rect, thickness: i32, side: i32) -> (r: i32)
    ensures
        r == strip_thickness(desktop, thickness as int, side as int),
{
    let longer: i32 = if desktop.width > desktop.height { desktop.width } else { desktop.height };
    let most: i32 = if longer > 1 { longer } else { 1 };
    let wanted: i32 = if thickness < 1 {
        1
    } else if thickness > most {
        most
    } else {
        thickness
    };
    if wanted < side {
        wanted
    } else {
        side
    }
}

/// The strip at an edge of the desktop.
pub fn edge_window_rect(edge: Edge, desktop: Rect, thickness: i32) -> (r: Rect)
    requires
        edge_strip_fits(edge, desktop, thickness as int),
    ensures
        (r.left as int, r.top as int, r.width as int, r.height as int) == edge_strip(
            edge,
            desktop,
            thickness as int,
        ),
{
    match edge {
        Edge::Left => Rect::new(
            desktop.left,
            desktop.top,
            strip_side(desktop, thickness, desktop.width),
            desktop.height,
        ),
        Edge::Right => {
            let across = strip_side(desktop, thickness, desktop.width);
            let left: i32 = (desktop.left as i64 + (desktop.width as i64 - across as i64)) as i32;
            Rect::new(left, desktop.top, across, desktop.height)
        },
        Edge::Top => Rect::new(
            desktop.left,
            desktop.top,
            desktop.width,
            strip_side(desktop, thickness, desktop.height),
        ),
        Edge::Bottom => {
            let along = strip_side(desktop, thickness, desktop.height);
            let top: i32 = (desktop.top as i64 + (desktop.height as i64 - along as i64)) as i32;
            Rect::new(desktop.left, top, desktop.width, along)
        },
    }
}

/// Whether the strip at an edge can be placed.
pub fn edge_window_fits(edge: Edge, desktop: Rect, thickness: i32) -> (r: bool)
    ensures
        r == edge_strip_fits(edge, desktop, thickness as int),
{
    let across = strip_side(desktop, thickness, desktop.width);
    let along = strip_side(desktop, thickness, desktop.height);
    let (left, top): (i64, i64) = match edge {
        Edge::Left => (desktop.left as i64, desktop.top as i64),
        Edge::Right => (
            desktop.left as i64 + (desktop.width as i64 - across as i64),
            desktop.top as i64,
        ),
        Edge::Top => (desktop.left as i64, desktop.top as i64),
        Edge::Bottom => (
            desktop.left as i64,
            desktop.top as i64 + (desktop.height as i64 - along as i64),
        ),
    };
    i32::MIN as i64 <= left && left <= i32::MAX as i64 && i32::MIN as i64 <= top && top
        <= i32::MAX as i64
}

/// The strip at an edge lies on the desktop, and touches the edge.
pub proof fn law_strip_lies_on_the_desktop(edge: Edge, desktop: Rect, thickness: int)
    requires
        desktop.width > 0,
        desktop.height > 0,
    ensures
        ({
            let (left, top, width, height) = edge_strip(edge, desktop, thickness);
            &&& width > 0 && height > 0
            &&& desktop.left <= left && left + width <= desktop.left + desktop.width
            &&& desktop.top <= top && top + height <= desktop.top + desktop.height
            &&& match edge {
                Edge::Left => left == desktop.left,
                Edge::Right => left + width == desktop.left + desktop.width,
                Edge::Top => top == desktop.top,
                Edge::Bottom => top + height == desktop.top + desktop.height,
            }
        }),
{
}

/// Whether a window is the desktop, by the name of its class.
pub open spec fn desktop_class(class_name: Option<Seq<char>>) -> bool {
    class_name == Some("Progman"@) || class_name == Some("WorkerW"@)
}

pub fn is_desktop_window(class_name: &Option<String>) -> (r: bool)
    ensures
        r == desktop_class(opt_view(*class_name)),
{
    match class_name {
        Some(name) => same_text(name.as_str(), "Progman") || same_text(name.as_str(), "WorkerW"),
        None => false,
    }
}

/// How the target of a drop was found.
#[derive(Clone, Copy, Debug, PartialEq, Eq, Structural)]
pub enum DropHit {
    DesktopHit,
    ExplorerHit,
    ExplorerFallback,
}

/// Where something was dropped.
#[derive(Debug, PartialEq, Eq)]
pub struct DropTarget {
    pub destination_dir: String,
    pub resolution_kind: DropHit,
}

pub struct DropPlaceView {
    pub destination_dir: Seq<char>,
    pub resolution_kind: DropHit,
}

impl View for DropTarget {
    type V = DropPlaceView;

    open spec fn view(&self) -> DropPlaceView {
        DropPlaceView {
            destination_dir: self.destination_dir@,
            resolution_kind: self.resolution_kind,
        }
    }
}

/// What has to be asked next to find where something was dropped.
#[derive(Clone, Copy, Debug, PartialEq, Eq, Structural)]
pub enum DropQuestion {
    /// The directory of the desktop.
    DesktopDirectory,
    /// The directory of the Explorer window under the point.
    ExplorerAtPoint,
    /// The directory of the Explorer window in the foreground.
    ForegroundExplorer,
}

/// Where the search for a drop target stands.
#[derive(Debug, PartialEq, Eq)]
pub enum DropSearch {
    Ask(DropQuestion),
    Found(DropTarget),
    Failed(String),
}

pub enum DropSearchView {
    Ask(DropQuestion),
    Found(DropPlaceView),
    Failed(Seq<char>),
}

impl View for DropSearch {
    type V = DropSearchView;

    open spec fn view(&self) -> DropSearchView {
        match self {
            DropSearch::Ask(question) => DropSearchView::Ask(*question),
            DropSearch::Found(target) => DropSearchView::Found(target@),
            DropSearch::Failed(error) => DropSearchView::Failed(error@),
        }
    }
}

/// Begins to look for the target of a drop, with the window under the point: its class,
/// if there is a window.
pub fn start_drop_search(window: &Option<Option<String>>) -> (r: DropSearch)
    ensures
        r@ == DropSearchView::Ask(
            match *window {
                Some(class_name) => if desktop_class(opt_view(class_name)) {
                    DropQuestion::DesktopDirectory
                } else {
                    DropQuestion::ExplorerAtPoint
                },
                None => DropQuestion::ForegroundExplorer,
            },
        ),
{
    match window {
        Some(class_name) => if is_desktop_window(class_name) {
            DropSearch::Ask(DropQuestion::DesktopDirectory)
        } else {
            DropSearch::Ask(DropQuestion::ExplorerAtPoint)
        },
        None => DropSearch::Ask(DropQuestion::ForegroundExplorer),
    }
}

/// Why nothing can be dropped at a point.
pub open spec fn no_destination(point: Point) -> Seq<char> {
    "no drop destination at ("@ + signed_decimal(point.x as int) + ", "@ + signed_decimal(
        point.y as int,
    ) + "): release over the desktop or an Explorer window"@
}

/// The search goes on with an answer: the directory, none, or why asking failed.
pub open spec fn after_answer(
    point: Point,
    question: DropQuestion,
    answer: Result<Option<Seq<char>>, Seq<char>>,
) -> DropSearchView {
    match (answer, question) {
        (Err(error), _) => DropSearchView::Failed(error),
        (Ok(Some(directory)), question) => DropSearchView::Found(
            DropPlaceView {
                destination_dir: directory,
                resolution_kind: match question {
                    DropQuestion::DesktopDirectory => DropHit::DesktopHit,
                    DropQuestion::ExplorerAtPoint => DropHit::ExplorerHit,
                    DropQuestion::ForegroundExplorer => DropHit::ExplorerFallback,
                },
            },
        ),
        (Ok(None), DropQuestion::ExplorerAtPoint) => DropSearchView::Ask(
            DropQuestion::ForegroundExplorer,
        ),
        (Ok(None), _) => DropSearchView::Failed(no_destination(point)),
    }
}

pub open spec fn answer_view(answer: Result<Option<String>, String>) -> Result<
    Option<Seq<char>>,
    Seq<char>,
> {
    match answer {
        Ok(directory) => Ok(opt_view(directory)),
        Err(error) => Err(error@),
    }
}

pub fn resolve_drop_target(
    point: Point,
    question: DropQuestion,
    answer: Result<Option<String>, String>,
) -> (r: DropSearch)
    ensures
        r@ == after_answer(point, question, answer_view(answer)),
{
    match answer {
        Err(error) => DropSearch::Failed(error),
        Ok(Some(destination_dir)) => {
            let resolution_kind = match question {
                DropQuestion::DesktopDirectory => DropHit::DesktopHit,
                DropQuestion::ExplorerAtPoint => DropHit::ExplorerHit,
                DropQuestion::ForegroundExplorer => DropHit::ExplorerFallback,
            };
            DropSearch::Found(DropTarget { destination_dir, resolution_kind })
        },
        Ok(None) => match question {
            DropQuestion::ExplorerAtPoint => DropSearch::Ask(DropQuestion::ForegroundExplorer),
            _ => {
                let x = signed_number(point.x as i64);
                let y = signed_number(point.y as i64);
                let place = join4("no drop destination at (", x.as_str(), ", ", y.as_str());
                DropSearch::Failed(
                    join2(
                        place.as_str(),
                        "): release over the desktop or an Explorer window",
                    ),
                )
            },
        },
    }
}

/// A drop lands only in a directory that the system named; where it names none, the
/// drop fails.
pub proof fn law_drops_land_where_the_system_says(
    point: Point,
    question: DropQuestion,
    answer: Result<Option<Seq<char>>, Seq<char>>,
)
    ensures
        after_answer(point, question, answer) matches DropSearchView::Found(target) ==> (answer
            == Ok::<Option<Seq<char>>, Seq<char>>(Some(target.destination_dir))),
        answer == Ok::<Option<Seq<char>>, Seq<char>>(None) && question
            == DropQuestion::ForegroundExplorer ==> after_answer(point, question, answer)
            == DropSearchView::Failed(no_destination(point)),
{
}

/// A directory that the system names is where the drop lands, whatever was asked: the
/// desktop's own directory counts as much as that of an Explorer window. How the target
/// was found tells the questions apart. Without a directory nothing is found.
pub proof fn law_named_directories_are_found(
    point: Point,
    question: DropQuestion,
    other: DropQuestion,
    answer: Result<Option<Seq<char>>, Seq<char>>,
)
    ensures
        answer matches Ok(Some(directory)) ==> {
            &&& after_answer(point, question, answer) matches DropSearchView::Found(target)
            &&& target.destination_dir == directory
            &&& target.resolution_kind == DropHit::DesktopHit <==> question
                == DropQuestion::DesktopDirectory
            &&& target.resolution_kind == DropHit::ExplorerHit <==> question
                == DropQuestion::ExplorerAtPoint
            &&& after_answer(point, question, answer) == after_answer(point, other, answer)
                <==> question == other
        },
        !(answer matches Ok(Some(_))) ==> !(after_answer(point, question, answer) is Found),
        answer matches Err(error) ==> after_answer(point, question, answer)
            == DropSearchView::Failed(error),
{
}

/// Only an Explorer window that has no directory leads to another question, and that is
/// the one in the foreground; so no search asks more than twice.
pub proof fn law_drop_searches_end(
    point: Point,
    question: DropQuestion,
    answer: Result<Option<Seq<char>>, Seq<char>>,
    second: Result<Option<Seq<char>>, Seq<char>>,
)
    ensures
        after_answer(point, question, answer) matches DropSearchView::Ask(next) ==> {
            &&& question == DropQuestion::ExplorerAtPoint
            &&& answer == Ok::<Option<Seq<char>>, Seq<char>>(None)
            &&& next == DropQuestion::ForegroundExplorer
            &&& !(after_answer(point, next, second) is Ask)
        },
        answer == Ok::<Option<Seq<char>>, Seq<char>>(None) ==> (after_answer(
            point,
            question,
            answer,
        ) is Ask <==> question == DropQuestion::ExplorerAtPoint),
{
}

/// The search begins with what lies under the point: the desktop is asked for its own
/// directory, another window for that of Explorer, and where there is no window the one
/// in the foreground is asked.
pub proof fn law_search_begins_under_the_point(window: &Option<Option<String>>, r: DropSearch)
    requires
        call_ensures(start_drop_search, (window,), r),
    ensures
        r is Ask,
        r->Ask_0 == DropQuestion::ForegroundExplorer <==> *window is None,
        r->Ask_0 == DropQuestion::DesktopDirectory <==> (window matches Some(Some(name)) && (
        name@ == "Progman"@ || name@ == "WorkerW"@)),
{
}

/// A strip has the thickness that was asked for, as long as it is at least one pixel and
/// no more than the desktop has; along the edge it is as long as the desktop.
pub proof fn law_strip_has_its_thickness(edge: Edge, desktop: Rect, thickness: int)
    requires
        desktop.width > 0,
        desktop.height > 0,
    ensures
        ({
            let (_, _, width, height) = edge_strip(edge, desktop, thickness);
            let (across, side, along, length) = match edge {
                Edge::Left | Edge::Right => (
                    width,
                    desktop.width as int,
                    height,
                    desktop.height as int,
                ),
                Edge::Top | Edge::Bottom => (
                    height,
                    desktop.height as int,
                    width,
                    desktop.width as int,
                ),
            };
            &&& along == length
            &&& 1 <= thickness <= side ==> across == thickness
            &&& thickness < 1 ==> across == 1
            &&& thickness > side ==> across == side
        }),
{
}

/// The desktop is told by the class of its window, and by nothing else.
pub proof fn law_the_desktop_is_known_by_its_class(class_name: Option<String>, r: bool)
    requires
        call_ensures(is_desktop_window, (&class_name,), r),
    ensures
        r <==> class_name is Some && (class_name->0@ == "Progman"@ || class_name->0@
            == "WorkerW"@),
{
}

/// A drop that finds no destination is told where it was, with x before y.
pub proof fn law_missed_drops_name_their_point(point: Point)
    ensures
        no_destination(point) == "no drop destination at ("@ + signed_decimal(point.x as int)
            + ", "@ + signed_decimal(point.y as int)
            + "): release over the desktop or an Explorer window"@,
{
}

} // verus!
