//! Displays and windows, as plain geometry: which ones there are, which one a capture
//! takes, and which part of it.

use vstd::math::{max, min};
use vstd::prelude::*;

use crate::geometry::{clamp_wide, clamped, fits, half, halved, least, most};
use crate::picture::Picture;
use crate::text::join;

verus! {

/// Position and size of a display.
#[derive(Clone, Copy, Debug, PartialEq, Eq, Structural)]
pub struct MonitorGeom {
    pub x: i32,
    pub y: i32,
    pub width: u32,
    pub height: u32,
}

impl MonitorGeom {
    /// The far edges of the display can be held.
    pub open spec fn wf(self) -> bool {
        &&& self.width <= i32::MAX
        &&& self.height <= i32::MAX
        &&& fits(self.x + self.width)
        &&& fits(self.y + self.height)
    }
}

/// The left-most edge of the displays, or the largest number where there are none.
pub open spec fn left_edge(monitors: Seq<MonitorGeom>) -> int
    decreases monitors.len(),
{
    if monitors.len() == 0 {
        i32::MAX as int
    } else {
        min(left_edge(monitors.drop_last()), monitors.last().x as int)
    }
}

/// The top-most edge of the displays, or the largest number where there are none.
pub open spec fn top_edge(monitors: Seq<MonitorGeom>) -> int
    decreases monitors.len(),
{
    if monitors.len() == 0 {
        i32::MAX as int
    } else {
        min(top_edge(monitors.drop_last()), monitors.last().y as int)
    }
}

/// The right-most edge of the displays, or the smallest number where there are none.
pub open spec fn right_edge(monitors: Seq<MonitorGeom>) -> int
    decreases monitors.len(),
{
    if monitors.len() == 0 {
        i32::MIN as int
    } else {
        let m = monitors.last();
        max(right_edge(monitors.drop_last()), m.x + m.width)
    }
}

/// The bottom-most edge of the displays, or the smallest number where there are none.
pub open spec fn bottom_edge(monitors: Seq<MonitorGeom>) -> int
    decreases monitors.len(),
{
    if monitors.len() == 0 {
        i32::MIN as int
    } else {
        let m = monitors.last();
        max(bottom_edge(monitors.drop_last()), m.y + m.height)
    }
}

/// The smallest rectangle (x, y, width, height) around all displays.
pub fn virtual_bounds(monitors: &Vec<MonitorGeom>) -> (r: Result<(i32, i32, u32, u32), String>)
    requires
        forall|i: int| 0 <= i < monitors@.len() ==> (#[trigger] monitors@[i]).wf(),
        monitors@.len() > 0 ==> fits(right_edge(monitors@) - left_edge(monitors@)),
        monitors@.len() > 0 ==> fits(bottom_edge(monitors@) - top_edge(monitors@)),
    ensures
        match r {
            Ok((x, y, w, h)) => {
                &&& monitors@.len() > 0
                &&& x == left_edge(monitors@)
                &&& y == top_edge(monitors@)
                &&& w == right_edge(monitors@) - left_edge(monitors@)
                &&& h == bottom_edge(monitors@) - top_edge(monitors@)
            },
            Err(e) => monitors@.len() == 0 && e@ == "No displays found"@,
        },
{
    let n: usize = monitors.len();
    if n == 0 {
        return Err("No displays found".to_owned());
    }
    let mut left: i32 = i32::MAX;
    let mut top: i32 = i32::MAX;
    let mut right: i32 = i32::MIN;
    let mut bottom: i32 = i32::MIN;
    let mut i: usize = 0;
    while i < n
        invariant
            n == monitors@.len(),
            i <= n,
            forall|j: int| 0 <= j < monitors@.len() ==> (#[trigger] monitors@[j]).wf(),
            left == left_edge(monitors@.take(i as int)),
            top == top_edge(monitors@.take(i as int)),
            right == right_edge(monitors@.take(i as int)),
            bottom == bottom_edge(monitors@.take(i as int)),
        decreases n - i,
    {
        let m: MonitorGeom = monitors[i];
        assert(monitors@.take(i + 1).drop_last() =~= monitors@.take(i as int));
        assert(monitors@[i as int].wf());
        left = least(left, m.x);
        top = least(top, m.y);
        right = most(right, m.x + m.width as i32);
        bottom = most(bottom, m.y + m.height as i32);
        i = i + 1;
    }
    assert(monitors@.take(n as int) =~= monitors@);
    proof {
        law_bounds_contain_every_display(monitors@, 0);
    }
    Ok((left, top, (right - left) as u32, (bottom - top) as u32))
}

/// Every display lies inside the bounds of them all.
pub proof fn law_bounds_contain_every_display(monitors: Seq<MonitorGeom>, i: int)
    requires
        0 <= i < monitors.len(),
    ensures
        left_edge(monitors) <= monitors[i].x,
        top_edge(monitors) <= monitors[i].y,
        monitors[i].x + monitors[i].width <= right_edge(monitors),
        monitors[i].y + monitors[i].height <= bottom_edge(monitors),
    decreases monitors.len(),
{
    if i < monitors.len() - 1 {
        law_bounds_contain_every_display(monitors.drop_last(), i);
        assert(monitors.drop_last()[i] == monitors[i]);
    }
}

/// The bounds of the displays are tight: each of their four edges is the edge of some
/// display.
pub proof fn law_bounds_are_tight(monitors: Seq<MonitorGeom>)
    requires
        monitors.len() > 0,
        forall|i: int| 0 <= i < monitors.len() ==> (#[trigger] monitors[i]).wf(),
    ensures
        exists|i: int| 0 <= i < monitors.len() && left_edge(monitors) == (#[trigger] monitors[i]).x,
        exists|i: int| 0 <= i < monitors.len() && top_edge(monitors) == (#[trigger] monitors[i]).y,
        exists|i: int|
            0 <= i < monitors.len() && right_edge(monitors) == (#[trigger] monitors[i]).x
                + monitors[i].width,
        exists|i: int|
            0 <= i < monitors.len() && bottom_edge(monitors) == (#[trigger] monitors[i]).y
                + monitors[i].height,
    decreases monitors.len(),
{
    let head = monitors.drop_last();
    let n = monitors.len() as int;
    let last = monitors[n - 1];
    assert(last.wf());
    if head.len() > 0 {
        assert forall|i: int| 0 <= i < head.len() implies (#[trigger] head[i]).wf() by {
            assert(head[i] == monitors[i]);
        }
        law_bounds_are_tight(head);
        let l = choose|i: int| 0 <= i < head.len() && left_edge(head) == (#[trigger] head[i]).x;
        let t = choose|i: int| 0 <= i < head.len() && top_edge(head) == (#[trigger] head[i]).y;
        let r = choose|i: int|
            0 <= i < head.len() && right_edge(head) == (#[trigger] head[i]).x + head[i].width;
        let b = choose|i: int|
            0 <= i < head.len() && bottom_edge(head) == (#[trigger] head[i]).y + head[i].height;
        assert(head[l] == monitors[l]);
        assert(head[t] == monitors[t]);
        assert(head[r] == monitors[r]);
        assert(head[b] == monitors[b]);
    } else {
        assert(left_edge(head) == i32::MAX && top_edge(head) == i32::MAX);
        assert(right_edge(head) == i32::MIN && bottom_edge(head) == i32::MIN);
        assert(left_edge(monitors) == last.x && top_edge(monitors) == last.y);
    }
}

/// The point in the middle of a rectangle, by which the display to capture is chosen.
pub fn region_center(gx: i32, gy: i32, gw: u32, gh: u32) -> (r: (i32, i32))
    requires
        fits(gx + halved((gw as i32) as int)),
        fits(gy + halved((gh as i32) as int)),
    ensures
        r.0 == gx + halved((gw as i32) as int),
        r.1 == gy + halved((gh as i32) as int),
{
    (gx + half(gw as i32), gy + half(gh as i32))
}

/// How much of a stretch lies in another one, along an axis.
pub open spec fn overlap(start: int, length: int, other: int, other_length: int) -> int {
    max(min(start + length, other + other_length) - max(start, other), 0)
}

/// Along an axis, where two displays meet, a selection that spans both has its middle on the
/// one that it overlaps most.
pub proof fn law_middle_lies_where_most_of_a_region_is(
    start: int,
    length: int,
    a: int,
    a_length: int,
    b_length: int,
)
    requires
        0 <= length,
        0 <= a_length,
        0 <= b_length,
        a <= start <= a + a_length,
        a + a_length <= start + length <= a + a_length + b_length,
    ensures
        ({
            let b = a + a_length;
            let middle = start + length / 2;
            &&& middle < b ==> overlap(start, length, a, a_length) > overlap(
                start,
                length,
                b,
                b_length,
            )
            &&& middle >= b ==> overlap(start, length, b, b_length) >= overlap(
                start,
                length,
                a,
                a_length,
            )
        }),
{
}

/// The part of a stretch that is captured from a display, along an axis: where it starts,
/// counted from the display's edge, and how long it is. Both ends are clamped to the display, and
/// at least one pixel is captured.
pub open spec fn captured_stretch(start: int, length: int, edge: int, size: int) -> (int, int) {
    let from = clamped(start - edge, 0, size);
    (from, max(min(start + length - edge, size) - from, 1))
}

/// The part of a global rectangle that is captured from a display (x, y, width, height), counted
/// from the display's corner.
pub open spec fn captured_part(gx: int, gy: int, gw: int, gh: int, m: MonitorGeom) -> (
    int,
    int,
    int,
    int,
) {
    let (x, w) = captured_stretch(gx, gw, m.x as int, m.width as int);
    let (y, h) = captured_stretch(gy, gh, m.y as int, m.height as int);
    (x, y, w, h)
}

/// The part of a global rectangle to capture from the display that was chosen for it: what of
/// the rectangle lies on the display.
pub fn capture_region_global(gx: i32, gy: i32, gw: u32, gh: u32, m: &MonitorGeom) -> (r: (
    u32,
    u32,
    u32,
    u32,
))
    ensures
        ({
            let (x, y, w, h) = captured_part(gx as int, gy as int, gw as int, gh as int, *m);
            r.0 == x && r.1 == y && r.2 == w && r.3 == h
        }),
{
    let (x, w) = clamp_stretch(gx, gw, m.x, m.width);
    let (y, h) = clamp_stretch(gy, gh, m.y, m.height);
    (x, y, w, h)
}

fn clamp_stretch(start: i32, length: u32, edge: i32, size: u32) -> (r: (u32, u32))
    ensures
        (r.0 as int, r.1 as int) == captured_stretch(
            start as int,
            length as int,
            edge as int,
            size as int,
        ),
{
    let from: i64 = clamp_wide(start as i64 - edge as i64, 0, size as i64);
    let end: i64 = start as i64 + length as i64 - edge as i64;
    let to: i64 = if end < size as i64 {
        end
    } else {
        size as i64
    };
    let held: i64 = if to - from < 1 {
        1
    } else {
        to - from
    };
    (from as u32, held as u32)
}

/// What is captured of a rectangle is what of it lies on the display, wherever the rectangle
/// is, as long as any of it does.
pub proof fn law_captured_part_is_the_intersection(gx: int, gy: int, gw: int, gh: int, m: MonitorGeom)
    requires
        overlap(gx, gw, m.x as int, m.width as int) > 0,
        overlap(gy, gh, m.y as int, m.height as int) > 0,
    ensures
        ({
            let (x, y, w, h) = captured_part(gx, gy, gw, gh, m);
            &&& m.x + x == max(gx, m.x as int)
            &&& m.y + y == max(gy, m.y as int)
            &&& m.x + x + w == min(gx + gw, m.x + m.width)
            &&& m.y + y + h == min(gy + gh, m.y + m.height)
        }),
{
}

/// A rectangle that lies on one display is captured exactly.
pub proof fn law_region_on_a_display_is_exact(gx: int, gy: int, gw: int, gh: int, m: MonitorGeom)
    requires
        1 <= gw,
        1 <= gh,
        m.x <= gx,
        gx + gw <= m.x + m.width,
        m.y <= gy,
        gy + gh <= m.y + m.height,
    ensures
        captured_part(gx, gy, gw, gh, m) == (gx - m.x, gy - m.y, gw, gh),
{
}

/// The first display that is known to be the primary one, or else the first of all.
/// `primary` tells of each display whether it is the primary one, where that is known.
pub fn capture_primary(primary: &Vec<Option<bool>>) -> (r: Result<usize, String>)
    ensures
        match r {
            Ok(i) => {
                &&& i < primary@.len()
                &&& {
                    ||| {
                        &&& primary@[i as int] == Some(true)
                        &&& forall|j: int| 0 <= j < i ==> #[trigger] primary@[j] != Some(true)
                    }
                    ||| {
                        &&& i == 0
                        &&& forall|j: int|
                            0 <= j < primary@.len() ==> #[trigger] primary@[j] != Some(true)
                    }
                }
            },
            Err(e) => primary@.len() == 0 && e@ == "No displays found"@,
        },
{
    let n: usize = primary.len();
    let mut i: usize = 0;
    while i < n
        invariant
            n == primary@.len(),
            i <= n,
            forall|j: int| 0 <= j < i ==> #[trigger] primary@[j] != Some(true),
        decreases n - i,
    {
        if let Some(is_primary) = primary[i] {
            if is_primary {
                return Ok(i);
            }
        }
        i = i + 1;
    }
    if n == 0 {
        Err("No displays found".to_owned())
    } else {
        Ok(0)
    }
}

/// A finished capture.
#[derive(Debug, PartialEq, Eq)]
pub struct Capture {
    pub image: Picture,
}

/// Takes in the picture that a display or a window gave, or why there is none.
pub fn captured(grabbed: Result<Picture, String>) -> (r: Result<Capture, String>)
    ensures
        match grabbed {
            Ok(p) => r matches Ok(c) && c.image == p,
            Err(cause) => r matches Err(e) && e@ == "capture: "@ + cause@,
        },
{
    match grabbed {
        Ok(image) => Ok(Capture { image }),
        Err(cause) => Err(join("capture: ", cause.as_str())),
    }
}

/// A window as the system reports it; nothing where a property could not be read.
#[derive(Debug, PartialEq, Eq)]
pub struct RawWindow {
    pub id: Option<u32>,
    pub pid: Option<u32>,
    pub minimized: Option<bool>,
    pub title: Option<String>,
    pub app_name: Option<String>,
    pub x: Option<i32>,
    pub y: Option<i32>,
    pub width: Option<u32>,
    pub height: Option<u32>,
}

/// A window that can be captured.
#[derive(Debug, PartialEq, Eq)]
pub struct WindowInfo {
    pub id: u32,
    pub title: String,
    pub app_name: String,
    pub x: i32,
    pub y: i32,
    pub width: u32,
    pub height: u32,
}

/// A window that can be captured, as a value.
pub ghost struct WindowModel {
    pub id: u32,
    pub title: Seq<char>,
    pub app_name: Seq<char>,
    pub x: i32,
    pub y: i32,
    pub width: u32,
    pub height: u32,
}

impl View for WindowInfo {
    type V = WindowModel;

    open spec fn view(&self) -> WindowModel {
        WindowModel {
            id: self.id,
            title: self.title@,
            app_name: self.app_name@,
            x: self.x,
            y: self.y,
            width: self.width,
            height: self.height,
        }
    }
}

/// A property that could not be read counts as this.
pub open spec fn known_or<T>(v: Option<T>, default: T) -> T {
    match v {
        Some(v) => v,
        None => default,
    }
}

/// A text that could not be read counts as empty.
pub open spec fn known_text(s: Option<String>) -> Seq<char> {
    match s {
        Some(s) => s@,
        None => Seq::empty(),
    }
}

impl RawWindow {
    /// Whether a window may be offered at all: not one of our own, not minimized, and with
    /// some name.
    pub open spec fn is_presentable(&self, own_pid: u32) -> bool {
        &&& self.pid != Some(own_pid)
        &&& self.minimized != Some(true)
        &&& known_text(self.title).len() > 0 || known_text(self.app_name).len() > 0
    }

    /// Whether a window is listed: presentable, known by its id, and not empty.
    pub open spec fn is_listed(&self, own_pid: u32) -> bool {
        &&& self.is_presentable(own_pid)
        &&& self.id is Some
        &&& known_or(self.width, 0) > 0
        &&& known_or(self.height, 0) > 0
    }

    /// How a listed window is described.
    pub open spec fn described(&self) -> WindowModel {
        WindowModel {
            id: self.id->0,
            title: known_text(self.title),
            app_name: known_text(self.app_name),
            x: known_or(self.x, 0),
            y: known_or(self.y, 0),
            width: known_or(self.width, 0),
            height: known_or(self.height, 0),
        }
    }

    /// Whether a window may be offered at all.
    pub fn presentable(&self, own_pid: u32) -> (r: bool)
        ensures
            r == self.is_presentable(own_pid),
    {
        if let Some(pid) = self.pid {
            if pid == own_pid {
                return false;
            }
        }
        if let Some(minimized) = self.minimized {
            if minimized {
                return false;
            }
        }
        let titled: bool = match &self.title {
            Some(t) => !t.as_str().is_empty(),
            None => false,
        };
        let named: bool = match &self.app_name {
            Some(t) => !t.as_str().is_empty(),
            None => false,
        };
        titled || named
    }
}

/// The descriptions of the windows that are listed, in their order.
pub open spec fn listing(windows: Seq<RawWindow>, own_pid: u32) -> Seq<WindowModel>
    decreases windows.len(),
{
    if windows.len() == 0 {
        Seq::empty()
    } else {
        let head = listing(windows.drop_last(), own_pid);
        if windows.last().is_listed(own_pid) {
            head.push(windows.last().described())
        } else {
            head
        }
    }
}

fn text_or_empty(s: &Option<String>) -> (r: String)
    ensures
        r@ == known_text(*s),
{
    match s {
        Some(s) => s.clone(),
        None => String::new(),
    }
}

/// Lists the windows that can be captured, front to back as the system reports them.
pub fn list_windows(windows: &Vec<RawWindow>, own_pid: u32) -> (r: Vec<WindowInfo>)
    ensures
        r@.map_values(|w: WindowInfo| w@) == listing(windows@, own_pid),
{
    let n: usize = windows.len();
    let mut out: Vec<WindowInfo> = Vec::new();
    let mut i: usize = 0;
    while i < n
        invariant
            n == windows@.len(),
            i <= n,
            out@.map_values(|w: WindowInfo| w@) == listing(windows@.take(i as int), own_pid),
        decreases n - i,
    {
        let w: &RawWindow = &windows[i];
        assert(windows@.take(i + 1).drop_last() =~= windows@.take(i as int));
        let ghost before = out@;
        if w.presentable(own_pid) {
            if let Some(id) = w.id {
                let width: u32 = w.width.unwrap_or(0);
                let height: u32 = w.height.unwrap_or(0);
                if width != 0 && height != 0 {
                    let info = WindowInfo {
                        id,
                        title: text_or_empty(&w.title),
                        app_name: text_or_empty(&w.app_name),
                        x: w.x.unwrap_or(0),
                        y: w.y.unwrap_or(0),
                        width,
                        height,
                    };
                    out.push(info);
                    assert(out@.map_values(|w: WindowInfo| w@) =~= before.map_values(
                        |w: WindowInfo| w@,
                    ).push(info@));
                }
            }
        }
        i = i + 1;
    }
    assert(windows@.take(n as int) =~= windows@);
    out
}

/// Exactly the windows that may be offered, are known by their id and are not empty are
/// listed, with the properties that they report.
pub proof fn law_listing_is_complete(windows: Seq<RawWindow>, own_pid: u32, i: int)
    requires
        0 <= i < windows.len(),
        windows[i].is_listed(own_pid),
    ensures
        listing(windows, own_pid).contains(windows[i].described()),
    decreases windows.len(),
{
    let head = windows.drop_last();
    let all = listing(windows, own_pid);
    if i < windows.len() - 1 {
        assert(head[i] == windows[i]);
        law_listing_is_complete(head, own_pid, i);
        let k = choose|k: int|
            0 <= k < listing(head, own_pid).len() && listing(head, own_pid)[k]
                == windows[i].described();
        assert(all[k] == windows[i].described());
    } else {
        assert(all[all.len() - 1] == windows[i].described());
    }
}

/// Nothing is listed that the client itself shows, that is minimized, empty or nameless.
pub proof fn law_listing_is_sound(windows: Seq<RawWindow>, own_pid: u32, k: int)
    requires
        0 <= k < listing(windows, own_pid).len(),
    ensures
        exists|i: int|
            0 <= i < windows.len() && (#[trigger] windows[i]).is_listed(own_pid) && listing(
                windows,
                own_pid,
            )[k] == windows[i].described(),
    decreases windows.len(),
{
    let head = windows.drop_last();
    let n = windows.len() as int;
    if k < listing(head, own_pid).len() {
        law_listing_is_sound(head, own_pid, k);
        let i = choose|i: int|
            0 <= i < head.len() && (#[trigger] head[i]).is_listed(own_pid) && listing(
                head,
                own_pid,
            )[k] == head[i].described();
        assert(windows[i] == head[i]);
    } else {
        assert(windows[n - 1].is_listed(own_pid));
    }
}

/// Whether no window has this id.
pub open spec fn is_unknown(ids: Seq<Option<u32>>, id: u32) -> bool {
    forall|j: int| 0 <= j < ids.len() ==> #[trigger] ids[j] != Some(id)
}

/// Finds a window by its id.
pub fn capture_window(ids: &Vec<Option<u32>>, id: u32) -> (r: Result<usize, String>)
    ensures
        match r {
            Ok(i) => {
                &&& i < ids@.len()
                &&& ids@[i as int] == Some(id)
                &&& forall|j: int| 0 <= j < i ==> #[trigger] ids@[j] != Some(id)
            },
            Err(e) => {
                &&& is_unknown(ids@, id)
                &&& e@ == "Window not found"@
            },
        },
{
    let n: usize = ids.len();
    let mut i: usize = 0;
    while i < n
        invariant
            n == ids@.len(),
            i <= n,
            forall|j: int| 0 <= j < i ==> #[trigger] ids@[j] != Some(id),
        decreases n - i,
    {
        if let Some(found) = ids[i] {
            if found == id {
                return Ok(i);
            }
        }
        i = i + 1;
    }
    Err("Window not found".to_owned())
}

} // verus!
