//! What is captured of displays and windows, and which windows are offered.

use vstd::math::{max, min};
use vstd::prelude::*;

use crate::capture::{
    capture_primary, capture_region_global, capture_window, captured, is_unknown,
    law_bounds_are_tight, law_bounds_contain_every_display, list_windows, listing, region_center,
    virtual_bounds, Capture, MonitorGeom, RawWindow, WindowInfo,
};
use crate::picture::Picture;
use crate::teil_capture_windows;
use crate::teil_capture_windows::overlay::Rect;
use crate::teil_capture_windows::pickable_windows;

verus! {

/// The bounds of some displays reach just as far as the displays: each of them lies inside, and
/// on each side one of them touches the edge.
pub proof fn law_bounds_reach_as_far_as_the_displays(
    monitors: Vec<MonitorGeom>,
    r: Result<(i32, i32, u32, u32), String>,
    i: int,
)
    requires
        call_ensures(virtual_bounds, (&monitors,), r),
        forall|k: int|
            0 <= k < monitors@.len() ==> (#[trigger] monitors@[k]).width <= i32::MAX && monitors@[k].x
                + monitors@[k].width <= i32::MAX,
        forall|k: int|
            0 <= k < monitors@.len() ==> (#[trigger] monitors@[k]).height <= i32::MAX
                && monitors@[k].y + monitors@[k].height <= i32::MAX,
        0 <= i < monitors@.len(),
    ensures
        r matches Ok((x, y, w, h)) && {
            &&& x <= monitors@[i].x
            &&& y <= monitors@[i].y
            &&& monitors@[i].x + monitors@[i].width <= x + w
            &&& monitors@[i].y + monitors@[i].height <= y + h
            &&& exists|k: int| 0 <= k < monitors@.len() && (#[trigger] monitors@[k]).x == x
            &&& exists|k: int| 0 <= k < monitors@.len() && (#[trigger] monitors@[k]).y == y
            &&& exists|k: int|
                0 <= k < monitors@.len() && (#[trigger] monitors@[k]).x + monitors@[k].width == x + w
            &&& exists|k: int|
                0 <= k < monitors@.len() && (#[trigger] monitors@[k]).y + monitors@[k].height == y + h
        },
{
    assert forall|k: int| 0 <= k < monitors@.len() implies (#[trigger] monitors@[k]).wf() by {}
    law_bounds_contain_every_display(monitors@, i);
    law_bounds_are_tight(monitors@);
}

/// Without displays there are no bounds.
pub proof fn law_no_displays_have_no_bounds(
    monitors: Vec<MonitorGeom>,
    r: Result<(i32, i32, u32, u32), String>,
)
    requires
        call_ensures(virtual_bounds, (&monitors,), r),
        monitors@.len() == 0,
    ensures
        r matches Err(e) && e@ == "No displays found"@,
{
}

/// The middle of a rectangle is as far from its one side as from the other, to within a pixel.
pub proof fn law_middles_lie_in_between(gx: i32, gy: i32, gw: u32, gh: u32, r: (i32, i32))
    requires
        call_ensures(region_center, (gx, gy, gw, gh), r),
        gw <= i32::MAX,
        gh <= i32::MAX,
        gx + gw <= i32::MAX,
        gy + gh <= i32::MAX,
    ensures
        0 <= (gx + gw - r.0) - (r.0 - gx) <= 1,
        0 <= (gy + gh - r.1) - (r.1 - gy) <= 1,
{
}

/// What is captured of a rectangle is what of it lies on the display, counted from the display's
/// corner; where nothing does, a pixel.
pub proof fn law_regions_are_captured_where_they_overlap(
    gx: i32,
    gy: i32,
    gw: u32,
    gh: u32,
    m: MonitorGeom,
    r: (u32, u32, u32, u32),
)
    requires
        call_ensures(capture_region_global, (gx, gy, gw, gh, &m), r),
    ensures
        max(gx as int, m.x as int) < min(gx + gw, m.x + m.width) ==> m.x + r.0 == max(
            gx as int,
            m.x as int,
        ) && m.x + r.0 + r.2 == min(gx + gw, m.x + m.width),
        max(gy as int, m.y as int) < min(gy + gh, m.y + m.height) ==> m.y + r.1 == max(
            gy as int,
            m.y as int,
        ) && m.y + r.1 + r.3 == min(gy + gh, m.y + m.height),
        max(gx as int, m.x as int) >= min(gx + gw, m.x + m.width) ==> r.2 == 1,
        max(gy as int, m.y as int) >= min(gy + gh, m.y + m.height) ==> r.3 == 1,
        r.0 <= m.width,
        r.1 <= m.height,
{
}

/// The primary display is captured, the first one if there are several; where none is known to
/// be primary, the first display of all.
pub proof fn law_the_primary_display_is_taken(primary: Vec<Option<bool>>, r: Result<usize, String>, j: int)
    requires
        call_ensures(capture_primary, (&primary,), r),
    ensures
        r is Ok <==> primary@.len() > 0,
        r matches Ok(i) ==> {
            &&& i < primary@.len()
            &&& 0 <= j < i ==> primary@[j] != Some(true)
            &&& primary@[i as int] == Some(true) || i == 0
            &&& 0 <= j < primary@.len() && primary@[j] == Some(true) ==> primary@[i as int] == Some(
                true,
            )
        },
        r matches Err(e) ==> e@ == "No displays found"@,
{
}

/// A grabbed picture is captured as it is.
pub proof fn law_pictures_are_captured_as_they_are(
    grabbed: Result<Picture, String>,
    r: Result<Capture, String>,
)
    requires
        call_ensures(captured, (grabbed,), r),
    ensures
        r is Ok <==> grabbed is Ok,
        r matches Ok(c) ==> c.image == grabbed->Ok_0,
        r matches Err(e) ==> e@ == "capture: "@ + grabbed->Err_0@,
{
}

/// A window is found by its own id: the first one that has it.
pub proof fn law_windows_are_found_by_id(ids: Vec<Option<u32>>, id: u32, r: Result<usize, String>, j: int)
    requires
        call_ensures(capture_window, (&ids, id), r),
    ensures
        r matches Ok(i) ==> i < ids@.len() && ids@[i as int] == Some(id) && (0 <= j < i ==> ids@[j]
            != Some(id)),
        r matches Err(e) ==> (0 <= j < ids@.len() ==> ids@[j] != Some(id)) && e@
            == "Window not found"@,
{
    if r is Err {
        assert(is_unknown(ids@, id));
    }
}

/// Whether a window has a name of some kind, is not minimized and not one of our own.
pub open spec fn may_be_offered(w: RawWindow, own_pid: u32) -> bool {
    &&& w.pid != Some(own_pid)
    &&& w.minimized != Some(true)
    &&& (w.title is Some && w.title->0@.len() > 0) || (w.app_name is Some && w.app_name->0@.len()
        > 0)
}

/// Nothing of one's own, nothing minimized and nothing nameless is offered, and everything else.
pub proof fn law_nameless_windows_are_not_offered(w: RawWindow, own_pid: u32, r: bool)
    requires
        call_ensures(RawWindow::presentable, (&w, own_pid), r),
    ensures
        r == may_be_offered(w, own_pid),
{
}

/// Whether a listed window is described by what the system said of it.
pub open spec fn describes(info: WindowInfo, w: RawWindow) -> bool {
    &&& w.id == Some(info.id)
    &&& w.title is Some ==> info.title@ == w.title->0@
    &&& w.title is None ==> info.title@.len() == 0
    &&& w.app_name is Some ==> info.app_name@ == w.app_name->0@
    &&& w.app_name is None ==> info.app_name@.len() == 0
    &&& w.x is Some ==> w.x == Some(info.x)
    &&& w.x is None ==> info.x == 0
    &&& w.y is Some ==> w.y == Some(info.y)
    &&& w.y is None ==> info.y == 0
    &&& w.width == Some(info.width)
    &&& w.height == Some(info.height)
}

/// Whether two listed windows are the same in everything.
pub open spec fn are_alike(a: WindowInfo, b: WindowInfo) -> bool {
    &&& a.id == b.id
    &&& a.title@ == b.title@
    &&& a.app_name@ == b.app_name@
    &&& a.x == b.x
    &&& a.y == b.y
    &&& a.width == b.width
    &&& a.height == b.height
}

/// A window behind all others comes last in the list, exactly where it may be offered, has an id
/// and is not empty; what comes before it stays. The list of no windows is empty.
pub proof fn law_windows_are_listed_one_by_one(
    windows: Vec<RawWindow>,
    w: RawWindow,
    more: Vec<RawWindow>,
    own_pid: u32,
    r: Vec<WindowInfo>,
    rm: Vec<WindowInfo>,
)
    requires
        more@ == windows@.push(w),
        call_ensures(list_windows, (&windows, own_pid), r),
        call_ensures(list_windows, (&more, own_pid), rm),
    ensures
        ({
            let listed = may_be_offered(w, own_pid) && w.id is Some && w.width is Some && w.width->0
                > 0 && w.height is Some && w.height->0 > 0;
            &&& windows@.len() == 0 ==> r@.len() == 0
            &&& rm@.len() == r@.len() + (if listed {
                1int
            } else {
                0int
            })
            &&& forall|i: int| 0 <= i < r@.len() ==> are_alike(#[trigger] rm@[i], r@[i])
            &&& listed ==> describes(rm@.last(), w)
        }),
{
    assert(more@.drop_last() =~= windows@);
    let a = r@.map_values(|w: WindowInfo| w@);
    let b = rm@.map_values(|w: WindowInfo| w@);
    assert(a == listing(windows@, own_pid));
    assert(b == listing(more@, own_pid));
    assert(a.len() == r@.len() && b.len() == rm@.len());
    assert forall|i: int| 0 <= i < r@.len() implies are_alike(#[trigger] rm@[i], r@[i]) by {
        assert(a[i] == r@[i]@ && b[i] == rm@[i]@);
    }
    if rm@.len() > 0 {
        let last = rm@.len() - 1;
        assert(b[last] == rm@[last]@);
    }
}

/// Whether a window may be offered and has a size.
pub open spec fn may_be_picked(w: RawWindow, own_pid: u32) -> bool {
    &&& may_be_offered(w, own_pid)
    &&& w.width is Some && w.width->0 > 0
    &&& w.height is Some && w.height->0 > 0
}

/// Whether a rectangle is the place of a window on the screen.
pub open spec fn stands_there(q: Rect, w: RawWindow) -> bool {
    &&& w.x is Some ==> q.left == w.x->0
    &&& w.x is None ==> q.left == 0
    &&& w.y is Some ==> q.top == w.y->0
    &&& w.y is None ==> q.top == 0
    &&& q.right - q.left == w.width->0
    &&& q.bottom - q.top == w.height->0
}

/// A window behind all others can be picked exactly where it may be offered and has a size: it
/// comes last, with its own index and its place on the screen; what comes before it stays.
pub proof fn law_windows_can_be_picked_one_by_one(
    windows: Vec<RawWindow>,
    w: RawWindow,
    more: Vec<RawWindow>,
    own_pid: u32,
    r: (Vec<usize>, Vec<Rect>),
    rm: (Vec<usize>, Vec<Rect>),
)
    requires
        more@ == windows@.push(w),
        call_ensures(pickable_windows, (&windows, own_pid), r),
        call_ensures(pickable_windows, (&more, own_pid), rm),
        w.width matches Some(n) ==> n <= i32::MAX,
        w.height matches Some(n) ==> n <= i32::MAX,
        w.x is Some && w.width is Some ==> w.x->0 + w.width->0 <= i32::MAX,
        w.y is Some && w.height is Some ==> w.y->0 + w.height->0 <= i32::MAX,
    ensures
        r.0@.len() == r.1@.len(),
        rm.0@.len() == rm.1@.len(),
        windows@.len() == 0 ==> r.0@.len() == 0,
        may_be_picked(w, own_pid) ==> rm.0@.len() == r.0@.len() + 1,
        !may_be_picked(w, own_pid) ==> rm.0@.len() == r.0@.len(),
        forall|i: int|
            0 <= i < r.0@.len() ==> #[trigger] rm.0@[i] == r.0@[i] && rm.1@[i] == r.1@[i],
        may_be_picked(w, own_pid) ==> rm.0@.last() == windows@.len(),
        may_be_picked(w, own_pid) ==> stands_there(rm.1@.last(), w),
{
    assert(more@.drop_last() =~= windows@);
    let a = teil_capture_windows::pickable(windows@, own_pid);
    let b = teil_capture_windows::pickable(more@, own_pid);
    assert(r.0@.len() == a.len() && rm.0@.len() == b.len());
    assert(more.len() == more@.len());
    assert forall|i: int| 0 <= i < r.0@.len() implies #[trigger] rm.0@[i] == r.0@[i] && rm.1@[i]
        == r.1@[i] by {
        assert((r.0@[i], r.1@[i]) == a[i]);
        assert((rm.0@[i], rm.1@[i]) == b[i]);
    }
    if rm.0@.len() > 0 {
        let last = rm.0@.len() - 1;
        assert((rm.0@[last], rm.1@[last]) == b[last]);
        assert(rm.0@.last() == rm.0@[last] && rm.1@.last() == rm.1@[last]);
    }
    assert(may_be_offered(w, own_pid) == w.is_presentable(own_pid));
}

} // verus!
