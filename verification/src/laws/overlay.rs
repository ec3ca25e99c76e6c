//! What is cut out of a snapshot, and what the user picks on it.

use vstd::arithmetic::div_mod::lemma_fundamental_div_mod_converse;
use vstd::math::{abs, max, min};
use vstd::prelude::*;

use crate::picture::Picture;
use crate::teil_capture_windows::border::{show, take_down, wide, FramePlan};
use crate::teil_capture_windows::overlay::{
    bitmap_info, border_color, covers, dim, finish, freeze_screen, hiword_y, law_front_most_window_wins,
    loword_x, on_event, paint, run, update_selection, BitmapLayout, Event, Frozen, Mode, Outcome,
    OverlayFailure, PaintOp, Reaction, Rect, State,
};

verus! {

// ---- The snapshot --------------------------------------------------------------------

/// Whether the edges of a global rectangle can be counted from the snapshot's corner.
pub open spec fn in_reach(f: Frozen, gx: i32, gy: i32, gw: i32, gh: i32) -> bool {
    &&& i32::MIN <= gx - f.x <= i32::MAX
    &&& i32::MIN <= gy - f.y <= i32::MAX
    &&& i32::MIN <= gx - f.x + gw <= i32::MAX
    &&& i32::MIN <= gy - f.y + gh <= i32::MAX
}

/// Whether a snapshot covers something and has four bytes for each pixel.
pub open spec fn is_whole(f: Frozen) -> bool {
    0 < f.w && 0 < f.h && f.bgra@.len() == f.w * f.h * 4
}

/// A rectangle is cut out of the snapshot exactly where the two share a pixel, and the cut is
/// what they share.
pub proof fn law_cuts_are_what_is_shared(
    f: Frozen,
    gx: i32,
    gy: i32,
    gw: i32,
    gh: i32,
    r: Result<Picture, String>,
)
    requires
        call_ensures(Frozen::crop_global, (&f, gx, gy, gw, gh), r),
        is_whole(f),
        in_reach(f, gx, gy, gw, gh),
    ensures
        r is Ok <==> max(gx as int, f.x as int) < min(gx + gw, f.x + f.w) && max(
            gy as int,
            f.y as int,
        ) < min(gy + gh, f.y + f.h),
        r matches Ok(p) ==> {
            &&& p.width == min(gx + gw, f.x + f.w) - max(gx as int, f.x as int)
            &&& p.height == min(gy + gh, f.y + f.h) - max(gy as int, f.y as int)
            &&& p.pixels@.len() == p.width * p.height * 4
        },
        r matches Err(e) ==> e@ == "Selection is empty."@,
{
}

/// Every pixel of a cut is the pixel of the snapshot at its place on the screen: the colours in
/// the other order, and opaque.
pub proof fn law_cut_pixels_keep_their_place(
    f: Frozen,
    gx: i32,
    gy: i32,
    gw: i32,
    gh: i32,
    p: Picture,
    col: int,
    row: int,
)
    requires
        call_ensures(Frozen::crop_global, (&f, gx, gy, gw, gh), Ok::<Picture, String>(p)),
        is_whole(f),
        in_reach(f, gx, gy, gw, gh),
        0 <= col < p.width,
        0 <= row < p.height,
    ensures
        ({
            let at = (row * p.width + col) * 4;
            let from = ((max(gy as int, f.y as int) - f.y + row) * f.w + max(gx as int, f.x as int)
                - f.x + col) * 4;
            &&& 0 <= at && at + 3 < p.pixels@.len()
            &&& 0 <= from && from + 3 < f.bgra@.len()
            &&& p.pixels@[at] == f.bgra@[from + 2]
            &&& p.pixels@[at + 1] == f.bgra@[from + 1]
            &&& p.pixels@[at + 2] == f.bgra@[from]
            &&& p.pixels@[at + 3] == 255
        }),
{
    law_cuts_are_what_is_shared(f, gx, gy, gw, gh, Ok(p));
    let (w, h, stride, rows) = (p.width as int, p.height as int, f.w as int, f.h as int);
    let x0 = max(gx as int, f.x as int) - f.x;
    let y0 = max(gy as int, f.y as int) - f.y;
    let pixel = row * w + col;
    let at = pixel * 4;
    lemma_fundamental_div_mod_converse(pixel, w, row, col);
    assert(0 <= row * w && row * w + w <= w * h) by (nonlinear_arith)
        requires
            0 <= row,
            row + 1 <= h,
            0 <= w,
    ;
    assert(0 <= (y0 + row) * stride && (y0 + row) * stride + stride <= stride * rows)
        by (nonlinear_arith)
        requires
            0 <= y0 + row,
            y0 + row + 1 <= rows,
            0 <= stride,
    ;
    assert(at / 4 == pixel && (at + 1) / 4 == pixel && (at + 2) / 4 == pixel && (at + 3) / 4
        == pixel);
    assert(p.pixels@[at + 3] == 255);
}

/// Two cuts of the same snapshot show the same where they overlap: a cut that lies in another one
/// is a part of it.
pub proof fn law_cuts_agree(
    f: Frozen,
    gx: i32,
    gy: i32,
    gw: i32,
    gh: i32,
    p: Picture,
    hx: i32,
    hy: i32,
    hw: i32,
    hh: i32,
    q: Picture,
    col: int,
    row: int,
    k: int,
)
    requires
        call_ensures(Frozen::crop_global, (&f, gx, gy, gw, gh), Ok::<Picture, String>(p)),
        call_ensures(Frozen::crop_global, (&f, hx, hy, hw, hh), Ok::<Picture, String>(q)),
        is_whole(f),
        in_reach(f, gx, gy, gw, gh),
        in_reach(f, hx, hy, hw, hh),
        f.x <= gx <= hx,
        f.y <= gy <= hy,
        hx + hw <= gx + gw,
        hy + hh <= gy + gh,
        0 <= col < q.width,
        0 <= row < q.height,
        0 <= k < 4,
    ensures
        q.pixels@[(row * q.width + col) * 4 + k] == p.pixels@[((row + hy - gy) * p.width + col + hx
            - gx) * 4 + k],
{
    law_cuts_are_what_is_shared(f, gx, gy, gw, gh, Ok(p));
    law_cuts_are_what_is_shared(f, hx, hy, hw, hh, Ok(q));
    law_cut_pixels_keep_their_place(f, hx, hy, hw, hh, q, col, row);
    law_cut_pixels_keep_their_place(f, gx, gy, gw, gh, p, col + hx - gx, row + hy - gy);
}

/// A grabbed screen is taken over as it is, unless there is none.
pub proof fn law_screens_are_taken_over(
    x: i32,
    y: i32,
    w: i32,
    h: i32,
    grabbed: Result<Vec<u8>, String>,
    r: Result<Frozen, String>,
)
    requires
        call_ensures(freeze_screen, (x, y, w, h, grabbed), r),
    ensures
        r is Ok <==> 0 < w && 0 < h && grabbed is Ok,
        r matches Ok(f) ==> f.x == x && f.y == y && f.w == w && f.h == h && f.bgra@
            == grabbed->Ok_0@,
        r is Err && (w <= 0 || h <= 0) ==> r->Err_0@ == "No displays found."@,
        r is Err && 0 < w && 0 < h ==> r->Err_0@ == grabbed->Err_0@,
{
}

/// Dimming darkens every colour by the same share and leaves the alpha bytes alone: white turns
/// to 115, and black stays.
pub proof fn law_dimming_darkens_colours(bgra: Vec<u8>, r: Vec<u8>, i: int)
    requires
        call_ensures(dim, (&bgra,), r),
        0 <= i < bgra@.len(),
    ensures
        r@.len() == bgra@.len(),
        i % 4 == 3 ==> r@[i] == bgra@[i],
        i % 4 != 3 ==> 255 * r@[i] <= 115 * bgra@[i] < 255 * (r@[i] + 1),
{
}

/// The bitmap has the size of the snapshot, from the top down, with 32 bits for a pixel.
pub proof fn law_bitmaps_hold_the_snapshot(w: i32, h: i32, r: BitmapLayout)
    requires
        call_ensures(bitmap_info, (w, h), r),
        i32::MIN < h,
    ensures
        r.width == w,
        r.height + h == 0,
        r.planes == 1,
        r.bit_count == 32,
{
}

/// The border of a region is white: as much blue as green as red. That of a window has most blue,
/// less green, and no red.
pub proof fn law_borders_tell_the_modes_apart(region: u32, window: u32)
    requires
        call_ensures(border_color, (Mode::Region,), region),
        call_ensures(border_color, (Mode::WindowPick,), window),
    ensures
        region == 255 * 0x1_0000 + 255 * 0x100 + 255,
        window == 215 * 0x1_0000 + 120 * 0x100,
{
}

/// A mouse position is read back from the message parameter that carries it, also left of the
/// corner or above it.
pub proof fn law_mouse_positions_are_read_back(x: int, y: int, rest: int, lparam: u64, rx: i32, ry: i32)
    requires
        -0x8000 <= x < 0x8000,
        -0x8000 <= y < 0x8000,
        0 <= rest,
        lparam == rest * 0x1_0000_0000 + (if y < 0 {
            y + 0x10000
        } else {
            y
        }) * 0x10000 + (if x < 0 {
            x + 0x10000
        } else {
            x
        }),
        call_ensures(loword_x, (lparam,), rx),
        call_ensures(hiword_y, (lparam,), ry),
    ensures
        rx == x,
        ry == y,
{
    let low = if x < 0 {
        x + 0x10000
    } else {
        x
    };
    let high = if y < 0 {
        y + 0x10000
    } else {
        y
    };
    let l = lparam as int;
    lemma_fundamental_div_mod_converse(l, 0x10000, rest * 0x10000 + high, low);
    lemma_fundamental_div_mod_converse(rest * 0x10000 + high, 0x10000, rest, high);
}

// ---- The selection -------------------------------------------------------------------

/// Whether a mouse position can be added to the corner of the overlay.
pub open spec fn is_placed(st: State) -> bool {
    &&& i32::MIN + 0x8000 <= st.origin.0 <= i32::MAX - 0x8000
    &&& i32::MIN + 0x8000 <= st.origin.1 <= i32::MAX - 0x8000
    &&& st.drag_from matches Some(p) ==> is_position(p.0, p.1)
}

/// Whether a mouse position is one that a message can carry.
pub open spec fn is_position(x: i32, y: i32) -> bool {
    -0x8000 <= x < 0x8000 && -0x8000 <= y < 0x8000
}

/// What an overlay stands over, and what it offers, stays.
pub open spec fn is_same_overlay(a: State, b: State) -> bool {
    a.origin == b.origin && a.size == b.size && a.mode == b.mode && a.pick_rects@ == b.pick_rects@
}

/// Pressing the button starts a drag where regions are selected, and does nothing where windows
/// are picked.
pub proof fn law_pressing_starts_a_drag(st: &mut State, x: i32, y: i32, r: Reaction)
    requires
        call_ensures(on_event, (st, Event::LeftDown { x, y }), r),
    ensures
        is_same_overlay(*old(st), *final(st)),
        final(st).outcome == old(st).outcome,
        final(st).sel == old(st).sel,
        final(st).hover == old(st).hover,
        !r.close && !r.redraw && !r.release_mouse,
        old(st).mode == Mode::Region ==> final(st).drag_from == Some((x, y)) && r.grab_mouse,
        old(st).mode == Mode::WindowPick ==> final(st).drag_from == old(st).drag_from
            && !r.grab_mouse,
{
}

/// Moving the mouse during a drag highlights the rectangle between the place where the drag began
/// and the mouse, with both pixels in it; without a drag there is no highlight.
pub proof fn law_drags_are_highlighted(st: &mut State, x: i32, y: i32, r: Reaction)
    requires
        call_ensures(on_event, (st, Event::MouseMove { x, y }), r),
        is_placed(*old(st)),
        is_position(x, y),
        old(st).mode == Mode::Region,
    ensures
        is_same_overlay(*old(st), *final(st)),
        final(st).outcome == old(st).outcome,
        final(st).drag_from == old(st).drag_from,
        final(st).hover == old(st).hover,
        r.redraw && !r.close && !r.grab_mouse && !r.release_mouse,
        old(st).drag_from is None ==> final(st).sel is None,
        old(st).drag_from matches Some((ax, ay)) ==> (final(st).sel matches Some(q) && {
            &&& q.left == min(ax as int, x as int)
            &&& q.top == min(ay as int, y as int)
            &&& q.right - 1 == max(ax as int, x as int)
            &&& q.bottom - 1 == max(ay as int, y as int)
        }),
{
}

/// Letting go ends a drag: the rectangle between its two ends, both of which belong to it, is
/// selected in global coordinates, where it is at least 3 pixels wide and high; else the user
/// has cancelled. Without a drag nothing is decided.
pub proof fn law_drags_select_what_lies_between(st: &mut State, x: i32, y: i32, r: Reaction)
    requires
        call_ensures(on_event, (st, Event::LeftUp { x, y }), r),
        is_placed(*old(st)),
        is_position(x, y),
        old(st).mode == Mode::Region,
    ensures
        is_same_overlay(*old(st), *final(st)),
        r.release_mouse && !r.redraw && !r.grab_mouse,
        final(st).drag_from is None,
        final(st).sel == old(st).sel,
        final(st).hover == old(st).hover,
        old(st).drag_from is None ==> !r.close && final(st).outcome == old(st).outcome,
        old(st).drag_from matches Some((ax, ay)) ==> {
            &&& r.close
            &&& abs(ax - x) < 2 || abs(ay - y) < 2 ==> final(st).outcome == Some(Outcome::Cancelled)
            &&& abs(ax - x) >= 2 && abs(ay - y) >= 2 ==> (final(st).outcome matches Some(
                Outcome::Region { x: gx, y: gy, w, h },
            ) && {
                &&& gx - old(st).origin.0 == min(ax as int, x as int)
                &&& gy - old(st).origin.1 == min(ay as int, y as int)
                &&& w == abs(ax - x) + 1
                &&& h == abs(ay - y) + 1
            })
        },
{
}

/// Whether a window lies under a point of the overlay.
pub open spec fn lies_under(st: State, i: int, x: i32, y: i32) -> bool {
    let q = st.pick_rects@[i];
    q.left <= st.origin.0 + x < q.right && q.top <= st.origin.1 + y < q.bottom
}

/// Whether the front-most window under a point of the overlay is marked, as far as the overlay
/// reaches; and none where there is none.
pub open spec fn marks_the_window(before: State, after: State, x: i32, y: i32) -> bool {
    &&& after.hover is None ==> after.sel is None && forall|j: int|
        0 <= j < before.pick_rects@.len() ==> !#[trigger] lies_under(before, j, x, y)
    &&& after.hover matches Some(i) ==> {
        &&& i < before.pick_rects@.len()
        &&& lies_under(before, i as int, x, y)
        &&& forall|j: int| 0 <= j < i ==> !#[trigger] lies_under(before, j, x, y)
        &&& after.sel matches Some(s) && {
            let q = before.pick_rects@[i as int];
            &&& s.left == min(max(q.left - before.origin.0, 0), before.size.0 as int)
            &&& s.top == min(max(q.top - before.origin.1, 0), before.size.1 as int)
            &&& s.right == min(max(q.right - before.origin.0, 0), before.size.0 as int)
            &&& s.bottom == min(max(q.bottom - before.origin.1, 0), before.size.1 as int)
        }
    }
}

proof fn lemma_marked(before: State, after: State, x: i32, y: i32)
    requires
        before.mode == Mode::WindowPick,
        0 < before.size.0,
        0 < before.size.1,
        after@.hover == before@.pointed(x, y).hover,
        after@.sel == before@.pointed(x, y).sel,
    ensures
        marks_the_window(before, after, x, y),
{
    let rects = before.pick_rects@;
    let (gx, gy) = (before.origin.0 + x, before.origin.1 + y);
    assert(before.pick_rects.len() == rects.len());
    law_front_most_window_wins(rects, gx, gy);
    assert forall|j: int| 0 <= j < rects.len() implies #[trigger] lies_under(before, j, x, y)
        == covers(rects[j], gx, gy) by {}
}

/// Pointing at a window marks it, and changes nothing else.
pub proof fn law_windows_are_highlighted(st: &mut State, x: i32, y: i32, r: ())
    requires
        call_ensures(update_selection, (st, x, y), r),
        0 < old(st).size.0,
        0 < old(st).size.1,
        old(st).mode == Mode::WindowPick,
    ensures
        is_same_overlay(*old(st), *final(st)),
        final(st).outcome == old(st).outcome,
        final(st).drag_from == old(st).drag_from,
        marks_the_window(*old(st), *final(st), x, y),
{
    lemma_marked(*old(st), *final(st), x, y);
}

/// Moving the mouse where windows are picked marks the window under it, and nothing else.
pub proof fn law_moving_marks_the_window(st: &mut State, x: i32, y: i32, r: Reaction)
    requires
        call_ensures(on_event, (st, Event::MouseMove { x, y }), r),
        0 < old(st).size.0,
        0 < old(st).size.1,
        old(st).mode == Mode::WindowPick,
    ensures
        is_same_overlay(*old(st), *final(st)),
        final(st).outcome == old(st).outcome,
        final(st).drag_from == old(st).drag_from,
        marks_the_window(*old(st), *final(st), x, y),
        r.redraw && !r.close && !r.grab_mouse && !r.release_mouse,
{
    lemma_marked(*old(st), *final(st), x, y);
}

/// Where regions are selected, the highlight follows the mouse from where the drag began.
pub proof fn law_pointing_highlights_the_drag(st: &mut State, x: i32, y: i32, r: ())
    requires
        call_ensures(update_selection, (st, x, y), r),
        is_placed(*old(st)),
        is_position(x, y),
        old(st).mode == Mode::Region,
    ensures
        is_same_overlay(*old(st), *final(st)),
        final(st).outcome == old(st).outcome,
        final(st).drag_from == old(st).drag_from,
        final(st).hover == old(st).hover,
        old(st).drag_from is None ==> final(st).sel is None,
        old(st).drag_from matches Some((ax, ay)) ==> (final(st).sel matches Some(q) && {
            &&& q.left == min(ax as int, x as int)
            &&& q.top == min(ay as int, y as int)
            &&& q.right - 1 == max(ax as int, x as int)
            &&& q.bottom - 1 == max(ay as int, y as int)
        }),
{
}

/// A click where windows are picked picks the window under the mouse and closes the overlay; where
/// there is none, nothing is decided. It is marked either way.
pub proof fn law_clicks_pick_the_front_most_window(st: &mut State, x: i32, y: i32, r: Reaction)
    requires
        call_ensures(on_event, (st, Event::LeftUp { x, y }), r),
        0 < old(st).size.0,
        0 < old(st).size.1,
        old(st).mode == Mode::WindowPick,
    ensures
        is_same_overlay(*old(st), *final(st)),
        final(st).drag_from == old(st).drag_from,
        marks_the_window(*old(st), *final(st), x, y),
        r.close <==> final(st).hover is Some,
        r.close ==> final(st).outcome == Some(Outcome::Window(final(st).hover->0)),
        !r.close ==> final(st).outcome == old(st).outcome,
        !r.grab_mouse && !r.release_mouse && !r.redraw,
{
    lemma_marked(*old(st), *final(st), x, y);
}

/// Escape and a right click cancel, in every state.
pub proof fn law_escape_and_right_click_cancel(st: &mut State, e: Event, r: Reaction)
    requires
        call_ensures(on_event, (st, e), r),
        e is Escape || e is RightUp,
    ensures
        is_same_overlay(*old(st), *final(st)),
        final(st).outcome == Some(Outcome::Cancelled),
        final(st).sel == old(st).sel && final(st).hover == old(st).hover && final(st).drag_from
            == old(st).drag_from,
        r.close && !r.redraw && !r.grab_mouse && !r.release_mouse,
{
}

/// One overlay is open at a time. It covers just the snapshot, and nothing is selected yet.
pub proof fn law_one_overlay_is_open(
    in_progress: &mut bool,
    frozen: Frozen,
    mode: Mode,
    rects: Vec<Rect>,
    r: Result<State, String>,
)
    requires
        call_ensures(run, (in_progress, &frozen, mode, rects), r),
    ensures
        *final(in_progress),
        r is Ok <==> !*old(in_progress),
        r matches Ok(st) ==> {
            &&& st.origin == (frozen.x, frozen.y)
            &&& st.size == (frozen.w, frozen.h)
            &&& st.mode == mode
            &&& st.pick_rects@ == rects@
            &&& st.drag_from is None && st.sel is None && st.hover is None && st.outcome is None
        },
        r matches Err(e) ==> e@ == "A capture is already in progress."@,
{
}

/// However an overlay ended, another one can be opened afterwards. What was picked is told; an
/// overlay that was closed without a pick was cancelled.
pub proof fn law_overlays_tell_what_was_picked(
    in_progress: &mut bool,
    st: State,
    ended: Result<(), OverlayFailure>,
    r: Result<Outcome, String>,
)
    requires
        call_ensures(finish, (in_progress, st, ended), r),
    ensures
        !*final(in_progress),
        r is Ok <==> ended is Ok,
        r is Ok && st.outcome is Some ==> r->Ok_0 == st.outcome->0,
        r is Ok && st.outcome is None ==> r->Ok_0 is Cancelled,
        ended matches Err(OverlayFailure::Bitmap(why)) ==> r->Err_0@
            == "CreateDIBSection failed: "@ + why@,
        ended matches Err(OverlayFailure::Window(why)) ==> r->Err_0@
            == "Overlay window creation failed: "@ + why@,
        ended matches Err(OverlayFailure::System(why)) ==> r->Err_0@ == why@,
{
}

/// The screen is dimmed first. What is selected is then shown as it is, and framed: twice, one
/// pixel apart, where there is room. Nothing else is drawn.
pub proof fn law_selections_are_framed(sel: Option<Rect>, r: Vec<PaintOp>)
    requires
        call_ensures(paint, (sel,), r),
    ensures
        r@.len() >= 1,
        r@[0] is Dim,
        sel is None ==> r@.len() == 1,
        sel matches Some(q) ==> {
            &&& q.left >= q.right || q.top >= q.bottom ==> r@.len() == 1
            &&& q.left < q.right && q.top < q.bottom ==> {
                &&& r@.len() == 3 || r@.len() == 4
                &&& r@[1] == PaintOp::Reveal(q)
                &&& r@[2] == PaintOp::Frame(q)
                &&& r@.len() == 4 <==> q.right - q.left >= 3 && q.bottom - q.top >= 3
                &&& r@.len() == 4 ==> (r@[3] matches PaintOp::Frame(inner) && {
                    &&& inner.left == q.left + 1
                    &&& inner.top == q.top + 1
                    &&& inner.right == q.right - 1
                    &&& inner.bottom == q.bottom - 1
                })
            }
        },
{
}

// ---- The frame around a recording ----------------------------------------------------

/// The frame lies around the rectangle on all sides, 3 pixels thick, and leaves it free.
pub proof fn law_frames_surround_what_is_recorded(x: i32, y: i32, w: i32, h: i32, r: FramePlan)
    requires
        call_ensures(show, (x, y, w, h), r),
        i32::MIN + 3 <= x,
        i32::MIN + 3 <= y,
        0 <= w <= i32::MAX - 6,
        0 <= h <= i32::MAX - 6,
    ensures
        r.x + 3 == x,
        r.y + 3 == y,
        r.width == w + 6,
        r.height == h + 6,
        r.hole.left == 3,
        r.hole.top == 3,
        r.hole.right - r.hole.left == w,
        r.hole.bottom - r.hole.top == h,
{
}

/// The frame's window is taken down once.
pub proof fn law_frames_are_taken_down_once(slot: &mut i64, r: Option<i64>)
    requires
        call_ensures(take_down, (slot,), r),
    ensures
        *final(slot) == 0,
        *old(slot) == 0 ==> r is None,
        *old(slot) != 0 ==> r == Some(*old(slot)),
{
}

/// A text of characters that take one unit each is written unit by unit, with a zero behind it.
pub proof fn law_plain_texts_are_written_unit_by_unit(s: &str, r: Vec<u16>)
    requires
        call_ensures(wide, (s,), r),
        forall|i: int| 0 <= i < s@.len() ==> #[trigger] s@[i] as u32 <= 0xFFFF,
    ensures
        r@.len() == s@.len() + 1,
        r@.last() == 0,
        forall|i: int| 0 <= i < s@.len() ==> #[trigger] r@[i] == s@[i] as u32,
{
    lemma_plain_units(s@);
}

proof fn lemma_plain_units(s: Seq<char>)
    requires
        forall|i: int| 0 <= i < s.len() ==> #[trigger] s[i] as u32 <= 0xFFFF,
    ensures
        ({
            let units = crate::teil_capture_windows::border::utf16_text(s);
            &&& units.len() == s.len()
            &&& forall|i: int| 0 <= i < s.len() ==> #[trigger] units[i] == s[i] as u32
        }),
    decreases s.len(),
{
    if s.len() > 0 {
        assert forall|i: int| 0 <= i < s.drop_last().len() implies #[trigger] s.drop_last()[i] as u32
            <= 0xFFFF by {
            assert(s.drop_last()[i] == s[i]);
        }
        lemma_plain_units(s.drop_last());
        let head = crate::teil_capture_windows::border::utf16_text(s.drop_last());
        let units = crate::teil_capture_windows::border::utf16_text(s);
        assert forall|i: int| 0 <= i < s.len() implies #[trigger] units[i] == s[i] as u32 by {
            if i < s.len() - 1 {
                assert(units[i] == head[i]);
                assert(s.drop_last()[i] == s[i]);
            } else {
                assert(s[s.len() - 1] as u32 <= 0xFFFF);
            }
        }
    }
}

/// A text with one character more is written with the units of that character before the zero:
/// the character itself, or the two units that stand for one beyond 0xFFFF.
pub proof fn law_texts_are_written_character_by_character(
    longer: &str,
    shorter: &str,
    c: char,
    rl: Vec<u16>,
    rs: Vec<u16>,
)
    requires
        longer@ == shorter@.push(c),
        call_ensures(wide, (longer,), rl),
        call_ensures(wide, (shorter,), rs),
    ensures
        ({
            let n = rs@.len() as int;
            let v = c as u32;
            &&& n >= 1 && rs@[n - 1] == 0
            &&& rl@.last() == 0
            &&& forall|i: int| 0 <= i < n - 1 ==> #[trigger] rl@[i] == rs@[i]
            &&& v <= 0xFFFF ==> rl@.len() == n + 1 && rl@[n - 1] == v
            &&& v > 0xFFFF ==> {
                &&& rl@.len() == n + 2
                &&& 0xD800 <= rl@[n - 1] < 0xDC00
                &&& 0xDC00 <= rl@[n] < 0xE000
                &&& (rl@[n - 1] - 0xD800) * 0x400 + (rl@[n] - 0xDC00) == v - 0x10000
            }
        }),
{
    assert(longer@.drop_last() =~= shorter@);
}

} // verus!
