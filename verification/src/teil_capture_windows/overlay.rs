//! The selection overlay: a frozen snapshot of the whole virtual screen, the drag
//! rectangle or hovered window on top of it, and what the user picked in the end.
//!
//! Coordinates are physical pixels. Global coordinates are those of the virtual screen;
//! client coordinates start at the overlay's own top-left corner.

use vstd::arithmetic::div_mod::lemma_fundamental_div_mod_converse;
use vstd::math::{max, min};
use vstd::prelude::*;

use crate::geometry::{clamp, clamp_wide, clamped, fits, least, most};
use crate::picture::Picture;
use crate::text::join;

verus! {

/// A rectangle; `right` and `bottom` lie just outside of it.
#[derive(Clone, Copy, Debug, PartialEq, Eq, Structural)]
pub struct Rect {
    pub left: i32,
    pub top: i32,
    pub right: i32,
    pub bottom: i32,
}

/// What the overlay lets the user pick.
#[derive(Clone, Copy, Debug, PartialEq, Eq, Structural)]
pub enum Mode {
    Region,
    WindowPick,
}

/// How a selection ended.
#[derive(Clone, Copy, Debug, PartialEq, Eq, Structural)]
pub enum Outcome {
    Cancelled,
    /// A rectangle in global coordinates.
    Region { x: i32, y: i32, w: i32, h: i32 },
    /// Index into the list of windows that was offered.
    Window(usize),
}

/// Frozen BGRA snapshot of the whole virtual screen (rows from the top).
#[derive(Debug, PartialEq, Eq)]
pub struct Frozen {
    pub x: i32,
    pub y: i32,
    pub w: i32,
    pub h: i32,
    pub bgra: Vec<u8>,
}

/// Byte `i` of the RGBA picture that is cut out of a snapshot `stride` pixels wide,
/// `width` pixels wide itself and with its corner at pixel (`left`, `top`).
/// The alpha byte is always 255.
pub open spec fn cut_byte(bgra: Seq<u8>, stride: int, left: int, top: int, width: int, i: int) -> u8 {
    let pixel = i / 4;
    let source = ((top + pixel / width) * stride + left + pixel % width) * 4;
    if i % 4 == 3 {
        255
    } else {
        bgra[source + 2 - i % 4]
    }
}

/// The RGBA bytes of a `width` by `height` cut.
pub open spec fn cut(bgra: Seq<u8>, stride: int, left: int, top: int, width: int, height: int) -> Seq<u8> {
    Seq::new((width * height * 4) as nat, |i: int| cut_byte(bgra, stride, left, top, width, i))
}

impl Frozen {
    /// The snapshot covers at least one pixel and holds four bytes for each.
    pub open spec fn wf(&self) -> bool {
        &&& 0 < self.w
        &&& 0 < self.h
        &&& self.bgra@.len() == self.w * self.h * 4
    }

    /// The edges of a global rectangle, clamped to the snapshot and counted from its corner.
    pub open spec fn clipped(&self, gx: int, gy: int, gw: int, gh: int) -> (int, int, int, int) {
        (
            clamped(gx - self.x, 0, self.w as int),
            clamped(gy - self.y, 0, self.h as int),
            clamped(gx - self.x + gw, 0, self.w as int),
            clamped(gy - self.y + gh, 0, self.h as int),
        )
    }

    /// Crops a global rectangle out of the snapshot as RGBA, clamped to the snapshot.
    /// Fails where nothing of the rectangle is left.
    pub fn crop_global(&self, gx: i32, gy: i32, gw: i32, gh: i32) -> (r: Result<Picture, String>)
        requires
            self.wf(),
            fits(gx - self.x),
            fits(gy - self.y),
            fits(gx - self.x + gw),
            fits(gy - self.y + gh),
        ensures
            ({
                let (x0, y0, x1, y1) = self.clipped(gx as int, gy as int, gw as int, gh as int);
                match r {
                    Ok(p) => {
                        &&& x0 < x1 && y0 < y1
                        &&& p.wf()
                        &&& p.width == x1 - x0
                        &&& p.height == y1 - y0
                        &&& p.pixels@ == cut(self.bgra@, self.w as int, x0, y0, x1 - x0, y1 - y0)
                    },
                    Err(e) => {
                        &&& x0 >= x1 || y0 >= y1
                        &&& e@ == "Selection is empty."@
                    },
                }
            }),
    {
        let x0: i32 = clamp(gx - self.x, 0, self.w);
        let y0: i32 = clamp(gy - self.y, 0, self.h);
        let x1: i32 = clamp(gx - self.x + gw, 0, self.w);
        let y1: i32 = clamp(gy - self.y + gh, 0, self.h);
        let cw: i32 = x1 - x0;
        let ch: i32 = y1 - y0;
        if cw < 1 || ch < 1 {
            return Err("Selection is empty.".to_owned());
        }
        let total: usize = self.bgra.len();
        let ghost stride = self.w as int;
        let ghost whole = cut(self.bgra@, stride, x0 as int, y0 as int, cw as int, ch as int);
        let mut out: Vec<u8> = Vec::new();
        let mut row: i32 = 0;
        while row < ch
            invariant
                self.wf(),
                total == self.bgra@.len(),
                stride == self.w,
                0 <= row <= ch,
                0 <= x0,
                0 <= y0,
                1 <= cw,
                x0 + cw <= self.w,
                y0 + ch <= self.h,
                whole == cut(self.bgra@, stride, x0 as int, y0 as int, cw as int, ch as int),
                out@.len() == row * cw * 4,
                forall|i: int| 0 <= i < out@.len() ==> out@[i] == whole[i],
            decreases ch - row,
        {
            let mut col: i32 = 0;
            assert((row * cw + 0) * 4 == row * cw * 4) by (nonlinear_arith);
            while col < cw
                invariant
                    self.wf(),
                    total == self.bgra@.len(),
                    stride == self.w,
                    0 <= row < ch,
                    0 <= col <= cw,
                    0 <= x0,
                    0 <= y0,
                    1 <= cw,
                    x0 + cw <= self.w,
                    y0 + ch <= self.h,
                    whole == cut(self.bgra@, stride, x0 as int, y0 as int, cw as int, ch as int),
                    out@.len() == (row * cw + col) * 4,
                    forall|i: int| 0 <= i < out@.len() ==> out@[i] == whole[i],
                decreases cw - col,
            {
                let ghost pixel = row * cw + col;
                let ghost source = (y0 + row) * stride + x0 + col;
                proof {
                    lemma_pixel_in_bounds(
                        stride, self.h as int, x0 as int, y0 as int, cw as int, ch as int,
                        row as int, col as int,
                    );
                    lemma_fundamental_div_mod_converse(pixel, cw as int, row as int, col as int);
                }
                // The snapshot is addressable, so none of these products overflows.
                assert(source * 4 + 3 < total);
                let at: usize = ((y0 + row) as usize * self.w as usize + (x0 + col) as usize) * 4;
                let ghost before = out@;
                out.push(self.bgra[at + 2]);
                out.push(self.bgra[at + 1]);
                out.push(self.bgra[at]);
                out.push(255);
                assert forall|i: int| 0 <= i < out@.len() implies out@[i] == whole[i] by {
                    if i >= before.len() {
                        assert(i / 4 == pixel);
                    } else {
                        assert(out@[i] == before[i]);
                    }
                }
                col = col + 1;
            }
            assert((row * cw + cw) * 4 == (row + 1) * cw * 4) by (nonlinear_arith);
            row = row + 1;
        }
        assert(ch * cw * 4 == cw * ch * 4) by (nonlinear_arith);
        assert(out@ =~= whole);
        let length: usize = out.len();
        assert(cw * 4 <= length) by (nonlinear_arith)
            requires
                ch * cw * 4 == length,
                ch >= 1,
                cw >= 1,
        ;
        Ok(Picture { width: cw as u32, height: ch as u32, pixels: out })
    }
}

/// Takes over a grabbed screen: the position and size of the virtual screen, and its
/// BGRA bytes where the grab worked.
pub fn freeze_screen(x: i32, y: i32, w: i32, h: i32, grabbed: Result<Vec<u8>, String>) -> (r: Result<
    Frozen,
    String,
>)
    requires
        0 < w && 0 < h ==> (grabbed matches Ok(bytes) ==> bytes@.len() == w * h * 4),
    ensures
        match r {
            Ok(f) => {
                &&& 0 < w && 0 < h
                &&& f.wf()
                &&& grabbed matches Ok(bytes) && f == (Frozen { x, y, w, h, bgra: bytes })
            },
            Err(e) => {
                ||| (w <= 0 || h <= 0) && e@ == "No displays found."@
                ||| 0 < w && 0 < h && grabbed == Err::<Vec<u8>, String>(e)
            },
        },
{
    if w <= 0 || h <= 0 {
        return Err("No displays found.".to_owned());
    }
    match grabbed {
        Ok(bgra) => Ok(Frozen { x, y, w, h, bgra }),
        Err(e) => Err(e),
    }
}

/// The dimmed copy of a BGRA snapshot: colours at 115/255, alpha as it was.
pub open spec fn dimmed(bgra: Seq<u8>) -> Seq<u8> {
    bgra.map(|i: int, v: u8| if i % 4 == 3 { v } else { (v * 115 / 255) as u8 })
}

/// Dims a BGRA snapshot for the part of the screen that is not selected.
pub fn dim(bgra: &Vec<u8>) -> (r: Vec<u8>)
    ensures
        r@ == dimmed(bgra@),
{
    let mut out: Vec<u8> = Vec::new();
    let n: usize = bgra.len();
    let mut i: usize = 0;
    while i < n
        invariant
            n == bgra@.len(),
            i <= n,
            out@.len() == i,
            forall|j: int| 0 <= j < i ==> out@[j] == dimmed(bgra@)[j],
        decreases n - i,
    {
        let v: u8 = bgra[i];
        if i % 4 == 3 {
            out.push(v);
        } else {
            out.push((v as u32 * 115 / 255) as u8);
        }
        i = i + 1;
    }
    assert(out@ =~= dimmed(bgra@));
    out
}

/// Layout of the 32-bit bitmap that holds a snapshot.
#[derive(Clone, Copy, Debug, PartialEq, Eq, Structural)]
pub struct BitmapLayout {
    pub width: i32,
    /// Negative: the rows run from the top down.
    pub height: i32,
    pub planes: u16,
    pub bit_count: u16,
}

/// The bitmap layout of a `w` by `h` snapshot.
pub fn bitmap_info(w: i32, h: i32) -> (r: BitmapLayout)
    requires
        h > i32::MIN,
    ensures
        r == (BitmapLayout { width: w, height: (-h) as i32, planes: 1, bit_count: 32 }),
{
    BitmapLayout { width: w, height: -h, planes: 1, bit_count: 32 }
}

/// Colour of the selection's border, as 0x00BBGGRR: white for a region, accent blue for
/// a window.
pub fn border_color(mode: Mode) -> (r: u32)
    ensures
        r == (match mode {
            Mode::Region => 0x00FFFFFFu32,
            Mode::WindowPick => 0x00D77800u32,
        }),
{
    match mode {
        Mode::Region => 0x00FFFFFF,
        Mode::WindowPick => 0x00D77800,
    }
}

/// The signed 16-bit number in the low half of a 32-bit message parameter, for one that
/// holds `bits` there.
pub open spec fn sign_extended(bits: int) -> int {
    if bits < 0x8000 {
        bits
    } else {
        bits - 0x10000
    }
}

/// The client x coordinate in a mouse message's parameter: bits 0 to 15, signed.
pub fn loword_x(lparam: u64) -> (r: i32)
    ensures
        r == sign_extended(lparam as int % 0x10000),
        -0x8000 <= r < 0x8000,
{
    let bits: u64 = lparam & 0xffff;
    assert(bits == lparam % 0x10000) by (bit_vector)
        requires
            bits == lparam & 0xffff,
    ;
    if bits < 0x8000 {
        bits as i32
    } else {
        bits as i32 - 0x10000
    }
}

/// The client y coordinate in a mouse message's parameter: bits 16 to 31, signed.
pub fn hiword_y(lparam: u64) -> (r: i32)
    ensures
        r == sign_extended(lparam as int / 0x10000 % 0x10000),
        -0x8000 <= r < 0x8000,
{
    let high: u64 = lparam >> 16;
    assert(high == lparam / 0x10000) by (bit_vector)
        requires
            high == lparam >> 16,
    ;
    loword_x(high)
}

/// The state of an open overlay.
#[derive(Debug, PartialEq, Eq)]
pub struct State {
    pub origin: (i32, i32),
    pub size: (i32, i32),
    pub mode: Mode,
    /// Windows that can be picked, in global coordinates, front to back.
    pub pick_rects: Vec<Rect>,
    /// Where the drag began (client coordinates) while the button is down.
    pub drag_from: Option<(i32, i32)>,
    /// What is highlighted (client coordinates).
    pub sel: Option<Rect>,
    pub hover: Option<usize>,
    pub outcome: Option<Outcome>,
}

/// The state of an open overlay, as a value.
pub ghost struct Model {
    pub origin: (i32, i32),
    pub size: (i32, i32),
    pub mode: Mode,
    pub pick_rects: Seq<Rect>,
    pub drag_from: Option<(i32, i32)>,
    pub sel: Option<Rect>,
    pub hover: Option<usize>,
    pub outcome: Option<Outcome>,
}

impl View for State {
    type V = Model;

    open spec fn view(&self) -> Model {
        Model {
            origin: self.origin,
            size: self.size,
            mode: self.mode,
            pick_rects: self.pick_rects@,
            drag_from: self.drag_from,
            sel: self.sel,
            hover: self.hover,
            outcome: self.outcome,
        }
    }
}

/// What the overlay is told by its window.
#[derive(Clone, Copy, Debug, PartialEq, Eq, Structural)]
pub enum Event {
    MouseMove { x: i32, y: i32 },
    LeftDown { x: i32, y: i32 },
    LeftUp { x: i32, y: i32 },
    RightUp,
    Escape,
}

/// What the overlay's window does about it.
#[derive(Clone, Copy, Debug, PartialEq, Eq, Structural)]
pub struct Reaction {
    pub redraw: bool,
    pub grab_mouse: bool,
    pub release_mouse: bool,
    pub close: bool,
}

/// Whether a mouse position is one that a message can carry.
pub open spec fn is_mouse_position(x: int, y: int) -> bool {
    -0x8000 <= x < 0x8000 && -0x8000 <= y < 0x8000
}

impl Event {
    /// The mouse position, where there is one, is one that a message can carry.
    pub open spec fn wf(self) -> bool {
        match self {
            Event::MouseMove { x, y } => is_mouse_position(x as int, y as int),
            Event::LeftDown { x, y } => is_mouse_position(x as int, y as int),
            Event::LeftUp { x, y } => is_mouse_position(x as int, y as int),
            Event::RightUp => true,
            Event::Escape => true,
        }
    }
}

/// Whether a global point lies in a rectangle.
pub open spec fn covers(r: Rect, gx: int, gy: int) -> bool {
    r.left <= gx < r.right && r.top <= gy < r.bottom
}

/// The first rectangle of the list that a global point lies in.
pub open spec fn hovered(rects: Seq<Rect>, gx: int, gy: int) -> Option<usize>
    decreases rects.len(),
{
    if rects.len() == 0 {
        None
    } else {
        match hovered(rects.drop_last(), gx, gy) {
            Some(i) => Some(i),
            None => if covers(rects.last(), gx, gy) {
                Some((rects.len() - 1) as usize)
            } else {
                None
            },
        }
    }
}

/// The rectangle between two corners, both of which belong to it.
pub open spec fn spanned(a: (i32, i32), b: (i32, i32)) -> Rect {
    Rect {
        left: min(a.0 as int, b.0 as int) as i32,
        top: min(a.1 as int, b.1 as int) as i32,
        right: (max(a.0 as int, b.0 as int) + 1) as i32,
        bottom: (max(a.1 as int, b.1 as int) + 1) as i32,
    }
}

/// What a drag between two client points selects: the rectangle between them, moved to
/// global coordinates; nothing where it is under 3 pixels wide or high.
pub open spec fn dragged(origin: (i32, i32), a: (i32, i32), b: (i32, i32)) -> Outcome {
    let r = spanned(a, b);
    if r.right - r.left >= 3 && r.bottom - r.top >= 3 {
        Outcome::Region {
            x: (origin.0 + r.left) as i32,
            y: (origin.1 + r.top) as i32,
            w: (r.right - r.left) as i32,
            h: (r.bottom - r.top) as i32,
        }
    } else {
        Outcome::Cancelled
    }
}

impl Model {
    /// Every coordinate that the overlay computes can be held: its corner lies so far from
    /// the ends of the number range that a mouse position can be added to it. A drag began at
    /// a mouse position.
    pub open spec fn wf(self) -> bool {
        &&& 0 < self.size.0 && 0 < self.size.1
        &&& i32::MIN + 0x8000 <= self.origin.0 <= i32::MAX - 0x8000
        &&& i32::MIN + 0x8000 <= self.origin.1 <= i32::MAX - 0x8000
        &&& self.pick_rects.len() <= usize::MAX
        &&& self.drag_from matches Some(p) ==> is_mouse_position(p.0 as int, p.1 as int)
    }

    /// A global rectangle in client coordinates, clamped to the overlay.
    pub open spec fn shown(self, r: Rect) -> Rect {
        Rect {
            left: clamped(r.left - self.origin.0, 0, self.size.0 as int) as i32,
            top: clamped(r.top - self.origin.1, 0, self.size.1 as int) as i32,
            right: clamped(r.right - self.origin.0, 0, self.size.0 as int) as i32,
            bottom: clamped(r.bottom - self.origin.1, 0, self.size.1 as int) as i32,
        }
    }

    /// The highlight, once the cursor stands at a client point.
    pub open spec fn pointed(self, cx: i32, cy: i32) -> Model {
        match self.mode {
            Mode::Region => Model {
                sel: match self.drag_from {
                    Some(a) => Some(spanned(a, (cx, cy))),
                    None => None,
                },
                ..self
            },
            Mode::WindowPick => {
                let hover = hovered(self.pick_rects, self.origin.0 + cx, self.origin.1 + cy);
                Model {
                    hover,
                    sel: match hover {
                        Some(i) => Some(self.shown(self.pick_rects[i as int])),
                        None => None,
                    },
                    ..self
                }
            },
        }
    }

    /// The state after an event, and what the window does.
    pub open spec fn step(self, e: Event) -> (Model, Reaction) {
        let quiet = Reaction { redraw: false, grab_mouse: false, release_mouse: false, close: false };
        match e {
            Event::MouseMove { x, y } => (self.pointed(x, y), Reaction { redraw: true, ..quiet }),
            Event::LeftDown { x, y } => match self.mode {
                Mode::Region => (
                    Model { drag_from: Some((x, y)), ..self },
                    Reaction { grab_mouse: true, ..quiet },
                ),
                Mode::WindowPick => (self, quiet),
            },
            Event::LeftUp { x, y } => match self.mode {
                Mode::Region => match self.drag_from {
                    Some(a) => (
                        Model {
                            drag_from: None,
                            outcome: Some(dragged(self.origin, a, (x, y))),
                            ..self
                        },
                        Reaction { release_mouse: true, close: true, ..quiet },
                    ),
                    None => (self, Reaction { release_mouse: true, ..quiet }),
                },
                Mode::WindowPick => {
                    let next = self.pointed(x, y);
                    match next.hover {
                        Some(i) => (
                            Model { outcome: Some(Outcome::Window(i)), ..next },
                            Reaction { close: true, ..quiet },
                        ),
                        None => (next, quiet),
                    }
                },
            },
            Event::RightUp => (
                Model { outcome: Some(Outcome::Cancelled), ..self },
                Reaction { close: true, ..quiet },
            ),
            Event::Escape => (
                Model { outcome: Some(Outcome::Cancelled), ..self },
                Reaction { close: true, ..quiet },
            ),
        }
    }

    /// The state after a list of events.
    pub open spec fn steps(self, events: Seq<Event>) -> Model
        decreases events.len(),
    {
        if events.len() == 0 {
            self
        } else {
            self.steps(events.drop_last()).step(events.last()).0
        }
    }
}

/// The index of the front-most window under a global point.
fn pick(rects: &Vec<Rect>, gx: i32, gy: i32) -> (r: Option<usize>)
    ensures
        r == hovered(rects@, gx as int, gy as int),
        r matches Some(i) ==> i < rects@.len(),
{
    let n: usize = rects.len();
    let mut i: usize = 0;
    while i < n
        invariant
            n == rects@.len(),
            i <= n,
            hovered(rects@.take(i as int), gx as int, gy as int) is None,
        decreases n - i,
    {
        let r: Rect = rects[i];
        assert(rects@.take(i + 1).drop_last() =~= rects@.take(i as int));
        if gx >= r.left && gx < r.right && gy >= r.top && gy < r.bottom {
            proof {
                lemma_first_hit_stays(rects@, gx as int, gy as int, i as int + 1);
            }
            return Some(i);
        }
        i = i + 1;
    }
    assert(rects@.take(n as int) =~= rects@);
    None
}

/// A window found among the first `n` stays the one that is found.
proof fn lemma_first_hit_stays(rects: Seq<Rect>, gx: int, gy: int, n: int)
    requires
        0 <= n <= rects.len(),
        hovered(rects.take(n), gx, gy) is Some,
    ensures
        hovered(rects, gx, gy) == hovered(rects.take(n), gx, gy),
    decreases rects.len() - n,
{
    if n == rects.len() {
        assert(rects.take(n) =~= rects);
    } else {
        assert(rects.take(n + 1).drop_last() =~= rects.take(n));
        lemma_first_hit_stays(rects, gx, gy, n + 1);
    }
}

/// Recomputes the highlight for the cursor position (client coordinates).
pub fn update_selection(st: &mut State, cx: i32, cy: i32)
    requires
        old(st)@.wf(),
        is_mouse_position(cx as int, cy as int),
    ensures
        final(st)@ == old(st)@.pointed(cx, cy),
        final(st)@.wf(),
        final(st)@.hover matches Some(i) ==> old(st)@.mode == Mode::WindowPick ==> i
            < old(st)@.pick_rects.len(),
{
    match st.mode {
        Mode::Region => {
            st.sel = match st.drag_from {
                Some((ax, ay)) => Some(
                    Rect {
                        left: least(ax, cx),
                        top: least(ay, cy),
                        right: most(ax, cx) + 1,
                        bottom: most(ay, cy) + 1,
                    },
                ),
                None => None,
            };
        },
        Mode::WindowPick => {
            let gx: i32 = st.origin.0 + cx;
            let gy: i32 = st.origin.1 + cy;
            let hover = pick(&st.pick_rects, gx, gy);
            st.hover = hover;
            st.sel = match hover {
                Some(i) => {
                    let r: Rect = st.pick_rects[i];
                    let x: i64 = st.origin.0 as i64;
                    let y: i64 = st.origin.1 as i64;
                    Some(
                        Rect {
                            left: clamp_wide(r.left as i64 - x, 0, st.size.0 as i64) as i32,
                            top: clamp_wide(r.top as i64 - y, 0, st.size.1 as i64) as i32,
                            right: clamp_wide(r.right as i64 - x, 0, st.size.0 as i64) as i32,
                            bottom: clamp_wide(r.bottom as i64 - y, 0, st.size.1 as i64) as i32,
                        },
                    )
                },
                None => None,
            };
        },
    }
}

/// Handles one window event.
pub fn on_event(st: &mut State, e: Event) -> (r: Reaction)
    requires
        old(st)@.wf(),
        e.wf(),
    ensures
        (final(st)@, r) == old(st)@.step(e),
        final(st)@.wf(),
{
    let mut reaction = Reaction {
        redraw: false,
        grab_mouse: false,
        release_mouse: false,
        close: false,
    };
    match e {
        Event::MouseMove { x, y } => {
            update_selection(st, x, y);
            reaction.redraw = true;
        },
        Event::LeftDown { x, y } => {
            match st.mode {
                Mode::Region => {
                    st.drag_from = Some((x, y));
                    reaction.grab_mouse = true;
                },
                Mode::WindowPick => {},
            }
        },
        Event::LeftUp { x, y } => {
            match st.mode {
                Mode::Region => {
                    reaction.release_mouse = true;
                    if let Some((ax, ay)) = st.drag_from {
                        st.drag_from = None;
                        let left: i32 = least(ax, x);
                        let right: i32 = most(ax, x) + 1;
                        let top: i32 = least(ay, y);
                        let bottom: i32 = most(ay, y) + 1;
                        // A click without a real drag cancels instead of capturing a pixel.
                        st.outcome = Some(
                            if right - left >= 3 && bottom - top >= 3 {
                                Outcome::Region {
                                    x: st.origin.0 + left,
                                    y: st.origin.1 + top,
                                    w: right - left,
                                    h: bottom - top,
                                }
                            } else {
                                Outcome::Cancelled
                            },
                        );
                        reaction.close = true;
                    }
                },
                Mode::WindowPick => {
                    update_selection(st, x, y);
                    if let Some(i) = st.hover {
                        st.outcome = Some(Outcome::Window(i));
                        reaction.close = true;
                    }
                },
            }
        },
        Event::RightUp => {
            st.outcome = Some(Outcome::Cancelled);
            reaction.close = true;
        },
        Event::Escape => {
            st.outcome = Some(Outcome::Cancelled);
            reaction.close = true;
        },
    }
    reaction
}

/// The state that an overlay over `frozen` opens with.
pub open spec fn opened(frozen: Frozen, mode: Mode, pick_rects: Seq<Rect>) -> Model {
    Model {
        origin: (frozen.x, frozen.y),
        size: (frozen.w, frozen.h),
        mode,
        pick_rects,
        drag_from: None,
        sel: None,
        hover: None,
        outcome: None,
    }
}

/// Opens the overlay over `frozen`, unless one is open already. `pick_rects` (global
/// coordinates, front to back) is used to pick windows only.
pub fn run(in_progress: &mut bool, frozen: &Frozen, mode: Mode, pick_rects: Vec<Rect>) -> (r: Result<
    State,
    String,
>)
    ensures
        *final(in_progress),
        match r {
            Ok(st) => !*old(in_progress) && st@ == opened(*frozen, mode, pick_rects@),
            Err(e) => *old(in_progress) && e@ == "A capture is already in progress."@,
        },
{
    if *in_progress {
        return Err("A capture is already in progress.".to_owned());
    }
    *in_progress = true;
    Ok(
        State {
            origin: (frozen.x, frozen.y),
            size: (frozen.w, frozen.h),
            mode,
            pick_rects,
            drag_from: None,
            sel: None,
            hover: None,
            outcome: None,
        },
    )
}

/// What can keep an overlay from being shown.
#[derive(Debug, PartialEq, Eq)]
pub enum OverlayFailure {
    /// The bitmap that holds the snapshot could not be made.
    Bitmap(String),
    /// The overlay's window could not be made.
    Window(String),
    /// The system refused something else.
    System(String),
}

impl OverlayFailure {
    pub open spec fn text(self) -> Seq<char> {
        match self {
            OverlayFailure::Bitmap(e) => "CreateDIBSection failed: "@ + e@,
            OverlayFailure::Window(e) => "Overlay window creation failed: "@ + e@,
            OverlayFailure::System(e) => e@,
        }
    }

    /// The message for the user.
    pub fn message(self) -> (r: String)
        ensures
            r@ == self.text(),
    {
        match self {
            OverlayFailure::Bitmap(e) => join("CreateDIBSection failed: ", e.as_str()),
            OverlayFailure::Window(e) => join("Overlay window creation failed: ", e.as_str()),
            OverlayFailure::System(e) => e,
        }
    }
}

/// Closes the overlay, however it ended, and tells what was picked. An overlay that was
/// closed without a pick counts as cancelled.
pub fn finish(in_progress: &mut bool, st: State, ended: Result<(), OverlayFailure>) -> (r: Result<
    Outcome,
    String,
>)
    ensures
        !*final(in_progress),
        match (ended, r) {
            (Ok(_), Ok(o)) => o == (match st.outcome {
                Some(picked) => picked,
                None => Outcome::Cancelled,
            }),
            (Err(failure), Err(e)) => e@ == failure.text(),
            _ => false,
        },
{
    *in_progress = false;
    match ended {
        Ok(_) => match st.outcome {
            Some(picked) => Ok(picked),
            None => Ok(Outcome::Cancelled),
        },
        Err(failure) => Err(failure.message()),
    }
}

/// One drawing step of a repaint.
#[derive(Clone, Copy, Debug, PartialEq, Eq, Structural)]
pub enum PaintOp {
    /// Cover the whole overlay with the dimmed snapshot.
    Dim,
    /// Copy a rectangle of the undimmed snapshot.
    Reveal(Rect),
    /// Draw a one-pixel border just inside a rectangle.
    Frame(Rect),
}

/// The rectangle without its outermost pixels.
pub open spec fn inset(r: Rect) -> Rect {
    Rect {
        left: (r.left + 1) as i32,
        top: (r.top + 1) as i32,
        right: (r.right - 1) as i32,
        bottom: (r.bottom - 1) as i32,
    }
}

/// The drawing steps for a highlight: the dimmed screen, then the highlighted part as it
/// was, with a border of two pixels where there is room for the second.
pub open spec fn painting(sel: Option<Rect>) -> Seq<PaintOp> {
    match sel {
        Some(r) => if r.left < r.right && r.top < r.bottom {
            if r.right - r.left > 2 && r.bottom - r.top > 2 {
                seq![
                    PaintOp::Dim,
                    PaintOp::Reveal(r),
                    PaintOp::Frame(r),
                    PaintOp::Frame(inset(r)),
                ]
            } else {
                seq![PaintOp::Dim, PaintOp::Reveal(r), PaintOp::Frame(r)]
            }
        } else {
            seq![PaintOp::Dim]
        },
        None => seq![PaintOp::Dim],
    }
}

/// The drawing steps of a repaint.
pub fn paint(sel: Option<Rect>) -> (r: Vec<PaintOp>)
    ensures
        r@ == painting(sel),
{
    let mut ops: Vec<PaintOp> = Vec::new();
    ops.push(PaintOp::Dim);
    if let Some(s) = sel {
        if s.left < s.right && s.top < s.bottom {
            ops.push(PaintOp::Reveal(s));
            ops.push(PaintOp::Frame(s));
            if s.right - 1 > s.left + 1 && s.bottom - 1 > s.top + 1 {
                ops.push(
                    PaintOp::Frame(
                        Rect {
                            left: s.left + 1,
                            top: s.top + 1,
                            right: s.right - 1,
                            bottom: s.bottom - 1,
                        },
                    ),
                );
            }
        }
    }
    assert(ops@ =~= painting(sel));
    ops
}

/// A drag selects the same region in either direction.
pub proof fn law_drag_direction_is_irrelevant(origin: (i32, i32), a: (i32, i32), b: (i32, i32))
    ensures
        dragged(origin, a, b) == dragged(origin, b, a),
{
}

/// Letting go of the button captures exactly the rectangle that was highlighted when the
/// cursor last stood there, or cancels where that rectangle is under 3 pixels wide or high.
pub proof fn law_highlight_is_what_is_captured(m: Model, x: i32, y: i32)
    requires
        m.wf(),
        m.mode == Mode::Region,
        m.drag_from is Some,
        is_mouse_position(x as int, y as int),
    ensures
        ({
            let moved = m.step(Event::MouseMove { x, y }).0;
            let (done, reaction) = moved.step(Event::LeftUp { x, y });
            &&& reaction.close
            &&& moved.sel is Some
            &&& ({
                let r = moved.sel->0;
                if r.right - r.left >= 3 && r.bottom - r.top >= 3 {
                    done.outcome == Some(
                        Outcome::Region {
                            x: (m.origin.0 + r.left) as i32,
                            y: (m.origin.1 + r.top) as i32,
                            w: (r.right - r.left) as i32,
                            h: (r.bottom - r.top) as i32,
                        },
                    )
                } else {
                    done.outcome == Some(Outcome::Cancelled)
                }
            })
        }),
{
}

/// The window that is found under a point is the front-most one there; none is found only
/// where there is none.
pub proof fn law_front_most_window_wins(rects: Seq<Rect>, gx: int, gy: int)
    requires
        rects.len() <= usize::MAX,
    ensures
        match hovered(rects, gx, gy) {
            Some(i) => {
                &&& i < rects.len()
                &&& covers(rects[i as int], gx, gy)
                &&& forall|j: int| 0 <= j < i ==> !covers(#[trigger] rects[j], gx, gy)
            },
            None => forall|j: int| 0 <= j < rects.len() ==> !covers(#[trigger] rects[j], gx, gy),
        },
    decreases rects.len(),
{
    if rects.len() > 0 {
        let head = rects.drop_last();
        law_front_most_window_wins(head, gx, gy);
        assert forall|j: int| 0 <= j < head.len() implies #[trigger] rects[j] == head[j] by {}
        match hovered(head, gx, gy) {
            Some(i) => {},
            None => {
                assert forall|j: int| 0 <= j < rects.len() - 1 implies !covers(
                    #[trigger] rects[j],
                    gx,
                    gy,
                ) by {
                    assert(!covers(head[j], gx, gy));
                }
            },
        }
    }
}

/// An overlay that opened over a well-formed snapshot and whose windows lie within reach
/// of its corner stays well-formed, whatever the user does; and a window that was picked
/// is one that was offered.
pub proof fn law_overlay_stays_well_formed(m: Model, events: Seq<Event>)
    requires
        m.wf(),
        m.outcome is None,
        forall|i: int| 0 <= i < events.len() ==> (#[trigger] events[i]).wf(),
    ensures
        m.steps(events).wf(),
        m.steps(events).pick_rects == m.pick_rects,
        m.steps(events).mode == m.mode,
        m.steps(events).origin == m.origin,
        m.steps(events).size == m.size,
        m.steps(events).outcome matches Some(Outcome::Window(i)) ==> i < m.pick_rects.len(),
    decreases events.len(),
{
    if events.len() > 0 {
        let rest = events.drop_last();
        assert forall|i: int| 0 <= i < rest.len() implies (#[trigger] rest[i]).wf() by {
            assert(rest[i] == events[i]);
        }
        law_overlay_stays_well_formed(m, rest);
        let before = m.steps(rest);
        let e = events.last();
        assert(e.wf());
        match e {
            Event::LeftUp { x, y } => {
                law_front_most_window_wins(
                    m.pick_rects,
                    m.origin.0 + x,
                    m.origin.1 + y,
                );
            },
            _ => {},
        }
    }
}

/// The overlay closes exactly when something was decided: an event that closes it leaves
/// an outcome, and one that does not leaves the outcome as it was.
pub proof fn law_closing_decides(m: Model, e: Event)
    ensures
        ({
            let (next, reaction) = m.step(e);
            if reaction.close {
                next.outcome is Some
            } else {
                next.outcome == m.outcome
            }
        }),
{
}

/// Escape and a right click cancel in every state.
pub proof fn law_cancel_is_always_possible(m: Model)
    ensures
        m.step(Event::Escape).1.close,
        m.step(Event::Escape).0.outcome == Some(Outcome::Cancelled),
        m.step(Event::RightUp) == m.step(Event::Escape),
{
}

/// A drag between two points of the overlay that is not a mere click is captured whole:
/// clamping to the snapshot takes nothing from the region it selects.
pub proof fn law_region_on_the_overlay_is_captured_whole(f: Frozen, a: (i32, i32), b: (i32, i32))
    requires
        f.wf(),
        opened(f, Mode::Region, Seq::empty()).wf(),
        0 <= a.0 < f.w && 0 <= a.1 < f.h && is_mouse_position(a.0 as int, a.1 as int),
        0 <= b.0 < f.w && 0 <= b.1 < f.h && is_mouse_position(b.0 as int, b.1 as int),
    ensures
        dragged((f.x, f.y), a, b) matches Outcome::Region { x, y, w, h } ==> {
            let (x0, y0, x1, y1) = f.clipped(x as int, y as int, w as int, h as int);
            &&& x1 - x0 == w
            &&& y1 - y0 == h
            &&& x0 == x - f.x
            &&& y0 == y - f.y
            &&& 3 <= w
            &&& 3 <= h
        },
{
}

/// A pixel of a cut lies inside the snapshot, and so do its four bytes.
proof fn lemma_pixel_in_bounds(
    stride: int,
    rows: int,
    left: int,
    top: int,
    width: int,
    height: int,
    row: int,
    col: int,
)
    requires
        0 <= left,
        0 <= top,
        left + width <= stride,
        top + height <= rows,
        0 <= row < height,
        0 <= col < width,
    ensures
        0 <= (top + row) * stride,
        0 <= (top + row) * stride + left + col < stride * rows,
        row * width + col < width * height,
{
    assert((top + row) * stride + stride <= stride * rows) by (nonlinear_arith)
        requires
            0 <= stride,
            top + row + 1 <= rows,
    ;
    assert(0 <= (top + row) * stride) by (nonlinear_arith)
        requires
            0 <= stride,
            0 <= top + row,
    ;
    assert(row * width + width <= width * height) by (nonlinear_arith)
        requires
            0 <= width,
            row + 1 <= height,
    ;
}

} // verus!
