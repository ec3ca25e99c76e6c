//! The red frame around a region that is being recorded: a click-through window of which
//! only the frame itself is part.

use vstd::prelude::*;

use super::overlay::Rect;
use crate::geometry::fits;

verus! {

/// Thickness of the frame.
pub const FRAME: i32 = 3;

/// Colour of the frame, as 0x00BBGGRR: #FF3B30.
pub const FRAME_COLOR: u32 = 0x0030_3BFF;

/// Where the frame's window goes, and what of it is cut out.
#[derive(Clone, Copy, Debug, PartialEq, Eq, Structural)]
pub struct FramePlan {
    pub x: i32,
    pub y: i32,
    pub width: i32,
    pub height: i32,
    /// The inside, in coordinates of the window.
    pub hole: Rect,
}

/// The frame around a rectangle of the screen.
pub open spec fn frame_plan(x: int, y: int, w: int, h: int) -> FramePlan {
    FramePlan {
        x: (x - FRAME) as i32,
        y: (y - FRAME) as i32,
        width: (w + 2 * FRAME) as i32,
        height: (h + 2 * FRAME) as i32,
        hole: Rect {
            left: FRAME,
            top: FRAME,
            right: (w + FRAME) as i32,
            bottom: (h + FRAME) as i32,
        },
    }
}

/// Plans the frame around a rectangle of the screen.
pub fn show(x: i32, y: i32, w: i32, h: i32) -> (r: FramePlan)
    requires
        fits(x - FRAME),
        fits(y - FRAME),
        fits(w + 2 * FRAME),
        fits(h + 2 * FRAME),
        fits(w + FRAME),
        fits(h + FRAME),
    ensures
        r == frame_plan(x as int, y as int, w as int, h as int),
{
    let width: i32 = w + 2 * FRAME;
    let height: i32 = h + 2 * FRAME;
    FramePlan {
        x: x - FRAME,
        y: y - FRAME,
        width,
        height,
        hole: Rect { left: FRAME, top: FRAME, right: width - FRAME, bottom: height - FRAME },
    }
}

/// The frame lies around the rectangle that is recorded and leaves exactly that free.
pub proof fn law_frame_leaves_the_recording_free(x: int, y: int, w: int, h: int)
    requires
        fits(x - FRAME),
        fits(y - FRAME),
        fits(w + 2 * FRAME),
        fits(h + 2 * FRAME),
        0 <= w,
        0 <= h,
    ensures
        ({
            let plan = frame_plan(x, y, w, h);
            &&& plan.x + plan.hole.left == x
            &&& plan.y + plan.hole.top == y
            &&& plan.hole.right - plan.hole.left == w
            &&& plan.hole.bottom - plan.hole.top == h
            &&& plan.hole.right + FRAME == plan.width
            &&& plan.hole.bottom + FRAME == plan.height
        }),
{
}

/// Takes the handle of the frame's window out of its slot (0 where there is none): the
/// window to close, if one is up.
pub fn take_down(slot: &mut i64) -> (r: Option<i64>)
    ensures
        *final(slot) == 0,
        r == (if *old(slot) == 0 {
            None
        } else {
            Some(*old(slot))
        }),
{
    let handle: i64 = *slot;
    *slot = 0;
    if handle == 0 {
        None
    } else {
        Some(handle)
    }
}

/// The UTF-16 code units of a character.
pub open spec fn utf16(c: char) -> Seq<u16> {
    let v = c as u32 as int;
    if v < 0x10000 {
        seq![v as u16]
    } else {
        seq![
            (0xD800 + (v - 0x10000) / 0x400) as u16,
            (0xDC00 + (v - 0x10000) % 0x400) as u16,
        ]
    }
}

/// The UTF-16 code units of a text.
pub open spec fn utf16_text(s: Seq<char>) -> Seq<u16>
    decreases s.len(),
{
    if s.len() == 0 {
        Seq::empty()
    } else {
        utf16_text(s.drop_last()) + utf16(s.last())
    }
}

/// A text as the system takes it: UTF-16, with a zero at the end.
pub fn wide(s: &str) -> (r: Vec<u16>)
    ensures
        r@ == utf16_text(s@).push(0),
{
    let n: usize = s.unicode_len();
    let mut out: Vec<u16> = Vec::new();
    let mut i: usize = 0;
    while i < n
        invariant
            n == s@.len(),
            i <= n,
            out@ == utf16_text(s@.take(i as int)),
        decreases n - i,
    {
        let c: u32 = s.get_char(i) as u32;
        assert(s@.take(i + 1).drop_last() =~= s@.take(i as int));
        let ghost before = out@;
        if c < 0x10000 {
            out.push(c as u16);
        } else {
            let rest: u32 = c - 0x10000;
            out.push((0xD800 + rest / 0x400) as u16);
            out.push((0xDC00 + rest % 0x400) as u16);
        }
        assert(out@ =~= before + utf16(s@[i as int]));
        i = i + 1;
    }
    assert(s@.take(n as int) =~= s@);
    out.push(0);
    out
}

} // verus!
