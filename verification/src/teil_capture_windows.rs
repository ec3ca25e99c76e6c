//! Interactive capture on Windows: the selection runs in an overlay over a frozen
//! snapshot; regions are cut out of the snapshot, windows are grabbed again, with the
//! snapshot to fall back on.

use vstd::prelude::*;

use crate::capture::{known_or, RawWindow};
use crate::geometry::fits;
use crate::mode::CaptureMode;
use crate::picture::{encode_png, encoded, png_result, Picture};
use crate::text::join;

pub mod border;
pub mod overlay;
pub mod recorder;
pub mod timeline;

use overlay::{cut, Frozen, Outcome, Rect};

verus! {

/// Which capture to run for a mode. `windows` tells whether this is Windows at all.
pub fn capture_interactive(windows: bool, mode: &str) -> (r: Result<CaptureMode, String>)
    ensures
        match r {
            Ok(m) => windows && CaptureMode::named(mode@) == Some(m),
            Err(e) => {
                ||| !windows && e@ == "teil-capture-windows is only functional on Windows."@
                ||| windows && CaptureMode::named(mode@) is None && e@ == "Unknown capture mode: "@
                    + mode@
            },
        },
{
    if !windows {
        return Err("teil-capture-windows is only functional on Windows.".to_owned());
    }
    match CaptureMode::parse(mode) {
        Some(m) => Ok(m),
        None => Err(join("Unknown capture mode: ", mode)),
    }
}

/// What comes of a capture: a PNG file, nothing where the user cancelled, or an error.
pub open spec fn captured(r: Result<Option<Vec<u8>>, String>) -> Result<Option<Seq<u8>>, Seq<char>> {
    match r {
        Ok(Some(png)) => Ok(Some(png@)),
        Ok(None) => Ok(None),
        Err(e) => Err(e@),
    }
}

/// What comes of a picture (width, height, RGBA bytes) that is encoded.
pub open spec fn captured_picture(width: u32, height: u32, pixels: Seq<u8>) -> Result<
    Option<Seq<u8>>,
    Seq<char>,
> {
    match png_result(encoded(width, height, pixels)) {
        Ok(png) => Ok(Some(png)),
        Err(e) => Err(e),
    }
}

fn encode_capture(picture: &Picture) -> (r: Result<Option<Vec<u8>>, String>)
    requires
        picture.wf(),
    ensures
        captured(r) == captured_picture(picture.width, picture.height, picture.pixels@),
{
    match encode_png(picture) {
        Ok(png) => Ok(Some(png)),
        Err(e) => Err(e),
    }
}

/// Finishes the capture of a display.
pub fn capture_fullscreen(grabbed: Result<Picture, String>) -> (r: Result<Option<Vec<u8>>, String>)
    requires
        grabbed matches Ok(p) ==> p.wf(),
    ensures
        captured(r) == (match grabbed {
            Ok(p) => captured_picture(p.width, p.height, p.pixels@),
            Err(e) => Err("capture: "@ + e@),
        }),
{
    match grabbed {
        Ok(picture) => encode_capture(&picture),
        Err(e) => Err(join("capture: ", e.as_str())),
    }
}

/// Whether the edges of a global rectangle can be counted from the snapshot's corner.
pub open spec fn reachable(frozen: Frozen, x: int, y: int, w: int, h: int) -> bool {
    &&& fits(x - frozen.x)
    &&& fits(y - frozen.y)
    &&& fits(x - frozen.x + w)
    &&& fits(y - frozen.y + h)
}

/// What comes of cutting a global rectangle out of the snapshot.
pub open spec fn captured_cut(frozen: Frozen, x: int, y: int, w: int, h: int) -> Result<
    Option<Seq<u8>>,
    Seq<char>,
> {
    let (x0, y0, x1, y1) = frozen.clipped(x, y, w, h);
    if x0 < x1 && y0 < y1 {
        captured_picture(
            (x1 - x0) as u32,
            (y1 - y0) as u32,
            cut(frozen.bgra@, frozen.w as int, x0, y0, x1 - x0, y1 - y0),
        )
    } else {
        Err("Selection is empty."@)
    }
}

/// Finishes the capture of a region: cuts what was selected out of the snapshot.
pub fn capture_region(frozen: &Frozen, outcome: Outcome) -> (r: Result<Option<Vec<u8>>, String>)
    requires
        frozen.wf(),
        outcome matches Outcome::Region { x, y, w, h } ==> reachable(
            *frozen,
            x as int,
            y as int,
            w as int,
            h as int,
        ),
    ensures
        captured(r) == (match outcome {
            Outcome::Cancelled => Ok(None),
            Outcome::Region { x, y, w, h } => captured_cut(
                *frozen,
                x as int,
                y as int,
                w as int,
                h as int,
            ),
            Outcome::Window(_) => Err("Unexpected window pick in region mode"@),
        }),
{
    match outcome {
        Outcome::Cancelled => Ok(None),
        Outcome::Region { x, y, w, h } => match frozen.crop_global(x, y, w, h) {
            Ok(picture) => encode_capture(&picture),
            Err(e) => Err(e),
        },
        Outcome::Window(_) => Err("Unexpected window pick in region mode".to_owned()),
    }
}

/// Whether there is anything to pick from.
pub fn windows_to_pick(rects: &Vec<Rect>) -> (r: Result<(), String>)
    ensures
        match r {
            Ok(_) => rects@.len() > 0,
            Err(e) => rects@.len() == 0 && e@ == "No windows available to capture."@,
        },
{
    if rects.len() == 0 {
        Err("No windows available to capture.".to_owned())
    } else {
        Ok(())
    }
}

/// What comes of a window's picture: one of at most a pixel is no capture.
pub open spec fn captured_window(width: u32, height: u32, pixels: Seq<u8>) -> Result<
    Option<Seq<u8>>,
    Seq<char>,
> {
    if width <= 1 && height <= 1 {
        Err("Window capture failed."@)
    } else {
        captured_picture(width, height, pixels)
    }
}

/// Finishes the capture of a window. `grabbed` is the picked window's own picture, where
/// the system gave one; else what the snapshot shows of it is taken.
pub fn capture_window_interactive(
    frozen: &Frozen,
    rects: &Vec<Rect>,
    outcome: Outcome,
    grabbed: Option<Picture>,
) -> (r: Result<Option<Vec<u8>>, String>)
    requires
        frozen.wf(),
        grabbed matches Some(p) ==> p.wf(),
        outcome matches Outcome::Window(i) ==> {
            &&& i < rects@.len()
            &&& fits(rects@[i as int].right - rects@[i as int].left)
            &&& fits(rects@[i as int].bottom - rects@[i as int].top)
            &&& reachable(
                *frozen,
                rects@[i as int].left as int,
                rects@[i as int].top as int,
                rects@[i as int].right - rects@[i as int].left,
                rects@[i as int].bottom - rects@[i as int].top,
            )
        },
    ensures
        captured(r) == (match outcome {
            Outcome::Cancelled => Ok(None),
            Outcome::Region { .. } => Err("Unexpected region in window-pick mode"@),
            Outcome::Window(i) => match grabbed {
                Some(p) => captured_window(p.width, p.height, p.pixels@),
                None => {
                    let q = rects@[i as int];
                    let (x0, y0, x1, y1) = frozen.clipped(
                        q.left as int,
                        q.top as int,
                        q.right - q.left,
                        q.bottom - q.top,
                    );
                    if x0 < x1 && y0 < y1 {
                        captured_window(
                            (x1 - x0) as u32,
                            (y1 - y0) as u32,
                            cut(frozen.bgra@, frozen.w as int, x0, y0, x1 - x0, y1 - y0),
                        )
                    } else {
                        Err("Window capture failed."@)
                    }
                },
            },
        }),
{
    match outcome {
        Outcome::Cancelled => Ok(None),
        Outcome::Region { .. } => Err("Unexpected region in window-pick mode".to_owned()),
        Outcome::Window(i) => {
            let picture = match grabbed {
                Some(p) => p,
                None => {
                    let q: Rect = rects[i];
                    match frozen.crop_global(q.left, q.top, q.right - q.left, q.bottom - q.top) {
                        Ok(p) => p,
                        Err(_) => return Err("Window capture failed.".to_owned()),
                    }
                },
            };
            if picture.width <= 1 && picture.height <= 1 {
                return Err("Window capture failed.".to_owned());
            }
            encode_capture(&picture)
        },
    }
}

/// Whether a window can be picked: one that may be offered at all, and that has a size.
/// Sizes that do not fit the system's coordinates count as none.
pub open spec fn is_pickable(w: RawWindow, own_pid: u32) -> bool {
    &&& w.is_presentable(own_pid)
    &&& known_or(w.width, 0) as i32 > 0
    &&& known_or(w.height, 0) as i32 > 0
}

/// The far edges of a window that can be picked can be held.
pub open spec fn has_edges(w: RawWindow, own_pid: u32) -> bool {
    is_pickable(w, own_pid) ==> {
        &&& fits(known_or(w.x, 0) + known_or(w.width, 0) as i32)
        &&& fits(known_or(w.y, 0) + known_or(w.height, 0) as i32)
    }
}

/// Where a window that can be picked stands.
pub open spec fn window_rect(w: RawWindow) -> Rect {
    Rect {
        left: known_or(w.x, 0),
        top: known_or(w.y, 0),
        right: (known_or(w.x, 0) + known_or(w.width, 0) as i32) as i32,
        bottom: (known_or(w.y, 0) + known_or(w.height, 0) as i32) as i32,
    }
}

/// The windows that can be picked, in their order: the index of each, and where it stands.
pub open spec fn pickable(windows: Seq<RawWindow>, own_pid: u32) -> Seq<(usize, Rect)>
    decreases windows.len(),
{
    if windows.len() == 0 {
        Seq::empty()
    } else {
        let head = pickable(windows.drop_last(), own_pid);
        if is_pickable(windows.last(), own_pid) {
            head.push(((windows.len() - 1) as usize, window_rect(windows.last())))
        } else {
            head
        }
    }
}

/// The windows that can be picked, front to back as the system reports them: the index of
/// each in `windows`, and where it stands on the screen.
pub fn pickable_windows(windows: &Vec<RawWindow>, own_pid: u32) -> (r: (Vec<usize>, Vec<Rect>))
    requires
        forall|i: int| 0 <= i < windows@.len() ==> has_edges(#[trigger] windows@[i], own_pid),
    ensures
        r.0@.len() == r.1@.len(),
        r.0@.len() == pickable(windows@, own_pid).len(),
        forall|k: int|
            0 <= k < r.0@.len() ==> (#[trigger] r.0@[k], r.1@[k]) == pickable(windows@, own_pid)[k],
{
    let n: usize = windows.len();
    let mut picks: Vec<usize> = Vec::new();
    let mut rects: Vec<Rect> = Vec::new();
    let mut i: usize = 0;
    while i < n
        invariant
            n == windows@.len(),
            i <= n,
            forall|j: int| 0 <= j < windows@.len() ==> has_edges(#[trigger] windows@[j], own_pid),
            picks@.len() == rects@.len(),
            picks@.len() == pickable(windows@.take(i as int), own_pid).len(),
            forall|k: int|
                0 <= k < picks@.len() ==> (#[trigger] picks@[k], rects@[k]) == pickable(
                    windows@.take(i as int),
                    own_pid,
                )[k],
        decreases n - i,
    {
        let w: &RawWindow = &windows[i];
        assert(windows@.take(i + 1).drop_last() =~= windows@.take(i as int));
        assert(has_edges(windows@[i as int], own_pid));
        if w.presentable(own_pid) {
            let width: i32 = w.width.unwrap_or(0) as i32;
            let height: i32 = w.height.unwrap_or(0) as i32;
            if width > 0 && height > 0 {
                let x: i32 = w.x.unwrap_or(0);
                let y: i32 = w.y.unwrap_or(0);
                rects.push(Rect { left: x, top: y, right: x + width, bottom: y + height });
                picks.push(i);
            }
        }
        i = i + 1;
    }
    assert(windows@.take(n as int) =~= windows@);
    (picks, rects)
}

} // verus!
