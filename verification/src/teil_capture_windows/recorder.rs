//! The screen recorder: what is recorded and where it is cropped, which frames are
//! written and with what timestamps, and the life of a recording from start to result.
//!
//! Points in time are readings of one monotonic clock, in nanoseconds. Frame timestamps
//! count units of 100 ns.

use vstd::math::{abs, max, min};
use vstd::prelude::*;

use super::overlay::{Outcome, Rect};
use crate::capture::overlap;
use crate::geometry::{fits, most};
use crate::mode::CaptureMode;
use crate::text::{join, opt_text, same};

verus! {

/// What the caller wants recorded, and where to.
#[derive(Debug, PartialEq, Eq)]
pub struct RecOptions {
    pub fps: u32,
    /// Accepted, but no audio is recorded.
    pub capture_audio: bool,
    pub show_cursor: bool,
    pub out_path: String,
    /// Size of the file at which the recording ends by itself; 0 for no limit.
    pub max_bytes: u64,
}

/// How the start of a recording ended.
#[derive(Clone, Copy, Debug, PartialEq, Eq, Structural)]
pub enum RecBegin {
    Started { width: u32, height: u32 },
    Cancelled,
    Busy,
}

#[derive(Clone, Copy, Debug, PartialEq, Eq, Structural)]
pub enum RecState {
    Idle,
    Recording,
    Paused,
    Finishing,
    Stopped,
    Failed,
}

#[derive(Clone, Copy, Debug, PartialEq, Eq, Structural)]
pub enum RecReason {
    /// Nothing has stopped the recording.
    Unset,
    User,
    SourceClosed,
    /// The file has reached its size limit.
    SizeLimit,
    StreamError,
    WriterError,
    NoFrames,
    Cancelled,
}

#[derive(Clone, Copy, Debug, PartialEq, Eq, Structural)]
pub struct RecStatus {
    pub state: RecState,
    pub reason: RecReason,
    pub elapsed_ms: u64,
    pub bytes: u64,
    pub width: u32,
    pub height: u32,
}

#[derive(Clone, Copy, Debug, PartialEq, Eq, Structural)]
pub struct RecResult {
    pub duration_ms: u64,
    pub bytes: u64,
    pub width: u32,
    pub height: u32,
    pub reason: RecReason,
}

// ---- What is recorded ----------------------------------------------------------------

/// The largest even number up to `n`, but at least 2.
pub open spec fn evened(n: int) -> int {
    max(n - n % 2, 2)
}

/// The largest even number up to `n`, but at least 2: encoders want even dimensions.
pub fn even_down(n: u32) -> (r: u32)
    ensures
        r == evened(n as int),
{
    let even: u32 = n - n % 2;
    if even < 2 {
        2
    } else {
        even
    }
}

/// Position and size of a monitor, in global coordinates.
#[derive(Clone, Copy, Debug, PartialEq, Eq, Structural)]
pub struct MonitorRect {
    pub left: i32,
    pub top: i32,
    pub width: u32,
    pub height: u32,
}

/// The position and size of the monitor with these edges. Edges in the wrong order give
/// an empty monitor.
pub fn monitor_info(edges: Rect) -> (r: MonitorRect)
    requires
        fits(edges.right - edges.left),
        fits(edges.bottom - edges.top),
    ensures
        r.left == edges.left,
        r.top == edges.top,
        r.width == max(edges.right - edges.left, 0),
        r.height == max(edges.bottom - edges.top, 0),
{
    MonitorRect {
        left: edges.left,
        top: edges.top,
        width: most(edges.right - edges.left, 0) as u32,
        height: most(edges.bottom - edges.top, 0) as u32,
    }
}

/// The part of a captured item that is recorded.
#[derive(Clone, Copy, Debug, PartialEq, Eq)]
pub struct Target {
    /// Edges of the recorded part (left, top, right, bottom) in pixels of the captured
    /// item; nothing where all of it is recorded.
    pub crop: Option<(u32, u32, u32, u32)>,
    pub dims: (u32, u32),
    /// For a region: the recorded rectangle (x, y, width, height) in global coordinates,
    /// which a frame on the screen marks.
    pub frame_rect: Option<(i32, i32, i32, i32)>,
}

/// A whole monitor, less an odd last row or column.
pub open spec fn whole_monitor(info: MonitorRect) -> Target {
    let dims = (evened(info.width as int) as u32, evened(info.height as int) as u32);
    Target {
        crop: if dims == (info.width, info.height) {
            None
        } else {
            Some((0u32, 0u32, dims.0, dims.1))
        },
        dims,
        frame_rect: None,
    }
}

/// Records a whole monitor, less an odd last row or column.
pub fn fullscreen_target(info: &MonitorRect) -> (r: Target)
    ensures
        r == whole_monitor(*info),
{
    let dims: (u32, u32) = (even_down(info.width), even_down(info.height));
    let crop = if dims.0 == info.width && dims.1 == info.height {
        None
    } else {
        Some((0, 0, dims.0, dims.1))
    };
    Target { crop, dims, frame_rect: None }
}

/// The part of a selected region that lies on the monitor it is recorded from, less an odd
/// last row or column. At least 2 pixels are recorded along each axis.
pub open spec fn monitor_part(x: int, y: int, w: int, h: int, info: MonitorRect) -> Target {
    let lx = max(x - info.left, 0);
    let ly = max(y - info.top, 0);
    let lw = evened(overlap(x, w, info.left as int, info.width as int));
    let lh = evened(overlap(y, h, info.top as int, info.height as int));
    Target {
        crop: Some((lx as u32, ly as u32, (lx + lw) as u32, (ly + lh) as u32)),
        dims: (lw as u32, lh as u32),
        frame_rect: Some(
            (
                (info.left + lx) as i32,
                (info.top + ly) as i32,
                (lw as u32) as i32,
                (lh as u32) as i32,
            ),
        ),
    }
}

/// Where on the monitor a selection starts along one axis, and how much of it is recorded.
fn monitor_stretch(start: i32, length: i32, edge: i32, size: u32) -> (r: (u32, u32))
    requires
        fits(start - edge),
    ensures
        r.0 == max(start - edge, 0),
        r.1 == evened(overlap(start as int, length as int, edge as int, size as int)),
        r.0 + r.1 <= u32::MAX,
{
    let from: u32 = most(start - edge, 0) as u32;
    let end: i64 = start as i64 + length as i64 - edge as i64;
    let to: i64 = if end < size as i64 {
        end
    } else {
        size as i64
    };
    let part: i64 = if to > from as i64 {
        to - from as i64
    } else {
        0
    };
    (from, even_down(part as u32))
}

/// Records the part of a selected region that lies on the monitor it is recorded from.
pub fn region_target(x: i32, y: i32, w: i32, h: i32, info: &MonitorRect) -> (r: Target)
    requires
        fits(x - info.left),
        fits(y - info.top),
    ensures
        r == monitor_part(x as int, y as int, w as int, h as int, *info),
{
    let (lx, lw) = monitor_stretch(x, w, info.left, info.width);
    let (ly, lh) = monitor_stretch(y, h, info.top, info.height);
    Target {
        crop: Some((lx, ly, lx + lw, ly + lh)),
        dims: (lw, lh),
        frame_rect: Some((most(x, info.left), most(y, info.top), lw as i32, lh as i32)),
    }
}

/// A window of this extent, from its top-left corner.
pub open spec fn whole_window(extent: Rect) -> Target {
    let w = evened(max(extent.right - extent.left, 0)) as u32;
    let h = evened(max(extent.bottom - extent.top, 0)) as u32;
    Target { crop: Some((0u32, 0u32, w, h)), dims: (w, h), frame_rect: None }
}

/// Records a window of this extent from its top-left corner.
pub fn window_target(extent: Rect) -> (r: Target)
    requires
        fits(extent.right - extent.left),
        fits(extent.bottom - extent.top),
    ensures
        r == whole_window(extent),
{
    let w: u32 = even_down(most(extent.right - extent.left, 0) as u32);
    let h: u32 = even_down(most(extent.bottom - extent.top, 0) as u32);
    Target { crop: Some((0, 0, w, h)), dims: (w, h), frame_rect: None }
}

/// What the user has selected, with what the system tells of it.
#[derive(Clone, Copy, Debug, PartialEq, Eq, Structural)]
pub enum Selection {
    /// The monitor with the pointer.
    Display(MonitorRect),
    /// A region, and the monitor that holds most of it.
    Region { x: i32, y: i32, w: i32, h: i32, info: MonitorRect },
    /// A window of this extent.
    Window(Rect),
    /// Nothing, or nothing that the mode can use.
    Nothing,
}

/// What is recorded, for a mode and what was selected in it.
pub open spec fn resolved(mode: CaptureMode, selection: Selection) -> Option<Target> {
    match (mode, selection) {
        (CaptureMode::Fullscreen, Selection::Display(info)) => Some(whole_monitor(info)),
        (CaptureMode::Region, Selection::Region { x, y, w, h, info }) => Some(
            monitor_part(x as int, y as int, w as int, h as int, info),
        ),
        (CaptureMode::Window, Selection::Window(extent)) => Some(whole_window(extent)),
        _ => None,
    }
}

/// The window that was picked, as an index into the list that was offered; nothing where none
/// was. `count` is the length of that list.
pub fn picked_window(outcome: &Outcome, count: usize) -> (r: Result<Option<usize>, String>)
    ensures
        match *outcome {
            Outcome::Window(i) if i < count => r == Ok::<Option<usize>, String>(Some(i)),
            Outcome::Window(_) => r matches Err(e) && e@ == "window pick out of range"@,
            _ => r == Ok::<Option<usize>, String>(None),
        },
{
    match *outcome {
        Outcome::Window(i) if i < count => Ok(Some(i)),
        Outcome::Window(_) => Err("window pick out of range".to_owned()),
        _ => Ok(None),
    }
}

/// What is recorded, for a mode and what was selected in it; nothing where the user
/// cancelled.
pub fn resolve_target(mode: &str, selection: &Selection) -> (r: Result<Option<Target>, String>)
    requires
        *selection matches Selection::Region { x, y, info, .. } ==> fits(x - info.left) && fits(
            y - info.top,
        ),
        *selection matches Selection::Window(extent) ==> fits(extent.right - extent.left) && fits(
            extent.bottom - extent.top,
        ),
    ensures
        match r {
            Ok(target) => CaptureMode::named(mode@) matches Some(m) && target == resolved(
                m,
                *selection,
            ),
            Err(e) => CaptureMode::named(mode@) is None && e@ == "Unknown recording mode: "@
                + mode@,
        },
{
    match (CaptureMode::parse(mode), *selection) {
        (Some(CaptureMode::Fullscreen), Selection::Display(info)) => Ok(
            Some(fullscreen_target(&info)),
        ),
        (Some(CaptureMode::Region), Selection::Region { x, y, w, h, info }) => Ok(
            Some(region_target(x, y, w, h, &info)),
        ),
        (Some(CaptureMode::Window), Selection::Window(extent)) => Ok(Some(window_target(extent))),
        (Some(_), _) => Ok(None),
        (None, _) => Err(join("Unknown recording mode: ", mode)),
    }
}

/// 12% of a bit for each pixel of a second of video, within 3 and 32 Mbit/s.
pub open spec fn bit_rate(width: int, height: int, fps: int) -> int {
    min(max(width * height * fps * 12 / 100, 3_000_000), 32_000_000)
}

/// The video bit rate for these dimensions.
pub fn bitrate(width: u32, height: u32, fps: u32) -> (r: u32)
    requires
        width * height * fps <= u64::MAX,
    ensures
        r == bit_rate(width as int, height as int, fps as int),
{
    proof {
        assert(width * height <= 0xffff_ffff * 0xffff_ffff) by (nonlinear_arith)
            requires
                0 <= width <= 0xffff_ffff,
                0 <= height <= 0xffff_ffff,
        ;
        assert(0 <= width * height * fps) by (nonlinear_arith)
            requires
                0 <= width,
                0 <= height,
                0 <= fps,
        ;
    }
    let pixels: u64 = width as u64 * height as u64 * fps as u64;
    let rate: u128 = pixels as u128 * 12 / 100;
    if rate < 3_000_000 {
        3_000_000
    } else if rate > 32_000_000 {
        32_000_000
    } else {
        rate as u32
    }
}

/// A window of the capture system, as far as it could be read.
#[derive(Debug, PartialEq, Eq)]
pub struct Candidate {
    pub pid: Option<u32>,
    pub extent: Option<Rect>,
    pub title: Option<String>,
}

/// Whether a candidate belongs to the process and stands within 2 pixels of the place.
pub open spec fn stands_at(c: Candidate, pid: u32, x: i32, y: i32) -> bool {
    &&& c.pid == Some(pid)
    &&& c.extent matches Some(r) && abs(r.left - x) <= 2 && abs(r.top - y) <= 2
}

/// Whether a candidate belongs to the process and has the title, which is not empty.
pub open spec fn is_titled(c: Candidate, pid: u32, title: Seq<char>) -> bool {
    &&& c.pid == Some(pid)
    &&& title.len() > 0
    &&& opt_text(c.title) == Some(title)
}

/// Whether no candidate stands at the place or has the title.
pub open spec fn none_is_meant(
    candidates: Seq<Candidate>,
    pid: u32,
    x: i32,
    y: i32,
    title: Seq<char>,
) -> bool {
    forall|j: int|
        0 <= j < candidates.len() ==> !stands_at(#[trigger] candidates[j], pid, x, y)
            && !is_titled(candidates[j], pid, title)
}

/// Finds the window that the user picked among those of the capture system: the first of
/// the same process at the same place, or else the first of that process with the same
/// title.
pub fn find_wc_window(candidates: &Vec<Candidate>, pid: u32, x: i32, y: i32, title: &str) -> (r:
    Result<usize, String>)
    ensures
        match r {
            Ok(i) => {
                &&& i < candidates@.len()
                &&& {
                    ||| {
                        &&& stands_at(candidates@[i as int], pid, x, y)
                        &&& forall|j: int|
                            0 <= j < i ==> !stands_at(#[trigger] candidates@[j], pid, x, y)
                    }
                    ||| {
                        &&& forall|j: int|
                            0 <= j < candidates@.len() ==> !stands_at(
                                #[trigger] candidates@[j],
                                pid,
                                x,
                                y,
                            )
                        &&& is_titled(candidates@[i as int], pid, title@)
                        &&& forall|j: int|
                            0 <= j < i ==> !is_titled(#[trigger] candidates@[j], pid, title@)
                    }
                }
            },
            Err(e) => {
                &&& e@ == "Could not resolve the selected window for recording."@
                &&& none_is_meant(candidates@, pid, x, y, title@)
            },
        },
{
    let n: usize = candidates.len();
    let untitled: bool = same(title, "");
    proof {
        reveal_strlit("");
        assert(untitled == (title@.len() == 0)) by {
            if title@.len() == 0 {
                assert(title@ =~= ""@);
            }
        }
    }
    let mut by_title: Option<usize> = None;
    let mut i: usize = 0;
    while i < n
        invariant
            n == candidates@.len(),
            i <= n,
            untitled == (title@.len() == 0),
            forall|j: int| 0 <= j < i ==> !stands_at(#[trigger] candidates@[j], pid, x, y),
            match by_title {
                Some(k) => {
                    &&& k < i
                    &&& is_titled(candidates@[k as int], pid, title@)
                    &&& forall|j: int|
                        0 <= j < k ==> !is_titled(#[trigger] candidates@[j], pid, title@)
                },
                None => forall|j: int|
                    0 <= j < i ==> !is_titled(#[trigger] candidates@[j], pid, title@),
            },
        decreases n - i,
    {
        let c: &Candidate = &candidates[i];
        let ours: bool = match c.pid {
            Some(p) => p == pid,
            None => false,
        };
        if ours {
            if let Some(r) = c.extent {
                let dx: i64 = r.left as i64 - x as i64;
                let dy: i64 = r.top as i64 - y as i64;
                if -2 <= dx && dx <= 2 && -2 <= dy && dy <= 2 {
                    return Ok(i);
                }
            }
            if by_title.is_none() && !untitled {
                if let Some(t) = &c.title {
                    if same(t.as_str(), title) {
                        by_title = Some(i);
                    }
                }
            }
        }
        i = i + 1;
    }
    match by_title {
        Some(k) => Ok(k),
        None => Err("Could not resolve the selected window for recording.".to_owned()),
    }
}

// ---- Frames --------------------------------------------------------------------------

/// A picture with its rows in reverse order; what does not fill a row is zero, and rows
/// without bytes fill nothing.
pub open spec fn flipped(bytes: Seq<u8>, row: int) -> Seq<u8> {
    let rows = bytes.len() as int / row;
    bytes.map(
        |i: int, v: u8|
            if row > 0 && i < rows * row {
                bytes[(rows - 1 - i / row) * row + i % row]
            } else {
                0u8
            },
    )
}

/// Turns a top-down frame into the bottom-up layout that the encoder expects.
/// `row` is the number of bytes in a row.
pub fn flip_rows(bytes: &Vec<u8>, row: usize) -> (r: Vec<u8>)
    ensures
        r@ == flipped(bytes@, row as int),
{
    let n: usize = bytes.len();
    let rows: usize = if row > 0 {
        n / row
    } else {
        0
    };
    let mut out: Vec<u8> = Vec::new();
    let mut i: usize = 0;
    while i < n
        invariant
            n == bytes@.len(),
            row > 0 ==> rows == n as int / row as int,
            row == 0 ==> rows == 0,
            i <= n,
            out@.len() == i,
            forall|j: int| 0 <= j < i ==> out@[j] == flipped(bytes@, row as int)[j],
        decreases n - i,
    {
        proof {
            if row > 0 {
                lemma_row_bounds(n as int, row as int, i as int);
            }
        }
        if row > 0 && i < rows * row {
            let source: usize = (rows - 1 - i / row) * row + i % row;
            out.push(bytes[source]);
        } else {
            out.push(0);
        }
        i = i + 1;
    }
    assert(out@ =~= flipped(bytes@, row as int));
    out
}

/// Index bounds of a row reversal.
proof fn lemma_row_bounds(n: int, row: int, i: int)
    requires
        0 <= i < n,
        0 < row,
    ensures
        0 <= n / row * row <= n,
        i < n / row * row ==> {
            &&& 0 <= i / row <= n / row - 1
            &&& 0 <= i % row < row
            &&& 0 <= (n / row - 1 - i / row) * row
            &&& (n / row - 1 - i / row) * row + i % row < n / row * row
        },
{
    let rows = n / row;
    assert(rows * row <= n && 0 <= rows * row) by (nonlinear_arith)
        requires
            rows == n / row,
            0 < row,
            0 <= n,
    ;
    if i < rows * row {
        let q = i / row;
        assert(q * row <= i && 0 <= q) by (nonlinear_arith)
            requires
                q == i / row,
                0 < row,
                0 <= i,
        ;
        assert(q < rows) by (nonlinear_arith)
            requires
                q * row <= i,
                i < rows * row,
                0 < row,
        ;
        let k = rows - 1 - q;
        assert(0 <= k * row && k * row + row <= rows * row) by (nonlinear_arith)
            requires
                0 <= k,
                k + 1 <= rows,
                0 < row,
        ;
    }
}

/// Turning a frame over twice gives the frame back, where it consists of whole rows.
pub proof fn law_flipping_twice_restores(bytes: Seq<u8>, row: int)
    requires
        0 < row,
        bytes.len() % row as nat == 0,
    ensures
        flipped(flipped(bytes, row), row) == bytes,
{
    let n = bytes.len() as int;
    let rows = n / row;
    vstd::arithmetic::div_mod::lemma_fundamental_div_mod(n, row);
    assert(rows * row == n) by (nonlinear_arith)
        requires
            n == row * rows,
    ;
    let once = flipped(bytes, row);
    assert forall|i: int| 0 <= i < n implies #[trigger] flipped(once, row)[i] == bytes[i] by {
        lemma_row_bounds(n, row, i);
        let j = (rows - 1 - i / row) * row + i % row;
        lemma_row_bounds(n, row, j);
        vstd::arithmetic::div_mod::lemma_fundamental_div_mod_converse(
            j,
            row,
            rows - 1 - i / row,
            i % row,
        );
        vstd::arithmetic::div_mod::lemma_fundamental_div_mod(i, row);
        assert(row * (i / row) == (i / row) * row) by (nonlinear_arith);
    }
    assert(flipped(once, row) =~= bytes);
}

// ---- The life of a recording ---------------------------------------------------------

/// A recording under way.
#[derive(Debug, PartialEq, Eq)]
pub struct Shared {
    pub state: RecState,
    pub reason: RecReason,
    /// Whether there is an encoder to write to.
    pub writing: bool,
    /// Edges of the recorded part (left, top, right, bottom) in pixels of the captured
    /// item; nothing where all of it is recorded.
    pub crop: Option<(u32, u32, u32, u32)>,
    pub dims: (u32, u32),
    pub fps: u32,
    pub out_path: String,
    /// Size of the file at which the recording ends by itself; 0 for no limit.
    pub max_bytes: u64,
    /// Timestamp of the first frame.
    pub first_ts: Option<i64>,
    /// Timestamp that the last frame was written with.
    pub last_out_ts: i64,
    /// Time spent paused, in units of frame timestamps.
    pub paused_total_100ns: i64,
    /// Timestamp of the last frame that was written, as it arrived; the smallest number
    /// where there is none.
    pub last_sent_raw_ts: i64,
    pub pause_started: Option<u64>,
    /// Time spent paused.
    pub paused_accum: u64,
    pub started: u64,
    pub error: Option<String>,
}

impl Shared {
    /// The clock readings are in order at `now`: the time spent paused is part of the time
    /// since the start, and only a recording that is not running can be in a pause.
    pub open spec fn wf(&self, now: u64) -> bool {
        let until = match self.pause_started {
            Some(p) => p,
            None => now,
        };
        &&& self.started <= until <= now
        &&& self.paused_accum <= until - self.started
        &&& 0 <= self.paused_total_100ns
        &&& self.paused_total_100ns * 100 <= self.paused_accum
        &&& self.state == RecState::Recording ==> self.pause_started is None
        &&& self.state == RecState::Paused ==> self.pause_started is Some
    }

    /// The recording with a pause that is still open counted as over at `now`.
    pub open spec fn pause_closed(&self, now: u64) -> Shared {
        match self.pause_started {
            Some(p) => Shared {
                pause_started: None,
                paused_accum: (self.paused_accum + (now - p)) as u64,
                paused_total_100ns: (self.paused_total_100ns + (now - p) / 100) as i64,
                ..*self
            },
            None => *self,
        }
    }

    /// The recording, paused at `now`.
    pub open spec fn paused_at(&self, now: u64) -> Shared {
        Shared { state: RecState::Paused, pause_started: Some(now), ..*self }
    }

    /// The recording, resumed at `now`.
    pub open spec fn resumed_at(&self, now: u64) -> Shared {
        Shared { state: RecState::Recording, ..self.pause_closed(now) }
    }

    /// The recording, stopped at `now`.
    pub open spec fn stopped_at(&self, now: u64) -> Shared {
        Shared {
            state: RecState::Finishing,
            reason: stop_cause(self.reason),
            ..self.pause_closed(now)
        }
    }

    fn close_pause(&mut self, now: u64)
        requires
            old(self).wf(now),
        ensures
            *final(self) == old(self).pause_closed(now),
            final(self).paused_accum <= now - final(self).started,
            0 <= final(self).paused_total_100ns,
            final(self).paused_total_100ns * 100 <= final(self).paused_accum,
    {
        if let Some(p) = self.pause_started {
            let paused: u64 = now - p;
            self.pause_started = None;
            self.paused_accum = self.paused_accum + paused;
            self.paused_total_100ns = self.paused_total_100ns + (paused / 100) as i64;
        }
    }

    /// Recorded time so far, in nanoseconds: the time since the start, less all pauses.
    pub open spec fn elapsed(&self, now: u64) -> int {
        max(
            max(max(now - self.started, 0) - self.paused_accum, 0) - (match self.pause_started {
                Some(p) => max(now - p, 0),
                None => 0,
            }),
            0,
        )
    }
}

/// The frame rate that is recorded at: 60 where that was asked for, else 30.
pub open spec fn frame_rate(fps: u32) -> u32 {
    if fps == 60 {
        60
    } else {
        30
    }
}

/// How the pictures of a video are encoded.
#[derive(Clone, Copy, Debug, PartialEq, Eq, Structural)]
pub enum Codec {
    H264,
    Hevc,
}

/// How the encoder and the capture are set up.
#[derive(Clone, Copy, Debug, PartialEq, Eq)]
pub struct EncoderPlan {
    pub codec: Codec,
    /// Whether the file gets an audio track.
    pub audio: bool,
    pub width: u32,
    pub height: u32,
    pub fps: u32,
    pub bitrate: u32,
    /// Least time between two frames.
    pub interval_ms: u64,
    pub show_cursor: bool,
    /// The rectangle on the screen to mark, if any.
    pub frame_rect: Option<(i32, i32, i32, i32)>,
}

/// What starting a recording comes to.
#[derive(Debug, PartialEq, Eq)]
pub enum BeginPlan {
    Busy,
    Cancelled,
    Start { shared: Shared, encoder: EncoderPlan },
}

impl Shared {
    /// A recording of `target` that starts at `now`.
    pub open spec fn planned(target: Target, opts: RecOptions, now: u64) -> Shared {
        Shared {
            state: RecState::Recording,
            reason: RecReason::Unset,
            writing: true,
            crop: target.crop,
            dims: target.dims,
            fps: frame_rate(opts.fps),
            out_path: opts.out_path,
            max_bytes: opts.max_bytes,
            first_ts: None,
            last_out_ts: (-1) as i64,
            paused_total_100ns: 0,
            last_sent_raw_ts: i64::MIN,
            pause_started: None,
            paused_accum: 0,
            started: now,
            error: None,
        }
    }
}

impl EncoderPlan {
    /// The setup for a recording of `target`: H.264 video, which can be encoded everywhere,
    /// without audio, whether or not audio was asked for.
    pub open spec fn planned(target: Target, opts: RecOptions) -> EncoderPlan {
        let fps = frame_rate(opts.fps);
        EncoderPlan {
            codec: Codec::H264,
            audio: false,
            width: target.dims.0,
            height: target.dims.1,
            fps,
            bitrate: bit_rate(target.dims.0 as int, target.dims.1 as int, fps as int) as u32,
            interval_ms: (1000int / fps as int) as u64,
            show_cursor: opts.show_cursor,
            frame_rect: target.frame_rect,
        }
    }
}

fn plan(t: Target, opts: &RecOptions, now: u64) -> (r: (Shared, EncoderPlan))
    requires
        t.dims.0 * t.dims.1 * frame_rate(opts.fps) <= u64::MAX,
    ensures
        r.0 == Shared::planned(t, *opts, now),
        r.1 == EncoderPlan::planned(t, *opts),
{
    let fps: u32 = if opts.fps == 60 {
        60
    } else {
        30
    };
    let shared = Shared {
        state: RecState::Recording,
        reason: RecReason::Unset,
        writing: true,
        crop: t.crop,
        dims: t.dims,
        fps,
        out_path: opts.out_path.clone(),
        max_bytes: opts.max_bytes,
        first_ts: None,
        last_out_ts: -1,
        paused_total_100ns: 0,
        last_sent_raw_ts: i64::MIN,
        pause_started: None,
        paused_accum: 0,
        started: now,
        error: None,
    };
    let encoder = EncoderPlan {
        codec: Codec::H264,
        audio: false,
        width: t.dims.0,
        height: t.dims.1,
        fps,
        bitrate: bitrate(t.dims.0, t.dims.1, fps),
        interval_ms: 1000 / fps as u64,
        show_cursor: opts.show_cursor,
        frame_rect: t.frame_rect,
    };
    (shared, encoder)
}

/// Plans a recording of `target`. Nothing is started while another recording is under way
/// or where the user cancelled the selection.
pub fn record_begin(active: &Option<Shared>, target: Option<Target>, opts: &RecOptions, now: u64)
    -> (r: BeginPlan)
    requires
        *active is None && target is Some ==> target->0.dims.0 * target->0.dims.1 * frame_rate(
            opts.fps,
        ) <= u64::MAX,
    ensures
        r is Busy <==> *active is Some,
        r is Cancelled <==> *active is None && target is None,
        r matches BeginPlan::Start { shared, encoder } ==> {
            &&& target matches Some(t)
            &&& shared == Shared::planned(t, *opts, now)
            &&& encoder == EncoderPlan::planned(t, *opts)
        },
{
    if active.is_some() {
        return BeginPlan::Busy;
    }
    match target {
        None => BeginPlan::Cancelled,
        Some(t) => {
            let (shared, encoder) = plan(t, opts, now);
            BeginPlan::Start { shared, encoder }
        },
    }
}

/// A recording that has just been planned is in order.
pub proof fn law_recordings_start_in_order(target: Target, opts: RecOptions, now: u64)
    ensures
        Shared::planned(target, opts, now).wf(now),
        Shared::planned(target, opts, now).timeline_wf(),
{
    assert(max(30, 1) == 30 && max(60, 1) == 60);
    assert(10_000_000int / 30 == 333_333 && 10_000_000int / 60 == 166_666);
    assert(min_gap(30) == 266_666 && min_gap(60) == 133_332);
}

/// What can keep a planned recording from running.
#[derive(Debug, PartialEq, Eq)]
pub enum StartFailure {
    Encoder(String),
    Capture(String),
}

/// Takes a planned recording up once the encoder and the capture run, or tells why they
/// do not.
pub fn record_started(active: &mut Option<Shared>, shared: Shared, outcome: Result<(), StartFailure>)
    -> (r: Result<RecBegin, String>)
    ensures
        match (outcome, r) {
            (Ok(_), Ok(b)) => {
                &&& *final(active) == Some(shared)
                &&& b == (RecBegin::Started { width: shared.dims.0, height: shared.dims.1 })
            },
            (Err(StartFailure::Encoder(why)), Err(e)) => {
                &&& *final(active) == *old(active)
                &&& e@ == "Could not create the video encoder: "@ + why@
            },
            (Err(StartFailure::Capture(why)), Err(e)) => {
                &&& *final(active) == *old(active)
                &&& e@ == "Could not start the recording: "@ + why@
            },
            _ => false,
        },
{
    match outcome {
        Ok(_) => {
            let width: u32 = shared.dims.0;
            let height: u32 = shared.dims.1;
            *active = Some(shared);
            Ok(RecBegin::Started { width, height })
        },
        Err(StartFailure::Encoder(why)) => Err(
            join("Could not create the video encoder: ", why.as_str()),
        ),
        Err(StartFailure::Capture(why)) => Err(
            join("Could not start the recording: ", why.as_str()),
        ),
    }
}

/// Pauses a running recording.
pub fn record_pause(active: &mut Option<Shared>, now: u64) -> (r: Result<(), String>)
    requires
        *old(active) matches Some(s) ==> s.wf(now),
    ensures
        match r {
            Ok(_) => {
                &&& *old(active) matches Some(s) && {
                    &&& s.state == RecState::Recording
                    &&& *final(active) == Some(s.paused_at(now))
                    &&& final(active)->0.wf(now)
                }
            },
            Err(e) => {
                &&& *old(active) matches Some(s) ==> s.state != RecState::Recording
                &&& *final(active) == *old(active)
                &&& e@ == "No active recording to pause."@
            },
        },
{
    if let Some(s) = active {
        if s.state == RecState::Recording {
            s.state = RecState::Paused;
            s.pause_started = Some(now);
            return Ok(());
        }
    }
    Err("No active recording to pause.".to_owned())
}

/// Resumes a paused recording. The pause counts neither as recorded time nor in the
/// timestamps of the frames to come.
pub fn record_resume(active: &mut Option<Shared>, now: u64) -> (r: Result<(), String>)
    requires
        *old(active) matches Some(s) ==> s.wf(now),
    ensures
        match r {
            Ok(_) => {
                &&& *old(active) matches Some(s) && {
                    &&& s.state == RecState::Paused
                    &&& *final(active) == Some(s.resumed_at(now))
                    &&& final(active)->0.wf(now)
                }
            },
            Err(e) => {
                &&& *old(active) matches Some(s) ==> s.state != RecState::Paused
                &&& *final(active) == *old(active)
                &&& e@ == "No paused recording to resume."@
            },
        },
{
    if let Some(s) = active {
        if s.state == RecState::Paused {
            s.close_pause(now);
            s.state = RecState::Recording;
            return Ok(());
        }
    }
    Err("No paused recording to resume.".to_owned())
}

/// Why a recording that is being stopped ended: the user, unless something else was first.
pub open spec fn stop_cause(reason: RecReason) -> RecReason {
    if reason == RecReason::Unset {
        RecReason::User
    } else {
        reason
    }
}

/// Takes the recording out, with its timeline frozen at `now`.
pub fn record_stop(active: &mut Option<Shared>, now: u64) -> (r: Result<Shared, String>)
    requires
        *old(active) matches Some(s) ==> s.wf(now),
    ensures
        *final(active) is None,
        match r {
            Ok(taken) => {
                &&& *old(active) matches Some(s) && taken == s.stopped_at(now)
            },
            Err(e) => {
                &&& *old(active) is None
                &&& e@ == "No active recording to stop."@
            },
        },
{
    match active.take() {
        Some(taken) => {
            let mut s = taken;
            s.close_pause(now);
            s.state = RecState::Finishing;
            if s.reason == RecReason::Unset {
                s.reason = RecReason::User;
            }
            Ok(s)
        },
        None => Err("No active recording to stop.".to_owned()),
    }
}

/// What becomes of a recording that was stopped.
#[derive(Debug, PartialEq, Eq)]
pub enum StopVerdict {
    /// Nothing usable was recorded: the file goes.
    Discard { path: String, message: String },
    /// The encoder finishes the file.
    Finish { path: String, duration_ms: u64, width: u32, height: u32, reason: RecReason },
}

/// Duration of a video, in milliseconds, whose last frame was written at `last_out_ts`:
/// that frame is shown for one more frame time.
pub open spec fn video_duration(last_out_ts: int, fps: int) -> int {
    max(last_out_ts + 10_000_000int / max(fps, 1), 0) / 10_000
}

/// Decides what becomes of a recording once the capture has stopped.
pub fn record_stopped(s: Shared) -> (r: StopVerdict)
    ensures
        match r {
            StopVerdict::Discard { path, message } => {
                &&& path@ == s.out_path@
                &&& {
                    ||| !s.writing && message@ == (match s.error {
                        Some(e) => e@,
                        None => "The recording could not be written to disk."@,
                    })
                    ||| s.writing && s.first_ts is None && message@ == "No frames were captured."@
                }
            },
            StopVerdict::Finish { path, duration_ms, width, height, reason } => {
                &&& s.writing
                &&& s.first_ts is Some
                &&& path@ == s.out_path@
                &&& duration_ms == video_duration(s.last_out_ts as int, s.fps as int)
                &&& (width, height) == s.dims
                &&& reason == s.reason
            },
        },
{
    if !s.writing {
        let message = match s.error {
            Some(e) => e,
            None => "The recording could not be written to disk.".to_owned(),
        };
        return StopVerdict::Discard { path: s.out_path, message };
    }
    if s.first_ts.is_none() {
        return StopVerdict::Discard {
            path: s.out_path,
            message: "No frames were captured.".to_owned(),
        };
    }
    let fps: i128 = if s.fps < 1 {
        1
    } else {
        s.fps as i128
    };
    let end: i128 = s.last_out_ts as i128 + 10_000_000 / fps;
    let duration: i128 = if end < 0 {
        0
    } else {
        end / 10_000
    };
    StopVerdict::Finish {
        path: s.out_path,
        duration_ms: duration as u64,
        width: s.dims.0,
        height: s.dims.1,
        reason: s.reason,
    }
}

/// The result of a recording whose file the encoder was told to finish.
pub fn record_finished(
    duration_ms: u64,
    width: u32,
    height: u32,
    reason: RecReason,
    finished: Result<(), String>,
    bytes: u64,
) -> (r: Result<RecResult, String>)
    ensures
        match (finished, r) {
            (Ok(_), Ok(res)) => res == (RecResult { duration_ms, bytes, width, height, reason }),
            (Err(why), Err(e)) => e@ == "Could not finalize the recording: "@ + why@,
            _ => false,
        },
{
    match finished {
        Ok(_) => Ok(RecResult { duration_ms, bytes, width, height, reason }),
        Err(why) => Err(join("Could not finalize the recording: ", why.as_str())),
    }
}

/// Drops the recording. What comes back is marked as cancelled and no longer written;
/// its file is to be deleted.
pub fn record_cancel(active: &mut Option<Shared>) -> (r: Option<Shared>)
    ensures
        *final(active) is None,
        r == (match *old(active) {
            Some(s) => Some(
                Shared {
                    state: RecState::Failed,
                    reason: RecReason::Cancelled,
                    writing: false,
                    ..s
                },
            ),
            None => None,
        }),
{
    match active.take() {
        Some(taken) => {
            let mut s = taken;
            s.state = RecState::Failed;
            s.reason = RecReason::Cancelled;
            s.writing = false;
            Some(s)
        },
        None => None,
    }
}

/// A recording whose file has reached `bytes`: one that still runs ends at its size limit,
/// where it has one.
pub open spec fn limited(active: Option<Shared>, bytes: u64) -> Option<Shared> {
    match active {
        Some(s) if (s.state == RecState::Recording || s.state == RecState::Paused) && 0
            < s.max_bytes <= bytes => Some(
            Shared { state: RecState::Stopped, reason: RecReason::SizeLimit, ..s },
        ),
        _ => active,
    }
}

/// Ends a recording whose file has reached its size limit: what was recorded so far can be
/// collected.
pub fn size_checked(active: &mut Option<Shared>, bytes: u64)
    ensures
        *final(active) == limited(*old(active), bytes),
        *old(active) is Some ==> forall|now: u64|
            #[trigger] old(active)->0.wf(now) ==> final(active)->0.wf(now),
{
    if let Some(s) = active {
        if (s.state == RecState::Recording || s.state == RecState::Paused) && s.max_bytes > 0
            && bytes >= s.max_bytes {
            s.state = RecState::Stopped;
            s.reason = RecReason::SizeLimit;
        }
    }
}

/// How a recording, if there is one, stands at `now` with a file of `bytes`.
pub open spec fn status_of(active: Option<Shared>, now: u64, bytes: u64) -> RecStatus {
    match active {
        Some(s) => RecStatus {
            state: s.state,
            reason: s.reason,
            elapsed_ms: (s.elapsed(now) / 1_000_000) as u64,
            bytes,
            width: s.dims.0,
            height: s.dims.1,
        },
        None => RecStatus {
            state: RecState::Idle,
            reason: RecReason::Unset,
            elapsed_ms: 0,
            bytes: 0,
            width: 0,
            height: 0,
        },
    }
}

/// The state of the recording, if there is one, once its size limit was looked after.
/// `bytes` is the size of its file by now.
pub fn record_status(active: &mut Option<Shared>, now: u64, bytes: u64) -> (r: RecStatus)
    ensures
        *final(active) == limited(*old(active), bytes),
        r == status_of(limited(*old(active), bytes), now, bytes),
        *old(active) matches Some(s) && s.wf(now) ==> final(active)->0.wf(now),
{
    size_checked(active, bytes);
    match active {
        Some(s) => {
            let mut elapsed: u64 = now.saturating_sub(s.started).saturating_sub(s.paused_accum);
            if let Some(p) = s.pause_started {
                elapsed = elapsed.saturating_sub(now.saturating_sub(p));
            }
            RecStatus {
                state: s.state,
                reason: s.reason,
                elapsed_ms: elapsed / 1_000_000,
                bytes,
                width: s.dims.0,
                height: s.dims.1,
            }
        },
        None => RecStatus {
            state: RecState::Idle,
            reason: RecReason::Unset,
            elapsed_ms: 0,
            bytes: 0,
            width: 0,
            height: 0,
        },
    }
}

/// Notes that the recorded window was closed: what was recorded so far can be collected.
pub fn on_closed(s: &mut Shared)
    ensures
        *final(s) == (if old(s).state == RecState::Recording || old(s).state == RecState::Paused {
            Shared { state: RecState::Stopped, reason: RecReason::SourceClosed, ..*old(s) }
        } else {
            *old(s)
        }),
        forall|now: u64| old(s).wf(now) ==> final(s).wf(now),
{
    if s.state == RecState::Recording || s.state == RecState::Paused {
        s.state = RecState::Stopped;
        s.reason = RecReason::SourceClosed;
    }
}

// ---- Which frames are written, and when ----------------------------------------------

/// What is done with a frame that arrives.
#[derive(Clone, Copy, Debug, PartialEq, Eq)]
pub enum FrameStep {
    /// The recording is over: no more frames are wanted.
    Stop,
    Skip,
    /// This part of the frame (left, top, right, bottom) is written.
    Take { left: u32, top: u32, right: u32, bottom: u32 },
}

/// Least distance between two frames that are written: the frame time, less 20%.
pub open spec fn min_gap(fps: int) -> int {
    10_000_000int / max(fps, 1) * 8 / 10
}

impl Shared {
    /// The part of the captured item that is recorded (left, top, right, bottom).
    pub open spec fn area(&self) -> (u32, u32, u32, u32) {
        match self.crop {
            Some(c) => c,
            None => (0, 0, self.dims.0, self.dims.1),
        }
    }

    /// Whether a frame with this timestamp comes too soon after the last one written.
    pub open spec fn too_soon(&self, ts: i64) -> bool {
        self.last_sent_raw_ts != i64::MIN && ts - self.last_sent_raw_ts < min_gap(self.fps as int)
    }

    /// What is done with a frame of this size and timestamp (none where it cannot be read).
    pub open spec fn frame_step(&self, ts: Option<i64>, width: u32, height: u32) -> FrameStep {
        match self.state {
            RecState::Recording => match ts {
                Some(t) => {
                    let (left, top, right, bottom) = self.area();
                    if self.too_soon(t) || width < right || height < bottom {
                        FrameStep::Skip
                    } else {
                        FrameStep::Take { left, top, right, bottom }
                    }
                },
                None => FrameStep::Skip,
            },
            RecState::Paused => FrameStep::Skip,
            _ => FrameStep::Stop,
        }
    }

    /// Decides about a frame that arrives: while recording, frames are paced to the frame
    /// rate, and one that a shrunk window made too small is dropped.
    pub fn on_frame_arrived(&self, ts: Option<i64>, width: u32, height: u32) -> (r: FrameStep)
        ensures
            r == self.frame_step(ts, width, height),
    {
        match self.state {
            RecState::Recording => {},
            RecState::Paused => return FrameStep::Skip,
            _ => return FrameStep::Stop,
        }
        let t: i64 = match ts {
            Some(t) => t,
            None => return FrameStep::Skip,
        };
        let fps: i128 = if self.fps < 1 {
            1
        } else {
            self.fps as i128
        };
        let gap: i128 = 10_000_000 / fps * 8 / 10;
        if self.last_sent_raw_ts != i64::MIN && (t as i128 - self.last_sent_raw_ts as i128) < gap {
            return FrameStep::Skip;
        }
        let (left, top, right, bottom) = match self.crop {
            Some(c) => c,
            None => (0, 0, self.dims.0, self.dims.1),
        };
        if width < right || height < bottom {
            return FrameStep::Skip;
        }
        FrameStep::Take { left, top, right, bottom }
    }

    /// Timestamp of the first frame, once one with timestamp `ts` has arrived.
    pub open spec fn start_ts(&self, ts: i64) -> i64 {
        match self.first_ts {
            Some(f) => f,
            None => ts,
        }
    }

    /// The timestamp that a frame is written with: counted from the first frame, with the
    /// time spent paused taken out.
    pub open spec fn out_ts(&self, ts: i64) -> int {
        ts - self.start_ts(ts) - self.paused_total_100ns
    }

    /// Gives a frame the timestamp that it is written with. Except for the first, a frame
    /// that would not come after the last one gets none.
    pub fn time_frame(&mut self, ts: i64) -> (r: Option<i64>)
        requires
            i64::MIN <= ts - old(self).start_ts(ts) <= i64::MAX,
            i64::MIN <= old(self).out_ts(ts) <= i64::MAX,
        ensures
            *final(self) == (Shared { first_ts: Some(old(self).start_ts(ts)), ..*old(self) }),
            r == (if old(self).start_ts(ts) != ts && old(self).out_ts(ts) <= old(self).last_out_ts {
                None
            } else {
                Some(old(self).out_ts(ts) as i64)
            }),
    {
        let first: i64 = match self.first_ts {
            Some(f) => f,
            None => ts,
        };
        self.first_ts = Some(first);
        let out: i64 = ts - first - self.paused_total_100ns;
        if first != ts && out <= self.last_out_ts {
            return None;
        }
        Some(out)
    }

    /// Notes how writing a frame went. A frame that could not be written ends the
    /// recording: its file (the result) is to be deleted.
    pub fn frame_sent(&mut self, ts: i64, out_ts: i64, sent: Result<(), String>) -> (r: Option<String>)
        ensures
            match sent {
                Ok(_) => {
                    &&& r is None
                    &&& *final(self) == (Shared {
                        last_out_ts: out_ts,
                        last_sent_raw_ts: ts,
                        ..*old(self)
                    })
                },
                Err(why) => {
                    &&& opt_text(r) == Some(old(self).out_path@)
                    &&& opt_text(final(self).error) == Some("encoder error: "@ + why@)
                    &&& *final(self) == (Shared {
                        state: RecState::Failed,
                        reason: RecReason::WriterError,
                        writing: false,
                        error: final(self).error,
                        ..*old(self)
                    })
                },
            },
    {
        match sent {
            Ok(_) => {
                self.last_out_ts = out_ts;
                self.last_sent_raw_ts = ts;
                None
            },
            Err(why) => {
                self.state = RecState::Failed;
                self.reason = RecReason::WriterError;
                self.error = Some(join("encoder error: ", why.as_str()));
                self.writing = false;
                Some(self.out_path.clone())
            },
        }
    }

    /// The timeline is in order: a frame rate that paces frames at all, and a first frame
    /// exactly where one was written, which is then not after the last one written.
    pub open spec fn timeline_wf(&self) -> bool {
        &&& 0 < min_gap(self.fps as int)
        &&& match self.first_ts {
            Some(f) => i64::MIN < self.last_sent_raw_ts && f <= self.last_sent_raw_ts,
            None => self.last_sent_raw_ts == i64::MIN,
        }
    }

    /// The recording after a frame that arrived with timestamp `ts` was written.
    pub open spec fn written(&self, ts: i64) -> Shared {
        Shared {
            first_ts: Some(self.start_ts(ts)),
            last_out_ts: self.out_ts(ts) as i64,
            last_sent_raw_ts: ts,
            ..*self
        }
    }
}

// ---- What holds of every recording ---------------------------------------------------

/// Recorded dimensions are even and at least 2, and only the odd last row or column of
/// something larger is lost.
pub proof fn law_dimensions_are_even(n: int)
    requires
        0 <= n,
    ensures
        evened(n) % 2 == 0,
        2 <= evened(n),
        2 <= n ==> n - 1 <= evened(n) <= n,
{
}

/// Whatever is recorded has even dimensions of at least 2 pixels.
pub proof fn law_recorded_dimensions_are_even(mode: CaptureMode, selection: Selection)
    ensures
        resolved(mode, selection) matches Some(t) ==> {
            &&& 2 <= t.dims.0 && t.dims.0 % 2 == 0
            &&& 2 <= t.dims.1 && t.dims.1 % 2 == 0
        },
{
}

/// Along an axis on which a region shares at least 2 pixels with the monitor, what is recorded
/// of it lies on the monitor and inside the selection, and only an odd last row or column of what
/// the two share is lost. Along one on which they share less, 2 pixels are recorded.
pub proof fn law_region_is_recorded_inside_the_monitor(x: i32, y: i32, w: i32, h: i32, info: MonitorRect)
    requires
        fits(x - info.left),
        fits(y - info.top),
    ensures
        ({
            let across = overlap(x as int, w as int, info.left as int, info.width as int);
            let down = overlap(y as int, h as int, info.top as int, info.height as int);
            let t = monitor_part(x as int, y as int, w as int, h as int, info);
            &&& t.crop matches Some((left, top, right, bottom)) && {
                &&& t.dims == ((right - left) as u32, (bottom - top) as u32)
                &&& 2 <= across ==> {
                    &&& left < right <= info.width
                    &&& x <= info.left + left && info.left + right <= x + w
                    &&& across - 1 <= right - left <= across
                }
                &&& 2 <= down ==> {
                    &&& top < bottom <= info.height
                    &&& y <= info.top + top && info.top + bottom <= y + h
                    &&& down - 1 <= bottom - top <= down
                }
                &&& across < 2 ==> right - left == 2
                &&& down < 2 ==> bottom - top == 2
            }
        }),
{
}

/// A recording with a size limit ends by itself once its file has reached the limit: its
/// status then tells so, although nobody has stopped it, and whoever collects it gets the same
/// reason.
pub proof fn law_recordings_end_at_their_size_limit(s: Shared, now: u64, bytes: u64)
    requires
        s.state == RecState::Recording || s.state == RecState::Paused,
        0 < s.max_bytes <= bytes,
    ensures
        ({
            let ended = limited(Some(s), bytes);
            let status = status_of(ended, now, bytes);
            &&& status.state == RecState::Stopped
            &&& status.reason == RecReason::SizeLimit
            &&& stop_cause(ended->0.reason) == RecReason::SizeLimit
            &&& forall|ts: Option<i64>, width: u32, height: u32|
                (#[trigger] ended->0.frame_step(ts, width, height)) == FrameStep::Stop
        }),
{
}

/// No size ends a recording without a limit, or one whose file is still below it; nor does
/// one change why a recording ended that is already over.
pub proof fn law_other_recordings_are_not_ended_by_size(s: Shared, bytes: u64)
    requires
        s.max_bytes == 0 || bytes < s.max_bytes || !(s.state == RecState::Recording || s.state
            == RecState::Paused),
    ensures
        limited(Some(s), bytes) == Some(s),
{
}

/// Once a first frame is written, every frame that is written gets a later timestamp than
/// the one before it.
pub proof fn law_timestamps_increase(s: Shared, ts: i64, width: u32, height: u32)
    requires
        s.timeline_wf(),
        s.frame_step(Some(ts), width, height) is Take,
        i64::MIN <= s.out_ts(ts) <= i64::MAX,
        i64::MIN < ts,
    ensures
        s.first_ts is Some && !(s.start_ts(ts) != ts && s.out_ts(ts) <= s.last_out_ts)
            ==> s.last_out_ts < s.written(ts).last_out_ts,
        s.written(ts).timeline_wf(),
{
}

/// Recorded time stands still during a pause and goes on from there afterwards.
pub proof fn law_pauses_are_not_recorded_time(s: Shared, paused: u64, during: u64, resumed: u64, later: u64)
    requires
        s.wf(paused),
        s.state == RecState::Recording,
        paused <= during <= resumed <= later,
    ensures
        ({
            let p = s.paused_at(paused);
            let r = p.resumed_at(resumed);
            &&& p.wf(during)
            &&& r.wf(later)
            &&& p.elapsed(during) == s.elapsed(paused)
            &&& r.elapsed(later) == s.elapsed(paused) + (later - resumed)
        }),
{
}

/// A pause leaves no gap in the written timeline: between a frame before it and a frame
/// after it, the written timestamps advance by the time between the two frames less the
/// pause (to within a timestamp unit).
pub proof fn law_pauses_leave_no_gap(s: Shared, paused: u64, resumed: u64, before: i64, after: i64)
    requires
        s.wf(paused),
        s.state == RecState::Recording,
        s.first_ts is Some,
        paused <= resumed,
    ensures
        ({
            let p = s.paused_at(paused);
            let r = p.resumed_at(resumed);
            r.out_ts(after) - s.out_ts(before) == (after - before) - (resumed - paused) / 100
        }),
{
}

/// A recording that was paused and resumed is the recording that it was, but for the time
/// that counts as paused.
pub proof fn law_pause_and_resume_undo_each_other(s: Shared, paused: u64, resumed: u64)
    requires
        s.wf(paused),
        s.state == RecState::Recording,
        paused <= resumed,
    ensures
        ({
            let p = s.paused_at(paused);
            let r = p.resumed_at(resumed);
            &&& r == (Shared {
                paused_accum: (s.paused_accum + (resumed - paused)) as u64,
                paused_total_100ns: (s.paused_total_100ns + (resumed - paused) / 100) as i64,
                ..s
            })
            &&& r.wf(resumed)
        }),
{
}

/// The bit rate stays within its limits and never falls as the picture or the frame rate
/// grows.
pub proof fn law_bit_rate_is_bounded_and_monotone(w1: int, h1: int, f1: int, w2: int, h2: int, f2: int)
    requires
        0 <= w1 <= w2,
        0 <= h1 <= h2,
        0 <= f1 <= f2,
    ensures
        3_000_000 <= bit_rate(w1, h1, f1) <= bit_rate(w2, h2, f2) <= 32_000_000,
{
    assert(w1 * h1 <= w2 * h2 && 0 <= w1 * h1) by (nonlinear_arith)
        requires
            0 <= w1 <= w2,
            0 <= h1 <= h2,
    ;
    let (a, b) = (w1 * h1, w2 * h2);
    assert(a * f1 <= b * f2) by (nonlinear_arith)
        requires
            0 <= a <= b,
            0 <= f1 <= f2,
    ;
}

} // verus!
