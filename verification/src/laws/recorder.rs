//! What is recorded, which frames are written, and the life of a recording.

use vstd::math::{max, min};
use vstd::prelude::*;

use crate::mode::{law_mode_names_are_distinct, CaptureMode};
use crate::teil_capture_windows::overlay::{Outcome, Rect};
use crate::teil_capture_windows::recorder::{
    bitrate, even_down, find_wc_window, flip_rows, fullscreen_target, monitor_info, none_is_meant,
    on_closed, picked_window, record_begin, record_cancel, record_finished, record_pause,
    record_resume, record_started, record_status, record_stop, record_stopped, region_target,
    resolve_target, size_checked, stands_at, window_target, BeginPlan, Candidate, Codec,
    EncoderPlan, FrameStep, MonitorRect, RecBegin, RecOptions, RecReason, RecResult, RecState,
    RecStatus, Selection, Shared, StartFailure, StopVerdict, Target,
};

verus! {

// ---- What is recorded ----------------------------------------------------------------

/// An even length is the length itself, or one less; and never less than 2.
pub proof fn law_even_lengths_are_close(n: u32, r: u32)
    requires
        call_ensures(even_down, (n,), r),
    ensures
        r % 2 == 0,
        2 <= r,
        2 <= n ==> n - 1 <= r <= n,
        n < 2 ==> r == 2,
{
}

/// A monitor has the place and the size of its edges.
pub proof fn law_monitors_have_the_size_of_their_edges(edges: Rect, r: MonitorRect)
    requires
        call_ensures(monitor_info, (edges,), r),
        edges.left <= edges.right,
        edges.top <= edges.bottom,
    ensures
        r.left == edges.left,
        r.top == edges.top,
        r.left + r.width == edges.right,
        r.top + r.height == edges.bottom,
{
}

/// What is recorded of a window starts at its corner and takes all of it in, but for an odd last
/// row or column.
pub proof fn law_windows_are_recorded_whole(extent: Rect, r: Target)
    requires
        call_ensures(window_target, (extent,), r),
        2 <= extent.right - extent.left <= i32::MAX,
        2 <= extent.bottom - extent.top <= i32::MAX,
    ensures
        extent.right - extent.left - 1 <= r.dims.0 <= extent.right - extent.left,
        extent.bottom - extent.top - 1 <= r.dims.1 <= extent.bottom - extent.top,
        r.dims.0 % 2 == 0,
        r.dims.1 % 2 == 0,
        r.crop == Some((0u32, 0u32, r.dims.0, r.dims.1)),
        r.frame_rect is None,
{
}

/// A window that is moved without a change of its size is recorded as before.
pub proof fn law_moving_a_window_changes_nothing(a: Rect, b: Rect, ra: Target, rb: Target)
    requires
        call_ensures(window_target, (a,), ra),
        call_ensures(window_target, (b,), rb),
        a.right - a.left == b.right - b.left,
        a.bottom - a.top == b.bottom - b.top,
    ensures
        ra == rb,
{
}

/// What is recorded of a monitor starts at its corner and takes all of it in, but for an odd
/// last row or column; nothing is cropped where there is none. Its place does not matter.
pub proof fn law_monitors_are_recorded_whole(info: MonitorRect, r: Target)
    requires
        call_ensures(fullscreen_target, (&info,), r),
        2 <= info.width,
        2 <= info.height,
    ensures
        info.width - 1 <= r.dims.0 <= info.width,
        info.height - 1 <= r.dims.1 <= info.height,
        r.dims.0 % 2 == 0,
        r.dims.1 % 2 == 0,
        r.crop is None <==> info.width % 2 == 0 && info.height % 2 == 0,
        r.crop is Some ==> r.crop == Some((0u32, 0u32, r.dims.0, r.dims.1)),
        r.frame_rect is None,
{
}

/// What is recorded of a region is what of it lies on the monitor, but for an odd last row or
/// column: it starts where the two start to overlap and ends where they end to. The frame on
/// the screen is drawn around just that.
pub proof fn law_regions_are_recorded_where_they_overlap(
    x: i32,
    y: i32,
    w: i32,
    h: i32,
    info: MonitorRect,
    r: Target,
)
    requires
        call_ensures(region_target, (x, y, w, h, &info), r),
        i32::MIN <= x - info.left <= i32::MAX,
        i32::MIN <= y - info.top <= i32::MAX,
        info.width <= i32::MAX,
        info.height <= i32::MAX,
        max(x as int, info.left as int) + 2 <= min(x + w, info.left + info.width),
        max(y as int, info.top as int) + 2 <= min(y + h, info.top + info.height),
    ensures
        r.crop matches Some((left, top, right, bottom)) && {
            &&& info.left + left == max(x as int, info.left as int)
            &&& info.top + top == max(y as int, info.top as int)
            &&& min(x + w, info.left + info.width) - 1 <= info.left + right <= min(
                x + w,
                info.left + info.width,
            )
            &&& min(y + h, info.top + info.height) - 1 <= info.top + bottom <= min(
                y + h,
                info.top + info.height,
            )
            &&& r.dims.0 == right - left
            &&& r.dims.1 == bottom - top
            &&& r.frame_rect matches Some((fx, fy, fw, fh)) && {
                &&& fx == info.left + left
                &&& fy == info.top + top
                &&& fw == right - left
                &&& fh == bottom - top
            }
        },
        r.dims.0 % 2 == 0,
        r.dims.1 % 2 == 0,
{
}

/// A region and a monitor that are moved together are recorded as before; only the frame moves
/// along.
pub proof fn law_regions_are_counted_from_their_monitor(
    x: i32,
    y: i32,
    w: i32,
    h: i32,
    info: MonitorRect,
    dx: i32,
    dy: i32,
    other: MonitorRect,
    r: Target,
    moved: Target,
)
    requires
        call_ensures(region_target, (x, y, w, h, &info), r),
        call_ensures(region_target, ((x + dx) as i32, (y + dy) as i32, w, h, &other), moved),
        i32::MIN <= x + dx <= i32::MAX,
        i32::MIN <= y + dy <= i32::MAX,
        other.left == info.left + dx,
        other.top == info.top + dy,
        other.width == info.width,
        other.height == info.height,
    ensures
        moved.crop == r.crop,
        moved.dims == r.dims,
{
}

/// A region that hardly reaches the monitor, or does not, is recorded with 2 pixels.
pub proof fn law_at_least_two_pixels_of_a_region_are_recorded(
    x: i32,
    y: i32,
    w: i32,
    h: i32,
    info: MonitorRect,
    r: Target,
)
    requires
        call_ensures(region_target, (x, y, w, h, &info), r),
        i32::MIN <= x - info.left <= i32::MAX,
        i32::MIN <= y - info.top <= i32::MAX,
    ensures
        2 <= r.dims.0,
        2 <= r.dims.1,
        min(x + w, info.left + info.width) < max(x as int, info.left as int) + 2 ==> r.dims.0 == 2,
        min(y + h, info.top + info.height) < max(y as int, info.top as int) + 2 ==> r.dims.1 == 2,
        r.crop matches Some((left, top, right, bottom)) && {
            &&& left == max(x - info.left, 0)
            &&& top == max(y - info.top, 0)
            &&& right - left == r.dims.0
            &&& bottom - top == r.dims.1
        },
{
}

/// What the user has selected is recorded as the function for its kind says, under the mode's own
/// name; any other selection under that name is none.
pub proof fn law_targets_suit_mode_and_selection(
    mode: &str,
    selection: Selection,
    r: Result<Option<Target>, String>,
    t: Target,
)
    requires
        call_ensures(resolve_target, (mode, &selection), r),
    ensures
        mode@ == "fullscreen"@ ==> (r is Ok && match selection {
            Selection::Display(info) => call_ensures(fullscreen_target, (&info,), t) ==> r->Ok_0
                == Some(t),
            _ => r->Ok_0 is None,
        }),
        mode@ == "region"@ ==> (r is Ok && match selection {
            Selection::Region { x, y, w, h, info } => call_ensures(
                region_target,
                (x, y, w, h, &info),
                t,
            ) ==> r->Ok_0 == Some(t),
            _ => r->Ok_0 is None,
        }),
        mode@ == "window"@ ==> (r is Ok && match selection {
            Selection::Window(extent) => call_ensures(window_target, (extent,), t) ==> r->Ok_0
                == Some(t),
            _ => r->Ok_0 is None,
        }),
        r is Err ==> mode@ != "fullscreen"@ && mode@ != "region"@ && mode@ != "window"@ && r->Err_0@
            == "Unknown recording mode: "@ + mode@,
{
    law_mode_names_are_distinct(CaptureMode::Region);
    law_mode_names_are_distinct(CaptureMode::Window);
    law_mode_names_are_distinct(CaptureMode::Fullscreen);
}

/// The picked window is the one that was offered under that number.
pub proof fn law_picks_come_from_the_list(
    outcome: Outcome,
    count: usize,
    r: Result<Option<usize>, String>,
)
    requires
        call_ensures(picked_window, (&outcome, count), r),
    ensures
        r matches Ok(Some(i)) ==> i < count && outcome == Outcome::Window(i),
        r matches Ok(None) ==> !(outcome is Window),
        r is Err ==> outcome is Window && outcome->Window_0 >= count,
{
}

/// Whether a candidate is of the process and stands within 2 pixels of the place.
pub open spec fn is_near(c: Candidate, pid: u32, x: i32, y: i32) -> bool {
    &&& c.pid == Some(pid)
    &&& c.extent is Some
    &&& -2 <= c.extent->0.left - x <= 2
    &&& -2 <= c.extent->0.top - y <= 2
}

/// Whether a candidate is of the process and has the title.
pub open spec fn is_named(c: Candidate, pid: u32, title: Seq<char>) -> bool {
    &&& c.pid == Some(pid)
    &&& c.title is Some
    &&& c.title->0@ == title
}

/// A window that was picked is found by its place, or by its title where none of its process
/// stands there; the first one counts either way. None is found only where none can be meant.
pub proof fn law_picked_windows_are_found(
    candidates: Vec<Candidate>,
    pid: u32,
    x: i32,
    y: i32,
    title: &str,
    r: Result<usize, String>,
)
    requires
        call_ensures(find_wc_window, (&candidates, pid, x, y, title), r),
    ensures
        r matches Ok(i) ==> {
            &&& i < candidates@.len()
            &&& candidates@[i as int].pid == Some(pid)
            &&& is_near(candidates@[i as int], pid, x, y) ==> forall|j: int|
                0 <= j < i ==> !is_near(#[trigger] candidates@[j], pid, x, y)
            &&& !is_near(candidates@[i as int], pid, x, y) ==> {
                &&& is_named(candidates@[i as int], pid, title@)
                &&& title@.len() > 0
                &&& forall|j: int|
                    0 <= j < candidates@.len() ==> !is_near(#[trigger] candidates@[j], pid, x, y)
                &&& forall|j: int|
                    0 <= j < i ==> !is_named(#[trigger] candidates@[j], pid, title@)
            }
        },
        r is Err ==> forall|j: int|
            0 <= j < candidates@.len() ==> !is_near(#[trigger] candidates@[j], pid, x, y) && !(
            title@.len() > 0 && is_named(candidates@[j], pid, title@)),
{
    if let Err(e) = r {
        assert(none_is_meant(candidates@, pid, x, y, title@));
        assert forall|j: int| 0 <= j < candidates@.len() implies !is_near(
            #[trigger] candidates@[j],
            pid,
            x,
            y,
        ) && !(title@.len() > 0 && is_named(candidates@[j], pid, title@)) by {
            assert(!stands_at(candidates@[j], pid, x, y));
        }
    }
}

/// The bit rate is 12% of a bit for each pixel of a second, to within a bit, as far as its limits
/// let it; and it does not matter which side is the longer one.
pub proof fn law_bit_rates_follow_the_pixels(width: u32, height: u32, fps: u32, r: u32, turned: u32)
    requires
        call_ensures(bitrate, (width, height, fps), r),
        call_ensures(bitrate, (height, width, fps), turned),
        width * height * fps <= u64::MAX,
    ensures
        ({
            let pixels = width as int * height as int * fps as int;
            &&& 300_000_000 <= 12 * pixels < 3_200_000_000 ==> 100 * r <= 12 * pixels < 100 * (r + 1)
            &&& 12 * pixels < 300_000_000 ==> r == 3_000_000
            &&& 12 * pixels >= 3_200_000_000 ==> r == 32_000_000
        }),
        turned == r,
{
    assert(width as int * height as int == height as int * width as int) by (nonlinear_arith);
}

/// Row by row, a frame that was turned over is the frame from below: the bytes of each row stay
/// in their order.
pub proof fn law_rows_change_places(bytes: Vec<u8>, row: usize, r: Vec<u8>, k: int, c: int)
    requires
        call_ensures(flip_rows, (&bytes, row), r),
        0 <= k,
        0 <= c < row,
        (k + 1) * row <= bytes@.len(),
    ensures
        r@.len() == bytes@.len(),
        bytes@.len() % row as nat == 0 ==> {
            let rows = bytes@.len() as int / row as int;
            r@[k * row + c] == bytes@[(rows - 1 - k) * row + c]
        },
{
    let n = bytes@.len() as int;
    let w = row as int;
    let i = k * w + c;
    vstd::arithmetic::div_mod::lemma_fundamental_div_mod_converse(i, w, k, c);
    vstd::arithmetic::div_mod::lemma_fundamental_div_mod(n, w);
    assert((k + 1) * w == k * w + w) by (nonlinear_arith);
    assert(0 <= k * w) by (nonlinear_arith)
        requires
            0 <= k,
            0 <= w,
    ;
    assert(w * (n / w) == (n / w) * w) by (nonlinear_arith);
}

// ---- Setup ---------------------------------------------------------------------------

/// A recording starts exactly where none is under way and something was selected. It records
/// what was selected, at 60 frames a second where that was asked for and else at 30, and the
/// encoder is set up for the same size and rate: H.264 without audio.
pub proof fn law_recordings_start_as_asked(
    active: Option<Shared>,
    target: Option<Target>,
    opts: RecOptions,
    now: u64,
    r: BeginPlan,
)
    requires
        call_ensures(record_begin, (&active, target, &opts, now), r),
    ensures
        active is Some ==> r is Busy,
        active is None && target is None ==> r is Cancelled,
        active is None && target is Some ==> r is Start,
        r matches BeginPlan::Start { shared, encoder } ==> {
            &&& shared.state == RecState::Recording
            &&& shared.reason == RecReason::Unset
            &&& shared.writing
            &&& shared.crop == target->0.crop
            &&& shared.dims == target->0.dims
            &&& opts.fps == 60 ==> shared.fps == 60
            &&& opts.fps != 60 ==> shared.fps == 30
            &&& shared.out_path@ == opts.out_path@
            &&& shared.max_bytes == opts.max_bytes
            &&& shared.first_ts is None
            &&& shared.last_sent_raw_ts == i64::MIN
            &&& shared.last_out_ts == -1
            &&& shared.paused_total_100ns == 0
            &&& shared.paused_accum == 0
            &&& shared.pause_started is None
            &&& shared.started == now
            &&& shared.error is None
            &&& encoder.codec == Codec::H264
            &&& !encoder.audio
            &&& encoder.width == shared.dims.0
            &&& encoder.height == shared.dims.1
            &&& encoder.fps == shared.fps
            &&& encoder.interval_ms * encoder.fps <= 1000 < (encoder.interval_ms + 1) * encoder.fps
            &&& encoder.show_cursor == opts.show_cursor
            &&& encoder.frame_rect == target->0.frame_rect
        },
{
    if let BeginPlan::Start { shared, encoder } = r {
        assert(1000int / 30 == 33 && 1000int / 60 == 16);
        assert(encoder.fps == 30 || encoder.fps == 60);
        if encoder.fps == 30 {
            assert(encoder.interval_ms == 33);
        } else {
            assert(encoder.interval_ms == 16);
        }
    }
}

/// The encoder is told the bit rate for its own size and frame rate.
pub proof fn law_encoders_get_their_bit_rate(
    active: Option<Shared>,
    target: Option<Target>,
    opts: RecOptions,
    now: u64,
    shared: Shared,
    encoder: EncoderPlan,
    rate: u32,
)
    requires
        call_ensures(
            record_begin,
            (&active, target, &opts, now),
            BeginPlan::Start { shared, encoder },
        ),
        call_ensures(bitrate, (encoder.width, encoder.height, encoder.fps), rate),
    ensures
        encoder.bitrate == rate,
{
}

// ---- Frames --------------------------------------------------------------------------

/// The part that is taken of a frame is the recorded part: all of the recorded size from the
/// corner on where nothing is cropped, else just the crop. It lies in the frame.
pub proof fn law_the_recorded_part_is_taken(
    s: Shared,
    ts: Option<i64>,
    width: u32,
    height: u32,
    left: u32,
    top: u32,
    right: u32,
    bottom: u32,
)
    requires
        call_ensures(
            Shared::on_frame_arrived,
            (&s, ts, width, height),
            FrameStep::Take { left, top, right, bottom },
        ),
    ensures
        s.crop is None ==> left == 0 && top == 0 && right - left == s.dims.0 && bottom - top
            == s.dims.1,
        s.crop is Some ==> s.crop == Some((left, top, right, bottom)),
        right <= width,
        bottom <= height,
        ts is Some,
        s.state == RecState::Recording,
{
}

/// A paused recording skips every frame, and one that is over wants no more; only a running one
/// takes any.
pub proof fn law_only_running_recordings_take_frames(
    s: Shared,
    ts: Option<i64>,
    width: u32,
    height: u32,
    r: FrameStep,
)
    requires
        call_ensures(Shared::on_frame_arrived, (&s, ts, width, height), r),
    ensures
        s.state == RecState::Paused ==> r is Skip,
        s.state == RecState::Recording ==> !(r is Stop),
        s.state != RecState::Paused && s.state != RecState::Recording ==> r is Stop,
{
}

proof fn lemma_gap(fps: int)
    requires
        0 < fps,
    ensures
        10 * (10_000_000int / fps * 8 / 10 + 2) * fps > 80_000_000,
        10 * (10_000_000int / fps * 8 / 10) * fps <= 80_000_000,
{
    let frame = 10_000_000int / fps;
    let gap = frame * 8 / 10;
    assert(frame * fps <= 10_000_000 < (frame + 1) * fps) by (nonlinear_arith)
        requires
            frame == 10_000_000int / fps,
            0 < fps,
    ;
    assert(10 * (gap + 2) * fps > 80_000_000) by (nonlinear_arith)
        requires
            10 * gap + 10 > frame * 8,
            10_000_000 < (frame + 1) * fps,
            0 < fps,
    ;
    assert(10 * gap * fps <= 80_000_000) by (nonlinear_arith)
        requires
            10 * gap <= frame * 8,
            frame * fps <= 10_000_000,
            0 < fps,
    ;
}

/// While recording, the first frame that is large enough is taken; of those after it, one that
/// comes at least four fifths of a frame time after the last one written, and none that comes
/// clearly sooner.
pub proof fn law_frames_are_paced(s: Shared, ts: i64, width: u32, height: u32, r: FrameStep)
    requires
        call_ensures(Shared::on_frame_arrived, (&s, Some(ts), width, height), r),
        s.state == RecState::Recording,
        0 < s.fps,
    ensures
        ({
            let enough = match s.crop {
                Some((_, _, right, bottom)) => right <= width && bottom <= height,
                None => s.dims.0 <= width && s.dims.1 <= height,
            };
            &&& !enough ==> r is Skip
            &&& enough && s.last_sent_raw_ts == i64::MIN ==> r is Take
            &&& enough && 10 * (ts - s.last_sent_raw_ts) * s.fps >= 80_000_000 ==> r is Take
            &&& s.last_sent_raw_ts != i64::MIN && 10 * (ts - s.last_sent_raw_ts + 2) * s.fps
                <= 80_000_000 ==> r is Skip
        }),
{
    let fps = s.fps as int;
    let since = ts - s.last_sent_raw_ts;
    let gap = 10_000_000int / fps * 8 / 10;
    lemma_gap(fps);
    assert(since < gap ==> 10 * since * fps < 10 * gap * fps) by (nonlinear_arith)
        requires
            0 < fps,
    ;
    assert(since >= gap ==> 10 * (since + 2) * fps >= 10 * (gap + 2) * fps) by (nonlinear_arith)
        requires
            0 < fps,
    ;
}

/// The size of the captured item, for a selection that is large enough to be recorded.
pub open spec fn item_size(selection: Selection) -> Option<(u32, u32)> {
    match selection {
        Selection::Display(info) => Some((info.width, info.height)),
        Selection::Region { x, y, w, h, info } => if max(x as int, info.left as int) + 2 <= min(
            x + w,
            info.left + info.width,
        ) && max(y as int, info.top as int) + 2 <= min(y + h, info.top + info.height) {
            Some((info.width, info.height))
        } else {
            None
        },
        Selection::Window(extent) => Some(
            ((extent.right - extent.left) as u32, (extent.bottom - extent.top) as u32),
        ),
        Selection::Nothing => None,
    }
}

/// Whatever was selected, the first frame of the captured item's own size is taken, and the part
/// that is taken has the size that the encoder was set up for.
pub proof fn law_first_frames_suit_the_encoder(
    mode: &str,
    selection: Selection,
    target: Target,
    opts: RecOptions,
    now: u64,
    shared: Shared,
    encoder: EncoderPlan,
    ts: i64,
    width: u32,
    height: u32,
    r: FrameStep,
)
    requires
        call_ensures(
            resolve_target,
            (mode, &selection),
            Ok::<Option<Target>, String>(Some(target)),
        ),
        call_ensures(
            record_begin,
            (&None::<Shared>, Some(target), &opts, now),
            BeginPlan::Start { shared, encoder },
        ),
        call_ensures(Shared::on_frame_arrived, (&shared, Some(ts), width, height), r),
        item_size(selection) == Some((width, height)),
        2 <= width <= i32::MAX,
        2 <= height <= i32::MAX,
        selection matches Selection::Window(e) ==> 2 <= e.right - e.left && 2 <= e.bottom - e.top,
        selection matches Selection::Region { x, y, info, .. } ==> i32::MIN <= x - info.left
            <= i32::MAX && i32::MIN <= y - info.top <= i32::MAX,
    ensures
        r matches FrameStep::Take { left, top, right, bottom } && {
            &&& right - left == encoder.width
            &&& bottom - top == encoder.height
        },
{
}

// ---- Timestamps ----------------------------------------------------------------------

/// The first frame sets the start of the video: it is noted once, and stays.
pub proof fn law_the_first_frame_starts_the_video(s: &mut Shared, ts: i64, r: Option<i64>)
    requires
        call_ensures(Shared::time_frame, (s, ts), r),
    ensures
        old(s).first_ts is None ==> final(s).first_ts == Some(ts),
        old(s).first_ts is Some ==> final(s).first_ts == old(s).first_ts,
        *final(s) == (Shared { first_ts: final(s).first_ts, ..*old(s) }),
{
}

/// A frame is written as long after the first one as it came after it, less the pauses; except
/// for the first, only where that is later than the last one written.
pub proof fn law_frames_keep_their_distance(s: &mut Shared, ts: i64, first: i64, r: Option<i64>)
    requires
        call_ensures(Shared::time_frame, (s, ts), r),
        old(s).first_ts == Some(first),
        i64::MIN <= ts - first <= i64::MAX,
        i64::MIN <= ts - first - old(s).paused_total_100ns <= i64::MAX,
    ensures
        r matches Some(out) ==> out + old(s).paused_total_100ns == ts - first && (ts == first || out
            > old(s).last_out_ts),
        r is None ==> ts != first && ts - first - old(s).paused_total_100ns <= old(s).last_out_ts,
{
}

/// The first frame of a recording that was not paused is written at 0.
pub proof fn law_videos_start_at_zero(s: &mut Shared, ts: i64, r: Option<i64>)
    requires
        call_ensures(Shared::time_frame, (s, ts), r),
        old(s).first_ts is None,
        old(s).paused_total_100ns == 0,
    ensures
        r == Some(0i64),
{
}

/// A frame that was written is noted with both of its timestamps; nothing else changes. One that
/// could not be written ends the recording, and names its file.
pub proof fn law_written_frames_are_noted(
    s: &mut Shared,
    ts: i64,
    out_ts: i64,
    sent: Result<(), String>,
    r: Option<String>,
)
    requires
        call_ensures(Shared::frame_sent, (s, ts, out_ts, sent), r),
    ensures
        sent is Ok ==> {
            &&& r is None
            &&& final(s).last_out_ts == out_ts
            &&& final(s).last_sent_raw_ts == ts
            &&& *final(s) == (Shared {
                last_out_ts: final(s).last_out_ts,
                last_sent_raw_ts: final(s).last_sent_raw_ts,
                ..*old(s)
            })
        },
        sent is Err ==> {
            &&& r is Some && r->0@ == old(s).out_path@
            &&& final(s).state == RecState::Failed
            &&& final(s).reason == RecReason::WriterError
            &&& !final(s).writing
            &&& final(s).error is Some && final(s).error->0@ == "encoder error: "@ + sent->Err_0@
            &&& *final(s) == (Shared {
                state: final(s).state,
                reason: final(s).reason,
                writing: final(s).writing,
                error: final(s).error,
                ..*old(s)
            })
        },
{
}

// ---- The life of a recording ---------------------------------------------------------

/// A recording is taken up exactly where encoder and capture run; what the caller learns is the
/// size that is recorded, or what did not run.
pub proof fn law_recordings_run_once_all_is_set_up(
    active: &mut Option<Shared>,
    shared: Shared,
    outcome: Result<(), StartFailure>,
    r: Result<RecBegin, String>,
)
    requires
        call_ensures(record_started, (active, shared, outcome), r),
    ensures
        r is Ok <==> outcome is Ok,
        outcome is Ok ==> *final(active) == Some(shared),
        outcome is Ok ==> (r matches Ok(RecBegin::Started { width, height }) && width
            == shared.dims.0 && height == shared.dims.1),
        outcome is Err ==> *final(active) == *old(active),
        outcome matches Err(StartFailure::Encoder(why)) ==> r->Err_0@
            == "Could not create the video encoder: "@ + why@,
        outcome matches Err(StartFailure::Capture(why)) ==> r->Err_0@
            == "Could not start the recording: "@ + why@,
{
}

/// A running recording, and no other, can be paused: it notes when, and everything else about it
/// stays.
pub proof fn law_running_recordings_can_be_paused(
    active: &mut Option<Shared>,
    now: u64,
    r: Result<(), String>,
)
    requires
        call_ensures(record_pause, (active, now), r),
    ensures
        r is Ok <==> *old(active) is Some && (*old(active))->0.state == RecState::Recording,
        r is Err ==> *final(active) == *old(active) && r->Err_0@ == "No active recording to pause."@,
        r is Ok ==> {
            let (before, after) = ((*old(active))->0, (*final(active))->0);
            &&& *final(active) is Some
            &&& after.state == RecState::Paused
            &&& after.pause_started == Some(now)
            &&& after == (Shared {
                state: after.state,
                pause_started: after.pause_started,
                ..before
            })
        },
{
}

/// A paused recording, and no other, can be resumed: the pause counts as paused time, in
/// nanoseconds and in timestamp units, and everything else about it stays.
pub proof fn law_paused_recordings_can_be_resumed(
    active: &mut Option<Shared>,
    now: u64,
    paused: u64,
    r: Result<(), String>,
)
    requires
        call_ensures(record_resume, (active, now), r),
        *old(active) is Some ==> (*old(active))->0.wf(now) && (*old(active))->0.pause_started
            == Some(paused),
        paused <= now,
    ensures
        r is Ok <==> *old(active) is Some && (*old(active))->0.state == RecState::Paused,
        r is Err ==> *final(active) == *old(active) && r->Err_0@ == "No paused recording to resume."@,
        r is Ok ==> {
            let (before, after) = ((*old(active))->0, (*final(active))->0);
            &&& *final(active) is Some
            &&& after.state == RecState::Recording
            &&& after.pause_started is None
            &&& after.paused_accum - before.paused_accum == now - paused
            &&& 100 * (after.paused_total_100ns - before.paused_total_100ns) <= now - paused
            &&& now - paused < 100 * (after.paused_total_100ns - before.paused_total_100ns + 1)
            &&& after == (Shared {
                state: after.state,
                pause_started: after.pause_started,
                paused_accum: after.paused_accum,
                paused_total_100ns: after.paused_total_100ns,
                ..before
            })
        },
{
}

/// Whoever stops a recording takes it out, as it is: what was written of it, its size and its
/// file stay. It ends as the user's wish unless something else has ended it before.
pub proof fn law_stopped_recordings_are_taken_out(
    active: &mut Option<Shared>,
    now: u64,
    r: Result<Shared, String>,
)
    requires
        call_ensures(record_stop, (active, now), r),
    ensures
        *final(active) is None,
        r is Ok <==> *old(active) is Some,
        r is Err ==> r->Err_0@ == "No active recording to stop."@,
        r is Ok ==> {
            let (before, taken) = ((*old(active))->0, r->Ok_0);
            &&& taken.state == RecState::Finishing
            &&& before.reason == RecReason::Unset ==> taken.reason == RecReason::User
            &&& before.reason != RecReason::Unset ==> taken.reason == before.reason
            &&& taken.pause_started is None
            &&& taken == (Shared {
                state: taken.state,
                reason: taken.reason,
                pause_started: taken.pause_started,
                paused_accum: taken.paused_accum,
                paused_total_100ns: taken.paused_total_100ns,
                ..before
            })
            &&& before.pause_started is None ==> taken.paused_accum == before.paused_accum
                && taken.paused_total_100ns == before.paused_total_100ns
            &&& before.pause_started matches Some(p) ==> (before.wf(now) ==> {
                &&& taken.paused_accum - before.paused_accum == now - p
                &&& 100 * (taken.paused_total_100ns - before.paused_total_100ns) <= now - p
                &&& now - p < 100 * (taken.paused_total_100ns - before.paused_total_100ns + 1)
            })
        },
{
}

/// A recording with a frame in it is finished: its video ends one frame time after its last
/// frame, to within a millisecond. Any other is discarded, with its file and the reason.
pub proof fn law_recordings_with_frames_are_finished(s: Shared, r: StopVerdict)
    requires
        call_ensures(record_stopped, (s,), r),
        0 < s.fps <= 10_000_000,
        -1 <= s.last_out_ts,
    ensures
        r is Finish <==> s.writing && s.first_ts is Some,
        r matches StopVerdict::Finish { path, duration_ms, width, height, reason } ==> {
            &&& path@ == s.out_path@
            &&& width == s.dims.0
            &&& height == s.dims.1
            &&& reason == s.reason
            &&& (duration_ms * 10_000 - s.last_out_ts) * s.fps <= 10_000_000
            &&& 10_000_000 < (duration_ms * 10_000 + 10_001 - s.last_out_ts) * s.fps
        },
        r matches StopVerdict::Discard { path, message } ==> {
            &&& path@ == s.out_path@
            &&& s.writing ==> message@ == "No frames were captured."@
            &&& !s.writing && s.error is Some ==> message@ == s.error->0@
            &&& !s.writing && s.error is None ==> message@
                == "The recording could not be written to disk."@
        },
{
    let fps = s.fps as int;
    let frame = 10_000_000int / fps;
    assert(frame * fps <= 10_000_000 < (frame + 1) * fps && 1 <= frame) by (nonlinear_arith)
        requires
            frame == 10_000_000int / fps,
            0 < fps <= 10_000_000,
    ;
    if let StopVerdict::Finish { path, duration_ms, width, height, reason } = r {
        let end = s.last_out_ts + frame;
        let d = duration_ms * 10_000;
        assert(d <= end < d + 10_000);
        assert((d - s.last_out_ts) * fps <= 10_000_000 < (d + 10_001 - s.last_out_ts) * fps)
            by (nonlinear_arith)
            requires
                d <= s.last_out_ts + frame < d + 10_000,
                frame * fps <= 10_000_000 < (frame + 1) * fps,
                0 < fps,
        ;
    }
}

/// The result of a recording is what is known of it, each thing in its place; or why the file
/// could not be finished.
pub proof fn law_results_say_what_is_known(
    duration_ms: u64,
    width: u32,
    height: u32,
    reason: RecReason,
    finished: Result<(), String>,
    bytes: u64,
    r: Result<RecResult, String>,
)
    requires
        call_ensures(record_finished, (duration_ms, width, height, reason, finished, bytes), r),
    ensures
        r is Ok <==> finished is Ok,
        r matches Ok(res) ==> res.duration_ms == duration_ms && res.bytes == bytes && res.width
            == width && res.height == height && res.reason == reason,
        r matches Err(e) ==> e@ == "Could not finalize the recording: "@ + finished->Err_0@,
{
}

/// A recording that is dropped is no longer there and no longer written; its file is still
/// known.
pub proof fn law_cancelled_recordings_are_dropped(active: &mut Option<Shared>, r: Option<Shared>)
    requires
        call_ensures(record_cancel, (active,), r),
    ensures
        *final(active) is None,
        r is Some <==> *old(active) is Some,
        r matches Some(s) ==> {
            &&& s.state == RecState::Failed
            &&& s.reason == RecReason::Cancelled
            &&& !s.writing
            &&& s == (Shared {
                state: s.state,
                reason: s.reason,
                writing: s.writing,
                ..(*old(active))->0
            })
        },
{
}

/// A recording that is under way ends where its file has reached its limit, and only there; a
/// limit of 0 is none. Nothing else about it changes.
pub proof fn law_files_do_not_outgrow_their_limit(active: &mut Option<Shared>, bytes: u64, r: ())
    requires
        call_ensures(size_checked, (active, bytes), r),
    ensures
        *old(active) is None ==> *final(active) is None,
        *old(active) is Some ==> {
            let (before, after) = ((*old(active))->0, (*final(active))->0);
            let ends = (before.state == RecState::Recording || before.state == RecState::Paused)
                && before.max_bytes != 0 && before.max_bytes <= bytes;
            &&& *final(active) is Some
            &&& ends ==> after.state == RecState::Stopped && after.reason == RecReason::SizeLimit
            &&& !ends ==> after.state == before.state && after.reason == before.reason
            &&& after == (Shared { state: after.state, reason: after.reason, ..before })
        },
{
}

/// The status tells the time since the start, less the pauses, in whole milliseconds, and the
/// size of the picture and of the file; and it ends a recording at its limit as a check of the
/// size does.
pub proof fn law_status_tells_the_recorded_time(
    active: &mut Option<Shared>,
    now: u64,
    bytes: u64,
    r: RecStatus,
)
    requires
        call_ensures(record_status, (active, now, bytes), r),
        *old(active) is Some ==> (*old(active))->0.wf(now),
    ensures
        *old(active) is None ==> *final(active) is None && r.state == RecState::Idle && r.reason
            == RecReason::Unset && r.elapsed_ms == 0 && r.bytes == 0 && r.width == 0 && r.height == 0,
        *old(active) is Some ==> {
            let (before, after) = ((*old(active))->0, (*final(active))->0);
            let until = match before.pause_started {
                Some(p) => p,
                None => now,
            };
            let recorded = until - before.started - before.paused_accum;
            &&& r.state == after.state
            &&& r.reason == after.reason
            &&& r.elapsed_ms * 1_000_000 <= recorded < (r.elapsed_ms + 1) * 1_000_000
            &&& r.bytes == bytes
            &&& r.width == before.dims.0
            &&& r.height == before.dims.1
            &&& before.max_bytes != 0 && before.max_bytes <= bytes && (before.state
                == RecState::Recording || before.state == RecState::Paused) ==> r.state
                == RecState::Stopped && r.reason == RecReason::SizeLimit
            &&& before.max_bytes == 0 || bytes < before.max_bytes ==> after == before
        },
{
}

/// A recording whose window is closed stops, with that as its reason, unless it was over
/// already; nothing else about it changes.
pub proof fn law_closed_windows_end_recordings(s: &mut Shared, r: ())
    requires
        call_ensures(on_closed, (s,), r),
    ensures
        ({
            let live = old(s).state == RecState::Recording || old(s).state == RecState::Paused;
            &&& live ==> final(s).state == RecState::Stopped && final(s).reason
                == RecReason::SourceClosed
            &&& !live ==> final(s).state == old(s).state && final(s).reason == old(s).reason
            &&& *final(s) == (Shared {
                state: final(s).state,
                reason: final(s).reason,
                ..*old(s)
            })
        }),
{
}

} // verus!
