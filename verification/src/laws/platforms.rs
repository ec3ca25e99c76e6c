//! What the recorders and captures of macOS and Windows say, and what is taken from it.

use vstd::prelude::*;

use crate::capture_macos;
use crate::capture_macos::{CaptureAnswer, RawResult, RawStatus};
use crate::capture_windows;
use crate::mode::{law_mode_names_are_distinct, CaptureMode};
use crate::picture::{encoded, Picture};
use crate::recording::{
    native, BeginOutcome, RecordMode, RecordOpts, RecordResult, RecordState, RecordStatus, StopReason,
};
use crate::teil_capture_windows;
use crate::teil_capture_windows::overlay::{Frozen, Outcome, Rect};
use crate::teil_capture_windows::recorder::{
    RecBegin, RecOptions, RecReason, RecResult, RecState, RecStatus,
};

verus! {

// ---- macOS ---------------------------------------------------------------------------

/// A capture has worked where the status is 0 and the file holds something; 1 means that the user
/// cancelled; anything else is an error, told in the library's own words where it has some.
pub proof fn law_captures_are_judged_by_status(answer: CaptureAnswer, r: Result<Option<Vec<u8>>, String>)
    requires
        call_ensures(capture_macos::run_capture, (answer,), r),
    ensures
        r is Ok && r->Ok_0 is Some <==> answer.status == 0 && answer.png is Some
            && answer.png->0@.len() > 0,
        r is Ok && r->Ok_0 is Some ==> r->Ok_0->0@ == answer.png->0@,
        r is Ok && r->Ok_0 is None <==> answer.status == 1,
        answer.status == 0 && r is Err ==> r->Err_0@ == "Capture returned an empty image."@,
        answer.status != 0 && r is Err && answer.error is Some ==> r->Err_0@ == answer.error->0@,
        answer.status != 0 && r is Err && answer.error is None ==> r->Err_0@
            == "Unknown capture error."@,
{
}

/// An error is told as it is, and only a missing one is replaced.
pub proof fn law_errors_are_told_as_they_are(error: Option<String>, fallback: &str, r: String)
    requires
        call_ensures(capture_macos::take_err, (error, fallback), r),
    ensures
        error is Some ==> r@ == error->0@,
        error is None ==> r@ == fallback@,
{
}

/// On both platforms, the three modes are captured under their names, and no other name is one.
pub proof fn law_captures_are_known_by_name(
    mode: &str,
    windows: bool,
    m: Result<CaptureMode, String>,
    w: Result<CaptureMode, String>,
    n: Result<CaptureMode, String>,
)
    requires
        call_ensures(capture_macos::capture_interactive, (mode,), m),
        call_ensures(capture_windows::capture_interactive, (mode,), w),
        call_ensures(teil_capture_windows::capture_interactive, (windows, mode), n),
    ensures
        m == Ok::<CaptureMode, String>(CaptureMode::Region) <==> mode@ == "region"@,
        m == Ok::<CaptureMode, String>(CaptureMode::Window) <==> mode@ == "window"@,
        m == Ok::<CaptureMode, String>(CaptureMode::Fullscreen) <==> mode@ == "fullscreen"@,
        w == Ok::<CaptureMode, String>(CaptureMode::Region) <==> mode@ == "region"@,
        w == Ok::<CaptureMode, String>(CaptureMode::Window) <==> mode@ == "window"@,
        w == Ok::<CaptureMode, String>(CaptureMode::Fullscreen) <==> mode@ == "fullscreen"@,
        m is Err ==> m->Err_0@ == "Unknown capture mode: "@ + mode@,
        w is Err ==> w->Err_0@ == "Unknown capture mode: "@ + mode@,
        windows && w is Ok ==> n == w,
        windows && w is Err ==> n is Err && n->Err_0@ == w->Err_0@,
        !windows ==> n is Err && n->Err_0@ == "teil-capture-windows is only functional on Windows."@,
{
    law_mode_names_are_distinct(CaptureMode::Region);
    law_mode_names_are_distinct(CaptureMode::Window);
    law_mode_names_are_distinct(CaptureMode::Fullscreen);
}

/// The reasons have their numbers, from 1 to 7; any other number is none.
pub proof fn law_reasons_have_their_numbers(raw: i32, r: StopReason)
    requires
        call_ensures(capture_macos::stop_reason, (raw,), r),
    ensures
        r == StopReason::User <==> raw == 1,
        r == StopReason::SourceClosed <==> raw == 2,
        r == StopReason::SizeLimit <==> raw == 3,
        r == StopReason::StreamError <==> raw == 4,
        r == StopReason::WriterError <==> raw == 5,
        r == StopReason::NoFrames <==> raw == 6,
        r == StopReason::Cancelled <==> raw == 7,
{
}

/// The status is taken over, each number in its place; the states have their numbers, from 1 to
/// 5, and nothing counts below zero.
pub proof fn law_statuses_are_taken_over(raw: RawStatus, r: RecordStatus, reason: StopReason)
    requires
        call_ensures(capture_macos::record_status, (&raw,), r),
        call_ensures(capture_macos::stop_reason, (raw.reason,), reason),
    ensures
        r.state == RecordState::Recording <==> raw.state == 1,
        r.state == RecordState::Paused <==> raw.state == 2,
        r.state == RecordState::Finishing <==> raw.state == 3,
        r.state == RecordState::Stopped <==> raw.state == 4,
        r.state == RecordState::Failed <==> raw.state == 5,
        r.reason == reason,
        r.bytes == raw.bytes,
        0 <= raw.elapsed_ms ==> r.elapsed_ms == raw.elapsed_ms,
        0 <= raw.width ==> r.width == raw.width,
        0 <= raw.height ==> r.height == raw.height,
        raw.elapsed_ms < 0 ==> r.elapsed_ms == 0,
        raw.width < 0 ==> r.width == 0,
        raw.height < 0 ==> r.height == 0,
{
}

/// A recording has started at status 0, with the size that it then has; 1 means that the user
/// cancelled, 3 that another one runs, and anything else is an error.
pub proof fn law_starts_are_judged_by_status(
    code: i32,
    error: Option<String>,
    now: RawStatus,
    r: Result<BeginOutcome, String>,
)
    requires
        call_ensures(capture_macos::record_begin, (code, error, &now), r),
        0 <= now.width,
        0 <= now.height,
    ensures
        code == 0 ==> (r matches Ok(BeginOutcome::Started { width, height }) && width == now.width
            && height == now.height),
        r == Ok::<BeginOutcome, String>(BeginOutcome::Cancelled) <==> code == 1,
        r == Ok::<BeginOutcome, String>(BeginOutcome::Busy) <==> code == 3,
        r is Err <==> code != 0 && code != 1 && code != 3,
        r is Err && error is Some ==> r->Err_0@ == error->0@,
        r is Err && error is None ==> r->Err_0@ == "Unknown recording error."@,
{
}

/// A path can be handed over exactly where it could be written down.
pub proof fn law_paths_are_handed_over(path: Option<String>, r: Result<String, String>)
    requires
        call_ensures(capture_macos::checked_path, (path,), r),
    ensures
        r is Ok <==> path is Some,
        r is Ok ==> r->Ok_0@ == path->0@,
        r is Err ==> r->Err_0@ == "Invalid recording path."@,
{
}

/// Pausing and resuming have worked at status 0, and at no other.
pub proof fn law_pauses_are_judged_by_status(code: i32, p: Result<(), String>, q: Result<(), String>)
    requires
        call_ensures(capture_macos::record_pause, (code,), p),
        call_ensures(capture_macos::record_resume, (code,), q),
    ensures
        p is Ok <==> code == 0,
        q is Ok <==> code == 0,
        p is Err ==> p->Err_0@ == "No active recording to pause."@,
        q is Err ==> q->Err_0@ == "No paused recording to resume."@,
{
}

/// A recording has ended well at status 0: its numbers are taken over, each in its place.
pub proof fn law_ends_are_judged_by_status(
    code: i32,
    raw: RawResult,
    error: Option<String>,
    r: Result<RecordResult, String>,
    reason: StopReason,
)
    requires
        call_ensures(capture_macos::record_stop, (code, &raw, error), r),
        call_ensures(capture_macos::stop_reason, (raw.reason,), reason),
        0 <= raw.duration_ms,
        0 <= raw.width,
        0 <= raw.height,
    ensures
        r is Ok <==> code == 0,
        r matches Ok(res) ==> {
            &&& res.duration_ms == raw.duration_ms
            &&& res.bytes == raw.bytes
            &&& res.width == raw.width
            &&& res.height == raw.height
            &&& res.reason == reason
        },
        r is Err && error is Some ==> r->Err_0@ == error->0@,
        r is Err && error is None ==> r->Err_0@ == "The recording could not be saved."@,
{
}

// ---- Windows -------------------------------------------------------------------------

/// A reason on Windows is the reason of the same name.
pub proof fn law_reasons_keep_their_meaning(reason: RecReason, r: StopReason)
    requires
        call_ensures(capture_windows::reason, (reason,), r),
    ensures
        r == StopReason::Unset <==> reason == RecReason::Unset,
        r == StopReason::User <==> reason == RecReason::User,
        r == StopReason::SourceClosed <==> reason == RecReason::SourceClosed,
        r == StopReason::SizeLimit <==> reason == RecReason::SizeLimit,
        r == StopReason::StreamError <==> reason == RecReason::StreamError,
        r == StopReason::WriterError <==> reason == RecReason::WriterError,
        r == StopReason::NoFrames <==> reason == RecReason::NoFrames,
        r == StopReason::Cancelled <==> reason == RecReason::Cancelled,
{
}

/// The recorder is asked for the same mode, with the same options.
pub proof fn law_requests_are_passed_on(mode: RecordMode, opts: RecordOpts, r: (CaptureMode, RecOptions))
    requires
        call_ensures(capture_windows::record_request, (mode, &opts), r),
    ensures
        r.0 == CaptureMode::Region <==> mode == RecordMode::Region,
        r.0 == CaptureMode::Window <==> mode == RecordMode::Window,
        r.0 == CaptureMode::Fullscreen <==> mode == RecordMode::Fullscreen,
        r.1.fps == opts.fps,
        r.1.capture_audio == opts.capture_audio,
        r.1.show_cursor == opts.show_cursor,
        r.1.max_bytes == opts.max_bytes,
        r.1.out_path@ == opts.out_path@,
{
}

/// What came of a start is passed on as it is.
pub proof fn law_starts_are_passed_on(outcome: Result<RecBegin, String>, r: Result<BeginOutcome, String>)
    requires
        call_ensures(capture_windows::record_begin, (outcome,), r),
    ensures
        outcome is Err <==> r is Err,
        outcome is Err ==> r->Err_0@ == outcome->Err_0@,
        outcome == Ok::<RecBegin, String>(RecBegin::Cancelled) <==> r == Ok::<BeginOutcome, String>(
            BeginOutcome::Cancelled,
        ),
        outcome == Ok::<RecBegin, String>(RecBegin::Busy) <==> r == Ok::<BeginOutcome, String>(
            BeginOutcome::Busy,
        ),
        outcome matches Ok(RecBegin::Started { width, height }) ==> (r matches Ok(
            BeginOutcome::Started { width: w, height: h },
        ) && w == width && h == height),
{
}

/// What came of an end is passed on, each thing in its place.
pub proof fn law_ends_are_passed_on(
    outcome: Result<RecResult, String>,
    r: Result<RecordResult, String>,
    reason: StopReason,
)
    requires
        call_ensures(capture_windows::record_stop, (outcome,), r),
        outcome is Ok ==> call_ensures(capture_windows::reason, (outcome->Ok_0.reason,), reason),
    ensures
        r is Ok <==> outcome is Ok,
        r is Err ==> r->Err_0@ == outcome->Err_0@,
        r is Ok ==> {
            let (a, b) = (outcome->Ok_0, r->Ok_0);
            &&& b.duration_ms == a.duration_ms
            &&& b.bytes == a.bytes
            &&& b.width == a.width
            &&& b.height == a.height
            &&& b.reason == reason
        },
{
}

/// The status is passed on, each thing in its place, with the state of the same name.
pub proof fn law_statuses_are_passed_on(s: RecStatus, r: RecordStatus, reason: StopReason)
    requires
        call_ensures(capture_windows::record_status, (&s,), r),
        call_ensures(capture_windows::reason, (s.reason,), reason),
    ensures
        r.state == RecordState::Idle <==> s.state == RecState::Idle,
        r.state == RecordState::Recording <==> s.state == RecState::Recording,
        r.state == RecordState::Paused <==> s.state == RecState::Paused,
        r.state == RecordState::Finishing <==> s.state == RecState::Finishing,
        r.state == RecordState::Stopped <==> s.state == RecState::Stopped,
        r.state == RecordState::Failed <==> s.state == RecState::Failed,
        r.reason == reason,
        r.elapsed_ms == s.elapsed_ms,
        r.bytes == s.bytes,
        r.width == s.width,
        r.height == s.height,
{
}

/// Whether the outcome of a capture is the file that a picture encodes to, or why there is none.
pub open spec fn is_file_of(r: Result<Option<Vec<u8>>, String>, width: u32, height: u32, pixels: Seq<u8>) -> bool {
    match encoded(width, height, pixels) {
        Ok(file) => r is Ok && r->Ok_0 is Some && r->Ok_0->0@ == file,
        Err(why) => r is Err && r->Err_0@ == "PNG encode failed: "@ + why,
    }
}

/// A captured display is encoded as it is.
pub proof fn law_displays_are_encoded_as_they_are(grabbed: Result<Picture, String>, r: Result<Option<Vec<u8>>, String>)
    requires
        call_ensures(teil_capture_windows::capture_fullscreen, (grabbed,), r),
    ensures
        grabbed matches Ok(p) ==> is_file_of(r, p.width, p.height, p.pixels@),
        grabbed matches Err(e) ==> r is Err && r->Err_0@ == "capture: "@ + e@,
{
}

/// A selected region is cut out of the snapshot and encoded; a cancelled selection gives nothing.
pub proof fn law_regions_are_cut_and_encoded(
    frozen: Frozen,
    outcome: Outcome,
    r: Result<Option<Vec<u8>>, String>,
    x: i32,
    y: i32,
    w: i32,
    h: i32,
    cut: Result<Picture, String>,
)
    requires
        call_ensures(teil_capture_windows::capture_region, (&frozen, outcome), r),
        outcome == (Outcome::Region { x, y, w, h }) ==> call_ensures(
            Frozen::crop_global,
            (&frozen, x, y, w, h),
            cut,
        ),
    ensures
        outcome is Cancelled ==> r is Ok && r->Ok_0 is None,
        outcome is Window ==> r is Err && r->Err_0@ == "Unexpected window pick in region mode"@,
        outcome == (Outcome::Region { x, y, w, h }) ==> {
            &&& cut matches Ok(p) ==> is_file_of(r, p.width, p.height, p.pixels@)
            &&& cut matches Err(e) ==> r is Err && r->Err_0@ == e@
        },
{
}

/// There is something to pick exactly where a window is offered.
pub proof fn law_windows_are_needed_to_pick(rects: Vec<Rect>, r: Result<(), String>)
    requires
        call_ensures(teil_capture_windows::windows_to_pick, (&rects,), r),
    ensures
        r is Ok <==> rects@.len() > 0,
        r is Err ==> r->Err_0@ == "No windows available to capture."@,
{
}

/// A picked window is encoded from its own picture, else from what the snapshot shows at its
/// place; a picture of a single pixel, or none, is a failure.
pub proof fn law_picked_windows_are_encoded(
    frozen: Frozen,
    rects: Vec<Rect>,
    outcome: Outcome,
    grabbed: Option<Picture>,
    r: Result<Option<Vec<u8>>, String>,
    i: usize,
    cut: Result<Picture, String>,
)
    requires
        call_ensures(
            teil_capture_windows::capture_window_interactive,
            (&frozen, &rects, outcome, grabbed),
            r,
        ),
        outcome == Outcome::Window(i) ==> {
            let q = rects@[i as int];
            &&& i < rects@.len()
            &&& i32::MIN <= q.right - q.left <= i32::MAX
            &&& i32::MIN <= q.bottom - q.top <= i32::MAX
            &&& call_ensures(
                Frozen::crop_global,
                (&frozen, q.left, q.top, (q.right - q.left) as i32, (q.bottom - q.top) as i32),
                cut,
            )
        },
    ensures
        outcome is Cancelled ==> r is Ok && r->Ok_0 is None,
        outcome is Region ==> r is Err && r->Err_0@ == "Unexpected region in window-pick mode"@,
        outcome == Outcome::Window(i) ==> {
            let picture = if grabbed is Some {
                Ok::<Picture, String>(grabbed->0)
            } else {
                cut
            };
            &&& picture is Ok && (picture->Ok_0.width > 1 || picture->Ok_0.height > 1) ==> is_file_of(
                r,
                picture->Ok_0.width,
                picture->Ok_0.height,
                picture->Ok_0.pixels@,
            )
            &&& picture is Err || (picture->Ok_0.width <= 1 && picture->Ok_0.height <= 1) ==> r
                is Err && r->Err_0@ == "Window capture failed."@
        },
{
}

// ---- Other platforms -----------------------------------------------------------------

/// Where nothing can be recorded, everything is refused with that reason.
pub proof fn law_other_platforms_record_nothing(
    mode: RecordMode,
    opts: RecordOpts,
    b: Result<BeginOutcome, String>,
    p: Result<(), String>,
    q: Result<(), String>,
    s: Result<RecordResult, String>,
    t: RecordStatus,
)
    requires
        call_ensures(native::record_begin, (mode, &opts), b),
        call_ensures(native::record_pause, (), p),
        call_ensures(native::record_resume, (), q),
        call_ensures(native::record_stop, (), s),
        call_ensures(native::record_status, (), t),
    ensures
        b is Err && p is Err && q is Err && s is Err,
        b->Err_0@ == "Screen recording is not supported on this platform yet."@,
        p->Err_0@ == b->Err_0@,
        q->Err_0@ == b->Err_0@,
        s->Err_0@ == b->Err_0@,
        t.state == RecordState::Idle && t.reason == StopReason::Unset && t.elapsed_ms == 0 && t.bytes
            == 0 && t.width == 0 && t.height == 0,
{
}

} // verus!
