//! Capture and recording on Windows: from the client's terms to those of the Windows part,
//! and back.

use vstd::prelude::*;

use crate::mode::CaptureMode;
use crate::recording::{
    BeginOutcome, RecordMode, RecordOpts, RecordResult, RecordState, RecordStatus, StopReason,
};
use crate::teil_capture_windows;
use crate::teil_capture_windows::recorder::{
    RecBegin, RecOptions, RecReason, RecResult, RecState, RecStatus,
};

verus! {

/// Which capture to run for a mode.
pub fn capture_interactive(mode: &str) -> (r: Result<CaptureMode, String>)
    ensures
        match r {
            Ok(m) => CaptureMode::named(mode@) == Some(m),
            Err(e) => CaptureMode::named(mode@) is None && e@ == "Unknown capture mode: "@ + mode@,
        },
{
    teil_capture_windows::capture_interactive(true, mode)
}

/// Why a recording ended, in the client's terms.
pub open spec fn reason_of(r: RecReason) -> StopReason {
    match r {
        RecReason::User => StopReason::User,
        RecReason::SourceClosed => StopReason::SourceClosed,
        RecReason::SizeLimit => StopReason::SizeLimit,
        RecReason::StreamError => StopReason::StreamError,
        RecReason::WriterError => StopReason::WriterError,
        RecReason::NoFrames => StopReason::NoFrames,
        RecReason::Cancelled => StopReason::Cancelled,
        RecReason::Unset => StopReason::Unset,
    }
}

/// Why a recording ended, in the client's terms.
pub fn reason(r: RecReason) -> (out: StopReason)
    ensures
        out == reason_of(r),
{
    match r {
        RecReason::User => StopReason::User,
        RecReason::SourceClosed => StopReason::SourceClosed,
        RecReason::SizeLimit => StopReason::SizeLimit,
        RecReason::StreamError => StopReason::StreamError,
        RecReason::WriterError => StopReason::WriterError,
        RecReason::NoFrames => StopReason::NoFrames,
        RecReason::Cancelled => StopReason::Cancelled,
        RecReason::Unset => StopReason::Unset,
    }
}

/// How a recording stands, in the client's terms.
pub open spec fn state_of(s: RecState) -> RecordState {
    match s {
        RecState::Recording => RecordState::Recording,
        RecState::Paused => RecordState::Paused,
        RecState::Finishing => RecordState::Finishing,
        RecState::Stopped => RecordState::Stopped,
        RecState::Failed => RecordState::Failed,
        RecState::Idle => RecordState::Idle,
    }
}

/// What the recorder is asked for: the capture to select for, and its options.
pub fn record_request(mode: RecordMode, opts: &RecordOpts) -> (r: (CaptureMode, RecOptions))
    ensures
        r.0 == (match mode {
            RecordMode::Region => CaptureMode::Region,
            RecordMode::Window => CaptureMode::Window,
            RecordMode::Fullscreen => CaptureMode::Fullscreen,
        }),
        r.1 == (RecOptions {
            fps: opts.fps,
            capture_audio: opts.capture_audio,
            show_cursor: opts.show_cursor,
            out_path: opts.out_path,
            max_bytes: opts.max_bytes,
        }),
{
    let mode = match mode {
        RecordMode::Region => CaptureMode::Region,
        RecordMode::Window => CaptureMode::Window,
        RecordMode::Fullscreen => CaptureMode::Fullscreen,
    };
    (
        mode,
        RecOptions {
            fps: opts.fps,
            capture_audio: opts.capture_audio,
            show_cursor: opts.show_cursor,
            out_path: opts.out_path.clone(),
            max_bytes: opts.max_bytes,
        },
    )
}

/// Takes in how the start of a recording ended.
pub fn record_begin(outcome: Result<RecBegin, String>) -> (r: Result<BeginOutcome, String>)
    ensures
        r == (match outcome {
            Ok(RecBegin::Started { width, height }) => Ok::<BeginOutcome, String>(
                BeginOutcome::Started { width, height },
            ),
            Ok(RecBegin::Cancelled) => Ok(BeginOutcome::Cancelled),
            Ok(RecBegin::Busy) => Ok(BeginOutcome::Busy),
            Err(e) => Err(e),
        }),
{
    match outcome {
        Ok(RecBegin::Started { width, height }) => Ok(BeginOutcome::Started { width, height }),
        Ok(RecBegin::Cancelled) => Ok(BeginOutcome::Cancelled),
        Ok(RecBegin::Busy) => Ok(BeginOutcome::Busy),
        Err(e) => Err(e),
    }
}

/// Takes in how the end of a recording went.
pub fn record_stop(outcome: Result<RecResult, String>) -> (r: Result<RecordResult, String>)
    ensures
        r == (match outcome {
            Ok(res) => Ok::<RecordResult, String>(
                RecordResult {
                    duration_ms: res.duration_ms,
                    bytes: res.bytes,
                    width: res.width,
                    height: res.height,
                    reason: reason_of(res.reason),
                },
            ),
            Err(e) => Err(e),
        }),
{
    match outcome {
        Ok(res) => Ok(
            RecordResult {
                duration_ms: res.duration_ms,
                bytes: res.bytes,
                width: res.width,
                height: res.height,
                reason: reason(res.reason),
            },
        ),
        Err(e) => Err(e),
    }
}

/// How a recording stands, in the client's terms.
pub fn record_status(s: &RecStatus) -> (r: RecordStatus)
    ensures
        r == (RecordStatus {
            state: state_of(s.state),
            reason: reason_of(s.reason),
            elapsed_ms: s.elapsed_ms,
            bytes: s.bytes,
            width: s.width,
            height: s.height,
        }),
{
    let state = match s.state {
        RecState::Recording => RecordState::Recording,
        RecState::Paused => RecordState::Paused,
        RecState::Finishing => RecordState::Finishing,
        RecState::Stopped => RecordState::Stopped,
        RecState::Failed => RecordState::Failed,
        RecState::Idle => RecordState::Idle,
    };
    RecordStatus {
        state,
        reason: reason(s.reason),
        elapsed_ms: s.elapsed_ms,
        bytes: s.bytes,
        width: s.width,
        height: s.height,
    }
}

/// States and reasons of the Windows part keep apart in the client's terms.
pub proof fn law_states_and_reasons_keep_apart(s1: RecState, s2: RecState, r1: RecReason, r2: RecReason)
    ensures
        state_of(s1) == state_of(s2) ==> s1 == s2,
        reason_of(r1) == reason_of(r2) ==> r1 == r2,
{
}

} // verus!
