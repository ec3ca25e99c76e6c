//! Capture and recording on macOS: what the answers of the native library mean.

use vstd::math::max;
use vstd::prelude::*;

use crate::mode::CaptureMode;
use crate::recording::{
    BeginOutcome, RecordResult, RecordState, RecordStatus, StopReason,
};
use crate::teil_capture_windows::captured;
use crate::text::join;

verus! {

/// The native library did what it was asked for.
pub const STATUS_OK: i32 = 0;

/// The user cancelled.
pub const STATUS_CANCELLED: i32 = 1;

/// A recording is already running.
pub const STATUS_BUSY: i32 = 3;

/// What the native library answers to a capture: a status, the captured file where it gave
/// one, and an error's text where it gave one.
#[derive(Debug, PartialEq, Eq)]
pub struct CaptureAnswer {
    pub status: i32,
    pub png: Option<Vec<u8>>,
    pub error: Option<String>,
}

/// An error's text, or what is said in its place.
pub open spec fn error_or(error: Option<String>, fallback: Seq<char>) -> Seq<char> {
    match error {
        Some(e) => e@,
        None => fallback,
    }
}

/// An error's text, or what is said in its place.
pub fn take_err(error: Option<String>, fallback: &str) -> (r: String)
    ensures
        r@ == error_or(error, fallback@),
{
    match error {
        Some(e) => e,
        None => fallback.to_owned(),
    }
}

/// Takes in the answer to a capture: a file, nothing where the user cancelled, or an error.
/// A file without bytes is an error.
pub fn run_capture(answer: CaptureAnswer) -> (r: Result<Option<Vec<u8>>, String>)
    ensures
        captured(r) == (if answer.status == 0 {
            match answer.png {
                Some(png) if png@.len() > 0 => Ok(Some(png@)),
                _ => Err("Capture returned an empty image."@),
            }
        } else if answer.status == 1 {
            Ok(None)
        } else {
            Err(error_or(answer.error, "Unknown capture error."@))
        }),
{
    if answer.status == STATUS_OK {
        match answer.png {
            Some(png) if png.len() > 0 => Ok(Some(png)),
            _ => Err("Capture returned an empty image.".to_owned()),
        }
    } else if answer.status == STATUS_CANCELLED {
        Ok(None)
    } else {
        Err(take_err(answer.error, "Unknown capture error."))
    }
}

/// Which capture to run for a mode.
pub fn capture_interactive(mode: &str) -> (r: Result<CaptureMode, String>)
    ensures
        match r {
            Ok(m) => CaptureMode::named(mode@) == Some(m),
            Err(e) => CaptureMode::named(mode@) is None && e@ == "Unknown capture mode: "@ + mode@,
        },
{
    match CaptureMode::parse(mode) {
        Some(m) => Ok(m),
        None => Err(join("Unknown capture mode: ", mode)),
    }
}

// ---- Recording -----------------------------------------------------------------------

/// Why a recording ended, by the native library's number for it.
pub open spec fn reason_of(raw: i32) -> StopReason {
    match raw {
        1 => StopReason::User,
        2 => StopReason::SourceClosed,
        3 => StopReason::SizeLimit,
        4 => StopReason::StreamError,
        5 => StopReason::WriterError,
        6 => StopReason::NoFrames,
        7 => StopReason::Cancelled,
        _ => StopReason::Unset,
    }
}

/// Why a recording ended, by the native library's number for it.
pub fn stop_reason(raw: i32) -> (r: StopReason)
    ensures
        r == reason_of(raw),
{
    match raw {
        1 => StopReason::User,
        2 => StopReason::SourceClosed,
        3 => StopReason::SizeLimit,
        4 => StopReason::StreamError,
        5 => StopReason::WriterError,
        6 => StopReason::NoFrames,
        7 => StopReason::Cancelled,
        _ => StopReason::Unset,
    }
}

/// How a recording stands, by the native library's number for it.
pub open spec fn state_of(raw: i32) -> RecordState {
    match raw {
        1 => RecordState::Recording,
        2 => RecordState::Paused,
        3 => RecordState::Finishing,
        4 => RecordState::Stopped,
        5 => RecordState::Failed,
        _ => RecordState::Idle,
    }
}

fn count(raw: i64) -> (r: u64)
    ensures
        r == max(raw as int, 0),
{
    if raw < 0 {
        0
    } else {
        raw as u64
    }
}

fn extent(raw: i32) -> (r: u32)
    ensures
        r == max(raw as int, 0),
{
    if raw < 0 {
        0
    } else {
        raw as u32
    }
}

/// The numbers in which the native library tells how a recording stands.
#[derive(Clone, Copy, Debug, PartialEq, Eq, Structural)]
pub struct RawStatus {
    pub state: i32,
    pub reason: i32,
    pub elapsed_ms: i64,
    pub bytes: u64,
    pub width: i32,
    pub height: i32,
}

/// How a recording stands. Numbers below zero count as zero.
pub open spec fn status_of(raw: RawStatus) -> RecordStatus {
    RecordStatus {
        state: state_of(raw.state),
        reason: reason_of(raw.reason),
        elapsed_ms: max(raw.elapsed_ms as int, 0) as u64,
        bytes: raw.bytes,
        width: max(raw.width as int, 0) as u32,
        height: max(raw.height as int, 0) as u32,
    }
}

/// How a recording stands.
pub fn record_status(raw: &RawStatus) -> (r: RecordStatus)
    ensures
        r == status_of(*raw),
{
    let state = match raw.state {
        1 => RecordState::Recording,
        2 => RecordState::Paused,
        3 => RecordState::Finishing,
        4 => RecordState::Stopped,
        5 => RecordState::Failed,
        _ => RecordState::Idle,
    };
    RecordStatus {
        state,
        reason: stop_reason(raw.reason),
        elapsed_ms: count(raw.elapsed_ms),
        bytes: raw.bytes,
        width: extent(raw.width),
        height: extent(raw.height),
    }
}

/// Takes in the answer to the start of a recording. `now` is how the recording then stands;
/// its size is taken from there.
pub fn record_begin(status: i32, error: Option<String>, now: &RawStatus) -> (r: Result<
    BeginOutcome,
    String,
>)
    ensures
        if status == 0 {
            r == Ok::<BeginOutcome, String>(
                BeginOutcome::Started {
                    width: status_of(*now).width,
                    height: status_of(*now).height,
                },
            )
        } else if status == 1 {
            r == Ok::<BeginOutcome, String>(BeginOutcome::Cancelled)
        } else if status == 3 {
            r == Ok::<BeginOutcome, String>(BeginOutcome::Busy)
        } else {
            r matches Err(e) && e@ == error_or(error, "Unknown recording error."@)
        },
{
    if status == STATUS_OK {
        let s = record_status(now);
        Ok(BeginOutcome::Started { width: s.width, height: s.height })
    } else if status == STATUS_CANCELLED {
        Ok(BeginOutcome::Cancelled)
    } else if status == STATUS_BUSY {
        Ok(BeginOutcome::Busy)
    } else {
        Err(take_err(error, "Unknown recording error."))
    }
}

/// Whether a path can be handed to the native library.
pub fn checked_path(path: Option<String>) -> (r: Result<String, String>)
    ensures
        match path {
            Some(p) => r == Ok::<String, String>(p),
            None => r matches Err(e) && e@ == "Invalid recording path."@,
        },
{
    match path {
        Some(p) => Ok(p),
        None => Err("Invalid recording path.".to_owned()),
    }
}

/// Takes in the answer to a pause.
pub fn record_pause(status: i32) -> (r: Result<(), String>)
    ensures
        match r {
            Ok(_) => status == 0,
            Err(e) => status != 0 && e@ == "No active recording to pause."@,
        },
{
    if status == STATUS_OK {
        Ok(())
    } else {
        Err("No active recording to pause.".to_owned())
    }
}

/// Takes in the answer to a resumption.
pub fn record_resume(status: i32) -> (r: Result<(), String>)
    ensures
        match r {
            Ok(_) => status == 0,
            Err(e) => status != 0 && e@ == "No paused recording to resume."@,
        },
{
    if status == STATUS_OK {
        Ok(())
    } else {
        Err("No paused recording to resume.".to_owned())
    }
}

/// The numbers in which the native library tells of a finished recording.
#[derive(Clone, Copy, Debug, PartialEq, Eq, Structural)]
pub struct RawResult {
    pub duration_ms: i64,
    pub bytes: u64,
    pub width: i32,
    pub height: i32,
    pub reason: i32,
}

/// Takes in the answer to the end of a recording. Numbers below zero count as zero.
pub fn record_stop(status: i32, raw: &RawResult, error: Option<String>) -> (r: Result<
    RecordResult,
    String,
>)
    ensures
        if status == 0 {
            r == Ok::<RecordResult, String>(
                RecordResult {
                    duration_ms: max(raw.duration_ms as int, 0) as u64,
                    bytes: raw.bytes,
                    width: max(raw.width as int, 0) as u32,
                    height: max(raw.height as int, 0) as u32,
                    reason: reason_of(raw.reason),
                },
            )
        } else {
            r matches Err(e) && e@ == error_or(error, "The recording could not be saved."@)
        },
{
    if status == STATUS_OK {
        Ok(
            RecordResult {
                duration_ms: count(raw.duration_ms),
                bytes: raw.bytes,
                width: extent(raw.width),
                height: extent(raw.height),
                reason: stop_reason(raw.reason),
            },
        )
    } else {
        Err(take_err(error, "The recording could not be saved."))
    }
}

} // verus!
