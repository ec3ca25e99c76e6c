//! The recorder of a platform that has none.

use vstd::prelude::*;

use super::{BeginOutcome, RecordMode, RecordOpts, RecordResult, RecordState, RecordStatus, StopReason};

verus! {

const UNSUPPORTED: &'static str = "Screen recording is not supported on this platform yet.";

pub fn record_begin(_mode: RecordMode, _opts: &RecordOpts) -> (r: Result<BeginOutcome, String>)
    ensures
        r matches Err(e) && e@ == "Screen recording is not supported on this platform yet."@,
{
    Err(UNSUPPORTED.to_owned())
}

pub fn record_pause() -> (r: Result<(), String>)
    ensures
        r matches Err(e) && e@ == "Screen recording is not supported on this platform yet."@,
{
    Err(UNSUPPORTED.to_owned())
}

pub fn record_resume() -> (r: Result<(), String>)
    ensures
        r matches Err(e) && e@ == "Screen recording is not supported on this platform yet."@,
{
    Err(UNSUPPORTED.to_owned())
}

pub fn record_stop() -> (r: Result<RecordResult, String>)
    ensures
        r matches Err(e) && e@ == "Screen recording is not supported on this platform yet."@,
{
    Err(UNSUPPORTED.to_owned())
}

/// There is nothing to discard.
pub fn record_cancel() {
}

/// Nothing is ever recorded.
pub fn record_status() -> (r: RecordStatus)
    ensures
        r == (RecordStatus {
            state: RecordState::Idle,
            reason: StopReason::Unset,
            elapsed_ms: 0,
            bytes: 0,
            width: 0,
            height: 0,
        }),
{
    RecordStatus {
        state: RecordState::Idle,
        reason: StopReason::Unset,
        elapsed_ms: 0,
        bytes: 0,
        width: 0,
        height: 0,
    }
}

} // verus!
