use teil_ing::capture_macos;
use teil_ing::capture_macos::{CaptureAnswer, RawResult, RawStatus};
use teil_ing::capture_windows;
use teil_ing::mode::CaptureMode;
use teil_ing::recording::{
    BeginOutcome, RecordMode, RecordOpts, RecordResult, RecordState, RecordStatus, StopReason,
};
use teil_ing::teil_capture_windows::recorder::{
    RecBegin, RecReason, RecResult, RecState, RecStatus,
};

fn text(s: &str) -> String {
    s.to_string()
}

fn answer(status: i32, png: Option<Vec<u8>>, error: Option<&str>) -> CaptureAnswer {
    CaptureAnswer { status, png, error: error.map(text) }
}

#[test]
fn captures_of_macos_are_read() {
    assert_eq!(capture_macos::run_capture(answer(0, Some(vec![1]), None)), Ok(Some(vec![1])));
    for png in [None, Some(vec![])] {
        assert_eq!(
            capture_macos::run_capture(answer(0, png, None)),
            Err(text("Capture returned an empty image."))
        );
    }
    assert_eq!(capture_macos::run_capture(answer(1, None, None)), Ok(None));
    assert_eq!(capture_macos::run_capture(answer(2, None, Some("e"))), Err(text("e")));
    assert_eq!(
        capture_macos::run_capture(answer(-1, None, None)),
        Err(text("Unknown capture error."))
    );
    assert_eq!(capture_macos::capture_interactive("region"), Ok(CaptureMode::Region));
    assert_eq!(
        capture_macos::capture_interactive("x"),
        Err(text("Unknown capture mode: x"))
    );
}

fn raw(state: i32, reason: i32) -> RawStatus {
    RawStatus { state, reason, elapsed_ms: 5, bytes: 6, width: 7, height: 8 }
}

#[test]
fn states_of_macos_are_read() {
    let states = [
        RecordState::Idle,
        RecordState::Recording,
        RecordState::Paused,
        RecordState::Finishing,
        RecordState::Stopped,
        RecordState::Failed,
        RecordState::Idle,
    ];
    for (code, state) in states.into_iter().enumerate() {
        assert_eq!(capture_macos::record_status(&raw(code as i32, 0)).state, state);
    }
    let reasons = [
        StopReason::Unset,
        StopReason::User,
        StopReason::SourceClosed,
        StopReason::SizeLimit,
        StopReason::StreamError,
        StopReason::WriterError,
        StopReason::NoFrames,
        StopReason::Cancelled,
        StopReason::Unset,
    ];
    for (code, reason) in reasons.into_iter().enumerate() {
        assert_eq!(capture_macos::stop_reason(code as i32), reason);
    }
    let negative = RawStatus { elapsed_ms: -1, width: -2, height: i32::MIN, ..raw(1, -9) };
    assert_eq!(
        capture_macos::record_status(&negative),
        RecordStatus {
            state: RecordState::Recording,
            reason: StopReason::Unset,
            elapsed_ms: 0,
            bytes: 6,
            width: 0,
            height: 0,
        }
    );
}

#[test]
fn recordings_of_macos_start_with_their_size() {
    let now = raw(1, 0);
    assert_eq!(
        capture_macos::record_begin(0, None, &now),
        Ok(BeginOutcome::Started { width: 7, height: 8 })
    );
    assert_eq!(capture_macos::record_begin(1, None, &now), Ok(BeginOutcome::Cancelled));
    assert_eq!(capture_macos::record_begin(3, None, &now), Ok(BeginOutcome::Busy));
    assert_eq!(capture_macos::record_begin(2, Some(text("e")), &now), Err(text("e")));
    assert_eq!(
        capture_macos::record_begin(2, None, &now),
        Err(text("Unknown recording error."))
    );
    assert_eq!(capture_macos::checked_path(Some(text("/p"))), Ok(text("/p")));
    assert_eq!(capture_macos::checked_path(None), Err(text("Invalid recording path.")));
}

#[test]
fn recordings_of_macos_end_with_a_result() {
    assert_eq!(capture_macos::record_pause(0), Ok(()));
    assert_eq!(capture_macos::record_pause(2), Err(text("No active recording to pause.")));
    assert_eq!(capture_macos::record_resume(0), Ok(()));
    assert_eq!(capture_macos::record_resume(2), Err(text("No paused recording to resume.")));
    let r = RawResult { duration_ms: -4, bytes: 3, width: 2, height: 1, reason: 3 };
    assert_eq!(
        capture_macos::record_stop(0, &r, None),
        Ok(RecordResult {
            duration_ms: 0,
            bytes: 3,
            width: 2,
            height: 1,
            reason: StopReason::SizeLimit,
        })
    );
    assert_eq!(
        capture_macos::record_stop(2, &r, None),
        Err(text("The recording could not be saved."))
    );
    assert_eq!(capture_macos::record_stop(2, &r, Some(text("e"))), Err(text("e")));
}

#[test]
fn recordings_on_windows_are_asked_for() {
    let opts = RecordOpts {
        fps: 60,
        capture_audio: true,
        show_cursor: false,
        max_bytes: 9,
        out_path: text("o"),
    };
    for (mode, capture) in [
        (RecordMode::Region, CaptureMode::Region),
        (RecordMode::Window, CaptureMode::Window),
        (RecordMode::Fullscreen, CaptureMode::Fullscreen),
    ] {
        let (m, o) = capture_windows::record_request(mode, &opts);
        assert_eq!(m, capture);
        assert_eq!((o.fps, o.capture_audio, o.show_cursor), (60, true, false));
        assert_eq!((o.out_path.as_str(), o.max_bytes), ("o", 9));
    }
    assert_eq!(capture_windows::capture_interactive("window"), Ok(CaptureMode::Window));
    assert_eq!(
        capture_windows::capture_interactive("x"),
        Err(text("Unknown capture mode: x"))
    );
}

#[test]
fn recordings_on_windows_are_read() {
    assert_eq!(
        capture_windows::record_begin(Ok(RecBegin::Started { width: 1, height: 2 })),
        Ok(BeginOutcome::Started { width: 1, height: 2 })
    );
    assert_eq!(
        capture_windows::record_begin(Ok(RecBegin::Cancelled)),
        Ok(BeginOutcome::Cancelled)
    );
    assert_eq!(capture_windows::record_begin(Ok(RecBegin::Busy)), Ok(BeginOutcome::Busy));
    assert_eq!(capture_windows::record_begin(Err(text("e"))), Err(text("e")));
    let res = RecResult { duration_ms: 1, bytes: 2, width: 3, height: 4, reason: RecReason::User };
    assert_eq!(
        capture_windows::record_stop(Ok(res)),
        Ok(RecordResult {
            duration_ms: 1,
            bytes: 2,
            width: 3,
            height: 4,
            reason: StopReason::User,
        })
    );
    assert_eq!(capture_windows::record_stop(Err(text("e"))), Err(text("e")));
}

#[test]
fn states_and_reasons_of_windows_keep_apart() {
    let states = [
        (RecState::Idle, RecordState::Idle),
        (RecState::Recording, RecordState::Recording),
        (RecState::Paused, RecordState::Paused),
        (RecState::Finishing, RecordState::Finishing),
        (RecState::Stopped, RecordState::Stopped),
        (RecState::Failed, RecordState::Failed),
    ];
    for (state, expected) in states {
        let s = RecStatus {
            state,
            reason: RecReason::NoFrames,
            elapsed_ms: 1,
            bytes: 2,
            width: 3,
            height: 4,
        };
        let r = capture_windows::record_status(&s);
        assert_eq!((r.state, r.reason), (expected, StopReason::NoFrames));
        assert_eq!((r.elapsed_ms, r.bytes, r.width, r.height), (1, 2, 3, 4));
    }
    for (reason, expected) in [
        (RecReason::Unset, StopReason::Unset),
        (RecReason::User, StopReason::User),
        (RecReason::SourceClosed, StopReason::SourceClosed),
        (RecReason::SizeLimit, StopReason::SizeLimit),
        (RecReason::StreamError, StopReason::StreamError),
        (RecReason::WriterError, StopReason::WriterError),
        (RecReason::NoFrames, StopReason::NoFrames),
        (RecReason::Cancelled, StopReason::Cancelled),
    ] {
        assert_eq!(capture_windows::reason(reason), expected);
    }
}
