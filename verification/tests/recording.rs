use teil_ing::effect::Effect;
use teil_ing::mode::CaptureMode;
use teil_ing::recording;
use teil_ing::recording::{
    native, BeginOutcome, MenuCommand, Phase, RecordMode, RecordResult, RecordState, RecordStatus,
    Session, StopReason, VideoPrefs,
};

fn text(s: &str) -> String {
    s.to_string()
}

fn session(phase: Phase) -> Option<Session> {
    Some(Session {
        mode: CaptureMode::Window,
        phase,
        out_path: text("/r/a.mp4"),
        filename: text("a.mp4"),
        elapsed_ms: 65_000,
        bytes: 77,
        upload: None,
    })
}

const PHASES: [Phase; 5] =
    [Phase::Starting, Phase::Recording, Phase::Paused, Phase::Stopping, Phase::Uploading];

fn status(state: RecordState, elapsed_ms: u64) -> RecordStatus {
    RecordStatus { state, reason: StopReason::Unset, elapsed_ms, bytes: 5, width: 2, height: 4 }
}

#[test]
fn recordings_start_in_the_starting_phase() {
    let mut slot = None;
    let step = recording::begin_at(&mut slot, true, "window", true, "/cache/recordings/", "T");
    assert_eq!(step.result, Ok(()));
    assert_eq!(step.effects, vec![Effect::EmitState, Effect::HideWindows]);
    let s = slot.unwrap();
    assert_eq!((s.mode, s.phase), (CaptureMode::Window, Phase::Starting));
    assert_eq!(s.filename, "recording-T.mp4");
    assert_eq!(s.out_path, "/cache/recordings/recording-T.mp4");
    assert_eq!((s.elapsed_ms, s.bytes, s.upload), (0, 0, None));
}

#[test]
fn recordings_are_named_after_the_present_time() {
    let mut slot = None;
    recording::begin(&mut slot, true, "region", true, "/r/");
    let s = slot.unwrap();
    assert!(s.filename.starts_with("recording-2"));
    assert_eq!(s.filename.len(), "recording-2026-07-20_15-30-45.mp4".len());
    assert_eq!(s.out_path, format!("/r/{}", s.filename));
}

#[test]
fn recordings_are_refused_in_order() {
    let refused = |supported: bool, mode: &str, permitted: bool, busy: bool| {
        let mut slot = if busy { session(Phase::Recording) } else { None };
        let step = recording::begin_at(&mut slot, supported, mode, permitted, "/r/", "T");
        assert_eq!(slot.is_some(), busy);
        (step.result.unwrap_err(), step.effects)
    };
    assert_eq!(
        refused(false, "x", false, true),
        (text("Screen recording is not supported on this platform yet."), vec![])
    );
    assert_eq!(refused(true, "x", false, true), (text("Unknown recording mode: x"), vec![]));
    assert_eq!(
        refused(true, "region", false, true),
        (text("Screen Recording permission is required."), vec![Effect::ShowMain])
    );
    assert_eq!(
        refused(true, "region", true, true),
        (text("A recording is already in progress."), vec![])
    );
}

#[test]
fn windows_get_time_to_disappear() {
    assert_eq!(recording::settle_delay_ms(false, false), 0);
    assert_eq!(recording::settle_delay_ms(true, false), 200);
    assert_eq!(recording::settle_delay_ms(false, true), 200);
}

#[test]
fn recorders_are_asked_for_what_the_user_wants() {
    let prefs = |video_fps: u32| VideoPrefs {
        video_fps,
        video_capture_audio: true,
        video_show_cursor: false,
    };
    let o = recording::record_opts(&session(Phase::Starting), &prefs(60));
    assert_eq!((o.fps, o.capture_audio, o.show_cursor), (60, true, false));
    assert_eq!((o.max_bytes, o.out_path.as_str()), (503_316_480, "/r/a.mp4"));
    assert_eq!(recording::record_opts(&None, &prefs(25)).fps, 30);
    assert_eq!(recording::record_opts(&None, &prefs(30)).out_path, "");
    for (mode, native, code) in [
        (CaptureMode::Region, RecordMode::Region, 0),
        (CaptureMode::Window, RecordMode::Window, 1),
        (CaptureMode::Fullscreen, RecordMode::Fullscreen, 2),
    ] {
        assert_eq!(recording::record_mode(mode), native);
        assert_eq!(native.code(), code);
    }
}

#[test]
fn recordings_stop_below_the_limit_of_the_server() {
    assert_eq!(recording::MAX_BYTES, 480 * 1024 * 1024);
    assert!(recording::MAX_BYTES < recording::SERVER_CAP);
}

#[test]
fn started_recorders_run() {
    let mut slot = session(Phase::Starting);
    let effects =
        recording::run_begin(&mut slot, Ok(BeginOutcome::Started { width: 2, height: 4 }), true);
    assert_eq!(effects, vec![Effect::CreateTray, Effect::StartTick, Effect::EmitState]);
    assert_eq!(slot, session(Phase::Recording));
}

#[test]
fn recorders_that_do_not_start_end_the_session() {
    let run = |outcome: Result<BeginOutcome, String>, permitted: bool| {
        let mut slot = session(Phase::Starting);
        let effects = recording::run_begin(&mut slot, outcome, permitted);
        assert!(slot.is_none());
        effects
    };
    assert_eq!(
        run(Ok(BeginOutcome::Cancelled), true),
        vec![Effect::StopTick, Effect::EmitState]
    );
    assert_eq!(
        run(Ok(BeginOutcome::Busy), true),
        vec![
            Effect::StopTick,
            Effect::EmitState,
            Effect::Failure(text("A recording is already in progress.")),
        ]
    );
    assert_eq!(
        run(Err(text("e")), true)[2],
        Effect::Failure(text("Recording failed: e"))
    );
    assert_eq!(
        run(Err(text("e")), false)[2],
        Effect::Failure(text(
            "Screen Recording permission is required. Grant it in System Settings → Privacy & Security, then restart the app."
        ))
    );
}

#[test]
fn the_state_is_reported() {
    let r = recording::status(true, &None);
    assert_eq!((r.supported, r.phase, r.mode), (true, "idle", None));
    assert_eq!((r.elapsed_ms, r.bytes_written, r.upload_sent, r.upload_total), (0, 0, None, None));
    let mut slot = session(Phase::Uploading);
    slot.as_mut().unwrap().upload = Some((3, 9));
    let r = recording::status(false, &slot);
    assert_eq!((r.supported, r.phase, r.mode), (false, "uploading", Some("window")));
    assert_eq!((r.elapsed_ms, r.bytes_written), (65_000, 77));
    assert_eq!((r.upload_sent, r.upload_total), (Some(3), Some(9)));
    let names: Vec<&str> = PHASES.iter().map(|p| p.as_str()).collect();
    assert_eq!(names, vec!["starting", "recording", "paused", "stopping", "uploading"]);
    assert!(recording::is_active(&slot));
    assert!(!recording::is_active(&None));
}

#[test]
fn only_a_running_recording_is_paused() {
    for phase in PHASES {
        assert_eq!(recording::pause(&session(phase)).is_ok(), phase == Phase::Recording);
        assert_eq!(recording::resume(&session(phase)).is_ok(), phase == Phase::Paused);
    }
    assert_eq!(recording::pause(&None), Err(text("No active recording to pause.")));
    assert_eq!(recording::resume(&None), Err(text("No paused recording to resume.")));
}

#[test]
fn pausing_and_resuming_shows_in_the_tray() {
    let mut slot = session(Phase::Recording);
    let step = recording::pause_done(&mut slot, Ok(()));
    assert_eq!(step.result, Ok(()));
    assert_eq!(
        step.effects,
        vec![
            Effect::PauseLabel(text("Resume")),
            Effect::TrayIcon { paused: true },
            Effect::TrayTitle(text("⏸ 1:05")),
            Effect::EmitState,
        ]
    );
    assert_eq!(slot, session(Phase::Paused));
    let step = recording::resume_done(&mut slot, Ok(()));
    assert_eq!(
        step.effects,
        vec![
            Effect::PauseLabel(text("Pause")),
            Effect::TrayIcon { paused: false },
            Effect::TrayTitle(text("1:05")),
            Effect::EmitState,
        ]
    );
    assert_eq!(slot, session(Phase::Recording));
}

#[test]
fn a_recorder_that_does_not_pause_changes_nothing() {
    let mut slot = session(Phase::Recording);
    let step = recording::pause_done(&mut slot, Err(text("busy")));
    assert_eq!((step.result, step.effects), (Err(text("busy")), vec![]));
    assert_eq!(slot, session(Phase::Recording));
    let mut slot = session(Phase::Paused);
    let step = recording::resume_done(&mut slot, Err(text("busy")));
    assert_eq!((step.result, step.effects), (Err(text("busy")), vec![]));
    assert_eq!(slot, session(Phase::Paused));
}

#[test]
fn the_first_caller_stops_the_recording() {
    for phase in PHASES {
        let live = phase == Phase::Recording || phase == Phase::Paused;
        let mut slot = session(phase);
        assert_eq!(recording::begin_stopping(&mut slot), live);
        assert!(!recording::begin_stopping(&mut slot));
        assert_eq!(slot, session(if live { Phase::Stopping } else { phase }));
    }
    let mut slot = session(Phase::Paused);
    let step = recording::stop(&mut slot);
    assert_eq!(
        step.effects,
        vec![Effect::StopTick, Effect::DisableMenu, Effect::TrayTitle(text("Saving…"))]
    );
    assert_eq!(recording::stop(&mut slot).result, Err(text("No active recording to stop.")));
    assert_eq!(recording::cancel(&mut slot).result, Err(text("No active recording to discard.")));
    assert_eq!(recording::stop(&mut None).result, Err(text("No active recording to stop.")));
}

#[test]
fn stopped_recordings_are_uploaded() {
    let res = RecordResult {
        duration_ms: 1,
        bytes: 2,
        width: 3,
        height: 4,
        reason: StopReason::User,
    };
    let mut slot = session(Phase::Stopping);
    let done = recording::stop_done(&mut slot, Ok(res));
    assert_eq!(done.effects, vec![Effect::RemoveTray, Effect::EmitState]);
    assert_eq!(slot, session(Phase::Uploading));
    let v = done.video.unwrap();
    assert_eq!((v.path.as_str(), v.filename.as_str()), ("/r/a.mp4", "a.mp4"));
    assert_eq!((v.duration_ms, v.width, v.height), (1, 3, 4));
    assert_eq!(v.copy(), v);
    assert!(recording::upload_recording(&None, &res).is_none());
}

#[test]
fn recordings_that_cannot_be_saved_end_the_session() {
    let mut slot = session(Phase::Stopping);
    let done = recording::stop_done(&mut slot, Err(text("disk")));
    assert!(slot.is_none() && done.video.is_none());
    assert_eq!(
        done.effects,
        vec![
            Effect::RemoveTray,
            Effect::StopTick,
            Effect::EmitState,
            Effect::Failure(text("Recording failed: disk")),
        ]
    );
}

#[test]
fn discarded_recordings_are_deleted() {
    let mut slot = session(Phase::Recording);
    let step = recording::cancel(&mut slot);
    assert_eq!(step.effects, vec![Effect::StopTick, Effect::DisableMenu]);
    let effects = recording::cancel_done(&mut slot);
    assert!(slot.is_none());
    assert_eq!(
        effects,
        vec![
            Effect::RemoveTray,
            Effect::DeleteFile(text("/r/a.mp4")),
            Effect::StopTick,
            Effect::MainTooltip(text("teil.ing")),
            Effect::EmitState,
        ]
    );
    assert_eq!(recording::cancel_done(&mut None).len(), 4);
    assert_eq!(recording::shutdown(&session(Phase::Starting)), Some(text("/r/a.mp4")));
    assert_eq!(recording::shutdown(&None), None);
}

#[test]
fn times_are_shown_as_on_a_clock() {
    for (ms, shown) in [
        (0u64, "0:00"),
        (999, "0:00"),
        (1000, "0:01"),
        (65_000, "1:05"),
        (600_000, "10:00"),
        (3_599_999, "59:59"),
        (3_600_000, "1:00:00"),
        (36_061_000, "10:01:01"),
    ] {
        assert_eq!(recording::format_elapsed(ms), shown);
    }
}

#[test]
fn polls_update_the_timer_only_where_it_changes() {
    let mut slot = session(Phase::Recording);
    let mut title = String::new();
    let tick = recording::tick_once(&mut slot, &mut title, &status(RecordState::Recording, 2100));
    assert!(tick.goes_on);
    assert_eq!(
        tick.effects,
        vec![
            Effect::TrayTooltip(text("Recording 0:02 — click to stop, right-click for options")),
            Effect::TrayTitle(text("0:02")),
            Effect::EmitState,
        ]
    );
    assert_eq!(title, "0:02");
    let s = slot.as_ref().unwrap();
    assert_eq!((s.elapsed_ms, s.bytes), (2100, 5));
    let tick = recording::tick_once(&mut slot, &mut title, &status(RecordState::Recording, 2600));
    assert_eq!(tick.effects, vec![Effect::EmitState]);
    let tick = recording::tick_once(&mut slot, &mut title, &status(RecordState::Paused, 2600));
    assert_eq!(tick.effects[1], Effect::TrayTitle(text("⏸ 0:02")));
}

#[test]
fn polls_end_with_the_recording() {
    for phase in PHASES {
        let live = phase == Phase::Recording || phase == Phase::Paused;
        assert_eq!(recording::polls(&session(phase)), live);
    }
    assert!(!recording::polls(&None));
    let mut title = text("0:01");
    let tick = recording::tick_once(
        &mut session(Phase::Recording),
        &mut title,
        &status(RecordState::Stopped, 0),
    );
    assert_eq!((tick.goes_on, tick.effects), (false, vec![Effect::Stop]));
    for state in [RecordState::Failed, RecordState::Idle] {
        let failed = RecordStatus { reason: StopReason::NoFrames, ..status(state, 0) };
        let tick = recording::tick_once(&mut None, &mut title, &failed);
        assert_eq!(
            (tick.goes_on, tick.effects),
            (false, vec![Effect::FailNative(StopReason::NoFrames)])
        );
    }
    assert_eq!(title, "0:01");
}

#[test]
fn failed_recordings_are_explained() {
    for (reason, message) in [
        (StopReason::WriterError, "The recording could not be written to disk."),
        (StopReason::NoFrames, "The recording captured no frames."),
        (StopReason::StreamError, "The recording stopped unexpectedly."),
        (StopReason::Unset, "The recording failed."),
        (StopReason::User, "The recording failed."),
    ] {
        let mut slot = session(Phase::Recording);
        let effects = recording::fail_native(&mut slot, reason);
        assert!(slot.is_none());
        assert_eq!(
            effects,
            vec![
                Effect::RemoveTray,
                Effect::StopTick,
                Effect::EmitState,
                Effect::Failure(text(message)),
            ]
        );
    }
}

#[test]
fn menu_entries_do_what_the_phase_allows() {
    let live = session(Phase::Recording);
    assert_eq!(recording::menu_command("rec-stop", &live), Some(MenuCommand::Stop));
    assert_eq!(recording::menu_command("rec-cancel", &live), Some(MenuCommand::Cancel));
    assert_eq!(recording::menu_command("rec-pause", &live), Some(MenuCommand::Pause));
    assert_eq!(
        recording::menu_command("rec-pause", &session(Phase::Paused)),
        Some(MenuCommand::Resume)
    );
    assert_eq!(recording::menu_command("quit", &live), None);
}

#[test]
fn platforms_without_a_recorder_say_so() {
    let message = text("Screen recording is not supported on this platform yet.");
    let opts = recording::record_opts(
        &None,
        &VideoPrefs { video_fps: 30, video_capture_audio: false, video_show_cursor: true },
    );
    assert_eq!(native::record_begin(RecordMode::Region, &opts), Err(message.clone()));
    assert_eq!(native::record_pause(), Err(message.clone()));
    assert_eq!(native::record_resume(), Err(message.clone()));
    assert_eq!(native::record_stop(), Err(message));
    native::record_cancel();
    assert_eq!(native::record_status().state, RecordState::Idle);
}

/// What there is of a recording beside its session: the tray icon, and the poll.
fn show(shown: &mut (bool, bool), effects: Vec<Effect>) {
    for effect in effects {
        match effect {
            Effect::CreateTray => shown.0 = true,
            Effect::RemoveTray => shown.0 = false,
            Effect::StartTick => shown.1 = true,
            Effect::StopTick => shown.1 = false,
            _ => {}
        }
    }
}

#[test]
fn tray_and_poll_follow_the_session() {
    let started = || Ok(BeginOutcome::Started { width: 2, height: 4 });
    let res = || RecordResult {
        duration_ms: 1,
        bytes: 2,
        width: 3,
        height: 4,
        reason: StopReason::User,
    };
    for way in ["stop", "lost", "cancel", "fail"] {
        let mut shown = (false, false);
        let mut slot = None;
        show(&mut shown, recording::begin_at(&mut slot, true, "region", true, "/r/", "T").effects);
        assert_eq!(shown, (false, false));
        show(&mut shown, recording::run_begin(&mut slot, started(), true));
        assert_eq!(shown, (true, true));
        show(&mut shown, recording::pause_done(&mut slot, Ok(())).effects);
        assert_eq!(shown, (true, true));
        match way {
            "stop" | "lost" => {
                show(&mut shown, recording::stop(&mut slot).effects);
                assert_eq!(shown, (true, false));
                let result = if way == "stop" { Ok(res()) } else { Err(text("e")) };
                show(&mut shown, recording::stop_done(&mut slot, result).effects);
            }
            "cancel" => {
                show(&mut shown, recording::cancel(&mut slot).effects);
                assert_eq!(shown, (true, false));
                show(&mut shown, recording::cancel_done(&mut slot));
            }
            _ => show(&mut shown, recording::fail_native(&mut slot, StopReason::Unset)),
        }
        assert_eq!(shown, (false, false));
        assert_eq!(recording::is_active(&slot), way == "stop");
    }
}

#[test]
fn no_second_recording_starts_beside_the_first() {
    for phase in PHASES {
        let mut slot = session(phase);
        assert!(recording::begin(&mut slot, true, "region", true, "/r/").result.is_err());
        assert_eq!(slot, session(phase));
    }
}
