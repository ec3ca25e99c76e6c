use teil_ing::teil_capture_windows::overlay::{Outcome, Rect};
use teil_ing::teil_capture_windows::recorder;
use teil_ing::teil_capture_windows::recorder::{
    BeginPlan, Candidate, Codec, EncoderPlan, FrameStep, MonitorRect, RecBegin, RecOptions, RecReason,
    RecResult, RecState, RecStatus, Selection, Shared, StartFailure, StopVerdict, Target,
};

const MS: u64 = 1_000_000;

fn rect(left: i32, top: i32, right: i32, bottom: i32) -> Rect {
    Rect { left, top, right, bottom }
}

fn opts(fps: u32) -> RecOptions {
    RecOptions {
        fps,
        capture_audio: true,
        show_cursor: true,
        out_path: "out.mp4".to_string(),
        max_bytes: 1000,
    }
}

fn target() -> Target {
    Target { crop: Some((10, 20, 110, 220)), dims: (100, 200), frame_rect: None }
}

fn start(fps: u32, now: u64) -> Shared {
    match recorder::record_begin(&None, Some(target()), &opts(fps), now) {
        BeginPlan::Start { shared, .. } => shared,
        other => panic!("{other:?}"),
    }
}

#[test]
fn dimensions_are_made_even() {
    for (n, even) in [(0u32, 2u32), (1, 2), (2, 2), (3, 2), (101, 100), (u32::MAX, u32::MAX - 1)] {
        assert_eq!(recorder::even_down(n), even);
    }
}

#[test]
fn monitors_have_a_size() {
    let m = recorder::monitor_info(rect(-10, 5, 90, 55));
    assert_eq!(m, MonitorRect { left: -10, top: 5, width: 100, height: 50 });
    assert_eq!(recorder::monitor_info(rect(5, 5, 0, 0)).width, 0);
}

const SCREEN: MonitorRect = MonitorRect { left: 100, top: 0, width: 801, height: 600 };

#[test]
fn monitors_are_recorded_whole_but_for_odd_edges() {
    let even = MonitorRect { left: 0, top: 0, width: 800, height: 600 };
    assert_eq!(
        recorder::fullscreen_target(&even),
        Target { crop: None, dims: (800, 600), frame_rect: None }
    );
    assert_eq!(
        recorder::fullscreen_target(&SCREEN),
        Target { crop: Some((0, 0, 800, 600)), dims: (800, 600), frame_rect: None }
    );
}

#[test]
fn regions_are_recorded_on_their_monitor() {
    assert_eq!(
        recorder::region_target(150, 40, 101, 60, &SCREEN),
        Target {
            crop: Some((50, 40, 150, 100)),
            dims: (100, 60),
            frame_rect: Some((150, 40, 100, 60)),
        }
    );
    // What lies left of the monitor or below it is left out.
    assert_eq!(
        recorder::region_target(50, 590, 101, 60, &SCREEN),
        Target {
            crop: Some((0, 590, 50, 600)),
            dims: (50, 10),
            frame_rect: Some((100, 590, 50, 10)),
        }
    );
}

#[test]
fn at_least_two_pixels_of_a_region_are_recorded() {
    for (x, y, w, h, crop) in [
        // A single column or row on the monitor.
        (50, 40, 51, 60, (0, 40, 2, 100)),
        (150, 599, 100, 60, (50, 599, 150, 601)),
        (150, 40, 1, 1, (50, 40, 52, 42)),
        // Nothing on the monitor.
        (-300, 40, 200, 60, (0, 40, 2, 100)),
        (0, 40, 50, 60, (0, 40, 2, 100)),
        (150, -80, 100, 60, (50, 0, 150, 2)),
        (950, 40, 100, 60, (850, 40, 852, 100)),
    ] {
        let t = recorder::region_target(x, y, w, h, &SCREEN);
        assert_eq!(t.crop, Some(crop));
        assert_eq!(t.dims, (crop.2 - crop.0, crop.3 - crop.1));
        assert_eq!(
            t.frame_rect,
            Some((x.max(100), y.max(0), t.dims.0 as i32, t.dims.1 as i32))
        );
        let region = Selection::Region { x, y, w, h, info: SCREEN };
        assert_eq!(recorder::resolve_target("region", &region), Ok(Some(t)));
    }
}

#[test]
fn windows_are_recorded_from_their_corner() {
    assert_eq!(
        recorder::window_target(rect(5, 5, 106, 206)),
        Target { crop: Some((0, 0, 100, 200)), dims: (100, 200), frame_rect: None }
    );
}

#[test]
fn targets_suit_their_mode() {
    let region = Selection::Region { x: 150, y: 40, w: 101, h: 60, info: SCREEN };
    let window = Selection::Window(rect(5, 5, 106, 206));
    assert_eq!(
        recorder::resolve_target("fullscreen", &Selection::Display(SCREEN)),
        Ok(Some(recorder::fullscreen_target(&SCREEN)))
    );
    assert_eq!(
        recorder::resolve_target("region", &region),
        Ok(Some(recorder::region_target(150, 40, 101, 60, &SCREEN)))
    );
    assert_eq!(
        recorder::resolve_target("window", &window),
        Ok(Some(recorder::window_target(rect(5, 5, 106, 206))))
    );
    assert_eq!(recorder::resolve_target("region", &Selection::Nothing), Ok(None));
    assert_eq!(recorder::resolve_target("region", &window), Ok(None));
    assert_eq!(
        recorder::resolve_target("video", &region),
        Err("Unknown recording mode: video".to_string())
    );
}

#[test]
fn picks_outside_of_the_list_are_errors() {
    assert_eq!(recorder::picked_window(&Outcome::Window(1), 2), Ok(Some(1)));
    assert_eq!(
        recorder::picked_window(&Outcome::Window(2), 2),
        Err("window pick out of range".to_string())
    );
    assert_eq!(recorder::picked_window(&Outcome::Cancelled, 2), Ok(None));
}

#[test]
fn bit_rates_follow_the_floating_point_formula() {
    for (w, h, fps) in [
        (2u32, 2u32, 30u32),
        (640, 480, 30),
        (1280, 720, 60),
        (1366, 768, 30),
        (1920, 1080, 30),
        (1920, 1080, 60),
        (2560, 1440, 60),
        (3840, 2160, 60),
        (1002, 998, 30),
        (5000, 500, 10),
    ] {
        let float = ((w as u64 * h as u64 * fps as u64) as f64 * 0.12).clamp(3_000_000.0, 32_000_000.0);
        assert_eq!(recorder::bitrate(w, h, fps), float as u32);
    }
    // Every size along a diagonal through the range in which no limit applies.
    for n in 900..2980u32 {
        let float = ((n as u64 * n as u64 * 30) as f64 * 0.12).clamp(3_000_000.0, 32_000_000.0);
        assert_eq!(recorder::bitrate(n, n, 30), float as u32);
    }
    assert_eq!(recorder::bitrate(1280, 720, 60), 6_635_520);
    assert_eq!(recorder::bitrate(2, 2, 30), 3_000_000);
    assert_eq!(recorder::bitrate(3840, 2160, 60), 32_000_000);
}

fn candidate(pid: u32, at: Option<(i32, i32)>, title: &str) -> Candidate {
    Candidate {
        pid: Some(pid),
        extent: at.map(|(x, y)| rect(x, y, x + 10, y + 10)),
        title: Some(title.to_string()),
    }
}

#[test]
fn picked_windows_are_found_by_place_then_by_title() {
    let list = vec![
        candidate(2, Some((0, 0)), "Notes"),
        candidate(1, Some((50, 50)), "Notes"),
        candidate(1, None, "Notes"),
        candidate(1, Some((2, -2)), "Other"),
    ];
    assert_eq!(recorder::find_wc_window(&list, 1, 0, 0, "Notes"), Ok(3));
    assert_eq!(recorder::find_wc_window(&list, 1, 9, 9, "Notes"), Ok(1));
    let none = Err("Could not resolve the selected window for recording.".to_string());
    assert_eq!(recorder::find_wc_window(&list, 3, 0, 0, "Notes"), none);
    assert_eq!(recorder::find_wc_window(&list, 1, 9, 9, "Unknown"), none);
    let untitled = vec![candidate(1, None, "")];
    assert_eq!(recorder::find_wc_window(&untitled, 1, 0, 0, ""), none);
}

#[test]
fn frames_are_turned_over() {
    let frame = vec![1, 2, 3, 4, 5, 6];
    assert_eq!(recorder::flip_rows(&frame, 2), vec![5, 6, 3, 4, 1, 2]);
    assert_eq!(recorder::flip_rows(&recorder::flip_rows(&frame, 3), 3), frame);
    assert_eq!(recorder::flip_rows(&vec![1, 2, 3, 4, 5], 2), vec![3, 4, 1, 2, 0]);
    assert_eq!(recorder::flip_rows(&vec![1, 2], 0), vec![0, 0]);
}

#[test]
fn recordings_are_planned() {
    match recorder::record_begin(&None, Some(target()), &opts(60), 5) {
        BeginPlan::Start { shared, encoder } => {
            assert_eq!(shared.state, RecState::Recording);
            assert_eq!(shared.reason, RecReason::Unset);
            assert_eq!((shared.fps, shared.dims, shared.started), (60, (100, 200), 5));
            assert_eq!(shared.crop, Some((10, 20, 110, 220)));
            assert_eq!(shared.out_path, "out.mp4");
            assert_eq!(shared.max_bytes, 1000);
            assert_eq!((shared.last_out_ts, shared.last_sent_raw_ts), (-1, i64::MIN));
            assert_eq!(
                encoder,
                EncoderPlan {
                    codec: Codec::H264,
                    audio: false,
                    width: 100,
                    height: 200,
                    fps: 60,
                    bitrate: 3_000_000,
                    interval_ms: 16,
                    show_cursor: true,
                    frame_rect: None,
                }
            );
        }
        other => panic!("{other:?}"),
    }
    assert_eq!(start(24, 0).fps, 30);
    assert!(matches!(recorder::record_begin(&None, None, &opts(30), 0), BeginPlan::Cancelled));
    assert!(matches!(
        recorder::record_begin(&Some(start(30, 0)), Some(target()), &opts(30), 0),
        BeginPlan::Busy
    ));
}

#[test]
fn recordings_start_or_tell_why_not() {
    let mut active = None;
    assert_eq!(
        recorder::record_started(&mut active, start(30, 0), Ok(())),
        Ok(RecBegin::Started { width: 100, height: 200 })
    );
    assert!(active.is_some());
    let mut active = None;
    assert_eq!(
        recorder::record_started(
            &mut active,
            start(30, 0),
            Err(StartFailure::Encoder("no codec".to_string()))
        ),
        Err("Could not create the video encoder: no codec".to_string())
    );
    assert_eq!(
        recorder::record_started(
            &mut active,
            start(30, 0),
            Err(StartFailure::Capture("denied".to_string()))
        ),
        Err("Could not start the recording: denied".to_string())
    );
    assert!(active.is_none());
}

#[test]
fn pauses_are_not_recorded_time() {
    let mut active = Some(start(30, 0));
    assert_eq!(
        recorder::record_resume(&mut active, 1000 * MS),
        Err("No paused recording to resume.".to_string())
    );
    assert_eq!(recorder::record_pause(&mut active, 1000 * MS), Ok(()));
    assert_eq!(
        recorder::record_pause(&mut active, 1200 * MS),
        Err("No active recording to pause.".to_string())
    );
    assert_eq!(recorder::record_status(&mut active, 1500 * MS, 9).elapsed_ms, 1000);
    assert_eq!(recorder::record_resume(&mut active, 3000 * MS), Ok(()));
    let s = recorder::record_status(&mut active, 3500 * MS, 9);
    assert_eq!(
        s,
        RecStatus {
            state: RecState::Recording,
            reason: RecReason::Unset,
            elapsed_ms: 1500,
            bytes: 9,
            width: 100,
            height: 200,
        }
    );
    assert_eq!(active.unwrap().paused_total_100ns, 20_000_000);
}

#[test]
fn nothing_runs_without_a_recording() {
    let mut active: Option<Shared> = None;
    assert_eq!(
        recorder::record_pause(&mut active, 0),
        Err("No active recording to pause.".to_string())
    );
    assert_eq!(
        recorder::record_resume(&mut active, 0),
        Err("No paused recording to resume.".to_string())
    );
    assert_eq!(
        recorder::record_stop(&mut active, 0),
        Err("No active recording to stop.".to_string())
    );
    assert_eq!(recorder::record_cancel(&mut active), None);
    let s = recorder::record_status(&mut active, 7, 9);
    assert_eq!((s.state, s.elapsed_ms, s.bytes), (RecState::Idle, 0, 0));
}

#[test]
fn frames_are_paced_to_the_frame_rate() {
    let mut s = start(30, 0);
    let take = FrameStep::Take { left: 10, top: 20, right: 110, bottom: 220 };
    assert_eq!(s.on_frame_arrived(Some(1000), 800, 600), take);
    assert_eq!(s.time_frame(1000), Some(0));
    assert_eq!(s.frame_sent(1000, 0, Ok(())), None);
    assert_eq!(s.on_frame_arrived(Some(1000 + 266_665), 800, 600), FrameStep::Skip);
    assert_eq!(s.on_frame_arrived(Some(1000 + 266_666), 800, 600), take);
    assert_eq!(s.on_frame_arrived(None, 800, 600), FrameStep::Skip);
    // A window that was made smaller.
    assert_eq!(s.on_frame_arrived(Some(9_000_000), 109, 600), FrameStep::Skip);
    assert_eq!(s.on_frame_arrived(Some(9_000_000), 800, 219), FrameStep::Skip);
    s.state = RecState::Paused;
    assert_eq!(s.on_frame_arrived(Some(9_000_000), 800, 600), FrameStep::Skip);
    s.state = RecState::Finishing;
    assert_eq!(s.on_frame_arrived(Some(9_000_000), 800, 600), FrameStep::Stop);
}

#[test]
fn pauses_leave_no_gap_in_the_video() {
    let mut active = Some(start(30, 0));
    let s = active.as_mut().unwrap();
    assert_eq!(s.time_frame(500), Some(0));
    s.frame_sent(500, 0, Ok(()));
    recorder::record_pause(&mut active, 100 * MS).unwrap();
    recorder::record_resume(&mut active, 300 * MS).unwrap();
    let s = active.as_mut().unwrap();
    // 500 ms after the first frame, 200 ms of them paused.
    assert_eq!(s.time_frame(500 + 5_000_000), Some(3_000_000));
}

#[test]
fn frames_that_go_back_in_time_are_skipped() {
    let mut s = start(30, 0);
    assert_eq!(s.time_frame(1000), Some(0));
    s.frame_sent(1000, 0, Ok(()));
    assert_eq!(s.time_frame(400), None);
    s.paused_total_100ns = 500_000;
    assert_eq!(s.time_frame(400_000), None);
}

#[test]
fn a_frame_that_cannot_be_written_ends_the_recording() {
    let mut s = start(30, 0);
    s.time_frame(1000);
    assert_eq!(s.frame_sent(1000, 0, Err("full".to_string())), Some("out.mp4".to_string()));
    assert_eq!((s.state, s.reason, s.writing), (RecState::Failed, RecReason::WriterError, false));
    assert_eq!(
        recorder::record_stopped(s),
        StopVerdict::Discard {
            path: "out.mp4".to_string(),
            message: "encoder error: full".to_string()
        }
    );
}

#[test]
fn stopped_recordings_are_finished() {
    let mut active = Some(start(30, 0));
    {
        let s = active.as_mut().unwrap();
        s.time_frame(0);
        s.frame_sent(0, 0, Ok(()));
        s.time_frame(20_000_000);
        s.frame_sent(20_000_000, 20_000_000, Ok(()));
    }
    recorder::record_pause(&mut active, 2000 * MS).unwrap();
    let s = recorder::record_stop(&mut active, 2500 * MS).unwrap();
    assert!(active.is_none());
    assert_eq!((s.state, s.reason), (RecState::Finishing, RecReason::User));
    assert_eq!((s.pause_started, s.paused_accum), (None, 500 * MS));
    match recorder::record_stopped(s) {
        StopVerdict::Finish { path, duration_ms, width, height, reason } => {
            assert_eq!((path.as_str(), duration_ms), ("out.mp4", 2033));
            assert_eq!(
                recorder::record_finished(duration_ms, width, height, reason, Ok(()), 77),
                Ok(RecResult {
                    duration_ms: 2033,
                    bytes: 77,
                    width: 100,
                    height: 200,
                    reason: RecReason::User
                })
            );
        }
        other => panic!("{other:?}"),
    }
    assert_eq!(
        recorder::record_finished(1, 2, 3, RecReason::User, Err("mux".to_string()), 0),
        Err("Could not finalize the recording: mux".to_string())
    );
}

#[test]
fn recordings_without_frames_are_discarded() {
    let s = recorder::record_stop(&mut Some(start(30, 0)), 5).unwrap();
    assert_eq!(
        recorder::record_stopped(s),
        StopVerdict::Discard {
            path: "out.mp4".to_string(),
            message: "No frames were captured.".to_string()
        }
    );
    let mut s = start(30, 0);
    s.writing = false;
    assert_eq!(
        recorder::record_stopped(s),
        StopVerdict::Discard {
            path: "out.mp4".to_string(),
            message: "The recording could not be written to disk.".to_string()
        }
    );
}

#[test]
fn closed_windows_stop_the_recording() {
    let mut s = start(30, 0);
    recorder::on_closed(&mut s);
    assert_eq!((s.state, s.reason), (RecState::Stopped, RecReason::SourceClosed));
    s.state = RecState::Failed;
    s.reason = RecReason::WriterError;
    recorder::on_closed(&mut s);
    assert_eq!(s.reason, RecReason::WriterError);
    let mut active = Some(start(30, 0));
    recorder::on_closed(active.as_mut().unwrap());
    assert_eq!(recorder::record_stop(&mut active, 9).unwrap().reason, RecReason::SourceClosed);
}

fn limited_to(max_bytes: u64) -> Option<Shared> {
    let opts = RecOptions { max_bytes, ..opts(30) };
    match recorder::record_begin(&None, Some(target()), &opts, 0) {
        BeginPlan::Start { shared, .. } => Some(shared),
        other => panic!("{other:?}"),
    }
}

#[test]
fn recordings_end_at_their_size_limit() {
    let mut active = limited_to(500);
    assert_eq!(recorder::record_status(&mut active, 5 * MS, 499).state, RecState::Recording);
    assert_eq!(
        recorder::record_status(&mut active, 7 * MS, 500),
        RecStatus {
            state: RecState::Stopped,
            reason: RecReason::SizeLimit,
            elapsed_ms: 7,
            bytes: 500,
            width: 100,
            height: 200,
        }
    );
    assert_eq!(
        active.as_ref().unwrap().on_frame_arrived(Some(0), 800, 600),
        FrameStep::Stop
    );
    // The first reason stays.
    recorder::on_closed(active.as_mut().unwrap());
    assert_eq!(recorder::record_stop(&mut active, 9 * MS).unwrap().reason, RecReason::SizeLimit);

    let mut paused = limited_to(500);
    recorder::record_pause(&mut paused, 5 * MS).unwrap();
    recorder::size_checked(&mut paused, 501);
    let s = recorder::record_stop(&mut paused, 9 * MS).unwrap();
    assert_eq!((s.reason, s.paused_accum), (RecReason::SizeLimit, 4 * MS));
}

#[test]
fn recordings_without_a_limit_go_on_at_any_size() {
    let mut active = limited_to(0);
    let s = recorder::record_status(&mut active, 5 * MS, u64::MAX);
    assert_eq!((s.state, s.reason, s.bytes), (RecState::Recording, RecReason::Unset, u64::MAX));
    let mut over = limited_to(500);
    recorder::on_closed(over.as_mut().unwrap());
    recorder::size_checked(&mut over, 1000);
    assert_eq!(over.unwrap().reason, RecReason::SourceClosed);
    let mut none = None;
    recorder::size_checked(&mut none, 1000);
    assert_eq!(none, None);
}

// Hands over a frame every 33.4 ms from `from` to `to`; the timestamps that were written.
fn film(active: &mut Option<Shared>, from: u64, to: u64) -> Vec<i64> {
    let mut written = Vec::new();
    let mut at = from;
    while at <= to {
        let ts = 70_000 + (at / 100) as i64;
        let s = active.as_mut().unwrap();
        if let FrameStep::Take { .. } = s.on_frame_arrived(Some(ts), 800, 600) {
            if let Some(out) = s.time_frame(ts) {
                assert_eq!(s.frame_sent(ts, out, Ok(())), None);
                written.push(out);
            }
        }
        at += 33_400_000;
    }
    written
}

#[test]
fn two_seconds_around_a_pause_make_four_seconds_of_video() {
    let mut active = Some(start(30, 0));
    let mut written = film(&mut active, 10 * MS, 2000 * MS);
    recorder::record_pause(&mut active, 2000 * MS).unwrap();
    assert!(film(&mut active, 2000 * MS, 4000 * MS).is_empty());
    recorder::record_resume(&mut active, 4000 * MS).unwrap();
    written.extend(film(&mut active, 4010 * MS, 6000 * MS));
    assert_eq!(written[0], 0);
    assert!(written.windows(2).all(|w| w[0] < w[1]));
    let last = *written.last().unwrap();
    assert_eq!(active.as_ref().unwrap().last_out_ts, last);
    let s = recorder::record_stop(&mut active, 6000 * MS).unwrap();
    match recorder::record_stopped(s) {
        StopVerdict::Finish { duration_ms, width, height, .. } => {
            assert_eq!(duration_ms as i64, (last + 333_333) / 10_000);
            assert!((3980..4040).contains(&duration_ms));
            assert_eq!((width % 2, height % 2), (0, 0));
        }
        other => panic!("{other:?}"),
    }
}

#[test]
fn a_late_first_frame_shortens_the_video_by_as_much() {
    let mut active = Some(start(30, 0));
    film(&mut active, 400 * MS, 2000 * MS);
    recorder::record_pause(&mut active, 2000 * MS).unwrap();
    recorder::record_resume(&mut active, 4000 * MS).unwrap();
    film(&mut active, 4000 * MS, 6000 * MS);
    let s = recorder::record_stop(&mut active, 6000 * MS).unwrap();
    match recorder::record_stopped(s) {
        StopVerdict::Finish { duration_ms, .. } => assert!((3580..3640).contains(&duration_ms)),
        other => panic!("{other:?}"),
    }
}

#[test]
fn cancelled_recordings_are_dropped() {
    let mut active = Some(start(30, 0));
    let s = recorder::record_cancel(&mut active).unwrap();
    assert!(active.is_none());
    assert_eq!((s.state, s.reason, s.writing), (RecState::Failed, RecReason::Cancelled, false));
    assert_eq!(s.out_path, "out.mp4");
}
