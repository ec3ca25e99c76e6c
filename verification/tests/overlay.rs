use teil_ing::capture::RawWindow;
use teil_ing::mode::CaptureMode;
use teil_ing::picture::{encode_png, Picture};
use teil_ing::teil_capture_windows;
use teil_ing::teil_capture_windows::border;
use teil_ing::teil_capture_windows::overlay;
use teil_ing::teil_capture_windows::overlay::{
    Event, Frozen, Mode, Outcome, OverlayFailure, PaintOp, Reaction, Rect, State,
};

fn rect(left: i32, top: i32, right: i32, bottom: i32) -> Rect {
    Rect { left, top, right, bottom }
}

/// A 3 by 2 screen whose corner is at (-1, 5).
fn frozen() -> Frozen {
    let bgra: Vec<u8> = (0..24).collect();
    overlay::freeze_screen(-1, 5, 3, 2, Ok(bgra)).unwrap()
}

fn open(mode: Mode, rects: Vec<Rect>) -> State {
    let screen = Frozen { x: -100, y: -50, w: 800, h: 600, bgra: Vec::new() };
    let mut busy = false;
    overlay::run(&mut busy, &screen, mode, rects).unwrap()
}

#[test]
fn the_screen_is_frozen_only_where_there_is_one() {
    assert_eq!(
        overlay::freeze_screen(0, 0, 0, 5, Ok(vec![])),
        Err("No displays found.".to_string())
    );
    assert_eq!(
        overlay::freeze_screen(0, 0, 1, 1, Err("GetDC failed.".to_string())),
        Err("GetDC failed.".to_string())
    );
}

#[test]
fn cuts_turn_bgra_into_opaque_rgba() {
    let p = frozen().crop_global(0, 6, 2, 1).unwrap();
    assert_eq!((p.width, p.height), (2, 1));
    assert_eq!(p.pixels, vec![18, 17, 16, 255, 22, 21, 20, 255]);
}

#[test]
fn cuts_are_clipped_to_the_screen() {
    let p = frozen().crop_global(-10, -10, 10, 16).unwrap();
    assert_eq!((p.width, p.height), (1, 1));
    assert_eq!(p.pixels, vec![2, 1, 0, 255]);
    assert_eq!(frozen().crop_global(2, 5, 4, 1), Err("Selection is empty.".to_string()));
    assert_eq!(frozen().crop_global(0, 5, 0, 1), Err("Selection is empty.".to_string()));
}

#[test]
fn dimming_keeps_the_alpha_byte() {
    assert_eq!(overlay::dim(&vec![255, 100, 0, 200]), vec![115, 45, 0, 200]);
}

#[test]
fn bitmaps_run_from_the_top_down() {
    let b = overlay::bitmap_info(3, 2);
    assert_eq!((b.width, b.height, b.planes, b.bit_count), (3, -2, 1, 32));
    assert_eq!(overlay::border_color(Mode::Region), 0x00FFFFFF);
    assert_eq!(overlay::border_color(Mode::WindowPick), 0x00D77800);
}

#[test]
fn mouse_positions_are_signed() {
    assert_eq!(overlay::loword_x(0x0002_0001), 1);
    assert_eq!(overlay::hiword_y(0x0002_0001), 2);
    assert_eq!(overlay::loword_x(0xFFFF_FFFF), -1);
    assert_eq!(overlay::hiword_y(0x8000_0000), -32768);
    assert_eq!(overlay::hiword_y(0xFFFF_FFFF_7FFF_0000), 32767);
}

#[test]
fn a_drag_selects_the_same_region_in_either_direction() {
    for (from, to) in [((10, 20), (40, 60)), ((40, 60), (10, 20)), ((40, 20), (10, 60))] {
        let mut st = open(Mode::Region, vec![]);
        let r = overlay::on_event(&mut st, Event::LeftDown { x: from.0, y: from.1 });
        assert!(r.grab_mouse && !r.close);
        let r = overlay::on_event(&mut st, Event::MouseMove { x: to.0, y: to.1 });
        assert!(r.redraw);
        assert_eq!(st.sel, Some(rect(10, 20, 41, 61)));
        let r = overlay::on_event(&mut st, Event::LeftUp { x: to.0, y: to.1 });
        assert!(r.release_mouse && r.close);
        assert_eq!(st.outcome, Some(Outcome::Region { x: -90, y: -30, w: 31, h: 41 }));
    }
}

#[test]
fn a_click_without_a_drag_cancels() {
    let mut st = open(Mode::Region, vec![]);
    overlay::on_event(&mut st, Event::LeftDown { x: 5, y: 5 });
    overlay::on_event(&mut st, Event::LeftUp { x: 6, y: 9 });
    assert_eq!(st.outcome, Some(Outcome::Cancelled));
    let mut st = open(Mode::Region, vec![]);
    overlay::on_event(&mut st, Event::LeftDown { x: 5, y: 5 });
    overlay::on_event(&mut st, Event::LeftUp { x: 7, y: 7 });
    assert_eq!(st.outcome, Some(Outcome::Region { x: -95, y: -45, w: 3, h: 3 }));
}

#[test]
fn letting_go_without_a_drag_does_nothing() {
    let mut st = open(Mode::Region, vec![]);
    let r = overlay::on_event(&mut st, Event::LeftUp { x: 6, y: 9 });
    assert_eq!(
        r,
        Reaction { redraw: false, grab_mouse: false, release_mouse: true, close: false }
    );
    assert_eq!(st.outcome, None);
}

#[test]
fn the_front_most_window_is_picked() {
    let rects = vec![rect(0, 0, 50, 50), rect(-200, -200, 900, 900)];
    let mut st = open(Mode::WindowPick, rects);
    overlay::on_event(&mut st, Event::MouseMove { x: 110, y: 60 });
    assert_eq!(st.hover, Some(0));
    assert_eq!(st.sel, Some(rect(100, 50, 150, 100)));
    overlay::on_event(&mut st, Event::MouseMove { x: 160, y: 60 });
    assert_eq!(st.hover, Some(1));
    assert_eq!(st.sel, Some(rect(0, 0, 800, 600)));
    let r = overlay::on_event(&mut st, Event::LeftDown { x: 160, y: 60 });
    assert!(!r.grab_mouse && !r.close);
    let r = overlay::on_event(&mut st, Event::LeftUp { x: 110, y: 60 });
    assert!(r.close);
    assert_eq!(st.outcome, Some(Outcome::Window(0)));
}

#[test]
fn a_click_beside_all_windows_goes_on() {
    let mut st = open(Mode::WindowPick, vec![rect(0, 0, 50, 50)]);
    let r = overlay::on_event(&mut st, Event::LeftUp { x: 0, y: 0 });
    assert!(!r.close);
    assert_eq!(st.outcome, None);
}

#[test]
fn selections_can_be_cancelled_at_any_time() {
    for mode in [Mode::Region, Mode::WindowPick] {
        for event in [Event::RightUp, Event::Escape] {
            let mut st = open(mode, vec![]);
            assert!(overlay::on_event(&mut st, event).close);
            assert_eq!(st.outcome, Some(Outcome::Cancelled));
        }
    }
}

#[test]
fn one_overlay_runs_at_a_time() {
    let mut busy = false;
    let st = overlay::run(&mut busy, &frozen(), Mode::Region, vec![]).unwrap();
    assert!(busy);
    assert_eq!(
        overlay::run(&mut busy, &frozen(), Mode::Region, vec![]),
        Err("A capture is already in progress.".to_string())
    );
    assert_eq!(overlay::finish(&mut busy, st, Ok(())), Ok(Outcome::Cancelled));
    assert!(!busy);
}

#[test]
fn overlay_failures_are_worded() {
    let e = || "e".to_string();
    for (failure, message) in [
        (OverlayFailure::Bitmap(e()), "CreateDIBSection failed: e"),
        (OverlayFailure::Window(e()), "Overlay window creation failed: e"),
        (OverlayFailure::System(e()), "e"),
    ] {
        let mut busy = true;
        let r = overlay::finish(&mut busy, open(Mode::Region, vec![]), Err(failure));
        assert_eq!(r, Err(message.to_string()));
        assert!(!busy);
    }
}

#[test]
fn highlights_are_painted_with_a_border() {
    let r = rect(0, 0, 3, 3);
    assert_eq!(
        overlay::paint(Some(r)),
        vec![PaintOp::Dim, PaintOp::Reveal(r), PaintOp::Frame(r), PaintOp::Frame(rect(1, 1, 2, 2))]
    );
    let r = rect(0, 0, 2, 9);
    assert_eq!(
        overlay::paint(Some(r)),
        vec![PaintOp::Dim, PaintOp::Reveal(r), PaintOp::Frame(r)]
    );
    assert_eq!(overlay::paint(Some(rect(4, 4, 4, 9))), vec![PaintOp::Dim]);
    assert_eq!(overlay::paint(None), vec![PaintOp::Dim]);
}

#[test]
fn captures_are_dispatched_by_mode() {
    assert_eq!(
        teil_capture_windows::capture_interactive(true, "window"),
        Ok(CaptureMode::Window)
    );
    assert_eq!(
        teil_capture_windows::capture_interactive(true, "video"),
        Err("Unknown capture mode: video".to_string())
    );
    assert_eq!(
        teil_capture_windows::capture_interactive(false, "window"),
        Err("teil-capture-windows is only functional on Windows.".to_string())
    );
}

fn dot(width: u32, height: u32) -> Picture {
    Picture { width, height, pixels: vec![7; (width * height * 4) as usize] }
}

#[test]
fn displays_are_captured_whole() {
    let png = encode_png(&dot(2, 1)).unwrap();
    assert_eq!(teil_capture_windows::capture_fullscreen(Ok(dot(2, 1))), Ok(Some(png)));
    assert_eq!(
        teil_capture_windows::capture_fullscreen(Err("gone".to_string())),
        Err("capture: gone".to_string())
    );
}

#[test]
fn regions_are_cut_from_the_snapshot() {
    let screen = frozen();
    let png = encode_png(&screen.crop_global(0, 6, 2, 1).unwrap()).unwrap();
    assert_eq!(
        teil_capture_windows::capture_region(&screen, Outcome::Region { x: 0, y: 6, w: 2, h: 1 }),
        Ok(Some(png))
    );
    assert_eq!(teil_capture_windows::capture_region(&screen, Outcome::Cancelled), Ok(None));
    assert_eq!(
        teil_capture_windows::capture_region(&screen, Outcome::Window(0)),
        Err("Unexpected window pick in region mode".to_string())
    );
    assert_eq!(
        teil_capture_windows::capture_region(&screen, Outcome::Region { x: 50, y: 6, w: 2, h: 1 }),
        Err("Selection is empty.".to_string())
    );
}

#[test]
fn windows_are_grabbed_or_cut_from_the_snapshot() {
    let screen = frozen();
    let rects = vec![rect(-1, 5, 2, 7), rect(90, 90, 95, 95), rect(-1, 5, 0, 6)];
    let take = |outcome: Outcome, grabbed: Option<Picture>| {
        teil_capture_windows::capture_window_interactive(&screen, &rects, outcome, grabbed)
    };
    let own = encode_png(&dot(1, 2)).unwrap();
    assert_eq!(take(Outcome::Window(0), Some(dot(1, 2))), Ok(Some(own)));
    let cut = encode_png(&screen.crop_global(-1, 5, 3, 2).unwrap()).unwrap();
    assert_eq!(take(Outcome::Window(0), None), Ok(Some(cut)));
    let failed: Result<Option<Vec<u8>>, String> = Err("Window capture failed.".to_string());
    assert_eq!(take(Outcome::Window(1), None), failed);
    assert_eq!(take(Outcome::Window(2), None), failed);
    assert_eq!(take(Outcome::Window(0), Some(dot(1, 1))), failed);
    assert_eq!(take(Outcome::Cancelled, None), Ok(None));
    assert_eq!(
        take(Outcome::Region { x: 0, y: 0, w: 1, h: 1 }, None),
        Err("Unexpected region in window-pick mode".to_string())
    );
    assert_eq!(teil_capture_windows::windows_to_pick(&rects), Ok(()));
    assert_eq!(
        teil_capture_windows::windows_to_pick(&vec![]),
        Err("No windows available to capture.".to_string())
    );
}

#[test]
fn pickable_windows_keep_their_order() {
    let raw = |pid: u32, width: Option<u32>, title: &str| RawWindow {
        id: None,
        pid: Some(pid),
        minimized: Some(false),
        title: Some(title.to_string()),
        app_name: None,
        x: Some(-5),
        y: Some(6),
        width,
        height: Some(20),
    };
    let windows = vec![
        raw(1, Some(10), "a"),
        raw(2, Some(10), "own"),
        raw(1, Some(0), "empty"),
        raw(1, Some(u32::MAX), "huge"),
        raw(1, Some(10), ""),
        raw(1, Some(30), "b"),
    ];
    let (picks, rects) = teil_capture_windows::pickable_windows(&windows, 2);
    assert_eq!(picks, vec![0, 5]);
    assert_eq!(rects, vec![rect(-5, 6, 5, 26), rect(-5, 6, 25, 26)]);
}

#[test]
fn the_frame_leaves_the_recorded_part_free() {
    let f = border::show(100, 200, 30, 40);
    assert_eq!((f.x, f.y, f.width, f.height), (97, 197, 36, 46));
    assert_eq!(f.hole, rect(3, 3, 33, 43));
    assert_eq!(border::FRAME_COLOR, 0x0030_3BFF);
}

#[test]
fn the_frame_is_taken_down_once() {
    let mut slot = 42;
    assert_eq!(border::take_down(&mut slot), Some(42));
    assert_eq!(border::take_down(&mut slot), None);
}

#[test]
fn system_texts_are_utf16_with_a_zero() {
    for s in ["", "TeilRecordingFrame", "ä€😀"] {
        let expected: Vec<u16> = s.encode_utf16().chain([0]).collect();
        assert_eq!(border::wide(s), expected);
    }
}
