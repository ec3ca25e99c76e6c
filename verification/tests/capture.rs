use teil_ing::capture;
use teil_ing::capture::{MonitorGeom, RawWindow};
use teil_ing::picture::Picture;

fn monitor(x: i32, y: i32, width: u32, height: u32) -> MonitorGeom {
    MonitorGeom { x, y, width, height }
}

#[test]
fn bounds_lie_tightly_around_all_displays() {
    let displays = vec![
        monitor(0, 0, 1920, 1080),
        monitor(-1280, 200, 1280, 1024),
        monitor(1920, -100, 100, 100),
    ];
    assert_eq!(capture::virtual_bounds(&displays), Ok((-1280, -100, 3300, 1324)));
    assert_eq!(capture::virtual_bounds(&vec![monitor(5, 6, 7, 8)]), Ok((5, 6, 7, 8)));
    assert_eq!(capture::virtual_bounds(&vec![]), Err("No displays found".to_string()));
}

#[test]
fn a_region_on_one_display_is_captured_exactly() {
    let m = monitor(-1280, 200, 1280, 1024);
    assert_eq!(capture::capture_region_global(-1000, 300, 50, 60, &m), (280, 100, 50, 60));
}

#[test]
fn a_region_that_leaves_its_display_is_cut() {
    let m = monitor(0, 0, 100, 100);
    assert_eq!(capture::capture_region_global(90, 95, 50, 60, &m), (90, 95, 10, 5));
    assert_eq!(capture::capture_region_global(-20, -30, 50, 60, &m), (0, 0, 30, 30));
    assert_eq!(capture::capture_region_global(-40, 0, 100, 50, &m), (0, 0, 60, 50));
    assert_eq!(capture::capture_region_global(-5, -5, 200, 200, &m), (0, 0, 100, 100));
    // Nothing of it is left: a single pixel is asked for.
    assert_eq!(capture::capture_region_global(200, 300, 50, 60, &m), (100, 100, 1, 1));
}

#[test]
fn the_middle_of_a_region_chooses_the_display() {
    assert_eq!(capture::region_center(10, 20, 30, 41), (25, 40));
    // 60 of 100 pixels lie right of the edge at 1920.
    let (x, _) = capture::region_center(1880, 0, 100, 10);
    assert!(x >= 1920);
    let (x, _) = capture::region_center(1860, 0, 100, 10);
    assert!(x < 1920);
}

#[test]
fn failed_grabs_are_named() {
    let p = || Picture { width: 1, height: 1, pixels: vec![1, 2, 3, 4] };
    assert_eq!(capture::captured(Ok(p())).unwrap().image, p());
    assert_eq!(capture::captured(Err("gone".to_string())).unwrap_err(), "capture: gone");
}

#[test]
fn the_primary_display_is_preferred() {
    assert_eq!(capture::capture_primary(&vec![Some(false), None, Some(true), Some(true)]), Ok(2));
    assert_eq!(capture::capture_primary(&vec![None, Some(false)]), Ok(0));
    assert_eq!(capture::capture_primary(&vec![]), Err("No displays found".to_string()));
}

fn window(id: u32) -> RawWindow {
    RawWindow {
        id: Some(id),
        pid: Some(7),
        minimized: Some(false),
        title: Some("Notes".to_string()),
        app_name: Some("Editor".to_string()),
        x: Some(1),
        y: Some(2),
        width: Some(30),
        height: Some(40),
    }
}

#[test]
fn windows_are_listed_front_to_back_with_what_is_known() {
    let bare = RawWindow {
        pid: None,
        minimized: None,
        title: None,
        x: None,
        y: None,
        ..window(2)
    };
    let list = capture::list_windows(&vec![window(1), bare], 99);
    assert_eq!(list.len(), 2);
    assert_eq!((list[0].id, list[0].title.as_str(), list[0].x), (1, "Notes", 1));
    assert_eq!((list[1].id, list[1].title.as_str(), list[1].x, list[1].y), (2, "", 0, 0));
    assert_eq!(list[1].app_name, "Editor");
    assert_eq!((list[1].width, list[1].height), (30, 40));
}

#[test]
fn windows_that_cannot_be_captured_are_not_listed() {
    let own = window(1);
    let minimized = RawWindow { minimized: Some(true), ..window(2) };
    let empty = RawWindow { width: Some(0), ..window(3) };
    let unknown_size = RawWindow { height: None, ..window(4) };
    let nameless =
        RawWindow { title: Some(String::new()), app_name: None, ..window(5) };
    let no_id = RawWindow { id: None, ..window(6) };
    assert!(capture::list_windows(&vec![own], 7).is_empty());
    for w in [minimized, empty, unknown_size, nameless, no_id] {
        assert!(capture::list_windows(&vec![w], 99).is_empty());
    }
}

#[test]
fn windows_are_found_by_their_id() {
    let ids = vec![None, Some(3), Some(5), Some(3)];
    assert_eq!(capture::capture_window(&ids, 3), Ok(1));
    assert_eq!(capture::capture_window(&ids, 9), Err("Window not found".to_string()));
}
