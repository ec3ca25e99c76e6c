use teil_ing::picture::{encode_png, Picture};
use teil_ing::popover;
use teil_ing::popover::{IconRect, Toggle, TrayAnchor, WorkArea};

const DESK: WorkArea = WorkArea { x: 0, y: 0, width: 1920, height: 1040 };

fn anchor(center_x: i32, icon_top: i32, icon_bottom: i32) -> TrayAnchor {
    TrayAnchor { center_x, icon_top, icon_bottom }
}

#[test]
fn icons_are_anchored_by_their_bounds() {
    let icon = IconRect { x: 100, y: 1050, width: 25, height: 24 };
    assert_eq!(popover::tray_anchor(&icon, 1, 2), anchor(112, 1050, 1074));
    for (width, height) in [(0, 24), (25, 0)] {
        let unknown = IconRect { width, height, ..icon };
        assert_eq!(popover::tray_anchor(&unknown, 1, 2), anchor(1, 2, 2));
    }
}

#[test]
fn popovers_open_upwards_from_a_low_icon() {
    assert_eq!(popover::place_popover(&anchor(1000, 1042, 1066), &DESK, 336, 560), (832, 476));
    // Flush above the icon, whatever the height.
    assert_eq!(popover::place_popover(&anchor(1000, 1042, 1066), &DESK, 336, 300), (832, 736));
}

#[test]
fn popovers_open_downwards_from_a_high_icon() {
    let area = WorkArea { x: 0, y: 25, width: 1440, height: 875 };
    assert_eq!(popover::place_popover(&anchor(700, 0, 24), &area, 336, 560), (532, 30));
    // A menu bar that is higher than its icons: the popover stays below it.
    assert_eq!(popover::place_popover(&anchor(700, 0, 12), &area, 336, 560), (532, 25));
    // Flush below an icon that stands on the desktop.
    assert_eq!(popover::place_popover(&anchor(700, 60, 84), &area, 336, 560), (532, 90));
}

#[test]
fn popovers_stay_on_the_screen() {
    assert_eq!(popover::place_popover(&anchor(1900, 1040, 1064), &DESK, 336, 560).0, 1576);
    assert_eq!(popover::place_popover(&anchor(5, 1040, 1064), &DESK, 336, 560).0, 8);
    // The icon may lie wholly outside of the area, in a high task bar.
    assert_eq!(popover::place_popover(&anchor(900, 1056, 1080), &DESK, 336, 560).1, 480);
    assert_eq!(popover::place_popover(&anchor(900, 600, 624), &DESK, 336, 560).1, 34);
    assert_eq!(popover::place_popover(&anchor(900, 560, 584), &DESK, 336, 560).1, 8);
    // Below the icon there is less room than the popover takes.
    assert_eq!(popover::place_popover(&anchor(900, 490, 514), &DESK, 336, 560).1, 472);
    // It just fits, without margins.
    assert_eq!(popover::place_popover(&anchor(900, 1040, 1064), &DESK, 1918, 1038), (2, 2));
    assert_eq!(popover::place_popover(&anchor(900, 0, 24), &DESK, 1920, 1040), (0, 0));
    // Too high for the screen: the top stays visible.
    assert_eq!(popover::place_popover(&anchor(900, 1040, 1064), &DESK, 336, 2000).1, 8);
    assert_eq!(popover::place_popover(&anchor(900, 0, 24), &DESK, 336, 2000).1, 8);
    // Too wide: the left edge stays visible.
    assert_eq!(popover::place_popover(&anchor(900, 0, 24), &DESK, 3000, 100).0, 8);
}

#[test]
fn popovers_follow_the_monitor_of_the_icon() {
    let left = WorkArea { x: -1280, y: -200, width: 1280, height: 984 };
    assert_eq!(popover::place_popover(&anchor(-640, 790, 814), &left, 336, 560), (-808, 224));
}

#[test]
fn without_a_monitor_a_common_one_is_taken() {
    assert_eq!(popover::work_area_or_default(None), DESK);
    let own = WorkArea { x: 1, y: 2, width: 3, height: 4 };
    assert_eq!(popover::work_area_or_default(Some(own)), own);
}

#[test]
fn clicks_toggle_the_popover() {
    let icon = IconRect { x: 988, y: 1042, width: 24, height: 24 };
    let mut kept = None;
    let shown = popover::toggle_popover(false, &mut kept, &icon, (990, 1050), &DESK, 336, 560);
    assert_eq!(shown, Toggle::Show { x: 832, y: 476 });
    assert_eq!(kept, Some(anchor(1000, 1042, 1066)));
    let hidden = popover::toggle_popover(true, &mut kept, &icon, (0, 0), &DESK, 336, 560);
    assert_eq!(hidden, Toggle::Hide);
    assert_eq!(kept, Some(anchor(1000, 1042, 1066)));
    assert_eq!(popover::set_popover_height(&kept, &DESK, 336, 300), Some((832, 736)));
    assert_eq!(popover::set_popover_height(&None, &DESK, 336, 300), None);
}

#[test]
fn task_bars_are_dark_unless_said_otherwise() {
    assert!(popover::light_taskbar(Some(1)));
    assert!(!popover::light_taskbar(Some(0)));
    assert!(!popover::light_taskbar(Some(2)));
    assert!(!popover::light_taskbar(None));
}

fn glyph() -> Picture {
    Picture { width: 2, height: 1, pixels: vec![0, 0, 0, 255, 10, 20, 30, 40] }
}

#[test]
fn glyphs_stand_out_from_the_task_bar() {
    assert_eq!(popover::recolor(glyph(), true).pixels, vec![0, 0, 0, 255, 0, 0, 0, 40]);
    assert_eq!(
        popover::recolor(glyph(), false).pixels,
        vec![255, 255, 255, 255, 255, 255, 255, 40]
    );
    assert_eq!(
        popover::recolor(popover::recolor(glyph(), false), true),
        popover::recolor(glyph(), true)
    );
}

#[test]
fn glyphs_are_read_from_their_file() {
    let file = encode_png(&glyph()).unwrap();
    assert_eq!(popover::tray_icon_for_theme(&file, true), Some(popover::recolor(glyph(), true)));
    assert_eq!(popover::tray_icon_for_theme(&[0, 1, 2], true), None);
    assert_eq!(popover::theme_glyph(Err("broken".to_string()), false), None);
}

#[test]
fn icons_are_drawn_again_when_the_theme_changes() {
    let mut current = false;
    assert!(!popover::watch_taskbar_theme(&mut current, false));
    assert!(popover::watch_taskbar_theme(&mut current, true));
    assert!(current);
    assert!(!popover::watch_taskbar_theme(&mut current, true));
}
