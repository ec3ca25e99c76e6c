use teil_ing::commands;
use teil_ing::commands::{CaptureRoute, NativeCapture, PageRegion, ShortcutOutcome};
use teil_ing::effect::Effect;
use teil_ing::mode::CaptureMode;
use teil_ing::prefs;
use teil_ing::prefs::{Binding, Prefs, Shortcuts};
use teil_ing::secure;

fn text(s: &str) -> String {
    s.to_string()
}

#[test]
fn nothing_is_asked_without_a_key() {
    assert_eq!(commands::key(Some(text("k"))), Ok(text("k")));
    assert_eq!(
        commands::key(None),
        Err(text("No API key found. Please add your key in settings."))
    );
    assert!(commands::has_api_key(&Some(text("k"))));
    assert!(!commands::has_api_key(&None));
}

#[test]
fn only_valid_keys_are_stored() {
    assert_eq!(commands::save_api_key(Ok(true)), Ok(()));
    assert_eq!(
        commands::save_api_key(Ok(false)),
        Err(text("Invalid API key. Please check and try again."))
    );
    assert_eq!(commands::save_api_key(Err(text("offline"))), Err(text("offline")));
}

#[test]
fn keys_are_masked() {
    let mask = |k: &str| secure::masked(Some(text(k))).unwrap();
    assert_eq!(secure::masked(None), None);
    assert_eq!(mask(""), "");
    assert_eq!(mask("abc"), "•••");
    assert_eq!(mask("12345678"), "••••••••");
    assert_eq!(mask("123456789"), "••••••••23456789");
    assert_eq!(mask("a-very-long-key-0123456789abcdef"), "••••••••89abcdef");
    assert_eq!(mask("other-key-89abcdef"), "••••••••89abcdef");
    // Characters count, whatever number of bytes they take.
    assert_eq!(mask("äöüßé"), "•••••");
    assert_eq!(mask("äää"), "•••");
    assert_eq!(mask("ääääöüßéñø"), "••••••••ääöüßéñø");
}

#[test]
fn default_settings_are_private_and_handy() {
    for p in [Prefs::default(), prefs::load_prefs(None)] {
        assert!(p.strip_exif && p.open_in_browser && p.clipboard_copy);
        assert!(!p.launch_at_login && p.auto_check_for_updates && !p.private_upload);
        assert_eq!((p.clipboard_mode.as_str(), p.download_dir), ("url", None));
        assert!(!p.ask_where_to_save);
    }
    let own = Prefs { private_upload: true, ..Prefs::default() };
    assert!(prefs::load_prefs(Some(own)).private_upload);
}

#[test]
fn one_thing_is_copied() {
    let p = Prefs::default();
    assert!(p.copy_link() && !p.copy_image());
    let p = Prefs { clipboard_mode: text("image"), ..p };
    assert!(!p.copy_link() && p.copy_image());
    let p = Prefs { clipboard_copy: false, ..p };
    assert!(!p.copy_link() && !p.copy_image());
}

#[test]
fn default_shortcuts_cover_all_modes() {
    let s = prefs::load_shortcuts(None);
    assert_eq!(s, prefs::default_shortcuts());
    assert_eq!(s.get("region"), Some(text("CmdOrCtrl+Shift+X")));
    assert_eq!(s.get("fullscreen"), Some(text("CmdOrCtrl+Shift+S")));
    assert_eq!(s.get("window"), Some(text("CmdOrCtrl+Shift+C")));
    assert_eq!(s.get("video"), None);
    assert_eq!(s.accelerators().len(), 3);
    let own = Shortcuts { bindings: vec![] };
    assert_eq!(prefs::load_shortcuts(Some(own)).accelerators().len(), 0);
}

#[test]
fn modes_have_one_shortcut_each() {
    let mut s = prefs::default_shortcuts();
    s.insert(text("window"), text("F1"));
    s.insert(text("video"), text("F2"));
    assert_eq!(s.bindings.len(), 4);
    assert_eq!(s.get("window"), Some(text("F1")));
    assert_eq!(s.get("video"), Some(text("F2")));
    assert_eq!(s.get("region"), Some(text("CmdOrCtrl+Shift+X")));
}

#[test]
fn shortcuts_are_changed_once_the_system_agrees() {
    let mut s = prefs::default_shortcuts();
    let change = commands::set_shortcut(&s, text("region"), text("F5"));
    assert_eq!(change.previous, Some(text("CmdOrCtrl+Shift+X")));
    assert_eq!(s, prefs::default_shortcuts());
    assert_eq!(commands::shortcut_registered(&mut s, change, Ok(())), ShortcutOutcome::Changed);
    assert_eq!(s.get("region"), Some(text("F5")));
}

#[test]
fn refused_shortcuts_are_rolled_back() {
    let mut s = prefs::default_shortcuts();
    let change = commands::set_shortcut(&s, text("region"), text("F5"));
    assert_eq!(
        commands::shortcut_registered(&mut s, change, Err(text("taken"))),
        ShortcutOutcome::Refused {
            restore: Some(text("CmdOrCtrl+Shift+X")),
            message: text("Could not register that shortcut: taken"),
        }
    );
    assert_eq!(s, prefs::default_shortcuts());
    let change = commands::set_shortcut(&s, text("video"), text("F5"));
    assert_eq!(change.previous, None);
}

#[test]
fn shortcuts_are_reset_to_the_defaults() {
    let binding = |mode: &str, accelerator: &str| Binding {
        mode: text(mode),
        accelerator: text(accelerator),
    };
    let mut s = Shortcuts { bindings: vec![binding("a", "F1"), binding("b", "F2")] };
    assert_eq!(commands::reset_shortcuts(&mut s), vec![text("F1"), text("F2")]);
    assert_eq!(s, prefs::default_shortcuts());
}

#[test]
fn captures_take_the_way_of_their_platform() {
    assert_eq!(
        commands::begin_region_capture(true),
        CaptureRoute::Native(CaptureMode::Region)
    );
    assert_eq!(
        commands::begin_region_capture(false),
        CaptureRoute::Overlay(CaptureMode::Region)
    );
    assert_eq!(
        commands::begin_window_capture(false),
        CaptureRoute::Overlay(CaptureMode::Window)
    );
    assert_eq!(
        commands::capture_fullscreen(true),
        CaptureRoute::Native(CaptureMode::Fullscreen)
    );
    assert_eq!(commands::capture_fullscreen(false), CaptureRoute::Primary);
    assert_eq!(commands::trigger_capture(false, "fullscreen"), Some(CaptureRoute::Primary));
    assert_eq!(
        commands::trigger_capture(true, "window"),
        Some(CaptureRoute::Native(CaptureMode::Window))
    );
    assert_eq!(commands::trigger_capture(true, "video"), None);
}

#[test]
fn native_captures_need_the_permission() {
    assert!(commands::check_screen_permission(None));
    assert!(commands::check_screen_permission(Some(true)));
    assert!(!commands::check_screen_permission(Some(false)));
    assert_eq!(commands::spawn_native_capture(true), (true, vec![Effect::HideWindows]));
    assert_eq!(commands::spawn_native_capture(false), (false, vec![Effect::ShowMain]));
}

#[test]
fn cancelled_captures_say_nothing() {
    assert_eq!(commands::native_captured(Ok(None), true), NativeCapture::Nothing);
}

#[test]
fn failed_captures_are_explained() {
    assert_eq!(
        commands::native_captured(Err(text("e")), true),
        NativeCapture::Failed(text("Capture failed: e"))
    );
    assert_eq!(
        commands::native_captured(Err(text("e")), false),
        NativeCapture::Failed(text(
            "Screen Recording permission is required. Grant it in System Settings → Privacy & Security, then restart the app."
        ))
    );
    assert_eq!(commands::capture_failed("e"), "Capture failed: e");
}

#[test]
fn the_overlay_page_learns_its_mode_and_origin() {
    let info = commands::overlay_mode(CaptureMode::Window, (-5, 7, 100, 200));
    assert_eq!((info.mode.as_str(), info.origin_x, info.origin_y), ("window", -5, 7));
}

#[test]
fn page_regions_are_moved_to_the_displays() {
    let region = Some(PageRegion { x: 10, y: 20, width: 30, height: 40 });
    assert_eq!(
        commands::finish_region_capture(false, region, Ok((-100, 5, 1, 1))),
        Ok(Some((-90, 25, 30, 40)))
    );
    assert_eq!(commands::finish_region_capture(false, None, Err(text("e"))), Ok(None));
    assert_eq!(
        commands::finish_region_capture(false, region, Err(text("No displays found"))),
        Err(text("No displays found"))
    );
    assert_eq!(
        commands::finish_region_capture(true, region, Ok((0, 0, 1, 1))),
        Err(text("Region capture is handled natively on this platform."))
    );
}

#[test]
fn page_commands_are_refused_on_native_platforms() {
    assert_eq!(commands::list_windows(false), Ok(()));
    assert_eq!(
        commands::list_windows(true),
        Err(text("Window selection is handled natively on this platform."))
    );
    assert_eq!(commands::capture_window(false), Ok(()));
    assert_eq!(
        commands::capture_window(true),
        Err(text("Window capture is handled natively on this platform."))
    );
}

#[test]
fn updates_are_reported() {
    let u = commands::check_for_updates(Ok(Some(text("1.2.3")))).unwrap();
    assert_eq!((u.available, u.version), (true, Some(text("1.2.3"))));
    let u = commands::check_for_updates(Ok(None)).unwrap();
    assert_eq!((u.available, u.version), (false, None));
    assert_eq!(
        commands::check_for_updates(Err(text("e"))).unwrap_err(),
        "Could not check for updates: e"
    );
    assert_eq!(commands::pending_update(Ok(Some(5))), Ok(5));
    assert_eq!(commands::pending_update::<u8>(Ok(None)), Err(text("No update available.")));
    assert_eq!(commands::pending_update::<u8>(Err(text("e"))), Err(text("e")));
    assert_eq!(commands::install_update(Ok(())), Ok(()));
    assert_eq!(commands::install_update(Err(text("e"))), Err(text("Update failed: e")));
}
