//! Settings and shortcuts, and what the frontend can ask for.

use vstd::prelude::*;

use crate::commands::{
    begin_region_capture, begin_window_capture, capture_decoded, capture_failed, capture_fullscreen,
    capture_window, check_for_updates, check_screen_permission, finish_region_capture, has_api_key,
    install_update, key, list_windows, native_captured, native_error_message, overlay_mode,
    pending_update, reset_shortcuts, save_api_key, set_shortcut, shortcut_registered,
    spawn_native_capture, trigger_capture, CaptureRoute, NativeCapture, OverlayInfo, PageRegion,
    ShortcutChange, ShortcutOutcome, UpdateInfo,
};
use crate::effect::{effects, Effect};
use crate::mode::{law_mode_names_are_distinct, CaptureMode};
use crate::picture::{decoded, encode_png, encoded, name_png_error, Picture};
use crate::prefs::{
    default_shortcuts, entries, lemma_map_of, load_prefs, load_shortcuts, Prefs, Shortcuts,
};

verus! {

// ---- Settings ------------------------------------------------------------------------

/// Settings that could be read are taken as they are; else metadata is stripped, links are copied
/// and opened, uploads are public, updates are looked for, and nothing else is on.
pub proof fn law_settings_start_as_stored_or_as_promised(stored: Option<Prefs>, r: Prefs)
    requires
        call_ensures(load_prefs, (stored,), r),
    ensures
        stored is Some ==> r == stored->0,
        stored is None ==> {
            &&& r.strip_exif && r.open_in_browser && r.clipboard_copy && r.auto_check_for_updates
            &&& !r.launch_at_login && !r.private_upload && !r.ask_where_to_save
            &&& r.clipboard_mode@ == "url"@
            &&& r.download_dir is None
        },
{
}

/// The clipboard gets the picture or the link, as set, and nothing where it is not to be used.
pub proof fn law_the_clipboard_gets_what_is_set(p: Prefs, image: bool, link: bool)
    requires
        call_ensures(Prefs::copy_image, (&p,), image),
        call_ensures(Prefs::copy_link, (&p,), link),
    ensures
        image <==> p.clipboard_copy && p.clipboard_mode@ == "image"@,
        link <==> p.clipboard_copy && p.clipboard_mode@ != "image"@,
{
}

// ---- Shortcuts -----------------------------------------------------------------------

/// Whether no mode has two shortcuts.
pub open spec fn are_apart(s: Shortcuts) -> bool {
    forall|i: int, j: int|
        0 <= i < j < s.bindings@.len() ==> (#[trigger] s.bindings@[i]).mode@ != (
        #[trigger] s.bindings@[j]).mode@
}

proof fn lemma_entries(s: Shortcuts)
    ensures
        entries(s.bindings@).len() == s.bindings@.len(),
        forall|i: int|
            0 <= i < s.bindings@.len() ==> entries(s.bindings@)[i] == (
                (#[trigger] s.bindings@[i]).mode@,
                s.bindings@[i].accelerator@,
            ),
        are_apart(s) ==> s.wf(),
        s.wf() ==> are_apart(s),
{
    let list = entries(s.bindings@);
    assert(list.len() == s.bindings@.len());
    assert forall|i: int| 0 <= i < s.bindings@.len() implies list[i] == (
        (#[trigger] s.bindings@[i]).mode@,
        s.bindings@[i].accelerator@,
    ) by {}
    if are_apart(s) {
        assert forall|i: int, j: int| 0 <= i < j < list.len() implies (#[trigger] list[i]).0 != (
        #[trigger] list[j]).0 by {
            assert(s.bindings@[i].mode@ != s.bindings@[j].mode@);
        }
    }
    if s.wf() {
        assert forall|i: int, j: int| 0 <= i < j < s.bindings@.len() implies (
        #[trigger] s.bindings@[i]).mode@ != (#[trigger] s.bindings@[j]).mode@ by {
            assert(list[i].0 != list[j].0);
        }
    }
}

/// A mode has the shortcut of its binding, and none without one.
pub proof fn law_modes_have_the_shortcut_they_are_bound_to(
    s: Shortcuts,
    mode: &str,
    r: Option<String>,
    i: int,
)
    requires
        call_ensures(Shortcuts::get, (&s, mode), r),
        are_apart(s),
    ensures
        0 <= i < s.bindings@.len() && s.bindings@[i].mode@ == mode@ ==> r is Some && r->0@
            == s.bindings@[i].accelerator@,
        r is Some ==> exists|k: int|
            0 <= k < s.bindings@.len() && (#[trigger] s.bindings@[k]).mode@ == mode@,
{
    lemma_entries(s);
    let list = entries(s.bindings@);
    lemma_map_of(list);
    if 0 <= i < s.bindings@.len() && s.bindings@[i].mode@ == mode@ {
        assert(list[i] == (s.bindings@[i].mode@, s.bindings@[i].accelerator@));
    }
    if r is Some {
        let k = choose|k: int| 0 <= k < list.len() && (#[trigger] list[k]).0 == mode@;
        assert(s.bindings@[k].mode@ == mode@);
    }
}

/// A mode that gets a shortcut has it from then on; every other mode keeps the one that it had,
/// and no mode gets two.
pub proof fn law_a_new_shortcut_is_the_modes_own(
    s: &mut Shortcuts,
    mode: String,
    accelerator: String,
    other: &str,
    r: (),
    before: Option<String>,
    after: Option<String>,
)
    requires
        call_ensures(Shortcuts::insert, (s, mode, accelerator), r),
        are_apart(*old(s)),
        call_ensures(Shortcuts::get, (&*old(s), other), before),
        call_ensures(Shortcuts::get, (&*final(s), other), after),
    ensures
        are_apart(*final(s)),
        other@ == mode@ ==> after is Some && after->0@ == accelerator@,
        other@ != mode@ ==> (after is Some <==> before is Some),
        other@ != mode@ && before is Some ==> after->0@ == before->0@,
{
    lemma_entries(*old(s));
    lemma_entries(*final(s));
}

/// All shortcuts are named, in the order of their bindings.
pub proof fn law_all_shortcuts_are_named(s: Shortcuts, r: Vec<String>, i: int)
    requires
        call_ensures(Shortcuts::accelerators, (&s,), r),
        0 <= i < s.bindings@.len(),
    ensures
        r@.len() == s.bindings@.len(),
        r@[i]@ == s.bindings@[i].accelerator@,
{
    lemma_entries(s);
    let list = entries(s.bindings@).map_values(|e: (Seq<char>, Seq<char>)| e.1);
    let named = crate::text::texts(r@);
    assert(named.len() == r@.len() && list.len() == s.bindings@.len());
    assert(named[i] == r@[i]@);
    assert(list[i] == s.bindings@[i].accelerator@);
}

/// Whether the shortcuts are those of a user who has changed nothing.
pub open spec fn are_defaults(s: Shortcuts) -> bool {
    &&& s.bindings@.len() == 3
    &&& s.bindings@[0].mode@ == "region"@
    &&& s.bindings@[0].accelerator@ == "CmdOrCtrl+Shift+X"@
    &&& s.bindings@[1].mode@ == "fullscreen"@
    &&& s.bindings@[1].accelerator@ == "CmdOrCtrl+Shift+S"@
    &&& s.bindings@[2].mode@ == "window"@
    &&& s.bindings@[2].accelerator@ == "CmdOrCtrl+Shift+C"@
}

/// Shortcuts that could be read are taken as they are; else each mode has its default one.
pub proof fn law_shortcuts_start_as_stored_or_as_promised(
    stored: Option<Shortcuts>,
    r: Shortcuts,
    fresh: Shortcuts,
)
    requires
        call_ensures(load_shortcuts, (stored,), r),
        call_ensures(default_shortcuts, (), fresh),
    ensures
        stored is Some ==> r == stored->0,
        stored is None ==> are_defaults(r),
        are_defaults(fresh),
{
    lemma_entries(r);
    lemma_entries(fresh);
    let (a, b) = (entries(r.bindings@), entries(fresh.bindings@));
    if stored is None {
        assert(a[0] == (r.bindings@[0].mode@, r.bindings@[0].accelerator@));
        assert(a[1] == (r.bindings@[1].mode@, r.bindings@[1].accelerator@));
        assert(a[2] == (r.bindings@[2].mode@, r.bindings@[2].accelerator@));
    }
    assert(b[0] == (fresh.bindings@[0].mode@, fresh.bindings@[0].accelerator@));
    assert(b[1] == (fresh.bindings@[1].mode@, fresh.bindings@[1].accelerator@));
    assert(b[2] == (fresh.bindings@[2].mode@, fresh.bindings@[2].accelerator@));
}

/// A change names the mode, the new shortcut and the one that the mode has.
pub proof fn law_changes_remember_the_old_shortcut(
    s: Shortcuts,
    mode: String,
    said: &str,
    accelerator: String,
    r: ShortcutChange,
    old_one: Option<String>,
)
    requires
        call_ensures(set_shortcut, (&s, mode, accelerator), r),
        said@ == mode@,
        call_ensures(Shortcuts::get, (&s, said), old_one),
    ensures
        r.mode@ == mode@,
        r.accelerator@ == accelerator@,
        r.previous is Some <==> old_one is Some,
        r.previous is Some ==> r.previous->0@ == old_one->0@,
{
}

/// A shortcut that the system gives is the mode's own from then on; one that it refuses changes
/// nothing, and the old one is asked for again.
pub proof fn law_refused_shortcuts_change_nothing(
    s: &mut Shortcuts,
    change: ShortcutChange,
    registered: Result<(), String>,
    r: ShortcutOutcome,
    said: &str,
    after: Option<String>,
)
    requires
        call_ensures(shortcut_registered, (s, change, registered), r),
        said@ == change.mode@,
        call_ensures(Shortcuts::get, (&*final(s), said), after),
    ensures
        r is Changed <==> registered is Ok,
        registered is Ok ==> after is Some && after->0@ == change.accelerator@,
        registered is Err ==> {
            &&& *final(s) == *old(s)
            &&& r matches ShortcutOutcome::Refused { restore, message } && restore == change.previous
                && message@ == "Could not register that shortcut: "@ + registered->Err_0@
        },
{
}

/// A reset brings the default shortcuts back, and names all former ones.
pub proof fn law_resets_name_the_former_shortcuts(s: &mut Shortcuts, r: Vec<String>, i: int)
    requires
        call_ensures(reset_shortcuts, (s,), r),
    ensures
        are_defaults(*final(s)),
        r@.len() == old(s).bindings@.len(),
        0 <= i < r@.len() ==> r@[i]@ == old(s).bindings@[i].accelerator@,
{
    lemma_entries(*old(s));
    lemma_entries(*final(s));
    let a = entries(final(s).bindings@);
    assert(a[0] == (final(s).bindings@[0].mode@, final(s).bindings@[0].accelerator@));
    assert(a[1] == (final(s).bindings@[1].mode@, final(s).bindings@[1].accelerator@));
    assert(a[2] == (final(s).bindings@[2].mode@, final(s).bindings@[2].accelerator@));
    let list = entries(old(s).bindings@).map_values(|e: (Seq<char>, Seq<char>)| e.1);
    let named = crate::text::texts(r@);
    assert(named.len() == r@.len() && list.len() == old(s).bindings@.len());
    if 0 <= i < r@.len() {
        assert(named[i] == r@[i]@);
        assert(list[i] == old(s).bindings@[i].accelerator@);
    }
}

// ---- Keys ----------------------------------------------------------------------------

/// The stored key is used as it is; without one nothing can be asked for.
pub proof fn law_stored_keys_are_used(stored: Option<String>, r: Result<String, String>, there: bool)
    requires
        call_ensures(key, (stored,), r),
        call_ensures(has_api_key, (&stored,), there),
    ensures
        there <==> stored is Some,
        r is Ok <==> stored is Some,
        r is Ok ==> r->Ok_0@ == stored->0@,
        r is Err ==> r->Err_0@ == "No API key found. Please add your key in settings."@,
{
}

/// Only a key that the server calls valid is stored.
pub proof fn law_only_valid_keys_are_stored(valid: Result<bool, String>, r: Result<(), String>)
    requires
        call_ensures(save_api_key, (valid,), r),
    ensures
        r is Ok <==> valid == Ok::<bool, String>(true),
        valid == Ok::<bool, String>(false) ==> r->Err_0@
            == "Invalid API key. Please check and try again."@,
        valid is Err ==> r->Err_0@ == valid->Err_0@,
{
}

// ---- Captures ------------------------------------------------------------------------

/// Captures go to the platform where it has an overlay of its own, in their own mode; else to the
/// overlay page, except that a display is captured at once. A shortcut does what the command for
/// its mode does.
pub proof fn law_captures_go_their_way(
    native: bool,
    mode: &str,
    region: CaptureRoute,
    window: CaptureRoute,
    full: CaptureRoute,
    r: Option<CaptureRoute>,
)
    requires
        call_ensures(begin_region_capture, (native,), region),
        call_ensures(begin_window_capture, (native,), window),
        call_ensures(capture_fullscreen, (native,), full),
        call_ensures(trigger_capture, (native, mode), r),
    ensures
        native ==> region == CaptureRoute::Native(CaptureMode::Region),
        native ==> window == CaptureRoute::Native(CaptureMode::Window),
        native ==> full == CaptureRoute::Native(CaptureMode::Fullscreen),
        !native ==> region == CaptureRoute::Overlay(CaptureMode::Region),
        !native ==> window == CaptureRoute::Overlay(CaptureMode::Window),
        !native ==> full == CaptureRoute::Primary,
        mode@ == "region"@ ==> r == Some(region),
        mode@ == "window"@ ==> r == Some(window),
        mode@ == "fullscreen"@ ==> r == Some(full),
        mode@ != "region"@ && mode@ != "window"@ && mode@ != "fullscreen"@ ==> r is None,
{
    law_mode_names_are_distinct(CaptureMode::Region);
    law_mode_names_are_distinct(CaptureMode::Window);
    law_mode_names_are_distinct(CaptureMode::Fullscreen);
}

/// The screen may be recorded unless the system says that it may not.
pub proof fn law_screens_may_be_recorded_unless_refused(granted: Option<bool>, r: bool)
    requires
        call_ensures(check_screen_permission, (granted,), r),
    ensures
        !r <==> granted == Some(false),
{
}

/// A native capture runs exactly where it is permitted: the windows are hidden for it, else the
/// popover is shown.
pub proof fn law_native_captures_need_permission(permitted: bool, r: (bool, Vec<Effect>))
    requires
        call_ensures(spawn_native_capture, (permitted,), r),
    ensures
        r.0 == permitted,
        r.1@.len() == 1,
        permitted ==> r.1@[0] is HideWindows,
        !permitted ==> r.1@[0] is ShowMain,
{
    assert(effects(r.1@).len() == r.1@.len());
    assert(effects(r.1@)[0] == r.1@[0]@);
}

/// A missing permission is the cause that is named, whatever else was said; else the cause is told
/// as it is.
pub proof fn law_capture_errors_are_told(error: &str, other: &str, a: String, b: String, c: String, d: String)
    requires
        call_ensures(native_error_message, (true, error), a),
        call_ensures(native_error_message, (false, error), b),
        call_ensures(native_error_message, (false, other), c),
        call_ensures(capture_failed, (error,), d),
    ensures
        a@ == "Capture failed: "@ + error@,
        b@ == c@,
        d@ == a@,
{
}

/// A captured file is uploaded as it is, with the picture in it; one that cannot be decoded, and a
/// capture that failed, are told of; a cancelled one does nothing.
pub proof fn law_captured_files_are_uploaded(
    result: Result<Option<Vec<u8>>, String>,
    permitted: bool,
    r: NativeCapture,
    said: &str,
    text: String,
)
    requires
        call_ensures(native_captured, (result, permitted), r),
        result is Err ==> said@ == result->Err_0@,
        call_ensures(native_error_message, (permitted, said), text),
    ensures
        result is Ok && result->Ok_0 is None <==> r is Nothing,
        result is Ok && result->Ok_0 is Some ==> match decoded(result->Ok_0->0@) {
            Ok((width, height, pixels)) => r matches NativeCapture::Upload { image, png } && png@
                == result->Ok_0->0@ && image.width == width && image.height == height
                && image.pixels@ == pixels,
            Err(e) => r matches NativeCapture::Failed(m) && m@ == "Capture failed: "@ + e,
        },
        result is Err ==> (r matches NativeCapture::Failed(m) && m@ == text@),
{
    if let NativeCapture::Upload { image, png } = r {
        assert(r@ is Upload);
    }
}

/// A decoded capture is uploaded with its file.
pub proof fn law_decoded_captures_keep_their_file(picture: Result<Picture, String>, png: Vec<u8>, r: NativeCapture)
    requires
        call_ensures(capture_decoded, (picture, png), r),
    ensures
        picture matches Ok(p) ==> (r matches NativeCapture::Upload { image, png: file } && file@
            == png@ && image.width == p.width && image.height == p.height && image.pixels@
            == p.pixels@),
        picture matches Err(e) ==> (r matches NativeCapture::Failed(m) && m@ == "Capture failed: "@
            + e@),
{
}

/// The overlay page learns its mode and the corner of all displays.
pub proof fn law_overlay_pages_learn_their_corner(
    mode: CaptureMode,
    bounds: (i32, i32, u32, u32),
    r: OverlayInfo,
    name: &'static str,
)
    requires
        call_ensures(overlay_mode, (mode, bounds), r),
        call_ensures(CaptureMode::as_str, (mode,), name),
    ensures
        r.mode@ == name@,
        r.origin_x == bounds.0,
        r.origin_y == bounds.1,
{
}

/// A region of the overlay page lies as far from the corner of all displays on the screen as it
/// does on the page, with the same size; a cancelled one is none.
pub proof fn law_page_regions_are_counted_from_the_corner(
    native: bool,
    region: Option<PageRegion>,
    bounds: Result<(i32, i32, u32, u32), String>,
    r: Result<Option<(i32, i32, u32, u32)>, String>,
)
    requires
        call_ensures(finish_region_capture, (native, region, bounds), r),
    ensures
        native ==> r is Err && r->Err_0@ == "Region capture is handled natively on this platform."@,
        !native && region is None ==> r is Ok && r->Ok_0 is None,
        !native && region is Some && bounds is Err ==> r is Err && r->Err_0@ == bounds->Err_0@,
        !native && region is Some && bounds is Ok ==> {
            let (q, b) = (region->0, bounds->Ok_0);
            r matches Ok(Some((x, y, width, height))) && {
                &&& x - b.0 == q.x
                &&& y - b.1 == q.y
                &&& width == q.width
                &&& height == q.height
            }
        },
{
}

/// The overlay page lists and captures windows exactly where the platform does not do so itself.
pub proof fn law_pages_capture_where_the_platform_does_not(
    native: bool,
    l: Result<(), String>,
    w: Result<(), String>,
)
    requires
        call_ensures(list_windows, (native,), l),
        call_ensures(capture_window, (native,), w),
    ensures
        l is Ok <==> !native,
        w is Ok <==> !native,
        l is Err ==> l->Err_0@ == "Window selection is handled natively on this platform."@,
        w is Err ==> w->Err_0@ == "Window capture is handled natively on this platform."@,
{
}

/// A picture is encoded as it is, and what kept it from that is told.
pub proof fn law_pictures_are_encoded_as_they_are(
    picture: Picture,
    r: Result<Vec<u8>, String>,
    outcome: Result<Vec<u8>, String>,
    named: Result<Vec<u8>, String>,
    copy: Picture,
)
    requires
        call_ensures(encode_png, (&picture,), r),
        call_ensures(name_png_error, (outcome,), named),
        call_ensures(Picture::copy, (&picture,), copy),
    ensures
        match encoded(picture.width, picture.height, picture.pixels@) {
            Ok(file) => r is Ok && r->Ok_0@ == file,
            Err(e) => r is Err && r->Err_0@ == "PNG encode failed: "@ + e,
        },
        outcome is Ok ==> named is Ok && named->Ok_0@ == outcome->Ok_0@,
        outcome is Err ==> named is Err && named->Err_0@ == "PNG encode failed: "@ + outcome->Err_0@,
        copy.width == picture.width && copy.height == picture.height && copy.pixels@
            == picture.pixels@,
{
}

// ---- Updates -------------------------------------------------------------------------

/// An update is available exactly where one was found, and it is that one.
pub proof fn law_updates_are_the_ones_found(
    found: Result<Option<String>, String>,
    r: Result<UpdateInfo, String>,
    pending: Result<String, String>,
    installed: Result<(), String>,
    done: Result<(), String>,
)
    requires
        call_ensures(check_for_updates, (found,), r),
        call_ensures(pending_update::<String>, (found,), pending),
        call_ensures(install_update, (installed,), done),
    ensures
        r is Ok <==> found is Ok,
        r is Ok ==> (r->Ok_0.available <==> found->Ok_0 is Some) && r->Ok_0.version == found->Ok_0,
        r is Err ==> r->Err_0@ == "Could not check for updates: "@ + found->Err_0@,
        pending is Ok <==> found is Ok && found->Ok_0 is Some,
        pending is Ok ==> pending->Ok_0 == found->Ok_0->0,
        found is Ok && found->Ok_0 is None ==> pending->Err_0@ == "No update available."@,
        found is Err ==> pending->Err_0@ == found->Err_0@,
        done is Ok <==> installed is Ok,
        done is Err ==> done->Err_0@ == "Update failed: "@ + installed->Err_0@,
{
}

} // verus!
