//! What the frontend can ask for: keys, shortcuts, captures and their upload, updates.

use vstd::prelude::*;

use crate::api::{upload, uploads, Request, Uploaded};
use crate::effect::{effects, Effect, EffectModel};
use crate::geometry::fits;
use crate::mode::CaptureMode;
use crate::picture::{
    decoded, decoding, encode_png, encoded, encoding, load_from_memory, png_result, Picture,
};
use crate::prefs::{default_bindings, default_shortcuts, entries, Prefs, Shortcuts};
use crate::recording::upload::only;
use crate::recording::{FailedUpload, FailedVideo};
use crate::text::{join, opt_text, texts};

verus! {

// ---- Keys ----------------------------------------------------------------------------

/// The stored key, without which nothing can be asked of the server.
pub fn key(stored: Option<String>) -> (r: Result<String, String>)
    ensures
        match stored {
            Some(k) => r == Ok::<String, String>(k),
            None => r matches Err(e) && e@
                == "No API key found. Please add your key in settings."@,
        },
{
    match stored {
        Some(k) => Ok(k),
        None => Err("No API key found. Please add your key in settings.".to_owned()),
    }
}

/// Whether there is a key.
pub fn has_api_key(stored: &Option<String>) -> (r: bool)
    ensures
        r == stored is Some,
{
    stored.is_some()
}

/// Whether a key is stored, given what the server said of it: only one that is valid.
pub fn save_api_key(valid: Result<bool, String>) -> (r: Result<(), String>)
    ensures
        match valid {
            Ok(true) => r is Ok,
            Ok(false) => r matches Err(e) && e@
                == "Invalid API key. Please check and try again."@,
            Err(cause) => r == Err::<(), String>(cause),
        },
{
    match valid {
        Ok(true) => Ok(()),
        Ok(false) => Err("Invalid API key. Please check and try again.".to_owned()),
        Err(cause) => Err(cause),
    }
}

// ---- Shortcuts -----------------------------------------------------------------------

/// A change of a shortcut that is under way: the old one is given back to the system, and
/// the new one is asked for.
#[derive(Debug, PartialEq, Eq)]
pub struct ShortcutChange {
    pub mode: String,
    pub accelerator: String,
    /// The shortcut that the mode had.
    pub previous: Option<String>,
}

/// What came of a change.
#[derive(Debug, PartialEq, Eq)]
pub enum ShortcutOutcome {
    /// The new shortcuts are to be saved.
    Changed,
    /// The system did not give the new shortcut. The old one, where there was one, is asked
    /// for again.
    Refused { restore: Option<String>, message: String },
}

/// The shortcut of a mode.
pub open spec fn bound(shortcuts: Map<Seq<char>, Seq<char>>, mode: Seq<char>) -> Option<Seq<char>> {
    if shortcuts.contains_key(mode) {
        Some(shortcuts[mode])
    } else {
        None
    }
}

/// Begins to change the shortcut of a mode.
pub fn set_shortcut(shortcuts: &Shortcuts, mode: String, accelerator: String) -> (r: ShortcutChange)
    requires
        shortcuts.wf(),
    ensures
        r.mode == mode,
        r.accelerator == accelerator,
        opt_text(r.previous) == bound(shortcuts@, mode@),
{
    let previous = shortcuts.get(mode.as_str());
    ShortcutChange { mode, accelerator, previous }
}

/// Takes in what the system said to the new shortcut of a mode.
pub fn shortcut_registered(
    shortcuts: &mut Shortcuts,
    change: ShortcutChange,
    registered: Result<(), String>,
) -> (r: ShortcutOutcome)
    requires
        old(shortcuts).wf(),
    ensures
        final(shortcuts).wf(),
        match registered {
            Ok(_) => {
                &&& r is Changed
                &&& final(shortcuts)@ == old(shortcuts)@.insert(change.mode@, change.accelerator@)
            },
            Err(e) => {
                &&& *final(shortcuts) == *old(shortcuts)
                &&& r matches ShortcutOutcome::Refused { restore, message }
                &&& restore == change.previous
                &&& message@ == "Could not register that shortcut: "@ + e@
            },
        },
{
    match registered {
        Ok(()) => {
            shortcuts.insert(change.mode, change.accelerator);
            ShortcutOutcome::Changed
        },
        Err(e) => ShortcutOutcome::Refused {
            restore: change.previous,
            message: join("Could not register that shortcut: ", e.as_str()),
        },
    }
}

/// The shortcuts that the system holds once one was given back, where there was one.
pub open spec fn given_back(held: Set<Seq<char>>, accelerator: Option<Seq<char>>) -> Set<Seq<char>> {
    match accelerator {
        Some(a) => held.remove(a),
        None => held,
    }
}

/// The shortcuts that the system holds once one was asked for again, where there was one.
pub open spec fn asked_for(held: Set<Seq<char>>, accelerator: Option<Seq<char>>) -> Set<Seq<char>> {
    match accelerator {
        Some(a) => held.insert(a),
        None => held,
    }
}

/// Where the system refuses a new shortcut and gives the old one again, everything is as it
/// was: a failed change costs no shortcut.
pub proof fn law_refused_shortcuts_cost_nothing(
    shortcuts: Map<Seq<char>, Seq<char>>,
    mode: Seq<char>,
    held: Set<Seq<char>>,
)
    requires
        bound(shortcuts, mode) matches Some(a) ==> held.contains(a),
    ensures
        asked_for(given_back(held, bound(shortcuts, mode)), bound(shortcuts, mode)) == held,
{
    assert(asked_for(given_back(held, bound(shortcuts, mode)), bound(shortcuts, mode)) =~= held);
}

/// A shortcut that was changed is found under its mode, and all other modes keep theirs.
pub proof fn law_changed_shortcuts_are_found_again(
    shortcuts: Map<Seq<char>, Seq<char>>,
    mode: Seq<char>,
    accelerator: Seq<char>,
    other: Seq<char>,
)
    ensures
        bound(shortcuts.insert(mode, accelerator), mode) == Some(accelerator),
        other != mode ==> bound(shortcuts.insert(mode, accelerator), other) == bound(
            shortcuts,
            other,
        ),
{
}

/// Puts the default shortcuts in place. All former ones are to be given back to the system
/// first, and the ones in place asked for.
pub fn reset_shortcuts(shortcuts: &mut Shortcuts) -> (r: Vec<String>)
    ensures
        texts(r@) == entries(old(shortcuts).bindings@).map_values(
            |e: (Seq<char>, Seq<char>)| e.1,
        ),
        entries(final(shortcuts).bindings@) == default_bindings(),
        final(shortcuts).wf(),
{
    let former = shortcuts.accelerators();
    *shortcuts = default_shortcuts();
    former
}

// ---- Captures ------------------------------------------------------------------------

/// Who carries a capture out.
#[derive(Clone, Copy, Debug, PartialEq, Eq, Structural)]
pub enum CaptureRoute {
    /// The platform's own overlay and capture.
    Native(CaptureMode),
    /// The overlay page, which lets the user select.
    Overlay(CaptureMode),
    /// The primary display is captured at once.
    Primary,
}

/// Who carries a capture out. `native` tells whether the platform has an overlay of its own.
pub open spec fn routed(native: bool, mode: CaptureMode) -> CaptureRoute {
    if native {
        CaptureRoute::Native(mode)
    } else if mode == CaptureMode::Fullscreen {
        CaptureRoute::Primary
    } else {
        CaptureRoute::Overlay(mode)
    }
}

fn route(native: bool, mode: CaptureMode) -> (r: CaptureRoute)
    ensures
        r == routed(native, mode),
{
    if native {
        return CaptureRoute::Native(mode);
    }
    match mode {
        CaptureMode::Fullscreen => CaptureRoute::Primary,
        _ => CaptureRoute::Overlay(mode),
    }
}

/// Captures a region that the user selects.
pub fn begin_region_capture(native: bool) -> (r: CaptureRoute)
    ensures
        r == routed(native, CaptureMode::Region),
{
    route(native, CaptureMode::Region)
}

/// Captures a window that the user picks.
pub fn begin_window_capture(native: bool) -> (r: CaptureRoute)
    ensures
        r == routed(native, CaptureMode::Window),
{
    route(native, CaptureMode::Window)
}

/// Captures a whole display.
pub fn capture_fullscreen(native: bool) -> (r: CaptureRoute)
    ensures
        r == routed(native, CaptureMode::Fullscreen),
{
    route(native, CaptureMode::Fullscreen)
}

/// What the shortcut of a mode does; nothing for a mode that is unknown.
pub fn trigger_capture(native: bool, mode: &str) -> (r: Option<CaptureRoute>)
    ensures
        r == (match CaptureMode::named(mode@) {
            Some(m) => Some(routed(native, m)),
            None => None,
        }),
{
    match CaptureMode::parse(mode) {
        Some(m) => Some(route(native, m)),
        None => None,
    }
}

/// Whether the user lets the application record the screen. Only macOS asks.
pub fn check_screen_permission(granted: Option<bool>) -> (r: bool)
    ensures
        r == (match granted {
            Some(g) => g,
            None => true,
        }),
{
    match granted {
        Some(g) => g,
        None => true,
    }
}

/// Whether a native capture runs, and what is to be done before it: the windows of the
/// application are hidden, or the popover asks for the permission that is missing.
pub fn spawn_native_capture(permitted: bool) -> (r: (bool, Vec<Effect>))
    ensures
        r.0 == permitted,
        effects(r.1@) == (if permitted {
            seq![EffectModel::HideWindows]
        } else {
            seq![EffectModel::ShowMain]
        }),
{
    if permitted {
        let list = vec![Effect::HideWindows];
        assert(effects(list@) =~= seq![EffectModel::HideWindows]);
        (true, list)
    } else {
        let list = vec![Effect::ShowMain];
        assert(effects(list@) =~= seq![EffectModel::ShowMain]);
        (false, list)
    }
}

/// What the user is told of a native capture that failed.
pub open spec fn native_error_text(permitted: bool, error: Seq<char>) -> Seq<char> {
    if !permitted {
        "Screen Recording permission is required. Grant it in System Settings → Privacy & Security, then restart the app."@
    } else {
        "Capture failed: "@ + error
    }
}

/// What the user is told of a native capture that failed. A permission that is missing is
/// the most likely cause.
pub fn native_error_message(permitted: bool, error: &str) -> (r: String)
    ensures
        r@ == native_error_text(permitted, error@),
{
    if !permitted {
        return "Screen Recording permission is required. Grant it in System Settings → Privacy & Security, then restart the app.".to_owned();
    }
    join("Capture failed: ", error)
}

/// What a native capture comes to.
#[derive(Debug, PartialEq, Eq)]
pub enum NativeCapture {
    /// A picture to upload, and the file that it came in.
    Upload { image: Picture, png: Vec<u8> },
    /// The user cancelled.
    Nothing,
    /// The user is told why not.
    Failed(String),
}

/// What a native capture comes to, as a value: width, height, pixels and file.
pub ghost enum NativeCaptureModel {
    Upload { width: u32, height: u32, pixels: Seq<u8>, png: Seq<u8> },
    Nothing,
    Failed(Seq<char>),
}

impl View for NativeCapture {
    type V = NativeCaptureModel;

    open spec fn view(&self) -> NativeCaptureModel {
        match *self {
            NativeCapture::Upload { image, png } => NativeCaptureModel::Upload {
                width: image.width,
                height: image.height,
                pixels: image.pixels@,
                png: png@,
            },
            NativeCapture::Nothing => NativeCaptureModel::Nothing,
            NativeCapture::Failed(message) => NativeCaptureModel::Failed(message@),
        }
    }
}

/// What a captured file comes to, given what it decodes to.
pub open spec fn opened(
    picture: Result<(u32, u32, Seq<u8>), Seq<char>>,
    png: Seq<u8>,
) -> NativeCaptureModel {
    match picture {
        Ok((width, height, pixels)) => NativeCaptureModel::Upload { width, height, pixels, png },
        Err(e) => NativeCaptureModel::Failed("Capture failed: "@ + e),
    }
}

/// What a captured file comes to, given what it decodes to.
pub fn capture_decoded(picture: Result<Picture, String>, png: Vec<u8>) -> (r: NativeCapture)
    requires
        picture matches Ok(p) ==> p.wf(),
    ensures
        r@ == opened(decoding(picture), png@),
        r matches NativeCapture::Upload { image, .. } ==> image.wf(),
{
    match picture {
        Ok(image) => NativeCapture::Upload { image, png },
        Err(e) => NativeCapture::Failed(join("Capture failed: ", e.as_str())),
    }
}

/// Takes in what a native capture gave: a file, nothing where the user cancelled, or an
/// error.
pub fn native_captured(result: Result<Option<Vec<u8>>, String>, permitted: bool) -> (r: NativeCapture)
    ensures
        r@ == (match result {
            Ok(Some(png)) => opened(decoded(png@), png@),
            Ok(None) => NativeCaptureModel::Nothing,
            Err(e) => NativeCaptureModel::Failed(native_error_text(permitted, e@)),
        }),
        r matches NativeCapture::Upload { image, .. } ==> image.wf(),
{
    match result {
        Ok(Some(png)) => {
            let picture = load_from_memory(png.as_slice());
            capture_decoded(picture, png)
        },
        Ok(None) => NativeCapture::Nothing,
        Err(e) => NativeCapture::Failed(native_error_message(permitted, e.as_str())),
    }
}

/// What the user is told of any other capture that failed.
pub fn capture_failed(error: &str) -> (r: String)
    ensures
        r@ == "Capture failed: "@ + error@,
{
    join("Capture failed: ", error)
}

/// What the overlay page is opened for, and the corner of all displays.
#[derive(Debug, PartialEq, Eq)]
pub struct OverlayInfo {
    pub mode: String,
    pub origin_x: i32,
    pub origin_y: i32,
}

/// Notes down what the overlay page is about to be opened for, over all displays (x, y,
/// width, height). The page asks for it once it runs.
pub fn overlay_mode(mode: CaptureMode, bounds: (i32, i32, u32, u32)) -> (r: OverlayInfo)
    ensures
        r.mode@ == mode.text(),
        r.origin_x == bounds.0,
        r.origin_y == bounds.1,
{
    OverlayInfo { mode: mode.as_str().to_owned(), origin_x: bounds.0, origin_y: bounds.1 }
}

/// A region that was selected in the overlay page, counted from the corner of all displays.
#[derive(Clone, Copy, Debug, PartialEq, Eq, Structural)]
pub struct PageRegion {
    pub x: i32,
    pub y: i32,
    pub width: u32,
    pub height: u32,
}

/// Takes in the region that was selected in the overlay page, and tells which part of the
/// displays (x, y, width, height) is to be captured; nothing where the user cancelled.
/// `bounds` is the rectangle around all displays.
pub fn finish_region_capture(
    native: bool,
    region: Option<PageRegion>,
    bounds: Result<(i32, i32, u32, u32), String>,
) -> (r: Result<Option<(i32, i32, u32, u32)>, String>)
    requires
        !native ==> match (region, bounds) {
            (Some(q), Ok(b)) => fits(b.0 + q.x) && fits(b.1 + q.y),
            _ => true,
        },
    ensures
        match r {
            Ok(None) => !native && region is None,
            Ok(Some((x, y, w, h))) => {
                &&& !native
                &&& region matches Some(q)
                &&& bounds matches Ok(b)
                &&& x == b.0 + q.x
                &&& y == b.1 + q.y
                &&& w == q.width
                &&& h == q.height
            },
            Err(e) => {
                ||| native && e@ == "Region capture is handled natively on this platform."@
                ||| !native && region is Some && bounds == Err::<(i32, i32, u32, u32), String>(e)
            },
        },
{
    if native {
        return Err("Region capture is handled natively on this platform.".to_owned());
    }
    match region {
        Some(q) => match bounds {
            Ok(b) => Ok(Some((b.0 + q.x, b.1 + q.y, q.width, q.height))),
            Err(e) => Err(e),
        },
        None => Ok(None),
    }
}

/// Whether the overlay page may list the windows.
pub fn list_windows(native: bool) -> (r: Result<(), String>)
    ensures
        match r {
            Ok(_) => !native,
            Err(e) => native && e@ == "Window selection is handled natively on this platform."@,
        },
{
    if native {
        Err("Window selection is handled natively on this platform.".to_owned())
    } else {
        Ok(())
    }
}

/// Whether the overlay page may have a window captured.
pub fn capture_window(native: bool) -> (r: Result<(), String>)
    ensures
        match r {
            Ok(_) => !native,
            Err(e) => native && e@ == "Window capture is handled natively on this platform."@,
        },
{
    if native {
        Err("Window capture is handled natively on this platform.".to_owned())
    } else {
        Ok(())
    }
}

// ---- Updates -------------------------------------------------------------------------

/// Whether there is an update.
#[derive(Debug, PartialEq, Eq)]
pub struct UpdateInfo {
    pub available: bool,
    pub version: Option<String>,
}

/// Takes in the version of the update that was found, where there is one.
pub fn check_for_updates(found: Result<Option<String>, String>) -> (r: Result<UpdateInfo, String>)
    ensures
        match found {
            Ok(version) => r matches Ok(u) && u.available == version is Some && u.version
                == version,
            Err(cause) => r matches Err(e) && e@ == "Could not check for updates: "@ + cause@,
        },
{
    match found {
        Ok(version) => Ok(UpdateInfo { available: version.is_some(), version }),
        Err(cause) => Err(join("Could not check for updates: ", cause.as_str())),
    }
}

/// The update to install, where one was found.
pub fn pending_update<T>(found: Result<Option<T>, String>) -> (r: Result<T, String>)
    ensures
        match found {
            Ok(Some(update)) => r == Ok::<T, String>(update),
            Ok(None) => r matches Err(e) && e@ == "No update available."@,
            Err(cause) => r == Err::<T, String>(cause),
        },
{
    match found {
        Ok(Some(update)) => Ok(update),
        Ok(None) => Err("No update available.".to_owned()),
        Err(cause) => Err(cause),
    }
}

/// Takes in what came of an installation.
pub fn install_update(installed: Result<(), String>) -> (r: Result<(), String>)
    ensures
        match installed {
            Ok(_) => r is Ok,
            Err(cause) => r matches Err(e) && e@ == "Update failed: "@ + cause@,
        },
{
    match installed {
        Ok(()) => Ok(()),
        Err(cause) => Err(join("Update failed: ", cause.as_str())),
    }
}

// ---- Upload of a capture -------------------------------------------------------------

/// What an upload waits for.
#[derive(Clone, Copy, Debug, PartialEq, Eq, Structural)]
pub enum ImageStage {
    /// The user's API key.
    Key,
    /// The server's reply to the upload.
    Reply,
    Done,
}

/// The upload of a captured picture, with its file where the capture came with one.
#[derive(Debug, PartialEq, Eq)]
pub struct ImageUpload {
    pub image: Picture,
    pub png: Option<Vec<u8>>,
    pub stage: ImageStage,
}

/// What is to be done next for an upload.
#[derive(Debug, PartialEq, Eq)]
pub enum ImageAction {
    ReadKey,
    Send { request: Request, png: Vec<u8> },
    /// The upload is over.
    Finish,
}

/// An upload, what is to be done next for it, and what is to be done at once.
#[derive(Debug, PartialEq, Eq)]
pub struct ImageStep {
    pub upload: ImageUpload,
    pub action: ImageAction,
    pub effects: Vec<Effect>,
}

/// Starts the upload of a captured picture. Where the user wants the picture itself copied,
/// this is done first: it is there at once, and stays even if the upload fails.
pub fn upload_capture(image: Picture, png: Option<Vec<u8>>, prefs: &Prefs) -> (r: ImageStep)
    ensures
        r.upload == (ImageUpload { image, png, stage: ImageStage::Key }),
        r.action is ReadKey,
        effects(r.effects@) == seq![
            EffectModel::UploadStarted,
            EffectModel::MainTooltip("Uploading…"@),
        ] + only(prefs.copies_image(), seq![EffectModel::CopyImage]),
{
    let mut list: Vec<Effect> = Vec::new();
    list.push(Effect::UploadStarted);
    list.push(Effect::MainTooltip("Uploading…".to_owned()));
    if prefs.copy_image() {
        list.push(Effect::CopyImage);
    }
    assert(effects(list@) =~= seq![
        EffectModel::UploadStarted,
        EffectModel::MainTooltip("Uploading…"@),
    ] + only(prefs.copies_image(), seq![EffectModel::CopyImage]));
    ImageStep {
        upload: ImageUpload { image, png, stage: ImageStage::Key },
        action: ImageAction::ReadKey,
        effects: list,
    }
}

/// What is done for an upload that has failed.
pub open spec fn upload_failed(message: Seq<char>) -> Seq<EffectModel> {
    seq![EffectModel::MainTooltip("Upload failed"@), EffectModel::Failure(message)]
}

/// What is done for an upload that has worked: the link goes where the user wants it.
pub open spec fn upload_succeeded(prefs: Prefs, id: Seq<char>, share_url: Seq<char>) -> Seq<
    EffectModel,
> {
    only(prefs.copies_link(), seq![EffectModel::CopyText(share_url)]) + only(
        prefs.open_in_browser,
        seq![EffectModel::OpenUrl(share_url)],
    ) + seq![
        EffectModel::MainTooltip("teil.ing"@),
        EffectModel::UploadSucceeded { id, share_url },
    ]
}

/// Whether an upload has ended in a failure, and its picture is kept for a retry.
pub open spec fn is_failed(
    before: ImageUpload,
    r: ImageStep,
    last_failed: Option<FailedUpload>,
    message: Seq<char>,
) -> bool {
    &&& r.upload.stage == ImageStage::Done
    &&& r.action is Finish
    &&& effects(r.effects@) == upload_failed(message)
    &&& last_failed matches Some(FailedUpload::Image(kept))
    &&& kept.width == before.image.width
    &&& kept.height == before.image.height
    &&& kept.pixels@ == before.image.pixels@
}

/// Whether an upload that has its file goes on, or ends where the file could not be made.
pub open spec fn is_sent(
    before: ImageUpload,
    png: Result<Seq<u8>, Seq<char>>,
    key: Seq<char>,
    prefs: Prefs,
    r: ImageStep,
    old_failed: Option<FailedUpload>,
    last_failed: Option<FailedUpload>,
) -> bool {
    match png {
        Ok(bytes) => {
            &&& r.upload.stage == ImageStage::Reply
            &&& r.action matches ImageAction::Send { request, png: sent }
            &&& uploads(request@, key, prefs.strip_exif, prefs.private_upload)
            &&& sent@ == bytes
            &&& effects(r.effects@) == Seq::<EffectModel>::empty()
            &&& last_failed == old_failed
        },
        Err(e) => is_failed(before, r, last_failed, e),
    }
}

impl ImageUpload {
    fn fail(self, last_failed: &mut Option<FailedUpload>, message: String) -> (r: ImageStep)
        ensures
            is_failed(self, r, *final(last_failed), message@),
            r.upload.image == self.image,
    {
        *last_failed = Some(FailedUpload::Image(self.image.copy()));
        let list = vec![
            Effect::MainTooltip("Upload failed".to_owned()),
            Effect::Failure(message),
        ];
        assert(effects(list@) =~= upload_failed(message@));
        ImageStep {
            upload: ImageUpload { image: self.image, png: None, stage: ImageStage::Done },
            action: ImageAction::Finish,
            effects: list,
        }
    }

    /// Goes on with an upload whose file is there, or could not be made.
    pub fn send(
        self,
        key: String,
        png: Result<Vec<u8>, String>,
        prefs: &Prefs,
        last_failed: &mut Option<FailedUpload>,
    ) -> (r: ImageStep)
        ensures
            is_sent(self, encoding(png), key@, *prefs, r, *old(last_failed), *final(last_failed)),
            r.upload.image == self.image,
    {
        match png {
            Ok(png) => {
                let request = upload(key.as_str(), prefs.strip_exif, prefs.private_upload);
                let list: Vec<Effect> = Vec::new();
                assert(effects(list@) =~= Seq::empty());
                ImageStep {
                    upload: ImageUpload { image: self.image, png: None, stage: ImageStage::Reply },
                    action: ImageAction::Send { request, png },
                    effects: list,
                }
            },
            Err(e) => self.fail(last_failed, e),
        }
    }

    /// Takes in the user's API key. A picture that came without a file is encoded.
    pub fn key_read(self, key: Option<String>, prefs: &Prefs, last_failed: &mut Option<FailedUpload>) -> (r:
        ImageStep)
        requires
            self.image.wf(),
        ensures
            match key {
                Some(k) => is_sent(
                    self,
                    match self.png {
                        Some(png) => Ok(png@),
                        None => png_result(
                            encoded(self.image.width, self.image.height, self.image.pixels@),
                        ),
                    },
                    k@,
                    *prefs,
                    r,
                    *old(last_failed),
                    *final(last_failed),
                ),
                None => is_failed(
                    self,
                    r,
                    *final(last_failed),
                    "No API key found. Please add your key in settings."@,
                ),
            },
            r.upload.image == self.image,
    {
        match key {
            Some(k) => {
                let ImageUpload { image, png, stage } = self;
                let file = match png {
                    Some(png) => Ok(png),
                    None => encode_png(&image),
                };
                ImageUpload { image, png: None, stage }.send(k, file, prefs, last_failed)
            },
            None => self.fail(
                last_failed,
                "No API key found. Please add your key in settings.".to_owned(),
            ),
        }
    }

    /// Takes in what came of an upload.
    pub fn replied(
        self,
        reply: Result<Uploaded, String>,
        prefs: &Prefs,
        last_failed: &mut Option<FailedUpload>,
    ) -> (r: ImageStep)
        ensures
            match reply {
                Ok(u) => {
                    &&& r.upload.stage == ImageStage::Done
                    &&& r.action is Finish
                    &&& effects(r.effects@) == upload_succeeded(*prefs, u.id@, u.share_url@)
                    &&& *final(last_failed) is None
                },
                Err(e) => is_failed(self, r, *final(last_failed), e@),
            },
            r.upload.image == self.image,
    {
        match reply {
            Ok(u) => {
                let ghost shown = upload_succeeded(*prefs, u.id@, u.share_url@);
                let mut list: Vec<Effect> = Vec::new();
                if prefs.copy_link() {
                    list.push(Effect::CopyText(u.share_url.clone()));
                }
                if prefs.open_in_browser {
                    list.push(Effect::OpenUrl(u.share_url.clone()));
                }
                *last_failed = None;
                list.push(Effect::MainTooltip("teil.ing".to_owned()));
                list.push(Effect::UploadSucceeded { id: u.id, share_url: u.share_url });
                assert(effects(list@) =~= shown);
                ImageStep {
                    upload: ImageUpload { image: self.image, png: None, stage: ImageStage::Done },
                    action: ImageAction::Finish,
                    effects: list,
                }
            },
            Err(e) => self.fail(last_failed, e),
        }
    }
}

/// What a retry uploads. It stays kept until an upload works.
#[derive(Debug, PartialEq, Eq)]
pub enum Retry {
    Nothing,
    Image(Picture),
    Video(FailedVideo),
}

/// Whether a retry uploads what is kept.
pub open spec fn is_retry(last_failed: Option<FailedUpload>, r: Retry) -> bool {
    match last_failed {
        None => r is Nothing,
        Some(FailedUpload::Image(p)) => {
            &&& r matches Retry::Image(q)
            &&& q.width == p.width
            &&& q.height == p.height
            &&& q.pixels@ == p.pixels@
        },
        Some(FailedUpload::Video(v)) => r == Retry::Video(v),
    }
}

/// What a retry uploads.
pub fn retry_upload(last_failed: &Option<FailedUpload>) -> (r: Retry)
    ensures
        is_retry(*last_failed, r),
{
    match last_failed {
        None => Retry::Nothing,
        Some(FailedUpload::Image(p)) => Retry::Image(p.copy()),
        Some(FailedUpload::Video(v)) => Retry::Video(v.copy()),
    }
}

/// With the clipboard in use, a capture or the link to it is copied, never both; without, no
/// one of them.
pub proof fn law_one_thing_is_copied(prefs: Prefs)
    ensures
        prefs.clipboard_copy ==> prefs.copies_image() != prefs.copies_link(),
        !prefs.clipboard_copy ==> !prefs.copies_image() && !prefs.copies_link(),
{
}

/// What failed is what a retry uploads: the picture that is kept after a failure is the
/// captured one.
pub proof fn law_retries_upload_what_failed(
    before: ImageUpload,
    step: ImageStep,
    kept: Option<FailedUpload>,
    message: Seq<char>,
    retry: Retry,
)
    requires
        is_failed(before, step, kept, message),
        is_retry(kept, retry),
    ensures
        retry matches Retry::Image(q) && q.width == before.image.width && q.height
            == before.image.height && q.pixels@ == before.image.pixels@,
{
}

} // verus!
