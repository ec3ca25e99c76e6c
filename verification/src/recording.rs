//! Screen recording: the session from its start to the upload, its tray icon with timer
//! and menu, the poll of the recorder, and the upload of the finished video.
//!
//! Each command comes in two halves where the recorder works in between: the first says
//! whether the recorder is to be called at all, the second takes in what came of it.

use vstd::prelude::*;

use crate::effect::{accept, accepted, effects, refusal, refuse, Effect, EffectModel, Step, StepModel};
use crate::mode::CaptureMode;
use crate::picture::Picture;
use crate::stamp::{is_stamp, local_stamp, recording_filename, recording_name};
use crate::text::{decimal, decimal_text, join, join3, same, two_digit_text, two_digits};

pub mod native;
pub mod upload;

verus! {

// ---- The recorder --------------------------------------------------------------------

#[derive(Clone, Copy, Debug, PartialEq, Eq, Structural)]
pub enum RecordMode {
    Region,
    Window,
    Fullscreen,
}

impl RecordMode {
    /// The number by which the recorder of macOS knows the mode.
    pub fn code(self) -> (r: i32)
        ensures
            r == (match self {
                RecordMode::Region => 0i32,
                RecordMode::Window => 1i32,
                RecordMode::Fullscreen => 2i32,
            }),
    {
        match self {
            RecordMode::Region => 0,
            RecordMode::Window => 1,
            RecordMode::Fullscreen => 2,
        }
    }
}

/// What is recorded, and where to.
#[derive(Debug, PartialEq, Eq)]
pub struct RecordOpts {
    pub fps: u32,
    pub capture_audio: bool,
    pub show_cursor: bool,
    /// The recorder stops by itself once the file has this size; 0 for never.
    pub max_bytes: u64,
    pub out_path: String,
}

/// How the start of a recording ended.
#[derive(Clone, Copy, Debug, PartialEq, Eq, Structural)]
pub enum BeginOutcome {
    Started { width: u32, height: u32 },
    Cancelled,
    Busy,
}

#[derive(Clone, Copy, Debug, PartialEq, Eq, Structural)]
pub enum RecordState {
    Idle,
    Recording,
    Paused,
    Finishing,
    /// Ended by itself (window closed, size limit, stream error); the file is to be fetched.
    Stopped,
    /// Failed; the file is gone.
    Failed,
}

#[derive(Clone, Copy, Debug, PartialEq, Eq, Structural)]
pub enum StopReason {
    /// Nothing has stopped the recording.
    Unset,
    User,
    SourceClosed,
    SizeLimit,
    StreamError,
    WriterError,
    NoFrames,
    Cancelled,
}

#[derive(Clone, Copy, Debug, PartialEq, Eq, Structural)]
pub struct RecordStatus {
    pub state: RecordState,
    pub reason: StopReason,
    pub elapsed_ms: u64,
    pub bytes: u64,
    pub width: u32,
    pub height: u32,
}

#[derive(Clone, Copy, Debug, PartialEq, Eq, Structural)]
pub struct RecordResult {
    pub duration_ms: u64,
    pub bytes: u64,
    pub width: u32,
    pub height: u32,
    pub reason: StopReason,
}

/// Recordings stop at this size, below the server's limit, so that the finished file can
/// still be uploaded.
pub const MAX_BYTES: u64 = 480 * 1024 * 1024;

/// The server takes no file beyond this size.
pub const SERVER_CAP: u64 = 500 * 1024 * 1024;

/// A recording that stops at its limit is still 20 MiB below what the server takes.
pub proof fn law_recordings_stay_uploadable()
    ensures
        MAX_BYTES + 20 * 1024 * 1024 == SERVER_CAP,
{
}

// ---- Session -------------------------------------------------------------------------

#[derive(Clone, Copy, Debug, PartialEq, Eq, Structural)]
pub enum Phase {
    Starting,
    Recording,
    Paused,
    Stopping,
    Uploading,
}

impl Phase {
    /// The name of a phase.
    pub open spec fn text(self) -> Seq<char> {
        match self {
            Phase::Starting => "starting"@,
            Phase::Recording => "recording"@,
            Phase::Paused => "paused"@,
            Phase::Stopping => "stopping"@,
            Phase::Uploading => "uploading"@,
        }
    }

    /// The name of a phase, as the frontend knows it.
    pub fn as_str(self) -> (r: &'static str)
        ensures
            r@ == self.text(),
    {
        match self {
            Phase::Starting => "starting",
            Phase::Recording => "recording",
            Phase::Paused => "paused",
            Phase::Stopping => "stopping",
            Phase::Uploading => "uploading",
        }
    }

    /// Whether something is being recorded, or would be but for a pause.
    pub open spec fn is_live(self) -> bool {
        self == Phase::Recording || self == Phase::Paused
    }
}

/// The one recording under way, from the user's wish to the end of the upload.
#[derive(Debug, PartialEq, Eq)]
pub struct Session {
    pub mode: CaptureMode,
    pub phase: Phase,
    pub out_path: String,
    pub filename: String,
    pub elapsed_ms: u64,
    pub bytes: u64,
    /// Bytes sent, and bytes in all, once the upload runs.
    pub upload: Option<(u64, u64)>,
}

/// A finished recording whose upload is still to be done.
#[derive(Debug, PartialEq, Eq)]
pub struct FailedVideo {
    pub path: String,
    pub filename: String,
    pub duration_ms: u64,
    pub width: u32,
    pub height: u32,
}

impl FailedVideo {
    /// A copy of a kept recording.
    pub fn copy(&self) -> (r: FailedVideo)
        ensures
            r == *self,
    {
        FailedVideo {
            path: self.path.clone(),
            filename: self.filename.clone(),
            duration_ms: self.duration_ms,
            width: self.width,
            height: self.height,
        }
    }
}

/// What a retry uploads: a captured picture, or a video file that was kept.
#[derive(Debug, PartialEq, Eq)]
pub enum FailedUpload {
    Image(Picture),
    Video(FailedVideo),
}

/// How the recording stands, for the frontend.
#[derive(Debug, PartialEq, Eq)]
pub struct RecordingStatus {
    pub supported: bool,
    pub phase: &'static str,
    pub mode: Option<&'static str>,
    pub elapsed_ms: u64,
    pub bytes_written: u64,
    pub upload_sent: Option<u64>,
    pub upload_total: Option<u64>,
}

/// How recordings are to be made.
#[derive(Clone, Copy, Debug, PartialEq, Eq, Structural)]
pub struct VideoPrefs {
    pub video_fps: u32,
    pub video_capture_audio: bool,
    pub video_show_cursor: bool,
}

/// Whether a recording is under way.
pub fn is_active(session: &Option<Session>) -> (r: bool)
    ensures
        r == session is Some,
{
    session.is_some()
}

/// How the recording stands.
pub fn status(supported: bool, session: &Option<Session>) -> (r: RecordingStatus)
    ensures
        r.supported == supported,
        r.phase@ == (match *session {
            Some(s) => s.phase.text(),
            None => "idle"@,
        }),
        match *session {
            Some(s) => r.mode matches Some(m) && m@ == s.mode.text(),
            None => r.mode is None,
        },
        r.elapsed_ms == (match *session {
            Some(s) => s.elapsed_ms,
            None => 0u64,
        }),
        r.bytes_written == (match *session {
            Some(s) => s.bytes,
            None => 0u64,
        }),
        r.upload_sent == (match *session {
            Some(s) => match s.upload {
                Some(p) => Some(p.0),
                None => None,
            },
            None => None,
        }),
        r.upload_total == (match *session {
            Some(s) => match s.upload {
                Some(p) => Some(p.1),
                None => None,
            },
            None => None,
        }),
{
    match session {
        Some(s) => RecordingStatus {
            supported,
            phase: s.phase.as_str(),
            mode: Some(s.mode.as_str()),
            elapsed_ms: s.elapsed_ms,
            bytes_written: s.bytes,
            upload_sent: match s.upload {
                Some(p) => Some(p.0),
                None => None,
            },
            upload_total: match s.upload {
                Some(p) => Some(p.1),
                None => None,
            },
        },
        None => RecordingStatus {
            supported,
            phase: "idle",
            mode: None,
            elapsed_ms: 0,
            bytes_written: 0,
            upload_sent: None,
            upload_total: None,
        },
    }
}

// ---- Start ---------------------------------------------------------------------------

/// Why a recording cannot be started now, if there is a reason.
pub open spec fn begin_obstacle(
    session: Option<Session>,
    supported: bool,
    mode: Seq<char>,
    permitted: bool,
) -> Option<Seq<char>> {
    if !supported {
        Some("Screen recording is not supported on this platform yet."@)
    } else if CaptureMode::named(mode) is None {
        Some("Unknown recording mode: "@ + mode)
    } else if !permitted {
        Some("Screen Recording permission is required."@)
    } else if session is Some {
        Some("A recording is already in progress."@)
    } else {
        None
    }
}

/// A session that has just been started.
pub open spec fn is_started(
    session: Option<Session>,
    mode: Seq<char>,
    folder: Seq<char>,
    stamp: Seq<char>,
) -> bool {
    &&& session matches Some(s)
    &&& Some(s.mode) == CaptureMode::named(mode)
    &&& s.phase == Phase::Starting
    &&& s.filename@ == recording_name(stamp)
    &&& s.out_path@ == folder + recording_name(stamp)
    &&& s.elapsed_ms == 0
    &&& s.bytes == 0
    &&& s.upload is None
}

/// What is done where a recording is wished for: the user is sent to the popover where the
/// permission to record is missing.
pub open spec fn begin_step(
    session: Option<Session>,
    supported: bool,
    mode: Seq<char>,
    permitted: bool,
) -> StepModel {
    match begin_obstacle(session, supported, mode, permitted) {
        Some(message) => if supported && CaptureMode::named(mode) is Some && !permitted {
            StepModel { result: Err(message), effects: seq![EffectModel::ShowMain] }
        } else {
            refusal(message)
        },
        None => accepted(seq![EffectModel::EmitState, EffectModel::HideWindows]),
    }
}

/// Starts a session for a recording whose file is named after a point in time, in a folder
/// that is given with the separator behind it. `permitted` tells whether the user lets the
/// application record the screen.
pub fn begin_at(
    session: &mut Option<Session>,
    supported: bool,
    mode: &str,
    permitted: bool,
    folder: &str,
    stamp: &str,
) -> (r: Step)
    ensures
        r@ == begin_step(*old(session), supported, mode@, permitted),
        match begin_obstacle(*old(session), supported, mode@, permitted) {
            Some(_) => *final(session) == *old(session),
            None => is_started(*final(session), mode@, folder@, stamp@),
        },
{
    if !supported {
        return refuse("Screen recording is not supported on this platform yet.".to_owned());
    }
    let mode = match CaptureMode::parse(mode) {
        Some(m) => m,
        None => return refuse(join("Unknown recording mode: ", mode)),
    };
    if !permitted {
        let step = Step {
            result: Err("Screen Recording permission is required.".to_owned()),
            effects: vec![Effect::ShowMain],
        };
        assert(step@.effects =~= seq![EffectModel::ShowMain]);
        return step;
    }
    if session.is_some() {
        return refuse("A recording is already in progress.".to_owned());
    }
    let filename = recording_filename(stamp);
    *session = Some(
        Session {
            mode,
            phase: Phase::Starting,
            out_path: join(folder, filename.as_str()),
            filename,
            elapsed_ms: 0,
            bytes: 0,
            upload: None,
        },
    );
    let list = vec![Effect::EmitState, Effect::HideWindows];
    assert(effects(list@) =~= seq![EffectModel::EmitState, EffectModel::HideWindows]);
    accept(list)
}

/// Starts a session for a recording. Its file is named after the present time.
pub fn begin(
    session: &mut Option<Session>,
    supported: bool,
    mode: &str,
    permitted: bool,
    folder: &str,
) -> (r: Step)
    ensures
        r@ == begin_step(*old(session), supported, mode@, permitted),
        match begin_obstacle(*old(session), supported, mode@, permitted) {
            Some(_) => *final(session) == *old(session),
            None => exists|stamp: Seq<char>| #[trigger]
                is_stamp(stamp) && is_started(*final(session), mode@, folder@, stamp),
        },
{
    let stamp = local_stamp();
    begin_at(session, supported, mode, permitted, folder, stamp.as_str())
}

/// There is one recording at a time: while a session lasts, whatever its phase, no other one
/// is started.
pub proof fn law_one_recording_at_a_time(
    session: Session,
    supported: bool,
    mode: Seq<char>,
    permitted: bool,
)
    ensures
        begin_obstacle(Some(session), supported, mode, permitted) is Some,
        begin_step(Some(session), supported, mode, permitted).result is Err,
{
}

/// How long to wait for windows to be gone from the screen before it is captured.
pub fn settle_delay_ms(main_visible: bool, preferences_visible: bool) -> (r: u64)
    ensures
        r == (if main_visible || preferences_visible {
            200u64
        } else {
            0u64
        }),
{
    if main_visible || preferences_visible {
        200
    } else {
        0
    }
}

/// What the recorder is asked for: 60 frames a second where the user wants that many, else
/// 30, and an end before the file is too large to upload.
pub fn record_opts(session: &Option<Session>, prefs: &VideoPrefs) -> (r: RecordOpts)
    ensures
        r.fps == (if prefs.video_fps == 60 {
            60u32
        } else {
            30u32
        }),
        r.capture_audio == prefs.video_capture_audio,
        r.show_cursor == prefs.video_show_cursor,
        r.max_bytes == MAX_BYTES,
        r.out_path@ == (match *session {
            Some(s) => s.out_path@,
            None => Seq::empty(),
        }),
{
    RecordOpts {
        fps: if prefs.video_fps == 60 {
            60
        } else {
            30
        },
        capture_audio: prefs.video_capture_audio,
        show_cursor: prefs.video_show_cursor,
        max_bytes: MAX_BYTES,
        out_path: match session {
            Some(s) => s.out_path.clone(),
            None => String::new(),
        },
    }
}

/// How the recorder knows a mode.
pub fn record_mode(mode: CaptureMode) -> (r: RecordMode)
    ensures
        r == (match mode {
            CaptureMode::Region => RecordMode::Region,
            CaptureMode::Window => RecordMode::Window,
            CaptureMode::Fullscreen => RecordMode::Fullscreen,
        }),
{
    match mode {
        CaptureMode::Region => RecordMode::Region,
        CaptureMode::Window => RecordMode::Window,
        CaptureMode::Fullscreen => RecordMode::Fullscreen,
    }
}

/// What the user is told where a recording could not be started. `permitted` tells whether
/// the user lets the application record the screen.
pub open spec fn begin_error_text(permitted: bool, error: Seq<char>) -> Seq<char> {
    if !permitted {
        "Screen Recording permission is required. Grant it in System Settings → Privacy & Security, then restart the app."@
    } else {
        "Recording failed: "@ + error
    }
}

/// What the user is told where a recording could not be started.
pub fn begin_error_message(permitted: bool, error: &str) -> (r: String)
    ensures
        r@ == begin_error_text(permitted, error@),
{
    if !permitted {
        return "Screen Recording permission is required. Grant it in System Settings → Privacy & Security, then restart the app.".to_owned();
    }
    join("Recording failed: ", error)
}

/// A session with another phase, where there is one.
pub open spec fn phased(session: Option<Session>, phase: Phase) -> Option<Session> {
    match session {
        Some(s) => Some(Session { phase, ..s }),
        None => None,
    }
}

fn set_phase(session: &mut Option<Session>, phase: Phase)
    ensures
        *final(session) == phased(*old(session), phase),
{
    match session.take() {
        Some(s) => {
            *session = Some(Session { phase, ..s });
        },
        None => {},
    }
}

/// What is done once a session has ended without a result: the poll stops, and the
/// frontend learns of it.
pub open spec fn closing() -> Seq<EffectModel> {
    seq![EffectModel::StopTick, EffectModel::EmitState]
}

/// What is done for a session that has ended in a failure.
pub open spec fn closing_failed(message: Seq<char>) -> Seq<EffectModel> {
    closing().push(EffectModel::Failure(message))
}

fn close_failed(message: String) -> (r: Vec<Effect>)
    ensures
        effects(r@) == closing_failed(message@),
{
    let list = vec![Effect::StopTick, Effect::EmitState, Effect::Failure(message)];
    assert(effects(list@) =~= closing_failed(message@));
    list
}

/// What comes of the start of the recorder: the recording runs, or the session is over.
pub open spec fn begun(
    session: Option<Session>,
    outcome: Result<BeginOutcome, String>,
    permitted: bool,
) -> (Option<Session>, Seq<EffectModel>) {
    match outcome {
        Ok(BeginOutcome::Started { .. }) => (
            phased(session, Phase::Recording),
            seq![EffectModel::CreateTray, EffectModel::StartTick, EffectModel::EmitState],
        ),
        Ok(BeginOutcome::Cancelled) => (None, closing()),
        Ok(BeginOutcome::Busy) => (None, closing_failed("A recording is already in progress."@)),
        Err(e) => (None, closing_failed(begin_error_text(permitted, e@))),
    }
}

/// Takes in what came of the start of the recorder.
pub fn run_begin(
    session: &mut Option<Session>,
    outcome: Result<BeginOutcome, String>,
    permitted: bool,
) -> (r: Vec<Effect>)
    ensures
        (*final(session), effects(r@)) == begun(*old(session), outcome, permitted),
{
    match outcome {
        Ok(BeginOutcome::Started { .. }) => {
            set_phase(session, Phase::Recording);
            let list = vec![Effect::CreateTray, Effect::StartTick, Effect::EmitState];
            assert(effects(list@) =~= seq![
                EffectModel::CreateTray,
                EffectModel::StartTick,
                EffectModel::EmitState,
            ]);
            list
        },
        Ok(BeginOutcome::Cancelled) => {
            *session = None;
            let list = vec![Effect::StopTick, Effect::EmitState];
            assert(effects(list@) =~= closing());
            list
        },
        Ok(BeginOutcome::Busy) => {
            *session = None;
            close_failed("A recording is already in progress.".to_owned())
        },
        Err(e) => {
            *session = None;
            close_failed(begin_error_message(permitted, e.as_str()))
        },
    }
}

// ---- Timer ---------------------------------------------------------------------------

/// A time as the tray shows it: minutes and seconds, with hours before them where there
/// are any.
pub open spec fn elapsed_text(ms: nat) -> Seq<char> {
    let total = ms / 1000;
    let (h, m, s) = (total / 3600, total % 3600 / 60, total % 60);
    if h > 0 {
        decimal_text(h) + ":"@ + two_digit_text(m) + ":"@ + two_digit_text(s)
    } else {
        decimal_text(m) + ":"@ + two_digit_text(s)
    }
}

/// A time as the tray shows it.
pub fn format_elapsed(ms: u64) -> (r: String)
    ensures
        r@ == elapsed_text(ms as nat),
{
    let total: u64 = ms / 1000;
    let h: u64 = total / 3600;
    let m: u64 = total % 3600 / 60;
    let s: u64 = total % 60;
    if h > 0 {
        let head = join3(decimal(h).as_str(), ":", two_digits(m).as_str());
        join3(head.as_str(), ":", two_digits(s).as_str())
    } else {
        join3(decimal(m).as_str(), ":", two_digits(s).as_str())
    }
}

/// What stands beside the tray icon of a recording.
pub open spec fn title_text(paused: bool, elapsed_ms: u64) -> Seq<char> {
    if paused {
        "⏸ "@ + elapsed_text(elapsed_ms as nat)
    } else {
        elapsed_text(elapsed_ms as nat)
    }
}

fn title(paused: bool, elapsed_ms: u64) -> (r: String)
    ensures
        r@ == title_text(paused, elapsed_ms),
{
    let time = format_elapsed(elapsed_ms);
    if paused {
        join("⏸ ", time.as_str())
    } else {
        time
    }
}

// ---- Pause and resume ----------------------------------------------------------------

/// Whether the recording is in a phase.
pub open spec fn in_phase(session: Option<Session>, phase: Phase) -> bool {
    session matches Some(s) && s.phase == phase
}

/// Whether there is something to pause.
pub fn pause(session: &Option<Session>) -> (r: Result<(), String>)
    ensures
        match r {
            Ok(_) => in_phase(*session, Phase::Recording),
            Err(e) => !in_phase(*session, Phase::Recording) && e@ == "No active recording to pause."@,
        },
{
    match session {
        Some(s) if s.phase == Phase::Recording => Ok(()),
        _ => Err("No active recording to pause.".to_owned()),
    }
}

/// Whether there is something to resume.
pub fn resume(session: &Option<Session>) -> (r: Result<(), String>)
    ensures
        match r {
            Ok(_) => in_phase(*session, Phase::Paused),
            Err(e) => !in_phase(*session, Phase::Paused) && e@ == "No paused recording to resume."@,
        },
{
    match session {
        Some(s) if s.phase == Phase::Paused => Ok(()),
        _ => Err("No paused recording to resume.".to_owned()),
    }
}

/// The time that a session has recorded; none where there is no session.
pub open spec fn session_ms(session: Option<Session>) -> u64 {
    match session {
        Some(s) => s.elapsed_ms,
        None => 0,
    }
}

/// What is done once a recording pauses, or goes on: the menu offers the opposite, and the
/// tray shows the new state.
pub open spec fn shown_pause(session: Option<Session>, paused: bool) -> Seq<EffectModel> {
    seq![
        EffectModel::PauseLabel(
            if paused {
                "Resume"@
            } else {
                "Pause"@
            },
        ),
        EffectModel::TrayIcon { paused },
        EffectModel::TrayTitle(title_text(paused, session_ms(session))),
        EffectModel::EmitState,
    ]
}

/// Shows that a recording pauses, or goes on.
pub fn update_tray_visuals(session: &Option<Session>, paused: bool) -> (r: Vec<Effect>)
    ensures
        effects(r@) == shown_pause(*session, paused),
{
    let elapsed_ms: u64 = match session {
        Some(s) => s.elapsed_ms,
        None => 0,
    };
    let label = if paused {
        "Resume".to_owned()
    } else {
        "Pause".to_owned()
    };
    let list = vec![
        Effect::PauseLabel(label),
        Effect::TrayIcon { paused },
        Effect::TrayTitle(title(paused, elapsed_ms)),
        Effect::EmitState,
    ];
    assert(effects(list@) =~= shown_pause(*session, paused));
    list
}

/// What comes of a recorder that was asked to pause, or to go on: only where it did, the
/// session changes.
pub open spec fn turned(session: Option<Session>, native: Result<(), String>, paused: bool) -> (
    Option<Session>,
    StepModel,
) {
    match native {
        Ok(_) => {
            let phase = if paused {
                Phase::Paused
            } else {
                Phase::Recording
            };
            (phased(session, phase), accepted(shown_pause(session, paused)))
        },
        Err(e) => (session, refusal(e@)),
    }
}

/// Takes in what came of pausing the recorder.
pub fn pause_done(session: &mut Option<Session>, native: Result<(), String>) -> (r: Step)
    ensures
        (*final(session), r@) == turned(*old(session), native, true),
{
    match native {
        Ok(()) => {
            set_phase(session, Phase::Paused);
            accept(update_tray_visuals(session, true))
        },
        Err(e) => refuse(e),
    }
}

/// Takes in what came of resuming the recorder.
pub fn resume_done(session: &mut Option<Session>, native: Result<(), String>) -> (r: Step)
    ensures
        (*final(session), r@) == turned(*old(session), native, false),
{
    match native {
        Ok(()) => {
            set_phase(session, Phase::Recording);
            accept(update_tray_visuals(session, false))
        },
        Err(e) => refuse(e),
    }
}

/// A recording that pauses and goes on is where it was; in between, it can be resumed and
/// cannot be paused again.
pub proof fn law_resuming_undoes_pausing(session: Option<Session>, native: Result<(), String>)
    requires
        in_phase(session, Phase::Recording),
        native is Ok,
    ensures
        ({
            let between = turned(session, native, true).0;
            &&& in_phase(between, Phase::Paused)
            &&& !in_phase(between, Phase::Recording)
            &&& turned(between, native, false).0 == session
        }),
{
}

// ---- Stop and cancel -----------------------------------------------------------------

/// Whether there is something to stop or to discard.
pub open spec fn is_live(session: Option<Session>) -> bool {
    session matches Some(s) && s.phase.is_live()
}

/// A session that is to be stopped or discarded, where it can be.
pub open spec fn stopping(session: Option<Session>) -> Option<Session> {
    if is_live(session) {
        phased(session, Phase::Stopping)
    } else {
        session
    }
}

/// Lets the caller stop or discard the recording, if it is live: the first one that asks
/// may, and no one after it.
pub fn begin_stopping(session: &mut Option<Session>) -> (r: bool)
    ensures
        r == is_live(*old(session)),
        *final(session) == stopping(*old(session)),
{
    let live = match &*session {
        Some(s) => s.phase == Phase::Recording || s.phase == Phase::Paused,
        None => false,
    };
    if live {
        set_phase(session, Phase::Stopping);
    }
    live
}

/// Once a recording is being stopped or discarded, it can be neither stopped nor discarded
/// nor paused nor resumed: the first caller wins.
pub proof fn law_first_stop_wins(session: Option<Session>)
    requires
        is_live(session),
    ensures
        !is_live(stopping(session)),
        stopping(stopping(session)) == stopping(session),
        !in_phase(stopping(session), Phase::Recording),
        !in_phase(stopping(session), Phase::Paused),
{
}

/// What is done where the recording is to be stopped: the poll ends and the menu is out of
/// use.
pub open spec fn stop_step(session: Option<Session>) -> StepModel {
    if is_live(session) {
        accepted(
            seq![
                EffectModel::StopTick,
                EffectModel::DisableMenu,
                EffectModel::TrayTitle("Saving…"@),
            ],
        )
    } else {
        refusal("No active recording to stop."@)
    }
}

/// Whether there is something to stop.
pub fn stop(session: &mut Option<Session>) -> (r: Step)
    ensures
        *final(session) == stopping(*old(session)),
        r@ == stop_step(*old(session)),
{
    if !begin_stopping(session) {
        return refuse("No active recording to stop.".to_owned());
    }
    let list = vec![
        Effect::StopTick,
        Effect::DisableMenu,
        Effect::TrayTitle("Saving…".to_owned()),
    ];
    assert(effects(list@) =~= seq![
        EffectModel::StopTick,
        EffectModel::DisableMenu,
        EffectModel::TrayTitle("Saving…"@),
    ]);
    accept(list)
}

/// The video that a session has recorded.
pub open spec fn is_video_of(v: FailedVideo, s: Session, res: RecordResult) -> bool {
    &&& v.path == s.out_path
    &&& v.filename == s.filename
    &&& v.duration_ms == res.duration_ms
    &&& v.width == res.width
    &&& v.height == res.height
}

/// The video to upload once a recording is finished, unless its session is gone.
pub fn upload_recording(session: &Option<Session>, res: &RecordResult) -> (r: Option<FailedVideo>)
    ensures
        match *session {
            Some(s) => r matches Some(v) && is_video_of(v, s, *res),
            None => r is None,
        },
{
    match session {
        Some(s) => Some(
            FailedVideo {
                path: s.out_path.clone(),
                filename: s.filename.clone(),
                duration_ms: res.duration_ms,
                width: res.width,
                height: res.height,
            },
        ),
        None => None,
    }
}

/// What is done once the recorder has stopped, and the video to upload.
#[derive(Debug, PartialEq, Eq)]
pub struct Stopped {
    pub effects: Vec<Effect>,
    pub video: Option<FailedVideo>,
}

/// What comes of stopping the recorder: the upload begins, or the session is over.
pub open spec fn stopped(session: Option<Session>, result: Result<RecordResult, String>) -> (
    Option<Session>,
    Seq<EffectModel>,
) {
    match result {
        Ok(_) => (
            phased(session, Phase::Uploading),
            seq![EffectModel::RemoveTray, EffectModel::EmitState],
        ),
        Err(e) => (
            None,
            seq![EffectModel::RemoveTray] + closing_failed("Recording failed: "@ + e@),
        ),
    }
}

/// Takes in what came of stopping the recorder.
pub fn stop_done(session: &mut Option<Session>, result: Result<RecordResult, String>) -> (r: Stopped)
    ensures
        (*final(session), effects(r.effects@)) == stopped(*old(session), result),
        match (result, *old(session)) {
            (Ok(res), Some(s)) => r.video matches Some(v) && is_video_of(v, s, res),
            _ => r.video is None,
        },
{
    match result {
        Ok(res) => {
            set_phase(session, Phase::Uploading);
            let list = vec![Effect::RemoveTray, Effect::EmitState];
            assert(effects(list@) =~= seq![EffectModel::RemoveTray, EffectModel::EmitState]);
            Stopped { effects: list, video: upload_recording(session, &res) }
        },
        Err(e) => {
            *session = None;
            let message = join("Recording failed: ", e.as_str());
            let list = vec![
                Effect::RemoveTray,
                Effect::StopTick,
                Effect::EmitState,
                Effect::Failure(message),
            ];
            assert(effects(list@) =~= seq![EffectModel::RemoveTray] + closing_failed(
                "Recording failed: "@ + e@,
            ));
            Stopped { effects: list, video: None }
        },
    }
}

/// What is done where the recording is to be discarded: the poll ends and the menu is out of
/// use.
pub open spec fn cancel_step(session: Option<Session>) -> StepModel {
    if is_live(session) {
        accepted(seq![EffectModel::StopTick, EffectModel::DisableMenu])
    } else {
        refusal("No active recording to discard."@)
    }
}

/// Whether there is something to discard.
pub fn cancel(session: &mut Option<Session>) -> (r: Step)
    ensures
        *final(session) == stopping(*old(session)),
        r@ == cancel_step(*old(session)),
{
    if !begin_stopping(session) {
        return refuse("No active recording to discard.".to_owned());
    }
    let list = vec![Effect::StopTick, Effect::DisableMenu];
    assert(effects(list@) =~= seq![EffectModel::StopTick, EffectModel::DisableMenu]);
    accept(list)
}

/// What is done once the recorder has discarded the recording: the file is deleted, and
/// nothing is uploaded.
pub open spec fn discarding(session: Option<Session>) -> Seq<EffectModel> {
    seq![EffectModel::RemoveTray] + (match session {
        Some(s) => seq![EffectModel::DeleteFile(s.out_path@)],
        None => Seq::empty(),
    }) + seq![
        EffectModel::StopTick,
        EffectModel::MainTooltip("teil.ing"@),
        EffectModel::EmitState,
    ]
}

/// Ends a session whose recorder has discarded the recording.
pub fn cancel_done(session: &mut Option<Session>) -> (r: Vec<Effect>)
    ensures
        *final(session) is None,
        effects(r@) == discarding(*old(session)),
{
    let ghost before = *session;
    let mut list: Vec<Effect> = Vec::new();
    list.push(Effect::RemoveTray);
    match session.take() {
        Some(s) => {
            list.push(Effect::DeleteFile(s.out_path));
        },
        None => {},
    }
    list.push(Effect::StopTick);
    list.push(Effect::MainTooltip("teil.ing".to_owned()));
    list.push(Effect::EmitState);
    assert(effects(list@) =~= discarding(before));
    list
}

/// The file of the recording that is under way, which is given up where the application
/// ends.
pub fn shutdown(session: &Option<Session>) -> (r: Option<String>)
    ensures
        r == (match *session {
            Some(s) => Some(s.out_path),
            None => None,
        }),
{
    match session {
        Some(s) => Some(s.out_path.clone()),
        None => None,
    }
}

// ---- Poll ----------------------------------------------------------------------------

/// Whether the recorder is to be polled.
pub fn polls(session: &Option<Session>) -> (r: bool)
    ensures
        r == is_live(*session),
{
    match session {
        Some(s) => s.phase == Phase::Recording || s.phase == Phase::Paused,
        None => false,
    }
}

/// A session that knows how far the recorder is.
pub open spec fn polled(session: Option<Session>, status: RecordStatus) -> Option<Session> {
    match session {
        Some(s) => Some(Session { elapsed_ms: status.elapsed_ms, bytes: status.bytes, ..s }),
        None => None,
    }
}

/// Whether the recorder is still at work.
pub open spec fn works(state: RecordState) -> bool {
    state == RecordState::Recording || state == RecordState::Paused || state
        == RecordState::Finishing
}

/// What is done after a poll: the timer is drawn where it has changed, and a recording that
/// has ended by itself is stopped or given up.
pub open spec fn poll_effects(status: RecordStatus, last_title: Seq<char>) -> Seq<EffectModel> {
    let title = title_text(status.state == RecordState::Paused, status.elapsed_ms);
    if works(status.state) {
        if title == last_title {
            seq![EffectModel::EmitState]
        } else {
            seq![
                EffectModel::TrayTooltip(
                    "Recording "@ + title + " — click to stop, right-click for options"@,
                ),
                EffectModel::TrayTitle(title),
                EffectModel::EmitState,
            ]
        }
    } else if status.state == RecordState::Stopped {
        seq![EffectModel::Stop]
    } else {
        seq![EffectModel::FailNative(status.reason)]
    }
}

/// What is done after a poll, and whether the poll goes on.
#[derive(Debug, PartialEq, Eq)]
pub struct Tick {
    pub goes_on: bool,
    pub effects: Vec<Effect>,
}

/// Takes in what the recorder said when it was polled. `last_title` is what the timer
/// shows.
pub fn tick_once(session: &mut Option<Session>, last_title: &mut String, status: &RecordStatus) -> (r:
    Tick)
    ensures
        *final(session) == polled(*old(session), *status),
        r.goes_on == works(status.state),
        effects(r.effects@) == poll_effects(*status, old(last_title)@),
        final(last_title)@ == (if works(status.state) {
            title_text(status.state == RecordState::Paused, status.elapsed_ms)
        } else {
            old(last_title)@
        }),
{
    match session.take() {
        Some(s) => {
            *session = Some(Session { elapsed_ms: status.elapsed_ms, bytes: status.bytes, ..s });
        },
        None => {},
    }
    let ghost shown = last_title@;
    match status.state {
        RecordState::Recording | RecordState::Paused | RecordState::Finishing => {
            let mut list: Vec<Effect> = Vec::new();
            let title = title(status.state == RecordState::Paused, status.elapsed_ms);
            if !same(title.as_str(), last_title.as_str()) {
                list.push(
                    Effect::TrayTooltip(
                        join3(
                            "Recording ",
                            title.as_str(),
                            " — click to stop, right-click for options",
                        ),
                    ),
                );
                list.push(Effect::TrayTitle(title.clone()));
                *last_title = title;
            }
            list.push(Effect::EmitState);
            assert(effects(list@) =~= poll_effects(*status, shown));
            Tick { goes_on: true, effects: list }
        },
        RecordState::Stopped => {
            let list = vec![Effect::Stop];
            assert(effects(list@) =~= poll_effects(*status, shown));
            Tick { goes_on: false, effects: list }
        },
        RecordState::Failed | RecordState::Idle => {
            let list = vec![Effect::FailNative(status.reason)];
            assert(effects(list@) =~= poll_effects(*status, shown));
            Tick { goes_on: false, effects: list }
        },
    }
}

/// The tray is drawn anew only where the timer changes: a poll that finds the same time and
/// state as the one before it only tells the frontend.
pub proof fn law_timer_is_drawn_when_it_changes(first: RecordStatus, second: RecordStatus)
    requires
        works(first.state),
        works(second.state),
        first.state == second.state,
        first.elapsed_ms / 1000 == second.elapsed_ms / 1000,
    ensures
        poll_effects(second, title_text(first.state == RecordState::Paused, first.elapsed_ms))
            == seq![EffectModel::EmitState],
{
}

/// What the user is told of a recording that has failed.
pub open spec fn failure_text(reason: StopReason) -> Seq<char> {
    match reason {
        StopReason::WriterError => "The recording could not be written to disk."@,
        StopReason::NoFrames => "The recording captured no frames."@,
        StopReason::StreamError => "The recording stopped unexpectedly."@,
        _ => "The recording failed."@,
    }
}

/// What the user is told of a recording that has failed.
pub fn failure_message(reason: StopReason) -> (r: &'static str)
    ensures
        r@ == failure_text(reason),
{
    match reason {
        StopReason::WriterError => "The recording could not be written to disk.",
        StopReason::NoFrames => "The recording captured no frames.",
        StopReason::StreamError => "The recording stopped unexpectedly.",
        _ => "The recording failed.",
    }
}

/// What is done for a recorder that has failed.
pub open spec fn failing(reason: StopReason) -> Seq<EffectModel> {
    seq![EffectModel::RemoveTray] + closing_failed(failure_text(reason))
}

/// Ends a session whose recorder has failed.
pub fn fail_native(session: &mut Option<Session>, reason: StopReason) -> (r: Vec<Effect>)
    ensures
        *final(session) is None,
        effects(r@) == failing(reason),
{
    *session = None;
    let list = vec![
        Effect::RemoveTray,
        Effect::StopTick,
        Effect::EmitState,
        Effect::Failure(failure_message(reason).to_owned()),
    ];
    assert(effects(list@) =~= failing(reason));
    list
}

// ---- Menu ----------------------------------------------------------------------------

/// What an entry of the recording's menu does.
#[derive(Clone, Copy, Debug, PartialEq, Eq, Structural)]
pub enum MenuCommand {
    Stop,
    Pause,
    Resume,
    Cancel,
}

/// What an entry of the menu does: the one that pauses also resumes.
pub open spec fn commanded(id: Seq<char>, session: Option<Session>) -> Option<MenuCommand> {
    if id == "rec-stop"@ {
        Some(MenuCommand::Stop)
    } else if id == "rec-pause"@ {
        if in_phase(session, Phase::Paused) {
            Some(MenuCommand::Resume)
        } else {
            Some(MenuCommand::Pause)
        }
    } else if id == "rec-cancel"@ {
        Some(MenuCommand::Cancel)
    } else {
        None
    }
}

/// What an entry of the menu does.
pub fn menu_command(id: &str, session: &Option<Session>) -> (r: Option<MenuCommand>)
    ensures
        r == commanded(id@, *session),
{
    if same(id, "rec-stop") {
        Some(MenuCommand::Stop)
    } else if same(id, "rec-pause") {
        match session {
            Some(s) if s.phase == Phase::Paused => Some(MenuCommand::Resume),
            _ => Some(MenuCommand::Pause),
        }
    } else if same(id, "rec-cancel") {
        Some(MenuCommand::Cancel)
    } else {
        None
    }
}

/// While a recording is live, the entry that pauses and resumes always does what can be
/// done.
pub proof fn law_menu_suits_the_phase(session: Option<Session>)
    requires
        is_live(session),
    ensures
        match commanded("rec-pause"@, session) {
            Some(MenuCommand::Pause) => in_phase(session, Phase::Recording),
            Some(MenuCommand::Resume) => in_phase(session, Phase::Paused),
            _ => false,
        },
{
    reveal_strlit("rec-stop");
    reveal_strlit("rec-pause");
    assert("rec-stop"@[4] != "rec-pause"@[4]);
}

// ---- What a session shows ------------------------------------------------------------

/// What there is of a recording beside its session: its tray icon, and the poll.
pub ghost struct Shown {
    pub tray: bool,
    pub polling: bool,
}

/// What there is after one thing was done.
pub open spec fn shown_after(shown: Shown, effect: EffectModel) -> Shown {
    match effect {
        EffectModel::CreateTray => Shown { tray: true, ..shown },
        EffectModel::RemoveTray => Shown { tray: false, ..shown },
        EffectModel::StartTick => Shown { polling: true, ..shown },
        EffectModel::StopTick => Shown { polling: false, ..shown },
        _ => shown,
    }
}

/// What there is after a list of things was done.
pub open spec fn shown_after_all(shown: Shown, list: Seq<EffectModel>) -> Shown
    decreases list.len(),
{
    if list.len() == 0 {
        shown
    } else {
        shown_after(shown_after_all(shown, list.drop_last()), list.last())
    }
}

/// Whether what there is suits the session: the tray icon is up from the start of the
/// recorder until it has stopped, and the poll runs while the recording is live.
pub open spec fn suits(session: Option<Session>, shown: Shown) -> bool {
    match session {
        Some(s) => {
            &&& shown.tray == (s.phase.is_live() || s.phase == Phase::Stopping)
            &&& shown.polling == s.phase.is_live()
        },
        None => !shown.tray && !shown.polling,
    }
}

proof fn lemma_shown_after_both(shown: Shown, a: Seq<EffectModel>, b: Seq<EffectModel>)
    ensures
        shown_after_all(shown, a + b) == shown_after_all(shown_after_all(shown, a), b),
    decreases b.len(),
{
    if b.len() == 0 {
        assert(a + b =~= a);
    } else {
        lemma_shown_after_both(shown, a, b.drop_last());
        assert((a + b).drop_last() =~= a + b.drop_last());
    }
}

proof fn lemma_shown_after_one(shown: Shown, effect: EffectModel)
    ensures
        shown_after_all(shown, seq![effect]) == shown_after(shown, effect),
{
    assert(seq![effect].drop_last() =~= Seq::<EffectModel>::empty());
    assert(shown_after_all(shown, Seq::<EffectModel>::empty()) == shown);
}

proof fn lemma_shown_after_two(shown: Shown, a: EffectModel, b: EffectModel)
    ensures
        shown_after_all(shown, seq![a, b]) == shown_after(shown_after(shown, a), b),
{
    lemma_shown_after_one(shown, a);
    assert(seq![a, b].drop_last() =~= seq![a]);
}

proof fn lemma_shown_after_three(shown: Shown, a: EffectModel, b: EffectModel, c: EffectModel)
    ensures
        shown_after_all(shown, seq![a, b, c]) == shown_after(
            shown_after(shown_after(shown, a), b),
            c,
        ),
{
    lemma_shown_after_two(shown, a, b);
    assert(seq![a, b, c].drop_last() =~= seq![a, b]);
}

proof fn lemma_closing_failed(shown: Shown, message: Seq<char>)
    ensures
        shown_after_all(shown, closing_failed(message)) == (Shown { polling: false, ..shown }),
{
    lemma_shown_after_two(shown, EffectModel::StopTick, EffectModel::EmitState);
    assert(closing_failed(message).drop_last() =~= closing());
}

/// A session starts with nothing shown, and from the start of the recorder on its tray icon and
/// its poll suit it, whatever the recorder answers.
pub proof fn law_starts_suit_the_session(
    session: Option<Session>,
    shown: Shown,
    outcome: Result<BeginOutcome, String>,
    permitted: bool,
)
    requires
        in_phase(session, Phase::Starting),
        suits(session, shown),
    ensures
        ({
            let (after, list) = begun(session, outcome, permitted);
            suits(after, shown_after_all(shown, list))
        }),
{
    match outcome {
        Ok(BeginOutcome::Started { .. }) => {
            lemma_shown_after_three(
                shown,
                EffectModel::CreateTray,
                EffectModel::StartTick,
                EffectModel::EmitState,
            );
        },
        Ok(BeginOutcome::Cancelled) => {
            lemma_shown_after_two(shown, EffectModel::StopTick, EffectModel::EmitState);
        },
        Ok(BeginOutcome::Busy) => {
            lemma_closing_failed(shown, "A recording is already in progress."@);
        },
        Err(e) => {
            lemma_closing_failed(shown, begin_error_text(permitted, e@));
        },
    }
}

/// A recording that is stopped loses its poll at once and its tray icon once the recorder has
/// stopped; what is shown suits the session all the way.
pub proof fn law_stops_suit_the_session(
    session: Option<Session>,
    shown: Shown,
    result: Result<RecordResult, String>,
)
    requires
        is_live(session),
        suits(session, shown),
    ensures
        ({
            let midway = shown_after_all(shown, stop_step(session).effects);
            let (after, list) = stopped(stopping(session), result);
            &&& suits(stopping(session), midway)
            &&& suits(after, shown_after_all(midway, list))
        }),
{
    lemma_shown_after_three(
        shown,
        EffectModel::StopTick,
        EffectModel::DisableMenu,
        EffectModel::TrayTitle("Saving…"@),
    );
    let midway = shown_after_all(shown, stop_step(session).effects);
    match result {
        Ok(_) => {
            lemma_shown_after_two(midway, EffectModel::RemoveTray, EffectModel::EmitState);
        },
        Err(e) => {
            let message = "Recording failed: "@ + e@;
            lemma_shown_after_both(midway, seq![EffectModel::RemoveTray], closing_failed(message));
            lemma_shown_after_one(midway, EffectModel::RemoveTray);
            lemma_closing_failed(shown_after(midway, EffectModel::RemoveTray), message);
        },
    }
}

/// Nothing is left of a recording that was discarded, or that has failed: no tray icon and no
/// poll.
pub proof fn law_nothing_is_left_of_a_lost_recording(
    session: Option<Session>,
    shown: Shown,
    reason: StopReason,
)
    requires
        is_live(session),
        suits(session, shown),
    ensures
        ({
            let midway = shown_after_all(shown, cancel_step(session).effects);
            &&& suits(stopping(session), midway)
            &&& suits(None, shown_after_all(midway, discarding(stopping(session))))
            &&& suits(None, shown_after_all(shown, failing(reason)))
        }),
{
    lemma_shown_after_two(shown, EffectModel::StopTick, EffectModel::DisableMenu);
    let midway = shown_after_all(shown, cancel_step(session).effects);
    let path = stopping(session)->0.out_path@;
    let head = seq![EffectModel::RemoveTray];
    let middle = seq![EffectModel::DeleteFile(path)];
    let tail = seq![
        EffectModel::StopTick,
        EffectModel::MainTooltip("teil.ing"@),
        EffectModel::EmitState,
    ];
    lemma_shown_after_both(midway, head + middle, tail);
    lemma_shown_after_both(midway, head, middle);
    lemma_shown_after_one(midway, EffectModel::RemoveTray);
    let bare = shown_after(midway, EffectModel::RemoveTray);
    lemma_shown_after_one(bare, EffectModel::DeleteFile(path));
    lemma_shown_after_three(
        bare,
        EffectModel::StopTick,
        EffectModel::MainTooltip("teil.ing"@),
        EffectModel::EmitState,
    );
    lemma_shown_after_both(shown, head, closing_failed(failure_text(reason)));
    lemma_shown_after_one(shown, EffectModel::RemoveTray);
    lemma_closing_failed(shown_after(shown, EffectModel::RemoveTray), failure_text(reason));
}

/// Pausing, resuming and polling change neither the tray icon's presence nor the poll; what is
/// shown goes on suiting the session.
pub proof fn law_pauses_and_polls_suit_the_session(
    session: Option<Session>,
    shown: Shown,
    native: Result<(), String>,
    paused: bool,
    status: RecordStatus,
    last_title: Seq<char>,
)
    requires
        is_live(session),
        suits(session, shown),
    ensures
        suits(
            turned(session, native, paused).0,
            shown_after_all(shown, turned(session, native, paused).1.effects),
        ),
        suits(
            polled(session, status),
            shown_after_all(shown, poll_effects(status, last_title)),
        ),
{
    match native {
        Ok(_) => {
            let list = shown_pause(session, paused);
            lemma_shown_after_three(shown, list[0], list[1], list[2]);
            assert(list.drop_last() =~= seq![list[0], list[1], list[2]]);
        },
        Err(_) => {},
    }
    let list = poll_effects(status, last_title);
    if list.len() == 3 {
        lemma_shown_after_three(shown, list[0], list[1], list[2]);
        assert(list =~= seq![list[0], list[1], list[2]]);
    } else {
        lemma_shown_after_one(shown, list[0]);
        assert(list =~= seq![list[0]]);
    }
}

} // verus!
