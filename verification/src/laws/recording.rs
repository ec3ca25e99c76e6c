//! The session of a recording, from the user's wish to the upload.

use vstd::prelude::*;

use crate::effect::{effects, Effect, Step};
use crate::mode::{law_mode_names_are_distinct, CaptureMode};
use crate::recording::{
    begin, begin_at, begin_error_message, begin_stopping, cancel, cancel_done, fail_native,
    failure_message, format_elapsed, is_active, is_started, menu_command, pause, pause_done, polls, record_mode,
    record_opts, resume, resume_done, run_begin, settle_delay_ms, shutdown, status, stop, stop_done,
    tick_once, update_tray_visuals, upload_recording, BeginOutcome, FailedVideo, MenuCommand, Phase,
    RecordMode, RecordOpts, RecordResult, RecordState, RecordStatus, RecordingStatus, Session,
    StopReason, Stopped, Tick, VideoPrefs,
};
use crate::stamp::is_stamp;

verus! {

proof fn lemma_effects(list: Seq<Effect>)
    ensures
        effects(list).len() == list.len(),
        forall|i: int| 0 <= i < list.len() ==> #[trigger] list[i]@ == effects(list)[i],
{
}

/// The session with another phase, and nothing else changed.
pub open spec fn is_same_but_for_phase(before: Option<Session>, after: Option<Session>, phase: Phase) -> bool {
    match before {
        Some(s) => after == Some(Session { phase, ..s }),
        None => after is None,
    }
}

/// Whether a recording is under way, or would be but for a pause.
pub open spec fn is_on(session: Option<Session>) -> bool {
    session is Some && (session->0.phase == Phase::Recording || session->0.phase == Phase::Paused)
}

// ---- Start ---------------------------------------------------------------------------

/// A recording starts exactly where the platform can record, the mode is one, the user permits it
/// and no other is under way. Its session is for that mode, and its file is named after the time,
/// in the given folder.
pub proof fn law_recordings_start_where_they_can(
    session: &mut Option<Session>,
    supported: bool,
    mode: &str,
    permitted: bool,
    folder: &str,
    stamp: &str,
    r: Step,
)
    requires
        call_ensures(begin_at, (session, supported, mode, permitted, folder, stamp), r),
    ensures
        ({
            let known = mode@ == "region"@ || mode@ == "window"@ || mode@ == "fullscreen"@;
            &&& r.result is Ok <==> supported && known && permitted && *old(session) is None
            &&& r.result is Err ==> *final(session) == *old(session)
            &&& !supported ==> r.result->Err_0@
                == "Screen recording is not supported on this platform yet."@
            &&& supported && !known ==> r.result->Err_0@ == "Unknown recording mode: "@ + mode@
            &&& supported && known && !permitted ==> r.result->Err_0@
                == "Screen Recording permission is required."@
            &&& supported && known && permitted && *old(session) is Some ==> r.result->Err_0@
                == "A recording is already in progress."@
            &&& supported && known && !permitted ==> r.effects@.len() == 1 && r.effects@[0]
                is ShowMain
            &&& r.result is Err && !(supported && known && !permitted) ==> r.effects@.len() == 0
            &&& r.result is Ok ==> {
                let s = (*final(session))->0;
                &&& *final(session) is Some
                &&& mode@ == "region"@ ==> s.mode == CaptureMode::Region
                &&& mode@ == "window"@ ==> s.mode == CaptureMode::Window
                &&& mode@ == "fullscreen"@ ==> s.mode == CaptureMode::Fullscreen
                &&& s.phase == Phase::Starting
                &&& s.filename@ == "recording-"@ + stamp@ + ".mp4"@
                &&& s.out_path@ == folder@ + s.filename@
                &&& s.elapsed_ms == 0
                &&& s.bytes == 0
                &&& s.upload is None
                &&& r.effects@.len() == 2
                &&& r.effects@[0] is EmitState
                &&& r.effects@[1] is HideWindows
            }
        }),
{
    law_mode_names_are_distinct(CaptureMode::Region);
    law_mode_names_are_distinct(CaptureMode::Window);
    law_mode_names_are_distinct(CaptureMode::Fullscreen);
    lemma_effects(r.effects@);
    let m = effects(r.effects@);
    assert(r@.effects == m);
    if r.effects@.len() > 0 {
        assert(r.effects@[0]@ == m[0]);
    }
    if r.effects@.len() > 1 {
        assert(r.effects@[1]@ == m[1]);
    }
}

/// The recorder is asked for what the user has set: 60 frames where the user wants 60 and else
/// 30, sound and pointer each as set; into the session's own file, and no further than its
/// upload is sure to be taken.
pub proof fn law_recorders_are_asked_for_what_is_set(session: Option<Session>, prefs: VideoPrefs, r: RecordOpts)
    requires
        call_ensures(record_opts, (&session, &prefs), r),
    ensures
        prefs.video_fps == 60 ==> r.fps == 60,
        prefs.video_fps != 60 ==> r.fps == 30,
        r.capture_audio == prefs.video_capture_audio,
        r.show_cursor == prefs.video_show_cursor,
        r.max_bytes == 480 * 1024 * 1024,
        session is Some ==> r.out_path@ == session->0.out_path@,
        session is None ==> r.out_path@.len() == 0,
{
}

/// The recorder is asked for the session's own mode, by the number that macOS knows it by.
pub proof fn law_modes_are_the_same_to_the_recorder(mode: CaptureMode, r: RecordMode, code: i32)
    requires
        call_ensures(record_mode, (mode,), r),
        call_ensures(RecordMode::code, (r,), code),
    ensures
        mode == CaptureMode::Region ==> r == RecordMode::Region && code == 0,
        mode == CaptureMode::Window ==> r == RecordMode::Window && code == 1,
        mode == CaptureMode::Fullscreen ==> r == RecordMode::Fullscreen && code == 2,
{
}

/// Nothing is waited for unless a window was on the screen.
pub proof fn law_windows_get_time_to_go(main: bool, preferences: bool, r: u64)
    requires
        call_ensures(settle_delay_ms, (main, preferences), r),
    ensures
        r == 0 <==> !main && !preferences,
        r == 0 || r == 200,
{
}

/// A recorder that has started makes the session a recording one, with its tray icon and its
/// poll. Otherwise the session is over: without a word where the user cancelled, else with one.
pub proof fn law_recorders_start_the_session(
    session: &mut Option<Session>,
    outcome: Result<BeginOutcome, String>,
    permitted: bool,
    r: Vec<Effect>,
)
    requires
        call_ensures(run_begin, (session, outcome, permitted), r),
    ensures
        outcome is Ok && outcome->Ok_0 is Started ==> {
            &&& is_same_but_for_phase(*old(session), *final(session), Phase::Recording)
            &&& r@.len() == 3
            &&& r@[0] is CreateTray && r@[1] is StartTick && r@[2] is EmitState
        },
        !(outcome is Ok && outcome->Ok_0 is Started) ==> {
            &&& *final(session) is None
            &&& r@.len() >= 2
            &&& r@[0] is StopTick && r@[1] is EmitState
        },
        outcome is Ok && outcome->Ok_0 is Cancelled ==> r@.len() == 2,
        outcome is Ok && outcome->Ok_0 is Busy ==> r@.len() == 3 && (r@[2] matches Effect::Failure(t)
            && t@ == "A recording is already in progress."@),
        outcome is Err ==> r@.len() == 3 && (r@[2] matches Effect::Failure(t) && (permitted ==> t@
            == "Recording failed: "@ + outcome->Err_0@)),
{
    lemma_effects(r@);
    let m = effects(r@);
    assert(r@[0]@ == m[0] && r@[1]@ == m[1]);
    if r@.len() > 2 {
        assert(r@[2]@ == m[2]);
    }
}

/// A missing permission is the cause that is named, whatever else was said; else the cause is
/// told as it is.
pub proof fn law_missing_permissions_are_named(error: &str, other: &str, missing: String, again: String, told: String)
    requires
        call_ensures(begin_error_message, (false, error), missing),
        call_ensures(begin_error_message, (false, other), again),
        call_ensures(begin_error_message, (true, error), told),
    ensures
        missing@ == again@,
        told@ == "Recording failed: "@ + error@,
{
}

// ---- Pause and resume ----------------------------------------------------------------

/// Only a running recording can be paused, and only a paused one resumed.
pub proof fn law_pause_and_resume_need_their_phase(
    session: Option<Session>,
    p: Result<(), String>,
    q: Result<(), String>,
)
    requires
        call_ensures(pause, (&session,), p),
        call_ensures(resume, (&session,), q),
    ensures
        p is Ok <==> session is Some && session->0.phase == Phase::Recording,
        q is Ok <==> session is Some && session->0.phase == Phase::Paused,
        p is Err ==> p->Err_0@ == "No active recording to pause."@,
        q is Err ==> q->Err_0@ == "No paused recording to resume."@,
{
}

/// A pause is shown as one, and its end too: the menu offers the opposite, the icon shows the
/// state, and the timer stands where it stood, marked during a pause.
pub proof fn law_pauses_are_shown(session: Option<Session>, paused: bool, r: Vec<Effect>, time: String)
    requires
        call_ensures(update_tray_visuals, (&session, paused), r),
        session is Some ==> call_ensures(format_elapsed, (session->0.elapsed_ms,), time),
        session is None ==> call_ensures(format_elapsed, (0u64,), time),
    ensures
        r@.len() == 4,
        r@[0] matches Effect::PauseLabel(t) && (paused ==> t@ == "Resume"@) && (!paused ==> t@
            == "Pause"@),
        r@[1] == (Effect::TrayIcon { paused }),
        r@[2] matches Effect::TrayTitle(t) && (paused ==> t@ == "⏸ "@ + time@) && (!paused ==> t@
            == time@),
        r@[3] is EmitState,
{
    lemma_effects(r@);
    let m = effects(r@);
    assert(r@[0]@ == m[0] && r@[1]@ == m[1] && r@[2]@ == m[2] && r@[3]@ == m[3]);
}

/// A recorder that has paused pauses the session, and one that has resumed resumes it; one that
/// could not leaves it as it is, and the reason is told.
pub proof fn law_sessions_follow_the_recorder(
    session: &mut Option<Session>,
    native: Result<(), String>,
    r: Step,
)
    requires
        call_ensures(pause_done, (session, native), r),
    ensures
        r.result is Ok <==> native is Ok,
        native is Ok ==> is_same_but_for_phase(*old(session), *final(session), Phase::Paused),
        native is Ok ==> r.effects@.len() == 4 && r.effects@[1] == (Effect::TrayIcon { paused: true }),
        native is Err ==> *final(session) == *old(session) && r.effects@.len() == 0
            && r.result->Err_0@ == native->Err_0@,
{
    lemma_effects(r.effects@);
    if r.effects@.len() > 1 {
        assert(r.effects@[1]@ == effects(r.effects@)[1]);
    }
}

/// A recorder that has resumed resumes the session; one that could not leaves it as it is, and
/// the reason is told.
pub proof fn law_sessions_resume_with_the_recorder(
    session: &mut Option<Session>,
    native: Result<(), String>,
    r: Step,
)
    requires
        call_ensures(resume_done, (session, native), r),
    ensures
        r.result is Ok <==> native is Ok,
        native is Ok ==> is_same_but_for_phase(*old(session), *final(session), Phase::Recording),
        native is Ok ==> r.effects@.len() == 4 && r.effects@[1] == (Effect::TrayIcon {
            paused: false,
        }),
        native is Err ==> *final(session) == *old(session) && r.effects@.len() == 0
            && r.result->Err_0@ == native->Err_0@,
{
    lemma_effects(r.effects@);
    if r.effects@.len() > 1 {
        assert(r.effects@[1]@ == effects(r.effects@)[1]);
    }
}

// ---- Stop and cancel -----------------------------------------------------------------

/// A recording that is on can be stopped once: whoever comes first may, and then it is being
/// stopped.
pub proof fn law_recordings_are_stopped_once(session: &mut Option<Session>, r: bool)
    requires
        call_ensures(begin_stopping, (session,), r),
    ensures
        r <==> is_on(*old(session)),
        r ==> is_same_but_for_phase(*old(session), *final(session), Phase::Stopping),
        !r ==> *final(session) == *old(session),
        !is_on(*final(session)),
{
}

/// Stopping a recording ends the poll, greys out the menu and says so; where there is nothing to
/// stop, that is told and nothing changes.
pub proof fn law_stopping_says_so(session: &mut Option<Session>, r: Step)
    requires
        call_ensures(stop, (session,), r),
    ensures
        r.result is Ok <==> is_on(*old(session)),
        r.result is Ok ==> {
            &&& is_same_but_for_phase(*old(session), *final(session), Phase::Stopping)
            &&& r.effects@.len() == 3
            &&& r.effects@[0] is StopTick && r.effects@[1] is DisableMenu
            &&& r.effects@[2] matches Effect::TrayTitle(t) && t@ == "Saving…"@
        },
        r.result is Err ==> *final(session) == *old(session) && r.effects@.len() == 0
            && r.result->Err_0@ == "No active recording to stop."@,
{
    lemma_effects(r.effects@);
    let m = effects(r.effects@);
    assert(r@.effects == m);
    if r.effects@.len() == 3 {
        assert(r.effects@[0]@ == m[0] && r.effects@[1]@ == m[1] && r.effects@[2]@ == m[2]);
    }
}

/// Discarding a recording ends the poll and greys out the menu; where there is nothing to
/// discard, that is told and nothing changes.
pub proof fn law_discarding_needs_a_recording(session: &mut Option<Session>, r: Step)
    requires
        call_ensures(cancel, (session,), r),
    ensures
        r.result is Ok <==> is_on(*old(session)),
        r.result is Ok ==> {
            &&& is_same_but_for_phase(*old(session), *final(session), Phase::Stopping)
            &&& r.effects@.len() == 2
            &&& r.effects@[0] is StopTick && r.effects@[1] is DisableMenu
        },
        r.result is Err ==> *final(session) == *old(session) && r.effects@.len() == 0
            && r.result->Err_0@ == "No active recording to discard."@,
{
    lemma_effects(r.effects@);
    let m = effects(r.effects@);
    assert(r@.effects == m);
    if r.effects@.len() == 2 {
        assert(r.effects@[0]@ == m[0] && r.effects@[1]@ == m[1]);
    }
}

/// Whether a video is the one of a session, as the recorder has measured it.
pub open spec fn is_the_video(v: FailedVideo, s: Session, res: RecordResult) -> bool {
    &&& v.path@ == s.out_path@
    &&& v.filename@ == s.filename@
    &&& v.duration_ms == res.duration_ms
    &&& v.width == res.width
    &&& v.height == res.height
}

/// The video to upload is the session's own file, with what the recorder has measured.
pub proof fn law_the_session_names_the_video(session: Option<Session>, res: RecordResult, r: Option<FailedVideo>)
    requires
        call_ensures(upload_recording, (&session, &res), r),
    ensures
        r is Some <==> session is Some,
        r is Some ==> is_the_video(r->0, session->0, res),
{
}

/// A recorder that has stopped starts the upload of the session's video; one that has failed ends
/// the session, and says why. The tray icon goes either way.
pub proof fn law_stopped_recorders_start_the_upload(
    session: &mut Option<Session>,
    result: Result<RecordResult, String>,
    r: Stopped,
)
    requires
        call_ensures(stop_done, (session, result), r),
    ensures
        r.effects@.len() >= 2,
        r.effects@[0] is RemoveTray,
        result is Ok ==> {
            &&& is_same_but_for_phase(*old(session), *final(session), Phase::Uploading)
            &&& r.video is Some <==> *old(session) is Some
            &&& r.video is Some ==> is_the_video(r.video->0, (*old(session))->0, result->Ok_0)
            &&& r.effects@.len() == 2
            &&& r.effects@[1] is EmitState
        },
        result is Err ==> {
            &&& *final(session) is None
            &&& r.video is None
            &&& r.effects@.len() == 4
            &&& r.effects@[1] is StopTick && r.effects@[2] is EmitState
            &&& r.effects@[3] matches Effect::Failure(t) && t@ == "Recording failed: "@
                + result->Err_0@
        },
{
    lemma_effects(r.effects@);
    let m = effects(r.effects@);
    assert(r.effects@[0]@ == m[0] && r.effects@[1]@ == m[1]);
    if r.effects@.len() == 4 {
        assert(r.effects@[2]@ == m[2] && r.effects@[3]@ == m[3]);
    }
}

/// Whether a list deletes this file.
pub open spec fn deletes(list: Seq<Effect>, path: Seq<char>) -> bool {
    exists|i: int|
        0 <= i < list.len() && (#[trigger] list[i] matches Effect::DeleteFile(t) && t@ == path)
}

/// A discarded recording is gone with its file, and with its tray icon and poll; nothing is
/// uploaded.
pub proof fn law_discarded_recordings_are_gone(session: &mut Option<Session>, r: Vec<Effect>)
    requires
        call_ensures(cancel_done, (session,), r),
    ensures
        *final(session) is None,
        *old(session) is Some ==> deletes(r@, (*old(session))->0.out_path@) && r@.len() == 5,
        *old(session) is None ==> r@.len() == 4,
        r@[0] is RemoveTray,
        r@[r@.len() - 3] is StopTick,
        r@[r@.len() - 2] matches Effect::MainTooltip(t) && t@ == "teil.ing"@,
        r@[r@.len() - 1] is EmitState,
{
    lemma_effects(r@);
    let m = effects(r@);
    let n = r@.len() as int;
    assert(r@[0]@ == m[0] && r@[1]@ == m[1]);
    assert(r@[n - 3]@ == m[n - 3] && r@[n - 2]@ == m[n - 2] && r@[n - 1]@ == m[n - 1]);
    if *old(session) is Some {
        assert(r@[1] matches Effect::DeleteFile(t) && t@ == (*old(session))->0.out_path@);
    }
}

/// Where the application ends, the file of the recording under way is named, if there is one.
pub proof fn law_the_last_file_is_named(session: Option<Session>, r: Option<String>)
    requires
        call_ensures(shutdown, (&session,), r),
    ensures
        r is Some <==> session is Some,
        r is Some ==> r->0@ == session->0.out_path@,
{
}

// ---- Poll ----------------------------------------------------------------------------

/// The recorder is polled while a recording is on, and a recording is active as long as there is
/// a session.
pub proof fn law_live_recordings_are_polled(session: Option<Session>, r: bool, active: bool)
    requires
        call_ensures(polls, (&session,), r),
        call_ensures(is_active, (&session,), active),
    ensures
        r <==> is_on(session),
        active <==> session is Some,
{
}

/// A poll notes how far the recorder is. While it works, the timer is drawn where it has changed;
/// once it has ended by itself, the recording is stopped; and where it has failed, it is given up
/// for the recorder's own reason.
pub proof fn law_polls_follow_the_recorder(
    session: &mut Option<Session>,
    last_title: &mut String,
    status: RecordStatus,
    r: Tick,
    time: String,
)
    requires
        call_ensures(tick_once, (session, last_title, &status), r),
        call_ensures(format_elapsed, (status.elapsed_ms,), time),
    ensures
        *old(session) is None ==> *final(session) is None,
        *old(session) is Some ==> *final(session) == Some(
            Session {
                elapsed_ms: status.elapsed_ms,
                bytes: status.bytes,
                ..(*old(session))->0
            },
        ),
        r.goes_on <==> status.state == RecordState::Recording || status.state == RecordState::Paused
            || status.state == RecordState::Finishing,
        !r.goes_on ==> final(last_title)@ == old(last_title)@ && r.effects@.len() == 1,
        status.state == RecordState::Stopped ==> r.effects@[0] is Stop,
        status.state == RecordState::Failed || status.state == RecordState::Idle ==> r.effects@[0]
            == Effect::FailNative(status.reason),
        r.goes_on ==> {
            let title = if status.state == RecordState::Paused {
                "⏸ "@ + time@
            } else {
                time@
            };
            &&& final(last_title)@ == title
            &&& r.effects@.last() is EmitState
            &&& title == old(last_title)@ ==> r.effects@.len() == 1
            &&& title != old(last_title)@ ==> {
                &&& r.effects@.len() == 3
                &&& r.effects@[0] matches Effect::TrayTooltip(t) && t@ == "Recording "@ + title
                    + " — click to stop, right-click for options"@
                &&& r.effects@[1] matches Effect::TrayTitle(t) && t@ == title
            }
        },
{
    lemma_effects(r.effects@);
    let m = effects(r.effects@);
    assert(r.effects@[0]@ == m[0]);
    assert(r.effects@[r.effects@.len() - 1]@ == m[m.len() - 1]);
    if r.effects@.len() == 3 {
        assert(r.effects@[1]@ == m[1]);
    }
}

/// A recorder that has failed ends the session and its tray icon and poll; the user is told, in
/// the words for the reason.
pub proof fn law_failed_recorders_end_the_session(
    session: &mut Option<Session>,
    reason: StopReason,
    r: Vec<Effect>,
    text: &'static str,
)
    requires
        call_ensures(fail_native, (session, reason), r),
        call_ensures(failure_message, (reason,), text),
    ensures
        *final(session) is None,
        r@.len() == 4,
        r@[0] is RemoveTray && r@[1] is StopTick && r@[2] is EmitState,
        r@[3] matches Effect::Failure(t) && t@ == text@,
        reason == StopReason::WriterError ==> text@ == "The recording could not be written to disk."@,
        reason == StopReason::NoFrames ==> text@ == "The recording captured no frames."@,
        reason == StopReason::StreamError ==> text@ == "The recording stopped unexpectedly."@,
        reason != StopReason::WriterError && reason != StopReason::NoFrames && reason
            != StopReason::StreamError ==> text@ == "The recording failed."@,
{
    lemma_effects(r@);
    let m = effects(r@);
    assert(r@[0]@ == m[0] && r@[1]@ == m[1] && r@[2]@ == m[2] && r@[3]@ == m[3]);
}

/// The status shows the session as it is, each thing in its place; without one, nothing.
pub proof fn law_status_shows_the_session(
    supported: bool,
    session: Option<Session>,
    r: RecordingStatus,
    mode: &'static str,
    phase: &'static str,
)
    requires
        call_ensures(status, (supported, &session), r),
        session is Some ==> call_ensures(CaptureMode::as_str, (session->0.mode,), mode),
        session is Some ==> call_ensures(Phase::as_str, (session->0.phase,), phase),
    ensures
        r.supported == supported,
        session is None ==> r.phase@ == "idle"@ && r.mode is None && r.elapsed_ms == 0
            && r.bytes_written == 0 && r.upload_sent is None && r.upload_total is None,
        session is Some ==> {
            let s = session->0;
            &&& r.phase@ == phase@
            &&& r.mode is Some && r.mode->0@ == mode@
            &&& r.elapsed_ms == s.elapsed_ms
            &&& r.bytes_written == s.bytes
            &&& s.upload is None ==> r.upload_sent is None && r.upload_total is None
            &&& s.upload matches Some((sent, total)) ==> r.upload_sent == Some(sent)
                && r.upload_total == Some(total)
        },
{
}

/// The phases have their own names.
pub proof fn law_phases_have_their_names(phase: Phase, r: &'static str)
    requires
        call_ensures(Phase::as_str, (phase,), r),
    ensures
        phase == Phase::Starting ==> r@ == "starting"@,
        phase == Phase::Recording ==> r@ == "recording"@,
        phase == Phase::Paused ==> r@ == "paused"@,
        phase == Phase::Stopping ==> r@ == "stopping"@,
        phase == Phase::Uploading ==> r@ == "uploading"@,
{
}

/// An entry of the menu does what it is called; the one that pauses resumes a paused recording.
pub proof fn law_menu_entries_do_what_they_say(id: &str, session: Option<Session>, r: Option<MenuCommand>)
    requires
        call_ensures(menu_command, (id, &session), r),
    ensures
        r == Some(MenuCommand::Stop) <==> id@ == "rec-stop"@,
        r == Some(MenuCommand::Cancel) <==> id@ == "rec-cancel"@,
        r == Some(MenuCommand::Resume) <==> id@ == "rec-pause"@ && session is Some
            && session->0.phase == Phase::Paused,
        r == Some(MenuCommand::Pause) <==> id@ == "rec-pause"@ && !(session is Some
            && session->0.phase == Phase::Paused),
{
    reveal_strlit("rec-stop");
    reveal_strlit("rec-pause");
    reveal_strlit("rec-cancel");
    assert("rec-stop"@[4] != "rec-pause"@[4]);
    assert("rec-stop"@[4] != "rec-cancel"@[4]);
    assert("rec-pause"@[4] != "rec-cancel"@[4]);
}

/// A recording that is started now is named after a point in time; all else is as for any other.
pub proof fn law_recordings_are_named_after_the_present(
    session: &mut Option<Session>,
    supported: bool,
    mode: &str,
    permitted: bool,
    folder: &str,
    r: Step,
)
    requires
        call_ensures(begin, (session, supported, mode, permitted, folder), r),
    ensures
        ({
            let known = mode@ == "region"@ || mode@ == "window"@ || mode@ == "fullscreen"@;
            &&& r.result is Ok <==> supported && known && permitted && *old(session) is None
            &&& r.result is Err ==> *final(session) == *old(session)
            &&& r.result is Ok ==> {
                let s = (*final(session))->0;
                &&& *final(session) is Some
                &&& mode@ == "region"@ ==> s.mode == CaptureMode::Region
                &&& mode@ == "window"@ ==> s.mode == CaptureMode::Window
                &&& mode@ == "fullscreen"@ ==> s.mode == CaptureMode::Fullscreen
                &&& s.phase == Phase::Starting
                &&& s.out_path@ == folder@ + s.filename@
                &&& s.elapsed_ms == 0 && s.bytes == 0 && s.upload is None
                &&& exists|stamp: Seq<char>| #[trigger]
                    is_stamp(stamp) && s.filename@ == "recording-"@ + stamp + ".mp4"@
            }
        }),
{
    law_mode_names_are_distinct(CaptureMode::Region);
    law_mode_names_are_distinct(CaptureMode::Window);
    law_mode_names_are_distinct(CaptureMode::Fullscreen);
    if r.result is Ok {
        let stamp = choose|stamp: Seq<char>| #[trigger]
            is_stamp(stamp) && is_started(*final(session), mode@, folder@, stamp);
        assert(is_stamp(stamp));
    }
}

} // verus!
