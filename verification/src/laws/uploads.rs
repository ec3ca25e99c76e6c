//! What is done for an upload: what the user wants, and nothing else; and what is kept.

use vstd::prelude::*;

use crate::api::{pairs, upload, upload_request, uploads, Request, Uploaded};
use crate::commands::{
    is_failed, retry_upload, upload_capture, ImageAction, ImageStep, ImageUpload, Retry,
};
use crate::effect::{effects, Effect, EffectModel};
use crate::picture::{encoded, Picture};
use crate::prefs::Prefs;
use crate::recording::upload::{
    only, percent, retry_video, upload_video_file, Progress, VideoAction, VideoEvent, VideoStage,
    VideoStep, VideoUpload,
};
use crate::recording::{closing, FailedUpload, FailedVideo, Session};
use crate::stamp::is_stamp;
use crate::text::decimal;

verus! {

proof fn lemma_effects(list: Seq<Effect>)
    ensures
        effects(list).len() == list.len(),
        forall|i: int| 0 <= i < list.len() ==> #[trigger] list[i]@ == effects(list)[i],
{
}

/// 1 for what is on, else 0.
pub open spec fn count(on: bool) -> int {
    if on {
        1
    } else {
        0
    }
}

/// Whether a list makes an upload private.
pub open spec fn some_marks_private(list: Seq<Effect>) -> bool {
    exists|i: int| 0 <= i < list.len() && (#[trigger] list[i]) is MarkPrivate
}

/// Whether a list copies a text.
pub open spec fn some_copies_text(list: Seq<Effect>) -> bool {
    exists|i: int| 0 <= i < list.len() && (#[trigger] list[i]) is CopyText
}

/// Whether a list opens a page.
pub open spec fn some_opens_url(list: Seq<Effect>) -> bool {
    exists|i: int| 0 <= i < list.len() && (#[trigger] list[i]) is OpenUrl
}

/// Whether a list deletes a file.
pub open spec fn some_deletes(list: Seq<Effect>) -> bool {
    exists|i: int| 0 <= i < list.len() && (#[trigger] list[i]) is DeleteFile
}

/// Whether a list ends a poll.
pub open spec fn some_stops_tick(list: Seq<Effect>) -> bool {
    exists|i: int| 0 <= i < list.len() && (#[trigger] list[i]) is StopTick
}

/// Whether a list copies the captured picture.
pub open spec fn some_copies_image(list: Seq<Effect>) -> bool {
    exists|i: int| 0 <= i < list.len() && (#[trigger] list[i]) is CopyImage
}

// ---- Videos --------------------------------------------------------------------------

/// Whatever becomes of an upload, it stays the upload of the same recording.
pub proof fn law_uploads_stay_with_their_recording(
    upload: VideoUpload,
    event: VideoEvent,
    prefs: Prefs,
    session: &mut Option<Session>,
    last_failed: &mut Option<FailedUpload>,
    r: VideoStep,
)
    requires
        call_ensures(VideoUpload::advance, (upload, event, &prefs, session, last_failed), r),
    ensures
        r.upload.video == upload.video,
        r.upload.in_session == upload.in_session,
{
}

/// A video that was uploaded is made private exactly where the user wants that, its link is
/// copied exactly where the user wants that, and opened exactly where the user wants that. Its
/// own id and link are used, and the key that the upload was made with. In the end the frontend
/// learns of it.
pub proof fn law_uploaded_videos_go_where_the_user_wants(
    upload: VideoUpload,
    key: String,
    uploaded: Uploaded,
    prefs: Prefs,
    session: &mut Option<Session>,
    last_failed: &mut Option<FailedUpload>,
    r: VideoStep,
)
    requires
        call_ensures(
            VideoUpload::advance,
            (upload, VideoEvent::Reply(Ok(uploaded)), &prefs, session, last_failed),
            r,
        ),
        upload.stage == (VideoStage::Reply { key }),
    ensures
        r.action is Finish,
        r.upload.stage is Done,
        some_marks_private(r.effects@) <==> prefs.private_upload,
        some_copies_text(r.effects@) <==> prefs.clipboard_copy,
        some_opens_url(r.effects@) <==> prefs.open_in_browser,
        some_deletes(r.effects@),
        some_stops_tick(r.effects@) <==> upload.in_session,
        forall|i: int|
            0 <= i < r.effects@.len() ==> match #[trigger] r.effects@[i] {
                Effect::MarkPrivate { key: k, id } => k@ == key@ && id@ == uploaded.id@,
                Effect::CopyText(t) => t@ == uploaded.share_url@,
                Effect::OpenUrl(t) => t@ == uploaded.share_url@,
                Effect::DeleteFile(t) => t@ == upload.video.path@,
                Effect::UploadSucceeded { id, share_url } => id@ == uploaded.id@ && share_url@
                    == uploaded.share_url@,
                Effect::MainTooltip(t) => t@ == "teil.ing"@,
                Effect::StopTick => true,
                Effect::EmitState => true,
                _ => false,
            },
        r.effects@.last() is UploadSucceeded,
        r.effects@[r.effects@.len() - 2] is MainTooltip,
        upload.in_session ==> r.effects@[r.effects@.len() - 3] is EmitState && r.effects@[
            r.effects@.len() - 4] is StopTick && r.effects@[r.effects@.len() - 5] is DeleteFile,
        !upload.in_session ==> r.effects@[r.effects@.len() - 3] is DeleteFile,
        r.effects@.len() == count(prefs.private_upload) + count(prefs.clipboard_copy) + count(
            prefs.open_in_browser,
        ) + 2 * count(upload.in_session) + 3,
        *final(last_failed) is None,
        upload.in_session ==> *final(session) is None,
        !upload.in_session ==> *final(session) == *old(session),
{
    let list = r.effects@;
    let m = effects(list);
    lemma_effects(list);
    let (private, copies, opens) = (prefs.private_upload, prefs.clipboard_copy, prefs.open_in_browser);
    let a: int = if private {
        1
    } else {
        0
    };
    let b: int = if copies {
        1
    } else {
        0
    };
    let c: int = if opens {
        1
    } else {
        0
    };
    assert forall|i: int| 0 <= i < list.len() implies #[trigger] list[i]@ == m[i] by {}
    if private {
        assert(list[0]@ == m[0]);
        assert(list[0] is MarkPrivate);
    }
    if copies {
        assert(list[a]@ == m[a]);
        assert(list[a] is CopyText);
    }
    if opens {
        assert(list[a + b]@ == m[a + b]);
        assert(list[a + b] is OpenUrl);
    }
    assert(list[a + b + c]@ == m[a + b + c]);
    assert(list[a + b + c] is DeleteFile);
    if upload.in_session {
        assert(list[a + b + c + 1]@ == m[a + b + c + 1]);
        assert(list[a + b + c + 1] is StopTick);
    }
    assert forall|i: int| 0 <= i < list.len() implies match #[trigger] list[i] {
        Effect::MarkPrivate { key: k, id } => private && k@ == key@ && id@ == uploaded.id@,
        Effect::CopyText(t) => copies && t@ == uploaded.share_url@,
        Effect::OpenUrl(t) => opens && t@ == uploaded.share_url@,
        Effect::DeleteFile(t) => t@ == upload.video.path@,
        Effect::UploadSucceeded { id, share_url } => id@ == uploaded.id@ && share_url@
            == uploaded.share_url@,
        Effect::MainTooltip(t) => t@ == "teil.ing"@,
        Effect::StopTick => upload.in_session,
        Effect::EmitState => true,
        _ => false,
    } by {
        assert(list[i]@ == m[i]);
    }
    let n = list.len() as int;
    assert(list[n - 1]@ == m[n - 1] && list[n - 2]@ == m[n - 2] && list[n - 3]@ == m[n - 3]);
    if upload.in_session {
        assert(list[n - 4]@ == m[n - 4] && list[n - 5]@ == m[n - 5]);
    }
}

/// Whether an upload has failed with a message: the user is told just that, nothing is copied,
/// opened or deleted, and the recording is kept for a retry.
pub open spec fn has_failed(
    upload: VideoUpload,
    r: VideoStep,
    before: Option<Session>,
    after: Option<Session>,
    kept: Option<FailedUpload>,
    message: Seq<char>,
) -> bool {
    &&& r.action is Finish
    &&& r.upload.stage is Done
    &&& kept == Some(FailedUpload::Video(upload.video))
    &&& upload.in_session ==> after is None
    &&& !upload.in_session ==> after == before
    &&& r.effects@.len() == 2 + 2 * count(upload.in_session)
    &&& r.effects@.last() matches Effect::Failure(t) && t@ == message
    &&& r.effects@[r.effects@.len() - 2] is MainTooltip
    &&& upload.in_session ==> r.effects@[0] is StopTick && r.effects@[1] is EmitState
    &&& some_stops_tick(r.effects@) <==> upload.in_session
    &&& forall|i: int|
        0 <= i < r.effects@.len() ==> match #[trigger] r.effects@[i] {
            Effect::StopTick => true,
            Effect::EmitState => upload.in_session,
            Effect::MainTooltip(t) => t@ == "Upload failed"@,
            Effect::Failure(t) => t@ == message,
            _ => false,
        }
}

proof fn lemma_failure_list(list: Seq<Effect>, in_session: bool, message: Seq<char>)
    requires
        effects(list) == only(in_session, closing()) + seq![
            EffectModel::MainTooltip("Upload failed"@),
            EffectModel::Failure(message),
        ],
    ensures
        list.len() == 2 + 2 * count(in_session),
        list.last() matches Effect::Failure(t) && t@ == message,
        list[list.len() - 2] is MainTooltip,
        in_session ==> list[0] is StopTick && list[1] is EmitState,
        some_stops_tick(list) <==> in_session,
        forall|i: int|
            0 <= i < list.len() ==> match #[trigger] list[i] {
                Effect::StopTick => true,
                Effect::EmitState => in_session,
                Effect::MainTooltip(t) => t@ == "Upload failed"@,
                Effect::Failure(t) => t@ == message,
                _ => false,
            },
{
    let m = effects(list);
    lemma_effects(list);
    assert(list[list.len() - 1]@ == m[m.len() - 1] && list[list.len() - 2]@ == m[m.len() - 2]);
    if in_session {
        assert(list[0]@ == m[0] && list[1]@ == m[1]);
        assert(list[0] is StopTick);
    }
    assert forall|i: int| 0 <= i < list.len() implies match #[trigger] list[i] {
        Effect::StopTick => in_session,
        Effect::EmitState => in_session,
        Effect::MainTooltip(t) => t@ == "Upload failed"@,
        Effect::Failure(t) => t@ == message,
        _ => false,
    } by {
        assert(list[i]@ == m[i]);
    }
}

/// An upload fails where there is no key, nothing in the file, no ticket, or no success in the
/// end: with the reason that was given, where there is one.
pub proof fn law_failed_uploads_tell_why(
    upload: VideoUpload,
    event: VideoEvent,
    prefs: Prefs,
    session: &mut Option<Session>,
    last_failed: &mut Option<FailedUpload>,
    r: VideoStep,
)
    requires
        call_ensures(VideoUpload::advance, (upload, event, &prefs, session, last_failed), r),
    ensures
        upload.stage is Key && event == VideoEvent::Key(None) ==> has_failed(
            upload,
            r,
            *old(session),
            *final(session),
            *final(last_failed),
            "No API key found. Please add your key in settings."@,
        ),
        upload.stage is Size && (event == VideoEvent::Size(None) || event == VideoEvent::Size(
            Some(0u64),
        )) ==> has_failed(
            upload,
            r,
            *old(session),
            *final(session),
            *final(last_failed),
            "The recording file is empty or missing."@,
        ),
        upload.stage is Ticket && event is Ticket && event->Ticket_0 is Err ==> has_failed(
            upload,
            r,
            *old(session),
            *final(session),
            *final(last_failed),
            event->Ticket_0->Err_0@,
        ),
        upload.stage is Reply && event is Reply && event->Reply_0 is Err ==> has_failed(
            upload,
            r,
            *old(session),
            *final(session),
            *final(last_failed),
            event->Reply_0->Err_0@,
        ),
{
    let (stage, in_session) = (upload.stage, upload.in_session);
    if stage is Key && event == VideoEvent::Key(None) {
        lemma_failure_list(
            r.effects@,
            in_session,
            "No API key found. Please add your key in settings."@,
        );
    }
    if stage is Size && (event == VideoEvent::Size(None) || event == VideoEvent::Size(Some(0u64))) {
        lemma_failure_list(r.effects@, in_session, "The recording file is empty or missing."@);
    }
    if stage is Ticket && event is Ticket && event->Ticket_0 is Err {
        lemma_failure_list(r.effects@, in_session, event->Ticket_0->Err_0@);
    }
    if stage is Reply && event is Reply && event->Reply_0 is Err {
        lemma_failure_list(r.effects@, in_session, event->Reply_0->Err_0@);
    }
}

/// Whether nothing is done or changed yet beside the next action.
pub open spec fn only_goes_on(
    r: VideoStep,
    before: Option<Session>,
    after: Option<Session>,
    kept_before: Option<FailedUpload>,
    kept: Option<FailedUpload>,
) -> bool {
    r.effects@.len() == 0 && after == before && kept == kept_before
}

/// An upload goes through its stages: with the key, the size of the recording's own file is read;
/// a file that holds something is announced with its size; and with the ticket for it, the file
/// is uploaded, under its own name and with what is known of the video.
pub proof fn law_uploads_go_through_their_stages(
    upload: VideoUpload,
    event: VideoEvent,
    prefs: Prefs,
    session: &mut Option<Session>,
    last_failed: &mut Option<FailedUpload>,
    r: VideoStep,
)
    requires
        call_ensures(VideoUpload::advance, (upload, event, &prefs, session, last_failed), r),
    ensures
        upload.stage is Key && event is Key && event->Key_0 is Some ==> {
            &&& r.action matches VideoAction::ReadSize { path } && path@ == upload.video.path@
            &&& r.upload.stage matches VideoStage::Size { key } && key@ == event->Key_0->0@
            &&& only_goes_on(
                r,
                *old(session),
                *final(session),
                *old(last_failed),
                *final(last_failed),
            )
        },
        upload.stage is Size && event is Size && event->Size_0 is Some && event->Size_0->0 > 0 ==> {
            &&& r.action matches VideoAction::Preflight { key, byte_size } && key@
                == upload.stage->Size_key@ && byte_size == event->Size_0->0
            &&& r.upload.stage matches VideoStage::Ticket { key } && key@ == upload.stage->Size_key@
            &&& only_goes_on(
                r,
                *old(session),
                *final(session),
                *old(last_failed),
                *final(last_failed),
            )
        },
        upload.stage is Ticket && event is Ticket && event->Ticket_0 is Ok ==> {
            &&& r.action matches VideoAction::Upload { key, path, filename, meta, ticket } && {
                &&& key@ == upload.stage->Ticket_key@
                &&& path@ == upload.video.path@
                &&& filename@ == upload.video.filename@
                &&& meta.duration_ms == upload.video.duration_ms
                &&& meta.width == upload.video.width
                &&& meta.height == upload.video.height
                &&& ticket@ == event->Ticket_0->Ok_0@
            }
            &&& r.upload.stage matches VideoStage::Reply { key } && key@
                == upload.stage->Ticket_key@
            &&& only_goes_on(
                r,
                *old(session),
                *final(session),
                *old(last_failed),
                *final(last_failed),
            )
        },
{
    lemma_effects(r.effects@);
}

/// What an upload does not wait for changes nothing: no step is taken twice or too early.
pub proof fn law_uploads_wait_for_their_turn(
    upload: VideoUpload,
    event: VideoEvent,
    prefs: Prefs,
    session: &mut Option<Session>,
    last_failed: &mut Option<FailedUpload>,
    r: VideoStep,
)
    requires
        call_ensures(VideoUpload::advance, (upload, event, &prefs, session, last_failed), r),
        !(upload.stage is Key && event is Key),
        !(upload.stage is Size && event is Size),
        !(upload.stage is Ticket && event is Ticket),
        !(upload.stage is Reply && event is Reply),
    ensures
        r.action is Wait,
        r.upload.stage == upload.stage,
        only_goes_on(r, *old(session), *final(session), *old(last_failed), *final(last_failed)),
{
    lemma_effects(r.effects@);
}

/// An upload starts with the key, and shows that it has started. A retry is an upload beside any
/// session.
pub proof fn law_uploads_start_with_the_key(
    video: FailedVideo,
    in_session: bool,
    r: VideoStep,
    again: VideoStep,
)
    requires
        call_ensures(upload_video_file, (video, in_session), r),
        call_ensures(retry_video, (video,), again),
    ensures
        r.upload.video == video,
        r.upload.in_session == in_session,
        again.upload.video == video,
        !again.upload.in_session,
        r.upload.stage is Key && again.upload.stage is Key,
        r.action is ReadKey && again.action is ReadKey,
        r.effects@.len() == 2 && again.effects@.len() == 2,
        r.effects@[0] is UploadStarted && again.effects@[0] is UploadStarted,
        r.effects@[1] matches Effect::MainTooltip(t) && t@ == "Uploading…"@,
        again.effects@[1] matches Effect::MainTooltip(t) && t@ == "Uploading…"@,
{
    lemma_effects(r.effects@);
    lemma_effects(again.effects@);
    assert(r.effects@[0]@ == effects(r.effects@)[0] && r.effects@[1]@ == effects(r.effects@)[1]);
    assert(again.effects@[0]@ == effects(again.effects@)[0] && again.effects@[1]@ == effects(
        again.effects@,
    )[1]);
}

/// Progress is shown with its own numbers, and only shown: at the start, at the end, at each new
/// percent, and after a tenth of a second without any. A session mirrors what is shown.
pub proof fn law_progress_is_shown_as_it_is(
    p: &mut Progress,
    sent: u64,
    total: u64,
    now: u64,
    in_session: bool,
    session: &mut Option<Session>,
    r: Vec<Effect>,
    number: String,
)
    requires
        call_ensures(Progress::on_progress, (p, sent, total, now, in_session, session), r),
        call_ensures(decimal, ((sent as int * 100 / (total as int)) as u64,), number),
        sent <= total,
        0 < total,
        sent * 100 <= u64::MAX,
    ensures
        ({
            let pct = sent as int * 100 / (total as int);
            let due = old(p).last_emit is None || old(p).last_pct is None || old(p).last_pct->0 != pct
                || now - old(p).last_emit->0 >= 100_000_000 || sent == total;
            &&& !due ==> r@.len() == 0 && *final(p) == *old(p) && *final(session) == *old(session)
            &&& due ==> {
                &&& r@.len() >= 1
                &&& r@.last() == (Effect::UploadProgress { sent, total })
                &&& r@.len() <= 2
                &&& r@.len() == 2 ==> (r@[0] matches Effect::MainTooltip(t) && t@ == "Uploading… "@
                    + number@ + "%"@)
                &&& r@.len() == 2 <==> old(p).last_pct != Some(pct as u64)
                &&& final(p).last_emit == Some(now)
                &&& final(p).last_pct == Some(pct as u64)
                &&& in_session && *old(session) is Some ==> *final(session) == Some(
                    Session { upload: Some((sent, total)), ..(*old(session))->0 },
                )
                &&& !in_session || *old(session) is None ==> *final(session) == *old(session)
            }
        }),
{
    lemma_effects(r@);
    let m = effects(r@);
    let pct = percent(sent, total);
    assert(0 <= pct <= 100) by {
        crate::recording::upload::law_progress_never_goes_back(sent, total, total);
    }
    if r@.len() > 0 {
        assert(r@[0]@ == m[0]);
        assert(r@[r@.len() - 1]@ == m[m.len() - 1]);
    }
}

// ---- Pictures ------------------------------------------------------------------------

/// Whether a request has a form field of this name.
pub open spec fn has_field(request: Request, name: Seq<char>) -> bool {
    exists|i: int| 0 <= i < request.fields@.len() && (#[trigger] request.fields@[i]).name@ == name
}

/// A captured picture is copied at once exactly where the user wants pictures copied; the upload
/// starts with the key and keeps the picture and its file.
pub proof fn law_captures_are_copied_at_once(
    image: Picture,
    png: Option<Vec<u8>>,
    prefs: Prefs,
    r: ImageStep,
)
    requires
        call_ensures(upload_capture, (image, png, &prefs), r),
    ensures
        r.upload.image == image,
        r.upload.png == png,
        r.upload.stage is Key,
        r.action is ReadKey,
        some_copies_image(r.effects@) <==> prefs.clipboard_copy && prefs.clipboard_mode@
            == "image"@,
        r.effects@.len() == 2 + count(prefs.clipboard_copy && prefs.clipboard_mode@ == "image"@),
        r.effects@[0] is UploadStarted,
        r.effects@[1] matches Effect::MainTooltip(t) && t@ == "Uploading…"@,
        forall|i: int| 2 <= i < r.effects@.len() ==> (#[trigger] r.effects@[i]) is CopyImage,
{
    let list = r.effects@;
    let m = effects(list);
    lemma_effects(list);
    assert(list[0]@ == m[0] && list[1]@ == m[1]);
    if list.len() > 2 {
        assert(list[2]@ == m[2]);
        assert(list[2] is CopyImage);
    }
    assert forall|i: int| 0 <= i < list.len() implies #[trigger] list[i]@ == m[i] by {}
}

/// Whether the request is the upload of a picture with these options: each goes along in the form
/// exactly where it is on, and nothing else beside the file.
pub open spec fn sends_picture(request: Request, key: Seq<char>, strip: bool, private: bool) -> bool {
    &&& request.method is Post
    &&& request.url@ == "https://teil.ing/api/v1"@ + "/upload"@
    &&& request.timeout_s == 180
    &&& request.headers@.len() == 1
    &&& request.headers@[0].name@ == "X-API-Key"@
    &&& request.headers@[0].value@ == key
    &&& has_field(request, "stripExif"@) <==> strip
    &&& has_field(request, "private"@) <==> private
    &&& forall|i: int|
        0 <= i < request.fields@.len() ==> (#[trigger] request.fields@[i]).value@ == "true"@ && (
        request.fields@[i].name@ == "stripExif"@ || request.fields@[i].name@ == "private"@)
    &&& request.file matches Some(f) && f.part@ == "file"@ && f.mime_type@ == "image/png"@
}

proof fn lemma_sends_picture(request: Request, key: Seq<char>, strip: bool, private: bool)
    requires
        uploads(request@, key, strip, private),
    ensures
        sends_picture(request, key, strip, private),
{
    let stamp = choose|stamp: Seq<char>| #[trigger]
        is_stamp(stamp) && request@ == upload_request(key, strip, private, stamp);
    let want = upload_request(key, strip, private, stamp);
    let (fields, headers) = (request.fields@, request.headers@);
    reveal_strlit("stripExif");
    reveal_strlit("private");
    assert("stripExif"@[0] != "private"@[0]);
    assert(pairs(fields) == want.fields && pairs(headers) == want.headers);
    assert(pairs(fields).len() == fields.len() && pairs(headers).len() == headers.len());
    assert(pairs(headers)[0] == headers[0]@);
    assert forall|i: int| 0 <= i < fields.len() implies #[trigger] fields[i]@ == want.fields[i] by {
        assert(pairs(fields)[i] == fields[i]@);
    }
    assert forall|i: int| 0 <= i < fields.len() implies (#[trigger] fields[i]).value@ == "true"@ && (
    fields[i].name@ == "stripExif"@ && strip || fields[i].name@ == "private"@ && private) by {
        assert(fields[i]@ == want.fields[i]);
    }
    if strip {
        assert(fields[0]@ == want.fields[0]);
        assert(fields[0].name@ == "stripExif"@);
    }
    if private {
        let last = fields.len() - 1;
        assert(fields[last]@ == want.fields[last]);
        assert(fields[last].name@ == "private"@);
    }
}

/// A picture whose file is there is sent, as that file, with the user's own options; one whose
/// file could not be made is kept.
pub proof fn law_pictures_are_sent_with_the_options_set(
    upload: ImageUpload,
    key: String,
    png: Result<Vec<u8>, String>,
    prefs: Prefs,
    last_failed: &mut Option<FailedUpload>,
    r: ImageStep,
)
    requires
        call_ensures(ImageUpload::send, (upload, key, png, &prefs, last_failed), r),
    ensures
        r.upload.image == upload.image,
        png matches Ok(file) ==> {
            &&& r.action matches ImageAction::Send { request, png: sent } && sent@ == file@
                && sends_picture(request, key@, prefs.strip_exif, prefs.private_upload)
            &&& r.upload.stage is Reply
            &&& r.effects@.len() == 0
            &&& *final(last_failed) == *old(last_failed)
        },
        png matches Err(e) ==> picture_is_kept(upload, r, *final(last_failed), e@),
{
    lemma_effects(r.effects@);
    if png is Ok {
        if let ImageAction::Send { request, png: sent } = r.action {
            lemma_sends_picture(request, key@, prefs.strip_exif, prefs.private_upload);
        }
    } else {
        lemma_picture_is_kept(upload, r, *final(last_failed), png->Err_0@);
    }
}

/// Whether an upload has failed: the user is told just why, and the picture is kept as it is.
pub open spec fn picture_is_kept(
    upload: ImageUpload,
    r: ImageStep,
    kept: Option<FailedUpload>,
    message: Seq<char>,
) -> bool {
    &&& r.action is Finish
    &&& r.upload.stage is Done
    &&& r.effects@.len() == 2
    &&& r.effects@[0] matches Effect::MainTooltip(t) && t@ == "Upload failed"@
    &&& r.effects@[1] matches Effect::Failure(t) && t@ == message
    &&& kept matches Some(FailedUpload::Image(p)) && p.width == upload.image.width && p.height
        == upload.image.height && p.pixels@ == upload.image.pixels@
}

proof fn lemma_picture_is_kept(
    upload: ImageUpload,
    r: ImageStep,
    kept: Option<FailedUpload>,
    message: Seq<char>,
)
    requires
        is_failed(upload, r, kept, message),
    ensures
        picture_is_kept(upload, r, kept, message),
{
    lemma_effects(r.effects@);
    assert(r.effects@[0]@ == effects(r.effects@)[0] && r.effects@[1]@ == effects(r.effects@)[1]);
}

/// With a key, the picture is sent: as the file that it came with, else as what it encodes to.
/// Without one it is kept.
pub proof fn law_pictures_are_sent_once_there_is_a_key(
    upload: ImageUpload,
    key: Option<String>,
    prefs: Prefs,
    last_failed: &mut Option<FailedUpload>,
    r: ImageStep,
)
    requires
        call_ensures(ImageUpload::key_read, (upload, key, &prefs, last_failed), r),
    ensures
        r.upload.image == upload.image,
        key is None ==> picture_is_kept(
            upload,
            r,
            *final(last_failed),
            "No API key found. Please add your key in settings."@,
        ),
        key is Some && upload.png is Some ==> {
            &&& r.action matches ImageAction::Send { request, png: sent } && sent@ == upload.png->0@
                && sends_picture(request, key->0@, prefs.strip_exif, prefs.private_upload)
            &&& r.upload.stage is Reply
            &&& r.effects@.len() == 0
            &&& *final(last_failed) == *old(last_failed)
        },
        key is Some && upload.png is None ==> match encoded(
            upload.image.width,
            upload.image.height,
            upload.image.pixels@,
        ) {
            Ok(file) => r.action matches ImageAction::Send { request, png: sent } && sent@ == file
                && sends_picture(request, key->0@, prefs.strip_exif, prefs.private_upload),
            Err(why) => r.action is Finish && *final(last_failed) is Some,
        },
{
    lemma_effects(r.effects@);
    if key is Some {
        if let ImageAction::Send { request, png: sent } = r.action {
            lemma_sends_picture(request, key->0@, prefs.strip_exif, prefs.private_upload);
        }
    } else {
        lemma_picture_is_kept(
            upload,
            r,
            *final(last_failed),
            "No API key found. Please add your key in settings."@,
        );
    }
}

/// The link of a picture that was uploaded is copied exactly where links are to be copied rather
/// than pictures, and opened exactly where the user wants that. Nothing is left to retry. A
/// picture that was not uploaded is kept.
pub proof fn law_links_of_pictures_go_where_the_user_wants(
    upload: ImageUpload,
    reply: Result<Uploaded, String>,
    prefs: Prefs,
    last_failed: &mut Option<FailedUpload>,
    r: ImageStep,
)
    requires
        call_ensures(ImageUpload::replied, (upload, reply, &prefs, last_failed), r),
    ensures
        r.upload.image == upload.image,
        reply matches Err(e) ==> picture_is_kept(upload, r, *final(last_failed), e@),
        reply matches Ok(u) ==> {
            &&& r.action is Finish
            &&& r.upload.stage is Done
            &&& *final(last_failed) is None
            &&& some_copies_text(r.effects@) <==> prefs.clipboard_copy && prefs.clipboard_mode@
                != "image"@
            &&& some_opens_url(r.effects@) <==> prefs.open_in_browser
            &&& r.effects@.len() == 2 + count(
                prefs.clipboard_copy && prefs.clipboard_mode@ != "image"@,
            ) + count(prefs.open_in_browser)
            &&& r.effects@.last() is UploadSucceeded
            &&& r.effects@[r.effects@.len() - 2] is MainTooltip
            &&& forall|i: int|
                0 <= i < r.effects@.len() ==> match #[trigger] r.effects@[i] {
                    Effect::CopyText(t) => t@ == u.share_url@,
                    Effect::OpenUrl(t) => t@ == u.share_url@,
                    Effect::MainTooltip(t) => t@ == "teil.ing"@,
                    Effect::UploadSucceeded { id, share_url } => id@ == u.id@ && share_url@
                        == u.share_url@,
                    _ => false,
                }
        },
{
    let list = r.effects@;
    let m = effects(list);
    lemma_effects(list);
    if reply is Ok {
        let u = reply->Ok_0;
        let (copies, opens) = (
            prefs.clipboard_copy && prefs.clipboard_mode@ != "image"@,
            prefs.open_in_browser,
        );
        let a: int = if copies {
            1
        } else {
            0
        };
        if copies {
            assert(list[0]@ == m[0]);
            assert(list[0] is CopyText);
        }
        if opens {
            assert(list[a]@ == m[a]);
            assert(list[a] is OpenUrl);
        }
        assert(list[list.len() - 1]@ == m[m.len() - 1] && list[list.len() - 2]@ == m[m.len() - 2]);
        assert forall|i: int| 0 <= i < list.len() implies match #[trigger] list[i] {
            Effect::CopyText(t) => copies && t@ == u.share_url@,
            Effect::OpenUrl(t) => opens && t@ == u.share_url@,
            Effect::MainTooltip(t) => t@ == "teil.ing"@,
            Effect::UploadSucceeded { id, share_url } => id@ == u.id@ && share_url@ == u.share_url@,
            _ => false,
        } by {
            assert(list[i]@ == m[i]);
        }
    } else {
        lemma_picture_is_kept(upload, r, *final(last_failed), reply->Err_0@);
    }
}

/// A retry uploads what is kept, unchanged, and nothing where nothing is.
pub proof fn law_retries_take_up_what_is_kept(last_failed: Option<FailedUpload>, r: Retry)
    requires
        call_ensures(retry_upload, (&last_failed,), r),
    ensures
        r is Nothing <==> last_failed is None,
        last_failed matches Some(FailedUpload::Image(p)) ==> (r matches Retry::Image(q) && q.width
            == p.width && q.height == p.height && q.pixels@ == p.pixels@),
        last_failed matches Some(FailedUpload::Video(v)) ==> (r matches Retry::Video(w) && w == v),
{
}

/// A picture is uploaded with the options given, whatever the time, and its file is named after a
/// point in time.
pub proof fn law_pictures_are_uploaded_with_the_options_given(
    key: &str,
    strip: bool,
    private: bool,
    r: Request,
)
    requires
        call_ensures(upload, (key, strip, private), r),
    ensures
        sends_picture(r, key@, strip, private),
        exists|stamp: Seq<char>| #[trigger]
            is_stamp(stamp) && r.file is Some && r.file->0.filename@ == "screenshot-"@ + stamp
                + ".png"@,
{
    lemma_sends_picture(r, key@, strip, private);
    let stamp = choose|stamp: Seq<char>| #[trigger]
        is_stamp(stamp) && r@ == upload_request(key@, strip, private, stamp);
    assert(is_stamp(stamp));
}

/// Before an upload nothing of its progress was shown.
pub proof fn law_nothing_is_shown_before_the_start(r: Progress)
    requires
        call_ensures(Progress::new, (), r),
    ensures
        r.last_emit is None && r.last_pct is None,
{
}

} // verus!
