use teil_ing::api::{Uploaded, VideoMeta};
use teil_ing::commands;
use teil_ing::commands::{ImageAction, ImageStage, Retry};
use teil_ing::effect::Effect;
use teil_ing::mode::CaptureMode;
use teil_ing::picture::{encode_png, Picture};
use teil_ing::prefs::Prefs;
use teil_ing::recording::upload;
use teil_ing::recording::upload::{Progress, VideoAction, VideoEvent, VideoStage, VideoUpload};
use teil_ing::recording::{FailedUpload, FailedVideo, Phase, Session};

const MS: u64 = 1_000_000;

fn text(s: &str) -> String {
    s.to_string()
}

fn video() -> FailedVideo {
    FailedVideo {
        path: text("/r/a.mp4"),
        filename: text("a.mp4"),
        duration_ms: 1500,
        width: 640,
        height: 480,
    }
}

fn session() -> Option<Session> {
    Some(Session {
        mode: CaptureMode::Region,
        phase: Phase::Uploading,
        out_path: text("/r/a.mp4"),
        filename: text("a.mp4"),
        elapsed_ms: 0,
        bytes: 0,
        upload: None,
    })
}

fn uploaded() -> Uploaded {
    Uploaded { id: text("id1"), share_url: text("https://s") }
}

fn quiet() -> Prefs {
    Prefs { clipboard_copy: false, open_in_browser: false, ..Prefs::default() }
}

/// An upload that waits for the reply of the server.
fn sent(in_session: bool) -> VideoUpload {
    VideoUpload { video: video(), in_session, stage: VideoStage::Reply { key: text("k") } }
}

#[test]
fn videos_are_announced_and_uploaded() {
    let (mut s, mut failed, prefs) = (session(), None, quiet());
    let step = upload::upload_video_file(video(), true);
    assert_eq!(step.action, VideoAction::ReadKey);
    assert_eq!(
        step.effects,
        vec![Effect::UploadStarted, Effect::MainTooltip(text("Uploading…"))]
    );
    let step = step.upload.advance(VideoEvent::Key(Some(text("k"))), &prefs, &mut s, &mut failed);
    assert_eq!(step.action, VideoAction::ReadSize { path: text("/r/a.mp4") });
    let step = step.upload.advance(VideoEvent::Size(Some(99)), &prefs, &mut s, &mut failed);
    assert_eq!(step.action, VideoAction::Preflight { key: text("k"), byte_size: 99 });
    let step = step.upload.advance(VideoEvent::Ticket(Ok(text("t"))), &prefs, &mut s, &mut failed);
    assert_eq!(
        step.action,
        VideoAction::Upload {
            key: text("k"),
            path: text("/r/a.mp4"),
            filename: text("a.mp4"),
            meta: VideoMeta { duration_ms: 1500, width: 640, height: 480 },
            ticket: text("t"),
        }
    );
    assert!(step.effects.is_empty() && s.is_some() && failed.is_none());
    let step = step.upload.advance(VideoEvent::Reply(Ok(uploaded())), &prefs, &mut s, &mut failed);
    assert_eq!(step.action, VideoAction::Finish);
    assert!(s.is_none() && failed.is_none());
    assert_eq!(
        step.effects,
        vec![
            Effect::DeleteFile(text("/r/a.mp4")),
            Effect::StopTick,
            Effect::EmitState,
            Effect::MainTooltip(text("teil.ing")),
            Effect::UploadSucceeded { id: text("id1"), share_url: text("https://s") },
        ]
    );
}

#[test]
fn uploaded_videos_go_where_the_user_wants_them() {
    let prefs = Prefs {
        private_upload: true,
        clipboard_copy: true,
        clipboard_mode: text("image"),
        open_in_browser: true,
        ..Prefs::default()
    };
    let (mut s, mut failed) = (session(), Some(FailedUpload::Video(video())));
    let step = sent(false).advance(VideoEvent::Reply(Ok(uploaded())), &prefs, &mut s, &mut failed);
    assert_eq!(
        step.effects,
        vec![
            Effect::MarkPrivate { key: text("k"), id: text("id1") },
            Effect::CopyText(text("https://s")),
            Effect::OpenUrl(text("https://s")),
            Effect::DeleteFile(text("/r/a.mp4")),
            Effect::MainTooltip(text("teil.ing")),
            Effect::UploadSucceeded { id: text("id1"), share_url: text("https://s") },
        ]
    );
    assert_eq!(s, session());
    assert!(failed.is_none());
}

#[test]
fn failed_videos_are_kept_for_a_retry() {
    let at = |stage: VideoStage| VideoUpload { video: video(), in_session: true, stage };
    for (stage, event, message) in [
        (
            VideoStage::Key,
            VideoEvent::Key(None),
            "No API key found. Please add your key in settings.",
        ),
        (
            VideoStage::Size { key: text("k") },
            VideoEvent::Size(None),
            "The recording file is empty or missing.",
        ),
        (
            VideoStage::Size { key: text("k") },
            VideoEvent::Size(Some(0)),
            "The recording file is empty or missing.",
        ),
        (VideoStage::Ticket { key: text("k") }, VideoEvent::Ticket(Err(text("no"))), "no"),
        (VideoStage::Reply { key: text("k") }, VideoEvent::Reply(Err(text("cut"))), "cut"),
    ] {
        let (mut s, mut failed) = (session(), None);
        let step = at(stage).advance(event, &quiet(), &mut s, &mut failed);
        assert_eq!(step.action, VideoAction::Finish);
        assert_eq!(step.upload.stage, VideoStage::Done);
        assert_eq!(
            step.effects,
            vec![
                Effect::StopTick,
                Effect::EmitState,
                Effect::MainTooltip(text("Upload failed")),
                Effect::Failure(text(message)),
            ]
        );
        assert!(s.is_none());
        assert_eq!(failed, Some(FailedUpload::Video(video())));
    }
}

#[test]
fn retried_videos_leave_the_session_alone() {
    let step = upload::retry_video(video());
    assert!(!step.upload.in_session);
    let (mut s, mut failed) = (session(), None);
    let step = step.upload.advance(VideoEvent::Key(None), &quiet(), &mut s, &mut failed);
    assert_eq!(step.effects.len(), 2);
    assert_eq!(s, session());
}

#[test]
fn uploads_ignore_what_they_do_not_wait_for() {
    let (mut s, mut failed) = (session(), None);
    let step = sent(true).advance(VideoEvent::Size(None), &quiet(), &mut s, &mut failed);
    assert_eq!(step.action, VideoAction::Wait);
    assert_eq!(step.upload, sent(true));
    let done = VideoUpload { stage: VideoStage::Done, ..sent(true) };
    let step = done.advance(VideoEvent::Reply(Ok(uploaded())), &quiet(), &mut s, &mut failed);
    assert_eq!((step.action, step.effects.len()), (VideoAction::Wait, 0));
    assert!(s.is_some() && failed.is_none());
}

#[test]
fn progress_is_throttled() {
    let mut s = session();
    let mut p = Progress::new();
    let report = |sent: u64| Effect::UploadProgress { sent, total: 1000 };
    assert_eq!(
        p.on_progress(0, 1000, 0, true, &mut s),
        vec![Effect::MainTooltip(text("Uploading… 0%")), report(0)]
    );
    assert_eq!(p.on_progress(5, 1000, 99 * MS, true, &mut s), vec![]);
    assert_eq!(s.as_ref().unwrap().upload, Some((0, 1000)));
    assert_eq!(p.on_progress(6, 1000, 100 * MS, true, &mut s), vec![report(6)]);
    assert_eq!(
        p.on_progress(10, 1000, 101 * MS, true, &mut s),
        vec![Effect::MainTooltip(text("Uploading… 1%")), report(10)]
    );
    assert_eq!(s.as_ref().unwrap().upload, Some((10, 1000)));
}

#[test]
fn the_end_of_an_upload_is_always_shown() {
    let mut s = session();
    let mut p = Progress { last_emit: Some(5), last_pct: Some(100) };
    assert_eq!(
        p.on_progress(1000, 1000, 6, false, &mut s),
        vec![Effect::UploadProgress { sent: 1000, total: 1000 }]
    );
    assert_eq!(s.unwrap().upload, None);
    let mut p = Progress { last_emit: Some(5), last_pct: Some(0) };
    assert_eq!(p.on_progress(0, 0, 6, false, &mut None).len(), 1);
    assert_eq!(p.on_progress(7, 0, 7, false, &mut None), vec![]);
}

fn picture() -> Picture {
    Picture { width: 1, height: 2, pixels: vec![1, 2, 3, 4, 5, 6, 7, 8] }
}

#[test]
fn captures_are_copied_before_the_upload() {
    let image_mode = Prefs { clipboard_mode: text("image"), ..Prefs::default() };
    let step = commands::upload_capture(picture(), None, &image_mode);
    assert_eq!(
        step.effects,
        vec![Effect::UploadStarted, Effect::MainTooltip(text("Uploading…")), Effect::CopyImage]
    );
    let step = commands::upload_capture(picture(), None, &Prefs::default());
    assert_eq!(step.effects.len(), 2);
    assert_eq!(step.action, ImageAction::ReadKey);
    let off = Prefs { clipboard_copy: false, ..image_mode };
    assert_eq!(commands::upload_capture(picture(), None, &off).effects.len(), 2);
}

#[test]
fn captures_are_sent_as_their_own_file_or_encoded() {
    let prefs = Prefs { strip_exif: true, private_upload: true, ..Prefs::default() };
    for (file, expected) in
        [(Some(vec![9, 9]), vec![9, 9]), (None, encode_png(&picture()).unwrap())]
    {
        let mut failed = Some(FailedUpload::Video(video()));
        let step = commands::upload_capture(picture(), file, &prefs)
            .upload
            .key_read(Some(text("k")), &prefs, &mut failed);
        assert_eq!(step.upload.stage, ImageStage::Reply);
        assert_eq!(failed, Some(FailedUpload::Video(video())));
        match step.action {
            ImageAction::Send { request, png } => {
                assert_eq!(png, expected);
                assert_eq!(request.url, "https://teil.ing/api/v1/upload");
                assert_eq!(request.headers[0].value, "k");
                assert_eq!(request.fields.len(), 2);
            }
            other => panic!("{other:?}"),
        }
    }
}

#[test]
fn uploaded_captures_go_where_the_user_wants_them() {
    let reply = |prefs: &Prefs| {
        let mut failed = Some(FailedUpload::Image(picture()));
        let upload = commands::upload_capture(picture(), None, prefs).upload;
        let step = upload.replied(Ok(uploaded()), prefs, &mut failed);
        assert!(failed.is_none());
        assert_eq!(step.action, ImageAction::Finish);
        step.effects
    };
    let end = vec![
        Effect::MainTooltip(text("teil.ing")),
        Effect::UploadSucceeded { id: text("id1"), share_url: text("https://s") },
    ];
    assert_eq!(reply(&quiet()), end);
    let mut all = vec![Effect::CopyText(text("https://s")), Effect::OpenUrl(text("https://s"))];
    all.extend(end);
    assert_eq!(reply(&Prefs::default()), all);
    let image_mode = Prefs { clipboard_mode: text("image"), ..Prefs::default() };
    assert_eq!(&reply(&image_mode)[..], &all[1..]);
}

#[test]
fn failed_captures_are_kept_for_a_retry() {
    let failure = |message: &str| {
        vec![Effect::MainTooltip(text("Upload failed")), Effect::Failure(text(message))]
    };
    let prefs = Prefs::default();
    let mut failed = None;
    let step = commands::upload_capture(picture(), None, &prefs)
        .upload
        .key_read(None, &prefs, &mut failed);
    assert_eq!(step.effects, failure("No API key found. Please add your key in settings."));
    assert_eq!(failed, Some(FailedUpload::Image(picture())));

    let mut failed = None;
    let step = commands::upload_capture(picture(), None, &prefs)
        .upload
        .send(text("k"), Err(text("PNG encode failed: x")), &prefs, &mut failed);
    assert_eq!(step.effects, failure("PNG encode failed: x"));
    assert_eq!(failed, Some(FailedUpload::Image(picture())));

    let mut failed = None;
    let step = commands::upload_capture(picture(), None, &prefs)
        .upload
        .replied(Err(text("offline")), &prefs, &mut failed);
    assert_eq!(step.effects, failure("offline"));
    assert_eq!(step.upload.stage, ImageStage::Done);
    assert_eq!(commands::retry_upload(&failed), Retry::Image(picture()));
    assert!(failed.is_some());
}

#[test]
fn retries_upload_what_is_kept() {
    assert_eq!(commands::retry_upload(&None), Retry::Nothing);
    assert_eq!(
        commands::retry_upload(&Some(FailedUpload::Video(video()))),
        Retry::Video(video())
    );
}

#[test]
fn the_end_of_an_upload_is_told_once() {
    let (mut s, mut failed, prefs) = (session(), None, quiet());
    let mut step = upload::upload_video_file(video(), true);
    let mut endings = 0;
    let events = vec![
        VideoEvent::Size(Some(1)),
        VideoEvent::Key(Some(text("k"))),
        VideoEvent::Key(None),
        VideoEvent::Size(Some(9)),
        VideoEvent::Reply(Ok(uploaded())),
        VideoEvent::Ticket(Err(text("no"))),
        VideoEvent::Ticket(Ok(text("t"))),
        VideoEvent::Reply(Ok(uploaded())),
    ];
    for event in events {
        step = step.upload.advance(event, &prefs, &mut s, &mut failed);
        endings += step
            .effects
            .iter()
            .filter(|e| matches!(e, Effect::UploadSucceeded { .. } | Effect::Failure(_)))
            .count();
    }
    assert_eq!(endings, 1);
    assert_eq!(step.upload.stage, VideoStage::Done);
    assert_eq!(failed, Some(FailedUpload::Video(video())));
}
