//! The upload of a finished recording, step by step, and how its progress is shown.

use vstd::prelude::*;

use super::{
    closing, in_phase, shown_after_all, suits, FailedUpload, FailedVideo, Phase, Session, Shown,
};
use crate::api::{Uploaded, VideoMeta};
use crate::effect::{effects, Effect, EffectModel};
use crate::prefs::Prefs;
use crate::text::{decimal, decimal_text, join3};

verus! {

/// What an upload waits for.
#[derive(Debug, PartialEq, Eq)]
pub enum VideoStage {
    /// The user's API key.
    Key,
    /// The size of the file.
    Size { key: String },
    /// The server's leave to upload a file of this size.
    Ticket { key: String },
    /// The server's reply to the upload.
    Reply { key: String },
    Done,
}

/// What an upload learns.
#[derive(Debug, PartialEq, Eq)]
pub enum VideoEvent {
    /// The API key, where there is one.
    Key(Option<String>),
    /// The size of the file, where it could be read.
    Size(Option<u64>),
    /// The ticket to upload with, or why there is none.
    Ticket(Result<String, String>),
    /// What came of the upload.
    Reply(Result<Uploaded, String>),
}

/// What is to be done next for an upload.
#[derive(Debug, PartialEq, Eq)]
pub enum VideoAction {
    ReadKey,
    ReadSize { path: String },
    Preflight { key: String, byte_size: u64 },
    Upload { key: String, path: String, filename: String, meta: VideoMeta, ticket: String },
    /// The upload is over.
    Finish,
    /// Nothing; the upload waits for something else.
    Wait,
}

/// What is to be done next for an upload, as a value.
pub ghost enum VideoActionModel {
    ReadKey,
    ReadSize { path: Seq<char> },
    Preflight { key: Seq<char>, byte_size: u64 },
    Upload {
        key: Seq<char>,
        path: Seq<char>,
        filename: Seq<char>,
        meta: VideoMeta,
        ticket: Seq<char>,
    },
    Finish,
    Wait,
}

impl View for VideoAction {
    type V = VideoActionModel;

    open spec fn view(&self) -> VideoActionModel {
        match *self {
            VideoAction::ReadKey => VideoActionModel::ReadKey,
            VideoAction::ReadSize { path } => VideoActionModel::ReadSize { path: path@ },
            VideoAction::Preflight { key, byte_size } => VideoActionModel::Preflight {
                key: key@,
                byte_size,
            },
            VideoAction::Upload { key, path, filename, meta, ticket } => VideoActionModel::Upload {
                key: key@,
                path: path@,
                filename: filename@,
                meta,
                ticket: ticket@,
            },
            VideoAction::Finish => VideoActionModel::Finish,
            VideoAction::Wait => VideoActionModel::Wait,
        }
    }
}

/// The upload of a recording.
#[derive(Debug, PartialEq, Eq)]
pub struct VideoUpload {
    pub video: FailedVideo,
    /// Whether the session of the recording is still there, and mirrors the upload.
    pub in_session: bool,
    pub stage: VideoStage,
}

/// An upload, what is to be done next for it, and what is to be done at once.
#[derive(Debug, PartialEq, Eq)]
pub struct VideoStep {
    pub upload: VideoUpload,
    pub action: VideoAction,
    pub effects: Vec<Effect>,
}

/// Starts the upload of a recording.
pub fn upload_video_file(video: FailedVideo, in_session: bool) -> (r: VideoStep)
    ensures
        r.upload == (VideoUpload { video, in_session, stage: VideoStage::Key }),
        r.action is ReadKey,
        effects(r.effects@) == seq![
            EffectModel::UploadStarted,
            EffectModel::MainTooltip("Uploading…"@),
        ],
{
    let list = vec![Effect::UploadStarted, Effect::MainTooltip("Uploading…".to_owned())];
    assert(effects(list@) =~= seq![
        EffectModel::UploadStarted,
        EffectModel::MainTooltip("Uploading…"@),
    ]);
    VideoStep {
        upload: VideoUpload { video, in_session, stage: VideoStage::Key },
        action: VideoAction::ReadKey,
        effects: list,
    }
}

/// Starts the upload of a recording again that was kept.
pub fn retry_video(video: FailedVideo) -> (r: VideoStep)
    ensures
        r.upload == (VideoUpload { video, in_session: false, stage: VideoStage::Key }),
        r.action is ReadKey,
        effects(r.effects@) == seq![
            EffectModel::UploadStarted,
            EffectModel::MainTooltip("Uploading…"@),
        ],
{
    upload_video_file(video, false)
}

/// What becomes of the upload, the session and the kept recording.
pub ghost struct VideoNext {
    pub stage: VideoStage,
    pub action: VideoActionModel,
    pub effects: Seq<EffectModel>,
    pub session: Option<Session>,
    pub last_failed: Option<FailedUpload>,
}

/// `list` where `on`, else nothing.
pub open spec fn only(on: bool, list: Seq<EffectModel>) -> Seq<EffectModel> {
    if on {
        list
    } else {
        Seq::empty()
    }
}

impl VideoUpload {
    /// An upload that has failed: the recording is kept for a retry.
    pub open spec fn failed(&self, session: Option<Session>, message: Seq<char>) -> VideoNext {
        VideoNext {
            stage: VideoStage::Done,
            action: VideoActionModel::Finish,
            effects: only(self.in_session, closing()) + seq![
                EffectModel::MainTooltip("Upload failed"@),
                EffectModel::Failure(message),
            ],
            session: if self.in_session {
                None
            } else {
                session
            },
            last_failed: Some(FailedUpload::Video(self.video)),
        }
    }

    /// An upload that has worked: the link goes where the user wants it, and the file is
    /// deleted.
    pub open spec fn succeeded(
        &self,
        session: Option<Session>,
        prefs: Prefs,
        key: Seq<char>,
        id: Seq<char>,
        share_url: Seq<char>,
    ) -> VideoNext {
        VideoNext {
            stage: VideoStage::Done,
            action: VideoActionModel::Finish,
            effects: only(prefs.private_upload, seq![EffectModel::MarkPrivate { key, id }]) + only(
                prefs.clipboard_copy,
                seq![EffectModel::CopyText(share_url)],
            ) + only(prefs.open_in_browser, seq![EffectModel::OpenUrl(share_url)]) + seq![
                EffectModel::DeleteFile(self.video.path@),
            ] + only(self.in_session, closing()) + seq![
                EffectModel::MainTooltip("teil.ing"@),
                EffectModel::UploadSucceeded { id, share_url },
            ],
            session: if self.in_session {
                None
            } else {
                session
            },
            last_failed: None,
        }
    }

    /// An upload that goes on.
    pub open spec fn goes_on(
        &self,
        session: Option<Session>,
        last_failed: Option<FailedUpload>,
        stage: VideoStage,
        action: VideoActionModel,
    ) -> VideoNext {
        VideoNext { stage, action, effects: Seq::empty(), session, last_failed }
    }

    /// What becomes of an upload that learns of something. What it does not wait for
    /// changes nothing.
    pub open spec fn next(
        &self,
        event: VideoEvent,
        prefs: Prefs,
        session: Option<Session>,
        last_failed: Option<FailedUpload>,
    ) -> VideoNext {
        match (self.stage, event) {
            (VideoStage::Key, VideoEvent::Key(Some(key))) => self.goes_on(
                session,
                last_failed,
                VideoStage::Size { key },
                VideoActionModel::ReadSize { path: self.video.path@ },
            ),
            (VideoStage::Key, VideoEvent::Key(None)) => self.failed(
                session,
                "No API key found. Please add your key in settings."@,
            ),
            (VideoStage::Size { key }, VideoEvent::Size(size)) => match size {
                Some(n) if n > 0 => self.goes_on(
                    session,
                    last_failed,
                    VideoStage::Ticket { key },
                    VideoActionModel::Preflight { key: key@, byte_size: n },
                ),
                _ => self.failed(session, "The recording file is empty or missing."@),
            },
            (VideoStage::Ticket { key }, VideoEvent::Ticket(Ok(ticket))) => self.goes_on(
                session,
                last_failed,
                VideoStage::Reply { key },
                VideoActionModel::Upload {
                    key: key@,
                    path: self.video.path@,
                    filename: self.video.filename@,
                    meta: VideoMeta {
                        duration_ms: self.video.duration_ms,
                        width: self.video.width,
                        height: self.video.height,
                    },
                    ticket: ticket@,
                },
            ),
            (VideoStage::Ticket { key: _ }, VideoEvent::Ticket(Err(e))) => self.failed(session, e@),
            (VideoStage::Reply { key }, VideoEvent::Reply(Ok(u))) => self.succeeded(
                session,
                prefs,
                key@,
                u.id@,
                u.share_url@,
            ),
            (VideoStage::Reply { key: _ }, VideoEvent::Reply(Err(e))) => self.failed(session, e@),
            _ => self.goes_on(session, last_failed, self.stage, VideoActionModel::Wait),
        }
    }

    fn fail(
        self,
        session: &mut Option<Session>,
        last_failed: &mut Option<FailedUpload>,
        message: String,
    ) -> (r: VideoStep)
        ensures
            ({
                let next = self.failed(*old(session), message@);
                &&& r.upload == (VideoUpload { stage: next.stage, ..self })
                &&& r.action@ == next.action
                &&& effects(r.effects@) == next.effects
                &&& *final(session) == next.session
                &&& *final(last_failed) == next.last_failed
            }),
    {
        let ghost next = self.failed(*session, message@);
        *last_failed = Some(FailedUpload::Video(self.video.copy()));
        let mut list: Vec<Effect> = Vec::new();
        if self.in_session {
            *session = None;
            list.push(Effect::StopTick);
            list.push(Effect::EmitState);
        }
        list.push(Effect::MainTooltip("Upload failed".to_owned()));
        list.push(Effect::Failure(message));
        assert(effects(list@) =~= next.effects);
        VideoStep {
            upload: VideoUpload { stage: VideoStage::Done, ..self },
            action: VideoAction::Finish,
            effects: list,
        }
    }

    fn succeed(
        self,
        prefs: &Prefs,
        session: &mut Option<Session>,
        last_failed: &mut Option<FailedUpload>,
        key: String,
        uploaded: Uploaded,
    ) -> (r: VideoStep)
        ensures
            ({
                let next = self.succeeded(
                    *old(session),
                    *prefs,
                    key@,
                    uploaded.id@,
                    uploaded.share_url@,
                );
                &&& r.upload == (VideoUpload { stage: next.stage, ..self })
                &&& r.action@ == next.action
                &&& effects(r.effects@) == next.effects
                &&& *final(session) == next.session
                &&& *final(last_failed) == next.last_failed
            }),
    {
        let ghost next = self.succeeded(*session, *prefs, key@, uploaded.id@, uploaded.share_url@);
        let mut list: Vec<Effect> = Vec::new();
        if prefs.private_upload {
            list.push(Effect::MarkPrivate { key, id: uploaded.id.clone() });
        }
        if prefs.clipboard_copy {
            list.push(Effect::CopyText(uploaded.share_url.clone()));
        }
        if prefs.open_in_browser {
            list.push(Effect::OpenUrl(uploaded.share_url.clone()));
        }
        list.push(Effect::DeleteFile(self.video.path.clone()));
        *last_failed = None;
        if self.in_session {
            *session = None;
            list.push(Effect::StopTick);
            list.push(Effect::EmitState);
        }
        list.push(Effect::MainTooltip("teil.ing".to_owned()));
        list.push(Effect::UploadSucceeded { id: uploaded.id, share_url: uploaded.share_url });
        assert(effects(list@) =~= next.effects);
        VideoStep {
            upload: VideoUpload { stage: VideoStage::Done, ..self },
            action: VideoAction::Finish,
            effects: list,
        }
    }

    fn go_on(self, stage: VideoStage, action: VideoAction) -> (r: VideoStep)
        ensures
            r.upload == (VideoUpload { stage, ..self }),
            r.action == action,
            effects(r.effects@) == Seq::<EffectModel>::empty(),
    {
        let list: Vec<Effect> = Vec::new();
        assert(effects(list@) =~= Seq::empty());
        VideoStep { upload: VideoUpload { stage, ..self }, action, effects: list }
    }

    /// Takes in what an upload has learnt of. `last_failed` is what a retry uploads.
    pub fn advance(
        self,
        event: VideoEvent,
        prefs: &Prefs,
        session: &mut Option<Session>,
        last_failed: &mut Option<FailedUpload>,
    ) -> (r: VideoStep)
        ensures
            ({
                let next = self.next(event, *prefs, *old(session), *old(last_failed));
                &&& r.upload == (VideoUpload { stage: next.stage, ..self })
                &&& r.action@ == next.action
                &&& effects(r.effects@) == next.effects
                &&& *final(session) == next.session
                &&& *final(last_failed) == next.last_failed
            }),
    {
        let VideoUpload { video, in_session, stage } = self;
        match (stage, event) {
            (VideoStage::Key, VideoEvent::Key(Some(key))) => {
                let path = video.path.clone();
                VideoUpload { video, in_session, stage: VideoStage::Key }.go_on(
                    VideoStage::Size { key },
                    VideoAction::ReadSize { path },
                )
            },
            (VideoStage::Key, VideoEvent::Key(None)) => {
                VideoUpload { video, in_session, stage: VideoStage::Key }.fail(
                    session,
                    last_failed,
                    "No API key found. Please add your key in settings.".to_owned(),
                )
            },
            (VideoStage::Size { key }, VideoEvent::Size(size)) => {
                let upload = VideoUpload { video, in_session, stage: VideoStage::Done };
                match size {
                    Some(n) if n > 0 => {
                        let action = VideoAction::Preflight { key: key.clone(), byte_size: n };
                        upload.go_on(VideoStage::Ticket { key }, action)
                    },
                    _ => upload.fail(
                        session,
                        last_failed,
                        "The recording file is empty or missing.".to_owned(),
                    ),
                }
            },
            (VideoStage::Ticket { key }, VideoEvent::Ticket(Ok(ticket))) => {
                let action = VideoAction::Upload {
                    key: key.clone(),
                    path: video.path.clone(),
                    filename: video.filename.clone(),
                    meta: VideoMeta {
                        duration_ms: video.duration_ms,
                        width: video.width,
                        height: video.height,
                    },
                    ticket,
                };
                VideoUpload { video, in_session, stage: VideoStage::Done }.go_on(
                    VideoStage::Reply { key },
                    action,
                )
            },
            (VideoStage::Ticket { key: _ }, VideoEvent::Ticket(Err(e))) => {
                VideoUpload { video, in_session, stage: VideoStage::Done }.fail(
                    session,
                    last_failed,
                    e,
                )
            },
            (VideoStage::Reply { key }, VideoEvent::Reply(Ok(uploaded))) => {
                VideoUpload { video, in_session, stage: VideoStage::Done }.succeed(
                    prefs,
                    session,
                    last_failed,
                    key,
                    uploaded,
                )
            },
            (VideoStage::Reply { key: _ }, VideoEvent::Reply(Err(e))) => {
                VideoUpload { video, in_session, stage: VideoStage::Done }.fail(
                    session,
                    last_failed,
                    e,
                )
            },
            (stage, _) => {
                VideoUpload { video, in_session, stage: VideoStage::Done }.go_on(
                    stage,
                    VideoAction::Wait,
                )
            },
        }
    }
}

/// An upload that ends has either worked, and then its file is deleted and nothing is left to
/// retry; or the user is told why not, and the recording is kept, with its file, for a retry.
pub proof fn law_failed_recordings_are_kept(
    upload: VideoUpload,
    event: VideoEvent,
    prefs: Prefs,
    session: Option<Session>,
    last_failed: Option<FailedUpload>,
)
    requires
        upload.stage !is Done,
        upload.next(event, prefs, session, last_failed).stage is Done,
    ensures
        ({
            let next = upload.next(event, prefs, session, last_failed);
            match event {
                VideoEvent::Reply(Ok(u)) => {
                    &&& next.last_failed is None
                    &&& next.effects.contains(EffectModel::DeleteFile(upload.video.path@))
                    &&& next.effects.last() == EffectModel::UploadSucceeded {
                        id: u.id@,
                        share_url: u.share_url@,
                    }
                },
                _ => {
                    &&& next.last_failed == Some(FailedUpload::Video(upload.video))
                    &&& forall|i: int|
                        0 <= i < next.effects.len() ==> !(#[trigger] next.effects[i] is DeleteFile)
                    &&& next.effects.last() is Failure
                },
            }
        }),
{
    let next = upload.next(event, prefs, session, last_failed);
    if let VideoEvent::Reply(Ok(u)) = event {
        let at = only(
            prefs.private_upload,
            seq![EffectModel::MarkPrivate { key: upload.stage->Reply_key@, id: u.id@ }],
        ).len() + only(prefs.clipboard_copy, seq![EffectModel::CopyText(u.share_url@)]).len()
            + only(prefs.open_in_browser, seq![EffectModel::OpenUrl(u.share_url@)]).len();
        assert(next.effects[at as int] == EffectModel::DeleteFile(upload.video.path@));
    }
}

/// A file is uploaded only with a ticket that the server gave for it, and only a file that
/// holds something is announced.
pub proof fn law_uploads_are_announced(
    upload: VideoUpload,
    event: VideoEvent,
    prefs: Prefs,
    session: Option<Session>,
    last_failed: Option<FailedUpload>,
)
    ensures
        ({
            let next = upload.next(event, prefs, session, last_failed);
            &&& next.action matches VideoActionModel::Upload { key, ticket, .. } ==> {
                &&& event matches VideoEvent::Ticket(Ok(t))
                &&& t@ == ticket
                &&& upload.stage matches VideoStage::Ticket { key: k }
                &&& k@ == key
            }
            &&& next.action matches VideoActionModel::Preflight { byte_size, .. } ==> byte_size > 0
        }),
{
}

/// An upload that belongs to a session ends it, whatever comes of the upload; a retry leaves
/// a session that may run beside it alone.
pub proof fn law_uploads_end_their_own_session(
    upload: VideoUpload,
    event: VideoEvent,
    prefs: Prefs,
    session: Option<Session>,
    last_failed: Option<FailedUpload>,
)
    requires
        upload.stage !is Done,
    ensures
        ({
            let next = upload.next(event, prefs, session, last_failed);
            &&& upload.in_session && next.stage is Done ==> next.session is None
            &&& !upload.in_session || next.stage !is Done ==> next.session == session
        }),
{
}

/// Nothing comes of an upload that is over.
pub proof fn law_finished_uploads_stay_finished(
    upload: VideoUpload,
    event: VideoEvent,
    prefs: Prefs,
    session: Option<Session>,
    last_failed: Option<FailedUpload>,
)
    requires
        upload.stage is Done,
    ensures
        ({
            let next = upload.next(event, prefs, session, last_failed);
            &&& next.stage is Done
            &&& next.action is Wait
            &&& next.effects == Seq::<EffectModel>::empty()
            &&& next.session == session
            &&& next.last_failed == last_failed
        }),
{
}

/// How an upload and what belongs to it stand after some events.
pub ghost struct VideoRun {
    pub stage: VideoStage,
    pub session: Option<Session>,
    pub last_failed: Option<FailedUpload>,
    /// All that was done.
    pub effects: Seq<EffectModel>,
}

/// How an upload and what belongs to it stand after some events.
pub open spec fn run(
    upload: VideoUpload,
    events: Seq<VideoEvent>,
    prefs: Prefs,
    session: Option<Session>,
    last_failed: Option<FailedUpload>,
) -> VideoRun
    decreases events.len(),
{
    if events.len() == 0 {
        VideoRun { stage: upload.stage, session, last_failed, effects: Seq::empty() }
    } else {
        let before = run(upload, events.drop_last(), prefs, session, last_failed);
        let next = VideoUpload { stage: before.stage, ..upload }.next(
            events.last(),
            prefs,
            before.session,
            before.last_failed,
        );
        VideoRun {
            stage: next.stage,
            session: next.session,
            last_failed: next.last_failed,
            effects: before.effects + next.effects,
        }
    }
}

/// Whether the user is told how an upload ended.
pub open spec fn is_ending(e: EffectModel) -> bool {
    e is UploadSucceeded || e is Failure
}

/// How often the user is told how an upload ended.
pub open spec fn endings(list: Seq<EffectModel>) -> nat
    decreases list.len(),
{
    if list.len() == 0 {
        0
    } else {
        endings(list.drop_last()) + (if is_ending(list.last()) {
            1nat
        } else {
            0nat
        })
    }
}

proof fn lemma_endings_of_both(a: Seq<EffectModel>, b: Seq<EffectModel>)
    ensures
        endings(a + b) == endings(a) + endings(b),
    decreases b.len(),
{
    if b.len() == 0 {
        assert(a + b =~= a);
    } else {
        lemma_endings_of_both(a, b.drop_last());
        assert((a + b).drop_last() =~= a + b.drop_last());
    }
}

proof fn lemma_endings_of_one(on: bool, e: EffectModel)
    requires
        !is_ending(e),
    ensures
        endings(only(on, seq![e])) == 0,
{
    assert(seq![e].drop_last() =~= Seq::<EffectModel>::empty());
    assert(endings(Seq::<EffectModel>::empty()) == 0);
}

proof fn lemma_endings_of_two(a: EffectModel, b: EffectModel)
    requires
        !is_ending(a),
    ensures
        endings(seq![a, b]) == (if is_ending(b) {
            1nat
        } else {
            0nat
        }),
{
    lemma_endings_of_one(true, a);
    assert(seq![a, b].drop_last() =~= seq![a]);
}

proof fn lemma_endings_of_closing(on: bool)
    ensures
        endings(only(on, closing())) == 0,
{
    lemma_endings_of_two(EffectModel::StopTick, EffectModel::EmitState);
    assert(endings(Seq::<EffectModel>::empty()) == 0);
}

proof fn lemma_endings_of_a_failure(upload: VideoUpload, session: Option<Session>, message: Seq<char>)
    ensures
        endings(upload.failed(session, message).effects) == 1,
{
    let tail = seq![EffectModel::MainTooltip("Upload failed"@), EffectModel::Failure(message)];
    lemma_endings_of_both(only(upload.in_session, closing()), tail);
    lemma_endings_of_closing(upload.in_session);
    lemma_endings_of_two(EffectModel::MainTooltip("Upload failed"@), EffectModel::Failure(message));
}

proof fn lemma_endings_of_a_success(
    upload: VideoUpload,
    session: Option<Session>,
    prefs: Prefs,
    key: Seq<char>,
    id: Seq<char>,
    share_url: Seq<char>,
)
    ensures
        endings(upload.succeeded(session, prefs, key, id, share_url).effects) == 1,
{
    let a = only(prefs.private_upload, seq![EffectModel::MarkPrivate { key, id }]);
    let b = only(prefs.clipboard_copy, seq![EffectModel::CopyText(share_url)]);
    let c = only(prefs.open_in_browser, seq![EffectModel::OpenUrl(share_url)]);
    let d = seq![EffectModel::DeleteFile(upload.video.path@)];
    let e = only(upload.in_session, closing());
    let f = seq![
        EffectModel::MainTooltip("teil.ing"@),
        EffectModel::UploadSucceeded { id, share_url },
    ];
    lemma_endings_of_both(a + b + c + d + e, f);
    lemma_endings_of_both(a + b + c + d, e);
    lemma_endings_of_both(a + b + c, d);
    lemma_endings_of_both(a + b, c);
    lemma_endings_of_both(a, b);
    lemma_endings_of_one(prefs.private_upload, EffectModel::MarkPrivate { key, id });
    lemma_endings_of_one(prefs.clipboard_copy, EffectModel::CopyText(share_url));
    lemma_endings_of_one(prefs.open_in_browser, EffectModel::OpenUrl(share_url));
    lemma_endings_of_one(true, EffectModel::DeleteFile(upload.video.path@));
    lemma_endings_of_closing(upload.in_session);
    lemma_endings_of_two(
        EffectModel::MainTooltip("teil.ing"@),
        EffectModel::UploadSucceeded { id, share_url },
    );
}

/// The user is told how an upload ended in the step that ends it, and in no other.
proof fn lemma_endings_of_a_step(
    upload: VideoUpload,
    event: VideoEvent,
    prefs: Prefs,
    session: Option<Session>,
    last_failed: Option<FailedUpload>,
)
    ensures
        ({
            let next = upload.next(event, prefs, session, last_failed);
            endings(next.effects) == (if upload.stage !is Done && next.stage is Done {
                1nat
            } else {
                0nat
            })
        }),
{
    assert(endings(Seq::<EffectModel>::empty()) == 0);
    match (upload.stage, event) {
        (VideoStage::Key, VideoEvent::Key(None)) => {
            lemma_endings_of_a_failure(
                upload,
                session,
                "No API key found. Please add your key in settings."@,
            );
        },
        (VideoStage::Size { key: _ }, VideoEvent::Size(_)) => {
            lemma_endings_of_a_failure(
                upload,
                session,
                "The recording file is empty or missing."@,
            );
        },
        (VideoStage::Ticket { key: _ }, VideoEvent::Ticket(Err(e))) => {
            lemma_endings_of_a_failure(upload, session, e@);
        },
        (VideoStage::Reply { key }, VideoEvent::Reply(Ok(u))) => {
            lemma_endings_of_a_success(upload, session, prefs, key@, u.id@, u.share_url@);
        },
        (VideoStage::Reply { key: _ }, VideoEvent::Reply(Err(e))) => {
            lemma_endings_of_a_failure(upload, session, e@);
        },
        _ => {},
    }
}

/// Whatever an upload learns of, and in whatever order: the user is told once how it ended if
/// it has ended, and not before.
pub proof fn law_uploads_end_once(
    upload: VideoUpload,
    events: Seq<VideoEvent>,
    prefs: Prefs,
    session: Option<Session>,
    last_failed: Option<FailedUpload>,
)
    requires
        upload.stage !is Done,
    ensures
        endings(run(upload, events, prefs, session, last_failed).effects) == (if run(
            upload,
            events,
            prefs,
            session,
            last_failed,
        ).stage is Done {
            1nat
        } else {
            0nat
        }),
    decreases events.len(),
{
    if events.len() > 0 {
        law_uploads_end_once(upload, events.drop_last(), prefs, session, last_failed);
        let before = run(upload, events.drop_last(), prefs, session, last_failed);
        let at = VideoUpload { stage: before.stage, ..upload };
        let next = at.next(events.last(), prefs, before.session, before.last_failed);
        lemma_endings_of_both(before.effects, next.effects);
        lemma_endings_of_a_step(at, events.last(), prefs, before.session, before.last_failed);
    }
}

/// Once an upload has ended, either it has worked and nothing is left to retry, or the recording
/// is kept; before that, what was kept stays kept.
pub proof fn law_runs_keep_what_is_not_uploaded(
    upload: VideoUpload,
    events: Seq<VideoEvent>,
    prefs: Prefs,
    session: Option<Session>,
    last_failed: Option<FailedUpload>,
)
    requires
        upload.stage !is Done,
    ensures
        ({
            let r = run(upload, events, prefs, session, last_failed);
            if r.stage is Done {
                r.last_failed is None || r.last_failed == Some(FailedUpload::Video(upload.video))
            } else {
                r.last_failed == last_failed && r.session == session && r.effects
                    == Seq::<EffectModel>::empty()
            }
        }),
    decreases events.len(),
{
    if events.len() > 0 {
        law_runs_keep_what_is_not_uploaded(
            upload,
            events.drop_last(),
            prefs,
            session,
            last_failed,
        );
        let r = run(upload, events, prefs, session, last_failed);
        if r.stage !is Done {
            assert(r.effects =~= Seq::<EffectModel>::empty());
        }
    }
}

/// The end of an upload takes nothing up that a recording shows, so what is shown suits the
/// session that the upload ends.
pub proof fn law_uploads_suit_the_session(
    upload: VideoUpload,
    event: VideoEvent,
    prefs: Prefs,
    session: Option<Session>,
    last_failed: Option<FailedUpload>,
    shown: Shown,
)
    requires
        upload.in_session,
        in_phase(session, Phase::Uploading),
        suits(session, shown),
    ensures
        ({
            let next = upload.next(event, prefs, session, last_failed);
            suits(next.session, shown_after_all(shown, next.effects))
        }),
{
    let next = upload.next(event, prefs, session, last_failed);
    lemma_nothing_taken_up(shown, next.effects);
}

proof fn lemma_nothing_taken_up(shown: Shown, list: Seq<EffectModel>)
    requires
        !shown.tray,
        !shown.polling,
        forall|i: int|
            0 <= i < list.len() ==> !(#[trigger] list[i] is CreateTray) && !(list[i] is StartTick),
    ensures
        shown_after_all(shown, list) == shown,
    decreases list.len(),
{
    if list.len() > 0 {
        assert forall|i: int| 0 <= i < list.drop_last().len() implies !(
        #[trigger] list.drop_last()[i] is CreateTray) && !(list.drop_last()[i] is StartTick) by {
            assert(list.drop_last()[i] == list[i]);
        }
        lemma_nothing_taken_up(shown, list.drop_last());
        assert(!(list[list.len() - 1] is CreateTray));
    }
}

// ---- Progress ------------------------------------------------------------------------

/// How often the progress of an upload is shown, at most, while its percentage stays the
/// same.
pub const PROGRESS_PERIOD_NS: u64 = 100_000_000;

/// What was last shown of the progress of an upload. Points in time are readings of one
/// monotonic clock, in nanoseconds.
#[derive(Clone, Copy, Debug, PartialEq, Eq)]
pub struct Progress {
    pub last_emit: Option<u64>,
    pub last_pct: Option<u64>,
}

/// How much of an upload is done, in percent.
pub open spec fn percent(sent: u64, total: u64) -> int {
    if total > 0 {
        sent as int * 100 / (total as int)
    } else {
        0
    }
}

impl Progress {
    /// Nothing has been shown.
    pub fn new() -> (r: Progress)
        ensures
            r.last_emit is None,
            r.last_pct is None,
    {
        Progress { last_emit: None, last_pct: None }
    }

    /// Whether the percentage is another than the one shown.
    pub open spec fn moved(&self, sent: u64, total: u64) -> bool {
        match self.last_pct {
            Some(p) => percent(sent, total) != p,
            None => true,
        }
    }

    /// Whether the progress is shown now: where the percentage has changed, where it was
    /// not shown for a tenth of a second, and always at the end.
    pub open spec fn due(&self, sent: u64, total: u64, now: u64) -> bool {
        ||| self.moved(sent, total)
        ||| match self.last_emit {
            Some(t) => now - t >= PROGRESS_PERIOD_NS,
            None => true,
        }
        ||| sent == total
    }

    /// What is remembered of what was shown.
    pub open spec fn after(&self, sent: u64, total: u64, now: u64) -> Progress {
        if self.due(sent, total, now) {
            Progress { last_emit: Some(now), last_pct: Some(percent(sent, total) as u64) }
        } else {
            *self
        }
    }

    /// What is shown.
    pub open spec fn shown(&self, sent: u64, total: u64, now: u64) -> Seq<EffectModel> {
        only(
            self.due(sent, total, now),
            only(
                self.moved(sent, total),
                seq![
                    EffectModel::MainTooltip(
                        "Uploading… "@ + decimal_text(percent(sent, total) as nat) + "%"@,
                    ),
                ],
            ) + seq![EffectModel::UploadProgress { sent, total }],
        )
    }

    /// Shows the progress of an upload, if it is due. `session` is the session that mirrors
    /// the upload, where `in_session` says so.
    pub fn on_progress(
        &mut self,
        sent: u64,
        total: u64,
        now: u64,
        in_session: bool,
        session: &mut Option<Session>,
    ) -> (r: Vec<Effect>)
        requires
            sent * 100 <= u64::MAX,
            old(self).last_emit matches Some(t) ==> t <= now,
        ensures
            *final(self) == old(self).after(sent, total, now),
            effects(r@) == old(self).shown(sent, total, now),
            *final(session) == (match *old(session) {
                Some(s) if in_session && old(self).due(sent, total, now) => Some(
                    Session { upload: Some((sent, total)), ..s },
                ),
                s => s,
            }),
    {
        let ghost before = *self;
        let pct: u64 = if total > 0 {
            sent * 100 / total
        } else {
            0
        };
        let moved = match self.last_pct {
            Some(p) => pct != p,
            None => true,
        };
        let late = match self.last_emit {
            Some(t) => now - t >= PROGRESS_PERIOD_NS,
            None => true,
        };
        let mut list: Vec<Effect> = Vec::new();
        if !(moved || late || sent == total) {
            assert(effects(list@) =~= before.shown(sent, total, now));
            return list;
        }
        self.last_emit = Some(now);
        if moved {
            self.last_pct = Some(pct);
            list.push(Effect::MainTooltip(join3("Uploading… ", decimal(pct).as_str(), "%")));
        }
        if in_session {
            match session.take() {
                Some(s) => {
                    *session = Some(Session { upload: Some((sent, total)), ..s });
                },
                None => {},
            }
        }
        list.push(Effect::UploadProgress { sent, total });
        assert(effects(list@) =~= before.shown(sent, total, now));
        list
    }
}

/// The end of an upload is always shown, and so is its start.
pub proof fn law_completion_is_always_shown(p: Progress, sent: u64, total: u64, now: u64)
    requires
        sent == total || p.last_emit is None,
    ensures
        p.shown(sent, total, now).contains(EffectModel::UploadProgress { sent, total }),
{
    let shown = p.shown(sent, total, now);
    assert(shown[shown.len() - 1] == EffectModel::UploadProgress { sent, total });
}

/// Two times the progress is shown without a change of the percentage, before the end, lie
/// at least a tenth of a second apart: while a percent lasts, not every chunk is shown.
pub proof fn law_progress_is_throttled(p: Progress, first: u64, second: u64, total: u64, t1: u64, t2: u64)
    requires
        p.due(first, total, t1),
        t1 <= t2 < t1 + PROGRESS_PERIOD_NS,
        percent(first, total) == percent(second, total),
        percent(first, total) <= u64::MAX,
        second != total,
    ensures
        p.after(first, total, t1).shown(second, total, t2) == Seq::<EffectModel>::empty(),
        p.after(first, total, t1).after(second, total, t2) == p.after(first, total, t1),
{
    if total > 0 {
        assert(first as int * 100 / (total as int) >= 0) by (nonlinear_arith)
            requires
                total > 0,
        ;
    }
}

/// Of an upload of `total` bytes the percentage never goes back while more is sent, and is
/// 100 at the end.
pub proof fn law_progress_never_goes_back(first: u64, second: u64, total: u64)
    requires
        first <= second <= total,
        total > 0,
    ensures
        0 <= percent(first, total) <= percent(second, total) <= 100,
        percent(total, total) == 100,
{
    let t = total as int;
    vstd::arithmetic::div_mod::lemma_div_is_ordered(0, first as int * 100, t);
    vstd::arithmetic::div_mod::lemma_div_is_ordered(first as int * 100, second as int * 100, t);
    vstd::arithmetic::div_mod::lemma_div_is_ordered(second as int * 100, t * 100, t);
    vstd::arithmetic::div_mod::lemma_div_multiples_vanish(100, t);
    assert(0int / t == 0) by (nonlinear_arith)
        requires
            t > 0,
    ;
}

} // verus!
