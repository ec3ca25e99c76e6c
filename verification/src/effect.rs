//! What the application does for a step of the client: the steps are decided here, their
//! effects on windows, trays, files and the network are not.

use vstd::prelude::*;

use crate::recording::StopReason;

verus! {

/// One thing to do. A list of them is done in its order.
#[derive(Debug, PartialEq, Eq)]
pub enum Effect {
    /// Tells the frontend how the recording stands.
    EmitState,
    /// Hides the popover and the settings.
    HideWindows,
    /// Shows the popover and gives it the focus.
    ShowMain,
    /// Puts up the tray icon of the recording, with its menu.
    CreateTray,
    /// Takes down the tray icon of the recording.
    RemoveTray,
    /// Starts to poll the recorder.
    StartTick,
    /// Stops to poll the recorder.
    StopTick,
    /// Greys out the menu of the recording.
    DisableMenu,
    /// Names the menu entry that pauses and resumes.
    PauseLabel(String),
    /// Draws the tray icon of the recording.
    TrayIcon { paused: bool },
    /// Writes beside the tray icon of the recording.
    TrayTitle(String),
    /// Names the tray icon of the recording.
    TrayTooltip(String),
    /// Names the tray icon of the application.
    MainTooltip(String),
    /// Tells the user of a failure, and shows the popover.
    Failure(String),
    /// Deletes a file.
    DeleteFile(String),
    /// Stops the recording as if the user had asked for it.
    Stop,
    /// Gives a recording up that has failed.
    FailNative(StopReason),
    /// Tells the frontend that an upload has started.
    UploadStarted,
    /// Tells the frontend how far an upload is.
    UploadProgress { sent: u64, total: u64 },
    /// Tells the frontend that an upload is done.
    UploadSucceeded { id: String, share_url: String },
    /// Copies the captured picture.
    CopyImage,
    /// Copies a text.
    CopyText(String),
    /// Opens a page in the browser.
    OpenUrl(String),
    /// Asks the server to make an upload private.
    MarkPrivate { key: String, id: String },
}

/// One thing to do, as a value.
pub ghost enum EffectModel {
    EmitState,
    HideWindows,
    ShowMain,
    CreateTray,
    RemoveTray,
    StartTick,
    StopTick,
    DisableMenu,
    PauseLabel(Seq<char>),
    TrayIcon { paused: bool },
    TrayTitle(Seq<char>),
    TrayTooltip(Seq<char>),
    MainTooltip(Seq<char>),
    Failure(Seq<char>),
    DeleteFile(Seq<char>),
    Stop,
    FailNative(StopReason),
    UploadStarted,
    UploadProgress { sent: u64, total: u64 },
    UploadSucceeded { id: Seq<char>, share_url: Seq<char> },
    CopyImage,
    CopyText(Seq<char>),
    OpenUrl(Seq<char>),
    MarkPrivate { key: Seq<char>, id: Seq<char> },
}

impl View for Effect {
    type V = EffectModel;

    open spec fn view(&self) -> EffectModel {
        match *self {
            Effect::EmitState => EffectModel::EmitState,
            Effect::HideWindows => EffectModel::HideWindows,
            Effect::ShowMain => EffectModel::ShowMain,
            Effect::CreateTray => EffectModel::CreateTray,
            Effect::RemoveTray => EffectModel::RemoveTray,
            Effect::StartTick => EffectModel::StartTick,
            Effect::StopTick => EffectModel::StopTick,
            Effect::DisableMenu => EffectModel::DisableMenu,
            Effect::PauseLabel(t) => EffectModel::PauseLabel(t@),
            Effect::TrayIcon { paused } => EffectModel::TrayIcon { paused },
            Effect::TrayTitle(t) => EffectModel::TrayTitle(t@),
            Effect::TrayTooltip(t) => EffectModel::TrayTooltip(t@),
            Effect::MainTooltip(t) => EffectModel::MainTooltip(t@),
            Effect::Failure(t) => EffectModel::Failure(t@),
            Effect::DeleteFile(t) => EffectModel::DeleteFile(t@),
            Effect::Stop => EffectModel::Stop,
            Effect::FailNative(reason) => EffectModel::FailNative(reason),
            Effect::UploadStarted => EffectModel::UploadStarted,
            Effect::UploadProgress { sent, total } => EffectModel::UploadProgress { sent, total },
            Effect::UploadSucceeded { id, share_url } => EffectModel::UploadSucceeded {
                id: id@,
                share_url: share_url@,
            },
            Effect::CopyImage => EffectModel::CopyImage,
            Effect::CopyText(t) => EffectModel::CopyText(t@),
            Effect::OpenUrl(t) => EffectModel::OpenUrl(t@),
            Effect::MarkPrivate { key, id } => EffectModel::MarkPrivate { key: key@, id: id@ },
        }
    }
}

/// What a list of things to do holds.
pub open spec fn effects(list: Seq<Effect>) -> Seq<EffectModel> {
    list.map_values(|e: Effect| e@)
}

/// What the caller of a command gets, and what is to be done.
#[derive(Debug, PartialEq, Eq)]
pub struct Step {
    pub result: Result<(), String>,
    pub effects: Vec<Effect>,
}

/// What the caller of a command gets, and what is to be done, as values.
#[verifier::ext_equal]
pub ghost struct StepModel {
    pub result: Result<(), Seq<char>>,
    pub effects: Seq<EffectModel>,
}

impl View for Step {
    type V = StepModel;

    open spec fn view(&self) -> StepModel {
        StepModel {
            result: match self.result {
                Ok(_) => Ok(()),
                Err(e) => Err(e@),
            },
            effects: effects(self.effects@),
        }
    }
}

/// A command that is refused, with nothing to do.
pub open spec fn refusal(message: Seq<char>) -> StepModel {
    StepModel { result: Err(message), effects: Seq::empty() }
}

/// A command that is accepted, with what is to be done for it.
pub open spec fn accepted(effects: Seq<EffectModel>) -> StepModel {
    StepModel { result: Ok(()), effects }
}

/// Refuses a command.
pub(crate) fn refuse(message: String) -> (r: Step)
    ensures
        r@ == refusal(message@),
{
    let r = Step { result: Err(message), effects: Vec::new() };
    assert(r@.effects =~= Seq::empty());
    r
}

/// Accepts a command.
pub(crate) fn accept(list: Vec<Effect>) -> (r: Step)
    ensures
        r@ == accepted(effects(list@)),
{
    Step { result: Ok(()), effects: list }
}

} // verus!
