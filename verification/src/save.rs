//! Saving a settings request from the settings window: register the shortcut,
//! apply always-on-top, apply launch at login, store the settings in the shared
//! state, write them to disk; the first failure ends the procedure with its
//! error.
use vstd::prelude::*;

use crate::settings::{
    empty_shortcut_message, lock_failed_error, lock_failed_message, saved_view,
    SaveSettingsPayload, SaveSettingsPayloadView, Settings, SettingsView,
};
use crate::text::{trim, trimmed};

verus! {

/// How far a save has come; each stage waits for the outcome of one call.
#[derive(Clone, Copy, Debug, PartialEq, Eq, Structural)]
pub enum SaveStage {
    RegisterShortcut,
    AlwaysOnTop,
    LaunchAtLogin,
    Store,
    Persist,
    Done,
}

/// The order of the stages.
pub open spec fn save_rank(s: SaveStage) -> int {
    match s {
        SaveStage::RegisterShortcut => 1,
        SaveStage::AlwaysOnTop => 2,
        SaveStage::LaunchAtLogin => 3,
        SaveStage::Store => 4,
        SaveStage::Persist => 5,
        SaveStage::Done => 6,
    }
}

/// What a save asks the application to do next.
#[derive(Debug)]
pub enum SaveCall {
    /// Make this text the only global shortcut.
    RegisterShortcut(String),
    /// Keep the main window above other windows, or not.
    ApplyAlwaysOnTop(bool),
    /// Bring launch at login to this state.
    ApplyLaunchAtLogin(bool),
    /// Replace the shared settings with these; fails where the shared state
    /// cannot be locked.
    StoreSettings(Settings),
    /// Write these settings to the settings file.
    PersistSettings(Settings),
}

pub enum SaveCallView {
    RegisterShortcut(Seq<char>),
    ApplyAlwaysOnTop(bool),
    ApplyLaunchAtLogin(bool),
    StoreSettings(SettingsView),
    PersistSettings(SettingsView),
}

impl View for SaveCall {
    type V = SaveCallView;

    open spec fn view(&self) -> SaveCallView {
        match self {
            SaveCall::RegisterShortcut(s) => SaveCallView::RegisterShortcut(s@),
            SaveCall::ApplyAlwaysOnTop(b) => SaveCallView::ApplyAlwaysOnTop(*b),
            SaveCall::ApplyLaunchAtLogin(b) => SaveCallView::ApplyLaunchAtLogin(*b),
            SaveCall::StoreSettings(s) => SaveCallView::StoreSettings(s@),
            SaveCall::PersistSettings(s) => SaveCallView::PersistSettings(s@),
        }
    }
}

/// One more call, or the end of the save: the settings now in force, or the
/// error to show.
#[derive(Debug)]
pub enum SaveStep {
    Call(SaveCall),
    Finished(Result<Settings, String>),
}

pub enum SaveStepView {
    Call(SaveCallView),
    Finished(Result<SettingsView, Seq<char>>),
}

impl View for SaveStep {
    type V = SaveStepView;

    open spec fn view(&self) -> SaveStepView {
        match self {
            SaveStep::Call(c) => SaveStepView::Call(c@),
            SaveStep::Finished(Ok(s)) => SaveStepView::Finished(Ok(s@)),
            SaveStep::Finished(Err(m)) => SaveStepView::Finished(Err(m@)),
        }
    }
}

/// A save in progress: the settings it is to store and the stage reached.
#[derive(Debug)]
pub struct SaveProcedure {
    settings: Settings,
    stage: SaveStage,
}

pub struct SaveProcedureView {
    pub settings: SettingsView,
    pub stage: SaveStage,
}

impl View for SaveProcedure {
    type V = SaveProcedureView;

    closed spec fn view(&self) -> SaveProcedureView {
        SaveProcedureView { settings: self.settings@, stage: self.stage }
    }
}

/// The value of a call's outcome.
pub open spec fn outcome_view(r: Result<(), String>) -> Result<(), Seq<char>> {
    match r {
        Ok(()) => Ok(()),
        Err(m) => Err(m@),
    }
}

/// Where a save begins: refused at once when the shortcut is blank, otherwise
/// by registering the trimmed shortcut.
pub open spec fn save_start_view(payload: SaveSettingsPayloadView) -> (
    SaveProcedureView,
    SaveStepView,
) {
    let settings = saved_view(payload);
    if trimmed(payload.shortcut).len() == 0 {
        (
            SaveProcedureView { settings, stage: SaveStage::Done },
            SaveStepView::Finished(Err(empty_shortcut_message())),
        )
    } else {
        (
            SaveProcedureView { settings, stage: SaveStage::RegisterShortcut },
            SaveStepView::Call(SaveCallView::RegisterShortcut(settings.shortcut)),
        )
    }
}

/// The stage after `stage` when its call went through, and the call it makes.
pub open spec fn save_next_call(s: SaveProcedureView) -> (SaveStage, SaveStepView) {
    match s.stage {
        SaveStage::RegisterShortcut => (
            SaveStage::AlwaysOnTop,
            SaveStepView::Call(SaveCallView::ApplyAlwaysOnTop(s.settings.always_on_top)),
        ),
        SaveStage::AlwaysOnTop => (
            SaveStage::LaunchAtLogin,
            SaveStepView::Call(SaveCallView::ApplyLaunchAtLogin(s.settings.launch_at_login)),
        ),
        SaveStage::LaunchAtLogin => (
            SaveStage::Store,
            SaveStepView::Call(SaveCallView::StoreSettings(s.settings)),
        ),
        SaveStage::Store => (
            SaveStage::Persist,
            SaveStepView::Call(SaveCallView::PersistSettings(s.settings)),
        ),
        _ => (SaveStage::Done, SaveStepView::Finished(Ok(s.settings))),
    }
}

/// One step of a save: a call that went through leads to the next call, or,
/// after writing to disk, to the stored settings; a failure ends the save with
/// the call's error unchanged, except that a failure to store reports that the
/// shared state could not be locked.
pub open spec fn save_transition_view(s: SaveProcedureView, outcome: Result<(), Seq<char>>) -> (
    SaveProcedureView,
    SaveStepView,
) {
    match outcome {
        Ok(()) => {
            let (stage, step) = save_next_call(s);
            (SaveProcedureView { stage, ..s }, step)
        },
        Err(e) => (
            SaveProcedureView { stage: SaveStage::Done, ..s },
            SaveStepView::Finished(
                Err(
                    if s.stage == SaveStage::Store {
                        lock_failed_message()
                    } else {
                        e
                    },
                ),
            ),
        ),
    }
}

impl SaveProcedure {
    /// Begins saving a request from the settings window.
    pub fn start(payload: &SaveSettingsPayload) -> (r: (SaveProcedure, SaveStep))
        ensures
            (r.0@, r.1@) == save_start_view(payload@),
    {
        let settings = payload.saved_settings(trim(payload.shortcut.as_str()));
        match payload.requested_shortcut() {
            Err(m) => (SaveProcedure { settings, stage: SaveStage::Done }, SaveStep::Finished(Err(m))),
            Ok(shortcut) => (
                SaveProcedure { settings, stage: SaveStage::RegisterShortcut },
                SaveStep::Call(SaveCall::RegisterShortcut(shortcut)),
            ),
        }
    }

    /// Whether the save has ended.
    pub fn is_finished(&self) -> (b: bool)
        ensures
            b == (self@.stage == SaveStage::Done),
    {
        self.stage == SaveStage::Done
    }

    /// Takes in the outcome of the last call and says what comes next.
    pub fn step(&mut self, outcome: Result<(), String>) -> (r: SaveStep)
        requires
            old(self)@.stage != SaveStage::Done,
        ensures
            (final(self)@, r@) == save_transition_view(old(self)@, outcome_view(outcome)),
    {
        match outcome {
            Ok(()) => match self.stage {
                SaveStage::RegisterShortcut => {
                    self.stage = SaveStage::AlwaysOnTop;
                    SaveStep::Call(SaveCall::ApplyAlwaysOnTop(self.settings.always_on_top))
                },
                SaveStage::AlwaysOnTop => {
                    self.stage = SaveStage::LaunchAtLogin;
                    SaveStep::Call(SaveCall::ApplyLaunchAtLogin(self.settings.launch_at_login))
                },
                SaveStage::LaunchAtLogin => {
                    self.stage = SaveStage::Store;
                    SaveStep::Call(SaveCall::StoreSettings(self.settings.duplicate()))
                },
                SaveStage::Store => {
                    self.stage = SaveStage::Persist;
                    SaveStep::Call(SaveCall::PersistSettings(self.settings.duplicate()))
                },
                _ => {
                    self.stage = SaveStage::Done;
                    SaveStep::Finished(Ok(self.settings.duplicate()))
                },
            },
            Err(e) => {
                let message = if self.stage == SaveStage::Store {
                    lock_failed_error()
                } else {
                    e
                };
                self.stage = SaveStage::Done;
                SaveStep::Finished(Err(message))
            },
        }
    }
}

/// Every step of a save moves it to a later stage, and it ends exactly when a
/// step says it is finished; so a save makes at most five calls.
pub proof fn law_save_advances(s: SaveProcedureView, outcome: Result<(), Seq<char>>)
    requires
        s.stage != SaveStage::Done,
    ensures
        save_rank(save_transition_view(s, outcome).0.stage) > save_rank(s.stage),
        save_transition_view(s, outcome).0.stage == SaveStage::Done
            <==> save_transition_view(s, outcome).1 is Finished,
        save_transition_view(s, outcome).0.settings == s.settings,
{
}

/// A request whose shortcut is blank is refused at once with `Shortcut cannot
/// be empty`; any other request first registers its trimmed shortcut.
pub proof fn law_save_refuses_blank(payload: SaveSettingsPayloadView)
    ensures
        trimmed(payload.shortcut).len() == 0 ==> save_start_view(payload).1
            == SaveStepView::Finished(Err("Shortcut cannot be empty"@)),
        trimmed(payload.shortcut).len() > 0 ==> save_start_view(payload).1 == SaveStepView::Call(
            SaveCallView::RegisterShortcut(trimmed(payload.shortcut)),
        ),
{
}

/// A save starts unfinished exactly when it asks for a call.
pub proof fn law_save_begins(payload: SaveSettingsPayloadView)
    ensures
        save_start_view(payload).0.stage == SaveStage::Done <==> save_start_view(payload).1 is Finished,
{
}

/// When every call goes through, a save registers the trimmed shortcut,
/// applies always-on-top, then launch at login, stores the request's settings,
/// writes exactly those to disk and answers with them.
pub proof fn law_save_in_order(payload: SaveSettingsPayloadView)
    requires
        trimmed(payload.shortcut).len() > 0,
    ensures
        ({
            let saved = saved_view(payload);
            let (s0, c0) = save_start_view(payload);
            let (s1, c1) = save_transition_view(s0, Ok(()));
            let (s2, c2) = save_transition_view(s1, Ok(()));
            let (s3, c3) = save_transition_view(s2, Ok(()));
            let (s4, c4) = save_transition_view(s3, Ok(()));
            let (s5, c5) = save_transition_view(s4, Ok(()));
            &&& c0 == SaveStepView::Call(SaveCallView::RegisterShortcut(trimmed(payload.shortcut)))
            &&& c1 == SaveStepView::Call(SaveCallView::ApplyAlwaysOnTop(payload.always_on_top))
            &&& c2 == SaveStepView::Call(SaveCallView::ApplyLaunchAtLogin(payload.launch_at_login))
            &&& c3 == SaveStepView::Call(SaveCallView::StoreSettings(saved))
            &&& c4 == SaveStepView::Call(SaveCallView::PersistSettings(saved))
            &&& c5 == SaveStepView::Finished(Ok(saved))
            &&& s5.stage == SaveStage::Done
        }),
{
}

/// A failing call ends a save with that call's error unchanged; only a failure
/// to lock the shared state is answered with its own message.
pub proof fn law_save_stops_at_first_failure(s: SaveProcedureView, e: Seq<char>)
    requires
        s.stage != SaveStage::Done,
    ensures
        save_transition_view(s, Err(e)).1 == SaveStepView::Finished(
            Err(
                if s.stage == SaveStage::Store {
                    lock_failed_message()
                } else {
                    e
                },
            ),
        ),
        save_transition_view(s, Err(e)).0.stage == SaveStage::Done,
{
}

} // verus!
