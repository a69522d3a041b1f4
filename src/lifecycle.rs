use vstd::prelude::*;

use crate::error::ConfigError;
use crate::placement::WindowPlacement;
use crate::record::{decoded, encode_placement, ron_text};

verus! {

/// The stages of one run of the application.
#[derive(Debug, Clone, Copy, PartialEq, Eq, Structural)]
pub enum AppState {
    Booting,
    Running,
    ClosingRequested,
    Terminated,
}

/// What the windowing framework reports.
#[derive(Debug, Clone, Copy, PartialEq, Eq, Structural)]
pub enum AppEvent {
    /// The window was created with the loaded placement.
    WindowCreated,
    /// The user or the system asked for the window to close.
    CloseRequested,
    /// The window was destroyed.
    WindowDestroyed,
}

/// The stage that follows `s` on event `e`, if that event moves it on.
pub open spec fn transition(s: AppState, e: AppEvent) -> Option<AppState> {
    match (s, e) {
        (AppState::Booting, AppEvent::WindowCreated) => Some(AppState::Running),
        (AppState::Running, AppEvent::CloseRequested) => Some(AppState::ClosingRequested),
        (AppState::ClosingRequested, AppEvent::WindowDestroyed) => Some(AppState::Terminated),
        _ => None,
    }
}

impl AppState {
    /// The stage after event `e`; an event that does not apply leaves the
    /// stage as it is. Once closing, the run never returns to `Running`.
    pub fn next(self, e: AppEvent) -> (r: AppState)
        ensures
            r == (match transition(self, e) {
                Some(t) => t,
                None => self,
            }),
            self == AppState::ClosingRequested ==> r != AppState::Running,
            self == AppState::Terminated ==> r == AppState::Terminated,
    {
        match (self, e) {
            (AppState::Booting, AppEvent::WindowCreated) => AppState::Running,
            (AppState::Running, AppEvent::CloseRequested) => AppState::ClosingRequested,
            (AppState::ClosingRequested, AppEvent::WindowDestroyed) => AppState::Terminated,
            _ => self,
        }
    }
}

/// What to do about the close requests seen in one frame.
#[derive(Debug, Clone, PartialEq, Eq)]
pub enum CloseAction {
    /// No close request is pending.
    Ignore,
    /// Write the text to the configuration file, then destroy the window.
    SaveAndClose(String),
    /// Stop with the error: nothing is written and the window stays.
    Abort(ConfigError),
}

/// The placement to remember for a window whose reported position is
/// `position`; a window that cannot report its position gives
/// `PositionUnavailable`.
pub fn capture_placement(position: Option<(i32, i32)>) -> (res: Result<WindowPlacement, ConfigError>)
    ensures
        res == (match position {
            Some((x, y)) => Ok(WindowPlacement::spec_at(x, y)),
            None => Err(ConfigError::PositionUnavailable),
        }),
{
    match position {
        Some((x, y)) => Ok(WindowPlacement::at(x, y)),
        None => Err(ConfigError::PositionUnavailable),
    }
}

/// What to do when `pending` close requests came in and the window reports
/// `position`: nothing if none came in; otherwise save the RON text of the
/// window's placement, which loads back as that placement, and close it.
pub fn on_close_requested(pending: usize, position: Option<(i32, i32)>) -> (act: CloseAction)
    ensures
        pending == 0 ==> act == CloseAction::Ignore,
        pending > 0 && position is None ==> act == CloseAction::Abort(
            ConfigError::PositionUnavailable,
        ),
        pending > 0 && position is Some ==> (act matches CloseAction::SaveAndClose(t) && t@
            == ron_text(position)),
        position matches Some((x, y)) ==> (pending > 0 ==> (act matches CloseAction::SaveAndClose(
            t,
        ) && decoded(t@) == Ok::<WindowPlacement, ConfigError>(WindowPlacement::spec_at(x, y)))),
{
    if pending == 0 {
        return CloseAction::Ignore;
    }
    match capture_placement(position) {
        Err(e) => CloseAction::Abort(e),
        Ok(p) => CloseAction::SaveAndClose(encode_placement(&p)),
    }
}

} // verus!
