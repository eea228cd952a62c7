//! The tray icon's loop: it is created once, follows on/off commands and
//! ends for good on quit.
use vstd::prelude::*;

verus! {

/// A menu click, sent from the tray loop to the coordinator.
#[derive(Copy, Clone, Debug, PartialEq, Eq, Structural)]
pub enum TrayMessage {
    Show,
    Hide,
    Config,
    Quit,
}

/// A command from the coordinator to the tray loop.
#[derive(Copy, Clone, Debug, PartialEq, Eq, Structural)]
pub enum TrayControl {
    On,
    Off,
    Quit,
}

/// What the tray loop does to its native icon.
#[derive(Copy, Clone, Debug, PartialEq, Eq, Structural)]
pub enum TrayAction {
    /// Shows the "on" glyph (`true`) or the "off" glyph (`false`).
    SetIcon(bool),
    /// Tears the icon down; the loop ends after this.
    Shutdown,
}

/// The tray loop's state.
pub struct TrayState {
    pub running: bool,
    pub icon_on: bool,
}

/// The tray loop's decisions on one command, from one state.
pub open spec fn tray_step(s: TrayState, c: TrayControl) -> (TrayState, Option<TrayAction>) {
    if !s.running {
        (s, None)
    } else {
        match c {
            TrayControl::On => (TrayState { running: true, icon_on: true }, Some(TrayAction::SetIcon(true))),
            TrayControl::Off => (TrayState { running: true, icon_on: false }, Some(TrayAction::SetIcon(false))),
            TrayControl::Quit => (TrayState { running: false, icon_on: s.icon_on }, Some(TrayAction::Shutdown)),
        }
    }
}

pub struct TrayRunner {
    running: bool,
    icon_on: bool,
}

impl View for TrayRunner {
    type V = TrayState;

    closed spec fn view(&self) -> TrayState {
        TrayState { running: self.running, icon_on: self.icon_on }
    }
}

impl TrayRunner {
    /// A running tray whose icon starts with the "on" glyph.
    pub fn new() -> (r: TrayRunner)
        ensures
            r@.running,
            r@.icon_on,
    {
        TrayRunner { running: true, icon_on: true }
    }

    pub fn is_running(&self) -> (r: bool)
        ensures
            r == self@.running,
    {
        self.running
    }

    pub fn icon_on(&self) -> (r: bool)
        ensures
            r == self@.icon_on,
    {
        self.icon_on
    }

    /// Handles one command. Once shut down, the loop does nothing more.
    pub fn run(&mut self, c: TrayControl) -> (r: Option<TrayAction>)
        ensures
            (final(self)@, r) == tray_step(old(self)@, c),
    {
        if !self.running {
            return None;
        }
        match c {
            TrayControl::On => {
                self.icon_on = true;
                Some(TrayAction::SetIcon(true))
            },
            TrayControl::Off => {
                self.icon_on = false;
                Some(TrayAction::SetIcon(false))
            },
            TrayControl::Quit => {
                self.running = false;
                Some(TrayAction::Shutdown)
            },
        }
    }
}

} // verus!
