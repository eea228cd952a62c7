//! The coordinator: the one owner of the overlay's visibility and of the
//! dialog's open state. It handles one event at a time and answers each
//! with the commands to send to the window owner, the tray and the dialog.
use vstd::prelude::*;
use crate::config::{ConfigControl, ConfigMessage};
use crate::tray::{TrayControl, TrayMessage};

verus! {

/// Virtual-key code of Scroll Lock, the key that shows and hides the overlay.
pub const TOGGLE_KEY: u32 = 145;

/// A command to the window owner, which draws the overlay.
#[derive(Copy, Clone, Debug, PartialEq, Eq, Structural)]
pub enum InterfaceMessage {
    ShowCross,
    HideCross,
    SetCross(usize),
    Jiggle,
    Quit,
}

/// Something the coordinator wakes up for.
#[derive(Copy, Clone, Debug, PartialEq, Eq, Structural)]
pub enum InterfaceEvent {
    /// A key went down (`pressed`) or up.
    Key { code: u32, pressed: bool },
    Tray(TrayMessage),
    Config(ConfigMessage),
    /// The application asks the coordinator to quit.
    Quit,
    /// The stored settings were written.
    SettingsChanged,
}

/// A command that the coordinator sends out.
#[derive(Copy, Clone, Debug, PartialEq, Eq, Structural)]
pub enum Effect {
    Window(InterfaceMessage),
    Tray(TrayControl),
    Config(ConfigControl),
}

/// The coordinator's state: whether the overlay shows, and whether the
/// dialog was asked to open and has not closed since.
#[derive(Copy, Clone, Debug, PartialEq, Eq, Structural)]
pub struct InterfaceState {
    pub showing: bool,
    pub config_open: bool,
}

pub open spec fn show_step(s: InterfaceState) -> (InterfaceState, Seq<Effect>) {
    (
        InterfaceState { showing: true, ..s },
        seq![Effect::Window(InterfaceMessage::ShowCross), Effect::Tray(TrayControl::On)],
    )
}

pub open spec fn hide_step(s: InterfaceState) -> (InterfaceState, Seq<Effect>) {
    (
        InterfaceState { showing: false, ..s },
        seq![Effect::Window(InterfaceMessage::HideCross), Effect::Tray(TrayControl::Off)],
    )
}

pub open spec fn toggle_step(s: InterfaceState) -> (InterfaceState, Seq<Effect>) {
    if s.showing {
        hide_step(s)
    } else {
        show_step(s)
    }
}

pub open spec fn quit_step(s: InterfaceState) -> (InterfaceState, Seq<Effect>) {
    (
        InterfaceState { showing: false, ..s },
        seq![Effect::Window(InterfaceMessage::Quit), Effect::Tray(TrayControl::Quit)],
    )
}

/// Opening sends a signal only while the dialog is not open already.
pub open spec fn open_step(s: InterfaceState) -> (InterfaceState, Seq<Effect>) {
    if s.config_open {
        (s, Seq::empty())
    } else {
        (InterfaceState { config_open: true, ..s }, seq![Effect::Config(ConfigControl::Open)])
    }
}

/// Closing sends a signal only while the dialog is open.
pub open spec fn close_step(s: InterfaceState) -> (InterfaceState, Seq<Effect>) {
    if s.config_open {
        (InterfaceState { config_open: false, ..s }, seq![Effect::Config(ConfigControl::Close)])
    } else {
        (s, Seq::empty())
    }
}

/// The coordinator's answer to one event.
pub open spec fn interface_step(s: InterfaceState, e: InterfaceEvent) -> (InterfaceState, Seq<Effect>) {
    match e {
        InterfaceEvent::Key { code, pressed } => if code == TOGGLE_KEY && pressed {
            toggle_step(s)
        } else {
            (s, Seq::empty())
        },
        InterfaceEvent::Tray(TrayMessage::Show) => show_step(s),
        InterfaceEvent::Tray(TrayMessage::Hide) => hide_step(s),
        InterfaceEvent::Tray(TrayMessage::Config) => open_step(s),
        InterfaceEvent::Tray(TrayMessage::Quit) => quit_step(s),
        InterfaceEvent::Config(ConfigMessage::ShowCross) => show_step(s),
        InterfaceEvent::Config(ConfigMessage::HideCross) => hide_step(s),
        InterfaceEvent::Config(ConfigMessage::SetCross(n)) => (
            s,
            seq![Effect::Window(InterfaceMessage::SetCross(n))],
        ),
        InterfaceEvent::Config(ConfigMessage::ConfigClosed) => (
            InterfaceState { config_open: false, ..s },
            Seq::empty(),
        ),
        InterfaceEvent::Quit => quit_step(s),
        InterfaceEvent::SettingsChanged => (s, seq![Effect::Config(ConfigControl::SettingsChanged)]),
    }
}

/// The coordinator's answers to a run of open (`true`) and close (`false`)
/// calls, in order.
pub open spec fn config_calls(s: InterfaceState, calls: Seq<bool>) -> (InterfaceState, Seq<Effect>)
    decreases calls.len(),
{
    if calls.len() == 0 {
        (s, Seq::empty())
    } else {
        let first = if calls[0] {
            open_step(s)
        } else {
            close_step(s)
        };
        let rest = config_calls(first.0, calls.drop_first());
        (rest.0, first.1 + rest.1)
    }
}

/// Whether the open and close signals among `effects` alternate, for a
/// dialog that starts open or not: never two opens without a close between
/// them, never two closes without an open.
pub open spec fn signals_alternate(open: bool, effects: Seq<Effect>) -> bool
    decreases effects.len(),
{
    if effects.len() == 0 {
        true
    } else {
        match effects[0] {
            Effect::Config(ConfigControl::Open) => !open && signals_alternate(true, effects.drop_first()),
            Effect::Config(ConfigControl::Close) => open && signals_alternate(false, effects.drop_first()),
            _ => signals_alternate(open, effects.drop_first()),
        }
    }
}

/// Whatever run of open and close calls the coordinator gets, the dialog is
/// signalled to open and to close in turn: closed, then running, then closed.
pub proof fn lemma_open_close_alternate(s: InterfaceState, calls: Seq<bool>)
    ensures
        signals_alternate(s.config_open, config_calls(s, calls).1),
    decreases calls.len(),
{
    if calls.len() > 0 {
        let first = if calls[0] {
            open_step(s)
        } else {
            close_step(s)
        };
        let rest = config_calls(first.0, calls.drop_first());
        lemma_open_close_alternate(first.0, calls.drop_first());
        if first.1.len() == 0 {
            assert(first.1 + rest.1 =~= rest.1);
        } else {
            assert((first.1 + rest.1).drop_first() =~= rest.1);
        }
    }
}

/// A press of the toggle key.
pub open spec fn toggle_press() -> InterfaceEvent {
    InterfaceEvent::Key { code: TOGGLE_KEY, pressed: true }
}

/// Toggling twice, by the key or by the tray's hide and show, brings the
/// coordinator back to where it was.
pub proof fn lemma_toggle_twice(s: InterfaceState)
    ensures
        interface_step(interface_step(s, toggle_press()).0, toggle_press()).0 == s,
        s.showing ==> interface_step(
            interface_step(s, InterfaceEvent::Tray(TrayMessage::Hide)).0,
            InterfaceEvent::Tray(TrayMessage::Show),
        ).0 == s,
        !s.showing ==> interface_step(
            interface_step(s, InterfaceEvent::Tray(TrayMessage::Show)).0,
            InterfaceEvent::Tray(TrayMessage::Hide),
        ).0 == s,
{
}

fn one(a: Effect) -> (r: Vec<Effect>)
    ensures
        r@ == seq![a],
{
    let mut r: Vec<Effect> = Vec::new();
    r.push(a);
    r
}

fn two(a: Effect, b: Effect) -> (r: Vec<Effect>)
    ensures
        r@ == seq![a, b],
{
    let mut r = one(a);
    r.push(b);
    r
}

pub struct InterfaceRunner {
    state: InterfaceState,
}

impl View for InterfaceRunner {
    type V = InterfaceState;

    closed spec fn view(&self) -> InterfaceState {
        self.state
    }
}

impl InterfaceRunner {
    /// A coordinator whose overlay shows and whose dialog is closed.
    pub fn new() -> (r: InterfaceRunner)
        ensures
            r@ == (InterfaceState { showing: true, config_open: false }),
    {
        InterfaceRunner { state: InterfaceState { showing: true, config_open: false } }
    }

    pub fn showing(&self) -> (r: bool)
        ensures
            r == self@.showing,
    {
        self.state.showing
    }

    pub fn config_open(&self) -> (r: bool)
        ensures
            r == self@.config_open,
    {
        self.state.config_open
    }

    /// Shows the overlay: the window owner and the tray's glyph are told together.
    pub fn show_cross(&mut self) -> (r: Vec<Effect>)
        ensures
            (final(self)@, r@) == show_step(old(self)@),
    {
        self.state.showing = true;
        two(Effect::Window(InterfaceMessage::ShowCross), Effect::Tray(TrayControl::On))
    }

    /// Hides the overlay: the window owner and the tray's glyph are told together.
    pub fn hide_cross(&mut self) -> (r: Vec<Effect>)
        ensures
            (final(self)@, r@) == hide_step(old(self)@),
    {
        self.state.showing = false;
        two(Effect::Window(InterfaceMessage::HideCross), Effect::Tray(TrayControl::Off))
    }

    /// Asks the window owner to draw crosshair `n`.
    pub fn set_cross(&mut self, n: usize) -> (r: Vec<Effect>)
        ensures
            final(self)@ == old(self)@,
            r@ == seq![Effect::Window(InterfaceMessage::SetCross(n))],
    {
        one(Effect::Window(InterfaceMessage::SetCross(n)))
    }

    /// Hides the overlay if it shows, and shows it otherwise.
    pub fn toggle_cross(&mut self) -> (r: Vec<Effect>)
        ensures
            (final(self)@, r@) == toggle_step(old(self)@),
    {
        if self.state.showing {
            self.hide_cross()
        } else {
            self.show_cross()
        }
    }

    /// Ends the window owner and the tray.
    pub fn quit(&mut self) -> (r: Vec<Effect>)
        ensures
            (final(self)@, r@) == quit_step(old(self)@),
    {
        self.state.showing = false;
        two(Effect::Window(InterfaceMessage::Quit), Effect::Tray(TrayControl::Quit))
    }

    /// Asks for the dialog, unless it is open already.
    pub fn open_config(&mut self) -> (r: Vec<Effect>)
        ensures
            (final(self)@, r@) == open_step(old(self)@),
    {
        if self.state.config_open {
            Vec::new()
        } else {
            self.state.config_open = true;
            one(Effect::Config(ConfigControl::Open))
        }
    }

    /// Asks the dialog to close, unless it is closed already.
    pub fn close_config(&mut self) -> (r: Vec<Effect>)
        ensures
            (final(self)@, r@) == close_step(old(self)@),
    {
        if self.state.config_open {
            self.state.config_open = false;
            one(Effect::Config(ConfigControl::Close))
        } else {
            Vec::new()
        }
    }

    /// Handles one event, wholly, and returns the commands to send out, in order.
    pub fn listen(&mut self, e: InterfaceEvent) -> (r: Vec<Effect>)
        ensures
            (final(self)@, r@) == interface_step(old(self)@, e),
    {
        match e {
            InterfaceEvent::Key { code, pressed } => if code == TOGGLE_KEY && pressed {
                self.toggle_cross()
            } else {
                Vec::new()
            },
            InterfaceEvent::Tray(TrayMessage::Show) => self.show_cross(),
            InterfaceEvent::Tray(TrayMessage::Hide) => self.hide_cross(),
            InterfaceEvent::Tray(TrayMessage::Config) => self.open_config(),
            InterfaceEvent::Tray(TrayMessage::Quit) => self.quit(),
            InterfaceEvent::Config(ConfigMessage::ShowCross) => self.show_cross(),
            InterfaceEvent::Config(ConfigMessage::HideCross) => self.hide_cross(),
            InterfaceEvent::Config(ConfigMessage::SetCross(n)) => self.set_cross(n),
            InterfaceEvent::Config(ConfigMessage::ConfigClosed) => {
                self.state.config_open = false;
                Vec::new()
            },
            InterfaceEvent::Quit => self.quit(),
            InterfaceEvent::SettingsChanged => one(Effect::Config(ConfigControl::SettingsChanged)),
        }
    }
}

} // verus!
