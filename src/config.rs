//! The configuration dialog's loop. The dialog is created on an open signal
//! and destroyed when the user or the coordinator closes it, over and over.
//! Everything the loop reacts to while the dialog is up, the coordinator's
//! commands included, arrives as one kind of event from one source, so the
//! native wait always wakes up for it.
use vstd::prelude::*;

verus! {

/// A message from the dialog loop to the coordinator.
#[derive(Copy, Clone, Debug, PartialEq, Eq, Structural)]
pub enum ConfigMessage {
    ShowCross,
    HideCross,
    SetCross(usize),
    ConfigClosed,
}

/// A command from the coordinator to the dialog loop.
#[derive(Copy, Clone, Debug, PartialEq, Eq, Structural)]
pub enum ConfigControl {
    Open,
    Close,
    SettingsChanged,
}

/// Everything the dialog loop reacts to: the coordinator's commands and
/// the clicks on the dialog's buttons.
#[derive(Copy, Clone, Debug, PartialEq, Eq, Structural)]
pub enum Event {
    Control(ConfigControl),
    ShowButton,
    HideButton,
    SetCrossButton(usize),
    CloseButton,
}

/// What the dialog loop does in answer to an event.
#[derive(Copy, Clone, Debug, PartialEq, Eq, Structural)]
pub enum DialogAction {
    /// Builds and shows the dialog, highlighting the current selection.
    Create,
    /// Re-reads the current selection and highlights it.
    Refresh,
    /// Tears the dialog down.
    Destroy,
    /// Sends a message to the coordinator.
    Send(ConfigMessage),
}

/// The dialog's decisions on one event, given whether it is up.
pub open spec fn dialog_step(running: bool, e: Event) -> (bool, Seq<DialogAction>) {
    if !running {
        match e {
            Event::Control(ConfigControl::Open) => (true, seq![DialogAction::Create]),
            _ => (false, Seq::empty()),
        }
    } else {
        match e {
            Event::Control(ConfigControl::Open) => (true, Seq::empty()),
            Event::Control(ConfigControl::SettingsChanged) => (true, seq![DialogAction::Refresh]),
            Event::ShowButton => (true, seq![DialogAction::Send(ConfigMessage::ShowCross)]),
            Event::HideButton => (true, seq![DialogAction::Send(ConfigMessage::HideCross)]),
            Event::SetCrossButton(n) => (true, seq![DialogAction::Send(ConfigMessage::SetCross(n))]),
            Event::Control(ConfigControl::Close) | Event::CloseButton => (
                false,
                seq![DialogAction::Destroy, DialogAction::Send(ConfigMessage::ConfigClosed)],
            ),
        }
    }
}

/// The dialog's answers to a run of events, in order.
pub open spec fn dialog_run(running: bool, events: Seq<Event>) -> (bool, Seq<DialogAction>)
    decreases events.len(),
{
    if events.len() == 0 {
        (running, Seq::empty())
    } else {
        let first = dialog_step(running, events[0]);
        let rest = dialog_run(first.0, events.drop_first());
        (rest.0, first.1 + rest.1)
    }
}

/// Whether the dialog is created and destroyed in turn along `actions`,
/// starting up or not, and ends up as `last`.
pub open spec fn windows_alternate(up: bool, actions: Seq<DialogAction>, last: bool) -> bool
    decreases actions.len(),
{
    if actions.len() == 0 {
        up == last
    } else {
        match actions[0] {
            DialogAction::Create => !up && windows_alternate(true, actions.drop_first(), last),
            DialogAction::Destroy => up && windows_alternate(false, actions.drop_first(), last),
            _ => windows_alternate(up, actions.drop_first(), last),
        }
    }
}

/// Whatever events reach it, the dialog goes closed, running, closed: it is
/// never created twice without being destroyed between, and the state it
/// ends in is the one its creations and destructions leave.
pub proof fn lemma_dialog_lifecycle(running: bool, events: Seq<Event>)
    ensures
        windows_alternate(running, dialog_run(running, events).1, dialog_run(running, events).0),
    decreases events.len(),
{
    if events.len() > 0 {
        let first = dialog_step(running, events[0]);
        let rest = dialog_run(first.0, events.drop_first());
        lemma_dialog_lifecycle(first.0, events.drop_first());
        let all = first.1 + rest.1;
        if first.1.len() == 0 {
            assert(all =~= rest.1);
        } else if first.1.len() == 1 {
            assert(all.drop_first() =~= rest.1);
        } else {
            assert(all.drop_first().drop_first() =~= rest.1);
            assert(windows_alternate(first.0, all.drop_first(), rest.0));
        }
    }
}

/// A settings change while the dialog is closed changes nothing and
/// causes nothing.
pub proof fn lemma_settings_changed_when_closed()
    ensures
        dialog_step(false, Event::Control(ConfigControl::SettingsChanged)) == (false, Seq::<DialogAction>::empty()),
{
}

fn one(a: DialogAction) -> (r: Vec<DialogAction>)
    ensures
        r@ == seq![a],
{
    let mut r: Vec<DialogAction> = Vec::new();
    r.push(a);
    r
}

/// The dialog loop's state: closed (waiting for an open signal) or running.
pub struct ConfigRunner {
    running: bool,
}

impl View for ConfigRunner {
    type V = bool;

    closed spec fn view(&self) -> bool {
        self.running
    }
}

impl ConfigRunner {
    /// A loop that waits for its first open signal.
    pub fn new() -> (r: ConfigRunner)
        ensures
            !r@,
    {
        ConfigRunner { running: false }
    }

    pub fn is_running(&self) -> (r: bool)
        ensures
            r == self@,
    {
        self.running
    }

    /// Handles one event. While closed the loop only listens for an open
    /// signal: a close, a settings change or a stray click is dropped.
    pub fn handle(&mut self, e: Event) -> (r: Vec<DialogAction>)
        ensures
            (final(self)@, r@) == dialog_step(old(self)@, e),
    {
        if !self.running {
            return match e {
                Event::Control(ConfigControl::Open) => {
                    self.running = true;
                    one(DialogAction::Create)
                },
                _ => Vec::new(),
            };
        }
        match e {
            Event::Control(ConfigControl::Open) => Vec::new(),
            Event::Control(ConfigControl::SettingsChanged) => one(DialogAction::Refresh),
            Event::ShowButton => one(DialogAction::Send(ConfigMessage::ShowCross)),
            Event::HideButton => one(DialogAction::Send(ConfigMessage::HideCross)),
            Event::SetCrossButton(n) => one(DialogAction::Send(ConfigMessage::SetCross(n))),
            Event::Control(ConfigControl::Close) | Event::CloseButton => {
                self.running = false;
                let mut r = one(DialogAction::Destroy);
                r.push(DialogAction::Send(ConfigMessage::ConfigClosed));
                r
            },
        }
    }
}

/// Which of `count` crosshair buttons is highlighted: the one at `index`.
pub fn update_crosshair_buttons(count: usize, index: usize) -> (r: Vec<bool>)
    ensures
        r@.len() == count,
        forall|i: int| 0 <= i < count ==> r@[i] == (i == index),
{
    let mut r: Vec<bool> = Vec::new();
    let mut i: usize = 0;
    while i < count
        invariant
            i <= count,
            r@.len() == i,
            forall|j: int| 0 <= j < i ==> r@[j] == (j == index),
        decreases count - i,
    {
        r.push(i == index);
        i = i + 1;
    }
    r
}

} // verus!
