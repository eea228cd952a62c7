use verycross::config::{
    update_crosshair_buttons, ConfigControl, ConfigMessage, ConfigRunner, DialogAction, Event,
};

fn creations(actions: &[DialogAction]) -> usize {
    actions.iter().filter(|a| **a == DialogAction::Create).count()
}

#[test]
fn open_then_close_before_processing_ends_closed() {
    let mut d = ConfigRunner::new();
    let queued = vec![Event::Control(ConfigControl::Open), Event::Control(ConfigControl::Close)];
    let mut actions = Vec::new();
    for e in queued {
        actions.extend(d.handle(e));
    }
    assert!(!d.is_running());
    assert_eq!(
        actions,
        vec![
            DialogAction::Create,
            DialogAction::Destroy,
            DialogAction::Send(ConfigMessage::ConfigClosed)
        ]
    );
}

#[test]
fn two_rapid_opens_create_one_window() {
    let mut d = ConfigRunner::new();
    let mut actions = d.handle(Event::Control(ConfigControl::Open));
    actions.extend(d.handle(Event::Control(ConfigControl::Open)));
    assert_eq!(creations(&actions), 1);
    assert!(d.is_running());
}

#[test]
fn settings_changed_while_closed_is_dropped() {
    let mut d = ConfigRunner::new();
    assert!(d.handle(Event::Control(ConfigControl::SettingsChanged)).is_empty());
    assert!(!d.is_running());
}

#[test]
fn settings_changed_while_open_refreshes() {
    let mut d = ConfigRunner::new();
    d.handle(Event::Control(ConfigControl::Open));
    assert_eq!(
        d.handle(Event::Control(ConfigControl::SettingsChanged)),
        vec![DialogAction::Refresh]
    );
    assert!(d.is_running());
}

#[test]
fn stale_close_is_ignored() {
    let mut d = ConfigRunner::new();
    assert!(d.handle(Event::Control(ConfigControl::Close)).is_empty());
    assert!(d.handle(Event::CloseButton).is_empty());
    assert!(!d.is_running());
    // A stale close must not shut the next dialog.
    assert_eq!(d.handle(Event::Control(ConfigControl::Open)), vec![DialogAction::Create]);
    assert!(d.is_running());
}

#[test]
fn buttons_become_messages() {
    let mut d = ConfigRunner::new();
    d.handle(Event::Control(ConfigControl::Open));
    assert_eq!(
        d.handle(Event::ShowButton),
        vec![DialogAction::Send(ConfigMessage::ShowCross)]
    );
    assert_eq!(
        d.handle(Event::HideButton),
        vec![DialogAction::Send(ConfigMessage::HideCross)]
    );
    assert_eq!(
        d.handle(Event::SetCrossButton(2)),
        vec![DialogAction::Send(ConfigMessage::SetCross(2))]
    );
    assert_eq!(
        d.handle(Event::CloseButton),
        vec![DialogAction::Destroy, DialogAction::Send(ConfigMessage::ConfigClosed)]
    );
    assert!(!d.is_running());
}

#[test]
fn dialog_reopens_after_close() {
    let mut d = ConfigRunner::new();
    let mut actions = Vec::new();
    for e in [
        Event::Control(ConfigControl::Open),
        Event::CloseButton,
        Event::Control(ConfigControl::Open),
    ] {
        actions.extend(d.handle(e));
    }
    assert_eq!(creations(&actions), 2);
    assert!(d.is_running());
}

#[test]
fn clicks_while_closed_are_dropped() {
    let mut d = ConfigRunner::new();
    assert!(d.handle(Event::ShowButton).is_empty());
    assert!(d.handle(Event::SetCrossButton(1)).is_empty());
}

#[test]
fn highlight_marks_selected_button() {
    assert_eq!(update_crosshair_buttons(3, 1), vec![false, true, false]);
    assert_eq!(update_crosshair_buttons(3, 0), vec![true, false, false]);
    assert_eq!(update_crosshair_buttons(3, 5), vec![false, false, false]);
    assert!(update_crosshair_buttons(0, 0).is_empty());
}
