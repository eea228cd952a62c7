use verycross::settings::{get, set_crosshair, Settings, SettingsStore, CROSSHAIR_COUNT};

#[test]
fn default_selects_first_crosshair() {
    assert_eq!(Settings::default(), Settings { crosshair: 0 });
}

#[test]
fn coerce_keeps_valid_selection() {
    let mut s = Settings { crosshair: 2 };
    assert_eq!(*s.coerce(), Settings { crosshair: 2 });
    assert_eq!(s.crosshair, 2);
}

#[test]
fn coerce_resets_out_of_range_selection() {
    let mut s = Settings { crosshair: 3 };
    assert_eq!(s.coerce().crosshair, 0);
    assert_eq!(s.crosshair, 0);
    let mut big = Settings { crosshair: usize::MAX };
    big.coerce();
    assert_eq!(big.crosshair, 0);
}

#[test]
fn restore_without_stored_value_uses_defaults() {
    assert_eq!(Settings::restore(None), Settings { crosshair: 0 });
}

#[test]
fn restore_coerces_stored_value() {
    assert_eq!(Settings::restore(Some(Settings { crosshair: 1 })), Settings { crosshair: 1 });
    assert_eq!(Settings::restore(Some(Settings { crosshair: 7 })), Settings { crosshair: 0 });
}

#[test]
fn set_crosshair_stores_selection_and_notifies_once() {
    for i in 0..CROSSHAIR_COUNT {
        let mut store = SettingsStore::new(Settings::default());
        let before = store.revision();
        set_crosshair(&mut store, i);
        assert_eq!(get(&store).crosshair, i);
        assert_eq!(store.revision(), before + 1);
    }
}

#[test]
fn every_write_notifies_once() {
    let mut store = SettingsStore::new(Settings { crosshair: 2 });
    assert_eq!(store.revision(), 0);
    assert_eq!(get(&store), Settings { crosshair: 2 });
    set_crosshair(&mut store, 1);
    set_crosshair(&mut store, 1);
    set_crosshair(&mut store, 0);
    assert_eq!(store.revision(), 3);
    assert_eq!(get(&store).crosshair, 0);
}
