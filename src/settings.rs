//! The persisted settings and the store that owns them.
use vstd::prelude::*;

verus! {

/// Number of crosshair images that can be chosen from.
pub const CROSSHAIR_COUNT: usize = 3;

#[derive(Copy, Clone, Debug, PartialEq, Eq, Structural)]
pub struct Settings {
    pub crosshair: usize,
}

impl Settings {
    /// A settings value is usable when its crosshair names an existing image.
    pub open spec fn is_valid(self) -> bool {
        self.crosshair < CROSSHAIR_COUNT
    }

    /// The value with an out-of-range crosshair replaced by the first one.
    pub open spec fn coerced(self) -> Settings {
        if self.is_valid() {
            self
        } else {
            Settings { crosshair: 0 }
        }
    }

    pub fn default() -> (r: Settings)
        ensures
            r.crosshair == 0,
    {
        Settings { crosshair: 0 }
    }

    /// Resets an out-of-range crosshair to the first one.
    pub fn coerce(&mut self) -> (r: &Settings)
        ensures
            *final(self) == old(self).coerced(),
            *r == old(self).coerced(),
    {
        if self.crosshair >= CROSSHAIR_COUNT {
            self.crosshair = 0;
        }
        self
    }

    /// The settings to start from, given what could be read back from disk:
    /// the stored value, coerced, or the defaults when nothing was read.
    pub fn restore(stored: Option<Settings>) -> (r: Settings)
        ensures
            r == match stored {
                Some(s) => s.coerced(),
                None => Settings { crosshair: 0 },
            },
            r.is_valid(),
    {
        match stored {
            Some(mut s) => {
                s.coerce();
                s
            },
            None => Settings::default(),
        }
    }
}

/// What a store holds: the current settings, and how many change
/// notifications it has broadcast since it was made.
pub struct StoreState {
    pub settings: Settings,
    pub revision: nat,
}

/// The single owner of the settings. Every write replaces the whole value
/// and is followed by exactly one change notification, counted by the
/// store's revision.
pub struct SettingsStore {
    current: Settings,
    revision: u64,
}

impl View for SettingsStore {
    type V = StoreState;

    closed spec fn view(&self) -> StoreState {
        StoreState { settings: self.current, revision: self.revision as nat }
    }
}

impl SettingsStore {
    pub fn new(initial: Settings) -> (r: SettingsStore)
        ensures
            r@.settings == initial,
            r@.revision == 0,
    {
        SettingsStore { current: initial, revision: 0 }
    }

    /// Number of change notifications broadcast so far.
    pub fn revision(&self) -> (r: u64)
        ensures
            r == self@.revision,
    {
        self.revision
    }
}

/// Records that the settings were written: one more change notification.
fn updated(store: &mut SettingsStore)
    requires
        old(store)@.revision < u64::MAX,
    ensures
        final(store)@.settings == old(store)@.settings,
        final(store)@.revision == old(store)@.revision + 1,
{
    store.revision = store.revision + 1;
}

/// A snapshot of the current settings.
pub fn get(store: &SettingsStore) -> (r: Settings)
    ensures
        r == store@.settings,
{
    store.current
}

/// Stores `n` as the selected crosshair and raises one change notification.
pub fn set_crosshair(store: &mut SettingsStore, n: usize)
    requires
        old(store)@.revision < u64::MAX,
    ensures
        final(store)@.settings == (Settings { crosshair: n }),
        final(store)@.revision == old(store)@.revision + 1,
{
    store.current = Settings { crosshair: n };
    updated(store);
}

} // verus!
