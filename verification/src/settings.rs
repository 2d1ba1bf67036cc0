//! The settings: texts kept under keys, and the two that the application
//! reads, the theme and the key for the tempo service.

use vstd::prelude::*;
use vstd::string::StringExecFns;
use crate::text::{copy_text, is_same_text};

verus! {

/// The settings as the application reads them.
#[derive(Clone, Debug, PartialEq, Eq)]
pub struct Settings {
    pub theme: String,
    pub bpm_api_key: Option<String>,
}

/// Mathematical value of [`Settings`].
pub struct SettingsValue {
    pub theme: Seq<char>,
    pub bpm_api_key: Option<Seq<char>>,
}

impl View for Settings {
    type V = SettingsValue;

    open spec fn view(&self) -> SettingsValue {
        SettingsValue { theme: self.theme@, bpm_api_key: self.bpm_api_key.deep_view() }
    }
}

/// What is given to change the settings: each value that is given is set, each
/// that is left out stays.
#[derive(Clone, Debug, PartialEq, Eq)]
pub struct SetSettingsPayload {
    pub theme: Option<String>,
    pub bpm_api_key: Option<String>,
}

/// A text kept under a key.
#[derive(Clone, Debug, PartialEq, Eq)]
pub struct Setting {
    pub key: String,
    pub value: String,
}

/// The texts kept under keys, in the order in which their keys were first set.
#[derive(Clone, Debug, PartialEq, Eq)]
pub struct SettingsStore {
    pub entries: Vec<Setting>,
}

impl View for SettingsStore {
    type V = Seq<(Seq<char>, Seq<char>)>;

    open spec fn view(&self) -> Seq<(Seq<char>, Seq<char>)> {
        Seq::new(self.entries@.len(), |i: int| (self.entries@[i].key@, self.entries@[i].value@))
    }
}

/// `i` is the first place of `s` with the key `key`.
pub open spec fn first_key_at(s: Seq<(Seq<char>, Seq<char>)>, key: Seq<char>, i: int) -> bool {
    &&& 0 <= i < s.len()
    &&& s[i].0 == key
    &&& forall|j: int| 0 <= j < i ==> s[j].0 != key
}

/// The first place of `s` with the key `key`, if there is one.
pub open spec fn key_place(s: Seq<(Seq<char>, Seq<char>)>, key: Seq<char>) -> Option<int> {
    if exists|i: int| first_key_at(s, key, i) {
        Some(choose|i: int| first_key_at(s, key, i))
    } else {
        None
    }
}

/// The text kept under `key`, if any.
pub open spec fn setting_of(s: Seq<(Seq<char>, Seq<char>)>, key: Seq<char>) -> Option<Seq<char>> {
    match key_place(s, key) {
        Some(i) => Some(s[i].1),
        None => None,
    }
}

/// The settings after `value` was put under `key`: in the place of the text
/// that was kept there, or at the end.
pub open spec fn with_setting(
    s: Seq<(Seq<char>, Seq<char>)>,
    key: Seq<char>,
    value: Seq<char>,
) -> Seq<(Seq<char>, Seq<char>)> {
    match key_place(s, key) {
        Some(i) => s.update(i, (key, value)),
        None => s.push((key, value)),
    }
}

/// The theme used where none is set.
pub open spec fn default_theme() -> Seq<char> {
    "dark"@
}

/// The settings that the application reads from the kept texts.
pub open spec fn settings_of(s: Seq<(Seq<char>, Seq<char>)>) -> SettingsValue {
    SettingsValue {
        theme: match setting_of(s, "theme"@) {
            Some(t) => t,
            None => default_theme(),
        },
        bpm_api_key: setting_of(s, "bpm_api_key"@),
    }
}

/// The kept texts after the values that a payload gives were set.
pub open spec fn with_payload(
    s: Seq<(Seq<char>, Seq<char>)>,
    p: SetSettingsPayload,
) -> Seq<(Seq<char>, Seq<char>)> {
    let themed = match p.theme {
        Some(t) => with_setting(s, "theme"@, t@),
        None => s,
    };
    match p.bpm_api_key {
        Some(k) => with_setting(themed, "bpm_api_key"@, k@),
        None => themed,
    }
}

impl SettingsStore {
    /// Settings with nothing set.
    pub fn new() -> (r: SettingsStore)
        ensures
            r@.len() == 0,
    {
        SettingsStore { entries: Vec::new() }
    }

    /// Finds the first place with the key `key`.
    fn place_of(&self, key: &str) -> (r: Option<usize>)
        ensures
            match r {
                Some(i) => key_place(self@, key@) == Some(i as int) && i < self.entries@.len(),
                None => key_place(self@, key@) is None,
            },
    {
        let ghost s = self@;
        let mut i: usize = 0;
        while i < self.entries.len()
            invariant
                i <= self.entries@.len(),
                s == self@,
                forall|j: int| 0 <= j < i ==> s[j].0 != key@,
            decreases self.entries@.len() - i,
        {
            assert(s[i as int].0 == self.entries@[i as int].key@);
            if is_same_text(self.entries[i].key.as_str(), key) {
                proof {
                    assert(first_key_at(s, key@, i as int));
                    let c = choose|c: int| first_key_at(s, key@, c);
                    if c < i {
                        assert(s[c].0 != key@);
                    }
                    if i < c {
                        assert(s[i as int].0 != key@);
                    }
                }
                return Some(i);
            }
            i = i + 1;
        }
        proof {
            if exists|c: int| first_key_at(s, key@, c) {
                let c = choose|c: int| first_key_at(s, key@, c);
                assert(s[c].0 != key@);
            }
        }
        None
    }
}

/// The text kept under `key`, if any.
pub fn get_setting(store: &SettingsStore, key: &str) -> (r: Option<String>)
    ensures
        r.deep_view() == setting_of(store@, key@),
{
    match store.place_of(key) {
        Some(i) => {
            assert(store@[i as int].1 == store.entries@[i as int].value@);
            Some(copy_text(&store.entries[i].value))
        },
        None => None,
    }
}

/// Puts `value` under `key`, in the place of the text that was kept there.
pub fn upsert_setting(store: &mut SettingsStore, key: &str, value: &str)
    ensures
        final(store)@ == with_setting(old(store)@, key@, value@),
{
    match store.place_of(key) {
        Some(i) => {
            store.entries[i] = Setting { key: String::from_str(key), value: String::from_str(value) };
            assert(store@ =~= old(store)@.update(i as int, (key@, value@)));
        },
        None => {
            store.entries.push(
                Setting { key: String::from_str(key), value: String::from_str(value) },
            );
            assert(store@ =~= old(store)@.push((key@, value@)));
        },
    }
}

/// The settings that the application reads: the theme, `dark` where none is
/// set, and the key for the tempo service.
pub fn settings_get(store: &SettingsStore) -> (r: Settings)
    ensures
        r@ == settings_of(store@),
{
    let theme = match get_setting(store, "theme") {
        Some(t) => t,
        None => String::from_str("dark"),
    };
    let bpm_api_key = get_setting(store, "bpm_api_key");
    Settings { theme, bpm_api_key }
}

/// Sets the values that `payload` gives and hands back the settings as they
/// then read.
pub fn settings_set(store: &mut SettingsStore, payload: SetSettingsPayload) -> (r: Settings)
    ensures
        final(store)@ == with_payload(old(store)@, payload),
        r@ == settings_of(final(store)@),
{
    match &payload.theme {
        Some(t) => {
            upsert_setting(store, "theme", t.as_str());
        },
        None => {},
    }
    match &payload.bpm_api_key {
        Some(k) => {
            upsert_setting(store, "bpm_api_key", k.as_str());
        },
        None => {},
    }
    settings_get(store)
}

} // verus!
