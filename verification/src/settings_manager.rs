//! User profiles: a profile name paired with the player tag it belongs to.

use vstd::prelude::*;

verus! {

/// One stored profile.
pub struct Settings {
    profile_name: String,
    coc_tag: String,
}

/// What a profile holds, as plain sequences of characters.
pub struct SettingsView {
    pub profile_name: Seq<char>,
    pub coc_tag: Seq<char>,
}

impl View for Settings {
    type V = SettingsView;

    closed spec fn view(&self) -> SettingsView {
        SettingsView { profile_name: self.profile_name@, coc_tag: self.coc_tag@ }
    }
}

/// The name and tag of the profile that every lookup currently resolves to.
pub open spec fn default_profile_word() -> Seq<char> {
    seq!['t', 'e', 's', 't']
}

impl Settings {
    /// Builds a profile from its name and tag, keeping both unchanged.
    pub fn new(profile_name: String, coc_tag: String) -> (settings: Self)
        ensures
            settings@.profile_name == profile_name@,
            settings@.coc_tag == coc_tag@,
    {
        Settings { profile_name, coc_tag }
    }

    /// The profile's name.
    pub fn profile_name(&self) -> (name: &str)
        ensures
            name@ == self@.profile_name,
    {
        self.profile_name.as_str()
    }

    /// The player tag stored with the profile.
    pub fn coc_tag(&self) -> (tag: &str)
        ensures
            tag@ == self@.coc_tag,
    {
        self.coc_tag.as_str()
    }

    /// Persisting a profile is not wired to any store; the profile is left as it is.
    pub fn save(&self) {
    }

    /// Removing a profile is not wired to any store; the profile is left as it is.
    pub fn delete(&self) {
    }
}

/// Looks a profile up by name. Every name resolves to the built-in profile whose
/// name and tag are both `test`.
pub fn get_profile(profile_name: &String) -> (settings: Settings)
    ensures
        settings@.profile_name == default_profile_word(),
        settings@.coc_tag == default_profile_word(),
{
    proof {
        reveal_strlit("test");
        assert("test"@ =~= default_profile_word());
    }
    Settings::new(String::from_str("test"), String::from_str("test"))
}

/// The names of all stored profiles. No store is attached, so there are none.
pub fn get_all_profile_names() -> (names: Vec<String>)
    ensures
        names@.len() == 0,
{
    Vec::new()
}

} // verus!
