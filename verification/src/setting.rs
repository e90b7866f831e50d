//! The fixed, ordered catalogue of settings that a panel shows.

use vstd::prelude::*;

verus! {

/// A named boolean control backed by exactly one file.
#[derive(Debug, Clone, PartialEq, Eq)]
pub struct Setting {
    /// Stable identifier of the setting.
    pub name: String,
    /// Text shown for the setting.
    pub label: String,
    /// Location of the backing file.
    pub path: String,
}

/// Mathematical model of a [`Setting`].
pub ghost struct SettingView {
    pub name: Seq<char>,
    pub label: Seq<char>,
    pub path: Seq<char>,
}

impl View for Setting {
    type V = SettingView;

    open spec fn view(&self) -> SettingView {
        SettingView { name: self.name@, label: self.label@, path: self.path@ }
    }
}

impl Setting {
    /// A setting with the given identifier, display text and backing file.
    pub fn new(name: String, label: String, path: String) -> (setting: Setting)
        ensures
            setting@ == (SettingView { name: name@, label: label@, path: path@ }),
    {
        Setting { name, label, path }
    }
}

/// The settings of a panel, in the order in which they are shown. There is
/// always at least one, and the catalogue never changes once it is made.
#[derive(Debug)]
pub struct Settings {
    items: Vec<Setting>,
}

impl View for Settings {
    type V = Seq<SettingView>;

    closed spec fn view(&self) -> Seq<SettingView> {
        Seq::new(self.items@.len(), |i: int| self.items@[i]@)
    }
}

/// The models of a list of settings, in the same order.
pub open spec fn setting_views(items: Seq<Setting>) -> Seq<SettingView> {
    Seq::new(items.len(), |i: int| items[i]@)
}

impl Settings {
    #[verifier::type_invariant]
    spec fn inv(self) -> bool {
        self.items@.len() > 0
    }

    /// Makes the catalogue out of `items`, keeping their order. An empty
    /// list is no catalogue: nothing could be selected in it.
    pub fn new(items: Vec<Setting>) -> (settings: Option<Settings>)
        ensures
            items@.len() == 0 <==> settings is None,
            settings matches Some(made) ==> made@ == setting_views(items@),
    {
        if items.len() == 0 {
            None
        } else {
            let made = Settings { items };
            assert(made@ =~= setting_views(items@));
            Some(made)
        }
    }

    /// The number of settings, which is never zero.
    pub fn len(&self) -> (count: usize)
        ensures
            count == self@.len(),
            count > 0,
    {
        proof {
            use_type_invariant(self);
        }
        self.items.len()
    }

    /// The settings in their order.
    pub fn items(&self) -> (items: &Vec<Setting>)
        ensures
            setting_views(items@) == self@,
            items@.len() > 0,
    {
        proof {
            use_type_invariant(self);
        }
        assert(setting_views(self.items@) =~= self@);
        &self.items
    }

    /// The setting at `index`, if there is one.
    pub fn get(&self, index: usize) -> (found: Option<&Setting>)
        ensures
            index < self@.len() <==> found is Some,
            found matches Some(setting) ==> setting@ == self@[index as int],
    {
        if index < self.items.len() {
            Some(&self.items[index])
        } else {
            None
        }
    }
}

} // verus!
