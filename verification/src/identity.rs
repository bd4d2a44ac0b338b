//! The identity of the notifier: the texts by which the platform knows it.
//! The host hands it in once and every operation that needs it takes it
//! from there.

use vstd::prelude::*;

verus! {

/// What the platform knows the notifier by.
#[derive(Debug)]
pub struct Identity {
    /// The application user model id under which toasts are shown and under
    /// which the shortcut is registered.
    pub app_id: String,
    /// The file name of the shortcut in the menu's programs directory.
    pub shortcut_name: String,
    /// The description that the shortcut carries.
    pub description: String,
}

/// An `Identity` with its texts as character sequences.
pub struct IdentityView {
    pub app_id: Seq<char>,
    pub shortcut_name: Seq<char>,
    pub description: Seq<char>,
}

impl View for Identity {
    type V = IdentityView;

    open spec fn view(&self) -> IdentityView {
        IdentityView {
            app_id: self.app_id@,
            shortcut_name: self.shortcut_name@,
            description: self.description@,
        }
    }
}

impl Identity {
    /// The identity made of these three texts.
    pub fn new(app_id: &str, shortcut_name: &str, description: &str) -> (identity: Identity)
        ensures
            identity@ == (IdentityView {
                app_id: app_id@,
                shortcut_name: shortcut_name@,
                description: description@,
            }),
    {
        Identity {
            app_id: app_id.to_owned(),
            shortcut_name: shortcut_name.to_owned(),
            description: description.to_owned(),
        }
    }

    /// A copy of this identity, text for text.
    pub fn duplicate(&self) -> (copy: Identity)
        ensures
            copy == *self,
    {
        Identity {
            app_id: self.app_id.clone(),
            shortcut_name: self.shortcut_name.clone(),
            description: self.description.clone(),
        }
    }
}

} // verus!
