//! The client popup: one small shared record with a single writer and
//! many readers.

use vstd::prelude::*;
use vstd::string::StringExecFns;

verus! {

/// What the client shows on startup when active.
#[derive(Debug)]
pub struct ClientPopup {
    pub heading: String,
    pub paragraph: String,
    pub active: bool,
}

impl ClientPopup {
    /// A field-for-field copy.
    pub fn duplicate(&self) -> (r: Self)
        ensures
            r == *self,
    {
        Self {
            heading: self.heading.clone(),
            paragraph: self.paragraph.clone(),
            active: self.active,
        }
    }
}

/// Owns the popup record. Readers get a copy; an update replaces the
/// whole record.
#[derive(Debug)]
pub struct PopupManager {
    popup: ClientPopup,
}

impl PopupManager {
    /// The record currently held.
    pub closed spec fn current(self) -> ClientPopup {
        self.popup
    }

    /// A manager holding the welcome popup, inactive.
    pub fn new() -> (r: Self)
        ensures
            r.current().heading@ == "Velkommen"@,
            r.current().paragraph@ == "Takk for at du har lastet ned appen!"@,
            !r.current().active,
    {
        Self {
            popup: ClientPopup {
                heading: String::from_str("Velkommen"),
                paragraph: String::from_str("Takk for at du har lastet ned appen!"),
                active: false,
            },
        }
    }

    /// Replaces the record and returns what is now held.
    pub fn update(&mut self, update: ClientPopup) -> (r: ClientPopup)
        ensures
            final(self).current() == update,
            r == update,
    {
        let copy = update.duplicate();
        self.popup = update;
        copy
    }

    /// A copy of the record currently held.
    pub fn read(&self) -> (r: ClientPopup)
        ensures
            r == self.current(),
    {
        self.popup.duplicate()
    }
}

} // verus!
