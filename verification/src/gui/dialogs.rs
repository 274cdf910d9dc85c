//! State of the dialog boxes.

use vstd::prelude::*;

verus! {

/// The about dialog's state: the version and build date it shows.
#[derive(Debug)]
pub struct AboutDialog {
    version: String,
    build_date: String,
}

impl AboutDialog {
    /// An about dialog showing the crate version; the build date is the
    /// timestamp at the moment the dialog is made.
    pub fn new() -> (r: AboutDialog)
        ensures
            r.version_spec() == "0.1.0"@,
    {
        AboutDialog {
            version: String::from_str("0.1.0"),
            build_date: crate::utils::format_u64(crate::utils::TimeUtils::current_timestamp()),
        }
    }

    /// The version text shown.
    pub closed spec fn version_spec(self) -> Seq<char> {
        self.version@
    }
}

/// The error dialog's state: its title, message and optional details.
#[derive(Debug)]
pub struct ErrorDialog {
    title: String,
    message: String,
    details: Option<String>,
}

impl ErrorDialog {
    /// An error dialog without details.
    pub fn new(title: String, message: String) -> (r: ErrorDialog)
        ensures
            r.title_spec() == title@,
            r.message_spec() == message@,
            r.details_spec() is None,
    {
        ErrorDialog { title, message, details: None }
    }

    /// The same dialog with the given details section.
    pub fn with_details(self, details: String) -> (r: ErrorDialog)
        ensures
            r.title_spec() == self.title_spec(),
            r.message_spec() == self.message_spec(),
            r.details_spec() == Some(details@),
    {
        ErrorDialog { details: Some(details), ..self }
    }

    /// The dialog title.
    pub closed spec fn title_spec(self) -> Seq<char> {
        self.title@
    }

    /// The dialog message.
    pub closed spec fn message_spec(self) -> Seq<char> {
        self.message@
    }

    /// The details section's text, if one is present.
    pub closed spec fn details_spec(self) -> Option<Seq<char>> {
        match self.details {
            Some(ref d) => Some(d@),
            None => None,
        }
    }
}

/// The confirmation dialog's state: its texts and button labels.
#[derive(Debug)]
pub struct ConfirmDialog {
    title: String,
    message: String,
    confirm_text: String,
    cancel_text: String,
}

impl ConfirmDialog {
    /// A confirmation dialog with the stock button labels.
    pub fn new(title: String, message: String) -> (r: ConfirmDialog)
        ensures
            r.title_spec() == title@,
            r.message_spec() == message@,
            r.confirm_spec() == "OK"@,
            r.cancel_spec() == "Cancel"@,
    {
        ConfirmDialog {
            title,
            message,
            confirm_text: String::from_str("OK"),
            cancel_text: String::from_str("Cancel"),
        }
    }

    /// The same dialog with its button labels replaced.
    pub fn with_buttons(self, confirm: String, cancel: String) -> (r: ConfirmDialog)
        ensures
            r.title_spec() == self.title_spec(),
            r.message_spec() == self.message_spec(),
            r.confirm_spec() == confirm@,
            r.cancel_spec() == cancel@,
    {
        ConfirmDialog { confirm_text: confirm, cancel_text: cancel, ..self }
    }

    /// The dialog title.
    pub closed spec fn title_spec(self) -> Seq<char> {
        self.title@
    }

    /// The dialog message.
    pub closed spec fn message_spec(self) -> Seq<char> {
        self.message@
    }

    /// The confirm button's label.
    pub closed spec fn confirm_spec(self) -> Seq<char> {
        self.confirm_text@
    }

    /// The cancel button's label.
    pub closed spec fn cancel_spec(self) -> Seq<char> {
        self.cancel_text@
    }
}

} // verus!
