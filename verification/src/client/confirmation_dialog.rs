//! The dialog that asks before something is done.

use vstd::prelude::*;

use crate::client::window::same_text;

verus! {

/// The answer that calls the action off.
pub const CANCEL: &'static str = "cancel";

/// The answer that lets the action go ahead.
pub const CONFIRM: &'static str = "confirm";

/// What the button that calls the action off says.
pub const CANCEL_TEXT: &'static str = "Anulează";

/// Collects what a dialog says before it is shown.
#[derive(Debug, Clone, Default, PartialEq, Eq)]
pub struct ConfirmationDialogBuilder {
    title: String,
    heading: String,
    body: String,
    confirm_text: String,
    action_is_destructive: bool,
}

/// What a [`ConfirmationDialogBuilder`] has collected, as mathematics.
pub struct DialogView {
    pub title: Seq<char>,
    pub heading: Seq<char>,
    pub body: Seq<char>,
    pub confirm_text: Seq<char>,
    pub action_is_destructive: bool,
}

impl View for ConfirmationDialogBuilder {
    type V = DialogView;

    closed spec fn view(&self) -> DialogView {
        DialogView {
            title: self.title@,
            heading: self.heading@,
            body: self.body@,
            confirm_text: self.confirm_text@,
            action_is_destructive: self.action_is_destructive,
        }
    }
}

/// An answer that a dialog offers, and what its button says.
#[derive(Debug, Clone, PartialEq, Eq)]
pub struct Response {
    pub id: String,
    pub label: String,
}

/// A dialog ready to be shown: what it says, the answers it offers, and
/// which of them stands for closing it.
#[derive(Debug, Clone, PartialEq, Eq)]
pub struct MessageDialog {
    pub title: String,
    pub heading: String,
    pub body: String,
    /// The answer that calls the action off.
    pub cancel: Response,
    /// The answer that lets the action go ahead.
    pub confirm: Response,
    /// The answer that the dialog suggests.
    pub default_response: String,
    /// The answer that closing the dialog gives.
    pub close_response: String,
    /// Whether the confirming button warns of damage.
    pub confirm_is_destructive: bool,
}

impl ConfirmationDialogBuilder {
    /// A builder that has collected nothing yet.
    pub fn new() -> (builder: Self)
        ensures
            builder@ == (DialogView {
                title: Seq::empty(),
                heading: Seq::empty(),
                body: Seq::empty(),
                confirm_text: Seq::empty(),
                action_is_destructive: false,
            }),
    {
        ConfirmationDialogBuilder {
            title: String::new(),
            heading: String::new(),
            body: String::new(),
            confirm_text: String::new(),
            action_is_destructive: false,
        }
    }

    pub fn title(self, title: String) -> (builder: Self)
        ensures
            builder@ == (DialogView { title: title@, ..self@ }),
    {
        let mut builder = self;
        builder.title = title;
        builder
    }

    pub fn heading(self, heading: String) -> (builder: Self)
        ensures
            builder@ == (DialogView { heading: heading@, ..self@ }),
    {
        let mut builder = self;
        builder.heading = heading;
        builder
    }

    pub fn body(self, body: String) -> (builder: Self)
        ensures
            builder@ == (DialogView { body: body@, ..self@ }),
    {
        let mut builder = self;
        builder.body = body;
        builder
    }

    pub fn confirm_text(self, confirm_text: String) -> (builder: Self)
        ensures
            builder@ == (DialogView { confirm_text: confirm_text@, ..self@ }),
    {
        let mut builder = self;
        builder.confirm_text = confirm_text;
        builder
    }

    pub fn action_is_destructive(self, b: bool) -> (builder: Self)
        ensures
            builder@ == (DialogView { action_is_destructive: b, ..self@ }),
    {
        let mut builder = self;
        builder.action_is_destructive = b;
        builder
    }

    /// The dialog: with what was collected, an answer that cancels, which is
    /// also what is suggested and what closing gives, and an answer that
    /// confirms.
    pub fn build(self) -> (dialog: MessageDialog)
        ensures
            dialog.title@ == self@.title,
            dialog.heading@ == self@.heading,
            dialog.body@ == self@.body,
            dialog.cancel.id@ == CANCEL@,
            dialog.cancel.label@ == CANCEL_TEXT@,
            dialog.confirm.id@ == CONFIRM@,
            dialog.confirm.label@ == self@.confirm_text,
            dialog.default_response@ == CANCEL@,
            dialog.close_response@ == CANCEL@,
            dialog.confirm_is_destructive == self@.action_is_destructive,
    {
        MessageDialog {
            title: self.title,
            heading: self.heading,
            body: self.body,
            cancel: Response {
                id: String::from_str(CANCEL),
                label: String::from_str(CANCEL_TEXT),
            },
            confirm: Response { id: String::from_str(CONFIRM), label: self.confirm_text },
            default_response: String::from_str(CANCEL),
            close_response: String::from_str(CANCEL),
            confirm_is_destructive: self.action_is_destructive,
        }
    }
}

/// Whether an answer to the dialog lets the action go ahead.
pub fn is_confirmation(response: &str) -> (confirmed: bool)
    ensures
        confirmed == (response@ == CONFIRM@),
{
    same_text(response, CONFIRM)
}

} // verus!
