//! Confirmation dialogs.
use vstd::prelude::*;

verus! {

/// What a dialog asks.
#[derive(Debug, Clone)]
pub enum DialogType {
    ConfirmDelete,
    ConfirmQuit,
    Custom(String),
}

impl DialogType {
    /// The question shown.
    pub fn message(&self) -> (s: &str)
        ensures
            s@ == match *self {
                DialogType::ConfirmDelete => "Are you sure you want to delete this item?"@,
                DialogType::ConfirmQuit => "Are you sure you want to quit?"@,
                DialogType::Custom(m) => m@,
            },
    {
        match self {
            DialogType::ConfirmDelete => "Are you sure you want to delete this item?",
            DialogType::ConfirmQuit => "Are you sure you want to quit?",
            DialogType::Custom(msg) => msg.as_str(),
        }
    }
}

/// State of the dialog: which one is open, and whether "Yes" is selected.
#[derive(Debug, Clone)]
pub struct DialogState {
    pub dialog_type: Option<DialogType>,
    /// `true` = Yes, `false` = No.
    pub selected: bool,
}

impl Default for DialogState {
    fn default() -> (s: Self)
        ensures
            s.dialog_type is None,
            !s.selected,
    {
        DialogState::new()
    }
}

impl DialogState {
    /// No dialog open.
    pub fn new() -> (s: Self)
        ensures
            s.dialog_type is None,
            !s.selected,
    {
        DialogState { dialog_type: None, selected: false }
    }

    /// Opens a dialog with "No" selected.
    pub fn show(&mut self, dialog_type: DialogType)
        ensures
            final(self).dialog_type == Some(dialog_type),
            !final(self).selected,
    {
        self.dialog_type = Some(dialog_type);
        self.selected = false;
    }

    /// Closes the dialog and resets the choice to "No".
    pub fn close(&mut self)
        ensures
            final(self).dialog_type is None,
            !final(self).selected,
    {
        self.dialog_type = None;
        self.selected = false;
    }

    /// Switches between "Yes" and "No".
    pub fn toggle(&mut self)
        ensures
            final(self).selected == !old(self).selected,
            final(self).dialog_type == old(self).dialog_type,
    {
        self.selected = !self.selected;
    }

    /// Whether a dialog is open.
    pub fn is_visible(&self) -> (b: bool)
        ensures
            b == (self.dialog_type is Some),
    {
        self.dialog_type.is_some()
    }

    /// Whether "Yes" is selected.
    pub fn confirmed(&self) -> (b: bool)
        ensures
            b == self.selected,
    {
        self.selected
    }
}

/// Status-bar hints for dialogs.
pub fn get_dialog_hints() -> (s: &'static str)
    ensures
        s@ == "←/→: Select | Enter: Confirm | Esc: Cancel"@,
{
    "←/→: Select | Enter: Confirm | Esc: Cancel"
}

} // verus!
