//! What a screenshot backend receives.

use vstd::prelude::*;

verus! {

/// The options of a request for a screenshot.
#[derive(Debug)]
pub struct ScreenshotOptions {
    modal: Option<bool>,
    interactive: Option<bool>,
    permission_store_checked: Option<bool>,
}

/// The model of a [`ScreenshotOptions`].
pub struct ScreenshotOptionsView {
    pub modal: Option<bool>,
    pub interactive: Option<bool>,
    pub permission_store_checked: Option<bool>,
}

impl View for ScreenshotOptions {
    type V = ScreenshotOptionsView;

    closed spec fn view(&self) -> ScreenshotOptionsView {
        ScreenshotOptionsView {
            modal: self.modal,
            interactive: self.interactive,
            permission_store_checked: self.permission_store_checked,
        }
    }
}

impl ScreenshotOptions {
    /// The options as received.
    pub fn new(modal: Option<bool>, interactive: Option<bool>, permission_store_checked: Option<bool>) -> (o: ScreenshotOptions)
        ensures
            o@.modal == modal,
            o@.interactive == interactive,
            o@.permission_store_checked == permission_store_checked,
    {
        ScreenshotOptions { modal, interactive, permission_store_checked }
    }

    /// Whether the dialog should be modal.
    pub fn modal(&self) -> (v: Option<bool>)
        ensures
            v == self@.modal,
    {
        self.modal
    }

    /// Whether the dialog should offer customization.
    pub fn interactive(&self) -> (v: Option<bool>)
        ensures
            v == self@.interactive,
    {
        self.interactive
    }

    /// Whether the permission store was checked.
    pub fn permission_store_checked(&self) -> (v: Option<bool>)
        ensures
            v == self@.permission_store_checked,
    {
        self.permission_store_checked
    }
}

/// The options of a request to pick a color: there are none.
#[derive(Debug)]
pub struct ColorOptions;

} // verus!
