//! What a wallpaper backend receives, and what it answers.

use vstd::prelude::*;

use crate::request::{Response, ResponseType, spec_response_type};
use crate::wallpaper::SetOn;

verus! {

/// The options of a request to set the wallpaper.
#[derive(Debug)]
pub struct WallpaperOptions {
    show_preview: Option<bool>,
    set_on: Option<SetOn>,
}

/// The model of a [`WallpaperOptions`].
pub struct WallpaperOptionsView {
    pub show_preview: Option<bool>,
    pub set_on: Option<SetOn>,
}

impl View for WallpaperOptions {
    type V = WallpaperOptionsView;

    closed spec fn view(&self) -> WallpaperOptionsView {
        WallpaperOptionsView {
            show_preview: self.show_preview,
            set_on: self.set_on,
        }
    }
}

impl WallpaperOptions {
    /// The options as received.
    pub fn new(show_preview: Option<bool>, set_on: Option<SetOn>) -> (o: WallpaperOptions)
        ensures
            o@.show_preview == show_preview,
            o@.set_on == set_on,
    {
        WallpaperOptions { show_preview, set_on }
    }

    /// Whether to show a preview first.
    pub fn show_preview(&self) -> (v: Option<bool>)
        ensures
            v == self@.show_preview,
    {
        self.show_preview
    }

    /// Where to set the wallpaper.
    pub fn set_on(&self) -> (v: Option<SetOn>)
        ensures
            v == self@.set_on,
    {
        self.set_on
    }
}

/// What a backend answers a request to set the wallpaper: the status of the
/// response its implementation gave.
pub fn wallpaper_answer(response: &Response<()>) -> (t: ResponseType)
    ensures
        t == spec_response_type(*response),
{
    response.response_type()
}

} // verus!
