//! The screenshot portal: requests for a screenshot or a picked color, and
//! the screenshot taken.

use vstd::prelude::*;
use crate::handle_token::{is_fresh_token, HandleToken};
use crate::proxy::{desktop_destination, desktop_path, Proxy, ProxyView};
use crate::text::{string_or_empty, text_or_empty};

verus! {

/// A request to take a screenshot.
#[derive(Debug)]
pub struct ScreenshotRequest {
    handle_token: HandleToken,
    identifier: String,
    modal: Option<bool>,
    interactive: Option<bool>,
}

/// The model of a [`ScreenshotRequest`].
pub struct ScreenshotRequestView {
    pub token: Seq<char>,
    pub identifier: Seq<char>,
    pub modal: Option<bool>,
    pub interactive: Option<bool>,
}

impl View for ScreenshotRequest {
    type V = ScreenshotRequestView;

    closed spec fn view(&self) -> ScreenshotRequestView {
        ScreenshotRequestView {
            token: self.handle_token@,
            identifier: self.identifier@,
            modal: self.modal,
            interactive: self.interactive,
        }
    }
}

impl ScreenshotRequest {
    /// A request with a fresh handle token and every option unset.
    pub fn default() -> (r: ScreenshotRequest)
        ensures
            is_fresh_token(r@.token),
            r@.identifier == Seq::<char>::empty(),
            r@.modal is None,
            r@.interactive is None,
    {
        ScreenshotRequest {
            handle_token: HandleToken::default(),
            identifier: String::new(),
            modal: None,
            interactive: None,
        }
    }

    /// The handle token of the request.
    pub fn handle_token(&self) -> (t: &HandleToken)
        ensures
            t@ == self@.token,
    {
        &self.handle_token
    }

    /// Sets the identifier of the application's window; no identifier stands for the empty one.
    pub fn identifier(self, identifier: Option<String>) -> (r: Self)
        ensures
            r@ == (ScreenshotRequestView { identifier: text_or_empty(identifier), ..self@ }),
    {
        let mut r = self;
        r.identifier = string_or_empty(identifier);
        r
    }

    /// Sets whether the dialog should be a modal.
    pub fn modal(self, modal: Option<bool>) -> (r: Self)
        ensures
            r@ == (ScreenshotRequestView { modal: modal, ..self@ }),
    {
        let mut r = self;
        r.modal = modal;
        r
    }

    /// Sets whether the dialog should offer customization before taking a screenshot.
    pub fn interactive(self, interactive: Option<bool>) -> (r: Self)
        ensures
            r@ == (ScreenshotRequestView { interactive: interactive, ..self@ }),
    {
        let mut r = self;
        r.interactive = interactive;
        r
    }
}

/// A request to pick a color.
#[derive(Debug)]
pub struct ColorRequest {
    handle_token: HandleToken,
    identifier: String,
}

/// The model of a [`ColorRequest`].
pub struct ColorRequestView {
    pub token: Seq<char>,
    pub identifier: Seq<char>,
}

impl View for ColorRequest {
    type V = ColorRequestView;

    closed spec fn view(&self) -> ColorRequestView {
        ColorRequestView {
            token: self.handle_token@,
            identifier: self.identifier@,
        }
    }
}

impl ColorRequest {
    /// A request with a fresh handle token and every option unset.
    pub fn default() -> (r: ColorRequest)
        ensures
            is_fresh_token(r@.token),
            r@.identifier == Seq::<char>::empty(),
    {
        ColorRequest {
            handle_token: HandleToken::default(),
            identifier: String::new(),
        }
    }

    /// The handle token of the request.
    pub fn handle_token(&self) -> (t: &HandleToken)
        ensures
            t@ == self@.token,
    {
        &self.handle_token
    }

    /// Sets the identifier of the application's window; no identifier stands for the empty one.
    pub fn identifier(self, identifier: Option<String>) -> (r: Self)
        ensures
            r@ == (ColorRequestView { identifier: text_or_empty(identifier), ..self@ }),
    {
        let mut r = self;
        r.identifier = string_or_empty(identifier);
        r
    }
}

/// A screenshot: the URI of the image file.
#[derive(Debug)]
pub struct Screenshot {
    uri: String,
}

impl Screenshot {
    /// The screenshot at the given URI.
    pub fn new(uri: String) -> (s: Screenshot)
        ensures
            s.spec_uri() == uri@,
    {
        Screenshot { uri }
    }

    /// The text of the image's URI.
    pub closed spec fn spec_uri(self) -> Seq<char> {
        self.uri@
    }

    /// The screenshot's URI.
    pub fn uri(&self) -> (u: &str)
        ensures
            u@ == self.spec_uri(),
    {
        self.uri.as_str()
    }
}

/// Take screenshots and pick colors.
///
/// Wrapper of the DBus interface `org.freedesktop.portal.Screenshot`.
#[derive(Debug)]
pub struct ScreenshotProxy {
    proxy: Proxy,
}

impl View for ScreenshotProxy {
    type V = ProxyView;

    closed spec fn view(&self) -> ProxyView {
        self.proxy@
    }
}

impl ScreenshotProxy {
    /// The portal, which implements the given version of its interface.
    pub fn new(version: u32) -> (p: ScreenshotProxy)
        ensures
            p@.destination == desktop_destination(),
            p@.interface == "org.freedesktop.portal.Screenshot"@,
            p@.path == desktop_path(),
            p@.version == version,
    {
        ScreenshotProxy { proxy: Proxy::new_desktop("org.freedesktop.portal.Screenshot", version) }
    }

    /// Where the portal's calls go.
    pub fn inner(&self) -> (p: &Proxy)
        ensures
            p@ == self@,
    {
        &self.proxy
    }
}

} // verus!
