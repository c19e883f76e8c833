//! The open URI portal: requests to open a file, a URI or a directory.

use vstd::prelude::*;
use crate::handle_token::{is_fresh_token, HandleToken};
use crate::proxy::{desktop_destination, desktop_path, Proxy, ProxyView};
use crate::text::{opt_owned, opt_str, opt_text, string_or_empty, text_or_empty};

verus! {

/// A request to open a file or a URI.
#[derive(Debug)]
pub struct OpenFileRequest {
    handle_token: HandleToken,
    identifier: String,
    writeable: Option<bool>,
    ask: Option<bool>,
    activation_token: Option<String>,
}

/// The model of a [`OpenFileRequest`].
pub struct OpenFileRequestView {
    pub token: Seq<char>,
    pub identifier: Seq<char>,
    pub writeable: Option<bool>,
    pub ask: Option<bool>,
    pub activation_token: Option<Seq<char>>,
}

impl View for OpenFileRequest {
    type V = OpenFileRequestView;

    closed spec fn view(&self) -> OpenFileRequestView {
        OpenFileRequestView {
            token: self.handle_token@,
            identifier: self.identifier@,
            writeable: self.writeable,
            ask: self.ask,
            activation_token: opt_text(self.activation_token),
        }
    }
}

impl OpenFileRequest {
    /// A request with a fresh handle token and every option unset.
    pub fn default() -> (r: OpenFileRequest)
        ensures
            is_fresh_token(r@.token),
            r@.identifier == Seq::<char>::empty(),
            r@.writeable is None,
            r@.ask is None,
            r@.activation_token is None,
    {
        OpenFileRequest {
            handle_token: HandleToken::default(),
            identifier: String::new(),
            writeable: None,
            ask: None,
            activation_token: None,
        }
    }

    /// The handle token of the request.
    pub fn handle_token(&self) -> (t: &HandleToken)
        ensures
            t@ == self@.token,
    {
        &self.handle_token
    }

    /// Sets the identifier of the application's window; no identifier stands for the empty one.
    pub fn identifier(self, identifier: Option<String>) -> (r: Self)
        ensures
            r@ == (OpenFileRequestView { identifier: text_or_empty(identifier), ..self@ }),
    {
        let mut r = self;
        r.identifier = string_or_empty(identifier);
        r
    }

    /// Sets whether the file should be writeable or not.
    pub fn writeable(self, writeable: Option<bool>) -> (r: Self)
        ensures
            r@ == (OpenFileRequestView { writeable: writeable, ..self@ }),
    {
        let mut r = self;
        r.writeable = writeable;
        r
    }

    /// Sets whether to ask the user to choose an application.
    pub fn ask(self, ask: Option<bool>) -> (r: Self)
        ensures
            r@ == (OpenFileRequestView { ask: ask, ..self@ }),
    {
        let mut r = self;
        r.ask = ask;
        r
    }

    /// Sets the token that lets the opened application take focus.
    pub fn activation_token(self, activation_token: Option<&str>) -> (r: Self)
        ensures
            r@ == (OpenFileRequestView { activation_token: opt_str(activation_token), ..self@ }),
    {
        let mut r = self;
        r.activation_token = opt_owned(activation_token);
        r
    }
}

/// A request to open the directory that holds a file.
#[derive(Debug)]
pub struct OpenDirectoryRequest {
    handle_token: HandleToken,
    identifier: String,
    activation_token: Option<String>,
}

/// The model of a [`OpenDirectoryRequest`].
pub struct OpenDirectoryRequestView {
    pub token: Seq<char>,
    pub identifier: Seq<char>,
    pub activation_token: Option<Seq<char>>,
}

impl View for OpenDirectoryRequest {
    type V = OpenDirectoryRequestView;

    closed spec fn view(&self) -> OpenDirectoryRequestView {
        OpenDirectoryRequestView {
            token: self.handle_token@,
            identifier: self.identifier@,
            activation_token: opt_text(self.activation_token),
        }
    }
}

impl OpenDirectoryRequest {
    /// A request with a fresh handle token and every option unset.
    pub fn default() -> (r: OpenDirectoryRequest)
        ensures
            is_fresh_token(r@.token),
            r@.identifier == Seq::<char>::empty(),
            r@.activation_token is None,
    {
        OpenDirectoryRequest {
            handle_token: HandleToken::default(),
            identifier: String::new(),
            activation_token: None,
        }
    }

    /// The handle token of the request.
    pub fn handle_token(&self) -> (t: &HandleToken)
        ensures
            t@ == self@.token,
    {
        &self.handle_token
    }

    /// Sets the identifier of the application's window; no identifier stands for the empty one.
    pub fn identifier(self, identifier: Option<String>) -> (r: Self)
        ensures
            r@ == (OpenDirectoryRequestView { identifier: text_or_empty(identifier), ..self@ }),
    {
        let mut r = self;
        r.identifier = string_or_empty(identifier);
        r
    }

    /// Sets the token that lets the opened application take focus.
    pub fn activation_token(self, activation_token: Option<&str>) -> (r: Self)
        ensures
            r@ == (OpenDirectoryRequestView { activation_token: opt_str(activation_token), ..self@ }),
    {
        let mut r = self;
        r.activation_token = opt_owned(activation_token);
        r
    }
}

/// Open files and URIs with other applications.
///
/// Wrapper of the DBus interface `org.freedesktop.portal.OpenURI`.
#[derive(Debug)]
pub struct OpenURIProxy {
    proxy: Proxy,
}

impl View for OpenURIProxy {
    type V = ProxyView;

    closed spec fn view(&self) -> ProxyView {
        self.proxy@
    }
}

impl OpenURIProxy {
    /// The portal, which implements the given version of its interface.
    pub fn new(version: u32) -> (p: OpenURIProxy)
        ensures
            p@.destination == desktop_destination(),
            p@.interface == "org.freedesktop.portal.OpenURI"@,
            p@.path == desktop_path(),
            p@.version == version,
    {
        OpenURIProxy { proxy: Proxy::new_desktop("org.freedesktop.portal.OpenURI", version) }
    }

    /// Where the portal's calls go.
    pub fn inner(&self) -> (p: &Proxy)
        ensures
            p@ == self@,
    {
        &self.proxy
    }
}

} // verus!
