//! The account portal: a request for the user's information, and what it
//! gives.

use vstd::prelude::*;
use crate::handle_token::{is_fresh_token, HandleToken};
use crate::proxy::{desktop_destination, desktop_path, Proxy, ProxyView};
use crate::text::{opt_owned, opt_str, opt_text, string_or_empty, text_or_empty};

verus! {

/// A request for the user's information.
#[derive(Debug)]
pub struct UserInformationRequest {
    handle_token: HandleToken,
    identifier: String,
    reason: Option<String>,
}

/// The model of a [`UserInformationRequest`].
pub struct UserInformationRequestView {
    pub token: Seq<char>,
    pub identifier: Seq<char>,
    pub reason: Option<Seq<char>>,
}

impl View for UserInformationRequest {
    type V = UserInformationRequestView;

    closed spec fn view(&self) -> UserInformationRequestView {
        UserInformationRequestView {
            token: self.handle_token@,
            identifier: self.identifier@,
            reason: opt_text(self.reason),
        }
    }
}

impl UserInformationRequest {
    /// A request with a fresh handle token and every option unset.
    pub fn default() -> (r: UserInformationRequest)
        ensures
            is_fresh_token(r@.token),
            r@.identifier == Seq::<char>::empty(),
            r@.reason is None,
    {
        UserInformationRequest {
            handle_token: HandleToken::default(),
            identifier: String::new(),
            reason: None,
        }
    }

    /// The handle token of the request.
    pub fn handle_token(&self) -> (t: &HandleToken)
        ensures
            t@ == self@.token,
    {
        &self.handle_token
    }

    /// Sets the identifier of the application's window; no identifier stands for the empty one.
    pub fn identifier(self, identifier: Option<String>) -> (r: Self)
        ensures
            r@ == (UserInformationRequestView { identifier: text_or_empty(identifier), ..self@ }),
    {
        let mut r = self;
        r.identifier = string_or_empty(identifier);
        r
    }

    /// Sets a user-visible reason for the request.
    pub fn reason(self, reason: Option<&str>) -> (r: Self)
        ensures
            r@ == (UserInformationRequestView { reason: opt_str(reason), ..self@ }),
    {
        let mut r = self;
        r.reason = opt_owned(reason);
        r
    }
}

/// The user's information: their id, their name and the URI of their image.
#[derive(Debug)]
pub struct UserInformation {
    id: String,
    name: String,
    image: String,
}

impl UserInformation {
    /// The information as the portal gives it.
    pub fn new(id: String, name: String, image: String) -> (u: UserInformation)
        ensures
            u.spec_id() == id@,
            u.spec_name() == name@,
            u.spec_image() == image@,
    {
        UserInformation { id, name, image }
    }

    /// The user's id.
    pub closed spec fn spec_id(self) -> Seq<char> {
        self.id@
    }

    /// The user's name.
    pub closed spec fn spec_name(self) -> Seq<char> {
        self.name@
    }

    /// The text of the image's URI.
    pub closed spec fn spec_image(self) -> Seq<char> {
        self.image@
    }

    /// The user's id.
    pub fn id(&self) -> (s: &str)
        ensures
            s@ == self.spec_id(),
    {
        self.id.as_str()
    }

    /// The user's real name.
    pub fn name(&self) -> (s: &str)
        ensures
            s@ == self.spec_name(),
    {
        self.name.as_str()
    }

    /// The URI of an image representing the user.
    pub fn image(&self) -> (s: &str)
        ensures
            s@ == self.spec_image(),
    {
        self.image.as_str()
    }
}

/// The user's information.
///
/// Wrapper of the DBus interface `org.freedesktop.portal.Account`.
#[derive(Debug)]
pub struct AccountProxy {
    proxy: Proxy,
}

impl View for AccountProxy {
    type V = ProxyView;

    closed spec fn view(&self) -> ProxyView {
        self.proxy@
    }
}

impl AccountProxy {
    /// The portal, which implements the given version of its interface.
    pub fn new(version: u32) -> (p: AccountProxy)
        ensures
            p@.destination == desktop_destination(),
            p@.interface == "org.freedesktop.portal.Account"@,
            p@.path == desktop_path(),
            p@.version == version,
    {
        AccountProxy { proxy: Proxy::new_desktop("org.freedesktop.portal.Account", version) }
    }

    /// Where the portal's calls go.
    pub fn inner(&self) -> (p: &Proxy)
        ensures
            p@ == self@,
    {
        &self.proxy
    }
}

} // verus!
