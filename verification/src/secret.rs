//! The secret portal and the proxy resolver.

use vstd::prelude::*;
use crate::handle_token::{is_fresh_token, HandleToken};
use crate::proxy::{desktop_destination, desktop_path, Proxy, ProxyView};
use crate::text::{opt_owned, opt_str, opt_text};

verus! {

/// The options of a request to retrieve the application's secret.
#[derive(Debug)]
pub struct RetrieveOptions {
    handle_token: HandleToken,
    token: Option<String>,
}

/// The model of a [`RetrieveOptions`].
pub struct RetrieveOptionsView {
    pub handle_token: Seq<char>,
    pub token: Option<Seq<char>>,
}

impl View for RetrieveOptions {
    type V = RetrieveOptionsView;

    closed spec fn view(&self) -> RetrieveOptionsView {
        RetrieveOptionsView {
            handle_token: self.handle_token@,
            token: opt_text(self.token),
        }
    }
}

impl RetrieveOptions {
    /// A request with a fresh handle token and every option unset.
    pub fn default() -> (r: RetrieveOptions)
        ensures
            is_fresh_token(r@.handle_token),
            r@.token is None,
    {
        RetrieveOptions {
            handle_token: HandleToken::default(),
            token: None,
        }
    }

    /// The handle token of the request.
    pub fn handle_token(&self) -> (t: &HandleToken)
        ensures
            t@ == self@.handle_token,
    {
        &self.handle_token
    }

    /// Sets the token of a previous retrieval.
    pub fn token(self, token: Option<&str>) -> (r: Self)
        ensures
            r@ == (RetrieveOptionsView { token: opt_str(token), ..self@ }),
    {
        let mut r = self;
        r.token = opt_owned(token);
        r
    }
}

/// Retrieve a per-application secret.
///
/// Wrapper of the DBus interface `org.freedesktop.portal.Secret`.
#[derive(Debug)]
pub struct Secret {
    proxy: Proxy,
}

impl View for Secret {
    type V = ProxyView;

    closed spec fn view(&self) -> ProxyView {
        self.proxy@
    }
}

impl Secret {
    /// The portal, which implements the given version of its interface.
    pub fn new(version: u32) -> (p: Secret)
        ensures
            p@.destination == desktop_destination(),
            p@.interface == "org.freedesktop.portal.Secret"@,
            p@.path == desktop_path(),
            p@.version == version,
    {
        Secret { proxy: Proxy::new_desktop("org.freedesktop.portal.Secret", version) }
    }

    /// Where the portal's calls go.
    pub fn inner(&self) -> (p: &Proxy)
        ensures
            p@ == self@,
    {
        &self.proxy
    }
}

/// Look up the network proxies to use for a URI.
///
/// Wrapper of the DBus interface `org.freedesktop.portal.ProxyResolver`.
#[derive(Debug)]
pub struct ProxyResolver {
    proxy: Proxy,
}

impl View for ProxyResolver {
    type V = ProxyView;

    closed spec fn view(&self) -> ProxyView {
        self.proxy@
    }
}

impl ProxyResolver {
    /// The portal, which implements the given version of its interface.
    pub fn new(version: u32) -> (p: ProxyResolver)
        ensures
            p@.destination == desktop_destination(),
            p@.interface == "org.freedesktop.portal.ProxyResolver"@,
            p@.path == desktop_path(),
            p@.version == version,
    {
        ProxyResolver { proxy: Proxy::new_desktop("org.freedesktop.portal.ProxyResolver", version) }
    }

    /// Where the portal's calls go.
    pub fn inner(&self) -> (p: &Proxy)
        ensures
            p@ == self@,
    {
        &self.proxy
    }
}

} // verus!
