//! The email portal: a request to compose an email.

use vstd::prelude::*;
use crate::handle_token::{is_fresh_token, HandleToken};
use crate::proxy::{desktop_destination, desktop_path, Proxy, ProxyView};
use crate::text::{opt_owned, opt_str, opt_text, opt_texts, string_or_empty, text_or_empty};

verus! {

/// A request to compose an email.
#[derive(Debug)]
pub struct EmailRequest {
    handle_token: HandleToken,
    identifier: String,
    address: Option<String>,
    addresses: Option<Vec<String>>,
    cc: Option<Vec<String>>,
    bcc: Option<Vec<String>>,
    subject: Option<String>,
    body: Option<String>,
    attachment_fds: Option<Vec<i32>>,
}

/// The model of a [`EmailRequest`].
pub struct EmailRequestView {
    pub token: Seq<char>,
    pub identifier: Seq<char>,
    pub address: Option<Seq<char>>,
    pub addresses: Option<Seq<Seq<char>>>,
    pub cc: Option<Seq<Seq<char>>>,
    pub bcc: Option<Seq<Seq<char>>>,
    pub subject: Option<Seq<char>>,
    pub body: Option<Seq<char>>,
    pub attachment_fds: Option<Seq<i32>>,
}

impl View for EmailRequest {
    type V = EmailRequestView;

    closed spec fn view(&self) -> EmailRequestView {
        EmailRequestView {
            token: self.handle_token@,
            identifier: self.identifier@,
            address: opt_text(self.address),
            addresses: opt_texts(self.addresses),
            cc: opt_texts(self.cc),
            bcc: opt_texts(self.bcc),
            subject: opt_text(self.subject),
            body: opt_text(self.body),
            attachment_fds: match self.attachment_fds { Some(v) => Some(v@), None => None },
        }
    }
}

impl EmailRequest {
    /// A request with a fresh handle token and every option unset.
    pub fn default() -> (r: EmailRequest)
        ensures
            is_fresh_token(r@.token),
            r@.identifier == Seq::<char>::empty(),
            r@.address is None,
            r@.addresses is None,
            r@.cc is None,
            r@.bcc is None,
            r@.subject is None,
            r@.body is None,
            r@.attachment_fds is None,
    {
        EmailRequest {
            handle_token: HandleToken::default(),
            identifier: String::new(),
            address: None,
            addresses: None,
            cc: None,
            bcc: None,
            subject: None,
            body: None,
            attachment_fds: None,
        }
    }

    /// The handle token of the request.
    pub fn handle_token(&self) -> (t: &HandleToken)
        ensures
            t@ == self@.token,
    {
        &self.handle_token
    }

    /// Sets the identifier of the application's window; no identifier stands for the empty one.
    pub fn identifier(self, identifier: Option<String>) -> (r: Self)
        ensures
            r@ == (EmailRequestView { identifier: text_or_empty(identifier), ..self@ }),
    {
        let mut r = self;
        r.identifier = string_or_empty(identifier);
        r
    }

    /// Sets the email address to send the email to.
    pub fn address(self, address: Option<&str>) -> (r: Self)
        ensures
            r@ == (EmailRequestView { address: opt_str(address), ..self@ }),
    {
        let mut r = self;
        r.address = opt_owned(address);
        r
    }

    /// Sets a list of email addresses to send the email to.
    pub fn addresses(self, addresses: Option<Vec<String>>) -> (r: Self)
        ensures
            r@ == (EmailRequestView { addresses: opt_texts(addresses), ..self@ }),
    {
        let mut r = self;
        r.addresses = addresses;
        r
    }

    /// Sets a list of email addresses to copy the email to.
    pub fn cc(self, cc: Option<Vec<String>>) -> (r: Self)
        ensures
            r@ == (EmailRequestView { cc: opt_texts(cc), ..self@ }),
    {
        let mut r = self;
        r.cc = cc;
        r
    }

    /// Sets a list of email addresses to blind copy the email to.
    pub fn bcc(self, bcc: Option<Vec<String>>) -> (r: Self)
        ensures
            r@ == (EmailRequestView { bcc: opt_texts(bcc), ..self@ }),
    {
        let mut r = self;
        r.bcc = bcc;
        r
    }

    /// Sets the email subject.
    pub fn subject(self, subject: Option<&str>) -> (r: Self)
        ensures
            r@ == (EmailRequestView { subject: opt_str(subject), ..self@ }),
    {
        let mut r = self;
        r.subject = opt_owned(subject);
        r
    }

    /// Sets the email body.
    pub fn body(self, body: Option<&str>) -> (r: Self)
        ensures
            r@ == (EmailRequestView { body: opt_str(body), ..self@ }),
    {
        let mut r = self;
        r.body = opt_owned(body);
        r
    }

    /// Attaches the file with the given descriptor.
    pub fn attach(self, attachment: i32) -> (r: Self)
        ensures
            r@ == (EmailRequestView {
                attachment_fds: Some(
                    match self@.attachment_fds {
                        Some(v) => v,
                        None => Seq::<i32>::empty(),
                    }.push(attachment),
                ),
                ..self@
            }),
    {
        let mut r = self;
        r.add_attachment(attachment);
        r
    }

    /// Attaches the file with the given descriptor, in place.
    pub fn add_attachment(&mut self, attachment: i32)
        ensures
            final(self)@ == (EmailRequestView {
                attachment_fds: Some(
                    match old(self)@.attachment_fds {
                        Some(v) => v,
                        None => Seq::<i32>::empty(),
                    }.push(attachment),
                ),
                ..old(self)@
            }),
    {
        let mut fds = match self.attachment_fds.take() {
            Some(v) => v,
            None => Vec::new(),
        };
        proof {
            if old(self)@.attachment_fds is None {
                assert(fds@ =~= Seq::<i32>::empty());
            }
        }
        fds.push(attachment);
        self.attachment_fds = Some(fds);
    }
}

/// Compose emails.
///
/// Wrapper of the DBus interface `org.freedesktop.portal.Email`.
#[derive(Debug)]
pub struct EmailProxy {
    proxy: Proxy,
}

impl View for EmailProxy {
    type V = ProxyView;

    closed spec fn view(&self) -> ProxyView {
        self.proxy@
    }
}

impl EmailProxy {
    /// The portal, which implements the given version of its interface.
    pub fn new(version: u32) -> (p: EmailProxy)
        ensures
            p@.destination == desktop_destination(),
            p@.interface == "org.freedesktop.portal.Email"@,
            p@.path == desktop_path(),
            p@.version == version,
    {
        EmailProxy { proxy: Proxy::new_desktop("org.freedesktop.portal.Email", version) }
    }

    /// Where the portal's calls go.
    pub fn inner(&self) -> (p: &Proxy)
        ensures
            p@ == self@,
    {
        &self.proxy
    }
}

} // verus!
