//! What an email backend receives.

use vstd::prelude::*;
use crate::text::{opt_str, opt_text, opt_texts, texts};

verus! {

/// The options of a request to compose an email.
#[derive(Debug)]
pub struct Options {
    address: Option<String>,
    addresses: Option<Vec<String>>,
    cc: Option<Vec<String>>,
    bcc: Option<Vec<String>>,
    subject: Option<String>,
    body: Option<String>,
    attachments: Option<Vec<String>>,
    activation_token: Option<String>,
}

/// The model of a [`Options`].
pub struct OptionsView {
    pub address: Option<Seq<char>>,
    pub addresses: Option<Seq<Seq<char>>>,
    pub cc: Option<Seq<Seq<char>>>,
    pub bcc: Option<Seq<Seq<char>>>,
    pub subject: Option<Seq<char>>,
    pub body: Option<Seq<char>>,
    pub attachments: Option<Seq<Seq<char>>>,
    pub activation_token: Option<Seq<char>>,
}

impl View for Options {
    type V = OptionsView;

    closed spec fn view(&self) -> OptionsView {
        OptionsView {
            address: opt_text(self.address),
            addresses: opt_texts(self.addresses),
            cc: opt_texts(self.cc),
            bcc: opt_texts(self.bcc),
            subject: opt_text(self.subject),
            body: opt_text(self.body),
            attachments: opt_texts(self.attachments),
            activation_token: opt_text(self.activation_token),
        }
    }
}

impl Options {
    /// The options as received.
    pub fn new(address: Option<String>, addresses: Option<Vec<String>>, cc: Option<Vec<String>>, bcc: Option<Vec<String>>, subject: Option<String>, body: Option<String>, attachments: Option<Vec<String>>, activation_token: Option<String>) -> (o: Options)
        ensures
            o@.address == opt_text(address),
            o@.addresses == opt_texts(addresses),
            o@.cc == opt_texts(cc),
            o@.bcc == opt_texts(bcc),
            o@.subject == opt_text(subject),
            o@.body == opt_text(body),
            o@.attachments == opt_texts(attachments),
            o@.activation_token == opt_text(activation_token),
    {
        Options { address, addresses, cc, bcc, subject, body, attachments, activation_token }
    }

    /// The address to send the email to.
    pub fn address(&self) -> (s: Option<&str>)
        ensures
            opt_str(s) == self@.address,
    {
        match &self.address {
            Some(v) => Some(v.as_str()),
            None => None,
        }
    }

    /// The addresses to send the email to; none where the options hold none.
    pub fn addresses(&self) -> (v: &[String])
        ensures
            v@.map_values(|x: String| x@) == match self@.addresses {
                Some(l) => l,
                None => Seq::<Seq<char>>::empty(),
            },
    {
        match &self.addresses {
            Some(l) => {
                assert(l@.map_values(|x: String| x@) =~= texts(l@));
                l.as_slice()
            },
            None => {
                let e: &[String] = &[];
                assert(e@.map_values(|x: String| x@) =~= Seq::<Seq<char>>::empty());
                e
            },
        }
    }

    /// The addresses to copy the email to; none where the options hold none.
    pub fn cc(&self) -> (v: &[String])
        ensures
            v@.map_values(|x: String| x@) == match self@.cc {
                Some(l) => l,
                None => Seq::<Seq<char>>::empty(),
            },
    {
        match &self.cc {
            Some(l) => {
                assert(l@.map_values(|x: String| x@) =~= texts(l@));
                l.as_slice()
            },
            None => {
                let e: &[String] = &[];
                assert(e@.map_values(|x: String| x@) =~= Seq::<Seq<char>>::empty());
                e
            },
        }
    }

    /// The addresses to blind copy the email to; none where the options hold none.
    pub fn bcc(&self) -> (v: &[String])
        ensures
            v@.map_values(|x: String| x@) == match self@.bcc {
                Some(l) => l,
                None => Seq::<Seq<char>>::empty(),
            },
    {
        match &self.bcc {
            Some(l) => {
                assert(l@.map_values(|x: String| x@) =~= texts(l@));
                l.as_slice()
            },
            None => {
                let e: &[String] = &[];
                assert(e@.map_values(|x: String| x@) =~= Seq::<Seq<char>>::empty());
                e
            },
        }
    }

    /// The email subject.
    pub fn subject(&self) -> (s: Option<&str>)
        ensures
            opt_str(s) == self@.subject,
    {
        match &self.subject {
            Some(v) => Some(v.as_str()),
            None => None,
        }
    }

    /// The email body.
    pub fn body(&self) -> (s: Option<&str>)
        ensures
            opt_str(s) == self@.body,
    {
        match &self.body {
            Some(v) => Some(v.as_str()),
            None => None,
        }
    }

    /// The URIs of the files to attach; none where the options hold none.
    pub fn attachments(&self) -> (v: &[String])
        ensures
            v@.map_values(|x: String| x@) == match self@.attachments {
                Some(l) => l,
                None => Seq::<Seq<char>>::empty(),
            },
    {
        match &self.attachments {
            Some(l) => {
                assert(l@.map_values(|x: String| x@) =~= texts(l@));
                l.as_slice()
            },
            None => {
                let e: &[String] = &[];
                assert(e@.map_values(|x: String| x@) =~= Seq::<Seq<char>>::empty());
                e
            },
        }
    }

    /// The token that lets the email client take focus.
    pub fn activation_token(&self) -> (s: Option<&str>)
        ensures
            opt_str(s) == self@.activation_token,
    {
        match &self.activation_token {
            Some(v) => Some(v.as_str()),
            None => None,
        }
    }
}

} // verus!
